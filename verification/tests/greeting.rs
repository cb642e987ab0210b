use kalesh_os::vga_buffer::{
    print_something, Buffer, Color, ColorCode, ScreenChar, BUFFER_HEIGHT, BUFFER_WIDTH,
};

#[test]
fn print_something_writes_the_greeting_in_yellow_on_black() {
    let writer = print_something(Buffer::blank(ColorCode(0x07)));
    let yellow = ColorCode::new(Color::Yellow, Color::Black);
    assert_eq!(writer.color_code(), yellow);
    assert_eq!(writer.color_code(), ColorCode(0x0e));
    assert_eq!(writer.column_position(), 13);

    let shown = b"Hello W\xfe\xferld!";
    assert_eq!(shown.len(), 13);
    let bottom = &writer.buffer().chars[BUFFER_HEIGHT - 1];
    for col in 0..shown.len() {
        assert_eq!(bottom[col], ScreenChar { ascii_character: shown[col], color_code: yellow });
    }
    for col in shown.len()..BUFFER_WIDTH {
        assert_eq!(bottom[col], ScreenChar { ascii_character: b' ', color_code: ColorCode(0x07) });
    }
}

#[test]
fn print_something_leaves_the_rest_of_the_grid_alone() {
    let mut buffer = Buffer::blank(ColorCode(0x07));
    for row in 0..BUFFER_HEIGHT {
        for col in 0..BUFFER_WIDTH {
            buffer.chars[row][col] = ScreenChar {
                ascii_character: b'0' + (col % 10) as u8,
                color_code: ColorCode(row as u8),
            };
        }
    }
    let before = buffer.chars;
    let writer = print_something(buffer);
    for row in 0..BUFFER_HEIGHT - 1 {
        assert_eq!(writer.buffer().chars[row], before[row]);
    }
    for col in 13..BUFFER_WIDTH {
        assert_eq!(writer.buffer().chars[BUFFER_HEIGHT - 1][col], before[BUFFER_HEIGHT - 1][col]);
    }
    assert_eq!(writer.buffer().chars[BUFFER_HEIGHT - 1][0].ascii_character, b'H');
    assert_eq!(writer.buffer().chars[BUFFER_HEIGHT - 1][7].ascii_character, 0xfe);
    assert_eq!(writer.buffer().chars[BUFFER_HEIGHT - 1][8].ascii_character, 0xfe);
    assert_eq!(writer.buffer().chars[BUFFER_HEIGHT - 1][12].ascii_character, b'!');
}
