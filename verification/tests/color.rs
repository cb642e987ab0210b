use kalesh_os::vga_buffer::{Color, ColorCode};

const PALETTE: [Color; 16] = [
    Color::Black,
    Color::Blue,
    Color::Green,
    Color::Cyan,
    Color::Red,
    Color::Magenta,
    Color::Brown,
    Color::LightGray,
    Color::DarkGray,
    Color::LightBlue,
    Color::LightGreen,
    Color::LightCyan,
    Color::LightRed,
    Color::Pink,
    Color::Yellow,
    Color::White,
];

#[test]
fn color_codes_follow_the_palette_order() {
    for (index, color) in PALETTE.iter().enumerate() {
        assert_eq!(color.code() as usize, index);
    }
}

#[test]
fn color_codes_fit_in_four_bits_and_are_distinct() {
    for a in PALETTE {
        assert!(a.code() < 16);
        for b in PALETTE {
            assert_eq!(a.code() == b.code(), a == b);
        }
    }
}

#[test]
fn color_code_has_background_high_and_foreground_low() {
    for fg in PALETTE {
        for bg in PALETTE {
            let packed = ColorCode::new(fg, bg);
            assert_eq!(packed.0, (bg.code() << 4) | fg.code());
            assert_eq!(packed.0 & 0x0f, fg.code());
            assert_eq!(packed.0 >> 4, bg.code());
        }
    }
}

#[test]
fn color_code_nibbles_recover_both_colors() {
    for fg in PALETTE {
        for bg in PALETTE {
            let packed = ColorCode::new(fg, bg);
            assert_eq!(packed.foreground(), fg);
            assert_eq!(packed.background(), bg);
        }
    }
}

#[test]
fn color_code_exact_values() {
    assert_eq!(ColorCode::new(Color::Yellow, Color::Black), ColorCode(0x0e));
    assert_eq!(ColorCode::new(Color::White, Color::Blue), ColorCode(0x1f));
    assert_eq!(ColorCode::new(Color::Black, Color::White), ColorCode(0xf0));
    assert_eq!(ColorCode::new(Color::LightGray, Color::Black), ColorCode(0x07));
    assert_eq!(ColorCode::new(Color::Pink, Color::LightRed), ColorCode(0xcd));
}

#[test]
fn color_code_accepts_equal_foreground_and_background() {
    let packed = ColorCode::new(Color::Red, Color::Red);
    assert_eq!(packed, ColorCode(0x44));
    assert_eq!(packed.foreground(), Color::Red);
    assert_eq!(packed.background(), Color::Red);
}

#[test]
fn every_byte_is_an_attribute() {
    for byte in 0..=255u8 {
        let attribute = ColorCode(byte);
        assert_eq!(attribute.foreground().code(), byte & 0x0f);
        assert_eq!(attribute.background().code(), byte >> 4);
        assert_eq!(ColorCode::new(attribute.foreground(), attribute.background()), attribute);
    }
}

#[test]
fn from_nibble_reads_the_low_nibble_only() {
    assert_eq!(Color::from_nibble(0x00), Color::Black);
    assert_eq!(Color::from_nibble(0x04), Color::Red);
    assert_eq!(Color::from_nibble(0xf4), Color::Red);
    assert_eq!(Color::from_nibble(0x0f), Color::White);
    assert_eq!(Color::from_nibble(0x3e), Color::Yellow);
    for byte in 0..=255u8 {
        assert_eq!(Color::from_nibble(byte).code(), byte & 0x0f);
    }
}
