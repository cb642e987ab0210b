//! What holds of every console, proved over the mathematical picture that the
//! writer's contracts are stated in.

use super::color::ColorCode;
use super::screen::{
    blank_cell, blank_row, blank_rows, display_byte, is_printable, Screen, ScreenChar,
    BUFFER_HEIGHT, BUFFER_WIDTH, NEWLINE, PLACEHOLDER, SPACE,
};
use vstd::prelude::*;

verus! {

/// A scroll keeps the console well formed.
pub proof fn lemma_new_line_wf(screen: Screen)
    requires
        screen.wf(),
    ensures
        screen.new_line().wf(),
{
}

/// Writing a byte keeps the console well formed and its attribute unchanged.
pub proof fn lemma_write_byte_wf(screen: Screen, byte: u8)
    requires
        screen.wf(),
    ensures
        screen.write_byte(byte).wf(),
        screen.write_byte(byte).color_code == screen.color_code,
{
}

/// Writing a text keeps the console well formed and its attribute unchanged.
pub proof fn lemma_write_bytes_wf(screen: Screen, bytes: Seq<u8>)
    requires
        screen.wf(),
    ensures
        screen.write_bytes(bytes).wf(),
        screen.write_bytes(bytes).color_code == screen.color_code,
    decreases bytes.len(),
{
    if bytes.len() > 0 {
        lemma_write_bytes_wf(screen, bytes.drop_last());
    }
}

/// Writing a text of one byte is writing the byte that is shown for it.
pub proof fn lemma_write_bytes_single(screen: Screen, byte: u8)
    ensures
        screen.write_bytes(seq![byte]) == screen.write_byte(display_byte(byte)),
{
    let bytes = seq![byte];
    assert(bytes.drop_last() =~= Seq::<u8>::empty());
    assert(screen.write_bytes(bytes.drop_last()) == screen);
}

/// Writing two texts one after the other is writing them joined.
pub proof fn lemma_write_bytes_concat(screen: Screen, first: Seq<u8>, second: Seq<u8>)
    ensures
        screen.write_bytes(first + second) == screen.write_bytes(first).write_bytes(second),
    decreases second.len(),
{
    if second.len() == 0 {
        assert(first + second =~= first);
    } else {
        lemma_write_bytes_concat(screen, first, second.drop_last());
        assert((first + second).drop_last() =~= first + second.drop_last());
    }
}

/// Printable ASCII and the newline are shown as they are; every other byte is
/// shown as the placeholder glyph.  Only the newline is shown as a newline.
pub proof fn lemma_display_byte(byte: u8)
    ensures
        (0x20 <= byte <= 0x7e || byte == 0x0a) ==> display_byte(byte) == byte,
        !(0x20 <= byte <= 0x7e || byte == 0x0a) ==> display_byte(byte) == 0xfe,
        display_byte(byte) == NEWLINE <==> byte == NEWLINE,
{
}

/// A byte of text other than the newline ends up in one cell of the bottom
/// row: the one under the cursor or, where the row was full, the first one
/// after a scroll.  That cell holds the byte itself if it is printable ASCII
/// and the placeholder glyph if it is not, in the current attribute, and the
/// cursor stands just behind it.
pub proof fn lemma_written_cell(screen: Screen, byte: u8)
    requires
        screen.wf(),
        byte != NEWLINE,
    ensures
        ({
            let after = screen.write_bytes(seq![byte]);
            let col = if screen.column < BUFFER_WIDTH {
                screen.column as int
            } else {
                0
            };
            let cell = after.bottom_row()[col];
            &&& is_printable(byte) ==> cell.ascii_character == byte
            &&& !is_printable(byte) ==> cell.ascii_character == PLACEHOLDER
            &&& cell.color_code == screen.color_code
            &&& after.column == col + 1
        }),
{
    lemma_write_bytes_single(screen, byte);
}

/// A byte other than the newline that arrives while the bottom row has room
/// changes the cell under the cursor and no other.
pub proof fn lemma_write_in_row(screen: Screen, byte: u8)
    requires
        screen.wf(),
        byte != NEWLINE,
        screen.column < BUFFER_WIDTH,
    ensures
        ({
            let after = screen.write_byte(byte);
            &&& after.column == screen.column + 1
            &&& after.bottom_row()[screen.column as int] == (ScreenChar {
                ascii_character: byte,
                color_code: screen.color_code,
            })
            &&& forall|row: int, col: int|
                0 <= row < BUFFER_HEIGHT && 0 <= col < BUFFER_WIDTH && !(row == BUFFER_HEIGHT - 1
                    && col == screen.column) ==> after.rows[row][col] == screen.rows[row][col]
        }),
{
}

/// A byte other than the newline that arrives while the bottom row is full
/// scrolls first and is then put at the left edge of the new bottom row.
pub proof fn lemma_write_wraps(screen: Screen, byte: u8)
    requires
        screen.wf(),
        byte != NEWLINE,
        screen.column == BUFFER_WIDTH,
    ensures
        ({
            let after = screen.write_byte(byte);
            &&& after == screen.new_line().put(byte)
            &&& after.column == 1
            &&& forall|row: int|
                0 <= row < BUFFER_HEIGHT - 1 ==> after.rows[row] == screen.rows[row + 1]
            &&& after.bottom_row()[0] == (ScreenChar {
                ascii_character: byte,
                color_code: screen.color_code,
            })
            &&& forall|col: int|
                1 <= col < BUFFER_WIDTH ==> after.bottom_row()[col] == blank_cell(
                    screen.color_code,
                )
        }),
{
}

/// A newline scrolls wherever the cursor stands, whether it is written as a
/// byte or as text: every row moves up by one, the cursor returns to the left
/// edge, and the bottom row is empty, so the newline itself is nowhere shown.
pub proof fn lemma_newline_scrolls(screen: Screen)
    requires
        screen.wf(),
    ensures
        screen.write_byte(NEWLINE) == screen.new_line(),
        screen.write_bytes(seq![NEWLINE]) == screen.new_line(),
        screen.new_line().column == 0,
        screen.new_line().color_code == screen.color_code,
        forall|row: int|
            0 <= row < BUFFER_HEIGHT - 1 ==> screen.new_line().rows[row] == screen.rows[row + 1],
        screen.new_line().bottom_row() == blank_row(screen.color_code),
{
    lemma_write_bytes_single(screen, NEWLINE);
}

/// After a scroll every cell of the bottom row is a space in the attribute
/// that the console had when it scrolled, whatever the grid held before.
pub proof fn lemma_scroll_clears_bottom_row(screen: Screen)
    requires
        screen.wf(),
    ensures
        forall|col: int|
            0 <= col < BUFFER_WIDTH ==> {
                let cell = #[trigger] screen.new_line().bottom_row()[col];
                cell.ascii_character == SPACE && cell.color_code == screen.color_code
            },
{
}

/// A text without a newline that fits behind the cursor is laid out from the
/// cursor on, one cell per byte, and changes nothing else.
pub proof fn lemma_write_line(screen: Screen, line: Seq<u8>)
    requires
        screen.wf(),
        screen.column + line.len() <= BUFFER_WIDTH,
        forall|i: int| 0 <= i < line.len() ==> line[i] != NEWLINE,
    ensures
        ({
            let after = screen.write_bytes(line);
            &&& after.wf()
            &&& after.column == screen.column + line.len()
            &&& after.color_code == screen.color_code
            &&& forall|row: int|
                0 <= row < BUFFER_HEIGHT - 1 ==> after.rows[row] == screen.rows[row]
            &&& forall|col: int|
                0 <= col < BUFFER_WIDTH ==> #[trigger] after.bottom_row()[col] == if screen.column
                    <= col < screen.column + line.len() {
                    ScreenChar {
                        ascii_character: display_byte(line[col - screen.column]),
                        color_code: screen.color_code,
                    }
                } else {
                    screen.bottom_row()[col]
                }
        }),
    decreases line.len(),
{
    if line.len() > 0 {
        lemma_write_line(screen, line.drop_last());
    }
}

/// Whether `line` is a line of text that fits in one row: no longer than the
/// row, and without a newline.
pub open spec fn fits_row(line: Seq<u8>) -> bool {
    &&& line.len() <= BUFFER_WIDTH
    &&& forall|i: int| 0 <= i < line.len() ==> line[i] != NEWLINE
}

/// The row that shows `line` from its left edge in `color_code`, empty behind
/// the end of the line.
pub open spec fn line_row(line: Seq<u8>, color_code: ColorCode) -> Seq<ScreenChar> {
    Seq::new(
        BUFFER_WIDTH as nat,
        |col: int|
            if col < line.len() {
                ScreenChar { ascii_character: display_byte(line[col]), color_code }
            } else {
                blank_cell(color_code)
            },
    )
}

/// The text that writes `lines` one below the other: the lines in order with a
/// newline between each two of them.
pub open spec fn join_lines(lines: Seq<Seq<u8>>) -> Seq<u8>
    decreases lines.len(),
{
    if lines.len() == 0 {
        Seq::empty()
    } else if lines.len() == 1 {
        lines[0]
    } else {
        join_lines(lines.drop_last()) + seq![NEWLINE] + lines.last()
    }
}

/// An empty console: the cursor at the left edge, every cell a space in
/// `color_code`.
pub open spec fn blank_screen(color_code: ColorCode) -> Screen {
    Screen { column: 0, color_code, rows: blank_rows(color_code) }
}

/// What `row` shows once `lines` were written to an empty console: the last
/// line stands in the bottom row, the one before it in the row above, and so
/// on; a row for which no line is left is empty.
pub open spec fn row_after_lines(lines: Seq<Seq<u8>>, color_code: ColorCode, row: int) -> Seq<
    ScreenChar,
> {
    let i = lines.len() - BUFFER_HEIGHT + row;
    if i >= 0 {
        line_row(lines[i], color_code)
    } else {
        blank_row(color_code)
    }
}

/// Lines written to an empty console stand in its lowest rows, in order, the
/// last line in the bottom row; once there are more lines than rows the oldest
/// are gone.
pub proof fn lemma_lines_fill_from_bottom(color_code: ColorCode, lines: Seq<Seq<u8>>)
    requires
        forall|i: int| 0 <= i < lines.len() ==> fits_row(#[trigger] lines[i]),
    ensures
        ({
            let after = blank_screen(color_code).write_bytes(join_lines(lines));
            &&& after.wf()
            &&& after.color_code == color_code
            &&& after.column == if lines.len() == 0 {
                0
            } else {
                lines.last().len()
            }
            &&& forall|row: int|
                0 <= row < BUFFER_HEIGHT ==> #[trigger] after.rows[row] == row_after_lines(
                    lines,
                    color_code,
                    row,
                )
        }),
    decreases lines.len(),
{
    let start = blank_screen(color_code);
    let after = start.write_bytes(join_lines(lines));
    if lines.len() == 0 {
        assert(after == start);
    } else if lines.len() == 1 {
        lemma_write_line(start, lines[0]);
        assert(after.bottom_row() =~= line_row(lines[0], color_code));
    } else {
        let earlier = lines.drop_last();
        let last = lines.last();
        let before = start.write_bytes(join_lines(earlier));
        lemma_lines_fill_from_bottom(color_code, earlier);
        lemma_write_bytes_concat(start, join_lines(earlier) + seq![NEWLINE], last);
        lemma_write_bytes_concat(start, join_lines(earlier), seq![NEWLINE]);
        lemma_newline_scrolls(before);
        lemma_write_line(before.new_line(), last);
        assert(after == before.new_line().write_bytes(last));
        assert(after.bottom_row() =~= line_row(last, color_code));
        assert forall|row: int| 0 <= row < BUFFER_HEIGHT implies #[trigger] after.rows[row]
            == row_after_lines(lines, color_code, row) by {
            if row < BUFFER_HEIGHT - 1 {
                assert(after.rows[row] == before.rows[row + 1]);
                assert(before.rows[row + 1] == row_after_lines(earlier, color_code, row + 1));
            }
        }
    }
}

/// Fewer lines than the grid has rows are all kept: written to an empty
/// console they stand in its lowest rows in order, each from the left edge
/// with its printable bytes as themselves, and the rows above them are still
/// empty.
pub proof fn lemma_lines_round_trip(color_code: ColorCode, lines: Seq<Seq<u8>>)
    requires
        lines.len() < BUFFER_HEIGHT,
        forall|i: int| 0 <= i < lines.len() ==> fits_row(#[trigger] lines[i]),
    ensures
        ({
            let after = blank_screen(color_code).write_bytes(join_lines(lines));
            let top = BUFFER_HEIGHT - lines.len();
            &&& forall|row: int|
                0 <= row < top ==> #[trigger] after.rows[row] == blank_row(color_code)
            &&& forall|row: int|
                top <= row < BUFFER_HEIGHT ==> #[trigger] after.rows[row] == line_row(
                    lines[row - top],
                    color_code,
                )
            &&& forall|row: int, col: int|
                top <= row < BUFFER_HEIGHT && 0 <= col < lines[row - top].len() && is_printable(
                    lines[row - top][col],
                ) ==> (#[trigger] after.rows[row][col]).ascii_character == lines[row - top][col]
        }),
{
    lemma_lines_fill_from_bottom(color_code, lines);
}

} // verus!
