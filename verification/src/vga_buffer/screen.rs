//! Character cells, the 80x25 grid, and the mathematical picture of a console
//! on which the writer's contracts are stated.

use super::color::ColorCode;
use vstd::prelude::*;

verus! {

/// Number of rows of the grid.
pub const BUFFER_HEIGHT: usize = 25;

/// Number of columns of the grid.
pub const BUFFER_WIDTH: usize = 80;

/// The byte that starts a new line.
pub const NEWLINE: u8 = 0x0a;

/// The character of an empty cell.
pub const SPACE: u8 = 0x20;

/// The glyph shown in place of a byte that cannot be displayed.
pub const PLACEHOLDER: u8 = 0xfe;

/// One position of the grid: a code-page byte and the attribute it is shown
/// with.
#[derive(Debug, Clone, Copy, PartialEq, Eq, Structural)]
pub struct ScreenChar {
    pub ascii_character: u8,
    pub color_code: ColorCode,
}

/// The grid of cells, row 0 at the top.
pub struct Buffer {
    pub chars: [[ScreenChar; BUFFER_WIDTH]; BUFFER_HEIGHT],
}

impl View for Buffer {
    type V = Seq<Seq<ScreenChar>>;

    /// The rows of the grid from top to bottom, each from left to right.
    open spec fn view(&self) -> Seq<Seq<ScreenChar>> {
        Seq::new(BUFFER_HEIGHT as nat, |row: int| self.chars@[row]@)
    }
}

/// An empty cell shown with `color_code`.
pub open spec fn blank_cell(color_code: ColorCode) -> ScreenChar {
    ScreenChar { ascii_character: SPACE, color_code }
}

/// A row of empty cells shown with `color_code`.
pub open spec fn blank_row(color_code: ColorCode) -> Seq<ScreenChar> {
    Seq::new(BUFFER_WIDTH as nat, |col: int| blank_cell(color_code))
}

/// A grid of empty cells shown with `color_code`.
pub open spec fn blank_rows(color_code: ColorCode) -> Seq<Seq<ScreenChar>> {
    Seq::new(BUFFER_HEIGHT as nat, |row: int| blank_row(color_code))
}

/// Whether `rows` has the shape of the grid.
pub open spec fn is_grid(rows: Seq<Seq<ScreenChar>>) -> bool {
    &&& rows.len() == BUFFER_HEIGHT
    &&& forall|row: int| 0 <= row < BUFFER_HEIGHT ==> (#[trigger] rows[row]).len() == BUFFER_WIDTH
}

impl Buffer {
    /// A grid in which every cell is a space shown with `color_code`.
    pub fn blank(color_code: ColorCode) -> (buffer: Buffer)
        ensures
            buffer@ == blank_rows(color_code),
    {
        let cell = ScreenChar { ascii_character: SPACE, color_code };
        let buffer = Buffer { chars: [[cell; BUFFER_WIDTH]; BUFFER_HEIGHT] };
        assert(buffer@ =~~= blank_rows(color_code));
        buffer
    }

    /// The cell at `row` and `col`.
    pub fn get(&self, row: usize, col: usize) -> (cell: Option<ScreenChar>)
        ensures
            cell == if row < BUFFER_HEIGHT && col < BUFFER_WIDTH {
                Some(self@[row as int][col as int])
            } else {
                None
            },
    {
        if row < BUFFER_HEIGHT && col < BUFFER_WIDTH {
            Some(self.chars[row][col])
        } else {
            None
        }
    }
}

/// Every buffer has the shape of the grid.
pub proof fn lemma_buffer_is_grid(buffer: Buffer)
    ensures
        is_grid(buffer@),
{
}

/// Whether `byte` has a glyph of its own: the printable ASCII range.
pub open spec fn is_printable(byte: u8) -> bool {
    0x20 <= byte <= 0x7e
}

/// The byte that is shown for `byte`.
pub open spec fn spec_display_byte(byte: u8) -> u8 {
    if is_printable(byte) || byte == NEWLINE {
        byte
    } else {
        PLACEHOLDER
    }
}

/// The byte that the console is given for a byte of text: printable ASCII
/// and the newline stay as they are, every other byte becomes the placeholder
/// glyph.
#[verifier::when_used_as_spec(spec_display_byte)]
pub fn display_byte(byte: u8) -> (shown: u8)
    ensures
        shown == spec_display_byte(byte),
{
    match byte {
        0x20..=0x7e | NEWLINE => byte,
        _ => PLACEHOLDER,
    }
}

/// The state of a console as a mathematical value: where the cursor stands in
/// the bottom row, the attribute that new cells get, and the rows of the grid.
pub struct Screen {
    pub column: nat,
    pub color_code: ColorCode,
    pub rows: Seq<Seq<ScreenChar>>,
}

impl Screen {
    /// The cursor is within the row or just behind its end, and the rows have
    /// the shape of the grid.
    pub open spec fn wf(self) -> bool {
        &&& self.column <= BUFFER_WIDTH
        &&& is_grid(self.rows)
    }

    /// The row that is written to.
    pub open spec fn bottom_row(self) -> Seq<ScreenChar> {
        self.rows[BUFFER_HEIGHT - 1]
    }

    /// The console after a scroll: every row moves up by one, the top row is
    /// lost, the bottom row is empty in the current attribute, and the cursor
    /// returns to the left edge.
    pub open spec fn new_line(self) -> Screen {
        Screen {
            column: 0,
            color_code: self.color_code,
            rows: self.rows.drop_first().push(blank_row(self.color_code)),
        }
    }

    /// The console after `byte` was put under the cursor, in the current
    /// attribute, and the cursor moved one column to the right.  Meant for a
    /// cursor that stands within the row.
    pub open spec fn put(self, byte: u8) -> Screen {
        let cell = ScreenChar { ascii_character: byte, color_code: self.color_code };
        Screen {
            column: self.column + 1,
            color_code: self.color_code,
            rows: self.rows.update(
                BUFFER_HEIGHT - 1,
                self.bottom_row().update(self.column as int, cell),
            ),
        }
    }

    /// The console after one byte was written: a newline scrolls; any other
    /// byte is put under the cursor, after a scroll if the bottom row is full.
    pub open spec fn write_byte(self, byte: u8) -> Screen {
        if byte == NEWLINE {
            self.new_line()
        } else if self.column >= BUFFER_WIDTH {
            self.new_line().put(byte)
        } else {
            self.put(byte)
        }
    }

    /// The console after the bytes of a text were written in order, each as
    /// the byte that [`display_byte`] gives for it.
    pub open spec fn write_bytes(self, bytes: Seq<u8>) -> Screen
        decreases bytes.len(),
    {
        if bytes.len() == 0 {
            self
        } else {
            self.write_bytes(bytes.drop_last()).write_byte(display_byte(bytes.last()))
        }
    }
}

} // verus!
