//! The writer: the one value through which text reaches the grid.

use super::color::ColorCode;
use super::screen::{
    blank_row, display_byte, Buffer, Screen, ScreenChar, BUFFER_HEIGHT, BUFFER_WIDTH, NEWLINE,
    SPACE,
};
use vstd::prelude::*;
use vstd::string::StringSliceAdditionalSpecFns;

verus! {

/// A console that always writes into the bottom row of its grid and moves the
/// rows up when that row is full or a newline arrives.
pub struct Writer {
    column_position: usize,
    color_code: ColorCode,
    buffer: Buffer,
}

impl View for Writer {
    type V = Screen;

    closed spec fn view(&self) -> Screen {
        Screen {
            column: self.column_position as nat,
            color_code: self.color_code,
            rows: self.buffer@,
        }
    }
}

impl Writer {
    /// The cursor never stands further right than just behind the last column.
    #[verifier::type_invariant]
    spec fn cursor_in_row(self) -> bool {
        self.column_position <= BUFFER_WIDTH
    }

    /// A writer that owns `buffer` as it is, with the cursor at the left edge
    /// of the bottom row.
    pub fn new(color_code: ColorCode, buffer: Buffer) -> (writer: Writer)
        ensures
            writer@ == (Screen { column: 0, color_code, rows: buffer@ }),
            writer@.wf(),
    {
        Writer { column_position: 0, color_code, buffer }
    }

    /// The column of the bottom row at which the next byte is put; equal to
    /// the width of the grid when the row is full.
    pub fn column_position(&self) -> (column: usize)
        ensures
            column == self@.column,
            column <= BUFFER_WIDTH,
    {
        proof {
            use_type_invariant(self);
        }
        self.column_position
    }

    /// The attribute that new cells get.
    pub fn color_code(&self) -> (color_code: ColorCode)
        ensures
            color_code == self@.color_code,
    {
        self.color_code
    }

    /// The grid as it stands.
    pub fn buffer(&self) -> (buffer: &Buffer)
        ensures
            buffer@ == self@.rows,
    {
        &self.buffer
    }

    /// Scrolls: moves every row up by one, which discards the top row, clears
    /// the bottom row to spaces in the current attribute and returns the cursor
    /// to the left edge.  Each cell of the grid is written once.
    pub fn new_line(&mut self)
        ensures
            final(self)@ == old(self)@.new_line(),
            final(self)@.color_code == old(self)@.color_code,
            final(self)@.wf(),
    {
        proof {
            use_type_invariant(&*self);
        }
        let ghost before = self.buffer@;
        let mut row: usize = 0;
        while row < BUFFER_HEIGHT - 1
            invariant
                row <= BUFFER_HEIGHT - 1,
                before == old(self).buffer@,
                self.column_position == old(self).column_position,
                self.column_position <= BUFFER_WIDTH,
                self.color_code == old(self).color_code,
                forall|r: int, c: int|
                    0 <= r < row && 0 <= c < BUFFER_WIDTH ==> self.buffer.chars@[r]@[c]
                        == before[r + 1][c],
                forall|r: int, c: int|
                    row < r < BUFFER_HEIGHT && 0 <= c < BUFFER_WIDTH ==> self.buffer.chars@[r]@[c]
                        == before[r][c],
            decreases BUFFER_HEIGHT - row,
        {
            let mut col: usize = 0;
            while col < BUFFER_WIDTH
                invariant
                    row < BUFFER_HEIGHT - 1,
                    col <= BUFFER_WIDTH,
                    before == old(self).buffer@,
                    self.column_position == old(self).column_position,
                    self.column_position <= BUFFER_WIDTH,
                    self.color_code == old(self).color_code,
                    forall|r: int, c: int|
                        0 <= r < row && 0 <= c < BUFFER_WIDTH ==> self.buffer.chars@[r]@[c]
                            == before[r + 1][c],
                    forall|c: int|
                        0 <= c < col ==> self.buffer.chars@[row as int]@[c] == before[row + 1][c],
                    forall|r: int, c: int|
                        row < r < BUFFER_HEIGHT && 0 <= c < BUFFER_WIDTH
                            ==> self.buffer.chars@[r]@[c] == before[r][c],
                decreases BUFFER_WIDTH - col,
            {
                let cell = self.buffer.chars[row + 1][col];
                self.buffer.chars[row][col] = cell;
                col += 1;
            }
            row += 1;
        }
        let bottom: usize = BUFFER_HEIGHT - 1;
        let blank = ScreenChar { ascii_character: SPACE, color_code: self.color_code };
        let mut col: usize = 0;
        while col < BUFFER_WIDTH
            invariant
                col <= BUFFER_WIDTH,
                bottom == BUFFER_HEIGHT - 1,
                before == old(self).buffer@,
                self.column_position == old(self).column_position,
                self.column_position <= BUFFER_WIDTH,
                self.color_code == old(self).color_code,
                blank == (ScreenChar { ascii_character: SPACE, color_code: self.color_code }),
                forall|r: int, c: int|
                    0 <= r < BUFFER_HEIGHT - 1 && 0 <= c < BUFFER_WIDTH
                        ==> self.buffer.chars@[r]@[c] == before[r + 1][c],
                forall|c: int| 0 <= c < col ==> self.buffer.chars@[bottom as int]@[c] == blank,
            decreases BUFFER_WIDTH - col,
        {
            self.buffer.chars[bottom][col] = blank;
            col += 1;
        }
        self.column_position = 0;
        assert(self.buffer@ =~~= before.drop_first().push(blank_row(self.color_code)));
    }

    /// Writes one byte that is ready for display.  A newline scrolls and shows
    /// nothing.  Any other byte is put under the cursor in the current
    /// attribute, the cursor then moves one column to the right; where the
    /// bottom row is already full the grid scrolls first.
    pub fn write_byte(&mut self, byte: u8)
        ensures
            final(self)@ == old(self)@.write_byte(byte),
            final(self)@.color_code == old(self)@.color_code,
            final(self)@.wf(),
    {
        match byte {
            NEWLINE => self.new_line(),
            byte => {
                proof {
                    use_type_invariant(&*self);
                }
                if self.column_position >= BUFFER_WIDTH {
                    self.new_line();
                }
                let row = BUFFER_HEIGHT - 1;
                let col = self.column_position;
                let color_code = self.color_code;
                let ghost rows = self.buffer@;
                self.buffer.chars[row][col] = ScreenChar { ascii_character: byte, color_code };
                self.column_position += 1;
                assert(self.buffer@ =~~= rows.update(
                    row as int,
                    rows[row as int].update(
                        col as int,
                        ScreenChar { ascii_character: byte, color_code },
                    ),
                ));
            },
        }
    }

    /// Writes a sequence of bytes in order.  Printable ASCII and newlines are
    /// written as they are; every other byte is written as the placeholder
    /// glyph.  No byte is skipped and none makes the write fail.
    pub fn write_bytes(&mut self, bytes: &[u8])
        ensures
            final(self)@ == old(self)@.write_bytes(bytes@),
            final(self)@.color_code == old(self)@.color_code,
            final(self)@.wf(),
    {
        proof {
            use_type_invariant(&*self);
        }
        let mut i: usize = 0;
        while i < bytes.len()
            invariant
                i <= bytes.len(),
                self@.wf(),
                self@.color_code == old(self)@.color_code,
                self@ == old(self)@.write_bytes(bytes@.take(i as int)),
            decreases bytes.len() - i,
        {
            proof {
                assert(bytes@.take(i + 1).drop_last() =~= bytes@.take(i as int));
            }
            self.write_byte(display_byte(bytes[i]));
            i += 1;
        }
        proof {
            assert(bytes@.take(i as int) =~= bytes@);
        }
    }

    /// Writes a text as the sequence of its UTF-8 bytes.  The text is not
    /// decoded: a character outside ASCII appears as one placeholder glyph for
    /// each byte of its encoding.
    pub fn write_string(&mut self, s: &str)
        ensures
            final(self)@ == old(self)@.write_bytes(s.spec_bytes()),
            final(self)@.color_code == old(self)@.color_code,
            final(self)@.wf(),
    {
        self.write_bytes(s.as_bytes());
    }
}

} // verus!
