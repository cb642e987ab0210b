//! The greeting that the console shows at start-up.

use super::color::{Color, ColorCode};
use super::laws::{lemma_write_bytes_concat, lemma_write_bytes_single, lemma_write_line};
use super::screen::{Buffer, Screen, ScreenChar, BUFFER_HEIGHT, BUFFER_WIDTH};
use super::writer::Writer;
use vstd::prelude::*;
use vstd::string::StringSliceAdditionalSpecFns;
use vstd::utf8::encode_utf8;

verus! {

/// The bytes of the greeting: `Hello W`, the two bytes that encode `ö` in
/// UTF-8, and `rld!`.
pub open spec fn greeting_bytes() -> Seq<u8> {
    seq![0x48u8, 0x65, 0x6c, 0x6c, 0x6f, 0x20, 0x57, 0xc3, 0xb6, 0x72, 0x6c, 0x64, 0x21]
}

/// The glyphs that the greeting is shown with: the two bytes of `ö` have no
/// glyph of their own, so each appears as the placeholder.
pub open spec fn greeting_glyphs() -> Seq<u8> {
    seq![0x48u8, 0x65, 0x6c, 0x6c, 0x6f, 0x20, 0x57, 0xfe, 0xfe, 0x72, 0x6c, 0x64, 0x21]
}

/// The UTF-8 bytes of the two pieces of text that make up the greeting after
/// its first letter.
proof fn lemma_greeting_pieces()
    ensures
        "ello ".spec_bytes() == seq![0x65u8, 0x6c, 0x6c, 0x6f, 0x20],
        "Wörld!".spec_bytes() == seq![0x57u8, 0xc3, 0xb6, 0x72, 0x6c, 0x64, 0x21],
{
    reveal_strlit("ello ");
    reveal_strlit("Wörld!");
    reveal_with_fuel(encode_utf8, 8);
    assert(forall|scalar: u32| scalar <= 0x7f ==> #[trigger] (scalar & 0x7f) as u8 == scalar)
        by (bit_vector);
    assert(0xc0u8 | ((0xf6u32 >> 6) & 0x1f) as u8 == 0xc3) by (bit_vector);
    assert(0x80u8 | (0xf6u32 & 0x3f) as u8 == 0xb6) by (bit_vector);
    assert("ello ".spec_bytes() =~= seq![0x65u8, 0x6c, 0x6c, 0x6f, 0x20]);
    assert("Wörld!".spec_bytes() =~= seq![0x57u8, 0xc3, 0xb6, 0x72, 0x6c, 0x64, 0x21]);
}

/// Takes over `buffer` and writes `Hello Wörld!` in yellow on black from the
/// left edge of its bottom row.  The thirteen bytes of the text fill thirteen
/// cells; everything else in the grid stays as it was.
pub fn print_something(buffer: Buffer) -> (writer: Writer)
    ensures
        writer@.wf(),
        writer@.column == 13,
        writer@.color_code == ColorCode::new(Color::Yellow, Color::Black),
        writer@.color_code == ColorCode(0x0e),
        writer@ == (Screen {
            column: 0,
            color_code: ColorCode::new(Color::Yellow, Color::Black),
            rows: buffer@,
        }).write_bytes(greeting_bytes()),
        forall|row: int|
            0 <= row < BUFFER_HEIGHT - 1 ==> #[trigger] writer@.rows[row] == buffer@[row],
        forall|col: int|
            0 <= col < BUFFER_WIDTH ==> #[trigger] writer@.bottom_row()[col] == if col < 13 {
                ScreenChar { ascii_character: greeting_glyphs()[col], color_code: ColorCode(0x0e) }
            } else {
                buffer@[BUFFER_HEIGHT - 1][col]
            },
{
    let mut writer = Writer::new(ColorCode::new(Color::Yellow, Color::Black), buffer);
    let ghost start = writer@;
    // The letter `H`, then the rest of the greeting as text.
    writer.write_byte(0x48);
    writer.write_string("ello ");
    writer.write_string("Wörld!");
    proof {
        let first = seq![0x48u8];
        let second = "ello ".spec_bytes();
        let third = "Wörld!".spec_bytes();
        lemma_greeting_pieces();
        lemma_write_bytes_single(start, 0x48);
        lemma_write_bytes_concat(start, first, second);
        lemma_write_bytes_concat(start, first + second, third);
        assert(first + second + third =~= greeting_bytes());
        lemma_write_line(start, greeting_bytes());
        assert(0x0eu8 == (0u8 << 4) | 14u8) by (bit_vector);
    }
    writer
}

} // verus!
