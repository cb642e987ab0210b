//! The sixteen-colour palette and the attribute byte built from two colours.

use vstd::prelude::*;

verus! {

/// A colour of the text-mode palette.  The variants are listed in the order of
/// their hardware codes, `Black` being 0 and `White` 15.
#[derive(Debug, Clone, Copy, PartialEq, Eq, Structural)]
pub enum Color {
    Black,
    Blue,
    Green,
    Cyan,
    Red,
    Magenta,
    Brown,
    LightGray,
    DarkGray,
    LightBlue,
    LightGreen,
    LightCyan,
    LightRed,
    Pink,
    Yellow,
    White,
}

impl Color {
    /// The hardware code of the colour.
    pub open spec fn spec_code(self) -> u8 {
        match self {
            Color::Black => 0,
            Color::Blue => 1,
            Color::Green => 2,
            Color::Cyan => 3,
            Color::Red => 4,
            Color::Magenta => 5,
            Color::Brown => 6,
            Color::LightGray => 7,
            Color::DarkGray => 8,
            Color::LightBlue => 9,
            Color::LightGreen => 10,
            Color::LightCyan => 11,
            Color::LightRed => 12,
            Color::Pink => 13,
            Color::Yellow => 14,
            Color::White => 15,
        }
    }

    /// The colour whose code is the low nibble of `bits`; the high nibble is
    /// ignored.
    pub open spec fn spec_from_nibble(bits: u8) -> Color {
        let nibble = bits & 0x0f;
        if nibble == 0 {
            Color::Black
        } else if nibble == 1 {
            Color::Blue
        } else if nibble == 2 {
            Color::Green
        } else if nibble == 3 {
            Color::Cyan
        } else if nibble == 4 {
            Color::Red
        } else if nibble == 5 {
            Color::Magenta
        } else if nibble == 6 {
            Color::Brown
        } else if nibble == 7 {
            Color::LightGray
        } else if nibble == 8 {
            Color::DarkGray
        } else if nibble == 9 {
            Color::LightBlue
        } else if nibble == 10 {
            Color::LightGreen
        } else if nibble == 11 {
            Color::LightCyan
        } else if nibble == 12 {
            Color::LightRed
        } else if nibble == 13 {
            Color::Pink
        } else if nibble == 14 {
            Color::Yellow
        } else {
            Color::White
        }
    }

    /// Returns the hardware code of the colour, a value that fits in four bits.
    #[verifier::when_used_as_spec(spec_code)]
    pub fn code(self) -> (code: u8)
        ensures
            code == self.spec_code(),
            code < 16,
    {
        match self {
            Color::Black => 0,
            Color::Blue => 1,
            Color::Green => 2,
            Color::Cyan => 3,
            Color::Red => 4,
            Color::Magenta => 5,
            Color::Brown => 6,
            Color::LightGray => 7,
            Color::DarkGray => 8,
            Color::LightBlue => 9,
            Color::LightGreen => 10,
            Color::LightCyan => 11,
            Color::LightRed => 12,
            Color::Pink => 13,
            Color::Yellow => 14,
            Color::White => 15,
        }
    }

    /// Decodes the low nibble of `bits` into the colour that has that code.
    #[verifier::when_used_as_spec(spec_from_nibble)]
    pub fn from_nibble(bits: u8) -> (color: Color)
        ensures
            color == Color::spec_from_nibble(bits),
            color.code() == bits & 0x0f,
    {
        let nibble: u8 = bits & 0x0f;
        assert(nibble < 16) by (bit_vector)
            requires
                nibble == bits & 0x0f,
        ;
        match nibble {
            0 => Color::Black,
            1 => Color::Blue,
            2 => Color::Green,
            3 => Color::Cyan,
            4 => Color::Red,
            5 => Color::Magenta,
            6 => Color::Brown,
            7 => Color::LightGray,
            8 => Color::DarkGray,
            9 => Color::LightBlue,
            10 => Color::LightGreen,
            11 => Color::LightCyan,
            12 => Color::LightRed,
            13 => Color::Pink,
            14 => Color::Yellow,
            _ => Color::White,
        }
    }
}

/// An attribute byte: the background colour in the high nibble, the foreground
/// colour in the low nibble.  Every byte is a valid attribute.
#[derive(Debug, Clone, Copy, PartialEq, Eq, Structural)]
pub struct ColorCode(pub u8);

impl ColorCode {
    /// The attribute byte of `foreground` on `background`.
    pub open spec fn spec_new(foreground: Color, background: Color) -> ColorCode {
        ColorCode((background.code() << 4) | foreground.code())
    }

    /// The colour held in the low nibble.
    pub open spec fn spec_foreground(self) -> Color {
        Color::from_nibble(self.0)
    }

    /// The colour held in the high nibble.
    pub open spec fn spec_background(self) -> Color {
        Color::from_nibble(self.0 >> 4)
    }

    /// Packs a foreground and a background colour into one attribute byte.
    #[verifier::when_used_as_spec(spec_new)]
    pub fn new(foreground: Color, background: Color) -> (color_code: ColorCode)
        ensures
            color_code == ColorCode::spec_new(foreground, background),
            color_code.0 == (background.code() << 4) | foreground.code(),
    {
        ColorCode((background.code() << 4) | foreground.code())
    }

    /// The foreground colour of the attribute.
    #[verifier::when_used_as_spec(spec_foreground)]
    pub fn foreground(self) -> (color: Color)
        ensures
            color == self.spec_foreground(),
            color.code() == self.0 & 0x0f,
    {
        Color::from_nibble(self.0)
    }

    /// The background colour of the attribute.
    #[verifier::when_used_as_spec(spec_background)]
    pub fn background(self) -> (color: Color)
        ensures
            color == self.spec_background(),
            color.code() == self.0 >> 4,
    {
        let byte: u8 = self.0;
        let high: u8 = byte >> 4;
        assert(high & 0x0f == high) by (bit_vector)
            requires
                high == byte >> 4,
        ;
        Color::from_nibble(high)
    }
}

/// No two colours share a code.
pub proof fn lemma_codes_are_distinct(a: Color, b: Color)
    ensures
        a.code() == b.code() <==> a == b,
{
}

/// Decoding the code of a colour gives the colour back.
pub proof fn lemma_from_nibble_of_code(color: Color)
    ensures
        Color::from_nibble(color.code()) == color,
{
    let code = color.code();
    assert(code < 16 ==> code & 0x0f == code) by (bit_vector);
}

/// Packing is lossless: the low nibble of the attribute byte is the code of the
/// foreground, its high nibble the code of the background, and decoding the two
/// nibbles recovers both colours.
pub proof fn lemma_color_code_round_trip(foreground: Color, background: Color)
    ensures
        ColorCode::new(foreground, background).0 == (background.code() << 4) | foreground.code(),
        ColorCode::new(foreground, background).0 & 0x0f == foreground.code(),
        ColorCode::new(foreground, background).0 >> 4 == background.code(),
        ColorCode::new(foreground, background).foreground() == foreground,
        ColorCode::new(foreground, background).background() == background,
{
    let fg = foreground.code();
    let bg = background.code();
    let packed: u8 = (bg << 4) | fg;
    assert(fg < 16 && bg < 16 ==> packed & 0x0f == fg && packed >> 4 == bg) by (bit_vector)
        requires
            packed == (bg << 4) | fg,
    ;
    lemma_from_nibble_of_code(foreground);
    lemma_from_nibble_of_code(background);
}

} // verus!
