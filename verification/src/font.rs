//! The font: a mask of lit segments for each printable character.
//!
//! Bit `i` of a mask lights the segment with ordinal `i`. A table has one
//! slot for the space, one for each character from `!` to `~` in order, and a
//! last one for every character outside that range.

use vstd::prelude::*;

verus! {

/// The number of slots in a font table.
pub const FONT_LEN: usize = 96;

/// The slot of the glyph that stands for unsupported characters.
pub const UNKNOWN_CHAR: usize = 95;

/// The slot of `.`, which lights the decimal point in place of a glyph.
pub const DOT_SLOT: usize = 14;

/// The slot of `:`, which lights the colon in place of a glyph.
pub const COLON_SLOT: usize = 26;

/// The mask with every segment lit.
pub const ALL_SEGMENTS: u16 = 0b11111111111111;

/// The built-in font for ASCII.
pub const FONT: [u16; 96] = [
    //NMLKJIHGFEDCBA
    0b00000000000000,  // ' '
    0b00001000001000,  // '!'
    0b00001000000010,  // '"'
    0b01001101001110,  // '#'
    0b01001101101101,  // '$'
    0b10010000100100,  // '%'
    0b00110011011001,  // '&'
    0b00001000000000,  // '''
    0b00000000111001,  // '('
    0b00000000001111,  // ')'
    0b11111010000000,  // '*'
    0b01001101000000,  // '+'
    0b10000000000000,  // ','
    0b00000101000000,  // '-'
    0b00000000000000,  // '.'
    0b10010000000000,  // '/'
    0b00000000111111,  // '0'
    0b00010000000110,  // '1'
    0b00000101011011,  // '2'
    0b00000101001111,  // '3'
    0b00000101100110,  // '4'
    0b00000101101101,  // '5'
    0b00000101111101,  // '6'
    0b01010000000001,  // '7'
    0b00000101111111,  // '8'
    0b00000101100111,  // '9'
    0b00000000000000,  // ':'
    0b10001000000000,  // ';'
    0b00110000000000,  // '<'
    0b00000101001000,  // '='
    0b01000010000000,  // '>'
    0b01000100000011,  // '?'
    0b00001100111011,  // '@'
    0b00000101110111,  // 'A'
    0b01001100001111,  // 'B'
    0b00000000111001,  // 'C'
    0b01001000001111,  // 'D'
    0b00000101111001,  // 'E'
    0b00000101110001,  // 'F'
    0b00000100111101,  // 'G'
    0b00000101110110,  // 'H'
    0b01001000001001,  // 'I'
    0b00000000011110,  // 'J'
    0b00110001110000,  // 'K'
    0b00000000111000,  // 'L'
    0b00010010110110,  // 'M'
    0b00100010110110,  // 'N'
    0b00000000111111,  // 'O'
    0b00000101110011,  // 'P'
    0b00100000111111,  // 'Q'
    0b00100101110011,  // 'R'
    0b00000110001101,  // 'S'
    0b01001000000001,  // 'T'
    0b00000000111110,  // 'U'
    0b10010000110000,  // 'V'
    0b10100000110110,  // 'W'
    0b10110010000000,  // 'X'
    0b01010010000000,  // 'Y'
    0b10010000001001,  // 'Z'
    0b00000000111001,  // '['
    0b00100010000000,  // '\'
    0b00000000001111,  // ']'
    0b10100000000000,  // '^'
    0b00000000001000,  // '_'
    0b00000010000000,  // '`'
    0b00000101011111,  // 'a'
    0b00100001111000,  // 'b'
    0b00000101011000,  // 'c'
    0b10000100001110,  // 'd'
    0b00000001111001,  // 'e'
    0b00000001110001,  // 'f'
    0b00000110001111,  // 'g'
    0b00000101110100,  // 'h'
    0b01000000000000,  // 'i'
    0b00000000001110,  // 'j'
    0b01111000000000,  // 'k'
    0b01001000000000,  // 'l'
    0b01000101010100,  // 'm'
    0b00100001010000,  // 'n'
    0b00000101011100,  // 'o'
    0b00010001110001,  // 'p'
    0b00100101100011,  // 'q'
    0b00000001010000,  // 'r'
    0b00000110001101,  // 's'
    0b00000001111000,  // 't'
    0b00000000011100,  // 'u'
    0b10000000010000,  // 'v'
    0b10100000010100,  // 'w'
    0b10110010000000,  // 'x'
    0b00001100001110,  // 'y'
    0b10010000001001,  // 'z'
    0b10000011001001,  // '{'
    0b01001000000000,  // '|'
    0b00110100001001,  // '}'
    0b00000101010010,  // '~'
    0b11111111111111,  // any other character
];

/// Whether a character has a slot of its own besides the space: `!` to `~`.
pub open spec fn is_printable(ch: char) -> bool {
    '!' <= ch <= '~'
}

/// The slot of a character in a font table.
pub open spec fn font_slot(ch: char) -> int {
    if ch == ' ' {
        0
    } else if is_printable(ch) {
        ch as int - '!' as int + 1
    } else {
        UNKNOWN_CHAR as int
    }
}

/// The slot of a character in a font table.
pub fn slot_of(ch: char) -> (slot: usize)
    ensures
        slot == font_slot(ch),
        slot < FONT_LEN,
{
    if ch == ' ' {
        0
    } else if ch >= '!' && ch <= '~' {
        (ch as u32 - '!' as u32 + 1) as usize
    } else {
        UNKNOWN_CHAR
    }
}

/// A font table with all of its slots.
#[derive(Clone, Copy, Debug)]
pub struct Font<'a> {
    table: &'a [u16],
}

impl<'a> View for Font<'a> {
    type V = Seq<u16>;

    closed spec fn view(&self) -> Seq<u16> {
        self.table@
    }
}

impl<'a> Font<'a> {
    #[verifier::type_invariant]
    spec fn is_whole(self) -> bool {
        self.table@.len() >= FONT_LEN
    }

    /// The font of a table that has a mask for every slot.
    pub fn new(table: &'a [u16]) -> (font: Font<'a>)
        requires
            table@.len() >= FONT_LEN,
        ensures
            font@ == table@,
    {
        Font { table }
    }

    /// The built-in font.
    pub fn builtin() -> (font: Font<'static>)
        ensures
            font@ == FONT@,
    {
        Font { table: &FONT }
    }

    /// The segment mask of a character.
    pub fn glyph(&self, ch: char) -> (mask: u16)
        ensures
            mask == self@[font_slot(ch)],
            self@.len() >= FONT_LEN,
    {
        proof {
            use_type_invariant(self);
        }
        self.table[slot_of(ch)]
    }
}

/// The segment mask of a character in the built-in font: blank for the
/// space, the table's entry for `!` to `~`, and every segment lit for any
/// other character.
pub fn lookup(ch: char) -> (mask: u16)
    ensures
        mask == FONT@[font_slot(ch)],
        ch == ' ' ==> mask == 0,
        is_printable(ch) ==> mask == FONT@[ch as int - '!' as int + 1],
        ch != ' ' && !is_printable(ch) ==> mask == ALL_SEGMENTS,
{
    FONT[slot_of(ch)]
}

} // verus!
