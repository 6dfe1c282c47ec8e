//! Segments of a 14-segment glyph and their place in display memory.
//!
//! A controller multiplexes its LEDs over common lines and rows. The top
//! seven segments of a glyph sit on commons 0 to 6 in order; the bottom seven
//! share the same commons on the upper four rows, with two of them wired
//! apart from the regular order.

use vstd::prelude::*;

verus! {

/// The number of segments in one glyph.
pub const SEGMENT_COUNT: u8 = 14;

/// The number of digit positions that one controller can address.
pub const DIGIT_COUNT: u8 = 16;

/// One stroke of an alphanumeric glyph, in mask-bit order.
#[derive(Clone, Copy, Debug, PartialEq, Eq, Structural)]
pub enum Segment {
    A,
    B,
    C,
    D,
    E,
    F,
    G,
    H,
    I,
    J,
    K,
    L,
    M,
    N,
}

/// Every segment, in mask-bit order.
pub const SEGMENTS: [Segment; 14] = [
    Segment::A,
    Segment::B,
    Segment::C,
    Segment::D,
    Segment::E,
    Segment::F,
    Segment::G,
    Segment::H,
    Segment::I,
    Segment::J,
    Segment::K,
    Segment::L,
    Segment::M,
    Segment::N,
];

/// One LED in a controller's display memory: the address of a byte and the
/// single bit of that byte.
#[derive(Clone, Copy, Debug, PartialEq, Eq, Structural)]
pub struct BufferLocation {
    pub address: u8,
    pub data_bit: u8,
}

impl Segment {
    /// The position of the segment's bit in a glyph mask, 0 to 13.
    pub open spec fn index(self) -> int {
        match self {
            Segment::A => 0,
            Segment::B => 1,
            Segment::C => 2,
            Segment::D => 3,
            Segment::E => 4,
            Segment::F => 5,
            Segment::G => 6,
            Segment::H => 7,
            Segment::I => 8,
            Segment::J => 9,
            Segment::K => 10,
            Segment::L => 11,
            Segment::M => 12,
            Segment::N => 13,
        }
    }

    /// The segment at a mask-bit position; `A` stands for positions past 13.
    pub open spec fn at(index: int) -> Segment {
        if index == 0 {
            Segment::A
        } else if index == 1 {
            Segment::B
        } else if index == 2 {
            Segment::C
        } else if index == 3 {
            Segment::D
        } else if index == 4 {
            Segment::E
        } else if index == 5 {
            Segment::F
        } else if index == 6 {
            Segment::G
        } else if index == 7 {
            Segment::H
        } else if index == 8 {
            Segment::I
        } else if index == 9 {
            Segment::J
        } else if index == 10 {
            Segment::K
        } else if index == 11 {
            Segment::L
        } else if index == 12 {
            Segment::M
        } else if index == 13 {
            Segment::N
        } else {
            Segment::A
        }
    }

    /// Whether the segment belongs to the bottom set, which is driven on the
    /// upper four rows of a common.
    pub open spec fn is_lower(self) -> bool {
        self.index() > 6
    }

    /// The common line that drives the segment. The bottom set repeats the
    /// commons of the top set, except that `H` and `I` are wired to each
    /// other's regular line.
    pub open spec fn common(self) -> int {
        match self {
            Segment::H => 1,
            Segment::I => 0,
            _ => if self.index() > 6 {
                self.index() - 7
            } else {
                self.index()
            },
        }
    }

    /// The position of the segment's bit in a glyph mask.
    pub fn ordinal(self) -> (ordinal: u8)
        ensures
            ordinal == self.index(),
            ordinal < SEGMENT_COUNT,
    {
        match self {
            Segment::A => 0,
            Segment::B => 1,
            Segment::C => 2,
            Segment::D => 3,
            Segment::E => 4,
            Segment::F => 5,
            Segment::G => 6,
            Segment::H => 7,
            Segment::I => 8,
            Segment::J => 9,
            Segment::K => 10,
            Segment::L => 11,
            Segment::M => 12,
            Segment::N => 13,
        }
    }
}

/// The address of the byte that holds a segment's LED: two bytes per common,
/// sixteen bytes per group of four digits.
pub open spec fn led_address(segment: Segment, digit: int) -> int {
    2 * segment.common() + 16 * (digit / 4)
}

/// The position of the LED's bit in that byte, 0 to 7: the digit's place in
/// its group of four, moved up by four for the bottom set.
pub open spec fn led_bit(segment: Segment, digit: int) -> int {
    digit % 4 + if segment.is_lower() {
        4int
    } else {
        0int
    }
}

/// The place of a segment of a digit in display memory.
pub open spec fn led_location(segment: Segment, digit: u8) -> BufferLocation {
    BufferLocation {
        address: led_address(segment, digit as int) as u8,
        data_bit: 1u8 << (led_bit(segment, digit as int) as u8),
    }
}

/// Maps a segment of a digit to the byte and bit of display memory that
/// drive its LED.
pub fn resolve(segment: Segment, digit: u8) -> (location: BufferLocation)
    requires
        digit < DIGIT_COUNT,
    ensures
        location == led_location(segment, digit),
{
    let ordinal = segment.ordinal();
    let common: u8 = match segment {
        Segment::H => 1,
        Segment::I => 0,
        _ => if ordinal > 6 {
            ordinal - 7
        } else {
            ordinal
        },
    };
    let mut row: u8 = digit % 4;
    if ordinal > 6 {
        row += 4;
    }
    let offset: u8 = digit / 4 * 16;
    let address: u8 = common * 2 + offset;
    // A row past 7 would belong to the odd byte of the common's pair. No
    // segment of any digit reaches it: the row is at most 3 + 4.
    assert(row <= 7);
    BufferLocation { address, data_bit: 1u8 << row }
}

/// The wiring rule in its step-by-step form, on a segment's ordinal: fold the
/// bottom set onto the commons of the top set, rewire `H` and `I`, take the
/// digit's row and move it up by four for the bottom set, add sixteen bytes
/// for each group of four digits, and let a row past 7 spill into the next
/// byte. The result is the address and the position of the bit.
pub open spec fn wiring_rule(ordinal: int, digit: int) -> (int, int) {
    let folded = if ordinal > 6 {
        ordinal - 7
    } else {
        ordinal
    };
    let common = if ordinal == 8 {
        0
    } else if ordinal == 7 {
        1
    } else {
        folded
    };
    let row = if ordinal > 6 {
        digit % 4 + 4
    } else {
        digit % 4
    };
    let address = common * 2 + digit / 4 * 16;
    if row > 7 {
        (address + 1, row - 8)
    } else {
        (address, row)
    }
}

/// The place of every segment of every digit is what the step-by-step wiring
/// rule gives, and the rule's spill into the next byte never happens.
pub proof fn led_location_follows_wiring_rule(segment: Segment, digit: u8)
    requires
        digit < DIGIT_COUNT,
    ensures
        wiring_rule(segment.index(), digit as int) == (
            led_address(segment, digit as int),
            led_bit(segment, digit as int),
        ),
        led_bit(segment, digit as int) <= 7,
{
}

/// Every LED address is even and at most 60, and every LED bit fits a byte.
/// The first four digits, those of the first group, stay below address 14.
pub proof fn led_location_bounds(segment: Segment, digit: u8)
    requires
        digit < DIGIT_COUNT,
    ensures
        0 <= led_address(segment, digit as int) <= 60,
        led_address(segment, digit as int) % 2 == 0,
        digit < 4 ==> led_address(segment, digit as int) == 2 * segment.common() < 14,
        0 <= led_bit(segment, digit as int) <= 7,
        led_location(segment, digit).address == led_address(segment, digit as int),
{
}

/// The LEDs of the first eight digits lie in the first 32 bytes. Later digits
/// do not: the ninth starts at address 32.
pub proof fn first_two_groups_stay_below_32(segment: Segment, digit: u8)
    requires
        digit < 8,
    ensures
        led_location(segment, digit).address < 32,
        led_location(Segment::A, 8).address == 32,
{
}

/// A single-bit byte names its bit: two of them are equal only if they set
/// the same bit.
pub proof fn data_bit_names_position(a: u8, b: u8)
    requires
        a < 8,
        b < 8,
        1u8 << a == 1u8 << b,
    ensures
        a == b,
{
    assert(a < 8 && b < 8 && 1u8 << a == 1u8 << b ==> a == b) by (bit_vector);
}

/// No two segments of any digits share an LED: the location determines both
/// the segment and the digit.
pub proof fn led_location_injective(s1: Segment, d1: u8, s2: Segment, d2: u8)
    requires
        d1 < DIGIT_COUNT,
        d2 < DIGIT_COUNT,
        led_location(s1, d1) == led_location(s2, d2),
    ensures
        s1 == s2,
        d1 == d2,
{
    led_location_bounds(s1, d1);
    led_location_bounds(s2, d2);
    data_bit_names_position(led_bit(s1, d1 as int) as u8, led_bit(s2, d2 as int) as u8);
    assert(led_address(s1, d1 as int) == led_address(s2, d2 as int));
    assert(led_bit(s1, d1 as int) == led_bit(s2, d2 as int));
}

} // verus!
