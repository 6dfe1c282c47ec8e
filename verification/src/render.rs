//! Rendering: from a character in a cell to the LEDs of display memory.

use crate::buffer::{
    apply_led, apply_led_changes_one, apply_led_keeps_len, led, DisplayBuffer, BUFFER_LEN,
};
use crate::font::{font_slot, slot_of, Font, COLON_SLOT, DOT_SLOT};
use crate::segment::{
    led_address, led_bit, led_location, led_location_bounds, resolve, BufferLocation, Segment,
    DIGIT_COUNT, SEGMENTS, SEGMENT_COUNT,
};
use vstd::prelude::*;

verus! {

/// The two indicators of a controller that are no part of a glyph.
#[derive(Clone, Copy, Debug, PartialEq, Eq, Structural)]
pub enum Indicator {
    DecimalPoint,
    Colon,
}

/// Whether a glyph mask lights the segment with the given ordinal.
pub open spec fn segment_lit(mask: u16, ordinal: int) -> bool {
    (mask >> (ordinal as u16)) & 1 == 1
}

/// The LED that both the decimal point and the colon are wired to.
pub open spec fn indicator_location() -> BufferLocation {
    BufferLocation { address: 1, data_bit: 1 }
}

/// Display memory after the first `count` segments of a glyph are staged for
/// a digit, each on or off as the mask says.
pub open spec fn stage_segments(data: Seq<u8>, mask: u16, digit: u8, count: nat) -> Seq<u8>
    decreases count,
{
    if count == 0 {
        data
    } else {
        let ordinal = count - 1;
        apply_led(
            stage_segments(data, mask, digit, ordinal as nat),
            led_location(Segment::at(ordinal), digit),
            segment_lit(mask, ordinal),
        )
    }
}

/// Display memory after a whole glyph is staged for a digit.
pub open spec fn stage_glyph(data: Seq<u8>, mask: u16, digit: u8) -> Seq<u8> {
    stage_segments(data, mask, digit, SEGMENT_COUNT as nat)
}

/// Whether a character lights the indicator in place of a glyph: `.` and `:`
/// do.
pub open spec fn is_indicator_char(ch: char) -> bool {
    font_slot(ch) == DOT_SLOT || font_slot(ch) == COLON_SLOT
}

/// Display memory after a character is staged for a digit: `.` and `:` light
/// the indicator and leave the digit's segments alone, any other character
/// stages its glyph.
pub open spec fn stage_char(data: Seq<u8>, font: Seq<u16>, ch: char, digit: u8) -> Seq<u8> {
    if is_indicator_char(ch) {
        apply_led(data, indicator_location(), true)
    } else {
        stage_glyph(data, font[font_slot(ch)], digit)
    }
}

/// The display memories of a row of controllers.
pub open spec fn frames<const N: usize>(displays: [DisplayBuffer; N]) -> Seq<Seq<u8>> {
    Seq::new(N as nat, |i: int| displays@[i]@)
}

/// Switches one segment of a digit on or off.
pub fn illuminate_segment(display: &mut DisplayBuffer, segment: Segment, digit: u8, on: bool)
    requires
        digit < DIGIT_COUNT,
    ensures
        final(display)@ == apply_led(old(display)@, led_location(segment, digit), on),
{
    let location = resolve(segment, digit);
    display.update(location, on);
}

/// Stages a glyph for a digit: every segment that the mask names is switched
/// on, every other segment of the digit off.
pub fn illuminate_char(display: &mut DisplayBuffer, segments_to_turn_on: u16, digit: u8)
    requires
        digit < DIGIT_COUNT,
    ensures
        final(display)@ == stage_glyph(old(display)@, segments_to_turn_on, digit),
{
    let mut i: usize = 0;
    while i < 14
        invariant
            i <= 14,
            digit < DIGIT_COUNT,
            display@ == stage_segments(old(display)@, segments_to_turn_on, digit, i as nat),
        decreases 14 - i,
    {
        let on = ((segments_to_turn_on >> (i as u16)) & 1) == 1;
        illuminate_segment(display, SEGMENTS[i], digit, on);
        i += 1;
    }
}

/// Lights the colon of a controller if `enable` holds, and puts it out
/// otherwise.
pub fn show_colon(display: &mut DisplayBuffer, enable: bool)
    ensures
        final(display)@ == apply_led(old(display)@, indicator_location(), enable),
{
    display.update(BufferLocation { address: 1, data_bit: 1 }, enable);
}

/// Lights the decimal point of a controller if `enable` holds, and puts it
/// out otherwise.
pub fn show_dot(display: &mut DisplayBuffer, enable: bool)
    ensures
        final(display)@ == apply_led(old(display)@, indicator_location(), enable),
{
    display.update(BufferLocation { address: 1, data_bit: 1 }, enable);
}

/// Stages a character at a position of the chained display: the controller
/// is `index / 4`, the digit within it `index % 4`.
pub fn print_char_at<const NUM_DISPLAYS: usize>(
    displays: &mut [DisplayBuffer; NUM_DISPLAYS],
    ch: char,
    index: usize,
    font: &Font,
)
    requires
        index / 4 < NUM_DISPLAYS,
    ensures
        frames(*final(displays)) == frames(*old(displays)).update(
            index as int / 4,
            stage_char(frames(*old(displays))[index as int / 4], font@, ch, (index % 4) as u8),
        ),
{
    let display_index = index / 4;
    let slot = slot_of(ch);
    if slot == DOT_SLOT {
        show_dot(&mut displays[display_index], true);
    } else if slot == COLON_SLOT {
        show_colon(&mut displays[display_index], true);
    } else {
        let segments_to_turn_on = font.glyph(ch);
        illuminate_char(&mut displays[display_index], segments_to_turn_on, (index % 4) as u8);
    }
}

/// The segment of a digit that the LED at bit `bit` of the byte at `address`
/// drives, if it drives one. Within a controller's sixteen bytes the digits
/// that are four apart share their LEDs.
pub open spec fn segment_at(address: int, bit: int, digit: u8) -> Option<Segment> {
    let common = address / 2;
    if address % 2 != 0 || address < 0 || address >= 14 {
        None
    } else if bit == digit % 4 {
        Some(Segment::at(common))
    } else if bit == digit % 4 + 4 {
        if common == 0 {
            Some(Segment::I)
        } else if common == 1 {
            Some(Segment::H)
        } else {
            Some(Segment::at(common + 7))
        }
    } else {
        None
    }
}

/// `segment_at` finds each segment at its own LED and nowhere else.
pub proof fn segment_at_inverts_location(segment: Segment, digit: u8, address: int, bit: int)
    requires
        digit < DIGIT_COUNT,
    ensures
        segment_at(address, bit, digit) == Some(segment) <==> address == led_address(
            segment,
            digit as int,
        ) % 16 && bit == led_bit(segment, digit as int),
{
}

/// Staging segments keeps the size of display memory.
pub proof fn stage_segments_keeps_len(data: Seq<u8>, mask: u16, digit: u8, count: nat)
    requires
        data.len() == BUFFER_LEN,
    ensures
        stage_segments(data, mask, digit, count).len() == BUFFER_LEN,
    decreases count,
{
    if count > 0 {
        let before = stage_segments(data, mask, digit, (count - 1) as nat);
        stage_segments_keeps_len(data, mask, digit, (count - 1) as nat);
        apply_led_keeps_len(
            before,
            led_location(Segment::at(count - 1), digit),
            segment_lit(mask, count - 1),
        );
    }
}

/// After the first `count` segments of a glyph are staged, each LED that
/// drives one of them is as the mask says, and every other LED is as it was.
pub proof fn stage_segments_leds(
    data: Seq<u8>,
    mask: u16,
    digit: u8,
    count: nat,
    address: int,
    bit: int,
)
    requires
        data.len() == BUFFER_LEN,
        digit < DIGIT_COUNT,
        count <= SEGMENT_COUNT,
        0 <= address < BUFFER_LEN,
        0 <= bit < 8,
    ensures
        led(stage_segments(data, mask, digit, count), address, bit) == (match segment_at(
            address,
            bit,
            digit,
        ) {
            Some(segment) if segment.index() < count => segment_lit(mask, segment.index()),
            _ => led(data, address, bit),
        }),
    decreases count,
{
    if count > 0 {
        let ordinal = count - 1;
        let segment = Segment::at(ordinal);
        let before = stage_segments(data, mask, digit, ordinal as nat);
        stage_segments_leds(data, mask, digit, ordinal as nat, address, bit);
        stage_segments_keeps_len(data, mask, digit, ordinal as nat);
        led_location_bounds(segment, digit);
        let byte = led_address(segment, digit as int) as u8;
        let position = led_bit(segment, digit as int) as u8;
        assert(byte & 0x0f == byte % 16) by (bit_vector);
        apply_led_changes_one(before, byte, position, segment_lit(mask, ordinal), address, bit);
        segment_at_inverts_location(segment, digit, address, bit);
    }
}

/// Staging a glyph sets the fourteen LEDs of its digit as the mask says and
/// changes no other LED of the display memory.
pub proof fn stage_glyph_leds(data: Seq<u8>, mask: u16, digit: u8, address: int, bit: int)
    requires
        data.len() == BUFFER_LEN,
        digit < DIGIT_COUNT,
        0 <= address < BUFFER_LEN,
        0 <= bit < 8,
    ensures
        led(stage_glyph(data, mask, digit), address, bit) == (match segment_at(
            address,
            bit,
            digit,
        ) {
            Some(segment) => segment_lit(mask, segment.index()),
            None => led(data, address, bit),
        }),
{
    stage_segments_leds(data, mask, digit, SEGMENT_COUNT as nat, address, bit);
}

/// Switching the indicator changes its one LED, bit 0 of the byte at address
/// 1, and no other LED of the display memory.
pub proof fn indicator_changes_one_led(data: Seq<u8>, enable: bool, address: int, bit: int)
    requires
        data.len() == BUFFER_LEN,
        0 <= address < BUFFER_LEN,
        0 <= bit < 8,
    ensures
        led(apply_led(data, indicator_location(), enable), address, bit) == (if address == 1 && bit
            == 0 {
            enable
        } else {
            led(data, address, bit)
        }),
{
    assert(1u8 << 0u8 == 1u8 && 1u8 & 0x0f == 1u8) by (bit_vector);
    apply_led_changes_one(data, 1, 0, enable, address, bit);
}

/// Staging a glyph never changes the indicator: no segment of any digit is
/// wired to its LED.
pub proof fn glyph_keeps_indicator(data: Seq<u8>, mask: u16, digit: u8)
    requires
        data.len() == BUFFER_LEN,
        digit < DIGIT_COUNT,
    ensures
        led(stage_glyph(data, mask, digit), 1, 0) == led(data, 1, 0),
{
    stage_glyph_leds(data, mask, digit, 1, 0);
}

/// What staging a character does to each LED of display memory. For `.` and
/// `:` the indicator is lit and every other LED is as it was. For any other
/// character each LED that drives a segment of the digit is lit if and only
/// if the character's glyph names the segment, and every other LED, the
/// indicator among them, is as it was.
pub proof fn stage_char_leds(
    data: Seq<u8>,
    font: Seq<u16>,
    ch: char,
    digit: u8,
    address: int,
    bit: int,
)
    requires
        data.len() == BUFFER_LEN,
        digit < DIGIT_COUNT,
        0 <= address < BUFFER_LEN,
        0 <= bit < 8,
    ensures
        led(stage_char(data, font, ch, digit), address, bit) == (if is_indicator_char(ch) {
            (address == 1 && bit == 0) || led(data, address, bit)
        } else {
            match segment_at(address, bit, digit) {
                Some(segment) => segment_lit(font[font_slot(ch)], segment.index()),
                None => led(data, address, bit),
            }
        }),
{
    indicator_changes_one_led(data, true, address, bit);
    stage_glyph_leds(data, font[font_slot(ch)], digit, address, bit);
}

/// Staging a character for one digit of a controller leaves the segments of
/// the controller's other digits as they were.
pub proof fn stage_char_keeps_other_digits(
    data: Seq<u8>,
    font: Seq<u16>,
    ch: char,
    digit: u8,
    other: u8,
    segment: Segment,
)
    requires
        data.len() == BUFFER_LEN,
        digit < 4,
        other < 4,
        digit != other,
    ensures
        led(
            stage_char(data, font, ch, digit),
            led_address(segment, other as int),
            led_bit(segment, other as int),
        ) == led(data, led_address(segment, other as int), led_bit(segment, other as int)),
{
    let address = led_address(segment, other as int);
    let bit = led_bit(segment, other as int);
    led_location_bounds(segment, other);
    stage_char_leds(data, font, ch, digit, address, bit);
}

/// Staging a character keeps the size of display memory.
pub proof fn stage_char_keeps_len(data: Seq<u8>, font: Seq<u16>, ch: char, digit: u8)
    requires
        data.len() == BUFFER_LEN,
    ensures
        stage_char(data, font, ch, digit).len() == BUFFER_LEN,
{
    apply_led_keeps_len(data, indicator_location(), true);
    stage_segments_keeps_len(data, font[font_slot(ch)], digit, SEGMENT_COUNT as nat);
}

} // verus!
