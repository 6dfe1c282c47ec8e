//! The visible window: the part of the content that the controllers show.
//!
//! Position `i` of the content is shown by controller `i / 4` at its digit
//! `i % 4`. What lies past the last controller stays loaded and unseen.

use crate::buffer::{led, BUFFER_LEN};
use crate::font::font_slot;
use crate::render::{
    is_indicator_char, segment_at, segment_at_inverts_location, segment_lit, stage_char,
    stage_char_keeps_len, stage_char_leds,
};
use crate::segment::{led_address, led_bit, led_location_bounds, Segment};
use vstd::prelude::*;

verus! {

/// The number of positions of a content that a row of controllers shows:
/// four for each controller, and no more than the content has.
pub open spec fn visible_len(capacity: int, displays: int) -> int {
    if capacity < 4 * displays {
        capacity
    } else {
        4 * displays
    }
}

/// The display memories after the first `count` characters of a content are
/// staged, each at its own position, from the front.
pub open spec fn stage_window(
    frames: Seq<Seq<u8>>,
    font: Seq<u16>,
    content: Seq<char>,
    count: nat,
) -> Seq<Seq<u8>>
    decreases count,
{
    if count == 0 {
        frames
    } else {
        let index = count - 1;
        let before = stage_window(frames, font, content, index as nat);
        before.update(
            index / 4,
            stage_char(before[index / 4], font, content[index], (index % 4) as u8),
        )
    }
}

/// The display memory of one controller after the characters of its first
/// `count` digits are staged, from the first digit on.
pub open spec fn stage_cells(
    data: Seq<u8>,
    font: Seq<u16>,
    content: Seq<char>,
    controller: int,
    count: nat,
) -> Seq<u8>
    decreases count,
{
    if count == 0 {
        data
    } else {
        let digit = count - 1;
        stage_char(
            stage_cells(data, font, content, controller, digit as nat),
            font,
            content[4 * controller + digit],
            digit as u8,
        )
    }
}

/// How many digits of a controller lie within the first `count` positions.
pub open spec fn cells_shown(controller: int, count: int) -> nat {
    if count <= 4 * controller {
        0
    } else if count >= 4 * controller + 4 {
        4
    } else {
        (count - 4 * controller) as nat
    }
}

/// Staging a window keeps the number of controllers.
pub proof fn stage_window_keeps_len(
    frames: Seq<Seq<u8>>,
    font: Seq<u16>,
    content: Seq<char>,
    count: nat,
)
    requires
        count <= 4 * frames.len(),
    ensures
        stage_window(frames, font, content, count).len() == frames.len(),
    decreases count,
{
    if count > 0 {
        stage_window_keeps_len(frames, font, content, (count - 1) as nat);
    }
}

/// Each controller is staged on its own: after a window is staged, a
/// controller holds what it held before with the characters of its own
/// digits staged on it, and a controller past the window holds what it held.
pub proof fn stage_window_by_controller(
    frames: Seq<Seq<u8>>,
    font: Seq<u16>,
    content: Seq<char>,
    count: nat,
    controller: int,
)
    requires
        0 <= controller < frames.len(),
        count <= 4 * frames.len(),
    ensures
        stage_window(frames, font, content, count)[controller] == stage_cells(
            frames[controller],
            font,
            content,
            controller,
            cells_shown(controller, count as int),
        ),
    decreases count,
{
    if count > 0 {
        stage_window_by_controller(frames, font, content, (count - 1) as nat, controller);
        stage_window_keeps_len(frames, font, content, (count - 1) as nat);
    }
}

/// Staging the digits of a controller keeps the size of its display memory.
pub proof fn stage_cells_keeps_len(
    data: Seq<u8>,
    font: Seq<u16>,
    content: Seq<char>,
    controller: int,
    count: nat,
)
    requires
        data.len() == BUFFER_LEN,
    ensures
        stage_cells(data, font, content, controller, count).len() == BUFFER_LEN,
    decreases count,
{
    if count > 0 {
        let digit = count - 1;
        stage_cells_keeps_len(data, font, content, controller, digit as nat);
        stage_char_keeps_len(
            stage_cells(data, font, content, controller, digit as nat),
            font,
            content[4 * controller + digit],
            digit as u8,
        );
    }
}

/// Whether one of the first `count` digits of a controller holds `.` or `:`.
pub open spec fn holds_indicator(content: Seq<char>, controller: int, count: nat) -> bool
    decreases count,
{
    count > 0 && (is_indicator_char(content[4 * controller + count - 1]) || holds_indicator(
        content,
        controller,
        (count - 1) as nat,
    ))
}

/// Whether an LED of a controller is lit once the characters of the
/// controller's first `count` digits are staged on display memory `data`.
///
/// The indicator is lit if it was lit or one of those characters is `.` or
/// `:`. An LED that drives a segment of one of those digits is lit as the
/// glyph of the digit's character says, unless that character is `.` or `:`.
/// Every other LED is as it was.
pub open spec fn cell_led(
    data: Seq<u8>,
    font: Seq<u16>,
    content: Seq<char>,
    controller: int,
    count: nat,
    address: int,
    bit: int,
) -> bool {
    let digit = bit % 4;
    let ch = content[4 * controller + digit];
    if address == 1 && bit == 0 {
        led(data, 1, 0) || holds_indicator(content, controller, count)
    } else if digit < count && !is_indicator_char(ch) {
        match segment_at(address, bit, digit as u8) {
            Some(segment) => segment_lit(font[font_slot(ch)], segment.index()),
            None => led(data, address, bit),
        }
    } else {
        led(data, address, bit)
    }
}

/// Staging the digits of a controller leaves each of its LEDs as `cell_led`
/// says.
pub proof fn stage_cells_leds(
    data: Seq<u8>,
    font: Seq<u16>,
    content: Seq<char>,
    controller: int,
    count: nat,
    address: int,
    bit: int,
)
    requires
        data.len() == BUFFER_LEN,
        count <= 4,
        0 <= address < BUFFER_LEN,
        0 <= bit < 8,
    ensures
        led(stage_cells(data, font, content, controller, count), address, bit) == cell_led(
            data,
            font,
            content,
            controller,
            count,
            address,
            bit,
        ),
    decreases count,
{
    if count > 0 {
        let last = (count - 1) as u8;
        let before = stage_cells(data, font, content, controller, last as nat);
        let ch = content[4 * controller + last];
        stage_cells_leds(data, font, content, controller, last as nat, address, bit);
        stage_cells_keeps_len(data, font, content, controller, last as nat);
        stage_char_leds(before, font, ch, last, address, bit);
    }
}

/// After a window is staged, each LED of each controller is as `cell_led`
/// says for the controller's digits within the window.
pub proof fn window_leds(
    frames: Seq<Seq<u8>>,
    font: Seq<u16>,
    content: Seq<char>,
    count: nat,
    controller: int,
    address: int,
    bit: int,
)
    requires
        count <= 4 * frames.len(),
        0 <= controller < frames.len(),
        frames[controller].len() == BUFFER_LEN,
        0 <= address < BUFFER_LEN,
        0 <= bit < 8,
    ensures
        led(stage_window(frames, font, content, count)[controller], address, bit) == cell_led(
            frames[controller],
            font,
            content,
            controller,
            cells_shown(controller, count as int),
            address,
            bit,
        ),
{
    stage_window_by_controller(frames, font, content, count, controller);
    stage_cells_leds(
        frames[controller],
        font,
        content,
        controller,
        cells_shown(controller, count as int),
        address,
        bit,
    );
}

/// After a window is staged, every position of it that holds an ordinary
/// character shows that character's glyph on its controller: each of the
/// fourteen LEDs of its digit is lit if and only if the glyph's mask names
/// its segment.
pub proof fn window_shows_glyphs(
    frames: Seq<Seq<u8>>,
    font: Seq<u16>,
    content: Seq<char>,
    count: nat,
    index: int,
    segment: Segment,
)
    requires
        count <= 4 * frames.len(),
        0 <= index < count,
        frames[index / 4].len() == BUFFER_LEN,
        !is_indicator_char(content[index]),
    ensures
        led(
            stage_window(frames, font, content, count)[index / 4],
            led_address(segment, index % 4),
            led_bit(segment, index % 4),
        ) == segment_lit(font[font_slot(content[index])], segment.index()),
{
    let digit = (index % 4) as u8;
    let address = led_address(segment, digit as int);
    let bit = led_bit(segment, digit as int);
    led_location_bounds(segment, digit);
    segment_at_inverts_location(segment, digit, address, bit);
    window_leds(frames, font, content, count, index / 4, address, bit);
}

/// Staging a window never puts an indicator out, and lights the indicator of
/// a controller only for a `.` or `:` among the controller's digits.
pub proof fn window_indicator(
    frames: Seq<Seq<u8>>,
    font: Seq<u16>,
    content: Seq<char>,
    count: nat,
    controller: int,
)
    requires
        count <= 4 * frames.len(),
        0 <= controller < frames.len(),
        frames[controller].len() == BUFFER_LEN,
    ensures
        led(stage_window(frames, font, content, count)[controller], 1, 0) == (led(
            frames[controller],
            1,
            0,
        ) || holds_indicator(content, controller, cells_shown(controller, count as int))),
{
    window_leds(frames, font, content, count, controller, 1, 0);
}

/// A window changes nothing past itself: a controller none of whose digits
/// lies in the window holds what it held.
pub proof fn window_keeps_controllers_past_it(
    frames: Seq<Seq<u8>>,
    font: Seq<u16>,
    content: Seq<char>,
    count: nat,
    controller: int,
)
    requires
        count <= 4 * frames.len(),
        0 <= controller < frames.len(),
        count <= 4 * controller,
    ensures
        stage_window(frames, font, content, count)[controller] == frames[controller],
{
    stage_window_by_controller(frames, font, content, count, controller);
}

} // verus!
