//! The display memory of one controller.
//!
//! A controller drives its LEDs from sixteen bytes of display memory, one
//! LED per bit. [`DisplayBuffer`] is the image of that memory as it is staged
//! for a controller; LEDs are staged through the address and data types of
//! the `ht16k33` driver, so that an image holds what the driver's own buffer
//! holds after the same updates.

use crate::segment::BufferLocation;
use ht16k33::{DisplayData, DisplayDataAddress, LedLocation};
use vstd::prelude::*;

verus! {

/// The number of bytes in a controller's display memory.
pub const BUFFER_LEN: usize = 16;

/// The image of one controller's display memory.
#[derive(Clone, Copy, Debug)]
pub struct DisplayBuffer {
    pub data: [u8; 16],
}

impl View for DisplayBuffer {
    type V = Seq<u8>;

    open spec fn view(&self) -> Seq<u8> {
        self.data@
    }
}

/// Whether the LED at bit `bit` of the byte at `address` is lit.
pub open spec fn led(data: Seq<u8>, address: int, bit: int) -> bool {
    data[address] & (1u8 << (bit as u8)) != 0
}

/// Display memory after the LEDs of a location are switched on or off. Only
/// the low four bits of an address reach the memory.
pub open spec fn apply_led(data: Seq<u8>, location: BufferLocation, on: bool) -> Seq<u8> {
    let address = (location.address & 0x0f) as int;
    data.update(
        address,
        if on {
            data[address] | location.data_bit
        } else {
            data[address] & !location.data_bit
        },
    )
}

/// The index of the byte that an address selects. Calls
/// `DisplayDataAddress::from_bits_truncate` and `LedLocation::row_as_index`
/// of `ht16k33`: the driver knows rows 0 to 15 and drops every other bit of
/// an address, so the index is the address's low four bits.
#[verifier::external_body]
fn row_index(address: u8) -> (index: usize)
    ensures
        index == address & 0x0f,
{
    let row = DisplayDataAddress::from_bits_truncate(address);
    LedLocation { row, common: DisplayData::COMMON_NONE }.row_as_index()
}

/// A byte of display memory with some of its LEDs switched. Calls
/// `DisplayData::from_bits_truncate`, `DisplayData::set` and
/// `DisplayData::bits` of `ht16k33`: the driver's data type has a flag for
/// each of the eight bits, `set` inserts the flags of `commons` when `on`
/// holds and removes them when it does not.
#[verifier::external_body]
fn set_commons(data: u8, commons: u8, on: bool) -> (updated: u8)
    ensures
        updated == (if on {
            data | commons
        } else {
            data & !commons
        }),
{
    let mut row = DisplayData::from_bits_truncate(data);
    row.set(DisplayData::from_bits_truncate(commons), on);
    row.bits()
}

impl DisplayBuffer {
    /// An image with every LED off.
    pub fn new() -> (buffer: DisplayBuffer)
        ensures
            buffer@ == Seq::new(BUFFER_LEN as nat, |i: int| 0u8),
    {
        DisplayBuffer { data: [0u8; 16] }
    }

    /// Switches the LEDs of a location on or off and leaves every other LED
    /// as it is.
    pub fn update(&mut self, location: BufferLocation, on: bool)
        ensures
            final(self)@ == apply_led(old(self)@, location, on),
    {
        let address = location.address;
        let index = row_index(address);
        assert(address & 0x0f < 16) by (bit_vector);
        self.data[index] = set_commons(self.data[index], location.data_bit, on);
    }

    /// Whether the LED at bit `bit` of the byte at `address` is lit.
    pub fn is_lit(&self, address: u8, bit: u8) -> (lit: bool)
        requires
            address < BUFFER_LEN,
            bit < 8,
        ensures
            lit == led(self@, address as int, bit as int),
    {
        self.data[address as usize] & (1u8 << bit) != 0
    }
}

/// Switching LEDs keeps the size of display memory.
pub proof fn apply_led_keeps_len(data: Seq<u8>, location: BufferLocation, on: bool)
    requires
        data.len() == BUFFER_LEN,
    ensures
        apply_led(data, location, on).len() == BUFFER_LEN,
        0 <= location.address & 0x0f < BUFFER_LEN,
{
    let address = location.address;
    assert(address & 0x0f < 16) by (bit_vector);
}

/// Switching one bit of a byte sets that bit and keeps the seven others.
pub proof fn switch_bit_changes_one(byte: u8, bit: u8, on: bool, other: u8)
    requires
        bit < 8,
        other < 8,
    ensures
        ((if on {
            byte | (1u8 << bit)
        } else {
            byte & !(1u8 << bit)
        }) & (1u8 << other) != 0) == (if other == bit {
            on
        } else {
            byte & (1u8 << other) != 0
        }),
{
    assert(bit < 8 && other < 8 ==> (((byte | (1u8 << bit)) & (1u8 << other) != 0) == (other == bit
        || byte & (1u8 << other) != 0))) by (bit_vector);
    assert(bit < 8 && other < 8 ==> (((byte & !(1u8 << bit)) & (1u8 << other) != 0) == (other
        != bit && byte & (1u8 << other) != 0))) by (bit_vector);
}

/// Switching a single LED changes that LED and no other: after the update
/// the LED at the location is as asked, and every other LED of the display
/// memory is as it was.
pub proof fn apply_led_changes_one(
    data: Seq<u8>,
    address: u8,
    bit: u8,
    on: bool,
    other_address: int,
    other_bit: int,
)
    requires
        data.len() == BUFFER_LEN,
        bit < 8,
        0 <= other_address < BUFFER_LEN,
        0 <= other_bit < 8,
    ensures
        led(
            apply_led(data, BufferLocation { address, data_bit: 1u8 << bit }, on),
            other_address,
            other_bit,
        ) == (if other_address == (address & 0x0f) && other_bit == bit {
            on
        } else {
            led(data, other_address, other_bit)
        }),
{
    assert(address & 0x0f < 16) by (bit_vector);
    if other_address == (address & 0x0f) {
        switch_bit_changes_one(data[other_address], bit, on, other_bit as u8);
    }
}

} // verus!
