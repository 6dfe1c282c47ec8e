//! Drive chained 14-segment alphanumeric LED displays as one text display.
//!
//! Each controller of the chain shows four characters. The crate decodes
//! characters into segment masks ([`font`]), maps each segment of each digit
//! to its place in a controller's display memory ([`segment`]), stages the
//! LEDs in an image of that memory ([`buffer`], [`render`], [`window`]), and
//! keeps the text that is loaded on the chain ([`content`], [`display`]).

pub mod buffer;
pub mod content;
pub mod display;
pub mod font;
pub mod render;
pub mod segment;
pub mod window;

pub use buffer::DisplayBuffer;
pub use content::ContentBuffer;
pub use display::AlphaNum4;
pub use font::{lookup, Font, FONT};
pub use render::{show_colon, show_dot, Indicator};
pub use segment::{resolve, BufferLocation, Segment};
use vstd::prelude::*;

verus! {

/// The bus address of the first controller of a chain.
pub const DEFAULT_DISPLAY_ADDR: u8 = 0x70;

/// The bus address of the second controller of a chain.
pub const DISPLAY_ADDR_1: u8 = 0x71;

/// The bus address of the third controller of a chain.
pub const DISPLAY_ADDR_2: u8 = 0x72;

/// The bus address of the fourth controller of a chain.
pub const DISPLAY_ADDR_3: u8 = 0x73;

} // verus!
