//! The chained display: a content buffer shown on a row of controllers.

use crate::buffer::{apply_led, DisplayBuffer, BUFFER_LEN};
use crate::content::{
    blank, loaded, rotated_left, rotated_right, shifted_left, shifted_right, ContentBuffer,
};
use crate::font::{Font, FONT, FONT_LEN};
use crate::render::{
    frames, indicator_location, print_char_at, show_colon, show_dot, stage_char, Indicator,
};
use crate::window::{stage_window, visible_len};
use vstd::prelude::*;

verus! {

/// Manage several controllers as one display of text.
///
/// `CONTENT_LEN` characters are loaded; the first four for each of the
/// `NUM_DISPLAYS` controllers are shown.
pub struct AlphaNum4<'a, const CONTENT_LEN: usize, const NUM_DISPLAYS: usize> {
    displays: [DisplayBuffer; NUM_DISPLAYS],
    display_content: ContentBuffer<CONTENT_LEN>,
    font: Font<'a>,
}

impl<'a, const CONTENT_LEN: usize, const NUM_DISPLAYS: usize> AlphaNum4<
    'a,
    CONTENT_LEN,
    NUM_DISPLAYS,
> {
    /// The loaded text.
    pub closed spec fn content(&self) -> Seq<char> {
        self.display_content@
    }

    /// The display memory of each controller.
    pub closed spec fn frames(&self) -> Seq<Seq<u8>> {
        frames(self.displays)
    }

    /// The font table in use.
    pub closed spec fn glyphs(&self) -> Seq<u16> {
        self.font@
    }

    /// In every state the content has `CONTENT_LEN` characters, and there are
    /// `NUM_DISPLAYS` display memories of sixteen bytes each.
    pub proof fn has_fixed_shape(&self)
        ensures
            self.content().len() == CONTENT_LEN,
            self.frames().len() == NUM_DISPLAYS,
            forall|i: int| 0 <= i < NUM_DISPLAYS ==> (#[trigger] self.frames()[i]).len() == BUFFER_LEN,
    {
    }

    /// Construct a display on `NUM_DISPLAYS` controllers with the built-in
    /// font. Nothing is loaded, and display memory is as it was handed in.
    pub fn new(displays: [DisplayBuffer; NUM_DISPLAYS]) -> (display: AlphaNum4<
        'static,
        CONTENT_LEN,
        NUM_DISPLAYS,
    >)
        ensures
            display.content() == blank(CONTENT_LEN as nat),
            display.frames() == frames(displays),
            display.glyphs() == FONT@,
    {
        AlphaNum4 { displays, display_content: ContentBuffer::new(), font: Font::builtin() }
    }

    /// Construct a display on `NUM_DISPLAYS` controllers with a custom font.
    /// Nothing is loaded, and display memory is as it was handed in.
    pub fn new_with_font(displays: [DisplayBuffer; NUM_DISPLAYS], font: &'a [u16]) -> (display:
        Self)
        requires
            font@.len() >= FONT_LEN,
        ensures
            display.content() == blank(CONTENT_LEN as nat),
            display.frames() == frames(displays),
            display.glyphs() == font@,
    {
        AlphaNum4 { displays, display_content: ContentBuffer::new(), font: Font::new(font) }
    }

    /// Get a shared reference to the loaded text.
    pub fn content_buffer(&self) -> (buffer: &ContentBuffer<CONTENT_LEN>)
        ensures
            buffer@ == self.content(),
    {
        &self.display_content
    }

    /// Get a shared reference to the `idx`th controller's display memory.
    pub fn display_at(&self, idx: usize) -> (display: &DisplayBuffer)
        requires
            idx < NUM_DISPLAYS,
        ensures
            display@ == self.frames()[idx as int],
    {
        &self.displays[idx]
    }

    /// Get a unique reference to the `idx`th controller's display memory.
    /// What is written through it is what that controller holds afterwards;
    /// the other controllers, the content and the font stay as they are.
    pub fn display_at_mut(&mut self, idx: usize) -> (display: &mut DisplayBuffer)
        requires
            idx < NUM_DISPLAYS,
        ensures
            display@ == old(self).frames()[idx as int],
            final(self).frames() == old(self).frames().update(idx as int, final(display)@),
            final(self).content() == old(self).content(),
            final(self).glyphs() == old(self).glyphs(),
    {
        &mut self.displays[idx]
    }

    /// Get a shared slice of the display memory of all controllers.
    pub fn displays(&self) -> (displays: &[DisplayBuffer])
        ensures
            displays@.len() == NUM_DISPLAYS,
            forall|i: int| 0 <= i < NUM_DISPLAYS ==> displays@[i]@ == self.frames()[i],
    {
        &self.displays
    }

    /// Get a unique slice of the display memory of all controllers. What is
    /// written through it is what the controllers hold afterwards; the
    /// content and the font stay as they are.
    pub fn displays_mut(&mut self) -> (displays: &mut [DisplayBuffer])
        ensures
            displays@.len() == NUM_DISPLAYS,
            forall|i: int| 0 <= i < NUM_DISPLAYS ==> displays@[i]@ == old(self).frames()[i],
            final(self).frames() == Seq::new(NUM_DISPLAYS as nat, |i: int| final(displays)@[i]@),
            final(self).content() == old(self).content(),
            final(self).glyphs() == old(self).glyphs(),
    {
        &mut self.displays
    }

    /// Stages the visible part of the content, position by position.
    fn print_content(&mut self)
        ensures
            final(self).content() == old(self).content(),
            final(self).glyphs() == old(self).glyphs(),
            final(self).frames() == stage_window(
                old(self).frames(),
                old(self).glyphs(),
                old(self).content(),
                visible_len(CONTENT_LEN as int, NUM_DISPLAYS as int) as nat,
            ),
    {
        let mut i: usize = 0;
        while i < CONTENT_LEN && i / 4 < NUM_DISPLAYS
            invariant
                i <= visible_len(CONTENT_LEN as int, NUM_DISPLAYS as int),
                self.content() == old(self).content(),
                self.glyphs() == old(self).glyphs(),
                self.frames() == stage_window(
                    old(self).frames(),
                    old(self).glyphs(),
                    old(self).content(),
                    i as nat,
                ),
            decreases CONTENT_LEN - i,
        {
            let ch = self.display_content.get(i);
            print_char_at(&mut self.displays, ch, i, &self.font);
            i += 1;
        }
    }

    /// Store the first `CONTENT_LEN` characters of the string, fill what is
    /// left of the content with spaces, and stage the visible part.
    pub fn print_str(&mut self, s: &str)
        ensures
            final(self).content() == loaded(s@, CONTENT_LEN as nat),
            final(self).glyphs() == old(self).glyphs(),
            final(self).frames() == stage_window(
                old(self).frames(),
                old(self).glyphs(),
                loaded(s@, CONTENT_LEN as nat),
                visible_len(CONTENT_LEN as int, NUM_DISPLAYS as int) as nat,
            ),
    {
        self.display_content.load(s);
        self.print_content();
    }

    /// Store the character `ch` at position `index` and stage it there. No
    /// other position of the content changes, and no other controller.
    pub fn print_char(&mut self, ch: char, index: u8)
        requires
            index < CONTENT_LEN,
            index / 4 < NUM_DISPLAYS,
        ensures
            final(self).content() == old(self).content().update(index as int, ch),
            final(self).glyphs() == old(self).glyphs(),
            final(self).frames() == old(self).frames().update(
                index as int / 4,
                stage_char(
                    old(self).frames()[index as int / 4],
                    old(self).glyphs(),
                    ch,
                    index % 4,
                ),
            ),
    {
        self.display_content.set(index as usize, ch);
        print_char_at(&mut self.displays, ch, index as usize, &self.font);
    }

    /// Switch an indicator of a controller on or off. The content and the
    /// other controllers stay as they are.
    pub fn set_indicator(&mut self, controller_index: usize, kind: Indicator, on: bool)
        requires
            controller_index < NUM_DISPLAYS,
        ensures
            final(self).content() == old(self).content(),
            final(self).glyphs() == old(self).glyphs(),
            final(self).frames() == old(self).frames().update(
                controller_index as int,
                apply_led(old(self).frames()[controller_index as int], indicator_location(), on),
            ),
    {
        match kind {
            Indicator::DecimalPoint => show_dot(&mut self.displays[controller_index], on),
            Indicator::Colon => show_colon(&mut self.displays[controller_index], on),
        }
    }

    /// Rotate the content `shift_amount` characters to the left: the first
    /// `shift_amount` characters go to the back. Then stage the visible part.
    pub fn rotate_left(&mut self, shift_amount: usize)
        requires
            shift_amount <= CONTENT_LEN,
        ensures
            final(self).content() == rotated_left(old(self).content(), shift_amount as int),
            final(self).glyphs() == old(self).glyphs(),
            final(self).frames() == stage_window(
                old(self).frames(),
                old(self).glyphs(),
                rotated_left(old(self).content(), shift_amount as int),
                visible_len(CONTENT_LEN as int, NUM_DISPLAYS as int) as nat,
            ),
    {
        self.display_content.rotate_left(shift_amount);
        self.print_content();
    }

    /// Rotate the content `shift_amount` characters to the right: the last
    /// `shift_amount` characters go to the front. Then stage the visible
    /// part.
    pub fn rotate_right(&mut self, shift_amount: usize)
        requires
            shift_amount <= CONTENT_LEN,
        ensures
            final(self).content() == rotated_right(old(self).content(), shift_amount as int),
            final(self).glyphs() == old(self).glyphs(),
            final(self).frames() == stage_window(
                old(self).frames(),
                old(self).glyphs(),
                rotated_right(old(self).content(), shift_amount as int),
                visible_len(CONTENT_LEN as int, NUM_DISPLAYS as int) as nat,
            ),
    {
        self.display_content.rotate_right(shift_amount);
        self.print_content();
    }

    /// Shift the content `shift_amount` characters to the left: the first
    /// `shift_amount` characters are dropped, spaces come in at the back.
    /// Then stage the visible part.
    pub fn shift_left(&mut self, shift_amount: usize)
        ensures
            final(self).content() == shifted_left(old(self).content(), shift_amount as int),
            final(self).glyphs() == old(self).glyphs(),
            final(self).frames() == stage_window(
                old(self).frames(),
                old(self).glyphs(),
                shifted_left(old(self).content(), shift_amount as int),
                visible_len(CONTENT_LEN as int, NUM_DISPLAYS as int) as nat,
            ),
    {
        self.display_content.shift_left(shift_amount);
        self.print_content();
    }

    /// Shift the content `shift_amount` characters to the right: the last
    /// `shift_amount` characters are dropped, spaces come in at the front.
    /// Then stage the visible part.
    pub fn shift_right(&mut self, shift_amount: usize)
        ensures
            final(self).content() == shifted_right(old(self).content(), shift_amount as int),
            final(self).glyphs() == old(self).glyphs(),
            final(self).frames() == stage_window(
                old(self).frames(),
                old(self).glyphs(),
                shifted_right(old(self).content(), shift_amount as int),
                visible_len(CONTENT_LEN as int, NUM_DISPLAYS as int) as nat,
            ),
    {
        self.display_content.shift_right(shift_amount);
        self.print_content();
    }
}

impl<'a, const CONTENT_LEN: usize> AlphaNum4<'a, CONTENT_LEN, 1> {
    /// Get a shared reference to the display memory of the one controller.
    pub fn display(&self) -> (display: &DisplayBuffer)
        ensures
            display@ == self.frames()[0],
    {
        &self.displays[0]
    }

    /// Get a unique reference to the display memory of the one controller.
    pub fn display_mut(&mut self) -> (display: &mut DisplayBuffer)
        ensures
            display@ == old(self).frames()[0],
            final(self).frames() == old(self).frames().update(0, final(display)@),
            final(self).content() == old(self).content(),
            final(self).glyphs() == old(self).glyphs(),
    {
        &mut self.displays[0]
    }
}

} // verus!
