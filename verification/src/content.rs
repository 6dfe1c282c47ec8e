//! The content buffer: the text that is loaded on a display.
//!
//! The buffer has a fixed capacity, which may exceed what the display shows
//! at once. Loading, shifting and rotating never change its length.

use vstd::prelude::*;
use vstd::std_specs::iter::IteratorSpec;

verus! {

/// A run of spaces.
pub open spec fn blank(len: nat) -> Seq<char> {
    Seq::new(len, |i: int| ' ')
}

/// A text cut or padded with spaces to a capacity.
pub open spec fn loaded(text: Seq<char>, capacity: nat) -> Seq<char> {
    Seq::new(
        capacity,
        |i: int|
            if i < text.len() {
                text[i]
            } else {
                ' '
            },
    )
}

/// The content moved `shift` places towards the front, the characters that
/// leave at the front coming back at the end.
pub open spec fn rotated_left(content: Seq<char>, shift: int) -> Seq<char> {
    content.subrange(shift, content.len() as int) + content.subrange(0, shift)
}

/// The content moved `shift` places towards the end, the characters that
/// leave at the end coming back at the front.
pub open spec fn rotated_right(content: Seq<char>, shift: int) -> Seq<char> {
    content.subrange(content.len() - shift, content.len() as int) + content.subrange(
        0,
        content.len() - shift,
    )
}

/// The content moved `shift` places towards the front: the characters that
/// leave at the front are lost, spaces come in at the end.
pub open spec fn shifted_left(content: Seq<char>, shift: int) -> Seq<char> {
    if shift >= content.len() {
        blank(content.len())
    } else {
        content.subrange(shift, content.len() as int) + blank(shift as nat)
    }
}

/// The content moved `shift` places towards the end: the characters that
/// leave at the end are lost, spaces come in at the front.
pub open spec fn shifted_right(content: Seq<char>, shift: int) -> Seq<char> {
    if shift >= content.len() {
        blank(content.len())
    } else {
        blank(shift as nat) + content.subrange(0, content.len() - shift)
    }
}

/// A fixed number of characters.
#[derive(Clone, Copy, Debug)]
pub struct ContentBuffer<const CAPACITY: usize> {
    pub chars: [char; CAPACITY],
}

impl<const CAPACITY: usize> View for ContentBuffer<CAPACITY> {
    type V = Seq<char>;

    open spec fn view(&self) -> Seq<char> {
        self.chars@
    }
}

impl<const CAPACITY: usize> ContentBuffer<CAPACITY> {
    /// A buffer of spaces.
    pub fn new() -> (buffer: Self)
        ensures
            buffer@ == blank(CAPACITY as nat),
    {
        ContentBuffer { chars: [' ';CAPACITY] }
    }

    /// The character at a position.
    pub fn get(&self, index: usize) -> (ch: char)
        requires
            index < CAPACITY,
        ensures
            ch == self@[index as int],
    {
        self.chars[index]
    }

    /// Puts a character at a position and leaves the others as they are.
    pub fn set(&mut self, index: usize, ch: char)
        requires
            index < CAPACITY,
        ensures
            final(self)@ == old(self)@.update(index as int, ch),
    {
        self.chars[index] = ch;
    }

    /// Loads a text from the front: what does not fit is dropped, what is
    /// left of the buffer is filled with spaces.
    pub fn load(&mut self, s: &str)
        ensures
            final(self)@ == loaded(s@, CAPACITY as nat),
    {
        let mut rest = s.chars();
        let mut i: usize = 0;
        while i < CAPACITY
            invariant
                i <= CAPACITY,
                self@.len() == CAPACITY,
                rest.obeys_prophetic_iter_laws(),
                i <= s@.len() ==> rest.remaining() == s@.skip(i as int),
                i > s@.len() ==> rest.remaining().len() == 0,
                forall|j: int| 0 <= j < i ==> self@[j] == loaded(s@, CAPACITY as nat)[j],
            decreases CAPACITY - i,
        {
            let ghost before = rest;
            let next = rest.next();
            proof {
                vstd::string::next_postcondition(&before, &rest, next);
            }
            self.chars[i] = match next {
                Some(ch) => ch,
                None => ' ',
            };
            i += 1;
        }
    }

    /// Moves the content `shift` places towards the front; what leaves at
    /// the front comes back at the end.
    pub fn rotate_left(&mut self, shift: usize)
        requires
            shift <= CAPACITY,
        ensures
            final(self)@ == rotated_left(old(self)@, shift as int),
    {
        let before = self.chars;
        let kept = CAPACITY - shift;
        let mut i: usize = 0;
        while i < CAPACITY
            invariant
                i <= CAPACITY,
                shift <= CAPACITY,
                kept == CAPACITY - shift,
                before@ == old(self)@,
                self@.len() == CAPACITY,
                forall|j: int| 0 <= j < i ==> self@[j] == rotated_left(before@, shift as int)[j],
            decreases CAPACITY - i,
        {
            self.chars[i] = if i < kept {
                before[i + shift]
            } else {
                before[i - kept]
            };
            i += 1;
        }
    }

    /// Moves the content `shift` places towards the end; what leaves at the
    /// end comes back at the front.
    pub fn rotate_right(&mut self, shift: usize)
        requires
            shift <= CAPACITY,
        ensures
            final(self)@ == rotated_right(old(self)@, shift as int),
    {
        let before = self.chars;
        let kept = CAPACITY - shift;
        let mut i: usize = 0;
        while i < CAPACITY
            invariant
                i <= CAPACITY,
                shift <= CAPACITY,
                kept == CAPACITY - shift,
                before@ == old(self)@,
                self@.len() == CAPACITY,
                forall|j: int| 0 <= j < i ==> self@[j] == rotated_right(before@, shift as int)[j],
            decreases CAPACITY - i,
        {
            self.chars[i] = if i < shift {
                before[kept + i]
            } else {
                before[i - shift]
            };
            i += 1;
        }
    }

    /// Moves the content `shift` places towards the front; what leaves at
    /// the front is lost, and spaces come in at the end.
    pub fn shift_left(&mut self, shift: usize)
        ensures
            final(self)@ == shifted_left(old(self)@, shift as int),
    {
        let before = self.chars;
        let mut i: usize = 0;
        while i < CAPACITY
            invariant
                i <= CAPACITY,
                before@ == old(self)@,
                self@.len() == CAPACITY,
                forall|j: int| 0 <= j < i ==> self@[j] == shifted_left(before@, shift as int)[j],
            decreases CAPACITY - i,
        {
            self.chars[i] = if shift < CAPACITY && i < CAPACITY - shift {
                before[i + shift]
            } else {
                ' '
            };
            i += 1;
        }
    }

    /// Moves the content `shift` places towards the end; what leaves at the
    /// end is lost, and spaces come in at the front.
    pub fn shift_right(&mut self, shift: usize)
        ensures
            final(self)@ == shifted_right(old(self)@, shift as int),
    {
        let before = self.chars;
        let mut i: usize = 0;
        while i < CAPACITY
            invariant
                i <= CAPACITY,
                before@ == old(self)@,
                self@.len() == CAPACITY,
                forall|j: int| 0 <= j < i ==> self@[j] == shifted_right(before@, shift as int)[j],
            decreases CAPACITY - i,
        {
            self.chars[i] = if i >= shift {
                before[i - shift]
            } else {
                ' '
            };
            i += 1;
        }
    }
}

/// Loading, rotating and shifting keep the length of the content.
pub proof fn content_keeps_len(content: Seq<char>, text: Seq<char>, shift: int)
    requires
        0 <= shift,
    ensures
        loaded(text, content.len()).len() == content.len(),
        shifted_left(content, shift).len() == content.len(),
        shifted_right(content, shift).len() == content.len(),
        shift <= content.len() ==> rotated_left(content, shift).len() == content.len(),
        shift <= content.len() ==> rotated_right(content, shift).len() == content.len(),
{
}

/// A text that is longer than the capacity is cut to its first `capacity`
/// characters; a shorter one is kept whole and followed by spaces.
pub proof fn loaded_cuts_or_pads(text: Seq<char>, capacity: nat)
    ensures
        text.len() >= capacity ==> loaded(text, capacity) == text.subrange(0, capacity as int),
        text.len() <= capacity ==> loaded(text, capacity) == text + blank(
            (capacity - text.len()) as nat,
        ),
{
    if text.len() >= capacity {
        assert(loaded(text, capacity) =~= text.subrange(0, capacity as int));
    }
    if text.len() <= capacity {
        assert(loaded(text, capacity) =~= text + blank((capacity - text.len()) as nat));
    }
}

/// Rotating to the left and then to the right by the same amount, or to the
/// right and then to the left, gives the content back.
pub proof fn rotation_round_trip(content: Seq<char>, shift: int)
    requires
        0 <= shift <= content.len(),
    ensures
        rotated_right(rotated_left(content, shift), shift) == content,
        rotated_left(rotated_right(content, shift), shift) == content,
{
    assert(rotated_right(rotated_left(content, shift), shift) =~= content);
    assert(rotated_left(rotated_right(content, shift), shift) =~= content);
}

/// Rotating by nothing or by the whole length changes nothing.
pub proof fn rotation_by_nothing_or_all(content: Seq<char>)
    ensures
        rotated_left(content, 0) == content,
        rotated_left(content, content.len() as int) == content,
        rotated_right(content, 0) == content,
        rotated_right(content, content.len() as int) == content,
{
    assert(rotated_left(content, 0) =~= content);
    assert(rotated_left(content, content.len() as int) =~= content);
    assert(rotated_right(content, 0) =~= content);
    assert(rotated_right(content, content.len() as int) =~= content);
}

/// A rotation loses no character and adds none: it holds each character as
/// often as the content did.
pub proof fn rotation_keeps_characters(content: Seq<char>, shift: int)
    requires
        0 <= shift <= content.len(),
    ensures
        rotated_left(content, shift).to_multiset() == content.to_multiset(),
        rotated_right(content, shift).to_multiset() == content.to_multiset(),
{
    let len = content.len() as int;
    vstd::seq_lib::lemma_multiset_commutative(content.subrange(0, shift), content.subrange(shift, len));
    vstd::seq_lib::lemma_multiset_commutative(content.subrange(shift, len), content.subrange(0, shift));
    assert(content.subrange(0, shift) + content.subrange(shift, len) =~= content);
    vstd::seq_lib::lemma_multiset_commutative(
        content.subrange(0, len - shift),
        content.subrange(len - shift, len),
    );
    vstd::seq_lib::lemma_multiset_commutative(
        content.subrange(len - shift, len),
        content.subrange(0, len - shift),
    );
    assert(content.subrange(0, len - shift) + content.subrange(len - shift, len) =~= content);
    assert(content.subrange(0, shift).to_multiset().add(content.subrange(shift, len).to_multiset())
        =~= content.subrange(shift, len).to_multiset().add(content.subrange(0, shift).to_multiset()));
    assert(content.subrange(0, len - shift).to_multiset().add(
        content.subrange(len - shift, len).to_multiset(),
    ) =~= content.subrange(len - shift, len).to_multiset().add(
        content.subrange(0, len - shift).to_multiset(),
    ));
}

/// Shifting keeps the characters that stay in their order and fills the
/// places that open up with spaces.
pub proof fn shift_moves_or_blanks(content: Seq<char>, shift: int, i: int)
    requires
        0 <= shift,
        0 <= i < content.len(),
    ensures
        shifted_left(content, shift)[i] == (if i + shift < content.len() {
            content[i + shift]
        } else {
            ' '
        }),
        shifted_right(content, shift)[i] == (if i >= shift {
            content[i - shift]
        } else {
            ' '
        }),
{
}

} // verus!
