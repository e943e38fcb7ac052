//! A common abstraction for string slices.
//!
//! It gathers the string operation that the segmenters rely on, so that
//! code over them can be written generically.  The splitting offset must
//! fall on a character boundary, and the two halves carry the two halves of
//! the character sequence.

use vstd::prelude::*;
use crate::textpos::is_char_bdy;
use crate::textpos::char_idx;
use crate::textpos::str_split;

verus! {

/// A reference to string data that can be split at a byte offset.
pub trait StrRef: Sized {
    /// The characters of the slice.
    spec fn chars_view(&self) -> Seq<char>;

    /// Split at a byte offset that falls on a character boundary.
    fn split_at(self, idx: usize) -> (r: (Self, Self))
        requires
            is_char_bdy(self.chars_view(), idx as int),
        ensures
            r.0.chars_view() == self.chars_view().take(
                char_idx(self.chars_view(), idx as int),
            ),
            r.1.chars_view() == self.chars_view().skip(
                char_idx(self.chars_view(), idx as int),
            ),
    ;
}

impl<'a> StrRef for &'a str {
    open spec fn chars_view(&self) -> Seq<char> {
        self@
    }

    fn split_at(self, idx: usize) -> (r: (Self, Self)) {
        str_split(self, idx)
    }
}

} // verus!
