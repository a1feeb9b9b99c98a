use vstd::prelude::*;

verus! {

/// Equality of string slices, `str::eq` of the standard library: two slices
/// are equal when they hold the same characters in the same order.
pub assume_specification[ <str as PartialEq>::eq ](a: &str, b: &str) -> (equal: bool)
    ensures
        equal == (a@ == b@),
;

/// A range of source text: the offsets of its first character and of the
/// character after its last, and the text itself.
#[derive(Debug, PartialEq, Eq)]
pub struct TextSpan {
    pub start: usize,
    pub end: usize,
    pub literal: String,
}

/// The mathematical value of a [`TextSpan`].
pub struct TextSpanView {
    pub start: usize,
    pub end: usize,
    pub literal: Seq<char>,
}

impl View for TextSpan {
    type V = TextSpanView;

    open spec fn view(&self) -> TextSpanView {
        TextSpanView { start: self.start, end: self.end, literal: self.literal@ }
    }
}

impl TextSpan {
    pub fn new(start: usize, end: usize, literal: String) -> (span: Self)
        ensures
            span@ == (TextSpanView { start, end, literal: literal@ }),
    {
        TextSpan { start, end, literal }
    }

    /// The number of source positions that the span covers; zero where the
    /// end does not lie after the start.
    pub fn length(&self) -> (n: usize)
        ensures
            n == if self@.end >= self@.start {
                self@.end - self@.start
            } else {
                0
            },
    {
        if self.end >= self.start {
            self.end - self.start
        } else {
            0
        }
    }
}

impl Clone for TextSpan {
    fn clone(&self) -> (res: Self)
        ensures
            res == *self,
    {
        TextSpan { start: self.start, end: self.end, literal: self.literal.clone() }
    }
}

} // verus!
