//! A piece of a source file.

use vstd::prelude::*;

verus! {

/// A Span is the information of a piece of source code inside a file.
///
/// `Span`s are only meaningful when indexing the file it is originated from.
#[derive(Clone, Copy, Debug, PartialEq, Eq, Structural)]
pub struct Span {
    /// The start index (in bytes or other meaningful item index)
    /// in the file of this span
    pub idx: usize,
    /// The length of the span
    pub len: usize,
}

impl Span {
    /// The index behind the last item of the span.
    pub open spec fn end(self) -> int {
        self.idx + self.len
    }

    /// The span of `len` items from `idx` on.
    pub fn new(idx: usize, len: usize) -> (r: Span)
        ensures
            r == (Span { idx, len }),
    {
        Span { idx, len }
    }

    /// The span between two indices, given in either order: it starts at the
    /// lesser and ends before the greater.
    pub fn new_idx(lo: usize, hi: usize) -> (r: Span)
        ensures
            r.idx == (if lo > hi {
                hi
            } else {
                lo
            }),
            r.end() == (if lo > hi {
                lo
            } else {
                hi
            }),
    {
        let (lo, hi) = if lo > hi {
            (hi, lo)
        } else {
            (lo, hi)
        };
        let len = hi - lo;
        Span { idx: lo, len }
    }

    /// The span of a piece that stands nowhere: empty, at the start.
    pub fn dummy() -> (r: Span)
        ensures
            r == (Span { idx: 0, len: 0 }),
    {
        Span { idx: 0, len: 0 }
    }

    /// The span that stands for the end of the file: empty, at the greatest
    /// index there is.
    pub fn eof() -> (r: Span)
        ensures
            r == (Span { idx: usize::MAX, len: 0 }),
    {
        Span { idx: usize::MAX, len: 0 }
    }

    /// Whether this is the span that stands for the end of the file.
    pub fn is_eof(&self) -> (r: bool)
        ensures
            r == (*self == (Span { idx: usize::MAX, len: 0 })),
    {
        self.idx == usize::MAX && self.len == 0
    }

    /// The items of `v` that the span names.
    pub fn slice_of<'a, T>(&self, v: &'a Vec<T>) -> (r: &'a [T])
        requires
            self.end() <= v.len(),
        ensures
            r@ == v@.subrange(self.idx as int, self.end()),
    {
        vstd::slice::slice_subrange(v.as_slice(), self.idx, self.idx + self.len)
    }
}

impl vstd::std_specs::ops::AddSpecImpl for Span {
    open spec fn obeys_add_spec() -> bool {
        true
    }

    /// The right span starts no earlier than the left one, and ends at an
    /// index there is.
    open spec fn add_req(self, rhs: Span) -> bool {
        self.idx <= rhs.idx && rhs.end() <= usize::MAX
    }

    /// The span from the start of the left span to the end of the right one.
    open spec fn add_spec(self, rhs: Span) -> Span {
        Span { idx: self.idx, len: (rhs.end() - self.idx) as usize }
    }
}

impl core::ops::Add for Span {
    type Output = Span;

    fn add(self, rhs: Span) -> (r: Span) {
        let len = rhs.idx - self.idx + rhs.len;
        Span::new(self.idx, len)
    }
}

impl Default for Span {
    fn default() -> (r: Span)
        ensures
            r == (Span { idx: 0, len: 0 }),
    {
        Span::dummy()
    }
}

impl vstd::std_specs::convert::FromSpecImpl<logos::Span> for Span {
    open spec fn obeys_from_spec() -> bool {
        true
    }

    open spec fn from_spec(s: logos::Span) -> Span {
        if s.start > s.end {
            Span { idx: s.end, len: (s.start - s.end) as usize }
        } else {
            Span { idx: s.start, len: (s.end - s.start) as usize }
        }
    }
}

impl From<logos::Span> for Span {
    fn from(s: logos::Span) -> (r: Span) {
        Span::new_idx(s.start, s.end)
    }
}

} // verus!
