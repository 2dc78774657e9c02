use vstd::prelude::*;

verus! {

/// A range of source offsets, `start` inclusive and `end` exclusive.
#[derive(Debug, Clone, Copy, PartialEq, Eq, Structural)]
pub struct Span {
    pub start: usize,
    pub end: usize,
}

impl Span {
    /// A span is well formed when it does not end before it starts.
    pub open spec fn wf(self) -> bool {
        self.start <= self.end
    }

    /// The smallest span that covers both `a` and `b`.
    pub open spec fn merge(a: Span, b: Span) -> Span {
        Span {
            start: if a.start <= b.start { a.start } else { b.start },
            end: if a.end >= b.end { a.end } else { b.end },
        }
    }

    pub fn new(start: usize, end: usize) -> (r: Span)
        requires
            start <= end,
        ensures
            r.start == start,
            r.end == end,
            r.wf(),
    {
        Span { start, end }
    }

    /// Merges two spans into the smallest one covering both.
    pub fn from_pair(a: Span, b: Span) -> (r: Span)
        ensures
            r == Span::merge(a, b),
            a.wf() && b.wf() ==> r.wf(),
            r.start <= a.start && r.start <= b.start,
            r.end >= a.end && r.end >= b.end,
    {
        let start = if a.start <= b.start { a.start } else { b.start };
        let end = if a.end >= b.end { a.end } else { b.end };
        Span { start, end }
    }
}

/// A node together with the span of the token(s) it was recognised from.
#[derive(Debug, Clone, Copy, PartialEq, Eq)]
pub struct Located<T> {
    pub node: T,
    pub span: Span,
}

} // verus!
