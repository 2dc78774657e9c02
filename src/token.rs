use vstd::prelude::*;
use vstd::string::*;

use crate::span::Span;

verus! {

/// A lexical unit: the exact source text it matched and where it stands.
#[derive(Debug, Clone, Copy, PartialEq, Eq)]
pub struct Token<'a> {
    pub lexeme: &'a str,
    pub span: Span,
}

impl<'a> Token<'a> {
    pub fn new(lexeme: &'a str, span: Span) -> (r: Token<'a>)
        ensures
            r.lexeme@ == lexeme@,
            r.span == span,
    {
        Token { lexeme, span }
    }
}

/// Exact text comparison: no case folding, trimming or prefix match.
pub fn text_eq(s: &str, t: &str) -> (r: bool)
    ensures
        r == (s@ == t@),
{
    let n = s.unicode_len();
    if n != t.unicode_len() {
        return false;
    }
    let mut i: usize = 0;
    while i < n
        invariant
            n == s@.len(),
            n == t@.len(),
            i <= n,
            forall|j: int| 0 <= j < i ==> s@[j] == t@[j],
        decreases n - i,
    {
        if s.get_char(i) != t.get_char(i) {
            return false;
        }
        i = i + 1;
    }
    assert(s@ =~= t@);
    true
}

} // verus!
