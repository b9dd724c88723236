//! Lexer for Rust source: white space, string quotes, literals, operators,
//! separators, keywords and identifiers, by longest match. A line break is
//! placed on the line that it ends. Scanning stops at the first character
//! that no rule accepts.

use vstd::prelude::*;
use crate::text::byte_len;
use super::Span;
use super::TokenType;
use super::TokenView;
use super::scan::{collect_tokens, scan, spans_match, views, Grammar, Scanner};

verus! {

pub struct Lexer {
    scanner: Scanner,
}

impl Lexer {
    pub closed spec fn wf(&self) -> bool {
        self.scanner.wf() && self.scanner.grammar() == Grammar::Rust
    }

    /// The tokens that are still to come.
    pub closed spec fn remaining(&self) -> Seq<TokenView> {
        self.scanner.remaining()
    }

    pub fn new(s: &str) -> (r: Self)
        requires
            byte_len(s@) <= usize::MAX,
        ensures
            r.wf(),
            r.remaining() == scan(Grammar::Rust, s@),
    {
        Lexer { scanner: Scanner::new(Grammar::Rust, s) }
    }

    /// The next token with its span, or `None` at the end.
    pub fn next_token(&mut self) -> (r: Option<(TokenType, Span)>)
        requires
            old(self).wf(),
        ensures
            final(self).wf(),
            match r {
                None => old(self).remaining() == Seq::<TokenView>::empty(),
                Some((t, span)) => old(self).remaining() == seq![t@] + final(self).remaining()
                    && span.lo == t@.start && span.hi == t@.end,
            },
    {
        let r = self.scanner.next_token();
        r
    }

    /// All the tokens that are still to come, with their spans.
    pub fn tokens(self) -> (r: Vec<(TokenType, Span)>)
        requires
            self.wf(),
        ensures
            views(r@) == self.remaining(),
            spans_match(r@),
    {
        let mut scanner = self.scanner;
        collect_tokens(&mut scanner)
    }
}

} // verus!
