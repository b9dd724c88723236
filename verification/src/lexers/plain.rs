//! Lexer for plain text: every white-space character (space, tab, carriage
//! return, line feed) is a token of its own, every run of other characters is
//! an identifier. A line break is placed on the line that it opens.

use vstd::prelude::*;
use crate::text::byte_len;
use super::Span;
use super::TokenType;
use super::TokenView;
use super::scan::{collect_tokens, scan, spans_match, views, Grammar, Scanner};

verus! {

pub struct Lexer {
    scanner: Scanner,
}

impl Lexer {
    pub closed spec fn wf(&self) -> bool {
        self.scanner.wf() && self.scanner.grammar() == Grammar::Plain
    }

    /// The tokens that are still to come.
    pub closed spec fn remaining(&self) -> Seq<TokenView> {
        self.scanner.remaining()
    }

    pub fn new(s: &str) -> (r: Self)
        requires
            byte_len(s@) <= usize::MAX,
        ensures
            r.wf(),
            r.remaining() == scan(Grammar::Plain, s@),
    {
        Lexer { scanner: Scanner::new(Grammar::Plain, s) }
    }

    /// The next token with its span, or `None` at the end.
    pub fn next_token(&mut self) -> (r: Option<(TokenType, Span)>)
        requires
            old(self).wf(),
        ensures
            final(self).wf(),
            match r {
                None => old(self).remaining() == Seq::<TokenView>::empty(),
                Some((t, span)) => old(self).remaining() == seq![t@] + final(self).remaining()
                    && span.lo == t@.start && span.hi == t@.end,
            },
    {
        let r = self.scanner.next_token();
        r
    }

    /// All the tokens that are still to come, with their spans.
    pub fn tokens(self) -> (r: Vec<(TokenType, Span)>)
        requires
            self.wf(),
        ensures
            views(r@) == self.remaining(),
            spans_match(r@),
    {
        let mut scanner = self.scanner;
        collect_tokens(&mut scanner)
    }
}

} // verus!
