//! Lexer for TOML: section brackets and braces are separators, `=` is an
//! operator, a quoted string runs to the matching quote, and everything else
//! between white space is an identifier.
//!
//! The lexer gathers characters in a buffer and emits the buffer as a token
//! when a delimiter ends it; what is left at the end becomes an identifier.

use vstd::prelude::*;
use crate::text::{byte_len, char_width, lemma_byte_len_concat, lemma_byte_len_ge_len, width_of};
use super::{Token, TokenKind, TokenType, TokenView};

verus! {

pub open spec fn is_quoted(b: Seq<char>) -> bool {
    b.len() > 0 && (b[0] == '\'' || b[0] == '"')
}

pub open spec fn is_white_text(b: Seq<char>) -> bool {
    b == seq![' '] || b == seq!['\t'] || b == seq!['\n'] || b == seq!['\r']
}

/// Number of `\n` in `b`.
pub open spec fn count_breaks(b: Seq<char>) -> nat
    decreases b.len(),
{
    if b.len() == 0 {
        0
    } else {
        count_breaks(b.drop_last()) + if b.last() == '\n' { 1nat } else { 0nat }
    }
}

/// Byte length of what follows the last `\n` of `b` (all of `b` if none).
pub open spec fn tail_bytes(b: Seq<char>) -> nat
    decreases b.len(),
{
    if b.len() == 0 {
        0
    } else if b.last() == '\n' {
        0
    } else {
        tail_bytes(b.drop_last()) + char_width(b.last())
    }
}

/// The number of lines of a text that holds a `\n`: one per `\n`, and one
/// more when text follows the last `\n`.
pub open spec fn line_count(b: Seq<char>) -> nat {
    count_breaks(b) + if b.len() > 0 && b.last() != '\n' { 1nat } else { 0nat }
}

/// The lexer's state: the pending characters and the place of the next token.
pub struct TomlState {
    pub buffer: Seq<char>,
    pub line: nat,
    pub character: nat,
    pub start: nat,
}

/// The token that the pending characters make.
pub open spec fn emit(st: TomlState, kind: TokenKind) -> TokenView {
    TokenView {
        kind,
        text: st.buffer,
        line: st.line,
        character: st.character,
        start: st.start,
        end: st.start + byte_len(st.buffer),
    }
}

/// The state once the pending characters are emitted: the start moves past
/// their bytes; a text with line breaks adds its lines and the bytes from its
/// last break on to the column, any other text adds its bytes to the column.
pub open spec fn cleared(st: TomlState) -> TomlState {
    let b = st.buffer;
    if count_breaks(b) > 0 {
        TomlState {
            buffer: Seq::empty(),
            line: st.line + line_count(b),
            character: st.character + 1 + tail_bytes(b),
            start: st.start + byte_len(b),
        }
    } else {
        TomlState {
            buffer: Seq::empty(),
            line: st.line,
            character: st.character + byte_len(b),
            start: st.start + byte_len(b),
        }
    }
}

pub open spec fn with_char(st: TomlState, c: char) -> TomlState {
    TomlState { buffer: st.buffer.push(c), ..st }
}

/// What the pending characters are taken for when something ends them.
pub open spec fn pending_kind(b: Seq<char>) -> TokenKind {
    if is_quoted(b) {
        TokenKind::Text
    } else if is_white_text(b) {
        TokenKind::Whitespace
    } else {
        TokenKind::Identifier
    }
}

/// Emits the pending characters, if there are any.
pub open spec fn flush(st: TomlState) -> (Seq<TokenView>, TomlState) {
    if st.buffer.len() == 0 {
        (Seq::empty(), st)
    } else {
        (seq![emit(st, pending_kind(st.buffer))], cleared(st))
    }
}

/// Emits the pending characters and the delimiter `c` as one more token.
pub open spec fn flush_with(st: TomlState, c: char, kind: TokenKind) -> (Seq<TokenView>, TomlState) {
    let (a, s1) = flush(st);
    let s2 = with_char(s1, c);
    (a + seq![emit(s2, kind)], cleared(s2))
}

pub open spec fn is_bracket(c: char) -> bool {
    c == '[' || c == ']' || c == '{' || c == '}'
}

/// One character of input. Inside a quoted text only the matching quote
/// counts; outside, white space, brackets and `=` end what is pending.
pub open spec fn step(st: TomlState, c: char) -> (Seq<TokenView>, TomlState) {
    let quoted = is_quoted(st.buffer);
    if (c == ' ' || c == '\n') && !quoted {
        flush_with(st, c, TokenKind::Whitespace)
    } else if is_bracket(c) && !quoted {
        flush_with(st, c, TokenKind::Separator)
    } else if c == '=' && !quoted {
        flush_with(st, c, TokenKind::Operator)
    } else if (c == '"' || c == '\'') && quoted && st.buffer[0] == c {
        let s1 = with_char(st, c);
        (seq![emit(s1, TokenKind::Text)], cleared(s1))
    } else {
        (Seq::empty(), with_char(st, c))
    }
}

/// The tokens of `s` read from `st` on, including what is left at the end
/// as an identifier.
pub open spec fn run_tokens(st: TomlState, s: Seq<char>) -> Seq<TokenView>
    decreases s.len(),
{
    if s.len() == 0 {
        if st.buffer.len() == 0 {
            Seq::empty()
        } else {
            seq![emit(st, TokenKind::Identifier)]
        }
    } else {
        step(st, s[0]).0 + run_tokens(step(st, s[0]).1, s.drop_first())
    }
}

/// The state after reading `s` from `st` on.
pub open spec fn run_state(st: TomlState, s: Seq<char>) -> TomlState
    decreases s.len(),
{
    if s.len() == 0 {
        if st.buffer.len() == 0 {
            st
        } else {
            cleared(st)
        }
    } else {
        run_state(step(st, s[0]).1, s.drop_first())
    }
}

pub open spec fn start_state() -> TomlState {
    TomlState { buffer: Seq::empty(), line: 0, character: 0, start: 0 }
}

/// The tokens of a whole TOML text.
pub open spec fn toml_tokens(s: Seq<char>) -> Seq<TokenView> {
    run_tokens(start_state(), s)
}

/// Characters gathered for the next token.
#[derive(Debug)]
pub struct Buffer {
    chars: Vec<char>,
    bytes: usize,
}

impl View for Buffer {
    type V = Seq<char>;

    closed spec fn view(&self) -> Seq<char> {
        self.chars@
    }
}

impl Buffer {
    pub closed spec fn wf(&self) -> bool {
        self.bytes == byte_len(self.chars@)
    }

    pub fn new() -> (r: Self)
        ensures
            r.wf(),
            r@ == Seq::<char>::empty(),
    {
        Buffer { chars: Vec::new(), bytes: 0 }
    }

    /// The gathered text starts with a quote.
    pub fn is_string(&self) -> (r: bool)
        ensures
            r == is_quoted(self@),
    {
        self.chars.len() > 0 && (self.chars[0] == '\'' || self.chars[0] == '"')
    }

    /// The gathered text ends with a backslash.
    pub fn is_escaped(&self) -> (r: bool)
        ensures
            r == (self@.len() > 0 && self@.last() == '\\'),
    {
        self.chars.len() > 0 && self.chars[self.chars.len() - 1] == '\\'
    }

    /// The gathered text is a quoted text opened by `c`.
    pub fn is_string_beginning(&self, c: char) -> (r: bool)
        ensures
            r == (is_quoted(self@) && self@[0] == c),
    {
        self.is_string() && self.chars[0] == c
    }

    /// The gathered text is one space, tab, line feed or carriage return.
    pub fn is_white(&self) -> (r: bool)
        ensures
            r == is_white_text(self@),
    {
        if self.chars.len() == 1 {
            let c = self.chars[0];
            proof {
                if c == ' ' {
                    assert(self@ =~= seq![' ']);
                }
                if c == '\t' {
                    assert(self@ =~= seq!['\t']);
                }
                if c == '\n' {
                    assert(self@ =~= seq!['\n']);
                }
                if c == '\r' {
                    assert(self@ =~= seq!['\r']);
                }
            }
            c == ' ' || c == '\t' || c == '\n' || c == '\r'
        } else {
            proof {
                assert(seq![' '].len() == 1);
                assert(seq!['\t'].len() == 1);
                assert(seq!['\n'].len() == 1);
                assert(seq!['\r'].len() == 1);
            }
            false
        }
    }

    pub fn is_empty(&self) -> (r: bool)
        ensures
            r == (self@.len() == 0),
    {
        self.chars.len() == 0
    }

    /// Byte length of the gathered text.
    pub fn byte_length(&self) -> (r: usize)
        requires
            self.wf(),
        ensures
            r == byte_len(self@),
    {
        self.bytes
    }

    pub fn push(&mut self, c: char)
        requires
            old(self).wf(),
            byte_len(old(self)@) + char_width(c) <= usize::MAX,
        ensures
            final(self).wf(),
            final(self)@ == old(self)@.push(c),
    {
        self.chars.push(c);
        proof {
            assert(self.chars@.drop_last() =~= old(self).chars@);
        }
        self.bytes = self.bytes + width_of(c);
    }

    pub fn clear(&mut self)
        ensures
            final(self).wf(),
            final(self)@ == Seq::<char>::empty(),
    {
        self.chars = Vec::new();
        self.bytes = 0;
    }

    /// The gathered text as a string.
    pub fn text(&self) -> (r: String)
        requires
            self.wf(),
        ensures
            r@ == self@,
    {
        let n = self.chars.len();
        proof {
            assert(self.chars@.subrange(0, n as int) =~= self.chars@);
        }
        let (s, _w) = crate::text::text_of(&self.chars, 0, n);
        s
    }

    /// The number of line feeds and the byte length after the last one.
    fn breaks(&self) -> (r: (usize, usize))
        requires
            self.wf(),
        ensures
            r.0 == count_breaks(self@),
            r.1 == tail_bytes(self@),
    {
        let mut k: usize = 0;
        let mut count: usize = 0;
        let mut tail: usize = 0;
        while k < self.chars.len()
            invariant
                self.wf(),
                0 <= k <= self.chars@.len(),
                count == count_breaks(self.chars@.take(k as int)),
                tail == tail_bytes(self.chars@.take(k as int)),
                count <= k,
                tail <= byte_len(self.chars@.take(k as int)),
            decreases self.chars@.len() - k,
        {
            proof {
                assert(self.chars@.take(k + 1).drop_last() =~= self.chars@.take(k as int));
                lemma_byte_len_concat(self.chars@.take(k + 1), self.chars@.subrange(k + 1, self.chars@.len() as int));
                assert(self.chars@.take(k + 1) + self.chars@.subrange(k + 1, self.chars@.len() as int) =~= self.chars@);
            }
            let c = self.chars[k];
            if c == '\n' {
                count = count + 1;
                tail = 0;
            } else {
                tail = tail + width_of(c);
            }
            k = k + 1;
        }
        proof {
            assert(self.chars@.take(k as int) =~= self.chars@);
        }
        (count, tail)
    }
}

pub proof fn lemma_line_count_bound(b: Seq<char>)
    ensures
        line_count(b) <= b.len(),
        count_breaks(b) <= b.len(),
        count_breaks(b) > 0 ==> 1 + tail_bytes(b) <= byte_len(b),
        tail_bytes(b) <= byte_len(b),
    decreases b.len(),
{
    if b.len() > 0 {
        lemma_line_count_bound(b.drop_last());
        let p = b.drop_last();
        if p.len() > 0 && p.last() != '\n' {
        }
    }
}

/// Every counter, with the bytes still to come added, fits in a `usize`.
pub open spec fn fits(st: TomlState, extra: nat) -> bool {
    &&& st.line + byte_len(st.buffer) + extra <= usize::MAX
    &&& st.character + byte_len(st.buffer) + extra <= usize::MAX
    &&& st.start + byte_len(st.buffer) + extra <= usize::MAX
}

pub proof fn lemma_push_byte_len(b: Seq<char>, c: char)
    ensures
        byte_len(b.push(c)) == byte_len(b) + char_width(c),
{
    assert(b.push(c).drop_last() =~= b);
}

pub proof fn lemma_fits_steps(st: TomlState, c: char, extra: nat)
    requires
        fits(st, char_width(c) + extra),
    ensures
        fits(cleared(st), char_width(c) + extra),
        fits(flush(st).1, char_width(c) + extra),
        fits(with_char(st, c), extra),
        fits(cleared(with_char(flush(st).1, c)), extra),
        fits(step(st, c).1, extra),
{
    lemma_line_count_bound(st.buffer);
    lemma_byte_len_ge_len(st.buffer);
    lemma_push_byte_len(st.buffer, c);
    let s1 = flush(st).1;
    lemma_line_count_bound(s1.buffer);
    lemma_byte_len_ge_len(s1.buffer);
    lemma_push_byte_len(s1.buffer, c);
    let s2 = with_char(s1, c);
    lemma_line_count_bound(s2.buffer);
    lemma_byte_len_ge_len(s2.buffer);
    let s3 = with_char(st, c);
    lemma_line_count_bound(s3.buffer);
    lemma_byte_len_ge_len(s3.buffer);
    assert(byte_len(Seq::<char>::empty()) == 0);
}

pub proof fn lemma_byte_len_front(s: Seq<char>)
    requires
        s.len() > 0,
    ensures
        byte_len(s) == char_width(s[0]) + byte_len(s.drop_first()),
{
    lemma_byte_len_concat(seq![s[0]], s.drop_first());
    assert(seq![s[0]] + s.drop_first() =~= s);
    assert(seq![s[0]].drop_last() =~= Seq::<char>::empty());
    assert(byte_len(seq![s[0]]) == byte_len(Seq::<char>::empty()) + char_width(s[0]));
}

/// The TOML lexer: the text and where reading it stands.
pub struct Lexer {
    content: String,
    buffer: Buffer,
    line: usize,
    character: usize,
    start: usize,
}

impl Lexer {
    pub closed spec fn state(&self) -> TomlState {
        TomlState {
            buffer: self.buffer@,
            line: self.line as nat,
            character: self.character as nat,
            start: self.start as nat,
        }
    }

    pub closed spec fn content(&self) -> Seq<char> {
        self.content@
    }

    pub closed spec fn wf(&self) -> bool {
        self.buffer.wf()
    }

    pub fn new(content: String) -> (r: Self)
        ensures
            r.wf(),
            r.state() == start_state(),
            r.content() == content@,
    {
        Lexer { content, buffer: Buffer::new(), line: 0, character: 0, start: 0 }
    }

    /// The tokens of the text, read on from where the lexer stands.
    pub fn tokenize(&mut self) -> (r: Vec<TokenType>)
        requires
            old(self).wf(),
            fits(old(self).state(), byte_len(old(self).content())),
        ensures
            final(self).wf(),
            final(self).content() == old(self).content(),
            r@.map_values(|t: TokenType| t@) == run_tokens(old(self).state(), old(self).content()),
            final(self).state() == run_state(old(self).state(), old(self).content()),
            old(self).state() == start_state() ==> {
                let ts = r@.map_values(|t: TokenType| t@);
                &&& super::laws::concat_texts(ts) == old(self).content()
                &&& super::laws::tiled(ts, 0)
                &&& super::laws::all_non_empty(ts)
                &&& !old(self).content().contains('\n') ==> super::laws::on_first_line(ts)
                &&& old(self).content().len() > 0 ==> ts.len() > 0 && ts[0].line == 0 && ts[0].character == 0
                    && ts[0].start == 0
            },
    {
        let chars = crate::text::chars_of(self.content.as_str());
        let ghost s = chars@;
        let ghost st0 = self.state();
        let mut tokens: Vec<TokenType> = Vec::new();
        let mut i: usize = 0;
        proof {
            assert(s.skip(0) =~= s);
        }
        while i < chars.len()
            invariant
                self.wf(),
                self.content() == old(self).content(),
                chars@ == s,
                s == old(self).content(),
                0 <= i <= s.len(),
                run_tokens(st0, s) == tokens@.map_values(|t: TokenType| t@) + run_tokens(
                    self.state(),
                    s.skip(i as int),
                ),
                run_state(st0, s) == run_state(self.state(), s.skip(i as int)),
                fits(self.state(), byte_len(s.skip(i as int))),
            decreases s.len() - i,
        {
            let c = chars[i];
            let ghost st = self.state();
            let ghost before = tokens@.map_values(|t: TokenType| t@);
            proof {
                let rest = s.skip(i as int);
                assert(rest[0] == c);
                assert(rest.drop_first() =~= s.skip(i + 1));
                lemma_byte_len_front(rest);
                lemma_fits_steps(st, c, byte_len(s.skip(i + 1)));
            }
            self.consume(c, &mut tokens, Ghost(byte_len(s.skip(i + 1))));
            proof {
                let added = step(st, c).0;
                assert(tokens@.map_values(|t: TokenType| t@) =~= before + added);
                assert(before + added + run_tokens(self.state(), s.skip(i + 1)) =~= before + (added
                    + run_tokens(self.state(), s.skip(i + 1))));
            }
            i = i + 1;
        }
        proof {
            assert(s.skip(i as int) =~= Seq::<char>::empty());
        }
        if !self.buffer.is_empty() {
            let ghost before = tokens@.map_values(|t: TokenType| t@);
            let t = self.emit_token(TokenKind::Identifier);
            tokens.push(t);
            self.clear();
            proof {
                assert(tokens@.map_values(|t: TokenType| t@) =~= before + seq![t@]);
            }
        } else {
            proof {
                assert(tokens@.map_values(|t: TokenType| t@) + Seq::<TokenView>::empty()
                    =~= tokens@.map_values(|t: TokenType| t@));
            }
        }
        proof {
            if st0 == start_state() {
                super::laws::law_toml_tokens_spell_text(s);
                if !s.contains('\n') {
                    super::laws::law_toml_single_line(s);
                }
                if s.len() > 0 {
                    super::laws::law_toml_first_token(s);
                }
            }
        }
        tokens
    }

    /// Reads one character.
    fn consume(&mut self, c: char, tokens: &mut Vec<TokenType>, Ghost(extra): Ghost<nat>)
        requires
            old(self).wf(),
            fits(old(self).state(), char_width(c) + extra),
        ensures
            final(self).wf(),
            final(self).content() == old(self).content(),
            final(tokens)@.map_values(|t: TokenType| t@) == old(tokens)@.map_values(
                |t: TokenType| t@,
            ) + step(old(self).state(), c).0,
            final(self).state() == step(old(self).state(), c).1,
            fits(final(self).state(), extra),
    {
        proof {
            lemma_fits_steps(self.state(), c, extra);
        }
        let quoted = self.buffer.is_string();
        if (c == ' ' || c == '\n') && !quoted {
            self.flush_with(c, tokens, TokenKind::Whitespace, Ghost(extra));
        } else if (c == '[' || c == ']' || c == '{' || c == '}') && !quoted {
            self.flush_with(c, tokens, TokenKind::Separator, Ghost(extra));
        } else if c == '=' && !quoted {
            self.flush_with(c, tokens, TokenKind::Operator, Ghost(extra));
        } else if (c == '"' || c == '\'') && self.buffer.is_string_beginning(c) {
            let ghost before = tokens@.map_values(|t: TokenType| t@);
            self.buffer.push(c);
            let t = self.emit_token(TokenKind::Text);
            tokens.push(t);
            self.clear();
            proof {
                assert(tokens@.map_values(|t: TokenType| t@) =~= before + seq![t@]);
            }
        } else {
            self.buffer.push(c);
            proof {
                assert(tokens@.map_values(|t: TokenType| t@) =~= old(tokens)@.map_values(
                    |t: TokenType| t@,
                ) + Seq::<TokenView>::empty());
            }
        }
    }

    /// Emits what is pending, then the delimiter `c` as a token of `kind`.
    fn flush_with(&mut self, c: char, tokens: &mut Vec<TokenType>, kind: TokenKind, Ghost(extra): Ghost<nat>)
        requires
            old(self).wf(),
            fits(old(self).state(), char_width(c) + extra),
        ensures
            final(self).wf(),
            final(self).content() == old(self).content(),
            final(tokens)@.map_values(|t: TokenType| t@) == old(tokens)@.map_values(
                |t: TokenType| t@,
            ) + flush_with(old(self).state(), c, kind).0,
            final(self).state() == flush_with(old(self).state(), c, kind).1,
    {
        proof {
            lemma_fits_steps(self.state(), c, extra);
        }
        let ghost before = tokens@.map_values(|t: TokenType| t@);
        self.push_non_empty(tokens);
        let ghost mid = tokens@.map_values(|t: TokenType| t@);
        proof {
            lemma_push_byte_len(self.buffer@, c);
        }
        self.buffer.push(c);
        let t = self.emit_token(kind);
        tokens.push(t);
        self.clear();
        proof {
            assert(tokens@.map_values(|t: TokenType| t@) =~= mid + seq![t@]);
            assert(mid + seq![t@] =~= before + (flush(old(self).state()).0 + seq![t@]));
        }
    }

    /// Emits what is pending, if anything is.
    fn push_non_empty(&mut self, tokens: &mut Vec<TokenType>)
        requires
            old(self).wf(),
            fits(old(self).state(), 0),
        ensures
            final(self).wf(),
            final(self).content() == old(self).content(),
            final(tokens)@.map_values(|t: TokenType| t@) == old(tokens)@.map_values(
                |t: TokenType| t@,
            ) + flush(old(self).state()).0,
            final(self).state() == flush(old(self).state()).1,
    {
        if self.buffer.is_empty() {
            proof {
                assert(tokens@.map_values(|t: TokenType| t@) =~= tokens@.map_values(
                    |t: TokenType| t@,
                ) + Seq::<TokenView>::empty());
            }
            return ;
        }
        let kind = if self.buffer.is_string() {
            TokenKind::Text
        } else if self.buffer.is_white() {
            TokenKind::Whitespace
        } else {
            TokenKind::Identifier
        };
        let ghost before = tokens@.map_values(|t: TokenType| t@);
        let t = self.emit_token(kind);
        tokens.push(t);
        self.clear();
        proof {
            assert(tokens@.map_values(|t: TokenType| t@) =~= before + seq![t@]);
        }
    }

    /// The pending characters as a token of `kind`.
    fn emit_token(&self, kind: TokenKind) -> (r: TokenType)
        requires
            self.wf(),
            fits(self.state(), 0),
        ensures
            r@ == emit(self.state(), kind),
    {
        let text = self.buffer.text();
        let token = Token {
            line: self.line,
            character: self.character,
            start: self.start,
            end: self.start + self.buffer.byte_length(),
            text,
        };
        TokenType::of_kind(kind, token)
    }

    /// Moves the place past the pending characters and forgets them.
    fn clear(&mut self)
        requires
            old(self).wf(),
            fits(old(self).state(), 0),
        ensures
            final(self).wf(),
            final(self).content() == old(self).content(),
            final(self).state() == cleared(old(self).state()),
    {
        proof {
            lemma_line_count_bound(self.buffer@);
            lemma_byte_len_ge_len(self.buffer@);
        }
        let (count, tail) = self.buffer.breaks();
        let bytes = self.buffer.byte_length();
        if count > 0 {
            let n = self.buffer.chars.len();
            let extra: usize = if self.buffer.chars[n - 1] != '\n' {
                1
            } else {
                0
            };
            self.line = self.line + count + extra;
            self.character = self.character + 1 + tail;
        } else {
            self.character = self.character + bytes;
        }
        self.start = self.start + bytes;
        self.buffer.clear();
    }
}

} // verus!
