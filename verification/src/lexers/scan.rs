//! Longest-match scanning shared by the plain-text and the Rust lexers.
//!
//! Each grammar is a list of rules in priority order. At every point the
//! scanner takes the longest prefix of the rest of the text that some rule
//! accepts; among rules that accept equally long prefixes the earlier rule
//! wins. When no rule accepts a non-empty prefix, scanning stops.

use vstd::prelude::*;
use crate::text::{byte_len, lemma_byte_len_ge_len, lemma_byte_len_take_mono, text_of};
use super::{is_line_break, Token, TokenKind, TokenType, TokenView, Span};

verus! {

/// The two rule sets.
#[derive(Clone, Copy, Debug, PartialEq, Eq, Structural)]
pub enum Grammar {
    Plain,
    Rust,
}

/// Classes of characters that runs are made of.
#[derive(Clone, Copy, Debug, PartialEq, Eq, Structural)]
pub enum CharClass {
    /// `' '`
    Space,
    /// `'\t'`
    Tab,
    /// `'0'..='9'`
    Digit,
    /// anything but `' '`, `'\t'`, `'\r'`, `'\n'`
    Word,
    /// what may follow the first character of a Rust identifier
    IdentTail,
}

pub open spec fn is_plain_space(c: char) -> bool {
    c == ' ' || c == '\t' || c == '\r' || c == '\n'
}

pub open spec fn is_digit(c: char) -> bool {
    '0' <= c && c <= '9'
}

/// Characters that end a Rust identifier.
pub open spec fn is_ident_stop(c: char) -> bool {
    ||| c == ' ' || c == '\t' || c == '\r' || c == '\n'
    ||| c == ':' || c == '*' || c == '\'' || c == ';' || c == '<' || c == '>' || c == '='
    ||| c == '%' || c == '(' || c == ')' || c == '[' || c == ']' || c == '{' || c == '}'
    ||| ('+' <= c && c <= '/')
}

pub open spec fn is_ident_start(c: char) -> bool {
    !is_digit(c) && !is_ident_stop(c)
}

/// Single-character operators: `+ , - . / * % = < > #`.
pub open spec fn is_operator_char(c: char) -> bool {
    ('+' <= c && c <= '/') || c == '*' || c == '%' || c == '=' || c == '<' || c == '>' || c == '#'
}

/// Single-character separators: `: { } [ ] ; , ) (`.
pub open spec fn is_separator_char(c: char) -> bool {
    c == ':' || c == '{' || c == '}' || c == '[' || c == ']' || c == ';' || c == ',' || c == ')'
        || c == '('
}

pub open spec fn in_class(c: char, class: CharClass) -> bool {
    match class {
        CharClass::Space => c == ' ',
        CharClass::Tab => c == '\t',
        CharClass::Digit => is_digit(c),
        CharClass::Word => !is_plain_space(c),
        CharClass::IdentTail => !is_ident_stop(c),
    }
}

/// Length of the longest run of `class` characters of `s` from `i` on.
pub open spec fn run_len(s: Seq<char>, i: int, class: CharClass) -> nat
    decreases s.len() - i,
{
    if 0 <= i < s.len() && in_class(s[i], class) {
        1 + run_len(s, i + 1, class)
    } else {
        0
    }
}

pub open spec fn char_at_is(s: Seq<char>, i: int, c: char) -> bool {
    0 <= i < s.len() && s[i] == c
}

/// True when `w` occurs in `s` at `i`.
pub open spec fn word_at(s: Seq<char>, i: int, w: Seq<char>) -> bool {
    0 <= i && i + w.len() <= s.len() && s.subrange(i, i + w.len()) == w
}

pub open spec fn word_len(s: Seq<char>, i: int, w: Seq<char>) -> nat {
    if word_at(s, i, w) {
        w.len()
    } else {
        0
    }
}

pub open spec fn longer(a: nat, b: nat) -> nat {
    if a < b {
        b
    } else {
        a
    }
}

/// The keywords of the Rust grammar, as its rule writes them (the
/// alternative `(iu)(8|16|32)` spells `iu8`, `iu16`, `iu32`).
pub open spec fn keywords() -> Seq<Seq<char>> {
    seq![
        seq!['l', 'e', 't'],
        seq!['f', 'n'],
        seq!['t', 'y', 'p', 'e'],
        seq!['s', 't', 'r', 'u', 'c', 't'],
        seq!['t', 'r', 'a', 'i', 't'],
        seq!['p', 'u', 'b'],
        seq!['i', 'm', 'p', 'l'],
        seq!['f', 'o', 'r'],
        seq!['s', 'e', 'l', 'f'],
        seq!['S', 'e', 'l', 'f'],
        seq!['m', 'o', 'd'],
        seq!['u', 's', 'e'],
        seq!['e', 'n', 'u', 'm'],
        seq!['i', 'u', '8'],
        seq!['i', 'u', '1', '6'],
        seq!['i', 'u', '3', '2'],
        seq!['u', 's', 'i', 'z', 'e'],
        seq!['b', 'o', 'o', 'l'],
    ]
}

/// Length of the longest keyword among `keywords()[k..]` that occurs at `i`.
pub open spec fn keyword_len_from(s: Seq<char>, i: int, k: int) -> nat
    decreases keywords().len() - k,
{
    if 0 <= k < keywords().len() {
        longer(word_len(s, i, keywords()[k]), keyword_len_from(s, i, k + 1))
    } else {
        0
    }
}

/// `( +|\t+|\n)`
pub open spec fn whitespace_len(s: Seq<char>, i: int) -> nat {
    if char_at_is(s, i, ' ') {
        run_len(s, i, CharClass::Space)
    } else if char_at_is(s, i, '\t') {
        run_len(s, i, CharClass::Tab)
    } else if char_at_is(s, i, '\n') {
        1
    } else {
        0
    }
}

/// `(r"|")`
pub open spec fn string_len(s: Seq<char>, i: int) -> nat {
    if char_at_is(s, i, 'r') && char_at_is(s, i + 1, '"') {
        2
    } else if char_at_is(s, i, '"') {
        1
    } else {
        0
    }
}

/// `([0-9]+|[0-9]+\.[0-9]+|'[^']')`
pub open spec fn literal_len(s: Seq<char>, i: int) -> nat {
    if 0 <= i < s.len() && is_digit(s[i]) {
        let d = run_len(s, i, CharClass::Digit);
        if char_at_is(s, i + d, '.') && i + d + 1 < s.len() && is_digit(s[i + d + 1]) {
            d + 1 + run_len(s, i + d + 1, CharClass::Digit)
        } else {
            d
        }
    } else if char_at_is(s, i, '\'') && i + 2 < s.len() && s[i + 1] != '\'' && s[i + 2] == '\'' {
        3
    } else {
        0
    }
}

/// `(->|[+-/*%=<>#])`
pub open spec fn operator_len(s: Seq<char>, i: int) -> nat {
    if char_at_is(s, i, '-') && char_at_is(s, i + 1, '>') {
        2
    } else if 0 <= i < s.len() && is_operator_char(s[i]) {
        1
    } else {
        0
    }
}

/// `(:|::|\{|\}|\[|\]|;|,|\)|\()`
pub open spec fn separator_len(s: Seq<char>, i: int) -> nat {
    if char_at_is(s, i, ':') && char_at_is(s, i + 1, ':') {
        2
    } else if 0 <= i < s.len() && is_separator_char(s[i]) {
        1
    } else {
        0
    }
}

/// An identifier: a start character and a tail.
pub open spec fn identifier_len(s: Seq<char>, i: int) -> nat {
    if 0 <= i < s.len() && is_ident_start(s[i]) {
        1 + run_len(s, i + 1, CharClass::IdentTail)
    } else {
        0
    }
}

/// A quote followed by an identifier, as in `'a`.
pub open spec fn quoted_identifier_len(s: Seq<char>, i: int) -> nat {
    if char_at_is(s, i, '\'') && s.len() - i > 1 && is_ident_start(s[i + 1]) {
        2 + run_len(s, i + 2, CharClass::IdentTail)
    } else {
        0
    }
}

/// Keeps the earlier candidate unless the later one is strictly longer.
pub open spec fn prefer(a: (TokenKind, nat), b: (TokenKind, nat)) -> (TokenKind, nat) {
    if a.1 < b.1 {
        b
    } else {
        a
    }
}

/// The longest match of the Rust rules at `i`, earlier rules first on ties.
pub open spec fn rust_best(s: Seq<char>, i: int) -> (TokenKind, nat) {
    let r = (TokenKind::Whitespace, whitespace_len(s, i));
    let r = prefer(r, (TokenKind::Text, string_len(s, i)));
    let r = prefer(r, (TokenKind::Literal, literal_len(s, i)));
    let r = prefer(r, (TokenKind::Operator, operator_len(s, i)));
    let r = prefer(r, (TokenKind::Separator, separator_len(s, i)));
    let r = prefer(r, (TokenKind::Keyword, keyword_len_from(s, i, 0)));
    let r = prefer(r, (TokenKind::Identifier, identifier_len(s, i)));
    prefer(r, (TokenKind::Identifier, quoted_identifier_len(s, i)))
}

/// The plain-text rules: one white-space character, or a run of others.
pub open spec fn plain_best(s: Seq<char>, i: int) -> (TokenKind, nat) {
    if 0 <= i < s.len() && is_plain_space(s[i]) {
        (TokenKind::Whitespace, 1)
    } else {
        (TokenKind::Identifier, run_len(s, i, CharClass::Word))
    }
}

/// The token kind and length that the grammar takes at `i`; a length of
/// zero means that no rule matches.
pub open spec fn best_match(g: Grammar, s: Seq<char>, i: int) -> (TokenKind, nat) {
    match g {
        Grammar::Plain => plain_best(s, i),
        Grammar::Rust => rust_best(s, i),
    }
}

/// Where scanning stands: the next character, the current line, the current
/// column (in bytes) and the byte offset of the next character.
pub struct ScanState {
    pub pos: nat,
    pub line: nat,
    pub character: nat,
    pub offset: nat,
}

pub open spec fn start_state() -> ScanState {
    ScanState { pos: 0, line: 0, character: 0, offset: 0 }
}

/// The token that a match of `kind` and `n` characters at `st` gives. A line
/// break counts towards the next line; the plain-text grammar places it on
/// that next line, the Rust grammar on the line it ends.
pub open spec fn token_at(g: Grammar, s: Seq<char>, st: ScanState, kind: TokenKind, n: nat) -> TokenView {
    let text = s.subrange(st.pos as int, (st.pos + n) as int);
    let brk = is_line_break(kind, text);
    TokenView {
        kind,
        text,
        line: if brk && g == Grammar::Plain { st.line + 1 } else { st.line },
        character: if brk { 0 } else { st.character },
        start: st.offset,
        end: st.offset + byte_len(text),
    }
}

/// The state after the match of `kind` and `n` characters at `st`. After a
/// line break the column is the width of the break itself.
pub open spec fn state_after(s: Seq<char>, st: ScanState, kind: TokenKind, n: nat) -> ScanState {
    let text = s.subrange(st.pos as int, (st.pos + n) as int);
    let w = byte_len(text);
    let brk = is_line_break(kind, text);
    ScanState {
        pos: st.pos + n,
        line: if brk { st.line + 1 } else { st.line },
        character: if brk { w } else { st.character + w },
        offset: st.offset + w,
    }
}

/// The tokens that scanning `s` from `st` on produces.
pub open spec fn scan_from(g: Grammar, s: Seq<char>, st: ScanState) -> Seq<TokenView>
    decreases s.len() - st.pos,
{
    let (kind, n) = best_match(g, s, st.pos as int);
    if st.pos < s.len() && 0 < n && st.pos + n <= s.len() {
        seq![token_at(g, s, st, kind, n)] + scan_from(g, s, state_after(s, st, kind, n))
    } else {
        seq![]
    }
}

/// The tokens of the whole of `s`.
pub open spec fn scan(g: Grammar, s: Seq<char>) -> Seq<TokenView> {
    scan_from(g, s, start_state())
}

pub fn class_has(c: char, class: CharClass) -> (r: bool)
    ensures
        r == in_class(c, class),
{
    match class {
        CharClass::Space => c == ' ',
        CharClass::Tab => c == '\t',
        CharClass::Digit => '0' <= c && c <= '9',
        CharClass::Word => !(c == ' ' || c == '\t' || c == '\r' || c == '\n'),
        CharClass::IdentTail => !ident_stop(c),
    }
}

fn ident_stop(c: char) -> (r: bool)
    ensures
        r == is_ident_stop(c),
{
    (c == ' ' || c == '\t' || c == '\r' || c == '\n') || (c == ':' || c == '*' || c == '\''
        || c == ';' || c == '<' || c == '>' || c == '=') || (c == '%' || c == '(' || c == ')'
        || c == '[' || c == ']' || c == '{' || c == '}') || ('+' <= c && c <= '/')
}

fn ident_start(c: char) -> (r: bool)
    ensures
        r == is_ident_start(c),
{
    !('0' <= c && c <= '9') && !ident_stop(c)
}

pub fn run_length(s: &Vec<char>, i: usize, class: CharClass) -> (r: usize)
    requires
        i <= s@.len(),
    ensures
        r == run_len(s@, i as int, class),
        i + r <= s@.len(),
{
    let mut j = i;
    while j < s.len() && class_has(s[j], class)
        invariant
            i <= j <= s@.len(),
            run_len(s@, i as int, class) == (j - i) + run_len(s@, j as int, class),
        decreases s@.len() - j,
    {
        j = j + 1;
    }
    j - i
}

fn is_at(s: &Vec<char>, i: usize, c: char) -> (r: bool)
    ensures
        r == char_at_is(s@, i as int, c),
{
    i < s.len() && s[i] == c
}

fn word_length(s: &Vec<char>, i: usize, w: &[char]) -> (r: usize)
    requires
        i <= s@.len(),
    ensures
        r == word_len(s@, i as int, w@),
{
    if w.len() > s.len() - i {
        return 0;
    }
    assert(i + w@.len() <= s@.len());
    let mut k: usize = 0;
    while k < w.len()
        invariant
            i + w@.len() <= s@.len(),
            s@.len() == s.len(),
            0 <= k <= w@.len(),
            forall|m: int| 0 <= m < k ==> s@[i + m] == w@[m],
        decreases w@.len() - k,
    {
        assert(i + k < s@.len());
        if s[i + k] != w[k] {
            assert(s@.subrange(i as int, i + w@.len())[k as int] != w@[k as int]);
            return 0;
        }
        k = k + 1;
    }
    assert(s@.subrange(i as int, i + w@.len()) =~= w@);
    w.len()
}

fn at_least(a: usize, b: usize) -> (r: usize)
    ensures
        r == longer(a as nat, b as nat),
{
    if a < b {
        b
    } else {
        a
    }
}

fn keyword_length(s: &Vec<char>, i: usize) -> (r: usize)
    requires
        i <= s@.len(),
    ensures
        r == keyword_len_from(s@, i as int, 0),
{
    reveal_with_fuel(keyword_len_from, 19);
    let ghost kw = keywords();
    let a = word_length(s, i, &['l', 'e', 't']);
    let b = word_length(s, i, &['f', 'n']);
    let c = word_length(s, i, &['t', 'y', 'p', 'e']);
    let d = word_length(s, i, &['s', 't', 'r', 'u', 'c', 't']);
    let e = word_length(s, i, &['t', 'r', 'a', 'i', 't']);
    let f = word_length(s, i, &['p', 'u', 'b']);
    let g = word_length(s, i, &['i', 'm', 'p', 'l']);
    let h = word_length(s, i, &['f', 'o', 'r']);
    let j = word_length(s, i, &['s', 'e', 'l', 'f']);
    let k = word_length(s, i, &['S', 'e', 'l', 'f']);
    let l = word_length(s, i, &['m', 'o', 'd']);
    let m = word_length(s, i, &['u', 's', 'e']);
    let n = word_length(s, i, &['e', 'n', 'u', 'm']);
    let o = word_length(s, i, &['i', 'u', '8']);
    let p = word_length(s, i, &['i', 'u', '1', '6']);
    let q = word_length(s, i, &['i', 'u', '3', '2']);
    let t = word_length(s, i, &['u', 's', 'i', 'z', 'e']);
    let u = word_length(s, i, &['b', 'o', 'o', 'l']);
    let r = at_least(u, 0);
    let r = at_least(t, r);
    let r = at_least(q, r);
    let r = at_least(p, r);
    let r = at_least(o, r);
    let r = at_least(n, r);
    let r = at_least(m, r);
    let r = at_least(l, r);
    let r = at_least(k, r);
    let r = at_least(j, r);
    let r = at_least(h, r);
    let r = at_least(g, r);
    let r = at_least(f, r);
    let r = at_least(e, r);
    let r = at_least(d, r);
    let r = at_least(c, r);
    let r = at_least(b, r);
    let r = at_least(a, r);
    r
}

fn whitespace_length(s: &Vec<char>, i: usize) -> (r: usize)
    requires
        i <= s@.len(),
    ensures
        r == whitespace_len(s@, i as int),
{
    if is_at(s, i, ' ') {
        run_length(s, i, CharClass::Space)
    } else if is_at(s, i, '\t') {
        run_length(s, i, CharClass::Tab)
    } else if is_at(s, i, '\n') {
        1
    } else {
        0
    }
}

fn string_length(s: &Vec<char>, i: usize) -> (r: usize)
    requires
        i <= s@.len(),
    ensures
        r == string_len(s@, i as int),
{
    if is_at(s, i, 'r') && s.len() - i > 1 && is_at(s, i + 1, '"') {
        2
    } else if is_at(s, i, '"') {
        1
    } else {
        0
    }
}

fn literal_length(s: &Vec<char>, i: usize) -> (r: usize)
    requires
        i <= s@.len(),
    ensures
        r == literal_len(s@, i as int),
{
    if i < s.len() && '0' <= s[i] && s[i] <= '9' {
        let d = run_length(s, i, CharClass::Digit);
        if is_at(s, i + d, '.') && i + d + 1 < s.len() && '0' <= s[i + d + 1] && s[i + d + 1]
            <= '9' {
            let e = run_length(s, i + d + 1, CharClass::Digit);
            d + 1 + e
        } else {
            d
        }
    } else if is_at(s, i, '\'') && 2 < s.len() - i && s[i + 1] != '\'' && s[i + 2] == '\'' {
        3
    } else {
        0
    }
}

fn operator_length(s: &Vec<char>, i: usize) -> (r: usize)
    requires
        i <= s@.len(),
    ensures
        r == operator_len(s@, i as int),
{
    if is_at(s, i, '-') && s.len() - i > 1 && is_at(s, i + 1, '>') {
        2
    } else if i < s.len() {
        let c = s[i];
        if ('+' <= c && c <= '/') || c == '*' || c == '%' || c == '=' || c == '<' || c == '>'
            || c == '#' {
            1
        } else {
            0
        }
    } else {
        0
    }
}

fn separator_length(s: &Vec<char>, i: usize) -> (r: usize)
    requires
        i <= s@.len(),
    ensures
        r == separator_len(s@, i as int),
{
    if is_at(s, i, ':') && s.len() - i > 1 && is_at(s, i + 1, ':') {
        2
    } else if i < s.len() {
        let c = s[i];
        if c == ':' || c == '{' || c == '}' || c == '[' || c == ']' || c == ';' || c == ','
            || c == ')' || c == '(' {
            1
        } else {
            0
        }
    } else {
        0
    }
}

fn identifier_length(s: &Vec<char>, i: usize) -> (r: usize)
    requires
        i <= s@.len(),
    ensures
        r == identifier_len(s@, i as int),
{
    if i < s.len() && ident_start(s[i]) {
        1 + run_length(s, i + 1, CharClass::IdentTail)
    } else {
        0
    }
}

fn quoted_identifier_length(s: &Vec<char>, i: usize) -> (r: usize)
    requires
        i <= s@.len(),
    ensures
        r == quoted_identifier_len(s@, i as int),
{
    if is_at(s, i, '\'') && s.len() - i > 1 && ident_start(s[i + 1]) {
        2 + run_length(s, i + 2, CharClass::IdentTail)
    } else {
        0
    }
}

fn keep_longer(a: (TokenKind, usize), b: (TokenKind, usize)) -> (r: (TokenKind, usize))
    ensures
        (r.0, r.1 as nat) == prefer((a.0, a.1 as nat), (b.0, b.1 as nat)),
{
    if a.1 < b.1 {
        b
    } else {
        a
    }
}

/// The longest match of the grammar's rules at `i`.
pub fn best_match_at(g: Grammar, s: &Vec<char>, i: usize) -> (r: (TokenKind, usize))
    requires
        i <= s@.len(),
    ensures
        (r.0, r.1 as nat) == best_match(g, s@, i as int),
{
    match g {
        Grammar::Plain => {
            if i < s.len() && (s[i] == ' ' || s[i] == '\t' || s[i] == '\r' || s[i] == '\n') {
                (TokenKind::Whitespace, 1)
            } else {
                (TokenKind::Identifier, run_length(s, i, CharClass::Word))
            }
        },
        Grammar::Rust => {
            let r = (TokenKind::Whitespace, whitespace_length(s, i));
            let r = keep_longer(r, (TokenKind::Text, string_length(s, i)));
            let r = keep_longer(r, (TokenKind::Literal, literal_length(s, i)));
            let r = keep_longer(r, (TokenKind::Operator, operator_length(s, i)));
            let r = keep_longer(r, (TokenKind::Separator, separator_length(s, i)));
            let r = keep_longer(r, (TokenKind::Keyword, keyword_length(s, i)));
            let r = keep_longer(r, (TokenKind::Identifier, identifier_length(s, i)));
            keep_longer(r, (TokenKind::Identifier, quoted_identifier_length(s, i)))
        },
    }
}

/// A scanner over a text, standing at some point of it.
pub struct Scanner {
    grammar: Grammar,
    chars: Vec<char>,
    pos: usize,
    line: usize,
    character: usize,
    offset: usize,
}

impl Scanner {
    pub closed spec fn grammar(&self) -> Grammar {
        self.grammar
    }

    /// The whole text being scanned.
    pub closed spec fn source(&self) -> Seq<char> {
        self.chars@
    }

    pub closed spec fn state(&self) -> ScanState {
        ScanState {
            pos: self.pos as nat,
            line: self.line as nat,
            character: self.character as nat,
            offset: self.offset as nat,
        }
    }

    /// The scanner stands inside the text, its offset is the byte length of
    /// what it has passed, and every count fits in a `usize`.
    pub closed spec fn wf(&self) -> bool {
        &&& self.pos <= self.chars@.len()
        &&& self.offset == byte_len(self.chars@.take(self.pos as int))
        &&& self.character <= self.offset
        &&& self.line <= self.pos
        &&& byte_len(self.chars@) <= usize::MAX
    }

    /// The tokens that are still to come.
    pub open spec fn remaining(&self) -> Seq<TokenView> {
        scan_from(self.grammar(), self.source(), self.state())
    }

    pub fn new(grammar: Grammar, s: &str) -> (r: Self)
        requires
            byte_len(s@) <= usize::MAX,
        ensures
            r.wf(),
            r.grammar() == grammar,
            r.source() == s@,
            r.state() == start_state(),
    {
        let chars = crate::text::chars_of(s);
        proof {
            assert(chars@.take(0) =~= Seq::<char>::empty());
        }
        Scanner { grammar, chars, pos: 0, line: 0, character: 0, offset: 0 }
    }

    /// The next token and its span, or `None` when no rule matches what is
    /// left (or nothing is left).
    pub fn next_token(&mut self) -> (r: Option<(TokenType, Span)>)
        requires
            old(self).wf(),
        ensures
            final(self).wf(),
            final(self).grammar() == old(self).grammar(),
            final(self).source() == old(self).source(),
            match r {
                None => old(self).remaining() == Seq::<TokenView>::empty()
                    && final(self).state() == old(self).state(),
                Some((t, span)) => {
                    &&& old(self).remaining() == seq![t@] + final(self).remaining()
                    &&& span.lo == t@.start
                    &&& span.hi == t@.end
                    &&& final(self).state().pos > old(self).state().pos
                },
            },
    {
        let ghost s = self.chars@;
        let ghost st = self.state();
        let len = self.chars.len();
        let (kind, n) = best_match_at(self.grammar, &self.chars, self.pos);
        if !(self.pos < len && 0 < n && n <= len - self.pos) {
            return None;
        }
        let end = self.pos + n;
        proof {
            lemma_byte_len_take_mono(s, self.pos as int, end as int);
            lemma_byte_len_take_mono(s, end as int, s.len() as int);
            assert(s.take(s.len() as int) =~= s);
            lemma_byte_len_ge_len(s);
        }
        let (text, w) = text_of(&self.chars, self.pos, end);
        let brk = n == 1 && self.chars[self.pos] == '\n' && kind == TokenKind::Whitespace;
        proof {
            if brk {
                assert(text@ =~= seq!['\n']);
            }
            if text@ == seq!['\n'] {
                assert(text@[0] == self.chars@[self.pos as int]);
            }
        }
        let line = if brk && self.grammar == Grammar::Plain {
            self.line + 1
        } else {
            self.line
        };
        let character = if brk {
            0
        } else {
            self.character
        };
        let start = self.offset;
        let token = Token { line, character, start, end: start + w, text };
        let tt = TokenType::of_kind(kind, token);
        if brk {
            self.line = self.line + 1;
            self.character = w;
        } else {
            self.character = self.character + w;
        }
        self.offset = self.offset + w;
        self.pos = end;
        Some((tt, Span { lo: start, hi: start + w }))
    }
}

/// The token views of a list of tokens with spans.
pub open spec fn views(ts: Seq<(TokenType, Span)>) -> Seq<TokenView> {
    ts.map_values(|p: (TokenType, Span)| p.0@)
}

/// Every span covers the bytes of its token.
pub open spec fn spans_match(ts: Seq<(TokenType, Span)>) -> bool {
    forall|k: int| 0 <= k < ts.len() ==> ts[k].1.lo == ts[k].0@.start && ts[k].1.hi == ts[k].0@.end
}

/// All the tokens that the scanner has still to give, with their spans.
pub fn collect_tokens(scanner: &mut Scanner) -> (r: Vec<(TokenType, Span)>)
    requires
        old(scanner).wf(),
    ensures
        views(r@) == old(scanner).remaining(),
        spans_match(r@),
{
    let mut out: Vec<(TokenType, Span)> = Vec::new();
    let ghost all = scanner.remaining();
    assert(all == old(scanner).remaining());
    assert(views(out@) =~= Seq::<TokenView>::empty());
    loop
        invariant
            scanner.wf(),
            all == views(out@) + scanner.remaining(),
            all == old(scanner).remaining(),
            spans_match(out@),
        decreases scanner.source().len() - scanner.state().pos,
    {
        let ghost before = out@;
        match scanner.next_token() {
            Some(p) => {
                out.push(p);
                proof {
                    assert(views(out@) =~= views(before) + seq![p.0@]);
                    assert(views(before) + seq![p.0@] + scanner.remaining() =~= views(before) + (
                    seq![p.0@] + scanner.remaining()));
                }
            },
            None => {
                assert(scanner.remaining() == Seq::<TokenView>::empty());
                assert(views(out@) + Seq::<TokenView>::empty() =~= views(out@));
                return out;
            },
        }
    }
}

} // verus!
