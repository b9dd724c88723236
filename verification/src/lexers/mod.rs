//! Lexers that split a text into highlighted tokens.

pub mod laws;
pub mod plain;
pub mod rust_lang;
pub mod scan;
pub mod toml;

use vstd::prelude::*;
use crate::text::byte_len;
use self::scan::{scan, Grammar};
use self::toml::toml_tokens;

verus! {

/// The languages the editor can highlight.
#[derive(Clone, Copy, Debug, PartialEq, Eq, PartialOrd, Ord, Hash, Structural)]
pub enum Language {
    PlainText,
    Rust,
    Toml,
}

/// A half-open range of byte offsets into the lexed text.
#[derive(Clone, Copy, Debug, PartialEq, Eq, Structural)]
pub struct Span {
    pub lo: usize,
    pub hi: usize,
}

/// What a token is, without its text and place.
#[derive(Clone, Copy, Debug, PartialEq, Eq, Structural)]
pub enum TokenKind {
    Whitespace,
    Keyword,
    Text,
    Identifier,
    Literal,
    Comment,
    Operator,
    Separator,
}

/// A piece of text with its place: the line it is on, its column, and its
/// byte offsets. Columns and offsets count bytes of the UTF-8 encoding.
#[derive(Clone, Debug, PartialEq)]
pub struct Token {
    pub line: usize,
    pub character: usize,
    pub start: usize,
    pub end: usize,
    pub text: String,
}

/// A token and what it is.
#[derive(Clone, Debug, PartialEq)]
pub enum TokenType {
    Whitespace { token: Token },
    Keyword { token: Token },
    String { token: Token },
    Identifier { token: Token },
    Literal { token: Token },
    Comment { token: Token },
    Operator { token: Token },
    Separator { token: Token },
}

/// The mathematical value of a token: its kind, its text and its place.
pub struct TokenView {
    pub kind: TokenKind,
    pub text: Seq<char>,
    pub line: nat,
    pub character: nat,
    pub start: nat,
    pub end: nat,
}

/// The text of a line break.
pub open spec fn new_line_text() -> Seq<char> {
    seq!['\n']
}

/// A token is a line break when it is white space made of one `\n`.
pub open spec fn is_line_break(kind: TokenKind, text: Seq<char>) -> bool {
    kind == TokenKind::Whitespace && text == new_line_text()
}

impl Token {
    pub open spec fn view_with(self, kind: TokenKind) -> TokenView {
        TokenView {
            kind,
            text: self.text@,
            line: self.line as nat,
            character: self.character as nat,
            start: self.start as nat,
            end: self.end as nat,
        }
    }

    pub fn new(text: String, line: usize, character: usize, start: usize, end: usize) -> (r: Self)
        ensures
            r.text@ == text@,
            r.line == line,
            r.character == character,
            r.start == start,
            r.end == end,
    {
        Token { line, character, start, end, text }
    }

    pub fn text(&self) -> (r: &String)
        ensures
            r@ == self.text@,
    {
        &self.text
    }

    pub fn line(&self) -> (r: usize)
        ensures
            r == self.line,
    {
        self.line
    }

    pub fn character(&self) -> (r: usize)
        ensures
            r == self.character,
    {
        self.character
    }

    pub fn start(&self) -> (r: usize)
        ensures
            r == self.start,
    {
        self.start
    }

    pub fn end(&self) -> (r: usize)
        ensures
            r == self.end,
    {
        self.end
    }

    /// True when the text is exactly one `\n`.
    pub fn is_new_line(&self) -> (r: bool)
        ensures
            r == (self.text@ == new_line_text()),
    {
        let s = self.text.as_str();
        let n = s.unicode_len();
        if n == 1 {
            let c = s.get_char(0);
            proof {
                if c == '\n' {
                    assert(self.text@ =~= new_line_text());
                }
            }
            c == '\n'
        } else {
            false
        }
    }

    /// The same text at another place.
    pub fn move_to(&self, line: usize, character: usize, start: usize, end: usize) -> (r: Token)
        ensures
            r.text@ == self.text@,
            r.line == line,
            r.character == character,
            r.start == start,
            r.end == end,
    {
        Token { line, character, start, end, text: self.text.clone() }
    }
}

impl View for TokenType {
    type V = TokenView;

    open spec fn view(&self) -> TokenView {
        self.token_spec().view_with(self.kind_spec())
    }
}

impl TokenType {
    pub open spec fn kind_spec(&self) -> TokenKind {
        match self {
            TokenType::Whitespace { .. } => TokenKind::Whitespace,
            TokenType::Keyword { .. } => TokenKind::Keyword,
            TokenType::String { .. } => TokenKind::Text,
            TokenType::Identifier { .. } => TokenKind::Identifier,
            TokenType::Literal { .. } => TokenKind::Literal,
            TokenType::Comment { .. } => TokenKind::Comment,
            TokenType::Operator { .. } => TokenKind::Operator,
            TokenType::Separator { .. } => TokenKind::Separator,
        }
    }

    pub open spec fn token_spec(&self) -> Token {
        match self {
            TokenType::Whitespace { token } => *token,
            TokenType::Keyword { token } => *token,
            TokenType::String { token } => *token,
            TokenType::Identifier { token } => *token,
            TokenType::Literal { token } => *token,
            TokenType::Comment { token } => *token,
            TokenType::Operator { token } => *token,
            TokenType::Separator { token } => *token,
        }
    }

    /// A token of the given kind.
    pub fn of_kind(kind: TokenKind, token: Token) -> (r: TokenType)
        ensures
            r.kind_spec() == kind,
            r.token_spec() == token,
    {
        match kind {
            TokenKind::Whitespace => TokenType::Whitespace { token },
            TokenKind::Keyword => TokenType::Keyword { token },
            TokenKind::Text => TokenType::String { token },
            TokenKind::Identifier => TokenType::Identifier { token },
            TokenKind::Literal => TokenType::Literal { token },
            TokenKind::Comment => TokenType::Comment { token },
            TokenKind::Operator => TokenType::Operator { token },
            TokenKind::Separator => TokenType::Separator { token },
        }
    }

    pub fn kind(&self) -> (r: TokenKind)
        ensures
            r == self.kind_spec(),
    {
        match self {
            TokenType::Whitespace { .. } => TokenKind::Whitespace,
            TokenType::Keyword { .. } => TokenKind::Keyword,
            TokenType::String { .. } => TokenKind::Text,
            TokenType::Identifier { .. } => TokenKind::Identifier,
            TokenType::Literal { .. } => TokenKind::Literal,
            TokenType::Comment { .. } => TokenKind::Comment,
            TokenType::Operator { .. } => TokenKind::Operator,
            TokenType::Separator { .. } => TokenKind::Separator,
        }
    }

    pub fn token(&self) -> (r: &Token)
        ensures
            *r == self.token_spec(),
    {
        match self {
            TokenType::Whitespace { token } => token,
            TokenType::Keyword { token } => token,
            TokenType::String { token } => token,
            TokenType::Identifier { token } => token,
            TokenType::Literal { token } => token,
            TokenType::Comment { token } => token,
            TokenType::Operator { token } => token,
            TokenType::Separator { token } => token,
        }
    }

    /// True for a line break: white space made of one `\n`.
    pub fn is_new_line(&self) -> (r: bool)
        ensures
            r == is_line_break(self@.kind, self@.text),
    {
        match self {
            TokenType::Whitespace { token } => token.is_new_line(),
            _ => false,
        }
    }

    /// True for white space made of one space character.
    pub fn is_space(&self) -> (r: bool)
        ensures
            r == (self@.kind == TokenKind::Whitespace && self@.text == seq![' ']),
    {
        match self {
            TokenType::Whitespace { token } => {
                let s = token.text.as_str();
                let n = s.unicode_len();
                if n == 1 {
                    let c = s.get_char(0);
                    proof {
                        if c == ' ' {
                            assert(token.text@ =~= seq![' ']);
                        }
                    }
                    c == ' '
                } else {
                    false
                }
            },
            _ => false,
        }
    }

    pub fn text(&self) -> (r: &String)
        ensures
            r@ == self@.text,
    {
        &self.token().text
    }

    pub fn line(&self) -> (r: usize)
        ensures
            r == self@.line,
    {
        self.token().line
    }

    pub fn character(&self) -> (r: usize)
        ensures
            r == self@.character,
    {
        self.token().character
    }

    pub fn start(&self) -> (r: usize)
        ensures
            r == self@.start,
    {
        self.token().start
    }

    pub fn end(&self) -> (r: usize)
        ensures
            r == self@.end,
    {
        self.token().end
    }

    /// The same token at another place.
    pub fn move_to(&self, line: usize, character: usize, start: usize, end: usize) -> (r: TokenType)
        ensures
            r@.kind == self@.kind,
            r@.text == self@.text,
            r@.line == line,
            r@.character == character,
            r@.start == start,
            r@.end == end,
    {
        TokenType::of_kind(self.kind(), self.token().move_to(line, character, start, end))
    }
}

/// The tokens that `language` splits `text` into.
pub open spec fn lexed(text: Seq<char>, language: Language) -> Seq<TokenView> {
    match language {
        Language::PlainText => scan(Grammar::Plain, text),
        Language::Rust => scan(Grammar::Rust, text),
        Language::Toml => toml_tokens(text),
    }
}

/// Splits `text` into tokens by the lexer of `language`.
pub fn parse(text: String, language: Language) -> (r: Vec<TokenType>)
    requires
        byte_len(text@) <= usize::MAX,
    ensures
        r@.map_values(|t: TokenType| t@) == lexed(text@, language),
{
    match language {
        Language::PlainText => first_of_pairs(plain::Lexer::new(text.as_str()).tokens()),
        Language::Rust => first_of_pairs(rust_lang::Lexer::new(text.as_str()).tokens()),
        Language::Toml => {
            let mut lexer = toml::Lexer::new(text);
            lexer.tokenize()
        },
    }
}

fn first_of_pairs(pairs: Vec<(TokenType, Span)>) -> (r: Vec<TokenType>)
    ensures
        r@.map_values(|t: TokenType| t@) == scan::views(pairs@),
{
    let mut out: Vec<TokenType> = Vec::new();
    let mut rest = pairs;
    let ghost all = rest@;
    let mut k: usize = 0;
    let n = rest.len();
    while k < n
        invariant
            0 <= k <= n,
            n == all.len(),
            out@.map_values(|t: TokenType| t@) == scan::views(all.take(k as int)),
            rest@ == all,
        decreases n - k,
    {
        let ghost before = out@.map_values(|t: TokenType| t@);
        let t = rest[k].0.clone_token();
        out.push(t);
        proof {
            assert(out@.map_values(|t: TokenType| t@) =~= before + seq![all[k as int].0@]);
            assert(scan::views(all.take(k + 1)) =~= scan::views(all.take(k as int)) + seq![all[k as int].0@]);
        }
        k = k + 1;
    }
    assert(all.take(n as int) =~= all);
    out
}

impl TokenType {
    /// A copy of the token.
    pub fn clone_token(&self) -> (r: TokenType)
        ensures
            r@ == self@,
    {
        let t = self.token();
        TokenType::of_kind(self.kind(), Token { line: t.line, character: t.character, start: t.start, end: t.end, text: t.text.clone() })
    }
}

} // verus!
