//! A file open in the editor: its path, its text, the tokens of the text,
//! and the characters as they are laid out on screen.

use vstd::prelude::*;
use crate::config::settings::{Config, LanguageMapping};
use crate::geometry::{new_rect, Point, Rect};
use crate::lexers::laws::{concat_texts, lemma_concat_texts_take, law_lexed_lines_in_order, law_lexed_spells_prefix, lines_from};
use crate::lexers::{is_line_break, lexed, parse, Language, TokenKind, TokenType, TokenView};
use crate::text::{byte_len, chars_of, lemma_byte_len_ge_len, text_of};
use crate::themes::{CodeHighlightingColor, SerdeColor};
use crate::ui::widgets::{add_saturating, sat_add};
use super::text_character::{char_glyph, laid_out, CharacterSizeManager, TextCharacter};
use crate::ui::RenderContext;
use crate::ui::draw::{views, DrawCommand, DrawSpec};

verus! {

/// What `std::path::Path::extension` gives for a path.
pub uninterp spec fn path_extension(path: Seq<char>) -> Option<Seq<char>>;

/// `std::path::Path::extension` on `path`, as text. Its result depends on
/// the path alone and is named `path_extension`; nothing more is stated.
#[verifier::external_body]
fn extension_of(path: &str) -> (r: Option<String>)
    ensures
        match r {
            Some(e) => path_extension(path@) == Some(e@),
            None => path_extension(path@) is None,
        },
{
    std::path::Path::new(path).extension().and_then(|e| e.to_str()).map(|e| e.to_owned())
}

/// The language of a file with extension `ext` (`txt` when it has none);
/// plain text for an extension that is not mapped.
pub open spec fn language_for(ext: Option<Seq<char>>, mapping: Map<Seq<char>, Language>) -> Language {
    let e = match ext {
        Some(e) => e,
        None => "txt"@,
    };
    if mapping.contains_key(e) {
        mapping[e]
    } else {
        Language::PlainText
    }
}

/// A character's text, position, line and whether it ends its line.
pub open spec fn info(c: TextCharacter) -> (char, nat, nat, bool) {
    (c.text_character, c.position as nat, c.line as nat, c.last_in_line)
}

/// The token after token `k` is a line break, or there is none.
pub open spec fn ends_line(ts: Seq<TokenView>, k: int) -> bool {
    k + 1 >= ts.len() || is_line_break(ts[k + 1].kind, ts[k + 1].text)
}

/// The characters of token `t` from text position `offset` on; the last one
/// ends its line when the token does.
pub open spec fn token_infos(t: TokenView, last: bool, offset: nat) -> Seq<(char, nat, nat, bool)> {
    Seq::new(t.text.len(), |i: int| (t.text[i], (offset + i) as nat, t.line, last && i + 1 == t.text.len()))
}

/// The characters of tokens `k..` from text position `offset` on.
pub open spec fn infos_from(ts: Seq<TokenView>, k: int, offset: nat) -> Seq<(char, nat, nat, bool)>
    decreases ts.len() - k,
{
    if 0 <= k < ts.len() {
        token_infos(ts[k], ends_line(ts, k), offset) + infos_from(ts, k + 1, offset + ts[k].text.len())
    } else {
        Seq::empty()
    }
}

/// The colour that a token of `kind` is drawn in.
pub open spec fn color_of(colors: CodeHighlightingColor, kind: TokenKind) -> SerdeColor {
    match kind {
        TokenKind::Whitespace => colors.whitespace.color,
        TokenKind::Keyword => colors.keyword.color,
        TokenKind::Text => colors.string.color,
        TokenKind::Identifier => colors.identifier.color,
        TokenKind::Literal => colors.literal.color,
        TokenKind::Comment => colors.comment.color,
        TokenKind::Operator => colors.operator.color,
        TokenKind::Separator => colors.separator.color,
    }
}

/// The kind of the token that each character comes from, for the
/// characters of tokens `k..` in text order.
pub open spec fn kinds_from(ts: Seq<TokenView>, k: int) -> Seq<TokenKind>
    decreases ts.len() - k,
{
    if 0 <= k < ts.len() {
        Seq::new(ts[k].text.len(), |i: int| ts[k].kind) + kinds_from(ts, k + 1)
    } else {
        Seq::empty()
    }
}

/// Each character of the tokens `ts` is in the colour that `colors` gives
/// the kind of its token.
pub open spec fn painted(cs: Seq<TextCharacter>, ts: Seq<TokenView>, colors: CodeHighlightingColor) -> bool {
    &&& cs.len() == kinds_from(ts, 0).len()
    &&& forall|i: int| 0 <= i < cs.len() ==> #[trigger] cs[i].color == color_of(colors, kinds_from(ts, 0)[i])
}

/// The layout of the characters from `current` on, one after the other.
pub open spec fn layout_from(cs: Seq<TextCharacter>, current: Rect) -> Seq<TextCharacter>
    decreases cs.len(),
{
    if cs.len() == 0 {
        Seq::empty()
    } else {
        let (c, next) = laid_out(cs[0], current);
        seq![c] + layout_from(cs.drop_first(), next)
    }
}

/// The first character at text position `index`, if any.
pub open spec fn character_at(cs: Seq<TextCharacter>, index: nat) -> Option<TextCharacter>
    decreases cs.len(),
{
    if cs.len() == 0 {
        None
    } else if cs[0].position == index {
        Some(cs[0])
    } else {
        character_at(cs.drop_first(), index)
    }
}

/// What a backward scan for the end of line `line` has found so far, and
/// whether it has reached an earlier line.
pub struct LastScan {
    pub current: Option<TextCharacter>,
    pub done: bool,
}

/// One step of that scan, on the character `c`: characters of later lines
/// are passed over; one of an earlier line ends the scan. On the line
/// itself the first character seen is kept, and a line break kept is
/// replaced by the first character seen that is not one.
pub open spec fn last_step(s: LastScan, c: TextCharacter, line: nat) -> LastScan {
    if s.done || c.line > line {
        s
    } else if c.line < line {
        LastScan { done: true, ..s }
    } else {
        match s.current {
            None => LastScan { current: Some(c), ..s },
            Some(p) => if p.text_character == '\n' && c.text_character != '\n' {
                LastScan { current: Some(c), ..s }
            } else {
                s
            },
        }
    }
}

/// The scan over `cs` from its last character back to its first, from `s`.
pub open spec fn last_scan(cs: Seq<TextCharacter>, line: nat, s: LastScan) -> LastScan
    decreases cs.len(),
{
    if cs.len() == 0 {
        s
    } else {
        last_scan(cs.drop_last(), line, last_step(s, cs.last(), line))
    }
}

/// The character that ends line `line`: what the backward scan keeps, or,
/// where that is a line break with a character just before it, that
/// character.
pub open spec fn last_at_line(cs: Seq<TextCharacter>, line: nat) -> Option<TextCharacter> {
    match last_scan(cs, line, LastScan { current: None, done: false }).current {
        None => None,
        Some(tc) => if tc.text_character == '\n' && tc.position > 0 {
            match character_at(cs, (tc.position - 1) as nat) {
                Some(p) => Some(p),
                None => Some(tc),
            }
        } else {
            Some(tc)
        },
    }
}

/// The characters of tokens `k..` are the characters of their texts, in
/// order, at the positions from `offset` on.
pub proof fn lemma_infos_positions(ts: Seq<TokenView>, k: int, offset: nat)
    requires
        0 <= k <= ts.len(),
    ensures
        infos_from(ts, k, offset).len() == concat_texts(ts.skip(k)).len(),
        forall|i: int|
            0 <= i < infos_from(ts, k, offset).len() ==> #[trigger] infos_from(ts, k, offset)[i].1 == offset + i,
        forall|i: int|
            0 <= i < infos_from(ts, k, offset).len() ==> #[trigger] infos_from(ts, k, offset)[i].0 == concat_texts(
                ts.skip(k),
            )[i],
    decreases ts.len() - k,
{
    if k < ts.len() {
        lemma_infos_positions(ts, k + 1, offset + ts[k].text.len());
        assert(ts.skip(k).drop_first() =~= ts.skip(k + 1));
        let t = token_infos(ts[k], ends_line(ts, k), offset);
        let rest = infos_from(ts, k + 1, offset + ts[k].text.len());
        assert(infos_from(ts, k, offset) == t + rest);
        assert(concat_texts(ts.skip(k)) == ts[k].text + concat_texts(ts.skip(k + 1)));
        assert forall|i: int| 0 <= i < infos_from(ts, k, offset).len() implies #[trigger] infos_from(ts, k, offset)[i].1 == offset + i by {
            if i < t.len() {
                assert(infos_from(ts, k, offset)[i] == t[i]);
            } else {
                assert(infos_from(ts, k, offset)[i] == rest[i - t.len()]);
            }
        }
        assert forall|i: int| 0 <= i < infos_from(ts, k, offset).len() implies #[trigger] infos_from(ts, k, offset)[i].0 == concat_texts(ts.skip(k))[i] by {
            if i < t.len() {
                assert(infos_from(ts, k, offset)[i] == t[i]);
            } else {
                assert(infos_from(ts, k, offset)[i] == rest[i - t.len()]);
                assert(rest[i - t.len()].0 == concat_texts(ts.skip(k + 1))[i - t.len()]);
            }
        }
    } else {
        assert(ts.skip(k) =~= Seq::<TokenView>::empty());
    }
}

/// The characters of tokens `k..` keep the order of their tokens' lines,
/// none before the line of token `k`.
pub proof fn lemma_infos_lines(ts: Seq<TokenView>, k: int, offset: nat)
    requires
        0 <= k <= ts.len(),
        lines_from(ts, 0),
    ensures
        forall|i: int, j: int|
            0 <= i < j < infos_from(ts, k, offset).len() ==> #[trigger] infos_from(ts, k, offset)[i].2
                <= #[trigger] infos_from(ts, k, offset)[j].2,
        k < ts.len() ==> forall|i: int|
            0 <= i < infos_from(ts, k, offset).len() ==> ts[k].line <= #[trigger] infos_from(ts, k, offset)[i].2,
    decreases ts.len() - k,
{
    if k < ts.len() {
        lemma_infos_lines(ts, k + 1, offset + ts[k].text.len());
        let t = token_infos(ts[k], ends_line(ts, k), offset);
        let rest = infos_from(ts, k + 1, offset + ts[k].text.len());
        let all = infos_from(ts, k, offset);
        assert(all == t + rest);
        if k + 1 < ts.len() {
            assert(ts[k].line <= ts[k + 1].line);
        }
        assert forall|i: int| 0 <= i < all.len() implies ts[k].line <= #[trigger] all[i].2 by {
            if i < t.len() {
                assert(all[i] == t[i]);
            } else {
                assert(all[i] == rest[i - t.len()]);
                assert(ts[k + 1].line <= rest[i - t.len()].2);
            }
        }
        assert forall|i: int, j: int| 0 <= i < j < all.len() implies #[trigger] all[i].2 <= #[trigger] all[j].2 by {
            if j < t.len() {
                assert(all[i] == t[i] && all[j] == t[j]);
            } else if i < t.len() {
                assert(all[i] == t[i] && all[j] == rest[j - t.len()]);
                assert(ts[k + 1].line <= rest[j - t.len()].2);
            } else {
                assert(all[i] == rest[i - t.len()] && all[j] == rest[j - t.len()]);
            }
        }
    }
}

#[derive(Clone, Debug)]
pub struct EditorFile {
    path: String,
    buffer: Vec<char>,
    language: Language,
    tokens: Vec<TokenType>,
    characters: Vec<TextCharacter>,
    dest: Rect,
    line_height: u32,
}

impl EditorFile {
    pub closed spec fn path_view(&self) -> Seq<char> {
        self.path@
    }

    pub closed spec fn text(&self) -> Seq<char> {
        self.buffer@
    }

    pub closed spec fn language_spec(&self) -> Language {
        self.language
    }

    pub closed spec fn token_views(&self) -> Seq<TokenView> {
        self.tokens@.map_values(|t: TokenType| t@)
    }

    pub closed spec fn chars(&self) -> Seq<TextCharacter> {
        self.characters@
    }

    pub closed spec fn line_height_spec(&self) -> u32 {
        self.line_height
    }

    pub closed spec fn dest_spec(&self) -> Rect {
        self.dest
    }

    /// The tokens are those of the text; the characters, once laid out, are
    /// those of the tokens.
    pub closed spec fn wf(&self) -> bool {
        &&& byte_len(self.buffer@) <= usize::MAX
        &&& self.token_views() == lexed(self.buffer@, self.language)
        &&& (self.characters@.len() == 0 || self.characters@.map_values(|c: TextCharacter| info(c))
            == infos_from(self.token_views(), 0, 0))
    }

    /// Every character stands at a position of the text.
    pub proof fn lemma_positions(&self)
        requires
            self.wf(),
        ensures
            self.text().len() <= usize::MAX,
            byte_len(self.text()) <= usize::MAX,
            forall|i: int| 0 <= i < self.chars().len() ==> #[trigger] self.chars()[i].position < self.text().len(),
    {
        lemma_byte_len_ge_len(self.buffer@);
        if self.characters@.len() > 0 {
            let ts = self.token_views();
            law_lexed_spells_prefix(self.buffer@, self.language);
            lemma_infos_positions(ts, 0, 0);
            assert(ts.skip(0) =~= ts);
            assert forall|i: int| 0 <= i < self.chars().len() implies #[trigger] self.chars()[i].position < self.text().len() by {
                assert(self.characters@.map_values(|c: TextCharacter| info(c))[i] == info(self.characters@[i]));
                assert(infos_from(ts, 0, 0)[i] == info(self.characters@[i]));
                assert(infos_from(ts, 0, 0)[i].1 == i);
            }
        }
    }

    /// The characters stand in the order of their lines: a later one is
    /// never on an earlier line.
    pub proof fn lemma_lines_in_order(&self)
        requires
            self.wf(),
        ensures
            forall|i: int, j: int|
                0 <= i < j < self.chars().len() ==> #[trigger] self.chars()[i].line <= #[trigger] self.chars()[j].line,
            forall|i: int| 0 <= i < self.chars().len() ==> #[trigger] self.chars()[i].position == i,
    {
        if self.characters@.len() > 0 {
            let ts = self.token_views();
            law_lexed_lines_in_order(self.buffer@, self.language);
            lemma_infos_lines(ts, 0, 0);
            lemma_infos_positions(ts, 0, 0);
            assert forall|i: int| 0 <= i < self.chars().len() implies #[trigger] self.chars()[i].position == i by {
                assert(self.characters@.map_values(|c: TextCharacter| info(c))[i] == info(self.characters@[i]));
                assert(infos_from(ts, 0, 0)[i].1 == i);
            }
            let ms = self.characters@.map_values(|c: TextCharacter| info(c));
            assert forall|i: int, j: int|
                0 <= i < j < self.chars().len() implies #[trigger] self.chars()[i].line <= #[trigger] self.chars()[j].line by {
                assert(ms[i] == info(self.characters@[i]));
                assert(ms[j] == info(self.characters@[j]));
                assert(infos_from(ts, 0, 0)[i].2 <= infos_from(ts, 0, 0)[j].2);
            }
        }
    }

    /// Once laid out, the character at index `i` stands at text position
    /// `i`, and the characters are as many as those the tokens spell.
    pub proof fn lemma_prepared_positions(&self)
        requires
            self.wf(),
            self.prepared(),
        ensures
            self.chars().len() <= self.text().len(),
            forall|i: int| 0 <= i < self.chars().len() ==> #[trigger] self.chars()[i].position == i,
            forall|i: int| 0 <= i < self.chars().len() ==> #[trigger] self.chars()[i].text_character == self.text()[i],
            self.language_spec() != Language::Rust ==> self.chars().len() == self.text().len(),
            forall|i: int| 0 <= i < self.chars().len() ==> character_at(self.chars(), i as nat) == Some(self.chars()[i]),
            forall|i: nat| i >= self.chars().len() ==> character_at(self.chars(), i) is None,
    {
        let ts = self.token_views();
        law_lexed_spells_prefix(self.buffer@, self.language);
        lemma_infos_positions(ts, 0, 0);
        assert(ts.skip(0) =~= ts);
        let cs = self.chars();
        assert(cs.map_values(|c: TextCharacter| info(c)).len() == cs.len());
        assert forall|i: int| 0 <= i < cs.len() implies #[trigger] cs[i].position == i by {
            assert(cs.map_values(|c: TextCharacter| info(c))[i] == info(cs[i]));
            assert(infos_from(ts, 0, 0)[i].1 == i);
        }
        let n = concat_texts(ts).len() as int;
        assert forall|i: int| 0 <= i < cs.len() implies #[trigger] cs[i].text_character == self.text()[i] by {
            assert(cs.map_values(|c: TextCharacter| info(c))[i] == info(cs[i]));
            assert(infos_from(ts, 0, 0)[i].0 == concat_texts(ts)[i]);
            assert(concat_texts(ts) == self.buffer@.take(n));
        }
        if self.language != Language::Rust {
            if self.language == Language::PlainText {
                crate::lexers::laws::law_plain_tokens_spell_text(self.buffer@);
            } else {
                crate::lexers::laws::law_toml_tokens_spell_text(self.buffer@);
            }
        }
        assert forall|i: int| 0 <= i < cs.len() implies character_at(cs, i as nat) == Some(cs[i]) by {
            lemma_character_at_indexed(cs, 0, i);
        }
        assert forall|i: nat| i >= cs.len() implies character_at(cs, i) is None by {
            lemma_character_at_past(cs, 0, i);
        }
    }

    /// The characters have been laid out.
    pub open spec fn prepared(&self) -> bool {
        self.chars().map_values(|c: TextCharacter| info(c)) == infos_from(self.token_views(), 0, 0)
    }

    pub fn new(path: String, buffer: String, config: &Config) -> (r: Self)
        requires
            config.wf(),
            byte_len(buffer@) <= usize::MAX,
        ensures
            r.wf(),
            r.path_view() == path@,
            r.text() == buffer@,
            r.language_spec() == language_for(path_extension(path@), config.extensions_mapping.as_map()),
            path_extension(path@) matches Some(e) ==> (config.extensions_mapping.as_map().contains_key(e)
                ==> r.language_spec() == config.extensions_mapping.as_map()[e]),
            path_extension(path@) matches Some(e) ==> (!config.extensions_mapping.as_map().contains_key(e)
                ==> r.language_spec() == Language::PlainText),
            path_extension(path@) is None && config.extensions_mapping.as_map().contains_key("txt"@)
                ==> r.language_spec() == config.extensions_mapping.as_map()["txt"@],
            path_extension(path@) is None && !config.extensions_mapping.as_map().contains_key("txt"@)
                ==> r.language_spec() == Language::PlainText,
            r.chars().len() == 0,
            r.line_height_spec() == 0,
            r.dest_spec() == new_rect(0, 0, 0, 0),
    {
        let language = match extension_of(path.as_str()) {
            Some(ext) => match config.extensions_mapping().get(ext.as_str()) {
                Some(l) => l,
                None => Language::PlainText,
            },
            None => {
                proof {
                    reveal_strlit("txt");
                }
                match config.extensions_mapping().get("txt") {
                    Some(l) => l,
                    None => Language::PlainText,
                }
            },
        };
        let chars = chars_of(buffer.as_str());
        let tokens = parse(buffer, language);
        EditorFile {
            path,
            buffer: chars,
            language,
            tokens,
            characters: Vec::new(),
            dest: Rect::new(0, 0, 0, 0),
            line_height: 0,
        }
    }

    /// The text.
    pub fn buffer(&self) -> (r: String)
        requires
            self.wf(),
        ensures
            r@ == self.text(),
    {
        let n = self.buffer.len();
        proof {
            assert(self.buffer@.subrange(0, n as int) =~= self.buffer@);
        }
        let (s, _w) = text_of(&self.buffer, 0, n);
        s
    }

    pub fn path(&self) -> (r: String)
        ensures
            r@ == self.path_view(),
    {
        self.path.clone()
    }

    pub fn language(&self) -> (r: Language)
        ensures
            r == self.language_spec(),
    {
        self.language
    }

    pub fn line_height(&self) -> (r: u32)
        ensures
            r == self.line_height_spec(),
    {
        self.line_height
    }

    pub fn render_position(&self) -> (r: &Rect)
        ensures
            *r == self.dest_spec(),
    {
        &self.dest
    }

    /// Where the file is drawn.
    pub fn dest(&self) -> (r: Rect)
        ensures
            r == self.dest_spec(),
    {
        self.dest
    }

    /// The corner the file is drawn from.
    pub fn render_start_point(&self) -> (r: Point)
        ensures
            r == (Point { x: self.dest_spec().x, y: self.dest_spec().y }),
    {
        self.dest.top_left()
    }

    /// The characters, in the order of the text.
    pub fn characters(&self) -> (r: &Vec<TextCharacter>)
        ensures
            r@ == self.chars(),
    {
        &self.characters
    }

    /// The characters of the text.
    pub fn text_chars(&self) -> (r: &Vec<char>)
        ensures
            r@ == self.text(),
    {
        &self.buffer
    }

    /// The number of characters in the text.
    pub fn text_len(&self) -> (r: usize)
        ensures
            r == self.text().len(),
    {
        self.buffer.len()
    }

    /// The character of the text at `i`.
    pub fn char_of_text(&self, i: usize) -> (r: char)
        requires
            i < self.text().len(),
        ensures
            r == self.text()[i as int],
    {
        self.buffer[i]
    }

    /// The first character at text position `index`, if any.
    pub fn get_character_at(&self, index: usize) -> (r: Option<TextCharacter>)
        ensures
            r == character_at(self.chars(), index as nat),
    {
        let mut k: usize = 0;
        proof {
            assert(self.characters@.skip(0) =~= self.characters@);
        }
        while k < self.characters.len()
            invariant
                0 <= k <= self.characters@.len(),
                character_at(self.characters@, index as nat) == character_at(
                    self.characters@.skip(k as int),
                    index as nat,
                ),
            decreases self.characters@.len() - k,
        {
            proof {
                assert(self.characters@.skip(k as int).drop_first() =~= self.characters@.skip(k + 1));
            }
            if self.characters[k].position == index {
                return Some(self.characters[k]);
            }
            k = k + 1;
        }
        None
    }

    /// The character that ends line `line` (see `last_at_line`).
    pub fn get_last_at_line(&self, line: usize) -> (r: Option<TextCharacter>)
        ensures
            r == last_at_line(self.chars(), line as nat),
    {
        let ghost cs = self.characters@;
        let mut current: Option<TextCharacter> = None;
        let mut k: usize = self.characters.len();
        proof {
            assert(cs.take(k as int) =~= cs);
        }
        while k > 0
            invariant_except_break
                cs == self.characters@,
                0 <= k <= cs.len(),
                last_scan(cs, line as nat, LastScan { current: None, done: false })
                    == last_scan(cs.take(k as int), line as nat, LastScan { current, done: false }),
            ensures
                last_scan(cs, line as nat, LastScan { current: None, done: false }).current == current,
            decreases k,
        {
            let c = self.characters[k - 1];
            proof {
                assert(cs.take(k as int).drop_last() =~= cs.take(k - 1));
                assert(cs.take(k as int).last() == c);
            }
            if c.line < line {
                proof {
                    lemma_last_scan_done(cs.take(k - 1), line as nat, LastScan { current, done: true });
                }
                break;
            }
            if c.line == line {
                match current {
                    None => {
                        current = Some(c);
                    },
                    Some(p) => {
                        if p.is_new_line() && !c.is_new_line() {
                            current = Some(c);
                        }
                    },
                }
            }
            k = k - 1;
            proof {
                if k == 0 {
                    assert(cs.take(0) =~= Seq::<TextCharacter>::empty());
                }
            }
        }
        match current {
            None => None,
            Some(tc) => {
                if tc.is_new_line() && tc.position > 0 {
                    match self.get_character_at(tc.position - 1) {
                        Some(p) => Some(p),
                        None => Some(tc),
                    }
                } else {
                    Some(tc)
                }
            },
        }
    }

    /// Lays the characters out: builds them from the tokens in their
    /// colours if that was not done yet, then places them one after the
    /// other from the top-left corner with the sizes that `sizes` gives.
    pub fn prepare_ui<S: CharacterSizeManager>(&mut self, sizes: &mut S, colors: &CodeHighlightingColor)
        requires
            old(self).wf(),
        ensures
            final(self).wf(),
            final(self).prepared(),
            final(self).path_view() == old(self).path_view(),
            final(self).text() == old(self).text(),
            final(self).language_spec() == old(self).language_spec(),
            final(self).token_views() == old(self).token_views(),
            exists|cs: Seq<TextCharacter>|
                #![auto]
                cs.map_values(|c: TextCharacter| info(c)) == infos_from(final(self).token_views(), 0, 0)
                    && final(self).chars() == layout_from(cs, new_rect(0, 0, 0, 0)),
            old(self).chars().len() == 0 ==> painted(final(self).chars(), final(self).token_views(), *colors),
    {
        if self.characters.len() == 0 {
            self.build_characters(sizes, colors);
        }
        let w = sizes.load_character_size('W');
        self.line_height = w.height;
        let ghost cs = self.characters@;
        self.refresh_characters_position();
        proof {
            lemma_layout_keeps_info(cs, new_rect(0, 0, 0, 0));
            lemma_layout_keeps_colors(cs, new_rect(0, 0, 0, 0));
        }
    }

    /// Places the characters one after the other from the top-left corner.
    fn refresh_characters_position(&mut self)
        ensures
            final(self).chars() == layout_from(old(self).chars(), new_rect(0, 0, 0, 0)),
            final(self).path == old(self).path,
            final(self).buffer == old(self).buffer,
            final(self).language == old(self).language,
            final(self).tokens == old(self).tokens,
            final(self).line_height == old(self).line_height,
    {
        let ghost cs = self.characters@;
        let mut current = Rect::new(0, 0, 0, 0);
        let mut k: usize = 0;
        let n = self.characters.len();
        proof {
            assert(cs.skip(0) =~= cs);
            assert(self.characters@.take(0) + layout_from(cs, current) =~= layout_from(cs, current));
        }
        while k < n
            invariant
                n == self.characters@.len(),
                0 <= k <= n,
                self.characters@.len() == cs.len(),
                layout_from(cs, new_rect(0, 0, 0, 0)) == self.characters@.take(k as int) + layout_from(
                    cs.skip(k as int),
                    current,
                ),
                forall|j: int| k <= j < n ==> self.characters@[j] == cs[j],
                self.path == old(self).path,
                self.buffer == old(self).buffer,
                self.language == old(self).language,
                self.tokens == old(self).tokens,
                self.line_height == old(self).line_height,
            decreases n - k,
        {
            let mut c = self.characters[k];
            let ghost before = self.characters@;
            let ghost cur = current;
            c.update_position(&mut current);
            self.characters.set(k, c);
            proof {
                let rest = cs.skip(k as int);
                assert(rest[0] == cs[k as int]);
                assert(rest.drop_first() =~= cs.skip(k + 1));
                assert(layout_from(rest, cur) == seq![c] + layout_from(cs.skip(k + 1), current));
                assert(self.characters@.take(k + 1) =~= before.take(k as int) + seq![c]);
                assert(before.take(k as int) + (seq![c] + layout_from(cs.skip(k + 1), current))
                    =~= self.characters@.take(k + 1) + layout_from(cs.skip(k + 1), current));
            }
            k = k + 1;
        }
        proof {
            assert(cs.skip(n as int) =~= Seq::<TextCharacter>::empty());
            assert(self.characters@.take(n as int) =~= self.characters@);
            assert(self.characters@ + Seq::<TextCharacter>::empty() =~= self.characters@);
        }
    }

    /// Builds the characters of the tokens.
    fn build_characters<S: CharacterSizeManager>(&mut self, sizes: &mut S, colors: &CodeHighlightingColor)
        requires
            old(self).wf(),
        ensures
            final(self).wf(),
            final(self).prepared(),
            final(self).path == old(self).path,
            final(self).buffer == old(self).buffer,
            final(self).language == old(self).language,
            final(self).tokens == old(self).tokens,
            final(self).line_height == old(self).line_height,
            painted(final(self).chars(), final(self).token_views(), *colors),
    {
        let ghost ts = self.token_views();
        proof {
            law_lexed_spells_prefix(self.buffer@, self.language);
        }
        let ghost mut kinds = Seq::<TokenKind>::empty();
        let mut out: Vec<TextCharacter> = Vec::new();
        let mut k: usize = 0;
        let mut offset: usize = 0;
        let n = self.tokens.len();
        let blen = self.buffer.len();
        proof {
            assert(ts.take(0) =~= Seq::<TokenView>::empty());
            assert(concat_texts(Seq::<TokenView>::empty()) == Seq::<char>::empty());
        }
        while k < n
            invariant
                self.wf(),
                ts == self.token_views(),
                n == ts.len(),
                0 <= k <= n,
                offset == concat_texts(ts.take(k as int)).len(),
                concat_texts(ts).len() <= self.buffer@.len(),
                blen == self.buffer@.len(),
                infos_from(ts, 0, 0) == out@.map_values(|c: TextCharacter| info(c)) + infos_from(ts, k as int, offset as nat),
                self.path == old(self).path,
                self.buffer == old(self).buffer,
                self.language == old(self).language,
                self.tokens == old(self).tokens,
                self.characters == old(self).characters,
                self.line_height == old(self).line_height,
                kinds_from(ts, 0) == kinds + kinds_from(ts, k as int),
                out@.len() == kinds.len(),
                forall|j: int| 0 <= j < out@.len() ==> #[trigger] out@[j].color == color_of(*colors, kinds[j]),
            decreases n - k,
        {
            proof {
                lemma_concat_texts_take(ts, k as int);
            }
            let last = if k + 1 >= n {
                true
            } else {
                self.tokens[k + 1].is_new_line()
            };
            let color = color_for(colors, self.tokens[k].kind());
            let text = chars_of(self.tokens[k].text().as_str());
            let line = self.tokens[k].line();
            let m = text.len();
            let ghost before = out@.map_values(|c: TextCharacter| info(c));
            let ghost tinfo = token_infos(ts[k as int], ends_line(ts, k as int), offset as nat);
            let ghost kinds_before = kinds;
            let ghost kind = ts[k as int].kind;
            assert(color == color_of(*colors, kind));
            let mut i: usize = 0;
            while i < m
                invariant
                    0 <= i <= m,
                    m == text@.len(),
                    text@ == ts[k as int].text,
                    line == ts[k as int].line,
                    last == ends_line(ts, k as int),
                    offset + m <= self.buffer@.len(),
                    blen == self.buffer@.len(),
                    tinfo == token_infos(ts[k as int], ends_line(ts, k as int), offset as nat),
                    out@.map_values(|c: TextCharacter| info(c)) == before + tinfo.take(i as int),
                    self.buffer == old(self).buffer,
                    color == color_of(*colors, kind),
                    kinds == kinds_before + Seq::new(i as nat, |j: int| kind),
                    out@.len() == kinds.len(),
                    forall|j: int| 0 <= j < out@.len() ==> #[trigger] out@[j].color == color_of(*colors, kinds[j]),
                decreases m - i,
            {
                let c = text[i];
                let mut tc = TextCharacter::new(c, offset + i, line, last && i + 1 == m, color);
                let size = sizes.load_character_size(c);
                tc.set_size(size);
                let ghost prev = out@;
                out.push(tc);
                proof {
                    kinds = kinds.push(kind);
                    assert(kinds_before + Seq::new((i + 1) as nat, |j: int| kind) =~= kinds);
                    assert(out@[out@.len() - 1] == tc);
                    assert(out@.map_values(|c: TextCharacter| info(c)) =~= prev.map_values(|c: TextCharacter| info(c)) + seq![info(tc)]);
                    assert(tinfo.take(i + 1) =~= tinfo.take(i as int) + seq![tinfo[i as int]]);
                }
                i = i + 1;
            }
            proof {
                assert(tinfo.take(m as int) =~= tinfo);
                assert(infos_from(ts, k as int, offset as nat) == tinfo + infos_from(ts, k + 1, (offset + m) as nat));
                assert(before + (tinfo + infos_from(ts, k + 1, (offset + m) as nat)) =~= (before + tinfo) + infos_from(ts, k + 1, (offset + m) as nat));
                assert(kinds_from(ts, k as int) == Seq::new(ts[k as int].text.len(), |j: int| ts[k as int].kind) + kinds_from(ts, k + 1));
                assert(Seq::new(ts[k as int].text.len(), |j: int| ts[k as int].kind) =~= Seq::new(m as nat, |j: int| kind));
                assert(kinds_before + (Seq::new(m as nat, |j: int| kind) + kinds_from(ts, k + 1)) =~= kinds + kinds_from(ts, k + 1));
            }
            offset = offset + m;
            k = k + 1;
        }
        proof {
            assert(infos_from(ts, n as int, offset as nat) =~= Seq::<(char, nat, nat, bool)>::empty());
            assert(out@.map_values(|c: TextCharacter| info(c)) + Seq::<(char, nat, nat, bool)>::empty() =~= out@.map_values(|c: TextCharacter| info(c)));
            assert(kinds + kinds_from(ts, n as int) =~= kinds);
        }
        self.characters = out;
    }
}

/// In characters that stand at positions `base`, `base + 1`, ..., the one
/// at position `base + i` is the `i`-th.
proof fn lemma_character_at_indexed(cs: Seq<TextCharacter>, base: int, i: int)
    requires
        0 <= base,
        0 <= i < cs.len(),
        forall|j: int| 0 <= j < cs.len() ==> #[trigger] cs[j].position == base + j,
    ensures
        character_at(cs, (base + i) as nat) == Some(cs[i]),
    decreases i,
{
    if i > 0 {
        let d = cs.drop_first();
        assert forall|j: int| 0 <= j < d.len() implies #[trigger] d[j].position == (base + 1) + j by {
            assert(d[j] == cs[j + 1]);
        }
        lemma_character_at_indexed(d, base + 1, i - 1);
    }
}

/// No character stands at a position past them.
proof fn lemma_character_at_past(cs: Seq<TextCharacter>, base: int, p: nat)
    requires
        0 <= base,
        p >= base + cs.len(),
        forall|j: int| 0 <= j < cs.len() ==> #[trigger] cs[j].position == base + j,
    ensures
        character_at(cs, p) is None,
    decreases cs.len(),
{
    if cs.len() > 0 {
        let d = cs.drop_first();
        assert forall|j: int| 0 <= j < d.len() implies #[trigger] d[j].position == (base + 1) + j by {
            assert(d[j] == cs[j + 1]);
        }
        lemma_character_at_past(d, base + 1, p);
    }
}

/// What the scan keeps is a character of `cs` or what it started from.
proof fn lemma_last_scan_in(cs: Seq<TextCharacter>, line: nat, s: LastScan)
    ensures
        last_scan(cs, line, s).current matches Some(c) ==> (s.current == Some(c) || cs.contains(c)),
    decreases cs.len(),
{
    if cs.len() > 0 {
        let s2 = last_step(s, cs.last(), line);
        lemma_last_scan_in(cs.drop_last(), line, s2);
        if let Some(c) = last_scan(cs, line, s).current {
            if cs.drop_last().contains(c) {
                let i = choose|i: int| 0 <= i < cs.drop_last().len() && cs.drop_last()[i] == c;
                assert(cs[i] == c);
            } else if s2.current == Some(c) && s.current != Some(c) {
                assert(cs[cs.len() - 1] == c);
            }
        }
    }
}

/// The character at a position is one of `cs`.
pub proof fn lemma_character_at_in(cs: Seq<TextCharacter>, index: nat)
    ensures
        character_at(cs, index) matches Some(c) ==> cs.contains(c),
    decreases cs.len(),
{
    if cs.len() > 0 && cs[0].position != index {
        lemma_character_at_in(cs.drop_first(), index);
        if let Some(c) = character_at(cs, index) {
            let i = choose|i: int| 0 <= i < cs.drop_first().len() && cs.drop_first()[i] == c;
            assert(cs[i + 1] == c);
        }
    } else if cs.len() > 0 {
        assert(cs[0] == cs[0]);
    }
}

/// The character that ends a line is one of `cs`.
pub proof fn lemma_last_at_line_in(cs: Seq<TextCharacter>, line: nat)
    ensures
        last_at_line(cs, line) matches Some(c) ==> cs.contains(c),
{
    lemma_last_scan_in(cs, line, LastScan { current: None, done: false });
    if let Some(tc) = last_scan(cs, line, LastScan { current: None, done: false }).current {
        if tc.text_character == '\n' && tc.position > 0 {
            lemma_character_at_in(cs, (tc.position - 1) as nat);
        }
    }
}

/// Once the scan has reached an earlier line, the characters before add nothing.
proof fn lemma_last_scan_done(cs: Seq<TextCharacter>, line: nat, s: LastScan)
    requires
        s.done,
    ensures
        last_scan(cs, line, s) == s,
    decreases cs.len(),
{
    if cs.len() > 0 {
        lemma_last_scan_done(cs.drop_last(), line, last_step(s, cs.last(), line));
    }
}

/// The colour of a token of `kind`.
pub fn color_for(colors: &CodeHighlightingColor, kind: TokenKind) -> (r: SerdeColor)
    ensures
        r == color_of(*colors, kind),
{
    match kind {
        TokenKind::Whitespace => colors.whitespace.color,
        TokenKind::Keyword => colors.keyword.color,
        TokenKind::Text => colors.string.color,
        TokenKind::Identifier => colors.identifier.color,
        TokenKind::Literal => colors.literal.color,
        TokenKind::Comment => colors.comment.color,
        TokenKind::Operator => colors.operator.color,
        TokenKind::Separator => colors.separator.color,
    }
}

/// Laying out keeps each character's colour.
pub proof fn lemma_layout_keeps_colors(cs: Seq<TextCharacter>, current: Rect)
    ensures
        layout_from(cs, current).len() == cs.len(),
        forall|i: int| 0 <= i < cs.len() ==> #[trigger] layout_from(cs, current)[i].color == cs[i].color,
    decreases cs.len(),
{
    if cs.len() > 0 {
        let (c, next) = laid_out(cs[0], current);
        lemma_layout_keeps_colors(cs.drop_first(), next);
        let l = layout_from(cs, current);
        assert(l == seq![c] + layout_from(cs.drop_first(), next));
        assert forall|i: int| 0 <= i < cs.len() implies #[trigger] l[i].color == cs[i].color by {
            if i > 0 {
                assert(l[i] == layout_from(cs.drop_first(), next)[i - 1]);
                assert(cs.drop_first()[i - 1] == cs[i]);
            }
        }
    }
}

/// Laying out changes where characters are drawn, nothing else.
pub proof fn lemma_layout_keeps_info(cs: Seq<TextCharacter>, current: Rect)
    ensures
        layout_from(cs, current).map_values(|c: TextCharacter| info(c)) == cs.map_values(
            |c: TextCharacter| info(c),
        ),
        layout_from(cs, current).len() == cs.len(),
    decreases cs.len(),
{
    if cs.len() > 0 {
        let (c, next) = laid_out(cs[0], current);
        lemma_layout_keeps_info(cs.drop_first(), next);
        assert(layout_from(cs, current).map_values(|c: TextCharacter| info(c)) =~= cs.map_values(
            |c: TextCharacter| info(c),
        )) by {
            let l = layout_from(cs, current);
            assert(l == seq![c] + layout_from(cs.drop_first(), next));
            assert forall|i: int| 0 <= i < cs.len() implies info(l[i]) == info(cs[i]) by {
                if i > 0 {
                    assert(l[i] == layout_from(cs.drop_first(), next)[i - 1]);
                    assert(cs.drop_first()[i - 1] == cs[i]);
                    assert(layout_from(cs.drop_first(), next).map_values(|c: TextCharacter| info(c))[i - 1] == cs.drop_first().map_values(|c: TextCharacter| info(c))[i - 1]);
                }
            }
        }
    } else {
        assert(layout_from(cs, current).map_values(|c: TextCharacter| info(c)) =~= cs.map_values(
            |c: TextCharacter| info(c),
        ));
    }
}

/// The running measure of a file's extent while its tokens are walked: the
/// width of the line so far, the widest line closed by a line break, and
/// the height of the lines.
#[derive(Clone, Copy, Debug, PartialEq, Eq, Structural)]
pub struct Extent {
    pub current: u32,
    pub widest: u32,
    pub height: u32,
}

/// The rectangle of the first character of a token that starts at text
/// position `offset`; an empty one for a token with no character laid out.
pub open spec fn token_rect(cs: Seq<TextCharacter>, t: TokenView, offset: int) -> Rect {
    if t.text.len() > 0 && 0 <= offset < cs.len() {
        cs[offset].dest
    } else {
        new_rect(0, 0, 0, 0)
    }
}

/// One token of the walk, drawn in `r`: the first token opens the first
/// line; a line break closes the line (its width may become the widest)
/// and adds its height; any other token widens the line. Sums stop at the
/// largest `u32`.
pub open spec fn extent_step(e: Extent, r: Rect, first: bool, line_break: bool) -> Extent {
    if first {
        Extent { current: r.width, widest: r.width, height: r.height }
    } else if line_break {
        Extent { current: 0, widest: if e.widest < e.current { e.current } else { e.widest }, height: sat_add(e.height, r.height) }
    } else {
        Extent { current: sat_add(e.current, r.width), ..e }
    }
}

/// The walk over tokens `k..` of `ts`, whose characters are `cs`.
pub open spec fn extent_from(cs: Seq<TextCharacter>, ts: Seq<TokenView>, k: int, e: Extent) -> Extent
    decreases ts.len() - k,
{
    if 0 <= k < ts.len() {
        extent_from(
            cs,
            ts,
            k + 1,
            extent_step(e, token_rect(cs, ts[k], concat_texts(ts.take(k)).len() as int), k == 0, is_line_break(ts[k].kind, ts[k].text)),
        )
    } else {
        e
    }
}

/// The size of the text of `f` as laid out: the widest line closed by a
/// line break, and the height of its lines, from the origin.
pub open spec fn full_rect_of(f: EditorFile) -> Rect {
    let e = extent_from(f.chars(), f.token_views(), 0, Extent { current: 0, widest: 0, height: 0 });
    new_rect(0, 0, e.widest, e.height)
}

impl EditorFile {
    /// See `full_rect_of`.
    pub fn full_rect(&self) -> (r: Rect)
        requires
            self.wf(),
        ensures
            r == full_rect_of(*self),
    {
        let ghost ts = self.token_views();
        let ghost cs = self.chars();
        proof {
            law_lexed_spells_prefix(self.buffer@, self.language);
            assert(ts.take(0) =~= Seq::<TokenView>::empty());
            assert(concat_texts(Seq::<TokenView>::empty()) == Seq::<char>::empty());
        }
        let n = self.tokens.len();
        let blen = self.buffer.len();
        let mut k: usize = 0;
        let mut offset: usize = 0;
        let mut e = Extent { current: 0, widest: 0, height: 0 };
        while k < n
            invariant
                self.wf(),
                ts == self.token_views(),
                cs == self.chars(),
                n == ts.len(),
                0 <= k <= n,
                offset == concat_texts(ts.take(k as int)).len(),
                concat_texts(ts).len() <= self.buffer@.len(),
                blen == self.buffer@.len(),
                extent_from(cs, ts, 0, Extent { current: 0, widest: 0, height: 0 }) == extent_from(cs, ts, k as int, e),
            decreases n - k,
        {
            proof {
                lemma_concat_texts_take(ts, k as int);
                assert(ts[k as int] == self.tokens@[k as int]@);
            }
            let m = self.tokens[k].text().as_str().unicode_len();
            assert(m == ts[k as int].text.len());
            let r = if m > 0 && offset < self.characters.len() {
                self.characters[offset].dest
            } else {
                Rect::new(0, 0, 0, 0)
            };
            let line_break = self.tokens[k].is_new_line();
            e = if k == 0 {
                Extent { current: r.width, widest: r.width, height: r.height }
            } else if line_break {
                Extent {
                    current: 0,
                    widest: if e.widest < e.current { e.current } else { e.widest },
                    height: add_saturating(e.height, r.height),
                }
            } else {
                Extent { current: add_saturating(e.current, r.width), ..e }
            };
            offset = offset + m;
            k = k + 1;
        }
        Rect::new(0, 0, e.widest, e.height)
    }
}

/// Whether a character of a token belongs to line `line`: a character of a
/// line break belongs to the line the break ends (the one before the line
/// it stands on), and a break on line 0 to line 0; any other character to
/// its own line.
pub open spec fn on_line(c: TextCharacter, line_break: bool, line: nat) -> bool {
    if line_break {
        (line == 0 && c.line == 0) || line + 1 == c.line
    } else {
        c.line == line
    }
}

/// The characters of `chars` that belong to line `line`, in order.
pub open spec fn kept_on_line(chars: Seq<TextCharacter>, line_break: bool, line: nat) -> Seq<TextCharacter>
    decreases chars.len(),
{
    if chars.len() == 0 {
        Seq::empty()
    } else {
        let rest = kept_on_line(chars.drop_last(), line_break, line);
        if on_line(chars.last(), line_break, line) {
            rest.push(chars.last())
        } else {
            rest
        }
    }
}

/// The laid-out characters of token `k`: those from its text position on,
/// as many as its text has, as far as `cs` holds them.
pub open spec fn token_chars(cs: Seq<TextCharacter>, ts: Seq<TokenView>, k: int) -> Seq<TextCharacter> {
    let start = concat_texts(ts.take(k)).len() as int;
    let end = start + ts[k].text.len();
    let from = if start < cs.len() { start } else { cs.len() as int };
    let to = if end < cs.len() { end } else { cs.len() as int };
    cs.subrange(from, to)
}

/// The characters of tokens `0..k` that belong to line `line`, token by
/// token.
pub open spec fn line_upto(cs: Seq<TextCharacter>, ts: Seq<TokenView>, k: int, line: nat) -> Seq<TextCharacter>
    decreases k,
{
    if k <= 0 {
        Seq::empty()
    } else {
        line_upto(cs, ts, k - 1, line) + kept_on_line(
            token_chars(cs, ts, k - 1),
            is_line_break(ts[k - 1].kind, ts[k - 1].text),
            line,
        )
    }
}

impl EditorFile {
    /// The laid-out characters of line `line` (see `on_line`), or nothing
    /// when it has none.
    pub fn get_line(&self, line: usize) -> (r: Option<Vec<TextCharacter>>)
        requires
            self.wf(),
        ensures
            ({
                let found = line_upto(self.chars(), self.token_views(), self.token_views().len() as int, line as nat);
                match r {
                    Some(v) => v@ == found && found.len() > 0,
                    None => found.len() == 0,
                }
            }),
    {
        let ghost ts = self.token_views();
        let ghost cs = self.chars();
        proof {
            law_lexed_spells_prefix(self.buffer@, self.language);
            assert(ts.take(0) =~= Seq::<TokenView>::empty());
            assert(concat_texts(Seq::<TokenView>::empty()) == Seq::<char>::empty());
        }
        let n = self.tokens.len();
        let blen = self.buffer.len();
        let mut out: Vec<TextCharacter> = Vec::new();
        let mut k: usize = 0;
        let mut offset: usize = 0;
        while k < n
            invariant
                self.wf(),
                ts == self.token_views(),
                cs == self.chars(),
                n == ts.len(),
                0 <= k <= n,
                offset == concat_texts(ts.take(k as int)).len(),
                concat_texts(ts).len() <= self.buffer@.len(),
                blen == self.buffer@.len(),
                out@ == line_upto(cs, ts, k as int, line as nat),
            decreases n - k,
        {
            proof {
                lemma_concat_texts_take(ts, k as int);
                assert(ts[k as int] == self.tokens@[k as int]@);
            }
            let m = self.tokens[k].text().as_str().unicode_len();
            assert(m == ts[k as int].text.len());
            let line_break = self.tokens[k].is_new_line();
            let len = self.characters.len();
            let from = if offset < len { offset } else { len };
            let to = if offset + m < len { offset + m } else { len };
            let ghost chars = token_chars(cs, ts, k as int);
            let ghost before = out@;
            assert(chars == cs.subrange(from as int, to as int));
            let mut i: usize = from;
            proof {
                assert(chars.take(0) =~= Seq::<TextCharacter>::empty());
            }
            while i < to
                invariant
                    from <= i <= to <= cs.len(),
                    len == cs.len(),
                    cs == self.chars(),
                    chars == cs.subrange(from as int, to as int),
                    out@ == before + kept_on_line(chars.take(i - from), line_break, line as nat),
                decreases to - i,
            {
                let c = self.characters[i];
                proof {
                    assert(chars.take(i - from + 1).drop_last() =~= chars.take(i - from));
                    assert(chars.take(i - from + 1).last() == c);
                }
                let keep = if line_break {
                    (line == 0 && c.line == 0) || (line < usize::MAX && line + 1 == c.line)
                } else {
                    c.line == line
                };
                if keep {
                    out.push(c);
                }
                i = i + 1;
            }
            proof {
                assert(chars.take(to - from) =~= chars);
            }
            offset = offset + m;
            k = k + 1;
        }
        if out.len() == 0 {
            None
        } else {
            Some(out)
        }
    }
}

/// What the characters `chars` draw in `context`, in order.
pub open spec fn chars_commands(chars: Seq<TextCharacter>, context: RenderContext) -> Seq<DrawSpec>
    decreases chars.len(),
{
    if chars.len() == 0 {
        Seq::empty()
    } else {
        chars_commands(chars.drop_last(), context).push(char_glyph(chars.last(), context))
    }
}

/// What tokens `0..k` draw in `context`: the characters of each token but
/// the line breaks.
pub open spec fn text_commands(cs: Seq<TextCharacter>, ts: Seq<TokenView>, k: int, context: RenderContext) -> Seq<DrawSpec>
    decreases k,
{
    if k <= 0 {
        Seq::empty()
    } else if is_line_break(ts[k - 1].kind, ts[k - 1].text) {
        text_commands(cs, ts, k - 1, context)
    } else {
        text_commands(cs, ts, k - 1, context) + chars_commands(token_chars(cs, ts, k - 1), context)
    }
}

impl EditorFile {
    /// Appends what the file draws (see `text_commands`).
    pub fn render(&self, context: &RenderContext, out: &mut Vec<DrawCommand>)
        requires
            self.wf(),
        ensures
            views(final(out)@) == views(old(out)@) + text_commands(
                self.chars(),
                self.token_views(),
                self.token_views().len() as int,
                *context,
            ),
    {
        let ghost ts = self.token_views();
        let ghost cs = self.chars();
        let ghost start = views(out@);
        proof {
            law_lexed_spells_prefix(self.buffer@, self.language);
            assert(ts.take(0) =~= Seq::<TokenView>::empty());
            assert(concat_texts(Seq::<TokenView>::empty()) == Seq::<char>::empty());
            assert(start + Seq::<DrawSpec>::empty() =~= start);
        }
        let n = self.tokens.len();
        let blen = self.buffer.len();
        let mut k: usize = 0;
        let mut offset: usize = 0;
        while k < n
            invariant
                self.wf(),
                ts == self.token_views(),
                cs == self.chars(),
                n == ts.len(),
                0 <= k <= n,
                offset == concat_texts(ts.take(k as int)).len(),
                concat_texts(ts).len() <= self.buffer@.len(),
                blen == self.buffer@.len(),
                views(out@) == start + text_commands(cs, ts, k as int, *context),
            decreases n - k,
        {
            proof {
                lemma_concat_texts_take(ts, k as int);
                assert(ts[k as int] == self.tokens@[k as int]@);
            }
            let m = self.tokens[k].text().as_str().unicode_len();
            assert(m == ts[k as int].text.len());
            let line_break = self.tokens[k].is_new_line();
            if !line_break {
                let len = self.characters.len();
                let from = if offset < len { offset } else { len };
                let to = if offset + m < len { offset + m } else { len };
                let ghost chars = token_chars(cs, ts, k as int);
                let ghost before = views(out@);
                assert(chars == cs.subrange(from as int, to as int));
                let mut i: usize = from;
                proof {
                    assert(chars.take(0) =~= Seq::<TextCharacter>::empty());
                    assert(before + Seq::<DrawSpec>::empty() =~= before);
                }
                while i < to
                    invariant
                        from <= i <= to <= cs.len(),
                        len == cs.len(),
                        cs == self.chars(),
                        chars == cs.subrange(from as int, to as int),
                        views(out@) == before + chars_commands(chars.take(i - from), *context),
                    decreases to - i,
                {
                    let c = self.characters[i];
                    proof {
                        assert(chars.take(i - from + 1).drop_last() =~= chars.take(i - from));
                        assert(chars.take(i - from + 1).last() == c);
                    }
                    c.render(context, out);
                    proof {
                        assert(before + chars_commands(chars.take(i - from), *context).push(char_glyph(c, *context))
                            =~= (before + chars_commands(chars.take(i - from), *context)).push(char_glyph(c, *context)));
                    }
                    i = i + 1;
                }
                proof {
                    assert(chars.take(to - from) =~= chars);
                    assert(start + text_commands(cs, ts, k as int, *context) + chars_commands(chars, *context) =~= start
                        + (text_commands(cs, ts, k as int, *context) + chars_commands(chars, *context)));
                }
            }
            offset = offset + m;
            k = k + 1;
        }
    }
}

} // verus!
