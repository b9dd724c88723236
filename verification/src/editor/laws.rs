//! What the editing commands promise of one another.

use vstd::prelude::*;
use super::content::{advanced, after_insert_text, anchor, laid_out_between, splice, widths_between};
use super::text_character::TextCharacter;
use super::file::{kinds_from, language_for, painted, EditorFile};
use crate::lexers::laws::concat_texts;
use crate::lexers::{TokenKind, TokenView};
use crate::themes::CodeHighlightingColor;
use crate::lexers::Language;
use super::file_editor::{after_task, line_at, same_bars, FileEditor};
use crate::geometry::Point;
use crate::config::settings::Config;
use crate::events::UpdateResult;
use super::moves::{left_target, right_target};

verus! {

/// Typing a character at `tp` and deleting it again, with backspace from
/// just after it or with delete from just before it, gives the text back;
/// the character that backspace meets is the one typed, so a typed line
/// break takes the caret back to its line.
pub proof fn law_deleting_undoes_typing(t: Seq<char>, tp: int, c: char)
    requires
        0 <= tp <= t.len(),
    ensures
        splice(t, tp, 0, seq![c])[tp] == c,
        splice(t, tp, 0, seq![c]).remove(tp) == t,
        splice(t, tp, 0, seq![c]).len() == t.len() + 1,
{
    assert(splice(t, tp, 0, seq![c]).remove(tp) =~= t);
}

/// Typing `ins` at `tp` leaves the text before and after it as it was.
pub proof fn law_typing_keeps_the_rest(t: Seq<char>, tp: int, ins: Seq<char>)
    requires
        0 <= tp <= t.len(),
    ensures
        splice(t, tp, 0, ins).len() == t.len() + ins.len(),
        splice(t, tp, 0, ins).take(tp) == t.take(tp),
        splice(t, tp, 0, ins).subrange(tp, tp + ins.len()) == ins,
        splice(t, tp, 0, ins).skip(tp + ins.len()) == t.skip(tp),
{
    let s = splice(t, tp, 0, ins);
    assert(s.take(tp) =~= t.take(tp));
    assert(s.subrange(tp, tp + ins.len()) =~= ins);
    assert(s.skip(tp + ins.len()) =~= t.skip(tp));
}

/// In a laid-out file, a step right that succeeds can be undone by a step
/// left: from one past the caret, the character to the left is the one
/// the caret stood on.
pub proof fn law_right_then_left(fe: FileEditor, moved: FileEditor)
    requires
        fe.wf(),
        fe.file_of() matches Some(f) && f.prepared(),
        right_target(fe) is Some,
        moved.file_of() == fe.file_of(),
        moved.caret_of().position.text_position == fe.caret_of().position.text_position + 1,
    ensures
        left_target(moved) matches Some(c) && c.position == fe.caret_of().position.text_position,
{
    let f = fe.file_of().unwrap();
    f.lemma_prepared_positions();
    let tp = fe.caret_of().position.text_position;
    assert((tp + 1) < f.chars().len());
    assert(f.chars()[tp as int].position == tp);
}

/// In a laid-out file, a step left that succeeds can be undone by a step
/// right.
pub proof fn law_left_then_right(fe: FileEditor, moved: FileEditor)
    requires
        fe.wf(),
        fe.file_of() matches Some(f) && f.prepared(),
        left_target(fe) is Some,
        moved.file_of() == fe.file_of(),
        moved.caret_of().position.text_position + 1 == fe.caret_of().position.text_position,
    ensures
        right_target(moved) matches Some(c) && c.position == fe.caret_of().position.text_position
            || fe.caret_of().position.text_position >= fe.file_of().unwrap().chars().len(),
{
    let f = fe.file_of().unwrap();
    f.lemma_prepared_positions();
    let tp = fe.caret_of().position.text_position;
    if tp < f.chars().len() {
        assert(f.chars()[tp as int].position == tp);
    }
}

/// In a laid-out file a step right succeeds exactly when a character
/// follows the caret's, and a step left exactly when the caret is past the
/// start and on or after a character.
pub proof fn law_steps_succeed_within_text(fe: FileEditor)
    requires
        fe.wf(),
        fe.file_of() matches Some(f) && f.prepared(),
    ensures
        right_target(fe) is Some <==> fe.caret_of().position.text_position + 1 < fe.file_of().unwrap().chars().len(),
        left_target(fe) is Some <==> 0 < fe.caret_of().position.text_position <= fe.file_of().unwrap().chars().len(),
{
    let f = fe.file_of().unwrap();
    f.lemma_prepared_positions();
    let tp = fe.caret_of().position.text_position;
    if tp + 1 < f.chars().len() {
        assert(f.chars()[tp + 1].position == tp + 1);
    }
    if 0 < tp <= f.chars().len() {
        assert(f.chars()[tp - 1].position == tp - 1);
    }
}

/// What is laid out on screen is the text: the `i`-th character drawn is
/// the `i`-th of the text, at text position `i`; in plain text and TOML every
/// character of the text is drawn.
pub proof fn law_layout_shows_the_text(f: EditorFile)
    requires
        f.wf(),
        f.prepared(),
    ensures
        f.chars().len() <= f.text().len(),
        forall|i: int| 0 <= i < f.chars().len() ==> #[trigger] f.chars()[i].text_character == f.text()[i]
            && f.chars()[i].position == i,
        f.language_spec() != Language::Rust ==> f.chars().len() == f.text().len(),
{
    f.lemma_prepared_positions();
}

/// Editing and moving the caret keep the text scrolled as it was.
pub proof fn law_tasks_keep_the_scroll(before: FileEditor, after: FileEditor, task: UpdateResult, config: Config)
    requires
        after_task(before, after, task, config),
    ensures
        same_bars(before, after),
{
}


proof fn lemma_kinds_shift(ts: Seq<TokenView>, k: int)
    requires
        0 <= k,
        ts.len() > 0,
    ensures
        kinds_from(ts, k + 1) == kinds_from(ts.drop_first(), k),
    decreases ts.len() - k,
{
    if k + 1 < ts.len() {
        lemma_kinds_shift(ts, k + 1);
        let d = ts.drop_first();
        assert(d[k] == ts[k + 1]);
        assert(Seq::new(ts[k + 1].text.len(), |i: int| ts[k + 1].kind) =~= Seq::new(d[k].text.len(), |i: int| d[k].kind));
    }
}

/// Character `j` of token `k` stands at index `|texts of tokens before k| + j`
/// of the kinds, and has the kind of token `k`.
proof fn lemma_kinds_at(ts: Seq<TokenView>, k: int, j: int)
    requires
        0 <= k < ts.len(),
        0 <= j < ts[k].text.len(),
    ensures
        concat_texts(ts.take(k)).len() + j < kinds_from(ts, 0).len(),
        kinds_from(ts, 0)[concat_texts(ts.take(k)).len() + j] == ts[k].kind,
    decreases k,
{
    let a = Seq::new(ts[0].text.len(), |i: int| ts[0].kind);
    assert(kinds_from(ts, 0) == a + kinds_from(ts, 1));
    if k == 0 {
        assert(ts.take(0) =~= Seq::<TokenView>::empty());
        assert(concat_texts(ts.take(0)) == Seq::<char>::empty());
    } else {
        let d = ts.drop_first();
        lemma_kinds_shift(ts, 0);
        assert(d[k - 1] == ts[k]);
        lemma_kinds_at(d, k - 1, j);
        assert(ts.take(k).drop_first() =~= d.take(k - 1));
        assert(ts.take(k)[0] == ts[0]);
        assert(concat_texts(ts.take(k)) == ts[0].text + concat_texts(d.take(k - 1)));
    }
}

/// Once `prepare_ui` has built a file's characters with the theme colours
/// `colors`, character `j` of the `k`-th token (the character after the
/// texts of the tokens before it and `j` more) is drawn in the colour of its
/// token's own kind: a keyword in the keyword colour, an identifier in the
/// identifier colour, a string in the string colour, and so on.
pub proof fn law_token_characters_colored(f: EditorFile, colors: CodeHighlightingColor, k: int, j: int)
    requires
        painted(f.chars(), f.token_views(), colors),
        0 <= k < f.token_views().len(),
        0 <= j < f.token_views()[k].text.len(),
    ensures
        ({
            let t = f.token_views()[k];
            let p = concat_texts(f.token_views().take(k)).len() + j;
            let c = f.chars()[p as int].color;
            &&& p < f.chars().len()
            &&& t.kind == TokenKind::Whitespace ==> c == colors.whitespace.color
            &&& t.kind == TokenKind::Keyword ==> c == colors.keyword.color
            &&& t.kind == TokenKind::Text ==> c == colors.string.color
            &&& t.kind == TokenKind::Identifier ==> c == colors.identifier.color
            &&& t.kind == TokenKind::Literal ==> c == colors.literal.color
            &&& t.kind == TokenKind::Comment ==> c == colors.comment.color
            &&& t.kind == TokenKind::Operator ==> c == colors.operator.color
            &&& t.kind == TokenKind::Separator ==> c == colors.separator.color
        }),
{
    let ts = f.token_views();
    lemma_kinds_at(ts, k, j);
    let p = concat_texts(ts.take(k)).len() + j;
    assert(f.chars()[p as int].color == super::file::color_of(colors, kinds_from(ts, 0)[p as int]));
}


/// The language of a file comes from its extension alone: an extension that
/// is a key of the mapping gives the language it is mapped to, any other
/// extension gives plain text, and a file without an extension is taken as
/// a `txt` file.
pub proof fn law_language_from_extension(ext: Option<Seq<char>>, mapping: Map<Seq<char>, Language>)
    ensures
        ext matches Some(e) ==> (mapping.contains_key(e) ==> language_for(ext, mapping) == mapping[e]),
        ext matches Some(e) ==> (!mapping.contains_key(e) ==> language_for(ext, mapping) == Language::PlainText),
        ext is None ==> language_for(ext, mapping) == language_for(Some("txt"@), mapping),
{
}


/// A point `y > 0` pixels below the top of the area, with a line height
/// `h > 0`, lies on line `floor(y / h)`: every point with
/// `k * h <= y < (k + 1) * h` resolves to line `k`.
pub proof fn law_point_on_line(f: EditorFile, top: i32, point: Point, k: int)
    requires
        f.line_height_spec() > 0,
        point.y - top > 0,
        k * f.line_height_spec() <= point.y - top < (k + 1) * f.line_height_spec(),
    ensures
        line_at(f, top, point) == k,
{
    let h = f.line_height_spec() as int;
    let y = point.y - top;
    assert(y / h == k) by (nonlinear_arith)
        requires
            h > 0,
            k * h <= y < (k + 1) * h,
    {
        vstd::arithmetic::div_mod::lemma_fundamental_div_mod(y, h);
    }
}


/// Moving `x` past characters by their widths, one after the other, adds
/// up their widths while the total stays within the `i32` range.
proof fn lemma_advanced_adds_widths(cs: Seq<TextCharacter>, x: i32, from: nat, to: nat)
    requires
        x + widths_between(cs, from, to) <= i32::MAX,
    ensures
        widths_between(cs, from, to) >= 0,
        advanced(cs, x, from, to) == x + widths_between(cs, from, to),
    decreases to - from,
{
    if from < to {
        let w: int = match super::file::character_at(cs, from) {
            Some(c) => c.source.width as int,
            None => 0,
        };
        lemma_widths_nonnegative(cs, from + 1, to);
        assert(x + w <= i32::MAX);
        let x1: i32 = (x + w) as i32;
        assert(crate::geometry::clamp_i32(x + w) == x1);
        lemma_advanced_adds_widths(cs, x1, from + 1, to);
    }
}

proof fn lemma_widths_nonnegative(cs: Seq<TextCharacter>, from: nat, to: nat)
    ensures
        widths_between(cs, from, to) >= 0,
    decreases to - from,
{
    if from < to {
        lemma_widths_nonnegative(cs, from + 1, to);
    }
}

/// Typing a non-empty text moves the caret right of where the character at
/// the old caret position was drawn, by the sum of the widths of the typed
/// characters as the new layout draws them, while that sum stays within the
/// `i32` range.
pub proof fn law_typing_moves_caret_by_widths(before: FileEditor, after: FileEditor, text: Seq<char>, config: Config)
    requires
        after_insert_text(before, after, text, config),
        before.file_of() is Some,
        after.file_of() is Some,
        text.len() > 0,
        laid_out_between(
            after.file_of()->0.chars(),
            before.caret_of().position.text_position as nat,
            (before.caret_of().position.text_position + text.len()) as nat,
        ),
        anchor(before.file_of()->0, before.caret_of().position.text_position as nat).x + widths_between(
            after.file_of()->0.chars(),
            before.caret_of().position.text_position as nat,
            (before.caret_of().position.text_position + text.len()) as nat,
        ) <= i32::MAX,
    ensures
        after.caret_of().dest.x == anchor(before.file_of()->0, before.caret_of().position.text_position as nat).x
            + widths_between(
            after.file_of()->0.chars(),
            before.caret_of().position.text_position as nat,
            (before.caret_of().position.text_position + text.len()) as nat,
        ),
{
    let tp = before.caret_of().position.text_position as nat;
    let f = before.file_of()->0;
    let n = after.file_of()->0;
    lemma_advanced_adds_widths(n.chars(), anchor(f, tp).x, tp, (tp + text.len()) as nat);
}

} // verus!
