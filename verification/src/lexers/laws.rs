//! What every lexer keeps: its tokens spell out the text they were read
//! from, in order, and their byte ranges follow one another without gaps.

use vstd::prelude::*;
use crate::text::{byte_len, lemma_byte_len_concat};
use super::TokenView;
use super::scan::{best_match, identifier_len, in_class, is_digit, is_ident_stop, is_plain_space, keyword_len_from, keywords, run_len, rust_best, scan, scan_from, start_state, state_after, token_at, word_at, word_len, CharClass, Grammar, ScanState};
use super::toml::{cleared, count_breaks, emit, flush, flush_with, is_bracket, is_quoted, pending_kind, run_tokens, step, toml_tokens, with_char, TomlState};
use super::TokenKind;

verus! {

/// The texts of the tokens, one after the other.
pub open spec fn concat_texts(ts: Seq<TokenView>) -> Seq<char>
    decreases ts.len(),
{
    if ts.len() == 0 {
        Seq::empty()
    } else {
        ts[0].text + concat_texts(ts.drop_first())
    }
}

/// The tokens cover consecutive byte ranges from `offset` on: each token
/// starts where the previous one ended and spans the bytes of its text.
pub open spec fn tiled(ts: Seq<TokenView>, offset: nat) -> bool
    decreases ts.len(),
{
    if ts.len() == 0 {
        true
    } else {
        &&& ts[0].start == offset
        &&& ts[0].end == offset + byte_len(ts[0].text)
        &&& tiled(ts.drop_first(), ts[0].end)
    }
}

/// No token has an empty text.
pub open spec fn all_non_empty(ts: Seq<TokenView>) -> bool {
    forall|k: int| 0 <= k < ts.len() ==> #[trigger] ts[k].text.len() > 0
}

pub proof fn lemma_single_token(t: TokenView, offset: nat)
    ensures
        concat_texts(seq![t]) == t.text,
        tiled(seq![t], offset) <==> (t.start == offset && t.end == offset + byte_len(t.text)),
{
    let one = seq![t];
    assert(one.drop_first() =~= Seq::<TokenView>::empty());
    assert(concat_texts(one.drop_first()) == Seq::<char>::empty());
    assert(tiled(one.drop_first(), t.end));
    assert(t.text + Seq::<char>::empty() =~= t.text);
}

pub proof fn lemma_concat_texts_append(a: Seq<TokenView>, b: Seq<TokenView>)
    ensures
        concat_texts(a + b) == concat_texts(a) + concat_texts(b),
    decreases a.len(),
{
    if a.len() == 0 {
        assert(a + b =~= b);
        assert(concat_texts(a) + concat_texts(b) =~= concat_texts(b));
    } else {
        lemma_concat_texts_append(a.drop_first(), b);
        assert((a + b).drop_first() =~= a.drop_first() + b);
        assert((a + b)[0] == a[0]);
        assert(a[0].text + (concat_texts(a.drop_first()) + concat_texts(b)) =~= (a[0].text
            + concat_texts(a.drop_first())) + concat_texts(b));
    }
}

pub proof fn lemma_tiled_append(a: Seq<TokenView>, b: Seq<TokenView>, offset: nat)
    requires
        tiled(a, offset),
        tiled(b, offset + byte_len(concat_texts(a))),
    ensures
        tiled(a + b, offset),
    decreases a.len(),
{
    if a.len() == 0 {
        assert(a + b =~= b);
    } else {
        lemma_byte_len_concat(a[0].text, concat_texts(a.drop_first()));
        lemma_tiled_append(a.drop_first(), b, a[0].end);
        assert((a + b).drop_first() =~= a.drop_first() + b);
        assert((a + b)[0] == a[0]);
    }
}

// ----- longest-match scanning -----

/// Where scanning from `st` stops.
pub open spec fn scan_end(g: Grammar, s: Seq<char>, st: ScanState) -> nat
    decreases s.len() - st.pos,
{
    let (kind, n) = best_match(g, s, st.pos as int);
    if st.pos < s.len() && 0 < n && st.pos + n <= s.len() {
        scan_end(g, s, state_after(s, st, kind, n))
    } else {
        st.pos
    }
}

pub proof fn lemma_run_len_fits(s: Seq<char>, i: int, class: CharClass)
    requires
        0 <= i <= s.len(),
    ensures
        i + run_len(s, i, class) <= s.len(),
    decreases s.len() - i,
{
    if i < s.len() && in_class(s[i], class) {
        lemma_run_len_fits(s, i + 1, class);
    }
}

pub proof fn lemma_keyword_len_fits(s: Seq<char>, i: int, k: int)
    requires
        0 <= i <= s.len(),
    ensures
        i + keyword_len_from(s, i, k) <= s.len(),
    decreases keywords().len() - k,
{
    if 0 <= k < keywords().len() {
        lemma_keyword_len_fits(s, i, k + 1);
    }
}

/// A match never runs past the end of the text.
pub proof fn lemma_best_match_fits(g: Grammar, s: Seq<char>, i: int)
    requires
        0 <= i <= s.len(),
    ensures
        i + best_match(g, s, i).1 <= s.len(),
{
    lemma_run_len_fits(s, i, CharClass::Space);
    lemma_run_len_fits(s, i, CharClass::Tab);
    lemma_run_len_fits(s, i, CharClass::Digit);
    lemma_run_len_fits(s, i, CharClass::Word);
    lemma_keyword_len_fits(s, i, 0);
    if i + 1 <= s.len() {
        lemma_run_len_fits(s, i + 1, CharClass::IdentTail);
    }
    if i + 2 <= s.len() {
        lemma_run_len_fits(s, i + 2, CharClass::IdentTail);
    }
    if 0 <= i < s.len() && is_digit(s[i]) {
        let d = run_len(s, i, CharClass::Digit);
        if i + d + 1 < s.len() {
            lemma_run_len_fits(s, i + d + 1, CharClass::Digit);
        }
    }
}

/// The tokens of a scan spell out the text from where it began to where it
/// stopped, and cover consecutive byte ranges; scanning stops only at the end
/// of the text or where no rule matches.
pub proof fn lemma_scan_spells_text(g: Grammar, s: Seq<char>, st: ScanState)
    requires
        st.pos <= s.len(),
    ensures
        st.pos <= scan_end(g, s, st) <= s.len(),
        concat_texts(scan_from(g, s, st)) == s.subrange(st.pos as int, scan_end(g, s, st) as int),
        tiled(scan_from(g, s, st), st.offset),
        all_non_empty(scan_from(g, s, st)),
        scan_end(g, s, st) == s.len() || best_match(g, s, scan_end(g, s, st) as int).1 == 0,
    decreases s.len() - st.pos,
{
    let (kind, n) = best_match(g, s, st.pos as int);
    lemma_best_match_fits(g, s, st.pos as int);
    if st.pos < s.len() && 0 < n && st.pos + n <= s.len() {
        let st2 = state_after(s, st, kind, n);
        lemma_scan_spells_text(g, s, st2);
        let t = token_at(g, s, st, kind, n);
        let rest = scan_from(g, s, st2);
        assert(scan_from(g, s, st) == seq![t] + rest);
        lemma_concat_texts_append(seq![t], rest);
        lemma_single_token(t, st.offset);
        assert(t.text + s.subrange(st2.pos as int, scan_end(g, s, st2) as int) =~= s.subrange(
            st.pos as int,
            scan_end(g, s, st2) as int,
        ));
        lemma_tiled_append(seq![t], rest, st.offset);
        assert forall|k: int| 0 <= k < scan_from(g, s, st).len() implies #[trigger] scan_from(
            g,
            s,
            st,
        )[k].text.len() > 0 by {
            if k > 0 {
                assert(scan_from(g, s, st)[k] == rest[k - 1]);
            }
        }
    } else {
        assert(s.subrange(st.pos as int, st.pos as int) =~= Seq::<char>::empty());
    }
}

/// A plain-text scan reads the whole text: its tokens spell the text out and
/// cover its bytes one after the other from offset zero.
pub proof fn law_plain_tokens_spell_text(s: Seq<char>)
    ensures
        concat_texts(scan(Grammar::Plain, s)) == s,
        tiled(scan(Grammar::Plain, s), 0),
        all_non_empty(scan(Grammar::Plain, s)),
{
    lemma_scan_spells_text(Grammar::Plain, s, start_state());
    let e = scan_end(Grammar::Plain, s, start_state());
    if e < s.len() {
        assert(best_match(Grammar::Plain, s, e as int).1 > 0) by {
            if !is_plain_space(s[e as int]) {
                assert(in_class(s[e as int], CharClass::Word));
            }
        }
    }
    assert(s.subrange(0, s.len() as int) =~= s);
}

/// A Rust scan spells out a prefix of the text; what it leaves, if
/// anything, starts where no rule matches.
pub proof fn law_rust_tokens_spell_prefix(s: Seq<char>)
    ensures
        concat_texts(scan(Grammar::Rust, s)) == s.take(scan_end(Grammar::Rust, s, start_state()) as int),
        scan_end(Grammar::Rust, s, start_state()) == s.len() || rust_best(
            s,
            scan_end(Grammar::Rust, s, start_state()) as int,
        ).1 == 0,
        tiled(scan(Grammar::Rust, s), 0),
        all_non_empty(scan(Grammar::Rust, s)),
{
    lemma_scan_spells_text(Grammar::Rust, s, start_state());
}

// ----- TOML -----

proof fn lemma_emit_single(st: TomlState, kind: TokenKind)
    ensures
        concat_texts(seq![emit(st, kind)]) == st.buffer,
        tiled(seq![emit(st, kind)], st.start),
{
    lemma_single_token(emit(st, kind), st.start);
}

proof fn lemma_flush_facts(st: TomlState)
    ensures
        concat_texts(flush(st).0) + flush(st).1.buffer == st.buffer,
        tiled(flush(st).0, st.start),
        flush(st).1.start == st.start + byte_len(concat_texts(flush(st).0)),
        all_non_empty(flush(st).0),
{
    if st.buffer.len() == 0 {
        assert(concat_texts(Seq::<TokenView>::empty()) + st.buffer =~= st.buffer);
    } else {
        lemma_emit_single(st, pending_kind(st.buffer));
        assert(st.buffer + Seq::<char>::empty() =~= st.buffer);
    }
}

/// One character read: the tokens it lets out and what stays pending spell
/// the old pending text with the character added.
proof fn lemma_step_facts(st: TomlState, c: char)
    ensures
        concat_texts(step(st, c).0) + step(st, c).1.buffer == st.buffer.push(c),
        tiled(step(st, c).0, st.start),
        step(st, c).1.start == st.start + byte_len(concat_texts(step(st, c).0)),
        all_non_empty(step(st, c).0),
{
    let quoted = is_quoted(st.buffer);
    if ((c == ' ' || c == '\n') && !quoted) || (is_bracket(c) && !quoted) || (c == '=' && !quoted) {
        let kind = if (c == ' ' || c == '\n') {
            TokenKind::Whitespace
        } else if is_bracket(c) {
            TokenKind::Separator
        } else {
            TokenKind::Operator
        };
        assert(step(st, c) == flush_with(st, c, kind));
        let (a, s1) = flush(st);
        lemma_flush_facts(st);
        let s2 = with_char(s1, c);
        lemma_emit_single(s2, kind);
        lemma_concat_texts_append(a, seq![emit(s2, kind)]);
        assert(concat_texts(a) + s2.buffer =~= st.buffer.push(c));
        assert(concat_texts(a + seq![emit(s2, kind)]) + Seq::<char>::empty() =~= st.buffer.push(c));
        lemma_tiled_append(a, seq![emit(s2, kind)], st.start);
        lemma_byte_len_concat(concat_texts(a), s2.buffer);
        assert forall|k: int| 0 <= k < (a + seq![emit(s2, kind)]).len() implies #[trigger] (a + seq![emit(s2, kind)])[k].text.len() > 0 by {
            if k < a.len() {
                assert((a + seq![emit(s2, kind)])[k] == a[k]);
            }
        }
    } else if (c == '"' || c == '\'') && quoted && st.buffer[0] == c {
        let s1 = with_char(st, c);
        lemma_emit_single(s1, TokenKind::Text);
        assert(st.buffer.push(c) + Seq::<char>::empty() =~= st.buffer.push(c));
    } else {
        assert(concat_texts(Seq::<TokenView>::empty()) + st.buffer.push(c) =~= st.buffer.push(c));
    }
}

proof fn lemma_run_facts(st: TomlState, s: Seq<char>)
    ensures
        concat_texts(run_tokens(st, s)) == st.buffer + s,
        tiled(run_tokens(st, s), st.start),
        all_non_empty(run_tokens(st, s)),
    decreases s.len(),
{
    if s.len() == 0 {
        if st.buffer.len() == 0 {
            assert(st.buffer + s =~= Seq::<char>::empty());
        } else {
            lemma_emit_single(st, TokenKind::Identifier);
            assert(st.buffer + s =~= st.buffer);
        }
    } else {
        let (a, st1) = step(st, s[0]);
        lemma_step_facts(st, s[0]);
        lemma_run_facts(st1, s.drop_first());
        let rest = run_tokens(st1, s.drop_first());
        lemma_concat_texts_append(a, rest);
        assert(concat_texts(a) + (st1.buffer + s.drop_first()) =~= st.buffer + s) by {
            assert(concat_texts(a) + st1.buffer == st.buffer.push(s[0]));
            assert(st.buffer.push(s[0]) + s.drop_first() =~= st.buffer + s);
            assert(concat_texts(a) + (st1.buffer + s.drop_first()) =~= (concat_texts(a) + st1.buffer) + s.drop_first());
        }
        lemma_tiled_append(a, rest, st.start);
        assert forall|k: int| 0 <= k < (a + rest).len() implies #[trigger] (a + rest)[k].text.len() > 0 by {
            if k < a.len() {
                assert((a + rest)[k] == a[k]);
            } else {
                assert((a + rest)[k] == rest[k - a.len()]);
            }
        }
    }
}

/// The TOML lexer reads the whole text: its tokens spell the text out and
/// cover its bytes one after the other from offset zero.
pub proof fn law_toml_tokens_spell_text(s: Seq<char>)
    ensures
        concat_texts(toml_tokens(s)) == s,
        tiled(toml_tokens(s), 0),
        all_non_empty(toml_tokens(s)),
{
    lemma_run_facts(super::toml::start_state(), s);
    assert(Seq::<char>::empty() + s =~= s);
}

/// Every token lies on the first line and starts at the column equal to its
/// byte offset.
pub open spec fn on_first_line(ts: Seq<TokenView>) -> bool {
    forall|k: int| 0 <= k < ts.len() ==> #[trigger] ts[k].line == 0 && ts[k].character == ts[k].start
}

proof fn lemma_no_breaks(b: Seq<char>)
    requires
        forall|i: int| 0 <= i < b.len() ==> b[i] != '\n',
    ensures
        count_breaks(b) == 0,
    decreases b.len(),
{
    if b.len() > 0 {
        lemma_no_breaks(b.drop_last());
    }
}

proof fn lemma_on_first_line_append(a: Seq<TokenView>, b: Seq<TokenView>)
    requires
        on_first_line(a),
        on_first_line(b),
    ensures
        on_first_line(a + b),
{
    assert forall|k: int| 0 <= k < (a + b).len() implies #[trigger] (a + b)[k].line == 0 && (a + b)[k].character == (
    a + b)[k].start by {
        if k < a.len() {
            assert((a + b)[k] == a[k]);
            assert(a[k].line == 0);
        } else {
            assert((a + b)[k] == b[k - a.len()]);
            assert(b[k - a.len()].line == 0);
        }
    }
}

/// A state on the first line whose column is its offset and whose pending
/// characters hold no line break.
spec fn flat_state(st: TomlState) -> bool {
    &&& st.line == 0
    &&& st.character == st.start
    &&& forall|i: int| 0 <= i < st.buffer.len() ==> st.buffer[i] != '\n'
}

proof fn lemma_cleared_flat(st: TomlState)
    requires
        flat_state(st),
    ensures
        flat_state(cleared(st)),
        on_first_line(seq![emit(st, TokenKind::Identifier)]),
{
    lemma_no_breaks(st.buffer);
}

proof fn lemma_step_flat(st: TomlState, c: char)
    requires
        flat_state(st),
        c != '\n',
    ensures
        flat_state(step(st, c).1),
        on_first_line(step(st, c).0),
{
    lemma_no_breaks(st.buffer);
    let quoted = is_quoted(st.buffer);
    if (c == ' ' || c == '\n') && !quoted || is_bracket(c) && !quoted || c == '=' && !quoted {
        let (a, s1) = flush(st);
        let s2 = with_char(s1, c);
        assert(flat_state(s1));
        assert(flat_state(s2)) by {
            assert forall|i: int| 0 <= i < s2.buffer.len() implies s2.buffer[i] != '\n' by {
                if i < s1.buffer.len() {
                    assert(s2.buffer[i] == s1.buffer[i]);
                }
            }
        }
        lemma_no_breaks(s2.buffer);
        let kind = if c == ' ' || c == '\n' {
            TokenKind::Whitespace
        } else if is_bracket(c) {
            TokenKind::Separator
        } else {
            TokenKind::Operator
        };
        assert(on_first_line(seq![emit(s2, kind)]));
        lemma_on_first_line_append(a, seq![emit(s2, kind)]);
    } else {
        let s1 = with_char(st, c);
        assert(flat_state(s1)) by {
            assert forall|i: int| 0 <= i < s1.buffer.len() implies s1.buffer[i] != '\n' by {
                if i < st.buffer.len() {
                    assert(s1.buffer[i] == st.buffer[i]);
                }
            }
        }
        lemma_no_breaks(s1.buffer);
    }
}

proof fn lemma_run_flat(st: TomlState, s: Seq<char>)
    requires
        flat_state(st),
        forall|i: int| 0 <= i < s.len() ==> s[i] != '\n',
    ensures
        on_first_line(run_tokens(st, s)),
    decreases s.len(),
{
    if s.len() == 0 {
        lemma_cleared_flat(st);
    } else {
        lemma_step_flat(st, s[0]);
        let (a, st1) = step(st, s[0]);
        lemma_run_flat(st1, s.drop_first());
        lemma_on_first_line_append(a, run_tokens(st1, s.drop_first()));
    }
}

/// A TOML text without a line break gives tokens that all lie on the first
/// line, each at the column equal to its byte offset.
pub proof fn law_toml_single_line(s: Seq<char>)
    requires
        !s.contains('\n'),
    ensures
        on_first_line(toml_tokens(s)),
{
    assert forall|i: int| 0 <= i < s.len() implies s[i] != '\n' by {
        if s[i] == '\n' {
            assert(s.contains('\n'));
        }
    }
    lemma_run_flat(super::toml::start_state(), s);
}

proof fn lemma_first_token_at_state(st: TomlState, s: Seq<char>)
    ensures
        run_tokens(st, s).len() > 0 ==> {
            let t = run_tokens(st, s)[0];
            t.line == st.line && t.character == st.character && t.start == st.start
        },
    decreases s.len(),
{
    if s.len() > 0 {
        let (a, st1) = step(st, s[0]);
        lemma_first_token_at_state(st1, s.drop_first());
        if a.len() == 0 {
            assert(run_tokens(st, s) =~= run_tokens(st1, s.drop_first()));
            assert(st1.line == st.line && st1.character == st.character && st1.start == st.start);
        } else {
            assert(run_tokens(st, s)[0] == a[0]);
        }
    }
}

/// A non-empty TOML text gives at least one token, and the first one stands
/// on line 0, column 0, byte offset 0.
pub proof fn law_toml_first_token(s: Seq<char>)
    requires
        s.len() > 0,
    ensures
        toml_tokens(s).len() > 0,
        toml_tokens(s)[0].line == 0,
        toml_tokens(s)[0].character == 0,
        toml_tokens(s)[0].start == 0,
{
    law_toml_tokens_spell_text(s);
    if toml_tokens(s).len() == 0 {
        assert(concat_texts(toml_tokens(s)) == Seq::<char>::empty());
    }
    lemma_first_token_at_state(super::toml::start_state(), s);
}

/// The tokens' lines never go back, and none is before line `l`.
pub open spec fn lines_from(ts: Seq<TokenView>, l: nat) -> bool {
    &&& forall|i: int, j: int| 0 <= i < j < ts.len() ==> #[trigger] ts[i].line <= #[trigger] ts[j].line
    &&& forall|i: int| 0 <= i < ts.len() ==> l <= #[trigger] ts[i].line
}

proof fn lemma_lines_from_append(a: Seq<TokenView>, b: Seq<TokenView>, l: nat, m: nat)
    requires
        lines_from(a, l),
        lines_from(b, m),
        l <= m,
        forall|i: int| 0 <= i < a.len() ==> #[trigger] a[i].line <= m,
    ensures
        lines_from(a + b, l),
{
    let ab = a + b;
    assert forall|i: int, j: int| 0 <= i < j < ab.len() implies #[trigger] ab[i].line <= #[trigger] ab[j].line by {
        if j < a.len() {
            assert(ab[i] == a[i] && ab[j] == a[j]);
        } else if i < a.len() {
            assert(ab[i] == a[i] && ab[j] == b[j - a.len()]);
            assert(a[i].line <= m);
            assert(m <= b[j - a.len()].line);
        } else {
            assert(ab[i] == b[i - a.len()] && ab[j] == b[j - a.len()]);
        }
    }
    assert forall|i: int| 0 <= i < ab.len() implies l <= #[trigger] ab[i].line by {
        if i < a.len() {
            assert(ab[i] == a[i]);
        } else {
            assert(ab[i] == b[i - a.len()]);
        }
    }
}

proof fn lemma_scan_lines(g: Grammar, s: Seq<char>, st: ScanState)
    ensures
        lines_from(scan_from(g, s, st), st.line),
    decreases s.len() - st.pos,
{
    let (kind, n) = best_match(g, s, st.pos as int);
    if st.pos < s.len() && 0 < n && st.pos + n <= s.len() {
        let t = token_at(g, s, st, kind, n);
        let st2 = state_after(s, st, kind, n);
        lemma_scan_lines(g, s, st2);
        let rest = scan_from(g, s, st2);
        assert(lines_from(seq![t], st.line));
        lemma_lines_from_append(seq![t], rest, st.line, st2.line);
        assert(scan_from(g, s, st) == seq![t] + rest);
    } else {
        assert(scan_from(g, s, st) =~= Seq::<TokenView>::empty());
    }
}

proof fn lemma_step_lines(st: TomlState, c: char)
    ensures
        lines_from(step(st, c).0, st.line),
        forall|i: int| 0 <= i < step(st, c).0.len() ==> #[trigger] step(st, c).0[i].line <= step(st, c).1.line,
        st.line <= step(st, c).1.line,
{
    let quoted = is_quoted(st.buffer);
    if (c == ' ' || c == '\n') && !quoted || is_bracket(c) && !quoted || c == '=' && !quoted {
        let (a, s1) = flush(st);
        let s2 = with_char(s1, c);
        let kind = if c == ' ' || c == '\n' {
            TokenKind::Whitespace
        } else if is_bracket(c) {
            TokenKind::Separator
        } else {
            TokenKind::Operator
        };
        assert(st.line <= s1.line);
        assert(lines_from(a, st.line));
        assert(forall|i: int| 0 <= i < a.len() ==> #[trigger] a[i].line <= s1.line);
        assert(lines_from(seq![emit(s2, kind)], s1.line));
        lemma_lines_from_append(a, seq![emit(s2, kind)], st.line, s1.line);
        assert(step(st, c).0 == a + seq![emit(s2, kind)]);
        assert(cleared(s2).line >= s2.line);
        let ts = a + seq![emit(s2, kind)];
        assert forall|i: int| 0 <= i < ts.len() implies #[trigger] ts[i].line <= cleared(s2).line by {
            if i < a.len() {
                assert(ts[i] == a[i]);
            } else {
                assert(ts[i] == emit(s2, kind));
            }
        }
    } else if (c == '"' || c == '\'') && quoted && st.buffer[0] == c {
        let s1 = with_char(st, c);
        assert(lines_from(seq![emit(s1, TokenKind::Text)], st.line));
    } else {
        assert(step(st, c).0 =~= Seq::<TokenView>::empty());
    }
}

proof fn lemma_run_lines(st: TomlState, s: Seq<char>)
    ensures
        lines_from(run_tokens(st, s), st.line),
    decreases s.len(),
{
    if s.len() == 0 {
        if st.buffer.len() == 0 {
            assert(run_tokens(st, s) =~= Seq::<TokenView>::empty());
        } else {
            assert(lines_from(seq![emit(st, TokenKind::Identifier)], st.line));
        }
    } else {
        let (a, st1) = step(st, s[0]);
        lemma_step_lines(st, s[0]);
        lemma_run_lines(st1, s.drop_first());
        lemma_lines_from_append(a, run_tokens(st1, s.drop_first()), st.line, st1.line);
    }
}

/// Whatever the language, the tokens' lines never go back: a later token
/// never stands on an earlier line.
pub proof fn law_lexed_lines_in_order(s: Seq<char>, language: super::Language)
    ensures
        lines_from(super::lexed(s, language), 0),
{
    match language {
        super::Language::PlainText => lemma_scan_lines(Grammar::Plain, s, start_state()),
        super::Language::Rust => lemma_scan_lines(Grammar::Rust, s, start_state()),
        super::Language::Toml => lemma_run_lines(super::toml::start_state(), s),
    }
}

/// Whatever the language, the tokens spell out a prefix of the text.
pub proof fn law_lexed_spells_prefix(s: Seq<char>, language: super::Language)
    ensures
        concat_texts(super::lexed(s, language)).len() <= s.len(),
        concat_texts(super::lexed(s, language)) == s.take(concat_texts(super::lexed(s, language)).len() as int),
        all_non_empty(super::lexed(s, language)),
{
    match language {
        super::Language::PlainText => {
            law_plain_tokens_spell_text(s);
            assert(s.take(s.len() as int) =~= s);
        },
        super::Language::Rust => {
            law_rust_tokens_spell_prefix(s);
            lemma_scan_spells_text(Grammar::Rust, s, start_state());
        },
        super::Language::Toml => {
            law_toml_tokens_spell_text(s);
            assert(s.take(s.len() as int) =~= s);
        },
    }
}

/// The texts of the first `k + 1` tokens are those of the first `k` and then
/// that of token `k`.
pub proof fn lemma_concat_texts_take(ts: Seq<TokenView>, k: int)
    requires
        0 <= k < ts.len(),
    ensures
        concat_texts(ts.take(k + 1)) == concat_texts(ts.take(k)) + ts[k].text,
        concat_texts(ts.take(k + 1)).len() <= concat_texts(ts).len(),
{
    assert(ts.take(k + 1) =~= ts.take(k) + seq![ts[k]]);
    lemma_concat_texts_append(ts.take(k), seq![ts[k]]);
    lemma_single_token(ts[k], 0);
    assert(ts =~= ts.take(k + 1) + ts.skip(k + 1));
    lemma_concat_texts_append(ts.take(k + 1), ts.skip(k + 1));
}


// ----- the words of the Rust keyword rule -----

pub open spec fn is_letter(c: char) -> bool {
    ('a' <= c && c <= 'z') || ('A' <= c && c <= 'Z')
}

pub open spec fn is_letter_or_digit(c: char) -> bool {
    is_letter(c) || is_digit(c)
}

/// `w[m..]` is made of letters and digits.
spec fn alnum_from(w: Seq<char>, m: nat) -> bool
    decreases w.len() - m,
{
    if m < w.len() {
        is_letter_or_digit(w[m as int]) && alnum_from(w, m + 1)
    } else {
        true
    }
}

/// A word that starts with a letter and goes on with letters and digits.
spec fn word_shaped(w: Seq<char>) -> bool {
    w.len() > 0 && is_letter(w[0]) && alnum_from(w, 0)
}

/// Every entry of `keywords()[k..]` is word-shaped.
spec fn keywords_word_shaped_from(k: nat) -> bool
    decreases keywords().len() - k,
{
    if k < keywords().len() {
        word_shaped(keywords()[k as int]) && keywords_word_shaped_from(k + 1)
    } else {
        true
    }
}

proof fn lemma_alnum_from(w: Seq<char>, m: nat)
    requires
        alnum_from(w, m),
    ensures
        forall|j: int| m <= j < w.len() ==> is_letter_or_digit(#[trigger] w[j]),
    decreases w.len() - m,
{
    if m < w.len() {
        lemma_alnum_from(w, m + 1);
    }
}

proof fn lemma_keywords_word_shaped_from(k: nat)
    requires
        keywords_word_shaped_from(k),
    ensures
        forall|j: int| k <= j < keywords().len() ==> word_shaped(#[trigger] keywords()[j]),
    decreases keywords().len() - k,
{
    if k < keywords().len() {
        lemma_keywords_word_shaped_from(k + 1);
    }
}

proof fn lemma_keywords_word_shaped()
    ensures
        forall|j: int| 0 <= j < keywords().len() ==> word_shaped(#[trigger] keywords()[j]),
{
    reveal_with_fuel(keywords_word_shaped_from, 19);
    reveal_with_fuel(alnum_from, 7);
    assert(keywords_word_shaped_from(0));
    lemma_keywords_word_shaped_from(0);
}

/// The keyword length at `i` is at least that of any keyword from the `k`-th on.
proof fn lemma_keyword_len_at_least(s: Seq<char>, i: int, k: int, idx: int)
    requires
        0 <= k <= idx < keywords().len(),
    ensures
        keyword_len_from(s, i, k) >= word_len(s, i, keywords()[idx]),
    decreases idx - k,
{
    if k < idx {
        lemma_keyword_len_at_least(s, i, k + 1, idx);
    }
}

/// Where the character at `n` ends an identifier (or the text ends there),
/// no keyword that occurs at the start of the text is longer than `n`.
proof fn lemma_keyword_len_at_most(s: Seq<char>, n: nat, k: int)
    requires
        n <= s.len(),
        n == s.len() || is_ident_stop(s[n as int]),
        0 <= k,
    ensures
        keyword_len_from(s, 0, k) <= n,
    decreases keywords().len() - k,
{
    if k < keywords().len() {
        lemma_keyword_len_at_most(s, n, k + 1);
        let kw = keywords()[k];
        lemma_keywords_word_shaped();
        assert(word_shaped(kw));
        if word_at(s, 0, kw) && kw.len() > n {
            lemma_alnum_from(kw, 0);
            assert(s.subrange(0, kw.len() as int)[n as int] == s[n as int]);
            assert(is_letter_or_digit(kw[n as int]));
        }
    }
}

proof fn lemma_run_len_exact(s: Seq<char>, i: int, j: int, class: CharClass)
    requires
        0 <= i <= j <= s.len(),
        forall|m: int| i <= m < j ==> in_class(#[trigger] s[m], class),
        j == s.len() || !in_class(s[j], class),
    ensures
        run_len(s, i, class) == j - i,
    decreases j - i,
{
    if i < j {
        lemma_run_len_exact(s, i + 1, j, class);
    }
}

proof fn lemma_byte_len_ascii(w: Seq<char>)
    requires
        forall|m: int| 0 <= m < w.len() ==> is_letter_or_digit(#[trigger] w[m]),
    ensures
        byte_len(w) == w.len(),
    decreases w.len(),
{
    if w.len() > 0 {
        lemma_byte_len_ascii(w.drop_last());
        assert(is_letter_or_digit(w[w.len() - 1]));
    }
}

/// Each word of the Rust keyword rule (`let`, `fn`, `type`, `struct`, `trait`,
/// `pub`, `impl`, `for`, `self`, `Self`, `mod`, `use`, `enum`, the spellings
/// `iu8`, `iu16`, `iu32` of its integer alternative, `usize`, `bool`) at the
/// start of a Rust text, followed by the end of the text or by a character
/// that ends an identifier, is lexed as one Keyword token holding that word,
/// on line 0 at column 0, over bytes 0 to the word's length.
pub proof fn law_rust_keyword_first(w: Seq<char>, rest: Seq<char>)
    requires
        w == seq!['l', 'e', 't'] || w == seq!['f', 'n'] || w == seq!['t', 'y', 'p', 'e']
            || w == seq!['s', 't', 'r', 'u', 'c', 't'] || w == seq!['t', 'r', 'a', 'i', 't']
            || w == seq!['p', 'u', 'b'] || w == seq!['i', 'm', 'p', 'l'] || w == seq!['f', 'o', 'r']
            || w == seq!['s', 'e', 'l', 'f'] || w == seq!['S', 'e', 'l', 'f'] || w == seq!['m', 'o', 'd']
            || w == seq!['u', 's', 'e'] || w == seq!['e', 'n', 'u', 'm'] || w == seq!['i', 'u', '8']
            || w == seq!['i', 'u', '1', '6'] || w == seq!['i', 'u', '3', '2']
            || w == seq!['u', 's', 'i', 'z', 'e'] || w == seq!['b', 'o', 'o', 'l'],
        rest.len() == 0 || is_ident_stop(rest[0]),
    ensures
        super::lexed(w + rest, super::Language::Rust).len() > 0,
        super::lexed(w + rest, super::Language::Rust)[0].kind == TokenKind::Keyword,
        super::lexed(w + rest, super::Language::Rust)[0].text == w,
        super::lexed(w + rest, super::Language::Rust)[0].line == 0,
        super::lexed(w + rest, super::Language::Rust)[0].character == 0,
        super::lexed(w + rest, super::Language::Rust)[0].start == 0,
        super::lexed(w + rest, super::Language::Rust)[0].end == w.len(),
{
    let s = w + rest;
    let n = w.len();
    let idx: int = if w == seq!['l', 'e', 't'] { 0 } else if w == seq!['f', 'n'] { 1 }
        else if w == seq!['t', 'y', 'p', 'e'] { 2 } else if w == seq!['s', 't', 'r', 'u', 'c', 't'] { 3 }
        else if w == seq!['t', 'r', 'a', 'i', 't'] { 4 } else if w == seq!['p', 'u', 'b'] { 5 }
        else if w == seq!['i', 'm', 'p', 'l'] { 6 } else if w == seq!['f', 'o', 'r'] { 7 }
        else if w == seq!['s', 'e', 'l', 'f'] { 8 } else if w == seq!['S', 'e', 'l', 'f'] { 9 }
        else if w == seq!['m', 'o', 'd'] { 10 } else if w == seq!['u', 's', 'e'] { 11 }
        else if w == seq!['e', 'n', 'u', 'm'] { 12 } else if w == seq!['i', 'u', '8'] { 13 }
        else if w == seq!['i', 'u', '1', '6'] { 14 } else if w == seq!['i', 'u', '3', '2'] { 15 }
        else if w == seq!['u', 's', 'i', 'z', 'e'] { 16 } else { 17 };
    assert(keywords()[idx] == w);
    lemma_keywords_word_shaped();
    assert(word_shaped(w));
    lemma_alnum_from(w, 0);
    assert(s.subrange(0, n as int) =~= w);
    assert forall|m: int| 0 <= m < n implies s[m] == w[m] by {}
    assert(word_at(s, 0, w));
    lemma_keyword_len_at_least(s, 0, 0, idx);
    lemma_keyword_len_at_most(s, n, 0);
    assert(n == s.len() || s[n as int] == rest[0]);
    lemma_run_len_exact(s, 1, n as int, CharClass::IdentTail);
    assert(identifier_len(s, 0) == n);
    assert(rust_best(s, 0) == (TokenKind::Keyword, n));
    let first = token_at(Grammar::Rust, s, start_state(), TokenKind::Keyword, n);
    assert(scan(Grammar::Rust, s) == seq![first] + scan_from(Grammar::Rust, s,
        state_after(s, start_state(), TokenKind::Keyword, n)));
    lemma_byte_len_ascii(w);
}

} // verus!
