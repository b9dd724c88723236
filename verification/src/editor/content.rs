//! Changing the text of the open file: typing, line breaks and deletions.
//! Each change builds the file anew from the changed text and lays it out.

use vstd::prelude::*;
use crate::caret::CaretPosition;
use crate::config::settings::Config;
use crate::geometry::{add_clamped, clamp_i32, Point};
use crate::text::{byte_len, char_width, chars_of, lemma_byte_len_concat, text_of};
use super::caret::Caret;
use super::file::{character_at, language_for, path_extension, EditorFile};
use super::file_editor::{same_bars, FileEditor};
use super::moves::corner;
use super::text_character::{CharacterSizeManager, TextCharacter};

verus! {

/// `n` is the file built from `text` at `path` with `config` and laid out.
pub open spec fn rebuilt(n: EditorFile, path: Seq<char>, text: Seq<char>, config: Config) -> bool {
    &&& n.wf()
    &&& n.prepared()
    &&& n.path_view() == path
    &&& n.text() == text
    &&& n.language_spec() == language_for(path_extension(path), config.extensions_mapping.as_map())
}

/// `s` with `ins` put in place of the `del` characters from `at`.
pub open spec fn splice(s: Seq<char>, at: int, del: int, ins: Seq<char>) -> Seq<char> {
    s.take(at) + ins + s.skip(at + del)
}

/// Where the caret was drawn before a change at text position `tp`: on the
/// character there, or at the origin when there is none.
pub open spec fn anchor(f: EditorFile, tp: nat) -> Point {
    match character_at(f.chars(), tp) {
        Some(c) => corner(c),
        None => Point { x: 0, y: 0 },
    }
}

/// The caret moved to `pos`, drawn on the character of `f` at its text
/// position, or put back at the start when there is none.
pub open spec fn caret_onto(caret: Caret, f: EditorFile, pos: CaretPosition) -> Caret {
    match character_at(f.chars(), pos.text_position as nat) {
        Some(c) => caret.moved_to(pos, corner(c)),
        None => caret.moved_to(CaretPosition { text_position: 0, line_number: 0, line_position: 0 }, Point { x: 0, y: 0 }),
    }
}

/// The index of the first line break in `s` from `from` on, or its length.
pub open spec fn next_break(s: Seq<char>, from: int) -> int
    decreases s.len() - from,
{
    if from >= s.len() {
        s.len() as int
    } else if s[from] == '\n' {
        from
    } else {
        next_break(s, from + 1)
    }
}

/// Where line `line` of `s` starts: just after its `line`-th line break, or
/// at the end when `s` has fewer.
pub open spec fn line_start(s: Seq<char>, line: nat) -> int
    decreases line,
{
    if line == 0 {
        0
    } else {
        let b = next_break(s, line_start(s, (line - 1) as nat));
        if b >= s.len() {
            s.len() as int
        } else {
            b + 1
        }
    }
}

/// Where line `line` of `s` ends, its line break included.
pub open spec fn line_end(s: Seq<char>, line: nat) -> int {
    let b = next_break(s, line_start(s, line));
    if b >= s.len() {
        s.len() as int
    } else {
        b + 1
    }
}

proof fn lemma_next_break(s: Seq<char>, from: int)
    requires
        0 <= from,
    ensures
        from <= next_break(s, from) <= s.len() || (from > s.len() && next_break(s, from) == s.len()),
        next_break(s, from) < s.len() ==> s[next_break(s, from)] == '\n',
    decreases s.len() - from,
{
    if from < s.len() && s[from] != '\n' {
        lemma_next_break(s, from + 1);
    }
}

proof fn lemma_line_start(s: Seq<char>, line: nat)
    ensures
        0 <= line_start(s, line) <= s.len(),
        0 <= line_start(s, line) <= line_end(s, line) <= s.len(),
    decreases line,
{
    if line > 0 {
        lemma_line_start(s, (line - 1) as nat);
        lemma_next_break(s, line_start(s, (line - 1) as nat));
    }
    lemma_next_break(s, line_start(s, line));
}

/// Past the end of the text, every further line starts at its end too.
proof fn lemma_line_start_at_end(s: Seq<char>, line: nat, later: nat)
    requires
        line <= later,
        line_start(s, line) == s.len(),
    ensures
        line_start(s, later) == s.len(),
    decreases later - line,
{
    if later > line {
        lemma_line_start_at_end(s, line, (later - 1) as nat);
    }
}

/// The first line break in `s` from `from` on, or its length.
fn find_break(s: &Vec<char>, from: usize) -> (r: usize)
    requires
        from <= s@.len(),
    ensures
        r == next_break(s@, from as int),
{
    let mut i = from;
    while i < s.len() && s[i] != '\n'
        invariant
            from <= i <= s@.len(),
            next_break(s@, from as int) == next_break(s@, i as int),
        decreases s@.len() - i,
    {
        i = i + 1;
    }
    i
}

/// The characters of `s` with those of `ins` in place of the `del` from `at`.
fn spliced(s: &Vec<char>, at: usize, del: usize, ins: &Vec<char>) -> (r: Vec<char>)
    requires
        at + del <= s@.len(),
    ensures
        r@ == splice(s@, at as int, del as int, ins@),
{
    let mut out: Vec<char> = Vec::new();
    let mut i: usize = 0;
    while i < at
        invariant
            i <= at,
            at + del <= s@.len(),
            out@ == s@.take(i as int),
        decreases at - i,
    {
        out.push(s[i]);
        i = i + 1;
        assert(out@ =~= s@.take(i as int));
    }
    let mut j: usize = 0;
    while j < ins.len()
        invariant
            j <= ins@.len(),
            out@ == s@.take(at as int) + ins@.take(j as int),
        decreases ins@.len() - j,
    {
        out.push(ins[j]);
        j = j + 1;
        assert(out@ =~= s@.take(at as int) + ins@.take(j as int));
    }
    let slen = s.len();
    let mut k: usize = at + del;
    assert(ins@.take(ins@.len() as int) =~= ins@);
    while k < s.len()
        invariant
            at + del <= k <= s@.len(),
            out@ == s@.take(at as int) + ins@ + s@.subrange(at + del, k as int),
        decreases s@.len() - k,
    {
        out.push(s[k]);
        k = k + 1;
        assert(out@ =~= s@.take(at as int) + ins@ + s@.subrange(at + del, k as int));
    }
    assert(s@.subrange(at + del, s@.len() as int) =~= s@.skip(at + del));
    out
}

/// Builds the file of `text` at `path` anew and lays it out.
fn rebuild<S: CharacterSizeManager>(path: String, text: &Vec<char>, sizes: &mut S, config: &Config) -> (r: EditorFile)
    requires
        config.wf(),
        byte_len(text@) <= usize::MAX,
    ensures
        rebuilt(r, path@, text@, *config),
{
    let n = text.len();
    assert(text@.subrange(0, n as int) =~= text@);
    let (buffer, _w) = text_of(text, 0, n);
    let mut file = EditorFile::new(path, buffer, config);
    file.prepare_ui(sizes, &config.theme.code_highlighting);
    file
}

/// The path of the open file, or an empty string.
pub fn current_file_path(file_editor: &FileEditor) -> (r: String)
    ensures
        r@ == match file_editor.file_of() {
            Some(f) => f.path_view(),
            None => Seq::<char>::empty(),
        },
{
    match file_editor.file() {
        Some(f) => f.path(),
        None => String::new(),
    }
}

/// What backspace leaves: see `delete_front`.
pub open spec fn after_delete_front(before: FileEditor, after: FileEditor, config: Config) -> bool {
    &&& same_bars(before, after)
    &&& after.dest_of() == before.dest_of()
    &&& ({
        let p = before.caret_of().position;
        match before.file_of() {
            None => after.file_of() is None && after.caret_of() == before.caret_of(),
            Some(f) => if p.text_position == 0 {
                after.file_of() == before.file_of()
                    && after.caret_of() == before.caret_of()
            } else {
                let back = if f.text()[p.text_position - 1] == '\n' {
                    CaretPosition {
                        text_position: (p.text_position - 1) as usize,
                        line_number: (p.line_number - 1) as usize,
                        ..p
                    }
                } else {
                    CaretPosition { text_position: (p.text_position - 1) as usize, ..p }
                };
                &&& after.caret_of() == caret_onto(before.caret_of(), f, back)
                &&& after.file_of() matches Some(n)
                &&& rebuilt(n, f.path_view(), f.text().remove(p.text_position - 1), config)
            },
        }
    })
}

/// When `delete_front` does not panic.
pub open spec fn can_delete_front(fe: FileEditor) -> bool {
    &&& fe.file_of() matches Some(f) ==> {
        let p = fe.caret_of().position;
        p.text_position > 0 ==> p.text_position <= f.text().len() && (f.text()[p.text_position - 1] == '\n'
            ==> p.line_number >= 1)
    }
}

/// What delete leaves: see `delete_back`.
pub open spec fn after_delete_back(before: FileEditor, after: FileEditor, config: Config) -> bool {
    &&& same_bars(before, after)
    &&& after.dest_of() == before.dest_of()
    &&& after.caret_of() == before.caret_of()
    &&& ({
        let tp = before.caret_of().position.text_position;
        match before.file_of() {
            None => after.file_of() is None,
            Some(f) => if tp >= f.text().len() {
                after.file_of() == before.file_of()
            } else {
                &&& after.file_of() matches Some(n)
                &&& rebuilt(n, f.path_view(), f.text().remove(tp as int), config)
            },
        }
    })
}

/// What typing `text` leaves: see `insert_text`.
pub open spec fn after_insert_text(before: FileEditor, after: FileEditor, text: Seq<char>, config: Config) -> bool {
    &&& same_bars(before, after)
    &&& after.dest_of() == before.dest_of()
    &&& ({
        let c = before.caret_of();
        let tp = c.position.text_position;
        match before.file_of() {
            None => after.file_of() is None && after.caret_of() == c,
            Some(f) => {
                &&& after.file_of() matches Some(n)
                &&& rebuilt(n, f.path_view(), splice(f.text(), tp as int, 0, text), config)
                &&& if text.len() == 0 {
                    after.caret_of() == c
                } else {
                    after.caret_of() == c.moved_to(
                        CaretPosition { text_position: (tp + text.len()) as usize, ..c.position },
                        Point { x: after.caret_of().dest.x, y: anchor(f, tp as nat).y },
                    )
                }
                &&& text.len() > 0 && laid_out_between(n.chars(), tp as nat, (tp + text.len()) as nat)
                    ==> after.caret_of().dest.x == advanced(n.chars(), anchor(f, tp as nat).x, tp as nat, (tp + text.len()) as nat)
            },
        }
    })
}

/// Every text position in `from..to` has a laid-out character of `cs`.
pub open spec fn laid_out_between(cs: Seq<TextCharacter>, from: nat, to: nat) -> bool {
    forall|p: nat| from <= p < to ==> #[trigger] character_at(cs, p) is Some
}

/// `x` moved right past the characters of `cs` at text positions
/// `from..to`, by the width of each in turn, held within the `i32` range.
pub open spec fn advanced(cs: Seq<TextCharacter>, x: i32, from: nat, to: nat) -> i32
    decreases to - from,
{
    if from < to {
        let w: int = match character_at(cs, from) {
            Some(c) => c.source.width as int,
            None => 0,
        };
        advanced(cs, clamp_i32(x + w), from + 1, to)
    } else {
        x
    }
}

/// The sum of the widths of the characters of `cs` at text positions
/// `from..to`.
pub open spec fn widths_between(cs: Seq<TextCharacter>, from: nat, to: nat) -> int
    decreases to - from,
{
    if from < to {
        let w: int = match character_at(cs, from) {
            Some(c) => c.source.width as int,
            None => 0,
        };
        w + widths_between(cs, from + 1, to)
    } else {
        0
    }
}

/// When `insert_text` does not panic.
pub open spec fn can_insert_text(fe: FileEditor, text: Seq<char>) -> bool {
    &&& fe.file_of() matches Some(f) ==> {
        &&& fe.caret_of().position.text_position <= f.text().len()
        &&& byte_len(f.text()) + byte_len(text) <= usize::MAX
    }
}

/// What breaking the line leaves: see `insert_new_line`.
pub open spec fn after_insert_new_line(before: FileEditor, after: FileEditor, config: Config) -> bool {
    &&& same_bars(before, after)
    &&& after.dest_of() == before.dest_of()
    &&& ({
        let c = before.caret_of();
        let p = c.position;
        match before.file_of() {
            None => after.file_of() is None && after.caret_of() == c,
            Some(f) => {
                &&& after.file_of() matches Some(n)
                &&& rebuilt(n, f.path_view(), splice(f.text(), p.text_position as int, 0, seq!['\n']), config)
                &&& exists|h: u32| after.caret_of() == #[trigger] c.moved_to(
                    CaretPosition {
                        text_position: (p.text_position + 1) as usize,
                        line_number: (p.line_number + 1) as usize,
                        line_position: 0,
                    },
                    Point { x: 0, y: clamp_i32(anchor(f, p.text_position as nat).y + h) },
                )
            },
        }
    })
}

/// When `insert_new_line` does not panic.
pub open spec fn can_insert_new_line(fe: FileEditor) -> bool {
    &&& fe.file_of() matches Some(f) ==> {
        let p = fe.caret_of().position;
        &&& p.text_position <= f.text().len()
        &&& byte_len(f.text()) + 1 <= usize::MAX
        &&& p.line_number < usize::MAX
        &&& p.line_position <= i32::MAX
    }
}

/// What deleting the caret's line leaves: see `delete_current_line`.
pub open spec fn after_delete_current_line(before: FileEditor, after: FileEditor, config: Config) -> bool {
    &&& same_bars(before, after)
    &&& after.dest_of() == before.dest_of()
    &&& ({
        let c = before.caret_of();
        let line = c.position.line_number as nat;
        match before.file_of() {
            None => after.file_of() is None && after.caret_of() == c,
            Some(f) => {
                let start = line_start(f.text(), line);
                let end = line_end(f.text(), line);
                &&& after.file_of() matches Some(n)
                &&& rebuilt(n, f.path_view(), f.text().take(start) + f.text().skip(end), config)
                &&& after.caret_of() == caret_onto(
                    c,
                    f,
                    CaretPosition { text_position: start as usize, line_number: line as usize, line_position: 0 },
                )
            },
        }
    })
}

/// Deletes the character before the caret and moves the caret back onto
/// it; past a line break, onto the end of the line above.
pub fn delete_front<S: CharacterSizeManager>(file_editor: &mut FileEditor, sizes: &mut S, config: &Config)
    requires
        old(file_editor).wf(),
        config.wf(),
        can_delete_front(*old(file_editor)),
    ensures
        final(file_editor).wf(),
        after_delete_front(*old(file_editor), *final(file_editor), *config),
{
    let file = match file_editor.file() {
        Some(f) => f,
        None => {
            return;
        },
    };
    let position = *file_editor.caret().position();
    if position.text_position() == 0 {
        return;
    }
    let tp = position.text_position();
    let chars = file.text_chars();
    let c = chars[tp - 1];
    let back = if c == '\n' && !position.is_first() {
        position.moved(-1, -1, 0)
    } else {
        position.moved(-1, 0, 0)
    };
    let target = file.get_character_at(back.text_position());
    let empty: Vec<char> = Vec::new();
    let text = spliced(chars, tp - 1, 1, &empty);
    let path = file.path();
    proof {
        file.lemma_positions();
        assert(text@ =~= file.text().remove(tp - 1));
        assert(file.text() =~= text@.take(tp - 1) + seq![c] + text@.skip(tp - 1));
        lemma_byte_len_concat(text@.take(tp - 1) + seq![c], text@.skip(tp - 1));
        lemma_byte_len_concat(text@.take(tp - 1), seq![c]);
        lemma_byte_len_concat(text@.take(tp - 1), text@.skip(tp - 1));
        assert(text@.take(tp - 1) + text@.skip(tp - 1) =~= text@);
    }
    match target {
        Some(ch) => file_editor.caret_mut().move_caret(back, ch.dest.top_left()),
        None => file_editor.caret_mut().reset_caret(),
    }
    let new_file = rebuild(path, &text, sizes, config);
    file_editor.replace_current_file(new_file);
}

/// Deletes the character after the caret, which stays where it is.
pub fn delete_back<S: CharacterSizeManager>(file_editor: &mut FileEditor, sizes: &mut S, config: &Config)
    requires
        old(file_editor).wf(),
        config.wf(),
    ensures
        final(file_editor).wf(),
        after_delete_back(*old(file_editor), *final(file_editor), *config),
{
    let file = match file_editor.file() {
        Some(f) => f,
        None => {
            return;
        },
    };
    let tp = file_editor.caret().text_position();
    let chars = file.text_chars();
    if tp >= chars.len() {
        return;
    }
    let c = chars[tp];
    let empty: Vec<char> = Vec::new();
    let text = spliced(chars, tp, 1, &empty);
    let path = file.path();
    proof {
        file.lemma_positions();
        assert(text@ =~= file.text().remove(tp as int));
        assert(file.text() =~= text@.take(tp as int) + seq![c] + text@.skip(tp as int));
        lemma_byte_len_concat(text@.take(tp as int) + seq![c], text@.skip(tp as int));
        lemma_byte_len_concat(text@.take(tp as int), seq![c]);
        lemma_byte_len_concat(text@.take(tp as int), text@.skip(tp as int));
        assert(text@.take(tp as int) + text@.skip(tp as int) =~= text@);
    }
    let new_file = rebuild(path, &text, sizes, config);
    file_editor.replace_current_file(new_file);
}

/// Types `text` at the caret, which moves past it, one character width at a
/// time along its line: by the width of each typed character as the new
/// layout draws it (as the size provider gives it, where the layout has no
/// character there).
pub fn insert_text<S: CharacterSizeManager>(file_editor: &mut FileEditor, text: String, sizes: &mut S, config: &Config)
    requires
        old(file_editor).wf(),
        config.wf(),
        can_insert_text(*old(file_editor), text@),
    ensures
        final(file_editor).wf(),
        after_insert_text(*old(file_editor), *final(file_editor), text@, *config),
{
    let file = match file_editor.file() {
        Some(f) => f,
        None => {
            return;
        },
    };
    let tp = file_editor.caret().text_position();
    let chars = file.text_chars();
    let ins = chars_of(text.as_str());
    let buffer = spliced(chars, tp, 0, &ins);
    let path = file.path();
    let mut pos = match file.get_character_at(tp) {
        Some(current) => current.dest.top_left(),
        None => Point::new(0, 0),
    };
    let ghost y = pos.y;
    proof {
        file.lemma_positions();
        lemma_byte_len_concat(chars@.take(tp as int), ins@);
        lemma_byte_len_concat(chars@.take(tp as int) + ins@, chars@.skip(tp as int));
        lemma_byte_len_concat(chars@.take(tp as int), chars@.skip(tp as int));
        assert(chars@.take(tp as int) + chars@.skip(tp as int) =~= chars@);
        crate::text::lemma_byte_len_ge_len(ins@);
        crate::text::lemma_byte_len_ge_len(chars@);
    }
    let ghost c0 = file_editor.caret_of();
    let ghost x0 = pos.x;
    let new_file = rebuild(path, &buffer, sizes, config);
    let ghost cs = new_file.chars();
    let end: usize = tp + ins.len();
    let mut position = *file_editor.caret().position();
    let mut i: usize = 0;
    while i < ins.len()
        invariant
            0 <= i <= ins@.len(),
            tp + ins@.len() <= usize::MAX,
            end == tp + ins@.len(),
            cs == new_file.chars(),
            position == (CaretPosition { text_position: (tp + i) as usize, ..c0.position }),
            pos.y == y,
            laid_out_between(cs, tp as nat, end as nat)
                ==> advanced(cs, x0, tp as nat, end as nat) == advanced(cs, pos.x, (tp + i) as nat, end as nat),
            file_editor.wf(),
            file_editor.file_of() == old(file_editor).file_of(),
            file_editor.dest_of() == old(file_editor).dest_of(),
            same_bars(*old(file_editor), *file_editor),
            i == 0 ==> file_editor.caret_of() == c0,
            i > 0 ==> file_editor.caret_of() == c0.moved_to(position, pos),
        decreases ins@.len() - i,
    {
        let width: u32 = match new_file.get_character_at(tp + i) {
            Some(c) => c.source.width,
            None => sizes.load_character_size(ins[i]).width,
        };
        let ghost before_x = pos.x;
        pos = Point::new(add_clamped(pos.x, width as i64), pos.y);
        proof {
            if laid_out_between(cs, tp as nat, end as nat) {
                assert(character_at(cs, (tp + i) as nat) is Some);
                assert(advanced(cs, before_x, (tp + i) as nat, end as nat) == advanced(cs, pos.x, (tp + i + 1) as nat, end as nat));
            }
        }
        position = position.moved(1, 0, 0);
        file_editor.caret_mut().move_caret(position, pos);
        i = i + 1;
    }
    file_editor.replace_current_file(new_file);
}

/// Breaks the line at the caret; the caret goes to the start of the new
/// line, below the old one by the height of a line break.
pub fn insert_new_line<S: CharacterSizeManager>(file_editor: &mut FileEditor, sizes: &mut S, config: &Config) -> (r: Result<(), String>)
    requires
        old(file_editor).wf(),
        config.wf(),
        can_insert_new_line(*old(file_editor)),
    ensures
        r is Ok,
        final(file_editor).wf(),
        after_insert_new_line(*old(file_editor), *final(file_editor), *config),
{
    let file = match file_editor.file() {
        Some(f) => f,
        None => {
            return Ok(());
        },
    };
    let position = *file_editor.caret().position();
    let tp = position.text_position();
    let chars = file.text_chars();
    let mut ins: Vec<char> = Vec::new();
    ins.push('\n');
    let buffer = spliced(chars, tp, 0, &ins);
    let path = file.path();
    let pos = match file.get_character_at(tp) {
        Some(current) => current.dest.top_left(),
        None => Point::new(0, 0),
    };
    proof {
        file.lemma_positions();
        lemma_byte_len_concat(chars@.take(tp as int), ins@);
        lemma_byte_len_concat(chars@.take(tp as int) + ins@, chars@.skip(tp as int));
        lemma_byte_len_concat(chars@.take(tp as int), chars@.skip(tp as int));
        assert(chars@.take(tp as int) + chars@.skip(tp as int) =~= chars@);
        assert(ins@ =~= seq!['\n']);
        assert(ins@.drop_last() =~= Seq::<char>::empty());
        assert(ins@.last() == '\n');
        assert(('\n' as u32) == 10u32);
        assert(char_width('\n') == 1);
        assert(byte_len(ins@.drop_last()) == 0);
        assert(byte_len(ins@) == byte_len(ins@.drop_last()) + char_width(ins@.last()));
        assert(byte_len(ins@) == 1);
        crate::text::lemma_byte_len_ge_len(chars@);
    }
    let size = sizes.load_character_size('\n');
    let below = Point::new(0, add_clamped(pos.y, size.height as i64));
    let back = position.line_position() as i32;
    let next = position.moved(1, 1, -back);
    file_editor.caret_mut().move_caret(next, below);
    proof {
        assert(next == (CaretPosition {
            text_position: (tp + 1) as usize,
            line_number: (position.line_number + 1) as usize,
            line_position: 0,
        }));
        assert(pos == anchor(*file, tp as nat));
        assert(file_editor.caret_of() == old(file_editor).caret_of().moved_to(
            next,
            Point { x: 0, y: clamp_i32(anchor(*file, tp as nat).y + size.height) },
        ));
    }
    let new_file = rebuild(path, &buffer, sizes, config);
    file_editor.replace_current_file(new_file);
    Ok(())
}

/// Deletes the caret's line with its line break; the caret goes to the
/// start of the line that takes its place.
pub fn delete_current_line<S: CharacterSizeManager>(file_editor: &mut FileEditor, sizes: &mut S, config: &Config) -> (r: Result<(), String>)
    requires
        old(file_editor).wf(),
        config.wf(),
    ensures
        r is Ok,
        final(file_editor).wf(),
        after_delete_current_line(*old(file_editor), *final(file_editor), *config),
{
    let file = match file_editor.file() {
        Some(f) => f,
        None => {
            return Ok(());
        },
    };
    let line = file_editor.caret().line_number();
    let chars = file.text_chars();
    let ghost s = chars@;
    let mut start: usize = 0;
    let mut l: usize = 0;
    while l < line
        invariant_except_break
            l <= line,
            start == line_start(s, l as nat),
            start <= s.len(),
            chars@ == s,
        ensures
            start == line_start(s, line as nat),
            start <= s.len(),
        decreases line - l,
    {
        proof {
            lemma_line_start(s, l as nat);
        }
        let b = find_break(chars, start);
        proof {
            lemma_next_break(s, start as int);
        }
        if b >= chars.len() {
            start = chars.len();
            proof {
                lemma_line_start_at_end(s, (l + 1) as nat, line as nat);
            }
            break;
        }
        start = b + 1;
        l = l + 1;
    }
    let b = find_break(chars, start);
    proof {
        lemma_next_break(s, start as int);
        lemma_line_start(s, line as nat);
    }
    let end = if b >= chars.len() {
        chars.len()
    } else {
        b + 1
    };
    let empty: Vec<char> = Vec::new();
    let text = spliced(chars, start, end - start, &empty);
    let path = file.path();
    let position = CaretPosition::new(start, line, 0);
    let target = file.get_character_at(start);
    proof {
        file.lemma_positions();
        assert(text@ =~= s.take(start as int) + s.skip(end as int));
        assert(s =~= text@.take(start as int) + s.subrange(start as int, end as int) + text@.skip(start as int));
        lemma_byte_len_concat(text@.take(start as int) + s.subrange(start as int, end as int), text@.skip(start as int));
        lemma_byte_len_concat(text@.take(start as int), s.subrange(start as int, end as int));
        lemma_byte_len_concat(text@.take(start as int), text@.skip(start as int));
        assert(text@.take(start as int) + text@.skip(start as int) =~= text@);
    }
    match target {
        Some(ch) => file_editor.caret_mut().move_caret(position, ch.dest.top_left()),
        None => file_editor.caret_mut().reset_caret(),
    }
    let new_file = rebuild(path, &text, sizes, config);
    file_editor.replace_current_file(new_file);
    Ok(())
}

} // verus!
