//! Moving the caret by one character or one line.

use vstd::prelude::*;
use crate::caret::CaretPosition;
use crate::geometry::Point;
use super::file::character_at;
use super::file_editor::{same_bars, FileEditor};
use super::text_character::TextCharacter;

verus! {

/// Where the top-left corner of `c` is drawn.
pub open spec fn corner(c: TextCharacter) -> Point {
    Point { x: c.dest.x, y: c.dest.y }
}

/// The character after the caret, if any.
pub open spec fn right_target(fe: FileEditor) -> Option<TextCharacter> {
    let tp = fe.caret_of().position.text_position;
    match fe.file_of() {
        None => None,
        Some(f) => if tp < usize::MAX {
            character_at(f.chars(), (tp + 1) as nat)
        } else {
            None
        },
    }
}

/// The character before the caret, if any.
pub open spec fn left_target(fe: FileEditor) -> Option<TextCharacter> {
    let tp = fe.caret_of().position.text_position;
    match fe.file_of() {
        None => None,
        Some(f) => if tp > 0 {
            character_at(f.chars(), (tp - 1) as nat)
        } else {
            None
        },
    }
}

/// What the loop of `move_caret_down` has seen: how many characters of the
/// caret's line precede it, how far into the next line it has got, the
/// character it would move to, and whether it has stopped.
struct DownScan {
    desired: nat,
    next: nat,
    target: Option<TextCharacter>,
    done: bool,
}

/// One step of that scan, on `c`, for a caret at text position `tp` on line
/// `line`.
spec fn down_step(s: DownScan, c: TextCharacter, tp: nat, line: nat) -> DownScan {
    if s.done {
        s
    } else if c.position < tp && c.line == line {
        DownScan { desired: s.desired + 1, ..s }
    } else if c.line == line + 1 {
        if s.next == s.desired {
            DownScan { target: Some(c), done: true, ..s }
        } else {
            DownScan { target: Some(c), next: s.next + 1, ..s }
        }
    } else if c.line == line + 2 {
        DownScan { done: true, ..s }
    } else {
        s
    }
}

/// The loop of `move_caret_down` over `cs`, first character first.
spec fn down_scan(cs: Seq<TextCharacter>, tp: nat, line: nat) -> DownScan
    decreases cs.len(),
{
    if cs.len() == 0 {
        DownScan { desired: 0, next: 0, target: None, done: false }
    } else {
        down_step(down_scan(cs.drop_last(), tp, line), cs.last(), tp, line)
    }
}

/// The characters on line `l`, in the order of the text.
pub open spec fn line_chars(cs: Seq<TextCharacter>, l: nat) -> Seq<TextCharacter> {
    cs.filter(|c: TextCharacter| c.line == l)
}

/// The caret's column: how many characters of line `l` stand before text
/// position `tp`.
pub open spec fn column_of(cs: Seq<TextCharacter>, tp: nat, l: nat) -> nat {
    before_on_line(cs, tp, l).len()
}

/// The characters of line `l` that stand before text position `tp`.
pub open spec fn before_on_line(cs: Seq<TextCharacter>, tp: nat, l: nat) -> Seq<TextCharacter> {
    cs.filter(|c: TextCharacter| c.line == l && c.position < tp)
}

/// The character a step down lands on, with its place in its line: the one
/// at the caret's column on the line below, or, when that line is shorter,
/// its last character, the place then counting the whole line. There is none
/// at the start of the text, or when the line below is empty.
pub open spec fn down_target(fe: FileEditor) -> Option<(TextCharacter, nat)> {
    let p = fe.caret_of().position;
    match fe.file_of() {
        None => None,
        Some(f) => if p.text_position == 0 {
            None
        } else {
            let below = line_chars(f.chars(), (p.line_number + 1) as nat);
            let col = column_of(f.chars(), p.text_position as nat, p.line_number as nat);
            if below.len() == 0 {
                None
            } else if col < below.len() {
                Some((below[col as int], col))
            } else {
                Some((below.last(), below.len()))
            }
        },
    }
}

/// What the loop of `move_caret_up` has seen: how many characters of the
/// caret's line precede it, whether it has met the caret's character, the
/// characters of the line above, and whether it has stopped.
struct UpScan {
    desired: nat,
    found: bool,
    prev: Seq<TextCharacter>,
    done: bool,
}

spec fn up_step(s: UpScan, c: TextCharacter, tp: nat, line: nat) -> UpScan {
    if s.done {
        s
    } else if c.position < tp && c.line == line && !s.found {
        UpScan { desired: s.desired + 1, ..s }
    } else if c.line == line && c.position == tp {
        UpScan { found: true, ..s }
    } else if c.line + 1 == line {
        UpScan { prev: s.prev.push(c), ..s }
    } else if c.line == line + 1 {
        UpScan { done: true, ..s }
    } else {
        s
    }
}

/// The loop of `move_caret_up` over `cs`, first character first.
spec fn up_scan(cs: Seq<TextCharacter>, tp: nat, line: nat) -> UpScan
    decreases cs.len(),
{
    if cs.len() == 0 {
        UpScan { desired: 0, found: false, prev: Seq::empty(), done: false }
    } else {
        up_step(up_scan(cs.drop_last(), tp, line), cs.last(), tp, line)
    }
}

/// The character a step up lands on, with its place in its line: the one
/// as far into the line above as the caret is into its own, or the first of
/// that line when it is shorter. There is none at the start of the text or
/// on the first line.
pub open spec fn up_target(fe: FileEditor) -> Option<(TextCharacter, nat)> {
    let p = fe.caret_of().position;
    match fe.file_of() {
        None => None,
        Some(f) => if p.text_position == 0 || p.line_number == 0 {
            None
        } else {
            let above = line_chars(f.chars(), (p.line_number - 1) as nat);
            let col = column_of(f.chars(), p.text_position as nat, p.line_number as nat);
            if col < above.len() {
                Some((above[col as int], col))
            } else if above.len() > 0 {
                Some((above[0], 0))
            } else {
                None
            }
        },
    }
}

/// A later character is never on an earlier line.
pub open spec fn lines_in_order(cs: Seq<TextCharacter>) -> bool {
    forall|i: int, j: int| 0 <= i < j < cs.len() ==> #[trigger] cs[i].line <= #[trigger] cs[j].line
}

/// A later character stands further into the text.
pub open spec fn positions_rise(cs: Seq<TextCharacter>) -> bool {
    forall|i: int, j: int| 0 <= i < j < cs.len() ==> #[trigger] cs[i].position < #[trigger] cs[j].position
}

/// On characters in line order, the loop of `move_caret_down` finds what
/// `down_target` says: the caret's column, and the character at that column
/// on the line below, or that line's last one with the whole line's length.
proof fn lemma_down_scan_direct(cs: Seq<TextCharacter>, tp: nat, line: nat)
    requires
        lines_in_order(cs),
    ensures
        ({
            let s = down_scan(cs, tp, line);
            let b = line_chars(cs, line + 1);
            let d = column_of(cs, tp, line);
            &&& s.desired == d
            &&& b.len() == 0 ==> s.target is None && s.next == 0
            &&& b.len() > 0 && d < b.len() ==> s.target == Some(b[d as int]) && s.next == d && s.done
            &&& b.len() > 0 && d >= b.len() ==> s.target == Some(b.last()) && s.next == b.len()
            &&& s.done ==> (b.len() > 0 && d < b.len()) || exists|i: int| 0 <= i < cs.len() && #[trigger] cs[i].line == line + 2
            &&& b.len() > 0 ==> exists|i: int| 0 <= i < cs.len() && #[trigger] cs[i].line == line + 1
        }),
    decreases cs.len(),
{
    reveal(Seq::filter);
    if cs.len() > 0 {
        let p = cs.drop_last();
        let c = cs.last();
        assert(lines_in_order(p)) by {
            assert forall|i: int, j: int| 0 <= i < j < p.len() implies #[trigger] p[i].line <= #[trigger] p[j].line by {
                assert(p[i] == cs[i] && p[j] == cs[j]);
            }
        }
        lemma_down_scan_direct(p, tp, line);
        let s0 = down_scan(p, tp, line);
        let b0 = line_chars(p, line + 1);
        let d0 = column_of(p, tp, line);
        let b = line_chars(cs, line + 1);
        let d = column_of(cs, tp, line);
        assert(cs.drop_last() == p);
        assert(b == if c.line == line + 1 { b0.push(c) } else { b0 });
        assert(before_on_line(cs, tp, line) == if c.line == line && c.position < tp {
            before_on_line(p, tp, line).push(c)
        } else {
            before_on_line(p, tp, line)
        });
        // What stands before `c` lies on no later line.
        assert forall|i: int| 0 <= i < p.len() implies #[trigger] p[i].line <= c.line by {
            assert(p[i] == cs[i]);
            assert(cs[i].line <= cs[cs.len() - 1].line);
        }
        if b0.len() > 0 {
            let i = choose|i: int| 0 <= i < p.len() && #[trigger] p[i].line == line + 1;
            assert(cs[i] == p[i]);
        }
        if s0.done {
            if exists|i: int| 0 <= i < p.len() && #[trigger] p[i].line == line + 2 {
                let i = choose|i: int| 0 <= i < p.len() && #[trigger] p[i].line == line + 2;
                assert(cs[i] == p[i]);
            }
        }
    }
}

/// On characters in line order whose positions rise, the loop of
/// `move_caret_up` finds what `up_target` says: the caret's column and the
/// characters of the line above.
proof fn lemma_up_scan_direct(cs: Seq<TextCharacter>, tp: nat, line: nat)
    requires
        lines_in_order(cs),
        positions_rise(cs),
        line > 0,
    ensures
        ({
            let s = up_scan(cs, tp, line);
            &&& s.desired == column_of(cs, tp, line)
            &&& s.prev == line_chars(cs, (line - 1) as nat)
            &&& s.found ==> exists|i: int| 0 <= i < cs.len() && #[trigger] cs[i].position == tp && cs[i].line == line
            &&& s.done ==> exists|i: int| 0 <= i < cs.len() && #[trigger] cs[i].line == line + 1
        }),
    decreases cs.len(),
{
    reveal(Seq::filter);
    if cs.len() > 0 {
        let p = cs.drop_last();
        let c = cs.last();
        assert(lines_in_order(p)) by {
            assert forall|i: int, j: int| 0 <= i < j < p.len() implies #[trigger] p[i].line <= #[trigger] p[j].line by {
                assert(p[i] == cs[i] && p[j] == cs[j]);
            }
        }
        assert(positions_rise(p)) by {
            assert forall|i: int, j: int| 0 <= i < j < p.len() implies #[trigger] p[i].position < #[trigger] p[j].position by {
                assert(p[i] == cs[i] && p[j] == cs[j]);
            }
        }
        lemma_up_scan_direct(p, tp, line);
        let s0 = up_scan(p, tp, line);
        assert(line_chars(cs, (line - 1) as nat) == if c.line == (line - 1) as nat {
            line_chars(p, (line - 1) as nat).push(c)
        } else {
            line_chars(p, (line - 1) as nat)
        });
        assert(before_on_line(cs, tp, line) == if c.line == line && c.position < tp {
            before_on_line(p, tp, line).push(c)
        } else {
            before_on_line(p, tp, line)
        });
        if s0.done {
            let i = choose|i: int| 0 <= i < p.len() && #[trigger] p[i].line == line + 1;
            assert(cs[i] == p[i]);
            assert(cs[i].line <= cs[cs.len() - 1].line);
        }
        if s0.found {
            let i = choose|i: int| 0 <= i < p.len() && #[trigger] p[i].position == tp && p[i].line == line;
            assert(cs[i] == p[i]);
            assert(cs[i].position < cs[cs.len() - 1].position);
        }
    }
}

proof fn lemma_down_done(cs: Seq<TextCharacter>, k: int, tp: nat, line: nat)
    requires
        0 <= k <= cs.len(),
        down_scan(cs.take(k), tp, line).done,
    ensures
        down_scan(cs, tp, line) == down_scan(cs.take(k), tp, line),
    decreases cs.len(),
{
    if k == cs.len() {
        assert(cs.take(k) =~= cs);
    } else {
        assert(cs.drop_last().take(k) =~= cs.take(k));
        lemma_down_done(cs.drop_last(), k, tp, line);
    }
}

proof fn lemma_up_done(cs: Seq<TextCharacter>, k: int, tp: nat, line: nat)
    requires
        0 <= k <= cs.len(),
        up_scan(cs.take(k), tp, line).done,
    ensures
        up_scan(cs, tp, line) == up_scan(cs.take(k), tp, line),
    decreases cs.len(),
{
    if k == cs.len() {
        assert(cs.take(k) =~= cs);
    } else {
        assert(cs.drop_last().take(k) =~= cs.take(k));
        lemma_up_done(cs.drop_last(), k, tp, line);
    }
}

/// The caret after a step right: on the next character, one further into
/// the text, or where it was when there is none.
pub open spec fn after_move_right(before: FileEditor, after: FileEditor) -> bool {
    &&& same_bars(before, after)
    &&& after.file_of() == before.file_of()
    &&& after.dest_of() == before.dest_of()
    &&& match right_target(before) {
        Some(c) => after.caret_of() == before.caret_of().moved_to(
            CaretPosition {
                text_position: (before.caret_of().position.text_position + 1) as usize,
                ..before.caret_of().position
            },
            corner(c),
        ),
        None => after.caret_of() == before.caret_of(),
    }
}

/// The caret after a step left: on the previous character, one back in the
/// text, or where it was when there is none.
pub open spec fn after_move_left(before: FileEditor, after: FileEditor) -> bool {
    &&& same_bars(before, after)
    &&& after.file_of() == before.file_of()
    &&& after.dest_of() == before.dest_of()
    &&& match left_target(before) {
        Some(c) => after.caret_of() == before.caret_of().moved_to(
            CaretPosition {
                text_position: (before.caret_of().position.text_position - 1) as usize,
                ..before.caret_of().position
            },
            corner(c),
        ),
        None => after.caret_of() == before.caret_of(),
    }
}

/// The caret after a step down (see `down_target`).
pub open spec fn after_move_down(before: FileEditor, after: FileEditor) -> bool {
    &&& same_bars(before, after)
    &&& after.file_of() == before.file_of()
    &&& after.dest_of() == before.dest_of()
    &&& match down_target(before) {
        Some((c, n)) => after.caret_of() == before.caret_of().moved_to(
            CaretPosition {
                text_position: c.position,
                line_number: (before.caret_of().position.line_number + 1) as usize,
                line_position: n as usize,
            },
            corner(c),
        ),
        None => after.caret_of() == before.caret_of(),
    }
}

/// The caret after a step up (see `up_target`).
pub open spec fn after_move_up(before: FileEditor, after: FileEditor) -> bool {
    &&& same_bars(before, after)
    &&& after.file_of() == before.file_of()
    &&& after.dest_of() == before.dest_of()
    &&& match up_target(before) {
        Some((c, n)) => after.caret_of() == before.caret_of().moved_to(
            CaretPosition { text_position: c.position, line_number: c.line, line_position: n as usize },
            corner(c),
        ),
        None => after.caret_of() == before.caret_of(),
    }
}

/// Moves the caret onto the next character, if there is one.
pub fn move_caret_right(file_editor: &mut FileEditor) -> (r: Option<TextCharacter>)
    requires
        old(file_editor).wf(),
    ensures
        final(file_editor).wf(),
        r == right_target(*old(file_editor)),
        after_move_right(*old(file_editor), *final(file_editor)),
{
    let tp = file_editor.caret().text_position();
    if tp == usize::MAX {
        return None;
    }
    let target = match file_editor.file() {
        Some(f) => f.get_character_at(tp + 1),
        None => None,
    };
    match target {
        Some(c) => {
            let pos = file_editor.caret().position().moved(1, 0, 0);
            file_editor.caret_mut().move_caret(pos, c.dest.top_left());
            Some(c)
        },
        None => None,
    }
}

/// Moves the caret onto the previous character, if there is one.
pub fn move_caret_left(file_editor: &mut FileEditor) -> (r: Option<TextCharacter>)
    requires
        old(file_editor).wf(),
    ensures
        final(file_editor).wf(),
        r == left_target(*old(file_editor)),
        after_move_left(*old(file_editor), *final(file_editor)),
{
    let tp = file_editor.caret().text_position();
    if tp == 0 {
        return None;
    }
    let target = match file_editor.file() {
        Some(f) => f.get_character_at(tp - 1),
        None => None,
    };
    match target {
        Some(c) => {
            let pos = file_editor.caret().position().moved(-1, 0, 0);
            file_editor.caret_mut().move_caret(pos, c.dest.top_left());
            Some(c)
        },
        None => None,
    }
}

/// Moves the caret onto the line below, as far into it as it was into its
/// own line, or onto the last character of that line when it is shorter.
pub fn move_caret_down(file_editor: &mut FileEditor) -> (r: Option<TextCharacter>)
    requires
        old(file_editor).wf(),
    ensures
        final(file_editor).wf(),
        r == (match down_target(*old(file_editor)) {
            Some((c, n)) => Some(c),
            None => None::<TextCharacter>,
        }),
        after_move_down(*old(file_editor), *final(file_editor)),
{
    let tp = file_editor.caret().text_position();
    if tp == 0 {
        return None;
    }
    let line = file_editor.caret().line_number();
    let file = match file_editor.file() {
        Some(f) => f,
        None => {
            return None;
        },
    };
    let cs = file.characters();
    let n = cs.len();
    let mut desired: usize = 0;
    let mut next: usize = 0;
    let mut target: Option<TextCharacter> = None;
    let mut k: usize = 0;
    proof {
        assert(cs@.take(0) =~= Seq::<TextCharacter>::empty());
        assert(cs@.take(n as int) =~= cs@);
    }
    while k < n
        invariant_except_break
            n == cs@.len(),
            0 <= k <= n,
            desired <= k,
            next <= k,
            cs@.take(n as int) == cs@,
            target matches Some(c) ==> c.line == line + 1,
            down_scan(cs@.take(k as int), tp as nat, line as nat) == (DownScan {
                desired: desired as nat,
                next: next as nat,
                target,
                done: false,
            }),
        ensures
            down_scan(cs@, tp as nat, line as nat).target == target,
            down_scan(cs@, tp as nat, line as nat).next == next,
            target matches Some(c) ==> c.line == line + 1,
        decreases n - k,
    {
        let c = cs[k];
        proof {
            assert(cs@.take(k + 1).drop_last() =~= cs@.take(k as int));
            assert(cs@.take(k + 1).last() == c);
        }
        if c.position < tp && c.line == line {
            desired = desired + 1;
        } else if c.line > line && c.line - line == 1 {
            target = Some(c);
            if next == desired {
                proof {
                    lemma_down_done(cs@, k + 1, tp as nat, line as nat);
                }
                break;
            }
            next = next + 1;
        } else if c.line > line && c.line - line == 2 {
            proof {
                lemma_down_done(cs@, k + 1, tp as nat, line as nat);
            }
            break;
        }
        k = k + 1;
    }
    proof {
        file.lemma_lines_in_order();
        lemma_down_scan_direct(cs@, tp as nat, line as nat);
    }
    match target {
        Some(c) => {
            let pos = CaretPosition::new(c.position, c.line, next);
            file_editor.caret_mut().move_caret(pos, c.dest.top_left());
            Some(c)
        },
        None => None,
    }
}

/// Moves the caret onto the line above, as far into it as it was into its
/// own line, or onto the first character of that line when it is shorter.
pub fn move_caret_up(file_editor: &mut FileEditor) -> (r: Option<TextCharacter>)
    requires
        old(file_editor).wf(),
    ensures
        final(file_editor).wf(),
        r == (match up_target(*old(file_editor)) {
            Some((c, n)) => Some(c),
            None => None::<TextCharacter>,
        }),
        after_move_up(*old(file_editor), *final(file_editor)),
{
    let tp = file_editor.caret().text_position();
    if tp == 0 {
        return None;
    }
    let line = file_editor.caret().line_number();
    if line == 0 {
        return None;
    }
    let file = match file_editor.file() {
        Some(f) => f,
        None => {
            return None;
        },
    };
    let cs = file.characters();
    let n = cs.len();
    let mut desired: usize = 0;
    let mut found = false;
    let mut prev: Vec<TextCharacter> = Vec::new();
    let mut k: usize = 0;
    proof {
        assert(cs@.take(0) =~= Seq::<TextCharacter>::empty());
        assert(cs@.take(n as int) =~= cs@);
    }
    while k < n
        invariant_except_break
            n == cs@.len(),
            0 <= k <= n,
            desired <= k,
            line > 0,
            cs@.take(n as int) == cs@,
            up_scan(cs@.take(k as int), tp as nat, line as nat) == (UpScan {
                desired: desired as nat,
                found,
                prev: prev@,
                done: false,
            }),
        ensures
            up_scan(cs@, tp as nat, line as nat).desired == desired,
            up_scan(cs@, tp as nat, line as nat).prev == prev@,
        decreases n - k,
    {
        let c = cs[k];
        proof {
            assert(cs@.take(k + 1).drop_last() =~= cs@.take(k as int));
            assert(cs@.take(k + 1).last() == c);
        }
        if c.position < tp && c.line == line && !found {
            desired = desired + 1;
        } else if c.line == line && c.position == tp {
            found = true;
        } else if c.line == line - 1 {
            prev.push(c);
        } else if c.line > line && c.line - line == 1 {
            proof {
                lemma_up_done(cs@, k + 1, tp as nat, line as nat);
            }
            break;
        }
        k = k + 1;
    }
    proof {
        file.lemma_lines_in_order();
        assert(positions_rise(cs@));
        lemma_up_scan_direct(cs@, tp as nat, line as nat);
    }
    let chosen = if desired < prev.len() {
        Some((prev[desired], desired))
    } else if prev.len() > 0 {
        Some((prev[0], 0))
    } else {
        None
    };
    match chosen {
        Some((c, d)) => {
            let pos = CaretPosition::new(c.position, c.line, d);
            file_editor.caret_mut().move_caret(pos, c.dest.top_left());
            Some(c)
        },
        None => None,
    }
}

} // verus!
