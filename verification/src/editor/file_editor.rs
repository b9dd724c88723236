//! The editing area: the open file, the caret in it, and where it is drawn.

use vstd::prelude::*;
use crate::caret::CaretPosition;
use crate::config::settings::Config;
use crate::events::UpdateResult;
use crate::ui::UpdateContext;
use crate::geometry::{clamp_i32, moved_rect, new_rect, rect_position, rect_size, Point, Rect};
use crate::themes::CodeHighlightingColor;
use super::caret::{Caret, MoveDirection};
use super::file::{character_at, full_rect_of, last_at_line, lemma_last_at_line_in, EditorFile};
use crate::ui::scroll_bar::{
    bars_fit, fit_bars, fitted_horizontal, fitted_vertical, scroll_of, scroll_point, step_fits, stepped_value,
    HorizontalScrollBar, ScrollBar, VerticalScrollBar,
};
use super::content::{
    after_delete_back, after_delete_current_line, after_delete_front, after_insert_new_line, after_insert_text,
    can_delete_front, can_insert_new_line, can_insert_text, delete_back, delete_current_line, delete_front,
    insert_new_line, insert_text,
};
use super::moves::{
    after_move_down, after_move_left, after_move_right, after_move_up, move_caret_down, move_caret_left,
    move_caret_right, move_caret_up,
};
use super::text_character::{CharacterSizeManager, TextCharacter};
use crate::text::{byte_len_of, chars_of};
use crate::ui::RenderContext;
use crate::ui::draw::{place_for_render, push_command, render_placed, views, DrawCommand, DrawSpec};
use crate::ui::scroll_bar::bar_commands;
use super::file::text_commands;

verus! {

/// The first line from `line` down to the first one that has a character,
/// with the character that ends it.
pub open spec fn end_of_line_target(cs: Seq<TextCharacter>, line: int) -> Option<(TextCharacter, int)>
    decreases line + 1,
{
    if line < 0 {
        None
    } else {
        match last_at_line(cs, line as nat) {
            Some(tc) => Some((tc, line)),
            None => end_of_line_target(cs, line - 1),
        }
    }
}

/// Where the caret is drawn after the character `tc`: after a line break,
/// on the character that follows it (or on the break itself when none
/// does); after any other character, at its right edge.
pub open spec fn point_after(cs: Seq<TextCharacter>, tc: TextCharacter) -> Point {
    if tc.text_character == '\n' {
        match character_at(cs, (tc.position + 1) as nat) {
            Some(n) => Point { x: n.dest.x, y: n.dest.y },
            None => Point { x: tc.dest.x, y: tc.dest.y },
        }
    } else {
        Point { x: clamp_i32(tc.dest.x + tc.dest.width), y: tc.dest.y }
    }
}

/// The caret put after the end of line `line` of `f` (see
/// `end_of_line_target`), or left as it was when no line up to it has a
/// character.
pub open spec fn caret_at_end_of_line(caret: Caret, f: EditorFile, line: int) -> Caret {
    match end_of_line_target(f.chars(), line) {
        None => caret,
        Some((tc, l)) => caret.moved_to(
            CaretPosition { text_position: (tc.position + 1) as usize, line_number: l as usize, line_position: 0 },
            point_after(f.chars(), tc),
        ),
    }
}

/// The line of `f` under `point` in an area whose top is at `top`: the
/// distance below the top in line heights; 0 above it or while the file has
/// not been laid out.
pub open spec fn line_at(f: EditorFile, top: i32, point: Point) -> int {
    let y = point.y - top;
    if y <= 0 || f.line_height_spec() == 0 {
        0
    } else {
        y / (f.line_height_spec() as int)
    }
}

/// The first character of `cs` that `point` falls on, each drawn relative to
/// `origin`.
pub open spec fn first_hit(cs: Seq<TextCharacter>, point: Point, origin: Point) -> Option<TextCharacter>
    decreases cs.len(),
{
    if cs.len() == 0 {
        None
    } else if moved_rect(origin, cs[0].dest).has_point(point) {
        Some(cs[0])
    } else {
        first_hit(cs.drop_first(), point, origin)
    }
}

/// Whether `FileEditor::apply_task` carries `task` out without panicking.
pub open spec fn task_allowed(fe: FileEditor, task: UpdateResult) -> bool {
    match task {
        UpdateResult::DeleteFront => can_delete_front(fe),
        UpdateResult::Input(text) => can_insert_text(fe, text@),
        UpdateResult::InsertNewLine => can_insert_new_line(fe),
        _ => true,
    }
}

/// What `task` does to the editor: an editing or caret task does what its
/// command does; any other task leaves the editor as it was.
pub open spec fn after_task(before: FileEditor, after: FileEditor, task: UpdateResult, config: Config) -> bool {
    match task {
        UpdateResult::DeleteFront => after_delete_front(before, after, config),
        UpdateResult::DeleteBack => after_delete_back(before, after, config),
        UpdateResult::DeleteLine => after_delete_current_line(before, after, config),
        UpdateResult::Input(text) => after_insert_text(before, after, text@, config),
        UpdateResult::InsertNewLine => after_insert_new_line(before, after, config),
        UpdateResult::MoveCaretLeft => after_move_left(before, after),
        UpdateResult::MoveCaretRight => after_move_right(before, after),
        UpdateResult::MoveCaretUp => after_move_up(before, after),
        UpdateResult::MoveCaretDown => after_move_down(before, after),
        _ => after == before,
    }
}

/// The tasks that the editor carries out.
pub open spec fn is_editor_task(task: UpdateResult) -> bool {
    match task {
        UpdateResult::DeleteFront | UpdateResult::DeleteBack | UpdateResult::DeleteLine | UpdateResult::Input(_)
        | UpdateResult::InsertNewLine | UpdateResult::MoveCaretLeft | UpdateResult::MoveCaretRight
        | UpdateResult::MoveCaretUp | UpdateResult::MoveCaretDown => true,
        _ => false,
    }
}

/// Where the editor's area is after an update in `config` from `context`:
/// from the parent's left edge, or the left margin, to the window's right
/// edge, and from the top margin below the menu to the window's bottom.
pub open spec fn updated_dest(dest: Rect, config: Config, context: UpdateContext) -> Rect {
    let left: int = match context {
        UpdateContext::ParentPosition(p) => p.x as int,
        UpdateContext::Nothing => config.editor_config.margin_left as int,
    };
    Rect {
        x: rect_position(left as i32),
        width: rect_size((config.width - left) as u32),
        height: rect_size((config.height - (config.menu_height + config.editor_config.margin_top)) as u32),
        ..dest
    }
}

/// The scroll bars of `after` are those of `before`: the text stays
/// scrolled as it was.
pub open spec fn same_bars(before: FileEditor, after: FileEditor) -> bool {
    after.vbar_of() == before.vbar_of() && after.hbar_of() == before.hbar_of()
}

/// The path of the file open, or an empty one.
pub open spec fn path_or_empty(f: Option<EditorFile>) -> Seq<char> {
    match f {
        Some(f) => f.path_view(),
        None => Seq::empty(),
    }
}

/// After `file` is opened in `before`: the size of its text is recorded;
/// the scroll bars stay where they were when it has the path of the file
/// open, and are otherwise reset (back to the start, with no content and no
/// handle).
pub open spec fn scroll_after_open(before: FileEditor, after: FileEditor, file: EditorFile) -> bool {
    &&& after.full_rect_spec() == full_rect_of(file)
    &&& if path_or_empty(before.file_of()) == file.path_view() {
        after.vbar_of() == before.vbar_of() && after.hbar_of() == before.hbar_of()
    } else {
        &&& after.vbar_of().is(0, before.vbar_of().viewport_of(), 0, Rect { y: 0, height: 1, ..before.vbar_of().rect_of() })
        &&& after.hbar_of().is(0, before.hbar_of().viewport_of(), 0, Rect { x: 0, width: 1, ..before.hbar_of().rect_of() })
    }
}

/// A click at `point` can be placed on the lines of the file open without
/// overflow.
pub open spec fn click_fits(fe: FileEditor, point: Point) -> bool {
    fe.file_of() matches Some(f) ==> {
        let scroll = scroll_point(fe.hbar_of(), fe.vbar_of());
        &&& f.line_height_spec() <= i32::MAX
        &&& i32::MIN <= clamp_i32(point.y - scroll.y) - fe.dest_of().y <= i32::MAX
    }
}

/// The editor after a click at `point`, with the text scrolled as its bars
/// say: the caret goes onto the character clicked, or, off the characters,
/// after the end of the line clicked; all else stays.
pub open spec fn clicked(before: FileEditor, after: FileEditor, point: Point) -> bool {
    &&& after.file_of() == before.file_of()
    &&& after.dest_of() == before.dest_of()
    &&& after.same_scroll(before)
    &&& match before.file_of() {
        None => after.caret_of() == before.caret_of(),
        Some(f) => {
            let d = before.dest_of();
            let scroll = scroll_point(before.hbar_of(), before.vbar_of());
            let origin = Point { x: clamp_i32(scroll.x + d.x), y: clamp_i32(scroll.y + d.y) };
            match first_hit(f.chars(), point, origin) {
                Some(c) => after.caret_of() == before.caret_of().moved_to(
                    CaretPosition { text_position: c.position, line_number: c.line, line_position: 0 },
                    Point { x: c.dest.x, y: c.dest.y },
                ),
                None => after.caret_of() == caret_at_end_of_line(
                    before.caret_of(),
                    f,
                    line_at(f, d.y, Point { x: clamp_i32(point.x - scroll.x), y: clamp_i32(point.y - scroll.y) }),
                ),
            }
        },
    }
}

/// The click at `point` concerns the editor: it falls on a character of the
/// open file, drawn scrolled as the bars say, or in the area taken from the
/// area's own corner.
pub open spec fn click_target(fe: FileEditor, point: Point) -> bool {
    let d = fe.dest_of();
    ||| (match fe.file_of() {
        None => false,
        Some(f) => {
            let scroll = scroll_point(fe.hbar_of(), fe.vbar_of());
            first_hit(f.chars(), point, Point { x: clamp_i32(scroll.x + d.x), y: clamp_i32(scroll.y + d.y) }) is Some
        },
    })
    ||| d.has_point(Point { x: moved_rect(point, d).x, y: moved_rect(point, d).y })
}

/// What the editor draws: clipped to its area, the open file's text drawn
/// from the area's corner moved by the scroll, the caret there, and the
/// handles of the scroll bars from the area's corner.
pub open spec fn editor_commands(fe: FileEditor) -> Seq<DrawSpec> {
    let d = fe.dest_of();
    let scroll = scroll_point(fe.hbar_of(), fe.vbar_of());
    let start = RenderContext::ParentPosition(Point { x: clamp_i32(d.x + scroll.x), y: clamp_i32(d.y + scroll.y) });
    let corner = RenderContext::ParentPosition(Point { x: d.x, y: d.y });
    let text = match fe.file_of() {
        Some(f) => text_commands(f.chars(), f.token_views(), f.token_views().len() as int, start),
        None => Seq::empty(),
    };
    seq![DrawSpec::Clip(d)] + text + seq![DrawSpec::Caret(render_placed(fe.caret_of().dest, start))] + bar_commands(
        fe.vbar_of(),
        corner,
    ) + bar_commands(fe.hbar_of(), corner)
}

/// The first of `cs` that `point` falls on, each drawn relative to `moved_by`
/// (see `first_hit`).
fn find_hit(cs: &Vec<TextCharacter>, point: &Point, moved_by: Point) -> (r: Option<TextCharacter>)
    ensures
    r == first_hit(cs@, *point, moved_by),
{
    let context = UpdateContext::ParentPosition(moved_by);
    let mut target: Option<TextCharacter> = None;
    let mut k: usize = 0;
    proof {
        assert(cs@.skip(0) =~= cs@);
    }
    while k < cs.len()
        invariant_except_break
            0 <= k <= cs@.len(),
            target is None,
            context == UpdateContext::ParentPosition(moved_by),
            first_hit(cs@, *point, moved_by) == first_hit(cs@.skip(k as int), *point, moved_by),
        ensures
            target == first_hit(cs@, *point, moved_by),
        decreases cs@.len() - k,
    {
        proof {
            assert(cs@.skip(k as int).drop_first() =~= cs@.skip(k + 1));
            assert(cs@.skip(k as int)[0] == cs@[k as int]);
        }
        let c = cs[k];
        proof {
            assert(first_hit(cs@.skip(k as int), *point, moved_by) == if moved_rect(moved_by, c.dest).has_point(*point) {
                Some(c)
            } else {
                first_hit(cs@.skip(k + 1), *point, moved_by)
            });
        }
        if crate::ui::placed(&c.dest, &context).contains_point(*point) {
            target = Some(c);
            break;
        }
        k = k + 1;
        proof {
            if k == cs@.len() {
                assert(cs@.skip(k as int) =~= Seq::<TextCharacter>::empty());
            }
        }
    }
    target
}

#[derive(Clone, Debug)]
pub struct FileEditor {
    dest: Rect,
    full_rect: Rect,
    caret: Caret,
    file: Option<EditorFile>,
    vertical_scroll_bar: VerticalScrollBar,
    horizontal_scroll_bar: HorizontalScrollBar,
}

impl FileEditor {
    pub closed spec fn file_of(&self) -> Option<EditorFile> {
        self.file
    }

    pub closed spec fn caret_of(&self) -> Caret {
        self.caret
    }

    pub closed spec fn dest_of(&self) -> Rect {
        self.dest
    }

    /// The size of the open file's text when it was opened.
    pub closed spec fn full_rect_spec(&self) -> Rect {
        self.full_rect
    }

    pub closed spec fn vbar_of(&self) -> ScrollBar {
        self.vertical_scroll_bar.bar_of()
    }

    pub closed spec fn hbar_of(&self) -> ScrollBar {
        self.horizontal_scroll_bar.bar_of()
    }

    /// An open file is well formed, and the text is not scrolled before its
    /// start.
    pub open spec fn wf(&self) -> bool {
        &&& match self.file_of() {
            Some(f) => f.wf(),
            None => true,
        }
        &&& self.vbar_of().value_of() >= 0
        &&& self.hbar_of().value_of() >= 0
    }

    /// The scroll bars and the recorded size as they are in `other`.
    pub open spec fn same_scroll(&self, other: FileEditor) -> bool {
        &&& self.vbar_of() == other.vbar_of()
        &&& self.hbar_of() == other.hbar_of()
        &&& self.full_rect_spec() == other.full_rect_spec()
    }

    /// No file open, the caret at the start, and the area right of the left
    /// margin and below the menu and the top margin.
    pub fn new(config: &Config) -> (r: Self)
        requires
            config.editor_config.margin_left <= config.width,
            config.menu_height + config.editor_config.margin_top <= config.height,
        ensures
            r.wf(),
            r.file_of() is None,
            r.caret_of() == (Caret {
                position: CaretPosition { text_position: 0, line_number: 0, line_position: 0 },
                dest: new_rect(0, 0, 0, 0),
            }),
            r.dest_of() == new_rect(
                config.editor_config.margin_left as i32,
                (config.menu_height + config.editor_config.margin_top) as i32,
                (config.width - config.editor_config.margin_left) as u32,
                (config.height - (config.menu_height + config.editor_config.margin_top)) as u32,
            ),
            r.full_rect_spec() == (new_rect(0, 0, 0, 0)),
            r.vbar_of().is(0, 1, 1, new_rect(0, 0, config.scroll.width, 0)),
            r.hbar_of().is(0, 1, 1, new_rect(0, 0, config.scroll.width, 0)),
    {
        let left = config.editor_left_margin();
        let top = config.editor_top_margin();
        let dest = Rect::new(left, top, config.width() - left as u32, config.height() - top as u32);
        FileEditor {
            dest,
            full_rect: Rect::new(0, 0, 0, 0),
            caret: Caret::new(0, 0),
            file: None,
            vertical_scroll_bar: VerticalScrollBar::new(config),
            horizontal_scroll_bar: HorizontalScrollBar::new(config),
        }
    }

    pub fn dest(&self) -> (r: &Rect)
        ensures
            *r == self.dest_of(),
    {
        &self.dest
    }

    pub fn file(&self) -> (r: Option<&EditorFile>)
        ensures
            r matches Some(f) ==> self.file_of() == Some(*f),
            r is None <==> self.file_of() is None,
    {
        match &self.file {
            Some(f) => Some(f),
            None => None,
        }
    }

    pub fn has_file(&self) -> (r: bool)
        ensures
            r == self.file_of() is Some,
    {
        self.file.is_some()
    }

    /// Opens `file` in place of the one open, which is handed back; records
    /// the size of its text, and scrolls back to the start when it is
    /// another path than the one open (see `scroll_after_open`).
    pub fn open_file(&mut self, file: EditorFile) -> (r: Option<EditorFile>)
        requires
            old(self).wf(),
            file.wf(),
        ensures
            final(self).wf(),
            r == old(self).file_of(),
            final(self).file_of() == Some(file),
            final(self).caret_of() == old(self).caret_of(),
            final(self).dest_of() == old(self).dest_of(),
            scroll_after_open(*old(self), *final(self), file),
    {
        let new_path = file.path();
        let old_path = match &self.file {
            Some(f) => f.path(),
            None => String::new(),
        };
        let full = file.full_rect();
        let mut file = Some(file);
        std::mem::swap(&mut self.file, &mut file);
        self.full_rect = full;
        if !(old_path == new_path) {
            self.vertical_scroll_bar.reset();
            self.horizontal_scroll_bar.reset();
        }
        file
    }

    /// Closes the open file and hands it back.
    pub fn drop_file(&mut self) -> (r: Option<EditorFile>)
        requires
            old(self).wf(),
        ensures
            final(self).wf(),
            r == old(self).file_of(),
            final(self).file_of() is None,
            final(self).caret_of() == old(self).caret_of(),
            final(self).dest_of() == old(self).dest_of(),
            final(self).same_scroll(*old(self)),
    {
        if self.has_file() {
            let mut file = None;
            std::mem::swap(&mut self.file, &mut file);
            file
        } else {
            None
        }
    }

    /// Opens `file` in place of the one open (see `open_file`).
    pub fn replace_current_file(&mut self, file: EditorFile)
        requires
            old(self).wf(),
            file.wf(),
        ensures
            final(self).wf(),
            final(self).file_of() == Some(file),
            final(self).caret_of() == old(self).caret_of(),
            final(self).dest_of() == old(self).dest_of(),
            scroll_after_open(*old(self), *final(self), file),
    {
        self.open_file(file);
    }

    pub fn caret(&self) -> (r: &Caret)
        ensures
            *r == self.caret_of(),
    {
        &self.caret
    }

    pub fn caret_mut(&mut self) -> (r: &mut Caret)
        ensures
            *r == old(self).caret_of(),
            final(self).caret_of() == *final(r),
            final(self).file_of() == old(self).file_of(),
            final(self).dest_of() == old(self).dest_of(),
            final(self).same_scroll(*old(self)),
    {
        &mut self.caret
    }

    /// Lays out the open file's characters and sizes the caret.
    pub fn prepare_ui<S: CharacterSizeManager>(&mut self, sizes: &mut S, colors: &CodeHighlightingColor)
        requires
            old(self).wf(),
        ensures
            final(self).wf(),
            final(self).dest_of() == old(self).dest_of(),
            final(self).caret_of().position == old(self).caret_of().position,
            final(self).caret_of().dest.x == old(self).caret_of().dest.x,
            final(self).caret_of().dest.y == old(self).caret_of().dest.y,
            match (old(self).file_of(), final(self).file_of()) {
                (Some(o), Some(n)) => n.prepared() && n.text() == o.text() && n.path_view() == o.path_view()
                    && n.language_spec() == o.language_spec() && n.token_views() == o.token_views(),
                (None, None) => true,
                _ => false,
            },
    {
        let mut file = None;
        std::mem::swap(&mut self.file, &mut file);
        match file {
            Some(mut f) => {
                f.prepare_ui(sizes, colors);
                self.file = Some(f);
            },
            None => {},
        }
        self.caret.prepare_ui(sizes);
    }

    /// Moves the caret one step in `dir` (see the functions of `moves`).
    pub fn move_caret(&mut self, dir: MoveDirection)
        requires
            old(self).wf(),
        ensures
            final(self).wf(),
            match dir {
                MoveDirection::Left => after_move_left(*old(self), *final(self)),
                MoveDirection::Right => after_move_right(*old(self), *final(self)),
                MoveDirection::Up => after_move_up(*old(self), *final(self)),
                MoveDirection::Down => after_move_down(*old(self), *final(self)),
            },
    {
        match dir {
            MoveDirection::Left => {
                move_caret_left(self);
            },
            MoveDirection::Right => {
                move_caret_right(self);
            },
            MoveDirection::Up => {
                move_caret_up(self);
            },
            MoveDirection::Down => {
                move_caret_down(self);
            },
        }
    }

    /// Deletes the character before the caret (see `content::delete_front`).
    pub fn delete_front<S: CharacterSizeManager>(&mut self, sizes: &mut S, config: &Config)
        requires
            old(self).wf(),
            config.wf(),
            can_delete_front(*old(self)),
        ensures
            final(self).wf(),
            after_delete_front(*old(self), *final(self), *config),
    {
        delete_front(self, sizes, config);
    }

    /// Deletes the character after the caret (see `content::delete_back`).
    pub fn delete_back<S: CharacterSizeManager>(&mut self, sizes: &mut S, config: &Config)
        requires
            old(self).wf(),
            config.wf(),
        ensures
            final(self).wf(),
            after_delete_back(*old(self), *final(self), *config),
    {
        delete_back(self, sizes, config);
    }

    /// Types `text` at the caret (see `content::insert_text`).
    pub fn insert_text<S: CharacterSizeManager>(&mut self, text: String, sizes: &mut S, config: &Config)
        requires
            old(self).wf(),
            config.wf(),
            can_insert_text(*old(self), text@),
        ensures
            final(self).wf(),
            after_insert_text(*old(self), *final(self), text@, *config),
    {
        insert_text(self, text, sizes, config);
    }

    /// Breaks the line at the caret (see `content::insert_new_line`).
    pub fn insert_new_line<S: CharacterSizeManager>(&mut self, sizes: &mut S, config: &Config) -> (r: Result<(), String>)
        requires
            old(self).wf(),
            config.wf(),
            can_insert_new_line(*old(self)),
        ensures
            r is Ok,
            final(self).wf(),
            after_insert_new_line(*old(self), *final(self), *config),
    {
        insert_new_line(self, sizes, config)
    }

    /// Deletes the caret's line (see `content::delete_current_line`).
    pub fn delete_current_line<S: CharacterSizeManager>(&mut self, sizes: &mut S, config: &Config) -> (r: Result<(), String>)
        requires
            old(self).wf(),
            config.wf(),
        ensures
            r is Ok,
            final(self).wf(),
            after_delete_current_line(*old(self), *final(self), *config),
    {
        delete_current_line(self, sizes, config)
    }

    /// Follows the window: the area starts at the parent's left edge (or the
    /// left margin) and fills the rest of the window's width, and its height
    /// below the menu and the top margin; the scroll bars fit the new area
    /// and the recorded size of the text (see `fit_bars`).
    pub fn update(&mut self, config: &Config, context: &UpdateContext) -> (r: UpdateResult)
        requires
            config.menu_height + config.editor_config.margin_top <= config.height,
            match *context {
                UpdateContext::ParentPosition(p) => 0 <= p.x <= config.width,
                UpdateContext::Nothing => config.editor_config.margin_left <= config.width,
            },
            bars_fit(updated_dest(old(self).dest_of(), *config, *context), config.scroll),
        ensures
            r == UpdateResult::NoOp,
            final(self).file_of() == old(self).file_of(),
            final(self).caret_of() == old(self).caret_of(),
            final(self).full_rect_spec() == old(self).full_rect_spec(),
            final(self).dest_of() == updated_dest(old(self).dest_of(), *config, *context),
            fitted_vertical(old(self).vbar_of(), final(self).vbar_of(), final(self).dest_of(), old(self).full_rect_spec(), config.scroll),
            fitted_horizontal(old(self).hbar_of(), final(self).hbar_of(), final(self).dest_of(), old(self).full_rect_spec(), config.scroll),
    {
        let top = config.editor_top_margin() as u32;
        let left: u32 = match context {
            UpdateContext::ParentPosition(p) => p.x as u32,
            UpdateContext::Nothing => config.editor_config.margin_left as u32,
        };
        self.dest.set_x(left as i32);
        self.dest.set_width(config.width - left);
        self.dest.set_height(config.height - top);
        fit_bars(&mut self.vertical_scroll_bar, &mut self.horizontal_scroll_bar, self.dest, self.full_rect, config.scroll());
        UpdateResult::NoOp
    }

    /// Scrolls the text by `x` and `y` wheel steps (see `stepped_value`).
    pub fn scroll_by(&mut self, x: i32, y: i32, config: &Config)
        requires
            old(self).wf(),
            step_fits(old(self).hbar_of().value_of(), config.scroll.speed, x),
            step_fits(old(self).vbar_of().value_of(), config.scroll.speed, y),
        ensures
            final(self).wf(),
            final(self).file_of() == old(self).file_of(),
            final(self).caret_of() == old(self).caret_of(),
            final(self).dest_of() == old(self).dest_of(),
            final(self).full_rect_spec() == old(self).full_rect_spec(),
            final(self).hbar_of().is(
                stepped_value(old(self).hbar_of().value_of(), old(self).hbar_of().viewport_of(), old(self).hbar_of().full_of(), config.scroll.speed, x),
                old(self).hbar_of().viewport_of(),
                old(self).hbar_of().full_of(),
                old(self).hbar_of().rect_of(),
            ),
            final(self).vbar_of().is(
                stepped_value(old(self).vbar_of().value_of(), old(self).vbar_of().viewport_of(), old(self).vbar_of().full_of(), config.scroll.speed, y),
                old(self).vbar_of().viewport_of(),
                old(self).vbar_of().full_of(),
                old(self).vbar_of().rect_of(),
            ),
    {
        let speed = config.scroll().speed();
        self.horizontal_scroll_bar.step(speed, x);
        self.vertical_scroll_bar.step(speed, y);
    }

    /// How far the text is scrolled (see `scroll_point`).
    pub fn scroll(&self) -> (r: Point)
        requires
            self.wf(),
        ensures
            r == scroll_point(self.hbar_of(), self.vbar_of()),
    {
        scroll_of(&self.horizontal_scroll_bar, &self.vertical_scroll_bar)
    }

    pub fn vertical_scroll_handler(&self) -> (r: Option<&VerticalScrollBar>)
        ensures
            r matches Some(b) && b.bar_of() == self.vbar_of(),
    {
        Some(&self.vertical_scroll_bar)
    }

    pub fn horizontal_scroll_handler(&self) -> (r: Option<&HorizontalScrollBar>)
        ensures
            r matches Some(b) && b.bar_of() == self.hbar_of(),
    {
        Some(&self.horizontal_scroll_bar)
    }

    /// Sizes the scroll bars' handles: the vertical one `vertical.1` high at
    /// `vertical.0` down, the horizontal one `horizontal.1` wide at
    /// `horizontal.0` across.
    pub fn size_scroll_handles(&mut self, vertical: (i32, u32), horizontal: (i32, u32))
        requires
            old(self).wf(),
        ensures
            final(self).wf(),
            final(self).file_of() == old(self).file_of(),
            final(self).caret_of() == old(self).caret_of(),
            final(self).dest_of() == old(self).dest_of(),
            final(self).full_rect_spec() == old(self).full_rect_spec(),
            final(self).vbar_of().is(
                old(self).vbar_of().value_of(),
                old(self).vbar_of().viewport_of(),
                old(self).vbar_of().full_of(),
                Rect { y: rect_position(vertical.0), height: rect_size(vertical.1), ..old(self).vbar_of().rect_of() },
            ),
            final(self).hbar_of().is(
                old(self).hbar_of().value_of(),
                old(self).hbar_of().viewport_of(),
                old(self).hbar_of().full_of(),
                Rect { x: rect_position(horizontal.0), width: rect_size(horizontal.1), ..old(self).hbar_of().rect_of() },
            ),
    {
        self.vertical_scroll_bar.update_rect(vertical.0, vertical.1);
        self.horizontal_scroll_bar.update_rect(horizontal.0, horizontal.1);
    }

    /// The area the editor is drawn in.
    pub fn source(&self) -> (r: &Rect)
        ensures
            *r == self.dest_of(),
    {
        &self.dest
    }

    pub fn set_dest(&mut self, rect: Rect)
        requires
            old(self).wf(),
        ensures
            final(self).wf(),
            final(self).dest_of() == rect,
            final(self).file_of() == old(self).file_of(),
            final(self).caret_of() == old(self).caret_of(),
            final(self).same_scroll(*old(self)),
    {
        self.dest = rect;
    }

    /// The source cannot be set apart from the area: nothing changes.
    pub fn set_source(&mut self, _rect: &Rect)
        ensures
            *final(self) == *old(self),
    {
    }

    /// The editor is drawn from no texture.
    pub fn texture_path(&self) -> (r: Option<String>)
        ensures
            r is None,
    {
        None
    }

    /// The editor clips its drawing to its area.
    pub fn use_clipping(&self) -> (r: bool)
        ensures
            r,
    {
        true
    }

    /// Whether `apply_task` can carry `task` out (see `task_allowed`).
    pub fn task_allowed_now(&self, task: &UpdateResult) -> (r: bool)
        requires
            self.wf(),
        ensures
            r == task_allowed(*self, *task),
    {
        let file = match &self.file {
            Some(f) => f,
            None => {
                return true;
            },
        };
        let tp = self.caret.position.text_position;
        let line = self.caret.position.line_number;
        let len = file.text_len();
        match task {
            UpdateResult::DeleteFront => {
                if tp == 0 {
                    true
                } else if tp > len {
                    false
                } else {
                    !(file.char_of_text(tp - 1) == '\n') || line >= 1
                }
            },
            UpdateResult::Input(text) => {
                if tp > len {
                    return false;
                }
                let own = byte_len_of(file.text_chars());
                let added = byte_len_of(&chars_of(text.as_str()));
                match (own, added) {
                    (Some(a), Some(b)) => a <= usize::MAX - b,
                    _ => false,
                }
            },
            UpdateResult::InsertNewLine => {
                if tp > len {
                    return false;
                }
                match byte_len_of(file.text_chars()) {
                    Some(a) => a < usize::MAX && line < usize::MAX && self.caret.position.line_position <= i32::MAX as usize,
                    None => false,
                }
            },
            _ => true,
        }
    }

    /// See `click_fits`.
    pub fn click_fits_now(&self, point: &Point) -> (r: bool)
        requires
            self.wf(),
        ensures
            r == click_fits(*self, *point),
    {
        let file = match &self.file {
            Some(f) => f,
            None => {
                return true;
            },
        };
        let scroll = self.scroll();
        let y = point.offset(0, -scroll.y).y as i64 - self.dest.y as i64;
        file.line_height() <= i32::MAX as u32 && i32::MIN as i64 <= y && y <= i32::MAX as i64
    }

    /// Appends what the editor draws (see `editor_commands`).
    pub fn render(&self, out: &mut Vec<DrawCommand>)
        requires
            self.wf(),
        ensures
            views(final(out)@) == views(old(out)@) + editor_commands(*self),
    {
        let ghost start0 = views(out@);
        push_command(out, DrawCommand::Clip(self.dest));
        let scroll = self.scroll();
        let start = RenderContext::ParentPosition(self.dest.top_left().offset(scroll.x, scroll.y));
        let ghost with_clip = views(out@);
        match &self.file {
            Some(f) => f.render(&start, out),
            None => {},
        }
        let ghost with_text = views(out@);
        push_command(out, DrawCommand::Caret(place_for_render(&self.caret.dest, &start)));
        let corner = RenderContext::ParentPosition(self.dest.top_left());
        let ghost with_caret = views(out@);
        self.vertical_scroll_bar.bar().render(&corner, out);
        let ghost with_v = views(out@);
        self.horizontal_scroll_bar.bar().render(&corner, out);
        proof {
            assert(views(out@) =~= start0 + editor_commands(*self));
        }
    }

    /// Carries out an editing or caret task; reports whether `task` was one.
    pub fn apply_task<S: CharacterSizeManager>(&mut self, task: &UpdateResult, sizes: &mut S, config: &Config) -> (handled: bool)
        requires
            old(self).wf(),
            config.wf(),
            task_allowed(*old(self), *task),
        ensures
            final(self).wf(),
            handled == is_editor_task(*task),
            after_task(*old(self), *final(self), *task, *config),
    {
        match task {
            UpdateResult::DeleteFront => {
                self.delete_front(sizes, config);
                true
            },
            UpdateResult::DeleteBack => {
                self.delete_back(sizes, config);
                true
            },
            UpdateResult::DeleteLine => {
                let _ = self.delete_current_line(sizes, config);
                true
            },
            UpdateResult::Input(text) => {
                self.insert_text(text.clone(), sizes, config);
                true
            },
            UpdateResult::InsertNewLine => {
                let _ = self.insert_new_line(sizes, config);
                true
            },
            UpdateResult::MoveCaretLeft => {
                self.move_caret(MoveDirection::Left);
                true
            },
            UpdateResult::MoveCaretRight => {
                self.move_caret(MoveDirection::Right);
                true
            },
            UpdateResult::MoveCaretUp => {
                self.move_caret(MoveDirection::Up);
                true
            },
            UpdateResult::MoveCaretDown => {
                self.move_caret(MoveDirection::Down);
                true
            },
            _ => false,
        }
    }

    /// The line under `point`, counted in line heights from the top of the
    /// area; 0 above it, and 0 while the file has not been laid out.
    pub fn resolve_line_from_point(&self, point: &Point) -> (r: i32)
        requires
            i32::MIN <= point.y - self.dest_of().y <= i32::MAX,
            self.file_of() matches Some(f) ==> f.line_height_spec() <= i32::MAX,
        ensures
            r == match self.file_of() {
                None => 0,
                Some(f) => line_at(f, self.dest_of().y, *point),
            },
            r >= 0,
            self.file_of() matches Some(f) ==> (f.line_height_spec() > 0 && point.y - self.dest_of().y > 0
                ==> r * f.line_height_spec() <= point.y - self.dest_of().y < (r + 1) * f.line_height_spec()),
    {
        let file = match &self.file {
            Some(f) => f,
            None => {
                return 0;
            },
        };
        let y: i32 = point.y - self.dest.y;
        let line_height = file.line_height();
        if y <= 0 {
            0
        } else if line_height == 0 {
            0
        } else {
            let h: i32 = line_height as i32;
            let q: i32 = y / h;
            proof {
                assert(q * h <= y < (q + 1) * h && q >= 0) by (nonlinear_arith)
                    requires
                        h > 0,
                        y > 0,
                        q == y / h,
                ;
            }
            q
        }
    }

    /// A click at `point`, with the text scrolled as the bars say: onto the
    /// character clicked, or, off the characters, after the end of the line
    /// clicked.
    pub fn on_left_click(&mut self, point: &Point, _context: &UpdateContext) -> (r: UpdateResult)
        requires
            old(self).wf(),
            click_fits(*old(self), *point),
        ensures
            r == UpdateResult::NoOp,
            final(self).wf(),
            clicked(*old(self), *final(self), *point),
    {
        let scroll = self.scroll();
        let file = match &self.file {
            Some(f) => f,
            None => {
                return UpdateResult::NoOp;
            },
        };
        let moved_by = scroll.offset(self.dest.x, self.dest.y);
        let target = find_hit(file.characters(), point, moved_by);
        match target {
            Some(c) => {
                let position = CaretPosition::new(c.position, c.line, 0);
                self.caret.move_caret(position, c.dest.top_left());
            },
            None => {
                let at = point.offset(-scroll.x, -scroll.y);
                let line = self.resolve_line_from_point(&at);
                self.set_caret_to_end_of_line(line);
            },
        }
        UpdateResult::NoOp
    }

    /// The click at `point` falls on a character of the open file, drawn
    /// scrolled as the bars say.
    pub fn is_text_character_clicked(&self, point: &Point) -> (r: bool)
        requires
            self.wf(),
        ensures
            r == match self.file_of() {
                None => false,
                Some(f) => {
                    let d = self.dest_of();
                    let scroll = scroll_point(self.hbar_of(), self.vbar_of());
                    first_hit(f.chars(), *point, Point { x: clamp_i32(scroll.x + d.x), y: clamp_i32(scroll.y + d.y) }) is Some
                },
            },
    {
        let file = match &self.file {
            Some(f) => f,
            None => {
                return false;
            },
        };
        let moved_by = self.scroll().offset(self.dest.x, self.dest.y);
        find_hit(file.characters(), point, moved_by).is_some()
    }

    /// The area holds the point `point` taken from the area's own corner.
    pub fn is_editor_clicked(&self, point: &Point) -> (r: bool)
        ensures
            r == self.dest_of().has_point(Point {
                x: moved_rect(*point, self.dest_of()).x,
                y: moved_rect(*point, self.dest_of()).y,
            }),
    {
        self.dest.contains_point(crate::geometry::move_render_point(*point, &self.dest).top_left())
    }

    /// A click at `point` concerns the editor when it falls on a character
    /// or in the area (see `is_text_character_clicked` and
    /// `is_editor_clicked`).
    pub fn is_left_click_target(&self, point: &Point, _context: &UpdateContext) -> (r: bool)
        requires
            self.wf(),
        ensures
            r == click_target(*self, *point),
    {
        self.is_text_character_clicked(point) || self.is_editor_clicked(point)
    }

    /// Puts the caret after the last character of line `line`, or, where that
    /// line has none, of the nearest line above that has one.
    pub fn set_caret_to_end_of_line(&mut self, line: i32)
        requires
            old(self).wf(),
        ensures
            final(self).file_of() == old(self).file_of(),
            final(self).dest_of() == old(self).dest_of(),
            final(self).same_scroll(*old(self)),
            match old(self).file_of() {
                None => final(self).caret_of() == old(self).caret_of(),
                Some(f) => final(self).caret_of() == caret_at_end_of_line(old(self).caret_of(), f, line as int),
            },
    {
        let file = match &self.file {
            Some(f) => f,
            None => {
                return;
            },
        };
        proof {
            file.lemma_positions();
        }
        let ghost cs = file.chars();
        let ghost line0 = line as int;
        let mut cur = line;
        while cur >= 0
            invariant
                cs == file.chars(),
                file.wf(),
                self.file_of() == Some(*file),
                self.caret_of() == old(self).caret_of(),
                self.dest_of() == old(self).dest_of(),
                self.same_scroll(*old(self)),
                forall|i: int| 0 <= i < cs.len() ==> #[trigger] cs[i].position < file.text().len(),
                file.text().len() <= usize::MAX,
                old(self).file_of() == Some(*file),
                end_of_line_target(cs, line0) == end_of_line_target(cs, cur as int),
                cur >= -1 || cur == line0,
                line0 == line as int,
            decreases cur + 1,
        {
            match file.get_last_at_line(cur as usize) {
                Some(tc) => {
                    proof {
                        lemma_last_at_line_in(cs, cur as nat);
                    }
                    let position = CaretPosition::new(tc.position + 1, cur as usize, 0);
                    let p = if tc.is_new_line() {
                        match file.get_character_at(tc.position + 1) {
                            Some(n) => n.dest.top_left(),
                            None => tc.dest.top_left(),
                        }
                    } else {
                        tc.dest.top_right()
                    };
                    proof {
                        assert(end_of_line_target(cs, cur as int) == Some((tc, cur as int)));
                        assert(p == point_after(cs, tc));
                    }
                    self.caret.move_caret(position, p);
                    return;
                },
                None => {
                    cur = cur - 1;
                },
            }
        }
    }
}

} // verus!
