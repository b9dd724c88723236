//! The project tree: a directory with its subdirectories and files, which
//! opens when clicked and lays its children out one below the other.

use vstd::prelude::*;
use vstd::string::StringExecFns;
use crate::config::paths::{join_path, joined};
use crate::config::settings::Config;
use crate::editor::text_character::CharacterSizeManager;
use crate::events::UpdateResult;
use crate::geometry::{clamp_i32, new_rect, rect_position, rect_size, Point, Rect};
use super::buttons::hits;
use super::widgets::{sat_add, FileEntry, Icon, Label, NAME_MARGIN};
use super::order::{contains_text, has_infix, lemma_name_le_total, lemma_name_le_transitive, name_le, names_le};
use super::{RenderContext, UpdateContext};
use super::draw::{border, fill, push_command, render_origin, views, DrawCommand, DrawSpec};
use super::widgets::{file_entry_commands, icon_commands, label_commands};
use crate::geometry::moved_rect;
use super::scroll_bar::{scroll_of, scroll_point, step_fits, stepped_value, HorizontalScrollBar, VerticalScrollBar};

verus! {

/// The gap between a directory's children, and between it and them.
pub const CHILD_MARGIN: i32 = 4;
/// How big a directory icon is before it is laid out.
pub const DEFAULT_ICON_SIZE: u32 = 16;

/// The last component of a path, as `std::path::Path::file_name` gives it.
pub uninterp spec fn path_file_name(path: Seq<char>) -> Option<Seq<char>>;

/// `std::path::Path::file_name` of `path`, as text. Its result depends on
/// the path alone and is named `path_file_name`; nothing more is stated.
#[verifier::external_body]
pub(crate) fn file_name_of(path: &str) -> (r: Option<String>)
    ensures
        match r {
            Some(n) => path_file_name(path@) == Some(n@),
            None => path_file_name(path@) is None,
        },
{
    std::path::Path::new(path).file_name().and_then(|n| n.to_str()).map(|n| n.to_owned())
}

/// An entry of a directory: its name, its path, and whether it is itself a
/// directory.
#[derive(Clone, Debug, PartialEq)]
pub struct DirEntry {
    pub name: String,
    pub path: String,
    pub is_dir: bool,
}

/// What the tree needs of the file system; the application implements it.
pub trait FileSystem {
    /// The entries of the directory at `path`; none when it cannot be read.
    fn list(&mut self, path: &str) -> Vec<DirEntry>;

    /// Whether something exists at `path`.
    fn is_present(&mut self, path: &str) -> bool;
}

/// The entries are in the order of their names.
pub open spec fn sorted_by_name(s: Seq<DirEntry>) -> bool {
    forall|i: int, j: int| 0 <= i < j < s.len() ==> name_le(#[trigger] s[i].name@, #[trigger] s[j].name@)
}

/// The entries of `entries`, in the order of their names.
pub fn sort_entries(entries: Vec<DirEntry>) -> (r: Vec<DirEntry>)
    ensures
        sorted_by_name(r@),
        r@.to_multiset() == entries@.to_multiset(),
{
    let ghost orig = entries@;
    let mut rest = entries;
    let mut out: Vec<DirEntry> = Vec::new();
    proof {
        broadcast use vstd::multiset::group_multiset_axioms;
        broadcast use vstd::seq_lib::group_to_multiset_ensures;
        assert(out@.to_multiset() =~= vstd::multiset::Multiset::<DirEntry>::empty());
        assert(out@.to_multiset().add(rest@.to_multiset()) =~= orig.to_multiset());
    }
    while rest.len() > 0
        invariant
            sorted_by_name(out@),
            out@.to_multiset().add(rest@.to_multiset()) == orig.to_multiset(),
        decreases rest@.len(),
    {
        let ghost before_rest = rest@;
        let ghost before_out = out@;
        let e = rest.remove(0);
        let mut k: usize = 0;
        while k < out.len()
            invariant
                0 <= k <= out@.len(),
                out@ == before_out,
                forall|i: int| 0 <= i < k ==> name_le(#[trigger] out@[i].name@, e.name@),
            ensures
                0 <= k <= out@.len(),
                out@ == before_out,
                forall|i: int| 0 <= i < k ==> name_le(#[trigger] out@[i].name@, e.name@),
                k < out@.len() ==> !name_le(out@[k as int].name@, e.name@),
            decreases out@.len() - k,
        {
            if !names_le(out[k].name.as_str(), e.name.as_str()) {
                break;
            }
            k = k + 1;
        }
        proof {
            if k < out@.len() {
                assert(!name_le(out@[k as int].name@, e.name@));
                lemma_name_le_total(out@[k as int].name@, e.name@);
            }
        }
        out.insert(k, e);
        proof {
            let s = out@;
            assert forall|i: int, j: int| 0 <= i < j < s.len() implies name_le(#[trigger] s[i].name@, #[trigger] s[j].name@) by {
                if i < k && j == k {
                } else if i < k && j > k {
                    assert(s[j] == before_out[j - 1]);
                    if k < before_out.len() {
                        lemma_name_le_total(before_out[k as int].name@, e.name@);
                        if j - 1 > k {
                            lemma_name_le_transitive(e.name@, before_out[k as int].name@, before_out[j - 1].name@);
                        }
                        lemma_name_le_transitive(before_out[i].name@, e.name@, before_out[j - 1].name@);
                    }
                } else if i == k {
                    assert(s[j] == before_out[j - 1]);
                    lemma_name_le_total(before_out[k as int].name@, e.name@);
                    if j - 1 > k {
                        lemma_name_le_transitive(e.name@, before_out[k as int].name@, before_out[j - 1].name@);
                    }
                } else if j < k {
                    assert(s[i] == before_out[i] && s[j] == before_out[j]);
                } else {
                    assert(s[i] == before_out[i - 1] && s[j] == before_out[j - 1]);
                }
            }
            broadcast use vstd::multiset::group_multiset_axioms;
            assert(out@ == before_out.insert(k as int, e));
            vstd::seq_lib::to_multiset_insert(before_out, k as int, e);
            assert(rest@ == before_rest.remove(0));
            vstd::seq_lib::to_multiset_remove(before_rest, 0);
            assert(before_rest[0] == e);
            assert(before_rest.to_multiset().count(e) > 0) by {
                vstd::seq_lib::to_multiset_contains(before_rest, e);
                assert(before_rest.contains(e));
            }
            assert(out@.to_multiset().add(rest@.to_multiset()) =~= orig.to_multiset());
        }
    }
    proof {
        broadcast use vstd::multiset::group_multiset_axioms;
        broadcast use vstd::seq_lib::group_to_multiset_ensures;
        assert(rest@ =~= Seq::<DirEntry>::empty());
        assert(rest@.to_multiset() =~= vstd::multiset::Multiset::<DirEntry>::empty());
        assert(out@.to_multiset() =~= out@.to_multiset().add(rest@.to_multiset()));
    }
    out
}

/// The paths of the directories among `s` that have a name, in order.
pub open spec fn entry_dir_paths(s: Seq<DirEntry>) -> Seq<Seq<char>>
    decreases s.len(),
{
    if s.len() == 0 {
        Seq::empty()
    } else if s.last().is_dir && path_file_name(s.last().path@) is Some {
        entry_dir_paths(s.drop_last()).push(s.last().path@)
    } else {
        entry_dir_paths(s.drop_last())
    }
}

/// The paths of the files among `s`, in order.
pub open spec fn entry_file_paths(s: Seq<DirEntry>) -> Seq<Seq<char>>
    decreases s.len(),
{
    if s.len() == 0 {
        Seq::empty()
    } else if !s.last().is_dir {
        entry_file_paths(s.drop_last()).push(s.last().path@)
    } else {
        entry_file_paths(s.drop_last())
    }
}

/// The names the directories among `s` are shown by, in order: the last
/// component of each one's path.
pub open spec fn entry_dir_names(s: Seq<DirEntry>) -> Seq<Seq<char>>
    decreases s.len(),
{
    if s.len() == 0 {
        Seq::empty()
    } else if s.last().is_dir && path_file_name(s.last().path@) is Some {
        entry_dir_names(s.drop_last()).push(path_file_name(s.last().path@).unwrap())
    } else {
        entry_dir_names(s.drop_last())
    }
}

/// The names of the files among `s`, in order.
pub open spec fn entry_file_names(s: Seq<DirEntry>) -> Seq<Seq<char>>
    decreases s.len(),
{
    if s.len() == 0 {
        Seq::empty()
    } else if !s.last().is_dir {
        entry_file_names(s.drop_last()).push(s.last().name@)
    } else {
        entry_file_names(s.drop_last())
    }
}

/// The names directory views show, in order.
pub open spec fn dir_names(ds: Seq<DirectoryView>) -> Seq<Seq<char>> {
    ds.map_values(|d: DirectoryView| d.name_label.name@)
}

/// The names file entries show, in order.
pub open spec fn file_names(fs: Seq<FileEntry>) -> Seq<Seq<char>> {
    fs.map_values(|f: FileEntry| f.label.name@)
}

/// A request to open `path` concerns the directory at `own`: it is that
/// directory, or lies inside it.
pub open spec fn concerns(path: Seq<char>, own: Seq<char>) -> bool {
    path == own || has_infix(path, own + seq!['/'])
}

/// A directory of the project tree.
pub struct DirectoryView {
    pub path: String,
    pub opened: bool,
    pub expanded: bool,
    pub height: u32,
    pub files: Vec<FileEntry>,
    pub directories: Vec<DirectoryView>,
    pub name_label: Label,
    pub icon: Icon,
    pub source: Rect,
    pub dest: Rect,
}

/// How high a directory is drawn: with its children while expanded, else
/// just its icon.
pub open spec fn dir_height(d: DirectoryView) -> u32 {
    if d.expanded {
        d.height
    } else {
        d.icon.dest.height
    }
}

/// The rectangle of a directory's icon, the gap and its name.
pub open spec fn name_and_icon(d: DirectoryView) -> Rect {
    new_rect(d.dest.x, d.dest.y, sat_add(sat_add(d.icon.dest.width, d.name_label.dest.width), NAME_MARGIN as u32), d.icon.dest.height)
}

/// The point `p` moved down by `dy`, held in the `i32` range.
pub open spec fn below(p: Point, dy: int) -> Point {
    Point { x: p.x, y: clamp_i32(p.y + dy) }
}

/// Where a directory's first child is drawn, for the directory drawn at
/// `dest`: right of its icon and below it, a margin away.
pub open spec fn first_child_at(d: DirectoryView, origin: Point) -> Point {
    Point {
        x: clamp_i32(moved_rect(origin, dirs_dest(d)).x + d.icon.dest.width + CHILD_MARGIN),
        y: clamp_i32(moved_rect(origin, dirs_dest(d)).y + d.icon.dest.height + CHILD_MARGIN),
    }
}

/// Where the children after the directories `ds` start, the first of them
/// drawn at `p`.
pub open spec fn after_dirs(ds: Seq<DirectoryView>, p: Point) -> Point
    decreases ds.len(),
{
    if ds.len() == 0 {
        p
    } else {
        after_dirs(ds.drop_first(), below(p, dir_height(ds[0]) + CHILD_MARGIN))
    }
}

/// Whether `point` falls on a file of `fs`, the first drawn at `p`.
pub open spec fn files_target(fs: Seq<FileEntry>, point: Point, p: Point) -> Option<FileEntry>
    decreases fs.len(),
{
    if fs.len() == 0 {
        None
    } else if hits(
        new_rect(
            fs[0].dest.x,
            fs[0].dest.y,
            sat_add(sat_add(fs[0].icon.dest.width, fs[0].label.dest.width), NAME_MARGIN as u32),
            fs[0].dest.height,
        ),
        point,
        UpdateContext::ParentPosition(p),
    ) {
        Some(fs[0])
    } else {
        files_target(fs.drop_first(), point, below(p, fs[0].dest.height + CHILD_MARGIN))
    }
}

/// Whether `point` falls on the directory `d` drawn relative to `origin`:
/// on its icon or name, or, while it is expanded, on one of its children.
pub open spec fn dir_target(d: DirectoryView, point: Point, origin: Point) -> bool
    decreases d, 0int,
{
    if hits(name_and_icon(d), point, UpdateContext::ParentPosition(origin)) {
        true
    } else if !d.expanded {
        false
    } else {
        let p = first_child_at(d, origin);
        dirs_target(d.directories@, point, p) || files_target(d.files@, point, after_dirs(d.directories@, p))
            is Some
    }
}

/// Whether `point` falls on one of the directories `ds`, the first drawn at `p`.
pub open spec fn dirs_target(ds: Seq<DirectoryView>, point: Point, p: Point) -> bool
    decreases ds, 1int,
{
    if ds.len() == 0 {
        false
    } else {
        dir_target(ds[0], point, p) || dirs_target(ds.drop_first(), point, below(p, dir_height(ds[0]) + CHILD_MARGIN))
    }
}

/// What a click at `point` on the directory `d` drawn relative to `origin`
/// asks for: to open the directory when its icon or name is hit, else what
/// the child hit asks for.
pub open spec fn dir_click(d: DirectoryView, point: Point, origin: Point) -> UpdateResult
    decreases d, 0int,
{
    if hits(name_and_icon(d), point, UpdateContext::ParentPosition(origin)) {
        UpdateResult::OpenDirectory(d.path)
    } else if !d.expanded {
        UpdateResult::NoOp
    } else {
        let p = first_child_at(d, origin);
        match dirs_click(d.directories@, point, p) {
            Some(r) => r,
            None => match files_target(d.files@, point, after_dirs(d.directories@, p)) {
                Some(f) => UpdateResult::OpenFile(f.path),
                None => UpdateResult::NoOp,
            },
        }
    }
}

/// What a click on the first of the directories `ds` that `point` falls
/// on asks for, the first drawn at `p`.
pub open spec fn dirs_click(ds: Seq<DirectoryView>, point: Point, p: Point) -> Option<UpdateResult>
    decreases ds, 1int,
{
    if ds.len() == 0 {
        None
    } else if dir_target(ds[0], point, p) {
        Some(dir_click(ds[0], point, p))
    } else {
        dirs_click(ds.drop_first(), point, below(p, dir_height(ds[0]) + CHILD_MARGIN))
    }
}

/// What the directory `d` drawn relative to `origin` draws: its icon at
/// its corner and its name right of the icon; while it is expanded, its
/// directories and then its files below and right of the icon, one under
/// the other (the layout of `first_child_at` and `after_dirs`).
pub open spec fn dir_commands(d: DirectoryView, origin: Point) -> Seq<DrawSpec>
    decreases d, 0int,
{
    let dest = moved_rect(origin, dirs_dest(d));
    let own = icon_commands(d.icon, RenderContext::ParentPosition(Point { x: dest.x, y: dest.y })) + label_commands(
        d.name_label,
        RenderContext::ParentPosition(Point { x: clamp_i32(dest.x + d.icon.dest.width), y: dest.y }),
    );
    if d.expanded {
        let p = first_child_at(d, origin);
        own + dirs_commands(d.directories@, p) + files_commands(d.files@, after_dirs(d.directories@, p))
    } else {
        own
    }
}

/// What the directories `ds` draw, the first drawn at `p`.
pub open spec fn dirs_commands(ds: Seq<DirectoryView>, p: Point) -> Seq<DrawSpec>
    decreases ds, 1int,
{
    if ds.len() == 0 {
        Seq::empty()
    } else {
        dir_commands(ds[0], p) + dirs_commands(ds.drop_first(), below(p, dir_height(ds[0]) + CHILD_MARGIN))
    }
}

/// What the file entries `fs` draw, the first drawn at `p`.
pub open spec fn files_commands(fs: Seq<FileEntry>, p: Point) -> Seq<DrawSpec>
    decreases fs.len(),
{
    if fs.len() == 0 {
        Seq::empty()
    } else {
        file_entry_commands(fs[0], RenderContext::ParentPosition(p)) + files_commands(
            fs.drop_first(),
            below(p, fs[0].dest.height + CHILD_MARGIN),
        )
    }
}

/// The paths of directories, in order.
pub open spec fn dir_paths(ds: Seq<DirectoryView>) -> Seq<Seq<char>> {
    ds.map_values(|d: DirectoryView| d.path@)
}

/// The paths of file entries, in order.
pub open spec fn file_paths(fs: Seq<FileEntry>) -> Seq<Seq<char>> {
    fs.map_values(|f: FileEntry| f.path@)
}

/// `base` and then, for each child directory and file in turn, its height
/// and a margin, added up and held at `u32::MAX`.
pub open spec fn stacked_height(base: u32, ds: Seq<DirectoryView>, fs: Seq<FileEntry>) -> u32
    decreases ds.len() + fs.len(),
{
    if fs.len() > 0 {
        sat_add(sat_add(stacked_height(base, ds, fs.drop_last()), fs.last().dest.height), CHILD_MARGIN as u32)
    } else if ds.len() > 0 {
        sat_add(sat_add(stacked_height(base, ds.drop_last(), fs), dir_height(ds.last())), CHILD_MARGIN as u32)
    } else {
        base
    }
}

impl DirectoryView {
    /// The directory at `path`, closed, with the theme's directory icon; its
    /// name is not laid out yet and takes no room.
    pub fn new(path: String, config: &Config) -> (r: Self)
        requires
            path_file_name(path@) is Some,
        ensures
            r.path@ == path@,
            r.name_label.name@ == path_file_name(path@).unwrap(),
            !r.opened,
            !r.expanded,
            r.height == 0,
            r.files@.len() == 0,
            r.directories@.len() == 0,
            r.name_label.dest == (Rect { x: 0, y: 0, width: 0, height: DEFAULT_ICON_SIZE }),
            r.icon.path@ == joined(config.directories.themes_dir@, config.theme.images.directory_icon@),
            r.icon.dest == (Rect { x: 0, y: 0, width: DEFAULT_ICON_SIZE, height: DEFAULT_ICON_SIZE }),
            r.source == (Rect { x: 0, y: 0, width: 64, height: 64 }),
            r.dest == new_rect(0, 0, 0, 0),
    {
        let name = match file_name_of(path.as_str()) {
            Some(n) => n,
            None => String::new(),
        };
        let dir_texture_path = join_path(
            config.directories.themes_dir.as_str(),
            config.theme.images.directory_icon.as_str(),
        );
        let mut name_label = Label::new(name);
        // The name takes no width until it is laid out.
        name_label.dest = Rect { x: 0, y: 0, width: 0, height: DEFAULT_ICON_SIZE };
        DirectoryView {
            path,
            opened: false,
            expanded: false,
            height: 0,
            files: Vec::new(),
            directories: Vec::new(),
            name_label,
            icon: Icon::new(
                dir_texture_path,
                Rect::new(0, 0, DEFAULT_ICON_SIZE, DEFAULT_ICON_SIZE),
                Rect::new(0, 0, DEFAULT_ICON_SIZE, DEFAULT_ICON_SIZE),
            ),
            source: Rect::new(0, 0, 64, 64),
            dest: Rect::new(0, 0, 0, 0),
        }
    }

    /// The directory at `path`, or nothing when the path has no last
    /// component to name it by.
    pub fn try_new(path: String, config: &Config) -> (r: Option<Self>)
        ensures
            r is Some <==> path_file_name(path@) is Some,
            r matches Some(d) ==> d.path@ == path@ && d.name_label.name@ == path_file_name(path@).unwrap()
                && !d.opened && d.files@.len() == 0 && d.directories@.len() == 0,
    {
        match file_name_of(path.as_str()) {
            Some(_) => Some(DirectoryView::new(path, config)),
            None => None,
        }
    }

    pub fn path(&self) -> (r: String)
        ensures
            r@ == self.path@,
    {
        self.path.clone()
    }

    pub fn name(&self) -> (r: String)
        ensures
            r@ == self.name_label.name@,
    {
        self.name_label.name()
    }

    pub fn name_width(&self) -> (r: u32)
        ensures
            r == self.name_label.dest.width,
    {
        self.name_label.name_width()
    }

    pub fn icon_width(&self) -> (r: u32)
        ensures
            r == self.icon.dest.width,
    {
        self.icon.width()
    }

    pub fn icon_height(&self) -> (r: u32)
        ensures
            r == self.icon.dest.height,
    {
        self.icon.height()
    }

    pub fn height(&self) -> (r: u32)
        ensures
            r == dir_height(*self),
    {
        if self.expanded {
            self.height
        } else {
            self.icon.height()
        }
    }

    pub fn source(&self) -> (r: &Rect)
        ensures
            *r == self.source,
    {
        &self.source
    }

    /// Where the directory is drawn: its icon, the gap and its name across,
    /// and its height down.
    pub fn dest(&self) -> (r: Rect)
        ensures
            r == dirs_dest(*self),
    {
        Rect::new(
            self.dest.x,
            self.dest.y,
            super::widgets::add_saturating(
                super::widgets::add_saturating(self.icon.width(), self.name_label.name_width()),
                NAME_MARGIN as u32,
            ),
            self.height(),
        )
    }

    /// Sizes the icon and the name from the font, lays the children out when
    /// the directory is open, and works out the height of the whole.
    pub fn prepare_ui<S: CharacterSizeManager>(&mut self, sizes: &mut S)
        ensures
            dir_prepared(*old(self), *final(self)),
        decreases *old(self),
    {
        let size = sizes.load_character_size('W');
        self.icon.dest.set_height(size.height);
        self.icon.dest.set_width(size.height);
        self.name_label.prepare_ui(sizes);
        if self.opened {
            let ghost orig = self.directories@;
            let mut rest: Vec<DirectoryView> = Vec::new();
            std::mem::swap(&mut rest, &mut self.directories);
            let mut done: Vec<DirectoryView> = Vec::new();
            let n = rest.len();
            let mut k: usize = 0;
            while k < n
                invariant
                    n == orig.len(),
                    0 <= k <= n,
                    orig == old(self).directories@,
                    rest@ == orig.skip(k as int),
                    done@.len() == k,
                    forall|j: int| 0 <= j < k ==> #[trigger] done@[j].path == orig[j].path,
                decreases n - k,
            {
                let mut d = rest.remove(0);
                proof {
                    assert(d == orig[k as int]);
                    assert(decreases_to!(*old(self) => old(self).directories));
                    assert(decreases_to!(old(self).directories => old(self).directories@));
                    assert(decreases_to!(old(self).directories@ => old(self).directories@[k as int]));
                    assert(rest@ =~= orig.skip(k + 1));
                }
                d.prepare_ui(sizes);
                done.push(d);
                k = k + 1;
            }
            self.directories = done;
            proof {
                assert(dir_paths(self.directories@) =~= dir_paths(orig));
            }
            let ghost forig = self.files@;
            let mut frest: Vec<FileEntry> = Vec::new();
            std::mem::swap(&mut frest, &mut self.files);
            let mut fdone: Vec<FileEntry> = Vec::new();
            let m = frest.len();
            let mut q: usize = 0;
            while q < m
                invariant
                    m == forig.len(),
                    0 <= q <= m,
                    frest@ == forig.skip(q as int),
                    fdone@.len() == q,
                    forall|j: int| 0 <= j < q ==> #[trigger] fdone@[j].path@ == forig[j].path@,
                decreases m - q,
            {
                let mut f = frest.remove(0);
                proof {
                    assert(f == forig[q as int]);
                    assert(frest@ =~= forig.skip(q + 1));
                }
                f.prepare_ui(sizes);
                let ghost before = fdone@;
                fdone.push(f);
                proof {
                    assert(fdone@[q as int] == f);
                    assert(forall|j: int| 0 <= j < q ==> fdone@[j] == before[j]);
                }
                q = q + 1;
            }
            self.files = fdone;
            proof {
                assert(file_paths(self.files@) =~= file_paths(forig));
            }
        }
        self.calculate_size(sizes);
    }

    /// Appends what the directory draws (see `dir_commands`).
    pub fn render(&self, context: &RenderContext, out: &mut Vec<DrawCommand>)
        ensures
            views(final(out)@) == views(old(out)@) + dir_commands(*self, render_origin(*context)),
        decreases *self,
    {
        let origin = match context {
            RenderContext::ParentPosition(p) => *p,
            RenderContext::Nothing => Point::new(0, 0),
        };
        let ghost start = views(out@);
        let dest = crate::geometry::move_render_point(origin, &self.dest());
        self.icon.render(&RenderContext::ParentPosition(Point::new(dest.x, dest.y)), out);
        self.name_label.render(
            &RenderContext::ParentPosition(Point::new(crate::geometry::add_clamped(dest.x, self.icon.width() as i64), dest.y)),
            out,
        );
        let ghost own = views(out@);
        if !self.expanded {
            proof {
                assert(views(out@) =~= start + dir_commands(*self, origin));
            }
            return;
        }
        let mut p = Point::new(
            crate::geometry::add_clamped(dest.x, self.icon.width() as i64 + CHILD_MARGIN as i64),
            crate::geometry::add_clamped(dest.y, self.icon.height() as i64 + CHILD_MARGIN as i64),
        );
        let ghost ds = self.directories@;
        let ghost p0 = p;
        let mut i: usize = 0;
        proof {
            assert(ds.skip(0) =~= ds);
            assert(p0 == first_child_at(*self, origin));
            assert(own + Seq::<DrawSpec>::empty() =~= own);
        }
        while i < self.directories.len()
            invariant
                ds == self.directories@,
                0 <= i <= ds.len(),
                own + dirs_commands(ds, p0) == views(out@) + dirs_commands(ds.skip(i as int), p),
                after_dirs(ds, p0) == after_dirs(ds.skip(i as int), p),
            decreases ds.len() - i,
        {
            let d = &self.directories[i];
            proof {
                assert(decreases_to!(*self => self.directories));
                assert(decreases_to!(self.directories => self.directories@));
                assert(decreases_to!(self.directories@ => self.directories@[i as int]));
                assert(ds.skip(i as int)[0] == ds[i as int]);
                assert(ds.skip(i as int).drop_first() =~= ds.skip(i + 1));
            }
            let ghost before = views(out@);
            let q = Point::new(p.x, crate::geometry::add_clamped(p.y, d.height() as i64 + CHILD_MARGIN as i64));
            d.render(&RenderContext::ParentPosition(p), out);
            proof {
                assert(dirs_commands(ds.skip(i as int), p) == dir_commands(ds[i as int], p) + dirs_commands(ds.skip(i + 1), q));
                assert(before + (dir_commands(ds[i as int], p) + dirs_commands(ds.skip(i + 1), q)) =~= views(out@)
                    + dirs_commands(ds.skip(i + 1), q));
            }
            p = q;
            i = i + 1;
        }
        let ghost fs = self.files@;
        let ghost q0 = p;
        let ghost with_dirs = views(out@);
        let mut j: usize = 0;
        proof {
            assert(fs.skip(0) =~= fs);
            assert(ds.skip(ds.len() as int) =~= Seq::<DirectoryView>::empty());
            assert(q0 == after_dirs(ds, p0));
            assert(with_dirs + Seq::<DrawSpec>::empty() =~= with_dirs);
        }
        while j < self.files.len()
            invariant
                fs == self.files@,
                0 <= j <= fs.len(),
                with_dirs + files_commands(fs, q0) == views(out@) + files_commands(fs.skip(j as int), p),
            decreases fs.len() - j,
        {
            let f = &self.files[j];
            proof {
                assert(fs.skip(j as int)[0] == fs[j as int]);
                assert(fs.skip(j as int).drop_first() =~= fs.skip(j + 1));
            }
            let ghost before = views(out@);
            let q = Point::new(p.x, crate::geometry::add_clamped(p.y, f.height() as i64 + CHILD_MARGIN as i64));
            f.render(&RenderContext::ParentPosition(p), out);
            proof {
                assert(files_commands(fs.skip(j as int), p) == file_entry_commands(fs[j as int], RenderContext::ParentPosition(p))
                    + files_commands(fs.skip(j + 1), q));
                assert(before + (file_entry_commands(fs[j as int], RenderContext::ParentPosition(p)) + files_commands(fs.skip(j + 1), q))
                    =~= views(out@) + files_commands(fs.skip(j + 1), q));
            }
            p = q;
            j = j + 1;
        }
        proof {
            assert(fs.skip(fs.len() as int) =~= Seq::<FileEntry>::empty());
            assert(views(out@) + files_commands(fs.skip(j as int), p) =~= views(out@));
            assert(dir_commands(*self, origin) == own.subrange(start.len() as int, own.len() as int) + dirs_commands(ds, p0)
                + files_commands(fs, q0));
            assert(views(out@) =~= start + dir_commands(*self, origin));
        }
    }

    /// Whether `point` falls on the directory placed in `context` (see
    /// `dir_target`).
    pub fn is_left_click_target(&self, point: &Point, context: &UpdateContext) -> (r: bool)
        ensures
            r == dir_target(*self, *point, super::origin_of(*context)),
        decreases *self,
    {
        let origin = match context {
            UpdateContext::ParentPosition(p) => *p,
            UpdateContext::Nothing => Point::new(0, 0),
        };
        let own = UpdateContext::ParentPosition(origin);
        if super::placed(&self.name_and_icon_rect(), &own).contains_point(*point) {
            return true;
        }
        if !self.expanded {
            return false;
        }
        let dest = super::placed(&self.dest(), &own);
        let mut p = Point::new(
            crate::geometry::add_clamped(dest.x, self.icon.width() as i64 + CHILD_MARGIN as i64),
            crate::geometry::add_clamped(dest.y, self.icon.height() as i64 + CHILD_MARGIN as i64),
        );
        let ghost ds = self.directories@;
        let ghost p0 = p;
        let ghost whole = dir_target(*self, *point, origin);
        let mut i: usize = 0;
        proof {
            assert(ds.skip(0) =~= ds);
            assert(p0 == first_child_at(*self, origin));
            assert(whole == (dirs_target(ds, *point, p0) || files_target(self.files@, *point, after_dirs(ds, p0)) is Some));
        }
        while i < self.directories.len()
            invariant
                ds == self.directories@,
                0 <= i <= ds.len(),
                whole == (dirs_target(ds, *point, p0) || files_target(self.files@, *point, after_dirs(ds, p0)) is Some),
                whole == dir_target(*self, *point, super::origin_of(*context)),
                dirs_target(ds, *point, p0) == dirs_target(ds.skip(i as int), *point, p),
                after_dirs(ds, p0) == after_dirs(ds.skip(i as int), p),
            decreases ds.len() - i,
        {
            let d = &self.directories[i];
            proof {
                assert(decreases_to!(*self => self.directories));
                assert(decreases_to!(self.directories => self.directories@));
                assert(decreases_to!(self.directories@ => self.directories@[i as int]));
                assert(ds.skip(i as int)[0] == ds[i as int]);
                assert(ds.skip(i as int).drop_first() =~= ds.skip(i + 1));
            }
            if d.is_left_click_target(point, &UpdateContext::ParentPosition(p)) {
                return true;
            }
            p = Point::new(p.x, crate::geometry::add_clamped(p.y, d.height() as i64 + CHILD_MARGIN as i64));
            i = i + 1;
        }
        let ghost fs = self.files@;
        let ghost q0 = p;
        let mut j: usize = 0;
        proof {
            assert(fs.skip(0) =~= fs);
            assert(ds.skip(ds.len() as int) =~= Seq::<DirectoryView>::empty());
            assert(q0 == after_dirs(ds, p0));
        }
        while j < self.files.len()
            invariant
                fs == self.files@,
                0 <= j <= fs.len(),
                files_target(fs, *point, q0) == files_target(fs.skip(j as int), *point, p),
                whole == (dirs_target(ds, *point, p0) || files_target(fs, *point, q0) is Some),
                whole == dir_target(*self, *point, super::origin_of(*context)),
                !dirs_target(ds, *point, p0),
            decreases fs.len() - j,
        {
            let f = &self.files[j];
            proof {
                assert(fs.skip(j as int)[0] == fs[j as int]);
                assert(fs.skip(j as int).drop_first() =~= fs.skip(j + 1));
            }
            if f.is_left_click_target(point, &UpdateContext::ParentPosition(p)) {
                return true;
            }
            p = Point::new(p.x, crate::geometry::add_clamped(p.y, f.height() as i64 + CHILD_MARGIN as i64));
            j = j + 1;
        }
        proof {
            assert(fs.skip(fs.len() as int) =~= Seq::<FileEntry>::empty());
        }
        false
    }

    /// What a click at `point` on the directory placed in `context` asks
    /// for (see `dir_click`).
    pub fn on_left_click(&mut self, point: &Point, context: &UpdateContext) -> (r: UpdateResult)
        ensures
            r == dir_click(*old(self), *point, super::origin_of(*context)),
            *final(self) == *old(self),
    {
        self.click(point, context)
    }

    fn click(&self, point: &Point, context: &UpdateContext) -> (r: UpdateResult)
        ensures
            r == dir_click(*self, *point, super::origin_of(*context)),
        decreases *self,
    {
        let origin = match context {
            UpdateContext::ParentPosition(p) => *p,
            UpdateContext::Nothing => Point::new(0, 0),
        };
        let own = UpdateContext::ParentPosition(origin);
        if super::placed(&self.name_and_icon_rect(), &own).contains_point(*point) {
            return UpdateResult::OpenDirectory(self.path.clone());
        }
        if !self.expanded {
            return UpdateResult::NoOp;
        }
        let dest = super::placed(&self.dest(), &own);
        let mut p = Point::new(
            crate::geometry::add_clamped(dest.x, self.icon.width() as i64 + CHILD_MARGIN as i64),
            crate::geometry::add_clamped(dest.y, self.icon.height() as i64 + CHILD_MARGIN as i64),
        );
        let ghost ds = self.directories@;
        let ghost p0 = p;
        let ghost whole = dir_click(*self, *point, origin);
        let mut i: usize = 0;
        proof {
            assert(ds.skip(0) =~= ds);
            assert(p0 == first_child_at(*self, origin));
        }
        while i < self.directories.len()
            invariant
                ds == self.directories@,
                0 <= i <= ds.len(),
                dirs_click(ds, *point, p0) == dirs_click(ds.skip(i as int), *point, p),
                after_dirs(ds, p0) == after_dirs(ds.skip(i as int), p),
                whole == dir_click(*self, *point, super::origin_of(*context)),
                whole == match dirs_click(ds, *point, p0) {
                    Some(r) => r,
                    None => match files_target(self.files@, *point, after_dirs(ds, p0)) {
                        Some(f) => UpdateResult::OpenFile(f.path),
                        None => UpdateResult::NoOp,
                    },
                },
            decreases ds.len() - i,
        {
            let d = &self.directories[i];
            proof {
                assert(decreases_to!(*self => self.directories));
                assert(decreases_to!(self.directories => self.directories@));
                assert(decreases_to!(self.directories@ => self.directories@[i as int]));
                assert(ds.skip(i as int)[0] == ds[i as int]);
                assert(ds.skip(i as int).drop_first() =~= ds.skip(i + 1));
            }
            let child = UpdateContext::ParentPosition(p);
            if d.is_left_click_target(point, &child) {
                return d.click(point, &child);
            }
            p = Point::new(p.x, crate::geometry::add_clamped(p.y, d.height() as i64 + CHILD_MARGIN as i64));
            i = i + 1;
        }
        let ghost fs = self.files@;
        let ghost q0 = p;
        let mut j: usize = 0;
        proof {
            assert(fs.skip(0) =~= fs);
            assert(ds.skip(ds.len() as int) =~= Seq::<DirectoryView>::empty());
            assert(q0 == after_dirs(ds, p0));
        }
        while j < self.files.len()
            invariant
                fs == self.files@,
                0 <= j <= fs.len(),
                files_target(fs, *point, q0) == files_target(fs.skip(j as int), *point, p),
                whole == dir_click(*self, *point, super::origin_of(*context)),
                whole == match files_target(fs, *point, q0) {
                    Some(f) => UpdateResult::OpenFile(f.path),
                    None => UpdateResult::NoOp,
                },
            decreases fs.len() - j,
        {
            let f = &self.files[j];
            proof {
                assert(fs.skip(j as int)[0] == fs[j as int]);
                assert(fs.skip(j as int).drop_first() =~= fs.skip(j + 1));
            }
            if f.is_left_click_target(point, &UpdateContext::ParentPosition(p)) {
                return UpdateResult::OpenFile(f.path.clone());
            }
            p = Point::new(p.x, crate::geometry::add_clamped(p.y, f.height() as i64 + CHILD_MARGIN as i64));
            j = j + 1;
        }
        proof {
            assert(fs.skip(fs.len() as int) =~= Seq::<FileEntry>::empty());
        }
        UpdateResult::NoOp
    }

    /// Makes the children those of `entries`: the directories and the files
    /// each in the order of their names, each laid out; a file shows the
    /// name of its entry, a directory the last component of its path.
    pub fn read_entries<S: CharacterSizeManager>(&mut self, entries: Vec<DirEntry>, sizes: &mut S, config: &Config)
        ensures
            final(self).path == old(self).path,
            final(self).opened == old(self).opened,
            final(self).expanded == old(self).expanded,
            final(self).height == old(self).height,
            final(self).name_label == old(self).name_label,
            final(self).icon == old(self).icon,
            final(self).source == old(self).source,
            final(self).dest == old(self).dest,
            exists|srt: Seq<DirEntry>|
                {
                    &&& sorted_by_name(srt)
                    &&& srt.to_multiset() == entries@.to_multiset()
                    &&& dir_paths(final(self).directories@) == entry_dir_paths(srt)
                    &&& file_paths(final(self).files@) == entry_file_paths(srt)
                    &&& dir_names(final(self).directories@) == entry_dir_names(srt)
                    &&& file_names(final(self).files@) == entry_file_names(srt)
                },
    {
        let mut sorted = sort_entries(entries);
        let ghost srt = sorted@;
        let mut dirs: Vec<DirectoryView> = Vec::new();
        let mut files: Vec<FileEntry> = Vec::new();
        let n = sorted.len();
        let mut i: usize = 0;
        proof {
            assert(srt.take(0) =~= Seq::<DirEntry>::empty());
            assert(dir_paths(dirs@) =~= Seq::<Seq<char>>::empty());
            assert(file_paths(files@) =~= Seq::<Seq<char>>::empty());
            assert(dir_names(dirs@) =~= Seq::<Seq<char>>::empty());
            assert(file_names(files@) =~= Seq::<Seq<char>>::empty());
        }
        while i < n
            invariant
                n == srt.len(),
                0 <= i <= n,
                sorted@ == srt.skip(i as int),
                dir_paths(dirs@) == entry_dir_paths(srt.take(i as int)),
                file_paths(files@) == entry_file_paths(srt.take(i as int)),
                dir_names(dirs@) == entry_dir_names(srt.take(i as int)),
                file_names(files@) == entry_file_names(srt.take(i as int)),
            decreases n - i,
        {
            let e = sorted.remove(0);
            proof {
                assert(e == srt[i as int]);
                assert(sorted@ =~= srt.skip(i + 1));
                assert(srt.take(i + 1).drop_last() =~= srt.take(i as int));
                assert(srt.take(i + 1).last() == e);
            }
            if e.is_dir {
                match DirectoryView::try_new(e.path, config) {
                    Some(mut d) => {
                        d.prepare_ui(sizes);
                        let ghost before = dirs@;
                        dirs.push(d);
                        proof {
                            assert(dir_paths(dirs@) =~= dir_paths(before).push(e.path@));
                            assert(dir_names(dirs@) =~= dir_names(before).push(path_file_name(e.path@).unwrap()));
                        }
                    },
                    None => {},
                }
            } else {
                let mut f = FileEntry::new(e.name, e.path, config);
                f.prepare_ui(sizes);
                let ghost before = files@;
                files.push(f);
                proof {
                    assert(file_paths(files@) =~= file_paths(before).push(e.path@));
                    assert(file_names(files@) =~= file_names(before).push(e.name@));
                }
            }
            i = i + 1;
        }
        proof {
            assert(srt.take(n as int) =~= srt);
        }
        self.directories = dirs;
        self.files = files;
    }

    /// Opens the directory at `dir_path`: this one, when the path is its
    /// own (a first time it reads its entries and expands; after that it
    /// toggles between expanded and collapsed), or the subdirectory that
    /// leads there, when the path lies inside it (opening this one first if
    /// need be). Reports whether the path concerned this directory.
    pub fn open_directory<F: FileSystem, S: CharacterSizeManager>(
        &mut self,
        dir_path: &str,
        fs: &mut F,
        sizes: &mut S,
        config: &Config,
    ) -> (r: bool)
        ensures
            r == concerns(dir_path@, old(self).path@),
            dir_opened(*old(self), *final(self), dir_path@),
        decreases dir_path@.len() - old(self).path@.len(),
    {
        let target = dir_path.to_owned();
        if target == self.path {
            if !self.opened {
                self.opened = true;
                self.expand_view();
                let entries = fs.list(self.path.as_str());
                self.read_entries(entries, sizes, config);
            } else if self.expanded {
                self.collapse_view();
            } else {
                self.expand_view();
            }
            self.calculate_size(sizes);
            return true;
        }
        let mut own = self.path.clone();
        own.append("/");
        proof {
            reveal_strlit("/");
            assert(own@ == old(self).path@ + seq!['/']);
        }
        if !contains_text(dir_path, own.as_str()) {
            return false;
        }
        if !self.opened {
            self.opened = true;
            self.expand_view();
            let entries = fs.list(self.path.as_str());
            self.read_entries(entries, sizes, config);
        }
        let own_len = self.path.unicode_len();
        let path_len = dir_path.unicode_len();
        let ghost orig = self.directories@;
        let ghost mid = *self;
        let mut rest: Vec<DirectoryView> = Vec::new();
        std::mem::swap(&mut rest, &mut self.directories);
        let mut done: Vec<DirectoryView> = Vec::new();
        let n = rest.len();
        let mut k: usize = 0;
        let mut handled = false;
        let ghost mut hi: int = -1;
        while k < n
            invariant
                n == orig.len(),
                0 <= k <= n,
                orig == mid.directories@,
                rest@ == orig.skip(k as int),
                done@.len() == k,
                -1 <= hi < k,
                handled <==> 0 <= hi,
                forall|j: int| 0 <= j < k && j != hi ==> #[trigger] done@[j] == orig[j],
                0 <= hi ==> dir_opened(orig[hi], done@[hi], dir_path@) && concerns(dir_path@, orig[hi].path@),
                old(self).opened ==> orig == old(self).directories@,
                own_len == old(self).path@.len(),
                path_len == dir_path@.len(),
            decreases n - k,
        {
            let mut d = rest.remove(0);
            proof {
                assert(d == orig[k as int]);
                assert(rest@ =~= orig.skip(k + 1));
            }
            let ghost d0 = d;
            let deeper = own_len < d.path.unicode_len() && d.path.unicode_len() <= path_len;
            if !handled && deeper {
                if d.open_directory(dir_path, fs, sizes, config) {
                    handled = true;
                    proof {
                        hi = k as int;
                    }
                }
            }
            let ghost before = done@;
            done.push(d);
            proof {
                assert(done@[k as int] == d);
                assert(forall|j: int| 0 <= j < k ==> done@[j] == before[j]);
                if hi != k as int {
                    assert(d == d0);
                }
            }
            k = k + 1;
        }
        self.directories = done;
        proof {
            assert forall|j: int| 0 <= j < orig.len() implies #[trigger] done@[j].path == orig[j].path
                && done@[j].name_label == orig[j].name_label by {
                if j != hi {
                    assert(done@[j] == orig[j]);
                }
            }
            assert(dir_paths(self.directories@) =~= dir_paths(orig));
            assert(dir_names(self.directories@) =~= dir_names(orig));
        }
        self.calculate_size(sizes);
        proof {
            reveal_with_fuel(dir_opened, 2);
            if !old(self).opened {
                assert(children_listed(mid.directories@, mid.files@));
                assert(children_listed(self.directories@, self.files@));
                assert(dir_opened(*old(self), *self, dir_path@));
            } else if hi < 0 {
                assert(self.directories@ =~= old(self).directories@);
                assert(dir_opened(*old(self), *self, dir_path@));
            } else {
                assert(old(self).directories@[hi] == orig[hi]);
                assert(forall|k: int|
                    0 <= k < old(self).directories@.len() && k != hi ==> #[trigger] self.directories@[k]
                        == old(self).directories@[k]);
            }
            assert(dir_opened(*old(self), *self, dir_path@));
        }
        true
    }

    /// The answer to an update when the directory is, or is not, still there.
    pub fn update_status(present: bool) -> (r: UpdateResult)
        ensures
            r == (if present { UpdateResult::NoOp } else { UpdateResult::RefreshFsTree }),
    {
        if present {
            UpdateResult::NoOp
        } else {
            UpdateResult::RefreshFsTree
        }
    }

    /// Asks for the tree to be read again once the directory is gone (see
    /// `update_status`); what `fs` says is not known here.
    pub fn update<F: FileSystem>(&mut self, fs: &mut F) -> (r: UpdateResult)
        ensures
            *final(self) == *old(self),
            r == UpdateResult::NoOp || r == UpdateResult::RefreshFsTree,
    {
        let present = fs.is_present(self.path.as_str());
        DirectoryView::update_status(present)
    }

    /// Opens the view: it spans its children.
    fn expand_view(&mut self)
        ensures
            final(self).expanded,
            final(self).dest == new_rect(
                old(self).dest.x,
                old(self).dest.y,
                sat_add(sat_add(old(self).icon.dest.width, old(self).name_label.dest.width), NAME_MARGIN as u32),
                old(self).height,
            ),
            final(self).path == old(self).path,
            final(self).opened == old(self).opened,
            final(self).height == old(self).height,
            final(self).files == old(self).files,
            final(self).directories == old(self).directories,
            final(self).name_label == old(self).name_label,
            final(self).icon == old(self).icon,
            final(self).source == old(self).source,
    {
        self.expanded = true;
        self.dest = Rect::new(
            self.dest.x,
            self.dest.y,
            super::widgets::add_saturating(
                super::widgets::add_saturating(self.icon.width(), self.name_label.name_width()),
                NAME_MARGIN as u32,
            ),
            self.height,
        );
    }

    /// Closes the view: it spans its icon alone.
    fn collapse_view(&mut self)
        ensures
            !final(self).expanded,
            final(self).dest == new_rect(
                old(self).dest.x,
                old(self).dest.y,
                sat_add(sat_add(old(self).icon.dest.width, old(self).name_label.dest.width), NAME_MARGIN as u32),
                old(self).icon.dest.height,
            ),
            final(self).path == old(self).path,
            final(self).opened == old(self).opened,
            final(self).height == old(self).height,
            final(self).files == old(self).files,
            final(self).directories == old(self).directories,
            final(self).name_label == old(self).name_label,
            final(self).icon == old(self).icon,
            final(self).source == old(self).source,
    {
        self.expanded = false;
        self.dest = Rect::new(
            self.dest.x,
            self.dest.y,
            super::widgets::add_saturating(
                super::widgets::add_saturating(self.icon.width(), self.name_label.name_width()),
                NAME_MARGIN as u32,
            ),
            self.icon.height(),
        );
    }

    /// The height of the whole view: a line for its name, then each child
    /// and a margin.
    fn calculate_size<S: CharacterSizeManager>(&mut self, sizes: &mut S)
        ensures
            exists|h: u32| final(self).height == stacked_height(h, old(self).directories@, old(self).files@),
            final(self).path == old(self).path,
            final(self).opened == old(self).opened,
            final(self).expanded == old(self).expanded,
            final(self).files == old(self).files,
            final(self).directories == old(self).directories,
            final(self).name_label == old(self).name_label,
            final(self).icon == old(self).icon,
            final(self).source == old(self).source,
            final(self).dest == old(self).dest,
    {
        let size = sizes.load_character_size('W');
        let ghost ds = self.directories@;
        let ghost fs = self.files@;
        let mut height = size.height;
        let mut i: usize = 0;
        proof {
            assert(ds.take(0) =~= Seq::<DirectoryView>::empty());
            assert(fs.take(0) =~= Seq::<FileEntry>::empty());
        }
        while i < self.directories.len()
            invariant
                ds == self.directories@,
                0 <= i <= ds.len(),
                height == stacked_height(size.height, ds.take(i as int), Seq::<FileEntry>::empty()),
            decreases ds.len() - i,
        {
            proof {
                assert(ds.take(i + 1).drop_last() =~= ds.take(i as int));
            }
            let h = self.directories[i].height();
            height = super::widgets::add_saturating(super::widgets::add_saturating(height, h), CHILD_MARGIN as u32);
            i = i + 1;
        }
        proof {
            assert(ds.take(ds.len() as int) =~= ds);
        }
        let mut j: usize = 0;
        while j < self.files.len()
            invariant
                ds == self.directories@,
                fs == self.files@,
                0 <= j <= fs.len(),
                height == stacked_height(size.height, ds, fs.take(j as int)),
            decreases fs.len() - j,
        {
            proof {
                assert(fs.take(j + 1).drop_last() =~= fs.take(j as int));
            }
            let h = self.files[j].height();
            height = super::widgets::add_saturating(super::widgets::add_saturating(height, h), CHILD_MARGIN as u32);
            j = j + 1;
        }
        proof {
            assert(fs.take(fs.len() as int) =~= fs);
        }
        self.height = height;
    }

    fn name_and_icon_rect(&self) -> (r: Rect)
        ensures
            r == name_and_icon(*self),
    {
        Rect::new(
            self.dest.x,
            self.dest.y,
            super::widgets::add_saturating(
                super::widgets::add_saturating(self.icon.width(), self.name_label.name_width()),
                NAME_MARGIN as u32,
            ),
            self.icon.height(),
        )
    }
}

/// Where the tree starts inside the sidebar.
pub const CONTENT_MARGIN_LEFT: i32 = 16;
pub const CONTENT_MARGIN_TOP: i32 = 24;

/// The sidebar that shows the project tree from its root directory.
pub struct ProjectTreeSidebar {
    pub dest: Rect,
    pub full_dest: Rect,
    pub root: String,
    pub border_color: crate::themes::SerdeColor,
    pub background_color: crate::themes::SerdeColor,
    pub dir_view: DirectoryView,
    pub vertical_scroll_bar: VerticalScrollBar,
    pub horizontal_scroll_bar: HorizontalScrollBar,
}

impl ProjectTreeSidebar {
    /// How far the tree is scrolled (see `scroll_point`).
    pub open spec fn scroll_spec(&self) -> Point {
        scroll_point(self.horizontal_scroll_bar.bar_of(), self.vertical_scroll_bar.bar_of())
    }

    /// Neither bar stands at the lowest `i32`, whose negation overflows.
    pub open spec fn scroll_ok(&self) -> bool {
        &&& self.horizontal_scroll_bar.bar_of().value_of() > i32::MIN
        &&& self.vertical_scroll_bar.bar_of().value_of() > i32::MIN
    }
}

/// A click at `point` concerns the sidebar `t` placed in `context`: it
/// falls on the tree, or on the sidebar's area from the tree's corner on.
pub open spec fn sidebar_target(t: ProjectTreeSidebar, point: Point, context: UpdateContext) -> bool {
    let dest = super::placed_spec(t.dest, context);
    let p = tree_origin(dest, t.scroll_spec());
    dir_target(t.dir_view, point, p) || new_rect(p.x, p.y, dest.width, dest.height).has_point(point)
}

/// What a click at `point` on the sidebar `t` placed in `context` asks for
/// (see `dir_click`).
pub open spec fn sidebar_click(t: ProjectTreeSidebar, point: Point, context: UpdateContext) -> UpdateResult {
    dir_click(t.dir_view, point, tree_origin(super::placed_spec(t.dest, context), t.scroll_spec()))
}

/// Where the tree's root is drawn in a sidebar at `dest`, scrolled by
/// `scroll`.
pub open spec fn tree_origin(dest: Rect, scroll: Point) -> Point {
    Point {
        x: clamp_i32(clamp_i32(dest.x + CONTENT_MARGIN_LEFT) + scroll.x),
        y: clamp_i32(clamp_i32(dest.y + CONTENT_MARGIN_TOP) + scroll.y),
    }
}

impl ProjectTreeSidebar {
    /// A sidebar 200 wide and as high as the window, on the tree at `root`.
    pub fn new(root: String, config: &Config) -> (r: Self)
        requires
            path_file_name(root@) is Some,
        ensures
            r.root@ == root@,
            r.dest == new_rect(0, 0, 200, config.height),
            r.full_dest == (Rect { x: 0, y: 0, width: DEFAULT_ICON_SIZE, height: DEFAULT_ICON_SIZE }),
            r.dir_view.path@ == root@,
            !r.dir_view.opened,
            r.background_color == config.theme.background,
            r.border_color == config.theme.border_color,
            r.vertical_scroll_bar.bar_of().is(0, 1, 1, new_rect(0, 0, config.scroll.width, 0)),
            r.horizontal_scroll_bar.bar_of().is(0, 1, 1, new_rect(0, 0, config.scroll.width, 0)),
    {
        let dir_view = DirectoryView::new(root.clone(), config);
        ProjectTreeSidebar {
            dest: Rect::new(0, 0, 200, config.height),
            full_dest: Rect::new(0, 0, DEFAULT_ICON_SIZE, DEFAULT_ICON_SIZE),
            root,
            border_color: config.theme.border_color,
            background_color: config.theme.background,
            dir_view,
            vertical_scroll_bar: VerticalScrollBar::new(config),
            horizontal_scroll_bar: HorizontalScrollBar::new(config),
        }
    }

    /// Scrolls the tree by `x` and `y` wheel steps (see `stepped_value`).
    pub fn scroll_by(&mut self, x: i32, y: i32, config: &Config)
        requires
            step_fits(old(self).horizontal_scroll_bar.bar_of().value_of(), config.scroll.speed, x),
            step_fits(old(self).vertical_scroll_bar.bar_of().value_of(), config.scroll.speed, y),
        ensures
            final(self).horizontal_scroll_bar.bar_of().is(
                stepped_value(
                    old(self).horizontal_scroll_bar.bar_of().value_of(),
                    old(self).horizontal_scroll_bar.bar_of().viewport_of(),
                    old(self).horizontal_scroll_bar.bar_of().full_of(),
                    config.scroll.speed,
                    x,
                ),
                old(self).horizontal_scroll_bar.bar_of().viewport_of(),
                old(self).horizontal_scroll_bar.bar_of().full_of(),
                old(self).horizontal_scroll_bar.bar_of().rect_of(),
            ),
            final(self).vertical_scroll_bar.bar_of().is(
                stepped_value(
                    old(self).vertical_scroll_bar.bar_of().value_of(),
                    old(self).vertical_scroll_bar.bar_of().viewport_of(),
                    old(self).vertical_scroll_bar.bar_of().full_of(),
                    config.scroll.speed,
                    y,
                ),
                old(self).vertical_scroll_bar.bar_of().viewport_of(),
                old(self).vertical_scroll_bar.bar_of().full_of(),
                old(self).vertical_scroll_bar.bar_of().rect_of(),
            ),
            final(self).dest == old(self).dest,
            final(self).full_dest == old(self).full_dest,
            final(self).root == old(self).root,
            final(self).dir_view == old(self).dir_view,
    {
        let speed = config.scroll().speed();
        self.horizontal_scroll_bar.step(speed, x);
        self.vertical_scroll_bar.step(speed, y);
    }

    /// How far the tree is scrolled (see `scroll_point`).
    pub fn scroll(&self) -> (r: Point)
        requires
            self.scroll_ok(),
        ensures
            r == self.scroll_spec(),
    {
        scroll_of(&self.horizontal_scroll_bar, &self.vertical_scroll_bar)
    }

    /// The sidebar on `root`, or nothing when the root has no last component
    /// to name it by.
    pub fn try_new(root: String, config: &Config) -> (r: Option<Self>)
        ensures
            r is Some <==> path_file_name(root@) is Some,
            r matches Some(t) ==> t.root@ == root@ && t.dir_view.path@ == root@,
    {
        match file_name_of(root.as_str()) {
            Some(_) => Some(ProjectTreeSidebar::new(root, config)),
            None => None,
        }
    }

    /// Below the menu, as high as the rest of the window.
    pub fn update<F: FileSystem>(&mut self, config: &Config, fs: &mut F)
        requires
            config.menu_height <= config.height,
        ensures
            final(self).dest == (Rect {
                y: rect_position(config.menu_height as i32),
                height: rect_size((config.height - config.menu_height) as u32),
                ..old(self).dest
            }),
            final(self).full_dest == old(self).full_dest,
            final(self).root == old(self).root,
            final(self).dir_view == old(self).dir_view,
            final(self).vertical_scroll_bar == old(self).vertical_scroll_bar,
            final(self).horizontal_scroll_bar == old(self).horizontal_scroll_bar,
    {
        let top = config.menu_height as u32;
        self.dest.set_y(top as i32);
        self.dest.set_height(config.height - top);
        self.dir_view.update(fs);
    }

    /// Places the sidebar below the menu, lays the tree out and opens its
    /// root.
    pub fn prepare_ui<F: FileSystem, S: CharacterSizeManager>(&mut self, config: &Config, fs: &mut F, sizes: &mut S)
        ensures
            final(self).dest == (Rect { x: 0, y: rect_position(config.menu_height as i32), height: rect_size(config.height), ..old(self).dest }),
            final(self).root == old(self).root,
            exists|laid_out: DirectoryView| #![trigger dir_prepared(old(self).dir_view, laid_out)]
                dir_prepared(old(self).dir_view, laid_out) && dir_opened(laid_out, final(self).dir_view, old(self).root@),
            final(self).full_dest == old(self).full_dest,
            final(self).vertical_scroll_bar == old(self).vertical_scroll_bar,
            final(self).horizontal_scroll_bar == old(self).horizontal_scroll_bar,
            final(self).border_color == old(self).border_color,
            final(self).background_color == old(self).background_color,
    {
        self.dest.set_x(0);
        self.dest.set_y(config.menu_height as i32);
        self.dest.set_height(config.height);
        self.dir_view.prepare_ui(sizes);
        let ghost laid_out = self.dir_view;
        let root = self.root.clone();
        self.dir_view.open_directory(root.as_str(), fs, sizes, config);
        assert(dir_prepared(old(self).dir_view, laid_out) && dir_opened(laid_out, self.dir_view, old(self).root@));
    }

    /// Appends what the sidebar draws (see `sidebar_commands`).
    pub fn render(&self, out: &mut Vec<DrawCommand>)
        ensures
            views(final(out)@) == views(old(out)@) + sidebar_commands(*self),
    {
        let ghost start = views(out@);
        push_command(out, DrawCommand::Clip(self.dest));
        push_command(out, DrawCommand::Fill { rect: self.dest, color: self.background_color });
        push_command(out, DrawCommand::Border { rect: self.dest, color: self.border_color });
        let p = self.dest.top_left().offset(CONTENT_MARGIN_LEFT, CONTENT_MARGIN_TOP);
        self.dir_view.render(&RenderContext::ParentPosition(p), out);
        proof {
            assert(views(out@) =~= start + sidebar_commands(*self));
        }
    }

    pub fn full_rect(&self) -> (r: Rect)
        ensures
            r == self.dest,
    {
        self.dest
    }

    pub fn root(&self) -> (r: String)
        ensures
            r@ == self.root@,
    {
        self.root.clone()
    }

    /// The rectangle the tree takes with margins around it.
    fn refresh_full_dest(&mut self)
        ensures
            final(self).full_dest == ({
                let d = dirs_dest(old(self).dir_view);
                new_rect(d.x, d.y, sat_add(d.width, (2 * CONTENT_MARGIN_LEFT) as u32), sat_add(d.height, (2 * CONTENT_MARGIN_TOP) as u32))
            }),
            final(self).dest == old(self).dest,
            final(self).root == old(self).root,
            final(self).dir_view == old(self).dir_view,
            final(self).vertical_scroll_bar == old(self).vertical_scroll_bar,
            final(self).horizontal_scroll_bar == old(self).horizontal_scroll_bar,
            final(self).border_color == old(self).border_color,
            final(self).background_color == old(self).background_color,
    {
        let d = self.dir_view.dest();
        self.full_dest = Rect::new(
            d.x,
            d.y,
            super::widgets::add_saturating(d.width, 2 * CONTENT_MARGIN_LEFT as u32),
            super::widgets::add_saturating(d.height, 2 * CONTENT_MARGIN_TOP as u32),
        );
    }

    /// Opens `dir_path` in the tree (see `DirectoryView::open_directory`).
    pub fn open_directory<F: FileSystem, S: CharacterSizeManager>(
        &mut self,
        dir_path: &str,
        fs: &mut F,
        sizes: &mut S,
        config: &Config,
    )
        ensures
            final(self).dest == old(self).dest,
            final(self).root == old(self).root,
            dir_opened(old(self).dir_view, final(self).dir_view, dir_path@),
            final(self).full_dest == ({
                let d = dirs_dest(final(self).dir_view);
                new_rect(d.x, d.y, sat_add(d.width, (2 * CONTENT_MARGIN_LEFT) as u32), sat_add(d.height, (2 * CONTENT_MARGIN_TOP) as u32))
            }),
            final(self).vertical_scroll_bar == old(self).vertical_scroll_bar,
            final(self).horizontal_scroll_bar == old(self).horizontal_scroll_bar,
            final(self).border_color == old(self).border_color,
            final(self).background_color == old(self).background_color,
    {
        self.dir_view.open_directory(dir_path, fs, sizes, config);
        self.refresh_full_dest();
    }

    /// What a click at `point` on the sidebar, placed in `context` and
    /// scrolled as its bars say, asks for (see `dir_click`).
    pub fn on_left_click(&mut self, point: &Point, context: &UpdateContext) -> (r: UpdateResult)
        requires
            old(self).scroll_ok(),
        ensures
            r == sidebar_click(*old(self), *point, *context),
            final(self).full_dest == ({
                let d = dirs_dest(old(self).dir_view);
                new_rect(d.x, d.y, sat_add(d.width, (2 * CONTENT_MARGIN_LEFT) as u32), sat_add(d.height, (2 * CONTENT_MARGIN_TOP) as u32))
            }),
            final(self).border_color == old(self).border_color,
            final(self).background_color == old(self).background_color,
            final(self).dest == old(self).dest,
            final(self).root == old(self).root,
            final(self).dir_view == old(self).dir_view,
            final(self).vertical_scroll_bar == old(self).vertical_scroll_bar,
            final(self).horizontal_scroll_bar == old(self).horizontal_scroll_bar,
    {
        let scroll = self.scroll();
        let dest = super::placed(&self.dest, context);
        let p = dest.top_left().offset(CONTENT_MARGIN_LEFT, CONTENT_MARGIN_TOP).offset(scroll.x, scroll.y);
        let res = self.dir_view.on_left_click(point, &UpdateContext::ParentPosition(p));
        self.refresh_full_dest();
        res
    }

    /// Whether `point` falls on the tree, or on the sidebar's area from the
    /// tree's corner on.
    pub fn is_left_click_target(&self, point: &Point, context: &UpdateContext) -> (r: bool)
        requires
            self.scroll_ok(),
        ensures
            r == sidebar_target(*self, *point, *context),
    {
        let scroll = self.scroll();
        let dest = super::placed(&self.dest, context);
        let p = dest.top_left().offset(CONTENT_MARGIN_LEFT, CONTENT_MARGIN_TOP).offset(scroll.x, scroll.y);
        if self.dir_view.is_left_click_target(point, &UpdateContext::ParentPosition(p)) {
            true
        } else {
            Rect::new(p.x, p.y, dest.width, dest.height).contains_point(*point)
        }
    }
}

/// What the sidebar draws: clipped to its area, its background and outline
/// there, and the tree from the area's corner moved in by the margins.
pub open spec fn sidebar_commands(t: ProjectTreeSidebar) -> Seq<DrawSpec> {
    seq![DrawSpec::Clip(t.dest), fill(t.dest, t.background_color), border(t.dest, t.border_color)] + dir_commands(
        t.dir_view,
        Point { x: clamp_i32(t.dest.x + CONTENT_MARGIN_LEFT), y: clamp_i32(t.dest.y + CONTENT_MARGIN_TOP) },
    )
}

/// The children read from some listing of a directory (see
/// `DirectoryView::read_entries`): the directories and the files of the
/// listing, each in the order of their names, by path and by name.
pub open spec fn children_listed(ds: Seq<DirectoryView>, fs: Seq<FileEntry>) -> bool {
    exists|srt: Seq<DirEntry>|
        {
            &&& sorted_by_name(srt)
            &&& dir_paths(ds) == entry_dir_paths(srt)
            &&& file_paths(fs) == entry_file_paths(srt)
            &&& dir_names(ds) == entry_dir_names(srt)
            &&& file_names(fs) == entry_file_names(srt)
        }
}

/// The directory `after` is `before` once `dir_path` has been opened in it
/// (see `DirectoryView::open_directory`): unchanged when the path does not
/// concern it. Else it is opened, keeps its name, and is expanded (or, for
/// its own path opened before, toggled). A first opening reads its
/// children from a listing; children read before are kept, but for a path
/// further down, where the one child it leads into is opened further. Its
/// height is that of its children stacked below its name.
pub open spec fn dir_opened(before: DirectoryView, after: DirectoryView, dir_path: Seq<char>) -> bool
    decreases before,
{
    let r = concerns(dir_path, before.path@);
    &&& !r ==> after == before
    &&& r ==> after.path == before.path && after.opened && after.name_label == before.name_label
    &&& r && dir_path == before.path@ && before.opened ==> {
        &&& after.expanded == !before.expanded
        &&& after.directories == before.directories
        &&& after.files == before.files
    }
    &&& r && !before.opened ==> children_listed(after.directories@, after.files@)
    &&& r && dir_path == before.path@ && !before.opened ==> after.expanded
    &&& r && dir_path != before.path@ ==> {
        &&& after.expanded == (before.expanded || !before.opened)
        &&& before.opened ==> {
            &&& after.files == before.files
            &&& after.directories@.len() == before.directories@.len()
            &&& after.directories@ == before.directories@ || exists|j: int|
                #![trigger before.directories@[j]]
                {
                    &&& 0 <= j < before.directories@.len()
                    &&& forall|k: int|
                        0 <= k < before.directories@.len() && k != j ==> #[trigger] after.directories@[k]
                            == before.directories@[k]
                    &&& dir_opened(before.directories@[j], after.directories@[j], dir_path)
                }
        }
    }
    &&& r ==> exists|h: u32| after.height == stacked_height(h, after.directories@, after.files@)
}

/// The directory `after` is `before` laid out (see
/// `DirectoryView::prepare_ui`): its name laid out, its icon a square, the
/// same children by path, and its height that of its children stacked
/// below its name.
pub open spec fn dir_prepared(before: DirectoryView, after: DirectoryView) -> bool {
    &&& after.path == before.path
    &&& after.opened == before.opened
    &&& after.expanded == before.expanded
    &&& after.source == before.source
    &&& after.dest == before.dest
    &&& super::widgets::label_prepared(before.name_label, after.name_label)
    &&& after.icon.path == before.icon.path
    &&& after.icon.dest.width == after.icon.dest.height
    &&& dir_paths(after.directories@) == dir_paths(before.directories@)
    &&& file_paths(after.files@) == file_paths(before.files@)
    &&& exists|h: u32| after.height == stacked_height(h, after.directories@, after.files@)
}

/// Where a directory view says it is drawn (see `DirectoryView::dest`).
pub open spec fn dirs_dest(d: DirectoryView) -> Rect {
    new_rect(d.dest.x, d.dest.y, sat_add(sat_add(d.icon.dest.width, d.name_label.dest.width), NAME_MARGIN as u32), dir_height(d))
}

} // verus!
