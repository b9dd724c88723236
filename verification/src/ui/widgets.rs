//! Small widgets of the project tree: an icon, a text label sized by its
//! characters, and a file entry made of the two.

use vstd::prelude::*;
use crate::config::paths::{join_path, joined};
use crate::config::settings::Config;
use crate::editor::text_character::CharacterSizeManager;
use crate::events::UpdateResult;
use crate::geometry::{add_clamped, clamp_i32, new_rect, rect_position, rect_size, Point, Rect};
use crate::text::chars_of;
use super::buttons::hits;
use super::{placed, RenderContext, UpdateContext};
use super::draw::{glyphs_from, place_for_render, push_command, push_glyphs, render_placed, views, DrawCommand, DrawSpec};

verus! {

/// The gap between an entry's icon and its name.
pub const NAME_MARGIN: i32 = 20;

/// `a + b`, or `u32::MAX` when that does not fit.
pub open spec fn sat_add(a: u32, b: u32) -> u32 {
    if a + b <= u32::MAX {
        (a + b) as u32
    } else {
        u32::MAX
    }
}

pub fn add_saturating(a: u32, b: u32) -> (r: u32)
    ensures
        r == sat_add(a, b),
{
    if a <= u32::MAX - b {
        a + b
    } else {
        u32::MAX
    }
}

/// The widths of `sizes`, added up, held at `u32::MAX`.
pub open spec fn widths_sum(sizes: Seq<Rect>) -> u32
    decreases sizes.len(),
{
    if sizes.len() == 0 {
        0
    } else {
        sat_add(widths_sum(sizes.drop_last()), sizes.last().width)
    }
}

/// An image drawn at `dest` from the part `source` of the file at `path`.
#[derive(Clone, Debug, PartialEq)]
pub struct Icon {
    pub path: String,
    pub source: Rect,
    pub dest: Rect,
}

impl Icon {
    pub fn new(path: String, source: Rect, dest: Rect) -> (r: Self)
        ensures
            r.path@ == path@,
            r.source == source,
            r.dest == dest,
    {
        Icon { path, source, dest }
    }

    pub fn width(&self) -> (r: u32)
        ensures
            r == self.dest.width,
    {
        self.dest.width
    }

    pub fn height(&self) -> (r: u32)
        ensures
            r == self.dest.height,
    {
        self.dest.height
    }

    pub fn texture_path(&self) -> (r: String)
        ensures
            r@ == self.path@,
    {
        self.path.clone()
    }

    pub fn set_texture_path(&mut self, path: String)
        ensures
            final(self).path@ == path@,
            final(self).source == old(self).source,
            final(self).dest == old(self).dest,
    {
        self.path = path;
    }

    pub fn dest(&self) -> (r: &Rect)
        ensures
            *r == self.dest,
    {
        &self.dest
    }

    pub fn set_dest(&mut self, rect: &Rect)
        ensures
            final(self).dest == *rect,
            final(self).source == old(self).source,
            final(self).path@ == old(self).path@,
    {
        self.dest = *rect;
    }

    pub fn source(&self) -> (r: &Rect)
        ensures
            *r == self.source,
    {
        &self.source
    }

    pub fn set_source(&mut self, rect: &Rect)
        ensures
            final(self).source == *rect,
            final(self).dest == old(self).dest,
            final(self).path@ == old(self).path@,
    {
        self.source = *rect;
    }

    /// Clicking an icon asks for nothing.
    pub fn on_left_click(&mut self, _point: &Point, _context: &UpdateContext) -> (r: UpdateResult)
        ensures
            r == UpdateResult::NoOp,
    {
        UpdateResult::NoOp
    }
}

/// The label `after` is `before` laid out (see `Label::prepare_ui`): the
/// same name and image part, a size for each character of the name, the
/// same corner, and as wide as those sizes together.
pub open spec fn label_prepared(before: Label, after: Label) -> bool {
    &&& after.name@ == before.name@
    &&& after.source == before.source
    &&& after.char_sizes@.len() == before.name@.len()
    &&& after.dest.x == before.dest.x
    &&& after.dest.y == before.dest.y
    &&& after.dest.width == rect_size(widths_sum(after.char_sizes@))
}

/// A line of text: as wide as its characters together and as high as a `W`
/// once laid out.
#[derive(Clone, Debug, PartialEq)]
pub struct Label {
    pub name: String,
    pub char_sizes: Vec<Rect>,
    pub source: Rect,
    pub dest: Rect,
}

impl Label {
    pub fn new(name: String) -> (r: Self)
        ensures
            r.name@ == name@,
            r.char_sizes@.len() == 0,
            r.source == (Rect { x: 0, y: 0, width: 64, height: 64 }),
            r.dest == (Rect { x: 0, y: 0, width: 16, height: 16 }),
    {
        Label { name, char_sizes: Vec::new(), source: Rect::new(0, 0, 64, 64), dest: Rect::new(0, 0, 16, 16) }
    }

    /// Sizes each character of the name: the label becomes as wide as they
    /// are together and as high as a `W`.
    pub fn prepare_ui<S: CharacterSizeManager>(&mut self, sizes: &mut S)
        ensures
            label_prepared(*old(self), *final(self)),
    {
        let w = sizes.load_character_size('W');
        let chars = chars_of(self.name.as_str());
        let mut found: Vec<Rect> = Vec::new();
        let mut width: u32 = 0;
        let mut i: usize = 0;
        while i < chars.len()
            invariant
                0 <= i <= chars@.len(),
                found@.len() == i,
                width == widths_sum(found@),
            decreases chars@.len() - i,
        {
            let size = sizes.load_character_size(chars[i]);
            let ghost before = found@;
            found.push(size);
            proof {
                assert(found@.drop_last() =~= before);
            }
            width = add_saturating(width, size.width);
            i = i + 1;
        }
        self.char_sizes = found;
        self.dest.set_width(width);
        self.dest.set_height(w.height);
    }

    pub fn name_width(&self) -> (r: u32)
        ensures
            r == self.dest.width,
    {
        self.dest.width
    }

    pub fn name(&self) -> (r: String)
        ensures
            r@ == self.name@,
    {
        self.name.clone()
    }
}

/// A file in the project tree: its icon and its name; clicking it opens
/// the file.
#[derive(Clone, Debug, PartialEq)]
pub struct FileEntry {
    pub path: String,
    pub source: Rect,
    pub dest: Rect,
    pub icon: Icon,
    pub label: Label,
}

impl FileEntry {
    /// The entry for the file `name` at `path`, with the theme's file icon.
    pub fn new(name: String, path: String, config: &Config) -> (r: Self)
        ensures
            r.path@ == path@,
            r.label.name@ == name@,
            r.label.dest == (Rect { x: 0, y: 0, width: 16, height: 16 }),
            r.source == (Rect { x: 0, y: 0, width: 64, height: 64 }),
            r.dest == (Rect { x: 0, y: 0, width: 16, height: 16 }),
            r.icon.path@ == joined(config.directories.themes_dir@, config.theme.images.file_icon@),
            r.icon.source == (Rect { x: 0, y: 0, width: 64, height: 64 }),
            r.icon.dest == (Rect { x: 0, y: 0, width: 16, height: 16 }),
    {
        let texture_path = join_path(config.directories.themes_dir.as_str(), config.theme.images.file_icon.as_str());
        FileEntry {
            path,
            source: Rect::new(0, 0, 64, 64),
            dest: Rect::new(0, 0, 16, 16),
            icon: Icon::new(texture_path, Rect::new(0, 0, 64, 64), Rect::new(0, 0, 16, 16)),
            label: Label::new(name),
        }
    }

    /// Sizes the icon as a square as high as a `W` and the name by its
    /// characters; the entry spans both.
    pub fn prepare_ui<S: CharacterSizeManager>(&mut self, sizes: &mut S)
        ensures
            final(self).path@ == old(self).path@,
            final(self).source == old(self).source,
            final(self).label.name@ == old(self).label.name@,
            final(self).label.dest.width == rect_size(widths_sum(final(self).label.char_sizes@)),
            final(self).icon.path@ == old(self).icon.path@,
            final(self).icon.dest.width == final(self).icon.dest.height,
            final(self).dest == new_rect(
                old(self).dest.x,
                old(self).dest.y,
                sat_add(final(self).label.dest.width, final(self).icon.dest.width),
                old(self).dest.height,
            ),
    {
        let rect = sizes.load_character_size('W');
        self.icon.dest.set_height(rect.height);
        self.icon.dest.set_width(rect.height);
        self.label.prepare_ui(sizes);
        let old = self.dest;
        self.dest = Rect::new(old.x, old.y, add_saturating(self.label.name_width(), self.icon.width()), old.height);
    }

    pub fn name_width(&self) -> (r: u32)
        ensures
            r == self.label.dest.width,
    {
        self.label.name_width()
    }

    pub fn icon_width(&self) -> (r: u32)
        ensures
            r == self.icon.dest.width,
    {
        self.icon.width()
    }

    pub fn height(&self) -> (r: u32)
        ensures
            r == self.dest.height,
    {
        self.dest.height
    }

    pub fn name(&self) -> (r: String)
        ensures
            r@ == self.label.name@,
    {
        self.label.name()
    }

    pub fn path(&self) -> (r: String)
        ensures
            r@ == self.path@,
    {
        self.path.clone()
    }

    pub fn source(&self) -> (r: &Rect)
        ensures
            *r == self.source,
    {
        &self.source
    }

    pub fn dest(&self) -> (r: &Rect)
        ensures
            *r == self.dest,
    {
        &self.dest
    }

    /// The rectangle of the icon, the gap and the name together.
    pub fn full_dest(&self) -> (r: Rect)
        ensures
            r == new_rect(
                self.dest.x,
                self.dest.y,
                sat_add(sat_add(self.icon.dest.width, NAME_MARGIN as u32), self.label.dest.width),
                self.dest.height,
            ),
    {
        Rect::new(
            self.dest.x,
            self.dest.y,
            add_saturating(add_saturating(self.icon.width(), NAME_MARGIN as u32), self.label.name_width()),
            self.dest.height,
        )
    }

    /// While the file exists nothing is asked; once it is gone, the tree is
    /// to be read again.
    pub fn update(&mut self, path_exists: bool) -> (r: UpdateResult)
        ensures
            r == (if path_exists { UpdateResult::NoOp } else { UpdateResult::RefreshFsTree }),
    {
        if path_exists {
            UpdateResult::NoOp
        } else {
            UpdateResult::RefreshFsTree
        }
    }

    /// Clicking the entry asks for its file to be opened.
    pub fn on_left_click(&mut self) -> (r: UpdateResult)
        ensures
            r == UpdateResult::OpenFile(old(self).path),
    {
        UpdateResult::OpenFile(self.path.clone())
    }

    /// Whether `point` falls on the icon, the gap or the name, placed in
    /// `context`.
    pub fn is_left_click_target(&self, point: &Point, context: &UpdateContext) -> (r: bool)
        ensures
            r == hits(
                new_rect(
                    self.dest.x,
                    self.dest.y,
                    sat_add(sat_add(self.icon.dest.width, self.label.dest.width), NAME_MARGIN as u32),
                    self.dest.height,
                ),
                *point,
                *context,
            ),
    {
        let dest = Rect::new(
            self.dest.x,
            self.dest.y,
            add_saturating(add_saturating(self.icon_width(), self.name_width()), NAME_MARGIN as u32),
            self.dest.height,
        );
        placed(&dest, context).contains_point(*point)
    }
}

/// What an icon draws: its image into its rectangle placed in `context`.
pub open spec fn icon_commands(i: Icon, context: RenderContext) -> Seq<DrawSpec> {
    seq![icon_image(i, render_placed(i.dest, context))]
}

/// The icon's image drawn into `dest`.
pub open spec fn icon_image(i: Icon, dest: Rect) -> DrawSpec {
    DrawSpec::Image { path: i.path@, source: i.source, dest }
}

/// What a label draws: clipped to its rectangle placed in `context` and
/// moved right by the name margin, its characters side by side from there.
pub open spec fn label_commands(l: Label, context: RenderContext) -> Seq<DrawSpec> {
    let dest = render_placed(l.dest, context);
    let d = Rect { x: rect_position(clamp_i32(dest.x + NAME_MARGIN)), ..dest };
    seq![DrawSpec::Clip(d)] + glyphs_from(l.name@, l.char_sizes@, 0, l.source, d)
}

/// What a file entry draws: its icon at its corner placed in `context`,
/// and its name right of it by the name margin.
pub open spec fn file_entry_commands(f: FileEntry, context: RenderContext) -> Seq<DrawSpec> {
    let dest = render_placed(f.dest, context);
    icon_commands(f.icon, RenderContext::ParentPosition(Point { x: dest.x, y: dest.y }))
        + label_commands(f.label, RenderContext::ParentPosition(Point { x: clamp_i32(dest.x + NAME_MARGIN), y: dest.y }))
}

impl Icon {
    /// Appends what the icon draws (see `icon_commands`).
    pub fn render(&self, context: &RenderContext, out: &mut Vec<DrawCommand>)
        ensures
            views(final(out)@) == views(old(out)@) + icon_commands(*self, *context),
    {
        let dest = place_for_render(&self.dest, context);
        let ghost start = views(out@);
        push_command(out, DrawCommand::Image { path: self.path.clone(), source: self.source, dest });
        proof {
            assert(views(out@) =~= start + icon_commands(*self, *context));
        }
    }
}

impl Label {
    /// Appends what the label draws (see `label_commands`).
    pub fn render(&self, context: &RenderContext, out: &mut Vec<DrawCommand>)
        ensures
            views(final(out)@) == views(old(out)@) + label_commands(*self, *context),
    {
        let dest = place_for_render(&self.dest, context);
        let mut d = dest;
        d.set_x(add_clamped(dest.x, NAME_MARGIN as i64));
        let ghost start = views(out@);
        push_command(out, DrawCommand::Clip(d));
        let chars = chars_of(self.name.as_str());
        push_glyphs(out, &chars, &self.char_sizes, self.source, d);
        proof {
            assert(views(out@) =~= start + label_commands(*self, *context));
        }
    }
}

impl FileEntry {
    /// Appends what the entry draws (see `file_entry_commands`).
    pub fn render(&self, context: &RenderContext, out: &mut Vec<DrawCommand>)
        ensures
            views(final(out)@) == views(old(out)@) + file_entry_commands(*self, *context),
    {
        let ghost start = views(out@);
        let dest = place_for_render(&self.dest, context);
        self.icon.render(&RenderContext::ParentPosition(Point::new(dest.x, dest.y)), out);
        self.label.render(&RenderContext::ParentPosition(Point::new(add_clamped(dest.x, NAME_MARGIN as i64), dest.y)), out);
        proof {
            assert(views(out@) =~= start + file_entry_commands(*self, *context));
        }
    }
}

} // verus!
