//! Drawing as a list of commands: each widget says what is to be drawn
//! where, and the window carries the commands out on its canvas, in order.

use vstd::prelude::*;
use crate::geometry::{clamp_i32, moved_rect, new_rect, rect_position, rect_size, Point, Rect};
use crate::themes::SerdeColor;
use super::RenderContext;

verus! {

/// One step of drawing.
#[derive(Clone, Debug, PartialEq)]
pub enum DrawCommand {
    /// Clip what follows to the rectangle.
    Clip(Rect),
    /// Fill the rectangle with the colour.
    Fill { rect: Rect, color: SerdeColor },
    /// Draw the rectangle's outline in the colour.
    Border { rect: Rect, color: SerdeColor },
    /// Draw the part `source` of the image file at `path` into `dest`.
    Image { path: String, source: Rect, dest: Rect },
    /// Draw one character of text in the colour, from the part `source` of
    /// its image, into `dest`.
    Glyph { character: char, color: SerdeColor, source: Rect, dest: Rect },
    /// Draw the caret in `dest`.
    Caret(Rect),
}

/// A drawing step as the contracts speak of it: an image by the text of its
/// path.
pub enum DrawSpec {
    Clip(Rect),
    Fill { rect: Rect, color: SerdeColor },
    Border { rect: Rect, color: SerdeColor },
    Image { path: Seq<char>, source: Rect, dest: Rect },
    Glyph { character: char, color: SerdeColor, source: Rect, dest: Rect },
    Caret(Rect),
}

impl View for DrawCommand {
    type V = DrawSpec;

    open spec fn view(&self) -> DrawSpec {
        match *self {
            DrawCommand::Clip(r) => DrawSpec::Clip(r),
            DrawCommand::Fill { rect, color } => DrawSpec::Fill { rect, color },
            DrawCommand::Border { rect, color } => DrawSpec::Border { rect, color },
            DrawCommand::Image { path, source, dest } => DrawSpec::Image { path: path@, source, dest },
            DrawCommand::Glyph { character, color, source, dest } => DrawSpec::Glyph { character, color, source, dest },
            DrawCommand::Caret(r) => DrawSpec::Caret(r),
        }
    }
}

/// The steps of `cs` as the contracts speak of them.
pub open spec fn views(cs: Seq<DrawCommand>) -> Seq<DrawSpec> {
    cs.map_values(|c: DrawCommand| c@)
}

/// Appending a step appends its view.
pub proof fn lemma_views_push(cs: Seq<DrawCommand>, c: DrawCommand)
    ensures
        views(cs.push(c)) == views(cs).push(c@),
{
    assert(views(cs.push(c)) =~= views(cs).push(c@));
}

/// Appends `c`.
pub fn push_command(out: &mut Vec<DrawCommand>, c: DrawCommand)
    ensures
        views(final(out)@) == views(old(out)@).push(c@),
{
    let ghost before = out@;
    out.push(c);
    proof {
        lemma_views_push(before, c);
    }
}

/// Filling `rect` with `color`.
pub open spec fn fill(rect: Rect, color: SerdeColor) -> DrawSpec {
    DrawSpec::Fill { rect, color }
}

/// Outlining `rect` in `color`.
pub open spec fn border(rect: Rect, color: SerdeColor) -> DrawSpec {
    DrawSpec::Border { rect, color }
}

/// The colour of the characters of names.
pub open spec fn name_color() -> SerdeColor {
    SerdeColor { r: 255, g: 255, b: 255, a: 0 }
}

pub fn name_color_of() -> (r: SerdeColor)
    ensures
        r == name_color(),
{
    SerdeColor { r: 255, g: 255, b: 255, a: 0 }
}

/// The rectangle `dest` placed relative to the parent in `context`.
pub open spec fn render_placed(dest: Rect, context: RenderContext) -> Rect {
    match context {
        RenderContext::ParentPosition(p) => moved_rect(p, dest),
        RenderContext::Nothing => dest,
    }
}

/// See `render_placed`.
pub fn place_for_render(dest: &Rect, context: &RenderContext) -> (r: Rect)
    ensures
        r == render_placed(*dest, *context),
{
    match context {
        RenderContext::ParentPosition(p) => crate::geometry::move_render_point(*p, dest),
        RenderContext::Nothing => *dest,
    }
}

/// The corner a render context puts a widget's own coordinates relative to.
pub open spec fn render_origin(context: RenderContext) -> Point {
    match context {
        RenderContext::ParentPosition(p) => p,
        RenderContext::Nothing => Point { x: 0, y: 0 },
    }
}

/// A character of a name drawn into `dest`.
pub open spec fn name_glyph(character: char, source: Rect, dest: Rect) -> DrawSpec {
    DrawSpec::Glyph { character, color: name_color(), source, dest }
}

/// The size of the `i`-th character, or nothing when it has not been
/// measured.
pub open spec fn size_at(sizes: Seq<Rect>, i: int) -> Rect {
    if 0 <= i < sizes.len() {
        sizes[i]
    } else {
        new_rect(0, 0, 0, 0)
    }
}

/// The characters of `name` from the `i`-th on, side by side from `d`,
/// each as large as its size in `sizes`, from the part `source` of its
/// image.
pub open spec fn glyphs_from(name: Seq<char>, sizes: Seq<Rect>, i: int, source: Rect, d: Rect) -> Seq<DrawSpec>
    decreases name.len() - i,
{
    if 0 <= i < name.len() {
        let size = size_at(sizes, i);
        let g = name_glyph(name[i], source, Rect { width: rect_size(size.width), height: rect_size(size.height), ..d });
        seq![g] + glyphs_from(name, sizes, i + 1, source, Rect { x: rect_position(clamp_i32(d.x + size.width)), ..d })
    } else {
        Seq::empty()
    }
}

/// Appends the glyphs of `name` (see `glyphs_from`).
pub fn push_glyphs(out: &mut Vec<DrawCommand>, name: &Vec<char>, sizes: &Vec<Rect>, source: Rect, d: Rect)
    ensures
        views(final(out)@) == views(old(out)@) + glyphs_from(name@, sizes@, 0, source, d),
{
    let ghost start = views(old(out)@);
    let mut i: usize = 0;
    let mut at = d;
    while i < name.len()
        invariant
            0 <= i <= name@.len(),
            start + glyphs_from(name@, sizes@, 0, source, d) == views(out@) + glyphs_from(name@, sizes@, i as int, source, at),
        decreases name@.len() - i,
    {
        let size = if i < sizes.len() {
            sizes[i]
        } else {
            Rect::new(0, 0, 0, 0)
        };
        let mut glyph_dest = at;
        glyph_dest.set_width(size.width);
        glyph_dest.set_height(size.height);
        let g = DrawCommand::Glyph { character: name[i], color: name_color_of(), source, dest: glyph_dest };
        let mut next = at;
        next.set_x(crate::geometry::add_clamped(at.x, size.width as i64));
        let ghost before = views(out@);
        proof {
            assert(glyphs_from(name@, sizes@, i as int, source, at) == seq![g@] + glyphs_from(
                name@,
                sizes@,
                i + 1,
                source,
                next,
            ));
        }
        push_command(out, g);
        proof {
            assert(before + (seq![g@] + glyphs_from(name@, sizes@, i + 1, source, next)) =~= views(out@) + glyphs_from(
                name@,
                sizes@,
                i + 1,
                source,
                next,
            ));
        }
        at = next;
        i = i + 1;
    }
    proof {
        assert(glyphs_from(name@, sizes@, i as int, source, at) =~= Seq::<DrawSpec>::empty());
        assert(views(out@) + Seq::<DrawSpec>::empty() =~= views(out@));
    }
}

} // verus!
