use vstd::prelude::*;
use crate::caret::CaretPosition;
use crate::events::UpdateResult;
use crate::geometry::{add_clamped, clamp_i32, new_rect, rect_position, rect_size, Point, Rect};
use crate::themes::SerdeColor;
use crate::ui::{placed, placed_spec, RenderContext, UpdateContext};
use crate::ui::draw::{place_for_render, push_command, render_placed, views, DrawCommand, DrawSpec};

verus! {

/// Gives the size at which a character is drawn; the renderer implements it
/// from its font.
pub trait CharacterSizeManager {
    fn load_character_size(&mut self, c: char) -> Rect;
}

/// One character of the text, with its place in the text and on screen.
#[derive(Clone, Copy, Debug, PartialEq, Eq, Structural)]
pub struct TextCharacter {
    pub text_character: char,
    pub position: usize,
    pub line: usize,
    pub last_in_line: bool,
    pub source: Rect,
    pub dest: Rect,
    pub color: SerdeColor,
}

/// Where a character is, and how big, before it is laid out: the rectangle
/// made of zeroes, one pixel at the origin.
pub open spec fn unplaced_rect() -> Rect {
    new_rect(0, 0, 0, 0)
}

/// Lays `c` out at `current`: a line break stays where it is and sends the
/// next character to the start of the next line, below it by its height;
/// any other character takes its size and moves `current` right by its
/// width. Positions and sizes are held as the rectangle's setters hold them.
pub open spec fn laid_out(c: TextCharacter, current: Rect) -> (TextCharacter, Rect) {
    let x = rect_position(current.x);
    let y = rect_position(current.y);
    if c.text_character == '\n' {
        (
            TextCharacter { dest: Rect { x, y, ..c.dest }, ..c },
            Rect { x: 0, y: rect_position(clamp_i32(current.y + c.source.height)), ..current },
        )
    } else {
        (
            TextCharacter {
                dest: Rect { x, y, width: rect_size(c.source.width), height: rect_size(c.source.height) },
                ..c
            },
            Rect { x: rect_position(clamp_i32(x + c.source.width)), ..current },
        )
    }
}

impl TextCharacter {
    pub fn new(text_character: char, position: usize, line: usize, last_in_line: bool, color: SerdeColor) -> (r: Self)
        ensures
            r == (TextCharacter {
                text_character,
                position,
                line,
                last_in_line,
                source: unplaced_rect(),
                dest: unplaced_rect(),
                color,
            }),
    {
        TextCharacter {
            text_character,
            position,
            line,
            last_in_line,
            source: Rect::new(0, 0, 0, 0),
            dest: Rect::new(0, 0, 0, 0),
            color,
        }
    }

    pub fn is_last_in_line(&self) -> (r: bool)
        ensures
            r == self.last_in_line,
    {
        self.last_in_line
    }

    pub fn color(&self) -> (r: &SerdeColor)
        ensures
            *r == self.color,
    {
        &self.color
    }

    pub fn is_new_line(&self) -> (r: bool)
        ensures
            r == (self.text_character == '\n'),
    {
        self.text_character == '\n'
    }

    pub fn position(&self) -> (r: usize)
        ensures
            r == self.position,
    {
        self.position
    }

    pub fn line(&self) -> (r: usize)
        ensures
            r == self.line,
    {
        self.line
    }

    pub fn text_character(&self) -> (r: char)
        ensures
            r == self.text_character,
    {
        self.text_character
    }

    pub fn dest(&self) -> (r: &Rect)
        ensures
            *r == self.dest,
    {
        &self.dest
    }

    pub fn source(&self) -> (r: &Rect)
        ensures
            *r == self.source,
    {
        &self.source
    }

    /// A character has no image of its own: it is drawn from the font.
    pub fn texture_path(&self) -> (r: Option<String>)
        ensures
            r is None,
    {
        None
    }

    pub fn set_dest(&mut self, rect: &Rect)
        ensures
            *final(self) == (TextCharacter { dest: *rect, ..*old(self) }),
    {
        self.dest = *rect;
    }

    pub fn set_source(&mut self, rect: &Rect)
        ensures
            *final(self) == (TextCharacter { source: *rect, ..*old(self) }),
    {
        self.source = *rect;
    }

    /// The corner the character is drawn from.
    pub fn render_start_point(&self) -> (r: Point)
        ensures
            r == (Point { x: self.dest.x, y: self.dest.y }),
    {
        self.dest.top_left()
    }

    /// A character changes nothing as time passes.
    pub fn update(&mut self, _ticks: i32, _context: &UpdateContext) -> (r: UpdateResult)
        ensures
            r == UpdateResult::NoOp,
            *final(self) == *old(self),
    {
        UpdateResult::NoOp
    }

    /// Whether `point` falls on the character placed in `context`.
    pub fn is_left_click_target(&self, point: &Point, context: &UpdateContext) -> (r: bool)
        ensures
            r == placed_spec(self.dest, *context).has_point(*point),
    {
        placed(&self.dest, context).contains_point(*point)
    }

    /// Takes `size` as both the drawn and the placed size.
    pub fn set_size(&mut self, size: Rect)
        ensures
            *final(self) == (TextCharacter { source: size, dest: size, ..*old(self) }),
    {
        self.source = size;
        self.dest = size;
    }

    /// Places the character at `current` and moves `current` past it.
    pub fn update_position(&mut self, current: &mut Rect)
        ensures
            (*final(self), *final(current)) == laid_out(*old(self), *old(current)),
    {
        if self.text_character == '\n' {
            let y = self.source.height;
            self.dest.set_x(current.x);
            self.dest.set_y(current.y);
            current.set_x(0);
            current.set_y(add_clamped(current.y, y as i64));
        } else {
            self.dest.set_x(current.x);
            self.dest.set_y(current.y);
            self.dest.set_width(self.source.width);
            self.dest.set_height(self.source.height);
            current.set_x(add_clamped(self.dest.x, self.source.width as i64));
        }
    }

    /// A click on the character puts the caret before it, at the start of
    /// its column count.
    pub fn on_left_click(&mut self, _point: &Point, _context: &UpdateContext) -> (r: UpdateResult)
        ensures
            r == UpdateResult::MoveCaret(old(self).dest, CaretPosition { text_position: old(self).position, line_number: old(self).line, line_position: 0 }),
            *final(self) == *old(self),
    {
        UpdateResult::MoveCaret(self.dest, CaretPosition::new(self.position, self.line, 0))
    }
}

/// How a character is shown: a line break as `¬`, a space as `·`, any
/// other character as itself.
pub open spec fn shown(c: char) -> char {
    if c == '\n' {
        '\u{ac}'
    } else if c == ' ' {
        '\u{b7}'
    } else {
        c
    }
}

/// What a character draws in `context`: its shown form in its colour, from
/// its source, into its rectangle placed there.
pub open spec fn char_glyph(c: TextCharacter, context: RenderContext) -> DrawSpec {
    DrawSpec::Glyph { character: shown(c.text_character), color: c.color, source: c.source, dest: render_placed(c.dest, context) }
}

impl TextCharacter {
    /// Appends what the character draws (see `char_glyph`).
    pub fn render(&self, context: &RenderContext, out: &mut Vec<DrawCommand>)
        ensures
            views(final(out)@) == views(old(out)@).push(char_glyph(*self, *context)),
    {
        let c = if self.text_character == '\n' {
            '\u{ac}'
        } else if self.text_character == ' ' {
            '\u{b7}'
        } else {
            self.text_character
        };
        push_command(
            out,
            DrawCommand::Glyph { character: c, color: self.color, source: self.source, dest: place_for_render(&self.dest, context) },
        );
    }
}

} // verus!
