use vstd::prelude::*;
use crate::caret::CaretPosition;
use crate::geometry::{new_rect, Point, Rect};
use super::text_character::CharacterSizeManager;

verus! {

/// The directions the caret moves in.
#[derive(Clone, Copy, Debug, PartialEq, Eq, Structural)]
pub enum MoveDirection {
    Left,
    Right,
    Up,
    Down,
}

/// How wide the caret is drawn.
pub const CARET_WIDTH: u32 = 6;

/// The caret: its place in the text and where it is drawn.
#[derive(Clone, Copy, Debug, PartialEq, Eq, Structural)]
pub struct Caret {
    pub position: CaretPosition,
    pub dest: Rect,
}

impl Caret {
    /// At the start of the text, drawn at the origin with the given size.
    pub fn new(width: u32, height: u32) -> (r: Self)
        ensures
            r.position == (CaretPosition { text_position: 0, line_number: 0, line_position: 0 }),
            r.dest == new_rect(0, 0, width, height),
    {
        Caret { position: CaretPosition::new(0, 0, 0), dest: Rect::new(0, 0, width, height) }
    }

    /// Sizes the caret: as tall as a `W` of the font, and `CARET_WIDTH` wide.
    pub fn prepare_ui<S: CharacterSizeManager>(&mut self, sizes: &mut S)
        ensures
            final(self).position == old(self).position,
            final(self).dest.x == old(self).dest.x,
            final(self).dest.y == old(self).dest.y,
            final(self).dest.width == CARET_WIDTH,
    {
        let size = sizes.load_character_size('W');
        self.dest.width = CARET_WIDTH;
        self.dest.height = size.height;
    }

    pub fn position(&self) -> (r: &CaretPosition)
        ensures
            *r == self.position,
    {
        &self.position
    }

    pub fn text_position(&self) -> (r: usize)
        ensures
            r == self.position.text_position,
    {
        self.position.text_position
    }

    pub fn line_number(&self) -> (r: usize)
        ensures
            r == self.position.line_number,
    {
        self.position.line_number
    }

    pub fn dest(&self) -> (r: Rect)
        ensures
            r == self.dest,
    {
        self.dest
    }

    pub open spec fn moved_to(self, position: CaretPosition, p: Point) -> Caret {
        Caret { position, dest: Rect { x: p.x, y: p.y, ..self.dest } }
    }

    /// Puts the caret at `position`, drawn at `p`.
    pub fn move_caret(&mut self, position: CaretPosition, p: Point)
        ensures
            *final(self) == old(self).moved_to(position, p),
    {
        self.position = position;
        self.dest.x = p.x;
        self.dest.y = p.y;
    }

    /// Puts the caret back at the start of the text, drawn at the origin.
    pub fn reset_caret(&mut self)
        ensures
            *final(self) == old(self).moved_to(CaretPosition { text_position: 0, line_number: 0, line_position: 0 }, Point { x: 0, y: 0 }),
    {
        self.position.reset();
        self.dest.x = 0;
        self.dest.y = 0;
    }

    pub fn set_text_position(&mut self, n: usize)
        ensures
            *final(self) == (Caret { position: CaretPosition { text_position: n, ..old(self).position }, ..*old(self) }),
    {
        self.position.set_text_position(n);
    }

    pub fn set_line_number(&mut self, n: usize)
        ensures
            *final(self) == (Caret { position: CaretPosition { line_number: n, ..old(self).position }, ..*old(self) }),
    {
        self.position.set_line_number(n);
    }

    pub fn set_line_position(&mut self, n: usize)
        ensures
            *final(self) == (Caret { position: CaretPosition { line_position: n, ..old(self).position }, ..*old(self) }),
    {
        self.position.set_line_position(n);
    }
}

} // verus!
