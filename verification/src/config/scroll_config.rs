use vstd::prelude::*;

verus! {

/// The scroll bars' width and right margin, and how far one wheel step scrolls.
#[derive(Clone, Copy, Debug, PartialEq, Eq, Structural)]
pub struct ScrollConfig {
    pub width: u32,
    pub margin_right: i32,
    pub speed: i32,
}

impl ScrollConfig {
    pub fn new() -> (r: Self)
        ensures
            r == (ScrollConfig { width: 4, margin_right: 5, speed: 30 }),
    {
        Self { width: 4, margin_right: 5, speed: 30 }
    }

    pub fn width(&self) -> (r: u32)
        ensures
            r == self.width,
    {
        self.width
    }

    pub fn set_width(&mut self, width: u32)
        ensures
            *final(self) == (ScrollConfig { width, ..*old(self) }),
    {
        self.width = width;
    }

    pub fn margin_right(&self) -> (r: i32)
        ensures
            r == self.margin_right,
    {
        self.margin_right
    }

    pub fn set_margin_right(&mut self, margin_right: i32)
        ensures
            *final(self) == (ScrollConfig { margin_right, ..*old(self) }),
    {
        self.margin_right = margin_right;
    }

    pub fn speed(&self) -> (r: i32)
        ensures
            r == self.speed,
    {
        self.speed
    }

    pub fn set_speed(&mut self, speed: i32)
        ensures
            *final(self) == (ScrollConfig { speed, ..*old(self) }),
    {
        self.speed = speed;
    }
}

impl Default for ScrollConfig {
    fn default() -> (r: Self)
        ensures
            r == (ScrollConfig { width: 4, margin_right: 5, speed: 10 }),
    {
        Self { width: 4, margin_right: 5, speed: 10 }
    }
}

} // verus!
