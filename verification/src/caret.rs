use vstd::prelude::*;

verus! {

/// Where the caret stands: the index of the character it precedes, the line
/// it is on and its column within that line.
#[derive(Clone, Copy, Debug, PartialEq, Eq, Structural)]
pub struct CaretPosition {
    pub text_position: usize,
    pub line_number: usize,
    pub line_position: usize,
}

/// `base + delta`, the value that a signed step takes an unsigned coordinate to.
pub open spec fn shifted(base: usize, delta: i32) -> int {
    base + delta
}

impl CaretPosition {
    pub fn new(text_position: usize, line_number: usize, line_position: usize) -> (r: Self)
        ensures
            r.text_position == text_position,
            r.line_number == line_number,
            r.line_position == line_position,
    {
        Self { text_position, line_number, line_position }
    }

    pub fn text_position(&self) -> (r: usize)
        ensures
            r == self.text_position,
    {
        self.text_position
    }

    pub fn line_number(&self) -> (r: usize)
        ensures
            r == self.line_number,
    {
        self.line_number
    }

    pub fn line_position(&self) -> (r: usize)
        ensures
            r == self.line_position,
    {
        self.line_position
    }

    pub fn reset(&mut self)
        ensures
            final(self).text_position == 0,
            final(self).line_number == 0,
            final(self).line_position == 0,
    {
        self.text_position = 0;
        self.line_number = 0;
        self.line_position = 0;
    }

    pub fn set_text_position(&mut self, n: usize)
        ensures
            *final(self) == (CaretPosition { text_position: n, ..*old(self) }),
    {
        self.text_position = n;
    }

    pub fn set_line_number(&mut self, n: usize)
        ensures
            *final(self) == (CaretPosition { line_number: n, ..*old(self) }),
    {
        self.line_number = n;
    }

    pub fn set_line_position(&mut self, n: usize)
        ensures
            *final(self) == (CaretPosition { line_position: n, ..*old(self) }),
    {
        self.line_position = n;
    }

    /// The position shifted by the three signed steps. A step that would take
    /// a coordinate below zero or past `usize::MAX` is not accepted.
    pub fn moved(&self, text_position: i32, line_number: i32, line_position: i32) -> (r: Self)
        requires
            0 <= shifted(self.text_position, text_position) <= usize::MAX,
            0 <= shifted(self.line_number, line_number) <= usize::MAX,
            0 <= shifted(self.line_position, line_position) <= usize::MAX,
        ensures
            r.text_position == shifted(self.text_position, text_position),
            r.line_number == shifted(self.line_number, line_number),
            r.line_position == shifted(self.line_position, line_position),
    {
        Self {
            text_position: step(self.text_position, text_position),
            line_number: step(self.line_number, line_number),
            line_position: step(self.line_position, line_position),
        }
    }

    /// True at the very start of the text.
    pub fn is_first(&self) -> (r: bool)
        ensures
            r == (self.line_number == 0 && self.text_position == 0),
    {
        self.line_number == 0 && self.text_position == 0
    }
}

/// A step and the opposite step bring a position back to where it was.
pub proof fn law_moved_back(p: CaretPosition, dt: i32, dl: i32, dp: i32)
    requires
        0 <= shifted(p.text_position, dt) <= usize::MAX,
        0 <= shifted(p.line_number, dl) <= usize::MAX,
        0 <= shifted(p.line_position, dp) <= usize::MAX,
        dt > i32::MIN,
        dl > i32::MIN,
        dp > i32::MIN,
    ensures
        ({
            let q = CaretPosition {
                text_position: shifted(p.text_position, dt) as usize,
                line_number: shifted(p.line_number, dl) as usize,
                line_position: shifted(p.line_position, dp) as usize,
            };
            &&& 0 <= shifted(q.text_position, (-dt) as i32) <= usize::MAX
            &&& 0 <= shifted(q.line_number, (-dl) as i32) <= usize::MAX
            &&& 0 <= shifted(q.line_position, (-dp) as i32) <= usize::MAX
            &&& shifted(q.text_position, (-dt) as i32) == p.text_position
            &&& shifted(q.line_number, (-dl) as i32) == p.line_number
            &&& shifted(q.line_position, (-dp) as i32) == p.line_position
        }),
{
}

fn step(base: usize, delta: i32) -> (r: usize)
    requires
        0 <= shifted(base, delta) <= usize::MAX,
    ensures
        r == shifted(base, delta),
{
    if delta >= 0 {
        base + (delta as usize)
    } else {
        let back: usize = (-(delta as i64)) as usize;
        base - back
    }
}

} // verus!
