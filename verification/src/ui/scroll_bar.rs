//! Scroll bars: how far a view is scrolled, how much of its content the
//! viewport shows and how large the content is. The bar's own rectangle is
//! sized by the window from these numbers.

use vstd::prelude::*;
use crate::config::scroll_config::ScrollConfig;
use crate::config::settings::Config;
use crate::geometry::{new_rect, rect_position, rect_size, Point, Rect};
use crate::themes::SerdeColor;
use super::RenderContext;
use super::draw::{border, place_for_render, push_command, render_placed, views, DrawCommand, DrawSpec};

verus! {

/// The distance of `value` from zero.
pub open spec fn magnitude(value: i32) -> int {
    if value < 0 { -value } else { value as int }
}

/// A bar at `value` is scrolled past the end of content of size `full`
/// seen through a viewport of size `viewport`: more than the hidden part of
/// the content (the scrolled part of the content above one whole).
pub open spec fn past_end(value: i32, viewport: u32, full: u32) -> bool {
    full > viewport && magnitude(value) > full - viewport
}

/// One wheel step of `step` units at `speed` neither overflows nor leaves
/// the `i32` range from `value`.
pub open spec fn step_fits(value: i32, speed: i32, step: i32) -> bool {
    &&& i32::MIN <= speed * step <= i32::MAX
    &&& i32::MIN <= speed * step + value <= i32::MAX
}

/// Where a bar at `value` stands after a wheel step of `step` units at
/// `speed`: moved by `speed * step`, unless that goes below zero or past the
/// end of the content, in which case it stays.
pub open spec fn stepped_value(value: i32, viewport: u32, full: u32, speed: i32, step: i32) -> i32 {
    let target = speed * step + value;
    if target >= 0 && !past_end(target as i32, viewport, full) {
        target as i32
    } else {
        value
    }
}

/// The common state of a scroll bar.
#[derive(Clone, Copy, Debug, PartialEq, Eq, Structural)]
pub struct ScrollBar {
    scroll_value: i32,
    viewport: u32,
    full: u32,
    rect: Rect,
}

impl ScrollBar {
    pub closed spec fn value_of(&self) -> i32 {
        self.scroll_value
    }

    pub closed spec fn viewport_of(&self) -> u32 {
        self.viewport
    }

    pub closed spec fn full_of(&self) -> u32 {
        self.full
    }

    pub closed spec fn rect_of(&self) -> Rect {
        self.rect
    }

    /// The bar as the fields say.
    pub open spec fn is(&self, value: i32, viewport: u32, full: u32, rect: Rect) -> bool {
        &&& self.value_of() == value
        &&& self.viewport_of() == viewport
        &&& self.full_of() == full
        &&& self.rect_of() == rect
    }

    /// Not scrolled, a viewport and content of size one, and as wide as the
    /// configured scroll bars.
    pub fn new(config: &Config) -> (r: Self)
        ensures
            r.is(0, 1, 1, new_rect(0, 0, config.scroll.width, 0)),
    {
        ScrollBar { scroll_value: 0, viewport: 1, full: 1, rect: Rect::new(0, 0, config.scroll().width(), 0) }
    }

    pub fn scroll_to(&mut self, n: i32)
        ensures
            final(self).is(n, old(self).viewport_of(), old(self).full_of(), old(self).rect_of()),
    {
        self.scroll_value = n;
    }

    pub fn scroll_value(&self) -> (r: i32)
        ensures
            r == self.value_of(),
    {
        self.scroll_value
    }

    pub fn set_viewport(&mut self, n: u32)
        ensures
            final(self).is(old(self).value_of(), n, old(self).full_of(), old(self).rect_of()),
    {
        self.viewport = n;
    }

    pub fn set_full_size(&mut self, n: u32)
        ensures
            final(self).is(old(self).value_of(), old(self).viewport_of(), n, old(self).rect_of()),
    {
        self.full = n;
    }

    pub fn viewport(&self) -> (r: u32)
        ensures
            r == self.viewport_of(),
    {
        self.viewport
    }

    pub fn full(&self) -> (r: u32)
        ensures
            r == self.full_of(),
    {
        self.full
    }

    pub fn rect(&self) -> (r: &Rect)
        ensures
            *r == self.rect_of(),
    {
        &self.rect
    }

    pub fn set_rect(&mut self, rect: Rect)
        ensures
            final(self).is(old(self).value_of(), old(self).viewport_of(), old(self).full_of(), rect),
    {
        self.rect = rect;
    }

    /// Whether the bar is scrolled past the end of its content (see
    /// `past_end`).
    pub fn scrolled_past(&self) -> (r: bool)
        ensures
            r == past_end(self.value_of(), self.viewport_of(), self.full_of()),
    {
        let v = self.scroll_value as i64;
        let m: i64 = if v < 0 { -v } else { v };
        self.full > self.viewport && m > (self.full - self.viewport) as i64
    }

    /// One wheel step (see `stepped_value`); the rest of the bar stays.
    pub fn step(&mut self, speed: i32, step: i32)
        requires
            step_fits(old(self).value_of(), speed, step),
        ensures
            final(self).is(
                stepped_value(old(self).value_of(), old(self).viewport_of(), old(self).full_of(), speed, step),
                old(self).viewport_of(),
                old(self).full_of(),
                old(self).rect_of(),
            ),
    {
        let dist = speed * step;
        let old_value = self.scroll_value;
        if dist + old_value >= 0 {
            self.scroll_to(dist + old_value);
            if self.scrolled_past() {
                self.scroll_to(old_value);
            }
        }
    }
}

/// The bar at the right edge of a view, for scrolling up and down.
#[derive(Clone, Copy, Debug, PartialEq, Eq, Structural)]
pub struct VerticalScrollBar {
    bar: ScrollBar,
}

/// The bar at the bottom edge of a view, for scrolling left and right.
#[derive(Clone, Copy, Debug, PartialEq, Eq, Structural)]
pub struct HorizontalScrollBar {
    bar: ScrollBar,
}

impl VerticalScrollBar {
    pub closed spec fn bar_of(&self) -> ScrollBar {
        self.bar
    }

    pub fn new(config: &Config) -> (r: Self)
        ensures
            r.bar_of().is(0, 1, 1, new_rect(0, 0, config.scroll.width, 0)),
    {
        VerticalScrollBar { bar: ScrollBar::new(config) }
    }

    pub fn bar(&self) -> (r: &ScrollBar)
        ensures
            *r == self.bar_of(),
    {
        &self.bar
    }

    pub fn scroll_to(&mut self, n: i32)
        ensures
            final(self).bar_of().is(n, old(self).bar_of().viewport_of(), old(self).bar_of().full_of(), old(self).bar_of().rect_of()),
    {
        self.bar.scroll_to(n);
    }

    pub fn scroll_value(&self) -> (r: i32)
        ensures
            r == self.bar_of().value_of(),
    {
        self.bar.scroll_value()
    }

    pub fn set_viewport(&mut self, n: u32)
        ensures
            final(self).bar_of().is(old(self).bar_of().value_of(), n, old(self).bar_of().full_of(), old(self).bar_of().rect_of()),
    {
        self.bar.set_viewport(n);
    }

    pub fn set_full_size(&mut self, n: u32)
        ensures
            final(self).bar_of().is(old(self).bar_of().value_of(), old(self).bar_of().viewport_of(), n, old(self).bar_of().rect_of()),
    {
        self.bar.set_full_size(n);
    }

    /// Puts the bar at `n` across: its left edge.
    pub fn set_location(&mut self, n: i32)
        ensures
            final(self).bar_of().is(
                old(self).bar_of().value_of(),
                old(self).bar_of().viewport_of(),
                old(self).bar_of().full_of(),
                Rect { x: rect_position(n), ..old(self).bar_of().rect_of() },
            ),
    {
        let mut r = *self.bar.rect();
        r.set_x(n);
        self.bar.set_rect(r);
    }

    pub fn viewport(&self) -> (r: u32)
        ensures
            r == self.bar_of().viewport_of(),
    {
        self.bar.viewport()
    }

    pub fn full_height(&self) -> (r: u32)
        ensures
            r == self.bar_of().full_of(),
    {
        self.bar.full()
    }

    pub fn rect(&self) -> (r: &Rect)
        ensures
            *r == self.bar_of().rect_of(),
    {
        self.bar.rect()
    }

    /// Sizes the handle: `max` high at `pos` down.
    pub fn update_rect(&mut self, pos: i32, max: u32)
        ensures
            final(self).bar_of().is(
                old(self).bar_of().value_of(),
                old(self).bar_of().viewport_of(),
                old(self).bar_of().full_of(),
                Rect { y: rect_position(pos), height: rect_size(max), ..old(self).bar_of().rect_of() },
            ),
    {
        let mut r = *self.bar.rect();
        r.set_height(max);
        r.set_y(pos);
        self.bar.set_rect(r);
    }

    pub fn scrolled_past(&self) -> (r: bool)
        ensures
            r == past_end(self.bar_of().value_of(), self.bar_of().viewport_of(), self.bar_of().full_of()),
    {
        self.bar.scrolled_past()
    }

    /// Back to the top, with no content and no handle.
    pub fn reset(&mut self)
        ensures
            final(self).bar_of().is(
                0,
                old(self).bar_of().viewport_of(),
                0,
                Rect { y: 0, height: 1, ..old(self).bar_of().rect_of() },
            ),
    {
        self.update_rect(0, 0);
        self.set_full_size(0);
        self.scroll_to(0);
    }

    pub fn step(&mut self, speed: i32, step: i32)
        requires
            step_fits(old(self).bar_of().value_of(), speed, step),
        ensures
            final(self).bar_of().is(
                stepped_value(
                    old(self).bar_of().value_of(),
                    old(self).bar_of().viewport_of(),
                    old(self).bar_of().full_of(),
                    speed,
                    step,
                ),
                old(self).bar_of().viewport_of(),
                old(self).bar_of().full_of(),
                old(self).bar_of().rect_of(),
            ),
    {
        self.bar.step(speed, step);
    }
}

impl HorizontalScrollBar {
    pub closed spec fn bar_of(&self) -> ScrollBar {
        self.bar
    }

    pub fn new(config: &Config) -> (r: Self)
        ensures
            r.bar_of().is(0, 1, 1, new_rect(0, 0, config.scroll.width, 0)),
    {
        HorizontalScrollBar { bar: ScrollBar::new(config) }
    }

    pub fn bar(&self) -> (r: &ScrollBar)
        ensures
            *r == self.bar_of(),
    {
        &self.bar
    }

    pub fn scroll_to(&mut self, n: i32)
        ensures
            final(self).bar_of().is(n, old(self).bar_of().viewport_of(), old(self).bar_of().full_of(), old(self).bar_of().rect_of()),
    {
        self.bar.scroll_to(n);
    }

    pub fn scroll_value(&self) -> (r: i32)
        ensures
            r == self.bar_of().value_of(),
    {
        self.bar.scroll_value()
    }

    pub fn set_viewport(&mut self, n: u32)
        ensures
            final(self).bar_of().is(old(self).bar_of().value_of(), n, old(self).bar_of().full_of(), old(self).bar_of().rect_of()),
    {
        self.bar.set_viewport(n);
    }

    pub fn set_full_size(&mut self, n: u32)
        ensures
            final(self).bar_of().is(old(self).bar_of().value_of(), old(self).bar_of().viewport_of(), n, old(self).bar_of().rect_of()),
    {
        self.bar.set_full_size(n);
    }

    /// Puts the bar at `n` down: its top edge.
    pub fn set_location(&mut self, n: i32)
        ensures
            final(self).bar_of().is(
                old(self).bar_of().value_of(),
                old(self).bar_of().viewport_of(),
                old(self).bar_of().full_of(),
                Rect { y: rect_position(n), ..old(self).bar_of().rect_of() },
            ),
    {
        let mut r = *self.bar.rect();
        r.set_y(n);
        self.bar.set_rect(r);
    }

    pub fn viewport(&self) -> (r: u32)
        ensures
            r == self.bar_of().viewport_of(),
    {
        self.bar.viewport()
    }

    pub fn full(&self) -> (r: u32)
        ensures
            r == self.bar_of().full_of(),
    {
        self.bar.full()
    }

    pub fn rect(&self) -> (r: &Rect)
        ensures
            *r == self.bar_of().rect_of(),
    {
        self.bar.rect()
    }

    /// Sizes the handle: `max` wide at `pos` across.
    pub fn update_rect(&mut self, pos: i32, max: u32)
        ensures
            final(self).bar_of().is(
                old(self).bar_of().value_of(),
                old(self).bar_of().viewport_of(),
                old(self).bar_of().full_of(),
                Rect { x: rect_position(pos), width: rect_size(max), ..old(self).bar_of().rect_of() },
            ),
    {
        let mut r = *self.bar.rect();
        r.set_width(max);
        r.set_x(pos);
        self.bar.set_rect(r);
    }

    pub fn scrolled_past(&self) -> (r: bool)
        ensures
            r == past_end(self.bar_of().value_of(), self.bar_of().viewport_of(), self.bar_of().full_of()),
    {
        self.bar.scrolled_past()
    }

    /// Back to the left edge, with no content and no handle.
    pub fn reset(&mut self)
        ensures
            final(self).bar_of().is(
                0,
                old(self).bar_of().viewport_of(),
                0,
                Rect { x: 0, width: 1, ..old(self).bar_of().rect_of() },
            ),
    {
        self.update_rect(0, 0);
        self.set_full_size(0);
        self.scroll_to(0);
    }

    pub fn step(&mut self, speed: i32, step: i32)
        requires
            step_fits(old(self).bar_of().value_of(), speed, step),
        ensures
            final(self).bar_of().is(
                stepped_value(
                    old(self).bar_of().value_of(),
                    old(self).bar_of().viewport_of(),
                    old(self).bar_of().full_of(),
                    speed,
                    step,
                ),
                old(self).bar_of().viewport_of(),
                old(self).bar_of().full_of(),
                old(self).bar_of().rect_of(),
            ),
    {
        self.bar.step(speed, step);
    }
}

/// The point a view's content is drawn from, scrolled by the two bars: left
/// by the horizontal bar's value and up by the vertical bar's.
pub open spec fn scroll_point(horizontal: ScrollBar, vertical: ScrollBar) -> Point {
    Point { x: -horizontal.value_of() as i32, y: -vertical.value_of() as i32 }
}

/// See `scroll_point`.
pub fn scroll_of(horizontal: &HorizontalScrollBar, vertical: &VerticalScrollBar) -> (r: Point)
    requires
        horizontal.bar_of().value_of() > i32::MIN,
        vertical.bar_of().value_of() > i32::MIN,
    ensures
        r == scroll_point(horizontal.bar_of(), vertical.bar_of()),
{
    Point::new(-horizontal.scroll_value(), -vertical.scroll_value())
}

/// Where a bar stands across a view `extent` long: the bar's width and its
/// margin in from the far edge.
pub open spec fn bar_location(extent: u32, scroll: ScrollConfig) -> int {
    (extent as i32) - ((scroll.width as i32) + scroll.margin_right)
}

/// The sums of `bar_location` stay in the `i32` range.
pub open spec fn location_fits(extent: u32, scroll: ScrollConfig) -> bool {
    &&& i32::MIN <= (scroll.width as i32) + scroll.margin_right <= i32::MAX
    &&& i32::MIN <= bar_location(extent, scroll) <= i32::MAX
}

/// See `bar_location`.
pub fn bar_location_of(extent: u32, scroll: &ScrollConfig) -> (r: i32)
    requires
        location_fits(extent, *scroll),
    ensures
        r == bar_location(extent, *scroll),
{
    (extent as i32) - (scroll.width as i32 + scroll.margin_right)
}

/// The vertical bar of a view drawn in `view` with content `full` high:
/// the viewport is the view's height, the content the full height, and the
/// bar stands in from the view's right edge; its value stays.
pub open spec fn fitted_vertical(before: ScrollBar, after: ScrollBar, view: Rect, full: Rect, scroll: ScrollConfig) -> bool {
    after.is(before.value_of(), view.height, full.height, Rect { x: rect_position(bar_location(view.width, scroll) as i32), ..before.rect_of() })
}

/// The horizontal bar of a view drawn in `view` with content `full` wide:
/// the viewport is the view's width, the content the full width, and the
/// bar stands in from the view's bottom edge; its value stays.
pub open spec fn fitted_horizontal(before: ScrollBar, after: ScrollBar, view: Rect, full: Rect, scroll: ScrollConfig) -> bool {
    after.is(before.value_of(), view.width, full.width, Rect { y: rect_position(bar_location(view.height, scroll) as i32), ..before.rect_of() })
}

/// Both bars can be fitted to `view` without overflow.
pub open spec fn bars_fit(view: Rect, scroll: ScrollConfig) -> bool {
    location_fits(view.width, scroll) && location_fits(view.height, scroll)
}

/// Fits both bars of a view to where it is drawn and to its content (see
/// `fitted_vertical` and `fitted_horizontal`).
pub fn fit_bars(vertical: &mut VerticalScrollBar, horizontal: &mut HorizontalScrollBar, view: Rect, full: Rect, scroll: &ScrollConfig)
    requires
        bars_fit(view, *scroll),
    ensures
        fitted_vertical(old(vertical).bar_of(), final(vertical).bar_of(), view, full, *scroll),
        fitted_horizontal(old(horizontal).bar_of(), final(horizontal).bar_of(), view, full, *scroll),
{
    vertical.set_full_size(full.height);
    vertical.set_viewport(view.height);
    vertical.set_location(bar_location_of(view.width, scroll));
    horizontal.set_full_size(full.width);
    horizontal.set_viewport(view.width);
    horizontal.set_location(bar_location_of(view.height, scroll));
}

/// A handle is drawn once the content is at least as large as the viewport.
pub open spec fn shows_handle(bar: ScrollBar) -> bool {
    bar.full_of() >= bar.viewport_of()
}

impl ScrollBar {
    /// See `shows_handle`.
    pub fn has_handle(&self) -> (r: bool)
        ensures
            r == shows_handle(*self),
    {
        !(self.full < self.viewport)
    }
}

/// See `location_fits`.
pub fn location_fits_of(extent: u32, scroll: &ScrollConfig) -> (r: bool)
    ensures
        r == location_fits(extent, *scroll),
{
    let w = scroll.width as i32;
    let sum = w as i64 + scroll.margin_right as i64;
    if sum < i32::MIN as i64 || sum > i32::MAX as i64 {
        return false;
    }
    let e = extent as i32;
    let location = e as i64 - sum;
    i32::MIN as i64 <= location && location <= i32::MAX as i64
}

/// See `bars_fit`.
pub fn bars_fit_of(view: &Rect, scroll: &ScrollConfig) -> (r: bool)
    ensures
        r == bars_fit(*view, *scroll),
{
    location_fits_of(view.width, scroll) && location_fits_of(view.height, scroll)
}

/// The bar `after` is `before` after one wheel step (see `stepped_value`):
/// only its value changes.
pub open spec fn stepped(before: ScrollBar, after: ScrollBar, speed: i32, step: i32) -> bool {
    after.is(
        stepped_value(before.value_of(), before.viewport_of(), before.full_of(), speed, step),
        before.viewport_of(),
        before.full_of(),
        before.rect_of(),
    )
}

/// See `step_fits`.
pub fn step_fits_of(value: i32, speed: i32, step: i32) -> (r: bool)
    ensures
        r == step_fits(value, speed, step),
{
    assert(i64::MIN <= speed * step <= i64::MAX) by (nonlinear_arith)
        requires
            i32::MIN <= speed <= i32::MAX,
            i32::MIN <= step <= i32::MAX,
    ;
    let dist = speed as i64 * step as i64;
    i32::MIN as i64 <= dist && dist <= i32::MAX as i64 && i32::MIN as i64 <= dist + value as i64 && dist + value as i64
        <= i32::MAX as i64
}

/// A wheel step never takes a bar below zero, nor past the end of its
/// content when it was not past it before.
pub proof fn law_step_stays_in_range(value: i32, viewport: u32, full: u32, speed: i32, step: i32)
    requires
        step_fits(value, speed, step),
        value >= 0,
        !past_end(value, viewport, full),
    ensures
        stepped_value(value, viewport, full, speed, step) >= 0,
        !past_end(stepped_value(value, viewport, full, speed, step), viewport, full),
{
}

/// A step that was taken is undone by the opposite step.
pub proof fn law_step_back_returns(value: i32, viewport: u32, full: u32, speed: i32, step: i32)
    requires
        step > i32::MIN,
        step_fits(value, speed, step),
        value >= 0,
        !past_end(value, viewport, full),
        speed * step + value >= 0,
        !past_end((speed * step + value) as i32, viewport, full),
        step_fits(stepped_value(value, viewport, full, speed, step), speed, -step as i32),
    ensures
        stepped_value(stepped_value(value, viewport, full, speed, step), viewport, full, speed, -step as i32) == value,
{
    let back: int = -step;
    assert(back == (-step as i32) as int);
    assert(speed * back == -(speed * step)) by (nonlinear_arith)
        requires
            back == -step,
    ;
}

/// The colour of the scroll bars' handles.
pub open spec fn handle_color() -> SerdeColor {
    SerdeColor { r: 255, g: 255, b: 255, a: 0 }
}

/// What a bar draws in `context`: the outline of its handle, placed there,
/// once the content is at least as large as the viewport; else nothing.
pub open spec fn bar_commands(bar: ScrollBar, context: RenderContext) -> Seq<DrawSpec> {
    if shows_handle(bar) {
        seq![border(render_placed(bar.rect_of(), context), handle_color())]
    } else {
        Seq::empty()
    }
}

impl ScrollBar {
    /// Appends what the bar draws (see `bar_commands`).
    pub fn render(&self, context: &RenderContext, out: &mut Vec<DrawCommand>)
        ensures
            views(final(out)@) == views(old(out)@) + bar_commands(*self, *context),
    {
        let ghost start = views(out@);
        if self.has_handle() {
            push_command(
                out,
                DrawCommand::Border {
                    rect: place_for_render(&self.rect, context),
                    color: SerdeColor { r: 255, g: 255, b: 255, a: 0 },
                },
            );
            proof {
                assert(views(out@) =~= start + bar_commands(*self, *context));
            }
        } else {
            proof {
                assert(views(out@) =~= start + bar_commands(*self, *context));
            }
        }
    }
}

} // verus!
