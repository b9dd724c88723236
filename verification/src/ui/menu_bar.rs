//! The bar along the top of the window, with the save and settings buttons.

use vstd::prelude::*;
use crate::config::settings::Config;
use crate::events::UpdateResult;
use crate::geometry::{clamp_i32, moved_rect, move_render_point, new_rect, rect_size, Point, Rect};
use crate::themes::SerdeColor;
use super::buttons::{hits, SaveButton, SettingsButton, SAVE_ICON_DEST_HEIGHT, SAVE_ICON_DEST_WIDTH};
use super::{origin_of, placed, RenderContext, UpdateContext};
use super::buttons::save_button_commands;
use super::draw::{border, fill, place_for_render, push_command, render_origin, render_placed, views, DrawCommand, DrawSpec};

verus! {

/// Where the first button sits in the bar; each next one a step further right.
pub const SAVE_BUTTON_OFFSET_LEFT: i32 = 16;
pub const SAVE_BUTTON_OFFSET_TOP: i32 = 10;

/// The point `p` moved by `dx` and `dy`, held in the `i32` range.
pub open spec fn shifted_point(p: Point, dx: int, dy: int) -> Point {
    Point { x: clamp_i32(p.x + dx), y: clamp_i32(p.y + dy) }
}

pub struct MenuBar {
    border_color: SerdeColor,
    background_color: SerdeColor,
    dest: Rect,
    save_button: SaveButton,
    settings_button: SettingsButton,
}

/// What a click at `point` on the bar `m` placed in `context` asks for: to
/// save on the save button, to open the settings on the settings button,
/// nothing elsewhere.
pub open spec fn menu_click(m: MenuBar, point: Point, context: UpdateContext) -> UpdateResult {
    let rel = origin_of(context);
    if hits(
        m.save_button_spec().dest,
        point,
        UpdateContext::ParentPosition(shifted_point(rel, SAVE_BUTTON_OFFSET_LEFT as int, SAVE_BUTTON_OFFSET_TOP as int)),
    ) {
        UpdateResult::SaveCurrentFile
    } else if hits(
        m.settings_button_spec().dest,
        point,
        UpdateContext::ParentPosition(shifted_point(rel, 2 * SAVE_BUTTON_OFFSET_LEFT, SAVE_BUTTON_OFFSET_TOP as int)),
    ) {
        UpdateResult::OpenSettings
    } else {
        UpdateResult::NoOp
    }
}

impl MenuBar {
    pub closed spec fn dest_spec(&self) -> Rect {
        self.dest
    }

    pub closed spec fn save_button_spec(&self) -> SaveButton {
        self.save_button
    }

    pub closed spec fn settings_button_spec(&self) -> SettingsButton {
        self.settings_button
    }

    pub closed spec fn background_spec(&self) -> SerdeColor {
        self.background_color
    }

    pub closed spec fn border_spec(&self) -> SerdeColor {
        self.border_color
    }

    /// As wide as the window and as high as the menu, in the theme's
    /// background and border colours.
    pub fn new(config: &Config) -> (r: Self)
        ensures
            r.dest_spec() == new_rect(0, 0, config.width, config.menu_height as u32),
            r.background_spec() == config.theme.background,
            r.border_spec() == config.theme.border_color,
            r.save_button_spec() == SaveButton::new_spec(),
            r.settings_button_spec() == SettingsButton::new_spec(),
    {
        MenuBar {
            border_color: config.theme.border_color,
            background_color: config.theme.background,
            dest: Rect::new(0, 0, config.width, config.menu_height as u32),
            save_button: SaveButton::new(),
            settings_button: SettingsButton::new(),
        }
    }

    pub fn background_color(&self) -> (r: &SerdeColor)
        ensures
            *r == self.background_spec(),
    {
        &self.background_color
    }

    pub fn border_color(&self) -> (r: &SerdeColor)
        ensures
            *r == self.border_spec(),
    {
        &self.border_color
    }

    pub fn dest(&self) -> (r: Rect)
        ensures
            r == self.dest_spec(),
    {
        self.dest
    }

    pub fn render_start_point(&self) -> (r: Point)
        ensures
            r == (Point { x: self.dest_spec().x, y: self.dest_spec().y }),
    {
        self.dest.top_left()
    }

    /// Sizes the bar to the window's width and the menu's height.
    pub fn prepare_ui(&mut self, config: &Config)
        ensures
            final(self).dest_spec() == new_rect(0, 0, config.width, config.menu_height as u32),
            final(self).save_button_spec() == old(self).save_button_spec(),
            final(self).settings_button_spec() == old(self).settings_button_spec(),
            final(self).background_spec() == old(self).background_spec(),
            final(self).border_spec() == old(self).border_spec(),
    {
        self.dest = Rect::new(0, 0, config.width, config.menu_height as u32);
    }

    /// Follows the window's width.
    pub fn update(&mut self, config: &Config) -> (r: UpdateResult)
        ensures
            r == UpdateResult::NoOp,
            final(self).dest_spec() == (Rect { width: rect_size(config.width), ..old(self).dest_spec() }),
            final(self).save_button_spec() == old(self).save_button_spec(),
            final(self).settings_button_spec() == old(self).settings_button_spec(),
            final(self).background_spec() == old(self).background_spec(),
            final(self).border_spec() == old(self).border_spec(),
    {
        self.dest.set_width(config.width);
        UpdateResult::NoOp
    }

    /// Where the save button is drawn when the bar's parent is at `context`.
    pub fn save_button_rect(&self, context: &RenderContext) -> (r: Rect)
        ensures
            r == ({
                let rel = match *context {
                    RenderContext::ParentPosition(p) => p,
                    RenderContext::Nothing => Point { x: 0, y: 0 },
                };
                let d = moved_rect(shifted_point(rel, SAVE_BUTTON_OFFSET_LEFT as int, SAVE_BUTTON_OFFSET_TOP as int), self.save_button_spec().dest);
                Rect { width: SAVE_ICON_DEST_WIDTH, height: SAVE_ICON_DEST_HEIGHT, ..d }
            }),
    {
        let rel = match context {
            RenderContext::ParentPosition(p) => *p,
            RenderContext::Nothing => Point::new(0, 0),
        };
        let mut d = move_render_point(rel.offset(SAVE_BUTTON_OFFSET_LEFT, SAVE_BUTTON_OFFSET_TOP), &self.save_button.dest);
        d.width = SAVE_ICON_DEST_WIDTH;
        d.height = SAVE_ICON_DEST_HEIGHT;
        d
    }

    /// Where the settings button is drawn when the bar's parent is at `context`.
    pub fn settings_button_rect(&self, context: &RenderContext) -> (r: Rect)
        ensures
            r == ({
                let rel = match *context {
                    RenderContext::ParentPosition(p) => p,
                    RenderContext::Nothing => Point { x: 0, y: 0 },
                };
                moved_rect(
                    shifted_point(rel, 2 * SAVE_BUTTON_OFFSET_LEFT, SAVE_BUTTON_OFFSET_TOP as int),
                    self.settings_button_spec().dest,
                )
            }),
    {
        let rel = match context {
            RenderContext::ParentPosition(p) => *p,
            RenderContext::Nothing => Point::new(0, 0),
        };
        move_render_point(rel.offset(SAVE_BUTTON_OFFSET_LEFT * 2, SAVE_BUTTON_OFFSET_TOP), &self.settings_button.dest)
    }

    /// A click on the save button asks to save, one on the settings button
    /// to open the settings; anywhere else nothing happens.
    pub fn on_left_click(&mut self, point: &Point, context: &UpdateContext) -> (r: UpdateResult)
        ensures
            r == menu_click(*old(self), *point, *context),
            final(self).dest_spec() == old(self).dest_spec(),
            final(self).save_button_spec() == old(self).save_button_spec(),
            final(self).settings_button_spec() == old(self).settings_button_spec(),
            final(self).background_spec() == old(self).background_spec(),
            final(self).border_spec() == old(self).border_spec(),
    {
        let rel = match context {
            UpdateContext::ParentPosition(p) => *p,
            UpdateContext::Nothing => Point::new(0, 0),
        };
        let save_context = UpdateContext::ParentPosition(rel.offset(SAVE_BUTTON_OFFSET_LEFT, SAVE_BUTTON_OFFSET_TOP));
        if self.save_button.is_left_click_target(point, &save_context) {
            return self.save_button.on_left_click(point, &save_context);
        }
        let settings_context = UpdateContext::ParentPosition(rel.offset(SAVE_BUTTON_OFFSET_LEFT * 2, SAVE_BUTTON_OFFSET_TOP));
        if self.settings_button.is_left_click_target(point, &settings_context) {
            return self.settings_button.on_left_click(point, &settings_context);
        }
        UpdateResult::NoOp
    }

    /// Whether `point` falls on the bar placed in `context`.
    pub fn is_left_click_target(&self, point: &Point, context: &UpdateContext) -> (r: bool)
        ensures
            r == hits(self.dest_spec(), *point, *context),
    {
        placed(&self.dest, context).contains_point(*point)
    }
}

/// What the menu bar draws in `context`: clipped to its rectangle, its
/// background and its outline there, and the save button inside it.
pub open spec fn menu_bar_commands(m: MenuBar, config: Config, context: RenderContext) -> Seq<DrawSpec> {
    let rel = render_origin(context);
    seq![
        DrawSpec::Clip(m.dest_spec()),
        fill(moved_rect(rel, m.dest_spec()), m.background_spec()),
        border(render_placed(m.dest_spec(), context), m.border_spec()),
    ] + save_button_commands(
        m.save_button_spec(),
        config,
        RenderContext::ParentPosition(shifted_point(rel, SAVE_BUTTON_OFFSET_LEFT as int, SAVE_BUTTON_OFFSET_TOP as int)),
    )
}

impl MenuBar {
    /// Appends what the bar draws (see `menu_bar_commands`).
    pub fn render(&self, config: &Config, context: &RenderContext, out: &mut Vec<DrawCommand>)
        ensures
            views(final(out)@) == views(old(out)@) + menu_bar_commands(*self, *config, *context),
    {
        let rel = match context {
            RenderContext::ParentPosition(p) => *p,
            RenderContext::Nothing => Point::new(0, 0),
        };
        let ghost start = views(out@);
        push_command(out, DrawCommand::Clip(self.dest));
        push_command(out, DrawCommand::Fill { rect: move_render_point(rel, &self.dest), color: self.background_color });
        push_command(out, DrawCommand::Border { rect: place_for_render(&self.dest, context), color: self.border_color });
        let ghost mid = views(out@);
        self.save_button.render(
            config,
            &RenderContext::ParentPosition(rel.offset(SAVE_BUTTON_OFFSET_LEFT, SAVE_BUTTON_OFFSET_TOP)),
            out,
        );
        proof {
            assert(views(out@) =~= start + menu_bar_commands(*self, *config, *context));
        }
    }
}

} // verus!
