//! The menu bar's buttons: save and settings.

use vstd::prelude::*;
use crate::config::paths::{join_path, joined};
use crate::config::settings::Config;
use crate::events::UpdateResult;
use crate::geometry::{rect_size, Point, Rect};
use super::{placed, UpdateContext};
use crate::geometry::moved_rect;
use super::RenderContext;
use super::draw::{place_for_render, push_command, render_placed, views, DrawCommand, DrawSpec};
use super::widgets::{add_saturating, sat_add};

verus! {

/// How big the save icon is drawn, and how big its image is.
pub const SAVE_ICON_DEST_WIDTH: u32 = 16;
pub const SAVE_ICON_DEST_HEIGHT: u32 = 16;
pub const SAVE_ICON_SRC_WIDTH: u32 = 32;
pub const SAVE_ICON_SRC_HEIGHT: u32 = 32;

/// How big the settings icon is drawn, and how big its image is.
pub const SETTINGS_ICON_DEST_WIDTH: u32 = 16;
pub const SETTINGS_ICON_DEST_HEIGHT: u32 = 16;
pub const SETTINGS_ICON_SRC_WIDTH: u32 = 16;
pub const SETTINGS_ICON_SRC_HEIGHT: u32 = 16;

/// Whether `point` falls on a widget drawn at `dest` in `context`.
pub open spec fn hits(dest: Rect, point: Point, context: UpdateContext) -> bool {
    match context {
        UpdateContext::ParentPosition(p) => moved_rect(p, dest).has_point(point),
        UpdateContext::Nothing => dest.has_point(point),
    }
}

/// The button that saves the open file.
#[derive(Clone, Copy, Debug, PartialEq, Eq, Structural)]
pub struct SaveButton {
    pub source: Rect,
    pub dest: Rect,
}

impl SaveButton {
    pub open spec fn new_spec() -> SaveButton {
        SaveButton {
            dest: Rect { x: 0, y: 0, width: SAVE_ICON_DEST_WIDTH, height: SAVE_ICON_DEST_HEIGHT },
            source: Rect { x: 0, y: 0, width: SAVE_ICON_SRC_WIDTH, height: SAVE_ICON_SRC_HEIGHT },
        }
    }

    pub fn new() -> (r: Self)
        ensures
            r.dest == (Rect { x: 0, y: 0, width: SAVE_ICON_DEST_WIDTH, height: SAVE_ICON_DEST_HEIGHT }),
            r.source == (Rect { x: 0, y: 0, width: SAVE_ICON_SRC_WIDTH, height: SAVE_ICON_SRC_HEIGHT }),
    {
        SaveButton {
            dest: Rect::new(0, 0, SAVE_ICON_DEST_WIDTH, SAVE_ICON_DEST_HEIGHT),
            source: Rect::new(0, 0, SAVE_ICON_SRC_WIDTH, SAVE_ICON_SRC_HEIGHT),
        }
    }

    /// The icon's image: the theme's save icon in the themes directory.
    pub fn texture_path(&self, config: &Config) -> (r: String)
        ensures
            r@ == joined(config.directories.themes_dir@, config.theme.images.save_icon@),
    {
        join_path(config.directories.themes_dir.as_str(), config.theme.images.save_icon.as_str())
    }

    pub fn source(&self) -> (r: &Rect)
        ensures
            *r == self.source,
    {
        &self.source
    }

    pub fn dest(&self) -> (r: Rect)
        ensures
            r == self.dest,
    {
        self.dest
    }

    pub fn render_start_point(&self) -> (r: Point)
        ensures
            r == (Point { x: self.dest.x, y: self.dest.y }),
    {
        self.dest.top_left()
    }

    pub fn set_dest(&mut self, rect: &Rect)
        ensures
            *final(self) == (SaveButton { dest: *rect, ..*old(self) }),
    {
        self.dest = *rect;
    }

    pub fn set_source(&mut self, rect: &Rect)
        ensures
            *final(self) == (SaveButton { source: *rect, ..*old(self) }),
    {
        self.source = *rect;
    }

    pub fn update(&mut self) -> (r: UpdateResult)
        ensures
            r == UpdateResult::NoOp,
            *final(self) == *old(self),
    {
        UpdateResult::NoOp
    }

    /// A click asks for the open file to be saved.
    pub fn on_left_click(&mut self, _point: &Point, _context: &UpdateContext) -> (r: UpdateResult)
        ensures
            r == UpdateResult::SaveCurrentFile,
            *final(self) == *old(self),
    {
        UpdateResult::SaveCurrentFile
    }

    pub fn is_left_click_target(&self, point: &Point, context: &UpdateContext) -> (r: bool)
        ensures
            r == hits(self.dest, *point, *context),
    {
        placed(&self.dest, context).contains_point(*point)
    }
}

/// The button that opens the settings.
#[derive(Clone, Copy, Debug, PartialEq, Eq, Structural)]
pub struct SettingsButton {
    pub source: Rect,
    pub dest: Rect,
}

impl SettingsButton {
    pub open spec fn new_spec() -> SettingsButton {
        SettingsButton {
            source: Rect { x: 0, y: 0, width: SETTINGS_ICON_SRC_WIDTH, height: SETTINGS_ICON_SRC_HEIGHT },
            dest: Rect { x: 0, y: 0, width: SETTINGS_ICON_DEST_WIDTH, height: SETTINGS_ICON_DEST_HEIGHT },
        }
    }

    pub fn new() -> (r: Self)
        ensures
            r.dest == (Rect { x: 0, y: 0, width: SETTINGS_ICON_DEST_WIDTH, height: SETTINGS_ICON_DEST_HEIGHT }),
            r.source == (Rect { x: 0, y: 0, width: SETTINGS_ICON_SRC_WIDTH, height: SETTINGS_ICON_SRC_HEIGHT }),
    {
        SettingsButton {
            source: Rect::new(0, 0, SETTINGS_ICON_SRC_WIDTH, SETTINGS_ICON_SRC_HEIGHT),
            dest: Rect::new(0, 0, SETTINGS_ICON_DEST_WIDTH, SETTINGS_ICON_DEST_HEIGHT),
        }
    }

    pub fn dest(&self) -> (r: &Rect)
        ensures
            *r == self.dest,
    {
        &self.dest
    }

    pub fn set_dest(&mut self, rect: &Rect)
        ensures
            *final(self) == (SettingsButton { dest: *rect, ..*old(self) }),
    {
        self.dest = *rect;
    }

    pub fn source(&self) -> (r: &Rect)
        ensures
            *r == self.source,
    {
        &self.source
    }

    pub fn set_source(&mut self, rect: &Rect)
        ensures
            *final(self) == (SettingsButton { source: *rect, ..*old(self) }),
    {
        self.source = *rect;
    }

    pub fn padding_width(&self) -> (r: u32)
        ensures
            r == SETTINGS_ICON_DEST_WIDTH,
    {
        SETTINGS_ICON_DEST_WIDTH
    }

    pub fn padding_height(&self) -> (r: u32)
        ensures
            r == SETTINGS_ICON_DEST_HEIGHT,
    {
        SETTINGS_ICON_DEST_HEIGHT
    }

    /// A click asks for the settings to be opened.
    pub fn on_left_click(&mut self, _point: &Point, _context: &UpdateContext) -> (r: UpdateResult)
        ensures
            r == UpdateResult::OpenSettings,
            *final(self) == *old(self),
    {
        UpdateResult::OpenSettings
    }

    pub fn is_left_click_target(&self, point: &Point, context: &UpdateContext) -> (r: bool)
        ensures
            r == hits(self.dest, *point, *context),
    {
        placed(&self.dest, context).contains_point(*point)
    }
}

/// What the save button draws: clipped to its rectangle placed in
/// `context` and grown by the icon's size, the theme's save icon at its
/// corner, as large as the icon is drawn.
pub open spec fn save_button_commands(b: SaveButton, config: Config, context: RenderContext) -> Seq<DrawSpec> {
    let dest = render_placed(b.dest, context);
    let clipping = Rect {
        width: rect_size(sat_add(dest.width, SAVE_ICON_DEST_WIDTH)),
        height: rect_size(sat_add(dest.height, SAVE_ICON_DEST_HEIGHT)),
        ..dest
    };
    seq![DrawSpec::Clip(clipping), save_image(b, config, Rect { width: SAVE_ICON_DEST_WIDTH, height: SAVE_ICON_DEST_HEIGHT, ..dest })]
}

/// The save icon's image drawn into `dest`.
pub open spec fn save_image(b: SaveButton, config: Config, dest: Rect) -> DrawSpec {
    DrawSpec::Image { path: joined(config.directories.themes_dir@, config.theme.images.save_icon@), source: b.source, dest }
}

impl SaveButton {
    /// Appends what the button draws (see `save_button_commands`).
    pub fn render(&self, config: &Config, context: &RenderContext, out: &mut Vec<DrawCommand>)
        ensures
            views(final(out)@) == views(old(out)@) + save_button_commands(*self, *config, *context),
    {
        let dest = place_for_render(&self.dest, context);
        let mut clipping = dest;
        clipping.set_width(add_saturating(dest.width, SAVE_ICON_DEST_WIDTH));
        clipping.set_height(add_saturating(dest.height, SAVE_ICON_DEST_HEIGHT));
        let ghost start = views(out@);
        push_command(out, DrawCommand::Clip(clipping));
        push_command(
            out,
            DrawCommand::Image {
                path: self.texture_path(config),
                source: self.source,
                dest: Rect { width: SAVE_ICON_DEST_WIDTH, height: SAVE_ICON_DEST_HEIGHT, ..dest },
            },
        );
        proof {
            assert(views(out@) =~= start + save_button_commands(*self, *config, *context));
        }
    }
}

} // verus!
