//! Widgets of the window besides the text: the menu bar and its buttons.

pub mod buttons;
pub mod draw;
pub mod menu_bar;
pub mod modal;
pub mod order;
pub mod scroll_bar;
pub mod tree;
pub mod widgets;

use vstd::prelude::*;
use crate::config::settings::Config;
use crate::config::ConfigHolder;
use crate::geometry::{Point, Rect};
use crate::renderer::FontDetails;

verus! {

/// What a widget is told when it updates or is clicked: where its parent
/// is drawn, if anywhere.
#[derive(Clone, Copy, Debug, PartialEq, Eq, Structural)]
pub enum UpdateContext {
    Nothing,
    ParentPosition(Point),
}

/// Where a widget's parent is drawn, if anywhere.
#[derive(Clone, Copy, Debug, PartialEq, Eq, Structural)]
pub enum RenderContext {
    Nothing,
    ParentPosition(Point),
}

/// The corner a context puts a widget's own coordinates relative to.
pub open spec fn origin_of(context: UpdateContext) -> Point {
    match context {
        UpdateContext::ParentPosition(p) => p,
        UpdateContext::Nothing => Point { x: 0, y: 0 },
    }
}

/// The font of the editor's text in `config`: its file and size.
pub fn font_details_of(config: &Config) -> (r: FontDetails)
    ensures
        r.path@ == config.editor_config.font_path@,
        r.size == config.editor_config.character_size,
{
    FontDetails::new(config.editor_config.font_path.as_str(), config.editor_config.character_size)
}

/// The font of the editor's text in the settings that `config_holder`
/// hands out (see `font_details_of`).
pub fn build_font_details<T: ConfigHolder>(config_holder: &T) -> (r: FontDetails)
    ensures
        r.path@ == config_holder.held_config().editor_config.font_path@,
        r.size == config_holder.held_config().editor_config.character_size,
{
    font_details_of(config_holder.config())
}

/// The rectangle `dest` placed relative to the parent in `context`.
pub open spec fn placed_spec(dest: Rect, context: UpdateContext) -> Rect {
    match context {
        UpdateContext::ParentPosition(p) => crate::geometry::moved_rect(p, dest),
        UpdateContext::Nothing => dest,
    }
}

/// The rectangle `dest` placed relative to the parent in `context`.
pub fn placed(dest: &Rect, context: &UpdateContext) -> (r: Rect)
    ensures
        r == placed_spec(*dest, *context),
{
    match context {
        UpdateContext::ParentPosition(p) => crate::geometry::move_render_point(*p, dest),
        UpdateContext::Nothing => *dest,
    }
}

} // verus!
