//! The windows drawn over the editor: one to pick a file from a directory
//! tree, and one that shows the settings.

use vstd::prelude::*;
use vstd::std_specs::cmp::PartialEqSpecImpl;
use crate::config::settings::Config;
use crate::editor::text_character::CharacterSizeManager;
use crate::events::UpdateResult;
use crate::geometry::{clamp_i32, new_rect, rect_position, rect_size, Point, Rect};
use crate::text::{decimal, decimal_text};
use crate::themes::SerdeColor;
use super::scroll_bar::{
    bars_fit, fit_bars, fitted_horizontal, fitted_vertical, scroll_of, scroll_point, step_fits, stepped_value,
    HorizontalScrollBar, ScrollBar, VerticalScrollBar,
};
use super::tree::{
    dir_click, dir_commands, dir_opened, dir_prepared, dir_target, dirs_dest, path_file_name, tree_origin, DirectoryView, FileSystem, CONTENT_MARGIN_LEFT,
    CONTENT_MARGIN_TOP, DEFAULT_ICON_SIZE,
};
use super::widgets::{label_commands, label_prepared, sat_add, Label};
use super::draw::{border, fill, place_for_render, push_command, render_placed, views, DrawCommand, DrawSpec};
use super::scroll_bar::bar_commands;
use super::RenderContext;
use super::{placed, placed_spec, UpdateContext};

verus! {

/// How far the settings' values stand right of their names.
pub const LABEL_WIDTH: i32 = 320;

/// An area of `width` by `height` centred in a window of `window_width` by
/// `window_height` (halves rounded down).
pub open spec fn centred(window_width: u32, window_height: u32, width: u32, height: u32) -> Rect {
    Rect {
        x: rect_position(((window_width / 2) as int - (width / 2) as int) as i32),
        y: rect_position(((window_height / 2) as int - (height / 2) as int) as i32),
        width,
        height,
    }
}

/// The rectangle a directory tree takes with the margins around it.
pub open spec fn padded(d: Rect) -> Rect {
    new_rect(d.x, d.y, sat_add(d.width, (2 * CONTENT_MARGIN_LEFT) as u32), sat_add(d.height, (2 * CONTENT_MARGIN_TOP) as u32))
}

/// What the open-file window draws in `context`: its background and
/// outline in its area placed there, the tree from the area's corner moved
/// in by the margins and by the scroll, and the handles of its scroll bars
/// where they stand.
pub open spec fn open_file_commands(m: OpenFile, context: RenderContext) -> Seq<DrawSpec> {
    let dest = render_placed(m.dest, context);
    let s = m.scroll_spec();
    seq![fill(dest, m.background_color), border(dest, m.border_color)] + dir_commands(
        m.directory_view,
        Point {
            x: clamp_i32(clamp_i32(dest.x + CONTENT_MARGIN_LEFT) + s.x),
            y: clamp_i32(clamp_i32(dest.y + CONTENT_MARGIN_TOP) + s.y),
        },
    ) + bar_commands(m.vertical_scroll_bar.bar_of(), RenderContext::Nothing) + bar_commands(
        m.horizontal_scroll_bar.bar_of(),
        RenderContext::Nothing,
    )
}

/// Where a label of the settings is drawn: from the corner of `dest`, in
/// by the margins and by `dx` and `dy`, moved by the scroll `s`.
pub open spec fn settings_label_at(dest: Rect, dx: int, dy: int, s: Point) -> RenderContext {
    RenderContext::ParentPosition(
        Point {
            x: clamp_i32(clamp_i32(dest.x + CONTENT_MARGIN_LEFT + dx) + s.x),
            y: clamp_i32(clamp_i32(dest.y + CONTENT_MARGIN_TOP + dy) + s.y),
        },
    )
}

/// What the settings draw in `context`: clipped to their area placed there,
/// its background and outline; the font's path and the character size
/// under their names, the values `LABEL_WIDTH` right of the names and the
/// second line a name's height below the first, from the area's own corner
/// moved by the scroll; and the handles of the scroll bars from the area's
/// corner.
pub open spec fn settings_commands(m: Settings, context: RenderContext) -> Seq<DrawSpec> {
    let dest = render_placed(m.dest, context);
    let s = m.scroll_spec();
    let h = m.font_label.dest.height as i32 as int;
    let corner = RenderContext::ParentPosition(Point { x: m.dest.x, y: m.dest.y });
    seq![DrawSpec::Clip(dest), fill(dest, m.background_color), border(dest, m.border_color)]
        + label_commands(m.font_label, settings_label_at(m.dest, 0, 0, s))
        + label_commands(m.font_value, settings_label_at(m.dest, LABEL_WIDTH as int, 0, s))
        + label_commands(m.character_size_label, settings_label_at(m.dest, 0, h, s))
        + label_commands(m.character_size_value, settings_label_at(m.dest, LABEL_WIDTH as int, h, s))
        + bar_commands(m.vertical_scroll_bar.bar_of(), corner)
        + bar_commands(m.horizontal_scroll_bar.bar_of(), corner)
}

/// The window to open a file from: a directory tree from a root path,
/// scrolled inside a centred area.
pub struct OpenFile {
    pub root_path: String,
    pub directory_view: DirectoryView,
    pub vertical_scroll_bar: VerticalScrollBar,
    pub horizontal_scroll_bar: HorizontalScrollBar,
    pub dest: Rect,
    pub full_dest: Rect,
    pub background_color: SerdeColor,
    pub border_color: SerdeColor,
}

impl OpenFile {
    /// How far the tree is scrolled (see `scroll_point`).
    pub open spec fn scroll_spec(&self) -> Point {
        scroll_point(self.horizontal_scroll_bar.bar_of(), self.vertical_scroll_bar.bar_of())
    }

    /// Neither bar stands at the lowest `i32`, whose negation overflows.
    pub open spec fn scroll_ok(&self) -> bool {
        &&& self.horizontal_scroll_bar.bar_of().value_of() > i32::MIN
        &&& self.vertical_scroll_bar.bar_of().value_of() > i32::MIN
    }

    /// A `width` by `height` window centred in the editor's window, on the
    /// tree at `root_path`, in the theme's colours.
    pub fn new(root_path: String, width: u32, height: u32, config: &Config) -> (r: Self)
        requires
            path_file_name(root_path@) is Some,
        ensures
            r.root_path@ == root_path@,
            r.directory_view.path@ == root_path@,
            !r.directory_view.opened,
            r.dest == (Rect { width: rect_size(width), height: rect_size(height), ..centred(config.width, config.height, width, height) }),
            r.full_dest == (Rect { x: 0, y: 0, width: DEFAULT_ICON_SIZE, height: DEFAULT_ICON_SIZE }),
            r.background_color == config.theme.background,
            r.border_color == config.theme.border_color,
            r.vertical_scroll_bar.bar_of().is(0, 1, 1, new_rect(0, 0, config.scroll.width, 0)),
            r.horizontal_scroll_bar.bar_of().is(0, 1, 1, new_rect(0, 0, config.scroll.width, 0)),
    {
        let directory_view = DirectoryView::new(root_path.clone(), config);
        OpenFile {
            root_path,
            directory_view,
            vertical_scroll_bar: VerticalScrollBar::new(config),
            horizontal_scroll_bar: HorizontalScrollBar::new(config),
            dest: Rect::new(
                (config.width / 2) as i32 - (width / 2) as i32,
                (config.height / 2) as i32 - (height / 2) as i32,
                width,
                height,
            ),
            full_dest: Rect::new(0, 0, DEFAULT_ICON_SIZE, DEFAULT_ICON_SIZE),
            background_color: config.theme.background,
            border_color: config.theme.border_color,
        }
    }

    /// The window on `root_path`, or nothing when the path has no last
    /// component to name its root by.
    pub fn try_new(root_path: String, width: u32, height: u32, config: &Config) -> (r: Option<Self>)
        ensures
            r is Some <==> path_file_name(root_path@) is Some,
            r matches Some(m) ==> {
                &&& m.root_path@ == root_path@
                &&& m.directory_view.path@ == root_path@
                &&& m.dest == (Rect { width: rect_size(width), height: rect_size(height), ..centred(config.width, config.height, width, height) })
                &&& m.vertical_scroll_bar.bar_of().value_of() == 0
                &&& m.horizontal_scroll_bar.bar_of().value_of() == 0
            },
    {
        match super::tree::file_name_of(root_path.as_str()) {
            Some(_) => Some(OpenFile::new(root_path, width, height, config)),
            None => None,
        }
    }

    pub fn root_path(&self) -> (r: String)
        ensures
            r@ == self.root_path@,
    {
        self.root_path.clone()
    }

    /// The tree with the margins around it.
    fn refresh_full_dest(&mut self)
        ensures
            final(self).full_dest == padded(dirs_dest(old(self).directory_view)),
            final(self).root_path == old(self).root_path,
            final(self).directory_view == old(self).directory_view,
            final(self).vertical_scroll_bar == old(self).vertical_scroll_bar,
            final(self).horizontal_scroll_bar == old(self).horizontal_scroll_bar,
            final(self).dest == old(self).dest,
            final(self).background_color == old(self).background_color,
            final(self).border_color == old(self).border_color,
    {
        let d = self.directory_view.dest();
        self.full_dest = Rect::new(
            d.x,
            d.y,
            super::widgets::add_saturating(d.width, 2 * CONTENT_MARGIN_LEFT as u32),
            super::widgets::add_saturating(d.height, 2 * CONTENT_MARGIN_TOP as u32),
        );
    }

    /// Opens `dir_path` in the tree (see `DirectoryView::open_directory`)
    /// and takes the tree's new size.
    pub fn open_directory<F: FileSystem, S: CharacterSizeManager>(
        &mut self,
        dir_path: &str,
        fs: &mut F,
        sizes: &mut S,
        config: &Config,
    )
        ensures
            final(self).full_dest == padded(dirs_dest(final(self).directory_view)),
            dir_opened(old(self).directory_view, final(self).directory_view, dir_path@),
            final(self).root_path == old(self).root_path,
            final(self).dest == old(self).dest,
            final(self).vertical_scroll_bar == old(self).vertical_scroll_bar,
            final(self).horizontal_scroll_bar == old(self).horizontal_scroll_bar,
            final(self).background_color == old(self).background_color,
            final(self).border_color == old(self).border_color,
    {
        self.directory_view.open_directory(dir_path, fs, sizes, config);
        self.refresh_full_dest();
    }

    pub fn full_rect(&self) -> (r: Rect)
        ensures
            r == self.full_dest,
    {
        self.full_dest
    }

    /// Scrolls the tree by `x` and `y` wheel steps (see `stepped_value`).
    pub fn scroll_by(&mut self, x: i32, y: i32, config: &Config)
        requires
            step_fits(old(self).horizontal_scroll_bar.bar_of().value_of(), config.scroll.speed, x),
            step_fits(old(self).vertical_scroll_bar.bar_of().value_of(), config.scroll.speed, y),
        ensures
            final(self).horizontal_scroll_bar.bar_of().is(
                stepped_value(
                    old(self).horizontal_scroll_bar.bar_of().value_of(),
                    old(self).horizontal_scroll_bar.bar_of().viewport_of(),
                    old(self).horizontal_scroll_bar.bar_of().full_of(),
                    config.scroll.speed,
                    x,
                ),
                old(self).horizontal_scroll_bar.bar_of().viewport_of(),
                old(self).horizontal_scroll_bar.bar_of().full_of(),
                old(self).horizontal_scroll_bar.bar_of().rect_of(),
            ),
            final(self).vertical_scroll_bar.bar_of().is(
                stepped_value(
                    old(self).vertical_scroll_bar.bar_of().value_of(),
                    old(self).vertical_scroll_bar.bar_of().viewport_of(),
                    old(self).vertical_scroll_bar.bar_of().full_of(),
                    config.scroll.speed,
                    y,
                ),
                old(self).vertical_scroll_bar.bar_of().viewport_of(),
                old(self).vertical_scroll_bar.bar_of().full_of(),
                old(self).vertical_scroll_bar.bar_of().rect_of(),
            ),
            final(self).root_path == old(self).root_path,
            final(self).directory_view == old(self).directory_view,
            final(self).dest == old(self).dest,
            final(self).full_dest == old(self).full_dest,
    {
        let speed = config.scroll().speed();
        self.horizontal_scroll_bar.step(speed, x);
        self.vertical_scroll_bar.step(speed, y);
    }

    /// How far the tree is scrolled (see `scroll_point`).
    pub fn scroll(&self) -> (r: Point)
        requires
            self.scroll_ok(),
        ensures
            r == self.scroll_spec(),
    {
        scroll_of(&self.horizontal_scroll_bar, &self.vertical_scroll_bar)
    }

    /// Stays centred in the window, takes the theme's background, and fits
    /// the scroll bars to its area and to the tree's size.
    pub fn update(&mut self, config: &Config, _context: &UpdateContext) -> (r: UpdateResult)
        requires
            bars_fit(centred(config.width, config.height, old(self).dest.width, old(self).dest.height), config.scroll),
        ensures
            r == UpdateResult::NoOp,
            final(self).dest == centred(config.width, config.height, old(self).dest.width, old(self).dest.height),
            final(self).background_color == config.theme.background,
            fitted_vertical(
                old(self).vertical_scroll_bar.bar_of(),
                final(self).vertical_scroll_bar.bar_of(),
                final(self).dest,
                old(self).full_dest,
                config.scroll,
            ),
            fitted_horizontal(
                old(self).horizontal_scroll_bar.bar_of(),
                final(self).horizontal_scroll_bar.bar_of(),
                final(self).dest,
                old(self).full_dest,
                config.scroll,
            ),
            final(self).root_path == old(self).root_path,
            final(self).directory_view == old(self).directory_view,
            final(self).full_dest == old(self).full_dest,
            final(self).border_color == old(self).border_color,
    {
        let x = (config.width / 2) as i32 - (self.dest.width / 2) as i32;
        let y = (config.height / 2) as i32 - (self.dest.height / 2) as i32;
        self.dest.set_x(x);
        self.dest.set_y(y);
        self.background_color = config.theme.background;
        fit_bars(&mut self.vertical_scroll_bar, &mut self.horizontal_scroll_bar, self.dest, self.full_dest, config.scroll());
        UpdateResult::NoOp
    }

    /// Lays the tree out.
    pub fn prepare_ui<S: CharacterSizeManager>(&mut self, sizes: &mut S)
        ensures
            dir_prepared(old(self).directory_view, final(self).directory_view),
            final(self).root_path == old(self).root_path,
            final(self).dest == old(self).dest,
            final(self).full_dest == old(self).full_dest,
            final(self).vertical_scroll_bar == old(self).vertical_scroll_bar,
            final(self).horizontal_scroll_bar == old(self).horizontal_scroll_bar,
            final(self).background_color == old(self).background_color,
            final(self).border_color == old(self).border_color,
    {
        self.directory_view.prepare_ui(sizes);
    }

    pub fn render_start_point(&self) -> (r: Point)
        ensures
            r == (Point { x: self.dest.x, y: self.dest.y }),
    {
        self.dest.top_left()
    }

    pub fn dest(&self) -> (r: Rect)
        ensures
            r == self.dest,
    {
        self.dest
    }

    /// What a click at `point` on the window, placed in `context` and
    /// scrolled as its bars say, asks for (see `dir_click`); the tree's new
    /// size is taken.
    pub fn on_left_click(&mut self, point: &Point, context: &UpdateContext) -> (r: UpdateResult)
        requires
            old(self).scroll_ok(),
        ensures
            r == dir_click(
                old(self).directory_view,
                *point,
                tree_origin(placed_spec(old(self).dest, *context), old(self).scroll_spec()),
            ),
            final(self).full_dest == padded(dirs_dest(old(self).directory_view)),
            final(self).directory_view == old(self).directory_view,
            final(self).root_path == old(self).root_path,
            final(self).dest == old(self).dest,
            final(self).vertical_scroll_bar == old(self).vertical_scroll_bar,
            final(self).horizontal_scroll_bar == old(self).horizontal_scroll_bar,
    {
        let scroll = self.scroll();
        let dest = placed(&self.dest, context);
        let p = dest.top_left().offset(CONTENT_MARGIN_LEFT, CONTENT_MARGIN_TOP).offset(scroll.x, scroll.y);
        let res = self.directory_view.on_left_click(point, &UpdateContext::ParentPosition(p));
        self.refresh_full_dest();
        res
    }

    /// Whether `point` falls on the tree, or on the window's area from the
    /// tree's corner on.
    pub fn is_left_click_target(&self, point: &Point, context: &UpdateContext) -> (r: bool)
        requires
            self.scroll_ok(),
        ensures
            r == ({
                let dest = placed_spec(self.dest, *context);
                let p = tree_origin(dest, self.scroll_spec());
                dir_target(self.directory_view, *point, p) || new_rect(p.x, p.y, dest.width, dest.height).has_point(*point)
            }),
    {
        let scroll = self.scroll();
        let dest = placed(&self.dest, context);
        let p = dest.top_left().offset(CONTENT_MARGIN_LEFT, CONTENT_MARGIN_TOP).offset(scroll.x, scroll.y);
        if self.directory_view.is_left_click_target(point, &UpdateContext::ParentPosition(p)) {
            true
        } else {
            Rect::new(p.x, p.y, dest.width, dest.height).contains_point(*point)
        }
    }

    /// Appends what the window draws (see `open_file_commands`).
    pub fn render(&self, context: &RenderContext, out: &mut Vec<DrawCommand>)
        requires
            self.scroll_ok(),
        ensures
            views(final(out)@) == views(old(out)@) + open_file_commands(*self, *context),
    {
        let ghost start = views(out@);
        let dest = place_for_render(&self.dest, context);
        push_command(out, DrawCommand::Fill { rect: dest, color: self.background_color });
        push_command(out, DrawCommand::Border { rect: dest, color: self.border_color });
        let s = self.scroll();
        let p = dest.top_left().offset(CONTENT_MARGIN_LEFT, CONTENT_MARGIN_TOP).offset(s.x, s.y);
        self.directory_view.render(&RenderContext::ParentPosition(p), out);
        self.vertical_scroll_bar.bar().render(&RenderContext::Nothing, out);
        self.horizontal_scroll_bar.bar().render(&RenderContext::Nothing, out);
        proof {
            assert(views(out@) =~= start + open_file_commands(*self, *context));
        }
    }

    /// Sizes the scroll bars' handles: the vertical one `vertical.1` high at
    /// `vertical.0` down, the horizontal one `horizontal.1` wide at
    /// `horizontal.0` across.
    pub fn size_scroll_handles(&mut self, vertical: (i32, u32), horizontal: (i32, u32))
        ensures
            final(self).vertical_scroll_bar.bar_of().is(
                old(self).vertical_scroll_bar.bar_of().value_of(),
                old(self).vertical_scroll_bar.bar_of().viewport_of(),
                old(self).vertical_scroll_bar.bar_of().full_of(),
                Rect { y: rect_position(vertical.0), height: rect_size(vertical.1), ..old(self).vertical_scroll_bar.bar_of().rect_of() },
            ),
            final(self).horizontal_scroll_bar.bar_of().is(
                old(self).horizontal_scroll_bar.bar_of().value_of(),
                old(self).horizontal_scroll_bar.bar_of().viewport_of(),
                old(self).horizontal_scroll_bar.bar_of().full_of(),
                Rect { x: rect_position(horizontal.0), width: rect_size(horizontal.1), ..old(self).horizontal_scroll_bar.bar_of().rect_of() },
            ),
            final(self).root_path == old(self).root_path,
            final(self).directory_view == old(self).directory_view,
            final(self).dest == old(self).dest,
            final(self).full_dest == old(self).full_dest,
            final(self).background_color == old(self).background_color,
            final(self).border_color == old(self).border_color,
    {
        self.vertical_scroll_bar.update_rect(vertical.0, vertical.1);
        self.horizontal_scroll_bar.update_rect(horizontal.0, horizontal.1);
    }
}

/// The settings window's area: the editor's window less a margin of 16 at
/// the sides and 24 at the top and bottom.
pub open spec fn settings_dest(config: Config) -> Rect {
    new_rect(
        CONTENT_MARGIN_LEFT,
        CONTENT_MARGIN_TOP,
        (config.width - 2 * CONTENT_MARGIN_LEFT) as u32,
        (config.height - 2 * CONTENT_MARGIN_TOP) as u32,
    )
}

/// The editor's window leaves room for the settings' margins.
pub open spec fn settings_fit(config: Config) -> bool {
    2 * CONTENT_MARGIN_LEFT <= config.width && 2 * CONTENT_MARGIN_TOP <= config.height
}

/// The window that shows the settings: the font's path and the character
/// size, each under its name.
pub struct Settings {
    pub vertical_scroll_bar: VerticalScrollBar,
    pub horizontal_scroll_bar: HorizontalScrollBar,
    pub dest: Rect,
    pub full_dest: Rect,
    pub background_color: SerdeColor,
    pub border_color: SerdeColor,
    pub font_label: Label,
    pub font_value: Label,
    pub character_size_label: Label,
    pub character_size_value: Label,
}

impl Settings {
    /// How far the settings are scrolled (see `scroll_point`).
    pub open spec fn scroll_spec(&self) -> Point {
        scroll_point(self.horizontal_scroll_bar.bar_of(), self.vertical_scroll_bar.bar_of())
    }

    /// The window over the editor's window (see `settings_dest`), in the
    /// theme's colours, with the font's path and the character size.
    pub fn new(config: &Config) -> (r: Self)
        requires
            settings_fit(*config),
        ensures
            r.dest == settings_dest(*config),
            r.full_dest == (Rect { x: 0, y: 0, width: DEFAULT_ICON_SIZE, height: DEFAULT_ICON_SIZE }),
            r.background_color == config.theme.background,
            r.border_color == config.theme.border_color,
            r.font_label.name@ == "Font path"@,
            r.font_value.name@ == config.editor_config.font_path@,
            r.character_size_label.name@ == "Character size"@,
            r.character_size_value.name@ == decimal(config.editor_config.character_size as nat),
            r.vertical_scroll_bar.bar_of().is(0, 1, 1, new_rect(0, 0, config.scroll.width, 0)),
            r.horizontal_scroll_bar.bar_of().is(0, 1, 1, new_rect(0, 0, config.scroll.width, 0)),
    {
        Settings {
            vertical_scroll_bar: VerticalScrollBar::new(config),
            horizontal_scroll_bar: HorizontalScrollBar::new(config),
            dest: Rect::new(
                CONTENT_MARGIN_LEFT,
                CONTENT_MARGIN_TOP,
                config.width - (CONTENT_MARGIN_LEFT * 2) as u32,
                config.height - (CONTENT_MARGIN_TOP * 2) as u32,
            ),
            full_dest: Rect::new(0, 0, DEFAULT_ICON_SIZE, DEFAULT_ICON_SIZE),
            background_color: config.theme.background,
            border_color: config.theme.border_color,
            font_label: Label::new("Font path".to_owned()),
            font_value: Label::new(config.editor_config.font_path.clone()),
            character_size_label: Label::new("Character size".to_owned()),
            character_size_value: Label::new(decimal_text(config.editor_config.character_size as u32)),
        }
    }

    /// The settings are drawn from no texture.
    pub fn texture_path(&self) -> (r: Option<String>)
        ensures
            r is None,
    {
        None
    }

    pub fn dest(&self) -> (r: &Rect)
        ensures
            *r == self.dest,
    {
        &self.dest
    }

    /// The area follows the window only: setting it changes nothing.
    pub fn set_dest(&mut self, _rect: &Rect)
        ensures
            *final(self) == *old(self),
    {
    }

    pub fn source(&self) -> (r: &Rect)
        ensures
            *r == self.dest,
    {
        &self.dest
    }

    /// The source is the area: setting it changes nothing.
    pub fn set_source(&mut self, _rect: &Rect)
        ensures
            *final(self) == *old(self),
    {
    }

    pub fn full_rect(&self) -> (r: &Rect)
        ensures
            *r == self.full_dest,
    {
        &self.full_dest
    }

    /// Follows the window (see `settings_dest`), takes the theme's
    /// background, and fits the scroll bars to its area and its content.
    pub fn update(&mut self, config: &Config, _context: &UpdateContext) -> (r: UpdateResult)
        requires
            settings_fit(*config),
            bars_fit(settings_dest(*config), config.scroll),
        ensures
            r == UpdateResult::NoOp,
            final(self).dest == settings_dest(*config),
            final(self).background_color == config.theme.background,
            fitted_vertical(
                old(self).vertical_scroll_bar.bar_of(),
                final(self).vertical_scroll_bar.bar_of(),
                final(self).dest,
                old(self).full_dest,
                config.scroll,
            ),
            fitted_horizontal(
                old(self).horizontal_scroll_bar.bar_of(),
                final(self).horizontal_scroll_bar.bar_of(),
                final(self).dest,
                old(self).full_dest,
                config.scroll,
            ),
            final(self).full_dest == old(self).full_dest,
            final(self).border_color == old(self).border_color,
            final(self).font_label == old(self).font_label,
            final(self).font_value == old(self).font_value,
            final(self).character_size_label == old(self).character_size_label,
            final(self).character_size_value == old(self).character_size_value,
    {
        self.dest = Rect::new(
            CONTENT_MARGIN_LEFT,
            CONTENT_MARGIN_TOP,
            config.width - (CONTENT_MARGIN_LEFT * 2) as u32,
            config.height - (CONTENT_MARGIN_TOP * 2) as u32,
        );
        self.background_color = config.theme.background;
        fit_bars(&mut self.vertical_scroll_bar, &mut self.horizontal_scroll_bar, self.dest, self.full_dest, config.scroll());
        UpdateResult::NoOp
    }

    /// Clicks on the settings ask for nothing.
    pub fn on_left_click(&mut self, _point: &Point, _context: &UpdateContext) -> (r: UpdateResult)
        ensures
            r == UpdateResult::NoOp,
            *final(self) == *old(self),
    {
        UpdateResult::NoOp
    }

    /// No click concerns the settings.
    pub fn is_left_click_target(&self, _point: &Point, _context: &UpdateContext) -> (r: bool)
        ensures
            !r,
    {
        false
    }

    /// The settings draw without clipping.
    pub fn use_clipping(&self) -> (r: bool)
        ensures
            !r,
    {
        false
    }

    /// Lays the four labels out.
    pub fn prepare_ui<S: CharacterSizeManager>(&mut self, sizes: &mut S)
        ensures
            label_prepared(old(self).font_label, final(self).font_label),
            label_prepared(old(self).font_value, final(self).font_value),
            label_prepared(old(self).character_size_label, final(self).character_size_label),
            label_prepared(old(self).character_size_value, final(self).character_size_value),
            final(self).background_color == old(self).background_color,
            final(self).border_color == old(self).border_color,
            final(self).dest == old(self).dest,
            final(self).full_dest == old(self).full_dest,
            final(self).vertical_scroll_bar == old(self).vertical_scroll_bar,
            final(self).horizontal_scroll_bar == old(self).horizontal_scroll_bar,
    {
        self.font_label.prepare_ui(sizes);
        self.font_value.prepare_ui(sizes);
        self.character_size_label.prepare_ui(sizes);
        self.character_size_value.prepare_ui(sizes);
    }

    /// Scrolls the settings by `x` and `y` wheel steps (see
    /// `stepped_value`).
    pub fn scroll_by(&mut self, x: i32, y: i32, config: &Config)
        requires
            step_fits(old(self).horizontal_scroll_bar.bar_of().value_of(), config.scroll.speed, x),
            step_fits(old(self).vertical_scroll_bar.bar_of().value_of(), config.scroll.speed, y),
        ensures
            final(self).horizontal_scroll_bar.bar_of().is(
                stepped_value(
                    old(self).horizontal_scroll_bar.bar_of().value_of(),
                    old(self).horizontal_scroll_bar.bar_of().viewport_of(),
                    old(self).horizontal_scroll_bar.bar_of().full_of(),
                    config.scroll.speed,
                    x,
                ),
                old(self).horizontal_scroll_bar.bar_of().viewport_of(),
                old(self).horizontal_scroll_bar.bar_of().full_of(),
                old(self).horizontal_scroll_bar.bar_of().rect_of(),
            ),
            final(self).vertical_scroll_bar.bar_of().is(
                stepped_value(
                    old(self).vertical_scroll_bar.bar_of().value_of(),
                    old(self).vertical_scroll_bar.bar_of().viewport_of(),
                    old(self).vertical_scroll_bar.bar_of().full_of(),
                    config.scroll.speed,
                    y,
                ),
                old(self).vertical_scroll_bar.bar_of().viewport_of(),
                old(self).vertical_scroll_bar.bar_of().full_of(),
                old(self).vertical_scroll_bar.bar_of().rect_of(),
            ),
            final(self).dest == old(self).dest,
            final(self).full_dest == old(self).full_dest,
    {
        let speed = config.scroll().speed();
        self.horizontal_scroll_bar.step(speed, x);
        self.vertical_scroll_bar.step(speed, y);
    }

    /// How far the settings are scrolled (see `scroll_point`).
    pub fn scroll(&self) -> (r: Point)
        requires
            self.horizontal_scroll_bar.bar_of().value_of() > i32::MIN,
            self.vertical_scroll_bar.bar_of().value_of() > i32::MIN,
        ensures
            r == self.scroll_spec(),
    {
        scroll_of(&self.horizontal_scroll_bar, &self.vertical_scroll_bar)
    }

    pub fn vertical_scroll_handler(&self) -> (r: Option<&VerticalScrollBar>)
        ensures
            r == Some(&self.vertical_scroll_bar),
    {
        Some(&self.vertical_scroll_bar)
    }

    pub fn horizontal_scroll_handler(&self) -> (r: Option<&HorizontalScrollBar>)
        ensures
            r == Some(&self.horizontal_scroll_bar),
    {
        Some(&self.horizontal_scroll_bar)
    }

    pub fn mut_vertical_scroll_handler(&mut self) -> (r: &mut VerticalScrollBar)
        ensures
            *r == old(self).vertical_scroll_bar,
            *final(self) == (Settings { vertical_scroll_bar: *final(r), ..*old(self) }),
    {
        &mut self.vertical_scroll_bar
    }

    pub fn mut_horizontal_scroll_handler(&mut self) -> (r: &mut HorizontalScrollBar)
        ensures
            *r == old(self).horizontal_scroll_bar,
            *final(self) == (Settings { horizontal_scroll_bar: *final(r), ..*old(self) }),
    {
        &mut self.horizontal_scroll_bar
    }

    /// Appends what the settings draw (see `settings_commands`).
    pub fn render(&self, context: &RenderContext, out: &mut Vec<DrawCommand>)
        requires
            self.horizontal_scroll_bar.bar_of().value_of() > i32::MIN,
            self.vertical_scroll_bar.bar_of().value_of() > i32::MIN,
        ensures
            views(final(out)@) == views(old(out)@) + settings_commands(*self, *context),
    {
        let ghost start = views(out@);
        let dest = place_for_render(&self.dest, context);
        push_command(out, DrawCommand::Clip(dest));
        push_command(out, DrawCommand::Fill { rect: dest, color: self.background_color });
        push_command(out, DrawCommand::Border { rect: dest, color: self.border_color });
        let s = self.scroll();
        let h = self.font_label.dest.height as i32;
        let corner = self.dest.top_left();
        let first = corner.offset(CONTENT_MARGIN_LEFT, CONTENT_MARGIN_TOP).offset(s.x, s.y);
        let first_value = corner.offset(CONTENT_MARGIN_LEFT + LABEL_WIDTH, CONTENT_MARGIN_TOP).offset(s.x, s.y);
        let second = Point::new(
            crate::geometry::add_clamped(crate::geometry::add_clamped(corner.x, CONTENT_MARGIN_LEFT as i64), s.x as i64),
            crate::geometry::add_clamped(crate::geometry::add_clamped(corner.y, CONTENT_MARGIN_TOP as i64 + h as i64), s.y as i64),
        );
        let second_value = Point::new(
            crate::geometry::add_clamped(
                crate::geometry::add_clamped(corner.x, CONTENT_MARGIN_LEFT as i64 + LABEL_WIDTH as i64),
                s.x as i64,
            ),
            crate::geometry::add_clamped(crate::geometry::add_clamped(corner.y, CONTENT_MARGIN_TOP as i64 + h as i64), s.y as i64),
        );
        self.font_label.render(&RenderContext::ParentPosition(first), out);
        self.font_value.render(&RenderContext::ParentPosition(first_value), out);
        self.character_size_label.render(&RenderContext::ParentPosition(second), out);
        self.character_size_value.render(&RenderContext::ParentPosition(second_value), out);
        let bars = RenderContext::ParentPosition(corner);
        self.vertical_scroll_bar.bar().render(&bars, out);
        self.horizontal_scroll_bar.bar().render(&bars, out);
        proof {
            assert(views(out@) =~= start + settings_commands(*self, *context));
        }
    }

    /// Sizes the scroll bars' handles (see `OpenFile::size_scroll_handles`).
    pub fn size_scroll_handles(&mut self, vertical: (i32, u32), horizontal: (i32, u32))
        ensures
            final(self).vertical_scroll_bar.bar_of().is(
                old(self).vertical_scroll_bar.bar_of().value_of(),
                old(self).vertical_scroll_bar.bar_of().viewport_of(),
                old(self).vertical_scroll_bar.bar_of().full_of(),
                Rect { y: rect_position(vertical.0), height: rect_size(vertical.1), ..old(self).vertical_scroll_bar.bar_of().rect_of() },
            ),
            final(self).horizontal_scroll_bar.bar_of().is(
                old(self).horizontal_scroll_bar.bar_of().value_of(),
                old(self).horizontal_scroll_bar.bar_of().viewport_of(),
                old(self).horizontal_scroll_bar.bar_of().full_of(),
                Rect { x: rect_position(horizontal.0), width: rect_size(horizontal.1), ..old(self).horizontal_scroll_bar.bar_of().rect_of() },
            ),
            final(self).dest == old(self).dest,
            final(self).full_dest == old(self).full_dest,
            final(self).background_color == old(self).background_color,
            final(self).border_color == old(self).border_color,
            final(self).font_label == old(self).font_label,
            final(self).font_value == old(self).font_value,
            final(self).character_size_label == old(self).character_size_label,
            final(self).character_size_value == old(self).character_size_value,
    {
        self.vertical_scroll_bar.update_rect(vertical.0, vertical.1);
        self.horizontal_scroll_bar.update_rect(horizontal.0, horizontal.1);
    }
}

/// The window drawn over the editor, if any.
pub enum ModalType {
    OpenFile(OpenFile),
    Settings(Settings),
}

/// Two windows are alike when they are of the same kind.
impl PartialEq for ModalType {
    fn eq(&self, other: &ModalType) -> (r: bool) {
        match (self, other) {
            (ModalType::OpenFile(_), ModalType::OpenFile(_)) => true,
            (ModalType::Settings(_), ModalType::Settings(_)) => true,
            _ => false,
        }
    }
}

impl PartialEqSpecImpl for ModalType {
    open spec fn obeys_eq_spec() -> bool {
        true
    }

    open spec fn eq_spec(&self, other: &ModalType) -> bool {
        (*self is OpenFile && *other is OpenFile) || (*self is Settings && *other is Settings)
    }
}

} // verus!
