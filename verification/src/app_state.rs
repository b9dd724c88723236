//! The state of the whole window: the menu bar, the project tree, the
//! editor with the files opened before, and the window drawn over them, if
//! any; where clicks, scrolling and updates go.

use vstd::prelude::*;
use crate::config::settings::Config;
use crate::editor::file::{language_for, path_extension, EditorFile};
use crate::editor::file_editor::{
    after_task, click_fits, click_target, clicked, is_editor_task, task_allowed, updated_dest, FileEditor,
};
use crate::editor::text_character::CharacterSizeManager;
use crate::events::UpdateResult;
use crate::geometry::{clamp_i32, new_rect, rect_position, rect_size, Point};
use crate::text::byte_len;
use crate::ui::buttons::hits;
use crate::ui::menu_bar::{menu_click, MenuBar};
use crate::ui::modal::{centred, padded, settings_dest, settings_fit, ModalType, OpenFile, Settings};
use crate::ui::scroll_bar::{bars_fit, bars_fit_of, step_fits, step_fits_of, stepped, ScrollBar};
use crate::ui::tree::{
    dir_opened, dir_prepared, dirs_dest, file_name_of, DirectoryView, dir_click, path_file_name, sidebar_click, sidebar_target, tree_origin, FileSystem, ProjectTreeSidebar,
};
use crate::ui::{placed_spec, RenderContext, UpdateContext};
use crate::ui::draw::{views, DrawCommand, DrawSpec};
use crate::editor::file_editor::editor_commands;
use crate::ui::menu_bar::menu_bar_commands;
use crate::ui::modal::{open_file_commands, settings_commands};
use crate::ui::tree::sidebar_commands;

verus! {

/// Something that fits itself to the window's size.
pub trait Resize {
    fn resize_element(&mut self);
}

/// What a click asks of text input: to leave it as it is, to start it (a
/// click in the editor) or to stop it (a click on the menu bar).
#[derive(Clone, Copy, Debug, PartialEq, Eq, Structural)]
pub enum TextInput {
    Keep,
    Start,
    Stop,
}

/// The part of the window a click goes to.
#[derive(Clone, Copy, Debug, PartialEq, Eq, Structural)]
pub enum ClickRoute {
    ProjectTree,
    Modal,
    MenuBar,
    Editor,
    Nowhere,
}

/// What the window has to do after a task besides what the state does: go
/// on, stop, read a file and open it, save the open file, or open the
/// open-file window on the working directory.
#[derive(Clone, Debug, PartialEq)]
pub enum Effect {
    Nothing,
    Stop,
    ReadFile(String),
    SaveFile,
    OpenFileModal,
}

/// The outcome of a task: the effect, the task to carry out in the next
/// round, if any, and what it asks of text input.
#[derive(Clone, Debug, PartialEq)]
pub struct TaskOutcome {
    pub effect: Effect,
    pub follow_up: Option<UpdateResult>,
    pub text_input: TextInput,
}

/// A task that only has an effect.
pub open spec fn only(effect: Effect) -> TaskOutcome {
    TaskOutcome { effect, follow_up: None, text_input: TextInput::Keep }
}

/// What a click asks for that is carried out in the next round: opening a
/// directory or a file.
pub open spec fn follow_up_of(res: UpdateResult) -> Option<UpdateResult> {
    match res {
        UpdateResult::OpenDirectory(_) | UpdateResult::OpenFile(_) => Some(res),
        _ => None,
    }
}

/// The tasks that change nothing: the ones the window leaves aside and the
/// resize, which changes the settings only.
pub open spec fn passive(task: UpdateResult) -> bool {
    match task {
        UpdateResult::NoOp | UpdateResult::RefreshPositions | UpdateResult::MouseDragStart(_)
        | UpdateResult::MouseDragStop(_) | UpdateResult::MoveCaret(_, _) | UpdateResult::WindowResize { .. }
        | UpdateResult::FileDropped(_) | UpdateResult::RefreshFsTree => true,
        _ => false,
    }
}

/// Nothing of the window changed.
pub open spec fn unchanged(before: AppState, after: AppState) -> bool {
    &&& after.editor_of() == before.editor_of()
    &&& after.files_of() == before.files_of()
    &&& after.modal_of() == before.modal_of()
    &&& after.same_frame(before)
}

/// The window after a click at `point` that asks to open a file: as after
/// the click (see `after_click`), with the window over the editor closed.
pub open spec fn after_click_closing(before: AppState, after: AppState, point: Point) -> bool {
    exists|mid: AppState|
        #![trigger after_click(before, mid, point)]
        after_click(before, mid, point) && after.modal_of() is None && after.editor_of() == mid.editor_of()
            && after.files_of() == mid.files_of() && after.same_frame(mid)
}

/// `task` can be carried out: the project tree's refresh is not one the
/// window handles; a click into the editor fits its lines; a wheel step
/// negates and stays in range; the settings fit in the window; an editing
/// task fits the text (see `task_allowed`).
pub open spec fn task_fits(s: AppState, task: UpdateResult, config: Config) -> bool {
    match task {
        UpdateResult::RefreshFsTree => false,
        UpdateResult::MouseLeftClicked(p) => click_route(s, p) == ClickRoute::Editor ==> click_fits(s.editor_of(), p),
        UpdateResult::Scroll { x, y } => x > i32::MIN && y > i32::MIN && scroll_fits(s, config.scroll.speed, -x as i32, -y as i32),
        UpdateResult::OpenSettings => settings_fit(config),
        _ => task_allowed(s.editor_of(), task),
    }
}

pub struct AppState {
    menu_bar: MenuBar,
    project_tree: ProjectTreeSidebar,
    files: Vec<EditorFile>,
    file_editor: FileEditor,
    modal: Option<ModalType>,
}

/// Where a click at `point` goes: to the project tree when it concerns the
/// tree; else to the window drawn over the editor, if there is one; else to
/// the menu bar when it falls on it; else to the editor when it concerns
/// the editor; else nowhere.
pub open spec fn click_route(s: AppState, point: Point) -> ClickRoute {
    if sidebar_target(s.tree_of(), point, UpdateContext::Nothing) {
        ClickRoute::ProjectTree
    } else if s.modal_of() is Some {
        ClickRoute::Modal
    } else if hits(s.menu_of().dest_spec(), point, UpdateContext::Nothing) {
        ClickRoute::MenuBar
    } else if click_target(s.editor_of(), point) {
        ClickRoute::Editor
    } else {
        ClickRoute::Nowhere
    }
}

/// What a click at `point` asks for, and what it asks of text input (see
/// `click_route`): what the project tree or the open-file window asks for,
/// leaving text input; what the menu bar asks for, stopping it; nothing,
/// starting it, in the editor; nothing elsewhere.
pub open spec fn click_result(s: AppState, point: Point) -> (UpdateResult, TextInput) {
    match click_route(s, point) {
        ClickRoute::ProjectTree => (sidebar_click(s.tree_of(), point, UpdateContext::Nothing), TextInput::Keep),
        ClickRoute::Modal => match s.modal_of() {
            Some(ModalType::OpenFile(m)) => (
                dir_click(m.directory_view, point, tree_origin(placed_spec(m.dest, UpdateContext::Nothing), m.scroll_spec())),
                TextInput::Keep,
            ),
            _ => (UpdateResult::NoOp, TextInput::Keep),
        },
        ClickRoute::MenuBar => (menu_click(s.menu_of(), point, UpdateContext::Nothing), TextInput::Stop),
        ClickRoute::Editor => (UpdateResult::NoOp, TextInput::Start),
        ClickRoute::Nowhere => (UpdateResult::NoOp, TextInput::Keep),
    }
}

/// The window after a click at `point`: only the part clicked changes; the
/// editor's caret moves (see `clicked`); the trees keep their content.
pub open spec fn after_click(before: AppState, after: AppState, point: Point) -> bool {
    &&& after.files_of() == before.files_of()
    &&& after.menu_of().dest_spec() == before.menu_of().dest_spec()
    &&& match click_route(before, point) {
        ClickRoute::ProjectTree => {
            &&& after.editor_of() == before.editor_of()
            &&& after.modal_of() == before.modal_of()
            &&& after.tree_of().dir_view == before.tree_of().dir_view
            &&& after.tree_of().dest == before.tree_of().dest
        },
        ClickRoute::Modal => {
            &&& after.editor_of() == before.editor_of()
            &&& after.tree_of() == before.tree_of()
            &&& match before.modal_of() {
                Some(ModalType::OpenFile(m)) => after.modal_of() matches Some(ModalType::OpenFile(n))
                    && n.directory_view == m.directory_view && n.dest == m.dest,
                _ => after.modal_of() == before.modal_of(),
            }
        },
        ClickRoute::Editor => {
            &&& clicked(before.editor_of(), after.editor_of(), point)
            &&& after.tree_of() == before.tree_of()
            &&& after.modal_of() == before.modal_of()
        },
        _ => {
            &&& after.editor_of() == before.editor_of()
            &&& after.tree_of() == before.tree_of()
            &&& after.modal_of() == before.modal_of()
        },
    }
}

/// The window after `x` and `y` wheel steps at `speed`: the window over the
/// editor scrolls, or, when there is none, the editor (see `stepped`).
pub open spec fn after_scroll(before: AppState, after: AppState, speed: i32, x: i32, y: i32) -> bool {
    &&& after.files_of() == before.files_of()
    &&& after.same_frame(before)
    &&& match before.modal_of() {
        Some(ModalType::OpenFile(m)) => {
            &&& after.editor_of() == before.editor_of()
            &&& after.modal_of() matches Some(ModalType::OpenFile(n)) && {
                &&& stepped(m.horizontal_scroll_bar.bar_of(), n.horizontal_scroll_bar.bar_of(), speed, x)
                &&& stepped(m.vertical_scroll_bar.bar_of(), n.vertical_scroll_bar.bar_of(), speed, y)
                &&& n.directory_view == m.directory_view
                &&& n.dest == m.dest
            }
        },
        Some(ModalType::Settings(m)) => {
            &&& after.editor_of() == before.editor_of()
            &&& after.modal_of() matches Some(ModalType::Settings(n)) && {
                &&& stepped(m.horizontal_scroll_bar.bar_of(), n.horizontal_scroll_bar.bar_of(), speed, x)
                &&& stepped(m.vertical_scroll_bar.bar_of(), n.vertical_scroll_bar.bar_of(), speed, y)
                &&& n.dest == m.dest
            }
        },
        None => {
            let (b, a) = (before.editor_of(), after.editor_of());
            &&& after.modal_of() is None
            &&& stepped(b.hbar_of(), a.hbar_of(), speed, x)
            &&& stepped(b.vbar_of(), a.vbar_of(), speed, y)
            &&& a.file_of() == b.file_of()
            &&& a.caret_of() == b.caret_of()
            &&& a.dest_of() == b.dest_of()
        },
    }
}

/// The window after a directory is opened: in the open-file window's tree
/// when that window is open, in the project tree when none is, nowhere
/// while the settings are open; the trees keep their roots.
pub open spec fn after_open_directory(before: AppState, after: AppState, dir_path: Seq<char>) -> bool {
    &&& after.editor_of() == before.editor_of()
    &&& after.files_of() == before.files_of()
    &&& after.menu_of() == before.menu_of()
    &&& match before.modal_of() {
        Some(ModalType::OpenFile(m)) => {
            &&& after.tree_of() == before.tree_of()
            &&& after.modal_of() matches Some(ModalType::OpenFile(n)) && n.root_path == m.root_path
                && dir_opened(m.directory_view, n.directory_view, dir_path) && n.dest == m.dest
                && n.full_dest == padded(dirs_dest(n.directory_view))
                && n.vertical_scroll_bar == m.vertical_scroll_bar
                && n.horizontal_scroll_bar == m.horizontal_scroll_bar
        },
        None => {
            &&& after.modal_of() is None
            &&& after.tree_of().root == before.tree_of().root
            &&& dir_opened(before.tree_of().dir_view, after.tree_of().dir_view, dir_path)
            &&& after.tree_of().dest == before.tree_of().dest
            &&& after.tree_of().vertical_scroll_bar == before.tree_of().vertical_scroll_bar
            &&& after.tree_of().horizontal_scroll_bar == before.tree_of().horizontal_scroll_bar
        },
        Some(ModalType::Settings(_)) => after.modal_of() == before.modal_of() && after.tree_of() == before.tree_of(),
    }
}

/// A handle placed `pos` along its bar and `size` long: where the vertical
/// bar's handle stands and how high it is, and likewise across for the
/// horizontal one.
pub open spec fn handles_placed(
    vbefore: ScrollBar,
    vafter: ScrollBar,
    hbefore: ScrollBar,
    hafter: ScrollBar,
    vertical: (i32, u32),
    horizontal: (i32, u32),
) -> bool {
    &&& vafter.is(
        vbefore.value_of(),
        vbefore.viewport_of(),
        vbefore.full_of(),
        crate::geometry::Rect { y: rect_position(vertical.0), height: rect_size(vertical.1), ..vbefore.rect_of() },
    )
    &&& hafter.is(
        hbefore.value_of(),
        hbefore.viewport_of(),
        hbefore.full_of(),
        crate::geometry::Rect { x: rect_position(horizontal.0), width: rect_size(horizontal.1), ..hbefore.rect_of() },
    )
}

/// The window over the editor after its scroll handles are sized: the same
/// window, its handles placed as `handles_placed` says, nothing else
/// changed; no window stays none.
pub open spec fn modal_handles_sized(
    before: Option<ModalType>,
    after: Option<ModalType>,
    vertical: (i32, u32),
    horizontal: (i32, u32),
) -> bool {
    match before {
        Some(ModalType::OpenFile(m)) => after matches Some(ModalType::OpenFile(n)) && handles_placed(
            m.vertical_scroll_bar.bar_of(),
            n.vertical_scroll_bar.bar_of(),
            m.horizontal_scroll_bar.bar_of(),
            n.horizontal_scroll_bar.bar_of(),
            vertical,
            horizontal,
        ) && n.root_path == m.root_path && n.directory_view == m.directory_view && n.dest == m.dest
            && n.full_dest == m.full_dest && n.background_color == m.background_color
            && n.border_color == m.border_color,
        Some(ModalType::Settings(m)) => after matches Some(ModalType::Settings(n)) && handles_placed(
            m.vertical_scroll_bar.bar_of(),
            n.vertical_scroll_bar.bar_of(),
            m.horizontal_scroll_bar.bar_of(),
            n.horizontal_scroll_bar.bar_of(),
            vertical,
            horizontal,
        ) && n.dest == m.dest && n.full_dest == m.full_dest && n.background_color == m.background_color
            && n.border_color == m.border_color && n.font_label == m.font_label && n.font_value == m.font_value
            && n.character_size_label == m.character_size_label
            && n.character_size_value == m.character_size_value,
        None => after is None,
    }
}

/// The window after the settings are asked for: they open, laid out over
/// the window, unless a window is open there already.
pub open spec fn after_open_settings(before: AppState, after: AppState, config: Config) -> bool {
    &&& after.editor_of() == before.editor_of()
    &&& after.files_of() == before.files_of()
    &&& after.same_frame(before)
    &&& match before.modal_of() {
        None => after.modal_of() matches Some(ModalType::Settings(m)) && {
            &&& m.dest == settings_dest(config)
            &&& m.font_value.name@ == config.editor_config.font_path@
        },
        Some(_) => after.modal_of() == before.modal_of(),
    }
}

/// The path and the text of the file in the editor, which saving writes.
pub open spec fn to_save(s: AppState) -> Option<(Seq<char>, Seq<char>)> {
    match s.editor_of().file_of() {
        Some(f) => Some((f.path_view(), f.text())),
        None => None,
    }
}

/// The editor holds a file with `path` and `text`.
pub open spec fn opened_with(s: AppState, path: Seq<char>, text: Seq<char>) -> bool {
    s.editor_of().file_of() matches Some(f) && f.path_view() == path && f.text() == text
}

/// What is saved is what was opened: once a file is opened with its text,
/// saving writes that text to that path.
pub proof fn law_save_gives_back_opened(s: AppState, path: Seq<char>, text: Seq<char>)
    requires
        opened_with(s, path, text),
    ensures
        to_save(s) == Some((path, text)),
{
}

/// What the window draws, in order: the editor, the menu bar, the project
/// tree, and the window over them, if any.
pub open spec fn app_commands(s: AppState, config: Config) -> Seq<DrawSpec> {
    editor_commands(s.editor_of()) + menu_bar_commands(s.menu_of(), config, RenderContext::Nothing) + sidebar_commands(
        s.tree_of(),
    ) + match s.modal_of() {
        Some(ModalType::OpenFile(m)) => open_file_commands(m, RenderContext::Nothing),
        Some(ModalType::Settings(m)) => settings_commands(m, RenderContext::Nothing),
        None => Seq::empty(),
    }
}

/// Where the editor starts: 10 right of the project tree's top-right corner.
pub open spec fn editor_origin(t: ProjectTreeSidebar) -> Point {
    Point { x: clamp_i32(clamp_i32(t.dest.x + t.dest.width) + 10), y: t.dest.y }
}

/// An update in `config` stays in range: the menu and the editor's margins
/// fit in the window, the editor starts inside it, and the scroll bars of
/// the editor and of the window drawn over it can be placed.
pub open spec fn update_fits(s: AppState, config: Config) -> bool {
    let p = editor_origin(s.tree_of());
    &&& config.menu_height + config.editor_config.margin_top <= config.height
    &&& 0 <= p.x <= config.width
    &&& bars_fit(updated_dest(s.editor_of().dest_of(), config, UpdateContext::ParentPosition(p)), config.scroll)
    &&& match s.modal_of() {
        Some(ModalType::OpenFile(m)) => bars_fit(centred(config.width, config.height, m.dest.width, m.dest.height), config.scroll),
        Some(ModalType::Settings(_)) => settings_fit(config) && bars_fit(settings_dest(config), config.scroll),
        None => true,
    }
}

/// A wheel step of `x` and `y` at `speed` stays in range for what it
/// scrolls: the window drawn over the editor, or else the editor.
pub open spec fn scroll_fits(s: AppState, speed: i32, x: i32, y: i32) -> bool {
    match s.modal_of() {
        Some(ModalType::OpenFile(m)) => step_fits(m.horizontal_scroll_bar.bar_of().value_of(), speed, x) && step_fits(
            m.vertical_scroll_bar.bar_of().value_of(),
            speed,
            y,
        ),
        Some(ModalType::Settings(m)) => step_fits(m.horizontal_scroll_bar.bar_of().value_of(), speed, x) && step_fits(
            m.vertical_scroll_bar.bar_of().value_of(),
            speed,
            y,
        ),
        None => step_fits(s.editor_of().hbar_of().value_of(), speed, x) && step_fits(
            s.editor_of().vbar_of().value_of(),
            speed,
            y,
        ),
    }
}

impl AppState {
    pub closed spec fn menu_of(&self) -> MenuBar {
        self.menu_bar
    }

    pub closed spec fn tree_of(&self) -> ProjectTreeSidebar {
        self.project_tree
    }

    pub closed spec fn files_of(&self) -> Seq<EditorFile> {
        self.files@
    }

    pub closed spec fn editor_of(&self) -> FileEditor {
        self.file_editor
    }

    pub closed spec fn modal_of(&self) -> Option<ModalType> {
        self.modal
    }

    /// The editor is well formed, and no scroll bar stands at the lowest
    /// `i32`.
    pub open spec fn wf(&self) -> bool {
        &&& self.editor_of().wf()
        &&& self.tree_of().scroll_ok()
        &&& match self.modal_of() {
            Some(ModalType::OpenFile(m)) => m.scroll_ok(),
            Some(ModalType::Settings(m)) => m.horizontal_scroll_bar.bar_of().value_of() > i32::MIN
                && m.vertical_scroll_bar.bar_of().value_of() > i32::MIN,
            None => true,
        }
    }

    /// The parts other than the editor, the files and the modal window are
    /// as in `other`.
    pub open spec fn same_frame(&self, other: AppState) -> bool {
        &&& self.menu_of() == other.menu_of()
        &&& self.tree_of() == other.tree_of()
    }

    /// The menu bar, the project tree on `root`, an empty editor, no files
    /// opened before and no window over the editor.
    pub fn new(config: &Config, root: String) -> (r: Self)
        requires
            path_file_name(root@) is Some,
            config.editor_config.margin_left <= config.width,
            config.menu_height + config.editor_config.margin_top <= config.height,
        ensures
            r.wf(),
            r.files_of().len() == 0,
            r.modal_of() is None,
            r.editor_of().file_of() is None,
            r.tree_of().root@ == root@,
            r.menu_of().dest_spec() == new_rect(0, 0, config.width, config.menu_height as u32),
    {
        AppState {
            menu_bar: MenuBar::new(config),
            project_tree: ProjectTreeSidebar::new(root, config),
            files: Vec::new(),
            file_editor: FileEditor::new(config),
            modal: None,
        }
    }

    /// The state on `root` (see `new`), or nothing when the path has no
    /// last component to name the project tree by.
    pub fn try_new(config: &Config, root: String) -> (r: Option<Self>)
        requires
            config.editor_config.margin_left <= config.width,
            config.menu_height + config.editor_config.margin_top <= config.height,
        ensures
            r is Some <==> path_file_name(root@) is Some,
            r matches Some(s) ==> {
                &&& s.wf()
                &&& s.files_of().len() == 0
                &&& s.modal_of() is None
                &&& s.editor_of().file_of() is None
                &&& s.tree_of().root@ == root@
                &&& s.menu_of().dest_spec() == new_rect(0, 0, config.width, config.menu_height as u32)
            },
    {
        match file_name_of(root.as_str()) {
            Some(_) => Some(AppState::new(config, root)),
            None => None,
        }
    }

    /// Opens the text `buffer` read from `file_path` in the editor, laid
    /// out; the file open before joins the files opened before.
    pub fn open_file<S: CharacterSizeManager>(&mut self, file_path: String, buffer: String, sizes: &mut S, config: &Config)
        requires
            old(self).wf(),
            config.wf(),
            byte_len(buffer@) <= usize::MAX,
        ensures
            final(self).wf(),
            opened_with(*final(self), file_path@, buffer@),
            final(self).editor_of().file_of() matches Some(f) && {
                &&& f.prepared()
                &&& f.language_spec() == language_for(path_extension(file_path@), config.extensions_mapping.as_map())
            },
            final(self).files_of() == match old(self).editor_of().file_of() {
                Some(o) => old(self).files_of().push(o),
                None => old(self).files_of(),
            },
            final(self).editor_of().caret_of() == old(self).editor_of().caret_of(),
            final(self).editor_of().dest_of() == old(self).editor_of().dest_of(),
            final(self).modal_of() == old(self).modal_of(),
            final(self).same_frame(*old(self)),
    {
        let mut file = EditorFile::new(file_path, buffer, config);
        file.prepare_ui(sizes, &config.theme.code_highlighting);
        match self.file_editor.open_file(file) {
            Some(before) => {
                self.files.push(before);
            },
            None => {},
        }
    }

    /// The path and the text of the file to save, or the error that no file
    /// is open.
    pub fn file_to_save(&self) -> (r: Result<(String, String), String>)
        requires
            self.wf(),
        ensures
            match to_save(*self) {
                Some((path, text)) => r matches Ok((p, b)) && p@ == path && b@ == text,
                None => r matches Err(e) && e@ == "No buffer found"@,
            },
    {
        match self.file_editor.file() {
            Some(f) => Ok((f.path(), f.buffer())),
            None => Err("No buffer found".to_owned()),
        }
    }

    /// Opens the settings over the editor, laid out, unless a window is
    /// open there already.
    pub fn open_settings<S: CharacterSizeManager>(&mut self, sizes: &mut S, config: &Config) -> (r: Result<(), String>)
        requires
            old(self).wf(),
            settings_fit(*config),
        ensures
            r is Ok,
            final(self).wf(),
            after_open_settings(*old(self), *final(self), *config),
    {
        if self.modal.is_none() {
            let mut settings = Settings::new(config);
            settings.prepare_ui(sizes);
            self.modal = Some(ModalType::Settings(settings));
        }
        Ok(())
    }

    /// Closes the window over the editor, if any.
    pub fn close_modal(&mut self) -> (r: Result<(), String>)
        requires
            old(self).wf(),
        ensures
            r is Ok,
            final(self).wf(),
            final(self).modal_of() is None,
            final(self).editor_of() == old(self).editor_of(),
            final(self).files_of() == old(self).files_of(),
            final(self).same_frame(*old(self)),
    {
        self.modal = None;
        Ok(())
    }

    /// Opens `dir_path` in the tree of the open-file window when it is
    /// open, in the project tree when no window is open, and nowhere while
    /// the settings are open.
    pub fn open_directory<F: FileSystem, S: CharacterSizeManager>(
        &mut self,
        dir_path: &str,
        fs: &mut F,
        sizes: &mut S,
        config: &Config,
    )
        requires
            old(self).wf(),
        ensures
            final(self).wf(),
            after_open_directory(*old(self), *final(self), dir_path@),
    {
        let mut modal = None;
        std::mem::swap(&mut modal, &mut self.modal);
        match modal {
            Some(ModalType::OpenFile(mut m)) => {
                m.open_directory(dir_path, fs, sizes, config);
                self.modal = Some(ModalType::OpenFile(m));
            },
            None => {
                self.project_tree.open_directory(dir_path, fs, sizes, config);
            },
            Some(other) => {
                self.modal = Some(other);
            },
        }
    }

    pub fn file_editor(&self) -> (r: &FileEditor)
        ensures
            *r == self.editor_of(),
    {
        &self.file_editor
    }

    pub fn file_editor_mut(&mut self) -> (r: &mut FileEditor)
        ensures
            *r == old(self).editor_of(),
            final(self).editor_of() == *final(r),
            final(self).files_of() == old(self).files_of(),
            final(self).modal_of() == old(self).modal_of(),
            final(self).same_frame(*old(self)),
    {
        &mut self.file_editor
    }

    /// Puts `modal` over the editor, or takes the window away.
    pub fn set_open_file_modal(&mut self, modal: Option<OpenFile>)
        requires
            old(self).wf(),
            modal matches Some(m) ==> m.scroll_ok(),
        ensures
            final(self).wf(),
            final(self).modal_of() == match modal {
                Some(m) => Some(ModalType::OpenFile(m)),
                None => None,
            },
            final(self).editor_of() == old(self).editor_of(),
            final(self).files_of() == old(self).files_of(),
            final(self).same_frame(*old(self)),
    {
        self.modal = match modal {
            Some(m) => Some(ModalType::OpenFile(m)),
            None => None,
        };
    }

    /// Scrolls the window over the editor, or, when there is none, the
    /// editor, by `x` and `y` wheel steps (see `stepped`).
    pub fn scroll_by(&mut self, x: i32, y: i32, config: &Config)
        requires
            old(self).wf(),
            scroll_fits(*old(self), config.scroll.speed, x, y),
        ensures
            final(self).wf(),
            after_scroll(*old(self), *final(self), config.scroll.speed, x, y),
    {
        let mut modal = None;
        std::mem::swap(&mut modal, &mut self.modal);
        match modal {
            Some(ModalType::OpenFile(mut m)) => {
                m.scroll_by(x, y, config);
                self.modal = Some(ModalType::OpenFile(m));
            },
            Some(ModalType::Settings(mut m)) => {
                m.scroll_by(x, y, config);
                self.modal = Some(ModalType::Settings(m));
            },
            None => {
                self.file_editor.scroll_by(x, y, config);
            },
        }
    }

    pub fn open_file_modal(&self) -> (r: Option<&OpenFile>)
        ensures
            match self.modal_of() {
                Some(ModalType::OpenFile(m)) => r == Some(&m),
                _ => r is None,
            },
    {
        match &self.modal {
            Some(ModalType::OpenFile(m)) => Some(m),
            _ => None,
        }
    }

    pub fn settings_modal(&self) -> (r: Option<&Settings>)
        ensures
            match self.modal_of() {
                Some(ModalType::Settings(m)) => r == Some(&m),
                _ => r is None,
            },
    {
        match &self.modal {
            Some(ModalType::Settings(m)) => Some(m),
            _ => None,
        }
    }

    /// Lays out the menu bar, the project tree (opening its root) and the
    /// editor.
    pub fn prepare_ui<F: FileSystem, S: CharacterSizeManager>(&mut self, config: &Config, fs: &mut F, sizes: &mut S)
        requires
            old(self).wf(),
        ensures
            final(self).wf(),
            final(self).files_of() == old(self).files_of(),
            final(self).modal_of() == old(self).modal_of(),
            final(self).editor_of().dest_of() == old(self).editor_of().dest_of(),
            final(self).editor_of().caret_of().position == old(self).editor_of().caret_of().position,
            match (old(self).editor_of().file_of(), final(self).editor_of().file_of()) {
                (Some(o), Some(n)) => n.prepared() && n.text() == o.text() && n.path_view() == o.path_view()
                    && n.language_spec() == o.language_spec() && n.token_views() == o.token_views(),
                (None, None) => true,
                _ => false,
            },
            final(self).menu_of().dest_spec() == new_rect(0, 0, config.width, config.menu_height as u32),
            final(self).tree_of().root == old(self).tree_of().root,
            final(self).tree_of().dest == (crate::geometry::Rect {
                x: 0,
                y: rect_position(config.menu_height as i32),
                height: rect_size(config.height),
                ..old(self).tree_of().dest
            }),
            exists|laid_out: DirectoryView| #![trigger dir_prepared(old(self).tree_of().dir_view, laid_out)]
                dir_prepared(old(self).tree_of().dir_view, laid_out) && dir_opened(
                    laid_out,
                    final(self).tree_of().dir_view,
                    old(self).tree_of().root@,
                ),
    {
        self.menu_bar.prepare_ui(config);
        self.project_tree.prepare_ui(config, fs, sizes);
        self.file_editor.prepare_ui(sizes, &config.theme.code_highlighting);
    }

    /// See `update_fits`.
    pub fn can_update(&self, config: &Config) -> (r: bool)
        ensures
            r == update_fits(*self, *config),
    {
        let t = self.project_tree.full_rect();
        let p = t.top_right().offset(10, 0);
        if config.menu_height as u32 + config.editor_config.margin_top as u32 > config.height {
            return false;
        }
        if p.x < 0 || p.x as u32 > config.width {
            return false;
        }
        let d = self.file_editor.dest();
        let mut view = *d;
        view.set_x(p.x);
        view.set_width(config.width - p.x as u32);
        view.set_height(config.height - (config.menu_height as u32 + config.editor_config.margin_top as u32));
        if !bars_fit_of(&view, config.scroll()) {
            return false;
        }
        match &self.modal {
            Some(ModalType::OpenFile(m)) => {
                let mut c = m.dest;
                c.set_x((config.width / 2) as i32 - (m.dest.width / 2) as i32);
                c.set_y((config.height / 2) as i32 - (m.dest.height / 2) as i32);
                bars_fit_of(&c, config.scroll())
            },
            Some(ModalType::Settings(_)) => {
                if config.width < 32 || config.height < 48 {
                    false
                } else {
                    let s = crate::geometry::Rect::new(16, 24, config.width - 32, config.height - 48);
                    bars_fit_of(&s, config.scroll())
                }
            },
            None => true,
        }
    }

    /// Updates the window over the editor, the menu bar, the project tree
    /// and the editor, which starts right of the tree (see
    /// `editor_origin`).
    pub fn update<F: FileSystem>(&mut self, config: &Config, fs: &mut F) -> (r: UpdateResult)
        requires
            old(self).wf(),
            update_fits(*old(self), *config),
        ensures
            r == UpdateResult::NoOp,
            final(self).wf(),
            final(self).files_of() == old(self).files_of(),
            final(self).editor_of().file_of() == old(self).editor_of().file_of(),
            final(self).editor_of().caret_of() == old(self).editor_of().caret_of(),
            final(self).editor_of().dest_of() == updated_dest(
                old(self).editor_of().dest_of(),
                *config,
                UpdateContext::ParentPosition(editor_origin(old(self).tree_of())),
            ),
            final(self).tree_of().dest == (crate::geometry::Rect {
                y: rect_position(config.menu_height as i32),
                height: rect_size((config.height - config.menu_height) as u32),
                ..old(self).tree_of().dest
            }),
            final(self).menu_of().dest_spec() == (crate::geometry::Rect { width: rect_size(config.width), ..old(self).menu_of().dest_spec() }),
            match old(self).modal_of() {
                Some(ModalType::OpenFile(m)) => final(self).modal_of() matches Some(ModalType::OpenFile(n)) && n.dest
                    == centred(config.width, config.height, m.dest.width, m.dest.height),
                Some(ModalType::Settings(_)) => final(self).modal_of() matches Some(ModalType::Settings(n)) && n.dest
                    == settings_dest(*config),
                None => final(self).modal_of() is None,
            },
    {
        let mut modal = None;
        std::mem::swap(&mut modal, &mut self.modal);
        let res = match modal {
            Some(ModalType::OpenFile(mut m)) => {
                let res = m.update(config, &UpdateContext::Nothing);
                self.modal = Some(ModalType::OpenFile(m));
                res
            },
            Some(ModalType::Settings(mut m)) => {
                let res = m.update(config, &UpdateContext::Nothing);
                self.modal = Some(ModalType::Settings(m));
                res
            },
            None => UpdateResult::NoOp,
        };
        match res {
            UpdateResult::NoOp => {},
            other => {
                return other;
            },
        }
        self.menu_bar.update(config);
        self.project_tree.update(config, fs);
        let p = self.project_tree.full_rect().top_right().offset(10, 0);
        self.file_editor.update(config, &UpdateContext::ParentPosition(p));
        UpdateResult::NoOp
    }

    /// Sends a click at `point` where `click_route` says, and reports what
    /// it asks for and what it asks of text input.
    pub fn on_left_click(&mut self, point: &Point) -> (r: (UpdateResult, TextInput))
        requires
            old(self).wf(),
            click_route(*old(self), *point) == ClickRoute::Editor ==> click_fits(old(self).editor_of(), *point),
        ensures
            final(self).wf(),
            r == click_result(*old(self), *point),
            after_click(*old(self), *final(self), *point),
    {
        if self.project_tree.is_left_click_target(point, &UpdateContext::Nothing) {
            let res = self.project_tree.on_left_click(point, &UpdateContext::Nothing);
            return (res, TextInput::Keep);
        }
        let mut modal = None;
        std::mem::swap(&mut modal, &mut self.modal);
        match modal {
            Some(ModalType::OpenFile(mut m)) => {
                let res = m.on_left_click(point, &UpdateContext::Nothing);
                self.modal = Some(ModalType::OpenFile(m));
                return (res, TextInput::Keep);
            },
            Some(ModalType::Settings(mut m)) => {
                let res = m.on_left_click(point, &UpdateContext::Nothing);
                self.modal = Some(ModalType::Settings(m));
                return (res, TextInput::Keep);
            },
            None => {},
        }
        if self.menu_bar.is_left_click_target(point, &UpdateContext::Nothing) {
            let res = self.menu_bar.on_left_click(point, &UpdateContext::Nothing);
            (res, TextInput::Stop)
        } else if !self.file_editor.is_left_click_target(point, &UpdateContext::Nothing) {
            (UpdateResult::NoOp, TextInput::Keep)
        } else {
            let res = self.file_editor.on_left_click(point, &UpdateContext::Nothing);
            (res, TextInput::Start)
        }
    }

    /// Opens the open-file window, 400 by 800 and laid out, on the tree at
    /// `cwd` with `cwd` opened in it; reports whether it could, which needs
    /// a last component of `cwd` to name the tree by.
    pub fn open_file_modal_at<F: FileSystem, S: CharacterSizeManager>(
        &mut self,
        cwd: String,
        fs: &mut F,
        sizes: &mut S,
        config: &Config,
    ) -> (r: bool)
        requires
            old(self).wf(),
        ensures
            r == path_file_name(cwd@) is Some,
            final(self).wf(),
            r ==> (final(self).modal_of() matches Some(ModalType::OpenFile(m)) && {
                &&& m.root_path@ == cwd@
                &&& m.directory_view.path@ == cwd@
                &&& m.dest == centred(config.width, config.height, 400, 800)
            }),
            !r ==> final(self).modal_of() == old(self).modal_of(),
            final(self).editor_of() == old(self).editor_of(),
            final(self).files_of() == old(self).files_of(),
            final(self).same_frame(*old(self)),
    {
        let mut modal = match OpenFile::try_new(cwd.clone(), 400, 800, config) {
            Some(m) => m,
            None => {
                return false;
            },
        };
        modal.prepare_ui(sizes);
        modal.open_directory(cwd.as_str(), fs, sizes, config);
        self.set_open_file_modal(Some(modal));
        true
    }

    /// Carries out one task of a round (see `TaskOutcome`).
    pub fn apply_task<F: FileSystem, S: CharacterSizeManager>(
        &mut self,
        task: &UpdateResult,
        fs: &mut F,
        sizes: &mut S,
        config: &mut Config,
    ) -> (r: TaskOutcome)
        requires
            old(self).wf(),
            old(config).wf(),
            task_fits(*old(self), *task, *old(config)),
        ensures
            final(self).wf(),
            match *task {
                UpdateResult::WindowResize { width, height } => *final(config) == (Config {
                    width: if width > 0 { width as u32 } else { old(config).width },
                    height: if height > 0 { height as u32 } else { old(config).height },
                    ..*old(config)
                }),
                _ => *final(config) == *old(config),
            },
            *task is Stop ==> r == only(Effect::Stop) && unchanged(*old(self), *final(self)),
            *task matches UpdateResult::MouseLeftClicked(p) ==> {
                let (res, input) = click_result(*old(self), p);
                &&& r == (TaskOutcome { effect: Effect::Nothing, follow_up: follow_up_of(res), text_input: input })
                &&& if res is OpenFile {
                    after_click_closing(*old(self), *final(self), p)
                } else {
                    after_click(*old(self), *final(self), p)
                }
            },
            *task matches UpdateResult::Scroll { x, y } ==> r == only(Effect::Nothing) && after_scroll(
                *old(self),
                *final(self),
                old(config).scroll.speed,
                -x as i32,
                -y as i32,
            ),
            *task matches UpdateResult::OpenFile(path) ==> r == only(Effect::ReadFile(path)) && unchanged(*old(self), *final(self)),
            *task matches UpdateResult::OpenDirectory(path) ==> r == only(Effect::Nothing) && after_open_directory(*old(self), *final(self), path@),
            *task is OpenFileModal ==> r == only(Effect::OpenFileModal) && unchanged(*old(self), *final(self)),
            *task is SaveCurrentFile ==> r == only(Effect::SaveFile) && unchanged(*old(self), *final(self)),
            *task is OpenSettings ==> r == only(Effect::Nothing) && after_open_settings(*old(self), *final(self), *old(config)),
            *task is CloseModal ==> {
                &&& r == only(Effect::Nothing)
                &&& final(self).modal_of() is None
                &&& final(self).editor_of() == old(self).editor_of()
                &&& final(self).files_of() == old(self).files_of()
                &&& final(self).same_frame(*old(self))
            },
            is_editor_task(*task) ==> {
                &&& r == only(Effect::Nothing)
                &&& after_task(old(self).editor_of(), final(self).editor_of(), *task, *old(config))
                &&& final(self).files_of() == old(self).files_of()
                &&& final(self).modal_of() == old(self).modal_of()
                &&& final(self).same_frame(*old(self))
            },
            passive(*task) ==> r == only(Effect::Nothing) && unchanged(*old(self), *final(self)),
    {
        let nothing = TaskOutcome { effect: Effect::Nothing, follow_up: None, text_input: TextInput::Keep };
        match task {
            UpdateResult::Stop => TaskOutcome { effect: Effect::Stop, follow_up: None, text_input: TextInput::Keep },
            UpdateResult::MouseLeftClicked(point) => {
                let ghost before = *self;
                let (res, input) = self.on_left_click(point);
                let ghost mid = *self;
                let ghost opens_file = res is OpenFile;
                let follow_up = match res {
                    UpdateResult::OpenDirectory(path) => Some(UpdateResult::OpenDirectory(path)),
                    UpdateResult::OpenFile(path) => {
                        self.set_open_file_modal(None);
                        Some(UpdateResult::OpenFile(path))
                    },
                    _ => None,
                };
                proof {
                    if opens_file {
                        assert(after_click(before, mid, *point));
                    }
                }
                TaskOutcome { effect: Effect::Nothing, follow_up, text_input: input }
            },
            UpdateResult::Scroll { x, y } => {
                self.scroll_by(-*x, -*y, config);
                nothing
            },
            UpdateResult::WindowResize { width, height } => {
                crate::events::resize_config(config, *width, *height);
                nothing
            },
            UpdateResult::OpenFile(path) => TaskOutcome {
                effect: Effect::ReadFile(path.clone()),
                follow_up: None,
                text_input: TextInput::Keep,
            },
            UpdateResult::OpenDirectory(path) => {
                self.open_directory(path.as_str(), fs, sizes, config);
                nothing
            },
            UpdateResult::OpenFileModal => TaskOutcome {
                effect: Effect::OpenFileModal,
                follow_up: None,
                text_input: TextInput::Keep,
            },
            UpdateResult::SaveCurrentFile => TaskOutcome {
                effect: Effect::SaveFile,
                follow_up: None,
                text_input: TextInput::Keep,
            },
            UpdateResult::OpenSettings => {
                let _ = self.open_settings(sizes, config);
                nothing
            },
            UpdateResult::CloseModal => {
                let _ = self.close_modal();
                nothing
            },
            _ => {
                self.file_editor.apply_task(task, sizes, config);
                nothing
            },
        }
    }

    /// See `task_fits`.
    pub fn can_apply_task(&self, task: &UpdateResult, config: &Config) -> (r: bool)
        requires
            self.wf(),
        ensures
            r == task_fits(*self, *task, *config),
    {
        match task {
            UpdateResult::RefreshFsTree => false,
            UpdateResult::MouseLeftClicked(p) => {
                !(self.click_route_of(p) == ClickRoute::Editor) || self.file_editor.click_fits_now(p)
            },
            UpdateResult::Scroll { x, y } => {
                *x > i32::MIN && *y > i32::MIN && self.scroll_fits_now(-*x, -*y, config.scroll().speed())
            },
            UpdateResult::OpenSettings => config.width >= 32 && config.height >= 48,
            _ => self.file_editor.task_allowed_now(task),
        }
    }

    /// See `click_route`.
    pub fn click_route_of(&self, point: &Point) -> (r: ClickRoute)
        requires
            self.wf(),
        ensures
            r == click_route(*self, *point),
    {
        if self.project_tree.is_left_click_target(point, &UpdateContext::Nothing) {
            ClickRoute::ProjectTree
        } else if self.modal.is_some() {
            ClickRoute::Modal
        } else if self.menu_bar.is_left_click_target(point, &UpdateContext::Nothing) {
            ClickRoute::MenuBar
        } else if self.file_editor.is_left_click_target(point, &UpdateContext::Nothing) {
            ClickRoute::Editor
        } else {
            ClickRoute::Nowhere
        }
    }

    /// See `scroll_fits`.
    pub fn scroll_fits_now(&self, x: i32, y: i32, speed: i32) -> (r: bool)
        ensures
            r == scroll_fits(*self, speed, x, y),
    {
        match &self.modal {
            Some(ModalType::OpenFile(m)) => step_fits_of(m.horizontal_scroll_bar.scroll_value(), speed, x) && step_fits_of(
                m.vertical_scroll_bar.scroll_value(),
                speed,
                y,
            ),
            Some(ModalType::Settings(m)) => step_fits_of(m.horizontal_scroll_bar.scroll_value(), speed, x) && step_fits_of(
                m.vertical_scroll_bar.scroll_value(),
                speed,
                y,
            ),
            None => {
                let h = self.file_editor.horizontal_scroll_handler();
                let v = self.file_editor.vertical_scroll_handler();
                match (h, v) {
                    (Some(h), Some(v)) => step_fits_of(h.scroll_value(), speed, x) && step_fits_of(v.scroll_value(), speed, y),
                    _ => false,
                }
            },
        }
    }

    pub fn menu_bar(&self) -> (r: &MenuBar)
        ensures
            *r == self.menu_of(),
    {
        &self.menu_bar
    }

    pub fn project_tree(&self) -> (r: &ProjectTreeSidebar)
        ensures
            *r == self.tree_of(),
    {
        &self.project_tree
    }

    /// The files opened before the one in the editor, oldest first.
    pub fn files(&self) -> (r: &Vec<EditorFile>)
        ensures
            r@ == self.files_of(),
    {
        &self.files
    }

    /// Sizes the scroll bars' handles of the window over the editor, if any
    /// (see `OpenFile::size_scroll_handles`).
    pub fn size_modal_scroll_handles(&mut self, vertical: (i32, u32), horizontal: (i32, u32))
        requires
            old(self).wf(),
        ensures
            final(self).wf(),
            final(self).editor_of() == old(self).editor_of(),
            final(self).files_of() == old(self).files_of(),
            final(self).same_frame(*old(self)),
            modal_handles_sized(old(self).modal_of(), final(self).modal_of(), vertical, horizontal),
    {
        let mut modal = None;
        std::mem::swap(&mut modal, &mut self.modal);
        match modal {
            Some(ModalType::OpenFile(mut m)) => {
                m.size_scroll_handles(vertical, horizontal);
                self.modal = Some(ModalType::OpenFile(m));
            },
            Some(ModalType::Settings(mut m)) => {
                m.size_scroll_handles(vertical, horizontal);
                self.modal = Some(ModalType::Settings(m));
            },
            None => {},
        }
    }

    /// What the window draws (see `app_commands`).
    pub fn render(&self, config: &Config) -> (r: Vec<DrawCommand>)
        requires
            self.wf(),
        ensures
            views(r@) == app_commands(*self, *config),
    {
        let mut out: Vec<DrawCommand> = Vec::new();
        proof {
            assert(views(out@) =~= Seq::<DrawSpec>::empty());
        }
        self.file_editor.render(&mut out);
        self.menu_bar.render(config, &RenderContext::Nothing, &mut out);
        self.project_tree.render(&mut out);
        let ghost frame = views(out@);
        match &self.modal {
            Some(ModalType::OpenFile(m)) => m.render(&RenderContext::Nothing, &mut out),
            Some(ModalType::Settings(m)) => m.render(&RenderContext::Nothing, &mut out),
            None => {
                proof {
                    assert(views(out@) =~= frame + Seq::<DrawSpec>::empty());
                }
            },
        }
        proof {
            assert(views(out@) =~= app_commands(*self, *config));
        }
        out
    }

    /// Every click concerns the window.
    pub fn is_left_click_target(&self, _point: &Point) -> (r: bool)
        ensures
            r,
    {
        true
    }
}

} // verus!
