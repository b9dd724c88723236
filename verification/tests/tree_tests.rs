use std::collections::{HashMap, HashSet};

use rider::config::settings::Config;
use rider::editor::text_character::CharacterSizeManager;
use rider::events::UpdateResult;
use rider::geometry::{Point, Rect};
use rider::ui::order::{contains_text, names_le};
use rider::ui::tree::{sort_entries, DirEntry, DirectoryView, FileSystem, ProjectTreeSidebar};
use rider::ui::UpdateContext;

fn build_config() -> Config {
    Config::new()
}

/// Every character 13 wide and 14 high.
struct SimpleRendererMock;

impl CharacterSizeManager for SimpleRendererMock {
    fn load_character_size(&mut self, _c: char) -> Rect {
        Rect::new(0, 0, 13, 14)
    }
}

/// A file system held in memory.
#[derive(Default)]
struct MemoryFs {
    entries: HashMap<String, Vec<DirEntry>>,
    present: HashSet<String>,
}

impl MemoryFs {
    fn with_dir(mut self, path: &str, children: Vec<(&str, bool)>) -> Self {
        self.present.insert(path.to_owned());
        let list = children
            .into_iter()
            .map(|(name, is_dir)| {
                let child = format!("{}/{}", path, name);
                self.present.insert(child.clone());
                DirEntry { name: name.to_owned(), path: child, is_dir }
            })
            .collect();
        self.entries.insert(path.to_owned(), list);
        self
    }
}

impl FileSystem for MemoryFs {
    fn list(&mut self, path: &str) -> Vec<DirEntry> {
        self.entries.get(path).cloned().unwrap_or_default()
    }

    fn is_present(&mut self, path: &str) -> bool {
        self.present.contains(path)
    }
}

fn view(path: &str) -> DirectoryView {
    DirectoryView::new(path.to_owned(), &build_config())
}

fn prepared(path: &str) -> DirectoryView {
    let mut widget = view(path);
    widget.prepare_ui(&mut SimpleRendererMock);
    widget
}

fn test_fs() -> MemoryFs {
    MemoryFs::default()
        .with_dir("/tmp/rider-editor/directory-view-test", vec![("b.txt", false), ("sub", true), ("a.rs", false)])
        .with_dir("/tmp/rider-editor/directory-view-test/sub", vec![("inner.txt", false)])
}

fn opened(path: &str, fs: &mut MemoryFs) -> DirectoryView {
    let config = build_config();
    let mut widget = DirectoryView::new(path.to_owned(), &config);
    widget.prepare_ui(&mut SimpleRendererMock);
    assert!(widget.open_directory(path, fs, &mut SimpleRendererMock, &config));
    widget.prepare_ui(&mut SimpleRendererMock);
    widget
}

#[test]
fn directory_assert_initial_name_width() {
    assert_eq!(view("/foo").name_width(), 0);
}

#[test]
fn directory_assert_prepared_name_width() {
    assert_eq!(prepared("/foo").name_width(), 39);
}

#[test]
fn directory_assert_initial_icon_width() {
    assert_eq!(view("/foo").icon_width(), 16);
}

#[test]
fn directory_assert_prepared_icon_width() {
    assert_eq!(prepared("/foo").icon_width(), 14);
}

#[test]
fn directory_assert_initial_height() {
    assert_eq!(view("/foo").height(), 16);
}

#[test]
fn directory_assert_prepared_height() {
    assert_eq!(prepared("/foo").height(), 14);
}

#[test]
fn directory_assert_initial_name() {
    assert_eq!(view("/foo").name(), "foo".to_owned());
}

#[test]
fn directory_assert_prepared_name() {
    assert_eq!(prepared("/foo").name(), "foo".to_owned());
}

#[test]
fn directory_assert_initial_path() {
    assert_eq!(view("/foo").path(), "/foo".to_owned());
}

#[test]
fn directory_assert_prepared_path() {
    assert_eq!(prepared("/foo").path(), "/foo".to_owned());
}

#[test]
fn directory_assert_initial_source() {
    assert_eq!(view("/foo").source(), &Rect::new(0, 0, 64, 64));
}

#[test]
fn directory_assert_prepared_source() {
    assert_eq!(prepared("/foo").source(), &Rect::new(0, 0, 64, 64));
}

#[test]
fn directory_assert_initial_dest() {
    assert_eq!(view("/foo").dest(), Rect::new(0, 0, 36, 16));
}

#[test]
fn directory_assert_prepared_dest() {
    assert_eq!(prepared("/foo").dest(), Rect::new(0, 0, 73, 14));
}

#[test]
fn directory_assert_update_when_doesnt_exists() {
    let mut widget = prepared("/foo");
    let mut fs = test_fs();
    assert_eq!(widget.update(&mut fs), UpdateResult::RefreshFsTree);
}

#[test]
fn directory_assert_update_when_does_exists() {
    let mut widget = prepared("/tmp/rider-editor/directory-view-test");
    let mut fs = test_fs();
    assert_eq!(widget.update(&mut fs), UpdateResult::NoOp);
}

#[test]
fn assert_update_expanded() {
    let mut fs = test_fs();
    let mut widget = opened("/tmp/rider-editor/directory-view-test", &mut fs);
    assert_eq!(widget.update(&mut fs), UpdateResult::NoOp);
}

#[test]
fn directory_assert_is_left_click_target_when_target() {
    let widget = prepared("/foo");
    assert_eq!(widget.is_left_click_target(&Point::new(0, 0), &UpdateContext::Nothing), true);
}

#[test]
fn directory_assert_is_left_click_target_when_target_with_parent() {
    let widget = prepared("/foo");
    let context = UpdateContext::ParentPosition(Point::new(0, 0));
    assert_eq!(widget.is_left_click_target(&Point::new(0, 0), &context), true);
}

#[test]
fn assert_is_left_click_target_expanded() {
    let mut fs = test_fs();
    let widget = opened("/tmp/rider-editor/directory-view-test", &mut fs);
    let context = UpdateContext::ParentPosition(Point::new(0, 0));
    assert_eq!(widget.is_left_click_target(&Point::new(0, 0), &context), true);
}

#[test]
fn directory_refute_is_left_click_target_when_target() {
    let widget = prepared("/foo");
    assert_eq!(widget.is_left_click_target(&Point::new(9000, 0), &UpdateContext::Nothing), false);
}

#[test]
fn directory_refute_is_left_click_target_when_target_with_parent() {
    let widget = prepared("/foo");
    let context = UpdateContext::ParentPosition(Point::new(0, 0));
    assert_eq!(widget.is_left_click_target(&Point::new(0, 9000), &context), false);
}

#[test]
fn assert_on_left_click_when_target() {
    let mut widget = prepared("/tmp/rider-editor/directory-view-test");
    assert_eq!(
        widget.on_left_click(&Point::new(0, 0), &UpdateContext::Nothing),
        UpdateResult::OpenDirectory("/tmp/rider-editor/directory-view-test".to_owned())
    );
}

#[test]
fn assert_on_left_click_when_target_with_parent() {
    let mut widget = prepared("/tmp/rider-editor/directory-view-test");
    let context = UpdateContext::ParentPosition(Point::new(0, 0));
    assert_eq!(
        widget.on_left_click(&Point::new(0, 0), &context),
        UpdateResult::OpenDirectory("/tmp/rider-editor/directory-view-test".to_owned())
    );
}

#[test]
fn assert_on_left_click_expanded() {
    let mut fs = test_fs();
    let mut widget = opened("/tmp/rider-editor/directory-view-test", &mut fs);
    let context = UpdateContext::ParentPosition(Point::new(0, 0));
    assert_eq!(
        widget.on_left_click(&Point::new(0, 0), &context),
        UpdateResult::OpenDirectory("/tmp/rider-editor/directory-view-test".to_owned())
    );
}

// own tests

#[test]
fn opening_reads_children_in_name_order() {
    let mut fs = test_fs();
    let widget = opened("/tmp/rider-editor/directory-view-test", &mut fs);
    assert!(widget.opened && widget.expanded);
    let files: Vec<String> = widget.files.iter().map(|f| f.name()).collect();
    assert_eq!(files, vec!["a.rs".to_owned(), "b.txt".to_owned()]);
    let dirs: Vec<String> = widget.directories.iter().map(|d| d.path()).collect();
    assert_eq!(dirs, vec!["/tmp/rider-editor/directory-view-test/sub".to_owned()]);
    // a line for the name, then each child and a margin
    assert_eq!(widget.height(), 14 + (14 + 4) + 2 * (16 + 4));
}

#[test]
fn opening_again_toggles() {
    let config = build_config();
    let mut fs = test_fs();
    let path = "/tmp/rider-editor/directory-view-test";
    let mut widget = opened(path, &mut fs);
    assert!(widget.open_directory(path, &mut fs, &mut SimpleRendererMock, &config));
    assert!(!widget.expanded);
    assert_eq!(widget.height(), 14);
    assert!(widget.open_directory(path, &mut fs, &mut SimpleRendererMock, &config));
    assert!(widget.expanded);
}

#[test]
fn opening_a_path_inside_opens_the_way_there() {
    let config = build_config();
    let mut fs = test_fs();
    let root = "/tmp/rider-editor/directory-view-test";
    let mut widget = view(root);
    widget.prepare_ui(&mut SimpleRendererMock);
    assert!(widget.open_directory(&format!("{}/sub", root), &mut fs, &mut SimpleRendererMock, &config));
    assert!(widget.opened && widget.expanded);
    let sub = &widget.directories[0];
    assert!(sub.opened && sub.expanded);
    assert_eq!(sub.files[0].name(), "inner.txt");
    assert!(!widget.open_directory("/elsewhere", &mut fs, &mut SimpleRendererMock, &config));
}

#[test]
fn click_on_a_child_file_opens_it() {
    let mut fs = test_fs();
    let mut widget = opened("/tmp/rider-editor/directory-view-test", &mut fs);
    // the subdirectory first, then the files, each a line below the other
    let first_child_y = 14 + 4;
    let file_y = first_child_y + 14 + 4;
    let click = Point::new(14 + 4 + 1, file_y + 1);
    assert_eq!(
        widget.on_left_click(&click, &UpdateContext::Nothing),
        UpdateResult::OpenFile("/tmp/rider-editor/directory-view-test/a.rs".to_owned())
    );
    let on_sub = Point::new(14 + 4 + 1, first_child_y + 1);
    assert_eq!(
        widget.on_left_click(&on_sub, &UpdateContext::Nothing),
        UpdateResult::OpenDirectory("/tmp/rider-editor/directory-view-test/sub".to_owned())
    );
}

#[test]
fn try_new_needs_a_name() {
    assert!(DirectoryView::try_new("/".to_owned(), &build_config()).is_none());
    assert!(DirectoryView::try_new("/a/b".to_owned(), &build_config()).is_some());
}

#[test]
fn entries_sort_by_name() {
    let entries = vec![
        DirEntry { name: "b".to_owned(), path: "/b".to_owned(), is_dir: false },
        DirEntry { name: "a".to_owned(), path: "/a".to_owned(), is_dir: true },
        DirEntry { name: "ab".to_owned(), path: "/ab".to_owned(), is_dir: false },
    ];
    let sorted: Vec<String> = sort_entries(entries).into_iter().map(|e| e.name).collect();
    assert_eq!(sorted, vec!["a".to_owned(), "ab".to_owned(), "b".to_owned()]);
}

#[test]
fn text_order_and_search() {
    assert!(names_le("abc", "abd"));
    assert!(names_le("ab", "abc"));
    assert!(!names_le("b", "abc"));
    assert!(names_le("", ""));
    assert!(contains_text("/a/b/c", "/b/"));
    assert!(!contains_text("/a/bc", "/b/"));
    assert!(contains_text("x", ""));
}

// the sidebar

#[test]
fn mod_assert_full_rect() {
    let config = build_config();
    let mut fs = MemoryFs::default().with_dir("/tmp", vec![]);
    let mut widget = ProjectTreeSidebar::new("/tmp".to_owned(), &config);
    widget.prepare_ui(&config, &mut fs, &mut SimpleRendererMock);
    assert_eq!(widget.full_rect(), Rect::new(0, 40, 200, 860));
}

#[test]
fn mod_assert_update() {
    let config = build_config();
    let mut fs = MemoryFs::default();
    let mut widget = ProjectTreeSidebar::new("/tmp".to_owned(), &config);
    widget.update(&config, &mut fs);
    assert_eq!(widget.full_rect(), Rect::new(0, 40, 200, 820));
}

#[test]
fn mod_assert_prepare_ui() {
    let config = build_config();
    let mut fs = MemoryFs::default().with_dir("/tmp", vec![]);
    let mut widget = ProjectTreeSidebar::new("/tmp".to_owned(), &config);
    widget.prepare_ui(&config, &mut fs, &mut SimpleRendererMock);
    assert_eq!(widget.full_rect(), Rect::new(0, 40, 200, 860));
}

#[test]
fn mod_assert_on_left_click_with_nothing() {
    let config = build_config();
    let path = "/tmp/rider/test-open-file/open-directory";
    let mut widget = ProjectTreeSidebar::new(path.to_owned(), &config);
    let r = widget.on_left_click(&Point::new(100, 100), &UpdateContext::Nothing);
    assert_eq!(r, UpdateResult::NoOp);
}

#[test]
fn mod_assert_on_left_click_with_parent_position() {
    let config = build_config();
    let path = "/tmp/rider/test-open-file/open-directory";
    let mut widget = ProjectTreeSidebar::new(path.to_owned(), &config);
    let context = UpdateContext::ParentPosition(Point::new(10, 10));
    let r = widget.on_left_click(&Point::new(100, 100), &context);
    assert_eq!(r, UpdateResult::NoOp);
}

#[test]
fn mod_assert_is_left_click_target_with_nothing() {
    let config = build_config();
    let path = "/tmp/rider/test-open-file/open-directory";
    let widget = ProjectTreeSidebar::new(path.to_owned(), &config);
    assert_eq!(widget.is_left_click_target(&Point::new(400, 400), &UpdateContext::Nothing), false);
}

#[test]
fn mod_assert_is_left_click_target_with_parent_position() {
    let config = build_config();
    let path = "/tmp/rider/test-open-file/open-directory";
    let widget = ProjectTreeSidebar::new(path.to_owned(), &config);
    let context = UpdateContext::ParentPosition(Point::new(10, 10));
    assert_eq!(widget.is_left_click_target(&Point::new(800, 800), &context), false);
}

#[test]
fn mod_assert_is_left_click_target_with_parent_position_in_box() {
    let config = build_config();
    let path = "/tmp/rider/test-open-file/open-directory";
    let widget = ProjectTreeSidebar::new(path.to_owned(), &config);
    let context = UpdateContext::ParentPosition(Point::new(10, 10));
    assert_eq!(widget.is_left_click_target(&Point::new(500, 400), &context), false);
}

#[test]
fn sidebar_click_on_root_opens_it() {
    let config = build_config();
    let mut fs = MemoryFs::default().with_dir("/tmp", vec![]);
    let mut widget = ProjectTreeSidebar::new("/tmp".to_owned(), &config);
    widget.prepare_ui(&config, &mut fs, &mut SimpleRendererMock);
    let p = Point::new(16 + 1, 40 + 24 + 1);
    assert!(widget.is_left_click_target(&p, &UpdateContext::Nothing));
    assert_eq!(
        widget.on_left_click(&p, &UpdateContext::Nothing),
        UpdateResult::OpenDirectory("/tmp".to_owned())
    );
}

#[test]
fn mod_assert_scroll() {
    let config = build_config();
    let widget = ProjectTreeSidebar::new("/tmp".to_owned(), &config);
    assert_eq!(widget.scroll(), Point::new(0, 0));
}

#[test]
fn assert_render_no_expanded() {
    let config = build_config();
    let mut widget = DirectoryView::new("/tmp/rider-editor/directory-view-test".to_owned(), &config);
    widget.prepare_ui(&mut SimpleRendererMock);
    let mut out = Vec::new();
    widget.render(&rider::ui::RenderContext::Nothing, &mut out);
    assert!(!out.is_empty());
}

#[test]
fn assert_render_expanded() {
    let config = build_config();
    let mut fs = MemoryFs::default().with_dir("/tmp/rider-editor/directory-view-test", vec![]);
    let mut widget = DirectoryView::new("/tmp/rider-editor/directory-view-test".to_owned(), &config);
    widget.prepare_ui(&mut SimpleRendererMock);
    widget.open_directory("/tmp/rider-editor/directory-view-test", &mut fs, &mut SimpleRendererMock, &config);
    widget.prepare_ui(&mut SimpleRendererMock);
    let mut out = Vec::new();
    widget.render(&rider::ui::RenderContext::Nothing, &mut out);
    assert!(!out.is_empty());
}

// The editor's area and the project tree's sidebar both draw.
#[test]
fn mod_assert_render() {
    let config = build_config();
    let editor = rider::editor::file_editor::FileEditor::new(&config);
    let mut out = Vec::new();
    assert_eq!(editor.render(&mut out), ());
    let widget = ProjectTreeSidebar::new("/tmp".to_owned(), &config);
    let mut out = Vec::new();
    assert_eq!(widget.render(&mut out), ());
}

#[test]
fn listed_entries_show_their_names_in_order() {
    let mut fs = MemoryFs::default().with_dir(
        "/tmp/listing",
        vec![("b.txt", false), ("zeta", true), ("a.rs", false), ("alpha", true)],
    );
    let widget = opened("/tmp/listing", &mut fs);
    let files: Vec<String> = widget.files.iter().map(|f| f.name()).collect();
    let dirs: Vec<String> = widget.directories.iter().map(|d| d.name()).collect();
    assert_eq!(files, vec!["a.rs".to_owned(), "b.txt".to_owned()]);
    assert_eq!(dirs, vec!["alpha".to_owned(), "zeta".to_owned()]);
}
