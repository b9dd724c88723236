use rider::app_state::AppState;
use rider::config::settings::Config;
use rider::editor::file::EditorFile;
use rider::editor::file_editor::FileEditor;
use rider::editor::text_character::CharacterSizeManager;
use rider::geometry::{Point, Rect};
use rider::themes::SerdeColor;
use rider::ui::draw::DrawCommand;
use rider::ui::menu_bar::MenuBar;
use rider::ui::modal::Settings;
use rider::ui::scroll_bar::VerticalScrollBar;
use rider::ui::widgets::Label;
use rider::ui::RenderContext;

fn build_config() -> Config {
    Config::new()
}

/// Every character 13 wide and 14 high.
struct SimpleRendererMock;

impl CharacterSizeManager for SimpleRendererMock {
    fn load_character_size(&mut self, _c: char) -> Rect {
        Rect::new(0, 0, 13, 14)
    }
}

fn white() -> SerdeColor {
    SerdeColor { r: 255, g: 255, b: 255, a: 0 }
}

#[test]
fn label_draws_its_characters_side_by_side() {
    let mut label = Label::new("ab".to_owned());
    label.prepare_ui(&mut SimpleRendererMock);
    let mut out = vec![];
    label.render(&RenderContext::ParentPosition(Point::new(100, 5)), &mut out);
    let d = Rect::new(120, 5, 26, 14);
    assert_eq!(
        out,
        vec![
            DrawCommand::Clip(d),
            DrawCommand::Glyph { character: 'a', color: white(), source: Rect::new(0, 0, 64, 64), dest: Rect::new(120, 5, 13, 14) },
            DrawCommand::Glyph { character: 'b', color: white(), source: Rect::new(0, 0, 64, 64), dest: Rect::new(133, 5, 13, 14) },
        ]
    );
}

#[test]
fn menu_bar_draws_background_outline_and_save_button() {
    let config = build_config();
    let menu = MenuBar::new(&config);
    let mut out = vec![];
    menu.render(&config, &RenderContext::Nothing, &mut out);
    let dest = Rect::new(0, 0, 1024, 40);
    assert_eq!(out.len(), 5);
    assert_eq!(out[0], DrawCommand::Clip(dest));
    assert_eq!(out[1], DrawCommand::Fill { rect: dest, color: config.theme.background });
    assert_eq!(out[2], DrawCommand::Border { rect: dest, color: config.theme.border_color });
    assert_eq!(out[3], DrawCommand::Clip(Rect::new(16, 10, 32, 32)));
    match &out[4] {
        DrawCommand::Image { path, dest, .. } => {
            assert!(path.ends_with(&config.theme.images.save_icon));
            assert_eq!(*dest, Rect::new(16, 10, 16, 16));
        }
        other => panic!("not the save icon: {:?}", other),
    }
}

#[test]
fn bar_without_handle_draws_nothing() {
    let config = build_config();
    let mut bar = VerticalScrollBar::new(&config);
    bar.set_viewport(100);
    bar.set_full_size(20);
    let mut out = vec![];
    bar.bar().render(&RenderContext::Nothing, &mut out);
    assert!(out.is_empty());
    bar.set_full_size(200);
    bar.update_rect(0, 50);
    bar.bar().render(&RenderContext::ParentPosition(Point::new(10, 10)), &mut out);
    assert_eq!(out, vec![DrawCommand::Border { rect: Rect::new(10, 10, 4, 50), color: white() }]);
}

#[test]
fn editor_draws_text_but_line_breaks_and_shows_spaces() {
    let config = build_config();
    let mut editor = FileEditor::new(&config);
    let mut file = EditorFile::new("a.txt".to_owned(), "a b\nc".to_owned(), &config);
    file.prepare_ui(&mut SimpleRendererMock, &config.theme.code_highlighting);
    editor.open_file(file);
    let mut out = vec![];
    editor.render(&mut out);
    assert_eq!(out[0], DrawCommand::Clip(*editor.dest()));
    let shown: String = out
        .iter()
        .filter_map(|c| match c {
            DrawCommand::Glyph { character, .. } => Some(*character),
            _ => None,
        })
        .collect();
    assert_eq!(shown, "a\u{b7}bc");
    assert!(out.iter().any(|c| matches!(c, DrawCommand::Caret(_))));
}

#[test]
fn settings_draw_names_and_values() {
    let config = build_config();
    let mut settings = Settings::new(&config);
    settings.prepare_ui(&mut SimpleRendererMock);
    let mut out = vec![];
    settings.render(&RenderContext::Nothing, &mut out);
    let dest = Rect::new(16, 24, 992, 812);
    assert_eq!(out[0], DrawCommand::Clip(dest));
    assert_eq!(out[1], DrawCommand::Fill { rect: dest, color: config.theme.background });
    assert_eq!(out[2], DrawCommand::Border { rect: dest, color: config.theme.border_color });
    // the font path's name: from the area's corner, in by the margins and
    // the name margin
    match out[3] {
        DrawCommand::Clip(r) => assert_eq!((r.x, r.y), (16 + 16 + 20, 24 + 24)),
        ref other => panic!("not a clip: {:?}", other),
    }
}

#[test]
fn window_draws_editor_menu_and_tree() {
    let config = build_config();
    let state = AppState::new(&config, "/tmp".to_owned());
    let out = state.render(&config);
    assert_eq!(out[0], DrawCommand::Clip(*state.file_editor().dest()));
    assert!(out.contains(&DrawCommand::Clip(state.menu_bar().dest())));
    assert!(out.contains(&DrawCommand::Clip(state.project_tree().full_rect())));
}
