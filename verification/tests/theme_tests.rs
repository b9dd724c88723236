use rider::themes::{
    build_theme, CaretColor, CodeHighlightingColor, DiffColor, SerdeColor, Theme, ThemeConfig,
    ThemeImages,
};

#[test]
fn assert_directory_icon() {
    let config = ThemeImages::new("foo".to_owned(), "bar".to_owned(), "baz".to_owned());
    let result = config.directory_icon();
    let expected = "foo".to_owned();
    assert_eq!(result, expected);
}

#[test]
fn assert_file_icon() {
    let config = ThemeImages::new("foo".to_owned(), "bar".to_owned(), "baz".to_owned());
    let result = config.file_icon();
    let expected = "bar".to_owned();
    assert_eq!(result, expected);
}

#[test]
fn assert_save_icon() {
    let config = ThemeImages::new("foo".to_owned(), "bar".to_owned(), "baz".to_owned());
    let result = config.save_icon();
    let expected = "baz".to_owned();
    assert_eq!(result, expected);
}

#[test]
fn must_assign_to_proper_fields() {
    let color = SerdeColor::new(12, 34, 56, 78);
    assert_eq!(color.r, 12);
    assert_eq!(color.g, 34);
    assert_eq!(color.b, 56);
    assert_eq!(color.a, 78);
}

#[test]
fn assert_name() {
    let target = Theme::default();
    let result = target.name().clone();
    let expected = "default".to_owned();
    assert_eq!(result, expected);
}

#[test]
fn assert_background() {
    let target = Theme::default();
    let result = target.background().clone();
    let expected = SerdeColor::new(255, 255, 255, 0);
    assert_eq!(result, expected);
}

#[test]
fn assert_border_color() {
    let target = Theme::default();
    let result = target.border_color().clone();
    let expected = SerdeColor::new(0, 0, 0, 0);
    assert_eq!(result, expected);
}

#[test]
fn assert_caret() {
    let target = Theme::default();
    let result = target.caret().clone();
    let expected = CaretColor::default();
    assert_eq!(result, expected);
}

#[test]
fn assert_diff() {
    let target = Theme::default();
    let result = target.diff().clone();
    let expected = DiffColor::default();
    assert_eq!(result, expected);
}

#[test]
fn assert_code_highlighting() {
    let target = Theme::default();
    let result = target.code_highlighting().clone();
    let expected = CodeHighlightingColor::default();
    assert_eq!(result, expected);
}

#[test]
fn assert_images() {
    let target = Theme::default();
    let result = target.images().clone();
    let expected = ThemeImages::default();
    assert_eq!(result, expected);
}

#[test]
fn assert_color() {
    let target = ThemeConfig::new(SerdeColor::new(29, 20, 45, 72), true, false);
    let result = target.color().clone();
    let expected = SerdeColor::new(29, 20, 45, 72);
    assert_eq!(result, expected);
}

#[test]
fn assert_italic() {
    let target = ThemeConfig::new(SerdeColor::new(29, 20, 45, 72), true, false);
    let result = target.italic();
    let expected = true;
    assert_eq!(result, expected);
}

#[test]
fn assert_bold() {
    let target = ThemeConfig::new(SerdeColor::new(29, 20, 45, 72), false, true);
    let result = target.bold();
    let expected = true;
    assert_eq!(result, expected);
}

#[test]
fn railscasts_theme_values() {
    let theme = build_theme();
    assert_eq!(theme.name(), "railscasts");
    assert_eq!(theme.background(), &SerdeColor::new(18, 18, 18, 0));
    assert_eq!(theme.border_color(), &SerdeColor::new(200, 200, 200, 0));
    assert_eq!(theme.caret().bright().color(), &SerdeColor::new(121, 121, 121, 0));
    assert_eq!(theme.caret().blur().color(), &SerdeColor::new(21, 21, 21, 0));
    assert_eq!(
        theme.code_highlighting().whitespace().color(),
        &SerdeColor::new(220, 220, 220, 90)
    );
    assert_eq!(theme.code_highlighting().keyword().color(), &SerdeColor::new(175, 95, 0, 0));
    assert_eq!(theme.code_highlighting().string().color(), &SerdeColor::new(135, 175, 95, 0));
    assert_eq!(
        theme.images().save_icon(),
        "railscasts/images/save-64x64.png".to_string()
    );
}

#[test]
fn default_images_paths() {
    let images = ThemeImages::default();
    assert_eq!(images.directory_icon(), "default/images/directory-64x64.png");
    assert_eq!(images.file_icon(), "default/images/file-64x64.png");
    assert_eq!(images.save_icon(), "default/images/save-64x64.png");
}
