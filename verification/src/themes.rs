//! Colour themes: the colours of the editor's parts and of each kind of
//! token, with the icons that go with them.

use vstd::prelude::*;

verus! {

/// A colour with red, green, blue and alpha channels.
#[derive(Clone, Copy, Debug, PartialEq, Eq, Structural)]
pub struct SerdeColor {
    pub r: u8,
    pub g: u8,
    pub b: u8,
    pub a: u8,
}

impl SerdeColor {
    pub fn new(r: u8, g: u8, b: u8, a: u8) -> (res: Self)
        ensures
            res == (SerdeColor { r, g, b, a }),
    {
        Self { r, g, b, a }
    }
}

pub open spec fn rgba(r: u8, g: u8, b: u8, a: u8) -> SerdeColor {
    SerdeColor { r, g, b, a }
}

/// How text of one kind is drawn: its colour and style.
#[derive(Clone, Copy, Debug, PartialEq, Eq, Structural)]
pub struct ThemeConfig {
    pub color: SerdeColor,
    pub italic: bool,
    pub bold: bool,
}

pub open spec fn plain_style(color: SerdeColor) -> ThemeConfig {
    ThemeConfig { color, italic: false, bold: false }
}

impl ThemeConfig {
    pub fn new(color: SerdeColor, italic: bool, bold: bool) -> (r: Self)
        ensures
            r == (ThemeConfig { color, italic, bold }),
    {
        Self { color, italic, bold }
    }

    pub fn color(&self) -> (r: &SerdeColor)
        ensures
            *r == self.color,
    {
        &self.color
    }

    pub fn italic(&self) -> (r: bool)
        ensures
            r == self.italic,
    {
        self.italic
    }

    pub fn bold(&self) -> (r: bool)
        ensures
            r == self.bold,
    {
        self.bold
    }
}

/// The caret's colour when the window has focus and when it has not.
#[derive(Clone, Copy, Debug, PartialEq, Eq, Structural)]
pub struct CaretColor {
    pub bright: ThemeConfig,
    pub blur: ThemeConfig,
}

impl CaretColor {
    pub fn new(bright: ThemeConfig, blur: ThemeConfig) -> (r: Self)
        ensures
            r == (CaretColor { bright, blur }),
    {
        Self { bright, blur }
    }

    pub fn bright(&self) -> (r: &ThemeConfig)
        ensures
            *r == self.bright,
    {
        &self.bright
    }

    pub fn blur(&self) -> (r: &ThemeConfig)
        ensures
            *r == self.blur,
    {
        &self.blur
    }

    pub open spec fn default_value() -> CaretColor {
        CaretColor {
            bright: plain_style(rgba(120, 120, 120, 0)),
            blur: plain_style(rgba(0, 0, 0, 0)),
        }
    }
}

impl Default for CaretColor {
    fn default() -> (r: Self)
        ensures
            r == CaretColor::default_value(),
    {
        CaretColor::new(
            ThemeConfig::new(SerdeColor::new(120, 120, 120, 0), false, false),
            ThemeConfig::new(SerdeColor::new(0, 0, 0, 0), false, false),
        )
    }
}

/// Colours of the lines of a diff.
#[derive(Clone, Copy, Debug, PartialEq, Eq, Structural)]
pub struct DiffColor {
    pub text: ThemeConfig,
    pub deleted: ThemeConfig,
    pub changed: ThemeConfig,
    pub background: ThemeConfig,
}

impl DiffColor {
    pub fn new(text: ThemeConfig, deleted: ThemeConfig, changed: ThemeConfig, background: ThemeConfig) -> (r: Self)
        ensures
            r == (DiffColor { text, deleted, changed, background }),
    {
        Self { text, deleted, changed, background }
    }

    pub open spec fn default_value() -> DiffColor {
        DiffColor {
            text: plain_style(rgba(0, 0, 0, 0)),
            deleted: plain_style(rgba(200, 0, 0, 0)),
            changed: plain_style(rgba(200, 200, 0, 0)),
            background: plain_style(rgba(255, 255, 255, 0)),
        }
    }
}

impl Default for DiffColor {
    fn default() -> (r: Self)
        ensures
            r == DiffColor::default_value(),
    {
        DiffColor::new(
            ThemeConfig::new(SerdeColor::new(0, 0, 0, 0), false, false),
            ThemeConfig::new(SerdeColor::new(200, 0, 0, 0), false, false),
            ThemeConfig::new(SerdeColor::new(200, 200, 0, 0), false, false),
            ThemeConfig::new(SerdeColor::new(255, 255, 255, 0), false, false),
        )
    }
}

/// Colours of each kind of source text.
#[derive(Clone, Copy, Debug, PartialEq, Eq, Structural)]
pub struct CodeHighlightingColor {
    pub comment: ThemeConfig,
    pub constant: ThemeConfig,
    pub error: ThemeConfig,
    pub warning: ThemeConfig,
    pub identifier: ThemeConfig,
    pub keyword: ThemeConfig,
    pub literal: ThemeConfig,
    pub number: ThemeConfig,
    pub operator: ThemeConfig,
    pub separator: ThemeConfig,
    pub statement: ThemeConfig,
    pub string: ThemeConfig,
    pub title: ThemeConfig,
    pub type_: ThemeConfig,
    pub todo: ThemeConfig,
    pub pre_proc: ThemeConfig,
    pub special: ThemeConfig,
    pub whitespace: ThemeConfig,
}

impl CodeHighlightingColor {
    pub fn comment(&self) -> (r: &ThemeConfig)
        ensures
            *r == self.comment,
    {
        &self.comment
    }

    pub fn identifier(&self) -> (r: &ThemeConfig)
        ensures
            *r == self.identifier,
    {
        &self.identifier
    }

    pub fn keyword(&self) -> (r: &ThemeConfig)
        ensures
            *r == self.keyword,
    {
        &self.keyword
    }

    pub fn literal(&self) -> (r: &ThemeConfig)
        ensures
            *r == self.literal,
    {
        &self.literal
    }

    pub fn operator(&self) -> (r: &ThemeConfig)
        ensures
            *r == self.operator,
    {
        &self.operator
    }

    pub fn separator(&self) -> (r: &ThemeConfig)
        ensures
            *r == self.separator,
    {
        &self.separator
    }

    pub fn string(&self) -> (r: &ThemeConfig)
        ensures
            *r == self.string,
    {
        &self.string
    }

    pub fn whitespace(&self) -> (r: &ThemeConfig)
        ensures
            *r == self.whitespace,
    {
        &self.whitespace
    }

    /// Every kind in the one style.
    pub open spec fn uniform(style: ThemeConfig) -> CodeHighlightingColor {
        CodeHighlightingColor {
            comment: style,
            constant: style,
            error: style,
            warning: style,
            identifier: style,
            keyword: style,
            literal: style,
            number: style,
            operator: style,
            separator: style,
            statement: style,
            string: style,
            title: style,
            type_: style,
            todo: style,
            pre_proc: style,
            special: style,
            whitespace: style,
        }
    }

    pub open spec fn default_value() -> CodeHighlightingColor {
        CodeHighlightingColor::uniform(plain_style(rgba(0, 0, 0, 0)))
    }
}

impl Default for CodeHighlightingColor {
    fn default() -> (r: Self)
        ensures
            r == CodeHighlightingColor::default_value(),
    {
        let style = ThemeConfig::new(SerdeColor::new(0, 0, 0, 0), false, false);
        CodeHighlightingColor {
            comment: style,
            constant: style,
            error: style,
            warning: style,
            identifier: style,
            keyword: style,
            literal: style,
            number: style,
            operator: style,
            separator: style,
            statement: style,
            string: style,
            title: style,
            type_: style,
            todo: style,
            pre_proc: style,
            special: style,
            whitespace: style,
        }
    }
}

/// Paths of the icons that a theme draws.
#[derive(Clone, Debug, PartialEq)]
pub struct ThemeImages {
    pub directory_icon: String,
    pub file_icon: String,
    pub save_icon: String,
}

impl ThemeImages {
    pub fn new(directory_icon: String, file_icon: String, save_icon: String) -> (r: Self)
        ensures
            r.directory_icon@ == directory_icon@,
            r.file_icon@ == file_icon@,
            r.save_icon@ == save_icon@,
    {
        Self { file_icon, directory_icon, save_icon }
    }

    pub fn directory_icon(&self) -> (r: String)
        ensures
            r@ == self.directory_icon@,
    {
        self.directory_icon.clone()
    }

    pub fn file_icon(&self) -> (r: String)
        ensures
            r@ == self.file_icon@,
    {
        self.file_icon.clone()
    }

    pub fn save_icon(&self) -> (r: String)
        ensures
            r@ == self.save_icon@,
    {
        self.save_icon.clone()
    }
}

impl Default for ThemeImages {
    fn default() -> (r: Self)
        ensures
            r.directory_icon@ == "default/images/directory-64x64.png"@,
            r.file_icon@ == "default/images/file-64x64.png"@,
            r.save_icon@ == "default/images/save-64x64.png"@,
    {
        Self {
            directory_icon: "default/images/directory-64x64.png".to_owned(),
            file_icon: "default/images/file-64x64.png".to_owned(),
            save_icon: "default/images/save-64x64.png".to_owned(),
        }
    }
}

/// A named set of colours and icons.
#[derive(Clone, Debug, PartialEq)]
pub struct Theme {
    pub name: String,
    pub background: SerdeColor,
    pub border_color: SerdeColor,
    pub caret: CaretColor,
    pub code_highlighting: CodeHighlightingColor,
    pub diff: DiffColor,
    pub images: ThemeImages,
}

impl Theme {
    pub fn new(
        name: String,
        background: SerdeColor,
        border_color: SerdeColor,
        caret: CaretColor,
        code_highlighting: CodeHighlightingColor,
        diff: DiffColor,
        images: ThemeImages,
    ) -> (r: Self)
        ensures
            r.name@ == name@,
            r.background == background,
            r.border_color == border_color,
            r.caret == caret,
            r.code_highlighting == code_highlighting,
            r.diff == diff,
            r.images == images,
    {
        Self { name, background, border_color, caret, code_highlighting, diff, images }
    }

    pub fn name(&self) -> (r: &String)
        ensures
            r@ == self.name@,
    {
        &self.name
    }

    pub fn background(&self) -> (r: &SerdeColor)
        ensures
            *r == self.background,
    {
        &self.background
    }

    pub fn border_color(&self) -> (r: &SerdeColor)
        ensures
            *r == self.border_color,
    {
        &self.border_color
    }

    pub fn caret(&self) -> (r: &CaretColor)
        ensures
            *r == self.caret,
    {
        &self.caret
    }

    pub fn diff(&self) -> (r: &DiffColor)
        ensures
            *r == self.diff,
    {
        &self.diff
    }

    pub fn code_highlighting(&self) -> (r: &CodeHighlightingColor)
        ensures
            *r == self.code_highlighting,
    {
        &self.code_highlighting
    }

    pub fn images(&self) -> (r: &ThemeImages)
        ensures
            *r == self.images,
    {
        &self.images
    }

    /// The theme that the editor starts with: white background, black border.
    pub open spec fn is_default(&self) -> bool {
        &&& self.name@ == "default"@
        &&& self.background == rgba(255, 255, 255, 0)
        &&& self.border_color == rgba(0, 0, 0, 0)
        &&& self.caret == CaretColor::default_value()
        &&& self.code_highlighting == CodeHighlightingColor::default_value()
        &&& self.diff == DiffColor::default_value()
        &&& self.images.directory_icon@ == "default/images/directory-64x64.png"@
        &&& self.images.file_icon@ == "default/images/file-64x64.png"@
        &&& self.images.save_icon@ == "default/images/save-64x64.png"@
    }
}

impl Default for Theme {
    fn default() -> (r: Self)
        ensures
            r.is_default(),
    {
        Self {
            name: "default".to_owned(),
            background: SerdeColor::new(255, 255, 255, 0),
            border_color: SerdeColor::new(0, 0, 0, 0),
            caret: CaretColor::default(),
            code_highlighting: CodeHighlightingColor::default(),
            diff: DiffColor::default(),
            images: ThemeImages::default(),
        }
    }
}

/// The dark "railscasts" theme.
pub fn build_theme() -> (r: Theme)
    ensures
        r.name@ == "railscasts"@,
        r.background == rgba(18, 18, 18, 0),
        r.border_color == rgba(200, 200, 200, 0),
        r.caret.bright == plain_style(rgba(121, 121, 121, 0)),
        r.caret.blur == plain_style(rgba(21, 21, 21, 0)),
        r.code_highlighting.comment == plain_style(rgba(175, 135, 95, 0)),
        r.code_highlighting.constant == plain_style(rgba(109, 156, 190, 0)),
        r.code_highlighting.error == plain_style(rgba(255, 255, 255, 0)),
        r.code_highlighting.warning == plain_style(rgba(128, 0, 0, 0)),
        r.code_highlighting.identifier == plain_style(rgba(175, 95, 95, 0)),
        r.code_highlighting.keyword == plain_style(rgba(175, 95, 0, 0)),
        r.code_highlighting.literal == plain_style(rgba(228, 228, 228, 0)),
        r.code_highlighting.number == plain_style(rgba(135, 175, 95, 0)),
        r.code_highlighting.operator == plain_style(rgba(228, 228, 228, 0)),
        r.code_highlighting.separator == plain_style(rgba(228, 228, 228, 0)),
        r.code_highlighting.statement == plain_style(rgba(175, 95, 0, 0)),
        r.code_highlighting.string == plain_style(rgba(135, 175, 95, 0)),
        r.code_highlighting.title == plain_style(rgba(255, 255, 255, 0)),
        r.code_highlighting.type_ == plain_style(rgba(223, 95, 95, 0)),
        r.code_highlighting.todo == plain_style(rgba(223, 95, 95, 0)),
        r.code_highlighting.pre_proc == plain_style(rgba(255, 135, 0, 0)),
        r.code_highlighting.special == plain_style(rgba(0, 95, 0, 0)),
        r.code_highlighting.whitespace == plain_style(rgba(220, 220, 220, 90)),
        r.diff == DiffColor::new_spec(
            plain_style(rgba(228, 228, 228, 0)),
            plain_style(rgba(102, 0, 0, 0)),
            plain_style(rgba(135, 0, 135, 0)),
            plain_style(rgba(18, 18, 18, 0)),
        ),
        r.images.directory_icon@ == "railscasts/images/directory-64x64.png"@,
        r.images.file_icon@ == "railscasts/images/file-64x64.png"@,
        r.images.save_icon@ == "railscasts/images/save-64x64.png"@,
{
    Theme::new(
        "railscasts".to_owned(),
        SerdeColor::new(18, 18, 18, 0),
        SerdeColor::new(200, 200, 200, 0),
        CaretColor::new(
            ThemeConfig::new(SerdeColor::new(121, 121, 121, 0), false, false),
            ThemeConfig::new(SerdeColor::new(21, 21, 21, 0), false, false),
        ),
        CodeHighlightingColor {
            comment: ThemeConfig::new(SerdeColor::new(175, 135, 95, 0), false, false),
            constant: ThemeConfig::new(SerdeColor::new(109, 156, 190, 0), false, false),
            error: ThemeConfig::new(SerdeColor::new(255, 255, 255, 0), false, false),
            warning: ThemeConfig::new(SerdeColor::new(128, 0, 0, 0), false, false),
            identifier: ThemeConfig::new(SerdeColor::new(175, 95, 95, 0), false, false),
            keyword: ThemeConfig::new(SerdeColor::new(175, 95, 0, 0), false, false),
            literal: ThemeConfig::new(SerdeColor::new(228, 228, 228, 0), false, false),
            number: ThemeConfig::new(SerdeColor::new(135, 175, 95, 0), false, false),
            operator: ThemeConfig::new(SerdeColor::new(228, 228, 228, 0), false, false),
            separator: ThemeConfig::new(SerdeColor::new(228, 228, 228, 0), false, false),
            statement: ThemeConfig::new(SerdeColor::new(175, 95, 0, 0), false, false),
            string: ThemeConfig::new(SerdeColor::new(135, 175, 95, 0), false, false),
            title: ThemeConfig::new(SerdeColor::new(255, 255, 255, 0), false, false),
            type_: ThemeConfig::new(SerdeColor::new(223, 95, 95, 0), false, false),
            todo: ThemeConfig::new(SerdeColor::new(223, 95, 95, 0), false, false),
            pre_proc: ThemeConfig::new(SerdeColor::new(255, 135, 0, 0), false, false),
            special: ThemeConfig::new(SerdeColor::new(0, 95, 0, 0), false, false),
            whitespace: ThemeConfig::new(SerdeColor::new(220, 220, 220, 90), false, false),
        },
        DiffColor::new(
            ThemeConfig::new(SerdeColor::new(228, 228, 228, 0), false, false),
            ThemeConfig::new(SerdeColor::new(102, 0, 0, 0), false, false),
            ThemeConfig::new(SerdeColor::new(135, 0, 135, 0), false, false),
            ThemeConfig::new(SerdeColor::new(18, 18, 18, 0), false, false),
        ),
        ThemeImages::new(
            "railscasts/images/directory-64x64.png".to_owned(),
            "railscasts/images/file-64x64.png".to_owned(),
            "railscasts/images/save-64x64.png".to_owned(),
        ),
    )
}

impl DiffColor {
    pub open spec fn new_spec(text: ThemeConfig, deleted: ThemeConfig, changed: ThemeConfig, background: ThemeConfig) -> DiffColor {
        DiffColor { text, deleted, changed, background }
    }
}

} // verus!
