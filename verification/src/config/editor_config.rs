use vstd::prelude::*;
use super::directories::Directories;
use super::paths::{join_path, joined};

verus! {

/// The text area's font, theme and margins.
#[derive(Clone, Debug, PartialEq)]
pub struct EditorConfig {
    pub character_size: u16,
    pub font_path: String,
    pub current_theme: String,
    pub margin_left: u16,
    pub margin_top: u16,
}

impl EditorConfig {
    /// Size 14 DejaVu Sans Mono from the font directory, the "railscasts"
    /// theme, and margins of 10.
    pub open spec fn is_default_in(&self, directories: Directories) -> bool {
        &&& self.character_size == 14
        &&& self.font_path@ == joined(directories.fonts_dir@, "DejaVuSansMono.ttf"@)
        &&& self.current_theme@ == "railscasts"@
        &&& self.margin_left == 10
        &&& self.margin_top == 10
    }

    pub fn new(directories: &Directories) -> (r: Self)
        ensures
            r.is_default_in(*directories),
    {
        proof {
            reveal_strlit("DejaVuSansMono.ttf");
        }
        Self {
            character_size: 14,
            font_path: join_path(directories.fonts_dir.as_str(), "DejaVuSansMono.ttf"),
            current_theme: "railscasts".to_owned(),
            margin_left: 10,
            margin_top: 10,
        }
    }

    pub fn character_size(&self) -> (r: u16)
        ensures
            r == self.character_size,
    {
        self.character_size
    }

    pub fn font_path(&self) -> (r: &String)
        ensures
            r@ == self.font_path@,
    {
        &self.font_path
    }

    pub fn current_theme(&self) -> (r: &String)
        ensures
            r@ == self.current_theme@,
    {
        &self.current_theme
    }

    pub fn margin_left(&self) -> (r: u16)
        ensures
            r == self.margin_left,
    {
        self.margin_left
    }

    pub fn margin_top(&self) -> (r: u16)
        ensures
            r == self.margin_top,
    {
        self.margin_top
    }
}

} // verus!
