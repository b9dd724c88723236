//! The editor's settings: window size, fonts, theme, scrolling, and the
//! directories it keeps its files in.

pub mod directories;
pub mod editor_config;
pub mod paths;
pub mod scroll_config;
pub mod settings;

use vstd::prelude::*;
use settings::Config;

verus! {

/// Anything that can hand out the editor's settings.
pub trait ConfigHolder {
    /// The settings the holder keeps.
    spec fn held_config(&self) -> Config;

    /// Hands out the settings the holder keeps.
    fn config(&self) -> (r: &Config)
        ensures
            *r == self.held_config(),
    ;
}

/// The settings hold themselves.
impl ConfigHolder for Config {
    open spec fn held_config(&self) -> Config {
        *self
    }

    fn config(&self) -> (r: &Config) {
        self
    }
}

} // verus!
