//! Color-scheme selection, kept as plain data; rendering is a caller concern.

use vstd::prelude::*;

verus! {

/// Color scheme of the user interface.
#[derive(Debug, PartialEq, Eq, Copy, Clone, Structural)]
pub enum Theme {
    /// Dark or light, following the operating system's preference.
    Auto,
    /// Dark-ish and purple.
    Lupin,
    /// White on black.
    Dark,
    /// Black on white.
    Light,
}

impl Theme {
    /// Canonical name of the theme, as persisted in configuration files.
    pub fn name(self) -> (r: &'static str)
        ensures
            self == Theme::Auto ==> r@ == "Auto"@,
            self == Theme::Lupin ==> r@ == "Lupin"@,
            self == Theme::Dark ==> r@ == "Dark"@,
            self == Theme::Light ==> r@ == "Light"@,
    {
        match self {
            Theme::Auto => "Auto",
            Theme::Lupin => "Lupin",
            Theme::Dark => "Dark",
            Theme::Light => "Light",
        }
    }
}

impl Default for Theme {
    /// The default scheme follows the operating system.
    fn default() -> (r: Self)
        ensures
            r == Theme::Auto,
    {
        Theme::Auto
    }
}

} // verus!
