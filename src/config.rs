use vstd::prelude::*;

use crate::types::{Decorations, OptionAsAlt, Theme};

verus! {

/// Window-manager class of a window.
#[derive(Clone, Debug)]
pub struct Class {
    pub general: String,
    pub instance: String,
}

/// Title and class a window is created with.
#[derive(Clone, Debug)]
pub struct Identity {
    pub title: String,
    pub class: Class,
}

/// Initial position of a window, in physical pixels.
#[derive(Clone, Copy, Debug, PartialEq, Eq, Structural)]
pub struct Position {
    pub x: i32,
    pub y: i32,
}

/// The configuration a window is created from.
#[derive(Clone, Copy, Debug, PartialEq, Eq, Structural)]
pub struct WindowConfig {
    pub decorations: Decorations,
    pub position: Option<Position>,
    pub maximized: bool,
    pub fullscreen: bool,
    pub blur: bool,
    /// Whether the configured opacity is below fully opaque.
    pub translucent: bool,
    pub decorations_theme_variant: Option<Theme>,
    /// Parent window to embed into (X11 only).
    pub embed: Option<u32>,
    pub option_as_alt: OptionAsAlt,
}

} // verus!
