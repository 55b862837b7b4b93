use vstd::prelude::*;

verus! {

/// Shape of the mouse cursor shown over the window.
#[derive(Clone, Copy, Debug, PartialEq, Eq, Structural)]
pub enum CursorIcon {
    Default,
    ContextMenu,
    Help,
    Pointer,
    Progress,
    Wait,
    Cell,
    Crosshair,
    Text,
    VerticalText,
    Alias,
    Copy,
    Move,
    NoDrop,
    NotAllowed,
    Grab,
    Grabbing,
    EResize,
    NResize,
    NeResize,
    NwResize,
    SResize,
    SeResize,
    SwResize,
    WResize,
    EwResize,
    NsResize,
    NeswResize,
    NwseResize,
    ColResize,
    RowResize,
    AllScroll,
    ZoomIn,
    ZoomOut,
}

/// Titlebar and border style requested by the configuration.
#[derive(Clone, Copy, Debug, PartialEq, Eq, Structural)]
pub enum Decorations {
    Full,
    Transparent,
    Buttonless,
    /// No decorations at all.
    Disabled,
}

/// The platform family a window is built for.
#[derive(Clone, Copy, Debug, PartialEq, Eq, Structural)]
pub enum Platform {
    /// Unix desktop without X11 support compiled in.
    Unix,
    /// Unix desktop with X11 support compiled in.
    UnixX11,
    Windows,
    MacOs,
}

/// Light or dark window decorations.
#[derive(Clone, Copy, Debug, PartialEq, Eq, Structural)]
pub enum Theme {
    Light,
    Dark,
}

/// How urgently the window asks for the user's attention.
#[derive(Clone, Copy, Debug, PartialEq, Eq, Structural)]
pub enum UserAttentionType {
    Critical,
    Informational,
}

/// Fullscreen mode of a window.
#[derive(Clone, Copy, Debug, PartialEq, Eq, Structural)]
pub enum Fullscreen {
    /// Borderless fullscreen on the monitor the window is on.
    Borderless,
}

/// Which Option keys act as Alt (macOS).
#[derive(Clone, Copy, Debug, PartialEq, Eq, Structural)]
pub enum OptionAsAlt {
    OnlyLeft,
    OnlyRight,
    Both,
    /// Neither Option key acts as Alt.
    Neither,
}

} // verus!
