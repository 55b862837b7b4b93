//! Platform-uniform window model for a terminal emulator.
//!
//! The library decides, the native windowing layer acts: every mutator of
//! [`Window`] updates the cached window state and reports which native call (if
//! any) has to be issued, and the builder functions describe the native window
//! request that a platform needs.
pub mod activation;
pub mod builder;
pub mod config;
pub mod laws;
pub mod types;
pub mod window;

pub use activation::ActivationEnv;
pub use builder::{
    decode_icon, post_build_setup, titlebar_flags, window_attributes, IconError, IconImage,
    PlatformWindow, PostBuildSetup, TitlebarFlags, WindowAttributes, WindowIcon, IDI_ICON,
};
pub use config::{Class, Identity, Position, WindowConfig};
pub use types::{
    CursorIcon, Decorations, Fullscreen, OptionAsAlt, Platform, Theme, UserAttentionType,
};
pub use window::{ImeArea, Point, SizeInfo, Window, WindowView};
