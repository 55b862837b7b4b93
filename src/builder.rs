use vstd::prelude::*;

use crate::activation::{take_step, ActivationEnv};
use crate::config::{Class, Identity, Position, WindowConfig};
use crate::types::{CursorIcon, Decorations, Fullscreen, OptionAsAlt, Platform, Theme};
use crate::window::{fullscreen_request, Window};

verus! {

/// Resource identifier of the application icon in the Windows resource script.
pub const IDI_ICON: u16 = 0x101;

/// An icon as 8-bit RGBA pixels, row by row.
#[derive(Clone, Debug)]
pub struct IconImage {
    pub rgba: Vec<u8>,
    pub width: u32,
    pub height: u32,
}

/// Where the window-manager icon comes from.
#[derive(Clone, Debug)]
pub enum WindowIcon {
    /// Pixels decoded from the embedded PNG image.
    Rgba(IconImage),
    /// A numeric resource of the executable, loaded by the platform.
    Resource(u16),
}

/// The embedded icon could not be decoded.
#[derive(Clone, Copy, Debug, PartialEq, Eq, Structural)]
pub enum IconError {
    InvalidEmbeddedIcon,
}

/// macOS titlebar flags of a window.
#[derive(Clone, Copy, Debug, PartialEq, Eq, Structural)]
pub struct TitlebarFlags {
    pub title_hidden: bool,
    pub titlebar_transparent: bool,
    pub fullsize_content_view: bool,
    pub titlebar_buttons_hidden: bool,
    pub titlebar_hidden: bool,
}

/// The platform part of a native window request.
///
/// A field that is `None` leaves the platform's default in place.
#[derive(Clone, Debug)]
pub struct PlatformWindow {
    /// Window-manager class and instance name.
    pub name: Option<Class>,
    /// Whether the window has decorations.
    pub decorations: Option<bool>,
    pub window_icon: Option<WindowIcon>,
    /// Exact X11 visual the window must use.
    pub x11_visual: Option<u32>,
    pub option_as_alt: Option<OptionAsAlt>,
    /// Group of windows that open as tabs of one another.
    pub tabbing_identifier: Option<String>,
    pub titlebar: TitlebarFlags,
}

/// The complete native window request.
#[derive(Clone, Debug)]
pub struct WindowAttributes<T> {
    pub platform: PlatformWindow,
    pub position: Option<Position>,
    /// Token that marks the window as activated by the user.
    pub activation_token: Option<T>,
    /// X11 window to embed the new window into.
    pub embed_parent_window: Option<u32>,
    pub title: String,
    pub theme: Option<Theme>,
    pub visible: bool,
    pub transparent: bool,
    pub blur: bool,
    pub maximized: bool,
    pub fullscreen: Option<Fullscreen>,
}

/// Native settings applied right after the window is built.
#[derive(Clone, Copy, Debug, PartialEq, Eq, Structural)]
pub struct PostBuildSetup {
    pub cursor: CursorIcon,
    pub ime_allowed: bool,
    /// Whether the IME is told that it serves a terminal.
    pub ime_purpose_terminal: bool,
    /// Transparency hint of the window.
    pub transparent: bool,
    /// Whether the native surface is forced to the sRGB color space.
    pub srgb_color_space: bool,
}

/// The macOS titlebar that a decoration mode asks for.
pub open spec fn titlebar_of(decorations: Decorations) -> TitlebarFlags {
    match decorations {
        Decorations::Full => TitlebarFlags {
            title_hidden: false,
            titlebar_transparent: false,
            fullsize_content_view: false,
            titlebar_buttons_hidden: false,
            titlebar_hidden: false,
        },
        Decorations::Transparent => TitlebarFlags {
            title_hidden: true,
            titlebar_transparent: true,
            fullsize_content_view: true,
            titlebar_buttons_hidden: false,
            titlebar_hidden: false,
        },
        Decorations::Buttonless => TitlebarFlags {
            title_hidden: true,
            titlebar_transparent: true,
            fullsize_content_view: true,
            titlebar_buttons_hidden: true,
            titlebar_hidden: false,
        },
        Decorations::Disabled => TitlebarFlags {
            title_hidden: false,
            titlebar_transparent: false,
            fullsize_content_view: false,
            titlebar_buttons_hidden: false,
            titlebar_hidden: true,
        },
    }
}

/// Whether the platform is a Unix desktop.
pub open spec fn is_unix(platform: Platform) -> bool {
    platform == Platform::Unix || platform == Platform::UnixX11
}

/// Pixels, width and height of a PNG image normalized to 8 bits per channel, as
/// decoded by the `png` crate.
pub uninterp spec fn decoded_png(bytes: Seq<u8>) -> Option<(Seq<u8>, u32, u32)>;

/// Relies on `png::Decoder::read_info` and `png::Reader::next_frame` with
/// `Transformations::normalize_to_color8`: the image header decides whether
/// decoding starts, and the pixels depend on the bytes alone.
#[verifier::external_body]
fn decode_png_color8(bytes: &[u8]) -> (r: Option<(Vec<u8>, u32, u32)>)
    ensures
        match r {
            Some(d) => decoded_png(bytes@) == Some((d.0@, d.1, d.2)),
            None => decoded_png(bytes@) is None,
        },
{
    let mut decoder = png::Decoder::new(std::io::Cursor::new(bytes));
    decoder.set_transformations(png::Transformations::normalize_to_color8());
    let mut reader = decoder.read_info().ok()?;
    let mut buf = vec![0; reader.output_buffer_size()];
    let _ = reader.next_frame(&mut buf);
    Some((buf, reader.info().width, reader.info().height))
}

/// Decode the embedded PNG window icon.
pub fn decode_icon(bytes: &[u8]) -> (r: Result<IconImage, IconError>)
    ensures
        match r {
            Ok(icon) => decoded_png(bytes@) == Some((icon.rgba@, icon.width, icon.height)),
            Err(e) => e == IconError::InvalidEmbeddedIcon && decoded_png(bytes@) is None,
        },
{
    match decode_png_color8(bytes) {
        Some((rgba, width, height)) => Ok(IconImage { rgba, width, height }),
        None => Err(IconError::InvalidEmbeddedIcon),
    }
}

/// The macOS titlebar flags for a decoration mode.
pub fn titlebar_flags(decorations: Decorations) -> (r: TitlebarFlags)
    ensures
        r == titlebar_of(decorations),
{
    match decorations {
        Decorations::Full => TitlebarFlags {
            title_hidden: false,
            titlebar_transparent: false,
            fullsize_content_view: false,
            titlebar_buttons_hidden: false,
            titlebar_hidden: false,
        },
        Decorations::Transparent => TitlebarFlags {
            title_hidden: true,
            titlebar_transparent: true,
            fullsize_content_view: true,
            titlebar_buttons_hidden: false,
            titlebar_hidden: false,
        },
        Decorations::Buttonless => TitlebarFlags {
            title_hidden: true,
            titlebar_transparent: true,
            fullsize_content_view: true,
            titlebar_buttons_hidden: true,
            titlebar_hidden: false,
        },
        Decorations::Disabled => TitlebarFlags {
            title_hidden: false,
            titlebar_transparent: false,
            fullsize_content_view: false,
            titlebar_buttons_hidden: false,
            titlebar_hidden: true,
        },
    }
}

fn clone_optional_string(s: &Option<String>) -> (r: Option<String>)
    ensures
        match s {
            Some(t) => r is Some && r->0@ == t@,
            None => r is None,
        },
{
    match s {
        Some(t) => Some(t.clone()),
        None => None,
    }
}

/// What the Unix window-manager name is set to on `platform`.
pub open spec fn name_matches(platform: Platform, name: Option<Class>, identity: Identity) -> bool {
    if is_unix(platform) {
        name is Some && name->0.general@ == identity.class.general@
            && name->0.instance@ == identity.class.instance@
    } else {
        name is None
    }
}

/// What the window icon is set to on `platform`, for the embedded PNG `icon_png`.
pub open spec fn icon_matches(platform: Platform, icon: Option<WindowIcon>, icon_png: Seq<u8>) -> bool {
    match platform {
        Platform::UnixX11 => match icon {
            Some(WindowIcon::Rgba(img)) => decoded_png(icon_png) == Some(
                (img.rgba@, img.width, img.height),
            ),
            _ => false,
        },
        Platform::Windows => icon == Some(WindowIcon::Resource(IDI_ICON)),
        _ => icon is None,
    }
}

/// What the tabbing group is set to on `platform`.
pub open spec fn tabbing_matches(platform: Platform, group: Option<String>, tabbing_id: Option<String>) -> bool {
    if platform == Platform::MacOs {
        match tabbing_id {
            Some(t) => group is Some && group->0@ == t@,
            None => group is None,
        }
    } else {
        group is None
    }
}

impl Window {
    /// The platform part of the native window request.
    ///
    /// `icon_png` is the embedded window icon, decoded on X11 only; `x11_visual`
    /// is used on X11 only and `tabbing_id` on macOS only. The embedded icon is
    /// part of the program, so failing to decode it is a defect of the program.
    pub fn get_platform_window(
        platform: Platform,
        identity: &Identity,
        window_config: &WindowConfig,
        x11_visual: Option<u32>,
        tabbing_id: &Option<String>,
        icon_png: &[u8],
    ) -> (r: Result<PlatformWindow, IconError>)
        ensures
            match r {
                Err(e) => e == IconError::InvalidEmbeddedIcon && platform == Platform::UnixX11
                    && decoded_png(icon_png@) is None,
                Ok(w) => {
                    &&& platform == Platform::UnixX11 ==> decoded_png(icon_png@) is Some
                    &&& name_matches(platform, w.name, *identity)
                    &&& w.decorations == if platform == Platform::MacOs {
                        None
                    } else {
                        Some(window_config.decorations != Decorations::Disabled)
                    }
                    &&& icon_matches(platform, w.window_icon, icon_png@)
                    &&& w.x11_visual == if platform == Platform::UnixX11 {
                        x11_visual
                    } else {
                        None
                    }
                    &&& w.option_as_alt == if platform == Platform::MacOs {
                        Some(window_config.option_as_alt)
                    } else {
                        None
                    }
                    &&& tabbing_matches(platform, w.tabbing_identifier, *tabbing_id)
                    &&& w.titlebar == if platform == Platform::MacOs {
                        titlebar_of(window_config.decorations)
                    } else {
                        titlebar_of(Decorations::Full)
                    }
                },
            },
    {
        let decorations = window_config.decorations != Decorations::Disabled;
        let plain = titlebar_flags(Decorations::Full);
        match platform {
            Platform::Unix | Platform::UnixX11 => {
                let name = Class {
                    general: identity.class.general.clone(),
                    instance: identity.class.instance.clone(),
                };
                let (window_icon, visual) = if platform == Platform::UnixX11 {
                    match decode_icon(icon_png) {
                        Ok(icon) => (Some(WindowIcon::Rgba(icon)), x11_visual),
                        Err(e) => {
                            return Err(e);
                        },
                    }
                } else {
                    (None, None)
                };
                Ok(
                    PlatformWindow {
                        name: Some(name),
                        decorations: Some(decorations),
                        window_icon,
                        x11_visual: visual,
                        option_as_alt: None,
                        tabbing_identifier: None,
                        titlebar: plain,
                    },
                )
            },
            Platform::Windows => Ok(
                PlatformWindow {
                    name: None,
                    decorations: Some(decorations),
                    window_icon: Some(WindowIcon::Resource(IDI_ICON)),
                    x11_visual: None,
                    option_as_alt: None,
                    tabbing_identifier: None,
                    titlebar: plain,
                },
            ),
            Platform::MacOs => Ok(
                PlatformWindow {
                    name: None,
                    decorations: None,
                    window_icon: None,
                    x11_visual: None,
                    option_as_alt: Some(window_config.option_as_alt),
                    tabbing_identifier: clone_optional_string(tabbing_id),
                    titlebar: titlebar_flags(window_config.decorations),
                },
            ),
        }
    }
}


/// Complete the native window request for `identity` and `config`.
///
/// On a Unix desktop the activation token is taken out of `env`, so that no later
/// window reuses it. The parent window is embedded only on X11. The window is
/// requested hidden and transparent: it is shown once it is fully set up.
pub fn window_attributes<T>(
    platform: Platform,
    builder: PlatformWindow,
    identity: &Identity,
    config: &WindowConfig,
    env: &mut ActivationEnv<T>,
    event_loop_is_x11: bool,
) -> (r: WindowAttributes<T>)
    ensures
        r.platform == builder,
        r.position == config.position,
        is_unix(platform) ==> (final(env)@, r.activation_token) == take_step(old(env)@),
        !is_unix(platform) ==> r.activation_token is None && final(env)@ == old(env)@,
        r.embed_parent_window == if platform == Platform::UnixX11 && event_loop_is_x11 {
            config.embed
        } else {
            None
        },
        r.title@ == identity.title@,
        r.theme == config.decorations_theme_variant,
        !r.visible,
        r.transparent,
        r.blur == config.blur,
        r.maximized == config.maximized,
        r.fullscreen == fullscreen_request(config.fullscreen),
{
    let activation_token = if platform == Platform::Unix || platform == Platform::UnixX11 {
        env.take_token()
    } else {
        None
    };
    let embed_parent_window = if platform == Platform::UnixX11 && event_loop_is_x11 {
        config.embed
    } else {
        None
    };
    WindowAttributes {
        platform: builder,
        position: config.position,
        activation_token,
        embed_parent_window,
        title: identity.title.clone(),
        theme: config.decorations_theme_variant,
        visible: false,
        transparent: true,
        blur: config.blur,
        maximized: config.maximized,
        fullscreen: Window::set_fullscreen(config.fullscreen),
    }
}

/// Native settings applied right after the window is built: a text cursor, IME
/// enabled for terminal input, a transparency hint when the configured opacity
/// is below fully opaque, and sRGB colors on macOS.
pub fn post_build_setup(platform: Platform, config: &WindowConfig) -> (r: PostBuildSetup)
    ensures
        r == (PostBuildSetup {
            cursor: CursorIcon::Text,
            ime_allowed: true,
            ime_purpose_terminal: true,
            transparent: config.translucent,
            srgb_color_space: platform == Platform::MacOs,
        }),
{
    PostBuildSetup {
        cursor: CursorIcon::Text,
        ime_allowed: true,
        ime_purpose_terminal: true,
        transparent: config.translucent,
        srgb_color_space: platform == Platform::MacOs,
    }
}

} // verus!
