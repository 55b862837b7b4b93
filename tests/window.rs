use alacritty_window::{
    decode_icon, post_build_setup, titlebar_flags, window_attributes, ActivationEnv, Class,
    CursorIcon, Decorations, Fullscreen, IconError, Identity, ImeArea, OptionAsAlt, Platform,
    Point, Position, SizeInfo, Theme, TitlebarFlags, UserAttentionType, Window, WindowConfig,
    WindowIcon, IDI_ICON,
};

fn identity() -> Identity {
    Identity {
        title: String::from("Alacritty"),
        class: Class { general: String::from("Alacritty"), instance: String::from("alacritty") },
    }
}

fn config(decorations: Decorations) -> WindowConfig {
    WindowConfig {
        decorations,
        position: Some(Position { x: 10, y: -20 }),
        maximized: true,
        fullscreen: false,
        blur: true,
        translucent: false,
        decorations_theme_variant: Some(Theme::Dark),
        embed: Some(77),
        option_as_alt: OptionAsAlt::OnlyLeft,
    }
}

fn cells() -> SizeInfo {
    SizeInfo { padding_x: 0, padding_y: 0, cell_width: 10, cell_height: 20 }
}

/// A 2x1 RGBA image: one red pixel, one half-transparent blue one.
fn png_bytes() -> Vec<u8> {
    let mut out = Vec::new();
    {
        let mut encoder = png::Encoder::new(&mut out, 2, 1);
        encoder.set_color(png::ColorType::Rgba);
        encoder.set_depth(png::BitDepth::Eight);
        let mut writer = encoder.write_header().unwrap();
        writer.write_image_data(&[255, 0, 0, 255, 0, 0, 255, 128]).unwrap();
    }
    out
}

#[test]
fn new_window_state() {
    let window = Window::new(&identity(), false);
    assert!(window.has_frame);
    assert!(!window.requested_redraw);
    assert_eq!(window.title(), "Alacritty");
    assert_eq!(window.mouse_cursor(), CursorIcon::Text);
    assert!(window.mouse_visible());
    assert!(!window.is_x11());
}

#[test]
fn cursor_shape_is_sent_once() {
    let mut window = Window::new(&identity(), false);
    assert!(!window.set_mouse_cursor(CursorIcon::Text));
    assert!(window.set_mouse_cursor(CursorIcon::Pointer));
    assert!(!window.set_mouse_cursor(CursorIcon::Pointer));
    assert_eq!(window.mouse_cursor(), CursorIcon::Pointer);
}

#[test]
fn cursor_visibility_is_sent_once() {
    let mut window = Window::new(&identity(), false);
    assert!(!window.set_mouse_visible(true));
    assert!(window.set_mouse_visible(false));
    assert!(!window.set_mouse_visible(false));
    assert!(!window.mouse_visible());
    assert!(window.set_mouse_visible(true));
}

#[test]
fn title_is_sent_once() {
    let mut window = Window::new(&identity(), false);
    assert!(!window.set_title(String::from("Alacritty")));
    assert!(window.set_title(String::from("vim")));
    assert!(!window.set_title(String::from("vim")));
    assert_eq!(window.title(), "vim");
}

#[test]
fn redraw_requests_coalesce() {
    let mut window = Window::new(&identity(), false);
    assert!(window.request_redraw());
    assert!(!window.request_redraw());
    assert!(window.requested_redraw);
    window.requested_redraw = false;
    assert!(window.request_redraw());
}

#[test]
fn ime_position_on_x11() {
    let window = Window::new(&identity(), true);
    let area = window.update_ime_position(Point { line: 0, column: 0 }, &cells());
    assert_eq!(area, ImeArea { x: 0, y: 20, width: 20, height: 20 });
}

#[test]
fn ime_position_elsewhere() {
    let window = Window::new(&identity(), false);
    let area = window.update_ime_position(Point { line: 0, column: 0 }, &cells());
    assert_eq!(area, ImeArea { x: 0, y: 0, width: 20, height: 20 });
}

#[test]
fn ime_position_with_padding() {
    let size = SizeInfo { padding_x: 5, padding_y: 7, cell_width: 9, cell_height: 18 };
    let window = Window::new(&identity(), true);
    let area = window.update_ime_position(Point { line: 3, column: 4 }, &size);
    assert_eq!(area, ImeArea { x: 41, y: 79, width: 18, height: 18 });
    let window = Window::new(&identity(), false);
    let area = window.update_ime_position(Point { line: 3, column: 4 }, &size);
    assert_eq!(area, ImeArea { x: 41, y: 61, width: 18, height: 18 });
}

#[test]
fn ime_position_largest_grid() {
    let size = SizeInfo {
        padding_x: u32::MAX,
        padding_y: u32::MAX,
        cell_width: u32::MAX,
        cell_height: u32::MAX,
    };
    let window = Window::new(&identity(), true);
    let area = window.update_ime_position(Point { line: usize::MAX, column: usize::MAX }, &size);
    let m = u32::MAX as u128;
    let c = usize::MAX as u128;
    assert_eq!(area.x, m + c * m);
    assert_eq!(area.y, m + (c + 1) * m);
    assert_eq!(area.width, 2 * m);
}

#[test]
fn ime_toggle_suppressed_on_x11() {
    let window = Window::new(&identity(), true);
    assert_eq!(window.set_ime_allowed(false), None);
    assert_eq!(window.set_ime_allowed(true), None);
    let window = Window::new(&identity(), false);
    assert_eq!(window.set_ime_allowed(false), Some(false));
    assert_eq!(window.set_ime_allowed(true), Some(true));
}

#[test]
fn fullscreen_toggles_back() {
    let first = Window::toggle_fullscreen(false);
    assert_eq!(first, Some(Fullscreen::Borderless));
    let second = Window::toggle_fullscreen(first.is_some());
    assert_eq!(second, None);
    assert_eq!(Window::set_fullscreen(true), Some(Fullscreen::Borderless));
    assert_eq!(Window::set_fullscreen(false), None);
}

#[test]
fn maximized_and_simple_fullscreen_toggle() {
    assert!(Window::toggle_maximized(false));
    assert!(!Window::toggle_maximized(true));
    assert!(Window::toggle_simple_fullscreen(false));
    assert!(!Window::toggle_simple_fullscreen(true));
}

#[test]
fn urgency_maps_to_critical_attention() {
    assert_eq!(Window::set_urgent(true), Some(UserAttentionType::Critical));
    assert_eq!(Window::set_urgent(false), None);
}

#[test]
fn last_tab_index() {
    assert_eq!(Window::select_last_tab(0), None);
    assert_eq!(Window::select_last_tab(1), Some(0));
    assert_eq!(Window::select_last_tab(4), Some(3));
}

#[test]
fn titlebar_for_each_decoration() {
    let full = titlebar_flags(Decorations::Full);
    assert_eq!(
        full,
        TitlebarFlags {
            title_hidden: false,
            titlebar_transparent: false,
            fullsize_content_view: false,
            titlebar_buttons_hidden: false,
            titlebar_hidden: false,
        }
    );
    let none = titlebar_flags(Decorations::Disabled);
    assert!(none.titlebar_hidden);
    assert!(!none.title_hidden && !none.titlebar_buttons_hidden);
    let transparent = titlebar_flags(Decorations::Transparent);
    let buttonless = titlebar_flags(Decorations::Buttonless);
    for t in [transparent, buttonless] {
        assert!(t.title_hidden && t.titlebar_transparent && t.fullsize_content_view);
        assert!(!t.titlebar_hidden);
    }
    assert!(!transparent.titlebar_buttons_hidden);
    assert!(buttonless.titlebar_buttons_hidden);
}

#[test]
fn decode_icon_gives_rgba_pixels() {
    let icon = decode_icon(&png_bytes()).unwrap();
    assert_eq!(icon.width, 2);
    assert_eq!(icon.height, 1);
    assert_eq!(icon.rgba, vec![255, 0, 0, 255, 0, 0, 255, 128]);
}

#[test]
fn decode_icon_rejects_garbage() {
    assert_eq!(decode_icon(b"not a png").err(), Some(IconError::InvalidEmbeddedIcon));
}

#[test]
fn platform_window_unix() {
    let id = identity();
    let w = Window::get_platform_window(
        Platform::Unix,
        &id,
        &config(Decorations::Disabled),
        Some(5),
        &Some(String::from("tabs")),
        b"",
    )
    .unwrap();
    let name = w.name.unwrap();
    assert_eq!(name.general, "Alacritty");
    assert_eq!(name.instance, "alacritty");
    assert_eq!(w.decorations, Some(false));
    assert!(w.window_icon.is_none());
    assert_eq!(w.x11_visual, None);
    assert_eq!(w.option_as_alt, None);
    assert_eq!(w.tabbing_identifier, None);
    assert_eq!(w.titlebar, titlebar_flags(Decorations::Full));
}

#[test]
fn platform_window_x11() {
    let id = identity();
    let png = png_bytes();
    let w = Window::get_platform_window(
        Platform::UnixX11,
        &id,
        &config(Decorations::Full),
        Some(5),
        &None,
        &png,
    )
    .unwrap();
    assert_eq!(w.decorations, Some(true));
    assert_eq!(w.x11_visual, Some(5));
    match w.window_icon {
        Some(WindowIcon::Rgba(icon)) => {
            assert_eq!((icon.width, icon.height), (2, 1));
            assert_eq!(icon.rgba.len(), 8);
        },
        _ => panic!("expected the decoded icon"),
    }
}

#[test]
fn platform_window_x11_bad_icon() {
    let id = identity();
    let r = Window::get_platform_window(
        Platform::UnixX11,
        &id,
        &config(Decorations::Full),
        None,
        &None,
        b"\x89PNG broken",
    );
    assert_eq!(r.err(), Some(IconError::InvalidEmbeddedIcon));
}

#[test]
fn platform_window_windows() {
    let id = identity();
    let w = Window::get_platform_window(
        Platform::Windows,
        &id,
        &config(Decorations::Transparent),
        Some(5),
        &None,
        b"",
    )
    .unwrap();
    assert!(w.name.is_none());
    assert_eq!(w.decorations, Some(true));
    assert!(matches!(w.window_icon, Some(WindowIcon::Resource(IDI_ICON))));
    assert_eq!(IDI_ICON, 0x101);
}

#[test]
fn platform_window_macos() {
    let id = identity();
    let w = Window::get_platform_window(
        Platform::MacOs,
        &id,
        &config(Decorations::Buttonless),
        Some(5),
        &Some(String::from("tabs")),
        b"",
    )
    .unwrap();
    assert!(w.name.is_none());
    assert_eq!(w.decorations, None);
    assert!(w.window_icon.is_none());
    assert_eq!(w.x11_visual, None);
    assert_eq!(w.option_as_alt, Some(OptionAsAlt::OnlyLeft));
    assert_eq!(w.tabbing_identifier.as_deref(), Some("tabs"));
    assert_eq!(w.titlebar, titlebar_flags(Decorations::Buttonless));
}

#[test]
fn activation_token_is_used_once() {
    let id = identity();
    let cfg = config(Decorations::Full);
    let mut env = ActivationEnv::new(Some(String::from("token-1")));
    let base = Window::get_platform_window(Platform::Unix, &id, &cfg, None, &None, b"").unwrap();
    let first = window_attributes(Platform::Unix, base.clone(), &id, &cfg, &mut env, false);
    assert_eq!(first.activation_token.as_deref(), Some("token-1"));
    assert!(!env.has_token());
    let second = window_attributes(Platform::Unix, base, &id, &cfg, &mut env, false);
    assert_eq!(second.activation_token, None);
}

#[test]
fn activation_token_left_alone_off_unix() {
    let id = identity();
    let cfg = config(Decorations::Full);
    let mut env = ActivationEnv::new(Some(String::from("token-1")));
    let base = Window::get_platform_window(Platform::Windows, &id, &cfg, None, &None, b"").unwrap();
    let attrs = window_attributes(Platform::Windows, base, &id, &cfg, &mut env, false);
    assert_eq!(attrs.activation_token, None);
    assert!(env.has_token());
}

#[test]
fn window_attributes_from_config() {
    let id = identity();
    let mut cfg = config(Decorations::Full);
    cfg.fullscreen = true;
    let mut env: ActivationEnv<String> = ActivationEnv::new(None);
    let png = png_bytes();
    let base = Window::get_platform_window(Platform::UnixX11, &id, &cfg, None, &None, &png).unwrap();
    let attrs = window_attributes(Platform::UnixX11, base.clone(), &id, &cfg, &mut env, true);
    assert_eq!(attrs.position, Some(Position { x: 10, y: -20 }));
    assert_eq!(attrs.embed_parent_window, Some(77));
    assert_eq!(attrs.title, "Alacritty");
    assert_eq!(attrs.theme, Some(Theme::Dark));
    assert!(!attrs.visible);
    assert!(attrs.transparent);
    assert!(attrs.blur);
    assert!(attrs.maximized);
    assert_eq!(attrs.fullscreen, Some(Fullscreen::Borderless));
    let wayland = window_attributes(Platform::UnixX11, base, &id, &cfg, &mut env, false);
    assert_eq!(wayland.embed_parent_window, None);
}

#[test]
fn setup_after_build() {
    let mut cfg = config(Decorations::Full);
    let setup = post_build_setup(Platform::Unix, &cfg);
    assert_eq!(setup.cursor, CursorIcon::Text);
    assert!(setup.ime_allowed && setup.ime_purpose_terminal);
    assert!(!setup.transparent);
    assert!(!setup.srgb_color_space);
    cfg.translucent = true;
    let setup = post_build_setup(Platform::MacOs, &cfg);
    assert!(setup.transparent);
    assert!(setup.srgb_color_space);
}
