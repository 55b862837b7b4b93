use vstd::prelude::*;

use crate::config::Identity;
use crate::types::{CursorIcon, Fullscreen, UserAttentionType};

verus! {

/// What a [`Window`] remembers of the native window.
pub struct WindowView {
    pub has_frame: bool,
    pub requested_redraw: bool,
    pub title: Seq<char>,
    pub is_x11: bool,
    pub current_mouse_cursor: CursorIcon,
    pub mouse_visible: bool,
}

/// State of a native window as last pushed to it.
///
/// Each cached field equals the last value sent to the native window, so that a
/// mutator can tell whether the native call is needed at all. The mutators update
/// the cache and return what the caller has to forward to the native window.
pub struct Window {
    /// Flag tracking that we have a frame we can draw.
    pub has_frame: bool,
    /// Flag indicating whether redraw was requested.
    pub requested_redraw: bool,
    title: String,
    is_x11: bool,
    current_mouse_cursor: CursorIcon,
    mouse_visible: bool,
}

impl View for Window {
    type V = WindowView;

    closed spec fn view(&self) -> WindowView {
        WindowView {
            has_frame: self.has_frame,
            requested_redraw: self.requested_redraw,
            title: self.title@,
            is_x11: self.is_x11,
            current_mouse_cursor: self.current_mouse_cursor,
            mouse_visible: self.mouse_visible,
        }
    }
}

/// Cache after a title request, and whether the native title must be set.
pub open spec fn title_step(s: WindowView, title: Seq<char>) -> (WindowView, bool) {
    (WindowView { title, ..s }, s.title != title)
}

/// Cache after a redraw request, and whether a native redraw must be requested.
pub open spec fn redraw_step(s: WindowView) -> (WindowView, bool) {
    (WindowView { requested_redraw: true, ..s }, !s.requested_redraw)
}

/// Cache after a cursor shape request, and whether the native cursor must change.
pub open spec fn cursor_step(s: WindowView, cursor: CursorIcon) -> (WindowView, bool) {
    (WindowView { current_mouse_cursor: cursor, ..s }, s.current_mouse_cursor != cursor)
}

/// Cache after a cursor visibility request, and whether the native flag must change.
pub open spec fn visibility_step(s: WindowView, visible: bool) -> (WindowView, bool) {
    (WindowView { mouse_visible: visible, ..s }, s.mouse_visible != visible)
}

/// The IME enablement to forward to the native window, if any.
pub open spec fn ime_allowed_request(s: WindowView, allowed: bool) -> Option<bool> {
    if s.is_x11 {
        None
    } else {
        Some(allowed)
    }
}

/// Native fullscreen request for the wanted fullscreen state.
pub open spec fn fullscreen_request(fullscreen: bool) -> Option<Fullscreen> {
    if fullscreen {
        Some(Fullscreen::Borderless)
    } else {
        None
    }
}

/// Native attention request for the wanted urgency.
pub open spec fn attention_request(is_urgent: bool) -> Option<UserAttentionType> {
    if is_urgent {
        Some(UserAttentionType::Critical)
    } else {
        None
    }
}

/// A position on the terminal grid.
#[derive(Clone, Copy, Debug, PartialEq, Eq, Structural)]
pub struct Point {
    pub line: usize,
    pub column: usize,
}

/// Pixel metrics of the terminal grid inside the window.
#[derive(Clone, Copy, Debug, PartialEq, Eq, Structural)]
pub struct SizeInfo {
    pub padding_x: u32,
    pub padding_y: u32,
    pub cell_width: u32,
    pub cell_height: u32,
}

/// Rectangle, in device pixels, that the input method popup must not cover.
#[derive(Clone, Copy, Debug, PartialEq, Eq, Structural)]
pub struct ImeArea {
    pub x: u128,
    pub y: u128,
    pub width: u128,
    pub height: u128,
}

/// Anchor of the input method popup for the cursor at `point`.
///
/// X11 places the popup at the given spot instead of next to the area, so the
/// spot is moved one line down there, not to hide the text at the cursor. The
/// area is two cells wide, to keep a full-width character visible.
pub open spec fn ime_area(is_x11: bool, point: Point, size: SizeInfo) -> ImeArea {
    let offset: int = if is_x11 { 1 } else { 0 };
    ImeArea {
        x: (size.padding_x + point.column * size.cell_width) as u128,
        y: (size.padding_y + (point.line + offset) * size.cell_height) as u128,
        width: (2 * size.cell_width) as u128,
        height: size.cell_height as u128,
    }
}

impl Window {
    /// State of a freshly built window: text cursor shown, nothing requested yet.
    pub fn new(identity: &Identity, is_x11: bool) -> (r: Window)
        ensures
            r@ == (WindowView {
                has_frame: true,
                requested_redraw: false,
                title: identity.title@,
                is_x11,
                current_mouse_cursor: CursorIcon::Text,
                mouse_visible: true,
            }),
    {
        Window {
            has_frame: true,
            requested_redraw: false,
            title: identity.title.clone(),
            is_x11,
            current_mouse_cursor: CursorIcon::Text,
            mouse_visible: true,
        }
    }

    /// Whether the native window is an X11 one.
    pub fn is_x11(&self) -> (r: bool)
        ensures
            r == self@.is_x11,
    {
        self.is_x11
    }

    /// Get the window title.
    pub fn title(&self) -> (r: &str)
        ensures
            r@ == self@.title,
    {
        self.title.as_str()
    }

    /// Get the cached mouse cursor shape.
    pub fn mouse_cursor(&self) -> (r: CursorIcon)
        ensures
            r == self@.current_mouse_cursor,
    {
        self.current_mouse_cursor
    }

    /// Whether the mouse cursor is currently shown.
    pub fn mouse_visible(&self) -> (r: bool)
        ensures
            r == self@.mouse_visible,
    {
        self.mouse_visible
    }

    /// Set the window title; returns whether the native title has to be set to
    /// [`Window::title`].
    pub fn set_title(&mut self, title: String) -> (r: bool)
        ensures
            (final(self)@, r) == title_step(old(self)@, title@),
    {
        if title != self.title {
            self.title = title;
            true
        } else {
            false
        }
    }

    /// Record a redraw request; returns whether it has to be sent to the native
    /// window. Requests coalesce until `requested_redraw` is cleared.
    pub fn request_redraw(&mut self) -> (r: bool)
        ensures
            (final(self)@, r) == redraw_step(old(self)@),
    {
        if !self.requested_redraw {
            self.requested_redraw = true;
            true
        } else {
            false
        }
    }

    /// Set the mouse cursor shape; returns whether the native cursor has to change.
    pub fn set_mouse_cursor(&mut self, cursor: CursorIcon) -> (r: bool)
        ensures
            (final(self)@, r) == cursor_step(old(self)@, cursor),
    {
        if cursor != self.current_mouse_cursor {
            self.current_mouse_cursor = cursor;
            true
        } else {
            false
        }
    }

    /// Set mouse cursor visible; returns whether the native flag has to change.
    pub fn set_mouse_visible(&mut self, visible: bool) -> (r: bool)
        ensures
            (final(self)@, r) == visibility_step(old(self)@, visible),
    {
        if visible != self.mouse_visible {
            self.mouse_visible = visible;
            true
        } else {
            false
        }
    }

    /// The IME enablement to forward to the native window.
    ///
    /// Runtime IME manipulation is skipped on X11, since it breaks some IMEs.
    pub fn set_ime_allowed(&self, allowed: bool) -> (r: Option<bool>)
        ensures
            r == ime_allowed_request(self@, allowed),
    {
        if !self.is_x11 {
            Some(allowed)
        } else {
            None
        }
    }

    /// Adjust the IME editor position according to the new location of the cursor.
    pub fn update_ime_position(&self, point: Point, size: &SizeInfo) -> (r: ImeArea)
        ensures
            r == ime_area(self@.is_x11, point, *size),
    {
        let offset: u128 = if self.is_x11 { 1 } else { 0 };
        let column = point.column as u128;
        let line = point.line as u128;
        let cell_width = size.cell_width as u128;
        let cell_height = size.cell_height as u128;
        assert(column * cell_width <= 0xffff_ffff_ffff_ffff * 0xffff_ffff) by (nonlinear_arith)
            requires column <= 0xffff_ffff_ffff_ffff, cell_width <= 0xffff_ffff;
        assert((line + offset) * cell_height <= 0x1_0000_0000_0000_0000 * 0xffff_ffff) by (nonlinear_arith)
            requires line + offset <= 0x1_0000_0000_0000_0000, cell_height <= 0xffff_ffff;
        ImeArea {
            x: size.padding_x as u128 + column * cell_width,
            y: size.padding_y as u128 + (line + offset) * cell_height,
            width: 2 * cell_width,
            height: cell_height,
        }
    }

    /// Native attention request for the urgency flag.
    pub fn set_urgent(is_urgent: bool) -> (r: Option<UserAttentionType>)
        ensures
            r == attention_request(is_urgent),
    {
        if is_urgent {
            Some(UserAttentionType::Critical)
        } else {
            None
        }
    }

    /// Native fullscreen request: borderless on the current monitor, or none.
    pub fn set_fullscreen(fullscreen: bool) -> (r: Option<Fullscreen>)
        ensures
            r == fullscreen_request(fullscreen),
    {
        if fullscreen {
            Some(Fullscreen::Borderless)
        } else {
            None
        }
    }

    /// Native fullscreen request that inverts the current fullscreen state.
    pub fn toggle_fullscreen(is_fullscreen: bool) -> (r: Option<Fullscreen>)
        ensures
            r == fullscreen_request(!is_fullscreen),
    {
        Window::set_fullscreen(!is_fullscreen)
    }

    /// Maximized state that inverts the current one.
    pub fn toggle_maximized(is_maximized: bool) -> (r: bool)
        ensures
            r == !is_maximized,
    {
        !is_maximized
    }

    /// Simple fullscreen state that inverts the current one (macOS).
    pub fn toggle_simple_fullscreen(is_simple_fullscreen: bool) -> (r: bool)
        ensures
            r == !is_simple_fullscreen,
    {
        !is_simple_fullscreen
    }

    /// Index of the last of `num_tabs` tabs, if there is a tab (macOS).
    pub fn select_last_tab(num_tabs: usize) -> (r: Option<usize>)
        ensures
            num_tabs == 0 ==> r is None,
            num_tabs > 0 ==> r == Some((num_tabs - 1) as usize),
    {
        if num_tabs == 0 {
            None
        } else {
            Some(num_tabs - 1)
        }
    }
}

} // verus!
