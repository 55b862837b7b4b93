use vstd::prelude::*;

use crate::activation::take_step;
use crate::builder::titlebar_of;
use crate::types::{CursorIcon, Decorations, Fullscreen};
use crate::window::{
    cursor_step, fullscreen_request, ime_allowed_request, redraw_step, title_step,
    visibility_step, WindowView,
};

verus! {

/// Number of native calls among two mutator results.
pub open spec fn calls(first: bool, second: bool) -> int {
    (if first { 1int } else { 0 }) + (if second { 1int } else { 0 })
}

/// Setting a title twice in a row sends at most one native title, and setting the
/// current title sends none and changes nothing.
pub proof fn lemma_title_idempotent(s: WindowView, title: Seq<char>)
    ensures
        calls(title_step(s, title).1, title_step(title_step(s, title).0, title).1) <= 1,
        !title_step(title_step(s, title).0, title).1,
        s.title == title ==> !title_step(s, title).1 && title_step(s, title).0 == s,
{
}

/// Setting a cursor shape twice in a row changes the native cursor at most once,
/// and setting the current shape changes nothing.
pub proof fn lemma_cursor_idempotent(s: WindowView, cursor: CursorIcon)
    ensures
        calls(cursor_step(s, cursor).1, cursor_step(cursor_step(s, cursor).0, cursor).1) <= 1,
        !cursor_step(cursor_step(s, cursor).0, cursor).1,
        s.current_mouse_cursor == cursor ==> !cursor_step(s, cursor).1 && cursor_step(
            s,
            cursor,
        ).0 == s,
{
}

/// Setting the cursor visibility twice in a row changes the native flag at most
/// once, and setting the current visibility changes nothing.
pub proof fn lemma_visibility_idempotent(s: WindowView, visible: bool)
    ensures
        calls(
            visibility_step(s, visible).1,
            visibility_step(visibility_step(s, visible).0, visible).1,
        ) <= 1,
        !visibility_step(visibility_step(s, visible).0, visible).1,
        s.mouse_visible == visible ==> !visibility_step(s, visible).1 && visibility_step(
            s,
            visible,
        ).0 == s,
{
}

/// Two redraw requests with no clear of `requested_redraw` in between send at most
/// one native redraw request, and exactly one when none was pending; with one
/// pending, a request sends none and changes nothing.
pub proof fn lemma_redraw_coalesces(s: WindowView)
    ensures
        calls(redraw_step(s).1, redraw_step(redraw_step(s).0).1) <= 1,
        !s.requested_redraw ==> calls(redraw_step(s).1, redraw_step(redraw_step(s).0).1) == 1,
        s.requested_redraw ==> !redraw_step(s).1 && redraw_step(s).0 == s,
{
}

/// On X11 no IME enablement request reaches the native window, whatever is asked;
/// elsewhere each request is forwarded as it is.
pub proof fn lemma_ime_allowed_on_x11(s: WindowView, allowed: bool)
    ensures
        s.is_x11 ==> ime_allowed_request(s, allowed) is None,
        !s.is_x11 ==> ime_allowed_request(s, allowed) == Some(allowed),
{
}

/// Fullscreen state of the native window after a fullscreen request.
pub open spec fn fullscreen_after(request: Option<Fullscreen>) -> bool {
    request is Some
}

/// Toggling fullscreen on a windowed window asks for borderless fullscreen, on a
/// fullscreen window for none, and two toggles give back the state started from.
pub proof fn lemma_toggle_fullscreen_twice(is_fullscreen: bool)
    ensures
        !is_fullscreen ==> fullscreen_request(!is_fullscreen) == Some(Fullscreen::Borderless),
        is_fullscreen ==> fullscreen_request(!is_fullscreen) is None,
        fullscreen_after(
            fullscreen_request(!fullscreen_after(fullscreen_request(!is_fullscreen))),
        ) == is_fullscreen,
{
}

/// Once an activation token has been taken, taking again yields none.
pub proof fn lemma_activation_token_one_shot<T>(env: Option<T>)
    ensures
        take_step(take_step(env).0).1 is None,
        take_step(env).1 == env,
{
}

/// Full decorations set no titlebar flag and disabled ones hide the whole
/// titlebar; transparent and buttonless titlebars both hide the title and are
/// transparent, and only buttonless ones hide the buttons.
pub proof fn lemma_titlebar_mapping(d: Decorations)
    ensures
        d == Decorations::Full ==> !titlebar_of(d).title_hidden && !titlebar_of(d).titlebar_transparent
            && !titlebar_of(d).fullsize_content_view && !titlebar_of(d).titlebar_buttons_hidden
            && !titlebar_of(d).titlebar_hidden,
        d == Decorations::Disabled ==> titlebar_of(d).titlebar_hidden,
        d == Decorations::Transparent || d == Decorations::Buttonless ==> titlebar_of(d).title_hidden
            && titlebar_of(d).titlebar_transparent && titlebar_of(d).fullsize_content_view,
        titlebar_of(d).titlebar_buttons_hidden <==> d == Decorations::Buttonless,
{
}

} // verus!
