use vstd::prelude::*;

verus! {

/// The arguments with which a synthetic mouse event is initialised.
///
/// Positions are not reproduced: every coordinate is zero. The view is the
/// document's default view and the related target is the element itself;
/// both are host objects and stay with the caller.
#[derive(Clone, Debug)]
pub struct MouseEventInit {
    pub event_type: String,
    pub can_bubble: bool,
    pub cancelable: bool,
    pub detail: i64,
    pub screen_x: i64,
    pub screen_y: i64,
    pub client_x: i64,
    pub client_y: i64,
    pub ctrl_key: bool,
    pub alt_key: bool,
    pub shift_key: bool,
    pub meta_key: bool,
    pub button: u16,
}

/// `init` is the initialisation of a mouse event named `name`: bubbling,
/// cancelable, all coordinates zero, only the control key forwarded, and the
/// primary button.
pub open spec fn is_init_for(init: MouseEventInit, name: Seq<char>, ctrl_key: bool) -> bool {
    &&& init.event_type@ == name
    &&& init.can_bubble
    &&& init.cancelable
    &&& init.detail == 0
    &&& init.screen_x == 0
    &&& init.screen_y == 0
    &&& init.client_x == 0
    &&& init.client_y == 0
    &&& init.ctrl_key == ctrl_key
    &&& !init.alt_key
    &&& !init.shift_key
    &&& !init.meta_key
    &&& init.button == 0
}

/// The initialisation of a mouse event named `event_name`.
pub fn mouse_event_init(event_name: &str, ctrl_key: bool) -> (r: MouseEventInit)
    ensures
        is_init_for(r, event_name@, ctrl_key),
{
    MouseEventInit {
        event_type: event_name.to_owned(),
        can_bubble: true,
        cancelable: true,
        detail: 0,
        screen_x: 0,
        screen_y: 0,
        client_x: 0,
        client_y: 0,
        ctrl_key,
        alt_key: false,
        shift_key: false,
        meta_key: false,
        button: 0,
    }
}

/// Decides whether a mouse event named `event_name` is fired, and with what.
///
/// `have_event` tells whether the owner document gave a mouse event object,
/// `have_view` whether it has a default view. Without either nothing is
/// fired and nothing fails; otherwise the event is initialised as
/// `mouse_event_init` says and dispatched at the element.
pub fn mouse_event(event_name: &str, ctrl_key: bool, have_event: bool, have_view: bool) -> (r:
    Option<MouseEventInit>)
    ensures
        r is Some <==> have_event && have_view,
        r is Some ==> is_init_for(r->0, event_name@, ctrl_key),
{
    if !have_event || !have_view {
        return None;
    }
    Some(mouse_event_init(event_name, ctrl_key))
}

/// A click, forwarding the control key.
pub fn click(ctrl_key: bool, have_event: bool, have_view: bool) -> (r: Option<MouseEventInit>)
    ensures
        r is Some <==> have_event && have_view,
        r is Some ==> is_init_for(r->0, "click"@, ctrl_key),
{
    mouse_event("click", ctrl_key, have_event, have_view)
}

/// A mouse-down event, without modifier keys.
pub fn mouse_down(have_event: bool, have_view: bool) -> (r: Option<MouseEventInit>)
    ensures
        r is Some <==> have_event && have_view,
        r is Some ==> is_init_for(r->0, "mousedown"@, false),
{
    mouse_event("mousedown", false, have_event, have_view)
}

/// A mouse-out event, without modifier keys.
pub fn mouse_out(have_event: bool, have_view: bool) -> (r: Option<MouseEventInit>)
    ensures
        r is Some <==> have_event && have_view,
        r is Some ==> is_init_for(r->0, "mouseout"@, false),
{
    mouse_event("mouseout", false, have_event, have_view)
}

/// A mouse-over event, without modifier keys.
pub fn mouse_over(have_event: bool, have_view: bool) -> (r: Option<MouseEventInit>)
    ensures
        r is Some <==> have_event && have_view,
        r is Some ==> is_init_for(r->0, "mouseover"@, false),
{
    mouse_event("mouseover", false, have_event, have_view)
}

} // verus!
