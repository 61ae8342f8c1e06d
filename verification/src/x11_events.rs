//! What each X event becomes: the event that the library reports for it, what the input
//! state remembers of it (the last key release, the last pointer position), and what has
//! to be done in answer (set a window's user time, answer a ping, move the input method's
//! focus, refresh the keyboard mapping).
//!
//! The caller reads the X event and hands its fields over, together with what only Xlib can
//! tell: the library's window for the event's X window, whether the input method consumed
//! a key press, and the key symbols and text that Xlib looked up.

use vstd::prelude::*;
use crate::device::MouseButton;
use crate::geom::{Extent2, Vec2};
use crate::queue::Click;
use crate::x11::{NOTIFY_GRAB, NOTIFY_NORMAL, NOTIFY_UNGRAB, XButtonPress, x_button_press, x_button_press_spec};

verus! {

/// X event types, as `X.h` numbers them.
pub const KEY_PRESS: i32 = 2;
pub const KEY_RELEASE: i32 = 3;
pub const BUTTON_PRESS: i32 = 4;
pub const BUTTON_RELEASE: i32 = 5;
pub const MOTION_NOTIFY: i32 = 6;
pub const ENTER_NOTIFY: i32 = 7;
pub const LEAVE_NOTIFY: i32 = 8;
pub const FOCUS_IN: i32 = 9;
pub const FOCUS_OUT: i32 = 10;
pub const EXPOSE: i32 = 12;
pub const GRAPHICS_EXPOSE: i32 = 13;
pub const CONFIGURE_NOTIFY: i32 = 22;
pub const CLIENT_MESSAGE: i32 = 33;
pub const MAPPING_NOTIFY: i32 = 34;
/// The XInput2 key press event type (`XI_KeyPress`).
pub const XI_KEY_PRESS: i32 = 2;

/// The atoms that client messages are told apart by.
#[derive(Debug, Copy, Clone, Hash, PartialEq, Eq, Structural)]
pub struct XAtoms {
    pub wm_protocols: u64,
    pub wm_delete_window: u64,
    pub net_wm_ping: u64,
}

/// An X event, as the fields that decide what it becomes. Fields that an event's type does
/// not have are ignored.
#[derive(Debug, Clone)]
pub struct XEventFields {
    /// The event's type (`KEY_PRESS`, ...).
    pub type_: i32,
    /// Whether it is an XInput2 event, which Xlib hands out as a generic event cookie.
    pub is_xi_cookie: bool,
    /// The XInput2 event type (`XI_KEY_PRESS`, ...), for an XInput2 event; its window and
    /// time are then those of the XInput2 event.
    pub xi_evtype: i32,
    /// The library's window for the event's X window, if there is one.
    pub window: Option<u64>,
    pub time: u64,
    pub keycode: u32,
    pub button: u32,
    /// The crossing mode of `EnterNotify` and `LeaveNotify` (`NOTIFY_NORMAL`, ...).
    pub mode: i32,
    pub x: i32,
    pub y: i32,
    pub x_root: i32,
    pub y_root: i32,
    pub width: i32,
    pub height: i32,
    /// Whether the input method consumed a key press (`XFilterEvent`).
    pub is_filtered: bool,
    /// The key symbol that the input context looked up for a key press, if any.
    pub lookup_keysym: Option<u64>,
    /// The text that the input context looked up for a key press, if any.
    pub lookup_text: Option<String>,
    /// The key symbol of a released key (`XLookupKeysym` at index 0).
    pub release_keysym: u64,
    /// A client message's type, format, and first long read as an atom.
    pub message_type: u64,
    pub format: i32,
    pub data0: u64,
}

/// What the library remembers between X events.
#[derive(Debug, Copy, Clone, Hash, PartialEq, Eq, Structural)]
pub struct X11InputState {
    /// The time and key code of the last key release, to tell key repeats.
    pub last_key_release_time: u64,
    pub last_key_release_keycode: u32,
    /// The last pointer position on the root window.
    pub last_abs_mouse_position: Vec2<i32>,
}

/// An event that an X event becomes. Positions are in pixels; `displacement` is how far the
/// pointer moved on the root window since the last position the library saw.
#[derive(Debug, Clone, PartialEq, Eq)]
pub enum X11Event {
    KeyboardKeyPressed { window: Option<u64>, scancode: u32, keysym: u64, is_repeat: bool, text: Option<String> },
    KeyboardKeyReleased { window: Option<u64>, scancode: u32, keysym: u64 },
    WindowCloseRequested { window: u64 },
    MouseButtonPressed {
        window: Option<u64>,
        position: Vec2<i32>,
        abs_position: Vec2<i32>,
        button: MouseButton,
        click: Click,
        displacement: Vec2<i64>,
    },
    MouseScroll {
        window: Option<u64>,
        position: Vec2<i32>,
        abs_position: Vec2<i32>,
        scroll: Vec2<i32>,
        displacement: Vec2<i64>,
    },
    MouseButtonReleased {
        window: Option<u64>,
        position: Vec2<i32>,
        abs_position: Vec2<i32>,
        button: MouseButton,
        displacement: Vec2<i64>,
    },
    MouseMotion { window: Option<u64>, position: Vec2<i32>, abs_position: Vec2<i32>, displacement: Vec2<i64> },
    MouseEnter { window: u64, position: Vec2<i32>, abs_position: Vec2<i32> },
    MouseFocusGained { window: u64, position: Vec2<i32>, abs_position: Vec2<i32> },
    MouseLeave { window: u64, position: Vec2<i32>, abs_position: Vec2<i32>, displacement: Vec2<i64> },
    MouseFocusLost { window: u64, position: Vec2<i32>, abs_position: Vec2<i32>, displacement: Vec2<i64> },
    KeyboardFocusGained { window: u64 },
    KeyboardFocusLost { window: u64 },
    WindowContentDamaged { window: u64 },
    WindowMovedResized { window: u64, position: Vec2<i32>, size: Extent2<i32> },
}

/// What an X event becomes, and what has to be done in answer.
#[derive(Debug, Clone, PartialEq, Eq)]
pub struct XTranslation {
    /// The event to report, if any.
    pub event: Option<X11Event>,
    /// Set this window's `_NET_WM_USER_TIME` to this time.
    pub user_time: Option<(u64, u64)>,
    /// Send the ping back to the root window.
    pub answer_ping: bool,
    /// Give (`true`) or take (`false`) the focus of the window's input context.
    pub ic_focus: Option<bool>,
    /// Refresh Xlib's keyboard mapping.
    pub refresh_keyboard_mapping: bool,
}

/// The X event cannot make the library stop: a crossing into a window is a normal one or a
/// grab, and a crossing out of one is a normal one or the end of a grab.
pub open spec fn x_event_is_valid(ev: XEventFields) -> bool {
    &&& (!ev.is_xi_cookie && ev.type_ == ENTER_NOTIFY && ev.window is Some) ==> (ev.mode == NOTIFY_NORMAL
        || ev.mode == NOTIFY_GRAB)
    &&& (!ev.is_xi_cookie && ev.type_ == LEAVE_NOTIFY && ev.window is Some) ==> (ev.mode == NOTIFY_NORMAL
        || ev.mode == NOTIFY_UNGRAB)
}

/// The pointer's position in the event's window.
pub open spec fn position_of(ev: XEventFields) -> Vec2<i32> {
    Vec2 { x: ev.x, y: ev.y }
}

/// The pointer's position on the root window.
pub open spec fn abs_position_of(ev: XEventFields) -> Vec2<i32> {
    Vec2 { x: ev.x_root, y: ev.y_root }
}

/// How far the pointer moved from the last position the library saw.
pub open spec fn displacement_of(state: X11InputState, ev: XEventFields) -> Vec2<i64> {
    Vec2 {
        x: (ev.x_root - state.last_abs_mouse_position.x) as i64,
        y: (ev.y_root - state.last_abs_mouse_position.y) as i64,
    }
}

/// Nothing to report and nothing to do.
pub open spec fn nothing() -> XTranslation {
    XTranslation { event: None, user_time: None, answer_ping: false, ic_focus: None, refresh_keyboard_mapping: false }
}

/// Only an event to report.
pub open spec fn only(e: X11Event) -> XTranslation {
    XTranslation { event: Some(e), ..nothing() }
}

/// The user time to set for an event in `window` at `time`.
pub open spec fn user_time_of(window: Option<u64>, time: u64) -> Option<(u64, u64)> {
    match window {
        Some(w) => Some((w, time)),
        None => None,
    }
}

/// What a key press becomes: nothing without a known key symbol; else a key press, which
/// is a repeat when the last release had the same time and key code, and whose text is
/// kept only if the input method did not consume the press.
pub open spec fn key_press_spec(state: X11InputState, ev: XEventFields) -> Option<X11Event> {
    match ev.lookup_keysym {
        None => None,
        Some(keysym) => Some(
            X11Event::KeyboardKeyPressed {
                window: ev.window,
                scancode: ev.keycode,
                keysym,
                is_repeat: state.last_key_release_time == ev.time && state.last_key_release_keycode
                    == ev.keycode,
                text: if ev.is_filtered { None } else { ev.lookup_text },
            },
        ),
    }
}

/// What a button press becomes.
pub open spec fn button_press_spec(state: X11InputState, ev: XEventFields) -> X11Event {
    match x_button_press_spec(ev.button) {
        XButtonPress::Pressed(button) => X11Event::MouseButtonPressed {
            window: ev.window,
            position: position_of(ev),
            abs_position: abs_position_of(ev),
            button,
            click: Click::Single,
            displacement: displacement_of(state, ev),
        },
        XButtonPress::Scroll(scroll) => X11Event::MouseScroll {
            window: ev.window,
            position: position_of(ev),
            abs_position: abs_position_of(ev),
            scroll,
            displacement: displacement_of(state, ev),
        },
    }
}

/// What a button release becomes: only buttons 1 to 3 are reported.
pub open spec fn button_release_spec(state: X11InputState, ev: XEventFields) -> Option<X11Event> {
    let button = if ev.button == 1 {
        Some(MouseButton::Left)
    } else if ev.button == 2 {
        Some(MouseButton::Middle)
    } else if ev.button == 3 {
        Some(MouseButton::Right)
    } else {
        None::<MouseButton>
    };
    match button {
        None => None,
        Some(b) => Some(
            X11Event::MouseButtonReleased {
                window: ev.window,
                position: position_of(ev),
                abs_position: abs_position_of(ev),
                button: b,
                displacement: displacement_of(state, ev),
            },
        ),
    }
}

/// What a client message becomes: a close request for a window that asks to be deleted; a
/// ping is answered and reports nothing; other messages report nothing.
pub open spec fn client_message_spec(ev: XEventFields, atoms: XAtoms) -> XTranslation {
    if ev.message_type != atoms.wm_protocols || ev.format != 32 {
        nothing()
    } else if ev.data0 == atoms.wm_delete_window && ev.window is Some {
        only(X11Event::WindowCloseRequested { window: ev.window->0 })
    } else if ev.data0 == atoms.net_wm_ping {
        XTranslation { answer_ping: true, ..nothing() }
    } else {
        nothing()
    }
}

/// What an X event becomes, and what has to be done in answer. XInput2 events report
/// nothing; a key press among them sets the user time of its window.
pub open spec fn translate_spec(state: X11InputState, ev: XEventFields, atoms: XAtoms) -> XTranslation {
    if ev.is_xi_cookie {
        if ev.xi_evtype == XI_KEY_PRESS {
            XTranslation { user_time: user_time_of(ev.window, ev.time), ..nothing() }
        } else {
            nothing()
        }
    } else if ev.type_ == KEY_PRESS {
        XTranslation {
            event: key_press_spec(state, ev),
            user_time: user_time_of(ev.window, ev.time),
            ..nothing()
        }
    } else if ev.type_ == KEY_RELEASE {
        only(X11Event::KeyboardKeyReleased { window: ev.window, scancode: ev.keycode, keysym: ev.release_keysym })
    } else if ev.type_ == CLIENT_MESSAGE {
        client_message_spec(ev, atoms)
    } else if ev.type_ == BUTTON_PRESS {
        XTranslation {
            event: Some(button_press_spec(state, ev)),
            user_time: user_time_of(ev.window, ev.time),
            ..nothing()
        }
    } else if ev.type_ == BUTTON_RELEASE {
        XTranslation { event: button_release_spec(state, ev), ..nothing() }
    } else if ev.type_ == MOTION_NOTIFY {
        XTranslation {
            event: Some(
                X11Event::MouseMotion {
                    window: ev.window,
                    position: position_of(ev),
                    abs_position: abs_position_of(ev),
                    displacement: displacement_of(state, ev),
                },
            ),
            user_time: user_time_of(ev.window, ev.time),
            ..nothing()
        }
    } else if ev.window is None {
        if ev.type_ == MAPPING_NOTIFY {
            XTranslation { refresh_keyboard_mapping: true, ..nothing() }
        } else {
            nothing()
        }
    } else {
        let w = ev.window->0;
        if ev.type_ == ENTER_NOTIFY {
            if ev.mode == NOTIFY_NORMAL {
                only(X11Event::MouseEnter { window: w, position: position_of(ev), abs_position: abs_position_of(ev) })
            } else {
                only(
                    X11Event::MouseFocusGained {
                        window: w,
                        position: position_of(ev),
                        abs_position: abs_position_of(ev),
                    },
                )
            }
        } else if ev.type_ == LEAVE_NOTIFY {
            if ev.mode == NOTIFY_NORMAL {
                only(
                    X11Event::MouseLeave {
                        window: w,
                        position: position_of(ev),
                        abs_position: abs_position_of(ev),
                        displacement: displacement_of(state, ev),
                    },
                )
            } else {
                only(
                    X11Event::MouseFocusLost {
                        window: w,
                        position: position_of(ev),
                        abs_position: abs_position_of(ev),
                        displacement: displacement_of(state, ev),
                    },
                )
            }
        } else if ev.type_ == FOCUS_IN {
            XTranslation { event: Some(X11Event::KeyboardFocusGained { window: w }), ic_focus: Some(true), ..nothing() }
        } else if ev.type_ == FOCUS_OUT {
            XTranslation { event: Some(X11Event::KeyboardFocusLost { window: w }), ic_focus: Some(false), ..nothing() }
        } else if ev.type_ == EXPOSE || ev.type_ == GRAPHICS_EXPOSE {
            only(X11Event::WindowContentDamaged { window: w })
        } else if ev.type_ == CONFIGURE_NOTIFY {
            only(
                X11Event::WindowMovedResized {
                    window: w,
                    position: position_of(ev),
                    size: Extent2 { w: ev.width, h: ev.height },
                },
            )
        } else if ev.type_ == MAPPING_NOTIFY {
            XTranslation { refresh_keyboard_mapping: true, ..nothing() }
        } else {
            nothing()
        }
    }
}

/// What the input state becomes after an X event: a key release is remembered; the
/// pointer position is remembered after a button press, a reported button release, a
/// motion, and a crossing into or out of one of the library's windows.
pub open spec fn next_state_spec(state: X11InputState, ev: XEventFields) -> X11InputState {
    if ev.is_xi_cookie {
        state
    } else if ev.type_ == KEY_RELEASE {
        X11InputState { last_key_release_time: ev.time, last_key_release_keycode: ev.keycode, ..state }
    } else if ev.type_ == BUTTON_PRESS || ev.type_ == MOTION_NOTIFY || ((ev.type_ == BUTTON_RELEASE) && 1
        <= ev.button <= 3) || ((ev.type_ == ENTER_NOTIFY || ev.type_ == LEAVE_NOTIFY) && ev.window is Some) {
        X11InputState { last_abs_mouse_position: abs_position_of(ev), ..state }
    } else {
        state
    }
}

/// X buttons 1 to 9 are pressed as the left, middle and right buttons, scrolls up, down,
/// left and right, then the back and forward buttons; a release of X button 1, 2 or 3
/// reports the release of the same button that its press reports, and a release of any
/// other button reports nothing. Either way the event is in the event's window, at its
/// position, and moves the pointer from where the library last saw it.
pub proof fn lemma_x_buttons(state: X11InputState, ev: XEventFields, atoms: XAtoms)
    requires
        !ev.is_xi_cookie,
        ev.type_ == BUTTON_PRESS || ev.type_ == BUTTON_RELEASE,
    ensures
        ({
            let press = XEventFields { type_: BUTTON_PRESS, ..ev };
            let e = translate_spec(state, press, atoms).event;
            &&& ev.button == 1 ==> (e matches Some(X11Event::MouseButtonPressed { button, .. }) && button
                == MouseButton::Left)
            &&& ev.button == 2 ==> (e matches Some(X11Event::MouseButtonPressed { button, .. }) && button
                == MouseButton::Middle)
            &&& ev.button == 3 ==> (e matches Some(X11Event::MouseButtonPressed { button, .. }) && button
                == MouseButton::Right)
            &&& ev.button == 4 ==> (e matches Some(X11Event::MouseScroll { scroll, .. }) && scroll.x == 0
                && scroll.y == 1)
            &&& ev.button == 5 ==> (e matches Some(X11Event::MouseScroll { scroll, .. }) && scroll.x == 0
                && scroll.y == -1)
            &&& ev.button == 6 ==> (e matches Some(X11Event::MouseScroll { scroll, .. }) && scroll.x == -1
                && scroll.y == 0)
            &&& ev.button == 7 ==> (e matches Some(X11Event::MouseScroll { scroll, .. }) && scroll.x == 1
                && scroll.y == 0)
            &&& ev.button == 8 ==> (e matches Some(X11Event::MouseButtonPressed { button, .. }) && button
                == MouseButton::Back)
            &&& ev.button == 9 ==> (e matches Some(X11Event::MouseButtonPressed { button, .. }) && button
                == MouseButton::Forward)
        }),
        ({
            let release = XEventFields { type_: BUTTON_RELEASE, ..ev };
            let press = XEventFields { type_: BUTTON_PRESS, ..ev };
            let e = translate_spec(state, release, atoms).event;
            &&& (1 <= ev.button <= 3) ==> (e matches Some(
                X11Event::MouseButtonReleased { window, position, abs_position, button, displacement },
            ) && window == ev.window && position.x == ev.x && position.y == ev.y && abs_position.x
                == ev.x_root && abs_position.y == ev.y_root && displacement.x == ev.x_root
                - state.last_abs_mouse_position.x && displacement.y == ev.y_root
                - state.last_abs_mouse_position.y && (translate_spec(state, press, atoms).event matches Some(
                X11Event::MouseButtonPressed { button: pressed, .. },
            ) && pressed == button) && (ev.button == 1 ==> button == MouseButton::Left) && (ev.button
                == 2 ==> button == MouseButton::Middle) && (ev.button == 3 ==> button == MouseButton::Right))
            &&& !(1 <= ev.button <= 3) ==> e is None
        }),
{
}

/// What each kind of X event becomes. A key press (2) with a known key symbol is reported
/// with its key code, symbol and, unless the input method took it, its text, and sets the
/// window's user time; a key release (3) is reported and remembered; a motion (6) is
/// reported from the last pointer position and sets the user time; focus in (9) and out
/// (10), expose (12, 13) and configure (22) events of one of the library's windows are
/// reported for it, focus moving the input context's focus with it; a mapping change (34)
/// refreshes the keyboard mapping; a close request (33) of the window manager's protocol is
/// reported for the window. Only key releases and pointer events change what is remembered.
pub proof fn lemma_x_event_kinds(state: X11InputState, ev: XEventFields, atoms: XAtoms)
    requires
        !ev.is_xi_cookie,
    ensures
        ({
            let r = translate_spec(state, ev, atoms);
            let n = next_state_spec(state, ev);
            &&& (ev.type_ == 2 && ev.lookup_keysym is Some) ==> r.event == Some(
                X11Event::KeyboardKeyPressed {
                    window: ev.window,
                    scancode: ev.keycode,
                    keysym: ev.lookup_keysym->0,
                    is_repeat: state.last_key_release_time == ev.time && state.last_key_release_keycode
                        == ev.keycode,
                    text: if ev.is_filtered { None } else { ev.lookup_text },
                },
            )
            &&& (ev.type_ == 2 && ev.lookup_keysym is None) ==> r.event is None
            &&& ev.type_ == 2 ==> (r.user_time == (match ev.window {
                Some(w) => Some((w, ev.time)),
                None => None,
            }) && n == state)
            &&& ev.type_ == 3 ==> (r.event == Some(
                X11Event::KeyboardKeyReleased { window: ev.window, scancode: ev.keycode, keysym: ev.release_keysym },
            ) && n.last_key_release_time == ev.time && n.last_key_release_keycode == ev.keycode
                && n.last_abs_mouse_position == state.last_abs_mouse_position)
            &&& ev.type_ == 6 ==> (r.event == Some(
                X11Event::MouseMotion {
                    window: ev.window,
                    position: Vec2 { x: ev.x, y: ev.y },
                    abs_position: Vec2 { x: ev.x_root, y: ev.y_root },
                    displacement: Vec2 {
                        x: (ev.x_root - state.last_abs_mouse_position.x) as i64,
                        y: (ev.y_root - state.last_abs_mouse_position.y) as i64,
                    },
                },
            ) && n.last_abs_mouse_position == Vec2 { x: ev.x_root, y: ev.y_root })
            &&& (ev.type_ == 9 && ev.window is Some) ==> (r.event == Some(
                X11Event::KeyboardFocusGained { window: ev.window->0 },
            ) && r.ic_focus == Some(true) && n == state)
            &&& (ev.type_ == 10 && ev.window is Some) ==> (r.event == Some(
                X11Event::KeyboardFocusLost { window: ev.window->0 },
            ) && r.ic_focus == Some(false) && n == state)
            &&& ((ev.type_ == 12 || ev.type_ == 13) && ev.window is Some) ==> r.event == Some(
                X11Event::WindowContentDamaged { window: ev.window->0 },
            )
            &&& (ev.type_ == 22 && ev.window is Some) ==> r.event == Some(
                X11Event::WindowMovedResized {
                    window: ev.window->0,
                    position: Vec2 { x: ev.x, y: ev.y },
                    size: Extent2 { w: ev.width, h: ev.height },
                },
            )
            &&& ((ev.type_ == 9 || ev.type_ == 10 || ev.type_ == 12 || ev.type_ == 13 || ev.type_ == 22
                || ev.type_ == 7 || ev.type_ == 8) && ev.window is None) ==> (r.event is None && n == state)
            &&& ev.type_ == 34 ==> (r.event is None && r.refresh_keyboard_mapping && n == state)
            &&& (ev.type_ == 33 && ev.message_type == atoms.wm_protocols && ev.format == 32 && ev.data0
                == atoms.wm_delete_window && ev.window is Some) ==> r.event == Some(
                X11Event::WindowCloseRequested { window: ev.window->0 },
            )
            &&& (ev.type_ == 33 && (ev.message_type != atoms.wm_protocols || ev.format != 32)) ==> (
            r.event is None && !r.answer_ping)
            &&& (ev.type_ == 33 && ev.message_type == atoms.wm_protocols && ev.format == 32 && ev.data0
                == atoms.net_wm_ping && !(ev.data0 == atoms.wm_delete_window && ev.window is Some)) ==> (
            r.event is None && r.answer_ping)
            &&& ev.type_ == 33 ==> n == state
        }),
{
}

/// The pointer crossing into one of the library's windows (7) is a mouse enter in normal
/// mode (0) and a gain of the mouse focus in grab mode (1); crossing out of it (8) is a
/// mouse leave in normal mode and a loss of the mouse focus in ungrab mode (2), measured
/// from the last pointer position. Either way the pointer position is remembered.
pub proof fn lemma_x_crossings(state: X11InputState, ev: XEventFields, atoms: XAtoms)
    requires
        !ev.is_xi_cookie,
        ev.window is Some,
        x_event_is_valid(ev),
    ensures
        ({
            let r = translate_spec(state, ev, atoms).event;
            let w = ev.window->0;
            let p = Vec2 { x: ev.x, y: ev.y };
            let a = Vec2 { x: ev.x_root, y: ev.y_root };
            let d = Vec2 {
                x: (ev.x_root - state.last_abs_mouse_position.x) as i64,
                y: (ev.y_root - state.last_abs_mouse_position.y) as i64,
            };
            &&& (ev.type_ == 7 && ev.mode == 0) ==> r == Some(X11Event::MouseEnter { window: w, position: p, abs_position: a })
            &&& (ev.type_ == 7 && ev.mode == 1) ==> r == Some(
                X11Event::MouseFocusGained { window: w, position: p, abs_position: a },
            )
            &&& (ev.type_ == 8 && ev.mode == 0) ==> r == Some(
                X11Event::MouseLeave { window: w, position: p, abs_position: a, displacement: d },
            )
            &&& (ev.type_ == 8 && ev.mode == 2) ==> r == Some(
                X11Event::MouseFocusLost { window: w, position: p, abs_position: a, displacement: d },
            )
            &&& (ev.type_ == 7 || ev.type_ == 8) ==> next_state_spec(state, ev).last_abs_mouse_position == a
        }),
{
}

/// A key press at the time and with the key code of the key release just before it is a
/// repeat.
pub proof fn lemma_press_after_release_is_repeat(
    state: X11InputState,
    release: XEventFields,
    press: XEventFields,
    atoms: XAtoms,
)
    requires
        !release.is_xi_cookie && release.type_ == KEY_RELEASE,
        !press.is_xi_cookie && press.type_ == KEY_PRESS,
        press.lookup_keysym is Some,
        press.time == release.time,
        press.keycode == release.keycode,
    ensures
        translate_spec(next_state_spec(state, release), press, atoms).event matches Some(
            X11Event::KeyboardKeyPressed { is_repeat, .. },
        ) && is_repeat,
{
}

/// The displacement that a pointer motion reports is measured from the position of the
/// pointer motion before it.
pub proof fn lemma_motion_displacement_from_last_motion(
    state: X11InputState,
    first: XEventFields,
    second: XEventFields,
    atoms: XAtoms,
)
    requires
        !first.is_xi_cookie && first.type_ == MOTION_NOTIFY,
        !second.is_xi_cookie && second.type_ == MOTION_NOTIFY,
    ensures
        translate_spec(next_state_spec(state, first), second, atoms).event == Some(
            X11Event::MouseMotion {
                window: second.window,
                position: position_of(second),
                abs_position: abs_position_of(second),
                displacement: Vec2 {
                    x: (second.x_root - first.x_root) as i64,
                    y: (second.y_root - first.y_root) as i64,
                },
            },
        ),
{
}

fn position(ev: &XEventFields) -> (r: Vec2<i32>)
    ensures
        r == position_of(*ev),
{
    Vec2 { x: ev.x, y: ev.y }
}

fn abs_position(ev: &XEventFields) -> (r: Vec2<i32>)
    ensures
        r == abs_position_of(*ev),
{
    Vec2 { x: ev.x_root, y: ev.y_root }
}

fn displacement(state: &X11InputState, ev: &XEventFields) -> (r: Vec2<i64>)
    ensures
        r == displacement_of(*state, *ev),
{
    Vec2 {
        x: ev.x_root as i64 - state.last_abs_mouse_position.x as i64,
        y: ev.y_root as i64 - state.last_abs_mouse_position.y as i64,
    }
}

fn no_answer(event: Option<X11Event>) -> (r: XTranslation)
    ensures
        r == (XTranslation { event, ..nothing() }),
{
    XTranslation { event, user_time: None, answer_ping: false, ic_focus: None, refresh_keyboard_mapping: false }
}

fn user_time(window: Option<u64>, time: u64) -> (r: Option<(u64, u64)>)
    ensures
        r == user_time_of(window, time),
{
    match window {
        Some(w) => Some((w, time)),
        None => None,
    }
}

fn clone_text(t: &Option<String>) -> (r: Option<String>)
    ensures
        r == *t,
{
    match t {
        Some(s) => Some(s.clone()),
        None => None,
    }
}

/// What a client message becomes.
fn client_message(ev: &XEventFields, atoms: &XAtoms) -> (r: XTranslation)
    ensures
        r == client_message_spec(*ev, *atoms),
{
    if ev.message_type != atoms.wm_protocols || ev.format != 32 {
        no_answer(None)
    } else if ev.data0 == atoms.wm_delete_window && ev.window.is_some() {
        no_answer(Some(X11Event::WindowCloseRequested { window: ev.window.unwrap() }))
    } else if ev.data0 == atoms.net_wm_ping {
        XTranslation { event: None, user_time: None, answer_ping: true, ic_focus: None, refresh_keyboard_mapping: false }
    } else {
        no_answer(None)
    }
}

/// What an event in one of the library's windows becomes, for the types that need one.
fn window_event(state: &X11InputState, ev: &XEventFields, w: u64) -> (r: XTranslation)
    requires
        x_event_is_valid(*ev),
        !ev.is_xi_cookie,
        ev.window == Some(w),
        ev.type_ != KEY_PRESS && ev.type_ != KEY_RELEASE && ev.type_ != CLIENT_MESSAGE && ev.type_
            != BUTTON_PRESS && ev.type_ != BUTTON_RELEASE && ev.type_ != MOTION_NOTIFY,
    ensures
        r == translate_spec(*state, *ev, XAtoms { wm_protocols: 0, wm_delete_window: 0, net_wm_ping: 0 }),
{
    let t = ev.type_;
    if t == ENTER_NOTIFY {
        if ev.mode == NOTIFY_NORMAL {
            no_answer(Some(X11Event::MouseEnter { window: w, position: position(ev), abs_position: abs_position(ev) }))
        } else {
            no_answer(Some(X11Event::MouseFocusGained { window: w, position: position(ev), abs_position: abs_position(ev) }))
        }
    } else if t == LEAVE_NOTIFY {
        if ev.mode == NOTIFY_NORMAL {
            no_answer(
                Some(
                    X11Event::MouseLeave {
                        window: w,
                        position: position(ev),
                        abs_position: abs_position(ev),
                        displacement: displacement(state, ev),
                    },
                ),
            )
        } else {
            no_answer(
                Some(
                    X11Event::MouseFocusLost {
                        window: w,
                        position: position(ev),
                        abs_position: abs_position(ev),
                        displacement: displacement(state, ev),
                    },
                ),
            )
        }
    } else if t == FOCUS_IN {
        XTranslation {
            event: Some(X11Event::KeyboardFocusGained { window: w }),
            user_time: None,
            answer_ping: false,
            ic_focus: Some(true),
            refresh_keyboard_mapping: false,
        }
    } else if t == FOCUS_OUT {
        XTranslation {
            event: Some(X11Event::KeyboardFocusLost { window: w }),
            user_time: None,
            answer_ping: false,
            ic_focus: Some(false),
            refresh_keyboard_mapping: false,
        }
    } else if t == EXPOSE || t == GRAPHICS_EXPOSE {
        no_answer(Some(X11Event::WindowContentDamaged { window: w }))
    } else if t == CONFIGURE_NOTIFY {
        no_answer(
            Some(
                X11Event::WindowMovedResized {
                    window: w,
                    position: position(ev),
                    size: Extent2 { w: ev.width, h: ev.height },
                },
            ),
        )
    } else if t == MAPPING_NOTIFY {
        XTranslation { event: None, user_time: None, answer_ping: false, ic_focus: None, refresh_keyboard_mapping: true }
    } else {
        no_answer(None)
    }
}

/// Translates an X event: says what it becomes and what has to be done in answer, and
/// updates what the library remembers of the last key release and pointer position.
pub fn translate_x_event(state: &mut X11InputState, ev: &XEventFields, atoms: &XAtoms) -> (r: XTranslation)
    requires
        x_event_is_valid(*ev),
    ensures
        r == translate_spec(*old(state), *ev, *atoms),
        *final(state) == next_state_spec(*old(state), *ev),
{
    if ev.is_xi_cookie {
        return XTranslation {
            event: None,
            user_time: if ev.xi_evtype == XI_KEY_PRESS { user_time(ev.window, ev.time) } else { None },
            answer_ping: false,
            ic_focus: None,
            refresh_keyboard_mapping: false,
        };
    }
    let t = ev.type_;
    if t == KEY_PRESS {
        let event = match ev.lookup_keysym {
            None => None,
            Some(keysym) => Some(
                X11Event::KeyboardKeyPressed {
                    window: ev.window,
                    scancode: ev.keycode,
                    keysym,
                    is_repeat: state.last_key_release_time == ev.time && state.last_key_release_keycode
                        == ev.keycode,
                    text: if ev.is_filtered { None } else { clone_text(&ev.lookup_text) },
                },
            ),
        };
        XTranslation {
            event,
            user_time: user_time(ev.window, ev.time),
            answer_ping: false,
            ic_focus: None,
            refresh_keyboard_mapping: false,
        }
    } else if t == KEY_RELEASE {
        state.last_key_release_time = ev.time;
        state.last_key_release_keycode = ev.keycode;
        no_answer(Some(X11Event::KeyboardKeyReleased { window: ev.window, scancode: ev.keycode, keysym: ev.release_keysym }))
    } else if t == CLIENT_MESSAGE {
        client_message(ev, atoms)
    } else if t == BUTTON_PRESS {
        let d = displacement(state, ev);
        let event = match x_button_press(ev.button) {
            XButtonPress::Pressed(button) => X11Event::MouseButtonPressed {
                window: ev.window,
                position: position(ev),
                abs_position: abs_position(ev),
                button,
                click: Click::Single,
                displacement: d,
            },
            XButtonPress::Scroll(scroll) => X11Event::MouseScroll {
                window: ev.window,
                position: position(ev),
                abs_position: abs_position(ev),
                scroll,
                displacement: d,
            },
        };
        state.last_abs_mouse_position = abs_position(ev);
        XTranslation {
            event: Some(event),
            user_time: user_time(ev.window, ev.time),
            answer_ping: false,
            ic_focus: None,
            refresh_keyboard_mapping: false,
        }
    } else if t == BUTTON_RELEASE {
        let button = if ev.button == 1 {
            Some(MouseButton::Left)
        } else if ev.button == 2 {
            Some(MouseButton::Middle)
        } else if ev.button == 3 {
            Some(MouseButton::Right)
        } else {
            None
        };
        match button {
            None => no_answer(None),
            Some(b) => {
                let event = X11Event::MouseButtonReleased {
                    window: ev.window,
                    position: position(ev),
                    abs_position: abs_position(ev),
                    button: b,
                    displacement: displacement(state, ev),
                };
                state.last_abs_mouse_position = abs_position(ev);
                no_answer(Some(event))
            },
        }
    } else if t == MOTION_NOTIFY {
        let event = X11Event::MouseMotion {
            window: ev.window,
            position: position(ev),
            abs_position: abs_position(ev),
            displacement: displacement(state, ev),
        };
        state.last_abs_mouse_position = abs_position(ev);
        XTranslation {
            event: Some(event),
            user_time: user_time(ev.window, ev.time),
            answer_ping: false,
            ic_focus: None,
            refresh_keyboard_mapping: false,
        }
    } else {
        match ev.window {
            None => {
                if t == MAPPING_NOTIFY {
                    XTranslation {
                        event: None,
                        user_time: None,
                        answer_ping: false,
                        ic_focus: None,
                        refresh_keyboard_mapping: true,
                    }
                } else {
                    no_answer(None)
                }
            },
            Some(w) => {
                let r = window_event(state, ev, w);
                if t == ENTER_NOTIFY || t == LEAVE_NOTIFY {
                    state.last_abs_mouse_position = abs_position(ev);
                }
                r
            },
        }
    }
}

} // verus!
