//! What the window procedure makes of each Win32 message: the events it reports for the
//! window, in order, and what it returns (or that it hands the message to
//! `DefWindowProcW`).
//!
//! The caller reads what the message's `LPARAM` points to (the rectangle of `WM_MOVING` and
//! `WM_SIZING`, the `WINDOWPOS` of `WM_WINDOWPOSCHANGED` and `WM_WINDOWPOSCHANGING`) and
//! hands it over; it also turns positions into screen positions and wheel deltas into
//! scroll amounts, which are floating-point.

use vstd::prelude::*;
use crate::device::MouseButton;
use crate::geom::{Extent2, Vec2};
use crate::windows::{
    decode_mouse_button_message, is_button_message, lparam_high_i16, lparam_low_i16,
    message_button_spec, window_moved_position, WM_LBUTTONDBLCLK, WM_LBUTTONUP, WM_MBUTTONDBLCLK,
    WM_MBUTTONUP, WM_RBUTTONDBLCLK, WM_RBUTTONUP, WM_XBUTTONDBLCLK, WM_XBUTTONDOWN, WM_XBUTTONUP,
};

verus! {

/// Window messages (`winuser.h`).
pub const WM_MOVE: u32 = 0x0003;
pub const WM_SIZE: u32 = 0x0005;
pub const WM_CLOSE: u32 = 0x0010;
pub const WM_QUIT: u32 = 0x0012;
pub const WM_MOUSEACTIVATE: u32 = 0x0021;
pub const WM_WINDOWPOSCHANGING: u32 = 0x0046;
pub const WM_WINDOWPOSCHANGED: u32 = 0x0047;
pub const WM_MOUSEMOVE: u32 = 0x0200;
pub const WM_MOUSEWHEEL: u32 = 0x020A;
pub const WM_MOUSEHWHEEL: u32 = 0x020E;
pub const WM_SIZING: u32 = 0x0214;
pub const WM_MOVING: u32 = 0x0216;
pub const WM_MOUSEHOVER: u32 = 0x02A1;
pub const WM_MOUSELEAVE: u32 = 0x02A3;
/// `WINDOWPOS` flags.
pub const SWP_NOSIZE: u32 = 0x0001;
pub const SWP_NOMOVE: u32 = 0x0002;

/// A message, with what its `LPARAM` points to where it points to something.
#[derive(Debug, Copy, Clone, Hash, PartialEq, Eq, Structural)]
pub struct WndprocInput {
    pub msg: u32,
    pub wparam: usize,
    pub lparam: isize,
    /// The `RECT` of `WM_MOVING` and `WM_SIZING`.
    pub rect_left: i32,
    pub rect_top: i32,
    pub rect_right: i32,
    pub rect_bottom: i32,
    /// The `WINDOWPOS` of `WM_WINDOWPOSCHANGED` and `WM_WINDOWPOSCHANGING`.
    pub winpos_x: i32,
    pub winpos_y: i32,
    pub winpos_cx: i32,
    pub winpos_cy: i32,
    pub winpos_flags: u32,
}

/// An event that the window procedure reports for its window.
#[derive(Debug, Copy, Clone, Hash, PartialEq, Eq, Structural)]
pub enum WndprocEvent {
    Quit,
    WindowCloseRequested,
    WindowMoved { position: Vec2<i32>, by_user: bool },
    WindowResized { size: Extent2<u32>, by_user: bool },
    /// The pointer is at this position in the window.
    MouseMotion { position: Vec2<i32> },
    /// The wheel turned by `wheel_delta` (in units of `WHEEL_DELTA`, 120 a notch), along
    /// the horizontal axis or the vertical one.
    MouseScroll { horizontal: bool, wheel_delta: i16 },
    MouseButtonPressed { button: MouseButton, clicks: Option<u32> },
    MouseButtonReleased { button: MouseButton },
}

/// What the window procedure returns.
#[derive(Debug, Copy, Clone, Hash, PartialEq, Eq, Structural)]
pub enum WndprocReturn {
    /// This value.
    Value(isize),
    /// What `DefWindowProcW` returns for the message.
    DefaultWindowProc,
}

/// The events, in order, and the return.
#[derive(Debug, Clone)]
pub struct WndprocDecision {
    pub events: Vec<WndprocEvent>,
    pub ret: WndprocReturn,
}

/// The high word of a `WPARAM` (`HIWORD`).
pub open spec fn wparam_high_u16(wparam: usize) -> u16 {
    ((wparam as u32) >> 16u32) as u16
}

/// The pointer position that a mouse message gives in its `LPARAM`.
pub open spec fn lparam_position(lparam: isize) -> Vec2<i32> {
    Vec2 { x: lparam_low_i16(lparam) as i32, y: lparam_high_i16(lparam) as i32 }
}

/// The window procedure can handle the message without stopping: the hover, leave and
/// activation messages of the mouse are not handled, and the rectangle of `WM_SIZING`
/// has a width and a height that fit an `i32`.
pub open spec fn wndproc_input_valid(i: WndprocInput) -> bool {
    &&& i.msg != WM_MOUSEACTIVATE && i.msg != WM_MOUSEHOVER && i.msg != WM_MOUSELEAVE
    &&& i.msg == WM_SIZING ==> (i32::MIN <= i.rect_right - i.rect_left <= i32::MAX && i32::MIN
        <= i.rect_bottom - i.rect_top <= i32::MAX)
}

/// The move and resize that a `WINDOWPOS` reports, each unless its flag says it did not
/// happen; both are the user's doing.
pub open spec fn winpos_events(i: WndprocInput) -> Seq<WndprocEvent> {
    let moved = if i.winpos_flags & SWP_NOMOVE == 0 {
        seq![WndprocEvent::WindowMoved { position: Vec2 { x: i.winpos_x, y: i.winpos_y }, by_user: true }]
    } else {
        Seq::empty()
    };
    let resized = if i.winpos_flags & SWP_NOSIZE == 0 {
        seq![
            WndprocEvent::WindowResized {
                size: Extent2 { w: i.winpos_cx as u32, h: i.winpos_cy as u32 },
                by_user: true,
            },
        ]
    } else {
        Seq::empty()
    };
    moved + resized
}

/// What the window procedure makes of a message.
pub open spec fn wndproc_spec(i: WndprocInput) -> (Seq<WndprocEvent>, WndprocReturn) {
    let m = i.msg;
    if m == WM_QUIT {
        (seq![WndprocEvent::Quit], WndprocReturn::Value(0))
    } else if m == WM_CLOSE {
        (seq![WndprocEvent::WindowCloseRequested], WndprocReturn::Value(0))
    } else if m == WM_MOVE {
        (
            seq![WndprocEvent::WindowMoved { position: lparam_position(i.lparam), by_user: false }],
            WndprocReturn::Value(0),
        )
    } else if m == WM_MOVING {
        (
            seq![WndprocEvent::WindowMoved { position: Vec2 { x: i.rect_left, y: i.rect_top }, by_user: false }],
            WndprocReturn::Value(1),
        )
    } else if m == WM_SIZE {
        (
            seq![
                WndprocEvent::WindowResized {
                    size: Extent2 { w: lparam_low_i16(i.lparam) as u32, h: lparam_high_i16(i.lparam) as u32 },
                    by_user: false,
                },
            ],
            WndprocReturn::Value(0),
        )
    } else if m == WM_SIZING {
        (
            seq![
                WndprocEvent::WindowResized {
                    size: Extent2 {
                        w: (i.rect_right - i.rect_left) as u32,
                        h: (i.rect_bottom - i.rect_top) as u32,
                    },
                    by_user: false,
                },
            ],
            WndprocReturn::Value(1),
        )
    } else if m == WM_WINDOWPOSCHANGED || m == WM_WINDOWPOSCHANGING {
        (winpos_events(i), WndprocReturn::Value(0))
    } else if m == WM_MOUSEMOVE {
        (seq![WndprocEvent::MouseMotion { position: lparam_position(i.lparam) }], WndprocReturn::Value(0))
    } else if m == WM_MOUSEWHEEL || m == WM_MOUSEHWHEEL {
        (
            seq![
                WndprocEvent::MouseMotion { position: lparam_position(i.lparam) },
                WndprocEvent::MouseScroll {
                    horizontal: m == WM_MOUSEHWHEEL,
                    wheel_delta: wparam_high_u16(i.wparam) as i16,
                },
            ],
            WndprocReturn::Value(0),
        )
    } else if is_button_message(m) {
        let button = message_button_spec(m, wparam_high_u16(i.wparam));
        let is_down = !(m == WM_LBUTTONUP || m == WM_MBUTTONUP || m == WM_RBUTTONUP || m == WM_XBUTTONUP);
        let clicks = if m == WM_LBUTTONDBLCLK || m == WM_MBUTTONDBLCLK || m == WM_RBUTTONDBLCLK || m
            == WM_XBUTTONDBLCLK {
            Some(2u32)
        } else {
            None
        };
        (
            seq![
                WndprocEvent::MouseMotion { position: lparam_position(i.lparam) },
                if is_down {
                    WndprocEvent::MouseButtonPressed { button, clicks }
                } else {
                    WndprocEvent::MouseButtonReleased { button }
                },
            ],
            WndprocReturn::Value(if WM_XBUTTONDOWN <= m <= WM_XBUTTONDBLCLK { 1 } else { 0 }),
        )
    } else {
        (Seq::empty(), WndprocReturn::DefaultWindowProc)
    }
}

fn wparam_high(wparam: usize) -> (r: u16)
    ensures
        r == wparam_high_u16(wparam),
{
    ((wparam as u32) >> 16u32) as u16
}

fn position_from_lparam(lparam: isize) -> (r: Vec2<i32>)
    ensures
        r == lparam_position(lparam),
{
    let p = window_moved_position(lparam);
    Vec2 { x: p.x as i32, y: p.y as i32 }
}

fn one(e: WndprocEvent, ret: isize) -> (r: WndprocDecision)
    ensures
        r.events@ == seq![e],
        r.ret == WndprocReturn::Value(ret),
{
    let mut events: Vec<WndprocEvent> = Vec::new();
    events.push(e);
    assert(events@ =~= seq![e]);
    WndprocDecision { events, ret: WndprocReturn::Value(ret) }
}

fn two(e1: WndprocEvent, e2: WndprocEvent, ret: isize) -> (r: WndprocDecision)
    ensures
        r.events@ == seq![e1, e2],
        r.ret == WndprocReturn::Value(ret),
{
    let mut events: Vec<WndprocEvent> = Vec::new();
    events.push(e1);
    events.push(e2);
    assert(events@ =~= seq![e1, e2]);
    WndprocDecision { events, ret: WndprocReturn::Value(ret) }
}

/// Decides what the window procedure makes of a message: the events that it reports for
/// the window, in order, and what it returns.
pub fn wndproc_decision(i: &WndprocInput) -> (r: WndprocDecision)
    requires
        wndproc_input_valid(*i),
    ensures
        r.events@ == wndproc_spec(*i).0,
        r.ret == wndproc_spec(*i).1,
{
    let m = i.msg;
    if m == WM_QUIT {
        one(WndprocEvent::Quit, 0)
    } else if m == WM_CLOSE {
        one(WndprocEvent::WindowCloseRequested, 0)
    } else if m == WM_MOVE {
        one(WndprocEvent::WindowMoved { position: position_from_lparam(i.lparam), by_user: false }, 0)
    } else if m == WM_MOVING {
        one(WndprocEvent::WindowMoved { position: Vec2 { x: i.rect_left, y: i.rect_top }, by_user: false }, 1)
    } else if m == WM_SIZE {
        let p = window_moved_position(i.lparam);
        one(WndprocEvent::WindowResized { size: Extent2 { w: p.x as u32, h: p.y as u32 }, by_user: false }, 0)
    } else if m == WM_SIZING {
        let w = i.rect_right - i.rect_left;
        let h = i.rect_bottom - i.rect_top;
        one(WndprocEvent::WindowResized { size: Extent2 { w: w as u32, h: h as u32 }, by_user: false }, 1)
    } else if m == WM_WINDOWPOSCHANGED || m == WM_WINDOWPOSCHANGING {
        let mut events: Vec<WndprocEvent> = Vec::new();
        if i.winpos_flags & SWP_NOMOVE == 0 {
            events.push(WndprocEvent::WindowMoved { position: Vec2 { x: i.winpos_x, y: i.winpos_y }, by_user: true });
        }
        if i.winpos_flags & SWP_NOSIZE == 0 {
            events.push(
                WndprocEvent::WindowResized {
                    size: Extent2 { w: i.winpos_cx as u32, h: i.winpos_cy as u32 },
                    by_user: true,
                },
            );
        }
        assert(events@ =~= winpos_events(*i));
        WndprocDecision { events, ret: WndprocReturn::Value(0) }
    } else if m == WM_MOUSEMOVE {
        one(WndprocEvent::MouseMotion { position: position_from_lparam(i.lparam) }, 0)
    } else if m == WM_MOUSEWHEEL || m == WM_MOUSEHWHEEL {
        two(
            WndprocEvent::MouseMotion { position: position_from_lparam(i.lparam) },
            WndprocEvent::MouseScroll { horizontal: m == WM_MOUSEHWHEEL, wheel_delta: wparam_high(i.wparam) as i16 },
            0,
        )
    } else {
        match decode_mouse_button_message(m, wparam_high(i.wparam)) {
            Some(b) => {
                let e = if b.is_down {
                    WndprocEvent::MouseButtonPressed { button: b.button, clicks: b.clicks }
                } else {
                    WndprocEvent::MouseButtonReleased { button: b.button }
                };
                two(WndprocEvent::MouseMotion { position: position_from_lparam(i.lparam) }, e, b.result)
            },
            None => WndprocDecision { events: Vec::new(), ret: WndprocReturn::DefaultWindowProc },
        }
    }
}


/// The wheel messages report where the pointer is, then a scroll by the wheel delta in the
/// high word of `WPARAM`: `WM_MOUSEWHEEL` (0x020A) a vertical one and `WM_MOUSEHWHEEL`
/// (0x020E) a horizontal one; both return 0.
pub proof fn lemma_wheel_messages(i: WndprocInput)
    requires
        i.msg == 0x020A || i.msg == 0x020E,
    ensures
        wndproc_spec(i).0 == seq![
            WndprocEvent::MouseMotion {
                position: Vec2 {
                    x: (((i.lparam as u32) & 0xffff) as u16 as i16) as i32,
                    y: ((((i.lparam as u32) >> 16u32) & 0xffff) as u16 as i16) as i32,
                },
            },
            WndprocEvent::MouseScroll {
                horizontal: i.msg == 0x020E,
                wheel_delta: (((i.wparam as u32) >> 16u32) as u16) as i16,
            },
        ],
        i.msg == 0x020A ==> (wndproc_spec(i).0[1] matches WndprocEvent::MouseScroll { horizontal, .. } && !horizontal),
        i.msg == 0x020E ==> (wndproc_spec(i).0[1] matches WndprocEvent::MouseScroll { horizontal, .. } && horizontal),
        wndproc_spec(i).1 == WndprocReturn::Value(0),
{
}

/// The mouse button messages report where the pointer is, then the button: messages
/// 0x0201 to 0x0203 are the left button (down, up, double click), 0x0204 to 0x0206 the
/// right one, 0x0207 to 0x0209 the middle one, and 0x020B to 0x020D the X button that the
/// high word of `WPARAM` names (1 back, 2 forward). A double click is a press with two
/// clicks. The X buttons' messages return 1, the others 0.
pub proof fn lemma_button_messages(i: WndprocInput)
    requires
        0x0201 <= i.msg <= 0x0209 || 0x020B <= i.msg <= 0x020D,
    ensures
        ({
            let ev = wndproc_spec(i).0;
            let xb = ((i.wparam as u32) >> 16u32) as u16;
            let button = if i.msg <= 0x0203 {
                MouseButton::Left
            } else if i.msg <= 0x0206 {
                MouseButton::Right
            } else if i.msg <= 0x0209 {
                MouseButton::Middle
            } else if xb == 1 {
                MouseButton::Back
            } else if xb == 2 {
                MouseButton::Forward
            } else {
                MouseButton::Other(xb as i32)
            };
            let kind = if i.msg <= 0x0209 { (i.msg - 0x0201) % 3 } else { (i.msg - 0x020B) % 3 };
            &&& ev.len() == 2
            &&& ev[0] == WndprocEvent::MouseMotion {
                position: Vec2 {
                    x: (((i.lparam as u32) & 0xffff) as u16 as i16) as i32,
                    y: ((((i.lparam as u32) >> 16u32) & 0xffff) as u16 as i16) as i32,
                },
            }
            &&& kind == 0 ==> ev[1] == WndprocEvent::MouseButtonPressed { button, clicks: None }
            &&& kind == 1 ==> ev[1] == WndprocEvent::MouseButtonReleased { button }
            &&& kind == 2 ==> ev[1] == WndprocEvent::MouseButtonPressed { button, clicks: Some(2) }
            &&& wndproc_spec(i).1 == WndprocReturn::Value(if i.msg >= 0x020B { 1 } else { 0 })
        }),
{
}

/// Moves and resizes: `WM_MOVE` (3) and `WM_SIZE` (5) report the signed low and high
/// words of `LPARAM` and return 0, not the user's doing; `WM_MOVING` and `WM_SIZING` report
/// the rectangle's top-left corner and its width and height and return 1; `WM_CLOSE`
/// reports a close request and `WM_QUIT` the end, each returning 0.
pub proof fn lemma_window_messages(i: WndprocInput)
    requires
        wndproc_input_valid(i),
    ensures
        i.msg == 3 ==> wndproc_spec(i) == (seq![WndprocEvent::WindowMoved {
            position: Vec2 {
                x: (((i.lparam as u32) & 0xffff) as u16 as i16) as i32,
                y: ((((i.lparam as u32) >> 16u32) & 0xffff) as u16 as i16) as i32,
            },
            by_user: false,
        }], WndprocReturn::Value(0)),
        i.msg == 5 ==> wndproc_spec(i) == (seq![WndprocEvent::WindowResized {
            size: Extent2 {
                w: (((i.lparam as u32) & 0xffff) as u16 as i16) as u32,
                h: ((((i.lparam as u32) >> 16u32) & 0xffff) as u16 as i16) as u32,
            },
            by_user: false,
        }], WndprocReturn::Value(0)),
        i.msg == 0x0216 ==> wndproc_spec(i) == (seq![WndprocEvent::WindowMoved {
            position: Vec2 { x: i.rect_left, y: i.rect_top },
            by_user: false,
        }], WndprocReturn::Value(1)),
        i.msg == 0x0214 ==> wndproc_spec(i) == (seq![WndprocEvent::WindowResized {
            size: Extent2 { w: (i.rect_right - i.rect_left) as u32, h: (i.rect_bottom - i.rect_top) as u32 },
            by_user: false,
        }], WndprocReturn::Value(1)),
        i.msg == 0x0010 ==> wndproc_spec(i) == (seq![WndprocEvent::WindowCloseRequested], WndprocReturn::Value(0)),
        i.msg == 0x0012 ==> wndproc_spec(i) == (seq![WndprocEvent::Quit], WndprocReturn::Value(0)),
{
}

} // verus!
