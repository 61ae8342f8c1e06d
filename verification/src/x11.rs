//! X11 decisions: window manager protocol values, and what mouse buttons, key repeats and
//! pointer crossings become.

use vstd::prelude::*;
use crate::device::MouseButton;
use crate::error::{Error, ErrorKind, reason_view};
use crate::geom::{Rect, Rgba, Vec2};
use crate::image::Image;

verus! {

/// Standard XRender picture formats.
#[derive(Debug, Copy, Clone, Hash, PartialEq, Eq, Structural)]
pub enum PictStandard {
    ARGB32,
    RGB24,
    A8,
    A4,
    A1,
    NUM,
}

impl PictStandard {
    /// The value XRender gives this format (`PictStandardARGB32` is 0, and so on).
    pub fn code(&self) -> (r: i32)
        ensures
            r == match *self {
                PictStandard::ARGB32 => 0i32,
                PictStandard::RGB24 => 1i32,
                PictStandard::A8 => 2i32,
                PictStandard::A4 => 3i32,
                PictStandard::A1 => 4i32,
                PictStandard::NUM => 5i32,
            },
    {
        match self {
            PictStandard::ARGB32 => 0,
            PictStandard::RGB24 => 1,
            PictStandard::A8 => 2,
            PictStandard::A4 => 3,
            PictStandard::A1 => 4,
            PictStandard::NUM => 5,
        }
    }
}

/// What a `_NET_WM_STATE` client message does to the listed states.
#[derive(Debug, Copy, Clone, Hash, PartialEq, Eq, Structural)]
pub enum NetWMStateAction {
    Remove,
    Add,
    Toggle,
}

/// The value the protocol gives an action.
pub open spec fn state_action_code(a: NetWMStateAction) -> u32 {
    match a {
        NetWMStateAction::Remove => 0u32,
        NetWMStateAction::Add => 1u32,
        NetWMStateAction::Toggle => 2u32,
    }
}

impl NetWMStateAction {
    /// The value the protocol gives the action.
    pub fn code(&self) -> (r: u32)
        ensures
            r == state_action_code(*self),
    {
        match self {
            NetWMStateAction::Remove => 0,
            NetWMStateAction::Add => 1,
            NetWMStateAction::Toggle => 2,
        }
    }
}

/// The data of a `_NET_WM_STATE` client message: the action, the two states, and 1 to say
/// that the request comes from a normal application.
pub fn net_wm_state_message_data(action: NetWMStateAction, prop1: i64, prop2: i64) -> (r: [i64; 5])
    ensures
        r@ == seq![state_action_code(action) as i64, prop1, prop2, 1i64, 0i64],
{
    let r: [i64; 5] = [action.code() as i64, prop1, prop2, 1, 0];
    assert(r@ =~= seq![state_action_code(action) as i64, prop1, prop2, 1i64, 0i64]);
    r
}

/// The `_NET_WM_BYPASS_COMPOSITOR` preference of a window.
#[derive(Debug, Copy, Clone, Hash, PartialEq, Eq, Structural)]
pub enum BypassCompositor {
    NoPreference,
    Yes,
    No,
}

/// The name of a compositor preference, as `Debug` writes it.
pub open spec fn bypass_name(b: BypassCompositor) -> Seq<char> {
    match b {
        BypassCompositor::NoPreference => "NoPreference"@,
        BypassCompositor::Yes => "Yes"@,
        BypassCompositor::No => "No"@,
    }
}

impl BypassCompositor {
    /// The value the protocol gives the preference.
    pub fn code(&self) -> (r: u64)
        ensures
            r == match *self {
                BypassCompositor::NoPreference => 0u64,
                BypassCompositor::Yes => 1u64,
                BypassCompositor::No => 2u64,
            },
    {
        match self {
            BypassCompositor::NoPreference => 0,
            BypassCompositor::Yes => 1,
            BypassCompositor::No => 2,
        }
    }
}

/// The value to write to `_NET_WM_BYPASS_COMPOSITOR`, whose atom is `atom`; the window
/// manager must know the property (a non-zero atom).
pub fn bypass_compositor_value(atom: u64, doit: BypassCompositor) -> (r: Result<u64, Error>)
    ensures
        atom != 0 ==> r == Ok::<u64, Error>(match doit {
            BypassCompositor::NoPreference => 0u64,
            BypassCompositor::Yes => 1u64,
            BypassCompositor::No => 2u64,
        }),
        atom == 0 ==> (r matches Err(e) && e.kind == ErrorKind::Failed && reason_view(e.reason) == Some(
            "Can't set _NET_WM_BYPASS_COMPOSITOR to "@ + bypass_name(doit),
        )),
{
    if atom == 0 {
        let mut m = String::from_str("Can't set _NET_WM_BYPASS_COMPOSITOR to ");
        let name = match doit {
            BypassCompositor::NoPreference => "NoPreference",
            BypassCompositor::Yes => "Yes",
            BypassCompositor::No => "No",
        };
        m.append(name);
        return Err(Error::failed(m));
    }
    Ok(doit.code())
}

/// Window types of the `_NET_WM_WINDOW_TYPE` property.
#[derive(Debug, Copy, Clone, Hash, PartialEq, Eq, Structural)]
pub enum NetWMWindowType {
    Desktop,
    Dock,
    Toolbar,
    Menu,
    Utility,
    Splash,
    Dialog,
    DropdownMenu,
    PopupMenu,
    Tooltip,
    Notification,
    Combo,
    DND,
    Normal,
}

impl NetWMWindowType {
    /// The name of the atom that stands for this window type.
    pub fn atom_name(&self) -> (r: &'static str)
        ensures
            r@ == match *self {
                NetWMWindowType::Desktop => "_NET_WM_WINDOW_TYPE_DESKTOP"@,
                NetWMWindowType::Dock => "_NET_WM_WINDOW_TYPE_DOCK"@,
                NetWMWindowType::Toolbar => "_NET_WM_WINDOW_TYPE_TOOLBAR"@,
                NetWMWindowType::Menu => "_NET_WM_WINDOW_TYPE_MENU"@,
                NetWMWindowType::Utility => "_NET_WM_WINDOW_TYPE_UTILITY"@,
                NetWMWindowType::Splash => "_NET_WM_WINDOW_TYPE_SPLASH"@,
                NetWMWindowType::Dialog => "_NET_WM_WINDOW_TYPE_DIALOG"@,
                NetWMWindowType::DropdownMenu => "_NET_WM_WINDOW_TYPE_DROPDOWN_MENU"@,
                NetWMWindowType::PopupMenu => "_NET_WM_WINDOW_TYPE_POPUP_MENU"@,
                NetWMWindowType::Tooltip => "_NET_WM_WINDOW_TYPE_TOOLTIP"@,
                NetWMWindowType::Notification => "_NET_WM_WINDOW_TYPE_NOTIFICATION"@,
                NetWMWindowType::Combo => "_NET_WM_WINDOW_TYPE_COMBO"@,
                NetWMWindowType::DND => "_NET_WM_WINDOW_TYPE_DND"@,
                NetWMWindowType::Normal => "_NET_WM_WINDOW_TYPE_NORMAL"@,
            },
    {
        match self {
            NetWMWindowType::Desktop => "_NET_WM_WINDOW_TYPE_DESKTOP",
            NetWMWindowType::Dock => "_NET_WM_WINDOW_TYPE_DOCK",
            NetWMWindowType::Toolbar => "_NET_WM_WINDOW_TYPE_TOOLBAR",
            NetWMWindowType::Menu => "_NET_WM_WINDOW_TYPE_MENU",
            NetWMWindowType::Utility => "_NET_WM_WINDOW_TYPE_UTILITY",
            NetWMWindowType::Splash => "_NET_WM_WINDOW_TYPE_SPLASH",
            NetWMWindowType::Dialog => "_NET_WM_WINDOW_TYPE_DIALOG",
            NetWMWindowType::DropdownMenu => "_NET_WM_WINDOW_TYPE_DROPDOWN_MENU",
            NetWMWindowType::PopupMenu => "_NET_WM_WINDOW_TYPE_POPUP_MENU",
            NetWMWindowType::Tooltip => "_NET_WM_WINDOW_TYPE_TOOLTIP",
            NetWMWindowType::Notification => "_NET_WM_WINDOW_TYPE_NOTIFICATION",
            NetWMWindowType::Combo => "_NET_WM_WINDOW_TYPE_COMBO",
            NetWMWindowType::DND => "_NET_WM_WINDOW_TYPE_DND",
            NetWMWindowType::Normal => "_NET_WM_WINDOW_TYPE_NORMAL",
        }
    }
}

/// What an X button press becomes.
#[derive(Debug, Copy, Clone, Hash, PartialEq, Eq, Structural)]
pub enum XButtonPress {
    /// A mouse button was pressed.
    Pressed(MouseButton),
    /// The wheel was scrolled by one step in this direction.
    Scroll(Vec2<i32>),
}

/// What pressing X button `button` becomes: 1 to 3 are the left, middle and right buttons,
/// 4 to 7 scroll up, down, left and right, 8 and 9 are the back and forward buttons, and
/// others are other buttons.
pub open spec fn x_button_press_spec(button: u32) -> XButtonPress {
    if button == 1 {
        XButtonPress::Pressed(MouseButton::Left)
    } else if button == 2 {
        XButtonPress::Pressed(MouseButton::Middle)
    } else if button == 3 {
        XButtonPress::Pressed(MouseButton::Right)
    } else if button == 4 {
        XButtonPress::Scroll(Vec2 { x: 0, y: 1 })
    } else if button == 5 {
        XButtonPress::Scroll(Vec2 { x: 0, y: -1i32 })
    } else if button == 6 {
        XButtonPress::Scroll(Vec2 { x: -1i32, y: 0 })
    } else if button == 7 {
        XButtonPress::Scroll(Vec2 { x: 1, y: 0 })
    } else if button == 8 {
        XButtonPress::Pressed(MouseButton::Back)
    } else if button == 9 {
        XButtonPress::Pressed(MouseButton::Forward)
    } else {
        XButtonPress::Pressed(MouseButton::Other(button as i32))
    }
}

/// What pressing X button `button` becomes.
pub fn x_button_press(button: u32) -> (r: XButtonPress)
    ensures
        r == x_button_press_spec(button),
{
    if button == 1 {
        XButtonPress::Pressed(MouseButton::Left)
    } else if button == 2 {
        XButtonPress::Pressed(MouseButton::Middle)
    } else if button == 3 {
        XButtonPress::Pressed(MouseButton::Right)
    } else if button == 4 {
        XButtonPress::Scroll(Vec2 { x: 0, y: 1 })
    } else if button == 5 {
        XButtonPress::Scroll(Vec2 { x: 0, y: -1 })
    } else if button == 6 {
        XButtonPress::Scroll(Vec2 { x: -1, y: 0 })
    } else if button == 7 {
        XButtonPress::Scroll(Vec2 { x: 1, y: 0 })
    } else if button == 8 {
        XButtonPress::Pressed(MouseButton::Back)
    } else if button == 9 {
        XButtonPress::Pressed(MouseButton::Forward)
    } else {
        XButtonPress::Pressed(MouseButton::Other(button as i32))
    }
}

/// The mouse button that releasing X button `button` stands for; the release of the
/// others, scroll buttons included, is dropped.
pub fn x_button_release(button: u32) -> (r: Option<MouseButton>)
    ensures
        r == if button == 1 {
            Some(MouseButton::Left)
        } else if button == 2 {
            Some(MouseButton::Middle)
        } else if button == 3 {
            Some(MouseButton::Right)
        } else {
            None::<MouseButton>
        },
{
    if button == 1 {
        Some(MouseButton::Left)
    } else if button == 2 {
        Some(MouseButton::Middle)
    } else if button == 3 {
        Some(MouseButton::Right)
    } else {
        None
    }
}

/// Is a key press a repetition? It is when the last key release had the same time and
/// key code.
pub fn is_key_repeat(last_release_time: u64, last_release_keycode: u32, time: u64, keycode: u32) -> (r: bool)
    ensures
        r == (last_release_time == time && last_release_keycode == keycode),
{
    last_release_time == time && last_release_keycode == keycode
}

/// X's `NotifyNormal`, `NotifyGrab` and `NotifyUngrab` crossing modes.
pub const NOTIFY_NORMAL: i32 = 0;
pub const NOTIFY_GRAB: i32 = 1;
pub const NOTIFY_UNGRAB: i32 = 2;

/// What the pointer crossing into or out of a window becomes.
#[derive(Debug, Copy, Clone, Hash, PartialEq, Eq, Structural)]
pub enum Crossing {
    MouseEnter,
    MouseFocusGained,
    MouseLeave,
    MouseFocusLost,
}

/// What an `EnterNotify` becomes, by its mode: a normal crossing, or a grab.
pub fn enter_notify_crossing(mode: i32) -> (r: Crossing)
    requires
        mode == NOTIFY_NORMAL || mode == NOTIFY_GRAB,
    ensures
        r == if mode == NOTIFY_NORMAL { Crossing::MouseEnter } else { Crossing::MouseFocusGained },
{
    if mode == NOTIFY_NORMAL {
        Crossing::MouseEnter
    } else {
        Crossing::MouseFocusGained
    }
}

/// What a `LeaveNotify` becomes, by its mode: a normal crossing, or the end of a grab.
pub fn leave_notify_crossing(mode: i32) -> (r: Crossing)
    requires
        mode == NOTIFY_NORMAL || mode == NOTIFY_UNGRAB,
    ensures
        r == if mode == NOTIFY_NORMAL { Crossing::MouseLeave } else { Crossing::MouseFocusLost },
{
    if mode == NOTIFY_NORMAL {
        Crossing::MouseLeave
    } else {
        Crossing::MouseFocusLost
    }
}

/// Motif window manager hints (`_MOTIF_WM_HINTS`).
pub const MWM_HINTS_FUNCTIONS: u64 = 1 << 0;
pub const MWM_HINTS_DECORATIONS: u64 = 1 << 1;
pub const MWM_DECOR_BORDER: u64 = 1 << 1;
pub const MWM_DECOR_TITLE: u64 = 1 << 3;
pub const MWM_DECOR_MENU: u64 = 1 << 4;
pub const MWM_DECOR_MINIMIZE: u64 = 1 << 5;
pub const MWM_DECOR_MAXIMIZE: u64 = 1 << 6;
pub const MWM_FUNC_MOVE: u64 = 1 << 2;
pub const MWM_FUNC_MINIMIZE: u64 = 1 << 3;
pub const MWM_FUNC_MAXIMIZE: u64 = 1 << 4;
pub const MWM_FUNC_CLOSE: u64 = 1 << 5;

/// The buttons of a window's title bar.
#[derive(Debug, Copy, Clone, Hash, PartialEq, Eq, Structural)]
pub struct TitleBarButtons {
    pub minimize_button: bool,
    pub maximize_button: bool,
}

/// The content of a `_MOTIF_WM_HINTS` property.
#[derive(Debug, Copy, Clone, Hash, PartialEq, Eq, Structural)]
pub struct MwmHints {
    pub flags: u64,
    pub functions: u64,
    pub decorations: u64,
    pub input_mode: i64,
    pub state: u64,
}

/// The Motif hints for a window with an optional title bar: a title bar brings a border,
/// a title, a menu and moving; a minimize button brings minimizing; a maximize button
/// brings maximizing and closing.
pub open spec fn mwm_hints_spec(title_bar: Option<TitleBarButtons>) -> MwmHints {
    let (decorations, functions) = match title_bar {
        None => (0u64, 0u64),
        Some(t) => (
            MWM_DECOR_BORDER | MWM_DECOR_TITLE | MWM_DECOR_MENU
                | (if t.minimize_button { MWM_DECOR_MINIMIZE } else { 0u64 })
                | (if t.maximize_button { MWM_DECOR_MAXIMIZE } else { 0u64 }),
            MWM_FUNC_MOVE
                | (if t.minimize_button { MWM_FUNC_MINIMIZE } else { 0u64 })
                | (if t.maximize_button { MWM_FUNC_MAXIMIZE | MWM_FUNC_CLOSE } else { 0u64 }),
        ),
    };
    MwmHints {
        flags: MWM_HINTS_FUNCTIONS | MWM_HINTS_DECORATIONS,
        functions,
        decorations,
        input_mode: 0,
        state: 0,
    }
}

/// The Motif hints that give a window its style; the window manager must know the
/// property (a non-zero atom).
pub fn mwm_hints_for_style(wmhints_atom: u64, title_bar: Option<TitleBarButtons>) -> (r: Result<MwmHints, Error>)
    ensures
        wmhints_atom != 0 ==> r == Ok::<MwmHints, Error>(mwm_hints_spec(title_bar)),
        wmhints_atom == 0 ==> (r matches Err(e) && e.kind == ErrorKind::Failed && reason_view(e.reason)
            == Some("Setting window style requires the _MOTIF_WM_HINTS atom!"@)),
{
    if wmhints_atom == 0 {
        return Err(Error::failed(String::from_str("Setting window style requires the _MOTIF_WM_HINTS atom!")));
    }
    let (decorations, functions): (u64, u64) = match title_bar {
        None => (0, 0),
        Some(t) => {
            let dm: u64 = if t.minimize_button { MWM_DECOR_MINIMIZE } else { 0 };
            let dx: u64 = if t.maximize_button { MWM_DECOR_MAXIMIZE } else { 0 };
            let fm: u64 = if t.minimize_button { MWM_FUNC_MINIMIZE } else { 0 };
            let fx: u64 = if t.maximize_button { MWM_FUNC_MAXIMIZE | MWM_FUNC_CLOSE } else { 0 };
            (MWM_DECOR_BORDER | MWM_DECOR_TITLE | MWM_DECOR_MENU | dm | dx, MWM_FUNC_MOVE | fm | fx)
        },
    };
    Ok(MwmHints {
        flags: MWM_HINTS_FUNCTIONS | MWM_HINTS_DECORATIONS,
        functions,
        decorations,
        input_mode: 0,
        state: 0,
    })
}

/// The usable part of the screen: the first four values of `_NET_WORKAREA` (x, y, width,
/// height) when the property could be read with at least four values, else the whole
/// display.
pub open spec fn usable_viewport_spec(workarea: Option<Seq<i64>>, display_w: u32, display_h: u32) -> Rect<i32, u32> {
    match workarea {
        Some(p) => if p.len() >= 4 {
            Rect { x: p[0] as i32, y: p[1] as i32, w: p[2] as u32, h: p[3] as u32 }
        } else {
            Rect { x: 0, y: 0, w: display_w, h: display_h }
        },
        None => Rect { x: 0, y: 0, w: display_w, h: display_h },
    }
}

/// The usable part of the screen, from the `_NET_WORKAREA` property if it could be read.
pub fn usable_viewport(workarea: Option<&Vec<i64>>, display_w: u32, display_h: u32) -> (r: Rect<i32, u32>)
    ensures
        r == usable_viewport_spec(
            match workarea {
                Some(v) => Some(v@),
                None => None,
            },
            display_w,
            display_h,
        ),
{
    match workarea {
        Some(p) => if p.len() >= 4 {
            Rect { x: p[0] as i32, y: p[1] as i32, w: p[2] as u32, h: p[3] as u32 }
        } else {
            Rect { x: 0, y: 0, w: display_w, h: display_h }
        },
        None => Rect { x: 0, y: 0, w: display_w, h: display_h },
    }
}

/// A pixel packed as `_NET_WM_ICON` wants it: alpha, red, green and blue, from the
/// highest byte to the lowest.
pub open spec fn argb_spec(p: Rgba<u8>) -> u32 {
    (p.a as u32) << 24u32 | (p.r as u32) << 16u32 | (p.g as u32) << 8u32 | (p.b as u32)
}

/// The content of a `_NET_WM_ICON` property for an icon: its width, its height, then its
/// pixels row by row.
pub open spec fn net_wm_icon_spec(w: u32, h: u32, pixels: Seq<Rgba<u8>>) -> Seq<u32> {
    seq![w, h] + Seq::new((w * h) as nat, |i: int| argb_spec(pixels[i]))
}

/// The content of a `_NET_WM_ICON` property for an icon, whose pixels must all be there.
pub fn net_wm_icon_data(icon: &Image<Rgba<u8>>) -> (r: Vec<u32>)
    requires
        icon.size.w * icon.size.h <= u32::MAX,
        icon.size.w * icon.size.h <= icon.pixels@.len(),
    ensures
        r@ == net_wm_icon_spec(icon.size.w, icon.size.h, icon.pixels@),
{
    let w = icon.size.w;
    let h = icon.size.h;
    let mut prop: Vec<u32> = Vec::new();
    prop.push(w);
    prop.push(h);
    let ghost target = net_wm_icon_spec(w, h, icon.pixels@);
    let mut y: u32 = 0;
    while y < h
        invariant
            w == icon.size.w,
            h == icon.size.h,
            w * h <= u32::MAX,
            w * h <= icon.pixels@.len(),
            y <= h,
            target == net_wm_icon_spec(w, h, icon.pixels@),
            prop@ == target.subrange(0, 2 + w * y),
        decreases h - y,
    {
        let mut x: u32 = 0;
        proof {
            assert(w * y + w <= w * h) by (nonlinear_arith)
                requires
                    y < h,
            ;
        }
        while x < w
            invariant
                w == icon.size.w,
                h == icon.size.h,
                w * h <= u32::MAX,
                w * h <= icon.pixels@.len(),
                y < h,
                x <= w,
                w * y + w <= w * h,
                target == net_wm_icon_spec(w, h, icon.pixels@),
                prop@ == target.subrange(0, 2 + w * y + x),
            decreases w - x,
        {
            let i = w * y + x;
            let p = icon.pixels[i as usize];
            let argb: u32 = (p.a as u32) << 24u32 | (p.r as u32) << 16u32 | (p.g as u32) << 8u32
                | (p.b as u32);
            prop.push(argb);
            proof {
                assert(target[2 + i] == argb_spec(icon.pixels@[i as int]));
                assert(prop@ =~= target.subrange(0, 2 + w * y + x + 1));
            }
            x = x + 1;
        }
        proof {
            assert(w * (y + 1) == w * y + w) by (nonlinear_arith);
        }
        y = y + 1;
    }
    proof {
        assert(target.len() == 2 + w * h);
        assert(prop@ =~= target);
    }
    prop
}


/// A packed icon pixel holds alpha, red, green and blue as base-256 digits, from the
/// highest to the lowest.
pub proof fn lemma_argb_digits(p: Rgba<u8>)
    ensures
        argb_spec(p) == p.a as u32 * 0x100_0000 + p.r as u32 * 0x1_0000 + p.g as u32 * 0x100 + p.b as u32,
{
    let (a, r, g, b) = (p.a, p.r, p.g, p.b);
    assert(((a as u32) << 24u32 | (r as u32) << 16u32 | (g as u32) << 8u32 | (b as u32)) == a as u32
        * 0x100_0000 + r as u32 * 0x1_0000 + g as u32 * 0x100 + b as u32) by (bit_vector);
}

} // verus!
