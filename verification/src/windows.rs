//! Win32 helpers: wide strings, window classes, failure messages, and the decoding of
//! window messages about the mouse, moves and resizes.

use vstd::prelude::*;
use crate::device::{MouseButton, XBUTTON1, XBUTTON2};
use crate::error::{Error, ErrorKind, reason_view};
use crate::geom::{Extent2, Vec2};
use crate::strings::{decimal_spec, push_decimal};

verus! {

/// The UTF-16 code units of one character.
pub open spec fn utf16_of_char(c: char) -> Seq<u16> {
    let v = c as u32;
    if v < 0x10000 {
        seq![v as u16]
    } else {
        let w = (v - 0x10000) as u32;
        seq![(0xD800 + (w >> 10u32)) as u16, (0xDC00 + (w & 0x3FF)) as u16]
    }
}

/// The UTF-16 encoding of a string.
pub open spec fn utf16_of(s: Seq<char>) -> Seq<u16>
    decreases s.len(),
{
    if s.len() == 0 {
        Seq::empty()
    } else {
        utf16_of(s.drop_last()) + utf16_of_char(s.last())
    }
}

fn push_utf16(out: &mut Vec<u16>, c: char)
    ensures
        final(out)@ == old(out)@ + utf16_of_char(c),
{
    let v = c as u32;
    if v < 0x10000 {
        out.push(v as u16);
        assert(final(out)@ =~= old(out)@ + utf16_of_char(c));
    } else {
        assert(v <= 0x10FFFF);
        let w: u32 = v - 0x10000;
        assert((w >> 10u32) < 0x400) by (bit_vector)
            requires
                w <= 0xFFFFF,
        ;
        assert((w & 0x3FF) < 0x400) by (bit_vector);
        out.push((0xD800 + (w >> 10u32)) as u16);
        out.push((0xDC00 + (w & 0x3FF)) as u16);
        assert(final(out)@ =~= old(out)@ + utf16_of_char(c));
    }
}

/// A string as UTF-16 code units, as Win32 takes it.
pub fn to_wide_without_nul(s: &str) -> (r: Vec<u16>)
    ensures
        r@ == utf16_of(s@),
{
    let n = s.unicode_len();
    let mut out: Vec<u16> = Vec::new();
    let mut i: usize = 0;
    while i < n
        invariant
            n == s@.len(),
            i <= n,
            out@ == utf16_of(s@.subrange(0, i as int)),
        decreases n - i,
    {
        let c = s.get_char(i);
        push_utf16(&mut out, c);
        assert(s@.subrange(0, i + 1).drop_last() =~= s@.subrange(0, i as int));
        i = i + 1;
    }
    assert(s@.subrange(0, n as int) =~= s@);
    out
}

/// A string as UTF-16 code units, followed by a terminating 0.
pub fn to_wide_with_nul(s: &str) -> (r: Vec<u16>)
    ensures
        r@ == utf16_of(s@).push(0),
{
    let mut w = to_wide_without_nul(s);
    w.push(0);
    w
}

/// The pointer-sized value that stands for a class atom where Win32 expects a class name.
#[allow(non_snake_case)]
pub fn MAKEINTATOM(atom: u16) -> (r: usize)
    ensures
        r == atom,
{
    atom as usize
}

/// The message of a failed Win32 call: its name, the error code, and the system's text for
/// that code.
pub open spec fn winapi_failure_message(name: Seq<char>, err: u32, text: Seq<char>) -> Seq<char> {
    name + "() failed with error "@ + decimal_spec(err as nat) + ": "@ + text
}

/// Fails because the Win32 function `name` failed with error `err`, whose text, as the
/// system gives it, is `err_text`.
pub fn winapi_fail_with_error_code<T>(name: &str, err: u32, err_text: &str) -> (r: Result<T, Error>)
    ensures
        r matches Err(e) && e.kind == ErrorKind::Failed && reason_view(e.reason) == Some(
            winapi_failure_message(name@, err, err_text@),
        ),
{
    let mut m = String::from_str(name);
    m.append("() failed with error ");
    push_decimal(&mut m, err as u64);
    m.append(": ");
    m.append(err_text);
    Err(Error::failed(m))
}

/// Window class styles (`CS_*` in `winuser.h`).
pub const CS_VREDRAW: u32 = 0x0001;
pub const CS_HREDRAW: u32 = 0x0002;
pub const CS_DBLCLKS: u32 = 0x0008;
pub const CS_OWNDC: u32 = 0x0020;
pub const CS_NOCLOSE: u32 = 0x0200;

/// What a window class is registered with.
#[derive(Debug, Copy, Clone, Hash, PartialEq, Eq, Structural)]
pub struct ClassSettings {
    pub owndc: bool,
    pub noclose: bool,
}

/// The style of a window class: double clicks and redrawing on resize always, its own
/// device context and no close button when asked for.
pub open spec fn class_style_spec(s: ClassSettings) -> u32 {
    CS_DBLCLKS | CS_HREDRAW | CS_VREDRAW | (if s.owndc { CS_OWNDC } else { 0u32 }) | (if s.noclose {
        CS_NOCLOSE
    } else {
        0u32
    })
}

impl ClassSettings {
    /// The style of a window class with these settings.
    pub fn class_style(&self) -> (r: u32)
        ensures
            r == class_style_spec(*self),
    {
        let a: u32 = if self.owndc { CS_OWNDC } else { 0 };
        let b: u32 = if self.noclose { CS_NOCLOSE } else { 0 };
        CS_DBLCLKS | CS_HREDRAW | CS_VREDRAW | a | b
    }
}

/// The name of the `n`-th window class registered by this process.
pub fn class_name(n: u32) -> (r: String)
    ensures
        r@ == "DMC WNDCLASS "@ + decimal_spec(n as nat),
{
    let mut s = String::from_str("DMC WNDCLASS ");
    push_decimal(&mut s, n as u64);
    s
}

/// A handle to a cursor.
#[derive(Debug, Hash)]
pub struct HCursor(pub usize);

/// What a Win32 context shares with its windows: the module instance and the window
/// classes registered so far.
#[derive(Debug)]
pub struct OsSharedContext {
    hinstance: usize,
    class_atoms: Vec<(ClassSettings, u16)>,
}

/// The atom of the first class registered with `settings`.
pub open spec fn class_lookup(classes: Seq<(ClassSettings, u16)>, settings: ClassSettings) -> Option<u16>
    decreases classes.len(),
{
    if classes.len() == 0 {
        None
    } else if classes[0].0 == settings {
        Some(classes[0].1)
    } else {
        class_lookup(classes.drop_first(), settings)
    }
}

impl OsSharedContext {
    /// The classes registered so far, with their atoms.
    pub closed spec fn classes(&self) -> Seq<(ClassSettings, u16)> {
        self.class_atoms@
    }

    /// The module instance.
    pub closed spec fn hinstance_spec(&self) -> usize {
        self.hinstance
    }

    /// A context for the module instance `hinstance`, with no class registered.
    pub fn new(hinstance: usize) -> (r: OsSharedContext)
        ensures
            r.hinstance_spec() == hinstance,
            r.classes().len() == 0,
    {
        OsSharedContext { hinstance, class_atoms: Vec::new() }
    }

    /// The module instance.
    pub fn hinstance(&self) -> (r: usize)
        ensures
            r == self.hinstance_spec(),
    {
        self.hinstance
    }

    /// The atom of the class registered with `settings`, if any.
    pub fn registered_class(&self, settings: &ClassSettings) -> (r: Option<u16>)
        ensures
            r == class_lookup(self.classes(), *settings),
    {
        let mut i: usize = 0;
        assert(self.class_atoms@.subrange(0, self.class_atoms@.len() as int) =~= self.class_atoms@);
        while i < self.class_atoms.len()
            invariant
                i <= self.class_atoms.len(),
                class_lookup(self.class_atoms@, *settings) == class_lookup(
                    self.class_atoms@.subrange(i as int, self.class_atoms@.len() as int),
                    *settings,
                ),
            decreases self.class_atoms.len() - i,
        {
            let ghost rest = self.class_atoms@.subrange(i as int, self.class_atoms@.len() as int);
            assert(rest.drop_first() =~= self.class_atoms@.subrange(i + 1, self.class_atoms@.len() as int));
            if self.class_atoms[i].0 == *settings {
                return Some(self.class_atoms[i].1);
            }
            i = i + 1;
        }
        None
    }

    /// Records the outcome of registering a class with `settings`, which was not registered:
    /// an atom of 0 is a failure of `RegisterClassExW`, with error `err` and its text.
    pub fn record_class_registration(&mut self, settings: ClassSettings, atom: u16, err: u32, err_text: &str) -> (r:
        Result<u16, Error>)
        requires
            class_lookup(old(self).classes(), settings) is None,
        ensures
            atom == 0 ==> final(self).classes() == old(self).classes() && (r matches Err(e) && e.kind
                == ErrorKind::Failed && reason_view(e.reason) == Some(
                winapi_failure_message("RegisterClassExW"@, err, err_text@),
            )),
            atom != 0 ==> final(self).classes() == old(self).classes().push((settings, atom)) && r
                == Ok::<u16, Error>(atom),
            final(self).hinstance_spec() == old(self).hinstance_spec(),
    {
        if atom == 0 {
            return winapi_fail_with_error_code("RegisterClassExW", err, err_text);
        }
        self.class_atoms.push((settings, atom));
        Ok(atom)
    }
}

/// A registered class is found again.
pub proof fn lemma_class_lookup_after_push(classes: Seq<(ClassSettings, u16)>, settings: ClassSettings, atom: u16)
    requires
        class_lookup(classes, settings) is None,
    ensures
        class_lookup(classes.push((settings, atom)), settings) == Some(atom),
    decreases classes.len(),
{
    if classes.len() > 0 {
        assert(classes.push((settings, atom)).drop_first() =~= classes.drop_first().push((settings, atom)));
        lemma_class_lookup_after_push(classes.drop_first(), settings, atom);
    }
}

/// Window messages (`WM_*` in `winuser.h`).
pub const WM_LBUTTONDOWN: u32 = 0x0201;
pub const WM_LBUTTONUP: u32 = 0x0202;
pub const WM_LBUTTONDBLCLK: u32 = 0x0203;
pub const WM_RBUTTONDOWN: u32 = 0x0204;
pub const WM_RBUTTONUP: u32 = 0x0205;
pub const WM_RBUTTONDBLCLK: u32 = 0x0206;
pub const WM_MBUTTONDOWN: u32 = 0x0207;
pub const WM_MBUTTONUP: u32 = 0x0208;
pub const WM_MBUTTONDBLCLK: u32 = 0x0209;
pub const WM_XBUTTONDOWN: u32 = 0x020B;
pub const WM_XBUTTONUP: u32 = 0x020C;
pub const WM_XBUTTONDBLCLK: u32 = 0x020D;
/// `XBUTTON1` and `XBUTTON2`, as `GET_XBUTTON_WPARAM` gives them.
pub const W32_XBUTTON1: u16 = 1;
pub const W32_XBUTTON2: u16 = 2;

/// What a mouse button message says.
#[derive(Debug, Copy, Clone, Hash, PartialEq, Eq, Structural)]
pub struct MouseButtonMessage {
    /// Is the button pressed (a double click counts)?
    pub is_down: bool,
    pub button: MouseButton,
    /// The number of clicks, for a double click.
    pub clicks: Option<u32>,
    /// What the window procedure returns: 1 for the X buttons, 0 otherwise.
    pub result: isize,
}

/// The button of a mouse button message; the X buttons are told apart by `xbutton`.
pub open spec fn message_button_spec(msg: u32, xbutton: u16) -> MouseButton {
    if msg == WM_LBUTTONDOWN || msg == WM_LBUTTONUP || msg == WM_LBUTTONDBLCLK {
        MouseButton::Left
    } else if msg == WM_MBUTTONDOWN || msg == WM_MBUTTONUP || msg == WM_MBUTTONDBLCLK {
        MouseButton::Middle
    } else if msg == WM_RBUTTONDOWN || msg == WM_RBUTTONUP || msg == WM_RBUTTONDBLCLK {
        MouseButton::Right
    } else if xbutton == W32_XBUTTON1 {
        XBUTTON1
    } else if xbutton == W32_XBUTTON2 {
        XBUTTON2
    } else {
        MouseButton::Other(xbutton as i32)
    }
}

/// Is `msg` a mouse button message?
pub open spec fn is_button_message(msg: u32) -> bool {
    (WM_LBUTTONDOWN <= msg <= WM_MBUTTONDBLCLK) || (WM_XBUTTONDOWN <= msg <= WM_XBUTTONDBLCLK)
}

/// Decodes a mouse button message, if `msg` is one; `xbutton` is `GET_XBUTTON_WPARAM`.
pub fn decode_mouse_button_message(msg: u32, xbutton: u16) -> (r: Option<MouseButtonMessage>)
    ensures
        !is_button_message(msg) ==> r is None,
        is_button_message(msg) ==> (r matches Some(m) && m.is_down == !(msg == WM_LBUTTONUP || msg
            == WM_MBUTTONUP || msg == WM_RBUTTONUP || msg == WM_XBUTTONUP) && m.button
            == message_button_spec(msg, xbutton) && m.clicks == (if msg == WM_LBUTTONDBLCLK || msg
            == WM_MBUTTONDBLCLK || msg == WM_RBUTTONDBLCLK || msg == WM_XBUTTONDBLCLK {
            Some(2u32)
        } else {
            None
        }) && m.result == (if WM_XBUTTONDOWN <= msg <= WM_XBUTTONDBLCLK {
            1isize
        } else {
            0isize
        })),
{
    let is_x = WM_XBUTTONDOWN <= msg && msg <= WM_XBUTTONDBLCLK;
    if !(WM_LBUTTONDOWN <= msg && msg <= WM_MBUTTONDBLCLK) && !is_x {
        return None;
    }
    let is_down = !(msg == WM_LBUTTONUP || msg == WM_MBUTTONUP || msg == WM_RBUTTONUP || msg
        == WM_XBUTTONUP);
    let button = if msg == WM_LBUTTONDOWN || msg == WM_LBUTTONUP || msg == WM_LBUTTONDBLCLK {
        MouseButton::Left
    } else if msg == WM_MBUTTONDOWN || msg == WM_MBUTTONUP || msg == WM_MBUTTONDBLCLK {
        MouseButton::Middle
    } else if msg == WM_RBUTTONDOWN || msg == WM_RBUTTONUP || msg == WM_RBUTTONDBLCLK {
        MouseButton::Right
    } else if xbutton == W32_XBUTTON1 {
        XBUTTON1
    } else if xbutton == W32_XBUTTON2 {
        XBUTTON2
    } else {
        MouseButton::Other(xbutton as i32)
    };
    let clicks = if msg == WM_LBUTTONDBLCLK || msg == WM_MBUTTONDBLCLK || msg == WM_RBUTTONDBLCLK
        || msg == WM_XBUTTONDBLCLK {
        Some(2u32)
    } else {
        None
    };
    let result: isize = if is_x { 1 } else { 0 };
    Some(MouseButtonMessage { is_down, button, clicks, result })
}

/// The low word of an `LPARAM`, as a signed 16-bit number.
pub open spec fn lparam_low_i16(lparam: isize) -> i16 {
    ((lparam as u32) & 0xffff) as u16 as i16
}

/// The high word of an `LPARAM`, as a signed 16-bit number.
pub open spec fn lparam_high_i16(lparam: isize) -> i16 {
    (((lparam as u32) >> 16u32) & 0xffff) as u16 as i16
}

/// The position that `WM_MOVE` gives in its `LPARAM`.
pub fn window_moved_position(lparam: isize) -> (r: Vec2<i16>)
    ensures
        r.x == lparam_low_i16(lparam),
        r.y == lparam_high_i16(lparam),
{
    let v = lparam as u32;
    Vec2 { x: (v & 0xffff) as u16 as i16, y: ((v >> 16u32) & 0xffff) as u16 as i16 }
}

/// The size that `WM_SIZE` gives in its `LPARAM`.
pub fn window_resized_size(lparam: isize) -> (r: Extent2<i16>)
    ensures
        r.w == lparam_low_i16(lparam),
        r.h == lparam_high_i16(lparam),
{
    let v = lparam as u32;
    Extent2 { w: (v & 0xffff) as u16 as i16, h: ((v >> 16u32) & 0xffff) as u16 as i16 }
}

/// Window styles (`WS_*` in `winuser.h`).
pub const WS_BORDER: u32 = 0x0080_0000;
pub const WS_SIZEBOX: u32 = 0x0004_0000;
pub const WS_MINIMIZEBOX: u32 = 0x0002_0000;
pub const WS_MAXIMIZEBOX: u32 = 0x0001_0000;
pub const WS_CAPTION: u32 = 0x00C0_0000;

/// The buttons a title bar has.
#[derive(Debug, Copy, Clone, Hash, PartialEq, Eq, Structural)]
pub struct TitleBarFeatures {
    pub minimize: bool,
    pub maximize: bool,
    pub close: bool,
}

/// A window style changed to follow a style hint: borders make the window sizable; a
/// title bar shows the minimize and maximize boxes it has, and no title bar removes the
/// caption.
pub open spec fn styled_spec(style: u32, borders: bool, title_bar: Option<TitleBarFeatures>) -> u32 {
    let s1 = if borders { style | (WS_BORDER | WS_SIZEBOX) } else { style & !(WS_BORDER | WS_SIZEBOX) };
    match title_bar {
        Some(t) => {
            let s2 = if t.minimize { s1 | WS_MINIMIZEBOX } else { s1 & !WS_MINIMIZEBOX };
            if t.maximize { s2 | WS_MAXIMIZEBOX } else { s2 & !WS_MAXIMIZEBOX }
        },
        None => s1 & !WS_CAPTION,
    }
}

/// The style of a window after a style hint, and whether its close button is then to be
/// enabled (when the hint has a title bar).
pub fn style_for_hint(style: u32, borders: bool, title_bar: Option<TitleBarFeatures>) -> (r: (u32, Option<bool>))
    ensures
        r.0 == styled_spec(style, borders, title_bar),
        r.1 == match title_bar {
            Some(t) => Some(t.close),
            None => None::<bool>,
        },
{
    let mut s: u32 = if borders { style | (WS_BORDER | WS_SIZEBOX) } else { style & !(WS_BORDER | WS_SIZEBOX) };
    match title_bar {
        Some(t) => {
            s = if t.minimize { s | WS_MINIMIZEBOX } else { s & !WS_MINIMIZEBOX };
            s = if t.maximize { s | WS_MAXIMIZEBOX } else { s & !WS_MAXIMIZEBOX };
            (s, Some(t.close))
        },
        None => (s & !WS_CAPTION, None),
    }
}

/// Menu item flags (`MF_*` in `winuser.h`).
pub const MF_ENABLED: u32 = 0x0;
pub const MF_GRAYED: u32 = 0x1;
pub const MF_DISABLED: u32 = 0x2;
pub const MF_BYCOMMAND: u32 = 0x0;

/// The flags that enable or disable (and gray) the close item of a window's menu.
pub fn close_item_flags(enabled: bool) -> (r: u32)
    ensures
        r == (if enabled { MF_ENABLED } else { MF_DISABLED | MF_GRAYED }) | MF_BYCOMMAND,
{
    let flags: u32 = if enabled { MF_ENABLED } else { MF_DISABLED | MF_GRAYED };
    flags | MF_BYCOMMAND
}

} // verus!
