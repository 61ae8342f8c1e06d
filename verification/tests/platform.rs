use dmc::cursor::{
    check_xrender_for_cursor, frame_delay_millis, frame_delays, x_glyph_of_system_cursor,
    CursorData, CursorFrame, SystemCursor,
};
use dmc::device::MouseButton;
use dmc::error::ErrorKind;
use dmc::geom::{Extent2, Rgba, Vec2};
use dmc::hint::{set_hint, set_hint_without_xlib, Hint, XlibHintAction};
use dmc::time_utils::Duration;
use dmc::window::{plan_window, NetWMState, WindowMode};
use dmc::windows::{
    class_name, decode_mouse_button_message, to_wide_with_nul, to_wide_without_nul,
    window_moved_position, window_resized_size, winapi_fail_with_error_code, ClassSettings,
    OsSharedContext, MAKEINTATOM, WM_LBUTTONDBLCLK, WM_LBUTTONDOWN, WM_LBUTTONUP, WM_MBUTTONUP,
    WM_XBUTTONDOWN,
};
use dmc::x11::{
    mwm_hints_for_style, net_wm_icon_data, usable_viewport, TitleBarButtons,
    bypass_compositor_value, enter_notify_crossing, is_key_repeat, leave_notify_crossing,
    net_wm_state_message_data, x_button_press, x_button_release, BypassCompositor, Crossing,
    NetWMStateAction, NetWMWindowType, PictStandard, XButtonPress,
};

#[test]
fn system_cursor_glyphs() {
    assert_eq!(x_glyph_of_system_cursor(SystemCursor::Arrow), 68);
    assert_eq!(x_glyph_of_system_cursor(SystemCursor::Ibeam), 152);
    assert_eq!(x_glyph_of_system_cursor(SystemCursor::WaitArrow), 150);
    assert_eq!(x_glyph_of_system_cursor(SystemCursor::ResizeHV), 52);
    assert_eq!(x_glyph_of_system_cursor(SystemCursor::Spraycan), 124);
}

#[test]
fn cursor_frame_delays() {
    assert_eq!(frame_delay_millis(&Duration::new(2, 345_678_901)), 2_345);
    let frame = |d: Duration| CursorFrame {
        duration: d,
        data: CursorData {
            hotspot: Vec2 { x: 0, y: 0 },
            size: Extent2 { w: 1, h: 1 },
            rgba_data: vec![],
            and_mask: vec![],
            xor_mask: vec![],
        },
    };
    let frames = vec![frame(Duration::from_millis(100)), frame(Duration::new(1, 999_999))];
    assert_eq!(frame_delays(&frames), vec![100, 1_000]);
    assert!(check_xrender_for_cursor(true, true).is_ok());
    let e = check_xrender_for_cursor(false, true).unwrap_err();
    assert_eq!(e.reason.as_deref(), Some("Creating an animated RGBA cursor requires the XRender extension"));
    let e = check_xrender_for_cursor(false, false).unwrap_err();
    assert_eq!(e.reason.as_deref(), Some("Creating an RGBA cursor requires the XRender extension"));
}

#[test]
fn hints_are_unsupported_without_xlib() {
    let e = set_hint_without_xlib(Hint::XlibXInitThreads).unwrap_err();
    assert_eq!(e.kind, ErrorKind::Unsupported);
    assert_eq!(e.reason, None);
    assert!(set_hint_without_xlib(Hint::XlibDefaultErrorHandlers(true)).is_err());
}

#[test]
fn hints_go_to_xlib_on_x11() {
    assert_eq!(set_hint(Hint::XlibXInitThreads).unwrap(), XlibHintAction::CallXInitThreads);
    assert_eq!(
        set_hint(Hint::XlibDefaultErrorHandlers(true)).unwrap(),
        XlibHintAction::UseDefaultErrorHandlers(true)
    );
    assert_eq!(
        set_hint(Hint::XlibDefaultErrorHandlers(false)).unwrap(),
        XlibHintAction::UseDefaultErrorHandlers(false)
    );
}

#[test]
fn wide_strings_are_utf16() {
    assert_eq!(to_wide_without_nul("ab"), vec![0x61, 0x62]);
    assert_eq!(to_wide_with_nul("ab"), vec![0x61, 0x62, 0]);
    assert_eq!(to_wide_with_nul(""), vec![0]);
    let s = "é😀";
    let expected: Vec<u16> = s.encode_utf16().chain(std::iter::once(0)).collect();
    assert_eq!(to_wide_with_nul(s), expected);
    assert_eq!(to_wide_without_nul("😀"), vec![0xD83D, 0xDE00]);
}

#[test]
fn win32_helpers() {
    assert_eq!(MAKEINTATOM(0xC001), 0xC001);
    let e = winapi_fail_with_error_code::<()>("RegisterClassExW", 1410, "Class already exists.").unwrap_err();
    assert_eq!(e.kind, ErrorKind::Failed);
    assert_eq!(e.reason.as_deref(), Some("RegisterClassExW() failed with error 1410: Class already exists."));
    assert_eq!(class_name(7), "DMC WNDCLASS 7");
    assert_eq!(ClassSettings { owndc: false, noclose: false }.class_style(), 0x0B);
    assert_eq!(ClassSettings { owndc: true, noclose: true }.class_style(), 0x22B);
}

#[test]
fn window_classes_are_registered_once() {
    let mut ctx = OsSharedContext::new(0x400000);
    assert_eq!(ctx.hinstance(), 0x400000);
    let s = ClassSettings { owndc: true, noclose: false };
    assert_eq!(ctx.registered_class(&s), None);
    let e = ctx.record_class_registration(s, 0, 5, "Access is denied.").unwrap_err();
    assert_eq!(e.reason.as_deref(), Some("RegisterClassExW() failed with error 5: Access is denied."));
    assert_eq!(ctx.registered_class(&s), None);
    assert_eq!(ctx.record_class_registration(s, 0xC123, 0, "").unwrap(), 0xC123);
    assert_eq!(ctx.registered_class(&s), Some(0xC123));
    assert_eq!(ctx.registered_class(&ClassSettings { owndc: false, noclose: false }), None);
}

#[test]
fn mouse_button_messages() {
    let m = decode_mouse_button_message(WM_LBUTTONDOWN, 0).unwrap();
    assert!(m.is_down);
    assert_eq!(m.button, MouseButton::Left);
    assert_eq!(m.clicks, None);
    assert_eq!(m.result, 0);
    let m = decode_mouse_button_message(WM_LBUTTONDBLCLK, 0).unwrap();
    assert!(m.is_down);
    assert_eq!(m.clicks, Some(2));
    let m = decode_mouse_button_message(WM_MBUTTONUP, 0).unwrap();
    assert!(!m.is_down);
    assert_eq!(m.button, MouseButton::Middle);
    let m = decode_mouse_button_message(WM_XBUTTONDOWN, 1).unwrap();
    assert_eq!(m.button, MouseButton::Back);
    assert_eq!(m.result, 1);
    let m = decode_mouse_button_message(WM_XBUTTONDOWN, 2).unwrap();
    assert_eq!(m.button, MouseButton::Forward);
    let m = decode_mouse_button_message(WM_XBUTTONDOWN, 3).unwrap();
    assert_eq!(m.button, MouseButton::Other(3));
    assert!(decode_mouse_button_message(0x020A, 0).is_none());
    assert!(decode_mouse_button_message(0x0200, 0).is_none());
    assert!(!decode_mouse_button_message(WM_LBUTTONUP, 0).unwrap().is_down);
}

#[test]
fn move_and_size_words() {
    let p = window_moved_position(0x0002_FFFF);
    assert_eq!((p.x, p.y), (-1, 2));
    let s = window_resized_size(0x01E0_0280);
    assert_eq!((s.w, s.h), (640, 480));
}

#[test]
fn x11_protocol_values() {
    assert_eq!(PictStandard::A8.code(), 2);
    assert_eq!(NetWMStateAction::Toggle.code(), 2);
    assert_eq!(net_wm_state_message_data(NetWMStateAction::Add, 10, 20), [1, 10, 20, 1, 0]);
    assert_eq!(BypassCompositor::Yes.code(), 1);
    assert_eq!(bypass_compositor_value(42, BypassCompositor::No).unwrap(), 2);
    let e = bypass_compositor_value(0, BypassCompositor::NoPreference).unwrap_err();
    assert_eq!(e.reason.as_deref(), Some("Can't set _NET_WM_BYPASS_COMPOSITOR to NoPreference"));
    assert_eq!(NetWMWindowType::DropdownMenu.atom_name(), "_NET_WM_WINDOW_TYPE_DROPDOWN_MENU");
}

#[test]
fn x11_buttons_keys_and_crossings() {
    assert_eq!(x_button_press(1), XButtonPress::Pressed(MouseButton::Left));
    assert_eq!(x_button_press(4), XButtonPress::Scroll(Vec2 { x: 0, y: 1 }));
    assert_eq!(x_button_press(6), XButtonPress::Scroll(Vec2 { x: -1, y: 0 }));
    assert_eq!(x_button_press(9), XButtonPress::Pressed(MouseButton::Forward));
    assert_eq!(x_button_press(12), XButtonPress::Pressed(MouseButton::Other(12)));
    assert_eq!(x_button_release(3), Some(MouseButton::Right));
    assert_eq!(x_button_release(4), None);
    assert!(is_key_repeat(100, 38, 100, 38));
    assert!(!is_key_repeat(100, 38, 101, 38));
    assert_eq!(enter_notify_crossing(0), Crossing::MouseEnter);
    assert_eq!(enter_notify_crossing(1), Crossing::MouseFocusGained);
    assert_eq!(leave_notify_crossing(0), Crossing::MouseLeave);
    assert_eq!(leave_notify_crossing(2), Crossing::MouseFocusLost);
}

#[test]
fn motif_hints_for_styles() {
    let h = mwm_hints_for_style(7, None).unwrap();
    assert_eq!((h.flags, h.decorations, h.functions, h.input_mode, h.state), (3, 0, 0, 0, 0));
    let h = mwm_hints_for_style(7, Some(TitleBarButtons { minimize_button: false, maximize_button: false })).unwrap();
    assert_eq!((h.decorations, h.functions), (0x1A, 0x04));
    let h = mwm_hints_for_style(7, Some(TitleBarButtons { minimize_button: true, maximize_button: true })).unwrap();
    assert_eq!((h.decorations, h.functions), (0x7A, 0x3C));
    let e = mwm_hints_for_style(0, None).unwrap_err();
    assert_eq!(e.reason.as_deref(), Some("Setting window style requires the _MOTIF_WM_HINTS atom!"));
}

#[test]
fn usable_viewport_from_the_work_area() {
    let r = usable_viewport(Some(&vec![0, 24, 1920, 1056]), 1920, 1080);
    assert_eq!((r.x, r.y, r.w, r.h), (0, 24, 1920, 1056));
    let r = usable_viewport(Some(&vec![0, 24]), 1920, 1080);
    assert_eq!((r.x, r.y, r.w, r.h), (0, 0, 1920, 1080));
    let r = usable_viewport(None, 800, 600);
    assert_eq!((r.x, r.y, r.w, r.h), (0, 0, 800, 600));
}

#[test]
fn window_plans() {
    let p = plan_window(WindowMode::FixedSize(Extent2 { w: 640, h: 480 }), false);
    assert_eq!((p.size.w, p.size.h), (640, 480));
    assert_eq!((p.min_size.w, p.min_size.h, p.max_size.w, p.max_size.h), (640, 480, 640, 480));
    assert_eq!(p.states, vec![NetWMState::Focused]);
    assert!(!p.maximized && !p.fullscreen);
    let p = plan_window(WindowMode::Maximized, true);
    assert_eq!((p.size.w, p.size.h), (1, 1));
    assert_eq!((p.min_size.w, p.max_size.w), (0, 999999));
    assert_eq!(p.states, vec![NetWMState::Focused, NetWMState::MaximizedVert, NetWMState::MaximizedHorz]);
    let p = plan_window(WindowMode::FullScreen, true);
    assert!(p.fullscreen);
    assert_eq!(p.states, vec![NetWMState::Focused, NetWMState::Fullscreen]);
}

#[test]
fn net_wm_icon_is_width_height_then_argb_rows() {
    let icon = dmc::image::Image {
        pixels: vec![
            Rgba { r: 1, g: 2, b: 3, a: 4 },
            Rgba { r: 0xff, g: 0, b: 0, a: 0x80 },
            Rgba { r: 0, g: 0, b: 0, a: 0 },
        ],
        size: Extent2 { w: 1, h: 2 },
    };
    assert_eq!(net_wm_icon_data(&icon), vec![1, 2, 0x04010203, 0x80ff0000]);
}
