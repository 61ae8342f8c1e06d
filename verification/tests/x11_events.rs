use dmc::device::MouseButton;
use dmc::geom::{Extent2, Vec2};
use dmc::queue::Click;
use dmc::x11::{NOTIFY_GRAB, NOTIFY_NORMAL, NOTIFY_UNGRAB};
use dmc::x11_events::{
    translate_x_event, X11Event, X11InputState, XAtoms, XEventFields, BUTTON_PRESS, BUTTON_RELEASE,
    CLIENT_MESSAGE, CONFIGURE_NOTIFY, ENTER_NOTIFY, EXPOSE, FOCUS_IN, FOCUS_OUT, KEY_PRESS, KEY_RELEASE,
    LEAVE_NOTIFY, MAPPING_NOTIFY, MOTION_NOTIFY, XI_KEY_PRESS,
};

const ATOMS: XAtoms = XAtoms { wm_protocols: 100, wm_delete_window: 101, net_wm_ping: 102 };

fn ev(type_: i32) -> XEventFields {
    XEventFields {
        type_,
        is_xi_cookie: false,
        xi_evtype: 0,
        window: Some(7),
        time: 1000,
        keycode: 38,
        button: 1,
        mode: NOTIFY_NORMAL,
        x: 10,
        y: 20,
        x_root: 110,
        y_root: 220,
        width: 640,
        height: 480,
        is_filtered: false,
        lookup_keysym: Some(0x61),
        lookup_text: Some("a".to_owned()),
        release_keysym: 0x61,
        message_type: 100,
        format: 32,
        data0: 101,
    }
}

fn start() -> X11InputState {
    X11InputState { last_key_release_time: 0, last_key_release_keycode: 0, last_abs_mouse_position: Vec2 { x: 100, y: 200 } }
}

#[test]
fn key_press_after_release_at_same_time_is_a_repeat() {
    let mut s = start();
    let r = translate_x_event(&mut s, &ev(KEY_RELEASE), &ATOMS);
    assert_eq!(r.event, Some(X11Event::KeyboardKeyReleased { window: Some(7), scancode: 38, keysym: 0x61 }));
    assert_eq!(s.last_key_release_time, 1000);
    assert_eq!(s.last_key_release_keycode, 38);
    let r = translate_x_event(&mut s, &ev(KEY_PRESS), &ATOMS);
    assert_eq!(
        r.event,
        Some(X11Event::KeyboardKeyPressed {
            window: Some(7),
            scancode: 38,
            keysym: 0x61,
            is_repeat: true,
            text: Some("a".to_owned()),
        })
    );
    assert_eq!(r.user_time, Some((7, 1000)));
    let mut later = ev(KEY_PRESS);
    later.time = 1001;
    later.is_filtered = true;
    let r = translate_x_event(&mut s, &later, &ATOMS);
    assert_eq!(
        r.event,
        Some(X11Event::KeyboardKeyPressed { window: Some(7), scancode: 38, keysym: 0x61, is_repeat: false, text: None })
    );
}

#[test]
fn key_press_without_keysym_reports_nothing_but_sets_user_time() {
    let mut s = start();
    let mut e = ev(KEY_PRESS);
    e.lookup_keysym = None;
    let r = translate_x_event(&mut s, &e, &ATOMS);
    assert_eq!(r.event, None);
    assert_eq!(r.user_time, Some((7, 1000)));
    assert_eq!(s, start());
}

#[test]
fn client_messages() {
    let mut s = start();
    let r = translate_x_event(&mut s, &ev(CLIENT_MESSAGE), &ATOMS);
    assert_eq!(r.event, Some(X11Event::WindowCloseRequested { window: 7 }));
    let mut ping = ev(CLIENT_MESSAGE);
    ping.data0 = 102;
    let r = translate_x_event(&mut s, &ping, &ATOMS);
    assert_eq!(r.event, None);
    assert!(r.answer_ping);
    let mut other = ev(CLIENT_MESSAGE);
    other.format = 8;
    let r = translate_x_event(&mut s, &other, &ATOMS);
    assert_eq!(r.event, None);
    assert!(!r.answer_ping);
    let mut orphan = ev(CLIENT_MESSAGE);
    orphan.window = None;
    assert_eq!(translate_x_event(&mut s, &orphan, &ATOMS).event, None);
}

#[test]
fn button_presses_scrolls_and_releases() {
    let mut s = start();
    let r = translate_x_event(&mut s, &ev(BUTTON_PRESS), &ATOMS);
    assert_eq!(
        r.event,
        Some(X11Event::MouseButtonPressed {
            window: Some(7),
            position: Vec2 { x: 10, y: 20 },
            abs_position: Vec2 { x: 110, y: 220 },
            button: MouseButton::Left,
            click: Click::Single,
            displacement: Vec2 { x: 10, y: 20 },
        })
    );
    assert_eq!(s.last_abs_mouse_position, Vec2 { x: 110, y: 220 });
    let mut wheel = ev(BUTTON_PRESS);
    wheel.button = 5;
    wheel.x_root = 111;
    let r = translate_x_event(&mut s, &wheel, &ATOMS);
    assert_eq!(
        r.event,
        Some(X11Event::MouseScroll {
            window: Some(7),
            position: Vec2 { x: 10, y: 20 },
            abs_position: Vec2 { x: 111, y: 220 },
            scroll: Vec2 { x: 0, y: -1 },
            displacement: Vec2 { x: 1, y: 0 },
        })
    );
    let mut release = ev(BUTTON_RELEASE);
    release.button = 4;
    let before = s;
    assert_eq!(translate_x_event(&mut s, &release, &ATOMS).event, None);
    assert_eq!(s, before);
    release.button = 3;
    let r = translate_x_event(&mut s, &release, &ATOMS);
    assert!(matches!(r.event, Some(X11Event::MouseButtonReleased { button: MouseButton::Right, .. })));
}

#[test]
fn motion_and_crossings() {
    let mut s = start();
    let r = translate_x_event(&mut s, &ev(MOTION_NOTIFY), &ATOMS);
    assert!(matches!(r.event, Some(X11Event::MouseMotion { displacement: Vec2 { x: 10, y: 20 }, .. })));
    let mut grab = ev(ENTER_NOTIFY);
    grab.mode = NOTIFY_GRAB;
    let r = translate_x_event(&mut s, &grab, &ATOMS);
    assert!(matches!(r.event, Some(X11Event::MouseFocusGained { window: 7, .. })));
    let r = translate_x_event(&mut s, &ev(ENTER_NOTIFY), &ATOMS);
    assert!(matches!(r.event, Some(X11Event::MouseEnter { window: 7, .. })));
    let mut ungrab = ev(LEAVE_NOTIFY);
    ungrab.mode = NOTIFY_UNGRAB;
    let r = translate_x_event(&mut s, &ungrab, &ATOMS);
    assert!(matches!(r.event, Some(X11Event::MouseFocusLost { window: 7, .. })));
    let mut elsewhere = ev(ENTER_NOTIFY);
    elsewhere.window = None;
    elsewhere.x_root = 5;
    let before = s;
    assert_eq!(translate_x_event(&mut s, &elsewhere, &ATOMS).event, None);
    assert_eq!(s, before);
}

#[test]
fn focus_expose_configure_and_mapping() {
    let mut s = start();
    let r = translate_x_event(&mut s, &ev(FOCUS_IN), &ATOMS);
    assert_eq!(r.event, Some(X11Event::KeyboardFocusGained { window: 7 }));
    assert_eq!(r.ic_focus, Some(true));
    let r = translate_x_event(&mut s, &ev(FOCUS_OUT), &ATOMS);
    assert_eq!(r.event, Some(X11Event::KeyboardFocusLost { window: 7 }));
    assert_eq!(r.ic_focus, Some(false));
    let r = translate_x_event(&mut s, &ev(EXPOSE), &ATOMS);
    assert_eq!(r.event, Some(X11Event::WindowContentDamaged { window: 7 }));
    let r = translate_x_event(&mut s, &ev(CONFIGURE_NOTIFY), &ATOMS);
    assert_eq!(
        r.event,
        Some(X11Event::WindowMovedResized { window: 7, position: Vec2 { x: 10, y: 20 }, size: Extent2 { w: 640, h: 480 } })
    );
    let mut mapping = ev(MAPPING_NOTIFY);
    mapping.window = None;
    let r = translate_x_event(&mut s, &mapping, &ATOMS);
    assert_eq!(r.event, None);
    assert!(r.refresh_keyboard_mapping);
    let mut xi = ev(KEY_RELEASE);
    xi.is_xi_cookie = true;
    let r = translate_x_event(&mut s, &xi, &ATOMS);
    assert_eq!(r.event, None);
    assert_eq!(s, start());
}

#[test]
fn xinput2_key_press_sets_the_user_time_only() {
    let mut s = start();
    let mut xi = ev(0);
    xi.is_xi_cookie = true;
    xi.xi_evtype = XI_KEY_PRESS;
    let r = translate_x_event(&mut s, &xi, &ATOMS);
    assert_eq!(r.event, None);
    assert_eq!(r.user_time, Some((7, 1000)));
    assert_eq!(s, start());
    xi.window = None;
    assert_eq!(translate_x_event(&mut s, &xi, &ATOMS).user_time, None);
    xi.window = Some(7);
    xi.xi_evtype = 3;
    assert_eq!(translate_x_event(&mut s, &xi, &ATOMS).user_time, None);
}
