use dmc::device::MouseButton;
use dmc::error::ErrorKind;
use dmc::geom::{Extent2, Vec2};
use dmc::gl::GLPixelFormatSettings;
use dmc::glx::{
    display_chosen_fbconfig_outcome, display_chosen_visual_outcome, display_pixel_format_request,
    FbConfigAttribs, Glx, GlxExt, PixelFormatRequest,
};
use dmc::window::{
    check_display_window_glx, check_window_glx, created_display_window_outcome, created_window_outcome,
    plan_display_window, plan_window_with_focus, wants_glx_window, NetWMState, WindowMode, X11DisplayError,
};
use dmc::wndproc::{
    wndproc_decision, WndprocEvent, WndprocInput, WndprocReturn, SWP_NOMOVE, WM_CLOSE, WM_MOUSEHWHEEL,
    WM_MOUSEMOVE, WM_MOVE, WM_MOVING, WM_QUIT, WM_SIZE, WM_SIZING, WM_WINDOWPOSCHANGED,
};
use dmc::windows::{WM_LBUTTONDBLCLK, WM_RBUTTONUP, WM_XBUTTONDOWN};

fn msg(msg: u32, wparam: usize, lparam: isize) -> WndprocInput {
    WndprocInput {
        msg,
        wparam,
        lparam,
        rect_left: 10,
        rect_top: 20,
        rect_right: 110,
        rect_bottom: 70,
        winpos_x: 5,
        winpos_y: 6,
        winpos_cx: 300,
        winpos_cy: 200,
        winpos_flags: 0,
    }
}

#[test]
fn wndproc_window_messages() {
    let r = wndproc_decision(&msg(WM_QUIT, 0, 0));
    assert_eq!(r.events, vec![WndprocEvent::Quit]);
    assert_eq!(r.ret, WndprocReturn::Value(0));
    assert_eq!(wndproc_decision(&msg(WM_CLOSE, 0, 0)).events, vec![WndprocEvent::WindowCloseRequested]);
    let r = wndproc_decision(&msg(WM_MOVE, 0, 0xFFFE_0010));
    assert_eq!(r.events, vec![WndprocEvent::WindowMoved { position: Vec2 { x: 16, y: -2 }, by_user: false }]);
    let r = wndproc_decision(&msg(WM_MOVING, 0, 0));
    assert_eq!(r.events, vec![WndprocEvent::WindowMoved { position: Vec2 { x: 10, y: 20 }, by_user: false }]);
    assert_eq!(r.ret, WndprocReturn::Value(1));
    let r = wndproc_decision(&msg(WM_SIZE, 0, 0x01E0_0280));
    assert_eq!(r.events, vec![WndprocEvent::WindowResized { size: Extent2 { w: 640, h: 480 }, by_user: false }]);
    let r = wndproc_decision(&msg(WM_SIZING, 0, 0));
    assert_eq!(r.events, vec![WndprocEvent::WindowResized { size: Extent2 { w: 100, h: 50 }, by_user: false }]);
    assert_eq!(r.ret, WndprocReturn::Value(1));
    let r = wndproc_decision(&msg(WM_WINDOWPOSCHANGED, 0, 0));
    assert_eq!(
        r.events,
        vec![
            WndprocEvent::WindowMoved { position: Vec2 { x: 5, y: 6 }, by_user: true },
            WndprocEvent::WindowResized { size: Extent2 { w: 300, h: 200 }, by_user: true },
        ]
    );
    let mut no_move = msg(WM_WINDOWPOSCHANGED, 0, 0);
    no_move.winpos_flags = SWP_NOMOVE;
    assert_eq!(
        wndproc_decision(&no_move).events,
        vec![WndprocEvent::WindowResized { size: Extent2 { w: 300, h: 200 }, by_user: true }]
    );
    let r = wndproc_decision(&msg(0x0100, 0, 0));
    assert!(r.events.is_empty());
    assert_eq!(r.ret, WndprocReturn::DefaultWindowProc);
}

#[test]
fn wndproc_mouse_messages() {
    let r = wndproc_decision(&msg(WM_MOUSEMOVE, 0, 0x0020_0010));
    assert_eq!(r.events, vec![WndprocEvent::MouseMotion { position: Vec2 { x: 16, y: 32 } }]);
    let r = wndproc_decision(&msg(WM_MOUSEHWHEEL, 0xFF88_0000, 0x0020_0010));
    assert_eq!(
        r.events,
        vec![
            WndprocEvent::MouseMotion { position: Vec2 { x: 16, y: 32 } },
            WndprocEvent::MouseScroll { horizontal: true, wheel_delta: -120 },
        ]
    );
    let r = wndproc_decision(&msg(WM_LBUTTONDBLCLK, 0, 0x0020_0010));
    assert_eq!(r.events[1], WndprocEvent::MouseButtonPressed { button: MouseButton::Left, clicks: Some(2) });
    assert_eq!(r.ret, WndprocReturn::Value(0));
    let r = wndproc_decision(&msg(WM_RBUTTONUP, 0, 0));
    assert_eq!(r.events[1], WndprocEvent::MouseButtonReleased { button: MouseButton::Right });
    let r = wndproc_decision(&msg(WM_XBUTTONDOWN, 0x0002_0000, 0));
    assert_eq!(r.events[1], WndprocEvent::MouseButtonPressed { button: MouseButton::Forward, clicks: None });
    assert_eq!(r.ret, WndprocReturn::Value(1));
}

#[test]
fn window_creation_decisions() {
    let e = check_window_glx(true, false).unwrap_err();
    assert_eq!(e.kind, ErrorKind::Failed);
    assert_eq!(e.reason.as_deref(), Some("Cannot create OpenGL-capable window without GLX"));
    assert!(check_window_glx(true, true).is_ok());
    assert!(check_window_glx(false, false).is_ok());
    assert_eq!(created_window_outcome(0).unwrap_err().reason.as_deref(), Some("XCreateWindow() failed"));
    assert_eq!(created_window_outcome(42).unwrap(), 42);
    assert_eq!(check_display_window_glx(true, false), Err(X11DisplayError::NoGLX));
    assert_eq!(created_display_window_outcome(0), Err(X11DisplayError::CouldntCreateWindow));
    assert!(wants_glx_window(true, Some((1, 3))));
    assert!(wants_glx_window(true, Some((2, 0))));
    assert!(!wants_glx_window(true, Some((1, 2))));
    assert!(!wants_glx_window(false, None));
    let p = plan_display_window(WindowMode::Maximized, true);
    assert_eq!(p.states, vec![NetWMState::MaximizedVert, NetWMState::MaximizedHorz]);
    let p = plan_window_with_focus(WindowMode::FixedSize(Extent2 { w: 3, h: 4 }), false, false);
    assert!(p.states.is_empty());
    assert_eq!(p.min_size, Extent2 { w: 3, h: 4 });
}

#[test]
fn display_backend_pixel_format_errors() {
    let s = GLPixelFormatSettings::default();
    assert_eq!(display_pixel_format_request(None, 1, 4, &s).unwrap_err(), X11DisplayError::NoGLX);
    let glx = Glx { ext: GlxExt::default() };
    assert!(matches!(display_pixel_format_request(Some(&glx), 1, 4, &s), Ok(PixelFormatRequest::ChooseFbConfig(_))));
    assert_eq!(display_chosen_visual_outcome(false), Err(X11DisplayError::UnsupportedGLContextSettings));
    assert_eq!(display_chosen_fbconfig_outcome(&vec![], &s), Err(X11DisplayError::UnsupportedGLContextSettings));
    let c = FbConfigAttribs { has_visual: true, sample_buffers: 0, samples: 0, double_buffer: false, stereo: true };
    assert_eq!(display_chosen_fbconfig_outcome(&vec![c], &s), Ok(0));
}
