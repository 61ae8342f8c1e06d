//! How an X11 window is set up from its settings: its initial size, its size hints, and
//! the window manager states it starts in.

use vstd::prelude::*;
use crate::error::{Error, ErrorKind, reason_view};
use crate::geom::Extent2;

verus! {

/// How a window is shown when created.
#[derive(Debug, Copy, Clone, Hash, PartialEq, Eq, Structural)]
pub enum WindowMode {
    /// A window of the given size.
    FixedSize(Extent2<u32>),
    /// A maximized window.
    Maximized,
    /// A full screen window.
    FullScreen,
}

/// A `_NET_WM_STATE` state.
#[derive(Debug, Copy, Clone, Hash, PartialEq, Eq, Structural)]
pub enum NetWMState {
    Above,
    SkipTaskbar,
    SkipPager,
    Focused,
    MaximizedVert,
    MaximizedHorz,
    Fullscreen,
}

/// The largest size that a resizable window's hints allow.
pub const MAX_RESIZABLE_EXTENT: u32 = 999999;

/// How an X11 window is created.
#[derive(Debug, Clone)]
pub struct WindowPlan {
    /// The initial size: the given one, or 1 by 1 for maximized and full screen windows
    /// (the window manager then sizes them).
    pub size: Extent2<u32>,
    pub maximized: bool,
    pub fullscreen: bool,
    /// The size hints: a resizable window goes from 0 to 999999 pixels each way, another
    /// keeps its initial size.
    pub min_size: Extent2<u32>,
    pub max_size: Extent2<u32>,
    /// The states the window starts in: focused, then maximized vertically and
    /// horizontally, or full screen.
    pub states: Vec<NetWMState>,
}

/// The initial size of a window.
pub open spec fn initial_size_spec(mode: WindowMode) -> Extent2<u32> {
    match mode {
        WindowMode::FixedSize(e) => e,
        _ => Extent2 { w: 1, h: 1 },
    }
}

/// The states a window starts in: focused if it takes the input focus, then maximized
/// vertically and horizontally, or full screen.
pub open spec fn initial_states_with_focus_spec(mode: WindowMode, input_focus: bool) -> Seq<NetWMState> {
    let focus = if input_focus { seq![NetWMState::Focused] } else { Seq::empty() };
    focus + match mode {
        WindowMode::FixedSize(_) => Seq::empty(),
        WindowMode::Maximized => seq![NetWMState::MaximizedVert, NetWMState::MaximizedHorz],
        WindowMode::FullScreen => seq![NetWMState::Fullscreen],
    }
}

/// The states a window starts in.
pub open spec fn initial_states_spec(mode: WindowMode) -> Seq<NetWMState> {
    match mode {
        WindowMode::FixedSize(_) => seq![NetWMState::Focused],
        WindowMode::Maximized => seq![NetWMState::Focused, NetWMState::MaximizedVert, NetWMState::MaximizedHorz],
        WindowMode::FullScreen => seq![NetWMState::Focused, NetWMState::Fullscreen],
    }
}

/// How a window with this mode is created, resizable or not; it takes the input focus.
pub fn plan_window(mode: WindowMode, resizable: bool) -> (r: WindowPlan)
    ensures
        r.size == initial_size_spec(mode),
        r.maximized == (mode is Maximized),
        r.fullscreen == (mode is FullScreen),
        r.min_size == (if resizable { Extent2 { w: 0u32, h: 0u32 } } else { initial_size_spec(mode) }),
        r.max_size == (if resizable {
            Extent2 { w: MAX_RESIZABLE_EXTENT, h: MAX_RESIZABLE_EXTENT }
        } else {
            initial_size_spec(mode)
        }),
        r.states@ == initial_states_spec(mode),
{
    let r = plan_window_with_focus(mode, resizable, true);
    assert(r.states@ =~= initial_states_spec(mode));
    r
}

/// How a window of the display backend is created: as `plan_window` plans it, except that
/// it does not start focused.
pub fn plan_display_window(mode: WindowMode, resizable: bool) -> (r: WindowPlan)
    ensures
        r.size == initial_size_spec(mode),
        r.maximized == (mode is Maximized),
        r.fullscreen == (mode is FullScreen),
        r.min_size == (if resizable { Extent2 { w: 0u32, h: 0u32 } } else { initial_size_spec(mode) }),
        r.max_size == (if resizable {
            Extent2 { w: MAX_RESIZABLE_EXTENT, h: MAX_RESIZABLE_EXTENT }
        } else {
            initial_size_spec(mode)
        }),
        r.states@ == initial_states_with_focus_spec(mode, false),
{
    plan_window_with_focus(mode, resizable, false)
}

/// How a window with this mode is created, resizable or not, taking the input focus or not.
pub fn plan_window_with_focus(mode: WindowMode, resizable: bool, input_focus: bool) -> (r: WindowPlan)
    ensures
        r.size == initial_size_spec(mode),
        r.maximized == (mode is Maximized),
        r.fullscreen == (mode is FullScreen),
        r.min_size == (if resizable { Extent2 { w: 0u32, h: 0u32 } } else { initial_size_spec(mode) }),
        r.max_size == (if resizable {
            Extent2 { w: MAX_RESIZABLE_EXTENT, h: MAX_RESIZABLE_EXTENT }
        } else {
            initial_size_spec(mode)
        }),
        r.states@ == initial_states_with_focus_spec(mode, input_focus),
{
    let (size, maximized, fullscreen) = match mode {
        WindowMode::FixedSize(e) => (e, false, false),
        WindowMode::Maximized => (Extent2 { w: 1, h: 1 }, true, false),
        WindowMode::FullScreen => (Extent2 { w: 1, h: 1 }, false, true),
    };
    let min_size = if resizable { Extent2 { w: 0, h: 0 } } else { size };
    let max_size = if resizable {
        Extent2 { w: MAX_RESIZABLE_EXTENT, h: MAX_RESIZABLE_EXTENT }
    } else {
        size
    };
    let mut states: Vec<NetWMState> = Vec::new();
    if input_focus {
        states.push(NetWMState::Focused);
    }
    if maximized {
        states.push(NetWMState::MaximizedVert);
        states.push(NetWMState::MaximizedHorz);
    }
    if fullscreen {
        states.push(NetWMState::Fullscreen);
    }
    assert(states@ =~= initial_states_with_focus_spec(mode, input_focus));
    WindowPlan { size, maximized, fullscreen, min_size, max_size, states }
}

/// The display backend's errors about windows and OpenGL.
#[derive(Debug, Copy, Clone, Hash, PartialEq, Eq, Structural)]
pub enum X11DisplayError {
    /// The GLX extension is not present.
    NoGLX,
    /// No pixel format matches the OpenGL settings.
    UnsupportedGLContextSettings,
    /// `XCreateWindow` failed.
    CouldntCreateWindow,
}

/// Before a window is created: an OpenGL-capable window needs GLX.
pub fn check_window_glx(wants_opengl: bool, glx_present: bool) -> (r: Result<(), Error>)
    ensures
        (wants_opengl && !glx_present) ==> (r matches Err(e) && e.kind == ErrorKind::Failed
            && reason_view(e.reason) == Some("Cannot create OpenGL-capable window without GLX"@)),
        !(wants_opengl && !glx_present) ==> r is Ok,
{
    if wants_opengl && !glx_present {
        Err(Error::failed(String::from_str("Cannot create OpenGL-capable window without GLX")))
    } else {
        Ok(())
    }
}

/// The answer to `XCreateWindow`: window 0 means that it failed.
pub fn created_window_outcome(x_window: u64) -> (r: Result<u64, Error>)
    ensures
        x_window == 0 ==> (r matches Err(e) && e.kind == ErrorKind::Failed && reason_view(e.reason)
            == Some("XCreateWindow() failed"@)),
        x_window != 0 ==> r == Ok::<u64, Error>(x_window),
{
    if x_window == 0 {
        Err(Error::failed(String::from_str("XCreateWindow() failed")))
    } else {
        Ok(x_window)
    }
}

/// Before a window of the display backend is created: an OpenGL-capable window needs GLX.
pub fn check_display_window_glx(wants_opengl: bool, glx_present: bool) -> (r: Result<(), X11DisplayError>)
    ensures
        r == if wants_opengl && !glx_present {
            Err::<(), X11DisplayError>(X11DisplayError::NoGLX)
        } else {
            Ok(())
        },
{
    if wants_opengl && !glx_present {
        Err(X11DisplayError::NoGLX)
    } else {
        Ok(())
    }
}

/// The answer to `XCreateWindow`, for the display backend.
pub fn created_display_window_outcome(x_window: u64) -> (r: Result<u64, X11DisplayError>)
    ensures
        r == if x_window == 0 {
            Err::<u64, X11DisplayError>(X11DisplayError::CouldntCreateWindow)
        } else {
            Ok(x_window)
        },
{
    if x_window == 0 {
        Err(X11DisplayError::CouldntCreateWindow)
    } else {
        Ok(x_window)
    }
}

/// Is a GLX window created for the X window? For an OpenGL-capable window, since GLX 1.3;
/// `glx_version` is GLX's major and minor version, which an OpenGL-capable window has.
pub fn wants_glx_window(wants_opengl: bool, glx_version: Option<(u32, u32)>) -> (r: bool)
    requires
        wants_opengl ==> glx_version is Some,
    ensures
        r == (wants_opengl && {
            let (major, minor) = glx_version.unwrap();
            major > 1 || (major == 1 && minor >= 3)
        }),
{
    if !wants_opengl {
        return false;
    }
    let (major, minor) = glx_version.unwrap();
    major > 1 || (major == 1 && minor >= 3)
}

} // verus!
