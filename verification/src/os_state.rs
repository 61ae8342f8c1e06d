//! Platform-specific parts of device information and state that hold nothing yet on
//! the platforms the library supports.

use vstd::prelude::*;
use std::rc::Rc;

verus! {

/// Platform-specific tablet information.
#[derive(Debug, Copy, Clone, PartialEq, Eq, Structural)]
pub struct OsTabletInfo;

/// Platform-specific keyboard state.
#[derive(Debug, Copy, Clone, PartialEq, Eq, Structural)]
pub struct OsKeyboardState;

/// Platform-specific state of mouse buttons.
#[derive(Debug, Copy, Clone, PartialEq, Eq, Structural)]
pub struct OsMouseButtonsState;

/// Platform-specific state of tablet pad buttons.
#[derive(Debug, Copy, Clone, PartialEq, Eq, Structural)]
pub struct OsTabletPadButtonsState;

/// Platform-specific state of tablet stylus buttons.
#[derive(Debug, Copy, Clone, PartialEq, Eq, Structural)]
pub struct OsTabletStylusButtonsState;

/// A platform event that was not turned into an event of this crate.
#[derive(Debug, Copy, Clone, PartialEq, Eq, Structural)]
pub struct OsUnprocessedEvent;

/// A context of the X11 backend: the display and the udev monitor.
#[derive(Debug)]
pub struct BackendContext {
    pub x_dpy: (),
    pub udev_mon: (),
}

/// A human interface device of the X11 backend.
#[derive(Debug)]
pub struct BackendHid {
    pub platform_display: Rc<BackendContext>,
    pub udev_dev: (),
    pub evdev_fd: i32,
    pub xi_devices: Vec<()>,
}

} // verus!
