//! The events that the library reports, as what it reads of them: which kind of event, on
//! which device and window, and when. Floating-point data (pointer positions, pressures,
//! tilts, normalized axis values) is kept by the caller.

use vstd::prelude::*;
use crate::device::{
    ControllerAxis, ControllerButton, DeviceID, MouseButton, TabletStylusButton, TabletStylusToolType,
};
use crate::event_instant::EventInstant;
use crate::geom::{Extent2, Rect, Vec2};
use crate::linuxdev::info::OsDeviceInfo;
use crate::queue::Key;

verus! {

/// An event.
#[derive(Debug)]
pub enum Event {
    /// Quit requested.
    Quit,
    AppBeingTerminatedByOS,
    AppLowMemory,
    AppWillEnterBackground,
    AppEnteredBackground,
    AppWillEnterForeground,
    AppEnteredForeground,
    /// Asks "Is it OK to terminate you?".
    SessionEndRequested,
    /// Perform clean-up operations here.
    SessionEnding,
    WindowShown { window: u64 },
    WindowHidden { window: u64 },
    WindowNeedsRedraw { window: u64, zone: Rect<u32, u32>, more_to_follow: usize },
    WindowMoved { window: u64, position: Vec2<i32>, by_user: bool },
    WindowResized { window: u64, size: Extent2<u32>, by_user: bool },
    WindowMinimized { window: u64 },
    WindowMaximized { window: u64 },
    WindowUnminized { window: u64 },
    WindowCloseRequested { window: u64 },
    DeviceConnected { device: DeviceID, instant: EventInstant, info: OsDeviceInfo },
    DeviceInfoChanged { device: DeviceID, instant: EventInstant, info: OsDeviceInfo },
    DeviceDisconnected { device: DeviceID, instant: EventInstant },
    MouseEnter { mouse: DeviceID, window: u64, instant: EventInstant, is_grabbed: bool, is_focused: bool },
    MouseLeave { mouse: DeviceID, window: u64, instant: EventInstant, was_grabbed: bool, was_focused: bool },
    MouseButtonPressed { mouse: DeviceID, window: u64, instant: EventInstant, button: MouseButton, clicks: Option<u32> },
    MouseButtonReleased { mouse: DeviceID, window: u64, instant: EventInstant, button: MouseButton },
    /// The y value is positive when scrolling up (pushing the wheel forwards).
    MouseScroll { mouse: DeviceID, window: u64, instant: EventInstant, scroll: Vec2<i32> },
    MouseMotion { mouse: DeviceID, window: u64, instant: EventInstant },
    MouseButtonPressedRaw { mouse: DeviceID, instant: EventInstant, button: MouseButton },
    MouseButtonReleasedRaw { mouse: DeviceID, instant: EventInstant, button: MouseButton },
    MouseScrollRaw { mouse: DeviceID, instant: EventInstant, scroll: Vec2<i32> },
    MouseMotionRaw { mouse: DeviceID, instant: EventInstant },
    KeyboardFocusGained { keyboard: DeviceID, window: u64 },
    KeyboardFocusLost { keyboard: DeviceID, window: u64 },
    KeyboardKeyPressed { keyboard: DeviceID, window: u64, instant: EventInstant, key: Key, is_repeat: bool, text: Option<String> },
    KeyboardKeyReleased { keyboard: DeviceID, window: u64, instant: EventInstant, key: Key },
    KeyboardKeyPressedRaw { keyboard: DeviceID, instant: EventInstant, key: Key },
    KeyboardKeyReleasedRaw { keyboard: DeviceID, instant: EventInstant, key: Key },
    TouchFingerPressed { touch: DeviceID, instant: EventInstant, finger: u32 },
    TouchFingerReleased { touch: DeviceID, instant: EventInstant, finger: u32 },
    TouchFingerMotion { touch: DeviceID, instant: EventInstant, finger: u32 },
    TouchMultiGesture { touch: DeviceID, instant: EventInstant, nb_fingers: usize },
    TabletPadButtonPressed { tablet: DeviceID, instant: EventInstant, window: u64, button: u32 },
    TabletPadButtonReleased { tablet: DeviceID, instant: EventInstant, window: u64, button: u32 },
    TabletStylusToolType { tablet: DeviceID, instant: EventInstant, window: u64, tool_type: TabletStylusToolType },
    TabletStylusButtonPressed { tablet: DeviceID, instant: EventInstant, window: u64, button: TabletStylusButton },
    TabletStylusButtonReleased { tablet: DeviceID, instant: EventInstant, window: u64, button: TabletStylusButton },
    TabletStylusMotion { tablet: DeviceID, instant: EventInstant, window: u64 },
    TabletStylusPressed { tablet: DeviceID, instant: EventInstant, window: u64 },
    TabletStylusRaised { tablet: DeviceID, instant: EventInstant, window: u64 },
    TabletPadButtonPressedRaw { tablet: DeviceID, instant: EventInstant, button: u32 },
    TabletPadButtonReleasedRaw { tablet: DeviceID, instant: EventInstant, button: u32 },
    TabletStylusToolTypeRaw { tablet: DeviceID, instant: EventInstant, tool_type: TabletStylusToolType },
    TabletStylusButtonPressedRaw { tablet: DeviceID, instant: EventInstant },
    TabletStylusButtonReleasedRaw { tablet: DeviceID, instant: EventInstant },
    TabletStylusMotionRaw { tablet: DeviceID, instant: EventInstant },
    TabletStylusPressedRaw { tablet: DeviceID, instant: EventInstant },
    TabletStylusRaisedRaw { tablet: DeviceID, instant: EventInstant },
    ControllerButtonPressed { controller: DeviceID, instant: EventInstant, button: ControllerButton },
    ControllerButtonReleased { controller: DeviceID, instant: EventInstant, button: ControllerButton },
    /// `value` is the raw value that the device gave, not normalized.
    ControllerAxisMotion { controller: DeviceID, instant: EventInstant, axis: ControllerAxis, value: i32 },
}

/// When an event happened: application, session, window and keyboard focus events carry
/// no instant; device, mouse, key, touch, tablet and controller events do.
pub open spec fn event_instant_spec(e: Event) -> Option<EventInstant> {
    match e {
        Event::DeviceConnected { instant, .. } => Some(instant),
        Event::DeviceInfoChanged { instant, .. } => Some(instant),
        Event::DeviceDisconnected { instant, .. } => Some(instant),
        Event::MouseEnter { instant, .. } => Some(instant),
        Event::MouseLeave { instant, .. } => Some(instant),
        Event::MouseButtonPressed { instant, .. } => Some(instant),
        Event::MouseButtonReleased { instant, .. } => Some(instant),
        Event::MouseScroll { instant, .. } => Some(instant),
        Event::MouseMotion { instant, .. } => Some(instant),
        Event::MouseButtonPressedRaw { instant, .. } => Some(instant),
        Event::MouseButtonReleasedRaw { instant, .. } => Some(instant),
        Event::MouseScrollRaw { instant, .. } => Some(instant),
        Event::MouseMotionRaw { instant, .. } => Some(instant),
        Event::KeyboardKeyPressed { instant, .. } => Some(instant),
        Event::KeyboardKeyReleased { instant, .. } => Some(instant),
        Event::KeyboardKeyPressedRaw { instant, .. } => Some(instant),
        Event::KeyboardKeyReleasedRaw { instant, .. } => Some(instant),
        Event::TouchFingerPressed { instant, .. } => Some(instant),
        Event::TouchFingerReleased { instant, .. } => Some(instant),
        Event::TouchFingerMotion { instant, .. } => Some(instant),
        Event::TouchMultiGesture { instant, .. } => Some(instant),
        Event::TabletPadButtonPressed { instant, .. } => Some(instant),
        Event::TabletPadButtonReleased { instant, .. } => Some(instant),
        Event::TabletStylusToolType { instant, .. } => Some(instant),
        Event::TabletStylusButtonPressed { instant, .. } => Some(instant),
        Event::TabletStylusButtonReleased { instant, .. } => Some(instant),
        Event::TabletStylusMotion { instant, .. } => Some(instant),
        Event::TabletStylusPressed { instant, .. } => Some(instant),
        Event::TabletStylusRaised { instant, .. } => Some(instant),
        Event::TabletPadButtonPressedRaw { instant, .. } => Some(instant),
        Event::TabletPadButtonReleasedRaw { instant, .. } => Some(instant),
        Event::TabletStylusToolTypeRaw { instant, .. } => Some(instant),
        Event::TabletStylusButtonPressedRaw { instant, .. } => Some(instant),
        Event::TabletStylusButtonReleasedRaw { instant, .. } => Some(instant),
        Event::TabletStylusMotionRaw { instant, .. } => Some(instant),
        Event::TabletStylusPressedRaw { instant, .. } => Some(instant),
        Event::TabletStylusRaisedRaw { instant, .. } => Some(instant),
        Event::ControllerButtonPressed { instant, .. } => Some(instant),
        Event::ControllerButtonReleased { instant, .. } => Some(instant),
        Event::ControllerAxisMotion { instant, .. } => Some(instant),
        _ => None,
    }
}

impl Event {
    /// When the event happened, if it says.
    pub fn instant(&self) -> (r: Option<EventInstant>)
        ensures
            r == event_instant_spec(*self),
    {
        match self {
            Event::DeviceConnected { instant, .. } => Some(*instant),
            Event::DeviceInfoChanged { instant, .. } => Some(*instant),
            Event::DeviceDisconnected { instant, .. } => Some(*instant),
            Event::MouseEnter { instant, .. } => Some(*instant),
            Event::MouseLeave { instant, .. } => Some(*instant),
            Event::MouseButtonPressed { instant, .. } => Some(*instant),
            Event::MouseButtonReleased { instant, .. } => Some(*instant),
            Event::MouseScroll { instant, .. } => Some(*instant),
            Event::MouseMotion { instant, .. } => Some(*instant),
            Event::MouseButtonPressedRaw { instant, .. } => Some(*instant),
            Event::MouseButtonReleasedRaw { instant, .. } => Some(*instant),
            Event::MouseScrollRaw { instant, .. } => Some(*instant),
            Event::MouseMotionRaw { instant, .. } => Some(*instant),
            Event::KeyboardKeyPressed { instant, .. } => Some(*instant),
            Event::KeyboardKeyReleased { instant, .. } => Some(*instant),
            Event::KeyboardKeyPressedRaw { instant, .. } => Some(*instant),
            Event::KeyboardKeyReleasedRaw { instant, .. } => Some(*instant),
            Event::TouchFingerPressed { instant, .. } => Some(*instant),
            Event::TouchFingerReleased { instant, .. } => Some(*instant),
            Event::TouchFingerMotion { instant, .. } => Some(*instant),
            Event::TouchMultiGesture { instant, .. } => Some(*instant),
            Event::TabletPadButtonPressed { instant, .. } => Some(*instant),
            Event::TabletPadButtonReleased { instant, .. } => Some(*instant),
            Event::TabletStylusToolType { instant, .. } => Some(*instant),
            Event::TabletStylusButtonPressed { instant, .. } => Some(*instant),
            Event::TabletStylusButtonReleased { instant, .. } => Some(*instant),
            Event::TabletStylusMotion { instant, .. } => Some(*instant),
            Event::TabletStylusPressed { instant, .. } => Some(*instant),
            Event::TabletStylusRaised { instant, .. } => Some(*instant),
            Event::TabletPadButtonPressedRaw { instant, .. } => Some(*instant),
            Event::TabletPadButtonReleasedRaw { instant, .. } => Some(*instant),
            Event::TabletStylusToolTypeRaw { instant, .. } => Some(*instant),
            Event::TabletStylusButtonPressedRaw { instant, .. } => Some(*instant),
            Event::TabletStylusButtonReleasedRaw { instant, .. } => Some(*instant),
            Event::TabletStylusMotionRaw { instant, .. } => Some(*instant),
            Event::TabletStylusPressedRaw { instant, .. } => Some(*instant),
            Event::TabletStylusRaisedRaw { instant, .. } => Some(*instant),
            Event::ControllerButtonPressed { instant, .. } => Some(*instant),
            Event::ControllerButtonReleased { instant, .. } => Some(*instant),
            Event::ControllerAxisMotion { instant, .. } => Some(*instant),
            _ => None,
        }
    }
}

} // verus!
