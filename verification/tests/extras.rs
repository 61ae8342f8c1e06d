use dmc::event::Event;
use dmc::device::error::Error as DeviceError;
use dmc::device::{ButtonState, ControllerAxis, ControllerButton, DeviceID, OsDeviceID};
use dmc::event_instant::{EventInstant, OsEventInstant};
use dmc::geom::{Extent2, Rgba};
use dmc::image::Image;
use dmc::linuxdev::context::{udev_monitor_step, MonitorStep};
use dmc::linuxdev::events::LinuxdevEvent;
use dmc::linuxdev::info::{
    button_state_from_fetch, controller_axis_state, controller_button_state, OsControllerState,
};
use dmc::linuxdev::props::{LinuxdevToken, UdevDeviceAction};
use dmc::queue::{Click, Clipboard, EventQueue, Key, VKey};

#[test]
fn image_pixels_are_stored_row_by_row() {
    let mut img = Image { pixels: (0u8..6).collect::<Vec<_>>(), size: Extent2 { w: 3, h: 2 } };
    assert_eq!(*img.pixel(0, 0), 0);
    assert_eq!(*img.pixel(2, 0), 2);
    assert_eq!(*img.pixel(1, 1), 4);
    img.set_pixel(2, 1, 42);
    assert_eq!(img.pixels, vec![0, 1, 2, 3, 4, 42]);
    let rgba = Image { pixels: vec![Rgba { r: 1u8, g: 2, b: 3, a: 4 }], size: Extent2 { w: 1, h: 1 } };
    assert_eq!(rgba.pixel(0, 0).a, 4);
}

#[test]
fn controller_state_snapshots() {
    let s = OsControllerState {
        buttons: vec![(ControllerButton::A, ButtonState::Down), (ControllerButton::B, ButtonState::Up)],
        axes: vec![(ControllerAxis::LX, -300)],
    };
    assert_eq!(s.button(ControllerButton::A), Some(ButtonState::Down));
    assert_eq!(s.button(ControllerButton::B), Some(ButtonState::Up));
    assert_eq!(s.button(ControllerButton::X), None);
    assert_eq!(s.axis(ControllerAxis::LX), Some(-300));
    assert_eq!(s.axis(ControllerAxis::RX), None);
    assert_eq!(button_state_from_fetch(None), None);
    assert_eq!(button_state_from_fetch(Some(0)), Some(ButtonState::Up));
    assert_eq!(button_state_from_fetch(Some(2)), Some(ButtonState::Down));
    assert_eq!(controller_button_state(Some(ButtonState::Up)).unwrap(), ButtonState::Up);
    assert_eq!(controller_button_state(None).unwrap_err(), DeviceError::NotSupportedByDevice { reason: None });
    assert_eq!(controller_axis_state(Some(7)).unwrap(), 7);
    assert!(controller_axis_state(None).is_err());
}

#[test]
fn udev_monitor_steps() {
    assert_eq!(udev_monitor_step(None), MonitorStep::Skip);
    assert_eq!(udev_monitor_step(Some("add")), MonitorStep::AddDevice);
    assert_eq!(udev_monitor_step(Some("remove")), MonitorStep::RemoveDevice);
    assert_eq!(udev_monitor_step(Some("change")), MonitorStep::Ignore(UdevDeviceAction::Change));
    assert_eq!(
        udev_monitor_step(Some("unbind")),
        MonitorStep::Ignore(UdevDeviceAction::Other("unbind".to_owned()))
    );
}

#[test]
fn event_instants() {
    let i = EventInstant(OsEventInstant::UdevUsecs(9));
    let e = LinuxdevEvent::DeviceDisconnected { device: DeviceID(OsDeviceID::Linuxdev(LinuxdevToken(1))), instant: i };
    assert_eq!(e.instant(), i);
    let j = EventInstant(OsEventInstant::LinuxInputEventTimeval { tv_sec: 3, tv_usec: 4 });
    let e = LinuxdevEvent::ControllerAxisMotion {
        controller: DeviceID(OsDeviceID::Linuxdev(LinuxdevToken(1))),
        instant: j,
        axis: ControllerAxis::LX,
        value: 1,
    };
    assert_eq!(e.instant(), j);
}

#[test]
fn early_event_types() {
    let c = Clipboard::new(vec![1, 2, 3]);
    assert_eq!(c.get_raw_buffer(), &[1, 2, 3]);
    assert_ne!(Click::Single, Click::Double);
    assert_eq!(VKey::default(), VKey);
    assert_eq!(Key::default(), Key);
    let mut q = EventQueue {};
    let _ = q.peek();
    let _ = q.poll();
}

#[test]
fn event_instants_of_library_events() {
    let instant = EventInstant(OsEventInstant::UdevUsecs(42));
    let controller = DeviceID(OsDeviceID::Linuxdev(LinuxdevToken(3)));
    assert_eq!(Event::Quit.instant(), None);
    assert_eq!(Event::WindowCloseRequested { window: 1 }.instant(), None);
    assert_eq!(Event::KeyboardFocusGained { keyboard: controller, window: 1 }.instant(), None);
    assert_eq!(Event::DeviceDisconnected { device: controller, instant }.instant(), Some(instant));
    assert_eq!(
        Event::ControllerAxisMotion { controller, instant, axis: ControllerAxis::LX, value: -5 }.instant(),
        Some(instant)
    );
    assert_eq!(
        Event::ControllerButtonPressed { controller, instant, button: ControllerButton::A }.instant(),
        Some(instant)
    );
}
