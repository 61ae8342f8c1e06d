use dmc::device::error::Error as DeviceError;
use dmc::device::{Bus, ButtonState, ControllerAxis, ControllerButton, DeviceID, OsDeviceID, VibrationState};
use dmc::error::ErrorKind;
use dmc::event_instant::{EventInstant, OsEventInstant};
use dmc::linuxdev::codes::{ABS_HAT0X, ABS_WHEEL, ABS_X, BTN_A, BTN_GAMEPAD, BTN_JOYSTICK, BTN_TRIGGER, EV_ABS, EV_KEY, EV_SYN, FF_RUMBLE};
use dmc::linuxdev::context::{worth_keeping, LinuxdevContext};
use dmc::linuxdev::device::{axis_info_from_linux_absinfo, Linuxdev};
use dmc::linuxdev::events::{
    ff_gain_event, gain_failure_is_fatal, InputEvent, LinuxdevEvent, VibrationPlan, WriteStep,
};
use dmc::linuxdev::info::{fd_wanted, FdAccess, FromUdevDevice};
use dmc::linuxdev::props::{
    decode_driver_version, event_api_of_devnode, remove_quotes_if_any, udev_prop_bool,
    EvdevProps, EvdevQueries, InputAbsinfo, LinuxEventAPI, LinuxdevToken, LinuxdevTokenGenerator,
    UdevDeviceAction, UdevPropertyStrings, UdevProps,
};

fn s(x: &str) -> Option<String> {
    Some(x.to_owned())
}

fn gamepad_properties() -> UdevPropertyStrings {
    UdevPropertyStrings {
        usec_initialized: s("123456"),
        name: s("\"Wireless Controller\""),
        parent_name: None,
        id_usb_driver: s("usbhid"),
        id_bus: s("usb"),
        id_serial: s("Sony_Wireless_Controller"),
        id_model: s("Wireless_Controller"),
        id_vendor: s("Sony"),
        id_model_id: s("05c4"),
        id_vendor_id: s("054c"),
        id_input: s("1"),
        id_input_joystick: s("1"),
        id_input_accelerometer: None,
        id_input_key: None,
        id_input_keyboard: None,
        id_input_mouse: None,
        id_input_pointingstick: None,
        id_input_switch: None,
        id_input_tablet: None,
        id_input_tablet_pad: None,
        id_input_touchpad: None,
        id_input_touchscreen: None,
        id_input_trackball: None,
    }
}

fn absinfo(min: i32, max: i32, flat: i32) -> InputAbsinfo {
    InputAbsinfo { value: 0, minimum: min, maximum: max, fuzz: 4, flat, resolution: 0 }
}

fn gamepad_queries() -> EvdevQueries {
    EvdevQueries {
        name: s("Sony Wireless Controller"),
        driver_version: 0x010001,
        id_bustype: 0x03,
        id_product: 0x05c4,
        id_vendor: 0x054c,
        key_codes: vec![BTN_A, BTN_GAMEPAD, 0x131],
        abs_infos: vec![(ABS_X, Some(absinfo(0, 255, 15))), (ABS_HAT0X, Some(absinfo(-1, 1, 0))), (0x09, None)],
        ff_codes: vec![FF_RUMBLE],
        repeat: None,
        max_simultaneous_ff_effects: Some(16),
    }
}

fn gamepad() -> Linuxdev {
    Linuxdev::from_udev_device(FromUdevDevice {
        device_node: s("/dev/input/event17"),
        properties: gamepad_properties(),
        try_open_fd_if_is_a_controller: true,
        fd_access: FdAccess::ReadWrite,
        evdev: Some(gamepad_queries()),
    })
}

#[test]
fn token_generator_counts_and_wraps() {
    let mut g = LinuxdevTokenGenerator::new();
    assert_eq!(g.next_token(), LinuxdevToken(0));
    assert_eq!(g.next_token(), LinuxdevToken(1));
    assert_eq!(g.next_token(), LinuxdevToken(2));
}

#[test]
fn udev_actions_are_read_by_name() {
    assert_eq!(UdevDeviceAction::from_cstr("add"), UdevDeviceAction::Add);
    assert_eq!(UdevDeviceAction::from_cstr("remove"), UdevDeviceAction::Remove);
    assert_eq!(UdevDeviceAction::from_cstr("move"), UdevDeviceAction::Move);
    assert_eq!(UdevDeviceAction::from_cstr("change"), UdevDeviceAction::Change);
    assert_eq!(UdevDeviceAction::from_cstr("online"), UdevDeviceAction::Online);
    assert_eq!(UdevDeviceAction::from_cstr("offline"), UdevDeviceAction::Offline);
    assert_eq!(UdevDeviceAction::from_cstr("bind"), UdevDeviceAction::Other("bind".to_owned()));
    assert_eq!(UdevDeviceAction::from_cstr("Add"), UdevDeviceAction::Other("Add".to_owned()));
}

#[test]
fn device_nodes_tell_the_interface() {
    assert_eq!(event_api_of_devnode("/dev/input/event3"), Some(LinuxEventAPI::Evdev));
    assert_eq!(event_api_of_devnode("/dev/input/js0"), Some(LinuxEventAPI::Joydev));
    assert_eq!(event_api_of_devnode("/dev/input/mouse0"), None);
    assert_eq!(event_api_of_devnode("/dev/event/mice"), None);
    assert_eq!(event_api_of_devnode("/event"), Some(LinuxEventAPI::Evdev));
}

#[test]
fn quotes_are_removed_when_both_are_there() {
    assert_eq!(remove_quotes_if_any("\"Pad\"".to_owned()), "Pad");
    assert_eq!(remove_quotes_if_any("\"Pad".to_owned()), "\"Pad");
    assert_eq!(remove_quotes_if_any("Pad".to_owned()), "Pad");
    assert_eq!(remove_quotes_if_any("\"\"".to_owned()), "");
    assert_eq!(remove_quotes_if_any("\"".to_owned()), "");
}

#[test]
fn udev_boolean_properties() {
    assert!(udev_prop_bool(&s("1")));
    assert!(udev_prop_bool(&s("10")));
    assert!(!udev_prop_bool(&s("0")));
    assert!(!udev_prop_bool(&None));
}

#[test]
fn udev_properties_are_read() {
    let p = UdevProps::from_properties(&gamepad_properties());
    assert_eq!(p.usec_initialized, Some(123456));
    assert_eq!(p.id_model_id, Some(0x05c4));
    assert_eq!(p.id_vendor_id, Some(0x054c));
    assert_eq!(p.name.as_deref(), Some("Wireless Controller"));
    assert_eq!(p.name(), Some("Wireless Controller"));
    assert!(p.is_a_controller());
    assert!(p.id_input);
    assert!(!p.id_input_mouse);
    assert_eq!(p.display().to_display_string(), "`Wireless Controller`");
}

#[test]
fn udev_name_falls_back_to_the_parent() {
    let mut props = gamepad_properties();
    props.name = None;
    props.parent_name = s("\"Parent Pad\"");
    let p = UdevProps::from_properties(&props);
    assert_eq!(p.name(), Some("Parent Pad"));
    props.parent_name = None;
    let p = UdevProps::from_properties(&props);
    assert_eq!(p.name(), None);
    assert_eq!(p.display().to_display_string(), "`???`");
}

#[test]
fn driver_versions_are_split() {
    let v = decode_driver_version(0x010203);
    assert_eq!((v.major, v.minor, v.patch), (1, 2, 3));
    let v = decode_driver_version(-1);
    assert_eq!((v.major, v.minor, v.patch), (0, 0, 0));
}

#[test]
fn evdev_properties_are_read() {
    let p = EvdevProps::from_queries(&gamepad_queries());
    assert_eq!(p.name, "Sony Wireless Controller");
    assert!(p.is_a_gamepad);
    assert!(!p.is_a_joystick);
    assert!(!p.is_a_steering_wheel);
    assert!(p.supports_rumble);
    assert_eq!(p.id_product, 0x05c4);
    assert_eq!(p.max_simultaneous_ff_effects, 16);
    let mut q = gamepad_queries();
    q.name = None;
    q.abs_infos.push((ABS_WHEEL, None));
    q.max_simultaneous_ff_effects = None;
    let p = EvdevProps::from_queries(&q);
    assert_eq!(p.name, "???");
    assert!(p.is_a_steering_wheel);
    assert_eq!(p.max_simultaneous_ff_effects, 0);
    assert_eq!(p.display().name, "???");
}

#[test]
fn axis_limits_are_read() {
    let a = axis_info_from_linux_absinfo(&absinfo(-32768, 32767, -128));
    assert_eq!((a.range.start, a.range.end), (-32768, 32767));
    assert_eq!((a.dead_zone.start, a.dead_zone.end), (-128, 128));
    let a = axis_info_from_linux_absinfo(&absinfo(0, 1, i32::MIN));
    assert_eq!(a.dead_zone.end, 2147483648);
}

#[test]
fn a_gamepad_is_built_from_udev_and_evdev() {
    let dev = gamepad();
    assert_eq!(dev.event_api, Some(LinuxEventAPI::Evdev));
    assert!(dev.is_a_controller_and_evdev_node());
    assert!(dev.is_a_gamepad());
    assert!(!dev.is_a_joystick());
    assert!(dev.supports_rumble());
    assert_eq!(dev.name(), Some("Sony Wireless Controller"));
    assert_eq!(dev.product_id(), Some(0x05c4));
    assert_eq!(dev.vendor_id(), Some(0x054c));
    assert_eq!(dev.driver_name().as_deref(), Some("usbhid"));
    assert_eq!(dev.driver_version().as_deref(), Some("1.0.1"));
    assert_eq!(dev.bus(), Some(Bus::Usb));
    assert_eq!(dev.plug_usecs(), 123456);
    assert_eq!(dev.plug_instant(), EventInstant(OsEventInstant::UdevUsecs(123456)));
    assert_eq!(dev.instant_now(4), EventInstant(OsEventInstant::UdevUsecs(123460)));
    assert_eq!(dev.usecs_now(u64::MAX), u64::MAX);
    let evdev = dev.evdev.as_ref().unwrap();
    assert_eq!(evdev.buttons, vec![ControllerButton::A, ControllerButton::B]);
    assert_eq!(evdev.axes.len(), 2);
    assert_eq!(evdev.axes[0].0, ControllerAxis::DpadX);
    assert_eq!(evdev.axes[1].0, ControllerAxis::LX);
    assert_eq!(evdev.rumble_ff_id, -1);
}

#[test]
fn a_joystick_maps_axes_as_a_joystick() {
    let mut q = gamepad_queries();
    q.key_codes = vec![BTN_JOYSTICK];
    let dev = Linuxdev::from_udev_device(FromUdevDevice {
        device_node: s("/dev/input/event4"),
        properties: gamepad_properties(),
        try_open_fd_if_is_a_controller: true,
        fd_access: FdAccess::ReadOnly,
        evdev: Some(q),
    });
    assert!(dev.is_a_joystick());
    assert!(!dev.supports_rumble());
    let evdev = dev.evdev.as_ref().unwrap();
    assert_eq!(evdev.buttons, vec![ControllerButton::Trigger]);
    assert_eq!(evdev.axes[0].0, ControllerAxis::HatX(0));
    assert_eq!(evdev.axes[1].0, ControllerAxis::JoystickX);
    assert_eq!(dev.translate_ev_key(BTN_TRIGGER), ControllerButton::Trigger);
    assert_eq!(dev.untranslate_ev_abs(ControllerAxis::JoystickX), Some(ABS_X));
}

#[test]
fn no_evdev_without_an_open_evdev_node() {
    let dev = Linuxdev::from_udev_device(FromUdevDevice {
        device_node: s("/dev/input/js0"),
        properties: gamepad_properties(),
        try_open_fd_if_is_a_controller: true,
        fd_access: FdAccess::ReadWrite,
        evdev: Some(gamepad_queries()),
    });
    assert_eq!(dev.event_api, Some(LinuxEventAPI::Joydev));
    assert!(dev.evdev.is_none());
    assert!(!dev.is_a_controller_and_evdev_node());
    assert_eq!(dev.name(), Some("Wireless Controller"));
    assert_eq!(dev.product_id(), Some(0x05c4));
    assert_eq!(dev.driver_version(), None);
    let dev = Linuxdev::from_udev_device(FromUdevDevice {
        device_node: s("/dev/input/event2"),
        properties: gamepad_properties(),
        try_open_fd_if_is_a_controller: true,
        fd_access: FdAccess::NotOpened,
        evdev: Some(gamepad_queries()),
    });
    assert!(dev.evdev.is_none());
    assert!(!dev.fd_is_open);
}

#[test]
fn the_bus_comes_from_evdev_then_udev() {
    let mut q = gamepad_queries();
    q.id_bustype = 0x05;
    let dev = Linuxdev::from_udev_device(FromUdevDevice {
        device_node: s("/dev/input/event1"),
        properties: gamepad_properties(),
        try_open_fd_if_is_a_controller: true,
        fd_access: FdAccess::ReadWrite,
        evdev: Some(q),
    });
    assert_eq!(dev.bus(), Some(Bus::Bluetooth));
    let mut q = gamepad_queries();
    q.id_bustype = 0x19;
    let mut props = gamepad_properties();
    props.id_bus = s("pci");
    let dev = Linuxdev::from_udev_device(FromUdevDevice {
        device_node: s("/dev/input/event1"),
        properties: props,
        try_open_fd_if_is_a_controller: true,
        fd_access: FdAccess::ReadWrite,
        evdev: Some(q),
    });
    assert_eq!(dev.bus(), Some(Bus::Pci));
}

#[test]
fn opening_is_only_tried_for_controllers() {
    let p = UdevProps::from_properties(&gamepad_properties());
    assert!(fd_wanted(true, true, &p));
    assert!(!fd_wanted(false, true, &p));
    assert!(!fd_wanted(true, false, &p));
    let mut props = gamepad_properties();
    props.id_input_joystick = None;
    let p = UdevProps::from_properties(&props);
    assert!(!fd_wanted(true, true, &p));
}

#[test]
fn device_info_describes_the_controller() {
    let dev = gamepad();
    let info = dev.device_info();
    assert_eq!(info.device_node(), Some("/dev/input/event17"));
    assert_eq!(info.name(), Some("Sony Wireless Controller"));
    assert_eq!(info.serial(), Some("Sony_Wireless_Controller"));
    let ids = info.usb_ids().unwrap();
    assert_eq!((ids.vendor_id, ids.product_id), (0x054c, 0x05c4));
    assert_eq!(info.vendor_name(), Some("Sony"));
    assert_eq!(info.bus(), Some(Bus::Usb));
    assert_eq!(info.driver_name(), Some("usbhid"));
    assert_eq!(info.driver_version(), Some("1.0.1"));
    assert_eq!(info.is_physical(), None);
    assert_eq!(info.guid(), None);
    assert_eq!(info.master(), None);
    assert_eq!(info.parent(), None);
    assert!(info.mouse().is_none());
    assert!(info.keyboard().is_none());
    assert_eq!(info.plug_instant(), Some(EventInstant(OsEventInstant::UdevUsecs(123456))));
    let c = info.controller().unwrap();
    assert!(c.is_a_gamepad());
    assert!(!c.is_a_joystick());
    assert!(!c.is_a_steering_wheel());
    assert!(c.supports_rumble());
    assert!(c.has_button(ControllerButton::A));
    assert!(!c.has_button(ControllerButton::X));
    assert!(c.has_axis(ControllerAxis::LX));
    assert!(!c.has_axis(ControllerAxis::RX));
    assert_eq!(c.axis(ControllerAxis::LX).unwrap().range.end, 255);
}

fn ev(type_: u16, code: u16, value: i32) -> InputEvent {
    InputEvent { tv_sec: 10, tv_usec: 20, type_, code, value }
}

#[test]
fn evdev_events_are_translated() {
    let dev = gamepad();
    let t = LinuxdevToken(7);
    let id = DeviceID(OsDeviceID::Linuxdev(t));
    let instant = EventInstant(OsEventInstant::LinuxInputEventTimeval { tv_sec: 10, tv_usec: 20 });
    match dev.translate_linux_input_event(t, &ev(EV_KEY, BTN_A, 1)) {
        Some(LinuxdevEvent::ControllerButtonPressed { controller, instant: i, button }) => {
            assert_eq!(controller, id);
            assert_eq!(i, instant);
            assert_eq!(button, ControllerButton::A);
        },
        other => panic!("unexpected {:?}", other),
    }
    assert!(matches!(
        dev.translate_linux_input_event(t, &ev(EV_KEY, BTN_A, 0)),
        Some(LinuxdevEvent::ControllerButtonReleased { button: ControllerButton::A, .. })
    ));
    assert!(matches!(
        dev.translate_linux_input_event(t, &ev(EV_ABS, ABS_X, -5)),
        Some(LinuxdevEvent::ControllerAxisMotion { axis: ControllerAxis::LX, value: -5, .. })
    ));
    assert!(dev.translate_linux_input_event(t, &ev(EV_SYN, 0, 0)).is_none());
}

#[test]
fn reading_steps_follow_libevdev_statuses() {
    let dev = gamepad();
    let t = LinuxdevToken(1);
    let e = ev(EV_KEY, BTN_A, 1);
    let step = dev.pump_evdev_step(t, false, 0, &e);
    assert!(!step.sync && step.done.is_none() && step.event.is_some());
    let step = dev.pump_evdev_step(t, false, 1, &e);
    assert!(step.sync && step.done.is_none() && step.event.is_some());
    let step = dev.pump_evdev_step(t, true, -11, &e);
    assert!(!step.sync && step.done.is_none() && step.event.is_none());
    let step = dev.pump_evdev_step(t, false, -11, &e);
    assert!(matches!(step.done, Some(Ok(()))));
    let step = dev.pump_evdev_step(t, false, -19, &e);
    assert!(matches!(step.done, Some(Err(DeviceError::DeviceDisconnected(None)))));
    let step = dev.pump_evdev_step(t, false, -5, &e);
    match step.done {
        Some(Err(DeviceError::Other(err))) => {
            assert_eq!(err.kind, ErrorKind::Failed);
            assert_eq!(
                err.reason.as_deref(),
                Some("Controller `Sony Wireless Controller`: libevdev_next_event() returned -EIO: I/O error")
            );
        },
        _ => panic!("expected a failure"),
    }
}

#[test]
fn vibration_plans() {
    let mut dev = gamepad();
    let zero = VibrationState { strong_magnitude: 0, weak_magnitude: 0 };
    let some = VibrationState { strong_magnitude: 100, weak_magnitude: 200 };
    assert!(matches!(dev.controller_set_vibration(&zero), VibrationPlan::Nothing));
    match dev.controller_set_vibration(&some) {
        VibrationPlan::Start { effect, play_count } => {
            assert_eq!(effect.id, -1);
            assert_eq!(effect.type_, FF_RUMBLE);
            assert_eq!(effect.replay_length, 0x7fff);
            assert_eq!((effect.strong_magnitude, effect.weak_magnitude), (100, 200));
            assert_eq!(play_count, 0);
        },
        _ => panic!("expected a start"),
    }
    dev.set_rumble_ff_id(3);
    match dev.controller_set_vibration(&zero) {
        VibrationPlan::Update { effect, play_count } => {
            assert_eq!(effect.id, 3);
            assert_eq!(play_count, i32::MAX);
        },
        _ => panic!("expected an update"),
    }
    let mut q = gamepad_queries();
    q.max_simultaneous_ff_effects = Some(0);
    let dev = Linuxdev::from_udev_device(FromUdevDevice {
        device_node: s("/dev/input/event1"),
        properties: gamepad_properties(),
        try_open_fd_if_is_a_controller: true,
        fd_access: FdAccess::ReadWrite,
        evdev: Some(q),
    });
    match dev.controller_set_vibration(&some) {
        VibrationPlan::Fail(DeviceError::NotSupportedByDevice { reason }) => assert_eq!(
            reason.as_deref(),
            Some("Device does not support playing at least one force feedback effect")
        ),
        _ => panic!("expected a failure"),
    }
    let dev = Linuxdev::from_udev_device(FromUdevDevice {
        device_node: s("/dev/input/event1"),
        properties: gamepad_properties(),
        try_open_fd_if_is_a_controller: true,
        fd_access: FdAccess::ReadOnly,
        evdev: Some(gamepad_queries()),
    });
    match dev.controller_set_vibration(&some) {
        VibrationPlan::Fail(DeviceError::NotSupportedByDevice { reason }) => {
            assert_eq!(reason.as_deref(), Some("Device file could not be opened for write access"))
        },
        _ => panic!("expected a failure"),
    }
    let dev = Linuxdev::from_udev_device(FromUdevDevice {
        device_node: s("/dev/input/js1"),
        properties: gamepad_properties(),
        try_open_fd_if_is_a_controller: true,
        fd_access: FdAccess::NotOpened,
        evdev: None,
    });
    assert!(matches!(
        dev.controller_set_vibration(&some),
        VibrationPlan::Fail(DeviceError::NotSupportedByDevice { reason: None })
    ));
}

#[test]
fn force_feedback_outcomes() {
    let dev = gamepad();
    assert!(dev.register_ff_effect_outcome(None, 4).is_ok());
    assert!(matches!(dev.register_ff_effect_outcome(Some(19), 4), Err(DeviceError::DeviceDisconnected(None))));
    match dev.register_ff_effect_outcome(Some(22), 4) {
        Err(DeviceError::NotSupportedByDevice { reason }) => assert_eq!(
            reason.as_deref(),
            Some("Controller `Sony Wireless Controller`: could not register force feedback effect: ioctl() generated EINVAL: Invalid argument")
        ),
        _ => panic!("expected a failure"),
    }
    assert!(matches!(dev.register_ff_effect_outcome(None, -1), Err(DeviceError::NotSupportedByDevice { reason: Some(_) })));
    assert!(matches!(dev.write_ff_event_outcome(-1, 24, 11), WriteStep::Retry));
    assert!(matches!(dev.write_ff_event_outcome(-1, 24, 19), WriteStep::Done(Err(DeviceError::DeviceDisconnected(None)))));
    assert!(matches!(dev.write_ff_event_outcome(12, 24, 0), WriteStep::Done(Err(DeviceError::NotSupportedByDevice { reason: None }))));
    assert!(matches!(dev.write_ff_event_outcome(24, 24, 0), WriteStep::Done(Ok(()))));
    match dev.write_ff_event_outcome(-1, 24, 5) {
        WriteStep::Done(Err(DeviceError::NotSupportedByDevice { reason })) => assert_eq!(
            reason.as_deref(),
            Some("Controller `Sony Wireless Controller`: could not play rumble effect: write() generated EIO: I/O error")
        ),
        _ => panic!("expected a failure"),
    }
    let g = ff_gain_event(0xffff);
    assert_eq!((g.type_, g.code, g.value), (0x15, 0x60, 0xffff));
    assert!(gain_failure_is_fatal(&Err(DeviceError::DeviceDisconnected(None))));
    assert!(!gain_failure_is_fatal(&Err(DeviceError::NotSupportedByDevice { reason: None })));
    assert!(!gain_failure_is_fatal(&Ok(())));
}

#[test]
fn registry_keeps_a_removed_controller_until_its_disconnection_is_taken() {
    let mut ctx = LinuxdevContext::new();
    let t = ctx.add_linuxdev(gamepad()).unwrap();
    assert_eq!(t, LinuxdevToken(0));
    let id = DeviceID(OsDeviceID::Linuxdev(t));
    assert!(ctx.with_controller(id).is_ok());
    assert_eq!(ctx.find_token_by_device_node("/dev/input/event17"), Some(t));
    assert_eq!(ctx.find_token_by_device_node("/dev/input/event18"), None);
    ctx.on_udev_device_removed(t, 10);
    assert!(ctx.with_controller(id).is_ok());
    match ctx.poll_next_event() {
        Some(LinuxdevEvent::DeviceConnected { device, instant, info }) => {
            assert_eq!(device, id);
            assert_eq!(instant, EventInstant(OsEventInstant::UdevUsecs(123456)));
            assert_eq!(info.name(), Some("Sony Wireless Controller"));
        },
        _ => panic!("expected a connection"),
    }
    assert!(ctx.with_controller(id).is_ok());
    match ctx.poll_next_event() {
        Some(LinuxdevEvent::DeviceDisconnected { device, instant }) => {
            assert_eq!(device, id);
            assert_eq!(instant, EventInstant(OsEventInstant::UdevUsecs(123466)));
        },
        _ => panic!("expected a disconnection"),
    }
    assert!(matches!(ctx.with_controller(id), Err(DeviceError::DeviceDisconnected(None))));
    assert!(ctx.poll_next_event().is_none());
    assert!(ctx.controllers().is_empty());
}

#[test]
fn registry_ignores_what_is_not_a_controller() {
    let mut ctx = LinuxdevContext::new();
    let mut props = gamepad_properties();
    props.id_input_joystick = None;
    props.id_input_mouse = s("1");
    let mouse = Linuxdev::from_udev_device(FromUdevDevice {
        device_node: s("/dev/input/event5"),
        properties: props,
        try_open_fd_if_is_a_controller: true,
        fd_access: FdAccess::NotOpened,
        evdev: None,
    });
    assert_eq!(ctx.add_linuxdev(mouse), None);
    assert!(ctx.poll_next_event().is_none());
    match ctx.with_controller(DeviceID(OsDeviceID::CorePointer)) {
        Err(DeviceError::NotSupportedByDevice { reason }) => {
            assert_eq!(reason.as_deref(), Some("This device does not refer to a controller"))
        },
        _ => panic!("expected a failure"),
    }
}

#[test]
fn registry_lists_controllers_and_replaces_by_token() {
    let mut ctx = LinuxdevContext::new();
    let a = ctx.add_linuxdev(gamepad()).unwrap();
    let b = ctx.add_linuxdev(gamepad()).unwrap();
    assert_ne!(a, b);
    let list = ctx.controllers();
    assert_eq!(list.len(), 2);
    assert_eq!(list[0].0, DeviceID(OsDeviceID::Linuxdev(a)));
    assert_eq!(list[1].0, DeviceID(OsDeviceID::Linuxdev(b)));
    let t = ctx.next_token();
    assert_eq!(t, LinuxdevToken(2));
    ctx.insert_controller(a, gamepad());
    assert_eq!(ctx.controllers().len(), 2);
    ctx.insert_controller(t, gamepad());
    assert_eq!(ctx.controllers().len(), 3);
    assert!(worth_keeping(&Ok(())));
    assert!(worth_keeping(&Err(DeviceError::NotSupportedByDevice { reason: None })));
    assert!(!worth_keeping(&Err(DeviceError::DeviceDisconnected(None))));
}

#[test]
fn start_up_scan_keeps_connected_controllers() {
    let mut ctx = LinuxdevContext::new();
    let dev = gamepad();
    let t = ctx.begin_scanned_device(&dev).unwrap();
    ctx.finish_scanned_device(t, dev, &Ok(()));
    assert_eq!(ctx.controllers().len(), 1);
    assert!(ctx.poll_next_event().is_none());
    let dev = gamepad();
    let t2 = ctx.begin_scanned_device(&dev).unwrap();
    assert_ne!(t, t2);
    ctx.finish_scanned_device(t2, dev, &Err(DeviceError::DeviceDisconnected(None)));
    assert_eq!(ctx.controllers().len(), 1);
    let mut props = gamepad_properties();
    props.id_input_joystick = None;
    let mouse = Linuxdev::from_udev_device(FromUdevDevice {
        device_node: s("/dev/input/event9"),
        properties: props,
        try_open_fd_if_is_a_controller: true,
        fd_access: FdAccess::NotOpened,
        evdev: None,
    });
    assert_eq!(ctx.begin_scanned_device(&mouse), None);
}

#[test]
fn a_registered_rumble_effect_is_unregistered() {
    let mut dev = gamepad();
    assert_eq!(dev.rumble_effect_to_unregister(), None);
    dev.set_rumble_ff_id(5);
    assert_eq!(dev.rumble_effect_to_unregister(), Some(5));
}

#[test]
fn node_is_never_open_where_opening_was_not_wanted() {
    let not_asked = Linuxdev::from_udev_device(FromUdevDevice {
        device_node: s("/dev/input/event17"),
        properties: gamepad_properties(),
        try_open_fd_if_is_a_controller: false,
        fd_access: FdAccess::ReadWrite,
        evdev: Some(gamepad_queries()),
    });
    assert!(!not_asked.fd_is_open);
    assert!(!not_asked.fd_has_write_access);
    assert!(not_asked.evdev.is_none());

    let no_node = Linuxdev::from_udev_device(FromUdevDevice {
        device_node: None,
        properties: gamepad_properties(),
        try_open_fd_if_is_a_controller: true,
        fd_access: FdAccess::ReadWrite,
        evdev: None,
    });
    assert!(!no_node.fd_is_open);
    assert!(!no_node.fd_has_write_access);

    let mut props = gamepad_properties();
    props.id_input_joystick = None;
    props.id_input_mouse = s("1");
    let mouse = Linuxdev::from_udev_device(FromUdevDevice {
        device_node: s("/dev/input/event5"),
        properties: props,
        try_open_fd_if_is_a_controller: true,
        fd_access: FdAccess::ReadOnly,
        evdev: None,
    });
    assert!(!mouse.fd_is_open);
}

#[test]
fn controller_state_from_what_evdev_fetched() {
    let dev = gamepad();
    let mut buttons = vec![None; 44];
    buttons[15] = Some(1); // BTN_A
    buttons[16] = Some(0); // BTN_B
    let mut axes = vec![None; 19];
    axes[13] = Some(-120); // ABS_X
    let s = dev.controller_state_from_fetches(&buttons, &axes);
    assert_eq!(s.buttons, vec![(ControllerButton::A, ButtonState::Down), (ControllerButton::B, ButtonState::Up)]);
    assert_eq!(s.axes, vec![(ControllerAxis::LX, -120)]);
    assert_eq!(s.button(ControllerButton::A), Some(ButtonState::Down));
    assert_eq!(s.axis(ControllerAxis::LX), Some(-120));
}

#[test]
fn device_info_names_each_button_and_axis_once() {
    let info = gamepad().device_info();
    let c = info.controller.unwrap();
    for (i, b) in c.buttons.iter().enumerate() {
        assert!(!c.buttons[i + 1..].contains(b));
    }
    for (i, a) in c.axes.iter().enumerate() {
        assert!(c.axes[i + 1..].iter().all(|x| x.0 != a.0));
    }
}
