use dmc::device::error::{
    disconnected, disconnected_at, failed, failed_unexplained, not_supported_by_device,
    not_supported_by_device_unexplained, Error as DeviceError,
};
use dmc::device::{ButtonState, ControllerAxis, ControllerButton, VibrationState};
use dmc::error::{self, Error, ErrorKind};
use dmc::event_instant::{EventInstant, OsEventInstant};
use dmc::linuxdev::codes::{ABS_HAT0X, ABS_HAT2Y, ABS_THROTTLE, ABS_X, BTN_0, BTN_A, BTN_THUMB2};
use dmc::linuxdev::mapping::{
    controller_axis_from_ev_abs_code_common, controller_axis_from_ev_abs_code_for_gamepads_or_steering_wheels,
    controller_axis_from_ev_abs_code_for_joysticks, controller_axis_to_ev_abs_code_for_gamepads_or_steering_wheels,
    controller_axis_to_ev_abs_code_for_joysticks, controller_button_from_ev_key_code,
    controller_button_to_ev_key_code,
};

#[test]
fn button_states() {
    assert!(ButtonState::Down.is_down());
    assert!(ButtonState::Up.is_up());
    assert_eq!(ButtonState::Down.not(), ButtonState::Up);
    assert_eq!(ButtonState::Up.flipped(), ButtonState::Down);
    let mut s = ButtonState::Down;
    s.flip();
    assert_eq!(s, ButtonState::Up);
    s.flip();
    assert_eq!(s, ButtonState::Down);
}

#[test]
fn vibration_states() {
    assert!(VibrationState { strong_magnitude: 0, weak_magnitude: 0 }.is_zero());
    assert!(!VibrationState { strong_magnitude: 0, weak_magnitude: 1 }.is_zero());
    let m = VibrationState::max();
    assert_eq!((m.strong_magnitude, m.weak_magnitude), (u16::MAX, u16::MAX));
}

#[test]
fn key_codes_and_buttons() {
    assert_eq!(controller_button_from_ev_key_code(BTN_A), ControllerButton::A);
    assert_eq!(controller_button_from_ev_key_code(BTN_THUMB2), ControllerButton::Thumb(1));
    assert_eq!(controller_button_from_ev_key_code(BTN_0 + 3), ControllerButton::Num(3));
    assert_eq!(controller_button_from_ev_key_code(0x2c0), ControllerButton::Other(0x2c0));
    assert_eq!(controller_button_to_ev_key_code(ControllerButton::A), Some(BTN_A));
    assert_eq!(controller_button_to_ev_key_code(ControllerButton::Num(12)), None);
    assert_eq!(controller_button_to_ev_key_code(ControllerButton::Other(0x2c0)), Some(0x2c0));
    for code in [BTN_A, BTN_THUMB2, BTN_0, 0x2c0u16, 0x13b] {
        let b = controller_button_from_ev_key_code(code);
        assert_eq!(controller_button_to_ev_key_code(b), Some(code));
    }
}

#[test]
fn abs_codes_and_axes() {
    assert_eq!(controller_axis_from_ev_abs_code_common(ABS_THROTTLE), ControllerAxis::Throttle);
    assert_eq!(controller_axis_from_ev_abs_code_common(ABS_HAT2Y), ControllerAxis::HatY(2));
    assert_eq!(controller_axis_from_ev_abs_code_common(0x28), ControllerAxis::Other(0x28));
    assert_eq!(controller_axis_from_ev_abs_code_for_gamepads_or_steering_wheels(ABS_X), ControllerAxis::LX);
    assert_eq!(controller_axis_from_ev_abs_code_for_joysticks(ABS_X), ControllerAxis::JoystickX);
    assert_eq!(controller_axis_from_ev_abs_code_for_joysticks(ABS_HAT0X), ControllerAxis::HatX(0));
    assert_eq!(controller_axis_to_ev_abs_code_for_gamepads_or_steering_wheels(ControllerAxis::LX), Some(ABS_X));
    assert_eq!(controller_axis_to_ev_abs_code_for_gamepads_or_steering_wheels(ControllerAxis::JoystickX), None);
    assert_eq!(controller_axis_to_ev_abs_code_for_joysticks(ControllerAxis::JoystickX), Some(ABS_X));
    assert_eq!(controller_axis_to_ev_abs_code_for_joysticks(ControllerAxis::LX), None);
    for code in 0u16..0x40 {
        let a = controller_axis_from_ev_abs_code_for_joysticks(code);
        assert_eq!(controller_axis_to_ev_abs_code_for_joysticks(a), Some(code));
        let g = controller_axis_from_ev_abs_code_for_gamepads_or_steering_wheels(code);
        assert_eq!(controller_axis_to_ev_abs_code_for_gamepads_or_steering_wheels(g), Some(code));
    }
}

#[test]
fn error_messages() {
    let e = Error::failed("boom".to_owned());
    assert_eq!(e.description(), "Operation has failed");
    assert_eq!(e.message(), "Operation has failed: boom");
    let e = Error::unsupported_unexplained();
    assert_eq!(e.kind, ErrorKind::Unsupported);
    assert_eq!(e.message(), format!("{} (no reason given)", ErrorKind::Unsupported.describe_quick()));
    let r: Result<(), Error> = error::invalid_arg("bad".to_owned());
    let e = r.unwrap_err();
    assert_eq!(e.kind, ErrorKind::InvalidArgument);
    assert_eq!(e.reason.as_deref(), Some("bad"));
    assert!(error::failed_unexplained::<()>().unwrap_err().reason.is_none());
    assert_eq!(error::unsupported::<()>("x".to_owned()).unwrap_err().kind, ErrorKind::Unsupported);
}

#[test]
fn device_errors() {
    let i = EventInstant(OsEventInstant::UdevUsecs(3));
    assert_eq!(disconnected_at::<()>(i).unwrap_err(), DeviceError::DeviceDisconnected(Some(i)));
    assert_eq!(disconnected::<()>().unwrap_err(), DeviceError::DeviceDisconnected(None));
    assert_eq!(disconnected::<()>().unwrap_err().description(), "Device disconnected");
    let e = not_supported_by_device::<()>("nope".to_owned()).unwrap_err();
    assert_eq!(e, DeviceError::NotSupportedByDevice { reason: Some("nope".to_owned()) });
    assert_eq!(e.description(), "Not supported by device");
    assert_eq!(not_supported_by_device_unexplained::<()>().unwrap_err(), DeviceError::NotSupportedByDevice { reason: None });
    match failed::<()>("x".to_owned()).unwrap_err() {
        DeviceError::Other(o) => assert_eq!(o.kind, ErrorKind::Failed),
        _ => panic!(),
    }
    assert!(matches!(failed_unexplained::<()>().unwrap_err(), DeviceError::Other(_)));
}
