//! Translation between controller buttons and axes and the evdev key and absolute-axis
//! codes that stand for them.

use vstd::prelude::*;
use crate::device::{ControllerAxis, ControllerButton};
use super::codes::{
    ABS_BRAKE, ABS_GAS, ABS_HAT0X, ABS_HAT0Y, ABS_HAT1X, ABS_HAT1Y,
    ABS_HAT2X, ABS_HAT2Y, ABS_HAT3X, ABS_HAT3Y, ABS_RUDDER, ABS_RX,
    ABS_RY, ABS_RZ, ABS_THROTTLE, ABS_WHEEL, ABS_X, ABS_Y,
    ABS_Z, BTN_0, BTN_1, BTN_2, BTN_3, BTN_4,
    BTN_5, BTN_6, BTN_7, BTN_8, BTN_9, BTN_A,
    BTN_B, BTN_BASE, BTN_BASE2, BTN_BASE3, BTN_BASE4, BTN_BASE5,
    BTN_BASE6, BTN_C, BTN_DEAD, BTN_DPAD_DOWN, BTN_DPAD_LEFT, BTN_DPAD_RIGHT,
    BTN_DPAD_UP, BTN_GEAR_DOWN, BTN_GEAR_UP, BTN_MODE, BTN_PINKIE, BTN_SELECT,
    BTN_START, BTN_THUMB, BTN_THUMB2, BTN_THUMBL, BTN_THUMBR, BTN_TL,
    BTN_TL2, BTN_TOP, BTN_TOP2, BTN_TR, BTN_TR2, BTN_TRIGGER,
    BTN_X, BTN_Y, BTN_Z,
};

verus! {

/// The evdev key code of a controller button, if it has one.
pub open spec fn button_to_code_spec(button: ControllerButton) -> Option<u16> {
    match button {
        ControllerButton::GearDown => Some(BTN_GEAR_DOWN),
        ControllerButton::GearUp => Some(BTN_GEAR_UP),
        ControllerButton::Trigger => Some(BTN_TRIGGER),
        ControllerButton::Thumb(0) => Some(BTN_THUMB),
        ControllerButton::Thumb(1) => Some(BTN_THUMB2),
        ControllerButton::Thumb(_) => None,
        ControllerButton::Top(0) => Some(BTN_TOP),
        ControllerButton::Top(1) => Some(BTN_TOP2),
        ControllerButton::Top(_) => None,
        ControllerButton::Pinkie => Some(BTN_PINKIE),
        ControllerButton::Dead => Some(BTN_DEAD),
        ControllerButton::Base(0) => Some(BTN_BASE),
        ControllerButton::Base(1) => Some(BTN_BASE2),
        ControllerButton::Base(2) => Some(BTN_BASE3),
        ControllerButton::Base(3) => Some(BTN_BASE4),
        ControllerButton::Base(4) => Some(BTN_BASE5),
        ControllerButton::Base(5) => Some(BTN_BASE6),
        ControllerButton::Base(_) => None,
        ControllerButton::A => Some(BTN_A),
        ControllerButton::B => Some(BTN_B),
        ControllerButton::C => Some(BTN_C),
        ControllerButton::X => Some(BTN_X),
        ControllerButton::Y => Some(BTN_Y),
        ControllerButton::Z => Some(BTN_Z),
        ControllerButton::LShoulder => Some(BTN_TL),
        ControllerButton::RShoulder => Some(BTN_TR),
        ControllerButton::LShoulder2 => Some(BTN_TL2),
        ControllerButton::RShoulder2 => Some(BTN_TR2),
        ControllerButton::Select => Some(BTN_SELECT),
        ControllerButton::Start => Some(BTN_START),
        ControllerButton::Mode => Some(BTN_MODE),
        ControllerButton::LStickClick => Some(BTN_THUMBL),
        ControllerButton::RStickClick => Some(BTN_THUMBR),
        ControllerButton::DpadUp => Some(BTN_DPAD_UP),
        ControllerButton::DpadDown => Some(BTN_DPAD_DOWN),
        ControllerButton::DpadLeft => Some(BTN_DPAD_LEFT),
        ControllerButton::DpadRight => Some(BTN_DPAD_RIGHT),
        ControllerButton::Num(0) => Some(BTN_0),
        ControllerButton::Num(1) => Some(BTN_1),
        ControllerButton::Num(2) => Some(BTN_2),
        ControllerButton::Num(3) => Some(BTN_3),
        ControllerButton::Num(4) => Some(BTN_4),
        ControllerButton::Num(5) => Some(BTN_5),
        ControllerButton::Num(6) => Some(BTN_6),
        ControllerButton::Num(7) => Some(BTN_7),
        ControllerButton::Num(8) => Some(BTN_8),
        ControllerButton::Num(9) => Some(BTN_9),
        ControllerButton::Num(_) => None,
        ControllerButton::Other(other) => Some(other as u16),
    }
}

/// The evdev key code of a controller button, if it has one. An `Other` button is given
/// the low 16 bits of its number.
pub fn controller_button_to_ev_key_code(button: ControllerButton) -> (r: Option<u16>)
    ensures
        r == button_to_code_spec(button),
{
    match button {
        ControllerButton::GearDown => Some(BTN_GEAR_DOWN),
        ControllerButton::GearUp => Some(BTN_GEAR_UP),
        ControllerButton::Trigger => Some(BTN_TRIGGER),
        ControllerButton::Thumb(0) => Some(BTN_THUMB),
        ControllerButton::Thumb(1) => Some(BTN_THUMB2),
        ControllerButton::Thumb(_) => None,
        ControllerButton::Top(0) => Some(BTN_TOP),
        ControllerButton::Top(1) => Some(BTN_TOP2),
        ControllerButton::Top(_) => None,
        ControllerButton::Pinkie => Some(BTN_PINKIE),
        ControllerButton::Dead => Some(BTN_DEAD),
        ControllerButton::Base(0) => Some(BTN_BASE),
        ControllerButton::Base(1) => Some(BTN_BASE2),
        ControllerButton::Base(2) => Some(BTN_BASE3),
        ControllerButton::Base(3) => Some(BTN_BASE4),
        ControllerButton::Base(4) => Some(BTN_BASE5),
        ControllerButton::Base(5) => Some(BTN_BASE6),
        ControllerButton::Base(_) => None,
        ControllerButton::A => Some(BTN_A),
        ControllerButton::B => Some(BTN_B),
        ControllerButton::C => Some(BTN_C),
        ControllerButton::X => Some(BTN_X),
        ControllerButton::Y => Some(BTN_Y),
        ControllerButton::Z => Some(BTN_Z),
        ControllerButton::LShoulder => Some(BTN_TL),
        ControllerButton::RShoulder => Some(BTN_TR),
        ControllerButton::LShoulder2 => Some(BTN_TL2),
        ControllerButton::RShoulder2 => Some(BTN_TR2),
        ControllerButton::Select => Some(BTN_SELECT),
        ControllerButton::Start => Some(BTN_START),
        ControllerButton::Mode => Some(BTN_MODE),
        ControllerButton::LStickClick => Some(BTN_THUMBL),
        ControllerButton::RStickClick => Some(BTN_THUMBR),
        ControllerButton::DpadUp => Some(BTN_DPAD_UP),
        ControllerButton::DpadDown => Some(BTN_DPAD_DOWN),
        ControllerButton::DpadLeft => Some(BTN_DPAD_LEFT),
        ControllerButton::DpadRight => Some(BTN_DPAD_RIGHT),
        ControllerButton::Num(0) => Some(BTN_0),
        ControllerButton::Num(1) => Some(BTN_1),
        ControllerButton::Num(2) => Some(BTN_2),
        ControllerButton::Num(3) => Some(BTN_3),
        ControllerButton::Num(4) => Some(BTN_4),
        ControllerButton::Num(5) => Some(BTN_5),
        ControllerButton::Num(6) => Some(BTN_6),
        ControllerButton::Num(7) => Some(BTN_7),
        ControllerButton::Num(8) => Some(BTN_8),
        ControllerButton::Num(9) => Some(BTN_9),
        ControllerButton::Num(_) => None,
        ControllerButton::Other(other) => Some(other as u16),
    }
}

/// The controller button an evdev key code stands for; an unknown code gives `Other`.
pub open spec fn button_from_code_spec(code: u16) -> ControllerButton {
    if code == BTN_GEAR_DOWN {
        ControllerButton::GearDown
    } else if code == BTN_GEAR_UP {
        ControllerButton::GearUp
    } else if code == BTN_TRIGGER {
        ControllerButton::Trigger
    } else if code == BTN_THUMB {
        ControllerButton::Thumb(0)
    } else if code == BTN_THUMB2 {
        ControllerButton::Thumb(1)
    } else if code == BTN_TOP {
        ControllerButton::Top(0)
    } else if code == BTN_TOP2 {
        ControllerButton::Top(1)
    } else if code == BTN_PINKIE {
        ControllerButton::Pinkie
    } else if code == BTN_DEAD {
        ControllerButton::Dead
    } else if code == BTN_BASE {
        ControllerButton::Base(0)
    } else if code == BTN_BASE2 {
        ControllerButton::Base(1)
    } else if code == BTN_BASE3 {
        ControllerButton::Base(2)
    } else if code == BTN_BASE4 {
        ControllerButton::Base(3)
    } else if code == BTN_BASE5 {
        ControllerButton::Base(4)
    } else if code == BTN_BASE6 {
        ControllerButton::Base(5)
    } else if code == BTN_A {
        ControllerButton::A
    } else if code == BTN_B {
        ControllerButton::B
    } else if code == BTN_C {
        ControllerButton::C
    } else if code == BTN_X {
        ControllerButton::X
    } else if code == BTN_Y {
        ControllerButton::Y
    } else if code == BTN_Z {
        ControllerButton::Z
    } else if code == BTN_TL {
        ControllerButton::LShoulder
    } else if code == BTN_TR {
        ControllerButton::RShoulder
    } else if code == BTN_TL2 {
        ControllerButton::LShoulder2
    } else if code == BTN_TR2 {
        ControllerButton::RShoulder2
    } else if code == BTN_SELECT {
        ControllerButton::Select
    } else if code == BTN_START {
        ControllerButton::Start
    } else if code == BTN_MODE {
        ControllerButton::Mode
    } else if code == BTN_THUMBL {
        ControllerButton::LStickClick
    } else if code == BTN_THUMBR {
        ControllerButton::RStickClick
    } else if code == BTN_DPAD_UP {
        ControllerButton::DpadUp
    } else if code == BTN_DPAD_DOWN {
        ControllerButton::DpadDown
    } else if code == BTN_DPAD_LEFT {
        ControllerButton::DpadLeft
    } else if code == BTN_DPAD_RIGHT {
        ControllerButton::DpadRight
    } else if code == BTN_0 {
        ControllerButton::Num(0)
    } else if code == BTN_1 {
        ControllerButton::Num(1)
    } else if code == BTN_2 {
        ControllerButton::Num(2)
    } else if code == BTN_3 {
        ControllerButton::Num(3)
    } else if code == BTN_4 {
        ControllerButton::Num(4)
    } else if code == BTN_5 {
        ControllerButton::Num(5)
    } else if code == BTN_6 {
        ControllerButton::Num(6)
    } else if code == BTN_7 {
        ControllerButton::Num(7)
    } else if code == BTN_8 {
        ControllerButton::Num(8)
    } else if code == BTN_9 {
        ControllerButton::Num(9)
    } else {
        ControllerButton::Other(code as i32)
    }
}

/// The controller button an evdev key code stands for; an unknown code gives `Other`.
pub fn controller_button_from_ev_key_code(code: u16) -> (r: ControllerButton)
    ensures
        r == button_from_code_spec(code),
{
    match code {
        BTN_GEAR_DOWN => ControllerButton::GearDown,
        BTN_GEAR_UP => ControllerButton::GearUp,
        BTN_TRIGGER => ControllerButton::Trigger,
        BTN_THUMB => ControllerButton::Thumb(0),
        BTN_THUMB2 => ControllerButton::Thumb(1),
        BTN_TOP => ControllerButton::Top(0),
        BTN_TOP2 => ControllerButton::Top(1),
        BTN_PINKIE => ControllerButton::Pinkie,
        BTN_DEAD => ControllerButton::Dead,
        BTN_BASE => ControllerButton::Base(0),
        BTN_BASE2 => ControllerButton::Base(1),
        BTN_BASE3 => ControllerButton::Base(2),
        BTN_BASE4 => ControllerButton::Base(3),
        BTN_BASE5 => ControllerButton::Base(4),
        BTN_BASE6 => ControllerButton::Base(5),
        BTN_A => ControllerButton::A,
        BTN_B => ControllerButton::B,
        BTN_C => ControllerButton::C,
        BTN_X => ControllerButton::X,
        BTN_Y => ControllerButton::Y,
        BTN_Z => ControllerButton::Z,
        BTN_TL => ControllerButton::LShoulder,
        BTN_TR => ControllerButton::RShoulder,
        BTN_TL2 => ControllerButton::LShoulder2,
        BTN_TR2 => ControllerButton::RShoulder2,
        BTN_SELECT => ControllerButton::Select,
        BTN_START => ControllerButton::Start,
        BTN_MODE => ControllerButton::Mode,
        BTN_THUMBL => ControllerButton::LStickClick,
        BTN_THUMBR => ControllerButton::RStickClick,
        BTN_DPAD_UP => ControllerButton::DpadUp,
        BTN_DPAD_DOWN => ControllerButton::DpadDown,
        BTN_DPAD_LEFT => ControllerButton::DpadLeft,
        BTN_DPAD_RIGHT => ControllerButton::DpadRight,
        BTN_0 => ControllerButton::Num(0),
        BTN_1 => ControllerButton::Num(1),
        BTN_2 => ControllerButton::Num(2),
        BTN_3 => ControllerButton::Num(3),
        BTN_4 => ControllerButton::Num(4),
        BTN_5 => ControllerButton::Num(5),
        BTN_6 => ControllerButton::Num(6),
        BTN_7 => ControllerButton::Num(7),
        BTN_8 => ControllerButton::Num(8),
        BTN_9 => ControllerButton::Num(9),
        _ => ControllerButton::Other(code as i32),
    }
}

/// Is `code` one of the absolute axis codes whose meaning depends on the kind of
/// controller (the sticks, triggers and first hat)?
pub open spec fn is_kind_specific_abs_code(code: u16) -> bool {
    code == ABS_X || code == ABS_Y || code == ABS_Z || code == ABS_RX || code == ABS_RY
        || code == ABS_RZ || code == ABS_HAT0X || code == ABS_HAT0Y
}

/// The axis an absolute axis code stands for on any controller, for the codes whose
/// meaning does not depend on the kind of controller.
pub open spec fn axis_from_code_common_spec(code: u16) -> ControllerAxis {
    if code == ABS_THROTTLE {
        ControllerAxis::Throttle
    } else if code == ABS_RUDDER {
        ControllerAxis::Rudder
    } else if code == ABS_WHEEL {
        ControllerAxis::Wheel
    } else if code == ABS_GAS {
        ControllerAxis::Gas
    } else if code == ABS_BRAKE {
        ControllerAxis::Brake
    } else if code == ABS_HAT1X {
        ControllerAxis::HatX(1)
    } else if code == ABS_HAT1Y {
        ControllerAxis::HatY(1)
    } else if code == ABS_HAT2X {
        ControllerAxis::HatX(2)
    } else if code == ABS_HAT2Y {
        ControllerAxis::HatY(2)
    } else if code == ABS_HAT3X {
        ControllerAxis::HatX(3)
    } else if code == ABS_HAT3Y {
        ControllerAxis::HatY(3)
    } else {
        ControllerAxis::Other(code as i32)
    }
}

/// The axis an absolute axis code stands for on any controller. The codes whose meaning
/// depends on the kind of controller are the callers' to translate.
pub fn controller_axis_from_ev_abs_code_common(code: u16) -> (r: ControllerAxis)
    requires
        !is_kind_specific_abs_code(code),
    ensures
        r == axis_from_code_common_spec(code),
{
    match code {
        ABS_THROTTLE => ControllerAxis::Throttle,
        ABS_RUDDER => ControllerAxis::Rudder,
        ABS_WHEEL => ControllerAxis::Wheel,
        ABS_GAS => ControllerAxis::Gas,
        ABS_BRAKE => ControllerAxis::Brake,
        ABS_HAT1X => ControllerAxis::HatX(1),
        ABS_HAT1Y => ControllerAxis::HatY(1),
        ABS_HAT2X => ControllerAxis::HatX(2),
        ABS_HAT2Y => ControllerAxis::HatY(2),
        ABS_HAT3X => ControllerAxis::HatX(3),
        ABS_HAT3Y => ControllerAxis::HatY(3),
        _ => ControllerAxis::Other(code as i32),
    }
}

/// The axis an absolute axis code stands for on a gamepad or a steering wheel.
pub open spec fn axis_from_code_gamepad_spec(code: u16) -> ControllerAxis {
    if code == ABS_X {
        ControllerAxis::LX
    } else if code == ABS_Y {
        ControllerAxis::LY
    } else if code == ABS_Z {
        ControllerAxis::LTrigger
    } else if code == ABS_RX {
        ControllerAxis::RX
    } else if code == ABS_RY {
        ControllerAxis::RY
    } else if code == ABS_RZ {
        ControllerAxis::RTrigger
    } else if code == ABS_HAT0X {
        ControllerAxis::DpadX
    } else if code == ABS_HAT0Y {
        ControllerAxis::DpadY
    } else {
        axis_from_code_common_spec(code)
    }
}

/// The axis an absolute axis code stands for on a gamepad or a steering wheel.
pub fn controller_axis_from_ev_abs_code_for_gamepads_or_steering_wheels(code: u16) -> (r: ControllerAxis)
    ensures
        r == axis_from_code_gamepad_spec(code),
{
    match code {
        ABS_X => ControllerAxis::LX,
        ABS_Y => ControllerAxis::LY,
        ABS_Z => ControllerAxis::LTrigger,
        ABS_RX => ControllerAxis::RX,
        ABS_RY => ControllerAxis::RY,
        ABS_RZ => ControllerAxis::RTrigger,
        ABS_HAT0X => ControllerAxis::DpadX,
        ABS_HAT0Y => ControllerAxis::DpadY,
        _ => controller_axis_from_ev_abs_code_common(code),
    }
}

/// The axis an absolute axis code stands for on a joystick.
pub open spec fn axis_from_code_joystick_spec(code: u16) -> ControllerAxis {
    if code == ABS_X {
        ControllerAxis::JoystickX
    } else if code == ABS_Y {
        ControllerAxis::JoystickY
    } else if code == ABS_Z {
        ControllerAxis::JoystickZ
    } else if code == ABS_RX {
        ControllerAxis::JoystickRotationX
    } else if code == ABS_RY {
        ControllerAxis::JoystickRotationY
    } else if code == ABS_RZ {
        ControllerAxis::JoystickRotationZ
    } else if code == ABS_HAT0X {
        ControllerAxis::HatX(0)
    } else if code == ABS_HAT0Y {
        ControllerAxis::HatY(0)
    } else {
        axis_from_code_common_spec(code)
    }
}

/// The axis an absolute axis code stands for on a joystick.
pub fn controller_axis_from_ev_abs_code_for_joysticks(code: u16) -> (r: ControllerAxis)
    ensures
        r == axis_from_code_joystick_spec(code),
{
    match code {
        ABS_X => ControllerAxis::JoystickX,
        ABS_Y => ControllerAxis::JoystickY,
        ABS_Z => ControllerAxis::JoystickZ,
        ABS_RX => ControllerAxis::JoystickRotationX,
        ABS_RY => ControllerAxis::JoystickRotationY,
        ABS_RZ => ControllerAxis::JoystickRotationZ,
        ABS_HAT0X => ControllerAxis::HatX(0),
        ABS_HAT0Y => ControllerAxis::HatY(0),
        _ => controller_axis_from_ev_abs_code_common(code),
    }
}

/// The absolute axis code of an axis on a gamepad or a steering wheel, if it has one.
pub open spec fn axis_to_code_gamepad_spec(axis: ControllerAxis) -> Option<u16> {
    match axis {
        ControllerAxis::Throttle => Some(ABS_THROTTLE),
        ControllerAxis::Rudder => Some(ABS_RUDDER),
        ControllerAxis::Wheel => Some(ABS_WHEEL),
        ControllerAxis::Gas => Some(ABS_GAS),
        ControllerAxis::Brake => Some(ABS_BRAKE),
        ControllerAxis::LX => Some(ABS_X),
        ControllerAxis::LY => Some(ABS_Y),
        ControllerAxis::RX => Some(ABS_RX),
        ControllerAxis::RY => Some(ABS_RY),
        ControllerAxis::LTrigger => Some(ABS_Z),
        ControllerAxis::RTrigger => Some(ABS_RZ),
        ControllerAxis::DpadX => Some(ABS_HAT0X),
        ControllerAxis::DpadY => Some(ABS_HAT0Y),
        ControllerAxis::HatX(1) => Some(ABS_HAT1X),
        ControllerAxis::HatY(1) => Some(ABS_HAT1Y),
        ControllerAxis::HatX(2) => Some(ABS_HAT2X),
        ControllerAxis::HatY(2) => Some(ABS_HAT2Y),
        ControllerAxis::HatX(3) => Some(ABS_HAT3X),
        ControllerAxis::HatY(3) => Some(ABS_HAT3Y),
        ControllerAxis::HatX(_) => None,
        ControllerAxis::HatY(_) => None,
        ControllerAxis::Other(other) => Some(other as u16),
        ControllerAxis::JoystickX => None,
        ControllerAxis::JoystickY => None,
        ControllerAxis::JoystickZ => None,
        ControllerAxis::JoystickRotationX => None,
        ControllerAxis::JoystickRotationY => None,
        ControllerAxis::JoystickRotationZ => None,
    }
}

/// The absolute axis code of an axis on a gamepad or a steering wheel, if it has one. An
/// `Other` axis is given the low 16 bits of its number.
pub fn controller_axis_to_ev_abs_code_for_gamepads_or_steering_wheels(axis: ControllerAxis) -> (r: Option<u16>)
    ensures
        r == axis_to_code_gamepad_spec(axis),
{
    match axis {
        ControllerAxis::Throttle => Some(ABS_THROTTLE),
        ControllerAxis::Rudder => Some(ABS_RUDDER),
        ControllerAxis::Wheel => Some(ABS_WHEEL),
        ControllerAxis::Gas => Some(ABS_GAS),
        ControllerAxis::Brake => Some(ABS_BRAKE),
        ControllerAxis::LX => Some(ABS_X),
        ControllerAxis::LY => Some(ABS_Y),
        ControllerAxis::RX => Some(ABS_RX),
        ControllerAxis::RY => Some(ABS_RY),
        ControllerAxis::LTrigger => Some(ABS_Z),
        ControllerAxis::RTrigger => Some(ABS_RZ),
        ControllerAxis::DpadX => Some(ABS_HAT0X),
        ControllerAxis::DpadY => Some(ABS_HAT0Y),
        ControllerAxis::HatX(1) => Some(ABS_HAT1X),
        ControllerAxis::HatY(1) => Some(ABS_HAT1Y),
        ControllerAxis::HatX(2) => Some(ABS_HAT2X),
        ControllerAxis::HatY(2) => Some(ABS_HAT2Y),
        ControllerAxis::HatX(3) => Some(ABS_HAT3X),
        ControllerAxis::HatY(3) => Some(ABS_HAT3Y),
        ControllerAxis::HatX(_) => None,
        ControllerAxis::HatY(_) => None,
        ControllerAxis::Other(other) => Some(other as u16),
        ControllerAxis::JoystickX => None,
        ControllerAxis::JoystickY => None,
        ControllerAxis::JoystickZ => None,
        ControllerAxis::JoystickRotationX => None,
        ControllerAxis::JoystickRotationY => None,
        ControllerAxis::JoystickRotationZ => None,
    }
}

/// The absolute axis code of an axis on a joystick, if it has one.
pub open spec fn axis_to_code_joystick_spec(axis: ControllerAxis) -> Option<u16> {
    match axis {
        ControllerAxis::Throttle => Some(ABS_THROTTLE),
        ControllerAxis::Rudder => Some(ABS_RUDDER),
        ControllerAxis::Wheel => Some(ABS_WHEEL),
        ControllerAxis::Gas => Some(ABS_GAS),
        ControllerAxis::Brake => Some(ABS_BRAKE),
        ControllerAxis::JoystickX => Some(ABS_X),
        ControllerAxis::JoystickY => Some(ABS_Y),
        ControllerAxis::JoystickZ => Some(ABS_Z),
        ControllerAxis::JoystickRotationX => Some(ABS_RX),
        ControllerAxis::JoystickRotationY => Some(ABS_RY),
        ControllerAxis::JoystickRotationZ => Some(ABS_RZ),
        ControllerAxis::HatX(0) => Some(ABS_HAT0X),
        ControllerAxis::HatY(0) => Some(ABS_HAT0Y),
        ControllerAxis::HatX(1) => Some(ABS_HAT1X),
        ControllerAxis::HatY(1) => Some(ABS_HAT1Y),
        ControllerAxis::HatX(2) => Some(ABS_HAT2X),
        ControllerAxis::HatY(2) => Some(ABS_HAT2Y),
        ControllerAxis::HatX(3) => Some(ABS_HAT3X),
        ControllerAxis::HatY(3) => Some(ABS_HAT3Y),
        ControllerAxis::HatX(_) => None,
        ControllerAxis::HatY(_) => None,
        ControllerAxis::Other(other) => Some(other as u16),
        ControllerAxis::LX => None,
        ControllerAxis::LY => None,
        ControllerAxis::DpadX => None,
        ControllerAxis::DpadY => None,
        ControllerAxis::RX => None,
        ControllerAxis::RY => None,
        ControllerAxis::LTrigger => None,
        ControllerAxis::RTrigger => None,
    }
}

/// The absolute axis code of an axis on a joystick, if it has one. An `Other` axis is
/// given the low 16 bits of its number.
pub fn controller_axis_to_ev_abs_code_for_joysticks(axis: ControllerAxis) -> (r: Option<u16>)
    ensures
        r == axis_to_code_joystick_spec(axis),
{
    match axis {
        ControllerAxis::Throttle => Some(ABS_THROTTLE),
        ControllerAxis::Rudder => Some(ABS_RUDDER),
        ControllerAxis::Wheel => Some(ABS_WHEEL),
        ControllerAxis::Gas => Some(ABS_GAS),
        ControllerAxis::Brake => Some(ABS_BRAKE),
        ControllerAxis::JoystickX => Some(ABS_X),
        ControllerAxis::JoystickY => Some(ABS_Y),
        ControllerAxis::JoystickZ => Some(ABS_Z),
        ControllerAxis::JoystickRotationX => Some(ABS_RX),
        ControllerAxis::JoystickRotationY => Some(ABS_RY),
        ControllerAxis::JoystickRotationZ => Some(ABS_RZ),
        ControllerAxis::HatX(0) => Some(ABS_HAT0X),
        ControllerAxis::HatY(0) => Some(ABS_HAT0Y),
        ControllerAxis::HatX(1) => Some(ABS_HAT1X),
        ControllerAxis::HatY(1) => Some(ABS_HAT1Y),
        ControllerAxis::HatX(2) => Some(ABS_HAT2X),
        ControllerAxis::HatY(2) => Some(ABS_HAT2Y),
        ControllerAxis::HatX(3) => Some(ABS_HAT3X),
        ControllerAxis::HatY(3) => Some(ABS_HAT3Y),
        ControllerAxis::HatX(_) => None,
        ControllerAxis::HatY(_) => None,
        ControllerAxis::Other(other) => Some(other as u16),
        ControllerAxis::LX => None,
        ControllerAxis::LY => None,
        ControllerAxis::DpadX => None,
        ControllerAxis::DpadY => None,
        ControllerAxis::RX => None,
        ControllerAxis::RY => None,
        ControllerAxis::LTrigger => None,
        ControllerAxis::RTrigger => None,
    }
}

proof fn lemma_u16_through_i32(c: u16)
    ensures
        (c as i32) as u16 == c,
{
    assert((c as i32) as u16 == c) by (bit_vector);
}

/// Translating any evdev key code to a button and back gives the same code.
pub proof fn lemma_key_code_round_trip(code: u16)
    ensures
        button_to_code_spec(button_from_code_spec(code)) == Some(code),
{
    lemma_u16_through_i32(code);
}

/// Translating a named (not `Other`) button to its evdev key code and back gives the same
/// button.
pub proof fn lemma_button_round_trip(button: ControllerButton)
    requires
        !(button is Other),
        button_to_code_spec(button) is Some,
    ensures
        button_from_code_spec(button_to_code_spec(button)->0) == button,
{
}

/// On gamepads and steering wheels, translating any absolute axis code to an axis and back
/// gives the same code.
pub proof fn lemma_gamepad_abs_code_round_trip(code: u16)
    ensures
        axis_to_code_gamepad_spec(axis_from_code_gamepad_spec(code)) == Some(code),
{
    lemma_u16_through_i32(code);
}

/// On joysticks, translating any absolute axis code to an axis and back gives the same code.
pub proof fn lemma_joystick_abs_code_round_trip(code: u16)
    ensures
        axis_to_code_joystick_spec(axis_from_code_joystick_spec(code)) == Some(code),
{
    lemma_u16_through_i32(code);
}

/// On gamepads and steering wheels, translating a named (not `Other`) axis to its code and
/// back gives the same axis.
pub proof fn lemma_gamepad_axis_round_trip(axis: ControllerAxis)
    requires
        !(axis is Other),
        axis_to_code_gamepad_spec(axis) is Some,
    ensures
        axis_from_code_gamepad_spec(axis_to_code_gamepad_spec(axis)->0) == axis,
{
}

/// On joysticks, translating a named (not `Other`) axis to its code and back gives the same
/// axis.
pub proof fn lemma_joystick_axis_round_trip(axis: ControllerAxis)
    requires
        !(axis is Other),
        axis_to_code_joystick_spec(axis) is Some,
    ensures
        axis_from_code_joystick_spec(axis_to_code_joystick_spec(axis)->0) == axis,
{
}


/// The key codes of `linux/input-event-codes.h` stand for these controller buttons, each way.
pub proof fn lemma_button_code_table()
    ensures
        button_from_code_spec(0x150) == ControllerButton::GearDown,
        button_to_code_spec(ControllerButton::GearDown) == Some(0x150u16),
        button_from_code_spec(0x151) == ControllerButton::GearUp,
        button_to_code_spec(ControllerButton::GearUp) == Some(0x151u16),
        button_from_code_spec(0x120) == ControllerButton::Trigger,
        button_to_code_spec(ControllerButton::Trigger) == Some(0x120u16),
        button_from_code_spec(0x121) == ControllerButton::Thumb(0),
        button_to_code_spec(ControllerButton::Thumb(0)) == Some(0x121u16),
        button_from_code_spec(0x122) == ControllerButton::Thumb(1),
        button_to_code_spec(ControllerButton::Thumb(1)) == Some(0x122u16),
        button_from_code_spec(0x123) == ControllerButton::Top(0),
        button_to_code_spec(ControllerButton::Top(0)) == Some(0x123u16),
        button_from_code_spec(0x124) == ControllerButton::Top(1),
        button_to_code_spec(ControllerButton::Top(1)) == Some(0x124u16),
        button_from_code_spec(0x125) == ControllerButton::Pinkie,
        button_to_code_spec(ControllerButton::Pinkie) == Some(0x125u16),
        button_from_code_spec(0x12f) == ControllerButton::Dead,
        button_to_code_spec(ControllerButton::Dead) == Some(0x12fu16),
        button_from_code_spec(0x126) == ControllerButton::Base(0),
        button_to_code_spec(ControllerButton::Base(0)) == Some(0x126u16),
        button_from_code_spec(0x127) == ControllerButton::Base(1),
        button_to_code_spec(ControllerButton::Base(1)) == Some(0x127u16),
        button_from_code_spec(0x128) == ControllerButton::Base(2),
        button_to_code_spec(ControllerButton::Base(2)) == Some(0x128u16),
        button_from_code_spec(0x129) == ControllerButton::Base(3),
        button_to_code_spec(ControllerButton::Base(3)) == Some(0x129u16),
        button_from_code_spec(0x12a) == ControllerButton::Base(4),
        button_to_code_spec(ControllerButton::Base(4)) == Some(0x12au16),
        button_from_code_spec(0x12b) == ControllerButton::Base(5),
        button_to_code_spec(ControllerButton::Base(5)) == Some(0x12bu16),
        button_from_code_spec(0x130) == ControllerButton::A,
        button_to_code_spec(ControllerButton::A) == Some(0x130u16),
        button_from_code_spec(0x131) == ControllerButton::B,
        button_to_code_spec(ControllerButton::B) == Some(0x131u16),
        button_from_code_spec(0x132) == ControllerButton::C,
        button_to_code_spec(ControllerButton::C) == Some(0x132u16),
        button_from_code_spec(0x133) == ControllerButton::X,
        button_to_code_spec(ControllerButton::X) == Some(0x133u16),
        button_from_code_spec(0x134) == ControllerButton::Y,
        button_to_code_spec(ControllerButton::Y) == Some(0x134u16),
        button_from_code_spec(0x135) == ControllerButton::Z,
        button_to_code_spec(ControllerButton::Z) == Some(0x135u16),
        button_from_code_spec(0x136) == ControllerButton::LShoulder,
        button_to_code_spec(ControllerButton::LShoulder) == Some(0x136u16),
        button_from_code_spec(0x137) == ControllerButton::RShoulder,
        button_to_code_spec(ControllerButton::RShoulder) == Some(0x137u16),
        button_from_code_spec(0x138) == ControllerButton::LShoulder2,
        button_to_code_spec(ControllerButton::LShoulder2) == Some(0x138u16),
        button_from_code_spec(0x139) == ControllerButton::RShoulder2,
        button_to_code_spec(ControllerButton::RShoulder2) == Some(0x139u16),
        button_from_code_spec(0x13a) == ControllerButton::Select,
        button_to_code_spec(ControllerButton::Select) == Some(0x13au16),
        button_from_code_spec(0x13b) == ControllerButton::Start,
        button_to_code_spec(ControllerButton::Start) == Some(0x13bu16),
        button_from_code_spec(0x13c) == ControllerButton::Mode,
        button_to_code_spec(ControllerButton::Mode) == Some(0x13cu16),
        button_from_code_spec(0x13d) == ControllerButton::LStickClick,
        button_to_code_spec(ControllerButton::LStickClick) == Some(0x13du16),
        button_from_code_spec(0x13e) == ControllerButton::RStickClick,
        button_to_code_spec(ControllerButton::RStickClick) == Some(0x13eu16),
        button_from_code_spec(0x220) == ControllerButton::DpadUp,
        button_to_code_spec(ControllerButton::DpadUp) == Some(0x220u16),
        button_from_code_spec(0x221) == ControllerButton::DpadDown,
        button_to_code_spec(ControllerButton::DpadDown) == Some(0x221u16),
        button_from_code_spec(0x222) == ControllerButton::DpadLeft,
        button_to_code_spec(ControllerButton::DpadLeft) == Some(0x222u16),
        button_from_code_spec(0x223) == ControllerButton::DpadRight,
        button_to_code_spec(ControllerButton::DpadRight) == Some(0x223u16),
        button_from_code_spec(0x100) == ControllerButton::Num(0),
        button_to_code_spec(ControllerButton::Num(0)) == Some(0x100u16),
        button_from_code_spec(0x101) == ControllerButton::Num(1),
        button_to_code_spec(ControllerButton::Num(1)) == Some(0x101u16),
        button_from_code_spec(0x102) == ControllerButton::Num(2),
        button_to_code_spec(ControllerButton::Num(2)) == Some(0x102u16),
        button_from_code_spec(0x103) == ControllerButton::Num(3),
        button_to_code_spec(ControllerButton::Num(3)) == Some(0x103u16),
        button_from_code_spec(0x104) == ControllerButton::Num(4),
        button_to_code_spec(ControllerButton::Num(4)) == Some(0x104u16),
        button_from_code_spec(0x105) == ControllerButton::Num(5),
        button_to_code_spec(ControllerButton::Num(5)) == Some(0x105u16),
        button_from_code_spec(0x106) == ControllerButton::Num(6),
        button_to_code_spec(ControllerButton::Num(6)) == Some(0x106u16),
        button_from_code_spec(0x107) == ControllerButton::Num(7),
        button_to_code_spec(ControllerButton::Num(7)) == Some(0x107u16),
        button_from_code_spec(0x108) == ControllerButton::Num(8),
        button_to_code_spec(ControllerButton::Num(8)) == Some(0x108u16),
        button_from_code_spec(0x109) == ControllerButton::Num(9),
        button_to_code_spec(ControllerButton::Num(9)) == Some(0x109u16),
{
}

/// On gamepads and steering wheels, the absolute axis codes of `linux/input-event-codes.h`
/// stand for these axes, each way: X and Y are the left stick, RX and RY the right stick,
/// Z the left trigger and RZ the right trigger, HAT0 the directional pad.
pub proof fn lemma_gamepad_axis_code_table()
    ensures
        axis_from_code_gamepad_spec(0x00) == ControllerAxis::LX,
        axis_to_code_gamepad_spec(ControllerAxis::LX) == Some(0x00u16),
        axis_from_code_gamepad_spec(0x01) == ControllerAxis::LY,
        axis_to_code_gamepad_spec(ControllerAxis::LY) == Some(0x01u16),
        axis_from_code_gamepad_spec(0x02) == ControllerAxis::LTrigger,
        axis_to_code_gamepad_spec(ControllerAxis::LTrigger) == Some(0x02u16),
        axis_from_code_gamepad_spec(0x03) == ControllerAxis::RX,
        axis_to_code_gamepad_spec(ControllerAxis::RX) == Some(0x03u16),
        axis_from_code_gamepad_spec(0x04) == ControllerAxis::RY,
        axis_to_code_gamepad_spec(ControllerAxis::RY) == Some(0x04u16),
        axis_from_code_gamepad_spec(0x05) == ControllerAxis::RTrigger,
        axis_to_code_gamepad_spec(ControllerAxis::RTrigger) == Some(0x05u16),
        axis_from_code_gamepad_spec(0x10) == ControllerAxis::DpadX,
        axis_to_code_gamepad_spec(ControllerAxis::DpadX) == Some(0x10u16),
        axis_from_code_gamepad_spec(0x11) == ControllerAxis::DpadY,
        axis_to_code_gamepad_spec(ControllerAxis::DpadY) == Some(0x11u16),
        axis_from_code_gamepad_spec(0x06) == ControllerAxis::Throttle,
        axis_to_code_gamepad_spec(ControllerAxis::Throttle) == Some(0x06u16),
        axis_from_code_gamepad_spec(0x07) == ControllerAxis::Rudder,
        axis_to_code_gamepad_spec(ControllerAxis::Rudder) == Some(0x07u16),
        axis_from_code_gamepad_spec(0x08) == ControllerAxis::Wheel,
        axis_to_code_gamepad_spec(ControllerAxis::Wheel) == Some(0x08u16),
        axis_from_code_gamepad_spec(0x09) == ControllerAxis::Gas,
        axis_to_code_gamepad_spec(ControllerAxis::Gas) == Some(0x09u16),
        axis_from_code_gamepad_spec(0x0a) == ControllerAxis::Brake,
        axis_to_code_gamepad_spec(ControllerAxis::Brake) == Some(0x0au16),
        axis_from_code_gamepad_spec(0x12) == ControllerAxis::HatX(1),
        axis_to_code_gamepad_spec(ControllerAxis::HatX(1)) == Some(0x12u16),
        axis_from_code_gamepad_spec(0x13) == ControllerAxis::HatY(1),
        axis_to_code_gamepad_spec(ControllerAxis::HatY(1)) == Some(0x13u16),
        axis_from_code_gamepad_spec(0x14) == ControllerAxis::HatX(2),
        axis_to_code_gamepad_spec(ControllerAxis::HatX(2)) == Some(0x14u16),
        axis_from_code_gamepad_spec(0x15) == ControllerAxis::HatY(2),
        axis_to_code_gamepad_spec(ControllerAxis::HatY(2)) == Some(0x15u16),
        axis_from_code_gamepad_spec(0x16) == ControllerAxis::HatX(3),
        axis_to_code_gamepad_spec(ControllerAxis::HatX(3)) == Some(0x16u16),
        axis_from_code_gamepad_spec(0x17) == ControllerAxis::HatY(3),
        axis_to_code_gamepad_spec(ControllerAxis::HatY(3)) == Some(0x17u16),
{
}

/// On joysticks, the absolute axis codes of `linux/input-event-codes.h` stand for these
/// axes, each way: X, Y and Z are the stick's position, RX, RY and RZ its rotation, HAT0
/// the first hat.
pub proof fn lemma_joystick_axis_code_table()
    ensures
        axis_from_code_joystick_spec(0x00) == ControllerAxis::JoystickX,
        axis_to_code_joystick_spec(ControllerAxis::JoystickX) == Some(0x00u16),
        axis_from_code_joystick_spec(0x01) == ControllerAxis::JoystickY,
        axis_to_code_joystick_spec(ControllerAxis::JoystickY) == Some(0x01u16),
        axis_from_code_joystick_spec(0x02) == ControllerAxis::JoystickZ,
        axis_to_code_joystick_spec(ControllerAxis::JoystickZ) == Some(0x02u16),
        axis_from_code_joystick_spec(0x03) == ControllerAxis::JoystickRotationX,
        axis_to_code_joystick_spec(ControllerAxis::JoystickRotationX) == Some(0x03u16),
        axis_from_code_joystick_spec(0x04) == ControllerAxis::JoystickRotationY,
        axis_to_code_joystick_spec(ControllerAxis::JoystickRotationY) == Some(0x04u16),
        axis_from_code_joystick_spec(0x05) == ControllerAxis::JoystickRotationZ,
        axis_to_code_joystick_spec(ControllerAxis::JoystickRotationZ) == Some(0x05u16),
        axis_from_code_joystick_spec(0x10) == ControllerAxis::HatX(0),
        axis_to_code_joystick_spec(ControllerAxis::HatX(0)) == Some(0x10u16),
        axis_from_code_joystick_spec(0x11) == ControllerAxis::HatY(0),
        axis_to_code_joystick_spec(ControllerAxis::HatY(0)) == Some(0x11u16),
        axis_from_code_joystick_spec(0x06) == ControllerAxis::Throttle,
        axis_to_code_joystick_spec(ControllerAxis::Throttle) == Some(0x06u16),
        axis_from_code_joystick_spec(0x07) == ControllerAxis::Rudder,
        axis_to_code_joystick_spec(ControllerAxis::Rudder) == Some(0x07u16),
        axis_from_code_joystick_spec(0x08) == ControllerAxis::Wheel,
        axis_to_code_joystick_spec(ControllerAxis::Wheel) == Some(0x08u16),
        axis_from_code_joystick_spec(0x09) == ControllerAxis::Gas,
        axis_to_code_joystick_spec(ControllerAxis::Gas) == Some(0x09u16),
        axis_from_code_joystick_spec(0x0a) == ControllerAxis::Brake,
        axis_to_code_joystick_spec(ControllerAxis::Brake) == Some(0x0au16),
        axis_from_code_joystick_spec(0x12) == ControllerAxis::HatX(1),
        axis_to_code_joystick_spec(ControllerAxis::HatX(1)) == Some(0x12u16),
        axis_from_code_joystick_spec(0x13) == ControllerAxis::HatY(1),
        axis_to_code_joystick_spec(ControllerAxis::HatY(1)) == Some(0x13u16),
        axis_from_code_joystick_spec(0x14) == ControllerAxis::HatX(2),
        axis_to_code_joystick_spec(ControllerAxis::HatX(2)) == Some(0x14u16),
        axis_from_code_joystick_spec(0x15) == ControllerAxis::HatY(2),
        axis_to_code_joystick_spec(ControllerAxis::HatY(2)) == Some(0x15u16),
        axis_from_code_joystick_spec(0x16) == ControllerAxis::HatX(3),
        axis_to_code_joystick_spec(ControllerAxis::HatX(3)) == Some(0x16u16),
        axis_from_code_joystick_spec(0x17) == ControllerAxis::HatY(3),
        axis_to_code_joystick_spec(ControllerAxis::HatY(3)) == Some(0x17u16),
{
}

} // verus!
