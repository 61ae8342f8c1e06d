//! Human interface devices: buttons, controllers, mice, keyboards, tablets.

use vstd::prelude::*;
use crate::geom::{Range, Vec2, Vec3};
use crate::linuxdev::props::LinuxdevToken;

pub mod error;

verus! {

/// A button or key state, i.e "up" or "down".
#[derive(Debug, Copy, Clone, Hash, PartialEq, Eq, Structural)]
pub enum ButtonState {
    /// The button or key is being held down.
    Down,
    /// The button or key is up.
    Up,
}

/// The opposite of a button state.
pub open spec fn flipped_spec(s: ButtonState) -> ButtonState {
    match s {
        ButtonState::Down => ButtonState::Up,
        ButtonState::Up => ButtonState::Down,
    }
}

impl ButtonState {
    /// Is the button or key being held down?
    pub fn is_down(&self) -> (r: bool)
        ensures
            r == (*self == ButtonState::Down),
    {
        match self {
            ButtonState::Down => true,
            ButtonState::Up => false,
        }
    }

    /// Is the button or key up?
    pub fn is_up(&self) -> (r: bool)
        ensures
            r == (*self == ButtonState::Up),
    {
        match self {
            ButtonState::Down => false,
            ButtonState::Up => true,
        }
    }

    /// This button state, flipped (the `!` operator).
    pub fn not(self) -> (r: ButtonState)
        ensures
            r == flipped_spec(self),
    {
        match self {
            ButtonState::Down => ButtonState::Up,
            ButtonState::Up => ButtonState::Down,
        }
    }

    /// Flips this button state.
    pub fn flip(&mut self)
        ensures
            *final(self) == flipped_spec(*old(self)),
    {
        *self = self.not();
    }

    /// This button state, flipped.
    pub fn flipped(&self) -> (r: ButtonState)
        ensures
            r == flipped_spec(*self),
    {
        self.not()
    }
}

/// Flipping a button state twice gives it back, and a state is down exactly
/// when it is not up.
pub proof fn lemma_button_state_flip_involutive(s: ButtonState)
    ensures
        flipped_spec(flipped_spec(s)) == s,
        flipped_spec(s) != s,
        (s == ButtonState::Down) != (s == ButtonState::Up),
{
}

/// The platform-specific identifier of a device.
#[derive(Debug, Copy, Clone, Hash, PartialEq, Eq, Structural)]
pub enum OsDeviceID {
    /// The X server's core keyboard.
    CoreKeyboard,
    /// The X server's core pointer.
    CorePointer,
    /// An XInput slave device.
    XISlave(i32),
    /// A device known through udev and evdev.
    Linuxdev(LinuxdevToken),
}

/// An opaque identifier for a device, which is useful as a key in collections.
#[derive(Debug, Copy, Clone, Hash, PartialEq, Eq, Structural)]
pub struct DeviceID(pub OsDeviceID);

/// Mostly taken from the `BUS_*` constants in Linux's `input.h`.
#[derive(Debug, Copy, Clone, Hash, PartialEq, Eq, Structural)]
pub enum Bus {
    Pci,
    Usb,
    Bluetooth,
    Virtual,
}

/// USB vendor and product identifiers.
#[derive(Debug, Copy, Clone, Hash, PartialEq, Eq, Structural)]
pub struct UsbIDs {
    pub vendor_id: u16,
    pub product_id: u16,
}

/// USB product information, as far as it is known.
#[derive(Debug, Clone, Hash, PartialEq, Eq)]
pub struct UsbProductInfo {
    pub vendor_id: u16,
    pub product_id: u16,
    pub vendor_name: Option<String>,
    pub product_name: Option<String>,
}

/// Known mouse buttons.
#[derive(Debug, Copy, Clone, Hash, PartialEq, Eq, Structural)]
pub enum MouseButton {
    /// The left mouse button.
    Left,
    /// The middle mouse button (clicking on the wheel).
    Middle,
    /// The right mouse button.
    Right,
    /// The side button, whatever it means to the platform, if any.
    Side,
    /// The "task" button, whatever it means to the platform, if any.
    Task,
    /// The "forward navigation" button, if any.
    Forward,
    /// The "backwards navigation" button, if any.
    Back,
    /// An other, unknown, platform-specific button.
    Other(i32),
}

/// On Windows, the XBUTTON1 mouse button is the "Back" variant.
pub const XBUTTON1: MouseButton = MouseButton::Back;
/// On Windows, the XBUTTON2 mouse button is the "Forward" variant.
pub const XBUTTON2: MouseButton = MouseButton::Forward;

/// There's nothing in here, for now.
#[derive(Debug, Copy, Clone, Hash, PartialEq, Eq, Structural)]
pub struct MouseInfo;

/// There's nothing in here, for now.
#[derive(Debug, Copy, Clone, Hash, PartialEq, Eq, Structural)]
pub struct KeyboardInfo;

/// A rumble effect description.
#[derive(Debug, Default, Copy, Clone, Hash, PartialEq, Eq, PartialOrd, Ord, Structural)]
pub struct VibrationState {
    /// Magnitude for the strong, high-amplitude, high-frequency, right motor.
    pub strong_magnitude: u16,
    /// Magnitude for the weak, low-amplitude, low-frequency, left motor.
    pub weak_magnitude: u16,
}

impl VibrationState {
    /// The maximum value for a vibration state.
    pub fn max() -> (v: VibrationState)
        ensures
            v.strong_magnitude == u16::MAX,
            v.weak_magnitude == u16::MAX,
    {
        VibrationState { strong_magnitude: u16::MAX, weak_magnitude: u16::MAX }
    }

    /// Does this correspond to zero vibration?
    pub fn is_zero(&self) -> (r: bool)
        ensures
            r == (self.strong_magnitude == 0 && self.weak_magnitude == 0),
    {
        self.strong_magnitude == 0 && self.weak_magnitude == 0
    }
}

/// Possible kinds of controllers.
#[derive(Debug, Copy, Clone, Hash, PartialEq, Eq, Structural)]
pub enum ControllerKind {
    /// A gamepad.
    Gamepad(GamepadModel),
    /// A single joystick.
    Joystick,
    /// A steering wheel.
    SteeringWheel,
}

/// Well-known gamepad models.
#[derive(Debug, Copy, Clone, Hash, PartialEq, Eq, Structural)]
pub enum GamepadModel {
    Xbox360,
    XboxOne,
    Generic,
}

/// A known controller button.
#[derive(Debug, Copy, Clone, Hash, PartialEq, Eq, Structural)]
pub enum ControllerButton {
    /// (Gamepad, digital D-pad) The "up" button on the D-pad.
    DpadUp,
    /// (Gamepad, digital D-pad) The "down" button on the D-pad.
    DpadDown,
    /// (Gamepad, digital D-pad) The "left" button on the D-pad.
    DpadLeft,
    /// (Gamepad, digital D-pad) The "right" button on the D-pad.
    DpadRight,
    /// (Gamepads) The X button, as for an Xbox 360 controller.
    X,
    /// (Gamepads) The Y button, as for an Xbox 360 controller.
    Y,
    /// (Gamepads) The Z button.
    Z,
    /// (Gamepads) The A button, as for an Xbox 360 controller.
    A,
    /// (Gamepads) The B button, as for an Xbox 360 controller.
    B,
    /// (Gamepads) The C button.
    C,
    /// (Gamepads) The first left shoulder, as the L1 button on a DualShock controller.
    LShoulder,
    /// (Gamepads) The second left shoulder, as the L2 button on a DualShock controller.
    LShoulder2,
    /// (Gamepads) The first right shoulder, as the R1 button on a DualShock controller.
    RShoulder,
    /// (Gamepads) The second right shoulder, as the R2 button on a DualShock controller.
    RShoulder2,
    /// (Gamepads) Pressing (clicking) the left stick.
    LStickClick,
    /// (Gamepads) Pressing (clicking) the right stick.
    RStickClick,
    /// (Gamepads) The leftmost button in the gamepad's center.
    Select,
    /// (Gamepads) The rightmost button in the gamepad's center.
    Start,
    /// (Gamepads) The button at the gamepad's center.
    Mode,
    /// (Steering wheels) Gear down.
    GearDown,
    /// (Steering wheels) Gear up.
    GearUp,
    /// (Joysticks) The trigger button.
    Trigger,
    /// (Joysticks) The pinkie button.
    Pinkie,
    /// (Joysticks) The "dead" button Linux exposes.
    Dead,
    /// (Joysticks) A thumb button. Indices start at 0.
    Thumb(u32),
    /// (Joysticks) A top button. Indices start at 0.
    Top(u32),
    /// (Joysticks) A base button. Indices start at 0.
    Base(u32),
    /// (Unknown) A number button. Values start at 0.
    Num(u32),
    /// An other, unknown, backend-specific button.
    Other(i32),
}

/// A known controller axis. All of these axes are absolute.
#[derive(Debug, Copy, Clone, Hash, PartialEq, Eq, Structural)]
pub enum ControllerAxis {
    /// (Gamepads) The left stick's horizontal position, increasing rightwards.
    LX,
    /// (Gamepads) The left stick's vertical position, increasing downwards.
    LY,
    /// (Gamepads) The right stick's horizontal position, increasing rightwards.
    RX,
    /// (Gamepads) The right stick's vertical position, increasing downwards.
    RY,
    /// (Gamepads, analog D-pad) The D-pad's horizontal position, increasing rightwards.
    DpadX,
    /// (Gamepads, analog D-pad) The D-pad's vertical position, increasing downwards.
    DpadY,
    /// (Joysticks) The main joystick's X position.
    JoystickX,
    /// (Joysticks) The main joystick's Y position.
    JoystickY,
    /// (Joysticks) The main joystick's Z position.
    JoystickZ,
    /// (Joysticks) The main joystick's X rotation.
    JoystickRotationX,
    /// (Joysticks) The main joystick's Y rotation.
    JoystickRotationY,
    /// (Joysticks) The main joystick's Z rotation.
    JoystickRotationZ,
    /// (Joysticks) A hat's X position, increasing rightwards.
    HatX(i32),
    /// (Joysticks) A hat's Y position, increasing downwards.
    HatY(i32),
    /// (Gamepads) The left trigger axis, as for Xbox controllers.
    LTrigger,
    /// (Gamepads) The right trigger axis, as for Xbox controllers.
    RTrigger,
    /// (Steering wheels) The throttle pedal.
    Throttle,
    /// (Steering wheels) The rudder.
    Rudder,
    /// (Steering wheels) The wheel's rotation.
    Wheel,
    /// (Steering wheels) The gas pedal.
    Gas,
    /// (Steering wheels) The break pedal.
    Brake,
    /// An other, unknown, backend-specific axis.
    Other(i32),
}

/// Possible tool types for a tablet stylus.
#[derive(Debug, Copy, Clone, Hash, PartialEq, Eq, Structural)]
pub enum TabletStylusToolType {
    Pen,
    Eraser,
}

/// Possible kinds of tablet styli.
#[derive(Debug, Copy, Clone, Hash, PartialEq, Eq, Structural)]
pub enum TabletStylusKind {
    /// A regular stylus.
    Regular,
    /// A Wacom ArtPen.
    ArtPen,
    /// An airbrush.
    Airbrush,
    /// A 4D Mouse.
    FourDMouse,
    /// A five-button puck.
    FiveButtonPuck,
}

/// Possible buttons for a tablet stylus.
#[derive(Debug, Copy, Clone, Hash, PartialEq, Eq, Structural)]
pub enum TabletStylusButton {
    /// The primary button is the one that is closest to the tip.
    Primary,
    /// The secondary button is the one that is right above the primary one along the stylus.
    Secondary,
    /// Another, unknown, button identifier.
    Other(i32),
}

/// Possible tool types at the tip of a tablet stylus.
#[derive(Debug, Copy, Clone, Hash, PartialEq, Eq, Structural)]
pub enum ToolType {
    Pen,
    Eraser,
}

/// A context-specific unique ID for a device, which is useful as a key in collections.
#[derive(Debug, Copy, Clone, Hash, PartialEq, Eq, PartialOrd, Ord, Structural)]
pub struct HidToken(pub u32);

/// Product information for a device.
#[derive(Debug, Clone, Hash, PartialEq, Eq)]
pub struct HidProductInfo {
    pub vendor_id: u16,
    pub product_id: u16,
    pub vendor_name: String,
    pub product_name: String,
}

/// A raw absolute axis value.
pub type AxisValue = i32;

/// Information about an absolute unidimensional axis (taken from Linux's `input_absinfo`).
#[derive(Debug, Clone, Hash, PartialEq, Eq)]
pub struct AbsAxis1DInfo {
    pub range: Range<AxisValue>,
    pub dead_zone: Range<AxisValue>,
    /// In units per millimeter, or units per radian.
    pub resolution: u32,
    pub fuzz: AxisValue,
}

/// Information about an absolute two-dimensional axis.
#[derive(Debug, Clone, Hash, PartialEq, Eq)]
pub struct AbsAxis2DInfo {
    pub range: Range<Vec2<AxisValue>>,
    pub dead_zone: Range<Vec2<AxisValue>>,
    pub resolution: Vec2<u32>,
    pub fuzz: Vec2<AxisValue>,
}

/// Information about an absolute three-dimensional axis.
#[derive(Debug, Clone, Hash, PartialEq, Eq)]
pub struct AbsAxis3DInfo {
    pub range: Range<Vec3<AxisValue>>,
    pub dead_zone: Range<Vec3<AxisValue>>,
    pub resolution: Vec3<u32>,
    pub fuzz: Vec3<AxisValue>,
}

/// The state of a unidimensional axis.
#[derive(Debug, Clone, Hash, PartialEq, Eq)]
pub struct Axis1DState {
    pub value: AxisValue,
    pub info: AbsAxis1DInfo,
}

/// The state of a two-dimensional axis.
#[derive(Debug, Clone, Hash, PartialEq, Eq)]
pub struct Axis2DState {
    pub value: Vec2<AxisValue>,
    pub info: AbsAxis2DInfo,
}

/// The state of a three-dimensional axis.
#[derive(Debug, Clone, Hash, PartialEq, Eq)]
pub struct Axis3DState {
    pub value: Vec3<AxisValue>,
    pub info: AbsAxis3DInfo,
}

/// The features of a graphics tablet.
#[derive(Debug, Clone, Hash, PartialEq, Eq)]
pub struct TabletFeatures {
    pub pad_button_count: u32,
    pub stylus_button_count: u32,
    pub pressure: AbsAxis1DInfo,
    pub tilt: AbsAxis2DInfo,
    pub raw_position: AbsAxis2DInfo,
}

} // verus!
