//! Events read from evdev and what they become, and force feedback: each step decides
//! from what the kernel answered, and the caller performs the reads and writes.

use vstd::prelude::*;
use crate::device::{ControllerAxis, ControllerButton, DeviceID, OsDeviceID, VibrationState};
use crate::device::error::{
    Error, disconnected, failed, not_supported_by_device, not_supported_by_device_unexplained,
};
use crate::error::reason_view;
use crate::event_instant::{EventInstant, OsEventInstant};
use super::codes::{
    EAGAIN, ENODEV, EV_ABS, EV_FF, EV_KEY, EWOULDBLOCK, FF_GAIN, FF_RUMBLE,
    LIBEVDEV_READ_STATUS_SUCCESS, LIBEVDEV_READ_STATUS_SYNC,
};
use super::device::{Linuxdev, translate_abs_spec};
use super::info::OsDeviceInfo;
use super::mapping::{axis_from_code_gamepad_spec, axis_from_code_joystick_spec, button_from_code_spec};
use super::props::LinuxdevToken;

verus! {

/// The text that `nix` gives for an `errno` value: its symbolic name, a colon, and its
/// description (such as `ENODEV: No such device`).
pub uninterp spec fn nix_errno_text(code: i32) -> Seq<char>;

/// Calls `nix::errno::Errno::from_raw` and formats the result with `Display`; the text is
/// a fixed function of the code, given by nix's table of error names and descriptions.
#[verifier::external_body]
fn errno_text(code: i32) -> (r: String)
    ensures
        r@ == nix_errno_text(code),
{
    format!("{}", nix::errno::Errno::from_raw(code))
}

/// A Linux `struct input_event`.
#[derive(Debug, Copy, Clone, Hash, PartialEq, Eq, Structural)]
pub struct InputEvent {
    pub tv_sec: i64,
    pub tv_usec: i64,
    pub type_: u16,
    pub code: u16,
    pub value: i32,
}

/// An event about a device known through udev and evdev.
#[derive(Debug, Clone)]
pub enum LinuxdevEvent {
    DeviceConnected { device: DeviceID, instant: EventInstant, info: OsDeviceInfo },
    DeviceDisconnected { device: DeviceID, instant: EventInstant },
    ControllerButtonPressed { controller: DeviceID, instant: EventInstant, button: ControllerButton },
    ControllerButtonReleased { controller: DeviceID, instant: EventInstant, button: ControllerButton },
    /// An absolute axis moved; `value` is the raw value that evdev reports.
    ControllerAxisMotion {
        controller: DeviceID,
        instant: EventInstant,
        axis: ControllerAxis,
        value: i32,
    },
}

impl LinuxdevEvent {
    /// When the event happened.
    pub fn instant(&self) -> (r: EventInstant)
        ensures
            r == match *self {
                LinuxdevEvent::DeviceConnected { instant, .. } => instant,
                LinuxdevEvent::DeviceDisconnected { instant, .. } => instant,
                LinuxdevEvent::ControllerButtonPressed { instant, .. } => instant,
                LinuxdevEvent::ControllerButtonReleased { instant, .. } => instant,
                LinuxdevEvent::ControllerAxisMotion { instant, .. } => instant,
            },
    {
        match self {
            LinuxdevEvent::DeviceConnected { instant, .. } => *instant,
            LinuxdevEvent::DeviceDisconnected { instant, .. } => *instant,
            LinuxdevEvent::ControllerButtonPressed { instant, .. } => *instant,
            LinuxdevEvent::ControllerButtonReleased { instant, .. } => *instant,
            LinuxdevEvent::ControllerAxisMotion { instant, .. } => *instant,
        }
    }
}

/// The event that an evdev event stands for, if any: keys become button presses (a
/// value of 0 is a release), absolute axes become axis motions, and the rest is dropped.
pub open spec fn translated_event_spec(joystick: bool, token: LinuxdevToken, ev: InputEvent) -> Option<
    LinuxdevEvent,
> {
    let controller = DeviceID(OsDeviceID::Linuxdev(token));
    let instant = EventInstant(
        OsEventInstant::LinuxInputEventTimeval { tv_sec: ev.tv_sec, tv_usec: ev.tv_usec },
    );
    if ev.type_ == EV_KEY {
        let button = button_from_code_spec(ev.code);
        if ev.value == 0 {
            Some(LinuxdevEvent::ControllerButtonReleased { controller, instant, button })
        } else {
            Some(LinuxdevEvent::ControllerButtonPressed { controller, instant, button })
        }
    } else if ev.type_ == EV_ABS {
        Some(
            LinuxdevEvent::ControllerAxisMotion {
                controller,
                instant,
                axis: translate_abs_spec(joystick, ev.code),
                value: ev.value,
            },
        )
    } else {
        None
    }
}

/// The outcome of reading one event from libevdev.
#[derive(Debug)]
pub struct PumpStep {
    /// Read the next event in sync mode?
    pub sync: bool,
    /// The event to queue, if any.
    pub event: Option<LinuxdevEvent>,
    /// Stop reading, with this result.
    pub done: Option<Result<(), Error>>,
}

/// A force feedback effect, as the kernel's `struct ff_effect` describes a rumble.
#[derive(Debug, Copy, Clone, Hash, PartialEq, Eq, Structural)]
pub struct FfEffect {
    pub type_: u16,
    pub id: i16,
    pub direction: u16,
    pub trigger_button: u16,
    pub trigger_interval: u16,
    pub replay_length: u16,
    pub replay_delay: u16,
    pub strong_magnitude: u16,
    pub weak_magnitude: u16,
}

impl VibrationState {
    /// The rumble effect for this vibration: not yet registered (id -1), lasting the
    /// longest time the kernel specifies (0x7fff ms), with no trigger or delay.
    pub fn to_ff_effect(&self) -> (r: FfEffect)
        ensures
            r == (FfEffect {
                type_: FF_RUMBLE,
                id: -1i16,
                direction: 0,
                trigger_button: 0,
                trigger_interval: 0,
                replay_length: 0x7fff,
                replay_delay: 0,
                strong_magnitude: self.strong_magnitude,
                weak_magnitude: self.weak_magnitude,
            }),
    {
        FfEffect {
            type_: FF_RUMBLE,
            id: -1,
            direction: 0,
            trigger_button: 0,
            trigger_interval: 0,
            replay_length: 0x7fff,
            replay_delay: 0,
            strong_magnitude: self.strong_magnitude,
            weak_magnitude: self.weak_magnitude,
        }
    }
}

/// What setting a vibration takes.
#[derive(Debug, Clone)]
pub enum VibrationPlan {
    /// It fails at once.
    Fail(Error),
    /// Nothing is to be done.
    Nothing,
    /// Register `effect` as a new effect, remember the ID the kernel gives it, set the
    /// force feedback gain to its maximum, then play it `play_count` times.
    Start { effect: FfEffect, play_count: i32 },
    /// Register `effect` again under its existing ID, then play it `play_count` times.
    Update { effect: FfEffect, play_count: i32 },
}

/// The outcome of one attempt to write an event to the device.
#[derive(Debug)]
pub enum WriteStep {
    /// Try the write again.
    Retry,
    /// The write is over, with this result.
    Done(Result<(), Error>),
}

/// The force feedback gain that rumble effects are played with: the maximum.
pub const MAX_FF_GAIN: i32 = 0xffff;

/// The text of a device's name in messages: its name between backquotes, or `???`.
pub open spec fn display_spec(dev: Linuxdev) -> Seq<char> {
    seq!['`'] + match dev.name_spec() {
        Some(n) => n,
        None => "???"@,
    } + seq!['`']
}

impl Linuxdev {
    /// The event that an evdev event from this device stands for, if any.
    pub fn translate_linux_input_event(&self, with_token: LinuxdevToken, ev: &InputEvent) -> (r: Option<
        LinuxdevEvent,
    >)
        ensures
            r == translated_event_spec(self.is_a_joystick_spec(), with_token, *ev),
    {
        let instant = EventInstant(
            OsEventInstant::LinuxInputEventTimeval { tv_sec: ev.tv_sec, tv_usec: ev.tv_usec },
        );
        let controller = DeviceID(OsDeviceID::Linuxdev(with_token));
        if ev.type_ == EV_KEY {
            let button = self.translate_ev_key(ev.code);
            if ev.value == 0 {
                Some(LinuxdevEvent::ControllerButtonReleased { controller, instant, button })
            } else {
                Some(LinuxdevEvent::ControllerButtonPressed { controller, instant, button })
            }
        } else if ev.type_ == EV_ABS {
            Some(
                LinuxdevEvent::ControllerAxisMotion {
                    controller,
                    instant,
                    axis: self.translate_ev_abs(ev.code),
                    value: ev.value,
                },
            )
        } else {
            None
        }
    }

    /// What to do after libevdev answered `status` to a read, in sync mode or not, having
    /// filled `ev`: a success queues the event; a sync status queues it and switches to
    /// sync mode; "try again" leaves sync mode, or ends the reading successfully outside
    /// of it; `ENODEV` ends it with a disconnection; anything else ends it with a failure.
    pub fn pump_evdev_step(&self, with_token: LinuxdevToken, sync: bool, status: i32, ev: &InputEvent) -> (r:
        PumpStep)
        requires
            status != i32::MIN,
        ensures
            status == -EAGAIN ==> r.event is None && if sync {
                !r.sync && r.done is None
            } else {
                r.done == Some(Ok::<(), Error>(()))
            },
            status == LIBEVDEV_READ_STATUS_SUCCESS ==> r.sync == sync && r.done is None && r.event
                == translated_event_spec(self.is_a_joystick_spec(), with_token, *ev),
            status == LIBEVDEV_READ_STATUS_SYNC ==> r.sync && r.done is None && r.event
                == translated_event_spec(self.is_a_joystick_spec(), with_token, *ev),
            status == -ENODEV ==> r.event is None && r.done == Some(
                Err::<(), Error>(Error::DeviceDisconnected(None)),
            ),
            (status != -EAGAIN && status != LIBEVDEV_READ_STATUS_SUCCESS && status
                != LIBEVDEV_READ_STATUS_SYNC && status != -ENODEV) ==> (r.event is None && (r.done
                matches Some(Err(Error::Other(e))) && e.kind == crate::error::ErrorKind::Failed
                && reason_view(e.reason) == Some(
                "Controller "@ + display_spec(*self) + ": libevdev_next_event() returned -"@
                    + nix_errno_text(-status as i32),
            ))),
    {
        if status == -EAGAIN || status == -EWOULDBLOCK {
            if sync {
                PumpStep { sync: false, event: None, done: None }
            } else {
                PumpStep { sync, event: None, done: Some(Ok(())) }
            }
        } else if status == LIBEVDEV_READ_STATUS_SUCCESS {
            PumpStep { sync, event: self.translate_linux_input_event(with_token, ev), done: None }
        } else if status == LIBEVDEV_READ_STATUS_SYNC {
            PumpStep { sync: true, event: self.translate_linux_input_event(with_token, ev), done: None }
        } else if status == -ENODEV {
            PumpStep { sync, event: None, done: Some(disconnected()) }
        } else {
            proof {
                reveal_strlit("Controller ");
                reveal_strlit(": libevdev_next_event() returned -");
            }
            let mut m = String::from_str("Controller ");
            m.append(self.display().to_display_string().as_str());
            m.append(": libevdev_next_event() returned -");
            m.append(errno_text(-status).as_str());
            PumpStep { sync, event: None, done: Some(failed(m)) }
        }
    }

    /// What setting `vibration` takes on this device. The rumble effect plays
    /// `i32::MAX` times when the vibration is zero, and 0 times otherwise.
    pub fn controller_set_vibration(&self, vibration: &VibrationState) -> (r: VibrationPlan)
        requires
            self.evdev is Some ==> self.fd_is_open,
        ensures
            self.evdev is None ==> r matches VibrationPlan::Fail(Error::NotSupportedByDevice { reason: None }),
            self.evdev matches Some(e) ==> {
                let zero = vibration.strong_magnitude == 0 && vibration.weak_magnitude == 0;
                let play_count: i32 = if zero { i32::MAX } else { 0 };
                if !self.fd_has_write_access {
                    r matches VibrationPlan::Fail(Error::NotSupportedByDevice { reason }) && reason_view(reason)
                        == Some("Device file could not be opened for write access"@)
                } else if e.props.max_simultaneous_ff_effects < 1 {
                    r matches VibrationPlan::Fail(Error::NotSupportedByDevice { reason }) && reason_view(reason)
                        == Some("Device does not support playing at least one force feedback effect"@)
                } else if zero && e.rumble_ff_id == -1 {
                    r is Nothing
                } else if e.rumble_ff_id == -1 {
                    r matches VibrationPlan::Start { effect, play_count: p } && p == play_count
                        && effect.id == -1 && effect.type_ == FF_RUMBLE && effect.replay_length == 0x7fff
                        && effect.strong_magnitude == vibration.strong_magnitude
                        && effect.weak_magnitude == vibration.weak_magnitude
                } else {
                    r matches VibrationPlan::Update { effect, play_count: p } && p == play_count
                        && effect.id == e.rumble_ff_id && effect.type_ == FF_RUMBLE
                        && effect.replay_length == 0x7fff
                        && effect.strong_magnitude == vibration.strong_magnitude
                        && effect.weak_magnitude == vibration.weak_magnitude
                }
            },
    {
        match &self.evdev {
            None => match not_supported_by_device_unexplained::<()>() {
                Err(e) => VibrationPlan::Fail(e),
                Ok(_) => VibrationPlan::Nothing,
            },
            Some(evdev) => {
                if !self.fd_has_write_access {
                    let m = String::from_str("Device file could not be opened for write access");
                    return match not_supported_by_device::<()>(m) {
                        Err(e) => VibrationPlan::Fail(e),
                        Ok(_) => VibrationPlan::Nothing,
                    };
                }
                if evdev.props.max_simultaneous_ff_effects < 1 {
                    let m = String::from_str(
                        "Device does not support playing at least one force feedback effect",
                    );
                    return match not_supported_by_device::<()>(m) {
                        Err(e) => VibrationPlan::Fail(e),
                        Ok(_) => VibrationPlan::Nothing,
                    };
                }
                let zero = vibration.is_zero();
                if zero && evdev.rumble_ff_id == -1 {
                    return VibrationPlan::Nothing;
                }
                let mut ff = vibration.to_ff_effect();
                let play_count: i32 = if zero { i32::MAX } else { 0 };
                if evdev.rumble_ff_id == -1 {
                    VibrationPlan::Start { effect: ff, play_count }
                } else {
                    ff.id = evdev.rumble_ff_id;
                    VibrationPlan::Update { effect: ff, play_count }
                }
            },
        }
    }

    /// The rumble effect to unregister when the device is let go of, if one was registered.
    pub fn rumble_effect_to_unregister(&self) -> (r: Option<i16>)
        ensures
            r == match self.evdev {
                Some(e) => if e.rumble_ff_id != -1 { Some(e.rumble_ff_id) } else { None },
                None => None,
            },
    {
        match &self.evdev {
            Some(e) => if e.rumble_ff_id != -1 {
                Some(e.rumble_ff_id)
            } else {
                None
            },
            None => None,
        }
    }

    /// Remembers the ID under which the kernel registered the rumble effect.
    pub fn set_rumble_ff_id(&mut self, id: i16)
        requires
            old(self).evdev is Some,
        ensures
            final(self).evdev is Some,
            final(self).evdev.unwrap().rumble_ff_id == id,
            final(self).evdev.unwrap().props == old(self).evdev.unwrap().props,
            final(self).evdev.unwrap().buttons@ == old(self).evdev.unwrap().buttons@,
            final(self).evdev.unwrap().axes@ == old(self).evdev.unwrap().axes@,
            final(self).evdev.unwrap().key_codes@ == old(self).evdev.unwrap().key_codes@,
            final(self).evdev.unwrap().abs_infos@ == old(self).evdev.unwrap().abs_infos@,
            final(self).udev_props == old(self).udev_props,
            final(self).device_node == old(self).device_node,
            final(self).fd_is_open == old(self).fd_is_open,
            final(self).fd_has_write_access == old(self).fd_has_write_access,
            final(self).event_api == old(self).event_api,
    {
        let mut evdev = self.evdev.take().unwrap();
        evdev.rumble_ff_id = id;
        self.evdev = Some(evdev);
    }

    /// The result of registering a force feedback effect: `ioctl_errno` is the error of
    /// the ioctl, if it failed, and `registered_id` the ID the effect has after it.
    pub fn register_ff_effect_outcome(&self, ioctl_errno: Option<i32>, registered_id: i16) -> (r: Result<
        (),
        Error,
    >)
        ensures
            ioctl_errno == Some(ENODEV) ==> r == Err::<(), Error>(Error::DeviceDisconnected(None)),
            ioctl_errno matches Some(e) ==> (e != ENODEV ==> (r matches Err(
                Error::NotSupportedByDevice { reason },
            ) && reason_view(reason) == Some(
                "Controller "@ + display_spec(*self)
                    + ": could not register force feedback effect: ioctl() generated "@
                    + nix_errno_text(e),
            ))),
            ioctl_errno is None && registered_id == -1 ==> (r matches Err(
                Error::NotSupportedByDevice { reason },
            ) && reason_view(reason) == Some(
                "Controller "@ + display_spec(*self)
                    + ": force feedback effect ID was not set by the kernel or driver; We have no way to reference it later!"@,
            )),
            ioctl_errno is None && registered_id != -1 ==> r is Ok,
    {
        proof {
            reveal_strlit("Controller ");
        }
        match ioctl_errno {
            Some(e) => {
                if e == ENODEV {
                    disconnected()
                } else {
                    let mut m = String::from_str("Controller ");
                    m.append(self.display().to_display_string().as_str());
                    m.append(": could not register force feedback effect: ioctl() generated ");
                    m.append(errno_text(e).as_str());
                    not_supported_by_device(m)
                }
            },
            None => {
                if registered_id == -1 {
                    let mut m = String::from_str("Controller ");
                    m.append(self.display().to_display_string().as_str());
                    m.append(
                        ": force feedback effect ID was not set by the kernel or driver; We have no way to reference it later!",
                    );
                    not_supported_by_device(m)
                } else {
                    Ok(())
                }
            },
        }
    }

    /// The outcome of one write of `size` bytes, of which `nwritten` were written (-1 on
    /// error, with `errno`): "try again" retries, `ENODEV` is a disconnection, other errors
    /// and short writes are failures.
    pub fn write_ff_event_outcome(&self, nwritten: isize, size: usize, errno: i32) -> (r: WriteStep)
        ensures
            nwritten == -1 && errno == EAGAIN ==> r is Retry,
            nwritten == -1 && errno == ENODEV ==> r matches WriteStep::Done(Err(Error::DeviceDisconnected(None))),
            nwritten == -1 && errno != EAGAIN && errno != ENODEV ==> (r matches WriteStep::Done(
                Err(Error::NotSupportedByDevice { reason }),
            ) && reason_view(reason) == Some(
                "Controller "@ + display_spec(*self) + ": could not play rumble effect: write() generated "@
                    + nix_errno_text(errno),
            )),
            nwritten != -1 && nwritten != size ==> r matches WriteStep::Done(
                Err(Error::NotSupportedByDevice { reason: None }),
            ),
            nwritten != -1 && nwritten == size ==> r matches WriteStep::Done(Ok(())),
    {
        proof {
            reveal_strlit("Controller ");
        }
        if nwritten == -1 {
            if errno == EAGAIN || errno == EWOULDBLOCK {
                WriteStep::Retry
            } else if errno == ENODEV {
                WriteStep::Done(disconnected())
            } else {
                let mut m = String::from_str("Controller ");
                m.append(self.display().to_display_string().as_str());
                m.append(": could not play rumble effect: write() generated ");
                m.append(errno_text(errno).as_str());
                WriteStep::Done(not_supported_by_device(m))
            }
        } else if size > isize::MAX as usize || nwritten != size as isize {
            WriteStep::Done(not_supported_by_device_unexplained())
        } else {
            WriteStep::Done(Ok(()))
        }
    }
}

/// The event written to the device to play an effect or set a property.
pub fn ff_input_event(code: u16, value: i32) -> (r: InputEvent)
    ensures
        r == (InputEvent { tv_sec: 0, tv_usec: 0, type_: EV_FF, code, value }),
{
    InputEvent { tv_sec: 0, tv_usec: 0, type_: EV_FF, code, value }
}

/// The event that sets the force feedback gain, from 0 to 0xffff.
pub fn ff_gain_event(gain: i32) -> (r: InputEvent)
    requires
        0 <= gain <= 0xffff,
    ensures
        r == (InputEvent { tv_sec: 0, tv_usec: 0, type_: EV_FF, code: FF_GAIN, value: gain }),
{
    ff_input_event(FF_GAIN, gain)
}

/// After setting the gain while starting a rumble, is the whole operation over? Only a
/// disconnection stops it; other failures are only worth a warning.
pub fn gain_failure_is_fatal(status: &Result<(), Error>) -> (r: bool)
    ensures
        r == (status matches Err(Error::DeviceDisconnected(_))),
{
    match status {
        Err(Error::DeviceDisconnected(_)) => true,
        _ => false,
    }
}


/// An evdev key event (type 1) is a press of the button its code stands for, or a release
/// when its value is 0; an absolute axis event (type 3) is a motion of the axis its code
/// stands for (as the controller's kind reads it) to the event's raw value; on a gamepad
/// or a steering wheel, codes 0x02 and 0x05 are the left and right triggers and 0x00 and
/// 0x01 the left stick; other events are dropped. Every event is the controller's, at the
/// event's time.
pub proof fn lemma_evdev_event_translation(joystick: bool, token: LinuxdevToken, ev: InputEvent)
    ensures
        ({
            let r = translated_event_spec(joystick, token, ev);
            let controller = DeviceID(OsDeviceID::Linuxdev(token));
            let instant = EventInstant(
                OsEventInstant::LinuxInputEventTimeval { tv_sec: ev.tv_sec, tv_usec: ev.tv_usec },
            );
            &&& (ev.type_ == 1 && ev.value == 0) ==> r == Some(
                LinuxdevEvent::ControllerButtonReleased { controller, instant, button: button_from_code_spec(ev.code) },
            )
            &&& (ev.type_ == 1 && ev.value != 0) ==> r == Some(
                LinuxdevEvent::ControllerButtonPressed { controller, instant, button: button_from_code_spec(ev.code) },
            )
            &&& ev.type_ == 3 ==> (r matches Some(LinuxdevEvent::ControllerAxisMotion { controller: c, instant: t, axis, value })
                && c == controller && t == instant && value == ev.value
                && (joystick ==> axis == axis_from_code_joystick_spec(ev.code))
                && (!joystick ==> axis == axis_from_code_gamepad_spec(ev.code))
                && (!joystick && ev.code == 0x02 ==> axis == ControllerAxis::LTrigger)
                && (!joystick && ev.code == 0x05 ==> axis == ControllerAxis::RTrigger)
                && (!joystick && ev.code == 0x00 ==> axis == ControllerAxis::LX)
                && (!joystick && ev.code == 0x01 ==> axis == ControllerAxis::LY))
            &&& (ev.type_ != 1 && ev.type_ != 3) ==> r is None
        }),
{
}

} // verus!
