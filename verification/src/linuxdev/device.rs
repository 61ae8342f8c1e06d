//! One device as udev and evdev describe it, and what is read from it: names, identifiers,
//! the bus, the controller kind, the supported buttons and axes, and time stamps.

use vstd::prelude::*;
use crate::device::{Bus, ButtonState, ControllerAxis, ControllerButton};
use crate::event_instant::{EventInstant, OsEventInstant};
use crate::geom::Range;
use crate::strings::{decimal_spec, push_decimal, str_equals};
use super::codes::{
    ABS_BRAKE, ABS_GAS, ABS_HAT0X, ABS_HAT0Y, ABS_HAT1X, ABS_HAT1Y, ABS_HAT2X, ABS_HAT2Y,
    ABS_HAT3X, ABS_HAT3Y, ABS_RUDDER, ABS_RX, ABS_RY, ABS_RZ, ABS_THROTTLE, ABS_WHEEL, ABS_X,
    ABS_Y, ABS_Z, BTN_0, BTN_1, BTN_2, BTN_3, BTN_4, BTN_5, BTN_6, BTN_7, BTN_8, BTN_9, BTN_A,
    BTN_B, BTN_BASE, BTN_BASE2, BTN_BASE3, BTN_BASE4, BTN_BASE5, BTN_BASE6, BTN_C, BTN_DEAD,
    BTN_DPAD_DOWN, BTN_DPAD_LEFT, BTN_DPAD_RIGHT, BTN_DPAD_UP, BTN_GEAR_DOWN, BTN_GEAR_UP,
    BTN_MODE, BTN_PINKIE, BTN_SELECT, BTN_START, BTN_THUMB, BTN_THUMB2, BTN_THUMBL, BTN_THUMBR,
    BTN_TL, BTN_TL2, BTN_TOP, BTN_TOP2, BTN_TR, BTN_TR2, BTN_TRIGGER, BTN_X, BTN_Y, BTN_Z,
    BUS_BLUETOOTH, BUS_PCI, BUS_USB, BUS_VIRTUAL,
};
use super::mapping::{
    axis_from_code_gamepad_spec, axis_from_code_joystick_spec, axis_to_code_gamepad_spec,
    axis_to_code_joystick_spec, button_from_code_spec, button_to_code_spec,
    controller_axis_from_ev_abs_code_for_gamepads_or_steering_wheels,
    controller_axis_from_ev_abs_code_for_joysticks,
    controller_axis_to_ev_abs_code_for_gamepads_or_steering_wheels,
    controller_axis_to_ev_abs_code_for_joysticks, controller_button_from_ev_key_code,
    controller_button_to_ev_key_code, lemma_gamepad_abs_code_round_trip,
    lemma_joystick_abs_code_round_trip, lemma_key_code_round_trip,
};
use super::props::{
    EvdevProps, EvdevQueries, InputAbsinfo, LinuxEventAPI, LinuxdevDisplay, UdevProps,
    evdev_props_match, opt_view,
};

verus! {

/// What the limits of an absolute axis say, in integers: its range, the dead zone that the
/// driver applies around zero, the noise filter and the resolution.
#[derive(Debug, Copy, Clone, Hash, PartialEq, Eq, Structural)]
pub struct LinuxdevAxisInfo {
    pub range: Range<i32>,
    pub dead_zone: Range<i64>,
    pub fuzz: i32,
    pub resolution: i32,
}

/// The magnitude of `x`.
pub open spec fn abs_spec(x: int) -> int {
    if x < 0 { -x } else { x }
}

/// Reads the limits of an absolute axis: from minimum to maximum, with a dead zone from
/// minus to plus the magnitude of `flat`.
pub fn axis_info_from_linux_absinfo(absinfo: &InputAbsinfo) -> (r: LinuxdevAxisInfo)
    ensures
        r.range.start == absinfo.minimum,
        r.range.end == absinfo.maximum,
        r.dead_zone.start == -abs_spec(absinfo.flat as int),
        r.dead_zone.end == abs_spec(absinfo.flat as int),
        r.fuzz == absinfo.fuzz,
        r.resolution == absinfo.resolution,
{
    let flat = absinfo.flat as i64;
    let max: i64 = if flat < 0 { -flat } else { flat };
    LinuxdevAxisInfo {
        range: Range { start: absinfo.minimum, end: absinfo.maximum },
        dead_zone: Range { start: -max, end: max },
        fuzz: absinfo.fuzz,
        resolution: absinfo.resolution,
    }
}

/// The evdev side of an open device: its properties, the codes it has, and the controller
/// buttons and axes that these stand for.
#[derive(Debug)]
pub struct LinuxdevEvdev {
    /// The registered force feedback ID for rumble effects, or -1.
    pub rumble_ff_id: i16,
    pub props: EvdevProps,
    pub key_codes: Vec<u16>,
    pub abs_infos: Vec<(u16, Option<InputAbsinfo>)>,
    pub buttons: Vec<ControllerButton>,
    pub axes: Vec<(ControllerAxis, LinuxdevAxisInfo)>,
}

impl LinuxdevEvdev {
    /// The evdev side of a device, from libevdev's answers; no rumble effect is registered
    /// yet, and the buttons and axes are filled in by the device.
    pub fn from_libevdev(q: EvdevQueries) -> (r: LinuxdevEvdev)
        ensures
            evdev_props_match(r.props, q),
            r.rumble_ff_id == -1,
            r.key_codes@ == q.key_codes@,
            r.abs_infos@ == q.abs_infos@,
            r.buttons@.len() == 0,
            r.axes@.len() == 0,
    {
        let props = EvdevProps::from_queries(&q);
        LinuxdevEvdev {
            rumble_ff_id: -1,
            props,
            key_codes: q.key_codes,
            abs_infos: q.abs_infos,
            buttons: Vec::new(),
            axes: Vec::new(),
        }
    }
}

/// A device as udev and evdev describe it.
#[derive(Debug)]
pub struct Linuxdev {
    /// The device node, such as `/dev/input/event3`, if it has one.
    pub device_node: Option<String>,
    pub udev_props: UdevProps,
    /// Was the device node opened?
    pub fd_is_open: bool,
    /// Was it opened for writing too?
    pub fd_has_write_access: bool,
    pub event_api: Option<LinuxEventAPI>,
    pub evdev: Option<LinuxdevEvdev>,
}

/// The evdev key codes that stand for controller buttons, in the order they are looked at.
pub open spec fn all_btn_codes() -> Seq<u16> {
    seq![
        BTN_GEAR_DOWN, BTN_GEAR_UP, BTN_TRIGGER, BTN_THUMB, BTN_THUMB2, BTN_TOP, BTN_TOP2,
        BTN_PINKIE, BTN_DEAD, BTN_BASE, BTN_BASE2, BTN_BASE3, BTN_BASE4, BTN_BASE5, BTN_BASE6,
        BTN_A, BTN_B, BTN_C, BTN_X, BTN_Y, BTN_Z, BTN_TL, BTN_TR, BTN_TL2, BTN_TR2, BTN_SELECT,
        BTN_START, BTN_MODE, BTN_THUMBL, BTN_THUMBR, BTN_DPAD_UP, BTN_DPAD_DOWN, BTN_DPAD_LEFT,
        BTN_DPAD_RIGHT, BTN_0, BTN_1, BTN_2, BTN_3, BTN_4, BTN_5, BTN_6, BTN_7, BTN_8, BTN_9,
    ]
}

/// The evdev absolute-axis codes that stand for controller axes, in the order they are
/// looked at.
pub open spec fn all_abs_codes() -> Seq<u16> {
    seq![
        ABS_THROTTLE, ABS_RUDDER, ABS_WHEEL, ABS_GAS, ABS_BRAKE, ABS_HAT0X, ABS_HAT0Y, ABS_HAT1X,
        ABS_HAT1Y, ABS_HAT2X, ABS_HAT2Y, ABS_HAT3X, ABS_HAT3Y, ABS_X, ABS_Y, ABS_Z, ABS_RX,
        ABS_RY, ABS_RZ,
    ]
}

/// The key codes that stand for controller buttons.
pub fn all_btn_codes_vec() -> (r: Vec<u16>)
    ensures
        r@ == all_btn_codes(),
{
    let r = vec![
        BTN_GEAR_DOWN, BTN_GEAR_UP, BTN_TRIGGER, BTN_THUMB, BTN_THUMB2, BTN_TOP, BTN_TOP2,
        BTN_PINKIE, BTN_DEAD, BTN_BASE, BTN_BASE2, BTN_BASE3, BTN_BASE4, BTN_BASE5, BTN_BASE6,
        BTN_A, BTN_B, BTN_C, BTN_X, BTN_Y, BTN_Z, BTN_TL, BTN_TR, BTN_TL2, BTN_TR2, BTN_SELECT,
        BTN_START, BTN_MODE, BTN_THUMBL, BTN_THUMBR, BTN_DPAD_UP, BTN_DPAD_DOWN, BTN_DPAD_LEFT,
        BTN_DPAD_RIGHT, BTN_0, BTN_1, BTN_2, BTN_3, BTN_4, BTN_5, BTN_6, BTN_7, BTN_8, BTN_9,
    ];
    assert(r@ =~= all_btn_codes());
    r
}

/// The absolute-axis codes that stand for controller axes.
pub fn all_abs_codes_vec() -> (r: Vec<u16>)
    ensures
        r@ == all_abs_codes(),
{
    let r = vec![
        ABS_THROTTLE, ABS_RUDDER, ABS_WHEEL, ABS_GAS, ABS_BRAKE, ABS_HAT0X, ABS_HAT0Y, ABS_HAT1X,
        ABS_HAT1Y, ABS_HAT2X, ABS_HAT2Y, ABS_HAT3X, ABS_HAT3Y, ABS_X, ABS_Y, ABS_Z, ABS_RX,
        ABS_RY, ABS_RZ,
    ];
    assert(r@ =~= all_abs_codes());
    r
}

/// The buttons that stand for those of `candidates` that the device has, in order.
pub open spec fn supported_buttons_spec(key_codes: Seq<u16>, candidates: Seq<u16>) -> Seq<
    ControllerButton,
>
    decreases candidates.len(),
{
    if candidates.len() == 0 {
        Seq::empty()
    } else {
        let prev = supported_buttons_spec(key_codes, candidates.drop_last());
        if key_codes.contains(candidates.last()) {
            prev.push(button_from_code_spec(candidates.last()))
        } else {
            prev
        }
    }
}

/// Dropping the last of distinct codes leaves distinct codes that lack it.
proof fn lemma_distinct_drop_last(codes: Seq<u16>)
    requires
        codes.len() > 0,
        codes.no_duplicates(),
    ensures
        codes.drop_last().no_duplicates(),
        !codes.drop_last().contains(codes.last()),
{
    let d = codes.drop_last();
    assert forall|i: int, j: int| 0 <= i < d.len() && 0 <= j < d.len() && i != j implies d[i] != d[j] by {
        assert(d[i] == codes[i] && d[j] == codes[j]);
    }
    if d.contains(codes.last()) {
        let k = choose|k: int| 0 <= k < d.len() && d[k] == codes.last();
        assert(codes[k] == codes[codes.len() - 1]);
    }
}

/// No button appears twice.
pub open spec fn buttons_distinct(buttons: Seq<ControllerButton>) -> bool {
    buttons.no_duplicates()
}

/// No key (the first of each pair) appears twice.
pub open spec fn keys_distinct<K, T>(pairs: Seq<(K, T)>) -> bool {
    forall|i: int, j: int| 0 <= i < pairs.len() && 0 <= j < pairs.len() && i != j ==> pairs[i].0 != pairs[j].0
}

proof fn lemma_supported_buttons_come_from(key_codes: Seq<u16>, candidates: Seq<u16>)
    ensures
        forall|i: int| 0 <= i < supported_buttons_spec(key_codes, candidates).len() ==> {
            let b = #[trigger] supported_buttons_spec(key_codes, candidates)[i];
            button_to_code_spec(b) is Some && candidates.contains(button_to_code_spec(b)->0)
        },
    decreases candidates.len(),
{
    if candidates.len() > 0 {
        let prev = supported_buttons_spec(key_codes, candidates.drop_last());
        lemma_supported_buttons_come_from(key_codes, candidates.drop_last());
        lemma_key_code_round_trip(candidates.last());
        assert forall|i: int| 0 <= i < supported_buttons_spec(key_codes, candidates).len() implies {
            let b = #[trigger] supported_buttons_spec(key_codes, candidates)[i];
            button_to_code_spec(b) is Some && candidates.contains(button_to_code_spec(b)->0)
        } by {
            let b = supported_buttons_spec(key_codes, candidates)[i];
            if i < prev.len() {
                assert(b == prev[i]);
                let c = button_to_code_spec(b)->0;
                let k = choose|k: int| 0 <= k < candidates.drop_last().len() && candidates.drop_last()[k] == c;
                assert(candidates[k] == c);
            } else {
                assert(candidates[candidates.len() - 1] == candidates.last());
            }
        }
    }
}

/// The buttons found among distinct candidate codes are distinct.
proof fn lemma_supported_buttons_distinct(key_codes: Seq<u16>, candidates: Seq<u16>)
    requires
        candidates.no_duplicates(),
    ensures
        buttons_distinct(supported_buttons_spec(key_codes, candidates)),
    decreases candidates.len(),
{
    if candidates.len() > 0 {
        let prev = supported_buttons_spec(key_codes, candidates.drop_last());
        lemma_distinct_drop_last(candidates);
        lemma_supported_buttons_distinct(key_codes, candidates.drop_last());
        if key_codes.contains(candidates.last()) {
            let b = button_from_code_spec(candidates.last());
            lemma_key_code_round_trip(candidates.last());
            lemma_supported_buttons_come_from(key_codes, candidates.drop_last());

            assert forall|i: int| 0 <= i < prev.len() implies prev[i] != b by {
                if prev[i] == b {
                    assert(candidates.drop_last().contains(candidates.last()));
                }
            }
            let r = prev.push(b);
            assert forall|i: int, j: int| 0 <= i < r.len() && 0 <= j < r.len() && i != j implies r[i]
                != r[j] by {
                if i < prev.len() && j < prev.len() {
                    assert(r[i] == prev[i] && r[j] == prev[j]);
                } else if i < prev.len() {
                    assert(r[i] == prev[i] && r[j] == b);
                } else {
                    assert(r[j] == prev[j] && r[i] == b);
                }
            }
        }
    }
}

proof fn lemma_translate_abs_round_trip(joystick: bool, code: u16)
    ensures
        untranslate_abs_spec(joystick, translate_abs_spec(joystick, code)) == Some(code),
{
    lemma_gamepad_abs_code_round_trip(code);
    lemma_joystick_abs_code_round_trip(code);
}

proof fn lemma_supported_axes_come_from(
    joystick: bool,
    abs_infos: Seq<(u16, Option<InputAbsinfo>)>,
    candidates: Seq<u16>,
)
    ensures
        forall|i: int| 0 <= i < supported_axes_spec(joystick, abs_infos, candidates).len() ==> {
            let a = (#[trigger] supported_axes_spec(joystick, abs_infos, candidates)[i]).0;
            untranslate_abs_spec(joystick, a) is Some && candidates.contains(
                untranslate_abs_spec(joystick, a)->0,
            )
        },
    decreases candidates.len(),
{
    if candidates.len() > 0 {
        let prev = supported_axes_spec(joystick, abs_infos, candidates.drop_last());
        lemma_supported_axes_come_from(joystick, abs_infos, candidates.drop_last());
        lemma_translate_abs_round_trip(joystick, candidates.last());
        assert forall|i: int| 0 <= i < supported_axes_spec(joystick, abs_infos, candidates).len() implies {
            let a = (#[trigger] supported_axes_spec(joystick, abs_infos, candidates)[i]).0;
            untranslate_abs_spec(joystick, a) is Some && candidates.contains(
                untranslate_abs_spec(joystick, a)->0,
            )
        } by {
            let a = supported_axes_spec(joystick, abs_infos, candidates)[i].0;
            if i < prev.len() {
                assert(a == prev[i].0);
                let c = untranslate_abs_spec(joystick, a)->0;
                let k = choose|k: int| 0 <= k < candidates.drop_last().len() && candidates.drop_last()[k] == c;
                assert(candidates[k] == c);
            } else {
                assert(candidates[candidates.len() - 1] == candidates.last());
            }
        }
    }
}

/// The axes found among distinct candidate codes are distinct.
proof fn lemma_supported_axes_distinct(
    joystick: bool,
    abs_infos: Seq<(u16, Option<InputAbsinfo>)>,
    candidates: Seq<u16>,
)
    requires
        candidates.no_duplicates(),
    ensures
        keys_distinct(supported_axes_spec(joystick, abs_infos, candidates)),
    decreases candidates.len(),
{
    if candidates.len() > 0 {
        let prev = supported_axes_spec(joystick, abs_infos, candidates.drop_last());
        lemma_distinct_drop_last(candidates);
        lemma_supported_axes_distinct(joystick, abs_infos, candidates.drop_last());
        let code = candidates.last();
        match abs_lookup(abs_infos, code) {
            Some(Some(x)) => {
                let p = (translate_abs_spec(joystick, code), axis_info_spec(x));
                lemma_translate_abs_round_trip(joystick, code);
                lemma_supported_axes_come_from(joystick, abs_infos, candidates.drop_last());

                assert forall|i: int| 0 <= i < prev.len() implies prev[i].0 != p.0 by {
                    if prev[i].0 == p.0 {
                        assert(candidates.drop_last().contains(code));
                    }
                }
                let r = prev.push(p);
                assert forall|i: int, j: int| 0 <= i < r.len() && 0 <= j < r.len() && i != j implies r[i].0
                    != r[j].0 by {
                    if i < prev.len() && j < prev.len() {
                        assert(r[i] == prev[i] && r[j] == prev[j]);
                    } else if i < prev.len() {
                        assert(r[i] == prev[i] && r[j] == p);
                    } else {
                        assert(r[j] == prev[j] && r[i] == p);
                    }
                }
            },
            _ => {},
        }
    }
}

/// The buttons that a device can have, and its axes, each appear once.
pub proof fn lemma_all_supported_distinct(
    joystick: bool,
    key_codes: Seq<u16>,
    abs_infos: Seq<(u16, Option<InputAbsinfo>)>,
)
    ensures
        buttons_distinct(supported_buttons_spec(key_codes, all_btn_codes())),
        keys_distinct(supported_axes_spec(joystick, abs_infos, all_abs_codes())),
{
    assert(all_btn_codes().no_duplicates());
    assert(all_abs_codes().no_duplicates());
    lemma_supported_buttons_distinct(key_codes, all_btn_codes());
    lemma_supported_axes_distinct(joystick, abs_infos, all_abs_codes());
}

/// The state that a value fetched from evdev for a key stands for: up for 0, down otherwise.
pub open spec fn key_value_state(v: i32) -> ButtonState {
    if v == 0 {
        ButtonState::Up
    } else {
        ButtonState::Down
    }
}

/// The button states that the fetches for the first `n` key codes give: `fetches[i]` is
/// what libevdev fetched for `codes[i]`, nothing where the fetch failed.
pub open spec fn button_states_spec(codes: Seq<u16>, fetches: Seq<Option<i32>>, n: int) -> Seq<
    (ControllerButton, ButtonState),
>
    decreases n,
{
    if n <= 0 {
        Seq::empty()
    } else {
        let prev = button_states_spec(codes, fetches, n - 1);
        match fetches[n - 1] {
            Some(v) => prev.push((button_from_code_spec(codes[n - 1]), key_value_state(v))),
            None => prev,
        }
    }
}

/// The raw axis values that the fetches for the first `n` absolute-axis codes give.
pub open spec fn axis_values_spec(joystick: bool, codes: Seq<u16>, fetches: Seq<Option<i32>>, n: int) -> Seq<
    (ControllerAxis, i32),
>
    decreases n,
{
    if n <= 0 {
        Seq::empty()
    } else {
        let prev = axis_values_spec(joystick, codes, fetches, n - 1);
        match fetches[n - 1] {
            Some(v) => prev.push((translate_abs_spec(joystick, codes[n - 1]), v)),
            None => prev,
        }
    }
}

proof fn lemma_button_states_come_from(codes: Seq<u16>, fetches: Seq<Option<i32>>, n: int)
    requires
        0 <= n <= codes.len(),
    ensures
        forall|i: int| 0 <= i < button_states_spec(codes, fetches, n).len() ==> {
            let b = (#[trigger] button_states_spec(codes, fetches, n)[i]).0;
            button_to_code_spec(b) is Some && exists|k: int| 0 <= k < n && codes[k] == button_to_code_spec(b)->0
        },
    decreases n,
{
    if n > 0 {
        let prev = button_states_spec(codes, fetches, n - 1);
        lemma_button_states_come_from(codes, fetches, n - 1);
        lemma_key_code_round_trip(codes[n - 1]);
        assert forall|i: int| 0 <= i < button_states_spec(codes, fetches, n).len() implies {
            let b = (#[trigger] button_states_spec(codes, fetches, n)[i]).0;
            button_to_code_spec(b) is Some && exists|k: int| 0 <= k < n && codes[k] == button_to_code_spec(b)->0
        } by {
            if i < prev.len() {
                assert(button_states_spec(codes, fetches, n)[i] == prev[i]);
            } else {
                assert(codes[n - 1] == button_to_code_spec(button_states_spec(codes, fetches, n)[i].0)->0);
            }
        }
    }
}

proof fn lemma_button_states_distinct(codes: Seq<u16>, fetches: Seq<Option<i32>>, n: int)
    requires
        0 <= n <= codes.len(),
        codes.no_duplicates(),
    ensures
        keys_distinct(button_states_spec(codes, fetches, n)),
    decreases n,
{
    if n > 0 {
        let prev = button_states_spec(codes, fetches, n - 1);
        lemma_button_states_distinct(codes, fetches, n - 1);
        match fetches[n - 1] {
            Some(v) => {
                let p = (button_from_code_spec(codes[n - 1]), key_value_state(v));
                lemma_key_code_round_trip(codes[n - 1]);
                lemma_button_states_come_from(codes, fetches, n - 1);
                assert forall|i: int| 0 <= i < prev.len() implies prev[i].0 != p.0 by {
                    if prev[i].0 == p.0 {
                        let k = choose|k: int| 0 <= k < n - 1 && codes[k] == button_to_code_spec(prev[i].0)->0;
                        assert(codes[k] == codes[n - 1]);
                    }
                }
                let r = prev.push(p);
                assert forall|i: int, j: int| 0 <= i < r.len() && 0 <= j < r.len() && i != j implies r[i].0
                    != r[j].0 by {
                    if i < prev.len() && j < prev.len() {
                        assert(r[i] == prev[i] && r[j] == prev[j]);
                    } else if i < prev.len() {
                        assert(r[i] == prev[i] && r[j] == p);
                    } else {
                        assert(r[j] == prev[j] && r[i] == p);
                    }
                }
            },
            None => {},
        }
    }
}

proof fn lemma_axis_values_come_from(joystick: bool, codes: Seq<u16>, fetches: Seq<Option<i32>>, n: int)
    requires
        0 <= n <= codes.len(),
    ensures
        forall|i: int| 0 <= i < axis_values_spec(joystick, codes, fetches, n).len() ==> {
            let a = (#[trigger] axis_values_spec(joystick, codes, fetches, n)[i]).0;
            untranslate_abs_spec(joystick, a) is Some && exists|k: int| 0 <= k < n && codes[k]
                == untranslate_abs_spec(joystick, a)->0
        },
    decreases n,
{
    if n > 0 {
        let prev = axis_values_spec(joystick, codes, fetches, n - 1);
        lemma_axis_values_come_from(joystick, codes, fetches, n - 1);
        lemma_translate_abs_round_trip(joystick, codes[n - 1]);
        assert forall|i: int| 0 <= i < axis_values_spec(joystick, codes, fetches, n).len() implies {
            let a = (#[trigger] axis_values_spec(joystick, codes, fetches, n)[i]).0;
            untranslate_abs_spec(joystick, a) is Some && exists|k: int| 0 <= k < n && codes[k]
                == untranslate_abs_spec(joystick, a)->0
        } by {
            if i < prev.len() {
                assert(axis_values_spec(joystick, codes, fetches, n)[i] == prev[i]);
            } else {
                assert(codes[n - 1] == untranslate_abs_spec(
                    joystick,
                    axis_values_spec(joystick, codes, fetches, n)[i].0,
                )->0);
            }
        }
    }
}

proof fn lemma_axis_values_distinct(joystick: bool, codes: Seq<u16>, fetches: Seq<Option<i32>>, n: int)
    requires
        0 <= n <= codes.len(),
        codes.no_duplicates(),
    ensures
        keys_distinct(axis_values_spec(joystick, codes, fetches, n)),
    decreases n,
{
    if n > 0 {
        let prev = axis_values_spec(joystick, codes, fetches, n - 1);
        lemma_axis_values_distinct(joystick, codes, fetches, n - 1);
        match fetches[n - 1] {
            Some(v) => {
                let p = (translate_abs_spec(joystick, codes[n - 1]), v);
                lemma_translate_abs_round_trip(joystick, codes[n - 1]);
                lemma_axis_values_come_from(joystick, codes, fetches, n - 1);
                assert forall|i: int| 0 <= i < prev.len() implies prev[i].0 != p.0 by {
                    if prev[i].0 == p.0 {
                        let k = choose|k: int| 0 <= k < n - 1 && codes[k] == untranslate_abs_spec(joystick, prev[i].0)->0;
                        assert(codes[k] == codes[n - 1]);
                    }
                }
                let r = prev.push(p);
                assert forall|i: int, j: int| 0 <= i < r.len() && 0 <= j < r.len() && i != j implies r[i].0
                    != r[j].0 by {
                    if i < prev.len() && j < prev.len() {
                        assert(r[i] == prev[i] && r[j] == prev[j]);
                    } else if i < prev.len() {
                        assert(r[i] == prev[i] && r[j] == p);
                    } else {
                        assert(r[j] == prev[j] && r[i] == p);
                    }
                }
            },
            None => {},
        }
    }
}

/// The button states and axis values fetched for all the controller codes name each
/// button and each axis once.
pub proof fn lemma_fetched_states_distinct(
    joystick: bool,
    button_fetches: Seq<Option<i32>>,
    axis_fetches: Seq<Option<i32>>,
)
    ensures
        keys_distinct(button_states_spec(all_btn_codes(), button_fetches, all_btn_codes().len() as int)),
        keys_distinct(axis_values_spec(joystick, all_abs_codes(), axis_fetches, all_abs_codes().len() as int)),
{
    assert(all_btn_codes().no_duplicates());
    assert(all_abs_codes().no_duplicates());
    lemma_button_states_distinct(all_btn_codes(), button_fetches, all_btn_codes().len() as int);
    lemma_axis_values_distinct(joystick, all_abs_codes(), axis_fetches, all_abs_codes().len() as int);
}

/// The limits that `abs_infos` gives for `code`: `None` when the device lacks the code,
/// `Some(None)` when it has the code but libevdev gives no limits.
pub open spec fn abs_lookup(abs_infos: Seq<(u16, Option<InputAbsinfo>)>, code: u16) -> Option<
    Option<InputAbsinfo>,
>
    decreases abs_infos.len(),
{
    if abs_infos.len() == 0 {
        None
    } else if abs_infos[0].0 == code {
        Some(abs_infos[0].1)
    } else {
        abs_lookup(abs_infos.drop_first(), code)
    }
}

/// The axis that an absolute-axis code stands for, on a joystick or on another controller.
pub open spec fn translate_abs_spec(joystick: bool, code: u16) -> ControllerAxis {
    if joystick {
        axis_from_code_joystick_spec(code)
    } else {
        axis_from_code_gamepad_spec(code)
    }
}

/// The absolute-axis code of an axis, on a joystick or on another controller.
pub open spec fn untranslate_abs_spec(joystick: bool, axis: ControllerAxis) -> Option<u16> {
    if joystick {
        axis_to_code_joystick_spec(axis)
    } else {
        axis_to_code_gamepad_spec(axis)
    }
}

/// The limits of an absolute axis, as `axis_info_from_linux_absinfo` reads them.
pub open spec fn axis_info_spec(a: InputAbsinfo) -> LinuxdevAxisInfo {
    LinuxdevAxisInfo {
        range: Range { start: a.minimum, end: a.maximum },
        dead_zone: Range { start: -abs_spec(a.flat as int) as i64, end: abs_spec(a.flat as int) as i64 },
        fuzz: a.fuzz,
        resolution: a.resolution,
    }
}

/// The axes (with their limits) that stand for those of `candidates` that the device has
/// and gives limits for, in order.
pub open spec fn supported_axes_spec(
    joystick: bool,
    abs_infos: Seq<(u16, Option<InputAbsinfo>)>,
    candidates: Seq<u16>,
) -> Seq<(ControllerAxis, LinuxdevAxisInfo)>
    decreases candidates.len(),
{
    if candidates.len() == 0 {
        Seq::empty()
    } else {
        let prev = supported_axes_spec(joystick, abs_infos, candidates.drop_last());
        let code = candidates.last();
        match abs_lookup(abs_infos, code) {
            Some(Some(a)) => prev.push((translate_abs_spec(joystick, code), axis_info_spec(a))),
            _ => prev,
        }
    }
}

/// The bus that a Linux `BUS_*` identifier stands for, among those that are known.
pub open spec fn bus_from_bustype_spec(t: i32) -> Option<Bus> {
    if t == BUS_PCI {
        Some(Bus::Pci)
    } else if t == BUS_USB {
        Some(Bus::Usb)
    } else if t == BUS_BLUETOOTH {
        Some(Bus::Bluetooth)
    } else if t == BUS_VIRTUAL {
        Some(Bus::Virtual)
    } else {
        None
    }
}

/// The bus that udev's `ID_BUS` names, among those that are known.
pub open spec fn bus_from_udev_spec(s: Seq<char>) -> Option<Bus> {
    if s == "usb"@ {
        Some(Bus::Usb)
    } else if s == "pci"@ {
        Some(Bus::Pci)
    } else if s == "bluetooth"@ {
        Some(Bus::Bluetooth)
    } else if s == "virtual"@ {
        Some(Bus::Virtual)
    } else {
        None
    }
}

fn abs_info_of(abs_infos: &Vec<(u16, Option<InputAbsinfo>)>, code: u16) -> (r: Option<
    Option<InputAbsinfo>,
>)
    ensures
        r == abs_lookup(abs_infos@, code),
{
    let mut i: usize = 0;
    assert(abs_infos@.subrange(0, abs_infos@.len() as int) =~= abs_infos@);
    while i < abs_infos.len()
        invariant
            i <= abs_infos.len(),
            abs_lookup(abs_infos@, code) == abs_lookup(abs_infos@.subrange(i as int, abs_infos@.len() as int), code),
        decreases abs_infos.len() - i,
    {
        let ghost rest = abs_infos@.subrange(i as int, abs_infos@.len() as int);
        assert(rest.drop_first() =~= abs_infos@.subrange(i + 1, abs_infos@.len() as int));
        if abs_infos[i].0 == code {
            return Some(abs_infos[i].1);
        }
        i = i + 1;
    }
    None
}

impl Linuxdev {
    /// The controller flag that udev gives.
    pub open spec fn is_a_controller_spec(&self) -> bool {
        self.udev_props.id_input_joystick
    }

    /// Where the device was opened through evdev, each of its buttons and axes appears once.
    pub open spec fn evdev_wf(&self) -> bool {
        self.evdev matches Some(e) ==> buttons_distinct(e.buttons@) && keys_distinct(e.axes@)
    }

    /// Is this device a joystick, as evdev says?
    pub open spec fn is_a_joystick_spec(&self) -> bool {
        self.is_a_controller_spec() && match self.evdev {
            Some(e) => e.props.is_a_joystick,
            None => false,
        }
    }

    /// The device's name: evdev's, else udev's.
    pub open spec fn name_spec(&self) -> Option<Seq<char>> {
        match self.evdev {
            Some(e) => Some(e.props.name@),
            None => self.udev_props.name_spec(),
        }
    }

    /// The device's name: evdev's, else udev's.
    pub fn name(&self) -> (r: Option<&str>)
        ensures
            match r {
                Some(s) => self.name_spec() == Some(s@),
                None => self.name_spec() is None,
            },
    {
        match &self.evdev {
            Some(e) => Some(e.props.name.as_str()),
            None => self.udev_props.name(),
        }
    }

    /// How the device is shown in messages.
    pub fn display(&self) -> (r: LinuxdevDisplay)
        ensures
            r.name@ == match self.name_spec() {
                Some(n) => n,
                None => "???"@,
            },
    {
        match &self.evdev {
            Some(e) => e.props.display(),
            None => self.udev_props.display(),
        }
    }

    /// The USB product ID: evdev's, else udev's.
    pub fn product_id(&self) -> (r: Option<u16>)
        ensures
            r == match self.evdev {
                Some(e) => Some(e.props.id_product),
                None => self.udev_props.id_model_id,
            },
    {
        match &self.evdev {
            Some(e) => Some(e.props.id_product),
            None => self.udev_props.id_model_id,
        }
    }

    /// The USB vendor ID: evdev's, else udev's.
    pub fn vendor_id(&self) -> (r: Option<u16>)
        ensures
            r == match self.evdev {
                Some(e) => Some(e.props.id_vendor),
                None => self.udev_props.id_vendor_id,
            },
    {
        match &self.evdev {
            Some(e) => Some(e.props.id_vendor),
            None => self.udev_props.id_vendor_id,
        }
    }

    /// The USB driver's name, as udev gives it.
    pub fn driver_name(&self) -> (r: Option<String>)
        ensures
            opt_view(r) == opt_view(self.udev_props.id_usb_driver),
    {
        match &self.udev_props.id_usb_driver {
            Some(s) => Some(s.clone()),
            None => None,
        }
    }

    /// The driver version that evdev gives, written `major.minor.patch`.
    pub open spec fn driver_version_spec(&self) -> Option<Seq<char>> {
        match self.evdev {
            Some(e) => Some(
                decimal_spec(e.props.driver_version.major as nat) + seq!['.']
                    + decimal_spec(e.props.driver_version.minor as nat) + seq!['.']
                    + decimal_spec(e.props.driver_version.patch as nat),
            ),
            None => None,
        }
    }

    /// The driver version that evdev gives, written `major.minor.patch`.
    pub fn driver_version(&self) -> (r: Option<String>)
        ensures
            opt_view(r) == self.driver_version_spec(),
    {
        match &self.evdev {
            Some(e) => {
                proof {
                    reveal_strlit(".");
                }
                let v = e.props.driver_version;
                let mut s = String::new();
                push_decimal(&mut s, v.major as u64);
                s.append(".");
                push_decimal(&mut s, v.minor as u64);
                s.append(".");
                push_decimal(&mut s, v.patch as u64);
                assert(s@ =~= decimal_spec(v.major as nat) + seq!['.'] + decimal_spec(v.minor as nat)
                    + seq!['.'] + decimal_spec(v.patch as nat));
                Some(s)
            },
            None => None,
        }
    }

    /// The bus the device is plugged into: as evdev gives it, else as udev names it.
    pub open spec fn bus_spec(&self) -> Option<Bus> {
        let via_evdev = match self.evdev {
            Some(e) => bus_from_bustype_spec(e.props.id_bustype),
            None => None,
        };
        let via_udev = match self.udev_props.id_bus {
            Some(s) => bus_from_udev_spec(s@),
            None => None,
        };
        match via_evdev {
            Some(b) => Some(b),
            None => via_udev,
        }
    }

    /// The bus the device is plugged into: as evdev gives it, else as udev names it.
    pub fn bus(&self) -> (r: Option<Bus>)
        ensures
            r == self.bus_spec(),
    {
        let via_evdev = match &self.evdev {
            Some(e) => {
                let t = e.props.id_bustype;
                if t == BUS_PCI {
                    Some(Bus::Pci)
                } else if t == BUS_USB {
                    Some(Bus::Usb)
                } else if t == BUS_BLUETOOTH {
                    Some(Bus::Bluetooth)
                } else if t == BUS_VIRTUAL {
                    Some(Bus::Virtual)
                } else {
                    None
                }
            },
            None => None,
        };
        if via_evdev.is_some() {
            return via_evdev;
        }
        match &self.udev_props.id_bus {
            Some(s) => {
                let s = s.as_str();
                if str_equals(s, "usb") {
                    Some(Bus::Usb)
                } else if str_equals(s, "pci") {
                    Some(Bus::Pci)
                } else if str_equals(s, "bluetooth") {
                    Some(Bus::Bluetooth)
                } else if str_equals(s, "virtual") {
                    Some(Bus::Virtual)
                } else {
                    None
                }
            },
            None => None,
        }
    }

    /// Is this a controller whose node is an evdev node?
    pub fn is_a_controller_and_evdev_node(&self) -> (r: bool)
        ensures
            r == (self.is_a_controller_spec() && self.event_api == Some(LinuxEventAPI::Evdev)),
    {
        self.is_a_controller() && match self.event_api {
            Some(LinuxEventAPI::Evdev) => true,
            _ => false,
        }
    }

    /// Is this a game controller, as udev says?
    pub fn is_a_controller(&self) -> (r: bool)
        ensures
            r == self.is_a_controller_spec(),
    {
        self.udev_props.is_a_controller()
    }

    /// Is this a gamepad, as evdev says?
    pub fn is_a_gamepad(&self) -> (r: bool)
        ensures
            r == (self.is_a_controller_spec() && match self.evdev {
                Some(e) => e.props.is_a_gamepad,
                None => false,
            }),
    {
        self.is_a_controller() && match &self.evdev {
            Some(e) => e.props.is_a_gamepad,
            None => false,
        }
    }

    /// Is this a steering wheel, as evdev says?
    pub fn is_a_steering_wheel(&self) -> (r: bool)
        ensures
            r == (self.is_a_controller_spec() && match self.evdev {
                Some(e) => e.props.is_a_steering_wheel,
                None => false,
            }),
    {
        self.is_a_controller() && match &self.evdev {
            Some(e) => e.props.is_a_steering_wheel,
            None => false,
        }
    }

    /// Is this a joystick, as evdev says?
    pub fn is_a_joystick(&self) -> (r: bool)
        ensures
            r == self.is_a_joystick_spec(),
    {
        self.is_a_controller() && match &self.evdev {
            Some(e) => e.props.is_a_joystick,
            None => false,
        }
    }

    /// Can the device rumble? It must have been opened for writing, and evdev must say so.
    pub fn supports_rumble(&self) -> (r: bool)
        ensures
            r == (self.fd_has_write_access && match self.evdev {
                Some(e) => e.props.supports_rumble,
                None => false,
            }),
    {
        self.fd_has_write_access && match &self.evdev {
            Some(e) => e.props.supports_rumble,
            None => false,
        }
    }

    /// When udev initialized the device, in microseconds; 0 where udev did not say.
    pub fn plug_usecs(&self) -> (r: u64)
        ensures
            r == match self.udev_props.usec_initialized {
                Some(u) => u,
                None => 0,
            },
    {
        match self.udev_props.usec_initialized {
            Some(u) => u,
            None => 0,
        }
    }

    /// The current udev time, given how long ago udev initialized the device.
    pub fn usecs_now(&self, usecs_since_initialized: u64) -> (r: u64)
        ensures
            r as int == crate::time_utils::clamp_u64(
                match self.udev_props.usec_initialized {
                    Some(u) => u as int,
                    None => 0,
                } + usecs_since_initialized,
            ),
    {
        self.plug_usecs().saturating_add(usecs_since_initialized)
    }

    /// When the device was plugged in.
    pub fn plug_instant(&self) -> (r: EventInstant)
        ensures
            r == EventInstant(OsEventInstant::UdevUsecs(match self.udev_props.usec_initialized {
                Some(u) => u,
                None => 0,
            })),
    {
        EventInstant(OsEventInstant::UdevUsecs(self.plug_usecs()))
    }

    /// The current instant, given how long ago udev initialized the device.
    pub fn instant_now(&self, usecs_since_initialized: u64) -> (r: EventInstant)
        ensures
            r matches EventInstant(OsEventInstant::UdevUsecs(u)) && u as int
                == crate::time_utils::clamp_u64(
                match self.udev_props.usec_initialized {
                    Some(u) => u as int,
                    None => 0,
                } + usecs_since_initialized,
            ),
    {
        EventInstant(OsEventInstant::UdevUsecs(self.usecs_now(usecs_since_initialized)))
    }

    /// The button that a key code stands for.
    pub fn translate_ev_key(&self, code: u16) -> (r: ControllerButton)
        ensures
            r == button_from_code_spec(code),
    {
        controller_button_from_ev_key_code(code)
    }

    /// The key code of a button.
    pub fn untranslate_ev_key(&self, button: ControllerButton) -> (r: Option<u16>)
        ensures
            r == button_to_code_spec(button),
    {
        controller_button_to_ev_key_code(button)
    }

    /// The axis that an absolute-axis code stands for on this device.
    pub fn translate_ev_abs(&self, code: u16) -> (r: ControllerAxis)
        ensures
            r == translate_abs_spec(self.is_a_joystick_spec(), code),
    {
        if self.is_a_joystick() {
            controller_axis_from_ev_abs_code_for_joysticks(code)
        } else {
            controller_axis_from_ev_abs_code_for_gamepads_or_steering_wheels(code)
        }
    }

    /// The absolute-axis code of an axis on this device.
    pub fn untranslate_ev_abs(&self, axis: ControllerAxis) -> (r: Option<u16>)
        ensures
            r == untranslate_abs_spec(self.is_a_joystick_spec(), axis),
    {
        if self.is_a_joystick() {
            controller_axis_to_ev_abs_code_for_joysticks(axis)
        } else {
            controller_axis_to_ev_abs_code_for_gamepads_or_steering_wheels(axis)
        }
    }

    /// The buttons that the device has, among those that controllers have.
    pub fn evdev_all_controller_buttons_support(&self) -> (r: Vec<ControllerButton>)
        requires
            self.evdev is Some,
        ensures
            r@ == supported_buttons_spec(self.evdev.unwrap().key_codes@, all_btn_codes()),
    {
        let evdev = self.evdev.as_ref().unwrap();
        let codes = all_btn_codes_vec();
        let mut all_buttons: Vec<ControllerButton> = Vec::new();
        let mut i: usize = 0;
        while i < codes.len()
            invariant
                i <= codes.len(),
                codes@ == all_btn_codes(),
                all_buttons@ == supported_buttons_spec(evdev.key_codes@, codes@.subrange(0, i as int)),
            decreases codes.len() - i,
        {
            let code = codes[i];
            assert(codes@.subrange(0, i + 1).drop_last() =~= codes@.subrange(0, i as int));
            if super::props::has_code(&evdev.key_codes, code) {
                all_buttons.push(self.translate_ev_key(code));
            }
            i = i + 1;
        }
        assert(codes@.subrange(0, codes@.len() as int) =~= codes@);
        all_buttons
    }

    /// The axes that the device has, among those that controllers have, with their limits.
    pub fn evdev_all_controller_axes_support(&self) -> (r: Vec<(ControllerAxis, LinuxdevAxisInfo)>)
        requires
            self.evdev is Some,
        ensures
            r@ == supported_axes_spec(
                self.is_a_joystick_spec(),
                self.evdev.unwrap().abs_infos@,
                all_abs_codes(),
            ),
    {
        let evdev = self.evdev.as_ref().unwrap();
        let codes = all_abs_codes_vec();
        let mut all_axes: Vec<(ControllerAxis, LinuxdevAxisInfo)> = Vec::new();
        let mut i: usize = 0;
        while i < codes.len()
            invariant
                i <= codes.len(),
                codes@ == all_abs_codes(),
                self.evdev is Some,
                evdev == self.evdev.unwrap(),
                all_axes@ == supported_axes_spec(
                    self.is_a_joystick_spec(),
                    evdev.abs_infos@,
                    codes@.subrange(0, i as int),
                ),
            decreases codes.len() - i,
        {
            let code = codes[i];
            assert(codes@.subrange(0, i + 1).drop_last() =~= codes@.subrange(0, i as int));
            match abs_info_of(&evdev.abs_infos, code) {
                Some(Some(a)) => {
                    let info = axis_info_from_linux_absinfo(&a);
                    all_axes.push((self.translate_ev_abs(code), info));
                },
                _ => {},
            }
            i = i + 1;
        }
        assert(codes@.subrange(0, codes@.len() as int) =~= codes@);
        all_axes
    }

    /// Fills in the buttons that the device has.
    pub fn evdev_refresh_all_controller_buttons_support(&mut self)
        requires
            old(self).evdev is Some,
        ensures
            final(self).evdev is Some,
            final(self).evdev.unwrap().buttons@ == supported_buttons_spec(
                old(self).evdev.unwrap().key_codes@,
                all_btn_codes(),
            ),
            final(self).evdev.unwrap().axes@ == old(self).evdev.unwrap().axes@,
            final(self).evdev.unwrap().key_codes@ == old(self).evdev.unwrap().key_codes@,
            final(self).evdev.unwrap().abs_infos@ == old(self).evdev.unwrap().abs_infos@,
            final(self).evdev.unwrap().props == old(self).evdev.unwrap().props,
            final(self).evdev.unwrap().rumble_ff_id == old(self).evdev.unwrap().rumble_ff_id,
            final(self).udev_props == old(self).udev_props,
            final(self).device_node == old(self).device_node,
            final(self).fd_is_open == old(self).fd_is_open,
            final(self).fd_has_write_access == old(self).fd_has_write_access,
            final(self).event_api == old(self).event_api,
    {
        let buttons = self.evdev_all_controller_buttons_support();
        let mut evdev = self.evdev.take().unwrap();
        evdev.buttons = buttons;
        self.evdev = Some(evdev);
    }

    /// Fills in the axes that the device has.
    pub fn evdev_refresh_all_controller_axes_support(&mut self)
        requires
            old(self).evdev is Some,
        ensures
            final(self).evdev is Some,
            final(self).evdev.unwrap().axes@ == supported_axes_spec(
                old(self).is_a_joystick_spec(),
                old(self).evdev.unwrap().abs_infos@,
                all_abs_codes(),
            ),
            final(self).evdev.unwrap().buttons@ == old(self).evdev.unwrap().buttons@,
            final(self).evdev.unwrap().key_codes@ == old(self).evdev.unwrap().key_codes@,
            final(self).evdev.unwrap().abs_infos@ == old(self).evdev.unwrap().abs_infos@,
            final(self).evdev.unwrap().props == old(self).evdev.unwrap().props,
            final(self).evdev.unwrap().rumble_ff_id == old(self).evdev.unwrap().rumble_ff_id,
            final(self).udev_props == old(self).udev_props,
            final(self).device_node == old(self).device_node,
            final(self).fd_is_open == old(self).fd_is_open,
            final(self).fd_has_write_access == old(self).fd_has_write_access,
            final(self).event_api == old(self).event_api,
    {
        let axes = self.evdev_all_controller_axes_support();
        let mut evdev = self.evdev.take().unwrap();
        evdev.axes = axes;
        self.evdev = Some(evdev);
    }
}

} // verus!
