//! What udev and evdev tell about a device, and how it is read: tokens, udev actions,
//! device nodes, udev properties and evdev properties.

use vstd::prelude::*;
use crate::strings::{has_prefix, parse_unsigned, parse_unsigned_spec, starts_with_at, str_equals};
use super::codes::{
    ABS_WHEEL, BTN_GAMEPAD, BTN_JOYSTICK, BTN_WHEEL, FF_RUMBLE,
};

verus! {

/// A context-specific identifier for a device known through udev and evdev.
#[derive(Debug, Copy, Clone, Hash, PartialEq, Eq, Structural)]
pub struct LinuxdevToken(pub u32);

/// Hands out tokens: each call gives the next one, wrapping around after `u32::MAX`.
#[derive(Debug, Hash, PartialEq, Eq, Structural)]
pub struct LinuxdevTokenGenerator {
    next: LinuxdevToken,
}

/// The token that a generator about to hand out `start` gives at its `k`-th call from now.
pub open spec fn token_after(start: u32, k: nat) -> u32 {
    ((start as nat + k) % 0x1_0000_0000) as u32
}

impl LinuxdevTokenGenerator {
    /// The value of the token that the next call hands out.
    pub closed spec fn next_value(&self) -> u32 {
        self.next.0
    }

    /// A generator that starts at token 0.
    pub fn new() -> (g: LinuxdevTokenGenerator)
        ensures
            g.next_value() == 0,
    {
        LinuxdevTokenGenerator { next: LinuxdevToken(0) }
    }

    /// Hands out the next token.
    pub fn next_token(&mut self) -> (t: LinuxdevToken)
        ensures
            t.0 == old(self).next_value(),
            final(self).next_value() == token_after(old(self).next_value(), 1),
    {
        let t = self.next;
        self.next = LinuxdevToken(t.0.wrapping_add(1));
        t
    }
}

/// Tokens handed out by one generator are all different, until `u32::MAX + 1` of them
/// have been handed out.
pub proof fn lemma_tokens_distinct(start: u32, i: nat, j: nat)
    requires
        i < j < 0x1_0000_0000,
    ensures
        token_after(start, i) != token_after(start, j),
{
    let a = start as nat + i;
    let b = start as nat + j;
    assert(a % 0x1_0000_0000 != b % 0x1_0000_0000) by (nonlinear_arith)
        requires
            a < b,
            b - a < 0x1_0000_0000,
    {
        vstd::arithmetic::div_mod::lemma_fundamental_div_mod(a as int, 0x1_0000_0000);
        vstd::arithmetic::div_mod::lemma_fundamental_div_mod(b as int, 0x1_0000_0000);
    }
}

/// Handing out tokens `k` times then once more is handing them out `k + 1` times.
pub proof fn lemma_token_after_step(start: u32, k: nat)
    ensures
        token_after(token_after(start, k), 1) == token_after(start, k + 1),
{
    let a = start as nat + k;
    assert(((a % 0x1_0000_0000) + 1) % 0x1_0000_0000 == (a + 1) % 0x1_0000_0000) by {
        vstd::arithmetic::div_mod::lemma_add_mod_noop(a as int, 1, 0x1_0000_0000);
        vstd::arithmetic::div_mod::lemma_mod_twice(a as int, 0x1_0000_0000);
    }
}

/// What happened to a device, as the udev monitor reports it.
#[derive(Debug, Clone, Hash, PartialEq, Eq)]
pub enum UdevDeviceAction {
    Add,
    Remove,
    Change,
    Move,
    Online,
    Offline,
    Other(String),
}

impl UdevDeviceAction {
    /// Reads an action name as udev writes it.
    pub fn from_cstr(action: &str) -> (r: UdevDeviceAction)
        ensures
            (r is Add) <==> action@ == "add"@,
            (r is Remove) <==> action@ == "remove"@,
            (r is Move) <==> action@ == "move"@,
            (r is Change) <==> action@ == "change"@,
            (r is Online) <==> action@ == "online"@,
            (r is Offline) <==> action@ == "offline"@,
            r matches UdevDeviceAction::Other(o) ==> o@ == action@,
    {
        proof {
            reveal_strlit("add");
            reveal_strlit("remove");
            reveal_strlit("move");
            reveal_strlit("change");
            reveal_strlit("online");
            reveal_strlit("offline");
            assert("add"@[0] == 'a' && "remove"@[0] == 'r' && "move"@[0] == 'm');
            assert("change"@[0] == 'c' && "online"@[1] == 'n' && "offline"@[1] == 'f');
        }
        if str_equals(action, "add") {
            UdevDeviceAction::Add
        } else if str_equals(action, "remove") {
            UdevDeviceAction::Remove
        } else if str_equals(action, "move") {
            UdevDeviceAction::Move
        } else if str_equals(action, "change") {
            UdevDeviceAction::Change
        } else if str_equals(action, "online") {
            UdevDeviceAction::Online
        } else if str_equals(action, "offline") {
            UdevDeviceAction::Offline
        } else {
            UdevDeviceAction::Other(action.to_owned())
        }
    }
}

/// The kernel interface that a device node belongs to.
#[derive(Debug, Copy, Clone, Hash, PartialEq, Eq, Structural)]
pub enum LinuxEventAPI {
    /// `/dev/input/eventN`.
    Evdev,
    /// `/dev/input/jsN`.
    Joydev,
}

/// The index of the last `c` in `s`, or -1.
pub open spec fn last_index_of(s: Seq<char>, c: char) -> int
    decreases s.len(),
{
    if s.len() == 0 {
        -1
    } else if s.last() == c {
        s.len() - 1
    } else {
        last_index_of(s.drop_last(), c)
    }
}

proof fn lemma_last_index_of_bounds(s: Seq<char>, c: char)
    ensures
        -1 <= last_index_of(s, c) < s.len(),
        last_index_of(s, c) >= 0 ==> s[last_index_of(s, c)] == c,
        forall|j: int| last_index_of(s, c) < j < s.len() ==> s[j] != c,
    decreases s.len(),
{
    if s.len() > 0 && s.last() != c {
        lemma_last_index_of_bounds(s.drop_last(), c);
        assert forall|j: int| last_index_of(s, c) < j < s.len() implies s[j] != c by {
            if j < s.len() - 1 {
                assert(s.drop_last()[j] == s[j]);
            }
        }
    }
}

/// The interface of a device node, from its file name: the part after its last `/`.
pub open spec fn event_api_spec(devnode: Seq<char>) -> Option<LinuxEventAPI> {
    let tail = devnode.subrange(last_index_of(devnode, '/'), devnode.len() as int);
    if has_prefix(tail, "/event"@) {
        Some(LinuxEventAPI::Evdev)
    } else if has_prefix(tail, "/js"@) {
        Some(LinuxEventAPI::Joydev)
    } else {
        None
    }
}

/// The interface of a device node, given as a path with at least one `/`.
pub fn event_api_of_devnode(devnode: &str) -> (r: Option<LinuxEventAPI>)
    requires
        last_index_of(devnode@, '/') >= 0,
    ensures
        r == event_api_spec(devnode@),
{
    proof {
        lemma_last_index_of_bounds(devnode@, '/');
    }
    let n = devnode.unicode_len();
    let mut i: usize = n;
    while i > 0 && devnode.get_char(i - 1) != '/'
        invariant
            n == devnode@.len(),
            i <= n,
            last_index_of(devnode@, '/') < i,
            forall|j: int| last_index_of(devnode@, '/') < j < n ==> devnode@[j] != '/',
            last_index_of(devnode@, '/') >= 0,
            devnode@[last_index_of(devnode@, '/')] == '/',
        decreases i,
    {
        i = i - 1;
    }
    let last_slash = i - 1;
    assert(last_slash == last_index_of(devnode@, '/'));
    if starts_with_at(devnode, last_slash, "/event") {
        Some(LinuxEventAPI::Evdev)
    } else if starts_with_at(devnode, last_slash, "/js") {
        Some(LinuxEventAPI::Joydev)
    } else {
        None
    }
}

/// `s` without its enclosing double quotes, if it starts and ends with one.
pub open spec fn remove_quotes_spec(s: Seq<char>) -> Seq<char> {
    if s.len() >= 2 && s[0] == '"' && s[s.len() - 1] == '"' {
        s.subrange(1, s.len() - 1)
    } else if s.len() == 1 && s[0] == '"' {
        Seq::empty()
    } else {
        s
    }
}

/// Removes the double quotes around `s`, if it starts and ends with one.
pub fn remove_quotes_if_any(s: String) -> (r: String)
    ensures
        r@ == remove_quotes_spec(s@),
{
    let n = s.as_str().unicode_len();
    if n >= 1 && s.as_str().get_char(0) == '"' && s.as_str().get_char(n - 1) == '"' {
        if n == 1 {
            String::new()
        } else {
            String::from_str(s.as_str().substring_char(1, n - 1))
        }
    } else {
        s
    }
}

/// A udev property that holds a boolean: true when it is set and its value starts with `1`.
pub open spec fn udev_flag_spec(value: Option<Seq<char>>) -> bool {
    match value {
        Some(v) => v[0] == '1',
        None => false,
    }
}

/// The view of an optional string.
pub open spec fn opt_view(s: Option<String>) -> Option<Seq<char>> {
    match s {
        Some(v) => Some(v@),
        None => None,
    }
}

/// Reads a boolean udev property; a set property is never empty.
pub fn udev_prop_bool(value: &Option<String>) -> (r: bool)
    requires
        value matches Some(v) ==> v@.len() > 0,
    ensures
        r == udev_flag_spec(opt_view(*value)),
{
    match value {
        Some(v) => v.as_str().get_char(0) == '1',
        None => false,
    }
}

/// The udev properties of a device, as strings, each present when udev set it.
#[derive(Debug, Clone)]
pub struct UdevPropertyStrings {
    pub usec_initialized: Option<String>,
    pub name: Option<String>,
    pub parent_name: Option<String>,
    pub id_usb_driver: Option<String>,
    pub id_bus: Option<String>,
    pub id_serial: Option<String>,
    pub id_model: Option<String>,
    pub id_vendor: Option<String>,
    pub id_model_id: Option<String>,
    pub id_vendor_id: Option<String>,
    pub id_input: Option<String>,
    pub id_input_joystick: Option<String>,
    pub id_input_accelerometer: Option<String>,
    pub id_input_key: Option<String>,
    pub id_input_keyboard: Option<String>,
    pub id_input_mouse: Option<String>,
    pub id_input_pointingstick: Option<String>,
    pub id_input_switch: Option<String>,
    pub id_input_tablet: Option<String>,
    pub id_input_tablet_pad: Option<String>,
    pub id_input_touchpad: Option<String>,
    pub id_input_touchscreen: Option<String>,
    pub id_input_trackball: Option<String>,
}

/// What the udev properties of a device say, in a form convenient to use.
#[derive(Debug, Clone, Hash, PartialEq, Eq)]
pub struct UdevProps {
    pub usec_initialized: Option<u64>,
    pub name: Option<String>,
    pub parent_name: Option<String>,
    pub id_usb_driver: Option<String>,
    pub id_bus: Option<String>,
    pub id_serial: Option<String>,
    pub id_model: Option<String>,
    pub id_vendor: Option<String>,
    pub id_model_id: Option<u16>,
    pub id_vendor_id: Option<u16>,
    pub id_input: bool,
    pub id_input_joystick: bool,
    pub id_input_accelerometer: bool,
    pub id_input_key: bool,
    pub id_input_keyboard: bool,
    pub id_input_mouse: bool,
    pub id_input_pointingstick: bool,
    pub id_input_switch: bool,
    pub id_input_tablet: bool,
    pub id_input_tablet_pad: bool,
    pub id_input_touchpad: bool,
    pub id_input_touchscreen: bool,
    pub id_input_trackball: bool,
}

/// The number that an optional udev property writes in base `radix`, at most `max`.
pub open spec fn parsed_prop(value: Option<Seq<char>>, radix: nat, max: nat) -> Option<nat> {
    match value {
        Some(v) => parse_unsigned_spec(v, radix, max),
        None => None,
    }
}

/// A property that, when set, must write a number in base `radix` no larger than `max`.
pub open spec fn parses_if_set(value: Option<Seq<char>>, radix: nat, max: nat) -> bool {
    value matches Some(v) ==> parse_unsigned_spec(v, radix, max) is Some
}

/// A boolean property that, when set, is not empty.
pub open spec fn nonempty_if_set(value: Option<Seq<char>>) -> bool {
    value matches Some(v) ==> v.len() > 0
}

/// The udev property strings that udev always writes well: numbers where numbers are
/// expected, and no empty boolean.
pub open spec fn udev_strings_well_formed(p: UdevPropertyStrings) -> bool {
    &&& parses_if_set(opt_view(p.usec_initialized), 10, u64::MAX as nat)
    &&& parses_if_set(opt_view(p.id_model_id), 16, u16::MAX as nat)
    &&& parses_if_set(opt_view(p.id_vendor_id), 16, u16::MAX as nat)
    &&& nonempty_if_set(opt_view(p.id_input))
    &&& nonempty_if_set(opt_view(p.id_input_joystick))
    &&& nonempty_if_set(opt_view(p.id_input_accelerometer))
    &&& nonempty_if_set(opt_view(p.id_input_key))
    &&& nonempty_if_set(opt_view(p.id_input_keyboard))
    &&& nonempty_if_set(opt_view(p.id_input_mouse))
    &&& nonempty_if_set(opt_view(p.id_input_pointingstick))
    &&& nonempty_if_set(opt_view(p.id_input_switch))
    &&& nonempty_if_set(opt_view(p.id_input_tablet))
    &&& nonempty_if_set(opt_view(p.id_input_tablet_pad))
    &&& nonempty_if_set(opt_view(p.id_input_touchpad))
    &&& nonempty_if_set(opt_view(p.id_input_touchscreen))
    &&& nonempty_if_set(opt_view(p.id_input_trackball))
}

/// An optional number matches an optional parse.
pub open spec fn opt_num_matches(r: Option<u64>, p: Option<nat>) -> bool {
    match (r, p) {
        (Some(a), Some(b)) => a as nat == b,
        (None, None) => true,
        _ => false,
    }
}

/// An optional 16-bit number matches an optional parse.
pub open spec fn opt_u16_matches(r: Option<u16>, p: Option<nat>) -> bool {
    match (r, p) {
        (Some(a), Some(b)) => a as nat == b,
        (None, None) => true,
        _ => false,
    }
}

/// A name as udev writes it, with its enclosing quotes removed.
pub open spec fn unquoted(value: Option<Seq<char>>) -> Option<Seq<char>> {
    match value {
        Some(v) => Some(remove_quotes_spec(v)),
        None => None,
    }
}

/// The udev properties that `p` writes.
pub open spec fn udev_props_match(r: UdevProps, p: UdevPropertyStrings) -> bool {
    &&& opt_num_matches(r.usec_initialized, parsed_prop(opt_view(p.usec_initialized), 10, u64::MAX as nat))
    &&& opt_u16_matches(r.id_model_id, parsed_prop(opt_view(p.id_model_id), 16, u16::MAX as nat))
    &&& opt_u16_matches(r.id_vendor_id, parsed_prop(opt_view(p.id_vendor_id), 16, u16::MAX as nat))
    &&& opt_view(r.name) == unquoted(opt_view(p.name))
    &&& opt_view(r.parent_name) == unquoted(opt_view(p.parent_name))
    &&& opt_view(r.id_usb_driver) == opt_view(p.id_usb_driver)
    &&& opt_view(r.id_bus) == opt_view(p.id_bus)
    &&& opt_view(r.id_serial) == opt_view(p.id_serial)
    &&& opt_view(r.id_model) == opt_view(p.id_model)
    &&& opt_view(r.id_vendor) == opt_view(p.id_vendor)
    &&& r.id_input == udev_flag_spec(opt_view(p.id_input))
    &&& r.id_input_joystick == udev_flag_spec(opt_view(p.id_input_joystick))
    &&& r.id_input_accelerometer == udev_flag_spec(opt_view(p.id_input_accelerometer))
    &&& r.id_input_key == udev_flag_spec(opt_view(p.id_input_key))
    &&& r.id_input_keyboard == udev_flag_spec(opt_view(p.id_input_keyboard))
    &&& r.id_input_mouse == udev_flag_spec(opt_view(p.id_input_mouse))
    &&& r.id_input_pointingstick == udev_flag_spec(opt_view(p.id_input_pointingstick))
    &&& r.id_input_switch == udev_flag_spec(opt_view(p.id_input_switch))
    &&& r.id_input_tablet == udev_flag_spec(opt_view(p.id_input_tablet))
    &&& r.id_input_tablet_pad == udev_flag_spec(opt_view(p.id_input_tablet_pad))
    &&& r.id_input_touchpad == udev_flag_spec(opt_view(p.id_input_touchpad))
    &&& r.id_input_touchscreen == udev_flag_spec(opt_view(p.id_input_touchscreen))
    &&& r.id_input_trackball == udev_flag_spec(opt_view(p.id_input_trackball))
}

fn parse_prop(value: &Option<String>, radix: u32, max: u64) -> (r: Option<u64>)
    requires
        2 <= radix <= 36,
        parses_if_set(opt_view(*value), radix as nat, max as nat),
    ensures
        opt_num_matches(r, parsed_prop(opt_view(*value), radix as nat, max as nat)),
        r matches Some(v) ==> v <= max,
{
    match value {
        Some(v) => {
            let p = parse_unsigned(v.as_str(), radix, max);
            match p {
                Some(x) => Some(x),
                None => None,
            }
        },
        None => None,
    }
}

fn unquote_opt(value: &Option<String>) -> (r: Option<String>)
    ensures
        opt_view(r) == unquoted(opt_view(*value)),
{
    match value {
        Some(v) => Some(remove_quotes_if_any(v.clone())),
        None => None,
    }
}

fn clone_opt(value: &Option<String>) -> (r: Option<String>)
    ensures
        opt_view(r) == opt_view(*value),
{
    match value {
        Some(v) => Some(v.clone()),
        None => None,
    }
}

impl UdevProps {
    /// Reads the udev properties of a device.
    pub fn from_properties(p: &UdevPropertyStrings) -> (r: UdevProps)
        requires
            udev_strings_well_formed(*p),
        ensures
            udev_props_match(r, *p),
    {
        let model_id = parse_prop(&p.id_model_id, 16, 0xffff);
        let vendor_id = parse_prop(&p.id_vendor_id, 16, 0xffff);
        UdevProps {
            usec_initialized: parse_prop(&p.usec_initialized, 10, u64::MAX),
            name: unquote_opt(&p.name),
            parent_name: unquote_opt(&p.parent_name),
            id_usb_driver: clone_opt(&p.id_usb_driver),
            id_bus: clone_opt(&p.id_bus),
            id_serial: clone_opt(&p.id_serial),
            id_model: clone_opt(&p.id_model),
            id_vendor: clone_opt(&p.id_vendor),
            id_model_id: match model_id { Some(x) => Some(x as u16), None => None },
            id_vendor_id: match vendor_id { Some(x) => Some(x as u16), None => None },
            id_input: udev_prop_bool(&p.id_input),
            id_input_joystick: udev_prop_bool(&p.id_input_joystick),
            id_input_accelerometer: udev_prop_bool(&p.id_input_accelerometer),
            id_input_key: udev_prop_bool(&p.id_input_key),
            id_input_keyboard: udev_prop_bool(&p.id_input_keyboard),
            id_input_mouse: udev_prop_bool(&p.id_input_mouse),
            id_input_pointingstick: udev_prop_bool(&p.id_input_pointingstick),
            id_input_switch: udev_prop_bool(&p.id_input_switch),
            id_input_tablet: udev_prop_bool(&p.id_input_tablet),
            id_input_tablet_pad: udev_prop_bool(&p.id_input_tablet_pad),
            id_input_touchpad: udev_prop_bool(&p.id_input_touchpad),
            id_input_touchscreen: udev_prop_bool(&p.id_input_touchscreen),
            id_input_trackball: udev_prop_bool(&p.id_input_trackball),
        }
    }

    /// The device's name, else its parent's, as udev gives them.
    pub open spec fn name_spec(&self) -> Option<Seq<char>> {
        match self.name {
            Some(n) => Some(n@),
            None => opt_view(self.parent_name),
        }
    }

    /// The device's name, else its parent's, as udev gives them.
    pub fn name(&self) -> (r: Option<&str>)
        ensures
            match r {
                Some(s) => self.name_spec() == Some(s@),
                None => self.name_spec() is None,
            },
    {
        match &self.name {
            Some(n) => Some(n.as_str()),
            None => match &self.parent_name {
                Some(n) => Some(n.as_str()),
                None => None,
            },
        }
    }

    /// Is the device a game controller? udev says so of joysticks, gamepads and wheels alike.
    pub fn is_a_controller(&self) -> (r: bool)
        ensures
            r == self.id_input_joystick,
    {
        self.id_input_joystick
    }

    /// How the device is shown in messages: by its name, or `???`.
    pub fn display(&self) -> (r: LinuxdevDisplay)
        ensures
            r.name@ == match self.name_spec() {
                Some(n) => n,
                None => "???"@,
            },
    {
        match self.name() {
            Some(n) => LinuxdevDisplay { name: n.to_owned() },
            None => LinuxdevDisplay { name: "???".to_owned() },
        }
    }
}

/// How a device is shown in messages.
#[derive(Debug, Clone, Hash, PartialEq, Eq)]
pub struct LinuxdevDisplay {
    pub name: String,
}

impl LinuxdevDisplay {
    /// The name, between backquotes.
    pub fn to_display_string(&self) -> (r: String)
        ensures
            r@ == seq!['`'] + self.name@ + seq!['`'],
    {
        proof {
            reveal_strlit("`");
        }
        let mut s = String::from_str("`");
        s.append(self.name.as_str());
        s.append("`");
        s
    }
}

/// Key repetition settings of an evdev device.
#[derive(Debug, Copy, Clone, Hash, PartialEq, Eq, Structural)]
pub struct EvdevRepeat {
    pub delay: i32,
    pub period: i32,
}

/// The limits of an absolute axis, as the kernel's `input_absinfo` gives them.
#[derive(Debug, Copy, Clone, Hash, PartialEq, Eq, Structural)]
pub struct InputAbsinfo {
    pub value: i32,
    pub minimum: i32,
    pub maximum: i32,
    pub fuzz: i32,
    pub flat: i32,
    pub resolution: i32,
}

/// What libevdev answers about an open device.
#[derive(Debug, Clone)]
pub struct EvdevQueries {
    /// The device name, if libevdev has one.
    pub name: Option<String>,
    /// The driver version, as `EVIOCGVERSION` packs it, or -1.
    pub driver_version: i32,
    pub id_bustype: i32,
    pub id_product: i32,
    pub id_vendor: i32,
    /// The `EV_KEY` codes that the device has.
    pub key_codes: Vec<u16>,
    /// The `EV_ABS` codes that the device has, with their limits where libevdev gives them.
    pub abs_infos: Vec<(u16, Option<InputAbsinfo>)>,
    /// The `EV_FF` codes that the device has.
    pub ff_codes: Vec<u16>,
    /// The repetition settings, where libevdev gives them.
    pub repeat: Option<EvdevRepeat>,
    /// The number of force feedback effects that can play at once, where the ioctl succeeds.
    pub max_simultaneous_ff_effects: Option<i32>,
}

/// A driver version: major, minor and patch numbers.
#[derive(Debug, Copy, Clone, Hash, PartialEq, Eq, Structural)]
pub struct DriverVersion {
    pub major: u16,
    pub minor: u8,
    pub patch: u8,
}

/// What evdev says of a device, in a form convenient to use.
#[derive(Debug, Clone, Hash, PartialEq, Eq)]
pub struct EvdevProps {
    pub name: String,
    pub driver_version: DriverVersion,
    pub id_bustype: i32,
    pub id_product: u16,
    pub id_vendor: u16,
    pub is_a_steering_wheel: bool,
    pub is_a_gamepad: bool,
    pub is_a_joystick: bool,
    pub supports_rumble: bool,
    pub repeat: Option<EvdevRepeat>,
    pub max_simultaneous_ff_effects: i32,
}

/// A packed driver version, split into major, minor and patch numbers; -1 stands for a
/// device that libevdev could not ask.
pub open spec fn driver_version_spec(v: i32) -> DriverVersion {
    if v == -1 {
        DriverVersion { major: 0, minor: 0, patch: 0 }
    } else {
        DriverVersion {
            major: (v >> 16u32) as u16,
            minor: ((v >> 8u32) & 0xff) as u8,
            patch: (v & 0xff) as u8,
        }
    }
}

/// Splits a packed driver version.
pub fn decode_driver_version(v: i32) -> (r: DriverVersion)
    ensures
        r == driver_version_spec(v),
        v >= 0 ==> r.major == v / 0x10000 && r.minor == (v / 0x100) % 0x100 && r.patch == v % 0x100,
{
    if v == -1 {
        DriverVersion { major: 0, minor: 0, patch: 0 }
    } else {
        let major = (v >> 16u32) as u16;
        let minor = ((v >> 8u32) & 0xff) as u8;
        let patch = (v & 0xff) as u8;
        proof {
            if v >= 0 {
                assert(major == v / 0x10000) by (bit_vector)
                    requires
                        v >= 0,
                        major == (v >> 16u32) as u16,
                ;
                assert(minor == (v / 0x100) % 0x100) by (bit_vector)
                    requires
                        v >= 0,
                        minor == ((v >> 8u32) & 0xff) as u8,
                ;
                assert(patch == v % 0x100) by (bit_vector)
                    requires
                        v >= 0,
                        patch == (v & 0xff) as u8,
                ;
            }
        }
        DriverVersion { major, minor, patch }
    }
}

/// Does `codes` hold `code`?
pub fn has_code(codes: &Vec<u16>, code: u16) -> (r: bool)
    ensures
        r == codes@.contains(code),
{
    let mut i: usize = 0;
    while i < codes.len()
        invariant
            i <= codes.len(),
            forall|j: int| 0 <= j < i ==> codes@[j] != code,
        decreases codes.len() - i,
    {
        if codes[i] == code {
            return true;
        }
        i = i + 1;
    }
    false
}

/// What libevdev's answers say of a device.
pub open spec fn evdev_props_match(r: EvdevProps, q: EvdevQueries) -> bool {
    &&& r.name@ == match opt_view(q.name) {
        Some(n) => remove_quotes_spec(n),
        None => "???"@,
    }
    &&& r.driver_version == driver_version_spec(q.driver_version)
    &&& r.id_bustype == q.id_bustype
    &&& r.id_product == q.id_product as u16
    &&& r.id_vendor == q.id_vendor as u16
    &&& r.is_a_steering_wheel == (q.abs_infos@.map_values(|p: (u16, Option<InputAbsinfo>)| p.0).contains(ABS_WHEEL)
        || q.key_codes@.contains(BTN_WHEEL))
    &&& r.is_a_gamepad == q.key_codes@.contains(BTN_GAMEPAD)
    &&& r.is_a_joystick == q.key_codes@.contains(BTN_JOYSTICK)
    &&& r.supports_rumble == q.ff_codes@.contains(FF_RUMBLE)
    &&& r.repeat == q.repeat
    &&& r.max_simultaneous_ff_effects == match q.max_simultaneous_ff_effects {
        Some(m) => m,
        None => 0,
    }
}

/// Does `abs_infos` hold an entry for `code`?
pub fn has_abs_code(abs_infos: &Vec<(u16, Option<InputAbsinfo>)>, code: u16) -> (r: bool)
    ensures
        r == abs_infos@.map_values(|p: (u16, Option<InputAbsinfo>)| p.0).contains(code),
{
    let ghost codes = abs_infos@.map_values(|p: (u16, Option<InputAbsinfo>)| p.0);
    let mut i: usize = 0;
    while i < abs_infos.len()
        invariant
            i <= abs_infos.len(),
            codes == abs_infos@.map_values(|p: (u16, Option<InputAbsinfo>)| p.0),
            forall|j: int| 0 <= j < i ==> codes[j] != code,
        decreases abs_infos.len() - i,
    {
        if abs_infos[i].0 == code {
            assert(codes[i as int] == code);
            return true;
        }
        i = i + 1;
    }
    false
}

impl EvdevProps {
    /// Reads libevdev's answers about a device.
    pub fn from_queries(q: &EvdevQueries) -> (r: EvdevProps)
        ensures
            evdev_props_match(r, *q),
    {
        proof {
            reveal_strlit("???");
        }
        let name = match &q.name {
            Some(n) => remove_quotes_if_any(n.clone()),
            None => String::from_str("???"),
        };
        let has_abs_wheel = has_abs_code(&q.abs_infos, ABS_WHEEL);
        let has_btn_wheel = has_code(&q.key_codes, BTN_WHEEL);
        EvdevProps {
            name,
            driver_version: decode_driver_version(q.driver_version),
            id_bustype: q.id_bustype,
            id_product: q.id_product as u16,
            id_vendor: q.id_vendor as u16,
            is_a_steering_wheel: has_abs_wheel || has_btn_wheel,
            is_a_gamepad: has_code(&q.key_codes, BTN_GAMEPAD),
            is_a_joystick: has_code(&q.key_codes, BTN_JOYSTICK),
            supports_rumble: has_code(&q.ff_codes, FF_RUMBLE),
            repeat: q.repeat,
            max_simultaneous_ff_effects: match q.max_simultaneous_ff_effects {
                Some(m) => m,
                None => 0,
            },
        }
    }

    /// How the device is shown in messages: by its evdev name.
    pub fn display(&self) -> (r: LinuxdevDisplay)
        ensures
            r.name@ == self.name@,
    {
        LinuxdevDisplay { name: self.name.clone() }
    }
}

} // verus!
