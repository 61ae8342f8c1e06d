//! Building a device from what udev and libevdev answered, and the information that it
//! gives out: `OsDeviceInfo`, `OsControllerInfo` and `OsAxisInfo`.

use vstd::prelude::*;
use crate::device::{
    Bus, ButtonState, ControllerAxis, ControllerButton, DeviceID, KeyboardInfo, MouseInfo, UsbIDs,
    UsbProductInfo,
};
use crate::device::error::{Error, not_supported_by_device_unexplained};
use crate::event_instant::{EventInstant, OsEventInstant};
use crate::geom::Range;
use super::device::{
    Linuxdev, LinuxdevAxisInfo, LinuxdevEvdev, all_abs_codes, all_abs_codes_vec, all_btn_codes,
    all_btn_codes_vec, axis_values_spec, button_states_spec, keys_distinct, lemma_fetched_states_distinct,
    buttons_distinct, lemma_all_supported_distinct, supported_axes_spec, supported_buttons_spec,
};
use super::props::{
    EvdevQueries, LinuxEventAPI, UdevPropertyStrings, UdevProps, event_api_of_devnode,
    event_api_spec, evdev_props_match, last_index_of, opt_view, udev_props_match,
    udev_strings_well_formed,
};

verus! {

/// A globally unique identifier, as the `uuid` crate holds it; the library only carries it.
#[verifier::external_type_specification]
#[verifier::external_body]
pub struct ExUuid(uuid::Uuid);

/// How the device node was opened.
#[derive(Debug, Copy, Clone, Hash, PartialEq, Eq, Structural)]
pub enum FdAccess {
    /// It was not opened: it was not tried, or it failed.
    NotOpened,
    /// It was opened for reading only.
    ReadOnly,
    /// It was opened for reading and writing.
    ReadWrite,
}

/// What udev and libevdev answered about a device.
#[derive(Debug)]
pub struct FromUdevDevice {
    /// The device node, if udev gives one.
    pub device_node: Option<String>,
    /// The device's udev properties.
    pub properties: UdevPropertyStrings,
    /// Whether the device node is to be opened, should the device be a controller.
    pub try_open_fd_if_is_a_controller: bool,
    /// How the device node was opened, where opening it was tried (see `fd_wanted`).
    pub fd_access: FdAccess,
    /// libevdev's answers, where libevdev could be set up on the open node.
    pub evdev: Option<EvdevQueries>,
}

/// Is opening the device node worth a try? Only controllers are: other kinds of devices
/// belong to the X server.
pub fn fd_wanted(
    has_device_node: bool,
    try_open_fd_if_is_a_controller: bool,
    udev_props: &UdevProps,
) -> (r: bool)
    ensures
        r == (has_device_node && try_open_fd_if_is_a_controller && udev_props.id_input_joystick),
{
    has_device_node && try_open_fd_if_is_a_controller && udev_props.is_a_controller()
}

/// The interface of an optional device node.
pub open spec fn opt_event_api_spec(device_node: Option<Seq<char>>) -> Option<LinuxEventAPI> {
    match device_node {
        Some(n) => event_api_spec(n),
        None => None,
    }
}

/// A device node from udev is an absolute path.
pub open spec fn device_node_well_formed(device_node: Option<Seq<char>>) -> bool {
    device_node matches Some(n) ==> last_index_of(n, '/') >= 0
}

/// Is the device node opened at all? Only where there is a node, opening was asked for,
/// and udev says the device is a controller.
pub open spec fn fd_wanted_spec(p: FromUdevDevice, udev_props: UdevProps) -> bool {
    p.device_node is Some && p.try_open_fd_if_is_a_controller && udev_props.id_input_joystick
}

/// The device that udev's and libevdev's answers describe. The node counts as open only
/// where opening it was wanted and succeeded; elsewhere it is never opened.
pub open spec fn built_from(r: Linuxdev, p: FromUdevDevice) -> bool {
    &&& udev_props_match(r.udev_props, p.properties)
    &&& opt_view(r.device_node) == opt_view(p.device_node)
    &&& r.event_api == opt_event_api_spec(opt_view(p.device_node))
    &&& r.fd_is_open == (fd_wanted_spec(p, r.udev_props) && p.fd_access != FdAccess::NotOpened)
    &&& r.fd_has_write_access == (fd_wanted_spec(p, r.udev_props) && p.fd_access
        == FdAccess::ReadWrite)
    &&& (r.evdev is Some <==> (r.event_api == Some(LinuxEventAPI::Evdev) && r.fd_is_open
        && p.evdev is Some))
    &&& (r.evdev matches Some(e) ==> {
        let q = p.evdev.unwrap();
        &&& evdev_props_match(e.props, q)
        &&& e.rumble_ff_id == -1
        &&& e.key_codes@ == q.key_codes@
        &&& e.abs_infos@ == q.abs_infos@
        &&& e.buttons@ == supported_buttons_spec(q.key_codes@, all_btn_codes())
        &&& e.axes@ == supported_axes_spec(r.is_a_joystick_spec(), q.abs_infos@, all_abs_codes())
    })
}

impl Linuxdev {
    /// Builds a device from what udev and libevdev answered about it, and fills in the
    /// buttons and axes it has.
    pub fn from_udev_device(params: FromUdevDevice) -> (r: Linuxdev)
        requires
            udev_strings_well_formed(params.properties),
            device_node_well_formed(opt_view(params.device_node)),
        ensures
            built_from(r, params),
            r.evdev_wf(),
    {
        let ghost p = params;
        let FromUdevDevice { device_node, properties, try_open_fd_if_is_a_controller, fd_access, evdev } =
            params;
        let udev_props = UdevProps::from_properties(&properties);
        let event_api = match &device_node {
            Some(n) => event_api_of_devnode(n.as_str()),
            None => None,
        };
        let wanted = fd_wanted(device_node.is_some(), try_open_fd_if_is_a_controller, &udev_props);
        let fd_is_open = wanted && match fd_access {
            FdAccess::NotOpened => false,
            _ => true,
        };
        let fd_has_write_access = wanted && match fd_access {
            FdAccess::ReadWrite => true,
            _ => false,
        };
        let is_evdev = match event_api {
            Some(LinuxEventAPI::Evdev) => true,
            _ => false,
        };
        let evdev = if is_evdev && fd_is_open {
            match evdev {
                Some(q) => Some(LinuxdevEvdev::from_libevdev(q)),
                None => None,
            }
        } else {
            None
        };
        let mut dev = Linuxdev {
            device_node,
            udev_props,
            fd_is_open,
            fd_has_write_access,
            event_api,
            evdev,
        };
        if dev.evdev.is_some() {
            dev.evdev_refresh_all_controller_axes_support();
            dev.evdev_refresh_all_controller_buttons_support();
            proof {
                let e = dev.evdev.unwrap();
                lemma_all_supported_distinct(dev.is_a_joystick_spec(), e.key_codes@, e.abs_infos@);
            }
        }
        dev
    }
}

/// What a controller is and has.
#[derive(Debug, Clone)]
pub struct OsControllerInfo {
    pub is_a_gamepad: bool,
    pub is_a_joystick: bool,
    pub is_a_steering_wheel: bool,
    pub supports_rumble: bool,
    pub buttons: Vec<ControllerButton>,
    pub axes: Vec<(ControllerAxis, LinuxdevAxisInfo)>,
}

/// The limits of the first entry for `axis` in `axes`.
pub open spec fn axis_lookup(axes: Seq<(ControllerAxis, LinuxdevAxisInfo)>, axis: ControllerAxis) -> Option<
    LinuxdevAxisInfo,
>
    decreases axes.len(),
{
    if axes.len() == 0 {
        None
    } else if axes[0].0 == axis {
        Some(axes[0].1)
    } else {
        axis_lookup(axes.drop_first(), axis)
    }
}

proof fn lemma_axis_lookup_some(axes: Seq<(ControllerAxis, LinuxdevAxisInfo)>, axis: ControllerAxis)
    ensures
        axis_lookup(axes, axis) is Some <==> exists|i: int| 0 <= i < axes.len() && #[trigger] axes[i].0 == axis,
    decreases axes.len(),
{
    if axes.len() > 0 {
        lemma_axis_lookup_some(axes.drop_first(), axis);
        if axes[0].0 != axis {
            if exists|i: int| 0 <= i < axes.len() && #[trigger] axes[i].0 == axis {
                let i = choose|i: int| 0 <= i < axes.len() && #[trigger] axes[i].0 == axis;
                assert(axes.drop_first()[i - 1].0 == axis);
            }
            if exists|i: int| 0 <= i < axes.drop_first().len() && #[trigger] axes.drop_first()[i].0 == axis {
                let i = choose|i: int| 0 <= i < axes.drop_first().len() && #[trigger] axes.drop_first()[i].0 == axis;
                assert(axes[i + 1].0 == axis);
            }
        }
    }
}

impl OsControllerInfo {
    /// Each button and each axis appears once, as in a set.
    pub open spec fn well_formed(&self) -> bool {
        buttons_distinct(self.buttons@) && keys_distinct(self.axes@)
    }

    /// Is it a gamepad?
    pub fn is_a_gamepad(&self) -> (r: bool)
        ensures
            r == self.is_a_gamepad,
    {
        self.is_a_gamepad
    }

    /// Is it a joystick?
    pub fn is_a_joystick(&self) -> (r: bool)
        ensures
            r == self.is_a_joystick,
    {
        self.is_a_joystick
    }

    /// Is it a steering wheel?
    pub fn is_a_steering_wheel(&self) -> (r: bool)
        ensures
            r == self.is_a_steering_wheel,
    {
        self.is_a_steering_wheel
    }

    /// Can it rumble?
    pub fn supports_rumble(&self) -> (r: bool)
        ensures
            r == self.supports_rumble,
    {
        self.supports_rumble
    }

    /// Does it have `button`?
    pub fn has_button(&self, button: ControllerButton) -> (r: bool)
        ensures
            r == self.buttons@.contains(button),
    {
        let mut i: usize = 0;
        while i < self.buttons.len()
            invariant
                i <= self.buttons.len(),
                forall|j: int| 0 <= j < i ==> self.buttons@[j] != button,
            decreases self.buttons.len() - i,
        {
            if self.buttons[i] == button {
                return true;
            }
            i = i + 1;
        }
        false
    }

    /// The limits of `axis`, if it has it.
    pub fn axis(&self, axis: ControllerAxis) -> (r: Option<LinuxdevAxisInfo>)
        ensures
            r == axis_lookup(self.axes@, axis),
    {
        let mut i: usize = 0;
        assert(self.axes@.subrange(0, self.axes@.len() as int) =~= self.axes@);
        while i < self.axes.len()
            invariant
                i <= self.axes.len(),
                axis_lookup(self.axes@, axis) == axis_lookup(
                    self.axes@.subrange(i as int, self.axes@.len() as int),
                    axis,
                ),
            decreases self.axes.len() - i,
        {
            let ghost rest = self.axes@.subrange(i as int, self.axes@.len() as int);
            assert(rest.drop_first() =~= self.axes@.subrange(i + 1, self.axes@.len() as int));
            if self.axes[i].0 == axis {
                return Some(self.axes[i].1);
            }
            i = i + 1;
        }
        None
    }

    /// Does it have `axis`?
    pub fn has_axis(&self, axis: ControllerAxis) -> (r: bool)
        ensures
            r == exists|i: int| 0 <= i < self.axes@.len() && #[trigger] self.axes@[i].0 == axis,
    {
        proof {
            lemma_axis_lookup_some(self.axes@, axis);
        }
        self.axis(axis).is_some()
    }
}

/// The limits of a controller axis.
#[derive(Debug, Copy, Clone, Hash, PartialEq, Eq, Structural)]
pub struct OsAxisInfo {
    pub linuxdev: LinuxdevAxisInfo,
}

impl OsAxisInfo {
    /// The range of values the axis takes.
    pub fn range(&self) -> (r: Range<i32>)
        ensures
            r == self.linuxdev.range,
    {
        self.linuxdev.range
    }

    /// The dead zone that the driver applies around zero.
    pub fn driver_dead_zone(&self) -> (r: Option<Range<i64>>)
        ensures
            r == Some(self.linuxdev.dead_zone),
    {
        Some(self.linuxdev.dead_zone)
    }

    /// The resolution of the axis.
    pub fn resolution_hint(&self) -> (r: Option<i32>)
        ensures
            r == Some(self.linuxdev.resolution),
    {
        Some(self.linuxdev.resolution)
    }

    /// The noise filter ("fuzz") that the driver applies.
    pub fn driver_noise_filter(&self) -> (r: Option<i32>)
        ensures
            r == Some(self.linuxdev.fuzz),
    {
        Some(self.linuxdev.fuzz)
    }
}

/// Information about a device.
#[derive(Debug, Clone)]
pub struct OsDeviceInfo {
    pub master: Option<DeviceID>,
    pub parent: Option<DeviceID>,
    pub device_node: Option<String>,
    pub name: Option<String>,
    pub serial: Option<String>,
    pub usb_product_info: Option<UsbProductInfo>,
    pub guid: Option<uuid::Uuid>,
    pub plug_instant: Option<EventInstant>,
    pub bus: Option<Bus>,
    pub driver_name: Option<String>,
    pub driver_version: Option<String>,
    pub is_physical: Option<bool>,
    pub controller: Option<OsControllerInfo>,
    pub mouse: Option<MouseInfo>,
    pub keyboard: Option<KeyboardInfo>,
}

/// The view of an optional string slice.
pub open spec fn opt_str_view(s: Option<&str>) -> Option<Seq<char>> {
    match s {
        Some(v) => Some(v@),
        None => None,
    }
}

fn as_opt_str(s: &Option<String>) -> (r: Option<&str>)
    ensures
        opt_str_view(r) == opt_view(*s),
{
    match s {
        Some(v) => Some(v.as_str()),
        None => None,
    }
}

impl OsDeviceInfo {
    /// The master device, if any.
    pub fn master(&self) -> (r: Option<DeviceID>)
        ensures
            r == self.master,
    {
        self.master
    }

    /// The parent device, if any.
    pub fn parent(&self) -> (r: Option<DeviceID>)
        ensures
            r == self.parent,
    {
        self.parent
    }

    /// The device node, such as `/dev/input/event3`.
    pub fn device_node(&self) -> (r: Option<&str>)
        ensures
            opt_str_view(r) == opt_view(self.device_node),
    {
        as_opt_str(&self.device_node)
    }

    /// The device's name.
    pub fn name(&self) -> (r: Option<&str>)
        ensures
            opt_str_view(r) == opt_view(self.name),
    {
        as_opt_str(&self.name)
    }

    /// The device's serial number.
    pub fn serial(&self) -> (r: Option<&str>)
        ensures
            opt_str_view(r) == opt_view(self.serial),
    {
        as_opt_str(&self.serial)
    }

    /// The USB vendor and product identifiers.
    pub fn usb_ids(&self) -> (r: Option<UsbIDs>)
        ensures
            r == match self.usb_product_info {
                Some(u) => Some(UsbIDs { vendor_id: u.vendor_id, product_id: u.product_id }),
                None => None,
            },
    {
        match &self.usb_product_info {
            Some(u) => Some(UsbIDs { vendor_id: u.vendor_id, product_id: u.product_id }),
            None => None,
        }
    }

    /// The USB vendor's name.
    pub fn vendor_name(&self) -> (r: Option<&str>)
        ensures
            opt_str_view(r) == match self.usb_product_info {
                Some(u) => opt_view(u.vendor_name),
                None => None,
            },
    {
        match &self.usb_product_info {
            Some(u) => as_opt_str(&u.vendor_name),
            None => None,
        }
    }

    /// The device's globally unique identifier, if it has one.
    pub fn guid(&self) -> (r: Option<uuid::Uuid>)
        ensures
            r == self.guid,
    {
        self.guid
    }

    /// When the device was plugged in.
    pub fn plug_instant(&self) -> (r: Option<EventInstant>)
        ensures
            r == self.plug_instant,
    {
        self.plug_instant
    }

    /// The bus the device is plugged into.
    pub fn bus(&self) -> (r: Option<Bus>)
        ensures
            r == self.bus,
    {
        self.bus
    }

    /// The driver's name.
    pub fn driver_name(&self) -> (r: Option<&str>)
        ensures
            opt_str_view(r) == opt_view(self.driver_name),
    {
        as_opt_str(&self.driver_name)
    }

    /// The driver's version.
    pub fn driver_version(&self) -> (r: Option<&str>)
        ensures
            opt_str_view(r) == opt_view(self.driver_version),
    {
        as_opt_str(&self.driver_version)
    }

    /// Is the device a physical one?
    pub fn is_physical(&self) -> (r: Option<bool>)
        ensures
            r == self.is_physical,
    {
        self.is_physical
    }

    /// What the device is and has as a controller, if it is one.
    pub fn controller(&self) -> (r: Option<&OsControllerInfo>)
        ensures
            match r {
                Some(c) => self.controller == Some(*c),
                None => self.controller is None,
            },
    {
        match &self.controller {
            Some(c) => Some(c),
            None => None,
        }
    }

    /// The device as a mouse, if it is one.
    pub fn mouse(&self) -> (r: Option<&MouseInfo>)
        ensures
            match r {
                Some(m) => self.mouse == Some(*m),
                None => self.mouse is None,
            },
    {
        match &self.mouse {
            Some(m) => Some(m),
            None => None,
        }
    }

    /// The device as a keyboard, if it is one.
    pub fn keyboard(&self) -> (r: Option<&KeyboardInfo>)
        ensures
            match r {
                Some(k) => self.keyboard == Some(*k),
                None => self.keyboard is None,
            },
    {
        match &self.keyboard {
            Some(k) => Some(k),
            None => None,
        }
    }
}

/// The information that a device gives about itself.
pub open spec fn device_info_of(info: OsDeviceInfo, dev: Linuxdev) -> bool {
    let e = dev.evdev.unwrap();
    &&& info.master is None
    &&& info.parent is None
    &&& opt_view(info.device_node) == opt_view(dev.device_node)
    &&& opt_view(info.name) == dev.name_spec()
    &&& opt_view(info.serial) == opt_view(dev.udev_props.id_serial)
    &&& match (
        (match dev.evdev { Some(e) => Some(e.props.id_vendor), None => dev.udev_props.id_vendor_id }),
        (match dev.evdev { Some(e) => Some(e.props.id_product), None => dev.udev_props.id_model_id }),
    ) {
        (Some(v), Some(p)) => info.usb_product_info is Some
            && info.usb_product_info.unwrap().vendor_id == v
            && info.usb_product_info.unwrap().product_id == p
            && opt_view(info.usb_product_info.unwrap().vendor_name) == opt_view(dev.udev_props.id_vendor)
            && info.usb_product_info.unwrap().product_name is None,
        _ => info.usb_product_info is None,
    }
    &&& info.guid is None
    &&& info.plug_instant == Some(EventInstant(OsEventInstant::UdevUsecs(
        match dev.udev_props.usec_initialized {
            Some(u) => u,
            None => 0,
        },
    )))
    &&& info.bus == dev.bus_spec()
    &&& opt_view(info.driver_name) == opt_view(dev.udev_props.id_usb_driver)
    &&& opt_view(info.driver_version) == dev.driver_version_spec()
    &&& info.is_physical is None
    &&& info.controller is Some
    &&& info.controller.unwrap().is_a_gamepad == (dev.is_a_controller_spec() && e.props.is_a_gamepad)
    &&& info.controller.unwrap().is_a_joystick == dev.is_a_joystick_spec()
    &&& info.controller.unwrap().is_a_steering_wheel == (dev.is_a_controller_spec()
        && e.props.is_a_steering_wheel)
    &&& info.controller.unwrap().supports_rumble == (dev.fd_has_write_access && e.props.supports_rumble)
    &&& info.controller.unwrap().buttons@ == e.buttons@
    &&& info.controller.unwrap().axes@ == e.axes@
    &&& info.mouse is None
    &&& info.keyboard is None
}

fn copy_buttons(v: &Vec<ControllerButton>) -> (r: Vec<ControllerButton>)
    ensures
        r@ == v@,
{
    let mut r: Vec<ControllerButton> = Vec::new();
    let mut i: usize = 0;
    while i < v.len()
        invariant
            i <= v.len(),
            r@ == v@.subrange(0, i as int),
        decreases v.len() - i,
    {
        r.push(v[i]);
        i = i + 1;
    }
    assert(v@.subrange(0, v@.len() as int) =~= v@);
    r
}

fn copy_axes(v: &Vec<(ControllerAxis, LinuxdevAxisInfo)>) -> (r: Vec<(ControllerAxis, LinuxdevAxisInfo)>)
    ensures
        r@ == v@,
{
    let mut r: Vec<(ControllerAxis, LinuxdevAxisInfo)> = Vec::new();
    let mut i: usize = 0;
    while i < v.len()
        invariant
            i <= v.len(),
            r@ == v@.subrange(0, i as int),
        decreases v.len() - i,
    {
        r.push(v[i]);
        i = i + 1;
    }
    assert(v@.subrange(0, v@.len() as int) =~= v@);
    r
}

fn clone_opt_string(s: &Option<String>) -> (r: Option<String>)
    ensures
        opt_view(r) == opt_view(*s),
{
    match s {
        Some(v) => Some(v.clone()),
        None => None,
    }
}

impl Linuxdev {
    /// The information that this device gives about itself; it must have been opened
    /// through evdev.
    pub fn device_info(&self) -> (r: OsDeviceInfo)
        requires
            self.evdev is Some,
        ensures
            device_info_of(r, *self),
            self.evdev_wf() ==> r.controller.unwrap().well_formed(),
    {
        let evdev = self.evdev.as_ref().unwrap();
        let name = match self.name() {
            Some(s) => Some(s.to_owned()),
            None => None,
        };
        let usb_product_info = match (self.vendor_id(), self.product_id()) {
            (Some(vendor_id), Some(product_id)) => Some(UsbProductInfo {
                vendor_id,
                product_id,
                vendor_name: clone_opt_string(&self.udev_props.id_vendor),
                product_name: None,
            }),
            _ => None,
        };
        OsDeviceInfo {
            master: None,
            parent: None,
            device_node: clone_opt_string(&self.device_node),
            name,
            serial: clone_opt_string(&self.udev_props.id_serial),
            usb_product_info,
            guid: None,
            plug_instant: Some(self.plug_instant()),
            bus: self.bus(),
            driver_name: self.driver_name(),
            driver_version: self.driver_version(),
            is_physical: None,
            controller: Some(OsControllerInfo {
                is_a_gamepad: self.is_a_gamepad(),
                is_a_joystick: self.is_a_joystick(),
                is_a_steering_wheel: self.is_a_steering_wheel(),
                supports_rumble: self.supports_rumble(),
                buttons: copy_buttons(&evdev.buttons),
                axes: copy_axes(&evdev.axes),
            }),
            mouse: None,
            keyboard: None,
        }
    }
}

/// A snapshot of a controller's buttons and axes, with the raw values evdev gives for axes.
#[derive(Debug, Clone)]
pub struct OsControllerState {
    pub buttons: Vec<(ControllerButton, ButtonState)>,
    pub axes: Vec<(ControllerAxis, i32)>,
}

/// The state of the first entry for `button`.
pub open spec fn button_state_lookup(buttons: Seq<(ControllerButton, ButtonState)>, button: ControllerButton) -> Option<
    ButtonState,
>
    decreases buttons.len(),
{
    if buttons.len() == 0 {
        None
    } else if buttons[0].0 == button {
        Some(buttons[0].1)
    } else {
        button_state_lookup(buttons.drop_first(), button)
    }
}

/// The value of the first entry for `axis`.
pub open spec fn axis_value_lookup(axes: Seq<(ControllerAxis, i32)>, axis: ControllerAxis) -> Option<i32>
    decreases axes.len(),
{
    if axes.len() == 0 {
        None
    } else if axes[0].0 == axis {
        Some(axes[0].1)
    } else {
        axis_value_lookup(axes.drop_first(), axis)
    }
}

impl OsControllerState {
    /// Each button and each axis appears once, as in a map.
    pub open spec fn well_formed(&self) -> bool {
        keys_distinct(self.buttons@) && keys_distinct(self.axes@)
    }

    /// The state of `button`, if the snapshot has it.
    pub fn button(&self, button: ControllerButton) -> (r: Option<ButtonState>)
        ensures
            r == button_state_lookup(self.buttons@, button),
    {
        let mut i: usize = 0;
        assert(self.buttons@.subrange(0, self.buttons@.len() as int) =~= self.buttons@);
        while i < self.buttons.len()
            invariant
                i <= self.buttons.len(),
                button_state_lookup(self.buttons@, button) == button_state_lookup(
                    self.buttons@.subrange(i as int, self.buttons@.len() as int),
                    button,
                ),
            decreases self.buttons.len() - i,
        {
            let ghost rest = self.buttons@.subrange(i as int, self.buttons@.len() as int);
            assert(rest.drop_first() =~= self.buttons@.subrange(i + 1, self.buttons@.len() as int));
            if self.buttons[i].0 == button {
                return Some(self.buttons[i].1);
            }
            i = i + 1;
        }
        None
    }

    /// The raw value of `axis`, if the snapshot has it.
    pub fn axis(&self, axis: ControllerAxis) -> (r: Option<i32>)
        ensures
            r == axis_value_lookup(self.axes@, axis),
    {
        let mut i: usize = 0;
        assert(self.axes@.subrange(0, self.axes@.len() as int) =~= self.axes@);
        while i < self.axes.len()
            invariant
                i <= self.axes.len(),
                axis_value_lookup(self.axes@, axis) == axis_value_lookup(
                    self.axes@.subrange(i as int, self.axes@.len() as int),
                    axis,
                ),
            decreases self.axes.len() - i,
        {
            let ghost rest = self.axes@.subrange(i as int, self.axes@.len() as int);
            assert(rest.drop_first() =~= self.axes@.subrange(i + 1, self.axes@.len() as int));
            if self.axes[i].0 == axis {
                return Some(self.axes[i].1);
            }
            i = i + 1;
        }
        None
    }
}

impl Linuxdev {
    /// A snapshot of the controller: `button_fetches[i]` is what libevdev fetched for the
    /// `i`-th controller key code, `axis_fetches[i]` for the `i`-th absolute-axis code
    /// (nothing where the fetch failed). Each button and each axis comes once, in code order.
    pub fn controller_state_from_fetches(
        &self,
        button_fetches: &Vec<Option<i32>>,
        axis_fetches: &Vec<Option<i32>>,
    ) -> (r: OsControllerState)
        requires
            button_fetches.len() == all_btn_codes().len(),
            axis_fetches.len() == all_abs_codes().len(),
        ensures
            r.buttons@ == button_states_spec(all_btn_codes(), button_fetches@, all_btn_codes().len() as int),
            r.axes@ == axis_values_spec(
                self.is_a_joystick_spec(),
                all_abs_codes(),
                axis_fetches@,
                all_abs_codes().len() as int,
            ),
            r.well_formed(),
    {
        let codes = all_btn_codes_vec();
        let mut buttons: Vec<(ControllerButton, ButtonState)> = Vec::new();
        let mut i: usize = 0;
        while i < codes.len()
            invariant
                i <= codes.len(),
                codes@ == all_btn_codes(),
                button_fetches.len() == codes.len(),
                buttons@ == button_states_spec(codes@, button_fetches@, i as int),
            decreases codes.len() - i,
        {
            match button_fetches[i] {
                Some(v) => {
                    let state = if v == 0 { ButtonState::Up } else { ButtonState::Down };
                    buttons.push((self.translate_ev_key(codes[i]), state));
                },
                None => {},
            }
            i = i + 1;
        }
        let codes = all_abs_codes_vec();
        let mut axes: Vec<(ControllerAxis, i32)> = Vec::new();
        let mut i: usize = 0;
        while i < codes.len()
            invariant
                i <= codes.len(),
                codes@ == all_abs_codes(),
                axis_fetches.len() == codes.len(),
                axes@ == axis_values_spec(self.is_a_joystick_spec(), codes@, axis_fetches@, i as int),
            decreases codes.len() - i,
        {
            match axis_fetches[i] {
                Some(v) => {
                    axes.push((self.translate_ev_abs(codes[i]), v));
                },
                None => {},
            }
            i = i + 1;
        }
        proof {
            lemma_fetched_states_distinct(self.is_a_joystick_spec(), button_fetches@, axis_fetches@);
        }
        OsControllerState { buttons, axes }
    }
}

/// The state of a key, from what libevdev fetched for it: nothing when the fetch failed,
/// up for a value of 0, down otherwise.
pub fn button_state_from_fetch(fetched: Option<i32>) -> (r: Option<ButtonState>)
    ensures
        r == match fetched {
            None => None,
            Some(0i32) => Some(ButtonState::Up),
            Some(_) => Some(ButtonState::Down),
        },
{
    match fetched {
        None => None,
        Some(v) => if v == 0 {
            Some(ButtonState::Up)
        } else {
            Some(ButtonState::Down)
        },
    }
}

/// The state of a controller button, or a failure when the device does not have it.
pub fn controller_button_state(state: Option<ButtonState>) -> (r: Result<ButtonState, Error>)
    ensures
        state matches Some(s) ==> r == Ok::<ButtonState, Error>(s),
        state is None ==> r matches Err(Error::NotSupportedByDevice { reason: None }),
{
    match state {
        Some(s) => Ok(s),
        None => not_supported_by_device_unexplained(),
    }
}

/// The raw value of a controller axis, or a failure when the device does not have it.
pub fn controller_axis_state(value: Option<i32>) -> (r: Result<i32, Error>)
    ensures
        value matches Some(v) ==> r == Ok::<i32, Error>(v),
        value is None ==> r matches Err(Error::NotSupportedByDevice { reason: None }),
{
    match value {
        Some(v) => Ok(v),
        None => not_supported_by_device_unexplained(),
    }
}

} // verus!
