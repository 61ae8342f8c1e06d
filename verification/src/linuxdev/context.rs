//! The registry of game controllers known through udev and evdev, and the queue of events
//! about them.
//!
//! A controller stays registered after udev reports its removal: its disconnection is
//! queued, and it leaves the registry only when that event is taken from the queue, so
//! that every event about it can still be matched with it.

use vstd::prelude::*;
use crate::device::{DeviceID, OsDeviceID};
use crate::device::error::{Error, not_supported_by_device};
use crate::error::reason_view;
use crate::event_instant::{EventInstant, OsEventInstant};
use crate::strings::str_equals;
use std::collections::VecDeque;
use super::device::Linuxdev;
use super::events::LinuxdevEvent;
use super::info::{OsDeviceInfo, device_info_of};
use super::props::{
    LinuxEventAPI, LinuxdevToken, LinuxdevTokenGenerator, UdevDeviceAction, opt_view, token_after,
};

verus! {

/// The controllers known through udev and evdev, and the events about them that wait to be
/// taken.
#[derive(Debug)]
pub struct LinuxdevContext {
    evdev_controllers: Vec<(LinuxdevToken, Linuxdev)>,
    token_generator: LinuxdevTokenGenerator,
    pending_translated_events: VecDeque<LinuxdevEvent>,
}

/// The tokens of a list of registered devices.
pub open spec fn tokens_of(s: Seq<(LinuxdevToken, Linuxdev)>) -> Seq<LinuxdevToken> {
    s.map_values(|p: (LinuxdevToken, Linuxdev)| p.0)
}

/// Is this event the disconnection of the device with this token?
pub open spec fn is_disconnection_of(ev: LinuxdevEvent, t: LinuxdevToken) -> bool {
    ev matches LinuxdevEvent::DeviceDisconnected { device, .. } && device == DeviceID(
        OsDeviceID::Linuxdev(t),
    )
}

impl LinuxdevContext {
    /// The registry's invariant: no token is registered twice.
    pub closed spec fn wf(&self) -> bool {
        tokens_of(self.evdev_controllers@).no_duplicates()
    }

    /// The tokens of the registered controllers, in the order they were registered.
    pub closed spec fn tokens(&self) -> Seq<LinuxdevToken> {
        tokens_of(self.evdev_controllers@)
    }

    /// The registered controller with this token.
    pub closed spec fn device(&self, t: LinuxdevToken) -> Linuxdev {
        self.evdev_controllers@[self.tokens().index_of(t)].1
    }

    /// The events that wait to be taken, oldest first.
    pub closed spec fn pending(&self) -> Seq<LinuxdevEvent> {
        self.pending_translated_events@
    }

    /// The value of the token that the next registration gets.
    pub closed spec fn next_token_value(&self) -> u32 {
        self.token_generator.next_value()
    }

    /// Is a controller registered under this token?
    pub open spec fn registered(&self, t: LinuxdevToken) -> bool {
        self.tokens().contains(t)
    }

    /// Can the first pending event be taken? A disconnection must be that of a registered
    /// controller, which it then removes.
    pub open spec fn front_is_takeable(&self) -> bool {
        self.pending().len() > 0 ==> forall|t: LinuxdevToken| #[trigger]
            is_disconnection_of(self.pending()[0], t) ==> self.registered(t)
    }

    proof fn lemma_index_of(&self, t: LinuxdevToken)
        requires
            self.registered(t),
        ensures
            0 <= self.tokens().index_of(t) < self.evdev_controllers@.len(),
            self.evdev_controllers@[self.tokens().index_of(t)].0 == t,
    {
    }

    /// An empty registry, whose first token is 0.
    pub fn new() -> (r: LinuxdevContext)
        ensures
            r.wf(),
            r.tokens().len() == 0,
            r.pending().len() == 0,
            r.next_token_value() == 0,
    {
        let r = LinuxdevContext {
            evdev_controllers: Vec::new(),
            token_generator: LinuxdevTokenGenerator::new(),
            pending_translated_events: VecDeque::new(),
        };
        assert(tokens_of(r.evdev_controllers@) =~= Seq::empty());
        r
    }

    fn find_index(&self, token: LinuxdevToken) -> (r: Option<usize>)
        requires
            self.wf(),
        ensures
            match r {
                Some(i) => i < self.evdev_controllers@.len() && self.evdev_controllers@[i as int].0
                    == token && self.tokens().index_of(token) == i && self.registered(token),
                None => !self.registered(token),
            },
    {
        let mut i: usize = 0;
        while i < self.evdev_controllers.len()
            invariant
                i <= self.evdev_controllers.len(),
                self.tokens() == tokens_of(self.evdev_controllers@),
                self.tokens().no_duplicates(),
                forall|j: int| 0 <= j < i ==> self.evdev_controllers@[j].0 != token,
            decreases self.evdev_controllers.len() - i,
        {
            if self.evdev_controllers[i].0 == token {
                proof {
                    assert(self.tokens()[i as int] == token);
                    let k = self.tokens().index_of(token);
                    assert(self.tokens()[k] == token);
                    assert(tokens_of(self.evdev_controllers@).no_duplicates());
                }
                return Some(i);
            }
            i = i + 1;
        }
        proof {
            if self.registered(token) {
                let k = self.tokens().index_of(token);
                assert(self.evdev_controllers@[k].0 == token);
            }
        }
        None
    }

    /// Hands out the next token.
    pub fn next_token(&mut self) -> (t: LinuxdevToken)
        requires
            old(self).wf(),
        ensures
            final(self).wf(),
            t.0 == old(self).next_token_value(),
            final(self).next_token_value() == token_after(old(self).next_token_value(), 1),
            final(self).tokens() == old(self).tokens(),
            final(self).pending() == old(self).pending(),
            forall|u: LinuxdevToken| old(self).registered(u) ==> #[trigger] final(self).device(u) == old(self).device(u),
    {
        self.token_generator.next_token()
    }

    /// Queues an event.
    pub fn queue_event(&mut self, ev: LinuxdevEvent)
        requires
            old(self).wf(),
        ensures
            final(self).wf(),
            final(self).pending() == old(self).pending().push(ev),
            final(self).tokens() == old(self).tokens(),
            final(self).next_token_value() == old(self).next_token_value(),
            forall|u: LinuxdevToken| old(self).registered(u) ==> #[trigger] final(self).device(u) == old(self).device(u),
    {
        self.pending_translated_events.push_back(ev);
    }

    /// Registers `dev` under `token`, in place of the controller that had it, if any.
    pub fn insert_controller(&mut self, token: LinuxdevToken, dev: Linuxdev)
        requires
            old(self).wf(),
        ensures
            final(self).wf(),
            final(self).registered(token),
            final(self).device(token) == dev,
            old(self).registered(token) ==> final(self).tokens() == old(self).tokens(),
            !old(self).registered(token) ==> final(self).tokens() == old(self).tokens().push(token),
            forall|u: LinuxdevToken| old(self).registered(u) && u != token ==> #[trigger] final(self).device(u)
                == old(self).device(u),
            final(self).pending() == old(self).pending(),
            final(self).next_token_value() == old(self).next_token_value(),
    {
        let ghost old_tokens = self.tokens();
        match self.find_index(token) {
            Some(i) => {
                let ghost old_entries = self.evdev_controllers@;
                self.evdev_controllers.set(i, (token, dev));
                proof {
                    assert(old_tokens[i as int] == token);
                    assert(tokens_of(self.evdev_controllers@) =~= old_tokens);
                    assert(self.tokens()[i as int] == token);
                    assert forall|u: LinuxdevToken| old_tokens.contains(u) && u != token implies #[trigger] self.device(u)
                        == old_entries[old_tokens.index_of(u)].1 by {
                    }
                }
            },
            None => {
                let ghost old_entries = self.evdev_controllers@;
                self.evdev_controllers.push((token, dev));
                proof {
                    assert(tokens_of(self.evdev_controllers@) =~= old_tokens.push(token));
                    let nt = old_tokens.push(token);
                    assert(nt[old_tokens.len() as int] == token);
                    assert forall|a: int, b: int| 0 <= a < b < nt.len() implies nt[a] != nt[b] by {
                        if b == old_tokens.len() {
                            assert(old_tokens[a] != token);
                        }
                    }
                    assert(nt.no_duplicates());
                    assert(nt.index_of(token) == old_tokens.len()) by {
                        let k = nt.index_of(token);
                        assert(nt[k] == token);
                    }
                    assert forall|u: LinuxdevToken| old_tokens.contains(u) && u != token implies #[trigger] self.device(u)
                        == old_entries[old_tokens.index_of(u)].1 by {
                        let k = old_tokens.index_of(u);
                        assert(nt[k] == u);
                        let k2 = nt.index_of(u);
                        assert(nt[k2] == u);
                    }
                }
            },
        }
    }

    /// Registers a newly connected device, if it is a controller with an evdev node: it
    /// gets the next token, and its connection is queued. Gives the token, if any.
    pub fn add_linuxdev(&mut self, dev: Linuxdev) -> (r: Option<LinuxdevToken>)
        requires
            old(self).wf(),
            (dev.udev_props.id_input_joystick && dev.event_api == Some(LinuxEventAPI::Evdev)) ==> dev.evdev is Some,
        ensures
            final(self).wf(),
            !(dev.udev_props.id_input_joystick && dev.event_api == Some(LinuxEventAPI::Evdev)) ==> {
                &&& r is None
                &&& final(self).tokens() == old(self).tokens()
                &&& final(self).pending() == old(self).pending()
                &&& final(self).next_token_value() == old(self).next_token_value()
            },
            (dev.udev_props.id_input_joystick && dev.event_api == Some(LinuxEventAPI::Evdev)) ==> {
                &&& r matches Some(t) && t.0 == old(self).next_token_value()
                &&& final(self).registered(r.unwrap())
                &&& final(self).device(r.unwrap()) == dev
                &&& final(self).next_token_value() == token_after(old(self).next_token_value(), 1)
                &&& final(self).pending().len() == old(self).pending().len() + 1
                &&& final(self).pending().subrange(0, old(self).pending().len() as int) == old(self).pending()
                &&& final(self).pending().last() matches LinuxdevEvent::DeviceConnected { device, instant, info }
                    && device == DeviceID(OsDeviceID::Linuxdev(r.unwrap()))
                    && instant == EventInstant(OsEventInstant::UdevUsecs(
                        match dev.udev_props.usec_initialized {
                            Some(u) => u,
                            None => 0,
                        },
                    ))
                    && device_info_of(info, dev)
            },
            forall|u: LinuxdevToken| old(self).registered(u) && (r matches Some(t) ==> u != t) ==> #[trigger] final(self).device(u)
                == old(self).device(u),
    {
        if !dev.is_a_controller_and_evdev_node() {
            return None;
        }
        let token = self.next_token();
        let ev = LinuxdevEvent::DeviceConnected {
            device: DeviceID(OsDeviceID::Linuxdev(token)),
            instant: dev.plug_instant(),
            info: dev.device_info(),
        };
        self.queue_event(ev);
        self.insert_controller(token, dev);
        Some(token)
    }

    /// The token under which a device found at start-up is read, if it is a controller
    /// with an evdev node; no connection is queued for it.
    pub fn begin_scanned_device(&mut self, dev: &Linuxdev) -> (r: Option<LinuxdevToken>)
        requires
            old(self).wf(),
        ensures
            final(self).wf(),
            final(self).tokens() == old(self).tokens(),
            final(self).pending() == old(self).pending(),
            forall|u: LinuxdevToken| old(self).registered(u) ==> #[trigger] final(self).device(u) == old(self).device(u),
            (dev.udev_props.id_input_joystick && dev.event_api == Some(LinuxEventAPI::Evdev)) ==> (r matches Some(t)
                && t.0 == old(self).next_token_value() && final(self).next_token_value() == token_after(
                old(self).next_token_value(),
                1,
            )),
            !(dev.udev_props.id_input_joystick && dev.event_api == Some(LinuxEventAPI::Evdev)) ==> r is None
                && final(self).next_token_value() == old(self).next_token_value(),
    {
        if dev.is_a_controller_and_evdev_node() {
            Some(self.next_token())
        } else {
            None
        }
    }

    /// Keeps a device found at start-up under its token, unless its first reading found it
    /// disconnected.
    pub fn finish_scanned_device(&mut self, token: LinuxdevToken, dev: Linuxdev, status: &Result<(), Error>)
        requires
            old(self).wf(),
        ensures
            final(self).wf(),
            final(self).pending() == old(self).pending(),
            final(self).next_token_value() == old(self).next_token_value(),
            status matches Err(Error::DeviceDisconnected(_)) ==> final(self).tokens() == old(self).tokens()
                && forall|u: LinuxdevToken| old(self).registered(u) ==> #[trigger] final(self).device(u)
                == old(self).device(u),
            !(status matches Err(Error::DeviceDisconnected(_))) ==> final(self).registered(token)
                && final(self).device(token) == dev,
    {
        if worth_keeping(status) {
            self.insert_controller(token, dev);
        }
    }

    /// The token of the registered controller whose device node is `devnode`, if any.
    pub fn find_token_by_device_node(&self, devnode: &str) -> (r: Option<LinuxdevToken>)
        requires
            self.wf(),
        ensures
            r matches Some(t) ==> self.registered(t) && opt_view(self.device(t).device_node) == Some(devnode@),
            r is None ==> forall|t: LinuxdevToken| #[trigger] self.registered(t) ==> opt_view(
                self.device(t).device_node,
            ) != Some(devnode@),
    {
        let mut i: usize = 0;
        while i < self.evdev_controllers.len()
            invariant
                i <= self.evdev_controllers.len(),
                self.tokens() == tokens_of(self.evdev_controllers@),
                self.tokens().no_duplicates(),
                forall|j: int| 0 <= j < i ==> opt_view(#[trigger] self.evdev_controllers@[j].1.device_node)
                    != Some(devnode@),
            decreases self.evdev_controllers.len() - i,
        {
            let matches = match &self.evdev_controllers[i].1.device_node {
                Some(n) => str_equals(n.as_str(), devnode),
                None => false,
            };
            if matches {
                let t = self.evdev_controllers[i].0;
                proof {
                    assert(self.tokens()[i as int] == t);
                    let k = self.tokens().index_of(t);
                    assert(self.tokens()[k] == t);
                }
                return Some(t);
            }
            i = i + 1;
        }
        proof {
            assert forall|t: LinuxdevToken| #[trigger] self.registered(t) implies opt_view(
                self.device(t).device_node,
            ) != Some(devnode@) by {
                let k = self.tokens().index_of(t);
                assert(opt_view(self.evdev_controllers@[k].1.device_node) != Some(devnode@));
            }
        }
        None
    }

    /// Queues the disconnection of a registered controller that udev reported removed, at
    /// the current udev time for it. The controller stays registered until the event is
    /// taken.
    pub fn on_udev_device_removed(&mut self, token: LinuxdevToken, usecs_since_initialized: u64)
        requires
            old(self).wf(),
            old(self).registered(token),
        ensures
            final(self).wf(),
            final(self).tokens() == old(self).tokens(),
            final(self).next_token_value() == old(self).next_token_value(),
            final(self).pending().len() == old(self).pending().len() + 1,
            final(self).pending().subrange(0, old(self).pending().len() as int) == old(self).pending(),
            is_disconnection_of(final(self).pending().last(), token),
            final(self).pending().last() matches LinuxdevEvent::DeviceDisconnected { instant, .. }
                && instant matches EventInstant(OsEventInstant::UdevUsecs(u)) && u as int
                == crate::time_utils::clamp_u64(
                match old(self).device(token).udev_props.usec_initialized {
                    Some(v) => v as int,
                    None => 0,
                } + usecs_since_initialized,
            ),
            forall|u: LinuxdevToken| old(self).registered(u) ==> #[trigger] final(self).device(u) == old(self).device(u),
    {
        let i = self.find_index(token).unwrap();
        let instant = self.evdev_controllers[i].1.instant_now(usecs_since_initialized);
        let ev = LinuxdevEvent::DeviceDisconnected { device: DeviceID(OsDeviceID::Linuxdev(token)), instant };
        self.queue_event(ev);
        assert(self.pending().subrange(0, old(self).pending().len() as int) =~= old(self).pending());
    }

    /// Takes the oldest pending event, if any. A disconnection also removes its controller
    /// from the registry.
    pub fn poll_next_event(&mut self) -> (r: Option<LinuxdevEvent>)
        requires
            old(self).wf(),
            old(self).front_is_takeable(),
        ensures
            final(self).wf(),
            old(self).pending().len() == 0 ==> r is None && final(self).pending() == old(self).pending()
                && final(self).tokens() == old(self).tokens(),
            old(self).pending().len() > 0 ==> {
                &&& r == Some(old(self).pending()[0])
                &&& final(self).pending() == old(self).pending().subrange(1, old(self).pending().len() as int)
            },
            forall|t: LinuxdevToken| r is Some && #[trigger] is_disconnection_of(r.unwrap(), t) ==> {
                &&& !final(self).registered(t)
                &&& final(self).tokens() == old(self).tokens().remove(old(self).tokens().index_of(t))
            },
            (r matches Some(ev) ==> !(ev is DeviceDisconnected && ev->DeviceDisconnected_device.0 is Linuxdev))
                ==> final(self).tokens() == old(self).tokens(),
            forall|u: LinuxdevToken| final(self).registered(u) ==> #[trigger] final(self).device(u) == old(self).device(u),
            final(self).next_token_value() == old(self).next_token_value(),
    {
        let ev = self.pending_translated_events.pop_front();
        let ghost old_entries = self.evdev_controllers@;
        let ghost old_tokens = tokens_of(old_entries);
        match &ev {
            Some(LinuxdevEvent::DeviceDisconnected { device: DeviceID(OsDeviceID::Linuxdev(t)), .. }) => {
                let t = *t;
                assert(is_disconnection_of(ev.unwrap(), t));
                let i = self.find_index(t).unwrap();
                let _removed = self.evdev_controllers.remove(i);
                proof {
                    let nt = tokens_of(self.evdev_controllers@);
                    assert(nt =~= old_tokens.remove(i as int));
                    assert forall|a: int, b: int| 0 <= a < b < nt.len() implies nt[a] != nt[b] by {
                        let a2 = if a < i { a } else { a + 1 };
                        let b2 = if b < i { b } else { b + 1 };
                        assert(nt[a] == old_tokens[a2]);
                        assert(nt[b] == old_tokens[b2]);
                    }
                    assert(nt.no_duplicates());
                    assert(!nt.contains(t)) by {
                        if nt.contains(t) {
                            let k = choose|k: int| 0 <= k < nt.len() && nt[k] == t;
                            let k2 = if k < i { k } else { k + 1 };
                            assert(old_tokens[k2] == t);
                            assert(old_tokens[i as int] == t);
                        }
                    }
                    assert forall|u: LinuxdevToken| nt.contains(u) implies #[trigger] self.device(u)
                        == old_entries[old_tokens.index_of(u)].1 by {
                        let k = nt.index_of(u);
                        let k2 = if k < i { k } else { k + 1 };
                        assert(old_tokens[k2] == u);
                        let k3 = old_tokens.index_of(u);
                        assert(old_tokens[k3] == u);
                    }
                    assert forall|t2: LinuxdevToken| is_disconnection_of(ev.unwrap(), t2) implies t2 == t by {}
                }
            },
            _ => {
                proof {
                    assert forall|t2: LinuxdevToken| ev is Some && #[trigger] is_disconnection_of(ev.unwrap(), t2) implies false by {}
                }
            },
        }
        ev
    }

    /// The registered controller that `controller` refers to: a disconnection if it is not
    /// registered (any more), and an error if the identifier is not that of a controller.
    pub fn with_controller(&self, controller: DeviceID) -> (r: Result<&Linuxdev, Error>)
        requires
            self.wf(),
        ensures
            controller.0 matches OsDeviceID::Linuxdev(t) ==> {
                &&& self.registered(t) ==> (r matches Ok(d) && *d == self.device(t))
                &&& !self.registered(t) ==> r matches Err(Error::DeviceDisconnected(None))
            },
            !(controller.0 is Linuxdev) ==> (r matches Err(Error::NotSupportedByDevice { reason })
                && reason_view(reason) == Some("This device does not refer to a controller"@)),
    {
        match controller.0 {
            OsDeviceID::Linuxdev(token) => match self.find_index(token) {
                Some(i) => Ok(&self.evdev_controllers[i].1),
                None => Err(Error::DeviceDisconnected(None)),
            },
            _ => {
                let m = String::from_str("This device does not refer to a controller");
                match not_supported_by_device::<()>(m) {
                    Err(e) => Err(e),
                    Ok(_) => Err(Error::DeviceDisconnected(None)),
                }
            },
        }
    }

    /// The identifier and information of every registered controller, in the order they
    /// were registered; each must have been opened through evdev.
    pub fn controllers(&self) -> (r: Vec<(DeviceID, OsDeviceInfo)>)
        requires
            self.wf(),
            forall|t: LinuxdevToken| #[trigger] self.registered(t) ==> self.device(t).evdev is Some,
        ensures
            r@.len() == self.tokens().len(),
            forall|i: int| 0 <= i < r@.len() ==> (#[trigger] r@[i]).0 == DeviceID(
                OsDeviceID::Linuxdev(self.tokens()[i]),
            ) && device_info_of(r@[i].1, self.device(self.tokens()[i])),
    {
        let mut r: Vec<(DeviceID, OsDeviceInfo)> = Vec::new();
        let mut i: usize = 0;
        while i < self.evdev_controllers.len()
            invariant
                i <= self.evdev_controllers.len(),
                r@.len() == i,
                self.tokens() == tokens_of(self.evdev_controllers@),
                self.tokens().no_duplicates(),
                forall|t: LinuxdevToken| #[trigger] self.registered(t) ==> self.device(t).evdev is Some,
                forall|j: int| 0 <= j < i ==> (#[trigger] r@[j]).0 == DeviceID(
                    OsDeviceID::Linuxdev(self.tokens()[j]),
                ) && device_info_of(r@[j].1, self.device(self.tokens()[j])),
            decreases self.evdev_controllers.len() - i,
        {
            let t = self.evdev_controllers[i].0;
            proof {
                assert(self.tokens()[i as int] == t);
                let k = self.tokens().index_of(t);
                assert(self.tokens()[k] == t);
                assert(self.registered(t));
            }
            let info = self.evdev_controllers[i].1.device_info();
            r.push((DeviceID(OsDeviceID::Linuxdev(t)), info));
            i = i + 1;
        }
        r
    }
}

/// Is a device worth keeping after its first reading at start-up? Unless it was found
/// disconnected.
pub fn worth_keeping(status: &Result<(), Error>) -> (r: bool)
    ensures
        r == !(status matches Err(Error::DeviceDisconnected(_))),
{
    match status {
        Err(Error::DeviceDisconnected(_)) => false,
        _ => true,
    }
}

/// What to do with a device that the udev monitor reports.
#[derive(Debug, Clone, PartialEq, Eq)]
pub enum MonitorStep {
    /// The report has no action: drop it.
    Skip,
    /// A device was added: build it and register it if it is a controller.
    AddDevice,
    /// A device was removed: queue the disconnection of the controller it was, if any.
    RemoveDevice,
    /// Another action, which is ignored.
    Ignore(UdevDeviceAction),
}

/// What to do with a device that the udev monitor reports with `action`, if any.
pub fn udev_monitor_step(action: Option<&str>) -> (r: MonitorStep)
    ensures
        action is None ==> r is Skip,
        action matches Some(a) ==> {
            &&& (r is AddDevice <==> a@ == "add"@)
            &&& (r is RemoveDevice <==> a@ == "remove"@)
            &&& (r is Ignore <==> (a@ != "add"@ && a@ != "remove"@))
        },
{
    match action {
        None => MonitorStep::Skip,
        Some(a) => {
            let act = UdevDeviceAction::from_cstr(a);
            match act {
                UdevDeviceAction::Add => MonitorStep::AddDevice,
                UdevDeviceAction::Remove => MonitorStep::RemoveDevice,
                other => MonitorStep::Ignore(other),
            }
        },
    }
}

} // verus!
