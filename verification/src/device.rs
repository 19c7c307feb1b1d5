//! A physical input device as the host describes it, and the matcher that
//! picks out the M720.

use vstd::prelude::*;
use crate::keys::{EventType, Key};
use crate::text::{contains, occurs_in};

verus! {

/// What the host tells about a device: its name, if it has one, the event
/// classes it can report, and the key codes it can report.
#[derive(Debug)]
pub struct PhysicalDevice {
    name: Option<String>,
    capabilities: Vec<EventType>,
    keys: Vec<Key>,
}

/// A device as a mathematical value. The capabilities are sets: how often
/// and in what order the host listed them does not matter.
pub struct DeviceView {
    pub name: Option<Seq<char>>,
    pub capabilities: Set<EventType>,
    pub keys: Set<Key>,
}

impl View for PhysicalDevice {
    type V = DeviceView;

    closed spec fn view(&self) -> DeviceView {
        DeviceView {
            name: match self.name {
                Some(name) => Some(name@),
                None => None,
            },
            capabilities: self.capabilities@.to_set(),
            keys: self.keys@.to_set(),
        }
    }
}

/// The model number that marks the device's name.
pub open spec fn model_marker() -> Seq<char> {
    seq!['M', '7', '2', '0']
}

/// The vendor's name that marks the device's name.
pub open spec fn vendor_marker() -> Seq<char> {
    seq!['L', 'o', 'g', 'i', 't', 'e', 'c', 'h']
}

/// Whether a device is the one to remap: its name holds one of the two
/// markers, it reports key events, and it has both thumb buttons. A device
/// without a name never matches.
pub open spec fn device_matches(device: DeviceView) -> bool {
    &&& device.name matches Some(name) && (occurs_in(name, model_marker()) || occurs_in(
        name,
        vendor_marker(),
    ))
    &&& device.capabilities.contains(EventType::Key)
    &&& device.keys.contains(Key::ButtonSide)
    &&& device.keys.contains(Key::ButtonExtra)
}

impl PhysicalDevice {
    /// Describes a device by its name, its event classes and its key codes.
    pub fn new(name: Option<String>, capabilities: Vec<EventType>, keys: Vec<Key>) -> (device:
        PhysicalDevice)
        ensures
            device@.name == match name {
                Some(name) => Some(name@),
                None => None::<Seq<char>>,
            },
            device@.capabilities == capabilities@.to_set(),
            device@.keys == keys@.to_set(),
    {
        PhysicalDevice { name, capabilities, keys }
    }

    /// The device's name, if it has one.
    pub fn name(&self) -> (name: Option<&str>)
        ensures
            match name {
                Some(name) => self@.name == Some(name@),
                None => self@.name is None,
            },
    {
        match &self.name {
            Some(name) => Some(name.as_str()),
            None => None,
        }
    }

    /// Whether the device reports events of class `event_type`.
    pub fn has_capability(&self, event_type: EventType) -> (has: bool)
        ensures
            has == self@.capabilities.contains(event_type),
    {
        let mut i: usize = 0;
        while i < self.capabilities.len()
            invariant
                i <= self.capabilities.len(),
                forall|k: int| 0 <= k < i ==> self.capabilities@[k] != event_type,
            decreases self.capabilities.len() - i,
        {
            if self.capabilities[i] == event_type {
                return true;
            }
            i += 1;
        }
        false
    }

    /// Whether the device can report the key `key`.
    pub fn has_key_capability(&self, key: Key) -> (has: bool)
        ensures
            has == self@.keys.contains(key),
    {
        let mut i: usize = 0;
        while i < self.keys.len()
            invariant
                i <= self.keys.len(),
                forall|k: int| 0 <= k < i ==> self.keys@[k] != key,
            decreases self.keys.len() - i,
        {
            if self.keys[i] == key {
                return true;
            }
            i += 1;
        }
        false
    }
}

/// Decides whether `device` is an M720. Any device may be asked about; one
/// that lacks a name or a capability is simply not a match.
pub fn is_m720_device(device: &PhysicalDevice) -> (is_match: bool)
    ensures
        is_match == device_matches(device@),
{
    match device.name() {
        Some(name) => {
            proof {
                reveal_strlit("M720");
                reveal_strlit("Logitech");
                assert("M720"@ =~= model_marker());
                assert("Logitech"@ =~= vendor_marker());
            }
            if contains(name, "M720") || contains(name, "Logitech") {
                device.has_capability(EventType::Key) && device.has_key_capability(
                    Key::ButtonSide,
                ) && device.has_key_capability(Key::ButtonExtra)
            } else {
                false
            }
        },
        None => false,
    }
}

} // verus!
