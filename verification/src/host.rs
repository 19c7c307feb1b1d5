//! What the remapper asks of the host's input subsystem, and what the host
//! answers.
//!
//! The remapper never calls the host. Its functions return requests; whoever
//! drives it performs them and reports how they went.

use vstd::prelude::*;
use crate::keys::{EventType, Key};

verus! {

/// Name under which the virtual keyboard is created.
pub const VIRTUAL_DEVICE_NAME: &'static str = "M720 Virtual Keyboard";

/// Name under which the handler is registered.
pub const HANDLER_NAME: &'static str = "m720_remapper";

/// The code that stands for a failure the host gave no usable code for.
pub const EINVAL: i32 = -22;

/// Status of a load that went through.
pub const STATUS_LOADED: i32 = 0;

/// One call into the host's input subsystem.
#[derive(Clone, Copy, Debug, PartialEq, Eq, Structural)]
pub enum HostRequest {
    /// Create the virtual keyboard under `VIRTUAL_DEVICE_NAME`.
    CreateVirtualDevice,
    /// Let the virtual keyboard advertise an event class.
    SetCapability(EventType),
    /// Let the virtual keyboard advertise a key.
    SetKeyCapability(Key),
    /// Make the virtual keyboard visible to the rest of the input stack.
    RegisterVirtualDevice,
    /// Register the handler under `HANDLER_NAME`; from then on devices are
    /// offered and withdrawn.
    RegisterHandler,
    /// Take the handler back; afterwards no device is offered any more.
    UnregisterHandler,
    /// Take the registered virtual keyboard back and free it.
    UnregisterVirtualDevice,
    /// Free a virtual keyboard that was never registered.
    DestroyVirtualDevice,
    /// Open a session on the device with this number.
    OpenSession(u64),
    /// Close the session on the device with this number.
    CloseSession(u64),
}

/// The error code of a failed host call. It is always negative.
#[derive(Clone, Copy, Debug)]
pub struct Errno {
    code: i32,
}

impl View for Errno {
    type V = int;

    closed spec fn view(&self) -> int {
        self.code as int
    }
}

impl Errno {
    #[verifier::type_invariant]
    spec fn inv(self) -> bool {
        self.code < 0
    }

    /// The code that `raw` stands for: `raw` itself where it is negative,
    /// `EINVAL` where it is not.
    pub open spec fn normalize(raw: i32) -> int {
        if raw < 0 {
            raw as int
        } else {
            EINVAL as int
        }
    }

    /// Takes the code a host call failed with. A host that reports a failure
    /// without a negative code gets `EINVAL`.
    pub fn new(raw: i32) -> (errno: Errno)
        ensures
            errno@ == Errno::normalize(raw),
            errno@ < 0,
    {
        if raw < 0 {
            Errno { code: raw }
        } else {
            Errno { code: EINVAL }
        }
    }

    /// The code, as it is handed back to the host.
    pub fn code(&self) -> (code: i32)
        ensures
            code == self@,
            code < 0,
    {
        proof {
            use_type_invariant(self);
        }
        self.code
    }
}

} // verus!
