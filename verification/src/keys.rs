//! Event classes and key codes the remapper distinguishes.

use vstd::prelude::*;

verus! {

/// Class of an input event, and of a capability a device advertises.
#[derive(Clone, Copy, Debug, PartialEq, Eq, Structural)]
pub enum EventType {
    /// Synchronization barrier between batches of events.
    Sync,
    /// Key or button state change.
    Key,
    /// Relative axis movement.
    Relative,
    /// Absolute axis position.
    Absolute,
    /// Any class the remapper has no use for, by its raw number.
    Other(u16),
}

/// Key or button code.
#[derive(Clone, Copy, Debug, PartialEq, Eq, Structural)]
pub enum Key {
    /// Left "super" modifier.
    LeftMeta,
    PageUp,
    PageDown,
    ButtonLeft,
    ButtonRight,
    ButtonMiddle,
    /// Rear thumb button.
    ButtonSide,
    /// Front thumb button.
    ButtonExtra,
    /// Any code the remapper has no name for, by its raw number.
    Other(u16),
}

/// Event value of a key going up.
pub const VALUE_RELEASE: i32 = 0;

/// Event value of a key going down.
pub const VALUE_PRESS: i32 = 1;

/// Event value of a key held down long enough to repeat.
pub const VALUE_REPEAT: i32 = 2;

impl Key {
    /// Whether this is one of the two thumb buttons the remapper watches.
    pub open spec fn is_watched(self) -> bool {
        self == Key::ButtonSide || self == Key::ButtonExtra
    }

    /// Whether this is one of the two thumb buttons the remapper watches.
    pub fn watched(self) -> (r: bool)
        ensures
            r == self.is_watched(),
    {
        self == Key::ButtonSide || self == Key::ButtonExtra
    }
}

} // verus!
