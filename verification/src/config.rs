//! The two load-time switches of the remapper.

use vstd::prelude::*;

verus! {

/// Switches set when the module is loaded and only read while events are
/// handled.
#[derive(Clone, Copy, Debug, PartialEq, Eq, Structural)]
pub struct RemapConfig {
    /// Turn the thumb buttons into workspace chords.
    pub remap_side_buttons: bool,
    /// Report each chord before it is injected. Changes nothing else.
    pub debug_mode: bool,
}

impl RemapConfig {
    /// Remapping on, reporting off.
    pub open spec fn initial() -> RemapConfig {
        RemapConfig { remap_side_buttons: true, debug_mode: false }
    }

    /// Builds a configuration from its two switches.
    pub fn new(remap_side_buttons: bool, debug_mode: bool) -> (config: RemapConfig)
        ensures
            config == (RemapConfig { remap_side_buttons, debug_mode }),
    {
        RemapConfig { remap_side_buttons, debug_mode }
    }
}

impl Default for RemapConfig {
    fn default() -> (config: RemapConfig)
        ensures
            config == RemapConfig::initial(),
    {
        RemapConfig { remap_side_buttons: true, debug_mode: false }
    }
}

} // verus!
