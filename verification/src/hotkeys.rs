//! Abstract volume commands emitted by a system hotkey source.
//!
//! The capture of keyboard events is platform glue outside the engine; the
//! commands it emits are part of the engine's interface and flow through
//! the same kind of event channel the detector uses.

use vstd::prelude::*;

verus! {

/// Volume control command.
#[derive(Debug, Clone, Copy, PartialEq, Eq, Structural)]
pub enum VolumeCommand {
    /// Increase volume.
    VolumeUp,
    /// Decrease volume.
    VolumeDown,
    /// Toggle mute.
    Mute,
}

} // verus!
