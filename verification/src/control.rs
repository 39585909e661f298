//! The audio-control capability: what the rest of the library asks of a
//! platform.

use vstd::prelude::*;
use crate::error::AudioControlError;
use crate::volume::Volume;

verus! {

/// Control over the system's default audio output.
///
/// One value of an implementing type is a handle to one output sink. The
/// library asks nothing of an implementation beyond answering: whatever an
/// operation returns, the callers in this library are verified for it.
pub trait SystemAudioControl: Send + Sync {
    /// The current output volume.
    fn get_volume(&mut self) -> Result<Volume, AudioControlError>;

    /// Sets the output volume. Implementations saturate `level` to the
    /// range from `0.0` to `1.0` rather than reject it.
    fn set_volume(&mut self, level: Volume) -> Result<(), AudioControlError>;

    /// Whether the output is muted.
    fn is_muted(&mut self) -> Result<bool, AudioControlError>;

    /// Mutes or unmutes the output.
    fn set_muted(&mut self, muted: bool) -> Result<(), AudioControlError>;
}

} // verus!
