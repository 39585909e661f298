//! Which platforms have a native audio-control implementation.

use vstd::prelude::*;

verus! {

/// The operating systems this library tells apart.
#[derive(Clone, Copy, Debug, PartialEq, Eq, Structural)]
pub enum Platform {
    Windows,
    MacOS,
    /// Any other system.
    Other,
}

/// Whether a native implementation of audio control exists for `platform`.
pub open spec fn has_native_control(platform: Platform) -> bool {
    platform == Platform::Windows || platform == Platform::MacOS
}

/// Whether muting the system audio is supported on `platform`. Where it is
/// not, the no-op controller stands in and every operation still succeeds.
pub fn is_supported(platform: Platform) -> (supported: bool)
    ensures
        supported == has_native_control(platform),
{
    match platform {
        Platform::Windows => true,
        Platform::MacOS => true,
        Platform::Other => false,
    }
}

} // verus!
