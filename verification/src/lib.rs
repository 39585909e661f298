//! Silences the system's default audio output for the length of a recording
//! and puts back exactly what was there before.
//!
//! The library has two layers. [`SystemAudioControl`] is the capability a
//! platform offers: read and set the volume, read and set the mute flag.
//! [`AudioMuteManager`] owns one such capability instance and turns it into
//! sessions: `mute` before a recording, `unmute` after it, in any order and
//! any number of times, without ever unmuting an output that the user had
//! muted themselves.
//!
//! Nothing here performs I/O of its own. The no-op controller
//! ([`StubAudioController`]) needs none; the macOS controller
//! ([`MacOSAudioController`]) says which property accesses to make and reads
//! their answers, and leaves making them to its caller.
//!
//! A transition takes the manager by `&mut`: two transitions never overlap.
//! To share a manager between threads, put it behind a lock.

pub mod control;
pub mod error;
pub mod factory;
pub mod macos;
pub mod manager;
pub mod platform;
pub mod record;
pub mod stub;
pub mod text;
pub mod volume;

pub use control::SystemAudioControl;
pub use error::AudioControlError;
pub use factory::{create_controller, Controller};
pub use macos::MacOSAudioController;
pub use manager::AudioMuteManager;
pub use platform::{is_supported, Platform};
pub use stub::StubAudioController;
pub use volume::Volume;
