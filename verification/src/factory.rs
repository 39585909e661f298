//! Choosing the capability instance for the platform the process runs on.

use vstd::prelude::*;
use crate::control::SystemAudioControl;
use crate::error::AudioControlError;
use crate::platform::{has_native_control, is_supported, Platform};
use crate::stub::{StubAudioController, Warning};
use crate::volume::{Volume, FULL_BITS};

verus! {

/// The capability instance of a process: the platform's native controller
/// where there is one, the no-op controller everywhere else.
pub enum Controller<N> {
    /// The native controller of the platform.
    Native(N),
    /// The no-op controller.
    Stub(StubAudioController),
}

impl<N> Controller<N> {
    /// Whether this is the no-op controller.
    pub open spec fn is_stub(&self) -> bool {
        self is Stub
    }

    /// Where the warning of the no-op controller stands. A native
    /// controller has none: for it the warning is never due.
    pub open spec fn warning(&self) -> Warning {
        match self {
            Controller::Stub(stub) => stub.warning(),
            Controller::Native(_) => Warning::NotDue,
        }
    }

    /// Tells the caller whether to emit the warning of the no-op controller
    /// now: `true` on the first call on a no-op controller, `false` ever
    /// after. A native controller never warns and stays as it is.
    pub fn warn_once(&mut self) -> (emit: bool)
        ensures
            emit == (old(self).is_stub() && old(self).warning() != Warning::Emitted),
            old(self).is_stub() ==> final(self).is_stub() && final(self).warning()
                == Warning::Emitted,
            !old(self).is_stub() ==> *final(self) == *old(self),
    {
        match self {
            Controller::Native(_) => false,
            Controller::Stub(stub) => stub.warn_once(),
        }
    }
}

impl<N: SystemAudioControl> SystemAudioControl for Controller<N> {
    /// Asks whichever controller this is for the volume: the native controller
    /// by one call of its `get_volume`, whose reply is returned; the no-op
    /// controller reports full volume.
    fn get_volume(&mut self) -> (r: Result<Volume, AudioControlError>)
        ensures
            *old(self) matches Controller::Native(before) ==> (*final(self) matches Controller::Native(
                after,
            ) && exists|n: &mut N|
                mut_ref_current(n) == before && mut_ref_future(n) == after
                    && #[trigger] call_ensures(N::get_volume, (n,), r)),
            old(self).is_stub() ==> (r matches Ok(level) && level@ == FULL_BITS),
            old(self).is_stub() ==> final(self).is_stub() && final(self).warning()
                == old(self).warning().after_operation(),
    {
        match self {
            Controller::Native(native) => native.get_volume(),
            Controller::Stub(stub) => stub.get_volume(),
        }
    }

    /// Asks whichever controller this is to set the volume: the native
    /// controller by one call of its `set_volume` with `level`, whose outcome
    /// is returned; the no-op controller accepts any level.
    fn set_volume(&mut self, level: Volume) -> (r: Result<(), AudioControlError>)
        ensures
            *old(self) matches Controller::Native(before) ==> (*final(self) matches Controller::Native(
                after,
            ) && exists|n: &mut N|
                mut_ref_current(n) == before && mut_ref_future(n) == after
                    && #[trigger] call_ensures(N::set_volume, (n, level), r)),
            old(self).is_stub() ==> r is Ok,
            old(self).is_stub() ==> final(self).is_stub() && final(self).warning()
                == old(self).warning().after_operation(),
    {
        match self {
            Controller::Native(native) => native.set_volume(level),
            Controller::Stub(stub) => stub.set_volume(level),
        }
    }

    /// Asks whichever controller this is whether the output is muted: the
    /// native controller by one call of its `is_muted`, whose reply is
    /// returned; the no-op controller reports that it is not.
    fn is_muted(&mut self) -> (r: Result<bool, AudioControlError>)
        ensures
            *old(self) matches Controller::Native(before) ==> (*final(self) matches Controller::Native(
                after,
            ) && exists|n: &mut N|
                mut_ref_current(n) == before && mut_ref_future(n) == after
                    && #[trigger] call_ensures(N::is_muted, (n,), r)),
            old(self).is_stub() ==> r == Ok::<bool, AudioControlError>(false),
            old(self).is_stub() ==> final(self).is_stub() && final(self).warning()
                == old(self).warning().after_operation(),
    {
        match self {
            Controller::Native(native) => native.is_muted(),
            Controller::Stub(stub) => stub.is_muted(),
        }
    }

    /// Asks whichever controller this is to mute or unmute the output: the
    /// native controller by one call of its `set_muted` with `muted`, whose
    /// outcome is returned; the no-op controller accepts either state.
    fn set_muted(&mut self, muted: bool) -> (r: Result<(), AudioControlError>)
        ensures
            *old(self) matches Controller::Native(before) ==> (*final(self) matches Controller::Native(
                after,
            ) && exists|n: &mut N|
                mut_ref_current(n) == before && mut_ref_future(n) == after
                    && #[trigger] call_ensures(N::set_muted, (n, muted), r)),
            old(self).is_stub() ==> r is Ok,
            old(self).is_stub() ==> final(self).is_stub() && final(self).warning()
                == old(self).warning().after_operation(),
    {
        match self {
            Controller::Native(native) => native.set_muted(muted),
            Controller::Stub(stub) => stub.set_muted(muted),
        }
    }
}

/// Creates the audio controller for `platform`.
///
/// Where the platform has a native controller, `open_native` is called to
/// construct it, and its failure is the failure of this function. Everywhere
/// else the result is a no-op controller that has not been used, and
/// `open_native` is not called.
pub fn create_controller<N, F>(
    platform: Platform,
    open_native: F,
) -> (r: Result<Controller<N>, AudioControlError>)
    where
        N: SystemAudioControl,
        F: FnOnce() -> Result<N, AudioControlError>,
    requires
        call_requires(open_native, ()),
    ensures
        !has_native_control(platform) ==> (r matches Ok(Controller::Stub(stub))
            && stub.warning() == Warning::NotDue),
        has_native_control(platform) ==> match r {
            Ok(Controller::Native(native)) => {
                call_ensures(open_native, (), Ok::<N, AudioControlError>(native))
            },
            Ok(Controller::Stub(_)) => false,
            Err(e) => call_ensures(open_native, (), Err::<N, AudioControlError>(e)),
        },
{
    if is_supported(platform) {
        match open_native() {
            Ok(native) => Ok(Controller::Native(native)),
            Err(e) => Err(e),
        }
    } else {
        Ok(Controller::Stub(StubAudioController::new()))
    }
}

} // verus!
