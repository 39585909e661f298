//! A capability instance together with the record of what was asked of it.
//!
//! The record is ghost state: it exists for the contracts and costs nothing
//! at run time. The instance is reachable only through the two operations
//! below. Each of them makes one call on the instance, with the argument it
//! was given, and extends the record by that call and its answer: so every
//! entry of the record is a call that was made, and no call is missing.

use vstd::prelude::*;
use crate::control::SystemAudioControl;
use crate::error::AudioControlError;

verus! {

/// One request sent to a capability instance, together with the answer.
pub enum Exchange {
    /// A query of the mute state, and the reply.
    IsMuted(Result<bool, AudioControlError>),
    /// A request to set the mute state to the given value, and its outcome.
    SetMuted(bool, Result<(), AudioControlError>),
}

/// A capability instance and the record of every exchange with it.
pub struct Recorded<C: SystemAudioControl> {
    controller: C,
    exchanges: Ghost<Seq<Exchange>>,
}

impl<C: SystemAudioControl> Recorded<C> {
    /// The capability instance.
    pub closed spec fn capability(&self) -> C {
        self.controller
    }

    /// Every exchange with the capability instance so far, oldest first.
    pub closed spec fn exchanges(&self) -> Seq<Exchange> {
        self.exchanges@
    }

    /// Starts an empty record for `controller`.
    pub fn new(controller: C) -> (recorded: Self)
        ensures
            recorded.capability() == controller,
            recorded.exchanges() == Seq::<Exchange>::empty(),
    {
        Recorded { controller, exchanges: Ghost(Seq::empty()) }
    }

    /// Asks the capability instance whether the output is muted: one call
    /// of its `is_muted`, whose reply is returned and recorded.
    pub fn is_muted(&mut self) -> (reply: Result<bool, AudioControlError>)
        ensures
            exists|c: &mut C|
                mut_ref_current(c) == old(self).capability()
                    && mut_ref_future(c) == final(self).capability()
                    && #[trigger] call_ensures(C::is_muted, (c,), reply),
            final(self).exchanges() == old(self).exchanges().push(Exchange::IsMuted(reply)),
    {
        let reply = self.controller.is_muted();
        self.exchanges = Ghost(self.exchanges@.push(Exchange::IsMuted(reply)));
        reply
    }

    /// Asks the capability instance to mute or unmute the output: one call
    /// of its `set_muted` with `muted`, whose outcome is returned and
    /// recorded.
    pub fn set_muted(&mut self, muted: bool) -> (outcome: Result<(), AudioControlError>)
        ensures
            exists|c: &mut C|
                mut_ref_current(c) == old(self).capability()
                    && mut_ref_future(c) == final(self).capability()
                    && #[trigger] call_ensures(C::set_muted, (c, muted), outcome),
            final(self).exchanges() == old(self).exchanges().push(
                Exchange::SetMuted(muted, outcome),
            ),
    {
        let outcome = self.controller.set_muted(muted);
        self.exchanges = Ghost(self.exchanges@.push(Exchange::SetMuted(muted, outcome)));
        outcome
    }
}

} // verus!
