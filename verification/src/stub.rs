//! The no-op variant of the audio-control capability, for platforms without
//! a native one.

use vstd::prelude::*;
use crate::control::SystemAudioControl;
use crate::error::AudioControlError;
use crate::volume::{Volume, FULL_BITS};

verus! {

/// Where the one warning of a no-op controller stands.
#[derive(Clone, Copy, Debug, PartialEq, Eq, Structural)]
pub enum Warning {
    /// The controller has not been used: there is nothing to warn about.
    NotDue,
    /// An operation has been performed and the caller has not been told yet.
    Pending,
    /// The caller has been told to emit the warning.
    Emitted,
}

impl Warning {
    /// Where the warning stands after one more operation: a first
    /// operation makes it pending, and nothing else changes.
    pub open spec fn after_operation(self) -> Warning {
        if self == Warning::NotDue {
            Warning::Pending
        } else {
            self
        }
    }
}

/// An audio controller that controls nothing.
///
/// Every operation succeeds and reports an innocuous state: full volume, not
/// muted. The first operation of any kind raises a warning, once for the
/// lifetime of the value. This library writes no log: the warning stays
/// pending until `warn_once` hands it to the caller, who emits it.
#[derive(Debug)]
pub struct StubAudioController {
    warning: Warning,
}

impl StubAudioController {
    /// Where the warning stands.
    pub closed spec fn warning(&self) -> Warning {
        self.warning
    }

    /// How many times the caller has been told to emit the warning.
    pub open spec fn warnings(&self) -> nat {
        if self.warning() == Warning::Emitted {
            1
        } else {
            0
        }
    }

    /// A controller that has not been used.
    pub fn new() -> (stub: Self)
        ensures
            stub.warning() == Warning::NotDue,
    {
        StubAudioController { warning: Warning::NotDue }
    }

    /// Tells the caller whether to emit the warning now: `true` on the
    /// first call, `false` ever after. An operation performed earlier does
    /// not use the warning up, and a call before any operation hands it out
    /// ahead of the operation that is about to follow.
    pub fn warn_once(&mut self) -> (emit: bool)
        ensures
            emit == (old(self).warning() != Warning::Emitted),
            final(self).warning() == Warning::Emitted,
    {
        let emit = match self.warning {
            Warning::Emitted => false,
            _ => true,
        };
        self.warning = Warning::Emitted;
        emit
    }

    fn note_operation(&mut self)
        ensures
            final(self).warning() == old(self).warning().after_operation(),
    {
        let next = match self.warning {
            Warning::NotDue => Warning::Pending,
            Warning::Pending => Warning::Pending,
            Warning::Emitted => Warning::Emitted,
        };
        self.warning = next;
    }
}

impl SystemAudioControl for StubAudioController {
    /// Reports full volume.
    fn get_volume(&mut self) -> (r: Result<Volume, AudioControlError>)
        ensures
            r matches Ok(level) && level@ == FULL_BITS,
            final(self).warning() == old(self).warning().after_operation(),
    {
        self.note_operation();
        Ok(Volume::full())
    }

    /// Accepts any level and does nothing with it.
    fn set_volume(&mut self, level: Volume) -> (r: Result<(), AudioControlError>)
        ensures
            r is Ok,
            final(self).warning() == old(self).warning().after_operation(),
    {
        self.note_operation();
        Ok(())
    }

    /// Reports that the output is not muted.
    fn is_muted(&mut self) -> (r: Result<bool, AudioControlError>)
        ensures
            r == Ok::<bool, AudioControlError>(false),
            final(self).warning() == old(self).warning().after_operation(),
    {
        self.note_operation();
        Ok(false)
    }

    /// Accepts either state and does nothing with it.
    fn set_muted(&mut self, muted: bool) -> (r: Result<(), AudioControlError>)
        ensures
            r is Ok,
            final(self).warning() == old(self).warning().after_operation(),
    {
        self.note_operation();
        Ok(())
    }
}

/// What is done to a no-op controller in one step of its life.
pub enum Use {
    /// One of the four operations.
    Operation,
    /// A call of `warn_once`.
    WarnOnce,
}

/// Whether `states`, `uses` and `told` describe a life of a no-op
/// controller from its construction on: `states[i]` is where the warning
/// stands before step `i`, `uses[i]` is what that step does, and `told[i]`
/// is whether that step tells the caller to emit the warning. Each step
/// goes by the contract of the function it calls.
pub open spec fn is_life(states: Seq<Warning>, uses: Seq<Use>, told: Seq<bool>) -> bool {
    &&& states.len() == uses.len() + 1
    &&& told.len() == uses.len()
    &&& states[0] == Warning::NotDue
    &&& forall|i: int|
        0 <= i < uses.len() ==> match #[trigger] uses[i] {
            Use::Operation => states[i + 1] == states[i].after_operation() && !told[i],
            Use::WarnOnce => states[i + 1] == Warning::Emitted && told[i] == (states[i]
                != Warning::Emitted),
        }
}

/// The caller is told to emit the warning exactly once, by the first call
/// of `warn_once`, however many operations and further calls there are
/// before and after it. And the warning is never lost: from the first
/// operation on it is pending until it is handed out.
pub proof fn lemma_warns_exactly_once(states: Seq<Warning>, uses: Seq<Use>, told: Seq<bool>)
    requires
        is_life(states, uses, told),
    ensures
        forall|i: int|
            0 <= i < uses.len() ==> (#[trigger] told[i] <==> (uses[i] is WarnOnce && forall|j: int|
                0 <= j < i ==> !(#[trigger] uses[j] is WarnOnce))),
        forall|i: int, j: int|
            0 <= i < uses.len() && 0 <= j < uses.len() && #[trigger] told[i] && #[trigger] told[j]
                ==> i == j,
        forall|i: int|
            0 <= i < uses.len() && #[trigger] uses[i] is Operation ==> states[i + 1]
                != Warning::NotDue,
{
    assert forall|i: int| 0 <= i < uses.len() implies (#[trigger] told[i] <==> (uses[i] is WarnOnce
        && forall|j: int| 0 <= j < i ==> !(#[trigger] uses[j] is WarnOnce))) by {
        lemma_emitted_after_warn_once(states, uses, told, i);
    }
    assert forall|i: int, j: int|
        0 <= i < uses.len() && 0 <= j < uses.len() && #[trigger] told[i] && #[trigger] told[j]
        implies i == j by {
        lemma_emitted_after_warn_once(states, uses, told, i);
        lemma_emitted_after_warn_once(states, uses, told, j);
    }
}

/// Before step `at`, the warning has been handed out if and only if one of
/// the earlier steps was a call of `warn_once`.
proof fn lemma_emitted_after_warn_once(
    states: Seq<Warning>,
    uses: Seq<Use>,
    told: Seq<bool>,
    at: int,
)
    requires
        is_life(states, uses, told),
        0 <= at <= uses.len(),
    ensures
        states[at] == Warning::Emitted <==> exists|j: int|
            0 <= j < at && #[trigger] uses[j] is WarnOnce,
    decreases at,
{
    if at > 0 {
        lemma_emitted_after_warn_once(states, uses, told, at - 1);
        let last = at - 1;
        match uses[last] {
            Use::WarnOnce => {
                assert(uses[last] is WarnOnce);
            },
            Use::Operation => {
                if exists|j: int| 0 <= j < at && #[trigger] uses[j] is WarnOnce {
                    let j = choose|j: int| 0 <= j < at && #[trigger] uses[j] is WarnOnce;
                    assert(j < last);
                }
            },
        }
    }
}

} // verus!
