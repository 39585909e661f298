//! The mute session manager: mutes the output for a recording and restores
//! afterwards what it found.

use vstd::prelude::*;
use crate::control::SystemAudioControl;
use crate::error::AudioControlError;
use crate::record::{Exchange, Recorded};

verus! {

/// Where the manager stands.
#[derive(Clone, Copy, Debug, PartialEq, Eq, Structural)]
pub enum Session {
    /// The manager is not muting.
    Idle,
    /// The manager is muting. `was_muted_before` is the mute state it found
    /// when the session began, and the state to leave behind when it ends.
    Muting { was_muted_before: bool },
}

/// The manager as its contracts see it.
pub struct ManagerView {
    /// Where the manager stands.
    pub session: Session,
    /// Every exchange with the capability instance so far, oldest first.
    pub exchanges: Seq<Exchange>,
}

/// The mute state that a reply to the mute query stands for. A failed query
/// counts as "not muted".
pub open spec fn prior_state(reply: Result<bool, AudioControlError>) -> bool {
    reply matches Ok(muted) && muted
}

/// The reply to the mute query that began the session which `post` is in and
/// `pre` was not: the first exchange that `post` holds beyond those of `pre`.
pub open spec fn query_reply(
    pre: ManagerView,
    post: ManagerView,
) -> Result<bool, AudioControlError> {
    post.exchanges[pre.exchanges.len() as int]->IsMuted_0
}

/// What `mute` does: `pre` and `post` are the manager before and after the
/// call, `result` is what the call returns.
///
/// While a session is active the call changes nothing, sends nothing and
/// succeeds. From idle it begins a session: it queries the mute state and
/// keeps the answer as the state to restore; if the output was not muted it
/// asks for it to be muted and returns the outcome of that request; if the
/// output was muted already it sends nothing more and succeeds. The session
/// is active afterwards whatever the outcome.
pub open spec fn mute_step(
    pre: ManagerView,
    post: ManagerView,
    result: Result<(), AudioControlError>,
) -> bool {
    match pre.session {
        Session::Muting { .. } => post == pre && result is Ok,
        Session::Idle => {
            &&& post.exchanges.len() > pre.exchanges.len()
            &&& post.exchanges[pre.exchanges.len() as int] matches Exchange::IsMuted(reply)
            &&& post.session == Session::Muting { was_muted_before: prior_state(reply) }
            &&& if prior_state(reply) {
                post.exchanges == pre.exchanges.push(Exchange::IsMuted(reply)) && result is Ok
            } else {
                post.exchanges == pre.exchanges.push(Exchange::IsMuted(reply)).push(
                    Exchange::SetMuted(true, result),
                )
            }
        },
    }
}

/// What `unmute` does: `pre` and `post` are the manager before and after the
/// call, `result` is what the call returns.
///
/// While idle the call changes nothing, sends nothing and succeeds. During a
/// session it ends the session: if the output was not muted when the session
/// began it asks for it to be unmuted and returns the outcome of that
/// request; if it was muted then, it sends nothing and succeeds. The manager
/// is idle afterwards whatever the outcome.
pub open spec fn unmute_step(
    pre: ManagerView,
    post: ManagerView,
    result: Result<(), AudioControlError>,
) -> bool {
    match pre.session {
        Session::Idle => post == pre && result is Ok,
        Session::Muting { was_muted_before } => {
            &&& post.session == Session::Idle
            &&& if was_muted_before {
                post.exchanges == pre.exchanges && result is Ok
            } else {
                post.exchanges == pre.exchanges.push(Exchange::SetMuted(false, result))
            }
        },
    }
}

/// What `release` does: the `unmute` transition, with its result dropped.
pub open spec fn release_step(pre: ManagerView, post: ManagerView) -> bool {
    exists|result: Result<(), AudioControlError>| unmute_step(pre, post, result)
}

/// The exchanges that `post` holds beyond those of `pre`.
pub open spec fn added(pre: ManagerView, post: ManagerView) -> Seq<Exchange> {
    post.exchanges.skip(pre.exchanges.len() as int)
}

/// The values of the set requests among `exchanges`, in the order in which
/// they were sent.
pub open spec fn set_requests(exchanges: Seq<Exchange>) -> Seq<bool>
    decreases exchanges.len(),
{
    if exchanges.len() == 0 {
        Seq::empty()
    } else {
        let earlier = set_requests(exchanges.drop_last());
        match exchanges.last() {
            Exchange::SetMuted(muted, _) => earlier.push(muted),
            Exchange::IsMuted(_) => earlier,
        }
    }
}

/// The mute state of an output that was `muted` and then served
/// `exchanges`, on an output where a set request that succeeds takes effect,
/// one that fails does not, and nothing else touches the state.
pub open spec fn output_after(muted: bool, exchanges: Seq<Exchange>) -> bool
    decreases exchanges.len(),
{
    if exchanges.len() == 0 {
        muted
    } else {
        match exchanges.last() {
            Exchange::SetMuted(requested, Ok(_)) => requested,
            _ => output_after(muted, exchanges.drop_last()),
        }
    }
}

/// The mute state to restore when a session ends, given the reply to the
/// mute query made when it began. A failed query counts as "not muted", so
/// that the session ends by unmuting.
pub fn prior_mute(reply: &Result<bool, AudioControlError>) -> (was_muted: bool)
    ensures
        was_muted == prior_state(*reply),
{
    match reply {
        Ok(muted) => *muted,
        Err(_) => false,
    }
}

/// Mutes the system audio for the length of a recording and restores
/// afterwards the mute state it found.
///
/// The manager owns one capability instance. `mute` and `unmute` may be
/// called any number of times and in any order.
pub struct AudioMuteManager<C: SystemAudioControl> {
    controller: Recorded<C>,
    /// Was the output already muted when the session began? Read only
    /// during a session.
    was_muted_before: bool,
    /// Is a session active, that is: is this manager the cause of the mute?
    is_currently_muting: bool,
}

impl<C: SystemAudioControl> View for AudioMuteManager<C> {
    type V = ManagerView;

    closed spec fn view(&self) -> ManagerView {
        ManagerView {
            session: if self.is_currently_muting {
                Session::Muting { was_muted_before: self.was_muted_before }
            } else {
                Session::Idle
            },
            exchanges: self.controller.exchanges(),
        }
    }
}

impl<C: SystemAudioControl> AudioMuteManager<C> {
    /// The capability instance the manager owns.
    pub closed spec fn capability(&self) -> C {
        self.controller.capability()
    }

    /// The mute state the manager has on file as the one to restore. It is
    /// written when a session begins and means something only while the
    /// session lasts; while idle it is what the last session left behind,
    /// and nothing reads it.
    pub closed spec fn stored_prior_state(&self) -> bool {
        self.was_muted_before
    }

    /// Builds the manager around a freshly created capability instance.
    ///
    /// `created` is the outcome of creating the instance. Where that failed
    /// there is no manager, and the caller goes on without muting. A new
    /// manager is idle and has sent nothing.
    pub fn new(created: Result<C, AudioControlError>) -> (manager: Option<Self>)
        ensures
            created is Err ==> manager is None,
            created matches Ok(controller) ==> (manager matches Some(m)
                && m.capability() == controller
                && m@.session == Session::Idle
                && m@.exchanges == Seq::<Exchange>::empty()),
    {
        match created {
            Ok(controller) => Some(
                AudioMuteManager {
                    controller: Recorded::new(controller),
                    was_muted_before: false,
                    is_currently_muting: false,
                },
            ),
            Err(_) => None,
        }
    }

    /// Where the manager stands.
    pub fn session(&self) -> (session: Session)
        ensures
            session == self@.session,
    {
        if self.is_currently_muting {
            Session::Muting { was_muted_before: self.was_muted_before }
        } else {
            Session::Idle
        }
    }

    /// Mutes the system audio for a recording.
    ///
    /// A failure to mute is returned but does not undo the session: the
    /// manager counts as muting from here on, and a later `unmute` restores.
    ///
    /// The exchanges that the call puts on record are calls it made on the
    /// capability instance: the query, and after it the request to mute where
    /// the query did not find the output muted. Where nothing is put on
    /// record the instance is as it was.
    pub fn mute(&mut self) -> (result: Result<(), AudioControlError>)
        ensures
            mute_step(old(self)@, final(self)@, result),
            final(self)@.session == (Session::Muting {
                was_muted_before: final(self).stored_prior_state(),
            }),
            old(self)@.session is Muting ==> final(self).stored_prior_state()
                == old(self).stored_prior_state(),
            final(self)@.exchanges == old(self)@.exchanges ==> final(self).capability()
                == old(self).capability(),
            old(self)@.session is Idle ==> exists|c: &mut C|
                mut_ref_current(c) == old(self).capability()
                    && #[trigger] call_ensures(
                    C::is_muted,
                    (c,),
                    query_reply(old(self)@, final(self)@),
                ) && if prior_state(query_reply(old(self)@, final(self)@)) {
                    mut_ref_future(c) == final(self).capability()
                } else {
                    exists|d: &mut C|
                        mut_ref_current(d) == mut_ref_future(c)
                            && mut_ref_future(d) == final(self).capability()
                            && #[trigger] call_ensures(C::set_muted, (d, true), result)
                },
    {
        if self.is_currently_muting {
            return Ok(());
        }
        self.is_currently_muting = true;
        let reply = self.controller.is_muted();
        let was_muted = prior_mute(&reply);
        self.was_muted_before = was_muted;
        if !was_muted {
            self.controller.set_muted(true)
        } else {
            Ok(())
        }
    }

    /// Restores the system audio after a recording: unmutes it if, and only
    /// if, this manager was the one that muted it.
    ///
    /// The request that the call puts on record is a call it made on the
    /// capability instance. Where nothing is put on record the instance is
    /// as it was. The mute state on file stays as it is.
    pub fn unmute(&mut self) -> (result: Result<(), AudioControlError>)
        ensures
            unmute_step(old(self)@, final(self)@, result),
            final(self).stored_prior_state() == old(self).stored_prior_state(),
            final(self)@.exchanges == old(self)@.exchanges ==> final(self).capability()
                == old(self).capability(),
            old(self)@.session == (Session::Muting { was_muted_before: false }) ==> exists|
                c: &mut C,
            |
                mut_ref_current(c) == old(self).capability()
                    && mut_ref_future(c) == final(self).capability()
                    && #[trigger] call_ensures(C::set_muted, (c, false), result),
    {
        if !self.is_currently_muting {
            return Ok(());
        }
        self.is_currently_muting = false;
        if !self.was_muted_before {
            let outcome = self.controller.set_muted(false);
            assert(self@.exchanges.len() == old(self)@.exchanges.len() + 1);
            outcome
        } else {
            Ok(())
        }
    }

    /// Ends a session that is still active, for the moment the manager goes
    /// out of use. The attempt is made once and its outcome is dropped.
    ///
    /// The request that the call puts on record is a call it made on the
    /// capability instance. Where nothing is put on record the instance is
    /// as it was. The mute state on file stays as it is.
    pub fn release(&mut self)
        ensures
            release_step(old(self)@, final(self)@),
            final(self).stored_prior_state() == old(self).stored_prior_state(),
            final(self)@.exchanges == old(self)@.exchanges ==> final(self).capability()
                == old(self).capability(),
            old(self)@.session == (Session::Muting { was_muted_before: false }) ==> exists|
                c: &mut C,
                dropped: Result<(), AudioControlError>,
            |
                mut_ref_current(c) == old(self).capability()
                    && mut_ref_future(c) == final(self).capability()
                    && #[trigger] call_ensures(C::set_muted, (c, false), dropped)
                    && final(self)@.exchanges == old(self)@.exchanges.push(
                    Exchange::SetMuted(false, dropped),
                ),
    {
        if self.is_currently_muting {
            let dropped = self.unmute();
            assert(unmute_step(old(self)@, self@, dropped));
        } else {
            assert(unmute_step(old(self)@, self@, Ok(())));
        }
    }
}

/// Muting twice in a row is muting once: the second call finds the session
/// active, leaves the manager as it is, sends nothing and succeeds.
pub proof fn lemma_mute_twice(
    pre: ManagerView,
    mid: ManagerView,
    post: ManagerView,
    first: Result<(), AudioControlError>,
    second: Result<(), AudioControlError>,
)
    requires
        mute_step(pre, mid, first),
        mute_step(mid, post, second),
    ensures
        post == mid,
        second is Ok,
        added(mid, post) == Seq::<Exchange>::empty(),
{
    assert(added(mid, post) =~= Seq::<Exchange>::empty());
}

/// Unmuting while idle does nothing: the manager stays as it is, nothing is
/// sent, and the call succeeds.
pub proof fn lemma_unmute_when_idle(
    pre: ManagerView,
    post: ManagerView,
    result: Result<(), AudioControlError>,
)
    requires
        pre.session is Idle,
        unmute_step(pre, post, result),
    ensures
        post == pre,
        result is Ok,
        added(pre, post) == Seq::<Exchange>::empty(),
{
    assert(added(pre, post) =~= Seq::<Exchange>::empty());
}

/// Unmuting twice in a row is unmuting once: the first call leaves the
/// manager idle, so the second is a call while idle.
pub proof fn lemma_unmute_twice(
    pre: ManagerView,
    mid: ManagerView,
    post: ManagerView,
    first: Result<(), AudioControlError>,
    second: Result<(), AudioControlError>,
)
    requires
        unmute_step(pre, mid, first),
        unmute_step(mid, post, second),
    ensures
        post == mid,
        second is Ok,
        added(mid, post) == Seq::<Exchange>::empty(),
{
    lemma_unmute_when_idle(mid, post, second);
}

/// A session on an output that was found unmuted: `mute` followed by
/// `unmute` sends exactly two set requests, the first to mute and the second
/// to unmute, each call returns the outcome of its request, and where the
/// request to unmute succeeds the output is left unmuted.
pub proof fn lemma_session_restores_unmuted(
    pre: ManagerView,
    mid: ManagerView,
    post: ManagerView,
    muted: Result<(), AudioControlError>,
    unmuted: Result<(), AudioControlError>,
)
    requires
        pre.session is Idle,
        mute_step(pre, mid, muted),
        unmute_step(mid, post, unmuted),
        // The query that began the session found the output unmuted.
        mid.exchanges[pre.exchanges.len() as int] == Exchange::IsMuted(Ok(false)),
    ensures
        post.session is Idle,
        added(pre, post) == seq![
            Exchange::IsMuted(Ok(false)),
            Exchange::SetMuted(true, muted),
            Exchange::SetMuted(false, unmuted),
        ],
        set_requests(added(pre, post)) == seq![true, false],
        output_after(false, added(pre, post)) == (muted is Ok && unmuted is Err),
{
    let sent = seq![
        Exchange::IsMuted(Ok(false)),
        Exchange::SetMuted(true, muted),
        Exchange::SetMuted(false, unmuted),
    ];
    assert(added(pre, post) =~= sent);
    let none = Seq::<Exchange>::empty();
    let one = none.push(sent[0]);
    let two = one.push(sent[1]);
    assert(two.push(sent[2]) =~= sent);
    lemma_one_more_exchange(false, none, sent[0]);
    lemma_one_more_exchange(false, one, sent[1]);
    lemma_one_more_exchange(false, two, sent[2]);
}

/// A session on an output that was found muted: `mute` followed by `unmute`
/// sends no set request at all, both calls succeed, and the output is muted
/// at every point of the session.
pub proof fn lemma_session_leaves_muted(
    pre: ManagerView,
    mid: ManagerView,
    post: ManagerView,
    muted: Result<(), AudioControlError>,
    unmuted: Result<(), AudioControlError>,
)
    requires
        pre.session is Idle,
        mute_step(pre, mid, muted),
        unmute_step(mid, post, unmuted),
        // The query that began the session found the output muted.
        mid.exchanges[pre.exchanges.len() as int] == Exchange::IsMuted(Ok(true)),
    ensures
        post.session is Idle,
        muted is Ok,
        unmuted is Ok,
        added(pre, post) == seq![Exchange::IsMuted(Ok(true))],
        set_requests(added(pre, post)) == Seq::<bool>::empty(),
        forall|n: int|
            0 <= n <= added(pre, post).len() ==> #[trigger] output_after(
                true,
                added(pre, post).take(n),
            ),
{
    let sent = seq![Exchange::IsMuted(Ok(true))];
    assert(added(pre, post) =~= sent);
    let none = Seq::<Exchange>::empty();
    assert(none.push(sent[0]) =~= sent);
    lemma_one_more_exchange(true, none, sent[0]);
    assert forall|n: int| 0 <= n <= sent.len() implies #[trigger] output_after(
        true,
        sent.take(n),
    ) by {
        if n == 0 {
            assert(sent.take(0) =~= none);
        } else {
            assert(sent.take(1) =~= sent);
        }
    }
}

/// Releasing a manager during a session that began on an unmuted output
/// sends exactly one request, to unmute, and leaves the manager idle.
pub proof fn lemma_release_unmutes_once(pre: ManagerView, post: ManagerView)
    requires
        pre.session == (Session::Muting { was_muted_before: false }),
        release_step(pre, post),
    ensures
        post.session is Idle,
        added(pre, post).len() == 1,
        set_requests(added(pre, post)) == seq![false],
{
    let dropped = choose|result: Result<(), AudioControlError>| unmute_step(pre, post, result);
    let sent = added(pre, post);
    let none = Seq::<Exchange>::empty();
    assert(none.push(Exchange::SetMuted(false, dropped)) =~= sent);
    lemma_one_more_exchange(false, none, Exchange::SetMuted(false, dropped));
    assert(set_requests(sent) =~= seq![false]);
}

/// Releasing a manager at any other time sends nothing: while idle the
/// manager stays as it is, and a session that began on a muted output ends
/// with the output left alone.
pub proof fn lemma_release_otherwise_sends_nothing(pre: ManagerView, post: ManagerView)
    requires
        pre.session != (Session::Muting { was_muted_before: false }),
        release_step(pre, post),
    ensures
        post.session is Idle,
        post.exchanges == pre.exchanges,
{
}

/// How one more exchange extends the set requests sent and the state of
/// the output.
proof fn lemma_one_more_exchange(muted: bool, exchanges: Seq<Exchange>, next: Exchange)
    ensures
        set_requests(exchanges.push(next)) == match next {
            Exchange::SetMuted(requested, _) => set_requests(exchanges).push(requested),
            Exchange::IsMuted(_) => set_requests(exchanges),
        },
        output_after(muted, exchanges.push(next)) == match next {
            Exchange::SetMuted(requested, Ok(_)) => requested,
            _ => output_after(muted, exchanges),
        },
{
    assert(exchanges.push(next).drop_last() =~= exchanges);
}

} // verus!
