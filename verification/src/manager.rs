//! The session manager: a slot that holds the one active session, or none.
//!
//! Shared access (`&self`) serves the status query and the pass-through
//! callers; exclusive access (`&mut self`) serves the assignment that ends a
//! `create`, `destroy`, and event retrieval, which moves the session's
//! stream along. The embedding application puts the manager behind its
//! reader/writer lock and takes the lock for each call, never for the time
//! that an initialization runs.

use crate::bridge::{BridgeConsumer, BridgeItem, ProtocolEvent};
use crate::failure::{Failure, FailureKind, Stage};
use crate::session::Session;
use std::sync::Arc;
use vstd::prelude::*;

verus! {

/// Holds at most one session. Its view is the slot itself.
pub struct SessionManager<H> {
    slot: Option<Session<H>>,
}

impl<H> View for SessionManager<H> {
    type V = Option<Session<H>>;

    closed spec fn view(&self) -> Option<Session<H>> {
        self.slot
    }
}

/// The slot after a `create` whose initialization ended in `outcome`: the
/// new session in place of whatever was stored, or the slot as it was.
pub open spec fn slot_after_create<H>(
    slot: Option<Session<H>>,
    outcome: Result<Session<H>, Failure>,
) -> Option<Session<H>> {
    match outcome {
        Ok(session) => Some(session),
        Err(_) => slot,
    }
}

/// What the caller of `create` is told: success, or the failure of the
/// initialization, unchanged.
pub open spec fn create_answer<H>(outcome: Result<Session<H>, Failure>) -> Result<(), Failure> {
    match outcome {
        Ok(_) => Ok(()),
        Err(failure) => Err(failure),
    }
}

/// The slot after a `destroy`: empty, whatever it held.
pub open spec fn slot_after_destroy<H>(slot: Option<Session<H>>) -> Option<Session<H>> {
    None
}

/// Whether `answer` is what `destroy` says of `slot`: success if a session
/// was stored, `NotCreated` if none was.
pub open spec fn is_destroy_answer<H>(slot: Option<Session<H>>, answer: Result<(), Failure>) -> bool {
    match slot {
        Some(_) => answer is Ok,
        None => answer matches Err(failure) && failure.is_not_created(),
    }
}

/// The slot after its consumer was answered for `yielded`.
pub open spec fn slot_after_event<H>(
    slot: Option<Session<H>>,
    yielded: Option<BridgeItem>,
) -> Option<Session<H>> {
    match slot {
        Some(session) => Some(session.after_event(yielded)),
        None => None,
    }
}

/// Whether `answer` is what `next_event` says of `slot` for `yielded`:
/// `NotCreated` if no session is stored, else the session's own answer.
pub open spec fn is_event_answer<H>(
    slot: Option<Session<H>>,
    yielded: Option<BridgeItem>,
    answer: Result<Option<ProtocolEvent>, Failure>,
) -> bool {
    match slot {
        Some(session) => answer == session.answer(yielded),
        None => answer matches Err(failure) && failure.is_not_created(),
    }
}

impl<H> SessionManager<H> {
    /// A manager that holds no session.
    pub fn new() -> (manager: SessionManager<H>)
        ensures
            manager@ is None,
    {
        SessionManager { slot: None }
    }

    /// Whether a session is stored.
    pub fn is_active(&self) -> (active: bool)
        ensures
            active == (self@ is Some),
    {
        self.slot.is_some()
    }

    /// Ends a `create`: takes the outcome of the initialization that ran
    /// without the manager. A session replaces whatever was stored, which is
    /// dropped; a failure leaves the slot alone and is passed on.
    pub fn create(&mut self, outcome: Result<Session<H>, Failure>) -> (answer: Result<(), Failure>)
        ensures
            final(self)@ == slot_after_create(old(self)@, outcome),
            answer == create_answer(outcome),
    {
        match outcome {
            Ok(session) => {
                self.slot = Some(session);
                Ok(())
            },
            Err(failure) => Err(failure),
        }
    }

    /// Removes the stored session and drops it. Fails with `NotCreated` if
    /// none is stored.
    pub fn destroy(&mut self) -> (answer: Result<(), Failure>)
        ensures
            final(self)@ == slot_after_destroy(old(self)@),
            is_destroy_answer(old(self)@, answer),
    {
        match self.slot.take() {
            Some(_) => Ok(()),
            None => Err(Failure::not_created()),
        }
    }

    /// A shared handle to the active protocol client. Fails with
    /// `NotCreated` if no session is stored.
    pub fn borrow_session(&self) -> (answer: Result<Arc<H>, Failure>)
        ensures
            match self@ {
                Some(session) => answer == Ok::<Arc<H>, Failure>(session.handle()),
                None => answer matches Err(failure) && failure.is_not_created(),
            },
    {
        match &self.slot {
            Some(session) => Ok(session.share_handle()),
            None => Err(Failure::not_created()),
        }
    }

    /// The receiving end to await the next item on, if there is something to
    /// wait for: a session is stored and its stream has not ended. With
    /// `None` the caller asks [`SessionManager::next_event`] at once.
    pub fn event_source(&mut self) -> (source: Option<&mut BridgeConsumer>)
        ensures
            source is Some <==> (old(self)@ matches Some(session) && !session.ended()),
            source is None ==> final(self)@ == old(self)@,
            source matches Some(events) ==> *events == old(self)@->0.events() && final(self)@ == Some(
                old(self)@->0.with_events(*final(events)),
            ),
    {
        match self.slot.as_mut() {
            Some(session) => {
                if session.is_ended() {
                    None
                } else {
                    Some(session.events_mut())
                }
            },
            None => None,
        }
    }

    /// Answers the poll for the next event, given what the bridge yielded
    /// (`None`: it is closed for good). Without a session the answer is
    /// `NotCreated`. Else an event is passed on; a failure is passed on and
    /// ends the stream; a closed bridge, or a stream that has ended, gives
    /// `Ok(None)`.
    pub fn next_event(&mut self, yielded: Option<BridgeItem>) -> (answer: Result<
        Option<ProtocolEvent>,
        Failure,
    >)
        ensures
            final(self)@ == slot_after_event(old(self)@, yielded),
            is_event_answer(old(self)@, yielded, answer),
    {
        match self.slot.as_mut() {
            Some(session) => session.next_event(yielded),
            None => Err(Failure::not_created()),
        }
    }
}

/// A manager is active exactly while it holds a session: not when it is new,
/// always after a `create` that succeeded, whatever it held, and never after
/// a `destroy`.
pub proof fn lemma_active_follows_lifecycle<H>(held: Option<Session<H>>, created: Session<H>)
    ensures
        !(None::<Session<H>> is Some),
        slot_after_create(held, Ok(created)) is Some,
        !(slot_after_destroy(slot_after_create(held, Ok(created))) is Some),
        !(slot_after_destroy(held) is Some),
{
}

/// An initialization that fails at any stage changes nothing: `create`
/// passes that stage's failure on, words and all, and the slot is as it was.
/// So a manager that was not active is not active afterwards.
pub proof fn lemma_failed_stage_leaves_slot<H>(
    held: Option<Session<H>>,
    stage: Stage,
    detail: String,
)
    ensures
        create_answer::<H>(Err(stage.spec_failed(detail))) == Err::<(), Failure>(
            stage.spec_failed(detail),
        ),
        stage.spec_failed(detail).kind == stage.spec_failure_kind(),
        stage.spec_failed(detail).kind.spec_stage() == Some(stage),
        slot_after_create(held, Err(stage.spec_failed(detail))) == held,
        stage == Stage::Checkin ==> stage.spec_failed(detail).kind == FailureKind::CheckinFailed,
{
}

/// Of two `create`s that both succeed, the one whose assignment runs last
/// wins: its session is the one stored, the other is no longer reachable
/// through the manager, and the manager is active.
pub proof fn lemma_last_create_wins<H>(
    held: Option<Session<H>>,
    first: Session<H>,
    second: Session<H>,
)
    ensures
        slot_after_create(slot_after_create(held, Ok(first)), Ok(second)) == Some(second),
        slot_after_create(slot_after_create(held, Ok(second)), Ok(first)) == Some(first),
{
}

/// Events are answered one for one and in the order in which the bridge
/// yields them: as long as the stream has not ended, the answer to a yielded
/// event is that event, and the stream goes on.
pub proof fn lemma_events_pass_in_order<H>(session: Session<H>, event: ProtocolEvent)
    requires
        !session.ended(),
    ensures
        is_event_answer(Some(session), Some(Ok(event)), Ok(Some(event))),
        slot_after_event(Some(session), Some(Ok(event))) matches Some(after) && !after.ended(),
        is_event_answer(Some(session), None, Ok(None)),
{
    crate::session::lemma_session_keeps_its_parts(session, Some(Ok(event)));
}

} // verus!
