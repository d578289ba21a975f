//! A session: the handle of a logged-in protocol client, and the receiving
//! end of the bridge that its events arrive on.

use crate::bridge::{BridgeConsumer, BridgeItem, ProtocolEvent};
use crate::failure::Failure;
use std::sync::Arc;
use vstd::prelude::*;

verus! {

/// `Arc::clone`: one more handle to the value that `handle` points to. The
/// value is shared, not copied, so the new handle equals the old.
#[verifier::external_body]
fn share<H>(handle: &Arc<H>) -> (shared: Arc<H>)
    ensures
        shared == *handle,
{
    Arc::clone(handle)
}

/// One authenticated, live connection and its event source. A session exists
/// only whole: it is made from the handle that a completed login returned.
pub struct Session<H> {
    handle: Arc<H>,
    events: BridgeConsumer,
    ended: bool,
}

/// What a consumer is told when the bridge has yielded `yielded` (`None`:
/// the bridge is closed for good) on a stream that had not ended: the event,
/// the end of the stream, or the failure that ends it.
pub open spec fn event_answer(yielded: Option<BridgeItem>) -> Result<Option<ProtocolEvent>, Failure> {
    match yielded {
        Some(Ok(event)) => Ok(Some(event)),
        Some(Err(failure)) => Err(failure),
        None => Ok(None),
    }
}

/// Whether `yielded` ends a stream: the bridge is closed, or the item is a
/// failure, which is terminal.
pub open spec fn ends_stream(yielded: Option<BridgeItem>) -> bool {
    !(yielded matches Some(Ok(_)))
}

impl<H> Session<H> {
    /// The handle of the protocol client.
    pub closed spec fn handle(self) -> Arc<H> {
        self.handle
    }

    /// The receiving end of the session's bridge.
    pub closed spec fn events(self) -> BridgeConsumer {
        self.events
    }

    /// Whether the event stream has ended: no event will be reported again.
    pub closed spec fn ended(self) -> bool {
        self.ended
    }

    /// This session with its stream marked as ended, or not.
    pub closed spec fn with_ended(self, ended: bool) -> Session<H> {
        Session { ended, ..self }
    }

    /// The session after its consumer was answered for `yielded`.
    pub open spec fn after_event(self, yielded: Option<BridgeItem>) -> Session<H> {
        self.with_ended(self.ended() || ends_stream(yielded))
    }

    /// What the consumer of this session is told for `yielded`.
    pub open spec fn answer(self, yielded: Option<BridgeItem>) -> Result<
        Option<ProtocolEvent>,
        Failure,
    > {
        if self.ended() {
            Ok(None)
        } else {
            event_answer(yielded)
        }
    }

    /// A session around the handle that a login returned and the receiving
    /// end of the bridge that the login's event callback feeds.
    pub fn new(handle: H, events: BridgeConsumer) -> (session: Session<H>)
        ensures
            session.handle() == handle,
            session.events() == events,
            !session.ended(),
    {
        Session { handle: Arc::new(handle), events, ended: false }
    }

    /// A shared handle to the protocol client, for pass-through requests.
    pub fn share_handle(&self) -> (shared: Arc<H>)
        ensures
            shared == self.handle(),
    {
        share(&self.handle)
    }

    /// Whether the event stream has ended.
    pub fn is_ended(&self) -> (ended: bool)
        ensures
            ended == self.ended(),
    {
        self.ended
    }

    /// The receiving end of the bridge, for the caller that awaits the next
    /// item.
    pub fn events_mut(&mut self) -> (events: &mut BridgeConsumer)
        ensures
            *events == old(self).events(),
            *final(self) == old(self).with_events(*final(events)),
    {
        &mut self.events
    }

    /// This session with another receiving end in place of its own.
    pub closed spec fn with_events(self, events: BridgeConsumer) -> Session<H> {
        Session { events, ..self }
    }

    /// Answers the consumer for what the bridge yielded. An event is passed
    /// on. A failure is passed on and ends the stream, and so does a closed
    /// bridge; from then on every answer is the end of the stream.
    pub fn next_event(&mut self, yielded: Option<BridgeItem>) -> (answer: Result<
        Option<ProtocolEvent>,
        Failure,
    >)
        ensures
            answer == old(self).answer(yielded),
            *final(self) == old(self).after_event(yielded),
    {
        if self.ended {
            return Ok(None);
        }
        match yielded {
            Some(Ok(event)) => Ok(Some(event)),
            Some(Err(failure)) => {
                self.ended = true;
                Err(failure)
            },
            None => {
                self.ended = true;
                Ok(None)
            },
        }
    }
}

/// Marking a session's stream changes neither its handle nor its bridge.
pub proof fn lemma_session_keeps_its_parts<H>(session: Session<H>, yielded: Option<BridgeItem>)
    ensures
        session.after_event(yielded).handle() == session.handle(),
        session.after_event(yielded).events() == session.events(),
        session.after_event(yielded).ended() == (session.ended() || ends_stream(yielded)),
{
}

/// A stream that has ended stays ended: whatever is yielded afterwards, the
/// consumer is told that the stream is over.
pub proof fn lemma_ended_stream_stays_ended<H>(
    session: Session<H>,
    first: Option<BridgeItem>,
    later: Option<BridgeItem>,
)
    requires
        ends_stream(first),
    ensures
        session.after_event(first).answer(later) == Ok::<Option<ProtocolEvent>, Failure>(None),
        session.after_event(first).after_event(later).ended(),
{
}

} // verus!
