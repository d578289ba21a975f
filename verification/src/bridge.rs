//! The event bridge: a bounded, ordered queue that carries protocol events,
//! or a terminal failure, from the background producer to the consumer that
//! polls for the next one.
//!
//! The queue is a bounded `tokio::sync::mpsc` channel. An [`EventBridge`]
//! holds both ends of its channel and drives it in place; [`EventBridge::split`]
//! gives the ends away, to a producer task and to a session.

use crate::failure::{Failure, FailureKind};
use vstd::prelude::*;

verus! {

/// The number of items that a bridge buffers before a producer has to wait.
pub const BRIDGE_CAPACITY: usize = 100;

/// `tokio::sync::mpsc::Sender`, the sending end of a channel. It is held and
/// handed on; nothing of its inside is known here.
#[verifier::external_type_specification]
#[verifier::external_body]
#[verifier::reject_recursive_types(T)]
pub struct ExSender<T>(tokio::sync::mpsc::Sender<T>);

/// `tokio::sync::mpsc::Receiver`, the receiving end of a channel. It is held
/// and handed on; nothing of its inside is known here.
#[verifier::external_type_specification]
#[verifier::external_body]
#[verifier::reject_recursive_types(T)]
pub struct ExReceiver<T>(tokio::sync::mpsc::Receiver<T>);

/// An event of the protocol layer, in the encoding that the embedding
/// application gave it. The session core carries it and never looks inside.
#[derive(Clone, Debug, PartialEq, Eq)]
pub struct ProtocolEvent {
    pub payload: Vec<u8>,
}

/// What travels over a bridge: an event, or the failure that ends the stream.
pub type BridgeItem = Result<ProtocolEvent, Failure>;

/// The items that a channel buffers, oldest first, as seen from its receiving
/// end. It is spoken of only while both ends of the channel are in one hand.
pub uninterp spec fn queued(
    rx: tokio::sync::mpsc::Receiver<Result<ProtocolEvent, Failure>>,
) -> Seq<Result<ProtocolEvent, Failure>>;

/// The number of items that a channel was made to buffer: the capacity that
/// `tokio::sync::mpsc::channel` was called with.
pub uninterp spec fn bound(rx: tokio::sync::mpsc::Receiver<Result<ProtocolEvent, Failure>>) -> nat;

/// Both ends of one channel, as `tokio::sync::mpsc::channel` returned them
/// together. Only [`channel_open`] makes one. While the two ends are held
/// here the sender has no clone and nothing else can send into the channel
/// or receive from it: what it buffers changes through [`channel_send`] and
/// [`channel_recv`] alone.
struct Channel {
    tx: tokio::sync::mpsc::Sender<BridgeItem>,
    rx: tokio::sync::mpsc::Receiver<BridgeItem>,
}

/// `tokio::sync::mpsc::channel`: a new channel that buffers up to `capacity`
/// items and holds none yet. tokio panics on a capacity of 0 and on one above
/// `usize::MAX >> 3`.
#[verifier::external_body]
fn channel_open(capacity: usize) -> (channel: Channel)
    requires
        0 < capacity <= 0x1fff_ffff,
    ensures
        queued(channel.rx) == Seq::<BridgeItem>::empty(),
        bound(channel.rx) == capacity,
{
    let (tx, rx) = tokio::sync::mpsc::channel(capacity);
    Channel { tx, rx }
}

/// `Sender::try_send` on a channel whose ends are both held in `channel`.
/// Below its bound the channel takes the item behind those it holds; at its
/// bound it takes nothing and the item comes back in the error. The receiving
/// end is alive and never closed here, so the channel refuses for no other
/// reason; no capacity is reserved, so room is the bound less what is held.
#[verifier::external_body]
fn channel_send(channel: &mut Channel, item: BridgeItem) -> (sent: Result<(), BridgeItem>)
    ensures
        bound(final(channel).rx) == bound(old(channel).rx),
        sent is Ok <==> queued(old(channel).rx).len() < bound(old(channel).rx),
        sent matches Err(back) ==> back == item,
        sent is Ok ==> queued(final(channel).rx) == queued(old(channel).rx).push(item),
        sent is Err ==> queued(final(channel).rx) == queued(old(channel).rx),
{
    channel.tx.try_send(item).map_err(|refusal| refusal.into_inner())
}

/// `Receiver::try_recv` on a channel whose ends are both held in `channel`.
/// The oldest buffered item leaves the channel and is returned; an empty
/// channel returns an error, here `None`, and stays empty.
#[verifier::external_body]
fn channel_recv(channel: &mut Channel) -> (item: Option<BridgeItem>)
    ensures
        bound(final(channel).rx) == bound(old(channel).rx),
        item is Some <==> queued(old(channel).rx).len() > 0,
        item matches Some(first) ==> first == queued(old(channel).rx)[0],
        item is Some ==> queued(final(channel).rx) == queued(old(channel).rx).drop_first(),
        item is None ==> queued(final(channel).rx) == queued(old(channel).rx),
{
    channel.rx.try_recv().ok()
}

/// What a bridge is, to its users: the buffered items, oldest first, the
/// bound on their number, and whether the producer side is still there.
pub struct BridgeState {
    pub queue: Seq<BridgeItem>,
    pub capacity: nat,
    pub open: bool,
}

/// What became of an item handed to [`EventBridge::send`].
#[derive(Debug, PartialEq, Eq)]
pub enum SendOutcome {
    /// The item is in the queue, behind all that were there.
    Queued,
    /// The queue is full. The item comes back; the producer waits for room
    /// and sends it again.
    Suspended(BridgeItem),
    /// The producer side is closed. The item comes back.
    Closed(BridgeItem),
}

/// What [`EventBridge::recv`] found.
#[derive(Debug, PartialEq, Eq)]
pub enum RecvOutcome {
    /// The oldest item, now out of the queue.
    Item(BridgeItem),
    /// Nothing is queued, and the producer side is still there. The consumer
    /// waits and polls again.
    Pending,
    /// Nothing is queued and nothing will be: the producer side is gone.
    Closed,
}

impl BridgeState {
    /// The state of a bridge that was just opened.
    pub open spec fn fresh() -> BridgeState {
        BridgeState { queue: Seq::empty(), capacity: BRIDGE_CAPACITY as nat, open: true }
    }

    /// The queue holds as many items as the bridge buffers.
    pub open spec fn is_full(self) -> bool {
        self.queue.len() >= self.capacity
    }

    /// The state after a send of `item`, and what the producer is told.
    pub open spec fn send(self, item: BridgeItem) -> (BridgeState, SendOutcome) {
        if !self.open {
            (self, SendOutcome::Closed(item))
        } else if self.is_full() {
            (self, SendOutcome::Suspended(item))
        } else {
            (BridgeState { queue: self.queue.push(item), ..self }, SendOutcome::Queued)
        }
    }

    /// The state after a receive, and what the consumer is told.
    pub open spec fn recv(self) -> (BridgeState, RecvOutcome) {
        if self.queue.len() > 0 {
            (BridgeState { queue: self.queue.drop_first(), ..self }, RecvOutcome::Item(self.queue[0]))
        } else if self.open {
            (self, RecvOutcome::Pending)
        } else {
            (self, RecvOutcome::Closed)
        }
    }

    /// The state after the producer side went away.
    pub open spec fn close(self) -> BridgeState {
        BridgeState { open: false, ..self }
    }
}

/// A bridge with both of its ends in one hand.
pub struct EventBridge {
    channel: Channel,
    open: bool,
}

/// The sending end of a bridge, for the task that produces the events.
pub struct BridgeProducer {
    tx: tokio::sync::mpsc::Sender<BridgeItem>,
}

/// The receiving end of a bridge, for the session that is polled for events.
pub struct BridgeConsumer {
    rx: tokio::sync::mpsc::Receiver<BridgeItem>,
}

impl View for EventBridge {
    type V = BridgeState;

    closed spec fn view(&self) -> BridgeState {
        BridgeState {
            queue: queued(self.channel.rx),
            capacity: bound(self.channel.rx),
            open: self.open,
        }
    }
}

impl EventBridge {
    /// A new bridge: empty, open, buffering up to [`BRIDGE_CAPACITY`] items.
    pub fn open() -> (bridge: EventBridge)
        ensures
            bridge@ == BridgeState::fresh(),
    {
        EventBridge { channel: channel_open(BRIDGE_CAPACITY), open: true }
    }

    /// Hands `item` to the bridge. It goes behind all queued items; a full
    /// or closed bridge hands it back unchanged and stays as it was.
    pub fn send(&mut self, item: BridgeItem) -> (outcome: SendOutcome)
        ensures
            (final(self)@, outcome) == old(self)@.send(item),
    {
        if !self.open {
            return SendOutcome::Closed(item);
        }
        match channel_send(&mut self.channel, item) {
            Ok(()) => SendOutcome::Queued,
            Err(back) => SendOutcome::Suspended(back),
        }
    }

    /// Takes the oldest item out of the bridge, if there is one; else says
    /// whether one may still come.
    pub fn recv(&mut self) -> (outcome: RecvOutcome)
        ensures
            (final(self)@, outcome) == old(self)@.recv(),
    {
        match channel_recv(&mut self.channel) {
            Some(item) => RecvOutcome::Item(item),
            None => if self.open {
                RecvOutcome::Pending
            } else {
                RecvOutcome::Closed
            },
        }
    }

    /// Closes the producer side: what is queued can still be received,
    /// nothing more can be sent.
    pub fn close(&mut self)
        ensures
            final(self)@ == old(self)@.close(),
    {
        self.open = false;
    }

    /// Gives the two ends away. A closed bridge has no sending end to give:
    /// its consumer finds the stream ended once the queue is drained.
    pub fn split(self) -> (ends: (Option<BridgeProducer>, BridgeConsumer))
        ensures
            ends.0 is Some <==> self@.open,
    {
        let EventBridge { channel, open } = self;
        let Channel { tx, rx } = channel;
        let consumer = BridgeConsumer { rx };
        if open {
            (Some(BridgeProducer { tx }), consumer)
        } else {
            (None, consumer)
        }
    }
}

impl BridgeProducer {
    /// The sending end that this producer wraps.
    pub closed spec fn sender(self) -> tokio::sync::mpsc::Sender<BridgeItem> {
        self.tx
    }

    /// The sending end itself, for the task that awaits room in the queue:
    /// the one that this producer wraps, and no other.
    pub fn into_sender(self) -> (sender: tokio::sync::mpsc::Sender<BridgeItem>)
        ensures
            sender == self.sender(),
    {
        self.tx
    }
}

impl BridgeConsumer {
    /// The receiving end that this consumer wraps.
    pub closed spec fn receiver(self) -> tokio::sync::mpsc::Receiver<BridgeItem> {
        self.rx
    }

    /// The consumer that wraps `rx`.
    pub closed spec fn around(rx: tokio::sync::mpsc::Receiver<BridgeItem>) -> BridgeConsumer {
        BridgeConsumer { rx }
    }

    /// The receiving end itself, for the caller that awaits the next item.
    pub fn receiver_mut(&mut self) -> (rx: &mut tokio::sync::mpsc::Receiver<BridgeItem>)
        ensures
            *rx == old(self).receiver(),
            *final(self) == BridgeConsumer::around(*final(rx)),
    {
        &mut self.rx
    }
}

/// The item that the producer forwards for one outcome of the protocol
/// layer's decoding: the event itself, or the failure that ends the stream.
pub fn bridge_item(decoded: Result<ProtocolEvent, String>) -> (item: BridgeItem)
    ensures
        match decoded {
            Ok(event) => item == Ok::<ProtocolEvent, Failure>(event),
            Err(detail) => item matches Err(failure) && failure.kind == FailureKind::EventFailed
                && failure.detail == detail,
        },
{
    match decoded {
        Ok(event) => Ok(event),
        Err(detail) => Err(Failure { kind: FailureKind::EventFailed, detail }),
    }
}

/// One use of a bridge, by its producer or by its consumer.
pub enum BridgeOp {
    /// The producer hands over an item.
    Send(BridgeItem),
    /// The consumer asks for the next item.
    Recv,
    /// The producer side goes away.
    Close,
}

/// What a series of uses came to: the state it left, the items that the
/// bridge took in, in the order of the sends, and the items that it handed
/// out, in the order of the receives.
pub struct BridgeRun {
    pub state: BridgeState,
    pub accepted: Seq<BridgeItem>,
    pub received: Seq<BridgeItem>,
}

impl BridgeState {
    /// The outcome of applying `ops`, first to last, to a bridge in this
    /// state.
    pub open spec fn run(self, ops: Seq<BridgeOp>) -> BridgeRun
        decreases ops.len(),
    {
        if ops.len() == 0 {
            BridgeRun { state: self, accepted: Seq::empty(), received: Seq::empty() }
        } else {
            let before = self.run(ops.drop_last());
            match ops.last() {
                BridgeOp::Send(item) => {
                    let (state, outcome) = before.state.send(item);
                    BridgeRun {
                        state,
                        accepted: if outcome is Queued {
                            before.accepted.push(item)
                        } else {
                            before.accepted
                        },
                        received: before.received,
                    }
                },
                BridgeOp::Recv => {
                    let (state, outcome) = before.state.recv();
                    BridgeRun {
                        state,
                        accepted: before.accepted,
                        received: match outcome {
                            RecvOutcome::Item(item) => before.received.push(item),
                            _ => before.received,
                        },
                    }
                },
                BridgeOp::Close => BridgeRun { state: before.state.close(), ..before },
            }
        }
    }
}

/// A bridge neither reorders, drops nor repeats: however sends, receives and
/// a close are interleaved, what was queued at the start followed by what the
/// bridge took in is what it handed out followed by what it still holds. So
/// once a bridge that started empty is drained, the items received are the
/// items accepted, in the order in which they were sent.
pub proof fn lemma_bridge_keeps_order(start: BridgeState, ops: Seq<BridgeOp>)
    ensures
        start.queue + start.run(ops).accepted == start.run(ops).received + start.run(ops).state.queue,
        start.run(ops).state.capacity == start.capacity,
        start.queue.len() == 0 && start.run(ops).state.queue.len() == 0 ==> start.run(ops).received
            == start.run(ops).accepted,
    decreases ops.len(),
{
    if ops.len() > 0 {
        lemma_bridge_keeps_order(start, ops.drop_last());
        let before = start.run(ops.drop_last());
        let after = start.run(ops);
        assert(start.queue + before.accepted == before.received + before.state.queue);
        match ops.last() {
            BridgeOp::Send(item) => {
                if before.state.send(item).1 is Queued {
                    assert(start.queue + before.accepted.push(item) == (start.queue
                        + before.accepted).push(item));
                    assert((before.received + before.state.queue).push(item) == before.received
                        + before.state.queue.push(item));
                }
            },
            BridgeOp::Recv => {
                if before.state.queue.len() > 0 {
                    assert(before.received + before.state.queue == before.received.push(
                        before.state.queue[0],
                    ) + before.state.queue.drop_first());
                }
            },
            BridgeOp::Close => {},
        }
    }
    let run = start.run(ops);
    if start.queue.len() == 0 && run.state.queue.len() == 0 {
        assert(start.queue + run.accepted == run.accepted);
        assert(run.received + run.state.queue == run.received);
    }
}

/// A bridge never holds more than it was made to buffer: a queue within the
/// bound stays within it, whatever is done to the bridge.
pub proof fn lemma_queue_stays_within_capacity(start: BridgeState, ops: Seq<BridgeOp>)
    requires
        start.queue.len() <= start.capacity,
    ensures
        start.run(ops).state.queue.len() <= start.capacity,
        start.run(ops).state.capacity == start.capacity,
    decreases ops.len(),
{
    if ops.len() > 0 {
        lemma_queue_stays_within_capacity(start, ops.drop_last());
    }
}

/// A send on a full bridge drops nothing: the item comes back and the queue
/// is as it was. Once the consumer has taken one item out, the same send is
/// accepted, and the item stands behind all that were queued before it.
pub proof fn lemma_full_send_waits_for_room(state: BridgeState, item: BridgeItem)
    requires
        state.open,
        state.capacity > 0,
        state.queue.len() == state.capacity,
    ensures
        state.send(item) == (state, SendOutcome::Suspended(item)),
        state.recv().1 == RecvOutcome::Item(state.queue[0]),
        state.recv().0.send(item).1 == SendOutcome::Queued,
        state.recv().0.send(item).0.queue == state.queue.drop_first().push(item),
{
}

/// Closing the producer side loses nothing: the consumer still receives every
/// queued item, oldest first, and only then finds the stream ended.
pub proof fn lemma_closed_bridge_drains(state: BridgeState)
    requires
        !state.open,
    ensures
        state.queue.len() > 0 ==> state.recv().1 == RecvOutcome::Item(state.queue[0])
            && state.recv().0.queue == state.queue.drop_first() && !state.recv().0.open,
        state.queue.len() == 0 ==> state.recv() == (state, RecvOutcome::Closed),
{
}

} // verus!
