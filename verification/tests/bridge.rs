use talk_session::bridge::{
    bridge_item, BridgeItem, EventBridge, ProtocolEvent, RecvOutcome, SendOutcome, BRIDGE_CAPACITY,
};
use talk_session::failure::{Failure, FailureKind};

fn event(n: u32) -> BridgeItem {
    Ok(ProtocolEvent { payload: n.to_be_bytes().to_vec() })
}

#[test]
fn capacity_is_one_hundred() {
    assert_eq!(BRIDGE_CAPACITY, 100);
}

#[test]
fn a_new_bridge_is_empty_and_open() {
    let mut bridge = EventBridge::open();
    assert_eq!(bridge.recv(), RecvOutcome::Pending);
}

#[test]
fn three_items_then_close() {
    let mut bridge = EventBridge::open();
    assert_eq!(bridge.send(event(1)), SendOutcome::Queued);
    assert_eq!(bridge.send(event(2)), SendOutcome::Queued);
    assert_eq!(bridge.send(event(3)), SendOutcome::Queued);
    bridge.close();
    assert_eq!(bridge.recv(), RecvOutcome::Item(event(1)));
    assert_eq!(bridge.recv(), RecvOutcome::Item(event(2)));
    assert_eq!(bridge.recv(), RecvOutcome::Item(event(3)));
    assert_eq!(bridge.recv(), RecvOutcome::Closed);
    assert_eq!(bridge.recv(), RecvOutcome::Closed);
}

#[test]
fn received_sequence_equals_sent_sequence() {
    let mut bridge = EventBridge::open();
    for n in 0..100 {
        assert_eq!(bridge.send(event(n)), SendOutcome::Queued);
    }
    for n in 0..100 {
        assert_eq!(bridge.recv(), RecvOutcome::Item(event(n)));
    }
    assert_eq!(bridge.recv(), RecvOutcome::Pending);
}

#[test]
fn order_holds_when_sends_and_receives_alternate() {
    let mut bridge = EventBridge::open();
    let mut next_out = 0;
    for n in 0..1000 {
        assert_eq!(bridge.send(event(n)), SendOutcome::Queued);
        if n % 5 == 4 {
            for _ in 0..5 {
                assert_eq!(bridge.recv(), RecvOutcome::Item(event(next_out)));
                next_out += 1;
            }
            assert_eq!(bridge.recv(), RecvOutcome::Pending);
        }
    }
    assert_eq!(next_out, 1000);
}

#[test]
fn a_full_bridge_hands_the_item_back() {
    let mut bridge = EventBridge::open();
    for n in 0..100 {
        assert_eq!(bridge.send(event(n)), SendOutcome::Queued);
    }
    assert_eq!(bridge.send(event(100)), SendOutcome::Suspended(event(100)));
    assert_eq!(bridge.send(event(100)), SendOutcome::Suspended(event(100)));
    assert_eq!(bridge.recv(), RecvOutcome::Item(event(0)));
}

#[test]
fn a_suspended_send_completes_after_one_receive() {
    let mut bridge = EventBridge::open();
    for n in 0..100 {
        assert_eq!(bridge.send(event(n)), SendOutcome::Queued);
    }
    let back = match bridge.send(event(100)) {
        SendOutcome::Suspended(item) => item,
        other => panic!("a full bridge took an item: {other:?}"),
    };
    assert_eq!(bridge.recv(), RecvOutcome::Item(event(0)));
    assert_eq!(bridge.send(back), SendOutcome::Queued);
    assert_eq!(bridge.send(event(101)), SendOutcome::Suspended(event(101)));
    for n in 1..=100 {
        assert_eq!(bridge.recv(), RecvOutcome::Item(event(n)));
    }
    assert_eq!(bridge.recv(), RecvOutcome::Pending);
}

#[test]
fn a_closed_bridge_takes_nothing() {
    let mut bridge = EventBridge::open();
    assert_eq!(bridge.send(event(1)), SendOutcome::Queued);
    bridge.close();
    assert_eq!(bridge.send(event(2)), SendOutcome::Closed(event(2)));
    assert_eq!(bridge.recv(), RecvOutcome::Item(event(1)));
    assert_eq!(bridge.recv(), RecvOutcome::Closed);
}

#[test]
fn failures_travel_like_events() {
    let failure = Failure { kind: FailureKind::EventFailed, detail: String::from("bad frame") };
    let mut bridge = EventBridge::open();
    assert_eq!(bridge.send(event(1)), SendOutcome::Queued);
    assert_eq!(bridge.send(Err(failure.clone())), SendOutcome::Queued);
    assert_eq!(bridge.recv(), RecvOutcome::Item(event(1)));
    assert_eq!(bridge.recv(), RecvOutcome::Item(Err(failure)));
    assert_eq!(bridge.recv(), RecvOutcome::Pending);
}

#[test]
fn split_of_an_open_bridge_gives_both_ends() {
    let mut bridge = EventBridge::open();
    assert_eq!(bridge.send(event(1)), SendOutcome::Queued);
    let (producer, mut consumer) = bridge.split();
    let sender = producer.expect("an open bridge has a sending end").into_sender();
    assert!(sender.try_send(event(2)).is_ok());
    assert_eq!(consumer.receiver_mut().try_recv().ok(), Some(event(1)));
    assert_eq!(consumer.receiver_mut().try_recv().ok(), Some(event(2)));
    assert_eq!(
        consumer.receiver_mut().try_recv(),
        Err(tokio::sync::mpsc::error::TryRecvError::Empty)
    );
    drop(sender);
    assert_eq!(
        consumer.receiver_mut().try_recv(),
        Err(tokio::sync::mpsc::error::TryRecvError::Disconnected)
    );
}

#[test]
fn split_of_a_closed_bridge_gives_no_sending_end() {
    let mut bridge = EventBridge::open();
    assert_eq!(bridge.send(event(9)), SendOutcome::Queued);
    bridge.close();
    let (producer, mut consumer) = bridge.split();
    assert!(producer.is_none());
    assert_eq!(consumer.receiver_mut().try_recv().ok(), Some(event(9)));
    assert_eq!(
        consumer.receiver_mut().try_recv(),
        Err(tokio::sync::mpsc::error::TryRecvError::Disconnected)
    );
}

#[test]
fn split_ends_hold_one_hundred_items() {
    let (producer, mut consumer) = EventBridge::open().split();
    let sender = producer.expect("an open bridge has a sending end").into_sender();
    assert_eq!(sender.max_capacity(), 100);
    for n in 0..100 {
        assert!(sender.try_send(event(n)).is_ok());
    }
    assert!(sender.try_send(event(100)).is_err());
    assert_eq!(consumer.receiver_mut().try_recv().ok(), Some(event(0)));
    assert!(sender.try_send(event(100)).is_ok());
}

#[test]
fn a_decoded_event_is_forwarded_as_it_is() {
    let decoded = ProtocolEvent { payload: vec![1, 2, 3] };
    assert_eq!(bridge_item(Ok(decoded.clone())), Ok(decoded));
}

#[test]
fn a_decoding_failure_is_forwarded_as_event_failed() {
    assert_eq!(
        bridge_item(Err(String::from("unknown command"))),
        Err(Failure { kind: FailureKind::EventFailed, detail: String::from("unknown command") })
    );
}
