use talk_session::bridge::{ProtocolEvent, RecvOutcome};
use talk_session::failure::{Failure, FailureKind};
use talk_session::initializer::{
    ClientStatus, Credential, Endpoint, LoginStage, SessionInitializer, SessionRequest,
};
use talk_session::storage::hash_user_id;

fn credential() -> Credential {
    Credential { access_token: String::from("token"), device_uuid: String::from("uuid") }
}

fn request(user_id: i64) -> SessionRequest {
    SessionRequest { status: ClientStatus::Unlocked, credential: credential(), user_id }
}

fn at_login(user_id: i64) -> (LoginStage, tokio::sync::mpsc::Sender<talk_session::bridge::BridgeItem>) {
    let (stage, transport) = SessionInitializer::new(ClientStatus::Unlocked, credential(), user_id)
        .storage_ready(Ok(()))
        .ok()
        .expect("storage")
        .checked_in(Ok((String::from("host"), 443)))
        .ok()
        .expect("checkin")
        .connected(Ok("transport"))
        .ok()
        .expect("transport");
    assert_eq!(transport, "transport");
    let (stage, producer, protocol) = stage.initialized(Ok(7u8)).ok().expect("protocol");
    assert_eq!(protocol, 7);
    (stage, producer.into_sender())
}

#[test]
fn the_first_stage_keeps_the_request() {
    let first = SessionInitializer::new(ClientStatus::Locked, credential(), 77);
    assert_eq!(
        *first.request(),
        SessionRequest { status: ClientStatus::Locked, credential: credential(), user_id: 77 }
    );
}

#[test]
fn the_storage_key_is_the_hash_of_the_user_id() {
    let first = SessionInitializer::new(ClientStatus::Unlocked, credential(), 42);
    assert_eq!(first.storage_key(), hash_user_id(42));
    assert_eq!(
        first.storage_key(),
        "573baabb5ca42a23f3a118d027eadd8dc9bed70e40708a1b1ed9410b00feed0e"
    );
}

#[test]
fn a_storage_failure_is_storage_unavailable() {
    let first = SessionInitializer::new(ClientStatus::Unlocked, credential(), 1);
    let failure = first.storage_ready(Err(String::from("read-only file system"))).err();
    assert_eq!(
        failure,
        Some(Failure {
            kind: FailureKind::StorageUnavailable,
            detail: String::from("read-only file system"),
        })
    );
}

#[test]
fn a_checkin_failure_is_checkin_failed() {
    let stage = SessionInitializer::new(ClientStatus::Unlocked, credential(), 1)
        .storage_ready(Ok(()))
        .ok()
        .expect("storage");
    assert_eq!(*stage.request(), request(1));
    let failure = stage.checked_in(Err(String::from("timed out"))).err();
    assert_eq!(
        failure,
        Some(Failure { kind: FailureKind::CheckinFailed, detail: String::from("timed out") })
    );
}

#[test]
fn a_checkin_gives_the_endpoint() {
    let stage = SessionInitializer::new(ClientStatus::Unlocked, credential(), 1)
        .storage_ready(Ok(()))
        .ok()
        .expect("storage")
        .checked_in(Ok((String::from("loco.example"), 5223)))
        .ok()
        .expect("checkin");
    assert_eq!(*stage.endpoint(), Endpoint { host: String::from("loco.example"), port: 5223 });
    assert_eq!(*stage.request(), request(1));
}

#[test]
fn the_port_is_the_low_sixteen_bits() {
    for (reported, port) in [
        (0i32, 0u16),
        (443, 443),
        (65535, 65535),
        (65536, 0),
        (65536 + 443, 443),
        (-1, 65535),
        (i32::MAX, 65535),
        (i32::MIN, 0),
    ] {
        let stage = SessionInitializer::new(ClientStatus::Unlocked, credential(), 1)
            .storage_ready(Ok(()))
            .ok()
            .expect("storage")
            .checked_in(Ok((String::from("h"), reported)))
            .ok()
            .expect("checkin");
        assert_eq!(stage.endpoint().port, port);
        assert_eq!(stage.endpoint().port, reported as u16);
    }
}

#[test]
fn a_transport_failure_is_transport_failed() {
    let failure = SessionInitializer::new(ClientStatus::Unlocked, credential(), 1)
        .storage_ready(Ok(()))
        .ok()
        .expect("storage")
        .checked_in(Ok((String::from("h"), 1)))
        .ok()
        .expect("checkin")
        .connected::<()>(Err(String::from("connection refused")))
        .err();
    assert_eq!(
        failure,
        Some(Failure {
            kind: FailureKind::TransportFailed,
            detail: String::from("connection refused"),
        })
    );
}

#[test]
fn a_protocol_failure_is_protocol_init_failed() {
    let failure = SessionInitializer::new(ClientStatus::Unlocked, credential(), 1)
        .storage_ready(Ok(()))
        .ok()
        .expect("storage")
        .checked_in(Ok((String::from("h"), 1)))
        .ok()
        .expect("checkin")
        .connected(Ok(()))
        .ok()
        .expect("transport")
        .0
        .initialized::<()>(Err(String::from("migration failed")))
        .err();
    assert_eq!(
        failure,
        Some(Failure {
            kind: FailureKind::ProtocolInitFailed,
            detail: String::from("migration failed"),
        })
    );
}

#[test]
fn a_login_failure_is_login_failed() {
    let (stage, _sender) = at_login(5);
    assert_eq!(*stage.request(), request(5));
    let failure = stage.logged_in::<u32>(Err(String::from("bad token"))).err();
    assert_eq!(
        failure,
        Some(Failure { kind: FailureKind::LoginFailed, detail: String::from("bad token") })
    );
}

#[test]
fn a_login_gives_a_session_that_has_not_ended() {
    let (stage, _sender) = at_login(5);
    let session = stage.logged_in(Ok(String::from("client"))).ok().expect("login");
    assert!(!session.is_ended());
    assert_eq!(*session.share_handle(), "client");
}

#[test]
fn the_login_stage_opens_the_bridge_the_session_listens_on() {
    let (stage, sender) = at_login(5);
    let before = ProtocolEvent { payload: vec![1] };
    let after = ProtocolEvent { payload: vec![2] };
    assert!(sender.try_send(Ok(before.clone())).is_ok());
    let mut session = stage.logged_in(Ok(0u8)).ok().expect("login");
    assert!(sender.try_send(Ok(after.clone())).is_ok());
    let first = session.events_mut().receiver_mut().try_recv().ok();
    assert_eq!(first, Some(Ok(before)));
    let second = session.events_mut().receiver_mut().try_recv().ok();
    assert_eq!(second, Some(Ok(after)));
    assert_ne!(RecvOutcome::Pending, RecvOutcome::Closed);
}
