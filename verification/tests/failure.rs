use talk_session::failure::{Failure, FailureKind, Stage};

#[test]
fn each_stage_has_its_own_failure_kind() {
    assert_eq!(Stage::Storage.failure_kind(), FailureKind::StorageUnavailable);
    assert_eq!(Stage::Checkin.failure_kind(), FailureKind::CheckinFailed);
    assert_eq!(Stage::Transport.failure_kind(), FailureKind::TransportFailed);
    assert_eq!(Stage::ProtocolInit.failure_kind(), FailureKind::ProtocolInitFailed);
    assert_eq!(Stage::Login.failure_kind(), FailureKind::LoginFailed);
}

#[test]
fn a_failure_kind_leads_back_to_its_stage() {
    for stage in [Stage::Storage, Stage::Checkin, Stage::Transport, Stage::ProtocolInit, Stage::Login] {
        assert_eq!(stage.failure_kind().stage(), Some(stage));
    }
    assert_eq!(FailureKind::NotCreated.stage(), None);
    assert_eq!(FailureKind::EventFailed.stage(), None);
}

#[test]
fn a_stage_failure_keeps_the_words() {
    let failure = Stage::Transport.failed(String::from("handshake refused"));
    assert_eq!(
        failure,
        Failure { kind: FailureKind::TransportFailed, detail: String::from("handshake refused") }
    );
}

#[test]
fn not_created_has_no_words() {
    let failure = Failure::not_created();
    assert_eq!(failure.kind, FailureKind::NotCreated);
    assert_eq!(failure.detail, "");
}
