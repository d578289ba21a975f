//! Failures of the session core, each tagged with the place where it arose.

use vstd::prelude::*;

verus! {

/// The stages of session initialization, in the order in which they run.
#[derive(Clone, Copy, Debug, PartialEq, Eq, Structural)]
pub enum Stage {
    /// The per-user storage directory is made available.
    Storage,
    /// The service is asked which endpoint serves the user.
    Checkin,
    /// A secure transport to that endpoint is established.
    Transport,
    /// The protocol layer is set up over the transport and the state store.
    ProtocolInit,
    /// The credential is presented; events start to flow.
    Login,
}

/// What went wrong.
#[derive(Clone, Copy, Debug, PartialEq, Eq, Structural)]
pub enum FailureKind {
    /// An operation needs an active session and the manager holds none.
    NotCreated,
    /// The storage directory could not be made available.
    StorageUnavailable,
    /// The check-in call failed.
    CheckinFailed,
    /// The secure transport could not be established.
    TransportFailed,
    /// The protocol layer could not be set up.
    ProtocolInitFailed,
    /// The service refused the login, or the login exchange broke.
    LoginFailed,
    /// The background event producer could not decode or handle an event.
    EventFailed,
}

/// A failure: its kind, and the collaborator's own words, passed on unchanged.
#[derive(Clone, Debug, PartialEq, Eq)]
pub struct Failure {
    pub kind: FailureKind,
    pub detail: String,
}

impl Stage {
    /// The kind of failure that a failure of this stage is reported as.
    pub open spec fn spec_failure_kind(self) -> FailureKind {
        match self {
            Stage::Storage => FailureKind::StorageUnavailable,
            Stage::Checkin => FailureKind::CheckinFailed,
            Stage::Transport => FailureKind::TransportFailed,
            Stage::ProtocolInit => FailureKind::ProtocolInitFailed,
            Stage::Login => FailureKind::LoginFailed,
        }
    }

    #[verifier::when_used_as_spec(spec_failure_kind)]
    pub fn failure_kind(self) -> (kind: FailureKind)
        ensures
            kind == self.spec_failure_kind(),
    {
        match self {
            Stage::Storage => FailureKind::StorageUnavailable,
            Stage::Checkin => FailureKind::CheckinFailed,
            Stage::Transport => FailureKind::TransportFailed,
            Stage::ProtocolInit => FailureKind::ProtocolInitFailed,
            Stage::Login => FailureKind::LoginFailed,
        }
    }

    /// The failure that stands for this stage having failed with `detail`.
    pub open spec fn spec_failed(self, detail: String) -> Failure {
        Failure { kind: self.spec_failure_kind(), detail }
    }

    /// The failure that stands for this stage having failed with `detail`.
    #[verifier::when_used_as_spec(spec_failed)]
    pub fn failed(self, detail: String) -> (failure: Failure)
        ensures
            failure == self.spec_failed(detail),
    {
        Failure { kind: self.failure_kind(), detail }
    }
}

impl FailureKind {
    /// The stage that a failure of this kind arose in, if it arose in one.
    pub open spec fn spec_stage(self) -> Option<Stage> {
        match self {
            FailureKind::StorageUnavailable => Some(Stage::Storage),
            FailureKind::CheckinFailed => Some(Stage::Checkin),
            FailureKind::TransportFailed => Some(Stage::Transport),
            FailureKind::ProtocolInitFailed => Some(Stage::ProtocolInit),
            FailureKind::LoginFailed => Some(Stage::Login),
            FailureKind::NotCreated => None,
            FailureKind::EventFailed => None,
        }
    }

    #[verifier::when_used_as_spec(spec_stage)]
    pub fn stage(self) -> (stage: Option<Stage>)
        ensures
            stage == self.spec_stage(),
    {
        match self {
            FailureKind::StorageUnavailable => Some(Stage::Storage),
            FailureKind::CheckinFailed => Some(Stage::Checkin),
            FailureKind::TransportFailed => Some(Stage::Transport),
            FailureKind::ProtocolInitFailed => Some(Stage::ProtocolInit),
            FailureKind::LoginFailed => Some(Stage::Login),
            FailureKind::NotCreated => None,
            FailureKind::EventFailed => None,
        }
    }
}

impl Failure {
    /// Whether this is the failure of an operation that needs a session where
    /// none is stored: it is of that kind and carries no further words.
    pub open spec fn is_not_created(self) -> bool {
        self.kind == FailureKind::NotCreated && self.detail@.len() == 0
    }

    /// The failure of an operation that needs a session where none is stored.
    pub fn not_created() -> (failure: Failure)
        ensures
            failure.is_not_created(),
    {
        Failure { kind: FailureKind::NotCreated, detail: String::new() }
    }
}

/// A failure names the stage it arose in: the kind of a stage's failure leads
/// back to that stage, so no two stages share a kind.
pub proof fn lemma_failure_identifies_stage(stage: Stage)
    ensures
        stage.spec_failure_kind().spec_stage() == Some(stage),
{
}

} // verus!
