//! Session initialization: five stages, each an outside call whose outcome
//! decides whether the next one runs.
//!
//! The embedding application makes the calls. Each stage is a type of its
//! own: it offers what the call needs, takes the call's outcome, and gives
//! either the next stage or the failure that ends the initialization. A
//! stage can be had only from the one before it, so no stage runs out of
//! turn or after a failure, and a session comes into being only when the
//! login has succeeded.

use crate::bridge::{BridgeConsumer, BridgeProducer, EventBridge};
use crate::failure::{Failure, Stage};
use crate::session::Session;
use crate::storage::{hash_user_id, storage_key};
use vstd::prelude::*;

verus! {

/// The presence that a client logs in with. It is handed to the login as it
/// was given.
#[derive(Clone, Copy, Debug, PartialEq, Eq, Structural)]
pub enum ClientStatus {
    Unlocked,
    Locked,
}

/// What a client logs in with.
#[derive(Clone, Debug, PartialEq, Eq)]
pub struct Credential {
    pub access_token: String,
    pub device_uuid: String,
}

/// What a `create` is asked for.
#[derive(Clone, Debug, PartialEq, Eq)]
pub struct SessionRequest {
    pub status: ClientStatus,
    pub credential: Credential,
    pub user_id: i64,
}

/// The network endpoint that serves a user.
#[derive(Clone, Debug, PartialEq, Eq)]
pub struct Endpoint {
    pub host: String,
    pub port: u16,
}

/// The port to connect to for the port number that a check-in reported: its
/// low 16 bits.
pub open spec fn endpoint_port(reported: i32) -> u16 {
    (reported & 0xffff) as u16
}

/// The first stage: the user's storage directory is to be made available.
pub struct SessionInitializer {
    request: SessionRequest,
}

/// The second stage: the service is to be asked for the user's endpoint.
pub struct CheckinStage {
    request: SessionRequest,
}

/// The third stage: a secure transport to the endpoint is to be established.
pub struct TransportStage {
    request: SessionRequest,
    endpoint: Endpoint,
}

/// The fourth stage: the protocol layer is to be set up over the transport
/// and the state store in the user's directory.
pub struct ProtocolStage {
    request: SessionRequest,
}

/// The fifth stage: the login. The bridge exists by now; the login's event
/// callback feeds its sending end, this stage keeps its receiving end for
/// the session.
pub struct LoginStage {
    request: SessionRequest,
    events: BridgeConsumer,
}

impl SessionInitializer {
    pub closed spec fn spec_request(&self) -> SessionRequest {
        self.request
    }

    /// Begins an initialization.
    pub fn new(status: ClientStatus, credential: Credential, user_id: i64) -> (first: SessionInitializer)
        ensures
            first.spec_request() == (SessionRequest { status, credential, user_id }),
    {
        SessionInitializer { request: SessionRequest { status, credential, user_id } }
    }

    pub fn request(&self) -> (request: &SessionRequest)
        ensures
            *request == self.spec_request(),
    {
        &self.request
    }

    /// The name of the user's directory below the user data directory.
    pub fn storage_key(&self) -> (key: String)
        ensures
            key@ == storage_key(self.spec_request().user_id as int),
    {
        hash_user_id(self.request.user_id)
    }

    /// Takes the outcome of making the directory available.
    pub fn storage_ready(self, outcome: Result<(), String>) -> (next: Result<CheckinStage, Failure>)
        ensures
            match outcome {
                Ok(_) => next matches Ok(stage) && stage.spec_request() == self.spec_request(),
                Err(detail) => next matches Err(failure) && failure == Stage::Storage.spec_failed(
                    detail,
                ),
            },
    {
        match outcome {
            Ok(_) => Ok(CheckinStage { request: self.request }),
            Err(detail) => Err(Stage::Storage.failed(detail)),
        }
    }
}

impl CheckinStage {
    pub closed spec fn spec_request(&self) -> SessionRequest {
        self.request
    }

    pub fn request(&self) -> (request: &SessionRequest)
        ensures
            *request == self.spec_request(),
    {
        &self.request
    }

    /// Takes the outcome of the check-in: the host and the port number that
    /// the service reported.
    pub fn checked_in(self, outcome: Result<(String, i32), String>) -> (next: Result<
        TransportStage,
        Failure,
    >)
        ensures
            match outcome {
                Ok((host, port)) => next matches Ok(stage) && stage.spec_request()
                    == self.spec_request() && stage.spec_endpoint() == (Endpoint {
                    host,
                    port: endpoint_port(port),
                }),
                Err(detail) => next matches Err(failure) && failure == Stage::Checkin.spec_failed(
                    detail,
                ),
            },
    {
        match outcome {
            Ok((host, reported)) => {
                let low: i32 = reported & 0xffff;
                assert(0 <= low <= 0xffff) by (bit_vector)
                    requires
                        low == reported & 0xffff,
                ;
                Ok(
                    TransportStage {
                        request: self.request,
                        endpoint: Endpoint { host, port: low as u16 },
                    },
                )
            },
            Err(detail) => Err(Stage::Checkin.failed(detail)),
        }
    }
}

impl TransportStage {
    pub closed spec fn spec_request(&self) -> SessionRequest {
        self.request
    }

    pub closed spec fn spec_endpoint(&self) -> Endpoint {
        self.endpoint
    }

    pub fn request(&self) -> (request: &SessionRequest)
        ensures
            *request == self.spec_request(),
    {
        &self.request
    }

    /// The endpoint to connect to.
    pub fn endpoint(&self) -> (endpoint: &Endpoint)
        ensures
            *endpoint == self.spec_endpoint(),
    {
        &self.endpoint
    }

    /// Takes the outcome of establishing the transport. The transport itself
    /// is handed through to the caller, who sets the protocol layer up on it.
    pub fn connected<T>(self, outcome: Result<T, String>) -> (next: Result<(ProtocolStage, T), Failure>)
        ensures
            match outcome {
                Ok(transport) => next matches Ok(ready) && ready.0.spec_request()
                    == self.spec_request() && ready.1 == transport,
                Err(detail) => next matches Err(failure) && failure == Stage::Transport.spec_failed(
                    detail,
                ),
            },
    {
        match outcome {
            Ok(transport) => Ok((ProtocolStage { request: self.request }, transport)),
            Err(detail) => Err(Stage::Transport.failed(detail)),
        }
    }
}

impl ProtocolStage {
    pub closed spec fn spec_request(&self) -> SessionRequest {
        self.request
    }

    pub fn request(&self) -> (request: &SessionRequest)
        ensures
            *request == self.spec_request(),
    {
        &self.request
    }

    /// Takes the outcome of setting up the protocol layer. On success the
    /// bridge is opened: its sending end comes back for the event callback
    /// that the login is given, and the protocol layer is handed through to
    /// the caller, who logs in on it.
    pub fn initialized<T>(self, outcome: Result<T, String>) -> (next: Result<
        (LoginStage, BridgeProducer, T),
        Failure,
    >)
        ensures
            match outcome {
                Ok(protocol) => next matches Ok(opened) && opened.0.spec_request()
                    == self.spec_request() && opened.2 == protocol,
                Err(detail) => next matches Err(failure) && failure
                    == Stage::ProtocolInit.spec_failed(detail),
            },
    {
        match outcome {
            Ok(protocol) => {
                let (producer, events) = EventBridge::open().split();
                match producer {
                    Some(producer) => Ok(
                        (LoginStage { request: self.request, events }, producer, protocol),
                    ),
                    None => vstd::pervasive::unreached(),
                }
            },
            Err(detail) => Err(Stage::ProtocolInit.failed(detail)),
        }
    }
}

impl LoginStage {
    pub closed spec fn spec_request(&self) -> SessionRequest {
        self.request
    }

    /// The receiving end of the bridge that was opened for the session.
    pub closed spec fn events(&self) -> BridgeConsumer {
        self.events
    }

    pub fn request(&self) -> (request: &SessionRequest)
        ensures
            *request == self.spec_request(),
    {
        &self.request
    }

    /// Takes the outcome of the login: the handle of the logged-in client.
    /// With it the session exists, whole; without it there is none.
    pub fn logged_in<H>(self, outcome: Result<H, String>) -> (created: Result<Session<H>, Failure>)
        ensures
            match outcome {
                Ok(handle) => created matches Ok(session) && session.handle() == handle
                    && session.events() == self.events() && !session.ended(),
                Err(detail) => created matches Err(failure) && failure == Stage::Login.spec_failed(
                    detail,
                ),
            },
    {
        match outcome {
            Ok(handle) => Ok(Session::new(handle, self.events)),
            Err(detail) => Err(Stage::Login.failed(detail)),
        }
    }
}

} // verus!
