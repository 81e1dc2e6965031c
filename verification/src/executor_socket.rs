//! The socket of the root executor: who may use it, what is asked over it, and what is answered.

use vstd::prelude::*;
use crate::dependency_fetch::FrameError;
use crate::domain::identifiers::{GitCommitId, ProjectId};
use crate::domain::operation::{MutationStatusV1, OperationKind, ReleaseClass};
use crate::executor_authority::{ActionGrantFindings, RootExecutorAuthorityConfigV1};
use crate::paths::{
    absolute_without_parents,
    from_root,
    is_absolute_without_parents,
    is_normalized_absolute_path,
    is_same_place,
    normalized_absolute,
    path_names,
    same_place,
    split_path,
    NodeFacts,
    SocketCleanupGuard,
};
use crate::text::texts;
use crate::unique_id::Uuid;

verus! {

pub const ROOT_EXECUTOR_CONFIG_SCHEMA_VERSION: u16 = 1;

pub const ROOT_EXECUTOR_CONFIG_PATH: &'static str = "/etc/rdashboard/executor.json";

pub const ROOT_EXECUTOR_SOCKET_PATH: &'static str = "/run/rdashboard/executor.sock";

pub const MIN_REQUEST_TIMEOUT_MS: u64 = 100;

pub const MAX_REQUEST_TIMEOUT_MS: u64 = 30_000;

pub const MAX_CONNECTIONS: u16 = 128;

pub const NANOSECONDS_IN_MS: u128 = 1_000_000;

/// What is wrong with the configuration of the executor.
#[derive(Clone, Copy, Debug, PartialEq, Eq, Structural)]
pub enum ExecutorConfigError {
    UnsupportedSchemaVersion(u16),
    InvalidControllerUid,
    InvalidSocketPath,
    InvalidMetricsDiskPath,
    InvalidConnectionLimit,
    InvalidRequestTimeout,
    InvalidMutationAuthority,
}

/// Why a connection, or the socket that it would come from, is given up.
#[derive(Debug, PartialEq, Eq)]
pub enum ExecutorSocketError {
    InvalidBindPath,
    BindParent(String),
    UnsafeBindParent,
    SocketPathExists,
    InspectSocketPath(String),
    Bind(String),
    SetPermissions(String),
    BoundPathNotSocket,
    PeerCredentials(String),
    UnauthorizedPeer { received: u32 },
    DeadlineExceeded,
    Frame(FrameError),
    Accept(String),
}

/// Why a request is rejected. What those who control mutations refuse, they refuse in their words.
#[derive(Debug, PartialEq, Eq)]
pub enum ControlRejectionCodeV1 {
    UnsupportedProtocolVersion,
    InvalidRequest,
    InternalFailure,
    ProjectObservationNotConfigured,
    MutationAuthorityUnavailable,
    Refused(String),
}

/// Why the one who asked has no answer.
#[derive(Debug, PartialEq, Eq)]
pub enum ExecutorClientError {
    InvalidSocketPath,
    InvalidRequestTimeout,
    Connect(String),
    DeadlineExceeded,
    Frame(FrameError),
    ResponseBindingMismatch,
    UnexpectedResponse,
    Rejected { code: ControlRejectionCodeV1, retryable: bool },
}

impl ExecutorConfigError {
    /// The error in words, without what it carries.
    pub fn message(self) -> (r: &'static str)
        ensures
            r@ == match self {
                ExecutorConfigError::UnsupportedSchemaVersion(_) => "unsupported root executor config schema version"@,
                ExecutorConfigError::InvalidControllerUid => "controller UID must identify a non-root Unix account"@,
                ExecutorConfigError::InvalidSocketPath => "executor socket path must be the installed fixed path"@,
                ExecutorConfigError::InvalidMetricsDiskPath => "metrics disk path must be absolute, normalized and bounded"@,
                ExecutorConfigError::InvalidConnectionLimit => "executor connection limit must be between 1 and 128"@,
                ExecutorConfigError::InvalidRequestTimeout => "executor request timeout must be between 100 and 30000 milliseconds"@,
                ExecutorConfigError::InvalidMutationAuthority => "root executor mutation authority configuration is invalid"@,
            },
    {
        match self {
            ExecutorConfigError::UnsupportedSchemaVersion(_) => "unsupported root executor config schema version",
            ExecutorConfigError::InvalidControllerUid => "controller UID must identify a non-root Unix account",
            ExecutorConfigError::InvalidSocketPath => "executor socket path must be the installed fixed path",
            ExecutorConfigError::InvalidMetricsDiskPath => "metrics disk path must be absolute, normalized and bounded",
            ExecutorConfigError::InvalidConnectionLimit => "executor connection limit must be between 1 and 128",
            ExecutorConfigError::InvalidRequestTimeout => "executor request timeout must be between 100 and 30000 milliseconds",
            ExecutorConfigError::InvalidMutationAuthority => "root executor mutation authority configuration is invalid",
        }
    }
}

impl ExecutorSocketError {
    /// The error in words, without what it carries.
    pub fn message(&self) -> (r: &'static str)
        ensures
            r@ == match *self {
                ExecutorSocketError::InvalidBindPath => "executor socket bind path is invalid"@,
                ExecutorSocketError::BindParent(_) => "executor socket parent could not be inspected"@,
                ExecutorSocketError::UnsafeBindParent => "executor socket parent is not a direct non-symlink directory"@,
                ExecutorSocketError::SocketPathExists => "executor socket path already exists"@,
                ExecutorSocketError::InspectSocketPath(_) => "executor socket path could not be inspected"@,
                ExecutorSocketError::Bind(_) => "executor socket bind failed"@,
                ExecutorSocketError::SetPermissions(_) => "executor socket permissions could not be set"@,
                ExecutorSocketError::BoundPathNotSocket => "executor bind path is not a Unix socket"@,
                ExecutorSocketError::PeerCredentials(_) => "executor peer credentials could not be read"@,
                ExecutorSocketError::UnauthorizedPeer { .. } => "executor peer is not authorized"@,
                ExecutorSocketError::DeadlineExceeded => "executor request deadline exceeded"@,
                ExecutorSocketError::Frame(_) => "executor frame failed"@,
                ExecutorSocketError::Accept(_) => "executor socket accept failed"@,
            },
    {
        match self {
            ExecutorSocketError::InvalidBindPath => "executor socket bind path is invalid",
            ExecutorSocketError::BindParent(_) => "executor socket parent could not be inspected",
            ExecutorSocketError::UnsafeBindParent => "executor socket parent is not a direct non-symlink directory",
            ExecutorSocketError::SocketPathExists => "executor socket path already exists",
            ExecutorSocketError::InspectSocketPath(_) => "executor socket path could not be inspected",
            ExecutorSocketError::Bind(_) => "executor socket bind failed",
            ExecutorSocketError::SetPermissions(_) => "executor socket permissions could not be set",
            ExecutorSocketError::BoundPathNotSocket => "executor bind path is not a Unix socket",
            ExecutorSocketError::PeerCredentials(_) => "executor peer credentials could not be read",
            ExecutorSocketError::UnauthorizedPeer { .. } => "executor peer is not authorized",
            ExecutorSocketError::DeadlineExceeded => "executor request deadline exceeded",
            ExecutorSocketError::Frame(_) => "executor frame failed",
            ExecutorSocketError::Accept(_) => "executor socket accept failed",
        }
    }
}

impl ExecutorClientError {
    /// The error in words, without what it carries.
    pub fn message(&self) -> (r: &'static str)
        ensures
            r@ == match *self {
                ExecutorClientError::InvalidSocketPath => "executor client socket path must be absolute, normalized and bounded"@,
                ExecutorClientError::InvalidRequestTimeout => "executor client timeout must be between 100 and 30000 milliseconds"@,
                ExecutorClientError::Connect(_) => "executor connection failed"@,
                ExecutorClientError::DeadlineExceeded => "executor request deadline exceeded"@,
                ExecutorClientError::Frame(_) => "executor frame failed"@,
                ExecutorClientError::ResponseBindingMismatch => "executor response does not match the request or protocol version"@,
                ExecutorClientError::UnexpectedResponse => "executor returned an unexpected response variant"@,
                ExecutorClientError::Rejected { .. } => "executor rejected the request"@,
            },
    {
        match self {
            ExecutorClientError::InvalidSocketPath => "executor client socket path must be absolute, normalized and bounded",
            ExecutorClientError::InvalidRequestTimeout => "executor client timeout must be between 100 and 30000 milliseconds",
            ExecutorClientError::Connect(_) => "executor connection failed",
            ExecutorClientError::DeadlineExceeded => "executor request deadline exceeded",
            ExecutorClientError::Frame(_) => "executor frame failed",
            ExecutorClientError::ResponseBindingMismatch => "executor response does not match the request or protocol version",
            ExecutorClientError::UnexpectedResponse => "executor returned an unexpected response variant",
            ExecutorClientError::Rejected { .. } => "executor rejected the request",
        }
    }
}

/// A mutation that is to be prepared.
#[derive(Debug)]
pub struct PrepareMutationIntentV1 {
    pub project_id: ProjectId,
    pub operation_kind: OperationKind,
    pub target_commit: Option<GitCommitId>,
    pub proposed_release_class: Option<ReleaseClass>,
    pub idempotency_key: Uuid,
}

/// A mutation that is to be carried out, with what grants it.
#[derive(Debug)]
pub struct ExecuteMutationGrantV1 {
    pub intent_id: Uuid,
    pub attempt_id: Uuid,
    pub action_grant: String,
}

/// A mutation that is asked about.
#[derive(Clone, Copy, Debug)]
pub struct ObserveMutationStatusV1 {
    pub intent_id: Uuid,
    pub attempt_id: Uuid,
}

/// A mutation that is carried out, or was already.
#[derive(Clone, Copy, Debug)]
pub struct MutationAcceptanceV1 {
    pub intent_id: Uuid,
    pub attempt_id: Uuid,
    pub replayed: bool,
}

/// Why those who control mutations refuse one, and whether it may be asked for again.
#[derive(Debug)]
pub struct MutationFailureV1 {
    pub code: ControlRejectionCodeV1,
    pub retryable: bool,
}

/// What is asked of the executor.
#[derive(Debug)]
pub enum ControlRequestV1 {
    Negotiate { supported_versions: Vec<u16> },
    ObserveHostSnapshot,
    ObserveDockerSnapshot,
    ObserveSystemdUnits,
    PrepareOperationIntent {
        project_id: ProjectId,
        operation_kind: OperationKind,
        target_commit: Option<GitCommitId>,
        release_class: Option<ReleaseClass>,
        idempotency_key: Uuid,
    },
    ExecuteGrantedOperation { intent_id: Uuid, attempt_id: Uuid, action_grant: String },
    ObserveMutationStatus { intent_id: Uuid, attempt_id: Uuid },
}

/// A request in a version of the protocol.
#[derive(Debug)]
pub struct ControlRequestEnvelope {
    pub version: u16,
    pub request_id: Uuid,
    pub request: ControlRequestV1,
}

/// What the executor answers, with what it observes of its host.
#[derive(Debug)]
pub enum ControlResponseV1<S> {
    Negotiated { selected_version: u16 },
    HostSnapshot { snapshot: S },
    OperationIntentPrepared { signed_intent: String },
    OperationAccepted { intent_id: Uuid, attempt_id: Uuid, replayed: bool },
    MutationStatus { status: MutationStatusV1 },
    Rejected { code: ControlRejectionCodeV1, retryable: bool },
}

/// An answer in a version of the protocol.
#[derive(Debug)]
pub struct ControlResponseEnvelope<S> {
    pub version: u16,
    pub request_id: Uuid,
    pub response: ControlResponseV1<S>,
}

/// What those who speak the protocol find wrong with a request.
#[derive(Clone, Copy, Debug, PartialEq, Eq, Structural)]
pub enum ProtocolValidationError {
    UnsupportedVersion(u16),
    Invalid,
}

/// A time is neither too short nor too long to wait for an answer, in nanoseconds.
pub open spec fn request_timeout_fits(nanoseconds: u128) -> bool {
    MIN_REQUEST_TIMEOUT_MS * NANOSECONDS_IN_MS <= nanoseconds <= MAX_REQUEST_TIMEOUT_MS
        * NANOSECONDS_IN_MS
}

fn does_timeout_fit(nanoseconds: u128) -> (r: bool)
    ensures
        r == request_timeout_fits(nanoseconds),
{
    nanoseconds >= MIN_REQUEST_TIMEOUT_MS as u128 * NANOSECONDS_IN_MS && nanoseconds
        <= MAX_REQUEST_TIMEOUT_MS as u128 * NANOSECONDS_IN_MS
}

/// The one who asks the executor: where it listens, how long an answer may take, in nanoseconds, the
/// version of the protocol that is spoken, and whether it was agreed on.
#[derive(Debug)]
pub struct RootExecutorClient {
    socket_path: String,
    request_timeout: u128,
    protocol_version: u16,
    negotiated: bool,
}

impl RootExecutorClient {
    pub closed spec fn socket(self) -> Seq<char> {
        self.socket_path@
    }

    pub closed spec fn timeout(self) -> u128 {
        self.request_timeout
    }

    pub closed spec fn speaks(self) -> u16 {
        self.protocol_version
    }

    pub closed spec fn agreed(self) -> bool {
        self.negotiated
    }

    /// The client is as another one, but for whether the version was agreed on.
    pub open spec fn serves_as(self, other: RootExecutorClient) -> bool {
        self.socket() == other.socket() && self.timeout() == other.timeout() && self.speaks()
            == other.speaks()
    }

    /// The client as it was, or with nothing agreed on any more.
    pub open spec fn after(self, before: RootExecutorClient, forgets: bool) -> bool {
        self.serves_as(before) && self.agreed() == (before.agreed() && !forgets)
    }

    pub fn new(socket_path: String, request_timeout: u128, protocol_version: u16) -> (r: Result<
        RootExecutorClient,
        ExecutorClientError,
    >)
        ensures
            match r {
                Ok(client) => {
                    &&& normalized_absolute(socket_path@)
                    &&& request_timeout_fits(request_timeout)
                    &&& client.socket() == socket_path@
                    &&& client.timeout() == request_timeout
                    &&& client.speaks() == protocol_version
                    &&& !client.agreed()
                },
                Err(error) => if !normalized_absolute(socket_path@) {
                    error is InvalidSocketPath
                } else {
                    !request_timeout_fits(request_timeout) && error is InvalidRequestTimeout
                },
            },
    {
        if !is_normalized_absolute_path(socket_path.as_str()) {
            return Err(ExecutorClientError::InvalidSocketPath);
        }
        if !does_timeout_fit(request_timeout) {
            return Err(ExecutorClientError::InvalidRequestTimeout);
        }
        Ok(RootExecutorClient { socket_path, request_timeout, protocol_version, negotiated: false })
    }

    pub fn socket_path(&self) -> (r: &str)
        ensures
            r@ == self.socket(),
    {
        self.socket_path.as_str()
    }

    pub fn request_timeout(&self) -> (r: u128)
        ensures
            r == self.timeout(),
    {
        self.request_timeout
    }

    /// What is asked before anything else, while no version was agreed on.
    pub fn negotiation(&self, request_id: Uuid) -> (r: Option<ControlRequestEnvelope>)
        ensures
            match r {
                None => self.agreed(),
                Some(envelope) => {
                    &&& !self.agreed()
                    &&& envelope.version == self.speaks()
                    &&& envelope.request_id == request_id
                    &&& envelope.request is Negotiate
                    &&& envelope.request->supported_versions@ == seq![self.speaks()]
                },
            },
    {
        if self.negotiated {
            return None;
        }
        let mut supported_versions: Vec<u16> = Vec::new();
        supported_versions.push(self.protocol_version);
        assert(supported_versions@ =~= seq![self.speaks()]);
        Some(
            ControlRequestEnvelope {
                version: self.protocol_version,
                request_id,
                request: ControlRequestV1::Negotiate { supported_versions },
            },
        )
    }

    /// A request as it is sent.
    pub fn envelope(
        &self,
        request: ControlRequestV1,
        request_id: Uuid,
    ) -> (r: ControlRequestEnvelope)
        ensures
            r == (ControlRequestEnvelope { version: self.speaks(), request_id, request }),
    {
        ControlRequestEnvelope { version: self.protocol_version, request_id, request }
    }

    /// Takes an answer, if it is one to the request.
    pub fn take_response<S>(
        &mut self,
        envelope: ControlResponseEnvelope<S>,
        request_id: Uuid,
    ) -> (r:
        Result<ControlResponseV1<S>, ExecutorClientError>)
        ensures
            ({
                let fits = envelope.version == old(self).speaks() && envelope.request_id
                    == request_id;
                &&& final(self).after(*old(self), !fits)
                &&& match r {
                    Ok(response) => fits && response == envelope.response,
                    Err(error) => !fits && error is ResponseBindingMismatch,
                }
            }),
    {
        if envelope.version != self.protocol_version || envelope.request_id != request_id {
            self.negotiated = false;
            return Err(ExecutorClientError::ResponseBindingMismatch);
        }
        Ok(envelope.response)
    }

    /// Takes the answer on the version of the protocol.
    pub fn take_negotiation<S>(&mut self, response: ControlResponseV1<S>) -> (r: Result<
        (),
        ExecutorClientError,
    >)
        ensures
            final(self).serves_as(*old(self)),
            match response {
                ControlResponseV1::Negotiated { selected_version } => if selected_version == old(
                    self,
                ).speaks() {
                    r is Ok && final(self).agreed()
                } else {
                    r matches Err(ExecutorClientError::UnexpectedResponse) && final(self).agreed()
                        == old(self).agreed()
                },
                ControlResponseV1::Rejected { code, retryable } => r == Err::<
                    (),
                    ExecutorClientError,
                >(ExecutorClientError::Rejected { code, retryable }) && final(self).agreed()
                    == old(self).agreed(),
                _ => r matches Err(ExecutorClientError::UnexpectedResponse) && final(self).agreed()
                    == old(self).agreed(),
            },
    {
        match response {
            ControlResponseV1::Negotiated { selected_version } => {
                if selected_version == self.protocol_version {
                    self.negotiated = true;
                    Ok(())
                } else {
                    Err(ExecutorClientError::UnexpectedResponse)
                }
            },
            ControlResponseV1::Rejected { code, retryable } => Err(
                ExecutorClientError::Rejected { code, retryable },
            ),
            _ => Err(ExecutorClientError::UnexpectedResponse),
        }
    }

    /// Takes the answer on the host.
    pub fn observe_host<S>(&mut self, response: ControlResponseV1<S>) -> (r: Result<
        S,
        ExecutorClientError,
    >)
        ensures
            match response {
                ControlResponseV1::HostSnapshot { snapshot } => r == Ok::<S, ExecutorClientError>(
                    snapshot,
                ) && final(self).after(*old(self), false),
                ControlResponseV1::Rejected { code, retryable } => r == Err::<
                    S,
                    ExecutorClientError,
                >(ExecutorClientError::Rejected { code, retryable }) && final(self).after(
                    *old(self),
                    false,
                ),
                _ => r matches Err(ExecutorClientError::UnexpectedResponse) && final(self).after(
                    *old(self),
                    true,
                ),
            },
    {
        match response {
            ControlResponseV1::HostSnapshot { snapshot } => Ok(snapshot),
            ControlResponseV1::Rejected { code, retryable } => Err(
                ExecutorClientError::Rejected { code, retryable },
            ),
            _ => {
                self.negotiated = false;
                Err(ExecutorClientError::UnexpectedResponse)
            },
        }
    }

    /// Takes the answer on a mutation that was to be prepared.
    pub fn prepare_operation_intent<S>(&mut self, response: ControlResponseV1<S>) -> (r: Result<
        String,
        ExecutorClientError,
    >)
        ensures
            match response {
                ControlResponseV1::OperationIntentPrepared { signed_intent } => r == Ok::<
                    String,
                    ExecutorClientError,
                >(signed_intent) && final(self).after(*old(self), false),
                ControlResponseV1::Rejected { code, retryable } => r == Err::<
                    String,
                    ExecutorClientError,
                >(ExecutorClientError::Rejected { code, retryable }) && final(self).after(
                    *old(self),
                    false,
                ),
                _ => r matches Err(ExecutorClientError::UnexpectedResponse) && final(self).after(
                    *old(self),
                    true,
                ),
            },
    {
        match response {
            ControlResponseV1::OperationIntentPrepared { signed_intent } => Ok(signed_intent),
            ControlResponseV1::Rejected { code, retryable } => Err(
                ExecutorClientError::Rejected { code, retryable },
            ),
            _ => {
                self.negotiated = false;
                Err(ExecutorClientError::UnexpectedResponse)
            },
        }
    }

    /// Takes the answer on a mutation that was to be carried out. It must be of that one.
    pub fn execute_granted_operation<S>(
        &mut self,
        intent_id: Uuid,
        attempt_id: Uuid,
        response: ControlResponseV1<S>,
    ) -> (r: Result<MutationAcceptanceV1, ExecutorClientError>)
        ensures
            match response {
                ControlResponseV1::OperationAccepted {
                    intent_id: intent,
                    attempt_id: attempt,
                    replayed,
                } => if intent == intent_id && attempt == attempt_id {
                    r == Ok::<MutationAcceptanceV1, ExecutorClientError>(
                        MutationAcceptanceV1 { intent_id, attempt_id, replayed },
                    ) && final(self).after(*old(self), false)
                } else {
                    r matches Err(ExecutorClientError::UnexpectedResponse) && final(self).after(
                        *old(self),
                        true,
                    )
                },
                ControlResponseV1::Rejected { code, retryable } => r == Err::<
                    MutationAcceptanceV1,
                    ExecutorClientError,
                >(ExecutorClientError::Rejected { code, retryable }) && final(self).after(
                    *old(self),
                    false,
                ),
                _ => r matches Err(ExecutorClientError::UnexpectedResponse) && final(self).after(
                    *old(self),
                    true,
                ),
            },
    {
        match response {
            ControlResponseV1::OperationAccepted {
                intent_id: intent,
                attempt_id: attempt,
                replayed,
            } => {
                if intent == intent_id && attempt == attempt_id {
                    Ok(MutationAcceptanceV1 { intent_id, attempt_id, replayed })
                } else {
                    self.negotiated = false;
                    Err(ExecutorClientError::UnexpectedResponse)
                }
            },
            ControlResponseV1::Rejected { code, retryable } => Err(
                ExecutorClientError::Rejected { code, retryable },
            ),
            _ => {
                self.negotiated = false;
                Err(ExecutorClientError::UnexpectedResponse)
            },
        }
    }

    /// Takes the answer on a mutation that was asked about. It must be of that one.
    pub fn mutation_status<S>(
        &mut self,
        input: ObserveMutationStatusV1,
        response: ControlResponseV1<S>,
    ) -> (r: Result<MutationStatusV1, ExecutorClientError>)
        ensures
            match response {
                ControlResponseV1::MutationStatus { status } => if status.intent_id
                    == input.intent_id && status.attempt_id == input.attempt_id {
                    r == Ok::<MutationStatusV1, ExecutorClientError>(status) && final(self).after(
                        *old(self),
                        false,
                    )
                } else {
                    r matches Err(ExecutorClientError::UnexpectedResponse) && final(self).after(
                        *old(self),
                        true,
                    )
                },
                ControlResponseV1::Rejected { code, retryable } => r == Err::<
                    MutationStatusV1,
                    ExecutorClientError,
                >(ExecutorClientError::Rejected { code, retryable }) && final(self).after(
                    *old(self),
                    false,
                ),
                _ => r matches Err(ExecutorClientError::UnexpectedResponse) && final(self).after(
                    *old(self),
                    true,
                ),
            },
    {
        match response {
            ControlResponseV1::MutationStatus { status } => {
                if status.intent_id == input.intent_id && status.attempt_id == input.attempt_id {
                    Ok(status)
                } else {
                    self.negotiated = false;
                    Err(ExecutorClientError::UnexpectedResponse)
                }
            },
            ControlResponseV1::Rejected { code, retryable } => Err(
                ExecutorClientError::Rejected { code, retryable },
            ),
            _ => {
                self.negotiated = false;
                Err(ExecutorClientError::UnexpectedResponse)
            },
        }
    }
}

/// How the executor is set up.
#[derive(Clone, Debug, PartialEq, Eq)]
pub struct RootExecutorConfigV1 {
    pub schema_version: u16,
    pub controller_uid: u32,
    pub socket_path: String,
    pub metrics_disk_path: String,
    pub max_connections: u16,
    pub request_timeout_ms: u64,
    pub mutation_authority: Option<RootExecutorAuthorityConfigV1>,
}

impl RootExecutorConfigV1 {
    /// What is wrong with the configuration, with what was found of its authority.
    pub open spec fn fault(self, findings: ActionGrantFindings) -> Option<ExecutorConfigError> {
        if self.schema_version != ROOT_EXECUTOR_CONFIG_SCHEMA_VERSION {
            Some(ExecutorConfigError::UnsupportedSchemaVersion(self.schema_version))
        } else if self.controller_uid == 0 || self.controller_uid == u32::MAX {
            Some(ExecutorConfigError::InvalidControllerUid)
        } else if !same_place(self.socket_path@, ROOT_EXECUTOR_SOCKET_PATH@) {
            Some(ExecutorConfigError::InvalidSocketPath)
        } else if !normalized_absolute(self.metrics_disk_path@) {
            Some(ExecutorConfigError::InvalidMetricsDiskPath)
        } else if !(1 <= self.max_connections <= MAX_CONNECTIONS) {
            Some(ExecutorConfigError::InvalidConnectionLimit)
        } else if !(MIN_REQUEST_TIMEOUT_MS <= self.request_timeout_ms <= MAX_REQUEST_TIMEOUT_MS) {
            Some(ExecutorConfigError::InvalidRequestTimeout)
        } else {
            match self.mutation_authority {
                Some(authority) => if authority.fault(findings) is Some {
                    Some(ExecutorConfigError::InvalidMutationAuthority)
                } else {
                    None
                },
                None => None,
            }
        }
    }

    pub fn validate(&self, findings: &ActionGrantFindings) -> (r: Result<(), ExecutorConfigError>)
        ensures
            match r {
                Ok(()) => self.fault(*findings) is None,
                Err(error) => self.fault(*findings) == Some(error),
            },
    {
        if self.schema_version != ROOT_EXECUTOR_CONFIG_SCHEMA_VERSION {
            return Err(ExecutorConfigError::UnsupportedSchemaVersion(self.schema_version));
        }
        if self.controller_uid == 0 || self.controller_uid == u32::MAX {
            return Err(ExecutorConfigError::InvalidControllerUid);
        }
        if !is_same_place(self.socket_path.as_str(), ROOT_EXECUTOR_SOCKET_PATH) {
            return Err(ExecutorConfigError::InvalidSocketPath);
        }
        if !is_normalized_absolute_path(self.metrics_disk_path.as_str()) {
            return Err(ExecutorConfigError::InvalidMetricsDiskPath);
        }
        if self.max_connections < 1 || self.max_connections > MAX_CONNECTIONS {
            return Err(ExecutorConfigError::InvalidConnectionLimit);
        }
        if self.request_timeout_ms < MIN_REQUEST_TIMEOUT_MS || self.request_timeout_ms
            > MAX_REQUEST_TIMEOUT_MS {
            return Err(ExecutorConfigError::InvalidRequestTimeout);
        }
        match &self.mutation_authority {
            Some(authority) => match authority.validate(findings) {
                Err(_) => Err(ExecutorConfigError::InvalidMutationAuthority),
                Ok(()) => Ok(()),
            },
            None => Ok(()),
        }
    }

    /// How connections are served. A good configuration always says so.
    pub fn server_config(&self, findings: &ActionGrantFindings) -> (r: Result<
        ExecutorServerConfig,
        ExecutorConfigError,
    >)
        ensures
            match r {
                Ok(config) => {
                    &&& self.fault(*findings) is None
                    &&& config.allowed() == self.controller_uid
                    &&& config.connections() == self.max_connections
                    &&& config.timeout() == self.request_timeout_ms * NANOSECONDS_IN_MS
                },
                Err(error) => self.fault(*findings) == Some(error),
            },
    {
        match self.validate(findings) {
            Err(error) => return Err(error),
            Ok(()) => {},
        }
        ExecutorServerConfig::new(
            self.controller_uid,
            self.max_connections as usize,
            self.request_timeout_ms as u128 * NANOSECONDS_IN_MS,
        )
    }
}

/// Who is served, by how many connections, and how long a request may take, in nanoseconds.
#[derive(Clone, Copy, Debug)]
pub struct ExecutorServerConfig {
    allowed_uid: u32,
    max_connections: usize,
    request_timeout: u128,
}

impl ExecutorServerConfig {
    pub closed spec fn allowed(self) -> u32 {
        self.allowed_uid
    }

    pub closed spec fn connections(self) -> usize {
        self.max_connections
    }

    pub closed spec fn timeout(self) -> u128 {
        self.request_timeout
    }

    pub fn new(allowed_uid: u32, max_connections: usize, request_timeout: u128) -> (r: Result<
        ExecutorServerConfig,
        ExecutorConfigError,
    >)
        ensures
            match r {
                Ok(config) => {
                    &&& 1 <= max_connections <= MAX_CONNECTIONS
                    &&& request_timeout_fits(request_timeout)
                    &&& config.allowed() == allowed_uid
                    &&& config.connections() == max_connections
                    &&& config.timeout() == request_timeout
                },
                Err(error) => if !(1 <= max_connections <= MAX_CONNECTIONS) {
                    error is InvalidConnectionLimit
                } else {
                    !request_timeout_fits(request_timeout) && error is InvalidRequestTimeout
                },
            },
    {
        if max_connections < 1 || max_connections > MAX_CONNECTIONS as usize {
            return Err(ExecutorConfigError::InvalidConnectionLimit);
        }
        if !does_timeout_fit(request_timeout) {
            return Err(ExecutorConfigError::InvalidRequestTimeout);
        }
        Ok(ExecutorServerConfig { allowed_uid, max_connections, request_timeout })
    }

    pub fn request_timeout(&self) -> (r: u128)
        ensures
            r == self.timeout(),
    {
        self.request_timeout
    }

    pub fn max_connections(&self) -> (r: usize)
        ensures
            r == self.connections(),
    {
        self.max_connections
    }

    /// Whether a peer is served. It is asked before anything is read.
    pub fn admit_peer(&self, uid: u32) -> (r: Result<(), ExecutorSocketError>)
        ensures
            match r {
                Ok(()) => uid == self.allowed(),
                Err(error) => uid != self.allowed() && error
                    == (ExecutorSocketError::UnauthorizedPeer { received: uid }),
            },
    {
        if uid != self.allowed_uid {
            Err(ExecutorSocketError::UnauthorizedPeer { received: uid })
        } else {
            Ok(())
        }
    }
}

/// Nothing may be left behind a request.
pub fn check_request_end(trailing: usize) -> (r: Result<(), ExecutorSocketError>)
    ensures
        match r {
            Ok(()) => trailing == 0,
            Err(error) => trailing != 0 && error == ExecutorSocketError::Frame(
                FrameError::TrailingBytes(trailing),
            ),
        },
{
    if trailing != 0 {
        Err(ExecutorSocketError::Frame(FrameError::TrailingBytes(trailing)))
    } else {
        Ok(())
    }
}

/// What answers requests.
pub trait ControlRequestHandler<S> {
    fn handle(&self, request: ControlRequestEnvelope) -> ControlResponseEnvelope<S>;
}

/// What is done about a request: it is answered at once, or something is asked of the host or of
/// those who control mutations.
#[derive(Debug)]
pub enum HandlerAction<S> {
    Respond(ControlResponseEnvelope<S>),
    CollectHost,
    PrepareIntent(PrepareMutationIntentV1),
    AcceptGrant(ExecuteMutationGrantV1),
    ObserveStatus(ObserveMutationStatusV1),
}

/// The handler of an executor that observes its host, and changes nothing unless it has what
/// controls mutations.
#[derive(Debug)]
pub struct ReadOnlyExecutorHandler<C, A, M> {
    host_collector: C,
    mutation_authority: Option<A>,
    mutation_control: Option<M>,
    protocol_version: u16,
}

/// An answer to a request.
pub open spec fn answer<S>(
    version: u16,
    request_id: Uuid,
    response: ControlResponseV1<S>,
) -> ControlResponseEnvelope<
    S,
> {
    ControlResponseEnvelope { version, request_id, response }
}

/// What is done about a request that would change something: nothing, unless there is what controls
/// mutations.
pub open spec fn controlled<S>(
    version: u16,
    controls: bool,
    request_id: Uuid,
    action: HandlerAction<S>,
) -> HandlerAction<S> {
    if controls {
        action
    } else {
        HandlerAction::Respond(
            answer(
                version,
                request_id,
                ControlResponseV1::Rejected {
                    code: ControlRejectionCodeV1::MutationAuthorityUnavailable,
                    retryable: false,
                },
            ),
        )
    }
}

/// What is done about a request, by a handler that speaks a version and has what controls mutations
/// or not, with what was found wrong with the request.
pub open spec fn action_for<S>(
    version: u16,
    controls: bool,
    request: ControlRequestEnvelope,
    fault: Option<ProtocolValidationError>,
) -> HandlerAction<S> {
    let respond = |response: ControlResponseV1<S>|
        HandlerAction::Respond(answer(version, request.request_id, response));
    match fault {
        Some(ProtocolValidationError::UnsupportedVersion(_)) => respond(
            ControlResponseV1::Rejected {
                code: ControlRejectionCodeV1::UnsupportedProtocolVersion,
                retryable: false,
            },
        ),
        Some(ProtocolValidationError::Invalid) => respond(
            ControlResponseV1::Rejected {
                code: ControlRejectionCodeV1::InvalidRequest,
                retryable: false,
            },
        ),
        None => match request.request {
            ControlRequestV1::Negotiate { supported_versions } => respond(
                if supported_versions@.contains(version) {
                    ControlResponseV1::Negotiated { selected_version: version }
                } else {
                    ControlResponseV1::Rejected {
                        code: ControlRejectionCodeV1::UnsupportedProtocolVersion,
                        retryable: false,
                    }
                },
            ),
            ControlRequestV1::ObserveHostSnapshot => HandlerAction::CollectHost,
            ControlRequestV1::ObserveDockerSnapshot | ControlRequestV1::ObserveSystemdUnits => respond(
                ControlResponseV1::Rejected {
                    code: ControlRejectionCodeV1::ProjectObservationNotConfigured,
                    retryable: false,
                },
            ),
            ControlRequestV1::PrepareOperationIntent {
                project_id,
                operation_kind,
                target_commit,
                release_class,
                idempotency_key,
            } => controlled(
                version,
                controls,
                request.request_id,
                HandlerAction::PrepareIntent(
                    PrepareMutationIntentV1 {
                        project_id,
                        operation_kind,
                        target_commit,
                        proposed_release_class: release_class,
                        idempotency_key,
                    },
                ),
            ),
            ControlRequestV1::ExecuteGrantedOperation { intent_id, attempt_id, action_grant } => controlled(
                version,
                controls,
                request.request_id,
                HandlerAction::AcceptGrant(
                    ExecuteMutationGrantV1 { intent_id, attempt_id, action_grant },
                ),
            ),
            ControlRequestV1::ObserveMutationStatus { intent_id, attempt_id } => controlled(
                version,
                controls,
                request.request_id,
                HandlerAction::ObserveStatus(ObserveMutationStatusV1 { intent_id, attempt_id }),
            ),
        },
    }
}

impl<C, A, M> ReadOnlyExecutorHandler<C, A, M> {
    pub closed spec fn collector(self) -> C {
        self.host_collector
    }

    pub closed spec fn authority(self) -> Option<A> {
        self.mutation_authority
    }

    pub closed spec fn control(self) -> Option<M> {
        self.mutation_control
    }

    pub closed spec fn speaks(self) -> u16 {
        self.protocol_version
    }

    pub fn linux(host_collector: C, protocol_version: u16) -> (r: Self)
        ensures
            r.collector() == host_collector,
            r.authority() is None,
            r.control() is None,
            r.speaks() == protocol_version,
    {
        ReadOnlyExecutorHandler {
            host_collector,
            mutation_authority: None,
            mutation_control: None,
            protocol_version,
        }
    }

    pub fn linux_with_mutation_authority(
        host_collector: C,
        mutation_authority: A,
        protocol_version: u16,
    ) -> (r: Self)
        ensures
            r.collector() == host_collector,
            r.authority() == Some(mutation_authority),
            r.control() is None,
            r.speaks() == protocol_version,
    {
        ReadOnlyExecutorHandler {
            host_collector,
            mutation_authority: Some(mutation_authority),
            mutation_control: None,
            protocol_version,
        }
    }

    pub fn linux_with_mutation_control(
        host_collector: C,
        mutation_control: M,
        protocol_version: u16,
    ) -> (r:
        Self)
        ensures
            r.collector() == host_collector,
            r.authority() is None,
            r.control() == Some(mutation_control),
            r.speaks() == protocol_version,
    {
        ReadOnlyExecutorHandler {
            host_collector,
            mutation_authority: None,
            mutation_control: Some(mutation_control),
            protocol_version,
        }
    }

    pub fn mutation_authority_loaded(&self) -> (r: bool)
        ensures
            r == (self.authority() is Some || self.control() is Some),
    {
        self.mutation_authority.is_some() || self.mutation_control.is_some()
    }

    pub fn mutation_enabled(&self) -> (r: bool)
        ensures
            r == self.control() is Some,
    {
        self.mutation_control.is_some()
    }

    pub fn host_collector(&self) -> (r: &C)
        ensures
            *r == self.collector(),
    {
        &self.host_collector
    }

    /// What controls mutations.
    pub fn mutation_control(&self) -> (r: &Option<M>)
        ensures
            *r == self.control(),
    {
        &self.mutation_control
    }

    fn response<S>(
        &self,
        request_id: Uuid,
        response: ControlResponseV1<S>,
    ) -> (r: ControlResponseEnvelope<
        S,
    >)
        ensures
            r == answer(self.speaks(), request_id, response),
    {
        ControlResponseEnvelope { version: self.protocol_version, request_id, response }
    }

    fn rejected<S>(&self, request_id: Uuid, code: ControlRejectionCodeV1, retryable: bool) -> (r:
        ControlResponseEnvelope<S>)
        ensures
            r == answer(
                self.speaks(),
                request_id,
                ControlResponseV1::<S>::Rejected { code, retryable },
            ),
    {
        self.response(request_id, ControlResponseV1::Rejected { code, retryable })
    }

    fn uncontrolled<S>(&self, request_id: Uuid) -> (r: HandlerAction<S>)
        ensures
            forall|action: HandlerAction<S>|
                r == #[trigger] controlled(self.speaks(), false, request_id, action),
    {
        HandlerAction::Respond(
            self.rejected(request_id, ControlRejectionCodeV1::MutationAuthorityUnavailable, false),
        )
    }

    fn speaks_one_of(&self, versions: &Vec<u16>) -> (r: bool)
        ensures
            r == versions@.contains(self.speaks()),
    {
        let mut i: usize = 0;
        while i < versions.len()
            invariant
                i <= versions.len(),
                forall|k: int| 0 <= k < i ==> versions@[k] != self.speaks(),
            decreases versions.len() - i,
        {
            if versions[i] == self.protocol_version {
                assert(versions@[i as int] == self.speaks());
                return true;
            }
            i += 1;
        }
        false
    }

    /// What is done about a request, with what was found wrong with it.
    pub fn take_request<S>(
        &self,
        request: ControlRequestEnvelope,
        fault: Option<ProtocolValidationError>,
    ) -> (r: HandlerAction<S>)
        ensures
            r == action_for::<S>(self.speaks(), self.control() is Some, request, fault),
    {
        let request_id = request.request_id;
        match fault {
            Some(ProtocolValidationError::UnsupportedVersion(_)) => return HandlerAction::Respond(
                self.rejected(request_id, ControlRejectionCodeV1::UnsupportedProtocolVersion, false),
            ),
            Some(ProtocolValidationError::Invalid) => return HandlerAction::Respond(
                self.rejected(request_id, ControlRejectionCodeV1::InvalidRequest, false),
            ),
            None => {},
        }
        let controls = self.mutation_control.is_some();
        match request.request {
            ControlRequestV1::Negotiate { supported_versions } => {
                if self.speaks_one_of(&supported_versions) {
                    HandlerAction::Respond(
                        self.response(
                            request_id,
                            ControlResponseV1::Negotiated { selected_version: self.protocol_version },
                        ),
                    )
                } else {
                    HandlerAction::Respond(
                        self.rejected(
                            request_id,
                            ControlRejectionCodeV1::UnsupportedProtocolVersion,
                            false,
                        ),
                    )
                }
            },
            ControlRequestV1::ObserveHostSnapshot => HandlerAction::CollectHost,
            ControlRequestV1::ObserveDockerSnapshot | ControlRequestV1::ObserveSystemdUnits =>
            HandlerAction::Respond(
                self.rejected(
                    request_id,
                    ControlRejectionCodeV1::ProjectObservationNotConfigured,
                    false,
                ),
            ),
            ControlRequestV1::PrepareOperationIntent {
                project_id,
                operation_kind,
                target_commit,
                release_class,
                idempotency_key,
            } => if controls {
                HandlerAction::PrepareIntent(
                    PrepareMutationIntentV1 {
                        project_id,
                        operation_kind,
                        target_commit,
                        proposed_release_class: release_class,
                        idempotency_key,
                    },
                )
            } else {
                self.uncontrolled(request_id)
            },
            ControlRequestV1::ExecuteGrantedOperation { intent_id, attempt_id, action_grant } =>
            if controls {
                HandlerAction::AcceptGrant(
                    ExecuteMutationGrantV1 { intent_id, attempt_id, action_grant },
                )
            } else {
                self.uncontrolled(request_id)
            },
            ControlRequestV1::ObserveMutationStatus { intent_id, attempt_id } => if controls {
                HandlerAction::ObserveStatus(ObserveMutationStatusV1 { intent_id, attempt_id })
            } else {
                self.uncontrolled(request_id)
            },
        }
    }

    /// What is answered once the host was observed. Nothing is observed where the clock or the
    /// collector cannot be used.
    pub fn answer_host<S>(
        &self,
        request_id: Uuid,
        snapshot: Option<S>,
    ) -> (r: ControlResponseEnvelope<
        S,
    >)
        ensures
            r == answer(
                self.speaks(),
                request_id,
                match snapshot {
                    Some(snapshot) => ControlResponseV1::HostSnapshot { snapshot },
                    None => ControlResponseV1::Rejected {
                        code: ControlRejectionCodeV1::InternalFailure,
                        retryable: true,
                    },
                },
            ),
    {
        match snapshot {
            Some(snapshot) => self.response(
                request_id,
                ControlResponseV1::HostSnapshot { snapshot },
            ),
            None => self.rejected(request_id, ControlRejectionCodeV1::InternalFailure, true),
        }
    }

    /// What is answered once a mutation was to be prepared. Nothing came of it where the clock
    /// cannot be used.
    pub fn answer_prepared<S>(
        &self,
        request_id: Uuid,
        outcome: Option<Result<String, MutationFailureV1>>,
    ) -> (r: ControlResponseEnvelope<S>)
        ensures
            r == answer(
                self.speaks(),
                request_id,
                match outcome {
                    Some(Ok(signed_intent)) => ControlResponseV1::<S>::OperationIntentPrepared {
                        signed_intent,
                    },
                    Some(Err(failure)) => ControlResponseV1::<S>::Rejected {
                        code: failure.code,
                        retryable: failure.retryable,
                    },
                    None => ControlResponseV1::<S>::Rejected {
                        code: ControlRejectionCodeV1::InternalFailure,
                        retryable: true,
                    },
                },
            ),
    {
        match outcome {
            Some(Ok(signed_intent)) => self.response(
                request_id,
                ControlResponseV1::OperationIntentPrepared { signed_intent },
            ),
            Some(Err(failure)) => self.rejected(request_id, failure.code, failure.retryable),
            None => self.rejected(request_id, ControlRejectionCodeV1::InternalFailure, true),
        }
    }

    /// What is answered once a mutation was to be carried out. Nothing came of it where the clock
    /// cannot be used.
    pub fn answer_accepted<S>(
        &self,
        request_id: Uuid,
        outcome: Option<Result<MutationAcceptanceV1, MutationFailureV1>>,
    ) -> (r: ControlResponseEnvelope<S>)
        ensures
            r == answer(
                self.speaks(),
                request_id,
                match outcome {
                    Some(Ok(acceptance)) => ControlResponseV1::<S>::OperationAccepted {
                        intent_id: acceptance.intent_id,
                        attempt_id: acceptance.attempt_id,
                        replayed: acceptance.replayed,
                    },
                    Some(Err(failure)) => ControlResponseV1::<S>::Rejected {
                        code: failure.code,
                        retryable: failure.retryable,
                    },
                    None => ControlResponseV1::<S>::Rejected {
                        code: ControlRejectionCodeV1::InternalFailure,
                        retryable: true,
                    },
                },
            ),
    {
        match outcome {
            Some(Ok(acceptance)) => self.response(
                request_id,
                ControlResponseV1::OperationAccepted {
                    intent_id: acceptance.intent_id,
                    attempt_id: acceptance.attempt_id,
                    replayed: acceptance.replayed,
                },
            ),
            Some(Err(failure)) => self.rejected(request_id, failure.code, failure.retryable),
            None => self.rejected(request_id, ControlRejectionCodeV1::InternalFailure, true),
        }
    }

    /// What is answered once a mutation was asked about.
    pub fn answer_status<S>(
        &self,
        request_id: Uuid,
        outcome: Result<MutationStatusV1, MutationFailureV1>,
    ) -> (r: ControlResponseEnvelope<S>)
        ensures
            r == answer(
                self.speaks(),
                request_id,
                match outcome {
                    Ok(status) => ControlResponseV1::<S>::MutationStatus { status },
                    Err(failure) => ControlResponseV1::<S>::Rejected {
                        code: failure.code,
                        retryable: failure.retryable,
                    },
                },
            ),
    {
        match outcome {
            Ok(status) => self.response(request_id, ControlResponseV1::MutationStatus { status }),
            Err(failure) => self.rejected(request_id, failure.code, failure.retryable),
        }
    }
}

/// A socket of the executor that is to be bound.
#[derive(Debug)]
pub struct ExecutorSocketBinding {
    path: String,
}

impl ExecutorSocketBinding {
    pub closed spec fn place(self) -> Seq<char> {
        self.path@
    }

    /// A socket can be bound at a path that leads downwards from the root.
    pub fn begin(path: String) -> (r: Result<ExecutorSocketBinding, ExecutorSocketError>)
        ensures
            r is Ok == (absolute_without_parents(path@) && path_names(path@).len() > 0),
            r matches Ok(binding) ==> binding.place() == path@,
            r matches Err(error) ==> error is InvalidBindPath,
    {
        if !is_absolute_without_parents(path.as_str()) {
            return Err(ExecutorSocketError::InvalidBindPath);
        }
        let names = split_path(path.as_str());
        assert(texts(names@).len() == names@.len());
        if names.len() == 0 {
            return Err(ExecutorSocketError::InvalidBindPath);
        }
        Ok(ExecutorSocketBinding { path })
    }

    /// Whether the directory of the socket is one, and no link to another.
    pub fn check_parent(&self, parent: &NodeFacts) -> (r: Result<(), ExecutorSocketError>)
        ensures
            r is Ok == (parent.is_directory && !parent.is_symlink),
            r matches Err(error) ==> error is UnsafeBindParent,
    {
        if !parent.is_directory || parent.is_symlink {
            Err(ExecutorSocketError::UnsafeBindParent)
        } else {
            Ok(())
        }
    }

    /// Whether nothing is at the path.
    pub fn check_existing(&self, existing: &Option<NodeFacts>) -> (r: Result<
        (),
        ExecutorSocketError,
    >)
        ensures
            r is Ok == existing is None,
            r matches Err(error) ==> error is SocketPathExists,
    {
        if existing.is_some() {
            Err(ExecutorSocketError::SocketPathExists)
        } else {
            Ok(())
        }
    }

    /// Ends the binding, if what was bound is a socket.
    pub fn finish(self, bound: &NodeFacts) -> (r: Result<SocketCleanupGuard, ExecutorSocketError>)
        ensures
            r is Ok == bound.is_socket,
            r matches Ok(guard) ==> guard.path@ == self.place() && guard.device == bound.device
                && guard.inode == bound.inode,
            r matches Err(error) ==> error is BoundPathNotSocket,
    {
        if !bound.is_socket {
            Err(ExecutorSocketError::BoundPathNotSocket)
        } else {
            Ok(SocketCleanupGuard { path: self.path, device: bound.device, inode: bound.inode })
        }
    }
}

/// An executor without what controls mutations changes nothing: whatever is asked of it, it answers
/// at once or observes its host.
pub proof fn law_uncontrolled_executors_change_nothing<S>(
    version: u16,
    request: ControlRequestEnvelope,
    fault: Option<ProtocolValidationError>,
)
    ensures
        ({
            let action = action_for::<S>(version, false, request, fault);
            action is Respond || action is CollectHost
        }),
{
}

/// A request that is wrong is rejected, and never asks anything of anyone.
pub proof fn law_wrong_requests_are_rejected<S>(
    version: u16,
    controls: bool,
    request: ControlRequestEnvelope,
    fault: Option<ProtocolValidationError>,
)
    requires
        fault is Some,
    ensures
        action_for::<S>(version, controls, request, fault) matches HandlerAction::Respond(envelope)
            && envelope.response is Rejected && envelope.request_id == request.request_id,
{
}

/// Every answer is one to its request, so that the one who asked takes it.
pub proof fn law_answers_are_bound_to_requests<S>(
    version: u16,
    controls: bool,
    request: ControlRequestEnvelope,
    fault: Option<ProtocolValidationError>,
)
    ensures
        action_for::<S>(version, controls, request, fault) matches HandlerAction::Respond(envelope)
            ==> envelope.version == version && envelope.request_id == request.request_id,
{
}

/// An executor is set up only for a controller that is neither root nor nobody, on its own socket,
/// with a bounded number of connections, each of which has between a tenth of a second and half a
/// minute; and it then serves just that controller within just these bounds.
pub proof fn law_executors_are_set_up_within_bounds(
    config: RootExecutorConfigV1,
    findings: ActionGrantFindings,
    server: ExecutorServerConfig,
)
    requires
        call_ensures(
            RootExecutorConfigV1::server_config,
            (&config, &findings),
            Ok::<ExecutorServerConfig, ExecutorConfigError>(server),
        ),
    ensures
        config.schema_version == 1,
        0 < config.controller_uid < u32::MAX,
        same_place(config.socket_path@, "/run/rdashboard/executor.sock"@),
        normalized_absolute(config.metrics_disk_path@),
        1 <= config.max_connections <= 128,
        100 <= config.request_timeout_ms <= 30_000,
        config.mutation_authority matches Some(authority) ==> authority.fault(findings) is None,
        server.allowed() == config.controller_uid,
        server.connections() == config.max_connections,
        server.timeout() == config.request_timeout_ms * 1_000_000,
{
}

/// What is set up can be served, and is checked as it is served.
pub proof fn law_valid_executors_are_served(
    config: RootExecutorConfigV1,
    findings: ActionGrantFindings,
    valid: Result<(), ExecutorConfigError>,
    served: Result<ExecutorServerConfig, ExecutorConfigError>,
)
    requires
        call_ensures(RootExecutorConfigV1::validate, (&config, &findings), valid),
        call_ensures(RootExecutorConfigV1::server_config, (&config, &findings), served),
    ensures
        valid is Ok <==> served is Ok,
        valid is Err ==> valid->Err_0 == served->Err_0,
{
}

/// Only the user that is configured is served, and a peer that is turned away is told apart.
pub proof fn law_only_the_configured_user_is_admitted(
    server: ExecutorServerConfig,
    uid: u32,
    other: u32,
    r: Result<(), ExecutorSocketError>,
    s: Result<(), ExecutorSocketError>,
)
    requires
        call_ensures(ExecutorServerConfig::admit_peer, (&server, uid), r),
        call_ensures(ExecutorServerConfig::admit_peer, (&server, other), s),
    ensures
        r is Ok && s is Ok ==> uid == other && uid == server.allowed(),
        r is Err ==> r->Err_0 == (ExecutorSocketError::UnauthorizedPeer { received: uid }),
{
}

/// A request ends where its frame ends.
pub proof fn law_requests_end_with_their_frame(
    trailing: usize,
    r: Result<(), ExecutorSocketError>,
)
    requires
        call_ensures(check_request_end, (trailing,), r),
    ensures
        r is Ok <==> trailing == 0,
{
}

/// What a handler hands on is what it was asked: the same intent, the same grant or the same status,
/// and only where mutations are controlled and nothing is wrong with the request.
pub proof fn law_handlers_hand_on_what_was_asked<C, A, M, S>(
    handler: ReadOnlyExecutorHandler<C, A, M>,
    request: ControlRequestEnvelope,
    fault: Option<ProtocolValidationError>,
    action: HandlerAction<S>,
)
    requires
        call_ensures(
            ReadOnlyExecutorHandler::<C, A, M>::take_request::<S>,
            (&handler, request, fault),
            action,
        ),
    ensures
        !(action is Respond) ==> fault is None,
        action is PrepareIntent || action is AcceptGrant || action is ObserveStatus
            ==> handler.control() is Some,
        action matches HandlerAction::PrepareIntent(intent) ==> request.request
            == (ControlRequestV1::PrepareOperationIntent {
            project_id: intent.project_id,
            operation_kind: intent.operation_kind,
            target_commit: intent.target_commit,
            release_class: intent.proposed_release_class,
            idempotency_key: intent.idempotency_key,
        }),
        action matches HandlerAction::AcceptGrant(grant) ==> request.request
            == (ControlRequestV1::ExecuteGrantedOperation {
            intent_id: grant.intent_id,
            attempt_id: grant.attempt_id,
            action_grant: grant.action_grant,
        }),
        action matches HandlerAction::ObserveStatus(status) ==> request.request
            == (ControlRequestV1::ObserveMutationStatus {
            intent_id: status.intent_id,
            attempt_id: status.attempt_id,
        }),
        action is CollectHost ==> request.request is ObserveHostSnapshot,
        fault is None && handler.control() is Some ==> (action is PrepareIntent
            <==> request.request is PrepareOperationIntent),
        fault is None && handler.control() is Some ==> (action is AcceptGrant
            <==> request.request is ExecuteGrantedOperation),
        fault is None && handler.control() is Some ==> (action is ObserveStatus
            <==> request.request is ObserveMutationStatus),
        fault is None ==> (action is CollectHost <==> request.request is ObserveHostSnapshot),
{
}

/// What a handler answers by itself is to the request that it took, in the version that it speaks.
/// It agrees to that version and to no other, and only where it was offered; everything else is a
/// rejection, which another try would not change.
pub proof fn law_handlers_agree_to_their_version_only<C, A, M, S>(
    handler: ReadOnlyExecutorHandler<C, A, M>,
    request: ControlRequestEnvelope,
    fault: Option<ProtocolValidationError>,
    response: ControlResponseEnvelope<S>,
)
    requires
        call_ensures(
            ReadOnlyExecutorHandler::<C, A, M>::take_request::<S>,
            (&handler, request, fault),
            HandlerAction::Respond(response),
        ),
    ensures
        response.version == handler.speaks(),
        response.request_id == request.request_id,
        match response.response {
            ControlResponseV1::Negotiated { selected_version } => {
                &&& fault is None
                &&& selected_version == handler.speaks()
                &&& request.request matches ControlRequestV1::Negotiate { supported_versions }
                    && supported_versions@.contains(selected_version)
            },
            ControlResponseV1::Rejected { code, retryable } => {
                &&& !retryable
                &&& code is MutationAuthorityUnavailable ==> handler.control() is None
                &&& code is UnsupportedProtocolVersion ==> fault is Some || request.request
                    is Negotiate
                &&& code is InvalidRequest <==> fault == Some(ProtocolValidationError::Invalid)
            },
            _ => false,
        },
{
}

/// Whatever came of what was asked is told: a success as that success and nothing else, and what
/// failed as a rejection. What could not be found out may be asked again.
pub proof fn law_outcomes_are_told_as_they_are<C, A, M, S>(
    handler: ReadOnlyExecutorHandler<C, A, M>,
    request_id: Uuid,
    snapshot: Option<S>,
    host: ControlResponseEnvelope<S>,
    prepared: Option<Result<String, MutationFailureV1>>,
    intent: ControlResponseEnvelope<S>,
    granted: Option<Result<MutationAcceptanceV1, MutationFailureV1>>,
    acceptance: ControlResponseEnvelope<S>,
    observed: Result<MutationStatusV1, MutationFailureV1>,
    status: ControlResponseEnvelope<S>,
)
    requires
        call_ensures(
            ReadOnlyExecutorHandler::<C, A, M>::answer_host::<S>,
            (&handler, request_id, snapshot),
            host,
        ),
        call_ensures(
            ReadOnlyExecutorHandler::<C, A, M>::answer_prepared::<S>,
            (&handler, request_id, prepared),
            intent,
        ),
        call_ensures(
            ReadOnlyExecutorHandler::<C, A, M>::answer_accepted::<S>,
            (&handler, request_id, granted),
            acceptance,
        ),
        call_ensures(
            ReadOnlyExecutorHandler::<C, A, M>::answer_status::<S>,
            (&handler, request_id, observed),
            status,
        ),
    ensures
        host.request_id == request_id && intent.request_id == request_id
            && acceptance.request_id == request_id && status.request_id == request_id,
        host.version == handler.speaks() && intent.version == handler.speaks()
            && acceptance.version == handler.speaks() && status.version == handler.speaks(),
        snapshot is Some <==> host.response is HostSnapshot,
        snapshot is Some ==> host.response->snapshot == snapshot->0,
        prepared matches Some(Ok(signed)) ==> intent.response
            == (ControlResponseV1::<S>::OperationIntentPrepared { signed_intent: signed }),
        granted matches Some(Ok(taken)) ==> acceptance.response
            == (ControlResponseV1::<S>::OperationAccepted {
            intent_id: taken.intent_id,
            attempt_id: taken.attempt_id,
            replayed: taken.replayed,
        }),
        observed matches Ok(found) ==> status.response
            == (ControlResponseV1::<S>::MutationStatus { status: found }),
        prepared matches Some(Err(failure)) ==> intent.response
            == (ControlResponseV1::<S>::Rejected {
            code: failure.code,
            retryable: failure.retryable,
        }),
        granted matches Some(Err(failure)) ==> acceptance.response
            == (ControlResponseV1::<S>::Rejected {
            code: failure.code,
            retryable: failure.retryable,
        }),
        observed matches Err(failure) ==> status.response == (ControlResponseV1::<S>::Rejected {
            code: failure.code,
            retryable: failure.retryable,
        }),
        snapshot is None ==> host.response == (ControlResponseV1::<S>::Rejected {
            code: ControlRejectionCodeV1::InternalFailure,
            retryable: true,
        }),
        prepared is None ==> intent.response == (ControlResponseV1::<S>::Rejected {
            code: ControlRejectionCodeV1::InternalFailure,
            retryable: true,
        }),
        granted is None ==> acceptance.response == (ControlResponseV1::<S>::Rejected {
            code: ControlRejectionCodeV1::InternalFailure,
            retryable: true,
        }),
{
}

/// A client asks for an agreement on its own version before anything else, and only once; and it
/// waits for between a tenth of a second and half a minute.
pub proof fn law_clients_ask_for_their_version_first(
    path: String,
    timeout: u128,
    version: u16,
    client: RootExecutorClient,
    request_id: Uuid,
    asked: Option<ControlRequestEnvelope>,
)
    requires
        call_ensures(
            RootExecutorClient::new,
            (path, timeout, version),
            Ok::<RootExecutorClient, ExecutorClientError>(client),
        ),
        call_ensures(RootExecutorClient::negotiation, (&client, request_id), asked),
    ensures
        100_000_000 <= client.timeout() <= 30_000_000_000,
        client.timeout() == timeout,
        client.socket() == path@,
        asked matches Some(envelope) && envelope.version == version && envelope.request_id
            == request_id && (envelope.request matches ControlRequestV1::Negotiate {
            supported_versions,
        } && supported_versions@ == seq![version]),
{
}

/// A handler that was given nothing to control mutations with enables none, though it may have
/// authority over them.
pub proof fn law_mutations_are_enabled_by_their_control<C, A, M>(
    collector: C,
    authority: A,
    control: M,
    version: u16,
    plain: ReadOnlyExecutorHandler<C, A, M>,
    authorized: ReadOnlyExecutorHandler<C, A, M>,
    controlling: ReadOnlyExecutorHandler<C, A, M>,
    enabled: (bool, bool, bool),
    loaded: (bool, bool, bool),
)
    requires
        call_ensures(ReadOnlyExecutorHandler::<C, A, M>::linux, (collector, version), plain),
        call_ensures(
            ReadOnlyExecutorHandler::<C, A, M>::linux_with_mutation_authority,
            (collector, authority, version),
            authorized,
        ),
        call_ensures(
            ReadOnlyExecutorHandler::<C, A, M>::linux_with_mutation_control,
            (collector, control, version),
            controlling,
        ),
        call_ensures(ReadOnlyExecutorHandler::<C, A, M>::mutation_enabled, (&plain,), enabled.0),
        call_ensures(ReadOnlyExecutorHandler::<C, A, M>::mutation_enabled, (&authorized,), enabled.1),
        call_ensures(
            ReadOnlyExecutorHandler::<C, A, M>::mutation_enabled,
            (&controlling,),
            enabled.2,
        ),
        call_ensures(
            ReadOnlyExecutorHandler::<C, A, M>::mutation_authority_loaded,
            (&plain,),
            loaded.0,
        ),
        call_ensures(
            ReadOnlyExecutorHandler::<C, A, M>::mutation_authority_loaded,
            (&authorized,),
            loaded.1,
        ),
        call_ensures(
            ReadOnlyExecutorHandler::<C, A, M>::mutation_authority_loaded,
            (&controlling,),
            loaded.2,
        ),
    ensures
        enabled == (false, false, true),
        loaded == (false, true, true),
{
}

/// A socket is bound under its own path, in a real directory, where nothing was; and only the socket
/// that was bound is cleared away again.
pub proof fn law_sockets_are_bound_where_nothing_was(
    path: String,
    binding: ExecutorSocketBinding,
    parent: NodeFacts,
    parent_fits: Result<(), ExecutorSocketError>,
    existing: Option<NodeFacts>,
    free: Result<(), ExecutorSocketError>,
    bound: NodeFacts,
    guard: SocketCleanupGuard,
    found: Option<NodeFacts>,
    clears: bool,
)
    requires
        call_ensures(
            ExecutorSocketBinding::begin,
            (path,),
            Ok::<ExecutorSocketBinding, ExecutorSocketError>(binding),
        ),
        call_ensures(ExecutorSocketBinding::check_parent, (&binding, &parent), parent_fits),
        call_ensures(ExecutorSocketBinding::check_existing, (&binding, &existing), free),
        call_ensures(
            ExecutorSocketBinding::finish,
            (binding, &bound),
            Ok::<SocketCleanupGuard, ExecutorSocketError>(guard),
        ),
        call_ensures(SocketCleanupGuard::clears, (&guard, &found), clears),
    ensures
        from_root(path@),
        forall|i: int| 0 <= i < path_names(path@).len() ==> #[trigger] path_names(path@)[i] != ".."@,
        guard.path@ == path@,
        bound.is_socket,
        parent_fits is Ok <==> parent.is_directory && !parent.is_symlink,
        free is Ok <==> existing is None,
        clears <==> found is Some && found->0.is_socket && found->0.device == bound.device
            && found->0.inode == bound.inode,
{
}

} // verus!
