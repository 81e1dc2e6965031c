//! Fetching the archives of crates: what is asked of the fetcher, what it answers, and who may ask.

use vstd::prelude::*;
use crate::domain::identifiers::{sha256, EvidenceDigest};
use crate::paths::{
    absolute_without_parents, is_absolute_without_parents, lemma_normalized_paths_lead_downwards,
    lemma_plain_path, names_begin_from,
};
use crate::text::hex;
use crate::unique_id::Uuid;

pub mod addresses;
pub mod binding;
pub mod download;
pub mod laws;

verus! {

pub const DEPENDENCY_FETCH_PROTOCOL_VERSION: u16 = 1;

pub const DEPENDENCY_FETCH_SOCKET_PATH: &'static str =
    "/run/rdashboard-dependency-fetcher/fetch.sock";

pub const MIN_REQUEST_TIMEOUT_MS: u64 = 1_000;

pub const MAX_REQUEST_TIMEOUT_MS: u64 = 120_000;

pub const MAX_CONNECTIONS: usize = 32;

pub const MAX_SUPPORTED_VERSIONS: usize = 8;

pub const NANOSECONDS_IN_MS: u128 = 1_000_000;

/// A crate of the registry, with the digest of its archive.
#[derive(Clone, Debug, PartialEq, Eq)]
pub struct CargoRegistryPackageV1 {
    pub name: String,
    pub version: String,
    pub checksum: EvidenceDigest,
}

/// What is asked, by whom it is asked again, and in which version of the protocol.
#[derive(Clone, Debug, PartialEq, Eq)]
pub struct DependencyFetchRequestEnvelopeV1 {
    pub version: u16,
    pub request_id: Uuid,
    pub request: DependencyFetchRequestV1,
}

/// What is asked: to speak a version of the protocol, or to fetch a crate.
#[derive(Clone, Debug, PartialEq, Eq)]
pub enum DependencyFetchRequestV1 {
    Negotiate { supported_versions: Vec<u16> },
    FetchCrate { package: CargoRegistryPackageV1 },
}

/// What is answered to a request.
#[derive(Clone, Debug, PartialEq, Eq)]
pub struct DependencyFetchResponseEnvelopeV1 {
    pub version: u16,
    pub request_id: Uuid,
    pub response: DependencyFetchResponseV1,
}

/// What is answered. An archive follows the answer that announces it.
#[derive(Clone, Debug, PartialEq, Eq)]
pub enum DependencyFetchResponseV1 {
    Negotiated { selected_version: u16 },
    CrateAccepted { archive_bytes: u64, archive_digest: EvidenceDigest },
    Rejected { code: DependencyFetchRejectionCodeV1, retryable: bool },
}

/// Why a request is rejected.
#[derive(Clone, Copy, Debug, PartialEq, Eq, Structural)]
pub enum DependencyFetchRejectionCodeV1 {
    UnsupportedProtocolVersion,
    InvalidRequest,
    CrateNotFound,
    CrateUnavailable,
    ArchiveTooLarge,
    IntegrityMismatch,
}

/// Why a crate was not fetched, and whether it may be asked for again.
#[derive(Clone, Copy, Debug, PartialEq, Eq, Structural)]
pub struct DependencyFetchFailureV1 {
    pub code: DependencyFetchRejectionCodeV1,
    pub retryable: bool,
}

impl DependencyFetchFailureV1 {
    pub fn new(
        code: DependencyFetchRejectionCodeV1,
        retryable: bool,
    ) -> (r: DependencyFetchFailureV1)
        ensures
            r == (DependencyFetchFailureV1 { code, retryable }),
    {
        DependencyFetchFailureV1 { code, retryable }
    }
}

/// What is wrong with a request.
#[derive(Clone, Copy, Debug, PartialEq, Eq, Structural)]
pub enum DependencyFetchValidationError {
    UnsupportedVersion(u16),
    NilRequestId,
    InvalidVersionSet,
    InvalidPackage,
}

#[derive(Clone, Copy, Debug, PartialEq, Eq, Structural)]
pub enum DependencyFetchServerConfigError {
    InvalidConfiguration,
}

#[derive(Clone, Copy, Debug, PartialEq, Eq, Structural)]
pub enum DependencyFetchHttpConfigError {
    InvalidTimeout,
    HttpClient,
    InvalidOrigin,
}

/// Why a frame could not be read or written, as far as it matters here.
#[derive(Debug, PartialEq, Eq)]
pub enum FrameError {
    TrailingBytes(usize),
    Failed(String),
}

/// Why the one who asked has no archive.
#[derive(Debug, PartialEq, Eq)]
pub enum DependencyFetchClientError {
    InvalidConfiguration,
    InvalidPackage,
    UnauthorizedServer { received: u32 },
    DeadlineExceeded,
    Rejected { code: DependencyFetchRejectionCodeV1, retryable: bool },
    InvalidResponse,
    PeerCredentials(String),
    Io(String),
    Frame(FrameError),
}

/// Why a connection, or the socket that it would come from, is given up.
#[derive(Debug, PartialEq, Eq)]
pub enum DependencyFetchSocketError {
    InvalidBindPath,
    BindParent(String),
    UnsafeBindParent,
    SocketPathExists,
    InspectStaleSocket(String),
    InspectPath(String),
    SocketPathChanged,
    RemoveStaleSocket(String),
    Bind(String),
    BoundPathNotSocket,
    SetPermissions(String),
    Accept(String),
    PeerCredentials(String),
    UnauthorizedPeer { received: u32 },
    DeadlineExceeded,
    InvalidHandlerResponse,
    Write(String),
    Frame(FrameError),
}

impl DependencyFetchValidationError {
    /// The error in words, without what it carries.
    pub fn message(self) -> (r: &'static str)
        ensures
            r@ == match self {
                DependencyFetchValidationError::UnsupportedVersion(_) => "unsupported dependency fetch protocol version"@,
                DependencyFetchValidationError::NilRequestId => "dependency fetch request ID must not be nil"@,
                DependencyFetchValidationError::InvalidVersionSet => "dependency fetch version set must contain 1-8 entries"@,
                DependencyFetchValidationError::InvalidPackage => "dependency fetch package identity is invalid"@,
            },
    {
        match self {
            DependencyFetchValidationError::UnsupportedVersion(_) => "unsupported dependency fetch protocol version",
            DependencyFetchValidationError::NilRequestId => "dependency fetch request ID must not be nil",
            DependencyFetchValidationError::InvalidVersionSet => "dependency fetch version set must contain 1-8 entries",
            DependencyFetchValidationError::InvalidPackage => "dependency fetch package identity is invalid",
        }
    }
}

impl DependencyFetchServerConfigError {
    /// The error in words.
    pub fn message(self) -> (r: &'static str)
        ensures
            r@ == match self {
                DependencyFetchServerConfigError::InvalidConfiguration => "dependency fetch server configuration is invalid"@,
            },
    {
        match self {
            DependencyFetchServerConfigError::InvalidConfiguration => "dependency fetch server configuration is invalid",
        }
    }
}

impl DependencyFetchHttpConfigError {
    /// The error in words.
    pub fn message(self) -> (r: &'static str)
        ensures
            r@ == match self {
                DependencyFetchHttpConfigError::InvalidTimeout => "dependency fetch timeout is invalid"@,
                DependencyFetchHttpConfigError::HttpClient => "dependency fetch HTTP client could not be built"@,
                DependencyFetchHttpConfigError::InvalidOrigin => "fixed crates.io origin is invalid"@,
            },
    {
        match self {
            DependencyFetchHttpConfigError::InvalidTimeout => "dependency fetch timeout is invalid",
            DependencyFetchHttpConfigError::HttpClient => "dependency fetch HTTP client could not be built",
            DependencyFetchHttpConfigError::InvalidOrigin => "fixed crates.io origin is invalid",
        }
    }
}

impl DependencyFetchClientError {
    /// The error in words, without what it carries.
    pub fn message(&self) -> (r: &'static str)
        ensures
            r@ == match *self {
                DependencyFetchClientError::InvalidConfiguration => "dependency fetch client configuration is invalid"@,
                DependencyFetchClientError::InvalidPackage => "dependency fetch package identity is invalid"@,
                DependencyFetchClientError::UnauthorizedServer { .. } => "dependency fetch server is not authorized"@,
                DependencyFetchClientError::DeadlineExceeded => "dependency fetch request exceeded its deadline"@,
                DependencyFetchClientError::Rejected { .. } => "dependency fetch request was rejected"@,
                DependencyFetchClientError::InvalidResponse => "dependency fetch response is invalid"@,
                DependencyFetchClientError::PeerCredentials(_) => "dependency fetch peer credentials failed"@,
                DependencyFetchClientError::Io(_) => "dependency fetch transport failed"@,
                DependencyFetchClientError::Frame(_) => "dependency fetch frame failed"@,
            },
    {
        match self {
            DependencyFetchClientError::InvalidConfiguration => "dependency fetch client configuration is invalid",
            DependencyFetchClientError::InvalidPackage => "dependency fetch package identity is invalid",
            DependencyFetchClientError::UnauthorizedServer { .. } => "dependency fetch server is not authorized",
            DependencyFetchClientError::DeadlineExceeded => "dependency fetch request exceeded its deadline",
            DependencyFetchClientError::Rejected { .. } => "dependency fetch request was rejected",
            DependencyFetchClientError::InvalidResponse => "dependency fetch response is invalid",
            DependencyFetchClientError::PeerCredentials(_) => "dependency fetch peer credentials failed",
            DependencyFetchClientError::Io(_) => "dependency fetch transport failed",
            DependencyFetchClientError::Frame(_) => "dependency fetch frame failed",
        }
    }
}

impl DependencyFetchSocketError {
    /// The error in words, without what it carries.
    pub fn message(&self) -> (r: &'static str)
        ensures
            r@ == match *self {
                DependencyFetchSocketError::InvalidBindPath => "dependency fetch socket path is invalid"@,
                DependencyFetchSocketError::BindParent(_) => "dependency fetch socket parent could not be inspected"@,
                DependencyFetchSocketError::UnsafeBindParent => "dependency fetch socket parent is unsafe"@,
                DependencyFetchSocketError::SocketPathExists => "dependency fetch socket path already exists"@,
                DependencyFetchSocketError::InspectStaleSocket(_) => "dependency fetch stale socket could not be inspected"@,
                DependencyFetchSocketError::InspectPath(_) => "dependency fetch socket path could not be inspected"@,
                DependencyFetchSocketError::SocketPathChanged => "dependency fetch socket changed during reconciliation"@,
                DependencyFetchSocketError::RemoveStaleSocket(_) => "dependency fetch stale socket could not be removed"@,
                DependencyFetchSocketError::Bind(_) => "dependency fetch socket bind failed"@,
                DependencyFetchSocketError::BoundPathNotSocket => "dependency fetch bound path is not the expected socket"@,
                DependencyFetchSocketError::SetPermissions(_) => "dependency fetch socket permissions could not be set"@,
                DependencyFetchSocketError::Accept(_) => "dependency fetch socket accept failed"@,
                DependencyFetchSocketError::PeerCredentials(_) => "dependency fetch peer credentials failed"@,
                DependencyFetchSocketError::UnauthorizedPeer { .. } => "dependency fetch peer is not authorized"@,
                DependencyFetchSocketError::DeadlineExceeded => "dependency fetch connection exceeded its deadline"@,
                DependencyFetchSocketError::InvalidHandlerResponse => "dependency fetch handler returned an invalid archive"@,
                DependencyFetchSocketError::Write(_) => "dependency fetch response write failed"@,
                DependencyFetchSocketError::Frame(_) => "dependency fetch frame failed"@,
            },
    {
        match self {
            DependencyFetchSocketError::InvalidBindPath => "dependency fetch socket path is invalid",
            DependencyFetchSocketError::BindParent(_) => "dependency fetch socket parent could not be inspected",
            DependencyFetchSocketError::UnsafeBindParent => "dependency fetch socket parent is unsafe",
            DependencyFetchSocketError::SocketPathExists => "dependency fetch socket path already exists",
            DependencyFetchSocketError::InspectStaleSocket(_) => "dependency fetch stale socket could not be inspected",
            DependencyFetchSocketError::InspectPath(_) => "dependency fetch socket path could not be inspected",
            DependencyFetchSocketError::SocketPathChanged => "dependency fetch socket changed during reconciliation",
            DependencyFetchSocketError::RemoveStaleSocket(_) => "dependency fetch stale socket could not be removed",
            DependencyFetchSocketError::Bind(_) => "dependency fetch socket bind failed",
            DependencyFetchSocketError::BoundPathNotSocket => "dependency fetch bound path is not the expected socket",
            DependencyFetchSocketError::SetPermissions(_) => "dependency fetch socket permissions could not be set",
            DependencyFetchSocketError::Accept(_) => "dependency fetch socket accept failed",
            DependencyFetchSocketError::PeerCredentials(_) => "dependency fetch peer credentials failed",
            DependencyFetchSocketError::UnauthorizedPeer { .. } => "dependency fetch peer is not authorized",
            DependencyFetchSocketError::DeadlineExceeded => "dependency fetch connection exceeded its deadline",
            DependencyFetchSocketError::InvalidHandlerResponse => "dependency fetch handler returned an invalid archive",
            DependencyFetchSocketError::Write(_) => "dependency fetch response write failed",
            DependencyFetchSocketError::Frame(_) => "dependency fetch frame failed",
        }
    }
}

impl CargoRegistryPackageV1 {
    pub fn duplicate(&self) -> (r: CargoRegistryPackageV1)
        ensures
            r == *self,
    {
        CargoRegistryPackageV1 {
            name: self.name.clone(),
            version: self.version.clone(),
            checksum: self.checksum.clone(),
        }
    }

    /// Some bytes are the archive of the crate.
    pub open spec fn is_of(self, archive: Seq<u8>) -> bool {
        hex(sha256(archive)) == self.checksum@
    }
}

impl DependencyFetchRequestEnvelopeV1 {
    /// What is wrong with a request, whose package is well named or not.
    pub open spec fn fault(self, package_valid: bool) -> Option<DependencyFetchValidationError> {
        if self.version != DEPENDENCY_FETCH_PROTOCOL_VERSION {
            Some(DependencyFetchValidationError::UnsupportedVersion(self.version))
        } else if self.request_id.nil() {
            Some(DependencyFetchValidationError::NilRequestId)
        } else {
            match self.request {
                DependencyFetchRequestV1::Negotiate { supported_versions } => if 1
                    <= supported_versions@.len() <= MAX_SUPPORTED_VERSIONS {
                    None
                } else {
                    Some(DependencyFetchValidationError::InvalidVersionSet)
                },
                DependencyFetchRequestV1::FetchCrate { package } => if package_valid {
                    None
                } else {
                    Some(DependencyFetchValidationError::InvalidPackage)
                },
            }
        }
    }

    pub fn validate(&self, package_valid: bool) -> (r: Result<(), DependencyFetchValidationError>)
        ensures
            match r {
                Ok(()) => self.fault(package_valid) is None,
                Err(error) => self.fault(package_valid) == Some(error),
            },
    {
        if self.version != DEPENDENCY_FETCH_PROTOCOL_VERSION {
            return Err(DependencyFetchValidationError::UnsupportedVersion(self.version));
        }
        if self.request_id.is_nil() {
            return Err(DependencyFetchValidationError::NilRequestId);
        }
        match &self.request {
            DependencyFetchRequestV1::Negotiate { supported_versions } => if supported_versions.len()
                >= 1 && supported_versions.len() <= MAX_SUPPORTED_VERSIONS {
                Ok(())
            } else {
                Err(DependencyFetchValidationError::InvalidVersionSet)
            },
            DependencyFetchRequestV1::FetchCrate { .. } => if package_valid {
                Ok(())
            } else {
                Err(DependencyFetchValidationError::InvalidPackage)
            },
        }
    }
}

/// A time is neither too short nor too long to wait for an answer.
pub open spec fn request_timeout_fits(nanoseconds: u128) -> bool {
    MIN_REQUEST_TIMEOUT_MS * NANOSECONDS_IN_MS <= nanoseconds <= MAX_REQUEST_TIMEOUT_MS
        * NANOSECONDS_IN_MS
}

pub fn valid_request_timeout(nanoseconds: u128) -> (r: bool)
    ensures
        r == request_timeout_fits(nanoseconds),
{
    nanoseconds >= MIN_REQUEST_TIMEOUT_MS as u128 * NANOSECONDS_IN_MS && nanoseconds
        <= MAX_REQUEST_TIMEOUT_MS as u128 * NANOSECONDS_IN_MS
}

/// A user is known, and not the root.
pub open spec fn ordinary_user(uid: u32) -> bool {
    uid != 0 && uid != u32::MAX
}

/// Who is served, by how many connections, and how long a request may take, in nanoseconds.
#[derive(Clone, Copy, Debug)]
pub struct DependencyFetchServerConfigV1 {
    allowed_uid: u32,
    max_connections: usize,
    request_timeout: u128,
}

impl DependencyFetchServerConfigV1 {
    pub closed spec fn allowed(self) -> u32 {
        self.allowed_uid
    }

    pub closed spec fn connections(self) -> usize {
        self.max_connections
    }

    pub closed spec fn timeout(self) -> u128 {
        self.request_timeout
    }

    pub fn new(allowed_uid: u32, max_connections: usize, request_timeout: u128) -> (r: Result<
        DependencyFetchServerConfigV1,
        DependencyFetchServerConfigError,
    >)
        ensures
            r is Ok == (ordinary_user(allowed_uid) && 1 <= max_connections <= MAX_CONNECTIONS
                && request_timeout_fits(request_timeout)),
            r matches Ok(config) ==> config.allowed() == allowed_uid && config.connections()
                == max_connections && config.timeout() == request_timeout,
            r matches Err(error) ==> error is InvalidConfiguration,
    {
        if allowed_uid == 0 || allowed_uid == u32::MAX || max_connections < 1 || max_connections
            > MAX_CONNECTIONS || !valid_request_timeout(request_timeout) {
            return Err(DependencyFetchServerConfigError::InvalidConfiguration);
        }
        Ok(DependencyFetchServerConfigV1 { allowed_uid, max_connections, request_timeout })
    }

    /// The nanoseconds that a request may take.
    pub fn request_timeout(&self) -> (r: u128)
        ensures
            r == self.timeout(),
    {
        self.request_timeout
    }

    /// The connections that are served at once.
    pub fn max_connections(&self) -> (r: usize)
        ensures
            r == self.connections(),
    {
        self.max_connections
    }

    /// Whether a peer is served. It is asked before anything is read.
    pub fn admit_peer(&self, uid: u32) -> (r: Result<(), DependencyFetchSocketError>)
        ensures
            match r {
                Ok(()) => uid == self.allowed(),
                Err(error) => uid != self.allowed() && error
                    == (DependencyFetchSocketError::UnauthorizedPeer { received: uid }),
            },
    {
        if uid != self.allowed_uid {
            Err(DependencyFetchSocketError::UnauthorizedPeer { received: uid })
        } else {
            Ok(())
        }
    }
}

/// What a connection does next: have a crate fetched, or write an answer, with the archive that
/// follows it.
#[derive(Debug)]
pub enum FetchStep {
    Fetch { request_id: Uuid, package: CargoRegistryPackageV1 },
    Write { envelope: DependencyFetchResponseEnvelopeV1, archive: Option<Vec<u8>> },
}

/// What came of having a crate fetched.
#[derive(Debug)]
pub enum FetchOutcome {
    Archive(Vec<u8>),
    Failure(DependencyFetchFailureV1),
    DeadlineExceeded,
}

/// An answer without an archive.
pub open spec fn answer_to(request_id: Uuid, response: DependencyFetchResponseV1) -> FetchStep {
    FetchStep::Write {
        envelope: DependencyFetchResponseEnvelopeV1 {
            version: DEPENDENCY_FETCH_PROTOCOL_VERSION,
            request_id,
            response,
        },
        archive: None,
    }
}

/// An answer that rejects.
pub open spec fn rejection(
    code: DependencyFetchRejectionCodeV1,
    retryable: bool,
) -> DependencyFetchResponseV1 {
    DependencyFetchResponseV1::Rejected { code, retryable }
}

/// What is answered to a request at once. A good request for a crate is not.
pub open spec fn answer_at_once(
    request: DependencyFetchRequestEnvelopeV1,
    package_valid: bool,
) -> Option<DependencyFetchResponseV1> {
    match request.fault(package_valid) {
        Some(DependencyFetchValidationError::UnsupportedVersion(_)) => Some(
            rejection(DependencyFetchRejectionCodeV1::UnsupportedProtocolVersion, false),
        ),
        Some(_) => Some(rejection(DependencyFetchRejectionCodeV1::InvalidRequest, false)),
        None => match request.request {
            DependencyFetchRequestV1::Negotiate { supported_versions } => Some(
                if supported_versions@.contains(DEPENDENCY_FETCH_PROTOCOL_VERSION) {
                    DependencyFetchResponseV1::Negotiated {
                        selected_version: DEPENDENCY_FETCH_PROTOCOL_VERSION,
                    }
                } else {
                    rejection(DependencyFetchRejectionCodeV1::UnsupportedProtocolVersion, false)
                },
            ),
            DependencyFetchRequestV1::FetchCrate { package } => None,
        },
    }
}

fn rejected(
    request_id: Uuid,
    code: DependencyFetchRejectionCodeV1,
    retryable: bool,
) -> (r: FetchStep)
    ensures
        r == answer_to(request_id, rejection(code, retryable)),
{
    FetchStep::Write {
        envelope: DependencyFetchResponseEnvelopeV1 {
            version: DEPENDENCY_FETCH_PROTOCOL_VERSION,
            request_id,
            response: DependencyFetchResponseV1::Rejected { code, retryable },
        },
        archive: None,
    }
}

fn speaks(versions: &Vec<u16>, version: u16) -> (r: bool)
    ensures
        r == versions@.contains(version),
{
    let mut i: usize = 0;
    while i < versions.len()
        invariant
            i <= versions.len(),
            forall|k: int| 0 <= k < i ==> versions@[k] != version,
        decreases versions.len() - i,
    {
        if versions[i] == version {
            assert(versions@[i as int] == version);
            return true;
        }
        i += 1;
    }
    false
}

/// What is done about a request that was read, with how many bytes were left behind it.
pub fn take_request(
    request: DependencyFetchRequestEnvelopeV1,
    package_valid: bool,
    trailing: usize,
) -> (r: Result<FetchStep, DependencyFetchSocketError>)
    ensures
        match r {
            Err(error) => trailing != 0 && error == DependencyFetchSocketError::Frame(
                FrameError::TrailingBytes(1),
            ),
            Ok(step) => trailing == 0 && match answer_at_once(request, package_valid) {
                Some(response) => step == answer_to(request.request_id, response),
                None => step == (FetchStep::Fetch {
                    request_id: request.request_id,
                    package: request.request->package,
                }),
            },
        },
{
    if trailing != 0 {
        return Err(DependencyFetchSocketError::Frame(FrameError::TrailingBytes(1)));
    }
    let request_id = request.request_id;
    match request.validate(package_valid) {
        Err(DependencyFetchValidationError::UnsupportedVersion(_)) => Ok(
            rejected(request_id, DependencyFetchRejectionCodeV1::UnsupportedProtocolVersion, false),
        ),
        Err(_) => Ok(rejected(request_id, DependencyFetchRejectionCodeV1::InvalidRequest, false)),
        Ok(()) => match request.request {
            DependencyFetchRequestV1::Negotiate { supported_versions } => {
                if speaks(&supported_versions, DEPENDENCY_FETCH_PROTOCOL_VERSION) {
                    Ok(
                        FetchStep::Write {
                            envelope: DependencyFetchResponseEnvelopeV1 {
                                version: DEPENDENCY_FETCH_PROTOCOL_VERSION,
                                request_id,
                                response: DependencyFetchResponseV1::Negotiated {
                                    selected_version: DEPENDENCY_FETCH_PROTOCOL_VERSION,
                                },
                            },
                            archive: None,
                        },
                    )
                } else {
                    Ok(
                        rejected(
                            request_id,
                            DependencyFetchRejectionCodeV1::UnsupportedProtocolVersion,
                            false,
                        ),
                    )
                }
            },
            DependencyFetchRequestV1::FetchCrate { package } => Ok(
                FetchStep::Fetch { request_id, package },
            ),
        },
    }
}

/// Some bytes can be sent as the archive of a crate.
pub open spec fn sendable(package: CargoRegistryPackageV1, archive: Seq<u8>, most: usize) -> bool {
    0 < archive.len() <= most && package.is_of(archive)
}

/// What is answered to bytes that cannot be sent.
pub open spec fn unsendable(archive: Seq<u8>, most: usize) -> DependencyFetchResponseV1 {
    if archive.len() > most {
        rejection(DependencyFetchRejectionCodeV1::ArchiveTooLarge, false)
    } else {
        rejection(DependencyFetchRejectionCodeV1::IntegrityMismatch, false)
    }
}

/// What is answered once a crate was fetched, where an archive may be so large.
pub fn take_archive(
    request_id: Uuid,
    package: &CargoRegistryPackageV1,
    outcome: FetchOutcome,
    most: usize,
) -> (r: Result<FetchStep, DependencyFetchSocketError>)
    ensures
        match outcome {
            FetchOutcome::DeadlineExceeded => r == Err::<FetchStep, DependencyFetchSocketError>(
                DependencyFetchSocketError::DeadlineExceeded,
            ),
            FetchOutcome::Failure(failure) => r == Ok::<FetchStep, DependencyFetchSocketError>(
                answer_to(request_id, rejection(failure.code, failure.retryable)),
            ),
            FetchOutcome::Archive(archive) => r matches Ok(step) && (if sendable(
                *package,
                archive@,
                most,
            ) {
                step == (FetchStep::Write {
                    envelope: DependencyFetchResponseEnvelopeV1 {
                        version: DEPENDENCY_FETCH_PROTOCOL_VERSION,
                        request_id,
                        response: DependencyFetchResponseV1::CrateAccepted {
                            archive_bytes: archive@.len() as u64,
                            archive_digest: package.checksum,
                        },
                    },
                    archive: Some(archive),
                })
            } else {
                step == answer_to(request_id, unsendable(archive@, most))
            }),
        },
{
    match outcome {
        FetchOutcome::DeadlineExceeded => Err(DependencyFetchSocketError::DeadlineExceeded),
        FetchOutcome::Failure(failure) => Ok(rejected(request_id, failure.code, failure.retryable)),
        FetchOutcome::Archive(archive) => {
            let length: usize = archive.len();
            if length > most {
                return Ok(
                    rejected(request_id, DependencyFetchRejectionCodeV1::ArchiveTooLarge, false),
                );
            }
            let digest = EvidenceDigest::sha256(archive.as_slice());
            if length == 0 || digest != package.checksum {
                return Ok(
                    rejected(request_id, DependencyFetchRejectionCodeV1::IntegrityMismatch, false),
                );
            }
            Ok(
                FetchStep::Write {
                    envelope: DependencyFetchResponseEnvelopeV1 {
                        version: DEPENDENCY_FETCH_PROTOCOL_VERSION,
                        request_id,
                        response: DependencyFetchResponseV1::CrateAccepted {
                            archive_bytes: length as u64,
                            archive_digest: package.checksum.clone(),
                        },
                    },
                    archive: Some(archive),
                },
            )
        },
    }
}

/// What was answered, with the archive that followed.
#[derive(Debug)]
pub struct DependencyFetchExchangeV1 {
    pub response: DependencyFetchResponseV1,
    pub archive: Option<Vec<u8>>,
}

impl DependencyFetchExchangeV1 {
    /// What is answered is a rejection, and nothing followed.
    pub open spec fn rejects(self) -> bool {
        self.response is Rejected && self.archive is None
    }

    /// The archive of a crate is what followed.
    pub open spec fn brings(self, package: CargoRegistryPackageV1) -> bool {
        &&& self.response matches DependencyFetchResponseV1::CrateAccepted {
            archive_bytes,
            archive_digest,
        }
        &&& self.archive matches Some(archive)
        &&& archive_bytes == archive@.len()
        &&& archive_digest@ == package.checksum@
        &&& package.is_of(archive@)
    }

    /// The version of the protocol is agreed on.
    pub open spec fn agrees(self) -> bool {
        &&& self.response == (DependencyFetchResponseV1::Negotiated {
            selected_version: DEPENDENCY_FETCH_PROTOCOL_VERSION,
        })
        &&& self.archive is None
    }
}

/// The one who asks: where the fetcher listens, as which user it runs, how long an answer may take,
/// in nanoseconds, and whether a version of the protocol was agreed on.
#[derive(Clone, Debug)]
pub struct DependencyFetchClientV1 {
    socket_path: String,
    expected_server_uid: u32,
    request_timeout: u128,
    negotiated: bool,
}

impl DependencyFetchClientV1 {
    pub closed spec fn socket(self) -> Seq<char> {
        self.socket_path@
    }

    pub closed spec fn server(self) -> u32 {
        self.expected_server_uid
    }

    pub closed spec fn timeout(self) -> u128 {
        self.request_timeout
    }

    pub closed spec fn agreed(self) -> bool {
        self.negotiated
    }

    /// The client is as another one, but for what was agreed on.
    pub open spec fn serves_as(self, other: DependencyFetchClientV1) -> bool {
        self.socket() == other.socket() && self.server() == other.server() && self.timeout()
            == other.timeout()
    }

    pub fn installed(expected_server_uid: u32, request_timeout: u128) -> (r: Result<
        DependencyFetchClientV1,
        DependencyFetchClientError,
    >)
        ensures
            r is Ok == (ordinary_user(expected_server_uid) && request_timeout_fits(
                request_timeout,
            )),
            r matches Ok(client) ==> client.socket() == DEPENDENCY_FETCH_SOCKET_PATH@
                && client.server() == expected_server_uid && client.timeout() == request_timeout
                && !client.agreed(),
            r matches Err(error) ==> error is InvalidConfiguration,
    {
        proof {
            lemma_installed_path();
        }
        DependencyFetchClientV1::new(
            DEPENDENCY_FETCH_SOCKET_PATH.to_owned(),
            expected_server_uid,
            request_timeout,
        )
    }

    pub fn new(socket_path: String, expected_server_uid: u32, request_timeout: u128) -> (r: Result<
        DependencyFetchClientV1,
        DependencyFetchClientError,
    >)
        ensures
            r is Ok == (absolute_without_parents(socket_path@) && ordinary_user(expected_server_uid)
                && request_timeout_fits(request_timeout)),
            r matches Ok(client) ==> client.socket() == socket_path@ && client.server()
                == expected_server_uid && client.timeout() == request_timeout && !client.agreed(),
            r matches Err(error) ==> error is InvalidConfiguration,
    {
        if !is_absolute_without_parents(socket_path.as_str()) || expected_server_uid == 0
            || expected_server_uid == u32::MAX || !valid_request_timeout(request_timeout) {
            return Err(DependencyFetchClientError::InvalidConfiguration);
        }
        Ok(
            DependencyFetchClientV1 {
                socket_path,
                expected_server_uid,
                request_timeout,
                negotiated: false,
            },
        )
    }

    pub fn socket_path(&self) -> (r: &str)
        ensures
            r@ == self.socket(),
    {
        self.socket_path.as_str()
    }

    pub fn request_timeout(&self) -> (r: u128)
        ensures
            r == self.timeout(),
    {
        self.request_timeout
    }

    /// What is asked next on the way to a crate: a version of the protocol while none was agreed
    /// on, and then the crate.
    pub fn next_request(
        &self,
        package: &CargoRegistryPackageV1,
        package_valid: bool,
        request_id: Uuid,
    ) -> (r: Result<DependencyFetchRequestEnvelopeV1, DependencyFetchClientError>)
        ensures
            match r {
                Err(error) => !package_valid && error is InvalidPackage,
                Ok(envelope) => {
                    &&& package_valid
                    &&& envelope.version == DEPENDENCY_FETCH_PROTOCOL_VERSION
                    &&& envelope.request_id == request_id
                    &&& match envelope.request {
                        DependencyFetchRequestV1::Negotiate { supported_versions } =>
                            !self.agreed() && supported_versions@ == seq![
                                DEPENDENCY_FETCH_PROTOCOL_VERSION,
                            ],
                        DependencyFetchRequestV1::FetchCrate { package: asked } => self.agreed()
                            && asked == *package,
                    }
                },
            },
    {
        if !package_valid {
            return Err(DependencyFetchClientError::InvalidPackage);
        }
        let request = if self.negotiated {
            DependencyFetchRequestV1::FetchCrate { package: package.duplicate() }
        } else {
            let mut supported_versions: Vec<u16> = Vec::new();
            supported_versions.push(DEPENDENCY_FETCH_PROTOCOL_VERSION);
            assert(supported_versions@ =~= seq![DEPENDENCY_FETCH_PROTOCOL_VERSION]);
            DependencyFetchRequestV1::Negotiate { supported_versions }
        };
        Ok(
            DependencyFetchRequestEnvelopeV1 {
                version: DEPENDENCY_FETCH_PROTOCOL_VERSION,
                request_id,
                request,
            },
        )
    }

    /// Whether a peer is the fetcher. It is asked before anything is written.
    pub fn admit_server(&self, uid: u32) -> (r: Result<(), DependencyFetchClientError>)
        ensures
            match r {
                Ok(()) => uid == self.server(),
                Err(error) => uid != self.server() && error
                    == (DependencyFetchClientError::UnauthorizedServer { received: uid }),
            },
    {
        if uid != self.expected_server_uid {
            Err(DependencyFetchClientError::UnauthorizedServer { received: uid })
        } else {
            Ok(())
        }
    }

    /// Takes the answer on the version of the protocol.
    pub fn take_negotiation(&mut self, exchange: DependencyFetchExchangeV1) -> (r: Result<
        (),
        DependencyFetchClientError,
    >)
        ensures
            final(self).serves_as(*old(self)),
            if exchange.agrees() {
                r is Ok && final(self).agreed()
            } else if exchange.rejects() {
                &&& r == Err::<(), DependencyFetchClientError>(
                    DependencyFetchClientError::Rejected {
                        code: exchange.response->Rejected_code,
                        retryable: exchange.response->Rejected_retryable,
                    },
                )
                &&& final(self).agreed() == old(self).agreed()
            } else {
                r matches Err(DependencyFetchClientError::InvalidResponse) && !final(self).agreed()
            },
    {
        match (exchange.response, exchange.archive) {
            (DependencyFetchResponseV1::Negotiated { selected_version }, None) => {
                if selected_version == DEPENDENCY_FETCH_PROTOCOL_VERSION {
                    self.negotiated = true;
                    Ok(())
                } else {
                    self.negotiated = false;
                    Err(DependencyFetchClientError::InvalidResponse)
                }
            },
            (DependencyFetchResponseV1::Rejected { code, retryable }, None) => Err(
                DependencyFetchClientError::Rejected { code, retryable },
            ),
            _ => {
                self.negotiated = false;
                Err(DependencyFetchClientError::InvalidResponse)
            },
        }
    }

    /// Takes the answer on a crate.
    pub fn take_crate(
        &mut self,
        package: &CargoRegistryPackageV1,
        exchange: DependencyFetchExchangeV1,
    ) -> (r: Result<Vec<u8>, DependencyFetchClientError>)
        ensures
            final(self).serves_as(*old(self)),
            if exchange.brings(*package) {
                r == Ok::<Vec<u8>, DependencyFetchClientError>(exchange.archive->0)
                    && final(self).agreed() == old(self).agreed()
            } else if exchange.rejects() {
                &&& r == Err::<Vec<u8>, DependencyFetchClientError>(
                    DependencyFetchClientError::Rejected {
                        code: exchange.response->Rejected_code,
                        retryable: exchange.response->Rejected_retryable,
                    },
                )
                &&& final(self).agreed() == old(self).agreed()
            } else {
                r matches Err(DependencyFetchClientError::InvalidResponse) && !final(self).agreed()
            },
    {
        match (exchange.response, exchange.archive) {
            (
                DependencyFetchResponseV1::CrateAccepted { archive_bytes, archive_digest },
                Some(archive),
            ) => {
                let digest = EvidenceDigest::sha256(archive.as_slice());
                if archive_bytes == archive.len() as u64 && archive_digest == package.checksum
                    && digest == package.checksum {
                    Ok(archive)
                } else {
                    self.negotiated = false;
                    Err(DependencyFetchClientError::InvalidResponse)
                }
            },
            (DependencyFetchResponseV1::Rejected { code, retryable }, None) => Err(
                DependencyFetchClientError::Rejected { code, retryable },
            ),
            _ => {
                self.negotiated = false;
                Err(DependencyFetchClientError::InvalidResponse)
            },
        }
    }
}

/// The path of the installed socket leads downwards from the root.
proof fn lemma_installed_path()
    ensures
        absolute_without_parents(DEPENDENCY_FETCH_SOCKET_PATH@),
{
    reveal_strlit("/run/rdashboard-dependency-fetcher/fetch.sock");
    reveal_with_fuel(names_begin_from, 48);
    lemma_plain_path("/run/rdashboard-dependency-fetcher/fetch.sock"@);
    lemma_normalized_paths_lead_downwards("/run/rdashboard-dependency-fetcher/fetch.sock"@);
}

/// The bytes of the archive that follow an answer, as far as the answer is one to the request and
/// the archive may be so large.
pub fn following_bytes(
    envelope: &DependencyFetchResponseEnvelopeV1,
    request_id: Uuid,
    most: usize,
) -> (r: Result<Option<usize>, DependencyFetchClientError>)
    ensures
        ({
            let fits = envelope.version == DEPENDENCY_FETCH_PROTOCOL_VERSION
                && envelope.request_id == request_id;
            match envelope.response {
                DependencyFetchResponseV1::CrateAccepted { archive_bytes, .. } => if fits && 0
                    < archive_bytes <= most {
                    r == Ok::<Option<usize>, DependencyFetchClientError>(
                        Some(archive_bytes as usize),
                    )
                } else {
                    r matches Err(DependencyFetchClientError::InvalidResponse)
                },
                _ => if fits {
                    r == Ok::<Option<usize>, DependencyFetchClientError>(None)
                } else {
                    r matches Err(DependencyFetchClientError::InvalidResponse)
                },
            }
        }),
{
    if envelope.version != DEPENDENCY_FETCH_PROTOCOL_VERSION || envelope.request_id != request_id {
        return Err(DependencyFetchClientError::InvalidResponse);
    }
    match &envelope.response {
        DependencyFetchResponseV1::CrateAccepted { archive_bytes, .. } => {
            let announced: u64 = *archive_bytes;
            if announced == 0 || announced > most as u64 {
                Err(DependencyFetchClientError::InvalidResponse)
            } else {
                Ok(Some(announced as usize))
            }
        },
        _ => Ok(None),
    }
}

/// Nothing may be left behind an answer and its archive.
pub fn check_answer_end(trailing: usize) -> (r: Result<(), DependencyFetchClientError>)
    ensures
        r is Ok == (trailing == 0),
        r matches Err(error) ==> error is InvalidResponse,
{
    if trailing != 0 {
        Err(DependencyFetchClientError::InvalidResponse)
    } else {
        Ok(())
    }
}

/// The exact archive goes through: what is answered to a request for a crate, once its archive was
/// fetched, announces as many bytes as the archive has, and the one who asked takes it as the crate.
/// No other bytes are sent as an archive.
pub proof fn law_only_the_exact_archive_goes_through(
    request_id: Uuid,
    package: CargoRegistryPackageV1,
    outcome: FetchOutcome,
    most: usize,
    step: FetchStep,
)
    requires
        match outcome {
            FetchOutcome::Archive(archive) => if sendable(package, archive@, most) {
                step == (FetchStep::Write {
                    envelope: DependencyFetchResponseEnvelopeV1 {
                        version: DEPENDENCY_FETCH_PROTOCOL_VERSION,
                        request_id,
                        response: DependencyFetchResponseV1::CrateAccepted {
                            archive_bytes: archive@.len() as u64,
                            archive_digest: package.checksum,
                        },
                    },
                    archive: Some(archive),
                })
            } else {
                step == answer_to(request_id, unsendable(archive@, most))
            },
            FetchOutcome::Failure(failure) => step == answer_to(
                request_id,
                rejection(failure.code, failure.retryable),
            ),
            FetchOutcome::DeadlineExceeded => false,
        },
    ensures
        step matches FetchStep::Write { envelope, archive } && {
            let exchange = DependencyFetchExchangeV1 { response: envelope.response, archive };
            &&& envelope.request_id == request_id
            &&& exchange.brings(package) == (outcome matches FetchOutcome::Archive(found)
                && sendable(package, found@, most))
            &&& exchange.brings(package) || exchange.rejects()
            &&& archive matches Some(sent) ==> package.is_of(sent@) && sent@.len() <= most
        },
{
}

/// What is answered to the request that a client asks first is what it agrees on.
pub proof fn law_negotiation_succeeds(request: DependencyFetchRequestEnvelopeV1)
    requires
        request.version == DEPENDENCY_FETCH_PROTOCOL_VERSION,
        !request.request_id.nil(),
        request.request matches DependencyFetchRequestV1::Negotiate { supported_versions }
            && supported_versions@ == seq![DEPENDENCY_FETCH_PROTOCOL_VERSION],
    ensures
        forall|package_valid: bool|
            #[trigger] answer_at_once(request, package_valid) matches Some(response) && (
            DependencyFetchExchangeV1 { response, archive: None }).agrees(),
{
    let versions = request.request->supported_versions;
    assert(versions@[0] == DEPENDENCY_FETCH_PROTOCOL_VERSION);
    assert(versions@.contains(DEPENDENCY_FETCH_PROTOCOL_VERSION));
}

} // verus!
