//! The write fence of a project, and the adapter that sets and lifts it.

use vstd::prelude::*;
use crate::domain::identifiers::{
    digest_document, digest_option, digest_str, document_digest, EvidenceDigest, ProjectId,
};
use crate::json::{
    canonical_bytes, is_canonical, jcs, json_bool, json_int, json_nat, json_object,
    json_optional_nat, json_optional_string, json_string, nat_option, no_members, optional_str,
    JsonObject,
};
use crate::text::same_text;
use crate::unique_id::{optional_uuid_text, uuid_option, Uuid};

verus! {

pub const FENCE_ADAPTER_SCHEMA_VERSION: u16 = 1;

pub const RIMG_MACHINE_PROTOCOL_SCHEMA_VERSION: u16 = 1;

/// How far a fence has come.
#[derive(Clone, Copy, Debug, PartialEq, Eq, Hash, Structural)]
pub enum FenceJournalState {
    AcquireIntent,
    Held,
    ReleaseIntent,
    Released,
    NeedsReconcile,
}

/// The fence of a project, held by one attempt at a time.
#[derive(Debug, PartialEq, Eq)]
pub struct FenceLease {
    pub journal_id: i64,
    pub project_id: ProjectId,
    pub attempt_id: Uuid,
    pub epoch: u64,
    pub token: Uuid,
    pub created_at_ms: i64,
    pub state: FenceJournalState,
    pub release_safe_receipt_digest: Option<EvidenceDigest>,
}

/// What is found of the fence of a project.
#[derive(Clone, Copy, Debug, PartialEq, Eq, Structural)]
pub enum FenceObservation {
    Released,
    Held { attempt_id: Uuid, epoch: u64, token: Uuid },
}

/// What the adapter is asked to do.
#[derive(Clone, Copy, Debug, PartialEq, Eq, Hash, Structural)]
pub enum FenceAdapterActionV1 {
    Acquire,
    ReleaseAndResume,
}

impl FenceAdapterActionV1 {
    /// The name in documents.
    pub open spec fn name(self) -> Seq<char> {
        match self {
            FenceAdapterActionV1::Acquire => "acquire"@,
            FenceAdapterActionV1::ReleaseAndResume => "release_and_resume"@,
        }
    }

    pub fn as_str(self) -> (r: &'static str)
        ensures
            r@ == self.name(),
    {
        match self {
            FenceAdapterActionV1::Acquire => "acquire",
            FenceAdapterActionV1::ReleaseAndResume => "release_and_resume",
        }
    }
}

/// What a service is doing.
#[derive(Clone, Copy, Debug, PartialEq, Eq, Hash, Structural)]
pub enum RimgOperationalModeV1 {
    Normal,
    Draining,
    Fenced,
}

impl RimgOperationalModeV1 {
    /// The name in documents.
    pub open spec fn name(self) -> Seq<char> {
        match self {
            RimgOperationalModeV1::Normal => "normal"@,
            RimgOperationalModeV1::Draining => "draining"@,
            RimgOperationalModeV1::Fenced => "fenced"@,
        }
    }

    pub fn as_str(self) -> (r: &'static str)
        ensures
            r@ == self.name(),
    {
        match self {
            RimgOperationalModeV1::Normal => "normal",
            RimgOperationalModeV1::Draining => "draining",
            RimgOperationalModeV1::Fenced => "fenced",
        }
    }
}

/// What a service can be told to do.
#[derive(Clone, Copy, Debug, PartialEq, Eq, Hash, Structural)]
pub enum RimgAdminActionV1 {
    AcquireFence,
    ReleaseFence,
    Resume,
}

/// What a service says of itself.
#[derive(Clone, Copy, Debug, PartialEq, Eq, Structural)]
pub struct RimgOperationalStatusV1 {
    pub schema_version: u16,
    pub mode: RimgOperationalModeV1,
    pub last_epoch: u64,
    pub last_token: Option<Uuid>,
    pub active_epoch: Option<u64>,
    pub active_token: Option<Uuid>,
    pub intake_open: bool,
    pub workers_drained: bool,
    pub active_write_leases: u64,
    pub processing_jobs: u64,
    pub delivering_webhooks: u64,
    pub updated_at: i64,
}

impl RimgOperationalStatusV1 {
    /// The document as JSON text.
    pub open spec fn json(self) -> Seq<char> {
        json_object(
            no_members()
                .push(("schema_version"@, json_nat(self.schema_version as nat)))
                .push(("mode"@, json_string(self.mode.name())))
                .push(("last_epoch"@, json_nat(self.last_epoch as nat)))
                .push(("last_token"@, json_optional_string(uuid_option(self.last_token))))
                .push(("active_epoch"@, json_optional_nat(nat_option(self.active_epoch))))
                .push(("active_token"@, json_optional_string(uuid_option(self.active_token))))
                .push(("intake_open"@, json_bool(self.intake_open)))
                .push(("workers_drained"@, json_bool(self.workers_drained)))
                .push(("active_write_leases"@, json_nat(self.active_write_leases as nat)))
                .push(("processing_jobs"@, json_nat(self.processing_jobs as nat)))
                .push(("delivering_webhooks"@, json_nat(self.delivering_webhooks as nat)))
                .push(("updated_at"@, json_int(self.updated_at as int))),
        )
    }

    pub fn to_json(&self) -> (r: String)
        ensures
            r@ == self.json(),
    {
        let mut object = JsonObject::new();
        object.number("schema_version", self.schema_version as u64);
        object.text("mode", self.mode.as_str());
        object.number("last_epoch", self.last_epoch);
        let last_token = optional_uuid_text(&self.last_token);
        object.optional_text("last_token", optional_str(&last_token));
        object.optional_number("active_epoch", self.active_epoch);
        let active_token = optional_uuid_text(&self.active_token);
        object.optional_text("active_token", optional_str(&active_token));
        object.boolean("intake_open", self.intake_open);
        object.boolean("workers_drained", self.workers_drained);
        object.number("active_write_leases", self.active_write_leases);
        object.number("processing_jobs", self.processing_jobs);
        object.number("delivering_webhooks", self.delivering_webhooks);
        object.signed("updated_at", self.updated_at);
        object.finish()
    }
}

/// What a service said of itself, with the digest of what it said.
#[derive(Debug, PartialEq, Eq)]
pub struct RimgObservedDocumentV1 {
    pub document: RimgOperationalStatusV1,
    pub observation_digest: EvidenceDigest,
}

impl RimgObservedDocumentV1 {
    pub fn from_document(document: RimgOperationalStatusV1) -> (r: Result<
        RimgObservedDocumentV1,
        FenceAdapterError,
    >)
        ensures
            match r {
                Ok(observed) => observed.document == document && document_digest(document.json())
                    == Some(observed.observation_digest@),
                Err(error) => document_digest(document.json()) is None && error is CanonicalEncoding,
            },
    {
        let text = document.to_json();
        match digest_document(text.as_str()) {
            Ok(observation_digest) => Ok(RimgObservedDocumentV1 { document, observation_digest }),
            Err(_) => Err(FenceAdapterError::CanonicalEncoding),
        }
    }
}

/// Why the adapter refuses.
#[derive(Clone, Copy, Debug, PartialEq, Eq, Structural)]
pub enum FenceAdapterError {
    RequestMismatch,
    ResultMismatch,
    RuntimeFailure,
    CanonicalEncoding,
}

/// What the adapter is asked to do with a fence, sealed by a digest.
#[derive(Clone, Debug, PartialEq, Eq)]
pub struct FenceAdapterRequestV1 {
    pub purpose: String,
    pub schema_version: u16,
    pub action: FenceAdapterActionV1,
    pub project_id: ProjectId,
    pub attempt_id: Uuid,
    pub installed_rimg_policy_digest: EvidenceDigest,
    pub epoch: u64,
    pub token: Uuid,
    pub release_safe_receipt_digest: Option<EvidenceDigest>,
    pub request_digest: EvidenceDigest,
}

fn digests_equal(a: &Option<EvidenceDigest>, b: &Option<EvidenceDigest>) -> (r: bool)
    ensures
        r == (digest_option(*a) == digest_option(*b)),
{
    match (a, b) {
        (Some(a), Some(b)) => *a == *b,
        (None, None) => true,
        _ => false,
    }
}

impl FenceAdapterRequestV1 {
    /// The document as JSON text.
    pub open spec fn json(self) -> Seq<char> {
        json_object(
            no_members()
                .push(("purpose"@, json_string(self.purpose@)))
                .push(("schema_version"@, json_nat(self.schema_version as nat)))
                .push(("action"@, json_string(self.action.name())))
                .push(("project_id"@, json_string(self.project_id@)))
                .push(("attempt_id"@, json_string(self.attempt_id.text())))
                .push(("installed_rimg_policy_digest"@, json_string(self.installed_rimg_policy_digest@)))
                .push(("epoch"@, json_nat(self.epoch as nat)))
                .push(("token"@, json_string(self.token.text())))
                .push(("release_safe_receipt_digest"@, json_optional_string(digest_option(self.release_safe_receipt_digest))))
                .push(("request_digest"@, json_string(self.request_digest@))),
        )
    }

    pub fn to_json(&self) -> (r: String)
        ensures
            r@ == self.json(),
    {
        let mut object = JsonObject::new();
        object.text("purpose", self.purpose.as_str());
        object.number("schema_version", self.schema_version as u64);
        object.text("action", self.action.as_str());
        object.text("project_id", self.project_id.as_str());
        let attempt_id = self.attempt_id.to_text();
        object.text("attempt_id", attempt_id.as_str());
        object.text("installed_rimg_policy_digest", self.installed_rimg_policy_digest.as_str());
        object.number("epoch", self.epoch);
        let token = self.token.to_text();
        object.text("token", token.as_str());
        object.optional_text("release_safe_receipt_digest", digest_str(&self.release_safe_receipt_digest));
        object.text("request_digest", self.request_digest.as_str());
        object.finish()
    }

    /// What the digest is taken over.
    pub open spec fn sealed_json(self) -> Seq<char> {
        json_object(
            no_members()
                .push(("purpose"@, json_string(self.purpose@)))
                .push(("schema_version"@, json_nat(self.schema_version as nat)))
                .push(("action"@, json_string(self.action.name())))
                .push(("project_id"@, json_string(self.project_id@)))
                .push(("attempt_id"@, json_string(self.attempt_id.text())))
                .push(("installed_rimg_policy_digest"@, json_string(self.installed_rimg_policy_digest@)))
                .push(("epoch"@, json_nat(self.epoch as nat)))
                .push(("token"@, json_string(self.token.text())))
                .push(("release_safe_receipt_digest"@, json_optional_string(digest_option(self.release_safe_receipt_digest)))),
        )
    }

    fn to_sealed_json(&self) -> (r: String)
        ensures
            r@ == self.sealed_json(),
    {
        let mut object = JsonObject::new();
        object.text("purpose", self.purpose.as_str());
        object.number("schema_version", self.schema_version as u64);
        object.text("action", self.action.as_str());
        object.text("project_id", self.project_id.as_str());
        let attempt_id = self.attempt_id.to_text();
        object.text("attempt_id", attempt_id.as_str());
        object.text("installed_rimg_policy_digest", self.installed_rimg_policy_digest.as_str());
        object.number("epoch", self.epoch);
        let token = self.token.to_text();
        object.text("token", token.as_str());
        object.optional_text("release_safe_receipt_digest", digest_str(&self.release_safe_receipt_digest));
        object.finish()
    }

    /// The digest is the one of what it seals.
    pub open spec fn sealed(self) -> bool {
        document_digest(self.sealed_json()) == Some(self.request_digest@)
    }

    fn calculate_digest(&self) -> (r: Result<EvidenceDigest, FenceAdapterError>)
        ensures
            match r {
                Ok(digest) => document_digest(self.sealed_json()) == Some(digest@),
                Err(error) => document_digest(self.sealed_json()) is None && error
                    is CanonicalEncoding,
            },
    {
        let text = self.to_sealed_json();
        match digest_document(text.as_str()) {
            Ok(digest) => Ok(digest),
            Err(_) => Err(FenceAdapterError::CanonicalEncoding),
        }
    }

    /// What can be asked in a state of the fence: to acquire it while that is intended or done, to
    /// release it with a receipt that this is safe while that is intended or done.
    pub open spec fn fits_state(self, state: FenceJournalState) -> bool {
        match self.action {
            FenceAdapterActionV1::Acquire => (state is AcquireIntent || state is Held)
                && self.release_safe_receipt_digest is None,
            FenceAdapterActionV1::ReleaseAndResume => (state is ReleaseIntent || state is Released)
                && self.release_safe_receipt_digest is Some,
        }
    }

    /// The request is about a fence, and can be made in its state.
    pub open spec fn matches(self, lease: FenceLease) -> bool {
        &&& self.purpose@ == "rdashboard.fence-adapter-request.v1"@
        &&& self.schema_version == FENCE_ADAPTER_SCHEMA_VERSION
        &&& self.project_id@ == lease.project_id@
        &&& self.attempt_id == lease.attempt_id
        &&& self.epoch == lease.epoch
        &&& self.token == lease.token
        &&& self.epoch != 0
        &&& !self.attempt_id.nil()
        &&& !self.token.nil()
        &&& digest_option(self.release_safe_receipt_digest) == digest_option(
            lease.release_safe_receipt_digest,
        )
        &&& self.fits_state(lease.state)
    }

    /// What is wrong with a request for a fence: it is not about it, the encoding, or the digest.
    pub open spec fn lease_fault(self, lease: FenceLease) -> Option<FenceAdapterError> {
        if !self.matches(lease) {
            Some(FenceAdapterError::RequestMismatch)
        } else if document_digest(self.sealed_json()) is None {
            Some(FenceAdapterError::CanonicalEncoding)
        } else if !self.sealed() {
            Some(FenceAdapterError::RequestMismatch)
        } else {
            None
        }
    }

    pub fn validate_for_lease(&self, lease: &FenceLease) -> (r: Result<(), FenceAdapterError>)
        ensures
            match r {
                Ok(()) => self.lease_fault(*lease) is None,
                Err(error) => self.lease_fault(*lease) == Some(error),
            },
    {
        let state_matches = match self.action {
            FenceAdapterActionV1::Acquire => (lease.state == FenceJournalState::AcquireIntent
                || lease.state == FenceJournalState::Held)
                && self.release_safe_receipt_digest.is_none(),
            FenceAdapterActionV1::ReleaseAndResume => (lease.state
                == FenceJournalState::ReleaseIntent || lease.state == FenceJournalState::Released)
                && self.release_safe_receipt_digest.is_some(),
        };
        if !same_text(self.purpose.as_str(), "rdashboard.fence-adapter-request.v1")
            || self.schema_version != FENCE_ADAPTER_SCHEMA_VERSION || self.project_id
            != lease.project_id || self.attempt_id != lease.attempt_id || self.epoch != lease.epoch
            || self.token != lease.token || self.epoch == 0 || self.attempt_id.is_nil()
            || self.token.is_nil() || !digests_equal(
            &self.release_safe_receipt_digest,
            &lease.release_safe_receipt_digest,
        ) || !state_matches {
            return Err(FenceAdapterError::RequestMismatch);
        }
        match self.calculate_digest() {
            Err(error) => Err(error),
            Ok(digest) => if self.request_digest == digest {
                Ok(())
            } else {
                Err(FenceAdapterError::RequestMismatch)
            },
        }
    }

    /// The request holds what it is made of, whatever its digest.
    pub open spec fn describes(
        self,
        action: FenceAdapterActionV1,
        lease: FenceLease,
        installed_rimg_policy_digest: EvidenceDigest,
    ) -> bool {
        &&& self.purpose@ == "rdashboard.fence-adapter-request.v1"@
        &&& self.schema_version == FENCE_ADAPTER_SCHEMA_VERSION
        &&& self.action == action
        &&& self.project_id == lease.project_id
        &&& self.attempt_id == lease.attempt_id
        &&& self.installed_rimg_policy_digest == installed_rimg_policy_digest
        &&& self.epoch == lease.epoch
        &&& self.token == lease.token
        &&& self.release_safe_receipt_digest == lease.release_safe_receipt_digest
    }

    /// A request about a fence.
    pub fn from_lease(
        action: FenceAdapterActionV1,
        lease: &FenceLease,
        installed_rimg_policy_digest: EvidenceDigest,
    ) -> (r: Result<FenceAdapterRequestV1, FenceAdapterError>)
        ensures
            match r {
                Ok(request) => request.describes(action, *lease, installed_rimg_policy_digest)
                    && request.lease_fault(*lease) is None,
                Err(error) => forall|request: FenceAdapterRequestV1| #[trigger]
                    request.describes(action, *lease, installed_rimg_policy_digest)
                        ==> if document_digest(request.sealed_json()) is None {
                        error is CanonicalEncoding
                    } else {
                        !request.matches(*lease) && error is RequestMismatch
                    },
            },
    {
        let request_digest = installed_rimg_policy_digest.clone();
        let mut request = FenceAdapterRequestV1 {
            purpose: "rdashboard.fence-adapter-request.v1".to_owned(),
            schema_version: FENCE_ADAPTER_SCHEMA_VERSION,
            action,
            project_id: lease.project_id.clone(),
            attempt_id: lease.attempt_id,
            installed_rimg_policy_digest,
            epoch: lease.epoch,
            token: lease.token,
            release_safe_receipt_digest: lease.release_safe_receipt_digest.clone(),
            request_digest,
        };
        match request.calculate_digest() {
            Err(error) => return Err(error),
            Ok(digest) => {
                request.request_digest = digest;
            },
        }
        match request.validate_for_lease(lease) {
            Err(error) => Err(error),
            Ok(()) => Ok(request),
        }
    }

    /// The canonical bytes of a sealed request.
    pub fn canonical_bytes(&self) -> (r: Result<Vec<u8>, FenceAdapterError>)
        ensures
            match r {
                Ok(bytes) => self.sealed() && jcs(self.json()) == Some(bytes@),
                Err(error) => if document_digest(self.sealed_json()) is None {
                    error is CanonicalEncoding
                } else if !self.sealed() {
                    error is RequestMismatch
                } else {
                    jcs(self.json()) is None && error is CanonicalEncoding
                },
            },
    {
        match self.calculate_digest() {
            Err(error) => return Err(error),
            Ok(digest) => if self.request_digest != digest {
                return Err(FenceAdapterError::RequestMismatch);
            },
        }
        let text = self.to_json();
        match canonical_bytes(text.as_str()) {
            Ok(bytes) => Ok(bytes),
            Err(_) => Err(FenceAdapterError::CanonicalEncoding),
        }
    }

    /// Accepts a request that was read from some bytes, where the bytes are its canonical form and
    /// it is sealed.
    pub fn decode_canonical(parsed: FenceAdapterRequestV1, bytes: &[u8]) -> (r: Result<
        FenceAdapterRequestV1,
        FenceAdapterError,
    >)
        ensures
            match r {
                Ok(request) => request == parsed && jcs(parsed.json()) == Some(bytes@)
                    && parsed.sealed(),
                Err(error) => if jcs(parsed.json()) is None {
                    error is CanonicalEncoding
                } else if jcs(parsed.json()) != Some(bytes@) {
                    error is RequestMismatch
                } else if document_digest(parsed.sealed_json()) is None {
                    error is CanonicalEncoding
                } else {
                    !parsed.sealed() && error is RequestMismatch
                },
            },
    {
        let text = parsed.to_json();
        match is_canonical(text.as_str(), bytes) {
            Err(_) => return Err(FenceAdapterError::CanonicalEncoding),
            Ok(canonical) => if !canonical {
                return Err(FenceAdapterError::RequestMismatch);
            },
        }
        match parsed.calculate_digest() {
            Err(error) => Err(error),
            Ok(digest) => if parsed.request_digest == digest {
                Ok(parsed)
            } else {
                Err(FenceAdapterError::RequestMismatch)
            },
        }
    }
}

impl RimgOperationalStatusV1 {
    /// Nothing that writes is under way.
    pub open spec fn quiet(self) -> bool {
        self.workers_drained && self.active_write_leases == 0 && self.processing_jobs == 0
            && self.delivering_webhooks == 0
    }

    /// The fence of a request is the present one, and nothing is taken in.
    pub open spec fn has_identity(self, request: FenceAdapterRequestV1) -> bool {
        &&& self.schema_version == RIMG_MACHINE_PROTOCOL_SCHEMA_VERSION
        &&& self.last_epoch == request.epoch
        &&& self.last_token == Some(request.token)
        &&& self.active_epoch == Some(request.epoch)
        &&& self.active_token == Some(request.token)
        &&& !self.intake_open
        &&& self.updated_at >= 0
    }

    pub open spec fn draining(self, request: FenceAdapterRequestV1) -> bool {
        self.has_identity(request) && self.mode is Draining && self.quiet()
    }

    pub open spec fn fenced(self, request: FenceAdapterRequestV1) -> bool {
        self.has_identity(request) && self.mode is Fenced && self.quiet()
    }

    pub open spec fn resumed(self, request: FenceAdapterRequestV1) -> bool {
        &&& self.schema_version == RIMG_MACHINE_PROTOCOL_SCHEMA_VERSION
        &&& self.mode is Normal
        &&& self.last_epoch == request.epoch
        &&& self.last_token == Some(request.token)
        &&& self.active_epoch is None
        &&& self.active_token is None
        &&& self.intake_open
        &&& self.updated_at >= 0
    }

    fn status_has_identity(&self, request: &FenceAdapterRequestV1) -> (r: bool)
        ensures
            r == self.has_identity(*request),
    {
        self.schema_version == RIMG_MACHINE_PROTOCOL_SCHEMA_VERSION && self.last_epoch
            == request.epoch && self.last_token == Some(request.token) && self.active_epoch == Some(
            request.epoch,
        ) && self.active_token == Some(request.token) && !self.intake_open && self.updated_at >= 0
    }

    fn is_quiet(&self) -> (r: bool)
        ensures
            r == self.quiet(),
    {
        self.workers_drained && self.active_write_leases == 0 && self.processing_jobs == 0
            && self.delivering_webhooks == 0
    }

    pub fn status_is_draining(&self, request: &FenceAdapterRequestV1) -> (r: bool)
        ensures
            r == self.draining(*request),
    {
        self.status_has_identity(request) && self.mode == RimgOperationalModeV1::Draining
            && self.is_quiet()
    }

    pub fn status_is_fenced(&self, request: &FenceAdapterRequestV1) -> (r: bool)
        ensures
            r == self.fenced(*request),
    {
        self.status_has_identity(request) && self.mode == RimgOperationalModeV1::Fenced
            && self.is_quiet()
    }

    pub fn status_is_resumed(&self, request: &FenceAdapterRequestV1) -> (r: bool)
        ensures
            r == self.resumed(*request),
    {
        self.schema_version == RIMG_MACHINE_PROTOCOL_SCHEMA_VERSION && self.mode
            == RimgOperationalModeV1::Normal && self.last_epoch == request.epoch && self.last_token
            == Some(request.token) && self.active_epoch.is_none() && self.active_token.is_none()
            && self.intake_open && self.updated_at >= 0
    }

    /// The service is where a request wants it.
    pub open spec fn settles(self, request: FenceAdapterRequestV1) -> bool {
        match request.action {
            FenceAdapterActionV1::Acquire => self.fenced(request),
            FenceAdapterActionV1::ReleaseAndResume => self.resumed(request),
        }
    }
}

/// What is done next about a fence.
#[derive(Clone, Copy, Debug, PartialEq, Eq, Structural)]
pub enum FenceStep {
    /// The service is where it should be.
    Settled,
    /// The service is told something.
    Apply(RimgAdminActionV1),
    /// The service is nowhere that leads to where it should be.
    Refused,
}

/// What is done about a service that is found in some status.
pub open spec fn first_step(
    request: FenceAdapterRequestV1,
    status: RimgOperationalStatusV1,
) -> FenceStep {
    if status.settles(request) {
        FenceStep::Settled
    } else {
        match request.action {
            FenceAdapterActionV1::Acquire => if status.draining(request) {
                FenceStep::Apply(RimgAdminActionV1::AcquireFence)
            } else {
                FenceStep::Refused
            },
            FenceAdapterActionV1::ReleaseAndResume => if status.fenced(request) {
                FenceStep::Apply(RimgAdminActionV1::ReleaseFence)
            } else if status.draining(request) {
                FenceStep::Apply(RimgAdminActionV1::Resume)
            } else {
                FenceStep::Refused
            },
        }
    }
}

/// What is done once the service was told something and is in some status.
pub open spec fn step_after(
    request: FenceAdapterRequestV1,
    applied: RimgAdminActionV1,
    status: RimgOperationalStatusV1,
) -> FenceStep {
    match applied {
        RimgAdminActionV1::AcquireFence => if status.fenced(request) {
            FenceStep::Settled
        } else {
            FenceStep::Refused
        },
        RimgAdminActionV1::ReleaseFence => if status.draining(request) {
            FenceStep::Apply(RimgAdminActionV1::Resume)
        } else {
            FenceStep::Refused
        },
        RimgAdminActionV1::Resume => if status.resumed(request) {
            FenceStep::Settled
        } else {
            FenceStep::Refused
        },
    }
}

pub fn begin_transition(
    request: &FenceAdapterRequestV1,
    status: &RimgOperationalStatusV1,
) -> (r: FenceStep)
    ensures
        r == first_step(*request, *status),
{
    match request.action {
        FenceAdapterActionV1::Acquire => if status.status_is_fenced(request) {
            FenceStep::Settled
        } else if status.status_is_draining(request) {
            FenceStep::Apply(RimgAdminActionV1::AcquireFence)
        } else {
            FenceStep::Refused
        },
        FenceAdapterActionV1::ReleaseAndResume => if status.status_is_resumed(request) {
            FenceStep::Settled
        } else if status.status_is_fenced(request) {
            FenceStep::Apply(RimgAdminActionV1::ReleaseFence)
        } else if status.status_is_draining(request) {
            FenceStep::Apply(RimgAdminActionV1::Resume)
        } else {
            FenceStep::Refused
        },
    }
}

pub fn continue_transition(
    request: &FenceAdapterRequestV1,
    applied: RimgAdminActionV1,
    status: &RimgOperationalStatusV1,
) -> (r: FenceStep)
    ensures
        r == step_after(*request, applied, *status),
{
    match applied {
        RimgAdminActionV1::AcquireFence => if status.status_is_fenced(request) {
            FenceStep::Settled
        } else {
            FenceStep::Refused
        },
        RimgAdminActionV1::ReleaseFence => if status.status_is_draining(request) {
            FenceStep::Apply(RimgAdminActionV1::Resume)
        } else {
            FenceStep::Refused
        },
        RimgAdminActionV1::Resume => if status.status_is_resumed(request) {
            FenceStep::Settled
        } else {
            FenceStep::Refused
        },
    }
}

/// The service whose fence is set and lifted.
pub trait RimgFenceBackendV1 {
    fn status(&mut self) -> Result<RimgObservedDocumentV1, FenceAdapterError>;

    fn apply(&mut self, action: RimgAdminActionV1, request: &FenceAdapterRequestV1) -> Result<
        RimgObservedDocumentV1,
        FenceAdapterError,
    >;
}

/// What carries a request out.
pub trait FenceAdapterRuntimeV1 {
    fn transition(&mut self, request: &FenceAdapterRequestV1) -> Result<
        RimgObservedDocumentV1,
        FenceAdapterError,
    >;
}

/// What comes of a request once nothing more is told: the status that the service is in, where it
/// settles the request.
pub open spec fn outcome(step: FenceStep, observed: RimgObservedDocumentV1) -> Result<
    RimgObservedDocumentV1,
    FenceAdapterError,
> {
    match step {
        FenceStep::Settled => Ok(observed),
        _ => Err(FenceAdapterError::ResultMismatch),
    }
}

fn conclude(step: FenceStep, observed: RimgObservedDocumentV1) -> (r: Result<
    RimgObservedDocumentV1,
    FenceAdapterError,
>)
    ensures
        r == outcome(step, observed),
{
    match step {
        FenceStep::Settled => Ok(observed),
        _ => Err(FenceAdapterError::ResultMismatch),
    }
}

/// Brings a service to where a request wants it. The service is asked for its status first, then it
/// is told what follows from the status that it is in, twice at most. A failure of the service is
/// handed on, and what comes back is a status in which the request is settled.
pub fn transition_fence<B: RimgFenceBackendV1>(
    request: &FenceAdapterRequestV1,
    backend: &mut B,
) -> (r: Result<
    RimgObservedDocumentV1,
    FenceAdapterError,
>)
    ensures
        r matches Ok(observed) ==> observed.document.settles(*request),
        (exists|asked: &mut B, found: Result<RimgObservedDocumentV1, FenceAdapterError>|
            {
                &&& #[trigger] call_ensures(B::status, (asked,), found)
                &&& *asked == *old(backend)
                &&& match found {
                    Err(error) => r == Err::<RimgObservedDocumentV1, FenceAdapterError>(error)
                        && *final(backend) == *final(asked),
                    Ok(observed) => match first_step(*request, observed.document) {
                        FenceStep::Apply(action) => exists|
                            told: &mut B,
                            answer: Result<RimgObservedDocumentV1, FenceAdapterError>,
                        |
                            {
                                &&& #[trigger] call_ensures(
                                    B::apply,
                                    (told, action, request),
                                    answer,
                                )
                                &&& *told == *final(asked)
                                &&& match answer {
                                    Err(error) => r == Err::<
                                        RimgObservedDocumentV1,
                                        FenceAdapterError,
                                    >(error) && *final(backend) == *final(told),
                                    Ok(next) => match step_after(*request, action, next.document) {
                                        FenceStep::Apply(last) => exists|
                                            resumed: &mut B,
                                            reply: Result<
                                                RimgObservedDocumentV1,
                                                FenceAdapterError,
                                            >,
                                        |
                                            {
                                                &&& #[trigger] call_ensures(
                                                    B::apply,
                                                    (resumed, last, request),
                                                    reply,
                                                )
                                                &&& *resumed == *final(told)
                                                &&& *final(backend) == *final(resumed)
                                                &&& match reply {
                                                    Err(error) => r == Err::<
                                                        RimgObservedDocumentV1,
                                                        FenceAdapterError,
                                                    >(error),
                                                    Ok(end) => r == outcome(
                                                        step_after(*request, last, end.document),
                                                        end,
                                                    ),
                                                }
                                            },
                                        step => r == outcome(step, next) && *final(backend)
                                            == *final(told),
                                    },
                                }
                            },
                        step => r == outcome(step, observed) && *final(backend) == *final(asked),
                    },
                }
            }),
{
    let observed = match backend.status() {
        Err(error) => return Err(error),
        Ok(observed) => observed,
    };
    let action = match begin_transition(request, &observed.document) {
        FenceStep::Apply(action) => action,
        step => return conclude(step, observed),
    };
    let next = match backend.apply(action, request) {
        Err(error) => return Err(error),
        Ok(next) => next,
    };
    let last = match continue_transition(request, action, &next.document) {
        FenceStep::Apply(last) => last,
        step => return conclude(step, next),
    };
    match backend.apply(last, request) {
        Err(error) => Err(error),
        Ok(end) => conclude(continue_transition(request, last, &end.document), end),
    }
}

/// What carries requests out on the service that is installed.
#[derive(Debug)]
pub struct InstalledFenceAdapterRuntimeV1<B> {
    inner: B,
}

impl<B> InstalledFenceAdapterRuntimeV1<B> {
    pub closed spec fn service(self) -> B {
        self.inner
    }

    pub fn new(inner: B) -> (r: Self)
        ensures
            r.service() == inner,
    {
        InstalledFenceAdapterRuntimeV1 { inner }
    }
}

impl<B: RimgFenceBackendV1> FenceAdapterRuntimeV1 for InstalledFenceAdapterRuntimeV1<B> {
    fn transition(&mut self, request: &FenceAdapterRequestV1) -> (r: Result<
        RimgObservedDocumentV1,
        FenceAdapterError,
    >)
        ensures
            r matches Ok(observed) ==> observed.document.settles(*request),
            (exists|service: &mut B|
                {
                    &&& #[trigger] call_ensures(transition_fence::<B>, (request, service), r)
                    &&& *service == old(self).service()
                    &&& *final(service) == final(self).service()
                }),
    {
        transition_fence(request, &mut self.inner)
    }
}

/// What came of a request, sealed by a digest.
#[derive(Clone, Debug, PartialEq, Eq)]
pub struct FenceAdapterResultV1 {
    pub purpose: String,
    pub schema_version: u16,
    pub request_digest: EvidenceDigest,
    pub completed_at_ms: i64,
    pub status: RimgOperationalStatusV1,
    pub status_observation_digest: EvidenceDigest,
    pub result_digest: EvidenceDigest,
}

impl FenceAdapterResultV1 {
    /// The document as JSON text.
    pub open spec fn json(self) -> Seq<char> {
        json_object(
            no_members()
                .push(("purpose"@, json_string(self.purpose@)))
                .push(("schema_version"@, json_nat(self.schema_version as nat)))
                .push(("request_digest"@, json_string(self.request_digest@)))
                .push(("completed_at_ms"@, json_int(self.completed_at_ms as int)))
                .push(("status"@, self.status.json()))
                .push(("status_observation_digest"@, json_string(self.status_observation_digest@)))
                .push(("result_digest"@, json_string(self.result_digest@))),
        )
    }

    pub fn to_json(&self) -> (r: String)
        ensures
            r@ == self.json(),
    {
        let mut object = JsonObject::new();
        object.text("purpose", self.purpose.as_str());
        object.number("schema_version", self.schema_version as u64);
        object.text("request_digest", self.request_digest.as_str());
        object.signed("completed_at_ms", self.completed_at_ms);
        let status = self.status.to_json();
        object.raw("status", status.as_str());
        object.text("status_observation_digest", self.status_observation_digest.as_str());
        object.text("result_digest", self.result_digest.as_str());
        object.finish()
    }

    /// What the digest is taken over.
    pub open spec fn sealed_json(self) -> Seq<char> {
        json_object(
            no_members()
                .push(("purpose"@, json_string(self.purpose@)))
                .push(("schema_version"@, json_nat(self.schema_version as nat)))
                .push(("request_digest"@, json_string(self.request_digest@)))
                .push(("completed_at_ms"@, json_int(self.completed_at_ms as int)))
                .push(("status"@, self.status.json()))
                .push(("status_observation_digest"@, json_string(self.status_observation_digest@))),
        )
    }

    fn to_sealed_json(&self) -> (r: String)
        ensures
            r@ == self.sealed_json(),
    {
        let mut object = JsonObject::new();
        object.text("purpose", self.purpose.as_str());
        object.number("schema_version", self.schema_version as u64);
        object.text("request_digest", self.request_digest.as_str());
        object.signed("completed_at_ms", self.completed_at_ms);
        let status = self.status.to_json();
        object.raw("status", status.as_str());
        object.text("status_observation_digest", self.status_observation_digest.as_str());
        object.finish()
    }

    /// The result answers a request: it names it, and the status is where the request wants the
    /// service.
    pub open spec fn answers(self, request: FenceAdapterRequestV1) -> bool {
        &&& self.purpose@ == "rdashboard.fence-adapter-result.v1"@
        &&& self.schema_version == FENCE_ADAPTER_SCHEMA_VERSION
        &&& self.request_digest@ == request.request_digest@
        &&& self.completed_at_ms >= 0
        &&& self.status.settles(request)
    }

    /// What is wrong with the result of a request: it does not answer it, the encoding, or a
    /// digest.
    pub open spec fn fault(self, request: FenceAdapterRequestV1) -> Option<FenceAdapterError> {
        if !self.answers(request) {
            Some(FenceAdapterError::ResultMismatch)
        } else if document_digest(self.status.json()) is None {
            Some(FenceAdapterError::CanonicalEncoding)
        } else if document_digest(self.status.json()) != Some(self.status_observation_digest@) {
            Some(FenceAdapterError::ResultMismatch)
        } else if document_digest(self.sealed_json()) is None {
            Some(FenceAdapterError::CanonicalEncoding)
        } else if document_digest(self.sealed_json()) != Some(self.result_digest@) {
            Some(FenceAdapterError::ResultMismatch)
        } else {
            None
        }
    }

    fn calculate_digest(&self) -> (r: Result<EvidenceDigest, FenceAdapterError>)
        ensures
            match r {
                Ok(digest) => document_digest(self.sealed_json()) == Some(digest@),
                Err(error) => document_digest(self.sealed_json()) is None && error
                    is CanonicalEncoding,
            },
    {
        let text = self.to_sealed_json();
        match digest_document(text.as_str()) {
            Ok(digest) => Ok(digest),
            Err(_) => Err(FenceAdapterError::CanonicalEncoding),
        }
    }

    pub fn validate(&self, request: &FenceAdapterRequestV1) -> (r: Result<(), FenceAdapterError>)
        ensures
            match r {
                Ok(()) => self.fault(*request) is None,
                Err(error) => self.fault(*request) == Some(error),
            },
    {
        let status_matches = match request.action {
            FenceAdapterActionV1::Acquire => self.status.status_is_fenced(request),
            FenceAdapterActionV1::ReleaseAndResume => self.status.status_is_resumed(request),
        };
        if !same_text(self.purpose.as_str(), "rdashboard.fence-adapter-result.v1")
            || self.schema_version != FENCE_ADAPTER_SCHEMA_VERSION || self.request_digest
            != request.request_digest || self.completed_at_ms < 0 || !status_matches {
            return Err(FenceAdapterError::ResultMismatch);
        }
        let status = self.status.to_json();
        match digest_document(status.as_str()) {
            Err(_) => return Err(FenceAdapterError::CanonicalEncoding),
            Ok(digest) => if self.status_observation_digest != digest {
                return Err(FenceAdapterError::ResultMismatch);
            },
        }
        match self.calculate_digest() {
            Err(error) => Err(error),
            Ok(digest) => if self.result_digest == digest {
                Ok(())
            } else {
                Err(FenceAdapterError::ResultMismatch)
            },
        }
    }

    /// The result holds what it is made of, whatever its digest.
    pub open spec fn describes(
        self,
        request: FenceAdapterRequestV1,
        completed_at_ms: i64,
        observed: RimgObservedDocumentV1,
    ) -> bool {
        &&& self.purpose@ == "rdashboard.fence-adapter-result.v1"@
        &&& self.schema_version == FENCE_ADAPTER_SCHEMA_VERSION
        &&& self.request_digest@ == request.request_digest@
        &&& self.completed_at_ms == completed_at_ms
        &&& self.status == observed.document
        &&& self.status_observation_digest == observed.observation_digest
    }

    /// The result of a request.
    pub fn new(
        request: &FenceAdapterRequestV1,
        completed_at_ms: i64,
        observed: RimgObservedDocumentV1,
    ) -> (r: Result<FenceAdapterResultV1, FenceAdapterError>)
        ensures
            match r {
                Ok(result) => result.describes(*request, completed_at_ms, observed) && result.fault(
                    *request,
                ) is None,
                Err(error) => refused(*request, completed_at_ms, observed, error),
            },
    {
        let mut result = FenceAdapterResultV1 {
            purpose: "rdashboard.fence-adapter-result.v1".to_owned(),
            schema_version: FENCE_ADAPTER_SCHEMA_VERSION,
            request_digest: request.request_digest.clone(),
            completed_at_ms,
            status: observed.document,
            status_observation_digest: observed.observation_digest,
            result_digest: request.request_digest.clone(),
        };
        assert(result.sealed_json() == sealed_result(*request, completed_at_ms, observed));
        match result.calculate_digest() {
            Err(error) => return Err(error),
            Ok(digest) => {
                result.result_digest = digest;
            },
        }
        match result.validate(request) {
            Err(error) => Err(error),
            Ok(()) => Ok(result),
        }
    }

    /// The canonical bytes.
    pub fn canonical_bytes(&self) -> (r: Result<Vec<u8>, FenceAdapterError>)
        ensures
            match r {
                Ok(bytes) => jcs(self.json()) == Some(bytes@),
                Err(error) => jcs(self.json()) is None && error is CanonicalEncoding,
            },
    {
        let text = self.to_json();
        match canonical_bytes(text.as_str()) {
            Ok(bytes) => Ok(bytes),
            Err(_) => Err(FenceAdapterError::CanonicalEncoding),
        }
    }

    /// Accepts a result that was read from some bytes, where the bytes are its canonical form and
    /// it answers a request.
    pub fn decode_canonical(
        parsed: FenceAdapterResultV1,
        bytes: &[u8],
        request: &FenceAdapterRequestV1,
    ) -> (r: Result<FenceAdapterResultV1, FenceAdapterError>)
        ensures
            match r {
                Ok(result) => result == parsed && jcs(parsed.json()) == Some(bytes@) && parsed.fault(
                    *request,
                ) is None,
                Err(error) => if jcs(parsed.json()) is None {
                    error is CanonicalEncoding
                } else if jcs(parsed.json()) != Some(bytes@) {
                    error is ResultMismatch
                } else {
                    parsed.fault(*request) == Some(error)
                },
            },
    {
        let text = parsed.to_json();
        match is_canonical(text.as_str(), bytes) {
            Err(_) => Err(FenceAdapterError::CanonicalEncoding),
            Ok(false) => Err(FenceAdapterError::ResultMismatch),
            Ok(true) => match parsed.validate(request) {
                Err(error) => Err(error),
                Ok(()) => Ok(parsed),
            },
        }
    }
}

/// What the digest of the result of a request is taken over.
pub open spec fn sealed_result(
    request: FenceAdapterRequestV1,
    completed_at_ms: i64,
    observed: RimgObservedDocumentV1,
) -> Seq<char> {
    json_object(
        no_members()
            .push(("purpose"@, json_string("rdashboard.fence-adapter-result.v1"@)))
            .push(("schema_version"@, json_nat(FENCE_ADAPTER_SCHEMA_VERSION as nat)))
            .push(("request_digest"@, json_string(request.request_digest@)))
            .push(("completed_at_ms"@, json_int(completed_at_ms as int)))
            .push(("status"@, observed.document.json()))
            .push(("status_observation_digest"@, json_string(observed.observation_digest@))),
    )
}

/// Why a request has no result, from what the service was brought to: the encoding, a time before the
/// epoch, a status that does not settle the request, or a digest that is not the one of the status.
pub open spec fn refused(
    request: FenceAdapterRequestV1,
    completed_at_ms: i64,
    observed: RimgObservedDocumentV1,
    error: FenceAdapterError,
) -> bool {
    if document_digest(sealed_result(request, completed_at_ms, observed)) is None {
        error is CanonicalEncoding
    } else if completed_at_ms < 0 || !observed.document.settles(request) {
        error is ResultMismatch
    } else if document_digest(observed.document.json()) is None {
        error is CanonicalEncoding
    } else {
        document_digest(observed.document.json()) != Some(observed.observation_digest@) && error
            is ResultMismatch
    }
}

/// The result of a request, from what the service was brought to.
pub fn fence_adapter_result(
    request: &FenceAdapterRequestV1,
    observed: RimgObservedDocumentV1,
    completed_at_ms: i64,
) -> (r: Result<FenceAdapterResultV1, FenceAdapterError>)
    ensures
        match r {
            Ok(result) => request.sealed() && completed_at_ms >= 0 && result.describes(
                *request,
                completed_at_ms,
                observed,
            ) && result.fault(*request) is None,
            Err(error) => if document_digest(request.sealed_json()) is None {
                error is CanonicalEncoding
            } else if !request.sealed() || completed_at_ms < 0 {
                error is RequestMismatch
            } else {
                refused(*request, completed_at_ms, observed, error)
            },
        },
{
    match request.calculate_digest() {
        Err(error) => return Err(error),
        Ok(digest) => if request.request_digest != digest || completed_at_ms < 0 {
            return Err(FenceAdapterError::RequestMismatch);
        },
    }
    FenceAdapterResultV1::new(request, completed_at_ms, observed)
}

/// Carries a sealed request out and tells what came of it: the runtime is asked once, a failure of it
/// is handed on, and the result seals what it observed. A request that is not sealed, or a time
/// before the epoch, is refused before anything is done.
pub fn execute_fence_adapter<R: FenceAdapterRuntimeV1>(
    request: &FenceAdapterRequestV1,
    runtime: &mut R,
    completed_at_ms: i64,
) -> (r: Result<FenceAdapterResultV1, FenceAdapterError>)
    ensures
        r matches Ok(result) ==> request.sealed() && completed_at_ms >= 0 && result.completed_at_ms
            == completed_at_ms && result.fault(*request) is None,
        document_digest(request.sealed_json()) is None ==> {
            &&& r == Err::<FenceAdapterResultV1, FenceAdapterError>(
                FenceAdapterError::CanonicalEncoding,
            )
            &&& *final(runtime) == *old(runtime)
        },
        document_digest(request.sealed_json()) is Some && (!request.sealed() || completed_at_ms
            < 0) ==> {
            &&& r == Err::<FenceAdapterResultV1, FenceAdapterError>(
                FenceAdapterError::RequestMismatch,
            )
            &&& *final(runtime) == *old(runtime)
        },
        request.sealed() && completed_at_ms >= 0 ==> (exists|
            asked: &mut R,
            found: Result<RimgObservedDocumentV1, FenceAdapterError>,
        |
            {
                &&& #[trigger] call_ensures(R::transition, (asked, request), found)
                &&& *asked == *old(runtime)
                &&& *final(asked) == *final(runtime)
                &&& match found {
                    Err(error) => r == Err::<FenceAdapterResultV1, FenceAdapterError>(error),
                    Ok(observed) => {
                        &&& match r {
                            Ok(result) => result.describes(*request, completed_at_ms, observed),
                            Err(error) => refused(*request, completed_at_ms, observed, error),
                        }
                        &&& request.action is Acquire && observed.document.resumed(*request)
                            && document_digest(
                            sealed_result(*request, completed_at_ms, observed),
                        ) is Some ==> r == Err::<FenceAdapterResultV1, FenceAdapterError>(
                            FenceAdapterError::ResultMismatch,
                        )
                    },
                }
            }),
{
    match request.calculate_digest() {
        Err(error) => return Err(error),
        Ok(digest) => if request.request_digest != digest || completed_at_ms < 0 {
            return Err(FenceAdapterError::RequestMismatch);
        },
    }
    match runtime.transition(request) {
        Err(error) => Err(error),
        Ok(observed) => fence_adapter_result(request, observed, completed_at_ms),
    }
}

/// A restart at any point goes on as if nothing had happened: what follows something the service was
/// told is what would be done about the status that it is then in.
pub proof fn law_fence_steps_survive_restarts(
    request: FenceAdapterRequestV1,
    before: RimgOperationalStatusV1,
    action: RimgAdminActionV1,
    after: RimgOperationalStatusV1,
)
    requires
        first_step(request, before) == FenceStep::Apply(action),
        !(step_after(request, action, after) is Refused),
    ensures
        first_step(request, after) == step_after(request, action, after),
{
}

/// A service that is where a request wants it is told nothing.
pub proof fn law_settled_services_are_left_alone(
    request: FenceAdapterRequestV1,
    status: RimgOperationalStatusV1,
)
    requires
        status.settles(request),
    ensures
        first_step(request, status) is Settled,
{
}

/// A service cannot be both fenced and resumed for one request, so a release never satisfies a
/// request to acquire.
pub proof fn law_resumed_is_not_fenced(
    request: FenceAdapterRequestV1,
    status: RimgOperationalStatusV1,
)
    requires
        status.resumed(request),
    ensures
        !status.fenced(request),
        !status.draining(request),
{
}

/// A service that has resumed never satisfies a request to acquire: the request is refused, whatever
/// the time.
pub proof fn law_resumed_services_are_not_acquired(
    request: FenceAdapterRequestV1,
    completed_at_ms: i64,
    observed: RimgObservedDocumentV1,
    r: Result<FenceAdapterResultV1, FenceAdapterError>,
)
    requires
        request.action is Acquire,
        observed.document.resumed(request),
        document_digest(sealed_result(request, completed_at_ms, observed)) is Some,
        match r {
            Ok(result) => result.describes(request, completed_at_ms, observed) && result.fault(
                request,
            ) is None,
            Err(error) => refused(request, completed_at_ms, observed, error),
        },
    ensures
        r == Err::<FenceAdapterResultV1, FenceAdapterError>(FenceAdapterError::ResultMismatch),
{
}

/// A request is accepted only for the lease that it was made from: its project, attempt, epoch and
/// token, none of them empty. One to acquire needs a fence that is to be held or is, and one to
/// release needs a fence that is to be released or is, with the receipt that says it is safe.
pub proof fn law_requests_are_of_their_lease(
    request: FenceAdapterRequestV1,
    lease: FenceLease,
    r: Result<(), FenceAdapterError>,
)
    requires
        call_ensures(FenceAdapterRequestV1::validate_for_lease, (&request, &lease), r),
    ensures
        r is Ok ==> {
            &&& request.project_id@ == lease.project_id@
            &&& request.attempt_id == lease.attempt_id && !request.attempt_id.nil()
            &&& request.epoch == lease.epoch && request.epoch != 0
            &&& request.token == lease.token && !request.token.nil()
            &&& request.schema_version == 1
            &&& document_digest(request.sealed_json()) == Some(request.request_digest@)
        },
        r is Ok && request.action is Acquire ==> (lease.state is AcquireIntent || lease.state is Held)
            && request.release_safe_receipt_digest is None && lease.release_safe_receipt_digest is None,
        r is Ok && request.action is ReleaseAndResume ==> {
            &&& lease.state is ReleaseIntent || lease.state is Released
            &&& request.release_safe_receipt_digest is Some
            &&& lease.release_safe_receipt_digest is Some
            &&& (request.release_safe_receipt_digest->0)@ == (lease.release_safe_receipt_digest->0)@
        },
{
}

/// A service is fenced or draining for a request only where it holds just that epoch and token, takes
/// nothing in and has nothing left to do; it is resumed only where it holds none and takes things in
/// again.
pub proof fn law_fenced_services_are_quiet(
    status: RimgOperationalStatusV1,
    request: FenceAdapterRequestV1,
    fenced: bool,
    draining: bool,
    resumed: bool,
)
    requires
        call_ensures(RimgOperationalStatusV1::status_is_fenced, (&status, &request), fenced),
        call_ensures(RimgOperationalStatusV1::status_is_draining, (&status, &request), draining),
        call_ensures(RimgOperationalStatusV1::status_is_resumed, (&status, &request), resumed),
    ensures
        ({
            let held = status.active_epoch == Some(request.epoch) && status.active_token == Some(
                request.token,
            ) && status.last_epoch == request.epoch && status.last_token == Some(request.token)
                && status.schema_version == 1 && status.updated_at >= 0;
            let idle = !status.intake_open && status.workers_drained && status.active_write_leases
                == 0 && status.processing_jobs == 0 && status.delivering_webhooks == 0;
            &&& fenced <==> held && idle && status.mode is Fenced
            &&& draining <==> held && idle && status.mode is Draining
            &&& resumed <==> {
                &&& status.schema_version == 1 && status.updated_at >= 0
                &&& status.last_epoch == request.epoch && status.last_token == Some(request.token)
                &&& status.active_epoch is None && status.active_token is None
                &&& status.intake_open && status.mode is Normal
            }
        }),
{
}

/// To fence, a service that drains is told to acquire the fence and then has to be fenced; to
/// release, a fenced service is told to release the fence, then has to drain and is told to resume,
/// and then has to be resumed. A service that is there already is told nothing, and one that is
/// anywhere else is refused.
pub proof fn law_services_are_led_step_by_step(
    request: FenceAdapterRequestV1,
    status: RimgOperationalStatusV1,
    applied: RimgAdminActionV1,
    fenced: bool,
    draining: bool,
    resumed: bool,
    first: FenceStep,
    after: FenceStep,
)
    requires
        call_ensures(RimgOperationalStatusV1::status_is_fenced, (&status, &request), fenced),
        call_ensures(RimgOperationalStatusV1::status_is_draining, (&status, &request), draining),
        call_ensures(RimgOperationalStatusV1::status_is_resumed, (&status, &request), resumed),
        call_ensures(begin_transition, (&request, &status), first),
        call_ensures(continue_transition, (&request, applied, &status), after),
    ensures
        request.action is Acquire ==> first == (if fenced {
            FenceStep::Settled
        } else if draining {
            FenceStep::Apply(RimgAdminActionV1::AcquireFence)
        } else {
            FenceStep::Refused
        }),
        request.action is ReleaseAndResume ==> first == (if resumed {
            FenceStep::Settled
        } else if fenced {
            FenceStep::Apply(RimgAdminActionV1::ReleaseFence)
        } else if draining {
            FenceStep::Apply(RimgAdminActionV1::Resume)
        } else {
            FenceStep::Refused
        }),
        after == FenceStep::Apply(RimgAdminActionV1::Resume) <==> applied is ReleaseFence && draining,
        after is Settled <==> (applied is AcquireFence && fenced) || (applied is Resume && resumed),
        after is Apply ==> applied is ReleaseFence,
{
}

/// A result is accepted only as the answer to its request: it names that request, the service is
/// where the request was to bring it, and neither what was observed nor the result was changed.
pub proof fn law_results_answer_their_request(
    result: FenceAdapterResultV1,
    request: FenceAdapterRequestV1,
    r: Result<(), FenceAdapterError>,
    fenced: bool,
    resumed: bool,
)
    requires
        call_ensures(FenceAdapterResultV1::validate, (&result, &request), r),
        call_ensures(RimgOperationalStatusV1::status_is_fenced, (&result.status, &request), fenced),
        call_ensures(RimgOperationalStatusV1::status_is_resumed, (&result.status, &request), resumed),
    ensures
        r is Ok ==> {
            &&& result.request_digest@ == request.request_digest@
            &&& result.schema_version == 1
            &&& result.completed_at_ms >= 0
            &&& request.action is Acquire ==> fenced
            &&& request.action is ReleaseAndResume ==> resumed
            &&& document_digest(result.status.json()) == Some(result.status_observation_digest@)
            &&& document_digest(result.sealed_json()) == Some(result.result_digest@)
        },
{
}

/// A new request tells the lease that it was made from.
pub proof fn law_new_requests_tell_their_lease(
    request: FenceAdapterRequestV1,
    action: FenceAdapterActionV1,
    lease: FenceLease,
    installed_rimg_policy_digest: EvidenceDigest,
)
    requires
        request.describes(action, lease, installed_rimg_policy_digest),
    ensures
        request.action == action,
        request.project_id == lease.project_id,
        request.attempt_id == lease.attempt_id,
        request.epoch == lease.epoch,
        request.token == lease.token,
        request.installed_rimg_policy_digest == installed_rimg_policy_digest,
        request.release_safe_receipt_digest == lease.release_safe_receipt_digest,
{
}

} // verus!
