//! The receipts of a step as it runs: that it began, why it was ended, what it used, and what was
//! left of it.

use vstd::prelude::*;
use crate::domain::budget::{recovery_reserve, recovery_reserve_bytes};
use crate::domain::execution::{
    excess,
    ordered_times,
    ExecutionCleanupReceiptV1,
    ExecutionCleanupStateV1,
    ExecutionProcessOutcomeV1,
    ExecutionReceiptError,
    ExecutionResourceUsageV1,
    ExecutionResultV1,
    ExecutionStorageUsageV1,
    ExecutionTerminalReceiptV1,
};
use crate::domain::identifiers::{digest_document, document_digest, EvidenceDigest, ProjectId};
use crate::domain::states::OperationPhase;
use crate::json::{
    canonical_bytes,
    is_canonical,
    jcs,
    json_int,
    json_nat,
    json_object,
    json_optional_nat,
    json_string,
    nat_option,
    no_members,
    JsonObject,
};
use crate::text::{
    bounded_token,
    characters,
    is_bounded_token,
    push_char,
    same_text,
    text_option,
    utf8,
    ByteClass,
};
use crate::unique_id::Uuid;
use measures::{read_unsigned, unsigned_of};

pub mod measures;

verus! {

pub const EXECUTION_START_FILE_NAME: &'static str = "execution-start.jcs";

pub const EXECUTION_TERMINAL_FILE_NAME: &'static str = "terminal-receipt.jcs";

pub const EXECUTION_CLEANUP_FILE_NAME: &'static str = "cleanup-receipt.jcs";

pub const EXECUTION_TERMINATION_INTENT_FILE_NAME: &'static str = "termination-intent.jcs";

pub const INSTALLED_ADAPTER_RECEIPT_EXECUTABLE: &'static str =
    "/usr/libexec/rdashboard/rdashboard-adapter-receipt";

pub const INSTALLED_JOB_DIRECTORY: &'static str = "/job";

pub const MAX_RECEIPT_FILE_BYTES: u64 = 256 * 1024;

pub const MAX_CGROUP_FILE_BYTES: u64 = 64 * 1024;

pub const MAX_DIRECTORY_ENTRIES: usize = 100_000;

pub const MAX_DIRECTORY_DEPTH: usize = 32;

pub const EXECUTION_START_SCHEMA_VERSION: u16 = 1;

pub const TERMINATION_INTENT_SCHEMA_VERSION: u16 = 1;

/// Why a receipt is not written or read.
#[derive(Clone, Copy, Debug, PartialEq, Eq)]
pub enum ExecutionReceiptRuntimeError {
    Json,
    ExecutionAlreadyStarted,
    InvalidStartEvidence,
    InvalidTerminationIntent,
    TerminationIntentAlreadyExists,
    TerminalReceiptAlreadyExists,
    TerminalReceiptConflict,
    CleanupReceiptAlreadyExists,
    CleanupReceiptConflict,
    UnsafeReceiptPath,
    ReceiptPathChanged,
    ReceiptTooLarge,
    DirectoryMeasurementBound,
    InvalidCgroupPath,
    CgroupMeasurementTooLarge,
    InvalidCgroupMeasurement,
    Receipt(ExecutionReceiptError),
}

impl ExecutionReceiptRuntimeError {
    /// The error in words.
    pub fn message(self) -> (r: &'static str)
        ensures
            r@ == match self {
                ExecutionReceiptRuntimeError::Json =>
                    "execution receipt JSON/JCS encoding failed"@,
                ExecutionReceiptRuntimeError::ExecutionAlreadyStarted =>
                    "execution start evidence already exists and requires reconciliation"@,
                ExecutionReceiptRuntimeError::InvalidStartEvidence =>
                    "execution start evidence is invalid"@,
                ExecutionReceiptRuntimeError::InvalidTerminationIntent =>
                    "execution termination intent is invalid"@,
                ExecutionReceiptRuntimeError::TerminationIntentAlreadyExists =>
                    "execution termination intent already exists"@,
                ExecutionReceiptRuntimeError::TerminalReceiptAlreadyExists =>
                    "execution terminal receipt already exists"@,
                ExecutionReceiptRuntimeError::TerminalReceiptConflict =>
                    "execution terminal receipt conflicts with the authorized request"@,
                ExecutionReceiptRuntimeError::CleanupReceiptAlreadyExists =>
                    "execution cleanup receipt already exists"@,
                ExecutionReceiptRuntimeError::CleanupReceiptConflict =>
                    "execution cleanup receipt conflicts with the terminal receipt"@,
                ExecutionReceiptRuntimeError::UnsafeReceiptPath =>
                    "execution receipt path is not a stable owner-only file or directory"@,
                ExecutionReceiptRuntimeError::ReceiptPathChanged =>
                    "execution receipt path changed while it was being validated"@,
                ExecutionReceiptRuntimeError::ReceiptTooLarge =>
                    "execution receipt exceeds its size bound"@,
                ExecutionReceiptRuntimeError::DirectoryMeasurementBound =>
                    "execution directory measurement exceeded its traversal bound"@,
                ExecutionReceiptRuntimeError::InvalidCgroupPath =>
                    "the unified cgroup path is invalid"@,
                ExecutionReceiptRuntimeError::CgroupMeasurementTooLarge =>
                    "a cgroup measurement exceeds its size bound"@,
                ExecutionReceiptRuntimeError::InvalidCgroupMeasurement =>
                    "a cgroup measurement is not valid UTF-8"@,
                ExecutionReceiptRuntimeError::Receipt(_) => "execution receipt is invalid"@,
            },
    {
        match self {
            ExecutionReceiptRuntimeError::Json =>
                "execution receipt JSON/JCS encoding failed",
            ExecutionReceiptRuntimeError::ExecutionAlreadyStarted =>
                "execution start evidence already exists and requires reconciliation",
            ExecutionReceiptRuntimeError::InvalidStartEvidence =>
                "execution start evidence is invalid",
            ExecutionReceiptRuntimeError::InvalidTerminationIntent =>
                "execution termination intent is invalid",
            ExecutionReceiptRuntimeError::TerminationIntentAlreadyExists =>
                "execution termination intent already exists",
            ExecutionReceiptRuntimeError::TerminalReceiptAlreadyExists =>
                "execution terminal receipt already exists",
            ExecutionReceiptRuntimeError::TerminalReceiptConflict =>
                "execution terminal receipt conflicts with the authorized request",
            ExecutionReceiptRuntimeError::CleanupReceiptAlreadyExists =>
                "execution cleanup receipt already exists",
            ExecutionReceiptRuntimeError::CleanupReceiptConflict =>
                "execution cleanup receipt conflicts with the terminal receipt",
            ExecutionReceiptRuntimeError::UnsafeReceiptPath =>
                "execution receipt path is not a stable owner-only file or directory",
            ExecutionReceiptRuntimeError::ReceiptPathChanged =>
                "execution receipt path changed while it was being validated",
            ExecutionReceiptRuntimeError::ReceiptTooLarge =>
                "execution receipt exceeds its size bound",
            ExecutionReceiptRuntimeError::DirectoryMeasurementBound =>
                "execution directory measurement exceeded its traversal bound",
            ExecutionReceiptRuntimeError::InvalidCgroupPath =>
                "the unified cgroup path is invalid",
            ExecutionReceiptRuntimeError::CgroupMeasurementTooLarge =>
                "a cgroup measurement exceeds its size bound",
            ExecutionReceiptRuntimeError::InvalidCgroupMeasurement =>
                "a cgroup measurement is not valid UTF-8",
            ExecutionReceiptRuntimeError::Receipt(_) => "execution receipt is invalid",
        }
    }
}

/// The request that a step is run for.
#[derive(Debug)]
pub struct FixedAdapterRequestV1 {
    pub request_id: Uuid,
    pub attempt_id: Uuid,
    pub project_id: ProjectId,
    pub phase: OperationPhase,
    pub step_id: String,
    pub sequence: u16,
}

/// The evidence that a step began.
#[derive(Clone, Debug, PartialEq, Eq)]
pub struct ExecutionStartEvidenceV1 {
    pub schema_version: u16,
    pub request_id: Uuid,
    pub attempt_id: Uuid,
    pub project_id: ProjectId,
    pub phase: OperationPhase,
    pub step_id: String,
    pub sequence: u16,
    pub started_at_ms: i64,
    pub scratch_before_bytes: Option<u64>,
    pub filesystem_available_before_bytes: Option<u64>,
    pub evidence_digest: EvidenceDigest,
}

/// The name of a step.
pub open spec fn step_name(text: Seq<char>) -> bool {
    bounded_token(text, ByteClass::LowerToken, 1, 96)
}

impl ExecutionStartEvidenceV1 {
    /// The document as JSON text.
    pub open spec fn json(self) -> Seq<char> {
        let members = no_members()
            .push(("schema_version"@, json_nat(self.schema_version as nat)))
            .push(("request_id"@, json_string(self.request_id.text())))
            .push(("attempt_id"@, json_string(self.attempt_id.text())))
            .push(("project_id"@, json_string(self.project_id@)))
            .push(("phase"@, json_string(self.phase.name())))
            .push(("step_id"@, json_string(self.step_id@)))
            .push(("sequence"@, json_nat(self.sequence as nat)))
            .push(("started_at_ms"@, json_int(self.started_at_ms as int)))
            .push(("scratch_before_bytes"@, json_optional_nat(nat_option(self.scratch_before_bytes))))
            .push(("filesystem_available_before_bytes"@, json_optional_nat(nat_option(self.filesystem_available_before_bytes))))
            .push(("evidence_digest"@, json_string(self.evidence_digest@)));
        json_object(members)
    }

    pub fn to_json(&self) -> (r: String)
        ensures
            r@ == self.json(),
    {
        let mut object = JsonObject::new();
        object.number("schema_version", self.schema_version as u64);
        let request_id = self.request_id.to_text();
        object.text("request_id", request_id.as_str());
        let attempt_id = self.attempt_id.to_text();
        object.text("attempt_id", attempt_id.as_str());
        object.text("project_id", self.project_id.as_str());
        object.text("phase", self.phase.as_str());
        object.text("step_id", self.step_id.as_str());
        object.number("sequence", self.sequence as u64);
        object.signed("started_at_ms", self.started_at_ms);
        object.optional_number("scratch_before_bytes", self.scratch_before_bytes);
        object.optional_number("filesystem_available_before_bytes", self.filesystem_available_before_bytes);
        object.text("evidence_digest", self.evidence_digest.as_str());
        object.finish()
    }

    /// What the digest is taken over.
    pub open spec fn sealed_json(self) -> Seq<char> {
        let members = no_members()
            .push(("purpose"@, json_string("rdashboard.execution-start-evidence.v1"@)))
            .push(("schema_version"@, json_nat(self.schema_version as nat)))
            .push(("request_id"@, json_string(self.request_id.text())))
            .push(("attempt_id"@, json_string(self.attempt_id.text())))
            .push(("project_id"@, json_string(self.project_id@)))
            .push(("phase"@, json_string(self.phase.name())))
            .push(("step_id"@, json_string(self.step_id@)))
            .push(("sequence"@, json_nat(self.sequence as nat)))
            .push(("started_at_ms"@, json_int(self.started_at_ms as int)))
            .push(("scratch_before_bytes"@, json_optional_nat(nat_option(self.scratch_before_bytes))))
            .push(("filesystem_available_before_bytes"@, json_optional_nat(nat_option(self.filesystem_available_before_bytes))));
        json_object(members)
    }

    fn to_sealed_json(&self) -> (r: String)
        ensures
            r@ == self.sealed_json(),
    {
        let mut object = JsonObject::new();
        object.text("purpose", "rdashboard.execution-start-evidence.v1");
        object.number("schema_version", self.schema_version as u64);
        let request_id = self.request_id.to_text();
        object.text("request_id", request_id.as_str());
        let attempt_id = self.attempt_id.to_text();
        object.text("attempt_id", attempt_id.as_str());
        object.text("project_id", self.project_id.as_str());
        object.text("phase", self.phase.as_str());
        object.text("step_id", self.step_id.as_str());
        object.number("sequence", self.sequence as u64);
        object.signed("started_at_ms", self.started_at_ms);
        object.optional_number("scratch_before_bytes", self.scratch_before_bytes);
        object.optional_number("filesystem_available_before_bytes", self.filesystem_available_before_bytes);
        object.finish()
    }

    /// The evidence tells of a request.
    pub open spec fn tells_of(self, request: FixedAdapterRequestV1) -> bool {
        &&& self.schema_version == EXECUTION_START_SCHEMA_VERSION
        &&& self.request_id == request.request_id
        &&& self.attempt_id == request.attempt_id
        &&& self.project_id@ == request.project_id@
        &&& self.phase == request.phase
        &&& self.step_id@ == request.step_id@
        &&& self.sequence == request.sequence
        &&& self.started_at_ms >= 0
    }

    /// The digest is the one of the evidence.
    pub open spec fn sealed(self) -> bool {
        document_digest(self.sealed_json()) == Some(self.evidence_digest@)
    }

    fn calculate_digest(&self) -> (r: Result<EvidenceDigest, ExecutionReceiptRuntimeError>)
        ensures
            match r {
                Ok(digest) => document_digest(self.sealed_json()) == Some(digest@),
                Err(error) => error is Json && document_digest(self.sealed_json()) is None,
            },
    {
        let text = self.to_sealed_json();
        match digest_document(text.as_str()) {
            Ok(digest) => Ok(digest),
            Err(_) => Err(ExecutionReceiptRuntimeError::Json),
        }
    }

    /// The evidence that the step of a request begins at some time.
    pub fn new(
        request: &FixedAdapterRequestV1,
        started_at_ms: i64,
        scratch_before_bytes: Option<u64>,
        filesystem_available_before_bytes: Option<u64>,
    ) -> (r: Result<ExecutionStartEvidenceV1, ExecutionReceiptRuntimeError>)
        ensures
            match r {
                Ok(evidence) => {
                    &&& evidence.tells_of(*request)
                    &&& evidence.sealed()
                    &&& evidence.started_at_ms == started_at_ms
                    &&& evidence.scratch_before_bytes == scratch_before_bytes
                    &&& evidence.filesystem_available_before_bytes
                        == filesystem_available_before_bytes
                },
                Err(error) => if started_at_ms < 0 {
                    error is InvalidStartEvidence
                } else {
                    error is Json && forall|evidence: ExecutionStartEvidenceV1|
                        #[trigger] evidence.tells_of(*request) && evidence.started_at_ms
                            == started_at_ms && evidence.scratch_before_bytes
                            == scratch_before_bytes && evidence.filesystem_available_before_bytes
                            == filesystem_available_before_bytes ==> document_digest(
                            evidence.sealed_json(),
                        ) is None
                },
            },
    {
        if started_at_ms < 0 {
            return Err(ExecutionReceiptRuntimeError::InvalidStartEvidence);
        }
        let mut evidence = ExecutionStartEvidenceV1 {
            schema_version: EXECUTION_START_SCHEMA_VERSION,
            request_id: request.request_id,
            attempt_id: request.attempt_id,
            project_id: request.project_id.clone(),
            phase: request.phase,
            step_id: request.step_id.clone(),
            sequence: request.sequence,
            started_at_ms,
            scratch_before_bytes,
            filesystem_available_before_bytes,
            evidence_digest: EvidenceDigest::sha256(&[]),
        };
        match evidence.calculate_digest() {
            Err(error) => Err(error),
            Ok(digest) => {
                let ghost unsealed = evidence;
                evidence.evidence_digest = digest;
                assert(evidence.sealed_json() == unsealed.sealed_json());
                Ok(evidence)
            },
        }
    }

    /// What is wrong with the evidence as that of a request.
    pub open spec fn fault_for(self, request: FixedAdapterRequestV1) -> Option<
        ExecutionReceiptRuntimeError,
    > {
        if !self.tells_of(request) {
            Some(ExecutionReceiptRuntimeError::InvalidStartEvidence)
        } else if document_digest(self.sealed_json()) is None {
            Some(ExecutionReceiptRuntimeError::Json)
        } else if !self.sealed() {
            Some(ExecutionReceiptRuntimeError::InvalidStartEvidence)
        } else {
            None
        }
    }

    pub fn validate_for(&self, request: &FixedAdapterRequestV1) -> (r: Result<
        (),
        ExecutionReceiptRuntimeError,
    >)
        ensures
            match r {
                Ok(()) => self.fault_for(*request) is None,
                Err(error) => self.fault_for(*request) == Some(error),
            },
    {
        if self.schema_version != EXECUTION_START_SCHEMA_VERSION || self.request_id
            != request.request_id || self.attempt_id != request.attempt_id || self.project_id
            != request.project_id || self.phase != request.phase || !same_text(
            self.step_id.as_str(),
            request.step_id.as_str(),
        ) || self.sequence != request.sequence || self.started_at_ms < 0 {
            return Err(ExecutionReceiptRuntimeError::InvalidStartEvidence);
        }
        match self.calculate_digest() {
            Err(error) => Err(error),
            Ok(digest) => if self.evidence_digest == digest {
                Ok(())
            } else {
                Err(ExecutionReceiptRuntimeError::InvalidStartEvidence)
            },
        }
    }

    pub fn canonical_bytes(&self) -> (r: Result<Vec<u8>, ExecutionReceiptRuntimeError>)
        ensures
            match r {
                Ok(bytes) => jcs(self.json()) == Some(bytes@),
                Err(error) => error is Json && jcs(self.json()) is None,
            },
    {
        let text = self.to_json();
        match canonical_bytes(text.as_str()) {
            Ok(bytes) => Ok(bytes),
            Err(_) => Err(ExecutionReceiptRuntimeError::Json),
        }
    }

    /// The evidence is one that a step can begin with.
    pub open spec fn well_formed(self) -> bool {
        &&& self.schema_version == EXECUTION_START_SCHEMA_VERSION
        &&& !self.request_id.nil()
        &&& !self.attempt_id.nil()
        &&& self.sequence != 0
        &&& self.started_at_ms >= 0
        &&& step_name(self.step_id@)
    }

    /// What is wrong with bytes as this evidence.
    pub open spec fn decode_fault(self, bytes: Seq<u8>) -> Option<ExecutionReceiptRuntimeError> {
        if jcs(self.json()) is None {
            Some(ExecutionReceiptRuntimeError::Json)
        } else if jcs(self.json()) != Some(bytes) || !self.well_formed() {
            Some(ExecutionReceiptRuntimeError::InvalidStartEvidence)
        } else if document_digest(self.sealed_json()) is None {
            Some(ExecutionReceiptRuntimeError::Json)
        } else if !self.sealed() {
            Some(ExecutionReceiptRuntimeError::InvalidStartEvidence)
        } else {
            None
        }
    }

    /// Takes evidence that was read from some bytes, where the bytes are its canonical form.
    pub fn decode_canonical(parsed: ExecutionStartEvidenceV1, bytes: &[u8]) -> (r: Result<
        ExecutionStartEvidenceV1,
        ExecutionReceiptRuntimeError,
    >)
        ensures
            match r {
                Ok(evidence) => evidence == parsed && parsed.decode_fault(bytes@) is None,
                Err(error) => parsed.decode_fault(bytes@) == Some(error),
            },
    {
        let text = parsed.to_json();
        match is_canonical(text.as_str(), bytes) {
            Err(_) => return Err(ExecutionReceiptRuntimeError::Json),
            Ok(canonical) => if !canonical {
                return Err(ExecutionReceiptRuntimeError::InvalidStartEvidence);
            },
        }
        if parsed.schema_version != EXECUTION_START_SCHEMA_VERSION || parsed.request_id.is_nil()
            || parsed.attempt_id.is_nil() || parsed.sequence == 0 || parsed.started_at_ms < 0
            || !is_bounded_token(parsed.step_id.as_str(), ByteClass::LowerToken, 1, 96) {
            return Err(ExecutionReceiptRuntimeError::InvalidStartEvidence);
        }
        match parsed.calculate_digest() {
            Err(error) => Err(error),
            Ok(digest) => if parsed.evidence_digest == digest {
                Ok(parsed)
            } else {
                Err(ExecutionReceiptRuntimeError::InvalidStartEvidence)
            },
        }
    }
}

/// What is found of the evidence that a step began: the bytes, and what they were read as.
#[derive(Debug)]
pub struct FoundStartEvidence {
    pub parsed: Option<ExecutionStartEvidenceV1>,
    pub bytes: Vec<u8>,
}

/// Whether a step began, given the evidence that is found of it.
pub fn execution_started(found: Option<FoundStartEvidence>) -> (r: Result<
    bool,
    ExecutionReceiptRuntimeError,
>)
    ensures
        match found {
            None => r == Ok::<_, ExecutionReceiptRuntimeError>(false),
            Some(found) => match found.parsed {
                None => r == Err::<bool, _>(ExecutionReceiptRuntimeError::Json),
                Some(parsed) => match parsed.decode_fault(found.bytes@) {
                    None => r == Ok::<_, ExecutionReceiptRuntimeError>(true),
                    Some(error) => r == Err::<bool, _>(error),
                },
            },
        },
{
    match found {
        None => Ok(false),
        Some(found) => match found.parsed {
            None => Err(ExecutionReceiptRuntimeError::Json),
            Some(parsed) => match ExecutionStartEvidenceV1::decode_canonical(
                parsed,
                found.bytes.as_slice(),
            ) {
                Err(error) => Err(error),
                Ok(_) => Ok(true),
            },
        },
    }
}

/// Why a step was ended.
#[derive(Clone, Copy, Debug, PartialEq, Eq, Hash, Structural)]
pub enum ExecutionTerminationKindV1 {
    Cancelled,
    DeadlineExceeded,
}

impl ExecutionTerminationKindV1 {
    /// The name in documents.
    pub open spec fn name(self) -> Seq<char> {
        match self {
            ExecutionTerminationKindV1::Cancelled => "cancelled"@,
            ExecutionTerminationKindV1::DeadlineExceeded => "deadline_exceeded"@,
        }
    }

    pub fn as_str(self) -> (r: &'static str)
        ensures
            r@ == self.name(),
    {
        match self {
            ExecutionTerminationKindV1::Cancelled => "cancelled",
            ExecutionTerminationKindV1::DeadlineExceeded => "deadline_exceeded",
        }
    }
}

/// The intent to end a step.
#[derive(Debug, PartialEq, Eq)]
pub struct ExecutionTerminationIntentV1 {
    pub schema_version: u16,
    pub attempt_id: Uuid,
    pub kind: ExecutionTerminationKindV1,
    pub recorded_at_ms: i64,
    pub intent_digest: EvidenceDigest,
}

impl ExecutionTerminationIntentV1 {
    /// The document as JSON text.
    pub open spec fn json(self) -> Seq<char> {
        let members = no_members()
            .push(("schema_version"@, json_nat(self.schema_version as nat)))
            .push(("attempt_id"@, json_string(self.attempt_id.text())))
            .push(("kind"@, json_string(self.kind.name())))
            .push(("recorded_at_ms"@, json_int(self.recorded_at_ms as int)))
            .push(("intent_digest"@, json_string(self.intent_digest@)));
        json_object(members)
    }

    pub fn to_json(&self) -> (r: String)
        ensures
            r@ == self.json(),
    {
        let mut object = JsonObject::new();
        object.number("schema_version", self.schema_version as u64);
        let attempt_id = self.attempt_id.to_text();
        object.text("attempt_id", attempt_id.as_str());
        object.text("kind", self.kind.as_str());
        object.signed("recorded_at_ms", self.recorded_at_ms);
        object.text("intent_digest", self.intent_digest.as_str());
        object.finish()
    }

    /// What the digest is taken over: the intent, and the beginning of the step that it ends.
    pub open spec fn sealed_json(self, start_evidence_digest: Seq<char>) -> Seq<char> {
        json_object(
            no_members().push(
                ("purpose"@, json_string("rdashboard.execution-termination-intent.v1"@)),
            ).push(("schema_version"@, json_nat(self.schema_version as nat))).push(
                ("attempt_id"@, json_string(self.attempt_id.text())),
            ).push(("kind"@, json_string(self.kind.name()))).push(
                ("recorded_at_ms"@, json_int(self.recorded_at_ms as int)),
            ).push(("start_evidence_digest"@, json_string(start_evidence_digest))),
        )
    }

    fn calculate_digest(&self, start_evidence_digest: &EvidenceDigest) -> (r: Result<
        EvidenceDigest,
        ExecutionReceiptRuntimeError,
    >)
        ensures
            match r {
                Ok(digest) => document_digest(self.sealed_json(start_evidence_digest@)) == Some(
                    digest@,
                ),
                Err(error) => error is Json && document_digest(
                    self.sealed_json(start_evidence_digest@),
                ) is None,
            },
    {
        let mut object = JsonObject::new();
        object.text("purpose", "rdashboard.execution-termination-intent.v1");
        object.number("schema_version", self.schema_version as u64);
        let attempt_id = self.attempt_id.to_text();
        object.text("attempt_id", attempt_id.as_str());
        object.text("kind", self.kind.as_str());
        object.signed("recorded_at_ms", self.recorded_at_ms);
        object.text("start_evidence_digest", start_evidence_digest.as_str());
        let text = object.finish();
        match digest_document(text.as_str()) {
            Ok(digest) => Ok(digest),
            Err(_) => Err(ExecutionReceiptRuntimeError::Json),
        }
    }

    /// The intent ends the step that began so, and not before it began.
    pub open spec fn ends(self, start: ExecutionStartEvidenceV1) -> bool {
        &&& self.schema_version == TERMINATION_INTENT_SCHEMA_VERSION
        &&& self.attempt_id == start.attempt_id
        &&& self.recorded_at_ms >= start.started_at_ms
    }

    pub open spec fn sealed_for(self, start: ExecutionStartEvidenceV1) -> bool {
        document_digest(self.sealed_json(start.evidence_digest@)) == Some(self.intent_digest@)
    }

    pub fn new(
        start: &ExecutionStartEvidenceV1,
        kind: ExecutionTerminationKindV1,
        recorded_at_ms: i64,
    ) -> (r: Result<ExecutionTerminationIntentV1, ExecutionReceiptRuntimeError>)
        ensures
            match r {
                Ok(intent) => {
                    &&& intent.ends(*start)
                    &&& intent.sealed_for(*start)
                    &&& intent.kind == kind
                    &&& intent.recorded_at_ms == recorded_at_ms
                },
                Err(error) => if recorded_at_ms < start.started_at_ms {
                    error is InvalidTerminationIntent
                } else {
                    error is Json && forall|intent: ExecutionTerminationIntentV1|
                        #[trigger] intent.ends(*start) && intent.kind == kind
                            && intent.recorded_at_ms == recorded_at_ms ==> document_digest(
                            intent.sealed_json(start.evidence_digest@),
                        ) is None
                },
            },
    {
        if recorded_at_ms < start.started_at_ms {
            return Err(ExecutionReceiptRuntimeError::InvalidTerminationIntent);
        }
        let mut intent = ExecutionTerminationIntentV1 {
            schema_version: TERMINATION_INTENT_SCHEMA_VERSION,
            attempt_id: start.attempt_id,
            kind,
            recorded_at_ms,
            intent_digest: EvidenceDigest::sha256(&[]),
        };
        match intent.calculate_digest(&start.evidence_digest) {
            Err(error) => Err(error),
            Ok(digest) => {
                intent.intent_digest = digest;
                Ok(intent)
            },
        }
    }

    /// What is wrong with the intent as that of a step.
    pub open spec fn fault_for(self, start: ExecutionStartEvidenceV1) -> Option<
        ExecutionReceiptRuntimeError,
    > {
        if !self.ends(start) {
            Some(ExecutionReceiptRuntimeError::InvalidTerminationIntent)
        } else if document_digest(self.sealed_json(start.evidence_digest@)) is None {
            Some(ExecutionReceiptRuntimeError::Json)
        } else if !self.sealed_for(start) {
            Some(ExecutionReceiptRuntimeError::InvalidTerminationIntent)
        } else {
            None
        }
    }

    pub fn validate_for(&self, start: &ExecutionStartEvidenceV1) -> (r: Result<
        (),
        ExecutionReceiptRuntimeError,
    >)
        ensures
            match r {
                Ok(()) => self.fault_for(*start) is None,
                Err(error) => self.fault_for(*start) == Some(error),
            },
    {
        if self.schema_version != TERMINATION_INTENT_SCHEMA_VERSION || self.attempt_id
            != start.attempt_id || self.recorded_at_ms < start.started_at_ms {
            return Err(ExecutionReceiptRuntimeError::InvalidTerminationIntent);
        }
        match self.calculate_digest(&start.evidence_digest) {
            Err(error) => Err(error),
            Ok(digest) => if self.intent_digest == digest {
                Ok(())
            } else {
                Err(ExecutionReceiptRuntimeError::InvalidTerminationIntent)
            },
        }
    }

    /// The canonical bytes of the intent to end a step.
    pub fn canonical_bytes(&self) -> (r: Result<Vec<u8>, ExecutionReceiptRuntimeError>)
        ensures
            match r {
                Ok(bytes) => jcs(self.json()) == Some(bytes@),
                Err(error) => error is Json && jcs(self.json()) is None,
            },
    {
        let text = self.to_json();
        match canonical_bytes(text.as_str()) {
            Ok(bytes) => Ok(bytes),
            Err(_) => Err(ExecutionReceiptRuntimeError::Json),
        }
    }

    /// What is wrong with bytes as this intent.
    pub open spec fn decode_fault(self, bytes: Seq<u8>, start: ExecutionStartEvidenceV1) -> Option<
        ExecutionReceiptRuntimeError,
    > {
        if jcs(self.json()) is None {
            Some(ExecutionReceiptRuntimeError::Json)
        } else if jcs(self.json()) != Some(bytes) {
            Some(ExecutionReceiptRuntimeError::InvalidTerminationIntent)
        } else {
            self.fault_for(start)
        }
    }

    /// Takes an intent that was read from some bytes, where the bytes are its canonical form.
    pub fn decode_canonical(
        parsed: ExecutionTerminationIntentV1,
        bytes: &[u8],
        start: &ExecutionStartEvidenceV1,
    ) -> (r: Result<ExecutionTerminationIntentV1, ExecutionReceiptRuntimeError>)
        ensures
            match r {
                Ok(intent) => intent == parsed && parsed.decode_fault(bytes@, *start) is None,
                Err(error) => parsed.decode_fault(bytes@, *start) == Some(error),
            },
    {
        let text = parsed.to_json();
        match is_canonical(text.as_str(), bytes) {
            Err(_) => return Err(ExecutionReceiptRuntimeError::Json),
            Ok(canonical) => if !canonical {
                return Err(ExecutionReceiptRuntimeError::InvalidTerminationIntent);
            },
        }
        match parsed.validate_for(start) {
            Err(error) => Err(error),
            Ok(()) => Ok(parsed),
        }
    }
}

/// What the service manager says of how a step ended.
#[derive(Clone, Debug, PartialEq, Eq)]
pub struct CaptureEnvironmentV1 {
    pub service_result: Option<String>,
    pub exit_code: Option<String>,
    pub exit_status: Option<String>,
}

impl Default for CaptureEnvironmentV1 {
    fn default() -> (r: CaptureEnvironmentV1)
        ensures
            r.service_result is None,
            r.exit_code is None,
            r.exit_status is None,
    {
        CaptureEnvironmentV1 { service_result: None, exit_code: None, exit_status: None }
    }
}

fn is_text(found: &Option<String>, expected: &str) -> (r: bool)
    ensures
        r == (text_option(*found) == Some(expected@)),
{
    match found {
        Some(found) => same_text(found.as_str(), expected),
        None => false,
    }
}

/// A character with its ASCII letter in lower case.
pub open spec fn lower(c: char) -> char {
    if 'A' <= c <= 'Z' {
        ((c as int) + 32) as char
    } else {
        c
    }
}

/// A text with its ASCII letters in lower case.
pub open spec fn lower_text(text: Seq<char>) -> Seq<char> {
    text.map_values(|c: char| lower(c))
}

fn lower_char(c: char) -> (r: char)
    ensures
        r == lower(c),
{
    if 'A' <= c && c <= 'Z' {
        (c as u8 + 32) as char
    } else {
        c
    }
}

fn to_lower_text(text: &str) -> (r: String)
    ensures
        r@ == lower_text(text@),
{
    let all = characters(text);
    let mut out = String::new();
    let mut i: usize = 0;
    assert(out@ =~= lower_text(text@.take(0)));
    while i < all.len()
        invariant
            i <= all.len(),
            all@ == text@,
            out@ == lower_text(text@.take(i as int)),
        decreases all.len() - i,
    {
        push_char(&mut out, lower_char(all[i]));
        i += 1;
        assert(out@ =~= lower_text(text@.take(i as int)));
    }
    assert(text@.take(i as int) =~= text@);
    out
}

/// The name of a signal: lowercase letters and digits.
pub open spec fn signal_name(text: Seq<char>) -> bool {
    &&& bounded_token(text, ByteClass::LowerToken, 1, 32)
    &&& forall|i: int| 0 <= i < text.len() ==> 'a' <= #[trigger] text[i] <= 'z' || '0' <= text[i] <= '9'
}

fn is_signal_name(text: &str) -> (r: bool)
    ensures
        r == signal_name(text@),
{
    if !is_bounded_token(text, ByteClass::LowerToken, 1, 32) {
        return false;
    }
    let all = characters(text);
    let mut i: usize = 0;
    while i < all.len()
        invariant
            i <= all.len(),
            all@ == text@,
            forall|k: int| 0 <= k < i ==> 'a' <= #[trigger] text@[k] <= 'z' || '0' <= text@[k] <= '9',
        decreases all.len() - i,
    {
        let c = all[i];
        if !(('a' <= c && c <= 'z') || ('0' <= c && c <= '9')) {
            assert(text@[i as int] == c);
            return false;
        }
        i += 1;
    }
    true
}

impl CaptureEnvironmentV1 {
    /// The code that the process exited with, where it exited and the code is no more than 31 bits.
    pub open spec fn exited_with(self) -> Option<u64> {
        if text_option(self.exit_code) == Some("exited"@) && self.exit_status is Some {
            match unsigned_of((self.exit_status->0)@) {
                Some(code) => if code <= i32::MAX {
                    Some(code)
                } else {
                    None
                },
                None => None,
            }
        } else {
            None
        }
    }

    /// The signal that the process was ended by.
    pub open spec fn ended_by(self) -> Option<Seq<char>> {
        if (text_option(self.exit_code) == Some("killed"@) || text_option(self.exit_code) == Some(
            "dumped"@,
        )) && self.exit_status is Some && signal_name(lower_text((self.exit_status->0)@)) {
            Some(lower_text((self.exit_status->0)@))
        } else {
            None
        }
    }

    /// The process ran out of memory, as the service manager or the kernel says.
    pub open spec fn ran_out_of_memory(self, resources: ExecutionResourceUsageV1) -> bool {
        text_option(self.service_result) == Some("oom-kill"@) || (
        resources.memory_events matches Some(events) && (events.oom_kill > 0 || events.oom_group_kill
            > 0))
    }

    /// How the step ended. What was intended goes before what the kernel says, and that before what
    /// the service manager says.
    pub open spec fn result(
        self,
        termination: Option<ExecutionTerminationKindV1>,
        resources: ExecutionResourceUsageV1,
    ) -> ExecutionResultV1 {
        match termination {
            Some(ExecutionTerminationKindV1::Cancelled) => ExecutionResultV1::Cancelled,
            Some(ExecutionTerminationKindV1::DeadlineExceeded) => ExecutionResultV1::TimedOut,
            None => if self.ran_out_of_memory(resources) {
                ExecutionResultV1::OomKilled
            } else if text_option(self.service_result) == Some("timeout"@) || text_option(
                self.service_result,
            ) == Some("watchdog"@) {
                ExecutionResultV1::TimedOut
            } else if text_option(self.service_result) == Some("success"@) {
                ExecutionResultV1::Succeeded
            } else {
                ExecutionResultV1::Failed
            },
        }
    }
}

impl CaptureEnvironmentV1 {
    /// An outcome tells how the step ended.
    pub open spec fn tells(
        self,
        termination: Option<ExecutionTerminationKindV1>,
        resources: ExecutionResourceUsageV1,
        outcome: ExecutionProcessOutcomeV1,
    ) -> bool {
        &&& outcome.result == self.result(termination, resources)
        &&& outcome.exit_code == if outcome.result is Succeeded {
            Some(0i32)
        } else {
            match self.exited_with() {
                Some(code) => if code == 0 {
                    None
                } else {
                    Some(code as i32)
                },
                None => None,
            }
        }
        &&& text_option(outcome.signal) == self.ended_by()
        &&& outcome.timed_out == (outcome.result is TimedOut)
        &&& outcome.oom_killed == (outcome.result is OomKilled)
    }
}

/// How a step ended.
pub fn classify_process(
    environment: &CaptureEnvironmentV1,
    termination: Option<ExecutionTerminationKindV1>,
    resources: &ExecutionResourceUsageV1,
) -> (r: ExecutionProcessOutcomeV1)
    ensures
        environment.tells(termination, *resources, r),
{
    let exit_code: Option<i32> = if is_text(&environment.exit_code, "exited") {
        match &environment.exit_status {
            None => None,
            Some(status) => match read_unsigned(status.as_str()) {
                Some(code) => if code <= i32::MAX as u64 {
                    Some(code as i32)
                } else {
                    None
                },
                None => None,
            },
        }
    } else {
        None
    };
    let signal: Option<String> = if is_text(&environment.exit_code, "killed") || is_text(
        &environment.exit_code,
        "dumped",
    ) {
        match &environment.exit_status {
            None => None,
            Some(status) => {
                let signal = to_lower_text(status.as_str());
                if is_signal_name(signal.as_str()) {
                    Some(signal)
                } else {
                    None
                }
            },
        }
    } else {
        None
    };
    let counted = match resources.memory_events {
        Some(events) => events.oom_kill > 0 || events.oom_group_kill > 0,
        None => false,
    };
    let result = match termination {
        Some(ExecutionTerminationKindV1::Cancelled) => ExecutionResultV1::Cancelled,
        Some(ExecutionTerminationKindV1::DeadlineExceeded) => ExecutionResultV1::TimedOut,
        None => if is_text(&environment.service_result, "oom-kill") || counted {
            ExecutionResultV1::OomKilled
        } else if is_text(&environment.service_result, "timeout") || is_text(
            &environment.service_result,
            "watchdog",
        ) {
            ExecutionResultV1::TimedOut
        } else if is_text(&environment.service_result, "success") {
            ExecutionResultV1::Succeeded
        } else {
            ExecutionResultV1::Failed
        },
    };
    let exit_code: Option<i32> = if result == ExecutionResultV1::Succeeded {
        Some(0)
    } else {
        match exit_code {
            Some(code) => if code == 0 {
                None
            } else {
                Some(code)
            },
            None => None,
        }
    };
    ExecutionProcessOutcomeV1 {
        result,
        exit_code,
        signal,
        timed_out: result == ExecutionResultV1::TimedOut,
        oom_killed: result == ExecutionResultV1::OomKilled,
    }
}

/// A record tells what a step left on disk, with the reserve where the size of the file system is
/// known.
pub open spec fn leaves_storage(
    scratch_before_bytes: Option<u64>,
    scratch_after_bytes: Option<u64>,
    available_bytes: Option<u64>,
    total_bytes: Option<u64>,
    storage: ExecutionStorageUsageV1,
) -> bool {
    &&& storage.scratch_before_bytes == scratch_before_bytes
    &&& storage.scratch_after_bytes == scratch_after_bytes
    &&& storage.scratch_peak_bytes is None
    &&& storage.cache_delta_bytes is None
    &&& storage.log_delta_bytes is None
    &&& storage.filesystem_available_after_bytes == available_bytes
    &&& match (available_bytes, total_bytes) {
        (Some(available), Some(total)) => {
            &&& storage.emergency_reserve_required_bytes == Some(recovery_reserve(total) as u64)
            &&& storage.emergency_reserve_remaining_bytes == Some(
                excess(available, recovery_reserve(total) as u64) as u64,
            )
            &&& storage.emergency_reserve_deficit_bytes == Some(
                excess(recovery_reserve(total) as u64, available) as u64,
            )
        },
        _ => {
            &&& storage.emergency_reserve_required_bytes is None
            &&& storage.emergency_reserve_remaining_bytes is None
            &&& storage.emergency_reserve_deficit_bytes is None
        },
    }
}

/// What a step left on disk, given what was measured before and after it.
pub fn storage_usage(
    scratch_before_bytes: Option<u64>,
    scratch_after_bytes: Option<u64>,
    available_bytes: Option<u64>,
    total_bytes: Option<u64>,
) -> (r: ExecutionStorageUsageV1)
    ensures
        leaves_storage(scratch_before_bytes, scratch_after_bytes, available_bytes, total_bytes, r),
        r.valid(),
{
    let (required, remaining, deficit) = match (available_bytes, total_bytes) {
        (Some(available), Some(total)) => {
            let required = recovery_reserve_bytes(total);
            (
                Some(required),
                Some(available.saturating_sub(required)),
                Some(required.saturating_sub(available)),
            )
        },
        _ => (None, None, None),
    };
    ExecutionStorageUsageV1 {
        scratch_before_bytes,
        scratch_after_bytes,
        scratch_peak_bytes: None,
        cache_delta_bytes: None,
        log_delta_bytes: None,
        filesystem_available_after_bytes: available_bytes,
        emergency_reserve_required_bytes: required,
        emergency_reserve_remaining_bytes: remaining,
        emergency_reserve_deficit_bytes: deficit,
    }
}

/// A receipt is of the step of a request that began so.
pub open spec fn bound_terminal(
    receipt: ExecutionTerminalReceiptV1,
    request: FixedAdapterRequestV1,
    start: ExecutionStartEvidenceV1,
) -> bool {
    &&& receipt.request_id == request.request_id
    &&& receipt.attempt_id == request.attempt_id
    &&& receipt.start_evidence_digest@ == start.evidence_digest@
    &&& receipt.project_id@ == request.project_id@
    &&& receipt.phase == request.phase
    &&& receipt.step_id@ == request.step_id@
    &&& receipt.sequence == request.sequence
}

pub fn validate_terminal_binding(
    receipt: &ExecutionTerminalReceiptV1,
    request: &FixedAdapterRequestV1,
    start: &ExecutionStartEvidenceV1,
) -> (r: Result<(), ExecutionReceiptRuntimeError>)
    ensures
        match r {
            Ok(()) => bound_terminal(*receipt, *request, *start),
            Err(error) => error is TerminalReceiptConflict && !bound_terminal(
                *receipt,
                *request,
                *start,
            ),
        },
{
    if receipt.request_id != request.request_id || receipt.attempt_id != request.attempt_id
        || receipt.start_evidence_digest != start.evidence_digest || receipt.project_id
        != request.project_id || receipt.phase != request.phase || !same_text(
        receipt.step_id.as_str(),
        request.step_id.as_str(),
    ) || receipt.sequence != request.sequence {
        return Err(ExecutionReceiptRuntimeError::TerminalReceiptConflict);
    }
    Ok(())
}

/// What the receipt of a step that ended is made from.
#[derive(Debug)]
pub struct CapturedMeasures {
    pub resources: ExecutionResourceUsageV1,
    pub scratch_after_bytes: Option<u64>,
    pub available_bytes: Option<u64>,
    pub total_bytes: Option<u64>,
}

impl CapturedMeasures {
    pub open spec fn leaves(
        self,
        start: ExecutionStartEvidenceV1,
        storage: ExecutionStorageUsageV1,
    ) -> bool {
        leaves_storage(
            start.scratch_before_bytes,
            self.scratch_after_bytes,
            self.available_bytes,
            self.total_bytes,
            storage,
        )
    }
}

/// Why a step has no receipt: it ended before it began, or a receipt of it has no canonical form or
/// is not valid.
pub open spec fn no_receipt(
    request: FixedAdapterRequestV1,
    start: ExecutionStartEvidenceV1,
    finished_at_ms: i64,
    process: ExecutionProcessOutcomeV1,
    resources: ExecutionResourceUsageV1,
    storage: ExecutionStorageUsageV1,
    error: ExecutionReceiptError,
) -> bool {
    if !ordered_times(start.started_at_ms, finished_at_ms) {
        error is InvalidDocument
    } else {
        forall|receipt: ExecutionTerminalReceiptV1| #[trigger]
            receipt.describes(
                request.request_id,
                request.attempt_id,
                start.evidence_digest,
                request.project_id,
                request.phase,
                request.step_id,
                request.sequence,
                start.started_at_ms,
                finished_at_ms,
                process,
                resources,
                storage,
            ) ==> if document_digest(receipt.sealed_json()) is None {
                error is CanonicalEncoding
            } else {
                error is InvalidDocument && !receipt.well_formed()
            }
    }
}

/// What keeps a receipt that is there from being the one of a step, or the step from having one.
pub open spec fn capture_fault(
    request: FixedAdapterRequestV1,
    start: ExecutionStartEvidenceV1,
    existing: Option<ExecutionTerminalReceiptV1>,
) -> Option<ExecutionReceiptRuntimeError> {
    if start.fault_for(request) is Some {
        start.fault_for(request)
    } else if existing matches Some(existing) && !bound_terminal(existing, request, start) {
        Some(ExecutionReceiptRuntimeError::TerminalReceiptConflict)
    } else {
        None
    }
}

/// The receipt of a step that ended: the one that is there, or one made from what was measured.
pub fn capture_terminal_receipt_in(
    request: &FixedAdapterRequestV1,
    start: &ExecutionStartEvidenceV1,
    existing: Option<ExecutionTerminalReceiptV1>,
    termination: Option<ExecutionTerminationKindV1>,
    environment: &CaptureEnvironmentV1,
    measures: &CapturedMeasures,
    finished_at_ms: i64,
) -> (r: Result<ExecutionTerminalReceiptV1, ExecutionReceiptRuntimeError>)
    ensures
        match r {
            Ok(receipt) => {
                &&& capture_fault(*request, *start, existing) is None
                &&& bound_terminal(receipt, *request, *start)
                &&& match existing {
                    Some(existing) => receipt == existing,
                    None => {
                        &&& receipt.fault() is None
                        &&& receipt.started_at_ms == start.started_at_ms
                        &&& receipt.finished_at_ms == finished_at_ms
                        &&& environment.tells(termination, measures.resources, receipt.process)
                        &&& receipt.resources == measures.resources
                        &&& measures.leaves(*start, receipt.storage)
                    },
                }
            },
            Err(error) => match capture_fault(*request, *start, existing) {
                Some(expected) => error == expected,
                None => existing is None && error is Receipt && exists|
                    process: ExecutionProcessOutcomeV1,
                    storage: ExecutionStorageUsageV1,
                | #[trigger]
                    environment.tells(termination, measures.resources, process)
                        && #[trigger] measures.leaves(*start, storage) && no_receipt(
                        *request,
                        *start,
                        finished_at_ms,
                        process,
                        measures.resources,
                        storage,
                        error->Receipt_0,
                    ),
            },
        },
{
    match start.validate_for(request) {
        Err(error) => return Err(error),
        Ok(()) => {},
    }
    match existing {
        Some(existing) => {
            match validate_terminal_binding(&existing, request, start) {
                Err(error) => Err(error),
                Ok(()) => Ok(existing),
            }
        },
        None => {
            let process = classify_process(environment, termination, &measures.resources);
            let storage = storage_usage(
                start.scratch_before_bytes,
                measures.scratch_after_bytes,
                measures.available_bytes,
                measures.total_bytes,
            );
            let ghost outcome = process;
            assert(environment.tells(termination, measures.resources, outcome));
            assert(measures.leaves(*start, storage));
            match ExecutionTerminalReceiptV1::new(
                request.request_id,
                request.attempt_id,
                start.evidence_digest.clone(),
                request.project_id.clone(),
                request.phase,
                request.step_id.clone(),
                request.sequence,
                start.started_at_ms,
                finished_at_ms,
                process,
                measures.resources,
                storage,
            ) {
                Err(error) => {
                    assert(no_receipt(
                        *request,
                        *start,
                        finished_at_ms,
                        outcome,
                        measures.resources,
                        storage,
                        error,
                    ));
                    Err(ExecutionReceiptRuntimeError::Receipt(error))
                },
                Ok(receipt) => Ok(receipt),
            }
        },
    }
}

/// A receipt of what was left of a step is the one of the receipt of its end.
pub open spec fn bound_cleanup(
    cleanup: ExecutionCleanupReceiptV1,
    terminal: ExecutionTerminalReceiptV1,
) -> bool {
    &&& cleanup.attempt_id == terminal.attempt_id
    &&& cleanup.terminal_receipt_digest@ == terminal.receipt_digest@
}

/// Takes the receipt that was read of what was left of a step.
pub fn read_cleanup_receipt(
    cleanup: ExecutionCleanupReceiptV1,
    terminal: &ExecutionTerminalReceiptV1,
) -> (r: Result<ExecutionCleanupReceiptV1, ExecutionReceiptRuntimeError>)
    ensures
        match r {
            Ok(receipt) => receipt == cleanup && bound_cleanup(cleanup, *terminal),
            Err(error) => error is CleanupReceiptConflict && !bound_cleanup(cleanup, *terminal),
        },
{
    if cleanup.attempt_id != terminal.attempt_id || cleanup.terminal_receipt_digest
        != terminal.receipt_digest {
        return Err(ExecutionReceiptRuntimeError::CleanupReceiptConflict);
    }
    Ok(cleanup)
}

/// A receipt tells whether the unit of a step was collected: nothing is left of one that was, and
/// one thing of one that was not.
pub open spec fn tells_cleanup(
    receipt: ExecutionCleanupReceiptV1,
    terminal: ExecutionTerminalReceiptV1,
    unit_collected: bool,
    available_bytes: Option<u64>,
    error_code: Option<String>,
    completed_at_ms: i64,
) -> bool {
    receipt.describes(
        terminal.attempt_id,
        terminal.receipt_digest,
        if unit_collected {
            ExecutionCleanupStateV1::Complete
        } else {
            ExecutionCleanupStateV1::Pending
        },
        unit_collected,
        None,
        if unit_collected {
            0u32
        } else {
            1u32
        },
        available_bytes,
        error_code,
        completed_at_ms,
    )
}

/// The receipt of what was left of a step: the one that is there, or one that says whether its unit
/// was collected.
pub fn materialize_cleanup_receipt(
    terminal: &ExecutionTerminalReceiptV1,
    existing: Option<ExecutionCleanupReceiptV1>,
    unit_collected: bool,
    available_bytes: Option<u64>,
    error_code: Option<String>,
    completed_at_ms: i64,
) -> (r: Result<ExecutionCleanupReceiptV1, ExecutionReceiptRuntimeError>)
    ensures
        match (existing, r) {
            (Some(existing), Ok(receipt)) => receipt == existing && bound_cleanup(
                existing,
                *terminal,
            ),
            (Some(existing), Err(error)) => error is CleanupReceiptConflict && !bound_cleanup(
                existing,
                *terminal,
            ),
            (None, Ok(receipt)) => {
                &&& bound_cleanup(receipt, *terminal)
                &&& receipt.fault() is None
                &&& tells_cleanup(
                    receipt,
                    *terminal,
                    unit_collected,
                    available_bytes,
                    error_code,
                    completed_at_ms,
                )
            },
            (None, Err(error)) => error is Receipt && forall|receipt: ExecutionCleanupReceiptV1| #[trigger]
                tells_cleanup(
                    receipt,
                    *terminal,
                    unit_collected,
                    available_bytes,
                    error_code,
                    completed_at_ms,
                ) ==> if document_digest(receipt.sealed_json()) is None {
                    error->Receipt_0 is CanonicalEncoding
                } else {
                    error->Receipt_0 is InvalidDocument && !receipt.well_formed()
                },
        },
{
    match existing {
        Some(existing) => read_cleanup_receipt(existing, terminal),
        None => {
            let state = if unit_collected {
                ExecutionCleanupStateV1::Complete
            } else {
                ExecutionCleanupStateV1::Pending
            };
            let remaining: u32 = if unit_collected {
                0
            } else {
                1
            };
            match ExecutionCleanupReceiptV1::new(
                terminal.attempt_id,
                terminal.receipt_digest.clone(),
                state,
                unit_collected,
                None,
                remaining,
                available_bytes,
                error_code,
                completed_at_ms,
            ) {
                Err(error) => Err(ExecutionReceiptRuntimeError::Receipt(error)),
                Ok(receipt) => Ok(receipt),
            }
        },
    }
}

/// What the file system says of a path.
#[derive(Clone, Copy, Debug, PartialEq, Eq, Structural)]
pub struct PathFacts {
    pub is_symlink: bool,
    pub is_file: bool,
    pub is_directory: bool,
    pub uid: u32,
    pub mode: u32,
    pub length: u64,
    pub device: u64,
    pub inode: u64,
}

impl PathFacts {
    /// A file of one owner, which no one else can use, and which is not empty or too large.
    pub open spec fn owner_only(self, required_uid: u32) -> bool {
        &&& !self.is_symlink
        &&& self.is_file
        &&& self.uid == required_uid
        &&& self.mode & 0o077 == 0
        &&& 0 < self.length <= MAX_RECEIPT_FILE_BYTES
    }

    pub fn is_owner_only(&self, required_uid: u32) -> (r: bool)
        ensures
            r == self.owner_only(required_uid),
    {
        !self.is_symlink && self.is_file && self.uid == required_uid && self.mode & 0o077 == 0
            && self.length > 0 && self.length <= MAX_RECEIPT_FILE_BYTES
    }

    /// A directory of one owner, which no one else can use.
    pub open spec fn private_directory(self, required_uid: u32) -> bool {
        &&& !self.is_symlink
        &&& self.is_directory
        &&& self.uid == required_uid
        &&& self.mode & 0o077 == 0
    }

    pub fn is_private_directory(&self, required_uid: u32) -> (r: bool)
        ensures
            r == self.private_directory(required_uid),
    {
        !self.is_symlink && self.is_directory && self.uid == required_uid && self.mode & 0o077 == 0
    }

    /// A file that was just written is the owner's alone.
    pub open spec fn written(self, required_uid: u32) -> bool {
        &&& !self.is_symlink
        &&& self.is_file
        &&& self.uid == required_uid
        &&& self.mode & 0o077 == 0
    }

    pub fn is_written(&self, required_uid: u32) -> (r: bool)
        ensures
            r == self.written(required_uid),
    {
        !self.is_symlink && self.is_file && self.uid == required_uid && self.mode & 0o077 == 0
    }

    /// The same thing, of the same length.
    pub open spec fn same_file(self, other: PathFacts) -> bool {
        &&& self.device == other.device
        &&& self.inode == other.inode
        &&& self.length == other.length
    }

    /// The same thing.
    pub open spec fn same_place(self, other: PathFacts) -> bool {
        self.device == other.device && self.inode == other.inode
    }
}

/// Whether a file can be read: it is owner only, and it is the same before, while and after it is
/// read.
pub fn check_owner_only_file(
    before: &PathFacts,
    opened: &PathFacts,
    after: &PathFacts,
    required_uid: u32,
) -> (r: Result<(), ExecutionReceiptRuntimeError>)
    ensures
        match r {
            Ok(()) => before.owner_only(required_uid) && before.same_file(*opened)
                && after.same_file(*opened) && !after.is_symlink,
            Err(error) => if !before.owner_only(required_uid) {
                error is UnsafeReceiptPath
            } else {
                error is ReceiptPathChanged && !(before.same_file(*opened) && after.same_file(
                    *opened,
                ) && !after.is_symlink)
            },
        },
{
    if !before.is_owner_only(required_uid) {
        return Err(ExecutionReceiptRuntimeError::UnsafeReceiptPath);
    }
    if opened.device != before.device || opened.inode != before.inode || opened.length
        != before.length {
        return Err(ExecutionReceiptRuntimeError::ReceiptPathChanged);
    }
    if after.is_symlink || after.device != opened.device || after.inode != opened.inode
        || after.length != opened.length {
        return Err(ExecutionReceiptRuntimeError::ReceiptPathChanged);
    }
    Ok(())
}

/// Whether a directory can be used: it is private, and it is the same before, while and after it is
/// opened.
pub fn check_private_directory(
    before: &PathFacts,
    opened: &PathFacts,
    after: &PathFacts,
    required_uid: u32,
) -> (r: Result<(), ExecutionReceiptRuntimeError>)
    ensures
        match r {
            Ok(()) => before.private_directory(required_uid) && before.same_place(*opened)
                && after.same_place(*opened) && !after.is_symlink,
            Err(error) => if !before.private_directory(required_uid) {
                error is UnsafeReceiptPath
            } else {
                error is ReceiptPathChanged && !(before.same_place(*opened) && after.same_place(
                    *opened,
                ) && !after.is_symlink)
            },
        },
{
    if !before.is_private_directory(required_uid) {
        return Err(ExecutionReceiptRuntimeError::UnsafeReceiptPath);
    }
    if after.is_symlink || before.device != opened.device || before.inode != opened.inode
        || after.device != opened.device || after.inode != opened.inode {
        return Err(ExecutionReceiptRuntimeError::ReceiptPathChanged);
    }
    Ok(())
}

/// Whether bytes can be written as a receipt.
pub fn check_receipt_size(bytes: &[u8]) -> (r: Result<(), ExecutionReceiptRuntimeError>)
    ensures
        match r {
            Ok(()) => 0 < bytes@.len() <= MAX_RECEIPT_FILE_BYTES,
            Err(error) => error is ReceiptTooLarge && !(0 < bytes@.len() <= MAX_RECEIPT_FILE_BYTES),
        },
{
    if bytes.len() == 0 || bytes.len() as u64 > MAX_RECEIPT_FILE_BYTES {
        return Err(ExecutionReceiptRuntimeError::ReceiptTooLarge);
    }
    Ok(())
}

/// A directory being measured: its files so far, and how many entries were seen.
#[derive(Clone, Copy, Debug, PartialEq, Eq, Structural)]
pub struct DirectoryMeasure {
    pub total_bytes: u64,
    pub entries: usize,
}

impl DirectoryMeasure {
    pub fn new() -> (r: DirectoryMeasure)
        ensures
            r == (DirectoryMeasure { total_bytes: 0, entries: 0 }),
    {
        DirectoryMeasure { total_bytes: 0, entries: 0 }
    }

    /// Whether a directory is not too deep to be measured.
    pub fn check_depth(depth: usize) -> (r: Result<(), ExecutionReceiptRuntimeError>)
        ensures
            match r {
                Ok(()) => depth <= MAX_DIRECTORY_DEPTH,
                Err(error) => error is DirectoryMeasurementBound && depth > MAX_DIRECTORY_DEPTH,
            },
    {
        if depth > MAX_DIRECTORY_DEPTH {
            Err(ExecutionReceiptRuntimeError::DirectoryMeasurementBound)
        } else {
            Ok(())
        }
    }

    /// What keeps an entry from being counted.
    pub open spec fn entry_fault(self, entry: PathFacts) -> Option<ExecutionReceiptRuntimeError> {
        if self.entries >= MAX_DIRECTORY_ENTRIES {
            Some(ExecutionReceiptRuntimeError::DirectoryMeasurementBound)
        } else if entry.is_symlink {
            Some(ExecutionReceiptRuntimeError::UnsafeReceiptPath)
        } else if !entry.is_directory && entry.is_file && self.total_bytes + entry.length > u64::MAX {
            Some(ExecutionReceiptRuntimeError::DirectoryMeasurementBound)
        } else {
            None
        }
    }

    /// Counts an entry, and tells whether it is a directory to be measured too.
    pub fn count(&mut self, entry: &PathFacts) -> (r: Result<bool, ExecutionReceiptRuntimeError>)
        ensures
            match r {
                Ok(descend) => {
                    &&& old(self).entry_fault(*entry) is None
                    &&& descend == entry.is_directory
                    &&& final(self).entries == old(self).entries + 1
                    &&& final(self).total_bytes == old(self).total_bytes + if !entry.is_directory
                        && entry.is_file {
                        entry.length as int
                    } else {
                        0
                    }
                },
                Err(error) => old(self).entry_fault(*entry) == Some(error),
            },
    {
        if self.entries >= MAX_DIRECTORY_ENTRIES {
            return Err(ExecutionReceiptRuntimeError::DirectoryMeasurementBound);
        }
        self.entries = self.entries + 1;
        if entry.is_symlink {
            return Err(ExecutionReceiptRuntimeError::UnsafeReceiptPath);
        }
        if entry.is_directory {
            return Ok(true);
        }
        if entry.is_file {
            match self.total_bytes.checked_add(entry.length) {
                None => return Err(ExecutionReceiptRuntimeError::DirectoryMeasurementBound),
                Some(total_bytes) => {
                    self.total_bytes = total_bytes;
                },
            }
        }
        Ok(false)
    }
}

/// What a step is said to have ended as agrees with itself, unless the service manager calls success
/// what a signal ended.
pub proof fn law_outcomes_agree_with_their_results(
    environment: CaptureEnvironmentV1,
    termination: Option<ExecutionTerminationKindV1>,
    resources: ExecutionResourceUsageV1,
    outcome: ExecutionProcessOutcomeV1,
)
    requires
        environment.tells(termination, resources, outcome),
        outcome.result is Succeeded ==> environment.ended_by() is None,
    ensures
        outcome.valid(),
{
}

/// A step is said to have succeeded exactly where the service manager says so, nothing was intended
/// and no process was killed for want of memory. One that exited with a code other than zero keeps
/// that code, and is said to have failed where the service manager says `exit-code`.
pub proof fn law_only_success_is_told_as_success(
    environment: CaptureEnvironmentV1,
    termination: Option<ExecutionTerminationKindV1>,
    resources: ExecutionResourceUsageV1,
    outcome: ExecutionProcessOutcomeV1,
)
    requires
        call_ensures(classify_process, (&environment, termination, &resources), outcome),
    ensures
        outcome.result is Succeeded <==> {
            &&& environment.service_result matches Some(said) && said@ == "success"@
            &&& termination is None
            &&& resources.memory_events matches Some(events) ==> events.oom_kill == 0
                && events.oom_group_kill == 0
        },
        outcome.result is Succeeded ==> outcome.exit_code == Some(0i32) && !outcome.timed_out
            && !outcome.oom_killed,
        environment.service_result is None && termination is None && resources.memory_events is None
            ==> outcome.result is Failed,
        (environment.service_result matches Some(said) && said@ == "exit-code"@) && termination is None
            && resources.memory_events is None ==> outcome.result is Failed,
        (environment.exit_code matches Some(how) && how@ == "exited"@) && (
        environment.exit_status matches Some(status) && unsigned_of(status@) matches Some(code)
            && 0 < code <= i32::MAX) && !(outcome.result is Succeeded) ==> outcome.exit_code == Some(
            unsigned_of((environment.exit_status->0)@)->0 as i32,
        ),
        outcome.exit_code matches Some(code) ==> code >= 0 && (code == 0
            <==> outcome.result is Succeeded),
        !(environment.exit_code matches Some(how) && how@ == "exited"@) && !(
        outcome.result is Succeeded) ==> outcome.exit_code is None,
{
    lemma_service_results();
}

proof fn lemma_service_results()
    ensures
        "success"@ != "oom-kill"@,
        "success"@ != "timeout"@,
        "success"@ != "watchdog"@,
        "success"@ != "exit-code"@,
        "exit-code"@ != "oom-kill"@,
        "exit-code"@ != "timeout"@,
        "exit-code"@ != "watchdog"@,
        "oom-kill"@ != "timeout"@,
        "oom-kill"@ != "watchdog"@,
        "exited"@ != "killed"@,
        "exited"@ != "dumped"@,
{
    reveal_strlit("success");
    reveal_strlit("oom-kill");
    reveal_strlit("timeout");
    reveal_strlit("watchdog");
    reveal_strlit("exit-code");
    reveal_strlit("exited");
    reveal_strlit("killed");
    reveal_strlit("dumped");
    assert("success"@[0] == 's' && "oom-kill"@[0] == 'o' && "timeout"@[0] == 't');
    assert("watchdog"@[0] == 'w' && "exit-code"@[0] == 'e');
    assert("exited"@[0] == 'e' && "killed"@[0] == 'k' && "dumped"@[0] == 'd');
}

/// A step that was cancelled, that ran past its deadline, that the kernel or the service manager
/// killed for want of memory, or that the service manager stopped for its time, is told as just
/// that, in this order; every other step that did not succeed is told as failed.
pub proof fn law_ends_are_told_in_order(
    environment: CaptureEnvironmentV1,
    termination: Option<ExecutionTerminationKindV1>,
    resources: ExecutionResourceUsageV1,
    outcome: ExecutionProcessOutcomeV1,
)
    requires
        call_ensures(classify_process, (&environment, termination, &resources), outcome),
    ensures
        outcome.result is Cancelled <==> termination == Some(ExecutionTerminationKindV1::Cancelled),
        termination == Some(ExecutionTerminationKindV1::DeadlineExceeded) ==> outcome.result is TimedOut,
        outcome.result is OomKilled <==> termination is None && ((
        environment.service_result matches Some(said) && said@ == "oom-kill"@) || (
        resources.memory_events matches Some(events) && (events.oom_kill > 0
            || events.oom_group_kill > 0))),
        outcome.result is TimedOut && termination is None ==> (
        environment.service_result matches Some(said) && (said@ == "timeout"@ || said@
            == "watchdog"@)),
        (environment.service_result matches Some(said) && (said@ == "timeout"@ || said@
            == "watchdog"@)) && termination is None && resources.memory_events is None
            ==> outcome.result is TimedOut,
        outcome.timed_out == (outcome.result is TimedOut),
        outcome.oom_killed == (outcome.result is OomKilled),
{
    lemma_service_results();
}

/// A signal is told exactly where the process was killed or dumped core by one, in lower case.
pub proof fn law_signals_are_told_of_killed_processes(
    environment: CaptureEnvironmentV1,
    termination: Option<ExecutionTerminationKindV1>,
    resources: ExecutionResourceUsageV1,
    outcome: ExecutionProcessOutcomeV1,
)
    requires
        call_ensures(classify_process, (&environment, termination, &resources), outcome),
    ensures
        outcome.signal is Some ==> (environment.exit_code matches Some(how) && (how@ == "killed"@
            || how@ == "dumped"@)),
        outcome.signal matches Some(signal) ==> {
            &&& environment.exit_status is Some
            &&& signal@.len() == (environment.exit_status->0)@.len()
            &&& 1 <= utf8(signal@).len() <= 32
            &&& forall|i: int|
                0 <= i < signal@.len() ==> {
                    let c = #[trigger] signal@[i];
                    let told = (environment.exit_status->0)@[i];
                    &&& 'a' <= c <= 'z' || '0' <= c <= '9'
                    &&& c == told || c as int == told as int + 32
                }
        },
        (environment.exit_code matches Some(how) && (how@ == "killed"@ || how@ == "dumped"@)) && (
        environment.exit_status matches Some(status) && signal_name(status@)) ==> text_option(
            outcome.signal,
        ) == Some((environment.exit_status->0)@),
{
    lemma_service_results();
    if environment.exit_status is Some {
        let status = (environment.exit_status->0)@;
        if signal_name(status) {
            assert(lower_text(status) =~= status);
        }
        assert forall|i: int| 0 <= i < status.len() implies #[trigger] lower_text(status)[i]
            == lower(status[i]) by {}
    }
}

/// What was intended decides how a step is said to have ended, whatever else is said of it.
pub proof fn law_intents_decide_results(
    environment: CaptureEnvironmentV1,
    resources: ExecutionResourceUsageV1,
)
    ensures
        environment.result(Some(ExecutionTerminationKindV1::Cancelled), resources) is Cancelled,
        environment.result(Some(ExecutionTerminationKindV1::DeadlineExceeded), resources)
            is TimedOut,
{
}

/// A receipt that is there is given again, whatever was measured since, and one that another
/// beginning led to is not.
pub proof fn law_captured_receipts_are_replayed(
    request: FixedAdapterRequestV1,
    start: ExecutionStartEvidenceV1,
    other: ExecutionStartEvidenceV1,
    receipt: ExecutionTerminalReceiptV1,
)
    requires
        start.fault_for(request) is None,
        other.fault_for(request) is None,
        bound_terminal(receipt, request, start),
    ensures
        capture_fault(request, start, Some(receipt)) is None,
        other.evidence_digest@ != start.evidence_digest@ ==> capture_fault(
            request,
            other,
            Some(receipt),
        ) == Some(ExecutionReceiptRuntimeError::TerminalReceiptConflict),
{
}

/// What is told of the reserve after a step is that of the file system it ran on: what is required is
/// what is kept for recovery, and what remains and what is missing make up the difference to what is
/// available. Where the file system was not measured, nothing is told of it.
pub proof fn law_reserve_is_told_of_measured_disks(
    scratch_before_bytes: Option<u64>,
    scratch_after_bytes: Option<u64>,
    available_bytes: Option<u64>,
    total_bytes: Option<u64>,
    reserve: u64,
    storage: ExecutionStorageUsageV1,
)
    requires
        call_ensures(
            storage_usage,
            (scratch_before_bytes, scratch_after_bytes, available_bytes, total_bytes),
            storage,
        ),
        total_bytes is Some ==> call_ensures(recovery_reserve_bytes, (total_bytes->0,), reserve),
    ensures
        storage.scratch_before_bytes == scratch_before_bytes,
        storage.scratch_after_bytes == scratch_after_bytes,
        storage.filesystem_available_after_bytes == available_bytes,
        storage.emergency_reserve_required_bytes is Some <==> available_bytes is Some
            && total_bytes is Some,
        available_bytes is Some && total_bytes is Some ==> {
            &&& storage.emergency_reserve_required_bytes == Some(reserve)
            &&& storage.emergency_reserve_remaining_bytes is Some
            &&& storage.emergency_reserve_deficit_bytes is Some
            &&& available_bytes->0 + storage.emergency_reserve_deficit_bytes->0 == reserve
                + storage.emergency_reserve_remaining_bytes->0
            &&& storage.emergency_reserve_deficit_bytes->0 == 0
                || storage.emergency_reserve_remaining_bytes->0 == 0
        },
{
}

/// A receipt of a step is of the very request and beginning that it is captured for, and tells what
/// became of the process, what it used and what it left, as each is told by itself. One that was
/// captured before is given again.
pub proof fn law_captures_tell_what_became_of_the_step(
    request: FixedAdapterRequestV1,
    start: ExecutionStartEvidenceV1,
    existing: Option<ExecutionTerminalReceiptV1>,
    termination: Option<ExecutionTerminationKindV1>,
    environment: CaptureEnvironmentV1,
    measures: CapturedMeasures,
    finished_at_ms: i64,
    receipt: ExecutionTerminalReceiptV1,
    process: ExecutionProcessOutcomeV1,
    storage: ExecutionStorageUsageV1,
)
    requires
        call_ensures(
            capture_terminal_receipt_in,
            (&request, &start, existing, termination, &environment, &measures, finished_at_ms),
            Ok::<_, ExecutionReceiptRuntimeError>(receipt),
        ),
        call_ensures(classify_process, (&environment, termination, &measures.resources), process),
        call_ensures(
            storage_usage,
            (
                start.scratch_before_bytes,
                measures.scratch_after_bytes,
                measures.available_bytes,
                measures.total_bytes,
            ),
            storage,
        ),
    ensures
        receipt.request_id == request.request_id,
        receipt.attempt_id == request.attempt_id,
        receipt.start_evidence_digest@ == start.evidence_digest@,
        receipt.project_id@ == request.project_id@,
        receipt.phase == request.phase,
        receipt.step_id@ == request.step_id@,
        receipt.sequence == request.sequence,
        existing is Some ==> existing == Some(receipt),
        existing is None ==> {
            &&& receipt.started_at_ms == start.started_at_ms
            &&& receipt.finished_at_ms == finished_at_ms
            &&& receipt.resources == measures.resources
            &&& receipt.storage == storage
            &&& receipt.process.result == process.result
            &&& receipt.process.exit_code == process.exit_code
            &&& text_option(receipt.process.signal) == text_option(process.signal)
            &&& receipt.process.timed_out == process.timed_out
            &&& receipt.process.oom_killed == process.oom_killed
        },
{
}

/// A cleanup is told of the step that it cleaned up after: complete with nothing left where the unit
/// was collected, and otherwise pending with something left.
pub proof fn law_cleanups_are_told_of_their_step(
    terminal: ExecutionTerminalReceiptV1,
    unit_collected: bool,
    available_bytes: Option<u64>,
    error_code: Option<String>,
    completed_at_ms: i64,
    receipt: ExecutionCleanupReceiptV1,
)
    requires
        tells_cleanup(
            receipt,
            terminal,
            unit_collected,
            available_bytes,
            error_code,
            completed_at_ms,
        ),
    ensures
        receipt.attempt_id == terminal.attempt_id,
        receipt.terminal_receipt_digest@ == terminal.receipt_digest@,
        receipt.unit_collected == unit_collected,
        receipt.state is Complete <==> unit_collected,
        receipt.remaining_transient_items == 0 <==> unit_collected,
        receipt.filesystem_available_after_bytes == available_bytes,
        receipt.error_code == error_code,
        receipt.completed_at_ms == completed_at_ms,
        receipt.scratch_removed_bytes is None,
{
}

/// A cleanup that was told before is taken again where it is of the same step, and refused where it
/// is not.
pub proof fn law_cleanups_are_taken_of_their_step(
    terminal: ExecutionTerminalReceiptV1,
    cleanup: ExecutionCleanupReceiptV1,
    r: Result<ExecutionCleanupReceiptV1, ExecutionReceiptRuntimeError>,
)
    requires
        call_ensures(read_cleanup_receipt, (cleanup, &terminal), r),
    ensures
        r is Ok <==> cleanup.attempt_id == terminal.attempt_id && cleanup.terminal_receipt_digest@
            == terminal.receipt_digest@,
        r is Ok ==> r->Ok_0 == cleanup,
{
}

/// A file is read only where it is a file of the right owner that no one else can read or write, not
/// empty and not too large, and the very one that was looked at before and after.
pub proof fn law_files_are_private_and_unchanged(
    before: PathFacts,
    opened: PathFacts,
    after: PathFacts,
    required_uid: u32,
    r: Result<(), ExecutionReceiptRuntimeError>,
)
    requires
        call_ensures(check_owner_only_file, (&before, &opened, &after, required_uid), r),
    ensures
        r is Ok <==> {
            &&& !before.is_symlink && before.is_file && !after.is_symlink
            &&& before.uid == required_uid
            &&& before.mode & 0o077 == 0
            &&& 0 < before.length <= 262_144
            &&& before.device == opened.device == after.device
            &&& before.inode == opened.inode == after.inode
            &&& before.length == opened.length == after.length
        },
{
}

/// A directory is used only where it is one of the right owner that no one else can enter, and the
/// very one that was looked at before and after.
pub proof fn law_directories_are_private_and_unchanged(
    before: PathFacts,
    opened: PathFacts,
    after: PathFacts,
    required_uid: u32,
    r: Result<(), ExecutionReceiptRuntimeError>,
)
    requires
        call_ensures(check_private_directory, (&before, &opened, &after, required_uid), r),
    ensures
        r is Ok <==> {
            &&& !before.is_symlink && before.is_directory && !after.is_symlink
            &&& before.uid == required_uid
            &&& before.mode & 0o077 == 0
            &&& before.device == opened.device == after.device
            &&& before.inode == opened.inode == after.inode
        },
{
}

/// An intent to end a step is accepted only of the step that it was sealed for, and not from before
/// the step began.
pub proof fn law_intents_end_their_own_step(
    intent: ExecutionTerminationIntentV1,
    start: ExecutionStartEvidenceV1,
    r: Result<(), ExecutionReceiptRuntimeError>,
)
    requires
        call_ensures(ExecutionTerminationIntentV1::validate_for, (&intent, &start), r),
    ensures
        r is Ok ==> {
            &&& intent.schema_version == 1
            &&& intent.attempt_id == start.attempt_id
            &&& intent.recorded_at_ms >= start.started_at_ms
            &&& document_digest(intent.sealed_json(start.evidence_digest@)) == Some(
                intent.intent_digest@,
            )
        },
{
}

/// What was found before a step is taken only by the step that it was found for.
pub proof fn law_start_evidence_is_of_its_step(
    start: ExecutionStartEvidenceV1,
    request: FixedAdapterRequestV1,
)
    requires
        call_ensures(
            ExecutionStartEvidenceV1::validate_for,
            (&start, &request),
            Ok::<(), ExecutionReceiptRuntimeError>(()),
        ),
    ensures
        start.request_id == request.request_id,
        start.attempt_id == request.attempt_id,
        start.project_id@ == request.project_id@,
        start.phase == request.phase,
        start.step_id@ == request.step_id@,
        start.sequence == request.sequence,
        start.started_at_ms >= 0,
{
}

/// A receipt is taken for a step just if it names the request, the attempt, the project, the phase, the
/// step and its place, and what was found before it.
pub proof fn law_terminal_receipts_are_of_their_step(
    receipt: ExecutionTerminalReceiptV1,
    request: FixedAdapterRequestV1,
    start: ExecutionStartEvidenceV1,
    r: Result<(), ExecutionReceiptRuntimeError>,
)
    requires
        call_ensures(validate_terminal_binding, (&receipt, &request, &start), r),
    ensures
        r is Ok <==> {
            &&& receipt.request_id == request.request_id
            &&& receipt.attempt_id == request.attempt_id
            &&& receipt.project_id@ == request.project_id@
            &&& receipt.phase == request.phase
            &&& receipt.step_id@ == request.step_id@
            &&& receipt.sequence == request.sequence
            &&& receipt.start_evidence_digest@ == start.evidence_digest@
        },
{
}

/// A step has started just if there is readable evidence of its start; unreadable evidence is an error
/// and never the absence of a start.
pub proof fn law_unreadable_starts_are_not_absent(
    found: Option<FoundStartEvidence>,
    r: Result<bool, ExecutionReceiptRuntimeError>,
)
    requires
        call_ensures(execution_started, (found,), r),
    ensures
        r == Ok::<bool, ExecutionReceiptRuntimeError>(false) <==> found is None,
        r == Ok::<bool, ExecutionReceiptRuntimeError>(true) ==> found is Some && found->0.parsed
            is Some,
{
}

/// A receipt has something in it and fits its file, and a tree is measured thirty-two levels deep at
/// most.
pub proof fn law_receipts_and_trees_are_bounded(
    bytes: &[u8],
    fits: Result<(), ExecutionReceiptRuntimeError>,
    depth: usize,
    goes_on: Result<(), ExecutionReceiptRuntimeError>,
)
    requires
        call_ensures(check_receipt_size, (bytes,), fits),
        call_ensures(DirectoryMeasure::check_depth, (depth,), goes_on),
    ensures
        fits is Ok <==> 0 < bytes@.len() <= 262_144,
        goes_on is Ok <==> depth <= 32,
{
}

} // verus!
