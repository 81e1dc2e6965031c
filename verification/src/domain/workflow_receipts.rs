//! Receipts of a workflow: what became of a node, that its traces were removed, and what the
//! controller reduced.

use vstd::prelude::*;
use super::identifiers::{
    digest_document, digest_option, digest_str, document_digest, EvidenceDigest, GitCommitId,
    ProjectId,
};
use super::workflow::{
    is_workflow_token, strictly_ordered, workflow_token, WorkflowContractError, WorkflowNodeId,
    WorkflowNodeKindV1, WORKFLOW_CLEANUP_RECEIPT_SCHEMA_VERSION,
    WORKFLOW_NODE_RECEIPT_SCHEMA_VERSION, WORKFLOW_REDUCTION_RECEIPT_SCHEMA_VERSION,
};
use super::workflow_lease::WorkflowLeaseV1;
use crate::json::{
    canonical_bytes, is_canonical, jcs, json_array, json_int, json_nat, json_object,
    json_optional_string, json_string, no_members, JsonArray, JsonObject,
};
use crate::text::{
    is_text_before, lemma_text_before_asymmetric, lemma_text_not_before_transitive, same_text,
    text_before,
};
use crate::unique_id::Uuid;

verus! {

/// What became of a node.
#[derive(Clone, Copy, Debug, PartialEq, Eq, Hash, Structural)]
pub enum WorkflowNodeOutcomeV1 {
    Succeeded,
    Failed,
}

impl WorkflowNodeOutcomeV1 {
    /// The name in documents.
    pub open spec fn name(self) -> Seq<char> {
        match self {
            WorkflowNodeOutcomeV1::Succeeded => "succeeded"@,
            WorkflowNodeOutcomeV1::Failed => "failed"@,
        }
    }

    pub fn as_str(self) -> (r: &'static str)
        ensures
            r@ == self.name(),
    {
        match self {
            WorkflowNodeOutcomeV1::Succeeded => "succeeded",
            WorkflowNodeOutcomeV1::Failed => "failed",
        }
    }
}

/// Whether the traces of a node are removed.
#[derive(Clone, Copy, Debug, PartialEq, Eq, Hash, Structural)]
pub enum WorkflowCleanupResultV1 {
    Complete,
    Pending,
}

impl WorkflowCleanupResultV1 {
    /// The name in documents.
    pub open spec fn name(self) -> Seq<char> {
        match self {
            WorkflowCleanupResultV1::Complete => "complete"@,
            WorkflowCleanupResultV1::Pending => "pending"@,
        }
    }

    pub fn as_str(self) -> (r: &'static str)
        ensures
            r@ == self.name(),
    {
        match self {
            WorkflowCleanupResultV1::Complete => "complete",
            WorkflowCleanupResultV1::Pending => "pending",
        }
    }
}

/// What became of a node, sealed by a digest.
#[derive(Clone, Debug, PartialEq, Eq)]
pub struct WorkflowNodeReceiptV1 {
    pub schema_version: u16,
    pub lease_digest: EvidenceDigest,
    pub lease_id: Uuid,
    pub lease_generation: u32,
    pub request_id: Uuid,
    pub attempt_id: Uuid,
    pub project_id: ProjectId,
    pub source_sha: GitCommitId,
    pub workflow_policy_digest: EvidenceDigest,
    pub preparation_key: EvidenceDigest,
    pub node_id: WorkflowNodeId,
    pub node_kind: WorkflowNodeKindV1,
    pub worker_id: String,
    pub host_id: String,
    pub expected_input_digest: EvidenceDigest,
    pub outcome: WorkflowNodeOutcomeV1,
    pub output_digest: Option<EvidenceDigest>,
    pub execution_receipt_digest: EvidenceDigest,
    pub cleanup_receipt_digest: EvidenceDigest,
    pub cleanup_result: WorkflowCleanupResultV1,
    pub completed_at_ms: i64,
    pub receipt_digest: EvidenceDigest,
}

impl WorkflowNodeReceiptV1 {
    /// The document as JSON text.
    pub open spec fn json(self) -> Seq<char> {
        let members = no_members()
            .push(("schema_version"@, json_nat(self.schema_version as nat)))
            .push(("lease_digest"@, json_string(self.lease_digest@)))
            .push(("lease_id"@, json_string(self.lease_id.text())))
            .push(("lease_generation"@, json_nat(self.lease_generation as nat)))
            .push(("request_id"@, json_string(self.request_id.text())))
            .push(("attempt_id"@, json_string(self.attempt_id.text())))
            .push(("project_id"@, json_string(self.project_id@)))
            .push(("source_sha"@, json_string(self.source_sha@)))
            .push(("workflow_policy_digest"@, json_string(self.workflow_policy_digest@)))
            .push(("preparation_key"@, json_string(self.preparation_key@)))
            .push(("node_id"@, json_string(self.node_id@)))
            .push(("node_kind"@, json_string(self.node_kind.name())))
            .push(("worker_id"@, json_string(self.worker_id@)))
            .push(("host_id"@, json_string(self.host_id@)))
            .push(("expected_input_digest"@, json_string(self.expected_input_digest@)))
            .push(("outcome"@, json_string(self.outcome.name())))
            .push(("output_digest"@, json_optional_string(digest_option(self.output_digest))))
            .push(("execution_receipt_digest"@, json_string(self.execution_receipt_digest@)))
            .push(("cleanup_receipt_digest"@, json_string(self.cleanup_receipt_digest@)))
            .push(("cleanup_result"@, json_string(self.cleanup_result.name())))
            .push(("completed_at_ms"@, json_int(self.completed_at_ms as int)))
            .push(("receipt_digest"@, json_string(self.receipt_digest@)));
        json_object(members)
    }

    pub fn to_json(&self) -> (r: String)
        ensures
            r@ == self.json(),
    {
        let mut object = JsonObject::new();
        object.number("schema_version", self.schema_version as u64);
        object.text("lease_digest", self.lease_digest.as_str());
        let lease_id = self.lease_id.to_text();
        object.text("lease_id", lease_id.as_str());
        object.number("lease_generation", self.lease_generation as u64);
        let request_id = self.request_id.to_text();
        object.text("request_id", request_id.as_str());
        let attempt_id = self.attempt_id.to_text();
        object.text("attempt_id", attempt_id.as_str());
        object.text("project_id", self.project_id.as_str());
        object.text("source_sha", self.source_sha.as_str());
        object.text("workflow_policy_digest", self.workflow_policy_digest.as_str());
        object.text("preparation_key", self.preparation_key.as_str());
        object.text("node_id", self.node_id.as_str());
        object.text("node_kind", self.node_kind.as_str());
        object.text("worker_id", self.worker_id.as_str());
        object.text("host_id", self.host_id.as_str());
        object.text("expected_input_digest", self.expected_input_digest.as_str());
        object.text("outcome", self.outcome.as_str());
        object.optional_text("output_digest", digest_str(&self.output_digest));
        object.text("execution_receipt_digest", self.execution_receipt_digest.as_str());
        object.text("cleanup_receipt_digest", self.cleanup_receipt_digest.as_str());
        object.text("cleanup_result", self.cleanup_result.as_str());
        object.signed("completed_at_ms", self.completed_at_ms);
        object.text("receipt_digest", self.receipt_digest.as_str());
        object.finish()
    }

    /// What the digest is taken over.
    pub open spec fn sealed_json(self) -> Seq<char> {
        let members = no_members()
            .push(("purpose"@, json_string("rdashboard.workflow-node-receipt.v1"@)))
            .push(("schema_version"@, json_nat(self.schema_version as nat)))
            .push(("lease_digest"@, json_string(self.lease_digest@)))
            .push(("lease_id"@, json_string(self.lease_id.text())))
            .push(("lease_generation"@, json_nat(self.lease_generation as nat)))
            .push(("request_id"@, json_string(self.request_id.text())))
            .push(("attempt_id"@, json_string(self.attempt_id.text())))
            .push(("project_id"@, json_string(self.project_id@)))
            .push(("source_sha"@, json_string(self.source_sha@)))
            .push(("workflow_policy_digest"@, json_string(self.workflow_policy_digest@)))
            .push(("preparation_key"@, json_string(self.preparation_key@)))
            .push(("node_id"@, json_string(self.node_id@)))
            .push(("node_kind"@, json_string(self.node_kind.name())))
            .push(("worker_id"@, json_string(self.worker_id@)))
            .push(("host_id"@, json_string(self.host_id@)))
            .push(("expected_input_digest"@, json_string(self.expected_input_digest@)))
            .push(("outcome"@, json_string(self.outcome.name())))
            .push(("output_digest"@, json_optional_string(digest_option(self.output_digest))))
            .push(("execution_receipt_digest"@, json_string(self.execution_receipt_digest@)))
            .push(("cleanup_receipt_digest"@, json_string(self.cleanup_receipt_digest@)))
            .push(("cleanup_result"@, json_string(self.cleanup_result.name())))
            .push(("completed_at_ms"@, json_int(self.completed_at_ms as int)));
        json_object(members)
    }

    fn to_sealed_json(&self) -> (r: String)
        ensures
            r@ == self.sealed_json(),
    {
        let mut object = JsonObject::new();
        object.text("purpose", "rdashboard.workflow-node-receipt.v1");
        object.number("schema_version", self.schema_version as u64);
        object.text("lease_digest", self.lease_digest.as_str());
        let lease_id = self.lease_id.to_text();
        object.text("lease_id", lease_id.as_str());
        object.number("lease_generation", self.lease_generation as u64);
        let request_id = self.request_id.to_text();
        object.text("request_id", request_id.as_str());
        let attempt_id = self.attempt_id.to_text();
        object.text("attempt_id", attempt_id.as_str());
        object.text("project_id", self.project_id.as_str());
        object.text("source_sha", self.source_sha.as_str());
        object.text("workflow_policy_digest", self.workflow_policy_digest.as_str());
        object.text("preparation_key", self.preparation_key.as_str());
        object.text("node_id", self.node_id.as_str());
        object.text("node_kind", self.node_kind.as_str());
        object.text("worker_id", self.worker_id.as_str());
        object.text("host_id", self.host_id.as_str());
        object.text("expected_input_digest", self.expected_input_digest.as_str());
        object.text("outcome", self.outcome.as_str());
        object.optional_text("output_digest", digest_str(&self.output_digest));
        object.text("execution_receipt_digest", self.execution_receipt_digest.as_str());
        object.text("cleanup_receipt_digest", self.cleanup_receipt_digest.as_str());
        object.text("cleanup_result", self.cleanup_result.as_str());
        object.signed("completed_at_ms", self.completed_at_ms);
        object.finish()
    }

    /// Everything but the digest is in order. A node that succeeded has an output and left no traces.
    pub open spec fn well_formed(self) -> bool {
        &&& self.schema_version == WORKFLOW_NODE_RECEIPT_SCHEMA_VERSION
        &&& !self.lease_id.nil() && !self.request_id.nil() && !self.attempt_id.nil()
        &&& self.lease_generation != 0
        &&& self.completed_at_ms >= 0
        &&& workflow_token(self.worker_id@, 96)
        &&& workflow_token(self.host_id@, 96)
        &&& (self.outcome is Succeeded) == (self.output_digest is Some)
        &&& self.outcome is Succeeded ==> self.cleanup_result is Complete
    }

    /// The digest is the one of what it seals.
    pub open spec fn sealed(self) -> bool {
        document_digest(self.sealed_json()) == Some(self.receipt_digest@)
    }

    /// What is wrong with the document: its form, the encoding, or the digest.
    pub open spec fn fault(self) -> Option<WorkflowContractError> {
        if !self.well_formed() {
            Some(WorkflowContractError::InvalidNodeReceipt)
        } else if document_digest(self.sealed_json()) is None {
            Some(WorkflowContractError::CanonicalEncoding)
        } else if !self.sealed() {
            Some(WorkflowContractError::InvalidNodeReceipt)
        } else {
            None
        }
    }

    fn is_well_formed(&self) -> (r: bool)
        ensures
            r == self.well_formed(),
    {
        let succeeded = self.outcome == WorkflowNodeOutcomeV1::Succeeded;
        self.schema_version == WORKFLOW_NODE_RECEIPT_SCHEMA_VERSION && !self.lease_id.is_nil()
            && !self.request_id.is_nil() && !self.attempt_id.is_nil() && self.lease_generation != 0
            && self.completed_at_ms >= 0 && is_workflow_token(self.worker_id.as_str(), 96)
            && is_workflow_token(self.host_id.as_str(), 96) && succeeded
            == self.output_digest.is_some() && (!succeeded || self.cleanup_result
            == WorkflowCleanupResultV1::Complete)
    }

    fn calculate_digest(&self) -> (r: Result<EvidenceDigest, WorkflowContractError>)
        ensures
            match r {
                Ok(digest) => document_digest(self.sealed_json()) == Some(digest@),
                Err(error) => document_digest(self.sealed_json()) is None && error
                    is CanonicalEncoding,
            },
    {
        let text = self.to_sealed_json();
        match digest_document(text.as_str()) {
            Ok(digest) => Ok(digest),
            Err(_) => Err(WorkflowContractError::CanonicalEncoding),
        }
    }

    pub fn validate(&self) -> (r: Result<(), WorkflowContractError>)
        ensures
            match r {
                Ok(()) => self.fault() is None,
                Err(error) => self.fault() == Some(error),
            },
    {
        if !self.is_well_formed() {
            return Err(WorkflowContractError::InvalidNodeReceipt);
        }
        match self.calculate_digest() {
            Err(error) => Err(error),
            Ok(digest) => if self.receipt_digest == digest {
                Ok(())
            } else {
                Err(WorkflowContractError::InvalidNodeReceipt)
            },
        }
    }

    /// The canonical bytes of a valid document.
    pub fn canonical_bytes(&self) -> (r: Result<Vec<u8>, WorkflowContractError>)
        ensures
            match r {
                Ok(bytes) => self.fault() is None && jcs(self.json()) == Some(bytes@),
                Err(error) => if self.fault() is Some {
                    self.fault() == Some(error)
                } else {
                    jcs(self.json()) is None && error is CanonicalEncoding
                },
            },
    {
        match self.validate() {
            Err(error) => Err(error),
            Ok(()) => {
                let text = self.to_json();
                match canonical_bytes(text.as_str()) {
                    Ok(bytes) => Ok(bytes),
                    Err(_) => Err(WorkflowContractError::CanonicalEncoding),
                }
            },
        }
    }

    /// Accepts a document that was read from some bytes, where the bytes are its canonical form
    /// and it is valid.
    pub fn decode_canonical(
        parsed: WorkflowNodeReceiptV1,
        bytes: &[u8],
    ) -> (r: Result<WorkflowNodeReceiptV1, WorkflowContractError>)
        ensures
            match r {
                Ok(document) => document == parsed && jcs(parsed.json()) == Some(bytes@)
                    && parsed.fault() is None,
                Err(error) => if jcs(parsed.json()) is None {
                    error is CanonicalEncoding
                } else if jcs(parsed.json()) != Some(bytes@) {
                    error is NoncanonicalDocument
                } else {
                    parsed.fault() == Some(error)
                },
            },
    {
        let text = parsed.to_json();
        match is_canonical(text.as_str(), bytes) {
            Err(_) => Err(WorkflowContractError::CanonicalEncoding),
            Ok(false) => Err(WorkflowContractError::NoncanonicalDocument),
            Ok(true) => match parsed.validate() {
                Err(error) => Err(error),
                Ok(()) => Ok(parsed),
            },
        }
    }
}

impl WorkflowNodeReceiptV1 {
    /// The receipt is of a lease.
    pub open spec fn of_lease(self, lease: WorkflowLeaseV1) -> bool {
        &&& self.lease_digest@ == lease.lease_digest@
        &&& self.lease_id == lease.lease_id
        &&& self.lease_generation == lease.lease_generation
        &&& self.request_id == lease.request_id
        &&& self.attempt_id == lease.attempt_id
        &&& self.project_id@ == lease.project_id@
        &&& self.source_sha@ == lease.source_sha@
        &&& self.workflow_policy_digest@ == lease.workflow_policy_digest@
        &&& self.preparation_key@ == lease.preparation_key@
        &&& self.node_id@ == lease.node_id@
        &&& self.node_kind == lease.node_kind
        &&& self.worker_id@ == lease.worker_id@
        &&& self.host_id@ == lease.host_id@
        &&& self.expected_input_digest@ == lease.expected_input_digest@
    }

    pub fn matches_lease(&self, lease: &WorkflowLeaseV1) -> (r: bool)
        ensures
            r == self.of_lease(*lease),
    {
        self.lease_digest == lease.lease_digest
            && self.lease_id == lease.lease_id
            && self.lease_generation == lease.lease_generation
            && self.request_id == lease.request_id
            && self.attempt_id == lease.attempt_id
            && self.project_id == lease.project_id
            && self.source_sha == lease.source_sha
            && self.workflow_policy_digest == lease.workflow_policy_digest
            && self.preparation_key == lease.preparation_key
            && self.node_id == lease.node_id
            && self.node_kind == lease.node_kind
            && same_text(self.worker_id.as_str(), lease.worker_id.as_str())
            && same_text(self.host_id.as_str(), lease.host_id.as_str())
            && self.expected_input_digest == lease.expected_input_digest
    }

    /// The receipt holds what it is made of, whatever its digest.
    pub open spec fn describes(
        self,
        lease: WorkflowLeaseV1,
        outcome: WorkflowNodeOutcomeV1,
        output_digest: Option<EvidenceDigest>,
        execution_receipt_digest: EvidenceDigest,
        cleanup_receipt_digest: EvidenceDigest,
        cleanup_result: WorkflowCleanupResultV1,
        completed_at_ms: i64,
    ) -> bool {
        &&& self.schema_version == WORKFLOW_NODE_RECEIPT_SCHEMA_VERSION
        &&& self.of_lease(lease)
        &&& self.outcome == outcome
        &&& self.output_digest == output_digest
        &&& self.execution_receipt_digest == execution_receipt_digest
        &&& self.cleanup_receipt_digest == cleanup_receipt_digest
        &&& self.cleanup_result == cleanup_result
        &&& self.completed_at_ms == completed_at_ms
    }

    /// The receipt of a valid lease.
    pub fn new(
        lease: &WorkflowLeaseV1,
        outcome: WorkflowNodeOutcomeV1,
        output_digest: Option<EvidenceDigest>,
        execution_receipt_digest: EvidenceDigest,
        cleanup_receipt_digest: EvidenceDigest,
        cleanup_result: WorkflowCleanupResultV1,
        completed_at_ms: i64,
    ) -> (r: Result<WorkflowNodeReceiptV1, WorkflowContractError>)
        ensures
            match r {
                Ok(receipt) => lease.fault() is None && receipt.fault() is None
                    && receipt.describes(*lease, outcome, output_digest, execution_receipt_digest, cleanup_receipt_digest, cleanup_result, completed_at_ms),
                Err(error) => if lease.fault() is Some {
                    lease.fault() == Some(error)
                } else {
                    forall|receipt: WorkflowNodeReceiptV1| #[trigger]
                        receipt.describes(*lease, outcome, output_digest, execution_receipt_digest, cleanup_receipt_digest, cleanup_result, completed_at_ms) ==> if document_digest(receipt.sealed_json()) is None {
                            error is CanonicalEncoding
                        } else {
                            !receipt.well_formed() && error is InvalidNodeReceipt
                        }
                },
            },
    {
        match lease.validate() {
            Err(error) => return Err(error),
            Ok(()) => {},
        }
        let mut receipt = WorkflowNodeReceiptV1 {
            schema_version: WORKFLOW_NODE_RECEIPT_SCHEMA_VERSION,
            lease_digest: lease.lease_digest.clone(),
            lease_id: lease.lease_id,
            lease_generation: lease.lease_generation,
            request_id: lease.request_id,
            attempt_id: lease.attempt_id,
            project_id: lease.project_id.clone(),
            source_sha: lease.source_sha.clone(),
            workflow_policy_digest: lease.workflow_policy_digest.clone(),
            preparation_key: lease.preparation_key.clone(),
            node_id: lease.node_id.clone(),
            node_kind: lease.node_kind,
            worker_id: lease.worker_id.clone(),
            host_id: lease.host_id.clone(),
            expected_input_digest: lease.expected_input_digest.clone(),
            outcome,
            output_digest,
            execution_receipt_digest,
            cleanup_receipt_digest,
            cleanup_result,
            completed_at_ms,
            receipt_digest: lease.lease_digest.clone(),
        };
        match receipt.calculate_digest() {
            Err(error) => return Err(error),
            Ok(digest) => {
                receipt.receipt_digest = digest;
            },
        }
        match receipt.validate() {
            Err(error) => Err(error),
            Ok(()) => Ok(receipt),
        }
    }
}

/// That the traces of a node were removed, sealed by a digest.
#[derive(Clone, Debug, PartialEq, Eq)]
pub struct WorkflowCleanupReceiptV1 {
    pub schema_version: u16,
    pub lease_digest: EvidenceDigest,
    pub lease_id: Uuid,
    pub lease_generation: u32,
    pub attempt_id: Uuid,
    pub project_id: ProjectId,
    pub node_id: WorkflowNodeId,
    pub worker_id: String,
    pub host_id: String,
    pub terminal_receipt_digest: Option<EvidenceDigest>,
    pub cleanup_evidence_digest: EvidenceDigest,
    pub completed_at_ms: i64,
    pub receipt_digest: EvidenceDigest,
}

impl WorkflowCleanupReceiptV1 {
    /// The document as JSON text.
    pub open spec fn json(self) -> Seq<char> {
        let members = no_members()
            .push(("schema_version"@, json_nat(self.schema_version as nat)))
            .push(("lease_digest"@, json_string(self.lease_digest@)))
            .push(("lease_id"@, json_string(self.lease_id.text())))
            .push(("lease_generation"@, json_nat(self.lease_generation as nat)))
            .push(("attempt_id"@, json_string(self.attempt_id.text())))
            .push(("project_id"@, json_string(self.project_id@)))
            .push(("node_id"@, json_string(self.node_id@)))
            .push(("worker_id"@, json_string(self.worker_id@)))
            .push(("host_id"@, json_string(self.host_id@)))
            .push(("terminal_receipt_digest"@, json_optional_string(digest_option(self.terminal_receipt_digest))))
            .push(("cleanup_evidence_digest"@, json_string(self.cleanup_evidence_digest@)))
            .push(("completed_at_ms"@, json_int(self.completed_at_ms as int)))
            .push(("receipt_digest"@, json_string(self.receipt_digest@)));
        json_object(members)
    }

    pub fn to_json(&self) -> (r: String)
        ensures
            r@ == self.json(),
    {
        let mut object = JsonObject::new();
        object.number("schema_version", self.schema_version as u64);
        object.text("lease_digest", self.lease_digest.as_str());
        let lease_id = self.lease_id.to_text();
        object.text("lease_id", lease_id.as_str());
        object.number("lease_generation", self.lease_generation as u64);
        let attempt_id = self.attempt_id.to_text();
        object.text("attempt_id", attempt_id.as_str());
        object.text("project_id", self.project_id.as_str());
        object.text("node_id", self.node_id.as_str());
        object.text("worker_id", self.worker_id.as_str());
        object.text("host_id", self.host_id.as_str());
        object.optional_text("terminal_receipt_digest", digest_str(&self.terminal_receipt_digest));
        object.text("cleanup_evidence_digest", self.cleanup_evidence_digest.as_str());
        object.signed("completed_at_ms", self.completed_at_ms);
        object.text("receipt_digest", self.receipt_digest.as_str());
        object.finish()
    }

    /// What the digest is taken over.
    pub open spec fn sealed_json(self) -> Seq<char> {
        let members = no_members()
            .push(("purpose"@, json_string("rdashboard.workflow-cleanup-receipt.v1"@)))
            .push(("schema_version"@, json_nat(self.schema_version as nat)))
            .push(("lease_digest"@, json_string(self.lease_digest@)))
            .push(("lease_id"@, json_string(self.lease_id.text())))
            .push(("lease_generation"@, json_nat(self.lease_generation as nat)))
            .push(("attempt_id"@, json_string(self.attempt_id.text())))
            .push(("project_id"@, json_string(self.project_id@)))
            .push(("node_id"@, json_string(self.node_id@)))
            .push(("worker_id"@, json_string(self.worker_id@)))
            .push(("host_id"@, json_string(self.host_id@)))
            .push(("terminal_receipt_digest"@, json_optional_string(digest_option(self.terminal_receipt_digest))))
            .push(("cleanup_evidence_digest"@, json_string(self.cleanup_evidence_digest@)))
            .push(("completed_at_ms"@, json_int(self.completed_at_ms as int)));
        json_object(members)
    }

    fn to_sealed_json(&self) -> (r: String)
        ensures
            r@ == self.sealed_json(),
    {
        let mut object = JsonObject::new();
        object.text("purpose", "rdashboard.workflow-cleanup-receipt.v1");
        object.number("schema_version", self.schema_version as u64);
        object.text("lease_digest", self.lease_digest.as_str());
        let lease_id = self.lease_id.to_text();
        object.text("lease_id", lease_id.as_str());
        object.number("lease_generation", self.lease_generation as u64);
        let attempt_id = self.attempt_id.to_text();
        object.text("attempt_id", attempt_id.as_str());
        object.text("project_id", self.project_id.as_str());
        object.text("node_id", self.node_id.as_str());
        object.text("worker_id", self.worker_id.as_str());
        object.text("host_id", self.host_id.as_str());
        object.optional_text("terminal_receipt_digest", digest_str(&self.terminal_receipt_digest));
        object.text("cleanup_evidence_digest", self.cleanup_evidence_digest.as_str());
        object.signed("completed_at_ms", self.completed_at_ms);
        object.finish()
    }

    /// Everything but the digest is in order.
    pub open spec fn well_formed(self) -> bool {
        &&& self.schema_version == WORKFLOW_CLEANUP_RECEIPT_SCHEMA_VERSION
        &&& !self.lease_id.nil() && !self.attempt_id.nil()
        &&& self.lease_generation != 0
        &&& self.completed_at_ms >= 0
        &&& workflow_token(self.worker_id@, 96)
        &&& workflow_token(self.host_id@, 96)
    }

    /// The digest is the one of what it seals.
    pub open spec fn sealed(self) -> bool {
        document_digest(self.sealed_json()) == Some(self.receipt_digest@)
    }

    /// What is wrong with the document: its form, the encoding, or the digest.
    pub open spec fn fault(self) -> Option<WorkflowContractError> {
        if !self.well_formed() {
            Some(WorkflowContractError::InvalidCleanupReceipt)
        } else if document_digest(self.sealed_json()) is None {
            Some(WorkflowContractError::CanonicalEncoding)
        } else if !self.sealed() {
            Some(WorkflowContractError::InvalidCleanupReceipt)
        } else {
            None
        }
    }

    fn is_well_formed(&self) -> (r: bool)
        ensures
            r == self.well_formed(),
    {
        self.schema_version == WORKFLOW_CLEANUP_RECEIPT_SCHEMA_VERSION && !self.lease_id.is_nil()
            && !self.attempt_id.is_nil() && self.lease_generation != 0 && self.completed_at_ms >= 0
            && is_workflow_token(self.worker_id.as_str(), 96) && is_workflow_token(
            self.host_id.as_str(),
            96,
        )
    }

    fn calculate_digest(&self) -> (r: Result<EvidenceDigest, WorkflowContractError>)
        ensures
            match r {
                Ok(digest) => document_digest(self.sealed_json()) == Some(digest@),
                Err(error) => document_digest(self.sealed_json()) is None && error
                    is CanonicalEncoding,
            },
    {
        let text = self.to_sealed_json();
        match digest_document(text.as_str()) {
            Ok(digest) => Ok(digest),
            Err(_) => Err(WorkflowContractError::CanonicalEncoding),
        }
    }

    pub fn validate(&self) -> (r: Result<(), WorkflowContractError>)
        ensures
            match r {
                Ok(()) => self.fault() is None,
                Err(error) => self.fault() == Some(error),
            },
    {
        if !self.is_well_formed() {
            return Err(WorkflowContractError::InvalidCleanupReceipt);
        }
        match self.calculate_digest() {
            Err(error) => Err(error),
            Ok(digest) => if self.receipt_digest == digest {
                Ok(())
            } else {
                Err(WorkflowContractError::InvalidCleanupReceipt)
            },
        }
    }

    /// The canonical bytes of a valid document.
    pub fn canonical_bytes(&self) -> (r: Result<Vec<u8>, WorkflowContractError>)
        ensures
            match r {
                Ok(bytes) => self.fault() is None && jcs(self.json()) == Some(bytes@),
                Err(error) => if self.fault() is Some {
                    self.fault() == Some(error)
                } else {
                    jcs(self.json()) is None && error is CanonicalEncoding
                },
            },
    {
        match self.validate() {
            Err(error) => Err(error),
            Ok(()) => {
                let text = self.to_json();
                match canonical_bytes(text.as_str()) {
                    Ok(bytes) => Ok(bytes),
                    Err(_) => Err(WorkflowContractError::CanonicalEncoding),
                }
            },
        }
    }

    /// Accepts a document that was read from some bytes, where the bytes are its canonical form
    /// and it is valid.
    pub fn decode_canonical(
        parsed: WorkflowCleanupReceiptV1,
        bytes: &[u8],
    ) -> (r: Result<WorkflowCleanupReceiptV1, WorkflowContractError>)
        ensures
            match r {
                Ok(document) => document == parsed && jcs(parsed.json()) == Some(bytes@)
                    && parsed.fault() is None,
                Err(error) => if jcs(parsed.json()) is None {
                    error is CanonicalEncoding
                } else if jcs(parsed.json()) != Some(bytes@) {
                    error is NoncanonicalDocument
                } else {
                    parsed.fault() == Some(error)
                },
            },
    {
        let text = parsed.to_json();
        match is_canonical(text.as_str(), bytes) {
            Err(_) => Err(WorkflowContractError::CanonicalEncoding),
            Ok(false) => Err(WorkflowContractError::NoncanonicalDocument),
            Ok(true) => match parsed.validate() {
                Err(error) => Err(error),
                Ok(()) => Ok(parsed),
            },
        }
    }
}

impl WorkflowCleanupReceiptV1 {
    /// The receipt holds what it is made of, whatever its digest.
    pub open spec fn describes(
        self,
        lease: WorkflowLeaseV1,
        terminal_receipt_digest: Option<EvidenceDigest>,
        cleanup_evidence_digest: EvidenceDigest,
        completed_at_ms: i64,
    ) -> bool {
        &&& self.schema_version == WORKFLOW_CLEANUP_RECEIPT_SCHEMA_VERSION
        &&& self.lease_digest@ == lease.lease_digest@
        &&& self.lease_id == lease.lease_id
        &&& self.lease_generation == lease.lease_generation
        &&& self.attempt_id == lease.attempt_id
        &&& self.project_id@ == lease.project_id@
        &&& self.node_id@ == lease.node_id@
        &&& self.worker_id@ == lease.worker_id@
        &&& self.host_id@ == lease.host_id@
        &&& self.terminal_receipt_digest == terminal_receipt_digest
        &&& self.cleanup_evidence_digest == cleanup_evidence_digest
        &&& self.completed_at_ms == completed_at_ms
    }

    /// The digest of the receipt of the node, where there is one.
    pub open spec fn terminal_digest(
        terminal: Option<&WorkflowNodeReceiptV1>,
    ) -> Option<EvidenceDigest> {
        match terminal {
            Some(terminal) => Some(terminal.receipt_digest),
            None => None,
        }
    }

    /// What keeps the traces of a node from being told removed: its lease or its receipt is not
    /// valid, or the receipt is of another lease or says that they were removed already.
    pub open spec fn inputs_fault(
        lease: WorkflowLeaseV1,
        terminal: Option<&WorkflowNodeReceiptV1>,
    ) -> Option<WorkflowContractError> {
        if lease.fault() is Some {
            lease.fault()
        } else {
            match terminal {
                None => None,
                Some(terminal) => if terminal.fault() is Some {
                    terminal.fault()
                } else if !(terminal.cleanup_result is Pending) || !terminal.of_lease(lease) {
                    Some(WorkflowContractError::InvalidCleanupReceipt)
                } else {
                    None
                },
            }
        }
    }

    /// The traces are removed after the lease began, and after the receipt of the node.
    pub open spec fn in_time(
        lease: WorkflowLeaseV1,
        terminal: Option<&WorkflowNodeReceiptV1>,
        completed_at_ms: i64,
    ) -> bool {
        completed_at_ms >= lease.leased_at_ms && (terminal matches Some(terminal)
            ==> completed_at_ms >= terminal.completed_at_ms)
    }

    /// The receipt that the traces of a lease were removed.
    pub fn new(
        lease: &WorkflowLeaseV1,
        terminal_receipt: Option<&WorkflowNodeReceiptV1>,
        cleanup_evidence_digest: EvidenceDigest,
        completed_at_ms: i64,
    ) -> (r: Result<WorkflowCleanupReceiptV1, WorkflowContractError>)
        ensures
            ({
                let terminal_digest = WorkflowCleanupReceiptV1::terminal_digest(terminal_receipt);
                let fault = WorkflowCleanupReceiptV1::inputs_fault(*lease, terminal_receipt);
                let in_time = WorkflowCleanupReceiptV1::in_time(
                    *lease,
                    terminal_receipt,
                    completed_at_ms,
                );
                match r {
                    Ok(receipt) => {
                        &&& fault is None
                        &&& receipt.fault() is None
                        &&& receipt.describes(
                            *lease,
                            terminal_digest,
                            cleanup_evidence_digest,
                            completed_at_ms,
                        )
                        &&& in_time
                    },
                    Err(error) => if fault is Some {
                        fault == Some(error)
                    } else {
                        forall|receipt: WorkflowCleanupReceiptV1| #[trigger]
                            receipt.describes(
                                *lease,
                                terminal_digest,
                                cleanup_evidence_digest,
                                completed_at_ms,
                            ) ==> if document_digest(receipt.sealed_json()) is None {
                                error is CanonicalEncoding
                            } else {
                                (!receipt.well_formed() || !in_time) && error is InvalidCleanupReceipt
                            }
                    },
                }
            }),
    {
        match lease.validate() {
            Err(error) => return Err(error),
            Ok(()) => {},
        }
        match terminal_receipt {
            Some(receipt) => {
                match receipt.validate() {
                    Err(error) => return Err(error),
                    Ok(()) => {},
                }
                if receipt.cleanup_result != WorkflowCleanupResultV1::Pending
                    || !receipt.matches_lease(lease) {
                    return Err(WorkflowContractError::InvalidCleanupReceipt);
                }
            },
            None => {},
        }
        let mut receipt = WorkflowCleanupReceiptV1 {
            schema_version: WORKFLOW_CLEANUP_RECEIPT_SCHEMA_VERSION,
            lease_digest: lease.lease_digest.clone(),
            lease_id: lease.lease_id,
            lease_generation: lease.lease_generation,
            attempt_id: lease.attempt_id,
            project_id: lease.project_id.clone(),
            node_id: lease.node_id.clone(),
            worker_id: lease.worker_id.clone(),
            host_id: lease.host_id.clone(),
            terminal_receipt_digest: match terminal_receipt {
                Some(terminal) => Some(terminal.receipt_digest.clone()),
                None => None,
            },
            cleanup_evidence_digest,
            completed_at_ms,
            receipt_digest: lease.lease_digest.clone(),
        };
        match receipt.calculate_digest() {
            Err(error) => return Err(error),
            Ok(digest) => {
                receipt.receipt_digest = digest;
            },
        }
        match receipt.validate() {
            Err(error) => return Err(error),
            Ok(()) => {},
        }
        let after_terminal = match terminal_receipt {
            Some(terminal) => receipt.completed_at_ms >= terminal.completed_at_ms,
            None => true,
        };
        if receipt.completed_at_ms < lease.leased_at_ms || !after_terminal {
            return Err(WorkflowContractError::InvalidCleanupReceipt);
        }
        Ok(receipt)
    }
}

/// What a node put out, as it went into a reduction.
#[derive(Clone, Debug, PartialEq, Eq)]
pub struct WorkflowReductionInputV1 {
    pub node_id: WorkflowNodeId,
    pub node_kind: WorkflowNodeKindV1,
    pub receipt_digest: EvidenceDigest,
    pub output_digest: EvidenceDigest,
}

impl WorkflowReductionInputV1 {
    /// The document as JSON text.
    pub open spec fn json(self) -> Seq<char> {
        json_object(
            no_members()
                .push(("node_id"@, json_string(self.node_id@)))
                .push(("node_kind"@, json_string(self.node_kind.name())))
                .push(("receipt_digest"@, json_string(self.receipt_digest@)))
                .push(("output_digest"@, json_string(self.output_digest@))),
        )
    }

    pub fn to_json(&self) -> (r: String)
        ensures
            r@ == self.json(),
    {
        let mut object = JsonObject::new();
        object.text("node_id", self.node_id.as_str());
        object.text("node_kind", self.node_kind.as_str());
        object.text("receipt_digest", self.receipt_digest.as_str());
        object.text("output_digest", self.output_digest.as_str());
        object.finish()
    }
}

/// Inputs as a JSON array.
pub open spec fn reduction_inputs_json(values: Seq<WorkflowReductionInputV1>) -> Seq<char> {
    json_array(values.map_values(|value: WorkflowReductionInputV1| value.json()))
}

fn reduction_inputs_json_text(values: &Vec<WorkflowReductionInputV1>) -> (r: String)
    ensures
        r@ == reduction_inputs_json(values@),
{
    let mut array = JsonArray::new();
    let mut i: usize = 0;
    while i < values.len()
        invariant
            i <= values.len(),
            array.wf(),
            array@ == values@.take(i as int).map_values(|value: WorkflowReductionInputV1| value.json()),
        decreases values.len() - i,
    {
        let item = values[i].to_json();
        array.raw(item.as_str());
        i += 1;
        assert(array@ =~= values@.take(i as int).map_values(|value: WorkflowReductionInputV1| value.json()));
    }
    assert(values@.take(i as int) =~= values@);
    array.finish()
}

/// The names of the nodes that inputs come from.
pub open spec fn reduced_nodes(inputs: Seq<WorkflowReductionInputV1>) -> Seq<Seq<char>> {
    inputs.map_values(|input: WorkflowReductionInputV1| input.node_id@)
}

fn reduced_ordered(inputs: &Vec<WorkflowReductionInputV1>) -> (r: bool)
    ensures
        r == strictly_ordered(reduced_nodes(inputs@)),
{
    let ghost all = reduced_nodes(inputs@);
    let mut i: usize = 1;
    while i < inputs.len()
        invariant
            1 <= i,
            all == reduced_nodes(inputs@),
            forall|a: int, b: int|
                0 <= a && b == a + 1 && b < i && b < all.len() ==> text_before(
                    #[trigger] all[a],
                    #[trigger] all[b],
                ),
        decreases inputs.len() - i,
    {
        if !is_text_before(inputs[i - 1].node_id.as_str(), inputs[i].node_id.as_str()) {
            assert(!text_before(all[i - 1], all[i as int]));
            return false;
        }
        i += 1;
    }
    true
}

/// Inputs with an input put behind all whose names its name does not come before.
pub open spec fn input_placed(
    inputs: Seq<WorkflowReductionInputV1>,
    input: WorkflowReductionInputV1,
) -> Seq<WorkflowReductionInputV1>
    decreases inputs.len(),
{
    if inputs.len() == 0 || !text_before(input.node_id@, inputs.last().node_id@) {
        inputs.push(input)
    } else {
        input_placed(inputs.drop_last(), input).push(inputs.last())
    }
}

/// Inputs in the order of their names; those of one name stay in the order in which they came.
pub open spec fn inputs_sorted(
    inputs: Seq<WorkflowReductionInputV1>,
) -> Seq<WorkflowReductionInputV1>
    decreases inputs.len(),
{
    if inputs.len() == 0 {
        seq![]
    } else {
        input_placed(inputs_sorted(inputs.drop_last()), inputs.last())
    }
}

/// Inputs in the order of their names.
pub open spec fn inputs_ordered(inputs: Seq<WorkflowReductionInputV1>) -> bool {
    forall|i: int, j: int|
        0 <= i < j < inputs.len() ==> !text_before(
            (#[trigger] inputs[j]).node_id@,
            (#[trigger] inputs[i]).node_id@,
        )
}

proof fn lemma_input_placed(inputs: Seq<WorkflowReductionInputV1>, input: WorkflowReductionInputV1)
    requires
        inputs_ordered(inputs),
    ensures
        inputs_ordered(input_placed(inputs, input)),
        input_placed(inputs, input).to_multiset() == inputs.to_multiset().insert(input),
    decreases inputs.len(),
{
    broadcast use vstd::seq_lib::group_to_multiset_ensures;

    let placed = input_placed(inputs, input);
    if inputs.len() == 0 || !text_before(input.node_id@, inputs.last().node_id@) {
        assert forall|i: int, j: int| 0 <= i < j < placed.len() implies !text_before(
            (#[trigger] placed[j]).node_id@,
            (#[trigger] placed[i]).node_id@,
        ) by {
            if j == inputs.len() && i < inputs.len() - 1 {
                lemma_text_not_before_transitive(
                    input.node_id@,
                    inputs.last().node_id@,
                    inputs[i].node_id@,
                );
            }
        }
    } else {
        let rest = inputs.drop_last();
        let last = inputs.last();
        let head = input_placed(rest, input);
        lemma_input_placed(rest, input);
        assert forall|i: int, j: int| 0 <= i < j < placed.len() implies !text_before(
            (#[trigger] placed[j]).node_id@,
            (#[trigger] placed[i]).node_id@,
        ) by {
            if j < head.len() {
                assert(placed[i] == head[i] && placed[j] == head[j]);
            } else {
                assert(head.contains(head[i]));
                assert(head.to_multiset().count(head[i]) > 0);
                if head[i] == input {
                    lemma_text_before_asymmetric(input.node_id@, last.node_id@);
                } else {
                    assert(rest.contains(head[i]));
                    let k = choose|k: int| 0 <= k < rest.len() && rest[k] == head[i];
                    assert(inputs[k] == head[i]);
                }
            }
        }
        assert(inputs =~= rest.push(last));
        assert(placed.to_multiset() =~= inputs.to_multiset().insert(input));
    }
}

/// Sorting puts any inputs in the order of their names, and neither loses nor adds any.
pub proof fn law_sorted_inputs_are_ordered(inputs: Seq<WorkflowReductionInputV1>)
    ensures
        inputs_ordered(inputs_sorted(inputs)),
        inputs_sorted(inputs).to_multiset() == inputs.to_multiset(),
    decreases inputs.len(),
{
    broadcast use vstd::seq_lib::group_to_multiset_ensures;

    if inputs.len() > 0 {
        law_sorted_inputs_are_ordered(inputs.drop_last());
        lemma_input_placed(inputs_sorted(inputs.drop_last()), inputs.last());
        assert(inputs =~= inputs.drop_last().push(inputs.last()));
    } else {
        assert(inputs_sorted(inputs) =~= inputs);
    }
}

fn place_input(inputs: &mut Vec<WorkflowReductionInputV1>, input: WorkflowReductionInputV1)
    ensures
        final(inputs)@ == input_placed(old(inputs)@, input),
{
    let ghost before = inputs@;
    let mut at: usize = inputs.len();
    assert(before.take(at as int) =~= before);
    while at > 0 && is_text_before(input.node_id.as_str(), inputs[at - 1].node_id.as_str())
        invariant
            at <= inputs.len(),
            inputs@ == before,
            input_placed(before, input) == input_placed(before.take(at as int), input)
                + before.skip(at as int),
        decreases at,
    {
        proof {
            let head = before.take(at as int);
            assert(head.drop_last() =~= before.take(at - 1));
            assert(before.skip(at - 1) =~= seq![head.last()] + before.skip(at as int));
            assert(input_placed(before, input) =~= input_placed(before.take(at - 1), input)
                + before.skip(at - 1));
        }
        at -= 1;
    }
    let ghost placing = input;
    inputs.insert(at, input);
    proof {
        let head = before.take(at as int);
        assert(input_placed(head, placing) == head.push(placing));
        assert(inputs@ =~= head.push(placing) + before.skip(at as int));
    }
}

fn sort_inputs(inputs: Vec<WorkflowReductionInputV1>) -> (sorted: Vec<WorkflowReductionInputV1>)
    ensures
        sorted@ == inputs_sorted(inputs@),
{
    let ghost all = inputs@;
    let mut rest = inputs;
    let mut sorted: Vec<WorkflowReductionInputV1> = Vec::new();
    let ghost mut taken: int = 0;
    assert(rest@ =~= all.skip(0));
    while rest.len() > 0
        invariant
            0 <= taken <= all.len(),
            rest@ == all.skip(taken),
            sorted@ == inputs_sorted(all.take(taken)),
        decreases rest.len(),
    {
        let input = rest.remove(0);
        proof {
            assert(input == all[taken]);
            assert(rest@ =~= all.skip(taken + 1));
            assert(all.take(taken + 1).drop_last() =~= all.take(taken));
            taken = taken + 1;
        }
        place_input(&mut sorted, input);
    }
    assert(all.take(taken) =~= all);
    sorted
}

/// What the controller reduced, sealed by a digest.
#[derive(Clone, Debug, PartialEq, Eq)]
pub struct WorkflowReductionReceiptV1 {
    pub schema_version: u16,
    pub request_id: Uuid,
    pub attempt_id: Uuid,
    pub project_id: ProjectId,
    pub source_sha: GitCommitId,
    pub workflow_policy_digest: EvidenceDigest,
    pub preparation_key: EvidenceDigest,
    pub reduce_node_id: WorkflowNodeId,
    pub inputs: Vec<WorkflowReductionInputV1>,
    pub reduced_at_ms: i64,
    pub receipt_digest: EvidenceDigest,
}

impl WorkflowReductionReceiptV1 {
    /// The document as JSON text.
    pub open spec fn json(self) -> Seq<char> {
        let members = no_members()
            .push(("schema_version"@, json_nat(self.schema_version as nat)))
            .push(("request_id"@, json_string(self.request_id.text())))
            .push(("attempt_id"@, json_string(self.attempt_id.text())))
            .push(("project_id"@, json_string(self.project_id@)))
            .push(("source_sha"@, json_string(self.source_sha@)))
            .push(("workflow_policy_digest"@, json_string(self.workflow_policy_digest@)))
            .push(("preparation_key"@, json_string(self.preparation_key@)))
            .push(("reduce_node_id"@, json_string(self.reduce_node_id@)))
            .push(("inputs"@, reduction_inputs_json(self.inputs@)))
            .push(("reduced_at_ms"@, json_int(self.reduced_at_ms as int)))
            .push(("receipt_digest"@, json_string(self.receipt_digest@)));
        json_object(members)
    }

    pub fn to_json(&self) -> (r: String)
        ensures
            r@ == self.json(),
    {
        let mut object = JsonObject::new();
        object.number("schema_version", self.schema_version as u64);
        let request_id = self.request_id.to_text();
        object.text("request_id", request_id.as_str());
        let attempt_id = self.attempt_id.to_text();
        object.text("attempt_id", attempt_id.as_str());
        object.text("project_id", self.project_id.as_str());
        object.text("source_sha", self.source_sha.as_str());
        object.text("workflow_policy_digest", self.workflow_policy_digest.as_str());
        object.text("preparation_key", self.preparation_key.as_str());
        object.text("reduce_node_id", self.reduce_node_id.as_str());
        let inputs = reduction_inputs_json_text(&self.inputs);
        object.raw("inputs", inputs.as_str());
        object.signed("reduced_at_ms", self.reduced_at_ms);
        object.text("receipt_digest", self.receipt_digest.as_str());
        object.finish()
    }

    /// What the digest is taken over.
    pub open spec fn sealed_json(self) -> Seq<char> {
        let members = no_members()
            .push(("purpose"@, json_string("rdashboard.workflow-reduction-receipt.v1"@)))
            .push(("schema_version"@, json_nat(self.schema_version as nat)))
            .push(("request_id"@, json_string(self.request_id.text())))
            .push(("attempt_id"@, json_string(self.attempt_id.text())))
            .push(("project_id"@, json_string(self.project_id@)))
            .push(("source_sha"@, json_string(self.source_sha@)))
            .push(("workflow_policy_digest"@, json_string(self.workflow_policy_digest@)))
            .push(("preparation_key"@, json_string(self.preparation_key@)))
            .push(("reduce_node_id"@, json_string(self.reduce_node_id@)))
            .push(("inputs"@, reduction_inputs_json(self.inputs@)))
            .push(("reduced_at_ms"@, json_int(self.reduced_at_ms as int)));
        json_object(members)
    }

    fn to_sealed_json(&self) -> (r: String)
        ensures
            r@ == self.sealed_json(),
    {
        let mut object = JsonObject::new();
        object.text("purpose", "rdashboard.workflow-reduction-receipt.v1");
        object.number("schema_version", self.schema_version as u64);
        let request_id = self.request_id.to_text();
        object.text("request_id", request_id.as_str());
        let attempt_id = self.attempt_id.to_text();
        object.text("attempt_id", attempt_id.as_str());
        object.text("project_id", self.project_id.as_str());
        object.text("source_sha", self.source_sha.as_str());
        object.text("workflow_policy_digest", self.workflow_policy_digest.as_str());
        object.text("preparation_key", self.preparation_key.as_str());
        object.text("reduce_node_id", self.reduce_node_id.as_str());
        let inputs = reduction_inputs_json_text(&self.inputs);
        object.raw("inputs", inputs.as_str());
        object.signed("reduced_at_ms", self.reduced_at_ms);
        object.finish()
    }

    /// Everything but the digest is in order: there are inputs, by name, and no name twice.
    pub open spec fn well_formed(self) -> bool {
        &&& self.schema_version == WORKFLOW_REDUCTION_RECEIPT_SCHEMA_VERSION
        &&& !self.request_id.nil() && !self.attempt_id.nil()
        &&& self.reduced_at_ms >= 0
        &&& self.inputs@.len() > 0
        &&& strictly_ordered(reduced_nodes(self.inputs@))
    }

    /// The digest is the one of what it seals.
    pub open spec fn sealed(self) -> bool {
        document_digest(self.sealed_json()) == Some(self.receipt_digest@)
    }

    /// What is wrong with the document: its form, the encoding, or the digest.
    pub open spec fn fault(self) -> Option<WorkflowContractError> {
        if !self.well_formed() {
            Some(WorkflowContractError::InvalidReductionReceipt)
        } else if document_digest(self.sealed_json()) is None {
            Some(WorkflowContractError::CanonicalEncoding)
        } else if !self.sealed() {
            Some(WorkflowContractError::InvalidReductionReceipt)
        } else {
            None
        }
    }

    fn is_well_formed(&self) -> (r: bool)
        ensures
            r == self.well_formed(),
    {
        self.schema_version == WORKFLOW_REDUCTION_RECEIPT_SCHEMA_VERSION && !self.request_id.is_nil()
            && !self.attempt_id.is_nil() && self.reduced_at_ms >= 0 && self.inputs.len() != 0
            && reduced_ordered(&self.inputs)
    }

    fn calculate_digest(&self) -> (r: Result<EvidenceDigest, WorkflowContractError>)
        ensures
            match r {
                Ok(digest) => document_digest(self.sealed_json()) == Some(digest@),
                Err(error) => document_digest(self.sealed_json()) is None && error
                    is CanonicalEncoding,
            },
    {
        let text = self.to_sealed_json();
        match digest_document(text.as_str()) {
            Ok(digest) => Ok(digest),
            Err(_) => Err(WorkflowContractError::CanonicalEncoding),
        }
    }

    pub fn validate(&self) -> (r: Result<(), WorkflowContractError>)
        ensures
            match r {
                Ok(()) => self.fault() is None,
                Err(error) => self.fault() == Some(error),
            },
    {
        if !self.is_well_formed() {
            return Err(WorkflowContractError::InvalidReductionReceipt);
        }
        match self.calculate_digest() {
            Err(error) => Err(error),
            Ok(digest) => if self.receipt_digest == digest {
                Ok(())
            } else {
                Err(WorkflowContractError::InvalidReductionReceipt)
            },
        }
    }

    /// The canonical bytes of a valid document.
    pub fn canonical_bytes(&self) -> (r: Result<Vec<u8>, WorkflowContractError>)
        ensures
            match r {
                Ok(bytes) => self.fault() is None && jcs(self.json()) == Some(bytes@),
                Err(error) => if self.fault() is Some {
                    self.fault() == Some(error)
                } else {
                    jcs(self.json()) is None && error is CanonicalEncoding
                },
            },
    {
        match self.validate() {
            Err(error) => Err(error),
            Ok(()) => {
                let text = self.to_json();
                match canonical_bytes(text.as_str()) {
                    Ok(bytes) => Ok(bytes),
                    Err(_) => Err(WorkflowContractError::CanonicalEncoding),
                }
            },
        }
    }

    /// Accepts a document that was read from some bytes, where the bytes are its canonical form
    /// and it is valid.
    pub fn decode_canonical(
        parsed: WorkflowReductionReceiptV1,
        bytes: &[u8],
    ) -> (r: Result<WorkflowReductionReceiptV1, WorkflowContractError>)
        ensures
            match r {
                Ok(document) => document == parsed && jcs(parsed.json()) == Some(bytes@)
                    && parsed.fault() is None,
                Err(error) => if jcs(parsed.json()) is None {
                    error is CanonicalEncoding
                } else if jcs(parsed.json()) != Some(bytes@) {
                    error is NoncanonicalDocument
                } else {
                    parsed.fault() == Some(error)
                },
            },
    {
        let text = parsed.to_json();
        match is_canonical(text.as_str(), bytes) {
            Err(_) => Err(WorkflowContractError::CanonicalEncoding),
            Ok(false) => Err(WorkflowContractError::NoncanonicalDocument),
            Ok(true) => match parsed.validate() {
                Err(error) => Err(error),
                Ok(()) => Ok(parsed),
            },
        }
    }
}

impl WorkflowReductionReceiptV1 {
    /// The receipt holds what it is made of, whatever its digest.
    pub open spec fn describes(
        self,
        request_id: Uuid,
        attempt_id: Uuid,
        project_id: ProjectId,
        source_sha: GitCommitId,
        workflow_policy_digest: EvidenceDigest,
        preparation_key: EvidenceDigest,
        reduce_node_id: WorkflowNodeId,
        inputs: Seq<WorkflowReductionInputV1>,
        reduced_at_ms: i64,
    ) -> bool {
        &&& self.schema_version == WORKFLOW_REDUCTION_RECEIPT_SCHEMA_VERSION
        &&& self.request_id == request_id
        &&& self.attempt_id == attempt_id
        &&& self.project_id == project_id
        &&& self.source_sha == source_sha
        &&& self.workflow_policy_digest == workflow_policy_digest
        &&& self.preparation_key == preparation_key
        &&& self.reduce_node_id == reduce_node_id
        &&& self.inputs@ == inputs_sorted(inputs)
        &&& self.reduced_at_ms == reduced_at_ms
    }

    /// The receipt of a reduction, its inputs in the order of their names.
    pub fn new(
        request_id: Uuid,
        attempt_id: Uuid,
        project_id: ProjectId,
        source_sha: GitCommitId,
        workflow_policy_digest: EvidenceDigest,
        preparation_key: EvidenceDigest,
        reduce_node_id: WorkflowNodeId,
        inputs: Vec<WorkflowReductionInputV1>,
        reduced_at_ms: i64,
    ) -> (r: Result<WorkflowReductionReceiptV1, WorkflowContractError>)
        ensures
            match r {
                Ok(receipt) => receipt.fault() is None && receipt.describes(request_id, attempt_id, project_id, source_sha, workflow_policy_digest, preparation_key, reduce_node_id, inputs@, reduced_at_ms),
                Err(error) => forall|receipt: WorkflowReductionReceiptV1| #[trigger]
                    receipt.describes(request_id, attempt_id, project_id, source_sha, workflow_policy_digest, preparation_key, reduce_node_id, inputs@, reduced_at_ms) ==> if document_digest(receipt.sealed_json()) is None {
                        error is CanonicalEncoding
                    } else {
                        !receipt.well_formed() && error is InvalidReductionReceipt
                    },
            },
    {
        let receipt_digest = preparation_key.clone();
        let inputs = sort_inputs(inputs);
        let mut receipt = WorkflowReductionReceiptV1 {
            schema_version: WORKFLOW_REDUCTION_RECEIPT_SCHEMA_VERSION,
            request_id,
            attempt_id,
            project_id,
            source_sha,
            workflow_policy_digest,
            preparation_key,
            reduce_node_id,
            inputs,
            reduced_at_ms,
            receipt_digest,
        };
        match receipt.calculate_digest() {
            Err(error) => return Err(error),
            Ok(digest) => {
                receipt.receipt_digest = digest;
            },
        }
        match receipt.validate() {
            Err(error) => Err(error),
            Ok(()) => Ok(receipt),
        }
    }
}

} // verus!
