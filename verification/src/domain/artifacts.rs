//! What the phases of an operation leave behind, and the receipts over it.

use vstd::prelude::*;
use super::identifiers::{
    clone_digests, digest_document, digest_option, digest_str, digest_texts, digests_json,
    document_digest, EvidenceDigest,
};
use super::states::OperationPhase;
use crate::json::{
    json_int, json_object, json_optional_nat, json_optional_string, json_string, json_strings,
    nat_option, no_members, optional_str, EncodingError, JsonObject,
};
use crate::text::text_option;
use crate::unique_id::{optional_uuid_text, uuid_option, Uuid};

verus! {

/// Which sequence of phases a receipt belongs to.
#[derive(Clone, Copy, Debug, PartialEq, Eq, Hash, Structural)]
pub enum ExecutorPhaseBranch {
    Primary,
    RollbackRecovery,
}

impl ExecutorPhaseBranch {
    /// The name in documents.
    pub open spec fn name(self) -> Seq<char> {
        match self {
            ExecutorPhaseBranch::Primary => "primary"@,
            ExecutorPhaseBranch::RollbackRecovery => "rollback_recovery"@,
        }
    }

    pub fn as_str(self) -> (r: &'static str)
        ensures
            r@ == self.name(),
    {
        match self {
            ExecutorPhaseBranch::Primary => "primary",
            ExecutorPhaseBranch::RollbackRecovery => "rollback_recovery",
        }
    }
}

/// Why the evidence of a phase is refused.
#[derive(Clone, Copy, Debug, PartialEq, Eq, Structural)]
pub enum ArtifactContractError {
    MissingRequiredEvidence { phase: OperationPhase },
    UnexpectedEvidence { phase: OperationPhase },
}

/// Everything a phase can leave behind as typed evidence.
#[derive(Debug, PartialEq, Eq)]
pub struct PhaseArtifacts {
    pub authorized_phase_spec_digest: Option<EvidenceDigest>,
    pub source_gate_proof_digest: Option<EvidenceDigest>,
    pub drain_evidence_digest: Option<EvidenceDigest>,
    pub source_export_digest: Option<EvidenceDigest>,
    pub prefetch_evidence_digest: Option<EvidenceDigest>,
    pub ci_evidence_digest: Option<EvidenceDigest>,
    pub build_plan_digest: Option<EvidenceDigest>,
    pub deployment_plan_digest: Option<EvidenceDigest>,
    pub release_bundle_digest: Option<EvidenceDigest>,
    pub resource_reservation_digest: Option<EvidenceDigest>,
    pub build_context_digest: Option<EvidenceDigest>,
    pub generated_output_digests: Vec<EvidenceDigest>,
    pub image_digest: Option<EvidenceDigest>,
    pub image_id_digest: Option<EvidenceDigest>,
    pub base_image_digests: Vec<EvidenceDigest>,
    pub schema_version: Option<String>,
    pub backup_id: Option<Uuid>,
    pub backup_set_id: Option<Uuid>,
    pub base_backup_id: Option<Uuid>,
    pub base_backup_manifest_digest: Option<EvidenceDigest>,
    pub base_backup_evidence_digest: Option<EvidenceDigest>,
    pub base_backup_offsite_evidence_digest: Option<EvidenceDigest>,
    pub base_backup_verification_digest: Option<EvidenceDigest>,
    pub cutover_backup_id: Option<Uuid>,
    pub cutover_backup_manifest_digest: Option<EvidenceDigest>,
    pub cutover_backup_evidence_digest: Option<EvidenceDigest>,
    pub cutover_backup_verification_digest: Option<EvidenceDigest>,
    pub previous_release_bundle_digest: Option<EvidenceDigest>,
    pub health_evidence_digest: Option<EvidenceDigest>,
    pub fencing_epoch: Option<u64>,
}

impl PhaseArtifacts {
    /// The same evidence in every field.
    pub open spec fn same_as(self, other: PhaseArtifacts) -> bool {
        &&& self.authorized_phase_spec_digest == other.authorized_phase_spec_digest
        &&& self.source_gate_proof_digest == other.source_gate_proof_digest
        &&& self.drain_evidence_digest == other.drain_evidence_digest
        &&& self.source_export_digest == other.source_export_digest
        &&& self.prefetch_evidence_digest == other.prefetch_evidence_digest
        &&& self.ci_evidence_digest == other.ci_evidence_digest
        &&& self.build_plan_digest == other.build_plan_digest
        &&& self.deployment_plan_digest == other.deployment_plan_digest
        &&& self.release_bundle_digest == other.release_bundle_digest
        &&& self.resource_reservation_digest == other.resource_reservation_digest
        &&& self.build_context_digest == other.build_context_digest
        &&& self.generated_output_digests@ == other.generated_output_digests@
        &&& self.image_digest == other.image_digest
        &&& self.image_id_digest == other.image_id_digest
        &&& self.base_image_digests@ == other.base_image_digests@
        &&& self.schema_version == other.schema_version
        &&& self.backup_id == other.backup_id
        &&& self.backup_set_id == other.backup_set_id
        &&& self.base_backup_id == other.base_backup_id
        &&& self.base_backup_manifest_digest == other.base_backup_manifest_digest
        &&& self.base_backup_evidence_digest == other.base_backup_evidence_digest
        &&& self.base_backup_offsite_evidence_digest == other.base_backup_offsite_evidence_digest
        &&& self.base_backup_verification_digest == other.base_backup_verification_digest
        &&& self.cutover_backup_id == other.cutover_backup_id
        &&& self.cutover_backup_manifest_digest == other.cutover_backup_manifest_digest
        &&& self.cutover_backup_evidence_digest == other.cutover_backup_evidence_digest
        &&& self.cutover_backup_verification_digest == other.cutover_backup_verification_digest
        &&& self.previous_release_bundle_digest == other.previous_release_bundle_digest
        &&& self.health_evidence_digest == other.health_evidence_digest
        &&& self.fencing_epoch == other.fencing_epoch
    }

    /// No evidence at all.
    pub open spec fn empty(self) -> bool {
        &&& self.authorized_phase_spec_digest is None
        &&& self.source_gate_proof_digest is None
        &&& self.drain_evidence_digest is None
        &&& self.source_export_digest is None
        &&& self.prefetch_evidence_digest is None
        &&& self.ci_evidence_digest is None
        &&& self.build_plan_digest is None
        &&& self.deployment_plan_digest is None
        &&& self.release_bundle_digest is None
        &&& self.resource_reservation_digest is None
        &&& self.build_context_digest is None
        &&& self.generated_output_digests@.len() == 0
        &&& self.image_digest is None
        &&& self.image_id_digest is None
        &&& self.base_image_digests@.len() == 0
        &&& self.schema_version is None
        &&& self.backup_id is None
        &&& self.backup_set_id is None
        &&& self.base_backup_id is None
        &&& self.base_backup_manifest_digest is None
        &&& self.base_backup_evidence_digest is None
        &&& self.base_backup_offsite_evidence_digest is None
        &&& self.base_backup_verification_digest is None
        &&& self.cutover_backup_id is None
        &&& self.cutover_backup_manifest_digest is None
        &&& self.cutover_backup_evidence_digest is None
        &&& self.cutover_backup_verification_digest is None
        &&& self.previous_release_bundle_digest is None
        &&& self.health_evidence_digest is None
        &&& self.fencing_epoch is None
    }

    /// The evidence as JSON text.
    pub open spec fn json(self) -> Seq<char> {
        json_object(
            no_members()
                .push(("authorized_phase_spec_digest"@, json_optional_string(digest_option(self.authorized_phase_spec_digest))))
                .push(("source_gate_proof_digest"@, json_optional_string(digest_option(self.source_gate_proof_digest))))
                .push(("drain_evidence_digest"@, json_optional_string(digest_option(self.drain_evidence_digest))))
                .push(("source_export_digest"@, json_optional_string(digest_option(self.source_export_digest))))
                .push(("prefetch_evidence_digest"@, json_optional_string(digest_option(self.prefetch_evidence_digest))))
                .push(("ci_evidence_digest"@, json_optional_string(digest_option(self.ci_evidence_digest))))
                .push(("build_plan_digest"@, json_optional_string(digest_option(self.build_plan_digest))))
                .push(("deployment_plan_digest"@, json_optional_string(digest_option(self.deployment_plan_digest))))
                .push(("release_bundle_digest"@, json_optional_string(digest_option(self.release_bundle_digest))))
                .push(("resource_reservation_digest"@, json_optional_string(digest_option(self.resource_reservation_digest))))
                .push(("build_context_digest"@, json_optional_string(digest_option(self.build_context_digest))))
                .push(("generated_output_digests"@, json_strings(digest_texts(self.generated_output_digests@))))
                .push(("image_digest"@, json_optional_string(digest_option(self.image_digest))))
                .push(("image_id_digest"@, json_optional_string(digest_option(self.image_id_digest))))
                .push(("base_image_digests"@, json_strings(digest_texts(self.base_image_digests@))))
                .push(("schema_version"@, json_optional_string(text_option(self.schema_version))))
                .push(("backup_id"@, json_optional_string(uuid_option(self.backup_id))))
                .push(("backup_set_id"@, json_optional_string(uuid_option(self.backup_set_id))))
                .push(("base_backup_id"@, json_optional_string(uuid_option(self.base_backup_id))))
                .push(("base_backup_manifest_digest"@, json_optional_string(digest_option(self.base_backup_manifest_digest))))
                .push(("base_backup_evidence_digest"@, json_optional_string(digest_option(self.base_backup_evidence_digest))))
                .push(("base_backup_offsite_evidence_digest"@, json_optional_string(digest_option(self.base_backup_offsite_evidence_digest))))
                .push(("base_backup_verification_digest"@, json_optional_string(digest_option(self.base_backup_verification_digest))))
                .push(("cutover_backup_id"@, json_optional_string(uuid_option(self.cutover_backup_id))))
                .push(("cutover_backup_manifest_digest"@, json_optional_string(digest_option(self.cutover_backup_manifest_digest))))
                .push(("cutover_backup_evidence_digest"@, json_optional_string(digest_option(self.cutover_backup_evidence_digest))))
                .push(("cutover_backup_verification_digest"@, json_optional_string(digest_option(self.cutover_backup_verification_digest))))
                .push(("previous_release_bundle_digest"@, json_optional_string(digest_option(self.previous_release_bundle_digest))))
                .push(("health_evidence_digest"@, json_optional_string(digest_option(self.health_evidence_digest))))
                .push(("fencing_epoch"@, json_optional_nat(nat_option(self.fencing_epoch)))),
        )
    }

    pub fn to_json(&self) -> (r: String)
        ensures
            r@ == self.json(),
    {
        let mut object = JsonObject::new();
        object.optional_text("authorized_phase_spec_digest", digest_str(&self.authorized_phase_spec_digest));
        object.optional_text("source_gate_proof_digest", digest_str(&self.source_gate_proof_digest));
        object.optional_text("drain_evidence_digest", digest_str(&self.drain_evidence_digest));
        object.optional_text("source_export_digest", digest_str(&self.source_export_digest));
        object.optional_text("prefetch_evidence_digest", digest_str(&self.prefetch_evidence_digest));
        object.optional_text("ci_evidence_digest", digest_str(&self.ci_evidence_digest));
        object.optional_text("build_plan_digest", digest_str(&self.build_plan_digest));
        object.optional_text("deployment_plan_digest", digest_str(&self.deployment_plan_digest));
        object.optional_text("release_bundle_digest", digest_str(&self.release_bundle_digest));
        object.optional_text("resource_reservation_digest", digest_str(&self.resource_reservation_digest));
        object.optional_text("build_context_digest", digest_str(&self.build_context_digest));
        let generated_output_digests = digests_json(&self.generated_output_digests);
        object.raw("generated_output_digests", generated_output_digests.as_str());
        object.optional_text("image_digest", digest_str(&self.image_digest));
        object.optional_text("image_id_digest", digest_str(&self.image_id_digest));
        let base_image_digests = digests_json(&self.base_image_digests);
        object.raw("base_image_digests", base_image_digests.as_str());
        object.optional_text("schema_version", optional_str(&self.schema_version));
        let backup_id = optional_uuid_text(&self.backup_id);
        object.optional_text("backup_id", optional_str(&backup_id));
        let backup_set_id = optional_uuid_text(&self.backup_set_id);
        object.optional_text("backup_set_id", optional_str(&backup_set_id));
        let base_backup_id = optional_uuid_text(&self.base_backup_id);
        object.optional_text("base_backup_id", optional_str(&base_backup_id));
        object.optional_text("base_backup_manifest_digest", digest_str(&self.base_backup_manifest_digest));
        object.optional_text("base_backup_evidence_digest", digest_str(&self.base_backup_evidence_digest));
        object.optional_text("base_backup_offsite_evidence_digest", digest_str(&self.base_backup_offsite_evidence_digest));
        object.optional_text("base_backup_verification_digest", digest_str(&self.base_backup_verification_digest));
        let cutover_backup_id = optional_uuid_text(&self.cutover_backup_id);
        object.optional_text("cutover_backup_id", optional_str(&cutover_backup_id));
        object.optional_text("cutover_backup_manifest_digest", digest_str(&self.cutover_backup_manifest_digest));
        object.optional_text("cutover_backup_evidence_digest", digest_str(&self.cutover_backup_evidence_digest));
        object.optional_text("cutover_backup_verification_digest", digest_str(&self.cutover_backup_verification_digest));
        object.optional_text("previous_release_bundle_digest", digest_str(&self.previous_release_bundle_digest));
        object.optional_text("health_evidence_digest", digest_str(&self.health_evidence_digest));
        object.optional_number("fencing_epoch", self.fencing_epoch);
        object.finish()
    }

    /// The evidence that a phase must leave behind.
    pub open spec fn has_required(self, phase: OperationPhase) -> bool {
        match phase {
            OperationPhase::Testing => {
                &&& self.source_export_digest is Some
                &&& self.prefetch_evidence_digest is Some
                &&& self.ci_evidence_digest is Some
                &&& self.build_context_digest is Some
                &&& self.resource_reservation_digest is Some
                &&& self.base_image_digests@.len() > 0
            },
            OperationPhase::Building => {
                &&& self.build_context_digest is Some
                &&& self.build_plan_digest is Some
                &&& self.image_digest is Some
                &&& self.image_id_digest is Some
                &&& self.base_image_digests@.len() > 0
            },
            OperationPhase::Preflight => {
                &&& self.resource_reservation_digest is Some
            },
            OperationPhase::Draining => {
                &&& self.source_gate_proof_digest is Some
                &&& self.drain_evidence_digest is Some
            },
            OperationPhase::Deploying => {
                &&& self.deployment_plan_digest is Some
                &&& self.release_bundle_digest is Some
            },
            OperationPhase::BackingUp => {
                &&& self.backup_set_id is Some
                &&& self.base_backup_id is Some
                &&& self.base_backup_manifest_digest is Some
                &&& self.base_backup_evidence_digest is Some
                &&& self.base_backup_offsite_evidence_digest is Some
                &&& self.base_backup_verification_digest is Some
            },
            OperationPhase::CutoverSnapshotting => {
                &&& self.backup_set_id is Some
                &&& self.cutover_backup_id is Some
                &&& self.cutover_backup_manifest_digest is Some
                &&& self.cutover_backup_evidence_digest is Some
                &&& self.cutover_backup_verification_digest is Some
                &&& self.fencing_epoch is Some
            },
            OperationPhase::Migrating => {
                &&& self.schema_version is Some
            },
            OperationPhase::HealthChecking => {
                &&& self.health_evidence_digest is Some
            },
            _ => true,
        }
    }

    /// Each piece of evidence belongs to some phases, and only those may leave it behind. The
    /// digest of the authorized phase specification belongs to every phase.
    pub open spec fn has_only_expected(self, phase: OperationPhase) -> bool {
        &&& self.source_gate_proof_digest is Some ==> phase is BackingUp || phase is Draining || phase is Deploying
        &&& self.drain_evidence_digest is Some ==> phase is Draining
        &&& self.source_export_digest is Some ==> phase is Testing
        &&& self.prefetch_evidence_digest is Some ==> phase is Testing
        &&& self.ci_evidence_digest is Some ==> phase is Testing
        &&& self.build_plan_digest is Some ==> phase is Building
        &&& self.deployment_plan_digest is Some ==> phase is Deploying
        &&& self.release_bundle_digest is Some ==> phase is Deploying
        &&& self.resource_reservation_digest is Some ==> phase is Testing || phase is Preflight
        &&& self.build_context_digest is Some ==> phase is Testing || phase is Building
        &&& self.generated_output_digests@.len() > 0 ==> phase is Testing
        &&& self.image_digest is Some ==> phase is Building
        &&& self.image_id_digest is Some ==> phase is Building
        &&& self.base_image_digests@.len() > 0 ==> phase is Testing || phase is Building
        &&& self.schema_version is Some ==> phase is Migrating
        &&& self.backup_id is None
        &&& self.backup_set_id is Some ==> phase is BackingUp || phase is CutoverSnapshotting
        &&& self.base_backup_id is Some ==> phase is BackingUp
        &&& self.base_backup_manifest_digest is Some ==> phase is BackingUp
        &&& self.base_backup_evidence_digest is Some ==> phase is BackingUp
        &&& self.base_backup_offsite_evidence_digest is Some ==> phase is BackingUp
        &&& self.base_backup_verification_digest is Some ==> phase is BackingUp
        &&& self.cutover_backup_id is Some ==> phase is CutoverSnapshotting
        &&& self.cutover_backup_manifest_digest is Some ==> phase is CutoverSnapshotting
        &&& self.cutover_backup_evidence_digest is Some ==> phase is CutoverSnapshotting
        &&& self.cutover_backup_verification_digest is Some ==> phase is CutoverSnapshotting
        &&& self.previous_release_bundle_digest is Some ==> phase is Deploying || phase is Rollback
        &&& self.health_evidence_digest is Some ==> phase is HealthChecking || phase is Soaking
        &&& self.fencing_epoch is Some ==> phase is CutoverSnapshotting
    }

    fn required_present(&self, phase: OperationPhase) -> (r: bool)
        ensures
            r == self.has_required(phase),
    {
        match phase {
            OperationPhase::Testing => {
                self.source_export_digest.is_some()
                    && self.prefetch_evidence_digest.is_some()
                    && self.ci_evidence_digest.is_some()
                    && self.build_context_digest.is_some()
                    && self.resource_reservation_digest.is_some()
                    && !self.base_image_digests.is_empty()
            },
            OperationPhase::Building => {
                self.build_context_digest.is_some()
                    && self.build_plan_digest.is_some()
                    && self.image_digest.is_some()
                    && self.image_id_digest.is_some()
                    && !self.base_image_digests.is_empty()
            },
            OperationPhase::Preflight => {
                self.resource_reservation_digest.is_some()
            },
            OperationPhase::Draining => {
                self.source_gate_proof_digest.is_some()
                    && self.drain_evidence_digest.is_some()
            },
            OperationPhase::Deploying => {
                self.deployment_plan_digest.is_some()
                    && self.release_bundle_digest.is_some()
            },
            OperationPhase::BackingUp => {
                self.backup_set_id.is_some()
                    && self.base_backup_id.is_some()
                    && self.base_backup_manifest_digest.is_some()
                    && self.base_backup_evidence_digest.is_some()
                    && self.base_backup_offsite_evidence_digest.is_some()
                    && self.base_backup_verification_digest.is_some()
            },
            OperationPhase::CutoverSnapshotting => {
                self.backup_set_id.is_some()
                    && self.cutover_backup_id.is_some()
                    && self.cutover_backup_manifest_digest.is_some()
                    && self.cutover_backup_evidence_digest.is_some()
                    && self.cutover_backup_verification_digest.is_some()
                    && self.fencing_epoch.is_some()
            },
            OperationPhase::Migrating => {
                self.schema_version.is_some()
            },
            OperationPhase::HealthChecking => {
                self.health_evidence_digest.is_some()
            },
            _ => true,
        }
    }

    fn contains_only_phase_artifacts(&self, phase: OperationPhase) -> (r: bool)
        ensures
            r == self.has_only_expected(phase),
    {
        (self.source_gate_proof_digest.is_none() || phase == OperationPhase::BackingUp || phase == OperationPhase::Draining || phase == OperationPhase::Deploying)
            && (self.drain_evidence_digest.is_none() || phase == OperationPhase::Draining)
            && (self.source_export_digest.is_none() || phase == OperationPhase::Testing)
            && (self.prefetch_evidence_digest.is_none() || phase == OperationPhase::Testing)
            && (self.ci_evidence_digest.is_none() || phase == OperationPhase::Testing)
            && (self.build_plan_digest.is_none() || phase == OperationPhase::Building)
            && (self.deployment_plan_digest.is_none() || phase == OperationPhase::Deploying)
            && (self.release_bundle_digest.is_none() || phase == OperationPhase::Deploying)
            && (self.resource_reservation_digest.is_none() || phase == OperationPhase::Testing || phase == OperationPhase::Preflight)
            && (self.build_context_digest.is_none() || phase == OperationPhase::Testing || phase == OperationPhase::Building)
            && (self.generated_output_digests.is_empty() || phase == OperationPhase::Testing)
            && (self.image_digest.is_none() || phase == OperationPhase::Building)
            && (self.image_id_digest.is_none() || phase == OperationPhase::Building)
            && (self.base_image_digests.is_empty() || phase == OperationPhase::Testing || phase == OperationPhase::Building)
            && (self.schema_version.is_none() || phase == OperationPhase::Migrating)
            && self.backup_id.is_none()
            && (self.backup_set_id.is_none() || phase == OperationPhase::BackingUp || phase == OperationPhase::CutoverSnapshotting)
            && (self.base_backup_id.is_none() || phase == OperationPhase::BackingUp)
            && (self.base_backup_manifest_digest.is_none() || phase == OperationPhase::BackingUp)
            && (self.base_backup_evidence_digest.is_none() || phase == OperationPhase::BackingUp)
            && (self.base_backup_offsite_evidence_digest.is_none() || phase == OperationPhase::BackingUp)
            && (self.base_backup_verification_digest.is_none() || phase == OperationPhase::BackingUp)
            && (self.cutover_backup_id.is_none() || phase == OperationPhase::CutoverSnapshotting)
            && (self.cutover_backup_manifest_digest.is_none() || phase == OperationPhase::CutoverSnapshotting)
            && (self.cutover_backup_evidence_digest.is_none() || phase == OperationPhase::CutoverSnapshotting)
            && (self.cutover_backup_verification_digest.is_none() || phase == OperationPhase::CutoverSnapshotting)
            && (self.previous_release_bundle_digest.is_none() || phase == OperationPhase::Deploying || phase == OperationPhase::Rollback)
            && (self.health_evidence_digest.is_none() || phase == OperationPhase::HealthChecking || phase == OperationPhase::Soaking)
            && (self.fencing_epoch.is_none() || phase == OperationPhase::CutoverSnapshotting)
    }

    /// Accepts evidence that holds all a phase must leave behind and nothing that belongs to other
    /// phases. Missing evidence is told before unexpected evidence.
    pub fn validate_for_phase(
        &self,
        phase: OperationPhase,
    ) -> (r: Result<(), ArtifactContractError>)
        ensures
            match r {
                Ok(()) => self.has_required(phase) && self.has_only_expected(phase),
                Err(ArtifactContractError::MissingRequiredEvidence { phase: p }) => {
                    p == phase && !self.has_required(phase)
                },
                Err(ArtifactContractError::UnexpectedEvidence { phase: p }) => {
                    p == phase && self.has_required(phase) && !self.has_only_expected(phase)
                },
            },
    {
        let required = self.required_present(phase);
        if required && self.contains_only_phase_artifacts(phase) {
            Ok(())
        } else if required {
            Err(ArtifactContractError::UnexpectedEvidence { phase })
        } else {
            Err(ArtifactContractError::MissingRequiredEvidence { phase })
        }
    }
}

impl Default for PhaseArtifacts {
    fn default() -> (r: PhaseArtifacts)
        ensures
            r.empty(),
    {
        PhaseArtifacts {
            authorized_phase_spec_digest: None,
            source_gate_proof_digest: None,
            drain_evidence_digest: None,
            source_export_digest: None,
            prefetch_evidence_digest: None,
            ci_evidence_digest: None,
            build_plan_digest: None,
            deployment_plan_digest: None,
            release_bundle_digest: None,
            resource_reservation_digest: None,
            build_context_digest: None,
            generated_output_digests: Vec::new(),
            image_digest: None,
            image_id_digest: None,
            base_image_digests: Vec::new(),
            schema_version: None,
            backup_id: None,
            backup_set_id: None,
            base_backup_id: None,
            base_backup_manifest_digest: None,
            base_backup_evidence_digest: None,
            base_backup_offsite_evidence_digest: None,
            base_backup_verification_digest: None,
            cutover_backup_id: None,
            cutover_backup_manifest_digest: None,
            cutover_backup_evidence_digest: None,
            cutover_backup_verification_digest: None,
            previous_release_bundle_digest: None,
            health_evidence_digest: None,
            fencing_epoch: None,
        }
    }
}

impl Clone for PhaseArtifacts {
    fn clone(&self) -> (r: PhaseArtifacts)
        ensures
            r.same_as(*self),
    {
        PhaseArtifacts {
            authorized_phase_spec_digest: self.authorized_phase_spec_digest.clone(),
            source_gate_proof_digest: self.source_gate_proof_digest.clone(),
            drain_evidence_digest: self.drain_evidence_digest.clone(),
            source_export_digest: self.source_export_digest.clone(),
            prefetch_evidence_digest: self.prefetch_evidence_digest.clone(),
            ci_evidence_digest: self.ci_evidence_digest.clone(),
            build_plan_digest: self.build_plan_digest.clone(),
            deployment_plan_digest: self.deployment_plan_digest.clone(),
            release_bundle_digest: self.release_bundle_digest.clone(),
            resource_reservation_digest: self.resource_reservation_digest.clone(),
            build_context_digest: self.build_context_digest.clone(),
            generated_output_digests: clone_digests(&self.generated_output_digests),
            image_digest: self.image_digest.clone(),
            image_id_digest: self.image_id_digest.clone(),
            base_image_digests: clone_digests(&self.base_image_digests),
            schema_version: self.schema_version.clone(),
            backup_id: self.backup_id,
            backup_set_id: self.backup_set_id,
            base_backup_id: self.base_backup_id,
            base_backup_manifest_digest: self.base_backup_manifest_digest.clone(),
            base_backup_evidence_digest: self.base_backup_evidence_digest.clone(),
            base_backup_offsite_evidence_digest: self.base_backup_offsite_evidence_digest.clone(),
            base_backup_verification_digest: self.base_backup_verification_digest.clone(),
            cutover_backup_id: self.cutover_backup_id,
            cutover_backup_manifest_digest: self.cutover_backup_manifest_digest.clone(),
            cutover_backup_evidence_digest: self.cutover_backup_evidence_digest.clone(),
            cutover_backup_verification_digest: self.cutover_backup_verification_digest.clone(),
            previous_release_bundle_digest: self.previous_release_bundle_digest.clone(),
            health_evidence_digest: self.health_evidence_digest.clone(),
            fencing_epoch: self.fencing_epoch,
        }
    }
}

/// The record of a phase that was carried out, sealed by a digest over everything in it.
#[derive(Debug, PartialEq, Eq)]
pub struct PhaseReceipt {
    pub attempt_id: Uuid,
    pub phase: OperationPhase,
    pub branch: ExecutorPhaseBranch,
    pub intent_digest: EvidenceDigest,
    pub observation_digest: EvidenceDigest,
    pub artifacts: PhaseArtifacts,
    pub receipt_digest: EvidenceDigest,
    pub committed_at_ms: i64,
}

impl PhaseReceipt {
    /// What the digest is taken over: everything but the digest itself.
    pub open spec fn sealed_json(self) -> Seq<char> {
        json_object(
            no_members()
                .push(("attempt_id"@, json_string(self.attempt_id.text())))
                .push(("phase"@, json_string(self.phase.name())))
                .push(("branch"@, json_string(self.branch.name())))
                .push(("intent_digest"@, json_string(self.intent_digest@)))
                .push(("observation_digest"@, json_string(self.observation_digest@)))
                .push(("artifacts"@, self.artifacts.json()))
                .push(("committed_at_ms"@, json_int(self.committed_at_ms as int))),
        )
    }

    fn to_sealed_json(&self) -> (r: String)
        ensures
            r@ == self.sealed_json(),
    {
        let mut object = JsonObject::new();
        let attempt_id = self.attempt_id.to_text();
        object.text("attempt_id", attempt_id.as_str());
        object.text("phase", self.phase.as_str());
        object.text("branch", self.branch.as_str());
        object.text("intent_digest", self.intent_digest.as_str());
        object.text("observation_digest", self.observation_digest.as_str());
        let artifacts = self.artifacts.to_json();
        object.raw("artifacts", artifacts.as_str());
        object.signed("committed_at_ms", self.committed_at_ms);
        object.finish()
    }

    /// The digest is the one of what it seals.
    pub open spec fn sealed(self) -> bool {
        document_digest(self.sealed_json()) == Some(self.receipt_digest@)
    }

    /// Fails only where the evidence has no canonical form; what comes out is sealed.
    pub fn new(
        attempt_id: Uuid,
        phase: OperationPhase,
        branch: ExecutorPhaseBranch,
        intent_digest: EvidenceDigest,
        observation_digest: EvidenceDigest,
        artifacts: PhaseArtifacts,
        committed_at_ms: i64,
    ) -> (r: Result<PhaseReceipt, EncodingError>)
        ensures
            match r {
                Ok(receipt) => {
                    &&& receipt.attempt_id == attempt_id
                    &&& receipt.phase == phase
                    &&& receipt.branch == branch
                    &&& receipt.intent_digest == intent_digest
                    &&& receipt.observation_digest == observation_digest
                    &&& receipt.artifacts == artifacts
                    &&& receipt.committed_at_ms == committed_at_ms
                    &&& receipt.sealed()
                },
                Err(_) => forall|receipt: PhaseReceipt|
                    receipt.attempt_id == attempt_id && receipt.phase == phase && receipt.branch
                        == branch && receipt.intent_digest == intent_digest
                        && receipt.observation_digest == observation_digest && receipt.artifacts
                        == artifacts && receipt.committed_at_ms == committed_at_ms
                        ==> document_digest(#[trigger] receipt.sealed_json()) is None,
            },
    {
        let receipt_digest = intent_digest.clone();
        let mut receipt = PhaseReceipt {
            attempt_id,
            phase,
            branch,
            intent_digest,
            observation_digest,
            artifacts,
            receipt_digest,
            committed_at_ms,
        };
        let text = receipt.to_sealed_json();
        match digest_document(text.as_str()) {
            Ok(digest) => {
                receipt.receipt_digest = digest;
                Ok(receipt)
            },
            Err(error) => Err(error),
        }
    }

    /// Whether the receipt is sealed.
    pub fn has_valid_digest(&self) -> (r: Result<bool, EncodingError>)
        ensures
            match r {
                Ok(valid) => document_digest(self.sealed_json()) is Some && valid == self.sealed(),
                Err(_) => document_digest(self.sealed_json()) is None,
            },
    {
        let text = self.to_sealed_json();
        match digest_document(text.as_str()) {
            Ok(digest) => Ok(self.receipt_digest == digest),
            Err(error) => Err(error),
        }
    }
}

impl Clone for PhaseReceipt {
    fn clone(&self) -> (r: PhaseReceipt)
        ensures
            r.same_as(*self),
    {
        PhaseReceipt {
            attempt_id: self.attempt_id,
            phase: self.phase,
            branch: self.branch,
            intent_digest: self.intent_digest.clone(),
            observation_digest: self.observation_digest.clone(),
            artifacts: self.artifacts.clone(),
            receipt_digest: self.receipt_digest.clone(),
            committed_at_ms: self.committed_at_ms,
        }
    }
}

impl PhaseReceipt {
    /// The same in every field.
    pub open spec fn same_as(self, other: PhaseReceipt) -> bool {
        &&& self.attempt_id == other.attempt_id
        &&& self.phase == other.phase
        &&& self.branch == other.branch
        &&& self.intent_digest == other.intent_digest
        &&& self.observation_digest == other.observation_digest
        &&& self.artifacts.same_as(other.artifacts)
        &&& self.receipt_digest == other.receipt_digest
        &&& self.committed_at_ms == other.committed_at_ms
    }
}

/// A phase is accepted only with the evidence that it did what it is for: tests with what was tested
/// and where, a build with its image, a drain and a deployment with their plans, a backup with its
/// copy elsewhere, a cutover with its snapshot under a fence, a migration with the schema it reached,
/// a check of health with what it found.
pub proof fn law_phases_prove_what_they_did(
    artifacts: PhaseArtifacts,
    phase: OperationPhase,
    r: Result<(), ArtifactContractError>,
)
    requires
        call_ensures(PhaseArtifacts::validate_for_phase, (&artifacts, phase), r),
    ensures
        r is Ok && phase is Testing ==> artifacts.source_export_digest is Some
            && artifacts.prefetch_evidence_digest is Some && artifacts.ci_evidence_digest is Some
            && artifacts.build_context_digest is Some && artifacts.resource_reservation_digest
            is Some && artifacts.base_image_digests@.len() > 0,
        r is Ok && phase is Building ==> artifacts.image_digest is Some && artifacts.image_id_digest
            is Some && artifacts.build_plan_digest is Some && artifacts.build_context_digest is Some
            && artifacts.base_image_digests@.len() > 0,
        r is Ok && phase is Preflight ==> artifacts.resource_reservation_digest is Some,
        r is Ok && phase is Draining ==> artifacts.source_gate_proof_digest is Some
            && artifacts.drain_evidence_digest is Some,
        r is Ok && phase is BackingUp ==> artifacts.backup_set_id is Some && artifacts.base_backup_id
            is Some && artifacts.base_backup_manifest_digest is Some
            && artifacts.base_backup_evidence_digest is Some
            && artifacts.base_backup_offsite_evidence_digest is Some
            && artifacts.base_backup_verification_digest is Some,
        r is Ok && phase is CutoverSnapshotting ==> artifacts.backup_set_id is Some
            && artifacts.cutover_backup_id is Some && artifacts.cutover_backup_manifest_digest
            is Some && artifacts.cutover_backup_evidence_digest is Some
            && artifacts.cutover_backup_verification_digest is Some && artifacts.fencing_epoch is Some,
        r is Ok && phase is Migrating ==> artifacts.schema_version is Some,
        r is Ok && phase is Deploying ==> artifacts.deployment_plan_digest is Some
            && artifacts.release_bundle_digest is Some,
        r is Ok && phase is HealthChecking ==> artifacts.health_evidence_digest is Some,
        artifacts.empty() && (phase is Queued || phase is SyncingSource || phase is VerifyingSource
            || phase is Soaking || phase is Rollback || phase is Reconciliation) ==> r is Ok,
{
}

/// No evidence is accepted of a phase that cannot have it: two phases that accept one piece of
/// evidence are those that it belongs to.
pub proof fn law_evidence_belongs_to_its_phases(
    artifacts: PhaseArtifacts,
    phase: OperationPhase,
    r: Result<(), ArtifactContractError>,
)
    requires
        call_ensures(PhaseArtifacts::validate_for_phase, (&artifacts, phase), r),
        r is Ok,
    ensures
        artifacts.image_digest is Some || artifacts.image_id_digest is Some
            || artifacts.build_plan_digest is Some ==> phase is Building,
        artifacts.ci_evidence_digest is Some || artifacts.source_export_digest is Some
            || artifacts.prefetch_evidence_digest is Some || artifacts.generated_output_digests@.len()
            > 0 ==> phase is Testing,
        artifacts.build_context_digest is Some || artifacts.base_image_digests@.len() > 0
            ==> phase is Testing || phase is Building,
        artifacts.resource_reservation_digest is Some ==> phase is Testing || phase is Preflight,
        artifacts.deployment_plan_digest is Some || artifacts.release_bundle_digest is Some
            ==> phase is Deploying,
        artifacts.drain_evidence_digest is Some ==> phase is Draining,
        artifacts.source_gate_proof_digest is Some ==> phase is BackingUp || phase is Draining
            || phase is Deploying,
        artifacts.base_backup_id is Some || artifacts.base_backup_manifest_digest is Some
            || artifacts.base_backup_evidence_digest is Some
            || artifacts.base_backup_offsite_evidence_digest is Some
            || artifacts.base_backup_verification_digest is Some ==> phase is BackingUp,
        artifacts.cutover_backup_id is Some || artifacts.cutover_backup_manifest_digest is Some
            || artifacts.cutover_backup_evidence_digest is Some
            || artifacts.cutover_backup_verification_digest is Some || artifacts.fencing_epoch is Some
            ==> phase is CutoverSnapshotting,
        artifacts.backup_set_id is Some ==> phase is BackingUp || phase is CutoverSnapshotting,
        artifacts.backup_id is None,
        artifacts.schema_version is Some ==> phase is Migrating,
        artifacts.previous_release_bundle_digest is Some ==> phase is Deploying || phase is Rollback,
        artifacts.health_evidence_digest is Some ==> phase is HealthChecking || phase is Soaking,
{
}

} // verus!
