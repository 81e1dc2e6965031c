//! What the executor is about to do in a phase, and by what authority.

use vstd::prelude::*;
use crate::controller::StoreError;
use crate::domain::artifacts::ExecutorPhaseBranch;
use crate::domain::identifiers::{
    clone_digests, digest_document, digest_option, digest_str, digest_texts, digests_json,
    document_digest, EvidenceDigest, GitCommitId, ProjectId,
};
use crate::domain::operation::{
    InstalledPolicyIdentity, OperationActor, OperationKind, OperationRecoveryMode, ReleaseClass,
};
use crate::domain::record::{AuthorizedPhaseSpecDigestV1, OperationEvidence, OperationRecord};
use crate::domain::states::OperationPhase;
use crate::json::{
    json_array, json_nat, json_object, json_optional, json_optional_nat, json_optional_string,
    json_string, json_strings, nat_option, no_members, optional_str, EncodingError, JsonArray,
    JsonObject,
};
use crate::text::text_option;
use crate::unique_id::{optional_uuid_text, uuid_option, Uuid};

verus! {

impl InstalledPolicyIdentity {
    /// The document as JSON text.
    pub open spec fn json(self) -> Seq<char> {
        json_object(
            no_members()
                .push(("digest"@, json_string(self.digest@)))
                .push(("version"@, json_nat(self.version as nat))),
        )
    }

    pub fn to_json(&self) -> (r: String)
        ensures
            r@ == self.json(),
    {
        let mut object = JsonObject::new();
        object.text("digest", self.digest.as_str());
        object.number("version", self.version);
        object.finish()
    }
}

impl AuthorizedPhaseSpecDigestV1 {
    /// The document as JSON text.
    pub open spec fn json(self) -> Seq<char> {
        json_object(
            no_members()
                .push(("branch"@, json_string(self.branch.name())))
                .push(("phase"@, json_string(self.phase.name())))
                .push(("spec_digest"@, json_string(self.spec_digest@))),
        )
    }

    pub fn to_json(&self) -> (r: String)
        ensures
            r@ == self.json(),
    {
        let mut object = JsonObject::new();
        object.text("branch", self.branch.as_str());
        object.text("phase", self.phase.as_str());
        object.text("spec_digest", self.spec_digest.as_str());
        object.finish()
    }
}

impl Clone for AuthorizedPhaseSpecDigestV1 {
    fn clone(&self) -> (r: AuthorizedPhaseSpecDigestV1)
        ensures
            r == *self,
    {
        AuthorizedPhaseSpecDigestV1 {
            branch: self.branch,
            phase: self.phase,
            spec_digest: self.spec_digest.clone(),
        }
    }
}

impl OperationActor {
    /// The document as JSON text, with the variant as its kind.
    pub open spec fn json(self) -> Seq<char> {
        match self {
            OperationActor::Interactive { user_id } => json_object(
                no_members()
                    .push(("kind"@, json_string("interactive"@)))
                    .push(("user_id"@, json_string(user_id.text()))),
            ),
            OperationActor::Automation { source } => json_object(
                no_members()
                    .push(("kind"@, json_string("automation"@)))
                    .push(("source"@, json_string(source.name()))),
            ),
        }
    }

    pub fn to_json(&self) -> (r: String)
        ensures
            r@ == self.json(),
    {
        let mut object = JsonObject::new();
        match self {
            OperationActor::Interactive { user_id } => {
                object.text("kind", "interactive");
                let user_id = user_id.to_text();
                object.text("user_id", user_id.as_str());
            },
            OperationActor::Automation { source } => {
                object.text("kind", "automation");
                object.text("source", source.as_str());
            },
        }
        object.finish()
    }
}

/// What was authorized as a JSON array.
pub open spec fn authorized_json(values: Seq<AuthorizedPhaseSpecDigestV1>) -> Seq<char> {
    json_array(values.map_values(|value: AuthorizedPhaseSpecDigestV1| value.json()))
}

fn authorized_json_text(values: &Vec<AuthorizedPhaseSpecDigestV1>) -> (r: String)
    ensures
        r@ == authorized_json(values@),
{
    let mut array = JsonArray::new();
    let mut i: usize = 0;
    while i < values.len()
        invariant
            i <= values.len(),
            array.wf(),
            array@ == values@.take(i as int).map_values(|value: AuthorizedPhaseSpecDigestV1| value.json()),
        decreases values.len() - i,
    {
        let item = values[i].to_json();
        array.raw(item.as_str());
        i += 1;
        assert(array@ =~= values@.take(i as int).map_values(|value: AuthorizedPhaseSpecDigestV1| value.json()));
    }
    assert(values@.take(i as int) =~= values@);
    array.finish()
}

fn clone_authorized(values: &Vec<AuthorizedPhaseSpecDigestV1>) -> (r: Vec<
    AuthorizedPhaseSpecDigestV1,
>)
    ensures
        r@ == values@,
{
    let mut copy: Vec<AuthorizedPhaseSpecDigestV1> = Vec::new();
    let mut i: usize = 0;
    while i < values.len()
        invariant
            i <= values.len(),
            copy@ == values@.take(i as int),
        decreases values.len() - i,
    {
        copy.push(values[i].clone());
        i += 1;
        assert(copy@ =~= values@.take(i as int));
    }
    assert(values@.take(i as int) =~= values@);
    copy
}

/// Everything that what is done in a phase depends on.
#[derive(Clone, Debug, PartialEq, Eq)]
pub struct PhaseIntentPayloadV1 {
    pub purpose: &'static str,
    pub attempt_id: Uuid,
    pub request_id: Uuid,
    pub project_id: ProjectId,
    pub operation_kind: OperationKind,
    pub release_class: Option<ReleaseClass>,
    pub target_commit: Option<GitCommitId>,
    pub phase: OperationPhase,
    pub branch: ExecutorPhaseBranch,
    pub installed_policy: Option<InstalledPolicyIdentity>,
    pub authorized_phase_spec_digests: Vec<AuthorizedPhaseSpecDigestV1>,
    pub executor_authorization_digest: EvidenceDigest,
    pub source_attestation_digest: Option<EvidenceDigest>,
    pub source_sequence: Option<u64>,
    pub source_gate_proof_digest: Option<EvidenceDigest>,
    pub drain_evidence_digest: Option<EvidenceDigest>,
    pub source_export_digest: Option<EvidenceDigest>,
    pub prefetch_evidence_digest: Option<EvidenceDigest>,
    pub ci_evidence_digest: Option<EvidenceDigest>,
    pub build_plan_digest: Option<EvidenceDigest>,
    pub deployment_plan_digest: Option<EvidenceDigest>,
    pub release_bundle_digest: Option<EvidenceDigest>,
    pub resource_reservation_digest: Option<EvidenceDigest>,
    pub action_grant_digest: Option<EvidenceDigest>,
    pub build_context_digest: Option<EvidenceDigest>,
    pub generated_output_digests: Vec<EvidenceDigest>,
    pub image_digest: Option<EvidenceDigest>,
    pub image_id_digest: Option<EvidenceDigest>,
    pub base_image_digests: Vec<EvidenceDigest>,
    pub schema_version: Option<String>,
    pub backup_id: Option<Uuid>,
    pub backup_set_id: Option<Uuid>,
    pub base_backup_id: Option<Uuid>,
    pub base_backup_manifest_digest: Option<EvidenceDigest>,
    pub base_backup_evidence_digest: Option<EvidenceDigest>,
    pub base_backup_offsite_evidence_digest: Option<EvidenceDigest>,
    pub base_backup_verification_digest: Option<EvidenceDigest>,
    pub cutover_backup_id: Option<Uuid>,
    pub cutover_backup_manifest_digest: Option<EvidenceDigest>,
    pub cutover_backup_evidence_digest: Option<EvidenceDigest>,
    pub cutover_backup_verification_digest: Option<EvidenceDigest>,
    pub previous_release_bundle_digest: Option<EvidenceDigest>,
    pub health_evidence_digest: Option<EvidenceDigest>,
    pub rollback_health_evidence_digest: Option<EvidenceDigest>,
    pub fencing_epoch: Option<u64>,
    pub fence_acquisition_receipt_digest: Option<EvidenceDigest>,
    pub recovery_mode: Option<OperationRecoveryMode>,
}

impl PhaseIntentPayloadV1 {
    /// The document as JSON text.
    #[verifier::opaque]
    pub open spec fn json(self) -> Seq<char> {
        json_object(
            no_members()
                .push(("purpose"@, json_string(self.purpose@)))
                .push(("attempt_id"@, json_string(self.attempt_id.text())))
                .push(("request_id"@, json_string(self.request_id.text())))
                .push(("project_id"@, json_string(self.project_id@)))
                .push(("operation_kind"@, json_string(self.operation_kind.name())))
                .push(("release_class"@, json_optional_string(match self.release_class { Some(v) => Some(v.name()), None => None })))
                .push(("target_commit"@, json_optional_string(match self.target_commit { Some(v) => Some(v@), None => None })))
                .push(("phase"@, json_string(self.phase.name())))
                .push(("branch"@, json_string(self.branch.name())))
                .push(("installed_policy"@, json_optional(match self.installed_policy { Some(v) => Some(v.json()), None => None })))
                .push(("authorized_phase_spec_digests"@, authorized_json(self.authorized_phase_spec_digests@)))
                .push(("executor_authorization_digest"@, json_string(self.executor_authorization_digest@)))
                .push(("source_attestation_digest"@, json_optional_string(digest_option(self.source_attestation_digest))))
                .push(("source_sequence"@, json_optional_nat(nat_option(self.source_sequence))))
                .push(("source_gate_proof_digest"@, json_optional_string(digest_option(self.source_gate_proof_digest))))
                .push(("drain_evidence_digest"@, json_optional_string(digest_option(self.drain_evidence_digest))))
                .push(("source_export_digest"@, json_optional_string(digest_option(self.source_export_digest))))
                .push(("prefetch_evidence_digest"@, json_optional_string(digest_option(self.prefetch_evidence_digest))))
                .push(("ci_evidence_digest"@, json_optional_string(digest_option(self.ci_evidence_digest))))
                .push(("build_plan_digest"@, json_optional_string(digest_option(self.build_plan_digest))))
                .push(("deployment_plan_digest"@, json_optional_string(digest_option(self.deployment_plan_digest))))
                .push(("release_bundle_digest"@, json_optional_string(digest_option(self.release_bundle_digest))))
                .push(("resource_reservation_digest"@, json_optional_string(digest_option(self.resource_reservation_digest))))
                .push(("action_grant_digest"@, json_optional_string(digest_option(self.action_grant_digest))))
                .push(("build_context_digest"@, json_optional_string(digest_option(self.build_context_digest))))
                .push(("generated_output_digests"@, json_strings(digest_texts(self.generated_output_digests@))))
                .push(("image_digest"@, json_optional_string(digest_option(self.image_digest))))
                .push(("image_id_digest"@, json_optional_string(digest_option(self.image_id_digest))))
                .push(("base_image_digests"@, json_strings(digest_texts(self.base_image_digests@))))
                .push(("schema_version"@, json_optional_string(text_option(self.schema_version))))
                .push(("backup_id"@, json_optional_string(uuid_option(self.backup_id))))
                .push(("backup_set_id"@, json_optional_string(uuid_option(self.backup_set_id))))
                .push(("base_backup_id"@, json_optional_string(uuid_option(self.base_backup_id))))
                .push(("base_backup_manifest_digest"@, json_optional_string(digest_option(self.base_backup_manifest_digest))))
                .push(("base_backup_evidence_digest"@, json_optional_string(digest_option(self.base_backup_evidence_digest))))
                .push(("base_backup_offsite_evidence_digest"@, json_optional_string(digest_option(self.base_backup_offsite_evidence_digest))))
                .push(("base_backup_verification_digest"@, json_optional_string(digest_option(self.base_backup_verification_digest))))
                .push(("cutover_backup_id"@, json_optional_string(uuid_option(self.cutover_backup_id))))
                .push(("cutover_backup_manifest_digest"@, json_optional_string(digest_option(self.cutover_backup_manifest_digest))))
                .push(("cutover_backup_evidence_digest"@, json_optional_string(digest_option(self.cutover_backup_evidence_digest))))
                .push(("cutover_backup_verification_digest"@, json_optional_string(digest_option(self.cutover_backup_verification_digest))))
                .push(("previous_release_bundle_digest"@, json_optional_string(digest_option(self.previous_release_bundle_digest))))
                .push(("health_evidence_digest"@, json_optional_string(digest_option(self.health_evidence_digest))))
                .push(("rollback_health_evidence_digest"@, json_optional_string(digest_option(self.rollback_health_evidence_digest))))
                .push(("fencing_epoch"@, json_optional_nat(nat_option(self.fencing_epoch))))
                .push(("fence_acquisition_receipt_digest"@, json_optional_string(digest_option(self.fence_acquisition_receipt_digest))))
                .push(("recovery_mode"@, json_optional_string(match self.recovery_mode { Some(v) => Some(v.name()), None => None }))),
        )
    }

    #[verifier::rlimit(40)]
    pub fn to_json(&self) -> (r: String)
        ensures
            r@ == self.json(),
    {
        reveal(PhaseIntentPayloadV1::json);
        let mut object = JsonObject::new();
        object.text("purpose", self.purpose);
        let attempt_id = self.attempt_id.to_text();
        object.text("attempt_id", attempt_id.as_str());
        let request_id = self.request_id.to_text();
        object.text("request_id", request_id.as_str());
        object.text("project_id", self.project_id.as_str());
        object.text("operation_kind", self.operation_kind.as_str());
        match self.release_class {
            Some(value) => object.text("release_class", value.as_str()),
            None => object.raw("release_class", "null"),
        }
        match &self.target_commit {
            Some(value) => object.text("target_commit", value.as_str()),
            None => object.raw("target_commit", "null"),
        }
        object.text("phase", self.phase.as_str());
        object.text("branch", self.branch.as_str());
        match &self.installed_policy {
            Some(value) => {
                let value = value.to_json();
                object.raw("installed_policy", value.as_str());
            },
            None => object.raw("installed_policy", "null"),
        }
        let authorized_phase_spec_digests = authorized_json_text(&self.authorized_phase_spec_digests);
        object.raw("authorized_phase_spec_digests", authorized_phase_spec_digests.as_str());
        object.text("executor_authorization_digest", self.executor_authorization_digest.as_str());
        object.optional_text("source_attestation_digest", digest_str(&self.source_attestation_digest));
        object.optional_number("source_sequence", self.source_sequence);
        object.optional_text("source_gate_proof_digest", digest_str(&self.source_gate_proof_digest));
        object.optional_text("drain_evidence_digest", digest_str(&self.drain_evidence_digest));
        object.optional_text("source_export_digest", digest_str(&self.source_export_digest));
        object.optional_text("prefetch_evidence_digest", digest_str(&self.prefetch_evidence_digest));
        object.optional_text("ci_evidence_digest", digest_str(&self.ci_evidence_digest));
        object.optional_text("build_plan_digest", digest_str(&self.build_plan_digest));
        object.optional_text("deployment_plan_digest", digest_str(&self.deployment_plan_digest));
        object.optional_text("release_bundle_digest", digest_str(&self.release_bundle_digest));
        object.optional_text("resource_reservation_digest", digest_str(&self.resource_reservation_digest));
        object.optional_text("action_grant_digest", digest_str(&self.action_grant_digest));
        object.optional_text("build_context_digest", digest_str(&self.build_context_digest));
        let generated_output_digests = digests_json(&self.generated_output_digests);
        object.raw("generated_output_digests", generated_output_digests.as_str());
        object.optional_text("image_digest", digest_str(&self.image_digest));
        object.optional_text("image_id_digest", digest_str(&self.image_id_digest));
        let base_image_digests = digests_json(&self.base_image_digests);
        object.raw("base_image_digests", base_image_digests.as_str());
        object.optional_text("schema_version", optional_str(&self.schema_version));
        let backup_id = optional_uuid_text(&self.backup_id);
        object.optional_text("backup_id", optional_str(&backup_id));
        let backup_set_id = optional_uuid_text(&self.backup_set_id);
        object.optional_text("backup_set_id", optional_str(&backup_set_id));
        let base_backup_id = optional_uuid_text(&self.base_backup_id);
        object.optional_text("base_backup_id", optional_str(&base_backup_id));
        object.optional_text("base_backup_manifest_digest", digest_str(&self.base_backup_manifest_digest));
        object.optional_text("base_backup_evidence_digest", digest_str(&self.base_backup_evidence_digest));
        object.optional_text("base_backup_offsite_evidence_digest", digest_str(&self.base_backup_offsite_evidence_digest));
        object.optional_text("base_backup_verification_digest", digest_str(&self.base_backup_verification_digest));
        let cutover_backup_id = optional_uuid_text(&self.cutover_backup_id);
        object.optional_text("cutover_backup_id", optional_str(&cutover_backup_id));
        object.optional_text("cutover_backup_manifest_digest", digest_str(&self.cutover_backup_manifest_digest));
        object.optional_text("cutover_backup_evidence_digest", digest_str(&self.cutover_backup_evidence_digest));
        object.optional_text("cutover_backup_verification_digest", digest_str(&self.cutover_backup_verification_digest));
        object.optional_text("previous_release_bundle_digest", digest_str(&self.previous_release_bundle_digest));
        object.optional_text("health_evidence_digest", digest_str(&self.health_evidence_digest));
        object.optional_text("rollback_health_evidence_digest", digest_str(&self.rollback_health_evidence_digest));
        object.optional_number("fencing_epoch", self.fencing_epoch);
        object.optional_text("fence_acquisition_receipt_digest", digest_str(&self.fence_acquisition_receipt_digest));
        match self.recovery_mode {
            Some(value) => object.text("recovery_mode", value.as_str()),
            None => object.raw("recovery_mode", "null"),
        }
        object.finish()
    }

    /// The payload holds the evidence that an operation has gathered.
    pub open spec fn holds(self, evidence: OperationEvidence) -> bool {
        &&& self.installed_policy == evidence.installed_policy
        &&& self.authorized_phase_spec_digests@ == evidence.authorized_phase_spec_digests@
        &&& self.source_attestation_digest == evidence.source_attestation_digest
        &&& self.source_sequence == evidence.source_sequence
        &&& self.source_gate_proof_digest == evidence.source_gate_proof_digest
        &&& self.drain_evidence_digest == evidence.drain_evidence_digest
        &&& self.source_export_digest == evidence.source_export_digest
        &&& self.prefetch_evidence_digest == evidence.prefetch_evidence_digest
        &&& self.ci_evidence_digest == evidence.ci_evidence_digest
        &&& self.build_plan_digest == evidence.build_plan_digest
        &&& self.deployment_plan_digest == evidence.deployment_plan_digest
        &&& self.release_bundle_digest == evidence.release_bundle_digest
        &&& self.resource_reservation_digest == evidence.resource_reservation_digest
        &&& self.action_grant_digest == evidence.action_grant_digest
        &&& self.build_context_digest == evidence.build_context_digest
        &&& self.generated_output_digests@ == evidence.generated_output_digests@
        &&& self.image_digest == evidence.image_digest
        &&& self.image_id_digest == evidence.image_id_digest
        &&& self.base_image_digests@ == evidence.base_image_digests@
        &&& self.schema_version == evidence.schema_version
        &&& self.backup_id == evidence.backup_id
        &&& self.backup_set_id == evidence.backup_set_id
        &&& self.base_backup_id == evidence.base_backup_id
        &&& self.base_backup_manifest_digest == evidence.base_backup_manifest_digest
        &&& self.base_backup_evidence_digest == evidence.base_backup_evidence_digest
        &&& self.base_backup_offsite_evidence_digest == evidence.base_backup_offsite_evidence_digest
        &&& self.base_backup_verification_digest == evidence.base_backup_verification_digest
        &&& self.cutover_backup_id == evidence.cutover_backup_id
        &&& self.cutover_backup_manifest_digest == evidence.cutover_backup_manifest_digest
        &&& self.cutover_backup_evidence_digest == evidence.cutover_backup_evidence_digest
        &&& self.cutover_backup_verification_digest == evidence.cutover_backup_verification_digest
        &&& self.previous_release_bundle_digest == evidence.previous_release_bundle_digest
        &&& self.health_evidence_digest == evidence.health_evidence_digest
        &&& self.rollback_health_evidence_digest == evidence.rollback_health_evidence_digest
        &&& self.fencing_epoch == evidence.fencing_epoch
        &&& self.fence_acquisition_receipt_digest == evidence.fence_acquisition_receipt_digest
        &&& self.recovery_mode == evidence.recovery_mode
    }

    /// The payload is of an operation in its present phase. One that rolls back is told as a
    /// rollback of code, under the authority that it was started with.
    pub open spec fn describes(
        self,
        operation: OperationRecord,
        executor_authorization_digest: EvidenceDigest,
    ) -> bool {
        &&& self.purpose == "rdashboard.phase-intent.v1"
        &&& self.attempt_id == operation.attempt_id
        &&& self.request_id == operation.request_id
        &&& self.project_id == operation.project_id
        &&& self.operation_kind == if operation.rolling_back() {
            OperationKind::CodeRollback
        } else {
            operation.operation_kind
        }
        &&& self.release_class == if operation.rolling_back() {
            Some(ReleaseClass::Rollback)
        } else {
            operation.release_class
        }
        &&& self.target_commit == operation.target_commit
        &&& self.phase == operation.state.phase
        &&& self.branch == operation.branch()
        &&& self.executor_authorization_digest == executor_authorization_digest
        &&& self.holds(operation.evidence)
    }
}

impl OperationRecord {
    /// The branch that an operation is on.
    pub open spec fn branch(self) -> ExecutorPhaseBranch {
        OperationRecord::expected_branch(self.rolling_back())
    }

    pub fn executor_phase_branch(&self) -> (r: ExecutorPhaseBranch)
        ensures
            r == self.branch(),
    {
        if self.evidence.recovery_mode == Some(OperationRecoveryMode::Rollback) {
            ExecutorPhaseBranch::RollbackRecovery
        } else {
            ExecutorPhaseBranch::Primary
        }
    }
}

/// What the executor is about to do, sealed by a digest.
#[derive(Clone, Debug, PartialEq, Eq)]
pub struct PhaseIntent {
    pub attempt_id: Uuid,
    pub project_id: ProjectId,
    pub phase: OperationPhase,
    pub branch: ExecutorPhaseBranch,
    pub payload: PhaseIntentPayloadV1,
    pub digest: EvidenceDigest,
}

impl PhaseIntent {
    /// The intent and its payload tell of the same phase, and the digest is the one of the payload.
    pub open spec fn sealed(self) -> bool {
        &&& self.attempt_id == self.payload.attempt_id
        &&& self.project_id@ == self.payload.project_id@
        &&& self.phase == self.payload.phase
        &&& self.branch == self.payload.branch
        &&& document_digest(self.payload.json()) == Some(self.digest@)
    }

    /// The intent of an operation in its present phase.
    pub fn from_operation(
        operation: &OperationRecord,
        executor_authorization_digest: EvidenceDigest,
    ) -> (r: Result<PhaseIntent, StoreError>)
        ensures
            match r {
                Ok(intent) => {
                    &&& intent.payload.describes(*operation, executor_authorization_digest)
                    &&& intent.sealed()
                    &&& intent.attempt_id == operation.attempt_id
                    &&& intent.project_id == operation.project_id
                    &&& intent.phase == operation.state.phase
                    &&& intent.branch == operation.branch()
                },
                Err(error) => error is Encoding && forall|payload: PhaseIntentPayloadV1| #[trigger]
                    payload.describes(*operation, executor_authorization_digest)
                        ==> document_digest(payload.json()) is None,
            },
    {
        let branch = operation.executor_phase_branch();
        let rolling_back = operation.evidence.recovery_mode == Some(OperationRecoveryMode::Rollback);
        let evidence = &operation.evidence;
        let payload = PhaseIntentPayloadV1 {
            purpose: "rdashboard.phase-intent.v1",
            attempt_id: operation.attempt_id,
            request_id: operation.request_id,
            project_id: operation.project_id.clone(),
            operation_kind: if rolling_back {
                OperationKind::CodeRollback
            } else {
                operation.operation_kind
            },
            release_class: if rolling_back {
                Some(ReleaseClass::Rollback)
            } else {
                operation.release_class
            },
            target_commit: operation.target_commit.clone(),
            phase: operation.state.phase,
            branch,
            executor_authorization_digest,
            installed_policy: evidence.installed_policy.clone(),
            authorized_phase_spec_digests: clone_authorized(&evidence.authorized_phase_spec_digests),
            source_attestation_digest: evidence.source_attestation_digest.clone(),
            source_sequence: evidence.source_sequence,
            source_gate_proof_digest: evidence.source_gate_proof_digest.clone(),
            drain_evidence_digest: evidence.drain_evidence_digest.clone(),
            source_export_digest: evidence.source_export_digest.clone(),
            prefetch_evidence_digest: evidence.prefetch_evidence_digest.clone(),
            ci_evidence_digest: evidence.ci_evidence_digest.clone(),
            build_plan_digest: evidence.build_plan_digest.clone(),
            deployment_plan_digest: evidence.deployment_plan_digest.clone(),
            release_bundle_digest: evidence.release_bundle_digest.clone(),
            resource_reservation_digest: evidence.resource_reservation_digest.clone(),
            action_grant_digest: evidence.action_grant_digest.clone(),
            build_context_digest: evidence.build_context_digest.clone(),
            generated_output_digests: clone_digests(&evidence.generated_output_digests),
            image_digest: evidence.image_digest.clone(),
            image_id_digest: evidence.image_id_digest.clone(),
            base_image_digests: clone_digests(&evidence.base_image_digests),
            schema_version: evidence.schema_version.clone(),
            backup_id: evidence.backup_id,
            backup_set_id: evidence.backup_set_id,
            base_backup_id: evidence.base_backup_id,
            base_backup_manifest_digest: evidence.base_backup_manifest_digest.clone(),
            base_backup_evidence_digest: evidence.base_backup_evidence_digest.clone(),
            base_backup_offsite_evidence_digest: evidence.base_backup_offsite_evidence_digest.clone(),
            base_backup_verification_digest: evidence.base_backup_verification_digest.clone(),
            cutover_backup_id: evidence.cutover_backup_id,
            cutover_backup_manifest_digest: evidence.cutover_backup_manifest_digest.clone(),
            cutover_backup_evidence_digest: evidence.cutover_backup_evidence_digest.clone(),
            cutover_backup_verification_digest: evidence.cutover_backup_verification_digest.clone(),
            previous_release_bundle_digest: evidence.previous_release_bundle_digest.clone(),
            health_evidence_digest: evidence.health_evidence_digest.clone(),
            rollback_health_evidence_digest: evidence.rollback_health_evidence_digest.clone(),
            fencing_epoch: evidence.fencing_epoch,
            fence_acquisition_receipt_digest: evidence.fence_acquisition_receipt_digest.clone(),
            recovery_mode: evidence.recovery_mode,
        };
        assert(payload.holds(operation.evidence));
        assert(payload.describes(*operation, executor_authorization_digest));
        proof {
            assert forall|other: PhaseIntentPayloadV1| #[trigger]
                other.describes(*operation, executor_authorization_digest) implies other.json()
                == payload.json() by {
                law_intents_of_one_operation_agree(
                    payload,
                    other,
                    *operation,
                    executor_authorization_digest,
                    executor_authorization_digest,
                );
            }
        }
        let text = payload.to_json();
        match digest_document(text.as_str()) {
            Err(_) => Err(StoreError::Encoding),
            Ok(digest) => Ok(
                PhaseIntent {
                    attempt_id: operation.attempt_id,
                    project_id: operation.project_id.clone(),
                    phase: operation.state.phase,
                    branch,
                    payload,
                    digest,
                },
            ),
        }
    }

    pub fn has_valid_digest(&self) -> (r: Result<bool, EncodingError>)
        ensures
            match r {
                Ok(valid) => valid == self.sealed(),
                Err(_) => document_digest(self.payload.json()) is None && self.attempt_id
                    == self.payload.attempt_id && self.project_id@ == self.payload.project_id@
                    && self.phase == self.payload.phase && self.branch == self.payload.branch,
            },
    {
        if self.attempt_id != self.payload.attempt_id || self.project_id != self.payload.project_id
            || self.phase != self.payload.phase || self.branch != self.payload.branch {
            return Ok(false);
        }
        let text = self.payload.to_json();
        match digest_document(text.as_str()) {
            Err(error) => Err(error),
            Ok(digest) => Ok(self.digest == digest),
        }
    }
}

/// Two payloads of one operation under one authority are one document, so an intent that is made again after a restart
/// has the digest of the first.
pub proof fn law_intents_of_one_operation_agree(
    a: PhaseIntentPayloadV1,
    b: PhaseIntentPayloadV1,
    operation: OperationRecord,
    a_authorization: EvidenceDigest,
    b_authorization: EvidenceDigest,
)
    requires
        a.describes(operation, a_authorization),
        b.describes(operation, b_authorization),
        a_authorization@ == b_authorization@,
    ensures
        a.json() == b.json(),
{
    reveal(PhaseIntentPayloadV1::json);
}

/// What the authority to carry an operation out is taken over: who started it, and what they were
/// allowed. Nothing that the operation gathers later is part of it.
pub open spec fn authorization_json(operation: OperationRecord) -> Seq<char> {
    json_object(
        no_members()
            .push(("purpose"@, json_string("rdashboard.authorized-operation.v1"@)))
            .push(("attempt_id"@, json_string(operation.attempt_id.text())))
            .push(("request_id"@, json_string(operation.request_id.text())))
            .push(("project_id"@, json_string(operation.project_id@)))
            .push(("operation_kind"@, json_string(operation.operation_kind.name())))
            .push(("target_commit"@, json_optional_string(match operation.target_commit { Some(v) => Some(v@), None => None })))
            .push(("release_class"@, json_optional_string(match operation.release_class { Some(v) => Some(v.name()), None => None })))
            .push(("installed_policy"@, json_optional(match operation.evidence.installed_policy { Some(v) => Some(v.json()), None => None })))
            .push(("actor"@, operation.actor.json()))
            .push(("action_grant_digest"@, json_optional_string(digest_option(operation.evidence.action_grant_digest))))
            .push(("source_attestation_digest"@, json_optional_string(digest_option(operation.evidence.source_attestation_digest))))
            .push(("source_sequence"@, json_optional_nat(nat_option(operation.evidence.source_sequence)))),
    )
}

/// The operation holds the evidence that it may be carried out: the grant of a user, or an attested
/// source.
pub open spec fn has_capability(operation: OperationRecord) -> bool {
    match operation.actor {
        OperationActor::Interactive { .. } => operation.evidence.action_grant_digest is Some,
        OperationActor::Automation { .. } => operation.evidence.source_attestation_digest is Some
            && operation.evidence.source_sequence is Some,
    }
}

/// The digest of the authority to carry an operation out.
pub fn executor_authorization_digest(operation: &OperationRecord) -> (r: Result<
    EvidenceDigest,
    StoreError,
>)
    ensures
        match r {
            Ok(digest) => has_capability(*operation) && document_digest(
                authorization_json(*operation),
            ) == Some(digest@),
            Err(error) => if !has_capability(*operation) {
                error == StoreError::CorruptController(
                    "operation is missing its executor authorization evidence",
                )
            } else {
                error is Encoding && document_digest(authorization_json(*operation)) is None
            },
        },
{
    let capability_present = match &operation.actor {
        OperationActor::Interactive { .. } => operation.evidence.action_grant_digest.is_some(),
        OperationActor::Automation { .. } => operation.evidence.source_attestation_digest.is_some()
            && operation.evidence.source_sequence.is_some(),
    };
    if !capability_present {
        return Err(
            StoreError::CorruptController(
                "operation is missing its executor authorization evidence",
            ),
        );
    }
    let mut object = JsonObject::new();
    object.text("purpose", "rdashboard.authorized-operation.v1");
    let attempt_id = operation.attempt_id.to_text();
    object.text("attempt_id", attempt_id.as_str());
    let request_id = operation.request_id.to_text();
    object.text("request_id", request_id.as_str());
    object.text("project_id", operation.project_id.as_str());
    object.text("operation_kind", operation.operation_kind.as_str());
    match &operation.target_commit {
        Some(value) => object.text("target_commit", value.as_str()),
        None => object.raw("target_commit", "null"),
    }
    match operation.release_class {
        Some(value) => object.text("release_class", value.as_str()),
        None => object.raw("release_class", "null"),
    }
    match &operation.evidence.installed_policy {
        Some(value) => {
            let value = value.to_json();
            object.raw("installed_policy", value.as_str());
        },
        None => object.raw("installed_policy", "null"),
    }
    let actor = operation.actor.to_json();
    object.raw("actor", actor.as_str());
    object.optional_text("action_grant_digest", digest_str(&operation.evidence.action_grant_digest));
    object.optional_text(
        "source_attestation_digest",
        digest_str(&operation.evidence.source_attestation_digest),
    );
    object.optional_number("source_sequence", operation.evidence.source_sequence);
    let text = object.finish();
    match digest_document(text.as_str()) {
        Ok(digest) => Ok(digest),
        Err(_) => Err(StoreError::Encoding),
    }
}

/// The authority to carry an operation out stays the same while the operation changes state, gathers
/// evidence or is rolled back.
pub proof fn law_authority_outlives_changes(before: OperationRecord, after: OperationRecord)
    requires
        after.attempt_id == before.attempt_id,
        after.request_id == before.request_id,
        after.project_id == before.project_id,
        after.operation_kind == before.operation_kind,
        after.target_commit == before.target_commit,
        after.release_class == before.release_class,
        after.actor == before.actor,
        after.evidence.installed_policy == before.evidence.installed_policy,
        after.evidence.action_grant_digest == before.evidence.action_grant_digest,
        after.evidence.source_attestation_digest == before.evidence.source_attestation_digest,
        after.evidence.source_sequence == before.evidence.source_sequence,
    ensures
        authorization_json(after) == authorization_json(before),
        has_capability(after) == has_capability(before),
{
}

} // verus!
