//! Deployments of accepted candidates: what they are bound to, and how they are driven.

use vstd::prelude::*;
use crate::controller::StoreError;
use crate::domain::artifacts::{ArtifactContractError, PhaseArtifacts};
use crate::domain::identifiers::{digest_option, EvidenceDigest, GitCommitId, ProjectId};
use crate::domain::operation::{
    InstalledPolicyIdentity,
    OperationActor,
    OperationContractError,
    OperationKind,
    OperationState,
    ReleaseClass,
};
use crate::domain::record::{OperationEvidence, OperationRecord};
use crate::domain::states::{BlockingReason, OperationPhase, OperationResult};
use crate::executor::fences::FenceExecutionError;
use crate::executor::intent::{authorization_json, executor_authorization_digest, has_capability};
use crate::executor::phase_steps::PhaseExecutionError;
use crate::unique_id::Uuid;

pub mod candidate;
pub mod drive;
pub mod laws;
pub mod phase_spec;
pub mod receipts;

verus! {

/// Why a deployment is not driven further.
#[derive(Clone, Copy, Debug, PartialEq, Eq)]
pub enum DeployDriverError {
    InvalidTime,
    InstalledBinding,
    AcceptedMutationBinding,
    CandidateBinding,
    AuthorizationBinding,
    ReceiptOrder,
    ReceiptBinding,
    ArtifactConflict,
    TransitionOverflow,
    PhaseSpecBinding,
    ReleaseStateWithoutTerminalReceipt,
    RollbackBinding,
    Store(StoreError),
    Phase(PhaseExecutionError),
    Fence(FenceExecutionError),
    Artifact(ArtifactContractError),
    Operation(OperationContractError),
    Encoding,
    /// What came back is no answer to the step.
    UnexpectedEvent,
}

impl DeployDriverError {
    /// The error in words, where it is the driver's own.
    pub fn message(self) -> (r: &'static str)
        ensures
            r@ == match self {
                DeployDriverError::InvalidTime => "deploy driver time is invalid"@,
                DeployDriverError::InstalledBinding =>
                    "installed deploy policy, rimg policy and release state do not match"@,
                DeployDriverError::AcceptedMutationBinding =>
                    "accepted mutation is not an authorized installed deployment"@,
                DeployDriverError::CandidateBinding =>
                    "accepted build candidate does not match the signed deploy intent"@,
                DeployDriverError::AuthorizationBinding =>
                    "persisted executor authorization conflicts with the accepted deployment"@,
                DeployDriverError::ReceiptOrder =>
                    "persisted deploy receipts are not an ordered prefix"@,
                DeployDriverError::ReceiptBinding =>
                    "deploy receipt does not match the reconstructed deployment"@,
                DeployDriverError::ArtifactConflict =>
                    "deploy receipt evidence conflicts with prior durable evidence"@,
                DeployDriverError::TransitionOverflow => "deploy transition sequence overflowed"@,
                DeployDriverError::PhaseSpecBinding =>
                    "authorized deploy phase specification is not bound to this operation"@,
                DeployDriverError::ReleaseStateWithoutTerminalReceipt =>
                    "the installed release state was committed without a terminal soak receipt"@,
                DeployDriverError::RollbackBinding =>
                    "automatic rollback is not bound to the exact installed candidate and previous release"@,
                _ => "deployment failed"@,
            },
    {
        match self {
            DeployDriverError::InvalidTime => "deploy driver time is invalid",
            DeployDriverError::InstalledBinding =>
                "installed deploy policy, rimg policy and release state do not match",
            DeployDriverError::AcceptedMutationBinding =>
                "accepted mutation is not an authorized installed deployment",
            DeployDriverError::CandidateBinding =>
                "accepted build candidate does not match the signed deploy intent",
            DeployDriverError::AuthorizationBinding =>
                "persisted executor authorization conflicts with the accepted deployment",
            DeployDriverError::ReceiptOrder =>
                "persisted deploy receipts are not an ordered prefix",
            DeployDriverError::ReceiptBinding =>
                "deploy receipt does not match the reconstructed deployment",
            DeployDriverError::ArtifactConflict =>
                "deploy receipt evidence conflicts with prior durable evidence",
            DeployDriverError::TransitionOverflow => "deploy transition sequence overflowed",
            DeployDriverError::PhaseSpecBinding =>
                "authorized deploy phase specification is not bound to this operation",
            DeployDriverError::ReleaseStateWithoutTerminalReceipt =>
                "the installed release state was committed without a terminal soak receipt",
            DeployDriverError::RollbackBinding =>
                "automatic rollback is not bound to the exact installed candidate and previous release",
            _ => "deployment failed",
        }
    }
}

/// A mutation that was accepted.
#[derive(Clone, Debug)]
pub struct AcceptedMutationV1 {
    pub intent_id: Uuid,
    pub attempt_id: Uuid,
    pub request_id: Uuid,
    pub project_id: ProjectId,
    pub operation_kind: OperationKind,
    pub target_commit: Option<GitCommitId>,
    pub effective_release_class: Option<ReleaseClass>,
    pub installed_policy_digest: EvidenceDigest,
    pub source_attestation_digest: Option<EvidenceDigest>,
    pub source_sequence: Option<u64>,
    pub release_bundle_digest: Option<EvidenceDigest>,
    pub build_attestation_digest: Option<EvidenceDigest>,
    pub migration_id: Option<String>,
    pub previous_release_bundle_digest: Option<EvidenceDigest>,
    pub intent_expires_at_ms: i64,
    pub actor_id: Uuid,
    pub action_grant_nonce: Uuid,
    pub action_grant_digest: EvidenceDigest,
    pub grant_expires_at_ms: i64,
    pub accepted_at_ms: i64,
}

/// The installed policy of deployments.
#[derive(Clone, Debug)]
pub struct InstalledDeployMutationPolicyV1 {
    pub project_id: ProjectId,
    pub installed_policy: InstalledPolicyIdentity,
    pub installed_rimg_policy_digest: EvidenceDigest,
    pub document_digest: EvidenceDigest,
    pub chronyc_sha256: EvidenceDigest,
}

/// The installed policy of the service.
#[derive(Clone, Debug)]
pub struct InstalledRimgPolicyV1 {
    pub project_id: ProjectId,
    pub installed_policy: InstalledPolicyIdentity,
    pub digest: EvidenceDigest,
    pub schema_contract_digest: EvidenceDigest,
    pub stable_routing: bool,
    pub automatic_code_rollback: bool,
    pub bootstrap_with_declared_downtime: bool,
}

/// Which release is installed.
#[derive(Clone, Debug)]
pub struct InstalledReleaseStateV1 {
    pub project_id: ProjectId,
    pub installed_policy: InstalledPolicyIdentity,
    pub installed_rimg_policy_digest: EvidenceDigest,
    pub document_digest: EvidenceDigest,
    pub current_release_bundle_digest: Option<EvidenceDigest>,
    pub last_known_good_release_bundle_digest: Option<EvidenceDigest>,
}

/// What was attested of a build.
#[derive(Clone, Debug)]
pub struct BuildReleaseAttestationV1 {
    pub payload_digest: EvidenceDigest,
    pub source_attestation_digest: EvidenceDigest,
    pub source_sequence: u64,
    pub source_head: GitCommitId,
    pub data_compatibility_observation_digest: EvidenceDigest,
}

/// A release that can be installed.
#[derive(Clone, Debug)]
pub struct ReleaseBundleV1 {
    pub digest: EvidenceDigest,
    pub project_id: ProjectId,
    pub installed_policy: InstalledPolicyIdentity,
    pub deployment_plan_digest: EvidenceDigest,
    pub application_schema_version: String,
}

/// A backup that was verified.
#[derive(Clone, Debug)]
pub struct VerifiedBackupChainV1 {
    pub backup_set_id: Uuid,
    pub backup_id: Uuid,
    pub manifest_digest: EvidenceDigest,
    pub local_evidence_digest: EvidenceDigest,
    pub offsite_evidence_digest: Option<EvidenceDigest>,
    pub chain_digest: EvidenceDigest,
}

/// What the executor is authorized to do for an attempt.
#[derive(Clone, Debug)]
pub struct ExecutorAuthorization {
    pub authorization_id: Uuid,
    pub digest: EvidenceDigest,
    pub attempt_id: Uuid,
    pub project_id: ProjectId,
    pub expires_at_ms: i64,
    pub reservation_digest: Option<EvidenceDigest>,
}

/// The evidence that a candidate brings along for the phases before the first mutation.
#[derive(Clone, Debug)]
pub struct RuntimeCandidateArtifactsV1 {
    pub testing: PhaseArtifacts,
    pub building: PhaseArtifacts,
    pub preflight: PhaseArtifacts,
}

/// Two digests that may be missing are the same.
pub(crate) fn same_digest_option(
    a: &Option<EvidenceDigest>,
    b: &Option<EvidenceDigest>,
) -> (r: bool)
    ensures
        r == (digest_option(*a) == digest_option(*b)),
{
    match (a, b) {
        (None, None) => true,
        (Some(a), Some(b)) => *a == *b,
        _ => false,
    }
}

/// A digest is there, and it is this one.
pub(crate) fn is_digest(a: &Option<EvidenceDigest>, b: &EvidenceDigest) -> (r: bool)
    ensures
        r == (digest_option(*a) == Some(b@)),
{
    match a {
        None => false,
        Some(a) => *a == *b,
    }
}

/// The policies and the release state are of one project and one installed policy.
pub open spec fn bound_installation(
    mutation: InstalledDeployMutationPolicyV1,
    rimg: InstalledRimgPolicyV1,
    state: InstalledReleaseStateV1,
) -> bool {
    &&& rimg.project_id@ == mutation.project_id@
    &&& rimg.installed_policy.same_as(mutation.installed_policy)
    &&& rimg.digest@ == mutation.installed_rimg_policy_digest@
    &&& state.project_id@ == mutation.project_id@
    &&& state.installed_policy.same_as(mutation.installed_policy)
    &&& state.installed_rimg_policy_digest@ == mutation.installed_rimg_policy_digest@
    &&& rimg.bootstrap_with_declared_downtime
}

pub fn validate_policy_state_binding(
    mutation: &InstalledDeployMutationPolicyV1,
    rimg: &InstalledRimgPolicyV1,
    state: &InstalledReleaseStateV1,
) -> (r: Result<(), DeployDriverError>)
    ensures
        match r {
            Ok(()) => bound_installation(*mutation, *rimg, *state),
            Err(error) => error is InstalledBinding && !bound_installation(*mutation, *rimg, *state),
        },
{
    if rimg.project_id != mutation.project_id || !rimg.installed_policy.same(
        &mutation.installed_policy,
    ) || rimg.digest != mutation.installed_rimg_policy_digest || state.project_id
        != mutation.project_id || !state.installed_policy.same(&mutation.installed_policy)
        || state.installed_rimg_policy_digest != mutation.installed_rimg_policy_digest
        || !rimg.bootstrap_with_declared_downtime {
        return Err(DeployDriverError::InstalledBinding);
    }
    Ok(())
}

/// What is installed fits the candidate: nothing is installed, or the candidate itself and nothing
/// before it, or one of the current release and the candidate, which differ and come with a backup.
pub open spec fn fitting_release(
    state: InstalledReleaseStateV1,
    current: Option<ReleaseBundleV1>,
    candidate: ReleaseBundleV1,
    base_backup_chain: Option<VerifiedBackupChainV1>,
) -> bool {
    match (state.current_release_bundle_digest, current) {
        (None, None) => state.last_known_good_release_bundle_digest is None
            && base_backup_chain is None,
        (Some(installed), None) => {
            &&& installed@ == candidate.digest@
            &&& state.last_known_good_release_bundle_digest is None
            &&& base_backup_chain is None
        },
        (Some(installed), Some(current)) => {
            &&& current.digest@ == installed@ || candidate.digest@ == installed@
            &&& current.digest@ != candidate.digest@
            &&& base_backup_chain is Some
        },
        (None, Some(_)) => false,
    }
}

pub fn validate_release_shape(
    state: &InstalledReleaseStateV1,
    current: &Option<ReleaseBundleV1>,
    candidate: &ReleaseBundleV1,
    base_backup_chain: &Option<VerifiedBackupChainV1>,
) -> (r: Result<(), DeployDriverError>)
    ensures
        match r {
            Ok(()) => fitting_release(*state, *current, *candidate, *base_backup_chain),
            Err(error) => error is InstalledBinding && !fitting_release(
                *state,
                *current,
                *candidate,
                *base_backup_chain,
            ),
        },
{
    let fits = match (&state.current_release_bundle_digest, current) {
        (None, None) => state.last_known_good_release_bundle_digest.is_none()
            && base_backup_chain.is_none(),
        (Some(installed), None) => *installed == candidate.digest
            && state.last_known_good_release_bundle_digest.is_none() && base_backup_chain.is_none(),
        (Some(installed), Some(current)) => (current.digest == *installed || candidate.digest
            == *installed) && current.digest != candidate.digest && base_backup_chain.is_some(),
        (None, Some(_)) => false,
    };
    if fits {
        Ok(())
    } else {
        Err(DeployDriverError::InstalledBinding)
    }
}

impl AcceptedMutationV1 {
    /// The mutation deploys code alone under the policy, from a source, a build and a release that
    /// it names, with no migration.
    pub open spec fn deploys_under(self, policy: InstalledDeployMutationPolicyV1) -> bool {
        &&& self.operation_kind is Deploy
        &&& self.project_id@ == policy.project_id@
        &&& self.installed_policy_digest@ == policy.document_digest@
        &&& self.effective_release_class == Some(ReleaseClass::CodeOnlyCompatible)
        &&& self.source_attestation_digest is Some
        &&& self.source_sequence is Some
        &&& self.release_bundle_digest is Some
        &&& self.build_attestation_digest is Some
        &&& self.migration_id is None
        &&& self.target_commit is Some
    }
}

/// The commit that an accepted mutation deploys.
pub fn validate_accepted_deploy<'a>(
    accepted: &'a AcceptedMutationV1,
    policy: &InstalledDeployMutationPolicyV1,
) -> (r: Result<&'a GitCommitId, DeployDriverError>)
    ensures
        match r {
            Ok(target) => accepted.deploys_under(*policy) && accepted.target_commit == Some(*target),
            Err(error) => error is AcceptedMutationBinding && !accepted.deploys_under(*policy),
        },
{
    let code_only = match accepted.effective_release_class {
        Some(class) => class == ReleaseClass::CodeOnlyCompatible,
        None => false,
    };
    if accepted.operation_kind != OperationKind::Deploy || accepted.project_id != policy.project_id
        || accepted.installed_policy_digest != policy.document_digest || !code_only
        || accepted.source_attestation_digest.is_none() || accepted.source_sequence.is_none()
        || accepted.release_bundle_digest.is_none() || accepted.build_attestation_digest.is_none()
        || accepted.migration_id.is_some() {
        return Err(DeployDriverError::AcceptedMutationBinding);
    }
    match &accepted.target_commit {
        Some(target) => Ok(target),
        None => Err(DeployDriverError::AcceptedMutationBinding),
    }
}

/// The candidate, what was attested of it, and the accepted mutation are of one build.
pub open spec fn bound_candidate(
    accepted: AcceptedMutationV1,
    attestation: BuildReleaseAttestationV1,
    candidate: ReleaseBundleV1,
    rimg: InstalledRimgPolicyV1,
) -> bool {
    &&& digest_option(accepted.release_bundle_digest) == Some(candidate.digest@)
    &&& digest_option(accepted.build_attestation_digest) == Some(attestation.payload_digest@)
    &&& digest_option(accepted.source_attestation_digest) == Some(
        attestation.source_attestation_digest@,
    )
    &&& accepted.source_sequence == Some(attestation.source_sequence)
    &&& accepted.target_commit is Some && (accepted.target_commit->0)@ == attestation.source_head@
    &&& candidate.project_id@ == rimg.project_id@
    &&& candidate.installed_policy.same_as(rimg.installed_policy)
}

pub fn validate_candidate_binding(
    accepted: &AcceptedMutationV1,
    attestation: &BuildReleaseAttestationV1,
    candidate: &ReleaseBundleV1,
    rimg: &InstalledRimgPolicyV1,
) -> (r: Result<(), DeployDriverError>)
    ensures
        match r {
            Ok(()) => bound_candidate(*accepted, *attestation, *candidate, *rimg),
            Err(error) => error is CandidateBinding && !bound_candidate(
                *accepted,
                *attestation,
                *candidate,
                *rimg,
            ),
        },
{
    let sequence_matches = match accepted.source_sequence {
        Some(sequence) => sequence == attestation.source_sequence,
        None => false,
    };
    let target_matches = match &accepted.target_commit {
        Some(target) => *target == attestation.source_head,
        None => false,
    };
    if !is_digest(&accepted.release_bundle_digest, &candidate.digest) || !is_digest(
        &accepted.build_attestation_digest,
        &attestation.payload_digest,
    ) || !is_digest(&accepted.source_attestation_digest, &attestation.source_attestation_digest)
        || !sequence_matches || !target_matches || candidate.project_id != rimg.project_id
        || !candidate.installed_policy.same(&rimg.installed_policy) {
        return Err(DeployDriverError::CandidateBinding);
    }
    Ok(())
}

impl OperationEvidence {
    /// The evidence that a deployment begins with: its policy, its source, its release and, where
    /// there is one, its backup.
    pub open spec fn begins(
        self,
        accepted: AcceptedMutationV1,
        policy: InstalledDeployMutationPolicyV1,
        candidate: ReleaseBundleV1,
        base_backup_chain: Option<VerifiedBackupChainV1>,
    ) -> bool {
        &&& OperationEvidence {
            installed_policy: None,
            source_attestation_digest: None,
            source_sequence: None,
            deployment_plan_digest: None,
            release_bundle_digest: None,
            previous_release_bundle_digest: None,
            action_grant_digest: None,
            backup_set_id: None,
            base_backup_id: None,
            base_backup_manifest_digest: None,
            base_backup_evidence_digest: None,
            base_backup_offsite_evidence_digest: None,
            base_backup_verification_digest: None,
            ..self
        }.empty()
        &&& self.installed_policy == Some(policy.installed_policy)
        &&& self.source_attestation_digest == accepted.source_attestation_digest
        &&& self.source_sequence == accepted.source_sequence
        &&& self.deployment_plan_digest == Some(candidate.deployment_plan_digest)
        &&& self.release_bundle_digest == Some(candidate.digest)
        &&& self.previous_release_bundle_digest == accepted.previous_release_bundle_digest
        &&& self.action_grant_digest == Some(accepted.action_grant_digest)
        &&& match base_backup_chain {
            None => {
                &&& self.backup_set_id is None
                &&& self.base_backup_id is None
                &&& self.base_backup_manifest_digest is None
                &&& self.base_backup_evidence_digest is None
                &&& self.base_backup_offsite_evidence_digest is None
                &&& self.base_backup_verification_digest is None
            },
            Some(chain) => {
                &&& self.backup_set_id == Some(chain.backup_set_id)
                &&& self.base_backup_id == Some(chain.backup_id)
                &&& self.base_backup_manifest_digest == Some(chain.manifest_digest)
                &&& self.base_backup_evidence_digest == Some(chain.local_evidence_digest)
                &&& self.base_backup_offsite_evidence_digest == chain.offsite_evidence_digest
                &&& self.base_backup_verification_digest == Some(chain.chain_digest)
            },
        }
    }
}

impl OperationRecord {
    /// The operation of an accepted deployment before its first phase.
    pub open spec fn reconstructs(
        self,
        accepted: AcceptedMutationV1,
        policy: InstalledDeployMutationPolicyV1,
        candidate: ReleaseBundleV1,
        base_backup_chain: Option<VerifiedBackupChainV1>,
    ) -> bool {
        &&& self == (OperationRecord {
            operation_id: accepted.intent_id,
            request_id: accepted.request_id,
            attempt_id: accepted.attempt_id,
            attempt_number: 1,
            project_id: accepted.project_id,
            operation_kind: OperationKind::Deploy,
            target_commit: accepted.target_commit,
            release_class: accepted.effective_release_class,
            state: OperationState {
                phase: OperationPhase::Queued,
                result: OperationResult::Running,
                blocking_reason: BlockingReason::Unblocked,
            },
            actor: OperationActor::Interactive { user_id: accepted.actor_id },
            evidence: self.evidence,
            failure_capsule: None,
            created_at_ms: accepted.accepted_at_ms,
            updated_at_ms: accepted.accepted_at_ms,
        })
        &&& self.evidence.begins(accepted, policy, candidate, base_backup_chain)
    }
}

/// The operation of an accepted deployment, before its first phase.
pub fn reconstruct_deploy_operation(
    accepted: &AcceptedMutationV1,
    policy: &InstalledDeployMutationPolicyV1,
    candidate: &ReleaseBundleV1,
    base_backup_chain: &Option<VerifiedBackupChainV1>,
) -> (r: OperationRecord)
    ensures
        r.reconstructs(*accepted, *policy, *candidate, *base_backup_chain),
{
    let mut evidence = OperationEvidence::default();
    evidence.installed_policy = Some(policy.installed_policy.clone());
    evidence.source_attestation_digest = accepted.source_attestation_digest.clone();
    evidence.source_sequence = accepted.source_sequence;
    evidence.deployment_plan_digest = Some(candidate.deployment_plan_digest.clone());
    evidence.release_bundle_digest = Some(candidate.digest.clone());
    evidence.previous_release_bundle_digest = accepted.previous_release_bundle_digest.clone();
    evidence.action_grant_digest = Some(accepted.action_grant_digest.clone());
    match base_backup_chain {
        None => {},
        Some(chain) => {
            evidence.backup_set_id = Some(chain.backup_set_id);
            evidence.base_backup_id = Some(chain.backup_id);
            evidence.base_backup_manifest_digest = Some(chain.manifest_digest.clone());
            evidence.base_backup_evidence_digest = Some(chain.local_evidence_digest.clone());
            evidence.base_backup_offsite_evidence_digest = chain.offsite_evidence_digest.clone();
            evidence.base_backup_verification_digest = Some(chain.chain_digest.clone());
        },
    }
    OperationRecord {
        operation_id: accepted.intent_id,
        request_id: accepted.request_id,
        attempt_id: accepted.attempt_id,
        attempt_number: 1,
        project_id: accepted.project_id.clone(),
        operation_kind: OperationKind::Deploy,
        target_commit: accepted.target_commit.clone(),
        release_class: accepted.effective_release_class,
        state: OperationState {
            phase: OperationPhase::Queued,
            result: OperationResult::Running,
            blocking_reason: BlockingReason::Unblocked,
        },
        actor: OperationActor::Interactive { user_id: accepted.actor_id },
        evidence,
        failure_capsule: None,
        created_at_ms: accepted.accepted_at_ms,
        updated_at_ms: accepted.accepted_at_ms,
    }
}

/// What keeps an accepted mutation from being deployed to what is installed.
pub open spec fn installation_fault(
    accepted: AcceptedMutationV1,
    policy: InstalledDeployMutationPolicyV1,
    rimg: InstalledRimgPolicyV1,
    state: InstalledReleaseStateV1,
) -> Option<DeployDriverError> {
    if !bound_installation(policy, rimg, state) {
        Some(DeployDriverError::InstalledBinding)
    } else if accepted.previous_release_bundle_digest is Some && !(rimg.stable_routing
        && rimg.automatic_code_rollback) {
        Some(DeployDriverError::InstalledBinding)
    } else if !accepted.deploys_under(policy) {
        Some(DeployDriverError::AcceptedMutationBinding)
    } else {
        None
    }
}

/// The commit whose candidate is to be loaded for an accepted mutation.
pub fn candidate_to_load<'a>(
    accepted: &'a AcceptedMutationV1,
    policy: &InstalledDeployMutationPolicyV1,
    rimg: &InstalledRimgPolicyV1,
    state: &InstalledReleaseStateV1,
) -> (r: Result<&'a GitCommitId, DeployDriverError>)
    ensures
        match r {
            Ok(target) => installation_fault(*accepted, *policy, *rimg, *state) is None
                && accepted.target_commit == Some(*target),
            Err(error) => installation_fault(*accepted, *policy, *rimg, *state) == Some(error),
        },
{
    match validate_policy_state_binding(policy, rimg, state) {
        Err(error) => return Err(error),
        Ok(()) => {},
    }
    if accepted.previous_release_bundle_digest.is_some() && (!rimg.stable_routing
        || !rimg.automatic_code_rollback) {
        return Err(DeployDriverError::InstalledBinding);
    }
    validate_accepted_deploy(accepted, policy)
}

/// A deployment over an installed release needs the latest backup of its project.
pub fn needs_base_backup(accepted: &AcceptedMutationV1) -> (r: bool)
    ensures
        r == (accepted.previous_release_bundle_digest is Some),
{
    accepted.previous_release_bundle_digest.is_some()
}

/// A deployment that is ready to be driven.
#[derive(Clone, Debug)]
pub struct PreparedInstalledDeploymentV1 {
    pub operation: OperationRecord,
    pub mutation_policy: InstalledDeployMutationPolicyV1,
    pub rimg_policy: InstalledRimgPolicyV1,
    pub release_state: InstalledReleaseStateV1,
    pub attestation: BuildReleaseAttestationV1,
    pub candidate: ReleaseBundleV1,
    pub current: Option<ReleaseBundleV1>,
    pub base_backup_chain: Option<VerifiedBackupChainV1>,
    pub accepted: AcceptedMutationV1,
}

/// A deployment with its disk space reserved.
#[derive(Clone, Debug)]
pub struct RuntimeBoundInstalledDeploymentV1 {
    pub prepared: PreparedInstalledDeploymentV1,
    pub authorization: ExecutorAuthorization,
    pub artifacts: RuntimeCandidateArtifactsV1,
}

/// Where the authorization of an attempt comes from: it was stored before, or disk space was
/// reserved for it now.
#[derive(Debug)]
pub enum AuthorizationSource {
    Stored(ExecutorAuthorization),
    Reserved { reservation_digest: EvidenceDigest },
}

impl PreparedInstalledDeploymentV1 {
    /// What keeps a deployment from being prepared.
    pub open spec fn load_fault(
        accepted: AcceptedMutationV1,
        policy: InstalledDeployMutationPolicyV1,
        rimg: InstalledRimgPolicyV1,
        state: InstalledReleaseStateV1,
        attestation: BuildReleaseAttestationV1,
        candidate: ReleaseBundleV1,
        current: Option<ReleaseBundleV1>,
        base_backup_chain: Option<VerifiedBackupChainV1>,
    ) -> Option<DeployDriverError> {
        if installation_fault(accepted, policy, rimg, state) is Some {
            installation_fault(accepted, policy, rimg, state)
        } else if !bound_candidate(accepted, attestation, candidate, rimg) {
            Some(DeployDriverError::CandidateBinding)
        } else if !fitting_release(state, current, candidate, base_backup_chain) {
            Some(DeployDriverError::InstalledBinding)
        } else {
            None
        }
    }

    /// Prepares a deployment from what was loaded for it.
    pub fn load(
        accepted: AcceptedMutationV1,
        mutation_policy: InstalledDeployMutationPolicyV1,
        rimg_policy: InstalledRimgPolicyV1,
        release_state: InstalledReleaseStateV1,
        attestation: BuildReleaseAttestationV1,
        candidate: ReleaseBundleV1,
        current: Option<ReleaseBundleV1>,
        base_backup_chain: Option<VerifiedBackupChainV1>,
    ) -> (r: Result<PreparedInstalledDeploymentV1, DeployDriverError>)
        ensures
            ({
                let fault = PreparedInstalledDeploymentV1::load_fault(
                    accepted,
                    mutation_policy,
                    rimg_policy,
                    release_state,
                    attestation,
                    candidate,
                    current,
                    base_backup_chain,
                );
                match r {
                    Ok(prepared) => {
                        &&& fault is None
                        &&& prepared == (PreparedInstalledDeploymentV1 {
                            operation: prepared.operation,
                            mutation_policy,
                            rimg_policy,
                            release_state,
                            attestation,
                            candidate,
                            current,
                            base_backup_chain,
                            accepted,
                        })
                        &&& prepared.operation.reconstructs(
                            accepted,
                            mutation_policy,
                            candidate,
                            base_backup_chain,
                        )
                    },
                    Err(error) => fault == Some(error),
                }
            }),
    {
        match candidate_to_load(&accepted, &mutation_policy, &rimg_policy, &release_state) {
            Err(error) => return Err(error),
            Ok(_) => {},
        }
        match validate_candidate_binding(&accepted, &attestation, &candidate, &rimg_policy) {
            Err(error) => return Err(error),
            Ok(()) => {},
        }
        match validate_release_shape(&release_state, &current, &candidate, &base_backup_chain) {
            Err(error) => return Err(error),
            Ok(()) => {},
        }
        let operation = reconstruct_deploy_operation(
            &accepted,
            &mutation_policy,
            &candidate,
            &base_backup_chain,
        );
        Ok(
            PreparedInstalledDeploymentV1 {
                operation,
                mutation_policy,
                rimg_policy,
                release_state,
                attestation,
                candidate,
                current,
                base_backup_chain,
                accepted,
            },
        )
    }

    /// When the authorization of the deployment ends: with its intent or its grant.
    pub open spec fn authorized_until(self) -> i64 {
        if self.accepted.grant_expires_at_ms < self.accepted.intent_expires_at_ms {
            self.accepted.grant_expires_at_ms
        } else {
            self.accepted.intent_expires_at_ms
        }
    }

    /// An authorization is the one of the deployment, with disk space reserved.
    pub open spec fn authorizes(self, authorization: ExecutorAuthorization) -> bool {
        &&& authorization.authorization_id == self.accepted.action_grant_nonce
        &&& document_digest_of(self.operation) == Some(authorization.digest@)
        &&& authorization.attempt_id == self.accepted.attempt_id
        &&& authorization.project_id@ == self.accepted.project_id@
        &&& authorization.expires_at_ms == self.authorized_until()
        &&& authorization.reservation_digest is Some
    }

    /// Binds the deployment to the disk space that is reserved for it. An authorization that was
    /// stored before has to be the one that would be stored now.
    pub fn bind_runtime_reservation(
        self,
        source: AuthorizationSource,
        artifacts: RuntimeCandidateArtifactsV1,
        now_ms: i64,
    ) -> (r: Result<RuntimeBoundInstalledDeploymentV1, DeployDriverError>)
        ensures
            match r {
                Ok(bound) => {
                    &&& now_ms >= 0
                    &&& has_capability(self.operation)
                    &&& self.authorizes(bound.authorization)
                    &&& match source {
                        AuthorizationSource::Stored(stored) => bound.authorization == stored,
                        AuthorizationSource::Reserved { reservation_digest } => {
                            bound.authorization.reservation_digest == Some(reservation_digest)
                        },
                    }
                    &&& bound.artifacts == artifacts
                    &&& bound.prepared == (PreparedInstalledDeploymentV1 {
                        operation: OperationRecord {
                            evidence: OperationEvidence {
                                resource_reservation_digest: bound.authorization.reservation_digest,
                                ..self.operation.evidence
                            },
                            ..self.operation
                        },
                        ..self
                    })
                },
                Err(DeployDriverError::InvalidTime) => now_ms < 0,
                Err(DeployDriverError::AuthorizationBinding) => {
                    &&& now_ms >= 0
                    &&& has_capability(self.operation)
                    &&& document_digest_of(self.operation) is Some
                    &&& source matches AuthorizationSource::Stored(stored) && !self.authorizes(stored)
                },
                Err(DeployDriverError::Store(error)) => {
                    &&& now_ms >= 0
                    &&& if has_capability(self.operation) {
                        error is Encoding && document_digest_of(self.operation) is None
                    } else {
                        error == StoreError::CorruptController(
                            "operation is missing its executor authorization evidence",
                        )
                    }
                },
                Err(_) => false,
            },
    {
        if now_ms < 0 {
            return Err(DeployDriverError::InvalidTime);
        }
        let digest = match executor_authorization_digest(&self.operation) {
            Err(error) => return Err(DeployDriverError::Store(error)),
            Ok(digest) => digest,
        };
        let expires_at_ms = if self.accepted.grant_expires_at_ms
            < self.accepted.intent_expires_at_ms {
            self.accepted.grant_expires_at_ms
        } else {
            self.accepted.intent_expires_at_ms
        };
        let authorization = match source {
            AuthorizationSource::Stored(stored) => stored,
            AuthorizationSource::Reserved { reservation_digest } => ExecutorAuthorization {
                authorization_id: self.accepted.action_grant_nonce,
                digest: digest.clone(),
                attempt_id: self.accepted.attempt_id,
                project_id: self.accepted.project_id.clone(),
                expires_at_ms,
                reservation_digest: Some(reservation_digest),
            },
        };
        if authorization.authorization_id != self.accepted.action_grant_nonce
            || authorization.digest != digest || authorization.attempt_id
            != self.accepted.attempt_id || authorization.project_id != self.accepted.project_id
            || authorization.expires_at_ms != expires_at_ms
            || authorization.reservation_digest.is_none() {
            return Err(DeployDriverError::AuthorizationBinding);
        }
        let mut prepared = self;
        prepared.operation.evidence.resource_reservation_digest =
        authorization.reservation_digest.clone();
        Ok(RuntimeBoundInstalledDeploymentV1 { prepared, authorization, artifacts })
    }
}

/// The digest of what the executor is authorized to do for an operation.
pub open spec fn document_digest_of(operation: OperationRecord) -> Option<Seq<char>> {
    crate::domain::identifiers::document_digest(authorization_json(operation))
}

} // verus!
