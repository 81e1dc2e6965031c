//! What is recorded of an operation.

use vstd::prelude::*;
use super::artifacts::ExecutorPhaseBranch;
use super::failure::FailureCapsule;
use super::identifiers::{EvidenceDigest, GitCommitId, ProjectId};
use super::operation::{
    InstalledPolicyIdentity, OperationActor, OperationKind, OperationRecoveryMode,
    OperationState, ReleaseClass,
};
use super::states::OperationPhase;
use crate::unique_id::Uuid;

verus! {

/// The digest of what a phase was authorized to do.
#[derive(Debug, PartialEq, Eq)]
pub struct AuthorizedPhaseSpecDigestV1 {
    pub branch: ExecutorPhaseBranch,
    pub phase: OperationPhase,
    pub spec_digest: EvidenceDigest,
}

/// A change of the state of an operation.
#[derive(Clone, Debug, PartialEq, Eq)]
pub struct OperationTransition {
    pub sequence: u32,
    pub from: OperationState,
    pub to: OperationState,
    pub receipt_digest: Option<EvidenceDigest>,
    pub occurred_at_ms: i64,
}

/// The evidence that an operation has gathered.
#[derive(Clone, Debug, PartialEq, Eq)]
pub struct OperationEvidence {
    pub authorized_phase_spec_digests: Vec<AuthorizedPhaseSpecDigestV1>,
    pub installed_policy: Option<InstalledPolicyIdentity>,
    pub source_attestation_digest: Option<EvidenceDigest>,
    pub source_sequence: Option<u64>,
    pub source_gate_proof_digest: Option<EvidenceDigest>,
    pub drain_evidence_digest: Option<EvidenceDigest>,
    pub source_export_digest: Option<EvidenceDigest>,
    pub prefetch_evidence_digest: Option<EvidenceDigest>,
    pub ci_evidence_digest: Option<EvidenceDigest>,
    pub build_plan_digest: Option<EvidenceDigest>,
    pub deployment_plan_digest: Option<EvidenceDigest>,
    pub release_bundle_digest: Option<EvidenceDigest>,
    pub resource_reservation_digest: Option<EvidenceDigest>,
    pub build_context_digest: Option<EvidenceDigest>,
    pub generated_output_digests: Vec<EvidenceDigest>,
    pub image_digest: Option<EvidenceDigest>,
    pub image_id_digest: Option<EvidenceDigest>,
    pub base_image_digests: Vec<EvidenceDigest>,
    pub schema_version: Option<String>,
    pub backup_id: Option<Uuid>,
    pub backup_set_id: Option<Uuid>,
    pub base_backup_id: Option<Uuid>,
    pub base_backup_manifest_digest: Option<EvidenceDigest>,
    pub base_backup_evidence_digest: Option<EvidenceDigest>,
    pub base_backup_offsite_evidence_digest: Option<EvidenceDigest>,
    pub base_backup_verification_digest: Option<EvidenceDigest>,
    pub cutover_backup_id: Option<Uuid>,
    pub cutover_backup_manifest_digest: Option<EvidenceDigest>,
    pub cutover_backup_evidence_digest: Option<EvidenceDigest>,
    pub cutover_backup_verification_digest: Option<EvidenceDigest>,
    pub previous_release_bundle_digest: Option<EvidenceDigest>,
    pub health_evidence_digest: Option<EvidenceDigest>,
    pub rollback_health_evidence_digest: Option<EvidenceDigest>,
    pub action_grant_digest: Option<EvidenceDigest>,
    pub fencing_epoch: Option<u64>,
    pub fence_acquisition_receipt_digest: Option<EvidenceDigest>,
    pub recovery_mode: Option<OperationRecoveryMode>,
    pub transitions: Vec<OperationTransition>,
}

impl OperationEvidence {
    /// Nothing is gathered.
    pub open spec fn empty(self) -> bool {
        &&& self.authorized_phase_spec_digests@.len() == 0
        &&& self.installed_policy is None
        &&& self.source_attestation_digest is None
        &&& self.source_sequence is None
        &&& self.source_gate_proof_digest is None
        &&& self.drain_evidence_digest is None
        &&& self.source_export_digest is None
        &&& self.prefetch_evidence_digest is None
        &&& self.ci_evidence_digest is None
        &&& self.build_plan_digest is None
        &&& self.deployment_plan_digest is None
        &&& self.release_bundle_digest is None
        &&& self.resource_reservation_digest is None
        &&& self.build_context_digest is None
        &&& self.generated_output_digests@.len() == 0
        &&& self.image_digest is None
        &&& self.image_id_digest is None
        &&& self.base_image_digests@.len() == 0
        &&& self.schema_version is None
        &&& self.backup_id is None
        &&& self.backup_set_id is None
        &&& self.base_backup_id is None
        &&& self.base_backup_manifest_digest is None
        &&& self.base_backup_evidence_digest is None
        &&& self.base_backup_offsite_evidence_digest is None
        &&& self.base_backup_verification_digest is None
        &&& self.cutover_backup_id is None
        &&& self.cutover_backup_manifest_digest is None
        &&& self.cutover_backup_evidence_digest is None
        &&& self.cutover_backup_verification_digest is None
        &&& self.previous_release_bundle_digest is None
        &&& self.health_evidence_digest is None
        &&& self.rollback_health_evidence_digest is None
        &&& self.action_grant_digest is None
        &&& self.fencing_epoch is None
        &&& self.fence_acquisition_receipt_digest is None
        &&& self.recovery_mode is None
        &&& self.transitions@.len() == 0
    }
}

impl Default for OperationEvidence {
    fn default() -> (r: OperationEvidence)
        ensures
            r.empty(),
    {
        OperationEvidence {
            authorized_phase_spec_digests: Vec::new(),
            installed_policy: None,
            source_attestation_digest: None,
            source_sequence: None,
            source_gate_proof_digest: None,
            drain_evidence_digest: None,
            source_export_digest: None,
            prefetch_evidence_digest: None,
            ci_evidence_digest: None,
            build_plan_digest: None,
            deployment_plan_digest: None,
            release_bundle_digest: None,
            resource_reservation_digest: None,
            build_context_digest: None,
            generated_output_digests: Vec::new(),
            image_digest: None,
            image_id_digest: None,
            base_image_digests: Vec::new(),
            schema_version: None,
            backup_id: None,
            backup_set_id: None,
            base_backup_id: None,
            base_backup_manifest_digest: None,
            base_backup_evidence_digest: None,
            base_backup_offsite_evidence_digest: None,
            base_backup_verification_digest: None,
            cutover_backup_id: None,
            cutover_backup_manifest_digest: None,
            cutover_backup_evidence_digest: None,
            cutover_backup_verification_digest: None,
            previous_release_bundle_digest: None,
            health_evidence_digest: None,
            rollback_health_evidence_digest: None,
            action_grant_digest: None,
            fencing_epoch: None,
            fence_acquisition_receipt_digest: None,
            recovery_mode: None,
            transitions: Vec::new(),
        }
    }
}

/// Everything that is recorded of an attempt at an operation.
#[derive(Clone, Debug, PartialEq, Eq)]
pub struct OperationRecord {
    pub operation_id: Uuid,
    pub request_id: Uuid,
    pub attempt_id: Uuid,
    pub attempt_number: u32,
    pub project_id: ProjectId,
    pub operation_kind: OperationKind,
    pub target_commit: Option<GitCommitId>,
    pub release_class: Option<ReleaseClass>,
    pub state: OperationState,
    pub actor: OperationActor,
    pub evidence: OperationEvidence,
    pub failure_capsule: Option<FailureCapsule>,
    pub created_at_ms: i64,
    pub updated_at_ms: i64,
}

/// The digest that was authorized for a phase of a branch, the first where there are several.
pub open spec fn authorized_digest(
    history: Seq<AuthorizedPhaseSpecDigestV1>,
    phase: OperationPhase,
    branch: ExecutorPhaseBranch,
) -> Option<Seq<char>>
    decreases history.len(),
{
    if history.len() == 0 {
        None
    } else if history[0].phase == phase && history[0].branch == branch {
        Some(history[0].spec_digest@)
    } else {
        authorized_digest(history.drop_first(), phase, branch)
    }
}

/// Where the digest that was authorized for a phase of a branch stands.
pub fn find_authorized(
    history: &Vec<AuthorizedPhaseSpecDigestV1>,
    phase: OperationPhase,
    branch: ExecutorPhaseBranch,
) -> (r: Option<usize>)
    ensures
        match r {
            Some(i) => i < history@.len() && authorized_digest(history@, phase, branch) == Some(
                history@[i as int].spec_digest@,
            ),
            None => authorized_digest(history@, phase, branch) is None,
        },
{
    let mut i: usize = 0;
    assert(history@.skip(0) =~= history@);
    while i < history.len()
        invariant
            i <= history.len(),
            authorized_digest(history@, phase, branch) == authorized_digest(
                history@.skip(i as int),
                phase,
                branch,
            ),
        decreases history.len() - i,
    {
        if history[i].phase == phase && history[i].branch == branch {
            return Some(i);
        }
        proof {
            assert(history@.skip(i as int).drop_first() =~= history@.skip(i + 1));
        }
        i += 1;
    }
    None
}

impl OperationTransition {
    /// The phase that a transition with a receipt ends: the one it leaves, or the one that was
    /// left for reconciliation just before.
    pub open spec fn ended_phase(transitions: Seq<OperationTransition>, index: int) -> Option<
        OperationPhase,
    > {
        if index < 0 || index >= transitions.len() {
            None
        } else if !(transitions[index].from.phase is Reconciliation) {
            Some(transitions[index].from.phase)
        } else if index > 0 && transitions[index - 1].to.phase is Reconciliation
            && transitions[index - 1].receipt_digest is None {
            Some(transitions[index - 1].from.phase)
        } else {
            None
        }
    }
}

pub fn receipt_phase_for_transition(
    transitions: &Vec<OperationTransition>,
    index: usize,
) -> (r: Option<
    OperationPhase,
>)
    ensures
        r == OperationTransition::ended_phase(transitions@, index as int),
{
    if index >= transitions.len() {
        return None;
    }
    if transitions[index].from.phase != OperationPhase::Reconciliation {
        return Some(transitions[index].from.phase);
    }
    if index > 0 && transitions[index - 1].to.phase == OperationPhase::Reconciliation
        && transitions[index - 1].receipt_digest.is_none() {
        Some(transitions[index - 1].from.phase)
    } else {
        None
    }
}

impl OperationRecord {
    /// A receipt was committed for a phase.
    pub open spec fn has_committed_phase(self, phase: OperationPhase) -> bool {
        exists|i: int|
            0 <= i < self.evidence.transitions@.len() && (#[trigger] self.evidence.transitions@[i]).receipt_digest is Some
                && OperationTransition::ended_phase(self.evidence.transitions@, i) == Some(phase)
    }

    /// A receipt was committed for a phase that may have changed production.
    pub open spec fn has_committed_mutation(self) -> bool {
        exists|i: int|
            0 <= i < self.evidence.transitions@.len() && (#[trigger] self.evidence.transitions@[i]).receipt_digest is Some
                && (OperationTransition::ended_phase(self.evidence.transitions@, i) matches Some(
                phase,
            ) && !phase.before_mutation())
    }

    pub fn committed_phase(&self, phase: OperationPhase) -> (r: bool)
        ensures
            r == self.has_committed_phase(phase),
    {
        let transitions = &self.evidence.transitions;
        let mut i: usize = 0;
        while i < transitions.len()
            invariant
                i <= transitions.len(),
                transitions@ == self.evidence.transitions@,
                forall|k: int|
                    0 <= k < i ==> !((#[trigger] transitions@[k]).receipt_digest is Some
                        && OperationTransition::ended_phase(transitions@, k) == Some(phase)),
            decreases transitions.len() - i,
        {
            if transitions[i].receipt_digest.is_some() && receipt_phase_for_transition(
                transitions,
                i,
            ) == Some(phase) {
                return true;
            }
            i += 1;
        }
        false
    }

    pub fn committed_mutation(&self) -> (r: bool)
        ensures
            r == self.has_committed_mutation(),
    {
        let transitions = &self.evidence.transitions;
        let mut i: usize = 0;
        while i < transitions.len()
            invariant
                i <= transitions.len(),
                transitions@ == self.evidence.transitions@,
                forall|k: int|
                    0 <= k < i ==> !((#[trigger] transitions@[k]).receipt_digest is Some
                        && (OperationTransition::ended_phase(transitions@, k) matches Some(phase)
                        && !phase.before_mutation())),
            decreases transitions.len() - i,
        {
            if transitions[i].receipt_digest.is_some() {
                match receipt_phase_for_transition(transitions, i) {
                    Some(phase) => if phase.crosses_mutation_boundary() {
                        return true;
                    },
                    None => {},
                }
            }
            i += 1;
        }
        false
    }
}

/// The phase that a transition ended is the one that it left; one that left a reconciliation ended the
/// phase that the reconciliation was entered from, if that was entered without a receipt.
pub proof fn law_reconciled_transitions_end_what_was_unknown(
    transitions: Vec<OperationTransition>,
    index: usize,
    r: Option<OperationPhase>,
)
    requires
        call_ensures(receipt_phase_for_transition, (&transitions, index), r),
        index < transitions@.len(),
    ensures
        ({
            let here = transitions@[index as int];
            let before = transitions@[index - 1];
            &&& !(here.from.phase is Reconciliation) ==> r == Some(here.from.phase)
            &&& here.from.phase is Reconciliation && index == 0 ==> r is None
            &&& here.from.phase is Reconciliation && index > 0 ==> if before.to.phase
                is Reconciliation && before.receipt_digest is None {
                r == Some(before.from.phase)
            } else {
                r is None
            }
        }),
{
}

/// A phase is committed only by a receipt: a transition without one commits nothing, and what was
/// committed stays so, whatever is recorded after it.
pub proof fn law_committed_phases_stay_committed(
    before: OperationRecord,
    after: OperationRecord,
    another: OperationTransition,
    phase: OperationPhase,
    was: bool,
    is: bool,
)
    requires
        call_ensures(OperationRecord::committed_phase, (&before, phase), was),
        call_ensures(OperationRecord::committed_phase, (&after, phase), is),
        after.evidence.transitions@ == before.evidence.transitions@.push(another),
    ensures
        was ==> is,
        another.receipt_digest is None ==> was == is,
        another.receipt_digest is Some && another.from.phase == phase && !(phase is Reconciliation)
            ==> is,
        before.evidence.transitions@.len() == 0 ==> !was,
{
    let old_history = before.evidence.transitions@;
    let history = after.evidence.transitions@;
    let last = old_history.len() as int;
    assert(history[last] == another);
    assert forall|i: int| 0 <= i < old_history.len() implies #[trigger] history[i] == old_history[i]
        && OperationTransition::ended_phase(history, i) == OperationTransition::ended_phase(
        old_history,
        i,
    ) by {
        if i > 0 {
            assert(history[i - 1] == old_history[i - 1]);
        }
    }
    if was {
        let i = choose|i: int|
            0 <= i < old_history.len() && (#[trigger] old_history[i]).receipt_digest is Some
                && OperationTransition::ended_phase(old_history, i) == Some(phase);
        assert(history[i].receipt_digest is Some);
    }
    if is && another.receipt_digest is None {
        let i = choose|i: int|
            0 <= i < history.len() && (#[trigger] history[i]).receipt_digest is Some
                && OperationTransition::ended_phase(history, i) == Some(phase);
        assert(old_history[i].receipt_digest is Some);
    }
}

/// Production was changed if a phase that changes it was committed, and never by one before the
/// mutation.
pub proof fn law_only_mutations_change_production(
    record: OperationRecord,
    phase: OperationPhase,
    committed: bool,
    changes: bool,
    mutated: bool,
)
    requires
        call_ensures(OperationRecord::committed_phase, (&record, phase), committed),
        call_ensures(OperationRecord::committed_mutation, (&record,), mutated),
        call_ensures(OperationPhase::crosses_mutation_boundary, (phase,), changes),
    ensures
        committed && changes ==> mutated,
        record.evidence.transitions@.len() == 0 ==> !mutated,
{
    if committed && changes {
        let i = choose|i: int|
            0 <= i < record.evidence.transitions@.len() && (
            #[trigger] record.evidence.transitions@[i]).receipt_digest is Some
                && OperationTransition::ended_phase(record.evidence.transitions@, i) == Some(phase);
        assert(record.evidence.transitions@[i].receipt_digest is Some);
    }
}

} // verus!
