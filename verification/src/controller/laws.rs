//! What holds of every record that the controller keeps.

use vstd::prelude::*;
use super::transitions::authorized_once;
use crate::domain::artifacts::{ExecutorPhaseBranch, PhaseArtifacts, PhaseReceipt};
use crate::domain::identifiers::EvidenceDigest;
use crate::domain::operation::OperationState;
use crate::domain::record::{
    authorized_digest, AuthorizedPhaseSpecDigestV1, OperationEvidence, OperationRecord,
};
use crate::domain::states::OperationPhase;

verus! {

impl OperationRecord {
    /// The transitions are numbered from one, each begins where the one before it ended, and the
    /// last ends in the present state.
    pub open spec fn chained(self) -> bool {
        let transitions = self.evidence.transitions@;
        &&& forall|i: int|
            0 <= i < transitions.len() ==> (#[trigger] transitions[i]).sequence == i + 1
        &&& forall|i: int, j: int|
            0 <= i && j == i + 1 && j < transitions.len() ==> (#[trigger] transitions[i]).to == (
            #[trigger] transitions[j]).from
        &&& transitions.len() > 0 ==> transitions.last().to == self.state
    }
}

/// A move to another state keeps the transitions of a record in a chain.
pub proof fn law_moves_stay_chained(
    before: OperationRecord,
    after: OperationRecord,
    next: OperationState,
    receipt_digest: Option<EvidenceDigest>,
    at_ms: i64,
)
    requires
        before.chained(),
        before.move_fault(next) is None,
        before.moves(after, next, receipt_digest, at_ms),
    ensures
        after.chained(),
{
    let old_transitions = before.evidence.transitions@;
    let transitions = after.evidence.transitions@;
    assert forall|i: int, j: int| 0 <= i && j == i + 1 && j < transitions.len() implies (
    #[trigger] transitions[i]).to == (#[trigger] transitions[j]).from by {
        assert(transitions[i] == old_transitions[i]);
        if j < old_transitions.len() {
            assert(transitions[j] == old_transitions[j]);
        } else {
            assert(old_transitions.last() == old_transitions[i]);
        }
    }
    assert forall|i: int| 0 <= i < transitions.len() implies (#[trigger] transitions[i]).sequence == i
        + 1 by {
        if i < old_transitions.len() {
            assert(transitions[i] == old_transitions[i]);
        }
    }
}

/// A record that may be stored still may be stored after it moves to another state.
pub proof fn law_moves_stay_storable(
    before: OperationRecord,
    after: OperationRecord,
    next: OperationState,
    receipt_digest: Option<EvidenceDigest>,
    at_ms: i64,
)
    requires
        before.stored_fault() is None,
        before.move_fault(next) is None,
        before.moves(after, next, receipt_digest, at_ms),
    ensures
        after.stored_fault() is None,
{
}

proof fn lemma_not_authorized(
    history: Seq<AuthorizedPhaseSpecDigestV1>,
    phase: OperationPhase,
    branch: ExecutorPhaseBranch,
)
    requires
        authorized_digest(history, phase, branch) is None,
    ensures
        forall|i: int|
            0 <= i < history.len() ==> !((#[trigger] history[i]).phase == phase && history[i].branch
                == branch),
    decreases history.len(),
{
    if history.len() > 0 {
        lemma_not_authorized(history.drop_first(), phase, branch);
        assert forall|i: int| 0 <= i < history.len() implies !((#[trigger] history[i]).phase == phase
            && history[i].branch == branch) by {
            if i > 0 {
                assert(history[i] == history.drop_first()[i - 1]);
            }
        }
    }
}

proof fn lemma_authorized_after_push(
    history: Seq<AuthorizedPhaseSpecDigestV1>,
    entry: AuthorizedPhaseSpecDigestV1,
)
    requires
        authorized_digest(history, entry.phase, entry.branch) is None,
    ensures
        authorized_digest(history.push(entry), entry.phase, entry.branch) == Some(
            entry.spec_digest@,
        ),
    decreases history.len(),
{
    if history.len() > 0 {
        lemma_authorized_after_push(history.drop_first(), entry);
        assert(history.push(entry).drop_first() =~= history.drop_first().push(entry));
    }
}

/// The receipt of a phase, once committed, leaves a record that may be stored.
pub proof fn law_advances_stay_storable(
    before: OperationRecord,
    after: OperationRecord,
    receipt: PhaseReceipt,
    is_rollback_recovery: bool,
    at_ms: i64,
)
    requires
        before.stored_fault() is None,
        before.advance_fault(receipt, is_rollback_recovery) is None,
        before.advances(after, receipt, is_rollback_recovery, at_ms),
    ensures
        after.stored_fault() is None,
        before.chained() ==> after.chained(),
{
    let gained = choose|gained: OperationEvidence| #[trigger]
        before.evidence.gains(
            gained,
            receipt.artifacts,
            receipt.phase,
            receipt.branch,
            is_rollback_recovery,
        ) && OperationRecord { evidence: gained, ..before }.moves(
            after,
            before.state_after(receipt.phase, receipt.branch, is_rollback_recovery)->Ok_0,
            Some(receipt.receipt_digest),
            at_ms,
        );
    let built = choose|built: OperationEvidence| #[trigger]
        before.evidence.gains_build(built, receipt.artifacts, receipt.phase, receipt.branch)
            && gained == built.with_backups(receipt.artifacts).with_release(
            receipt.artifacts,
            receipt.phase,
            is_rollback_recovery,
        );
    let history = before.evidence.authorized_phase_spec_digests@;
    let grown = gained.authorized_phase_spec_digests@;
    assert(authorized_once(grown)) by {
        if authorized_digest(history, receipt.phase, receipt.branch) is None {
            lemma_not_authorized(history, receipt.phase, receipt.branch);
        }
        assert forall|i: int, j: int| 0 <= i < j < grown.len() implies !((
        #[trigger] grown[i]).branch == (#[trigger] grown[j]).branch && grown[i].phase
            == grown[j].phase) by {
            assert(grown[i] == history[i]);
            if j < history.len() {
                assert(grown[j] == history[j]);
            }
        }
    }
    let middle = OperationRecord { evidence: gained, ..before };
    let next = before.state_after(receipt.phase, receipt.branch, is_rollback_recovery)->Ok_0;
    law_moves_stay_storable(middle, after, next, Some(receipt.receipt_digest), at_ms);
    if before.chained() {
        assert(middle.chained());
        law_moves_stay_chained(middle, after, next, Some(receipt.receipt_digest), at_ms);
    }
}

/// A receipt that is committed is found again: to commit it once more changes nothing.
pub proof fn law_commit_is_idempotent(
    before: OperationRecord,
    after: OperationRecord,
    receipt: PhaseReceipt,
    at_ms: i64,
)
    requires
        before.stored_fault() is None,
        OperationRecord::commit_fault(Some(before), receipt) is None,
        !before.has_receipt(receipt.receipt_digest@),
        before.advances(after, receipt, before.rolling_back(), at_ms),
    ensures
        after.has_receipt(receipt.receipt_digest@),
        OperationRecord::commit_fault(Some(after), receipt) is None,
{
    law_advances_stay_storable(before, after, receipt, before.rolling_back(), at_ms);
    let last = after.evidence.transitions@.len() - 1;
    assert(after.carries(last, receipt.receipt_digest@));
}

/// Evidence that was added does not contradict itself: it can be added again.
pub proof fn law_evidence_can_be_added_again(
    before: OperationEvidence,
    after: OperationEvidence,
    artifacts: PhaseArtifacts,
    phase: OperationPhase,
    branch: ExecutorPhaseBranch,
    is_rollback_recovery: bool,
)
    requires
        before.conflict(artifacts, phase, branch, is_rollback_recovery) is None,
        before.gains(after, artifacts, phase, branch, is_rollback_recovery),
    ensures
        after.conflict(artifacts, phase, branch, is_rollback_recovery) is None,
{
    let built = choose|built: OperationEvidence| #[trigger]
        before.gains_build(built, artifacts, phase, branch) && after == built.with_backups(
            artifacts,
        ).with_release(artifacts, phase, is_rollback_recovery);
    let history = before.authorized_phase_spec_digests@;
    match artifacts.authorized_phase_spec_digest {
        Some(digest) => {
            if authorized_digest(history, phase, branch) is None {
                lemma_authorized_after_push(
                    history,
                    AuthorizedPhaseSpecDigestV1 { branch, phase, spec_digest: digest },
                );
            }
        },
        None => {},
    }
    assert(after.build_conflict(artifacts, phase, branch) is None);
    assert(after.backup_conflict(artifacts) is None);
    assert(after.release_conflict(artifacts, phase, is_rollback_recovery) is None);
}

/// What was known stays.
pub open spec fn kept<T>(before: Option<T>, after: Option<T>) -> bool {
    before is Some ==> after == before
}

/// What is known of an operation is never replaced, but for the health that a soak tells: of the
/// release where the operation goes forth, and of the release before where it goes back.
pub proof fn law_evidence_is_kept(
    before: OperationEvidence,
    after: OperationEvidence,
    artifacts: PhaseArtifacts,
    phase: OperationPhase,
    branch: ExecutorPhaseBranch,
    is_rollback_recovery: bool,
)
    requires
        before.gains(after, artifacts, phase, branch, is_rollback_recovery),
    ensures
        before.authorized_phase_spec_digests@.is_prefix_of(after.authorized_phase_spec_digests@),
        after.installed_policy == before.installed_policy,
        after.source_attestation_digest == before.source_attestation_digest,
        after.source_sequence == before.source_sequence,
        kept(before.source_gate_proof_digest, after.source_gate_proof_digest),
        kept(before.drain_evidence_digest, after.drain_evidence_digest),
        kept(before.source_export_digest, after.source_export_digest),
        kept(before.prefetch_evidence_digest, after.prefetch_evidence_digest),
        kept(before.ci_evidence_digest, after.ci_evidence_digest),
        kept(before.build_plan_digest, after.build_plan_digest),
        kept(before.deployment_plan_digest, after.deployment_plan_digest),
        kept(before.release_bundle_digest, after.release_bundle_digest),
        kept(before.resource_reservation_digest, after.resource_reservation_digest),
        kept(before.build_context_digest, after.build_context_digest),
        before.generated_output_digests@.len() > 0 ==> after.generated_output_digests@
            == before.generated_output_digests@,
        kept(before.image_digest, after.image_digest),
        kept(before.image_id_digest, after.image_id_digest),
        before.base_image_digests@.len() > 0 ==> after.base_image_digests@
            == before.base_image_digests@,
        kept(before.schema_version, after.schema_version),
        kept(before.backup_id, after.backup_id),
        kept(before.backup_set_id, after.backup_set_id),
        kept(before.base_backup_id, after.base_backup_id),
        kept(before.base_backup_manifest_digest, after.base_backup_manifest_digest),
        kept(before.base_backup_evidence_digest, after.base_backup_evidence_digest),
        kept(before.base_backup_offsite_evidence_digest, after.base_backup_offsite_evidence_digest),
        kept(before.base_backup_verification_digest, after.base_backup_verification_digest),
        kept(before.cutover_backup_id, after.cutover_backup_id),
        kept(before.cutover_backup_manifest_digest, after.cutover_backup_manifest_digest),
        kept(before.cutover_backup_evidence_digest, after.cutover_backup_evidence_digest),
        kept(before.cutover_backup_verification_digest, after.cutover_backup_verification_digest),
        kept(before.previous_release_bundle_digest, after.previous_release_bundle_digest),
        !(phase is Soaking) ==> kept(before.health_evidence_digest, after.health_evidence_digest),
        !(phase is Soaking) ==> kept(before.rollback_health_evidence_digest, after.rollback_health_evidence_digest),
        after.action_grant_digest == before.action_grant_digest,
        kept(before.fencing_epoch, after.fencing_epoch),
        after.fence_acquisition_receipt_digest == before.fence_acquisition_receipt_digest,
        after.recovery_mode == before.recovery_mode,
        after.transitions == before.transitions,
        is_rollback_recovery ==> after.health_evidence_digest == before.health_evidence_digest,
        !is_rollback_recovery ==> after.rollback_health_evidence_digest
            == before.rollback_health_evidence_digest,
{
}

} // verus!
