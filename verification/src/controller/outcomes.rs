//! What comes of the requests to the controller, told by what is stored before and after.

use vstd::prelude::*;
use super::admission::{
    attempt_count_for_source_sequence, validate_current_lease, validate_grant_binding,
    ActionGrantClaims, AdmissionOutcome, AutomationRows, FreshIdentities, InteractiveRows,
    NewOperation, TabLease, TabLeaseClaim, VerifiedAutomationAdmission,
    VerifiedInteractiveDeployAdmission,
};
use super::merge::merge_artifacts;
use super::transitions::OperationUpdate;
use super::{DurableController, StoreError};
use crate::domain::artifacts::{ExecutorPhaseBranch, PhaseArtifacts, PhaseReceipt};
use crate::domain::failure::FailureCapsule;
use crate::domain::identifiers::digest_texts;
use crate::domain::operation::{
    comes_before, FenceAcquisitionReceiptV1, OperationActor, OperationContractError, OperationKind,
    OperationRecoveryMode, OperationState, ReleaseClass,
};
use crate::domain::record::{OperationEvidence, OperationRecord, OperationTransition};
use crate::domain::states::{BlockingReason, OperationPhase};
use crate::unique_id::Uuid;

verus! {

/// Two records are of one attempt at one operation, however far it has come.
pub open spec fn same_attempt(before: OperationRecord, after: OperationRecord) -> bool {
    &&& after.operation_id == before.operation_id
    &&& after.request_id == before.request_id
    &&& after.attempt_id == before.attempt_id
    &&& after.attempt_number == before.attempt_number
    &&& after.project_id == before.project_id
    &&& after.operation_kind == before.operation_kind
    &&& after.target_commit == before.target_commit
    &&& after.release_class == before.release_class
    &&& after.actor == before.actor
    &&& after.created_at_ms == before.created_at_ms
}

/// A record has taken one step, which its history tells with its number, its time and the states
/// that it led from and to, and with no receipt. What was known but for the way to recover stays.
pub open spec fn one_step(before: OperationRecord, after: OperationRecord, at_ms: i64) -> bool {
    let old_steps = before.evidence.transitions@;
    let steps = after.evidence.transitions@;
    &&& same_attempt(before, after)
    &&& after.updated_at_ms == at_ms
    &&& steps.len() == old_steps.len() + 1
    &&& forall|i: int| 0 <= i < old_steps.len() ==> #[trigger] steps[i] == old_steps[i]
    &&& steps.last().sequence == steps.len()
    &&& steps.last().from == before.state
    &&& steps.last().to == after.state
    &&& steps.last().receipt_digest is None
    &&& steps.last().occurred_at_ms == at_ms
    &&& after.evidence == (OperationEvidence {
        transitions: after.evidence.transitions,
        recovery_mode: after.evidence.recovery_mode,
        ..before.evidence
    })
}

/// The step at a place ended a phase with a receipt, by itself or out of the reconciliation that the
/// phase was left for.
pub open spec fn receipt_ends(
    steps: Seq<OperationTransition>,
    place: int,
    phase: OperationPhase,
) -> bool {
    &&& steps[place].receipt_digest is Some
    &&& if steps[place].from.phase is Reconciliation {
        place > 0 && steps[place - 1].to.phase is Reconciliation && steps[place - 1].receipt_digest
            is None && steps[place - 1].from.phase == phase
    } else {
        steps[place].from.phase == phase
    }
}

/// A receipt ended a phase.
pub open spec fn receipt_ended(operation: OperationRecord, phase: OperationPhase) -> bool {
    exists|i: int|
        0 <= i < operation.evidence.transitions@.len() && #[trigger] receipt_ends(
            operation.evidence.transitions@,
            i,
            phase,
        )
}

/// There is room for one more step in the history.
pub open spec fn can_step(operation: OperationRecord) -> bool {
    operation.evidence.transitions@.len() < u32::MAX
}

proof fn lemma_receipt_ended(operation: OperationRecord, phase: OperationPhase)
    ensures
        receipt_ended(operation, phase) <==> operation.has_committed_phase(phase),
{
    let steps = operation.evidence.transitions@;
    if receipt_ended(operation, phase) {
        let i = choose|i: int| 0 <= i < steps.len() && #[trigger] receipt_ends(steps, i, phase);
        assert(operation.evidence.transitions@[i].receipt_digest is Some);
        assert(OperationTransition::ended_phase(steps, i) == Some(phase));
    }
    if operation.has_committed_phase(phase) {
        let i = choose|i: int|
            0 <= i < operation.evidence.transitions@.len() && (
            #[trigger] operation.evidence.transitions@[i]).receipt_digest is Some
                && OperationTransition::ended_phase(operation.evidence.transitions@, i) == Some(
                phase,
            );
        assert(receipt_ends(steps, i, phase));
    }
}

/// A rollback begins only of a running deployment whose new code is out and whose release the code
/// before can still run with: never of one that breaks its state. It leaves nothing blocked, and
/// says that the operation recovers so.
pub proof fn law_only_compatible_releases_roll_back<S>(
    controller: DurableController<S>,
    attempt_id: Uuid,
    stored: Option<OperationRecord>,
    at_ms: i64,
    r: Result<OperationUpdate, StoreError>,
)
    requires
        call_ensures(
            DurableController::<S>::begin_rollback,
            (&controller, attempt_id, stored, at_ms),
            r,
        ),
    ensures
        r is Ok ==> stored is Some && stored->0.state.result is Running,
        r matches Ok(update) ==> (update.changed ==> {
            let before = stored->0;
            &&& before.operation_kind is Deploy
            &&& before.release_class == Some(ReleaseClass::CodeOnlyCompatible)
                || before.release_class == Some(ReleaseClass::StatefulCompatible)
            &&& receipt_ended(before, OperationPhase::Deploying)
            &&& one_step(before, update.operation, at_ms)
            &&& update.operation.state.phase is Rollback
            &&& update.operation.state.result is Running
            &&& update.operation.state.blocking_reason is Unblocked
            &&& update.operation.evidence.recovery_mode == Some(OperationRecoveryMode::Rollback)
            &&& update.operation.failure_capsule == before.failure_capsule
        }),
        r matches Ok(update) ==> (!update.changed ==> {
            &&& stored == Some(update.operation)
            &&& update.operation.state.phase is Rollback
            &&& update.operation.evidence.recovery_mode == Some(OperationRecoveryMode::Rollback)
        }),
        stored is Some && stored->0.stored_fault() is None && stored->0.evidence.recovery_mode
            != Some(OperationRecoveryMode::Rollback) && (stored->0.release_class == Some(
            ReleaseClass::StatefulBreaking,
        ) || stored->0.release_class == Some(ReleaseClass::Rollback) || stored->0.release_class
            is None) ==> r == Err::<OperationUpdate, _>(StoreError::TransitionRejected),
        stored is None ==> r == Err::<OperationUpdate, _>(StoreError::OperationNotFound(attempt_id)),
{
    if stored is Some {
        lemma_receipt_ended(stored->0, OperationPhase::Deploying);
    }
}

/// A running deployment of a compatible release, with or without state, whose new code is out can
/// always begin to roll back, from every phase in which production can have changed.
pub proof fn law_compatible_releases_can_roll_back<S>(
    controller: DurableController<S>,
    attempt_id: Uuid,
    stored: OperationRecord,
    at_ms: i64,
    crossed: bool,
    r: Result<OperationUpdate, StoreError>,
    validated: Result<OperationRecord, StoreError>,
)
    requires
        call_ensures(
            DurableController::<S>::begin_rollback,
            (&controller, attempt_id, Some(stored), at_ms),
            r,
        ),
        call_ensures(
            DurableController::<S>::validate_rollback,
            (&controller, attempt_id, Some(stored)),
            validated,
        ),
        call_ensures(OperationPhase::crosses_mutation_boundary, (stored.state.phase,), crossed),
        stored.stored_fault() is None,
        can_step(stored),
    ensures
        crossed && stored.operation_kind is Deploy && stored.state.result is Running && (
        stored.release_class == Some(ReleaseClass::CodeOnlyCompatible) || stored.release_class
            == Some(ReleaseClass::StatefulCompatible)) && receipt_ended(
            stored,
            OperationPhase::Deploying,
        ) && stored.evidence.recovery_mode != Some(OperationRecoveryMode::Rollback) ==> (
        r matches Ok(update) && update.changed),
        r is Ok <==> validated is Ok,
        validated matches Ok(operation) ==> operation == stored,
        !crossed && stored.evidence.recovery_mode != Some(OperationRecoveryMode::Rollback) ==> r is Err,
{
    lemma_receipt_ended(stored, OperationPhase::Deploying);
}

/// An attempt is cancelled only while it runs and before production can have changed. One that has
/// ended stays as it is, and one that went further is not cancelled.
pub proof fn law_cancelled_attempts_changed_nothing<S>(
    controller: DurableController<S>,
    attempt_id: Uuid,
    stored: OperationRecord,
    at_ms: i64,
    crossed: bool,
    r: Result<OperationUpdate, StoreError>,
)
    requires
        call_ensures(
            DurableController::<S>::cancel_before_mutation,
            (&controller, attempt_id, Some(stored), at_ms),
            r,
        ),
        call_ensures(OperationPhase::crosses_mutation_boundary, (stored.state.phase,), crossed),
        stored.stored_fault() is None,
        can_step(stored),
    ensures
        stored.state.result is Running && crossed ==> r == Err::<OperationUpdate, _>(
            StoreError::CancellationAfterMutation,
        ),
        !(stored.state.result is Running) ==> (r matches Ok(update) && !update.changed
            && update.operation == stored),
        stored.state.result is Running && !crossed ==> (r matches Ok(update) && {
            &&& update.changed
            &&& one_step(stored, update.operation, at_ms)
            &&& update.operation.state.phase == stored.state.phase
            &&& update.operation.state.result is Cancelled
            &&& update.operation.state.blocking_reason is Unblocked
            &&& update.operation.failure_capsule == stored.failure_capsule
            &&& update.operation.evidence.recovery_mode == stored.evidence.recovery_mode
        }),
{
}

/// An attempt is told as failed only while it runs and before production can have changed, with the
/// failure; one that went further must be reconciled, and one that has ended stays as it is.
pub proof fn law_failed_attempts_changed_nothing<S>(
    controller: DurableController<S>,
    attempt_id: Uuid,
    stored: OperationRecord,
    failure_capsule: FailureCapsule,
    at_ms: i64,
    crossed: bool,
    r: Result<OperationUpdate, StoreError>,
)
    requires
        call_ensures(
            DurableController::<S>::fail_attempt,
            (&controller, attempt_id, Some(stored), failure_capsule, at_ms),
            r,
        ),
        call_ensures(OperationPhase::crosses_mutation_boundary, (stored.state.phase,), crossed),
        stored.stored_fault() is None,
        can_step(stored),
    ensures
        stored.state.result is Running && crossed ==> r == Err::<OperationUpdate, _>(
            StoreError::FailureAfterMutationRequiresReconcile,
        ),
        !(stored.state.result is Running) ==> (r matches Ok(update) && !update.changed
            && update.operation == stored),
        stored.state.result is Running && !crossed ==> (r matches Ok(update) && {
            &&& update.changed
            &&& one_step(stored, update.operation, at_ms)
            &&& update.operation.state.phase == stored.state.phase
            &&& update.operation.state.result is Failed
            &&& update.operation.state.blocking_reason is Unblocked
            &&& update.operation.failure_capsule == Some(failure_capsule)
            &&& update.operation.evidence.recovery_mode == stored.evidence.recovery_mode
        }),
{
}

/// A running operation whose effect is not known goes to reconciliation from wherever it is, with
/// the failure, and waits there until its state is made sure of. An operation that is there already
/// stays, and one that has ended is refused.
pub proof fn law_unknown_effects_are_reconciled<S>(
    controller: DurableController<S>,
    attempt_id: Uuid,
    stored: OperationRecord,
    failure_capsule: FailureCapsule,
    at_ms: i64,
    r: Result<OperationUpdate, StoreError>,
)
    requires
        call_ensures(
            DurableController::<S>::mark_needs_reconcile,
            (&controller, attempt_id, Some(stored), failure_capsule, at_ms),
            r,
        ),
        stored.stored_fault() is None,
        can_step(stored),
    ensures
        !(stored.state.result is Running) ==> r == Err::<OperationUpdate, _>(
            StoreError::TransitionRejected,
        ),
        stored.state.result is Running && stored.state.phase is Reconciliation ==> (
        r matches Ok(update) && !update.changed && update.operation == stored),
        stored.state.result is Running && !(stored.state.phase is Reconciliation) ==> (
        r matches Ok(update) && {
            &&& update.changed
            &&& one_step(stored, update.operation, at_ms)
            &&& update.operation.state.phase is Reconciliation
            &&& update.operation.state.result is Running
            &&& update.operation.state.blocking_reason is SecurityStateInvalid
            &&& update.operation.failure_capsule == Some(failure_capsule)
            &&& update.operation.evidence.recovery_mode == Some(
                OperationRecoveryMode::Reconciliation,
            )
        }),
{
}

/// A deployment whose source was attested and admitted: what a source can block or replace.
pub open spec fn source_admitted(operation: OperationRecord) -> bool {
    &&& operation.operation_kind is Deploy
    &&& operation.target_commit is Some
    &&& operation.evidence.installed_policy is Some
    &&& operation.evidence.source_attestation_digest is Some
    &&& operation.evidence.source_sequence is Some
    &&& operation.evidence.source_sequence->0 > 0
}

/// A receipt ended a phase in which production can have changed.
pub open spec fn production_changed(operation: OperationRecord) -> bool {
    exists|phase: OperationPhase| #[trigger] receipt_ended(operation, phase) && !(phase is Queued)
        && !(phase is SyncingSource) && !(phase is VerifyingSource) && !(phase is Testing) && !(
    phase is Building) && !(phase is Preflight)
}

proof fn lemma_production_changed(operation: OperationRecord)
    ensures
        production_changed(operation) <==> operation.has_committed_mutation(),
{
    let steps = operation.evidence.transitions@;
    if production_changed(operation) {
        let phase = choose|phase: OperationPhase| #[trigger]
            receipt_ended(operation, phase) && !(phase is Queued) && !(phase is SyncingSource) && !(
            phase is VerifyingSource) && !(phase is Testing) && !(phase is Building) && !(
            phase is Preflight);
        lemma_receipt_ended(operation, phase);
        let i = choose|i: int|
            0 <= i < operation.evidence.transitions@.len() && (
            #[trigger] operation.evidence.transitions@[i]).receipt_digest is Some
                && OperationTransition::ended_phase(
                operation.evidence.transitions@,
                i,
            ) == Some(phase);
        assert(operation.evidence.transitions@[i].receipt_digest is Some);
    }
    if operation.has_committed_mutation() {
        let i = choose|i: int|
            0 <= i < operation.evidence.transitions@.len() && (
            #[trigger] operation.evidence.transitions@[i]).receipt_digest is Some && (
            OperationTransition::ended_phase(
                operation.evidence.transitions@,
                i,
            ) matches Some(phase) && !phase.before_mutation());
        let phase = OperationTransition::ended_phase(
            operation.evidence.transitions@,
            i,
        )->0;
        assert(operation.evidence.transitions@[i].receipt_digest is Some);
        assert(operation.has_committed_phase(phase));
        lemma_receipt_ended(operation, phase);
    }
}

/// A block holds a running operation where it is. It is set only before production changed, and
/// gives way to no other reason but the one that the source cannot be asked.
pub open spec fn block_set(
    stored: OperationRecord,
    reason: BlockingReason,
    at_ms: i64,
    r: Result<OperationUpdate, StoreError>,
) -> bool {
    if stored.state.blocking_reason == reason || !(stored.state.blocking_reason is Unblocked
        || stored.state.blocking_reason is SourceBrokerUnavailable) {
        r matches Ok(update) && !update.changed && update.operation == stored
    } else {
        r matches Ok(update) && {
            &&& update.changed
            &&& one_step(stored, update.operation, at_ms)
            &&& update.operation.state.phase == stored.state.phase
            &&& update.operation.state.result is Running
            &&& update.operation.state.blocking_reason == reason
            &&& update.operation.failure_capsule == stored.failure_capsule
            &&& update.operation.evidence.recovery_mode == stored.evidence.recovery_mode
        }
    }
}

/// A source blocks only running deployments that it was admitted for and that changed nothing yet,
/// and only for the reasons that a source can have.
pub proof fn law_sources_block_what_changed_nothing<S>(
    controller: DurableController<S>,
    attempt_id: Uuid,
    stored: OperationRecord,
    reason: BlockingReason,
    at_ms: i64,
    r: Result<OperationUpdate, StoreError>,
)
    requires
        call_ensures(
            DurableController::<S>::set_source_block,
            (&controller, attempt_id, Some(stored), reason, at_ms),
            r,
        ),
        stored.stored_fault() is None,
        can_step(stored),
    ensures
        r is Ok ==> reason is SourceDivergence || reason is SourceBrokerUnavailable
            || reason is SourceAttestationInvalid || reason is OperatorHold,
        r is Ok <==> {
            &&& reason is SourceDivergence || reason is SourceBrokerUnavailable
                || reason is SourceAttestationInvalid || reason is OperatorHold
            &&& stored.state.result is Running
            &&& source_admitted(stored)
            &&& !production_changed(stored)
        },
        r is Ok ==> block_set(stored, reason, at_ms, r),
{
    lemma_production_changed(stored);
}

/// Want of disk space blocks only running operations that changed nothing yet, whatever their
/// source, and is lifted only of those that it blocks.
pub proof fn law_disk_blocks_hold_what_changed_nothing<S>(
    controller: DurableController<S>,
    attempt_id: Uuid,
    stored: OperationRecord,
    at_ms: i64,
    set: Result<OperationUpdate, StoreError>,
    cleared: Result<OperationUpdate, StoreError>,
)
    requires
        call_ensures(
            DurableController::<S>::set_disk_block,
            (&controller, attempt_id, Some(stored), at_ms),
            set,
        ),
        call_ensures(
            DurableController::<S>::clear_disk_block,
            (&controller, attempt_id, Some(stored), at_ms),
            cleared,
        ),
        stored.stored_fault() is None,
        can_step(stored),
    ensures
        set is Ok <==> stored.state.result is Running && !production_changed(stored),
        set is Ok ==> block_set(stored, BlockingReason::DiskReserve, at_ms, set),
        cleared is Ok <==> stored.state.result is Running && !production_changed(stored)
            && stored.state.blocking_reason is DiskReserve,
        cleared matches Ok(update) ==> {
            &&& update.changed
            &&& one_step(stored, update.operation, at_ms)
            &&& update.operation.state.phase == stored.state.phase
            &&& update.operation.state.result is Running
            &&& update.operation.state.blocking_reason is Unblocked
            &&& update.operation.failure_capsule == stored.failure_capsule
            &&& update.operation.evidence.recovery_mode == stored.evidence.recovery_mode
        },
{
    lemma_production_changed(stored);
}

/// To set the block for disk space and to lift it again leads back to the state before.
pub proof fn law_disk_blocks_are_undone<S>(
    controller: DurableController<S>,
    attempt_id: Uuid,
    stored: OperationRecord,
    at_ms: i64,
    set: OperationUpdate,
    cleared: Result<OperationUpdate, StoreError>,
)
    requires
        call_ensures(
            DurableController::<S>::set_disk_block,
            (&controller, attempt_id, Some(stored), at_ms),
            Ok::<_, StoreError>(set),
        ),
        call_ensures(
            DurableController::<S>::clear_disk_block,
            (&controller, attempt_id, Some(set.operation), at_ms),
            cleared,
        ),
        stored.stored_fault() is None,
        stored.evidence.transitions@.len() + 1 < u32::MAX,
        stored.state.blocking_reason is Unblocked,
    ensures
        cleared matches Ok(update) && update.operation.state == stored.state,
{
    assert(set.changed);
    let steps = stored.evidence.transitions@;
    let more = set.operation.evidence.transitions@;
    if set.operation.has_committed_mutation() {
        let i = choose|i: int|
            0 <= i < set.operation.evidence.transitions@.len() && (
            #[trigger] set.operation.evidence.transitions@[i]).receipt_digest is Some && (
            OperationTransition::ended_phase(
                set.operation.evidence.transitions@,
                i,
            ) matches Some(phase) && !phase.before_mutation());
        assert(i < steps.len());
        assert(more[i] == steps[i]);
        if i > 0 {
            assert(more[i - 1] == steps[i - 1]);
        }
        assert(stored.evidence.transitions@[i].receipt_digest is Some);
        assert(stored.has_committed_mutation());
    }
}

/// A newer source replaces only running deployments that a source was admitted for and that changed
/// nothing yet; what has ended stays as it is.
pub proof fn law_replaced_attempts_changed_nothing<S>(
    controller: DurableController<S>,
    attempt_id: Uuid,
    stored: OperationRecord,
    failure_capsule: FailureCapsule,
    at_ms: i64,
    r: Result<OperationUpdate, StoreError>,
)
    requires
        call_ensures(
            DurableController::<S>::supersede_source_attempt,
            (&controller, attempt_id, Some(stored), failure_capsule, at_ms),
            r,
        ),
        stored.stored_fault() is None,
        can_step(stored),
    ensures
        !(stored.state.result is Running) ==> (r matches Ok(update) && !update.changed
            && update.operation == stored),
        stored.state.result is Running ==> (r is Ok <==> source_admitted(stored)
            && !production_changed(stored)),
        stored.state.result is Running && r is Ok ==> {
            &&& r->Ok_0.changed
            &&& one_step(stored, r->Ok_0.operation, at_ms)
            &&& r->Ok_0.operation.state.phase == stored.state.phase
            &&& r->Ok_0.operation.state.result is Superseded
            &&& r->Ok_0.operation.state.blocking_reason is Unblocked
            &&& r->Ok_0.operation.failure_capsule == Some(failure_capsule)
        },
{
    lemma_production_changed(stored);
}

/// A release with state that stands at its cutover, backed up and drained, waits while its source
/// cannot be asked and goes on once it can; nothing else is held or let go there.
pub proof fn law_cutovers_wait_for_their_source<S>(
    controller: DurableController<S>,
    attempt_id: Uuid,
    stored: OperationRecord,
    at_ms: i64,
    set: Result<OperationUpdate, StoreError>,
    cleared: Result<OperationUpdate, StoreError>,
)
    requires
        call_ensures(
            DurableController::<S>::set_stateful_cutover_source_block,
            (&controller, attempt_id, Some(stored), at_ms),
            set,
        ),
        call_ensures(
            DurableController::<S>::clear_stateful_cutover_source_block,
            (&controller, attempt_id, Some(stored), at_ms),
            cleared,
        ),
        stored.stored_fault() is None,
        can_step(stored),
    ensures
        set is Ok <==> {
            &&& stored.state.result is Running
            &&& stored.state.phase is CutoverSnapshotting
            &&& stored.release_class == Some(ReleaseClass::StatefulCompatible)
                || stored.release_class == Some(ReleaseClass::StatefulBreaking)
            &&& source_admitted(stored)
            &&& receipt_ended(stored, OperationPhase::BackingUp)
            &&& receipt_ended(stored, OperationPhase::Draining)
            &&& stored.state.blocking_reason is Unblocked
                || stored.state.blocking_reason is SourceBrokerUnavailable
        },
        set is Ok <==> cleared is Ok,
        set matches Ok(update) ==> {
            &&& update.changed == (stored.state.blocking_reason is Unblocked)
            &&& update.operation.state.blocking_reason is SourceBrokerUnavailable
            &&& update.operation.state.phase is CutoverSnapshotting
            &&& update.operation.state.result is Running
            &&& if update.changed {
                one_step(stored, update.operation, at_ms)
            } else {
                update.operation == stored
            }
        },
        cleared matches Ok(update) ==> {
            &&& update.changed == (stored.state.blocking_reason is SourceBrokerUnavailable)
            &&& update.operation.state.blocking_reason is Unblocked
            &&& update.operation.state.phase is CutoverSnapshotting
            &&& update.operation.state.result is Running
            &&& if update.changed {
                one_step(stored, update.operation, at_ms)
            } else {
                update.operation == stored
            }
        },
{
    lemma_receipt_ended(stored, OperationPhase::BackingUp);
    lemma_receipt_ended(stored, OperationPhase::Draining);
}

/// A fence is recorded only for the attempt and the project that it was acquired for, while the
/// attempt is at its cutover, and under one epoch and one receipt for good. Nothing else changes.
pub proof fn law_fences_are_recorded_at_the_cutover<S>(
    controller: DurableController<S>,
    attempt_id: Uuid,
    stored: OperationRecord,
    receipt: FenceAcquisitionReceiptV1,
    at_ms: i64,
    r: Result<OperationUpdate, StoreError>,
)
    requires
        call_ensures(
            DurableController::<S>::record_fence_acquisition,
            (&controller, attempt_id, Some(stored), &receipt, at_ms),
            r,
        ),
    ensures
        r is Ok ==> {
            &&& receipt.attempt_id == attempt_id
            &&& receipt.project_id@ == stored.project_id@
            &&& receipt.epoch != 0
            &&& receipt.acquired_at_ms >= 0
            &&& receipt.sealed()
            &&& stored.state.result is Running
            &&& stored.state.phase is CutoverSnapshotting
            &&& stored.evidence.fencing_epoch is Some ==> stored.evidence.fencing_epoch->0
                == receipt.epoch
            &&& stored.evidence.fence_acquisition_receipt_digest is Some ==> (
            stored.evidence.fence_acquisition_receipt_digest->0)@ == receipt.receipt_digest@
        },
        r matches Ok(update) ==> {
            &&& same_attempt(stored, update.operation)
            &&& update.operation.state == stored.state
            &&& update.operation.evidence.fencing_epoch == Some(receipt.epoch)
            &&& update.operation.evidence.fence_acquisition_receipt_digest is Some
            &&& (update.operation.evidence.fence_acquisition_receipt_digest->0)@
                == receipt.receipt_digest@
            &&& update.operation.evidence.transitions == stored.evidence.transitions
            &&& update.operation.evidence.recovery_mode == stored.evidence.recovery_mode
            &&& update.operation.failure_capsule == stored.failure_capsule
            &&& update.changed ==> update.operation.updated_at_ms == at_ms
        },
{
}

/// A receipt is committed only for the phase that a running operation is in, and leads to the phase
/// that stands behind it in the plan: that of the operation, or that of a rollback while the
/// operation rolls back. The last receipt ends the operation.
pub proof fn law_receipts_lead_along_the_plan(
    operation: OperationRecord,
    phase: OperationPhase,
    branch: ExecutorPhaseBranch,
    plan: Result<Vec<OperationPhase>, OperationContractError>,
    r: Result<OperationState, StoreError>,
)
    requires
        call_ensures(
            OperationKind::required_phases,
            (operation.operation_kind, operation.release_class),
            plan,
        ),
        call_ensures(
            OperationRecord::next_state_for_phase_receipt,
            (&operation, phase, branch, false),
            r,
        ),
    ensures
        r is Ok ==> branch is Primary && plan is Ok && plan->Ok_0@.contains(phase),
        r matches Ok(next) ==> next.blocking_reason is Unblocked,
        r matches Ok(next) ==> if phase == plan->Ok_0@.last() {
            &&& next.phase == phase
            &&& if operation.operation_kind is CodeRollback {
                next.result is RolledBack
            } else {
                next.result is Succeeded
            }
        } else {
            &&& next.result is Running
            &&& comes_before(plan->Ok_0@, phase, next.phase)
            &&& forall|between: OperationPhase|
                !(#[trigger] comes_before(plan->Ok_0@, phase, between) && comes_before(
                    plan->Ok_0@,
                    between,
                    next.phase,
                ))
        },
        branch is Primary && plan is Ok && plan->Ok_0@.contains(phase) && !(phase is Preflight
            && operation.operation_kind is CodeRollback) ==> r is Ok,
        branch is RollbackRecovery ==> r == Err::<OperationState, _>(StoreError::ReceiptMismatch),
{
    if plan is Ok {
        crate::domain::operation::law_plans_progress(
            operation.operation_kind,
            operation.release_class,
        );
        lemma_next_place(plan->Ok_0@, phase);
    }
}

pub proof fn lemma_next_place(plan: Seq<OperationPhase>, phase: OperationPhase)
    requires
        plan.len() > 0,
        forall|i: int, j: int| 0 <= i < j < plan.len() ==> plan[i] != plan[j],
    ensures
        ({
            let at = super::transitions::place_of(plan, phase);
            &&& 0 <= at <= plan.len()
            &&& at < plan.len() <==> plan.contains(phase)
            &&& at < plan.len() ==> plan[at] == phase
            &&& at < plan.len() ==> (at + 1 == plan.len() <==> phase == plan.last())
            &&& at + 1 < plan.len() ==> {
                &&& crate::domain::operation::adjacent(plan, phase, plan[at + 1])
                &&& comes_before(plan, phase, plan[at + 1])
                &&& forall|between: OperationPhase|
                    !(#[trigger] comes_before(plan, phase, between) && comes_before(
                        plan,
                        between,
                        plan[at + 1],
                    ))
            }
        }),
{
    lemma_place(plan, phase);
    let at = super::transitions::place_of(plan, phase);
    if at < plan.len() {
        assert(plan.contains(phase)) by {
            assert(plan[at] == phase);
        }
        assert(plan.last() == plan[plan.len() - 1]);
    }
    if at + 1 < plan.len() {
        assert(plan[at] == phase && plan[at + 1] == plan[at + 1]);
        assert forall|between: OperationPhase|
            !(#[trigger] comes_before(plan, phase, between) && comes_before(
                plan,
                between,
                plan[at + 1],
            )) by {
            if comes_before(plan, phase, between) && comes_before(plan, between, plan[at + 1]) {
                let (i, j) = choose|i: int, j: int|
                    0 <= i < j < plan.len() && #[trigger] plan[i] == phase && #[trigger] plan[j]
                        == between;
                let (k, l) = choose|k: int, l: int|
                    0 <= k < l < plan.len() && #[trigger] plan[k] == between && #[trigger] plan[l]
                        == plan[at + 1];
                assert(i == at);
                assert(j == k);
                assert(l == at + 1);
            }
        }
    }
}

proof fn lemma_place(plan: Seq<OperationPhase>, phase: OperationPhase)
    ensures
        0 <= super::transitions::place_of(plan, phase) <= plan.len(),
        super::transitions::place_of(plan, phase) < plan.len() ==> plan[super::transitions::place_of(
            plan,
            phase,
        )] == phase,
        plan.contains(phase) ==> super::transitions::place_of(plan, phase) < plan.len(),
    decreases plan.len(),
{
    if plan.len() > 0 && plan[0] != phase {
        lemma_place(plan.drop_first(), phase);
        if plan.contains(phase) {
            let i = choose|i: int| 0 <= i < plan.len() && plan[i] == phase;
            assert(plan.drop_first()[i - 1] == phase);
        }
    }
}

/// While an operation rolls back, the rollback leads to the check of its health, that to the soak,
/// and that to the end: the operation is rolled back. No other phase has a receipt there.
pub proof fn law_rollbacks_are_checked_and_soaked(
    operation: OperationRecord,
    phase: OperationPhase,
    branch: ExecutorPhaseBranch,
    r: Result<OperationState, StoreError>,
)
    requires
        call_ensures(
            OperationRecord::next_state_for_phase_receipt,
            (&operation, phase, branch, true),
            r,
        ),
    ensures
        r is Ok <==> branch is RollbackRecovery && (phase is Rollback || phase is HealthChecking
            || phase is Soaking),
        r matches Ok(next) ==> next.blocking_reason is Unblocked,
        r is Ok && phase is Rollback ==> r->Ok_0.phase is HealthChecking && r->Ok_0.result is Running,
        r is Ok && phase is HealthChecking ==> r->Ok_0.phase is Soaking && r->Ok_0.result is Running,
        r is Ok && phase is Soaking ==> r->Ok_0.phase is Soaking && r->Ok_0.result is RolledBack,
{
    let plan = super::transitions::rollback_phases();
    assert forall|i: int, j: int| 0 <= i < j < plan.len() implies plan[i] != plan[j] by {}
    lemma_next_place(plan, phase);
    if phase is Rollback {
        assert(plan[0] == phase);
    } else if phase is HealthChecking {
        assert(plan[1] == phase);
    } else if phase is Soaking {
        assert(plan[2] == phase);
    }
}

/// A receipt that is committed was sealed, was for the phase that the running operation is in, and
/// takes the operation one step on, which the history tells with the receipt. To commit it again
/// changes nothing.
pub proof fn law_commits_are_of_the_present_phase<S>(
    controller: DurableController<S>,
    stored: Option<OperationRecord>,
    receipt: PhaseReceipt,
    at_ms: i64,
    r: Result<OperationUpdate, StoreError>,
)
    requires
        call_ensures(
            DurableController::<S>::commit_phase_receipt,
            (&controller, stored, &receipt, at_ms),
            r,
        ),
    ensures
        r is Ok ==> stored is Some && receipt.sealed(),
        r matches Ok(update) ==> (update.changed ==> {
            let before = stored->0;
            let after = update.operation;
            let steps = after.evidence.transitions@;
            &&& before.state.result is Running
            &&& before.state.phase == receipt.phase
            &&& (receipt.branch is RollbackRecovery) == (before.evidence.recovery_mode == Some(
                OperationRecoveryMode::Rollback,
            ))
            &&& same_attempt(before, after)
            &&& after.failure_capsule == before.failure_capsule
            &&& after.updated_at_ms == at_ms
            &&& steps.len() == before.evidence.transitions@.len() + 1
            &&& forall|i: int|
                0 <= i < before.evidence.transitions@.len() ==> #[trigger] steps[i]
                    == before.evidence.transitions@[i]
            &&& steps.last().from == before.state
            &&& steps.last().to == after.state
            &&& steps.last().receipt_digest == Some(receipt.receipt_digest)
            &&& after.state.blocking_reason is Unblocked
            &&& after.state.phase != before.state.phase || !(after.state.result is Running)
        }),
        r matches Ok(update) ==> (!update.changed ==> stored == Some(update.operation)),
{
    if stored is Some && r is Ok && r->Ok_0.changed {
        let before = stored->0;
        let rolling = before.rolling_back();
        match before.followed_plan(rolling) {
            Some(plan) => {
                if !rolling {
                    crate::domain::operation::law_plans_progress(
                        before.operation_kind,
                        before.release_class,
                    );
                }
                assert forall|i: int, j: int| 0 <= i < j < plan.len() implies plan[i] != plan[j] by {}
                lemma_next_place(plan, receipt.phase);
            },
            None => {},
        }
    }
}

/// A phase that was left for reconciliation is committed only for the operation that waits there,
/// and as the phase that it was left from; then the operation is where that phase leads, neither
/// failing nor recovering any more.
pub proof fn law_reconciled_phases_go_on<S>(
    controller: DurableController<S>,
    stored: Option<OperationRecord>,
    receipt: PhaseReceipt,
    at_ms: i64,
    r: Result<OperationUpdate, StoreError>,
)
    requires
        call_ensures(
            DurableController::<S>::commit_reconciled_phase_receipt,
            (&controller, stored, &receipt, at_ms),
            r,
        ),
    ensures
        r is Ok ==> stored is Some && receipt.sealed(),
        r matches Ok(update) ==> (update.changed ==> {
            let before = stored->0;
            let after = update.operation;
            let steps = before.evidence.transitions@;
            &&& before.state.result is Running
            &&& before.state.phase is Reconciliation
            &&& before.evidence.recovery_mode == Some(OperationRecoveryMode::Reconciliation)
            &&& receipt.branch is Primary
            &&& steps.len() > 0
            &&& steps.last().from.phase == receipt.phase
            &&& steps.last().to.phase is Reconciliation
            &&& steps.last().receipt_digest is None
            &&& same_attempt(before, after)
            &&& after.failure_capsule is None
            &&& after.evidence.recovery_mode is None
            &&& after.state.blocking_reason is Unblocked
            &&& after.evidence.transitions@.len() == steps.len() + 1
            &&& after.evidence.transitions@.last().to == after.state
            &&& after.evidence.transitions@.last().from == before.state
            &&& after.evidence.transitions@.last().receipt_digest == Some(receipt.receipt_digest)
            &&& call_ensures(
                OperationRecord::next_state_for_phase_receipt,
                (&before, receipt.phase, receipt.branch, false),
                Ok::<_, StoreError>(after.state),
            ) || before.state_after(receipt.phase, receipt.branch, false) == Ok::<_, StoreError>(
                after.state,
            )
        }),
        r matches Ok(update) ==> (!update.changed ==> stored == Some(update.operation)),
{
}

/// The lease of a user is always held by the tab that took it over last: its generation is one above
/// that of the lease before, or one.
pub proof fn law_each_takeover_is_newer<S>(
    controller: DurableController<S>,
    user_id: Uuid,
    lease_id: Uuid,
    acquired_at_ms: i64,
    expires_at_ms: i64,
    previous: Option<i64>,
    r: Result<TabLease, StoreError>,
)
    requires
        call_ensures(
            DurableController::<S>::takeover_lease,
            (&controller, user_id, lease_id, acquired_at_ms, expires_at_ms, previous),
            r,
        ),
    ensures
        r matches Ok(lease) ==> {
            &&& lease.user_id == user_id
            &&& lease.lease_id == lease_id
            &&& lease.acquired_at_ms == acquired_at_ms
            &&& lease.expires_at_ms == expires_at_ms
            &&& acquired_at_ms < expires_at_ms
            &&& previous is None ==> lease.generation == 1
            &&& previous is Some ==> lease.generation == previous->0 + 1 && previous->0 >= 0
        },
        !user_id.nil() && !lease_id.nil() && acquired_at_ms < expires_at_ms && (previous is None || 0
            <= previous->0 < i64::MAX) ==> r is Ok,
        user_id.nil() || lease_id.nil() ==> r is Err,
{
}

/// A lease that a tab claims holds only while it is stored and has not ended.
pub proof fn law_leases_end<S>(
    controller: DurableController<S>,
    lease: TabLeaseClaim,
    stored: Option<i64>,
    now_ms: i64,
    r: Result<(), StoreError>,
)
    requires
        call_ensures(
            DurableController::<S>::validate_tab_lease,
            (&controller, &lease, stored, now_ms),
            r,
        ),
    ensures
        r is Ok <==> {
            &&& !lease.user_id.nil() && !lease.lease_id.nil()
            &&& 0 < lease.generation <= i64::MAX
            &&& now_ms >= 0
            &&& stored is Some && now_ms < stored->0
        },
        !lease.user_id.nil() && !lease.lease_id.nil() && 0 < lease.generation <= i64::MAX && now_ms
            >= 0 ==> {
            &&& stored is None ==> r == Err::<(), _>(StoreError::LeaseRevoked)
            &&& stored is Some && now_ms >= stored->0 ==> r == Err::<(), _>(
                StoreError::LeaseExpired,
            )
        },
{
}

/// What has to hold for a user to start an operation: a lease that is theirs and has not ended, and
/// a grant that is theirs, has not ended, and is for this project, this kind and this commit.
pub open spec fn may_start(
    operation: NewOperation,
    lease: TabLeaseClaim,
    grant: ActionGrantClaims,
    rows: InteractiveRows,
    at_ms: i64,
) -> bool {
    &&& !lease.user_id.nil() && !lease.lease_id.nil() && !grant.nonce.nil()
    &&& 0 < lease.generation <= i64::MAX
    &&& rows.lease_expires_at_ms is Some && at_ms < rows.lease_expires_at_ms->0
    &&& at_ms < grant.expires_at_ms
    &&& grant.user_id == lease.user_id
    &&& grant.project_id@ == operation.project_id@
    &&& grant.operation_kind == operation.operation_kind
    &&& (grant.target_commit is Some) == (operation.target_commit is Some)
    &&& grant.target_commit is Some ==> (grant.target_commit->0)@ == (operation.target_commit->0)@
    &&& operation.installed_policy.version > 0
}

/// A new attempt at an operation stands in the queue, running and unblocked, as what was asked for
/// by whom; nothing is known of it yet but what it was admitted by.
pub open spec fn fresh_attempt(
    record: OperationRecord,
    operation: NewOperation,
    fresh: FreshIdentities,
    at_ms: i64,
) -> bool {
    &&& record.operation_id == fresh.operation_id
    &&& record.attempt_id == fresh.attempt_id
    &&& record.project_id == operation.project_id
    &&& record.operation_kind == operation.operation_kind
    &&& record.target_commit == operation.target_commit
    &&& record.release_class == operation.release_class
    &&& record.state.phase is Queued
    &&& record.state.result is Running
    &&& record.state.blocking_reason is Unblocked
    &&& record.failure_capsule is None
    &&& record.created_at_ms == at_ms
    &&& record.updated_at_ms == at_ms
    &&& record.evidence.installed_policy == Some(operation.installed_policy)
    &&& record.evidence.transitions@.len() == 0
    &&& record.evidence.recovery_mode is None
    &&& record.evidence.fencing_epoch is None
    &&& record.evidence.image_digest is None
    &&& record.evidence.authorized_phase_spec_digests@.len() == 0
}

/// What keeps a request from a new attempt, by the latest there is: it needs recovery.
pub open spec fn needs_recovery(latest: OperationRecord) -> bool {
    latest.state.result is ManualRecoveryRequired || latest.state.result is RollbackFailed
}

/// Users start operations other than deployments: only with a lease and a grant for just that. A
/// grant is used once, a failed or cancelled request is tried again only with a grant for that, and
/// one that runs or went well is not started again.
pub proof fn law_users_start_what_they_were_granted<S>(
    controller: DurableController<S>,
    operation: NewOperation,
    lease: TabLeaseClaim,
    grant: ActionGrantClaims,
    rows: InteractiveRows,
    fresh: FreshIdentities,
    at_ms: i64,
    r: Result<AdmissionOutcome, StoreError>,
)
    requires
        call_ensures(
            DurableController::<S>::admit_interactive,
            (&controller, &operation, &lease, &grant, rows, fresh, at_ms),
            r,
        ),
    ensures
        r is Ok ==> !(operation.operation_kind is Deploy) && may_start(
            operation,
            lease,
            grant,
            rows,
            at_ms,
        ),
        r matches Ok(AdmissionOutcome::Created(record)) ==> {
            &&& rows.used_grant is None
            &&& fresh_attempt(record, operation, fresh, at_ms)
            &&& record.actor == OperationActor::Interactive { user_id: lease.user_id }
            &&& record.evidence.action_grant_digest == Some(grant.digest)
            &&& record.evidence.source_sequence is None
            &&& rows.request_id is None ==> record.request_id == fresh.request_id
            &&& rows.latest is None ==> record.attempt_number == 1 && grant.retry_request_id is None
            &&& rows.latest is Some ==> {
                &&& record.attempt_number == rows.latest->0.attempt_number + 1
                &&& rows.latest->0.state.result is Failed || rows.latest->0.state.result is Cancelled
                &&& grant.retry_request_id == Some(record.request_id)
            }
        },
        r matches Ok(AdmissionOutcome::Existing(record)) ==> if rows.used_grant is Some {
            &&& record == rows.used_grant->0.operation
            &&& rows.used_grant->0.grant_digest@ == grant.digest@
        } else {
            &&& rows.latest == Some(record)
            &&& !needs_recovery(record)
            &&& !(record.state.result is Failed) && !(record.state.result is Cancelled)
        },
{
}

/// Users deploy only the head that their source was attested for; a source that is older than the
/// latest attempt's deploys nothing, and a newer one starts anew without a grant to retry.
pub proof fn law_users_deploy_attested_heads<S>(
    controller: DurableController<S>,
    admission: VerifiedInteractiveDeployAdmission,
    lease: TabLeaseClaim,
    grant: ActionGrantClaims,
    rows: InteractiveRows,
    fresh: FreshIdentities,
    at_ms: i64,
    r: Result<AdmissionOutcome, StoreError>,
)
    requires
        call_ensures(
            DurableController::<S>::admit_verified_interactive_deploy,
            (&controller, &admission, &lease, &grant, rows, fresh, at_ms),
            r,
        ),
    ensures
        r is Ok ==> {
            &&& admission.operation.operation_kind is Deploy
            &&& admission.operation.target_commit is Some
            &&& (admission.operation.target_commit->0)@ == admission.accepted_head@
            &&& admission.accepted_sequence > 0
            &&& may_start(admission.operation, lease, grant, rows, at_ms)
        },
        r matches Ok(AdmissionOutcome::Created(record)) ==> {
            &&& rows.used_grant is None
            &&& fresh_attempt(record, admission.operation, fresh, at_ms)
            &&& record.actor == OperationActor::Interactive { user_id: lease.user_id }
            &&& record.evidence.action_grant_digest == Some(grant.digest)
            &&& record.evidence.source_sequence == Some(admission.accepted_sequence)
            &&& record.evidence.source_attestation_digest == Some(
                admission.source_attestation_digest,
            )
            &&& rows.latest is None ==> record.attempt_number == 1 && grant.retry_request_id is None
            &&& rows.latest is Some ==> {
                let latest = rows.latest->0;
                &&& record.attempt_number == latest.attempt_number + 1
                &&& !needs_recovery(latest)
                &&& latest.evidence.source_sequence is Some ==> latest.evidence.source_sequence->0
                    <= admission.accepted_sequence
                &&& latest.evidence.source_sequence == Some(admission.accepted_sequence) ==> (
                latest.state.result is Failed || latest.state.result is Cancelled)
                    && grant.retry_request_id == Some(record.request_id)
                &&& latest.evidence.source_sequence != Some(admission.accepted_sequence)
                    ==> grant.retry_request_id is None
            }
        },
{
}

/// A source deploys its head by itself: once for each delivery, again after a failure or a
/// cancellation as often as it may, and anew with a newer sequence, but never with an older one nor
/// where an operator has to recover first.
pub proof fn law_sources_deploy_their_heads<S>(
    controller: DurableController<S>,
    admission: VerifiedAutomationAdmission,
    rows: AutomationRows,
    fresh: FreshIdentities,
    at_ms: i64,
    r: Result<AdmissionOutcome, StoreError>,
)
    requires
        call_ensures(
            DurableController::<S>::admit_automation,
            (&controller, &admission, rows, fresh, at_ms),
            r,
        ),
    ensures
        r is Ok ==> {
            &&& admission.operation.operation_kind is Deploy
            &&& admission.operation.target_commit is Some
            &&& (admission.operation.target_commit->0)@ == admission.accepted_head@
            &&& admission.accepted_sequence > 0
            &&& admission.maximum_attempts > 0
            &&& admission.operation.installed_policy.version > 0
        },
        r matches Ok(AdmissionOutcome::Created(record)) ==> {
            &&& rows.delivery is None
            &&& fresh_attempt(record, admission.operation, fresh, at_ms)
            &&& record.actor is Automation
            &&& record.evidence.action_grant_digest is None
            &&& record.evidence.source_sequence == Some(admission.accepted_sequence)
            &&& record.evidence.source_attestation_digest == Some(
                admission.source_attestation_digest,
            )
            &&& rows.latest is None ==> record.attempt_number == 1
            &&& rows.latest is Some ==> {
                let latest = rows.latest->0;
                &&& record.attempt_number == latest.attempt_number + 1
                &&& !needs_recovery(latest)
                &&& latest.evidence.source_sequence is Some
                &&& latest.evidence.source_sequence->0 <= admission.accepted_sequence
                &&& latest.evidence.source_sequence->0 == admission.accepted_sequence ==> (
                latest.state.result is Failed || latest.state.result is Cancelled)
            }
        },
        r matches Ok(AdmissionOutcome::Existing(record)) ==> if rows.delivery is Some {
            &&& rows.delivery->0.latest == Some(record)
            &&& rows.delivery->0.payload_digest@ == admission.payload_digest@
        } else {
            &&& rows.latest == Some(record)
            &&& record.evidence.source_sequence == Some(admission.accepted_sequence)
            &&& !needs_recovery(record)
            &&& !(record.state.result is Failed) && !(record.state.result is Cancelled)
        },
{
}

/// A source that was tried as often as it may is not tried again, counted over the attempts that
/// there are.
pub proof fn law_sources_are_tried_only_so_often<S>(
    controller: DurableController<S>,
    admission: VerifiedAutomationAdmission,
    rows: AutomationRows,
    fresh: FreshIdentities,
    at_ms: i64,
    record: OperationRecord,
)
    requires
        call_ensures(
            DurableController::<S>::admit_automation,
            (&controller, &admission, rows, fresh, at_ms),
            Ok::<_, StoreError>(AdmissionOutcome::Created(record)),
        ),
        rows.latest is Some,
        rows.latest->0.evidence.source_sequence == Some(admission.accepted_sequence),
    ensures
        rows.attempts@.filter(
            |attempt: OperationRecord|
                attempt.evidence.source_sequence == Some(admission.accepted_sequence),
        ).len() < admission.maximum_attempts,
{
    lemma_attempts_counted(rows.attempts@, admission.accepted_sequence);
}

proof fn lemma_attempts_counted(attempts: Seq<OperationRecord>, sequence: u64)
    ensures
        super::admission::attempts_of_sequence(attempts, sequence) matches Ok(count) ==> count
            == attempts.filter(
            |attempt: OperationRecord| attempt.evidence.source_sequence == Some(sequence),
        ).len(),
    decreases attempts.len(),
{
    reveal(Seq::filter);
    if attempts.len() > 0 {
        lemma_attempts_counted(attempts.drop_last(), sequence);
    }
}

/// Each piece of evidence is kept under its own name: what comes in stands where nothing was known,
/// and what was known stays and is not contradicted.
pub proof fn law_evidence_is_kept_under_its_name(
    evidence: OperationEvidence,
    artifacts: PhaseArtifacts,
    phase: OperationPhase,
    branch: ExecutorPhaseBranch,
    is_rollback_recovery: bool,
    r: Result<OperationEvidence, StoreError>,
)
    requires
        call_ensures(
            merge_artifacts,
            (evidence, &artifacts, phase, branch, is_rollback_recovery),
            r,
        ),
    ensures
        r matches Ok(after) ==> {
            &&& evidence.source_gate_proof_digest is None ==> after.source_gate_proof_digest == artifacts.source_gate_proof_digest
            &&& evidence.source_gate_proof_digest is Some && artifacts.source_gate_proof_digest is Some ==> (evidence.source_gate_proof_digest->0)@ == (artifacts.source_gate_proof_digest->0)@
            &&& evidence.source_gate_proof_digest is Some ==> after.source_gate_proof_digest == evidence.source_gate_proof_digest
            &&& evidence.drain_evidence_digest is None ==> after.drain_evidence_digest == artifacts.drain_evidence_digest
            &&& evidence.drain_evidence_digest is Some && artifacts.drain_evidence_digest is Some ==> (evidence.drain_evidence_digest->0)@ == (artifacts.drain_evidence_digest->0)@
            &&& evidence.drain_evidence_digest is Some ==> after.drain_evidence_digest == evidence.drain_evidence_digest
            &&& evidence.source_export_digest is None ==> after.source_export_digest == artifacts.source_export_digest
            &&& evidence.source_export_digest is Some && artifacts.source_export_digest is Some ==> (evidence.source_export_digest->0)@ == (artifacts.source_export_digest->0)@
            &&& evidence.source_export_digest is Some ==> after.source_export_digest == evidence.source_export_digest
            &&& evidence.prefetch_evidence_digest is None ==> after.prefetch_evidence_digest == artifacts.prefetch_evidence_digest
            &&& evidence.prefetch_evidence_digest is Some && artifacts.prefetch_evidence_digest is Some ==> (evidence.prefetch_evidence_digest->0)@ == (artifacts.prefetch_evidence_digest->0)@
            &&& evidence.prefetch_evidence_digest is Some ==> after.prefetch_evidence_digest == evidence.prefetch_evidence_digest
            &&& evidence.ci_evidence_digest is None ==> after.ci_evidence_digest == artifacts.ci_evidence_digest
            &&& evidence.ci_evidence_digest is Some && artifacts.ci_evidence_digest is Some ==> (evidence.ci_evidence_digest->0)@ == (artifacts.ci_evidence_digest->0)@
            &&& evidence.ci_evidence_digest is Some ==> after.ci_evidence_digest == evidence.ci_evidence_digest
            &&& evidence.build_plan_digest is None ==> after.build_plan_digest == artifacts.build_plan_digest
            &&& evidence.build_plan_digest is Some && artifacts.build_plan_digest is Some ==> (evidence.build_plan_digest->0)@ == (artifacts.build_plan_digest->0)@
            &&& evidence.build_plan_digest is Some ==> after.build_plan_digest == evidence.build_plan_digest
            &&& evidence.deployment_plan_digest is None ==> after.deployment_plan_digest == artifacts.deployment_plan_digest
            &&& evidence.deployment_plan_digest is Some && artifacts.deployment_plan_digest is Some ==> (evidence.deployment_plan_digest->0)@ == (artifacts.deployment_plan_digest->0)@
            &&& evidence.deployment_plan_digest is Some ==> after.deployment_plan_digest == evidence.deployment_plan_digest
            &&& evidence.release_bundle_digest is None ==> after.release_bundle_digest == artifacts.release_bundle_digest
            &&& evidence.release_bundle_digest is Some && artifacts.release_bundle_digest is Some ==> (evidence.release_bundle_digest->0)@ == (artifacts.release_bundle_digest->0)@
            &&& evidence.release_bundle_digest is Some ==> after.release_bundle_digest == evidence.release_bundle_digest
            &&& evidence.resource_reservation_digest is None ==> after.resource_reservation_digest == artifacts.resource_reservation_digest
            &&& evidence.resource_reservation_digest is Some && artifacts.resource_reservation_digest is Some ==> (evidence.resource_reservation_digest->0)@ == (artifacts.resource_reservation_digest->0)@
            &&& evidence.resource_reservation_digest is Some ==> after.resource_reservation_digest == evidence.resource_reservation_digest
            &&& evidence.build_context_digest is None ==> after.build_context_digest == artifacts.build_context_digest
            &&& evidence.build_context_digest is Some && artifacts.build_context_digest is Some ==> (evidence.build_context_digest->0)@ == (artifacts.build_context_digest->0)@
            &&& evidence.build_context_digest is Some ==> after.build_context_digest == evidence.build_context_digest
            &&& evidence.image_digest is None ==> after.image_digest == artifacts.image_digest
            &&& evidence.image_digest is Some && artifacts.image_digest is Some ==> (evidence.image_digest->0)@ == (artifacts.image_digest->0)@
            &&& evidence.image_digest is Some ==> after.image_digest == evidence.image_digest
            &&& evidence.image_id_digest is None ==> after.image_id_digest == artifacts.image_id_digest
            &&& evidence.image_id_digest is Some && artifacts.image_id_digest is Some ==> (evidence.image_id_digest->0)@ == (artifacts.image_id_digest->0)@
            &&& evidence.image_id_digest is Some ==> after.image_id_digest == evidence.image_id_digest
            &&& evidence.schema_version is None ==> after.schema_version == artifacts.schema_version
            &&& evidence.schema_version is Some && artifacts.schema_version is Some ==> (evidence.schema_version->0)@ == (artifacts.schema_version->0)@
            &&& evidence.schema_version is Some ==> after.schema_version == evidence.schema_version
            &&& evidence.backup_id is None ==> after.backup_id == artifacts.backup_id
            &&& evidence.backup_id is Some && artifacts.backup_id is Some ==> evidence.backup_id == artifacts.backup_id
            &&& evidence.backup_id is Some ==> after.backup_id == evidence.backup_id
            &&& evidence.backup_set_id is None ==> after.backup_set_id == artifacts.backup_set_id
            &&& evidence.backup_set_id is Some && artifacts.backup_set_id is Some ==> evidence.backup_set_id == artifacts.backup_set_id
            &&& evidence.backup_set_id is Some ==> after.backup_set_id == evidence.backup_set_id
            &&& evidence.base_backup_id is None ==> after.base_backup_id == artifacts.base_backup_id
            &&& evidence.base_backup_id is Some && artifacts.base_backup_id is Some ==> evidence.base_backup_id == artifacts.base_backup_id
            &&& evidence.base_backup_id is Some ==> after.base_backup_id == evidence.base_backup_id
            &&& evidence.base_backup_manifest_digest is None ==> after.base_backup_manifest_digest == artifacts.base_backup_manifest_digest
            &&& evidence.base_backup_manifest_digest is Some && artifacts.base_backup_manifest_digest is Some ==> (evidence.base_backup_manifest_digest->0)@ == (artifacts.base_backup_manifest_digest->0)@
            &&& evidence.base_backup_manifest_digest is Some ==> after.base_backup_manifest_digest == evidence.base_backup_manifest_digest
            &&& evidence.base_backup_evidence_digest is None ==> after.base_backup_evidence_digest == artifacts.base_backup_evidence_digest
            &&& evidence.base_backup_evidence_digest is Some && artifacts.base_backup_evidence_digest is Some ==> (evidence.base_backup_evidence_digest->0)@ == (artifacts.base_backup_evidence_digest->0)@
            &&& evidence.base_backup_evidence_digest is Some ==> after.base_backup_evidence_digest == evidence.base_backup_evidence_digest
            &&& evidence.base_backup_offsite_evidence_digest is None ==> after.base_backup_offsite_evidence_digest == artifacts.base_backup_offsite_evidence_digest
            &&& evidence.base_backup_offsite_evidence_digest is Some && artifacts.base_backup_offsite_evidence_digest is Some ==> (evidence.base_backup_offsite_evidence_digest->0)@ == (artifacts.base_backup_offsite_evidence_digest->0)@
            &&& evidence.base_backup_offsite_evidence_digest is Some ==> after.base_backup_offsite_evidence_digest == evidence.base_backup_offsite_evidence_digest
            &&& evidence.base_backup_verification_digest is None ==> after.base_backup_verification_digest == artifacts.base_backup_verification_digest
            &&& evidence.base_backup_verification_digest is Some && artifacts.base_backup_verification_digest is Some ==> (evidence.base_backup_verification_digest->0)@ == (artifacts.base_backup_verification_digest->0)@
            &&& evidence.base_backup_verification_digest is Some ==> after.base_backup_verification_digest == evidence.base_backup_verification_digest
            &&& evidence.cutover_backup_id is None ==> after.cutover_backup_id == artifacts.cutover_backup_id
            &&& evidence.cutover_backup_id is Some && artifacts.cutover_backup_id is Some ==> evidence.cutover_backup_id == artifacts.cutover_backup_id
            &&& evidence.cutover_backup_id is Some ==> after.cutover_backup_id == evidence.cutover_backup_id
            &&& evidence.cutover_backup_manifest_digest is None ==> after.cutover_backup_manifest_digest == artifacts.cutover_backup_manifest_digest
            &&& evidence.cutover_backup_manifest_digest is Some && artifacts.cutover_backup_manifest_digest is Some ==> (evidence.cutover_backup_manifest_digest->0)@ == (artifacts.cutover_backup_manifest_digest->0)@
            &&& evidence.cutover_backup_manifest_digest is Some ==> after.cutover_backup_manifest_digest == evidence.cutover_backup_manifest_digest
            &&& evidence.cutover_backup_evidence_digest is None ==> after.cutover_backup_evidence_digest == artifacts.cutover_backup_evidence_digest
            &&& evidence.cutover_backup_evidence_digest is Some && artifacts.cutover_backup_evidence_digest is Some ==> (evidence.cutover_backup_evidence_digest->0)@ == (artifacts.cutover_backup_evidence_digest->0)@
            &&& evidence.cutover_backup_evidence_digest is Some ==> after.cutover_backup_evidence_digest == evidence.cutover_backup_evidence_digest
            &&& evidence.cutover_backup_verification_digest is None ==> after.cutover_backup_verification_digest == artifacts.cutover_backup_verification_digest
            &&& evidence.cutover_backup_verification_digest is Some && artifacts.cutover_backup_verification_digest is Some ==> (evidence.cutover_backup_verification_digest->0)@ == (artifacts.cutover_backup_verification_digest->0)@
            &&& evidence.cutover_backup_verification_digest is Some ==> after.cutover_backup_verification_digest == evidence.cutover_backup_verification_digest
            &&& evidence.previous_release_bundle_digest is None ==> after.previous_release_bundle_digest == artifacts.previous_release_bundle_digest
            &&& evidence.previous_release_bundle_digest is Some && artifacts.previous_release_bundle_digest is Some ==> (evidence.previous_release_bundle_digest->0)@ == (artifacts.previous_release_bundle_digest->0)@
            &&& evidence.previous_release_bundle_digest is Some ==> after.previous_release_bundle_digest == evidence.previous_release_bundle_digest
            &&& evidence.fencing_epoch is None ==> after.fencing_epoch == artifacts.fencing_epoch
            &&& evidence.fencing_epoch is Some && artifacts.fencing_epoch is Some ==> evidence.fencing_epoch == artifacts.fencing_epoch
            &&& evidence.fencing_epoch is Some ==> after.fencing_epoch == evidence.fencing_epoch
            &&& evidence.generated_output_digests@.len() == 0 ==> after.generated_output_digests@ == artifacts.generated_output_digests@
            &&& evidence.generated_output_digests@.len() > 0 ==> after.generated_output_digests@ == evidence.generated_output_digests@
            &&& evidence.generated_output_digests@.len() > 0 && artifacts.generated_output_digests@.len() > 0 ==> digest_texts(evidence.generated_output_digests@) == digest_texts(artifacts.generated_output_digests@)
            &&& evidence.base_image_digests@.len() == 0 ==> after.base_image_digests@ == artifacts.base_image_digests@
            &&& evidence.base_image_digests@.len() > 0 ==> after.base_image_digests@ == evidence.base_image_digests@
            &&& evidence.base_image_digests@.len() > 0 && artifacts.base_image_digests@.len() > 0 ==> digest_texts(evidence.base_image_digests@) == digest_texts(artifacts.base_image_digests@)
        },
{
}

/// The health that is told while an operation goes forth is that of its release, and the health that
/// is told while it goes back that of the release before. The soak has the last word.
pub proof fn law_health_is_told_of_the_right_release(
    evidence: OperationEvidence,
    artifacts: PhaseArtifacts,
    phase: OperationPhase,
    branch: ExecutorPhaseBranch,
    is_rollback_recovery: bool,
    after: OperationEvidence,
)
    requires
        call_ensures(
            merge_artifacts,
            (evidence, &artifacts, phase, branch, is_rollback_recovery),
            Ok::<_, StoreError>(after),
        ),
        artifacts.health_evidence_digest is Some,
    ensures
        is_rollback_recovery ==> after.health_evidence_digest == evidence.health_evidence_digest,
        !is_rollback_recovery ==> after.rollback_health_evidence_digest
            == evidence.rollback_health_evidence_digest,
        is_rollback_recovery && (phase is Soaking || evidence.rollback_health_evidence_digest is None)
            ==> after.rollback_health_evidence_digest == artifacts.health_evidence_digest,
        !is_rollback_recovery && (phase is Soaking || evidence.health_evidence_digest is None)
            ==> after.health_evidence_digest == artifacts.health_evidence_digest,
{
}

/// What a phase was authorized to do is kept for that phase and that branch, once for all.
pub proof fn law_authorizations_are_kept_for_their_phase(
    evidence: OperationEvidence,
    artifacts: PhaseArtifacts,
    phase: OperationPhase,
    branch: ExecutorPhaseBranch,
    is_rollback_recovery: bool,
    after: OperationEvidence,
)
    requires
        call_ensures(
            merge_artifacts,
            (evidence, &artifacts, phase, branch, is_rollback_recovery),
            Ok::<_, StoreError>(after),
        ),
    ensures
        ({
            let history = evidence.authorized_phase_spec_digests@;
            let grown = after.authorized_phase_spec_digests@;
            &&& artifacts.authorized_phase_spec_digest is None ==> grown == history
            &&& history.is_prefix_of(grown)
            &&& grown.len() <= history.len() + 1
            &&& grown.len() == history.len() + 1 ==> {
                &&& grown.last().phase == phase
                &&& grown.last().branch == branch
                &&& artifacts.authorized_phase_spec_digest == Some(grown.last().spec_digest)
            }
        }),
{
}

/// A grant stands for an operation only if it is of the user of the tab, for the project, the kind and
/// the commit that are asked for, and has not run out; an expired one is told as expired, whatever it is
/// for.
pub proof fn law_grants_stand_for_what_they_name(
    operation: NewOperation,
    lease: TabLeaseClaim,
    grant: ActionGrantClaims,
    at_ms: i64,
    r: Result<(), StoreError>,
)
    requires
        call_ensures(validate_grant_binding, (&operation, &lease, &grant, at_ms), r),
    ensures
        r is Ok ==> {
            &&& grant.user_id == lease.user_id
            &&& grant.project_id@ == operation.project_id@
            &&& grant.operation_kind == operation.operation_kind
            &&& grant.target_commit is Some <==> operation.target_commit is Some
            &&& grant.target_commit is Some ==> (grant.target_commit->0)@ == (
            operation.target_commit->0)@
            &&& at_ms < grant.expires_at_ms
            &&& !lease.user_id.nil() && !lease.lease_id.nil() && lease.generation > 0
                && !grant.nonce.nil()
        },
        r is Ok || r == Err::<(), _>(StoreError::GrantBindingMismatch) ==> at_ms
            < grant.expires_at_ms,
        r == Err::<(), _>(StoreError::GrantExpired) ==> at_ms >= grant.expires_at_ms,
{
}

/// A tab may act only under a lease that is there and has not run out.
pub proof fn law_tabs_act_under_present_leases(
    lease: TabLeaseClaim,
    expires_at_ms: Option<i64>,
    at_ms: i64,
    r: Result<(), StoreError>,
)
    requires
        call_ensures(validate_current_lease, (&lease, expires_at_ms, at_ms), r),
        lease.generation <= i64::MAX,
    ensures
        r is Ok <==> expires_at_ms is Some && at_ms < expires_at_ms->0,
        r == Err::<(), _>(StoreError::LeaseRevoked) <==> expires_at_ms is None,
        r == Err::<(), _>(StoreError::LeaseExpired) <==> expires_at_ms is Some && at_ms
            >= expires_at_ms->0,
{
}

/// What is asked for names a commit unless it is a backup, and a class of release that goes with it;
/// and it is asked under an installed policy of some version.
pub proof fn law_requests_go_with_their_kind(operation: NewOperation, r: Result<(), StoreError>)
    requires
        call_ensures(NewOperation::validate_operation, (&operation,), r),
    ensures
        r is Ok ==> {
            &&& operation.target_commit is None <==> operation.operation_kind is BackupOnly
            &&& operation.release_class is None <==> operation.operation_kind is BackupOnly
            &&& operation.release_class == Some(ReleaseClass::Rollback)
                <==> operation.operation_kind is CodeRollback
            &&& operation.installed_policy.version > 0
        },
        operation.operation_kind is Deploy && operation.target_commit is Some
            && operation.release_class is Some && operation.release_class != Some(
            ReleaseClass::Rollback,
        ) && operation.installed_policy.version > 0 ==> r is Ok,
{
}

/// A source asks only for deployments of the head that was accepted from it, with a sequence, and with
/// some number of attempts, under the name of a delivery.
pub proof fn law_sources_ask_for_their_accepted_head(
    admission: VerifiedAutomationAdmission,
    r: Result<(), StoreError>,
)
    requires
        call_ensures(VerifiedAutomationAdmission::validate_automation, (&admission,), r),
    ensures
        r is Ok ==> {
            &&& admission.operation.operation_kind is Deploy
            &&& admission.operation.target_commit is Some
            &&& (admission.operation.target_commit->0)@ == admission.accepted_head@
            &&& admission.accepted_sequence > 0
            &&& admission.maximum_attempts > 0
            &&& admission.delivery_id@.len() > 0
        },
        r is Ok ==> admission.operation.installed_policy.version > 0,
{
    if r is Ok && admission.delivery_id@.len() == 0 {
        assert(admission.delivery_id@ =~= Seq::<char>::empty());
        assert(vstd::utf8::encode_utf8(admission.delivery_id@) =~= Seq::<u8>::empty());
    }
}

/// An attempt counts for the sequence of its source and for no other.
pub proof fn law_attempts_count_for_their_sequence(
    attempts: Vec<OperationRecord>,
    more: Vec<OperationRecord>,
    another: OperationRecord,
    sequence: u64,
    before: u32,
    after: Result<u32, StoreError>,
)
    requires
        call_ensures(
            attempt_count_for_source_sequence,
            (&attempts, sequence),
            Ok::<u32, StoreError>(before),
        ),
        more@ == attempts@.push(another),
        call_ensures(attempt_count_for_source_sequence, (&more, sequence), after),
    ensures
        attempts@.len() == 0 ==> before == 0,
        after matches Ok(count) ==> count == before + if another.evidence.source_sequence == Some(
            sequence,
        ) {
            1int
        } else {
            0int
        },
{
    assert(more@.drop_last() =~= attempts@);
    assert(more@.last() == another);
}

} // verus!
