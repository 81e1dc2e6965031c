//! What holds of operations as they are carried out, step by step.

use vstd::prelude::*;
use super::coordinator::{
    first_coordinator_step, following_coordinator_step, CoordinatorCrashPoint, CoordinatorError,
    CoordinatorEvent, CoordinatorStep, DurableCoordinator, FenceOwner, RollbackStart,
};
use super::fences::{
    check_source_for_fence, DurableExecutor, following_fence_step, operation_identity_for_phase,
    refresh_stateful_source_before_fence, BackupBoundaryLease, DrainIdentityLease, FenceCrashPoint,
    FenceExecutionError, FenceGoal, FenceProjection, FenceRecovery, FenceRun, FenceRunEvent,
    FenceRunStep, FenceSourceCheck, PhaseOperationIdentityLeaseV1,
};
use super::intent::{executor_authorization_digest, PhaseIntent};
use super::phase_steps::{
    executor_phase_plan, following_step, phase_plan, AppliedEvidence, ExecutorPhasePlan,
    ExternalEffectError, ObservedEffect, PhaseCrashPoint, PhaseEvent, PhaseExecutionError,
    PhaseJournalStatus, PhasePlan, PhaseRun, PhaseStep,
};
use super::rules::{
    is_retryable_source_block, reconciliation_capsule, usable_evidence, CommittedSource, EffectObservation,
    ExecutionResource, PhaseEffectEvidence, ResourceRelease, SourceGateError,
};
use crate::controller::transitions::OperationUpdate;
use crate::controller::{DurableController, StoreError};
use crate::domain::artifacts::PhaseReceipt;
use crate::domain::failure::FailureCapsule;
use crate::domain::identifiers::EvidenceDigest;
use crate::domain::operation::{
    adjacent, OperationContractError, OperationKind, OperationRecoveryMode, OperationState,
    ReleaseClass,
};
use crate::domain::record::OperationRecord;
use crate::domain::states::{BlockingReason, OperationPhase, Retryability};
use crate::fence_adapter::{FenceLease, FenceObservation};
use crate::unique_id::Uuid;

verus! {

/// What is wrong with a source blocks an operation for just that: only a source that cannot be asked
/// is asked again by itself, and what is not to be trusted, or held by an operator, is left to one.
pub proof fn law_source_faults_block_for_what_they_are(
    fault: SourceGateError,
    reason: BlockingReason,
    asked_again: bool,
    retried: Option<Retryability>,
)
    requires
        call_ensures(SourceGateError::source_blocking_reason, (fault,), reason),
        call_ensures(is_retryable_source_block, (reason,), asked_again),
        call_ensures(BlockingReason::retryability, (reason,), retried),
    ensures
        asked_again <==> fault is Unavailable,
        retried == Some(Retryability::OperatorRunbook) <==> fault is AttestationInvalid
            || fault is Diverged || fault is BlockedSha || fault is Paused,
        retried == Some(Retryability::Automatic) <==> fault is Unavailable
            || fault is HeadSuperseded,
        fault is Diverged <==> reason is SourceDivergence,
        fault is AttestationInvalid <==> reason is SourceAttestationInvalid,
        fault is HeadSuperseded <==> reason is SourceHeadSuperseded,
        fault is BlockedSha || fault is Paused <==> reason is OperatorHold,
{
}

/// Disk space is set aside for every phase that writes, the project is locked from the preflight on,
/// and what all projects share is taken for builds and for heavy work on state.
pub proof fn law_phases_take_what_they_use(
    phase: OperationPhase,
    disk: bool,
    locked: bool,
    crossed: bool,
    shared: Option<ExecutionResource>,
)
    requires
        call_ensures(OperationPhase::requires_disk_reservation, (phase,), disk),
        call_ensures(OperationPhase::requires_project_lock, (phase,), locked),
        call_ensures(OperationPhase::crosses_mutation_boundary, (phase,), crossed),
        call_ensures(OperationPhase::phase_resource, (phase,), shared),
    ensures
        locked <==> (crossed || phase is Preflight) && !(phase is Reconciliation),
        locked && !(phase is Draining) ==> disk,
        disk <==> (locked && !(phase is Draining)) || phase is Testing || phase is Building,
        shared == Some(ExecutionResource::GlobalBuild) <==> phase is Testing || phase is Building,
        shared == Some(ExecutionResource::GlobalHeavyIo) <==> phase is BackingUp
            || phase is CutoverSnapshotting || phase is Migrating,
        shared is None || shared == Some(ExecutionResource::GlobalBuild) || shared == Some(
            ExecutionResource::GlobalHeavyIo,
        ),
{
}

/// The source of a deployment is asked in the first phase in which production changes, right behind
/// the preflight, and may move on before state is migrated or, without state, with the deployment
/// itself. The source of anything else is not asked.
pub proof fn law_sources_are_asked_before_production_changes(
    operation: OperationRecord,
    admitted: Option<OperationPhase>,
    completed: Option<OperationPhase>,
    live: bool,
    plan: Vec<OperationPhase>,
)
    requires
        call_ensures(OperationRecord::live_source_admission_phase, (&operation,), admitted),
        call_ensures(OperationRecord::live_source_completion_phase, (&operation,), completed),
        call_ensures(OperationRecord::requires_live_source_check, (&operation,), live),
        call_ensures(
            OperationKind::required_phases,
            (operation.operation_kind, operation.release_class),
            Ok::<_, OperationContractError>(plan),
        ),
    ensures
        admitted is Some <==> operation.operation_kind is Deploy,
        completed is Some <==> operation.operation_kind is Deploy,
        admitted matches Some(phase) ==> adjacent(plan@, OperationPhase::Preflight, phase),
        completed matches Some(phase) ==> phase is Deploying || adjacent(
            plan@,
            phase,
            OperationPhase::Migrating,
        ),
        completed == Some(OperationPhase::Deploying) ==> !plan@.contains(OperationPhase::Migrating),
        live <==> admitted == Some(operation.state.phase),
{
    if operation.operation_kind is Deploy {
        let phases = plan@;
        let preflight: int = 5;
        assert(phases[preflight] == OperationPhase::Preflight && phases[preflight + 1]
            == admitted->0);
        if !(operation.release_class->0 is CodeOnlyCompatible) {
            let cutover: int = 8;
            assert(phases[cutover] == completed->0 && phases[cutover + 1]
                == OperationPhase::Migrating);
        }
    }
}

/// The plan of a phase takes just what the phase uses, asks the source where it must still be the
/// head, and takes the authority over only to begin a rollback.
pub proof fn law_phase_plans_follow_the_phase(
    operation: OperationRecord,
    backup_authorized: bool,
    plan: PhasePlan,
    disk: bool,
    locked: bool,
    shared: Option<ExecutionResource>,
    admitted: Option<OperationPhase>,
    completed: Option<OperationPhase>,
)
    requires
        call_ensures(phase_plan, (&operation, backup_authorized), plan),
        call_ensures(OperationPhase::requires_disk_reservation, (operation.state.phase,), disk),
        call_ensures(OperationPhase::requires_project_lock, (operation.state.phase,), locked),
        call_ensures(OperationPhase::phase_resource, (operation.state.phase,), shared),
        call_ensures(OperationRecord::live_source_admission_phase, (&operation,), admitted),
        call_ensures(OperationRecord::live_source_completion_phase, (&operation,), completed),
    ensures
        plan.phase == operation.state.phase,
        plan.branch is RollbackRecovery <==> operation.evidence.recovery_mode == Some(
            OperationRecoveryMode::Rollback,
        ),
        plan.takes_over <==> plan.branch is RollbackRecovery && plan.phase is Rollback,
        plan.disk == disk,
        plan.project_lock == locked,
        plan.resource == shared,
        plan.registry <==> plan.phase is Building || plan.phase is Deploying,
        plan.live_source <==> admitted == Some(plan.phase),
        plan.completes_source <==> completed == Some(plan.phase),
        plan.live_source ==> plan.proof_phase == Some(plan.phase),
        plan.proof_phase is Some && !plan.live_source ==> plan.phase is Draining
            && plan.proof_phase == Some(OperationPhase::BackingUp),
        plan.backup_boundary <==> plan.phase is BackingUp && backup_authorized,
        plan.drain_identity ==> plan.phase is Draining,
        plan.phase is Draining && operation.operation_kind is Deploy && (operation.release_class
            == Some(ReleaseClass::StatefulCompatible) || operation.release_class == Some(
            ReleaseClass::StatefulBreaking,
        )) ==> plan.drain_identity && plan.proof_phase is Some,
{
}

/// The journal is told the phases of the operation, and that it may roll back just where a rollback
/// could begin: of a deployment of a compatible release.
pub proof fn law_journal_plans_allow_compatible_rollbacks(
    operation: OperationRecord,
    r: Result<ExecutorPhasePlan, OperationContractError>,
    phases: Result<Vec<OperationPhase>, OperationContractError>,
)
    requires
        call_ensures(executor_phase_plan, (&operation,), r),
        call_ensures(
            OperationKind::required_phases,
            (operation.operation_kind, operation.release_class),
            phases,
        ),
    ensures
        r is Ok <==> phases is Ok,
        r is Ok ==> r->Ok_0.ordered_phases@ == phases->Ok_0@,
        r is Ok ==> (r->Ok_0.may_roll_back <==> operation.operation_kind is Deploy && !(
        operation.release_class == Some(ReleaseClass::StatefulBreaking))),
{
}

/// An effect is this run's only where it is there for its intent; one that is there for another is
/// foreign, and one that cannot be seen is not taken to be absent.
pub proof fn law_effects_are_told_by_their_intent(
    run: PhaseRun,
    found: Result<EffectObservation, ExternalEffectError>,
    r: ObservedEffect,
)
    requires
        call_ensures(PhaseRun::effect_of, (&run, &found), r),
    ensures
        r is Unknown <==> found is Err,
        r is Absent <==> found matches Ok(EffectObservation::Absent),
        r is Intended <==> (found matches Ok(EffectObservation::Applied(evidence))
            && evidence.intent_digest@ == run.intent.digest@),
        r is Foreign <==> (found matches Ok(EffectObservation::Applied(evidence))
            && evidence.intent_digest@ != run.intent.digest@),
{
}

/// Evidence of an effect is usable only where the effect is there and tells of no other source than
/// the one that was proved; the proof goes with it, and nothing else of it changes.
pub proof fn law_evidence_tells_of_the_proved_source(
    found: Result<EffectObservation, ExternalEffectError>,
    proof_digest: Option<EvidenceDigest>,
    r: Option<PhaseEffectEvidence>,
)
    requires
        call_ensures(usable_evidence, (found, proof_digest), r),
    ensures
        r is Some ==> found is Ok && found->Ok_0 is Applied,
        r is Some && proof_digest is Some ==> {
            &&& r->0.artifacts.source_gate_proof_digest is Some
            &&& (r->0.artifacts.source_gate_proof_digest->0)@ == (proof_digest->0)@
        },
        (found matches Ok(EffectObservation::Applied(applied)) && (proof_digest is None
            || applied.artifacts.source_gate_proof_digest is None)) ==> r is Some,
        (found matches Ok(EffectObservation::Applied(applied)) && r is Some) ==> {
            let applied = found->Ok_0->Applied_0;
            &&& r->0.intent_digest == applied.intent_digest
            &&& r->0.observation_digest == applied.observation_digest
            &&& r->0.artifacts.image_digest == applied.artifacts.image_digest
            &&& r->0.artifacts.release_bundle_digest == applied.artifacts.release_bundle_digest
            &&& r->0.artifacts.health_evidence_digest == applied.artifacts.health_evidence_digest
            &&& r->0.artifacts.fencing_epoch == applied.artifacts.fencing_epoch
            &&& proof_digest is None ==> r->0.artifacts == applied.artifacts
        },
{
}

/// A phase that was left for reconciliation is taken as carried out only where it is the one that
/// completes the source, its receipt is there, and the source was proved as it is now.
pub proof fn law_reconciled_sources_are_borne_out(
    operation: OperationRecord,
    completion_found: bool,
    admission: Option<PhaseReceipt>,
    found: Option<EvidenceDigest>,
    completed: Option<OperationPhase>,
    r: CommittedSource,
)
    requires
        call_ensures(
            OperationRecord::reconcile_committed_source,
            (&operation, completion_found, &admission, &found),
            r,
        ),
        call_ensures(OperationRecord::live_source_completion_phase, (&operation,), completed),
    ensures
        r is InvalidOperationState <==> !(operation.state.phase is Reconciliation),
        r is Completed ==> {
            &&& completion_found
            &&& admission is Some && found is Some
            &&& admission->0.artifacts.source_gate_proof_digest is Some
            &&& (admission->0.artifacts.source_gate_proof_digest->0)@ == (found->0)@
        },
        r is Completed || r is Ambiguous ==> {
            &&& completed is Some
            &&& operation.evidence.transitions@.len() > 0
            &&& operation.evidence.transitions@.last().from.phase == completed->0
            &&& operation.evidence.transitions@.last().to.phase is Reconciliation
            &&& operation.evidence.transitions@.last().receipt_digest is None
        },
        operation.state.phase is Reconciliation && completed is None ==> r is Elsewhere,
{
}

/// An attempt that has ended gives back its project, its disk space, the registry and what it
/// shared; one that runs gives back nothing. One that waits gives back all of it but keeps running.
pub proof fn law_ended_attempts_give_everything_back(
    operation: OperationRecord,
    ended: Vec<ResourceRelease>,
    suspended: Vec<ResourceRelease>,
    shared: Option<ExecutionResource>,
)
    requires
        call_ensures(OperationRecord::cleanup_terminal_resources, (&operation,), ended),
        call_ensures(
            OperationRecord::suspend_pre_mutation_resources,
            (operation.state.phase,),
            suspended,
        ),
        call_ensures(OperationPhase::phase_resource, (operation.state.phase,), shared),
    ensures
        operation.state.result is Running ==> ended@.len() == 0,
        !(operation.state.result is Running) ==> {
            &&& ended@.contains(ResourceRelease::Resource(ExecutionResource::ProjectDeploy))
            &&& ended@.contains(ResourceRelease::DiskReservation)
            &&& ended@.contains(ResourceRelease::Resource(ExecutionResource::GlobalLocalRegistry))
            &&& shared matches Some(resource) ==> ended@.contains(ResourceRelease::Resource(resource))
        },
        suspended@.contains(ResourceRelease::Resource(ExecutionResource::ProjectDeploy)),
        suspended@.contains(ResourceRelease::DiskReservation),
        suspended@.contains(ResourceRelease::Resource(ExecutionResource::GlobalLocalRegistry)),
        shared matches Some(resource) ==> suspended@.contains(ResourceRelease::Resource(resource)),
{
    let count = suspended@.len() as int;
    assert(suspended@[count - 1] == ResourceRelease::Resource(ExecutionResource::ProjectDeploy));
    assert(suspended@[count - 2] == ResourceRelease::Resource(
        ExecutionResource::GlobalLocalRegistry,
    ));
    assert(suspended@[count - 3] == ResourceRelease::DiskReservation);
    if shared is Some {
        assert(suspended@[0] == ResourceRelease::Resource(shared->0));
    }
    if !(operation.state.result is Running) {
        assert(ended@[0] == ResourceRelease::Resource(ExecutionResource::ProjectDeploy));
        assert(ended@[1] == ResourceRelease::DiskReservation);
        assert(ended@[2] == ResourceRelease::Resource(ExecutionResource::GlobalLocalRegistry));
        if shared is Some {
            assert(ended@[3] == ResourceRelease::Resource(shared->0));
        }
    }
}

/// What a phase alone needed is given back after it: what it shared, and the registry after the
/// deployment. The project and the disk space are kept.
pub proof fn law_phases_give_back_what_they_shared(
    phase: OperationPhase,
    released: Vec<ResourceRelease>,
    shared: Option<ExecutionResource>,
)
    requires
        call_ensures(OperationRecord::cleanup_ephemeral_resource, (phase,), released),
        call_ensures(OperationPhase::phase_resource, (phase,), shared),
    ensures
        shared matches Some(resource) ==> released@.contains(ResourceRelease::Resource(resource)),
        phase is Deploying ==> released@.contains(
            ResourceRelease::Resource(ExecutionResource::GlobalLocalRegistry),
        ),
        !released@.contains(ResourceRelease::DiskReservation),
        !released@.contains(ResourceRelease::Resource(ExecutionResource::ProjectDeploy)),
        !(phase is Deploying) && shared is None ==> released@.len() == 0,
{
    if shared is Some {
        assert(released@[0] == ResourceRelease::Resource(shared->0));
    }
    if phase is Deploying {
        let last = released@.len() - 1;
        assert(released@[last] == ResourceRelease::Resource(
            ExecutionResource::GlobalLocalRegistry,
        ));
    }
}

/// What a coordinator does first: it reconciles what is in reconciliation, cleans up what has ended,
/// leaves alone what waits for anything but its source, asks the source at a cutover, and carries out
/// everything else.
pub proof fn law_operations_begin_where_they_are(state: OperationState)
    ensures
        first_coordinator_step(state) is ReconcileSource <==> state.phase is Reconciliation,
        first_coordinator_step(state) is CleanUpEnded <==> !(state.phase is Reconciliation) && !(
        state.result is Running),
        first_coordinator_step(state) is RefreshSource || first_coordinator_step(state)
            is ExecutePhase <==> !(state.phase is Reconciliation) && state.result is Running && (
        state.blocking_reason is Unblocked || state.blocking_reason is SourceBrokerUnavailable),
        first_coordinator_step(state) is RefreshSource ==> state.phase is CutoverSnapshotting,
        first_coordinator_step(state) is ExecutePhase ==> !(state.phase is CutoverSnapshotting),
{
}

/// What a phase came to decides what becomes of the operation: an effect that is not known goes to
/// reconciliation, a newer head replaces the attempt, a source or a disk that is wanting blocks it,
/// and a soak is committed only once the fence is looked for. At a cutover a source that cannot be
/// asked is waited for, and any other fault of it goes to reconciliation.
pub proof fn law_outcomes_decide_what_follows(
    phase: OperationPhase,
    running: bool,
    fault: SourceGateError,
    reason: BlockingReason,
)
    requires
        call_ensures(SourceGateError::source_blocking_reason, (fault,), reason),
    ensures
        ({
            let after = |outcome: Result<(), PhaseExecutionError>|
                following_coordinator_step(
                    phase,
                    running,
                    None,
                    CoordinatorStep::ExecutePhase,
                    CoordinatorEvent::Executed(outcome),
                );
            let asked = |outcome: Result<(), PhaseExecutionError>|
                following_coordinator_step(
                    phase,
                    running,
                    None,
                    CoordinatorStep::RefreshSource,
                    CoordinatorEvent::Executed(outcome),
                );
            &&& after(Ok(())) == Ok::<_, CoordinatorError>(
                if phase is Soaking {
                    CoordinatorStep::FindFence
                } else {
                    CoordinatorStep::CommitReceipt
                },
            )
            &&& after(Err(PhaseExecutionError::NeedsReconcile)) == Ok::<_, CoordinatorError>(
                CoordinatorStep::MarkNeedsReconcile,
            )
            &&& after(Err(PhaseExecutionError::Source(fault))) == Ok::<_, CoordinatorError>(
                if fault is HeadSuperseded {
                    CoordinatorStep::Supersede
                } else {
                    CoordinatorStep::SetSourceBlock(reason)
                },
            )
            &&& after(
                Err(PhaseExecutionError::Store(StoreError::DiskReservationCapacity)),
            ) == Ok::<_, CoordinatorError>(CoordinatorStep::SetDiskBlock)
            &&& asked(Ok(())) == Ok::<_, CoordinatorError>(CoordinatorStep::ClearSourceBlock)
            &&& asked(Err(PhaseExecutionError::NeedsReconcile)) == Ok::<_, CoordinatorError>(
                CoordinatorStep::MarkNeedsReconcile,
            )
            &&& asked(Err(PhaseExecutionError::Source(fault))) == Ok::<_, CoordinatorError>(
                if fault is Unavailable {
                    CoordinatorStep::SetCutoverSourceBlock
                } else {
                    CoordinatorStep::MarkNeedsReconcile
                },
            )
        }),
{
}

/// At a cutover the source is asked, the block lifted, the fence acquired, its receipt found and
/// recorded, and only then the phase carried out. After a soak the attempt's own fence is released
/// before the receipt is committed, and a fence of another attempt is not touched.
pub proof fn law_fences_surround_the_cutover(
    phase: OperationPhase,
    running: bool,
    crash_at: Option<CoordinatorCrashPoint>,
    step: CoordinatorStep,
    event: CoordinatorEvent,
)
    ensures
        ({
            let next = following_coordinator_step(phase, running, crash_at, step, event);
            &&& next == Ok::<_, CoordinatorError>(CoordinatorStep::AcquireFence)
                ==> step is ClearSourceBlock
            &&& next == Ok::<_, CoordinatorError>(CoordinatorStep::ClearSourceBlock)
                ==> step is RefreshSource && (event matches CoordinatorEvent::Executed(Ok(_)))
            &&& next == Ok::<_, CoordinatorError>(CoordinatorStep::FindFenceReceipt)
                ==> step is AcquireFence
            &&& next == Ok::<_, CoordinatorError>(CoordinatorStep::FindFence)
                ==> step is ExecutePhase && phase is Soaking && (event matches CoordinatorEvent::Executed(
                Ok(_),
            ))
            &&& next == Ok::<_, CoordinatorError>(CoordinatorStep::ReleaseFence)
                ==> step is FindFence && event == CoordinatorEvent::Fence(FenceOwner::ThisAttempt)
            &&& step is FindFence && event == CoordinatorEvent::Fence(FenceOwner::OtherAttempt)
                ==> next is Err
            &&& next == Ok::<_, CoordinatorError>(CoordinatorStep::CommitReconciled)
                ==> step is ReconcileSource && running && event == CoordinatorEvent::Source(
                CommittedSource::Completed,
            )
            &&& next == Ok::<_, CoordinatorError>(CoordinatorStep::CleanUpEnded)
                ==> step is ReconcileSource && !running || step is Supersede || (
            step is CommitReceipt && event == CoordinatorEvent::Projected(false))
        }),
{
}

/// What a coordinator refuses or does it refuses or does as the controller would: an attempt of a
/// project that is not recovered is not touched at all.
pub proof fn law_unrecovered_projects_are_not_touched<T, S, A, G, P>(
    coordinator: DurableCoordinator<T, S, A, G, P>,
    attempt_id: Uuid,
    stored: OperationRecord,
    now_ms: i64,
    recovered: bool,
    rollback: Result<RollbackStart, CoordinatorError>,
    cancelled: Result<OperationUpdate, CoordinatorError>,
    retried: Result<OperationUpdate, CoordinatorError>,
)
    requires
        call_ensures(
            DurableCoordinator::<T, S, A, G, P>::begin_rollback,
            (&coordinator, attempt_id, Some(stored)),
            rollback,
        ),
        call_ensures(
            DurableCoordinator::<T, S, A, G, P>::cancel_before_mutation,
            (&coordinator, attempt_id, Some(stored), now_ms),
            cancelled,
        ),
        call_ensures(
            DurableCoordinator::<T, S, A, G, P>::retry_disk_reservation,
            (&coordinator, attempt_id, Some(stored), now_ms),
            retried,
        ),
        !coordinator.held_executor().recovered().contains(stored.project_id@),
    ensures
        rollback is Err && cancelled is Err && retried is Err,
{
}

/// A coordinator begins and cancels as the controller does.
pub proof fn law_coordinators_decide_as_the_controller<T, S, A, G, P, C>(
    coordinator: DurableCoordinator<T, S, A, G, P>,
    controller: DurableController<C>,
    attempt_id: Uuid,
    stored: OperationRecord,
    now_ms: i64,
    cancelled: Result<OperationUpdate, CoordinatorError>,
    by_controller: Result<OperationUpdate, StoreError>,
    rollback: Result<RollbackStart, CoordinatorError>,
    validated: Result<OperationRecord, StoreError>,
)
    requires
        call_ensures(
            DurableCoordinator::<T, S, A, G, P>::cancel_before_mutation,
            (&coordinator, attempt_id, Some(stored), now_ms),
            cancelled,
        ),
        call_ensures(
            DurableController::<C>::cancel_before_mutation,
            (&controller, attempt_id, Some(stored), now_ms),
            by_controller,
        ),
        call_ensures(
            DurableCoordinator::<T, S, A, G, P>::begin_rollback,
            (&coordinator, attempt_id, Some(stored)),
            rollback,
        ),
        call_ensures(
            DurableController::<C>::validate_rollback,
            (&controller, attempt_id, Some(stored)),
            validated,
        ),
        coordinator.held_executor().recovered().contains(stored.project_id@),
        stored.evidence.transitions@.len() < u32::MAX,
    ensures
        cancelled is Ok <==> by_controller is Ok,
        cancelled is Ok ==> cancelled->Ok_0.changed == by_controller->Ok_0.changed
            && cancelled->Ok_0.operation.state == by_controller->Ok_0.operation.state,
        cancelled is Err ==> cancelled->Err_0 == CoordinatorError::Store(by_controller->Err_0),
        !(stored.state.phase is Reconciliation) ==> (rollback is Ok <==> validated is Ok),
        rollback matches Ok(RollbackStart::TakeOver(operation)) ==> operation == stored && validated
            is Ok,
{
}

/// A phase takes the disk space, the registry, the project and what is shared before anything is
/// looked for or done, each where its plan says so.
pub proof fn law_resources_are_taken_before_effects(
    plan: PhasePlan,
    step: PhaseStep,
    event: PhaseEvent,
)
    ensures
        ({
            let next = following_step(plan, None, step, event);
            &&& next == Ok::<_, PhaseExecutionError>(PhaseStep::ReserveDisk) ==> plan.disk && (
            step is BeginIntent || step is CompensateRejected)
            &&& step is BeginIntent && event == PhaseEvent::Journal(PhaseJournalStatus::Open)
                && plan.disk ==> next == Ok::<_, PhaseExecutionError>(PhaseStep::ReserveDisk)
            &&& next == Ok::<_, PhaseExecutionError>(PhaseStep::Observe) ==> {
                ||| step is BeginBackupBoundary
                ||| step is BeginDrainIdentity
                ||| !plan.backup_boundary && !plan.drain_identity
            }
            &&& next == Ok::<_, PhaseExecutionError>(PhaseStep::Observe) ==> {
                ||| step is BeginBackupBoundary || step is BeginDrainIdentity
                ||| step is AcquireResource
                ||| plan.resource is None && (step is AcquireProject || !plan.project_lock && (
                step is AcquireRegistry || !plan.registry && (step is ReserveDisk || !plan.disk)))
            }
            &&& next == Ok::<_, PhaseExecutionError>(PhaseStep::AcquireResource) ==> plan.resource
                is Some
            &&& next == Ok::<_, PhaseExecutionError>(PhaseStep::AcquireProject) ==> plan.project_lock
            &&& next == Ok::<_, PhaseExecutionError>(PhaseStep::AcquireRegistry) ==> plan.registry
        }),
{
}

/// A source that is no longer the head stops the phase before anything is done: it is told so, what
/// is held is given back, and its fault is the end.
pub proof fn law_lost_heads_stop_the_phase(
    plan: PhasePlan,
    crash_at: Option<PhaseCrashPoint>,
    fault: SourceGateError,
)
    ensures
        following_step(
            plan,
            crash_at,
            PhaseStep::CheckSource,
            PhaseEvent::Source(Err(fault)),
        ) == Ok::<_, PhaseExecutionError>(PhaseStep::AbortSource(fault)),
        following_step(
            plan,
            crash_at,
            PhaseStep::AbortSource(fault),
            PhaseEvent::Source(Ok(())),
        ) == Ok::<_, PhaseExecutionError>(PhaseStep::SuspendSource(fault)),
        following_step(plan, crash_at, PhaseStep::SuspendSource(fault), PhaseEvent::Done) == Err::<
            PhaseStep,
            _,
        >(PhaseExecutionError::Source(fault)),
{
}

/// An effect that could not be brought about is looked for: where it is there after all the phase
/// goes on, where it is not the failure is told, and where that is not known either the journal is
/// told so and the phase needs reconciliation.
pub proof fn law_failed_effects_are_looked_for(
    plan: PhasePlan,
    failure: ExternalEffectError,
    unseen: ExternalEffectError,
)
    ensures
        following_step(
            plan,
            None,
            PhaseStep::Apply,
            PhaseEvent::Applied(Err(failure)),
        ) == Ok::<_, PhaseExecutionError>(PhaseStep::ObserveFailed(failure)),
        following_step(
            plan,
            None,
            PhaseStep::ObserveFailed(failure),
            PhaseEvent::Observed(ObservedEffect::Intended),
        ) == Ok::<_, PhaseExecutionError>(
            if plan.proof_phase is Some {
                PhaseStep::FindProof
            } else {
                PhaseStep::ObserveApplied
            },
        ),
        following_step(
            plan,
            None,
            PhaseStep::ObserveFailed(failure),
            PhaseEvent::Observed(ObservedEffect::Unknown(unseen)),
        ) == Ok::<_, PhaseExecutionError>(PhaseStep::MarkAmbiguous),
        following_step(plan, None, PhaseStep::MarkAmbiguous, PhaseEvent::Done) == Err::<PhaseStep, _>(
            PhaseExecutionError::NeedsReconcile,
        ),
        !plan.live_source ==> following_step(
            plan,
            None,
            PhaseStep::ObserveFailed(failure),
            PhaseEvent::Observed(ObservedEffect::Absent),
        ) == Err::<PhaseStep, _>(PhaseExecutionError::External(failure)),
        plan.live_source ==> following_step(
            plan,
            None,
            PhaseStep::ObserveFailed(failure),
            PhaseEvent::Observed(ObservedEffect::Absent),
        ) == Ok::<_, PhaseExecutionError>(PhaseStep::AbortFailed(failure)),
{
}

/// Evidence that is not usable, or a proof that is missing, is never taken for success; what the
/// journal does not accept needs reconciliation; and a source moves on only after the receipt.
pub proof fn law_doubts_need_reconciliation(plan: PhasePlan, failed: SourceGateError)
    ensures
        following_step(
            plan,
            None,
            PhaseStep::ObserveApplied,
            PhaseEvent::Evidence(AppliedEvidence::Unusable),
        ) == Ok::<_, PhaseExecutionError>(PhaseStep::MarkAmbiguous),
        following_step(plan, None, PhaseStep::FindProof, PhaseEvent::Found(false)) == Ok::<
            _,
            PhaseExecutionError,
        >(PhaseStep::MarkAmbiguous),
        following_step(plan, None, PhaseStep::RecordObservation, PhaseEvent::Accepted(false))
            == Err::<PhaseStep, _>(PhaseExecutionError::NeedsReconcile),
        following_step(plan, None, PhaseStep::CommitReceipt, PhaseEvent::Done) == Ok::<
            _,
            PhaseExecutionError,
        >(
            if plan.completes_source {
                PhaseStep::CompleteSource
            } else {
                PhaseStep::CleanUp
            },
        ),
        following_step(
            plan,
            None,
            PhaseStep::CompleteSource,
            PhaseEvent::Source(Err(failed)),
        ) == Err::<PhaseStep, _>(PhaseExecutionError::NeedsReconcile),
{
}

/// A source moves on only after the receipt of its phase is there.
pub proof fn law_sources_move_on_after_the_receipt(
    plan: PhasePlan,
    crash_at: Option<PhaseCrashPoint>,
    step: PhaseStep,
    event: PhaseEvent,
)
    ensures
        following_step(plan, crash_at, step, event) == Ok::<_, PhaseExecutionError>(
            PhaseStep::CompleteSource,
        ) ==> plan.completes_source && (step is CommitReceipt || (step is FindReceipt && event
            == PhaseEvent::Found(true))),
        following_step(plan, crash_at, step, event) == Ok::<_, PhaseExecutionError>(
            PhaseStep::Finished,
        ) ==> step is CleanUp,
{
}

/// A fence is changed only where it was seen on the other side of where it should be, and is where it
/// should be only once it was seen there again: a fence of another attempt, epoch or token is neither
/// taken nor lifted.
pub proof fn law_only_own_fences_are_changed(
    goal: FenceGoal,
    lease: FenceLease,
    crash_at: Option<FenceCrashPoint>,
    observation: FenceObservation,
)
    ensures
        ({
            let own = observation matches FenceObservation::Held { attempt_id, epoch, token }
                && attempt_id == lease.attempt_id && epoch == lease.epoch && token == lease.token;
            let next = following_fence_step(
                goal,
                lease,
                crash_at,
                FenceRunStep::Observe,
                FenceRunEvent::Observed(observation),
            );
            &&& next == Ok::<_, FenceExecutionError>(FenceRunStep::Apply) <==> (goal is Acquire
                && observation is Released) || (goal is Release && own)
            &&& next == Ok::<_, FenceExecutionError>(FenceRunStep::ObserveAgain) ==> (goal is Acquire
                && own) || (goal is Release && observation is Released)
            &&& !own && !(observation is Released) ==> next == Ok::<_, FenceExecutionError>(
                FenceRunStep::ReconcileForeign,
            )
        }),
{
}

/// A fence run ends well only where the journal holds what it was after.
pub proof fn law_fence_runs_end_where_they_should(
    goal: FenceGoal,
    lease: FenceLease,
    crash_at: Option<FenceCrashPoint>,
    step: FenceRunStep,
    event: FenceRunEvent,
)
    ensures
        following_fence_step(goal, lease, crash_at, step, event) == Ok::<_, FenceExecutionError>(
            FenceRunStep::Finished,
        ) ==> (goal is Release && step is ObserveAgain && event == FenceRunEvent::Projected(
            FenceProjection::Released,
        )) || (step is FindLease && event == FenceRunEvent::Found(true)),
        following_fence_step(goal, lease, crash_at, step, event) == Ok::<_, FenceExecutionError>(
            FenceRunStep::FindLease,
        ) ==> goal is Acquire && step is ObserveAgain && event == FenceRunEvent::Projected(
            FenceProjection::Held,
        ),
{
}

/// After a restart a fence goes on to where it was going: one that was to be held is held, and one
/// that was to be released is released only where the journal knows that this is safe.
pub proof fn law_fences_go_on_where_they_were_going(lease: FenceLease, r: FenceRecovery)
    requires
        call_ensures(FenceLease::reconcile_active_fence, (&lease,), r),
    ensures
        r == FenceRecovery::Resume(FenceGoal::Acquire) <==> lease.state is AcquireIntent
            || lease.state is Held,
        r == FenceRecovery::Resume(FenceGoal::Release) <==> lease.state is ReleaseIntent
            && lease.release_safe_receipt_digest is Some,
        r is Settled <==> lease.state is Released,
        r is NeedsReconcile <==> lease.state is NeedsReconcile || (lease.state is ReleaseIntent
            && lease.release_safe_receipt_digest is None),
{
}

/// A fence run begins with a look at the fence, and none begins to acquire a fence that needs
/// reconciliation.
pub proof fn law_fence_runs_look_first(
    goal: FenceGoal,
    lease: FenceLease,
    r: Result<FenceRun, FenceExecutionError>,
)
    requires
        call_ensures(FenceRun::begin, (goal, lease, None::<FenceCrashPoint>), r),
    ensures
        r is Ok <==> !(goal is Acquire && lease.state is NeedsReconcile),
        r matches Ok(run) ==> run.step is Observe && run.goal == goal && run.lease == lease,
{
}

/// Before the fence the source is asked only for a release with state at its cutover, unless the
/// attempt holds the fence already; a fence of anyone else needs reconciliation.
pub proof fn law_sources_are_asked_before_the_fence(
    operation: OperationRecord,
    fence: Option<FenceLease>,
    r: FenceSourceCheck,
)
    requires
        call_ensures(refresh_stateful_source_before_fence, (&operation, &fence), r),
    ensures
        r is InvalidOperationState <==> !(operation.state.phase is CutoverSnapshotting
            && operation.operation_kind is Deploy && (operation.release_class == Some(
            ReleaseClass::StatefulCompatible,
        ) || operation.release_class == Some(ReleaseClass::StatefulBreaking))),
        r is AskSource ==> fence is None,
        r is Ready ==> fence is Some && fence->0.attempt_id == operation.attempt_id
            && fence->0.state is Held,
        fence is Some && fence->0.attempt_id != operation.attempt_id ==> !(r is Ready) && !(
        r is AskSource),
{
}

/// The source before the fence must be the one that was recorded; one that cannot be asked is told
/// as that, and everything else needs reconciliation.
pub proof fn law_the_recorded_source_goes_before_the_fence(
    asked: Result<EvidenceDigest, SourceGateError>,
    recorded: Option<EvidenceDigest>,
    r: Result<(), PhaseExecutionError>,
)
    requires
        call_ensures(check_source_for_fence, (&asked, &recorded), r),
    ensures
        r is Ok <==> asked is Ok && recorded is Some && (asked->Ok_0)@ == (recorded->0)@,
        r == Err::<(), _>(PhaseExecutionError::Source(SourceGateError::Unavailable)) <==> asked
            == Err::<EvidenceDigest, _>(SourceGateError::Unavailable),
        r is Err && asked is Ok ==> r == Err::<(), _>(PhaseExecutionError::NeedsReconcile),
{
}

/// A phase acts under an identity only where its plan says so, and only under one of its own
/// attempt.
pub proof fn law_phases_act_under_their_own_identity(
    plan: PhasePlan,
    attempt_id: Uuid,
    backup: Option<BackupBoundaryLease>,
    drain: Option<DrainIdentityLease>,
    r: Result<Option<PhaseOperationIdentityLeaseV1>, PhaseExecutionError>,
)
    requires
        call_ensures(operation_identity_for_phase, (plan, attempt_id, backup, drain), r),
    ensures
        r == Ok::<Option<PhaseOperationIdentityLeaseV1>, PhaseExecutionError>(None)
            <==> !plan.backup_boundary && !plan.drain_identity,
        r matches Ok(Some(PhaseOperationIdentityLeaseV1::BaseBackup(identity))) ==> backup == Some(
            identity,
        ) && identity.attempt_id == attempt_id && plan.backup_boundary,
        r matches Ok(Some(PhaseOperationIdentityLeaseV1::Drain(identity))) ==> drain == Some(identity)
            && identity.attempt_id == attempt_id && plan.drain_identity && !plan.backup_boundary,
        plan.backup_boundary && backup is Some && backup->0.attempt_id == attempt_id ==> r is Ok,
        plan.drain_identity && !plan.backup_boundary && drain is Some && drain->0.attempt_id
            == attempt_id ==> r is Ok,
{
}

/// Whose a fence is, is told by the attempt that its lease names.
pub proof fn law_fences_belong_to_their_attempt(
    active: Option<FenceLease>,
    attempt_id: Uuid,
    r: FenceOwner,
)
    requires
        call_ensures(FenceOwner::of, (&active, attempt_id), r),
    ensures
        r is Nobody <==> active is None,
        r is ThisAttempt <==> active is Some && active->0.attempt_id == attempt_id,
{
}

/// An intent is of the phase and the attempt that its operation is in, on the branch that it is on, and
/// carries all the evidence that the operation has. While the operation rolls back it is that of a
/// rollback of code, whatever the operation was.
pub proof fn law_intents_are_of_their_operation(
    operation: OperationRecord,
    authority: EvidenceDigest,
    intent: PhaseIntent,
)
    requires
        call_ensures(
            PhaseIntent::from_operation,
            (&operation, authority),
            Ok::<PhaseIntent, StoreError>(intent),
        ),
    ensures
        ({
            let back = operation.evidence.recovery_mode == Some(OperationRecoveryMode::Rollback);
            let payload = intent.payload;
            let evidence = operation.evidence;
            &&& intent.attempt_id == operation.attempt_id && payload.attempt_id
                == operation.attempt_id
            &&& intent.project_id == operation.project_id
            &&& intent.phase == operation.state.phase && payload.phase == operation.state.phase
            &&& intent.branch is RollbackRecovery <==> back
            &&& payload.branch == intent.branch
            &&& back ==> payload.operation_kind is CodeRollback && payload.release_class == Some(
                ReleaseClass::Rollback,
            )
            &&& !back ==> payload.operation_kind == operation.operation_kind
                && payload.release_class == operation.release_class
            &&& payload.request_id == operation.request_id
            &&& payload.target_commit == operation.target_commit
            &&& payload.executor_authorization_digest == authority
            &&& payload.installed_policy == evidence.installed_policy
            &&& payload.authorized_phase_spec_digests@ == evidence.authorized_phase_spec_digests@
            &&& payload.source_attestation_digest == evidence.source_attestation_digest
            &&& payload.source_sequence == evidence.source_sequence
            &&& payload.source_gate_proof_digest == evidence.source_gate_proof_digest
            &&& payload.drain_evidence_digest == evidence.drain_evidence_digest
            &&& payload.source_export_digest == evidence.source_export_digest
            &&& payload.prefetch_evidence_digest == evidence.prefetch_evidence_digest
            &&& payload.ci_evidence_digest == evidence.ci_evidence_digest
            &&& payload.build_plan_digest == evidence.build_plan_digest
            &&& payload.deployment_plan_digest == evidence.deployment_plan_digest
            &&& payload.release_bundle_digest == evidence.release_bundle_digest
            &&& payload.resource_reservation_digest == evidence.resource_reservation_digest
            &&& payload.action_grant_digest == evidence.action_grant_digest
            &&& payload.build_context_digest == evidence.build_context_digest
            &&& payload.generated_output_digests@ == evidence.generated_output_digests@
            &&& payload.image_digest == evidence.image_digest
            &&& payload.image_id_digest == evidence.image_id_digest
            &&& payload.base_image_digests@ == evidence.base_image_digests@
            &&& payload.schema_version == evidence.schema_version
            &&& payload.backup_id == evidence.backup_id
            &&& payload.base_backup_id == evidence.base_backup_id
            &&& payload.cutover_backup_id == evidence.cutover_backup_id
            &&& payload.previous_release_bundle_digest == evidence.previous_release_bundle_digest
            &&& payload.health_evidence_digest == evidence.health_evidence_digest
            &&& payload.rollback_health_evidence_digest == evidence.rollback_health_evidence_digest
            &&& payload.fencing_epoch == evidence.fencing_epoch
            &&& payload.fence_acquisition_receipt_digest == evidence.fence_acquisition_receipt_digest
            &&& payload.recovery_mode == evidence.recovery_mode
        }),
{
}

/// What a user starts is carried out only under a grant, and what a source starts only from an attested
/// source of some sequence.
pub proof fn law_authority_rests_on_evidence(
    operation: OperationRecord,
    digest: Result<EvidenceDigest, StoreError>,
)
    requires
        call_ensures(executor_authorization_digest, (&operation,), digest),
    ensures
        digest is Ok && operation.actor is Interactive ==> operation.evidence.action_grant_digest
            is Some,
        digest is Ok && operation.actor is Automation
            ==> operation.evidence.source_attestation_digest is Some
            && operation.evidence.source_sequence is Some,
{
}

/// Nothing is done for a project whose security state was not recovered: no phase is carried out and no
/// fence is taken or given back. What is begun is of the operation or the lease that it was begun for.
pub proof fn law_unrecovered_projects_wait<S, A, G, P>(
    executor: DurableExecutor<S, A, G, P>,
    operation: OperationRecord,
    backup_authorized: bool,
    phase_crash: Option<PhaseCrashPoint>,
    run: PhaseRun,
    lease: FenceLease,
    fence_crash: Option<FenceCrashPoint>,
    taken: Result<FenceRun, FenceExecutionError>,
    given_back: Result<FenceRun, FenceExecutionError>,
    known: bool,
)
    requires
        call_ensures(
            DurableExecutor::<S, A, G, P>::execute_phase,
            (&executor, &operation, backup_authorized, phase_crash),
            Ok::<PhaseRun, PhaseExecutionError>(run),
        ),
        call_ensures(
            DurableExecutor::<S, A, G, P>::acquire_write_fence,
            (&executor, lease, fence_crash),
            taken,
        ),
        call_ensures(
            DurableExecutor::<S, A, G, P>::release_write_fence,
            (&executor, lease, fence_crash),
            given_back,
        ),
        call_ensures(
            DurableExecutor::<S, A, G, P>::is_recovered,
            (&executor, &lease.project_id),
            known,
        ),
    ensures
        executor.recovered().contains(operation.project_id@),
        run.intent.attempt_id == operation.attempt_id,
        run.intent.phase == operation.state.phase,
        !known ==> taken is Err && given_back is Err,
        taken matches Ok(fence) ==> fence.goal is Acquire && fence.lease == lease
            && !(lease.state is NeedsReconcile),
        given_back matches Ok(fence) ==> fence.goal is Release && fence.lease == lease,
{
}

/// A source is trusted to have started an operation only if it is a deployment of a commit, under an
/// installed policy, attested with a sequence; and only what holds state, is in its cutover, and was
/// backed up and drained, is tried again there.
pub proof fn law_cutovers_are_tried_again_only_when_drained(
    operation: OperationRecord,
    trusted: bool,
    again: bool,
    backed_up: bool,
    drained: bool,
    stateful: bool,
)
    requires
        call_ensures(OperationRecord::has_trusted_source_admission, (&operation,), trusted),
        call_ensures(OperationRecord::is_stateful_cutover_retry, (&operation,), again),
        call_ensures(
            OperationRecord::committed_phase,
            (&operation, OperationPhase::BackingUp),
            backed_up,
        ),
        call_ensures(
            OperationRecord::committed_phase,
            (&operation, OperationPhase::Draining),
            drained,
        ),
        call_ensures(OperationRecord::is_stateful_deploy, (&operation,), stateful),
    ensures
        trusted <==> operation.operation_kind is Deploy && operation.target_commit is Some
            && operation.evidence.installed_policy is Some
            && operation.evidence.source_attestation_digest is Some
            && operation.evidence.source_sequence is Some && operation.evidence.source_sequence->0
            > 0,
        again <==> trusted && backed_up && drained && stateful && operation.state.result is Running
            && operation.state.phase is CutoverSnapshotting,
        stateful ==> operation.operation_kind is Deploy && operation.release_class is Some
            && operation.release_class != Some(ReleaseClass::CodeOnlyCompatible)
            && operation.release_class != Some(ReleaseClass::Rollback),
{
}

/// A fence is held for a lease only by the very attempt, epoch and token of it.
pub proof fn law_fences_are_held_by_their_own_lease(
    lease: FenceLease,
    observation: FenceObservation,
    held: bool,
)
    requires
        call_ensures(FenceLease::is_observed, (&lease, observation), held),
    ensures
        held <==> (observation matches FenceObservation::Held { attempt_id, epoch, token }
            && attempt_id == lease.attempt_id && epoch == lease.epoch && token == lease.token),
{
}

/// A source that was taken as committed is in doubt once its ticket could not be completed.
pub proof fn law_uncompleted_tickets_leave_doubt(
    source: CommittedSource,
    completed: Result<(), SourceGateError>,
    after: CommittedSource,
)
    requires
        call_ensures(CommittedSource::after_ticket, (source, &completed), after),
    ensures
        source is Completed && completed is Err ==> after is Ambiguous,
        source is Completed && completed is Ok ==> after == source,
        !(source is Completed) ==> after == source,
{
}

/// A source that failed is told of in a capsule that can be tried again by itself, and an effect in
/// doubt in one that is left to an operator. Either tells the step it failed in, and all that it tells.
pub proof fn law_capsules_tell_who_goes_on(
    error: SourceGateError,
    failed: FailureCapsule,
    phase: OperationPhase,
    doubted: FailureCapsule,
)
    requires
        call_ensures(SourceGateError::source_failure_capsule, (error,), failed),
        call_ensures(reconciliation_capsule, (phase,), doubted),
    ensures
        failed.error.retryability is Automatic,
        failed.failing_step@ == OperationPhase::VerifyingSource.name(),
        failed.excerpt@ == failed.error.summary@,
        doubted.error.retryability is OperatorRunbook,
        doubted.failing_step@ == phase.name(),
        doubted.error.code@ != failed.error.code@,
        !failed.truncated && !doubted.truncated,
        failed.v2 is None && doubted.v2 is None,
        failed.schema_version == doubted.schema_version,
{
    reveal_strlit("executor_evidence_ambiguous");
    reveal_strlit("source_broker_unavailable");
    reveal_strlit("source_attestation_invalid");
    reveal_strlit("source_diverged");
    reveal_strlit("source_sha_blocked");
    reveal_strlit("source_reconciliation_paused");
    reveal_strlit("source_head_superseded");
    assert(doubted.error.code@[0] == 'e');
    assert(failed.error.code@[0] == 's');
}

/// Two failures of a source are told by the same code only if they are the same.
pub proof fn law_source_failures_are_told_apart(
    one: SourceGateError,
    first: FailureCapsule,
    other: SourceGateError,
    second: FailureCapsule,
)
    requires
        call_ensures(SourceGateError::source_failure_capsule, (one,), first),
        call_ensures(SourceGateError::source_failure_capsule, (other,), second),
    ensures
        first.error.code@ == second.error.code@ ==> one == other,
{
    reveal_strlit("source_broker_unavailable");
    reveal_strlit("source_attestation_invalid");
    reveal_strlit("source_diverged");
    reveal_strlit("source_sha_blocked");
    reveal_strlit("source_reconciliation_paused");
    reveal_strlit("source_head_superseded");
    assert("source_broker_unavailable"@.len() == 25);
    assert("source_attestation_invalid"@.len() == 26);
    assert("source_diverged"@.len() == 15);
    assert("source_sha_blocked"@.len() == 18);
    assert("source_reconciliation_paused"@.len() == 28);
    assert("source_head_superseded"@.len() == 22);
}

} // verus!
