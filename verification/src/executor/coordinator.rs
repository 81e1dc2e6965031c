//! Advancing an operation by one phase, one step at a time.

use vstd::prelude::*;
use super::fences::{DurableExecutor, FenceExecutionError};
use super::phase_steps::PhaseExecutionError;
use super::rules::{CommittedSource, SourceGateError};
use crate::controller::transitions::OperationUpdate;
use crate::controller::{DurableController, StoreError};
use crate::domain::failure::FailureCapsule;
use crate::domain::operation::OperationState;
use crate::domain::record::OperationRecord;
use crate::domain::states::{BlockingReason, OperationPhase, OperationResult};
use crate::fence_adapter::FenceLease;
use crate::unique_id::Uuid;

verus! {

/// Where a run can be made to stop, to try what a restart makes of it.
#[derive(Clone, Copy, Debug, PartialEq, Eq, Structural)]
pub enum CoordinatorCrashPoint {
    AfterSecurityReceipt,
    AfterControllerProjection,
}

/// Why an operation is not advanced.
#[derive(Clone, Copy, Debug, PartialEq, Eq)]
pub enum CoordinatorError {
    Store(StoreError),
    Executor(PhaseExecutionError),
    Fence(FenceExecutionError),
    InjectedCrash(CoordinatorCrashPoint),
    /// What came back is no answer to the step.
    UnexpectedEvent,
}

/// What is done next.
#[derive(Clone, Copy, Debug, PartialEq, Eq, Structural)]
pub enum CoordinatorStep {
    /// The source of an operation in reconciliation is looked into.
    ReconcileSource,
    /// The receipt of the phase that was left is committed.
    CommitReconciled,
    /// The source is asked before the fence is acquired.
    RefreshSource,
    /// The operation goes on, where it waited for its source.
    ClearSourceBlock,
    /// The write fence is acquired.
    AcquireFence,
    /// The receipt of the fence is looked for.
    FindFenceReceipt,
    /// The fence is recorded with the operation.
    RecordFence,
    /// The phase is carried out.
    ExecutePhase,
    /// The fence is looked for after the soak.
    FindFence,
    /// The fence is released, by the receipt of the soak.
    ReleaseFence,
    /// The receipt of the phase is committed.
    CommitReceipt,
    /// The operation waits at its cutover for its source.
    SetCutoverSourceBlock,
    /// The operation goes to reconciliation.
    MarkNeedsReconcile,
    /// The attempt ends, for a newer source.
    Supersede,
    /// The operation waits for its source.
    SetSourceBlock(BlockingReason),
    /// The operation waits for disk space.
    SetDiskBlock,
    /// What the attempt held is given back.
    CleanUpEnded,
    /// Nothing more is done.
    Settled,
}

/// Whose fence it is.
#[derive(Clone, Copy, Debug, PartialEq, Eq, Structural)]
pub enum FenceOwner {
    ThisAttempt,
    OtherAttempt,
    Nobody,
}

impl FenceOwner {
    /// Whose fence it is that the journal holds of a project, seen from an attempt.
    pub fn of(active: &Option<FenceLease>, attempt_id: Uuid) -> (r: FenceOwner)
        ensures
            r == match *active {
                None => FenceOwner::Nobody,
                Some(lease) => if lease.attempt_id == attempt_id {
                    FenceOwner::ThisAttempt
                } else {
                    FenceOwner::OtherAttempt
                },
            },
    {
        match active {
            None => FenceOwner::Nobody,
            Some(lease) => if lease.attempt_id == attempt_id {
                FenceOwner::ThisAttempt
            } else {
                FenceOwner::OtherAttempt
            },
        }
    }
}

/// What came back of a step.
#[derive(Clone, Copy, Debug, PartialEq, Eq)]
pub enum CoordinatorEvent {
    Done,
    Found(bool),
    Source(CommittedSource),
    Executed(Result<(), PhaseExecutionError>),
    Fence(FenceOwner),
    /// The receipt was committed, and the operation still runs, or not.
    Projected(bool),
}

/// The step that an operation is advanced with. One that has ended is cleaned up, one in
/// reconciliation is looked into, one that waits is left alone unless it waits for a source that can
/// be asked again, and one at its cutover needs its fence first.
pub open spec fn first_coordinator_step(state: OperationState) -> CoordinatorStep {
    if state.phase is Reconciliation {
        CoordinatorStep::ReconcileSource
    } else if !(state.result is Running) {
        CoordinatorStep::CleanUpEnded
    } else if !(state.blocking_reason is Unblocked) && !(
    state.blocking_reason is SourceBrokerUnavailable) {
        CoordinatorStep::Settled
    } else if state.phase is CutoverSnapshotting {
        CoordinatorStep::RefreshSource
    } else {
        CoordinatorStep::ExecutePhase
    }
}

/// What follows a step, given what came back of it.
pub open spec fn following_coordinator_step(
    phase: OperationPhase,
    running: bool,
    crash_at: Option<CoordinatorCrashPoint>,
    step: CoordinatorStep,
    event: CoordinatorEvent,
) -> Result<CoordinatorStep, CoordinatorError> {
    match (step, event) {
        (CoordinatorStep::ReconcileSource, CoordinatorEvent::Source(source)) => match source {
            CommittedSource::Completed => if running {
                Ok(CoordinatorStep::CommitReconciled)
            } else {
                Ok(CoordinatorStep::CleanUpEnded)
            },
            CommittedSource::Elsewhere => if running {
                Ok(CoordinatorStep::Settled)
            } else {
                Ok(CoordinatorStep::CleanUpEnded)
            },
            CommittedSource::Ambiguous => Ok(CoordinatorStep::Settled),
            CommittedSource::InvalidOperationState => Err(
                CoordinatorError::Executor(PhaseExecutionError::InvalidOperationState),
            ),
        },
        (CoordinatorStep::CommitReconciled, CoordinatorEvent::Done) => Ok(CoordinatorStep::Settled),
        (CoordinatorStep::CleanUpEnded, CoordinatorEvent::Done) => Ok(CoordinatorStep::Settled),
        (CoordinatorStep::RefreshSource, CoordinatorEvent::Executed(outcome)) => match outcome {
            Ok(()) => Ok(CoordinatorStep::ClearSourceBlock),
            Err(PhaseExecutionError::Source(SourceGateError::Unavailable)) => Ok(
                CoordinatorStep::SetCutoverSourceBlock,
            ),
            Err(PhaseExecutionError::NeedsReconcile) => Ok(CoordinatorStep::MarkNeedsReconcile),
            Err(PhaseExecutionError::Source(_)) => Ok(CoordinatorStep::MarkNeedsReconcile),
            Err(error) => Err(CoordinatorError::Executor(error)),
        },
        (CoordinatorStep::ClearSourceBlock, CoordinatorEvent::Done) => Ok(
            CoordinatorStep::AcquireFence,
        ),
        (CoordinatorStep::AcquireFence, CoordinatorEvent::Done) => Ok(
            CoordinatorStep::FindFenceReceipt,
        ),
        (CoordinatorStep::FindFenceReceipt, CoordinatorEvent::Found(found)) => if found {
            Ok(CoordinatorStep::RecordFence)
        } else {
            Err(CoordinatorError::Fence(FenceExecutionError::NeedsReconcile))
        },
        (CoordinatorStep::RecordFence, CoordinatorEvent::Done) => Ok(CoordinatorStep::ExecutePhase),
        (CoordinatorStep::ExecutePhase, CoordinatorEvent::Executed(outcome)) => match outcome {
            Ok(()) => if phase is Soaking {
                Ok(CoordinatorStep::FindFence)
            } else if crash_at == Some(CoordinatorCrashPoint::AfterSecurityReceipt) {
                Err(CoordinatorError::InjectedCrash(CoordinatorCrashPoint::AfterSecurityReceipt))
            } else {
                Ok(CoordinatorStep::CommitReceipt)
            },
            Err(PhaseExecutionError::NeedsReconcile) => Ok(CoordinatorStep::MarkNeedsReconcile),
            Err(PhaseExecutionError::Source(SourceGateError::HeadSuperseded)) => Ok(
                CoordinatorStep::Supersede,
            ),
            Err(PhaseExecutionError::Source(error)) => Ok(
                CoordinatorStep::SetSourceBlock(error.reason()),
            ),
            Err(PhaseExecutionError::Store(StoreError::DiskReservationCapacity)) => Ok(
                CoordinatorStep::SetDiskBlock,
            ),
            Err(error) => Err(CoordinatorError::Executor(error)),
        },
        (CoordinatorStep::FindFence, CoordinatorEvent::Fence(owner)) => match owner {
            FenceOwner::ThisAttempt => Ok(CoordinatorStep::ReleaseFence),
            FenceOwner::OtherAttempt => Err(
                CoordinatorError::Fence(FenceExecutionError::NeedsReconcile),
            ),
            FenceOwner::Nobody => if crash_at == Some(CoordinatorCrashPoint::AfterSecurityReceipt) {
                Err(CoordinatorError::InjectedCrash(CoordinatorCrashPoint::AfterSecurityReceipt))
            } else {
                Ok(CoordinatorStep::CommitReceipt)
            },
        },
        (CoordinatorStep::ReleaseFence, CoordinatorEvent::Done) => if crash_at == Some(
            CoordinatorCrashPoint::AfterSecurityReceipt,
        ) {
            Err(CoordinatorError::InjectedCrash(CoordinatorCrashPoint::AfterSecurityReceipt))
        } else {
            Ok(CoordinatorStep::CommitReceipt)
        },
        (CoordinatorStep::CommitReceipt, CoordinatorEvent::Projected(still_running)) => if crash_at
            == Some(CoordinatorCrashPoint::AfterControllerProjection) {
            Err(CoordinatorError::InjectedCrash(CoordinatorCrashPoint::AfterControllerProjection))
        } else if still_running {
            Ok(CoordinatorStep::Settled)
        } else {
            Ok(CoordinatorStep::CleanUpEnded)
        },
        (CoordinatorStep::Supersede, CoordinatorEvent::Done) => Ok(CoordinatorStep::CleanUpEnded),
        (CoordinatorStep::SetCutoverSourceBlock, CoordinatorEvent::Done) => Ok(
            CoordinatorStep::Settled,
        ),
        (CoordinatorStep::MarkNeedsReconcile, CoordinatorEvent::Done) => Ok(
            CoordinatorStep::Settled,
        ),
        (CoordinatorStep::SetSourceBlock(_), CoordinatorEvent::Done) => Ok(CoordinatorStep::Settled),
        (CoordinatorStep::SetDiskBlock, CoordinatorEvent::Done) => Ok(CoordinatorStep::Settled),
        _ => Err(CoordinatorError::UnexpectedEvent),
    }
}

fn next_coordinator_step(
    phase: OperationPhase,
    running: bool,
    crash_at: Option<CoordinatorCrashPoint>,
    step: CoordinatorStep,
    event: CoordinatorEvent,
) -> (r: Result<CoordinatorStep, CoordinatorError>)
    ensures
        r == following_coordinator_step(phase, running, crash_at, step, event),
{
    match (step, event) {
        (CoordinatorStep::ReconcileSource, CoordinatorEvent::Source(source)) => match source {
            CommittedSource::Completed => if running {
                Ok(CoordinatorStep::CommitReconciled)
            } else {
                Ok(CoordinatorStep::CleanUpEnded)
            },
            CommittedSource::Elsewhere => if running {
                Ok(CoordinatorStep::Settled)
            } else {
                Ok(CoordinatorStep::CleanUpEnded)
            },
            CommittedSource::Ambiguous => Ok(CoordinatorStep::Settled),
            CommittedSource::InvalidOperationState => Err(
                CoordinatorError::Executor(PhaseExecutionError::InvalidOperationState),
            ),
        },
        (CoordinatorStep::CommitReconciled, CoordinatorEvent::Done) => Ok(CoordinatorStep::Settled),
        (CoordinatorStep::CleanUpEnded, CoordinatorEvent::Done) => Ok(CoordinatorStep::Settled),
        (CoordinatorStep::RefreshSource, CoordinatorEvent::Executed(outcome)) => match outcome {
            Ok(()) => Ok(CoordinatorStep::ClearSourceBlock),
            Err(PhaseExecutionError::Source(SourceGateError::Unavailable)) => Ok(
                CoordinatorStep::SetCutoverSourceBlock,
            ),
            Err(PhaseExecutionError::NeedsReconcile) => Ok(CoordinatorStep::MarkNeedsReconcile),
            Err(PhaseExecutionError::Source(_)) => Ok(CoordinatorStep::MarkNeedsReconcile),
            Err(error) => Err(CoordinatorError::Executor(error)),
        },
        (CoordinatorStep::ClearSourceBlock, CoordinatorEvent::Done) => Ok(
            CoordinatorStep::AcquireFence,
        ),
        (CoordinatorStep::AcquireFence, CoordinatorEvent::Done) => Ok(
            CoordinatorStep::FindFenceReceipt,
        ),
        (CoordinatorStep::FindFenceReceipt, CoordinatorEvent::Found(found)) => if found {
            Ok(CoordinatorStep::RecordFence)
        } else {
            Err(CoordinatorError::Fence(FenceExecutionError::NeedsReconcile))
        },
        (CoordinatorStep::RecordFence, CoordinatorEvent::Done) => Ok(CoordinatorStep::ExecutePhase),
        (CoordinatorStep::ExecutePhase, CoordinatorEvent::Executed(outcome)) => match outcome {
            Ok(()) => if phase == OperationPhase::Soaking {
                Ok(CoordinatorStep::FindFence)
            } else if crash_at == Some(CoordinatorCrashPoint::AfterSecurityReceipt) {
                Err(CoordinatorError::InjectedCrash(CoordinatorCrashPoint::AfterSecurityReceipt))
            } else {
                Ok(CoordinatorStep::CommitReceipt)
            },
            Err(PhaseExecutionError::NeedsReconcile) => Ok(CoordinatorStep::MarkNeedsReconcile),
            Err(PhaseExecutionError::Source(SourceGateError::HeadSuperseded)) => Ok(
                CoordinatorStep::Supersede,
            ),
            Err(PhaseExecutionError::Source(error)) => Ok(
                CoordinatorStep::SetSourceBlock(error.source_blocking_reason()),
            ),
            Err(PhaseExecutionError::Store(StoreError::DiskReservationCapacity)) => Ok(
                CoordinatorStep::SetDiskBlock,
            ),
            Err(error) => Err(CoordinatorError::Executor(error)),
        },
        (CoordinatorStep::FindFence, CoordinatorEvent::Fence(owner)) => match owner {
            FenceOwner::ThisAttempt => Ok(CoordinatorStep::ReleaseFence),
            FenceOwner::OtherAttempt => Err(
                CoordinatorError::Fence(FenceExecutionError::NeedsReconcile),
            ),
            FenceOwner::Nobody => if crash_at == Some(CoordinatorCrashPoint::AfterSecurityReceipt) {
                Err(CoordinatorError::InjectedCrash(CoordinatorCrashPoint::AfterSecurityReceipt))
            } else {
                Ok(CoordinatorStep::CommitReceipt)
            },
        },
        (CoordinatorStep::ReleaseFence, CoordinatorEvent::Done) => if crash_at == Some(
            CoordinatorCrashPoint::AfterSecurityReceipt,
        ) {
            Err(CoordinatorError::InjectedCrash(CoordinatorCrashPoint::AfterSecurityReceipt))
        } else {
            Ok(CoordinatorStep::CommitReceipt)
        },
        (CoordinatorStep::CommitReceipt, CoordinatorEvent::Projected(still_running)) => if crash_at
            == Some(CoordinatorCrashPoint::AfterControllerProjection) {
            Err(CoordinatorError::InjectedCrash(CoordinatorCrashPoint::AfterControllerProjection))
        } else if still_running {
            Ok(CoordinatorStep::Settled)
        } else {
            Ok(CoordinatorStep::CleanUpEnded)
        },
        (CoordinatorStep::Supersede, CoordinatorEvent::Done) => Ok(CoordinatorStep::CleanUpEnded),
        (CoordinatorStep::SetCutoverSourceBlock, CoordinatorEvent::Done) => Ok(
            CoordinatorStep::Settled,
        ),
        (CoordinatorStep::MarkNeedsReconcile, CoordinatorEvent::Done) => Ok(
            CoordinatorStep::Settled,
        ),
        (CoordinatorStep::SetSourceBlock(_), CoordinatorEvent::Done) => Ok(CoordinatorStep::Settled),
        (CoordinatorStep::SetDiskBlock, CoordinatorEvent::Done) => Ok(CoordinatorStep::Settled),
        _ => Err(CoordinatorError::UnexpectedEvent),
    }
}

/// A run that advances an operation.
#[derive(Clone, Copy, Debug, PartialEq, Eq)]
pub struct CoordinatorRun {
    pub phase: OperationPhase,
    pub running: bool,
    pub crash_at: Option<CoordinatorCrashPoint>,
    pub step: CoordinatorStep,
}

impl CoordinatorRun {
    /// Goes on with a run once a step was done.
    pub fn advance(&mut self, event: CoordinatorEvent) -> (r: Result<(), CoordinatorError>)
        ensures
            match r {
                Ok(()) => {
                    &&& following_coordinator_step(
                        old(self).phase,
                        old(self).running,
                        old(self).crash_at,
                        old(self).step,
                        event,
                    ) == Ok::<_, CoordinatorError>(final(self).step)
                    &&& *final(self) == (CoordinatorRun { step: final(self).step, ..*old(self) })
                },
                Err(error) => {
                    &&& following_coordinator_step(
                        old(self).phase,
                        old(self).running,
                        old(self).crash_at,
                        old(self).step,
                        event,
                    ) == Err::<CoordinatorStep, _>(error)
                    &&& *final(self) == *old(self)
                },
            },
    {
        match next_coordinator_step(self.phase, self.running, self.crash_at, self.step, event) {
            Err(error) => Err(error),
            Ok(step) => {
                self.step = step;
                Ok(())
            },
        }
    }
}

/// The coordinator: the controller and the executor together.
#[derive(Clone, Debug)]
pub struct DurableCoordinator<T, S, A, G, P> {
    controller: DurableController<T>,
    executor: DurableExecutor<S, A, G, P>,
}

impl<T, S, A, G, P> DurableCoordinator<T, S, A, G, P> {
    pub closed spec fn held_controller(self) -> DurableController<T> {
        self.controller
    }

    pub closed spec fn held_executor(self) -> DurableExecutor<S, A, G, P> {
        self.executor
    }

    pub fn new(controller: DurableController<T>, executor: DurableExecutor<S, A, G, P>) -> (r: Self)
        ensures
            r.held_controller() == controller,
            r.held_executor() == executor,
    {
        DurableCoordinator { controller, executor }
    }

    pub fn with_source_gate(self, source_gate: G) -> (r: Self)
        ensures
            r.held_controller() == self.held_controller(),
            r.held_executor().held_source_gate() == Some(source_gate),
            r.held_executor().held_security() == self.held_executor().held_security(),
            r.held_executor().held_effects() == self.held_executor().held_effects(),
            r.held_executor().held_probe() == self.held_executor().held_probe(),
            r.held_executor().recovered() == self.held_executor().recovered(),
    {
        DurableCoordinator {
            controller: self.controller,
            executor: self.executor.with_source_gate(source_gate),
        }
    }

    pub fn with_disk_space_probe(self, disk_space_probe: P) -> (r: Self)
        ensures
            r.held_controller() == self.held_controller(),
            r.held_executor().held_probe() == Some(disk_space_probe),
            r.held_executor().held_security() == self.held_executor().held_security(),
            r.held_executor().held_effects() == self.held_executor().held_effects(),
            r.held_executor().held_source_gate() == self.held_executor().held_source_gate(),
            r.held_executor().recovered() == self.held_executor().recovered(),
    {
        DurableCoordinator {
            controller: self.controller,
            executor: self.executor.with_disk_space_probe(disk_space_probe),
        }
    }

    pub fn controller(&self) -> (r: &DurableController<T>)
        ensures
            *r == self.held_controller(),
    {
        &self.controller
    }

    pub fn executor(&self) -> (r: &DurableExecutor<S, A, G, P>)
        ensures
            *r == self.held_executor(),
    {
        &self.executor
    }

    /// What keeps anything from being done about an attempt: it is not there, or the journal of its
    /// project was not recovered.
    pub open spec fn attempt_fault(
        self,
        attempt_id: Uuid,
        stored: Option<OperationRecord>,
    ) -> Option<StoreError> {
        if OperationRecord::load_fault(attempt_id, stored) is Some {
            OperationRecord::load_fault(attempt_id, stored)
        } else if !self.held_executor().recovered().contains(stored->0.project_id@) {
            Some(StoreError::SecurityRecoveryRequired)
        } else {
            None
        }
    }

    fn check_attempt(&self, attempt_id: Uuid, stored: &Option<OperationRecord>) -> (r: Result<
        (),
        StoreError,
    >)
        ensures
            match r {
                Ok(()) => self.attempt_fault(attempt_id, *stored) is None,
                Err(error) => self.attempt_fault(attempt_id, *stored) == Some(error),
            },
    {
        match stored {
            None => Err(StoreError::OperationNotFound(attempt_id)),
            Some(operation) => match operation.check_stored() {
                Err(error) => Err(error),
                Ok(()) => self.executor.require_recovery(&operation.project_id),
            },
        }
    }

    /// Begins a run that advances an operation by one phase.
    pub fn advance_once(
        &self,
        attempt_id: Uuid,
        stored: &Option<OperationRecord>,
        crash_at: Option<CoordinatorCrashPoint>,
    ) -> (r: Result<CoordinatorRun, CoordinatorError>)
        ensures
            match r {
                Ok(run) => self.attempt_fault(attempt_id, *stored) is None && run
                    == (CoordinatorRun {
                    phase: stored->0.state.phase,
                    running: stored->0.state.result is Running,
                    crash_at,
                    step: first_coordinator_step(stored->0.state),
                }),
                Err(error) => error matches CoordinatorError::Store(fault) && self.attempt_fault(
                    attempt_id,
                    *stored,
                ) == Some(fault),
            },
    {
        match self.check_attempt(attempt_id, stored) {
            Err(error) => return Err(CoordinatorError::Store(error)),
            Ok(()) => {},
        }
        match stored {
            None => Err(CoordinatorError::Store(StoreError::OperationNotFound(attempt_id))),
            Some(operation) => {
                let state = operation.state;
                let running = state.result == OperationResult::Running;
                let step = if state.phase == OperationPhase::Reconciliation {
                    CoordinatorStep::ReconcileSource
                } else if !running {
                    CoordinatorStep::CleanUpEnded
                } else if state.blocking_reason != BlockingReason::Unblocked
                    && !super::rules::is_retryable_source_block(state.blocking_reason) {
                    CoordinatorStep::Settled
                } else if state.phase == OperationPhase::CutoverSnapshotting {
                    CoordinatorStep::RefreshSource
                } else {
                    CoordinatorStep::ExecutePhase
                };
                Ok(CoordinatorRun { phase: state.phase, running, crash_at, step })
            },
        }
    }

    /// Ends an attempt that failed before it could change production.
    pub fn fail_before_mutation(
        &self,
        attempt_id: Uuid,
        stored: Option<OperationRecord>,
        failure_capsule: FailureCapsule,
        now_ms: i64,
    ) -> (r: Result<OperationUpdate, CoordinatorError>)
        ensures
            match r {
                Ok(update) => {
                    let operation = stored->0;
                    let next = OperationState::unblocked(
                        operation.state.phase,
                        OperationResult::Failed,
                    );
                    &&& self.attempt_fault(attempt_id, stored) is None
                    &&& update.changed == (operation.state.result is Running)
                    &&& if update.changed {
                        operation.state.phase.before_mutation() && operation.failing(
                            operation.evidence.recovery_mode,
                            Some(failure_capsule),
                        ).moves(update.operation, next, None, now_ms)
                    } else {
                        update.operation == operation
                    }
                },
                Err(error) => error matches CoordinatorError::Store(fault) && match self.attempt_fault(
                    attempt_id,
                    stored,
                ) {
                    Some(expected) => fault == expected,
                    None => stored->0.state.result is Running && if stored->0.state.phase.before_mutation() {
                        stored->0.move_fault(
                            OperationState::unblocked(
                                stored->0.state.phase,
                                OperationResult::Failed,
                            ),
                        ) == Some(fault)
                    } else {
                        fault == StoreError::FailureAfterMutationRequiresReconcile
                    },
                },
            },
    {
        match self.check_attempt(attempt_id, &stored) {
            Err(error) => return Err(CoordinatorError::Store(error)),
            Ok(()) => {},
        }
        match self.controller.fail_attempt(attempt_id, stored, failure_capsule, now_ms) {
            Err(error) => Err(CoordinatorError::Store(error)),
            Ok(update) => Ok(update),
        }
    }

    /// Cancels an attempt before it can change production.
    pub fn cancel_before_mutation(
        &self,
        attempt_id: Uuid,
        stored: Option<OperationRecord>,
        now_ms: i64,
    ) -> (r: Result<OperationUpdate, CoordinatorError>)
        ensures
            match r {
                Ok(update) => {
                    let operation = stored->0;
                    let next = OperationState::unblocked(
                        operation.state.phase,
                        OperationResult::Cancelled,
                    );
                    &&& self.attempt_fault(attempt_id, stored) is None
                    &&& update.changed == (operation.state.result is Running)
                    &&& if update.changed {
                        operation.state.phase.before_mutation() && operation.moves(
                            update.operation,
                            next,
                            None,
                            now_ms,
                        )
                    } else {
                        update.operation == operation
                    }
                },
                Err(error) => error matches CoordinatorError::Store(fault) && match self.attempt_fault(
                    attempt_id,
                    stored,
                ) {
                    Some(expected) => fault == expected,
                    None => stored->0.state.result is Running && if stored->0.state.phase.before_mutation() {
                        stored->0.move_fault(
                            OperationState::unblocked(
                                stored->0.state.phase,
                                OperationResult::Cancelled,
                            ),
                        ) == Some(fault)
                    } else {
                        fault == StoreError::CancellationAfterMutation
                    },
                },
            },
    {
        match self.check_attempt(attempt_id, &stored) {
            Err(error) => return Err(CoordinatorError::Store(error)),
            Ok(()) => {},
        }
        match self.controller.cancel_before_mutation(attempt_id, stored, now_ms) {
            Err(error) => Err(CoordinatorError::Store(error)),
            Ok(update) => Ok(update),
        }
    }

    /// Lets an operation try again for its disk space.
    pub fn retry_disk_reservation(
        &self,
        attempt_id: Uuid,
        stored: Option<OperationRecord>,
        now_ms: i64,
    ) -> (r: Result<OperationUpdate, CoordinatorError>)
        ensures
            ({
                let operation = stored->0;
                let waits = operation.state.result is Running
                    && operation.state.blocking_reason is DiskReserve
                    && !operation.has_committed_mutation();
                let next = operation.state.blocked_by(BlockingReason::Unblocked);
                match r {
                    Ok(update) => {
                        &&& self.attempt_fault(attempt_id, stored) is None
                        &&& waits
                        &&& update.changed
                        &&& operation.moves(update.operation, next, None, now_ms)
                    },
                    Err(error) => error matches CoordinatorError::Store(fault)
                        && match self.attempt_fault(attempt_id, stored) {
                        Some(expected) => fault == expected,
                        None => if waits {
                            operation.move_fault(next) == Some(fault)
                        } else {
                            fault == StoreError::TransitionRejected
                        },
                    },
                }
            }),
    {
        match self.check_attempt(attempt_id, &stored) {
            Err(error) => return Err(CoordinatorError::Store(error)),
            Ok(()) => {},
        }
        match self.controller.clear_disk_block(attempt_id, stored, now_ms) {
            Err(error) => Err(CoordinatorError::Store(error)),
            Ok(update) => Ok(update),
        }
    }

    /// What is done first to roll an operation back: the source of one in reconciliation is looked
    /// into; any other goes straight to the takeover, where it is rolling back or may begin to.
    pub fn begin_rollback(
        &self,
        attempt_id: Uuid,
        stored: Option<OperationRecord>,
    ) -> (r: Result<RollbackStart, CoordinatorError>)
        ensures
            match r {
                Ok(RollbackStart::ReconcileSource(operation)) => {
                    &&& self.attempt_fault(attempt_id, stored) is None
                    &&& stored == Some(operation)
                    &&& operation.state.phase is Reconciliation
                },
                Ok(RollbackStart::TakeOver(operation)) => {
                    &&& self.attempt_fault(attempt_id, stored) is None
                    &&& stored == Some(operation)
                    &&& !(operation.state.phase is Reconciliation)
                    &&& operation.rollback_readiness() is Some
                },
                Err(error) => error matches CoordinatorError::Store(fault) && match self.attempt_fault(
                    attempt_id,
                    stored,
                ) {
                    Some(expected) => fault == expected,
                    None => !(stored->0.state.phase is Reconciliation)
                        && stored->0.rollback_readiness() is None && fault
                        == StoreError::TransitionRejected,
                },
            },
    {
        match self.check_attempt(attempt_id, &stored) {
            Err(error) => return Err(CoordinatorError::Store(error)),
            Ok(()) => {},
        }
        match stored {
            None => Err(CoordinatorError::Store(StoreError::OperationNotFound(attempt_id))),
            Some(operation) => {
                if operation.state.phase == OperationPhase::Reconciliation {
                    return Ok(RollbackStart::ReconcileSource(operation));
                }
                match self.controller.validate_rollback(attempt_id, Some(operation)) {
                    Err(error) => Err(CoordinatorError::Store(error)),
                    Ok(operation) => Ok(RollbackStart::TakeOver(operation)),
                }
            },
        }
    }
}

/// What is done first to roll an operation back.
#[derive(Debug)]
pub enum RollbackStart {
    ReconcileSource(OperationRecord),
    TakeOver(OperationRecord),
}

/// The place of a step in the order of a run.
pub open spec fn coordinator_rank(step: CoordinatorStep) -> int {
    match step {
        CoordinatorStep::ReconcileSource => 0,
        CoordinatorStep::CommitReconciled => 1,
        CoordinatorStep::RefreshSource => 2,
        CoordinatorStep::ClearSourceBlock => 3,
        CoordinatorStep::AcquireFence => 4,
        CoordinatorStep::FindFenceReceipt => 5,
        CoordinatorStep::RecordFence => 6,
        CoordinatorStep::ExecutePhase => 7,
        CoordinatorStep::FindFence => 8,
        CoordinatorStep::ReleaseFence => 9,
        CoordinatorStep::CommitReceipt => 10,
        CoordinatorStep::SetCutoverSourceBlock => 11,
        CoordinatorStep::MarkNeedsReconcile => 12,
        CoordinatorStep::Supersede => 13,
        CoordinatorStep::SetSourceBlock(_) => 14,
        CoordinatorStep::SetDiskBlock => 15,
        CoordinatorStep::CleanUpEnded => 16,
        CoordinatorStep::Settled => 17,
    }
}

/// Every step leads further, so a run ends.
pub proof fn law_coordinator_runs_end(
    phase: OperationPhase,
    running: bool,
    crash_at: Option<CoordinatorCrashPoint>,
    step: CoordinatorStep,
    event: CoordinatorEvent,
)
    ensures
        following_coordinator_step(phase, running, crash_at, step, event) matches Ok(next)
            ==> coordinator_rank(next) > coordinator_rank(step),
{
}

/// At its cutover an operation is carried out only once its fence is recorded, whatever the run
/// began with.
pub proof fn law_cutover_is_fenced(
    state: OperationState,
    running: bool,
    crash_at: Option<CoordinatorCrashPoint>,
    step: CoordinatorStep,
    event: CoordinatorEvent,
)
    ensures
        state.phase is CutoverSnapshotting ==> !(first_coordinator_step(state) is ExecutePhase),
        following_coordinator_step(state.phase, running, crash_at, step, event) == Ok::<
            _,
            CoordinatorError,
        >(CoordinatorStep::ExecutePhase) ==> step is RecordFence,
        following_coordinator_step(state.phase, running, crash_at, step, event) == Ok::<
            _,
            CoordinatorError,
        >(CoordinatorStep::RecordFence) ==> step is FindFenceReceipt && event
            == CoordinatorEvent::Found(true),
{
}

/// A receipt is committed only for a phase that was carried out, and after a soak only once no fence
/// is left behind.
pub proof fn law_commits_follow_execution(
    phase: OperationPhase,
    running: bool,
    crash_at: Option<CoordinatorCrashPoint>,
    step: CoordinatorStep,
    event: CoordinatorEvent,
)
    requires
        following_coordinator_step(phase, running, crash_at, step, event) == Ok::<
            _,
            CoordinatorError,
        >(CoordinatorStep::CommitReceipt),
    ensures
        (step is ExecutePhase && (event matches CoordinatorEvent::Executed(Ok(_))) && !(
        phase is Soaking)) || (step is FindFence && event == CoordinatorEvent::Fence(
            FenceOwner::Nobody,
        )) || step is ReleaseFence,
{
}

/// An operation that has ended, is in reconciliation, or waits for anything but a source that can be
/// asked again is not carried out.
pub proof fn law_waiting_operations_are_left_alone(state: OperationState)
    requires
        !(state.result is Running) || state.phase is Reconciliation || !(
        state.blocking_reason is Unblocked || state.blocking_reason is SourceBrokerUnavailable),
    ensures
        !(first_coordinator_step(state) is ExecutePhase) && !(
        first_coordinator_step(state) is RefreshSource),
{
}

} // verus!
