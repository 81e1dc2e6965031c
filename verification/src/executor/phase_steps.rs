//! Carrying a phase out, one step at a time. Every step is something that is done outside; what came
//! back of it decides the next.

use vstd::prelude::*;
use super::intent::{
    authorization_json, executor_authorization_digest, has_capability,
    law_intents_of_one_operation_agree, PhaseIntent, PhaseIntentPayloadV1,
};
use super::rules::{EffectObservation, ExecutionResource, SourceGateError};
use crate::controller::StoreError;
use crate::domain::artifacts::ExecutorPhaseBranch;
use crate::domain::identifiers::{document_digest, EvidenceDigest};
use crate::domain::operation::{OperationContractError, OperationKind, ReleaseClass};
use crate::domain::record::OperationRecord;
use crate::domain::states::{OperationPhase, OperationResult};

verus! {

/// Why an effect could not be observed or brought about.
#[derive(Clone, Copy, Debug, PartialEq, Eq, Structural)]
pub enum ExternalEffectError {
    StatePoisoned,
    ConflictingState,
}

/// Where a run can be made to stop, to try what a restart makes of it.
#[derive(Clone, Copy, Debug, PartialEq, Eq, Structural)]
pub enum PhaseCrashPoint {
    AfterIntentPersisted,
    AfterEffectApplied,
    AfterObservationPersisted,
    AfterVerificationPersisted,
    AfterReceiptCommitted,
}

/// Why a phase is not carried out.
#[derive(Clone, Copy, Debug, PartialEq, Eq)]
pub enum PhaseExecutionError {
    Store(StoreError),
    External(ExternalEffectError),
    Source(SourceGateError),
    InjectedCrash(PhaseCrashPoint),
    NeedsReconcile,
    InvalidOperationState,
    /// What came back is no answer to the step.
    UnexpectedEvent,
}

/// What a phase needs.
#[derive(Clone, Copy, Debug, PartialEq, Eq, Structural)]
pub struct PhasePlan {
    pub phase: OperationPhase,
    pub branch: ExecutorPhaseBranch,
    /// The phase begins a rollback.
    pub takes_over: bool,
    /// The source must still be the head.
    pub live_source: bool,
    /// The source may move on after the phase.
    pub completes_source: bool,
    /// The phase whose proof of the source goes with the evidence.
    pub proof_phase: Option<OperationPhase>,
    pub disk: bool,
    pub registry: bool,
    pub project_lock: bool,
    pub resource: Option<ExecutionResource>,
    pub backup_boundary: bool,
    pub drain_identity: bool,
}

/// What a phase of an operation needs; a backup that was authorized by itself has an identity.
pub open spec fn plan_of(operation: OperationRecord, backup_authorized: bool) -> PhasePlan {
    let phase = operation.state.phase;
    let live_source = operation.source_admitted_in() == Some(phase);
    let backup_boundary = phase is BackingUp && backup_authorized;
    PhasePlan {
        phase,
        branch: operation.branch(),
        takes_over: operation.rolling_back() && phase is Rollback,
        live_source,
        completes_source: operation.source_completed_in() == Some(phase),
        proof_phase: if live_source {
            Some(phase)
        } else if operation.stateful() && phase is Draining {
            Some(OperationPhase::BackingUp)
        } else {
            None
        },
        disk: phase.reserves_disk(),
        registry: phase.uses_registry(),
        project_lock: phase.locks_project(),
        resource: phase.shared_resource(),
        backup_boundary,
        drain_identity: !backup_boundary && operation.stateful() && phase is Draining,
    }
}

pub fn phase_plan(operation: &OperationRecord, backup_authorized: bool) -> (r: PhasePlan)
    ensures
        r == plan_of(*operation, backup_authorized),
{
    let phase = operation.state.phase;
    let branch = operation.executor_phase_branch();
    let live_source = operation.requires_live_source_check();
    let stateful = operation.is_stateful_deploy();
    let backup_boundary = phase == OperationPhase::BackingUp && backup_authorized;
    PhasePlan {
        phase,
        branch,
        takes_over: branch == ExecutorPhaseBranch::RollbackRecovery && phase
            == OperationPhase::Rollback,
        live_source,
        completes_source: operation.live_source_completion_phase() == Some(phase),
        proof_phase: if live_source {
            Some(phase)
        } else if stateful && phase == OperationPhase::Draining {
            Some(OperationPhase::BackingUp)
        } else {
            None
        },
        disk: phase.requires_disk_reservation(),
        registry: phase == OperationPhase::Building || phase == OperationPhase::Deploying,
        project_lock: phase.requires_project_lock(),
        resource: phase.phase_resource(),
        backup_boundary,
        drain_identity: !backup_boundary && stateful && phase == OperationPhase::Draining,
    }
}

/// What is done next.
#[derive(Clone, Copy, Debug, PartialEq, Eq)]
pub enum PhaseStep {
    /// The attempt takes the authority over for a rollback.
    TakeOver,
    /// The journal is asked whether the phase may start, with the phases of the operation and whether
    /// it may be rolled back.
    ValidateStart,
    /// A receipt of the phase is looked for.
    FindReceipt,
    /// The intent is written to the journal.
    BeginIntent,
    /// A rejected source is looked for.
    FindRejection,
    /// The effect is looked for that a rejected source must not have had.
    ObserveRejected,
    /// The source is told that nothing was done.
    AbortRejected,
    /// The rejection is made good in the journal.
    CompensateRejected,
    /// Disk space is set aside.
    ReserveDisk,
    /// The local registry is taken.
    AcquireRegistry,
    /// The project is taken.
    AcquireProject,
    /// What all projects share is taken.
    AcquireResource,
    /// The backup gets its identity.
    BeginBackupBoundary,
    /// The drain gets its identity.
    BeginDrainIdentity,
    /// The effect is looked for before anything is done.
    Observe,
    /// The source is asked whether it still is the head.
    CheckSource,
    /// The source is told that nothing was done, after it failed.
    AbortSource(SourceGateError),
    /// What is held is given back, after the source failed.
    SuspendSource(SourceGateError),
    /// The proof of the source is written to the journal.
    RecordProof,
    /// The source is told that nothing was done, after its proof was refused.
    AbortProof(StoreError),
    /// The refusal of the proof is looked for.
    FindProofRejection(StoreError),
    /// The refusal of the proof is made good in the journal.
    CompensateProof(StoreError),
    /// What is held is given back, after the proof was refused.
    SuspendProof(StoreError),
    /// The effect is brought about.
    Apply,
    /// The effect is looked for, after it could not be brought about.
    ObserveFailed(ExternalEffectError),
    /// The source is told that nothing was done, after the effect could not be brought about.
    AbortFailed(ExternalEffectError),
    /// An effect of another intent is written to the journal.
    RecordForeign,
    /// The journal is told that the effect is not known.
    MarkAmbiguous,
    /// The proof of the source is looked for in the journal.
    FindProof,
    /// The effect is looked for once more.
    ObserveApplied,
    /// What was found is written to the journal.
    RecordObservation,
    /// The journal is told that the effect is verified.
    MarkVerified,
    /// The receipt of the phase is committed.
    CommitReceipt,
    /// The source is told that it may move on.
    CompleteSource,
    /// What only the phase needed is given back.
    CleanUp,
    /// The receipt of the phase is there.
    Finished,
}

/// What is found of an effect.
#[derive(Clone, Copy, Debug, PartialEq, Eq, Structural)]
pub enum ObservedEffect {
    Absent,
    /// The effect is there, for the intent of this run.
    Intended,
    /// The effect is there, for another intent.
    Foreign,
    Unknown(ExternalEffectError),
}

/// What is found of an effect that was brought about.
#[derive(Clone, Copy, Debug, PartialEq, Eq, Structural)]
pub enum AppliedEvidence {
    /// The evidence is there, and tells of no other source than the one that was proved.
    Usable,
    /// The evidence is not there, or tells of another source.
    Unusable,
}

/// What the journal says of an intent.
#[derive(Clone, Copy, Debug, PartialEq, Eq, Structural)]
pub enum PhaseJournalStatus {
    Open,
    NeedsReconcile,
}

/// What came back of a step.
#[derive(Clone, Copy, Debug, PartialEq, Eq)]
pub enum PhaseEvent {
    /// It was done.
    Done,
    /// What was looked for was found, or not.
    Found(bool),
    Journal(PhaseJournalStatus),
    Observed(ObservedEffect),
    Evidence(AppliedEvidence),
    Source(Result<(), SourceGateError>),
    Recorded(Result<(), StoreError>),
    Applied(Result<(), ExternalEffectError>),
    Accepted(bool),
}

/// What follows what all projects share: the identity of a backup or a drain, where the phase has one.
pub open spec fn after_resource(
    plan: PhasePlan,
    crash_at: Option<PhaseCrashPoint>,
) -> Result<PhaseStep, PhaseExecutionError> {
    if plan.backup_boundary {
        Ok(PhaseStep::BeginBackupBoundary)
    } else if plan.drain_identity {
        Ok(PhaseStep::BeginDrainIdentity)
    } else if crash_at == Some(PhaseCrashPoint::AfterIntentPersisted) {
        Err(PhaseExecutionError::InjectedCrash(PhaseCrashPoint::AfterIntentPersisted))
    } else {
        Ok(PhaseStep::Observe)
    }
}

fn next_after_resource(
    plan: PhasePlan,
    crash_at: Option<PhaseCrashPoint>,
) -> (r: Result<PhaseStep, PhaseExecutionError>)
    ensures
        r == after_resource(plan, crash_at),
{
    if plan.backup_boundary {
        Ok(PhaseStep::BeginBackupBoundary)
    } else if plan.drain_identity {
        Ok(PhaseStep::BeginDrainIdentity)
    } else if crash_at == Some(PhaseCrashPoint::AfterIntentPersisted) {
        Err(PhaseExecutionError::InjectedCrash(PhaseCrashPoint::AfterIntentPersisted))
    } else {
        Ok(PhaseStep::Observe)
    }
}

/// What follows the project: what all projects share, where the phase uses any of it.
pub open spec fn after_project(
    plan: PhasePlan,
    crash_at: Option<PhaseCrashPoint>,
) -> Result<PhaseStep, PhaseExecutionError> {
    if plan.resource is Some {
        Ok(PhaseStep::AcquireResource)
    } else {
        after_resource(plan, crash_at)
    }
}

fn next_after_project(
    plan: PhasePlan,
    crash_at: Option<PhaseCrashPoint>,
) -> (r: Result<PhaseStep, PhaseExecutionError>)
    ensures
        r == after_project(plan, crash_at),
{
    if plan.resource.is_some() {
        Ok(PhaseStep::AcquireResource)
    } else {
        next_after_resource(plan, crash_at)
    }
}

/// What follows the registry: the project, where the phase needs it for itself.
pub open spec fn after_registry(
    plan: PhasePlan,
    crash_at: Option<PhaseCrashPoint>,
) -> Result<PhaseStep, PhaseExecutionError> {
    if plan.project_lock {
        Ok(PhaseStep::AcquireProject)
    } else {
        after_project(plan, crash_at)
    }
}

fn next_after_registry(
    plan: PhasePlan,
    crash_at: Option<PhaseCrashPoint>,
) -> (r: Result<PhaseStep, PhaseExecutionError>)
    ensures
        r == after_registry(plan, crash_at),
{
    if plan.project_lock {
        Ok(PhaseStep::AcquireProject)
    } else {
        next_after_project(plan, crash_at)
    }
}

/// What follows the disk space: the registry, where the phase uses it.
pub open spec fn after_disk(
    plan: PhasePlan,
    crash_at: Option<PhaseCrashPoint>,
) -> Result<PhaseStep, PhaseExecutionError> {
    if plan.registry {
        Ok(PhaseStep::AcquireRegistry)
    } else {
        after_registry(plan, crash_at)
    }
}

fn next_after_disk(
    plan: PhasePlan,
    crash_at: Option<PhaseCrashPoint>,
) -> (r: Result<PhaseStep, PhaseExecutionError>)
    ensures
        r == after_disk(plan, crash_at),
{
    if plan.registry {
        Ok(PhaseStep::AcquireRegistry)
    } else {
        next_after_registry(plan, crash_at)
    }
}

/// What follows the intent, and what the phase needs after it: disk space first. Once nothing more is
/// needed, the effect is looked for.
pub open spec fn after_persisted(
    plan: PhasePlan,
    crash_at: Option<PhaseCrashPoint>,
    needs_resources: bool,
) -> Result<PhaseStep, PhaseExecutionError> {
    if needs_resources {
        if plan.disk {
            Ok(PhaseStep::ReserveDisk)
        } else {
            after_disk(plan, crash_at)
        }
    } else if crash_at == Some(PhaseCrashPoint::AfterIntentPersisted) {
        Err(PhaseExecutionError::InjectedCrash(PhaseCrashPoint::AfterIntentPersisted))
    } else {
        Ok(PhaseStep::Observe)
    }
}

fn next_after_persisted(
    plan: PhasePlan,
    crash_at: Option<PhaseCrashPoint>,
    needs_resources: bool,
) -> (r: Result<PhaseStep, PhaseExecutionError>)
    ensures
        r == after_persisted(plan, crash_at, needs_resources),
{
    if needs_resources {
        if plan.disk {
            Ok(PhaseStep::ReserveDisk)
        } else {
            next_after_disk(plan, crash_at)
        }
    } else if crash_at == Some(PhaseCrashPoint::AfterIntentPersisted) {
        Err(PhaseExecutionError::InjectedCrash(PhaseCrashPoint::AfterIntentPersisted))
    } else {
        Ok(PhaseStep::Observe)
    }
}

/// What follows the effect: the proof of the source, where the phase must carry it.
pub open spec fn after_effect(
    plan: PhasePlan,
    crash_at: Option<PhaseCrashPoint>,
) -> Result<PhaseStep, PhaseExecutionError> {
    if crash_at == Some(PhaseCrashPoint::AfterEffectApplied) {
        Err(PhaseExecutionError::InjectedCrash(PhaseCrashPoint::AfterEffectApplied))
    } else if plan.proof_phase is Some {
        Ok(PhaseStep::FindProof)
    } else {
        Ok(PhaseStep::ObserveApplied)
    }
}

fn next_after_effect(
    plan: PhasePlan,
    crash_at: Option<PhaseCrashPoint>,
) -> (r: Result<PhaseStep, PhaseExecutionError>)
    ensures
        r == after_effect(plan, crash_at),
{
    if crash_at == Some(PhaseCrashPoint::AfterEffectApplied) {
        Err(PhaseExecutionError::InjectedCrash(PhaseCrashPoint::AfterEffectApplied))
    } else if plan.proof_phase.is_some() {
        Ok(PhaseStep::FindProof)
    } else {
        Ok(PhaseStep::ObserveApplied)
    }
}

/// What follows the receipt: the source is told, where the phase completes it.
pub open spec fn after_receipt(plan: PhasePlan) -> PhaseStep {
    if plan.completes_source {
        PhaseStep::CompleteSource
    } else {
        PhaseStep::CleanUp
    }
}

fn next_after_receipt(plan: PhasePlan) -> (r: PhaseStep)
    ensures
        r == after_receipt(plan),
{
    if plan.completes_source {
        PhaseStep::CompleteSource
    } else {
        PhaseStep::CleanUp
    }
}

/// What follows a step, given what came back of it.
pub open spec fn following_step(
    plan: PhasePlan,
    crash_at: Option<PhaseCrashPoint>,
    step: PhaseStep,
    event: PhaseEvent,
) -> Result<PhaseStep, PhaseExecutionError> {
    match (step, event) {
        (PhaseStep::TakeOver, PhaseEvent::Done) => Ok(PhaseStep::ValidateStart),
        (PhaseStep::ValidateStart, PhaseEvent::Done) => Ok(PhaseStep::FindReceipt),
        (PhaseStep::FindReceipt, PhaseEvent::Found(found)) => if found {
            Ok(after_receipt(plan))
        } else {
            Ok(PhaseStep::BeginIntent)
        },
        (PhaseStep::BeginIntent, PhaseEvent::Journal(status)) => match status {
            PhaseJournalStatus::NeedsReconcile => Ok(PhaseStep::FindRejection),
            PhaseJournalStatus::Open => after_persisted(plan, crash_at, true),
        },
        (PhaseStep::FindRejection, PhaseEvent::Found(found)) => if found {
            Ok(PhaseStep::ObserveRejected)
        } else {
            Err(PhaseExecutionError::NeedsReconcile)
        },
        (PhaseStep::ObserveRejected, PhaseEvent::Observed(ObservedEffect::Absent)) => if plan.live_source {
            Ok(PhaseStep::AbortRejected)
        } else {
            Ok(PhaseStep::CompensateRejected)
        },
        (PhaseStep::ObserveRejected, PhaseEvent::Observed(_)) => Err(PhaseExecutionError::NeedsReconcile),
        (PhaseStep::AbortRejected, PhaseEvent::Source(outcome)) => match outcome {
            Ok(()) => Ok(PhaseStep::CompensateRejected),
            Err(error) => Err(PhaseExecutionError::Source(error)),
        },
        (PhaseStep::CompensateRejected, PhaseEvent::Done) => after_persisted(plan, crash_at, true),
        (PhaseStep::ReserveDisk, PhaseEvent::Done) => after_disk(plan, crash_at),
        (PhaseStep::AcquireRegistry, PhaseEvent::Done) => after_registry(plan, crash_at),
        (PhaseStep::AcquireProject, PhaseEvent::Done) => after_project(plan, crash_at),
        (PhaseStep::AcquireResource, PhaseEvent::Done) => after_resource(plan, crash_at),
        (PhaseStep::BeginBackupBoundary, PhaseEvent::Done) => after_persisted(plan, crash_at, false),
        (PhaseStep::BeginDrainIdentity, PhaseEvent::Done) => after_persisted(plan, crash_at, false),
        (PhaseStep::Observe, PhaseEvent::Observed(observed)) => match observed {
            ObservedEffect::Absent => if plan.live_source {
                Ok(PhaseStep::CheckSource)
            } else {
                Ok(PhaseStep::Apply)
            },
            ObservedEffect::Intended => after_effect(plan, crash_at),
            ObservedEffect::Foreign => Ok(PhaseStep::RecordForeign),
            ObservedEffect::Unknown(error) => Err(PhaseExecutionError::External(error)),
        },
        (PhaseStep::CheckSource, PhaseEvent::Source(outcome)) => match outcome {
            Ok(()) => Ok(PhaseStep::RecordProof),
            Err(error) => Ok(PhaseStep::AbortSource(error)),
        },
        (PhaseStep::AbortSource(error), PhaseEvent::Source(outcome)) => match outcome {
            Ok(()) => Ok(PhaseStep::SuspendSource(error)),
            Err(failed) => Err(PhaseExecutionError::Source(failed)),
        },
        (PhaseStep::SuspendSource(error), PhaseEvent::Done) => Err(
            PhaseExecutionError::Source(error),
        ),
        (PhaseStep::RecordProof, PhaseEvent::Recorded(outcome)) => match outcome {
            Ok(()) => Ok(PhaseStep::Apply),
            Err(error) => Ok(PhaseStep::AbortProof(error)),
        },
        (PhaseStep::AbortProof(error), PhaseEvent::Source(outcome)) => match outcome {
            Ok(()) => Ok(PhaseStep::FindProofRejection(error)),
            Err(failed) => Err(PhaseExecutionError::Source(failed)),
        },
        (PhaseStep::FindProofRejection(error), PhaseEvent::Found(found)) => if found {
            Ok(PhaseStep::CompensateProof(error))
        } else {
            Ok(PhaseStep::SuspendProof(error))
        },
        (PhaseStep::CompensateProof(error), PhaseEvent::Done) => Ok(PhaseStep::SuspendProof(error)),
        (PhaseStep::SuspendProof(error), PhaseEvent::Done) => Err(
            PhaseExecutionError::Store(error),
        ),
        (PhaseStep::Apply, PhaseEvent::Applied(outcome)) => match outcome {
            Ok(()) => after_effect(plan, crash_at),
            Err(error) => Ok(PhaseStep::ObserveFailed(error)),
        },
        (PhaseStep::ObserveFailed(error), PhaseEvent::Observed(observed)) => match observed {
            ObservedEffect::Absent => if plan.live_source {
                Ok(PhaseStep::AbortFailed(error))
            } else {
                Err(PhaseExecutionError::External(error))
            },
            ObservedEffect::Intended => after_effect(plan, crash_at),
            ObservedEffect::Foreign => Ok(PhaseStep::RecordForeign),
            ObservedEffect::Unknown(_) => Ok(PhaseStep::MarkAmbiguous),
        },
        (PhaseStep::AbortFailed(error), PhaseEvent::Source(outcome)) => match outcome {
            Ok(()) => Err(PhaseExecutionError::External(error)),
            Err(failed) => Err(PhaseExecutionError::Source(failed)),
        },
        (PhaseStep::RecordForeign, PhaseEvent::Accepted(_)) => Err(PhaseExecutionError::NeedsReconcile),
        (PhaseStep::MarkAmbiguous, PhaseEvent::Done) => Err(PhaseExecutionError::NeedsReconcile),
        (PhaseStep::FindProof, PhaseEvent::Found(found)) => if found {
            Ok(PhaseStep::ObserveApplied)
        } else {
            Ok(PhaseStep::MarkAmbiguous)
        },
        (PhaseStep::ObserveApplied, PhaseEvent::Evidence(outcome)) => match outcome {
            AppliedEvidence::Usable => Ok(PhaseStep::RecordObservation),
            AppliedEvidence::Unusable => Ok(PhaseStep::MarkAmbiguous),
        },
        (PhaseStep::RecordObservation, PhaseEvent::Accepted(accepted)) => if !accepted {
            Err(PhaseExecutionError::NeedsReconcile)
        } else if crash_at == Some(PhaseCrashPoint::AfterObservationPersisted) {
            Err(PhaseExecutionError::InjectedCrash(PhaseCrashPoint::AfterObservationPersisted))
        } else {
            Ok(PhaseStep::MarkVerified)
        },
        (PhaseStep::MarkVerified, PhaseEvent::Done) => if crash_at == Some(PhaseCrashPoint::AfterVerificationPersisted) {
            Err(PhaseExecutionError::InjectedCrash(PhaseCrashPoint::AfterVerificationPersisted))
        } else {
            Ok(PhaseStep::CommitReceipt)
        },
        (PhaseStep::CommitReceipt, PhaseEvent::Done) => if crash_at == Some(PhaseCrashPoint::AfterReceiptCommitted) {
            Err(PhaseExecutionError::InjectedCrash(PhaseCrashPoint::AfterReceiptCommitted))
        } else {
            Ok(after_receipt(plan))
        },
        (PhaseStep::CompleteSource, PhaseEvent::Source(outcome)) => match outcome {
            Ok(()) => Ok(PhaseStep::CleanUp),
            Err(_) => Err(PhaseExecutionError::NeedsReconcile),
        },
        (PhaseStep::CleanUp, PhaseEvent::Done) => Ok(PhaseStep::Finished),
        _ => Err(PhaseExecutionError::UnexpectedEvent),
    }
}

/// The step that a run begins with.
pub open spec fn first_phase_step(plan: PhasePlan) -> PhaseStep {
    if plan.takes_over {
        PhaseStep::TakeOver
    } else {
        PhaseStep::ValidateStart
    }
}

/// What the journal is told of an operation when a phase starts: its phases in their order, and
/// whether it may be rolled back.
#[derive(Debug)]
pub struct ExecutorPhasePlan {
    pub ordered_phases: Vec<OperationPhase>,
    pub may_roll_back: bool,
}

impl OperationRecord {
    /// The operation may be rolled back: it is a deployment whose class leaves the data compatible.
    pub open spec fn may_roll_back(self) -> bool {
        self.operation_kind is Deploy && (self.release_class == Some(
            ReleaseClass::CodeOnlyCompatible,
        ) || self.release_class == Some(ReleaseClass::StatefulCompatible))
    }
}

/// What the journal is told of an operation when a phase starts.
pub fn executor_phase_plan(operation: &OperationRecord) -> (r: Result<
    ExecutorPhasePlan,
    OperationContractError,
>)
    ensures
        match r {
            Ok(plan) => {
                &&& operation.operation_kind.plan(operation.release_class) == Some(
                    plan.ordered_phases@,
                )
                &&& plan.may_roll_back == operation.may_roll_back()
            },
            Err(error) => operation.operation_kind.plan(operation.release_class) is None && error
                == OperationContractError::ReleaseClassMismatch,
        },
{
    match operation.operation_kind.required_phases(operation.release_class) {
        Err(error) => Err(error),
        Ok(ordered_phases) => {
            let compatible = operation.release_class == Some(ReleaseClass::CodeOnlyCompatible)
                || operation.release_class == Some(ReleaseClass::StatefulCompatible);
            Ok(
                ExecutorPhasePlan {
                    ordered_phases,
                    may_roll_back: operation.operation_kind == OperationKind::Deploy && compatible,
                },
            )
        },
    }
}

/// A run of a phase: what it is about to do, by what authority, what the journal is told of the
/// operation, and how far it has come.
#[derive(Debug)]
pub struct PhaseRun {
    pub intent: PhaseIntent,
    pub authorization_digest: EvidenceDigest,
    pub journal_plan: ExecutorPhasePlan,
    pub plan: PhasePlan,
    pub crash_at: Option<PhaseCrashPoint>,
    pub step: PhaseStep,
}

/// What keeps a phase from being carried out at all.
pub open spec fn phase_start_fault(operation: OperationRecord, recovered: bool) -> Option<
    PhaseExecutionError,
> {
    if !recovered {
        Some(PhaseExecutionError::Store(StoreError::SecurityRecoveryRequired))
    } else if !(operation.state.result is Running) || operation.state.phase is Reconciliation {
        Some(PhaseExecutionError::InvalidOperationState)
    } else if !has_capability(operation) {
        Some(
            PhaseExecutionError::Store(
                StoreError::CorruptController(
                    "operation is missing its executor authorization evidence",
                ),
            ),
        )
    } else if document_digest(authorization_json(operation)) is None {
        Some(PhaseExecutionError::Store(StoreError::Encoding))
    } else {
        None
    }
}

/// Where no payload of an operation can be encoded under one digest of its authority, none can be
/// under another of the same text.
proof fn lemma_no_intent(operation: OperationRecord, digest: EvidenceDigest)
    requires
        forall|payload: PhaseIntentPayloadV1| #[trigger]
            payload.describes(operation, digest) ==> document_digest(payload.json()) is None,
    ensures
        forall|payload: PhaseIntentPayloadV1, other: EvidenceDigest|
            #![trigger payload.describes(operation, other)]
            payload.describes(operation, other) && other@ == digest@ ==> document_digest(
                payload.json(),
            ) is None,
{
    assert forall|payload: PhaseIntentPayloadV1, other: EvidenceDigest|
        #![trigger payload.describes(operation, other)]
        payload.describes(operation, other) && other@ == digest@ implies document_digest(
        payload.json(),
    ) is None by {
        let same = PhaseIntentPayloadV1 { executor_authorization_digest: digest, ..payload };
        assert(same.describes(operation, digest));
        law_intents_of_one_operation_agree(same, payload, operation, digest, other);
    }
}

impl PhaseRun {
    /// What comes of beginning a run of the present phase of an operation, in a project whose journal
    /// was recovered or not.
    pub open spec fn begun(
        operation: OperationRecord,
        recovered: bool,
        backup_authorized: bool,
        crash_at: Option<PhaseCrashPoint>,
        r: Result<PhaseRun, PhaseExecutionError>,
    ) -> bool {
        match r {
            Ok(run) => {
                &&& phase_start_fault(operation, recovered) is None
                &&& operation.operation_kind.plan(operation.release_class) == Some(
                    run.journal_plan.ordered_phases@,
                )
                &&& run.journal_plan.may_roll_back == operation.may_roll_back()
                &&& run.intent.payload.describes(operation, run.authorization_digest)
                &&& run.intent.sealed()
                &&& run.intent.attempt_id == operation.attempt_id
                &&& run.intent.phase == operation.state.phase
                &&& run.intent.branch == operation.branch()
                &&& document_digest(authorization_json(operation)) == Some(
                    run.authorization_digest@,
                )
                &&& run.plan == plan_of(operation, backup_authorized)
                &&& run.crash_at == crash_at
                &&& run.step == first_phase_step(run.plan)
            },
            Err(error) => match phase_start_fault(operation, recovered) {
                Some(fault) => error == fault,
                None => if error == PhaseExecutionError::Store(StoreError::Encoding) {
                    forall|payload: PhaseIntentPayloadV1, digest: EvidenceDigest|
                        #![trigger payload.describes(operation, digest)]
                        payload.describes(operation, digest) && document_digest(
                            authorization_json(operation),
                        ) == Some(digest@) ==> document_digest(payload.json()) is None
                } else {
                    operation.operation_kind.plan(operation.release_class) is None && error
                        == PhaseExecutionError::Store(
                        StoreError::Contract(OperationContractError::ReleaseClassMismatch),
                    )
                },
            },
        }
    }

    /// Begins a run of the present phase of an operation.
    pub fn begin(
        operation: &OperationRecord,
        recovered: bool,
        backup_authorized: bool,
        crash_at: Option<PhaseCrashPoint>,
    ) -> (r: Result<PhaseRun, PhaseExecutionError>)
        ensures
            PhaseRun::begun(*operation, recovered, backup_authorized, crash_at, r),
    {
        if !recovered {
            return Err(PhaseExecutionError::Store(StoreError::SecurityRecoveryRequired));
        }
        if operation.state.result != OperationResult::Running || operation.state.phase
            == OperationPhase::Reconciliation {
            return Err(PhaseExecutionError::InvalidOperationState);
        }
        let authorization_digest = match executor_authorization_digest(operation) {
            Err(error) => return Err(PhaseExecutionError::Store(error)),
            Ok(digest) => digest,
        };
        let intent = match PhaseIntent::from_operation(operation, authorization_digest.clone()) {
            Err(error) => {
                proof {
                    lemma_no_intent(*operation, authorization_digest);
                }
                return Err(PhaseExecutionError::Store(error));
            },
            Ok(intent) => intent,
        };
        let journal_plan = match executor_phase_plan(operation) {
            Err(error) => return Err(PhaseExecutionError::Store(StoreError::Contract(error))),
            Ok(plan) => plan,
        };
        let plan = phase_plan(operation, backup_authorized);
        let step = if plan.takes_over {
            PhaseStep::TakeOver
        } else {
            PhaseStep::ValidateStart
        };
        Ok(
            PhaseRun {
                intent,
                authorization_digest,
                journal_plan,
                plan,
                crash_at,
                step,
            },
        )
    }

    /// What is found of the effect: it is the one of this run exactly where it was brought about for
    /// its intent.
    pub open spec fn effect(
        self,
        found: Result<EffectObservation, ExternalEffectError>,
    ) -> ObservedEffect {
        match found {
            Err(error) => ObservedEffect::Unknown(error),
            Ok(EffectObservation::Absent) => ObservedEffect::Absent,
            Ok(EffectObservation::Applied(evidence)) => if evidence.intent_digest@
                == self.intent.digest@ {
                ObservedEffect::Intended
            } else {
                ObservedEffect::Foreign
            },
        }
    }

    pub fn effect_of(&self, found: &Result<EffectObservation, ExternalEffectError>) -> (r:
        ObservedEffect)
        ensures
            r == self.effect(*found),
    {
        match found {
            Err(error) => ObservedEffect::Unknown(*error),
            Ok(EffectObservation::Absent) => ObservedEffect::Absent,
            Ok(EffectObservation::Applied(evidence)) => if evidence.intent_digest
                == self.intent.digest {
                ObservedEffect::Intended
            } else {
                ObservedEffect::Foreign
            },
        }
    }

    /// Goes on with a run once a step was done.
    pub fn advance(&mut self, event: PhaseEvent) -> (r: Result<(), PhaseExecutionError>)
        ensures
            match r {
                Ok(()) => {
                    &&& following_step(old(self).plan, old(self).crash_at, old(self).step, event)
                        == Ok::<_, PhaseExecutionError>(final(self).step)
                    &&& *final(self) == (PhaseRun { step: final(self).step, ..*old(self) })
                },
                Err(error) => {
                    &&& following_step(old(self).plan, old(self).crash_at, old(self).step, event)
                        == Err::<PhaseStep, _>(error)
                    &&& *final(self) == *old(self)
                },
            },
    {
        match next_step(self.plan, self.crash_at, self.step, event) {
            Err(error) => Err(error),
            Ok(step) => {
                self.step = step;
                Ok(())
            },
        }
    }
}

fn next_step(
    plan: PhasePlan,
    crash_at: Option<PhaseCrashPoint>,
    step: PhaseStep,
    event: PhaseEvent,
) -> (r: Result<PhaseStep, PhaseExecutionError>)
    ensures
        r == following_step(plan, crash_at, step, event),
{
    match (step, event) {
        (PhaseStep::TakeOver, PhaseEvent::Done) => Ok(PhaseStep::ValidateStart),
        (PhaseStep::ValidateStart, PhaseEvent::Done) => Ok(PhaseStep::FindReceipt),
        (PhaseStep::FindReceipt, PhaseEvent::Found(found)) => if found {
            Ok(next_after_receipt(plan))
        } else {
            Ok(PhaseStep::BeginIntent)
        },
        (PhaseStep::BeginIntent, PhaseEvent::Journal(status)) => match status {
            PhaseJournalStatus::NeedsReconcile => Ok(PhaseStep::FindRejection),
            PhaseJournalStatus::Open => next_after_persisted(plan, crash_at, true),
        },
        (PhaseStep::FindRejection, PhaseEvent::Found(found)) => if found {
            Ok(PhaseStep::ObserveRejected)
        } else {
            Err(PhaseExecutionError::NeedsReconcile)
        },
        (PhaseStep::ObserveRejected, PhaseEvent::Observed(ObservedEffect::Absent)) => if plan.live_source {
            Ok(PhaseStep::AbortRejected)
        } else {
            Ok(PhaseStep::CompensateRejected)
        },
        (PhaseStep::ObserveRejected, PhaseEvent::Observed(_)) => Err(PhaseExecutionError::NeedsReconcile),
        (PhaseStep::AbortRejected, PhaseEvent::Source(outcome)) => match outcome {
            Ok(()) => Ok(PhaseStep::CompensateRejected),
            Err(error) => Err(PhaseExecutionError::Source(error)),
        },
        (PhaseStep::CompensateRejected, PhaseEvent::Done) => next_after_persisted(plan, crash_at, true),
        (PhaseStep::ReserveDisk, PhaseEvent::Done) => next_after_disk(plan, crash_at),
        (PhaseStep::AcquireRegistry, PhaseEvent::Done) => next_after_registry(plan, crash_at),
        (PhaseStep::AcquireProject, PhaseEvent::Done) => next_after_project(plan, crash_at),
        (PhaseStep::AcquireResource, PhaseEvent::Done) => next_after_resource(plan, crash_at),
        (PhaseStep::BeginBackupBoundary, PhaseEvent::Done) => next_after_persisted(plan, crash_at, false),
        (PhaseStep::BeginDrainIdentity, PhaseEvent::Done) => next_after_persisted(plan, crash_at, false),
        (PhaseStep::Observe, PhaseEvent::Observed(observed)) => match observed {
            ObservedEffect::Absent => if plan.live_source {
                Ok(PhaseStep::CheckSource)
            } else {
                Ok(PhaseStep::Apply)
            },
            ObservedEffect::Intended => next_after_effect(plan, crash_at),
            ObservedEffect::Foreign => Ok(PhaseStep::RecordForeign),
            ObservedEffect::Unknown(error) => Err(PhaseExecutionError::External(error)),
        },
        (PhaseStep::CheckSource, PhaseEvent::Source(outcome)) => match outcome {
            Ok(()) => Ok(PhaseStep::RecordProof),
            Err(error) => Ok(PhaseStep::AbortSource(error)),
        },
        (PhaseStep::AbortSource(error), PhaseEvent::Source(outcome)) => match outcome {
            Ok(()) => Ok(PhaseStep::SuspendSource(error)),
            Err(failed) => Err(PhaseExecutionError::Source(failed)),
        },
        (PhaseStep::SuspendSource(error), PhaseEvent::Done) => Err(
            PhaseExecutionError::Source(error),
        ),
        (PhaseStep::RecordProof, PhaseEvent::Recorded(outcome)) => match outcome {
            Ok(()) => Ok(PhaseStep::Apply),
            Err(error) => Ok(PhaseStep::AbortProof(error)),
        },
        (PhaseStep::AbortProof(error), PhaseEvent::Source(outcome)) => match outcome {
            Ok(()) => Ok(PhaseStep::FindProofRejection(error)),
            Err(failed) => Err(PhaseExecutionError::Source(failed)),
        },
        (PhaseStep::FindProofRejection(error), PhaseEvent::Found(found)) => if found {
            Ok(PhaseStep::CompensateProof(error))
        } else {
            Ok(PhaseStep::SuspendProof(error))
        },
        (PhaseStep::CompensateProof(error), PhaseEvent::Done) => Ok(PhaseStep::SuspendProof(error)),
        (PhaseStep::SuspendProof(error), PhaseEvent::Done) => Err(
            PhaseExecutionError::Store(error),
        ),
        (PhaseStep::Apply, PhaseEvent::Applied(outcome)) => match outcome {
            Ok(()) => next_after_effect(plan, crash_at),
            Err(error) => Ok(PhaseStep::ObserveFailed(error)),
        },
        (PhaseStep::ObserveFailed(error), PhaseEvent::Observed(observed)) => match observed {
            ObservedEffect::Absent => if plan.live_source {
                Ok(PhaseStep::AbortFailed(error))
            } else {
                Err(PhaseExecutionError::External(error))
            },
            ObservedEffect::Intended => next_after_effect(plan, crash_at),
            ObservedEffect::Foreign => Ok(PhaseStep::RecordForeign),
            ObservedEffect::Unknown(_) => Ok(PhaseStep::MarkAmbiguous),
        },
        (PhaseStep::AbortFailed(error), PhaseEvent::Source(outcome)) => match outcome {
            Ok(()) => Err(PhaseExecutionError::External(error)),
            Err(failed) => Err(PhaseExecutionError::Source(failed)),
        },
        (PhaseStep::RecordForeign, PhaseEvent::Accepted(_)) => Err(PhaseExecutionError::NeedsReconcile),
        (PhaseStep::MarkAmbiguous, PhaseEvent::Done) => Err(PhaseExecutionError::NeedsReconcile),
        (PhaseStep::FindProof, PhaseEvent::Found(found)) => if found {
            Ok(PhaseStep::ObserveApplied)
        } else {
            Ok(PhaseStep::MarkAmbiguous)
        },
        (PhaseStep::ObserveApplied, PhaseEvent::Evidence(outcome)) => match outcome {
            AppliedEvidence::Usable => Ok(PhaseStep::RecordObservation),
            AppliedEvidence::Unusable => Ok(PhaseStep::MarkAmbiguous),
        },
        (PhaseStep::RecordObservation, PhaseEvent::Accepted(accepted)) => if !accepted {
            Err(PhaseExecutionError::NeedsReconcile)
        } else if crash_at == Some(PhaseCrashPoint::AfterObservationPersisted) {
            Err(PhaseExecutionError::InjectedCrash(PhaseCrashPoint::AfterObservationPersisted))
        } else {
            Ok(PhaseStep::MarkVerified)
        },
        (PhaseStep::MarkVerified, PhaseEvent::Done) => if crash_at == Some(PhaseCrashPoint::AfterVerificationPersisted) {
            Err(PhaseExecutionError::InjectedCrash(PhaseCrashPoint::AfterVerificationPersisted))
        } else {
            Ok(PhaseStep::CommitReceipt)
        },
        (PhaseStep::CommitReceipt, PhaseEvent::Done) => if crash_at == Some(PhaseCrashPoint::AfterReceiptCommitted) {
            Err(PhaseExecutionError::InjectedCrash(PhaseCrashPoint::AfterReceiptCommitted))
        } else {
            Ok(next_after_receipt(plan))
        },
        (PhaseStep::CompleteSource, PhaseEvent::Source(outcome)) => match outcome {
            Ok(()) => Ok(PhaseStep::CleanUp),
            Err(_) => Err(PhaseExecutionError::NeedsReconcile),
        },
        (PhaseStep::CleanUp, PhaseEvent::Done) => Ok(PhaseStep::Finished),
        _ => Err(PhaseExecutionError::UnexpectedEvent),
    }
}

/// The place of a step in the order of a run.
pub open spec fn step_rank(step: PhaseStep) -> int {
    match step {
        PhaseStep::TakeOver => 0,
        PhaseStep::ValidateStart => 1,
        PhaseStep::FindReceipt => 2,
        PhaseStep::BeginIntent => 3,
        PhaseStep::FindRejection => 4,
        PhaseStep::ObserveRejected => 5,
        PhaseStep::AbortRejected => 6,
        PhaseStep::CompensateRejected => 7,
        PhaseStep::ReserveDisk => 8,
        PhaseStep::AcquireRegistry => 9,
        PhaseStep::AcquireProject => 10,
        PhaseStep::AcquireResource => 11,
        PhaseStep::BeginBackupBoundary => 12,
        PhaseStep::BeginDrainIdentity => 13,
        PhaseStep::Observe => 14,
        PhaseStep::CheckSource => 15,
        PhaseStep::AbortSource(_) => 16,
        PhaseStep::SuspendSource(_) => 17,
        PhaseStep::RecordProof => 18,
        PhaseStep::AbortProof(_) => 19,
        PhaseStep::FindProofRejection(_) => 20,
        PhaseStep::CompensateProof(_) => 21,
        PhaseStep::SuspendProof(_) => 22,
        PhaseStep::Apply => 23,
        PhaseStep::ObserveFailed(_) => 24,
        PhaseStep::AbortFailed(_) => 25,
        PhaseStep::RecordForeign => 26,
        PhaseStep::FindProof => 27,
        PhaseStep::ObserveApplied => 28,
        PhaseStep::MarkAmbiguous => 29,
        PhaseStep::RecordObservation => 30,
        PhaseStep::MarkVerified => 31,
        PhaseStep::CommitReceipt => 32,
        PhaseStep::CompleteSource => 33,
        PhaseStep::CleanUp => 34,
        PhaseStep::Finished => 35,
    }
}

/// Every step leads further, so a run ends.
#[verifier::spinoff_prover]
#[verifier::rlimit(40)]
pub proof fn law_runs_end(
    plan: PhasePlan,
    crash_at: Option<PhaseCrashPoint>,
    step: PhaseStep,
    event: PhaseEvent,
)
    ensures
        following_step(plan, crash_at, step, event) matches Ok(next) ==> step_rank(next)
            > step_rank(step),
{
}

/// An effect is brought about only after it was looked for and not found; where the source must
/// still be the head, only after it was asked and its proof was written down.
pub proof fn law_effects_are_applied_once(
    plan: PhasePlan,
    crash_at: Option<PhaseCrashPoint>,
    step: PhaseStep,
    event: PhaseEvent,
)
    requires
        following_step(plan, crash_at, step, event) == Ok::<_, PhaseExecutionError>(
            PhaseStep::Apply,
        ),
    ensures
        (step is Observe && event == PhaseEvent::Observed(ObservedEffect::Absent)
            && !plan.live_source) || (step is RecordProof && (event matches PhaseEvent::Recorded(Ok(_)))),
{
}

/// The proof of a source is written down only after the source said that it is the head, and the
/// source is asked only where the effect was not found.
pub proof fn law_proofs_follow_the_source(
    plan: PhasePlan,
    crash_at: Option<PhaseCrashPoint>,
    step: PhaseStep,
    event: PhaseEvent,
)
    ensures
        following_step(plan, crash_at, step, event) == Ok::<_, PhaseExecutionError>(
            PhaseStep::RecordProof,
        ) ==> step is CheckSource && (event matches PhaseEvent::Source(Ok(_))),
        following_step(plan, crash_at, step, event) == Ok::<_, PhaseExecutionError>(
            PhaseStep::CheckSource,
        ) ==> step is Observe && plan.live_source && event == PhaseEvent::Observed(
            ObservedEffect::Absent,
        ),
{
}

/// A receipt is committed only for an effect that was observed, accepted by the journal and
/// verified, and a run that finishes has found or committed one.
pub proof fn law_receipts_follow_verification(
    plan: PhasePlan,
    crash_at: Option<PhaseCrashPoint>,
    step: PhaseStep,
    event: PhaseEvent,
)
    ensures
        following_step(plan, crash_at, step, event) == Ok::<_, PhaseExecutionError>(
            PhaseStep::CommitReceipt,
        ) ==> step is MarkVerified,
        following_step(plan, crash_at, step, event) == Ok::<_, PhaseExecutionError>(
            PhaseStep::MarkVerified,
        ) ==> step is RecordObservation && event == PhaseEvent::Accepted(true),
        following_step(plan, crash_at, step, event) == Ok::<_, PhaseExecutionError>(
            PhaseStep::RecordObservation,
        ) ==> step is ObserveApplied && event == PhaseEvent::Evidence(AppliedEvidence::Usable),
        following_step(plan, crash_at, step, event) == Ok::<_, PhaseExecutionError>(
            PhaseStep::CleanUp,
        ) ==> step is FindReceipt || step is CommitReceipt || step is CompleteSource,
{
}

/// An effect of another intent is never taken for the effect of this one: the run ends in
/// reconciliation.
pub proof fn law_foreign_effects_need_reconciliation(
    plan: PhasePlan,
    crash_at: Option<PhaseCrashPoint>,
    step: PhaseStep,
    accepted: bool,
)
    requires
        step is Observe || step is ObserveFailed,
    ensures
        following_step(plan, crash_at, step, PhaseEvent::Observed(ObservedEffect::Foreign)) == Ok::<
            _,
            PhaseExecutionError,
        >(PhaseStep::RecordForeign),
        following_step(plan, crash_at, PhaseStep::RecordForeign, PhaseEvent::Accepted(accepted))
            == Err::<PhaseStep, _>(PhaseExecutionError::NeedsReconcile),
{
}

/// A phase whose receipt is there is not carried out again.
pub proof fn law_committed_phases_are_not_repeated(
    plan: PhasePlan,
    crash_at: Option<PhaseCrashPoint>,
)
    ensures
        following_step(plan, crash_at, PhaseStep::FindReceipt, PhaseEvent::Found(true)) == Ok::<
            _,
            PhaseExecutionError,
        >(after_receipt(plan)),
        step_rank(after_receipt(plan)) > step_rank(PhaseStep::Apply),
{
}

} // verus!
