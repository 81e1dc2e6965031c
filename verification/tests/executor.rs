use rdashboard::controller::admission::{
    AdmissionOutcome, AutomationRows, DeliveryChannel, FreshIdentities, NewOperation,
    VerifiedAutomationAdmission,
};
use rdashboard::controller::{DurableController, StoreError};
use rdashboard::domain::artifacts::{ExecutorPhaseBranch, PhaseArtifacts, PhaseReceipt};
use rdashboard::domain::identifiers::{EvidenceDigest, GitCommitId, ProjectId};
use rdashboard::domain::operation::{InstalledPolicyIdentity, OperationKind, ReleaseClass};
use rdashboard::domain::record::OperationRecord;
use rdashboard::domain::states::{BlockingReason, OperationPhase, OperationResult};
use rdashboard::executor::coordinator::{
    CoordinatorCrashPoint, CoordinatorError, CoordinatorEvent, CoordinatorStep, DurableCoordinator,
    FenceOwner, RollbackStart,
};
use rdashboard::executor::effects::{
    deterministic_phase_artifacts, DeterministicModelEffects, ExternalEffects,
};
use rdashboard::executor::fences::{
    check_source_for_fence, operation_identity_for_phase, projects_to_recover, refresh_stateful_source_before_fence, BackupBoundaryLease,
    DrainIdentityLease, DurableExecutor, FenceCrashPoint, FenceExecutionError, FenceGoal,
    FenceProjection, FenceRecovery, FenceRun, FenceRunEvent, FenceRunStep, FenceSourceCheck,
    PhaseOperationIdentityLeaseV1,
};
use rdashboard::executor::intent::{executor_authorization_digest, PhaseIntent};
use rdashboard::executor::phase_steps::{
    executor_phase_plan, phase_plan, AppliedEvidence, ExternalEffectError, ObservedEffect, PhaseCrashPoint, PhaseEvent,
    PhaseExecutionError, PhaseJournalStatus, PhaseRun, PhaseStep,
};
use rdashboard::executor::recovery::{RecoveryEvent, RecoveryStep};
use rdashboard::executor::rules::{
    is_retryable_source_block, usable_evidence, CommittedSource, EffectObservation, ExecutionResource,
    PhaseEffectEvidence, ResourceRelease, SourceGateError,
};
use rdashboard::fence_adapter::{FenceJournalState, FenceLease, FenceObservation};
use rdashboard::unique_id::Uuid;

type Executor = DurableExecutor<(), DeterministicModelEffects, (), ()>;
type Coordinator = DurableCoordinator<(), (), DeterministicModelEffects, (), ()>;

fn digest(label: &str) -> EvidenceDigest {
    EvidenceDigest::sha256(label.as_bytes())
}

fn project() -> ProjectId {
    ProjectId::parse("ralert").expect("project")
}

fn deploy(release_class: ReleaseClass) -> OperationRecord {
    let commit = GitCommitId::parse(&"c".repeat(40)).expect("commit");
    let verified = VerifiedAutomationAdmission {
        operation: NewOperation {
            project_id: project(),
            operation_kind: OperationKind::Deploy,
            target_commit: Some(commit.clone()),
            release_class: Some(release_class),
            installed_policy: InstalledPolicyIdentity { digest: digest("policy"), version: 1 },
        },
        delivery_channel: DeliveryChannel::GithubWebhook,
        delivery_id: "delivery-1".to_owned(),
        payload_digest: digest("payload"),
        source_attestation_digest: digest("attestation"),
        accepted_head: commit,
        accepted_sequence: 5,
        maximum_attempts: 1,
    };
    let rows = AutomationRows { delivery: None, request_id: None, latest: None, attempts: Vec::new() };
    let fresh = FreshIdentities {
        request_id: Uuid::from_u128(10),
        operation_id: Uuid::from_u128(11),
        attempt_id: Uuid::from_u128(12),
    };
    match DurableController::new(()).admit_automation(&verified, rows, fresh, 100).expect("admitted") {
        AdmissionOutcome::Created(operation) => operation,
        AdmissionOutcome::Existing(_) => panic!("nothing was there"),
    }
}

fn at(release_class: ReleaseClass, phase: OperationPhase) -> OperationRecord {
    let mut operation = deploy(release_class);
    operation.state.phase = phase;
    operation
}

fn intent(operation: &OperationRecord) -> PhaseIntent {
    let authorization = executor_authorization_digest(operation).expect("authorization");
    PhaseIntent::from_operation(operation, authorization).expect("intent")
}

fn run(operation: &OperationRecord) -> PhaseRun {
    PhaseRun::begin(operation, true, false, None).expect("run")
}

fn observed(effects: &mut DeterministicModelEffects, run: &PhaseRun) -> ObservedEffect {
    run.effect_of(&effects.observe_phase(&run.intent))
}

fn drive(
    run: &mut PhaseRun,
    effects: &mut DeterministicModelEffects,
) -> (Vec<PhaseStep>, Result<(), PhaseExecutionError>) {
    let mut steps = Vec::new();
    while run.step != PhaseStep::Finished {
        steps.push(run.step);
        assert!(steps.len() < 40);
        let event = match run.step {
            PhaseStep::FindReceipt | PhaseStep::FindRejection => PhaseEvent::Found(false),
            PhaseStep::FindProof => PhaseEvent::Found(true),
            PhaseStep::BeginIntent => PhaseEvent::Journal(PhaseJournalStatus::Open),
            PhaseStep::Observe | PhaseStep::ObserveFailed(_) => {
                PhaseEvent::Observed(observed(effects, run))
            }
            PhaseStep::CheckSource
            | PhaseStep::CompleteSource
            | PhaseStep::AbortSource(_)
            | PhaseStep::AbortFailed(_) => PhaseEvent::Source(Ok(())),
            PhaseStep::RecordProof => PhaseEvent::Recorded(Ok(())),
            PhaseStep::Apply => PhaseEvent::Applied(effects.apply_phase(&run.intent)),
            PhaseStep::ObserveApplied => PhaseEvent::Evidence(
                if observed(effects, run) == ObservedEffect::Intended {
                    AppliedEvidence::Usable
                } else {
                    AppliedEvidence::Unusable
                },
            ),
            PhaseStep::RecordObservation | PhaseStep::RecordForeign => PhaseEvent::Accepted(true),
            _ => PhaseEvent::Done,
        };
        if let Err(error) = run.advance(event) {
            return (steps, Err(error));
        }
    }
    (steps, Ok(()))
}

#[test]
fn a_deploying_phase_checks_its_source_before_it_changes_anything() {
    let operation = at(ReleaseClass::CodeOnlyCompatible, OperationPhase::Deploying);
    let mut effects = DeterministicModelEffects::default();
    let (steps, outcome) = drive(&mut run(&operation), &mut effects);
    assert_eq!(outcome, Ok(()));
    assert_eq!(
        steps,
        vec![
            PhaseStep::ValidateStart,
            PhaseStep::FindReceipt,
            PhaseStep::BeginIntent,
            PhaseStep::ReserveDisk,
            PhaseStep::AcquireRegistry,
            PhaseStep::AcquireProject,
            PhaseStep::Observe,
            PhaseStep::CheckSource,
            PhaseStep::RecordProof,
            PhaseStep::Apply,
            PhaseStep::FindProof,
            PhaseStep::ObserveApplied,
            PhaseStep::RecordObservation,
            PhaseStep::MarkVerified,
            PhaseStep::CommitReceipt,
            PhaseStep::CompleteSource,
            PhaseStep::CleanUp,
        ]
    );
    assert_eq!(effects.phase_mutations(operation.attempt_id, OperationPhase::Deploying), Ok(1));
}

#[test]
fn an_effect_is_not_applied_again_after_a_crash() {
    let operation = at(ReleaseClass::CodeOnlyCompatible, OperationPhase::Testing);
    for point in [
        PhaseCrashPoint::AfterIntentPersisted,
        PhaseCrashPoint::AfterEffectApplied,
        PhaseCrashPoint::AfterObservationPersisted,
        PhaseCrashPoint::AfterVerificationPersisted,
        PhaseCrashPoint::AfterReceiptCommitted,
    ] {
        let mut effects = DeterministicModelEffects::default();
        let mut crashing = PhaseRun::begin(&operation, true, false, Some(point)).expect("run");
        let (_, outcome) = drive(&mut crashing, &mut effects);
        assert_eq!(outcome, Err(PhaseExecutionError::InjectedCrash(point)));
        let (steps, outcome) = drive(&mut run(&operation), &mut effects);
        assert_eq!(outcome, Ok(()));
        assert!(steps.contains(&PhaseStep::AcquireResource));
        assert_eq!(effects.phase_mutations(operation.attempt_id, OperationPhase::Testing), Ok(1));
    }
}

#[test]
fn a_receipt_that_is_there_ends_a_run() {
    let operation = at(ReleaseClass::CodeOnlyCompatible, OperationPhase::Testing);
    let mut again = run(&operation);
    assert_eq!(again.advance(PhaseEvent::Done), Ok(()));
    assert_eq!(again.advance(PhaseEvent::Found(true)), Ok(()));
    assert_eq!(again.step, PhaseStep::CleanUp);
    assert_eq!(again.advance(PhaseEvent::Found(true)), Err(PhaseExecutionError::UnexpectedEvent));
    assert_eq!(again.advance(PhaseEvent::Done), Ok(()));
    assert_eq!(again.step, PhaseStep::Finished);
}

#[test]
fn effects_that_fail_or_belong_to_others_stop_a_run() {
    let operation = at(ReleaseClass::CodeOnlyCompatible, OperationPhase::Testing);
    let attempt_id = operation.attempt_id;
    let mut effects = DeterministicModelEffects::default();
    assert_eq!(effects.fail_next_phase_before_effect(attempt_id, OperationPhase::Testing), Ok(()));
    let (steps, outcome) = drive(&mut run(&operation), &mut effects);
    assert_eq!(outcome, Err(PhaseExecutionError::External(ExternalEffectError::ConflictingState)));
    assert!(matches!(steps.last(), Some(PhaseStep::ObserveFailed(_))));
    assert_eq!(effects.phase_application_attempts(attempt_id, OperationPhase::Testing), Ok(1));
    assert_eq!(effects.phase_mutations(attempt_id, OperationPhase::Testing), Ok(0));

    assert_eq!(
        effects.force_phase_effect(attempt_id, OperationPhase::Testing, digest("another intent")),
        Ok(())
    );
    let (steps, outcome) = drive(&mut run(&operation), &mut effects);
    assert_eq!(outcome, Err(PhaseExecutionError::NeedsReconcile));
    assert_eq!(steps.last(), Some(&PhaseStep::RecordForeign));

    let building = at(ReleaseClass::CodeOnlyCompatible, OperationPhase::Building);
    let mut hiding = PhaseRun::begin(
        &building,
        true,
        false,
        Some(PhaseCrashPoint::AfterEffectApplied),
    )
    .expect("run");
    let (_, outcome) = drive(&mut hiding, &mut effects);
    assert_eq!(
        outcome,
        Err(PhaseExecutionError::InjectedCrash(PhaseCrashPoint::AfterEffectApplied))
    );
    assert_eq!(
        effects.hide_next_applied_phase_observation(attempt_id, OperationPhase::Building),
        Ok(())
    );
    assert_eq!(observed(&mut effects, &hiding), ObservedEffect::Absent);
    assert_eq!(observed(&mut effects, &hiding), ObservedEffect::Intended);
    assert_eq!(
        effects.phase_mutations_in_branch(
            attempt_id,
            OperationPhase::Building,
            ExecutorPhaseBranch::RollbackRecovery
        ),
        Ok(0)
    );
}

#[test]
fn a_source_that_fails_gives_everything_back() {
    let operation = at(ReleaseClass::CodeOnlyCompatible, OperationPhase::Deploying);
    let mut failing = run(&operation);
    while failing.step != PhaseStep::CheckSource {
        let event = match failing.step {
            PhaseStep::FindReceipt => PhaseEvent::Found(false),
            PhaseStep::BeginIntent => PhaseEvent::Journal(PhaseJournalStatus::Open),
            PhaseStep::Observe => PhaseEvent::Observed(ObservedEffect::Absent),
            _ => PhaseEvent::Done,
        };
        assert_eq!(failing.advance(event), Ok(()));
    }
    assert_eq!(failing.advance(PhaseEvent::Source(Err(SourceGateError::Paused))), Ok(()));
    assert_eq!(failing.step, PhaseStep::AbortSource(SourceGateError::Paused));
    assert_eq!(failing.advance(PhaseEvent::Source(Ok(()))), Ok(()));
    assert_eq!(failing.step, PhaseStep::SuspendSource(SourceGateError::Paused));
    assert_eq!(
        failing.advance(PhaseEvent::Done),
        Err(PhaseExecutionError::Source(SourceGateError::Paused))
    );
    assert_eq!(
        OperationRecord::suspend_pre_mutation_resources(OperationPhase::Deploying),
        vec![
            ResourceRelease::Resource(ExecutionResource::GlobalLocalRegistry),
            ResourceRelease::DiskReservation,
            ResourceRelease::Resource(ExecutionResource::GlobalLocalRegistry),
            ResourceRelease::Resource(ExecutionResource::ProjectDeploy),
        ]
    );
}

#[test]
fn runs_need_a_recovered_journal_and_a_running_operation() {
    let operation = deploy(ReleaseClass::CodeOnlyCompatible);
    assert_eq!(
        PhaseRun::begin(&operation, false, false, None).err(),
        Some(PhaseExecutionError::Store(StoreError::SecurityRecoveryRequired))
    );
    let mut ended = deploy(ReleaseClass::CodeOnlyCompatible);
    ended.state.result = OperationResult::Failed;
    assert_eq!(
        PhaseRun::begin(&ended, true, false, None).err(),
        Some(PhaseExecutionError::InvalidOperationState)
    );
    let reconciling = at(ReleaseClass::CodeOnlyCompatible, OperationPhase::Reconciliation);
    assert_eq!(
        PhaseRun::begin(&reconciling, true, false, None).err(),
        Some(PhaseExecutionError::InvalidOperationState)
    );
}

#[test]
fn intents_change_with_their_phase_and_keep_their_authority() {
    let testing = intent(&at(ReleaseClass::CodeOnlyCompatible, OperationPhase::Testing));
    let building = intent(&at(ReleaseClass::CodeOnlyCompatible, OperationPhase::Building));
    assert_eq!(testing.has_valid_digest(), Ok(true));
    assert_ne!(testing.digest, building.digest);
    assert_eq!(
        testing.payload.executor_authorization_digest,
        building.payload.executor_authorization_digest
    );
    let mut changed = building;
    changed.digest = digest("changed");
    assert_eq!(changed.has_valid_digest(), Ok(false));
}

#[test]
fn stateful_phases_have_identities_of_their_own_attempt() {
    let attempt_id = Uuid::from_u128(12);
    let other = Uuid::from_u128(13);
    let backing = at(ReleaseClass::StatefulCompatible, OperationPhase::BackingUp);
    let plan = phase_plan(&backing, true);
    assert!(plan.backup_boundary && plan.live_source && !plan.completes_source);
    assert_eq!(
        operation_identity_for_phase(plan, attempt_id, Some(BackupBoundaryLease { attempt_id }), None),
        Ok(Some(PhaseOperationIdentityLeaseV1::BaseBackup(BackupBoundaryLease { attempt_id })))
    );
    assert_eq!(
        operation_identity_for_phase(
            plan,
            attempt_id,
            Some(BackupBoundaryLease { attempt_id: other }),
            None
        ),
        Err(PhaseExecutionError::NeedsReconcile)
    );
    let draining = at(ReleaseClass::StatefulCompatible, OperationPhase::Draining);
    let plan = phase_plan(&draining, true);
    assert!(plan.drain_identity);
    assert_eq!(plan.proof_phase, Some(OperationPhase::BackingUp));
    assert_eq!(
        operation_identity_for_phase(plan, attempt_id, None, Some(DrainIdentityLease { attempt_id })),
        Ok(Some(PhaseOperationIdentityLeaseV1::Drain(DrainIdentityLease { attempt_id })))
    );
    assert_eq!(
        operation_identity_for_phase(plan, attempt_id, None, None),
        Err(PhaseExecutionError::NeedsReconcile)
    );
    let plain = phase_plan(&at(ReleaseClass::CodeOnlyCompatible, OperationPhase::Testing), false);
    assert_eq!(operation_identity_for_phase(plain, attempt_id, None, None), Ok(None));
}

fn lease(state: FenceJournalState) -> FenceLease {
    FenceLease {
        journal_id: 1,
        project_id: project(),
        attempt_id: Uuid::from_u128(12),
        epoch: 3,
        token: Uuid::from_u128(30),
        created_at_ms: 100,
        state,
        release_safe_receipt_digest: None,
    }
}

fn drive_fence(goal: FenceGoal, effects: &mut DeterministicModelEffects) -> Result<(), FenceExecutionError> {
    let state = match goal {
        FenceGoal::Acquire => FenceJournalState::AcquireIntent,
        FenceGoal::Release => FenceJournalState::ReleaseIntent,
    };
    let mut run = FenceRun::begin(goal, lease(state), None)?;
    while run.step != FenceRunStep::Finished {
        let event = match run.step {
            FenceRunStep::Observe => {
                FenceRunEvent::Observed(effects.observe_fence(&project()).expect("fence"))
            }
            FenceRunStep::Apply => FenceRunEvent::Applied(match goal {
                FenceGoal::Acquire => effects.acquire_fence(&run.lease),
                FenceGoal::Release => effects.release_fence(&run.lease),
            }),
            FenceRunStep::FindLease => FenceRunEvent::Found(true),
            _ => FenceRunEvent::Projected(
                match effects.observe_fence(&project()).expect("fence") {
                    FenceObservation::Released => FenceProjection::Released,
                    found if run.lease.is_observed(found) => FenceProjection::Held,
                    _ => FenceProjection::NeedsReconcile,
                },
            ),
        };
        run.advance(event)?;
    }
    Ok(())
}

#[test]
fn fences_are_acquired_and_released_again() {
    let mut effects = DeterministicModelEffects::default();
    assert_eq!(drive_fence(FenceGoal::Acquire, &mut effects), Ok(()));
    assert!(lease(FenceJournalState::Held)
        .is_observed(effects.observe_fence(&project()).expect("fence")));
    assert_eq!(drive_fence(FenceGoal::Acquire, &mut effects), Ok(()));
    assert_eq!(drive_fence(FenceGoal::Release, &mut effects), Ok(()));
    assert_eq!(effects.observe_fence(&project()), Ok(FenceObservation::Released));
    assert_eq!(drive_fence(FenceGoal::Release, &mut effects), Ok(()));
}

#[test]
fn fences_of_others_are_left_alone() {
    let mut effects = DeterministicModelEffects::default();
    let foreign = Uuid::from_u128(99);
    assert_eq!(effects.force_fence(project(), foreign, 9, foreign), Ok(()));
    assert_eq!(
        drive_fence(FenceGoal::Acquire, &mut effects),
        Err(FenceExecutionError::NeedsReconcile)
    );
    assert_eq!(
        drive_fence(FenceGoal::Release, &mut effects),
        Err(FenceExecutionError::NeedsReconcile)
    );
    assert_eq!(
        effects.observe_fence(&project()),
        Ok(FenceObservation::Held { attempt_id: foreign, epoch: 9, token: foreign })
    );
    assert_eq!(
        effects.acquire_fence(&lease(FenceJournalState::AcquireIntent)),
        Err(ExternalEffectError::ConflictingState)
    );
}

#[test]
fn fence_runs_stop_where_they_are_told_to() {
    assert_eq!(
        FenceRun::begin(FenceGoal::Acquire, lease(FenceJournalState::NeedsReconcile), None).err(),
        Some(FenceExecutionError::NeedsReconcile)
    );
    assert_eq!(
        FenceRun::begin(
            FenceGoal::Release,
            lease(FenceJournalState::ReleaseIntent),
            Some(FenceCrashPoint::AfterIntentPersisted)
        )
        .err(),
        Some(FenceExecutionError::InjectedCrash(FenceCrashPoint::AfterIntentPersisted))
    );
    let mut run = FenceRun::begin(
        FenceGoal::Acquire,
        lease(FenceJournalState::AcquireIntent),
        Some(FenceCrashPoint::AfterObservationPersisted),
    )
    .expect("run");
    assert_eq!(run.advance(FenceRunEvent::Observed(FenceObservation::Released)), Ok(()));
    assert_eq!(
        run.advance(FenceRunEvent::Observed(FenceObservation::Released)),
        Err(FenceExecutionError::UnexpectedEvent)
    );
    assert_eq!(run.advance(FenceRunEvent::Applied(Ok(()))), Ok(()));
    assert_eq!(
        run.advance(FenceRunEvent::Projected(FenceProjection::Held)),
        Err(FenceExecutionError::InjectedCrash(FenceCrashPoint::AfterObservationPersisted))
    );
    let mut lost =
        FenceRun::begin(FenceGoal::Acquire, lease(FenceJournalState::AcquireIntent), None).expect("run");
    assert_eq!(lost.advance(FenceRunEvent::Observed(FenceObservation::Released)), Ok(()));
    assert_eq!(lost.advance(FenceRunEvent::Applied(Ok(()))), Ok(()));
    assert_eq!(lost.advance(FenceRunEvent::Projected(FenceProjection::Held)), Ok(()));
    assert_eq!(lost.step, FenceRunStep::FindLease);
    assert_eq!(lost.advance(FenceRunEvent::Found(false)), Err(FenceExecutionError::NeedsReconcile));
    let mut failing =
        FenceRun::begin(FenceGoal::Acquire, lease(FenceJournalState::AcquireIntent), None).expect("run");
    assert_eq!(failing.advance(FenceRunEvent::Observed(FenceObservation::Released)), Ok(()));
    assert_eq!(
        failing.advance(FenceRunEvent::Applied(Err(ExternalEffectError::StatePoisoned))),
        Err(FenceExecutionError::External(ExternalEffectError::StatePoisoned))
    );
}

#[test]
fn the_journal_says_where_a_fence_was_going() {
    assert_eq!(
        lease(FenceJournalState::Held).reconcile_active_fence(),
        FenceRecovery::Resume(FenceGoal::Acquire)
    );
    assert_eq!(
        lease(FenceJournalState::ReleaseIntent).reconcile_active_fence(),
        FenceRecovery::NeedsReconcile
    );
    let mut safe = lease(FenceJournalState::ReleaseIntent);
    safe.release_safe_receipt_digest = Some(digest("soak"));
    assert_eq!(safe.reconcile_active_fence(), FenceRecovery::Resume(FenceGoal::Release));
    assert_eq!(lease(FenceJournalState::Released).reconcile_active_fence(), FenceRecovery::Settled);
}

#[test]
fn effects_are_told_apart_by_their_intent() {
    let operation = at(ReleaseClass::CodeOnlyCompatible, OperationPhase::Deploying);
    let run = run(&operation);
    let applied = |intent_digest: EvidenceDigest, proof: Option<EvidenceDigest>| {
        EffectObservation::Applied(Box::new(PhaseEffectEvidence {
            intent_digest,
            observation_digest: digest("observation"),
            artifacts: PhaseArtifacts { source_gate_proof_digest: proof, ..PhaseArtifacts::default() },
        }))
    };
    let own = || run.intent.digest.clone();
    assert_eq!(run.effect_of(&Ok(applied(own(), None))), ObservedEffect::Intended);
    assert_eq!(run.effect_of(&Ok(applied(digest("another"), None))), ObservedEffect::Foreign);
    assert_eq!(run.effect_of(&Ok(EffectObservation::Absent)), ObservedEffect::Absent);
    let poisoned = ExternalEffectError::StatePoisoned;
    assert_eq!(run.effect_of(&Err(poisoned)), ObservedEffect::Unknown(poisoned));

    let proof = Some(digest("proof"));
    let usable = usable_evidence(Ok(applied(own(), None)), proof.clone()).expect("usable");
    assert_eq!(usable.artifacts.source_gate_proof_digest, proof);
    assert!(usable_evidence(Ok(applied(own(), proof.clone())), None).is_some());
    assert!(usable_evidence(Ok(applied(own(), Some(digest("other")))), proof.clone()).is_none());
    assert!(usable_evidence(Ok(EffectObservation::Absent), proof.clone()).is_none());
    assert!(usable_evidence(Err(poisoned), proof).is_none());
}

#[test]
fn the_source_before_the_fence_is_the_one_that_was_recorded() {
    let recorded = Some(digest("proof"));
    assert_eq!(check_source_for_fence(&Ok(digest("proof")), &recorded), Ok(()));
    let reconcile = Err(PhaseExecutionError::NeedsReconcile);
    assert_eq!(check_source_for_fence(&Ok(digest("other")), &recorded), reconcile);
    assert_eq!(check_source_for_fence(&Ok(digest("proof")), &None), reconcile);
    assert_eq!(check_source_for_fence(&Err(SourceGateError::HeadSuperseded), &recorded), reconcile);
    assert_eq!(
        check_source_for_fence(&Err(SourceGateError::Unavailable), &recorded),
        Err(PhaseExecutionError::Source(SourceGateError::Unavailable))
    );
    let held = lease(FenceJournalState::Held);
    assert_eq!(FenceOwner::of(&None, held.attempt_id), FenceOwner::Nobody);
    let attempt = held.attempt_id;
    let active = Some(held);
    assert_eq!(FenceOwner::of(&active, attempt), FenceOwner::ThisAttempt);
    assert_eq!(FenceOwner::of(&active, Uuid::from_u128(99)), FenceOwner::OtherAttempt);
    assert_eq!(
        CommittedSource::Completed.after_ticket(&Err(SourceGateError::Unavailable)),
        CommittedSource::Ambiguous
    );
    assert_eq!(CommittedSource::Completed.after_ticket(&Ok(())), CommittedSource::Completed);
    assert_eq!(
        CommittedSource::Elsewhere.after_ticket(&Err(SourceGateError::Unavailable)),
        CommittedSource::Elsewhere
    );
}

#[test]
fn the_source_is_asked_before_the_fence() {
    let cutover = at(ReleaseClass::StatefulBreaking, OperationPhase::CutoverSnapshotting);
    assert_eq!(refresh_stateful_source_before_fence(&cutover, &None), FenceSourceCheck::AskSource);
    assert_eq!(
        refresh_stateful_source_before_fence(&cutover, &Some(lease(FenceJournalState::Held))),
        FenceSourceCheck::Ready
    );
    assert_eq!(
        refresh_stateful_source_before_fence(&cutover, &Some(lease(FenceJournalState::ReleaseIntent))),
        FenceSourceCheck::NeedsReconcile
    );
    assert_eq!(
        refresh_stateful_source_before_fence(&deploy(ReleaseClass::StatefulBreaking), &None),
        FenceSourceCheck::InvalidOperationState
    );
}

fn executor() -> Executor {
    DurableExecutor::new((), DeterministicModelEffects::default())
}

#[test]
fn projects_are_recovered_one_by_one() {
    let mut executor = executor();
    assert_eq!(
        executor.require_recovery(&project()),
        Err(StoreError::SecurityRecoveryRequired)
    );
    let other = ProjectId::parse("rcore").expect("project");
    let projects = vec![project(), other.clone(), project()];
    assert_eq!(projects_to_recover(&projects), Ok(vec![project(), other.clone()]));
    assert!(matches!(
        executor.recover_security_state(&Vec::new()).err(),
        Some(FenceExecutionError::Store(StoreError::InvalidControllerInput(_)))
    ));
    assert_eq!(
        executor.finish_recovery(&project(), FenceProjection::NeedsReconcile),
        Err(FenceExecutionError::NeedsReconcile)
    );
    assert!(!executor.is_recovered(&project()));
    assert_eq!(executor.finish_recovery(&project(), FenceProjection::Held), Ok(()));
    assert!(executor.is_recovered(&project()) && !executor.is_recovered(&other));
    let operation = deploy(ReleaseClass::CodeOnlyCompatible);
    assert!(executor.execute_phase(&operation, false, None).is_ok());
    assert!(executor.acquire_write_fence(lease(FenceJournalState::AcquireIntent), None).is_ok());
    executor.begin_recovery(&project());
    assert!(!executor.is_recovered(&project()));
    let required = FenceExecutionError::Store(StoreError::SecurityRecoveryRequired);
    assert_eq!(
        executor.release_write_fence(lease(FenceJournalState::ReleaseIntent), None).err(),
        Some(required)
    );
    assert_eq!(
        executor.execute_phase(&operation, false, None).err(),
        Some(PhaseExecutionError::Store(StoreError::SecurityRecoveryRequired))
    );
}

#[test]
fn recovery_leaves_every_project_recovered() {
    let mut executor = executor();
    let other = ProjectId::parse("rcore").expect("project");
    let mut run = executor
        .recover_security_state(&vec![other.clone(), project(), other.clone()])
        .expect("run");
    let (first, second) = (run.projects[0].clone(), run.projects[1].clone());
    assert_eq!(run.projects.len(), 2);
    assert_eq!(run.step, RecoveryStep::FindFence);
    assert_eq!(
        executor.advance_recovery(&mut run, RecoveryEvent::Projected(FenceProjection::Held)),
        Err(FenceExecutionError::UnexpectedEvent)
    );
    let found = RecoveryEvent::Found(Some(lease(FenceJournalState::Held)));
    assert_eq!(executor.advance_recovery(&mut run, found), Ok(()));
    assert_eq!(run.step, RecoveryStep::BeginFence(FenceGoal::Acquire));
    let begun = RecoveryEvent::Begun(lease(FenceJournalState::Held));
    assert_eq!(executor.advance_recovery(&mut run, begun), Ok(()));
    let held = FenceObservation::Held {
        attempt_id: Uuid::from_u128(12),
        epoch: 3,
        token: Uuid::from_u128(30),
    };
    for event in [
        FenceRunEvent::Observed(held),
        FenceRunEvent::Projected(FenceProjection::Held),
        FenceRunEvent::Found(true),
    ] {
        assert_eq!(run.step, RecoveryStep::BringFence);
        assert_eq!(executor.advance_recovery(&mut run, RecoveryEvent::Fence(event)), Ok(()));
    }
    assert_eq!(run.step, RecoveryStep::Observe);
    assert!(!executor.is_recovered(&first));
    let clear = RecoveryEvent::Projected(FenceProjection::Held);
    assert_eq!(executor.advance_recovery(&mut run, clear), Ok(()));
    assert!(executor.is_recovered(&first) && !executor.is_recovered(&second));
    assert_eq!(executor.advance_recovery(&mut run, RecoveryEvent::Found(None)), Ok(()));
    assert_eq!(
        executor.advance_recovery(&mut run, RecoveryEvent::Projected(FenceProjection::NeedsReconcile)),
        Err(FenceExecutionError::NeedsReconcile)
    );
    assert!(executor.is_recovered(&first) && !executor.is_recovered(&second));
    let clear = RecoveryEvent::Projected(FenceProjection::Released);
    assert_eq!(executor.advance_recovery(&mut run, clear), Ok(()));
    assert_eq!(run.step, RecoveryStep::Finished);
    assert!(executor.is_recovered(&first) && executor.is_recovered(&second));
    assert_eq!(
        executor.advance_recovery(&mut run, RecoveryEvent::Found(None)),
        Err(FenceExecutionError::UnexpectedEvent)
    );
}

#[test]
fn reconciled_fences_keep_what_was_recovered() {
    let mut executor = executor();
    executor.mark_recovered(&project());
    let mut elsewhere = lease(FenceJournalState::Released);
    elsewhere.project_id = ProjectId::parse("rcore").expect("project");
    let other = elsewhere.project_id.clone();
    let mut run = executor.reconcile_active_fences(&vec![lease(FenceJournalState::Held), elsewhere]);
    assert!(run.was_recovered && !executor.is_recovered(&project()));
    let broken = RecoveryEvent::Found(Some(lease(FenceJournalState::NeedsReconcile)));
    assert_eq!(
        executor.advance_recovery(&mut run, broken),
        Err(FenceExecutionError::NeedsReconcile)
    );
    assert!(!executor.is_recovered(&project()));
    assert_eq!(executor.advance_recovery(&mut run, RecoveryEvent::Found(None)), Ok(()));
    assert!(executor.is_recovered(&project()) && !run.was_recovered);
    let settled = RecoveryEvent::Found(Some(lease(FenceJournalState::Released)));
    assert_eq!(executor.advance_recovery(&mut run, settled), Ok(()));
    assert_eq!(run.step, RecoveryStep::Finished);
    assert!(executor.is_recovered(&project()) && !executor.is_recovered(&other));
    assert_eq!(executor.reconcile_active_fences(&Vec::new()).step, RecoveryStep::Finished);
}

#[test]
fn the_journal_is_told_the_phases() {
    for (class, may_roll_back) in [
        (ReleaseClass::CodeOnlyCompatible, true),
        (ReleaseClass::StatefulCompatible, true),
        (ReleaseClass::StatefulBreaking, false),
    ] {
        let plan = executor_phase_plan(&deploy(class)).expect("plan");
        assert_eq!(plan.ordered_phases, class.required_phases());
        assert_eq!(plan.may_roll_back, may_roll_back);
        assert_eq!(run(&deploy(class)).journal_plan.may_roll_back, may_roll_back);
    }
    let mut unclassed = deploy(ReleaseClass::CodeOnlyCompatible);
    unclassed.release_class = None;
    assert!(executor_phase_plan(&unclassed).is_err());
}

fn coordinator() -> Coordinator {
    let mut executor = executor();
    assert_eq!(executor.finish_recovery(&project(), FenceProjection::Released), Ok(()));
    DurableCoordinator::new(DurableController::new(()), executor)
}

fn first_step(operation: OperationRecord) -> CoordinatorStep {
    coordinator()
        .advance_once(operation.attempt_id, &Some(operation), None)
        .expect("run")
        .step
}

#[test]
fn operations_are_advanced_from_where_they_stand() {
    let class = ReleaseClass::CodeOnlyCompatible;
    assert_eq!(first_step(deploy(class)), CoordinatorStep::ExecutePhase);
    let mut waiting = deploy(class);
    waiting.state.blocking_reason = BlockingReason::DiskReserve;
    assert_eq!(first_step(waiting), CoordinatorStep::Settled);
    let mut asking = deploy(class);
    asking.state.blocking_reason = BlockingReason::SourceBrokerUnavailable;
    assert_eq!(first_step(asking), CoordinatorStep::ExecutePhase);
    assert!(is_retryable_source_block(BlockingReason::SourceBrokerUnavailable));
    assert!(!is_retryable_source_block(BlockingReason::OperatorHold));

    let id = Uuid::from_u128(12);
    assert_eq!(
        coordinator().advance_once(id, &None, None).err(),
        Some(CoordinatorError::Store(StoreError::OperationNotFound(id)))
    );
    let unrecovered: Coordinator = DurableCoordinator::new(DurableController::new(()), executor());
    assert_eq!(
        unrecovered.advance_once(id, &Some(deploy(class)), None).err(),
        Some(CoordinatorError::Store(StoreError::SecurityRecoveryRequired))
    );
}

fn after(outcome: Result<(), PhaseExecutionError>) -> Result<CoordinatorStep, CoordinatorError> {
    let operation = deploy(ReleaseClass::CodeOnlyCompatible);
    let mut run = coordinator()
        .advance_once(operation.attempt_id, &Some(operation), None)
        .expect("run");
    run.advance(CoordinatorEvent::Executed(outcome))?;
    Ok(run.step)
}

#[test]
fn what_a_phase_came_to_decides_what_is_done() {
    assert_eq!(after(Ok(())), Ok(CoordinatorStep::CommitReceipt));
    assert_eq!(
        after(Err(PhaseExecutionError::NeedsReconcile)),
        Ok(CoordinatorStep::MarkNeedsReconcile)
    );
    assert_eq!(
        after(Err(PhaseExecutionError::Source(SourceGateError::HeadSuperseded))),
        Ok(CoordinatorStep::Supersede)
    );
    assert_eq!(
        after(Err(PhaseExecutionError::Source(SourceGateError::Diverged))),
        Ok(CoordinatorStep::SetSourceBlock(BlockingReason::SourceDivergence))
    );
    assert_eq!(
        after(Err(PhaseExecutionError::Store(StoreError::DiskReservationCapacity))),
        Ok(CoordinatorStep::SetDiskBlock)
    );
    assert_eq!(
        after(Err(PhaseExecutionError::InvalidOperationState)),
        Err(CoordinatorError::Executor(PhaseExecutionError::InvalidOperationState))
    );
    let operation = deploy(ReleaseClass::CodeOnlyCompatible);
    let mut crashing = coordinator()
        .advance_once(
            operation.attempt_id,
            &Some(operation),
            Some(CoordinatorCrashPoint::AfterSecurityReceipt),
        )
        .expect("run");
    assert_eq!(
        crashing.advance(CoordinatorEvent::Executed(Ok(()))),
        Err(CoordinatorError::InjectedCrash(CoordinatorCrashPoint::AfterSecurityReceipt))
    );
    assert_eq!(
        crashing.advance(CoordinatorEvent::Fence(FenceOwner::Nobody)),
        Err(CoordinatorError::UnexpectedEvent)
    );
}

#[test]
fn rollbacks_begin_only_where_there_is_something_to_roll_back() {
    let id = Uuid::from_u128(12);
    assert_eq!(
        coordinator().begin_rollback(id, Some(deploy(ReleaseClass::CodeOnlyCompatible))).err(),
        Some(CoordinatorError::Store(StoreError::TransitionRejected))
    );
    let missing = coordinator().begin_rollback(id, None);
    assert!(!matches!(missing, Ok(RollbackStart::TakeOver(_))));
    let cancelled = coordinator()
        .cancel_before_mutation(id, Some(deploy(ReleaseClass::CodeOnlyCompatible)), 200)
        .expect("cancelled");
    assert_eq!(cancelled.operation.state.result, OperationResult::Cancelled);
    assert_eq!(
        coordinator()
            .retry_disk_reservation(id, Some(deploy(ReleaseClass::CodeOnlyCompatible)), 200)
            .err(),
        Some(CoordinatorError::Store(StoreError::TransitionRejected))
    );
    let capsule = SourceGateError::Unavailable.source_failure_capsule();
    let failed = coordinator()
        .fail_before_mutation(id, Some(deploy(ReleaseClass::CodeOnlyCompatible)), capsule, 200)
        .expect("failed");
    assert_eq!(failed.operation.state.result, OperationResult::Failed);
    assert_eq!(
        failed.operation.failure_capsule.expect("capsule").error.code,
        "source_broker_unavailable"
    );
}

#[test]
fn ended_attempts_give_everything_back() {
    let mut building = at(ReleaseClass::CodeOnlyCompatible, OperationPhase::Building);
    assert_eq!(building.cleanup_terminal_resources(), Vec::new());
    building.state.result = OperationResult::Failed;
    assert_eq!(
        building.cleanup_terminal_resources(),
        vec![
            ResourceRelease::Resource(ExecutionResource::ProjectDeploy),
            ResourceRelease::DiskReservation,
            ResourceRelease::Resource(ExecutionResource::GlobalLocalRegistry),
            ResourceRelease::Resource(ExecutionResource::GlobalBuild),
        ]
    );
    assert_eq!(
        OperationRecord::cleanup_ephemeral_resource(OperationPhase::Migrating),
        vec![ResourceRelease::Resource(ExecutionResource::GlobalHeavyIo)]
    );
}

#[test]
fn a_proof_of_the_source_is_added_but_never_replaced() {
    let evidence = |proof: Option<EvidenceDigest>| PhaseEffectEvidence {
        intent_digest: digest("intent"),
        observation_digest: digest("observation"),
        artifacts: PhaseArtifacts { source_gate_proof_digest: proof, ..PhaseArtifacts::default() },
    };
    let proof = digest("proof");
    let added = evidence(None).with_source_proof(Some(proof.clone())).expect("added");
    assert_eq!(added.artifacts.source_gate_proof_digest, Some(proof.clone()));
    assert!(evidence(Some(digest("other"))).with_source_proof(Some(proof)).is_none());
}

#[test]
fn committed_sources_need_both_receipts_and_the_proof() {
    let operation = deploy(ReleaseClass::CodeOnlyCompatible);
    assert_eq!(
        operation.reconcile_committed_source(true, &None, &Some(digest("proof"))),
        CommittedSource::InvalidOperationState
    );
    let deploying = at(ReleaseClass::CodeOnlyCompatible, OperationPhase::Deploying);
    let intent = intent(&deploying);
    let mut artifacts = deterministic_phase_artifacts(&intent);
    artifacts.source_gate_proof_digest = Some(digest("proof"));
    let receipt = PhaseReceipt::new(
        intent.attempt_id,
        intent.phase,
        intent.branch,
        intent.digest,
        digest("observation"),
        artifacts,
        150,
    )
    .expect("receipt");
    let controller = DurableController::new(());
    let capsule = rdashboard::executor::rules::reconciliation_capsule(OperationPhase::Deploying);
    let mut left = controller
        .mark_needs_reconcile(deploying.attempt_id, Some(walked_to_deploying()), capsule, 300)
        .expect("reconciling")
        .operation;
    assert_eq!(left.state.phase, OperationPhase::Reconciliation);
    assert_eq!(
        left.reconcile_committed_source(true, &Some(receipt), &Some(digest("proof"))),
        CommittedSource::Completed
    );
    assert_eq!(
        left.reconcile_committed_source(false, &None, &Some(digest("proof"))),
        CommittedSource::Ambiguous
    );
    left.release_class = Some(ReleaseClass::StatefulCompatible);
    assert_eq!(
        left.reconcile_committed_source(true, &None, &None),
        CommittedSource::Elsewhere
    );
}

fn walked_to_deploying() -> OperationRecord {
    let mut operation = deploy(ReleaseClass::CodeOnlyCompatible);
    while operation.state.phase != OperationPhase::Deploying {
        let intent = intent(&operation);
        let artifacts = deterministic_phase_artifacts(&intent);
        let receipt = PhaseReceipt::new(
            intent.attempt_id,
            intent.phase,
            intent.branch,
            intent.digest,
            digest("observation"),
            artifacts,
            150,
        )
        .expect("receipt");
        operation = DurableController::new(())
            .commit_phase_receipt(Some(operation), &receipt, 160)
            .expect("committed")
            .operation;
    }
    operation
}

#[test]
fn what_a_phase_puts_out_can_be_set() {
    let operation = at(ReleaseClass::CodeOnlyCompatible, OperationPhase::HealthChecking);
    let mut effects = DeterministicModelEffects::default();
    let artifacts =
        PhaseArtifacts { health_evidence_digest: Some(digest("health")), ..PhaseArtifacts::default() };
    let phase = OperationPhase::HealthChecking;
    assert_eq!(effects.set_phase_artifacts(operation.attempt_id, phase, artifacts), Ok(()));
    let wanted = intent(&operation);
    assert_eq!(effects.apply_phase(&wanted), Ok(()));
    match effects.observe_phase(&wanted) {
        Ok(EffectObservation::Applied(evidence)) => {
            assert_eq!(evidence.artifacts.health_evidence_digest, Some(digest("health")));
        }
        _ => panic!("the effect is there"),
    }
}
