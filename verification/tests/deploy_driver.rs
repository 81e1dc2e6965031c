use rdashboard::controller::StoreError;
use rdashboard::deploy_driver::candidate::InstalledDeployEffectsV1;
use rdashboard::deploy_driver::drive::{
    drive_pending_deploy_jobs_until, AcceptedDeployJobDriverV1, DeployCancellationV1, DeployEvent,
    DeployJobAnswers, DeployRun, DeployStart, DeployStep, InstalledDeployOperationDriverV1,
    PendingDeployJobV1,
};
use rdashboard::deploy_driver::phase_spec::{deploy_journal_plan, AuthorizedPhaseSpecV1};
use rdashboard::deploy_driver::receipts::{project_existing_deploy_receipts, DeployReceipts};
use rdashboard::deploy_driver::{
    candidate_to_load, needs_base_backup, reconstruct_deploy_operation, validate_accepted_deploy,
    validate_policy_state_binding, validate_release_shape, AcceptedMutationV1, AuthorizationSource,
    BuildReleaseAttestationV1, DeployDriverError, InstalledDeployMutationPolicyV1,
    InstalledReleaseStateV1, InstalledRimgPolicyV1, PreparedInstalledDeploymentV1, ReleaseBundleV1,
    RuntimeCandidateArtifactsV1,
};
use rdashboard::domain::artifacts::{ExecutorPhaseBranch, PhaseArtifacts, PhaseReceipt};
use rdashboard::domain::identifiers::{EvidenceDigest, GitCommitId, ProjectId};
use rdashboard::domain::operation::{
    InstalledPolicyIdentity, OperationContractError, OperationKind, OperationRecoveryMode, ReleaseClass,
};
use rdashboard::domain::record::OperationRecord;
use rdashboard::domain::states::{OperationPhase, OperationResult};
use rdashboard::executor::effects::{
    deterministic_phase_artifacts, DeterministicModelEffects, ExternalEffects,
};
use rdashboard::executor::intent::PhaseIntent;
use rdashboard::executor::phase_steps::PhaseExecutionError;
use rdashboard::executor::rules::EffectObservation;
use rdashboard::fence_adapter::{FenceJournalState, FenceLease, FenceObservation};
use rdashboard::unique_id::Uuid;

fn digest(label: &str) -> EvidenceDigest {
    EvidenceDigest::sha256(label.as_bytes())
}

fn project() -> ProjectId {
    ProjectId::parse("rimg").unwrap_or_else(|error| panic!("project: {error:?}"))
}

fn installed_policy() -> InstalledPolicyIdentity {
    InstalledPolicyIdentity { digest: digest("installed policy"), version: 1 }
}

fn mutation_policy() -> InstalledDeployMutationPolicyV1 {
    InstalledDeployMutationPolicyV1 {
        project_id: project(),
        installed_policy: installed_policy(),
        installed_rimg_policy_digest: digest("rimg policy"),
        document_digest: digest("deploy policy"),
        chronyc_sha256: digest("chronyc executable"),
    }
}

fn accepted(policy: &InstalledDeployMutationPolicyV1) -> AcceptedMutationV1 {
    AcceptedMutationV1 {
        intent_id: Uuid::from_u128(1),
        attempt_id: Uuid::from_u128(2),
        request_id: Uuid::from_u128(3),
        project_id: project(),
        operation_kind: OperationKind::Deploy,
        target_commit: Some(
            GitCommitId::parse("aaaaaaaaaaaaaaaaaaaaaaaaaaaaaaaaaaaaaaaa")
                .unwrap_or_else(|error| panic!("commit: {error:?}")),
        ),
        effective_release_class: Some(ReleaseClass::CodeOnlyCompatible),
        installed_policy_digest: policy.document_digest.clone(),
        source_attestation_digest: Some(digest("source attestation")),
        source_sequence: Some(7),
        release_bundle_digest: Some(digest("candidate")),
        build_attestation_digest: Some(digest("build attestation")),
        migration_id: None,
        previous_release_bundle_digest: None,
        intent_expires_at_ms: 40_000,
        actor_id: Uuid::from_u128(4),
        action_grant_nonce: Uuid::from_u128(5),
        action_grant_digest: digest("action grant"),
        grant_expires_at_ms: 35_000,
        accepted_at_ms: 10_000,
    }
}

fn bundle(label: &str) -> ReleaseBundleV1 {
    ReleaseBundleV1 {
        digest: digest(label),
        project_id: project(),
        installed_policy: installed_policy(),
        deployment_plan_digest: digest("deployment plan"),
        application_schema_version: "20260101000000".to_owned(),
    }
}

fn rimg_policy() -> InstalledRimgPolicyV1 {
    InstalledRimgPolicyV1 {
        project_id: project(),
        installed_policy: installed_policy(),
        digest: digest("rimg policy"),
        schema_contract_digest: digest("schema contract"),
        stable_routing: true,
        automatic_code_rollback: true,
        bootstrap_with_declared_downtime: true,
    }
}

fn release_state(current: Option<&str>) -> InstalledReleaseStateV1 {
    InstalledReleaseStateV1 {
        project_id: project(),
        installed_policy: installed_policy(),
        installed_rimg_policy_digest: digest("rimg policy"),
        document_digest: digest("release state"),
        current_release_bundle_digest: current.map(digest),
        last_known_good_release_bundle_digest: None,
    }
}

fn attestation() -> BuildReleaseAttestationV1 {
    BuildReleaseAttestationV1 {
        payload_digest: digest("build attestation"),
        source_attestation_digest: digest("source attestation"),
        source_sequence: 7,
        source_head: GitCommitId::parse("aaaaaaaaaaaaaaaaaaaaaaaaaaaaaaaaaaaaaaaa").expect("commit"),
        data_compatibility_observation_digest: digest("compatibility observation"),
    }
}

#[test]
fn bootstrap_handoff_requires_exact_candidate_source_policy_and_release_shape() {
    let policy = mutation_policy();
    let exact = accepted(&policy);
    assert_eq!(
        validate_accepted_deploy(&exact, &policy)
            .unwrap_or_else(|error| panic!("exact accepted binding: {error:?}")),
        exact.target_commit.as_ref().unwrap_or_else(|| panic!("target"))
    );

    for substituted in [
        AcceptedMutationV1 { build_attestation_digest: None, ..accepted(&policy) },
        AcceptedMutationV1 {
            effective_release_class: Some(ReleaseClass::StatefulCompatible),
            ..accepted(&policy)
        },
        AcceptedMutationV1 {
            installed_policy_digest: digest("other deploy policy"),
            ..accepted(&policy)
        },
    ] {
        assert!(matches!(
            validate_accepted_deploy(&substituted, &policy),
            Err(DeployDriverError::AcceptedMutationBinding)
        ));
    }
}

#[test]
fn rollback_recovery_intent_uses_rollback_contract_without_changing_authority() {
    let policy = mutation_policy();
    let candidate = bundle("candidate");
    let accepted = AcceptedMutationV1 {
        release_bundle_digest: Some(candidate.digest.clone()),
        previous_release_bundle_digest: Some(digest("previous release")),
        ..accepted(&policy)
    };
    let mut operation = reconstruct_deploy_operation(&accepted, &policy, &candidate, &None);
    operation.state.phase = OperationPhase::Rollback;
    operation.evidence.recovery_mode = Some(OperationRecoveryMode::Rollback);
    let authorization = digest("original deploy authorization");

    let intent = PhaseIntent::from_operation(&operation, authorization.clone())
        .unwrap_or_else(|error| panic!("rollback phase intent: {error:?}"));

    assert_eq!(intent.branch, ExecutorPhaseBranch::RollbackRecovery);
    assert_eq!(intent.payload.operation_kind, OperationKind::CodeRollback);
    assert_eq!(intent.payload.release_class, Some(ReleaseClass::Rollback));
    assert_eq!(intent.payload.executor_authorization_digest, authorization);
    assert_eq!(intent.payload.release_bundle_digest.as_ref(), Some(&candidate.digest));
    assert_eq!(
        intent.payload.previous_release_bundle_digest,
        accepted.previous_release_bundle_digest
    );
    assert!(intent.has_valid_digest().is_ok_and(|valid| valid));
}

fn operation(previous: bool) -> OperationRecord {
    let policy = mutation_policy();
    let mut accepted = accepted(&policy);
    if previous {
        accepted.previous_release_bundle_digest = Some(digest("previous release"));
    }
    reconstruct_deploy_operation(&accepted, &policy, &bundle("candidate"), &None)
}

fn receipt(operation: &OperationRecord) -> PhaseReceipt {
    let intent = PhaseIntent::from_operation(operation, digest("authorization")).expect("intent");
    let mut artifacts = deterministic_phase_artifacts(&intent);
    if artifacts.deployment_plan_digest.is_some() {
        artifacts.deployment_plan_digest = Some(digest("deployment plan"));
    }
    if artifacts.release_bundle_digest.is_some() {
        artifacts.release_bundle_digest = Some(digest("candidate"));
    }
    PhaseReceipt::new(
        intent.attempt_id,
        intent.phase,
        intent.branch,
        intent.digest,
        digest("observation"),
        artifacts,
        20_000,
    )
    .expect("receipt")
}

fn drive(has_current: bool, fails_at: Option<OperationPhase>) -> (Vec<DeployStep>, DeployRun) {
    drive_from(operation(has_current), has_current, fails_at)
}

fn drive_from(
    from: OperationRecord,
    has_current: bool,
    fails_at: Option<OperationPhase>,
) -> (Vec<DeployStep>, DeployRun) {
    let mut run = DeployRun::begin(from, has_current);
    let mut steps = Vec::new();
    while run.step != DeployStep::Finished {
        steps.push(run.step);
        let event = match run.step {
            DeployStep::Execute
                if Some(run.operation.state.phase) == fails_at
                    && run.operation.evidence.recovery_mode.is_none() =>
            {
                DeployEvent::Executed(Err(PhaseExecutionError::NeedsReconcile))
            }
            DeployStep::Execute => DeployEvent::Executed(Ok(receipt(&run.operation))),
            DeployStep::TakeOver => DeployEvent::TakenOver { at_ms: 21_000 },
            _ => DeployEvent::Done,
        };
        run = run.advance(event).unwrap_or_else(|error| panic!("advance: {error:?}"));
        assert!(steps.len() < 100);
    }
    (steps, run)
}

#[test]
fn a_first_release_is_committed_after_its_soak() {
    let (steps, run) = drive(false, None);
    assert_eq!(run.operation.state.result, OperationResult::Succeeded);
    assert_eq!(run.operation.state.phase, OperationPhase::Soaking);
    assert_eq!(steps.iter().filter(|step| **step == DeployStep::EnsurePhaseSpec).count(), 3);
    assert_eq!(steps.last(), Some(&DeployStep::CommitBootstrapRelease));
    assert!(run.operation.evidence.health_evidence_digest.is_some());
}

#[test]
fn a_deployment_that_fails_its_health_check_is_turned_back_once() {
    let (steps, run) = drive(true, Some(OperationPhase::HealthChecking));
    assert_eq!(run.operation.state.result, OperationResult::RolledBack);
    assert_eq!(steps.iter().filter(|step| **step == DeployStep::TakeOver).count(), 1);
    assert!(!steps.contains(&DeployStep::CommitInstalledRelease));

    let failed = DeployRun::begin(operation(false), false)
        .advance(DeployEvent::Executed(Err(PhaseExecutionError::NeedsReconcile)));
    assert!(matches!(
        failed,
        Err(DeployDriverError::Phase(PhaseExecutionError::NeedsReconcile))
    ));
    assert!(matches!(
        DeployRun::begin(operation(false), false).advance(DeployEvent::TakenOver { at_ms: 1 }),
        Err(DeployDriverError::UnexpectedEvent)
    ));
}

#[test]
fn receipts_of_other_attempts_are_refused() {
    let run = DeployRun::begin(operation(false), false);
    let mut foreign = operation(false);
    foreign.attempt_id = Uuid::from_u128(99);
    assert!(matches!(
        run.advance(DeployEvent::Executed(Ok(receipt(&foreign)))),
        Err(DeployDriverError::ReceiptBinding)
    ));
}

fn prepared(current: Option<&str>) -> Result<PreparedInstalledDeploymentV1, DeployDriverError> {
    PreparedInstalledDeploymentV1::load(
        accepted(&mutation_policy()),
        mutation_policy(),
        rimg_policy(),
        release_state(current),
        attestation(),
        bundle("candidate"),
        None,
        None,
    )
}

#[test]
fn what_is_installed_decides_whether_a_deployment_is_driven() {
    let driver = InstalledDeployOperationDriverV1::new((), (), (), (), ());
    let fresh = prepared(None).expect("prepared");
    assert!(matches!(driver.drive_accepted(&fresh, operation(false)), Ok(DeployStart::Proceed)));
    assert_eq!(driver.has_committed_terminal(&fresh, &operation(false)), Ok(false));

    let installed = prepared(Some("candidate")).expect("prepared");
    assert!(matches!(
        driver.drive_accepted(&installed, operation(false)),
        Err(DeployDriverError::ReleaseStateWithoutTerminalReceipt)
    ));
    let (_, done) = drive(false, None);
    assert!(matches!(
        driver.drive_accepted(&installed, done.operation),
        Ok(DeployStart::Ended(operation)) if operation.state.result == OperationResult::Succeeded
    ));
}

#[test]
fn installations_are_bound_to_their_policies() {
    let policy = mutation_policy();
    assert!(validate_policy_state_binding(&policy, &rimg_policy(), &release_state(None)).is_ok());
    let mut moved = rimg_policy();
    moved.digest = digest("another policy");
    assert_eq!(
        validate_policy_state_binding(&policy, &moved, &release_state(None)),
        Err(DeployDriverError::InstalledBinding)
    );
    let shape = |state: Option<&str>, current: Option<&str>| {
        validate_release_shape(&release_state(state), &current.map(bundle), &bundle("candidate"), &None)
    };
    assert!(shape(None, None).is_ok());
    assert!(shape(Some("candidate"), None).is_ok());
    assert!(shape(Some("other"), None).is_err());
    assert!(shape(None, Some("other")).is_err());
    let target = candidate_to_load(&accepted(&policy), &policy, &rimg_policy(), &release_state(None))
        .map(|commit| commit.as_str().to_owned());
    assert_eq!(target, Ok("a".repeat(40)));
    assert!(prepared(Some("other")).is_err());
    assert_eq!(
        DeployDriverError::AcceptedMutationBinding.message(),
        "accepted mutation is not an authorized installed deployment"
    );
    assert!(!needs_base_backup(&accepted(&policy)));
}

struct Driver {
    ended: bool,
    driven: Vec<Uuid>,
}

impl AcceptedDeployJobDriverV1 for Driver {
    fn drive(&mut self, accepted: &AcceptedMutationV1) -> Result<OperationRecord, DeployDriverError> {
        self.driven.push(accepted.attempt_id);
        if accepted.attempt_id == Uuid::from_u128(21) {
            Err(DeployDriverError::InvalidTime)
        } else {
            Ok(operation(false))
        }
    }

    fn has_committed_terminal(
        &mut self,
        _accepted: &AcceptedMutationV1,
    ) -> Result<bool, DeployDriverError> {
        Ok(self.ended)
    }
}

struct After(usize);

impl DeployCancellationV1 for After {
    fn cancelled(&mut self) -> bool {
        self.0 = self.0.wrapping_sub(1);
        self.0 == usize::MAX
    }
}

fn job(attempt: u128, kind: OperationKind, has_terminal_receipt: bool) -> PendingDeployJobV1 {
    let accepted = AcceptedMutationV1 {
        attempt_id: Uuid::from_u128(attempt),
        operation_kind: kind,
        ..accepted(&mutation_policy())
    };
    PendingDeployJobV1 { accepted, has_terminal_receipt }
}

#[test]
fn a_soak_on_either_way_is_the_last_receipt() {
    let deploying = operation(false);
    let intent = PhaseIntent::from_operation(&deploying, digest("authorization")).expect("intent");
    let receipt = || {
        PhaseReceipt::new(
            intent.attempt_id,
            intent.phase,
            intent.branch,
            intent.digest.clone(),
            digest("observation"),
            deterministic_phase_artifacts(&intent),
            150,
        )
        .ok()
    };
    assert!(receipt().is_some());
    let job = |forth: &Option<PhaseReceipt>, back: &Option<PhaseReceipt>| {
        PendingDeployJobV1::from_receipts(accepted(&mutation_policy()), forth, back)
    };
    assert!(!job(&None, &None).has_terminal_receipt);
    assert!(job(&receipt(), &None).has_terminal_receipt);
    assert!(job(&None, &receipt()).has_terminal_receipt);
}

#[test]
fn jobs_are_driven_one_after_the_other() {
    let jobs = vec![
        job(20, OperationKind::BackupOnly, false),
        job(21, OperationKind::Deploy, false),
        job(22, OperationKind::Deploy, true),
        job(23, OperationKind::Deploy, false),
    ];
    let mut driver = Driver { ended: true, driven: Vec::new() };
    let failures = drive_pending_deploy_jobs_until(&jobs, &mut driver, &mut After(10));
    assert_eq!(driver.driven, vec![Uuid::from_u128(21), Uuid::from_u128(23)]);
    assert_eq!(failures.len(), 1);
    assert_eq!(failures[0].attempt_id, Uuid::from_u128(21));
    assert_eq!(failures[0].error, DeployDriverError::InvalidTime);

    let mut unended = Driver { ended: false, driven: Vec::new() };
    assert!(drive_pending_deploy_jobs_until(&jobs, &mut unended, &mut After(1)).is_empty());
    assert!(unended.driven.is_empty());
    let _ = drive_pending_deploy_jobs_until(&jobs, &mut unended, &mut After(3));
    assert_eq!(unended.driven, vec![Uuid::from_u128(21), Uuid::from_u128(22)]);
    let settled = jobs[2].settle(DeployJobAnswers {
        committed: Some(Err(DeployDriverError::Encoding)),
        driven: None,
    });
    assert_eq!(settled.map(|failure| failure.error), Some(DeployDriverError::Encoding));
}

#[test]
fn bootstrap_worker_recovers_terminal_receipts_before_release_state_commit_without_reapply() {
    let mut receipts = Vec::new();
    let mut record = operation(false);
    while record.state.result == OperationResult::Running {
        let found = receipt(&record);
        let again = receipt(&record);
        record = record.project_deploy_receipt(&found, false).expect("projected");
        receipts.push(Some(again));
    }
    assert_eq!(record.state.result, OperationResult::Succeeded);
    assert_eq!(receipts.len(), 9);

    let found = DeployReceipts { primary: receipts, takeover_at_ms: None, rollback: Vec::new() };
    let projected = || project_existing_deploy_receipts(operation(false), &found).expect("projected");
    let driver = InstalledDeployOperationDriverV1::new((), (), (), (), ());
    let fresh = prepared(None).expect("prepared");
    assert_eq!(driver.has_committed_terminal(&fresh, &projected()), Ok(false));
    assert!(matches!(driver.drive_accepted(&fresh, projected()), Ok(DeployStart::Proceed)));
    let (steps, recovered) = drive_from(projected(), false, None);
    assert_eq!(steps, vec![DeployStep::CleanUp, DeployStep::CommitBootstrapRelease]);
    assert_eq!(recovered.operation.state.result, OperationResult::Succeeded);

    let installed = prepared(Some("candidate")).expect("prepared");
    assert_eq!(driver.has_committed_terminal(&installed, &projected()), Ok(true));
    assert!(matches!(driver.drive_accepted(&installed, projected()), Ok(DeployStart::Ended(_))));

    let mut gap = found;
    gap.primary[0] = None;
    assert!(matches!(
        project_existing_deploy_receipts(operation(false), &gap),
        Err(DeployDriverError::ReceiptOrder)
    ));
}

fn no_artifacts() -> RuntimeCandidateArtifactsV1 {
    RuntimeCandidateArtifactsV1 {
        testing: PhaseArtifacts::default(),
        building: PhaseArtifacts::default(),
        preflight: PhaseArtifacts::default(),
    }
}

#[test]
fn reservations_are_bound_to_the_grant_of_a_deployment() {
    let reserved = || AuthorizationSource::Reserved { reservation_digest: digest("reservation") };
    let bound = prepared(None)
        .expect("prepared")
        .bind_runtime_reservation(reserved(), no_artifacts(), 12_000)
        .expect("bound");
    assert_eq!(bound.authorization.authorization_id, Uuid::from_u128(5));
    assert_eq!(bound.authorization.expires_at_ms, 35_000);
    assert_eq!(
        bound.prepared.operation.evidence.resource_reservation_digest,
        Some(digest("reservation"))
    );
    let mut foreign = bound.authorization;
    foreign.attempt_id = Uuid::from_u128(99);
    assert!(matches!(
        prepared(None).expect("prepared").bind_runtime_reservation(
            AuthorizationSource::Stored(foreign),
            no_artifacts(),
            12_000
        ),
        Err(DeployDriverError::AuthorizationBinding)
    ));
    assert!(matches!(
        prepared(None).expect("prepared").bind_runtime_reservation(reserved(), no_artifacts(), -1),
        Err(DeployDriverError::InvalidTime)
    ));
}

#[test]
fn phases_are_specified_once() {
    let fresh = prepared(None).expect("prepared");
    let mut deploying = operation(false);
    deploying.state.phase = OperationPhase::Deploying;
    let intent = PhaseIntent::from_operation(&deploying, digest("authorization")).expect("intent");
    let inputs = fresh
        .ensure_deploy_phase_spec(&deploying, &intent, &None, 20_000)
        .expect("specified")
        .expect("inputs");
    assert_eq!(inputs.boundary_now_ms, Some(20_000));
    assert!(inputs.evaluation.satisfied);
    assert_eq!(inputs.evaluation.migration_id, None);
    assert_eq!(inputs.inspection.migration_id, None);
    assert_eq!(inputs.inspection.migration_plan_digest, None);
    let clock = fresh.clock_request(&intent, 20_000).expect("clock");
    assert_eq!(clock.program_digest, fresh.mutation_policy.chronyc_sha256);
    assert_eq!(clock.boundary_now_ms, 20_000);
    let plan = deploy_journal_plan(&deploying).expect("plan");
    assert_eq!(Ok(plan.ordered_phases), OperationKind::Deploy.required_phases(deploying.release_class));
    assert!(plan.may_roll_back);
    let mut unclassed = operation(false);
    unclassed.release_class = None;
    assert_eq!(
        deploy_journal_plan(&unclassed).err(),
        Some(DeployDriverError::Store(StoreError::Contract(OperationContractError::ReleaseClassMismatch)))
    );
    assert_eq!(inputs.runtime.expect("runtime").valid_until_ms, 50_000);
    assert_eq!(inputs.inspection.candidate_bundle_digest, digest("candidate"));
    assert!(matches!(
        fresh.ensure_deploy_phase_spec(&deploying, &intent, &None, i64::MAX),
        Err(DeployDriverError::InvalidTime)
    ));
    let mut stored = Some(AuthorizedPhaseSpecV1 {
        attempt_id: deploying.attempt_id,
        project_id: project(),
        phase: OperationPhase::Deploying,
        branch: ExecutorPhaseBranch::Primary,
        intent_digest: intent.digest.clone(),
        installed_rimg_policy_digest: rimg_policy().digest,
        release_bundle_digest: Some(digest("candidate")),
        deployment_plan_digest: Some(bundle("candidate").deployment_plan_digest),
        effective_release_class: Some(ReleaseClass::CodeOnlyCompatible),
    });
    assert!(matches!(
        fresh.ensure_deploy_phase_spec(&deploying, &intent, &stored, 20_000),
        Ok(None)
    ));
    if let Some(spec) = &mut stored {
        spec.intent_digest = digest("another intent");
    }
    assert!(matches!(
        fresh.ensure_deploy_phase_spec(&deploying, &intent, &stored, 20_000),
        Err(DeployDriverError::PhaseSpecBinding)
    ));
    let mut back = intent;
    back.branch = ExecutorPhaseBranch::RollbackRecovery;
    back.phase = OperationPhase::HealthChecking;
    assert!(fresh.clock_request(&back, 20_000).is_none());
    assert!(matches!(
        fresh.ensure_deploy_phase_spec(&deploying, &back, &None, 20_000),
        Err(DeployDriverError::RollbackBinding)
    ));
}

#[test]
fn effects_are_delegated_from_the_first_mutation_on() {
    let artifacts = RuntimeCandidateArtifactsV1 {
        testing: PhaseArtifacts { ci_evidence_digest: Some(digest("ci")), ..PhaseArtifacts::default() },
        ..no_artifacts()
    };
    let mut effects = InstalledDeployEffectsV1::new(DeterministicModelEffects::default(), artifacts);
    let mut testing = operation(false);
    testing.state.phase = OperationPhase::Testing;
    let tested = PhaseIntent::from_operation(&testing, digest("authorization")).expect("intent");
    assert_eq!(effects.apply_phase(&tested), Ok(()));
    match effects.observe_phase(&tested) {
        Ok(EffectObservation::Applied(evidence)) => {
            assert_eq!(evidence.artifacts.ci_evidence_digest, Some(digest("ci")));
            assert_eq!(evidence.intent_digest, tested.digest);
        }
        other => panic!("not observed: {other:?}"),
    }
    let mut deploying = operation(false);
    deploying.state.phase = OperationPhase::Deploying;
    let deployed = PhaseIntent::from_operation(&deploying, digest("authorization")).expect("intent");
    assert!(matches!(effects.observe_phase(&deployed), Ok(EffectObservation::Absent)));
    assert_eq!(effects.apply_phase_with_operation_identity(&deployed, None), Ok(()));
    match effects.observe_phase_with_operation_identity(&deployed, None) {
        Ok(EffectObservation::Applied(evidence)) => assert_eq!(evidence.intent_digest, deployed.digest),
        other => panic!("not observed: {other:?}"),
    }
    let lease = FenceLease {
        journal_id: 1,
        project_id: project(),
        attempt_id: Uuid::from_u128(12),
        epoch: 3,
        token: Uuid::from_u128(30),
        created_at_ms: 100,
        state: FenceJournalState::AcquireIntent,
        release_safe_receipt_digest: None,
    };
    assert_eq!(effects.observe_fence(&project()), Ok(FenceObservation::Released));
    assert_eq!(effects.acquire_fence(&lease), Ok(()));
    assert!(lease.is_observed(effects.observe_fence(&project()).expect("fence")));
    assert_eq!(effects.release_fence(&lease), Ok(()));
    assert_eq!(effects.observe_fence(&project()), Ok(FenceObservation::Released));
}
