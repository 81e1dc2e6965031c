use rdashboard::controller::admission::{
    attempt_count_for_source_sequence, validate_current_lease, validate_grant_binding,
    ActionGrantClaims, AdmissionOutcome, AutomationRows, DeliveryChannel, FreshIdentities,
    InteractiveRows, KnownDelivery, NewOperation, TabLeaseClaim, UsedGrant,
    VerifiedAutomationAdmission, VerifiedInteractiveDeployAdmission,
};
use rdashboard::controller::transitions::OperationUpdate;
use rdashboard::controller::{DurableController, StoreError};
use rdashboard::domain::artifacts::PhaseReceipt;
use rdashboard::domain::identifiers::{EvidenceDigest, GitCommitId, ProjectId};
use rdashboard::domain::operation::{
    AutomationSource, FenceAcquisitionReceiptV1, InstalledPolicyIdentity, OperationActor,
    OperationKind, ReleaseClass,
};
use rdashboard::domain::record::OperationRecord;
use rdashboard::domain::states::{BlockingReason, OperationPhase, OperationResult};
use rdashboard::executor::effects::deterministic_phase_artifacts;
use rdashboard::executor::intent::PhaseIntent;
use rdashboard::executor::rules::{reconciliation_capsule, SourceGateError};
use rdashboard::unique_id::Uuid;

fn digest(label: &str) -> EvidenceDigest {
    EvidenceDigest::sha256(label.as_bytes())
}

fn controller() -> DurableController<()> {
    DurableController::new(())
}

fn commit() -> GitCommitId {
    GitCommitId::parse(&"c".repeat(40)).expect("commit")
}

fn deploy() -> NewOperation {
    NewOperation {
        project_id: ProjectId::parse("ralert").expect("project"),
        operation_kind: OperationKind::Deploy,
        target_commit: Some(commit()),
        release_class: Some(ReleaseClass::CodeOnlyCompatible),
        installed_policy: InstalledPolicyIdentity { digest: digest("policy"), version: 1 },
    }
}

fn backup() -> NewOperation {
    NewOperation {
        operation_kind: OperationKind::BackupOnly,
        target_commit: None,
        release_class: None,
        ..deploy()
    }
}

fn lease() -> TabLeaseClaim {
    TabLeaseClaim { user_id: Uuid::from_u128(1), lease_id: Uuid::from_u128(2), generation: 1 }
}

fn grant(operation: &NewOperation) -> ActionGrantClaims {
    ActionGrantClaims {
        nonce: Uuid::from_u128(3),
        digest: digest("grant"),
        user_id: Uuid::from_u128(1),
        project_id: operation.project_id.clone(),
        operation_kind: operation.operation_kind,
        target_commit: operation.target_commit.clone(),
        retry_request_id: None,
        expires_at_ms: 1_000,
    }
}

fn fresh() -> FreshIdentities {
    FreshIdentities {
        request_id: Uuid::from_u128(10),
        operation_id: Uuid::from_u128(11),
        attempt_id: Uuid::from_u128(12),
    }
}

fn no_rows() -> InteractiveRows {
    InteractiveRows { lease_expires_at_ms: Some(900), used_grant: None, request_id: None, latest: None }
}

fn new_backup() -> OperationRecord {
    match controller()
        .admit_interactive(&backup(), &lease(), &grant(&backup()), no_rows(), fresh(), 100)
        .expect("admitted")
    {
        AdmissionOutcome::Created(operation) => operation,
        AdmissionOutcome::Existing(_) => panic!("nothing was there"),
    }
}

fn automation() -> VerifiedAutomationAdmission {
    VerifiedAutomationAdmission {
        operation: deploy(),
        delivery_channel: DeliveryChannel::GithubWebhook,
        delivery_id: "delivery-1".to_owned(),
        payload_digest: digest("payload"),
        source_attestation_digest: digest("attestation"),
        accepted_head: commit(),
        accepted_sequence: 5,
        maximum_attempts: 1,
    }
}

fn automation_rows() -> AutomationRows {
    AutomationRows { delivery: None, request_id: None, latest: None, attempts: Vec::new() }
}

fn new_deploy() -> OperationRecord {
    match controller().admit_automation(&automation(), automation_rows(), fresh(), 100).expect("admitted") {
        AdmissionOutcome::Created(operation) => operation,
        AdmissionOutcome::Existing(_) => panic!("nothing was there"),
    }
}

fn receipt(operation: &OperationRecord) -> PhaseReceipt {
    let intent = PhaseIntent::from_operation(operation, digest("authorization")).expect("intent");
    let mut artifacts = deterministic_phase_artifacts(&intent);
    if matches!(intent.phase, OperationPhase::BackingUp | OperationPhase::Draining)
        && operation.operation_kind == OperationKind::Deploy
    {
        artifacts.source_gate_proof_digest = Some(digest("source gate proof"));
    }
    PhaseReceipt::new(
        intent.attempt_id,
        intent.phase,
        intent.branch,
        intent.digest,
        digest("observation"),
        artifacts,
        150,
    )
    .expect("receipt")
}

fn committed(operation: OperationRecord) -> OperationUpdate {
    let receipt = receipt(&operation);
    controller()
        .commit_phase_receipt(Some(operation), &receipt, 160)
        .unwrap_or_else(|error| panic!("commit: {error:?}"))
}

#[test]
fn a_user_starts_an_operation_once_per_grant() {
    let operation = new_backup();
    assert_eq!(operation.attempt_id, Uuid::from_u128(12));
    assert_eq!(operation.attempt_number, 1);
    assert_eq!(operation.actor, OperationActor::Interactive { user_id: Uuid::from_u128(1) });
    assert_eq!(operation.state.phase, OperationPhase::Queued);
    assert!(operation.check_stored().is_ok());

    let used = |digest_text: &str| InteractiveRows {
        used_grant: Some(UsedGrant { grant_digest: digest_text.to_owned(), operation: new_backup() }),
        ..no_rows()
    };
    let again = controller()
        .admit_interactive(&backup(), &lease(), &grant(&backup()), used(digest("grant").as_str()), fresh(), 100)
        .expect("replayed");
    assert!(!again.created());
    assert_eq!(again.operation().attempt_id, Uuid::from_u128(12));
    assert_eq!(
        controller()
            .admit_interactive(&backup(), &lease(), &grant(&backup()), used("another"), fresh(), 100)
            .err(),
        Some(StoreError::GrantReplay)
    );
    assert_eq!(
        controller().admit_interactive(&deploy(), &lease(), &grant(&deploy()), no_rows(), fresh(), 100).err(),
        Some(StoreError::SourceAdmissionRequired)
    );
    let verified = VerifiedInteractiveDeployAdmission {
        operation: deploy(),
        source_attestation_digest: digest("attestation"),
        accepted_head: commit(),
        accepted_sequence: 4,
    };
    let admitted = controller()
        .admit_verified_interactive_deploy(&verified, &lease(), &grant(&deploy()), no_rows(), fresh(), 100)
        .expect("admitted");
    assert_eq!(admitted.operation().evidence.source_sequence, Some(4));
}

#[test]
fn leases_and_grants_must_stand() {
    assert_eq!(validate_current_lease(&lease(), None, 100), Err(StoreError::LeaseRevoked));
    assert_eq!(validate_current_lease(&lease(), Some(100), 100), Err(StoreError::LeaseExpired));
    assert_eq!(validate_current_lease(&lease(), Some(101), 100), Ok(()));
    assert_eq!(validate_grant_binding(&backup(), &lease(), &grant(&backup()), 999), Ok(()));
    assert_eq!(
        validate_grant_binding(&backup(), &lease(), &grant(&backup()), 1_000),
        Err(StoreError::GrantExpired)
    );
    assert_eq!(
        validate_grant_binding(&backup(), &lease(), &grant(&deploy()), 1),
        Err(StoreError::GrantBindingMismatch)
    );
    let taken = controller()
        .takeover_lease(Uuid::from_u128(1), Uuid::from_u128(2), 10, 20, Some(4))
        .expect("taken over");
    assert_eq!(taken.generation, 5);
    assert!(controller().takeover_lease(Uuid::from_u128(1), Uuid::from_u128(2), 10, 10, None).is_err());
    assert!(controller().validate_tab_lease(&lease(), Some(5), 4).is_ok());
}

#[test]
fn sources_start_as_many_attempts_as_they_may() {
    let operation = new_deploy();
    assert_eq!(
        operation.actor,
        OperationActor::Automation { source: AutomationSource::GithubWebhook }
    );
    assert_eq!(operation.evidence.source_sequence, Some(5));
    assert!(operation.has_trusted_source_admission());
    assert!(matches!(
        attempt_count_for_source_sequence(&vec![new_deploy(), new_deploy()], 5),
        Ok(2)
    ));

    let known = |payload: &str| AutomationRows {
        delivery: Some(KnownDelivery {
            payload_digest: digest(payload).as_str().to_owned(),
            latest: Some(new_deploy()),
        }),
        ..automation_rows()
    };
    let again = controller().admit_automation(&automation(), known("payload"), fresh(), 100).expect("known");
    assert!(!again.created());
    assert_eq!(
        controller().admit_automation(&automation(), known("other"), fresh(), 100).err(),
        Some(StoreError::DeliveryConflict)
    );
    let mut unsequenced = automation();
    unsequenced.accepted_sequence = 0;
    assert_eq!(
        controller().admit_automation(&unsequenced, automation_rows(), fresh(), 100).err(),
        Some(StoreError::AutomationAdmissionRejected)
    );
}

#[test]
fn receipts_lead_an_operation_through_its_plan() {
    let mut operation = new_deploy();
    let mut phases = vec![operation.state.phase];
    while operation.state.result == OperationResult::Running {
        let update = committed(operation);
        assert!(update.changed);
        operation = update.operation;
        phases.push(operation.state.phase);
    }
    assert_eq!(operation.state.result, OperationResult::Succeeded);
    assert_eq!(phases.last(), Some(&OperationPhase::Soaking));
    assert_eq!(operation.evidence.transitions.len(), phases.len() - 1);
    assert!(operation.check_stored().is_ok());

    let first = new_deploy();
    let early = receipt(&first);
    let once = committed(new_deploy()).operation;
    let twice = controller().commit_phase_receipt(Some(once), &early, 170).expect("replayed");
    assert!(!twice.changed);
    let later = receipt(&committed(new_deploy()).operation);
    assert_eq!(
        controller().commit_phase_receipt(Some(new_deploy()), &later, 170).err(),
        Some(StoreError::ReceiptMismatch)
    );
    let missing = controller().commit_phase_receipt(None, &early, 170);
    assert_eq!(missing.err(), Some(StoreError::OperationNotFound(Uuid::from_u128(12))));
}

fn deployed() -> OperationRecord {
    let mut operation = new_deploy();
    while operation.state.phase != OperationPhase::HealthChecking {
        operation = committed(operation).operation;
    }
    operation
}

#[test]
fn what_was_mutated_is_neither_cancelled_nor_failed() {
    let id = Uuid::from_u128(12);
    let cancelled = controller().cancel_before_mutation(id, Some(new_deploy()), 200).expect("cancelled");
    assert_eq!(cancelled.operation.state.result, OperationResult::Cancelled);
    assert_eq!(
        controller().cancel_before_mutation(id, Some(deployed()), 200).err(),
        Some(StoreError::CancellationAfterMutation)
    );
    let capsule = || SourceGateError::HeadSuperseded.source_failure_capsule();
    assert_eq!(
        controller().fail_attempt(id, Some(deployed()), capsule(), 200).err(),
        Some(StoreError::FailureAfterMutationRequiresReconcile)
    );
    let superseded = controller()
        .supersede_source_attempt(id, Some(new_deploy()), capsule(), 200)
        .expect("superseded");
    assert_eq!(superseded.operation.state.result, OperationResult::Superseded);
}

#[test]
fn operations_wait_and_go_on() {
    let id = Uuid::from_u128(12);
    let waiting = controller()
        .set_source_block(id, Some(new_deploy()), BlockingReason::SourceBrokerUnavailable, 200)
        .expect("waits");
    assert_eq!(waiting.operation.state.blocking_reason, BlockingReason::SourceBrokerUnavailable);
    let disk = controller().set_disk_block(id, Some(new_deploy()), 200).expect("waits");
    let again = controller().set_disk_block(id, Some(disk.operation), 201).expect("still waits");
    assert!(!again.changed);
    let free = controller().clear_disk_block(id, Some(again.operation), 202).expect("goes on");
    assert_eq!(free.operation.state.blocking_reason, BlockingReason::Unblocked);
    assert!(controller().clear_disk_block(id, Some(free.operation), 203).is_err());
}

#[test]
fn reconciliation_and_rollback_follow_what_was_deployed() {
    let id = Uuid::from_u128(12);
    let marked = controller()
        .mark_needs_reconcile(id, Some(deployed()), reconciliation_capsule(OperationPhase::HealthChecking), 200)
        .expect("marked");
    assert_eq!(marked.operation.state.phase, OperationPhase::Reconciliation);
    assert!(marked.operation.has_entered_reconciliation_from(OperationPhase::HealthChecking));
    assert_eq!(
        controller().validate_rollback(id, Some(new_deploy())).err(),
        Some(StoreError::TransitionRejected)
    );
    let back = controller().begin_rollback(id, Some(deployed()), 200).expect("rolls back");
    assert_eq!(back.operation.state.phase, OperationPhase::Rollback);
    assert_eq!(
        controller().begin_rollback(id, None, 200).err(),
        Some(StoreError::OperationNotFound(id))
    );
}

#[test]
fn stored_attempts_are_read_back_or_refused() {
    assert_eq!(controller().operation(None).map(|found| found.is_none()), Ok(true));
    assert!(matches!(controller().operation(Some(new_deploy())), Ok(Some(_))));
    let mut corrupt = new_deploy();
    corrupt.release_class = None;
    let attempts = controller().attempts_for_request(vec![new_deploy(), new_deploy()]);
    assert_eq!(attempts.map(|found| found.len()), Ok(2));
    let refused = controller().attempts_for_request(vec![new_deploy(), corrupt]);
    assert!(matches!(refused, Err(StoreError::Contract(_))));
}

fn at_cutover() -> OperationRecord {
    let mut verified = automation();
    verified.operation.release_class = Some(ReleaseClass::StatefulCompatible);
    let outcome =
        controller().admit_automation(&verified, automation_rows(), fresh(), 100).expect("admitted");
    let mut operation = match outcome {
        AdmissionOutcome::Created(operation) => operation,
        AdmissionOutcome::Existing(_) => panic!("nothing was there"),
    };
    while operation.state.phase != OperationPhase::CutoverSnapshotting {
        operation = committed(operation).operation;
    }
    operation
}

#[test]
fn a_stateful_cutover_waits_for_its_source_and_goes_on() {
    let id = Uuid::from_u128(12);
    assert!(at_cutover().is_stateful_cutover_retry());
    let waiting =
        controller().set_stateful_cutover_source_block(id, Some(at_cutover()), 200).expect("waits");
    assert!(waiting.changed);
    assert_eq!(waiting.operation.state.blocking_reason, BlockingReason::SourceBrokerUnavailable);
    let again = controller()
        .set_stateful_cutover_source_block(id, Some(waiting.operation), 210)
        .expect("still waits");
    assert!(!again.changed);
    let free = controller()
        .clear_stateful_cutover_source_block(id, Some(again.operation), 220)
        .expect("goes on");
    assert!(free.changed);
    assert_eq!(free.operation.state.blocking_reason, BlockingReason::Unblocked);
    assert_eq!(
        controller().set_stateful_cutover_source_block(id, Some(new_deploy()), 200).err(),
        Some(StoreError::TransitionRejected)
    );
}

#[test]
fn the_fence_of_a_cutover_is_recorded_once() {
    let id = Uuid::from_u128(12);
    let project = || ProjectId::parse("ralert").expect("project");
    let fence = |epoch: u64| {
        FenceAcquisitionReceiptV1::new(project(), id, epoch, digest("lease"), 150).expect("receipt")
    };
    let fenced =
        controller().record_fence_acquisition(id, Some(at_cutover()), &fence(3), 200).expect("fenced");
    assert!(fenced.changed);
    assert_eq!(fenced.operation.evidence.fencing_epoch, Some(3));
    let again = controller()
        .record_fence_acquisition(id, Some(fenced.operation), &fence(3), 210)
        .expect("again");
    assert!(!again.changed);
    assert_eq!(
        controller().record_fence_acquisition(id, Some(again.operation), &fence(4), 220).err(),
        Some(StoreError::ArtifactEvidenceConflict("fencing_epoch"))
    );
    assert_eq!(
        controller()
            .record_fence_acquisition(Uuid::from_u128(13), Some(at_cutover()), &fence(3), 200)
            .err(),
        Some(StoreError::InvalidControllerInput("invalid fence acquisition receipt"))
    );
    assert_eq!(
        controller().record_fence_acquisition(id, Some(new_deploy()), &fence(3), 200).err(),
        Some(StoreError::TransitionRejected)
    );
}

#[test]
fn a_phase_that_was_left_is_committed_after_reconciliation() {
    let id = Uuid::from_u128(12);
    let left = || {
        controller()
            .mark_needs_reconcile(
                id,
                Some(deployed()),
                reconciliation_capsule(OperationPhase::HealthChecking),
                300,
            )
            .expect("left")
            .operation
    };
    let found = receipt(&deployed());
    let update =
        controller().commit_reconciled_phase_receipt(Some(left()), &found, 310).expect("committed");
    assert!(update.changed);
    assert_eq!(update.operation.state.phase, OperationPhase::Soaking);
    assert_eq!(update.operation.evidence.recovery_mode, None);
    let again = controller()
        .commit_reconciled_phase_receipt(Some(update.operation), &found, 320)
        .expect("again");
    assert!(!again.changed);
    assert_eq!(
        controller().commit_reconciled_phase_receipt(Some(deployed()), &found, 310).err(),
        Some(StoreError::ReceiptMismatch)
    );
}

#[test]
fn requests_are_found_by_what_they_target() {
    assert_eq!(deploy().target_key(), commit().as_str());
    assert_eq!(backup().target_key(), "-");
}
