use rdashboard::domain::identifiers::{EvidenceDigest, ProjectId};
use rdashboard::fence_adapter::{
    begin_transition, continue_transition, execute_fence_adapter, transition_fence,
    FenceAdapterActionV1, FenceAdapterError, FenceAdapterRequestV1, FenceAdapterResultV1,
    FenceAdapterRuntimeV1, FenceJournalState, FenceLease, FenceStep, RimgAdminActionV1,
    RimgFenceBackendV1, RimgObservedDocumentV1, RimgOperationalModeV1, RimgOperationalStatusV1,
    RIMG_MACHINE_PROTOCOL_SCHEMA_VERSION,
};
use rdashboard::unique_id::Uuid;
use std::collections::VecDeque;

struct ScriptedBackend {
    statuses: VecDeque<RimgOperationalStatusV1>,
    actions: Vec<RimgAdminActionV1>,
}

impl ScriptedBackend {
    fn next_status(&mut self) -> Result<RimgObservedDocumentV1, FenceAdapterError> {
        let status = self.statuses.pop_front().ok_or(FenceAdapterError::RuntimeFailure)?;
        RimgObservedDocumentV1::from_document(status).map_err(|_| FenceAdapterError::RuntimeFailure)
    }
}

impl RimgFenceBackendV1 for ScriptedBackend {
    fn status(&mut self) -> Result<RimgObservedDocumentV1, FenceAdapterError> {
        self.next_status()
    }

    fn apply(
        &mut self,
        action: RimgAdminActionV1,
        _request: &FenceAdapterRequestV1,
    ) -> Result<RimgObservedDocumentV1, FenceAdapterError> {
        self.actions.push(action);
        self.next_status()
    }
}

struct FakeRuntime {
    status: RimgOperationalStatusV1,
}

impl FenceAdapterRuntimeV1 for FakeRuntime {
    fn transition(
        &mut self,
        _request: &FenceAdapterRequestV1,
    ) -> Result<RimgObservedDocumentV1, FenceAdapterError> {
        RimgObservedDocumentV1::from_document(self.status)
            .map_err(|_| FenceAdapterError::RuntimeFailure)
    }
}

fn lease(state: FenceJournalState) -> FenceLease {
    FenceLease {
        journal_id: 1,
        project_id: ProjectId::parse("rimg").expect("project"),
        attempt_id: Uuid::from_u128(21),
        epoch: 7,
        token: Uuid::from_u128(22),
        created_at_ms: 100,
        state,
        release_safe_receipt_digest: (state == FenceJournalState::ReleaseIntent)
            .then_some(EvidenceDigest::sha256("release receipt".as_bytes())),
    }
}

fn request(action: FenceAdapterActionV1, state: FenceJournalState) -> FenceAdapterRequestV1 {
    FenceAdapterRequestV1::from_lease(
        action,
        &lease(state),
        EvidenceDigest::sha256("installed rimg policy".as_bytes()),
    )
    .unwrap_or_else(|error| panic!("request: {error:?}"))
}

fn status(request: &FenceAdapterRequestV1, released: bool) -> RimgOperationalStatusV1 {
    RimgOperationalStatusV1 {
        schema_version: RIMG_MACHINE_PROTOCOL_SCHEMA_VERSION,
        mode: if released {
            RimgOperationalModeV1::Normal
        } else {
            RimgOperationalModeV1::Fenced
        },
        last_epoch: request.epoch,
        last_token: Some(request.token),
        active_epoch: (!released).then_some(request.epoch),
        active_token: (!released).then_some(request.token),
        intake_open: released,
        workers_drained: !released,
        active_write_leases: 0,
        processing_jobs: 0,
        delivering_webhooks: 0,
        updated_at: 1,
    }
}

fn draining_status(request: &FenceAdapterRequestV1) -> RimgOperationalStatusV1 {
    let mut draining = status(request, false);
    draining.mode = RimgOperationalModeV1::Draining;
    draining
}

#[test]
fn exact_acquire_and_release_results_are_lease_bound() {
    for (action, lease_state, released) in [
        (FenceAdapterActionV1::Acquire, FenceJournalState::AcquireIntent, false),
        (FenceAdapterActionV1::ReleaseAndResume, FenceJournalState::ReleaseIntent, true),
    ] {
        let request = request(action, lease_state);
        let mut runtime = FakeRuntime { status: status(&request, released) };
        let result = execute_fence_adapter(&request, &mut runtime, 200)
            .unwrap_or_else(|error| panic!("execute: {error:?}"));
        result.validate(&request).unwrap_or_else(|error| panic!("validate: {error:?}"));
    }
}

#[test]
fn released_state_cannot_satisfy_an_acquire_request() {
    let request = request(FenceAdapterActionV1::Acquire, FenceJournalState::AcquireIntent);
    let mut runtime = FakeRuntime { status: status(&request, true) };
    assert!(matches!(
        execute_fence_adapter(&request, &mut runtime, 200),
        Err(FenceAdapterError::ResultMismatch)
    ));
}

#[test]
fn transition_sequence_is_restart_safe_at_every_fence_boundary() {
    let acquire = request(FenceAdapterActionV1::Acquire, FenceJournalState::AcquireIntent);
    let mut acquiring = ScriptedBackend {
        statuses: VecDeque::from([draining_status(&acquire), status(&acquire, false)]),
        actions: Vec::new(),
    };
    transition_fence(&acquire, &mut acquiring).unwrap_or_else(|error| panic!("acquire: {error:?}"));
    assert_eq!(acquiring.actions, [RimgAdminActionV1::AcquireFence]);

    let mut acquired_replay = ScriptedBackend {
        statuses: VecDeque::from([status(&acquire, false)]),
        actions: Vec::new(),
    };
    transition_fence(&acquire, &mut acquired_replay)
        .unwrap_or_else(|error| panic!("acquire replay: {error:?}"));
    assert!(acquired_replay.actions.is_empty());

    let release = request(FenceAdapterActionV1::ReleaseAndResume, FenceJournalState::ReleaseIntent);
    let mut releasing = ScriptedBackend {
        statuses: VecDeque::from([
            status(&release, false),
            draining_status(&release),
            status(&release, true),
        ]),
        actions: Vec::new(),
    };
    transition_fence(&release, &mut releasing).unwrap_or_else(|error| panic!("release: {error:?}"));
    assert_eq!(
        releasing.actions,
        [RimgAdminActionV1::ReleaseFence, RimgAdminActionV1::Resume]
    );

    let mut released_before_resume = ScriptedBackend {
        statuses: VecDeque::from([draining_status(&release), status(&release, true)]),
        actions: Vec::new(),
    };
    transition_fence(&release, &mut released_before_resume)
        .unwrap_or_else(|error| panic!("release crash replay: {error:?}"));
    assert_eq!(released_before_resume.actions, [RimgAdminActionV1::Resume]);
}

#[test]
fn a_service_that_is_nowhere_near_is_refused() {
    let acquire = request(FenceAdapterActionV1::Acquire, FenceJournalState::AcquireIntent);
    let resumed = status(&acquire, true);
    assert!(matches!(begin_transition(&acquire, &resumed), FenceStep::Refused));
    assert!(matches!(
        continue_transition(&acquire, RimgAdminActionV1::AcquireFence, &draining_status(&acquire)),
        FenceStep::Refused
    ));
    let mut busy = draining_status(&acquire);
    busy.processing_jobs = 1;
    assert!(!busy.status_is_draining(&acquire));
    let mut lost = ScriptedBackend { statuses: VecDeque::new(), actions: Vec::new() };
    assert!(matches!(transition_fence(&acquire, &mut lost), Err(FenceAdapterError::RuntimeFailure)));
}

#[test]
fn requests_and_results_are_read_back_in_their_one_form() {
    let build = || request(FenceAdapterActionV1::Acquire, FenceJournalState::AcquireIntent);
    let bytes = build().canonical_bytes().expect("bytes");
    assert!(FenceAdapterRequestV1::decode_canonical(build(), &bytes).is_ok());
    let mut changed = build();
    changed.epoch = 8;
    assert_eq!(changed.canonical_bytes(), Err(FenceAdapterError::RequestMismatch));
    assert!(FenceAdapterRequestV1::decode_canonical(build(), b"{}").is_err());
    let released = lease(FenceJournalState::Released);
    assert_eq!(build().validate_for_lease(&released), Err(FenceAdapterError::RequestMismatch));

    let mut runtime = FakeRuntime { status: status(&build(), false) };
    let result = execute_fence_adapter(&build(), &mut runtime, 200).expect("result");
    let written = result.canonical_bytes().expect("bytes");
    let again = execute_fence_adapter(&build(), &mut runtime, 200).expect("result");
    assert!(FenceAdapterResultV1::decode_canonical(again, &written, &build()).is_ok());
}
