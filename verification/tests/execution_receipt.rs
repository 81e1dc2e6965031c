use rdashboard::domain::execution::{
    ExecutionCleanupStateV1, ExecutionIoUsageV1, ExecutionMemoryEventsV1, ExecutionResourceUsageV1,
    ExecutionResultV1,
};
use rdashboard::domain::identifiers::{EvidenceDigest, ProjectId};
use rdashboard::domain::states::OperationPhase;
use rdashboard::execution_receipt::measures::{
    parse_io_stat, parse_keyed_u64, parse_memory_events, parse_single_u64, read_unsigned,
    resolve_cgroup_directory,
};
use rdashboard::execution_receipt::{
    capture_terminal_receipt_in, check_owner_only_file, check_private_directory, check_receipt_size,
    classify_process, execution_started, materialize_cleanup_receipt, read_cleanup_receipt,
    storage_usage, validate_terminal_binding, CaptureEnvironmentV1, CapturedMeasures,
    DirectoryMeasure, ExecutionReceiptRuntimeError, ExecutionStartEvidenceV1,
    ExecutionTerminationIntentV1, ExecutionTerminationKindV1, FixedAdapterRequestV1,
    FoundStartEvidence, PathFacts, TERMINATION_INTENT_SCHEMA_VERSION,
};
use rdashboard::unique_id::Uuid;

#[test]
fn parses_cgroup_v2_resource_files_without_accepting_partial_rows() {
    assert_eq!(
        parse_keyed_u64("usage_usec 42\nuser_usec 10\n", "usage_usec"),
        Some(42)
    );
    assert_eq!(parse_single_u64("4096\n"), Some(4096));
    assert_eq!(
        parse_memory_events("low 1\nhigh 2\nmax 3\noom 4\noom_kill 5\noom_group_kill 6\n"),
        Some(ExecutionMemoryEventsV1 {
            low: 1,
            high: 2,
            max: 3,
            oom: 4,
            oom_kill: 5,
            oom_group_kill: 6,
        })
    );
    assert_eq!(
        parse_io_stat(
            "8:0 rbytes=10 wbytes=20 rios=1 wios=2 dbytes=0 dios=0\n8:1 rbytes=30 wbytes=40 rios=3 wios=4\n"
        ),
        Some(ExecutionIoUsageV1 {
            read_bytes: 40,
            write_bytes: 60,
            read_operations: 4,
            write_operations: 6,
        })
    );
    assert_eq!(parse_io_stat("8:0 rbytes=10 wbytes=20 rios=1\n"), None);
}

#[test]
fn classifies_exit_timeout_oom_and_cancellation_truthfully() {
    let failed = classify_process(
        &CaptureEnvironmentV1 {
            service_result: Some("exit-code".to_owned()),
            exit_code: Some("exited".to_owned()),
            exit_status: Some("7".to_owned()),
        },
        None,
        &ExecutionResourceUsageV1::default(),
    );
    assert_eq!(failed.result, ExecutionResultV1::Failed);
    assert_eq!(failed.exit_code, Some(7));

    let timed_out = classify_process(
        &CaptureEnvironmentV1 {
            service_result: Some("timeout".to_owned()),
            ..CaptureEnvironmentV1::default()
        },
        None,
        &ExecutionResourceUsageV1::default(),
    );
    assert_eq!(timed_out.result, ExecutionResultV1::TimedOut);

    let resources = ExecutionResourceUsageV1 {
        memory_events: Some(ExecutionMemoryEventsV1 {
            oom_kill: 1,
            ..ExecutionMemoryEventsV1::default()
        }),
        ..ExecutionResourceUsageV1::default()
    };
    let oom = classify_process(&CaptureEnvironmentV1::default(), None, &resources);
    assert_eq!(oom.result, ExecutionResultV1::OomKilled);

    let start_digest = EvidenceDigest::sha256("start".as_bytes());
    let intent = ExecutionTerminationIntentV1 {
        schema_version: TERMINATION_INTENT_SCHEMA_VERSION,
        attempt_id: Uuid::from_u128(1),
        kind: ExecutionTerminationKindV1::Cancelled,
        recorded_at_ms: 1,
        intent_digest: start_digest,
    };
    let cancelled = classify_process(
        &CaptureEnvironmentV1::default(),
        Some(intent.kind),
        &ExecutionResourceUsageV1::default(),
    );
    assert_eq!(cancelled.result, ExecutionResultV1::Cancelled);
}

fn request() -> FixedAdapterRequestV1 {
    FixedAdapterRequestV1 {
        request_id: Uuid::from_u128(11),
        attempt_id: Uuid::from_u128(12),
        project_id: ProjectId::parse("ralert").expect("project"),
        phase: OperationPhase::Building,
        step_id: "build".to_owned(),
        sequence: 1,
    }
}

fn measures() -> CapturedMeasures {
    CapturedMeasures {
        resources: ExecutionResourceUsageV1 {
            cpu_usage_usec: parse_keyed_u64("usage_usec 42000\nuser_usec 12000\n", "usage_usec"),
            memory_peak_bytes: parse_single_u64("134217728\n"),
            memory_events: parse_memory_events(
                "low 0\nhigh 1\nmax 2\noom 0\noom_kill 0\noom_group_kill 0\n",
            ),
            io: parse_io_stat("8:0 rbytes=10 wbytes=20 rios=1 wios=2\n"),
            tasks_peak: parse_single_u64("7\n"),
        },
        scratch_after_bytes: Some(20),
        available_bytes: None,
        total_bytes: None,
    }
}

fn success() -> CaptureEnvironmentV1 {
    CaptureEnvironmentV1 {
        service_result: Some("success".to_owned()),
        exit_code: Some("exited".to_owned()),
        exit_status: Some("0".to_owned()),
    }
}

#[test]
fn captures_terminal_cgroup_evidence_before_cleanup_and_replays_it() {
    let request = request();
    let start = ExecutionStartEvidenceV1::new(&request, 1_000, Some(10), None).expect("start");
    assert!(start.validate_for(&request).is_ok());
    let bytes = start.canonical_bytes().expect("start bytes");
    let parsed = ExecutionStartEvidenceV1::new(&request, 1_000, Some(10), None).expect("start");
    let started = execution_started(Some(FoundStartEvidence { parsed: Some(parsed), bytes }));
    assert!(matches!(started, Ok(true)));
    assert!(matches!(execution_started(None), Ok(false)));

    let capture = |existing, at| {
        capture_terminal_receipt_in(&request, &start, existing, None, &success(), &measures(), at)
            .expect("terminal")
    };
    let terminal = capture(None, 1_250);
    assert_eq!(terminal.process.result, ExecutionResultV1::Succeeded);
    assert_eq!(terminal.resources.cpu_usage_usec, Some(42_000));
    assert_eq!(terminal.resources.memory_peak_bytes, Some(134_217_728));
    assert_eq!(terminal.resources.tasks_peak, Some(7));
    assert_eq!(terminal.duration_ms, 250);
    assert!(validate_terminal_binding(&terminal, &request, &start).is_ok());
    let replay = capture(Some(capture(None, 1_250)), 9_999);
    assert_eq!(replay, terminal);

    let cleanup =
        materialize_cleanup_receipt(&terminal, None, true, None, None, 1_260).expect("cleanup");
    assert_eq!(cleanup.state, ExecutionCleanupStateV1::Complete);
    let again = materialize_cleanup_receipt(&terminal, Some(cleanup), false, None, None, 2_000)
        .expect("cleanup replay");
    assert_eq!(again.completed_at_ms, 1_260);
    assert!(read_cleanup_receipt(again, &terminal).is_ok());

    let substituted =
        ExecutionStartEvidenceV1::new(&request, 1_000, Some(999_999), None).expect("substituted");
    assert_eq!(
        validate_terminal_binding(&terminal, &request, &substituted),
        Err(ExecutionReceiptRuntimeError::TerminalReceiptConflict)
    );
}

#[test]
fn termination_intents_are_bound_to_the_start() {
    let request = request();
    let start = ExecutionStartEvidenceV1::new(&request, 1_000, None, None).expect("start");
    let kind = ExecutionTerminationKindV1::DeadlineExceeded;
    let intent = ExecutionTerminationIntentV1::new(&start, kind, 1_001).expect("intent");
    assert!(intent.validate_for(&start).is_ok());
    let bytes = intent.canonical_bytes().expect("bytes");
    let again = ExecutionTerminationIntentV1::new(&start, kind, 1_001).expect("intent");
    assert!(ExecutionTerminationIntentV1::decode_canonical(again, &bytes, &start).is_ok());
    let other = ExecutionStartEvidenceV1::new(&request, 1_000, Some(1), None).expect("start");
    assert_eq!(
        intent.validate_for(&other),
        Err(ExecutionReceiptRuntimeError::InvalidTerminationIntent)
    );
    assert!(ExecutionTerminationIntentV1::new(&start, kind, 999).is_err());
}

#[test]
fn numbers_and_places_are_read_as_the_kernel_writes_them() {
    assert_eq!(read_unsigned("+7"), Some(7));
    assert_eq!(read_unsigned("18446744073709551615"), Some(u64::MAX));
    assert_eq!(read_unsigned("18446744073709551616"), None);
    assert_eq!(read_unsigned("-1"), None);
    assert_eq!(parse_single_u64("+7"), None);
    assert_eq!(parse_keyed_u64("usage_usec", "usage_usec"), None);
    assert_eq!(
        resolve_cgroup_directory("0::/system.slice/test.service\n").as_deref(),
        Some("system.slice/test.service")
    );
    assert_eq!(resolve_cgroup_directory("1:cpu:/x\n"), None);
}

#[test]
fn the_reserve_is_told_whole_or_not_at_all() {
    let told = storage_usage(Some(10), Some(20), Some(5_000_000_000), Some(100_000_000_000));
    assert_eq!(told.scratch_before_bytes, Some(10));
    assert!(told.emergency_reserve_required_bytes.is_some());
    assert_eq!(told.filesystem_available_after_bytes, Some(5_000_000_000));
    let untold = storage_usage(None, None, None, Some(1));
    assert_eq!(untold.emergency_reserve_required_bytes, None);
    assert_eq!(untold.emergency_reserve_deficit_bytes, None);
}

fn facts(mode: u32) -> PathFacts {
    PathFacts {
        is_symlink: false,
        is_file: true,
        is_directory: false,
        uid: 5,
        mode,
        length: 10,
        device: 1,
        inode: 2,
    }
}

#[test]
fn receipts_are_read_only_from_private_files() {
    let good = facts(0o100600);
    assert!(check_owner_only_file(&good, &good, &good, 5).is_ok());
    let open = facts(0o100644);
    assert_eq!(
        check_owner_only_file(&open, &open, &open, 5),
        Err(ExecutionReceiptRuntimeError::UnsafeReceiptPath)
    );
    let moved = PathFacts { inode: 3, ..facts(0o100600) };
    assert_eq!(
        check_owner_only_file(&good, &moved, &good, 5),
        Err(ExecutionReceiptRuntimeError::ReceiptPathChanged)
    );
    let directory = PathFacts { is_file: false, is_directory: true, ..facts(0o40700) };
    assert!(check_private_directory(&directory, &directory, &directory, 5).is_ok());
    assert!(check_private_directory(&good, &good, &good, 5).is_err());
    assert_eq!(check_receipt_size(&[]), Err(ExecutionReceiptRuntimeError::ReceiptTooLarge));
    assert!(check_receipt_size(b"{}").is_ok());
}

#[test]
fn directories_are_measured_within_bounds() {
    let mut measure = DirectoryMeasure::new();
    assert!(matches!(measure.count(&facts(0o100600)), Ok(false)));
    let directory = PathFacts { is_file: false, is_directory: true, ..facts(0o40700) };
    assert!(matches!(measure.count(&directory), Ok(true)));
    assert_eq!(measure.total_bytes, 10);
    assert_eq!(measure.entries, 2);
    assert!(DirectoryMeasure::check_depth(1_000_000).is_err());
}
