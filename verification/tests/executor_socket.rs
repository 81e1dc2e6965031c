use rdashboard::dependency_fetch::FrameError;
use rdashboard::domain::identifiers::ProjectId;
use rdashboard::domain::operation::OperationKind;
use rdashboard::executor_authority::ActionGrantFindings;
use rdashboard::executor_socket::{
    check_request_end, ControlRejectionCodeV1, ControlRequestEnvelope, ControlRequestV1,
    ControlResponseEnvelope, ControlResponseV1, ExecutorClientError, ExecutorConfigError,
    ExecutorServerConfig, ExecutorSocketBinding, ExecutorSocketError, HandlerAction,
    MutationAcceptanceV1, MutationFailureV1, ProtocolValidationError, ReadOnlyExecutorHandler,
    RootExecutorClient, RootExecutorConfigV1, ROOT_EXECUTOR_SOCKET_PATH,
};
use rdashboard::paths::{
    is_absolute_without_parents, is_normalized_absolute_path, is_same_place, split_path, NodeFacts,
};
use rdashboard::unique_id::Uuid;

const SECOND: u128 = 1_000_000_000;
const VERSION: u16 = 1;

type Handler = ReadOnlyExecutorHandler<&'static str, (), &'static str>;

fn client() -> RootExecutorClient {
    RootExecutorClient::new(ROOT_EXECUTOR_SOCKET_PATH.to_owned(), SECOND, VERSION).expect("client")
}

fn envelope(request: ControlRequestV1) -> ControlRequestEnvelope {
    ControlRequestEnvelope { version: VERSION, request_id: Uuid::from_u128(5), request }
}

fn answered(action: HandlerAction<u64>) -> ControlResponseEnvelope<u64> {
    match action {
        HandlerAction::Respond(envelope) => envelope,
        other => panic!("not answered at once: {other:?}"),
    }
}

fn config() -> RootExecutorConfigV1 {
    RootExecutorConfigV1 {
        schema_version: 1,
        controller_uid: 1000,
        socket_path: ROOT_EXECUTOR_SOCKET_PATH.to_owned(),
        metrics_disk_path: "/var/lib".to_owned(),
        max_connections: 8,
        request_timeout_ms: 1_000,
        mutation_authority: None,
    }
}

#[test]
fn paths_are_absolute_normalized_and_bounded() {
    for good in ["/", "/a", "/run/x.sock", "/..a", "/.a/b.", "/a/..."] {
        assert!(is_normalized_absolute_path(good), "{good}");
    }
    let long = format!("/{}", "a".repeat(512));
    for bad in [
        "", "run", "./run", "/a/..", "/../a", "/a/../b", "//", "//a", "/a//b", "/a/", "/.", "/./a", "/a/./b",
        "/a/.", long.as_str(),
    ] {
        assert!(!is_normalized_absolute_path(bad), "{bad}");
    }
    for downwards in ["/", "/a//b/", "/a/./b", "/..a"] {
        assert!(is_absolute_without_parents(downwards), "{downwards}");
    }
    for bad in ["", "run", "/a/..", "/../a", long.as_str()] {
        assert!(!is_absolute_without_parents(bad), "{bad}");
    }
    assert_eq!(split_path("/a//./b/"), ["a", "b"]);
    assert!(is_same_place("/run//rdashboard/executor.sock", ROOT_EXECUTOR_SOCKET_PATH));
    assert!(!is_same_place("run/rdashboard/executor.sock", ROOT_EXECUTOR_SOCKET_PATH));
}

#[test]
fn configurations_are_checked_in_order() {
    let none = ActionGrantFindings::none();
    let server = config().server_config(&none).expect("server");
    assert_eq!(server.request_timeout(), SECOND);
    assert_eq!(server.max_connections(), 8);
    let broken: [(RootExecutorConfigV1, ExecutorConfigError); 7] = [
        (RootExecutorConfigV1 { schema_version: 2, ..config() }, ExecutorConfigError::UnsupportedSchemaVersion(2)),
        (RootExecutorConfigV1 { controller_uid: 0, ..config() }, ExecutorConfigError::InvalidControllerUid),
        (
            RootExecutorConfigV1 { socket_path: "/tmp/executor.sock".to_owned(), ..config() },
            ExecutorConfigError::InvalidSocketPath,
        ),
        (
            RootExecutorConfigV1 { metrics_disk_path: "var".to_owned(), ..config() },
            ExecutorConfigError::InvalidMetricsDiskPath,
        ),
        (
            RootExecutorConfigV1 { metrics_disk_path: "/var//lib".to_owned(), ..config() },
            ExecutorConfigError::InvalidMetricsDiskPath,
        ),
        (RootExecutorConfigV1 { max_connections: 129, ..config() }, ExecutorConfigError::InvalidConnectionLimit),
        (RootExecutorConfigV1 { request_timeout_ms: 99, ..config() }, ExecutorConfigError::InvalidRequestTimeout),
    ];
    for (config, error) in broken {
        assert_eq!(config.validate(&none), Err(error));
        assert_eq!(config.server_config(&none).err(), Some(error));
    }
    assert_eq!(
        ExecutorServerConfig::new(0, 0, SECOND).err(),
        Some(ExecutorConfigError::InvalidConnectionLimit)
    );
    assert!(matches!(
        RootExecutorClient::new("x".to_owned(), SECOND, VERSION),
        Err(ExecutorClientError::InvalidSocketPath)
    ));
    assert!(matches!(
        RootExecutorClient::new("/x".to_owned(), 31 * SECOND, VERSION),
        Err(ExecutorClientError::InvalidRequestTimeout)
    ));
    assert_eq!(
        ExecutorConfigError::InvalidControllerUid.message(),
        "controller UID must identify a non-root Unix account"
    );
}

#[test]
fn peers_and_requests_are_taken_whole() {
    let server = ExecutorServerConfig::new(1000, 1, SECOND).expect("server");
    assert_eq!(server.admit_peer(1000), Ok(()));
    assert_eq!(server.admit_peer(0), Err(ExecutorSocketError::UnauthorizedPeer { received: 0 }));
    assert_eq!(check_request_end(0), Ok(()));
    assert_eq!(
        check_request_end(1),
        Err(ExecutorSocketError::Frame(FrameError::TrailingBytes(1)))
    );
}

#[test]
fn a_version_is_agreed_on_before_anything_is_asked() {
    let handler = Handler::linux("host", VERSION);
    let mut client = client();
    let first = client.negotiation(Uuid::from_u128(5)).expect("nothing was agreed on");
    let reply = answered(handler.take_request(first, None));
    let response = client.take_response(reply, Uuid::from_u128(5)).expect("bound");
    client.take_negotiation(response).expect("agreed");
    assert!(client.negotiation(Uuid::from_u128(6)).is_none());

    let asked = client.envelope(ControlRequestV1::ObserveHostSnapshot, Uuid::from_u128(6));
    assert!(matches!(handler.take_request::<u64>(asked, None), HandlerAction::CollectHost));
    let reply = handler.answer_host(Uuid::from_u128(6), Some(42_u64));
    let response = client.take_response(reply, Uuid::from_u128(6)).expect("bound");
    assert_eq!(client.observe_host(response), Ok(42));

    let lost = handler.answer_host::<u64>(Uuid::from_u128(7), None);
    let response = client.take_response(lost, Uuid::from_u128(7)).expect("bound");
    assert_eq!(
        client.observe_host(response),
        Err(ExecutorClientError::Rejected {
            code: ControlRejectionCodeV1::InternalFailure,
            retryable: true,
        })
    );
    let foreign = handler.answer_host(Uuid::from_u128(8), Some(1_u64));
    assert!(matches!(
        client.take_response(foreign, Uuid::from_u128(9)),
        Err(ExecutorClientError::ResponseBindingMismatch)
    ));
    assert!(client.negotiation(Uuid::from_u128(10)).is_some());
}

#[test]
fn an_executor_without_control_changes_nothing() {
    let handler = Handler::linux_with_mutation_authority("host", (), VERSION);
    assert!(handler.mutation_authority_loaded());
    assert!(!handler.mutation_enabled());
    let grant = || ControlRequestV1::ExecuteGrantedOperation {
        intent_id: Uuid::from_u128(1),
        attempt_id: Uuid::from_u128(2),
        action_grant: "grant".to_owned(),
    };
    let reply = answered(handler.take_request(envelope(grant()), None));
    assert!(matches!(
        reply.response,
        ControlResponseV1::Rejected {
            code: ControlRejectionCodeV1::MutationAuthorityUnavailable,
            retryable: false,
        }
    ));
    let enabled = Handler::linux_with_mutation_control("host", "control", VERSION);
    assert!(enabled.mutation_enabled());
    assert!(matches!(
        enabled.take_request::<u64>(envelope(grant()), None),
        HandlerAction::AcceptGrant(asked) if asked.action_grant == "grant"
    ));
    let prepare = ControlRequestV1::PrepareOperationIntent {
        project_id: ProjectId::parse("ralert").expect("project"),
        operation_kind: OperationKind::BackupOnly,
        target_commit: None,
        release_class: None,
        idempotency_key: Uuid::from_u128(3),
    };
    assert!(matches!(
        enabled.take_request::<u64>(envelope(prepare), None),
        HandlerAction::PrepareIntent(asked) if asked.idempotency_key == Uuid::from_u128(3)
    ));
}

#[test]
fn wrong_requests_are_rejected() {
    let handler = Handler::linux("host", VERSION);
    let code = |request, fault| match answered(handler.take_request(envelope(request), fault)).response {
        ControlResponseV1::Rejected { code, retryable } => {
            assert!(!retryable);
            code
        }
        other => panic!("not rejected: {other:?}"),
    };
    assert_eq!(
        code(ControlRequestV1::ObserveHostSnapshot, Some(ProtocolValidationError::UnsupportedVersion(9))),
        ControlRejectionCodeV1::UnsupportedProtocolVersion
    );
    assert_eq!(
        code(ControlRequestV1::ObserveHostSnapshot, Some(ProtocolValidationError::Invalid)),
        ControlRejectionCodeV1::InvalidRequest
    );
    assert_eq!(
        code(ControlRequestV1::ObserveDockerSnapshot, None),
        ControlRejectionCodeV1::ProjectObservationNotConfigured
    );
    assert_eq!(
        code(ControlRequestV1::Negotiate { supported_versions: vec![2] }, None),
        ControlRejectionCodeV1::UnsupportedProtocolVersion
    );
}

#[test]
fn answers_on_mutations_must_be_of_them() {
    let handler = Handler::linux_with_mutation_control("host", "control", VERSION);
    let mut client = client();
    let accepted = MutationAcceptanceV1 {
        intent_id: Uuid::from_u128(1),
        attempt_id: Uuid::from_u128(2),
        replayed: true,
    };
    let reply = handler.answer_accepted::<u64>(Uuid::from_u128(5), Some(Ok(accepted)));
    let taken = client
        .execute_granted_operation(Uuid::from_u128(1), Uuid::from_u128(2), reply.response)
        .expect("accepted");
    assert!(taken.replayed);
    let reply = handler.answer_accepted::<u64>(Uuid::from_u128(5), Some(Ok(accepted)));
    assert_eq!(
        client.execute_granted_operation(Uuid::from_u128(9), Uuid::from_u128(2), reply.response).err(),
        Some(ExecutorClientError::UnexpectedResponse)
    );
    let refused = MutationFailureV1 {
        code: ControlRejectionCodeV1::Refused("busy".to_owned()),
        retryable: true,
    };
    let reply = handler.answer_prepared::<u64>(Uuid::from_u128(5), Some(Err(refused)));
    assert_eq!(
        client.prepare_operation_intent(reply.response),
        Err(ExecutorClientError::Rejected {
            code: ControlRejectionCodeV1::Refused("busy".to_owned()),
            retryable: true,
        })
    );
    let reply = handler.answer_prepared::<u64>(Uuid::from_u128(5), Some(Ok("intent".to_owned())));
    assert_eq!(client.prepare_operation_intent(reply.response), Ok("intent".to_owned()));
}

#[test]
fn sockets_are_bound_where_nothing_is() {
    let binding = || ExecutorSocketBinding::begin("/run/x.sock".to_owned()).expect("path");
    let node = NodeFacts {
        is_directory: true,
        is_symlink: false,
        is_socket: false,
        uid: 0,
        gid: 0,
        mode: 0,
        device: 1,
        inode: 2,
    };
    assert!(binding().check_parent(&node).is_ok());
    assert_eq!(
        binding().check_parent(&NodeFacts { is_symlink: true, ..node }),
        Err(ExecutorSocketError::UnsafeBindParent)
    );
    assert!(binding().check_existing(&None).is_ok());
    assert_eq!(binding().check_existing(&Some(node)), Err(ExecutorSocketError::SocketPathExists));
    assert_eq!(binding().finish(&node).err(), Some(ExecutorSocketError::BoundPathNotSocket));
    let guard = binding().finish(&NodeFacts { is_socket: true, ..node }).expect("bound");
    assert_eq!(guard.path, "/run/x.sock");
    assert!(ExecutorSocketBinding::begin("/".to_owned()).is_err());
    assert!(ExecutorSocketBinding::begin("/run/./x.sock".to_owned()).is_ok());
    assert!(ExecutorSocketBinding::begin("/run/../x.sock".to_owned()).is_err());
}
