use rdashboard::domain::identifiers::{EvidenceDigest, GitCommitId, ProjectId};
use rdashboard::domain::manifest::{
    AbsolutePolicyPath, BuildContext, BuildKind, BuildPolicy, CanonicalBranch, CiPolicy, DataClass,
    DataVolumePolicy, HealthCheckPolicy, HttpEndpoint, ManifestError, MigrationEntrypoint,
    MigrationPolicy, NotificationPolicy, NotificationRoute, ProjectManifestV2, RelativePolicyPath,
    RemoteUrl, RollbackPolicy, SourcePolicy, WriteFencePolicy, PROJECT_MANIFEST_V2_SCHEMA_VERSION,
};
use rdashboard::domain::workflow::{
    valid_workflow_identity, WorkflowAdapterIdV1, WorkflowArtifactKindV1, WorkflowCacheClassV1, WorkflowContractError,
    WorkflowDeliveryModeV1, WorkflowExecutionProfileV1, WorkflowHostPreparationAdapterV1,
    WorkflowHostPreparationPolicyV1, WorkflowNetworkClassV1, WorkflowNodeActivationV1,
    WorkflowNodeId, WorkflowNodeKindV1, WorkflowNodeV1, WorkflowPolicyV1, WorkflowProfileId,
    WorkflowResourceEnvelopeV1, WorkflowWorkerPoolV1, WORKFLOW_HOST_PREPARATION_SCHEMA_VERSION,
    WORKFLOW_POLICY_SCHEMA_VERSION,
};
use rdashboard::domain::workflow_lease::{
    WorkflowLeaseInputV1, WorkflowLeaseV1, WorkflowOperationStateV1,
};
use rdashboard::domain::workflow_receipts::{
    WorkflowCleanupReceiptV1, WorkflowCleanupResultV1, WorkflowNodeOutcomeV1, WorkflowNodeReceiptV1,
    WorkflowReductionInputV1, WorkflowReductionReceiptV1,
};
use rdashboard::unique_id::Uuid;

type Adapter = WorkflowAdapterIdV1;
type Artifact = WorkflowArtifactKindV1;
type Cache = WorkflowCacheClassV1;
type Network = WorkflowNetworkClassV1;
type Kind = WorkflowNodeKindV1;
type Pool = WorkflowWorkerPoolV1;

fn digest(text: &str) -> EvidenceDigest {
    EvidenceDigest::sha256(text.as_bytes())
}

fn node_id(text: &str) -> WorkflowNodeId {
    WorkflowNodeId::parse(text).expect("node ID")
}

fn profile_id(text: &str) -> WorkflowProfileId {
    WorkflowProfileId::parse(text).expect("profile ID")
}

fn resources() -> WorkflowResourceEnvelopeV1 {
    WorkflowResourceEnvelopeV1 {
        cpu_millicores: 2_000,
        memory_max_bytes: 1 << 30,
        tasks_max: 256,
        scratch_max_bytes: 1 << 30,
        scratch_max_inodes: 100_000,
        output_max_bytes: 1 << 20,
    }
}

struct Row(
    &'static str,
    WorkflowNodeKindV1,
    WorkflowAdapterIdV1,
    WorkflowWorkerPoolV1,
    WorkflowNetworkClassV1,
    WorkflowCacheClassV1,
    &'static [&'static str],
    &'static [WorkflowArtifactKindV1],
    WorkflowArtifactKindV1,
);

fn rows() -> Vec<Row> {
    vec![
        Row("source", Kind::SourceAdmission, Adapter::ControllerSourceAdmissionV1, Pool::Controller,
            Network::Offline, Cache::Uncached, &[], &[], Artifact::SourceSnapshot),
        Row("prepare", Kind::HostPrepare, Adapter::WorkerHostPrepareV1, Pool::VpsRequired,
            Network::Offline, Cache::Dependency, &["source"], &[Artifact::SourceSnapshot],
            Artifact::PreparedRun),
        Row("verify", Kind::Verification, Adapter::WorkerBareBinCiV1, Pool::BuildCompute,
            Network::Offline, Cache::PreparedRun, &["prepare"], &[Artifact::PreparedRun],
            Artifact::VerificationReceipt),
        Row("release", Kind::ReleaseBuild, Adapter::WorkerOciReleaseBuildV1, Pool::VpsRequired,
            Network::Offline, Cache::PreparedRun, &["prepare"], &[Artifact::PreparedRun],
            Artifact::ReleaseBuildResult),
        Row("reduce", Kind::DeterministicReduce, Adapter::ControllerReduceV1, Pool::Controller,
            Network::Offline, Cache::Uncached, &["release", "verify"],
            &[Artifact::VerificationReceipt, Artifact::ReleaseBuildResult], Artifact::ReductionReceipt),
        Row("reserve", Kind::ResourceReservation, Adapter::ExecutorResourceReserveV1,
            Pool::PrivilegedExecutor, Network::Offline, Cache::Uncached, &["reduce"],
            &[Artifact::ReductionReceipt], Artifact::ResourceReservation),
        Row("candidate", Kind::CandidateHealth, Adapter::ExecutorCandidateHealthV1,
            Pool::PrivilegedExecutor, Network::LocalHealthOnly, Cache::Uncached, &["reserve"],
            &[Artifact::ResourceReservation], Artifact::CandidateHealthReceipt),
        Row("cutover", Kind::Cutover, Adapter::ExecutorCutoverV1, Pool::PrivilegedExecutor,
            Network::Offline, Cache::Uncached, &["candidate"], &[Artifact::CandidateHealthReceipt],
            Artifact::CutoverReceipt),
        Row("observe", Kind::ReleasedObservation, Adapter::ExecutorReleasedObserveV1,
            Pool::PrivilegedExecutor, Network::LocalHealthOnly, Cache::Uncached, &["cutover"],
            &[Artifact::CutoverReceipt], Artifact::ReleasedObservationReceipt),
        Row("rollback", Kind::Rollback, Adapter::ExecutorRollbackV1, Pool::PrivilegedExecutor,
            Network::Offline, Cache::Uncached, &["cutover"], &[Artifact::CutoverReceipt],
            Artifact::RollbackReceipt),
    ]
}

fn workflow() -> WorkflowPolicyV1 {
    let mut execution_profiles = Vec::new();
    let mut nodes = Vec::new();
    for Row(name, kind, adapter, pool, network, cache, depends, inputs, output) in rows() {
        execution_profiles.push(WorkflowExecutionProfileV1 {
            profile_id: profile_id(name),
            adapter_id: adapter,
            worker_pool: pool,
            network_class: network,
            cache_class: cache,
            timeout_ms: 60_000,
            resources: (pool != WorkflowWorkerPoolV1::Controller).then_some(resources()),
        });
        nodes.push(WorkflowNodeV1 {
            node_id: node_id(name),
            display_name: name.to_owned(),
            kind,
            activation: if kind == WorkflowNodeKindV1::Rollback {
                WorkflowNodeActivationV1::OnMutationFailure
            } else {
                WorkflowNodeActivationV1::Always
            },
            profile_id: profile_id(name),
            depends_on: depends.iter().map(|id| node_id(id)).collect(),
            input_contracts: inputs.to_vec(),
            output_contract: output,
        });
    }
    WorkflowPolicyV1 {
        schema_version: WORKFLOW_POLICY_SCHEMA_VERSION,
        fairness_weight: 1,
        delivery_mode: WorkflowDeliveryModeV1::ExecutorMutation,
        execution_profiles,
        nodes,
    }
}

fn manifest() -> ProjectManifestV2 {
    ProjectManifestV2 {
        schema_version: PROJECT_MANIFEST_V2_SCHEMA_VERSION,
        project_id: ProjectId::parse("ralert").expect("project"),
        display_name: "Ralert".to_owned(),
        source: SourcePolicy {
            remote_url: RemoteUrl::parse("ssh://git@github.com/4uge/ralert.git").expect("remote"),
            branch: CanonicalBranch::Main,
        },
        ci: CiPolicy::BinCi,
        build: BuildPolicy {
            context: BuildContext::RepositoryRoot,
            kind: BuildKind::Oci,
            dockerfile: Some(RelativePolicyPath::parse("Dockerfile").expect("dockerfile")),
        },
        workflow: workflow(),
        host_preparation: Some(WorkflowHostPreparationPolicyV1 {
            schema_version: WORKFLOW_HOST_PREPARATION_SCHEMA_VERSION,
            adapter_id: WorkflowHostPreparationAdapterV1::SourceTreeV1,
            platform: "linux-amd64".to_owned(),
        }),
        health_checks: vec![HealthCheckPolicy {
            name: "ready".to_owned(),
            endpoint: HttpEndpoint::parse("http://127.0.0.1:8080/ready").expect("endpoint"),
            expected_status: 200,
            timeout_seconds: 5,
        }],
        data_volumes: vec![DataVolumePolicy {
            path: AbsolutePolicyPath::parse("/var/lib/ralert").expect("path"),
            class: DataClass::Derived,
            backup_required: false,
        }],
        migration: MigrationPolicy {
            entrypoint: MigrationEntrypoint::Absent,
            write_fence: WriteFencePolicy::Unsupported,
        },
        rollback: RollbackPolicy { code_rollback: true, soak_seconds: 60 },
        notifications: NotificationPolicy {
            route: NotificationRoute::TelegramDefault,
            maintenance_suppression: true,
        },
    }
}

fn prepare_node(manifest: &ProjectManifestV2) -> &WorkflowNodeV1 {
    manifest
        .workflow
        .nodes
        .iter()
        .find(|node| node.kind == WorkflowNodeKindV1::HostPrepare)
        .expect("host prepare node")
}

fn lease(
    manifest: &ProjectManifestV2,
    profile: &WorkflowExecutionProfileV1,
    host_preparation: Option<WorkflowHostPreparationPolicyV1>,
) -> Result<WorkflowLeaseV1, WorkflowContractError> {
    WorkflowLeaseV1::new(
        Uuid::from_u128(1),
        1,
        Uuid::from_u128(2),
        Uuid::from_u128(3),
        manifest.project_id.clone(),
        GitCommitId::parse(&"a".repeat(40)).expect("source SHA"),
        7,
        digest("source attestation"),
        manifest.workflow_policy_digest().expect("workflow policy digest"),
        digest("preparation key"),
        prepare_node(manifest),
        profile,
        host_preparation,
        vec![WorkflowLeaseInputV1 {
            node_id: node_id("source"),
            artifact_kind: WorkflowArtifactKindV1::SourceSnapshot,
            output_digest: digest("source attestation"),
        }],
        digest("expected input"),
        "shared-worker".to_owned(),
        "production-vps".to_owned(),
        100,
        1_100,
    )
}

#[test]
fn legacy_lease_without_source_identity_remains_decodable_but_cannot_start_work() {
    let manifest = manifest();
    let node = prepare_node(&manifest);
    let profile = manifest.workflow.profile(&node.profile_id).expect("host prepare profile");
    let mut lease = WorkflowLeaseV1::new(
        Uuid::from_u128(1),
        1,
        Uuid::from_u128(2),
        Uuid::from_u128(3),
        manifest.project_id.clone(),
        GitCommitId::parse(&"a".repeat(40)).expect("source SHA"),
        7,
        digest("source attestation"),
        manifest.workflow_policy_digest().expect("workflow policy digest"),
        digest("preparation key"),
        node,
        profile,
        None,
        vec![WorkflowLeaseInputV1 {
            node_id: WorkflowNodeId::parse("source").expect("source node ID"),
            artifact_kind: WorkflowArtifactKindV1::SourceSnapshot,
            output_digest: digest("source attestation"),
        }],
        digest("expected input"),
        "legacy-worker".to_owned(),
        "legacy-host".to_owned(),
        100,
        1_100,
    )
    .expect("new lease");
    lease.source_identity = None;
    lease.input_artifacts.clear();
    lease.lease_digest = lease.calculate_digest().expect("legacy lease digest");
    let canonical = lease.canonical_bytes().expect("legacy canonical lease");
    assert!(
        !String::from_utf8_lossy(&canonical).contains("source_identity"),
        "the optional field preserves the canonical encoding of stored V1 leases"
    );
    assert!(!String::from_utf8_lossy(&canonical).contains("input_artifacts"));
    assert!(!String::from_utf8_lossy(&canonical).contains("host_preparation"));
    assert!(!String::from_utf8_lossy(&canonical).contains("operation_state"));
    let decoded =
        WorkflowLeaseV1::decode_canonical(lease.clone(), &canonical).expect("decode legacy lease");
    assert_eq!(decoded, lease);
    assert!(matches!(
        decoded.required_source_identity(),
        Err(WorkflowContractError::MissingLeaseSourceIdentity)
    ));
    assert!(matches!(
        decoded.required_input_artifacts(),
        Err(WorkflowContractError::MissingLeaseInputArtifacts)
    ));
}

#[test]
fn source_tree_host_preparation_cannot_be_leased_with_dependency_egress() {
    let manifest = manifest();
    let mut altered = workflow();
    let mut profile = altered.execution_profiles.remove(1);
    assert_eq!(profile.profile_id, prepare_node(&manifest).profile_id);
    profile.network_class = WorkflowNetworkClassV1::DependencyEgress;
    let lease = lease(&manifest, &profile, manifest.host_preparation.clone());
    assert!(matches!(lease, Err(WorkflowContractError::InvalidLease)));
}

#[test]
fn cargo_host_preparation_requires_dependency_egress_only_on_the_prepare_node() {
    let mut manifest = manifest();
    let prepare_profile_id = prepare_node(&manifest).profile_id.clone();
    let policy = manifest.host_preparation.as_mut().expect("host preparation policy");
    policy.adapter_id = WorkflowHostPreparationAdapterV1::CargoCratesIoV1;
    assert_eq!(policy.required_network_class(), WorkflowNetworkClassV1::DependencyEgress);
    assert!(manifest.validate().is_err());
    manifest
        .workflow
        .execution_profiles
        .iter_mut()
        .find(|profile| profile.profile_id == prepare_profile_id)
        .expect("host prepare profile")
        .network_class = WorkflowNetworkClassV1::DependencyEgress;
    manifest.validate().expect("Cargo preparation manifest");
    assert!(manifest.workflow.execution_profiles.iter().all(|profile| {
        profile.profile_id == prepare_profile_id
            || profile.network_class != WorkflowNetworkClassV1::DependencyEgress
    }));
}

#[test]
fn native_release_build_requires_completed_verification_while_oci_stays_parallel() {
    let oci = manifest();
    oci.validate().expect("parallel OCI graph");
    let mut native = manifest();
    native.build.kind = BuildKind::Native;
    native.build.dockerfile = None;
    let release = native
        .workflow
        .nodes
        .iter_mut()
        .find(|node| node.kind == WorkflowNodeKindV1::ReleaseBuild)
        .expect("release node");
    let release_profile_id = release.profile_id.clone();
    release.depends_on = vec![node_id("prepare"), node_id("verify")];
    release.input_contracts =
        vec![WorkflowArtifactKindV1::PreparedRun, WorkflowArtifactKindV1::VerificationReceipt];
    native
        .workflow
        .execution_profiles
        .iter_mut()
        .find(|profile| profile.profile_id == release_profile_id)
        .expect("release profile")
        .adapter_id = WorkflowAdapterIdV1::WorkerNativeReleaseBuildV1;
    native.validate().expect("serial native release graph");

    let release = native
        .workflow
        .nodes
        .iter_mut()
        .find(|node| node.kind == WorkflowNodeKindV1::ReleaseBuild)
        .expect("release node");
    release.depends_on = vec![node_id("prepare")];
    release.input_contracts = vec![WorkflowArtifactKindV1::PreparedRun];
    assert!(matches!(native.validate(), Err(ManifestError::WorkflowInvalid)));
}

#[test]
fn manifests_are_read_back_in_their_one_form() {
    let bytes = manifest().canonical_bytes().expect("bytes");
    assert!(ProjectManifestV2::decode_canonical(Some(manifest()), &bytes).is_ok());
    assert!(matches!(
        ProjectManifestV2::decode_canonical(Some(manifest()), b"{}"),
        Err(ManifestError::NoncanonicalManifest)
    ));
    let text = String::from_utf8(bytes).expect("text");
    assert!(text.starts_with("{\"build\":{\"context\":\"repository_root\",\"dockerfile\":\"Dockerfile\"}"));
    assert!(!text.contains("delivery_mode"));
}

#[test]
fn graphs_are_refused_for_what_is_wrong_with_them() {
    let refused = |change: &dyn Fn(&mut WorkflowPolicyV1)| {
        let mut policy = workflow();
        change(&mut policy);
        policy.validate().err()
    };
    assert_eq!(refused(&|_| ()), None);
    assert_eq!(
        refused(&|policy| policy.schema_version = 2),
        Some(WorkflowContractError::UnsupportedSchemaVersion(2))
    );
    assert_eq!(
        refused(&|policy| policy.fairness_weight = 17),
        Some(WorkflowContractError::InvalidWorkflowBounds)
    );
    assert_eq!(
        refused(&|policy| policy.execution_profiles[1].timeout_ms = 99),
        Some(WorkflowContractError::InvalidTimeout)
    );
    assert_eq!(
        refused(&|policy| policy.nodes[1].profile_id = profile_id("missing")),
        Some(WorkflowContractError::MissingProfile(profile_id("missing")))
    );
    assert_eq!(
        refused(&|policy| policy.nodes[2].node_id = node_id("prepare")),
        Some(WorkflowContractError::InvalidDependencies(node_id("prepare")))
    );
    assert_eq!(
        refused(&|policy| policy.nodes[1].depends_on = vec![node_id("nowhere")]),
        Some(WorkflowContractError::MissingDependency {
            node: node_id("prepare"),
            dependency: node_id("nowhere"),
        })
    );
    assert_eq!(
        refused(&|policy| {
            policy.nodes[1].depends_on = vec![node_id("verify")];
            policy.nodes[1].input_contracts = vec![WorkflowArtifactKindV1::VerificationReceipt];
        }),
        Some(WorkflowContractError::CyclicGraph)
    );
    assert_eq!(
        refused(&|policy| policy.nodes[9].activation = WorkflowNodeActivationV1::Always),
        Some(WorkflowContractError::InvalidActivation(node_id("rollback")))
    );
    assert_eq!(
        refused(&|policy| {
            policy.nodes.remove(9);
        }),
        Some(WorkflowContractError::InvalidNodeCardinality(WorkflowNodeKindV1::Rollback))
    );
}

#[test]
fn nodes_are_ordered_after_what_they_depend_on() {
    let policy = workflow();
    let ordered = policy.ordered_nodes().expect("ordered");
    let names: Vec<&str> = ordered.iter().map(|node| node.node_id.as_str()).collect();
    assert_eq!(
        names,
        [
            "source", "prepare", "release", "verify", "reduce", "reserve", "candidate", "cutover",
            "observe", "rollback"
        ]
    );
}

#[test]
fn leases_are_renewed_as_the_same_execution() {
    let manifest = manifest();
    let profile = manifest.workflow.profile(&prepare_node(&manifest).profile_id).expect("profile");
    let lease = lease(&manifest, profile, manifest.host_preparation.clone()).expect("lease");
    let renewed = lease.renewed(2_000).expect("renewed");
    assert_eq!(renewed.expires_at_ms, 2_000);
    assert_eq!(lease.same_execution_as(&renewed), Ok(true));
    assert!(lease.renewed(1_100).is_err());
    assert_eq!(lease.required_source_identity().expect("identity").sequence, 7);
    assert_eq!(lease.required_input_artifacts().expect("inputs").len(), 1);
    let mut forged = lease.clone();
    forged.host_id = "elsewhere".to_owned();
    assert_eq!(forged.validate(), Err(WorkflowContractError::InvalidLease));
    let state = WorkflowOperationStateV1::new(
        lease.attempt_id,
        &lease.project_id,
        &lease.source_sha,
        &lease.workflow_policy_digest,
        &lease.preparation_key,
        "shared-worker",
        "production-vps",
        vec![node_id("verify"), node_id("prepare")],
        1 << 20,
        1_024,
    )
    .expect("state");
    assert_eq!(state.consumer_nodes[0].as_str(), "prepare");
    assert_eq!(lease.with_operation_state(state).err(), Some(WorkflowContractError::InvalidLease));
}

#[test]
fn urls_and_paths_are_held_to_their_rules() {
    for bad in [
        "http://github.com/a",
        "https://user@github.com/a",
        "https://github.com/",
        "https://github.com/a?b",
        "https://github.com/a#b",
        "nonsense",
    ] {
        assert!(RemoteUrl::parse(bad).is_err(), "{bad}");
    }
    assert!(RemoteUrl::parse("https://github.com/a").is_ok());
    for bad in ["ftp://x/", "http://user@x/", "http://x/#f", "x"] {
        assert!(HttpEndpoint::parse(bad).is_err(), "{bad}");
    }
    for bad in ["", "relative", "/a/../b", "/a//b", "/a/", "/a/./b", "/a\0"] {
        assert!(AbsolutePolicyPath::parse(bad).is_err(), "{bad}");
    }
    assert!(AbsolutePolicyPath::parse("/").is_ok());
    assert!(RelativePolicyPath::parse("/a").is_err());
    assert!(RelativePolicyPath::parse("a/b").is_ok());
}

#[test]
fn names_and_kinds_of_nodes() {
    assert!(valid_workflow_identity("build.release_1-a"));
    for refused in ["", "-a", "a-", "A", "a b"] {
        assert!(!valid_workflow_identity(refused));
    }
    assert!(WorkflowNodeKindV1::Cutover.is_mutation());
    assert!(!WorkflowNodeKindV1::ReleaseBuild.is_mutation());
}

#[test]
fn receipts_of_nodes_and_cleanups_are_bound_to_their_lease() {
    let manifest = manifest();
    let node = prepare_node(&manifest);
    let profile = manifest.workflow.profile(&node.profile_id).expect("host prepare profile");
    let lease = lease(&manifest, profile, None).expect("lease");
    let receipt = |outcome, output, cleanup, at| {
        WorkflowNodeReceiptV1::new(
            &lease,
            outcome,
            output,
            digest("execution"),
            digest("cleanup"),
            cleanup,
            at,
        )
    };
    let done = receipt(
        WorkflowNodeOutcomeV1::Succeeded,
        Some(digest("output")),
        WorkflowCleanupResultV1::Complete,
        200,
    )
    .expect("receipt");
    assert!(done.matches_lease(&lease));
    assert_eq!(done.validate(), Ok(()));
    assert!(receipt(
        WorkflowNodeOutcomeV1::Succeeded,
        None,
        WorkflowCleanupResultV1::Complete,
        200
    )
    .is_err());
    assert!(receipt(
        WorkflowNodeOutcomeV1::Succeeded,
        Some(digest("output")),
        WorkflowCleanupResultV1::Pending,
        200
    )
    .is_err());
    let failed = receipt(WorkflowNodeOutcomeV1::Failed, None, WorkflowCleanupResultV1::Pending, 200)
        .expect("receipt");
    let cleaned =
        WorkflowCleanupReceiptV1::new(&lease, Some(&failed), digest("traces"), 300).expect("cleanup");
    assert_eq!(cleaned.validate(), Ok(()));
    assert_eq!(cleaned.terminal_receipt_digest, Some(failed.receipt_digest.clone()));
    let refused = Some(WorkflowContractError::InvalidCleanupReceipt);
    let clean = |receipt, at| WorkflowCleanupReceiptV1::new(&lease, receipt, digest("traces"), at).err();
    assert_eq!(clean(Some(&failed), 199), refused);
    assert_eq!(clean(Some(&done), 300), refused);
    assert_eq!(clean(None, 99), refused);
    assert_eq!(clean(None, 100), None);
}

#[test]
fn reductions_sort_their_inputs() {
    let manifest = manifest();
    let input = |name: &str| WorkflowReductionInputV1 {
        node_id: node_id(name),
        node_kind: WorkflowNodeKindV1::Verification,
        receipt_digest: digest(name),
        output_digest: digest("output"),
    };
    let reduce = |inputs| {
        WorkflowReductionReceiptV1::new(
            Uuid::from_u128(2),
            Uuid::from_u128(3),
            manifest.project_id.clone(),
            GitCommitId::parse(&"a".repeat(40)).expect("source SHA"),
            digest("policy"),
            digest("preparation key"),
            node_id("reduce"),
            inputs,
            400,
        )
    };
    let receipt = reduce(vec![input("lint"), input("build"), input("test")]).expect("receipt");
    let names: Vec<&str> = receipt.inputs.iter().map(|input| input.node_id.as_str()).collect();
    assert_eq!(names, ["build", "lint", "test"]);
    assert_eq!(receipt.validate(), Ok(()));
    assert_eq!(
        reduce(vec![input("lint"), input("lint")]).err(),
        Some(WorkflowContractError::InvalidReductionReceipt)
    );
    assert!(reduce(Vec::new()).is_err());
}
