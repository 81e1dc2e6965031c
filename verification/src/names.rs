//! Names tell apart what they name: no two phases, kinds, states or reasons are written alike.

use vstd::prelude::*;
use crate::controller::admission::DeliveryChannel;
use crate::domain::artifacts::ExecutorPhaseBranch;
use crate::domain::execution::{
    ExecutionCleanupEvidenceGapV1, ExecutionCleanupStateV1, ExecutionEvidenceGapV1,
    ExecutionResultV1,
};
use crate::domain::failure::{
    FailureContextGapV2, FailureContextRelationV2, FailureRollbackStateV2,
    ProductionMutationStateV2,
};
use crate::domain::manifest::{BuildKind, DataClass, MigrationEntrypoint, WriteFencePolicy};
use crate::domain::operation::{
    AutomationSource, MutationExecutionStateV1, OperationKind, OperationRecoveryMode,
    ReleaseClass,
};
use crate::domain::states::{
    BackupStatus, BlockingReason, NotificationDelivery, NotificationPath, OperationPhase,
    OperationResult, ProjectCondition, Retryability, RollbackCapability,
};
use crate::domain::workflow::{
    WorkflowAdapterIdV1, WorkflowArtifactKindV1, WorkflowCacheClassV1, WorkflowDeliveryModeV1,
    WorkflowHostPreparationAdapterV1, WorkflowNetworkClassV1, WorkflowNodeActivationV1,
    WorkflowNodeKindV1, WorkflowWorkerPoolV1,
};
use crate::domain::workflow_receipts::{WorkflowCleanupResultV1, WorkflowNodeOutcomeV1};
use crate::execution_receipt::ExecutionTerminationKindV1;
use crate::fence_adapter::{FenceAdapterActionV1, RimgOperationalModeV1};

verus! {

/// No two values of `FenceAdapterActionV1` have one name.
pub broadcast proof fn law_fence_adapter_action_names_differ(
    a: FenceAdapterActionV1,
    b: FenceAdapterActionV1,
)
    ensures
        #![trigger a.name(), b.name()]
        a.name() == b.name() ==> a == b,
{
    reveal_strlit("acquire");
    assert("acquire"@.len() == 7);
    reveal_strlit("release_and_resume");
    assert("release_and_resume"@.len() == 18);
}

/// No two values of `RimgOperationalModeV1` have one name.
pub broadcast proof fn law_rimg_operational_mode_names_differ(
    a: RimgOperationalModeV1,
    b: RimgOperationalModeV1,
)
    ensures
        #![trigger a.name(), b.name()]
        a.name() == b.name() ==> a == b,
{
    reveal_strlit("normal");
    assert("normal"@.len() == 6);
    reveal_strlit("draining");
    assert("draining"@.len() == 8);
    reveal_strlit("fenced");
    assert("fenced"@.len() == 6);
    assert("normal"@[0] != "fenced"@[0]);
}

/// No two values of `DeliveryChannel` have one name.
pub broadcast proof fn law_delivery_channel_names_differ(a: DeliveryChannel, b: DeliveryChannel)
    ensures
        #![trigger a.name(), b.name()]
        a.name() == b.name() ==> a == b,
{
    reveal_strlit("github_webhook");
    assert("github_webhook"@.len() == 14);
    reveal_strlit("source_reconciliation");
    assert("source_reconciliation"@.len() == 21);
    reveal_strlit("direct_push");
    assert("direct_push"@.len() == 11);
}

/// No two values of `FailureContextRelationV2` have one name.
pub broadcast proof fn law_failure_context_relation_names_differ(
    a: FailureContextRelationV2,
    b: FailureContextRelationV2,
)
    ensures
        #![trigger a.name(), b.name()]
        a.name() == b.name() ==> a == b,
{
    reveal_strlit("before");
    assert("before"@.len() == 6);
    reveal_strlit("cause");
    assert("cause"@.len() == 5);
    reveal_strlit("after");
    assert("after"@.len() == 5);
    assert("cause"@[0] != "after"@[0]);
}

/// No two values of `ProductionMutationStateV2` have one name.
pub broadcast proof fn law_production_mutation_state_names_differ(
    a: ProductionMutationStateV2,
    b: ProductionMutationStateV2,
)
    ensures
        #![trigger a.name(), b.name()]
        a.name() == b.name() ==> a == b,
{
    reveal_strlit("not_started");
    assert("not_started"@.len() == 11);
    reveal_strlit("started");
    assert("started"@.len() == 7);
    reveal_strlit("completed");
    assert("completed"@.len() == 9);
    reveal_strlit("unknown");
    assert("unknown"@.len() == 7);
    assert("started"@[0] != "unknown"@[0]);
}

/// No two values of `FailureRollbackStateV2` have one name.
pub broadcast proof fn law_failure_rollback_state_names_differ(
    a: FailureRollbackStateV2,
    b: FailureRollbackStateV2,
)
    ensures
        #![trigger a.name(), b.name()]
        a.name() == b.name() ==> a == b,
{
    reveal_strlit("not_required");
    assert("not_required"@.len() == 12);
    reveal_strlit("eligible");
    assert("eligible"@.len() == 8);
    reveal_strlit("started");
    assert("started"@.len() == 7);
    reveal_strlit("succeeded");
    assert("succeeded"@.len() == 9);
    reveal_strlit("failed");
    assert("failed"@.len() == 6);
    reveal_strlit("unknown");
    assert("unknown"@.len() == 7);
    assert("started"@[0] != "unknown"@[0]);
}

/// No two values of `FailureContextGapV2` have one name.
pub broadcast proof fn law_failure_context_gap_names_differ(
    a: FailureContextGapV2,
    b: FailureContextGapV2,
)
    ensures
        #![trigger a.name(), b.name()]
        a.name() == b.name() ==> a == b,
{
    reveal_strlit("raw_log");
    assert("raw_log"@.len() == 7);
    reveal_strlit("terminal_receipt");
    assert("terminal_receipt"@.len() == 16);
    reveal_strlit("cleanup_receipt");
    assert("cleanup_receipt"@.len() == 15);
    reveal_strlit("previous_release");
    assert("previous_release"@.len() == 16);
    reveal_strlit("attempted_release");
    assert("attempted_release"@.len() == 17);
    reveal_strlit("health_evidence");
    assert("health_evidence"@.len() == 15);
    assert("terminal_receipt"@[0] != "previous_release"@[0]);
    assert("cleanup_receipt"@[0] != "health_evidence"@[0]);
}

/// No two values of `ExecutorPhaseBranch` have one name.
pub broadcast proof fn law_executor_phase_branch_names_differ(
    a: ExecutorPhaseBranch,
    b: ExecutorPhaseBranch,
)
    ensures
        #![trigger a.name(), b.name()]
        a.name() == b.name() ==> a == b,
{
    reveal_strlit("primary");
    assert("primary"@.len() == 7);
    reveal_strlit("rollback_recovery");
    assert("rollback_recovery"@.len() == 17);
}

/// No two values of `OperationKind` have one name.
pub broadcast proof fn law_operation_kind_names_differ(a: OperationKind, b: OperationKind)
    ensures
        #![trigger a.name(), b.name()]
        a.name() == b.name() ==> a == b,
{
    reveal_strlit("deploy");
    assert("deploy"@.len() == 6);
    reveal_strlit("code_rollback");
    assert("code_rollback"@.len() == 13);
    reveal_strlit("backup_only");
    assert("backup_only"@.len() == 11);
}

/// No two values of `MutationExecutionStateV1` have one name.
pub broadcast proof fn law_mutation_execution_state_names_differ(
    a: MutationExecutionStateV1,
    b: MutationExecutionStateV1,
)
    ensures
        #![trigger a.name(), b.name()]
        a.name() == b.name() ==> a == b,
{
    reveal_strlit("accepted");
    assert("accepted"@.len() == 8);
    reveal_strlit("running");
    assert("running"@.len() == 7);
    reveal_strlit("needs_reconcile");
    assert("needs_reconcile"@.len() == 15);
    reveal_strlit("succeeded");
    assert("succeeded"@.len() == 9);
}

/// No two values of `ReleaseClass` have one name.
pub broadcast proof fn law_release_class_names_differ(a: ReleaseClass, b: ReleaseClass)
    ensures
        #![trigger a.name(), b.name()]
        a.name() == b.name() ==> a == b,
{
    reveal_strlit("code_only_compatible");
    assert("code_only_compatible"@.len() == 20);
    reveal_strlit("stateful_compatible");
    assert("stateful_compatible"@.len() == 19);
    reveal_strlit("stateful_breaking");
    assert("stateful_breaking"@.len() == 17);
    reveal_strlit("rollback");
    assert("rollback"@.len() == 8);
}

/// No two values of `AutomationSource` have one name.
pub broadcast proof fn law_automation_source_names_differ(a: AutomationSource, b: AutomationSource)
    ensures
        #![trigger a.name(), b.name()]
        a.name() == b.name() ==> a == b,
{
    reveal_strlit("github_webhook");
    assert("github_webhook"@.len() == 14);
    reveal_strlit("source_reconciliation");
    assert("source_reconciliation"@.len() == 21);
    reveal_strlit("direct_push");
    assert("direct_push"@.len() == 11);
}

/// No two values of `OperationRecoveryMode` have one name.
pub broadcast proof fn law_operation_recovery_mode_names_differ(
    a: OperationRecoveryMode,
    b: OperationRecoveryMode,
)
    ensures
        #![trigger a.name(), b.name()]
        a.name() == b.name() ==> a == b,
{
    reveal_strlit("rollback");
    assert("rollback"@.len() == 8);
    reveal_strlit("reconciliation");
    assert("reconciliation"@.len() == 14);
}

/// No two values of `WorkflowArtifactKindV1` have one name.
pub broadcast proof fn law_workflow_artifact_kind_names_differ(
    a: WorkflowArtifactKindV1,
    b: WorkflowArtifactKindV1,
)
    ensures
        #![trigger a.name(), b.name()]
        a.name() == b.name() ==> a == b,
{
    reveal_strlit("source_snapshot");
    assert("source_snapshot"@.len() == 15);
    reveal_strlit("prepared_run");
    assert("prepared_run"@.len() == 12);
    reveal_strlit("verification_receipt");
    assert("verification_receipt"@.len() == 20);
    reveal_strlit("release_build_result");
    assert("release_build_result"@.len() == 20);
    reveal_strlit("release_bundle");
    assert("release_bundle"@.len() == 14);
    reveal_strlit("reduction_receipt");
    assert("reduction_receipt"@.len() == 17);
    reveal_strlit("resource_reservation");
    assert("resource_reservation"@.len() == 20);
    reveal_strlit("backup_receipt");
    assert("backup_receipt"@.len() == 14);
    reveal_strlit("migration_receipt");
    assert("migration_receipt"@.len() == 17);
    reveal_strlit("candidate_health_receipt");
    assert("candidate_health_receipt"@.len() == 24);
    reveal_strlit("cutover_receipt");
    assert("cutover_receipt"@.len() == 15);
    reveal_strlit("released_observation_receipt");
    assert("released_observation_receipt"@.len() == 28);
    reveal_strlit("rollback_receipt");
    assert("rollback_receipt"@.len() == 16);
    assert("source_snapshot"@[0] != "cutover_receipt"@[0]);
    assert("verification_receipt"@[0] != "release_build_result"@[0]);
    assert("verification_receipt"@[0] != "resource_reservation"@[0]);
    assert("release_build_result"@[2] != "resource_reservation"@[2]);
    assert("release_bundle"@[0] != "backup_receipt"@[0]);
    assert("reduction_receipt"@[0] != "migration_receipt"@[0]);
}

/// No two values of `WorkflowAdapterIdV1` have one name.
pub broadcast proof fn law_workflow_adapter_id_names_differ(
    a: WorkflowAdapterIdV1,
    b: WorkflowAdapterIdV1,
)
    ensures
        #![trigger a.name(), b.name()]
        a.name() == b.name() ==> a == b,
{
    reveal_strlit("controller_source_admission_v1");
    assert("controller_source_admission_v1"@.len() == 30);
    reveal_strlit("worker_host_prepare_v1");
    assert("worker_host_prepare_v1"@.len() == 22);
    reveal_strlit("worker_bare_bin_ci_v1");
    assert("worker_bare_bin_ci_v1"@.len() == 21);
    reveal_strlit("worker_native_release_build_v1");
    assert("worker_native_release_build_v1"@.len() == 30);
    reveal_strlit("worker_oci_release_build_v1");
    assert("worker_oci_release_build_v1"@.len() == 27);
    reveal_strlit("controller_reduce_v1");
    assert("controller_reduce_v1"@.len() == 20);
    reveal_strlit("executor_resource_reserve_v1");
    assert("executor_resource_reserve_v1"@.len() == 28);
    reveal_strlit("executor_backup_v1");
    assert("executor_backup_v1"@.len() == 18);
    reveal_strlit("executor_migration_v1");
    assert("executor_migration_v1"@.len() == 21);
    reveal_strlit("executor_candidate_health_v1");
    assert("executor_candidate_health_v1"@.len() == 28);
    reveal_strlit("executor_cutover_v1");
    assert("executor_cutover_v1"@.len() == 19);
    reveal_strlit("executor_released_observe_v1");
    assert("executor_released_observe_v1"@.len() == 28);
    reveal_strlit("executor_rollback_v1");
    assert("executor_rollback_v1"@.len() == 20);
    assert("controller_source_admission_v1"@[0] != "worker_native_release_build_v1"@[0]);
    assert("worker_bare_bin_ci_v1"@[0] != "executor_migration_v1"@[0]);
    assert("controller_reduce_v1"@[0] != "executor_rollback_v1"@[0]);
    assert("executor_resource_reserve_v1"@[9] != "executor_candidate_health_v1"@[9]);
    assert("executor_resource_reserve_v1"@[11] != "executor_released_observe_v1"@[11]);
    assert("executor_candidate_health_v1"@[9] != "executor_released_observe_v1"@[9]);
}

/// No two values of `WorkflowWorkerPoolV1` have one name.
pub broadcast proof fn law_workflow_worker_pool_names_differ(
    a: WorkflowWorkerPoolV1,
    b: WorkflowWorkerPoolV1,
)
    ensures
        #![trigger a.name(), b.name()]
        a.name() == b.name() ==> a == b,
{
    reveal_strlit("controller");
    assert("controller"@.len() == 10);
    reveal_strlit("vps_required");
    assert("vps_required"@.len() == 12);
    reveal_strlit("build_compute");
    assert("build_compute"@.len() == 13);
    reveal_strlit("privileged_executor");
    assert("privileged_executor"@.len() == 19);
}

/// No two values of `WorkflowNetworkClassV1` have one name.
pub broadcast proof fn law_workflow_network_class_names_differ(
    a: WorkflowNetworkClassV1,
    b: WorkflowNetworkClassV1,
)
    ensures
        #![trigger a.name(), b.name()]
        a.name() == b.name() ==> a == b,
{
    reveal_strlit("offline");
    assert("offline"@.len() == 7);
    reveal_strlit("dependency_egress");
    assert("dependency_egress"@.len() == 17);
    reveal_strlit("local_health_only");
    assert("local_health_only"@.len() == 17);
    assert("dependency_egress"@[0] != "local_health_only"@[0]);
}

/// No two values of `WorkflowCacheClassV1` have one name.
pub broadcast proof fn law_workflow_cache_class_names_differ(
    a: WorkflowCacheClassV1,
    b: WorkflowCacheClassV1,
)
    ensures
        #![trigger a.name(), b.name()]
        a.name() == b.name() ==> a == b,
{
    reveal_strlit("none");
    assert("none"@.len() == 4);
    reveal_strlit("dependency");
    assert("dependency"@.len() == 10);
    reveal_strlit("prepared_run");
    assert("prepared_run"@.len() == 12);
}

/// No two values of `WorkflowDeliveryModeV1` have one name.
pub broadcast proof fn law_workflow_delivery_mode_names_differ(
    a: WorkflowDeliveryModeV1,
    b: WorkflowDeliveryModeV1,
)
    ensures
        #![trigger a.name(), b.name()]
        a.name() == b.name() ==> a == b,
{
    reveal_strlit("executor_mutation");
    assert("executor_mutation"@.len() == 17);
    reveal_strlit("self_update_handoff");
    assert("self_update_handoff"@.len() == 19);
}

/// No two values of `WorkflowNodeActivationV1` have one name.
pub broadcast proof fn law_workflow_node_activation_names_differ(
    a: WorkflowNodeActivationV1,
    b: WorkflowNodeActivationV1,
)
    ensures
        #![trigger a.name(), b.name()]
        a.name() == b.name() ==> a == b,
{
    reveal_strlit("always");
    assert("always"@.len() == 6);
    reveal_strlit("on_mutation_failure");
    assert("on_mutation_failure"@.len() == 19);
}

/// No two values of `WorkflowHostPreparationAdapterV1` have one name.
pub broadcast proof fn law_workflow_host_preparation_adapter_names_differ(
    a: WorkflowHostPreparationAdapterV1,
    b: WorkflowHostPreparationAdapterV1,
)
    ensures
        #![trigger a.name(), b.name()]
        a.name() == b.name() ==> a == b,
{
    reveal_strlit("cargo_crates_io_v1");
    assert("cargo_crates_io_v1"@.len() == 18);
    reveal_strlit("source_tree_v1");
    assert("source_tree_v1"@.len() == 14);
}

/// No two values of `WorkflowNodeKindV1` have one name.
pub broadcast proof fn law_workflow_node_kind_names_differ(
    a: WorkflowNodeKindV1,
    b: WorkflowNodeKindV1,
)
    ensures
        #![trigger a.name(), b.name()]
        a.name() == b.name() ==> a == b,
{
    reveal_strlit("source_admission");
    assert("source_admission"@.len() == 16);
    reveal_strlit("host_prepare");
    assert("host_prepare"@.len() == 12);
    reveal_strlit("verification");
    assert("verification"@.len() == 12);
    reveal_strlit("release_build");
    assert("release_build"@.len() == 13);
    reveal_strlit("deterministic_reduce");
    assert("deterministic_reduce"@.len() == 20);
    reveal_strlit("resource_reservation");
    assert("resource_reservation"@.len() == 20);
    reveal_strlit("backup");
    assert("backup"@.len() == 6);
    reveal_strlit("migration");
    assert("migration"@.len() == 9);
    reveal_strlit("candidate_health");
    assert("candidate_health"@.len() == 16);
    reveal_strlit("cutover");
    assert("cutover"@.len() == 7);
    reveal_strlit("released_observation");
    assert("released_observation"@.len() == 20);
    reveal_strlit("rollback");
    assert("rollback"@.len() == 8);
    assert("source_admission"@[0] != "candidate_health"@[0]);
    assert("host_prepare"@[0] != "verification"@[0]);
    assert("deterministic_reduce"@[0] != "resource_reservation"@[0]);
    assert("deterministic_reduce"@[0] != "released_observation"@[0]);
    assert("resource_reservation"@[2] != "released_observation"@[2]);
}

/// No two values of `ExecutionResultV1` have one name.
pub broadcast proof fn law_execution_result_names_differ(a: ExecutionResultV1, b: ExecutionResultV1)
    ensures
        #![trigger a.name(), b.name()]
        a.name() == b.name() ==> a == b,
{
    reveal_strlit("succeeded");
    assert("succeeded"@.len() == 9);
    reveal_strlit("failed");
    assert("failed"@.len() == 6);
    reveal_strlit("timed_out");
    assert("timed_out"@.len() == 9);
    reveal_strlit("oom_killed");
    assert("oom_killed"@.len() == 10);
    reveal_strlit("cancelled");
    assert("cancelled"@.len() == 9);
    assert("succeeded"@[0] != "timed_out"@[0]);
    assert("succeeded"@[0] != "cancelled"@[0]);
    assert("timed_out"@[0] != "cancelled"@[0]);
}

/// No two values of `ExecutionEvidenceGapV1` have one name.
pub broadcast proof fn law_execution_evidence_gap_names_differ(
    a: ExecutionEvidenceGapV1,
    b: ExecutionEvidenceGapV1,
)
    ensures
        #![trigger a.name(), b.name()]
        a.name() == b.name() ==> a == b,
{
    reveal_strlit("cpu_usage");
    assert("cpu_usage"@.len() == 9);
    reveal_strlit("memory_peak");
    assert("memory_peak"@.len() == 11);
    reveal_strlit("memory_events");
    assert("memory_events"@.len() == 13);
    reveal_strlit("io");
    assert("io"@.len() == 2);
    reveal_strlit("tasks_peak");
    assert("tasks_peak"@.len() == 10);
    reveal_strlit("scratch_before");
    assert("scratch_before"@.len() == 14);
    reveal_strlit("scratch_after");
    assert("scratch_after"@.len() == 13);
    reveal_strlit("scratch_peak");
    assert("scratch_peak"@.len() == 12);
    reveal_strlit("cache_delta");
    assert("cache_delta"@.len() == 11);
    reveal_strlit("log_delta");
    assert("log_delta"@.len() == 9);
    reveal_strlit("filesystem_available");
    assert("filesystem_available"@.len() == 20);
    reveal_strlit("emergency_reserve");
    assert("emergency_reserve"@.len() == 17);
    reveal_strlit("process_status");
    assert("process_status"@.len() == 14);
    assert("cpu_usage"@[0] != "log_delta"@[0]);
    assert("memory_peak"@[0] != "cache_delta"@[0]);
    assert("memory_events"@[0] != "scratch_after"@[0]);
    assert("scratch_before"@[0] != "process_status"@[0]);
}

/// No two values of `ExecutionCleanupStateV1` have one name.
pub broadcast proof fn law_execution_cleanup_state_names_differ(
    a: ExecutionCleanupStateV1,
    b: ExecutionCleanupStateV1,
)
    ensures
        #![trigger a.name(), b.name()]
        a.name() == b.name() ==> a == b,
{
    reveal_strlit("complete");
    assert("complete"@.len() == 8);
    reveal_strlit("pending");
    assert("pending"@.len() == 7);
}

/// No two values of `ExecutionCleanupEvidenceGapV1` have one name.
pub broadcast proof fn law_execution_cleanup_evidence_gap_names_differ(
    a: ExecutionCleanupEvidenceGapV1,
    b: ExecutionCleanupEvidenceGapV1,
)
    ensures
        #![trigger a.name(), b.name()]
        a.name() == b.name() ==> a == b,
{
    reveal_strlit("scratch_removed");
    assert("scratch_removed"@.len() == 15);
    reveal_strlit("filesystem_available");
    assert("filesystem_available"@.len() == 20);
}

/// No two values of `WorkflowNodeOutcomeV1` have one name.
pub broadcast proof fn law_workflow_node_outcome_names_differ(
    a: WorkflowNodeOutcomeV1,
    b: WorkflowNodeOutcomeV1,
)
    ensures
        #![trigger a.name(), b.name()]
        a.name() == b.name() ==> a == b,
{
    reveal_strlit("succeeded");
    assert("succeeded"@.len() == 9);
    reveal_strlit("failed");
    assert("failed"@.len() == 6);
}

/// No two values of `WorkflowCleanupResultV1` have one name.
pub broadcast proof fn law_workflow_cleanup_result_names_differ(
    a: WorkflowCleanupResultV1,
    b: WorkflowCleanupResultV1,
)
    ensures
        #![trigger a.name(), b.name()]
        a.name() == b.name() ==> a == b,
{
    reveal_strlit("complete");
    assert("complete"@.len() == 8);
    reveal_strlit("pending");
    assert("pending"@.len() == 7);
}

/// No two values of `OperationPhase` have one name.
pub broadcast proof fn law_operation_phase_names_differ(a: OperationPhase, b: OperationPhase)
    ensures
        #![trigger a.name(), b.name()]
        a.name() == b.name() ==> a == b,
{
    reveal_strlit("queued");
    assert("queued"@.len() == 6);
    reveal_strlit("syncing_source");
    assert("syncing_source"@.len() == 14);
    reveal_strlit("verifying_source");
    assert("verifying_source"@.len() == 16);
    reveal_strlit("testing");
    assert("testing"@.len() == 7);
    reveal_strlit("building");
    assert("building"@.len() == 8);
    reveal_strlit("preflight");
    assert("preflight"@.len() == 9);
    reveal_strlit("backing_up");
    assert("backing_up"@.len() == 10);
    reveal_strlit("draining");
    assert("draining"@.len() == 8);
    reveal_strlit("cutover_snapshotting");
    assert("cutover_snapshotting"@.len() == 20);
    reveal_strlit("migrating");
    assert("migrating"@.len() == 9);
    reveal_strlit("deploying");
    assert("deploying"@.len() == 9);
    reveal_strlit("health_checking");
    assert("health_checking"@.len() == 15);
    reveal_strlit("soaking");
    assert("soaking"@.len() == 7);
    reveal_strlit("rollback");
    assert("rollback"@.len() == 8);
    reveal_strlit("reconciliation");
    assert("reconciliation"@.len() == 14);
    assert("syncing_source"@[0] != "reconciliation"@[0]);
    assert("testing"@[0] != "soaking"@[0]);
    assert("building"@[0] != "draining"@[0]);
    assert("building"@[0] != "rollback"@[0]);
    assert("preflight"@[0] != "migrating"@[0]);
    assert("preflight"@[0] != "deploying"@[0]);
    assert("draining"@[0] != "rollback"@[0]);
    assert("migrating"@[0] != "deploying"@[0]);
}

/// No two values of `OperationResult` have one name.
pub broadcast proof fn law_operation_result_names_differ(a: OperationResult, b: OperationResult)
    ensures
        #![trigger a.name(), b.name()]
        a.name() == b.name() ==> a == b,
{
    reveal_strlit("running");
    assert("running"@.len() == 7);
    reveal_strlit("succeeded");
    assert("succeeded"@.len() == 9);
    reveal_strlit("failed");
    assert("failed"@.len() == 6);
    reveal_strlit("rolled_back");
    assert("rolled_back"@.len() == 11);
    reveal_strlit("rollback_failed");
    assert("rollback_failed"@.len() == 15);
    reveal_strlit("cancelled");
    assert("cancelled"@.len() == 9);
    reveal_strlit("superseded");
    assert("superseded"@.len() == 10);
    reveal_strlit("manual_recovery_required");
    assert("manual_recovery_required"@.len() == 24);
    assert("succeeded"@[0] != "cancelled"@[0]);
}

/// No two values of `BlockingReason` have one name.
pub broadcast proof fn law_blocking_reason_names_differ(a: BlockingReason, b: BlockingReason)
    ensures
        #![trigger a.name(), b.name()]
        a.name() == b.name() ==> a == b,
{
    reveal_strlit("none");
    assert("none"@.len() == 4);
    reveal_strlit("disk_reserve");
    assert("disk_reserve"@.len() == 12);
    reveal_strlit("source_divergence");
    assert("source_divergence"@.len() == 17);
    reveal_strlit("source_broker_unavailable");
    assert("source_broker_unavailable"@.len() == 25);
    reveal_strlit("source_head_superseded");
    assert("source_head_superseded"@.len() == 22);
    reveal_strlit("source_attestation_invalid");
    assert("source_attestation_invalid"@.len() == 26);
    reveal_strlit("policy_unavailable");
    assert("policy_unavailable"@.len() == 18);
    reveal_strlit("policy_invalid");
    assert("policy_invalid"@.len() == 14);
    reveal_strlit("policy_stale");
    assert("policy_stale"@.len() == 12);
    reveal_strlit("security_state_invalid");
    assert("security_state_invalid"@.len() == 22);
    reveal_strlit("backup_policy");
    assert("backup_policy"@.len() == 13);
    reveal_strlit("stale_telemetry");
    assert("stale_telemetry"@.len() == 15);
    reveal_strlit("clock_unsynchronized");
    assert("clock_unsynchronized"@.len() == 20);
    reveal_strlit("maintenance_conflict");
    assert("maintenance_conflict"@.len() == 20);
    reveal_strlit("operator_hold");
    assert("operator_hold"@.len() == 13);
    assert("disk_reserve"@[0] != "policy_stale"@[0]);
    assert("source_head_superseded"@[1] != "security_state_invalid"@[1]);
    assert("backup_policy"@[0] != "operator_hold"@[0]);
    assert("clock_unsynchronized"@[0] != "maintenance_conflict"@[0]);
}

/// No two values of `Retryability` have one name.
pub broadcast proof fn law_retryability_names_differ(a: Retryability, b: Retryability)
    ensures
        #![trigger a.name(), b.name()]
        a.name() == b.name() ==> a == b,
{
    reveal_strlit("automatic");
    assert("automatic"@.len() == 9);
    reveal_strlit("after_external_recovery");
    assert("after_external_recovery"@.len() == 23);
    reveal_strlit("operator_runbook");
    assert("operator_runbook"@.len() == 16);
}

/// No two values of `ProjectCondition` have one name.
pub broadcast proof fn law_project_condition_names_differ(a: ProjectCondition, b: ProjectCondition)
    ensures
        #![trigger a.name(), b.name()]
        a.name() == b.name() ==> a == b,
{
    reveal_strlit("healthy");
    assert("healthy"@.len() == 7);
    reveal_strlit("degraded");
    assert("degraded"@.len() == 8);
    reveal_strlit("down");
    assert("down"@.len() == 4);
    reveal_strlit("maintenance");
    assert("maintenance"@.len() == 11);
    reveal_strlit("migrating");
    assert("migrating"@.len() == 9);
    reveal_strlit("unknown");
    assert("unknown"@.len() == 7);
    reveal_strlit("signal_lost");
    assert("signal_lost"@.len() == 11);
    assert("healthy"@[0] != "unknown"@[0]);
    assert("maintenance"@[0] != "signal_lost"@[0]);
}

/// No two values of `BackupStatus` have one name.
pub broadcast proof fn law_backup_status_names_differ(a: BackupStatus, b: BackupStatus)
    ensures
        #![trigger a.name(), b.name()]
        a.name() == b.name() ==> a == b,
{
    reveal_strlit("absent");
    assert("absent"@.len() == 6);
    reveal_strlit("pending");
    assert("pending"@.len() == 7);
    reveal_strlit("verified_local");
    assert("verified_local"@.len() == 14);
    reveal_strlit("verified_offsite");
    assert("verified_offsite"@.len() == 16);
    reveal_strlit("unverified");
    assert("unverified"@.len() == 10);
    reveal_strlit("corrupt");
    assert("corrupt"@.len() == 7);
    reveal_strlit("provider_degraded");
    assert("provider_degraded"@.len() == 17);
    assert("pending"@[0] != "corrupt"@[0]);
}

/// No two values of `RollbackCapability` have one name.
pub broadcast proof fn law_rollback_capability_names_differ(
    a: RollbackCapability,
    b: RollbackCapability,
)
    ensures
        #![trigger a.name(), b.name()]
        a.name() == b.name() ==> a == b,
{
    reveal_strlit("unavailable");
    assert("unavailable"@.len() == 11);
    reveal_strlit("eligible");
    assert("eligible"@.len() == 8);
    reveal_strlit("ineligible");
    assert("ineligible"@.len() == 10);
    reveal_strlit("consumed");
    assert("consumed"@.len() == 8);
    reveal_strlit("unsafe_after_migration");
    assert("unsafe_after_migration"@.len() == 22);
    assert("eligible"@[0] != "consumed"@[0]);
}

/// No two values of `NotificationDelivery` have one name.
pub broadcast proof fn law_notification_delivery_names_differ(
    a: NotificationDelivery,
    b: NotificationDelivery,
)
    ensures
        #![trigger a.name(), b.name()]
        a.name() == b.name() ==> a == b,
{
    reveal_strlit("pending");
    assert("pending"@.len() == 7);
    reveal_strlit("sending");
    assert("sending"@.len() == 7);
    reveal_strlit("delivered");
    assert("delivered"@.len() == 9);
    reveal_strlit("delivery_unknown");
    assert("delivery_unknown"@.len() == 16);
    reveal_strlit("retry_scheduled");
    assert("retry_scheduled"@.len() == 15);
    reveal_strlit("delivered_possible_duplicate");
    assert("delivered_possible_duplicate"@.len() == 28);
    reveal_strlit("permanently_failed");
    assert("permanently_failed"@.len() == 18);
    assert("pending"@[0] != "sending"@[0]);
}

/// No two values of `NotificationPath` have one name.
pub broadcast proof fn law_notification_path_names_differ(a: NotificationPath, b: NotificationPath)
    ensures
        #![trigger a.name(), b.name()]
        a.name() == b.name() ==> a == b,
{
    reveal_strlit("healthy");
    assert("healthy"@.len() == 7);
    reveal_strlit("gateway_degraded_direct_available");
    assert("gateway_degraded_direct_available"@.len() == 33);
    reveal_strlit("unavailable");
    assert("unavailable"@.len() == 11);
}

/// No two values of `BuildKind` have one name.
pub broadcast proof fn law_build_kind_names_differ(a: BuildKind, b: BuildKind)
    ensures
        #![trigger a.name(), b.name()]
        a.name() == b.name() ==> a == b,
{
    reveal_strlit("oci");
    assert("oci"@.len() == 3);
    reveal_strlit("native");
    assert("native"@.len() == 6);
}

/// No two values of `DataClass` have one name.
pub broadcast proof fn law_data_class_names_differ(a: DataClass, b: DataClass)
    ensures
        #![trigger a.name(), b.name()]
        a.name() == b.name() ==> a == b,
{
    reveal_strlit("stateful");
    assert("stateful"@.len() == 8);
    reveal_strlit("derived");
    assert("derived"@.len() == 7);
    reveal_strlit("ephemeral");
    assert("ephemeral"@.len() == 9);
}

/// No two values of `MigrationEntrypoint` have one name.
pub broadcast proof fn law_migration_entrypoint_names_differ(
    a: MigrationEntrypoint,
    b: MigrationEntrypoint,
)
    ensures
        #![trigger a.name(), b.name()]
        a.name() == b.name() ==> a == b,
{
    reveal_strlit("none");
    assert("none"@.len() == 4);
    reveal_strlit("application_migrate");
    assert("application_migrate"@.len() == 19);
}

/// No two values of `WriteFencePolicy` have one name.
pub broadcast proof fn law_write_fence_policy_names_differ(a: WriteFencePolicy, b: WriteFencePolicy)
    ensures
        #![trigger a.name(), b.name()]
        a.name() == b.name() ==> a == b,
{
    reveal_strlit("unsupported");
    assert("unsupported"@.len() == 11);
    reveal_strlit("application_protocol_v1");
    assert("application_protocol_v1"@.len() == 23);
}

/// No two values of `ExecutionTerminationKindV1` have one name.
pub broadcast proof fn law_execution_termination_kind_names_differ(
    a: ExecutionTerminationKindV1,
    b: ExecutionTerminationKindV1,
)
    ensures
        #![trigger a.name(), b.name()]
        a.name() == b.name() ==> a == b,
{
    reveal_strlit("cancelled");
    assert("cancelled"@.len() == 9);
    reveal_strlit("deadline_exceeded");
    assert("deadline_exceeded"@.len() == 17);
}

/// No two of anything that has a name have one name.
pub broadcast group group_names_differ {
    law_fence_adapter_action_names_differ,
    law_rimg_operational_mode_names_differ,
    law_delivery_channel_names_differ,
    law_failure_context_relation_names_differ,
    law_production_mutation_state_names_differ,
    law_failure_rollback_state_names_differ,
    law_failure_context_gap_names_differ,
    law_executor_phase_branch_names_differ,
    law_operation_kind_names_differ,
    law_mutation_execution_state_names_differ,
    law_release_class_names_differ,
    law_automation_source_names_differ,
    law_operation_recovery_mode_names_differ,
    law_workflow_artifact_kind_names_differ,
    law_workflow_adapter_id_names_differ,
    law_workflow_worker_pool_names_differ,
    law_workflow_network_class_names_differ,
    law_workflow_cache_class_names_differ,
    law_workflow_delivery_mode_names_differ,
    law_workflow_node_activation_names_differ,
    law_workflow_host_preparation_adapter_names_differ,
    law_workflow_node_kind_names_differ,
    law_execution_result_names_differ,
    law_execution_evidence_gap_names_differ,
    law_execution_cleanup_state_names_differ,
    law_execution_cleanup_evidence_gap_names_differ,
    law_workflow_node_outcome_names_differ,
    law_workflow_cleanup_result_names_differ,
    law_operation_phase_names_differ,
    law_operation_result_names_differ,
    law_blocking_reason_names_differ,
    law_retryability_names_differ,
    law_project_condition_names_differ,
    law_backup_status_names_differ,
    law_rollback_capability_names_differ,
    law_notification_delivery_names_differ,
    law_notification_path_names_differ,
    law_build_kind_names_differ,
    law_data_class_names_differ,
    law_migration_entrypoint_names_differ,
    law_write_fence_policy_names_differ,
    law_execution_termination_kind_names_differ,
}

} // verus!
