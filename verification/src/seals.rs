//! What a seal is taken over: everything that a document tells. Two documents that are sealed over one
//! text agree in all of it, so that nothing can be changed without its seal.

use vstd::prelude::*;
use crate::domain::artifacts::{PhaseArtifacts, PhaseReceipt};
use crate::domain::budget::AuthorizedDiskReservation;
use crate::domain::execution::{
    cleanup_gaps_json, gaps_json, ExecutionCleanupEvidenceGapV1, ExecutionCleanupReceiptV1,
    ExecutionEvidenceGapV1, ExecutionIoUsageV1, ExecutionMemoryEventsV1, ExecutionProcessOutcomeV1,
    ExecutionResourceUsageV1, ExecutionStorageUsageV1, ExecutionTerminalReceiptV1,
};
use crate::domain::identifiers::{digest_option, digest_texts};
use crate::domain::operation::{FenceAcquisitionReceiptV1, InstalledPolicyIdentity, OperationActor};
use crate::domain::record::{AuthorizedPhaseSpecDigestV1, OperationRecord};
use crate::domain::workflow::{artifact_kinds_json, node_ids, WorkflowArtifactKindV1};
use crate::domain::workflow_lease::{
    inputs_json, StateOwner, WorkflowLeaseInputV1, WorkflowLeaseV1, WorkflowOperationStateV1,
};
use crate::domain::workflow_receipts::{
    reduction_inputs_json, WorkflowCleanupReceiptV1, WorkflowNodeReceiptV1,
    WorkflowReductionInputV1, WorkflowReductionReceiptV1,
};
use crate::execution_receipt::{ExecutionStartEvidenceV1, ExecutionTerminationIntentV1};
use crate::executor::intent::{authorization_json, authorized_json, PhaseIntentPayloadV1};
use crate::fence_adapter::{FenceAdapterRequestV1, FenceAdapterResultV1, RimgOperationalStatusV1};
use crate::json::{json_array, json_int, json_nat, json_optional, json_string, no_members};
use crate::json_laws::{
    all_whole, group_values_apart, group_whole_values, law_lists_are_told_apart,
    law_objects_are_told_apart, lemma_arrays_are_whole, whole,
};
use crate::names::group_names_differ;
use crate::text::text_option;
use crate::unique_id::{uuid_option, Uuid};

verus! {

/// Identifiers that may be absent are the same if their texts are.
broadcast proof fn lemma_optional_identifiers(a: Option<Uuid>, b: Option<Uuid>)
    ensures
        #![trigger uuid_option(a), uuid_option(b)]
        uuid_option(a) == uuid_option(b) <==> a == b,
{
    broadcast use group_values_apart;

    if a is Some && b is Some {
        assert((a->0).text() == (b->0).text() <==> a->0 == b->0);
    }
}

/// The seal of a request to a fence covers what is asked, of whom, by which attempt and under which
/// lease.
pub proof fn law_seals_cover_fence_requests(a: FenceAdapterRequestV1, b: FenceAdapterRequestV1)
    requires
        a.sealed_json() == b.sealed_json(),
    ensures
        a.purpose@ == b.purpose@,
        a.schema_version == b.schema_version,
        a.action == b.action,
        a.project_id@ == b.project_id@,
        a.attempt_id == b.attempt_id,
        a.installed_rimg_policy_digest@ == b.installed_rimg_policy_digest@,
        a.epoch == b.epoch,
        a.token == b.token,
        digest_option(a.release_safe_receipt_digest) == digest_option(b.release_safe_receipt_digest),
{
    broadcast use {group_names_differ, group_values_apart, group_whole_values};

}

/// What is written of a service tells all that it is in.
pub proof fn law_statuses_are_told_apart(a: RimgOperationalStatusV1, b: RimgOperationalStatusV1)
    ensures
        whole(a.json()),
        a.json() == b.json() ==> {
            &&& a.schema_version == b.schema_version
            &&& a.mode == b.mode
            &&& a.last_epoch == b.last_epoch
            &&& a.last_token == b.last_token
            &&& a.active_epoch == b.active_epoch
            &&& a.active_token == b.active_token
            &&& a.intake_open == b.intake_open
            &&& a.workers_drained == b.workers_drained
            &&& a.active_write_leases == b.active_write_leases
            &&& a.processing_jobs == b.processing_jobs
            &&& a.delivering_webhooks == b.delivering_webhooks
            &&& a.updated_at == b.updated_at
        },
{
    broadcast use {
        group_names_differ,
        group_values_apart,
        group_whole_values,
        lemma_optional_identifiers,
    };

}

/// The seal of what a fence answered covers the request that it answers, the time, and what the service
/// was found to be in.
pub proof fn law_seals_cover_fence_results(a: FenceAdapterResultV1, b: FenceAdapterResultV1)
    requires
        a.sealed_json() == b.sealed_json(),
    ensures
        a.purpose@ == b.purpose@,
        a.schema_version == b.schema_version,
        a.request_digest@ == b.request_digest@,
        a.completed_at_ms == b.completed_at_ms,
        a.status.json() == b.status.json(),
        a.status_observation_digest@ == b.status_observation_digest@,
{
    broadcast use {group_names_differ, group_values_apart, group_whole_values};

    law_statuses_are_told_apart(a.status, b.status);
    law_statuses_are_told_apart(b.status, a.status);
}

/// Evidence that tells the same.
pub open spec fn same_evidence(a: PhaseArtifacts, b: PhaseArtifacts) -> bool {
    &&& digest_option(a.authorized_phase_spec_digest) == digest_option(
        b.authorized_phase_spec_digest,
    )
    &&& digest_option(a.source_gate_proof_digest) == digest_option(
        b.source_gate_proof_digest,
    )
    &&& digest_option(a.drain_evidence_digest) == digest_option(
        b.drain_evidence_digest,
    )
    &&& digest_option(a.source_export_digest) == digest_option(
        b.source_export_digest,
    )
    &&& digest_option(a.prefetch_evidence_digest) == digest_option(
        b.prefetch_evidence_digest,
    )
    &&& digest_option(a.ci_evidence_digest) == digest_option(
        b.ci_evidence_digest,
    )
    &&& digest_option(a.build_plan_digest) == digest_option(
        b.build_plan_digest,
    )
    &&& digest_option(a.deployment_plan_digest) == digest_option(
        b.deployment_plan_digest,
    )
    &&& digest_option(a.release_bundle_digest) == digest_option(
        b.release_bundle_digest,
    )
    &&& digest_option(a.resource_reservation_digest) == digest_option(
        b.resource_reservation_digest,
    )
    &&& digest_option(a.build_context_digest) == digest_option(
        b.build_context_digest,
    )
    &&& digest_option(a.image_digest) == digest_option(
        b.image_digest,
    )
    &&& digest_option(a.image_id_digest) == digest_option(
        b.image_id_digest,
    )
    &&& digest_option(a.base_backup_manifest_digest) == digest_option(
        b.base_backup_manifest_digest,
    )
    &&& digest_option(a.base_backup_evidence_digest) == digest_option(
        b.base_backup_evidence_digest,
    )
    &&& digest_option(a.base_backup_offsite_evidence_digest) == digest_option(
        b.base_backup_offsite_evidence_digest,
    )
    &&& digest_option(a.base_backup_verification_digest) == digest_option(
        b.base_backup_verification_digest,
    )
    &&& digest_option(a.cutover_backup_manifest_digest) == digest_option(
        b.cutover_backup_manifest_digest,
    )
    &&& digest_option(a.cutover_backup_evidence_digest) == digest_option(
        b.cutover_backup_evidence_digest,
    )
    &&& digest_option(a.cutover_backup_verification_digest) == digest_option(
        b.cutover_backup_verification_digest,
    )
    &&& digest_option(a.previous_release_bundle_digest) == digest_option(
        b.previous_release_bundle_digest,
    )
    &&& digest_option(a.health_evidence_digest) == digest_option(
        b.health_evidence_digest,
    )
    &&& digest_texts(a.generated_output_digests@) == digest_texts(b.generated_output_digests@)
    &&& digest_texts(a.base_image_digests@) == digest_texts(b.base_image_digests@)
    &&& a.backup_id == b.backup_id
    &&& a.backup_set_id == b.backup_set_id
    &&& a.base_backup_id == b.base_backup_id
    &&& a.cutover_backup_id == b.cutover_backup_id
    &&& a.fencing_epoch == b.fencing_epoch
    &&& text_option(a.schema_version) == text_option(b.schema_version)
}

/// What is written of the evidence of a phase tells all of it.
#[verifier::rlimit(60)]
pub proof fn law_artifacts_are_told_apart(a: PhaseArtifacts, b: PhaseArtifacts)
    ensures
        whole(a.json()),
        a.json() == b.json() ==> same_evidence(a, b),
{
    broadcast use {
        group_names_differ,
        group_values_apart,
        group_whole_values,
        lemma_optional_identifiers,
    };

}

/// The seal of the receipt of a phase covers the attempt, the phase and the branch, what was intended
/// and what was observed, all the evidence, and the time.
pub proof fn law_seals_cover_phase_receipts(a: PhaseReceipt, b: PhaseReceipt)
    requires
        a.sealed_json() == b.sealed_json(),
    ensures
        a.attempt_id == b.attempt_id,
        a.phase == b.phase,
        a.branch == b.branch,
        a.intent_digest@ == b.intent_digest@,
        a.observation_digest@ == b.observation_digest@,
        same_evidence(a.artifacts, b.artifacts),
        a.committed_at_ms == b.committed_at_ms,
{
    broadcast use {group_names_differ, group_values_apart, group_whole_values};

    law_artifacts_are_told_apart(a.artifacts, b.artifacts);
    law_artifacts_are_told_apart(b.artifacts, a.artifacts);
}

/// The seal of the receipt of a fence covers whose it is, under which lease and epoch, and the time.
pub proof fn law_seals_cover_fence_receipts(a: FenceAcquisitionReceiptV1, b: FenceAcquisitionReceiptV1)
    requires
        a.sealed_json() == b.sealed_json(),
    ensures
        a.schema_version == b.schema_version,
        a.project_id@ == b.project_id@,
        a.attempt_id == b.attempt_id,
        a.epoch == b.epoch,
        a.lease_digest@ == b.lease_digest@,
        a.acquired_at_ms == b.acquired_at_ms,
{
    broadcast use {group_names_differ, group_values_apart, group_whole_values};

}

/// What is written of a reservation tells what it is for, all of its amounts, where it is and when it
/// was measured.
pub proof fn law_seals_cover_reservations(
    a: AuthorizedDiskReservation,
    b: AuthorizedDiskReservation,
)
    requires
        a.json() == b.json(),
    ensures
        a.operation_digest@ == b.operation_digest@,
        a.required_bytes == b.required_bytes,
        a.available_bytes == b.available_bytes,
        a.emergency_reserve_bytes == b.emergency_reserve_bytes,
        a.filesystem_identity@ == b.filesystem_identity@,
        a.observed_at_ms == b.observed_at_ms,
{
    broadcast use {group_names_differ, group_values_apart, group_whole_values};

    let s = reservation_parts(a);
    let t = reservation_parts(b);
    assert(a.json() == json_array(s));
    assert(b.json() == json_array(t));
    lemma_reservation_parts(a);
    lemma_reservation_parts(b);
    law_lists_are_told_apart(s, t);
    assert(s[1] == t[1] && s[2] == t[2] && s[3] == t[3] && s[4] == t[4] && s[5] == t[5] && s[6]
        == t[6]);
}

spec fn reservation_parts(a: AuthorizedDiskReservation) -> Seq<Seq<char>> {
    Seq::<Seq<char>>::empty().push(json_string("rdashboard.resource-reservation.v1"@)).push(
        json_string(a.operation_digest@),
    ).push(json_nat(a.required_bytes as nat)).push(json_nat(a.available_bytes as nat)).push(
        json_nat(a.emergency_reserve_bytes as nat),
    ).push(json_string(a.filesystem_identity@)).push(json_int(a.observed_at_ms as int))
}

proof fn lemma_reservation_parts(a: AuthorizedDiskReservation)
    ensures
        forall|i: int|
            0 <= i < reservation_parts(a).len() ==> whole(#[trigger] reservation_parts(a)[i])
                && reservation_parts(a)[i].len() > 0,
{
    broadcast use group_whole_values;

    crate::json_laws::lemma_numbers_begin(
        a.required_bytes as nat,
        a.observed_at_ms as int,
    );
    crate::json_laws::lemma_numbers_begin(
        a.available_bytes as nat,
        a.observed_at_ms as int,
    );
    crate::json_laws::lemma_numbers_begin(
        a.emergency_reserve_bytes as nat,
        a.observed_at_ms as int,
    );
    let parts = reservation_parts(a);
    assert forall|i: int| 0 <= i < parts.len() implies whole(#[trigger] parts[i]) && parts[i].len()
        > 0 by {
        assert(i == 0 || i == 1 || i == 2 || i == 3 || i == 4 || i == 5 || i == 6);
    }
}

/// What is written of a process tells how it ended.
pub proof fn law_processes_are_told_apart(
    a: ExecutionProcessOutcomeV1,
    b: ExecutionProcessOutcomeV1,
)
    ensures
        whole(a.json()),
        a.json() == b.json() ==> {
            &&& a.result == b.result
            &&& a.exit_code == b.exit_code
            &&& text_option(a.signal) == text_option(b.signal)
            &&& a.timed_out == b.timed_out
            &&& a.oom_killed == b.oom_killed
        },
{
    broadcast use {group_names_differ, group_values_apart, group_whole_values};

}

/// What is written of memory tells every count.
pub proof fn law_memory_events_are_told_apart(
    a: ExecutionMemoryEventsV1,
    b: ExecutionMemoryEventsV1,
)
    ensures
        whole(a.json()),
        a.json()[0] == '{',
        a.json() == b.json() ==> a == b,
{
    broadcast use {group_names_differ, group_values_apart, group_whole_values};

}

/// What is written of transfers tells every count.
pub proof fn law_transfers_are_told_apart(a: ExecutionIoUsageV1, b: ExecutionIoUsageV1)
    ensures
        whole(a.json()),
        a.json()[0] == '{',
        a.json() == b.json() ==> a == b,
{
    broadcast use {group_names_differ, group_values_apart, group_whole_values};

}

/// What is written of the resources of a step tells all that was measured, and what was not.
pub proof fn law_resources_are_told_apart(a: ExecutionResourceUsageV1, b: ExecutionResourceUsageV1)
    ensures
        whole(a.json()),
        a.json() == b.json() ==> a == b,
{
    broadcast use {group_names_differ, group_values_apart, group_whole_values};

    if a.memory_events is Some {
        law_memory_events_are_told_apart(a.memory_events->0, b.memory_events->0);
    }
    if b.memory_events is Some {
        law_memory_events_are_told_apart(b.memory_events->0, a.memory_events->0);
    }
    if a.io is Some {
        law_transfers_are_told_apart(a.io->0, b.io->0);
    }
    if b.io is Some {
        law_transfers_are_told_apart(b.io->0, a.io->0);
    }
}

/// What is written of the storage of a step tells all that was measured, and what was not.
pub proof fn law_storage_is_told_apart(a: ExecutionStorageUsageV1, b: ExecutionStorageUsageV1)
    ensures
        whole(a.json()),
        a.json() == b.json() ==> a == b,
{
    broadcast use {group_names_differ, group_values_apart, group_whole_values};

}

/// What is written of gaps names each of them.
pub proof fn law_gaps_are_told_apart(
    a: Seq<ExecutionEvidenceGapV1>,
    b: Seq<ExecutionEvidenceGapV1>,
)
    ensures
        whole(gaps_json(a)),
        gaps_json(a) == gaps_json(b) ==> a.len() == b.len() && forall|i: int|
            0 <= i < a.len() ==> #[trigger] a[i] == b[i],
{
    broadcast use {group_names_differ, group_values_apart, group_whole_values};

    let s = a.map_values(|value: ExecutionEvidenceGapV1| json_string(value.name()));
    let t = b.map_values(|value: ExecutionEvidenceGapV1| json_string(value.name()));
    assert forall|i: int| 0 <= i < s.len() implies whole(#[trigger] s[i]) && s[i].len() > 0 by {
        assert(s[i] == json_string(a[i].name()));
    }
    assert forall|i: int| 0 <= i < t.len() implies whole(#[trigger] t[i]) && t[i].len() > 0 by {
        assert(t[i] == json_string(b[i].name()));
    }
    lemma_arrays_are_whole(s);
    if gaps_json(a) == gaps_json(b) {
        law_lists_are_told_apart(s, t);
        assert(s.len() == t.len());
        assert forall|i: int| 0 <= i < a.len() implies #[trigger] a[i] == b[i] by {
            assert(s[i] == t[i]);
            assert(json_string(a[i].name()) == json_string(b[i].name()));
        }
    }
}

/// What is written of the gaps of a cleanup names each of them.
pub proof fn law_cleanup_gaps_are_told_apart(
    a: Seq<ExecutionCleanupEvidenceGapV1>,
    b: Seq<ExecutionCleanupEvidenceGapV1>,
)
    ensures
        whole(cleanup_gaps_json(a)),
        cleanup_gaps_json(a) == cleanup_gaps_json(b) ==> a.len() == b.len() && forall|i: int|
            0 <= i < a.len() ==> #[trigger] a[i] == b[i],
{
    broadcast use {group_names_differ, group_values_apart, group_whole_values};

    let s = a.map_values(|value: ExecutionCleanupEvidenceGapV1| json_string(value.name()));
    let t = b.map_values(|value: ExecutionCleanupEvidenceGapV1| json_string(value.name()));
    assert forall|i: int| 0 <= i < s.len() implies whole(#[trigger] s[i]) && s[i].len() > 0 by {
        assert(s[i] == json_string(a[i].name()));
    }
    assert forall|i: int| 0 <= i < t.len() implies whole(#[trigger] t[i]) && t[i].len() > 0 by {
        assert(t[i] == json_string(b[i].name()));
    }
    lemma_arrays_are_whole(s);
    if cleanup_gaps_json(a) == cleanup_gaps_json(b) {
        law_lists_are_told_apart(s, t);
        assert(s.len() == t.len());
        assert forall|i: int| 0 <= i < a.len() implies #[trigger] a[i] == b[i] by {
            assert(s[i] == t[i]);
            assert(json_string(a[i].name()) == json_string(b[i].name()));
        }
    }
}

/// The seal of the receipt of a step covers whose step it is, when it ran, how its process ended, what
/// it used, and what of that was not measured.
pub proof fn law_seals_cover_terminal_receipts(
    a: ExecutionTerminalReceiptV1,
    b: ExecutionTerminalReceiptV1,
)
    requires
        a.sealed_json() == b.sealed_json(),
    ensures
        a.schema_version == b.schema_version,
        a.request_id == b.request_id,
        a.attempt_id == b.attempt_id,
        a.start_evidence_digest@ == b.start_evidence_digest@,
        a.project_id@ == b.project_id@,
        a.phase == b.phase,
        a.step_id@ == b.step_id@,
        a.sequence == b.sequence,
        a.started_at_ms == b.started_at_ms,
        a.finished_at_ms == b.finished_at_ms,
        a.duration_ms == b.duration_ms,
        a.process.result == b.process.result,
        a.process.exit_code == b.process.exit_code,
        text_option(a.process.signal) == text_option(b.process.signal),
        a.process.timed_out == b.process.timed_out,
        a.process.oom_killed == b.process.oom_killed,
        a.resources == b.resources,
        a.storage == b.storage,
        a.evidence_gaps@ == b.evidence_gaps@,
{
    broadcast use {group_names_differ, group_values_apart, group_whole_values};

    law_processes_are_told_apart(a.process, b.process);
    law_processes_are_told_apart(b.process, a.process);
    law_resources_are_told_apart(a.resources, b.resources);
    law_resources_are_told_apart(b.resources, a.resources);
    law_storage_is_told_apart(a.storage, b.storage);
    law_storage_is_told_apart(b.storage, a.storage);
    law_gaps_are_told_apart(a.evidence_gaps@, b.evidence_gaps@);
    law_gaps_are_told_apart(b.evidence_gaps@, a.evidence_gaps@);
}

/// The seal of the receipt of a cleanup covers what was cleaned up after, what was removed and what is
/// left, and why.
pub proof fn law_seals_cover_cleanup_receipts(
    a: ExecutionCleanupReceiptV1,
    b: ExecutionCleanupReceiptV1,
)
    requires
        a.sealed_json() == b.sealed_json(),
    ensures
        a.schema_version == b.schema_version,
        a.attempt_id == b.attempt_id,
        a.terminal_receipt_digest@ == b.terminal_receipt_digest@,
        a.state == b.state,
        a.unit_collected == b.unit_collected,
        a.scratch_removed_bytes == b.scratch_removed_bytes,
        a.remaining_transient_items == b.remaining_transient_items,
        a.filesystem_available_after_bytes == b.filesystem_available_after_bytes,
        a.evidence_gaps@ == b.evidence_gaps@,
        text_option(a.error_code) == text_option(b.error_code),
        a.completed_at_ms == b.completed_at_ms,
{
    broadcast use {group_names_differ, group_values_apart, group_whole_values};

    law_cleanup_gaps_are_told_apart(a.evidence_gaps@, b.evidence_gaps@);
    law_cleanup_gaps_are_told_apart(b.evidence_gaps@, a.evidence_gaps@);
}

/// The seal of what was found before a step covers whose step it is, when it began, and what there was.
pub proof fn law_seals_cover_start_evidence(
    a: ExecutionStartEvidenceV1,
    b: ExecutionStartEvidenceV1,
)
    requires
        a.sealed_json() == b.sealed_json(),
    ensures
        a.schema_version == b.schema_version,
        a.request_id == b.request_id,
        a.attempt_id == b.attempt_id,
        a.project_id@ == b.project_id@,
        a.phase == b.phase,
        a.step_id@ == b.step_id@,
        a.sequence == b.sequence,
        a.started_at_ms == b.started_at_ms,
        a.scratch_before_bytes == b.scratch_before_bytes,
        a.filesystem_available_before_bytes == b.filesystem_available_before_bytes,
{
    broadcast use {group_names_differ, group_values_apart, group_whole_values};

}

/// The seal of the intent to end a step covers the attempt, the end that is meant, the time, and the
/// beginning of the step.
pub proof fn law_seals_cover_termination_intents(
    a: ExecutionTerminationIntentV1,
    b: ExecutionTerminationIntentV1,
    a_start: Seq<char>,
    b_start: Seq<char>,
)
    requires
        a.sealed_json(a_start) == b.sealed_json(b_start),
    ensures
        a.schema_version == b.schema_version,
        a.attempt_id == b.attempt_id,
        a.kind == b.kind,
        a.recorded_at_ms == b.recorded_at_ms,
        a_start == b_start,
{
    broadcast use {group_names_differ, group_values_apart, group_whole_values};

}

/// The seal of the receipt of a node covers the lease that it was worked on under, how it ended, what
/// it put out, and the time.
#[verifier::rlimit(30)]
pub proof fn law_seals_cover_node_receipts(a: WorkflowNodeReceiptV1, b: WorkflowNodeReceiptV1)
    requires
        a.sealed_json() == b.sealed_json(),
    ensures
        a.schema_version == b.schema_version,
        a.lease_digest@ == b.lease_digest@,
        a.lease_id == b.lease_id,
        a.lease_generation == b.lease_generation,
        a.request_id == b.request_id,
        a.attempt_id == b.attempt_id,
        a.project_id@ == b.project_id@,
        a.source_sha@ == b.source_sha@,
        a.workflow_policy_digest@ == b.workflow_policy_digest@,
        a.preparation_key@ == b.preparation_key@,
        a.node_id@ == b.node_id@,
        a.node_kind == b.node_kind,
        a.worker_id@ == b.worker_id@,
        a.host_id@ == b.host_id@,
        a.expected_input_digest@ == b.expected_input_digest@,
        a.outcome == b.outcome,
        digest_option(a.output_digest) == digest_option(b.output_digest),
        a.execution_receipt_digest@ == b.execution_receipt_digest@,
        a.cleanup_receipt_digest@ == b.cleanup_receipt_digest@,
        a.cleanup_result == b.cleanup_result,
        a.completed_at_ms == b.completed_at_ms,
{
    broadcast use {group_names_differ, group_values_apart, group_whole_values};

}

/// The seal of a cleanup that was made up later covers the lease, what it cleaned up after, and the
/// time.
pub proof fn law_seals_cover_late_cleanups(
    a: WorkflowCleanupReceiptV1,
    b: WorkflowCleanupReceiptV1,
)
    requires
        a.sealed_json() == b.sealed_json(),
    ensures
        a.schema_version == b.schema_version,
        a.lease_digest@ == b.lease_digest@,
        a.lease_id == b.lease_id,
        a.lease_generation == b.lease_generation,
        a.attempt_id == b.attempt_id,
        a.project_id@ == b.project_id@,
        a.node_id@ == b.node_id@,
        a.worker_id@ == b.worker_id@,
        a.host_id@ == b.host_id@,
        digest_option(a.terminal_receipt_digest) == digest_option(b.terminal_receipt_digest),
        a.cleanup_evidence_digest@ == b.cleanup_evidence_digest@,
        a.completed_at_ms == b.completed_at_ms,
{
    broadcast use {group_names_differ, group_values_apart, group_whole_values};

}

/// What is written of the inputs of a reduction tells each of them.
pub proof fn law_reduction_inputs_are_told_apart(
    a: Seq<WorkflowReductionInputV1>,
    b: Seq<WorkflowReductionInputV1>,
)
    ensures
        whole(reduction_inputs_json(a)),
        reduction_inputs_json(a) == reduction_inputs_json(b) ==> a.len() == b.len() && forall|i: int|
            0 <= i < a.len() ==> (#[trigger] a[i]).node_id@ == b[i].node_id@ && a[i].node_kind
                == b[i].node_kind && a[i].receipt_digest@ == b[i].receipt_digest@
                && a[i].output_digest@ == b[i].output_digest@,
{
    broadcast use {group_names_differ, group_values_apart, group_whole_values};

    let s = a.map_values(|value: WorkflowReductionInputV1| value.json());
    let t = b.map_values(|value: WorkflowReductionInputV1| value.json());
    assert forall|i: int| 0 <= i < s.len() implies whole(#[trigger] s[i]) && s[i].len() > 0 by {
        assert(s[i] == a[i].json());
    }
    assert forall|i: int| 0 <= i < t.len() implies whole(#[trigger] t[i]) && t[i].len() > 0 by {
        assert(t[i] == b[i].json());
    }
    lemma_arrays_are_whole(s);
    if reduction_inputs_json(a) == reduction_inputs_json(b) {
        law_lists_are_told_apart(s, t);
        assert(s.len() == t.len());
        assert forall|i: int| 0 <= i < a.len() implies (#[trigger] a[i]).node_id@ == b[i].node_id@
            && a[i].node_kind == b[i].node_kind && a[i].receipt_digest@
            == b[i].receipt_digest@ && a[i].output_digest@ == b[i].output_digest@ by {
            assert(s[i] == t[i]);
            assert(a[i].json() == b[i].json());
        }
    }
}

/// The seal of a reduction covers the operation, the node that reduced, each of its inputs, and the
/// time.
pub proof fn law_seals_cover_reductions(
    a: WorkflowReductionReceiptV1,
    b: WorkflowReductionReceiptV1,
)
    requires
        a.sealed_json() == b.sealed_json(),
    ensures
        a.schema_version == b.schema_version,
        a.request_id == b.request_id,
        a.attempt_id == b.attempt_id,
        a.project_id@ == b.project_id@,
        a.source_sha@ == b.source_sha@,
        a.workflow_policy_digest@ == b.workflow_policy_digest@,
        a.preparation_key@ == b.preparation_key@,
        a.reduce_node_id@ == b.reduce_node_id@,
        a.inputs@.len() == b.inputs@.len(),
        forall|i: int|
            0 <= i < a.inputs@.len() ==> (#[trigger] a.inputs@[i]).node_id@ == b.inputs@[i].node_id@
                && a.inputs@[i].receipt_digest@ == b.inputs@[i].receipt_digest@
                && a.inputs@[i].output_digest@ == b.inputs@[i].output_digest@,
        a.reduced_at_ms == b.reduced_at_ms,
{
    broadcast use {group_names_differ, group_values_apart, group_whole_values};

    law_reduction_inputs_are_told_apart(a.inputs@, b.inputs@);
    law_reduction_inputs_are_told_apart(b.inputs@, a.inputs@);
}

/// The key of a state covers whose it is, on which machine, who uses it, and how large it may become.
pub proof fn law_keys_cover_states(
    a: WorkflowOperationStateV1,
    b: WorkflowOperationStateV1,
    x: StateOwner,
    y: StateOwner,
)
    requires
        a.key_json(x) == b.key_json(y),
    ensures
        a.schema_version == b.schema_version,
        x == y,
        node_ids(a.consumer_nodes@) == node_ids(b.consumer_nodes@),
        a.max_bytes == b.max_bytes,
        a.max_inodes == b.max_inodes,
{
    broadcast use {group_names_differ, group_values_apart, group_whole_values};

}

/// What is written of whoever started an operation tells who it was.
pub proof fn law_actors_are_told_apart(a: OperationActor, b: OperationActor)
    ensures
        whole(a.json()),
        a.json() == b.json() ==> match (a, b) {
            (
                OperationActor::Interactive { user_id },
                OperationActor::Interactive { user_id: other },
            ) => user_id == other,
            (
                OperationActor::Automation { source },
                OperationActor::Automation { source: other },
            ) => source == other,
            _ => false,
        },
{
    broadcast use {group_names_differ, group_values_apart, group_whole_values};

    reveal_strlit("interactive");
    reveal_strlit("automation");
    reveal_strlit("user_id");
    reveal_strlit("source");
    assert("user_id"@.len() != "source"@.len());
}

/// What is written of an installed policy tells which it is.
pub proof fn law_policies_are_told_apart(a: InstalledPolicyIdentity, b: InstalledPolicyIdentity)
    ensures
        whole(a.json()),
        a.json()[0] == '{',
        a.json() == b.json() ==> a.digest@ == b.digest@ && a.version == b.version,
{
    broadcast use {group_names_differ, group_values_apart, group_whole_values};

}

/// What an operation is authorized over covers whose it is, what it does and to what, who started it,
/// and what they were allowed: no authority can be taken from one operation to another.
pub proof fn law_authority_covers_its_operation(a: OperationRecord, b: OperationRecord)
    requires
        authorization_json(a) == authorization_json(b),
    ensures
        a.attempt_id == b.attempt_id,
        a.request_id == b.request_id,
        a.project_id@ == b.project_id@,
        a.operation_kind == b.operation_kind,
        a.target_commit is Some <==> b.target_commit is Some,
        a.target_commit is Some ==> (a.target_commit->0)@ == (b.target_commit->0)@,
        a.release_class == b.release_class,
        a.evidence.installed_policy is Some <==> b.evidence.installed_policy is Some,
        a.evidence.installed_policy is Some ==> (a.evidence.installed_policy->0).digest@ == (
        b.evidence.installed_policy->0).digest@,
        a.actor is Interactive <==> b.actor is Interactive,
        a.actor is Interactive ==> a.actor->user_id == b.actor->user_id,
        digest_option(a.evidence.action_grant_digest) == digest_option(
            b.evidence.action_grant_digest,
        ),
        digest_option(a.evidence.source_attestation_digest) == digest_option(
            b.evidence.source_attestation_digest,
        ),
        a.evidence.source_sequence == b.evidence.source_sequence,
{
    broadcast use {group_names_differ, group_values_apart, group_whole_values};

    law_actors_are_told_apart(a.actor, b.actor);
    law_actors_are_told_apart(b.actor, a.actor);
    if a.evidence.installed_policy is Some {
        law_policies_are_told_apart(a.evidence.installed_policy->0, b.evidence.installed_policy->0);
    }
    if b.evidence.installed_policy is Some {
        law_policies_are_told_apart(b.evidence.installed_policy->0, a.evidence.installed_policy->0);
    }
}

/// What is written of the inputs of a lease tells each of them.
pub proof fn law_lease_inputs_are_told_apart(
    a: Seq<WorkflowLeaseInputV1>,
    b: Seq<WorkflowLeaseInputV1>,
)
    ensures
        whole(inputs_json(a)),
        inputs_json(a) == inputs_json(b) ==> a.len() == b.len() && forall|i: int|
            0 <= i < a.len() ==> (#[trigger] a[i]).node_id@ == b[i].node_id@
                && a[i].artifact_kind == b[i].artifact_kind && a[i].output_digest@
                == b[i].output_digest@,
{
    broadcast use {group_names_differ, group_values_apart, group_whole_values};

    let s = a.map_values(|value: WorkflowLeaseInputV1| value.json());
    let t = b.map_values(|value: WorkflowLeaseInputV1| value.json());
    assert forall|i: int| 0 <= i < s.len() implies whole(#[trigger] s[i]) && s[i].len() > 0 by {
        assert(s[i] == a[i].json());
    }
    assert forall|i: int| 0 <= i < t.len() implies whole(#[trigger] t[i]) && t[i].len() > 0 by {
        assert(t[i] == b[i].json());
    }
    lemma_arrays_are_whole(s);
    if inputs_json(a) == inputs_json(b) {
        law_lists_are_told_apart(s, t);
        assert(s.len() == t.len());
        assert forall|i: int| 0 <= i < a.len() implies (#[trigger] a[i]).node_id@ == b[i].node_id@
            && a[i].artifact_kind == b[i].artifact_kind && a[i].output_digest@
            == b[i].output_digest@ by {
            assert(s[i] == t[i]);
            assert(a[i].json() == b[i].json());
        }
    }
}

/// What is written of kinds of artifacts names each of them.
pub proof fn law_kinds_are_told_apart(
    a: Seq<WorkflowArtifactKindV1>,
    b: Seq<WorkflowArtifactKindV1>,
)
    ensures
        whole(artifact_kinds_json(a)),
        artifact_kinds_json(a) == artifact_kinds_json(b) ==> a.len() == b.len() && forall|i: int|
            0 <= i < a.len() ==> #[trigger] a[i] == b[i],
{
    broadcast use {group_names_differ, group_values_apart, group_whole_values};

    let s = a.map_values(|value: WorkflowArtifactKindV1| json_string(value.name()));
    let t = b.map_values(|value: WorkflowArtifactKindV1| json_string(value.name()));
    assert forall|i: int| 0 <= i < s.len() implies whole(#[trigger] s[i]) && s[i].len() > 0 by {
        assert(s[i] == json_string(a[i].name()));
    }
    assert forall|i: int| 0 <= i < t.len() implies whole(#[trigger] t[i]) && t[i].len() > 0 by {
        assert(t[i] == json_string(b[i].name()));
    }
    lemma_arrays_are_whole(s);
    if artifact_kinds_json(a) == artifact_kinds_json(b) {
        law_lists_are_told_apart(s, t);
        assert(s.len() == t.len());
        assert forall|i: int| 0 <= i < a.len() implies #[trigger] a[i] == b[i] by {
            assert(s[i] == t[i]);
            assert(json_string(a[i].name()) == json_string(b[i].name()));
        }
    }
}

proof fn lemma_terms_apart(
    a: WorkflowLeaseV1,
    b: WorkflowLeaseV1,
    m: Seq<(Seq<char>, Seq<char>)>,
    n: Seq<(Seq<char>, Seq<char>)>,
)
    requires
        a.with_terms(m) == b.with_terms(n),
    ensures
        m == n,
        a.input_contracts@ == b.input_contracts@,
        a.input_artifacts@.len() == b.input_artifacts@.len(),
        forall|i: int|
            0 <= i < a.input_artifacts@.len() ==> (#[trigger] a.input_artifacts@[i]).node_id@
                == b.input_artifacts@[i].node_id@ && a.input_artifacts@[i].output_digest@
                == b.input_artifacts@[i].output_digest@,
        a.output_contract == b.output_contract,
        a.expected_input_digest@ == b.expected_input_digest@,
        a.worker_id@ == b.worker_id@,
        a.host_id@ == b.host_id@,
        a.leased_at_ms == b.leased_at_ms,
        a.expires_at_ms == b.expires_at_ms,
{
    broadcast use {group_names_differ, group_values_apart, group_whole_values};

    reveal_strlit("input_contracts");
    reveal_strlit("input_artifacts");
    assert("input_contracts"@[6] != "input_artifacts"@[6]);
    law_lease_inputs_are_told_apart(a.input_artifacts@, b.input_artifacts@);
    law_kinds_are_told_apart(a.input_contracts@, b.input_contracts@);
}

proof fn lemma_states_apart(
    a: WorkflowLeaseV1,
    b: WorkflowLeaseV1,
    m: Seq<(Seq<char>, Seq<char>)>,
    n: Seq<(Seq<char>, Seq<char>)>,
    v: Seq<char>,
    w: Seq<char>,
)
    requires
        a.with_state(m.push(("resources"@, v))) == b.with_state(n.push(("resources"@, w))),
    ensures
        m == n,
        v == w,
        a.host_preparation is Some <==> b.host_preparation is Some,
        a.host_preparation is Some ==> (a.host_preparation->0).json() == (
        b.host_preparation->0).json(),
        a.operation_state is Some <==> b.operation_state is Some,
        a.operation_state is Some ==> (a.operation_state->0).json() == (
        b.operation_state->0).json(),
{
    broadcast use {group_names_differ, group_values_apart, group_whole_values};

    reveal_strlit("resources");
    reveal_strlit("host_preparation");
    reveal_strlit("operation_state");
    assert("resources"@[0] != "host_preparation"@[0]);
    assert("resources"@[0] != "operation_state"@[0]);
    assert("host_preparation"@[0] != "operation_state"@[0]);
}

/// The members of a lease up to its resources.
spec fn up_to_resources(
    lease: WorkflowLeaseV1,
    members: Seq<(Seq<char>, Seq<char>)>,
) -> Seq<(Seq<char>, Seq<char>)> {
    members.push(("workflow_policy_digest"@, json_string(lease.workflow_policy_digest@))).push(
        ("preparation_key"@, json_string(lease.preparation_key@)),
    ).push(("node_id"@, json_string(lease.node_id@))).push(
        ("node_kind"@, json_string(lease.node_kind.name())),
    ).push(("profile_id"@, json_string(lease.profile_id@))).push(
        ("adapter_id"@, json_string(lease.adapter_id.name())),
    ).push(("worker_pool"@, json_string(lease.worker_pool.name()))).push(
        ("network_class"@, json_string(lease.network_class.name())),
    ).push(("cache_class"@, json_string(lease.cache_class.name()))).push(
        ("timeout_ms"@, json_nat(lease.timeout_ms as nat)),
    )
}

/// What is written of the resources of a lease.
spec fn resources_text(lease: WorkflowLeaseV1) -> Seq<char> {
    json_optional(
        match lease.resources {
            Some(value) => Some(value.json()),
            None => None,
        },
    )
}

proof fn lemma_nodes_apart(
    a: WorkflowLeaseV1,
    b: WorkflowLeaseV1,
    m: Seq<(Seq<char>, Seq<char>)>,
    n: Seq<(Seq<char>, Seq<char>)>,
)
    requires
        up_to_resources(a, m) == up_to_resources(b, n),
        resources_text(a) == resources_text(b),
    ensures
        m == n,
        a.workflow_policy_digest@ == b.workflow_policy_digest@,
        a.preparation_key@ == b.preparation_key@,
        a.node_id@ == b.node_id@,
        a.node_kind == b.node_kind,
        a.profile_id@ == b.profile_id@,
        a.adapter_id == b.adapter_id,
        a.worker_pool == b.worker_pool,
        a.network_class == b.network_class,
        a.cache_class == b.cache_class,
        a.timeout_ms == b.timeout_ms,
        a.resources == b.resources,
{
    broadcast use {group_names_differ, group_values_apart, group_whole_values};

}

proof fn lemma_sources_apart(
    a: WorkflowLeaseV1,
    b: WorkflowLeaseV1,
    m: Seq<(Seq<char>, Seq<char>)>,
)
    requires
        a.with_source(m) == b.with_source(m),
    ensures
        a.schema_version == b.schema_version,
        a.lease_id == b.lease_id,
        a.lease_generation == b.lease_generation,
        a.request_id == b.request_id,
        a.attempt_id == b.attempt_id,
        a.project_id@ == b.project_id@,
        a.source_sha@ == b.source_sha@,
        a.source_identity is Some <==> b.source_identity is Some,
        a.source_identity is Some ==> (a.source_identity->0).sequence == (
        b.source_identity->0).sequence && (a.source_identity->0).attestation_digest@ == (
        b.source_identity->0).attestation_digest@,
{
    broadcast use {group_names_differ, group_values_apart, group_whole_values};

    reveal_strlit("source_sha");
    reveal_strlit("source_identity");
    assert("source_sha"@.len() != "source_identity"@.len());
}

proof fn lemma_lease_is_whole(a: WorkflowLeaseV1, m: Seq<(Seq<char>, Seq<char>)>)
    requires
        all_whole(m),
    ensures
        all_whole(a.with_contents(m)),
{
    broadcast use {group_names_differ, group_values_apart, group_whole_values};

    law_lease_inputs_are_told_apart(a.input_artifacts@, a.input_artifacts@);
    law_kinds_are_told_apart(a.input_contracts@, a.input_contracts@);
    assert(all_whole(a.with_source(m)));
    assert(all_whole(a.with_node(a.with_source(m))));
    assert(all_whole(a.with_state(a.with_node(a.with_source(m)))));
}

/// The seal of a lease covers the execution that it is of, its node and profile, its source, its inputs
/// and its worker, and its times.
pub proof fn law_seals_cover_leases(a: WorkflowLeaseV1, b: WorkflowLeaseV1)
    requires
        a.sealed_json() == b.sealed_json(),
    ensures
        a.schema_version == b.schema_version,
        a.lease_id == b.lease_id,
        a.lease_generation == b.lease_generation,
        a.request_id == b.request_id,
        a.attempt_id == b.attempt_id,
        a.project_id@ == b.project_id@,
        a.source_sha@ == b.source_sha@,
        a.source_identity is Some <==> b.source_identity is Some,
        a.source_identity is Some ==> (a.source_identity->0).sequence == (
        b.source_identity->0).sequence && (a.source_identity->0).attestation_digest@ == (
        b.source_identity->0).attestation_digest@,
        a.workflow_policy_digest@ == b.workflow_policy_digest@,
        a.preparation_key@ == b.preparation_key@,
        a.node_id@ == b.node_id@,
        a.node_kind == b.node_kind,
        a.profile_id@ == b.profile_id@,
        a.adapter_id == b.adapter_id,
        a.worker_pool == b.worker_pool,
        a.network_class == b.network_class,
        a.cache_class == b.cache_class,
        a.timeout_ms == b.timeout_ms,
        a.resources == b.resources,
        a.host_preparation is Some <==> b.host_preparation is Some,
        a.operation_state is Some <==> b.operation_state is Some,
        a.operation_state is Some ==> (a.operation_state->0).state_key@ == (
        b.operation_state->0).state_key@,
        a.input_contracts@ == b.input_contracts@,
        a.input_artifacts@.len() == b.input_artifacts@.len(),
        forall|i: int|
            0 <= i < a.input_artifacts@.len() ==> (#[trigger] a.input_artifacts@[i]).node_id@
                == b.input_artifacts@[i].node_id@ && a.input_artifacts@[i].output_digest@
                == b.input_artifacts@[i].output_digest@,
        a.output_contract == b.output_contract,
        a.expected_input_digest@ == b.expected_input_digest@,
        a.worker_id@ == b.worker_id@,
        a.host_id@ == b.host_id@,
        a.leased_at_ms == b.leased_at_ms,
        a.expires_at_ms == b.expires_at_ms,
{
    let start = no_members().push(("purpose"@, json_string("rdashboard.workflow-lease.v1"@)));
    assert(all_whole(start)) by {
        broadcast use group_whole_values;

    }
    lemma_lease_is_whole(a, start);
    lemma_lease_is_whole(b, start);
    law_objects_are_told_apart(a.with_contents(start), b.with_contents(start));
    let m = a.with_source(start);
    let n = b.with_source(start);
    lemma_terms_apart(a, b, a.with_state(a.with_node(m)), b.with_state(b.with_node(n)));
    assert(a.with_node(m) == up_to_resources(a, m).push(("resources"@, resources_text(a))));
    assert(b.with_node(n) == up_to_resources(b, n).push(("resources"@, resources_text(b))));
    lemma_states_apart(
        a,
        b,
        up_to_resources(a, m),
        up_to_resources(b, n),
        resources_text(a),
        resources_text(b),
    );
    lemma_nodes_apart(a, b, m, n);
    lemma_sources_apart(a, b, start);
    if a.operation_state is Some {
        law_written_states_are_told_apart(a.operation_state->0, b.operation_state->0);
    }
}

/// What is written of the state of an operation tells its key, who uses it, and how large it may
/// become.
pub proof fn law_written_states_are_told_apart(
    a: WorkflowOperationStateV1,
    b: WorkflowOperationStateV1,
)
    requires
        a.json() == b.json(),
    ensures
        a.schema_version == b.schema_version,
        a.state_key@ == b.state_key@,
        node_ids(a.consumer_nodes@) == node_ids(b.consumer_nodes@),
        a.max_bytes == b.max_bytes,
        a.max_inodes == b.max_inodes,
{
    broadcast use {group_names_differ, group_values_apart, group_whole_values};

}

/// What is written of the phases that are authorized tells each of them.
pub proof fn law_authorized_phases_are_told_apart(
    a: Seq<AuthorizedPhaseSpecDigestV1>,
    b: Seq<AuthorizedPhaseSpecDigestV1>,
)
    ensures
        whole(authorized_json(a)),
        authorized_json(a) == authorized_json(b) ==> a.len() == b.len() && forall|i: int|
            0 <= i < a.len() ==> (#[trigger] a[i]).branch == b[i].branch && a[i].phase == b[i].phase
                && a[i].spec_digest@ == b[i].spec_digest@,
{
    broadcast use {group_names_differ, group_values_apart, group_whole_values};

    let s = a.map_values(|value: AuthorizedPhaseSpecDigestV1| value.json());
    let t = b.map_values(|value: AuthorizedPhaseSpecDigestV1| value.json());
    assert forall|i: int| 0 <= i < s.len() implies whole(#[trigger] s[i]) && s[i].len() > 0 by {
        assert(s[i] == a[i].json());
    }
    assert forall|i: int| 0 <= i < t.len() implies whole(#[trigger] t[i]) && t[i].len() > 0 by {
        assert(t[i] == b[i].json());
    }
    lemma_arrays_are_whole(s);
    if authorized_json(a) == authorized_json(b) {
        law_lists_are_told_apart(s, t);
        assert(s.len() == t.len());
        assert forall|i: int| 0 <= i < a.len() implies (#[trigger] a[i]).branch == b[i].branch
            && a[i].phase == b[i].phase && a[i].spec_digest@ == b[i].spec_digest@ by {
            assert(s[i] == t[i]);
            assert(a[i].json() == b[i].json());
        }
    }
}

/// What an intent is sealed over covers the operation, its phase and branch, the authority that it is
/// carried out under, and every piece of evidence that it rests on.
#[verifier::rlimit(100)]
#[verifier::spinoff_prover]
pub proof fn law_seals_cover_phase_intents(a: PhaseIntentPayloadV1, b: PhaseIntentPayloadV1)
    requires
        a.json() == b.json(),
    ensures
        a.attempt_id == b.attempt_id,
        a.request_id == b.request_id,
        a.operation_kind == b.operation_kind,
        a.release_class == b.release_class,
        a.phase == b.phase,
        a.branch == b.branch,
        a.source_sequence == b.source_sequence,
        a.backup_id == b.backup_id,
        a.backup_set_id == b.backup_set_id,
        a.base_backup_id == b.base_backup_id,
        a.cutover_backup_id == b.cutover_backup_id,
        a.fencing_epoch == b.fencing_epoch,
        a.recovery_mode == b.recovery_mode,
        digest_option(a.source_attestation_digest) == digest_option(b.source_attestation_digest),
        digest_option(a.source_gate_proof_digest) == digest_option(b.source_gate_proof_digest),
        digest_option(a.drain_evidence_digest) == digest_option(b.drain_evidence_digest),
        digest_option(a.source_export_digest) == digest_option(b.source_export_digest),
        digest_option(a.prefetch_evidence_digest) == digest_option(b.prefetch_evidence_digest),
        digest_option(a.ci_evidence_digest) == digest_option(b.ci_evidence_digest),
        digest_option(a.build_plan_digest) == digest_option(b.build_plan_digest),
        digest_option(a.deployment_plan_digest) == digest_option(b.deployment_plan_digest),
        digest_option(a.release_bundle_digest) == digest_option(b.release_bundle_digest),
        digest_option(a.resource_reservation_digest) == digest_option(
            b.resource_reservation_digest,
        ),
        digest_option(a.action_grant_digest) == digest_option(b.action_grant_digest),
        digest_option(a.build_context_digest) == digest_option(b.build_context_digest),
        digest_option(a.image_digest) == digest_option(b.image_digest),
        digest_option(a.image_id_digest) == digest_option(b.image_id_digest),
        digest_option(a.base_backup_manifest_digest) == digest_option(
            b.base_backup_manifest_digest,
        ),
        digest_option(a.base_backup_evidence_digest) == digest_option(
            b.base_backup_evidence_digest,
        ),
        digest_option(a.base_backup_offsite_evidence_digest) == digest_option(
            b.base_backup_offsite_evidence_digest,
        ),
        digest_option(a.base_backup_verification_digest) == digest_option(
            b.base_backup_verification_digest,
        ),
        digest_option(a.cutover_backup_manifest_digest) == digest_option(
            b.cutover_backup_manifest_digest,
        ),
        digest_option(a.cutover_backup_evidence_digest) == digest_option(
            b.cutover_backup_evidence_digest,
        ),
        digest_option(a.cutover_backup_verification_digest) == digest_option(
            b.cutover_backup_verification_digest,
        ),
        digest_option(a.previous_release_bundle_digest) == digest_option(
            b.previous_release_bundle_digest,
        ),
        digest_option(a.health_evidence_digest) == digest_option(b.health_evidence_digest),
        digest_option(a.rollback_health_evidence_digest) == digest_option(
            b.rollback_health_evidence_digest,
        ),
        digest_option(a.fence_acquisition_receipt_digest) == digest_option(
            b.fence_acquisition_receipt_digest,
        ),
        a.project_id@ == b.project_id@,
        a.target_commit is Some <==> b.target_commit is Some,
        a.target_commit is Some ==> (a.target_commit->0)@ == (b.target_commit->0)@,
        a.installed_policy is Some <==> b.installed_policy is Some,
        a.installed_policy is Some ==> (a.installed_policy->0).digest@ == (
        b.installed_policy->0).digest@,
        a.authorized_phase_spec_digests@.len() == b.authorized_phase_spec_digests@.len(),
        a.executor_authorization_digest@ == b.executor_authorization_digest@,
        digest_texts(a.generated_output_digests@) == digest_texts(b.generated_output_digests@),
        digest_texts(a.base_image_digests@) == digest_texts(b.base_image_digests@),
        text_option(a.schema_version) == text_option(b.schema_version),
{
    broadcast use {
        group_names_differ,
        group_values_apart,
        group_whole_values,
        lemma_optional_identifiers,
    };

    reveal(PhaseIntentPayloadV1::json);
    law_authorized_phases_are_told_apart(
        a.authorized_phase_spec_digests@,
        b.authorized_phase_spec_digests@,
    );
    law_authorized_phases_are_told_apart(
        b.authorized_phase_spec_digests@,
        a.authorized_phase_spec_digests@,
    );
    if a.installed_policy is Some {
        law_policies_are_told_apart(a.installed_policy->0, b.installed_policy->0);
    }
    if b.installed_policy is Some {
        law_policies_are_told_apart(b.installed_policy->0, a.installed_policy->0);
    }
}

} // verus!
