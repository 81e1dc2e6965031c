//! What holds of every workflow that is valid, of the leases that it hands out and of their receipts.

use vstd::prelude::*;
use super::identifiers::{EvidenceDigest, GitCommitId, ProjectId};
use super::workflow::{
    node_ids, WorkflowArtifactKindV1, WorkflowContractError, WorkflowExecutionProfileV1,
    WorkflowHostPreparationAdapterV1, WorkflowHostPreparationPolicyV1, WorkflowNetworkClassV1,
    WorkflowNodeId, WorkflowNodeKindV1, WorkflowNodeV1, WorkflowPolicyV1, WorkflowProfileId,
};
use super::workflow_graph::{
    all_inputs_fault, all_need, distinct, follows_dependencies, inputs_fault, kind_places,
    lemma_dependency_comes_before, lemma_every_node_is_placed, lemma_node_place, missing_dependency,
    node_place, nodes_fault, of_kind, only, outputs, place_placed, profile_of,
    profile_place, profiles_fault,
};
use super::workflow_lease::{
    WorkflowLeaseInputV1, WorkflowLeaseV1, WorkflowOperationStateV1, WorkflowSourceIdentityV1,
};
use super::workflow_receipts::{
    WorkflowCleanupReceiptV1, WorkflowCleanupResultV1, WorkflowNodeOutcomeV1, WorkflowNodeReceiptV1,
    WorkflowReductionInputV1, WorkflowReductionReceiptV1,
};
use crate::text::text_before;
use crate::unique_id::Uuid;

verus! {

/// What prepares, verifies, builds or reserves changes nothing in production; everything after that
/// does. Only admission and reduction are done by the controller itself.
pub proof fn law_preparations_change_nothing(kind: WorkflowNodeKindV1, changes: bool, own: bool)
    requires
        call_ensures(WorkflowNodeKindV1::is_mutation, (kind,), changes),
        call_ensures(WorkflowNodeKindV1::is_controller_managed, (kind,), own),
    ensures
        kind is SourceAdmission || kind is HostPrepare || kind is Verification || kind
            is ReleaseBuild || kind is DeterministicReduce || kind is ResourceReservation
            ==> !changes,
        kind is Backup || kind is Migration || kind is CandidateHealth || kind is Cutover || kind
            is ReleasedObservation || kind is Rollback ==> changes,
        own <==> kind is SourceAdmission || kind is DeterministicReduce,
        !(changes && own),
{
}

/// The host reaches out only for what a registry holds.
pub proof fn law_only_registries_are_reached(
    policy: WorkflowHostPreparationPolicyV1,
    network: WorkflowNetworkClassV1,
    valid: Result<(), WorkflowContractError>,
)
    requires
        call_ensures(WorkflowHostPreparationPolicyV1::required_network_class, (&policy,), network),
        call_ensures(WorkflowHostPreparationPolicyV1::validate, (&policy,), valid),
    ensures
        network is DependencyEgress <==> policy.adapter_id
            == WorkflowHostPreparationAdapterV1::CargoCratesIoV1,
        network is Offline <==> policy.adapter_id == WorkflowHostPreparationAdapterV1::SourceTreeV1,
        valid is Ok ==> policy.schema_version == 1,
{
}

proof fn lemma_profile_place(profiles: Seq<WorkflowExecutionProfileV1>, id: Seq<char>)
    ensures
        0 <= profile_place(profiles, id) <= profiles.len(),
        profile_place(profiles, id) < profiles.len() ==> profiles[profile_place(
            profiles,
            id,
        )].profile_id@ == id,
        forall|i: int|
            0 <= i < profile_place(profiles, id) ==> (#[trigger] profiles[i]).profile_id@ != id,
    decreases profiles.len(),
{
    if profiles.len() > 0 && profiles[0].profile_id@ != id {
        let rest = profiles.drop_first();
        lemma_profile_place(rest, id);
        assert forall|i: int| 0 <= i < profile_place(profiles, id) implies (
        #[trigger] profiles[i]).profile_id@ != id by {
            if i > 0 {
                assert(profiles[i] == rest[i - 1]);
            }
        }
    }
}

proof fn lemma_valid_profiles(profiles: Seq<WorkflowExecutionProfileV1>)
    requires
        profiles_fault(profiles) is None,
    ensures
        forall|i: int| 0 <= i < profiles.len() ==> (#[trigger] profiles[i]).fault() is None,
        forall|i: int, j: int|
            0 <= i < j < profiles.len() ==> (#[trigger] profiles[i]).profile_id@ != (
            #[trigger] profiles[j]).profile_id@,
    decreases profiles.len(),
{
    if profiles.len() > 0 {
        let before = profiles.drop_last();
        lemma_valid_profiles(before);
        lemma_profile_place(before, profiles.last().profile_id@);
        assert forall|i: int, j: int| 0 <= i < j < profiles.len() implies (
        #[trigger] profiles[i]).profile_id@ != (#[trigger] profiles[j]).profile_id@ by {
            assert(before[i] == profiles[i]);
            if j < before.len() {
                assert(before[j] == profiles[j]);
            }
        }
        assert forall|i: int| 0 <= i < profiles.len() implies (#[trigger] profiles[i]).fault()
            is None by {
            if i < before.len() {
                assert(before[i] == profiles[i]);
            }
        }
    }
}

/// Every profile of a valid workflow has between a tenth of a second and three hours, and, unless the
/// controller works in it, bounded resources; no two have one name.
pub proof fn law_profiles_are_bounded(policy: WorkflowPolicyV1)
    requires
        call_ensures(
            WorkflowPolicyV1::validate,
            (&policy,),
            Ok::<(), WorkflowContractError>(()),
        ),
    ensures
        policy.schema_version == 1,
        1 <= policy.fairness_weight <= 16,
        1 <= policy.nodes@.len() <= 64,
        1 <= policy.execution_profiles@.len() <= 32,
        forall|i: int|
            0 <= i < policy.execution_profiles@.len() ==> {
                let profile = #[trigger] policy.execution_profiles@[i];
                &&& 100 <= profile.timeout_ms <= 10_800_000
                &&& profile.resources is None <==> profile.worker_pool is Controller
                &&& profile.worker_pool is Controller ==> profile.network_class is Offline
                    && profile.cache_class is Uncached
                &&& profile.resources matches Some(resources) ==> {
                    &&& 100 <= resources.cpu_millicores <= 32_000
                    &&& 67_108_864 <= resources.memory_max_bytes <= 68_719_476_736
                    &&& 8 <= resources.tasks_max <= 4_096
                    &&& 1_048_576 <= resources.scratch_max_bytes <= 1_099_511_627_776
                    &&& 1_024 <= resources.scratch_max_inodes <= 100_000_000
                    &&& 1_024 <= resources.output_max_bytes <= 68_719_476_736
                }
            },
        forall|i: int, j: int|
            0 <= i < j < policy.execution_profiles@.len() ==> (
            #[trigger] policy.execution_profiles@[i]).profile_id@ != (
            #[trigger] policy.execution_profiles@[j]).profile_id@,
{
    lemma_valid_profiles(policy.execution_profiles@);
}

proof fn lemma_local(
    nodes: Seq<WorkflowNodeV1>,
    profiles: Seq<WorkflowExecutionProfileV1>,
    i: int,
)
    requires
        nodes_fault(nodes, profiles) is None,
        0 <= i < nodes.len(),
    ensures
        nodes[i].local_fault() is None,
    decreases nodes.len(),
{
    if i < nodes.len() - 1 {
        lemma_local(nodes.drop_last(), profiles, i);
        assert(nodes[i] == nodes.drop_last()[i]);
    }
}

/// What changes production runs with the privileged executor, and nothing else does but the
/// reservation of its resources. Code is verified and built without a network, from what was
/// prepared; only the preparation may reach out, and only watching reaches the services, from nearby.
pub proof fn law_work_is_done_where_it_belongs(policy: WorkflowPolicyV1, i: int, changes: bool)
    requires
        call_ensures(
            WorkflowPolicyV1::validate,
            (&policy,),
            Ok::<(), WorkflowContractError>(()),
        ),
        0 <= i < policy.nodes@.len(),
        call_ensures(WorkflowNodeKindV1::is_mutation, (policy.nodes@[i].kind,), changes),
    ensures
        exists|at: int|
            0 <= at < policy.execution_profiles@.len() && ({
                let node = policy.nodes@[i];
                let kind = node.kind;
                let profile = #[trigger] policy.execution_profiles@[at];
                &&& profile.profile_id@ == node.profile_id@
                &&& profile.worker_pool is PrivilegedExecutor <==> changes || kind
                    is ResourceReservation
                &&& profile.worker_pool is Controller <==> kind is SourceAdmission || kind
                    is DeterministicReduce
                &&& profile.worker_pool is BuildCompute <==> kind is Verification
                &&& profile.network_class is DependencyEgress ==> kind is HostPrepare
                &&& profile.network_class is LocalHealthOnly <==> kind is CandidateHealth || kind
                    is ReleasedObservation
                &&& profile.cache_class is PreparedRun <==> kind is Verification || kind
                    is ReleaseBuild
                &&& profile.cache_class is Dependency <==> kind is HostPrepare
                &&& profile.adapter_id is WorkerNativeReleaseBuildV1 || profile.adapter_id
                    is WorkerOciReleaseBuildV1 <==> kind is ReleaseBuild
                &&& profile.adapter_id is ControllerSourceAdmissionV1 <==> kind is SourceAdmission
                &&& profile.adapter_id is WorkerHostPrepareV1 <==> kind is HostPrepare
                &&& profile.adapter_id is WorkerBareBinCiV1 <==> kind is Verification
                &&& profile.adapter_id is ControllerReduceV1 <==> kind is DeterministicReduce
                &&& profile.adapter_id is ExecutorResourceReserveV1 <==> kind is ResourceReservation
                &&& profile.adapter_id is ExecutorBackupV1 <==> kind is Backup
                &&& profile.adapter_id is ExecutorMigrationV1 <==> kind is Migration
                &&& profile.adapter_id is ExecutorCandidateHealthV1 <==> kind is CandidateHealth
                &&& profile.adapter_id is ExecutorCutoverV1 <==> kind is Cutover
                &&& profile.adapter_id is ExecutorReleasedObserveV1 <==> kind is ReleasedObservation
                &&& profile.adapter_id is ExecutorRollbackV1 <==> kind is Rollback
            }),
{
    super::workflow_graph::law_valid_nodes_have_profiles(policy, i);
    let at = profile_place(policy.execution_profiles@, policy.nodes@[i].profile_id@);
    lemma_profile_place(policy.execution_profiles@, policy.nodes@[i].profile_id@);
    let profile = policy.execution_profiles@[at];
    assert(profile == profile_of(policy.execution_profiles@, policy.nodes@[i]));
}

/// A node puts out what its kind puts out, only a rollback waits for a failure, and no node depends on
/// itself or on one that is not there. What it takes in is what those that it depends on put out.
pub proof fn law_nodes_take_what_they_depend_on(policy: WorkflowPolicyV1, i: int)
    requires
        call_ensures(
            WorkflowPolicyV1::validate,
            (&policy,),
            Ok::<(), WorkflowContractError>(()),
        ),
        0 <= i < policy.nodes@.len(),
    ensures
        ({
            let node = policy.nodes@[i];
            &&& node.kind is Rollback <==> node.activation is OnMutationFailure
            &&& node.output_contract is SourceSnapshot <==> node.kind is SourceAdmission
            &&& node.output_contract is PreparedRun <==> node.kind is HostPrepare
            &&& node.output_contract is VerificationReceipt <==> node.kind is Verification
            &&& node.output_contract is ReleaseBuildResult <==> node.kind is ReleaseBuild
            &&& node.output_contract is ReductionReceipt <==> node.kind is DeterministicReduce
            &&& node.output_contract is ResourceReservation <==> node.kind is ResourceReservation
            &&& node.output_contract is BackupReceipt <==> node.kind is Backup
            &&& node.output_contract is MigrationReceipt <==> node.kind is Migration
            &&& node.output_contract is CandidateHealthReceipt <==> node.kind is CandidateHealth
            &&& node.output_contract is CutoverReceipt <==> node.kind is Cutover
            &&& node.output_contract is ReleasedObservationReceipt <==> node.kind
                is ReleasedObservation
            &&& node.output_contract is RollbackReceipt <==> node.kind is Rollback
            &&& forall|d: int|
                0 <= d < node.depends_on@.len() ==> (#[trigger] node.depends_on@[d])@
                    != node.node_id@ && exists|j: int|
                    0 <= j < policy.nodes@.len() && (#[trigger] policy.nodes@[j]).node_id@
                        == node.depends_on@[d]@
            &&& forall|kind: WorkflowArtifactKindV1| #[trigger]
                node.input_contracts@.contains(kind) <==> exists|j: int|
                    0 <= j < policy.nodes@.len() && #[trigger] policy.nodes@[j].output_contract
                        == kind && node_ids(node.depends_on@).contains(policy.nodes@[j].node_id@)
        }),
{
    let nodes = policy.nodes@;
    let node = nodes[i];
    lemma_local(nodes, policy.execution_profiles@, i);
    lemma_inputs(nodes, nodes.len() as int, i);
    assert forall|d: int| 0 <= d < node.depends_on@.len() implies (#[trigger] node.depends_on@[d])@
        != node.node_id@ && exists|j: int|
        0 <= j < policy.nodes@.len() && (#[trigger] policy.nodes@[j]).node_id@
            == node.depends_on@[d]@ by {
        let ids = node_ids(node.depends_on@);
        assert(ids[d] == node.depends_on@[d]@);
        assert(ids.contains(ids[d]));
        lemma_present(node, nodes, 0, d);
        lemma_node_place(nodes, node.depends_on@[d]@);
        let j = node_place(nodes, node.depends_on@[d]@);
        assert(policy.nodes@[j].node_id@ == node.depends_on@[d]@);
    }
    assert forall|kind: WorkflowArtifactKindV1| #[trigger]
        node.input_contracts@.contains(kind) <==> exists|j: int|
            0 <= j < policy.nodes@.len() && #[trigger] policy.nodes@[j].output_contract == kind
                && node_ids(node.depends_on@).contains(policy.nodes@[j].node_id@) by {
        assert(node.input_contracts@.to_set().contains(kind) == outputs(
            nodes,
            node_ids(node.depends_on@),
        ).contains(kind));
    }
}

proof fn lemma_inputs(nodes: Seq<WorkflowNodeV1>, count: int, i: int)
    requires
        all_inputs_fault(nodes, count) is None,
        0 <= i < count,
    ensures
        inputs_fault(nodes[i], nodes) is None,
    decreases count,
{
    if i < count - 1 {
        lemma_inputs(nodes, count - 1, i);
    }
}

proof fn lemma_present(node: WorkflowNodeV1, nodes: Seq<WorkflowNodeV1>, from: int, d: int)
    requires
        missing_dependency(node, nodes, from) is None,
        0 <= from <= d < node.depends_on@.len(),
    ensures
        node_place(nodes, node.depends_on@[d]@) < nodes.len(),
    decreases d - from,
{
    if from < d {
        lemma_present(node, nodes, from + 1, d);
    }
}

proof fn lemma_place_placed(nodes: Seq<WorkflowNodeV1>, places: Seq<int>, place: int, x: int)
    ensures
        place_placed(nodes, places, place).contains(x) <==> places.contains(x) || x == place,
    decreases places.len(),
{
    let placed = place_placed(nodes, places, place);
    if places.len() == 0 || !text_before(nodes[place].node_id@, nodes[places.last()].node_id@) {
        assert(placed == places.push(place));
        assert(placed[placed.len() - 1] == place);
        if places.contains(x) {
            let k = choose|k: int| 0 <= k < places.len() && places[k] == x;
            assert(placed[k] == x);
        }
    } else {
        let rest = places.drop_last();
        let head = place_placed(nodes, rest, place);
        lemma_place_placed(nodes, rest, place, x);
        assert(placed == head.push(places.last()));
        assert(placed[placed.len() - 1] == places.last());
        assert(places[places.len() - 1] == places.last());
        if head.contains(x) {
            let k = choose|k: int| 0 <= k < head.len() && head[k] == x;
            assert(placed[k] == x);
        }
        if rest.contains(x) {
            let k = choose|k: int| 0 <= k < rest.len() && rest[k] == x;
            assert(places[k] == x);
        }
        if places.contains(x) && x != places.last() {
            let k = choose|k: int| 0 <= k < places.len() && places[k] == x;
            assert(rest[k] == x);
        }
        if placed.contains(x) && x != places.last() {
            let k = choose|k: int| 0 <= k < placed.len() && placed[k] == x;
            assert(head[k] == x);
        }
    }
}

proof fn lemma_of_kind(nodes: Seq<WorkflowNodeV1>, kind: WorkflowNodeKindV1, count: int, i: int)
    requires
        0 <= count <= nodes.len(),
    ensures
        of_kind(nodes, kind, count).contains(i) <==> 0 <= i < count && nodes[i].kind == kind,
    decreases count,
{
    if count > 0 {
        lemma_of_kind(nodes, kind, count - 1, i);
        if nodes[count - 1].kind == kind {
            lemma_place_placed(nodes, of_kind(nodes, kind, count - 1), count - 1, i);
        }
    }
}

/// There is one node of a kind, and it depends on just these others.
#[verifier::opaque]
pub open spec fn one_depends_on(
    nodes: Seq<WorkflowNodeV1>,
    kind: WorkflowNodeKindV1,
    names: Seq<Seq<char>>,
) -> bool {
    exists|i: int|
        0 <= i < nodes.len() && (#[trigger] nodes[i]).kind == kind && node_ids(nodes[i].depends_on@)
            == names && forall|j: int|
            0 <= j < nodes.len() && (#[trigger] nodes[j]).kind == kind ==> j == i
}

/// There is one node of a kind, and it depends on the only one of another kind and on nothing else.
#[verifier::opaque]
pub open spec fn one_follows(
    nodes: Seq<WorkflowNodeV1>,
    kind: WorkflowNodeKindV1,
    before: WorkflowNodeKindV1,
) -> bool {
    forall|i: int, j: int|
        0 <= i < nodes.len() && 0 <= j < nodes.len() && (#[trigger] nodes[i]).kind == kind && (
        #[trigger] nodes[j]).kind == before ==> node_ids(nodes[i].depends_on@)
            == seq![nodes[j].node_id@]
}

/// There is a node of a kind.
#[verifier::opaque]
pub open spec fn has_kind(nodes: Seq<WorkflowNodeV1>, kind: WorkflowNodeKindV1) -> bool {
    exists|i: int| 0 <= i < nodes.len() && (#[trigger] nodes[i]).kind == kind
}

/// No two nodes are of a kind.
#[verifier::opaque]
pub open spec fn at_most_one(nodes: Seq<WorkflowNodeV1>, kind: WorkflowNodeKindV1) -> bool {
    forall|i: int, j: int|
        0 <= i < nodes.len() && 0 <= j < nodes.len() && (#[trigger] nodes[i]).kind == kind && (
        #[trigger] nodes[j]).kind == kind ==> i == j
}

proof fn lemma_one(nodes: Seq<WorkflowNodeV1>, kind: WorkflowNodeKindV1)
    requires
        kind_places(nodes, kind).len() <= 1,
    ensures
        at_most_one(nodes, kind),
        has_kind(nodes, kind) <==> kind_places(nodes, kind).len() == 1,
{
    lemma_only(nodes, kind);
}

proof fn lemma_only(nodes: Seq<WorkflowNodeV1>, kind: WorkflowNodeKindV1)
    requires
        kind_places(nodes, kind).len() <= 1,
    ensures
        at_most_one(nodes, kind),
        has_kind(nodes, kind) <==> kind_places(nodes, kind).len() == 1,
        forall|i: int|
            0 <= i < nodes.len() && (#[trigger] nodes[i]).kind == kind ==> nodes[i] == only(
                nodes,
                kind,
            ),
{
    reveal(has_kind);
    reveal(at_most_one);
    let places = kind_places(nodes, kind);
    let count = nodes.len() as int;
    assert forall|i: int| 0 <= i < nodes.len() && (#[trigger] nodes[i]).kind == kind implies i
        == places[0] && places.len() == 1 by {
        lemma_of_kind(nodes, kind, count, i);
        let k = choose|k: int| 0 <= k < places.len() && places[k] == i;
    }
    if places.len() == 1 {
        lemma_of_kind(nodes, kind, count, places[0]);
        assert(places.contains(places[0]));
        assert(nodes[places[0]].kind == kind);
    }
}

proof fn lemma_follows(
    nodes: Seq<WorkflowNodeV1>,
    kind: WorkflowNodeKindV1,
    before: WorkflowNodeKindV1,
)
    requires
        kind_places(nodes, kind).len() <= 1,
        kind_places(nodes, before).len() <= 1,
        kind_places(nodes, kind).len() == 1 && kind_places(nodes, before).len() == 1 ==> node_ids(
            only(nodes, kind).depends_on@,
        ) == seq![only(nodes, before).node_id@],
    ensures
        one_follows(nodes, kind, before),
{
    reveal(one_follows);
    reveal(has_kind);
    lemma_only(nodes, kind);
    lemma_only(nodes, before);
}

proof fn lemma_verifications(nodes: Seq<WorkflowNodeV1>)
    requires
        kind_places(nodes, WorkflowNodeKindV1::HostPrepare).len() == 1,
        kind_places(nodes, WorkflowNodeKindV1::Verification).len() > 0,
        all_need(
            nodes,
            kind_places(nodes, WorkflowNodeKindV1::Verification),
            only(nodes, WorkflowNodeKindV1::HostPrepare).node_id@,
        ) is None,
    ensures
        has_kind(nodes, WorkflowNodeKindV1::Verification),
        one_follows(nodes, WorkflowNodeKindV1::Verification, WorkflowNodeKindV1::HostPrepare),
{
    reveal(has_kind);
    reveal(one_follows);
    lemma_only(nodes, WorkflowNodeKindV1::HostPrepare);
    let verification = kind_places(nodes, WorkflowNodeKindV1::Verification);
    lemma_of_kind(
        nodes,
        WorkflowNodeKindV1::Verification,
        nodes.len() as int,
        verification[0],
    );
    assert(verification.contains(verification[0]));
    assert(nodes[verification[0]].kind is Verification);
    let prepare = only(nodes, WorkflowNodeKindV1::HostPrepare);
    assert forall|i: int|
        0 <= i < nodes.len() && (#[trigger] nodes[i]).kind is Verification implies node_ids(
        nodes[i].depends_on@,
    ) == seq![prepare.node_id@] by {
        lemma_of_kind(nodes, WorkflowNodeKindV1::Verification, nodes.len() as int, i);
        let k = choose|k: int| 0 <= k < verification.len() && verification[k] == i;
        lemma_all_need(nodes, verification, prepare.node_id@, k);
    }
}

proof fn lemma_source(nodes: Seq<WorkflowNodeV1>)
    requires
        kind_places(nodes, WorkflowNodeKindV1::SourceAdmission).len() == 1,
        node_ids(only(nodes, WorkflowNodeKindV1::SourceAdmission).depends_on@) == Seq::<
            Seq<char>,
        >::empty(),
    ensures
        one_depends_on(nodes, WorkflowNodeKindV1::SourceAdmission, seq![]),
{
    reveal(one_depends_on);
    reveal(at_most_one);
    lemma_only(nodes, WorkflowNodeKindV1::SourceAdmission);
    let source = kind_places(nodes, WorkflowNodeKindV1::SourceAdmission)[0];
    lemma_of_kind(nodes, WorkflowNodeKindV1::SourceAdmission, nodes.len() as int, source);
    assert(kind_places(nodes, WorkflowNodeKindV1::SourceAdmission).contains(source));
    assert(nodes[source].kind is SourceAdmission);
}

/// A workflow that delivers goes one way: source, preparation, verification and build, reduction,
/// reservation; then the backup and the migration, where it has them, in this order; then the
/// candidate, the cutover, and behind the cutover both the observation and the way back. Nothing
/// changes production before its resources are reserved, nothing migrates before its backup, and
/// nothing is cut over before its candidate was found healthy.
#[verifier::rlimit(60)]
pub proof fn law_deliveries_go_one_way(policy: WorkflowPolicyV1)
    requires
        call_ensures(
            WorkflowPolicyV1::validate,
            (&policy,),
            Ok::<(), WorkflowContractError>(()),
        ),
        policy.delivery_mode is ExecutorMutation,
    ensures
        ({
            let nodes = policy.nodes@;
            let backs_up = has_kind(nodes, WorkflowNodeKindV1::Backup);
            let migrates = has_kind(nodes, WorkflowNodeKindV1::Migration);
            &&& has_kind(nodes, WorkflowNodeKindV1::SourceAdmission)
            &&& has_kind(nodes, WorkflowNodeKindV1::HostPrepare)
            &&& has_kind(nodes, WorkflowNodeKindV1::Verification)
            &&& has_kind(nodes, WorkflowNodeKindV1::ReleaseBuild)
            &&& has_kind(nodes, WorkflowNodeKindV1::DeterministicReduce)
            &&& has_kind(nodes, WorkflowNodeKindV1::ResourceReservation)
            &&& has_kind(nodes, WorkflowNodeKindV1::CandidateHealth)
            &&& has_kind(nodes, WorkflowNodeKindV1::Cutover)
            &&& has_kind(nodes, WorkflowNodeKindV1::ReleasedObservation)
            &&& has_kind(nodes, WorkflowNodeKindV1::Rollback)
            &&& at_most_one(nodes, WorkflowNodeKindV1::SourceAdmission)
            &&& at_most_one(nodes, WorkflowNodeKindV1::HostPrepare)
            &&& at_most_one(nodes, WorkflowNodeKindV1::ReleaseBuild)
            &&& at_most_one(nodes, WorkflowNodeKindV1::DeterministicReduce)
            &&& at_most_one(nodes, WorkflowNodeKindV1::ResourceReservation)
            &&& at_most_one(nodes, WorkflowNodeKindV1::Backup)
            &&& at_most_one(nodes, WorkflowNodeKindV1::Migration)
            &&& at_most_one(nodes, WorkflowNodeKindV1::CandidateHealth)
            &&& at_most_one(nodes, WorkflowNodeKindV1::Cutover)
            &&& at_most_one(nodes, WorkflowNodeKindV1::ReleasedObservation)
            &&& at_most_one(nodes, WorkflowNodeKindV1::Rollback)
            &&& one_depends_on(nodes, WorkflowNodeKindV1::SourceAdmission, seq![])
            &&& one_follows(
                nodes,
                WorkflowNodeKindV1::HostPrepare,
                WorkflowNodeKindV1::SourceAdmission,
            )
            &&& one_follows(
                nodes,
                WorkflowNodeKindV1::ResourceReservation,
                WorkflowNodeKindV1::DeterministicReduce,
            )
            &&& one_follows(
                nodes,
                WorkflowNodeKindV1::Backup,
                WorkflowNodeKindV1::ResourceReservation,
            )
            &&& one_follows(nodes, WorkflowNodeKindV1::Migration, WorkflowNodeKindV1::Backup)
            &&& !backs_up ==> one_follows(
                nodes,
                WorkflowNodeKindV1::Migration,
                WorkflowNodeKindV1::ResourceReservation,
            )
            &&& one_follows(
                nodes,
                WorkflowNodeKindV1::CandidateHealth,
                WorkflowNodeKindV1::Migration,
            )
            &&& backs_up && !migrates ==> one_follows(
                nodes,
                WorkflowNodeKindV1::CandidateHealth,
                WorkflowNodeKindV1::Backup,
            )
            &&& !backs_up && !migrates ==> one_follows(
                nodes,
                WorkflowNodeKindV1::CandidateHealth,
                WorkflowNodeKindV1::ResourceReservation,
            )
            &&& one_follows(nodes, WorkflowNodeKindV1::Cutover, WorkflowNodeKindV1::CandidateHealth)
            &&& one_follows(
                nodes,
                WorkflowNodeKindV1::ReleasedObservation,
                WorkflowNodeKindV1::Cutover,
            )
            &&& one_follows(nodes, WorkflowNodeKindV1::Rollback, WorkflowNodeKindV1::Cutover)
            &&& one_follows(
                nodes,
                WorkflowNodeKindV1::Verification,
                WorkflowNodeKindV1::HostPrepare,
            )
        }),
{
    let nodes = policy.nodes@;
    lemma_one(nodes, WorkflowNodeKindV1::SourceAdmission);
    lemma_one(nodes, WorkflowNodeKindV1::HostPrepare);
    lemma_one(nodes, WorkflowNodeKindV1::ReleaseBuild);
    lemma_one(nodes, WorkflowNodeKindV1::DeterministicReduce);
    lemma_one(nodes, WorkflowNodeKindV1::ResourceReservation);
    lemma_one(nodes, WorkflowNodeKindV1::Backup);
    lemma_one(nodes, WorkflowNodeKindV1::Migration);
    lemma_one(nodes, WorkflowNodeKindV1::CandidateHealth);
    lemma_one(nodes, WorkflowNodeKindV1::Cutover);
    lemma_one(nodes, WorkflowNodeKindV1::ReleasedObservation);
    lemma_one(nodes, WorkflowNodeKindV1::Rollback);
    lemma_verifications(nodes);
    lemma_source(nodes);
    lemma_follows(nodes, WorkflowNodeKindV1::HostPrepare, WorkflowNodeKindV1::SourceAdmission);
    lemma_follows(
        nodes,
        WorkflowNodeKindV1::ResourceReservation,
        WorkflowNodeKindV1::DeterministicReduce,
    );
    lemma_follows(nodes, WorkflowNodeKindV1::Backup, WorkflowNodeKindV1::ResourceReservation);
    lemma_follows(nodes, WorkflowNodeKindV1::Migration, WorkflowNodeKindV1::Backup);
    lemma_follows(nodes, WorkflowNodeKindV1::CandidateHealth, WorkflowNodeKindV1::Migration);
    lemma_follows(nodes, WorkflowNodeKindV1::Cutover, WorkflowNodeKindV1::CandidateHealth);
    lemma_follows(nodes, WorkflowNodeKindV1::ReleasedObservation, WorkflowNodeKindV1::Cutover);
    lemma_follows(nodes, WorkflowNodeKindV1::Rollback, WorkflowNodeKindV1::Cutover);
    if !has_kind(nodes, WorkflowNodeKindV1::Backup) {
        lemma_follows(nodes, WorkflowNodeKindV1::Migration, WorkflowNodeKindV1::ResourceReservation);
    }
    if !has_kind(nodes, WorkflowNodeKindV1::Migration) {
        if has_kind(nodes, WorkflowNodeKindV1::Backup) {
            lemma_follows(nodes, WorkflowNodeKindV1::CandidateHealth, WorkflowNodeKindV1::Backup);
        } else {
            lemma_follows(
                nodes,
                WorkflowNodeKindV1::CandidateHealth,
                WorkflowNodeKindV1::ResourceReservation,
            );
        }
    }
}

proof fn lemma_all_need(
    nodes: Seq<WorkflowNodeV1>,
    places: Seq<int>,
    name: Seq<char>,
    k: int,
)
    requires
        all_need(nodes, places, name) is None,
        0 <= k < places.len(),
    ensures
        node_ids(nodes[places[k]].depends_on@) == seq![name],
    decreases places.len(),
{
    if k > 0 {
        lemma_all_need(nodes, places.drop_first(), name, k - 1);
        assert(places.drop_first()[k - 1] == places[k]);
    }
}

/// A workflow that hands an update over has five nodes: a source, its preparation, one verification,
/// one build with the tools of the host, and their reduction. Nothing in it changes production.
#[verifier::rlimit(40)]
pub proof fn law_handoffs_change_nothing(policy: WorkflowPolicyV1, i: int, changes: bool)
    requires
        call_ensures(
            WorkflowPolicyV1::validate,
            (&policy,),
            Ok::<(), WorkflowContractError>(()),
        ),
        policy.delivery_mode is SelfUpdateHandoff,
        0 <= i < policy.nodes@.len(),
        call_ensures(WorkflowNodeKindV1::is_mutation, (policy.nodes@[i].kind,), changes),
    ensures
        policy.nodes@.len() == 5,
        has_kind(policy.nodes@, WorkflowNodeKindV1::SourceAdmission),
        has_kind(policy.nodes@, WorkflowNodeKindV1::HostPrepare),
        has_kind(policy.nodes@, WorkflowNodeKindV1::Verification),
        has_kind(policy.nodes@, WorkflowNodeKindV1::ReleaseBuild),
        has_kind(policy.nodes@, WorkflowNodeKindV1::DeterministicReduce),
        one_follows(
            policy.nodes@,
            WorkflowNodeKindV1::HostPrepare,
            WorkflowNodeKindV1::SourceAdmission,
        ),
        one_follows(
            policy.nodes@,
            WorkflowNodeKindV1::Verification,
            WorkflowNodeKindV1::HostPrepare,
        ),
        !changes,
{
    let nodes = policy.nodes@;
    lemma_follows(nodes, WorkflowNodeKindV1::HostPrepare, WorkflowNodeKindV1::SourceAdmission);
    lemma_follows(nodes, WorkflowNodeKindV1::Verification, WorkflowNodeKindV1::HostPrepare);
    lemma_one(nodes, WorkflowNodeKindV1::SourceAdmission);
    lemma_one(nodes, WorkflowNodeKindV1::HostPrepare);
    lemma_one(nodes, WorkflowNodeKindV1::Verification);
    lemma_one(nodes, WorkflowNodeKindV1::ReleaseBuild);
    lemma_one(nodes, WorkflowNodeKindV1::DeterministicReduce);
    lemma_five_kinds(nodes, i);
}

proof fn lemma_five_kinds(nodes: Seq<WorkflowNodeV1>, i: int)
    requires
        nodes.len() == 5,
        0 <= i < nodes.len(),
        has_kind(nodes, WorkflowNodeKindV1::SourceAdmission),
        has_kind(nodes, WorkflowNodeKindV1::HostPrepare),
        has_kind(nodes, WorkflowNodeKindV1::Verification),
        has_kind(nodes, WorkflowNodeKindV1::ReleaseBuild),
        has_kind(nodes, WorkflowNodeKindV1::DeterministicReduce),
    ensures
        nodes[i].kind is SourceAdmission || nodes[i].kind is HostPrepare || nodes[i].kind
            is Verification || nodes[i].kind is ReleaseBuild || nodes[i].kind is DeterministicReduce,
{
    reveal(has_kind);
    let a = choose|a: int| 0 <= a < nodes.len() && (#[trigger] nodes[a]).kind is SourceAdmission;
    let b = choose|b: int| 0 <= b < nodes.len() && (#[trigger] nodes[b]).kind is HostPrepare;
    let c = choose|c: int| 0 <= c < nodes.len() && (#[trigger] nodes[c]).kind is Verification;
    let d = choose|d: int| 0 <= d < nodes.len() && (#[trigger] nodes[d]).kind is ReleaseBuild;
    let e = choose|e: int|
        0 <= e < nodes.len() && (#[trigger] nodes[e]).kind is DeterministicReduce;
    assert(i == a || i == b || i == c || i == d || i == e);
}

/// The nodes of a workflow are worked on in an order in which each comes behind all that it depends
/// on, and in which none is left out or comes twice.
pub proof fn law_nodes_come_behind_their_dependencies(
    policy: WorkflowPolicyV1,
    ordered: Vec<&WorkflowNodeV1>,
)
    requires
        call_ensures(
            WorkflowPolicyV1::ordered_nodes,
            (&policy,),
            Ok::<Vec<&WorkflowNodeV1>, WorkflowContractError>(ordered),
        ),
    ensures
        ordered@.len() == policy.nodes@.len(),
        behind_dependencies(ordered@),
        none_twice(ordered@),
        none_left_out(ordered@, policy.nodes@),
{
    super::workflow_graph::law_valid_nodes_are_distinct(policy);
    let nodes = policy.nodes@;
    let places = choose|places: Seq<int>| #[trigger]
        follows_dependencies(nodes, places) && places.len() == ordered@.len() && forall|k: int|
            0 <= k < ordered@.len() ==> *(#[trigger] ordered@[k]) == nodes[places[k]];
    lemma_ordered(nodes, places, ordered@);
}

/// Nodes in such an order that each comes behind all that it depends on.
#[verifier::opaque]
pub open spec fn behind_dependencies(ordered: Seq<&WorkflowNodeV1>) -> bool {
    forall|k: int, m: int|
        0 <= k < ordered.len() && 0 <= m < ordered.len() && node_ids(
            (#[trigger] ordered[k]).depends_on@,
        ).contains((#[trigger] ordered[m]).node_id@) ==> m < k
}

/// Nodes no two of which bear one name.
#[verifier::opaque]
pub open spec fn none_twice(ordered: Seq<&WorkflowNodeV1>) -> bool {
    forall|k: int, m: int|
        0 <= k < m < ordered.len() ==> (#[trigger] ordered[k]).node_id@ != (
        #[trigger] ordered[m]).node_id@
}

/// Nodes among which all the others are.
#[verifier::opaque]
pub open spec fn none_left_out(ordered: Seq<&WorkflowNodeV1>, nodes: Seq<WorkflowNodeV1>) -> bool {
    forall|i: int| 0 <= i < nodes.len() ==> ordered.contains(&#[trigger] nodes[i])
}

proof fn lemma_ordered(
    nodes: Seq<WorkflowNodeV1>,
    places: Seq<int>,
    ordered: Seq<&WorkflowNodeV1>,
)
    requires
        distinct(nodes),
        follows_dependencies(nodes, places),
        places.len() == ordered.len(),
        places.len() == nodes.len(),
        forall|k: int| 0 <= k < ordered.len() ==> *(#[trigger] ordered[k]) == nodes[places[k]],
    ensures
        behind_dependencies(ordered),
        none_twice(ordered),
        none_left_out(ordered, nodes),
{
    assert(behind_dependencies(ordered)) by {
        reveal(behind_dependencies);
        assert forall|k: int, m: int|
            0 <= k < ordered.len() && 0 <= m < ordered.len() && node_ids(
                (#[trigger] ordered[k]).depends_on@,
            ).contains((#[trigger] ordered[m]).node_id@) implies m < k by {
            lemma_dependency_comes_before(nodes, places, k, m);
        }
    }
    assert(none_left_out(ordered, nodes)) by {
        reveal(none_left_out);
        assert forall|i: int| 0 <= i < nodes.len() implies ordered.contains(
            &#[trigger] nodes[i],
        ) by {
            lemma_every_node_is_placed(nodes, places, i);
            let k = choose|k: int| 0 <= k < places.len() && places[k] == i;
            assert(*ordered[k] == nodes[i]);
        }
    }
    assert(none_twice(ordered)) by {
        reveal(none_twice);
        assert forall|k: int, m: int| 0 <= k < m < ordered.len() implies (
        #[trigger] ordered[k]).node_id@ != (#[trigger] ordered[m]).node_id@ by {
            assert(places[k] != places[m]);
            assert(0 <= places[k] < nodes.len() && 0 <= places[m] < nodes.len());
            if places[k] < places[m] {
                assert(nodes[places[k]].node_id@ != nodes[places[m]].node_id@);
            } else {
                assert(nodes[places[m]].node_id@ != nodes[places[k]].node_id@);
            }
        }
    }
}

/// A name finds the node or the profile that bears it, and nothing where none does.
pub proof fn law_names_find_what_bears_them(
    policy: WorkflowPolicyV1,
    node_id: WorkflowNodeId,
    node: Option<&WorkflowNodeV1>,
    profile_id: WorkflowProfileId,
    profile: Option<&WorkflowExecutionProfileV1>,
)
    requires
        call_ensures(WorkflowPolicyV1::node, (&policy, &node_id), node),
        call_ensures(WorkflowPolicyV1::profile, (&policy, &profile_id), profile),
    ensures
        node matches Some(found) ==> found.node_id@ == node_id@ && policy.nodes@.contains(*found),
        node is None ==> forall|i: int|
            0 <= i < policy.nodes@.len() ==> (#[trigger] policy.nodes@[i]).node_id@ != node_id@,
        profile matches Some(found) ==> found.profile_id@ == profile_id@
            && policy.execution_profiles@.contains(*found),
        profile is None ==> forall|i: int|
            0 <= i < policy.execution_profiles@.len() ==> (
            #[trigger] policy.execution_profiles@[i]).profile_id@ != profile_id@,
{
    lemma_node_place(policy.nodes@, node_id@);
    lemma_profile_place(policy.execution_profiles@, profile_id@);
}

/// A valid lease is for a time that has an end, of a node that the controller does not work on itself,
/// with the worker, the network and the caches of its kind, and with bounded resources.
pub proof fn law_valid_leases_are_of_their_kind(lease: WorkflowLeaseV1)
    requires
        call_ensures(WorkflowLeaseV1::validate, (&lease,), Ok::<(), WorkflowContractError>(())),
    ensures
        0 <= lease.leased_at_ms < lease.expires_at_ms,
        lease.lease_generation > 0,
        !lease.lease_id.nil() && !lease.request_id.nil() && !lease.attempt_id.nil(),
        !(lease.node_kind is SourceAdmission) && !(lease.node_kind is DeterministicReduce),
        !(lease.worker_pool is Controller),
        lease.worker_pool is BuildCompute <==> lease.node_kind is Verification,
        lease.worker_pool is VpsRequired <==> lease.node_kind is HostPrepare || lease.node_kind
            is ReleaseBuild,
        lease.network_class is DependencyEgress ==> lease.node_kind is HostPrepare,
        lease.network_class is LocalHealthOnly <==> lease.node_kind is CandidateHealth
            || lease.node_kind is ReleasedObservation,
        lease.cache_class is PreparedRun <==> lease.node_kind is Verification || lease.node_kind
            is ReleaseBuild,
        100 <= lease.timeout_ms <= 10_800_000,
        lease.resources matches Some(resources) && 100 <= resources.cpu_millicores <= 32_000 && 8
            <= resources.tasks_max <= 4_096,
        lease.source_identity matches Some(identity) ==> identity.sequence > 0,
        lease.host_preparation is Some ==> lease.node_kind is HostPrepare,
        lease.host_preparation matches Some(policy) ==> (lease.network_class is DependencyEgress
            <==> policy.adapter_id == WorkflowHostPreparationAdapterV1::CargoCratesIoV1),
        lease.operation_state is Some ==> lease.node_kind is Verification || lease.node_kind
            is ReleaseBuild,
        lease.operation_state matches Some(state) ==> node_ids(state.consumer_nodes@).contains(
            lease.node_id@,
        ) && 1_048_576 <= state.max_bytes <= 8_589_934_592 && 1_024 <= state.max_inodes
            <= 1_000_000,
        lease.output_contract is PreparedRun <==> lease.node_kind is HostPrepare,
        lease.output_contract is VerificationReceipt <==> lease.node_kind is Verification,
        lease.output_contract is ReleaseBuildResult <==> lease.node_kind is ReleaseBuild,
        lease.input_artifacts@.len() > 0 ==> lease.input_artifacts@.len()
            == lease.input_contracts@.len(),
{
}

/// A lease that is renewed is of the same execution and lasts longer; a lease is never shortened.
pub proof fn law_renewals_only_last_longer(
    lease: WorkflowLeaseV1,
    expires_at_ms: i64,
    renewed: Result<WorkflowLeaseV1, WorkflowContractError>,
    same: Result<bool, WorkflowContractError>,
)
    requires
        call_ensures(WorkflowLeaseV1::renewed, (&lease, expires_at_ms), renewed),
        renewed is Ok ==> call_ensures(
            WorkflowLeaseV1::same_execution_as,
            (&lease, &renewed->Ok_0),
            same,
        ),
    ensures
        renewed matches Ok(longer) ==> {
            &&& lease.expires_at_ms < longer.expires_at_ms
            &&& longer.expires_at_ms == expires_at_ms
            &&& longer.lease_id == lease.lease_id
            &&& longer.lease_generation == lease.lease_generation
            &&& longer.attempt_id == lease.attempt_id
            &&& longer.node_id@ == lease.node_id@
            &&& longer.worker_id@ == lease.worker_id@
            &&& longer.host_id@ == lease.host_id@
            &&& longer.leased_at_ms == lease.leased_at_ms
            &&& same == Ok::<bool, WorkflowContractError>(true)
        },
        expires_at_ms <= lease.expires_at_ms ==> renewed is Err,
{
    if renewed is Ok {
        super::workflow_lease::law_same_execution_is_an_equivalence(renewed->Ok_0, lease, lease);
    }
}

/// Two leases are of one execution only if they agree in everything but when they end and how they
/// are sealed.
pub proof fn law_executions_agree_in_all_they_do(a: WorkflowLeaseV1, b: WorkflowLeaseV1)
    requires
        call_ensures(
            WorkflowLeaseV1::same_execution_as,
            (&a, &b),
            Ok::<bool, WorkflowContractError>(true),
        ),
    ensures
        a.lease_id == b.lease_id,
        a.lease_generation == b.lease_generation,
        a.request_id == b.request_id,
        a.attempt_id == b.attempt_id,
        a.project_id@ == b.project_id@,
        a.source_sha@ == b.source_sha@,
        a.source_identity is Some <==> b.source_identity is Some,
        a.source_identity is Some ==> a.source_identity->0.sequence == b.source_identity->0.sequence
            && a.source_identity->0.attestation_digest@
            == b.source_identity->0.attestation_digest@,
        a.workflow_policy_digest@ == b.workflow_policy_digest@,
        a.preparation_key@ == b.preparation_key@,
        a.node_id@ == b.node_id@,
        a.node_kind == b.node_kind,
        a.profile_id@ == b.profile_id@,
        a.adapter_id == b.adapter_id,
        a.worker_pool == b.worker_pool,
        a.network_class == b.network_class,
        a.cache_class == b.cache_class,
        a.timeout_ms == b.timeout_ms,
        a.resources == b.resources,
        a.host_preparation is Some <==> b.host_preparation is Some,
        a.host_preparation is Some ==> a.host_preparation->0.adapter_id
            == b.host_preparation->0.adapter_id && a.host_preparation->0.platform@
            == b.host_preparation->0.platform@,
        a.operation_state is Some <==> b.operation_state is Some,
        a.operation_state is Some ==> a.operation_state->0.state_key@
            == b.operation_state->0.state_key@ && a.operation_state->0.max_bytes
            == b.operation_state->0.max_bytes && a.operation_state->0.max_inodes
            == b.operation_state->0.max_inodes && node_ids(a.operation_state->0.consumer_nodes@)
            == node_ids(b.operation_state->0.consumer_nodes@),
        a.input_contracts@ == b.input_contracts@,
        a.input_artifacts@.len() == b.input_artifacts@.len(),
        forall|i: int|
            0 <= i < a.input_artifacts@.len() ==> (#[trigger] a.input_artifacts@[i]).node_id@
                == b.input_artifacts@[i].node_id@ && a.input_artifacts@[i].artifact_kind
                == b.input_artifacts@[i].artifact_kind && a.input_artifacts@[i].output_digest@
                == b.input_artifacts@[i].output_digest@,
        a.output_contract == b.output_contract,
        a.expected_input_digest@ == b.expected_input_digest@,
        a.worker_id@ == b.worker_id@,
        a.host_id@ == b.host_id@,
        a.leased_at_ms == b.leased_at_ms,
{
}

/// What a lease must have is handed out only where the lease has it: its source, and an artifact for
/// each of its inputs.
pub proof fn law_required_parts_are_there(
    lease: &WorkflowLeaseV1,
    source: Result<&WorkflowSourceIdentityV1, WorkflowContractError>,
    inputs: Result<&Vec<WorkflowLeaseInputV1>, WorkflowContractError>,
    valid: Result<(), WorkflowContractError>,
)
    requires
        call_ensures(WorkflowLeaseV1::required_source_identity, (lease,), source),
        call_ensures(WorkflowLeaseV1::required_input_artifacts, (lease,), inputs),
        call_ensures(WorkflowLeaseV1::validate, (lease,), valid),
    ensures
        source is Ok <==> valid is Ok && lease.source_identity is Some,
        source matches Ok(identity) ==> lease.source_identity == Some(*identity),
        source == Err::<&WorkflowSourceIdentityV1, _>(
            WorkflowContractError::MissingLeaseSourceIdentity,
        ) && valid is Ok ==> lease.source_identity is None,
        inputs is Ok <==> valid is Ok && (lease.input_contracts@.len() == 0
            || lease.input_artifacts@.len() == lease.input_contracts@.len()),
        inputs matches Ok(found) ==> *found == lease.input_artifacts,
{
}

/// A lease takes on the state of its operation without any other change, and only if it is of a node
/// that uses it.
pub proof fn law_states_are_carried_by_their_consumers(
    lease: WorkflowLeaseV1,
    state: WorkflowOperationStateV1,
    carrying: WorkflowLeaseV1,
)
    requires
        call_ensures(
            WorkflowLeaseV1::with_operation_state,
            (lease, state),
            Ok::<WorkflowLeaseV1, WorkflowContractError>(carrying),
        ),
    ensures
        carrying.operation_state == Some(state),
        node_ids(state.consumer_nodes@).contains(lease.node_id@),
        lease.node_kind is Verification || lease.node_kind is ReleaseBuild,
        carrying == (WorkflowLeaseV1 {
            operation_state: Some(state),
            lease_digest: carrying.lease_digest,
            ..lease
        }),
{
}

/// A receipt of a node has an output just if the node succeeded, and a node that succeeded was cleaned
/// up.
pub proof fn law_successes_have_outputs(receipt: WorkflowNodeReceiptV1)
    requires
        call_ensures(
            WorkflowNodeReceiptV1::validate,
            (&receipt,),
            Ok::<(), WorkflowContractError>(()),
        ),
    ensures
        receipt.outcome is Succeeded <==> receipt.output_digest is Some,
        receipt.outcome is Succeeded ==> receipt.cleanup_result is Complete,
        receipt.cleanup_result is Pending ==> receipt.outcome is Failed,
        receipt.completed_at_ms >= 0,
        receipt.lease_generation > 0,
        !receipt.lease_id.nil() && !receipt.request_id.nil() && !receipt.attempt_id.nil(),
{
}

/// A receipt is of a lease just if it agrees with it in all that both of them tell.
pub proof fn law_receipts_are_of_their_lease(
    receipt: WorkflowNodeReceiptV1,
    lease: WorkflowLeaseV1,
    matched: bool,
)
    requires
        call_ensures(WorkflowNodeReceiptV1::matches_lease, (&receipt, &lease), matched),
    ensures
        matched <==> {
            &&& receipt.lease_digest@ == lease.lease_digest@
            &&& receipt.lease_id == lease.lease_id
            &&& receipt.lease_generation == lease.lease_generation
            &&& receipt.request_id == lease.request_id
            &&& receipt.attempt_id == lease.attempt_id
            &&& receipt.project_id@ == lease.project_id@
            &&& receipt.source_sha@ == lease.source_sha@
            &&& receipt.workflow_policy_digest@ == lease.workflow_policy_digest@
            &&& receipt.preparation_key@ == lease.preparation_key@
            &&& receipt.node_id@ == lease.node_id@
            &&& receipt.node_kind == lease.node_kind
            &&& receipt.worker_id@ == lease.worker_id@
            &&& receipt.host_id@ == lease.host_id@
            &&& receipt.expected_input_digest@ == lease.expected_input_digest@
        },
{
}

/// A receipt that is made of a lease is of that lease and tells what it was made to tell.
pub proof fn law_made_receipts_tell_their_lease(
    lease: WorkflowLeaseV1,
    outcome: WorkflowNodeOutcomeV1,
    output: Option<EvidenceDigest>,
    execution: EvidenceDigest,
    cleanup: EvidenceDigest,
    cleaned: WorkflowCleanupResultV1,
    at_ms: i64,
    receipt: WorkflowNodeReceiptV1,
)
    requires
        receipt.describes(lease, outcome, output, execution, cleanup, cleaned, at_ms),
        receipt.fault() is None,
    ensures
        receipt.schema_version == 1,
        receipt.lease_digest@ == lease.lease_digest@,
        receipt.lease_id == lease.lease_id,
        receipt.lease_generation == lease.lease_generation,
        receipt.attempt_id == lease.attempt_id,
        receipt.node_id@ == lease.node_id@,
        receipt.worker_id@ == lease.worker_id@ && receipt.host_id@ == lease.host_id@,
        receipt.outcome == outcome && receipt.output_digest == output,
        receipt.execution_receipt_digest == execution,
        receipt.cleanup_receipt_digest == cleanup,
        receipt.cleanup_result == cleaned,
        receipt.completed_at_ms == at_ms,
        outcome is Succeeded <==> output is Some,
{
}

/// A cleanup that is made up later is that of a valid lease, ended no earlier than the lease began and
/// than what it cleans up after; and it cleans up only after a receipt of that lease that left its
/// cleanup open.
pub proof fn law_cleanups_come_after_what_they_clean(
    lease: WorkflowLeaseV1,
    terminal: Option<&WorkflowNodeReceiptV1>,
    at_ms: i64,
)
    requires
        WorkflowCleanupReceiptV1::inputs_fault(lease, terminal) is None,
        WorkflowCleanupReceiptV1::in_time(lease, terminal, at_ms),
    ensures
        lease.fault() is None,
        at_ms >= lease.leased_at_ms,
        terminal matches Some(receipt) ==> {
            &&& receipt.cleanup_result is Pending
            &&& receipt.outcome is Failed
            &&& receipt.lease_digest@ == lease.lease_digest@
            &&& receipt.attempt_id == lease.attempt_id
            &&& receipt.node_id@ == lease.node_id@
            &&& at_ms >= receipt.completed_at_ms
        },
{
}

/// A reduction has inputs, in the order of their nodes and none of them twice.
pub proof fn law_reductions_have_ordered_inputs(receipt: WorkflowReductionReceiptV1, i: int, j: int)
    requires
        call_ensures(
            WorkflowReductionReceiptV1::validate,
            (&receipt,),
            Ok::<(), WorkflowContractError>(()),
        ),
        0 <= i < j < receipt.inputs@.len(),
    ensures
        text_before(receipt.inputs@[i].node_id@, receipt.inputs@[j].node_id@),
        receipt.inputs@[i].node_id@ != receipt.inputs@[j].node_id@,
        receipt.reduced_at_ms >= 0,
        !receipt.request_id.nil() && !receipt.attempt_id.nil(),
{
    lemma_reduced_before(receipt.inputs@, i, j);
    crate::text::lemma_bytes_before_irreflexive(crate::text::utf8(receipt.inputs@[i].node_id@));
}

proof fn lemma_reduced_before(inputs: Seq<WorkflowReductionInputV1>, i: int, j: int)
    requires
        super::workflow::strictly_ordered(super::workflow_receipts::reduced_nodes(inputs)),
        0 <= i < j < inputs.len(),
    ensures
        text_before(inputs[i].node_id@, inputs[j].node_id@),
    decreases j - i,
{
    let names = super::workflow_receipts::reduced_nodes(inputs);
    assert(names[j - 1] == inputs[j - 1].node_id@ && names[j] == inputs[j].node_id@);
    assert(text_before(names[j - 1], names[j]));
    if i < j - 1 {
        lemma_reduced_before(inputs, i, j - 1);
        crate::text::lemma_bytes_before_transitive(
            crate::text::utf8(inputs[i].node_id@),
            crate::text::utf8(inputs[j - 1].node_id@),
            crate::text::utf8(inputs[j].node_id@),
        );
    }
}

/// A lease that is made is of the node, the profile and the worker that it was made of, for the source
/// and the time that it was made for, and carries no state yet.
pub proof fn law_made_leases_are_what_they_were_made_of(
    lease_id: Uuid,
    generation: u32,
    request_id: Uuid,
    attempt_id: Uuid,
    project_id: ProjectId,
    source_sha: GitCommitId,
    sequence: u64,
    attestation: EvidenceDigest,
    policy: EvidenceDigest,
    key: EvidenceDigest,
    node: WorkflowNodeV1,
    profile: WorkflowExecutionProfileV1,
    preparation: Option<WorkflowHostPreparationPolicyV1>,
    inputs: Vec<WorkflowLeaseInputV1>,
    expected: EvidenceDigest,
    worker_id: String,
    host_id: String,
    from_ms: i64,
    to_ms: i64,
    lease: WorkflowLeaseV1,
)
    requires
        call_ensures(
            WorkflowLeaseV1::new,
            (
                lease_id,
                generation,
                request_id,
                attempt_id,
                project_id,
                source_sha,
                sequence,
                attestation,
                policy,
                key,
                &node,
                &profile,
                preparation,
                inputs,
                expected,
                worker_id,
                host_id,
                from_ms,
                to_ms,
            ),
            Ok::<WorkflowLeaseV1, WorkflowContractError>(lease),
        ),
    ensures
        lease.schema_version == 1,
        lease.lease_id == lease_id && lease.lease_generation == generation,
        lease.request_id == request_id && lease.attempt_id == attempt_id,
        lease.project_id == project_id && lease.source_sha == source_sha,
        lease.source_identity == Some(
            WorkflowSourceIdentityV1 { sequence, attestation_digest: attestation },
        ),
        lease.workflow_policy_digest == policy && lease.preparation_key == key,
        lease.node_id == node.node_id && lease.node_kind == node.kind,
        lease.input_contracts@ == node.input_contracts@ && lease.output_contract
            == node.output_contract,
        lease.profile_id == profile.profile_id && lease.adapter_id == profile.adapter_id
            && lease.worker_pool == profile.worker_pool && lease.network_class
            == profile.network_class && lease.cache_class == profile.cache_class
            && lease.timeout_ms == profile.timeout_ms && lease.resources == profile.resources,
        lease.host_preparation == preparation && lease.operation_state is None,
        lease.input_artifacts == inputs && lease.expected_input_digest == expected,
        lease.worker_id == worker_id && lease.host_id == host_id,
        lease.leased_at_ms == from_ms && lease.expires_at_ms == to_ms,
        0 <= from_ms < to_ms,
{
}

} // verus!
