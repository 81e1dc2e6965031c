//! The graph of a workflow: its profiles and nodes fit together, it has no cycle, and it is one of
//! the shapes that a delivery mode allows.

use vstd::prelude::*;
use super::workflow::{
    contains_node_id, either, node_ids, profile_matches_kind, classes_match, MAX_WORKFLOW_NODES,
    WorkflowAdapterIdV1, WorkflowArtifactKindV1, WorkflowContractError, WorkflowDeliveryModeV1,
    WorkflowExecutionProfileV1, WorkflowNodeId, WorkflowNodeKindV1, WorkflowNodeV1,
    WorkflowPolicyV1, WorkflowProfileId, WORKFLOW_POLICY_SCHEMA_VERSION,
};
use crate::text::{is_text_before, text_before};

verus! {

const MAX_WORKFLOW_PROFILES: usize = 32;

/// The place of the first profile of a name, or the number of profiles where there is none.
pub open spec fn profile_place(profiles: Seq<WorkflowExecutionProfileV1>, id: Seq<char>) -> int
    decreases profiles.len(),
{
    if profiles.len() == 0 || profiles[0].profile_id@ == id {
        0
    } else {
        1 + profile_place(profiles.drop_first(), id)
    }
}

/// The place of the first node of a name, or the number of nodes where there is none.
pub open spec fn node_place(nodes: Seq<WorkflowNodeV1>, id: Seq<char>) -> int
    decreases nodes.len(),
{
    if nodes.len() == 0 || nodes[0].node_id@ == id {
        0
    } else {
        1 + node_place(nodes.drop_first(), id)
    }
}

pub proof fn lemma_node_place(nodes: Seq<WorkflowNodeV1>, id: Seq<char>)
    ensures
        0 <= node_place(nodes, id) <= nodes.len(),
        node_place(nodes, id) < nodes.len() ==> nodes[node_place(nodes, id)].node_id@ == id,
        forall|i: int| 0 <= i < node_place(nodes, id) ==> (#[trigger] nodes[i]).node_id@ != id,
    decreases nodes.len(),
{
    if nodes.len() > 0 && nodes[0].node_id@ != id {
        let rest = nodes.drop_first();
        lemma_node_place(rest, id);
        assert forall|i: int| 0 <= i < node_place(nodes, id) implies (#[trigger] nodes[i]).node_id@
            != id by {
            if i > 0 {
                assert(nodes[i] == rest[i - 1]);
            }
        }
    }
}

fn find_profile(
    profiles: &Vec<WorkflowExecutionProfileV1>,
    id: &WorkflowProfileId,
    to: usize,
) -> (r: usize)
    requires
        to <= profiles@.len(),
    ensures
        r == profile_place(profiles@.take(to as int), id@),
        r <= to,
{
    let ghost seen = profiles@.take(to as int);
    let mut i: usize = 0;
    assert(seen.skip(0) =~= seen);
    while i < to
        invariant
            i <= to <= profiles@.len(),
            seen == profiles@.take(to as int),
            profile_place(seen, id@) == i + profile_place(seen.skip(i as int), id@),
        decreases to - i,
    {
        if profiles[i].profile_id == *id {
            return i;
        }
        proof {
            assert(seen.skip(i as int).drop_first() =~= seen.skip(i + 1));
        }
        i += 1;
    }
    i
}

/// The place of the first profile of a name, or the number of profiles where there is none.
pub fn profile_index(
    profiles: &Vec<WorkflowExecutionProfileV1>,
    id: &WorkflowProfileId,
) -> (r: usize)
    ensures
        r == profile_place(profiles@, id@),
        r <= profiles@.len(),
{
    assert(profiles@.take(profiles@.len() as int) =~= profiles@);
    find_profile(profiles, id, profiles.len())
}

fn find_node(nodes: &Vec<WorkflowNodeV1>, id: &WorkflowNodeId, to: usize) -> (r: usize)
    requires
        to <= nodes@.len(),
    ensures
        r == node_place(nodes@.take(to as int), id@),
        r <= to,
{
    let ghost seen = nodes@.take(to as int);
    let mut i: usize = 0;
    assert(seen.skip(0) =~= seen);
    while i < to
        invariant
            i <= to <= nodes@.len(),
            seen == nodes@.take(to as int),
            node_place(seen, id@) == i + node_place(seen.skip(i as int), id@),
        decreases to - i,
    {
        if nodes[i].node_id == *id {
            return i;
        }
        proof {
            assert(seen.skip(i as int).drop_first() =~= seen.skip(i + 1));
        }
        i += 1;
    }
    i
}

/// What is wrong with a list of profiles: the first that is out of order or has the name of one
/// before it.
pub open spec fn profiles_fault(profiles: Seq<WorkflowExecutionProfileV1>) -> Option<
    WorkflowContractError,
>
    decreases profiles.len(),
{
    if profiles.len() == 0 {
        None
    } else {
        let before = profiles.drop_last();
        let profile = profiles.last();
        either(
            profiles_fault(before),
            either(
                profile.fault(),
                if profile_place(before, profile.profile_id@) < before.len() {
                    Some(WorkflowContractError::DuplicateProfile(profile.profile_id))
                } else {
                    None
                },
            ),
        )
    }
}

proof fn lemma_profiles_fault(profiles: Seq<WorkflowExecutionProfileV1>, count: int)
    requires
        0 <= count <= profiles.len(),
        profiles_fault(profiles.take(count)) is Some,
    ensures
        profiles_fault(profiles) == profiles_fault(profiles.take(count)),
    decreases profiles.len() - count,
{
    if count == profiles.len() {
        assert(profiles.take(count) =~= profiles);
    } else {
        assert(profiles.take(count + 1).drop_last() =~= profiles.take(count));
        lemma_profiles_fault(profiles, count + 1);
    }
}

fn check_profiles(
    profiles: &Vec<WorkflowExecutionProfileV1>,
) -> (r: Result<(), WorkflowContractError>)
    ensures
        match r {
            Ok(()) => profiles_fault(profiles@) is None,
            Err(error) => profiles_fault(profiles@) == Some(error),
        },
{
    let mut i: usize = 0;
    assert(profiles@.take(0) =~= seq![]);
    while i < profiles.len()
        invariant
            i <= profiles.len(),
            profiles_fault(profiles@.take(i as int)) is None,
        decreases profiles.len() - i,
    {
        proof {
            assert(profiles@.take(i + 1).drop_last() =~= profiles@.take(i as int));
        }
        let ghost grown = profiles@.take(i + 1);
        match profiles[i].validate() {
            Err(error) => {
                proof {
                    assert(profiles_fault(grown) == Some(error));
                    lemma_profiles_fault(profiles@, i + 1);
                }
                return Err(error);
            },
            Ok(()) => {},
        }
        if find_profile(profiles, &profiles[i].profile_id, i) < i {
            let error = WorkflowContractError::DuplicateProfile(profiles[i].profile_id.clone());
            proof {
                assert(profiles_fault(grown) == Some(error));
                lemma_profiles_fault(profiles@, i + 1);
            }
            return Err(error);
        }
        i += 1;
    }
    assert(profiles@.take(i as int) =~= profiles@);
    Ok(())
}

/// The profile and the node go together.
pub open spec fn suits(profile: WorkflowExecutionProfileV1, kind: WorkflowNodeKindV1) -> bool {
    &&& kind.admits(profile.adapter_id)
    &&& kind.pool() == profile.worker_pool
    &&& classes_match(kind, profile.network_class, profile.cache_class)
}

/// What is wrong with a list of nodes: the first that is out of order, has no profile or the wrong
/// one, or has the name of one before it.
pub open spec fn nodes_fault(
    nodes: Seq<WorkflowNodeV1>,
    profiles: Seq<WorkflowExecutionProfileV1>,
) -> Option<WorkflowContractError>
    decreases nodes.len(),
{
    if nodes.len() == 0 {
        None
    } else {
        let before = nodes.drop_last();
        let node = nodes.last();
        let place = profile_place(profiles, node.profile_id@);
        either(
            nodes_fault(before, profiles),
            either(
                node.local_fault(),
                if place >= profiles.len() {
                    Some(WorkflowContractError::MissingProfile(node.profile_id))
                } else if !suits(profiles[place], node.kind) {
                    Some(WorkflowContractError::ProfileKindMismatch(node.node_id))
                } else if node_place(before, node.node_id@) < before.len() {
                    Some(WorkflowContractError::DuplicateNode(node.node_id))
                } else {
                    None
                },
            ),
        )
    }
}

proof fn lemma_nodes_fault(
    nodes: Seq<WorkflowNodeV1>,
    profiles: Seq<WorkflowExecutionProfileV1>,
    count: int,
)
    requires
        0 <= count <= nodes.len(),
        nodes_fault(nodes.take(count), profiles) is Some,
    ensures
        nodes_fault(nodes, profiles) == nodes_fault(nodes.take(count), profiles),
    decreases nodes.len() - count,
{
    if count == nodes.len() {
        assert(nodes.take(count) =~= nodes);
    } else {
        assert(nodes.take(count + 1).drop_last() =~= nodes.take(count));
        lemma_nodes_fault(nodes, profiles, count + 1);
    }
}

/// No two nodes have one name.
pub open spec fn distinct(nodes: Seq<WorkflowNodeV1>) -> bool {
    forall|i: int, j: int|
        0 <= i < j < nodes.len() ==> (#[trigger] nodes[i]).node_id@ != (#[trigger] nodes[j]).node_id@
}

proof fn lemma_distinct(nodes: Seq<WorkflowNodeV1>, profiles: Seq<WorkflowExecutionProfileV1>)
    requires
        nodes_fault(nodes, profiles) is None,
    ensures
        distinct(nodes),
    decreases nodes.len(),
{
    if nodes.len() > 0 {
        let before = nodes.drop_last();
        lemma_distinct(before, profiles);
        lemma_node_place(before, nodes.last().node_id@);
        assert forall|i: int, j: int| 0 <= i < j < nodes.len() implies (
        #[trigger] nodes[i]).node_id@ != (#[trigger] nodes[j]).node_id@ by {
            assert(before[i] == nodes[i]);
            if j < before.len() {
                assert(before[j] == nodes[j]);
            }
        }
    }
}

fn check_nodes(
    nodes: &Vec<WorkflowNodeV1>,
    profiles: &Vec<WorkflowExecutionProfileV1>,
) -> (r: Result<(), WorkflowContractError>)
    ensures
        match r {
            Ok(()) => nodes_fault(nodes@, profiles@) is None,
            Err(error) => nodes_fault(nodes@, profiles@) == Some(error),
        },
{
    let mut i: usize = 0;
    assert(nodes@.take(0) =~= seq![]);
    assert(profiles@.take(profiles@.len() as int) =~= profiles@);
    while i < nodes.len()
        invariant
            i <= nodes.len(),
            profiles@.take(profiles@.len() as int) == profiles@,
            nodes_fault(nodes@.take(i as int), profiles@) is None,
        decreases nodes.len() - i,
    {
        proof {
            assert(nodes@.take(i + 1).drop_last() =~= nodes@.take(i as int));
        }
        let ghost grown = nodes@.take(i + 1);
        let node = &nodes[i];
        let place = find_profile(profiles, &node.profile_id, profiles.len());
        let fault = match node.validate_local() {
            Err(error) => Some(error),
            Ok(()) => if place >= profiles.len() {
                Some(WorkflowContractError::MissingProfile(node.profile_id.clone()))
            } else if !(node.kind.expects_adapter(profiles[place].adapter_id)
                && node.kind.expected_pool() == profiles[place].worker_pool && profile_matches_kind(
                node.kind,
                profiles[place].network_class,
                profiles[place].cache_class,
            )) {
                Some(WorkflowContractError::ProfileKindMismatch(node.node_id.clone()))
            } else if find_node(nodes, &node.node_id, i) < i {
                Some(WorkflowContractError::DuplicateNode(node.node_id.clone()))
            } else {
                None
            },
        };
        assert(nodes_fault(grown, profiles@) == fault);
        match fault {
            Some(error) => {
                proof {
                    lemma_nodes_fault(nodes@, profiles@, i + 1);
                }
                return Err(error);
            },
            None => {},
        }
        i += 1;
    }
    assert(nodes@.take(i as int) =~= nodes@);
    Ok(())
}

/// What the nodes of some names put out.
pub open spec fn outputs(nodes: Seq<WorkflowNodeV1>, ids: Seq<Seq<char>>) -> Set<
    WorkflowArtifactKindV1,
> {
    Set::new(
        |kind: WorkflowArtifactKindV1|
            exists|i: int|
                0 <= i < nodes.len() && #[trigger] nodes[i].output_contract == kind && ids.contains(
                    nodes[i].node_id@,
                ),
    )
}

/// The first dependency of a node, from some place on, that is no node.
pub open spec fn missing_dependency(
    node: WorkflowNodeV1,
    nodes: Seq<WorkflowNodeV1>,
    from: int,
) -> Option<WorkflowContractError>
    decreases node.depends_on@.len() - from,
{
    if from < 0 || from >= node.depends_on@.len() {
        None
    } else if node_place(nodes, node.depends_on@[from]@) >= nodes.len() {
        Some(
            WorkflowContractError::MissingDependency {
                node: node.node_id,
                dependency: node.depends_on@[from],
            },
        )
    } else {
        missing_dependency(node, nodes, from + 1)
    }
}

/// What is wrong with the inputs of a node: it depends on no node, or it does not take in exactly
/// what the nodes before it put out.
pub open spec fn inputs_fault(node: WorkflowNodeV1, nodes: Seq<WorkflowNodeV1>) -> Option<
    WorkflowContractError,
> {
    either(
        missing_dependency(node, nodes, 0),
        if node.input_contracts@.to_set() != outputs(nodes, node_ids(node.depends_on@)) {
            Some(WorkflowContractError::ArtifactContractMismatch(node.node_id))
        } else {
            None
        },
    )
}

pub(crate) fn contains_kind(
    kinds: &Vec<WorkflowArtifactKindV1>,
    kind: WorkflowArtifactKindV1,
) -> (r: bool)
    ensures
        r == kinds@.contains(kind),
{
    let mut i: usize = 0;
    while i < kinds.len()
        invariant
            i <= kinds.len(),
            forall|k: int| 0 <= k < i ==> kinds@[k] != kind,
        decreases kinds.len() - i,
    {
        if kinds[i] == kind {
            assert(kinds@[i as int] == kind);
            return true;
        }
        i += 1;
    }
    false
}

fn puts_out(
    nodes: &Vec<WorkflowNodeV1>,
    ids: &Vec<WorkflowNodeId>,
    kind: WorkflowArtifactKindV1,
) -> (r: bool)
    ensures
        r == outputs(nodes@, node_ids(ids@)).contains(kind),
{
    let mut i: usize = 0;
    while i < nodes.len()
        invariant
            i <= nodes.len(),
            forall|k: int|
                0 <= k < i ==> !(#[trigger] nodes@[k].output_contract == kind && node_ids(
                    ids@,
                ).contains(nodes@[k].node_id@)),
        decreases nodes.len() - i,
    {
        if nodes[i].output_contract == kind && contains_node_id(ids, &nodes[i].node_id) {
            assert(nodes@[i as int].output_contract == kind);
            return true;
        }
        i += 1;
    }
    false
}

fn inputs_match(node: &WorkflowNodeV1, nodes: &Vec<WorkflowNodeV1>) -> (r: bool)
    ensures
        r == (node.input_contracts@.to_set() == outputs(nodes@, node_ids(node.depends_on@))),
{
    let ghost inputs = node.input_contracts@.to_set();
    let ghost expected = outputs(nodes@, node_ids(node.depends_on@));
    let mut i: usize = 0;
    while i < node.input_contracts.len()
        invariant
            i <= node.input_contracts.len(),
            inputs == node.input_contracts@.to_set(),
            expected == outputs(nodes@, node_ids(node.depends_on@)),
            forall|k: int| 0 <= k < i ==> expected.contains(#[trigger] node.input_contracts@[k]),
        decreases node.input_contracts.len() - i,
    {
        if !puts_out(nodes, &node.depends_on, node.input_contracts[i]) {
            proof {
                assert(inputs.contains(node.input_contracts@[i as int]));
            }
            return false;
        }
        i += 1;
    }
    let mut k: usize = 0;
    while k < nodes.len()
        invariant
            k <= nodes.len(),
            inputs == node.input_contracts@.to_set(),
            expected == outputs(nodes@, node_ids(node.depends_on@)),
            forall|j: int|
                0 <= j < k && node_ids(node.depends_on@).contains(nodes@[j].node_id@)
                    ==> inputs.contains(#[trigger] nodes@[j].output_contract),
        decreases nodes.len() - k,
    {
        if contains_node_id(&node.depends_on, &nodes[k].node_id) && !contains_kind(
            &node.input_contracts,
            nodes[k].output_contract,
        ) {
            proof {
                assert(expected.contains(nodes@[k as int].output_contract));
            }
            return false;
        }
        k += 1;
    }
    proof {
        assert forall|kind: WorkflowArtifactKindV1| inputs.contains(kind) == expected.contains(kind) by {
            if inputs.contains(kind) {
                let j = choose|j: int|
                    0 <= j < node.input_contracts@.len() && node.input_contracts@[j] == kind;
                assert(expected.contains(node.input_contracts@[j]));
            }
            if expected.contains(kind) {
                let j = choose|j: int|
                    0 <= j < nodes@.len() && #[trigger] nodes@[j].output_contract == kind && node_ids(
                        node.depends_on@,
                    ).contains(nodes@[j].node_id@);
                assert(inputs.contains(nodes@[j].output_contract));
            }
        }
        assert(inputs =~= expected);
    }
    true
}

fn check_inputs(node: &WorkflowNodeV1, nodes: &Vec<WorkflowNodeV1>) -> (r: Result<
    (),
    WorkflowContractError,
>)
    ensures
        match r {
            Ok(()) => inputs_fault(*node, nodes@) is None,
            Err(error) => inputs_fault(*node, nodes@) == Some(error),
        },
{
    assert(nodes@.take(nodes@.len() as int) =~= nodes@);
    let mut i: usize = 0;
    while i < node.depends_on.len()
        invariant
            i <= node.depends_on.len(),
            nodes@.take(nodes@.len() as int) == nodes@,
            missing_dependency(*node, nodes@, 0) == missing_dependency(*node, nodes@, i as int),
        decreases node.depends_on.len() - i,
    {
        if find_node(nodes, &node.depends_on[i], nodes.len()) >= nodes.len() {
            return Err(
                WorkflowContractError::MissingDependency {
                    node: node.node_id.clone(),
                    dependency: node.depends_on[i].clone(),
                },
            );
        }
        i += 1;
    }
    if !inputs_match(node, nodes) {
        return Err(WorkflowContractError::ArtifactContractMismatch(node.node_id.clone()));
    }
    Ok(())
}

/// What is wrong with the inputs of the first nodes.
pub open spec fn all_inputs_fault(nodes: Seq<WorkflowNodeV1>, count: int) -> Option<
    WorkflowContractError,
>
    decreases count,
{
    if count <= 0 {
        None
    } else {
        either(all_inputs_fault(nodes, count - 1), inputs_fault(nodes[count - 1], nodes))
    }
}

proof fn lemma_inputs_fault(nodes: Seq<WorkflowNodeV1>, low: int, high: int)
    requires
        0 <= low <= high,
        all_inputs_fault(nodes, low) is Some,
    ensures
        all_inputs_fault(nodes, high) == all_inputs_fault(nodes, low),
    decreases high - low,
{
    if low < high {
        lemma_inputs_fault(nodes, low + 1, high);
    }
}

fn check_all_inputs(nodes: &Vec<WorkflowNodeV1>) -> (r: Result<(), WorkflowContractError>)
    ensures
        match r {
            Ok(()) => all_inputs_fault(nodes@, nodes@.len() as int) is None,
            Err(error) => all_inputs_fault(nodes@, nodes@.len() as int) == Some(error),
        },
{
    let mut i: usize = 0;
    while i < nodes.len()
        invariant
            i <= nodes.len(),
            all_inputs_fault(nodes@, i as int) is None,
        decreases nodes.len() - i,
    {
        match check_inputs(&nodes[i], nodes) {
            Err(error) => {
                proof {
                    assert(all_inputs_fault(nodes@, i + 1) == Some(error));
                    lemma_inputs_fault(nodes@, i + 1, nodes@.len() as int);
                }
                return Err(error);
            },
            Ok(()) => {},
        }
        i += 1;
    }
    Ok(())
}

/// The names of the nodes at some places.
pub open spec fn names_at(nodes: Seq<WorkflowNodeV1>, places: Seq<int>) -> Seq<Seq<char>> {
    places.map_values(|place: int| nodes[place].node_id@)
}

/// Everything that a node depends on is among some names.
pub open spec fn ready(node: WorkflowNodeV1, names: Seq<Seq<char>>) -> bool {
    forall|i: int|
        0 <= i < node.depends_on@.len() ==> names.contains((#[trigger] node.depends_on@[i])@)
}

/// Places of different nodes.
pub open spec fn different_places(places: Seq<int>, count: int) -> bool {
    &&& forall|k: int| 0 <= k < places.len() ==> 0 <= #[trigger] places[k] < count
    &&& forall|k: int, m: int| 0 <= k < m < places.len() ==> #[trigger] places[k] != #[trigger] places[m]
}

/// An order of nodes, by their places: every node comes after those that it depends on.
pub open spec fn follows_dependencies(nodes: Seq<WorkflowNodeV1>, places: Seq<int>) -> bool {
    &&& different_places(places, nodes.len() as int)
    &&& forall|k: int|
        0 <= k < places.len() ==> ready(
            nodes[#[trigger] places[k]],
            names_at(nodes, places.take(k)),
        )
}

/// The nodes can be put in an order in which every node comes after those that it depends on.
pub open spec fn acyclic(nodes: Seq<WorkflowNodeV1>) -> bool {
    exists|places: Seq<int>|
        places.len() == nodes.len() && #[trigger] follows_dependencies(nodes, places)
}

/// A node can come next: it is not there yet, and all that it depends on is.
pub open spec fn can_follow(nodes: Seq<WorkflowNodeV1>, places: Seq<int>, place: int) -> bool {
    &&& 0 <= place < nodes.len()
    &&& !places.contains(place)
    &&& ready(nodes[place], names_at(nodes, places))
}

/// Of the nodes that can come next, the one whose name comes first does.
pub open spec fn first_names_first(nodes: Seq<WorkflowNodeV1>, places: Seq<int>) -> bool {
    forall|k: int, other: int|
        0 <= k < places.len() && #[trigger] can_follow(nodes, places.take(k), other)
            ==> !text_before(nodes[other].node_id@, nodes[#[trigger] places[k]].node_id@)
}

/// The places of an order as numbers.
pub open spec fn as_places(order: Seq<usize>) -> Seq<int> {
    order.map_values(|place: usize| place as int)
}

fn is_placed(order: &Vec<usize>, place: usize) -> (r: bool)
    ensures
        r == as_places(order@).contains(place as int),
{
    let ghost places = as_places(order@);
    let mut i: usize = 0;
    while i < order.len()
        invariant
            i <= order.len(),
            places == as_places(order@),
            forall|k: int| 0 <= k < i ==> places[k] != place,
        decreases order.len() - i,
    {
        if order[i] == place {
            assert(places[i as int] == place);
            return true;
        }
        i += 1;
    }
    false
}

fn is_ready(nodes: &Vec<WorkflowNodeV1>, order: &Vec<usize>, place: usize) -> (r: bool)
    requires
        place < nodes@.len(),
        forall|k: int| 0 <= k < order@.len() ==> #[trigger] order@[k] < nodes@.len(),
    ensures
        r == ready(nodes@[place as int], names_at(nodes@, as_places(order@))),
{
    let ghost names = names_at(nodes@, as_places(order@));
    let node = &nodes[place];
    let mut i: usize = 0;
    while i < node.depends_on.len()
        invariant
            i <= node.depends_on.len(),
            place < nodes@.len(),
            *node == nodes@[place as int],
            forall|k: int| 0 <= k < order@.len() ==> #[trigger] order@[k] < nodes@.len(),
            names == names_at(nodes@, as_places(order@)),
            forall|k: int| 0 <= k < i ==> names.contains((#[trigger] node.depends_on@[k])@),
        decreases node.depends_on.len() - i,
    {
        let mut found = false;
        let mut k: usize = 0;
        while k < order.len() && !found
            invariant
                k <= order.len(),
                i < node.depends_on.len(),
                forall|m: int| 0 <= m < order@.len() ==> #[trigger] order@[m] < nodes@.len(),
                names == names_at(nodes@, as_places(order@)),
                found ==> names.contains(node.depends_on@[i as int]@),
                !found ==> forall|m: int| 0 <= m < k ==> names[m] != node.depends_on@[i as int]@,
            decreases order.len() - k,
        {
            if nodes[order[k]].node_id == node.depends_on[i] {
                assert(names[k as int] == node.depends_on@[i as int]@);
                found = true;
            }
            k += 1;
        }
        if !found {
            assert(!names.contains(node.depends_on@[i as int]@));
            return false;
        }
        i += 1;
    }
    true
}

/// The node that comes next, where there is one: of those that can, the one whose name comes first.
fn next_node(nodes: &Vec<WorkflowNodeV1>, order: &Vec<usize>) -> (r: Option<usize>)
    requires
        forall|k: int| 0 <= k < order@.len() ==> #[trigger] order@[k] < nodes@.len(),
    ensures
        match r {
            Some(place) => {
                &&& can_follow(nodes@, as_places(order@), place as int)
                &&& forall|other: int| #[trigger]
                    can_follow(nodes@, as_places(order@), other) ==> !text_before(
                        nodes@[other].node_id@,
                        nodes@[place as int].node_id@,
                    )
            },
            None => forall|other: int| !#[trigger] can_follow(nodes@, as_places(order@), other),
        },
{
    let ghost places = as_places(order@);
    let mut best: Option<usize> = None;
    let mut i: usize = 0;
    while i < nodes.len()
        invariant
            i <= nodes.len(),
            places == as_places(order@),
            forall|k: int| 0 <= k < order@.len() ==> #[trigger] order@[k] < nodes@.len(),
            match best {
                Some(place) => {
                    &&& can_follow(nodes@, places, place as int)
                    &&& forall|other: int|
                        other < i && #[trigger] can_follow(nodes@, places, other) ==> !text_before(
                            nodes@[other].node_id@,
                            nodes@[place as int].node_id@,
                        )
                },
                None => forall|other: int| other < i ==> !#[trigger] can_follow(nodes@, places, other),
            },
        decreases nodes.len() - i,
    {
        if !is_placed(order, i) && is_ready(nodes, order, i) {
            assert(can_follow(nodes@, places, i as int));
            let better = match best {
                Some(place) => is_text_before(nodes[i].node_id.as_str(), nodes[place].node_id.as_str()),
                None => true,
            };
            proof {
                crate::text::lemma_bytes_before_irreflexive(
                    crate::text::utf8(nodes@[i as int].node_id@),
                );
                if better {
                    match best {
                        Some(place) => {
                            assert forall|other: int|
                                other < i && #[trigger] can_follow(
                                    nodes@,
                                    places,
                                    other,
                                ) implies !text_before(
                                nodes@[other].node_id@,
                                nodes@[i as int].node_id@,
                            ) by {
                                if text_before(nodes@[other].node_id@, nodes@[i as int].node_id@) {
                                    crate::text::lemma_bytes_before_transitive(
                                        crate::text::utf8(nodes@[other].node_id@),
                                        crate::text::utf8(nodes@[i as int].node_id@),
                                        crate::text::utf8(nodes@[place as int].node_id@),
                                    );
                                }
                            }
                        },
                        None => {},
                    }
                }
            }
            if better {
                best = Some(i);
            }
        }
        assert((!places.contains(i as int) && ready(nodes@[i as int], names_at(nodes@, places)))
            == can_follow(nodes@, places, i as int));
        i += 1;
    }
    best
}

/// Where there is an order at all and not every node is there, some node can come next.
proof fn lemma_not_stuck(nodes: Seq<WorkflowNodeV1>, places: Seq<int>, order: Seq<int>)
    requires
        different_places(places, nodes.len() as int),
        places.len() < nodes.len(),
        order.len() == nodes.len(),
        follows_dependencies(nodes, order),
    ensures
        exists|other: int| #[trigger] can_follow(nodes, places, other),
{
    lemma_some_place_is_missing(places, order, nodes.len() as int);
    let k = first_missing(places, order, 0);
    lemma_first_missing(places, order, 0);
    assert(!places.contains(order[k]));
    let names = names_at(nodes, places);
    let before = names_at(nodes, order.take(k));
    assert(ready(nodes[order[k]], before));
    assert(ready(nodes[order[k]], names)) by {
        let node = nodes[order[k]];
        assert forall|i: int| 0 <= i < node.depends_on@.len() implies names.contains(
            (#[trigger] node.depends_on@[i])@,
        ) by {
            assert(before.contains(node.depends_on@[i]@));
            let m = choose|m: int| 0 <= m < before.len() && before[m] == node.depends_on@[i]@;
            assert(order.take(k)[m] == order[m]);
            assert(places.contains(order[m]));
            let p = choose|p: int| 0 <= p < places.len() && places[p] == order[m];
            assert(names[p] == node.depends_on@[i]@);
        }
    }
    assert(can_follow(nodes, places, order[k]));
}

/// The first place of an order, from some point on, that is not among some places.
spec fn first_missing(places: Seq<int>, order: Seq<int>, from: int) -> int
    decreases order.len() - from,
{
    if from < 0 || from >= order.len() || !places.contains(order[from]) {
        from
    } else {
        first_missing(places, order, from + 1)
    }
}

proof fn lemma_first_missing(places: Seq<int>, order: Seq<int>, from: int)
    requires
        0 <= from <= order.len(),
        exists|k: int| from <= k < order.len() && !places.contains(#[trigger] order[k]),
        forall|m: int| 0 <= m < from ==> places.contains(#[trigger] order[m]),
    ensures
        from <= first_missing(places, order, from) < order.len(),
        !places.contains(order[first_missing(places, order, from)]),
        forall|m: int|
            0 <= m < first_missing(places, order, from) ==> places.contains(#[trigger] order[m]),
    decreases order.len() - from,
{
    if from < order.len() && places.contains(order[from]) {
        lemma_first_missing(places, order, from + 1);
    }
}

/// A longer list of different places holds one that a shorter list lacks.
proof fn lemma_some_place_is_missing(places: Seq<int>, order: Seq<int>, count: int)
    requires
        different_places(places, count),
        different_places(order, count),
        places.len() < order.len(),
    ensures
        exists|k: int| 0 <= k < order.len() && !places.contains(#[trigger] order[k]),
{
    if forall|k: int| 0 <= k < order.len() ==> places.contains(#[trigger] order[k]) {
        assert(order.no_duplicates());
        assert(places.no_duplicates());
        order.unique_seq_to_set();
        places.unique_seq_to_set();
        assert(order.to_set().subset_of(places.to_set())) by {
            assert forall|x: int| order.to_set().contains(x) implies places.to_set().contains(x) by {
                let k = choose|k: int| 0 <= k < order.len() && order[k] == x;
                assert(places.contains(order[k]));
            }
        }
        vstd::set_lib::lemma_len_subset(order.to_set(), places.to_set());
        assert(false);
    }
}

proof fn lemma_longest(places: Seq<int>, count: int)
    requires
        different_places(places, count),
        count >= 0,
    ensures
        places.len() <= count,
{
    if places.len() > count {
        let all = Seq::new(count as nat, |i: int| i);
        assert(different_places(all, count));
        lemma_some_place_is_missing(all, places, count);
        let k = choose|k: int| 0 <= k < places.len() && !all.contains(#[trigger] places[k]);
        assert(all[places[k]] == places[k]);
    }
}

/// The nodes in the order in which each comes after those that it depends on and names come as
/// early as they can, or `None` where there is no order.
fn topological_order(nodes: &Vec<WorkflowNodeV1>) -> (r: Option<Vec<usize>>)
    ensures
        match r {
            Some(order) => {
                &&& acyclic(nodes@)
                &&& order@.len() == nodes@.len()
                &&& follows_dependencies(nodes@, as_places(order@))
                &&& first_names_first(nodes@, as_places(order@))
            },
            None => !acyclic(nodes@),
        },
{
    let mut order: Vec<usize> = Vec::new();
    while order.len() < nodes.len()
        invariant
            order@.len() <= nodes@.len(),
            follows_dependencies(nodes@, as_places(order@)),
            first_names_first(nodes@, as_places(order@)),
        decreases nodes.len() - order.len(),
    {
        let ghost places = as_places(order@);
        assert forall|k: int| 0 <= k < order@.len() implies #[trigger] order@[k] < nodes@.len() by {
            assert(0 <= places[k] < nodes@.len());
        }
        match next_node(nodes, &order) {
            None => {
                proof {
                    if acyclic(nodes@) {
                        let other = choose|other: Seq<int>|
                            other.len() == nodes@.len() && #[trigger] follows_dependencies(
                                nodes@,
                                other,
                            );
                        lemma_not_stuck(nodes@, places, other);
                    }
                }
                return None;
            },
            Some(place) => {
                order.push(place);
                proof {
                    let grown = as_places(order@);
                    assert(grown =~= places.push(place as int));
                    assert forall|k: int| 0 <= k < grown.len() implies ready(
                        nodes@[#[trigger] grown[k]],
                        names_at(nodes@, grown.take(k)),
                    ) by {
                        assert(grown.take(k) =~= places.take(k));
                        if k < places.len() {
                            assert(ready(nodes@[places[k]], names_at(nodes@, places.take(k))));
                        } else {
                            assert(places.take(k) =~= places);
                        }
                    }
                    assert(different_places(grown, nodes@.len() as int)) by {
                        assert forall|k: int, m: int| 0 <= k < m < grown.len() implies #[trigger] grown[k]
                            != #[trigger] grown[m] by {
                            if m == places.len() {
                                assert(places.contains(places[k]));
                            }
                        }
                    }
                    assert forall|k: int, other: int|
                        0 <= k < grown.len() && #[trigger] can_follow(
                            nodes@,
                            grown.take(k),
                            other,
                        ) implies !text_before(
                        nodes@[other].node_id@,
                        nodes@[#[trigger] grown[k]].node_id@,
                    ) by {
                        assert(grown.take(k) =~= places.take(k));
                        if k < places.len() {
                            assert(can_follow(nodes@, places.take(k), other));
                            assert(places[k] == grown[k]);
                        } else {
                            assert(places.take(k) =~= places);
                        }
                    }
                }
            },
        }
    }
    Some(order)
}

/// The names that a node must depend on, no more and no less.
pub open spec fn needs(
    node: WorkflowNodeV1,
    names: Seq<Seq<char>>,
) -> Option<WorkflowContractError> {
    if node_ids(node.depends_on@) == names {
        None
    } else {
        Some(WorkflowContractError::InvalidDependencies(node.node_id))
    }
}

fn require_dependencies(node: &WorkflowNodeV1, ids: &Vec<WorkflowNodeId>) -> (r: Result<
    (),
    WorkflowContractError,
>)
    ensures
        match r {
            Ok(()) => needs(*node, node_ids(ids@)) is None,
            Err(error) => needs(*node, node_ids(ids@)) == Some(error),
        },
{
    if same_node_ids(&node.depends_on, ids) {
        Ok(())
    } else {
        Err(WorkflowContractError::InvalidDependencies(node.node_id.clone()))
    }
}

pub(crate) fn same_node_ids(a: &Vec<WorkflowNodeId>, b: &Vec<WorkflowNodeId>) -> (r: bool)
    ensures
        r == (node_ids(a@) == node_ids(b@)),
{
    if a.len() != b.len() {
        assert(node_ids(a@).len() != node_ids(b@).len());
        return false;
    }
    let mut i: usize = 0;
    while i < a.len()
        invariant
            i <= a.len(),
            a.len() == b.len(),
            forall|k: int| 0 <= k < i ==> a@[k]@ == b@[k]@,
        decreases a.len() - i,
    {
        if a[i] != b[i] {
            assert(node_ids(a@)[i as int] != node_ids(b@)[i as int]);
            return false;
        }
        i += 1;
    }
    assert(node_ids(a@) =~= node_ids(b@));
    true
}

/// Names with a name put where it belongs in their order.
pub open spec fn name_placed(names: Seq<Seq<char>>, name: Seq<char>) -> Seq<Seq<char>>
    decreases names.len(),
{
    if names.len() == 0 || !text_before(name, names.last()) {
        names.push(name)
    } else {
        name_placed(names.drop_last(), name).push(names.last())
    }
}

pub(crate) fn place_name(ids: &mut Vec<WorkflowNodeId>, id: WorkflowNodeId)
    ensures
        node_ids(final(ids)@) == name_placed(node_ids(old(ids)@), id@),
{
    let ghost before = ids@;
    let ghost name = id@;
    let mut at: usize = ids.len();
    assert(before.take(at as int) =~= before);
    while at > 0 && is_text_before(id.as_str(), ids[at - 1].as_str())
        invariant
            at <= ids.len(),
            ids@ == before,
            name == id@,
            name_placed(node_ids(before), name) == name_placed(
                node_ids(before.take(at as int)),
                name,
            ) + node_ids(before.skip(at as int)),
        decreases at,
    {
        proof {
            let head = node_ids(before.take(at as int));
            assert(head.drop_last() =~= node_ids(before.take(at - 1)));
            assert(head.last() == before[at - 1]@);
            assert(node_ids(before.skip(at - 1)) =~= seq![head.last()] + node_ids(
                before.skip(at as int),
            ));
            assert(name_placed(node_ids(before), name) =~= name_placed(
                node_ids(before.take(at - 1)),
                name,
            ) + node_ids(before.skip(at - 1)));
        }
        at -= 1;
    }
    ids.insert(at, id);
    proof {
        let head = node_ids(before.take(at as int));
        if at > 0 {
            assert(head.last() == before[at - 1]@);
        }
        assert(name_placed(head, name) == head.push(name));
        assert(node_ids(ids@) =~= head.push(name) + node_ids(before.skip(at as int)));
    }
}

/// Two names in their order.
pub open spec fn pair(a: Seq<char>, b: Seq<char>) -> Seq<Seq<char>> {
    name_placed(seq![a], b)
}

fn ordered_pair(a: &WorkflowNodeId, b: &WorkflowNodeId) -> (r: Vec<WorkflowNodeId>)
    ensures
        node_ids(r@) == pair(a@, b@),
{
    let mut ids: Vec<WorkflowNodeId> = Vec::new();
    ids.push(a.clone());
    assert(node_ids(ids@) =~= seq![a@]);
    place_name(&mut ids, b.clone());
    ids
}

fn one_id(a: &WorkflowNodeId) -> (r: Vec<WorkflowNodeId>)
    ensures
        node_ids(r@) == seq![a@],
{
    let mut ids: Vec<WorkflowNodeId> = Vec::new();
    ids.push(a.clone());
    assert(node_ids(ids@) =~= seq![a@]);
    ids
}

/// The places of the nodes of a kind with a place put where its name belongs.
pub open spec fn place_placed(nodes: Seq<WorkflowNodeV1>, places: Seq<int>, place: int) -> Seq<int>
    decreases places.len(),
{
    if places.len() == 0 || !text_before(nodes[place].node_id@, nodes[places.last()].node_id@) {
        places.push(place)
    } else {
        place_placed(nodes, places.drop_last(), place).push(places.last())
    }
}

/// The places of the first nodes of a kind, in the order of their names.
pub open spec fn of_kind(
    nodes: Seq<WorkflowNodeV1>,
    kind: WorkflowNodeKindV1,
    count: int,
) -> Seq<int>
    decreases count,
{
    if count <= 0 {
        seq![]
    } else if nodes[count - 1].kind == kind {
        place_placed(nodes, of_kind(nodes, kind, count - 1), count - 1)
    } else {
        of_kind(nodes, kind, count - 1)
    }
}

fn put_place(nodes: &Vec<WorkflowNodeV1>, places: &mut Vec<usize>, place: usize)
    requires
        place < nodes@.len(),
        forall|k: int| 0 <= k < old(places)@.len() ==> #[trigger] old(places)@[k] < nodes@.len(),
    ensures
        as_places(final(places)@) == place_placed(nodes@, as_places(old(places)@), place as int),
        forall|k: int| 0 <= k < final(places)@.len() ==> #[trigger] final(places)@[k] < nodes@.len(),
{
    let ghost before = places@;
    let mut at: usize = places.len();
    assert(before.take(at as int) =~= before);
    while at > 0 && is_text_before(
        nodes[place].node_id.as_str(),
        nodes[places[at - 1]].node_id.as_str(),
    )
        invariant
            at <= places.len(),
            place < nodes@.len(),
            places@ == before,
            forall|k: int| 0 <= k < before.len() ==> #[trigger] before[k] < nodes@.len(),
            place_placed(nodes@, as_places(before), place as int) == place_placed(
                nodes@,
                as_places(before.take(at as int)),
                place as int,
            ) + as_places(before.skip(at as int)),
        decreases at,
    {
        proof {
            let head = as_places(before.take(at as int));
            assert(head.drop_last() =~= as_places(before.take(at - 1)));
            assert(head.last() == before[at - 1]);
            assert(as_places(before.skip(at - 1)) =~= seq![head.last()] + as_places(
                before.skip(at as int),
            ));
            assert(place_placed(nodes@, as_places(before), place as int) =~= place_placed(
                nodes@,
                as_places(before.take(at - 1)),
                place as int,
            ) + as_places(before.skip(at - 1)));
        }
        at -= 1;
    }
    places.insert(at, place);
    proof {
        let head = as_places(before.take(at as int));
        if at > 0 {
            assert(head.last() == before[at - 1]);
        }
        assert(place_placed(nodes@, head, place as int) == head.push(place as int));
        assert(as_places(places@) =~= head.push(place as int) + as_places(before.skip(at as int)));
        assert forall|k: int| 0 <= k < places@.len() implies #[trigger] places@[k] < nodes@.len() by {
            if k > at {
                assert(places@[k] == before[k - 1]);
            } else if k < at {
                assert(places@[k] == before[k]);
            }
        }
    }
}

fn by_kind(nodes: &Vec<WorkflowNodeV1>, kind: WorkflowNodeKindV1) -> (r: Vec<usize>)
    ensures
        as_places(r@) == of_kind(nodes@, kind, nodes@.len() as int),
        forall|k: int| 0 <= k < r@.len() ==> #[trigger] r@[k] < nodes@.len(),
{
    let mut places: Vec<usize> = Vec::new();
    let mut i: usize = 0;
    assert(as_places(places@) =~= seq![]);
    while i < nodes.len()
        invariant
            i <= nodes.len(),
            as_places(places@) == of_kind(nodes@, kind, i as int),
            forall|k: int| 0 <= k < places@.len() ==> #[trigger] places@[k] < nodes@.len(),
        decreases nodes.len() - i,
    {
        if nodes[i].kind == kind {
            put_place(nodes, &mut places, i);
        }
        i += 1;
    }
    places
}

/// The nodes of a kind, by their places in the order of their names.
pub open spec fn kind_places(nodes: Seq<WorkflowNodeV1>, kind: WorkflowNodeKindV1) -> Seq<int> {
    of_kind(nodes, kind, nodes.len() as int)
}

/// The only node of a kind.
pub open spec fn only(nodes: Seq<WorkflowNodeV1>, kind: WorkflowNodeKindV1) -> WorkflowNodeV1 {
    nodes[kind_places(nodes, kind)[0]]
}

/// There must be one node of a kind.
pub open spec fn one_of(nodes: Seq<WorkflowNodeV1>, kind: WorkflowNodeKindV1) -> Option<
    WorkflowContractError,
> {
    if kind_places(nodes, kind).len() == 1 {
        None
    } else {
        Some(WorkflowContractError::InvalidNodeCardinality(kind))
    }
}

fn exactly_one(nodes: &Vec<WorkflowNodeV1>, kind: WorkflowNodeKindV1) -> (r: Result<
    usize,
    WorkflowContractError,
>)
    ensures
        match r {
            Ok(place) => {
                &&& one_of(nodes@, kind) is None
                &&& place < nodes@.len()
                &&& nodes@[place as int] == only(nodes@, kind)
            },
            Err(error) => one_of(nodes@, kind) == Some(error),
        },
{
    let places = by_kind(nodes, kind);
    if places.len() == 1 {
        assert(as_places(places@)[0] == places@[0]);
        Ok(places[0])
    } else {
        Err(WorkflowContractError::InvalidNodeCardinality(kind))
    }
}

/// The first of some nodes that does not depend on exactly one other node.
pub open spec fn all_need(nodes: Seq<WorkflowNodeV1>, places: Seq<int>, name: Seq<char>) -> Option<
    WorkflowContractError,
>
    decreases places.len(),
{
    if places.len() == 0 {
        None
    } else {
        either(
            needs(nodes[places[0]], seq![name]),
            all_need(nodes, places.drop_first(), name),
        )
    }
}

fn require_all(nodes: &Vec<WorkflowNodeV1>, places: &Vec<usize>, id: &WorkflowNodeId) -> (r: Result<
    (),
    WorkflowContractError,
>)
    requires
        forall|k: int| 0 <= k < places@.len() ==> #[trigger] places@[k] < nodes@.len(),
    ensures
        match r {
            Ok(()) => all_need(nodes@, as_places(places@), id@) is None,
            Err(error) => all_need(nodes@, as_places(places@), id@) == Some(error),
        },
{
    let ghost all = as_places(places@);
    let ids = one_id(id);
    let mut i: usize = 0;
    assert(all.skip(0) =~= all);
    while i < places.len()
        invariant
            i <= places.len(),
            all == as_places(places@),
            node_ids(ids@) == seq![id@],
            forall|k: int| 0 <= k < places@.len() ==> #[trigger] places@[k] < nodes@.len(),
            all_need(nodes@, all, id@) == all_need(nodes@, all.skip(i as int), id@),
        decreases places.len() - i,
    {
        proof {
            assert(all.skip(i as int)[0] == places@[i as int]);
            assert(all.skip(i as int).drop_first() =~= all.skip(i + 1));
        }
        match require_dependencies(&nodes[places[i]], &ids) {
            Err(error) => return Err(error),
            Ok(()) => {},
        }
        i += 1;
    }
    Ok(())
}

/// Names with the names of some nodes put where they belong.
pub open spec fn names_placed(
    nodes: Seq<WorkflowNodeV1>,
    places: Seq<int>,
    names: Seq<Seq<char>>,
) -> Seq<Seq<char>>
    decreases places.len(),
{
    if places.len() == 0 {
        names
    } else {
        name_placed(names_placed(nodes, places.drop_last(), names), nodes[places.last()].node_id@)
    }
}

fn place_names(nodes: &Vec<WorkflowNodeV1>, places: &Vec<usize>, first: &WorkflowNodeId) -> (r: Vec<
    WorkflowNodeId,
>)
    requires
        forall|k: int| 0 <= k < places@.len() ==> #[trigger] places@[k] < nodes@.len(),
    ensures
        node_ids(r@) == names_placed(nodes@, as_places(places@), seq![first@]),
{
    let ghost all = as_places(places@);
    let mut ids = one_id(first);
    let mut i: usize = 0;
    assert(all.take(0) =~= seq![]);
    while i < places.len()
        invariant
            i <= places.len(),
            all == as_places(places@),
            forall|k: int| 0 <= k < places@.len() ==> #[trigger] places@[k] < nodes@.len(),
            node_ids(ids@) == names_placed(nodes@, all.take(i as int), seq![first@]),
        decreases places.len() - i,
    {
        proof {
            assert(all.take(i + 1).drop_last() =~= all.take(i as int));
            assert(all.take(i + 1).last() == places@[i as int]);
        }
        place_name(&mut ids, nodes[places[i]].node_id.clone());
        i += 1;
    }
    assert(all.take(i as int) =~= all);
    ids
}

/// What the build of a release may depend on. A native build comes after the one verification; an
/// image may be built beside the verifications, or after the only one.
pub open spec fn release_fault(
    build: WorkflowNodeV1,
    adapter: WorkflowAdapterIdV1,
    prepare: WorkflowNodeV1,
    nodes: Seq<WorkflowNodeV1>,
    verification: Seq<int>,
) -> Option<WorkflowContractError> {
    let serial = pair(prepare.node_id@, nodes[verification[0]].node_id@);
    match adapter {
        WorkflowAdapterIdV1::WorkerOciReleaseBuildV1 => if node_ids(build.depends_on@)
            == seq![prepare.node_id@] || (verification.len() == 1 && node_ids(build.depends_on@)
            == serial) {
            None
        } else {
            Some(WorkflowContractError::InvalidDependencies(build.node_id))
        },
        WorkflowAdapterIdV1::WorkerNativeReleaseBuildV1 => if verification.len() != 1 {
            Some(WorkflowContractError::InvalidNodeCardinality(WorkflowNodeKindV1::Verification))
        } else {
            needs(build, serial)
        },
        _ => Some(WorkflowContractError::ProfileKindMismatch(build.node_id)),
    }
}

fn validate_release_dependencies(
    build: &WorkflowNodeV1,
    adapter: WorkflowAdapterIdV1,
    prepare: &WorkflowNodeV1,
    nodes: &Vec<WorkflowNodeV1>,
    verification: &Vec<usize>,
) -> (r: Result<(), WorkflowContractError>)
    requires
        forall|k: int| 0 <= k < verification@.len() ==> #[trigger] verification@[k] < nodes@.len(),
    ensures
        match r {
            Ok(()) => release_fault(*build, adapter, *prepare, nodes@, as_places(verification@))
                is None,
            Err(error) => release_fault(
                *build,
                adapter,
                *prepare,
                nodes@,
                as_places(verification@),
            ) == Some(error),
        },
{
    match adapter {
        WorkflowAdapterIdV1::WorkerOciReleaseBuildV1 => {
            if same_node_ids(&build.depends_on, &one_id(&prepare.node_id)) {
                return Ok(());
            }
            if verification.len() == 1 {
                assert(as_places(verification@)[0] == verification@[0]);
                let serial = ordered_pair(&prepare.node_id, &nodes[verification[0]].node_id);
                if same_node_ids(&build.depends_on, &serial) {
                    return Ok(());
                }
            }
            Err(WorkflowContractError::InvalidDependencies(build.node_id.clone()))
        },
        WorkflowAdapterIdV1::WorkerNativeReleaseBuildV1 => {
            if verification.len() != 1 {
                return Err(
                    WorkflowContractError::InvalidNodeCardinality(
                        WorkflowNodeKindV1::Verification,
                    ),
                );
            }
            assert(as_places(verification@)[0] == verification@[0]);
            let serial = ordered_pair(&prepare.node_id, &nodes[verification[0]].node_id);
            require_dependencies(build, &serial)
        },
        _ => Err(WorkflowContractError::ProfileKindMismatch(build.node_id.clone())),
    }
}

/// At most one node of a kind.
pub open spec fn at_most_one_of(nodes: Seq<WorkflowNodeV1>, kind: WorkflowNodeKindV1) -> Option<
    WorkflowContractError,
> {
    if kind_places(nodes, kind).len() > 1 {
        Some(WorkflowContractError::InvalidNodeCardinality(kind))
    } else {
        None
    }
}

/// The profile that a node runs under.
pub open spec fn profile_of(
    profiles: Seq<WorkflowExecutionProfileV1>,
    node: WorkflowNodeV1,
) -> WorkflowExecutionProfileV1 {
    profiles[profile_place(profiles, node.profile_id@)]
}

/// Every kind that must occur once does.
pub open spec fn mutation_kinds_fault(nodes: Seq<WorkflowNodeV1>) -> Option<WorkflowContractError> {
    either(
        one_of(nodes, WorkflowNodeKindV1::SourceAdmission),
        either(
            one_of(nodes, WorkflowNodeKindV1::HostPrepare),
            either(
                one_of(nodes, WorkflowNodeKindV1::ReleaseBuild),
                either(
                    one_of(nodes, WorkflowNodeKindV1::DeterministicReduce),
                    either(
                        one_of(nodes, WorkflowNodeKindV1::ResourceReservation),
                        either(
                            one_of(nodes, WorkflowNodeKindV1::CandidateHealth),
                            either(
                                one_of(nodes, WorkflowNodeKindV1::Cutover),
                                either(
                                    one_of(nodes, WorkflowNodeKindV1::ReleasedObservation),
                                    either(
                                        one_of(nodes, WorkflowNodeKindV1::Rollback),
                                        if kind_places(
                                            nodes,
                                            WorkflowNodeKindV1::Verification,
                                        ).len() == 0 {
                                            Some(
                                                WorkflowContractError::InvalidNodeCardinality(
                                                    WorkflowNodeKindV1::Verification,
                                                ),
                                            )
                                        } else {
                                            None
                                        },
                                    ),
                                ),
                            ),
                        ),
                    ),
                ),
            ),
        ),
    )
}

/// The source comes first, then the preparation, the verifications beside each other, the build,
/// the reduction of all of them, and the reservation.
pub open spec fn mutation_build_fault(
    nodes: Seq<WorkflowNodeV1>,
    profiles: Seq<WorkflowExecutionProfileV1>,
) -> Option<WorkflowContractError> {
    let source = only(nodes, WorkflowNodeKindV1::SourceAdmission);
    let prepare = only(nodes, WorkflowNodeKindV1::HostPrepare);
    let build = only(nodes, WorkflowNodeKindV1::ReleaseBuild);
    let reduce = only(nodes, WorkflowNodeKindV1::DeterministicReduce);
    let reserve = only(nodes, WorkflowNodeKindV1::ResourceReservation);
    let verification = kind_places(nodes, WorkflowNodeKindV1::Verification);
    either(
        needs(source, seq![]),
        either(
            needs(prepare, seq![source.node_id@]),
            either(
                all_need(nodes, verification, prepare.node_id@),
                either(
                    release_fault(
                        build,
                        profile_of(profiles, build).adapter_id,
                        prepare,
                        nodes,
                        verification,
                    ),
                    either(
                        needs(reduce, names_placed(nodes, verification, seq![build.node_id@])),
                        needs(reserve, seq![reduce.node_id@]),
                    ),
                ),
            ),
        ),
    )
}

/// What the check of the candidate comes after: the migration, else the backup, else the
/// reservation.
pub open spec fn before_candidate(nodes: Seq<WorkflowNodeV1>) -> WorkflowNodeV1 {
    if kind_places(nodes, WorkflowNodeKindV1::Migration).len() > 0 {
        only(nodes, WorkflowNodeKindV1::Migration)
    } else {
        before_migration(nodes)
    }
}

/// What the migration comes after: the backup, else the reservation.
pub open spec fn before_migration(nodes: Seq<WorkflowNodeV1>) -> WorkflowNodeV1 {
    if kind_places(nodes, WorkflowNodeKindV1::Backup).len() > 0 {
        only(nodes, WorkflowNodeKindV1::Backup)
    } else {
        only(nodes, WorkflowNodeKindV1::ResourceReservation)
    }
}

/// A node that may be there depends on exactly one other.
pub open spec fn needs_if_there(
    nodes: Seq<WorkflowNodeV1>,
    kind: WorkflowNodeKindV1,
    name: Seq<char>,
) -> Option<WorkflowContractError> {
    if kind_places(nodes, kind).len() > 0 {
        needs(only(nodes, kind), seq![name])
    } else {
        None
    }
}

/// After the reservation come a backup and a migration where there are any, the check of the
/// candidate, the cutover, and after that the observation and the rollback beside each other.
pub open spec fn mutation_delivery_fault(
    nodes: Seq<WorkflowNodeV1>,
) -> Option<WorkflowContractError> {
    let reserve = only(nodes, WorkflowNodeKindV1::ResourceReservation);
    let candidate = only(nodes, WorkflowNodeKindV1::CandidateHealth);
    let cutover = only(nodes, WorkflowNodeKindV1::Cutover);
    let observe = only(nodes, WorkflowNodeKindV1::ReleasedObservation);
    let rollback = only(nodes, WorkflowNodeKindV1::Rollback);
    either(
        at_most_one_of(nodes, WorkflowNodeKindV1::Backup),
        either(
            at_most_one_of(nodes, WorkflowNodeKindV1::Migration),
            either(
                needs_if_there(nodes, WorkflowNodeKindV1::Backup, reserve.node_id@),
                either(
                    needs_if_there(
                        nodes,
                        WorkflowNodeKindV1::Migration,
                        before_migration(nodes).node_id@,
                    ),
                    either(
                        needs(candidate, seq![before_candidate(nodes).node_id@]),
                        either(
                            needs(cutover, seq![candidate.node_id@]),
                            either(
                                needs(observe, seq![cutover.node_id@]),
                                needs(rollback, seq![cutover.node_id@]),
                            ),
                        ),
                    ),
                ),
            ),
        ),
    )
}

/// What is wrong with the graph of a workflow that the executor carries to production.
pub open spec fn mutation_graph_fault(
    nodes: Seq<WorkflowNodeV1>,
    profiles: Seq<WorkflowExecutionProfileV1>,
) -> Option<WorkflowContractError> {
    either(
        mutation_kinds_fault(nodes),
        either(mutation_build_fault(nodes, profiles), mutation_delivery_fault(nodes)),
    )
}

fn check_mutation_kinds(nodes: &Vec<WorkflowNodeV1>) -> (r: Result<(), WorkflowContractError>)
    ensures
        match r {
            Ok(()) => mutation_kinds_fault(nodes@) is None,
            Err(error) => mutation_kinds_fault(nodes@) == Some(error),
        },
{
    match exactly_one(nodes, WorkflowNodeKindV1::SourceAdmission) {
        Err(error) => return Err(error),
        Ok(_) => {},
    }
    match exactly_one(nodes, WorkflowNodeKindV1::HostPrepare) {
        Err(error) => return Err(error),
        Ok(_) => {},
    }
    match exactly_one(nodes, WorkflowNodeKindV1::ReleaseBuild) {
        Err(error) => return Err(error),
        Ok(_) => {},
    }
    match exactly_one(nodes, WorkflowNodeKindV1::DeterministicReduce) {
        Err(error) => return Err(error),
        Ok(_) => {},
    }
    match exactly_one(nodes, WorkflowNodeKindV1::ResourceReservation) {
        Err(error) => return Err(error),
        Ok(_) => {},
    }
    match exactly_one(nodes, WorkflowNodeKindV1::CandidateHealth) {
        Err(error) => return Err(error),
        Ok(_) => {},
    }
    match exactly_one(nodes, WorkflowNodeKindV1::Cutover) {
        Err(error) => return Err(error),
        Ok(_) => {},
    }
    match exactly_one(nodes, WorkflowNodeKindV1::ReleasedObservation) {
        Err(error) => return Err(error),
        Ok(_) => {},
    }
    match exactly_one(nodes, WorkflowNodeKindV1::Rollback) {
        Err(error) => return Err(error),
        Ok(_) => {},
    }
    if by_kind(nodes, WorkflowNodeKindV1::Verification).len() == 0 {
        return Err(WorkflowContractError::InvalidNodeCardinality(WorkflowNodeKindV1::Verification));
    }
    Ok(())
}

fn the_one(nodes: &Vec<WorkflowNodeV1>, kind: WorkflowNodeKindV1) -> (r: usize)
    requires
        kind_places(nodes@, kind).len() > 0,
    ensures
        r < nodes@.len(),
        nodes@[r as int] == only(nodes@, kind),
{
    let places = by_kind(nodes, kind);
    assert(as_places(places@)[0] == places@[0]);
    places[0]
}

fn check_mutation_build(
    nodes: &Vec<WorkflowNodeV1>,
    profiles: &Vec<WorkflowExecutionProfileV1>,
) -> (r: Result<(), WorkflowContractError>)
    requires
        mutation_kinds_fault(nodes@) is None,
        forall|i: int|
            0 <= i < nodes@.len() ==> profile_place(
                profiles@,
                (#[trigger] nodes@[i]).profile_id@,
            ) < profiles@.len(),
    ensures
        match r {
            Ok(()) => mutation_build_fault(nodes@, profiles@) is None,
            Err(error) => mutation_build_fault(nodes@, profiles@) == Some(error),
        },
{
    let source = &nodes[the_one(nodes, WorkflowNodeKindV1::SourceAdmission)];
    let prepare = &nodes[the_one(nodes, WorkflowNodeKindV1::HostPrepare)];
    let build = &nodes[the_one(nodes, WorkflowNodeKindV1::ReleaseBuild)];
    let reduce = &nodes[the_one(nodes, WorkflowNodeKindV1::DeterministicReduce)];
    let reserve = &nodes[the_one(nodes, WorkflowNodeKindV1::ResourceReservation)];
    let verification = by_kind(nodes, WorkflowNodeKindV1::Verification);
    let nothing: Vec<WorkflowNodeId> = Vec::new();
    assert(node_ids(nothing@) =~= seq![]);
    match require_dependencies(source, &nothing) {
        Err(error) => return Err(error),
        Ok(()) => {},
    }
    match require_dependencies(prepare, &one_id(&source.node_id)) {
        Err(error) => return Err(error),
        Ok(()) => {},
    }
    match require_all(nodes, &verification, &prepare.node_id) {
        Err(error) => return Err(error),
        Ok(()) => {},
    }
    assert(profiles@.take(profiles@.len() as int) =~= profiles@);
    let place = find_profile(profiles, &build.profile_id, profiles.len());
    match validate_release_dependencies(
        build,
        profiles[place].adapter_id,
        prepare,
        nodes,
        &verification,
    ) {
        Err(error) => return Err(error),
        Ok(()) => {},
    }
    let reduced = place_names(nodes, &verification, &build.node_id);
    match require_dependencies(reduce, &reduced) {
        Err(error) => return Err(error),
        Ok(()) => {},
    }
    require_dependencies(reserve, &one_id(&reduce.node_id))
}

fn check_mutation_delivery(nodes: &Vec<WorkflowNodeV1>) -> (r: Result<(), WorkflowContractError>)
    requires
        mutation_kinds_fault(nodes@) is None,
    ensures
        match r {
            Ok(()) => mutation_delivery_fault(nodes@) is None,
            Err(error) => mutation_delivery_fault(nodes@) == Some(error),
        },
{
    let reserve = the_one(nodes, WorkflowNodeKindV1::ResourceReservation);
    let candidate = &nodes[the_one(nodes, WorkflowNodeKindV1::CandidateHealth)];
    let cutover = &nodes[the_one(nodes, WorkflowNodeKindV1::Cutover)];
    let observe = &nodes[the_one(nodes, WorkflowNodeKindV1::ReleasedObservation)];
    let rollback = &nodes[the_one(nodes, WorkflowNodeKindV1::Rollback)];
    let backup = by_kind(nodes, WorkflowNodeKindV1::Backup);
    if backup.len() > 1 {
        return Err(WorkflowContractError::InvalidNodeCardinality(WorkflowNodeKindV1::Backup));
    }
    let migration = by_kind(nodes, WorkflowNodeKindV1::Migration);
    if migration.len() > 1 {
        return Err(WorkflowContractError::InvalidNodeCardinality(WorkflowNodeKindV1::Migration));
    }
    let mut previous: usize = reserve;
    if backup.len() > 0 {
        assert(as_places(backup@)[0] == backup@[0]);
        match require_dependencies(&nodes[backup[0]], &one_id(&nodes[previous].node_id)) {
            Err(error) => return Err(error),
            Ok(()) => {},
        }
        previous = backup[0];
    }
    assert(nodes@[previous as int] == before_migration(nodes@));
    if migration.len() > 0 {
        assert(as_places(migration@)[0] == migration@[0]);
        match require_dependencies(&nodes[migration[0]], &one_id(&nodes[previous].node_id)) {
            Err(error) => return Err(error),
            Ok(()) => {},
        }
        previous = migration[0];
    }
    assert(nodes@[previous as int] == before_candidate(nodes@));
    match require_dependencies(candidate, &one_id(&nodes[previous].node_id)) {
        Err(error) => return Err(error),
        Ok(()) => {},
    }
    match require_dependencies(cutover, &one_id(&candidate.node_id)) {
        Err(error) => return Err(error),
        Ok(()) => {},
    }
    match require_dependencies(observe, &one_id(&cutover.node_id)) {
        Err(error) => return Err(error),
        Ok(()) => {},
    }
    require_dependencies(rollback, &one_id(&cutover.node_id))
}

fn validate_executor_mutation_graph(
    nodes: &Vec<WorkflowNodeV1>,
    profiles: &Vec<WorkflowExecutionProfileV1>,
) -> (r: Result<(), WorkflowContractError>)
    requires
        forall|i: int|
            0 <= i < nodes@.len() ==> profile_place(
                profiles@,
                (#[trigger] nodes@[i]).profile_id@,
            ) < profiles@.len(),
    ensures
        match r {
            Ok(()) => mutation_graph_fault(nodes@, profiles@) is None,
            Err(error) => mutation_graph_fault(nodes@, profiles@) == Some(error),
        },
{
    match check_mutation_kinds(nodes) {
        Err(error) => return Err(error),
        Ok(()) => {},
    }
    match check_mutation_build(nodes, profiles) {
        Err(error) => return Err(error),
        Ok(()) => {},
    }
    check_mutation_delivery(nodes)
}

/// What is wrong with the graph of a workflow that hands its release over to update itself: five
/// nodes, one after the other, with a native build.
pub open spec fn handoff_graph_fault(
    nodes: Seq<WorkflowNodeV1>,
    profiles: Seq<WorkflowExecutionProfileV1>,
) -> Option<WorkflowContractError> {
    let source = only(nodes, WorkflowNodeKindV1::SourceAdmission);
    let prepare = only(nodes, WorkflowNodeKindV1::HostPrepare);
    let verification = only(nodes, WorkflowNodeKindV1::Verification);
    let build = only(nodes, WorkflowNodeKindV1::ReleaseBuild);
    let reduce = only(nodes, WorkflowNodeKindV1::DeterministicReduce);
    either(
        if nodes.len() != 5 {
            Some(WorkflowContractError::InvalidWorkflowBounds)
        } else {
            None
        },
        either(
            handoff_kinds_fault(nodes),
            either(
                if profile_of(profiles, build).adapter_id is WorkerNativeReleaseBuildV1 {
                    None
                } else {
                    Some(WorkflowContractError::ProfileKindMismatch(build.node_id))
                },
                either(
                    needs(source, seq![]),
                    either(
                        needs(prepare, seq![source.node_id@]),
                        either(
                            needs(verification, seq![prepare.node_id@]),
                            either(
                                needs(build, pair(prepare.node_id@, verification.node_id@)),
                                needs(reduce, pair(build.node_id@, verification.node_id@)),
                            ),
                        ),
                    ),
                ),
            ),
        ),
    )
}

/// Every kind of a workflow that hands its release over occurs once.
pub open spec fn handoff_kinds_fault(nodes: Seq<WorkflowNodeV1>) -> Option<WorkflowContractError> {
    either(
        one_of(nodes, WorkflowNodeKindV1::SourceAdmission),
        either(
            one_of(nodes, WorkflowNodeKindV1::HostPrepare),
            either(
                one_of(nodes, WorkflowNodeKindV1::Verification),
                either(
                    one_of(nodes, WorkflowNodeKindV1::ReleaseBuild),
                    one_of(nodes, WorkflowNodeKindV1::DeterministicReduce),
                ),
            ),
        ),
    )
}

fn validate_self_update_handoff_graph(
    nodes: &Vec<WorkflowNodeV1>,
    profiles: &Vec<WorkflowExecutionProfileV1>,
) -> (r: Result<(), WorkflowContractError>)
    requires
        forall|i: int|
            0 <= i < nodes@.len() ==> profile_place(
                profiles@,
                (#[trigger] nodes@[i]).profile_id@,
            ) < profiles@.len(),
    ensures
        match r {
            Ok(()) => handoff_graph_fault(nodes@, profiles@) is None,
            Err(error) => handoff_graph_fault(nodes@, profiles@) == Some(error),
        },
{
    if nodes.len() != 5 {
        return Err(WorkflowContractError::InvalidWorkflowBounds);
    }
    let source = match exactly_one(nodes, WorkflowNodeKindV1::SourceAdmission) {
        Err(error) => return Err(error),
        Ok(place) => &nodes[place],
    };
    let prepare = match exactly_one(nodes, WorkflowNodeKindV1::HostPrepare) {
        Err(error) => return Err(error),
        Ok(place) => &nodes[place],
    };
    let verification = match exactly_one(nodes, WorkflowNodeKindV1::Verification) {
        Err(error) => return Err(error),
        Ok(place) => &nodes[place],
    };
    let build = match exactly_one(nodes, WorkflowNodeKindV1::ReleaseBuild) {
        Err(error) => return Err(error),
        Ok(place) => &nodes[place],
    };
    let reduce = match exactly_one(nodes, WorkflowNodeKindV1::DeterministicReduce) {
        Err(error) => return Err(error),
        Ok(place) => &nodes[place],
    };
    assert(profiles@.take(profiles@.len() as int) =~= profiles@);
    let place = find_profile(profiles, &build.profile_id, profiles.len());
    if profiles[place].adapter_id != WorkflowAdapterIdV1::WorkerNativeReleaseBuildV1 {
        return Err(WorkflowContractError::ProfileKindMismatch(build.node_id.clone()));
    }
    let nothing: Vec<WorkflowNodeId> = Vec::new();
    assert(node_ids(nothing@) =~= seq![]);
    match require_dependencies(source, &nothing) {
        Err(error) => return Err(error),
        Ok(()) => {},
    }
    match require_dependencies(prepare, &one_id(&source.node_id)) {
        Err(error) => return Err(error),
        Ok(()) => {},
    }
    match require_dependencies(verification, &one_id(&prepare.node_id)) {
        Err(error) => return Err(error),
        Ok(()) => {},
    }
    match require_dependencies(build, &ordered_pair(&prepare.node_id, &verification.node_id)) {
        Err(error) => return Err(error),
        Ok(()) => {},
    }
    require_dependencies(reduce, &ordered_pair(&build.node_id, &verification.node_id))
}

proof fn lemma_nodes_have_profiles(
    nodes: Seq<WorkflowNodeV1>,
    profiles: Seq<WorkflowExecutionProfileV1>,
)
    requires
        nodes_fault(nodes, profiles) is None,
    ensures
        forall|i: int|
            0 <= i < nodes.len() ==> profile_place(profiles, (#[trigger] nodes[i]).profile_id@)
                < profiles.len(),
    decreases nodes.len(),
{
    if nodes.len() > 0 {
        let before = nodes.drop_last();
        lemma_nodes_have_profiles(before, profiles);
        assert forall|i: int| 0 <= i < nodes.len() implies profile_place(
            profiles,
            (#[trigger] nodes[i]).profile_id@,
        ) < profiles.len() by {
            if i < before.len() {
                assert(nodes[i] == before[i]);
            }
        }
    }
}

impl WorkflowPolicyV1 {
    /// What is wrong with a policy: its version, its bounds, a profile, a node, the inputs of a
    /// node, a cycle, or the shape that its delivery mode asks for, the first of these.
    pub open spec fn fault(self) -> Option<WorkflowContractError> {
        let nodes = self.nodes@;
        let profiles = self.execution_profiles@;
        if self.schema_version != WORKFLOW_POLICY_SCHEMA_VERSION {
            Some(WorkflowContractError::UnsupportedSchemaVersion(self.schema_version))
        } else if !(1 <= self.fairness_weight <= 16) || !(1 <= profiles.len() <= 32) || !(1
            <= nodes.len() <= 64) {
            Some(WorkflowContractError::InvalidWorkflowBounds)
        } else {
            either(
                profiles_fault(profiles),
                either(
                    nodes_fault(nodes, profiles),
                    either(
                        all_inputs_fault(nodes, nodes.len() as int),
                        if !acyclic(nodes) {
                            Some(WorkflowContractError::CyclicGraph)
                        } else {
                            match self.delivery_mode {
                                WorkflowDeliveryModeV1::ExecutorMutation => mutation_graph_fault(
                                    nodes,
                                    profiles,
                                ),
                                WorkflowDeliveryModeV1::SelfUpdateHandoff => handoff_graph_fault(
                                    nodes,
                                    profiles,
                                ),
                            }
                        },
                    ),
                ),
            )
        }
    }

    pub fn validate(&self) -> (r: Result<(), WorkflowContractError>)
        ensures
            match r {
                Ok(()) => self.fault() is None,
                Err(error) => self.fault() == Some(error),
            },
    {
        if self.schema_version != WORKFLOW_POLICY_SCHEMA_VERSION {
            return Err(WorkflowContractError::UnsupportedSchemaVersion(self.schema_version));
        }
        if self.fairness_weight < 1 || self.fairness_weight > 16 || self.execution_profiles.len()
            == 0 || self.execution_profiles.len() > MAX_WORKFLOW_PROFILES || self.nodes.len() == 0
            || self.nodes.len() > MAX_WORKFLOW_NODES {
            return Err(WorkflowContractError::InvalidWorkflowBounds);
        }
        match check_profiles(&self.execution_profiles) {
            Err(error) => return Err(error),
            Ok(()) => {},
        }
        match check_nodes(&self.nodes, &self.execution_profiles) {
            Err(error) => return Err(error),
            Ok(()) => {},
        }
        match check_all_inputs(&self.nodes) {
            Err(error) => return Err(error),
            Ok(()) => {},
        }
        if topological_order(&self.nodes).is_none() {
            return Err(WorkflowContractError::CyclicGraph);
        }
        proof {
            lemma_nodes_have_profiles(self.nodes@, self.execution_profiles@);
        }
        match self.delivery_mode {
            WorkflowDeliveryModeV1::ExecutorMutation => validate_executor_mutation_graph(
                &self.nodes,
                &self.execution_profiles,
            ),
            WorkflowDeliveryModeV1::SelfUpdateHandoff => validate_self_update_handoff_graph(
                &self.nodes,
                &self.execution_profiles,
            ),
        }
    }

    /// The first node of a name.
    pub fn node(&self, node_id: &WorkflowNodeId) -> (r: Option<&WorkflowNodeV1>)
        ensures
            match r {
                Some(node) => node_place(self.nodes@, node_id@) < self.nodes@.len() && *node
                    == self.nodes@[node_place(self.nodes@, node_id@)] && node.node_id@ == node_id@,
                None => node_place(self.nodes@, node_id@) == self.nodes@.len(),
            },
    {
        proof {
            assert(self.nodes@.take(self.nodes@.len() as int) =~= self.nodes@);
            lemma_node_place(self.nodes@, node_id@);
        }
        let place = find_node(&self.nodes, node_id, self.nodes.len());
        if place < self.nodes.len() {
            Some(&self.nodes[place])
        } else {
            None
        }
    }

    /// The first profile of a name.
    pub fn profile(
        &self,
        profile_id: &WorkflowProfileId,
    ) -> (r: Option<&WorkflowExecutionProfileV1>)
        ensures
            match r {
                Some(profile) => profile_place(self.execution_profiles@, profile_id@)
                    < self.execution_profiles@.len() && *profile
                    == self.execution_profiles@[profile_place(
                    self.execution_profiles@,
                    profile_id@,
                )],
                None => profile_place(self.execution_profiles@, profile_id@)
                    == self.execution_profiles@.len(),
            },
    {
        assert(self.execution_profiles@.take(self.execution_profiles@.len() as int)
            =~= self.execution_profiles@);
        let place = find_profile(
            &self.execution_profiles,
            profile_id,
            self.execution_profiles.len(),
        );
        if place < self.execution_profiles.len() {
            Some(&self.execution_profiles[place])
        } else {
            None
        }
    }

    /// The nodes of a valid policy in the order in which they can run: every node after those that
    /// it depends on, and of the nodes that can come next always the one whose name comes first.
    pub fn ordered_nodes(&self) -> (r: Result<Vec<&WorkflowNodeV1>, WorkflowContractError>)
        ensures
            match r {
                Ok(ordered) => {
                    &&& self.fault() is None
                    &&& ordered@.len() == self.nodes@.len()
                    &&& exists|places: Seq<int>| #[trigger]
                        follows_dependencies(self.nodes@, places) && first_names_first(
                            self.nodes@,
                            places,
                        ) && places.len() == ordered@.len() && forall|k: int|
                            0 <= k < ordered@.len() ==> *(#[trigger] ordered@[k])
                                == self.nodes@[places[k]]
                },
                Err(error) => self.fault() == Some(error),
            },
    {
        match self.validate() {
            Err(error) => return Err(error),
            Ok(()) => {},
        }
        match topological_order(&self.nodes) {
            None => Err(WorkflowContractError::CyclicGraph),
            Some(order) => {
                let mut ordered: Vec<&WorkflowNodeV1> = Vec::new();
                let ghost places = as_places(order@);
                let mut i: usize = 0;
                while i < order.len()
                    invariant
                        i <= order.len(),
                        places == as_places(order@),
                        follows_dependencies(self.nodes@, places),
                        ordered@.len() == i,
                        forall|k: int|
                            0 <= k < i ==> *(#[trigger] ordered@[k]) == self.nodes@[places[k]],
                    decreases order.len() - i,
                {
                    proof {
                        assert(0 <= places[i as int] < self.nodes@.len());
                    }
                    ordered.push(&self.nodes[order[i]]);
                    i += 1;
                }
                Ok(ordered)
            },
        }
    }
}

/// The names of the nodes of a valid policy are all different.
pub proof fn law_valid_nodes_are_distinct(policy: WorkflowPolicyV1)
    requires
        policy.fault() is None,
    ensures
        distinct(policy.nodes@),
{
    lemma_distinct(policy.nodes@, policy.execution_profiles@);
}

/// In a valid policy every node has a profile, and the profile suits it.
pub proof fn law_valid_nodes_have_profiles(policy: WorkflowPolicyV1, i: int)
    requires
        policy.fault() is None,
        0 <= i < policy.nodes@.len(),
    ensures
        profile_place(policy.execution_profiles@, policy.nodes@[i].profile_id@)
            < policy.execution_profiles@.len(),
        suits(
            profile_of(policy.execution_profiles@, policy.nodes@[i]),
            policy.nodes@[i].kind,
        ),
{
    lemma_suits(policy.nodes@, policy.execution_profiles@, i);
}

proof fn lemma_suits(
    nodes: Seq<WorkflowNodeV1>,
    profiles: Seq<WorkflowExecutionProfileV1>,
    i: int,
)
    requires
        nodes_fault(nodes, profiles) is None,
        0 <= i < nodes.len(),
    ensures
        profile_place(profiles, nodes[i].profile_id@) < profiles.len(),
        suits(profile_of(profiles, nodes[i]), nodes[i].kind),
    decreases nodes.len(),
{
    if i < nodes.len() - 1 {
        lemma_suits(nodes.drop_last(), profiles, i);
        assert(nodes[i] == nodes.drop_last()[i]);
    }
}

/// Nothing in an order comes after itself: two nodes never depend on each other.
pub proof fn law_dependencies_are_not_mutual(policy: WorkflowPolicyV1, a: int, b: int)
    requires
        policy.fault() is None,
        0 <= a < policy.nodes@.len(),
        0 <= b < policy.nodes@.len(),
        node_ids(policy.nodes@[a].depends_on@).contains(policy.nodes@[b].node_id@),
    ensures
        !node_ids(policy.nodes@[b].depends_on@).contains(policy.nodes@[a].node_id@),
{
    let nodes = policy.nodes@;
    lemma_distinct(nodes, policy.execution_profiles@);
    let places = choose|places: Seq<int>|
        places.len() == nodes.len() && #[trigger] follows_dependencies(nodes, places);
    lemma_every_node_is_placed(nodes, places, a);
    lemma_every_node_is_placed(nodes, places, b);
    let k = choose|k: int| 0 <= k < places.len() && places[k] == a;
    let m = choose|m: int| 0 <= m < places.len() && places[m] == b;
    lemma_dependency_comes_before(nodes, places, k, m);
    if node_ids(nodes[b].depends_on@).contains(nodes[a].node_id@) {
        lemma_dependency_comes_before(nodes, places, m, k);
    }
}

pub proof fn lemma_every_node_is_placed(nodes: Seq<WorkflowNodeV1>, places: Seq<int>, a: int)
    requires
        places.len() == nodes.len(),
        different_places(places, nodes.len() as int),
        0 <= a < nodes.len(),
    ensures
        places.contains(a),
{
    if !places.contains(a) {
        let more = places.push(a);
        assert(different_places(more, nodes.len() as int)) by {
            assert forall|k: int, m: int| 0 <= k < m < more.len() implies #[trigger] more[k]
                != #[trigger] more[m] by {
                if m == places.len() {
                    assert(places.contains(places[k]));
                }
            }
        }
        lemma_longest(more, nodes.len() as int);
    }
}

pub proof fn lemma_dependency_comes_before(nodes: Seq<WorkflowNodeV1>, places: Seq<int>, k: int, m: int)
    requires
        distinct(nodes),
        follows_dependencies(nodes, places),
        0 <= k < places.len(),
        0 <= m < places.len(),
        node_ids(nodes[places[k]].depends_on@).contains(nodes[places[m]].node_id@),
    ensures
        m < k,
{
    let node = nodes[places[k]];
    let name = nodes[places[m]].node_id@;
    let i = choose|i: int|
        0 <= i < node_ids(node.depends_on@).len() && node_ids(node.depends_on@)[i] == name;
    assert(node.depends_on@[i]@ == name);
    let before = names_at(nodes, places.take(k));
    assert(ready(node, before));
    assert(before.contains(node.depends_on@[i]@));
    let j = choose|j: int| 0 <= j < before.len() && before[j] == name;
    assert(places.take(k)[j] == places[j]);
    assert(nodes[places[j]].node_id@ == nodes[places[m]].node_id@);
    assert(places[j] == places[m]);
    if j != m {
        assert(places[j] != places[m]);
    }
}

} // verus!
