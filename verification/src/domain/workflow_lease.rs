//! Leases: a node of a workflow handed to a worker for a time.

use vstd::prelude::*;
use super::identifiers::{digest_document, document_digest, EvidenceDigest, GitCommitId, ProjectId};
use super::workflow::{
    artifact_kinds_json, artifact_kinds_json_text, artifact_kinds_ordered, classes_match,
    contains_node_id, is_workflow_token, kinds_ordered, node_ids, node_ids_json,
    node_ids_ordered, profile_matches_kind, strictly_ordered, workflow_token,
    WorkflowAdapterIdV1, WorkflowArtifactKindV1, WorkflowCacheClassV1, WorkflowContractError,
    WorkflowExecutionProfileV1, WorkflowHostPreparationPolicyV1, WorkflowNetworkClassV1,
    WorkflowNodeId, WorkflowNodeKindV1, WorkflowNodeV1, WorkflowProfileId,
    WorkflowResourceEnvelopeV1, WorkflowWorkerPoolV1, MAX_WORKFLOW_NODES,
    WORKFLOW_LEASE_SCHEMA_VERSION, WORKFLOW_OPERATION_STATE_SCHEMA_VERSION,
};
use super::workflow_graph::{contains_kind, name_placed, place_name, same_node_ids};
use crate::json::{
    canonical_bytes, is_canonical, jcs, json_array, json_int, json_nat, json_object,
    json_optional, json_string, json_strings, no_members, JsonArray, JsonObject,
};
use crate::text::{is_text_before, same_text, text_before};
use crate::unique_id::Uuid;

verus! {

/// The source that a lease works on.
#[derive(Debug, PartialEq, Eq)]
pub struct WorkflowSourceIdentityV1 {
    pub sequence: u64,
    pub attestation_digest: EvidenceDigest,
}

impl WorkflowSourceIdentityV1 {
    /// The document as JSON text.
    pub open spec fn json(self) -> Seq<char> {
        json_object(
            no_members()
                .push(("sequence"@, json_nat(self.sequence as nat)))
                .push(("attestation_digest"@, json_string(self.attestation_digest@))),
        )
    }

    pub fn to_json(&self) -> (r: String)
        ensures
            r@ == self.json(),
    {
        let mut object = JsonObject::new();
        object.number("sequence", self.sequence);
        object.text("attestation_digest", self.attestation_digest.as_str());
        object.finish()
    }

    pub open spec fn same_as(self, other: WorkflowSourceIdentityV1) -> bool {
        self.sequence == other.sequence && self.attestation_digest@ == other.attestation_digest@
    }
}

impl Clone for WorkflowSourceIdentityV1 {
    fn clone(&self) -> (r: WorkflowSourceIdentityV1)
        ensures
            r == *self,
    {
        WorkflowSourceIdentityV1 {
            sequence: self.sequence,
            attestation_digest: self.attestation_digest.clone(),
        }
    }
}

/// What a node before put out, handed in with a lease.
#[derive(Debug, PartialEq, Eq, PartialOrd, Ord)]
pub struct WorkflowLeaseInputV1 {
    pub node_id: WorkflowNodeId,
    pub artifact_kind: WorkflowArtifactKindV1,
    pub output_digest: EvidenceDigest,
}

impl WorkflowLeaseInputV1 {
    /// The document as JSON text.
    pub open spec fn json(self) -> Seq<char> {
        json_object(
            no_members()
                .push(("node_id"@, json_string(self.node_id@)))
                .push(("artifact_kind"@, json_string(self.artifact_kind.name())))
                .push(("output_digest"@, json_string(self.output_digest@))),
        )
    }

    pub fn to_json(&self) -> (r: String)
        ensures
            r@ == self.json(),
    {
        let mut object = JsonObject::new();
        object.text("node_id", self.node_id.as_str());
        object.text("artifact_kind", self.artifact_kind.as_str());
        object.text("output_digest", self.output_digest.as_str());
        object.finish()
    }

    pub open spec fn same_as(self, other: WorkflowLeaseInputV1) -> bool {
        self.node_id@ == other.node_id@ && self.artifact_kind == other.artifact_kind
            && self.output_digest@ == other.output_digest@
    }
}

impl Clone for WorkflowLeaseInputV1 {
    fn clone(&self) -> (r: WorkflowLeaseInputV1)
        ensures
            r == *self,
    {
        WorkflowLeaseInputV1 {
            node_id: self.node_id.clone(),
            artifact_kind: self.artifact_kind,
            output_digest: self.output_digest.clone(),
        }
    }
}

/// Inputs as a JSON array.
pub open spec fn inputs_json(values: Seq<WorkflowLeaseInputV1>) -> Seq<char> {
    json_array(values.map_values(|value: WorkflowLeaseInputV1| value.json()))
}

fn inputs_json_text(values: &Vec<WorkflowLeaseInputV1>) -> (r: String)
    ensures
        r@ == inputs_json(values@),
{
    let mut array = JsonArray::new();
    let mut i: usize = 0;
    while i < values.len()
        invariant
            i <= values.len(),
            array.wf(),
            array@ == values@.take(i as int).map_values(|value: WorkflowLeaseInputV1| value.json()),
        decreases values.len() - i,
    {
        let item = values[i].to_json();
        array.raw(item.as_str());
        i += 1;
        assert(array@ =~= values@.take(i as int).map_values(|value: WorkflowLeaseInputV1| value.json()));
    }
    assert(values@.take(i as int) =~= values@);
    array.finish()
}

/// The names of the nodes that inputs come from.
pub open spec fn input_nodes(inputs: Seq<WorkflowLeaseInputV1>) -> Seq<Seq<char>> {
    inputs.map_values(|input: WorkflowLeaseInputV1| input.node_id@)
}

/// The kinds of artifacts that inputs are.
pub open spec fn input_kinds(inputs: Seq<WorkflowLeaseInputV1>) -> Set<WorkflowArtifactKindV1> {
    Set::new(
        |kind: WorkflowArtifactKindV1|
            exists|i: int| 0 <= i < inputs.len() && #[trigger] inputs[i].artifact_kind == kind,
    )
}

fn inputs_ordered(inputs: &Vec<WorkflowLeaseInputV1>) -> (r: bool)
    ensures
        r == strictly_ordered(input_nodes(inputs@)),
{
    let ghost all = input_nodes(inputs@);
    let mut i: usize = 1;
    while i < inputs.len()
        invariant
            1 <= i,
            all == input_nodes(inputs@),
            forall|a: int, b: int|
                0 <= a && b == a + 1 && b < i && b < all.len() ==> text_before(
                    #[trigger] all[a],
                    #[trigger] all[b],
                ),
        decreases inputs.len() - i,
    {
        if !is_text_before(inputs[i - 1].node_id.as_str(), inputs[i].node_id.as_str()) {
            assert(!text_before(all[i - 1], all[i as int]));
            return false;
        }
        i += 1;
    }
    true
}

fn has_input_kind(inputs: &Vec<WorkflowLeaseInputV1>, kind: WorkflowArtifactKindV1) -> (r: bool)
    ensures
        r == input_kinds(inputs@).contains(kind),
{
    let mut i: usize = 0;
    while i < inputs.len()
        invariant
            i <= inputs.len(),
            forall|k: int| 0 <= k < i ==> #[trigger] inputs@[k].artifact_kind != kind,
        decreases inputs.len() - i,
    {
        if inputs[i].artifact_kind == kind {
            assert(inputs@[i as int].artifact_kind == kind);
            return true;
        }
        i += 1;
    }
    false
}

fn input_kinds_are(
    inputs: &Vec<WorkflowLeaseInputV1>,
    kinds: &Vec<WorkflowArtifactKindV1>,
) -> (r: bool)
    ensures
        r == (input_kinds(inputs@) == kinds@.to_set()),
{
    let ghost left = input_kinds(inputs@);
    let ghost right = kinds@.to_set();
    let mut i: usize = 0;
    while i < inputs.len()
        invariant
            i <= inputs.len(),
            left == input_kinds(inputs@),
            right == kinds@.to_set(),
            forall|k: int| 0 <= k < i ==> right.contains(#[trigger] inputs@[k].artifact_kind),
        decreases inputs.len() - i,
    {
        if !contains_kind(kinds, inputs[i].artifact_kind) {
            assert(left.contains(inputs@[i as int].artifact_kind));
            return false;
        }
        i += 1;
    }
    let mut k: usize = 0;
    while k < kinds.len()
        invariant
            k <= kinds.len(),
            left == input_kinds(inputs@),
            right == kinds@.to_set(),
            forall|j: int| 0 <= j < k ==> left.contains(#[trigger] kinds@[j]),
        decreases kinds.len() - k,
    {
        if !has_input_kind(inputs, kinds[k]) {
            assert(right.contains(kinds@[k as int]));
            return false;
        }
        k += 1;
    }
    assert(left =~= right);
    true
}

fn clone_inputs(inputs: &Vec<WorkflowLeaseInputV1>) -> (r: Vec<WorkflowLeaseInputV1>)
    ensures
        r@ == inputs@,
{
    let mut copy: Vec<WorkflowLeaseInputV1> = Vec::new();
    let mut i: usize = 0;
    while i < inputs.len()
        invariant
            i <= inputs.len(),
            copy@ == inputs@.take(i as int),
        decreases inputs.len() - i,
    {
        copy.push(inputs[i].clone());
        i += 1;
        assert(copy@ =~= inputs@.take(i as int));
    }
    assert(inputs@.take(i as int) =~= inputs@);
    copy
}

pub(crate) fn clone_kinds(kinds: &Vec<WorkflowArtifactKindV1>) -> (r: Vec<WorkflowArtifactKindV1>)
    ensures
        r@ == kinds@,
{
    let mut copy: Vec<WorkflowArtifactKindV1> = Vec::new();
    let mut i: usize = 0;
    while i < kinds.len()
        invariant
            i <= kinds.len(),
            copy@ == kinds@.take(i as int),
        decreases kinds.len() - i,
    {
        copy.push(kinds[i]);
        i += 1;
        assert(copy@ =~= kinds@.take(i as int));
    }
    assert(kinds@.take(i as int) =~= kinds@);
    copy
}

fn clone_node_ids(ids: &Vec<WorkflowNodeId>) -> (r: Vec<WorkflowNodeId>)
    ensures
        r@ == ids@,
{
    let mut copy: Vec<WorkflowNodeId> = Vec::new();
    let mut i: usize = 0;
    while i < ids.len()
        invariant
            i <= ids.len(),
            copy@ == ids@.take(i as int),
        decreases ids.len() - i,
    {
        copy.push(ids[i].clone());
        i += 1;
        assert(copy@ =~= ids@.take(i as int));
    }
    assert(ids@.take(i as int) =~= ids@);
    copy
}

/// State that the nodes of one attempt share on one host.
#[derive(Debug, PartialEq, Eq)]
pub struct WorkflowOperationStateV1 {
    pub schema_version: u16,
    pub state_key: EvidenceDigest,
    pub consumer_nodes: Vec<WorkflowNodeId>,
    pub max_bytes: u64,
    pub max_inodes: u64,
}

/// What the state of an operation belongs to.
pub struct StateOwner {
    pub attempt_id: Uuid,
    pub project_id: Seq<char>,
    pub source_sha: Seq<char>,
    pub workflow_policy_digest: Seq<char>,
    pub preparation_key: Seq<char>,
    pub worker_id: Seq<char>,
    pub host_id: Seq<char>,
}

/// The owner of the state of an operation, from its parts.
pub open spec fn state_owner(
    attempt_id: Uuid,
    project_id: ProjectId,
    source_sha: GitCommitId,
    workflow_policy_digest: EvidenceDigest,
    preparation_key: EvidenceDigest,
    worker_id: Seq<char>,
    host_id: Seq<char>,
) -> StateOwner {
    StateOwner {
        attempt_id,
        project_id: project_id@,
        source_sha: source_sha@,
        workflow_policy_digest: workflow_policy_digest@,
        preparation_key: preparation_key@,
        worker_id,
        host_id,
    }
}

/// Names in their order.
pub open spec fn names_sorted(names: Seq<Seq<char>>) -> Seq<Seq<char>>
    decreases names.len(),
{
    if names.len() == 0 {
        seq![]
    } else {
        name_placed(names_sorted(names.drop_last()), names.last())
    }
}

fn sort_node_ids(ids: Vec<WorkflowNodeId>) -> (r: Vec<WorkflowNodeId>)
    ensures
        node_ids(r@) == names_sorted(node_ids(ids@)),
{
    let ghost all = ids@;
    let mut sorted: Vec<WorkflowNodeId> = Vec::new();
    let mut i: usize = 0;
    assert(node_ids(sorted@) =~= names_sorted(node_ids(all).take(0)));
    while i < ids.len()
        invariant
            i <= ids.len(),
            ids@ == all,
            node_ids(sorted@) == names_sorted(node_ids(all).take(i as int)),
        decreases ids.len() - i,
    {
        proof {
            let next = node_ids(all).take(i + 1);
            assert(next.drop_last() =~= node_ids(all).take(i as int));
            assert(next.last() == all[i as int]@);
        }
        place_name(&mut sorted, ids[i].clone());
        i += 1;
    }
    assert(node_ids(all).take(i as int) =~= node_ids(all));
    sorted
}

impl WorkflowOperationStateV1 {
    /// The document as JSON text.
    pub open spec fn json(self) -> Seq<char> {
        json_object(
            no_members()
                .push(("schema_version"@, json_nat(self.schema_version as nat)))
                .push(("state_key"@, json_string(self.state_key@)))
                .push(("consumer_nodes"@, json_strings(node_ids(self.consumer_nodes@))))
                .push(("max_bytes"@, json_nat(self.max_bytes as nat)))
                .push(("max_inodes"@, json_nat(self.max_inodes as nat))),
        )
    }

    pub fn to_json(&self) -> (r: String)
        ensures
            r@ == self.json(),
    {
        let mut object = JsonObject::new();
        object.number("schema_version", self.schema_version as u64);
        object.text("state_key", self.state_key.as_str());
        let consumer_nodes = node_ids_json(&self.consumer_nodes);
        object.raw("consumer_nodes", consumer_nodes.as_str());
        object.number("max_bytes", self.max_bytes);
        object.number("max_inodes", self.max_inodes);
        object.finish()
    }

    /// What the key is taken over.
    pub open spec fn key_json(self, owner: StateOwner) -> Seq<char> {
        json_object(
            no_members()
                .push(("purpose"@, json_string("rdashboard.workflow-operation-state.v1"@)))
                .push(("schema_version"@, json_nat(self.schema_version as nat)))
                .push(("attempt_id"@, json_string(owner.attempt_id.text())))
                .push(("project_id"@, json_string(owner.project_id)))
                .push(("source_sha"@, json_string(owner.source_sha)))
                .push(("workflow_policy_digest"@, json_string(owner.workflow_policy_digest)))
                .push(("preparation_key"@, json_string(owner.preparation_key)))
                .push(("worker_id"@, json_string(owner.worker_id)))
                .push(("host_id"@, json_string(owner.host_id)))
                .push(("consumer_nodes"@, json_strings(node_ids(self.consumer_nodes@))))
                .push(("max_bytes"@, json_nat(self.max_bytes as nat)))
                .push(("max_inodes"@, json_nat(self.max_inodes as nat))),
        )
    }

    fn calculate_key(
        &self,
        attempt_id: Uuid,
        project_id: &ProjectId,
        source_sha: &GitCommitId,
        workflow_policy_digest: &EvidenceDigest,
        preparation_key: &EvidenceDigest,
        worker_id: &str,
        host_id: &str,
    ) -> (r: Result<EvidenceDigest, WorkflowContractError>)
        ensures
            ({
                let owner = state_owner(
                    attempt_id,
                    *project_id,
                    *source_sha,
                    *workflow_policy_digest,
                    *preparation_key,
                    worker_id@,
                    host_id@,
                );
                match r {
                    Ok(key) => document_digest(self.key_json(owner)) == Some(key@),
                    Err(error) => document_digest(self.key_json(owner)) is None && error
                        is CanonicalEncoding,
                }
            }),
    {
        let mut object = JsonObject::new();
        object.text("purpose", "rdashboard.workflow-operation-state.v1");
        object.number("schema_version", self.schema_version as u64);
        let attempt = attempt_id.to_text();
        object.text("attempt_id", attempt.as_str());
        object.text("project_id", project_id.as_str());
        object.text("source_sha", source_sha.as_str());
        object.text("workflow_policy_digest", workflow_policy_digest.as_str());
        object.text("preparation_key", preparation_key.as_str());
        object.text("worker_id", worker_id);
        object.text("host_id", host_id);
        let consumer_nodes = node_ids_json(&self.consumer_nodes);
        object.raw("consumer_nodes", consumer_nodes.as_str());
        object.number("max_bytes", self.max_bytes);
        object.number("max_inodes", self.max_inodes);
        let text = object.finish();
        match digest_document(text.as_str()) {
            Ok(key) => Ok(key),
            Err(_) => Err(WorkflowContractError::CanonicalEncoding),
        }
    }

    /// The state and its owner are in order: one to 64 nodes by name, 1 MiB to 8 GiB, 1024 to a
    /// million inodes.
    pub open spec fn well_formed_for(self, owner: StateOwner) -> bool {
        &&& self.schema_version == WORKFLOW_OPERATION_STATE_SCHEMA_VERSION
        &&& !owner.attempt_id.nil()
        &&& workflow_token(owner.worker_id, 96)
        &&& workflow_token(owner.host_id, 96)
        &&& 1 <= self.consumer_nodes@.len() <= 64
        &&& strictly_ordered(node_ids(self.consumer_nodes@))
        &&& 1024 * 1024 <= self.max_bytes <= 8 * 1024 * 1024 * 1024
        &&& 1_024 <= self.max_inodes <= 1_000_000
    }

    /// The state is in order and its key is the one of its owner.
    pub open spec fn valid_for(self, owner: StateOwner) -> bool {
        self.well_formed_for(owner) && document_digest(self.key_json(owner)) == Some(self.state_key@)
    }

    pub fn validate_for(
        &self,
        attempt_id: Uuid,
        project_id: &ProjectId,
        source_sha: &GitCommitId,
        workflow_policy_digest: &EvidenceDigest,
        preparation_key: &EvidenceDigest,
        worker_id: &str,
        host_id: &str,
    ) -> (r: Result<(), WorkflowContractError>)
        ensures
            ({
                let owner = state_owner(
                    attempt_id,
                    *project_id,
                    *source_sha,
                    *workflow_policy_digest,
                    *preparation_key,
                    worker_id@,
                    host_id@,
                );
                match r {
                    Ok(()) => self.valid_for(owner),
                    Err(error) => !self.valid_for(owner) && if self.well_formed_for(owner)
                        && document_digest(self.key_json(owner)) is None {
                        error is CanonicalEncoding
                    } else {
                        error is InvalidOperationState
                    },
                }
            }),
    {
        if self.schema_version != WORKFLOW_OPERATION_STATE_SCHEMA_VERSION
            || attempt_id.is_nil() || !is_workflow_token(worker_id, 96)
            || !is_workflow_token(host_id, 96) || self.consumer_nodes.len() == 0
            || self.consumer_nodes.len() > MAX_WORKFLOW_NODES || !node_ids_ordered(
            &self.consumer_nodes,
        ) || self.max_bytes < 1_048_576 || self.max_bytes > 8_589_934_592 || self.max_inodes < 1_024
            || self.max_inodes > 1_000_000 {
            return Err(WorkflowContractError::InvalidOperationState);
        }
        match self.calculate_key(
            attempt_id,
            project_id,
            source_sha,
            workflow_policy_digest,
            preparation_key,
            worker_id,
            host_id,
        ) {
            Err(error) => Err(error),
            Ok(key) => if self.state_key == key {
                Ok(())
            } else {
                Err(WorkflowContractError::InvalidOperationState)
            },
        }
    }

    /// State for the nodes of an attempt, keyed to its owner.
    pub fn new(
        attempt_id: Uuid,
        project_id: &ProjectId,
        source_sha: &GitCommitId,
        workflow_policy_digest: &EvidenceDigest,
        preparation_key: &EvidenceDigest,
        worker_id: &str,
        host_id: &str,
        consumer_nodes: Vec<WorkflowNodeId>,
        max_bytes: u64,
        max_inodes: u64,
    ) -> (r: Result<WorkflowOperationStateV1, WorkflowContractError>)
        ensures
            ({
                let owner = state_owner(
                    attempt_id,
                    *project_id,
                    *source_sha,
                    *workflow_policy_digest,
                    *preparation_key,
                    worker_id@,
                    host_id@,
                );
                match r {
                    Ok(state) => {
                        &&& state.describes(consumer_nodes@, max_bytes, max_inodes)
                        &&& state.valid_for(owner)
                    },
                    Err(error) => forall|state: WorkflowOperationStateV1| #[trigger]
                        state.describes(consumer_nodes@, max_bytes, max_inodes)
                            ==> if document_digest(state.key_json(owner)) is None {
                            error is CanonicalEncoding
                        } else {
                            !state.well_formed_for(owner) && error is InvalidOperationState
                        },
                }
            }),
    {
        let ghost given = consumer_nodes@;
        let ghost owner = state_owner(
                    attempt_id,
                    *project_id,
                    *source_sha,
                    *workflow_policy_digest,
                    *preparation_key,
                    worker_id@,
                    host_id@,
                );
        let state_key = preparation_key.clone();
        let consumer_nodes = sort_node_ids(consumer_nodes);
        let mut state = WorkflowOperationStateV1 {
            schema_version: WORKFLOW_OPERATION_STATE_SCHEMA_VERSION,
            state_key,
            consumer_nodes,
            max_bytes,
            max_inodes,
        };
        let ghost draft = state;
        proof {
            assert forall|other: WorkflowOperationStateV1| #[trigger]
                other.describes(given, max_bytes, max_inodes) implies other.key_json(owner)
                == draft.key_json(owner) && other.well_formed_for(owner) == draft.well_formed_for(
                owner,
            ) by {
                assert(node_ids(other.consumer_nodes@).len() == node_ids(
                    draft.consumer_nodes@,
                ).len());
            }
        }
        match state.calculate_key(
            attempt_id,
            project_id,
            source_sha,
            workflow_policy_digest,
            preparation_key,
            worker_id,
            host_id,
        ) {
            Err(error) => return Err(error),
            Ok(key) => {
                state.state_key = key;
            },
        }
        assert(state.describes(given, max_bytes, max_inodes));
        match state.validate_for(
            attempt_id,
            project_id,
            source_sha,
            workflow_policy_digest,
            preparation_key,
            worker_id,
            host_id,
        ) {
            Err(error) => Err(error),
            Ok(()) => Ok(state),
        }
    }

    /// The state holds what it is made of, whatever its key.
    pub open spec fn describes(
        self,
        consumer_nodes: Seq<WorkflowNodeId>,
        max_bytes: u64,
        max_inodes: u64,
    ) -> bool {
        &&& self.schema_version == WORKFLOW_OPERATION_STATE_SCHEMA_VERSION
        &&& node_ids(self.consumer_nodes@) == names_sorted(node_ids(consumer_nodes))
        &&& self.max_bytes == max_bytes
        &&& self.max_inodes == max_inodes
    }

    pub open spec fn same_as(self, other: WorkflowOperationStateV1) -> bool {
        &&& self.schema_version == other.schema_version
        &&& self.state_key@ == other.state_key@
        &&& node_ids(self.consumer_nodes@) == node_ids(other.consumer_nodes@)
        &&& self.max_bytes == other.max_bytes
        &&& self.max_inodes == other.max_inodes
    }

    fn same(&self, other: &WorkflowOperationStateV1) -> (r: bool)
        ensures
            r == self.same_as(*other),
    {
        self.schema_version == other.schema_version && self.state_key == other.state_key
            && same_node_ids(&self.consumer_nodes, &other.consumer_nodes) && self.max_bytes
            == other.max_bytes && self.max_inodes == other.max_inodes
    }
}

impl Clone for WorkflowOperationStateV1 {
    fn clone(&self) -> (r: WorkflowOperationStateV1)
        ensures
            r == (WorkflowOperationStateV1 { consumer_nodes: r.consumer_nodes, ..*self }),
            r.consumer_nodes@ == self.consumer_nodes@,
    {
        WorkflowOperationStateV1 {
            schema_version: self.schema_version,
            state_key: self.state_key.clone(),
            consumer_nodes: clone_node_ids(&self.consumer_nodes),
            max_bytes: self.max_bytes,
            max_inodes: self.max_inodes,
        }
    }
}

/// Members with another one, where it has a value.
pub open spec fn with_member(
    members: Seq<(Seq<char>, Seq<char>)>,
    name: Seq<char>,
    value: Option<Seq<char>>,
) -> Seq<(Seq<char>, Seq<char>)> {
    match value {
        Some(value) => members.push((name, value)),
        None => members,
    }
}

/// A node of a workflow handed to a worker for a time, sealed by a digest.
#[derive(Debug, PartialEq, Eq)]
pub struct WorkflowLeaseV1 {
    pub schema_version: u16,
    pub lease_id: Uuid,
    pub lease_generation: u32,
    pub request_id: Uuid,
    pub attempt_id: Uuid,
    pub project_id: ProjectId,
    pub source_sha: GitCommitId,
    pub source_identity: Option<WorkflowSourceIdentityV1>,
    pub workflow_policy_digest: EvidenceDigest,
    pub preparation_key: EvidenceDigest,
    pub node_id: WorkflowNodeId,
    pub node_kind: WorkflowNodeKindV1,
    pub profile_id: WorkflowProfileId,
    pub adapter_id: WorkflowAdapterIdV1,
    pub worker_pool: WorkflowWorkerPoolV1,
    pub network_class: WorkflowNetworkClassV1,
    pub cache_class: WorkflowCacheClassV1,
    pub timeout_ms: u64,
    pub resources: Option<WorkflowResourceEnvelopeV1>,
    pub host_preparation: Option<WorkflowHostPreparationPolicyV1>,
    pub operation_state: Option<WorkflowOperationStateV1>,
    pub input_contracts: Vec<WorkflowArtifactKindV1>,
    pub input_artifacts: Vec<WorkflowLeaseInputV1>,
    pub output_contract: WorkflowArtifactKindV1,
    pub expected_input_digest: EvidenceDigest,
    pub worker_id: String,
    pub host_id: String,
    pub leased_at_ms: i64,
    pub expires_at_ms: i64,
    pub lease_digest: EvidenceDigest,
}

impl WorkflowLeaseV1 {
    /// Members with what a lease is for, and the source it works on.
    pub open spec fn with_source(self, members: Seq<(Seq<char>, Seq<char>)>) -> Seq<(Seq<char>, Seq<char>)> {
        with_member(
            members
                .push(("schema_version"@, json_nat(self.schema_version as nat)))
                .push(("lease_id"@, json_string(self.lease_id.text())))
                .push(("lease_generation"@, json_nat(self.lease_generation as nat)))
                .push(("request_id"@, json_string(self.request_id.text())))
                .push(("attempt_id"@, json_string(self.attempt_id.text())))
                .push(("project_id"@, json_string(self.project_id@)))
                .push(("source_sha"@, json_string(self.source_sha@))),
            "source_identity"@,
            match self.source_identity {
                Some(value) => Some(value.json()),
                None => None,
            },
        )
    }

    /// Members with the node of a lease and the profile it runs under.
    pub open spec fn with_node(self, members: Seq<(Seq<char>, Seq<char>)>) -> Seq<(Seq<char>, Seq<char>)> {
        members
            .push(("workflow_policy_digest"@, json_string(self.workflow_policy_digest@)))
            .push(("preparation_key"@, json_string(self.preparation_key@)))
            .push(("node_id"@, json_string(self.node_id@)))
            .push(("node_kind"@, json_string(self.node_kind.name())))
            .push(("profile_id"@, json_string(self.profile_id@)))
            .push(("adapter_id"@, json_string(self.adapter_id.name())))
            .push(("worker_pool"@, json_string(self.worker_pool.name())))
            .push(("network_class"@, json_string(self.network_class.name())))
            .push(("cache_class"@, json_string(self.cache_class.name())))
            .push(("timeout_ms"@, json_nat(self.timeout_ms as nat)))
            .push(
                (
                    "resources"@,
                    json_optional(
                        match self.resources {
                            Some(value) => Some(value.json()),
                            None => None,
                        },
                    ),
                ),
            )
    }

    /// Members with what prepares the host and what is shared.
    pub open spec fn with_state(self, members: Seq<(Seq<char>, Seq<char>)>) -> Seq<(Seq<char>, Seq<char>)> {
        with_member(
            with_member(
                members,
                "host_preparation"@,
                match self.host_preparation {
                    Some(value) => Some(value.json()),
                    None => None,
                },
            ),
            "operation_state"@,
            match self.operation_state {
                Some(value) => Some(value.json()),
                None => None,
            },
        )
    }

    /// Members with what goes in and out, and who holds the lease for how long.
    pub open spec fn with_terms(self, members: Seq<(Seq<char>, Seq<char>)>) -> Seq<(Seq<char>, Seq<char>)> {
        with_member(
            members.push(("input_contracts"@, artifact_kinds_json(self.input_contracts@))),
            "input_artifacts"@,
            if self.input_artifacts@.len() == 0 {
                None
            } else {
                Some(inputs_json(self.input_artifacts@))
            },
        )
            .push(("output_contract"@, json_string(self.output_contract.name())))
            .push(("expected_input_digest"@, json_string(self.expected_input_digest@)))
            .push(("worker_id"@, json_string(self.worker_id@)))
            .push(("host_id"@, json_string(self.host_id@)))
            .push(("leased_at_ms"@, json_int(self.leased_at_ms as int)))
            .push(("expires_at_ms"@, json_int(self.expires_at_ms as int)))
    }

    /// Members with everything that a lease says but its digest. What it does not carry is not
    /// written.
    pub open spec fn with_contents(self, members: Seq<(Seq<char>, Seq<char>)>) -> Seq<(Seq<char>, Seq<char>)> {
        self.with_terms(self.with_state(self.with_node(self.with_source(members))))
    }

    /// The members of the document.
    pub open spec fn members(self) -> Seq<(Seq<char>, Seq<char>)> {
        self.with_contents(no_members()).push(("lease_digest"@, json_string(self.lease_digest@)))
    }

    /// The document as JSON text.
    pub open spec fn json(self) -> Seq<char> {
        json_object(self.members())
    }

    pub fn to_json(&self) -> (r: String)
        ensures
            r@ == self.json(),
    {
        let mut object = JsonObject::new();
        object.number("schema_version", self.schema_version as u64);
        let lease_id = self.lease_id.to_text();
        object.text("lease_id", lease_id.as_str());
        object.number("lease_generation", self.lease_generation as u64);
        let request_id = self.request_id.to_text();
        object.text("request_id", request_id.as_str());
        let attempt_id = self.attempt_id.to_text();
        object.text("attempt_id", attempt_id.as_str());
        object.text("project_id", self.project_id.as_str());
        object.text("source_sha", self.source_sha.as_str());
        match &self.source_identity {
            Some(value) => {
                let value = value.to_json();
                object.raw("source_identity", value.as_str());
            },
            None => {},
        }
        object.text("workflow_policy_digest", self.workflow_policy_digest.as_str());
        object.text("preparation_key", self.preparation_key.as_str());
        object.text("node_id", self.node_id.as_str());
        object.text("node_kind", self.node_kind.as_str());
        object.text("profile_id", self.profile_id.as_str());
        object.text("adapter_id", self.adapter_id.as_str());
        object.text("worker_pool", self.worker_pool.as_str());
        object.text("network_class", self.network_class.as_str());
        object.text("cache_class", self.cache_class.as_str());
        object.number("timeout_ms", self.timeout_ms);
        match &self.resources {
            Some(value) => {
                let value = value.to_json();
                object.raw("resources", value.as_str());
            },
            None => object.raw("resources", "null"),
        }
        match &self.host_preparation {
            Some(value) => {
                let value = value.to_json();
                object.raw("host_preparation", value.as_str());
            },
            None => {},
        }
        match &self.operation_state {
            Some(value) => {
                let value = value.to_json();
                object.raw("operation_state", value.as_str());
            },
            None => {},
        }
        let input_contracts = artifact_kinds_json_text(&self.input_contracts);
        object.raw("input_contracts", input_contracts.as_str());
        if self.input_artifacts.len() != 0 {
            let input_artifacts = inputs_json_text(&self.input_artifacts);
            object.raw("input_artifacts", input_artifacts.as_str());
        }
        object.text("output_contract", self.output_contract.as_str());
        object.text("expected_input_digest", self.expected_input_digest.as_str());
        object.text("worker_id", self.worker_id.as_str());
        object.text("host_id", self.host_id.as_str());
        object.signed("leased_at_ms", self.leased_at_ms);
        object.signed("expires_at_ms", self.expires_at_ms);
        object.text("lease_digest", self.lease_digest.as_str());
        object.finish()
    }

    /// What the digest is taken over.
    pub open spec fn sealed_json(self) -> Seq<char> {
        json_object(
            self.with_contents(
                no_members().push(("purpose"@, json_string("rdashboard.workflow-lease.v1"@))),
            ),
        )
    }

    fn to_sealed_json(&self) -> (r: String)
        ensures
            r@ == self.sealed_json(),
    {
        let mut object = JsonObject::new();
        object.text("purpose", "rdashboard.workflow-lease.v1");
        object.number("schema_version", self.schema_version as u64);
        let lease_id = self.lease_id.to_text();
        object.text("lease_id", lease_id.as_str());
        object.number("lease_generation", self.lease_generation as u64);
        let request_id = self.request_id.to_text();
        object.text("request_id", request_id.as_str());
        let attempt_id = self.attempt_id.to_text();
        object.text("attempt_id", attempt_id.as_str());
        object.text("project_id", self.project_id.as_str());
        object.text("source_sha", self.source_sha.as_str());
        match &self.source_identity {
            Some(value) => {
                let value = value.to_json();
                object.raw("source_identity", value.as_str());
            },
            None => {},
        }
        object.text("workflow_policy_digest", self.workflow_policy_digest.as_str());
        object.text("preparation_key", self.preparation_key.as_str());
        object.text("node_id", self.node_id.as_str());
        object.text("node_kind", self.node_kind.as_str());
        object.text("profile_id", self.profile_id.as_str());
        object.text("adapter_id", self.adapter_id.as_str());
        object.text("worker_pool", self.worker_pool.as_str());
        object.text("network_class", self.network_class.as_str());
        object.text("cache_class", self.cache_class.as_str());
        object.number("timeout_ms", self.timeout_ms);
        match &self.resources {
            Some(value) => {
                let value = value.to_json();
                object.raw("resources", value.as_str());
            },
            None => object.raw("resources", "null"),
        }
        match &self.host_preparation {
            Some(value) => {
                let value = value.to_json();
                object.raw("host_preparation", value.as_str());
            },
            None => {},
        }
        match &self.operation_state {
            Some(value) => {
                let value = value.to_json();
                object.raw("operation_state", value.as_str());
            },
            None => {},
        }
        let input_contracts = artifact_kinds_json_text(&self.input_contracts);
        object.raw("input_contracts", input_contracts.as_str());
        if self.input_artifacts.len() != 0 {
            let input_artifacts = inputs_json_text(&self.input_artifacts);
            object.raw("input_artifacts", input_artifacts.as_str());
        }
        object.text("output_contract", self.output_contract.as_str());
        object.text("expected_input_digest", self.expected_input_digest.as_str());
        object.text("worker_id", self.worker_id.as_str());
        object.text("host_id", self.host_id.as_str());
        object.signed("leased_at_ms", self.leased_at_ms);
        object.signed("expires_at_ms", self.expires_at_ms);
        object.finish()
    }

    /// Everything but the digest is in order. A node of a lease is never one of the controller's own, so it
    /// says what it may use; only the node that prepares the host carries a policy for that; only a
    /// verification or a build shares state, with its own name among those that do.
    pub open spec fn well_formed(self) -> bool {
        &&& self.schema_version == WORKFLOW_LEASE_SCHEMA_VERSION
        &&& !self.lease_id.nil() && !self.request_id.nil() && !self.attempt_id.nil()
        &&& self.lease_generation != 0
        &&& 0 <= self.leased_at_ms < self.expires_at_ms
        &&& workflow_token(self.worker_id@, 96)
        &&& workflow_token(self.host_id@, 96)
        &&& self.source_identity matches Some(identity) ==> identity.sequence != 0
        &&& !self.node_kind.controller_managed()
        &&& self.node_kind.admits(self.adapter_id)
        &&& self.node_kind.pool() == self.worker_pool
        &&& classes_match(self.node_kind, self.network_class, self.cache_class)
        &&& 100 <= self.timeout_ms <= 10_800_000
        &&& self.resources matches Some(resources) && resources.valid()
        &&& self.host_preparation matches Some(policy) ==> {
            &&& self.node_kind is HostPrepare
            &&& policy.valid()
            &&& self.network_class == policy.network()
        }
        &&& self.operation_state matches Some(state) ==> {
            &&& self.node_kind is Verification || self.node_kind is ReleaseBuild
            &&& node_ids(state.consumer_nodes@).contains(self.node_id@)
            &&& state.valid_for(self.owner())
        }
        &&& kinds_ordered(self.input_contracts@)
        &&& strictly_ordered(input_nodes(self.input_artifacts@))
        &&& self.input_artifacts@.len() > 0 ==> self.input_artifacts@.len()
            == self.input_contracts@.len() && input_kinds(self.input_artifacts@)
            == self.input_contracts@.to_set()
        &&& self.output_contract == self.node_kind.output()
    }

    /// The digest is the one of what it seals.
    pub open spec fn sealed(self) -> bool {
        document_digest(self.sealed_json()) == Some(self.lease_digest@)
    }

    /// What is wrong with the document: its form, the encoding, or the digest.
    pub open spec fn fault(self) -> Option<WorkflowContractError> {
        if !self.well_formed() {
            Some(WorkflowContractError::InvalidLease)
        } else if document_digest(self.sealed_json()) is None {
            Some(WorkflowContractError::CanonicalEncoding)
        } else if !self.sealed() {
            Some(WorkflowContractError::InvalidLease)
        } else {
            None
        }
    }

    fn is_well_formed(&self) -> (r: bool)
        ensures
            r == self.well_formed(),
    {
        if self.schema_version != WORKFLOW_LEASE_SCHEMA_VERSION || self.lease_id.is_nil()
            || self.request_id.is_nil() || self.attempt_id.is_nil() || self.lease_generation == 0
            || self.leased_at_ms < 0 || self.expires_at_ms <= self.leased_at_ms
            || !is_workflow_token(self.worker_id.as_str(), 96) || !is_workflow_token(
            self.host_id.as_str(),
            96,
        ) {
            return false;
        }
        match &self.source_identity {
            Some(identity) => if identity.sequence == 0 {
                return false;
            },
            None => {},
        }
        if self.node_kind.is_controller_managed() || !self.node_kind.expects_adapter(
            self.adapter_id,
        ) || self.node_kind.expected_pool() != self.worker_pool || !profile_matches_kind(
            self.node_kind,
            self.network_class,
            self.cache_class,
        ) || self.timeout_ms < 100 || self.timeout_ms > 10_800_000 {
            return false;
        }
        match &self.resources {
            Some(resources) => if !resources.is_valid() {
                return false;
            },
            None => return false,
        }
        match &self.host_preparation {
            Some(policy) => if self.node_kind != WorkflowNodeKindV1::HostPrepare
                || policy.validate().is_err() || self.network_class
                != policy.required_network_class() {
                return false;
            },
            None => {},
        }
        match &self.operation_state {
            Some(state) => if !(self.node_kind == WorkflowNodeKindV1::Verification
                || self.node_kind == WorkflowNodeKindV1::ReleaseBuild) || !contains_node_id(
                &state.consumer_nodes,
                &self.node_id,
            ) || state.validate_for(
                self.attempt_id,
                &self.project_id,
                &self.source_sha,
                &self.workflow_policy_digest,
                &self.preparation_key,
                self.worker_id.as_str(),
                self.host_id.as_str(),
            ).is_err() {
                return false;
            },
            None => {},
        }
        artifact_kinds_ordered(&self.input_contracts) && inputs_ordered(&self.input_artifacts) && (
        self.input_artifacts.len() == 0 || (self.input_artifacts.len() == self.input_contracts.len()
            && input_kinds_are(&self.input_artifacts, &self.input_contracts)))
            && self.output_contract == self.node_kind.expected_output()
    }

    pub fn calculate_digest(&self) -> (r: Result<EvidenceDigest, WorkflowContractError>)
        ensures
            match r {
                Ok(digest) => document_digest(self.sealed_json()) == Some(digest@),
                Err(error) => document_digest(self.sealed_json()) is None && error
                    is CanonicalEncoding,
            },
    {
        let text = self.to_sealed_json();
        match digest_document(text.as_str()) {
            Ok(digest) => Ok(digest),
            Err(_) => Err(WorkflowContractError::CanonicalEncoding),
        }
    }

    pub fn validate(&self) -> (r: Result<(), WorkflowContractError>)
        ensures
            match r {
                Ok(()) => self.fault() is None,
                Err(error) => self.fault() == Some(error),
            },
    {
        if !self.is_well_formed() {
            return Err(WorkflowContractError::InvalidLease);
        }
        match self.calculate_digest() {
            Err(error) => Err(error),
            Ok(digest) => if self.lease_digest == digest {
                Ok(())
            } else {
                Err(WorkflowContractError::InvalidLease)
            },
        }
    }

    /// What comes of writing a lease: the canonical bytes of a valid one.
    pub open spec fn encoded(self, r: Result<Vec<u8>, WorkflowContractError>) -> bool {
        match r {
            Ok(bytes) => self.fault() is None && jcs(self.json()) == Some(bytes@),
            Err(error) => if self.fault() is Some {
                self.fault() == Some(error)
            } else {
                jcs(self.json()) is None && error is CanonicalEncoding
            },
        }
    }

    /// What comes of accepting a lease that was read from some bytes.
    pub open spec fn decoded(
        self,
        bytes: Seq<u8>,
        r: Result<WorkflowLeaseV1, WorkflowContractError>,
    ) -> bool {
        match r {
            Ok(document) => document == self && jcs(self.json()) == Some(bytes) && self.fault()
                is None,
            Err(error) => if jcs(self.json()) is None {
                error is CanonicalEncoding
            } else if jcs(self.json()) != Some(bytes) {
                error is NoncanonicalDocument
            } else {
                self.fault() == Some(error)
            },
        }
    }

    /// The canonical bytes of a valid document.
    pub fn canonical_bytes(&self) -> (r: Result<Vec<u8>, WorkflowContractError>)
        ensures
            self.encoded(r),
    {
        match self.validate() {
            Err(error) => Err(error),
            Ok(()) => {
                let text = self.to_json();
                match canonical_bytes(text.as_str()) {
                    Ok(bytes) => Ok(bytes),
                    Err(_) => Err(WorkflowContractError::CanonicalEncoding),
                }
            },
        }
    }

    /// Accepts a document that was read from some bytes, where the bytes are its canonical form
    /// and it is valid.
    pub fn decode_canonical(
        parsed: WorkflowLeaseV1,
        bytes: &[u8],
    ) -> (r: Result<WorkflowLeaseV1, WorkflowContractError>)
        ensures
            parsed.decoded(bytes@, r),
    {
        let text = parsed.to_json();
        match is_canonical(text.as_str(), bytes) {
            Err(_) => Err(WorkflowContractError::CanonicalEncoding),
            Ok(false) => Err(WorkflowContractError::NoncanonicalDocument),
            Ok(true) => match parsed.validate() {
                Err(error) => Err(error),
                Ok(()) => Ok(parsed),
            },
        }
    }
}

pub open spec fn same_identities(
    a: Option<WorkflowSourceIdentityV1>,
    b: Option<WorkflowSourceIdentityV1>,
) -> bool {
    match (a, b) {
        (Some(a), Some(b)) => a.same_as(b),
        (None, None) => true,
        _ => false,
    }
}

fn identities_equal(
    a: &Option<WorkflowSourceIdentityV1>,
    b: &Option<WorkflowSourceIdentityV1>,
) -> (r: bool)
    ensures
        r == same_identities(*a, *b),
{
    match (a, b) {
        (Some(a), Some(b)) => a.sequence == b.sequence && a.attestation_digest
            == b.attestation_digest,
        (None, None) => true,
        _ => false,
    }
}

pub open spec fn same_preparations(
    a: Option<WorkflowHostPreparationPolicyV1>,
    b: Option<WorkflowHostPreparationPolicyV1>,
) -> bool {
    match (a, b) {
        (Some(a), Some(b)) => a.schema_version == b.schema_version && a.adapter_id == b.adapter_id
            && a.platform@ == b.platform@,
        (None, None) => true,
        _ => false,
    }
}

fn preparations_equal(
    a: &Option<WorkflowHostPreparationPolicyV1>,
    b: &Option<WorkflowHostPreparationPolicyV1>,
) -> (r: bool)
    ensures
        r == same_preparations(*a, *b),
{
    match (a, b) {
        (Some(a), Some(b)) => a.schema_version == b.schema_version && a.adapter_id == b.adapter_id
            && same_text(a.platform.as_str(), b.platform.as_str()),
        (None, None) => true,
        _ => false,
    }
}

pub open spec fn same_states(
    a: Option<WorkflowOperationStateV1>,
    b: Option<WorkflowOperationStateV1>,
) -> bool {
    match (a, b) {
        (Some(a), Some(b)) => a.same_as(b),
        (None, None) => true,
        _ => false,
    }
}

fn states_equal(
    a: &Option<WorkflowOperationStateV1>,
    b: &Option<WorkflowOperationStateV1>,
) -> (r: bool)
    ensures
        r == same_states(*a, *b),
{
    match (a, b) {
        (Some(a), Some(b)) => a.same(b),
        (None, None) => true,
        _ => false,
    }
}

pub open spec fn same_inputs(a: Seq<WorkflowLeaseInputV1>, b: Seq<WorkflowLeaseInputV1>) -> bool {
    a.len() == b.len() && forall|i: int| 0 <= i < a.len() ==> (#[trigger] a[i]).same_as(b[i])
}

fn inputs_equal(a: &Vec<WorkflowLeaseInputV1>, b: &Vec<WorkflowLeaseInputV1>) -> (r: bool)
    ensures
        r == same_inputs(a@, b@),
{
    if a.len() != b.len() {
        return false;
    }
    let mut i: usize = 0;
    while i < a.len()
        invariant
            i <= a.len(),
            a.len() == b.len(),
            forall|k: int| 0 <= k < i ==> (#[trigger] a@[k]).same_as(b@[k]),
        decreases a.len() - i,
    {
        if a[i].node_id != b[i].node_id || a[i].artifact_kind != b[i].artifact_kind
            || a[i].output_digest != b[i].output_digest {
            assert(!a@[i as int].same_as(b@[i as int]));
            return false;
        }
        i += 1;
    }
    true
}

fn kinds_equal(a: &Vec<WorkflowArtifactKindV1>, b: &Vec<WorkflowArtifactKindV1>) -> (same: bool)
    ensures
        same == (a@ == b@),
{
    if a.len() != b.len() {
        return false;
    }
    let mut i: usize = 0;
    while i < a.len()
        invariant
            i <= a.len(),
            a.len() == b.len(),
            forall|k: int| 0 <= k < i ==> a@[k] == b@[k],
        decreases a.len() - i,
    {
        if a[i] != b[i] {
            assert(a@[i as int] != b@[i as int]);
            return false;
        }
        i += 1;
    }
    assert(a@ =~= b@);
    true
}

impl Clone for WorkflowLeaseV1 {
    fn clone(&self) -> (r: WorkflowLeaseV1)
        ensures
            r.same_execution(*self),
            r.expires_at_ms == self.expires_at_ms,
            r.lease_digest == self.lease_digest,
            r.copies(*self),
    {
        WorkflowLeaseV1 {
            schema_version: self.schema_version,
            lease_id: self.lease_id,
            lease_generation: self.lease_generation,
            request_id: self.request_id,
            attempt_id: self.attempt_id,
            project_id: self.project_id.clone(),
            source_sha: self.source_sha.clone(),
            source_identity: match &self.source_identity {
                Some(value) => Some(value.clone()),
                None => None,
            },
            workflow_policy_digest: self.workflow_policy_digest.clone(),
            preparation_key: self.preparation_key.clone(),
            node_id: self.node_id.clone(),
            node_kind: self.node_kind,
            profile_id: self.profile_id.clone(),
            adapter_id: self.adapter_id,
            worker_pool: self.worker_pool,
            network_class: self.network_class,
            cache_class: self.cache_class,
            timeout_ms: self.timeout_ms,
            resources: self.resources,
            host_preparation: match &self.host_preparation {
                Some(value) => Some(value.clone()),
                None => None,
            },
            operation_state: match &self.operation_state {
                Some(state) => Some(state.clone()),
                None => None,
            },
            input_contracts: clone_kinds(&self.input_contracts),
            input_artifacts: clone_inputs(&self.input_artifacts),
            output_contract: self.output_contract,
            expected_input_digest: self.expected_input_digest.clone(),
            worker_id: self.worker_id.clone(),
            host_id: self.host_id.clone(),
            leased_at_ms: self.leased_at_ms,
            expires_at_ms: self.expires_at_ms,
            lease_digest: self.lease_digest.clone(),
        }
    }
}

impl WorkflowLeaseV1 {
    /// Another lease is a copy of this one.
    pub open spec fn copies(self, other: WorkflowLeaseV1) -> bool {
        &&& self == (WorkflowLeaseV1 {
            operation_state: self.operation_state,
            input_contracts: self.input_contracts,
            input_artifacts: self.input_artifacts,
            ..other
        })
        &&& self.input_contracts@ == other.input_contracts@
        &&& self.input_artifacts@ == other.input_artifacts@
        &&& match (self.operation_state, other.operation_state) {
            (Some(a), Some(b)) => a == (WorkflowOperationStateV1 {
                consumer_nodes: a.consumer_nodes,
                ..b
            }) && a.consumer_nodes@ == b.consumer_nodes@,
            (None, None) => true,
            _ => false,
        }
    }

    /// What the state that a lease carries must belong to.
    pub open spec fn owner(self) -> StateOwner {
        state_owner(
            self.attempt_id,
            self.project_id,
            self.source_sha,
            self.workflow_policy_digest,
            self.preparation_key,
            self.worker_id@,
            self.host_id@,
        )
    }

    /// Another lease is for the same execution: they differ at most in when they expire, and in
    /// their digests.
    pub open spec fn same_execution(self, other: WorkflowLeaseV1) -> bool {
        &&& self.schema_version == other.schema_version
        &&& self.lease_id == other.lease_id
        &&& self.lease_generation == other.lease_generation
        &&& self.request_id == other.request_id
        &&& self.attempt_id == other.attempt_id
        &&& self.project_id@ == other.project_id@
        &&& self.source_sha@ == other.source_sha@
        &&& same_identities(self.source_identity, other.source_identity)
        &&& self.workflow_policy_digest@ == other.workflow_policy_digest@
        &&& self.preparation_key@ == other.preparation_key@
        &&& self.node_id@ == other.node_id@
        &&& self.node_kind == other.node_kind
        &&& self.profile_id@ == other.profile_id@
        &&& self.adapter_id == other.adapter_id
        &&& self.worker_pool == other.worker_pool
        &&& self.network_class == other.network_class
        &&& self.cache_class == other.cache_class
        &&& self.timeout_ms == other.timeout_ms
        &&& self.resources == other.resources
        &&& same_preparations(self.host_preparation, other.host_preparation)
        &&& same_states(self.operation_state, other.operation_state)
        &&& self.input_contracts@ == other.input_contracts@
        &&& same_inputs(self.input_artifacts@, other.input_artifacts@)
        &&& self.output_contract == other.output_contract
        &&& self.expected_input_digest@ == other.expected_input_digest@
        &&& self.worker_id@ == other.worker_id@
        &&& self.host_id@ == other.host_id@
        &&& self.leased_at_ms == other.leased_at_ms
    }

    fn is_same_execution(&self, other: &WorkflowLeaseV1) -> (r: bool)
        ensures
            r == self.same_execution(*other),
    {
        self.schema_version == other.schema_version
            && self.lease_id == other.lease_id
            && self.lease_generation == other.lease_generation
            && self.request_id == other.request_id
            && self.attempt_id == other.attempt_id
            && same_text(self.project_id.as_str(), other.project_id.as_str())
            && same_text(self.source_sha.as_str(), other.source_sha.as_str())
            && identities_equal(&self.source_identity, &other.source_identity)
            && same_text(self.workflow_policy_digest.as_str(), other.workflow_policy_digest.as_str())
            && same_text(self.preparation_key.as_str(), other.preparation_key.as_str())
            && same_text(self.node_id.as_str(), other.node_id.as_str())
            && self.node_kind == other.node_kind
            && same_text(self.profile_id.as_str(), other.profile_id.as_str())
            && self.adapter_id == other.adapter_id
            && self.worker_pool == other.worker_pool
            && self.network_class == other.network_class
            && self.cache_class == other.cache_class
            && self.timeout_ms == other.timeout_ms
            && self.resources == other.resources
            && preparations_equal(&self.host_preparation, &other.host_preparation)
            && states_equal(&self.operation_state, &other.operation_state)
            && kinds_equal(&self.input_contracts, &other.input_contracts)
            && inputs_equal(&self.input_artifacts, &other.input_artifacts)
            && self.output_contract == other.output_contract
            && same_text(self.expected_input_digest.as_str(), other.expected_input_digest.as_str())
            && same_text(self.worker_id.as_str(), other.worker_id.as_str())
            && same_text(self.host_id.as_str(), other.host_id.as_str())
            && self.leased_at_ms == other.leased_at_ms
    }

    /// Whether two valid leases are for the same execution.
    pub fn same_execution_as(
        &self,
        other: &WorkflowLeaseV1,
    ) -> (r: Result<bool, WorkflowContractError>)
        ensures
            match r {
                Ok(same) => self.fault() is None && other.fault() is None && same
                    == self.same_execution(*other),
                Err(error) => if self.fault() is Some {
                    self.fault() == Some(error)
                } else {
                    other.fault() == Some(error)
                },
            },
    {
        match self.validate() {
            Err(error) => return Err(error),
            Ok(()) => {},
        }
        match other.validate() {
            Err(error) => return Err(error),
            Ok(()) => {},
        }
        Ok(self.is_same_execution(other))
    }

    /// A lease of a node under a profile, whose digest is not taken yet.
    pub open spec fn drafted(
        lease_id: Uuid,
        lease_generation: u32,
        request_id: Uuid,
        attempt_id: Uuid,
        project_id: ProjectId,
        source_sha: GitCommitId,
        source_sequence: u64,
        source_attestation_digest: EvidenceDigest,
        workflow_policy_digest: EvidenceDigest,
        preparation_key: EvidenceDigest,
        node: WorkflowNodeV1,
        profile: WorkflowExecutionProfileV1,
        host_preparation: Option<WorkflowHostPreparationPolicyV1>,
        input_artifacts: Vec<WorkflowLeaseInputV1>,
        expected_input_digest: EvidenceDigest,
        worker_id: String,
        host_id: String,
        leased_at_ms: i64,
        expires_at_ms: i64,
    ) -> WorkflowLeaseV1 {
        WorkflowLeaseV1 {
            schema_version: WORKFLOW_LEASE_SCHEMA_VERSION,
            lease_id,
            lease_generation,
            request_id,
            attempt_id,
            project_id,
            source_sha,
            source_identity: Some(
                WorkflowSourceIdentityV1 {
                    sequence: source_sequence,
                    attestation_digest: source_attestation_digest,
                },
            ),
            workflow_policy_digest,
            preparation_key,
            node_id: node.node_id,
            node_kind: node.kind,
            profile_id: profile.profile_id,
            adapter_id: profile.adapter_id,
            worker_pool: profile.worker_pool,
            network_class: profile.network_class,
            cache_class: profile.cache_class,
            timeout_ms: profile.timeout_ms,
            resources: profile.resources,
            host_preparation,
            operation_state: None,
            input_contracts: node.input_contracts,
            input_artifacts,
            output_contract: node.output_contract,
            expected_input_digest,
            worker_id,
            host_id,
            leased_at_ms,
            expires_at_ms,
            lease_digest: preparation_key,
        }
    }

    /// The lease is a draft with its digest taken.
    pub open spec fn seals(self, draft: WorkflowLeaseV1) -> bool {
        &&& self == (WorkflowLeaseV1 {
            lease_digest: self.lease_digest,
            input_contracts: self.input_contracts,
            ..draft
        })
        &&& self.input_contracts@ == draft.input_contracts@
    }

    /// What comes of sealing a draft.
    pub open spec fn made(
        draft: WorkflowLeaseV1,
        r: Result<WorkflowLeaseV1, WorkflowContractError>,
    ) -> bool {
        match r {
            Ok(lease) => lease.fault() is None && lease.seals(draft),
            Err(error) => if document_digest(draft.sealed_json()) is None {
                error is CanonicalEncoding
            } else {
                !draft.well_formed() && error is InvalidLease
            },
        }
    }

    /// A lease of a node under a profile.
    pub fn new(
        lease_id: Uuid,
        lease_generation: u32,
        request_id: Uuid,
        attempt_id: Uuid,
        project_id: ProjectId,
        source_sha: GitCommitId,
        source_sequence: u64,
        source_attestation_digest: EvidenceDigest,
        workflow_policy_digest: EvidenceDigest,
        preparation_key: EvidenceDigest,
        node: &WorkflowNodeV1,
        profile: &WorkflowExecutionProfileV1,
        host_preparation: Option<WorkflowHostPreparationPolicyV1>,
        input_artifacts: Vec<WorkflowLeaseInputV1>,
        expected_input_digest: EvidenceDigest,
        worker_id: String,
        host_id: String,
        leased_at_ms: i64,
        expires_at_ms: i64,
    ) -> (r: Result<WorkflowLeaseV1, WorkflowContractError>)
        ensures
            ({
                let draft = WorkflowLeaseV1::drafted(
                    lease_id,
                    lease_generation,
                    request_id,
                    attempt_id,
                    project_id,
                    source_sha,
                    source_sequence,
                    source_attestation_digest,
                    workflow_policy_digest,
                    preparation_key,
                    *node,
                    *profile,
                    host_preparation,
                    input_artifacts,
                    expected_input_digest,
                    worker_id,
                    host_id,
                    leased_at_ms,
                    expires_at_ms,
                );
                WorkflowLeaseV1::made(draft, r)
            }),
    {
        let lease_digest = preparation_key.clone();
        let mut lease = WorkflowLeaseV1 {
            schema_version: WORKFLOW_LEASE_SCHEMA_VERSION,
            lease_id,
            lease_generation,
            request_id,
            attempt_id,
            project_id,
            source_sha,
            source_identity: Some(
                WorkflowSourceIdentityV1 {
                    sequence: source_sequence,
                    attestation_digest: source_attestation_digest,
                },
            ),
            workflow_policy_digest,
            preparation_key,
            node_id: node.node_id.clone(),
            node_kind: node.kind,
            profile_id: profile.profile_id.clone(),
            adapter_id: profile.adapter_id,
            worker_pool: profile.worker_pool,
            network_class: profile.network_class,
            cache_class: profile.cache_class,
            timeout_ms: profile.timeout_ms,
            resources: profile.resources,
            host_preparation,
            operation_state: None,
            input_contracts: clone_kinds(&node.input_contracts),
            input_artifacts,
            output_contract: node.output_contract,
            expected_input_digest,
            worker_id,
            host_id,
            leased_at_ms,
            expires_at_ms,
            lease_digest,
        };
        let ghost draft = WorkflowLeaseV1::drafted(
        lease_id,
        lease_generation,
        request_id,
        attempt_id,
        project_id,
        source_sha,
        source_sequence,
        source_attestation_digest,
        workflow_policy_digest,
        preparation_key,
        *node,
        *profile,
        host_preparation,
        input_artifacts,
        expected_input_digest,
        worker_id,
        host_id,
        leased_at_ms,
        expires_at_ms,
    );
        proof {
            lemma_same_but_digest(draft, lease);
        }
        match lease.calculate_digest() {
            Err(error) => return Err(error),
            Ok(digest) => {
                lease.lease_digest = digest;
            },
        }
        proof {
            lemma_same_but_digest(draft, lease);
        }
        match lease.validate() {
            Err(error) => Err(error),
            Ok(()) => Ok(lease),
        }
    }

    /// The source that a lease works on. Leases without one stay readable but start no work.
    pub fn required_source_identity(&self) -> (r: Result<
        &WorkflowSourceIdentityV1,
        WorkflowContractError,
    >)
        ensures
            match r {
                Ok(identity) => self.fault() is None && self.source_identity == Some(*identity),
                Err(error) => if self.fault() is Some {
                    self.fault() == Some(error)
                } else {
                    self.source_identity is None && error is MissingLeaseSourceIdentity
                },
            },
    {
        match self.validate() {
            Err(error) => Err(error),
            Ok(()) => match &self.source_identity {
                Some(identity) => Ok(identity),
                None => Err(WorkflowContractError::MissingLeaseSourceIdentity),
            },
        }
    }

    /// What was handed in with a lease. Leases without it stay readable but start no work.
    pub fn required_input_artifacts(&self) -> (r: Result<
        &Vec<WorkflowLeaseInputV1>,
        WorkflowContractError,
    >)
        ensures
            match r {
                Ok(inputs) => self.fault() is None && *inputs == self.input_artifacts && (
                self.input_contracts@.len() == 0 || self.input_artifacts@.len()
                    == self.input_contracts@.len()),
                Err(error) => if self.fault() is Some {
                    self.fault() == Some(error)
                } else {
                    self.input_contracts@.len() > 0 && self.input_artifacts@.len()
                        != self.input_contracts@.len() && error is MissingLeaseInputArtifacts
                },
            },
    {
        match self.validate() {
            Err(error) => Err(error),
            Ok(()) => if self.input_contracts.len() == 0 || self.input_artifacts.len()
                == self.input_contracts.len() {
                Ok(&self.input_artifacts)
            } else {
                Err(WorkflowContractError::MissingLeaseInputArtifacts)
            },
        }
    }

    /// The lease with a later end, sealed anew. It is for the same execution.
    pub fn renewed(&self, expires_at_ms: i64) -> (r: Result<WorkflowLeaseV1, WorkflowContractError>)
        ensures
            match r {
                Ok(lease) => {
                    &&& self.fault() is None
                    &&& self.expires_at_ms < expires_at_ms
                    &&& lease.expires_at_ms == expires_at_ms
                    &&& lease.fault() is None
                    &&& lease.same_execution(*self)
                },
                Err(error) => if self.fault() is Some {
                    self.fault() == Some(error)
                } else if expires_at_ms <= self.expires_at_ms {
                    error is InvalidLease
                } else {
                    error is CanonicalEncoding && document_digest(
                        (WorkflowLeaseV1 { expires_at_ms, ..*self }).sealed_json(),
                    ) is None
                },
            },
    {
        match self.validate() {
            Err(error) => return Err(error),
            Ok(()) => {},
        }
        if expires_at_ms <= self.expires_at_ms {
            return Err(WorkflowContractError::InvalidLease);
        }
        let mut renewed = self.clone();
        renewed.expires_at_ms = expires_at_ms;
        let ghost draft = renewed;
        proof {
            lemma_copy(draft, WorkflowLeaseV1 { expires_at_ms, ..*self });
            lemma_later_end(*self, expires_at_ms);
        }
        match renewed.calculate_digest() {
            Err(error) => return Err(error),
            Ok(digest) => {
                renewed.lease_digest = digest;
            },
        }
        proof {
            lemma_same_but_digest(draft, renewed);
        }
        match renewed.validate() {
            Err(error) => Err(error),
            Ok(()) => Ok(renewed),
        }
    }

    /// The lease with state that its node shares, sealed anew.
    pub fn with_operation_state(self, operation_state: WorkflowOperationStateV1) -> (r: Result<
        WorkflowLeaseV1,
        WorkflowContractError,
    >)
        ensures
            ({
                let carrying = WorkflowLeaseV1 { operation_state: Some(operation_state), ..self };
                match r {
                    Ok(lease) => {
                        &&& lease == (WorkflowLeaseV1 {
                            lease_digest: lease.lease_digest,
                            ..carrying
                        })
                        &&& lease.fault() is None
                    },
                    Err(error) => if document_digest(carrying.sealed_json()) is None {
                        error is CanonicalEncoding
                    } else {
                        !carrying.well_formed() && error is InvalidLease
                    },
                }
            }),
    {
        let mut lease = self;
        lease.operation_state = Some(operation_state);
        let ghost draft = lease;
        match lease.calculate_digest() {
            Err(error) => return Err(error),
            Ok(digest) => {
                lease.lease_digest = digest;
            },
        }
        proof {
            lemma_same_but_digest(draft, lease);
        }
        match lease.validate() {
            Err(error) => Err(error),
            Ok(()) => Ok(lease),
        }
    }
}

/// The digest of a lease is no part of what it seals, nor of its form.
#[verifier::spinoff_prover]
proof fn lemma_same_but_digest(a: WorkflowLeaseV1, b: WorkflowLeaseV1)
    requires
        b == (WorkflowLeaseV1 {
            lease_digest: b.lease_digest,
            input_contracts: b.input_contracts,
            ..a
        }),
        b.input_contracts@ == a.input_contracts@,
    ensures
        a.sealed_json() == b.sealed_json(),
        a.well_formed() == b.well_formed(),
{
}

/// What is copied seals the same, and has the same form.
#[verifier::spinoff_prover]
proof fn lemma_copy(a: WorkflowLeaseV1, b: WorkflowLeaseV1)
    requires
        a.copies(b),
    ensures
        a.sealed_json() == b.sealed_json(),
        a.well_formed() == b.well_formed(),
{
    match (a.operation_state, b.operation_state) {
        (Some(x), Some(y)) => {
            assert(x.json() == y.json());
            assert(x.key_json(a.owner()) == y.key_json(b.owner()));
        },
        _ => {},
    }
}

/// A later end keeps the form of a lease.
#[verifier::spinoff_prover]
proof fn lemma_later_end(lease: WorkflowLeaseV1, expires_at_ms: i64)
    requires
        lease.well_formed(),
        lease.expires_at_ms < expires_at_ms,
    ensures
        (WorkflowLeaseV1 { expires_at_ms, ..lease }).well_formed(),
{
}

/// To be for the same execution is the same for both leases, and goes from lease to lease: however
/// often a lease is renewed, it is for the execution of the first.
pub proof fn law_same_execution_is_an_equivalence(
    a: WorkflowLeaseV1,
    b: WorkflowLeaseV1,
    c: WorkflowLeaseV1,
)
    ensures
        a.same_execution(a),
        a.same_execution(b) ==> b.same_execution(a),
        a.same_execution(b) && b.same_execution(c) ==> a.same_execution(c),
{
    if a.same_execution(b) {
        assert(same_inputs(b.input_artifacts@, a.input_artifacts@)) by {
            assert forall|i: int| 0 <= i < b.input_artifacts@.len() implies (
            #[trigger] b.input_artifacts@[i]).same_as(a.input_artifacts@[i]) by {
                assert(a.input_artifacts@[i].same_as(b.input_artifacts@[i]));
            }
        }
        if b.same_execution(c) {
            assert forall|i: int| 0 <= i < a.input_artifacts@.len() implies (
            #[trigger] a.input_artifacts@[i]).same_as(c.input_artifacts@[i]) by {
                assert(b.input_artifacts@[i].same_as(c.input_artifacts@[i]));
            }
        }
    }
}

/// What is written of a valid lease is read back as that lease, whether it carries a source and its
/// inputs or not, and only a valid lease is read from bytes, which are its own.
pub proof fn law_leases_are_read_back(
    lease: WorkflowLeaseV1,
    written: Vec<u8>,
    r: Result<WorkflowLeaseV1, WorkflowContractError>,
)
    requires
        lease.encoded(Ok(written)),
        lease.decoded(written@, r),
    ensures
        r == Ok::<_, WorkflowContractError>(lease),
{
}

/// A lease that is read from bytes is valid, and is written as those bytes.
pub proof fn law_read_leases_are_written_back(
    parsed: WorkflowLeaseV1,
    bytes: Seq<u8>,
    lease: WorkflowLeaseV1,
    written: Result<Vec<u8>, WorkflowContractError>,
)
    requires
        parsed.decoded(bytes, Ok(lease)),
        lease.encoded(written),
    ensures
        lease.fault() is None,
        written matches Ok(written) && written@ == bytes,
{
}

/// A name is among those of some members.
#[verifier::opaque]
pub open spec fn has_member(members: Seq<(Seq<char>, Seq<char>)>, name: Seq<char>) -> bool {
    exists|i: int| 0 <= i < members.len() && (#[trigger] members[i]).0 == name
}

broadcast proof fn lemma_has_pushed_member(
    members: Seq<(Seq<char>, Seq<char>)>,
    member: (Seq<char>, Seq<char>),
    name: Seq<char>,
)
    ensures
        #[trigger] has_member(members.push(member), name) == (has_member(members, name) || member.0
            == name),
{
    reveal(has_member);
    let pushed = members.push(member);
    if has_member(members, name) {
        let i = choose|i: int| 0 <= i < members.len() && (#[trigger] members[i]).0 == name;
        assert(pushed[i].0 == name);
    }
    if member.0 == name {
        assert(pushed[members.len() as int].0 == name);
    }
}

broadcast proof fn lemma_has_optional_member(
    members: Seq<(Seq<char>, Seq<char>)>,
    added: Seq<char>,
    value: Option<Seq<char>>,
    name: Seq<char>,
)
    ensures
        #[trigger] has_member(with_member(members, added, value), name) == (has_member(members, name)
            || (value is Some && added == name)),
{
    broadcast use lemma_has_pushed_member;

}

/// A name that a lease may leave out.
pub open spec fn optional_name(name: Seq<char>) -> bool {
    name == "source_identity"@ || name == "host_preparation"@ || name == "operation_state"@ || name
        == "input_artifacts"@
}

#[verifier::spinoff_prover]
proof fn lemma_optional_names_with_source(
    lease: WorkflowLeaseV1,
    members: Seq<(Seq<char>, Seq<char>)>,
    name: Seq<char>,
)
    requires
        optional_name(name),
    ensures
        has_member(lease.with_source(members), name) == (has_member(members, name) || (name == "source_identity"@
            && lease.source_identity is Some)),
{
    broadcast use {lemma_has_pushed_member, lemma_has_optional_member};

    reveal_strlit("schema_version");
    reveal_strlit("lease_id");
    reveal_strlit("lease_generation");
    reveal_strlit("request_id");
    reveal_strlit("attempt_id");
    reveal_strlit("project_id");
    reveal_strlit("source_sha");
    reveal_strlit("source_identity");
    reveal_strlit("host_preparation");
    reveal_strlit("operation_state");
    reveal_strlit("input_artifacts");
    assert("schema_version"@.len() == 14
        && "lease_id"@.len() == 8
        && "lease_generation"@.len() == 16
        && "request_id"@.len() == 10
        && "attempt_id"@.len() == 10
        && "project_id"@.len() == 10
        && "source_sha"@.len() == 10
        && "source_identity"@.len() == 15
        && "host_preparation"@.len() == 16
        && "operation_state"@.len() == 15
        && "input_artifacts"@.len() == 15);
    assert("source_identity"@[0] != "operation_state"@[0]);
    assert("source_identity"@[0] != "input_artifacts"@[0]);
    assert("host_preparation"@[0] != "lease_generation"@[0]);
    assert("operation_state"@[0] != "input_artifacts"@[0]);
}

#[verifier::spinoff_prover]
proof fn lemma_optional_names_with_node(
    lease: WorkflowLeaseV1,
    members: Seq<(Seq<char>, Seq<char>)>,
    name: Seq<char>,
)
    requires
        optional_name(name),
    ensures
        has_member(lease.with_node(members), name) == (has_member(members, name)),
{
    broadcast use {lemma_has_pushed_member, lemma_has_optional_member};

    reveal_strlit("workflow_policy_digest");
    reveal_strlit("preparation_key");
    reveal_strlit("node_id");
    reveal_strlit("node_kind");
    reveal_strlit("profile_id");
    reveal_strlit("adapter_id");
    reveal_strlit("worker_pool");
    reveal_strlit("network_class");
    reveal_strlit("cache_class");
    reveal_strlit("timeout_ms");
    reveal_strlit("resources");
    reveal_strlit("source_identity");
    reveal_strlit("host_preparation");
    reveal_strlit("operation_state");
    reveal_strlit("input_artifacts");
    assert("workflow_policy_digest"@.len() == 22
        && "preparation_key"@.len() == 15
        && "node_id"@.len() == 7
        && "node_kind"@.len() == 9
        && "profile_id"@.len() == 10
        && "adapter_id"@.len() == 10
        && "worker_pool"@.len() == 11
        && "network_class"@.len() == 13
        && "cache_class"@.len() == 11
        && "timeout_ms"@.len() == 10
        && "resources"@.len() == 9
        && "source_identity"@.len() == 15
        && "host_preparation"@.len() == 16
        && "operation_state"@.len() == 15
        && "input_artifacts"@.len() == 15);
    assert("source_identity"@[0] != "preparation_key"@[0]);
    assert("source_identity"@[0] != "operation_state"@[0]);
    assert("source_identity"@[0] != "input_artifacts"@[0]);
    assert("operation_state"@[0] != "preparation_key"@[0]);
    assert("operation_state"@[0] != "input_artifacts"@[0]);
    assert("input_artifacts"@[0] != "preparation_key"@[0]);
}

#[verifier::spinoff_prover]
proof fn lemma_optional_names_with_state(
    lease: WorkflowLeaseV1,
    members: Seq<(Seq<char>, Seq<char>)>,
    name: Seq<char>,
)
    requires
        optional_name(name),
    ensures
        has_member(lease.with_state(members), name) == (has_member(members, name) || (name == "host_preparation"@
            && lease.host_preparation is Some) || (name == "operation_state"@
            && lease.operation_state is Some)),
{
    broadcast use {lemma_has_pushed_member, lemma_has_optional_member};

    reveal_strlit("host_preparation");
    reveal_strlit("operation_state");
    reveal_strlit("source_identity");
    reveal_strlit("input_artifacts");
    assert("host_preparation"@.len() == 16
        && "operation_state"@.len() == 15
        && "source_identity"@.len() == 15
        && "input_artifacts"@.len() == 15);
    assert("source_identity"@[0] != "operation_state"@[0]);
    assert("source_identity"@[0] != "input_artifacts"@[0]);
    assert("operation_state"@[0] != "input_artifacts"@[0]);
}

#[verifier::spinoff_prover]
proof fn lemma_optional_names_with_terms(
    lease: WorkflowLeaseV1,
    members: Seq<(Seq<char>, Seq<char>)>,
    name: Seq<char>,
)
    requires
        optional_name(name),
    ensures
        has_member(lease.with_terms(members), name) == (has_member(members, name) || (name == "input_artifacts"@
            && lease.input_artifacts@.len() > 0)),
{
    broadcast use {lemma_has_pushed_member, lemma_has_optional_member};

    reveal_strlit("input_contracts");
    reveal_strlit("input_artifacts");
    reveal_strlit("output_contract");
    reveal_strlit("expected_input_digest");
    reveal_strlit("worker_id");
    reveal_strlit("host_id");
    reveal_strlit("leased_at_ms");
    reveal_strlit("expires_at_ms");
    reveal_strlit("source_identity");
    reveal_strlit("host_preparation");
    reveal_strlit("operation_state");
    assert("input_contracts"@.len() == 15
        && "input_artifacts"@.len() == 15
        && "output_contract"@.len() == 15
        && "expected_input_digest"@.len() == 21
        && "worker_id"@.len() == 9
        && "host_id"@.len() == 7
        && "leased_at_ms"@.len() == 12
        && "expires_at_ms"@.len() == 13
        && "source_identity"@.len() == 15
        && "host_preparation"@.len() == 16
        && "operation_state"@.len() == 15);
    assert("source_identity"@[0] != "input_contracts"@[0]);
    assert("source_identity"@[0] != "input_artifacts"@[0]);
    assert("source_identity"@[0] != "output_contract"@[0]);
    assert("source_identity"@[0] != "operation_state"@[0]);
    assert("operation_state"@[0] != "input_contracts"@[0]);
    assert("operation_state"@[0] != "input_artifacts"@[0]);
    assert("operation_state"@[1] != "output_contract"@[1]);
    assert("input_artifacts"@[6] != "input_contracts"@[6]);
    assert("input_artifacts"@[0] != "output_contract"@[0]);
}

proof fn lemma_optional_names(lease: WorkflowLeaseV1, name: Seq<char>)
    requires
        optional_name(name),
    ensures
        has_member(lease.members(), name) == ((name == "source_identity"@
            && lease.source_identity is Some) || (name == "host_preparation"@
            && lease.host_preparation is Some) || (name == "operation_state"@
            && lease.operation_state is Some) || (name == "input_artifacts"@
            && lease.input_artifacts@.len() > 0)),
{
    broadcast use lemma_has_pushed_member;

    let source = lease.with_source(no_members());
    let node = lease.with_node(source);
    let state = lease.with_state(node);
    lemma_optional_names_with_source(lease, no_members(), name);
    lemma_optional_names_with_node(lease, source, name);
    lemma_optional_names_with_state(lease, node, name);
    lemma_optional_names_with_terms(lease, state, name);
    reveal_strlit("lease_digest");
    reveal_strlit("source_identity");
    reveal_strlit("host_preparation");
    reveal_strlit("operation_state");
    reveal_strlit("input_artifacts");
    assert("lease_digest"@.len() == 12
        && "source_identity"@.len() == 15
        && "host_preparation"@.len() == 16
        && "operation_state"@.len() == 15
        && "input_artifacts"@.len() == 15);
    assert(!has_member(no_members(), name)) by {
        reveal(has_member);
    }
}

/// What a lease does not carry is not written: neither a source, nor a policy for the host, nor
/// shared state, nor inputs.
pub proof fn law_absent_fields_are_not_written(lease: WorkflowLeaseV1)
    ensures
        has_member(lease.members(), "source_identity"@) == (lease.source_identity is Some),
        has_member(lease.members(), "host_preparation"@) == (lease.host_preparation is Some),
        has_member(lease.members(), "operation_state"@) == (lease.operation_state is Some),
        has_member(lease.members(), "input_artifacts"@) == (lease.input_artifacts@.len() > 0),
{
    lemma_optional_names(lease, "source_identity"@);
    lemma_optional_names(lease, "host_preparation"@);
    lemma_optional_names(lease, "operation_state"@);
    lemma_optional_names(lease, "input_artifacts"@);
    reveal_strlit("source_identity");
    reveal_strlit("host_preparation");
    reveal_strlit("operation_state");
    reveal_strlit("input_artifacts");
    assert("source_identity"@.len() == 15
        && "host_preparation"@.len() == 16
        && "operation_state"@.len() == 15
        && "input_artifacts"@.len() == 15);
    assert("source_identity"@[0] != "operation_state"@[0]);
    assert("source_identity"@[0] != "input_artifacts"@[0]);
    assert("operation_state"@[0] != "input_artifacts"@[0]);
}

/// A lease is made with a policy for the host only for the node that prepares it, and in the network
/// class that the policy needs: what the sealing is taken over being encoded, anything else is an
/// invalid lease.
pub proof fn law_host_preparation_fits_its_node(
    draft: WorkflowLeaseV1,
    policy: WorkflowHostPreparationPolicyV1,
    r: Result<WorkflowLeaseV1, WorkflowContractError>,
)
    requires
        WorkflowLeaseV1::made(draft, r),
        draft.host_preparation == Some(policy),
        !(draft.node_kind is HostPrepare) || draft.network_class != policy.network(),
        document_digest(draft.sealed_json()) is Some,
    ensures
        r == Err::<WorkflowLeaseV1, _>(WorkflowContractError::InvalidLease),
{
    match r {
        Ok(lease) => {
            lemma_same_but_digest(draft, lease);
        },
        Err(_) => {},
    }
}

/// A lease that is made is valid, names the source it works on, and shares no state yet.
pub proof fn law_made_leases_name_their_source(draft: WorkflowLeaseV1, lease: WorkflowLeaseV1)
    requires
        WorkflowLeaseV1::made(draft, Ok(lease)),
        draft.source_identity is Some,
        draft.operation_state is None,
    ensures
        lease.fault() is None,
        lease.operation_state is None,
        lease.source_identity matches Some(identity) && identity.sequence >= 1,
{
}

} // verus!
