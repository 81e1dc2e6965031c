//! Workflow policies: the nodes of a workflow, the profiles that they run under, and what a policy
//! must keep to.

use vstd::prelude::*;
use super::identifiers::{digest_document, document_digest, EvidenceDigest};
use crate::json::{
    json_array, json_nat, json_object, json_optional, json_string, json_strings, no_members,
    JsonArray, JsonObject,
};
use crate::text::{
    bounded_token, characters, is_alphanumeric, is_bounded_token, is_text_before, same_text,
    text_before, text_of, utf8, ByteClass,
};

verus! {

pub const WORKFLOW_POLICY_SCHEMA_VERSION: u16 = 1;

pub const WORKFLOW_LEASE_SCHEMA_VERSION: u16 = 1;

pub const WORKFLOW_NODE_RECEIPT_SCHEMA_VERSION: u16 = 1;

pub const WORKFLOW_CLEANUP_RECEIPT_SCHEMA_VERSION: u16 = 1;

pub const WORKFLOW_REDUCTION_RECEIPT_SCHEMA_VERSION: u16 = 1;

pub const WORKFLOW_HOST_PREPARATION_SCHEMA_VERSION: u16 = 1;

pub const WORKFLOW_OPERATION_STATE_SCHEMA_VERSION: u16 = 1;

pub const MAX_WORKFLOW_NODES: usize = 64;

const MAX_IDENTITY_BYTES: usize = 96;

const MIN_MEMORY_BYTES: u64 = 67_108_864;

const MAX_MEMORY_BYTES: u64 = 68_719_476_736;

const MAX_SCRATCH_BYTES: u64 = 1_099_511_627_776;

const MAX_OUTPUT_BYTES: u64 = 68_719_476_736;

/// Why a workflow document is refused.
#[derive(Debug, PartialEq, Eq)]
pub enum WorkflowContractError {
    UnsupportedSchemaVersion(u16),
    InvalidIdentifier(&'static str),
    InvalidDisplayName,
    InvalidWorkflowBounds,
    DuplicateProfile(WorkflowProfileId),
    MissingProfile(WorkflowProfileId),
    DuplicateNode(WorkflowNodeId),
    MissingDependency { node: WorkflowNodeId, dependency: WorkflowNodeId },
    InvalidDependencies(WorkflowNodeId),
    CyclicGraph,
    InvalidNodeCardinality(WorkflowNodeKindV1),
    ProfileKindMismatch(WorkflowNodeId),
    ArtifactContractMismatch(WorkflowNodeId),
    InvalidActivation(WorkflowNodeId),
    InvalidTimeout,
    InvalidExecutionProfile,
    InvalidResourceEnvelope,
    InvalidHostPreparationPolicy,
    InvalidOperationState,
    InvalidLease,
    MissingLeaseSourceIdentity,
    MissingLeaseInputArtifacts,
    InvalidNodeReceipt,
    InvalidCleanupReceipt,
    InvalidReductionReceipt,
    NoncanonicalDocument,
    CanonicalEncoding,
}

/// The first of two faults.
pub open spec fn either<E>(first: Option<E>, second: Option<E>) -> Option<E> {
    if first is Some {
        first
    } else {
        second
    }
}

/// Lowercase letters, digits, hyphens, dots and underscores, with a letter or a digit at both ends.
pub open spec fn workflow_token(text: Seq<char>, most: int) -> bool {
    &&& bounded_token(text, ByteClass::LowerToken, 1, most)
    &&& is_alphanumeric(utf8(text)[0])
    &&& is_alphanumeric(utf8(text).last())
}

pub(crate) fn is_workflow_token(value: &str, most: usize) -> (r: bool)
    ensures
        r == workflow_token(value@, most as int),
{
    if !is_bounded_token(value, ByteClass::LowerToken, 1, most) {
        return false;
    }
    let bytes = value.as_bytes();
    let first: u8 = bytes[0];
    let last: u8 = bytes[bytes.len() - 1];
    ByteClass::LowerAlphanumeric.contains(first) && ByteClass::LowerAlphanumeric.contains(last)
}

pub fn valid_workflow_identity(value: &str) -> (r: bool)
    ensures
        r == workflow_token(value@, 96),
{
    is_workflow_token(value, MAX_IDENTITY_BYTES)
}

/// The name of a node of a workflow.
#[derive(Debug, PartialOrd, Ord)]
pub struct WorkflowNodeId {
    value: String,
}

impl WorkflowNodeId {
    #[verifier::type_invariant]
    spec fn valid(self) -> bool {
        workflow_token(self.value@, 64)
    }

    pub fn as_str(&self) -> (text: &str)
        ensures
            text@ == self@,
            workflow_token(self@, 64),
    {
        proof {
            use_type_invariant(self);
        }
        self.value.as_str()
    }

    pub fn parse(value: &str) -> (r: Result<WorkflowNodeId, WorkflowContractError>)
        ensures
            match r {
                Ok(id) => id@ == value@ && workflow_token(value@, 64),
                Err(error) => !workflow_token(value@, 64) && error
                    == WorkflowContractError::InvalidIdentifier("workflow node ID"),
            },
    {
        if is_workflow_token(value, 64) {
            Ok(WorkflowNodeId { value: value.to_owned() })
        } else {
            Err(WorkflowContractError::InvalidIdentifier("workflow node ID"))
        }
    }
}

impl View for WorkflowNodeId {
    type V = Seq<char>;

    closed spec fn view(&self) -> Seq<char> {
        self.value@
    }
}

impl Clone for WorkflowNodeId {
    fn clone(&self) -> (r: Self)
        ensures
            r == *self,
    {
        proof {
            use_type_invariant(self);
        }
        WorkflowNodeId { value: self.value.clone() }
    }
}

impl PartialEq for WorkflowNodeId {
    fn eq(&self, other: &Self) -> (r: bool) {
        same_text(self.value.as_str(), other.value.as_str())
    }
}

impl vstd::std_specs::cmp::PartialEqSpecImpl for WorkflowNodeId {
    open spec fn obeys_eq_spec() -> bool {
        true
    }

    open spec fn eq_spec(&self, other: &Self) -> bool {
        self@ == other@
    }
}

impl Eq for WorkflowNodeId {

}

impl std::str::FromStr for WorkflowNodeId {
    type Err = WorkflowContractError;

    fn from_str(value: &str) -> Result<WorkflowNodeId, WorkflowContractError> {
        WorkflowNodeId::parse(value)
    }
}

/// The name of a profile that nodes run under.
#[derive(Debug)]
pub struct WorkflowProfileId {
    value: String,
}

impl WorkflowProfileId {
    #[verifier::type_invariant]
    spec fn valid(self) -> bool {
        workflow_token(self.value@, 64)
    }

    pub fn as_str(&self) -> (text: &str)
        ensures
            text@ == self@,
            workflow_token(self@, 64),
    {
        proof {
            use_type_invariant(self);
        }
        self.value.as_str()
    }

    pub fn parse(value: &str) -> (r: Result<WorkflowProfileId, WorkflowContractError>)
        ensures
            match r {
                Ok(id) => id@ == value@ && workflow_token(value@, 64),
                Err(error) => !workflow_token(value@, 64) && error
                    == WorkflowContractError::InvalidIdentifier("workflow profile ID"),
            },
    {
        if is_workflow_token(value, 64) {
            Ok(WorkflowProfileId { value: value.to_owned() })
        } else {
            Err(WorkflowContractError::InvalidIdentifier("workflow profile ID"))
        }
    }
}

impl View for WorkflowProfileId {
    type V = Seq<char>;

    closed spec fn view(&self) -> Seq<char> {
        self.value@
    }
}

impl Clone for WorkflowProfileId {
    fn clone(&self) -> (r: Self)
        ensures
            r == *self,
    {
        proof {
            use_type_invariant(self);
        }
        WorkflowProfileId { value: self.value.clone() }
    }
}

impl PartialEq for WorkflowProfileId {
    fn eq(&self, other: &Self) -> (r: bool) {
        same_text(self.value.as_str(), other.value.as_str())
    }
}

impl vstd::std_specs::cmp::PartialEqSpecImpl for WorkflowProfileId {
    open spec fn obeys_eq_spec() -> bool {
        true
    }

    open spec fn eq_spec(&self, other: &Self) -> bool {
        self@ == other@
    }
}

impl Eq for WorkflowProfileId {

}

impl std::str::FromStr for WorkflowProfileId {
    type Err = WorkflowContractError;

    fn from_str(value: &str) -> Result<WorkflowProfileId, WorkflowContractError> {
        WorkflowProfileId::parse(value)
    }
}

/// What a node of a workflow puts out.
#[derive(Clone, Copy, Debug, PartialEq, Eq, PartialOrd, Ord, Hash, Structural)]
pub enum WorkflowArtifactKindV1 {
    SourceSnapshot,
    PreparedRun,
    VerificationReceipt,
    ReleaseBuildResult,
    ReleaseBundle,
    ReductionReceipt,
    ResourceReservation,
    BackupReceipt,
    MigrationReceipt,
    CandidateHealthReceipt,
    CutoverReceipt,
    ReleasedObservationReceipt,
    RollbackReceipt,
}

impl WorkflowArtifactKindV1 {
    /// The name in documents.
    pub open spec fn name(self) -> Seq<char> {
        match self {
            WorkflowArtifactKindV1::SourceSnapshot => "source_snapshot"@,
            WorkflowArtifactKindV1::PreparedRun => "prepared_run"@,
            WorkflowArtifactKindV1::VerificationReceipt => "verification_receipt"@,
            WorkflowArtifactKindV1::ReleaseBuildResult => "release_build_result"@,
            WorkflowArtifactKindV1::ReleaseBundle => "release_bundle"@,
            WorkflowArtifactKindV1::ReductionReceipt => "reduction_receipt"@,
            WorkflowArtifactKindV1::ResourceReservation => "resource_reservation"@,
            WorkflowArtifactKindV1::BackupReceipt => "backup_receipt"@,
            WorkflowArtifactKindV1::MigrationReceipt => "migration_receipt"@,
            WorkflowArtifactKindV1::CandidateHealthReceipt => "candidate_health_receipt"@,
            WorkflowArtifactKindV1::CutoverReceipt => "cutover_receipt"@,
            WorkflowArtifactKindV1::ReleasedObservationReceipt => "released_observation_receipt"@,
            WorkflowArtifactKindV1::RollbackReceipt => "rollback_receipt"@,
        }
    }

    pub fn as_str(self) -> (r: &'static str)
        ensures
            r@ == self.name(),
    {
        match self {
            WorkflowArtifactKindV1::SourceSnapshot => "source_snapshot",
            WorkflowArtifactKindV1::PreparedRun => "prepared_run",
            WorkflowArtifactKindV1::VerificationReceipt => "verification_receipt",
            WorkflowArtifactKindV1::ReleaseBuildResult => "release_build_result",
            WorkflowArtifactKindV1::ReleaseBundle => "release_bundle",
            WorkflowArtifactKindV1::ReductionReceipt => "reduction_receipt",
            WorkflowArtifactKindV1::ResourceReservation => "resource_reservation",
            WorkflowArtifactKindV1::BackupReceipt => "backup_receipt",
            WorkflowArtifactKindV1::MigrationReceipt => "migration_receipt",
            WorkflowArtifactKindV1::CandidateHealthReceipt => "candidate_health_receipt",
            WorkflowArtifactKindV1::CutoverReceipt => "cutover_receipt",
            WorkflowArtifactKindV1::ReleasedObservationReceipt => "released_observation_receipt",
            WorkflowArtifactKindV1::RollbackReceipt => "rollback_receipt",
        }
    }
}

impl WorkflowArtifactKindV1 {
    /// The place in the order of artifacts.
    pub open spec fn rank(self) -> int {
        match self {
            WorkflowArtifactKindV1::SourceSnapshot => 0,
            WorkflowArtifactKindV1::PreparedRun => 1,
            WorkflowArtifactKindV1::VerificationReceipt => 2,
            WorkflowArtifactKindV1::ReleaseBuildResult => 3,
            WorkflowArtifactKindV1::ReleaseBundle => 4,
            WorkflowArtifactKindV1::ReductionReceipt => 5,
            WorkflowArtifactKindV1::ResourceReservation => 6,
            WorkflowArtifactKindV1::BackupReceipt => 7,
            WorkflowArtifactKindV1::MigrationReceipt => 8,
            WorkflowArtifactKindV1::CandidateHealthReceipt => 9,
            WorkflowArtifactKindV1::CutoverReceipt => 10,
            WorkflowArtifactKindV1::ReleasedObservationReceipt => 11,
            WorkflowArtifactKindV1::RollbackReceipt => 12,
        }
    }

    pub(crate) fn place(self) -> (r: u8)
        ensures
            r == self.rank(),
    {
        match self {
            WorkflowArtifactKindV1::SourceSnapshot => 0,
            WorkflowArtifactKindV1::PreparedRun => 1,
            WorkflowArtifactKindV1::VerificationReceipt => 2,
            WorkflowArtifactKindV1::ReleaseBuildResult => 3,
            WorkflowArtifactKindV1::ReleaseBundle => 4,
            WorkflowArtifactKindV1::ReductionReceipt => 5,
            WorkflowArtifactKindV1::ResourceReservation => 6,
            WorkflowArtifactKindV1::BackupReceipt => 7,
            WorkflowArtifactKindV1::MigrationReceipt => 8,
            WorkflowArtifactKindV1::CandidateHealthReceipt => 9,
            WorkflowArtifactKindV1::CutoverReceipt => 10,
            WorkflowArtifactKindV1::ReleasedObservationReceipt => 11,
            WorkflowArtifactKindV1::RollbackReceipt => 12,
        }
    }
}

/// What carries a node out.
#[derive(Clone, Copy, Debug, PartialEq, Eq, PartialOrd, Ord, Hash, Structural)]
pub enum WorkflowAdapterIdV1 {
    ControllerSourceAdmissionV1,
    WorkerHostPrepareV1,
    WorkerBareBinCiV1,
    WorkerNativeReleaseBuildV1,
    WorkerOciReleaseBuildV1,
    ControllerReduceV1,
    ExecutorResourceReserveV1,
    ExecutorBackupV1,
    ExecutorMigrationV1,
    ExecutorCandidateHealthV1,
    ExecutorCutoverV1,
    ExecutorReleasedObserveV1,
    ExecutorRollbackV1,
}

impl WorkflowAdapterIdV1 {
    /// The name in documents.
    pub open spec fn name(self) -> Seq<char> {
        match self {
            WorkflowAdapterIdV1::ControllerSourceAdmissionV1 => "controller_source_admission_v1"@,
            WorkflowAdapterIdV1::WorkerHostPrepareV1 => "worker_host_prepare_v1"@,
            WorkflowAdapterIdV1::WorkerBareBinCiV1 => "worker_bare_bin_ci_v1"@,
            WorkflowAdapterIdV1::WorkerNativeReleaseBuildV1 => "worker_native_release_build_v1"@,
            WorkflowAdapterIdV1::WorkerOciReleaseBuildV1 => "worker_oci_release_build_v1"@,
            WorkflowAdapterIdV1::ControllerReduceV1 => "controller_reduce_v1"@,
            WorkflowAdapterIdV1::ExecutorResourceReserveV1 => "executor_resource_reserve_v1"@,
            WorkflowAdapterIdV1::ExecutorBackupV1 => "executor_backup_v1"@,
            WorkflowAdapterIdV1::ExecutorMigrationV1 => "executor_migration_v1"@,
            WorkflowAdapterIdV1::ExecutorCandidateHealthV1 => "executor_candidate_health_v1"@,
            WorkflowAdapterIdV1::ExecutorCutoverV1 => "executor_cutover_v1"@,
            WorkflowAdapterIdV1::ExecutorReleasedObserveV1 => "executor_released_observe_v1"@,
            WorkflowAdapterIdV1::ExecutorRollbackV1 => "executor_rollback_v1"@,
        }
    }

    pub fn as_str(self) -> (r: &'static str)
        ensures
            r@ == self.name(),
    {
        match self {
            WorkflowAdapterIdV1::ControllerSourceAdmissionV1 => "controller_source_admission_v1",
            WorkflowAdapterIdV1::WorkerHostPrepareV1 => "worker_host_prepare_v1",
            WorkflowAdapterIdV1::WorkerBareBinCiV1 => "worker_bare_bin_ci_v1",
            WorkflowAdapterIdV1::WorkerNativeReleaseBuildV1 => "worker_native_release_build_v1",
            WorkflowAdapterIdV1::WorkerOciReleaseBuildV1 => "worker_oci_release_build_v1",
            WorkflowAdapterIdV1::ControllerReduceV1 => "controller_reduce_v1",
            WorkflowAdapterIdV1::ExecutorResourceReserveV1 => "executor_resource_reserve_v1",
            WorkflowAdapterIdV1::ExecutorBackupV1 => "executor_backup_v1",
            WorkflowAdapterIdV1::ExecutorMigrationV1 => "executor_migration_v1",
            WorkflowAdapterIdV1::ExecutorCandidateHealthV1 => "executor_candidate_health_v1",
            WorkflowAdapterIdV1::ExecutorCutoverV1 => "executor_cutover_v1",
            WorkflowAdapterIdV1::ExecutorReleasedObserveV1 => "executor_released_observe_v1",
            WorkflowAdapterIdV1::ExecutorRollbackV1 => "executor_rollback_v1",
        }
    }
}

/// Where a node runs.
#[derive(Clone, Copy, Debug, PartialEq, Eq, PartialOrd, Ord, Hash, Structural)]
pub enum WorkflowWorkerPoolV1 {
    Controller,
    VpsRequired,
    BuildCompute,
    PrivilegedExecutor,
}

impl WorkflowWorkerPoolV1 {
    /// The name in documents.
    pub open spec fn name(self) -> Seq<char> {
        match self {
            WorkflowWorkerPoolV1::Controller => "controller"@,
            WorkflowWorkerPoolV1::VpsRequired => "vps_required"@,
            WorkflowWorkerPoolV1::BuildCompute => "build_compute"@,
            WorkflowWorkerPoolV1::PrivilegedExecutor => "privileged_executor"@,
        }
    }

    pub fn as_str(self) -> (r: &'static str)
        ensures
            r@ == self.name(),
    {
        match self {
            WorkflowWorkerPoolV1::Controller => "controller",
            WorkflowWorkerPoolV1::VpsRequired => "vps_required",
            WorkflowWorkerPoolV1::BuildCompute => "build_compute",
            WorkflowWorkerPoolV1::PrivilegedExecutor => "privileged_executor",
        }
    }
}

/// What a node may reach.
#[derive(Clone, Copy, Debug, PartialEq, Eq, Hash, Structural)]
pub enum WorkflowNetworkClassV1 {
    Offline,
    DependencyEgress,
    LocalHealthOnly,
}

impl WorkflowNetworkClassV1 {
    /// The name in documents.
    pub open spec fn name(self) -> Seq<char> {
        match self {
            WorkflowNetworkClassV1::Offline => "offline"@,
            WorkflowNetworkClassV1::DependencyEgress => "dependency_egress"@,
            WorkflowNetworkClassV1::LocalHealthOnly => "local_health_only"@,
        }
    }

    pub fn as_str(self) -> (r: &'static str)
        ensures
            r@ == self.name(),
    {
        match self {
            WorkflowNetworkClassV1::Offline => "offline",
            WorkflowNetworkClassV1::DependencyEgress => "dependency_egress",
            WorkflowNetworkClassV1::LocalHealthOnly => "local_health_only",
        }
    }
}

/// What a node may keep from one run to the next.
#[derive(Clone, Copy, Debug, PartialEq, Eq, Hash, Structural)]
pub enum WorkflowCacheClassV1 {
    Uncached,
    Dependency,
    PreparedRun,
}

impl WorkflowCacheClassV1 {
    /// The name in documents.
    pub open spec fn name(self) -> Seq<char> {
        match self {
            WorkflowCacheClassV1::Uncached => "none"@,
            WorkflowCacheClassV1::Dependency => "dependency"@,
            WorkflowCacheClassV1::PreparedRun => "prepared_run"@,
        }
    }

    pub fn as_str(self) -> (r: &'static str)
        ensures
            r@ == self.name(),
    {
        match self {
            WorkflowCacheClassV1::Uncached => "none",
            WorkflowCacheClassV1::Dependency => "dependency",
            WorkflowCacheClassV1::PreparedRun => "prepared_run",
        }
    }
}

/// How a workflow reaches production.
#[derive(Clone, Copy, Debug, PartialEq, Eq, Hash, Structural)]
pub enum WorkflowDeliveryModeV1 {
    ExecutorMutation,
    SelfUpdateHandoff,
}

impl Default for WorkflowDeliveryModeV1 {
    fn default() -> (r: WorkflowDeliveryModeV1)
        ensures
            r == WorkflowDeliveryModeV1::ExecutorMutation,
    {
        WorkflowDeliveryModeV1::ExecutorMutation
    }
}

impl WorkflowDeliveryModeV1 {
    /// The name in documents.
    pub open spec fn name(self) -> Seq<char> {
        match self {
            WorkflowDeliveryModeV1::ExecutorMutation => "executor_mutation"@,
            WorkflowDeliveryModeV1::SelfUpdateHandoff => "self_update_handoff"@,
        }
    }

    pub fn as_str(self) -> (r: &'static str)
        ensures
            r@ == self.name(),
    {
        match self {
            WorkflowDeliveryModeV1::ExecutorMutation => "executor_mutation",
            WorkflowDeliveryModeV1::SelfUpdateHandoff => "self_update_handoff",
        }
    }
}

/// When a node runs.
#[derive(Clone, Copy, Debug, PartialEq, Eq, Hash, Structural)]
pub enum WorkflowNodeActivationV1 {
    Always,
    OnMutationFailure,
}

impl WorkflowNodeActivationV1 {
    /// The name in documents.
    pub open spec fn name(self) -> Seq<char> {
        match self {
            WorkflowNodeActivationV1::Always => "always"@,
            WorkflowNodeActivationV1::OnMutationFailure => "on_mutation_failure"@,
        }
    }

    pub fn as_str(self) -> (r: &'static str)
        ensures
            r@ == self.name(),
    {
        match self {
            WorkflowNodeActivationV1::Always => "always",
            WorkflowNodeActivationV1::OnMutationFailure => "on_mutation_failure",
        }
    }
}

/// How a host is prepared.
#[derive(Clone, Copy, Debug, PartialEq, Eq, Hash, Structural)]
pub enum WorkflowHostPreparationAdapterV1 {
    CargoCratesIoV1,
    SourceTreeV1,
}

impl WorkflowHostPreparationAdapterV1 {
    /// The name in documents.
    pub open spec fn name(self) -> Seq<char> {
        match self {
            WorkflowHostPreparationAdapterV1::CargoCratesIoV1 => "cargo_crates_io_v1"@,
            WorkflowHostPreparationAdapterV1::SourceTreeV1 => "source_tree_v1"@,
        }
    }

    pub fn as_str(self) -> (r: &'static str)
        ensures
            r@ == self.name(),
    {
        match self {
            WorkflowHostPreparationAdapterV1::CargoCratesIoV1 => "cargo_crates_io_v1",
            WorkflowHostPreparationAdapterV1::SourceTreeV1 => "source_tree_v1",
        }
    }
}

/// What a node of a workflow does.
#[derive(Clone, Copy, Debug, PartialEq, Eq, PartialOrd, Ord, Hash, Structural)]
pub enum WorkflowNodeKindV1 {
    SourceAdmission,
    HostPrepare,
    Verification,
    ReleaseBuild,
    DeterministicReduce,
    ResourceReservation,
    Backup,
    Migration,
    CandidateHealth,
    Cutover,
    ReleasedObservation,
    Rollback,
}

impl WorkflowNodeKindV1 {
    /// The name in documents.
    pub open spec fn name(self) -> Seq<char> {
        match self {
            WorkflowNodeKindV1::SourceAdmission => "source_admission"@,
            WorkflowNodeKindV1::HostPrepare => "host_prepare"@,
            WorkflowNodeKindV1::Verification => "verification"@,
            WorkflowNodeKindV1::ReleaseBuild => "release_build"@,
            WorkflowNodeKindV1::DeterministicReduce => "deterministic_reduce"@,
            WorkflowNodeKindV1::ResourceReservation => "resource_reservation"@,
            WorkflowNodeKindV1::Backup => "backup"@,
            WorkflowNodeKindV1::Migration => "migration"@,
            WorkflowNodeKindV1::CandidateHealth => "candidate_health"@,
            WorkflowNodeKindV1::Cutover => "cutover"@,
            WorkflowNodeKindV1::ReleasedObservation => "released_observation"@,
            WorkflowNodeKindV1::Rollback => "rollback"@,
        }
    }

    pub fn as_str(self) -> (r: &'static str)
        ensures
            r@ == self.name(),
    {
        match self {
            WorkflowNodeKindV1::SourceAdmission => "source_admission",
            WorkflowNodeKindV1::HostPrepare => "host_prepare",
            WorkflowNodeKindV1::Verification => "verification",
            WorkflowNodeKindV1::ReleaseBuild => "release_build",
            WorkflowNodeKindV1::DeterministicReduce => "deterministic_reduce",
            WorkflowNodeKindV1::ResourceReservation => "resource_reservation",
            WorkflowNodeKindV1::Backup => "backup",
            WorkflowNodeKindV1::Migration => "migration",
            WorkflowNodeKindV1::CandidateHealth => "candidate_health",
            WorkflowNodeKindV1::Cutover => "cutover",
            WorkflowNodeKindV1::ReleasedObservation => "released_observation",
            WorkflowNodeKindV1::Rollback => "rollback",
        }
    }
}

impl WorkflowNodeKindV1 {
    /// The node changes production, or watches what was changed.
    pub open spec fn mutates(self) -> bool {
        match self {
            WorkflowNodeKindV1::SourceAdmission => false,
            WorkflowNodeKindV1::HostPrepare => false,
            WorkflowNodeKindV1::Verification => false,
            WorkflowNodeKindV1::ReleaseBuild => false,
            WorkflowNodeKindV1::DeterministicReduce => false,
            WorkflowNodeKindV1::ResourceReservation => false,
            WorkflowNodeKindV1::Backup => true,
            WorkflowNodeKindV1::Migration => true,
            WorkflowNodeKindV1::CandidateHealth => true,
            WorkflowNodeKindV1::Cutover => true,
            WorkflowNodeKindV1::ReleasedObservation => true,
            WorkflowNodeKindV1::Rollback => true,
        }
    }

    pub fn is_mutation(self) -> (r: bool)
        ensures
            r == self.mutates(),
    {
        match self {
            WorkflowNodeKindV1::SourceAdmission => false,
            WorkflowNodeKindV1::HostPrepare => false,
            WorkflowNodeKindV1::Verification => false,
            WorkflowNodeKindV1::ReleaseBuild => false,
            WorkflowNodeKindV1::DeterministicReduce => false,
            WorkflowNodeKindV1::ResourceReservation => false,
            WorkflowNodeKindV1::Backup => true,
            WorkflowNodeKindV1::Migration => true,
            WorkflowNodeKindV1::CandidateHealth => true,
            WorkflowNodeKindV1::Cutover => true,
            WorkflowNodeKindV1::ReleasedObservation => true,
            WorkflowNodeKindV1::Rollback => true,
        }
    }

    /// The controller carries the node out itself.
    pub open spec fn controller_managed(self) -> bool {
        match self {
            WorkflowNodeKindV1::SourceAdmission => true,
            WorkflowNodeKindV1::HostPrepare => false,
            WorkflowNodeKindV1::Verification => false,
            WorkflowNodeKindV1::ReleaseBuild => false,
            WorkflowNodeKindV1::DeterministicReduce => true,
            WorkflowNodeKindV1::ResourceReservation => false,
            WorkflowNodeKindV1::Backup => false,
            WorkflowNodeKindV1::Migration => false,
            WorkflowNodeKindV1::CandidateHealth => false,
            WorkflowNodeKindV1::Cutover => false,
            WorkflowNodeKindV1::ReleasedObservation => false,
            WorkflowNodeKindV1::Rollback => false,
        }
    }

    pub fn is_controller_managed(self) -> (r: bool)
        ensures
            r == self.controller_managed(),
    {
        match self {
            WorkflowNodeKindV1::SourceAdmission => true,
            WorkflowNodeKindV1::HostPrepare => false,
            WorkflowNodeKindV1::Verification => false,
            WorkflowNodeKindV1::ReleaseBuild => false,
            WorkflowNodeKindV1::DeterministicReduce => true,
            WorkflowNodeKindV1::ResourceReservation => false,
            WorkflowNodeKindV1::Backup => false,
            WorkflowNodeKindV1::Migration => false,
            WorkflowNodeKindV1::CandidateHealth => false,
            WorkflowNodeKindV1::Cutover => false,
            WorkflowNodeKindV1::ReleasedObservation => false,
            WorkflowNodeKindV1::Rollback => false,
        }
    }

    /// What a node of this kind puts out.
    pub open spec fn output(self) -> WorkflowArtifactKindV1 {
        match self {
            WorkflowNodeKindV1::SourceAdmission => WorkflowArtifactKindV1::SourceSnapshot,
            WorkflowNodeKindV1::HostPrepare => WorkflowArtifactKindV1::PreparedRun,
            WorkflowNodeKindV1::Verification => WorkflowArtifactKindV1::VerificationReceipt,
            WorkflowNodeKindV1::ReleaseBuild => WorkflowArtifactKindV1::ReleaseBuildResult,
            WorkflowNodeKindV1::DeterministicReduce => WorkflowArtifactKindV1::ReductionReceipt,
            WorkflowNodeKindV1::ResourceReservation => WorkflowArtifactKindV1::ResourceReservation,
            WorkflowNodeKindV1::Backup => WorkflowArtifactKindV1::BackupReceipt,
            WorkflowNodeKindV1::Migration => WorkflowArtifactKindV1::MigrationReceipt,
            WorkflowNodeKindV1::CandidateHealth => WorkflowArtifactKindV1::CandidateHealthReceipt,
            WorkflowNodeKindV1::Cutover => WorkflowArtifactKindV1::CutoverReceipt,
            WorkflowNodeKindV1::ReleasedObservation => WorkflowArtifactKindV1::ReleasedObservationReceipt,
            WorkflowNodeKindV1::Rollback => WorkflowArtifactKindV1::RollbackReceipt,
        }
    }

    pub(crate) fn expected_output(self) -> (r: WorkflowArtifactKindV1)
        ensures
            r == self.output(),
    {
        match self {
            WorkflowNodeKindV1::SourceAdmission => WorkflowArtifactKindV1::SourceSnapshot,
            WorkflowNodeKindV1::HostPrepare => WorkflowArtifactKindV1::PreparedRun,
            WorkflowNodeKindV1::Verification => WorkflowArtifactKindV1::VerificationReceipt,
            WorkflowNodeKindV1::ReleaseBuild => WorkflowArtifactKindV1::ReleaseBuildResult,
            WorkflowNodeKindV1::DeterministicReduce => WorkflowArtifactKindV1::ReductionReceipt,
            WorkflowNodeKindV1::ResourceReservation => WorkflowArtifactKindV1::ResourceReservation,
            WorkflowNodeKindV1::Backup => WorkflowArtifactKindV1::BackupReceipt,
            WorkflowNodeKindV1::Migration => WorkflowArtifactKindV1::MigrationReceipt,
            WorkflowNodeKindV1::CandidateHealth => WorkflowArtifactKindV1::CandidateHealthReceipt,
            WorkflowNodeKindV1::Cutover => WorkflowArtifactKindV1::CutoverReceipt,
            WorkflowNodeKindV1::ReleasedObservation => WorkflowArtifactKindV1::ReleasedObservationReceipt,
            WorkflowNodeKindV1::Rollback => WorkflowArtifactKindV1::RollbackReceipt,
        }
    }

    /// Where a node of this kind runs.
    pub open spec fn pool(self) -> WorkflowWorkerPoolV1 {
        match self {
            WorkflowNodeKindV1::SourceAdmission => WorkflowWorkerPoolV1::Controller,
            WorkflowNodeKindV1::HostPrepare => WorkflowWorkerPoolV1::VpsRequired,
            WorkflowNodeKindV1::Verification => WorkflowWorkerPoolV1::BuildCompute,
            WorkflowNodeKindV1::ReleaseBuild => WorkflowWorkerPoolV1::VpsRequired,
            WorkflowNodeKindV1::DeterministicReduce => WorkflowWorkerPoolV1::Controller,
            WorkflowNodeKindV1::ResourceReservation => WorkflowWorkerPoolV1::PrivilegedExecutor,
            WorkflowNodeKindV1::Backup => WorkflowWorkerPoolV1::PrivilegedExecutor,
            WorkflowNodeKindV1::Migration => WorkflowWorkerPoolV1::PrivilegedExecutor,
            WorkflowNodeKindV1::CandidateHealth => WorkflowWorkerPoolV1::PrivilegedExecutor,
            WorkflowNodeKindV1::Cutover => WorkflowWorkerPoolV1::PrivilegedExecutor,
            WorkflowNodeKindV1::ReleasedObservation => WorkflowWorkerPoolV1::PrivilegedExecutor,
            WorkflowNodeKindV1::Rollback => WorkflowWorkerPoolV1::PrivilegedExecutor,
        }
    }

    pub(crate) fn expected_pool(self) -> (r: WorkflowWorkerPoolV1)
        ensures
            r == self.pool(),
    {
        match self {
            WorkflowNodeKindV1::SourceAdmission => WorkflowWorkerPoolV1::Controller,
            WorkflowNodeKindV1::HostPrepare => WorkflowWorkerPoolV1::VpsRequired,
            WorkflowNodeKindV1::Verification => WorkflowWorkerPoolV1::BuildCompute,
            WorkflowNodeKindV1::ReleaseBuild => WorkflowWorkerPoolV1::VpsRequired,
            WorkflowNodeKindV1::DeterministicReduce => WorkflowWorkerPoolV1::Controller,
            WorkflowNodeKindV1::ResourceReservation => WorkflowWorkerPoolV1::PrivilegedExecutor,
            WorkflowNodeKindV1::Backup => WorkflowWorkerPoolV1::PrivilegedExecutor,
            WorkflowNodeKindV1::Migration => WorkflowWorkerPoolV1::PrivilegedExecutor,
            WorkflowNodeKindV1::CandidateHealth => WorkflowWorkerPoolV1::PrivilegedExecutor,
            WorkflowNodeKindV1::Cutover => WorkflowWorkerPoolV1::PrivilegedExecutor,
            WorkflowNodeKindV1::ReleasedObservation => WorkflowWorkerPoolV1::PrivilegedExecutor,
            WorkflowNodeKindV1::Rollback => WorkflowWorkerPoolV1::PrivilegedExecutor,
        }
    }

    /// An adapter can carry out a node of this kind.
    pub open spec fn admits(self, adapter: WorkflowAdapterIdV1) -> bool {
        match self {
            WorkflowNodeKindV1::SourceAdmission => adapter is ControllerSourceAdmissionV1,
            WorkflowNodeKindV1::HostPrepare => adapter is WorkerHostPrepareV1,
            WorkflowNodeKindV1::Verification => adapter is WorkerBareBinCiV1,
            WorkflowNodeKindV1::ReleaseBuild => adapter is WorkerNativeReleaseBuildV1 || adapter is WorkerOciReleaseBuildV1,
            WorkflowNodeKindV1::DeterministicReduce => adapter is ControllerReduceV1,
            WorkflowNodeKindV1::ResourceReservation => adapter is ExecutorResourceReserveV1,
            WorkflowNodeKindV1::Backup => adapter is ExecutorBackupV1,
            WorkflowNodeKindV1::Migration => adapter is ExecutorMigrationV1,
            WorkflowNodeKindV1::CandidateHealth => adapter is ExecutorCandidateHealthV1,
            WorkflowNodeKindV1::Cutover => adapter is ExecutorCutoverV1,
            WorkflowNodeKindV1::ReleasedObservation => adapter is ExecutorReleasedObserveV1,
            WorkflowNodeKindV1::Rollback => adapter is ExecutorRollbackV1,
        }
    }

    pub(crate) fn expects_adapter(self, adapter: WorkflowAdapterIdV1) -> (r: bool)
        ensures
            r == self.admits(adapter),
    {
        match self {
            WorkflowNodeKindV1::SourceAdmission => adapter == WorkflowAdapterIdV1::ControllerSourceAdmissionV1,
            WorkflowNodeKindV1::HostPrepare => adapter == WorkflowAdapterIdV1::WorkerHostPrepareV1,
            WorkflowNodeKindV1::Verification => adapter == WorkflowAdapterIdV1::WorkerBareBinCiV1,
            WorkflowNodeKindV1::ReleaseBuild => adapter == WorkflowAdapterIdV1::WorkerNativeReleaseBuildV1 || adapter
                == WorkflowAdapterIdV1::WorkerOciReleaseBuildV1,
            WorkflowNodeKindV1::DeterministicReduce => adapter == WorkflowAdapterIdV1::ControllerReduceV1,
            WorkflowNodeKindV1::ResourceReservation => adapter == WorkflowAdapterIdV1::ExecutorResourceReserveV1,
            WorkflowNodeKindV1::Backup => adapter == WorkflowAdapterIdV1::ExecutorBackupV1,
            WorkflowNodeKindV1::Migration => adapter == WorkflowAdapterIdV1::ExecutorMigrationV1,
            WorkflowNodeKindV1::CandidateHealth => adapter == WorkflowAdapterIdV1::ExecutorCandidateHealthV1,
            WorkflowNodeKindV1::Cutover => adapter == WorkflowAdapterIdV1::ExecutorCutoverV1,
            WorkflowNodeKindV1::ReleasedObservation => adapter == WorkflowAdapterIdV1::ExecutorReleasedObserveV1,
            WorkflowNodeKindV1::Rollback => adapter == WorkflowAdapterIdV1::ExecutorRollbackV1,
        }
    }
}

/// How the host of a workflow is prepared.
#[derive(Debug, PartialEq, Eq)]
pub struct WorkflowHostPreparationPolicyV1 {
    pub schema_version: u16,
    pub adapter_id: WorkflowHostPreparationAdapterV1,
    pub platform: String,
}

impl Clone for WorkflowHostPreparationPolicyV1 {
    fn clone(&self) -> (r: WorkflowHostPreparationPolicyV1)
        ensures
            r == *self,
    {
        WorkflowHostPreparationPolicyV1 {
            schema_version: self.schema_version,
            adapter_id: self.adapter_id,
            platform: self.platform.clone(),
        }
    }
}

impl WorkflowHostPreparationPolicyV1 {
    /// The document as JSON text.
    pub open spec fn json(self) -> Seq<char> {
        json_object(
            no_members()
                .push(("schema_version"@, json_nat(self.schema_version as nat)))
                .push(("adapter_id"@, json_string(self.adapter_id.name())))
                .push(("platform"@, json_string(self.platform@))),
        )
    }

    pub fn to_json(&self) -> (r: String)
        ensures
            r@ == self.json(),
    {
        let mut object = JsonObject::new();
        object.number("schema_version", self.schema_version as u64);
        object.text("adapter_id", self.adapter_id.as_str());
        object.text("platform", self.platform.as_str());
        object.finish()
    }

    pub open spec fn valid(self) -> bool {
        self.schema_version == WORKFLOW_HOST_PREPARATION_SCHEMA_VERSION && workflow_token(
            self.platform@,
            64,
        )
    }

    pub fn validate(&self) -> (r: Result<(), WorkflowContractError>)
        ensures
            match r {
                Ok(()) => self.valid(),
                Err(error) => !self.valid() && error is InvalidHostPreparationPolicy,
            },
    {
        if self.schema_version != WORKFLOW_HOST_PREPARATION_SCHEMA_VERSION || !is_workflow_token(
            self.platform.as_str(),
            64,
        ) {
            return Err(WorkflowContractError::InvalidHostPreparationPolicy);
        }
        Ok(())
    }

    /// The digest of the canonical form of a valid policy.
    pub fn digest(&self) -> (r: Result<EvidenceDigest, WorkflowContractError>)
        ensures
            match r {
                Ok(digest) => self.valid() && document_digest(self.json()) == Some(digest@),
                Err(error) => if self.valid() {
                    document_digest(self.json()) is None && error is CanonicalEncoding
                } else {
                    error is InvalidHostPreparationPolicy
                },
            },
    {
        match self.validate() {
            Err(error) => Err(error),
            Ok(()) => {
                let text = self.to_json();
                match digest_document(text.as_str()) {
                    Ok(digest) => Ok(digest),
                    Err(_) => Err(WorkflowContractError::CanonicalEncoding),
                }
            },
        }
    }

    /// What the node that prepares the host may reach.
    pub open spec fn network(self) -> WorkflowNetworkClassV1 {
        match self.adapter_id {
            WorkflowHostPreparationAdapterV1::CargoCratesIoV1 => {
                WorkflowNetworkClassV1::DependencyEgress
            },
            WorkflowHostPreparationAdapterV1::SourceTreeV1 => WorkflowNetworkClassV1::Offline,
        }
    }

    pub fn required_network_class(&self) -> (r: WorkflowNetworkClassV1)
        ensures
            r == self.network(),
    {
        match self.adapter_id {
            WorkflowHostPreparationAdapterV1::CargoCratesIoV1 => {
                WorkflowNetworkClassV1::DependencyEgress
            },
            WorkflowHostPreparationAdapterV1::SourceTreeV1 => WorkflowNetworkClassV1::Offline,
        }
    }
}

/// What a node may use.
#[derive(Clone, Copy, Debug, PartialEq, Eq, Structural)]
pub struct WorkflowResourceEnvelopeV1 {
    pub cpu_millicores: u32,
    pub memory_max_bytes: u64,
    pub tasks_max: u32,
    pub scratch_max_bytes: u64,
    pub scratch_max_inodes: u64,
    pub output_max_bytes: u64,
}

impl WorkflowResourceEnvelopeV1 {
    /// The document as JSON text.
    pub open spec fn json(self) -> Seq<char> {
        json_object(
            no_members()
                .push(("cpu_millicores"@, json_nat(self.cpu_millicores as nat)))
                .push(("memory_max_bytes"@, json_nat(self.memory_max_bytes as nat)))
                .push(("tasks_max"@, json_nat(self.tasks_max as nat)))
                .push(("scratch_max_bytes"@, json_nat(self.scratch_max_bytes as nat)))
                .push(("scratch_max_inodes"@, json_nat(self.scratch_max_inodes as nat)))
                .push(("output_max_bytes"@, json_nat(self.output_max_bytes as nat))),
        )
    }

    pub fn to_json(&self) -> (r: String)
        ensures
            r@ == self.json(),
    {
        let mut object = JsonObject::new();
        object.number("cpu_millicores", self.cpu_millicores as u64);
        object.number("memory_max_bytes", self.memory_max_bytes);
        object.number("tasks_max", self.tasks_max as u64);
        object.number("scratch_max_bytes", self.scratch_max_bytes);
        object.number("scratch_max_inodes", self.scratch_max_inodes);
        object.number("output_max_bytes", self.output_max_bytes);
        object.finish()
    }

    /// A tenth of a core to 32 cores, 64 MiB to 64 GiB of memory, 8 to 4096 tasks, 1 MiB to 1 TiB
    /// of scratch space with 1024 to a hundred million inodes, 1 KiB to 64 GiB of output.
    pub open spec fn valid(self) -> bool {
        &&& 100 <= self.cpu_millicores <= 32_000
        &&& 64 * 1024 * 1024 <= self.memory_max_bytes <= 64 * 1024 * 1024 * 1024
        &&& 8 <= self.tasks_max <= 4_096
        &&& 1024 * 1024 <= self.scratch_max_bytes <= 1024 * 1024 * 1024 * 1024
        &&& 1_024 <= self.scratch_max_inodes <= 100_000_000
        &&& 1_024 <= self.output_max_bytes <= 64 * 1024 * 1024 * 1024
    }

    pub(crate) fn is_valid(&self) -> (r: bool)
        ensures
            r == self.valid(),
    {
        100 <= self.cpu_millicores && self.cpu_millicores <= 32_000 && MIN_MEMORY_BYTES
            <= self.memory_max_bytes && self.memory_max_bytes <= MAX_MEMORY_BYTES && 8
            <= self.tasks_max && self.tasks_max <= 4_096 && 1_048_576 <= self.scratch_max_bytes
            && self.scratch_max_bytes <= MAX_SCRATCH_BYTES && 1_024 <= self.scratch_max_inodes
            && self.scratch_max_inodes <= 100_000_000 && 1_024 <= self.output_max_bytes
            && self.output_max_bytes <= MAX_OUTPUT_BYTES
    }
}

/// What nodes run under.
#[derive(Clone, Debug, PartialEq, Eq)]
pub struct WorkflowExecutionProfileV1 {
    pub profile_id: WorkflowProfileId,
    pub adapter_id: WorkflowAdapterIdV1,
    pub worker_pool: WorkflowWorkerPoolV1,
    pub network_class: WorkflowNetworkClassV1,
    pub cache_class: WorkflowCacheClassV1,
    pub timeout_ms: u64,
    pub resources: Option<WorkflowResourceEnvelopeV1>,
}

impl WorkflowExecutionProfileV1 {
    /// The document as JSON text.
    pub open spec fn json(self) -> Seq<char> {
        json_object(
            no_members()
                .push(("profile_id"@, json_string(self.profile_id@)))
                .push(("adapter_id"@, json_string(self.adapter_id.name())))
                .push(("worker_pool"@, json_string(self.worker_pool.name())))
                .push(("network_class"@, json_string(self.network_class.name())))
                .push(("cache_class"@, json_string(self.cache_class.name())))
                .push(("timeout_ms"@, json_nat(self.timeout_ms as nat)))
                .push(("resources"@, json_optional(match self.resources { Some(v) => Some(v.json()), None => None }))),
        )
    }

    pub fn to_json(&self) -> (r: String)
        ensures
            r@ == self.json(),
    {
        let mut object = JsonObject::new();
        object.text("profile_id", self.profile_id.as_str());
        object.text("adapter_id", self.adapter_id.as_str());
        object.text("worker_pool", self.worker_pool.as_str());
        object.text("network_class", self.network_class.as_str());
        object.text("cache_class", self.cache_class.as_str());
        object.number("timeout_ms", self.timeout_ms);
        match &self.resources {
            Some(value) => {
                let value = value.to_json();
                object.raw("resources", value.as_str());
            },
            None => object.raw("resources", "null"),
        }
        object.finish()
    }

    /// What is wrong with a profile by itself. A profile of the controller uses nothing and
    /// reaches nothing; any other says what it may use.
    pub open spec fn fault(self) -> Option<WorkflowContractError> {
        if !(100 <= self.timeout_ms <= 10_800_000) {
            Some(WorkflowContractError::InvalidTimeout)
        } else if self.worker_pool is Controller {
            if self.resources is Some || !(self.network_class is Offline) || !(
            self.cache_class is Uncached) {
                Some(WorkflowContractError::InvalidExecutionProfile)
            } else {
                None
            }
        } else if !(self.resources matches Some(resources) && resources.valid()) {
            Some(WorkflowContractError::InvalidResourceEnvelope)
        } else {
            None
        }
    }

    pub(crate) fn validate(&self) -> (r: Result<(), WorkflowContractError>)
        ensures
            match r {
                Ok(()) => self.fault() is None,
                Err(error) => self.fault() == Some(error),
            },
    {
        if self.timeout_ms < 100 || self.timeout_ms > 10_800_000 {
            return Err(WorkflowContractError::InvalidTimeout);
        }
        if self.worker_pool == WorkflowWorkerPoolV1::Controller {
            if self.resources.is_some() || self.network_class != WorkflowNetworkClassV1::Offline
                || self.cache_class != WorkflowCacheClassV1::Uncached {
                return Err(WorkflowContractError::InvalidExecutionProfile);
            }
            return Ok(());
        }
        match &self.resources {
            Some(resources) => if resources.is_valid() {
                Ok(())
            } else {
                Err(WorkflowContractError::InvalidResourceEnvelope)
            },
            None => Err(WorkflowContractError::InvalidResourceEnvelope),
        }
    }
}

/// The network and the cache that a node of a kind runs with.
pub open spec fn classes_match(
    kind: WorkflowNodeKindV1,
    network: WorkflowNetworkClassV1,
    cache: WorkflowCacheClassV1,
) -> bool {
    match kind {
        WorkflowNodeKindV1::HostPrepare => (network is Offline || network is DependencyEgress)
            && cache is Dependency,
        WorkflowNodeKindV1::Verification
        | WorkflowNodeKindV1::ReleaseBuild => network is Offline && cache is PreparedRun,
        WorkflowNodeKindV1::CandidateHealth
        | WorkflowNodeKindV1::ReleasedObservation => network is LocalHealthOnly && cache is Uncached,
        _ => network is Offline && cache is Uncached,
    }
}

pub(crate) fn profile_matches_kind(
    kind: WorkflowNodeKindV1,
    network: WorkflowNetworkClassV1,
    cache: WorkflowCacheClassV1,
) -> (r: bool)
    ensures
        r == classes_match(kind, network, cache),
{
    match kind {
        WorkflowNodeKindV1::HostPrepare => (network == WorkflowNetworkClassV1::Offline || network
            == WorkflowNetworkClassV1::DependencyEgress) && cache
            == WorkflowCacheClassV1::Dependency,
        WorkflowNodeKindV1::Verification
        | WorkflowNodeKindV1::ReleaseBuild => network == WorkflowNetworkClassV1::Offline && cache
            == WorkflowCacheClassV1::PreparedRun,
        WorkflowNodeKindV1::CandidateHealth
        | WorkflowNodeKindV1::ReleasedObservation => network
            == WorkflowNetworkClassV1::LocalHealthOnly && cache == WorkflowCacheClassV1::Uncached,
        _ => network == WorkflowNetworkClassV1::Offline && cache == WorkflowCacheClassV1::Uncached,
    }
}

/// The texts of some node names.
pub open spec fn node_ids(ids: Seq<WorkflowNodeId>) -> Seq<Seq<char>> {
    ids.map_values(|id: WorkflowNodeId| id@)
}

/// Names as a JSON array.
pub fn node_ids_json(ids: &Vec<WorkflowNodeId>) -> (r: String)
    ensures
        r@ == json_strings(node_ids(ids@)),
{
    let mut array = JsonArray::new();
    let mut i: usize = 0;
    assert(array@ =~= node_ids(ids@).take(0).map_values(|item: Seq<char>| json_string(item)));
    while i < ids.len()
        invariant
            i <= ids.len(),
            array.wf(),
            array@ == node_ids(ids@).take(i as int).map_values(
                |item: Seq<char>| json_string(item),
            ),
        decreases ids.len() - i,
    {
        array.text(ids[i].as_str());
        i += 1;
        assert(array@ =~= node_ids(ids@).take(i as int).map_values(
            |item: Seq<char>| json_string(item),
        ));
    }
    assert(node_ids(ids@).take(i as int) =~= node_ids(ids@));
    array.finish()
}

/// Each text comes strictly before the next.
pub open spec fn strictly_ordered(texts: Seq<Seq<char>>) -> bool {
    forall|i: int, j: int|
        0 <= i && j == i + 1 && j < texts.len() ==> text_before(#[trigger] texts[i], #[trigger] texts[j])
}

pub(crate) fn node_ids_ordered(ids: &Vec<WorkflowNodeId>) -> (r: bool)
    ensures
        r == strictly_ordered(node_ids(ids@)),
{
    let ghost all = node_ids(ids@);
    let mut i: usize = 1;
    while i < ids.len()
        invariant
            1 <= i,
            all == node_ids(ids@),
            forall|a: int, b: int|
                0 <= a && b == a + 1 && b < i && b < all.len() ==> text_before(
                    #[trigger] all[a],
                    #[trigger] all[b],
                ),
        decreases ids.len() - i,
    {
        if !is_text_before(ids[i - 1].as_str(), ids[i].as_str()) {
            assert(!text_before(all[i - 1], all[i as int]));
            return false;
        }
        i += 1;
    }
    true
}

/// A name is among some names.
pub(crate) fn contains_node_id(ids: &Vec<WorkflowNodeId>, id: &WorkflowNodeId) -> (r: bool)
    ensures
        r == node_ids(ids@).contains(id@),
{
    let ghost all = node_ids(ids@);
    let mut i: usize = 0;
    while i < ids.len()
        invariant
            i <= ids.len(),
            all == node_ids(ids@),
            forall|k: int| 0 <= k < i ==> all[k] != id@,
        decreases ids.len() - i,
    {
        if ids[i] == *id {
            assert(all[i as int] == id@);
            return true;
        }
        i += 1;
    }
    false
}

/// Artifacts in their order, none twice.
pub open spec fn kinds_ordered(kinds: Seq<WorkflowArtifactKindV1>) -> bool {
    forall|i: int, j: int|
        0 <= i && j == i + 1 && j < kinds.len() ==> (#[trigger] kinds[i]).rank() < (
        #[trigger] kinds[j]).rank()
}

pub(crate) fn artifact_kinds_ordered(kinds: &Vec<WorkflowArtifactKindV1>) -> (r: bool)
    ensures
        r == kinds_ordered(kinds@),
{
    let mut i: usize = 1;
    while i < kinds.len()
        invariant
            1 <= i,
            forall|a: int, b: int|
                0 <= a && b == a + 1 && b < i && b < kinds.len() ==> (#[trigger] kinds@[a]).rank() < (
                #[trigger] kinds@[b]).rank(),
        decreases kinds.len() - i,
    {
        if !(kinds[i - 1].place() < kinds[i].place()) {
            assert(!(kinds@[i - 1].rank() < kinds@[i as int].rank()));
            return false;
        }
        i += 1;
    }
    true
}

/// Artifacts as a JSON array of their names.
pub open spec fn artifact_kinds_json(values: Seq<WorkflowArtifactKindV1>) -> Seq<char> {
    json_array(values.map_values(|value: WorkflowArtifactKindV1| json_string(value.name())))
}

pub(crate) fn artifact_kinds_json_text(values: &Vec<WorkflowArtifactKindV1>) -> (r: String)
    ensures
        r@ == artifact_kinds_json(values@),
{
    let mut array = JsonArray::new();
    let mut i: usize = 0;
    while i < values.len()
        invariant
            i <= values.len(),
            array.wf(),
            array@ == values@.take(i as int).map_values(|value: WorkflowArtifactKindV1| json_string(value.name())),
        decreases values.len() - i,
    {
        array.text(values[i].as_str());
        i += 1;
        assert(array@ =~= values@.take(i as int).map_values(|value: WorkflowArtifactKindV1| json_string(value.name())));
    }
    assert(values@.take(i as int) =~= values@);
    array.finish()
}

/// Unicode's white space.
pub open spec fn white_space(c: char) -> bool {
    ||| 0x9 <= c as int <= 0xd
    ||| c as int == 0x20
    ||| c as int == 0x85
    ||| c as int == 0xa0
    ||| c as int == 0x1680
    ||| 0x2000 <= c as int <= 0x200a
    ||| c as int == 0x2028
    ||| c as int == 0x2029
    ||| c as int == 0x202f
    ||| c as int == 0x205f
    ||| c as int == 0x3000
}

fn is_white_space(c: char) -> (r: bool)
    ensures
        r == white_space(c),
{
    let code: u32 = c as u32;
    (0x9 <= code && code <= 0xd) || code == 0x20 || code == 0x85 || code == 0xa0 || code == 0x1680 || (
    0x2000 <= code && code <= 0x200a) || code == 0x2028 || code == 0x2029 || code == 0x202f || code
        == 0x205f || code == 0x3000
}

/// A text without the white space it begins with.
pub open spec fn trimmed_start(text: Seq<char>) -> Seq<char>
    decreases text.len(),
{
    if text.len() > 0 && white_space(text[0]) {
        trimmed_start(text.drop_first())
    } else {
        text
    }
}

/// A text without the white space it ends with.
pub open spec fn trimmed_end(text: Seq<char>) -> Seq<char>
    decreases text.len(),
{
    if text.len() > 0 && white_space(text.last()) {
        trimmed_end(text.drop_last())
    } else {
        text
    }
}

/// A text without the white space around it.
pub open spec fn trimmed(text: Seq<char>) -> Seq<char> {
    trimmed_end(trimmed_start(text))
}

pub(crate) fn trim(text: &str) -> (r: String)
    ensures
        r@ == trimmed(text@),
{
    let all = characters(text);
    let mut from: usize = 0;
    assert(text@.skip(0) =~= text@);
    while from < all.len() && is_white_space(all[from])
        invariant
            from <= all.len(),
            all@ == text@,
            trimmed_start(text@) == trimmed_start(text@.skip(from as int)),
        decreases all.len() - from,
    {
        proof {
            assert(text@.skip(from as int).drop_first() =~= text@.skip(from + 1));
        }
        from += 1;
    }
    let ghost start = text@.skip(from as int);
    assert(trimmed_start(text@) == start);
    let mut to: usize = all.len();
    assert(text@.subrange(from as int, to as int) =~= start);
    while to > from && is_white_space(all[to - 1])
        invariant
            from <= to <= all.len(),
            all@ == text@,
            trimmed_end(start) == trimmed_end(text@.subrange(from as int, to as int)),
        decreases to - from,
    {
        proof {
            let part = text@.subrange(from as int, to as int);
            assert(part.last() == text@[to - 1]);
            assert(part.drop_last() =~= text@.subrange(from as int, to - 1));
        }
        to -= 1;
    }
    proof {
        let part = text@.subrange(from as int, to as int);
        if part.len() > 0 {
            assert(part.last() == text@[to - 1]);
        }
    }
    text_of(&all, from, to)
}

/// A node of a workflow.
#[derive(Clone, Debug, PartialEq, Eq)]
pub struct WorkflowNodeV1 {
    pub node_id: WorkflowNodeId,
    pub display_name: String,
    pub kind: WorkflowNodeKindV1,
    pub activation: WorkflowNodeActivationV1,
    pub profile_id: WorkflowProfileId,
    pub depends_on: Vec<WorkflowNodeId>,
    pub input_contracts: Vec<WorkflowArtifactKindV1>,
    pub output_contract: WorkflowArtifactKindV1,
}

impl WorkflowNodeV1 {
    /// The document as JSON text.
    pub open spec fn json(self) -> Seq<char> {
        json_object(
            no_members()
                .push(("node_id"@, json_string(self.node_id@)))
                .push(("display_name"@, json_string(self.display_name@)))
                .push(("kind"@, json_string(self.kind.name())))
                .push(("activation"@, json_string(self.activation.name())))
                .push(("profile_id"@, json_string(self.profile_id@)))
                .push(("depends_on"@, json_strings(node_ids(self.depends_on@))))
                .push(("input_contracts"@, artifact_kinds_json(self.input_contracts@)))
                .push(("output_contract"@, json_string(self.output_contract.name()))),
        )
    }

    pub fn to_json(&self) -> (r: String)
        ensures
            r@ == self.json(),
    {
        let mut object = JsonObject::new();
        object.text("node_id", self.node_id.as_str());
        object.text("display_name", self.display_name.as_str());
        object.text("kind", self.kind.as_str());
        object.text("activation", self.activation.as_str());
        object.text("profile_id", self.profile_id.as_str());
        let depends_on = node_ids_json(&self.depends_on);
        object.raw("depends_on", depends_on.as_str());
        let input_contracts = artifact_kinds_json_text(&self.input_contracts);
        object.raw("input_contracts", input_contracts.as_str());
        object.text("output_contract", self.output_contract.as_str());
        object.finish()
    }

    /// What is wrong with a node by itself.
    pub open spec fn local_fault(self) -> Option<WorkflowContractError> {
        let name = utf8(trimmed(self.display_name@));
        if name.len() == 0 || name.len() > 96 {
            Some(WorkflowContractError::InvalidDisplayName)
        } else if self.output_contract != self.kind.output() {
            Some(WorkflowContractError::ArtifactContractMismatch(self.node_id))
        } else if (self.kind is Rollback) != (self.activation is OnMutationFailure) {
            Some(WorkflowContractError::InvalidActivation(self.node_id))
        } else if !strictly_ordered(node_ids(self.depends_on@)) || node_ids(
            self.depends_on@,
        ).contains(self.node_id@) || !kinds_ordered(self.input_contracts@) {
            Some(WorkflowContractError::InvalidDependencies(self.node_id))
        } else {
            None
        }
    }

    pub(crate) fn validate_local(&self) -> (r: Result<(), WorkflowContractError>)
        ensures
            match r {
                Ok(()) => self.local_fault() is None,
                Err(error) => self.local_fault() == Some(error),
            },
    {
        let display_name = trim(self.display_name.as_str());
        let size: usize = display_name.as_str().as_bytes().len();
        if size == 0 || size > 96 {
            return Err(WorkflowContractError::InvalidDisplayName);
        }
        if self.output_contract != self.kind.expected_output() {
            return Err(WorkflowContractError::ArtifactContractMismatch(self.node_id.clone()));
        }
        if (self.kind == WorkflowNodeKindV1::Rollback) != (self.activation
            == WorkflowNodeActivationV1::OnMutationFailure) {
            return Err(WorkflowContractError::InvalidActivation(self.node_id.clone()));
        }
        if !node_ids_ordered(&self.depends_on) || contains_node_id(&self.depends_on, &self.node_id)
            || !artifact_kinds_ordered(&self.input_contracts) {
            return Err(WorkflowContractError::InvalidDependencies(self.node_id.clone()));
        }
        Ok(())
    }
}

/// Profiles as a JSON array.
pub open spec fn profiles_json(values: Seq<WorkflowExecutionProfileV1>) -> Seq<char> {
    json_array(values.map_values(|value: WorkflowExecutionProfileV1| value.json()))
}

fn profiles_json_text(values: &Vec<WorkflowExecutionProfileV1>) -> (r: String)
    ensures
        r@ == profiles_json(values@),
{
    let mut array = JsonArray::new();
    let mut i: usize = 0;
    while i < values.len()
        invariant
            i <= values.len(),
            array.wf(),
            array@ == values@.take(i as int).map_values(|value: WorkflowExecutionProfileV1| value.json()),
        decreases values.len() - i,
    {
        let item = values[i].to_json();
        array.raw(item.as_str());
        i += 1;
        assert(array@ =~= values@.take(i as int).map_values(|value: WorkflowExecutionProfileV1| value.json()));
    }
    assert(values@.take(i as int) =~= values@);
    array.finish()
}

/// Nodes as a JSON array.
pub open spec fn nodes_json(values: Seq<WorkflowNodeV1>) -> Seq<char> {
    json_array(values.map_values(|value: WorkflowNodeV1| value.json()))
}

fn nodes_json_text(values: &Vec<WorkflowNodeV1>) -> (r: String)
    ensures
        r@ == nodes_json(values@),
{
    let mut array = JsonArray::new();
    let mut i: usize = 0;
    while i < values.len()
        invariant
            i <= values.len(),
            array.wf(),
            array@ == values@.take(i as int).map_values(|value: WorkflowNodeV1| value.json()),
        decreases values.len() - i,
    {
        let item = values[i].to_json();
        array.raw(item.as_str());
        i += 1;
        assert(array@ =~= values@.take(i as int).map_values(|value: WorkflowNodeV1| value.json()));
    }
    assert(values@.take(i as int) =~= values@);
    array.finish()
}

/// The nodes of a workflow and the profiles that they run under.
#[derive(Clone, Debug, PartialEq, Eq)]
pub struct WorkflowPolicyV1 {
    pub schema_version: u16,
    pub fairness_weight: u16,
    pub delivery_mode: WorkflowDeliveryModeV1,
    pub execution_profiles: Vec<WorkflowExecutionProfileV1>,
    pub nodes: Vec<WorkflowNodeV1>,
}

impl WorkflowPolicyV1 {
    /// The document as JSON text. The delivery mode is left out where it is the usual one.
    pub open spec fn json(self) -> Seq<char> {
        let members = no_members()
            .push(("schema_version"@, json_nat(self.schema_version as nat)))
            .push(("fairness_weight"@, json_nat(self.fairness_weight as nat)));
        let members = if self.delivery_mode is ExecutorMutation {
            members
        } else {
            members.push(("delivery_mode"@, json_string(self.delivery_mode.name())))
        };
        json_object(
            members
                .push(("execution_profiles"@, profiles_json(self.execution_profiles@)))
                .push(("nodes"@, nodes_json(self.nodes@))),
        )
    }

    pub fn to_json(&self) -> (r: String)
        ensures
            r@ == self.json(),
    {
        let mut object = JsonObject::new();
        object.number("schema_version", self.schema_version as u64);
        object.number("fairness_weight", self.fairness_weight as u64);
        if self.delivery_mode != WorkflowDeliveryModeV1::ExecutorMutation {
            object.text("delivery_mode", self.delivery_mode.as_str());
        }
        let execution_profiles = profiles_json_text(&self.execution_profiles);
        object.raw("execution_profiles", execution_profiles.as_str());
        let nodes = nodes_json_text(&self.nodes);
        object.raw("nodes", nodes.as_str());
        object.finish()
    }
}

} // verus!
