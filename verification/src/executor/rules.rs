//! What an operation needs in each of its phases.

use vstd::prelude::*;
use super::phase_steps::ExternalEffectError;
use crate::domain::artifacts::{PhaseArtifacts, PhaseReceipt};
use crate::domain::failure::{FailureCapsule, StructuredError};
use crate::domain::identifiers::{digest_option, EvidenceDigest};
use crate::domain::operation::{OperationKind, ReleaseClass};
use crate::domain::record::OperationRecord;
use crate::domain::states::{BlockingReason, OperationPhase, OperationResult, Retryability};

verus! {

/// What only one attempt at a time can hold.
#[derive(Clone, Copy, Debug, PartialEq, Eq, Structural)]
pub enum ExecutionResource {
    GlobalBuild,
    GlobalHeavyIo,
    GlobalLocalRegistry,
    ProjectDeploy,
}

/// Why the source of a deployment cannot be relied on.
#[derive(Clone, Copy, Debug, PartialEq, Eq, Structural)]
pub enum SourceGateError {
    Unavailable,
    AttestationInvalid,
    Diverged,
    BlockedSha,
    Paused,
    HeadSuperseded,
}

impl SourceGateError {
    /// What an operation waits for.
    pub open spec fn reason(self) -> BlockingReason {
        match self {
            SourceGateError::Unavailable => BlockingReason::SourceBrokerUnavailable,
            SourceGateError::AttestationInvalid => BlockingReason::SourceAttestationInvalid,
            SourceGateError::Diverged => BlockingReason::SourceDivergence,
            SourceGateError::BlockedSha => BlockingReason::OperatorHold,
            SourceGateError::Paused => BlockingReason::OperatorHold,
            SourceGateError::HeadSuperseded => BlockingReason::SourceHeadSuperseded,
        }
    }

    pub fn source_blocking_reason(self) -> (r: BlockingReason)
        ensures
            r == self.reason(),
    {
        match self {
            SourceGateError::Unavailable => BlockingReason::SourceBrokerUnavailable,
            SourceGateError::AttestationInvalid => BlockingReason::SourceAttestationInvalid,
            SourceGateError::Diverged => BlockingReason::SourceDivergence,
            SourceGateError::BlockedSha => BlockingReason::OperatorHold,
            SourceGateError::Paused => BlockingReason::OperatorHold,
            SourceGateError::HeadSuperseded => BlockingReason::SourceHeadSuperseded,
        }
    }

    /// The code that a failure is told by.
    pub open spec fn code(self) -> Seq<char> {
        match self {
            SourceGateError::Unavailable => "source_broker_unavailable"@,
            SourceGateError::AttestationInvalid => "source_attestation_invalid"@,
            SourceGateError::Diverged => "source_diverged"@,
            SourceGateError::BlockedSha => "source_sha_blocked"@,
            SourceGateError::Paused => "source_reconciliation_paused"@,
            SourceGateError::HeadSuperseded => "source_head_superseded"@,
        }
    }

    /// The sentence that a failure is told in.
    pub open spec fn summary(self) -> Seq<char> {
        match self {
            SourceGateError::Unavailable => "The source broker is unavailable"@,
            SourceGateError::AttestationInvalid => "The signed accepted-head evidence is invalid"@,
            SourceGateError::Diverged => "Source histories diverged and require an owner decision"@,
            SourceGateError::BlockedSha => "The canonical source SHA is blocked by policy"@,
            SourceGateError::Paused => "Source reconciliation is paused by policy"@,
            SourceGateError::HeadSuperseded => "A newer canonical main head superseded this deployment before mutation"@,
        }
    }

    /// The capsule of a source that failed: it can be tried again by itself.
    pub fn source_failure_capsule(self) -> (r: FailureCapsule)
        ensures
            r.schema_version == 1,
            r.failing_step@ == "verifying_source"@,
            r.error.code@ == self.code(),
            r.error.summary@ == self.summary(),
            r.error.retryability == Retryability::Automatic,
            r.error.runbook_id is None,
            r.excerpt@ == self.summary(),
            !r.truncated,
            r.v2 is None,
    {
        let (code, summary) = match self {
            SourceGateError::Unavailable => ("source_broker_unavailable", "The source broker is unavailable"),
            SourceGateError::AttestationInvalid => ("source_attestation_invalid", "The signed accepted-head evidence is invalid"),
            SourceGateError::Diverged => ("source_diverged", "Source histories diverged and require an owner decision"),
            SourceGateError::BlockedSha => ("source_sha_blocked", "The canonical source SHA is blocked by policy"),
            SourceGateError::Paused => ("source_reconciliation_paused", "Source reconciliation is paused by policy"),
            SourceGateError::HeadSuperseded => ("source_head_superseded", "A newer canonical main head superseded this deployment before mutation"),
        };
        FailureCapsule {
            schema_version: 1,
            failing_step: "verifying_source".to_owned(),
            error: StructuredError {
                code: code.to_owned(),
                summary: summary.to_owned(),
                retryability: Retryability::Automatic,
                runbook_id: None,
            },
            excerpt: summary.to_owned(),
            truncated: false,
            v2: None,
        }
    }
}

/// The capsule of a phase whose effect is not known: an operator decides.
pub fn reconciliation_capsule(phase: OperationPhase) -> (r: FailureCapsule)
    ensures
        r.schema_version == 1,
        r.failing_step@ == phase.name(),
        r.error.code@ == "executor_evidence_ambiguous"@,
        r.error.summary@ == "External state does not match the persisted executor intent"@,
        r.error.retryability == Retryability::OperatorRunbook,
        r.error.runbook_id is None,
        r.excerpt@
            == "Mutation remains fenced; reconcile the security journal with actual state."@,
        !r.truncated,
        r.v2 is None,
{
    FailureCapsule {
        schema_version: 1,
        failing_step: phase.as_str().to_owned(),
        error: StructuredError {
            code: "executor_evidence_ambiguous".to_owned(),
            summary: "External state does not match the persisted executor intent".to_owned(),
            retryability: Retryability::OperatorRunbook,
            runbook_id: None,
        },
        excerpt: "Mutation remains fenced; reconcile the security journal with actual state.".to_owned(),
        truncated: false,
        v2: None,
    }
}

/// A block that ends by itself once the source can be asked again.
pub fn is_retryable_source_block(reason: BlockingReason) -> (r: bool)
    ensures
        r == (reason is SourceBrokerUnavailable),
{
    reason == BlockingReason::SourceBrokerUnavailable
}

impl OperationPhase {
    /// Disk space is set aside before the phase: always but in the queue, while the source is
    /// fetched and verified, while the service drains, and in reconciliation.
    pub open spec fn reserves_disk(self) -> bool {
        !(self is Queued || self is SyncingSource || self is VerifyingSource || self is Draining
            || self is Reconciliation)
    }

    pub fn requires_disk_reservation(self) -> (r: bool)
        ensures
            r == self.reserves_disk(),
    {
        match self {
            OperationPhase::Queued
            | OperationPhase::SyncingSource
            | OperationPhase::VerifyingSource
            | OperationPhase::Draining
            | OperationPhase::Reconciliation => false,
            _ => true,
        }
    }

    /// The phase needs the project for itself: from the preflight on, but in reconciliation.
    pub open spec fn locks_project(self) -> bool {
        !(self is Queued || self is SyncingSource || self is VerifyingSource || self is Testing
            || self is Building || self is Reconciliation)
    }

    pub fn requires_project_lock(self) -> (r: bool)
        ensures
            r == self.locks_project(),
    {
        match self {
            OperationPhase::Queued
            | OperationPhase::SyncingSource
            | OperationPhase::VerifyingSource
            | OperationPhase::Testing
            | OperationPhase::Building
            | OperationPhase::Reconciliation => false,
            _ => true,
        }
    }

    /// The phase uses the local registry.
    pub open spec fn uses_registry(self) -> bool {
        self is Building || self is Deploying
    }

    /// What the phase uses that all projects share.
    pub open spec fn shared_resource(self) -> Option<ExecutionResource> {
        if self is Testing || self is Building {
            Some(ExecutionResource::GlobalBuild)
        } else if self is BackingUp || self is CutoverSnapshotting || self is Migrating {
            Some(ExecutionResource::GlobalHeavyIo)
        } else {
            None
        }
    }

    pub fn phase_resource(self) -> (r: Option<ExecutionResource>)
        ensures
            r == self.shared_resource(),
    {
        match self {
            OperationPhase::Testing | OperationPhase::Building => Some(
                ExecutionResource::GlobalBuild,
            ),
            OperationPhase::BackingUp
            | OperationPhase::CutoverSnapshotting
            | OperationPhase::Migrating => Some(ExecutionResource::GlobalHeavyIo),
            _ => None,
        }
    }
}

impl OperationRecord {
    /// A deployment that changes data.
    pub open spec fn stateful(self) -> bool {
        self.operation_kind is Deploy && (self.release_class == Some(
            ReleaseClass::StatefulCompatible,
        ) || self.release_class == Some(ReleaseClass::StatefulBreaking))
    }

    pub fn is_stateful_deploy(&self) -> (r: bool)
        ensures
            r == self.stateful(),
    {
        self.operation_kind == OperationKind::Deploy && (self.release_class == Some(
            ReleaseClass::StatefulCompatible,
        ) || self.release_class == Some(ReleaseClass::StatefulBreaking))
    }

    /// The phase in which the source of a deployment must still be the head: the first that
    /// changes anything.
    pub open spec fn source_admitted_in(self) -> Option<OperationPhase> {
        if self.stateful() {
            Some(OperationPhase::BackingUp)
        } else if self.operation_kind is Deploy && self.release_class == Some(
            ReleaseClass::CodeOnlyCompatible,
        ) {
            Some(OperationPhase::Deploying)
        } else {
            None
        }
    }

    pub fn live_source_admission_phase(&self) -> (r: Option<OperationPhase>)
        ensures
            r == self.source_admitted_in(),
    {
        if self.operation_kind != OperationKind::Deploy {
            return None;
        }
        match self.release_class {
            Some(ReleaseClass::CodeOnlyCompatible) => Some(OperationPhase::Deploying),
            Some(ReleaseClass::StatefulCompatible) => Some(OperationPhase::BackingUp),
            Some(ReleaseClass::StatefulBreaking) => Some(OperationPhase::BackingUp),
            _ => None,
        }
    }

    /// The phase after which the source of a deployment may move on.
    pub open spec fn source_completed_in(self) -> Option<OperationPhase> {
        if self.stateful() {
            Some(OperationPhase::CutoverSnapshotting)
        } else if self.operation_kind is Deploy && self.release_class == Some(
            ReleaseClass::CodeOnlyCompatible,
        ) {
            Some(OperationPhase::Deploying)
        } else {
            None
        }
    }

    pub fn live_source_completion_phase(&self) -> (r: Option<OperationPhase>)
        ensures
            r == self.source_completed_in(),
    {
        if self.operation_kind != OperationKind::Deploy {
            return None;
        }
        match self.release_class {
            Some(ReleaseClass::CodeOnlyCompatible) => Some(OperationPhase::Deploying),
            Some(ReleaseClass::StatefulCompatible) => Some(OperationPhase::CutoverSnapshotting),
            Some(ReleaseClass::StatefulBreaking) => Some(OperationPhase::CutoverSnapshotting),
            _ => None,
        }
    }

    pub fn requires_live_source_check(&self) -> (r: bool)
        ensures
            r == (self.source_admitted_in() == Some(self.state.phase)),
    {
        self.live_source_admission_phase() == Some(self.state.phase)
    }
}

/// What is known once the effect of a phase was observed.
#[derive(Clone, Debug, PartialEq, Eq)]
pub struct PhaseEffectEvidence {
    pub intent_digest: EvidenceDigest,
    pub observation_digest: EvidenceDigest,
    pub artifacts: PhaseArtifacts,
}

/// What is found of the effect of a phase.
#[derive(Clone, Debug, PartialEq, Eq)]
pub enum EffectObservation {
    Absent,
    Applied(Box<PhaseEffectEvidence>),
}

impl PhaseEffectEvidence {
    /// Adds the proof of the source, unless the effect tells of another.
    pub fn with_source_proof(
        self,
        found: Option<EvidenceDigest>,
    ) -> (r: Option<PhaseEffectEvidence>)
        ensures
            match r {
                Some(evidence) => {
                    &&& evidence == (PhaseEffectEvidence {
                        artifacts: PhaseArtifacts {
                            source_gate_proof_digest: if self.artifacts.source_gate_proof_digest is None {
                                found
                            } else {
                                self.artifacts.source_gate_proof_digest
                            },
                            ..self.artifacts
                        },
                        ..self
                    })
                    &&& found is Some ==> digest_option(
                        evidence.artifacts.source_gate_proof_digest,
                    ) == digest_option(found)
                },
                None => found is Some && self.artifacts.source_gate_proof_digest is Some
                    && digest_option(self.artifacts.source_gate_proof_digest) != digest_option(
                    found,
                ),
            },
    {
        let mut evidence = self;
        match found {
            None => {},
            Some(found) => match &evidence.artifacts.source_gate_proof_digest {
                Some(existing) => if *existing != found {
                    return None;
                },
                None => {
                    evidence.artifacts.source_gate_proof_digest = Some(found);
                },
            },
        }
        Some(evidence)
    }
}

/// The evidence that is recorded of an effect that was looked for once it was brought about, with
/// the proof of the source where one is needed. There is none where the effect is not found, or tells
/// of another source.
pub fn usable_evidence(
    found: Result<EffectObservation, ExternalEffectError>,
    proof_digest: Option<EvidenceDigest>,
) -> (r: Option<PhaseEffectEvidence>)
    ensures
        match found {
            Ok(EffectObservation::Applied(applied)) => {
                let told = applied.artifacts.source_gate_proof_digest;
                let agrees = proof_digest is None || told is None || digest_option(told)
                    == digest_option(proof_digest);
                match r {
                    Some(evidence) => agrees && evidence == (PhaseEffectEvidence {
                        artifacts: PhaseArtifacts {
                            source_gate_proof_digest: if told is None {
                                proof_digest
                            } else {
                                told
                            },
                            ..applied.artifacts
                        },
                        ..*applied
                    }),
                    None => !agrees,
                }
            },
            _ => r is None,
        },
{
    match found {
        Ok(EffectObservation::Applied(applied)) => {
            let evidence = *applied;
            evidence.with_source_proof(proof_digest)
        },
        _ => None,
    }
}

/// What can be made of a deployment that is in reconciliation, as far as its source goes.
#[derive(Clone, Copy, Debug, PartialEq, Eq, Structural)]
pub enum CommittedSource {
    /// It was not left in the phase that completes the source.
    Elsewhere,
    /// The receipts or the proof do not bear it out.
    Ambiguous,
    /// The phase was carried out: the source may move on, and its receipt can be committed.
    Completed,
    /// The operation is not in reconciliation.
    InvalidOperationState,
}

impl CommittedSource {
    /// What can be made of the source once it was told that it may move on. Where it could not be
    /// told, nothing is certain.
    pub fn after_ticket(self, completed: &Result<(), SourceGateError>) -> (r: CommittedSource)
        ensures
            r == if self is Completed && completed is Err {
                CommittedSource::Ambiguous
            } else {
                self
            },
    {
        match (self, completed) {
            (CommittedSource::Completed, Err(_)) => CommittedSource::Ambiguous,
            _ => self,
        }
    }
}

impl OperationRecord {
    /// The phase that completes the source was left for reconciliation by the last transition.
    pub open spec fn left_in_completion(self) -> bool {
        self.source_completed_in() matches Some(phase) && self.entered_reconciliation_from(phase)
    }

    /// What can be made of the source: it was completed where the receipts of the phases that
    /// admit and complete it are there, and the first carries the proof that was recorded.
    pub open spec fn committed_source(
        self,
        completion_found: bool,
        admission: Option<PhaseReceipt>,
        found: Option<EvidenceDigest>,
    ) -> CommittedSource {
        if !(self.state.phase is Reconciliation) {
            CommittedSource::InvalidOperationState
        } else if !self.left_in_completion() {
            CommittedSource::Elsewhere
        } else if completion_found && admission is Some && found is Some && digest_option(
            admission->0.artifacts.source_gate_proof_digest,
        ) == digest_option(found) {
            CommittedSource::Completed
        } else {
            CommittedSource::Ambiguous
        }
    }

    pub fn reconcile_committed_source(
        &self,
        completion_found: bool,
        admission: &Option<PhaseReceipt>,
        found: &Option<EvidenceDigest>,
    ) -> (r: CommittedSource)
        ensures
            r == self.committed_source(completion_found, *admission, *found),
    {
        if self.state.phase != OperationPhase::Reconciliation {
            return CommittedSource::InvalidOperationState;
        }
        let left = match self.live_source_completion_phase() {
            Some(phase) => self.has_entered_reconciliation_from(phase),
            None => false,
        };
        if !left {
            return CommittedSource::Elsewhere;
        }
        if !completion_found {
            return CommittedSource::Ambiguous;
        }
        match (admission, found) {
            (Some(admission), Some(found)) => match &admission.artifacts.source_gate_proof_digest {
                Some(digest) => if *digest == *found {
                    CommittedSource::Completed
                } else {
                    CommittedSource::Ambiguous
                },
                None => CommittedSource::Ambiguous,
            },
            _ => CommittedSource::Ambiguous,
        }
    }
}

/// What is given back when an attempt ends.
#[derive(Clone, Copy, Debug, PartialEq, Eq, Structural)]
pub enum ResourceRelease {
    Resource(ExecutionResource),
    DiskReservation,
}

impl OperationRecord {
    /// What an attempt that has ended gives back, in order; one that runs gives back nothing.
    pub open spec fn terminal_releases(self) -> Seq<ResourceRelease> {
        if self.state.result is Running {
            seq![]
        } else {
            let always = seq![]
                .push(ResourceRelease::Resource(ExecutionResource::ProjectDeploy))
                .push(ResourceRelease::DiskReservation)
                .push(ResourceRelease::Resource(ExecutionResource::GlobalLocalRegistry));
            match self.state.phase.shared_resource() {
                Some(resource) => always.push(ResourceRelease::Resource(resource)),
                None => always,
            }
        }
    }

    pub fn cleanup_terminal_resources(&self) -> (r: Vec<ResourceRelease>)
        ensures
            r@ == self.terminal_releases(),
    {
        let mut releases: Vec<ResourceRelease> = Vec::new();
        if self.state.result == OperationResult::Running {
            return releases;
        }
        releases.push(ResourceRelease::Resource(ExecutionResource::ProjectDeploy));
        releases.push(ResourceRelease::DiskReservation);
        releases.push(ResourceRelease::Resource(ExecutionResource::GlobalLocalRegistry));
        match self.state.phase.phase_resource() {
            Some(resource) => releases.push(ResourceRelease::Resource(resource)),
            None => {},
        }
        releases
    }

    /// What a phase gives back once it is over, in order.
    pub open spec fn phase_releases(phase: OperationPhase) -> Seq<ResourceRelease> {
        let shared = match phase.shared_resource() {
            Some(resource) => seq![].push(ResourceRelease::Resource(resource)),
            None => seq![],
        };
        if phase is Deploying {
            shared.push(ResourceRelease::Resource(ExecutionResource::GlobalLocalRegistry))
        } else {
            shared
        }
    }

    pub fn cleanup_ephemeral_resource(phase: OperationPhase) -> (r: Vec<ResourceRelease>)
        ensures
            r@ == OperationRecord::phase_releases(phase),
    {
        let mut releases: Vec<ResourceRelease> = Vec::new();
        match phase.phase_resource() {
            Some(resource) => releases.push(ResourceRelease::Resource(resource)),
            None => {},
        }
        if phase == OperationPhase::Deploying {
            releases.push(ResourceRelease::Resource(ExecutionResource::GlobalLocalRegistry));
        }
        releases
    }

    /// What an attempt gives back while it waits for its source, in order.
    pub open spec fn suspension_releases(phase: OperationPhase) -> Seq<ResourceRelease> {
        OperationRecord::phase_releases(phase)
            .push(ResourceRelease::DiskReservation)
            .push(ResourceRelease::Resource(ExecutionResource::GlobalLocalRegistry))
            .push(ResourceRelease::Resource(ExecutionResource::ProjectDeploy))
    }

    pub fn suspend_pre_mutation_resources(phase: OperationPhase) -> (r: Vec<ResourceRelease>)
        ensures
            r@ == OperationRecord::suspension_releases(phase),
    {
        let mut releases = OperationRecord::cleanup_ephemeral_resource(phase);
        releases.push(ResourceRelease::DiskReservation);
        releases.push(ResourceRelease::Resource(ExecutionResource::GlobalLocalRegistry));
        releases.push(ResourceRelease::Resource(ExecutionResource::ProjectDeploy));
        releases
    }
}

/// Whatever an attempt may hold in a phase, it gives back when it ends in that phase.
pub proof fn law_ended_attempts_hold_nothing(operation: OperationRecord)
    requires
        !(operation.state.result is Running),
    ensures
        operation.state.phase.locks_project() ==> operation.terminal_releases().contains(
            ResourceRelease::Resource(ExecutionResource::ProjectDeploy),
        ),
        operation.state.phase.reserves_disk() ==> operation.terminal_releases().contains(
            ResourceRelease::DiskReservation,
        ),
        operation.state.phase.uses_registry() ==> operation.terminal_releases().contains(
            ResourceRelease::Resource(ExecutionResource::GlobalLocalRegistry),
        ),
        operation.state.phase.shared_resource() matches Some(resource)
            ==> operation.terminal_releases().contains(ResourceRelease::Resource(resource)),
{
    let releases = operation.terminal_releases();
    assert(releases[0] == ResourceRelease::Resource(ExecutionResource::ProjectDeploy));
    assert(releases[1] == ResourceRelease::DiskReservation);
    assert(releases[2] == ResourceRelease::Resource(ExecutionResource::GlobalLocalRegistry));
    match operation.state.phase.shared_resource() {
        Some(resource) => {
            assert(releases[3] == ResourceRelease::Resource(resource));
        },
        None => {},
    }
}

/// The source of a deployment is admitted before anything is changed, and completed no earlier.
pub proof fn law_source_is_admitted_before_mutation(
    operation: OperationRecord,
    phase: OperationPhase,
)
    requires
        operation.source_admitted_in() is Some,
        operation.operation_kind.plan(operation.release_class) is Some,
        operation.operation_kind.plan(operation.release_class)->0.contains(phase),
        !phase.before_mutation(),
    ensures
        ({
            let plan = operation.operation_kind.plan(operation.release_class)->0;
            let admitted = operation.source_admitted_in()->0;
            crate::controller::transitions::place_of(plan, admitted)
                <= crate::controller::transitions::place_of(plan, phase)
        }),
{
    let plan = operation.operation_kind.plan(operation.release_class)->0;
    let at = choose|at: int| 0 <= at < plan.len() && plan[at] == phase;
    crate::domain::operation::law_plans_progress(operation.operation_kind, operation.release_class);
    lemma_place_of(plan, at);
    if operation.stateful() {
        lemma_place_of(plan, 6);
    } else {
        lemma_place_of(plan, 6);
    }
}

proof fn lemma_place_of(plan: Seq<OperationPhase>, at: int)
    requires
        0 <= at < plan.len(),
        forall|i: int, j: int| 0 <= i < j < plan.len() ==> plan[i] != plan[j],
    ensures
        crate::controller::transitions::place_of(plan, plan[at]) == at,
    decreases plan.len(),
{
    if at > 0 {
        let rest = plan.drop_first();
        assert(rest[at - 1] == plan[at]);
        assert forall|i: int, j: int| 0 <= i < j < rest.len() implies rest[i] != rest[j] by {
            assert(rest[i] == plan[i + 1] && rest[j] == plan[j + 1]);
        }
        lemma_place_of(rest, at - 1);
        assert(plan[0] != plan[at]);
    }
}

} // verus!
