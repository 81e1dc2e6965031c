//! Acquiring and releasing the write fence of a project, one step at a time, and recovering it.

use vstd::prelude::*;
use super::phase_steps::{
    ExternalEffectError,
    PhaseCrashPoint,
    PhaseExecutionError,
    PhasePlan,
    PhaseRun,
};
use super::rules::SourceGateError;
use crate::controller::StoreError;
use crate::domain::identifiers::{digest_option, EvidenceDigest, ProjectId};
use crate::domain::record::OperationRecord;
use crate::domain::states::OperationPhase;
use crate::fence_adapter::{FenceJournalState, FenceLease, FenceObservation};
use crate::text::{is_text_before, lemma_contains_pushed, text_before};
use crate::unique_id::Uuid;

verus! {

/// Where a run can be made to stop, to try what a restart makes of it.
#[derive(Clone, Copy, Debug, PartialEq, Eq, Structural)]
pub enum FenceCrashPoint {
    AfterIntentPersisted,
    AfterEffectApplied,
    AfterObservationPersisted,
}

/// Why a fence is not acquired or released.
#[derive(Clone, Copy, Debug, PartialEq, Eq)]
pub enum FenceExecutionError {
    Store(StoreError),
    External(ExternalEffectError),
    InjectedCrash(FenceCrashPoint),
    NeedsReconcile,
    /// What came back is no answer to the step.
    UnexpectedEvent,
}

/// What the journal makes of what was found of a fence.
#[derive(Clone, Copy, Debug, PartialEq, Eq, Structural)]
pub enum FenceProjection {
    Held,
    Released,
    NeedsReconcile,
}

/// The identity of a backup.
#[derive(Clone, Copy, Debug, PartialEq, Eq, Structural)]
pub struct BackupBoundaryLease {
    pub attempt_id: Uuid,
}

/// The identity of a drain.
#[derive(Clone, Copy, Debug, PartialEq, Eq, Structural)]
pub struct DrainIdentityLease {
    pub attempt_id: Uuid,
}

/// The identity that a phase is carried out under.
#[derive(Clone, Copy, Debug, PartialEq, Eq, Structural)]
pub enum PhaseOperationIdentityLeaseV1 {
    BaseBackup(BackupBoundaryLease),
    Drain(DrainIdentityLease),
}

/// The identity that a phase is carried out under: a backup or a drain needs the one that is active
/// to be of its own attempt.
pub open spec fn phase_identity(
    plan: PhasePlan,
    attempt_id: Uuid,
    backup: Option<BackupBoundaryLease>,
    drain: Option<DrainIdentityLease>,
) -> Result<Option<PhaseOperationIdentityLeaseV1>, PhaseExecutionError> {
    if plan.backup_boundary {
        match backup {
            Some(identity) => if identity.attempt_id == attempt_id {
                Ok(Some(PhaseOperationIdentityLeaseV1::BaseBackup(identity)))
            } else {
                Err(PhaseExecutionError::NeedsReconcile)
            },
            None => Err(PhaseExecutionError::NeedsReconcile),
        }
    } else if plan.drain_identity {
        match drain {
            Some(identity) => if identity.attempt_id == attempt_id {
                Ok(Some(PhaseOperationIdentityLeaseV1::Drain(identity)))
            } else {
                Err(PhaseExecutionError::NeedsReconcile)
            },
            None => Err(PhaseExecutionError::NeedsReconcile),
        }
    } else {
        Ok(None)
    }
}

pub fn operation_identity_for_phase(
    plan: PhasePlan,
    attempt_id: Uuid,
    backup: Option<BackupBoundaryLease>,
    drain: Option<DrainIdentityLease>,
) -> (r: Result<Option<PhaseOperationIdentityLeaseV1>, PhaseExecutionError>)
    ensures
        r == phase_identity(plan, attempt_id, backup, drain),
{
    if plan.backup_boundary {
        match backup {
            Some(identity) => if identity.attempt_id == attempt_id {
                return Ok(Some(PhaseOperationIdentityLeaseV1::BaseBackup(identity)));
            },
            None => {},
        }
        return Err(PhaseExecutionError::NeedsReconcile);
    }
    if plan.drain_identity {
        match drain {
            Some(identity) => if identity.attempt_id == attempt_id {
                return Ok(Some(PhaseOperationIdentityLeaseV1::Drain(identity)));
            },
            None => {},
        }
        return Err(PhaseExecutionError::NeedsReconcile);
    }
    Ok(None)
}

impl FenceLease {
    /// What is found is this fence, held.
    pub open spec fn is_held_as(self, observation: FenceObservation) -> bool {
        observation == FenceObservation::Held {
            attempt_id: self.attempt_id,
            epoch: self.epoch,
            token: self.token,
        }
    }

    pub fn is_observed(&self, observation: FenceObservation) -> (r: bool)
        ensures
            r == self.is_held_as(observation),
    {
        match observation {
            FenceObservation::Released => false,
            FenceObservation::Held { attempt_id, epoch, token } => attempt_id == self.attempt_id
                && epoch == self.epoch && token == self.token,
        }
    }
}

/// What a fence is being brought to.
#[derive(Clone, Copy, Debug, PartialEq, Eq, Structural)]
pub enum FenceGoal {
    Acquire,
    Release,
}

/// What is done next about a fence.
#[derive(Clone, Copy, Debug, PartialEq, Eq, Structural)]
pub enum FenceRunStep {
    /// The fence is looked for before anything is done.
    Observe,
    /// The fence is set or lifted.
    Apply,
    /// The journal is told of a fence that is not this one.
    ReconcileForeign,
    /// The fence is looked for again, and the journal is told what was found.
    ObserveAgain,
    /// The journal is asked for the fence that was acquired.
    FindLease,
    /// The fence is where it should be.
    Finished,
}

/// What came back of a step.
#[derive(Clone, Copy, Debug, PartialEq, Eq)]
pub enum FenceRunEvent {
    Observed(FenceObservation),
    Applied(Result<(), ExternalEffectError>),
    Projected(FenceProjection),
    /// The journal holds a fence, or none.
    Found(bool),
}

/// What follows a step, given what came back of it. A fence of someone else is left alone.
pub open spec fn following_fence_step(
    goal: FenceGoal,
    lease: FenceLease,
    crash_at: Option<FenceCrashPoint>,
    step: FenceRunStep,
    event: FenceRunEvent,
) -> Result<FenceRunStep, FenceExecutionError> {
    match (step, event) {
        (FenceRunStep::Observe, FenceRunEvent::Observed(observation)) => {
            let there = match goal {
                FenceGoal::Acquire => lease.is_held_as(observation),
                FenceGoal::Release => observation is Released,
            };
            let reachable = match goal {
                FenceGoal::Acquire => observation is Released,
                FenceGoal::Release => lease.is_held_as(observation),
            };
            if there {
                if crash_at == Some(FenceCrashPoint::AfterEffectApplied) {
                    Err(FenceExecutionError::InjectedCrash(FenceCrashPoint::AfterEffectApplied))
                } else {
                    Ok(FenceRunStep::ObserveAgain)
                }
            } else if reachable {
                Ok(FenceRunStep::Apply)
            } else {
                Ok(FenceRunStep::ReconcileForeign)
            }
        },
        (FenceRunStep::ReconcileForeign, FenceRunEvent::Projected(_)) => Err(
            FenceExecutionError::NeedsReconcile,
        ),
        (FenceRunStep::Apply, FenceRunEvent::Applied(outcome)) => match outcome {
            Err(error) => Err(FenceExecutionError::External(error)),
            Ok(_) => if crash_at == Some(FenceCrashPoint::AfterEffectApplied) {
                Err(FenceExecutionError::InjectedCrash(FenceCrashPoint::AfterEffectApplied))
            } else {
                Ok(FenceRunStep::ObserveAgain)
            },
        },
        (FenceRunStep::ObserveAgain, FenceRunEvent::Projected(projection)) => {
            let reached = match goal {
                FenceGoal::Acquire => projection is Held,
                FenceGoal::Release => projection is Released,
            };
            if !reached {
                Err(FenceExecutionError::NeedsReconcile)
            } else if crash_at == Some(FenceCrashPoint::AfterObservationPersisted) {
                Err(FenceExecutionError::InjectedCrash(FenceCrashPoint::AfterObservationPersisted))
            } else {
                match goal {
                    FenceGoal::Acquire => Ok(FenceRunStep::FindLease),
                    FenceGoal::Release => Ok(FenceRunStep::Finished),
                }
            }
        },
        (FenceRunStep::FindLease, FenceRunEvent::Found(found)) => if found {
            Ok(FenceRunStep::Finished)
        } else {
            Err(FenceExecutionError::NeedsReconcile)
        },
        _ => Err(FenceExecutionError::UnexpectedEvent),
    }
}

/// A run that brings a fence somewhere.
#[derive(Debug)]
pub struct FenceRun {
    pub goal: FenceGoal,
    pub lease: FenceLease,
    pub crash_at: Option<FenceCrashPoint>,
    pub step: FenceRunStep,
}

impl FenceRun {
    /// What keeps a run from beginning: to acquire a fence, its journal must be in order.
    pub open spec fn start_fault(
        goal: FenceGoal,
        state: FenceJournalState,
        crash_at: Option<FenceCrashPoint>,
    ) -> Option<FenceExecutionError> {
        if goal is Acquire && state is NeedsReconcile {
            Some(FenceExecutionError::NeedsReconcile)
        } else if crash_at == Some(FenceCrashPoint::AfterIntentPersisted) {
            Some(FenceExecutionError::InjectedCrash(FenceCrashPoint::AfterIntentPersisted))
        } else {
            None
        }
    }

    /// Begins a run, once the intent is in the journal.
    pub fn begin(
        goal: FenceGoal,
        lease: FenceLease,
        crash_at: Option<FenceCrashPoint>,
    ) -> (r: Result<
        FenceRun,
        FenceExecutionError,
    >)
        ensures
            match r {
                Ok(run) => FenceRun::start_fault(goal, lease.state, crash_at) is None && run
                    == (FenceRun { goal, lease, crash_at, step: FenceRunStep::Observe }),
                Err(error) => FenceRun::start_fault(goal, lease.state, crash_at) == Some(error),
            },
    {
        if goal == FenceGoal::Acquire && lease.state == FenceJournalState::NeedsReconcile {
            return Err(FenceExecutionError::NeedsReconcile);
        }
        if crash_at == Some(FenceCrashPoint::AfterIntentPersisted) {
            return Err(FenceExecutionError::InjectedCrash(FenceCrashPoint::AfterIntentPersisted));
        }
        Ok(FenceRun { goal, lease, crash_at, step: FenceRunStep::Observe })
    }

    /// Goes on with a run once a step was done.
    pub fn advance(&mut self, event: FenceRunEvent) -> (r: Result<(), FenceExecutionError>)
        ensures
            match r {
                Ok(()) => {
                    &&& following_fence_step(
                        old(self).goal,
                        old(self).lease,
                        old(self).crash_at,
                        old(self).step,
                        event,
                    ) == Ok::<_, FenceExecutionError>(final(self).step)
                    &&& *final(self) == (FenceRun { step: final(self).step, ..*old(self) })
                },
                Err(error) => {
                    &&& following_fence_step(
                        old(self).goal,
                        old(self).lease,
                        old(self).crash_at,
                        old(self).step,
                        event,
                    ) == Err::<FenceRunStep, _>(error)
                    &&& *final(self) == *old(self)
                },
            },
    {
        let next = match (self.step, event) {
            (FenceRunStep::Observe, FenceRunEvent::Observed(observation)) => {
                let held = self.lease.is_observed(observation);
                let released = observation == FenceObservation::Released;
                let (there, reachable) = match self.goal {
                    FenceGoal::Acquire => (held, released),
                    FenceGoal::Release => (released, held),
                };
                if there {
                    if self.crash_at == Some(FenceCrashPoint::AfterEffectApplied) {
                        return Err(
                            FenceExecutionError::InjectedCrash(FenceCrashPoint::AfterEffectApplied),
                        );
                    }
                    FenceRunStep::ObserveAgain
                } else if reachable {
                    FenceRunStep::Apply
                } else {
                    FenceRunStep::ReconcileForeign
                }
            },
            (FenceRunStep::ReconcileForeign, FenceRunEvent::Projected(_)) => {
                return Err(FenceExecutionError::NeedsReconcile);
            },
            (FenceRunStep::Apply, FenceRunEvent::Applied(outcome)) => {
                match outcome {
                    Err(error) => return Err(FenceExecutionError::External(error)),
                    Ok(_) => {},
                }
                if self.crash_at == Some(FenceCrashPoint::AfterEffectApplied) {
                    return Err(
                        FenceExecutionError::InjectedCrash(FenceCrashPoint::AfterEffectApplied),
                    );
                }
                FenceRunStep::ObserveAgain
            },
            (FenceRunStep::ObserveAgain, FenceRunEvent::Projected(projection)) => {
                let reached = match self.goal {
                    FenceGoal::Acquire => projection == FenceProjection::Held,
                    FenceGoal::Release => projection == FenceProjection::Released,
                };
                if !reached {
                    return Err(FenceExecutionError::NeedsReconcile);
                }
                if self.crash_at == Some(FenceCrashPoint::AfterObservationPersisted) {
                    return Err(
                        FenceExecutionError::InjectedCrash(
                            FenceCrashPoint::AfterObservationPersisted,
                        ),
                    );
                }
                match self.goal {
                    FenceGoal::Acquire => FenceRunStep::FindLease,
                    FenceGoal::Release => FenceRunStep::Finished,
                }
            },
            (FenceRunStep::FindLease, FenceRunEvent::Found(found)) => {
                if !found {
                    return Err(FenceExecutionError::NeedsReconcile);
                }
                FenceRunStep::Finished
            },
            _ => return Err(FenceExecutionError::UnexpectedEvent),
        };
        self.step = next;
        Ok(())
    }
}

/// A fence is set only where none is found, and lifted only where this very one is: a fence of
/// another attempt, epoch or token is never touched.
pub proof fn law_foreign_fences_are_left_alone(
    goal: FenceGoal,
    lease: FenceLease,
    crash_at: Option<FenceCrashPoint>,
    step: FenceRunStep,
    event: FenceRunEvent,
)
    requires
        following_fence_step(goal, lease, crash_at, step, event) == Ok::<_, FenceExecutionError>(
            FenceRunStep::Apply,
        ),
    ensures
        event matches FenceRunEvent::Observed(observation) && match goal {
            FenceGoal::Acquire => observation is Released,
            FenceGoal::Release => lease.is_held_as(observation),
        },
{
}

/// A fence that is where it should be is not set or lifted again.
pub proof fn law_fence_runs_are_idempotent(
    goal: FenceGoal,
    lease: FenceLease,
    observation: FenceObservation,
)
    requires
        match goal {
            FenceGoal::Acquire => lease.is_held_as(observation),
            FenceGoal::Release => observation is Released,
        },
    ensures
        following_fence_step(
            goal,
            lease,
            None,
            FenceRunStep::Observe,
            FenceRunEvent::Observed(observation),
        ) == Ok::<_, FenceExecutionError>(FenceRunStep::ObserveAgain),
{
}

/// What becomes of a fence that is found in the journal after a restart.
#[derive(Clone, Copy, Debug, PartialEq, Eq, Structural)]
pub enum FenceRecovery {
    /// It is brought where it was going.
    Resume(FenceGoal),
    /// It is where it was going.
    Settled,
    NeedsReconcile,
}

impl FenceLease {
    /// What becomes of the fence: one that was being acquired or is held is acquired, one that was
    /// being released is released where the receipt that this is safe is there.
    pub open spec fn recovery(self) -> FenceRecovery {
        match self.state {
            FenceJournalState::AcquireIntent => FenceRecovery::Resume(FenceGoal::Acquire),
            FenceJournalState::Held => FenceRecovery::Resume(FenceGoal::Acquire),
            FenceJournalState::ReleaseIntent => if self.release_safe_receipt_digest is Some {
                FenceRecovery::Resume(FenceGoal::Release)
            } else {
                FenceRecovery::NeedsReconcile
            },
            FenceJournalState::NeedsReconcile => FenceRecovery::NeedsReconcile,
            FenceJournalState::Released => FenceRecovery::Settled,
        }
    }

    pub fn reconcile_active_fence(&self) -> (r: FenceRecovery)
        ensures
            r == self.recovery(),
    {
        match self.state {
            FenceJournalState::AcquireIntent | FenceJournalState::Held => FenceRecovery::Resume(
                FenceGoal::Acquire,
            ),
            FenceJournalState::ReleaseIntent => if self.release_safe_receipt_digest.is_some() {
                FenceRecovery::Resume(FenceGoal::Release)
            } else {
                FenceRecovery::NeedsReconcile
            },
            FenceJournalState::NeedsReconcile => FenceRecovery::NeedsReconcile,
            FenceJournalState::Released => FenceRecovery::Settled,
        }
    }
}

/// What must be done about the source of a stateful deployment before its fence is acquired.
#[derive(Clone, Copy, Debug, PartialEq, Eq, Structural)]
pub enum FenceSourceCheck {
    /// The fence is held by this attempt already.
    Ready,
    /// The source must be asked.
    AskSource,
    NeedsReconcile,
    InvalidOperationState,
}

/// What must be done about the source before the fence is acquired.
pub open spec fn source_before_fence(
    operation: OperationRecord,
    fence: Option<FenceLease>,
) -> FenceSourceCheck {
    if !(operation.state.phase is CutoverSnapshotting) || !operation.stateful() {
        FenceSourceCheck::InvalidOperationState
    } else {
        match fence {
            None => FenceSourceCheck::AskSource,
            Some(fence) => if fence.attempt_id == operation.attempt_id && fence.state is Held {
                FenceSourceCheck::Ready
            } else {
                FenceSourceCheck::NeedsReconcile
            },
        }
    }
}

pub fn refresh_stateful_source_before_fence(
    operation: &OperationRecord,
    fence: &Option<FenceLease>,
) -> (r: FenceSourceCheck)
    ensures
        r == source_before_fence(*operation, *fence),
{
    if operation.state.phase != OperationPhase::CutoverSnapshotting
        || !operation.is_stateful_deploy() {
        return FenceSourceCheck::InvalidOperationState;
    }
    match fence {
        None => FenceSourceCheck::AskSource,
        Some(fence) => if fence.attempt_id == operation.attempt_id && fence.state
            == FenceJournalState::Held {
            FenceSourceCheck::Ready
        } else {
            FenceSourceCheck::NeedsReconcile
        },
    }
}

/// What comes of asking the source before the fence is acquired, with the proof that was recorded
/// before the backup: a source that cannot be asked is told so, and anything but the very proof that
/// was recorded needs reconciliation.
pub open spec fn source_for_fence(
    asked: Result<EvidenceDigest, SourceGateError>,
    recorded: Option<EvidenceDigest>,
) -> Result<(), PhaseExecutionError> {
    match asked {
        Err(SourceGateError::Unavailable) => Err(
            PhaseExecutionError::Source(SourceGateError::Unavailable),
        ),
        Err(_) => Err(PhaseExecutionError::NeedsReconcile),
        Ok(proof_digest) => if digest_option(recorded) == Some(proof_digest@) {
            Ok(())
        } else {
            Err(PhaseExecutionError::NeedsReconcile)
        },
    }
}

pub fn check_source_for_fence(
    asked: &Result<EvidenceDigest, SourceGateError>,
    recorded: &Option<EvidenceDigest>,
) -> (r: Result<(), PhaseExecutionError>)
    ensures
        r == source_for_fence(*asked, *recorded),
{
    match asked {
        Err(SourceGateError::Unavailable) => Err(
            PhaseExecutionError::Source(SourceGateError::Unavailable),
        ),
        Err(_) => Err(PhaseExecutionError::NeedsReconcile),
        Ok(proof_digest) => match recorded {
            Some(recorded) => if *recorded == *proof_digest {
                Ok(())
            } else {
                Err(PhaseExecutionError::NeedsReconcile)
            },
            None => Err(PhaseExecutionError::NeedsReconcile),
        },
    }
}

/// The names of some projects.
pub open spec fn project_names(projects: Seq<ProjectId>) -> Seq<Seq<char>> {
    projects.map_values(|project: ProjectId| project@)
}

/// The executor: the store it keeps its journal in, the effects it brings about, the projects whose
/// journal was recovered since it began, and what it asks about sources and disks.
#[derive(Clone, Debug)]
pub struct DurableExecutor<S, A, G, P> {
    security: S,
    effects: A,
    recovered_projects: Vec<ProjectId>,
    source_gate: Option<G>,
    disk_space_probe: Option<P>,
}

impl<S, A, G, P> DurableExecutor<S, A, G, P> {
    pub closed spec fn held_security(self) -> S {
        self.security
    }

    pub closed spec fn held_effects(self) -> A {
        self.effects
    }

    pub closed spec fn held_source_gate(self) -> Option<G> {
        self.source_gate
    }

    pub closed spec fn held_probe(self) -> Option<P> {
        self.disk_space_probe
    }

    /// The projects whose journal was recovered.
    pub closed spec fn recovered(self) -> Set<Seq<char>> {
        project_names(self.recovered_projects@).to_set()
    }

    /// An executor is another one, but for what was recovered.
    pub open spec fn keeps(self, other: Self) -> bool {
        &&& self.held_security() == other.held_security()
        &&& self.held_effects() == other.held_effects()
        &&& self.held_source_gate() == other.held_source_gate()
        &&& self.held_probe() == other.held_probe()
    }

    /// An executor that has recovered nothing yet.
    pub fn new(security: S, effects: A) -> (r: Self)
        ensures
            r.held_security() == security,
            r.held_effects() == effects,
            r.held_source_gate() is None,
            r.held_probe() is None,
            r.recovered() == Set::<Seq<char>>::empty(),
    {
        let executor = DurableExecutor {
            security,
            effects,
            recovered_projects: Vec::new(),
            source_gate: None,
            disk_space_probe: None,
        };
        assert(executor.recovered() =~= Set::<Seq<char>>::empty());
        executor
    }

    pub fn with_source_gate(self, source_gate: G) -> (r: Self)
        ensures
            r.held_source_gate() == Some(source_gate),
            r.held_security() == self.held_security(),
            r.held_effects() == self.held_effects(),
            r.held_probe() == self.held_probe(),
            r.recovered() == self.recovered(),
    {
        DurableExecutor { source_gate: Some(source_gate), ..self }
    }

    pub fn with_disk_space_probe(self, disk_space_probe: P) -> (r: Self)
        ensures
            r.held_probe() == Some(disk_space_probe),
            r.held_security() == self.held_security(),
            r.held_effects() == self.held_effects(),
            r.held_source_gate() == self.held_source_gate(),
            r.recovered() == self.recovered(),
    {
        DurableExecutor { disk_space_probe: Some(disk_space_probe), ..self }
    }

    pub fn security(&self) -> (r: &S)
        ensures
            *r == self.held_security(),
    {
        &self.security
    }

    pub fn effects(&self) -> (r: &A)
        ensures
            *r == self.held_effects(),
    {
        &self.effects
    }

    pub fn source_gate(&self) -> (r: &Option<G>)
        ensures
            *r == self.held_source_gate(),
    {
        &self.source_gate
    }

    pub fn disk_space_probe(&self) -> (r: &Option<P>)
        ensures
            *r == self.held_probe(),
    {
        &self.disk_space_probe
    }

    fn find(&self, project_id: &ProjectId) -> (r: Option<usize>)
        ensures
            match r {
                Some(i) => i < self.recovered_projects@.len() && self.recovered_projects@[i as int]@
                    == project_id@,
                None => !self.recovered().contains(project_id@),
            },
    {
        let ghost names = project_names(self.recovered_projects@);
        let mut i: usize = 0;
        while i < self.recovered_projects.len()
            invariant
                i <= self.recovered_projects.len(),
                names == project_names(self.recovered_projects@),
                forall|k: int| 0 <= k < i ==> names[k] != project_id@,
            decreases self.recovered_projects.len() - i,
        {
            if self.recovered_projects[i] == *project_id {
                return Some(i);
            }
            i += 1;
        }
        None
    }

    pub fn is_recovered(&self, project_id: &ProjectId) -> (r: bool)
        ensures
            r == self.recovered().contains(project_id@),
    {
        match self.find(project_id) {
            Some(i) => {
                proof {
                    let names = project_names(self.recovered_projects@);
                    assert(names[i as int] == project_id@);
                }
                true
            },
            None => false,
        }
    }

    /// Nothing is carried out for a project whose journal was not recovered.
    pub fn require_recovery(&self, project_id: &ProjectId) -> (r: Result<(), StoreError>)
        ensures
            match r {
                Ok(()) => self.recovered().contains(project_id@),
                Err(error) => !self.recovered().contains(project_id@) && error
                    == StoreError::SecurityRecoveryRequired,
            },
    {
        if self.is_recovered(project_id) {
            Ok(())
        } else {
            Err(StoreError::SecurityRecoveryRequired)
        }
    }

    /// Takes a project for not recovered, while its fence is looked into.
    pub fn begin_recovery(&mut self, project_id: &ProjectId)
        ensures
            final(self).recovered() == old(self).recovered().remove(project_id@),
            final(self).keeps(*old(self)),
    {
        let ghost before = project_names(self.recovered_projects@);
        let mut kept: Vec<ProjectId> = Vec::new();
        let mut i: usize = 0;
        while i < self.recovered_projects.len()
            invariant
                i <= self.recovered_projects.len(),
                before == project_names(self.recovered_projects@),
                *self == *old(self),
                forall|name: Seq<char>| #[trigger]
                    project_names(kept@).contains(name) <==> name != project_id@ && before.take(
                        i as int,
                    ).contains(name),
            decreases self.recovered_projects.len() - i,
        {
            let ghost old_kept = project_names(kept@);
            assert forall|other: Seq<char>| #[trigger]
                old_kept.contains(other) <==> other != project_id@ && before.take(
                    i as int,
                ).contains(other) by {}
            let ghost name = self.recovered_projects@[i as int]@;
            if self.recovered_projects[i] != *project_id {
                kept.push(self.recovered_projects[i].clone());
            }
            proof {
                let grown = before.take(i + 1);
                assert(grown =~= before.take(i as int).push(name));
                assert forall|other: Seq<char>| #[trigger]
                    project_names(kept@).contains(other) <==> other != project_id@
                        && grown.contains(other) by {
                    lemma_contains_pushed(before.take(i as int), name, other);
                    if name != project_id@ {
                        assert(project_names(kept@) =~= old_kept.push(name));
                        lemma_contains_pushed(old_kept, name, other);
                    } else {
                        assert(project_names(kept@) =~= old_kept);
                    }
                }
            }
            i += 1;
        }
        proof {
            assert(before.take(i as int) =~= before);
        }
        self.recovered_projects = kept;
        proof {
            assert(self.recovered() =~= old(self).recovered().remove(project_id@));
        }
    }

    /// Takes a project for recovered.
    pub fn mark_recovered(&mut self, project_id: &ProjectId)
        ensures
            final(self).recovered() == old(self).recovered().insert(project_id@),
            final(self).keeps(*old(self)),
    {
        let ghost before = project_names(self.recovered_projects@);
        self.recovered_projects.push(project_id.clone());
        proof {
            let after = project_names(self.recovered_projects@);
            assert(after =~= before.push(project_id@));
            assert forall|name: Seq<char>| after.to_set().contains(name) == before.to_set().insert(
                project_id@,
            ).contains(name) by {
                lemma_contains_pushed(before, project_id@, name);
            }
            assert(after.to_set() =~= before.to_set().insert(project_id@));
        }
    }

    /// Takes a project for recovered, unless its fence is not clear.
    pub fn finish_recovery(
        &mut self,
        project_id: &ProjectId,
        projection: FenceProjection,
    ) -> (r: Result<
        (),
        FenceExecutionError,
    >)
        ensures
            match r {
                Ok(()) => !(projection is NeedsReconcile) && final(self).recovered() == old(
                    self,
                ).recovered().insert(project_id@),
                Err(error) => projection is NeedsReconcile && error
                    == FenceExecutionError::NeedsReconcile && final(self).recovered() == old(
                    self,
                ).recovered(),
            },
            final(self).keeps(*old(self)),
    {
        if projection == FenceProjection::NeedsReconcile {
            return Err(FenceExecutionError::NeedsReconcile);
        }
        self.mark_recovered(project_id);
        Ok(())
    }

    /// Begins to carry out the present phase of an operation.
    pub fn execute_phase(
        &self,
        operation: &OperationRecord,
        backup_authorized: bool,
        crash_at: Option<PhaseCrashPoint>,
    ) -> (r: Result<PhaseRun, PhaseExecutionError>)
        ensures
            PhaseRun::begun(
                *operation,
                self.recovered().contains(operation.project_id@),
                backup_authorized,
                crash_at,
                r,
            ),
    {
        let recovered = self.is_recovered(&operation.project_id);
        PhaseRun::begin(operation, recovered, backup_authorized, crash_at)
    }

    /// What comes of beginning to bring a fence somewhere.
    pub open spec fn begins_fence(
        self,
        goal: FenceGoal,
        lease: FenceLease,
        crash_at: Option<FenceCrashPoint>,
        r: Result<FenceRun, FenceExecutionError>,
    ) -> bool {
        if !self.recovered().contains(lease.project_id@) {
            r == Err::<FenceRun, _>(
                FenceExecutionError::Store(StoreError::SecurityRecoveryRequired),
            )
        } else {
            match FenceRun::start_fault(goal, lease.state, crash_at) {
                Some(error) => r == Err::<FenceRun, _>(error),
                None => r == Ok::<_, FenceExecutionError>(
                    FenceRun { goal, lease, crash_at, step: FenceRunStep::Observe },
                ),
            }
        }
    }

    /// Begins to acquire a write fence, once the intent is in the journal.
    pub fn acquire_write_fence(&self, lease: FenceLease, crash_at: Option<FenceCrashPoint>) -> (r:
        Result<FenceRun, FenceExecutionError>)
        ensures
            self.begins_fence(FenceGoal::Acquire, lease, crash_at, r),
    {
        match self.require_recovery(&lease.project_id) {
            Err(error) => Err(FenceExecutionError::Store(error)),
            Ok(()) => FenceRun::begin(FenceGoal::Acquire, lease, crash_at),
        }
    }

    /// Begins to release a write fence, once the intent is in the journal.
    pub fn release_write_fence(&self, lease: FenceLease, crash_at: Option<FenceCrashPoint>) -> (r:
        Result<FenceRun, FenceExecutionError>)
        ensures
            self.begins_fence(FenceGoal::Release, lease, crash_at, r),
    {
        match self.require_recovery(&lease.project_id) {
            Err(error) => Err(FenceExecutionError::Store(error)),
            Ok(()) => FenceRun::begin(FenceGoal::Release, lease, crash_at),
        }
    }
}

/// Projects in the order of their names, none twice.
pub open spec fn names_ordered(projects: Seq<ProjectId>) -> bool {
    forall|i: int, j: int|
        0 <= i < j < projects.len() ==> text_before((#[trigger] projects[i])@, (#[trigger] projects[j])@)
}

/// The projects to recover, each once and in the order of their names. There must be some.
pub fn projects_to_recover(project_ids: &Vec<ProjectId>) -> (r: Result<
    Vec<ProjectId>,
    FenceExecutionError,
>)
    ensures
        match r {
            Ok(projects) => {
                &&& project_ids@.len() > 0
                &&& project_names(projects@).to_set() == project_names(project_ids@).to_set()
                &&& forall|i: int, j: int|
                    0 <= i < j < projects@.len() ==> text_before(
                        (#[trigger] projects@[i])@,
                        (#[trigger] projects@[j])@,
                    )
            },
            Err(error) => project_ids@.len() == 0 && error == FenceExecutionError::Store(
                StoreError::InvalidControllerInput(
                    "security recovery requires the installed project set",
                ),
            ),
        },
{
    if project_ids.len() == 0 {
        return Err(
            FenceExecutionError::Store(
                StoreError::InvalidControllerInput(
                    "security recovery requires the installed project set",
                ),
            ),
        );
    }
    let mut projects: Vec<ProjectId> = Vec::new();
    let ghost all = project_names(project_ids@);
    let mut i: usize = 0;
    while i < project_ids.len()
        invariant
            i <= project_ids.len(),
            all == project_names(project_ids@),
            names_ordered(projects@),
            forall|name: Seq<char>|
                project_names(projects@).contains(name) <==> all.take(i as int).contains(name),
        decreases project_ids.len() - i,
    {
        let ghost before = project_names(projects@);
        let ghost name = project_ids@[i as int]@;
        add_project(&mut projects, &project_ids[i]);
        proof {
            assert(all.take(i + 1) =~= all.take(i as int).push(name));
            assert forall|other: Seq<char>|
                project_names(projects@).contains(other) <==> all.take(i + 1).contains(other) by {
                lemma_contains_pushed(all.take(i as int), name, other);
            }
        }
        i += 1;
    }
    proof {
        assert(all.take(i as int) =~= all);
        assert(project_names(projects@).to_set() =~= all.to_set());
    }
    Ok(projects)
}

fn add_project(projects: &mut Vec<ProjectId>, project: &ProjectId)
    requires
        names_ordered(old(projects)@),
    ensures
        names_ordered(final(projects)@),
        forall|name: Seq<char>|
            project_names(final(projects)@).contains(name) <==> project_names(
                old(projects)@,
            ).contains(name) || name == project@,
{
    let ghost before = projects@;
    let ghost names = project_names(before);
    let mut at: usize = 0;
    while at < projects.len() && is_text_before(projects[at].as_str(), project.as_str())
        invariant
            at <= projects.len(),
            projects@ == before,
            forall|k: int| 0 <= k < at ==> text_before((#[trigger] before[k])@, project@),
        decreases projects.len() - at,
    {
        at += 1;
    }
    if at < projects.len() && projects[at] == *project {
        proof {
            assert(names[at as int] == project@);
        }
        return;
    }
    projects.insert(at, project.clone());
    proof {
        if at < before.len() {
            crate::text::lemma_bytes_before_total(
                crate::text::utf8(before[at as int]@),
                crate::text::utf8(project@),
            );
            if crate::text::utf8(before[at as int]@) == crate::text::utf8(project@) {
                crate::text::lemma_utf8_injective(before[at as int]@, project@);
            }
        }
        assert forall|i: int, j: int| 0 <= i < j < projects@.len() implies text_before(
            (#[trigger] projects@[i])@,
            (#[trigger] projects@[j])@,
        ) by {
            let a = if i < at { i } else { i - 1 };
            let b = if j < at { j } else { j - 1 };
            if i != at {
                assert(projects@[i] == before[a]);
            }
            if j != at {
                assert(projects@[j] == before[b]);
            }
            if i == at && b > at {
                crate::text::lemma_bytes_before_transitive(
                    crate::text::utf8(project@),
                    crate::text::utf8(before[at as int]@),
                    crate::text::utf8(before[b]@),
                );
            }
        }
        let grown = project_names(projects@);
        assert forall|name: Seq<char>| grown.contains(name) <==> names.contains(name) || name
            == project@ by {
            if grown.contains(name) {
                let k = choose|k: int| 0 <= k < grown.len() && grown[k] == name;
                if k < at {
                    assert(names[k] == name);
                } else if k > at {
                    assert(projects@[k] == before[k - 1]);
                    assert(names[k - 1] == name);
                }
            }
            if names.contains(name) {
                let k = choose|k: int| 0 <= k < names.len() && names[k] == name;
                if k < at {
                    assert(projects@[k] == before[k]);
                    assert(grown[k] == name);
                } else {
                    assert(projects@[k + 1] == before[k]);
                    assert(grown[k + 1] == name);
                }
            }
            if name == project@ {
                assert(grown[at as int] == name);
            }
        }
    }
}

} // verus!
