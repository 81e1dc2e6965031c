//! Driving a deployment to its end, one step at a time.

use vstd::prelude::*;
use super::{
    is_digest, same_digest_option, AcceptedMutationV1, DeployDriverError,
    PreparedInstalledDeploymentV1,
};
use crate::domain::artifacts::PhaseReceipt;
use crate::domain::identifiers::digest_option;
use crate::domain::operation::{OperationKind, OperationRecoveryMode};
use crate::domain::record::OperationRecord;
use crate::domain::states::{OperationPhase, OperationResult};
use crate::executor::phase_steps::PhaseExecutionError;
use crate::unique_id::Uuid;

verus! {

/// What is done next for a deployment.
#[derive(Clone, Copy, Debug, PartialEq, Eq, Structural)]
pub enum DeployStep {
    /// The specification of the phase is authorized.
    EnsurePhaseSpec,
    /// The phase is carried out.
    Execute,
    /// The rollback is announced to the journal of the executor.
    TakeOver,
    /// What the attempt held is given back.
    CleanUp,
    /// The candidate becomes the first release.
    CommitBootstrapRelease,
    /// The candidate replaces the release before it.
    CommitInstalledRelease,
    Finished,
}

/// What came back of a step.
#[derive(Debug)]
pub enum DeployEvent {
    Done,
    Executed(Result<PhaseReceipt, PhaseExecutionError>),
    TakenOver { at_ms: i64 },
}

/// The phases that need a specification of their own.
pub open spec fn privileged(phase: OperationPhase) -> bool {
    phase is Deploying || phase is HealthChecking || phase is Soaking || phase is Rollback
}

fn is_privileged(phase: OperationPhase) -> (r: bool)
    ensures
        r == privileged(phase),
{
    phase == OperationPhase::Deploying || phase == OperationPhase::HealthChecking || phase
        == OperationPhase::Soaking || phase == OperationPhase::Rollback
}

/// The step that an operation is driven with.
pub open spec fn step_for(operation: OperationRecord) -> DeployStep {
    if !(operation.state.result is Running) {
        DeployStep::CleanUp
    } else if privileged(operation.state.phase) {
        DeployStep::EnsurePhaseSpec
    } else {
        DeployStep::Execute
    }
}

fn next_step(operation: &OperationRecord) -> (r: DeployStep)
    ensures
        r == step_for(*operation),
{
    if operation.state.result != OperationResult::Running {
        DeployStep::CleanUp
    } else if is_privileged(operation.state.phase) {
        DeployStep::EnsurePhaseSpec
    } else {
        DeployStep::Execute
    }
}

/// A deployment being driven.
#[derive(Debug)]
pub struct DeployRun {
    pub operation: OperationRecord,
    /// Another release is installed.
    pub has_current: bool,
    pub step: DeployStep,
}

impl DeployRun {
    pub fn begin(operation: OperationRecord, has_current: bool) -> (r: DeployRun)
        ensures
            r == (DeployRun { operation, has_current, step: step_for(operation) }),
    {
        let step = next_step(&operation);
        DeployRun { operation, has_current, step }
    }

    /// A phase that fails turns the deployment back: where there is a release to go back to, the
    /// candidate has been deployed, and it is not on its way back already.
    pub open spec fn turns_back_on_failure(self) -> bool {
        &&& self.has_current
        &&& self.operation.evidence.recovery_mode is None
        &&& self.operation.state.phase is HealthChecking || self.operation.state.phase is Soaking
    }

    /// The run after a step, with the operation as it was.
    pub open spec fn at(self, step: DeployStep) -> DeployRun {
        DeployRun { step, ..self }
    }

    /// What comes of an event.
    pub open spec fn leads(
        self,
        event: DeployEvent,
        r: Result<DeployRun, DeployDriverError>,
    ) -> bool {
        match (self.step, event) {
            (DeployStep::EnsurePhaseSpec, DeployEvent::Done) => r == Ok::<_, DeployDriverError>(
                self.at(DeployStep::Execute),
            ),
            (DeployStep::Execute, DeployEvent::Executed(Ok(receipt))) => {
                let back = self.operation.rolling_back();
                match r {
                    Ok(next) => {
                        &&& self.operation.projection_fault(receipt, back) is None
                        &&& self.operation.projects(next.operation, receipt, back)
                        &&& next.has_current == self.has_current
                        &&& next.step == step_for(next.operation)
                    },
                    Err(error) => self.operation.projection_fault(receipt, back) == Some(error),
                }
            },
            (DeployStep::Execute, DeployEvent::Executed(Err(error))) => {
                if self.turns_back_on_failure() {
                    r == Ok::<_, DeployDriverError>(self.at(DeployStep::TakeOver))
                } else {
                    r == Err::<DeployRun, _>(DeployDriverError::Phase(error))
                }
            },
            (DeployStep::TakeOver, DeployEvent::TakenOver { at_ms }) => match r {
                Ok(next) => {
                    &&& self.operation.rollback_projection_fault() is None
                    &&& self.operation.turns_back(next.operation, at_ms)
                    &&& next.has_current == self.has_current
                    &&& next.step == step_for(next.operation)
                },
                Err(error) => self.operation.rollback_projection_fault() == Some(error),
            },
            (DeployStep::CleanUp, DeployEvent::Done) => r == Ok::<_, DeployDriverError>(
                self.at(
                    if self.operation.state.result is RolledBack {
                        DeployStep::Finished
                    } else if self.has_current {
                        DeployStep::CommitInstalledRelease
                    } else {
                        DeployStep::CommitBootstrapRelease
                    },
                ),
            ),
            (DeployStep::CommitInstalledRelease, DeployEvent::Done) => r == Ok::<
                _,
                DeployDriverError,
            >(self.at(DeployStep::Finished)),
            (DeployStep::CommitBootstrapRelease, DeployEvent::Done) => r == Ok::<
                _,
                DeployDriverError,
            >(self.at(DeployStep::Finished)),
            _ => r == Err::<DeployRun, _>(DeployDriverError::UnexpectedEvent),
        }
    }

    /// Goes on with a deployment once a step was done.
    pub fn advance(self, event: DeployEvent) -> (r: Result<DeployRun, DeployDriverError>)
        ensures
            self.leads(event, r),
    {
        let step = self.step;
        match (step, event) {
            (DeployStep::EnsurePhaseSpec, DeployEvent::Done) => Ok(
                DeployRun {
                    operation: self.operation,
                    has_current: self.has_current,
                    step: DeployStep::Execute,
                },
            ),
            (DeployStep::Execute, DeployEvent::Executed(Ok(receipt))) => {
                let back = match self.operation.evidence.recovery_mode {
                    Some(mode) => mode == OperationRecoveryMode::Rollback,
                    None => false,
                };
                match self.operation.project_deploy_receipt(&receipt, back) {
                    Err(error) => Err(error),
                    Ok(operation) => Ok(DeployRun::begin(operation, self.has_current)),
                }
            },
            (DeployStep::Execute, DeployEvent::Executed(Err(error))) => {
                if self.has_current && self.operation.evidence.recovery_mode.is_none() && (
                self.operation.state.phase == OperationPhase::HealthChecking
                    || self.operation.state.phase == OperationPhase::Soaking) {
                    Ok(
                        DeployRun {
                            operation: self.operation,
                            has_current: self.has_current,
                            step: DeployStep::TakeOver,
                        },
                    )
                } else {
                    Err(DeployDriverError::Phase(error))
                }
            },
            (DeployStep::TakeOver, DeployEvent::TakenOver { at_ms }) => {
                match self.operation.begin_rollback_projection(at_ms) {
                    Err(error) => Err(error),
                    Ok(operation) => Ok(DeployRun::begin(operation, self.has_current)),
                }
            },
            (DeployStep::CleanUp, DeployEvent::Done) => {
                let step = if self.operation.state.result == OperationResult::RolledBack {
                    DeployStep::Finished
                } else if self.has_current {
                    DeployStep::CommitInstalledRelease
                } else {
                    DeployStep::CommitBootstrapRelease
                };
                Ok(DeployRun { operation: self.operation, has_current: self.has_current, step })
            },
            (DeployStep::CommitInstalledRelease, DeployEvent::Done) => Ok(
                DeployRun {
                    operation: self.operation,
                    has_current: self.has_current,
                    step: DeployStep::Finished,
                },
            ),
            (DeployStep::CommitBootstrapRelease, DeployEvent::Done) => Ok(
                DeployRun {
                    operation: self.operation,
                    has_current: self.has_current,
                    step: DeployStep::Finished,
                },
            ),
            _ => Err(DeployDriverError::UnexpectedEvent),
        }
    }
}

impl PreparedInstalledDeploymentV1 {
    /// The candidate is what is installed.
    pub open spec fn installed(self) -> bool {
        digest_option(self.release_state.current_release_bundle_digest) == Some(
            self.candidate.digest@,
        )
    }

    /// What was installed before is installed again.
    pub open spec fn restored(self) -> bool {
        digest_option(self.release_state.current_release_bundle_digest) == digest_option(
            self.accepted.previous_release_bundle_digest,
        )
    }

    /// The deployment has ended before, given where its receipts have led it: it succeeded and its
    /// candidate is installed, or it was rolled back and what was there before is installed.
    pub open spec fn ended(self, projected: OperationRecord) -> bool {
        ||| projected.state.result is Succeeded && self.installed()
        ||| projected.state.result is RolledBack && self.restored()
    }
}

/// Where the driving of a deployment begins.
#[derive(Debug)]
pub enum DeployStart {
    /// It has ended before.
    Ended(OperationRecord),
    /// Its disk space is reserved, its candidate is promoted, and it is driven.
    Proceed,
}

/// The driver of deployments, over what it reads and writes.
#[derive(Clone, Debug)]
pub struct InstalledDeployOperationDriverV1<S, R, D, E, C> {
    security: S,
    resolver: R,
    disk: D,
    effects: E,
    clock: C,
}

impl<S, R, D, E, C> InstalledDeployOperationDriverV1<S, R, D, E, C> {
    pub closed spec fn parts(self) -> (S, R, D, E, C) {
        (self.security, self.resolver, self.disk, self.effects, self.clock)
    }

    pub fn new(security: S, resolver: R, disk: D, effects: E, clock: C) -> (r: Self)
        ensures
            r.parts() == (security, resolver, disk, effects, clock),
    {
        InstalledDeployOperationDriverV1 { security, resolver, disk, effects, clock }
    }

    pub fn security(&self) -> (r: &S)
        ensures
            *r == self.parts().0,
    {
        &self.security
    }

    pub fn resolver(&self) -> (r: &R)
        ensures
            *r == self.parts().1,
    {
        &self.resolver
    }

    pub fn disk(&self) -> (r: &D)
        ensures
            *r == self.parts().2,
    {
        &self.disk
    }

    pub fn effects(&self) -> (r: &E)
        ensures
            *r == self.parts().3,
    {
        &self.effects
    }

    pub fn clock(&self) -> (r: &C)
        ensures
            *r == self.parts().4,
    {
        &self.clock
    }

    /// Begins to drive a deployment that its receipts have led to some record. A candidate that is
    /// installed without the receipt of its soak is never driven.
    pub fn drive_accepted(
        &self,
        prepared: &PreparedInstalledDeploymentV1,
        projected: OperationRecord,
    ) -> (r: Result<DeployStart, DeployDriverError>)
        ensures
            match r {
                Ok(DeployStart::Ended(operation)) => operation == projected && prepared.ended(
                    projected,
                ),
                Ok(DeployStart::Proceed) => !prepared.ended(projected) && !prepared.installed(),
                Err(error) => error is ReleaseStateWithoutTerminalReceipt && !prepared.ended(
                    projected,
                ) && prepared.installed(),
            },
    {
        let installed = is_digest(
            &prepared.release_state.current_release_bundle_digest,
            &prepared.candidate.digest,
        );
        if projected.state.result == OperationResult::Succeeded && installed {
            return Ok(DeployStart::Ended(projected));
        }
        if projected.state.result == OperationResult::RolledBack && same_digest_option(
            &prepared.release_state.current_release_bundle_digest,
            &prepared.accepted.previous_release_bundle_digest,
        ) {
            return Ok(DeployStart::Ended(projected));
        }
        if installed {
            return Err(DeployDriverError::ReleaseStateWithoutTerminalReceipt);
        }
        Ok(DeployStart::Proceed)
    }

    /// Whether a deployment that its receipts have led to some record has ended, and what is
    /// installed says so.
    pub fn has_committed_terminal(
        &self,
        prepared: &PreparedInstalledDeploymentV1,
        projected: &OperationRecord,
    ) -> (r: Result<bool, DeployDriverError>)
        ensures
            match r {
                Ok(committed) => committed == prepared.ended(*projected),
                Err(error) => error is ReleaseStateWithoutTerminalReceipt && prepared.installed()
                    && !(projected.state.result is Succeeded),
            },
            r is Err <==> prepared.installed() && !(projected.state.result is Succeeded),
    {
        let installed = is_digest(
            &prepared.release_state.current_release_bundle_digest,
            &prepared.candidate.digest,
        );
        let rolled_back = projected.state.result == OperationResult::RolledBack && same_digest_option(
            &prepared.release_state.current_release_bundle_digest,
            &prepared.accepted.previous_release_bundle_digest,
        );
        if installed && projected.state.result != OperationResult::Succeeded {
            return Err(DeployDriverError::ReleaseStateWithoutTerminalReceipt);
        }
        Ok(installed || rolled_back)
    }
}

/// What drives the deployments that were accepted.
pub trait AcceptedDeployJobDriverV1 {
    fn drive(
        &mut self,
        accepted: &AcceptedMutationV1,
    ) -> Result<OperationRecord, DeployDriverError>;

    fn has_committed_terminal(&mut self, accepted: &AcceptedMutationV1) -> Result<
        bool,
        DeployDriverError,
    >;
}

/// What tells that no more deployments are to be driven.
pub trait DeployCancellationV1 {
    fn cancelled(&mut self) -> bool;
}

/// An accepted mutation, and whether the receipt of its last phase was found, on the way forth or
/// back.
#[derive(Debug)]
pub struct PendingDeployJobV1 {
    pub accepted: AcceptedMutationV1,
    pub has_terminal_receipt: bool,
}

/// A deployment that could not be driven.
#[derive(Clone, Copy, Debug, PartialEq, Eq)]
pub struct DeployJobFailureV1 {
    pub intent_id: Uuid,
    pub attempt_id: Uuid,
    pub error: DeployDriverError,
}

/// What is done about a job.
#[derive(Clone, Copy, Debug, PartialEq, Eq)]
pub enum DeployJobDecision {
    Skip,
    /// Whether it has ended is looked into first.
    CheckTerminal,
    Drive,
    Fail(DeployDriverError),
}

impl PendingDeployJobV1 {
    /// A job, with what was found of the receipt of its last phase: on the way forth, and on the way
    /// back. One of them is enough.
    pub fn from_receipts(
        accepted: AcceptedMutationV1,
        soaked: &Option<PhaseReceipt>,
        soaked_back: &Option<PhaseReceipt>,
    ) -> (r: PendingDeployJobV1)
        ensures
            r.accepted == accepted,
            r.has_terminal_receipt == (soaked is Some || soaked_back is Some),
    {
        PendingDeployJobV1 {
            accepted,
            has_terminal_receipt: soaked.is_some() || soaked_back.is_some(),
        }
    }

    /// What is done about a job: only deployments are driven, and one whose last receipt was found
    /// is looked into first.
    pub open spec fn decision(self) -> DeployJobDecision {
        if !(self.accepted.operation_kind is Deploy) {
            DeployJobDecision::Skip
        } else if self.has_terminal_receipt {
            DeployJobDecision::CheckTerminal
        } else {
            DeployJobDecision::Drive
        }
    }

    pub fn decide(&self) -> (r: DeployJobDecision)
        ensures
            r == self.decision(),
    {
        if self.accepted.operation_kind != OperationKind::Deploy {
            DeployJobDecision::Skip
        } else if self.has_terminal_receipt {
            DeployJobDecision::CheckTerminal
        } else {
            DeployJobDecision::Drive
        }
    }
}

/// What is done about a job once it was looked into: one that has ended is left alone.
pub open spec fn decision_after_check(
    committed: Result<bool, DeployDriverError>,
) -> DeployJobDecision {
    match committed {
        Ok(true) => DeployJobDecision::Skip,
        Ok(false) => DeployJobDecision::Drive,
        Err(error) => DeployJobDecision::Fail(error),
    }
}

pub fn decide_after_check(committed: Result<bool, DeployDriverError>) -> (r: DeployJobDecision)
    ensures
        r == decision_after_check(committed),
{
    match committed {
        Ok(committed) => if committed {
            DeployJobDecision::Skip
        } else {
            DeployJobDecision::Drive
        },
        Err(error) => DeployJobDecision::Fail(error),
    }
}

/// What the driver answered about a job, as far as it was asked: whether the job has ended, and what
/// came of driving it.
#[derive(Clone, Copy, Debug, PartialEq, Eq)]
pub struct DeployJobAnswers {
    pub committed: Option<Result<bool, DeployDriverError>>,
    pub driven: Option<Result<(), DeployDriverError>>,
}

impl DeployJobAnswers {
    /// The job failed.
    pub open spec fn failure(self) -> Option<DeployDriverError> {
        match (self.committed, self.driven) {
            (Some(Err(error)), _) => Some(error),
            (_, Some(Err(error))) => Some(error),
            _ => None,
        }
    }
}

impl PendingDeployJobV1 {
    /// The driver was asked all that the job asks for, and nothing else: it drives a deployment
    /// unless it has ended, and looks into whether it has where its last receipt was found.
    pub open spec fn asked(self, answers: DeployJobAnswers) -> bool {
        &&& answers.committed is Some == (self.decision() is CheckTerminal)
        &&& answers.driven is Some == (self.decision() is Drive || (
        self.decision() is CheckTerminal && answers.committed == Some(
            Ok::<bool, DeployDriverError>(false),
        )))
    }

    /// What a job leaves behind once the driver answered.
    pub open spec fn left_by(self, answers: DeployJobAnswers) -> Seq<DeployJobFailureV1> {
        match answers.failure() {
            Some(error) => seq![
                DeployJobFailureV1 {
                    intent_id: self.accepted.intent_id,
                    attempt_id: self.accepted.attempt_id,
                    error,
                },
            ],
            None => seq![],
        }
    }

    /// The failure of a job, if the driver answered with one.
    pub fn settle(&self, answers: DeployJobAnswers) -> (r: Option<DeployJobFailureV1>)
        ensures
            self.left_by(answers) == match r {
                Some(failure) => seq![failure],
                None => seq![],
            },
    {
        let error = match (answers.committed, answers.driven) {
            (Some(Err(error)), _) => error,
            (_, Some(Err(error))) => error,
            _ => return None,
        };
        Some(
            DeployJobFailureV1 {
                intent_id: self.accepted.intent_id,
                attempt_id: self.accepted.attempt_id,
                error,
            },
        )
    }
}

/// The failures of the first jobs, as many as there are answers.
pub open spec fn failures_of(
    jobs: Seq<PendingDeployJobV1>,
    answers: Seq<DeployJobAnswers>,
) -> Seq<DeployJobFailureV1>
    decreases answers.len(),
{
    if answers.len() == 0 {
        seq![]
    } else {
        failures_of(jobs, answers.drop_last()) + jobs[answers.len() - 1].left_by(answers.last())
    }
}

/// The driver was asked about the first jobs, as many as there are answers.
pub open spec fn asked_about(
    jobs: Seq<PendingDeployJobV1>,
    answers: Seq<DeployJobAnswers>,
) -> bool {
    &&& answers.len() <= jobs.len()
    &&& forall|i: int| 0 <= i < answers.len() ==> jobs[i].asked(#[trigger] answers[i])
}

/// What is kept of what came of driving a job.
pub open spec fn driven_to(outcome: Result<OperationRecord, DeployDriverError>) -> Result<
    (),
    DeployDriverError,
> {
    match outcome {
        Ok(_) => Ok(()),
        Err(error) => Err(error),
    }
}

/// Asks the driver what a job asks for: whether the job has ended, where its last receipt was found,
/// and then to drive it, unless it has.
pub fn ask_driver<D: AcceptedDeployJobDriverV1>(job: &PendingDeployJobV1, driver: &mut D) -> (r:
    DeployJobAnswers)
    ensures
        job.asked(r),
        (match (r.committed, r.driven) {
            (Some(committed), driven) => exists|asked: &mut D|
                {
                    &&& #[trigger] call_ensures(
                        D::has_committed_terminal,
                        (asked, &job.accepted),
                        committed,
                    )
                    &&& *asked == *old(driver)
                    &&& match driven {
                        Some(kept) => exists|
                            told: &mut D,
                            outcome: Result<OperationRecord, DeployDriverError>,
                        |
                            {
                                &&& #[trigger] call_ensures(
                                    D::drive,
                                    (told, &job.accepted),
                                    outcome,
                                )
                                &&& *told == *final(asked)
                                &&& *final(told) == *final(driver)
                                &&& kept == driven_to(outcome)
                            },
                        None => *final(asked) == *final(driver),
                    }
                },
            (None, Some(kept)) => exists|
                told: &mut D,
                outcome: Result<OperationRecord, DeployDriverError>,
            |
                {
                    &&& #[trigger] call_ensures(D::drive, (told, &job.accepted), outcome)
                    &&& *told == *old(driver)
                    &&& *final(told) == *final(driver)
                    &&& kept == driven_to(outcome)
                },
            (None, None) => *final(driver) == *old(driver),
        }),
{
    let (committed, decision) = match job.decide() {
        DeployJobDecision::CheckTerminal => {
            let answer = driver.has_committed_terminal(&job.accepted);
            (Some(answer), decide_after_check(answer))
        },
        decision => (None, decision),
    };
    let driven = match decision {
        DeployJobDecision::Drive => match driver.drive(&job.accepted) {
            Err(error) => Some(Err(error)),
            Ok(_) => Some(Ok(())),
        },
        _ => None,
    };
    DeployJobAnswers { committed, driven }
}

/// A driver and what cancels it, before each of the first jobs and after the last of them, as many
/// as there are answers.
pub open spec fn traced<D, C>(
    answers: Seq<DeployJobAnswers>,
    drivers: Seq<D>,
    cancellations: Seq<C>,
) -> bool {
    drivers.len() == answers.len() + 1 && cancellations.len() == answers.len() + 1
}

/// Drives the deployments among some jobs, one after the other, until it is cancelled. Whether it is
/// cancelled is asked before each job. One that fails does not keep the others from being driven, and
/// the failures are told in the order of the jobs.
pub fn drive_pending_deploy_jobs_until<D: AcceptedDeployJobDriverV1, C: DeployCancellationV1>(
    jobs: &Vec<PendingDeployJobV1>,
    driver: &mut D,
    cancellation: &mut C,
) -> (failures: Vec<DeployJobFailureV1>)
    ensures
        (exists|answers: Seq<DeployJobAnswers>, drivers: Seq<D>, cancellations: Seq<C>|
            {
                &&& #[trigger] traced(answers, drivers, cancellations)
                &&& asked_about(jobs@, answers)
                &&& failures@ == failures_of(jobs@, answers)
                &&& drivers[0] == *old(driver)
                &&& cancellations[0] == *old(cancellation)
                &&& forall|i: int|
                    0 <= i < answers.len() ==> {
                        &&& jobs@[i].asked(#[trigger] answers[i])
                        &&& exists|asked: &mut C|
                            {
                                &&& #[trigger] call_ensures(C::cancelled, (asked,), false)
                                &&& *asked == cancellations[i]
                                &&& *final(asked) == cancellations[i + 1]
                            }
                        &&& exists|asked: &mut D|
                            {
                                &&& #[trigger] call_ensures(
                                    ask_driver::<D>,
                                    (&jobs@[i], asked),
                                    answers[i],
                                )
                                &&& *asked == drivers[i]
                                &&& *final(asked) == drivers[i + 1]
                            }
                    }
                &&& *final(driver) == drivers.last()
                &&& if answers.len() < jobs@.len() {
                    exists|asked: &mut C|
                        {
                            &&& #[trigger] call_ensures(C::cancelled, (asked,), true)
                            &&& *asked == cancellations.last()
                            &&& *final(asked) == *final(cancellation)
                        }
                } else {
                    *final(cancellation) == cancellations.last()
                }
            }),
{
    let mut failures: Vec<DeployJobFailureV1> = Vec::new();
    let ghost mut answers: Seq<DeployJobAnswers> = Seq::empty();
    let ghost mut drivers: Seq<D> = seq![*driver];
    let ghost mut cancellations: Seq<C> = seq![*cancellation];
    let mut i: usize = 0;
    while i < jobs.len()
        invariant
            i <= jobs.len(),
            answers.len() == i,
            traced(answers, drivers, cancellations),
            asked_about(jobs@, answers),
            failures@ == failures_of(jobs@, answers),
            drivers[0] == *old(driver),
            cancellations[0] == *old(cancellation),
            *driver == drivers[i as int],
            *cancellation == cancellations[i as int],
            (forall|k: int|
                0 <= k < i ==> {
                    &&& jobs@[k].asked(#[trigger] answers[k])
                    &&& exists|asked: &mut C|
                        {
                            &&& #[trigger] call_ensures(C::cancelled, (asked,), false)
                            &&& *asked == cancellations[k]
                            &&& *final(asked) == cancellations[k + 1]
                        }
                    &&& exists|asked: &mut D|
                        {
                            &&& #[trigger] call_ensures(
                                ask_driver::<D>,
                                (&jobs@[k], asked),
                                answers[k],
                            )
                            &&& *asked == drivers[k]
                            &&& *final(asked) == drivers[k + 1]
                        }
                }),
        decreases jobs.len() - i,
    {
        if cancellation.cancelled() {
            return failures;
        }
        let answer = ask_driver(&jobs[i], driver);
        proof {
            let before = answers;
            let drivers_before = drivers;
            let cancellations_before = cancellations;
            answers = before.push(answer);
            drivers = drivers.push(*driver);
            cancellations = cancellations.push(*cancellation);
            assert forall|k: int| 0 <= k < i implies #[trigger] answers[k] == before[k]
                && drivers[k] == drivers_before[k] && drivers[k + 1] == drivers_before[k + 1]
                && cancellations[k] == cancellations_before[k] && cancellations[k + 1]
                == cancellations_before[k + 1] by {}
            assert(answers[i as int] == answer);
            assert(exists|asked: &mut C|
                {
                    &&& #[trigger] call_ensures(C::cancelled, (asked,), false)
                    &&& *asked == cancellations[i as int]
                    &&& *final(asked) == cancellations[i + 1]
                });
            assert(exists|asked: &mut D|
                {
                    &&& #[trigger] call_ensures(ask_driver::<D>, (&jobs@[i as int], asked), answer)
                    &&& *asked == drivers[i as int]
                    &&& *final(asked) == drivers[i + 1]
                });
            assert(answers.drop_last() =~= before);
            assert(failures_of(jobs@, answers) == failures@ + jobs@[i as int].left_by(answer));
        }
        match jobs[i].settle(answer) {
            Some(failure) => {
                assert(failures@.push(failure) =~= failures@ + seq![failure]);
                failures.push(failure);
            },
            None => {},
        }
        i += 1;
    }
    failures
}

/// Every failure is the one of a deployment among the jobs.
pub proof fn law_failures_are_of_deployments(
    jobs: Seq<PendingDeployJobV1>,
    answers: Seq<DeployJobAnswers>,
    place: int,
)
    requires
        asked_about(jobs, answers),
        0 <= place < failures_of(jobs, answers).len(),
    ensures
        exists|i: int|
            0 <= i < answers.len() && (#[trigger] jobs[i]).accepted.operation_kind is Deploy
                && jobs[i].accepted.intent_id == failures_of(jobs, answers)[place].intent_id
                && jobs[i].accepted.attempt_id == failures_of(jobs, answers)[place].attempt_id,
    decreases answers.len(),
{
    if answers.len() > 0 {
        let before = answers.drop_last();
        let last = answers.len() - 1;
        assert(asked_about(jobs, before));
        if place < failures_of(jobs, before).len() {
            law_failures_are_of_deployments(jobs, before, place);
        } else {
            assert(jobs[last].asked(answers[last]));
        }
    }
}

/// A privileged phase is carried out only once its specification is authorized.
pub proof fn law_privileged_phases_are_authorized(
    run: DeployRun,
    event: DeployEvent,
    next: DeployRun,
)
    requires
        run.leads(event, Ok(next)),
        next.step is Execute,
        privileged(next.operation.state.phase),
    ensures
        run.step is EnsurePhaseSpec,
        next.operation == run.operation,
{
}

/// A deployment that is on its way back stays on it, and is never turned back again.
pub proof fn law_deployments_turn_back_once(run: DeployRun, event: DeployEvent, next: DeployRun)
    requires
        run.leads(event, Ok(next)),
        run.operation.evidence.recovery_mode is Some,
        !(run.step is TakeOver),
    ensures
        next.operation.evidence.recovery_mode == run.operation.evidence.recovery_mode,
        !(next.step is TakeOver),
{
}

/// A deployment whose receipts have led it to its end is only cleaned up and committed: none of its
/// phases is carried out again.
pub proof fn law_ended_deployments_are_not_repeated(
    run: DeployRun,
    event: DeployEvent,
    next: DeployRun,
)
    requires
        !(run.operation.state.result is Running),
        run.step == step_for(run.operation) || run.step is CommitBootstrapRelease || run.step
            is CommitInstalledRelease || run.step is Finished,
        run.leads(event, Ok(next)),
    ensures
        !(run.step is Execute) && !(run.step is EnsurePhaseSpec) && !(run.step is TakeOver),
        !(next.step is Execute) && !(next.step is EnsurePhaseSpec) && !(next.step is TakeOver),
        next.operation == run.operation,
{
}

/// A deployment that runs goes on, succeeds or is rolled back, and a release is committed only for
/// one that does not run any more and was not rolled back.
pub proof fn law_releases_follow_success(run: DeployRun, event: DeployEvent, next: DeployRun)
    requires
        run.leads(event, Ok(next)),
        run.step is CleanUp || run.step is CommitBootstrapRelease || run.step
            is CommitInstalledRelease || run.step is Finished <==> !(
        run.operation.state.result is Running),
    ensures
        run.operation.state.result is Running ==> next.operation.state.result is Running
            || next.operation.state.result is Succeeded || next.operation.state.result is RolledBack,
        next.step is CleanUp || next.step is CommitBootstrapRelease || next.step
            is CommitInstalledRelease || next.step is Finished <==> !(
        next.operation.state.result is Running),
        next.step is CommitBootstrapRelease || next.step is CommitInstalledRelease
            ==> next.operation == run.operation && !(next.operation.state.result is RolledBack),
{
}

} // verus!
