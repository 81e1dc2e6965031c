//! Recovering the fences of projects after a restart, one project after the other, and one step at a
//! time.

use vstd::prelude::*;
use super::fences::{
    following_fence_step, names_ordered, project_names, projects_to_recover, DurableExecutor,
    FenceExecutionError, FenceGoal, FenceProjection, FenceRecovery, FenceRun, FenceRunEvent,
    FenceRunStep,
};
use crate::controller::StoreError;
use crate::domain::identifiers::ProjectId;
use crate::fence_adapter::FenceLease;
use crate::text::{lemma_text_before_asymmetric, text_before};

verus! {

/// What is recovered.
#[derive(Clone, Copy, Debug, PartialEq, Eq, Structural)]
pub enum RecoveryScope {
    /// Projects. A project is recovered once its fence is found to be clear.
    Projects,
    /// The fences that the journal holds. A project is as recovered as it was before.
    Fences,
}

/// What is done next about the project that a run has come to.
#[derive(Clone, Copy, Debug, PartialEq, Eq, Structural)]
pub enum RecoveryStep {
    /// The journal is asked for the fence of the project.
    FindFence,
    /// The intent to bring the fence where it was going is written to the journal again.
    BeginFence(FenceGoal),
    /// The fence is brought where it was going.
    BringFence,
    /// The fence is looked for, and the journal is told what was found.
    Observe,
    /// There is no more project.
    Finished,
}

/// What came back of a step.
#[derive(Debug)]
pub enum RecoveryEvent {
    /// The fence that the journal holds of the project.
    Found(Option<FenceLease>),
    /// The fence that the intent is about.
    Begun(FenceLease),
    /// What came back of a step that brings the fence where it was going.
    Fence(FenceRunEvent),
    Projected(FenceProjection),
}

/// A run that recovers projects or fences.
#[derive(Debug)]
pub struct RecoveryRun {
    pub scope: RecoveryScope,
    pub projects: Vec<ProjectId>,
    /// How many projects are done with.
    pub at: usize,
    /// Whether the project that the run has come to was recovered before.
    pub was_recovered: bool,
    /// The fence that was found in the journal.
    pub lease: Option<FenceLease>,
    /// What brings the fence where it was going.
    pub fence: Option<FenceRun>,
    pub step: RecoveryStep,
}

/// A run, and the projects that are recovered.
pub type RecoveryState = (RecoveryRun, Set<Seq<char>>);

impl RecoveryRun {
    /// The name of the project that the run has come to.
    pub open spec fn project(self) -> Seq<char> {
        self.projects@[self.at as int]@
    }

    /// A run that comes to a project: it is not recovered while its fence is looked into.
    pub open spec fn opened(self, recovered: Set<Seq<char>>) -> RecoveryState {
        if self.at >= self.projects@.len() {
            (
                RecoveryRun {
                    was_recovered: false,
                    lease: None,
                    fence: None,
                    step: RecoveryStep::Finished,
                    ..self
                },
                recovered,
            )
        } else {
            (
                RecoveryRun {
                    was_recovered: recovered.contains(self.project()),
                    lease: None,
                    fence: None,
                    step: RecoveryStep::FindFence,
                    ..self
                },
                recovered.remove(self.project()),
            )
        }
    }

    /// A run that goes on to the next project, with the present one recovered or not.
    pub open spec fn passed(self, recovered: Set<Seq<char>>, done: bool) -> RecoveryState {
        RecoveryRun { at: (self.at + 1) as usize, ..self }.opened(
            if done {
                recovered.insert(self.project())
            } else {
                recovered
            },
        )
    }

    /// A run whose fence is where it was going.
    pub open spec fn settled(self, recovered: Set<Seq<char>>) -> RecoveryState {
        match self.scope {
            RecoveryScope::Projects => (
                RecoveryRun { lease: None, fence: None, step: RecoveryStep::Observe, ..self },
                recovered,
            ),
            RecoveryScope::Fences => self.passed(recovered, self.was_recovered),
        }
    }

    /// What a run leads to, given what came back of its step.
    pub open spec fn leads(self, recovered: Set<Seq<char>>, event: RecoveryEvent) -> Result<
        RecoveryState,
        FenceExecutionError,
    > {
        if self.at >= self.projects@.len() {
            Err(FenceExecutionError::UnexpectedEvent)
        } else {
            match (self.step, event) {
                (RecoveryStep::FindFence, RecoveryEvent::Found(found)) => match found {
                    None => Ok(self.settled(recovered)),
                    Some(lease) => match lease.recovery() {
                        FenceRecovery::Settled => Ok(self.settled(recovered)),
                        FenceRecovery::NeedsReconcile => Err(FenceExecutionError::NeedsReconcile),
                        FenceRecovery::Resume(goal) => Ok(
                            (
                                RecoveryRun {
                                    lease: Some(lease),
                                    step: RecoveryStep::BeginFence(goal),
                                    ..self
                                },
                                recovered,
                            ),
                        ),
                    },
                },
                (RecoveryStep::BeginFence(goal), RecoveryEvent::Begun(lease)) => {
                    match FenceRun::start_fault(goal, lease.state, None) {
                        Some(error) => Err(error),
                        None => Ok(
                            (
                                RecoveryRun {
                                    fence: Some(
                                        FenceRun {
                                            goal,
                                            lease,
                                            crash_at: None,
                                            step: FenceRunStep::Observe,
                                        },
                                    ),
                                    step: RecoveryStep::BringFence,
                                    ..self
                                },
                                recovered,
                            ),
                        ),
                    }
                },
                (RecoveryStep::BringFence, RecoveryEvent::Fence(event)) => match self.fence {
                    None => Err(FenceExecutionError::UnexpectedEvent),
                    Some(fence) => match following_fence_step(
                        fence.goal,
                        fence.lease,
                        fence.crash_at,
                        fence.step,
                        event,
                    ) {
                        Err(error) => Err(error),
                        Ok(FenceRunStep::Finished) => Ok(self.settled(recovered)),
                        Ok(step) => Ok(
                            (
                                RecoveryRun { fence: Some(FenceRun { step, ..fence }), ..self },
                                recovered,
                            ),
                        ),
                    },
                },
                (RecoveryStep::Observe, RecoveryEvent::Projected(projection)) => {
                    if projection is NeedsReconcile {
                        Err(FenceExecutionError::NeedsReconcile)
                    } else {
                        Ok(self.passed(recovered, true))
                    }
                },
                _ => Err(FenceExecutionError::UnexpectedEvent),
            }
        }
    }

    /// The projects stand in the order of their names, all that are done with are recovered, and the
    /// one that the run has come to is not.
    pub open spec fn in_order(self, recovered: Set<Seq<char>>) -> bool {
        &&& names_ordered(self.projects@)
        &&& self.at <= self.projects@.len()
        &&& self.at == self.projects@.len() <==> self.step is Finished
        &&& forall|i: int|
            0 <= i < self.at ==> recovered.contains((#[trigger] self.projects@[i])@)
        &&& self.at < self.projects@.len() ==> !recovered.contains(self.project())
    }

    /// The projects that are recovered, with the present one as it was before.
    pub open spec fn standing(self, recovered: Set<Seq<char>>) -> Set<Seq<char>> {
        if self.at < self.projects@.len() && self.was_recovered {
            recovered.insert(self.project())
        } else {
            recovered
        }
    }
}

impl<S, A, G, P> DurableExecutor<S, A, G, P> {
    fn open_project(&mut self, run: &mut RecoveryRun)
        ensures
            (*final(run), final(self).recovered()) == old(run).opened(old(self).recovered()),
            final(self).keeps(*old(self)),
    {
        run.lease = None;
        run.fence = None;
        if run.at >= run.projects.len() {
            run.was_recovered = false;
            run.step = RecoveryStep::Finished;
        } else {
            run.was_recovered = self.is_recovered(&run.projects[run.at]);
            self.begin_recovery(&run.projects[run.at]);
            run.step = RecoveryStep::FindFence;
        }
    }

    fn pass_project(&mut self, run: &mut RecoveryRun, done: bool)
        requires
            old(run).at < old(run).projects@.len(),
        ensures
            (*final(run), final(self).recovered()) == old(run).passed(old(self).recovered(), done),
            final(self).keeps(*old(self)),
    {
        if done {
            self.mark_recovered(&run.projects[run.at]);
        }
        assert(run.at < run.projects.len());
        run.at += 1;
        self.open_project(run);
    }

    fn settle_fence(&mut self, run: &mut RecoveryRun)
        requires
            old(run).at < old(run).projects@.len(),
        ensures
            (*final(run), final(self).recovered()) == old(run).settled(old(self).recovered()),
            final(self).keeps(*old(self)),
    {
        match run.scope {
            RecoveryScope::Projects => {
                run.lease = None;
                run.fence = None;
                run.step = RecoveryStep::Observe;
            },
            RecoveryScope::Fences => {
                let done = run.was_recovered;
                self.pass_project(run, done);
            },
        }
    }

    /// Begins to recover projects, each once and in the order of their names. There must be some.
    pub fn recover_security_state(&mut self, project_ids: &Vec<ProjectId>) -> (r: Result<
        RecoveryRun,
        FenceExecutionError,
    >)
        ensures
            final(self).keeps(*old(self)),
            match r {
                Ok(run) => {
                    &&& project_ids@.len() > 0
                    &&& run.scope is Projects
                    &&& run.at == 0
                    &&& project_names(run.projects@).to_set() == project_names(
                        project_ids@,
                    ).to_set()
                    &&& (run, final(self).recovered()) == run.opened(old(self).recovered())
                    &&& run.in_order(final(self).recovered())
                },
                Err(error) => {
                    &&& project_ids@.len() == 0
                    &&& error == FenceExecutionError::Store(
                        StoreError::InvalidControllerInput(
                            "security recovery requires the installed project set",
                        ),
                    )
                    &&& final(self).recovered() == old(self).recovered()
                },
            },
    {
        let projects = match projects_to_recover(project_ids) {
            Err(error) => return Err(error),
            Ok(projects) => projects,
        };
        proof {
            let given = project_names(project_ids@);
            let names = project_names(projects@);
            assert(given.contains(given[0]));
            assert(given.to_set().contains(given[0]));
            assert(names.to_set().contains(given[0]));
            assert(projects@.len() > 0);
        }
        let mut run = RecoveryRun {
            scope: RecoveryScope::Projects,
            projects,
            at: 0,
            was_recovered: false,
            lease: None,
            fence: None,
            step: RecoveryStep::FindFence,
        };
        self.open_project(&mut run);
        Ok(run)
    }

    /// Begins to bring the fences that the journal holds where they were going, in their order.
    pub fn reconcile_active_fences(&mut self, leases: &Vec<FenceLease>) -> (run: RecoveryRun)
        ensures
            final(self).keeps(*old(self)),
            run.scope is Fences,
            run.at == 0,
            project_names(run.projects@) == leases@.map_values(
                |lease: FenceLease| lease.project_id@,
            ),
            (run, final(self).recovered()) == run.opened(old(self).recovered()),
            run.standing(final(self).recovered()) == old(self).recovered(),
    {
        let mut projects: Vec<ProjectId> = Vec::new();
        let mut i: usize = 0;
        while i < leases.len()
            invariant
                i <= leases.len(),
                projects@.len() == i,
                forall|k: int|
                    0 <= k < i ==> (#[trigger] projects@[k])@ == leases@[k].project_id@,
            decreases leases.len() - i,
        {
            projects.push(leases[i].project_id.clone());
            i += 1;
        }
        let mut run = RecoveryRun {
            scope: RecoveryScope::Fences,
            projects,
            at: 0,
            was_recovered: false,
            lease: None,
            fence: None,
            step: RecoveryStep::FindFence,
        };
        self.open_project(&mut run);
        proof {
            assert(project_names(run.projects@) =~= leases@.map_values(
                |lease: FenceLease| lease.project_id@,
            ));
            assert(run.standing(self.recovered()) =~= old(self).recovered());
        }
        run
    }

    /// Goes on with a run once a step was done.
    pub fn advance_recovery(&mut self, run: &mut RecoveryRun, event: RecoveryEvent) -> (r: Result<
        (),
        FenceExecutionError,
    >)
        ensures
            final(self).keeps(*old(self)),
            match r {
                Ok(()) => old(run).leads(old(self).recovered(), event) == Ok::<
                    _,
                    FenceExecutionError,
                >((*final(run), final(self).recovered())),
                Err(error) => {
                    &&& old(run).leads(old(self).recovered(), event) == Err::<RecoveryState, _>(
                        error,
                    )
                    &&& *final(run) == *old(run)
                    &&& final(self).recovered() == old(self).recovered()
                },
            },
    {
        if run.at >= run.projects.len() {
            return Err(FenceExecutionError::UnexpectedEvent);
        }
        match (run.step, event) {
            (RecoveryStep::FindFence, RecoveryEvent::Found(found)) => match found {
                None => {
                    self.settle_fence(run);
                    Ok(())
                },
                Some(lease) => match lease.reconcile_active_fence() {
                    FenceRecovery::Settled => {
                        self.settle_fence(run);
                        Ok(())
                    },
                    FenceRecovery::NeedsReconcile => Err(FenceExecutionError::NeedsReconcile),
                    FenceRecovery::Resume(goal) => {
                        run.lease = Some(lease);
                        run.step = RecoveryStep::BeginFence(goal);
                        Ok(())
                    },
                },
            },
            (RecoveryStep::BeginFence(goal), RecoveryEvent::Begun(lease)) => {
                match FenceRun::begin(goal, lease, None) {
                    Err(error) => Err(error),
                    Ok(fence) => {
                        run.fence = Some(fence);
                        run.step = RecoveryStep::BringFence;
                        Ok(())
                    },
                }
            },
            (RecoveryStep::BringFence, RecoveryEvent::Fence(event)) => match run.fence.take() {
                None => Err(FenceExecutionError::UnexpectedEvent),
                Some(mut fence) => {
                    let outcome = fence.advance(event);
                    let finished = fence.step == FenceRunStep::Finished;
                    run.fence = Some(fence);
                    match outcome {
                        Err(error) => Err(error),
                        Ok(()) => {
                            if finished {
                                self.settle_fence(run);
                            }
                            Ok(())
                        },
                    }
                },
            },
            (RecoveryStep::Observe, RecoveryEvent::Projected(projection)) => {
                if projection == FenceProjection::NeedsReconcile {
                    return Err(FenceExecutionError::NeedsReconcile);
                }
                self.pass_project(run, true);
                Ok(())
            },
            _ => Err(FenceExecutionError::UnexpectedEvent),
        }
    }
}

/// However far a recovery of projects has come, what it is done with is recovered, and what it has
/// come to is not.
pub proof fn law_recovery_stays_in_order(
    run: RecoveryRun,
    recovered: Set<Seq<char>>,
    event: RecoveryEvent,
    next: RecoveryState,
)
    requires
        run.scope is Projects,
        run.in_order(recovered),
        run.leads(recovered, event) == Ok::<_, FenceExecutionError>(next),
    ensures
        next.0.scope is Projects,
        next.0.projects == run.projects,
        next.0.in_order(next.1),
{
    if next.0.at != run.at {
        assert forall|i: int| 0 <= i < next.0.at implies next.1.contains(
            (#[trigger] next.0.projects@[i])@,
        ) by {
            if next.0.at < run.projects@.len() {
                lemma_ordered_names_differ(run.projects@, i, next.0.at as int);
            }
        }
    }
}

/// A recovery of projects that has come to its end has recovered all of them.
pub proof fn law_finished_recovery_is_complete(
    run: RecoveryRun,
    recovered: Set<Seq<char>>,
    i: int,
)
    requires
        run.scope is Projects,
        run.in_order(recovered),
        run.step is Finished,
        0 <= i < run.projects@.len(),
    ensures
        recovered.contains(run.projects@[i]@),
{
}

/// A recovery of projects that fails leaves the project that it has come to not recovered, whatever
/// the failure.
pub proof fn law_failed_recovery_leaves_its_project(
    run: RecoveryRun,
    recovered: Set<Seq<char>>,
    event: RecoveryEvent,
    error: FenceExecutionError,
)
    requires
        run.scope is Projects,
        run.in_order(recovered),
        !(run.step is Finished),
        run.leads(recovered, event) == Err::<RecoveryState, _>(error),
    ensures
        !recovered.contains(run.project()),
{
}

/// Bringing the fences of the journal where they were going makes no project recovered that was not,
/// and leaves none unrecovered that was, once it goes on to the next.
pub proof fn law_reconciled_fences_keep_what_was_recovered(
    run: RecoveryRun,
    recovered: Set<Seq<char>>,
    event: RecoveryEvent,
    next: RecoveryState,
)
    requires
        run.scope is Fences,
        !(run.step is Observe),
        run.leads(recovered, event) == Ok::<_, FenceExecutionError>(next),
    ensures
        next.0.scope is Fences,
        !(next.0.step is Observe),
        next.0.standing(next.1) == run.standing(recovered),
        next.0.at >= next.0.projects@.len() ==> next.1 == run.standing(recovered),
{
    assert(next.0.standing(next.1) =~= run.standing(recovered));
}

proof fn lemma_ordered_names_differ(projects: Seq<ProjectId>, i: int, j: int)
    requires
        names_ordered(projects),
        0 <= i < j < projects.len(),
    ensures
        projects[i]@ != projects[j]@,
{
    assert(text_before(projects[i]@, projects[j]@));
    lemma_text_before_asymmetric(projects[i]@, projects[j]@);
}

/// A project is recovered only once its journal was looked at and needs nothing from an operator, and
/// it is looked at only once its fence is settled or was brought where it was going. A fence that needs
/// an operator stops the recovery.
pub proof fn law_projects_are_recovered_once_they_were_looked_at(
    run: RecoveryRun,
    recovered: Set<Seq<char>>,
    event: RecoveryEvent,
    next: RecoveryState,
)
    requires
        run.scope is Projects,
        run.in_order(recovered),
        run.leads(recovered, event) == Ok::<_, FenceExecutionError>(next),
    ensures
        next.1.contains(run.project()) <==> run.step is Observe,
        run.step is Observe ==> event is Projected && !(event->Projected_0 is NeedsReconcile),
        next.0.at > run.at <==> run.step is Observe,
        next.0.at <= run.at + 1,
        next.0.step is Observe ==> {
            ||| run.step is FindFence && event == RecoveryEvent::Found(None)
            ||| run.step is FindFence && (event matches RecoveryEvent::Found(Some(lease))
                && lease.recovery() is Settled)
            ||| run.step is BringFence && event is Fence
        },
        run.step is FindFence && event is Found ==> !(event->Found_0 matches Some(lease)
            && lease.recovery() is NeedsReconcile),
        forall|name: Seq<char>|
            #![trigger next.1.contains(name)]
            name != run.project() && next.1.contains(name) ==> recovered.contains(name),
{
    assert(run.at < run.projects.len());
    if next.0.at > run.at && next.0.at < run.projects@.len() {
        lemma_ordered_names_differ(run.projects@, run.at as int, next.0.at as int);
    }
}

} // verus!
