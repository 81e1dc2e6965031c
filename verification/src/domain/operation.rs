//! Operations: their kinds, the phases each kind goes through, and the states it can be in.

use vstd::prelude::*;
use super::identifiers::{digest_document, document_digest, EvidenceDigest, GitCommitId, ProjectId};
use super::states::{BlockingReason, OperationPhase, OperationResult};
use crate::json::{
    canonical_bytes, is_canonical, jcs, json_int, json_nat, json_object, json_string, no_members,
    EncodingError, JsonObject,
};
use crate::unique_id::Uuid;

verus! {

pub const FENCE_ACQUISITION_RECEIPT_SCHEMA_VERSION: u16 = 1;

/// What an operation is for.
#[derive(Clone, Copy, Debug, PartialEq, Eq, Hash, Structural)]
pub enum OperationKind {
    Deploy,
    CodeRollback,
    BackupOnly,
}

impl OperationKind {
    /// The name in documents.
    pub open spec fn name(self) -> Seq<char> {
        match self {
            OperationKind::Deploy => "deploy"@,
            OperationKind::CodeRollback => "code_rollback"@,
            OperationKind::BackupOnly => "backup_only"@,
        }
    }

    pub fn as_str(self) -> (r: &'static str)
        ensures
            r@ == self.name(),
    {
        match self {
            OperationKind::Deploy => "deploy",
            OperationKind::CodeRollback => "code_rollback",
            OperationKind::BackupOnly => "backup_only",
        }
    }
}

/// How the execution of an accepted mutation stands.
#[derive(Clone, Copy, Debug, PartialEq, Eq, Hash, Structural)]
pub enum MutationExecutionStateV1 {
    Accepted,
    Running,
    NeedsReconcile,
    Succeeded,
}

impl MutationExecutionStateV1 {
    /// The name in documents.
    pub open spec fn name(self) -> Seq<char> {
        match self {
            MutationExecutionStateV1::Accepted => "accepted"@,
            MutationExecutionStateV1::Running => "running"@,
            MutationExecutionStateV1::NeedsReconcile => "needs_reconcile"@,
            MutationExecutionStateV1::Succeeded => "succeeded"@,
        }
    }

    pub fn as_str(self) -> (r: &'static str)
        ensures
            r@ == self.name(),
    {
        match self {
            MutationExecutionStateV1::Accepted => "accepted",
            MutationExecutionStateV1::Running => "running",
            MutationExecutionStateV1::NeedsReconcile => "needs_reconcile",
            MutationExecutionStateV1::Succeeded => "succeeded",
        }
    }
}

/// How much of a project a release touches.
#[derive(Clone, Copy, Debug, PartialEq, Eq, Hash, Structural)]
pub enum ReleaseClass {
    CodeOnlyCompatible,
    StatefulCompatible,
    StatefulBreaking,
    Rollback,
}

impl ReleaseClass {
    /// The name in documents.
    pub open spec fn name(self) -> Seq<char> {
        match self {
            ReleaseClass::CodeOnlyCompatible => "code_only_compatible"@,
            ReleaseClass::StatefulCompatible => "stateful_compatible"@,
            ReleaseClass::StatefulBreaking => "stateful_breaking"@,
            ReleaseClass::Rollback => "rollback"@,
        }
    }

    pub fn as_str(self) -> (r: &'static str)
        ensures
            r@ == self.name(),
    {
        match self {
            ReleaseClass::CodeOnlyCompatible => "code_only_compatible",
            ReleaseClass::StatefulCompatible => "stateful_compatible",
            ReleaseClass::StatefulBreaking => "stateful_breaking",
            ReleaseClass::Rollback => "rollback",
        }
    }
}

/// What started an operation without a person.
#[derive(Clone, Copy, Debug, PartialEq, Eq, Hash, Structural)]
pub enum AutomationSource {
    GithubWebhook,
    SourceReconciliation,
    DirectPush,
}

impl AutomationSource {
    /// The name in documents.
    pub open spec fn name(self) -> Seq<char> {
        match self {
            AutomationSource::GithubWebhook => "github_webhook"@,
            AutomationSource::SourceReconciliation => "source_reconciliation"@,
            AutomationSource::DirectPush => "direct_push"@,
        }
    }

    pub fn as_str(self) -> (r: &'static str)
        ensures
            r@ == self.name(),
    {
        match self {
            AutomationSource::GithubWebhook => "github_webhook",
            AutomationSource::SourceReconciliation => "source_reconciliation",
            AutomationSource::DirectPush => "direct_push",
        }
    }
}

/// How an operation is being recovered.
#[derive(Clone, Copy, Debug, PartialEq, Eq, Hash, Structural)]
pub enum OperationRecoveryMode {
    Rollback,
    Reconciliation,
}

impl OperationRecoveryMode {
    /// The name in documents.
    pub open spec fn name(self) -> Seq<char> {
        match self {
            OperationRecoveryMode::Rollback => "rollback"@,
            OperationRecoveryMode::Reconciliation => "reconciliation"@,
        }
    }

    pub fn as_str(self) -> (r: &'static str)
        ensures
            r@ == self.name(),
    {
        match self {
            OperationRecoveryMode::Rollback => "rollback",
            OperationRecoveryMode::Reconciliation => "reconciliation",
        }
    }
}

/// The state of a mutation as it is shown to a caller.
#[derive(Clone, Debug, PartialEq, Eq)]
pub struct MutationStatusV1 {
    pub intent_id: Uuid,
    pub attempt_id: Uuid,
    pub project_id: ProjectId,
    pub operation_kind: OperationKind,
    pub target_commit: Option<GitCommitId>,
    pub effective_release_class: Option<ReleaseClass>,
    pub state: MutationExecutionStateV1,
    pub current_phase: OperationPhase,
    pub completed_phases: Vec<OperationPhase>,
    pub accepted_at_ms: i64,
    pub updated_at_ms: i64,
}

/// The operation and the release class do not go together.
#[derive(Clone, Copy, Debug, PartialEq, Eq, Structural)]
pub enum OperationContractError {
    ReleaseClassMismatch,
}

/// Two phases follow one another in a plan.
pub open spec fn adjacent(
    plan: Seq<OperationPhase>,
    current: OperationPhase,
    next: OperationPhase,
) -> bool {
    exists|i: int| 0 <= i < plan.len() - 1 && #[trigger] plan[i] == current && plan[i + 1] == next
}

/// From any phase an operation can go to reconciliation, and from any phase that may have changed
/// production to rollback; otherwise it follows its plan.
pub open spec fn permitted(
    plan: Seq<OperationPhase>,
    current: OperationPhase,
    next: OperationPhase,
) -> bool {
    if next is Reconciliation {
        true
    } else if next is Rollback {
        !current.before_mutation()
    } else {
        adjacent(plan, current, next)
    }
}

fn is_adjacent(
    plan: &Vec<OperationPhase>,
    current: OperationPhase,
    next: OperationPhase,
) -> (r: bool)
    ensures
        r == adjacent(plan@, current, next),
{
    let mut i: usize = 1;
    while i < plan.len()
        invariant
            1 <= i,
            i <= plan.len() || plan.len() == 0,
            forall|k: int|
                0 <= k < i - 1 && k < plan.len() - 1 ==> !(#[trigger] plan@[k] == current && plan@[k + 1] == next),
        decreases plan.len() - i,
    {
        if plan[i - 1] == current && plan[i] == next {
            assert(plan@[i - 1] == current && plan@[(i - 1) + 1] == next);
            return true;
        }
        i += 1;
    }
    false
}

impl ReleaseClass {
    /// The phases of a release of this class, in order.
    pub open spec fn plan(self) -> Seq<OperationPhase> {
        match self {
            ReleaseClass::CodeOnlyCompatible => seq![
                OperationPhase::Queued,
                OperationPhase::SyncingSource,
                OperationPhase::VerifyingSource,
                OperationPhase::Testing,
                OperationPhase::Building,
                OperationPhase::Preflight,
                OperationPhase::Deploying,
                OperationPhase::HealthChecking,
                OperationPhase::Soaking,
            ],
            ReleaseClass::StatefulCompatible | ReleaseClass::StatefulBreaking => seq![
                OperationPhase::Queued,
                OperationPhase::SyncingSource,
                OperationPhase::VerifyingSource,
                OperationPhase::Testing,
                OperationPhase::Building,
                OperationPhase::Preflight,
                OperationPhase::BackingUp,
                OperationPhase::Draining,
                OperationPhase::CutoverSnapshotting,
                OperationPhase::Migrating,
                OperationPhase::Deploying,
                OperationPhase::HealthChecking,
                OperationPhase::Soaking,
            ],
            ReleaseClass::Rollback => seq![
                OperationPhase::Queued,
                OperationPhase::Preflight,
                OperationPhase::Rollback,
                OperationPhase::HealthChecking,
                OperationPhase::Soaking,
            ],
        }
    }

    pub fn required_phases(self) -> (r: Vec<OperationPhase>)
        ensures
            r@ == self.plan(),
    {
        match self {
            ReleaseClass::CodeOnlyCompatible => vec![
                OperationPhase::Queued,
                OperationPhase::SyncingSource,
                OperationPhase::VerifyingSource,
                OperationPhase::Testing,
                OperationPhase::Building,
                OperationPhase::Preflight,
                OperationPhase::Deploying,
                OperationPhase::HealthChecking,
                OperationPhase::Soaking,
            ],
            ReleaseClass::StatefulCompatible | ReleaseClass::StatefulBreaking => vec![
                OperationPhase::Queued,
                OperationPhase::SyncingSource,
                OperationPhase::VerifyingSource,
                OperationPhase::Testing,
                OperationPhase::Building,
                OperationPhase::Preflight,
                OperationPhase::BackingUp,
                OperationPhase::Draining,
                OperationPhase::CutoverSnapshotting,
                OperationPhase::Migrating,
                OperationPhase::Deploying,
                OperationPhase::HealthChecking,
                OperationPhase::Soaking,
            ],
            ReleaseClass::Rollback => vec![
                OperationPhase::Queued,
                OperationPhase::Preflight,
                OperationPhase::Rollback,
                OperationPhase::HealthChecking,
                OperationPhase::Soaking,
            ],
        }
    }

    pub fn permits_transition(self, current: OperationPhase, next: OperationPhase) -> (r: bool)
        ensures
            r == permitted(self.plan(), current, next),
    {
        if next == OperationPhase::Reconciliation {
            return true;
        }
        if next == OperationPhase::Rollback {
            return current.crosses_mutation_boundary();
        }
        is_adjacent(&self.required_phases(), current, next)
    }
}

/// The phases of a backup without a release.
pub open spec fn backup_plan() -> Seq<OperationPhase> {
    seq![OperationPhase::Queued, OperationPhase::Preflight, OperationPhase::BackingUp]
}

impl OperationKind {
    pub open spec fn has_commit(self) -> bool {
        self is Deploy || self is CodeRollback
    }

    pub fn requires_commit(self) -> (r: bool)
        ensures
            r == self.has_commit(),
    {
        match self {
            OperationKind::Deploy | OperationKind::CodeRollback => true,
            OperationKind::BackupOnly => false,
        }
    }

    /// The phases of an operation of this kind and class, or `None` where the two do not go
    /// together: a deployment has a class other than rollback, a rollback has that class, a backup
    /// has none.
    pub open spec fn plan(
        self,
        release_class: Option<ReleaseClass>,
    ) -> Option<Seq<OperationPhase>> {
        match (self, release_class) {
            (OperationKind::Deploy, Some(class)) => if class is Rollback {
                None
            } else {
                Some(class.plan())
            },
            (OperationKind::CodeRollback, Some(ReleaseClass::Rollback)) => Some(
                ReleaseClass::Rollback.plan(),
            ),
            (OperationKind::BackupOnly, None) => Some(backup_plan()),
            _ => None,
        }
    }

    pub fn required_phases(self, release_class: Option<ReleaseClass>) -> (r: Result<
        Vec<OperationPhase>,
        OperationContractError,
    >)
        ensures
            match r {
                Ok(phases) => self.plan(release_class) == Some(phases@),
                Err(_) => self.plan(release_class) is None,
            },
    {
        match (self, release_class) {
            (OperationKind::Deploy, Some(ReleaseClass::CodeOnlyCompatible)) => Ok(
                ReleaseClass::CodeOnlyCompatible.required_phases(),
            ),
            (OperationKind::Deploy, Some(ReleaseClass::StatefulCompatible)) => Ok(
                ReleaseClass::StatefulCompatible.required_phases(),
            ),
            (OperationKind::Deploy, Some(ReleaseClass::StatefulBreaking)) => Ok(
                ReleaseClass::StatefulBreaking.required_phases(),
            ),
            (OperationKind::CodeRollback, Some(ReleaseClass::Rollback)) => Ok(
                ReleaseClass::Rollback.required_phases(),
            ),
            (OperationKind::BackupOnly, None) => Ok(
                vec![OperationPhase::Queued, OperationPhase::Preflight, OperationPhase::BackingUp],
            ),
            _ => Err(OperationContractError::ReleaseClassMismatch),
        }
    }

    /// Whether an operation can go from one phase to another. The class is looked at only where
    /// the plan decides.
    pub fn permits_transition(
        self,
        release_class: Option<ReleaseClass>,
        current: OperationPhase,
        next: OperationPhase,
    ) -> (r: Result<bool, OperationContractError>)
        ensures
            match r {
                Ok(allowed) => {
                    &&& next is Reconciliation || next is Rollback || self.plan(release_class) is Some
                    &&& allowed == permitted(
                        match self.plan(release_class) {
                            Some(plan) => plan,
                            None => seq![],
                        },
                        current,
                        next,
                    )
                },
                Err(_) => !(next is Reconciliation) && !(next is Rollback) && self.plan(
                    release_class,
                ) is None,
            },
    {
        if next == OperationPhase::Reconciliation {
            return Ok(true);
        }
        if next == OperationPhase::Rollback {
            return Ok(current.crosses_mutation_boundary());
        }
        match self.required_phases(release_class) {
            Ok(plan) => Ok(is_adjacent(&plan, current, next)),
            Err(error) => Err(error),
        }
    }
}

/// Every plan begins in the queue, goes through no phase twice, and never returns from the phases
/// that may have changed production to those before them.
pub proof fn law_plans_progress(kind: OperationKind, release_class: Option<ReleaseClass>)
    requires
        kind.plan(release_class) is Some,
    ensures
        kind.plan(release_class)->0.len() > 0,
        kind.plan(release_class)->0[0] is Queued,
        forall|i: int, j: int|
            0 <= i < j < kind.plan(release_class)->0.len() ==> kind.plan(release_class)->0[i]
                != kind.plan(release_class)->0[j],
        forall|i: int, j: int|
            0 <= i < j < kind.plan(release_class)->0.len()
                && !(#[trigger] kind.plan(release_class)->0[i]).before_mutation()
                ==> !(#[trigger] kind.plan(release_class)->0[j]).before_mutation(),
        forall|i: int|
            0 <= i < kind.plan(release_class)->0.len()
                ==> !(#[trigger] kind.plan(release_class)->0[i] is Reconciliation),
{
}

/// A plan leaves no choice: at most one phase other than rollback and reconciliation may follow a
/// phase.
pub proof fn law_next_phase_is_unique(
    kind: OperationKind,
    release_class: Option<ReleaseClass>,
    current: OperationPhase,
    a: OperationPhase,
    b: OperationPhase,
)
    requires
        kind.plan(release_class) is Some,
        !(a is Rollback) && !(a is Reconciliation),
        !(b is Rollback) && !(b is Reconciliation),
        permitted(kind.plan(release_class)->0, current, a),
        permitted(kind.plan(release_class)->0, current, b),
    ensures
        a == b,
{
    law_plans_progress(kind, release_class);
    let plan = kind.plan(release_class)->0;
    let i = choose|i: int|
        0 <= i < plan.len() - 1 && #[trigger] plan[i] == current && plan[i + 1] == a;
    let j = choose|j: int|
        0 <= j < plan.len() - 1 && #[trigger] plan[j] == current && plan[j + 1] == b;
    assert(i == j);
}

/// A permitted transition never returns from a phase that may have changed production to one
/// before that.
pub proof fn law_mutation_is_not_undone_by_a_transition(
    kind: OperationKind,
    release_class: Option<ReleaseClass>,
    current: OperationPhase,
    next: OperationPhase,
)
    requires
        kind.plan(release_class) is Some,
        permitted(kind.plan(release_class)->0, current, next),
        !current.before_mutation(),
    ensures
        !next.before_mutation(),
{
    law_plans_progress(kind, release_class);
    let plan = kind.plan(release_class)->0;
    if !(next is Rollback) && !(next is Reconciliation) {
        let i = choose|i: int|
            0 <= i < plan.len() - 1 && #[trigger] plan[i] == current && plan[i + 1] == next;
        assert(plan[i + 1] == next);
    }
}

/// A phase stands in a plan somewhere before another.
pub open spec fn comes_before(
    plan: Seq<OperationPhase>,
    first: OperationPhase,
    second: OperationPhase,
) -> bool {
    exists|i: int, j: int|
        0 <= i < j < plan.len() && #[trigger] plan[i] == first && #[trigger] plan[j] == second
}

/// A phase that only a release with state goes through.
pub open spec fn for_state(phase: OperationPhase) -> bool {
    phase is BackingUp || phase is Draining || phase is CutoverSnapshotting || phase is Migrating
}

proof fn lemma_stands_at(plan: Seq<OperationPhase>, i: int, j: int)
    requires
        0 <= i < j < plan.len(),
    ensures
        comes_before(plan, plan[i], plan[j]),
        j == i + 1 ==> adjacent(plan, plan[i], plan[j]),
        plan.contains(plan[i]),
        plan.contains(plan[j]),
{
    assert(plan[i] == plan[i] && plan[j] == plan[j]);
}

/// A release with state is backed up, drained, snapshot and migrated, in this order and with nothing
/// in between, before its code is deployed; then its health is checked, it soaks, and that is the
/// end.
pub proof fn law_state_is_migrated_before_code_is_deployed(
    class: ReleaseClass,
    phases: Vec<OperationPhase>,
)
    requires
        class is StatefulCompatible || class is StatefulBreaking,
        call_ensures(ReleaseClass::required_phases, (class,), phases),
    ensures
        comes_before(phases@, OperationPhase::Preflight, OperationPhase::BackingUp),
        comes_before(phases@, OperationPhase::BackingUp, OperationPhase::Draining),
        comes_before(phases@, OperationPhase::Draining, OperationPhase::CutoverSnapshotting),
        comes_before(phases@, OperationPhase::CutoverSnapshotting, OperationPhase::Migrating),
        comes_before(phases@, OperationPhase::Migrating, OperationPhase::Deploying),
        adjacent(phases@, OperationPhase::Preflight, OperationPhase::BackingUp),
        adjacent(phases@, OperationPhase::BackingUp, OperationPhase::Draining),
        adjacent(phases@, OperationPhase::Draining, OperationPhase::CutoverSnapshotting),
        adjacent(phases@, OperationPhase::CutoverSnapshotting, OperationPhase::Migrating),
        adjacent(phases@, OperationPhase::Migrating, OperationPhase::Deploying),
        adjacent(phases@, OperationPhase::Deploying, OperationPhase::HealthChecking),
        adjacent(phases@, OperationPhase::HealthChecking, OperationPhase::Soaking),
        phases@.last() is Soaking,
        forall|i: int, j: int|
            0 <= i < phases@.len() && 0 <= j < phases@.len() && (for_state(#[trigger] phases@[i])
                || phases@[i] is Preflight) && (#[trigger] phases@[j] is Deploying
                || phases@[j] is HealthChecking || phases@[j] is Soaking) ==> i < j,
{
    lemma_stands_at(phases@, 5, 6);
    lemma_stands_at(phases@, 6, 7);
    lemma_stands_at(phases@, 7, 8);
    lemma_stands_at(phases@, 8, 9);
    lemma_stands_at(phases@, 9, 10);
    lemma_stands_at(phases@, 10, 11);
    lemma_stands_at(phases@, 11, 12);
}

/// A release waits in the queue, gets its source, verifies it, tests it, builds it and passes its
/// preflight, in this order and before anything else; code that needs no state is deployed right
/// after, and ends as every release does.
pub proof fn law_releases_are_built_before_they_are_deployed(
    class: ReleaseClass,
    phases: Vec<OperationPhase>,
)
    requires
        !(class is Rollback),
        call_ensures(ReleaseClass::required_phases, (class,), phases),
    ensures
        phases@.first() is Queued,
        adjacent(phases@, OperationPhase::Queued, OperationPhase::SyncingSource),
        adjacent(phases@, OperationPhase::SyncingSource, OperationPhase::VerifyingSource),
        adjacent(phases@, OperationPhase::VerifyingSource, OperationPhase::Testing),
        adjacent(phases@, OperationPhase::Testing, OperationPhase::Building),
        adjacent(phases@, OperationPhase::Building, OperationPhase::Preflight),
        comes_before(phases@, OperationPhase::Preflight, OperationPhase::Deploying),
        adjacent(phases@, OperationPhase::Deploying, OperationPhase::HealthChecking),
        adjacent(phases@, OperationPhase::HealthChecking, OperationPhase::Soaking),
        phases@.last() is Soaking,
        !phases@.contains(OperationPhase::Rollback),
        class is CodeOnlyCompatible ==> adjacent(
            phases@,
            OperationPhase::Preflight,
            OperationPhase::Deploying,
        ),
        forall|phase: OperationPhase|
            for_state(phase) ==> (#[trigger] phases@.contains(phase) <==> !(
            class is CodeOnlyCompatible)),
{
    let last = phases@.len() - 1;
    lemma_stands_at(phases@, 0, 1);
    lemma_stands_at(phases@, 1, 2);
    lemma_stands_at(phases@, 2, 3);
    lemma_stands_at(phases@, 3, 4);
    lemma_stands_at(phases@, 4, 5);
    lemma_stands_at(phases@, 5, last - 2);
    lemma_stands_at(phases@, last - 2, last - 1);
    lemma_stands_at(phases@, last - 1, last);
    if !(class is CodeOnlyCompatible) {
        lemma_stands_at(phases@, 6, 7);
        lemma_stands_at(phases@, 8, 9);
    }
}

/// Two releases that need no state, or two that do, go through the same phases, and the phases for
/// state are all that one kind has over the other.
pub proof fn law_only_state_tells_releases_apart(
    a: ReleaseClass,
    b: ReleaseClass,
    of_a: Vec<OperationPhase>,
    of_b: Vec<OperationPhase>,
    phase: OperationPhase,
)
    requires
        !(a is Rollback) && !(b is Rollback),
        call_ensures(ReleaseClass::required_phases, (a,), of_a),
        call_ensures(ReleaseClass::required_phases, (b,), of_b),
    ensures
        (a is CodeOnlyCompatible) == (b is CodeOnlyCompatible) ==> of_a@ == of_b@,
        !for_state(phase) ==> (of_a@.contains(phase) <==> of_b@.contains(phase)),
{
    let last_a = of_a@.len() - 1;
    let last_b = of_b@.len() - 1;
    lemma_every_member(of_a@, phase);
    lemma_every_member(of_b@, phase);
    law_releases_are_built_before_they_are_deployed(a, of_a);
    law_releases_are_built_before_they_are_deployed(b, of_b);
    lemma_stands_at(of_a@, 0, 1);
    lemma_stands_at(of_b@, 0, 1);
    lemma_stands_at(of_a@, 2, 3);
    lemma_stands_at(of_b@, 2, 3);
    lemma_stands_at(of_a@, 4, 5);
    lemma_stands_at(of_b@, 4, 5);
    lemma_stands_at(of_a@, last_a - 2, last_a - 1);
    lemma_stands_at(of_b@, last_b - 2, last_b - 1);
    lemma_stands_at(of_a@, last_a - 1, last_a);
    lemma_stands_at(of_b@, last_b - 1, last_b);
}

proof fn lemma_every_member(plan: Seq<OperationPhase>, phase: OperationPhase)
    ensures
        plan.contains(phase) ==> exists|i: int| 0 <= i < plan.len() && #[trigger] plan[i] == phase,
{
}

/// A release that goes back to the one before passes its preflight, rolls back, has its health
/// checked and soaks; it neither gets, builds nor deploys anything, and touches no state.
pub proof fn law_rollbacks_build_and_deploy_nothing(phases: Vec<OperationPhase>)
    requires
        call_ensures(ReleaseClass::required_phases, (ReleaseClass::Rollback,), phases),
    ensures
        phases@.first() is Queued,
        adjacent(phases@, OperationPhase::Queued, OperationPhase::Preflight),
        adjacent(phases@, OperationPhase::Preflight, OperationPhase::Rollback),
        adjacent(phases@, OperationPhase::Rollback, OperationPhase::HealthChecking),
        adjacent(phases@, OperationPhase::HealthChecking, OperationPhase::Soaking),
        phases@.last() is Soaking,
        !phases@.contains(OperationPhase::SyncingSource),
        !phases@.contains(OperationPhase::VerifyingSource),
        !phases@.contains(OperationPhase::Testing),
        !phases@.contains(OperationPhase::Building),
        !phases@.contains(OperationPhase::Deploying),
        !phases@.contains(OperationPhase::Reconciliation),
        forall|phase: OperationPhase| for_state(phase) ==> !#[trigger] phases@.contains(phase),
{
    lemma_stands_at(phases@, 0, 1);
    lemma_stands_at(phases@, 1, 2);
    lemma_stands_at(phases@, 2, 3);
    lemma_stands_at(phases@, 3, 4);
}

/// A deployment has the phases of its release, and so has a rollback; a backup alone passes its
/// preflight and backs up. A deployment cannot be a rollback, a rollback can be nothing else, and a
/// backup has no release. What has a release needs a commit, and what has none does not.
pub proof fn law_kinds_go_with_their_releases(
    kind: OperationKind,
    release_class: Option<ReleaseClass>,
    r: Result<Vec<OperationPhase>, OperationContractError>,
    needs_commit: bool,
)
    requires
        call_ensures(OperationKind::required_phases, (kind, release_class), r),
        call_ensures(OperationKind::requires_commit, (kind,), needs_commit),
    ensures
        kind is Deploy && release_class is Some ==> (r is Ok <==> !(release_class->0 is Rollback)),
        kind is CodeRollback && release_class is Some ==> (r is Ok <==> release_class->0 is Rollback),
        kind is BackupOnly ==> (r is Ok <==> release_class is None),
        r is Ok ==> needs_commit == (release_class is Some),
        forall|own: Vec<OperationPhase>|
            release_class is Some && #[trigger] call_ensures(
                ReleaseClass::required_phases,
                (release_class->0,),
                own,
            ) && r is Ok ==> r->Ok_0@ == own@,
        r is Ok && kind is BackupOnly ==> {
            &&& r->Ok_0@.first() is Queued
            &&& adjacent(r->Ok_0@, OperationPhase::Queued, OperationPhase::Preflight)
            &&& adjacent(r->Ok_0@, OperationPhase::Preflight, OperationPhase::BackingUp)
            &&& r->Ok_0@.last() is BackingUp
        },
        r is Ok ==> (r->Ok_0@.contains(OperationPhase::Deploying) <==> kind is Deploy),
        r is Ok ==> (r->Ok_0@.contains(OperationPhase::Rollback) <==> kind is CodeRollback),
{
    match r {
        Ok(phases) => {
            let last = phases@.len() - 1;
            if kind is BackupOnly {
                lemma_stands_at(phases@, 0, 1);
                lemma_stands_at(phases@, 1, 2);
            } else {
                lemma_stands_at(phases@, last - 2, last - 1);
            }
        },
        Err(_) => {},
    }
}

/// Up to its preflight no operation changes production, and with every phase behind that it can.
pub proof fn law_production_changes_after_the_preflight(
    kind: OperationKind,
    release_class: Option<ReleaseClass>,
    phases: Vec<OperationPhase>,
    place: int,
    preflight: int,
    crossed: bool,
)
    requires
        call_ensures(
            OperationKind::required_phases,
            (kind, release_class),
            Ok::<_, OperationContractError>(phases),
        ),
        0 <= place < phases@.len(),
        0 <= preflight < phases@.len(),
        phases@[preflight] is Preflight,
        call_ensures(OperationPhase::crosses_mutation_boundary, (phases@[place],), crossed),
    ensures
        crossed == (place > preflight),
{
}

proof fn lemma_followers(plan: Seq<OperationPhase>, current: OperationPhase, next: OperationPhase)
    requires
        forall|i: int, j: int| 0 <= i < j < plan.len() ==> plan[i] != plan[j],
    ensures
        adjacent(plan, current, next) ==> comes_before(plan, current, next) && plan.contains(next),
        forall|i: int, j: int|
            0 <= i && j == i + 1 && j < plan.len() && #[trigger] plan[j] == next ==> (adjacent(
                plan,
                current,
                next,
            ) <==> #[trigger] plan[i] == current),
{
    if adjacent(plan, current, next) {
        let i = choose|i: int|
            0 <= i < plan.len() - 1 && #[trigger] plan[i] == current && plan[i + 1] == next;
        lemma_stands_at(plan, i, i + 1);
    }
    assert forall|i: int, j: int|
        0 <= i && j == i + 1 && j < plan.len() && #[trigger] plan[j] == next implies (adjacent(
        plan,
        current,
        next,
    ) <==> #[trigger] plan[i] == current) by {
        lemma_stands_at(plan, i, j);
        if adjacent(plan, current, next) {
            let k = choose|k: int|
                0 <= k < plan.len() - 1 && #[trigger] plan[k] == current && plan[k + 1] == next;
            assert(plan[k + 1] == next);
            assert(k + 1 == j);
        }
    }
}

/// Reconciliation can follow any phase, and rollback any phase that production can have changed in.
/// Any other phase follows exactly the one that it stands behind in the plan.
pub proof fn law_transitions_follow_the_plan(
    kind: OperationKind,
    release_class: Option<ReleaseClass>,
    current: OperationPhase,
    next: OperationPhase,
    r: Result<bool, OperationContractError>,
    plan: Result<Vec<OperationPhase>, OperationContractError>,
    crossed: bool,
)
    requires
        call_ensures(OperationKind::permits_transition, (kind, release_class, current, next), r),
        call_ensures(OperationKind::required_phases, (kind, release_class), plan),
        call_ensures(OperationPhase::crosses_mutation_boundary, (current,), crossed),
    ensures
        next is Reconciliation ==> r == Ok::<bool, OperationContractError>(true),
        next is Rollback ==> r == Ok::<bool, OperationContractError>(crossed),
        !(next is Reconciliation) && !(next is Rollback) ==> (r is Ok <==> plan is Ok),
        !(next is Reconciliation) && !(next is Rollback) && plan is Ok ==> {
            &&& r->Ok_0 ==> comes_before(plan->Ok_0@, current, next)
            &&& forall|i: int, j: int|
                0 <= i && j == i + 1 && j < plan->Ok_0@.len() && #[trigger] plan->Ok_0@[j] == next
                    ==> (r->Ok_0 <==> #[trigger] plan->Ok_0@[i] == current)
            &&& r->Ok_0 ==> plan->Ok_0@.contains(next)
        },
{
    if !(next is Reconciliation) && !(next is Rollback) && plan is Ok {
        law_plans_progress(kind, release_class);
        lemma_followers(plan->Ok_0@, current, next);
    }
}

/// A release class decides on transitions as a deployment or a rollback of that class does.
pub proof fn law_classes_decide_as_their_operations(
    class: ReleaseClass,
    current: OperationPhase,
    next: OperationPhase,
    r: bool,
    of_kind: Result<bool, OperationContractError>,
)
    requires
        call_ensures(ReleaseClass::permits_transition, (class, current, next), r),
        call_ensures(
            OperationKind::permits_transition,
            (
                if class is Rollback {
                    OperationKind::CodeRollback
                } else {
                    OperationKind::Deploy
                },
                Some(class),
                current,
                next,
            ),
            of_kind,
        ),
    ensures
        of_kind == Ok::<bool, OperationContractError>(r),
{
}

/// An operation that has ended is not blocked, and each way to end belongs to the phases that can
/// end so: manual recovery to reconciliation, a finished rollback to the rollback or its soak, a
/// failed rollback to the rollback or to reconciliation. Every other state is in order.
pub proof fn law_ends_belong_to_their_phases(
    state: OperationState,
    r: Result<(), OperationStateError>,
)
    requires
        call_ensures(OperationState::validate, (&state,), r),
    ensures
        r is Ok && !(state.result is Running) ==> state.blocking_reason is Unblocked,
        r is Ok && state.result is ManualRecoveryRequired ==> state.phase is Reconciliation,
        r is Ok && state.result is RolledBack ==> state.phase is Rollback || state.phase is Soaking,
        r is Ok && state.result is RollbackFailed ==> state.phase is Rollback
            || state.phase is Reconciliation,
        state.result is Running ==> r is Ok,
        state.blocking_reason is Unblocked && (state.result is Succeeded || state.result is Failed
            || state.result is Cancelled || state.result is Superseded) ==> r is Ok,
        state.blocking_reason is Unblocked && state.phase is Reconciliation && !(
        state.result is RolledBack) ==> r is Ok,
        state.blocking_reason is Unblocked && state.phase is Rollback && !(
        state.result is ManualRecoveryRequired) ==> r is Ok,
        state.blocking_reason is Unblocked && state.phase is Soaking && state.result is RolledBack
            ==> r is Ok,
{
}

/// The state of an operation.
#[derive(Clone, Copy, Debug, PartialEq, Eq, Structural)]
pub struct OperationState {
    pub phase: OperationPhase,
    pub result: OperationResult,
    pub blocking_reason: BlockingReason,
}

/// Why a state is refused.
#[derive(Clone, Copy, Debug, PartialEq, Eq, Structural)]
pub enum OperationStateError {
    TerminalOperationBlocked,
    ManualRecoveryOutsideReconciliation,
    RolledBackOutsideRollback,
    RollbackFailureOutsideRecovery,
}

impl OperationState {
    /// What is wrong with a state, the first of four rules that it breaks: only a running
    /// operation is blocked; manual recovery is asked for during reconciliation; an operation
    /// rolls back in its rollback or in the soak after it; a rollback fails in the rollback or in
    /// reconciliation.
    pub open spec fn fault(self) -> Option<OperationStateError> {
        if !(self.result is Running) && !(self.blocking_reason is Unblocked) {
            Some(OperationStateError::TerminalOperationBlocked)
        } else if self.result is ManualRecoveryRequired && !(self.phase is Reconciliation) {
            Some(OperationStateError::ManualRecoveryOutsideReconciliation)
        } else if self.result is RolledBack && !(self.phase is Rollback || self.phase is Soaking) {
            Some(OperationStateError::RolledBackOutsideRollback)
        } else if self.result is RollbackFailed && !(self.phase is Rollback
            || self.phase is Reconciliation) {
            Some(OperationStateError::RollbackFailureOutsideRecovery)
        } else {
            None
        }
    }

    pub fn validate(&self) -> (r: Result<(), OperationStateError>)
        ensures
            match r {
                Ok(()) => self.fault() is None,
                Err(error) => self.fault() == Some(error),
            },
    {
        if self.result != OperationResult::Running && self.blocking_reason
            != BlockingReason::Unblocked {
            return Err(OperationStateError::TerminalOperationBlocked);
        }
        if self.result == OperationResult::ManualRecoveryRequired && self.phase
            != OperationPhase::Reconciliation {
            return Err(OperationStateError::ManualRecoveryOutsideReconciliation);
        }
        if self.result == OperationResult::RolledBack && self.phase != OperationPhase::Rollback
            && self.phase != OperationPhase::Soaking {
            return Err(OperationStateError::RolledBackOutsideRollback);
        }
        if self.result == OperationResult::RollbackFailed && self.phase != OperationPhase::Rollback
            && self.phase != OperationPhase::Reconciliation {
            return Err(OperationStateError::RollbackFailureOutsideRecovery);
        }
        Ok(())
    }

    /// A state that nothing blocks.
    pub open spec fn unblocked(phase: OperationPhase, result: OperationResult) -> OperationState {
        OperationState { phase, result, blocking_reason: BlockingReason::Unblocked }
    }
}

/// Who started an operation.
#[derive(Clone, Copy, Debug, PartialEq, Eq, Structural)]
pub enum OperationActor {
    Interactive { user_id: Uuid },
    Automation { source: AutomationSource },
}

/// An installed policy, by its digest and its version.
#[derive(Debug, PartialEq, Eq)]
pub struct InstalledPolicyIdentity {
    pub digest: EvidenceDigest,
    pub version: u64,
}

impl InstalledPolicyIdentity {
    pub open spec fn same_as(self, other: InstalledPolicyIdentity) -> bool {
        self.digest@ == other.digest@ && self.version == other.version
    }

    pub fn same(&self, other: &InstalledPolicyIdentity) -> (r: bool)
        ensures
            r == self.same_as(*other),
    {
        self.digest == other.digest && self.version == other.version
    }
}

impl Clone for InstalledPolicyIdentity {
    fn clone(&self) -> (r: InstalledPolicyIdentity)
        ensures
            r == *self,
    {
        InstalledPolicyIdentity { digest: self.digest.clone(), version: self.version }
    }
}

/// The record of a write fence that was acquired, sealed by a digest.
#[derive(Clone, Debug, PartialEq, Eq)]
pub struct FenceAcquisitionReceiptV1 {
    pub schema_version: u16,
    pub project_id: ProjectId,
    pub attempt_id: Uuid,
    pub epoch: u64,
    pub lease_digest: EvidenceDigest,
    pub acquired_at_ms: i64,
    pub receipt_digest: EvidenceDigest,
}

/// Why a fence acquisition receipt is refused.
#[derive(Clone, Copy, Debug, PartialEq, Eq, Structural)]
pub enum FenceAcquisitionReceiptError {
    InvalidDocument,
    DigestMismatch,
    CanonicalEncoding,
}

impl FenceAcquisitionReceiptV1 {
    /// The document as JSON text.
    pub open spec fn json(self) -> Seq<char> {
        json_object(
            no_members()
                .push(("schema_version"@, json_nat(self.schema_version as nat)))
                .push(("project_id"@, json_string(self.project_id@)))
                .push(("attempt_id"@, json_string(self.attempt_id.text())))
                .push(("epoch"@, json_nat(self.epoch as nat)))
                .push(("lease_digest"@, json_string(self.lease_digest@)))
                .push(("acquired_at_ms"@, json_int(self.acquired_at_ms as int)))
                .push(("receipt_digest"@, json_string(self.receipt_digest@))),
        )
    }

    pub fn to_json(&self) -> (r: String)
        ensures
            r@ == self.json(),
    {
        let mut object = JsonObject::new();
        object.number("schema_version", self.schema_version as u64);
        object.text("project_id", self.project_id.as_str());
        let attempt_id = self.attempt_id.to_text();
        object.text("attempt_id", attempt_id.as_str());
        object.number("epoch", self.epoch);
        object.text("lease_digest", self.lease_digest.as_str());
        object.signed("acquired_at_ms", self.acquired_at_ms);
        object.text("receipt_digest", self.receipt_digest.as_str());
        object.finish()
    }

    /// What the digest is taken over.
    pub open spec fn sealed_json(self) -> Seq<char> {
        json_object(
            no_members()
                .push(("purpose"@, json_string("rdashboard.fence-acquisition-receipt.v1"@)))
                .push(("schema_version"@, json_nat(self.schema_version as nat)))
                .push(("project_id"@, json_string(self.project_id@)))
                .push(("attempt_id"@, json_string(self.attempt_id.text())))
                .push(("epoch"@, json_nat(self.epoch as nat)))
                .push(("lease_digest"@, json_string(self.lease_digest@)))
                .push(("acquired_at_ms"@, json_int(self.acquired_at_ms as int))),
        )
    }

    fn to_sealed_json(&self) -> (r: String)
        ensures
            r@ == self.sealed_json(),
    {
        let mut object = JsonObject::new();
        object.text("purpose", "rdashboard.fence-acquisition-receipt.v1");
        object.number("schema_version", self.schema_version as u64);
        object.text("project_id", self.project_id.as_str());
        let attempt_id = self.attempt_id.to_text();
        object.text("attempt_id", attempt_id.as_str());
        object.number("epoch", self.epoch);
        object.text("lease_digest", self.lease_digest.as_str());
        object.signed("acquired_at_ms", self.acquired_at_ms);
        object.finish()
    }

    /// An attempt, an epoch and a time that a fence can have.
    pub open spec fn well_formed(self) -> bool {
        self.schema_version == FENCE_ACQUISITION_RECEIPT_SCHEMA_VERSION && !self.attempt_id.nil()
            && self.epoch != 0 && self.acquired_at_ms >= 0
    }

    /// The digest is the one of what it seals.
    pub open spec fn sealed(self) -> bool {
        document_digest(self.sealed_json()) == Some(self.receipt_digest@)
    }

    pub fn new(
        project_id: ProjectId,
        attempt_id: Uuid,
        epoch: u64,
        lease_digest: EvidenceDigest,
        acquired_at_ms: i64,
    ) -> (r: Result<FenceAcquisitionReceiptV1, FenceAcquisitionReceiptError>)
        ensures
            match r {
                Ok(receipt) => {
                    &&& receipt.project_id == project_id
                    &&& receipt.attempt_id == attempt_id
                    &&& receipt.epoch == epoch
                    &&& receipt.lease_digest == lease_digest
                    &&& receipt.acquired_at_ms == acquired_at_ms
                    &&& receipt.well_formed()
                    &&& receipt.sealed()
                },
                Err(FenceAcquisitionReceiptError::InvalidDocument) => attempt_id.nil() || epoch == 0
                    || acquired_at_ms < 0,
                Err(FenceAcquisitionReceiptError::CanonicalEncoding) => {
                    &&& !attempt_id.nil() && epoch != 0 && acquired_at_ms >= 0
                    &&& forall|receipt: FenceAcquisitionReceiptV1|
                        receipt.well_formed() && receipt.project_id == project_id
                            && receipt.attempt_id == attempt_id && receipt.epoch == epoch
                            && receipt.lease_digest == lease_digest && receipt.acquired_at_ms
                            == acquired_at_ms ==> document_digest(
                            #[trigger] receipt.sealed_json(),
                        ) is None
                },
                Err(FenceAcquisitionReceiptError::DigestMismatch) => false,
            },
    {
        if attempt_id.is_nil() || epoch == 0 || acquired_at_ms < 0 {
            return Err(FenceAcquisitionReceiptError::InvalidDocument);
        }
        let receipt_digest = lease_digest.clone();
        let mut receipt = FenceAcquisitionReceiptV1 {
            schema_version: FENCE_ACQUISITION_RECEIPT_SCHEMA_VERSION,
            project_id,
            attempt_id,
            epoch,
            lease_digest,
            acquired_at_ms,
            receipt_digest,
        };
        match receipt.calculate_digest() {
            Ok(digest) => {
                receipt.receipt_digest = digest;
                Ok(receipt)
            },
            Err(_) => Err(FenceAcquisitionReceiptError::CanonicalEncoding),
        }
    }

    fn calculate_digest(&self) -> (r: Result<EvidenceDigest, EncodingError>)
        ensures
            match r {
                Ok(digest) => document_digest(self.sealed_json()) == Some(digest@),
                Err(_) => document_digest(self.sealed_json()) is None,
            },
    {
        let text = self.to_sealed_json();
        digest_document(text.as_str())
    }

    /// Whether the receipt is well formed and sealed. A receipt that is not well formed is not
    /// encoded at all.
    pub fn has_valid_digest(&self) -> (r: Result<bool, FenceAcquisitionReceiptError>)
        ensures
            match r {
                Ok(valid) => valid == (self.well_formed() && self.sealed()) && (
                !self.well_formed() || document_digest(self.sealed_json()) is Some),
                Err(error) => error is CanonicalEncoding && self.well_formed() && document_digest(
                    self.sealed_json(),
                ) is None,
            },
    {
        if self.schema_version != FENCE_ACQUISITION_RECEIPT_SCHEMA_VERSION
            || self.attempt_id.is_nil() || self.epoch == 0 || self.acquired_at_ms < 0 {
            return Ok(false);
        }
        match self.calculate_digest() {
            Ok(digest) => Ok(self.receipt_digest == digest),
            Err(_) => Err(FenceAcquisitionReceiptError::CanonicalEncoding),
        }
    }

    /// The canonical bytes of a valid receipt.
    pub fn canonical_bytes(&self) -> (r: Result<Vec<u8>, FenceAcquisitionReceiptError>)
        ensures
            match r {
                Ok(bytes) => self.well_formed() && self.sealed() && jcs(self.json()) == Some(bytes@),
                Err(FenceAcquisitionReceiptError::DigestMismatch) => !self.well_formed() || (
                document_digest(self.sealed_json()) is Some && !self.sealed()),
                Err(FenceAcquisitionReceiptError::CanonicalEncoding) => self.well_formed() && (
                document_digest(self.sealed_json()) is None || (self.sealed() && jcs(
                    self.json(),
                ) is None)),
                Err(FenceAcquisitionReceiptError::InvalidDocument) => false,
            },
    {
        match self.has_valid_digest() {
            Err(error) => Err(error),
            Ok(false) => Err(FenceAcquisitionReceiptError::DigestMismatch),
            Ok(true) => {
                let text = self.to_json();
                match canonical_bytes(text.as_str()) {
                    Ok(bytes) => Ok(bytes),
                    Err(_) => Err(FenceAcquisitionReceiptError::CanonicalEncoding),
                }
            },
        }
    }

    /// Accepts a receipt that was read from some bytes, where the bytes are its canonical form and
    /// it is valid.
    pub fn decode_canonical(parsed: FenceAcquisitionReceiptV1, bytes: &[u8]) -> (r: Result<
        FenceAcquisitionReceiptV1,
        FenceAcquisitionReceiptError,
    >)
        ensures
            match r {
                Ok(receipt) => receipt == parsed && jcs(parsed.json()) == Some(bytes@)
                    && parsed.well_formed() && parsed.sealed(),
                Err(FenceAcquisitionReceiptError::InvalidDocument) => jcs(parsed.json()) is Some
                    && jcs(parsed.json()) != Some(bytes@),
                Err(FenceAcquisitionReceiptError::DigestMismatch) => jcs(parsed.json()) == Some(
                    bytes@,
                ) && (!parsed.well_formed() || (document_digest(parsed.sealed_json()) is Some
                    && !parsed.sealed())),
                Err(FenceAcquisitionReceiptError::CanonicalEncoding) => jcs(parsed.json()) is None
                    || (jcs(parsed.json()) == Some(bytes@) && parsed.well_formed()
                    && document_digest(parsed.sealed_json()) is None),
            },
    {
        let text = parsed.to_json();
        match is_canonical(text.as_str(), bytes) {
            Err(_) => Err(FenceAcquisitionReceiptError::CanonicalEncoding),
            Ok(false) => Err(FenceAcquisitionReceiptError::InvalidDocument),
            Ok(true) => match parsed.has_valid_digest() {
                Err(error) => Err(error),
                Ok(false) => Err(FenceAcquisitionReceiptError::DigestMismatch),
                Ok(true) => Ok(parsed),
            },
        }
    }
}

} // verus!
