//! How what is recorded of an operation changes.

use vstd::prelude::*;
use super::merge::merge_artifacts;
use super::{DurableController, StoreError};
use crate::domain::artifacts::{ArtifactContractError, ExecutorPhaseBranch, PhaseReceipt};
use crate::domain::failure::FailureCapsule;
use crate::domain::identifiers::{document_digest, EvidenceDigest};
use crate::domain::operation::{
    permitted, FenceAcquisitionReceiptV1, OperationContractError, OperationKind,
    OperationRecoveryMode, OperationState, ReleaseClass,
};
use crate::domain::record::{
    receipt_phase_for_transition, AuthorizedPhaseSpecDigestV1, OperationEvidence,
    OperationRecord, OperationTransition,
};
use crate::domain::states::{BlockingReason, OperationPhase, OperationResult};
use crate::unique_id::Uuid;

verus! {

/// What is recorded of an operation after a request, and whether the request changed it.
#[derive(Debug)]
pub struct OperationUpdate {
    pub operation: OperationRecord,
    pub changed: bool,
}

/// No phase of a branch is authorized twice.
pub open spec fn authorized_once(history: Seq<AuthorizedPhaseSpecDigestV1>) -> bool {
    forall|i: int, j: int|
        0 <= i < j < history.len() ==> !((#[trigger] history[i]).branch == (#[trigger] history[j]).branch
            && history[i].phase == history[j].phase)
}

pub(crate) fn validate_authorized_phase_spec_history(
    history: &Vec<AuthorizedPhaseSpecDigestV1>,
) -> (r: bool)
    ensures
        r == authorized_once(history@),
{
    let mut j: usize = 0;
    while j < history.len()
        invariant
            j <= history.len(),
            forall|a: int, b: int|
                0 <= a < b < j ==> !((#[trigger] history@[a]).branch == (#[trigger] history@[b]).branch
                    && history@[a].phase == history@[b].phase),
        decreases history.len() - j,
    {
        let mut i: usize = 0;
        while i < j
            invariant
                i <= j < history.len(),
                forall|a: int|
                    0 <= a < i ==> !((#[trigger] history@[a]).branch == history@[j as int].branch
                        && history@[a].phase == history@[j as int].phase),
            decreases j - i,
        {
            if history[i].branch == history[j].branch && history[i].phase == history[j].phase {
                assert(history@[i as int].branch == history@[j as int].branch
                    && history@[i as int].phase == history@[j as int].phase);
                return false;
            }
            i += 1;
        }
        j += 1;
    }
    true
}

impl OperationRecord {
    /// What is wrong with a record that was stored.
    pub open spec fn stored_fault(self) -> Option<StoreError> {
        match self.state.fault() {
            Some(error) => Some(StoreError::State(error)),
            None => if self.operation_kind.plan(self.release_class) is None {
                Some(StoreError::Contract(OperationContractError::ReleaseClassMismatch))
            } else if !authorized_once(self.evidence.authorized_phase_spec_digests@) {
                Some(StoreError::CorruptController("duplicate authorized phase spec history key"))
            } else {
                None
            },
        }
    }

    pub fn check_stored(&self) -> (r: Result<(), StoreError>)
        ensures
            match r {
                Ok(()) => self.stored_fault() is None,
                Err(error) => self.stored_fault() == Some(error),
            },
    {
        match self.state.validate() {
            Err(error) => return Err(StoreError::State(error)),
            Ok(()) => {},
        }
        match self.operation_kind.required_phases(self.release_class) {
            Err(error) => return Err(StoreError::Contract(error)),
            Ok(_) => {},
        }
        if !validate_authorized_phase_spec_history(&self.evidence.authorized_phase_spec_digests) {
            return Err(
                StoreError::CorruptController("duplicate authorized phase spec history key"),
            );
        }
        Ok(())
    }

    /// Accepts a record that was stored.
    pub fn decode_operation(parsed: OperationRecord) -> (r: Result<OperationRecord, StoreError>)
        ensures
            match r {
                Ok(operation) => operation == parsed && parsed.stored_fault() is None,
                Err(error) => parsed.stored_fault() == Some(error),
            },
    {
        match parsed.check_stored() {
            Err(error) => Err(error),
            Ok(()) => Ok(parsed),
        }
    }

    /// What keeps an attempt from being loaded: there is none, or it was stored out of order.
    pub open spec fn load_fault(attempt_id: Uuid, stored: Option<OperationRecord>) -> Option<
        StoreError,
    > {
        match stored {
            None => Some(StoreError::OperationNotFound(attempt_id)),
            Some(operation) => operation.stored_fault(),
        }
    }

    fn load_attempt(attempt_id: Uuid, stored: Option<OperationRecord>) -> (r: Result<
        OperationRecord,
        StoreError,
    >)
        ensures
            match r {
                Ok(operation) => stored == Some(operation) && OperationRecord::load_fault(
                    attempt_id,
                    stored,
                ) is None,
                Err(error) => OperationRecord::load_fault(attempt_id, stored) == Some(error),
            },
    {
        match stored {
            None => Err(StoreError::OperationNotFound(attempt_id)),
            Some(operation) => OperationRecord::decode_operation(operation),
        }
    }

    /// The transition to a state.
    pub open spec fn transition_to(
        self,
        next: OperationState,
        receipt_digest: Option<EvidenceDigest>,
        at_ms: i64,
    ) -> OperationTransition {
        OperationTransition {
            sequence: (self.evidence.transitions@.len() + 1) as u32,
            from: self.state,
            to: next,
            receipt_digest,
            occurred_at_ms: at_ms,
        }
    }

    /// A record is this one in another state, with the transition to that state added.
    pub open spec fn moves(
        self,
        after: OperationRecord,
        next: OperationState,
        receipt_digest: Option<EvidenceDigest>,
        at_ms: i64,
    ) -> bool {
        &&& after == (OperationRecord {
            state: next,
            updated_at_ms: at_ms,
            evidence: OperationEvidence {
                transitions: after.evidence.transitions,
                ..self.evidence
            },
            ..self
        })
        &&& after.evidence.transitions@ == self.evidence.transitions@.push(
            self.transition_to(next, receipt_digest, at_ms),
        )
    }

    /// What keeps a record from going to a state.
    pub open spec fn move_fault(self, next: OperationState) -> Option<StoreError> {
        match next.fault() {
            Some(error) => Some(StoreError::State(error)),
            None => if self.evidence.transitions@.len() + 1 > u32::MAX {
                Some(StoreError::CorruptController("transition sequence overflow"))
            } else {
                None
            },
        }
    }

    fn persist_transition(
        self,
        next: OperationState,
        receipt_digest: Option<EvidenceDigest>,
        at_ms: i64,
    ) -> (r: Result<OperationRecord, StoreError>)
        ensures
            match r {
                Ok(after) => self.move_fault(next) is None && self.moves(
                    after,
                    next,
                    receipt_digest,
                    at_ms,
                ),
                Err(error) => self.move_fault(next) == Some(error),
            },
    {
        match next.validate() {
            Err(error) => return Err(StoreError::State(error)),
            Ok(()) => {},
        }
        let count: usize = self.evidence.transitions.len();
        if count >= u32::MAX as usize {
            return Err(StoreError::CorruptController("transition sequence overflow"));
        }
        let mut operation = self;
        let transition = OperationTransition {
            sequence: count as u32 + 1,
            from: operation.state,
            to: next,
            receipt_digest,
            occurred_at_ms: at_ms,
        };
        operation.state = next;
        operation.updated_at_ms = at_ms;
        operation.evidence.transitions.push(transition);
        Ok(operation)
    }

    /// A deployment whose source was attested and admitted.
    pub open spec fn has_trusted_source(self) -> bool {
        &&& self.operation_kind is Deploy
        &&& self.target_commit is Some
        &&& self.evidence.installed_policy is Some
        &&& self.evidence.source_attestation_digest is Some
        &&& self.evidence.source_sequence matches Some(sequence) && sequence > 0
    }

    pub fn has_trusted_source_admission(&self) -> (r: bool)
        ensures
            r == self.has_trusted_source(),
    {
        let sequenced = match self.evidence.source_sequence {
            Some(sequence) => sequence > 0,
            None => false,
        };
        self.operation_kind == OperationKind::Deploy && self.target_commit.is_some()
            && self.evidence.installed_policy.is_some()
            && self.evidence.source_attestation_digest.is_some() && sequenced
    }

    /// A release with state that is at its cutover, with its backup and its drain behind it.
    pub open spec fn at_stateful_cutover(self) -> bool {
        &&& self.state.result is Running
        &&& self.state.phase is CutoverSnapshotting
        &&& self.operation_kind is Deploy
        &&& self.release_class == Some(ReleaseClass::StatefulCompatible) || self.release_class
            == Some(ReleaseClass::StatefulBreaking)
        &&& self.has_trusted_source()
        &&& self.has_committed_phase(OperationPhase::BackingUp)
        &&& self.has_committed_phase(OperationPhase::Draining)
    }

    pub fn is_stateful_cutover_retry(&self) -> (r: bool)
        ensures
            r == self.at_stateful_cutover(),
    {
        self.state.result == OperationResult::Running && self.state.phase
            == OperationPhase::CutoverSnapshotting && self.operation_kind == OperationKind::Deploy
            && (self.release_class == Some(ReleaseClass::StatefulCompatible) || self.release_class
            == Some(ReleaseClass::StatefulBreaking)) && self.has_trusted_source_admission()
            && self.committed_phase(OperationPhase::BackingUp) && self.committed_phase(
            OperationPhase::Draining,
        )
    }

    /// A rollback that is under way, a rollback that may begin (`false`), or neither.
    pub open spec fn rollback_readiness(self) -> Option<bool> {
        if self.evidence.recovery_mode == Some(OperationRecoveryMode::Rollback) {
            if self.state.phase is Rollback && self.state.result is Running {
                Some(true)
            } else {
                None
            }
        } else if self.operation_kind is Deploy && self.state.result is Running
            && !self.state.phase.before_mutation() && self.has_committed_phase(
            OperationPhase::Deploying,
        ) && (self.release_class == Some(ReleaseClass::CodeOnlyCompatible) || self.release_class
            == Some(ReleaseClass::StatefulCompatible)) {
            Some(false)
        } else {
            None
        }
    }

    fn require_rollback_transition(&self) -> (r: Result<bool, StoreError>)
        ensures
            match r {
                Ok(under_way) => self.rollback_readiness() == Some(under_way),
                Err(error) => self.rollback_readiness() is None && error
                    == StoreError::TransitionRejected,
            },
    {
        if self.evidence.recovery_mode == Some(OperationRecoveryMode::Rollback) {
            return if self.state.phase == OperationPhase::Rollback && self.state.result
                == OperationResult::Running {
                Ok(true)
            } else {
                Err(StoreError::TransitionRejected)
            };
        }
        if self.operation_kind != OperationKind::Deploy || self.state.result
            != OperationResult::Running || !self.state.phase.crosses_mutation_boundary()
            || !self.committed_phase(OperationPhase::Deploying) || !(self.release_class == Some(
            ReleaseClass::CodeOnlyCompatible,
        ) || self.release_class == Some(ReleaseClass::StatefulCompatible)) {
            return Err(StoreError::TransitionRejected);
        }
        Ok(false)
    }

    /// A transition carries the digest of a receipt.
    pub open spec fn has_receipt(self, receipt_digest: Seq<char>) -> bool {
        exists|i: int|
            0 <= i < self.evidence.transitions@.len() && #[trigger] self.carries(i, receipt_digest)
    }

    /// The first transition that carries the digest of a receipt.
    pub open spec fn receipt_index(self, receipt_digest: Seq<char>) -> int {
        choose|i: int|
            0 <= i < self.evidence.transitions@.len() && self.carries(i, receipt_digest) && forall|k: int|
                0 <= k < i ==> !#[trigger] self.carries(k, receipt_digest)
    }

    /// The transition at a place carries the digest of a receipt.
    pub open spec fn carries(self, index: int, receipt_digest: Seq<char>) -> bool {
        self.evidence.transitions@[index].receipt_digest matches Some(digest) && digest@
            == receipt_digest
    }

    fn find_receipt(&self, receipt_digest: &EvidenceDigest) -> (r: Option<usize>)
        ensures
            match r {
                Some(i) => self.has_receipt(receipt_digest@) && i == self.receipt_index(
                    receipt_digest@,
                ) && i < self.evidence.transitions@.len() && self.carries(i as int, receipt_digest@),
                None => !self.has_receipt(receipt_digest@),
            },
    {
        let transitions = &self.evidence.transitions;
        let mut i: usize = 0;
        while i < transitions.len()
            invariant
                i <= transitions.len(),
                transitions@ == self.evidence.transitions@,
                forall|k: int| 0 <= k < i ==> !#[trigger] self.carries(k, receipt_digest@),
            decreases transitions.len() - i,
        {
            let found = match &transitions[i].receipt_digest {
                Some(digest) => *digest == *receipt_digest,
                None => false,
            };
            assert(found == self.carries(i as int, receipt_digest@));
            if found {
                proof {
                    let chosen = self.receipt_index(receipt_digest@);
                    assert(self.carries(chosen, receipt_digest@));
                    assert(chosen == i) by {
                        if chosen < i {
                            assert(!self.carries(chosen, receipt_digest@));
                        }
                    }
                }
                return Some(i);
            }
            i += 1;
        }
        None
    }
}

/// The phases of a recovery by rollback.
pub open spec fn rollback_phases() -> Seq<OperationPhase> {
    seq![OperationPhase::Rollback, OperationPhase::HealthChecking, OperationPhase::Soaking]
}

/// The place of a phase in a plan, or the length of the plan where it has no place.
pub open spec fn place_of(plan: Seq<OperationPhase>, phase: OperationPhase) -> int
    decreases plan.len(),
{
    if plan.len() == 0 || plan[0] == phase {
        0
    } else {
        1 + place_of(plan.drop_first(), phase)
    }
}

pub(crate) fn find_phase(plan: &Vec<OperationPhase>, phase: OperationPhase) -> (r: usize)
    ensures
        r == place_of(plan@, phase),
        r <= plan@.len(),
{
    let mut i: usize = 0;
    assert(plan@.skip(0) =~= plan@);
    while i < plan.len()
        invariant
            i <= plan.len(),
            place_of(plan@, phase) == i + place_of(plan@.skip(i as int), phase),
        decreases plan.len() - i,
    {
        if plan[i] == phase {
            return i;
        }
        proof {
            assert(plan@.skip(i as int).drop_first() =~= plan@.skip(i + 1));
        }
        i += 1;
    }
    i
}

impl OperationRecord {
    /// The plan that an operation follows.
    pub open spec fn followed_plan(
        self,
        is_rollback_recovery: bool,
    ) -> Option<Seq<OperationPhase>> {
        if is_rollback_recovery {
            Some(rollback_phases())
        } else {
            self.operation_kind.plan(self.release_class)
        }
    }

    /// The branch that an operation is on.
    pub open spec fn expected_branch(is_rollback_recovery: bool) -> ExecutorPhaseBranch {
        if is_rollback_recovery {
            ExecutorPhaseBranch::RollbackRecovery
        } else {
            ExecutorPhaseBranch::Primary
        }
    }

    /// The state that the receipt of a phase leads to: the next phase of the plan, or the end.
    pub open spec fn state_after(
        self,
        phase: OperationPhase,
        branch: ExecutorPhaseBranch,
        is_rollback_recovery: bool,
    ) -> Result<OperationState, StoreError> {
        if branch != OperationRecord::expected_branch(is_rollback_recovery) {
            Err(StoreError::ReceiptMismatch)
        } else {
            match self.followed_plan(is_rollback_recovery) {
                None => Err(StoreError::Contract(OperationContractError::ReleaseClassMismatch)),
                Some(plan) => {
                    let at = place_of(plan, phase);
                    if at >= plan.len() {
                        Err(StoreError::TransitionRejected)
                    } else if at + 1 < plan.len() {
                        if !is_rollback_recovery && !permitted(plan, phase, plan[at + 1]) {
                            Err(StoreError::TransitionRejected)
                        } else {
                            Ok(OperationState::unblocked(plan[at + 1], OperationResult::Running))
                        }
                    } else if is_rollback_recovery || self.operation_kind is CodeRollback {
                        Ok(OperationState::unblocked(phase, OperationResult::RolledBack))
                    } else {
                        Ok(OperationState::unblocked(phase, OperationResult::Succeeded))
                    }
                },
            }
        }
    }

    pub fn next_state_for_phase_receipt(
        &self,
        phase: OperationPhase,
        branch: ExecutorPhaseBranch,
        is_rollback_recovery: bool,
    ) -> (r: Result<OperationState, StoreError>)
        ensures
            r == self.state_after(phase, branch, is_rollback_recovery),
    {
        let expected = if is_rollback_recovery {
            ExecutorPhaseBranch::RollbackRecovery
        } else {
            ExecutorPhaseBranch::Primary
        };
        if branch != expected {
            return Err(StoreError::ReceiptMismatch);
        }
        let plan = if is_rollback_recovery {
            vec![
                OperationPhase::Rollback,
                OperationPhase::HealthChecking,
                OperationPhase::Soaking,
            ]
        } else {
            match self.operation_kind.required_phases(self.release_class) {
                Ok(plan) => plan,
                Err(error) => return Err(StoreError::Contract(error)),
            }
        };
        assert(self.followed_plan(is_rollback_recovery) == Some(plan@));
        let at = find_phase(&plan, phase);
        if at >= plan.len() {
            return Err(StoreError::TransitionRejected);
        }
        if at + 1 < plan.len() {
            let next = plan[at + 1];
            if !is_rollback_recovery {
                match self.operation_kind.permits_transition(self.release_class, phase, next) {
                    Err(error) => return Err(StoreError::Contract(error)),
                    Ok(allowed) => if !allowed {
                        return Err(StoreError::TransitionRejected);
                    },
                }
            }
            return Ok(
                OperationState {
                    phase: next,
                    result: OperationResult::Running,
                    blocking_reason: BlockingReason::Unblocked,
                },
            );
        }
        let result = if is_rollback_recovery || self.operation_kind == OperationKind::CodeRollback {
            OperationResult::RolledBack
        } else {
            OperationResult::Succeeded
        };
        Ok(OperationState { phase, result, blocking_reason: BlockingReason::Unblocked })
    }

    /// What is wrong with a receipt by itself: it is not sealed, or its evidence does not fit its
    /// phase.
    pub open spec fn receipt_fault(receipt: PhaseReceipt) -> Option<StoreError> {
        if document_digest(receipt.sealed_json()) is None {
            Some(StoreError::Encoding)
        } else if !receipt.sealed() {
            Some(StoreError::ReceiptDigestMismatch)
        } else if !receipt.artifacts.has_required(receipt.phase) {
            Some(
                StoreError::Artifacts(
                    ArtifactContractError::MissingRequiredEvidence { phase: receipt.phase },
                ),
            )
        } else if !receipt.artifacts.has_only_expected(receipt.phase) {
            Some(
                StoreError::Artifacts(
                    ArtifactContractError::UnexpectedEvidence { phase: receipt.phase },
                ),
            )
        } else {
            None
        }
    }

    fn check_receipt(receipt: &PhaseReceipt) -> (r: Result<(), StoreError>)
        ensures
            match r {
                Ok(()) => OperationRecord::receipt_fault(*receipt) is None,
                Err(error) => OperationRecord::receipt_fault(*receipt) == Some(error),
            },
    {
        match receipt.has_valid_digest() {
            Err(_) => return Err(StoreError::Encoding),
            Ok(sealed) => if !sealed {
                return Err(StoreError::ReceiptDigestMismatch);
            },
        }
        match receipt.artifacts.validate_for_phase(receipt.phase) {
            Err(error) => Err(StoreError::Artifacts(error)),
            Ok(()) => Ok(()),
        }
    }

    /// What keeps the receipt of a phase from leading to the next state.
    pub open spec fn advance_fault(
        self,
        receipt: PhaseReceipt,
        is_rollback_recovery: bool,
    ) -> Option<
        StoreError,
    > {
        match self.state_after(receipt.phase, receipt.branch, is_rollback_recovery) {
            Err(error) => Some(error),
            Ok(next) => match self.evidence.conflict(
                receipt.artifacts,
                receipt.phase,
                receipt.branch,
                is_rollback_recovery,
            ) {
                Some(field) => Some(StoreError::ArtifactEvidenceConflict(field)),
                None => self.move_fault(next),
            },
        }
    }

    /// A record is this one once the receipt of a phase is committed: its evidence added, and the
    /// next state reached.
    pub open spec fn advances(
        self,
        after: OperationRecord,
        receipt: PhaseReceipt,
        is_rollback_recovery: bool,
        at_ms: i64,
    ) -> bool {
        exists|gained: OperationEvidence| #[trigger]
            self.evidence.gains(
                gained,
                receipt.artifacts,
                receipt.phase,
                receipt.branch,
                is_rollback_recovery,
            ) && OperationRecord { evidence: gained, ..self }.moves(
                after,
                self.state_after(receipt.phase, receipt.branch, is_rollback_recovery)->Ok_0,
                Some(receipt.receipt_digest),
                at_ms,
            )
    }

    fn advance(self, receipt: &PhaseReceipt, is_rollback_recovery: bool, at_ms: i64) -> (r: Result<
        OperationRecord,
        StoreError,
    >)
        ensures
            match r {
                Ok(after) => self.advance_fault(*receipt, is_rollback_recovery) is None
                    && self.advances(after, *receipt, is_rollback_recovery, at_ms),
                Err(error) => self.advance_fault(*receipt, is_rollback_recovery) == Some(error),
            },
    {
        let ghost before = self;
        let next = match self.next_state_for_phase_receipt(
            receipt.phase,
            receipt.branch,
            is_rollback_recovery,
        ) {
            Err(error) => return Err(error),
            Ok(next) => next,
        };
        let operation = self;
        let ghost kept = operation.evidence.transitions@;
        let evidence = match merge_artifacts(
            operation.evidence,
            &receipt.artifacts,
            receipt.phase,
            receipt.branch,
            is_rollback_recovery,
        ) {
            Err(error) => return Err(error),
            Ok(evidence) => evidence,
        };
        let ghost gained = evidence;
        proof {
            let built = choose|built: OperationEvidence| #[trigger]
                before.evidence.gains_build(
                    built,
                    receipt.artifacts,
                    receipt.phase,
                    receipt.branch,
                ) && gained == built.with_backups(receipt.artifacts).with_release(
                    receipt.artifacts,
                    receipt.phase,
                    is_rollback_recovery,
                );
            assert(gained.transitions == before.evidence.transitions);
        }
        let moved = OperationRecord {
            operation_id: operation.operation_id,
            request_id: operation.request_id,
            attempt_id: operation.attempt_id,
            attempt_number: operation.attempt_number,
            project_id: operation.project_id,
            operation_kind: operation.operation_kind,
            target_commit: operation.target_commit,
            release_class: operation.release_class,
            state: operation.state,
            actor: operation.actor,
            evidence,
            failure_capsule: operation.failure_capsule,
            created_at_ms: operation.created_at_ms,
            updated_at_ms: operation.updated_at_ms,
        };
        assert(moved == OperationRecord { evidence: gained, ..before });
        moved.persist_transition(next, Some(receipt.receipt_digest.clone()), at_ms)
    }

    /// The operation is being recovered by a rollback.
    pub open spec fn rolling_back(self) -> bool {
        self.evidence.recovery_mode == Some(OperationRecoveryMode::Rollback)
    }

    /// What keeps the receipt of a phase from being committed.
    pub open spec fn commit_fault(stored: Option<OperationRecord>, receipt: PhaseReceipt) -> Option<
        StoreError,
    > {
        if OperationRecord::receipt_fault(receipt) is Some {
            OperationRecord::receipt_fault(receipt)
        } else if OperationRecord::load_fault(receipt.attempt_id, stored) is Some {
            OperationRecord::load_fault(receipt.attempt_id, stored)
        } else if stored->0.has_receipt(receipt.receipt_digest@) {
            None
        } else if !(stored->0.state.result is Running) || stored->0.state.phase != receipt.phase {
            Some(StoreError::ReceiptMismatch)
        } else {
            stored->0.advance_fault(receipt, stored->0.rolling_back())
        }
    }

    /// The phase was left for reconciliation by the last transition, without a receipt.
    pub open spec fn entered_reconciliation_from(self, phase: OperationPhase) -> bool {
        &&& self.evidence.transitions@.len() > 0
        &&& self.evidence.transitions@.last().from.phase == phase
        &&& self.evidence.transitions@.last().to.phase is Reconciliation
        &&& self.evidence.transitions@.last().to.result is Running
        &&& self.evidence.transitions@.last().receipt_digest is None
    }

    pub fn has_entered_reconciliation_from(&self, phase: OperationPhase) -> (r: bool)
        ensures
            r == self.entered_reconciliation_from(phase),
    {
        let count: usize = self.evidence.transitions.len();
        if count == 0 {
            return false;
        }
        let last = &self.evidence.transitions[count - 1];
        last.from.phase == phase && last.to.phase == OperationPhase::Reconciliation
            && last.to.result == OperationResult::Running && last.receipt_digest.is_none()
    }

    /// The record without its recovery and its failure.
    pub open spec fn recovered(self) -> OperationRecord {
        OperationRecord {
            evidence: OperationEvidence { recovery_mode: None, ..self.evidence },
            failure_capsule: None,
            ..self
        }
    }

    /// What keeps the receipt of a reconciled phase from being committed. A receipt that was
    /// committed before must have been so for the same phase, out of reconciliation.
    pub open spec fn reconcile_fault(
        stored: Option<OperationRecord>,
        receipt: PhaseReceipt,
    ) -> Option<
        StoreError,
    > {
        if OperationRecord::receipt_fault(receipt) is Some {
            OperationRecord::receipt_fault(receipt)
        } else if OperationRecord::load_fault(receipt.attempt_id, stored) is Some {
            OperationRecord::load_fault(receipt.attempt_id, stored)
        } else {
            let operation = stored->0;
            let transitions = operation.evidence.transitions@;
            if operation.has_receipt(receipt.receipt_digest@) {
                let at = operation.receipt_index(receipt.receipt_digest@);
                if transitions[at].from.phase is Reconciliation && OperationTransition::ended_phase(
                    transitions,
                    at,
                ) == Some(receipt.phase) {
                    None
                } else {
                    Some(StoreError::ReceiptMismatch)
                }
            } else if !(operation.state.result is Running) || !(
            operation.state.phase is Reconciliation) || operation.evidence.recovery_mode != Some(
                OperationRecoveryMode::Reconciliation,
            ) || !(receipt.branch is Primary) || !operation.entered_reconciliation_from(
                receipt.phase,
            ) {
                Some(StoreError::ReceiptMismatch)
            } else {
                operation.advance_fault(receipt, false)
            }
        }
    }
}

/// A blocking reason that the source of an operation can give.
pub open spec fn source_reason(reason: BlockingReason) -> bool {
    reason is SourceDivergence || reason is SourceBrokerUnavailable
        || reason is SourceAttestationInvalid || reason is OperatorHold
}

impl OperationRecord {
    /// What comes of asking a stored operation to go to a state. What is wrong with what is stored is
    /// told first, then why the operation may not go. One that stays is left as it is, and any other
    /// goes, with what is recorded of it.
    pub open spec fn loaded_and_moved(
        attempt_id: Uuid,
        stored: Option<OperationRecord>,
        refusal: Option<StoreError>,
        stays: bool,
        recorded: OperationRecord,
        next: OperationState,
        at_ms: i64,
        r: Result<OperationUpdate, StoreError>,
    ) -> bool {
        if OperationRecord::load_fault(attempt_id, stored) is Some {
            r matches Err(error) && OperationRecord::load_fault(attempt_id, stored) == Some(error)
        } else if refusal is Some {
            r matches Err(error) && refusal == Some(error)
        } else if stays {
            r matches Ok(update) && !update.changed && Some(update.operation) == stored
        } else {
            match r {
                Err(error) => recorded.move_fault(next) == Some(error),
                Ok(update) => {
                    &&& recorded.move_fault(next) is None
                    &&& update.changed
                    &&& recorded.moves(update.operation, next, None, at_ms)
                },
            }
        }
    }

    /// Goes to a state, for a change that is to be stored.
    fn go_to(self, next: OperationState, at_ms: i64) -> (r: Result<OperationUpdate, StoreError>)
        ensures
            match r {
                Err(error) => self.move_fault(next) == Some(error),
                Ok(update) => {
                    &&& self.move_fault(next) is None
                    &&& update.changed
                    &&& self.moves(update.operation, next, None, at_ms)
                },
            },
    {
        match self.persist_transition(next, None, at_ms) {
            Err(error) => Err(error),
            Ok(operation) => Ok(OperationUpdate { operation, changed: true }),
        }
    }

    /// Why an operation is not blocked: it has ended, its source is not trusted where that is asked,
    /// or it may have changed production.
    pub open spec fn block_refusal(self, requires_source: bool) -> Option<StoreError> {
        if !(self.state.result is Running) || (requires_source && !self.has_trusted_source())
            || self.has_committed_mutation() {
            Some(StoreError::TransitionRejected)
        } else {
            None
        }
    }

    /// What comes of blocking a stored operation before it changes production.
    pub open spec fn blocked(
        attempt_id: Uuid,
        stored: Option<OperationRecord>,
        reason: BlockingReason,
        requires_source: bool,
        at_ms: i64,
        r: Result<OperationUpdate, StoreError>,
    ) -> bool {
        OperationRecord::loaded_and_moved(
            attempt_id,
            stored,
            stored->0.block_refusal(requires_source),
            stored->0.keeps_block(reason),
            stored->0,
            stored->0.state.blocked_by(reason),
            at_ms,
            r,
        )
    }

    /// Why the block of a release at its stateful cutover is neither set nor lifted: it is not there,
    /// or something else blocks it.
    pub open spec fn cutover_refusal(self) -> Option<StoreError> {
        if self.at_stateful_cutover() && (self.state.blocking_reason is Unblocked
            || self.state.blocking_reason is SourceBrokerUnavailable) {
            None
        } else {
            Some(StoreError::TransitionRejected)
        }
    }

    fn refuses_cutover(&self) -> (r: bool)
        ensures
            r == (self.cutover_refusal() is Some),
    {
        !self.is_stateful_cutover_retry() || (self.state.blocking_reason != BlockingReason::Unblocked
            && self.state.blocking_reason != BlockingReason::SourceBrokerUnavailable)
    }

    /// Why an operation that runs is not ended for a reason: not everything about it allows that.
    pub open spec fn end_refusal(self, allowed: bool, reason: StoreError) -> Option<StoreError> {
        if self.state.result is Running && !allowed {
            Some(reason)
        } else {
            None
        }
    }

    /// Another reason blocks the operation already, or this one does.
    pub open spec fn keeps_block(self, reason: BlockingReason) -> bool {
        self.state.blocking_reason == reason || !(self.state.blocking_reason is Unblocked
            || self.state.blocking_reason is SourceBrokerUnavailable)
    }
}

impl OperationState {
    /// The state with another blocking reason, while the operation runs.
    pub open spec fn blocked_by(self, reason: BlockingReason) -> OperationState {
        OperationState {
            phase: self.phase,
            result: OperationResult::Running,
            blocking_reason: reason,
        }
    }
}

impl OperationRecord {
    /// The record with a reason to recover and the failure behind it.
    pub open spec fn failing(
        self,
        recovery_mode: Option<OperationRecoveryMode>,
        failure_capsule: Option<FailureCapsule>,
    ) -> OperationRecord {
        OperationRecord {
            evidence: OperationEvidence { recovery_mode, ..self.evidence },
            failure_capsule,
            ..self
        }
    }
}

impl OperationRecord {
    /// What keeps the acquisition of a write fence from being recorded.
    pub open spec fn fence_fault(
        attempt_id: Uuid,
        stored: Option<OperationRecord>,
        receipt: FenceAcquisitionReceiptV1,
    ) -> Option<StoreError> {
        let operation = stored->0;
        if receipt.attempt_id != attempt_id {
            Some(StoreError::InvalidControllerInput("invalid fence acquisition receipt"))
        } else if receipt.well_formed() && document_digest(receipt.sealed_json()) is None {
            Some(StoreError::InvalidControllerInput("invalid fence receipt"))
        } else if !(receipt.well_formed() && receipt.sealed()) {
            Some(StoreError::InvalidControllerInput("invalid fence acquisition receipt"))
        } else if OperationRecord::load_fault(attempt_id, stored) is Some {
            OperationRecord::load_fault(attempt_id, stored)
        } else if !(operation.state.result is Running) || !(
        operation.state.phase is CutoverSnapshotting) || operation.project_id@
            != receipt.project_id@ {
            Some(StoreError::TransitionRejected)
        } else if operation.evidence.fencing_epoch matches Some(epoch) && epoch != receipt.epoch {
            Some(StoreError::ArtifactEvidenceConflict("fencing_epoch"))
        } else if operation.evidence.fence_acquisition_receipt_digest matches Some(digest)
            && digest@ != receipt.receipt_digest@ {
            Some(StoreError::ArtifactEvidenceConflict("fence_acquisition_receipt_digest"))
        } else {
            None
        }
    }
}

impl<S> DurableController<S> {
    /// An attempt, where what is stored of it is in order.
    pub fn operation(&self, stored: Option<OperationRecord>) -> (r: Result<
        Option<OperationRecord>,
        StoreError,
    >)
        ensures
            match stored {
                None => r == Ok::<Option<OperationRecord>, StoreError>(None),
                Some(operation) => match operation.stored_fault() {
                    None => r == Ok::<_, StoreError>(Some(operation)),
                    Some(error) => r == Err::<Option<OperationRecord>, _>(error),
                },
            },
    {
        match stored {
            None => Ok(None),
            Some(operation) => match OperationRecord::decode_operation(operation) {
                Err(error) => Err(error),
                Ok(operation) => Ok(Some(operation)),
            },
        }
    }

    /// The attempts of a request, where what is stored of them is in order. The first that is not
    /// says why.
    pub fn attempts_for_request(&self, stored: Vec<OperationRecord>) -> (r: Result<
        Vec<OperationRecord>,
        StoreError,
    >)
        ensures
            match r {
                Ok(attempts) => attempts == stored && forall|i: int|
                    0 <= i < stored@.len() ==> (#[trigger] stored@[i]).stored_fault() is None,
                Err(error) => exists|i: int|
                    0 <= i < stored@.len() && (#[trigger] stored@[i]).stored_fault() == Some(error)
                        && forall|k: int|
                        0 <= k < i ==> (#[trigger] stored@[k]).stored_fault() is None,
            },
    {
        let mut i: usize = 0;
        while i < stored.len()
            invariant
                i <= stored.len(),
                forall|k: int| 0 <= k < i ==> (#[trigger] stored@[k]).stored_fault() is None,
            decreases stored.len() - i,
        {
            match stored[i].check_stored() {
                Err(error) => {
                    assert(stored@[i as int].stored_fault() == Some(error));
                    return Err(error);
                },
                Ok(()) => {},
            }
            i += 1;
        }
        Ok(stored)
    }

    /// Commits the receipt of a phase. One that was committed before changes nothing.
    pub fn commit_phase_receipt(
        &self,
        stored: Option<OperationRecord>,
        receipt: &PhaseReceipt,
        recorded_at_ms: i64,
    ) -> (r: Result<OperationUpdate, StoreError>)
        ensures
            match r {
                Err(error) => OperationRecord::commit_fault(stored, *receipt) == Some(error),
                Ok(update) => {
                    &&& OperationRecord::commit_fault(stored, *receipt) is None
                    &&& update.changed == !stored->0.has_receipt(receipt.receipt_digest@)
                    &&& if update.changed {
                        stored->0.advances(
                            update.operation,
                            *receipt,
                            stored->0.rolling_back(),
                            recorded_at_ms,
                        )
                    } else {
                        update.operation == stored->0
                    }
                },
            },
    {
        match OperationRecord::check_receipt(receipt) {
            Err(error) => return Err(error),
            Ok(()) => {},
        }
        let operation = match OperationRecord::load_attempt(receipt.attempt_id, stored) {
            Err(error) => return Err(error),
            Ok(operation) => operation,
        };
        if operation.find_receipt(&receipt.receipt_digest).is_some() {
            return Ok(OperationUpdate { operation, changed: false });
        }
        if operation.state.result != OperationResult::Running || operation.state.phase
            != receipt.phase {
            return Err(StoreError::ReceiptMismatch);
        }
        let is_rollback_recovery = operation.evidence.recovery_mode == Some(
            OperationRecoveryMode::Rollback,
        );
        match operation.advance(receipt, is_rollback_recovery, recorded_at_ms) {
            Err(error) => Err(error),
            Ok(operation) => Ok(OperationUpdate { operation, changed: true }),
        }
    }

    /// Commits the receipt of the phase that was left for reconciliation, and ends the
    /// reconciliation.
    pub fn commit_reconciled_phase_receipt(
        &self,
        stored: Option<OperationRecord>,
        receipt: &PhaseReceipt,
        recorded_at_ms: i64,
    ) -> (r: Result<OperationUpdate, StoreError>)
        ensures
            match r {
                Err(error) => OperationRecord::reconcile_fault(stored, *receipt) == Some(error),
                Ok(update) => {
                    &&& OperationRecord::reconcile_fault(stored, *receipt) is None
                    &&& update.changed == !stored->0.has_receipt(receipt.receipt_digest@)
                    &&& if update.changed {
                        exists|advanced: OperationRecord| #[trigger]
                            stored->0.advances(advanced, *receipt, false, recorded_at_ms)
                                && update.operation == advanced.recovered()
                    } else {
                        update.operation == stored->0
                    }
                },
            },
    {
        match OperationRecord::check_receipt(receipt) {
            Err(error) => return Err(error),
            Ok(()) => {},
        }
        let operation = match OperationRecord::load_attempt(receipt.attempt_id, stored) {
            Err(error) => return Err(error),
            Ok(operation) => operation,
        };
        match operation.find_receipt(&receipt.receipt_digest) {
            Some(at) => {
                let transitions = &operation.evidence.transitions;
                return if transitions[at].from.phase == OperationPhase::Reconciliation
                    && receipt_phase_for_transition(transitions, at) == Some(receipt.phase) {
                    Ok(OperationUpdate { operation, changed: false })
                } else {
                    Err(StoreError::ReceiptMismatch)
                };
            },
            None => {},
        }
        if operation.state.result != OperationResult::Running || operation.state.phase
            != OperationPhase::Reconciliation || operation.evidence.recovery_mode != Some(
            OperationRecoveryMode::Reconciliation,
        ) || receipt.branch != ExecutorPhaseBranch::Primary
            || !operation.has_entered_reconciliation_from(receipt.phase) {
            return Err(StoreError::ReceiptMismatch);
        }
        match operation.advance(receipt, false, recorded_at_ms) {
            Err(error) => Err(error),
            Ok(advanced) => {
                let ghost reached = advanced;
                let mut operation = advanced;
                operation.evidence.recovery_mode = None;
                operation.failure_capsule = None;
                assert(operation == reached.recovered());
                Ok(OperationUpdate { operation, changed: true })
            },
        }
    }

    /// Sends a running operation to reconciliation, for a failure whose effect is not known.
    pub fn mark_needs_reconcile(
        &self,
        attempt_id: Uuid,
        stored: Option<OperationRecord>,
        failure_capsule: FailureCapsule,
        recorded_at_ms: i64,
    ) -> (r: Result<OperationUpdate, StoreError>)
        ensures
            ({
                let fault = OperationRecord::load_fault(attempt_id, stored);
                let operation = stored->0;
                let next = OperationState {
                    phase: OperationPhase::Reconciliation,
                    result: OperationResult::Running,
                    blocking_reason: BlockingReason::SecurityStateInvalid,
                };
                match r {
                    Err(error) => if fault is Some {
                        fault == Some(error)
                    } else if !(operation.state.result is Running) {
                        error is TransitionRejected
                    } else {
                        !(operation.state.phase is Reconciliation) && operation.move_fault(next)
                            == Some(error)
                    },
                    Ok(update) => {
                        &&& fault is None
                        &&& operation.state.result is Running
                        &&& update.changed == !(operation.state.phase is Reconciliation)
                        &&& update.changed ==> operation.move_fault(next) is None
                        &&& if update.changed {
                            operation.failing(
                                Some(OperationRecoveryMode::Reconciliation),
                                Some(failure_capsule),
                            ).moves(update.operation, next, None, recorded_at_ms)
                        } else {
                            update.operation == operation
                        }
                    },
                }
            }),
    {
        let mut operation = match OperationRecord::load_attempt(attempt_id, stored) {
            Err(error) => return Err(error),
            Ok(operation) => operation,
        };
        if operation.state.phase == OperationPhase::Reconciliation && operation.state.result
            == OperationResult::Running {
            return Ok(OperationUpdate { operation, changed: false });
        }
        if operation.state.result != OperationResult::Running {
            return Err(StoreError::TransitionRejected);
        }
        let next = OperationState {
            phase: OperationPhase::Reconciliation,
            result: OperationResult::Running,
            blocking_reason: BlockingReason::SecurityStateInvalid,
        };
        operation.evidence.recovery_mode = Some(OperationRecoveryMode::Reconciliation);
        operation.failure_capsule = Some(failure_capsule);
        match operation.persist_transition(next, None, recorded_at_ms) {
            Err(error) => Err(error),
            Ok(operation) => Ok(OperationUpdate { operation, changed: true }),
        }
    }

    /// Accepts an operation that is rolling back or may begin to.
    pub fn validate_rollback(
        &self,
        attempt_id: Uuid,
        stored: Option<OperationRecord>,
    ) -> (r: Result<
        OperationRecord,
        StoreError,
    >)
        ensures
            match r {
                Err(error) => match OperationRecord::load_fault(attempt_id, stored) {
                    Some(fault) => error == fault,
                    None => stored->0.rollback_readiness() is None && error is TransitionRejected,
                },
                Ok(operation) => {
                    &&& stored == Some(operation)
                    &&& OperationRecord::load_fault(attempt_id, stored) is None
                    &&& operation.rollback_readiness() is Some
                },
            },
    {
        match OperationRecord::load_attempt(attempt_id, stored) {
            Err(error) => Err(error),
            Ok(operation) => match operation.require_rollback_transition() {
                Err(error) => Err(error),
                Ok(_) => Ok(operation),
            },
        }
    }

    /// Begins a rollback, unless it is under way.
    pub fn begin_rollback(
        &self,
        attempt_id: Uuid,
        stored: Option<OperationRecord>,
        recorded_at_ms: i64,
    ) -> (r: Result<OperationUpdate, StoreError>)
        ensures
            ({
                let fault = OperationRecord::load_fault(attempt_id, stored);
                let operation = stored->0;
                let next = OperationState::unblocked(
                    OperationPhase::Rollback,
                    OperationResult::Running,
                );
                match r {
                    Err(error) => match fault {
                        Some(fault) => error == fault,
                        None => match operation.rollback_readiness() {
                            None => error is TransitionRejected,
                            Some(under_way) => !under_way && operation.move_fault(next) == Some(
                                error,
                            ),
                        },
                    },
                    Ok(update) => {
                        &&& fault is None
                        &&& operation.rollback_readiness() == Some(!update.changed)
                        &&& update.changed ==> operation.move_fault(next) is None
                        &&& if update.changed {
                            operation.failing(
                                Some(OperationRecoveryMode::Rollback),
                                operation.failure_capsule,
                            ).moves(update.operation, next, None, recorded_at_ms)
                        } else {
                            update.operation == operation
                        }
                    },
                }
            }),
    {
        let mut operation = match OperationRecord::load_attempt(attempt_id, stored) {
            Err(error) => return Err(error),
            Ok(operation) => operation,
        };
        match operation.require_rollback_transition() {
            Err(error) => return Err(error),
            Ok(under_way) => if under_way {
                return Ok(OperationUpdate { operation, changed: false });
            },
        }
        let next = OperationState {
            phase: OperationPhase::Rollback,
            result: OperationResult::Running,
            blocking_reason: BlockingReason::Unblocked,
        };
        operation.evidence.recovery_mode = Some(OperationRecoveryMode::Rollback);
        match operation.persist_transition(next, None, recorded_at_ms) {
            Err(error) => Err(error),
            Ok(operation) => Ok(OperationUpdate { operation, changed: true }),
        }
    }

    /// Blocks an operation for a reason that its source gives.
    pub fn set_source_block(
        &self,
        attempt_id: Uuid,
        stored: Option<OperationRecord>,
        reason: BlockingReason,
        recorded_at_ms: i64,
    ) -> (r: Result<OperationUpdate, StoreError>)
        ensures
            if source_reason(reason) {
                OperationRecord::blocked(attempt_id, stored, reason, true, recorded_at_ms, r)
            } else {
                r matches Err(error) && error == StoreError::InvalidControllerInput(
                    "invalid source blocking reason",
                )
            },
    {
        match reason {
            BlockingReason::SourceDivergence
            | BlockingReason::SourceBrokerUnavailable
            | BlockingReason::SourceAttestationInvalid
            | BlockingReason::OperatorHold => self.set_pre_mutation_block(
                attempt_id,
                stored,
                reason,
                true,
                recorded_at_ms,
            ),
            _ => Err(StoreError::InvalidControllerInput("invalid source blocking reason")),
        }
    }

    /// Blocks an operation for want of disk space.
    pub fn set_disk_block(
        &self,
        attempt_id: Uuid,
        stored: Option<OperationRecord>,
        recorded_at_ms: i64,
    ) -> (r: Result<OperationUpdate, StoreError>)
        ensures
            OperationRecord::blocked(
                attempt_id,
                stored,
                BlockingReason::DiskReserve,
                false,
                recorded_at_ms,
                r,
            ),
    {
        self.set_pre_mutation_block(
            attempt_id,
            stored,
            BlockingReason::DiskReserve,
            false,
            recorded_at_ms,
        )
    }

    fn set_pre_mutation_block(
        &self,
        attempt_id: Uuid,
        stored: Option<OperationRecord>,
        reason: BlockingReason,
        requires_source_admission: bool,
        recorded_at_ms: i64,
    ) -> (r: Result<OperationUpdate, StoreError>)
        ensures
            OperationRecord::blocked(
                attempt_id,
                stored,
                reason,
                requires_source_admission,
                recorded_at_ms,
                r,
            ),
    {
        let operation = match OperationRecord::load_attempt(attempt_id, stored) {
            Err(error) => return Err(error),
            Ok(operation) => operation,
        };
        if operation.state.result != OperationResult::Running || (requires_source_admission
            && !operation.has_trusted_source_admission()) || operation.committed_mutation() {
            return Err(StoreError::TransitionRejected);
        }
        if operation.state.blocking_reason == reason || (operation.state.blocking_reason
            != BlockingReason::Unblocked && operation.state.blocking_reason
            != BlockingReason::SourceBrokerUnavailable) {
            return Ok(OperationUpdate { operation, changed: false });
        }
        let next = OperationState {
            phase: operation.state.phase,
            result: OperationResult::Running,
            blocking_reason: reason,
        };
        operation.go_to(next, recorded_at_ms)
    }

    /// Blocks a release that is at its stateful cutover while its source cannot be asked.
    pub fn set_stateful_cutover_source_block(
        &self,
        attempt_id: Uuid,
        stored: Option<OperationRecord>,
        recorded_at_ms: i64,
    ) -> (r: Result<OperationUpdate, StoreError>)
        ensures
            OperationRecord::loaded_and_moved(
                attempt_id,
                stored,
                stored->0.cutover_refusal(),
                stored->0.state.blocking_reason is SourceBrokerUnavailable,
                stored->0,
                stored->0.state.blocked_by(BlockingReason::SourceBrokerUnavailable),
                recorded_at_ms,
                r,
            ),
    {
        let operation = match OperationRecord::load_attempt(attempt_id, stored) {
            Err(error) => return Err(error),
            Ok(operation) => operation,
        };
        if operation.refuses_cutover() {
            return Err(StoreError::TransitionRejected);
        }
        if operation.state.blocking_reason == BlockingReason::SourceBrokerUnavailable {
            return Ok(OperationUpdate { operation, changed: false });
        }
        let next = OperationState {
            phase: operation.state.phase,
            result: OperationResult::Running,
            blocking_reason: BlockingReason::SourceBrokerUnavailable,
        };
        operation.go_to(next, recorded_at_ms)
    }

    /// Lets a release at its stateful cutover go on once its source can be asked again.
    pub fn clear_stateful_cutover_source_block(
        &self,
        attempt_id: Uuid,
        stored: Option<OperationRecord>,
        recorded_at_ms: i64,
    ) -> (r: Result<OperationUpdate, StoreError>)
        ensures
            OperationRecord::loaded_and_moved(
                attempt_id,
                stored,
                stored->0.cutover_refusal(),
                stored->0.state.blocking_reason is Unblocked,
                stored->0,
                stored->0.state.blocked_by(BlockingReason::Unblocked),
                recorded_at_ms,
                r,
            ),
    {
        let operation = match OperationRecord::load_attempt(attempt_id, stored) {
            Err(error) => return Err(error),
            Ok(operation) => operation,
        };
        if operation.refuses_cutover() {
            return Err(StoreError::TransitionRejected);
        }
        if operation.state.blocking_reason == BlockingReason::Unblocked {
            return Ok(OperationUpdate { operation, changed: false });
        }
        let next = OperationState {
            phase: operation.state.phase,
            result: OperationResult::Running,
            blocking_reason: BlockingReason::Unblocked,
        };
        operation.go_to(next, recorded_at_ms)
    }

    /// Lets an operation go on once there is disk space again.
    pub fn clear_disk_block(
        &self,
        attempt_id: Uuid,
        stored: Option<OperationRecord>,
        recorded_at_ms: i64,
    ) -> (r: Result<OperationUpdate, StoreError>)
        ensures
            OperationRecord::loaded_and_moved(
                attempt_id,
                stored,
                if stored->0.state.blocking_reason is DiskReserve {
                    stored->0.block_refusal(false)
                } else {
                    Some(StoreError::TransitionRejected)
                },
                false,
                stored->0,
                stored->0.state.blocked_by(BlockingReason::Unblocked),
                recorded_at_ms,
                r,
            ),
    {
        let operation = match OperationRecord::load_attempt(attempt_id, stored) {
            Err(error) => return Err(error),
            Ok(operation) => operation,
        };
        if operation.state.result != OperationResult::Running || operation.state.blocking_reason
            != BlockingReason::DiskReserve || operation.committed_mutation() {
            return Err(StoreError::TransitionRejected);
        }
        let next = OperationState {
            phase: operation.state.phase,
            result: OperationResult::Running,
            blocking_reason: BlockingReason::Unblocked,
        };
        operation.go_to(next, recorded_at_ms)
    }

    /// Ends an attempt that a newer source replaces, before it changes production.
    pub fn supersede_source_attempt(
        &self,
        attempt_id: Uuid,
        stored: Option<OperationRecord>,
        failure_capsule: FailureCapsule,
        recorded_at_ms: i64,
    ) -> (r: Result<OperationUpdate, StoreError>)
        ensures
            OperationRecord::loaded_and_moved(
                attempt_id,
                stored,
                stored->0.end_refusal(
                    stored->0.has_trusted_source() && !stored->0.has_committed_mutation(),
                    StoreError::TransitionRejected,
                ),
                !(stored->0.state.result is Running),
                stored->0.failing(stored->0.evidence.recovery_mode, Some(failure_capsule)),
                OperationState::unblocked(stored->0.state.phase, OperationResult::Superseded),
                recorded_at_ms,
                r,
            ),
    {
        let mut operation = match OperationRecord::load_attempt(attempt_id, stored) {
            Err(error) => return Err(error),
            Ok(operation) => operation,
        };
        if operation.state.result != OperationResult::Running {
            return Ok(OperationUpdate { operation, changed: false });
        }
        if !operation.has_trusted_source_admission() || operation.committed_mutation() {
            return Err(StoreError::TransitionRejected);
        }
        let next = OperationState {
            phase: operation.state.phase,
            result: OperationResult::Superseded,
            blocking_reason: BlockingReason::Unblocked,
        };
        operation.failure_capsule = Some(failure_capsule);
        operation.go_to(next, recorded_at_ms)
    }

    /// Ends an attempt that failed before it could change production.
    pub fn fail_attempt(
        &self,
        attempt_id: Uuid,
        stored: Option<OperationRecord>,
        failure_capsule: FailureCapsule,
        recorded_at_ms: i64,
    ) -> (r: Result<OperationUpdate, StoreError>)
        ensures
            OperationRecord::loaded_and_moved(
                attempt_id,
                stored,
                stored->0.end_refusal(
                    stored->0.state.phase.before_mutation(),
                    StoreError::FailureAfterMutationRequiresReconcile,
                ),
                !(stored->0.state.result is Running),
                stored->0.failing(stored->0.evidence.recovery_mode, Some(failure_capsule)),
                OperationState::unblocked(stored->0.state.phase, OperationResult::Failed),
                recorded_at_ms,
                r,
            ),
    {
        let mut operation = match OperationRecord::load_attempt(attempt_id, stored) {
            Err(error) => return Err(error),
            Ok(operation) => operation,
        };
        if operation.state.result != OperationResult::Running {
            return Ok(OperationUpdate { operation, changed: false });
        }
        if operation.state.phase.crosses_mutation_boundary() {
            return Err(StoreError::FailureAfterMutationRequiresReconcile);
        }
        let next = OperationState {
            phase: operation.state.phase,
            result: OperationResult::Failed,
            blocking_reason: BlockingReason::Unblocked,
        };
        operation.failure_capsule = Some(failure_capsule);
        operation.go_to(next, recorded_at_ms)
    }

    /// Cancels an attempt before it can change production.
    pub fn cancel_before_mutation(
        &self,
        attempt_id: Uuid,
        stored: Option<OperationRecord>,
        recorded_at_ms: i64,
    ) -> (r: Result<OperationUpdate, StoreError>)
        ensures
            OperationRecord::loaded_and_moved(
                attempt_id,
                stored,
                stored->0.end_refusal(
                    stored->0.state.phase.before_mutation(),
                    StoreError::CancellationAfterMutation,
                ),
                !(stored->0.state.result is Running),
                stored->0,
                OperationState::unblocked(stored->0.state.phase, OperationResult::Cancelled),
                recorded_at_ms,
                r,
            ),
    {
        let operation = match OperationRecord::load_attempt(attempt_id, stored) {
            Err(error) => return Err(error),
            Ok(operation) => operation,
        };
        if operation.state.result != OperationResult::Running {
            return Ok(OperationUpdate { operation, changed: false });
        }
        if operation.state.phase.crosses_mutation_boundary() {
            return Err(StoreError::CancellationAfterMutation);
        }
        let next = OperationState {
            phase: operation.state.phase,
            result: OperationResult::Cancelled,
            blocking_reason: BlockingReason::Unblocked,
        };
        operation.go_to(next, recorded_at_ms)
    }

    /// Records that the write fence was acquired for the cutover of an operation.
    pub fn record_fence_acquisition(
        &self,
        attempt_id: Uuid,
        stored: Option<OperationRecord>,
        receipt: &FenceAcquisitionReceiptV1,
        recorded_at_ms: i64,
    ) -> (r: Result<OperationUpdate, StoreError>)
        ensures
            match r {
                Err(error) => OperationRecord::fence_fault(attempt_id, stored, *receipt) == Some(error),
                Ok(update) => {
                    let operation = stored->0;
                    let fenced = OperationEvidence {
                        fencing_epoch: Some(receipt.epoch),
                        ..operation.evidence
                    };
                    &&& OperationRecord::fence_fault(attempt_id, stored, *receipt) is None
                    &&& update.changed == (operation.evidence.fence_acquisition_receipt_digest is None)
                    &&& update.operation == if update.changed {
                        OperationRecord {
                            evidence: OperationEvidence {
                                fence_acquisition_receipt_digest: Some(receipt.receipt_digest),
                                ..fenced
                            },
                            updated_at_ms: recorded_at_ms,
                            ..operation
                        }
                    } else {
                        OperationRecord { evidence: fenced, ..operation }
                    }
                },
            },
    {
        if receipt.attempt_id != attempt_id {
            return Err(StoreError::InvalidControllerInput("invalid fence acquisition receipt"));
        }
        match receipt.has_valid_digest() {
            Err(_) => return Err(StoreError::InvalidControllerInput("invalid fence receipt")),
            Ok(sealed) => if !sealed {
                return Err(StoreError::InvalidControllerInput("invalid fence acquisition receipt"));
            },
        }
        let mut operation = match OperationRecord::load_attempt(attempt_id, stored) {
            Err(error) => return Err(error),
            Ok(operation) => operation,
        };
        if operation.state.result != OperationResult::Running || operation.state.phase
            != OperationPhase::CutoverSnapshotting || operation.project_id != receipt.project_id {
            return Err(StoreError::TransitionRejected);
        }
        match operation.evidence.fencing_epoch {
            Some(current) => if current != receipt.epoch {
                return Err(StoreError::ArtifactEvidenceConflict("fencing_epoch"));
            },
            None => {
                operation.evidence.fencing_epoch = Some(receipt.epoch);
            },
        }
        match &operation.evidence.fence_acquisition_receipt_digest {
            Some(current) => {
                return if *current == receipt.receipt_digest {
                    Ok(OperationUpdate { operation, changed: false })
                } else {
                    Err(StoreError::ArtifactEvidenceConflict("fence_acquisition_receipt_digest"))
                };
            },
            None => {},
        }
        operation.evidence.fence_acquisition_receipt_digest = Some(receipt.receipt_digest.clone());
        operation.updated_at_ms = recorded_at_ms;
        Ok(OperationUpdate { operation, changed: true })
    }
}

/// A record is read back only if its state holds, its kind goes with its class of release, and no phase
/// was authorized twice on one branch.
pub proof fn law_stored_records_are_whole(
    record: OperationRecord,
    r: Result<(), StoreError>,
    plan: Result<Vec<OperationPhase>, OperationContractError>,
    i: int,
    j: int,
)
    requires
        call_ensures(OperationRecord::check_stored, (&record,), r),
        call_ensures(OperationKind::required_phases, (record.operation_kind, record.release_class), plan),
    ensures
        r is Ok ==> plan is Ok,
        r is Ok && 0 <= i < j < record.evidence.authorized_phase_spec_digests@.len() ==> !(
        record.evidence.authorized_phase_spec_digests@[i].phase
            == record.evidence.authorized_phase_spec_digests@[j].phase
            && record.evidence.authorized_phase_spec_digests@[i].branch
            == record.evidence.authorized_phase_spec_digests@[j].branch),
        r is Ok ==> record.state.fault() is None,
{
}

} // verus!
