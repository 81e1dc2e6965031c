//! What the receipts of a deployment say of it.

use vstd::prelude::*;
use super::DeployDriverError;
use crate::controller::laws::kept;
use crate::controller::merge::{
    authorization_differs,
    digests_differ,
    lists_differ,
    merge_authorized_phase_spec_digest,
    merge_digest,
    merge_health_artifact,
    merge_list,
    merged,
    merged_health,
    merged_list,
    with_authorized,
};
use crate::controller::transitions::{find_phase, place_of};
use crate::domain::artifacts::{
    ArtifactContractError,
    ExecutorPhaseBranch,
    PhaseArtifacts,
    PhaseReceipt,
};
use crate::domain::identifiers::document_digest;
use crate::domain::operation::{
    OperationContractError, OperationKind, OperationRecoveryMode, OperationState,
};
use crate::domain::record::{OperationEvidence, OperationRecord, OperationTransition};
use crate::domain::states::{BlockingReason, OperationPhase, OperationResult};

verus! {

impl OperationEvidence {
    /// The evidence of a phase contradicts what a deployment knows. What the soak tells of the
    /// health never does.
    pub open spec fn deploy_conflict(
        self,
        artifacts: PhaseArtifacts,
        phase: OperationPhase,
        rollback_recovery: bool,
    ) -> bool {
        ||| authorization_differs(
            self.authorized_phase_spec_digests@,
            phase,
            OperationRecord::expected_branch(rollback_recovery),
            artifacts.authorized_phase_spec_digest,
        )
        ||| digests_differ(self.source_gate_proof_digest, artifacts.source_gate_proof_digest)
        ||| digests_differ(self.source_export_digest, artifacts.source_export_digest)
        ||| digests_differ(self.prefetch_evidence_digest, artifacts.prefetch_evidence_digest)
        ||| digests_differ(self.ci_evidence_digest, artifacts.ci_evidence_digest)
        ||| digests_differ(self.build_plan_digest, artifacts.build_plan_digest)
        ||| digests_differ(self.deployment_plan_digest, artifacts.deployment_plan_digest)
        ||| digests_differ(self.release_bundle_digest, artifacts.release_bundle_digest)
        ||| digests_differ(self.resource_reservation_digest, artifacts.resource_reservation_digest)
        ||| digests_differ(self.build_context_digest, artifacts.build_context_digest)
        ||| lists_differ(self.generated_output_digests@, artifacts.generated_output_digests@)
        ||| digests_differ(self.image_digest, artifacts.image_digest)
        ||| digests_differ(self.image_id_digest, artifacts.image_id_digest)
        ||| lists_differ(self.base_image_digests@, artifacts.base_image_digests@)
        ||| !(phase is Soaking) && digests_differ(
            if rollback_recovery {
                self.rollback_health_evidence_digest
            } else {
                self.health_evidence_digest
            },
            artifacts.health_evidence_digest,
        )
    }

    /// Evidence is this one with what a phase of a deployment tells.
    pub open spec fn deploy_gains(
        self,
        after: OperationEvidence,
        artifacts: PhaseArtifacts,
        phase: OperationPhase,
        rollback_recovery: bool,
    ) -> bool {
        &&& after == (OperationEvidence {
            authorized_phase_spec_digests: after.authorized_phase_spec_digests,
            source_gate_proof_digest: merged(self.source_gate_proof_digest, artifacts.source_gate_proof_digest),
            source_export_digest: merged(self.source_export_digest, artifacts.source_export_digest),
            prefetch_evidence_digest: merged(self.prefetch_evidence_digest, artifacts.prefetch_evidence_digest),
            ci_evidence_digest: merged(self.ci_evidence_digest, artifacts.ci_evidence_digest),
            build_plan_digest: merged(self.build_plan_digest, artifacts.build_plan_digest),
            deployment_plan_digest: merged(self.deployment_plan_digest, artifacts.deployment_plan_digest),
            release_bundle_digest: merged(self.release_bundle_digest, artifacts.release_bundle_digest),
            resource_reservation_digest: merged(self.resource_reservation_digest, artifacts.resource_reservation_digest),
            build_context_digest: merged(self.build_context_digest, artifacts.build_context_digest),
            generated_output_digests: after.generated_output_digests,
            image_digest: merged(self.image_digest, artifacts.image_digest),
            image_id_digest: merged(self.image_id_digest, artifacts.image_id_digest),
            base_image_digests: after.base_image_digests,
            rollback_health_evidence_digest: if rollback_recovery {
                merged_health(
                    self.rollback_health_evidence_digest,
                    artifacts.health_evidence_digest,
                    phase,
                )
            } else {
                self.rollback_health_evidence_digest
            },
            health_evidence_digest: if rollback_recovery {
                self.health_evidence_digest
            } else {
                merged_health(self.health_evidence_digest, artifacts.health_evidence_digest, phase)
            },
            ..self
        })
        &&& after.authorized_phase_spec_digests@ == with_authorized(
            self.authorized_phase_spec_digests@,
            phase,
            OperationRecord::expected_branch(rollback_recovery),
            artifacts.authorized_phase_spec_digest,
        )
        &&& after.generated_output_digests@ == merged_list(self.generated_output_digests@, artifacts.generated_output_digests@)
        &&& after.base_image_digests@ == merged_list(self.base_image_digests@, artifacts.base_image_digests@)
    }

    /// Adds what a phase of a deployment tells, unless it contradicts what is known.
    pub fn merge_deploy_artifacts(
        self,
        artifacts: &PhaseArtifacts,
        phase: OperationPhase,
        rollback_recovery: bool,
    ) -> (r: Result<OperationEvidence, DeployDriverError>)
        ensures
            match r {
                Ok(after) => {
                    &&& !self.deploy_conflict(*artifacts, phase, rollback_recovery)
                    &&& self.deploy_gains(after, *artifacts, phase, rollback_recovery)
                },
                Err(error) => error is ArtifactConflict && self.deploy_conflict(
                    *artifacts,
                    phase,
                    rollback_recovery,
                ),
            },
    {
        let mut evidence = self;
        let branch = if rollback_recovery {
            ExecutorPhaseBranch::RollbackRecovery
        } else {
            ExecutorPhaseBranch::Primary
        };
        if !merge_authorized_phase_spec_digest(
            &mut evidence.authorized_phase_spec_digests,
            phase,
            branch,
            &artifacts.authorized_phase_spec_digest,
        ) {
            return Err(DeployDriverError::ArtifactConflict);
        }
        if !merge_digest(&mut evidence.source_gate_proof_digest, &artifacts.source_gate_proof_digest) {
            return Err(DeployDriverError::ArtifactConflict);
        }
        if !merge_digest(&mut evidence.source_export_digest, &artifacts.source_export_digest) {
            return Err(DeployDriverError::ArtifactConflict);
        }
        if !merge_digest(&mut evidence.prefetch_evidence_digest, &artifacts.prefetch_evidence_digest) {
            return Err(DeployDriverError::ArtifactConflict);
        }
        if !merge_digest(&mut evidence.ci_evidence_digest, &artifacts.ci_evidence_digest) {
            return Err(DeployDriverError::ArtifactConflict);
        }
        if !merge_digest(&mut evidence.build_plan_digest, &artifacts.build_plan_digest) {
            return Err(DeployDriverError::ArtifactConflict);
        }
        if !merge_digest(&mut evidence.deployment_plan_digest, &artifacts.deployment_plan_digest) {
            return Err(DeployDriverError::ArtifactConflict);
        }
        if !merge_digest(&mut evidence.release_bundle_digest, &artifacts.release_bundle_digest) {
            return Err(DeployDriverError::ArtifactConflict);
        }
        if !merge_digest(&mut evidence.resource_reservation_digest, &artifacts.resource_reservation_digest) {
            return Err(DeployDriverError::ArtifactConflict);
        }
        if !merge_digest(&mut evidence.build_context_digest, &artifacts.build_context_digest) {
            return Err(DeployDriverError::ArtifactConflict);
        }
        if !merge_list(&mut evidence.generated_output_digests, &artifacts.generated_output_digests) {
            return Err(DeployDriverError::ArtifactConflict);
        }
        if !merge_digest(&mut evidence.image_digest, &artifacts.image_digest) {
            return Err(DeployDriverError::ArtifactConflict);
        }
        if !merge_digest(&mut evidence.image_id_digest, &artifacts.image_id_digest) {
            return Err(DeployDriverError::ArtifactConflict);
        }
        if !merge_list(&mut evidence.base_image_digests, &artifacts.base_image_digests) {
            return Err(DeployDriverError::ArtifactConflict);
        }
        if rollback_recovery {
            if !merge_health_artifact(
                &mut evidence.rollback_health_evidence_digest,
                &artifacts.health_evidence_digest,
                phase,
            ) {
                return Err(DeployDriverError::ArtifactConflict);
            }
        } else if !merge_health_artifact(
            &mut evidence.health_evidence_digest,
            &artifacts.health_evidence_digest,
            phase,
        ) {
            return Err(DeployDriverError::ArtifactConflict);
        }
        Ok(evidence)
    }
}

impl OperationRecord {
    /// The receipt is not the one of the phase that the deployment is in.
    pub open spec fn foreign_receipt(self, receipt: PhaseReceipt, rollback_recovery: bool) -> bool {
        ||| !receipt.sealed()
        ||| receipt.attempt_id != self.attempt_id
        ||| receipt.branch != OperationRecord::expected_branch(rollback_recovery)
        ||| receipt.phase != self.state.phase
        ||| !(self.state.result is Running)
    }

    /// Where the receipt of a phase leads a deployment to, given its place in the plan.
    pub open spec fn deploy_state_after(
        plan: Seq<OperationPhase>,
        at: int,
        rollback_recovery: bool,
    ) -> OperationState {
        if at + 1 < plan.len() {
            OperationState::unblocked(plan[at + 1], OperationResult::Running)
        } else if rollback_recovery {
            OperationState::unblocked(plan[at], OperationResult::RolledBack)
        } else {
            OperationState::unblocked(plan[at], OperationResult::Succeeded)
        }
    }

    /// What keeps a receipt from being projected on a deployment.
    pub open spec fn projection_fault(
        self,
        receipt: PhaseReceipt,
        rollback_recovery: bool,
    ) -> Option<
        DeployDriverError,
    > {
        if document_digest(receipt.sealed_json()) is None {
            Some(DeployDriverError::Encoding)
        } else if self.foreign_receipt(receipt, rollback_recovery) {
            Some(DeployDriverError::ReceiptBinding)
        } else if !receipt.artifacts.has_required(receipt.phase) {
            Some(
                DeployDriverError::Artifact(
                    ArtifactContractError::MissingRequiredEvidence { phase: receipt.phase },
                ),
            )
        } else if !receipt.artifacts.has_only_expected(receipt.phase) {
            Some(
                DeployDriverError::Artifact(
                    ArtifactContractError::UnexpectedEvidence { phase: receipt.phase },
                ),
            )
        } else if self.evidence.deploy_conflict(receipt.artifacts, receipt.phase, rollback_recovery) {
            Some(DeployDriverError::ArtifactConflict)
        } else {
            match self.followed_plan(rollback_recovery) {
                None => Some(DeployDriverError::Operation(OperationContractError::ReleaseClassMismatch)),
                Some(plan) => if place_of(plan, receipt.phase) >= plan.len() {
                    Some(DeployDriverError::ReceiptBinding)
                } else if self.evidence.transitions@.len() + 1 > u32::MAX {
                    Some(DeployDriverError::TransitionOverflow)
                } else {
                    None
                },
            }
        }
    }

    /// A record is this one with a receipt projected on it: its evidence added, and the next state
    /// reached.
    pub open spec fn projects(
        self,
        after: OperationRecord,
        receipt: PhaseReceipt,
        rollback_recovery: bool,
    ) -> bool {
        let plan = self.followed_plan(rollback_recovery)->0;
        exists|gained: OperationEvidence| #[trigger]
            self.evidence.deploy_gains(gained, receipt.artifacts, receipt.phase, rollback_recovery)
                && OperationRecord { evidence: gained, ..self }.moves(
                after,
                OperationRecord::deploy_state_after(
                    plan,
                    place_of(plan, receipt.phase),
                    rollback_recovery,
                ),
                Some(receipt.receipt_digest),
                receipt.committed_at_ms,
            )
    }

    /// Projects the receipt of a phase on a deployment.
    pub fn project_deploy_receipt(
        self,
        receipt: &PhaseReceipt,
        rollback_recovery: bool,
    ) -> (r: Result<
        OperationRecord,
        DeployDriverError,
    >)
        ensures
            match r {
                Ok(after) => self.projection_fault(*receipt, rollback_recovery) is None
                    && self.projects(after, *receipt, rollback_recovery),
                Err(error) => self.projection_fault(*receipt, rollback_recovery) == Some(error),
            },
    {
        let ghost before = self;
        let sealed = match receipt.has_valid_digest() {
            Err(_) => return Err(DeployDriverError::Encoding),
            Ok(sealed) => sealed,
        };
        let branch = if rollback_recovery {
            ExecutorPhaseBranch::RollbackRecovery
        } else {
            ExecutorPhaseBranch::Primary
        };
        if !sealed || receipt.attempt_id != self.attempt_id || receipt.branch != branch
            || receipt.phase != self.state.phase || self.state.result != OperationResult::Running {
            return Err(DeployDriverError::ReceiptBinding);
        }
        match receipt.artifacts.validate_for_phase(receipt.phase) {
            Err(error) => return Err(DeployDriverError::Artifact(error)),
            Ok(()) => {},
        }
        let operation = self;
        let evidence = match operation.evidence.merge_deploy_artifacts(
            &receipt.artifacts,
            receipt.phase,
            rollback_recovery,
        ) {
            Err(error) => return Err(error),
            Ok(evidence) => evidence,
        };
        let ghost gained = evidence;
        let plan = if rollback_recovery {
            vec![
                OperationPhase::Rollback,
                OperationPhase::HealthChecking,
                OperationPhase::Soaking,
            ]
        } else {
            match operation.operation_kind.required_phases(operation.release_class) {
                Ok(plan) => plan,
                Err(error) => return Err(DeployDriverError::Operation(error)),
            }
        };
        assert(before.followed_plan(rollback_recovery) == Some(plan@));
        let at = find_phase(&plan, receipt.phase);
        if at >= plan.len() {
            return Err(DeployDriverError::ReceiptBinding);
        }
        proof {
            lemma_place(plan@, receipt.phase);
        }
        let next = if at + 1 < plan.len() {
            OperationState {
                phase: plan[at + 1],
                result: OperationResult::Running,
                blocking_reason: BlockingReason::Unblocked,
            }
        } else {
            OperationState {
                phase: receipt.phase,
                result: if rollback_recovery {
                    OperationResult::RolledBack
                } else {
                    OperationResult::Succeeded
                },
                blocking_reason: BlockingReason::Unblocked,
            }
        };
        let count: usize = evidence.transitions.len();
        if count >= u32::MAX as usize {
            return Err(DeployDriverError::TransitionOverflow);
        }
        let mut after = OperationRecord {
            operation_id: operation.operation_id,
            request_id: operation.request_id,
            attempt_id: operation.attempt_id,
            attempt_number: operation.attempt_number,
            project_id: operation.project_id,
            operation_kind: operation.operation_kind,
            target_commit: operation.target_commit,
            release_class: operation.release_class,
            state: operation.state,
            actor: operation.actor,
            evidence,
            failure_capsule: operation.failure_capsule,
            created_at_ms: operation.created_at_ms,
            updated_at_ms: operation.updated_at_ms,
        };
        after.evidence.transitions.push(
            OperationTransition {
                sequence: count as u32 + 1,
                from: after.state,
                to: next,
                receipt_digest: Some(receipt.receipt_digest.clone()),
                occurred_at_ms: receipt.committed_at_ms,
            },
        );
        after.state = next;
        after.updated_at_ms = receipt.committed_at_ms;
        assert(OperationRecord { evidence: gained, ..before }.moves(
            after,
            next,
            Some(receipt.receipt_digest),
            receipt.committed_at_ms,
        ));
        Ok(after)
    }

    /// What keeps a deployment from being rolled back: only one that runs, has been deployed over
    /// an earlier release, and is not through its soak, goes back.
    pub open spec fn rollback_projection_fault(self) -> Option<DeployDriverError> {
        if !(self.state.result is Running) || !(self.state.phase is HealthChecking
            || self.state.phase is Soaking) || self.evidence.previous_release_bundle_digest is None {
            Some(DeployDriverError::RollbackBinding)
        } else if self.evidence.transitions@.len() + 1 > u32::MAX {
            Some(DeployDriverError::TransitionOverflow)
        } else {
            None
        }
    }

    /// A record is this one in its rollback.
    pub open spec fn turns_back(self, after: OperationRecord, at_ms: i64) -> bool {
        OperationRecord {
            evidence: OperationEvidence {
                recovery_mode: Some(OperationRecoveryMode::Rollback),
                ..self.evidence
            },
            ..self
        }.moves(
            after,
            OperationState::unblocked(OperationPhase::Rollback, OperationResult::Running),
            None,
            at_ms,
        )
    }

    /// Turns a deployment back.
    pub fn begin_rollback_projection(self, occurred_at_ms: i64) -> (r: Result<
        OperationRecord,
        DeployDriverError,
    >)
        ensures
            match r {
                Ok(after) => self.rollback_projection_fault() is None && self.turns_back(
                    after,
                    occurred_at_ms,
                ),
                Err(error) => self.rollback_projection_fault() == Some(error),
            },
    {
        let mut operation = self;
        if operation.state.result != OperationResult::Running || !(operation.state.phase
            == OperationPhase::HealthChecking || operation.state.phase == OperationPhase::Soaking)
            || operation.evidence.previous_release_bundle_digest.is_none() {
            return Err(DeployDriverError::RollbackBinding);
        }
        let count: usize = operation.evidence.transitions.len();
        if count >= u32::MAX as usize {
            return Err(DeployDriverError::TransitionOverflow);
        }
        let next = OperationState {
            phase: OperationPhase::Rollback,
            result: OperationResult::Running,
            blocking_reason: BlockingReason::Unblocked,
        };
        operation.evidence.transitions.push(
            OperationTransition {
                sequence: count as u32 + 1,
                from: operation.state,
                to: next,
                receipt_digest: None,
                occurred_at_ms,
            },
        );
        operation.evidence.recovery_mode = Some(OperationRecoveryMode::Rollback);
        operation.state = next;
        operation.updated_at_ms = occurred_at_ms;
        Ok(operation)
    }
}

/// The place of a phase in a plan holds that phase.
proof fn lemma_place(plan: Seq<OperationPhase>, phase: OperationPhase)
    ensures
        0 <= place_of(plan, phase) <= plan.len(),
        place_of(plan, phase) < plan.len() ==> plan[place_of(plan, phase)] == phase,
    decreases plan.len(),
{
    if plan.len() > 0 && plan[0] != phase {
        lemma_place(plan.drop_first(), phase);
    }
}

/// The receipts that are found for the phases of a plan, one for each phase or none.
pub open spec fn in_order(receipts: Seq<Option<PhaseReceipt>>) -> bool {
    forall|i: int, j: int|
        #![trigger receipts[i], receipts[j]]
        0 <= i < j < receipts.len() && receipts[j] is Some ==> receipts[i] is Some
}

/// A record comes from another by the receipts of a list, one after the other, up to the first that
/// is missing.
pub open spec fn follows(
    before: OperationRecord,
    after: OperationRecord,
    receipts: Seq<Option<PhaseReceipt>>,
    rollback_recovery: bool,
) -> bool
    decreases receipts.len(),
{
    if receipts.len() == 0 {
        after == before
    } else if receipts.last() is None {
        follows(before, after, receipts.drop_last(), rollback_recovery)
    } else {
        exists|between: OperationRecord|
            follows(before, between, receipts.drop_last(), rollback_recovery) && between.projection_fault(
                receipts.last()->0,
                rollback_recovery,
            ) is None && #[trigger] between.projects(after, receipts.last()->0, rollback_recovery)
    }
}

/// A receipt of a list is the first that cannot be projected: one before it is missing, or the record
/// that those before it lead to stands in its way.
pub open spec fn stops(
    before: OperationRecord,
    receipts: Seq<Option<PhaseReceipt>>,
    rollback_recovery: bool,
    error: DeployDriverError,
) -> bool {
    exists|count: int, between: OperationRecord|
        0 <= count < receipts.len() && receipts[count] is Some && in_order(receipts.take(count))
            && #[trigger] follows(before, between, receipts.take(count), rollback_recovery) && if (
        exists|k: int| 0 <= k < count && #[trigger] receipts[k] is None) {
            error is ReceiptOrder
        } else {
            between.projection_fault(receipts[count]->0, rollback_recovery) == Some(error)
        }
}

fn project_receipts(
    operation: OperationRecord,
    receipts: &Vec<Option<PhaseReceipt>>,
    rollback_recovery: bool,
) -> (r: Result<OperationRecord, DeployDriverError>)
    ensures
        match r {
            Ok(after) => in_order(receipts@) && follows(
                operation,
                after,
                receipts@,
                rollback_recovery,
            ),
            Err(error) => stops(operation, receipts@, rollback_recovery, error),
        },
{
    let ghost before = operation;
    let mut current = operation;
    let mut missing = false;
    let mut i: usize = 0;
    assert(receipts@.take(0) =~= Seq::empty());
    while i < receipts.len()
        invariant
            i <= receipts.len(),
            before == operation,
            follows(before, current, receipts@.take(i as int), rollback_recovery),
            !missing ==> forall|k: int| 0 <= k < i ==> #[trigger] receipts@[k] is Some,
            missing ==> exists|k: int| 0 <= k < i && #[trigger] receipts@[k] is None,
            forall|j: int, k: int|
                #![trigger receipts@[j], receipts@[k]]
                0 <= j < k < i && receipts@[k] is Some ==> receipts@[j] is Some,
        decreases receipts.len() - i,
    {
        let ghost so_far = receipts@.take(i + 1);
        let ghost reached = current;
        proof {
            assert(so_far.drop_last() =~= receipts@.take(i as int));
            assert(so_far.last() == receipts@[i as int]);
        }
        match &receipts[i] {
            None => {
                missing = true;
                assert(receipts@[i as int] is None);
            },
            Some(receipt) => {
                if missing {
                    assert(in_order(receipts@.take(i as int)));
                    assert(follows(before, reached, receipts@.take(i as int), rollback_recovery));
                    return Err(DeployDriverError::ReceiptOrder);
                }
                match current.project_deploy_receipt(receipt, rollback_recovery) {
                    Err(error) => {
                        assert(reached.projection_fault(receipts@[i as int]->0, rollback_recovery)
                            == Some(error));
                        assert(in_order(receipts@.take(i as int)));
                        assert(follows(before, reached, receipts@.take(i as int), rollback_recovery));
                        return Err(error);
                    },
                    Ok(after) => {
                        current = after;
                        assert(reached.projects(current, receipts@[i as int]->0, rollback_recovery));
                    },
                }
            },
        }
        i += 1;
    }
    assert(receipts@.take(i as int) =~= receipts@);
    Ok(current)
}

/// The receipts that are found for a deployment: those of its plan, when it was turned back, and
/// those of the way back.
#[derive(Debug)]
pub struct DeployReceipts {
    pub primary: Vec<Option<PhaseReceipt>>,
    pub takeover_at_ms: Option<i64>,
    pub rollback: Vec<Option<PhaseReceipt>>,
}

impl DeployReceipts {
    /// A record comes from another by what was found for it.
    pub open spec fn lead(self, before: OperationRecord, after: OperationRecord) -> bool {
        &&& in_order(self.primary@)
        &&& match self.takeover_at_ms {
            None => follows(before, after, self.primary@, false),
            Some(at_ms) => in_order(self.rollback@) && exists|deployed: OperationRecord, turned: OperationRecord|
                {
                    &&& #[trigger] follows(before, deployed, self.primary@, false)
                    &&& if deployed.evidence.recovery_mode is None {
                        deployed.rollback_projection_fault() is None && deployed.turns_back(turned, at_ms)
                    } else {
                        turned == deployed
                    }
                    &&& #[trigger] follows(turned, after, self.rollback@, true)
                },
        }
    }

    /// Why a record does not come from what was found for it: a receipt of its plan cannot be
    /// projected; or they all can, but the deployment that they lead to cannot be turned back, or a
    /// receipt of the way back cannot be projected.
    pub open spec fn refuses(self, before: OperationRecord, error: DeployDriverError) -> bool {
        ||| stops(before, self.primary@, false, error)
        ||| self.takeover_at_ms is Some && in_order(self.primary@) && exists|deployed: OperationRecord|
            #[trigger] follows(before, deployed, self.primary@, false) && if deployed.evidence.recovery_mode is Some {
                stops(deployed, self.rollback@, true, error)
            } else if deployed.rollback_projection_fault() is Some {
                deployed.rollback_projection_fault() == Some(error)
            } else {
                exists|turned: OperationRecord| #[trigger]
                    deployed.turns_back(turned, self.takeover_at_ms->0) && stops(
                        turned,
                        self.rollback@,
                        true,
                        error,
                    )
            }
    }
}

/// Brings a deployment to where its receipts say that it is.
pub fn project_existing_deploy_receipts(
    operation: OperationRecord,
    found: &DeployReceipts,
) -> (r: Result<
    OperationRecord,
    DeployDriverError,
>)
    ensures
        match r {
            Ok(after) => found.lead(operation, after),
            Err(error) => found.refuses(operation, error),
        },
{
    let deployed = match project_receipts(operation, &found.primary, false) {
        Err(error) => return Err(error),
        Ok(deployed) => deployed,
    };
    match found.takeover_at_ms {
        None => Ok(deployed),
        Some(at_ms) => {
            let ghost reached = deployed;
            let turned = if deployed.evidence.recovery_mode.is_none() {
                match deployed.begin_rollback_projection(at_ms) {
                    Err(error) => return Err(error),
                    Ok(turned) => turned,
                }
            } else {
                deployed
            };
            let ghost back = turned;
            proof {
                assert(follows(operation, reached, found.primary@, false));
                if reached.evidence.recovery_mode is None {
                    assert(reached.turns_back(back, at_ms));
                }
            }
            match project_receipts(turned, &found.rollback, true) {
                Err(error) => Err(error),
                Ok(after) => {
                    assert(follows(back, after, found.rollback@, true));
                    Ok(after)
                },
            }
        },
    }
}

/// Evidence that a deployment has gathered stays as it is, but for the health that the soak tells.
pub proof fn law_deploy_evidence_is_kept(
    before: OperationEvidence,
    after: OperationEvidence,
    artifacts: PhaseArtifacts,
    phase: OperationPhase,
    rollback_recovery: bool,
)
    requires
        before.deploy_gains(after, artifacts, phase, rollback_recovery),
    ensures
        before.authorized_phase_spec_digests@.is_prefix_of(after.authorized_phase_spec_digests@),
        after.installed_policy == before.installed_policy,
        after.source_attestation_digest == before.source_attestation_digest,
        after.source_sequence == before.source_sequence,
        kept(before.source_gate_proof_digest, after.source_gate_proof_digest),
        after.drain_evidence_digest == before.drain_evidence_digest,
        kept(before.source_export_digest, after.source_export_digest),
        kept(before.prefetch_evidence_digest, after.prefetch_evidence_digest),
        kept(before.ci_evidence_digest, after.ci_evidence_digest),
        kept(before.build_plan_digest, after.build_plan_digest),
        kept(before.deployment_plan_digest, after.deployment_plan_digest),
        kept(before.release_bundle_digest, after.release_bundle_digest),
        kept(before.resource_reservation_digest, after.resource_reservation_digest),
        kept(before.build_context_digest, after.build_context_digest),
        before.generated_output_digests@.len() > 0 ==> after.generated_output_digests@
            == before.generated_output_digests@,
        kept(before.image_digest, after.image_digest),
        kept(before.image_id_digest, after.image_id_digest),
        before.base_image_digests@.len() > 0 ==> after.base_image_digests@
            == before.base_image_digests@,
        after.schema_version == before.schema_version,
        after.backup_id == before.backup_id,
        after.backup_set_id == before.backup_set_id,
        after.base_backup_id == before.base_backup_id,
        after.base_backup_manifest_digest == before.base_backup_manifest_digest,
        after.base_backup_evidence_digest == before.base_backup_evidence_digest,
        after.base_backup_offsite_evidence_digest == before.base_backup_offsite_evidence_digest,
        after.base_backup_verification_digest == before.base_backup_verification_digest,
        after.cutover_backup_id == before.cutover_backup_id,
        after.cutover_backup_manifest_digest == before.cutover_backup_manifest_digest,
        after.cutover_backup_evidence_digest == before.cutover_backup_evidence_digest,
        after.cutover_backup_verification_digest == before.cutover_backup_verification_digest,
        kept(before.previous_release_bundle_digest, after.previous_release_bundle_digest),
        !(phase is Soaking) ==> kept(before.health_evidence_digest, after.health_evidence_digest),
        !(phase is Soaking) ==> kept(before.rollback_health_evidence_digest, after.rollback_health_evidence_digest),
        after.action_grant_digest == before.action_grant_digest,
        after.fencing_epoch == before.fencing_epoch,
        after.fence_acquisition_receipt_digest == before.fence_acquisition_receipt_digest,
        after.recovery_mode == before.recovery_mode,
        after.transitions == before.transitions,
        rollback_recovery ==> after.health_evidence_digest == before.health_evidence_digest,
        !rollback_recovery ==> after.rollback_health_evidence_digest
            == before.rollback_health_evidence_digest,
{
    assert(before.authorized_phase_spec_digests@.is_prefix_of(after.authorized_phase_spec_digests@));
}

/// A receipt is projected once: the phase that it is of is left by it, or the deployment ends, so
/// that the same receipt is foreign to the record that it leads to.
pub proof fn law_receipts_are_projected_once(
    before: OperationRecord,
    after: OperationRecord,
    receipt: PhaseReceipt,
    rollback_recovery: bool,
)
    requires
        before.projection_fault(receipt, rollback_recovery) is None,
        before.projects(after, receipt, rollback_recovery),
        before.operation_kind is Deploy,
    ensures
        after.foreign_receipt(receipt, rollback_recovery),
{
    let plan = before.followed_plan(rollback_recovery)->0;
    let at = place_of(plan, receipt.phase);
    lemma_place(plan, receipt.phase);
    if at + 1 < plan.len() {
        if rollback_recovery {
            assert(plan[0] != plan[1] && plan[1] != plan[2]);
        } else {
            lemma_plan_goes_on(before.release_class, at);
        }
        assert(plan[at + 1] != plan[at]);
    }
}

/// No phase of a deployment is followed by itself.
proof fn lemma_plan_goes_on(class: Option<crate::domain::operation::ReleaseClass>, at: int)
    requires
        OperationKind::Deploy.plan(class) is Some,
        0 <= at,
        at + 1 < OperationKind::Deploy.plan(class)->0.len(),
    ensures
        (OperationKind::Deploy.plan(class)->0)[at] != (OperationKind::Deploy.plan(class)->0)[at + 1],
{
}

} // verus!
