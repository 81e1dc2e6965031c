//! What holds of every deployment, from the mutation that was accepted to the release that it leaves.

use vstd::prelude::*;
use super::drive::{
    decide_after_check, DeployEvent, DeployJobAnswers, DeployJobDecision, DeployJobFailureV1,
    DeployRun, DeployStart, InstalledDeployOperationDriverV1, PendingDeployJobV1,
};
use super::phase_spec::{
    deploy_journal_plan, AuthorizedPhaseSpecV1, ClockRequestV1, PhaseSpecInputsV1,
    RuntimeReleaseStateV1,
};
use super::{
    candidate_to_load, needs_base_backup, AcceptedMutationV1, AuthorizationSource,
    BuildReleaseAttestationV1, DeployDriverError, InstalledDeployMutationPolicyV1,
    InstalledReleaseStateV1, InstalledRimgPolicyV1, PreparedInstalledDeploymentV1, ReleaseBundleV1,
    RuntimeBoundInstalledDeploymentV1, RuntimeCandidateArtifactsV1, VerifiedBackupChainV1,
};
use crate::controller::outcomes::same_attempt;
use crate::controller::transitions::{place_of, rollback_phases};
use crate::domain::artifacts::{ExecutorPhaseBranch, PhaseArtifacts, PhaseReceipt};
use crate::domain::identifiers::{digest_option, EvidenceDigest, GitCommitId};
use crate::domain::operation::{
    comes_before, OperationActor, OperationContractError, OperationKind,
    OperationRecoveryMode, ReleaseClass,
};
use crate::domain::record::{OperationEvidence, OperationRecord};
use crate::domain::states::OperationPhase;
use crate::executor::intent::PhaseIntent;
use crate::executor::phase_steps::{ExecutorPhasePlan, PhaseExecutionError};
use crate::executor::rules::EffectObservation;

verus! {

/// A candidate is loaded only for a deployment of code that migrates nothing, of the project and under
/// the policies that are installed, for which all that attests it was accepted; and what replaces a
/// release only where that one can be gone back to.
pub proof fn law_only_authorized_code_is_loaded(
    accepted: &AcceptedMutationV1,
    policy: InstalledDeployMutationPolicyV1,
    rimg: InstalledRimgPolicyV1,
    state: InstalledReleaseStateV1,
    target: &GitCommitId,
    backed_up: bool,
)
    requires
        call_ensures(
            candidate_to_load,
            (accepted, &policy, &rimg, &state),
            Ok::<&GitCommitId, DeployDriverError>(target),
        ),
        call_ensures(needs_base_backup, (accepted,), backed_up),
    ensures
        accepted.operation_kind is Deploy,
        accepted.effective_release_class == Some(ReleaseClass::CodeOnlyCompatible),
        accepted.migration_id is None,
        accepted.target_commit == Some(*target),
        accepted.source_attestation_digest is Some && accepted.source_sequence is Some,
        accepted.release_bundle_digest is Some && accepted.build_attestation_digest is Some,
        accepted.project_id@ == policy.project_id@ && policy.project_id@ == rimg.project_id@
            && rimg.project_id@ == state.project_id@,
        accepted.installed_policy_digest@ == policy.document_digest@,
        rimg.digest@ == policy.installed_rimg_policy_digest@,
        state.installed_rimg_policy_digest@ == rimg.digest@,
        rimg.installed_policy.same_as(policy.installed_policy),
        state.installed_policy.same_as(policy.installed_policy),
        rimg.bootstrap_with_declared_downtime,
        accepted.previous_release_bundle_digest is Some ==> rimg.stable_routing
            && rimg.automatic_code_rollback,
        backed_up <==> accepted.previous_release_bundle_digest is Some,
{
}

/// A deployment is prepared only of the candidate that was accepted, with its own attestation; and of
/// one that is not installed, over a release that is, only with a backup.
pub proof fn law_prepared_deployments_are_of_their_candidate(
    accepted: AcceptedMutationV1,
    policy: InstalledDeployMutationPolicyV1,
    rimg: InstalledRimgPolicyV1,
    state: InstalledReleaseStateV1,
    attestation: BuildReleaseAttestationV1,
    candidate: ReleaseBundleV1,
    current: Option<ReleaseBundleV1>,
    backup: Option<VerifiedBackupChainV1>,
    prepared: PreparedInstalledDeploymentV1,
)
    requires
        call_ensures(
            PreparedInstalledDeploymentV1::load,
            (accepted, policy, rimg, state, attestation, candidate, current, backup),
            Ok::<PreparedInstalledDeploymentV1, DeployDriverError>(prepared),
        ),
    ensures
        (accepted.release_bundle_digest->0)@ == candidate.digest@,
        (accepted.build_attestation_digest->0)@ == attestation.payload_digest@,
        (accepted.source_attestation_digest->0)@ == attestation.source_attestation_digest@,
        accepted.source_sequence == Some(attestation.source_sequence),
        (accepted.target_commit->0)@ == attestation.source_head@,
        candidate.project_id@ == accepted.project_id@,
        candidate.installed_policy.same_as(rimg.installed_policy),
        current matches Some(release) ==> release.digest@ != candidate.digest@ && backup is Some
            && state.current_release_bundle_digest is Some,
        current is None ==> backup is None && state.last_known_good_release_bundle_digest is None && (
        state.current_release_bundle_digest is None || (state.current_release_bundle_digest->0)@
            == candidate.digest@),
        prepared.accepted == accepted && prepared.candidate == candidate && prepared.current == current
            && prepared.base_backup_chain == backup && prepared.attestation == attestation
            && prepared.release_state == state && prepared.rimg_policy == rimg
            && prepared.mutation_policy == policy,
{
}

/// The operation of a prepared deployment is the first attempt at what was accepted, by whoever it was
/// granted to, and it stands at its beginning with nothing but what was accepted for evidence.
pub proof fn law_prepared_operations_begin_as_accepted(
    accepted: AcceptedMutationV1,
    policy: InstalledDeployMutationPolicyV1,
    rimg: InstalledRimgPolicyV1,
    state: InstalledReleaseStateV1,
    attestation: BuildReleaseAttestationV1,
    candidate: ReleaseBundleV1,
    current: Option<ReleaseBundleV1>,
    backup: Option<VerifiedBackupChainV1>,
    prepared: PreparedInstalledDeploymentV1,
)
    requires
        call_ensures(
            PreparedInstalledDeploymentV1::load,
            (accepted, policy, rimg, state, attestation, candidate, current, backup),
            Ok::<PreparedInstalledDeploymentV1, DeployDriverError>(prepared),
        ),
    ensures
        ({
            let operation = prepared.operation;
            let evidence = operation.evidence;
            &&& operation.operation_id == accepted.intent_id
            &&& operation.request_id == accepted.request_id
            &&& operation.attempt_id == accepted.attempt_id
            &&& operation.attempt_number == 1
            &&& operation.project_id == accepted.project_id
            &&& operation.operation_kind is Deploy
            &&& operation.target_commit == accepted.target_commit
            &&& operation.release_class == Some(ReleaseClass::CodeOnlyCompatible)
            &&& operation.state.phase is Queued && operation.state.result is Running
                && operation.state.blocking_reason is Unblocked
            &&& operation.actor == (OperationActor::Interactive { user_id: accepted.actor_id })
            &&& operation.failure_capsule is None
            &&& operation.created_at_ms == accepted.accepted_at_ms && operation.updated_at_ms
                == accepted.accepted_at_ms
            &&& evidence.installed_policy == Some(policy.installed_policy)
            &&& evidence.source_attestation_digest == accepted.source_attestation_digest
            &&& evidence.source_sequence == accepted.source_sequence
            &&& evidence.release_bundle_digest == Some(candidate.digest)
            &&& evidence.deployment_plan_digest == Some(candidate.deployment_plan_digest)
            &&& evidence.previous_release_bundle_digest == accepted.previous_release_bundle_digest
            &&& evidence.action_grant_digest == Some(accepted.action_grant_digest)
            &&& evidence.transitions@.len() == 0
            &&& evidence.recovery_mode is None
            &&& backup is None ==> evidence.base_backup_id is None && evidence.backup_set_id is None
            &&& backup matches Some(chain) ==> {
                &&& evidence.backup_set_id == Some(chain.backup_set_id)
                &&& evidence.base_backup_id == Some(chain.backup_id)
                &&& evidence.base_backup_manifest_digest == Some(chain.manifest_digest)
                &&& evidence.base_backup_evidence_digest == Some(chain.local_evidence_digest)
                &&& evidence.base_backup_offsite_evidence_digest == chain.offsite_evidence_digest
                &&& evidence.base_backup_verification_digest == Some(chain.chain_digest)
            }
        }),
{
}

/// What a deployment is authorized by is good for no longer than the grant and the intent, is of the
/// attempt and the project, and names the space that is reserved for it, which its operation records.
pub proof fn law_authorizations_end_with_their_grant(
    prepared: PreparedInstalledDeploymentV1,
    source: AuthorizationSource,
    artifacts: RuntimeCandidateArtifactsV1,
    now_ms: i64,
    bound: RuntimeBoundInstalledDeploymentV1,
)
    requires
        call_ensures(
            PreparedInstalledDeploymentV1::bind_runtime_reservation,
            (prepared, source, artifacts, now_ms),
            Ok::<RuntimeBoundInstalledDeploymentV1, DeployDriverError>(bound),
        ),
    ensures
        now_ms >= 0,
        bound.authorization.expires_at_ms <= prepared.accepted.grant_expires_at_ms,
        bound.authorization.expires_at_ms <= prepared.accepted.intent_expires_at_ms,
        bound.authorization.expires_at_ms == prepared.accepted.grant_expires_at_ms
            || bound.authorization.expires_at_ms == prepared.accepted.intent_expires_at_ms,
        bound.authorization.authorization_id == prepared.accepted.action_grant_nonce,
        bound.authorization.attempt_id == prepared.accepted.attempt_id,
        bound.authorization.project_id@ == prepared.accepted.project_id@,
        bound.authorization.reservation_digest is Some,
        source matches AuthorizationSource::Reserved { reservation_digest }
            ==> bound.authorization.reservation_digest == Some(reservation_digest),
        source matches AuthorizationSource::Stored(stored) ==> bound.authorization == stored,
        bound.prepared.operation.evidence.resource_reservation_digest
            == bound.authorization.reservation_digest,
        bound.prepared.operation.state == prepared.operation.state,
        bound.prepared.operation.evidence.transitions == prepared.operation.evidence.transitions,
        bound.prepared.candidate == prepared.candidate,
        bound.prepared.accepted == prepared.accepted,
        bound.artifacts == artifacts,
{
}

/// A phase that changes what runs is specified before it is carried out, a phase that does not is
/// carried out at once, and what has ended is cleaned up.
pub proof fn law_runs_begin_where_their_operation_stands(
    operation: OperationRecord,
    has_current: bool,
    run: DeployRun,
)
    requires
        call_ensures(DeployRun::begin, (operation, has_current), run),
    ensures
        run.operation == operation && run.has_current == has_current,
        run.step is CleanUp <==> !(operation.state.result is Running),
        run.step is EnsurePhaseSpec <==> operation.state.result is Running && (
        operation.state.phase is Deploying || operation.state.phase is HealthChecking
            || operation.state.phase is Soaking || operation.state.phase is Rollback),
        run.step is Execute || run.step is EnsurePhaseSpec || run.step is CleanUp,
{
}

/// The steps of a deployment follow each other: a phase is carried out only after it was specified,
/// the release is recorded only after the deployment was cleaned up without having been rolled back,
/// and as the first one only where none was installed.
pub proof fn law_deployments_go_step_by_step(
    run: DeployRun,
    event: DeployEvent,
    next: DeployRun,
)
    requires
        call_ensures(DeployRun::advance, (run, event), Ok::<DeployRun, DeployDriverError>(next)),
    ensures
        next.has_current == run.has_current,
        run.step is EnsurePhaseSpec ==> next.step is Execute && next.operation == run.operation,
        run.step is CleanUp && run.operation.state.result is RolledBack ==> next.step is Finished,
        run.step is CleanUp && !(run.operation.state.result is RolledBack) ==> if run.has_current {
            next.step is CommitInstalledRelease
        } else {
            next.step is CommitBootstrapRelease
        },
        run.step is CommitInstalledRelease || run.step is CommitBootstrapRelease
            ==> next.step is Finished,
        run.step is CleanUp || run.step is CommitInstalledRelease || run.step
            is CommitBootstrapRelease ==> next.operation == run.operation,
        !(run.step is Finished),
        next.step is Finished ==> run.step is CommitInstalledRelease || run.step
            is CommitBootstrapRelease || run.operation.state.result is RolledBack,
        run.step is Execute && !(next.step is TakeOver) ==> {
            &&& next.step is CleanUp <==> !(next.operation.state.result is Running)
            &&& next.step is EnsurePhaseSpec <==> next.operation.state.result is Running && (
            next.operation.state.phase is Deploying || next.operation.state.phase is HealthChecking
                || next.operation.state.phase is Soaking || next.operation.state.phase is Rollback)
        },
{
}

/// A deployment whose release does not hold turns back, if there is a release to go back to and it has
/// not turned back yet; whatever else fails is told as it failed, and changes nothing.
pub proof fn law_failing_releases_turn_back(
    run: DeployRun,
    error: PhaseExecutionError,
    r: Result<DeployRun, DeployDriverError>,
)
    requires
        run.step is Execute,
        call_ensures(DeployRun::advance, (run, DeployEvent::Executed(Err(error))), r),
    ensures
        r is Ok <==> run.has_current && run.operation.evidence.recovery_mode is None && (
        run.operation.state.phase is HealthChecking || run.operation.state.phase is Soaking),
        r matches Ok(next) ==> next.step is TakeOver && next.operation == run.operation,
        r matches Err(told) ==> told == DeployDriverError::Phase(error),
{
}

/// Turning back leads to the rollback, of the same attempt, and only from a release that is being
/// watched and that has one before it.
pub proof fn law_rollbacks_begin_from_a_watched_release(
    operation: OperationRecord,
    at_ms: i64,
    r: Result<OperationRecord, DeployDriverError>,
)
    requires
        call_ensures(OperationRecord::begin_rollback_projection, (operation, at_ms), r),
    ensures
        r matches Ok(after) ==> {
            &&& after.state.phase is Rollback && after.state.result is Running
                && after.state.blocking_reason is Unblocked
            &&& after.evidence.recovery_mode == Some(OperationRecoveryMode::Rollback)
            &&& after.updated_at_ms == at_ms
            &&& same_attempt(operation, after)
            &&& after.evidence.transitions@.len() == operation.evidence.transitions@.len() + 1
            &&& operation.evidence.previous_release_bundle_digest is Some
            &&& operation.state.phase is HealthChecking || operation.state.phase is Soaking
            &&& operation.state.result is Running
        },
        operation.state.result is Running && operation.evidence.previous_release_bundle_digest is Some
            && (operation.state.phase is HealthChecking || operation.state.phase is Soaking)
            && operation.evidence.transitions@.len() < u32::MAX ==> r is Ok,
        r == Err::<OperationRecord, _>(DeployDriverError::RollbackBinding) <==> !(
        operation.state.result is Running && operation.evidence.previous_release_bundle_digest is Some
            && (operation.state.phase is HealthChecking || operation.state.phase is Soaking)),
{
}

/// A receipt is taken only by the running attempt that it is of, in its phase and on its branch, and
/// leads it to the phase that stands behind it in its plan. The last one ends it: as a success, or as
/// rolled back where it had turned back.
#[verifier::rlimit(30)]
pub proof fn law_deploy_receipts_lead_along_the_plan(
    operation: OperationRecord,
    receipt: PhaseReceipt,
    back: bool,
    plan: Vec<OperationPhase>,
    after: OperationRecord,
)
    requires
        call_ensures(
            OperationKind::required_phases,
            (operation.operation_kind, operation.release_class),
            Ok::<Vec<OperationPhase>, OperationContractError>(plan),
        ),
        call_ensures(
            OperationRecord::project_deploy_receipt,
            (operation, &receipt, back),
            Ok::<OperationRecord, DeployDriverError>(after),
        ),
    ensures
        receipt.attempt_id == operation.attempt_id,
        receipt.phase == operation.state.phase,
        receipt.branch == if back {
            ExecutorPhaseBranch::RollbackRecovery
        } else {
            ExecutorPhaseBranch::Primary
        },
        operation.state.result is Running,
        same_attempt(operation, after),
        after.updated_at_ms == receipt.committed_at_ms,
        after.state.blocking_reason is Unblocked,
        after.evidence.transitions@.len() == operation.evidence.transitions@.len() + 1,
        after.evidence.recovery_mode == operation.evidence.recovery_mode,
        !back ==> plan@.contains(receipt.phase),
        !back ==> if receipt.phase == plan@.last() {
            after.state.result is Succeeded && after.state.phase == receipt.phase
        } else {
            after.state.result is Running && comes_before(plan@, receipt.phase, after.state.phase)
        },
        back ==> match receipt.phase {
            OperationPhase::Rollback => after.state.phase is HealthChecking
                && after.state.result is Running,
            OperationPhase::HealthChecking => after.state.phase is Soaking
                && after.state.result is Running,
            OperationPhase::Soaking => after.state.phase is Soaking
                && after.state.result is RolledBack,
            _ => false,
        },
{
    let gained = choose|gained: OperationEvidence| #[trigger]
        operation.evidence.deploy_gains(gained, receipt.artifacts, receipt.phase, back) && (
        OperationRecord { evidence: gained, ..operation }).moves(
            after,
            OperationRecord::deploy_state_after(
                operation.followed_plan(back)->0,
                place_of(operation.followed_plan(back)->0, receipt.phase),
                back,
            ),
            Some(receipt.receipt_digest),
            receipt.committed_at_ms,
        );
    crate::domain::operation::law_plans_progress(operation.operation_kind, operation.release_class);
    crate::controller::outcomes::lemma_next_place(plan@, receipt.phase);
    let rollback = rollback_phases();
    reveal_with_fuel(place_of, 4);
    assert(rollback.drop_first()[0] == rollback[1]);
    assert(rollback.drop_first().drop_first()[0] == rollback[2]);
}

/// What has ended is told as ended only where the installed release bears it out: the candidate after
/// a success, the release before it after a rollback. A candidate that is installed without a success
/// is an error.
pub proof fn law_ends_are_borne_out_by_the_release<S, R, D, E, C>(
    driver: InstalledDeployOperationDriverV1<S, R, D, E, C>,
    prepared: PreparedInstalledDeploymentV1,
    projected: OperationRecord,
    start: Result<DeployStart, DeployDriverError>,
    committed: Result<bool, DeployDriverError>,
)
    requires
        call_ensures(
            InstalledDeployOperationDriverV1::<S, R, D, E, C>::drive_accepted,
            (&driver, &prepared, projected),
            start,
        ),
        call_ensures(
            InstalledDeployOperationDriverV1::<S, R, D, E, C>::has_committed_terminal,
            (&driver, &prepared, &projected),
            committed,
        ),
    ensures
        ({
            let installed = digest_option(prepared.release_state.current_release_bundle_digest);
            &&& start matches Ok(DeployStart::Ended(operation)) ==> {
                &&& operation == projected
                &&& operation.state.result is Succeeded || operation.state.result is RolledBack
                &&& operation.state.result is Succeeded ==> installed == Some(
                    prepared.candidate.digest@,
                )
                &&& operation.state.result is RolledBack ==> installed == digest_option(
                    prepared.accepted.previous_release_bundle_digest,
                )
            }
            &&& start == Ok::<DeployStart, DeployDriverError>(DeployStart::Proceed) ==> installed
                != Some(prepared.candidate.digest@)
            &&& installed != Some(prepared.candidate.digest@) ==> start is Ok && committed is Ok
            &&& projected.state.result is Running && installed == Some(prepared.candidate.digest@)
                ==> start == Err::<DeployStart, _>(
                DeployDriverError::ReleaseStateWithoutTerminalReceipt,
            ) && committed == Err::<bool, _>(DeployDriverError::ReleaseStateWithoutTerminalReceipt)
            &&& committed == Ok::<bool, DeployDriverError>(true) ==> projected.state.result
                is Succeeded || projected.state.result is RolledBack
            &&& projected.state.result is Running ==> committed != Ok::<bool, DeployDriverError>(true)
        }),
{
}

/// A job is left alone if it deploys nothing, looked into first if it seems to have ended, and driven
/// otherwise; after the look it is driven unless it has ended or the look failed.
pub proof fn law_jobs_are_driven_until_they_end(
    job: PendingDeployJobV1,
    first: DeployJobDecision,
    committed: Result<bool, DeployDriverError>,
    second: DeployJobDecision,
)
    requires
        call_ensures(PendingDeployJobV1::decide, (&job,), first),
        call_ensures(decide_after_check, (committed,), second),
    ensures
        first is Skip <==> !(job.accepted.operation_kind is Deploy),
        first is CheckTerminal <==> job.accepted.operation_kind is Deploy
            && job.has_terminal_receipt,
        first is Drive <==> job.accepted.operation_kind is Deploy && !job.has_terminal_receipt,
        second is Drive <==> committed == Ok::<bool, DeployDriverError>(false),
        second is Skip <==> committed == Ok::<bool, DeployDriverError>(true),
        committed matches Err(error) ==> second == DeployJobDecision::Fail(error),
{
}

/// A job has a terminal receipt if it soaked, forward or back.
pub proof fn law_soaked_jobs_have_ended(
    accepted: AcceptedMutationV1,
    soaked: Option<PhaseReceipt>,
    soaked_back: Option<PhaseReceipt>,
    job: PendingDeployJobV1,
)
    requires
        call_ensures(
            PendingDeployJobV1::from_receipts,
            (accepted, &soaked, &soaked_back),
            job,
        ),
    ensures
        job.accepted == accepted,
        !job.has_terminal_receipt <==> soaked is None && soaked_back is None,
{
}

/// A job fails for what was answered, as itself, and only then.
pub proof fn law_jobs_fail_as_answered(
    job: PendingDeployJobV1,
    answers: DeployJobAnswers,
    r: Option<DeployJobFailureV1>,
)
    requires
        call_ensures(PendingDeployJobV1::settle, (&job, answers), r),
    ensures
        r matches Some(failure) ==> failure.intent_id == job.accepted.intent_id && failure.attempt_id
            == job.accepted.attempt_id,
        r is Some <==> (answers.committed matches Some(Err(_))) || (answers.driven matches Some(
            Err(_),
        )),
        (answers.committed matches Some(Err(error))) ==> r is Some && Some(
            Err::<bool, _>(r->0.error),
        ) == answers.committed,
        (answers.driven matches Some(Err(error))) && !(answers.committed matches Some(Err(_)))
            ==> r is Some && Some(Err::<(), _>(r->0.error)) == answers.driven,
{
    match r {
        Some(failure) => {
            assert(job.left_by(answers)[0] == failure);
        },
        None => {
            assert(job.left_by(answers).len() == 0);
        },
    }
}

/// What is specified for a phase that deploys leads from the release that is installed to the
/// candidate, and what is specified for a rollback leads back: from the candidate to that release.
/// Nothing migrates on either way. Only the phase that deploys looks at what is running, for a minute.
pub proof fn law_rollbacks_are_specified_backwards(
    prepared: PreparedInstalledDeploymentV1,
    forward: PhaseIntent,
    back: PhaseIntent,
    now_ms: i64,
    there: PhaseSpecInputsV1,
    again: PhaseSpecInputsV1,
)
    requires
        call_ensures(
            PreparedInstalledDeploymentV1::deploy_phase_spec,
            (&prepared, &forward, now_ms),
            Ok::<PhaseSpecInputsV1, DeployDriverError>(there),
        ),
        call_ensures(
            PreparedInstalledDeploymentV1::rollback_phase_spec,
            (&prepared, &back),
            Ok::<PhaseSpecInputsV1, DeployDriverError>(again),
        ),
    ensures
        prepared.current is Some,
        there.inspection.candidate_bundle_digest == prepared.candidate.digest,
        there.inspection.current_bundle_digest == Some(again.inspection.candidate_bundle_digest),
        again.inspection.current_bundle_digest == Some(there.inspection.candidate_bundle_digest),
        there.evaluation.current_schema_version == Some(again.evaluation.candidate_schema_version),
        again.evaluation.current_schema_version == Some(there.evaluation.candidate_schema_version),
        there.evaluation.contract_digest == again.evaluation.contract_digest,
        there.evaluation.satisfied && again.evaluation.satisfied,
        there.evaluation.migration_id is None && again.evaluation.migration_id is None,
        there.inspection.migration_id is None && again.inspection.migration_id is None,
        there.inspection.migration_plan_digest is None && again.inspection.migration_plan_digest
            is None,
        there.runtime is Some <==> forward.phase is Deploying,
        there.boundary_now_ms is Some <==> forward.phase is Deploying,
        there.runtime matches Some(runtime) ==> {
            &&& there.boundary_now_ms == Some(now_ms)
            &&& runtime.attempt_id == forward.attempt_id
            &&& runtime.project_id == forward.project_id
            &&& runtime.phase_intent_digest == forward.digest
            &&& runtime.valid_until_ms == now_ms + 30_000
            &&& runtime.state matches RuntimeReleaseStateV1::Installed {
                current_release_bundle_digest,
            } && current_release_bundle_digest == (prepared.current->0).digest
        },
        there.with_base_backup_chain <==> forward.phase is Deploying
            && prepared.base_backup_chain is Some,
        again.runtime is None && again.boundary_now_ms is None && !again.with_base_backup_chain,
{
}

/// A specification that is stored is taken only by the operation, the phase and the branch that it is
/// of, for the installed policy and for the candidate and its plan: as code only, or as a rollback on
/// the branch that goes back.
pub proof fn law_stored_specs_are_of_their_phase(
    prepared: PreparedInstalledDeploymentV1,
    operation: OperationRecord,
    intent: PhaseIntent,
    stored: AuthorizedPhaseSpecV1,
    now_ms: i64,
    r: Result<Option<PhaseSpecInputsV1>, DeployDriverError>,
)
    requires
        call_ensures(
            PreparedInstalledDeploymentV1::ensure_deploy_phase_spec,
            (&prepared, &operation, &intent, &Some(stored), now_ms),
            r,
        ),
    ensures
        r is Err ==> r->Err_0 is PhaseSpecBinding,
        r matches Ok(inputs) ==> inputs is None,
        r is Ok <==> {
            &&& stored.attempt_id == operation.attempt_id
            &&& stored.project_id@ == operation.project_id@
            &&& stored.phase == operation.state.phase
            &&& stored.branch == intent.branch
            &&& stored.intent_digest@ == intent.digest@
            &&& stored.installed_rimg_policy_digest@ == prepared.rimg_policy.digest@
            &&& stored.release_bundle_digest is Some && (stored.release_bundle_digest->0)@
                == prepared.candidate.digest@
            &&& stored.deployment_plan_digest is Some && (stored.deployment_plan_digest->0)@
                == prepared.candidate.deployment_plan_digest@
            &&& intent.branch is RollbackRecovery ==> stored.effective_release_class == Some(
                ReleaseClass::Rollback,
            )
            &&& !(intent.branch is RollbackRecovery) ==> stored.effective_release_class == Some(
                ReleaseClass::CodeOnlyCompatible,
            )
        },
{
}

/// What is not stored is specified as its branch asks: backwards on the branch that goes back,
/// forward otherwise.
pub proof fn law_missing_specs_are_made_for_their_branch(
    prepared: PreparedInstalledDeploymentV1,
    operation: OperationRecord,
    intent: PhaseIntent,
    now_ms: i64,
    inputs: PhaseSpecInputsV1,
)
    requires
        call_ensures(
            PreparedInstalledDeploymentV1::ensure_deploy_phase_spec,
            (&prepared, &operation, &intent, &None::<AuthorizedPhaseSpecV1>, now_ms),
            Ok::<Option<PhaseSpecInputsV1>, DeployDriverError>(Some(inputs)),
        ),
    ensures
        intent.branch is RollbackRecovery ==> prepared.current is Some
            && inputs.inspection.candidate_bundle_digest == (prepared.current->0).digest
            && inputs.inspection.current_bundle_digest == Some(prepared.candidate.digest),
        !(intent.branch is RollbackRecovery) ==> inputs.inspection.candidate_bundle_digest
            == prepared.candidate.digest && (inputs.inspection.current_bundle_digest is Some
            <==> prepared.current is Some),
{
}

/// The clock is asked only before code is deployed, with the program that the policy names.
pub proof fn law_clocks_are_asked_before_deploying(
    prepared: PreparedInstalledDeploymentV1,
    intent: PhaseIntent,
    now_ms: i64,
    r: Option<ClockRequestV1>,
)
    requires
        call_ensures(
            PreparedInstalledDeploymentV1::clock_request,
            (&prepared, &intent, now_ms),
            r,
        ),
    ensures
        r is Some <==> intent.phase is Deploying,
        r matches Some(request) ==> request.program_digest == prepared.mutation_policy.chronyc_sha256
            && request.boundary_now_ms == now_ms,
{
}

/// The journal of a deployment follows the plan of its operation, and may leave it for a rollback.
pub proof fn law_journals_follow_their_plan(
    operation: OperationRecord,
    plan: Result<Vec<OperationPhase>, OperationContractError>,
    journal: Result<ExecutorPhasePlan, DeployDriverError>,
)
    requires
        call_ensures(
            OperationKind::required_phases,
            (operation.operation_kind, operation.release_class),
            plan,
        ),
        call_ensures(deploy_journal_plan, (&operation,), journal),
    ensures
        plan is Ok <==> journal is Ok,
        journal matches Ok(followed) ==> followed.ordered_phases@ == plan->Ok_0@
            && followed.may_roll_back,
{
}

/// What a candidate shows of itself is shown for the phases up to the preflight only, under the intent
/// that it was asked for, and with its own artifacts: of its tests when it was tested, of its build
/// when it was built, of its preflight then, and with none before.
pub proof fn law_candidates_show_what_they_have(
    artifacts: RuntimeCandidateArtifactsV1,
    intent: PhaseIntent,
    r: Result<EffectObservation, crate::executor::phase_steps::ExternalEffectError>,
)
    requires
        call_ensures(
            RuntimeCandidateArtifactsV1::candidate_observation,
            (&artifacts, &intent),
            r,
        ),
    ensures
        r is Ok ==> match intent.phase {
            OperationPhase::Queued
            | OperationPhase::SyncingSource
            | OperationPhase::VerifyingSource
            | OperationPhase::Testing
            | OperationPhase::Building
            | OperationPhase::Preflight => true,
            _ => false,
        },
        r is Err ==> r->Err_0 is ConflictingState,
        r matches Ok(observation) ==> (observation matches EffectObservation::Applied(evidence) && {
            &&& evidence.intent_digest == intent.digest
            &&& intent.phase is Testing ==> evidence.artifacts.same_as(artifacts.testing)
            &&& intent.phase is Building ==> evidence.artifacts.same_as(artifacts.building)
            &&& intent.phase is Preflight ==> evidence.artifacts.same_as(artifacts.preflight)
            &&& intent.phase is Queued || intent.phase is SyncingSource || intent.phase
                is VerifyingSource ==> evidence.artifacts.empty()
        }),
{
}

/// Two digests are known of one thing, and they are not the same.
pub open spec fn contradicts(known: Option<EvidenceDigest>, told: Option<EvidenceDigest>) -> bool {
    known is Some && told is Some && (known->0)@ != (told->0)@
}

/// What is known of a thing, once more is told of it: what was known, or else what was told.
pub open spec fn gathered(
    known: Option<EvidenceDigest>,
    told: Option<EvidenceDigest>,
    after: Option<EvidenceDigest>,
) -> bool {
    &&& !contradicts(known, told)
    &&& known is Some ==> after == known
    &&& known is None ==> after == told
}

/// Each piece of evidence of a deployment is gathered under its own name, the health under that of the
/// release that it is told of, and it is refused for nothing but a contradiction. What the soak tells
/// of the health stands, whatever was known.
pub proof fn law_deploy_evidence_is_gathered_under_its_name(
    known: OperationEvidence,
    artifacts: PhaseArtifacts,
    phase: OperationPhase,
    rollback: bool,
    r: Result<OperationEvidence, DeployDriverError>,
)
    requires
        call_ensures(
            OperationEvidence::merge_deploy_artifacts,
            (known, &artifacts, phase, rollback),
            r,
        ),
    ensures
        r matches Ok(after) ==> {
            &&& gathered(known.source_gate_proof_digest, artifacts.source_gate_proof_digest, after.source_gate_proof_digest)
            &&& gathered(known.source_export_digest, artifacts.source_export_digest, after.source_export_digest)
            &&& gathered(known.prefetch_evidence_digest, artifacts.prefetch_evidence_digest, after.prefetch_evidence_digest)
            &&& gathered(known.ci_evidence_digest, artifacts.ci_evidence_digest, after.ci_evidence_digest)
            &&& gathered(known.build_plan_digest, artifacts.build_plan_digest, after.build_plan_digest)
            &&& gathered(known.deployment_plan_digest, artifacts.deployment_plan_digest, after.deployment_plan_digest)
            &&& gathered(known.release_bundle_digest, artifacts.release_bundle_digest, after.release_bundle_digest)
            &&& gathered(known.resource_reservation_digest, artifacts.resource_reservation_digest, after.resource_reservation_digest)
            &&& gathered(known.build_context_digest, artifacts.build_context_digest, after.build_context_digest)
            &&& gathered(known.image_digest, artifacts.image_digest, after.image_digest)
            &&& gathered(known.image_id_digest, artifacts.image_id_digest, after.image_id_digest)
            &&& known.generated_output_digests@.len() == 0 ==> after.generated_output_digests@
                == artifacts.generated_output_digests@
            &&& known.generated_output_digests@.len() > 0 ==> after.generated_output_digests@
                == known.generated_output_digests@
            &&& known.base_image_digests@.len() == 0 ==> after.base_image_digests@
                == artifacts.base_image_digests@
            &&& known.base_image_digests@.len() > 0 ==> after.base_image_digests@
                == known.base_image_digests@
            &&& rollback ==> after.health_evidence_digest == known.health_evidence_digest
            &&& !rollback ==> after.rollback_health_evidence_digest
                == known.rollback_health_evidence_digest
            &&& rollback && !(phase is Soaking) ==> gathered(
                known.rollback_health_evidence_digest,
                artifacts.health_evidence_digest,
                after.rollback_health_evidence_digest,
            )
            &&& !rollback && !(phase is Soaking) ==> gathered(
                known.health_evidence_digest,
                artifacts.health_evidence_digest,
                after.health_evidence_digest,
            )
            &&& phase is Soaking && artifacts.health_evidence_digest is Some ==> (if rollback {
                after.rollback_health_evidence_digest
            } else {
                after.health_evidence_digest
            }) == artifacts.health_evidence_digest
            &&& artifacts.authorized_phase_spec_digest is None
                ==> after.authorized_phase_spec_digests@ == known.authorized_phase_spec_digests@
            &&& known.authorized_phase_spec_digests@.is_prefix_of(
                after.authorized_phase_spec_digests@,
            )
        },
        r is Err && artifacts.authorized_phase_spec_digest is None
            && artifacts.generated_output_digests@.len() == 0 && artifacts.base_image_digests@.len()
            == 0 ==> {
            ||| contradicts(known.source_gate_proof_digest, artifacts.source_gate_proof_digest)
            ||| contradicts(known.source_export_digest, artifacts.source_export_digest)
            ||| contradicts(known.prefetch_evidence_digest, artifacts.prefetch_evidence_digest)
            ||| contradicts(known.ci_evidence_digest, artifacts.ci_evidence_digest)
            ||| contradicts(known.build_plan_digest, artifacts.build_plan_digest)
            ||| contradicts(known.deployment_plan_digest, artifacts.deployment_plan_digest)
            ||| contradicts(known.release_bundle_digest, artifacts.release_bundle_digest)
            ||| contradicts(known.resource_reservation_digest, artifacts.resource_reservation_digest)
            ||| contradicts(known.build_context_digest, artifacts.build_context_digest)
            ||| contradicts(known.image_digest, artifacts.image_digest)
            ||| contradicts(known.image_id_digest, artifacts.image_id_digest)
            ||| !(phase is Soaking) && rollback && contradicts(
                known.rollback_health_evidence_digest,
                artifacts.health_evidence_digest,
            )
            ||| !(phase is Soaking) && !rollback && contradicts(
                known.health_evidence_digest,
                artifacts.health_evidence_digest,
            )
        },
{
}

} // verus!
