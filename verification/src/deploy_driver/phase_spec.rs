//! What a privileged phase of a deployment is authorized by.

use vstd::prelude::*;
use super::{is_digest, DeployDriverError, PreparedInstalledDeploymentV1};
use crate::controller::StoreError;
use crate::domain::artifacts::ExecutorPhaseBranch;
use crate::domain::identifiers::{
    digest_document,
    digest_option,
    document_digest,
    EvidenceDigest,
    ProjectId,
};
use crate::domain::operation::{InstalledPolicyIdentity, OperationContractError, ReleaseClass};
use crate::domain::record::OperationRecord;
use crate::domain::states::OperationPhase;
use crate::executor::intent::PhaseIntent;
use crate::executor::phase_steps::ExecutorPhasePlan;
use crate::json::{json_array, json_string, JsonArray};
use crate::unique_id::Uuid;

verus! {

/// How long an observation of the installed release is good for.
pub const RUNTIME_OBSERVATION_TTL_MS: i64 = 30_000;

/// Some texts as a document: an array of strings.
pub open spec fn texts_json(texts: Seq<Seq<char>>) -> Seq<char> {
    json_array(texts.map_values(|text: Seq<char>| json_string(text)))
}

/// The digest of some texts as a document.
fn digest_of_texts(texts: &[&str]) -> (r: Result<EvidenceDigest, DeployDriverError>)
    ensures
        match r {
            Ok(digest) => document_digest(texts_json(texts@.map_values(|text: &str| text@))) == Some(
                digest@,
            ),
            Err(error) => error is Encoding && document_digest(
                texts_json(texts@.map_values(|text: &str| text@)),
            ) is None,
        },
{
    let ghost views = texts@.map_values(|text: &str| text@);
    let mut array = JsonArray::new();
    let mut i: usize = 0;
    assert(array@ =~= views.take(0).map_values(|text: Seq<char>| json_string(text)));
    while i < texts.len()
        invariant
            i <= texts.len(),
            array.wf(),
            views == texts@.map_values(|text: &str| text@),
            array@ == views.take(i as int).map_values(|text: Seq<char>| json_string(text)),
        decreases texts.len() - i,
    {
        array.text(texts[i]);
        i += 1;
        assert(array@ =~= views.take(i as int).map_values(|text: Seq<char>| json_string(text)));
    }
    assert(views.take(i as int) =~= views);
    let text = array.finish();
    match digest_document(text.as_str()) {
        Ok(digest) => Ok(digest),
        Err(_) => Err(DeployDriverError::Encoding),
    }
}

/// Whether the data of one schema fits another.
#[derive(Debug)]
pub struct SchemaEvaluationV1 {
    pub current_schema_version: Option<String>,
    pub candidate_schema_version: String,
    /// The migration between the schemas.
    pub migration_id: Option<String>,
    /// The data fits.
    pub satisfied: bool,
    pub contract_digest: EvidenceDigest,
    pub observation_digest: EvidenceDigest,
    pub evaluated_at_ms: i64,
}

/// Which releases the schemas are of.
#[derive(Debug)]
pub struct SchemaInspectionV1 {
    pub current_bundle_digest: Option<EvidenceDigest>,
    pub candidate_bundle_digest: EvidenceDigest,
    pub migration_id: Option<String>,
    pub migration_plan_digest: Option<EvidenceDigest>,
    pub observation_digest: EvidenceDigest,
    pub inspected_at_ms: i64,
}

/// What the trusted clock is asked: by which program, and for which time.
#[derive(Debug)]
pub struct ClockRequestV1 {
    pub program_digest: EvidenceDigest,
    pub boundary_now_ms: i64,
}

/// What is installed when a deployment begins.
#[derive(Debug)]
pub enum RuntimeReleaseStateV1 {
    NeverInstalled,
    Installed { current_release_bundle_digest: EvidenceDigest },
}

/// An observation of what is installed, for one intent and for a short time.
#[derive(Debug)]
pub struct RuntimeReleaseStateEvidenceV1 {
    pub attempt_id: Uuid,
    pub project_id: ProjectId,
    pub installed_policy: InstalledPolicyIdentity,
    pub phase_intent_digest: EvidenceDigest,
    pub state: RuntimeReleaseStateV1,
    pub valid_until_ms: i64,
    pub observation_digest: EvidenceDigest,
}

/// What the specification of a phase is made from.
#[derive(Debug)]
pub struct PhaseSpecInputsV1 {
    pub evaluation: SchemaEvaluationV1,
    pub inspection: SchemaInspectionV1,
    /// What is installed, seen at a trusted time. Only the phase that deploys needs it.
    pub runtime: Option<RuntimeReleaseStateEvidenceV1>,
    pub boundary_now_ms: Option<i64>,
    /// The backup of the deployment is a prerequisite.
    pub with_base_backup_chain: bool,
}

/// The specification of a phase that was authorized before.
#[derive(Debug)]
pub struct AuthorizedPhaseSpecV1 {
    pub attempt_id: Uuid,
    pub project_id: ProjectId,
    pub phase: OperationPhase,
    pub branch: ExecutorPhaseBranch,
    pub intent_digest: EvidenceDigest,
    pub installed_rimg_policy_digest: EvidenceDigest,
    pub release_bundle_digest: Option<EvidenceDigest>,
    pub deployment_plan_digest: Option<EvidenceDigest>,
    pub effective_release_class: Option<ReleaseClass>,
}

impl PhaseSpecInputsV1 {
    /// The data of one schema fits the other, and no migration stands between them.
    pub open spec fn compatible(self) -> bool {
        &&& self.evaluation.satisfied
        &&& self.evaluation.migration_id is None
        &&& self.inspection.migration_id is None
        &&& self.inspection.migration_plan_digest is None
    }
}

impl PreparedInstalledDeploymentV1 {
    /// What the trusted clock is asked before a phase of the deployment itself is authorized. Only the
    /// phase that deploys needs a trusted time, which the installed program gives.
    pub fn clock_request(&self, intent: &PhaseIntent, boundary_now_ms: i64) -> (r: Option<
        ClockRequestV1,
    >)
        ensures
            match r {
                Some(request) => {
                    &&& intent.phase is Deploying
                    &&& request.program_digest == self.mutation_policy.chronyc_sha256
                    &&& request.boundary_now_ms == boundary_now_ms
                },
                None => !(intent.phase is Deploying),
            },
    {
        if intent.phase != OperationPhase::Deploying {
            return None;
        }
        Some(
            ClockRequestV1 {
                program_digest: self.mutation_policy.chronyc_sha256.clone(),
                boundary_now_ms,
            },
        )
    }

    /// What the phases of the deployment itself are authorized by: the schema of the candidate
    /// against that of what is installed.
    pub open spec fn deploy_inputs(
        self,
        intent: PhaseIntent,
        boundary_now_ms: i64,
        inputs: PhaseSpecInputsV1,
    ) -> bool {
        &&& inputs.compatible()
        &&& inputs.evaluation.current_schema_version == match self.current {
            Some(current) => Some(current.application_schema_version),
            None => None,
        }
        &&& inputs.evaluation.candidate_schema_version == self.candidate.application_schema_version
        &&& inputs.evaluation.contract_digest == self.rimg_policy.schema_contract_digest
        &&& inputs.evaluation.observation_digest
            == self.attestation.data_compatibility_observation_digest
        &&& inputs.evaluation.evaluated_at_ms == self.accepted.accepted_at_ms
        &&& inputs.inspection.current_bundle_digest == match self.current {
            Some(current) => Some(current.digest),
            None => None,
        }
        &&& inputs.inspection.candidate_bundle_digest == self.candidate.digest
        &&& document_digest(self.deploy_inspection_json(intent)) == Some(
            inputs.inspection.observation_digest@,
        )
        &&& inputs.inspection.inspected_at_ms == self.accepted.accepted_at_ms
        &&& inputs.with_base_backup_chain == (intent.phase is Deploying
            && self.base_backup_chain is Some)
        &&& if intent.phase is Deploying {
            &&& inputs.boundary_now_ms == Some(boundary_now_ms)
            &&& inputs.runtime matches Some(runtime) && {
                &&& runtime.attempt_id == intent.attempt_id
                &&& runtime.project_id == intent.project_id
                &&& runtime.installed_policy == self.rimg_policy.installed_policy
                &&& runtime.phase_intent_digest == intent.digest
                &&& runtime.state == match self.current {
                    Some(current) => RuntimeReleaseStateV1::Installed {
                        current_release_bundle_digest: current.digest,
                    },
                    None => RuntimeReleaseStateV1::NeverInstalled,
                }
                &&& runtime.valid_until_ms == boundary_now_ms + RUNTIME_OBSERVATION_TTL_MS
                &&& document_digest(self.runtime_json(intent)) == Some(runtime.observation_digest@)
            }
        } else {
            inputs.boundary_now_ms is None && inputs.runtime is None
        }
    }

    pub open spec fn deploy_inspection_json(self, intent: PhaseIntent) -> Seq<char> {
        texts_json(
            Seq::<Seq<char>>::empty().push("rdashboard.bootstrap-schema-inspection.v1"@).push(
                intent.digest@,
            ).push(self.attestation.payload_digest@),
        )
    }

    pub open spec fn runtime_json(self, intent: PhaseIntent) -> Seq<char> {
        texts_json(
            Seq::<Seq<char>>::empty().push(
                "rdashboard.installed-release-state-observation.v1"@,
            ).push(self.release_state.document_digest@).push(intent.digest@),
        )
    }

    /// What keeps a phase of the deployment itself from being authorized.
    pub open spec fn deploy_spec_fault(self, intent: PhaseIntent, boundary_now_ms: i64) -> Option<
        DeployDriverError,
    > {
        if document_digest(self.deploy_inspection_json(intent)) is None {
            Some(DeployDriverError::Encoding)
        } else if !(intent.phase is Deploying) {
            None
        } else if boundary_now_ms + RUNTIME_OBSERVATION_TTL_MS > i64::MAX {
            Some(DeployDriverError::InvalidTime)
        } else if document_digest(self.runtime_json(intent)) is None {
            Some(DeployDriverError::Encoding)
        } else {
            None
        }
    }

    pub fn deploy_phase_spec(&self, intent: &PhaseIntent, boundary_now_ms: i64) -> (r: Result<
        PhaseSpecInputsV1,
        DeployDriverError,
    >)
        ensures
            match r {
                Ok(inputs) => self.deploy_spec_fault(*intent, boundary_now_ms) is None
                    && self.deploy_inputs(*intent, boundary_now_ms, inputs),
                Err(error) => self.deploy_spec_fault(*intent, boundary_now_ms) == Some(error),
            },
    {
        let texts = [
            "rdashboard.bootstrap-schema-inspection.v1",
            intent.digest.as_str(),
            self.attestation.payload_digest.as_str(),
        ];
        proof {
            assert(texts@.map_values(|text: &str| text@) =~= Seq::<Seq<char>>::empty().push(
                "rdashboard.bootstrap-schema-inspection.v1"@,
            ).push(intent.digest@).push(self.attestation.payload_digest@));
        }
        let inspected = match digest_of_texts(&texts) {
            Err(error) => return Err(error),
            Ok(digest) => digest,
        };
        let (current_schema_version, current_bundle_digest) = match &self.current {
            Some(current) => (
                Some(current.application_schema_version.clone()),
                Some(current.digest.clone()),
            ),
            None => (None, None),
        };
        let evaluation = SchemaEvaluationV1 {
            current_schema_version,
            candidate_schema_version: self.candidate.application_schema_version.clone(),
            migration_id: None,
            satisfied: true,
            contract_digest: self.rimg_policy.schema_contract_digest.clone(),
            observation_digest: self.attestation.data_compatibility_observation_digest.clone(),
            evaluated_at_ms: self.accepted.accepted_at_ms,
        };
        let inspection = SchemaInspectionV1 {
            current_bundle_digest,
            candidate_bundle_digest: self.candidate.digest.clone(),
            migration_id: None,
            migration_plan_digest: None,
            observation_digest: inspected,
            inspected_at_ms: self.accepted.accepted_at_ms,
        };
        if intent.phase != OperationPhase::Deploying {
            return Ok(
                PhaseSpecInputsV1 {
                    evaluation,
                    inspection,
                    runtime: None,
                    boundary_now_ms: None,
                    with_base_backup_chain: false,
                },
            );
        }
        let valid_until_ms = match boundary_now_ms.checked_add(RUNTIME_OBSERVATION_TTL_MS) {
            None => return Err(DeployDriverError::InvalidTime),
            Some(valid_until_ms) => valid_until_ms,
        };
        let texts = [
            "rdashboard.installed-release-state-observation.v1",
            self.release_state.document_digest.as_str(),
            intent.digest.as_str(),
        ];
        proof {
            assert(texts@.map_values(|text: &str| text@) =~= Seq::<Seq<char>>::empty().push(
                "rdashboard.installed-release-state-observation.v1"@,
            ).push(self.release_state.document_digest@).push(intent.digest@));
        }
        let observation_digest = match digest_of_texts(&texts) {
            Err(error) => return Err(error),
            Ok(digest) => digest,
        };
        let state = match &self.current {
            Some(current) => RuntimeReleaseStateV1::Installed {
                current_release_bundle_digest: current.digest.clone(),
            },
            None => RuntimeReleaseStateV1::NeverInstalled,
        };
        Ok(
            PhaseSpecInputsV1 {
                evaluation,
                inspection,
                runtime: Some(
                    RuntimeReleaseStateEvidenceV1 {
                        attempt_id: intent.attempt_id,
                        project_id: intent.project_id.clone(),
                        installed_policy: self.rimg_policy.installed_policy.clone(),
                        phase_intent_digest: intent.digest.clone(),
                        state,
                        valid_until_ms,
                        observation_digest,
                    },
                ),
                boundary_now_ms: Some(boundary_now_ms),
                with_base_backup_chain: self.base_backup_chain.is_some(),
            },
        )
    }

    pub open spec fn rollback_evaluation_json(self, intent: PhaseIntent) -> Seq<char> {
        texts_json(
            Seq::<Seq<char>>::empty().push(
                "rdashboard.rollback-data-compatibility-observation.v1"@,
            ).push(intent.digest@).push(self.candidate.digest@).push((self.current->0).digest@).push(
                self.rimg_policy.schema_contract_digest@,
            ),
        )
    }

    pub open spec fn rollback_inspection_json(self, intent: PhaseIntent) -> Seq<char> {
        texts_json(
            Seq::<Seq<char>>::empty().push("rdashboard.rollback-schema-inspection.v1"@).push(
                intent.digest@,
            ).push(self.candidate.digest@).push((self.current->0).digest@),
        )
    }

    /// What the phases of the way back are authorized by: the schema of the earlier release against
    /// that of the candidate.
    pub open spec fn rollback_inputs(self, intent: PhaseIntent, inputs: PhaseSpecInputsV1) -> bool {
        let target = self.current->0;
        &&& inputs.compatible()
        &&& inputs.evaluation.current_schema_version == Some(
            self.candidate.application_schema_version,
        )
        &&& inputs.evaluation.candidate_schema_version == target.application_schema_version
        &&& inputs.evaluation.contract_digest == self.rimg_policy.schema_contract_digest
        &&& document_digest(self.rollback_evaluation_json(intent)) == Some(
            inputs.evaluation.observation_digest@,
        )
        &&& inputs.evaluation.evaluated_at_ms == self.accepted.accepted_at_ms
        &&& inputs.inspection.current_bundle_digest == Some(self.candidate.digest)
        &&& inputs.inspection.candidate_bundle_digest == target.digest
        &&& document_digest(self.rollback_inspection_json(intent)) == Some(
            inputs.inspection.observation_digest@,
        )
        &&& inputs.inspection.inspected_at_ms == self.accepted.accepted_at_ms
        &&& inputs.runtime is None
        &&& inputs.boundary_now_ms is None
        &&& !inputs.with_base_backup_chain
    }

    /// What keeps a phase of the way back from being authorized.
    pub open spec fn rollback_spec_fault(self, intent: PhaseIntent) -> Option<DeployDriverError> {
        if self.current is None {
            Some(DeployDriverError::RollbackBinding)
        } else if document_digest(self.rollback_evaluation_json(intent)) is None || document_digest(
            self.rollback_inspection_json(intent),
        ) is None {
            Some(DeployDriverError::Encoding)
        } else {
            None
        }
    }

    pub fn rollback_phase_spec(&self, intent: &PhaseIntent) -> (r: Result<
        PhaseSpecInputsV1,
        DeployDriverError,
    >)
        ensures
            match r {
                Ok(inputs) => self.rollback_spec_fault(*intent) is None && self.rollback_inputs(
                    *intent,
                    inputs,
                ),
                Err(error) => self.rollback_spec_fault(*intent) == Some(error),
            },
    {
        let target = match &self.current {
            None => return Err(DeployDriverError::RollbackBinding),
            Some(target) => target,
        };
        let texts = [
            "rdashboard.rollback-data-compatibility-observation.v1",
            intent.digest.as_str(),
            self.candidate.digest.as_str(),
            target.digest.as_str(),
            self.rimg_policy.schema_contract_digest.as_str(),
        ];
        proof {
            assert(texts@.map_values(|text: &str| text@) =~= Seq::<Seq<char>>::empty().push(
                "rdashboard.rollback-data-compatibility-observation.v1"@,
            ).push(intent.digest@).push(self.candidate.digest@).push(target.digest@).push(
                self.rimg_policy.schema_contract_digest@,
            ));
        }
        let evaluated = match digest_of_texts(&texts) {
            Err(error) => return Err(error),
            Ok(digest) => digest,
        };
        let texts = [
            "rdashboard.rollback-schema-inspection.v1",
            intent.digest.as_str(),
            self.candidate.digest.as_str(),
            target.digest.as_str(),
        ];
        proof {
            assert(texts@.map_values(|text: &str| text@) =~= Seq::<Seq<char>>::empty().push(
                "rdashboard.rollback-schema-inspection.v1"@,
            ).push(intent.digest@).push(self.candidate.digest@).push(target.digest@));
        }
        let inspected = match digest_of_texts(&texts) {
            Err(error) => return Err(error),
            Ok(digest) => digest,
        };
        Ok(
            PhaseSpecInputsV1 {
                evaluation: SchemaEvaluationV1 {
                    current_schema_version: Some(self.candidate.application_schema_version.clone()),
                    candidate_schema_version: target.application_schema_version.clone(),
                    migration_id: None,
                    satisfied: true,
                    contract_digest: self.rimg_policy.schema_contract_digest.clone(),
                    observation_digest: evaluated,
                    evaluated_at_ms: self.accepted.accepted_at_ms,
                },
                inspection: SchemaInspectionV1 {
                    current_bundle_digest: Some(self.candidate.digest.clone()),
                    candidate_bundle_digest: target.digest.clone(),
                    migration_id: None,
                    migration_plan_digest: None,
                    observation_digest: inspected,
                    inspected_at_ms: self.accepted.accepted_at_ms,
                },
                runtime: None,
                boundary_now_ms: None,
                with_base_backup_chain: false,
            },
        )
    }

    /// A specification that was authorized before is of the present phase of an operation.
    pub open spec fn bound_spec(
        self,
        operation: OperationRecord,
        intent: PhaseIntent,
        stored: AuthorizedPhaseSpecV1,
    ) -> bool {
        &&& stored.attempt_id == operation.attempt_id
        &&& stored.project_id@ == operation.project_id@
        &&& stored.phase == operation.state.phase
        &&& stored.branch == intent.branch
        &&& stored.intent_digest@ == intent.digest@
        &&& stored.installed_rimg_policy_digest@ == self.rimg_policy.digest@
        &&& digest_option(stored.release_bundle_digest) == Some(self.candidate.digest@)
        &&& digest_option(stored.deployment_plan_digest) == Some(
            self.candidate.deployment_plan_digest@,
        )
        &&& stored.effective_release_class == Some(
            if intent.branch is RollbackRecovery {
                ReleaseClass::Rollback
            } else {
                ReleaseClass::CodeOnlyCompatible
            },
        )
    }

    /// What the specification of the present phase has to be made from, unless one was authorized
    /// before, which then has to be of this phase.
    pub fn ensure_deploy_phase_spec(
        &self,
        operation: &OperationRecord,
        intent: &PhaseIntent,
        stored: &Option<AuthorizedPhaseSpecV1>,
        now_ms: i64,
    ) -> (r: Result<Option<PhaseSpecInputsV1>, DeployDriverError>)
        ensures
            match stored {
                Some(stored) => match r {
                    Ok(inputs) => inputs is None && self.bound_spec(*operation, *intent, *stored),
                    Err(error) => error is PhaseSpecBinding && !self.bound_spec(
                        *operation,
                        *intent,
                        *stored,
                    ),
                },
                None => if intent.branch is RollbackRecovery {
                    match r {
                        Ok(inputs) => self.rollback_spec_fault(*intent) is None && inputs is Some
                            && self.rollback_inputs(*intent, inputs->0),
                        Err(error) => self.rollback_spec_fault(*intent) == Some(error),
                    }
                } else {
                    match r {
                        Ok(inputs) => self.deploy_spec_fault(*intent, now_ms) is None && inputs is Some
                            && self.deploy_inputs(*intent, now_ms, inputs->0),
                        Err(error) => self.deploy_spec_fault(*intent, now_ms) == Some(error),
                    }
                },
            },
    {
        match stored {
            Some(stored) => {
                let class = if intent.branch == ExecutorPhaseBranch::RollbackRecovery {
                    ReleaseClass::Rollback
                } else {
                    ReleaseClass::CodeOnlyCompatible
                };
                let class_matches = match stored.effective_release_class {
                    Some(found) => found == class,
                    None => false,
                };
                if stored.attempt_id != operation.attempt_id || stored.project_id
                    != operation.project_id || stored.phase != operation.state.phase || stored.branch
                    != intent.branch || stored.intent_digest != intent.digest
                    || stored.installed_rimg_policy_digest != self.rimg_policy.digest || !is_digest(
                    &stored.release_bundle_digest,
                    &self.candidate.digest,
                ) || !is_digest(
                    &stored.deployment_plan_digest,
                    &self.candidate.deployment_plan_digest,
                ) || !class_matches {
                    return Err(DeployDriverError::PhaseSpecBinding);
                }
                Ok(None)
            },
            None => {
                let inputs = if intent.branch == ExecutorPhaseBranch::RollbackRecovery {
                    self.rollback_phase_spec(intent)
                } else {
                    self.deploy_phase_spec(intent, now_ms)
                };
                match inputs {
                    Err(error) => Err(error),
                    Ok(inputs) => Ok(Some(inputs)),
                }
            },
        }
    }
}

/// What the journal is told of a deployment when the intent of a privileged phase is written to it:
/// its phases in their order, and that it may be rolled back.
pub fn deploy_journal_plan(operation: &OperationRecord) -> (r: Result<
    ExecutorPhasePlan,
    DeployDriverError,
>)
    ensures
        match r {
            Ok(plan) => {
                &&& operation.operation_kind.plan(operation.release_class) == Some(
                    plan.ordered_phases@,
                )
                &&& plan.may_roll_back
            },
            Err(error) => operation.operation_kind.plan(operation.release_class) is None && error
                == DeployDriverError::Store(
                StoreError::Contract(OperationContractError::ReleaseClassMismatch),
            ),
        },
{
    match operation.operation_kind.required_phases(operation.release_class) {
        Err(error) => Err(DeployDriverError::Store(StoreError::Contract(error))),
        Ok(ordered_phases) => Ok(ExecutorPhasePlan { ordered_phases, may_roll_back: true }),
    }
}

/// On the way back the releases change places: what was the candidate is what is left.
pub proof fn law_rollback_reverses_the_deployment(
    prepared: PreparedInstalledDeploymentV1,
    forth: PhaseIntent,
    back: PhaseIntent,
    now_ms: i64,
    deployed: PhaseSpecInputsV1,
    returned: PhaseSpecInputsV1,
)
    requires
        prepared.current is Some,
        prepared.deploy_inputs(forth, now_ms, deployed),
        prepared.rollback_inputs(back, returned),
    ensures
        returned.inspection.current_bundle_digest == Some(
            deployed.inspection.candidate_bundle_digest,
        ),
        deployed.inspection.current_bundle_digest == Some(
            returned.inspection.candidate_bundle_digest,
        ),
        returned.evaluation.current_schema_version == Some(
            deployed.evaluation.candidate_schema_version,
        ),
        deployed.evaluation.current_schema_version == Some(
            returned.evaluation.candidate_schema_version,
        ),
        returned.evaluation.contract_digest == deployed.evaluation.contract_digest,
{
}

} // verus!
