//! The effects of a deployment: what its candidate brings along, and what is carried out.

use vstd::prelude::*;
use super::RuntimeCandidateArtifactsV1;
use crate::domain::artifacts::PhaseArtifacts;
use crate::domain::identifiers::{digest_document, document_digest, ProjectId};
use crate::domain::states::OperationPhase;
use crate::executor::effects::ExternalEffects;
use crate::executor::fences::PhaseOperationIdentityLeaseV1;
use crate::executor::intent::PhaseIntent;
use crate::executor::phase_steps::ExternalEffectError;
use crate::executor::rules::{EffectObservation, PhaseEffectEvidence};
use crate::fence_adapter::{FenceLease, FenceObservation};
use crate::json::{json_array, json_string, JsonArray};

verus! {

/// What is observed of a candidate in a phase, as a document.
pub open spec fn candidate_observation_json(
    intent_digest: Seq<char>,
    artifacts: PhaseArtifacts,
) -> Seq<char> {
    json_array(
        Seq::<Seq<char>>::empty().push(
            json_string("rdashboard.bootstrap-candidate-observation.v1"@),
        ).push(json_string(intent_digest)).push(artifacts.json()),
    )
}

impl RuntimeCandidateArtifactsV1 {
    /// The phases that a candidate has been through.
    pub open spec fn covers(phase: OperationPhase) -> bool {
        phase is Queued || phase is SyncingSource || phase is VerifyingSource || phase is Testing
            || phase is Building || phase is Preflight
    }

    /// Evidence is what the candidate brings along for a phase.
    pub open spec fn holds(self, phase: OperationPhase, artifacts: PhaseArtifacts) -> bool {
        match phase {
            OperationPhase::Testing => artifacts.same_as(self.testing),
            OperationPhase::Building => artifacts.same_as(self.building),
            OperationPhase::Preflight => artifacts.same_as(self.preflight),
            _ => artifacts.empty(),
        }
    }

    /// What comes of observing a candidate in a phase. The phase was carried out when the candidate
    /// was built.
    pub open spec fn observed(
        self,
        intent: PhaseIntent,
        r: Result<EffectObservation, ExternalEffectError>,
    ) -> bool {
        match r {
            Ok(observation) => {
                &&& RuntimeCandidateArtifactsV1::covers(intent.phase)
                &&& observation matches EffectObservation::Applied(evidence) && {
                    &&& evidence.intent_digest == intent.digest
                    &&& self.holds(intent.phase, evidence.artifacts)
                    &&& document_digest(
                        candidate_observation_json(intent.digest@, evidence.artifacts),
                    ) == Some(evidence.observation_digest@)
                }
            },
            Err(error) => error is ConflictingState && (RuntimeCandidateArtifactsV1::covers(
                intent.phase,
            ) ==> exists|artifacts: PhaseArtifacts|
                self.holds(intent.phase, artifacts) && document_digest(
                    #[trigger] candidate_observation_json(intent.digest@, artifacts),
                ) is None),
        }
    }

    /// What is observed of a candidate in a phase before the first mutation.
    pub fn candidate_observation(&self, intent: &PhaseIntent) -> (r: Result<
        EffectObservation,
        ExternalEffectError,
    >)
        ensures
            self.observed(*intent, r),
    {
        let artifacts = match intent.phase {
            OperationPhase::Queued => PhaseArtifacts::default(),
            OperationPhase::SyncingSource => PhaseArtifacts::default(),
            OperationPhase::VerifyingSource => PhaseArtifacts::default(),
            OperationPhase::Testing => self.testing.clone(),
            OperationPhase::Building => self.building.clone(),
            OperationPhase::Preflight => self.preflight.clone(),
            _ => return Err(ExternalEffectError::ConflictingState),
        };
        let mut array = JsonArray::new();
        array.text("rdashboard.bootstrap-candidate-observation.v1");
        array.text(intent.digest.as_str());
        let body = artifacts.to_json();
        array.raw(body.as_str());
        let text = array.finish();
        assert(text@ == candidate_observation_json(intent.digest@, artifacts));
        match digest_document(text.as_str()) {
            Err(_) => Err(ExternalEffectError::ConflictingState),
            Ok(observation_digest) => Ok(
                EffectObservation::Applied(
                    Box::new(
                        PhaseEffectEvidence {
                            intent_digest: intent.digest.clone(),
                            observation_digest,
                            artifacts,
                        },
                    ),
                ),
            ),
        }
    }
}

/// The effects of a deployment. Its phases from the first mutation on are carried out by what it
/// delegates to.
#[derive(Debug)]
pub struct InstalledDeployEffectsV1<E> {
    delegate: E,
    candidate: RuntimeCandidateArtifactsV1,
}

impl<E> InstalledDeployEffectsV1<E> {
    pub closed spec fn delegates_to(self) -> E {
        self.delegate
    }

    pub closed spec fn candidate_artifacts(self) -> RuntimeCandidateArtifactsV1 {
        self.candidate
    }

    pub fn new(delegate: E, candidate: RuntimeCandidateArtifactsV1) -> (r: Self)
        ensures
            r.delegates_to() == delegate,
            r.candidate_artifacts() == candidate,
    {
        InstalledDeployEffectsV1 { delegate, candidate }
    }
}

impl<E: ExternalEffects> ExternalEffects for InstalledDeployEffectsV1<E> {
    fn observe_phase(&mut self, intent: &PhaseIntent) -> (r: Result<
        EffectObservation,
        ExternalEffectError,
    >)
        ensures
            final(self).candidate_artifacts() == old(self).candidate_artifacts(),
            intent.phase.before_mutation() ==> *final(self) == *old(self) && old(
                self,
            ).candidate_artifacts().observed(*intent, r),
            !intent.phase.before_mutation() ==> (exists|asked: &mut E|
                {
                    &&& #[trigger] call_ensures(E::observe_phase, (asked, intent), r)
                    &&& *asked == old(self).delegates_to()
                    &&& *final(asked) == final(self).delegates_to()
                }),
    {
        if intent.phase.crosses_mutation_boundary() {
            self.delegate.observe_phase(intent)
        } else {
            self.candidate.candidate_observation(intent)
        }
    }

    fn apply_phase(&mut self, intent: &PhaseIntent) -> (r: Result<(), ExternalEffectError>)
        ensures
            final(self).candidate_artifacts() == old(self).candidate_artifacts(),
            intent.phase.before_mutation() ==> r is Ok && *final(self) == *old(self),
            !intent.phase.before_mutation() ==> (exists|asked: &mut E|
                {
                    &&& #[trigger] call_ensures(E::apply_phase, (asked, intent), r)
                    &&& *asked == old(self).delegates_to()
                    &&& *final(asked) == final(self).delegates_to()
                }),
    {
        if intent.phase.crosses_mutation_boundary() {
            self.delegate.apply_phase(intent)
        } else {
            Ok(())
        }
    }

    fn observe_phase_with_operation_identity(
        &mut self,
        intent: &PhaseIntent,
        operation_identity: Option<&PhaseOperationIdentityLeaseV1>,
    ) -> (r: Result<EffectObservation, ExternalEffectError>)
        ensures
            final(self).candidate_artifacts() == old(self).candidate_artifacts(),
            intent.phase.before_mutation() ==> *final(self) == *old(self) && if operation_identity is None {
                old(self).candidate_artifacts().observed(*intent, r)
            } else {
                r matches Err(error) && error is ConflictingState
            },
            !intent.phase.before_mutation() ==> (exists|asked: &mut E|
                {
                    &&& #[trigger] call_ensures(E::observe_phase_with_operation_identity, (asked, intent, operation_identity), r)
                    &&& *asked == old(self).delegates_to()
                    &&& *final(asked) == final(self).delegates_to()
                }),
    {
        if intent.phase.crosses_mutation_boundary() {
            self.delegate.observe_phase_with_operation_identity(intent, operation_identity)
        } else if operation_identity.is_none() {
            self.candidate.candidate_observation(intent)
        } else {
            Err(ExternalEffectError::ConflictingState)
        }
    }

    fn apply_phase_with_operation_identity(
        &mut self,
        intent: &PhaseIntent,
        operation_identity: Option<&PhaseOperationIdentityLeaseV1>,
    ) -> (r: Result<(), ExternalEffectError>)
        ensures
            final(self).candidate_artifacts() == old(self).candidate_artifacts(),
            intent.phase.before_mutation() ==> *final(self) == *old(self) && match r {
                Ok(()) => operation_identity is None,
                Err(error) => operation_identity is Some && error is ConflictingState,
            },
            !intent.phase.before_mutation() ==> (exists|asked: &mut E|
                {
                    &&& #[trigger] call_ensures(E::apply_phase_with_operation_identity, (asked, intent, operation_identity), r)
                    &&& *asked == old(self).delegates_to()
                    &&& *final(asked) == final(self).delegates_to()
                }),
    {
        if intent.phase.crosses_mutation_boundary() {
            self.delegate.apply_phase_with_operation_identity(intent, operation_identity)
        } else if operation_identity.is_none() {
            Ok(())
        } else {
            Err(ExternalEffectError::ConflictingState)
        }
    }

    fn observe_fence(&mut self, project_id: &ProjectId) -> (r: Result<
        FenceObservation,
        ExternalEffectError,
    >)
        ensures
            final(self).candidate_artifacts() == old(self).candidate_artifacts(),
            (exists|asked: &mut E|
                {
                    &&& #[trigger] call_ensures(E::observe_fence, (asked, project_id), r)
                    &&& *asked == old(self).delegates_to()
                    &&& *final(asked) == final(self).delegates_to()
                }),
    {
        self.delegate.observe_fence(project_id)
    }

    fn acquire_fence(&mut self, lease: &FenceLease) -> (r: Result<(), ExternalEffectError>)
        ensures
            final(self).candidate_artifacts() == old(self).candidate_artifacts(),
            (exists|asked: &mut E|
                {
                    &&& #[trigger] call_ensures(E::acquire_fence, (asked, lease), r)
                    &&& *asked == old(self).delegates_to()
                    &&& *final(asked) == final(self).delegates_to()
                }),
    {
        self.delegate.acquire_fence(lease)
    }

    fn release_fence(&mut self, lease: &FenceLease) -> (r: Result<(), ExternalEffectError>)
        ensures
            final(self).candidate_artifacts() == old(self).candidate_artifacts(),
            (exists|asked: &mut E|
                {
                    &&& #[trigger] call_ensures(E::release_fence, (asked, lease), r)
                    &&& *asked == old(self).delegates_to()
                    &&& *final(asked) == final(self).delegates_to()
                }),
    {
        self.delegate.release_fence(lease)
    }
}

} // verus!
