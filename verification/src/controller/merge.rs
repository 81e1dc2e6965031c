//! Adding the evidence of a phase to the evidence of an operation.

use vstd::prelude::*;
use super::StoreError;
use crate::domain::artifacts::{ExecutorPhaseBranch, PhaseArtifacts};
use crate::domain::identifiers::{clone_digests, digest_texts, same_digests, EvidenceDigest};
use crate::domain::record::{
    authorized_digest, find_authorized, AuthorizedPhaseSpecDigestV1, OperationEvidence,
};
use crate::domain::states::OperationPhase;
use crate::text::same_text;
use crate::unique_id::Uuid;

verus! {

/// What is known once something may have come in: what was known before, or what came in.
pub open spec fn merged<T>(current: Option<T>, incoming: Option<T>) -> Option<T> {
    if current is None {
        incoming
    } else {
        current
    }
}

/// Two different digests are both known.
pub open spec fn digests_differ(
    current: Option<EvidenceDigest>,
    incoming: Option<EvidenceDigest>,
) -> bool {
    current is Some && incoming is Some && (current->0)@ != (incoming->0)@
}

/// Two different texts are both known.
pub open spec fn texts_differ(current: Option<String>, incoming: Option<String>) -> bool {
    current is Some && incoming is Some && (current->0)@ != (incoming->0)@
}

/// Two different values are both known.
pub open spec fn values_differ<T>(current: Option<T>, incoming: Option<T>) -> bool {
    current is Some && incoming is Some && current->0 != incoming->0
}

/// What is known of a list once another may have come in.
pub open spec fn merged_list(
    current: Seq<EvidenceDigest>,
    incoming: Seq<EvidenceDigest>,
) -> Seq<EvidenceDigest> {
    if current.len() == 0 {
        incoming
    } else {
        current
    }
}

/// Two different lists are both known.
pub open spec fn lists_differ(current: Seq<EvidenceDigest>, incoming: Seq<EvidenceDigest>) -> bool {
    current.len() > 0 && incoming.len() > 0 && digest_texts(current) != digest_texts(incoming)
}

pub(crate) fn merge_digest(
    target: &mut Option<EvidenceDigest>,
    incoming: &Option<EvidenceDigest>,
) -> (r: bool)
    ensures
        *final(target) == merged(*old(target), *incoming),
        r == !digests_differ(*old(target), *incoming),
{
    match incoming {
        None => true,
        Some(value) => match target {
            Some(current) => *current == *value,
            None => {
                *target = Some(value.clone());
                true
            },
        },
    }
}

fn merge_text(target: &mut Option<String>, incoming: &Option<String>) -> (r: bool)
    ensures
        *final(target) == merged(*old(target), *incoming),
        r == !texts_differ(*old(target), *incoming),
{
    match incoming {
        None => true,
        Some(value) => match target {
            Some(current) => same_text(current.as_str(), value.as_str()),
            None => {
                *target = Some(value.clone());
                true
            },
        },
    }
}

fn merge_id(target: &mut Option<Uuid>, incoming: Option<Uuid>) -> (r: bool)
    ensures
        *final(target) == merged(*old(target), incoming),
        r == !values_differ(*old(target), incoming),
{
    match (*target, incoming) {
        (_, None) => true,
        (Some(current), Some(value)) => current == value,
        (None, Some(value)) => {
            *target = Some(value);
            true
        },
    }
}

fn merge_number(target: &mut Option<u64>, incoming: Option<u64>) -> (r: bool)
    ensures
        *final(target) == merged(*old(target), incoming),
        r == !values_differ(*old(target), incoming),
{
    match (*target, incoming) {
        (_, None) => true,
        (Some(current), Some(value)) => current == value,
        (None, Some(value)) => {
            *target = Some(value);
            true
        },
    }
}

pub(crate) fn merge_list(
    target: &mut Vec<EvidenceDigest>,
    incoming: &Vec<EvidenceDigest>,
) -> (r: bool)
    ensures
        final(target)@ == merged_list(old(target)@, incoming@),
        r == !lists_differ(old(target)@, incoming@),
{
    if target.len() == 0 {
        *target = clone_digests(incoming);
        return true;
    }
    incoming.len() == 0 || same_digests(target, incoming)
}

/// What was authorized for the phases of an operation, with what was authorized for one more.
pub open spec fn with_authorized(
    history: Seq<AuthorizedPhaseSpecDigestV1>,
    phase: OperationPhase,
    branch: ExecutorPhaseBranch,
    incoming: Option<EvidenceDigest>,
) -> Seq<AuthorizedPhaseSpecDigestV1> {
    if incoming is None || authorized_digest(history, phase, branch) is Some {
        history
    } else {
        history.push(AuthorizedPhaseSpecDigestV1 { branch, phase, spec_digest: incoming->0 })
    }
}

/// Something else was authorized for a phase before.
pub open spec fn authorization_differs(
    history: Seq<AuthorizedPhaseSpecDigestV1>,
    phase: OperationPhase,
    branch: ExecutorPhaseBranch,
    incoming: Option<EvidenceDigest>,
) -> bool {
    incoming is Some && (authorized_digest(history, phase, branch) matches Some(digest) && digest
        != (incoming->0)@)
}

pub(crate) fn merge_authorized_phase_spec_digest(
    history: &mut Vec<AuthorizedPhaseSpecDigestV1>,
    phase: OperationPhase,
    branch: ExecutorPhaseBranch,
    incoming: &Option<EvidenceDigest>,
) -> (r: bool)
    ensures
        final(history)@ == with_authorized(old(history)@, phase, branch, *incoming),
        r == !authorization_differs(old(history)@, phase, branch, *incoming),
{
    match incoming {
        None => true,
        Some(incoming) => match find_authorized(history, phase, branch) {
            Some(i) => history[i].spec_digest == *incoming,
            None => {
                history.push(
                    AuthorizedPhaseSpecDigestV1 { branch, phase, spec_digest: incoming.clone() },
                );
                true
            },
        },
    }
}

/// The health that is known once a phase has told of it: what the soak tells replaces what was
/// told before.
pub open spec fn merged_health(
    current: Option<EvidenceDigest>,
    incoming: Option<EvidenceDigest>,
    phase: OperationPhase,
) -> Option<EvidenceDigest> {
    if phase is Soaking && incoming is Some {
        incoming
    } else {
        merged(current, incoming)
    }
}

pub(crate) fn merge_health_artifact(
    target: &mut Option<EvidenceDigest>,
    incoming: &Option<EvidenceDigest>,
    phase: OperationPhase,
) -> (r: bool)
    ensures
        *final(target) == merged_health(*old(target), *incoming, phase),
        r == (phase is Soaking || !digests_differ(*old(target), *incoming)),
{
    if phase == OperationPhase::Soaking && incoming.is_some() {
        *target = incoming.clone();
        true
    } else {
        merge_digest(target, incoming)
    }
}

impl OperationEvidence {
    /// The field of the release and its health in which the evidence of a phase contradicts what
    /// is known.
    pub open spec fn release_conflict(
        self,
        artifacts: PhaseArtifacts,
        phase: OperationPhase,
        is_rollback_recovery: bool,
    ) -> Option<&'static str> {
        if digests_differ(
            self.previous_release_bundle_digest,
            artifacts.previous_release_bundle_digest,
        ) {
            Some("previous_release_bundle_digest")
        } else if phase is Soaking {
            None
        } else if is_rollback_recovery {
            if digests_differ(
                self.rollback_health_evidence_digest,
                artifacts.health_evidence_digest,
            ) {
                Some("rollback_health_evidence_digest")
            } else {
                None
            }
        } else if digests_differ(self.health_evidence_digest, artifacts.health_evidence_digest) {
            Some("health_evidence_digest")
        } else {
            None
        }
    }

    /// The evidence with what a phase tells of the release and its health.
    pub open spec fn with_release(
        self,
        artifacts: PhaseArtifacts,
        phase: OperationPhase,
        is_rollback_recovery: bool,
    ) -> OperationEvidence {
        OperationEvidence {
            previous_release_bundle_digest: merged(
                self.previous_release_bundle_digest,
                artifacts.previous_release_bundle_digest,
            ),
            rollback_health_evidence_digest: if is_rollback_recovery {
                merged_health(
                    self.rollback_health_evidence_digest,
                    artifacts.health_evidence_digest,
                    phase,
                )
            } else {
                self.rollback_health_evidence_digest
            },
            health_evidence_digest: if is_rollback_recovery {
                self.health_evidence_digest
            } else {
                merged_health(self.health_evidence_digest, artifacts.health_evidence_digest, phase)
            },
            ..self
        }
    }

    fn merge_release_health_artifacts(
        self,
        artifacts: &PhaseArtifacts,
        phase: OperationPhase,
        is_rollback_recovery: bool,
    ) -> (r: Result<OperationEvidence, &'static str>)
        ensures
            match r {
                Ok(after) => {
                    &&& self.release_conflict(*artifacts, phase, is_rollback_recovery) is None
                    &&& after == self.with_release(*artifacts, phase, is_rollback_recovery)
                },
                Err(field) => self.release_conflict(*artifacts, phase, is_rollback_recovery) == Some(
                    field,
                ),
            },
    {
        let mut evidence = self;
        if !merge_digest(
            &mut evidence.previous_release_bundle_digest,
            &artifacts.previous_release_bundle_digest,
        ) {
            return Err("previous_release_bundle_digest");
        }
        if is_rollback_recovery {
            if !merge_health_artifact(
                &mut evidence.rollback_health_evidence_digest,
                &artifacts.health_evidence_digest,
                phase,
            ) {
                return Err("rollback_health_evidence_digest");
            }
        } else if !merge_health_artifact(
            &mut evidence.health_evidence_digest,
            &artifacts.health_evidence_digest,
            phase,
        ) {
            return Err("health_evidence_digest");
        }
        Ok(evidence)
    }

    /// The field of the backups and the fence in which the evidence of a phase contradicts what is
    /// known.
    pub open spec fn backup_conflict(self, artifacts: PhaseArtifacts) -> Option<&'static str> {
        if values_differ(self.backup_id, artifacts.backup_id) {
            Some("backup_id")
        } else if values_differ(self.backup_set_id, artifacts.backup_set_id) {
            Some("backup_set_id")
        } else if values_differ(self.base_backup_id, artifacts.base_backup_id) {
            Some("base_backup_id")
        } else if digests_differ(self.base_backup_manifest_digest, artifacts.base_backup_manifest_digest) {
            Some("base_backup_manifest_digest")
        } else if digests_differ(self.base_backup_evidence_digest, artifacts.base_backup_evidence_digest) {
            Some("base_backup_evidence_digest")
        } else if digests_differ(self.base_backup_offsite_evidence_digest, artifacts.base_backup_offsite_evidence_digest) {
            Some("base_backup_offsite_evidence_digest")
        } else if digests_differ(self.base_backup_verification_digest, artifacts.base_backup_verification_digest) {
            Some("base_backup_verification_digest")
        } else if values_differ(self.cutover_backup_id, artifacts.cutover_backup_id) {
            Some("cutover_backup_id")
        } else if digests_differ(self.cutover_backup_manifest_digest, artifacts.cutover_backup_manifest_digest) {
            Some("cutover_backup_manifest_digest")
        } else if digests_differ(self.cutover_backup_evidence_digest, artifacts.cutover_backup_evidence_digest) {
            Some("cutover_backup_evidence_digest")
        } else if digests_differ(self.cutover_backup_verification_digest, artifacts.cutover_backup_verification_digest) {
            Some("cutover_backup_verification_digest")
        } else if values_differ(self.fencing_epoch, artifacts.fencing_epoch) {
            Some("fencing_epoch")
        } else {
            None
        }
    }

    /// The evidence with what a phase tells of the backups and the fence.
    pub open spec fn with_backups(self, artifacts: PhaseArtifacts) -> OperationEvidence {
        OperationEvidence {
            backup_id: merged(self.backup_id, artifacts.backup_id),
            backup_set_id: merged(self.backup_set_id, artifacts.backup_set_id),
            base_backup_id: merged(self.base_backup_id, artifacts.base_backup_id),
            base_backup_manifest_digest: merged(self.base_backup_manifest_digest, artifacts.base_backup_manifest_digest),
            base_backup_evidence_digest: merged(self.base_backup_evidence_digest, artifacts.base_backup_evidence_digest),
            base_backup_offsite_evidence_digest: merged(self.base_backup_offsite_evidence_digest, artifacts.base_backup_offsite_evidence_digest),
            base_backup_verification_digest: merged(self.base_backup_verification_digest, artifacts.base_backup_verification_digest),
            cutover_backup_id: merged(self.cutover_backup_id, artifacts.cutover_backup_id),
            cutover_backup_manifest_digest: merged(self.cutover_backup_manifest_digest, artifacts.cutover_backup_manifest_digest),
            cutover_backup_evidence_digest: merged(self.cutover_backup_evidence_digest, artifacts.cutover_backup_evidence_digest),
            cutover_backup_verification_digest: merged(self.cutover_backup_verification_digest, artifacts.cutover_backup_verification_digest),
            fencing_epoch: merged(self.fencing_epoch, artifacts.fencing_epoch),
            ..self
        }
    }

    fn merge_backup_artifacts(self, artifacts: &PhaseArtifacts) -> (r: Result<
        OperationEvidence,
        &'static str,
    >)
        ensures
            match r {
                Ok(after) => self.backup_conflict(*artifacts) is None && after == self.with_backups(
                    *artifacts,
                ),
                Err(field) => self.backup_conflict(*artifacts) == Some(field),
            },
    {
        let mut evidence = self;
        if !merge_id(&mut evidence.backup_id, artifacts.backup_id) {
            return Err("backup_id");
        }
        if !merge_id(&mut evidence.backup_set_id, artifacts.backup_set_id) {
            return Err("backup_set_id");
        }
        if !merge_id(&mut evidence.base_backup_id, artifacts.base_backup_id) {
            return Err("base_backup_id");
        }
        if !merge_digest(&mut evidence.base_backup_manifest_digest, &artifacts.base_backup_manifest_digest) {
            return Err("base_backup_manifest_digest");
        }
        if !merge_digest(&mut evidence.base_backup_evidence_digest, &artifacts.base_backup_evidence_digest) {
            return Err("base_backup_evidence_digest");
        }
        if !merge_digest(&mut evidence.base_backup_offsite_evidence_digest, &artifacts.base_backup_offsite_evidence_digest) {
            return Err("base_backup_offsite_evidence_digest");
        }
        if !merge_digest(&mut evidence.base_backup_verification_digest, &artifacts.base_backup_verification_digest) {
            return Err("base_backup_verification_digest");
        }
        if !merge_id(&mut evidence.cutover_backup_id, artifacts.cutover_backup_id) {
            return Err("cutover_backup_id");
        }
        if !merge_digest(&mut evidence.cutover_backup_manifest_digest, &artifacts.cutover_backup_manifest_digest) {
            return Err("cutover_backup_manifest_digest");
        }
        if !merge_digest(&mut evidence.cutover_backup_evidence_digest, &artifacts.cutover_backup_evidence_digest) {
            return Err("cutover_backup_evidence_digest");
        }
        if !merge_digest(&mut evidence.cutover_backup_verification_digest, &artifacts.cutover_backup_verification_digest) {
            return Err("cutover_backup_verification_digest");
        }
        if !merge_number(&mut evidence.fencing_epoch, artifacts.fencing_epoch) {
            return Err("fencing_epoch");
        }
        Ok(evidence)
    }

    /// The field of the source, the build and its outputs in which the evidence of a phase
    /// contradicts what is known.
    pub open spec fn build_conflict(
        self,
        artifacts: PhaseArtifacts,
        phase: OperationPhase,
        branch: ExecutorPhaseBranch,
    ) -> Option<&'static str> {
        if authorization_differs(
            self.authorized_phase_spec_digests@,
            phase,
            branch,
            artifacts.authorized_phase_spec_digest,
        ) {
            Some("authorized_phase_spec_digest")
        } else if digests_differ(self.source_gate_proof_digest, artifacts.source_gate_proof_digest) {
            Some("source_gate_proof_digest")
        } else if digests_differ(self.drain_evidence_digest, artifacts.drain_evidence_digest) {
            Some("drain_evidence_digest")
        } else if digests_differ(self.source_export_digest, artifacts.source_export_digest) {
            Some("source_export_digest")
        } else if digests_differ(self.prefetch_evidence_digest, artifacts.prefetch_evidence_digest) {
            Some("prefetch_evidence_digest")
        } else if digests_differ(self.ci_evidence_digest, artifacts.ci_evidence_digest) {
            Some("ci_evidence_digest")
        } else if digests_differ(self.build_plan_digest, artifacts.build_plan_digest) {
            Some("build_plan_digest")
        } else if digests_differ(self.deployment_plan_digest, artifacts.deployment_plan_digest) {
            Some("deployment_plan_digest")
        } else if digests_differ(self.release_bundle_digest, artifacts.release_bundle_digest) {
            Some("release_bundle_digest")
        } else if digests_differ(self.resource_reservation_digest, artifacts.resource_reservation_digest) {
            Some("resource_reservation_digest")
        } else if digests_differ(self.build_context_digest, artifacts.build_context_digest) {
            Some("build_context_digest")
        } else if lists_differ(self.generated_output_digests@, artifacts.generated_output_digests@) {
            Some("generated_output_digests")
        } else if digests_differ(self.image_digest, artifacts.image_digest) {
            Some("image_digest")
        } else if digests_differ(self.image_id_digest, artifacts.image_id_digest) {
            Some("image_id_digest")
        } else if lists_differ(self.base_image_digests@, artifacts.base_image_digests@) {
            Some("base_image_digests")
        } else if texts_differ(self.schema_version, artifacts.schema_version) {
            Some("schema_version")
        } else {
            None
        }
    }

    /// Evidence is this one with what a phase tells of the source, the build and its outputs.
    pub open spec fn gains_build(
        self,
        after: OperationEvidence,
        artifacts: PhaseArtifacts,
        phase: OperationPhase,
        branch: ExecutorPhaseBranch,
    ) -> bool {
        &&& after == (OperationEvidence {
                authorized_phase_spec_digests: after.authorized_phase_spec_digests,
                source_gate_proof_digest: merged(self.source_gate_proof_digest, artifacts.source_gate_proof_digest),
                drain_evidence_digest: merged(self.drain_evidence_digest, artifacts.drain_evidence_digest),
                source_export_digest: merged(self.source_export_digest, artifacts.source_export_digest),
                prefetch_evidence_digest: merged(self.prefetch_evidence_digest, artifacts.prefetch_evidence_digest),
                ci_evidence_digest: merged(self.ci_evidence_digest, artifacts.ci_evidence_digest),
                build_plan_digest: merged(self.build_plan_digest, artifacts.build_plan_digest),
                deployment_plan_digest: merged(self.deployment_plan_digest, artifacts.deployment_plan_digest),
                release_bundle_digest: merged(self.release_bundle_digest, artifacts.release_bundle_digest),
                resource_reservation_digest: merged(self.resource_reservation_digest, artifacts.resource_reservation_digest),
                build_context_digest: merged(self.build_context_digest, artifacts.build_context_digest),
                generated_output_digests: after.generated_output_digests,
                image_digest: merged(self.image_digest, artifacts.image_digest),
                image_id_digest: merged(self.image_id_digest, artifacts.image_id_digest),
                base_image_digests: after.base_image_digests,
                schema_version: merged(self.schema_version, artifacts.schema_version),
                ..self
            })
        &&& after.authorized_phase_spec_digests@ == with_authorized(
            self.authorized_phase_spec_digests@,
            phase,
            branch,
            artifacts.authorized_phase_spec_digest,
        )
        &&& after.generated_output_digests@ == merged_list(
            self.generated_output_digests@,
            artifacts.generated_output_digests@,
        )
        &&& after.base_image_digests@ == merged_list(
            self.base_image_digests@,
            artifacts.base_image_digests@,
        )
    }

    fn merge_build_artifacts(
        self,
        artifacts: &PhaseArtifacts,
        phase: OperationPhase,
        branch: ExecutorPhaseBranch,
    ) -> (r: Result<OperationEvidence, &'static str>)
        ensures
            match r {
                Ok(after) => {
                    &&& self.build_conflict(*artifacts, phase, branch) is None
                    &&& self.gains_build(after, *artifacts, phase, branch)
                },
                Err(field) => self.build_conflict(*artifacts, phase, branch) == Some(field),
            },
    {
        let mut evidence = self;
        if !merge_authorized_phase_spec_digest(
            &mut evidence.authorized_phase_spec_digests,
            phase,
            branch,
            &artifacts.authorized_phase_spec_digest,
        ) {
            return Err("authorized_phase_spec_digest");
        }
        if !merge_digest(&mut evidence.source_gate_proof_digest, &artifacts.source_gate_proof_digest) {
            return Err("source_gate_proof_digest");
        }
        if !merge_digest(&mut evidence.drain_evidence_digest, &artifacts.drain_evidence_digest) {
            return Err("drain_evidence_digest");
        }
        if !merge_digest(&mut evidence.source_export_digest, &artifacts.source_export_digest) {
            return Err("source_export_digest");
        }
        if !merge_digest(&mut evidence.prefetch_evidence_digest, &artifacts.prefetch_evidence_digest) {
            return Err("prefetch_evidence_digest");
        }
        if !merge_digest(&mut evidence.ci_evidence_digest, &artifacts.ci_evidence_digest) {
            return Err("ci_evidence_digest");
        }
        if !merge_digest(&mut evidence.build_plan_digest, &artifacts.build_plan_digest) {
            return Err("build_plan_digest");
        }
        if !merge_digest(&mut evidence.deployment_plan_digest, &artifacts.deployment_plan_digest) {
            return Err("deployment_plan_digest");
        }
        if !merge_digest(&mut evidence.release_bundle_digest, &artifacts.release_bundle_digest) {
            return Err("release_bundle_digest");
        }
        if !merge_digest(&mut evidence.resource_reservation_digest, &artifacts.resource_reservation_digest) {
            return Err("resource_reservation_digest");
        }
        if !merge_digest(&mut evidence.build_context_digest, &artifacts.build_context_digest) {
            return Err("build_context_digest");
        }
        if !merge_list(&mut evidence.generated_output_digests, &artifacts.generated_output_digests) {
            return Err("generated_output_digests");
        }
        if !merge_digest(&mut evidence.image_digest, &artifacts.image_digest) {
            return Err("image_digest");
        }
        if !merge_digest(&mut evidence.image_id_digest, &artifacts.image_id_digest) {
            return Err("image_id_digest");
        }
        if !merge_list(&mut evidence.base_image_digests, &artifacts.base_image_digests) {
            return Err("base_image_digests");
        }
        if !merge_text(&mut evidence.schema_version, &artifacts.schema_version) {
            return Err("schema_version");
        }
        Ok(evidence)
    }

    /// The first field in which the evidence of a phase contradicts what is known.
    pub open spec fn conflict(
        self,
        artifacts: PhaseArtifacts,
        phase: OperationPhase,
        branch: ExecutorPhaseBranch,
        is_rollback_recovery: bool,
    ) -> Option<&'static str> {
        if self.build_conflict(artifacts, phase, branch) is Some {
            self.build_conflict(artifacts, phase, branch)
        } else if self.backup_conflict(artifacts) is Some {
            self.backup_conflict(artifacts)
        } else {
            self.release_conflict(artifacts, phase, is_rollback_recovery)
        }
    }

    /// Evidence is this one with the evidence of a phase added to it.
    pub open spec fn gains(
        self,
        after: OperationEvidence,
        artifacts: PhaseArtifacts,
        phase: OperationPhase,
        branch: ExecutorPhaseBranch,
        is_rollback_recovery: bool,
    ) -> bool {
        exists|built: OperationEvidence| #[trigger]
            self.gains_build(built, artifacts, phase, branch) && after == built.with_backups(
                artifacts,
            ).with_release(artifacts, phase, is_rollback_recovery)
    }
}

/// Adds the evidence of a phase, unless it contradicts what is known.
pub fn merge_artifacts(
    evidence: OperationEvidence,
    artifacts: &PhaseArtifacts,
    phase: OperationPhase,
    branch: ExecutorPhaseBranch,
    is_rollback_recovery: bool,
) -> (r: Result<OperationEvidence, StoreError>)
    ensures
        match r {
            Ok(after) => {
                &&& evidence.conflict(*artifacts, phase, branch, is_rollback_recovery) is None
                &&& evidence.gains(after, *artifacts, phase, branch, is_rollback_recovery)
            },
            Err(error) => error matches StoreError::ArtifactEvidenceConflict(field)
                && evidence.conflict(*artifacts, phase, branch, is_rollback_recovery) == Some(field),
        },
{
    let ghost before = evidence;
    match evidence.merge_build_artifacts(artifacts, phase, branch) {
        Err(field) => Err(StoreError::ArtifactEvidenceConflict(field)),
        Ok(built) => {
            proof {
                assert(built.backup_conflict(*artifacts) == before.backup_conflict(*artifacts));
                assert(built.with_backups(*artifacts).release_conflict(
                    *artifacts,
                    phase,
                    is_rollback_recovery,
                ) == before.release_conflict(*artifacts, phase, is_rollback_recovery));
            }
            let ghost gained = built;
            match built.merge_backup_artifacts(artifacts) {
                Err(field) => Err(StoreError::ArtifactEvidenceConflict(field)),
                Ok(backed) => match backed.merge_release_health_artifacts(
                    artifacts,
                    phase,
                    is_rollback_recovery,
                ) {
                    Err(field) => Err(StoreError::ArtifactEvidenceConflict(field)),
                    Ok(after) => {
                        assert(before.gains_build(gained, *artifacts, phase, branch));
                        Ok(after)
                    },
                },
            }
        },
    }
}

} // verus!
