//! What the phases bring about outside, and a model of it that is the same on every run.

use vstd::prelude::*;
use super::fences::PhaseOperationIdentityLeaseV1;
use super::intent::PhaseIntent;
use super::phase_steps::ExternalEffectError;
use super::rules::{EffectObservation, PhaseEffectEvidence};
use crate::controller::StoreError;
use crate::domain::artifacts::{ExecutorPhaseBranch, PhaseArtifacts};
use crate::domain::budget::DiskAvailabilityObservation;
use crate::domain::identifiers::{digest_option, digest_texts, sha256, EvidenceDigest, ProjectId};
use crate::domain::states::OperationPhase;
use crate::fence_adapter::{FenceLease, FenceObservation};
use crate::text::{hex, same_text, text_option, utf8};
use crate::unique_id::{uuid_of, Uuid};

verus! {

/// What the executor brings about and observes.
pub trait ExternalEffects: Sized {
    fn observe_phase(&mut self, intent: &PhaseIntent) -> Result<
        EffectObservation,
        ExternalEffectError,
    >;

    fn apply_phase(&mut self, intent: &PhaseIntent) -> Result<(), ExternalEffectError>;

    /// Observes a phase under the identity of an operation, where effects need none as without it.
    fn observe_phase_with_operation_identity(
        &mut self,
        intent: &PhaseIntent,
        _operation_identity: Option<&PhaseOperationIdentityLeaseV1>,
    ) -> (r: Result<EffectObservation, ExternalEffectError>)
        default_ensures
            (exists|asked: &mut Self|
                {
                    &&& #[trigger] call_ensures(Self::observe_phase, (asked, intent), r)
                    &&& *asked == *old(self)
                    &&& *final(asked) == *final(self)
                }),
    {
        self.observe_phase(intent)
    }

    /// Applies a phase under the identity of an operation, where effects need none as without it.
    fn apply_phase_with_operation_identity(
        &mut self,
        intent: &PhaseIntent,
        _operation_identity: Option<&PhaseOperationIdentityLeaseV1>,
    ) -> (r: Result<(), ExternalEffectError>)
        default_ensures
            (exists|told: &mut Self|
                {
                    &&& #[trigger] call_ensures(Self::apply_phase, (told, intent), r)
                    &&& *told == *old(self)
                    &&& *final(told) == *final(self)
                }),
    {
        self.apply_phase(intent)
    }

    fn observe_fence(&mut self, project_id: &ProjectId) -> Result<
        FenceObservation,
        ExternalEffectError,
    >;

    fn acquire_fence(&mut self, lease: &FenceLease) -> Result<(), ExternalEffectError>;

    fn release_fence(&mut self, lease: &FenceLease) -> Result<(), ExternalEffectError>;
}

/// What tells how much disk space there is.
pub trait DiskSpaceProbe {
    fn observe(&self, project_id: &ProjectId, now_ms: i64) -> Result<
        DiskAvailabilityObservation,
        StoreError,
    >;
}

/// The digest of a text.
pub open spec fn text_digest(text: Seq<char>) -> Seq<char> {
    hex(sha256(utf8(text)))
}

fn digest_of_text(text: &str) -> (r: EvidenceDigest)
    ensures
        r@ == text_digest(text@),
{
    EvidenceDigest::sha256(text.as_bytes())
}

impl PhaseIntent {
    /// The evidence that the model gives of a phase.
    pub open spec fn effect_digest(self, label: Seq<char>) -> Seq<char> {
        text_digest("rdashboard.deterministic-effect.v1:"@ + label + ":"@ + self.digest@)
    }

    /// The evidence that the model gives of a release, the same in every phase.
    pub open spec fn release_digest(self, label: Seq<char>) -> Seq<char> {
        text_digest(
            "rdashboard.deterministic-release.v1:"@ + label + ":"@ + self.project_id@ + ":"@
                + self.attempt_id.text(),
        )
    }

    /// What the model puts out for a phase.
    pub open spec fn puts_out(self, artifacts: PhaseArtifacts) -> bool {
        &&& artifacts.authorized_phase_spec_digest is None
        &&& artifacts.source_gate_proof_digest is None
        &&& digest_option(artifacts.drain_evidence_digest) == match self.phase {
            OperationPhase::Draining => Some(self.effect_digest("drain"@)),
            _ => None,
        }
        &&& digest_option(artifacts.source_export_digest) == match self.phase {
            OperationPhase::Testing => Some(self.release_digest("source-export"@)),
            _ => None,
        }
        &&& digest_option(artifacts.prefetch_evidence_digest) == match self.phase {
            OperationPhase::Testing => Some(self.release_digest("prefetch"@)),
            _ => None,
        }
        &&& digest_option(artifacts.ci_evidence_digest) == match self.phase {
            OperationPhase::Testing => Some(self.effect_digest("ci"@)),
            _ => None,
        }
        &&& digest_option(artifacts.build_plan_digest) == match self.phase {
            OperationPhase::Building => Some(self.effect_digest("build-plan"@)),
            _ => None,
        }
        &&& digest_option(artifacts.deployment_plan_digest) == match self.phase {
            OperationPhase::Deploying => Some(self.effect_digest("deployment-plan"@)),
            _ => None,
        }
        &&& digest_option(artifacts.release_bundle_digest) == match self.phase {
            OperationPhase::Deploying => Some(self.release_digest("release-bundle"@)),
            _ => None,
        }
        &&& digest_option(artifacts.resource_reservation_digest) == match self.phase {
            OperationPhase::Testing | OperationPhase::Preflight => Some(self.release_digest("resource-reservation"@)),
            _ => None,
        }
        &&& digest_option(artifacts.build_context_digest) == match self.phase {
            OperationPhase::Testing | OperationPhase::Building => Some(self.release_digest("context"@)),
            _ => None,
        }
        &&& digest_texts(artifacts.generated_output_digests@) == Seq::<Seq<char>>::empty()
        &&& digest_option(artifacts.image_digest) == match self.phase {
            OperationPhase::Building => Some(self.effect_digest("image"@)),
            _ => None,
        }
        &&& digest_option(artifacts.image_id_digest) == match self.phase {
            OperationPhase::Building => Some(self.effect_digest("image-id"@)),
            _ => None,
        }
        &&& digest_texts(artifacts.base_image_digests@) == match self.phase {
            OperationPhase::Testing | OperationPhase::Building => seq![self.release_digest("base-image"@)],
            _ => Seq::<Seq<char>>::empty(),
        }
        &&& text_option(artifacts.schema_version) == match self.phase {
            OperationPhase::Migrating => Some("deterministic-schema-v1"@),
            _ => None,
        }
        &&& artifacts.backup_id is None
        &&& artifacts.backup_set_id == match self.phase {
            OperationPhase::BackingUp => Some(self.attempt_id),
            OperationPhase::CutoverSnapshotting => self.payload.backup_set_id,
            _ => None,
        }
        &&& artifacts.base_backup_id == match self.phase {
            OperationPhase::BackingUp => Some(uuid_of(self.attempt_id@ ^ 1)),
            _ => None,
        }
        &&& digest_option(artifacts.base_backup_manifest_digest) == match self.phase {
            OperationPhase::BackingUp => Some(self.effect_digest("base-backup-manifest"@)),
            _ => None,
        }
        &&& digest_option(artifacts.base_backup_evidence_digest) == match self.phase {
            OperationPhase::BackingUp => Some(self.effect_digest("base-backup-evidence"@)),
            _ => None,
        }
        &&& digest_option(artifacts.base_backup_offsite_evidence_digest) == match self.phase {
            OperationPhase::BackingUp => Some(self.effect_digest("base-backup-offsite"@)),
            _ => None,
        }
        &&& digest_option(artifacts.base_backup_verification_digest) == match self.phase {
            OperationPhase::BackingUp => Some(self.effect_digest("base-backup-verification"@)),
            _ => None,
        }
        &&& artifacts.cutover_backup_id == match self.phase {
            OperationPhase::CutoverSnapshotting => Some(uuid_of(self.attempt_id@ ^ 2)),
            _ => None,
        }
        &&& digest_option(artifacts.cutover_backup_manifest_digest) == match self.phase {
            OperationPhase::CutoverSnapshotting => Some(self.effect_digest("cutover-backup-manifest"@)),
            _ => None,
        }
        &&& digest_option(artifacts.cutover_backup_evidence_digest) == match self.phase {
            OperationPhase::CutoverSnapshotting => Some(self.effect_digest("cutover-backup-evidence"@)),
            _ => None,
        }
        &&& digest_option(artifacts.cutover_backup_verification_digest) == match self.phase {
            OperationPhase::CutoverSnapshotting => Some(self.effect_digest("cutover-backup-verification"@)),
            _ => None,
        }
        &&& artifacts.previous_release_bundle_digest is None
        &&& digest_option(artifacts.health_evidence_digest) == match self.phase {
            OperationPhase::HealthChecking => Some(self.effect_digest("health"@)),
            _ => None,
        }
        &&& artifacts.fencing_epoch == match self.phase {
            OperationPhase::CutoverSnapshotting => self.payload.fencing_epoch,
            _ => None,
        }
    }
}

fn effect_digest(intent: &PhaseIntent, label: &str) -> (r: EvidenceDigest)
    ensures
        r@ == intent.effect_digest(label@),
{
    let mut text = String::from_str("rdashboard.deterministic-effect.v1:");
    text.append(label);
    text.append(":");
    text.append(intent.digest.as_str());
    digest_of_text(text.as_str())
}

fn release_digest(intent: &PhaseIntent, label: &str) -> (r: EvidenceDigest)
    ensures
        r@ == intent.release_digest(label@),
{
    let mut text = String::from_str("rdashboard.deterministic-release.v1:");
    text.append(label);
    text.append(":");
    text.append(intent.project_id.as_str());
    text.append(":");
    let attempt = intent.attempt_id.to_text();
    text.append(attempt.as_str());
    digest_of_text(text.as_str())
}

/// What the model puts out for a phase, where nothing else was set.
pub fn deterministic_phase_artifacts(intent: &PhaseIntent) -> (artifacts: PhaseArtifacts)
    ensures
        intent.puts_out(artifacts),
{
    let mut artifacts = PhaseArtifacts::default();
    proof {
        assert(digest_texts(artifacts.base_image_digests@) =~= Seq::empty());
        assert(digest_texts(artifacts.generated_output_digests@) =~= Seq::empty());
    }
    match intent.phase {
        OperationPhase::Testing => {
            artifacts.source_export_digest = Some(release_digest(intent, "source-export"));
            artifacts.prefetch_evidence_digest = Some(release_digest(intent, "prefetch"));
            artifacts.ci_evidence_digest = Some(effect_digest(intent, "ci"));
            artifacts.build_context_digest = Some(release_digest(intent, "context"));
            artifacts.resource_reservation_digest = Some(release_digest(intent, "resource-reservation"));
            let mut bases: Vec<EvidenceDigest> = Vec::new();
            bases.push(release_digest(intent, "base-image"));
            proof {
                assert(digest_texts(bases@) =~= seq![intent.release_digest("base-image"@)]);
            }
            artifacts.base_image_digests = bases;
        },
        OperationPhase::Building => {
            artifacts.build_context_digest = Some(release_digest(intent, "context"));
            artifacts.build_plan_digest = Some(effect_digest(intent, "build-plan"));
            artifacts.image_digest = Some(effect_digest(intent, "image"));
            artifacts.image_id_digest = Some(effect_digest(intent, "image-id"));
            let mut bases: Vec<EvidenceDigest> = Vec::new();
            bases.push(release_digest(intent, "base-image"));
            proof {
                assert(digest_texts(bases@) =~= seq![intent.release_digest("base-image"@)]);
            }
            artifacts.base_image_digests = bases;
        },
        OperationPhase::Preflight => {
            artifacts.resource_reservation_digest = Some(release_digest(intent, "resource-reservation"));
        },
        OperationPhase::BackingUp => {
            artifacts.backup_set_id = Some(intent.attempt_id);
            artifacts.base_backup_id = Some(Uuid::from_u128(intent.attempt_id.as_u128() ^ 1));
            artifacts.base_backup_manifest_digest = Some(effect_digest(intent, "base-backup-manifest"));
            artifacts.base_backup_evidence_digest = Some(effect_digest(intent, "base-backup-evidence"));
            artifacts.base_backup_offsite_evidence_digest = Some(effect_digest(intent, "base-backup-offsite"));
            artifacts.base_backup_verification_digest = Some(effect_digest(intent, "base-backup-verification"));
        },
        OperationPhase::Draining => {
            artifacts.drain_evidence_digest = Some(effect_digest(intent, "drain"));
        },
        OperationPhase::CutoverSnapshotting => {
            artifacts.backup_set_id = intent.payload.backup_set_id;
            artifacts.cutover_backup_id = Some(Uuid::from_u128(intent.attempt_id.as_u128() ^ 2));
            artifacts.cutover_backup_manifest_digest = Some(effect_digest(intent, "cutover-backup-manifest"));
            artifacts.cutover_backup_evidence_digest = Some(effect_digest(intent, "cutover-backup-evidence"));
            artifacts.cutover_backup_verification_digest = Some(effect_digest(intent, "cutover-backup-verification"));
            artifacts.fencing_epoch = intent.payload.fencing_epoch;
        },
        OperationPhase::Migrating => {
            artifacts.schema_version = Some(String::from_str("deterministic-schema-v1"));
        },
        OperationPhase::Deploying => {
            artifacts.deployment_plan_digest = Some(effect_digest(intent, "deployment-plan"));
            artifacts.release_bundle_digest = Some(release_digest(intent, "release-bundle"));
        },
        OperationPhase::HealthChecking => {
            artifacts.health_evidence_digest = Some(effect_digest(intent, "health"));
        },
        _ => {},
    }
    artifacts
}

/// What the model knows its phases by.
#[derive(Clone, Copy, Debug, PartialEq, Eq, Structural)]
pub struct PhaseKey {
    pub attempt_id: Uuid,
    pub branch: ExecutorPhaseBranch,
    pub phase: OperationPhase,
}

/// What the model knows of a phase.
#[derive(Clone, Debug)]
pub struct PhaseSlot {
    /// What was brought about.
    pub effect: Option<PhaseEffectEvidence>,
    /// What is put out in place of the usual evidence.
    pub output: Option<PhaseArtifacts>,
    pub attempts: u32,
    pub mutations: u32,
    /// The next attempt fails.
    pub failing: bool,
    /// The next observation of the effect finds nothing.
    pub hidden: bool,
}

/// Nothing is known of a phase.
pub open spec fn untouched() -> PhaseSlot {
    PhaseSlot {
        effect: None,
        output: None,
        attempts: 0,
        mutations: 0,
        failing: false,
        hidden: false,
    }
}

/// The last entry of a table under a key.
pub open spec fn slot_in(table: Seq<(PhaseKey, PhaseSlot)>, key: PhaseKey) -> PhaseSlot
    decreases table.len(),
{
    if table.len() == 0 {
        untouched()
    } else if table.last().0 == key {
        table.last().1
    } else {
        slot_in(table.drop_last(), key)
    }
}

/// The last entry of a table under a name.
pub open spec fn fence_in(
    table: Seq<(ProjectId, FenceObservation)>,
    name: Seq<char>,
) -> FenceObservation
    decreases table.len(),
{
    if table.len() == 0 {
        FenceObservation::Released
    } else if table.last().0@ == name {
        table.last().1
    } else {
        fence_in(table.drop_last(), name)
    }
}

/// An entry that is taken out is missed under its own key alone.
proof fn lemma_slot_removed(table: Seq<(PhaseKey, PhaseSlot)>, index: int, key: PhaseKey)
    requires
        0 <= index < table.len(),
        table[index].0 != key,
    ensures
        slot_in(table.remove(index), key) == slot_in(table, key),
    decreases table.len(),
{
    if index == table.len() - 1 {
        assert(table.remove(index) =~= table.drop_last());
    } else {
        assert(table.remove(index).last() == table.last());
        assert(table.remove(index).drop_last() =~= table.drop_last().remove(index));
        lemma_slot_removed(table.drop_last(), index, key);
    }
}

proof fn lemma_fence_removed(table: Seq<(ProjectId, FenceObservation)>, index: int, name: Seq<char>)
    requires
        0 <= index < table.len(),
        table[index].0@ != name,
    ensures
        fence_in(table.remove(index), name) == fence_in(table, name),
    decreases table.len(),
{
    if index == table.len() - 1 {
        assert(table.remove(index) =~= table.drop_last());
    } else {
        assert(table.remove(index).last() == table.last());
        assert(table.remove(index).drop_last() =~= table.drop_last().remove(index));
        lemma_fence_removed(table.drop_last(), index, name);
    }
}

/// A model of what the phases bring about.
#[derive(Clone, Debug)]
pub struct DeterministicModelEffects {
    phases: Vec<(PhaseKey, PhaseSlot)>,
    fences: Vec<(ProjectId, FenceObservation)>,
}

/// The key of a phase of the plan itself.
pub open spec fn primary_key(attempt_id: Uuid, phase: OperationPhase) -> PhaseKey {
    PhaseKey { attempt_id, branch: ExecutorPhaseBranch::Primary, phase }
}

impl PhaseIntent {
    pub open spec fn key(self) -> PhaseKey {
        PhaseKey { attempt_id: self.attempt_id, branch: self.branch, phase: self.phase }
    }
}

impl FenceLease {
    /// What is found while the lease is held.
    pub open spec fn held(self) -> FenceObservation {
        FenceObservation::Held {
            attempt_id: self.attempt_id,
            epoch: self.epoch,
            token: self.token,
        }
    }
}

impl Default for DeterministicModelEffects {
    fn default() -> (r: DeterministicModelEffects)
        ensures
            forall|key: PhaseKey| r.slot(key) == untouched(),
            forall|name: Seq<char>| r.fence(name) == FenceObservation::Released,
    {
        DeterministicModelEffects { phases: Vec::new(), fences: Vec::new() }
    }
}

impl DeterministicModelEffects {
    /// What the model knows of a phase.
    pub closed spec fn slot(self, key: PhaseKey) -> PhaseSlot {
        slot_in(self.phases@, key)
    }

    /// What the model knows of the fence of a project.
    pub closed spec fn fence(self, name: Seq<char>) -> FenceObservation {
        fence_in(self.fences@, name)
    }

    /// One phase is known otherwise, and nothing else.
    pub open spec fn with_slot(self, before: Self, key: PhaseKey, slot: PhaseSlot) -> bool {
        &&& self.slot(key) == slot
        &&& forall|other: PhaseKey| other != key ==> #[trigger] self.slot(other) == before.slot(other)
        &&& forall|name: Seq<char>| #[trigger] self.fence(name) == before.fence(name)
    }

    /// One fence is known otherwise, and nothing else.
    pub open spec fn with_fence(
        self,
        before: Self,
        name: Seq<char>,
        fence: FenceObservation,
    ) -> bool {
        &&& self.fence(name) == fence
        &&& forall|other: Seq<char>| other != name ==> #[trigger] self.fence(other) == before.fence(
            other,
        )
        &&& forall|key: PhaseKey| #[trigger] self.slot(key) == before.slot(key)
    }

    fn find_slot(&self, key: PhaseKey) -> (r: Option<usize>)
        ensures
            match r {
                Some(index) => {
                    &&& index < self.phases.len()
                    &&& self.phases[index as int].0 == key
                    &&& self.slot(key) == self.phases[index as int].1
                },
                None => self.slot(key) == untouched(),
            },
    {
        let mut index: usize = self.phases.len();
        assert(self.phases@.take(index as int) =~= self.phases@);
        while index > 0
            invariant
                index <= self.phases.len(),
                slot_in(self.phases@, key) == slot_in(self.phases@.take(index as int), key),
            decreases index,
        {
            proof {
                assert(self.phases@.take(index as int).last() == self.phases@[index - 1]);
                assert(self.phases@.take(index as int).drop_last() =~= self.phases@.take(index - 1));
            }
            index = index - 1;
            if self.phases[index].0 == key {
                return Some(index);
            }
        }
        None
    }

    /// Takes out what is known of a phase, to put it back.
    fn take_slot(&mut self, key: PhaseKey) -> (slot: PhaseSlot)
        ensures
            slot == old(self).slot(key),
            forall|other: PhaseKey| other != key ==> #[trigger] final(self).slot(other) == old(
                self,
            ).slot(other),
            forall|name: Seq<char>| #[trigger] final(self).fence(name) == old(self).fence(name),
    {
        match self.find_slot(key) {
            Some(index) => {
                proof {
                    assert forall|other: PhaseKey| other != key implies slot_in(
                        self.phases@.remove(index as int),
                        other,
                    ) == slot_in(self.phases@, other) by {
                        lemma_slot_removed(self.phases@, index as int, other);
                    }
                }
                let (_, slot) = self.phases.remove(index);
                slot
            },
            None => PhaseSlot {
                effect: None,
                output: None,
                attempts: 0,
                mutations: 0,
                failing: false,
                hidden: false,
            },
        }
    }

    fn put_slot(&mut self, key: PhaseKey, slot: PhaseSlot)
        ensures
            final(self).with_slot(*old(self), key, slot),
    {
        let ghost before = self.phases@;
        self.phases.push((key, slot));
        assert(self.phases@.drop_last() =~= before);
    }

    fn find_fence(&self, project_id: &ProjectId) -> (r: FenceObservation)
        ensures
            r == self.fence(project_id@),
    {
        let mut index: usize = self.fences.len();
        assert(self.fences@.take(index as int) =~= self.fences@);
        while index > 0
            invariant
                index <= self.fences.len(),
                fence_in(self.fences@, project_id@) == fence_in(
                    self.fences@.take(index as int),
                    project_id@,
                ),
            decreases index,
        {
            proof {
                assert(self.fences@.take(index as int).last() == self.fences@[index - 1]);
                assert(self.fences@.take(index as int).drop_last() =~= self.fences@.take(index - 1));
            }
            index = index - 1;
            if same_text(self.fences[index].0.as_str(), project_id.as_str()) {
                return self.fences[index].1;
            }
        }
        FenceObservation::Released
    }

    fn set_fence(&mut self, project_id: ProjectId, fence: FenceObservation)
        ensures
            final(self).with_fence(*old(self), project_id@, fence),
    {
        let ghost before = self.fences@;
        let mut index: usize = 0;
        while index < self.fences.len()
            invariant
                index <= self.fences.len(),
                self.phases == old(self).phases,
                before == old(self).fences@,
                forall|name: Seq<char>|
                    name != project_id@ ==> #[trigger] fence_in(self.fences@, name) == fence_in(
                        before,
                        name,
                    ),
            decreases self.fences.len() - index,
        {
            if same_text(self.fences[index].0.as_str(), project_id.as_str()) {
                proof {
                    assert forall|name: Seq<char>| name != project_id@ implies #[trigger] fence_in(
                        self.fences@.remove(index as int),
                        name,
                    ) == fence_in(before, name) by {
                        lemma_fence_removed(self.fences@, index as int, name);
                    }
                }
                self.fences.remove(index);
            } else {
                index = index + 1;
            }
        }
        let ghost without = self.fences@;
        let ghost name = project_id@;
        self.fences.push((project_id, fence));
        assert(self.fences@.drop_last() =~= without);
        assert forall|other: Seq<char>| other != name implies #[trigger] self.fence(other) == old(
            self,
        ).fence(other) by {
            assert(fence_in(self.fences@, other) == fence_in(without, other));
        }
    }

    /// How often a phase was attempted.
    pub fn phase_application_attempts(&self, attempt_id: Uuid, phase: OperationPhase) -> (r: Result<
        u32,
        ExternalEffectError,
    >)
        ensures
            r == Ok::<_, ExternalEffectError>(self.slot(primary_key(attempt_id, phase)).attempts),
    {
        self.phase_application_attempts_in_branch(attempt_id, phase, ExecutorPhaseBranch::Primary)
    }

    pub fn phase_application_attempts_in_branch(
        &self,
        attempt_id: Uuid,
        phase: OperationPhase,
        branch: ExecutorPhaseBranch,
    ) -> (r: Result<u32, ExternalEffectError>)
        ensures
            r == Ok::<_, ExternalEffectError>(
                self.slot((PhaseKey { attempt_id, branch, phase })).attempts,
            ),
    {
        match self.find_slot(PhaseKey { attempt_id, branch, phase }) {
            Some(index) => Ok(self.phases[index].1.attempts),
            None => Ok(0),
        }
    }

    /// How often a phase changed anything.
    pub fn phase_mutations(&self, attempt_id: Uuid, phase: OperationPhase) -> (r: Result<
        u32,
        ExternalEffectError,
    >)
        ensures
            r == Ok::<_, ExternalEffectError>(self.slot(primary_key(attempt_id, phase)).mutations),
    {
        self.phase_mutations_in_branch(attempt_id, phase, ExecutorPhaseBranch::Primary)
    }

    pub fn phase_mutations_in_branch(
        &self,
        attempt_id: Uuid,
        phase: OperationPhase,
        branch: ExecutorPhaseBranch,
    ) -> (r: Result<u32, ExternalEffectError>)
        ensures
            r == Ok::<_, ExternalEffectError>(
                self.slot((PhaseKey { attempt_id, branch, phase })).mutations,
            ),
    {
        match self.find_slot(PhaseKey { attempt_id, branch, phase }) {
            Some(index) => Ok(self.phases[index].1.mutations),
            None => Ok(0),
        }
    }

    /// Makes the model find the effect of some intent, with no evidence besides.
    pub fn force_phase_effect(
        &mut self,
        attempt_id: Uuid,
        phase: OperationPhase,
        digest: EvidenceDigest,
    ) -> (r: Result<(), ExternalEffectError>)
        ensures
            r is Ok,
            final(self).slot(primary_key(attempt_id, phase)).effect matches Some(effect) && {
                &&& effect.intent_digest == digest
                &&& effect.observation_digest@ == text_digest("forced-observation:"@ + digest@)
                &&& effect.artifacts.empty()
            },
            final(self).with_slot(
                *old(self),
                primary_key(attempt_id, phase),
                (PhaseSlot {
                    effect: final(self).slot(primary_key(attempt_id, phase)).effect,
                    ..old(self).slot(primary_key(attempt_id, phase))
                }),
            ),
    {
        let key = PhaseKey { attempt_id, branch: ExecutorPhaseBranch::Primary, phase };
        let mut text = String::from_str("forced-observation:");
        text.append(digest.as_str());
        let mut slot = self.take_slot(key);
        slot.effect = Some(
            PhaseEffectEvidence {
                intent_digest: digest,
                observation_digest: digest_of_text(text.as_str()),
                artifacts: PhaseArtifacts::default(),
            },
        );
        self.put_slot(key, slot);
        Ok(())
    }

    /// Sets what a phase puts out.
    pub fn set_phase_artifacts(
        &mut self,
        attempt_id: Uuid,
        phase: OperationPhase,
        artifacts: PhaseArtifacts,
    ) -> (r: Result<(), ExternalEffectError>)
        ensures
            r is Ok,
            final(self).with_slot(
                *old(self),
                primary_key(attempt_id, phase),
                (PhaseSlot {
                    output: Some(artifacts),
                    ..old(self).slot(primary_key(attempt_id, phase))
                }),
            ),
    {
        let key = PhaseKey { attempt_id, branch: ExecutorPhaseBranch::Primary, phase };
        let mut slot = self.take_slot(key);
        slot.output = Some(artifacts);
        self.put_slot(key, slot);
        Ok(())
    }

    /// Makes the next attempt of a phase fail before it brings anything about.
    pub fn fail_next_phase_before_effect(&mut self, attempt_id: Uuid, phase: OperationPhase) -> (r:
        Result<(), ExternalEffectError>)
        ensures
            r is Ok,
            final(self).with_slot(
                *old(self),
                primary_key(attempt_id, phase),
                (PhaseSlot { failing: true, ..old(self).slot(primary_key(attempt_id, phase)) }),
            ),
    {
        let key = PhaseKey { attempt_id, branch: ExecutorPhaseBranch::Primary, phase };
        let mut slot = self.take_slot(key);
        slot.failing = true;
        self.put_slot(key, slot);
        Ok(())
    }

    /// Makes the next observation of an effect find nothing.
    pub fn hide_next_applied_phase_observation(
        &mut self,
        attempt_id: Uuid,
        phase: OperationPhase,
    ) -> (r: Result<(), ExternalEffectError>)
        ensures
            r is Ok,
            final(self).with_slot(
                *old(self),
                primary_key(attempt_id, phase),
                (PhaseSlot { hidden: true, ..old(self).slot(primary_key(attempt_id, phase)) }),
            ),
    {
        self.hide_next_applied_phase_observation_in_branch(
            attempt_id,
            phase,
            ExecutorPhaseBranch::Primary,
        )
    }

    pub fn hide_next_applied_phase_observation_in_branch(
        &mut self,
        attempt_id: Uuid,
        phase: OperationPhase,
        branch: ExecutorPhaseBranch,
    ) -> (r: Result<(), ExternalEffectError>)
        ensures
            r is Ok,
            final(self).with_slot(
                *old(self),
                (PhaseKey { attempt_id, branch, phase }),
                (PhaseSlot {
                    hidden: true,
                    ..old(self).slot((PhaseKey { attempt_id, branch, phase }))
                }),
            ),
    {
        let key = PhaseKey { attempt_id, branch, phase };
        let mut slot = self.take_slot(key);
        slot.hidden = true;
        self.put_slot(key, slot);
        Ok(())
    }

    /// Makes the model find a fence.
    pub fn force_fence(
        &mut self,
        project_id: ProjectId,
        attempt_id: Uuid,
        epoch: u64,
        token: Uuid,
    ) -> (r: Result<(), ExternalEffectError>)
        ensures
            r is Ok,
            final(self).with_fence(
                *old(self),
                project_id@,
                (FenceObservation::Held { attempt_id, epoch, token }),
            ),
    {
        self.set_fence(project_id, FenceObservation::Held { attempt_id, epoch, token });
        Ok(())
    }
}

impl PhaseEffectEvidence {
    /// The same evidence.
    pub open spec fn same_as(self, other: PhaseEffectEvidence) -> bool {
        &&& self.intent_digest == other.intent_digest
        &&& self.observation_digest == other.observation_digest
        &&& self.artifacts.same_as(other.artifacts)
    }
}

impl PhaseSlot {
    /// The attempts of a phase after another one.
    pub open spec fn attempted(self) -> u32 {
        if self.attempts == u32::MAX {
            self.attempts
        } else {
            (self.attempts + 1) as u32
        }
    }

    pub open spec fn mutated(self) -> u32 {
        if self.mutations == u32::MAX {
            self.mutations
        } else {
            (self.mutations + 1) as u32
        }
    }

    /// What an attempt of a phase leaves, and whether it succeeds. An attempt that is made to fail
    /// does so once. The effect of the same intent is left as it is, and that of another is a
    /// conflict.
    pub open spec fn after_attempt(
        self,
        intent: PhaseIntent,
        after: PhaseSlot,
        succeeds: bool,
    ) -> bool {
        if self.failing {
            !succeeds && after == (PhaseSlot { attempts: self.attempted(), failing: false, ..self })
        } else {
            match self.effect {
                Some(effect) => {
                    &&& succeeds == (effect.intent_digest@ == intent.digest@)
                    &&& after == (PhaseSlot { attempts: self.attempted(), ..self })
                },
                None => {
                    &&& succeeds
                    &&& after == (PhaseSlot {
                        attempts: self.attempted(),
                        mutations: self.mutated(),
                        effect: after.effect,
                        ..self
                    })
                    &&& after.effect matches Some(effect) && {
                        &&& effect.intent_digest == intent.digest
                        &&& effect.observation_digest@ == text_digest(
                            "model-observation:"@ + intent.digest@,
                        )
                        &&& match self.output {
                            Some(output) => effect.artifacts.same_as(output),
                            None => intent.puts_out(effect.artifacts),
                        }
                    }
                },
            }
        }
    }
}

impl ExternalEffects for DeterministicModelEffects {
    fn observe_phase(&mut self, intent: &PhaseIntent) -> (r: Result<
        EffectObservation,
        ExternalEffectError,
    >)
        ensures
            ({
                let slot = old(self).slot(intent.key());
                let seen = slot.effect is Some && !slot.hidden;
                &&& r matches Ok(observation) && match observation {
                    EffectObservation::Applied(evidence) => seen && evidence.same_as(slot.effect->0),
                    EffectObservation::Absent => !seen,
                }
                &&& final(self).with_slot(
                    *old(self),
                    intent.key(),
                    (PhaseSlot { hidden: slot.hidden && slot.effect is None, ..slot }),
                )
            }),
    {
        let key = PhaseKey {
            attempt_id: intent.attempt_id,
            branch: intent.branch,
            phase: intent.phase,
        };
        let mut slot = self.take_slot(key);
        let observation = match &slot.effect {
            None => EffectObservation::Absent,
            Some(evidence) => if slot.hidden {
                EffectObservation::Absent
            } else {
                EffectObservation::Applied(
                    Box::new(
                        PhaseEffectEvidence {
                            intent_digest: evidence.intent_digest.clone(),
                            observation_digest: evidence.observation_digest.clone(),
                            artifacts: evidence.artifacts.clone(),
                        },
                    ),
                )
            },
        };
        if slot.effect.is_some() {
            slot.hidden = false;
        }
        self.put_slot(key, slot);
        Ok(observation)
    }

    fn apply_phase(&mut self, intent: &PhaseIntent) -> (r: Result<(), ExternalEffectError>)
        ensures
            r matches Err(error) ==> error == ExternalEffectError::ConflictingState,
            old(self).slot(intent.key()).after_attempt(
                *intent,
                final(self).slot(intent.key()),
                r is Ok,
            ),
            final(self).with_slot(*old(self), intent.key(), final(self).slot(intent.key())),
    {
        let key = PhaseKey {
            attempt_id: intent.attempt_id,
            branch: intent.branch,
            phase: intent.phase,
        };
        let mut slot = self.take_slot(key);
        slot.attempts = slot.attempts.saturating_add(1);
        if slot.failing {
            slot.failing = false;
            self.put_slot(key, slot);
            return Err(ExternalEffectError::ConflictingState);
        }
        let matching = match &slot.effect {
            None => None,
            Some(existing) => Some(
                same_text(existing.intent_digest.as_str(), intent.digest.as_str()),
            ),
        };
        match matching {
            Some(matches) => {
                self.put_slot(key, slot);
                if matches {
                    Ok(())
                } else {
                    Err(ExternalEffectError::ConflictingState)
                }
            },
            None => {
                let artifacts = match &slot.output {
                    Some(output) => output.clone(),
                    None => deterministic_phase_artifacts(intent),
                };
                let mut text = String::from_str("model-observation:");
                text.append(intent.digest.as_str());
                slot.effect = Some(
                    PhaseEffectEvidence {
                        intent_digest: intent.digest.clone(),
                        observation_digest: digest_of_text(text.as_str()),
                        artifacts,
                    },
                );
                slot.mutations = slot.mutations.saturating_add(1);
                self.put_slot(key, slot);
                Ok(())
            },
        }
    }

    fn observe_fence(&mut self, project_id: &ProjectId) -> (r: Result<
        FenceObservation,
        ExternalEffectError,
    >)
        ensures
            r == Ok::<_, ExternalEffectError>(old(self).fence(project_id@)),
            *final(self) == *old(self),
    {
        Ok(self.find_fence(project_id))
    }

    fn acquire_fence(&mut self, lease: &FenceLease) -> (r: Result<(), ExternalEffectError>)
        ensures
            ({
                let found = old(self).fence(lease.project_id@);
                match r {
                    Ok(()) => {
                        &&& found is Released || found == lease.held()
                        &&& final(self).with_fence(*old(self), lease.project_id@, lease.held())
                    },
                    Err(error) => {
                        &&& error == ExternalEffectError::ConflictingState
                        &&& !(found is Released) && found != lease.held()
                        &&& *final(self) == *old(self)
                    },
                }
            }),
    {
        let wanted = FenceObservation::Held {
            attempt_id: lease.attempt_id,
            epoch: lease.epoch,
            token: lease.token,
        };
        let found = self.find_fence(&lease.project_id);
        if found == wanted {
            Ok(())
        } else if found == FenceObservation::Released {
            self.set_fence(lease.project_id.clone(), wanted);
            Ok(())
        } else {
            Err(ExternalEffectError::ConflictingState)
        }
    }

    fn release_fence(&mut self, lease: &FenceLease) -> (r: Result<(), ExternalEffectError>)
        ensures
            ({
                let found = old(self).fence(lease.project_id@);
                match r {
                    Ok(()) => {
                        &&& found is Released || found == lease.held()
                        &&& final(self).with_fence(
                            *old(self),
                            lease.project_id@,
                            FenceObservation::Released,
                        )
                    },
                    Err(error) => {
                        &&& error == ExternalEffectError::ConflictingState
                        &&& !(found is Released) && found != lease.held()
                        &&& *final(self) == *old(self)
                    },
                }
            }),
    {
        let held = FenceObservation::Held {
            attempt_id: lease.attempt_id,
            epoch: lease.epoch,
            token: lease.token,
        };
        let found = self.find_fence(&lease.project_id);
        if found == FenceObservation::Released {
            Ok(())
        } else if found == held {
            self.set_fence(lease.project_id.clone(), FenceObservation::Released);
            Ok(())
        } else {
            Err(ExternalEffectError::ConflictingState)
        }
    }
}

/// However often a phase is attempted with one intent, the effect that it left once stays, and
/// nothing is changed again.
pub proof fn law_model_effects_are_applied_once(
    intent: PhaseIntent,
    first: PhaseSlot,
    second: PhaseSlot,
    third: PhaseSlot,
    succeeds: bool,
)
    requires
        first.after_attempt(intent, second, true),
        second.after_attempt(intent, third, succeeds),
    ensures
        second.effect matches Some(effect) && effect.intent_digest@ == intent.digest@,
        third.effect == second.effect,
        third.mutations == second.mutations,
        succeeds == !second.failing,
{
}

/// The model puts out each piece of evidence in the phase that it comes of, and in no other: a backup
/// from the backup, an image from the build, health from the check of it.
pub proof fn law_modelled_phases_put_out_their_own_evidence(
    intent: PhaseIntent,
    made: PhaseArtifacts,
)
    requires
        call_ensures(deterministic_phase_artifacts, (&intent,), made),
    ensures
        made.drain_evidence_digest is Some <==> intent.phase is Draining,
        made.source_export_digest is Some <==> intent.phase is Testing,
        made.prefetch_evidence_digest is Some <==> intent.phase is Testing,
        made.ci_evidence_digest is Some <==> intent.phase is Testing,
        made.build_plan_digest is Some <==> intent.phase is Building,
        made.image_digest is Some <==> intent.phase is Building,
        made.image_id_digest is Some <==> intent.phase is Building,
        made.deployment_plan_digest is Some <==> intent.phase is Deploying,
        made.release_bundle_digest is Some <==> intent.phase is Deploying,
        made.resource_reservation_digest is Some <==> intent.phase is Testing || intent.phase is Preflight,
        made.build_context_digest is Some <==> intent.phase is Testing || intent.phase is Building,
        made.schema_version is Some <==> intent.phase is Migrating,
        made.base_backup_id is Some <==> intent.phase is BackingUp,
        made.base_backup_manifest_digest is Some <==> intent.phase is BackingUp,
        made.base_backup_evidence_digest is Some <==> intent.phase is BackingUp,
        made.base_backup_offsite_evidence_digest is Some <==> intent.phase is BackingUp,
        made.base_backup_verification_digest is Some <==> intent.phase is BackingUp,
        made.cutover_backup_id is Some <==> intent.phase is CutoverSnapshotting,
        made.cutover_backup_manifest_digest is Some <==> intent.phase is CutoverSnapshotting,
        made.cutover_backup_evidence_digest is Some <==> intent.phase is CutoverSnapshotting,
        made.cutover_backup_verification_digest is Some <==> intent.phase is CutoverSnapshotting,
        made.health_evidence_digest is Some <==> intent.phase is HealthChecking,
        made.base_image_digests@.len() == (if intent.phase is Testing || intent.phase is Building {
            1int
        } else {
            0int
        }),
        made.generated_output_digests@.len() == 0,
        made.backup_set_id is Some ==> intent.phase is BackingUp || intent.phase is CutoverSnapshotting,
        intent.phase is BackingUp ==> made.backup_set_id == Some(intent.attempt_id),
        intent.phase is CutoverSnapshotting ==> made.backup_set_id == intent.payload.backup_set_id
            && made.fencing_epoch == intent.payload.fencing_epoch,
        made.fencing_epoch is Some ==> intent.phase is CutoverSnapshotting,
        made.authorized_phase_spec_digest is None && made.source_gate_proof_digest is None,
        made.backup_id is None && made.previous_release_bundle_digest is None,
{
    assert(made.base_image_digests@.len() == digest_texts(made.base_image_digests@).len());
    assert(made.generated_output_digests@.len() == digest_texts(
        made.generated_output_digests@,
    ).len());
}

/// What two phases of one attempt put out of its release is the same.
pub proof fn law_modelled_phases_agree_on_their_release(
    one: PhaseIntent,
    first: PhaseArtifacts,
    other: PhaseIntent,
    second: PhaseArtifacts,
)
    requires
        call_ensures(deterministic_phase_artifacts, (&one,), first),
        call_ensures(deterministic_phase_artifacts, (&other,), second),
        one.attempt_id == other.attempt_id,
        one.project_id@ == other.project_id@,
    ensures
        first.build_context_digest is Some && second.build_context_digest is Some ==> (
        first.build_context_digest->0)@ == (second.build_context_digest->0)@,
        first.resource_reservation_digest is Some && second.resource_reservation_digest is Some ==> (
        first.resource_reservation_digest->0)@ == (second.resource_reservation_digest->0)@,
        first.release_bundle_digest is Some && second.release_bundle_digest is Some ==> (
        first.release_bundle_digest->0)@ == (second.release_bundle_digest->0)@,
        first.base_image_digests@.len() > 0 && second.base_image_digests@.len() > 0 ==> digest_texts(
            first.base_image_digests@,
        ) == digest_texts(second.base_image_digests@),
{
    assert(digest_texts(first.base_image_digests@).len() == first.base_image_digests@.len());
    assert(digest_texts(second.base_image_digests@).len() == second.base_image_digests@.len());
}

} // verus!
