//! Who may start an operation.

use vstd::prelude::*;
use super::{DurableController, StoreError};
use crate::domain::identifiers::{EvidenceDigest, GitCommitId, ProjectId};
use crate::domain::operation::{
    AutomationSource, InstalledPolicyIdentity, OperationActor, OperationContractError,
    OperationKind, OperationState, ReleaseClass,
};
use crate::domain::record::{OperationEvidence, OperationRecord};
use crate::domain::states::{BlockingReason, OperationPhase, OperationResult};
use crate::text::{same_text, utf8};
use crate::unique_id::{uuid_parsed, Uuid};

verus! {

/// The lease of a user, held by one tab at a time.
#[derive(Clone, Copy, Debug, PartialEq, Eq, Structural)]
pub struct TabLease {
    pub user_id: Uuid,
    pub lease_id: Uuid,
    pub generation: u64,
    pub acquired_at_ms: i64,
    pub expires_at_ms: i64,
}

/// A lease that a tab says it holds.
#[derive(Clone, Copy, Debug, PartialEq, Eq, Structural)]
pub struct TabLeaseClaim {
    pub user_id: Uuid,
    pub lease_id: Uuid,
    pub generation: u64,
}

/// An operation that is asked for.
#[derive(Clone, Debug, PartialEq, Eq)]
pub struct NewOperation {
    pub project_id: ProjectId,
    pub operation_kind: OperationKind,
    pub target_commit: Option<GitCommitId>,
    pub release_class: Option<ReleaseClass>,
    pub installed_policy: InstalledPolicyIdentity,
}

/// What a user was granted to do, once.
#[derive(Clone, Debug, PartialEq, Eq)]
pub struct ActionGrantClaims {
    pub nonce: Uuid,
    pub digest: EvidenceDigest,
    pub user_id: Uuid,
    pub project_id: ProjectId,
    pub operation_kind: OperationKind,
    pub target_commit: Option<GitCommitId>,
    pub retry_request_id: Option<Uuid>,
    pub expires_at_ms: i64,
}

/// How the news of a source reached the controller.
#[derive(Clone, Copy, Debug, PartialEq, Eq, Structural)]
pub enum DeliveryChannel {
    GithubWebhook,
    SourceReconciliation,
    DirectPush,
}

impl DeliveryChannel {
    /// The name under which deliveries are kept.
    pub open spec fn name(self) -> Seq<char> {
        match self {
            DeliveryChannel::GithubWebhook => "github_webhook"@,
            DeliveryChannel::SourceReconciliation => "source_reconciliation"@,
            DeliveryChannel::DirectPush => "direct_push"@,
        }
    }

    pub fn as_str(self) -> (r: &'static str)
        ensures
            r@ == self.name(),
    {
        match self {
            DeliveryChannel::GithubWebhook => "github_webhook",
            DeliveryChannel::SourceReconciliation => "source_reconciliation",
            DeliveryChannel::DirectPush => "direct_push",
        }
    }

    /// The source that an operation from this channel is told to come from.
    pub open spec fn source(self) -> AutomationSource {
        match self {
            DeliveryChannel::GithubWebhook => AutomationSource::GithubWebhook,
            DeliveryChannel::SourceReconciliation => AutomationSource::SourceReconciliation,
            DeliveryChannel::DirectPush => AutomationSource::DirectPush,
        }
    }

    fn actor_source(self) -> (r: AutomationSource)
        ensures
            r == self.source(),
    {
        match self {
            DeliveryChannel::GithubWebhook => AutomationSource::GithubWebhook,
            DeliveryChannel::SourceReconciliation => AutomationSource::SourceReconciliation,
            DeliveryChannel::DirectPush => AutomationSource::DirectPush,
        }
    }
}

/// A deployment that a new source asks for, its attestation verified.
#[derive(Clone, Debug, PartialEq, Eq)]
pub struct VerifiedAutomationAdmission {
    pub operation: NewOperation,
    pub delivery_channel: DeliveryChannel,
    pub delivery_id: String,
    pub payload_digest: EvidenceDigest,
    pub source_attestation_digest: EvidenceDigest,
    pub accepted_head: GitCommitId,
    pub accepted_sequence: u64,
    pub maximum_attempts: u32,
}

/// A deployment that a user asks for, the attestation of its source verified.
#[derive(Debug, PartialEq, Eq)]
pub struct VerifiedInteractiveDeployAdmission {
    pub operation: NewOperation,
    pub source_attestation_digest: EvidenceDigest,
    pub accepted_head: GitCommitId,
    pub accepted_sequence: u64,
}

/// What comes of asking for an operation: a new attempt, or one that is there already.
#[derive(Clone, Debug, PartialEq, Eq)]
pub enum AdmissionOutcome {
    Created(OperationRecord),
    Existing(OperationRecord),
}

impl AdmissionOutcome {
    pub fn operation(&self) -> (r: &OperationRecord)
        ensures
            match *self {
                AdmissionOutcome::Created(operation) => *r == operation,
                AdmissionOutcome::Existing(operation) => *r == operation,
            },
    {
        match self {
            AdmissionOutcome::Created(operation) => operation,
            AdmissionOutcome::Existing(operation) => operation,
        }
    }

    pub fn created(&self) -> (r: bool)
        ensures
            r == (*self is Created),
    {
        match self {
            AdmissionOutcome::Created(_) => true,
            AdmissionOutcome::Existing(_) => false,
        }
    }
}

/// The use that was made of a grant: the digest it had, and the attempt it started.
#[derive(Debug)]
pub struct UsedGrant {
    pub grant_digest: String,
    pub operation: OperationRecord,
}

/// What is stored that bears on a user asking for an operation: when the lease that the tab claims
/// ends, the use of the grant, the request for the same operation, and its latest attempt.
#[derive(Debug)]
pub struct InteractiveRows {
    pub lease_expires_at_ms: Option<i64>,
    pub used_grant: Option<UsedGrant>,
    pub request_id: Option<String>,
    pub latest: Option<OperationRecord>,
}

/// A delivery that came before under the same name: the digest of its payload, and the latest
/// attempt of its request.
#[derive(Debug)]
pub struct KnownDelivery {
    pub payload_digest: String,
    pub latest: Option<OperationRecord>,
}

/// What is stored that bears on a source asking for a deployment: an earlier delivery, the request
/// for the same deployment, its latest attempt and all of its attempts.
#[derive(Debug)]
pub struct AutomationRows {
    pub delivery: Option<KnownDelivery>,
    pub request_id: Option<String>,
    pub latest: Option<OperationRecord>,
    pub attempts: Vec<OperationRecord>,
}

/// Identifiers that were never used before.
#[derive(Clone, Copy, Debug, PartialEq, Eq, Structural)]
pub struct FreshIdentities {
    pub request_id: Uuid,
    pub operation_id: Uuid,
    pub attempt_id: Uuid,
}

/// The attested source of a deployment.
#[derive(Debug)]
pub struct InteractiveSourceEvidence {
    pub attestation_digest: EvidenceDigest,
    pub sequence: u64,
}

/// What is decided on a request: the attempt that is there, or a new one with a number.
pub enum AdmissionDecision {
    Existing(OperationRecord),
    Create(int),
}

impl NewOperation {
    /// What is wrong with an operation that is asked for.
    pub open spec fn fault(self) -> Option<StoreError> {
        if self.operation_kind.has_commit() != (self.target_commit is Some) {
            Some(StoreError::InvalidControllerInput("target commit does not match operation kind"))
        } else if self.operation_kind.plan(self.release_class) is None {
            Some(StoreError::Contract(OperationContractError::ReleaseClassMismatch))
        } else if self.installed_policy.version == 0 {
            Some(StoreError::InvalidControllerInput("installed policy version must be positive"))
        } else {
            None
        }
    }

    pub fn validate_operation(&self) -> (r: Result<(), StoreError>)
        ensures
            match r {
                Ok(()) => self.fault() is None,
                Err(error) => self.fault() == Some(error),
            },
    {
        if self.operation_kind.requires_commit() != self.target_commit.is_some() {
            return Err(
                StoreError::InvalidControllerInput("target commit does not match operation kind"),
            );
        }
        match self.operation_kind.required_phases(self.release_class) {
            Err(error) => return Err(StoreError::Contract(error)),
            Ok(_) => {},
        }
        if self.installed_policy.version == 0 {
            return Err(
                StoreError::InvalidControllerInput("installed policy version must be positive"),
            );
        }
        Ok(())
    }

    /// The text by which the request for a commit is found.
    pub open spec fn target_text(self) -> Seq<char> {
        match self.target_commit {
            Some(commit) => commit@,
            None => "-"@,
        }
    }

    pub fn target_key(&self) -> (r: &str)
        ensures
            r@ == self.target_text(),
    {
        match &self.target_commit {
            Some(commit) => commit.as_str(),
            None => "-",
        }
    }
}

/// Two commits are the same, or both are absent.
pub open spec fn same_commits(a: Option<GitCommitId>, b: Option<GitCommitId>) -> bool {
    match (a, b) {
        (Some(a), Some(b)) => a@ == b@,
        (None, None) => true,
        _ => false,
    }
}

fn commits_equal(a: &Option<GitCommitId>, b: &Option<GitCommitId>) -> (r: bool)
    ensures
        r == same_commits(*a, *b),
{
    match (a, b) {
        (Some(a), Some(b)) => *a == *b,
        (None, None) => true,
        _ => false,
    }
}

/// What keeps a grant from standing for an operation that a tab asks for.
pub open spec fn grant_fault(
    operation: NewOperation,
    lease: TabLeaseClaim,
    grant: ActionGrantClaims,
    at_ms: i64,
) -> Option<StoreError> {
    if lease.user_id.nil() || lease.lease_id.nil() || lease.generation == 0 || grant.nonce.nil() {
        Some(StoreError::InvalidControllerInput("lease and grant identities must not be nil"))
    } else if at_ms >= grant.expires_at_ms {
        Some(StoreError::GrantExpired)
    } else if grant.user_id != lease.user_id || grant.project_id@ != operation.project_id@
        || grant.operation_kind != operation.operation_kind || !same_commits(
        grant.target_commit,
        operation.target_commit,
    ) {
        Some(StoreError::GrantBindingMismatch)
    } else {
        None
    }
}

pub fn validate_grant_binding(
    operation: &NewOperation,
    lease: &TabLeaseClaim,
    grant: &ActionGrantClaims,
    admitted_at_ms: i64,
) -> (r: Result<(), StoreError>)
    ensures
        match r {
            Ok(()) => grant_fault(*operation, *lease, *grant, admitted_at_ms) is None,
            Err(error) => grant_fault(*operation, *lease, *grant, admitted_at_ms) == Some(error),
        },
{
    if lease.user_id.is_nil() || lease.lease_id.is_nil() || lease.generation == 0
        || grant.nonce.is_nil() {
        return Err(
            StoreError::InvalidControllerInput("lease and grant identities must not be nil"),
        );
    }
    if admitted_at_ms >= grant.expires_at_ms {
        return Err(StoreError::GrantExpired);
    }
    if grant.user_id != lease.user_id || grant.project_id != operation.project_id
        || grant.operation_kind != operation.operation_kind || !commits_equal(
        &grant.target_commit,
        &operation.target_commit,
    ) {
        return Err(StoreError::GrantBindingMismatch);
    }
    Ok(())
}

/// What keeps a lease from being the present one of a user.
pub open spec fn lease_fault(
    lease: TabLeaseClaim,
    expires_at_ms: Option<i64>,
    at_ms: i64,
) -> Option<StoreError> {
    if lease.generation > i64::MAX {
        Some(StoreError::InvalidControllerInput("lease generation overflow"))
    } else {
        match expires_at_ms {
            None => Some(StoreError::LeaseRevoked),
            Some(expires) => if at_ms >= expires {
                Some(StoreError::LeaseExpired)
            } else {
                None
            },
        }
    }
}

pub fn validate_current_lease(
    lease: &TabLeaseClaim,
    expires_at_ms: Option<i64>,
    at_ms: i64,
) -> (r: Result<(), StoreError>)
    ensures
        match r {
            Ok(()) => lease_fault(*lease, expires_at_ms, at_ms) is None,
            Err(error) => lease_fault(*lease, expires_at_ms, at_ms) == Some(error),
        },
{
    if lease.generation > i64::MAX as u64 {
        return Err(StoreError::InvalidControllerInput("lease generation overflow"));
    }
    match expires_at_ms {
        None => Err(StoreError::LeaseRevoked),
        Some(expires) => if at_ms >= expires {
            Err(StoreError::LeaseExpired)
        } else {
            Ok(())
        },
    }
}

impl VerifiedAutomationAdmission {
    /// What is wrong with a deployment that a source asks for.
    pub open spec fn fault(self) -> Option<StoreError> {
        if self.operation.fault() is Some {
            self.operation.fault()
        } else if self.operation.target_commit is None || !(self.operation.operation_kind is Deploy)
            || self.maximum_attempts == 0 || self.accepted_sequence == 0 || (
        self.operation.target_commit->0)@ != self.accepted_head@ || utf8(self.delivery_id@).len()
            == 0 || utf8(self.delivery_id@).len() > 128 || !ascii(utf8(self.delivery_id@)) {
            Some(StoreError::AutomationAdmissionRejected)
        } else {
            None
        }
    }

    pub fn validate_automation(&self) -> (r: Result<(), StoreError>)
        ensures
            match r {
                Ok(()) => self.fault() is None,
                Err(error) => self.fault() == Some(error),
            },
    {
        match self.operation.validate_operation() {
            Err(error) => return Err(error),
            Ok(()) => {},
        }
        match &self.operation.target_commit {
            None => return Err(StoreError::AutomationAdmissionRejected),
            Some(target) => {
                let bytes = self.delivery_id.as_str().as_bytes();
                if self.operation.operation_kind != OperationKind::Deploy || self.maximum_attempts
                    == 0 || self.accepted_sequence == 0 || *target != self.accepted_head
                    || bytes.len() == 0 || bytes.len() > 128 || !is_ascii(bytes) {
                    return Err(StoreError::AutomationAdmissionRejected);
                }
                Ok(())
            },
        }
    }
}

/// Every byte is ASCII.
pub open spec fn ascii(bytes: Seq<u8>) -> bool {
    forall|i: int| 0 <= i < bytes.len() ==> #[trigger] bytes[i] < 0x80
}

fn is_ascii(bytes: &[u8]) -> (r: bool)
    ensures
        r == ascii(bytes@),
{
    let mut i: usize = 0;
    while i < bytes.len()
        invariant
            i <= bytes.len(),
            forall|k: int| 0 <= k < i ==> #[trigger] bytes@[k] < 0x80,
        decreases bytes.len() - i,
    {
        if bytes[i] >= 0x80 {
            assert(!(bytes@[i as int] < 0x80));
            return false;
        }
        i += 1;
    }
    true
}

/// The request that an operation belongs to: the one that is there, or a new one.
pub open spec fn request_of(stored: Option<String>, fresh: Uuid) -> Result<Uuid, StoreError> {
    match stored {
        None => Ok(fresh),
        Some(text) => match uuid_parsed(text@) {
            None => Err(StoreError::CorruptController("UUID")),
            Some(value) => Ok(crate::unique_id::uuid_of(value)),
        },
    }
}

fn find_or_create_request(stored: &Option<String>, fresh: Uuid) -> (r: Result<Uuid, StoreError>)
    ensures
        r == request_of(*stored, fresh),
{
    match stored {
        None => Ok(fresh),
        Some(text) => match Uuid::parse(text.as_str()) {
            None => Err(StoreError::CorruptController("UUID")),
            Some(id) => Ok(id),
        },
    }
}

/// The number of the next attempt.
pub open spec fn number_after(current: u32) -> Result<AdmissionDecision, StoreError> {
    if current == u32::MAX {
        Err(StoreError::CorruptController("attempt number overflow"))
    } else {
        Ok(AdmissionDecision::Create(current + 1))
    }
}

fn next_attempt_number(current: u32) -> (r: Result<u32, StoreError>)
    ensures
        match r {
            Ok(next) => number_after(current) == Ok::<_, StoreError>(
                AdmissionDecision::Create(next as int),
            ),
            Err(error) => number_after(current) == Err::<AdmissionDecision, _>(error),
        },
{
    if current == u32::MAX {
        Err(StoreError::CorruptController("attempt number overflow"))
    } else {
        Ok(current + 1)
    }
}

/// The sequence of the source of an operation, zero where it has none.
pub open spec fn sequence_or_zero(operation: OperationRecord) -> u64 {
    match operation.evidence.source_sequence {
        Some(sequence) => sequence,
        None => 0,
    }
}

/// What is decided where the latest attempt of a request is known. A newer source starts a new
/// attempt, without a grant to retry; the same source starts one only after a failure or a
/// cancellation, with such a grant.
pub open spec fn interactive_outcome(
    existing: Option<OperationRecord>,
    request_id: Uuid,
    retry_request_id: Option<Uuid>,
    source: Option<InteractiveSourceEvidence>,
) -> Result<AdmissionDecision, StoreError> {
    match existing {
        None => if retry_request_id is Some {
            Err(StoreError::GrantBindingMismatch)
        } else {
            Ok(AdmissionDecision::Create(1))
        },
        Some(existing) => if source is Some && (source->0).sequence < sequence_or_zero(existing) {
            Err(StoreError::StaleSourceSequence)
        } else if existing.state.result is ManualRecoveryRequired
            || existing.state.result is RollbackFailed {
            Err(StoreError::RecoveryRequired(request_id))
        } else if source is Some && (source->0).sequence > sequence_or_zero(existing) {
            if retry_request_id is Some {
                Err(StoreError::GrantBindingMismatch)
            } else {
                number_after(existing.attempt_number)
            }
        } else if existing.state.result is Failed || existing.state.result is Cancelled {
            if retry_request_id != Some(request_id) {
                Err(StoreError::RetryGrantRequired(request_id))
            } else {
                number_after(existing.attempt_number)
            }
        } else {
            Ok(AdmissionDecision::Existing(existing))
        },
    }
}

/// What is decided on a user asking for an operation, once the request itself is in order. The
/// lease must be the present one; a grant that was used leads to the attempt that it started.
pub open spec fn interactive_decision(
    lease: TabLeaseClaim,
    grant: ActionGrantClaims,
    source: Option<InteractiveSourceEvidence>,
    rows: InteractiveRows,
    fresh: FreshIdentities,
    at_ms: i64,
) -> Result<AdmissionDecision, StoreError> {
    match lease_fault(lease, rows.lease_expires_at_ms, at_ms) {
        Some(error) => Err(error),
        None => match rows.used_grant {
            Some(used) => if used.grant_digest@ != grant.digest@ {
                Err(StoreError::GrantReplay)
            } else {
                match used.operation.stored_fault() {
                    Some(error) => Err(error),
                    None => Ok(AdmissionDecision::Existing(used.operation)),
                }
            },
            None => match request_of(rows.request_id, fresh.request_id) {
                Err(error) => Err(error),
                Ok(request_id) => match latest_fault(rows.latest) {
                    Some(error) => Err(error),
                    None => interactive_outcome(
                        rows.latest,
                        request_id,
                        grant.retry_request_id,
                        source,
                    ),
                },
            },
        },
    }
}

/// What is wrong with the latest attempt, where there is one.
pub open spec fn latest_fault(latest: Option<OperationRecord>) -> Option<StoreError> {
    match latest {
        Some(latest) => latest.stored_fault(),
        None => None,
    }
}

fn check_latest(latest: &Option<OperationRecord>) -> (r: Result<(), StoreError>)
    ensures
        match r {
            Ok(()) => latest_fault(*latest) is None,
            Err(error) => latest_fault(*latest) == Some(error),
        },
{
    match latest {
        Some(latest) => latest.check_stored(),
        None => Ok(()),
    }
}

/// A record is that of a new attempt at an operation.
pub open spec fn begins(
    record: OperationRecord,
    operation: NewOperation,
    request_id: Uuid,
    fresh: FreshIdentities,
    attempt_number: int,
    actor: OperationActor,
    action_grant_digest: Option<EvidenceDigest>,
    source_attestation_digest: Option<EvidenceDigest>,
    source_sequence: Option<u64>,
    at_ms: i64,
) -> bool {
    &&& record.operation_id == fresh.operation_id
    &&& record.request_id == request_id
    &&& record.attempt_id == fresh.attempt_id
    &&& record.attempt_number == attempt_number
    &&& record.project_id == operation.project_id
    &&& record.operation_kind == operation.operation_kind
    &&& record.target_commit == operation.target_commit
    &&& record.release_class == operation.release_class
    &&& record.state == OperationState::unblocked(OperationPhase::Queued, OperationResult::Running)
    &&& record.actor == actor
    &&& record.failure_capsule is None
    &&& record.created_at_ms == at_ms
    &&& record.updated_at_ms == at_ms
    &&& record.evidence.installed_policy == Some(operation.installed_policy)
    &&& record.evidence.action_grant_digest == action_grant_digest
    &&& record.evidence.source_attestation_digest == source_attestation_digest
    &&& record.evidence.source_sequence == source_sequence
    &&& (OperationEvidence {
        installed_policy: None,
        action_grant_digest: None,
        source_attestation_digest: None,
        source_sequence: None,
        ..record.evidence
    }).empty()
}

fn create_attempt(
    operation: &NewOperation,
    request_id: Uuid,
    fresh: FreshIdentities,
    attempt_number: u32,
    actor: OperationActor,
    action_grant_digest: Option<EvidenceDigest>,
    source_attestation_digest: Option<EvidenceDigest>,
    source_sequence: Option<u64>,
    created_at_ms: i64,
) -> (r: OperationRecord)
    ensures
        begins(
            r,
            *operation,
            request_id,
            fresh,
            attempt_number as int,
            actor,
            action_grant_digest,
            source_attestation_digest,
            source_sequence,
            created_at_ms,
        ),
{
    let mut evidence = OperationEvidence::default();
    evidence.installed_policy = Some(operation.installed_policy.clone());
    evidence.action_grant_digest = action_grant_digest;
    evidence.source_attestation_digest = source_attestation_digest;
    evidence.source_sequence = source_sequence;
    OperationRecord {
        operation_id: fresh.operation_id,
        request_id,
        attempt_id: fresh.attempt_id,
        attempt_number,
        project_id: operation.project_id.clone(),
        operation_kind: operation.operation_kind,
        target_commit: operation.target_commit.clone(),
        release_class: operation.release_class,
        state: OperationState {
            phase: OperationPhase::Queued,
            result: OperationResult::Running,
            blocking_reason: BlockingReason::Unblocked,
        },
        actor,
        evidence,
        failure_capsule: None,
        created_at_ms,
        updated_at_ms: created_at_ms,
    }
}

/// How many attempts had a source of some sequence, or the first that was stored out of order.
pub open spec fn attempts_of_sequence(attempts: Seq<OperationRecord>, sequence: u64) -> Result<
    int,
    StoreError,
>
    decreases attempts.len(),
{
    if attempts.len() == 0 {
        Ok(0)
    } else {
        match attempts_of_sequence(attempts.drop_last(), sequence) {
            Err(error) => Err(error),
            Ok(count) => match attempts.last().stored_fault() {
                Some(error) => Err(error),
                None => if attempts.last().evidence.source_sequence == Some(sequence) {
                    if count >= u32::MAX {
                        Err(StoreError::CorruptController("source attempt count overflow"))
                    } else {
                        Ok(count + 1)
                    }
                } else {
                    Ok(count)
                },
            },
        }
    }
}

proof fn lemma_first_error_stays(attempts: Seq<OperationRecord>, count: int, sequence: u64)
    requires
        0 <= count <= attempts.len(),
        attempts_of_sequence(attempts.take(count), sequence) is Err,
    ensures
        attempts_of_sequence(attempts, sequence) == attempts_of_sequence(
            attempts.take(count),
            sequence,
        ),
    decreases attempts.len() - count,
{
    if count == attempts.len() {
        assert(attempts.take(count) =~= attempts);
    } else {
        assert(attempts.take(count + 1).drop_last() =~= attempts.take(count));
        lemma_first_error_stays(attempts, count + 1, sequence);
    }
}

pub fn attempt_count_for_source_sequence(
    attempts: &Vec<OperationRecord>,
    sequence: u64,
) -> (r: Result<
    u32,
    StoreError,
>)
    ensures
        match r {
            Ok(count) => attempts_of_sequence(attempts@, sequence) == Ok::<_, StoreError>(
                count as int,
            ),
            Err(error) => attempts_of_sequence(attempts@, sequence) == Err::<int, _>(error),
        },
{
    let mut count: u32 = 0;
    let mut i: usize = 0;
    assert(attempts@.take(0) =~= seq![]);
    while i < attempts.len()
        invariant
            i <= attempts.len(),
            attempts_of_sequence(attempts@.take(i as int), sequence) == Ok::<_, StoreError>(
                count as int,
            ),
        decreases attempts.len() - i,
    {
        proof {
            assert(attempts@.take(i + 1).drop_last() =~= attempts@.take(i as int));
        }
        match attempts[i].check_stored() {
            Err(error) => {
                proof {
                    lemma_first_error_stays(attempts@, i + 1, sequence);
                }
                return Err(error);
            },
            Ok(()) => {},
        }
        if attempts[i].evidence.source_sequence == Some(sequence) {
            if count == u32::MAX {
                proof {
                    lemma_first_error_stays(attempts@, i + 1, sequence);
                }
                return Err(StoreError::CorruptController("source attempt count overflow"));
            }
            count += 1;
        }
        i += 1;
    }
    assert(attempts@.take(i as int) =~= attempts@);
    Ok(count)
}

/// What is decided where the latest attempt of a request is known. A newer source starts a new
/// attempt; the same source starts one only after a failure or a cancellation, and only so often.
pub open spec fn automation_outcome(
    existing: Option<OperationRecord>,
    attempts: Seq<OperationRecord>,
    request_id: Uuid,
    accepted_sequence: u64,
    maximum_attempts: u32,
) -> Result<AdmissionDecision, StoreError> {
    match existing {
        None => Ok(AdmissionDecision::Create(1)),
        Some(existing) => match existing.evidence.source_sequence {
            None => Err(StoreError::CorruptController("automated attempt lacks source sequence")),
            Some(sequence) => if accepted_sequence < sequence {
                Err(StoreError::StaleSourceSequence)
            } else if existing.state.result is ManualRecoveryRequired
                || existing.state.result is RollbackFailed {
                Err(StoreError::RecoveryRequired(request_id))
            } else if number_after(existing.attempt_number) is Err {
                number_after(existing.attempt_number)
            } else if accepted_sequence > sequence {
                number_after(existing.attempt_number)
            } else if existing.state.result is Failed || existing.state.result is Cancelled {
                match attempts_of_sequence(attempts, accepted_sequence) {
                    Err(error) => Err(error),
                    Ok(count) => if count >= maximum_attempts {
                        Err(StoreError::AutomationAdmissionRejected)
                    } else {
                        number_after(existing.attempt_number)
                    },
                }
            } else {
                Ok(AdmissionDecision::Existing(existing))
            },
        },
    }
}

/// What is decided on a source asking for a deployment, once the request itself is in order. A
/// delivery that came before leads to the latest attempt of its request.
pub open spec fn automation_decision(
    admission: VerifiedAutomationAdmission,
    rows: AutomationRows,
    fresh: FreshIdentities,
) -> Result<AdmissionDecision, StoreError> {
    match rows.delivery {
        Some(delivery) => if delivery.payload_digest@ != admission.payload_digest@ {
            Err(StoreError::DeliveryConflict)
        } else {
            match delivery.latest {
                None => Err(
                    StoreError::CorruptController("delivery references a request without attempts"),
                ),
                Some(latest) => match latest.stored_fault() {
                    Some(error) => Err(error),
                    None => Ok(AdmissionDecision::Existing(latest)),
                },
            }
        },
        None => match request_of(rows.request_id, fresh.request_id) {
            Err(error) => Err(error),
            Ok(request_id) => match latest_fault(rows.latest) {
                Some(error) => Err(error),
                None => automation_outcome(
                    rows.latest,
                    rows.attempts@,
                    request_id,
                    admission.accepted_sequence,
                    admission.maximum_attempts,
                ),
            },
        },
    }
}

/// The digest of the attested source, where there is one.
pub open spec fn attestation_of(
    source: Option<InteractiveSourceEvidence>,
) -> Option<EvidenceDigest> {
    match source {
        Some(source) => Some(source.attestation_digest),
        None => None,
    }
}

/// The sequence of the attested source, where there is one.
pub open spec fn sequence_of(source: Option<InteractiveSourceEvidence>) -> Option<u64> {
    match source {
        Some(source) => Some(source.sequence),
        None => None,
    }
}

/// What comes of a user asking for an operation.
pub open spec fn interactive_result(
    r: Result<AdmissionOutcome, StoreError>,
    operation: NewOperation,
    lease: TabLeaseClaim,
    grant: ActionGrantClaims,
    source: Option<InteractiveSourceEvidence>,
    rows: InteractiveRows,
    fresh: FreshIdentities,
    at_ms: i64,
) -> bool {
    let decision = interactive_decision(lease, grant, source, rows, fresh, at_ms);
    match r {
        Err(error) => if operation.fault() is Some {
            operation.fault() == Some(error)
        } else if grant_fault(operation, lease, grant, at_ms) is Some {
            grant_fault(operation, lease, grant, at_ms) == Some(error)
        } else {
            decision == Err::<AdmissionDecision, _>(error)
        },
        Ok(outcome) => {
            &&& operation.fault() is None
            &&& grant_fault(operation, lease, grant, at_ms) is None
            &&& match outcome {
                AdmissionOutcome::Existing(record) => decision == Ok::<_, StoreError>(
                    AdmissionDecision::Existing(record),
                ),
                AdmissionOutcome::Created(record) => {
                    &&& decision == Ok::<_, StoreError>(
                        AdmissionDecision::Create(record.attempt_number as int),
                    )
                    &&& begins(
                        record,
                        operation,
                        request_of(rows.request_id, fresh.request_id)->Ok_0,
                        fresh,
                        record.attempt_number as int,
                        OperationActor::Interactive { user_id: lease.user_id },
                        Some(grant.digest),
                        attestation_of(source),
                        sequence_of(source),
                        at_ms,
                    )
                },
            }
        },
    }
}

impl<S> DurableController<S> {
    /// Gives the lease of a user to a tab. Its generation is one above that of the lease before.
    pub fn takeover_lease(
        &self,
        user_id: Uuid,
        lease_id: Uuid,
        acquired_at_ms: i64,
        expires_at_ms: i64,
        previous_generation: Option<i64>,
    ) -> (r: Result<TabLease, StoreError>)
        ensures
            match r {
                Err(error) => if user_id.nil() || lease_id.nil() {
                    error == StoreError::InvalidControllerInput("lease identities must not be nil")
                } else if expires_at_ms <= acquired_at_ms {
                    error == StoreError::InvalidControllerInput(
                        "lease expiry must be later than acquisition",
                    )
                } else {
                    previous_generation matches Some(previous) && if previous < 0 {
                        error == StoreError::CorruptController("tab lease generation")
                    } else {
                        previous == i64::MAX && error == StoreError::InvalidControllerInput(
                            "lease generation overflow",
                        )
                    }
                },
                Ok(lease) => {
                    &&& !user_id.nil() && !lease_id.nil() && acquired_at_ms < expires_at_ms
                    &&& lease.user_id == user_id
                    &&& lease.lease_id == lease_id
                    &&& lease.acquired_at_ms == acquired_at_ms
                    &&& lease.expires_at_ms == expires_at_ms
                    &&& lease.generation == match previous_generation {
                        Some(previous) => previous + 1,
                        None => 1,
                    }
                    &&& 1 <= lease.generation <= i64::MAX
                },
            },
    {
        if user_id.is_nil() || lease_id.is_nil() {
            return Err(StoreError::InvalidControllerInput("lease identities must not be nil"));
        }
        if expires_at_ms <= acquired_at_ms {
            return Err(
                StoreError::InvalidControllerInput("lease expiry must be later than acquisition"),
            );
        }
        let generation: u64 = match previous_generation {
            None => 1,
            Some(previous) => {
                if previous < 0 {
                    return Err(StoreError::CorruptController("tab lease generation"));
                }
                if previous == i64::MAX {
                    return Err(StoreError::InvalidControllerInput("lease generation overflow"));
                }
                previous as u64 + 1
            },
        };
        Ok(TabLease { user_id, lease_id, generation, acquired_at_ms, expires_at_ms })
    }

    /// Accepts a lease that a tab claims, given when the lease of that user, tab and generation
    /// ends.
    pub fn validate_tab_lease(
        &self,
        lease: &TabLeaseClaim,
        stored_expires_at_ms: Option<i64>,
        now_ms: i64,
    ) -> (r: Result<(), StoreError>)
        ensures
            match r {
                Ok(()) => !lease.user_id.nil() && !lease.lease_id.nil() && lease.generation != 0
                    && now_ms >= 0 && lease_fault(*lease, stored_expires_at_ms, now_ms) is None,
                Err(error) => if lease.user_id.nil() || lease.lease_id.nil() || lease.generation == 0
                    || now_ms < 0 {
                    error == StoreError::InvalidControllerInput(
                        "lease identity or validation time is invalid",
                    )
                } else {
                    lease_fault(*lease, stored_expires_at_ms, now_ms) == Some(error)
                },
            },
    {
        if lease.user_id.is_nil() || lease.lease_id.is_nil() || lease.generation == 0 || now_ms < 0 {
            return Err(
                StoreError::InvalidControllerInput("lease identity or validation time is invalid"),
            );
        }
        validate_current_lease(lease, stored_expires_at_ms, now_ms)
    }

    /// Lets a user start an operation other than a deployment.
    pub fn admit_interactive(
        &self,
        operation: &NewOperation,
        lease: &TabLeaseClaim,
        grant: &ActionGrantClaims,
        rows: InteractiveRows,
        fresh: FreshIdentities,
        admitted_at_ms: i64,
    ) -> (r: Result<AdmissionOutcome, StoreError>)
        ensures
            if operation.operation_kind is Deploy {
                r == Err::<AdmissionOutcome, _>(StoreError::SourceAdmissionRequired)
            } else {
                interactive_result(
                    r,
                    *operation,
                    *lease,
                    *grant,
                    None,
                    rows,
                    fresh,
                    admitted_at_ms,
                )
            },
    {
        if operation.operation_kind == OperationKind::Deploy {
            return Err(StoreError::SourceAdmissionRequired);
        }
        self.admit_interactive_inner(operation, lease, grant, None, rows, fresh, admitted_at_ms)
    }

    /// Lets a user deploy a commit whose source was attested.
    pub fn admit_verified_interactive_deploy(
        &self,
        admission: &VerifiedInteractiveDeployAdmission,
        lease: &TabLeaseClaim,
        grant: &ActionGrantClaims,
        rows: InteractiveRows,
        fresh: FreshIdentities,
        admitted_at_ms: i64,
    ) -> (r: Result<AdmissionOutcome, StoreError>)
        ensures
            if !(admission.operation.operation_kind is Deploy) || !same_commits(
                admission.operation.target_commit,
                Some(admission.accepted_head),
            ) || admission.accepted_sequence == 0 {
                r == Err::<AdmissionOutcome, _>(StoreError::SourceAdmissionRequired)
            } else {
                interactive_result(
                    r,
                    admission.operation,
                    *lease,
                    *grant,
                    Some(
                        InteractiveSourceEvidence {
                            attestation_digest: admission.source_attestation_digest,
                            sequence: admission.accepted_sequence,
                        },
                    ),
                    rows,
                    fresh,
                    admitted_at_ms,
                )
            },
    {
        let bound = match &admission.operation.target_commit {
            Some(commit) => *commit == admission.accepted_head,
            None => false,
        };
        if admission.operation.operation_kind != OperationKind::Deploy || !bound
            || admission.accepted_sequence == 0 {
            return Err(StoreError::SourceAdmissionRequired);
        }
        self.admit_interactive_inner(
            &admission.operation,
            lease,
            grant,
            Some(
                InteractiveSourceEvidence {
                    attestation_digest: admission.source_attestation_digest.clone(),
                    sequence: admission.accepted_sequence,
                },
            ),
            rows,
            fresh,
            admitted_at_ms,
        )
    }

    fn admit_interactive_inner(
        &self,
        operation: &NewOperation,
        lease: &TabLeaseClaim,
        grant: &ActionGrantClaims,
        source: Option<InteractiveSourceEvidence>,
        rows: InteractiveRows,
        fresh: FreshIdentities,
        admitted_at_ms: i64,
    ) -> (r: Result<AdmissionOutcome, StoreError>)
        ensures
            interactive_result(r, *operation, *lease, *grant, source, rows, fresh, admitted_at_ms),
    {
        match operation.validate_operation() {
            Err(error) => return Err(error),
            Ok(()) => {},
        }
        match validate_grant_binding(operation, lease, grant, admitted_at_ms) {
            Err(error) => return Err(error),
            Ok(()) => {},
        }
        match validate_current_lease(lease, rows.lease_expires_at_ms, admitted_at_ms) {
            Err(error) => return Err(error),
            Ok(()) => {},
        }
        match rows.used_grant {
            Some(used) => {
                if !same_text(used.grant_digest.as_str(), grant.digest.as_str()) {
                    return Err(StoreError::GrantReplay);
                }
                return match OperationRecord::decode_operation(used.operation) {
                    Err(error) => Err(error),
                    Ok(operation) => Ok(AdmissionOutcome::Existing(operation)),
                };
            },
            None => {},
        }
        let request_id = match find_or_create_request(&rows.request_id, fresh.request_id) {
            Err(error) => return Err(error),
            Ok(request_id) => request_id,
        };
        match check_latest(&rows.latest) {
            Err(error) => return Err(error),
            Ok(()) => {},
        }
        let attempt_number: u32 = match rows.latest {
            None => {
                if grant.retry_request_id.is_some() {
                    return Err(StoreError::GrantBindingMismatch);
                }
                1
            },
            Some(existing) => {
                let known: u64 = match existing.evidence.source_sequence {
                    Some(sequence) => sequence,
                    None => 0,
                };
                let newer = match &source {
                    None => false,
                    Some(source) => {
                        if source.sequence < known {
                            return Err(StoreError::StaleSourceSequence);
                        }
                        source.sequence > known
                    },
                };
                if existing.state.result == OperationResult::ManualRecoveryRequired
                    || existing.state.result == OperationResult::RollbackFailed {
                    return Err(StoreError::RecoveryRequired(request_id));
                }
                if newer {
                    if grant.retry_request_id.is_some() {
                        return Err(StoreError::GrantBindingMismatch);
                    }
                } else if existing.state.result == OperationResult::Failed || existing.state.result
                    == OperationResult::Cancelled {
                    if grant.retry_request_id != Some(request_id) {
                        return Err(StoreError::RetryGrantRequired(request_id));
                    }
                } else {
                    return Ok(AdmissionOutcome::Existing(existing));
                }
                match next_attempt_number(existing.attempt_number) {
                    Err(error) => return Err(error),
                    Ok(next) => next,
                }
            },
        };
        let (source_attestation_digest, source_sequence) = match source {
            Some(source) => (Some(source.attestation_digest), Some(source.sequence)),
            None => (None, None),
        };
        Ok(
            AdmissionOutcome::Created(
                create_attempt(
                    operation,
                    request_id,
                    fresh,
                    attempt_number,
                    OperationActor::Interactive { user_id: lease.user_id },
                    Some(grant.digest.clone()),
                    source_attestation_digest,
                    source_sequence,
                    admitted_at_ms,
                ),
            ),
        )
    }

    /// Lets a source start the deployment of its head.
    pub fn admit_automation(
        &self,
        admission: &VerifiedAutomationAdmission,
        rows: AutomationRows,
        fresh: FreshIdentities,
        admitted_at_ms: i64,
    ) -> (r: Result<AdmissionOutcome, StoreError>)
        ensures
            match r {
                Err(error) => if admission.fault() is Some {
                    admission.fault() == Some(error)
                } else {
                    automation_decision(*admission, rows, fresh) == Err::<AdmissionDecision, _>(error)
                },
                Ok(AdmissionOutcome::Existing(record)) => {
                    &&& admission.fault() is None
                    &&& automation_decision(*admission, rows, fresh) == Ok::<_, StoreError>(
                        AdmissionDecision::Existing(record),
                    )
                },
                Ok(AdmissionOutcome::Created(record)) => {
                    &&& admission.fault() is None
                    &&& automation_decision(*admission, rows, fresh) == Ok::<_, StoreError>(
                        AdmissionDecision::Create(record.attempt_number as int),
                    )
                    &&& begins(
                        record,
                        admission.operation,
                        request_of(rows.request_id, fresh.request_id)->Ok_0,
                        fresh,
                        record.attempt_number as int,
                        OperationActor::Automation { source: admission.delivery_channel.source() },
                        None,
                        Some(admission.source_attestation_digest),
                        Some(admission.accepted_sequence),
                        admitted_at_ms,
                    )
                },
            },
    {
        match admission.validate_automation() {
            Err(error) => return Err(error),
            Ok(()) => {},
        }
        match rows.delivery {
            Some(delivery) => {
                if !same_text(delivery.payload_digest.as_str(), admission.payload_digest.as_str()) {
                    return Err(StoreError::DeliveryConflict);
                }
                return match delivery.latest {
                    None => Err(
                        StoreError::CorruptController(
                            "delivery references a request without attempts",
                        ),
                    ),
                    Some(latest) => match OperationRecord::decode_operation(latest) {
                        Err(error) => Err(error),
                        Ok(operation) => Ok(AdmissionOutcome::Existing(operation)),
                    },
                };
            },
            None => {},
        }
        let request_id = match find_or_create_request(&rows.request_id, fresh.request_id) {
            Err(error) => return Err(error),
            Ok(request_id) => request_id,
        };
        match check_latest(&rows.latest) {
            Err(error) => return Err(error),
            Ok(()) => {},
        }
        let attempt_number: u32 = match rows.latest {
            None => 1,
            Some(existing) => {
                let sequence: u64 = match existing.evidence.source_sequence {
                    None => return Err(
                        StoreError::CorruptController("automated attempt lacks source sequence"),
                    ),
                    Some(sequence) => sequence,
                };
                if admission.accepted_sequence < sequence {
                    return Err(StoreError::StaleSourceSequence);
                }
                if existing.state.result == OperationResult::ManualRecoveryRequired
                    || existing.state.result == OperationResult::RollbackFailed {
                    return Err(StoreError::RecoveryRequired(request_id));
                }
                let next: u32 = match next_attempt_number(existing.attempt_number) {
                    Err(error) => return Err(error),
                    Ok(next) => next,
                };
                if admission.accepted_sequence == sequence {
                    if existing.state.result == OperationResult::Failed || existing.state.result
                        == OperationResult::Cancelled {
                        match attempt_count_for_source_sequence(
                            &rows.attempts,
                            admission.accepted_sequence,
                        ) {
                            Err(error) => return Err(error),
                            Ok(count) => if count >= admission.maximum_attempts {
                                return Err(StoreError::AutomationAdmissionRejected);
                            },
                        }
                    } else {
                        return Ok(AdmissionOutcome::Existing(existing));
                    }
                }
                next
            },
        };
        Ok(
            AdmissionOutcome::Created(
                create_attempt(
                    &admission.operation,
                    request_id,
                    fresh,
                    attempt_number,
                    OperationActor::Automation { source: admission.delivery_channel.actor_source() },
                    None,
                    Some(admission.source_attestation_digest.clone()),
                    Some(admission.accepted_sequence),
                    admitted_at_ms,
                ),
            ),
        )
    }
}

/// The record of a new attempt may be stored, and its transitions form a chain.
pub proof fn law_new_attempts_are_storable(
    record: OperationRecord,
    operation: NewOperation,
    request_id: Uuid,
    fresh: FreshIdentities,
    attempt_number: int,
    actor: OperationActor,
    action_grant_digest: Option<EvidenceDigest>,
    source_attestation_digest: Option<EvidenceDigest>,
    source_sequence: Option<u64>,
    at_ms: i64,
)
    requires
        operation.fault() is None,
        begins(
            record,
            operation,
            request_id,
            fresh,
            attempt_number,
            actor,
            action_grant_digest,
            source_attestation_digest,
            source_sequence,
            at_ms,
        ),
    ensures
        record.stored_fault() is None,
        record.chained(),
{
}

/// A grant that was used leads to the attempt that it started, whatever came of other attempts.
pub proof fn law_used_grant_leads_to_its_attempt(
    lease: TabLeaseClaim,
    grant: ActionGrantClaims,
    source: Option<InteractiveSourceEvidence>,
    rows: InteractiveRows,
    fresh: FreshIdentities,
    at_ms: i64,
)
    requires
        lease_fault(lease, rows.lease_expires_at_ms, at_ms) is None,
        rows.used_grant is Some,
        (rows.used_grant->0).grant_digest@ == grant.digest@,
        (rows.used_grant->0).operation.stored_fault() is None,
    ensures
        interactive_decision(lease, grant, source, rows, fresh, at_ms) == Ok::<_, StoreError>(
            AdmissionDecision::Existing((rows.used_grant->0).operation),
        ),
{
}

/// A source is tried no more often than it may be: while its attempts are as many as allowed, it
/// starts no other.
pub proof fn law_attempts_are_limited(
    existing: OperationRecord,
    attempts: Seq<OperationRecord>,
    request_id: Uuid,
    accepted_sequence: u64,
    maximum_attempts: u32,
)
    requires
        existing.evidence.source_sequence == Some(accepted_sequence),
        attempts_of_sequence(attempts, accepted_sequence) matches Ok(count) && count
            >= maximum_attempts,
    ensures
        !(automation_outcome(
            Some(existing),
            attempts,
            request_id,
            accepted_sequence,
            maximum_attempts,
        ) matches Ok(AdmissionDecision::Create(_))),
{
}

} // verus!
