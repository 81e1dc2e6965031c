//! Intents of operations: signed by the executor, shown to whoever authorizes them, and verified
//! before they are carried out.

use vstd::prelude::*;
use payload::{
    is_payload,
    written_as,
    ExecutorIntentConsequenceV1,
    ExecutorIntentPayloadV1,
    ExecutorIntentRequiredRoleV1,
    MAX_EXECUTOR_INTENT_PAYLOAD_BYTES,
};
use readable::{is_readable, readable};
use token::{
    compact,
    decode_token,
    ed25519_public_key,
    ed25519_signature,
    ed25519_verifies,
    intent_digest,
    sign,
    signature_input,
    signed_bytes,
    to_compact,
    token_fault,
    token_payload,
    token_signature,
    verify_strict,
};
use crate::domain::identifiers::{
    commit_text,
    digest_option,
    digest_text,
    project_id_text,
    sha256,
    EvidenceDigest,
    GitCommitId,
    ProjectId,
};
use crate::domain::operation::{OperationKind, ReleaseClass};
use crate::text::{bounded_token, hex, is_bounded_token, same_text, text_option, ByteClass};
use crate::unique_id::Uuid;

pub mod cbor;
pub mod laws;
pub mod payload;
pub mod readable;
pub mod token;
pub mod unique;

verus! {

pub const EXECUTOR_INTENT_SCHEMA_VERSION: u16 = 2;

pub const EXECUTOR_INTENT_MAX_TTL_MS: i64 = 5 * 60 * 1_000;

pub const MAX_MIGRATION_ID_BYTES: usize = 128;

/// Why an intent is not issued, or not accepted.
#[derive(Debug, PartialEq, Eq)]
pub enum ExecutorIntentError {
    InvalidServiceIdentity,
    InvalidKeyId,
    InvalidKeyEpoch,
    InvalidKeyLifecycle,
    EmptyKeyring,
    DuplicateKey,
    InvalidLifetime,
    InvalidIdentity,
    OperationMismatch,
    InvalidSourceAuthority,
    InvalidMigrationId,
    InvalidRollbackTarget,
    InvalidProject,
    InvalidCommit,
    InvalidDigest,
    InvalidConsequences,
    InvalidRequiredRole,
    InvalidExpectedBinding,
    CborDecode,
    PayloadOversized,
    NonCanonicalPayload,
    InvalidTokenEncoding,
    NonCanonicalTokenEncoding,
    Base64,
    InvalidSignature,
    SignatureVerification,
    UnsupportedSchemaVersion(u16),
    InvalidVerificationTime,
    UnknownKey(String),
    KeyEpochRejected,
    KeyRevoked,
    KeyInactiveAtIssue,
    KeyRetired,
    IssuerMismatch,
    AudienceMismatch,
    NotYetValid,
    Expired,
    BindingMismatch,
}

impl ExecutorIntentError {
    /// The error in words.
    pub fn message(&self) -> (r: &'static str)
        ensures
            r@ == match *self {
                ExecutorIntentError::InvalidServiceIdentity =>
                    "executor-intent service identity is invalid"@,
                ExecutorIntentError::InvalidKeyId =>
                    "executor-intent key ID is invalid"@,
                ExecutorIntentError::InvalidKeyEpoch =>
                    "executor-intent key epoch is outside the durable range"@,
                ExecutorIntentError::InvalidKeyLifecycle =>
                    "executor-intent key lifecycle is invalid"@,
                ExecutorIntentError::EmptyKeyring =>
                    "executor-intent keyring must not be empty"@,
                ExecutorIntentError::DuplicateKey =>
                    "executor-intent keyring contains a duplicate key ID"@,
                ExecutorIntentError::InvalidLifetime =>
                    "executor-intent lifetime is invalid or exceeds five minutes"@,
                ExecutorIntentError::InvalidIdentity =>
                    "executor-intent identity must not be nil"@,
                ExecutorIntentError::OperationMismatch =>
                    "executor-intent operation, release class or target is inconsistent"@,
                ExecutorIntentError::InvalidSourceAuthority =>
                    "executor-intent source authority is missing or inconsistent"@,
                ExecutorIntentError::InvalidMigrationId =>
                    "executor-intent migration identifier is invalid"@,
                ExecutorIntentError::InvalidRollbackTarget =>
                    "executor-intent rollback target is invalid"@,
                ExecutorIntentError::InvalidProject =>
                    "executor-intent project is invalid"@,
                ExecutorIntentError::InvalidCommit =>
                    "executor-intent commit is invalid"@,
                ExecutorIntentError::InvalidDigest =>
                    "executor-intent contains an invalid evidence digest"@,
                ExecutorIntentError::InvalidConsequences =>
                    "executor-intent consequences do not match the resolved operation"@,
                ExecutorIntentError::InvalidRequiredRole =>
                    "executor-intent minimum role does not match the resolved operation"@,
                ExecutorIntentError::InvalidExpectedBinding =>
                    "expected executor-intent binding is invalid"@,
                ExecutorIntentError::CborDecode =>
                    "executor-intent CBOR decoding failed"@,
                ExecutorIntentError::PayloadOversized =>
                    "executor-intent payload is empty or oversized"@,
                ExecutorIntentError::NonCanonicalPayload =>
                    "executor-intent payload is not deterministic canonical CBOR"@,
                ExecutorIntentError::InvalidTokenEncoding =>
                    "executor-intent compact token encoding is invalid"@,
                ExecutorIntentError::NonCanonicalTokenEncoding =>
                    "executor-intent compact token encoding is not canonical"@,
                ExecutorIntentError::Base64 =>
                    "executor-intent base64url decoding failed"@,
                ExecutorIntentError::InvalidSignature =>
                    "executor-intent signature has an invalid length"@,
                ExecutorIntentError::SignatureVerification =>
                    "executor-intent signature verification failed"@,
                ExecutorIntentError::UnsupportedSchemaVersion(_) =>
                    "unsupported executor-intent schema version"@,
                ExecutorIntentError::InvalidVerificationTime =>
                    "executor-intent verification time is invalid"@,
                ExecutorIntentError::UnknownKey(_) =>
                    "unknown executor-intent key"@,
                ExecutorIntentError::KeyEpochRejected =>
                    "executor-intent key epoch was rolled back or does not match its key"@,
                ExecutorIntentError::KeyRevoked =>
                    "executor-intent key was revoked"@,
                ExecutorIntentError::KeyInactiveAtIssue =>
                    "executor-intent key was not active when this intent was issued"@,
                ExecutorIntentError::KeyRetired =>
                    "executor-intent verification overlap has ended"@,
                ExecutorIntentError::IssuerMismatch =>
                    "executor-intent issuer does not match policy"@,
                ExecutorIntentError::AudienceMismatch =>
                    "executor-intent audience does not match the authorizer"@,
                ExecutorIntentError::NotYetValid =>
                    "executor intent is not valid yet"@,
                ExecutorIntentError::Expired =>
                    "executor intent has expired"@,
                ExecutorIntentError::BindingMismatch =>
                    "executor intent does not match the expected request, project, operation or policy"@,
            },
    {
        match self {
            ExecutorIntentError::InvalidServiceIdentity =>
                "executor-intent service identity is invalid",
            ExecutorIntentError::InvalidKeyId =>
                "executor-intent key ID is invalid",
            ExecutorIntentError::InvalidKeyEpoch =>
                "executor-intent key epoch is outside the durable range",
            ExecutorIntentError::InvalidKeyLifecycle =>
                "executor-intent key lifecycle is invalid",
            ExecutorIntentError::EmptyKeyring =>
                "executor-intent keyring must not be empty",
            ExecutorIntentError::DuplicateKey =>
                "executor-intent keyring contains a duplicate key ID",
            ExecutorIntentError::InvalidLifetime =>
                "executor-intent lifetime is invalid or exceeds five minutes",
            ExecutorIntentError::InvalidIdentity =>
                "executor-intent identity must not be nil",
            ExecutorIntentError::OperationMismatch =>
                "executor-intent operation, release class or target is inconsistent",
            ExecutorIntentError::InvalidSourceAuthority =>
                "executor-intent source authority is missing or inconsistent",
            ExecutorIntentError::InvalidMigrationId =>
                "executor-intent migration identifier is invalid",
            ExecutorIntentError::InvalidRollbackTarget =>
                "executor-intent rollback target is invalid",
            ExecutorIntentError::InvalidProject =>
                "executor-intent project is invalid",
            ExecutorIntentError::InvalidCommit =>
                "executor-intent commit is invalid",
            ExecutorIntentError::InvalidDigest =>
                "executor-intent contains an invalid evidence digest",
            ExecutorIntentError::InvalidConsequences =>
                "executor-intent consequences do not match the resolved operation",
            ExecutorIntentError::InvalidRequiredRole =>
                "executor-intent minimum role does not match the resolved operation",
            ExecutorIntentError::InvalidExpectedBinding =>
                "expected executor-intent binding is invalid",
            ExecutorIntentError::CborDecode =>
                "executor-intent CBOR decoding failed",
            ExecutorIntentError::PayloadOversized =>
                "executor-intent payload is empty or oversized",
            ExecutorIntentError::NonCanonicalPayload =>
                "executor-intent payload is not deterministic canonical CBOR",
            ExecutorIntentError::InvalidTokenEncoding =>
                "executor-intent compact token encoding is invalid",
            ExecutorIntentError::NonCanonicalTokenEncoding =>
                "executor-intent compact token encoding is not canonical",
            ExecutorIntentError::Base64 =>
                "executor-intent base64url decoding failed",
            ExecutorIntentError::InvalidSignature =>
                "executor-intent signature has an invalid length",
            ExecutorIntentError::SignatureVerification =>
                "executor-intent signature verification failed",
            ExecutorIntentError::UnsupportedSchemaVersion(_) =>
                "unsupported executor-intent schema version",
            ExecutorIntentError::InvalidVerificationTime =>
                "executor-intent verification time is invalid",
            ExecutorIntentError::UnknownKey(_) =>
                "unknown executor-intent key",
            ExecutorIntentError::KeyEpochRejected =>
                "executor-intent key epoch was rolled back or does not match its key",
            ExecutorIntentError::KeyRevoked =>
                "executor-intent key was revoked",
            ExecutorIntentError::KeyInactiveAtIssue =>
                "executor-intent key was not active when this intent was issued",
            ExecutorIntentError::KeyRetired =>
                "executor-intent verification overlap has ended",
            ExecutorIntentError::IssuerMismatch =>
                "executor-intent issuer does not match policy",
            ExecutorIntentError::AudienceMismatch =>
                "executor-intent audience does not match the authorizer",
            ExecutorIntentError::NotYetValid =>
                "executor intent is not valid yet",
            ExecutorIntentError::Expired =>
                "executor intent has expired",
            ExecutorIntentError::BindingMismatch =>
                "executor intent does not match the expected request, project, operation or policy",
        }
    }
}

/// What an intent is issued for.
#[derive(Clone, Debug, PartialEq, Eq)]
pub struct ExecutorIntentIssueInputV1 {
    pub issued_at_ms: i64,
    pub not_before_ms: i64,
    pub expires_at_ms: i64,
    pub intent_id: Uuid,
    pub request_id: Uuid,
    pub project_id: ProjectId,
    pub operation_kind: OperationKind,
    pub target_commit: Option<GitCommitId>,
    pub proposed_release_class: Option<ReleaseClass>,
    pub effective_release_class: Option<ReleaseClass>,
    pub installed_policy_digest: EvidenceDigest,
    pub source_attestation_digest: Option<EvidenceDigest>,
    pub source_sequence: Option<u64>,
    pub release_bundle_digest: Option<EvidenceDigest>,
    pub build_attestation_digest: Option<EvidenceDigest>,
    pub migration_id: Option<String>,
    pub previous_release_bundle_digest: Option<EvidenceDigest>,
}

/// What an intent is expected to be of.
#[derive(Clone, Debug, PartialEq, Eq)]
pub struct ExecutorIntentExpectedBindingV1 {
    pub request_id: Uuid,
    pub project_id: ProjectId,
    pub operation_kind: OperationKind,
    pub target_commit: Option<GitCommitId>,
    pub installed_policy_digest: EvidenceDigest,
}

/// What an intent says.
#[derive(Clone, Debug, PartialEq, Eq)]
pub struct ExecutorIntentClaimsV1 {
    pub schema_version: u16,
    pub issuer: String,
    pub authorizer_audience: String,
    pub key_id: String,
    pub key_epoch: u64,
    pub issued_at_ms: i64,
    pub not_before_ms: i64,
    pub expires_at_ms: i64,
    pub intent_id: Uuid,
    pub request_id: Uuid,
    pub project_id: ProjectId,
    pub operation_kind: OperationKind,
    pub target_commit: Option<GitCommitId>,
    pub proposed_release_class: Option<ReleaseClass>,
    pub effective_release_class: Option<ReleaseClass>,
    pub installed_policy_digest: EvidenceDigest,
    pub source_attestation_digest: Option<EvidenceDigest>,
    pub source_sequence: Option<u64>,
    pub release_bundle_digest: Option<EvidenceDigest>,
    pub build_attestation_digest: Option<EvidenceDigest>,
    pub migration_id: Option<String>,
    pub previous_release_bundle_digest: Option<EvidenceDigest>,
    pub consequences: Vec<ExecutorIntentConsequenceV1>,
    pub minimum_role: ExecutorIntentRequiredRoleV1,
}

/// The characters of a commit that may be missing.
pub open spec fn commit_option(value: Option<GitCommitId>) -> Option<Seq<char>> {
    match value {
        Some(commit) => Some(commit@),
        None => None,
    }
}

fn commit_str(value: &Option<GitCommitId>) -> (r: Option<String>)
    ensures
        text_option(r) == commit_option(*value),
        r is Some ==> commit_text((r->0)@),
{
    match value {
        Some(commit) => Some(commit.as_str().to_owned()),
        None => None,
    }
}

fn digest_string(value: &Option<EvidenceDigest>) -> (r: Option<String>)
    ensures
        text_option(r) == digest_option(*value),
        ExecutorIntentPayloadV1::digest_there(r),
{
    match value {
        Some(digest) => Some(digest.as_str().to_owned()),
        None => None,
    }
}

/// A name of a service: visible ASCII.
pub open spec fn service_identity(text: Seq<char>) -> bool {
    bounded_token(text, ByteClass::Graphic, 1, 256)
}

/// A name of a key.
pub open spec fn key_name(text: Seq<char>) -> bool {
    bounded_token(text, ByteClass::Token, 1, 64)
}

/// An epoch that can be stored.
pub open spec fn durable_epoch(epoch: u64) -> bool {
    0 < epoch <= i64::MAX
}

/// What is wrong with the names of a signer.
pub open spec fn signer_fault(
    issuer: Seq<char>,
    audience: Seq<char>,
    key_id: Seq<char>,
    key_epoch: u64,
) -> Option<ExecutorIntentError> {
    if !service_identity(issuer) || !service_identity(audience) {
        Some(ExecutorIntentError::InvalidServiceIdentity)
    } else if !key_name(key_id) {
        Some(ExecutorIntentError::InvalidKeyId)
    } else if !durable_epoch(key_epoch) {
        Some(ExecutorIntentError::InvalidKeyEpoch)
    } else {
        None
    }
}

pub fn check_signer(issuer: &str, audience: &str, key_id: &str, key_epoch: u64) -> (r: Result<
    (),
    ExecutorIntentError,
>)
    ensures
        match r {
            Ok(()) => signer_fault(issuer@, audience@, key_id@, key_epoch) is None,
            Err(error) => signer_fault(issuer@, audience@, key_id@, key_epoch) == Some(error),
        },
{
    if !is_bounded_token(issuer, ByteClass::Graphic, 1, 256) || !is_bounded_token(
        audience,
        ByteClass::Graphic,
        1,
        256,
    ) {
        return Err(ExecutorIntentError::InvalidServiceIdentity);
    }
    if !is_bounded_token(key_id, ByteClass::Token, 1, 64) {
        return Err(ExecutorIntentError::InvalidKeyId);
    }
    if key_epoch == 0 || key_epoch > i64::MAX as u64 {
        return Err(ExecutorIntentError::InvalidKeyEpoch);
    }
    Ok(())
}

/// The terms of an intent: all that decides whether it can be issued.
pub struct Terms {
    pub issued_at_ms: i64,
    pub not_before_ms: i64,
    pub expires_at_ms: i64,
    pub intent_id: Uuid,
    pub request_id: Uuid,
    pub operation_kind: OperationKind,
    pub has_commit: bool,
    pub proposed_release_class: Option<ReleaseClass>,
    pub effective_release_class: Option<ReleaseClass>,
    pub has_source: bool,
    pub source_sequence: Option<u64>,
    pub has_bundle: bool,
    pub has_attestation: bool,
    pub has_previous: bool,
}

impl Terms {
    /// An intent is good for some time, but no longer than five minutes.
    pub open spec fn lasts(self) -> bool {
        &&& 0 <= self.issued_at_ms <= self.not_before_ms < self.expires_at_ms
        &&& self.expires_at_ms - self.issued_at_ms <= EXECUTOR_INTENT_MAX_TTL_MS
    }

    /// The class that was proposed goes with the kind of the operation.
    pub open spec fn proposes(self) -> bool {
        match self.operation_kind {
            OperationKind::Deploy => self.proposed_release_class matches Some(class) && !(
            class is Rollback),
            OperationKind::CodeRollback => self.proposed_release_class == Some(
                ReleaseClass::Rollback,
            ),
            OperationKind::BackupOnly => self.proposed_release_class is None,
        }
    }

    /// What is named of the source goes with the kind of the operation.
    pub open spec fn sourced(self) -> bool {
        &&& self.has_source == self.source_sequence is Some
        &&& self.has_source == self.operation_kind.has_commit()
        &&& self.source_sequence matches Some(sequence) ==> 0 < sequence <= i64::MAX
    }

    /// The operation migrates data.
    pub open spec fn migrates(self) -> bool {
        self.effective_release_class matches Some(class) && (class is StatefulCompatible || class
            is StatefulBreaking)
    }

    /// What is named of the candidate goes with the kind of the operation.
    pub open spec fn binds_candidate(self) -> bool {
        match self.operation_kind {
            OperationKind::Deploy => self.has_bundle && self.has_attestation,
            OperationKind::CodeRollback => self.has_bundle && !self.has_attestation,
            OperationKind::BackupOnly => !self.has_bundle && !self.has_attestation,
        }
    }

    /// What keeps an intent of these terms from being issued.
    pub open spec fn fault(self, migration_id: Option<Seq<char>>) -> Option<ExecutorIntentError> {
        if !self.lasts() {
            Some(ExecutorIntentError::InvalidLifetime)
        } else if self.intent_id.nil() || self.request_id.nil() {
            Some(ExecutorIntentError::InvalidIdentity)
        } else if self.operation_kind.has_commit() != self.has_commit || self.operation_kind.plan(
            self.effective_release_class,
        ) is None || !self.proposes() {
            Some(ExecutorIntentError::OperationMismatch)
        } else if !self.sourced() {
            Some(ExecutorIntentError::InvalidSourceAuthority)
        } else if self.migrates() != migration_id is Some || (migration_id is Some
            && !migration_name(migration_id->0)) {
            Some(ExecutorIntentError::InvalidMigrationId)
        } else if !self.binds_candidate() {
            Some(ExecutorIntentError::OperationMismatch)
        } else if (self.operation_kind is CodeRollback) != self.has_previous && !(
        self.operation_kind is Deploy) {
            Some(ExecutorIntentError::InvalidRollbackTarget)
        } else {
            None
        }
    }

    fn check(&self, migration_id: &Option<String>) -> (r: Result<(), ExecutorIntentError>)
        ensures
            match r {
                Ok(()) => self.fault(text_option(*migration_id)) is None,
                Err(error) => self.fault(text_option(*migration_id)) == Some(error),
            },
    {
        if self.issued_at_ms < 0 || self.not_before_ms < self.issued_at_ms || self.expires_at_ms
            <= self.not_before_ms || self.expires_at_ms - self.issued_at_ms
            > EXECUTOR_INTENT_MAX_TTL_MS {
            return Err(ExecutorIntentError::InvalidLifetime);
        }
        if self.intent_id.is_nil() || self.request_id.is_nil() {
            return Err(ExecutorIntentError::InvalidIdentity);
        }
        if self.operation_kind.requires_commit() != self.has_commit
            || self.operation_kind.required_phases(self.effective_release_class).is_err() {
            return Err(ExecutorIntentError::OperationMismatch);
        }
        let proposed_valid = match self.operation_kind {
            OperationKind::Deploy => match self.proposed_release_class {
                Some(class) => class != ReleaseClass::Rollback,
                None => false,
            },
            OperationKind::CodeRollback => match self.proposed_release_class {
                Some(class) => class == ReleaseClass::Rollback,
                None => false,
            },
            OperationKind::BackupOnly => self.proposed_release_class.is_none(),
        };
        if !proposed_valid {
            return Err(ExecutorIntentError::OperationMismatch);
        }
        let sequence_valid = match self.source_sequence {
            Some(sequence) => sequence > 0 && sequence <= i64::MAX as u64,
            None => true,
        };
        if self.has_source != self.source_sequence.is_some() || self.has_source
            != self.operation_kind.requires_commit() || !sequence_valid {
            return Err(ExecutorIntentError::InvalidSourceAuthority);
        }
        let needs_migration = match self.effective_release_class {
            Some(class) => class == ReleaseClass::StatefulCompatible || class
                == ReleaseClass::StatefulBreaking,
            None => false,
        };
        let migration_valid = match migration_id {
            Some(id) => is_bounded_token(id.as_str(), ByteClass::Path, 1, MAX_MIGRATION_ID_BYTES),
            None => true,
        };
        if needs_migration != migration_id.is_some() || !migration_valid {
            return Err(ExecutorIntentError::InvalidMigrationId);
        }
        let candidate_valid = match self.operation_kind {
            OperationKind::Deploy => self.has_bundle && self.has_attestation,
            OperationKind::CodeRollback => self.has_bundle && !self.has_attestation,
            OperationKind::BackupOnly => !self.has_bundle && !self.has_attestation,
        };
        if !candidate_valid {
            return Err(ExecutorIntentError::OperationMismatch);
        }
        if (self.operation_kind == OperationKind::CodeRollback) != self.has_previous
            && self.operation_kind != OperationKind::Deploy {
            return Err(ExecutorIntentError::InvalidRollbackTarget);
        }
        Ok(())
    }

    /// What the operation brings about.
    pub open spec fn consequences(self) -> Seq<ExecutorIntentConsequenceV1> {
        match (self.operation_kind, self.effective_release_class) {
            (OperationKind::Deploy, Some(ReleaseClass::CodeOnlyCompatible)) => seq![
                ExecutorIntentConsequenceV1::CodeDeployment,
                if self.has_previous {
                    ExecutorIntentConsequenceV1::AutomaticCodeRollbackAvailable
                } else {
                    ExecutorIntentConsequenceV1::FirstInstallRollbackUnavailable
                },
                ExecutorIntentConsequenceV1::DataRestoreIsManual,
            ],
            (OperationKind::Deploy, Some(ReleaseClass::StatefulCompatible)) => seq![
                ExecutorIntentConsequenceV1::CodeDeployment,
                ExecutorIntentConsequenceV1::VerifiedBackupRequired,
                ExecutorIntentConsequenceV1::ApplicationWriteDrain,
                ExecutorIntentConsequenceV1::SchemaMigration,
                ExecutorIntentConsequenceV1::AutomaticCodeRollbackAvailable,
                ExecutorIntentConsequenceV1::DataRestoreIsManual,
            ],
            (OperationKind::Deploy, Some(ReleaseClass::StatefulBreaking)) => seq![
                ExecutorIntentConsequenceV1::CodeDeployment,
                ExecutorIntentConsequenceV1::VerifiedBackupRequired,
                ExecutorIntentConsequenceV1::ApplicationWriteDrain,
                ExecutorIntentConsequenceV1::SchemaMigration,
                ExecutorIntentConsequenceV1::AutomaticRollbackProhibited,
                ExecutorIntentConsequenceV1::DataRestoreIsManual,
            ],
            (OperationKind::CodeRollback, Some(ReleaseClass::Rollback)) => seq![
                ExecutorIntentConsequenceV1::CodeRollback,
                ExecutorIntentConsequenceV1::DataRestoreIsManual,
            ],
            (OperationKind::BackupOnly, None) => seq![ExecutorIntentConsequenceV1::BackupOnly],
            _ => Seq::empty(),
        }
    }

    fn expected_consequences(&self) -> (r: Vec<ExecutorIntentConsequenceV1>)
        ensures
            r@ == self.consequences(),
    {
        let rollback = if self.has_previous {
            ExecutorIntentConsequenceV1::AutomaticCodeRollbackAvailable
        } else {
            ExecutorIntentConsequenceV1::FirstInstallRollbackUnavailable
        };
        match (self.operation_kind, self.effective_release_class) {
            (OperationKind::Deploy, Some(ReleaseClass::CodeOnlyCompatible)) => vec![
                ExecutorIntentConsequenceV1::CodeDeployment,
                rollback,
                ExecutorIntentConsequenceV1::DataRestoreIsManual,
            ],
            (OperationKind::Deploy, Some(ReleaseClass::StatefulCompatible)) => vec![
                ExecutorIntentConsequenceV1::CodeDeployment,
                ExecutorIntentConsequenceV1::VerifiedBackupRequired,
                ExecutorIntentConsequenceV1::ApplicationWriteDrain,
                ExecutorIntentConsequenceV1::SchemaMigration,
                ExecutorIntentConsequenceV1::AutomaticCodeRollbackAvailable,
                ExecutorIntentConsequenceV1::DataRestoreIsManual,
            ],
            (OperationKind::Deploy, Some(ReleaseClass::StatefulBreaking)) => vec![
                ExecutorIntentConsequenceV1::CodeDeployment,
                ExecutorIntentConsequenceV1::VerifiedBackupRequired,
                ExecutorIntentConsequenceV1::ApplicationWriteDrain,
                ExecutorIntentConsequenceV1::SchemaMigration,
                ExecutorIntentConsequenceV1::AutomaticRollbackProhibited,
                ExecutorIntentConsequenceV1::DataRestoreIsManual,
            ],
            (OperationKind::CodeRollback, Some(ReleaseClass::Rollback)) => vec![
                ExecutorIntentConsequenceV1::CodeRollback,
                ExecutorIntentConsequenceV1::DataRestoreIsManual,
            ],
            (OperationKind::BackupOnly, None) => vec![ExecutorIntentConsequenceV1::BackupOnly],
            _ => Vec::new(),
        }
    }

    /// Who has to agree, at least: an admin to what cannot be undone, and to a rollback.
    pub open spec fn role(self) -> ExecutorIntentRequiredRoleV1 {
        if self.operation_kind is CodeRollback || self.effective_release_class == Some(
            ReleaseClass::StatefulBreaking,
        ) {
            ExecutorIntentRequiredRoleV1::Admin
        } else {
            ExecutorIntentRequiredRoleV1::Operator
        }
    }

    fn expected_minimum_role(&self) -> (r: ExecutorIntentRequiredRoleV1)
        ensures
            r == self.role(),
    {
        let breaking = match self.effective_release_class {
            Some(class) => class == ReleaseClass::StatefulBreaking,
            None => false,
        };
        if self.operation_kind == OperationKind::CodeRollback || breaking {
            ExecutorIntentRequiredRoleV1::Admin
        } else {
            ExecutorIntentRequiredRoleV1::Operator
        }
    }
}

/// A name of a migration.
pub open spec fn migration_name(text: Seq<char>) -> bool {
    bounded_token(text, ByteClass::Path, 1, MAX_MIGRATION_ID_BYTES as int)
}

impl ExecutorIntentIssueInputV1 {
    /// The terms of the intent.
    pub open spec fn terms(self) -> Terms {
        Terms {
            issued_at_ms: self.issued_at_ms,
            not_before_ms: self.not_before_ms,
            expires_at_ms: self.expires_at_ms,
            intent_id: self.intent_id,
            request_id: self.request_id,
            operation_kind: self.operation_kind,
            has_commit: self.target_commit is Some,
            proposed_release_class: self.proposed_release_class,
            effective_release_class: self.effective_release_class,
            has_source: self.source_attestation_digest is Some,
            source_sequence: self.source_sequence,
            has_bundle: self.release_bundle_digest is Some,
            has_attestation: self.build_attestation_digest is Some,
            has_previous: self.previous_release_bundle_digest is Some,
        }
    }

    fn to_terms(&self) -> (r: Terms)
        ensures
            r == self.terms(),
    {
        Terms {
            issued_at_ms: self.issued_at_ms,
            not_before_ms: self.not_before_ms,
            expires_at_ms: self.expires_at_ms,
            intent_id: self.intent_id,
            request_id: self.request_id,
            operation_kind: self.operation_kind,
            has_commit: self.target_commit.is_some(),
            proposed_release_class: self.proposed_release_class,
            effective_release_class: self.effective_release_class,
            has_source: self.source_attestation_digest.is_some(),
            source_sequence: self.source_sequence,
            has_bundle: self.release_bundle_digest.is_some(),
            has_attestation: self.build_attestation_digest.is_some(),
            has_previous: self.previous_release_bundle_digest.is_some(),
        }
    }
}

impl ExecutorIntentPayloadV1 {
    /// The terms of the intent.
    pub open spec fn terms(self) -> Terms {
        Terms {
            issued_at_ms: self.issued_at_ms,
            not_before_ms: self.not_before_ms,
            expires_at_ms: self.expires_at_ms,
            intent_id: self.intent_id,
            request_id: self.request_id,
            operation_kind: self.operation_kind,
            has_commit: self.target_commit is Some,
            proposed_release_class: self.proposed_release_class,
            effective_release_class: self.effective_release_class,
            has_source: self.source_attestation_digest is Some,
            source_sequence: self.source_sequence,
            has_bundle: self.release_bundle_digest is Some,
            has_attestation: self.build_attestation_digest is Some,
            has_previous: self.previous_release_bundle_digest is Some,
        }
    }

    fn to_terms(&self) -> (r: Terms)
        ensures
            r == self.terms(),
    {
        Terms {
            issued_at_ms: self.issued_at_ms,
            not_before_ms: self.not_before_ms,
            expires_at_ms: self.expires_at_ms,
            intent_id: self.intent_id,
            request_id: self.request_id,
            operation_kind: self.operation_kind,
            has_commit: self.target_commit.is_some(),
            proposed_release_class: self.proposed_release_class,
            effective_release_class: self.effective_release_class,
            has_source: self.source_attestation_digest.is_some(),
            source_sequence: self.source_sequence,
            has_bundle: self.release_bundle_digest.is_some(),
            has_attestation: self.build_attestation_digest.is_some(),
            has_previous: self.previous_release_bundle_digest.is_some(),
        }
    }
}

impl ExecutorIntentClaimsV1 {
    /// The claims say what a payload says.
    pub open spec fn says(self, payload: ExecutorIntentPayloadV1) -> bool {
        &&& self.schema_version == payload.schema_version
        &&& self.issuer@ == payload.issuer@
        &&& self.authorizer_audience@ == payload.authorizer_audience@
        &&& self.key_id@ == payload.key_id@
        &&& self.key_epoch == payload.key_epoch
        &&& self.issued_at_ms == payload.issued_at_ms
        &&& self.not_before_ms == payload.not_before_ms
        &&& self.expires_at_ms == payload.expires_at_ms
        &&& self.intent_id == payload.intent_id
        &&& self.request_id == payload.request_id
        &&& self.project_id@ == payload.project_id@
        &&& self.operation_kind == payload.operation_kind
        &&& commit_option(self.target_commit) == text_option(payload.target_commit)
        &&& self.proposed_release_class == payload.proposed_release_class
        &&& self.effective_release_class == payload.effective_release_class
        &&& self.installed_policy_digest@ == payload.installed_policy_digest@
        &&& digest_option(self.source_attestation_digest) == text_option(payload.source_attestation_digest)
        &&& self.source_sequence == payload.source_sequence
        &&& digest_option(self.release_bundle_digest) == text_option(payload.release_bundle_digest)
        &&& digest_option(self.build_attestation_digest) == text_option(payload.build_attestation_digest)
        &&& text_option(self.migration_id) == text_option(payload.migration_id)
        &&& digest_option(self.previous_release_bundle_digest) == text_option(payload.previous_release_bundle_digest)
        &&& self.consequences@ == payload.consequences@
        &&& self.minimum_role == payload.minimum_role
    }

    /// The claims are of what is expected.
    pub open spec fn bound_to(self, expected: ExecutorIntentExpectedBindingV1) -> bool {
        &&& self.request_id == expected.request_id
        &&& self.project_id@ == expected.project_id@
        &&& self.operation_kind == expected.operation_kind
        &&& commit_option(self.target_commit) == commit_option(expected.target_commit)
        &&& self.installed_policy_digest@ == expected.installed_policy_digest@
    }

    pub fn matches_binding(&self, expected: &ExecutorIntentExpectedBindingV1) -> (r: bool)
        ensures
            r == self.bound_to(*expected),
    {
        let commits_match = match (&self.target_commit, &expected.target_commit) {
            (None, None) => true,
            (Some(a), Some(b)) => *a == *b,
            _ => false,
        };
        self.request_id == expected.request_id && self.project_id == expected.project_id
            && self.operation_kind == expected.operation_kind && commits_match
            && self.installed_policy_digest == expected.installed_policy_digest
    }
}

impl ExecutorIntentPayloadV1 {
    /// A payload says what an intent is issued for, by a signer.
    pub open spec fn issued_for(
        self,
        input: ExecutorIntentIssueInputV1,
        issuer: Seq<char>,
        audience: Seq<char>,
        key_id: Seq<char>,
        key_epoch: u64,
    ) -> bool {
        &&& self.schema_version == EXECUTOR_INTENT_SCHEMA_VERSION
        &&& self.issuer@ == issuer
        &&& self.authorizer_audience@ == audience
        &&& self.key_id@ == key_id
        &&& self.key_epoch == key_epoch
        &&& input.issued_at_ms == self.issued_at_ms
        &&& input.not_before_ms == self.not_before_ms
        &&& input.expires_at_ms == self.expires_at_ms
        &&& input.intent_id == self.intent_id
        &&& input.request_id == self.request_id
        &&& input.project_id@ == self.project_id@
        &&& input.operation_kind == self.operation_kind
        &&& commit_option(input.target_commit) == text_option(self.target_commit)
        &&& input.proposed_release_class == self.proposed_release_class
        &&& input.effective_release_class == self.effective_release_class
        &&& input.installed_policy_digest@ == self.installed_policy_digest@
        &&& digest_option(input.source_attestation_digest) == text_option(self.source_attestation_digest)
        &&& input.source_sequence == self.source_sequence
        &&& digest_option(input.release_bundle_digest) == text_option(self.release_bundle_digest)
        &&& digest_option(input.build_attestation_digest) == text_option(self.build_attestation_digest)
        &&& text_option(input.migration_id) == text_option(self.migration_id)
        &&& digest_option(input.previous_release_bundle_digest) == text_option(self.previous_release_bundle_digest)
        &&& self.consequences@ == input.terms().consequences()
        &&& self.minimum_role == input.terms().role()
    }

    /// A text that may be missing stands for a digest.
    pub open spec fn digest_there(value: Option<String>) -> bool {
        value matches Some(value) ==> digest_text(value@)
    }

    /// What is wrong with the identifiers of a payload.
    pub open spec fn identifier_fault(self) -> Option<ExecutorIntentError> {
        if !project_id_text(self.project_id@) {
            Some(ExecutorIntentError::InvalidProject)
        } else if self.target_commit is Some && !commit_text((self.target_commit->0)@) {
            Some(ExecutorIntentError::InvalidCommit)
        } else if !digest_text(self.installed_policy_digest@)
            || !ExecutorIntentPayloadV1::digest_there(self.source_attestation_digest)
            || !ExecutorIntentPayloadV1::digest_there(self.release_bundle_digest)
            || !ExecutorIntentPayloadV1::digest_there(self.build_attestation_digest)
            || !ExecutorIntentPayloadV1::digest_there(self.previous_release_bundle_digest) {
            Some(ExecutorIntentError::InvalidDigest)
        } else {
            None
        }
    }

    /// What is wrong with a payload.
    pub open spec fn fault(self) -> Option<ExecutorIntentError> {
        if self.schema_version != EXECUTOR_INTENT_SCHEMA_VERSION {
            Some(ExecutorIntentError::UnsupportedSchemaVersion(self.schema_version))
        } else if signer_fault(
            self.issuer@,
            self.authorizer_audience@,
            self.key_id@,
            self.key_epoch,
        ) is Some {
            signer_fault(self.issuer@, self.authorizer_audience@, self.key_id@, self.key_epoch)
        } else if self.identifier_fault() is Some {
            self.identifier_fault()
        } else if self.terms().fault(text_option(self.migration_id)) is Some {
            self.terms().fault(text_option(self.migration_id))
        } else if self.consequences@ != self.terms().consequences() {
            Some(ExecutorIntentError::InvalidConsequences)
        } else if self.minimum_role != self.terms().role() {
            Some(ExecutorIntentError::InvalidRequiredRole)
        } else {
            None
        }
    }
}

fn same_consequences(
    a: &Vec<ExecutorIntentConsequenceV1>,
    b: &Vec<ExecutorIntentConsequenceV1>,
) -> (same: bool)
    ensures
        same == (a@ == b@),
{
    if a.len() != b.len() {
        return false;
    }
    let mut i: usize = 0;
    while i < a.len()
        invariant
            i <= a.len(),
            a.len() == b.len(),
            a@.take(i as int) == b@.take(i as int),
        decreases a.len() - i,
    {
        if a[i] != b[i] {
            assert(a@[i as int] != b@[i as int]);
            return false;
        }
        i += 1;
        assert(a@.take(i as int) =~= a@.take(i - 1).push(a@[i - 1]));
        assert(b@.take(i as int) =~= b@.take(i - 1).push(b@[i - 1]));
    }
    assert(a@.take(i as int) =~= a@);
    assert(b@.take(i as int) =~= b@);
    true
}

fn parse_optional_digest(value: &Option<String>) -> (r: Result<
    Option<EvidenceDigest>,
    ExecutorIntentError,
>)
    ensures
        match r {
            Ok(digest) => ExecutorIntentPayloadV1::digest_there(*value) && digest_option(digest)
                == text_option(*value),
            Err(error) => error is InvalidDigest && !ExecutorIntentPayloadV1::digest_there(*value),
        },
{
    match value {
        None => Ok(None),
        Some(value) => match EvidenceDigest::parse(value.as_str()) {
            Ok(digest) => Ok(Some(digest)),
            Err(_) => Err(ExecutorIntentError::InvalidDigest),
        },
    }
}

/// What a payload says, where nothing is wrong with it.
pub fn validate_payload_shape(payload: &ExecutorIntentPayloadV1) -> (r: Result<
    ExecutorIntentClaimsV1,
    ExecutorIntentError,
>)
    ensures
        match r {
            Ok(claims) => payload.fault() is None && claims.says(*payload),
            Err(error) => payload.fault() == Some(error),
        },
{
    if payload.schema_version != EXECUTOR_INTENT_SCHEMA_VERSION {
        return Err(ExecutorIntentError::UnsupportedSchemaVersion(payload.schema_version));
    }
    match check_signer(
        payload.issuer.as_str(),
        payload.authorizer_audience.as_str(),
        payload.key_id.as_str(),
        payload.key_epoch,
    ) {
        Err(error) => return Err(error),
        Ok(()) => {},
    }
    let project_id = match ProjectId::parse(payload.project_id.as_str()) {
        Err(_) => return Err(ExecutorIntentError::InvalidProject),
        Ok(project_id) => project_id,
    };
    let target_commit = match &payload.target_commit {
        None => None,
        Some(commit) => match GitCommitId::parse(commit.as_str()) {
            Err(_) => return Err(ExecutorIntentError::InvalidCommit),
            Ok(commit) => Some(commit),
        },
    };
    let installed_policy_digest = match EvidenceDigest::parse(
        payload.installed_policy_digest.as_str(),
    ) {
        Err(_) => return Err(ExecutorIntentError::InvalidDigest),
        Ok(digest) => digest,
    };
    let source_attestation_digest = match parse_optional_digest(&payload.source_attestation_digest) {
        Err(error) => return Err(error),
        Ok(digest) => digest,
    };
    let release_bundle_digest = match parse_optional_digest(&payload.release_bundle_digest) {
        Err(error) => return Err(error),
        Ok(digest) => digest,
    };
    let build_attestation_digest = match parse_optional_digest(&payload.build_attestation_digest) {
        Err(error) => return Err(error),
        Ok(digest) => digest,
    };
    let previous_release_bundle_digest = match parse_optional_digest(&payload.previous_release_bundle_digest) {
        Err(error) => return Err(error),
        Ok(digest) => digest,
    };
    let terms = payload.to_terms();
    match terms.check(&payload.migration_id) {
        Err(error) => return Err(error),
        Ok(()) => {},
    }
    let consequences = terms.expected_consequences();
    if !same_consequences(&payload.consequences, &consequences) {
        return Err(ExecutorIntentError::InvalidConsequences);
    }
    if payload.minimum_role != terms.expected_minimum_role() {
        return Err(ExecutorIntentError::InvalidRequiredRole);
    }
    Ok(
        ExecutorIntentClaimsV1 {
            schema_version: payload.schema_version,
            issuer: payload.issuer.clone(),
            authorizer_audience: payload.authorizer_audience.clone(),
            key_id: payload.key_id.clone(),
            key_epoch: payload.key_epoch,
            issued_at_ms: payload.issued_at_ms,
            not_before_ms: payload.not_before_ms,
            expires_at_ms: payload.expires_at_ms,
            intent_id: payload.intent_id,
            request_id: payload.request_id,
            project_id,
            operation_kind: payload.operation_kind,
            target_commit,
            proposed_release_class: payload.proposed_release_class,
            effective_release_class: payload.effective_release_class,
            installed_policy_digest,
            source_attestation_digest,
            source_sequence: payload.source_sequence,
            release_bundle_digest,
            build_attestation_digest,
            migration_id: payload.migration_id.clone(),
            previous_release_bundle_digest,
            consequences,
            minimum_role: payload.minimum_role,
        },
    )
}

/// Bytes are too many for a payload, or none.
pub open spec fn oversized(bytes: Seq<u8>) -> bool {
    bytes.len() == 0 || bytes.len() > MAX_EXECUTOR_INTENT_PAYLOAD_BYTES
}

/// What keeps bytes from being those of a payload.
pub open spec fn payload_fault(bytes: Seq<u8>) -> Option<ExecutorIntentError> {
    if oversized(bytes) {
        Some(ExecutorIntentError::PayloadOversized)
    } else if is_payload(bytes) {
        None
    } else if readable(bytes) {
        Some(ExecutorIntentError::NonCanonicalPayload)
    } else {
        Some(ExecutorIntentError::CborDecode)
    }
}

/// The payload that some bytes are the bytes of.
pub fn decode_canonical_payload(bytes: &[u8]) -> (r: Result<
    ExecutorIntentPayloadV1,
    ExecutorIntentError,
>)
    ensures
        match r {
            Ok(payload) => payload_fault(bytes@) is None && written_as(bytes@, payload),
            Err(error) => payload_fault(bytes@) == Some(error),
        },
{
    if bytes.len() == 0 || bytes.len() > MAX_EXECUTOR_INTENT_PAYLOAD_BYTES {
        return Err(ExecutorIntentError::PayloadOversized);
    }
    match payload::read_canonical(bytes) {
        Some(payload) => Ok(payload),
        None => if is_readable(bytes) {
            Err(ExecutorIntentError::NonCanonicalPayload)
        } else {
            Err(ExecutorIntentError::CborDecode)
        },
    }
}

/// The bytes of a payload, where they are not too many.
pub fn encode_payload(
    payload: &ExecutorIntentPayloadV1,
) -> (r: Result<Vec<u8>, ExecutorIntentError>)
    ensures
        match r {
            Ok(bytes) => bytes@ == payload.cbor() && bytes@.len() <= MAX_EXECUTOR_INTENT_PAYLOAD_BYTES,
            Err(error) => error is PayloadOversized && payload.cbor().len()
                > MAX_EXECUTOR_INTENT_PAYLOAD_BYTES,
        },
{
    let bytes = payload.to_cbor();
    if bytes.len() > MAX_EXECUTOR_INTENT_PAYLOAD_BYTES {
        Err(ExecutorIntentError::PayloadOversized)
    } else {
        Ok(bytes)
    }
}

/// An intent with its signature.
#[derive(Clone, Debug, PartialEq, Eq)]
pub struct SignedExecutorIntentV1 {
    compact: String,
    claims: ExecutorIntentClaimsV1,
    digest: EvidenceDigest,
}

impl SignedExecutorIntentV1 {
    pub closed spec fn token_text(self) -> Seq<char> {
        self.compact@
    }

    pub closed spec fn held_claims(self) -> ExecutorIntentClaimsV1 {
        self.claims
    }

    pub closed spec fn held_digest(self) -> EvidenceDigest {
        self.digest
    }

    pub fn compact(&self) -> (r: &str)
        ensures
            r@ == self.token_text(),
    {
        self.compact.as_str()
    }

    pub fn claims(&self) -> (r: &ExecutorIntentClaimsV1)
        ensures
            *r == self.held_claims(),
    {
        &self.claims
    }

    pub fn digest(&self) -> (r: &EvidenceDigest)
        ensures
            *r == self.held_digest(),
    {
        &self.digest
    }
}

/// An intent whose signature was verified.
#[derive(Clone, Debug, PartialEq, Eq)]
pub struct VerifiedExecutorIntentV1 {
    claims: ExecutorIntentClaimsV1,
    digest: EvidenceDigest,
}

impl VerifiedExecutorIntentV1 {
    pub closed spec fn held_claims(self) -> ExecutorIntentClaimsV1 {
        self.claims
    }

    pub closed spec fn held_digest(self) -> EvidenceDigest {
        self.digest
    }

    pub fn claims(&self) -> (r: &ExecutorIntentClaimsV1)
        ensures
            *r == self.held_claims(),
    {
        &self.claims
    }

    pub fn digest(&self) -> (r: &EvidenceDigest)
        ensures
            *r == self.held_digest(),
    {
        &self.digest
    }
}

/// What signs intents. It is not printed, for the seed that it holds.
pub struct ExecutorIntentSignerV1 {
    issuer: String,
    authorizer_audience: String,
    key_id: String,
    key_epoch: u64,
    seed: [u8; 32],
}

impl Clone for ExecutorIntentSignerV1 {
    fn clone(&self) -> (r: Self)
        ensures
            r == *self,
    {
        proof {
            use_type_invariant(self);
        }
        ExecutorIntentSignerV1 {
            issuer: self.issuer.clone(),
            authorizer_audience: self.authorizer_audience.clone(),
            key_id: self.key_id.clone(),
            key_epoch: self.key_epoch,
            seed: self.seed,
        }
    }
}

impl ExecutorIntentSignerV1 {
    pub closed spec fn issuer_text(self) -> Seq<char> {
        self.issuer@
    }

    pub closed spec fn audience_text(self) -> Seq<char> {
        self.authorizer_audience@
    }

    pub closed spec fn key_text(self) -> Seq<char> {
        self.key_id@
    }

    pub closed spec fn epoch(self) -> u64 {
        self.key_epoch
    }

    pub closed spec fn seed_bytes(self) -> Seq<u8> {
        self.seed@
    }

    /// The names of a signer are good.
    #[verifier::type_invariant]
    spec fn wf(self) -> bool {
        signer_fault(self.issuer@, self.authorizer_audience@, self.key_id@, self.key_epoch) is None
    }

    pub fn new(
        issuer: String,
        authorizer_audience: String,
        key_id: String,
        key_epoch: u64,
        seed: [u8; 32],
    ) -> (r: Result<ExecutorIntentSignerV1, ExecutorIntentError>)
        ensures
            match r {
                Ok(signer) => {
                    &&& signer_fault(issuer@, authorizer_audience@, key_id@, key_epoch) is None
                    &&& signer.issuer_text() == issuer@
                    &&& signer.audience_text() == authorizer_audience@
                    &&& signer.key_text() == key_id@
                    &&& signer.epoch() == key_epoch
                    &&& signer.seed_bytes() == seed@
                },
                Err(error) => signer_fault(issuer@, authorizer_audience@, key_id@, key_epoch) == Some(
                    error,
                ),
            },
    {
        match check_signer(
            issuer.as_str(),
            authorizer_audience.as_str(),
            key_id.as_str(),
            key_epoch,
        ) {
            Err(error) => Err(error),
            Ok(()) => Ok(
                ExecutorIntentSignerV1 { issuer, authorizer_audience, key_id, key_epoch, seed },
            ),
        }
    }

    /// A token is the one of an intent of a payload.
    pub open spec fn signs(
        self,
        payload: ExecutorIntentPayloadV1,
        signed: SignedExecutorIntentV1,
    ) -> bool {
        let bytes = payload.cbor();
        let signature = ed25519_signature(self.seed_bytes(), signed_bytes(bytes));
        &&& signed.token_text() == compact(bytes, signature)
        &&& signature.len() == token::SIGNATURE_BYTES
        &&& token::reads_back(bytes)
        &&& token::reads_back(signature)
        &&& signed.held_claims().says(payload)
        &&& signed.held_digest()@ == hex(sha256(signed_bytes(bytes) + signature))
    }

    /// Issues an intent.
    pub fn issue(&self, input: &ExecutorIntentIssueInputV1) -> (r: Result<
        SignedExecutorIntentV1,
        ExecutorIntentError,
    >)
        ensures
            match r {
                Ok(signed) => {
                    &&& input.terms().fault(text_option(input.migration_id)) is None
                    &&& exists|payload: ExecutorIntentPayloadV1| #[trigger]
                        payload.issued_for(
                            *input,
                            self.issuer_text(),
                            self.audience_text(),
                            self.key_text(),
                            self.epoch(),
                        ) && payload.fault() is None && payload.cbor().len()
                            <= MAX_EXECUTOR_INTENT_PAYLOAD_BYTES && self.signs(payload, signed)
                },
                Err(error) => match input.terms().fault(text_option(input.migration_id)) {
                    Some(expected) => error == expected,
                    None => error is PayloadOversized && exists|payload: ExecutorIntentPayloadV1| #[trigger]
                        payload.issued_for(
                            *input,
                            self.issuer_text(),
                            self.audience_text(),
                            self.key_text(),
                            self.epoch(),
                        ) && payload.cbor().len() > MAX_EXECUTOR_INTENT_PAYLOAD_BYTES,
                },
            },
    {
        proof {
            use_type_invariant(self);
        }
        let terms = input.to_terms();
        match terms.check(&input.migration_id) {
            Err(error) => return Err(error),
            Ok(()) => {},
        }
        let payload = ExecutorIntentPayloadV1 {
            schema_version: EXECUTOR_INTENT_SCHEMA_VERSION,
            issuer: self.issuer.clone(),
            authorizer_audience: self.authorizer_audience.clone(),
            key_id: self.key_id.clone(),
            key_epoch: self.key_epoch,
            issued_at_ms: input.issued_at_ms,
            not_before_ms: input.not_before_ms,
            expires_at_ms: input.expires_at_ms,
            intent_id: input.intent_id,
            request_id: input.request_id,
            project_id: input.project_id.as_str().to_owned(),
            operation_kind: input.operation_kind,
            target_commit: commit_str(&input.target_commit),
            proposed_release_class: input.proposed_release_class,
            effective_release_class: input.effective_release_class,
            installed_policy_digest: input.installed_policy_digest.as_str().to_owned(),
            source_attestation_digest: digest_string(&input.source_attestation_digest),
            source_sequence: input.source_sequence,
            release_bundle_digest: digest_string(&input.release_bundle_digest),
            build_attestation_digest: digest_string(&input.build_attestation_digest),
            migration_id: input.migration_id.clone(),
            previous_release_bundle_digest: digest_string(&input.previous_release_bundle_digest),
            consequences: terms.expected_consequences(),
            minimum_role: terms.expected_minimum_role(),
        };
        assert(payload.terms() == input.terms());
        assert(payload.issued_for(
            *input,
            self.issuer_text(),
            self.audience_text(),
            self.key_text(),
            self.epoch(),
        ));
        let bytes = match encode_payload(&payload) {
            Err(error) => return Err(error),
            Ok(bytes) => bytes,
        };
        assert(payload.identifier_fault() is None);
        match validate_payload_shape(&payload) {
            Err(error) => Err(error),
            Ok(claims) => {
                let message = signature_input(bytes.as_slice());
                let signature = sign(&self.seed, message.as_slice());
                let compact = to_compact(bytes.as_slice(), signature.as_slice());
                let digest = intent_digest(bytes.as_slice(), signature.as_slice());
                let signed = SignedExecutorIntentV1 { compact, claims, digest };
                assert(self.signs(payload, signed));
                Ok(signed)
            },
        }
    }
}

/// A key that verifies intents, and when it does.
#[derive(Clone, Debug)]
pub struct ExecutorIntentVerificationKeyV1 {
    key_id: String,
    key_epoch: u64,
    public_key: [u8; 32],
    active_from_ms: i64,
    signing_retired_at_ms: Option<i64>,
    verify_until_ms: Option<i64>,
    revoked_at_ms: Option<i64>,
}

/// The times of a key are in order: it is active before it is retired and before it is revoked, and
/// what it signed is verified for some time after it is retired.
pub open spec fn ordered_lifecycle(
    active_from_ms: i64,
    signing_retired_at_ms: Option<i64>,
    verify_until_ms: Option<i64>,
    revoked_at_ms: Option<i64>,
) -> bool {
    &&& active_from_ms >= 0
    &&& signing_retired_at_ms is Some == verify_until_ms is Some
    &&& signing_retired_at_ms matches Some(retired) ==> retired > active_from_ms
        && verify_until_ms->0 > retired
    &&& revoked_at_ms matches Some(revoked) ==> revoked >= active_from_ms
}

/// What is wrong with a key.
pub open spec fn key_fault(
    key_id: Seq<char>,
    key_epoch: u64,
    active_from_ms: i64,
    signing_retired_at_ms: Option<i64>,
    verify_until_ms: Option<i64>,
    revoked_at_ms: Option<i64>,
) -> Option<ExecutorIntentError> {
    if !key_name(key_id) {
        Some(ExecutorIntentError::InvalidKeyId)
    } else if !durable_epoch(key_epoch) {
        Some(ExecutorIntentError::InvalidKeyEpoch)
    } else if !ordered_lifecycle(
        active_from_ms,
        signing_retired_at_ms,
        verify_until_ms,
        revoked_at_ms,
    ) {
        Some(ExecutorIntentError::InvalidKeyLifecycle)
    } else {
        None
    }
}

/// Whether a key is good.
pub fn check_key(
    key_id: &str,
    key_epoch: u64,
    active_from_ms: i64,
    signing_retired_at_ms: Option<i64>,
    verify_until_ms: Option<i64>,
    revoked_at_ms: Option<i64>,
) -> (r: Result<(), ExecutorIntentError>)
    ensures
        ({
            let fault = key_fault(
                key_id@,
                key_epoch,
                active_from_ms,
                signing_retired_at_ms,
                verify_until_ms,
                revoked_at_ms,
            );
            match r {
                Ok(()) => fault is None,
                Err(error) => fault == Some(error),
            }
        }),
{
    if !is_bounded_token(key_id, ByteClass::Token, 1, 64) {
        return Err(ExecutorIntentError::InvalidKeyId);
    }
    if key_epoch == 0 || key_epoch > i64::MAX as u64 {
        return Err(ExecutorIntentError::InvalidKeyEpoch);
    }
    let overlap_valid = match (signing_retired_at_ms, verify_until_ms) {
        (None, None) => true,
        (Some(retired), Some(until)) => retired > active_from_ms && until > retired,
        _ => false,
    };
    let revocation_valid = match revoked_at_ms {
        Some(revoked) => revoked >= active_from_ms,
        None => true,
    };
    if active_from_ms < 0 || !overlap_valid || !revocation_valid {
        return Err(ExecutorIntentError::InvalidKeyLifecycle);
    }
    Ok(())
}

impl ExecutorIntentVerificationKeyV1 {
    pub closed spec fn key_text(self) -> Seq<char> {
        self.key_id@
    }

    pub closed spec fn epoch(self) -> u64 {
        self.key_epoch
    }

    pub closed spec fn public_bytes(self) -> Seq<u8> {
        self.public_key@
    }

    pub closed spec fn active_from(self) -> i64 {
        self.active_from_ms
    }

    pub closed spec fn retired_at(self) -> Option<i64> {
        self.signing_retired_at_ms
    }

    pub closed spec fn verifies_until(self) -> Option<i64> {
        self.verify_until_ms
    }

    pub closed spec fn revoked_at(self) -> Option<i64> {
        self.revoked_at_ms
    }

    pub fn new(
        key_id: String,
        key_epoch: u64,
        public_key: [u8; 32],
        active_from_ms: i64,
        signing_retired_at_ms: Option<i64>,
        verify_until_ms: Option<i64>,
        revoked_at_ms: Option<i64>,
    ) -> (r: Result<ExecutorIntentVerificationKeyV1, ExecutorIntentError>)
        ensures
            ({
                let fault = key_fault(
                    key_id@,
                    key_epoch,
                    active_from_ms,
                    signing_retired_at_ms,
                    verify_until_ms,
                    revoked_at_ms,
                );
                match r {
                    Ok(key) => {
                        &&& fault is None
                        &&& key.key_text() == key_id@
                        &&& key.epoch() == key_epoch
                        &&& key.public_bytes() == public_key@
                        &&& key.active_from() == active_from_ms
                        &&& key.retired_at() == signing_retired_at_ms
                        &&& key.verifies_until() == verify_until_ms
                        &&& key.revoked_at() == revoked_at_ms
                    },
                    Err(error) => fault == Some(error),
                }
            }),
    {
        match check_key(
            key_id.as_str(),
            key_epoch,
            active_from_ms,
            signing_retired_at_ms,
            verify_until_ms,
            revoked_at_ms,
        ) {
            Err(error) => Err(error),
            Ok(()) => Ok(
                ExecutorIntentVerificationKeyV1 {
                    key_id,
                    key_epoch,
                    public_key,
                    active_from_ms,
                    signing_retired_at_ms,
                    verify_until_ms,
                    revoked_at_ms,
                },
            ),
        }
    }

    /// What keeps the key from verifying what was issued at some time: it is revoked, it was not
    /// active then, or it verifies no more.
    pub open spec fn lifecycle_fault(self, issued_at_ms: i64, now_ms: i64) -> Option<
        ExecutorIntentError,
    > {
        if self.revoked_at() is Some && self.revoked_at()->0 <= now_ms {
            Some(ExecutorIntentError::KeyRevoked)
        } else if issued_at_ms < self.active_from() || (self.retired_at() is Some && issued_at_ms
            >= self.retired_at()->0) {
            Some(ExecutorIntentError::KeyInactiveAtIssue)
        } else if self.verifies_until() is Some && now_ms >= self.verifies_until()->0 {
            Some(ExecutorIntentError::KeyRetired)
        } else {
            None
        }
    }

    fn validate_key_lifecycle(&self, issued_at_ms: i64, now_ms: i64) -> (r: Result<
        (),
        ExecutorIntentError,
    >)
        ensures
            match r {
                Ok(()) => self.lifecycle_fault(issued_at_ms, now_ms) is None,
                Err(error) => self.lifecycle_fault(issued_at_ms, now_ms) == Some(error),
            },
    {
        match self.revoked_at_ms {
            Some(revoked) => if revoked <= now_ms {
                return Err(ExecutorIntentError::KeyRevoked);
            },
            None => {},
        }
        if issued_at_ms < self.active_from_ms {
            return Err(ExecutorIntentError::KeyInactiveAtIssue);
        }
        match self.signing_retired_at_ms {
            Some(retired) => if issued_at_ms >= retired {
                return Err(ExecutorIntentError::KeyInactiveAtIssue);
            },
            None => {},
        }
        match self.verify_until_ms {
            Some(until) => if now_ms >= until {
                return Err(ExecutorIntentError::KeyRetired);
            },
            None => {},
        }
        Ok(())
    }
}

/// The first key of a name.
pub open spec fn key_named(keys: Seq<ExecutorIntentVerificationKeyV1>, name: Seq<char>) -> Option<
    ExecutorIntentVerificationKeyV1,
>
    decreases keys.len(),
{
    if keys.len() == 0 {
        None
    } else if keys[0].key_text() == name {
        Some(keys[0])
    } else {
        key_named(keys.drop_first(), name)
    }
}

/// No name is given to two keys.
pub open spec fn names_differ(keys: Seq<ExecutorIntentVerificationKeyV1>) -> bool {
    forall|i: int, j: int|
        0 <= i < j < keys.len() ==> (#[trigger] keys[i]).key_text() != (#[trigger] keys[j]).key_text()
}

fn find_key(keys: &Vec<ExecutorIntentVerificationKeyV1>, name: &str) -> (r: Option<usize>)
    ensures
        match r {
            Some(i) => i < keys@.len() && key_named(keys@, name@) == Some(keys@[i as int]),
            None => key_named(keys@, name@) is None && forall|i: int|
                0 <= i < keys@.len() ==> (#[trigger] keys@[i]).key_text() != name@,
        },
{
    let mut i: usize = 0;
    assert(keys@.skip(0) =~= keys@);
    while i < keys.len()
        invariant
            i <= keys.len(),
            key_named(keys@, name@) == key_named(keys@.skip(i as int), name@),
            forall|k: int| 0 <= k < i ==> (#[trigger] keys@[k]).key_text() != name@,
        decreases keys.len() - i,
    {
        proof {
            assert(keys@.skip(i as int)[0] == keys@[i as int]);
            assert(keys@.skip(i as int).drop_first() =~= keys@.skip(i + 1));
        }
        if same_text(keys[i].key_id.as_str(), name) {
            return Some(i);
        }
        i += 1;
    }
    None
}

/// What verifies intents.
#[derive(Clone, Debug)]
pub struct ExecutorIntentVerifierV1 {
    issuer: String,
    authorizer_audience: String,
    minimum_key_epoch: u64,
    keys: Vec<ExecutorIntentVerificationKeyV1>,
}

/// What is wrong with the names, the epoch and the keys of a verifier.
pub open spec fn verifier_fault(
    issuer: Seq<char>,
    audience: Seq<char>,
    minimum_key_epoch: u64,
    keys: Seq<ExecutorIntentVerificationKeyV1>,
) -> Option<ExecutorIntentError> {
    if !service_identity(issuer) || !service_identity(audience) {
        Some(ExecutorIntentError::InvalidServiceIdentity)
    } else if !durable_epoch(minimum_key_epoch) {
        Some(ExecutorIntentError::InvalidKeyEpoch)
    } else if !names_differ(keys) {
        Some(ExecutorIntentError::DuplicateKey)
    } else if keys.len() == 0 {
        Some(ExecutorIntentError::EmptyKeyring)
    } else {
        None
    }
}

impl ExecutorIntentVerifierV1 {
    pub closed spec fn issuer_text(self) -> Seq<char> {
        self.issuer@
    }

    pub closed spec fn audience_text(self) -> Seq<char> {
        self.authorizer_audience@
    }

    pub closed spec fn least_epoch(self) -> u64 {
        self.minimum_key_epoch
    }

    pub closed spec fn keyring(self) -> Seq<ExecutorIntentVerificationKeyV1> {
        self.keys@
    }

    pub fn new(
        issuer: String,
        authorizer_audience: String,
        minimum_key_epoch: u64,
        keys: Vec<ExecutorIntentVerificationKeyV1>,
    ) -> (r: Result<ExecutorIntentVerifierV1, ExecutorIntentError>)
        ensures
            ({
                let fault = verifier_fault(
                    issuer@,
                    authorizer_audience@,
                    minimum_key_epoch,
                    keys@,
                );
                match r {
                    Ok(verifier) => {
                        &&& fault is None
                        &&& verifier.issuer_text() == issuer@
                        &&& verifier.audience_text() == authorizer_audience@
                        &&& verifier.least_epoch() == minimum_key_epoch
                        &&& verifier.keyring() == keys@
                    },
                    Err(error) => fault == Some(error),
                }
            }),
    {
        if !is_bounded_token(issuer.as_str(), ByteClass::Graphic, 1, 256) || !is_bounded_token(
            authorizer_audience.as_str(),
            ByteClass::Graphic,
            1,
            256,
        ) {
            return Err(ExecutorIntentError::InvalidServiceIdentity);
        }
        if minimum_key_epoch == 0 || minimum_key_epoch > i64::MAX as u64 {
            return Err(ExecutorIntentError::InvalidKeyEpoch);
        }
        if !are_names_different(&keys) {
            return Err(ExecutorIntentError::DuplicateKey);
        }
        if keys.len() == 0 {
            return Err(ExecutorIntentError::EmptyKeyring);
        }
        Ok(ExecutorIntentVerifierV1 { issuer, authorizer_audience, minimum_key_epoch, keys })
    }

    /// What keeps a payload from being accepted at some time, with a signature.
    pub open spec fn refusal(
        self,
        payload: ExecutorIntentPayloadV1,
        signature: Seq<u8>,
        now_ms: i64,
    ) -> Option<ExecutorIntentError> {
        if payload.fault() is Some {
            payload.fault()
        } else {
            match key_named(self.keyring(), payload.key_id@) {
                None => Some(ExecutorIntentError::UnknownKey(payload.key_id)),
                Some(key) => if payload.key_epoch != key.epoch() || payload.key_epoch
                    < self.least_epoch() {
                    Some(ExecutorIntentError::KeyEpochRejected)
                } else if !ed25519_verifies(
                    key.public_bytes(),
                    signed_bytes(payload.cbor()),
                    signature,
                ) {
                    Some(ExecutorIntentError::SignatureVerification)
                } else if key.lifecycle_fault(payload.issued_at_ms, now_ms) is Some {
                    key.lifecycle_fault(payload.issued_at_ms, now_ms)
                } else if payload.issuer@ != self.issuer_text() {
                    Some(ExecutorIntentError::IssuerMismatch)
                } else if payload.authorizer_audience@ != self.audience_text() {
                    Some(ExecutorIntentError::AudienceMismatch)
                } else if now_ms < payload.not_before_ms {
                    Some(ExecutorIntentError::NotYetValid)
                } else if now_ms >= payload.expires_at_ms {
                    Some(ExecutorIntentError::Expired)
                } else {
                    None
                },
            }
        }
    }

    /// A token is accepted at some time, as the intent of a payload.
    pub open spec fn accepts(
        self,
        token: Seq<char>,
        now_ms: i64,
        payload: ExecutorIntentPayloadV1,
        verified: VerifiedExecutorIntentV1,
    ) -> bool {
        &&& written_as(token_payload(token), payload)
        &&& self.refusal(payload, token_signature(token), now_ms) is None
        &&& verified.held_claims().says(payload)
        &&& verified.held_digest()@ == hex(
            sha256(signed_bytes(token_payload(token)) + token_signature(token)),
        )
    }

    /// A token is refused at some time, as the intent of a payload.
    pub open spec fn refuses(
        self,
        token: Seq<char>,
        now_ms: i64,
        payload: ExecutorIntentPayloadV1,
        error: ExecutorIntentError,
    ) -> bool {
        &&& written_as(token_payload(token), payload)
        &&& self.refusal(payload, token_signature(token), now_ms) == Some(error)
    }

    /// What keeps a token from being looked into.
    pub open spec fn token_refusal(token: Seq<char>, now_ms: i64) -> Option<ExecutorIntentError> {
        if now_ms < 0 {
            Some(ExecutorIntentError::InvalidVerificationTime)
        } else if token_fault(token) is Some {
            token_fault(token)
        } else {
            payload_fault(token_payload(token))
        }
    }

    /// Verifies an intent.
    pub fn verify(&self, token: &str, now_ms: i64) -> (r: Result<
        VerifiedExecutorIntentV1,
        ExecutorIntentError,
    >)
        ensures
            match r {
                Ok(verified) => {
                    &&& ExecutorIntentVerifierV1::token_refusal(token@, now_ms) is None
                    &&& exists|payload: ExecutorIntentPayloadV1| #[trigger]
                        self.accepts(token@, now_ms, payload, verified)
                },
                Err(error) => match ExecutorIntentVerifierV1::token_refusal(token@, now_ms) {
                    Some(expected) => error == expected,
                    None => exists|payload: ExecutorIntentPayloadV1| #[trigger]
                        self.refuses(token@, now_ms, payload, error),
                },
            },
    {
        if now_ms < 0 {
            return Err(ExecutorIntentError::InvalidVerificationTime);
        }
        let (bytes, signature) = match decode_token(token) {
            Err(error) => return Err(error),
            Ok(parts) => parts,
        };
        let payload = match decode_canonical_payload(bytes.as_slice()) {
            Err(error) => return Err(error),
            Ok(payload) => payload,
        };
        match self.check_payload(&payload, bytes.as_slice(), signature.as_slice(), now_ms) {
            Err(error) => {
                assert(self.refuses(token@, now_ms, payload, error));
                Err(error)
            },
            Ok(claims) => {
                let digest = intent_digest(bytes.as_slice(), signature.as_slice());
                let verified = VerifiedExecutorIntentV1 { claims, digest };
                assert(self.accepts(token@, now_ms, payload, verified));
                Ok(verified)
            },
        }
    }

    fn check_payload(
        &self,
        payload: &ExecutorIntentPayloadV1,
        bytes: &[u8],
        signature: &[u8],
        now_ms: i64,
    ) -> (r: Result<ExecutorIntentClaimsV1, ExecutorIntentError>)
        requires
            written_as(bytes@, *payload),
        ensures
            match r {
                Ok(claims) => self.refusal(*payload, signature@, now_ms) is None && claims.says(
                    *payload,
                ),
                Err(error) => self.refusal(*payload, signature@, now_ms) == Some(error),
            },
    {
        let claims = match validate_payload_shape(payload) {
            Err(error) => return Err(error),
            Ok(claims) => claims,
        };
        let i = match find_key(&self.keys, payload.key_id.as_str()) {
            None => return Err(ExecutorIntentError::UnknownKey(payload.key_id.clone())),
            Some(i) => i,
        };
        let key = &self.keys[i];
        if payload.key_epoch != key.key_epoch || payload.key_epoch < self.minimum_key_epoch {
            return Err(ExecutorIntentError::KeyEpochRejected);
        }
        let message = signature_input(bytes);
        if !verify_strict(&key.public_key, message.as_slice(), signature) {
            return Err(ExecutorIntentError::SignatureVerification);
        }
        match key.validate_key_lifecycle(payload.issued_at_ms, now_ms) {
            Err(error) => return Err(error),
            Ok(()) => {},
        }
        if !same_text(payload.issuer.as_str(), self.issuer.as_str()) {
            return Err(ExecutorIntentError::IssuerMismatch);
        }
        if !same_text(payload.authorizer_audience.as_str(), self.authorizer_audience.as_str()) {
            return Err(ExecutorIntentError::AudienceMismatch);
        }
        if now_ms < payload.not_before_ms {
            return Err(ExecutorIntentError::NotYetValid);
        }
        if now_ms >= payload.expires_at_ms {
            return Err(ExecutorIntentError::Expired);
        }
        Ok(claims)
    }

    /// Verifies an intent of what is expected.
    pub fn verify_bound(
        &self,
        token: &str,
        expected: &ExecutorIntentExpectedBindingV1,
        now_ms: i64,
    ) -> (r: Result<VerifiedExecutorIntentV1, ExecutorIntentError>)
        ensures
            match r {
                Ok(verified) => {
                    &&& expected.good()
                    &&& ExecutorIntentVerifierV1::token_refusal(token@, now_ms) is None
                    &&& exists|payload: ExecutorIntentPayloadV1| #[trigger]
                        self.accepts(token@, now_ms, payload, verified)
                    &&& verified.held_claims().bound_to(*expected)
                },
                Err(error) => if !expected.good() {
                    error is InvalidExpectedBinding
                } else {
                    match ExecutorIntentVerifierV1::token_refusal(token@, now_ms) {
                        Some(refusal) => error == refusal,
                        None => {
                            ||| exists|payload: ExecutorIntentPayloadV1| #[trigger]
                                self.refuses(token@, now_ms, payload, error)
                            ||| error is BindingMismatch && exists|
                                payload: ExecutorIntentPayloadV1,
                                verified: VerifiedExecutorIntentV1,
                            | #[trigger]
                                self.accepts(token@, now_ms, payload, verified)
                                    && !verified.held_claims().bound_to(*expected)
                        },
                    }
                },
            },
    {
        let commit_matches = expected.operation_kind.requires_commit()
            == expected.target_commit.is_some();
        if expected.request_id.is_nil() || !commit_matches {
            return Err(ExecutorIntentError::InvalidExpectedBinding);
        }
        match self.verify(token, now_ms) {
            Err(error) => Err(error),
            Ok(verified) => if verified.claims.matches_binding(expected) {
                Ok(verified)
            } else {
                Err(ExecutorIntentError::BindingMismatch)
            },
        }
    }
}

impl ExecutorIntentExpectedBindingV1 {
    /// What is expected can be of an intent.
    pub open spec fn good(self) -> bool {
        !self.request_id.nil() && self.operation_kind.has_commit() == self.target_commit is Some
    }
}

fn are_names_different(keys: &Vec<ExecutorIntentVerificationKeyV1>) -> (r: bool)
    ensures
        r == names_differ(keys@),
{
    let mut i: usize = 0;
    while i < keys.len()
        invariant
            i <= keys.len(),
            forall|a: int, b: int|
                0 <= a < b < i ==> (#[trigger] keys@[a]).key_text() != (#[trigger] keys@[b]).key_text(),
        decreases keys.len() - i,
    {
        let mut j: usize = 0;
        while j < i
            invariant
                j <= i < keys.len(),
                forall|a: int, b: int|
                    0 <= a < b < i ==> (#[trigger] keys@[a]).key_text() != (
                    #[trigger] keys@[b]).key_text(),
                forall|a: int| 0 <= a < j ==> (#[trigger] keys@[a]).key_text() != keys@[i as int].key_text(),
            decreases i - j,
        {
            if same_text(keys[j].key_id.as_str(), keys[i].key_id.as_str()) {
                assert(keys@[j as int].key_text() == keys@[i as int].key_text());
                return false;
            }
            j += 1;
        }
        i += 1;
    }
    true
}

/// What an intent says, without its signature being looked into.
pub fn inspect_unverified_executor_intent(token: &str) -> (r: Result<
    ExecutorIntentClaimsV1,
    ExecutorIntentError,
>)
    ensures
        match r {
            Ok(claims) => {
                &&& token_fault(token@) is None
                &&& payload_fault(token_payload(token@)) is None
                &&& exists|payload: ExecutorIntentPayloadV1| #[trigger]
                    written_as(token_payload(token@), payload) && payload.fault() is None
                        && claims.says(payload)
            },
            Err(error) => if token_fault(token@) is Some {
                token_fault(token@) == Some(error)
            } else if payload_fault(token_payload(token@)) is Some {
                payload_fault(token_payload(token@)) == Some(error)
            } else {
                exists|payload: ExecutorIntentPayloadV1| #[trigger]
                    written_as(token_payload(token@), payload) && payload.fault() == Some(error)
            },
        },
{
    let (bytes, _) = match decode_token(token) {
        Err(error) => return Err(error),
        Ok(parts) => parts,
    };
    let payload = match decode_canonical_payload(bytes.as_slice()) {
        Err(error) => return Err(error),
        Ok(payload) => payload,
    };
    let ghost found = payload;
    assert(written_as(token_payload(token@), found));
    validate_payload_shape(&payload)
}

/// An intent that was issued is accepted: by a verifier of the same issuer and audience, with the
/// public key of the signer under its name and epoch, while the key verifies what was issued then
/// and the intent is good. What is accepted says what was issued. That the signature
/// verifies is taken from the outside.
pub proof fn law_issued_intents_are_accepted(
    signer: ExecutorIntentSignerV1,
    verifier: ExecutorIntentVerifierV1,
    key: ExecutorIntentVerificationKeyV1,
    input: ExecutorIntentIssueInputV1,
    payload: ExecutorIntentPayloadV1,
    signed: SignedExecutorIntentV1,
    now_ms: i64,
)
    requires
        payload.issued_for(
            input,
            signer.issuer_text(),
            signer.audience_text(),
            signer.key_text(),
            signer.epoch(),
        ),
        payload.fault() is None,
        payload.cbor().len() <= MAX_EXECUTOR_INTENT_PAYLOAD_BYTES,
        signer.signs(payload, signed),
        verifier.issuer_text() == signer.issuer_text(),
        verifier.audience_text() == signer.audience_text(),
        key_named(verifier.keyring(), signer.key_text()) == Some(key),
        key.epoch() == signer.epoch(),
        key.epoch() >= verifier.least_epoch(),
        key.public_bytes() == ed25519_public_key(signer.seed_bytes()),
        key.lifecycle_fault(input.issued_at_ms, now_ms) is None,
        input.not_before_ms <= now_ms < input.expires_at_ms,
        ed25519_verifies(
            ed25519_public_key(signer.seed_bytes()),
            signed_bytes(payload.cbor()),
            ed25519_signature(signer.seed_bytes(), signed_bytes(payload.cbor())),
        ),
    ensures
        ExecutorIntentVerifierV1::token_refusal(signed.token_text(), now_ms) is None,
        verifier.refusal(payload, token_signature(signed.token_text()), now_ms) is None,
        forall|other: ExecutorIntentPayloadV1, error: ExecutorIntentError|
            !#[trigger] verifier.refuses(signed.token_text(), now_ms, other, error),
        forall|other: ExecutorIntentPayloadV1, verified: VerifiedExecutorIntentV1| #[trigger]
            verifier.accepts(signed.token_text(), now_ms, other, verified)
                ==> verified.held_claims().says(payload) && verified.held_digest()@
                == signed.held_digest()@,
{
    let signature = ed25519_signature(signer.seed_bytes(), signed_bytes(payload.cbor()));
    let token = signed.token_text();
    payload::lemma_payload_is_written(payload);
    token::law_tokens_are_read_back(payload.cbor(), signature);
    assert(written_as(payload.cbor(), payload));
    assert forall|other: ExecutorIntentPayloadV1| written_as(token_payload(token), other) implies {
        &&& #[trigger] verifier.refusal(other, token_signature(token), now_ms) is None
        &&& other.same_as(payload)
    } by {
        unique::law_payloads_are_read_back(other, payload);
    }
    assert forall|other: ExecutorIntentPayloadV1, verified: VerifiedExecutorIntentV1| #[trigger]
        verifier.accepts(token, now_ms, other, verified) implies verified.held_claims().says(payload) by {
        unique::law_payloads_are_read_back(other, payload);
    }
}

/// What is accepted was signed: the signature that a token carries verifies over the bytes that it
/// is of, with the key that they name, of an epoch that is still taken, while the intent is good.
pub proof fn law_accepted_intents_are_signed(
    verifier: ExecutorIntentVerifierV1,
    token: Seq<char>,
    now_ms: i64,
    payload: ExecutorIntentPayloadV1,
    verified: VerifiedExecutorIntentV1,
)
    requires
        verifier.accepts(token, now_ms, payload, verified),
    ensures
        key_named(verifier.keyring(), payload.key_id@) matches Some(key) && ed25519_verifies(
            key.public_bytes(),
            signed_bytes(token_payload(token)),
            token_signature(token),
        ) && payload.key_epoch >= verifier.least_epoch(),
        payload.fault() is None,
        payload.not_before_ms <= now_ms < payload.expires_at_ms,
{
}

} // verus!
