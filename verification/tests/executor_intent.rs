use ed25519_dalek::SigningKey;
use rdashboard::domain::identifiers::{EvidenceDigest, GitCommitId, ProjectId};
use rdashboard::domain::operation::{OperationKind, ReleaseClass};
use rdashboard::executor_intent::payload::{
    ExecutorIntentConsequenceV1, ExecutorIntentRequiredRoleV1,
};
use rdashboard::executor_intent::{
    check_key, check_signer, inspect_unverified_executor_intent, ExecutorIntentError,
    ExecutorIntentExpectedBindingV1, ExecutorIntentIssueInputV1, ExecutorIntentSignerV1,
    ExecutorIntentVerificationKeyV1, ExecutorIntentVerifierV1, EXECUTOR_INTENT_MAX_TTL_MS,
};
use rdashboard::unique_id::Uuid;

const SEED: [u8; 32] = [7; 32];
const NOW: i64 = 1_700_000_000_000;

fn digest(text: &str) -> EvidenceDigest {
    EvidenceDigest::sha256(text.as_bytes())
}

fn input() -> ExecutorIntentIssueInputV1 {
    ExecutorIntentIssueInputV1 {
        issued_at_ms: NOW,
        not_before_ms: NOW,
        expires_at_ms: NOW + 60_000,
        intent_id: Uuid::from_u128(0x0123_4567_89ab_cdef_0123_4567_89ab_cdef),
        request_id: Uuid::from_u128(2),
        project_id: ProjectId::parse("ralert").expect("project"),
        operation_kind: OperationKind::Deploy,
        target_commit: Some(GitCommitId::parse(&"b".repeat(40)).expect("commit")),
        proposed_release_class: Some(ReleaseClass::CodeOnlyCompatible),
        effective_release_class: Some(ReleaseClass::CodeOnlyCompatible),
        installed_policy_digest: digest("policy"),
        source_attestation_digest: Some(digest("attestation")),
        source_sequence: Some(300),
        release_bundle_digest: Some(digest("bundle")),
        build_attestation_digest: Some(digest("build")),
        migration_id: None,
        previous_release_bundle_digest: None,
    }
}

fn backup() -> ExecutorIntentIssueInputV1 {
    ExecutorIntentIssueInputV1 {
        operation_kind: OperationKind::BackupOnly,
        target_commit: None,
        proposed_release_class: None,
        effective_release_class: None,
        source_attestation_digest: None,
        source_sequence: None,
        release_bundle_digest: None,
        build_attestation_digest: None,
        ..input()
    }
}

fn signer() -> ExecutorIntentSignerV1 {
    ExecutorIntentSignerV1::new(
        "executor".to_owned(),
        "authorizer".to_owned(),
        "key-1".to_owned(),
        3,
        SEED,
    )
    .expect("signer")
}

fn key(seed: [u8; 32]) -> ExecutorIntentVerificationKeyV1 {
    let public = SigningKey::from_bytes(&seed).verifying_key().to_bytes();
    ExecutorIntentVerificationKeyV1::new(
        "key-1".to_owned(),
        3,
        public,
        NOW - 1,
        Some(NOW + 1_000),
        Some(NOW + 50_000),
        None,
    )
    .expect("key")
}

fn verifier_of(key: ExecutorIntentVerificationKeyV1) -> ExecutorIntentVerifierV1 {
    ExecutorIntentVerifierV1::new("executor".to_owned(), "authorizer".to_owned(), 1, vec![key])
        .expect("verifier")
}

fn expected() -> ExecutorIntentExpectedBindingV1 {
    ExecutorIntentExpectedBindingV1 {
        request_id: Uuid::from_u128(2),
        project_id: ProjectId::parse("ralert").expect("project"),
        operation_kind: OperationKind::Deploy,
        target_commit: Some(GitCommitId::parse(&"b".repeat(40)).expect("commit")),
        installed_policy_digest: digest("policy"),
    }
}

#[test]
fn issued_intents_are_accepted_and_say_what_was_issued() {
    let signed = signer().issue(&input()).expect("issued");
    let verified = verifier_of(key(SEED))
        .verify_bound(signed.compact(), &expected(), NOW)
        .expect("verified");
    let claims = verified.claims();
    assert_eq!(claims.intent_id, Uuid::from_u128(0x0123_4567_89ab_cdef_0123_4567_89ab_cdef));
    assert_eq!(claims.project_id.as_str(), "ralert");
    assert_eq!(claims.source_sequence, Some(300));
    assert_eq!(claims.key_epoch, 3);
    assert_eq!(claims.expires_at_ms, NOW + 60_000);
    assert_eq!(claims.minimum_role, ExecutorIntentRequiredRoleV1::Operator);
    assert_eq!(
        claims.consequences,
        [
            ExecutorIntentConsequenceV1::CodeDeployment,
            ExecutorIntentConsequenceV1::FirstInstallRollbackUnavailable,
            ExecutorIntentConsequenceV1::DataRestoreIsManual,
        ]
    );
    assert_eq!(verified.digest().as_str(), signed.digest().as_str());
    let inspected = inspect_unverified_executor_intent(signed.compact()).expect("inspected");
    assert_eq!(inspected.intent_id, claims.intent_id);

    let saved = signer().issue(&backup()).expect("issued");
    let verified = verifier_of(key(SEED)).verify(saved.compact(), NOW).expect("verified");
    assert_eq!(verified.claims().consequences, [ExecutorIntentConsequenceV1::BackupOnly]);
    assert!(verified.claims().target_commit.is_none());
}

#[test]
fn changed_or_foreign_intents_are_refused() {
    let signed = signer().issue(&input()).expect("issued");
    let token = signed.compact().to_owned();
    assert_eq!(
        verifier_of(key([8; 32])).verify(&token, NOW).err(),
        Some(ExecutorIntentError::SignatureVerification)
    );
    let verifier = verifier_of(key(SEED));
    let (payload, signature) = token.split_once('.').expect("two parts");
    assert_eq!(verifier.verify(payload, NOW).err(), Some(ExecutorIntentError::InvalidTokenEncoding));
    assert_eq!(
        verifier.verify(&format!("{payload}.{signature}.x"), NOW).err(),
        Some(ExecutorIntentError::InvalidTokenEncoding)
    );
    assert_eq!(
        verifier.verify(&format!("{payload}.!!!!"), NOW).err(),
        Some(ExecutorIntentError::Base64)
    );
    assert_eq!(
        verifier.verify(&format!("{payload}.AAAA"), NOW).err(),
        Some(ExecutorIntentError::InvalidSignature)
    );
    assert_eq!(
        verifier.verify(&format!("AAAA.{signature}"), NOW).err(),
        Some(ExecutorIntentError::CborDecode)
    );
    assert_eq!(verifier.verify(&token, -1).err(), Some(ExecutorIntentError::InvalidVerificationTime));
    assert_eq!(verifier.verify(&token, NOW - 1).err(), Some(ExecutorIntentError::NotYetValid));
    let lasting = ExecutorIntentVerificationKeyV1::new(
        "key-1".to_owned(),
        3,
        SigningKey::from_bytes(&SEED).verifying_key().to_bytes(),
        0,
        None,
        None,
        None,
    )
    .expect("key");
    assert_eq!(
        verifier_of(lasting).verify(&token, NOW + 60_000).err(),
        Some(ExecutorIntentError::Expired)
    );
    assert_eq!(verifier.verify(&token, NOW + 50_000).err(), Some(ExecutorIntentError::KeyRetired));
    let mut other = expected();
    other.installed_policy_digest = digest("another policy");
    assert_eq!(
        verifier.verify_bound(&token, &other, NOW).err(),
        Some(ExecutorIntentError::BindingMismatch)
    );
    other.target_commit = None;
    assert_eq!(
        verifier.verify_bound(&token, &other, NOW).err(),
        Some(ExecutorIntentError::InvalidExpectedBinding)
    );
}

#[test]
fn verifiers_go_by_their_names_keys_and_epochs() {
    let token = signer().issue(&input()).expect("issued").compact().to_owned();
    let public = SigningKey::from_bytes(&SEED).verifying_key().to_bytes();
    let named = |id: &str, epoch, revoked, active| {
        ExecutorIntentVerificationKeyV1::new(id.to_owned(), epoch, public, active, None, None, revoked)
            .expect("key")
    };
    let with = |issuer: &str, audience: &str, least, key| {
        ExecutorIntentVerifierV1::new(issuer.to_owned(), audience.to_owned(), least, vec![key])
            .expect("verifier")
            .verify(&token, NOW)
            .err()
    };
    assert_eq!(
        with("executor", "authorizer", 1, named("key-2", 3, None, 0)),
        Some(ExecutorIntentError::UnknownKey("key-1".to_owned()))
    );
    assert_eq!(
        with("executor", "authorizer", 1, named("key-1", 4, None, 0)),
        Some(ExecutorIntentError::KeyEpochRejected)
    );
    assert_eq!(
        with("executor", "authorizer", 4, named("key-1", 3, None, 0)),
        Some(ExecutorIntentError::KeyEpochRejected)
    );
    assert_eq!(
        with("executor", "authorizer", 1, named("key-1", 3, Some(NOW), 0)),
        Some(ExecutorIntentError::KeyRevoked)
    );
    assert_eq!(
        with("executor", "authorizer", 1, named("key-1", 3, None, NOW + 1)),
        Some(ExecutorIntentError::KeyInactiveAtIssue)
    );
    assert_eq!(
        with("someone", "authorizer", 1, named("key-1", 3, None, 0)),
        Some(ExecutorIntentError::IssuerMismatch)
    );
    assert_eq!(
        with("executor", "someone", 1, named("key-1", 3, None, 0)),
        Some(ExecutorIntentError::AudienceMismatch)
    );
    assert_eq!(
        ExecutorIntentVerifierV1::new("a".to_owned(), "b".to_owned(), 1, Vec::new()).err(),
        Some(ExecutorIntentError::EmptyKeyring)
    );
    let twice = vec![named("key-1", 3, None, 0), named("key-1", 4, None, 0)];
    assert_eq!(
        ExecutorIntentVerifierV1::new("a".to_owned(), "b".to_owned(), 1, twice).err(),
        Some(ExecutorIntentError::DuplicateKey)
    );
}

#[test]
fn keys_and_signers_are_checked() {
    assert_eq!(check_key("key", 1, 0, None, None, None), Ok(()));
    assert_eq!(check_key("", 1, 0, None, None, None), Err(ExecutorIntentError::InvalidKeyId));
    assert_eq!(check_key("key", 0, 0, None, None, None), Err(ExecutorIntentError::InvalidKeyEpoch));
    for (active, retired, until, revoked) in [
        (-1, None, None, None),
        (5, Some(5), Some(9), None),
        (5, Some(6), Some(6), None),
        (5, Some(6), None, None),
        (5, None, Some(6), None),
        (5, None, None, Some(4)),
    ] {
        assert_eq!(
            check_key("key", 1, active, retired, until, revoked),
            Err(ExecutorIntentError::InvalidKeyLifecycle)
        );
    }
    assert_eq!(
        check_signer("", "b", "key", 1),
        Err(ExecutorIntentError::InvalidServiceIdentity)
    );
    assert_eq!(check_signer("a", "b", "key", 1), Ok(()));
    assert_eq!(ExecutorIntentError::InvalidKeyId.message(), "executor-intent key ID is invalid");
}

#[test]
fn only_sound_intents_are_issued() {
    let fails = |input: ExecutorIntentIssueInputV1| signer().issue(&input).err();
    let long = NOW + EXECUTOR_INTENT_MAX_TTL_MS;
    assert!(signer().issue(&ExecutorIntentIssueInputV1 { expires_at_ms: long, ..input() }).is_ok());
    assert_eq!(
        fails(ExecutorIntentIssueInputV1 { expires_at_ms: long + 1, ..input() }),
        Some(ExecutorIntentError::InvalidLifetime)
    );
    assert_eq!(
        fails(ExecutorIntentIssueInputV1 { intent_id: Uuid::from_u128(0), ..input() }),
        Some(ExecutorIntentError::InvalidIdentity)
    );
    assert_eq!(
        fails(ExecutorIntentIssueInputV1 { target_commit: None, ..input() }),
        Some(ExecutorIntentError::OperationMismatch)
    );
    assert_eq!(
        fails(ExecutorIntentIssueInputV1 { source_sequence: None, ..input() }),
        Some(ExecutorIntentError::InvalidSourceAuthority)
    );
    assert_eq!(
        fails(ExecutorIntentIssueInputV1 { migration_id: Some("m".to_owned()), ..input() }),
        Some(ExecutorIntentError::InvalidMigrationId)
    );
    assert_eq!(
        fails(ExecutorIntentIssueInputV1 { previous_release_bundle_digest: Some(digest("p")), ..backup() }),
        Some(ExecutorIntentError::InvalidRollbackTarget)
    );
    let breaking = ExecutorIntentIssueInputV1 {
        effective_release_class: Some(ReleaseClass::StatefulBreaking),
        migration_id: Some("2026/01".to_owned()),
        ..input()
    };
    let signed = signer().issue(&breaking).expect("issued");
    assert_eq!(signed.claims().minimum_role, ExecutorIntentRequiredRoleV1::Admin);
}
