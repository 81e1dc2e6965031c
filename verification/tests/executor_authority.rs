use base64::engine::general_purpose::URL_SAFE_NO_PAD;
use base64::Engine as _;
use ed25519_dalek::SigningKey;
use rdashboard::execution_receipt::PathFacts;
use rdashboard::executor_authority::{
    check_credential_path, check_opened_credential, credential_seed, decode_public_key,
    ActionGrantError, ActionGrantFindings, ActionGrantVerificationKeyConfigV1,
    ExecutorAuthorityError, RootExecutorAuthorityConfigV1, RootExecutorAuthorityV1,
    ED25519_KEY_BYTES, ROOT_EXECUTOR_AUTHORITY_SCHEMA_VERSION,
};
use rdashboard::executor_intent::ExecutorIntentError;

fn config(intent_signing_key: &SigningKey) -> RootExecutorAuthorityConfigV1 {
    let action_signing_key = SigningKey::from_bytes(&[41_u8; ED25519_KEY_BYTES]);
    RootExecutorAuthorityConfigV1 {
        schema_version: ROOT_EXECUTOR_AUTHORITY_SCHEMA_VERSION,
        action_grant_issuer: "https://actions.dev.4u.ge".to_owned(),
        executor_audience: "rdashboard-executor".to_owned(),
        minimum_action_grant_key_epoch: 1,
        action_grant_verification_keys: vec![ActionGrantVerificationKeyConfigV1 {
            key_id: "authorizer-2026-01".to_owned(),
            key_epoch: 1,
            public_key_base64url: URL_SAFE_NO_PAD
                .encode(action_signing_key.verifying_key().to_bytes()),
            active_from_ms: 1_700_000_000_000,
            signing_retired_at_ms: None,
            verify_until_ms: None,
            revoked_at_ms: None,
        }],
        executor_intent_issuer: "rdashboard-executor".to_owned(),
        authorizer_audience: "https://actions.dev.4u.ge".to_owned(),
        executor_intent_key_id: "executor-2026-01".to_owned(),
        executor_intent_key_epoch: 1,
        executor_intent_public_key_base64url: URL_SAFE_NO_PAD
            .encode(intent_signing_key.verifying_key().to_bytes()),
    }
}

#[test]
fn loads_exact_root_owned_seed_and_both_authorities() {
    let signing_key = SigningKey::from_bytes(&[73_u8; ED25519_KEY_BYTES]);
    let seed = credential_seed(&signing_key.to_bytes());
    let authority = RootExecutorAuthorityV1::load(
        &config(&signing_key),
        &ActionGrantFindings::none(),
        "verifier of grants",
        seed,
    )
    .unwrap_or_else(|error| panic!("load authority: {error:?}"));
    assert_eq!(*authority.action_grant_verifier(), "verifier of grants");
    let _ = authority.executor_intent_signer();
}

#[test]
fn rejects_seed_that_does_not_match_installed_public_key() {
    let expected = SigningKey::from_bytes(&[73_u8; ED25519_KEY_BYTES]);
    let wrong = SigningKey::from_bytes(&[74_u8; ED25519_KEY_BYTES]);
    assert!(matches!(
        RootExecutorAuthorityV1::load(
            &config(&expected),
            &ActionGrantFindings::none(),
            (),
            credential_seed(&wrong.to_bytes()),
        ),
        Err(ExecutorAuthorityError::CredentialKeyMismatch)
    ));
}

#[test]
fn rejects_noncanonical_or_oversized_keyrings() {
    let signing_key = SigningKey::from_bytes(&[73_u8; ED25519_KEY_BYTES]);
    let none = ActionGrantFindings::none();
    let mut invalid_public_key = config(&signing_key);
    invalid_public_key.action_grant_verification_keys[0].public_key_base64url.push('=');
    assert!(matches!(
        invalid_public_key.validate(&none),
        Err(ExecutorAuthorityError::InvalidPublicKey)
    ));

    let mut empty = config(&signing_key);
    empty.action_grant_verification_keys.clear();
    assert!(matches!(
        empty.validate(&none),
        Err(ExecutorAuthorityError::InvalidActionGrantKeyCount)
    ));

    let mut oversized = config(&signing_key);
    while oversized.action_grant_verification_keys.len() < 9 {
        let mut more = config(&signing_key);
        oversized.action_grant_verification_keys.push(more.action_grant_verification_keys.remove(0));
    }
    assert!(matches!(
        oversized.validate(&none),
        Err(ExecutorAuthorityError::InvalidActionGrantKeyCount)
    ));
}

#[test]
fn what_is_found_of_grants_is_told_in_its_turn() {
    let signing_key = SigningKey::from_bytes(&[73_u8; ED25519_KEY_BYTES]);
    assert_eq!(config(&signing_key).validate(&ActionGrantFindings::none()), Ok(()));
    let found = |reason: &str| ActionGrantError { reason: reason.to_owned() };
    let findings = ActionGrantFindings { keys: vec![Some(found("key"))], verifier: Some(found("ring")) };
    assert_eq!(
        config(&signing_key).validate(&findings),
        Err(ExecutorAuthorityError::ActionGrant(found("key")))
    );
    let findings = ActionGrantFindings { keys: vec![None], verifier: Some(found("ring")) };
    assert_eq!(
        config(&signing_key).validate(&findings),
        Err(ExecutorAuthorityError::ActionGrant(found("ring")))
    );
    let mut old = config(&signing_key);
    old.schema_version = 2;
    assert_eq!(old.validate(&findings), Err(ExecutorAuthorityError::UnsupportedSchemaVersion(2)));
    let mut unnamed = config(&signing_key);
    unnamed.executor_intent_key_epoch = 0;
    assert_eq!(
        unnamed.validate(&ActionGrantFindings::none()),
        Err(ExecutorAuthorityError::ExecutorIntent(ExecutorIntentError::InvalidKeyEpoch))
    );
}

#[test]
fn public_keys_are_read_only_in_their_one_form() {
    let key = SigningKey::from_bytes(&[9_u8; ED25519_KEY_BYTES]).verifying_key().to_bytes();
    let text = URL_SAFE_NO_PAD.encode(key);
    assert_eq!(decode_public_key(&text), Ok(key));
    assert!(decode_public_key(&text[1..]).is_err());
    assert!(decode_public_key("").is_err());
    assert!(decode_public_key(&URL_SAFE_NO_PAD.encode([0xff_u8; 31])).is_err());
    let no_point = (0u8..=255)
        .map(|byte| [byte; 32])
        .find(|bytes| ed25519_dalek::VerifyingKey::from_bytes(bytes).is_err())
        .expect("bytes that are no point");
    assert!(decode_public_key(&URL_SAFE_NO_PAD.encode(no_point)).is_err());
}

#[test]
fn credentials_are_files_of_one_owner() {
    let good = PathFacts {
        is_symlink: false,
        is_file: true,
        is_directory: false,
        uid: 0,
        mode: 0o100600,
        length: 32,
        device: 1,
        inode: 2,
    };
    assert_eq!(check_credential_path(&good, 0), Ok(()));
    assert_eq!(check_credential_path(&good, 1), Err(ExecutorAuthorityError::UnsafeCredential));
    let writable = PathFacts { mode: 0o100620, ..good };
    assert_eq!(check_credential_path(&writable, 0), Err(ExecutorAuthorityError::UnsafeCredential));
    let longer = PathFacts { mode: 0o100600, length: 33, ..good };
    assert_eq!(check_credential_path(&longer, 0), Err(ExecutorAuthorityError::UnsafeCredential));
    assert_eq!(check_opened_credential(&good, &good, 0), Ok(()));
    let moved = PathFacts { inode: 3, ..good };
    assert_eq!(check_opened_credential(&good, &moved, 0), Err(ExecutorAuthorityError::CredentialChanged));
    assert_eq!(credential_seed(&[0; 33]), Err(ExecutorAuthorityError::CredentialChanged));
    assert_eq!(
        RootExecutorAuthorityV1::load(
            &config(&SigningKey::from_bytes(&[73_u8; ED25519_KEY_BYTES])),
            &ActionGrantFindings::none(),
            (),
            Err(ExecutorAuthorityError::CredentialIo("gone".to_owned())),
        )
        .err(),
        Some(ExecutorAuthorityError::CredentialIo("gone".to_owned()))
    );
    assert_eq!(
        ExecutorAuthorityError::CredentialKeyMismatch.message(),
        "executor-intent signing credential does not match its installed public key"
    );
}
