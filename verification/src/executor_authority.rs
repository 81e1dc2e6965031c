//! The authority of the root executor: the keys that grants are verified with, and the seed that
//! intents are signed with.

use vstd::prelude::*;
use crate::execution_receipt::PathFacts;
use crate::executor_intent::token::{
    base64url,
    base64url_decoded,
    decode_base64url,
    ed25519_is_public_key,
    ed25519_public_key,
    encode_base64url,
    is_public_key,
    public_key_of,
};
use crate::executor_intent::{
    check_signer,
    signer_fault,
    ExecutorIntentError,
    ExecutorIntentSignerV1,
};
use crate::text::{same_bytes, same_text};

verus! {

pub const ROOT_EXECUTOR_AUTHORITY_SCHEMA_VERSION: u16 = 1;

pub const EXECUTOR_INTENT_SEED_CREDENTIAL_PATH: &'static str =
    "/run/credentials/rdashboard-executor.service/executor-intent-seed";

pub const ED25519_KEY_BYTES: usize = 32;

pub const MAX_ACTION_GRANT_VERIFICATION_KEYS: usize = 8;

/// A key that grants are verified with, as it is installed.
#[derive(Clone, Debug, PartialEq, Eq)]
pub struct ActionGrantVerificationKeyConfigV1 {
    pub key_id: String,
    pub key_epoch: u64,
    pub public_key_base64url: String,
    pub active_from_ms: i64,
    pub signing_retired_at_ms: Option<i64>,
    pub verify_until_ms: Option<i64>,
    pub revoked_at_ms: Option<i64>,
}

/// The authority of the root executor, as it is installed.
#[derive(Clone, Debug, PartialEq, Eq)]
pub struct RootExecutorAuthorityConfigV1 {
    pub schema_version: u16,
    pub action_grant_issuer: String,
    pub executor_audience: String,
    pub minimum_action_grant_key_epoch: u64,
    pub action_grant_verification_keys: Vec<ActionGrantVerificationKeyConfigV1>,
    pub executor_intent_issuer: String,
    pub authorizer_audience: String,
    pub executor_intent_key_id: String,
    pub executor_intent_key_epoch: u64,
    pub executor_intent_public_key_base64url: String,
}

/// Why a key or a verifier of grants is refused by those who verify grants, in their words.
#[derive(Debug, PartialEq, Eq)]
pub struct ActionGrantError {
    pub reason: String,
}

/// What those who verify grants find wrong with an installed authority: with its keys, by their
/// places, and with the verifier that they make together.
#[derive(Debug)]
pub struct ActionGrantFindings {
    pub keys: Vec<Option<ActionGrantError>>,
    pub verifier: Option<ActionGrantError>,
}

/// Why an authority is not loaded.
#[derive(Debug, PartialEq, Eq)]
pub enum ExecutorAuthorityError {
    UnsupportedSchemaVersion(u16),
    InvalidActionGrantKeyCount,
    InvalidPublicKey,
    ActionGrant(ActionGrantError),
    ExecutorIntent(ExecutorIntentError),
    CredentialIo(String),
    UnsafeCredential,
    CredentialChanged,
    CredentialKeyMismatch,
}

impl ExecutorAuthorityError {
    /// The error in words, without what it carries.
    pub fn message(&self) -> (r: &'static str)
        ensures
            r@ == match *self {
                ExecutorAuthorityError::UnsupportedSchemaVersion(_) =>
                    "unsupported root executor authority schema version"@,
                ExecutorAuthorityError::InvalidActionGrantKeyCount =>
                    "action-grant verification keyring must contain 1-8 keys"@,
                ExecutorAuthorityError::InvalidPublicKey =>
                    "an Ed25519 public key is not canonical unpadded base64url"@,
                ExecutorAuthorityError::ActionGrant(_) =>
                    "action-grant verification policy is invalid"@,
                ExecutorAuthorityError::ExecutorIntent(_) =>
                    "executor-intent signing policy is invalid"@,
                ExecutorAuthorityError::CredentialIo(_) =>
                    "executor-intent signing credential could not be read"@,
                ExecutorAuthorityError::UnsafeCredential =>
                    "executor-intent signing credential must be a root-owned, non-writable 32-byte file"@,
                ExecutorAuthorityError::CredentialChanged =>
                    "executor-intent signing credential changed while it was being opened or read"@,
                ExecutorAuthorityError::CredentialKeyMismatch =>
                    "executor-intent signing credential does not match its installed public key"@,
            },
    {
        match self {
            ExecutorAuthorityError::UnsupportedSchemaVersion(_) =>
                "unsupported root executor authority schema version",
            ExecutorAuthorityError::InvalidActionGrantKeyCount =>
                "action-grant verification keyring must contain 1-8 keys",
            ExecutorAuthorityError::InvalidPublicKey =>
                "an Ed25519 public key is not canonical unpadded base64url",
            ExecutorAuthorityError::ActionGrant(_) => "action-grant verification policy is invalid",
            ExecutorAuthorityError::ExecutorIntent(_) =>
                "executor-intent signing policy is invalid",
            ExecutorAuthorityError::CredentialIo(_) =>
                "executor-intent signing credential could not be read",
            ExecutorAuthorityError::UnsafeCredential =>
                "executor-intent signing credential must be a root-owned, non-writable 32-byte file",
            ExecutorAuthorityError::CredentialChanged =>
                "executor-intent signing credential changed while it was being opened or read",
            ExecutorAuthorityError::CredentialKeyMismatch =>
                "executor-intent signing credential does not match its installed public key",
        }
    }
}

/// The bytes of the public key that a text stands for. The text is the one that the bytes are
/// written as.
pub open spec fn public_key_in(text: Seq<char>) -> Option<Seq<u8>> {
    match base64url_decoded(text) {
        None => None,
        Some(bytes) => if bytes.len() == ED25519_KEY_BYTES && base64url(bytes) == text
            && ed25519_is_public_key(bytes) {
            Some(bytes)
        } else {
            None
        },
    }
}

fn key_bytes(bytes: &[u8]) -> (key: [u8; 32])
    requires
        bytes@.len() == ED25519_KEY_BYTES,
    ensures
        key@ == bytes@,
{
    let mut key: [u8; 32] = [0u8; 32];
    let mut i: usize = 0;
    while i < 32
        invariant
            i <= 32,
            bytes@.len() == 32,
            forall|k: int| 0 <= k < i ==> key@[k] == bytes@[k],
        decreases 32 - i,
    {
        key[i] = bytes[i];
        i += 1;
    }
    assert(key@ =~= bytes@);
    key
}

/// The public key that a text stands for.
pub fn decode_public_key(value: &str) -> (r: Result<[u8; 32], ExecutorAuthorityError>)
    ensures
        match r {
            Ok(key) => public_key_in(value@) == Some(key@),
            Err(error) => error is InvalidPublicKey && public_key_in(value@) is None,
        },
{
    let decoded = match decode_base64url(value) {
        None => return Err(ExecutorAuthorityError::InvalidPublicKey),
        Some(decoded) => decoded,
    };
    if decoded.len() != ED25519_KEY_BYTES {
        return Err(ExecutorAuthorityError::InvalidPublicKey);
    }
    let again = encode_base64url(decoded.as_slice());
    if !same_text(again.as_str(), value) {
        return Err(ExecutorAuthorityError::InvalidPublicKey);
    }
    let key = key_bytes(decoded.as_slice());
    if is_public_key(&key) {
        Ok(key)
    } else {
        Err(ExecutorAuthorityError::InvalidPublicKey)
    }
}

impl ActionGrantFindings {
    /// What is found wrong with the key at a place.
    pub open spec fn of_key(self, at: int) -> Option<ActionGrantError> {
        if 0 <= at < self.keys@.len() {
            self.keys@[at]
        } else {
            None
        }
    }

    /// Nothing is found wrong.
    pub fn none() -> (r: ActionGrantFindings)
        ensures
            r.keys@.len() == 0,
            r.verifier is None,
    {
        ActionGrantFindings { keys: Vec::new(), verifier: None }
    }
}

/// What is wrong with the keys of grants from a place on: a text that is no public key, or what was
/// found wrong, whichever comes first.
pub open spec fn grant_keys_fault(
    keys: Seq<ActionGrantVerificationKeyConfigV1>,
    findings: ActionGrantFindings,
    at: int,
) -> Option<ExecutorAuthorityError>
    decreases keys.len() - at,
{
    if at < 0 || at >= keys.len() {
        None
    } else if public_key_in(keys[at].public_key_base64url@) is None {
        Some(ExecutorAuthorityError::InvalidPublicKey)
    } else if findings.of_key(at) is Some {
        Some(ExecutorAuthorityError::ActionGrant(findings.of_key(at)->0))
    } else {
        grant_keys_fault(keys, findings, at + 1)
    }
}

impl RootExecutorAuthorityConfigV1 {
    /// What is wrong with the verifier of grants.
    pub open spec fn verifier_fault(self, findings: ActionGrantFindings) -> Option<
        ExecutorAuthorityError,
    > {
        let keys = self.action_grant_verification_keys@;
        if !(1 <= keys.len() <= MAX_ACTION_GRANT_VERIFICATION_KEYS) {
            Some(ExecutorAuthorityError::InvalidActionGrantKeyCount)
        } else if grant_keys_fault(keys, findings, 0) is Some {
            grant_keys_fault(keys, findings, 0)
        } else {
            match findings.verifier {
                Some(error) => Some(ExecutorAuthorityError::ActionGrant(error)),
                None => None,
            }
        }
    }

    /// What is wrong with an authority as it is installed.
    pub open spec fn fault(self, findings: ActionGrantFindings) -> Option<ExecutorAuthorityError> {
        let signer = signer_fault(
            self.executor_intent_issuer@,
            self.authorizer_audience@,
            self.executor_intent_key_id@,
            self.executor_intent_key_epoch,
        );
        if self.schema_version != ROOT_EXECUTOR_AUTHORITY_SCHEMA_VERSION {
            Some(ExecutorAuthorityError::UnsupportedSchemaVersion(self.schema_version))
        } else if self.verifier_fault(findings) is Some {
            self.verifier_fault(findings)
        } else if signer is Some {
            Some(ExecutorAuthorityError::ExecutorIntent(signer->0))
        } else if public_key_in(self.executor_intent_public_key_base64url@) is None {
            Some(ExecutorAuthorityError::InvalidPublicKey)
        } else {
            None
        }
    }

    /// Whether an authority can be installed.
    pub fn validate(&self, findings: &ActionGrantFindings) -> (r: Result<
        (),
        ExecutorAuthorityError,
    >)
        ensures
            match r {
                Ok(()) => self.fault(*findings) is None,
                Err(error) => self.fault(*findings) == Some(error),
            },
    {
        if self.schema_version != ROOT_EXECUTOR_AUTHORITY_SCHEMA_VERSION {
            return Err(ExecutorAuthorityError::UnsupportedSchemaVersion(self.schema_version));
        }
        match self.check_action_grant_verifier(findings) {
            Err(error) => return Err(error),
            Ok(()) => {},
        }
        match check_signer(
            self.executor_intent_issuer.as_str(),
            self.authorizer_audience.as_str(),
            self.executor_intent_key_id.as_str(),
            self.executor_intent_key_epoch,
        ) {
            Err(error) => return Err(ExecutorAuthorityError::ExecutorIntent(error)),
            Ok(()) => {},
        }
        match decode_public_key(self.executor_intent_public_key_base64url.as_str()) {
            Err(error) => Err(error),
            Ok(_) => Ok(()),
        }
    }

    fn check_action_grant_verifier(&self, findings: &ActionGrantFindings) -> (r: Result<
        (),
        ExecutorAuthorityError,
    >)
        ensures
            match r {
                Ok(()) => self.verifier_fault(*findings) is None,
                Err(error) => self.verifier_fault(*findings) == Some(error),
            },
    {
        let keys = &self.action_grant_verification_keys;
        if keys.len() < 1 || keys.len() > MAX_ACTION_GRANT_VERIFICATION_KEYS {
            return Err(ExecutorAuthorityError::InvalidActionGrantKeyCount);
        }
        let mut i: usize = 0;
        while i < keys.len()
            invariant
                i <= keys.len(),
                keys@ == self.action_grant_verification_keys@,
                1 <= keys@.len() <= MAX_ACTION_GRANT_VERIFICATION_KEYS,
                grant_keys_fault(keys@, *findings, 0) == grant_keys_fault(
                    keys@,
                    *findings,
                    i as int,
                ),
            decreases keys.len() - i,
        {
            match decode_public_key(keys[i].public_key_base64url.as_str()) {
                Err(error) => return Err(error),
                Ok(_) => {},
            }
            if i < findings.keys.len() {
                match &findings.keys[i] {
                    Some(error) => return Err(
                        ExecutorAuthorityError::ActionGrant(
                            ActionGrantError { reason: error.reason.clone() },
                        ),
                    ),
                    None => {},
                }
            }
            i += 1;
        }
        match &findings.verifier {
            Some(error) => Err(
                ExecutorAuthorityError::ActionGrant(
                    ActionGrantError { reason: error.reason.clone() },
                ),
            ),
            None => Ok(()),
        }
    }
}

/// The file of a credential can be used: it is a file, of its owner, that no one else writes, as
/// long as a seed.
pub open spec fn usable_credential(facts: PathFacts, required_uid: u32) -> bool {
    facts.uid == required_uid && facts.mode & 0o022 == 0 && facts.length == ED25519_KEY_BYTES
}

/// Whether a path leads to the file of a credential.
pub fn check_credential_path(facts: &PathFacts, required_uid: u32) -> (r: Result<
    (),
    ExecutorAuthorityError,
>)
    ensures
        r is Ok == (!facts.is_symlink && facts.is_file && usable_credential(*facts, required_uid)),
        r matches Err(error) ==> error is UnsafeCredential,
{
    if facts.is_symlink || !facts.is_file || facts.uid != required_uid || facts.mode & 0o022 != 0
        || facts.length != ED25519_KEY_BYTES as u64 {
        Err(ExecutorAuthorityError::UnsafeCredential)
    } else {
        Ok(())
    }
}

/// Whether the file that was opened is the one that the path led to, and can still be used.
pub fn check_opened_credential(
    path: &PathFacts,
    opened: &PathFacts,
    required_uid: u32,
) -> (r: Result<
    (),
    ExecutorAuthorityError,
>)
    ensures
        r is Ok == (opened.device == path.device && opened.inode == path.inode && usable_credential(
            *opened,
            required_uid,
        )),
        r matches Err(error) ==> error is CredentialChanged,
{
    if opened.device != path.device || opened.inode != path.inode || opened.uid != required_uid
        || opened.mode & 0o022 != 0 || opened.length != ED25519_KEY_BYTES as u64 {
        Err(ExecutorAuthorityError::CredentialChanged)
    } else {
        Ok(())
    }
}

/// The seed that a credential holds: all that could be read of it.
pub fn credential_seed(content: &[u8]) -> (r: Result<[u8; 32], ExecutorAuthorityError>)
    ensures
        match r {
            Ok(seed) => seed@ == content@,
            Err(error) => error is CredentialChanged && content@.len() != ED25519_KEY_BYTES,
        },
{
    if content.len() != ED25519_KEY_BYTES {
        Err(ExecutorAuthorityError::CredentialChanged)
    } else {
        Ok(key_bytes(content))
    }
}

/// The authority of the root executor: a verifier of grants, and a signer of intents.
#[derive(Clone)]
pub struct RootExecutorAuthorityV1<G> {
    action_grant_verifier: G,
    executor_intent_signer: ExecutorIntentSignerV1,
}

impl<G> RootExecutorAuthorityV1<G> {
    pub closed spec fn verifier_held(self) -> G {
        self.action_grant_verifier
    }

    pub closed spec fn signer_held(self) -> ExecutorIntentSignerV1 {
        self.executor_intent_signer
    }

    /// The seed is the one of the public key that is installed.
    pub open spec fn is_seed_of(config: RootExecutorAuthorityConfigV1, seed: Seq<u8>) -> bool {
        public_key_in(config.executor_intent_public_key_base64url@) == Some(
            ed25519_public_key(seed),
        )
    }

    /// Loads the authority that is installed, with what was found of it, the verifier that its keys
    /// make, and what came of reading the credential.
    pub fn load(
        config: &RootExecutorAuthorityConfigV1,
        findings: &ActionGrantFindings,
        verifier: G,
        credential: Result<[u8; 32], ExecutorAuthorityError>,
    ) -> (r: Result<RootExecutorAuthorityV1<G>, ExecutorAuthorityError>)
        ensures
            match r {
                Ok(authority) => {
                    &&& config.fault(*findings) is None
                    &&& credential is Ok
                    &&& RootExecutorAuthorityV1::<G>::is_seed_of(*config, credential->Ok_0@)
                    &&& authority.verifier_held() == verifier
                    &&& authority.signer_held().issuer_text() == config.executor_intent_issuer@
                    &&& authority.signer_held().audience_text() == config.authorizer_audience@
                    &&& authority.signer_held().key_text() == config.executor_intent_key_id@
                    &&& authority.signer_held().epoch() == config.executor_intent_key_epoch
                    &&& authority.signer_held().seed_bytes() == credential->Ok_0@
                },
                Err(error) => if config.fault(*findings) is Some {
                    config.fault(*findings) == Some(error)
                } else {
                    match credential {
                        Err(unread) => error == unread,
                        Ok(seed) => error is CredentialKeyMismatch
                            && !RootExecutorAuthorityV1::<G>::is_seed_of(*config, seed@),
                    }
                },
            },
    {
        match config.validate(findings) {
            Err(error) => return Err(error),
            Ok(()) => {},
        }
        let seed = match credential {
            Err(error) => return Err(error),
            Ok(seed) => seed,
        };
        let expected = match decode_public_key(
            config.executor_intent_public_key_base64url.as_str(),
        ) {
            Err(error) => return Err(error),
            Ok(expected) => expected,
        };
        let public = public_key_of(&seed);
        if !same_bytes(public.as_slice(), expected.as_slice()) {
            return Err(ExecutorAuthorityError::CredentialKeyMismatch);
        }
        match ExecutorIntentSignerV1::new(
            config.executor_intent_issuer.clone(),
            config.authorizer_audience.clone(),
            config.executor_intent_key_id.clone(),
            config.executor_intent_key_epoch,
            seed,
        ) {
            Err(error) => Err(ExecutorAuthorityError::ExecutorIntent(error)),
            Ok(signer) => Ok(
                RootExecutorAuthorityV1 {
                    action_grant_verifier: verifier,
                    executor_intent_signer: signer,
                },
            ),
        }
    }

    pub fn action_grant_verifier(&self) -> (r: &G)
        ensures
            *r == self.verifier_held(),
    {
        &self.action_grant_verifier
    }

    pub fn executor_intent_signer(&self) -> (r: &ExecutorIntentSignerV1)
        ensures
            *r == self.signer_held(),
    {
        &self.executor_intent_signer
    }
}

/// A key is taken only in the one way in which it is written: thirty-two bytes that are a point of the
/// curve, and the text that encodes just these bytes.
pub proof fn law_keys_are_written_in_one_way(
    text: &str,
    other: &str,
    key: [u8; 32],
    same: [u8; 32],
)
    requires
        call_ensures(decode_public_key, (text,), Ok::<[u8; 32], ExecutorAuthorityError>(key)),
        call_ensures(decode_public_key, (other,), Ok::<[u8; 32], ExecutorAuthorityError>(same)),
    ensures
        base64url(key@) == text@,
        ed25519_is_public_key(key@),
        key@ == same@ ==> text@ == other@,
{
}

proof fn lemma_every_grant_key(
    keys: Seq<ActionGrantVerificationKeyConfigV1>,
    findings: ActionGrantFindings,
    at: int,
    i: int,
)
    requires
        0 <= at <= i < keys.len(),
        grant_keys_fault(keys, findings, at) is None,
    ensures
        public_key_in(keys[i].public_key_base64url@) is Some,
        findings.of_key(i) is None,
    decreases i - at,
{
    if at < i {
        lemma_every_grant_key(keys, findings, at + 1, i);
    }
}

/// Authority is configured with between one and eight keys, each of them a key and none found wanting,
/// and with a key of its own to sign with.
pub proof fn law_authority_has_good_keys(
    config: RootExecutorAuthorityConfigV1,
    findings: ActionGrantFindings,
    i: int,
)
    requires
        call_ensures(
            RootExecutorAuthorityConfigV1::validate,
            (&config, &findings),
            Ok::<(), ExecutorAuthorityError>(()),
        ),
    ensures
        config.schema_version == 1,
        1 <= config.action_grant_verification_keys@.len() <= 8,
        0 <= i < config.action_grant_verification_keys@.len() ==> public_key_in(
            config.action_grant_verification_keys@[i].public_key_base64url@,
        ) is Some && (i < findings.keys@.len() ==> findings.keys@[i] is None),
        findings.verifier is None,
        public_key_in(config.executor_intent_public_key_base64url@) is Some,
        0 < config.executor_intent_key_epoch <= i64::MAX,
{
    if 0 <= i < config.action_grant_verification_keys@.len() {
        lemma_every_grant_key(config.action_grant_verification_keys@, findings, 0, i);
    }
}

/// Authority signs with the seed of the very key that others are told to verify with, in the name and
/// for the audience that are configured.
pub proof fn law_authority_signs_with_its_own_key<G>(
    config: RootExecutorAuthorityConfigV1,
    findings: ActionGrantFindings,
    verifier: G,
    seed: [u8; 32],
    r: Result<RootExecutorAuthorityV1<G>, ExecutorAuthorityError>,
)
    requires
        call_ensures(
            RootExecutorAuthorityV1::<G>::load,
            (
                &config,
                &findings,
                verifier,
                Ok::<[u8; 32], ExecutorAuthorityError>(seed),
            ),
            r,
        ),
    ensures
        r matches Ok(authority) ==> {
            &&& authority.signer_held().seed_bytes() == seed@
            &&& authority.signer_held().issuer_text() == config.executor_intent_issuer@
            &&& authority.signer_held().audience_text() == config.authorizer_audience@
            &&& authority.signer_held().key_text() == config.executor_intent_key_id@
            &&& authority.signer_held().epoch() == config.executor_intent_key_epoch
            &&& public_key_in(config.executor_intent_public_key_base64url@) == Some(
                ed25519_public_key(seed@),
            )
            &&& authority.verifier_held() == verifier
        },
        config.fault(findings) is None ==> (r is Ok <==> public_key_in(
            config.executor_intent_public_key_base64url@,
        ) == Some(ed25519_public_key(seed@))),
{
}

/// A credential is read only from a file of the right owner that no one else can write, of the length
/// of a seed, and the very one that was looked at.
pub proof fn law_credentials_are_kept_from_others(
    path: PathFacts,
    opened: PathFacts,
    required_uid: u32,
    looked_at: Result<(), ExecutorAuthorityError>,
    read: Result<(), ExecutorAuthorityError>,
)
    requires
        call_ensures(check_credential_path, (&path, required_uid), looked_at),
        call_ensures(check_opened_credential, (&path, &opened, required_uid), read),
    ensures
        looked_at is Ok <==> !path.is_symlink && path.is_file && path.uid == required_uid && path.mode
            & 0o022 == 0 && path.length == 32,
        read is Ok <==> opened.device == path.device && opened.inode == path.inode && opened.uid
            == required_uid && opened.mode & 0o022 == 0 && opened.length == 32,
{
}

/// A seed is just what the credential holds.
pub proof fn law_seeds_are_their_credential(
    content: &[u8],
    r: Result<[u8; 32], ExecutorAuthorityError>,
)
    requires
        call_ensures(credential_seed, (content,), r),
    ensures
        r is Ok <==> content@.len() == 32,
        r matches Ok(seed) ==> seed@ == content@,
{
}

} // verus!
