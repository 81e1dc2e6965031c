//! What holds of every intent that is issued and of every one that is accepted.

use vstd::prelude::*;
use super::payload::{
    ExecutorIntentConsequenceV1, ExecutorIntentPayloadV1, ExecutorIntentRequiredRoleV1,
};
use super::{
    commit_option, decode_canonical_payload, encode_payload, inspect_unverified_executor_intent, key_named, validate_payload_shape,
    ExecutorIntentClaimsV1, ExecutorIntentError, ExecutorIntentExpectedBindingV1,
    ExecutorIntentIssueInputV1, ExecutorIntentSignerV1, ExecutorIntentVerificationKeyV1,
    ExecutorIntentVerifierV1, SignedExecutorIntentV1, VerifiedExecutorIntentV1,
};
use crate::domain::identifiers::digest_option;
use crate::domain::operation::ReleaseClass;
use crate::text::text_option;

verus! {

/// The key that a name finds is one of the ring, under that name.
proof fn lemma_named_keys_are_in_the_ring(
    keys: Seq<ExecutorIntentVerificationKeyV1>,
    name: Seq<char>,
)
    ensures
        key_named(keys, name) matches Some(key) ==> keys.contains(key) && key.key_text() == name,
    decreases keys.len(),
{
    if keys.len() > 0 && keys[0].key_text() != name {
        lemma_named_keys_are_in_the_ring(keys.drop_first(), name);
        match key_named(keys.drop_first(), name) {
            Some(key) => {
                let at = choose|at: int|
                    0 <= at < keys.drop_first().len() && keys.drop_first()[at] == key;
                assert(keys[at + 1] == key);
            },
            None => {},
        }
    }
}

/// The key with which an intent was accepted may be used for it: it was in force when the intent was
/// issued, had not been taken out of use by the time of verification, and was not revoked.
pub open spec fn in_force(
    key: ExecutorIntentVerificationKeyV1,
    issued_at_ms: i64,
    now_ms: i64,
) -> bool {
    &&& key.active_from() <= issued_at_ms
    &&& key.retired_at() matches Some(retired) ==> issued_at_ms < retired
    &&& key.verifies_until() matches Some(until) ==> now_ms < until
    &&& key.revoked_at() matches Some(revoked) ==> now_ms < revoked
}

/// An intent is accepted only while it is good, and it is good for five minutes at most: from the
/// issuer and for the audience that the verifier is of, and with a key of its ring that may be used,
/// of an epoch no older than the least that it takes.
pub proof fn law_accepted_intents_are_good(
    verifier: ExecutorIntentVerifierV1,
    token: &str,
    now_ms: i64,
    verified: VerifiedExecutorIntentV1,
)
    requires
        call_ensures(
            ExecutorIntentVerifierV1::verify,
            (&verifier, token, now_ms),
            Ok::<VerifiedExecutorIntentV1, ExecutorIntentError>(verified),
        ),
    ensures
        ({
            let claims = verified.held_claims();
            &&& 0 <= claims.issued_at_ms <= claims.not_before_ms <= now_ms < claims.expires_at_ms
            &&& claims.expires_at_ms - claims.issued_at_ms <= 300_000
            &&& claims.issuer@ == verifier.issuer_text()
            &&& claims.authorizer_audience@ == verifier.audience_text()
            &&& claims.key_epoch >= verifier.least_epoch()
            &&& !claims.intent_id.nil() && !claims.request_id.nil()
            &&& exists|key: ExecutorIntentVerificationKeyV1| #[trigger]
                verifier.keyring().contains(key) && key.key_text() == claims.key_id@ && key.epoch()
                    == claims.key_epoch && in_force(key, claims.issued_at_ms, now_ms)
        }),
{
    let payload = choose|payload: ExecutorIntentPayloadV1| #[trigger]
        verifier.accepts(token@, now_ms, payload, verified);
    lemma_named_keys_are_in_the_ring(verifier.keyring(), payload.key_id@);
    let key = key_named(verifier.keyring(), payload.key_id@)->0;
    assert(verifier.keyring().contains(key));
}

/// Payload of a good shape speak of one operation: it has a commit, with the source that attests it,
/// unless it is a backup; a deployment has a bundle and its build's attestation, a rollback the bundle
/// and the one before it, and a backup none of them. What migrates names its migration.
pub open spec fn of_one_operation(claims: ExecutorIntentClaimsV1) -> bool {
    let backup = claims.operation_kind is BackupOnly;
    let deploys = claims.operation_kind is Deploy;
    let class = claims.effective_release_class;
    &&& claims.target_commit is Some <==> !backup
    &&& claims.source_attestation_digest is Some <==> !backup
    &&& claims.source_sequence is Some <==> !backup
    &&& claims.source_sequence matches Some(sequence) ==> 0 < sequence <= i64::MAX
    &&& claims.release_bundle_digest is Some <==> !backup
    &&& claims.build_attestation_digest is Some <==> deploys
    &&& claims.operation_kind is CodeRollback ==> claims.previous_release_bundle_digest is Some
    &&& backup ==> claims.previous_release_bundle_digest is None
    &&& class is None <==> backup
    &&& claims.proposed_release_class is None <==> backup
    &&& class == Some(ReleaseClass::Rollback) <==> claims.operation_kind is CodeRollback
    &&& claims.proposed_release_class == Some(ReleaseClass::Rollback)
        <==> claims.operation_kind is CodeRollback
    &&& claims.migration_id is Some <==> class == Some(ReleaseClass::StatefulCompatible) || class
        == Some(ReleaseClass::StatefulBreaking)
}

/// Whether a consequence is among those that an intent names.
pub open spec fn told(
    claims: ExecutorIntentClaimsV1,
    consequence: ExecutorIntentConsequenceV1,
) -> bool {
    claims.consequences@.contains(consequence)
}

/// An intent tells what it will do to whoever grants it: a backup, a drain of writes and a migration
/// just where it migrates; that the code goes back by itself where it can and that it does not where
/// it cannot; and that data is never brought back by itself. Only an admin may grant a rollback or a
/// breaking release.
pub open spec fn tells_what_will_happen(claims: ExecutorIntentClaimsV1) -> bool {
    let deploys = claims.operation_kind is Deploy;
    let migrates = claims.migration_id is Some;
    let breaking = claims.effective_release_class == Some(ReleaseClass::StatefulBreaking);
    let first = claims.previous_release_bundle_digest is None;
    &&& told(claims, ExecutorIntentConsequenceV1::CodeDeployment) <==> deploys
    &&& told(claims, ExecutorIntentConsequenceV1::VerifiedBackupRequired) <==> migrates
    &&& told(claims, ExecutorIntentConsequenceV1::ApplicationWriteDrain) <==> migrates
    &&& told(claims, ExecutorIntentConsequenceV1::SchemaMigration) <==> migrates
    &&& told(claims, ExecutorIntentConsequenceV1::AutomaticRollbackProhibited) <==> breaking
    &&& told(claims, ExecutorIntentConsequenceV1::FirstInstallRollbackUnavailable) <==> deploys
        && !migrates && first
    &&& told(claims, ExecutorIntentConsequenceV1::AutomaticCodeRollbackAvailable) <==> deploys
        && !breaking && (migrates || !first)
    &&& told(claims, ExecutorIntentConsequenceV1::CodeRollback)
        <==> claims.operation_kind is CodeRollback
    &&& told(claims, ExecutorIntentConsequenceV1::BackupOnly)
        <==> claims.operation_kind is BackupOnly
    &&& told(claims, ExecutorIntentConsequenceV1::DataRestoreIsManual)
        <==> !(claims.operation_kind is BackupOnly)
    &&& claims.consequences@.no_duplicates()
    &&& claims.minimum_role == ExecutorIntentRequiredRoleV1::Admin <==> claims.operation_kind
        is CodeRollback || breaking
}

/// Whatever a payload of a good shape claims is of one operation and tells what will happen.
#[verifier::rlimit(40)]
pub proof fn law_good_payloads_tell_what_will_happen(
    payload: ExecutorIntentPayloadV1,
    claims: ExecutorIntentClaimsV1,
)
    requires
        call_ensures(
            validate_payload_shape,
            (&payload,),
            Ok::<ExecutorIntentClaimsV1, ExecutorIntentError>(claims),
        ),
    ensures
        of_one_operation(claims),
        tells_what_will_happen(claims),
{
    lemma_good_claims(payload, claims);
}

#[verifier::rlimit(60)]
proof fn lemma_good_claims(payload: ExecutorIntentPayloadV1, claims: ExecutorIntentClaimsV1)
    requires
        payload.fault() is None,
        claims.says(payload),
    ensures
        of_one_operation(claims),
        tells_what_will_happen(claims),
        0 <= claims.issued_at_ms <= claims.not_before_ms < claims.expires_at_ms,
        claims.expires_at_ms - claims.issued_at_ms <= 300_000,
        !claims.intent_id.nil(),
        !claims.request_id.nil(),
{
    let terms = payload.terms();
    let all = claims.consequences@;
    assert(all == terms.consequences());
    assert(of_one_operation(claims));
    lemma_consequences(terms.consequences(), claims);
}

proof fn lemma_consequences(
    all: Seq<ExecutorIntentConsequenceV1>,
    claims: ExecutorIntentClaimsV1,
)
    requires
        claims.consequences@ == all,
    ensures
        all.len() > 0 ==> told(claims, all[0]),
        all.len() > 1 ==> told(claims, all[1]),
        all.len() > 2 ==> told(claims, all[2]),
        all.len() > 3 ==> told(claims, all[3]),
        all.len() > 4 ==> told(claims, all[4]),
        all.len() > 5 ==> told(claims, all[5]),
{
}

/// What is accepted is of one operation and tells what will happen.
pub proof fn law_accepted_intents_tell_what_will_happen(
    verifier: ExecutorIntentVerifierV1,
    token: &str,
    now_ms: i64,
    verified: VerifiedExecutorIntentV1,
)
    requires
        call_ensures(
            ExecutorIntentVerifierV1::verify,
            (&verifier, token, now_ms),
            Ok::<VerifiedExecutorIntentV1, ExecutorIntentError>(verified),
        ),
    ensures
        of_one_operation(verified.held_claims()),
        tells_what_will_happen(verified.held_claims()),
{
    let payload = choose|payload: ExecutorIntentPayloadV1| #[trigger]
        verifier.accepts(token@, now_ms, payload, verified);
    lemma_good_claims(payload, verified.held_claims());
}

/// So does what is only looked into, though nobody has vouched for it yet.
pub proof fn law_inspected_intents_tell_what_will_happen(
    token: &str,
    claims: ExecutorIntentClaimsV1,
)
    requires
        call_ensures(
            inspect_unverified_executor_intent,
            (token,),
            Ok::<ExecutorIntentClaimsV1, ExecutorIntentError>(claims),
        ),
    ensures
        of_one_operation(claims),
        tells_what_will_happen(claims),
        0 <= claims.issued_at_ms <= claims.not_before_ms < claims.expires_at_ms,
{
    let payload = choose|payload: ExecutorIntentPayloadV1| #[trigger]
        super::payload::written_as(super::token::token_payload(token@), payload) && payload.fault()
            is None && claims.says(payload);
    lemma_good_claims(payload, claims);
}

/// What is accepted for a request is of just that request: its identity, its project, its operation,
/// its commit and its policy.
pub proof fn law_bound_intents_are_of_their_request(
    verifier: ExecutorIntentVerifierV1,
    token: &str,
    expected: ExecutorIntentExpectedBindingV1,
    now_ms: i64,
    verified: VerifiedExecutorIntentV1,
)
    requires
        call_ensures(
            ExecutorIntentVerifierV1::verify_bound,
            (&verifier, token, &expected, now_ms),
            Ok::<VerifiedExecutorIntentV1, ExecutorIntentError>(verified),
        ),
    ensures
        ({
            let claims = verified.held_claims();
            &&& claims.request_id == expected.request_id
            &&& claims.project_id@ == expected.project_id@
            &&& claims.operation_kind == expected.operation_kind
            &&& commit_option(claims.target_commit) == commit_option(expected.target_commit)
            &&& claims.installed_policy_digest@ == expected.installed_policy_digest@
            &&& claims.not_before_ms <= now_ms < claims.expires_at_ms
            &&& claims.issuer@ == verifier.issuer_text()
            &&& claims.authorizer_audience@ == verifier.audience_text()
        }),
        of_one_operation(verified.held_claims()),
{
    let payload = choose|payload: ExecutorIntentPayloadV1| #[trigger]
        verifier.accepts(token@, now_ms, payload, verified);
    lemma_good_claims(payload, verified.held_claims());
}

/// An issued intent claims what it was asked to: every field of the input, in the signer's name, with
/// the signer's key and for the signer's audience.
pub proof fn law_issued_intents_claim_their_input(
    signer: ExecutorIntentSignerV1,
    input: ExecutorIntentIssueInputV1,
    signed: SignedExecutorIntentV1,
)
    requires
        call_ensures(
            ExecutorIntentSignerV1::issue,
            (&signer, &input),
            Ok::<SignedExecutorIntentV1, ExecutorIntentError>(signed),
        ),
    ensures
        ({
            let claims = signed.held_claims();
            &&& claims.schema_version == 2
            &&& claims.issuer@ == signer.issuer_text()
            &&& claims.authorizer_audience@ == signer.audience_text()
            &&& claims.key_id@ == signer.key_text()
            &&& claims.key_epoch == signer.epoch()
            &&& claims.issued_at_ms == input.issued_at_ms
            &&& claims.not_before_ms == input.not_before_ms
            &&& claims.expires_at_ms == input.expires_at_ms
            &&& claims.intent_id == input.intent_id
            &&& claims.request_id == input.request_id
            &&& claims.project_id@ == input.project_id@
            &&& claims.operation_kind == input.operation_kind
            &&& commit_option(claims.target_commit) == commit_option(input.target_commit)
            &&& claims.proposed_release_class == input.proposed_release_class
            &&& claims.effective_release_class == input.effective_release_class
            &&& claims.installed_policy_digest@ == input.installed_policy_digest@
            &&& digest_option(claims.source_attestation_digest) == digest_option(
                input.source_attestation_digest,
            )
            &&& claims.source_sequence == input.source_sequence
            &&& digest_option(claims.release_bundle_digest) == digest_option(
                input.release_bundle_digest,
            )
            &&& digest_option(claims.build_attestation_digest) == digest_option(
                input.build_attestation_digest,
            )
            &&& text_option(claims.migration_id) == text_option(input.migration_id)
            &&& digest_option(claims.previous_release_bundle_digest) == digest_option(
                input.previous_release_bundle_digest,
            )
        }),
        of_one_operation(signed.held_claims()),
        tells_what_will_happen(signed.held_claims()),
{
    let payload = choose|payload: ExecutorIntentPayloadV1| #[trigger]
        payload.issued_for(
            input,
            signer.issuer_text(),
            signer.audience_text(),
            signer.key_text(),
            signer.epoch(),
        ) && payload.fault() is None && signer.signs(payload, signed);
    lemma_good_claims(payload, signed.held_claims());
}

/// A signer refuses an intent for its lifetime just when it would be good for no time, from before its
/// issue, or for more than five minutes.
pub proof fn law_lifetimes_are_checked_first(
    signer: ExecutorIntentSignerV1,
    input: ExecutorIntentIssueInputV1,
    r: Result<SignedExecutorIntentV1, ExecutorIntentError>,
)
    requires
        call_ensures(ExecutorIntentSignerV1::issue, (&signer, &input), r),
    ensures
        (r matches Err(ExecutorIntentError::InvalidLifetime)) <==> !(0 <= input.issued_at_ms
            <= input.not_before_ms < input.expires_at_ms && input.expires_at_ms
            - input.issued_at_ms <= 300_000),
        r is Ok ==> !input.intent_id.nil() && !input.request_id.nil(),
{
}

/// A key's times are in order: it is in force before it is retired, and what it signed is verified for
/// some time after that; and it has both of these times or neither.
pub proof fn law_keys_live_in_order(
    key_id: String,
    key_epoch: u64,
    public_key: [u8; 32],
    active_from_ms: i64,
    retired: Option<i64>,
    until: Option<i64>,
    revoked: Option<i64>,
    key: ExecutorIntentVerificationKeyV1,
)
    requires
        call_ensures(
            ExecutorIntentVerificationKeyV1::new,
            (key_id, key_epoch, public_key, active_from_ms, retired, until, revoked),
            Ok::<ExecutorIntentVerificationKeyV1, ExecutorIntentError>(key),
        ),
    ensures
        0 <= key.active_from(),
        key.retired_at() is Some <==> key.verifies_until() is Some,
        key.retired_at() matches Some(retired_at) ==> key.active_from() < retired_at
            < key.verifies_until()->0,
        key.revoked_at() matches Some(revoked_at) ==> key.active_from() <= revoked_at,
        0 < key.epoch() <= i64::MAX,
        key.key_text() == key_id@,
        key.public_bytes() == public_key@,
{
}

/// A verifier has a key, and one only of each name.
pub proof fn law_rings_have_one_key_of_each_name(
    issuer: String,
    audience: String,
    least_epoch: u64,
    keys: Vec<ExecutorIntentVerificationKeyV1>,
    verifier: ExecutorIntentVerifierV1,
)
    requires
        call_ensures(
            ExecutorIntentVerifierV1::new,
            (issuer, audience, least_epoch, keys),
            Ok::<ExecutorIntentVerifierV1, ExecutorIntentError>(verifier),
        ),
    ensures
        verifier.keyring() == keys@,
        verifier.keyring().len() > 0,
        verifier.least_epoch() == least_epoch,
        0 < least_epoch <= i64::MAX,
        forall|i: int, j: int|
            0 <= i < verifier.keyring().len() && 0 <= j < verifier.keyring().len() && (
            #[trigger] verifier.keyring()[i]).key_text() == (
            #[trigger] verifier.keyring()[j]).key_text() ==> i == j,
{
}

/// A payload is of 8192 bytes at most, written or read, and of one at least. What is longer is refused
/// for that, and for nothing else.
pub proof fn law_payloads_are_bounded(
    bytes: &[u8],
    read: Result<ExecutorIntentPayloadV1, ExecutorIntentError>,
    payload: ExecutorIntentPayloadV1,
    written: Result<Vec<u8>, ExecutorIntentError>,
)
    requires
        call_ensures(decode_canonical_payload, (bytes,), read),
        call_ensures(encode_payload, (&payload,), written),
    ensures
        bytes@.len() == 0 || bytes@.len() > 8192 <==> read == Err::<
            ExecutorIntentPayloadV1,
            ExecutorIntentError,
        >(ExecutorIntentError::PayloadOversized),
        written matches Ok(found) ==> found@.len() <= 8192,
        written is Err <==> payload.cbor().len() > 8192,
{
}

} // verus!
