//! Tokens: bytes and a signature over them, as text.

use vstd::prelude::*;
use vstd::utf8::is_ascii_chars;
use super::ExecutorIntentError;
use crate::domain::identifiers::{sha256, EvidenceDigest};
use crate::execution_receipt::measures::place_in;
use crate::text::{characters, hex, same_text, text_of, utf8};

verus! {

pub const MAX_EXECUTOR_INTENT_TOKEN_BYTES: usize = 24 * 1024;

pub const SIGNATURE_BYTES: usize = 64;

/// The letter of six bits.
pub open spec fn base64url_letter(bits: int) -> char {
    if bits < 26 {
        (bits + 'A' as int) as char
    } else if bits < 52 {
        (bits - 26 + 'a' as int) as char
    } else if bits < 62 {
        (bits - 52 + '0' as int) as char
    } else if bits == 62 {
        '-'
    } else {
        '_'
    }
}

/// A byte, or zero past the end.
pub open spec fn byte_or_zero(bytes: Seq<u8>, i: int) -> int {
    if i < bytes.len() {
        bytes[i] as int
    } else {
        0
    }
}

/// Six bits of some bytes, counted in groups of four to three bytes.
pub open spec fn six_bits(bytes: Seq<u8>, i: int) -> int {
    let first = byte_or_zero(bytes, i / 4 * 3);
    let second = byte_or_zero(bytes, i / 4 * 3 + 1);
    let third = byte_or_zero(bytes, i / 4 * 3 + 2);
    if i % 4 == 0 {
        first / 4
    } else if i % 4 == 1 {
        first % 4 * 16 + second / 16
    } else if i % 4 == 2 {
        second % 16 * 4 + third / 64
    } else {
        third % 64
    }
}

/// Bytes as text: a letter for every six bits, with no padding.
pub open spec fn base64url(bytes: Seq<u8>) -> Seq<char> {
    Seq::new(((4 * bytes.len() + 2) / 3) as nat, |i: int| base64url_letter(six_bits(bytes, i)))
}

/// The bytes that `base64::Engine::decode` of the URL-safe alphabet without padding takes a text as.
pub uninterp spec fn base64url_decoded(text: Seq<char>) -> Option<Seq<u8>>;

/// `base64::Engine::encode` of the URL-safe alphabet without padding: a letter for every six bits.
/// What it writes, `decode` takes as the same bytes.
#[verifier::external_body]
pub(crate) fn encode_base64url(bytes: &[u8]) -> (text: String)
    ensures
        text@ == base64url(bytes@),
        base64url_decoded(text@) == Some(bytes@),
{
    base64::Engine::encode(&base64::engine::general_purpose::URL_SAFE_NO_PAD, bytes)
}

/// `base64::Engine::decode` of the URL-safe alphabet without padding.
#[verifier::external_body]
pub(crate) fn decode_base64url(text: &str) -> (r: Option<Vec<u8>>)
    ensures
        match r {
            Some(bytes) => base64url_decoded(text@) == Some(bytes@),
            None => base64url_decoded(text@) is None,
        },
{
    base64::Engine::decode(&base64::engine::general_purpose::URL_SAFE_NO_PAD, text).ok()
}

/// The public key of a seed.
pub uninterp spec fn ed25519_public_key(seed: Seq<u8>) -> Seq<u8>;

/// `ed25519_dalek::SigningKey::from_bytes` and `verifying_key`: the public key of a seed.
#[verifier::external_body]
pub(crate) fn public_key_of(seed: &[u8; 32]) -> (key: [u8; 32])
    ensures
        key@ == ed25519_public_key(seed@),
{
    ed25519_dalek::SigningKey::from_bytes(seed).verifying_key().to_bytes()
}

/// The signature of a message under a seed.
pub uninterp spec fn ed25519_signature(seed: Seq<u8>, message: Seq<u8>) -> Seq<u8>;

/// `ed25519_dalek::Signer::sign` of the key of a seed: 64 bytes that depend on the seed and the
/// message alone.
#[verifier::external_body]
pub(crate) fn sign(seed: &[u8; 32], message: &[u8]) -> (signature: Vec<u8>)
    ensures
        signature@ == ed25519_signature(seed@, message@),
        signature@.len() == SIGNATURE_BYTES,
{
    let key = ed25519_dalek::SigningKey::from_bytes(seed);
    ed25519_dalek::Signer::sign(&key, message).to_bytes().to_vec()
}

/// Bytes are a public key.
pub uninterp spec fn ed25519_is_public_key(key: Seq<u8>) -> bool;

/// `ed25519_dalek::VerifyingKey::from_bytes`: whether bytes are a public key.
#[verifier::external_body]
pub(crate) fn is_public_key(key: &[u8; 32]) -> (r: bool)
    ensures
        r == ed25519_is_public_key(key@),
{
    ed25519_dalek::VerifyingKey::from_bytes(key).is_ok()
}

/// A signature is one of a message under a public key.
pub uninterp spec fn ed25519_verifies(key: Seq<u8>, message: Seq<u8>, signature: Seq<u8>) -> bool;

/// `ed25519_dalek::VerifyingKey::verify_strict`: whether a signature is one of a message under a
/// public key. Bytes that are no key or no signature verify nothing.
#[verifier::external_body]
pub(crate) fn verify_strict(key: &[u8; 32], message: &[u8], signature: &[u8]) -> (r: bool)
    ensures
        r == ed25519_verifies(key@, message@, signature@),
{
    match (
        ed25519_dalek::VerifyingKey::from_bytes(key),
        ed25519_dalek::Signature::from_slice(signature),
    ) {
        (Ok(key), Ok(signature)) => key.verify_strict(message, &signature).is_ok(),
        _ => false,
    }
}

/// The parts of a token: what stands before its one dot, and what stands after it.
pub open spec fn token_parts(token: Seq<char>) -> Option<(Seq<char>, Seq<char>)> {
    let at = place_in(token, '.');
    if utf8(token).len() > MAX_EXECUTOR_INTENT_TOKEN_BYTES || !is_ascii_chars(token) || at == 0 || at + 1
        >= token.len() || token.skip(at + 1).contains('.') {
        None
    } else {
        Some((token.take(at), token.skip(at + 1)))
    }
}

/// What is wrong with a token: it is not two parts with a dot between them, a part stands for no
/// bytes, a part is not written as its bytes are, or the second part is no signature.
pub open spec fn token_fault(token: Seq<char>) -> Option<ExecutorIntentError> {
    match token_parts(token) {
        None => Some(ExecutorIntentError::InvalidTokenEncoding),
        Some((payload, signature)) => match (
            base64url_decoded(payload),
            base64url_decoded(signature),
        ) {
            (Some(payload_bytes), Some(signature_bytes)) => if base64url(payload_bytes) != payload
                || base64url(signature_bytes) != signature {
                Some(ExecutorIntentError::NonCanonicalTokenEncoding)
            } else if signature_bytes.len() != SIGNATURE_BYTES {
                Some(ExecutorIntentError::InvalidSignature)
            } else {
                None
            },
            _ => Some(ExecutorIntentError::Base64),
        },
    }
}

/// The bytes that a token is of.
pub open spec fn token_payload(token: Seq<char>) -> Seq<u8> {
    base64url_decoded((token_parts(token)->0).0)->0
}

/// The signature that a token carries.
pub open spec fn token_signature(token: Seq<char>) -> Seq<u8> {
    base64url_decoded((token_parts(token)->0).1)->0
}

fn find_dot(all: &Vec<char>) -> (r: usize)
    ensures
        r == place_in(all@, '.'),
        r <= all@.len(),
        forall|k: int| 0 <= k < r ==> all@[k] != '.',
{
    let mut i: usize = 0;
    assert(all@.skip(0) =~= all@);
    while i < all.len()
        invariant
            i <= all.len(),
            place_in(all@, '.') == i + place_in(all@.skip(i as int), '.'),
            forall|k: int| 0 <= k < i ==> all@[k] != '.',
        decreases all.len() - i,
    {
        if all[i] == '.' {
            return i;
        }
        proof {
            assert(all@.skip(i as int).drop_first() =~= all@.skip(i + 1));
        }
        i += 1;
    }
    i
}

proof fn lemma_char_is_no_less(c: char)
    ensures
        '\0' <= c,
{
}

fn split_token(token: &str) -> (r: Option<(String, String)>)
    ensures
        match r {
            Some((payload, signature)) => token_parts(token@) == Some((payload@, signature@)),
            None => token_parts(token@) is None,
        },
{
    let bytes = token.as_bytes();
    if bytes.len() > MAX_EXECUTOR_INTENT_TOKEN_BYTES {
        return None;
    }
    let all = characters(token);
    let mut i: usize = 0;
    while i < all.len()
        invariant
            i <= all.len(),
            all@ == token@,
            forall|k: int| 0 <= k < i ==> #[trigger] token@[k] <= '\u{7f}',
        decreases all.len() - i,
    {
        let c = all[i];
        assert(token@[i as int] == c);
        if c > '\u{7f}' {
            assert(!is_ascii_chars(token@));
            return None;
        }
        i += 1;
    }
    assert(is_ascii_chars(token@)) by {
        assert forall|k: int| 0 <= k < token@.len() implies '\0' <= #[trigger] token@[k] by {
            lemma_char_is_no_less(token@[k]);
        }
    }
    let at = find_dot(&all);
    if at == 0 || all.len() - at <= 1 {
        return None;
    }
    let mut k: usize = at + 1;
    let ghost rest = token@.skip(at + 1);
    while k < all.len()
        invariant
            0 < at < k <= all.len(),
            all@ == token@,
            at == place_in(token@, '.'),
            rest == token@.skip(at + 1),
            forall|j: int| at < j < k ==> token@[j] != '.',
        decreases all.len() - k,
    {
        if all[k] == '.' {
            assert(rest[k - at - 1] == '.');
            return None;
        }
        k += 1;
    }
    proof {
        assert forall|j: int| 0 <= j < rest.len() implies rest[j] != '.' by {
            assert(rest[j] == token@[j + at + 1]);
        }
    }
    let payload = text_of(&all, 0, at);
    let signature = text_of(&all, at + 1, all.len());
    assert(payload@ =~= token@.take(at as int));
    assert(signature@ =~= rest);
    Some((payload, signature))
}

/// The bytes and the signature of a token.
pub(crate) fn decode_token(token: &str) -> (r: Result<(Vec<u8>, Vec<u8>), ExecutorIntentError>)
    ensures
        match r {
            Ok((payload, signature)) => {
                &&& token_fault(token@) is None
                &&& payload@ == token_payload(token@)
                &&& signature@ == token_signature(token@)
                &&& signature@.len() == SIGNATURE_BYTES
            },
            Err(error) => token_fault(token@) == Some(error),
        },
{
    let (payload_part, signature_part) = match split_token(token) {
        None => return Err(ExecutorIntentError::InvalidTokenEncoding),
        Some(parts) => parts,
    };
    let (payload, signature) = match (
        decode_base64url(payload_part.as_str()),
        decode_base64url(signature_part.as_str()),
    ) {
        (Some(payload), Some(signature)) => (payload, signature),
        _ => return Err(ExecutorIntentError::Base64),
    };
    let payload_again = encode_base64url(payload.as_slice());
    let signature_again = encode_base64url(signature.as_slice());
    if !same_text(payload_again.as_str(), payload_part.as_str()) || !same_text(
        signature_again.as_str(),
        signature_part.as_str(),
    ) {
        return Err(ExecutorIntentError::NonCanonicalTokenEncoding);
    }
    if signature.len() != SIGNATURE_BYTES {
        return Err(ExecutorIntentError::InvalidSignature);
    }
    Ok((payload, signature))
}

/// What the signatures of intents are over, before the bytes that they sign.
pub open spec fn signature_domain() -> Seq<char> {
    "rdashboard.executor-intent.v1"@
}

/// What is signed for some bytes.
pub open spec fn signed_bytes(payload: Seq<u8>) -> Seq<u8> {
    utf8(signature_domain()).push(0) + payload
}

pub(crate) fn signature_input(payload: &[u8]) -> (out: Vec<u8>)
    ensures
        out@ == signed_bytes(payload@),
{
    let mut out: Vec<u8> = Vec::new();
    out.extend_from_slice("rdashboard.executor-intent.v1".as_bytes());
    out.push(0);
    out.extend_from_slice(payload);
    assert(out@ =~= signed_bytes(payload@));
    out
}

/// The digest of an intent: over what is signed, and the signature.
pub(crate) fn intent_digest(payload: &[u8], signature: &[u8]) -> (r: EvidenceDigest)
    ensures
        r@ == hex(sha256(signed_bytes(payload@) + signature@)),
{
    let mut bytes = signature_input(payload);
    bytes.extend_from_slice(signature);
    assert(bytes@ =~= signed_bytes(payload@) + signature@);
    EvidenceDigest::sha256(bytes.as_slice())
}

/// Bytes that are written as text are taken as the same bytes.
pub open spec fn reads_back(bytes: Seq<u8>) -> bool {
    base64url_decoded(base64url(bytes)) == Some(bytes)
}

/// The token of some bytes and their signature.
pub open spec fn compact(payload: Seq<u8>, signature: Seq<u8>) -> Seq<char> {
    base64url(payload).push('.') + base64url(signature)
}

pub(crate) fn to_compact(payload: &[u8], signature: &[u8]) -> (r: String)
    ensures
        r@ == compact(payload@, signature@),
        reads_back(payload@),
        reads_back(signature@),
{
    let mut text = encode_base64url(payload);
    text.append(".");
    let rest = encode_base64url(signature);
    text.append(rest.as_str());
    proof {
        reveal_strlit(".");
        assert(text@ =~= compact(payload@, signature@));
    }
    text
}

/// A letter is ASCII, and no dot.
proof fn lemma_letter(bits: int)
    requires
        0 <= bits < 64,
    ensures
        base64url_letter(bits) != '.',
        base64url_letter(bits) <= '\u{7f}',
{
}

/// The bits of a group are fewer than seven.
proof fn lemma_six_bits(bytes: Seq<u8>, i: int)
    requires
        0 <= i,
    ensures
        0 <= six_bits(bytes, i) < 64,
{
}

/// The first dot of a text that has none before some place.
proof fn lemma_first_dot(text: Seq<char>, at: int)
    requires
        0 <= at < text.len(),
        text[at] == '.',
        forall|k: int| 0 <= k < at ==> text[k] != '.',
    ensures
        place_in(text, '.') == at,
    decreases at,
{
    if at > 0 {
        lemma_first_dot(text.drop_first(), at - 1);
    }
}

/// A token is taken apart as it was put together.
pub proof fn law_tokens_are_read_back(payload: Seq<u8>, signature: Seq<u8>)
    requires
        0 < payload.len() <= super::payload::MAX_EXECUTOR_INTENT_PAYLOAD_BYTES,
        signature.len() == SIGNATURE_BYTES,
        reads_back(payload),
        reads_back(signature),
    ensures
        token_fault(compact(payload, signature)) is None,
        token_payload(compact(payload, signature)) == payload,
        token_signature(compact(payload, signature)) == signature,
        token_parts(compact(payload, signature)) == Some((base64url(payload), base64url(signature))),
{
    let token = compact(payload, signature);
    let left = base64url(payload);
    let right = base64url(signature);
    assert forall|i: int| 0 <= i < left.len() implies left[i] != '.' && left[i] <= '\u{7f}' by {
        lemma_six_bits(payload, i);
        lemma_letter(six_bits(payload, i));
    }
    assert forall|i: int| 0 <= i < right.len() implies right[i] != '.' && right[i] <= '\u{7f}' by {
        lemma_six_bits(signature, i);
        lemma_letter(six_bits(signature, i));
    }
    assert forall|i: int| 0 <= i < token.len() implies (#[trigger] token[i]) <= '\u{7f}' by {
        if i < left.len() {
            assert(token[i] == left[i]);
        } else if i > left.len() {
            assert(token[i] == right[i - left.len() - 1]);
        }
    }
    assert(is_ascii_chars(token));
    vstd::utf8::is_ascii_chars_encode_utf8(token);
    assert forall|k: int| 0 <= k < left.len() implies token[k] != '.' by {
        assert(token[k] == left[k]);
    }
    lemma_first_dot(token, left.len() as int);
    assert(token.take(left.len() as int) =~= left);
    assert(token.skip(left.len() as int + 1) =~= right);
}

} // verus!
