//! The bytes of a payload are those of no other.

use vstd::arithmetic::div_mod::lemma_div_denominator;
use vstd::arithmetic::power::{lemma_pow1, lemma_pow_adds, lemma_pow_positive, pow};
use vstd::prelude::*;
use super::cbor::{
    byte_string,
    head,
    lemma_stands_split,
    number,
    stands,
    text_string,
};
use super::payload::{
    consequence_items,
    consequences_item,
    keyed,
    lemma_field,
    lemma_upto_grows,
    no_key,
    ExecutorIntentConsequenceV1,
    ExecutorIntentPayloadV1,
};
use crate::text::{lemma_utf8_injective, text_option, utf8};
use crate::unique_id::{big_endian, lemma_uuid_view, Uuid};

verus! {

/// The bytes that a number of some size is written in after its first byte.
pub open spec fn head_class(n: int) -> int {
    if n < 24 {
        n
    } else if n < 0x100 {
        24
    } else if n < 0x1_0000 {
        25
    } else if n < 0x1_0000_0000 {
        26
    } else {
        27
    }
}

proof fn lemma_head_first(major: int, n: int)
    requires
        0 <= major < 8,
        0 <= n < 0x1_0000_0000_0000_0000,
    ensures
        head(major, n).len() >= 1,
        head(major, n)[0] as int == major * 32 + head_class(n),
{
    reveal(head);
}

/// Numbers whose quotients agree, and whose last digits in them do, agree in the digits before.
proof fn lemma_digit(a: int, b: int, c: int)
    requires
        0 <= a,
        0 <= b,
        0 < c,
        a / (c * 256) == b / (c * 256),
        (a / c) % 256 == (b / c) % 256,
    ensures
        a / c == b / c,
{
    lemma_div_denominator(a, c, 256);
    lemma_div_denominator(b, c, 256);
}

proof fn lemma_two_bytes(a: int, b: int)
    requires
        0 <= a,
        0 <= b,
        a / 0x1_0000 == b / 0x1_0000,
        a / 0x100 % 0x100 == b / 0x100 % 0x100,
        a % 0x100 == b % 0x100,
    ensures
        a == b,
{
    lemma_digit(a, b, 0x100);
}

proof fn lemma_four_bytes(a: int, b: int)
    requires
        0 <= a,
        0 <= b,
        a / 0x1_0000_0000 == b / 0x1_0000_0000,
        a / 0x100_0000 % 0x100 == b / 0x100_0000 % 0x100,
        a / 0x1_0000 % 0x100 == b / 0x1_0000 % 0x100,
        a / 0x100 % 0x100 == b / 0x100 % 0x100,
        a % 0x100 == b % 0x100,
    ensures
        a == b,
{
    lemma_digit(a, b, 0x100_0000);
    lemma_digit(a, b, 0x1_0000);
    lemma_two_bytes(a, b);
}

proof fn lemma_eight_bytes(a: int, b: int)
    requires
        0 <= a,
        0 <= b,
        a / 0x100_0000_0000_0000 == b / 0x100_0000_0000_0000,
        a / 0x1_0000_0000_0000 % 0x100 == b / 0x1_0000_0000_0000 % 0x100,
        a / 0x100_0000_0000 % 0x100 == b / 0x100_0000_0000 % 0x100,
        a / 0x1_0000_0000 % 0x100 == b / 0x1_0000_0000 % 0x100,
        a / 0x100_0000 % 0x100 == b / 0x100_0000 % 0x100,
        a / 0x1_0000 % 0x100 == b / 0x1_0000 % 0x100,
        a / 0x100 % 0x100 == b / 0x100 % 0x100,
        a % 0x100 == b % 0x100,
    ensures
        a == b,
{
    lemma_digit(a, b, 0x1_0000_0000_0000);
    lemma_digit(a, b, 0x100_0000_0000);
    lemma_digit(a, b, 0x1_0000_0000);
    lemma_four_bytes(a, b);
}

proof fn lemma_head_number(major: int, a: int, b: int)
    requires
        0 <= major < 8,
        0 <= a < 0x1_0000_0000_0000_0000,
        0 <= b < 0x1_0000_0000_0000_0000,
        head_class(a) == head_class(b),
        head(major, a) == head(major, b),
    ensures
        a == b,
{
    let x = head(major, a);
    let y = head(major, b);
    if a >= 0x1_0000_0000 {
        lemma_long_head(major, a);
        lemma_long_head(major, b);
        lemma_eight_bytes(a, b);
    } else if a >= 0x1_0000 {
        reveal(head);
        assert(x[1] == y[1] && x[2] == y[2] && x[3] == y[3] && x[4] == y[4]);
        lemma_four_bytes(a, b);
    } else if a >= 0x100 {
        reveal(head);
        assert(x[1] == y[1] && x[2] == y[2]);
        lemma_two_bytes(a, b);
    } else if a >= 24 {
        reveal(head);
        assert(x[1] == y[1]);
    }
}

/// The bytes of a number that has no place in fewer than eight.
proof fn lemma_long_head(major: int, n: int)
    requires
        0x1_0000_0000 <= n < 0x1_0000_0000_0000_0000,
    ensures
        head(major, n)[1] as int == n / 0x100_0000_0000_0000,
        head(major, n)[2] as int == n / 0x1_0000_0000_0000 % 0x100,
        head(major, n)[3] as int == n / 0x100_0000_0000 % 0x100,
        head(major, n)[4] as int == n / 0x1_0000_0000 % 0x100,
        head(major, n)[5] as int == n / 0x100_0000 % 0x100,
        head(major, n)[6] as int == n / 0x1_0000 % 0x100,
        head(major, n)[7] as int == n / 0x100 % 0x100,
        head(major, n)[8] as int == n % 0x100,
{
    reveal(head);
}

proof fn lemma_head_length(major: int, n: int, other: int)
    requires
        head_class(n) == head_class(other),
    ensures
        head(major, n).len() == head(major, other).len(),
{
    reveal(head);
}

/// One head stands at a place.
pub proof fn lemma_head_unique(
    bytes: Seq<u8>,
    at: int,
    major: int,
    n: int,
    other_major: int,
    other: int,
)
    requires
        stands(bytes, at, head(major, n)),
        stands(bytes, at, head(other_major, other)),
        0 <= major < 8,
        0 <= other_major < 8,
        0 <= n < 0x1_0000_0000_0000_0000,
        0 <= other < 0x1_0000_0000_0000_0000,
    ensures
        major == other_major,
        n == other,
{
    let x = head(major, n);
    let y = head(other_major, other);
    lemma_head_first(major, n);
    lemma_head_first(other_major, other);
    assert(x[0] == bytes[at]) by {
        assert(bytes.subrange(at, at + x.len())[0] == bytes[at]);
    }
    assert(y[0] == bytes[at]) by {
        assert(bytes.subrange(at, at + y.len())[0] == bytes[at]);
    }
    assert(major == other_major && head_class(n) == head_class(other));
    lemma_head_length(major, n, other);
    assert(x == y);
    lemma_head_number(major, n, other);
}

/// One number stands at a place.
pub proof fn lemma_number_unique(bytes: Seq<u8>, at: int, a: int, b: int)
    requires
        stands(bytes, at, number(a)),
        stands(bytes, at, number(b)),
        -0x8000_0000_0000_0000 <= a < 0x1_0000_0000_0000_0000,
        -0x8000_0000_0000_0000 <= b < 0x1_0000_0000_0000_0000,
    ensures
        a == b,
{
    let major = if a >= 0 {
        0int
    } else {
        1int
    };
    let n = if a >= 0 {
        a
    } else {
        -1 - a
    };
    let other_major = if b >= 0 {
        0int
    } else {
        1int
    };
    let other = if b >= 0 {
        b
    } else {
        -1 - b
    };
    lemma_head_unique(bytes, at, major, n, other_major, other);
}

proof fn lemma_content_unique(bytes: Seq<u8>, at: int, major: int, a: Seq<u8>, b: Seq<u8>)
    requires
        0 <= major < 8,
        stands(bytes, at, head(major, a.len() as int) + a),
        stands(bytes, at, head(major, b.len() as int) + b),
        bytes.len() < 0x1_0000_0000_0000_0000,
    ensures
        a == b,
{
    lemma_stands_split(bytes, at, head(major, a.len() as int), a);
    lemma_stands_split(bytes, at, head(major, b.len() as int), b);
    lemma_head_unique(bytes, at, major, a.len() as int, major, b.len() as int);
}

/// One text stands at a place.
pub proof fn lemma_text_unique(bytes: Seq<u8>, at: int, a: Seq<char>, b: Seq<char>)
    requires
        stands(bytes, at, text_string(a)),
        stands(bytes, at, text_string(b)),
        bytes.len() < 0x1_0000_0000_0000_0000,
    ensures
        a == b,
{
    lemma_content_unique(bytes, at, 3, utf8(a), utf8(b));
    lemma_utf8_injective(a, b);
}

proof fn lemma_quotients_agree(a: u128, b: u128, k: nat)
    requires
        big_endian(a) == big_endian(b),
        k <= 16,
    ensures
        a as int / pow(256, k) == b as int / pow(256, k),
    decreases 16 - k,
{
    lemma_pow_positive(256, k);
    if k == 16 {
        lemma_pow_16();
        assert(a as int / pow(256, 16) == 0 && b as int / pow(256, 16) == 0) by {
            vstd::arithmetic::div_mod::lemma_basic_div(a as int, pow(256, 16));
            vstd::arithmetic::div_mod::lemma_basic_div(b as int, pow(256, 16));
        }
    } else {
        lemma_quotients_agree(a, b, k + 1);
        lemma_pow_adds(256, k, 1);
        lemma_pow1(256);
        lemma_div_denominator(a as int, pow(256, k), 256);
        lemma_div_denominator(b as int, pow(256, k), 256);
        let x = a as int / pow(256, k);
        let y = b as int / pow(256, k);
        assert(x / 256 == y / 256);
        let i = 15 - k;
        assert(big_endian(a)[i] == big_endian(b)[i]);
        assert((15 - i) as nat == k);
        assert(big_endian(a)[i] == ((a as int / pow(256, (15 - i) as nat)) % 256) as u8);
        assert(big_endian(b)[i] == ((b as int / pow(256, (15 - i) as nat)) % 256) as u8);
        assert((x % 256) as u8 == (y % 256) as u8);
    }
}

proof fn lemma_pow_16()
    ensures
        pow(256, 16) == 0x1_0000_0000_0000_0000_0000_0000_0000_0000,
{
    lemma_pow1(256);
    lemma_pow_adds(256, 1, 1);
    lemma_pow_adds(256, 2, 2);
    lemma_pow_adds(256, 4, 4);
    lemma_pow_adds(256, 8, 8);
    let two = pow(256, 2);
    let four = pow(256, 4);
    let eight = pow(256, 8);
    assert(two * two == 0x1_0000_0000) by (nonlinear_arith)
        requires
            two == 0x1_0000,
    ;
    assert(four * four == 0x1_0000_0000_0000_0000) by (nonlinear_arith)
        requires
            four == 0x1_0000_0000,
    ;
    assert(eight * eight == 0x1_0000_0000_0000_0000_0000_0000_0000_0000) by (nonlinear_arith)
        requires
            eight == 0x1_0000_0000_0000_0000,
    ;
}

/// The bytes of an identifier are those of no other.
pub proof fn lemma_big_endian_injective(a: Uuid, b: Uuid)
    requires
        big_endian(a@) == big_endian(b@),
    ensures
        a == b,
{
    lemma_quotients_agree(a@, b@, 0);
    vstd::arithmetic::power::lemma_pow0(256);
    lemma_uuid_view(a, b);
}

proof fn lemma_uuid_unique(bytes: Seq<u8>, at: int, a: Uuid, b: Uuid)
    requires
        stands(bytes, at, byte_string(big_endian(a@))),
        stands(bytes, at, byte_string(big_endian(b@))),
        bytes.len() < 0x1_0000_0000_0000_0000,
    ensures
        a == b,
{
    lemma_content_unique(bytes, at, 2, big_endian(a@), big_endian(b@));
    lemma_big_endian_injective(a, b);
}

proof fn lemma_items_unique(
    bytes: Seq<u8>,
    at: int,
    a: Seq<ExecutorIntentConsequenceV1>,
    b: Seq<ExecutorIntentConsequenceV1>,
)
    requires
        a.len() == b.len(),
        stands(bytes, at, consequence_items(a)),
        stands(bytes, at, consequence_items(b)),
    ensures
        a == b,
    decreases a.len(),
{
    if a.len() > 0 {
        let first = number(a[0].index());
        let other = number(b[0].index());
        lemma_stands_split(bytes, at, first, consequence_items(a.drop_first()));
        lemma_stands_split(bytes, at, other, consequence_items(b.drop_first()));
        lemma_number_unique(bytes, at, a[0].index(), b[0].index());
        lemma_items_unique(bytes, at + first.len(), a.drop_first(), b.drop_first());
        assert(a =~= seq![a[0]] + a.drop_first());
        assert(b =~= seq![b[0]] + b.drop_first());
    } else {
        assert(a =~= b);
    }
}

proof fn lemma_consequences_unique(
    bytes: Seq<u8>,
    at: int,
    a: Seq<ExecutorIntentConsequenceV1>,
    b: Seq<ExecutorIntentConsequenceV1>,
)
    requires
        stands(bytes, at, consequences_item(a)),
        stands(bytes, at, consequences_item(b)),
        a.len() < 0x1_0000_0000_0000_0000,
        b.len() < 0x1_0000_0000_0000_0000,
    ensures
        a == b,
{
    lemma_stands_split(bytes, at, head(4, a.len() as int), consequence_items(a));
    lemma_stands_split(bytes, at, head(4, b.len() as int), consequence_items(b));
    lemma_head_unique(bytes, at, 4, a.len() as int, 4, b.len() as int);
    lemma_items_unique(bytes, at + head(4, a.len() as int).len(), a, b);
}

/// Two payloads have the same field under a key.
pub open spec fn same_field(
    a: ExecutorIntentPayloadV1,
    b: ExecutorIntentPayloadV1,
    key: int,
) -> bool {
    &&& a.field(key) == b.field(key)
    &&& key == 0 ==> a.schema_version == b.schema_version
    &&& key == 1 ==> a.issuer@ == b.issuer@
    &&& key == 2 ==> a.authorizer_audience@ == b.authorizer_audience@
    &&& key == 3 ==> a.key_id@ == b.key_id@
    &&& key == 4 ==> a.key_epoch == b.key_epoch
    &&& key == 5 ==> a.issued_at_ms == b.issued_at_ms
    &&& key == 6 ==> a.not_before_ms == b.not_before_ms
    &&& key == 7 ==> a.expires_at_ms == b.expires_at_ms
    &&& key == 8 ==> a.intent_id == b.intent_id
    &&& key == 9 ==> a.request_id == b.request_id
    &&& key == 10 ==> a.project_id@ == b.project_id@
    &&& key == 11 ==> a.operation_kind == b.operation_kind
    &&& key == 12 ==> text_option(a.target_commit) == text_option(b.target_commit)
    &&& key == 13 ==> a.proposed_release_class == b.proposed_release_class
    &&& key == 14 ==> a.effective_release_class == b.effective_release_class
    &&& key == 15 ==> a.installed_policy_digest@ == b.installed_policy_digest@
    &&& key == 16 ==> text_option(a.source_attestation_digest) == text_option(b.source_attestation_digest)
    &&& key == 17 ==> a.source_sequence == b.source_sequence
    &&& key == 18 ==> text_option(a.migration_id) == text_option(b.migration_id)
    &&& key == 19 ==> text_option(a.previous_release_bundle_digest) == text_option(b.previous_release_bundle_digest)
    &&& key == 20 ==> a.consequences@ == b.consequences@
    &&& key == 21 ==> a.minimum_role == b.minimum_role
    &&& key == 22 ==> text_option(a.release_bundle_digest) == text_option(b.release_bundle_digest)
    &&& key == 23 ==> text_option(a.build_attestation_digest) == text_option(b.build_attestation_digest)
}

/// Two payloads are written in the same bytes, and agree before a key.
pub open spec fn agree_before(
    a: ExecutorIntentPayloadV1,
    b: ExecutorIntentPayloadV1,
    key: int,
) -> bool {
    &&& a.upto(24) == b.upto(24)
    &&& a.upto(key) == b.upto(key)
    &&& a.upto(24).len() < 0x1_0000_0000_0000_0000
}

/// A field that is there in one of two payloads is there in the other.
proof fn lemma_left_out_together(
    a: ExecutorIntentPayloadV1,
    b: ExecutorIntentPayloadV1,
    key: int,
    item: Seq<u8>,
)
    requires
        agree_before(a, b, key),
        0 <= key < 24,
        a.field(key) == keyed(key, item),
    ensures
        b.field(key).len() > 0,
{
    let bytes = a.upto(24);
    let at = a.upto(key).len() as int;
    lemma_field(a, key);
    lemma_field(b, key);
    lemma_stands_split(bytes, at, number(key), item);
    super::cbor::lemma_number_is_written(key);
    if b.field(key).len() == 0 {
        assert(no_key(bytes, at, key));
        let other = choose|other: i64|
            other != key && #[trigger] stands(bytes, at, number(other as int));
        lemma_number_unique(bytes, at, key, other as int);
    }
}

/// The value of a field stands after its key, in both of two payloads.
proof fn lemma_values_stand(
    a: ExecutorIntentPayloadV1,
    b: ExecutorIntentPayloadV1,
    key: int,
    item: Seq<u8>,
    other: Seq<u8>,
) -> (at: int)
    requires
        agree_before(a, b, key),
        0 <= key < 24,
        a.field(key) == keyed(key, item),
        b.field(key) == keyed(key, other),
    ensures
        stands(a.upto(24), at, item),
        stands(a.upto(24), at, other),
{
    let bytes = a.upto(24);
    let at = a.upto(key).len() as int;
    lemma_field(a, key);
    lemma_field(b, key);
    lemma_stands_split(bytes, at, number(key), item);
    lemma_stands_split(bytes, at, number(key), other);
    at + number(key).len()
}

proof fn lemma_schema_version_agrees(a: ExecutorIntentPayloadV1, b: ExecutorIntentPayloadV1)
    requires
        agree_before(a, b, 0),
    ensures
        same_field(a, b, 0),
{
    let bytes = a.upto(24);
    let at = lemma_values_stand(a, b, 0, number(a.schema_version as int), number(b.schema_version as int));
    lemma_number_unique(bytes, at, a.schema_version as int, b.schema_version as int);
}

proof fn lemma_issuer_agrees(a: ExecutorIntentPayloadV1, b: ExecutorIntentPayloadV1)
    requires
        agree_before(a, b, 1),
    ensures
        same_field(a, b, 1),
{
    let bytes = a.upto(24);
    let at = lemma_values_stand(a, b, 1, text_string(a.issuer@), text_string(b.issuer@));
    lemma_text_unique(bytes, at, a.issuer@, b.issuer@);
}

proof fn lemma_authorizer_audience_agrees(a: ExecutorIntentPayloadV1, b: ExecutorIntentPayloadV1)
    requires
        agree_before(a, b, 2),
    ensures
        same_field(a, b, 2),
{
    let bytes = a.upto(24);
    let at = lemma_values_stand(a, b, 2, text_string(a.authorizer_audience@), text_string(b.authorizer_audience@));
    lemma_text_unique(bytes, at, a.authorizer_audience@, b.authorizer_audience@);
}

proof fn lemma_key_id_agrees(a: ExecutorIntentPayloadV1, b: ExecutorIntentPayloadV1)
    requires
        agree_before(a, b, 3),
    ensures
        same_field(a, b, 3),
{
    let bytes = a.upto(24);
    let at = lemma_values_stand(a, b, 3, text_string(a.key_id@), text_string(b.key_id@));
    lemma_text_unique(bytes, at, a.key_id@, b.key_id@);
}

proof fn lemma_key_epoch_agrees(a: ExecutorIntentPayloadV1, b: ExecutorIntentPayloadV1)
    requires
        agree_before(a, b, 4),
    ensures
        same_field(a, b, 4),
{
    let bytes = a.upto(24);
    let at = lemma_values_stand(a, b, 4, number(a.key_epoch as int), number(b.key_epoch as int));
    lemma_number_unique(bytes, at, a.key_epoch as int, b.key_epoch as int);
}

proof fn lemma_issued_at_ms_agrees(a: ExecutorIntentPayloadV1, b: ExecutorIntentPayloadV1)
    requires
        agree_before(a, b, 5),
    ensures
        same_field(a, b, 5),
{
    let bytes = a.upto(24);
    let at = lemma_values_stand(a, b, 5, number(a.issued_at_ms as int), number(b.issued_at_ms as int));
    lemma_number_unique(bytes, at, a.issued_at_ms as int, b.issued_at_ms as int);
}

proof fn lemma_not_before_ms_agrees(a: ExecutorIntentPayloadV1, b: ExecutorIntentPayloadV1)
    requires
        agree_before(a, b, 6),
    ensures
        same_field(a, b, 6),
{
    let bytes = a.upto(24);
    let at = lemma_values_stand(a, b, 6, number(a.not_before_ms as int), number(b.not_before_ms as int));
    lemma_number_unique(bytes, at, a.not_before_ms as int, b.not_before_ms as int);
}

proof fn lemma_expires_at_ms_agrees(a: ExecutorIntentPayloadV1, b: ExecutorIntentPayloadV1)
    requires
        agree_before(a, b, 7),
    ensures
        same_field(a, b, 7),
{
    let bytes = a.upto(24);
    let at = lemma_values_stand(a, b, 7, number(a.expires_at_ms as int), number(b.expires_at_ms as int));
    lemma_number_unique(bytes, at, a.expires_at_ms as int, b.expires_at_ms as int);
}

proof fn lemma_intent_id_agrees(a: ExecutorIntentPayloadV1, b: ExecutorIntentPayloadV1)
    requires
        agree_before(a, b, 8),
    ensures
        same_field(a, b, 8),
{
    let bytes = a.upto(24);
    let at = lemma_values_stand(a, b, 8, byte_string(big_endian(a.intent_id@)), byte_string(big_endian(b.intent_id@)));
    lemma_uuid_unique(bytes, at, a.intent_id, b.intent_id);
}

proof fn lemma_request_id_agrees(a: ExecutorIntentPayloadV1, b: ExecutorIntentPayloadV1)
    requires
        agree_before(a, b, 9),
    ensures
        same_field(a, b, 9),
{
    let bytes = a.upto(24);
    let at = lemma_values_stand(a, b, 9, byte_string(big_endian(a.request_id@)), byte_string(big_endian(b.request_id@)));
    lemma_uuid_unique(bytes, at, a.request_id, b.request_id);
}

proof fn lemma_project_id_agrees(a: ExecutorIntentPayloadV1, b: ExecutorIntentPayloadV1)
    requires
        agree_before(a, b, 10),
    ensures
        same_field(a, b, 10),
{
    let bytes = a.upto(24);
    let at = lemma_values_stand(a, b, 10, text_string(a.project_id@), text_string(b.project_id@));
    lemma_text_unique(bytes, at, a.project_id@, b.project_id@);
}

proof fn lemma_operation_kind_agrees(a: ExecutorIntentPayloadV1, b: ExecutorIntentPayloadV1)
    requires
        agree_before(a, b, 11),
    ensures
        same_field(a, b, 11),
{
    let bytes = a.upto(24);
    let at = lemma_values_stand(a, b, 11, number(a.operation_kind.index()), number(b.operation_kind.index()));
    lemma_number_unique(bytes, at, a.operation_kind.index(), b.operation_kind.index());
}

proof fn lemma_target_commit_agrees(a: ExecutorIntentPayloadV1, b: ExecutorIntentPayloadV1)
    requires
        agree_before(a, b, 12),
    ensures
        same_field(a, b, 12),
{
    let bytes = a.upto(24);
    if a.target_commit is Some && b.target_commit is Some {
        let at = lemma_values_stand(a, b, 12, text_string((a.target_commit->0)@), text_string((b.target_commit->0)@));
        lemma_text_unique(bytes, at, (a.target_commit->0)@, (b.target_commit->0)@);
    } else if a.target_commit is Some {
        lemma_left_out_together(a, b, 12, text_string((a.target_commit->0)@));
    } else if b.target_commit is Some {
        lemma_left_out_together(b, a, 12, text_string((b.target_commit->0)@));
    }
}

proof fn lemma_proposed_release_class_agrees(a: ExecutorIntentPayloadV1, b: ExecutorIntentPayloadV1)
    requires
        agree_before(a, b, 13),
    ensures
        same_field(a, b, 13),
{
    let bytes = a.upto(24);
    if a.proposed_release_class is Some && b.proposed_release_class is Some {
        let at = lemma_values_stand(a, b, 13, number((a.proposed_release_class->0).index()), number((b.proposed_release_class->0).index()));
        lemma_number_unique(bytes, at, (a.proposed_release_class->0).index(), (b.proposed_release_class->0).index());
    } else if a.proposed_release_class is Some {
        lemma_left_out_together(a, b, 13, number((a.proposed_release_class->0).index()));
    } else if b.proposed_release_class is Some {
        lemma_left_out_together(b, a, 13, number((b.proposed_release_class->0).index()));
    }
}

proof fn lemma_effective_release_class_agrees(
    a: ExecutorIntentPayloadV1,
    b: ExecutorIntentPayloadV1,
)
    requires
        agree_before(a, b, 14),
    ensures
        same_field(a, b, 14),
{
    let bytes = a.upto(24);
    if a.effective_release_class is Some && b.effective_release_class is Some {
        let at = lemma_values_stand(a, b, 14, number((a.effective_release_class->0).index()), number((b.effective_release_class->0).index()));
        lemma_number_unique(bytes, at, (a.effective_release_class->0).index(), (b.effective_release_class->0).index());
    } else if a.effective_release_class is Some {
        lemma_left_out_together(a, b, 14, number((a.effective_release_class->0).index()));
    } else if b.effective_release_class is Some {
        lemma_left_out_together(b, a, 14, number((b.effective_release_class->0).index()));
    }
}

proof fn lemma_installed_policy_digest_agrees(
    a: ExecutorIntentPayloadV1,
    b: ExecutorIntentPayloadV1,
)
    requires
        agree_before(a, b, 15),
    ensures
        same_field(a, b, 15),
{
    let bytes = a.upto(24);
    let at = lemma_values_stand(a, b, 15, text_string(a.installed_policy_digest@), text_string(b.installed_policy_digest@));
    lemma_text_unique(bytes, at, a.installed_policy_digest@, b.installed_policy_digest@);
}

proof fn lemma_source_attestation_digest_agrees(
    a: ExecutorIntentPayloadV1,
    b: ExecutorIntentPayloadV1,
)
    requires
        agree_before(a, b, 16),
    ensures
        same_field(a, b, 16),
{
    let bytes = a.upto(24);
    if a.source_attestation_digest is Some && b.source_attestation_digest is Some {
        let at = lemma_values_stand(a, b, 16, text_string((a.source_attestation_digest->0)@), text_string((b.source_attestation_digest->0)@));
        lemma_text_unique(bytes, at, (a.source_attestation_digest->0)@, (b.source_attestation_digest->0)@);
    } else if a.source_attestation_digest is Some {
        lemma_left_out_together(a, b, 16, text_string((a.source_attestation_digest->0)@));
    } else if b.source_attestation_digest is Some {
        lemma_left_out_together(b, a, 16, text_string((b.source_attestation_digest->0)@));
    }
}

proof fn lemma_source_sequence_agrees(a: ExecutorIntentPayloadV1, b: ExecutorIntentPayloadV1)
    requires
        agree_before(a, b, 17),
    ensures
        same_field(a, b, 17),
{
    let bytes = a.upto(24);
    if a.source_sequence is Some && b.source_sequence is Some {
        let at = lemma_values_stand(a, b, 17, number((a.source_sequence->0) as int), number((b.source_sequence->0) as int));
        lemma_number_unique(bytes, at, (a.source_sequence->0) as int, (b.source_sequence->0) as int);
    } else if a.source_sequence is Some {
        lemma_left_out_together(a, b, 17, number((a.source_sequence->0) as int));
    } else if b.source_sequence is Some {
        lemma_left_out_together(b, a, 17, number((b.source_sequence->0) as int));
    }
}

proof fn lemma_migration_id_agrees(a: ExecutorIntentPayloadV1, b: ExecutorIntentPayloadV1)
    requires
        agree_before(a, b, 18),
    ensures
        same_field(a, b, 18),
{
    let bytes = a.upto(24);
    if a.migration_id is Some && b.migration_id is Some {
        let at = lemma_values_stand(a, b, 18, text_string((a.migration_id->0)@), text_string((b.migration_id->0)@));
        lemma_text_unique(bytes, at, (a.migration_id->0)@, (b.migration_id->0)@);
    } else if a.migration_id is Some {
        lemma_left_out_together(a, b, 18, text_string((a.migration_id->0)@));
    } else if b.migration_id is Some {
        lemma_left_out_together(b, a, 18, text_string((b.migration_id->0)@));
    }
}

proof fn lemma_previous_release_bundle_digest_agrees(
    a: ExecutorIntentPayloadV1,
    b: ExecutorIntentPayloadV1,
)
    requires
        agree_before(a, b, 19),
    ensures
        same_field(a, b, 19),
{
    let bytes = a.upto(24);
    if a.previous_release_bundle_digest is Some && b.previous_release_bundle_digest is Some {
        let at = lemma_values_stand(a, b, 19, text_string((a.previous_release_bundle_digest->0)@), text_string((b.previous_release_bundle_digest->0)@));
        lemma_text_unique(bytes, at, (a.previous_release_bundle_digest->0)@, (b.previous_release_bundle_digest->0)@);
    } else if a.previous_release_bundle_digest is Some {
        lemma_left_out_together(a, b, 19, text_string((a.previous_release_bundle_digest->0)@));
    } else if b.previous_release_bundle_digest is Some {
        lemma_left_out_together(b, a, 19, text_string((b.previous_release_bundle_digest->0)@));
    }
}

proof fn lemma_consequences_agrees(a: ExecutorIntentPayloadV1, b: ExecutorIntentPayloadV1)
    requires
        agree_before(a, b, 20),
        a.consequences@.len() < 0x1_0000_0000_0000_0000,
        b.consequences@.len() < 0x1_0000_0000_0000_0000,
    ensures
        same_field(a, b, 20),
{
    let bytes = a.upto(24);
    let at = lemma_values_stand(a, b, 20, consequences_item(a.consequences@), consequences_item(b.consequences@));
    lemma_consequences_unique(bytes, at, a.consequences@, b.consequences@);
}

proof fn lemma_minimum_role_agrees(a: ExecutorIntentPayloadV1, b: ExecutorIntentPayloadV1)
    requires
        agree_before(a, b, 21),
    ensures
        same_field(a, b, 21),
{
    let bytes = a.upto(24);
    let at = lemma_values_stand(a, b, 21, number(a.minimum_role.index()), number(b.minimum_role.index()));
    lemma_number_unique(bytes, at, a.minimum_role.index(), b.minimum_role.index());
}

proof fn lemma_release_bundle_digest_agrees(a: ExecutorIntentPayloadV1, b: ExecutorIntentPayloadV1)
    requires
        agree_before(a, b, 22),
    ensures
        same_field(a, b, 22),
{
    let bytes = a.upto(24);
    if a.release_bundle_digest is Some && b.release_bundle_digest is Some {
        let at = lemma_values_stand(a, b, 22, text_string((a.release_bundle_digest->0)@), text_string((b.release_bundle_digest->0)@));
        lemma_text_unique(bytes, at, (a.release_bundle_digest->0)@, (b.release_bundle_digest->0)@);
    } else if a.release_bundle_digest is Some {
        lemma_left_out_together(a, b, 22, text_string((a.release_bundle_digest->0)@));
    } else if b.release_bundle_digest is Some {
        lemma_left_out_together(b, a, 22, text_string((b.release_bundle_digest->0)@));
    }
}

proof fn lemma_build_attestation_digest_agrees(
    a: ExecutorIntentPayloadV1,
    b: ExecutorIntentPayloadV1,
)
    requires
        agree_before(a, b, 23),
    ensures
        same_field(a, b, 23),
{
    let bytes = a.upto(24);
    if a.build_attestation_digest is Some && b.build_attestation_digest is Some {
        let at = lemma_values_stand(a, b, 23, text_string((a.build_attestation_digest->0)@), text_string((b.build_attestation_digest->0)@));
        lemma_text_unique(bytes, at, (a.build_attestation_digest->0)@, (b.build_attestation_digest->0)@);
    } else if a.build_attestation_digest is Some {
        lemma_left_out_together(a, b, 23, text_string((a.build_attestation_digest->0)@));
    } else if b.build_attestation_digest is Some {
        lemma_left_out_together(b, a, 23, text_string((b.build_attestation_digest->0)@));
    }
}

/// Two payloads that agree before a key have the same field under it.
proof fn lemma_field_unique(a: ExecutorIntentPayloadV1, b: ExecutorIntentPayloadV1, key: int)
    requires
        agree_before(a, b, key),
        0 <= key < 24,
        a.consequences@.len() < 0x1_0000_0000_0000_0000,
        b.consequences@.len() < 0x1_0000_0000_0000_0000,
    ensures
        same_field(a, b, key),
{
    if key == 0 {
        lemma_schema_version_agrees(a, b);
    }
    if key == 1 {
        lemma_issuer_agrees(a, b);
    }
    if key == 2 {
        lemma_authorizer_audience_agrees(a, b);
    }
    if key == 3 {
        lemma_key_id_agrees(a, b);
    }
    if key == 4 {
        lemma_key_epoch_agrees(a, b);
    }
    if key == 5 {
        lemma_issued_at_ms_agrees(a, b);
    }
    if key == 6 {
        lemma_not_before_ms_agrees(a, b);
    }
    if key == 7 {
        lemma_expires_at_ms_agrees(a, b);
    }
    if key == 8 {
        lemma_intent_id_agrees(a, b);
    }
    if key == 9 {
        lemma_request_id_agrees(a, b);
    }
    if key == 10 {
        lemma_project_id_agrees(a, b);
    }
    if key == 11 {
        lemma_operation_kind_agrees(a, b);
    }
    if key == 12 {
        lemma_target_commit_agrees(a, b);
    }
    if key == 13 {
        lemma_proposed_release_class_agrees(a, b);
    }
    if key == 14 {
        lemma_effective_release_class_agrees(a, b);
    }
    if key == 15 {
        lemma_installed_policy_digest_agrees(a, b);
    }
    if key == 16 {
        lemma_source_attestation_digest_agrees(a, b);
    }
    if key == 17 {
        lemma_source_sequence_agrees(a, b);
    }
    if key == 18 {
        lemma_migration_id_agrees(a, b);
    }
    if key == 19 {
        lemma_previous_release_bundle_digest_agrees(a, b);
    }
    if key == 20 {
        lemma_consequences_agrees(a, b);
    }
    if key == 21 {
        lemma_minimum_role_agrees(a, b);
    }
    if key == 22 {
        lemma_release_bundle_digest_agrees(a, b);
    }
    if key == 23 {
        lemma_build_attestation_digest_agrees(a, b);
    }
}

/// Two payloads that are written in the same bytes agree before every key.
proof fn lemma_agree(a: ExecutorIntentPayloadV1, b: ExecutorIntentPayloadV1, key: int)
    requires
        a.upto(24) == b.upto(24),
        a.upto(24).len() < 0x1_0000_0000_0000_0000,
        a.consequences@.len() < 0x1_0000_0000_0000_0000,
        b.consequences@.len() < 0x1_0000_0000_0000_0000,
        0 <= key <= 24,
    ensures
        agree_before(a, b, key),
        forall|k: int| 0 <= k < key ==> #[trigger] same_field(a, b, k),
    decreases key,
{
    if key == 0 {
        let bytes = a.upto(24);
        lemma_upto_grows(a, 0, 24);
        lemma_upto_grows(b, 0, 24);
        assert(bytes.subrange(0, a.upto(0).len() as int) =~= bytes.take(a.upto(0).len() as int));
        assert(bytes.subrange(0, b.upto(0).len() as int) =~= bytes.take(b.upto(0).len() as int));
        assert(stands(bytes, 0, head(5, a.count())));
        assert(stands(bytes, 0, head(5, b.count())));
        lemma_head_unique(bytes, 0, 5, a.count(), 5, b.count());
    } else {
        lemma_agree(a, b, key - 1);
        lemma_field_unique(a, b, key - 1);
        assert(a.upto(key) == a.upto(key - 1) + a.field(key - 1));
        assert(b.upto(key) == b.upto(key - 1) + b.field(key - 1));
    }
}

/// Bytes that can be held are those of one payload alone.
pub proof fn law_payloads_are_read_back(a: ExecutorIntentPayloadV1, b: ExecutorIntentPayloadV1)
    requires
        a.cbor() == b.cbor(),
        a.cbor().len() <= usize::MAX,
    ensures
        a.same_as(b),
{
    super::payload::lemma_consequences_fit(a, a.cbor().len() as int);
    super::payload::lemma_consequences_fit(b, b.cbor().len() as int);
    reveal(ExecutorIntentPayloadV1::cbor);
    lemma_agree(a, b, 24);
    assert(same_field(a, b, 0));
    assert(same_field(a, b, 1));
    assert(same_field(a, b, 2));
    assert(same_field(a, b, 3));
    assert(same_field(a, b, 4));
    assert(same_field(a, b, 5));
    assert(same_field(a, b, 6));
    assert(same_field(a, b, 7));
    assert(same_field(a, b, 8));
    assert(same_field(a, b, 9));
    assert(same_field(a, b, 10));
    assert(same_field(a, b, 11));
    assert(same_field(a, b, 12));
    assert(same_field(a, b, 13));
    assert(same_field(a, b, 14));
    assert(same_field(a, b, 15));
    assert(same_field(a, b, 16));
    assert(same_field(a, b, 17));
    assert(same_field(a, b, 18));
    assert(same_field(a, b, 19));
    assert(same_field(a, b, 20));
    assert(same_field(a, b, 21));
    assert(same_field(a, b, 22));
    assert(same_field(a, b, 23));
}

} // verus!
