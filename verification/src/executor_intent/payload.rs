//! The payload of an intent, as bytes.

use vstd::prelude::*;
use super::cbor::{
    byte_string,
    head,
    lemma_number_is_written,
    lemma_stands_split,
    number,
    read_array,
    read_bytes,
    read_i64,
    read_map,
    read_str,
    read_u16,
    read_u64,
    stands,
    text_string,
    write_array,
    write_bytes,
    write_i64,
    write_map,
    write_str,
    write_u64,
};
use crate::domain::operation::{OperationKind, ReleaseClass};
use crate::text::{same_bytes, text_option};
use crate::unique_id::{big_endian, Uuid};

verus! {

pub const MAX_EXECUTOR_INTENT_PAYLOAD_BYTES: usize = 8 * 1024;

/// What an operation brings about.
#[derive(Clone, Copy, Debug, PartialEq, Eq, PartialOrd, Ord, Structural)]
pub enum ExecutorIntentConsequenceV1 {
    CodeDeployment,
    VerifiedBackupRequired,
    ApplicationWriteDrain,
    SchemaMigration,
    AutomaticCodeRollbackAvailable,
    AutomaticRollbackProhibited,
    DataRestoreIsManual,
    FirstInstallRollbackUnavailable,
    CodeRollback,
    BackupOnly,
}

/// Who has to agree to an operation, at least.
#[derive(Clone, Copy, Debug, PartialEq, Eq, Structural)]
pub enum ExecutorIntentRequiredRoleV1 {
    Operator,
    Admin,
}

impl ExecutorIntentRequiredRoleV1 {
    pub fn as_str(self) -> (r: &'static str)
        ensures
            r@ == match self {
                ExecutorIntentRequiredRoleV1::Operator => "operator"@,
                ExecutorIntentRequiredRoleV1::Admin => "admin"@,
            },
    {
        match self {
            ExecutorIntentRequiredRoleV1::Operator => "operator",
            ExecutorIntentRequiredRoleV1::Admin => "admin",
        }
    }
}

impl ExecutorIntentConsequenceV1 {
    /// The number of the value in a payload.
    pub open spec fn index(self) -> int {
        match self {
            ExecutorIntentConsequenceV1::CodeDeployment => 0,
            ExecutorIntentConsequenceV1::VerifiedBackupRequired => 1,
            ExecutorIntentConsequenceV1::ApplicationWriteDrain => 2,
            ExecutorIntentConsequenceV1::SchemaMigration => 3,
            ExecutorIntentConsequenceV1::AutomaticCodeRollbackAvailable => 4,
            ExecutorIntentConsequenceV1::AutomaticRollbackProhibited => 5,
            ExecutorIntentConsequenceV1::DataRestoreIsManual => 6,
            ExecutorIntentConsequenceV1::FirstInstallRollbackUnavailable => 7,
            ExecutorIntentConsequenceV1::CodeRollback => 8,
            ExecutorIntentConsequenceV1::BackupOnly => 9,
        }
    }

    fn to_index(self) -> (r: i64)
        ensures
            r == self.index(),
    {
        match self {
            ExecutorIntentConsequenceV1::CodeDeployment => 0,
            ExecutorIntentConsequenceV1::VerifiedBackupRequired => 1,
            ExecutorIntentConsequenceV1::ApplicationWriteDrain => 2,
            ExecutorIntentConsequenceV1::SchemaMigration => 3,
            ExecutorIntentConsequenceV1::AutomaticCodeRollbackAvailable => 4,
            ExecutorIntentConsequenceV1::AutomaticRollbackProhibited => 5,
            ExecutorIntentConsequenceV1::DataRestoreIsManual => 6,
            ExecutorIntentConsequenceV1::FirstInstallRollbackUnavailable => 7,
            ExecutorIntentConsequenceV1::CodeRollback => 8,
            ExecutorIntentConsequenceV1::BackupOnly => 9,
        }
    }

    fn from_index(index: i64) -> (r: Option<ExecutorIntentConsequenceV1>)
        ensures
            match r {
                Some(value) => value.index() == index,
                None => index < 0 || index >= 10,
            },
            forall|value: ExecutorIntentConsequenceV1| #[trigger] value.index() == index ==> r == Some(value),
    {
        match index {
            0 => Some(ExecutorIntentConsequenceV1::CodeDeployment),
            1 => Some(ExecutorIntentConsequenceV1::VerifiedBackupRequired),
            2 => Some(ExecutorIntentConsequenceV1::ApplicationWriteDrain),
            3 => Some(ExecutorIntentConsequenceV1::SchemaMigration),
            4 => Some(ExecutorIntentConsequenceV1::AutomaticCodeRollbackAvailable),
            5 => Some(ExecutorIntentConsequenceV1::AutomaticRollbackProhibited),
            6 => Some(ExecutorIntentConsequenceV1::DataRestoreIsManual),
            7 => Some(ExecutorIntentConsequenceV1::FirstInstallRollbackUnavailable),
            8 => Some(ExecutorIntentConsequenceV1::CodeRollback),
            9 => Some(ExecutorIntentConsequenceV1::BackupOnly),
            _ => None,
        }
    }
}

impl ExecutorIntentRequiredRoleV1 {
    /// The number of the value in a payload.
    pub open spec fn index(self) -> int {
        match self {
            ExecutorIntentRequiredRoleV1::Operator => 0,
            ExecutorIntentRequiredRoleV1::Admin => 1,
        }
    }

    fn to_index(self) -> (r: i64)
        ensures
            r == self.index(),
    {
        match self {
            ExecutorIntentRequiredRoleV1::Operator => 0,
            ExecutorIntentRequiredRoleV1::Admin => 1,
        }
    }

    fn from_index(index: i64) -> (r: Option<ExecutorIntentRequiredRoleV1>)
        ensures
            match r {
                Some(value) => value.index() == index,
                None => index < 0 || index >= 2,
            },
            forall|value: ExecutorIntentRequiredRoleV1| #[trigger] value.index() == index ==> r == Some(value),
    {
        match index {
            0 => Some(ExecutorIntentRequiredRoleV1::Operator),
            1 => Some(ExecutorIntentRequiredRoleV1::Admin),
            _ => None,
        }
    }
}

impl OperationKind {
    /// The number of the value in a payload.
    pub open spec fn index(self) -> int {
        match self {
            OperationKind::Deploy => 0,
            OperationKind::CodeRollback => 1,
            OperationKind::BackupOnly => 2,
        }
    }

    fn to_index(self) -> (r: i64)
        ensures
            r == self.index(),
    {
        match self {
            OperationKind::Deploy => 0,
            OperationKind::CodeRollback => 1,
            OperationKind::BackupOnly => 2,
        }
    }

    fn from_index(index: i64) -> (r: Option<OperationKind>)
        ensures
            match r {
                Some(value) => value.index() == index,
                None => index < 0 || index >= 3,
            },
            forall|value: OperationKind| #[trigger] value.index() == index ==> r == Some(value),
    {
        match index {
            0 => Some(OperationKind::Deploy),
            1 => Some(OperationKind::CodeRollback),
            2 => Some(OperationKind::BackupOnly),
            _ => None,
        }
    }
}

impl ReleaseClass {
    /// The number of the value in a payload.
    pub open spec fn index(self) -> int {
        match self {
            ReleaseClass::CodeOnlyCompatible => 0,
            ReleaseClass::StatefulCompatible => 1,
            ReleaseClass::StatefulBreaking => 2,
            ReleaseClass::Rollback => 3,
        }
    }

    fn to_index(self) -> (r: i64)
        ensures
            r == self.index(),
    {
        match self {
            ReleaseClass::CodeOnlyCompatible => 0,
            ReleaseClass::StatefulCompatible => 1,
            ReleaseClass::StatefulBreaking => 2,
            ReleaseClass::Rollback => 3,
        }
    }

    fn from_index(index: i64) -> (r: Option<ReleaseClass>)
        ensures
            match r {
                Some(value) => value.index() == index,
                None => index < 0 || index >= 4,
            },
            forall|value: ReleaseClass| #[trigger] value.index() == index ==> r == Some(value),
    {
        match index {
            0 => Some(ReleaseClass::CodeOnlyCompatible),
            1 => Some(ReleaseClass::StatefulCompatible),
            2 => Some(ReleaseClass::StatefulBreaking),
            3 => Some(ReleaseClass::Rollback),
            _ => None,
        }
    }
}

/// The payload of an intent.
#[derive(Debug)]
pub struct ExecutorIntentPayloadV1 {
    pub schema_version: u16,
    pub issuer: String,
    pub authorizer_audience: String,
    pub key_id: String,
    pub key_epoch: u64,
    pub issued_at_ms: i64,
    pub not_before_ms: i64,
    pub expires_at_ms: i64,
    pub intent_id: Uuid,
    pub request_id: Uuid,
    pub project_id: String,
    pub operation_kind: OperationKind,
    pub target_commit: Option<String>,
    pub proposed_release_class: Option<ReleaseClass>,
    pub effective_release_class: Option<ReleaseClass>,
    pub installed_policy_digest: String,
    pub source_attestation_digest: Option<String>,
    pub source_sequence: Option<u64>,
    pub migration_id: Option<String>,
    pub previous_release_bundle_digest: Option<String>,
    pub consequences: Vec<ExecutorIntentConsequenceV1>,
    pub minimum_role: ExecutorIntentRequiredRoleV1,
    pub release_bundle_digest: Option<String>,
    pub build_attestation_digest: Option<String>,
}

/// An entry of a map: a key and a value.
pub open spec fn keyed(key: int, item: Seq<u8>) -> Seq<u8> {
    number(key) + item
}

/// Consequences, one after the other.
pub open spec fn consequence_items(values: Seq<ExecutorIntentConsequenceV1>) -> Seq<u8>
    decreases values.len(),
{
    if values.len() == 0 {
        Seq::empty()
    } else {
        number(values[0].index()) + consequence_items(values.drop_first())
    }
}

/// Consequences as an array.
pub open spec fn consequences_item(values: Seq<ExecutorIntentConsequenceV1>) -> Seq<u8> {
    head(4, values.len() as int) + consequence_items(values)
}

/// One for something that is there.
pub open spec fn present<T>(value: Option<T>) -> int {
    if value is Some {
        1
    } else {
        0
    }
}

impl ExecutorIntentPayloadV1 {
    /// The entry of a field, or nothing where the field is left out.
    pub open spec fn field(self, key: int) -> Seq<u8> {
        if key == 0 {
            keyed(0, number(self.schema_version as int))
        } else if key == 1 {
            keyed(1, text_string(self.issuer@))
        } else if key == 2 {
            keyed(2, text_string(self.authorizer_audience@))
        } else if key == 3 {
            keyed(3, text_string(self.key_id@))
        } else if key == 4 {
            keyed(4, number(self.key_epoch as int))
        } else if key == 5 {
            keyed(5, number(self.issued_at_ms as int))
        } else if key == 6 {
            keyed(6, number(self.not_before_ms as int))
        } else if key == 7 {
            keyed(7, number(self.expires_at_ms as int))
        } else if key == 8 {
            keyed(8, byte_string(big_endian(self.intent_id@)))
        } else if key == 9 {
            keyed(9, byte_string(big_endian(self.request_id@)))
        } else if key == 10 {
            keyed(10, text_string(self.project_id@))
        } else if key == 11 {
            keyed(11, number(self.operation_kind.index()))
        } else if key == 12 {
            match self.target_commit {
                Some(value) => keyed(12, text_string(value@)),
                None => Seq::empty(),
            }
        } else if key == 13 {
            match self.proposed_release_class {
                Some(value) => keyed(13, number(value.index())),
                None => Seq::empty(),
            }
        } else if key == 14 {
            match self.effective_release_class {
                Some(value) => keyed(14, number(value.index())),
                None => Seq::empty(),
            }
        } else if key == 15 {
            keyed(15, text_string(self.installed_policy_digest@))
        } else if key == 16 {
            match self.source_attestation_digest {
                Some(value) => keyed(16, text_string(value@)),
                None => Seq::empty(),
            }
        } else if key == 17 {
            match self.source_sequence {
                Some(value) => keyed(17, number(value as int)),
                None => Seq::empty(),
            }
        } else if key == 18 {
            match self.migration_id {
                Some(value) => keyed(18, text_string(value@)),
                None => Seq::empty(),
            }
        } else if key == 19 {
            match self.previous_release_bundle_digest {
                Some(value) => keyed(19, text_string(value@)),
                None => Seq::empty(),
            }
        } else if key == 20 {
            keyed(20, consequences_item(self.consequences@))
        } else if key == 21 {
            keyed(21, number(self.minimum_role.index()))
        } else if key == 22 {
            match self.release_bundle_digest {
                Some(value) => keyed(22, text_string(value@)),
                None => Seq::empty(),
            }
        } else if key == 23 {
            match self.build_attestation_digest {
                Some(value) => keyed(23, text_string(value@)),
                None => Seq::empty(),
            }
        } else {
            Seq::empty()
        }
    }

    /// How many fields there are.
    pub open spec fn count(self) -> int {
        15 + present(self.target_commit) + present(self.proposed_release_class) + present(self.effective_release_class) + present(self.source_attestation_digest) + present(self.source_sequence) + present(self.migration_id) + present(self.previous_release_bundle_digest) + present(self.release_bundle_digest) + present(self.build_attestation_digest)
    }

    /// The head of the map and its entries before some key.
    pub open spec fn upto(self, key: int) -> Seq<u8>
        decreases key,
    {
        if key <= 0 {
            head(5, self.count())
        } else {
            self.upto(key - 1) + self.field(key - 1)
        }
    }

    /// The payload as bytes: a map from the numbers of the fields to their values, in their order.
    #[verifier::opaque]
    pub open spec fn cbor(self) -> Seq<u8> {
        self.upto(24)
    }

    /// The same payload.
    pub open spec fn same_as(self, other: ExecutorIntentPayloadV1) -> bool {
        &&& self.schema_version == other.schema_version
        &&& self.issuer@ == other.issuer@
        &&& self.authorizer_audience@ == other.authorizer_audience@
        &&& self.key_id@ == other.key_id@
        &&& self.key_epoch == other.key_epoch
        &&& self.issued_at_ms == other.issued_at_ms
        &&& self.not_before_ms == other.not_before_ms
        &&& self.expires_at_ms == other.expires_at_ms
        &&& self.intent_id == other.intent_id
        &&& self.request_id == other.request_id
        &&& self.project_id@ == other.project_id@
        &&& self.operation_kind == other.operation_kind
        &&& text_option(self.target_commit) == text_option(other.target_commit)
        &&& self.proposed_release_class == other.proposed_release_class
        &&& self.effective_release_class == other.effective_release_class
        &&& self.installed_policy_digest@ == other.installed_policy_digest@
        &&& text_option(self.source_attestation_digest) == text_option(other.source_attestation_digest)
        &&& self.source_sequence == other.source_sequence
        &&& text_option(self.migration_id) == text_option(other.migration_id)
        &&& text_option(self.previous_release_bundle_digest) == text_option(other.previous_release_bundle_digest)
        &&& self.consequences@ == other.consequences@
        &&& self.minimum_role == other.minimum_role
        &&& text_option(self.release_bundle_digest) == text_option(other.release_bundle_digest)
        &&& text_option(self.build_attestation_digest) == text_option(other.build_attestation_digest)
    }
}

/// The same payloads are the same bytes.
pub proof fn lemma_same_payload(a: ExecutorIntentPayloadV1, b: ExecutorIntentPayloadV1)
    requires
        a.same_as(b),
    ensures
        a.cbor() == b.cbor(),
{
    reveal(ExecutorIntentPayloadV1::cbor);
    lemma_same_upto(a, b, 24);
}

proof fn lemma_same_field(a: ExecutorIntentPayloadV1, b: ExecutorIntentPayloadV1, key: int)
    requires
        a.same_as(b),
    ensures
        a.field(key) == b.field(key),
{
}

proof fn lemma_same_upto(a: ExecutorIntentPayloadV1, b: ExecutorIntentPayloadV1, key: int)
    requires
        a.same_as(b),
    ensures
        a.upto(key) == b.upto(key),
    decreases key,
{
    if key > 0 {
        lemma_same_upto(a, b, key - 1);
        lemma_same_field(a, b, key - 1);
    }
}

/// What comes before a key stands at the beginning of what comes before a later one.
pub proof fn lemma_upto_grows(p: ExecutorIntentPayloadV1, key: int, later: int)
    requires
        0 <= key <= later,
    ensures
        p.upto(key).len() <= p.upto(later).len(),
        p.upto(later).take(p.upto(key).len() as int) == p.upto(key),
    decreases later - key,
{
    if key == later {
        assert(p.upto(later).take(p.upto(key).len() as int) =~= p.upto(key));
    } else {
        lemma_upto_grows(p, key, later - 1);
        assert(p.upto(later).take(p.upto(key).len() as int) =~= p.upto(later - 1).take(
            p.upto(key).len() as int,
        ));
    }
}

/// The next field that is there, from some key on.
spec fn next_field(p: ExecutorIntentPayloadV1, key: int) -> int
    decreases 24 - key,
{
    if key >= 24 {
        24
    } else if p.field(key).len() > 0 {
        key
    } else {
        next_field(p, key + 1)
    }
}

proof fn lemma_next_field(p: ExecutorIntentPayloadV1, key: int)
    requires
        0 <= key <= 24,
    ensures
        key <= next_field(p, key) <= 24,
        p.upto(next_field(p, key)) == p.upto(key),
        next_field(p, key) < 24 ==> p.field(next_field(p, key)).len() > 0,
    decreases 24 - key,
{
    if key < 24 && p.field(key).len() == 0 {
        lemma_next_field(p, key + 1);
        assert(p.upto(key + 1) =~= p.upto(key));
    }
}

/// A field that is there begins with its key.
proof fn lemma_field_begins(p: ExecutorIntentPayloadV1, key: int)
    requires
        0 <= key < 24,
        p.field(key).len() > 0,
    ensures
        p.field(key).len() >= number(key).len(),
        p.field(key).take(number(key).len() as int) == number(key),
{
    assert forall|item: Seq<u8>| (#[trigger] keyed(key, item)).take(number(key).len() as int)
        == number(key) by {
        assert(keyed(key, item).take(number(key).len() as int) =~= number(key));
    }
}

/// Where the entry of a field stands in a payload, and what stands there where the field is left
/// out.
pub proof fn lemma_field(p: ExecutorIntentPayloadV1, key: int)
    requires
        0 <= key < 24,
    ensures
        stands(p.upto(24), p.upto(key).len() as int, p.field(key)),
        p.upto(key + 1).len() == p.upto(key).len() + p.field(key).len(),
        p.field(key).len() == 0 ==> no_key(p.upto(24), p.upto(key).len() as int, key),
{
    let all = p.upto(24);
    lemma_upto_grows(p, key + 1, 24);
    lemma_upto_grows(p, key, 24);
    let end = p.upto(key + 1).len() as int;
    assert(all.subrange(p.upto(key).len() as int, end) =~= all.take(end).subrange(
        p.upto(key).len() as int,
        end,
    ));
    assert(p.upto(key + 1).subrange(p.upto(key).len() as int, end) =~= p.field(key));
    if p.field(key).len() == 0 {
        let next = next_field(p, key);
        lemma_next_field(p, key);
        if next < 24 {
            lemma_field_begins(p, next);
            lemma_upto_grows(p, next + 1, 24);
            let from = p.upto(next).len() as int;
            assert(all.subrange(from, from + p.field(next).len()) =~= p.field(next)) by {
                assert(all.take(p.upto(next + 1).len() as int).subrange(
                    from,
                    from + p.field(next).len(),
                ) =~= all.subrange(from, from + p.field(next).len()));
                assert(p.upto(next + 1).subrange(from, from + p.field(next).len()) =~= p.field(next));
            }
            assert(all.subrange(from, from + number(next).len()) =~= p.field(next).take(
                number(next).len() as int,
            ));
            assert(stands(all, from, number((next as i64) as int)));
        }
    }
}

/// No entry of a key stands at some place: the bytes end there, or there is another key.
pub open spec fn no_key(bytes: Seq<u8>, at: int, key: int) -> bool {
    at >= bytes.len() || exists|other: i64|
        other != key && #[trigger] stands(bytes, at, number(other as int))
}

fn write_number_field(out: &mut Vec<u8>, key: i64, value: u64)
    ensures
        final(out)@ == old(out)@ + keyed(key as int, number(value as int)),
{
    let ghost before = out@;
    write_i64(out, key);
    write_u64(out, value);
    assert(out@ =~= before + keyed(key as int, number(value as int)));
}

fn write_signed_field(out: &mut Vec<u8>, key: i64, value: i64)
    ensures
        final(out)@ == old(out)@ + keyed(key as int, number(value as int)),
{
    let ghost before = out@;
    write_i64(out, key);
    write_i64(out, value);
    assert(out@ =~= before + keyed(key as int, number(value as int)));
}

fn write_text_field(out: &mut Vec<u8>, key: i64, value: &str)
    ensures
        final(out)@ == old(out)@ + keyed(key as int, text_string(value@)),
{
    let ghost before = out@;
    write_i64(out, key);
    write_str(out, value);
    assert(out@ =~= before + keyed(key as int, text_string(value@)));
}

fn write_optional_text_field(out: &mut Vec<u8>, key: i64, value: &Option<String>)
    ensures
        final(out)@ == old(out)@ + match *value {
            Some(value) => keyed(key as int, text_string(value@)),
            None => Seq::empty(),
        },
{
    match value {
        Some(value) => write_text_field(out, key, value.as_str()),
        None => {
            assert(out@ + Seq::empty() =~= out@);
        },
    }
}

fn write_id_field(out: &mut Vec<u8>, key: i64, value: Uuid)
    ensures
        final(out)@ == old(out)@ + keyed(key as int, byte_string(big_endian(value@))),
{
    let ghost before = out@;
    write_i64(out, key);
    let bytes = value.to_bytes();
    write_bytes(out, bytes.as_slice());
    assert(out@ =~= before + keyed(key as int, byte_string(big_endian(value@))));
}

fn write_consequences_field(out: &mut Vec<u8>, key: i64, values: &Vec<ExecutorIntentConsequenceV1>)
    ensures
        final(out)@ == old(out)@ + keyed(key as int, consequences_item(values@)),
{
    let ghost before = out@;
    write_i64(out, key);
    write_array(out, values.len() as u64);
    let ghost start = out@;
    let mut i: usize = 0;
    assert(values@.skip(0) =~= values@);
    while i < values.len()
        invariant
            i <= values.len(),
            out@ + consequence_items(values@.skip(i as int)) == start + consequence_items(values@),
        decreases values.len() - i,
    {
        let ghost so_far = out@;
        proof {
            assert(values@.skip(i as int)[0] == values@[i as int]);
            assert(values@.skip(i as int).drop_first() =~= values@.skip(i + 1));
        }
        write_i64(out, values[i].to_index());
        proof {
            assert(out@ + consequence_items(values@.skip(i + 1)) =~= so_far + consequence_items(
                values@.skip(i as int),
            ));
        }
        i += 1;
    }
    assert(out@ + consequence_items(values@.skip(i as int)) =~= out@);
    assert(out@ =~= before + keyed(key as int, consequences_item(values@)));
}

impl ExecutorIntentPayloadV1 {
    pub(crate) fn to_cbor(&self) -> (out: Vec<u8>)
        ensures
            out@ == self.cbor(),
    {
        proof {
            reveal(ExecutorIntentPayloadV1::cbor);
        }
        let mut count: u64 = 15;
        if self.target_commit.is_some() {
            count = count + 1;
        }
        if self.proposed_release_class.is_some() {
            count = count + 1;
        }
        if self.effective_release_class.is_some() {
            count = count + 1;
        }
        if self.source_attestation_digest.is_some() {
            count = count + 1;
        }
        if self.source_sequence.is_some() {
            count = count + 1;
        }
        if self.migration_id.is_some() {
            count = count + 1;
        }
        if self.previous_release_bundle_digest.is_some() {
            count = count + 1;
        }
        if self.release_bundle_digest.is_some() {
            count = count + 1;
        }
        if self.build_attestation_digest.is_some() {
            count = count + 1;
        }
        let mut out: Vec<u8> = Vec::new();
        write_map(&mut out, count);
        assert(out@ =~= self.upto(0));
        let mut key: i64 = 0;
        while key < 24
            invariant
                0 <= key <= 24,
                out@ == self.upto(key as int),
            decreases 24 - key,
        {
            self.write_entry(&mut out, key);
            key = key + 1;
        }
        out
    }

    /// Adds the entry of a field.
    fn write_entry(&self, out: &mut Vec<u8>, key: i64)
        ensures
            final(out)@ == old(out)@ + self.field(key as int),
    {
        if key == 0 {
            write_number_field(out, key, self.schema_version as u64);
        } else if key == 1 {
            write_text_field(out, key, self.issuer.as_str());
        } else if key == 2 {
            write_text_field(out, key, self.authorizer_audience.as_str());
        } else if key == 3 {
            write_text_field(out, key, self.key_id.as_str());
        } else if key == 4 {
            write_number_field(out, key, self.key_epoch);
        } else if key == 5 {
            write_signed_field(out, key, self.issued_at_ms);
        } else if key == 6 {
            write_signed_field(out, key, self.not_before_ms);
        } else if key == 7 {
            write_signed_field(out, key, self.expires_at_ms);
        } else if key == 8 {
            write_id_field(out, key, self.intent_id);
        } else if key == 9 {
            write_id_field(out, key, self.request_id);
        } else if key == 10 {
            write_text_field(out, key, self.project_id.as_str());
        } else if key == 11 {
            write_signed_field(out, key, self.operation_kind.to_index());
        } else if key == 12 {
            write_optional_text_field(out, key, &self.target_commit);
        } else if key == 13 {
            match self.proposed_release_class {
                Some(value) => write_signed_field(out, key, value.to_index()),
                None => {
                    assert(out@ + Seq::empty() =~= out@);
                },
            }
        } else if key == 14 {
            match self.effective_release_class {
                Some(value) => write_signed_field(out, key, value.to_index()),
                None => {
                    assert(out@ + Seq::empty() =~= out@);
                },
            }
        } else if key == 15 {
            write_text_field(out, key, self.installed_policy_digest.as_str());
        } else if key == 16 {
            write_optional_text_field(out, key, &self.source_attestation_digest);
        } else if key == 17 {
            match self.source_sequence {
                Some(value) => write_number_field(out, key, value),
                None => {
                    assert(out@ + Seq::empty() =~= out@);
                },
            }
        } else if key == 18 {
            write_optional_text_field(out, key, &self.migration_id);
        } else if key == 19 {
            write_optional_text_field(out, key, &self.previous_release_bundle_digest);
        } else if key == 20 {
            write_consequences_field(out, key, &self.consequences);
        } else if key == 21 {
            write_signed_field(out, key, self.minimum_role.to_index());
        } else if key == 22 {
            write_optional_text_field(out, key, &self.release_bundle_digest);
        } else if key == 23 {
            write_optional_text_field(out, key, &self.build_attestation_digest);
        } else {
            assert(out@ + Seq::empty() =~= out@);
        }
    }
}

/// The key that stands at some place is this one.
fn read_key(bytes: &[u8], at: usize, key: i64) -> (r: Option<usize>)
    ensures
        stands(bytes@, at as int, number(key as int)) ==> r is Some && r->0 == at + number(
            key as int,
        ).len(),
        no_key(bytes@, at as int, key as int) ==> r is None,
{
    match read_i64(bytes, at) {
        None => None,
        Some((found, next)) => {
            proof {
                if at < bytes@.len() && no_key(bytes@, at as int, key as int) {
                    let other = choose|other: i64|
                        other != key && #[trigger] stands(bytes@, at as int, number(other as int));
                    assert(found == other);
                }
            }
            if found == key {
                Some(next)
            } else {
                None
            }
        },
    }
}

fn read_short_field(bytes: &[u8], at: usize, key: i64, Ghost(value): Ghost<u16>) -> (r: Option<
    (u16, usize),
>)
    ensures
        stands(bytes@, at as int, keyed(key as int, number(value as int))) ==> r is Some && (r->0).0 == value && (r->0).1
            == at + keyed(key as int, number(value as int)).len(),
{
    proof {
        if stands(bytes@, at as int, keyed(key as int, number(value as int))) {
            lemma_stands_split(bytes@, at as int, number(key as int), number(value as int));
        }
    }
    match read_key(bytes, at, key) {
        None => None,
        Some(at) => read_u16(bytes, at),
    }
}

fn read_number_field(bytes: &[u8], at: usize, key: i64, Ghost(value): Ghost<u64>) -> (r: Option<
    (u64, usize),
>)
    ensures
        stands(bytes@, at as int, keyed(key as int, number(value as int))) ==> r is Some && (r->0).0 == value && (r->0).1
            == at + keyed(key as int, number(value as int)).len(),
{
    proof {
        if stands(bytes@, at as int, keyed(key as int, number(value as int))) {
            lemma_stands_split(bytes@, at as int, number(key as int), number(value as int));
        }
    }
    match read_key(bytes, at, key) {
        None => None,
        Some(at) => read_u64(bytes, at),
    }
}

fn read_signed_field(bytes: &[u8], at: usize, key: i64, Ghost(value): Ghost<i64>) -> (r: Option<
    (i64, usize),
>)
    ensures
        stands(bytes@, at as int, keyed(key as int, number(value as int))) ==> r is Some && (r->0).0 == value && (r->0).1
            == at + keyed(key as int, number(value as int)).len(),
{
    proof {
        if stands(bytes@, at as int, keyed(key as int, number(value as int))) {
            lemma_stands_split(bytes@, at as int, number(key as int), number(value as int));
        }
    }
    match read_key(bytes, at, key) {
        None => None,
        Some(at) => read_i64(bytes, at),
    }
}

fn read_text_field(bytes: &[u8], at: usize, key: i64, Ghost(value): Ghost<Seq<char>>) -> (r: Option<
    (String, usize),
>)
    ensures
        stands(bytes@, at as int, keyed(key as int, text_string(value))) ==> r is Some && (r->0).0@ == value && (r->0).1
            == at + keyed(key as int, text_string(value)).len(),
{
    proof {
        if stands(bytes@, at as int, keyed(key as int, text_string(value))) {
            lemma_stands_split(bytes@, at as int, number(key as int), text_string(value));
        }
    }
    match read_key(bytes, at, key) {
        None => None,
        Some(at) => read_str(bytes, at),
    }
}

fn read_bytes_field(bytes: &[u8], at: usize, key: i64, Ghost(value): Ghost<Seq<u8>>) -> (r: Option<
    (Vec<u8>, usize),
>)
    ensures
        stands(bytes@, at as int, keyed(key as int, byte_string(value))) ==> r is Some && (r->0).0@ == value && (r->0).1
            == at + keyed(key as int, byte_string(value)).len(),
{
    proof {
        if stands(bytes@, at as int, keyed(key as int, byte_string(value))) {
            lemma_stands_split(bytes@, at as int, number(key as int), byte_string(value));
        }
    }
    match read_key(bytes, at, key) {
        None => None,
        Some(at) => read_bytes(bytes, at),
    }
}

fn read_id_field(bytes: &[u8], at: usize, key: i64, Ghost(value): Ghost<Uuid>) -> (r: Option<
    (Uuid, usize),
>)
    ensures
        stands(bytes@, at as int, keyed(key as int, byte_string(big_endian(value@)))) ==> r is Some && (
        r->0).0 == value && (r->0).1 == at + keyed(key as int, byte_string(big_endian(value@))).len(),
{
    match read_bytes_field(bytes, at, key, Ghost(big_endian(value@))) {
        None => None,
        Some((found, next)) => match Uuid::from_bytes(found.as_slice()) {
            None => None,
            Some(id) => Some((id, next)),
        },
    }
}

fn read_kind_field(
    bytes: &[u8],
    at: usize,
    key: i64,
    Ghost(value): Ghost<OperationKind>,
) -> (r: Option<
    (OperationKind, usize),
>)
    ensures
        stands(bytes@, at as int, keyed(key as int, number(value.index()))) ==> r is Some && (r->0).0
            == value && (r->0).1 == at + keyed(key as int, number(value.index())).len(),
{
    match read_signed_field(bytes, at, key, Ghost(value.index() as i64)) {
        None => None,
        Some((index, next)) => match OperationKind::from_index(index) {
            None => None,
            Some(value) => Some((value, next)),
        },
    }
}

fn read_role_field(
    bytes: &[u8],
    at: usize,
    key: i64,
    Ghost(value): Ghost<ExecutorIntentRequiredRoleV1>,
) -> (r: Option<
    (ExecutorIntentRequiredRoleV1, usize),
>)
    ensures
        stands(bytes@, at as int, keyed(key as int, number(value.index()))) ==> r is Some && (r->0).0
            == value && (r->0).1 == at + keyed(key as int, number(value.index())).len(),
{
    match read_signed_field(bytes, at, key, Ghost(value.index() as i64)) {
        None => None,
        Some((index, next)) => match ExecutorIntentRequiredRoleV1::from_index(index) {
            None => None,
            Some(value) => Some((value, next)),
        },
    }
}

fn read_class_field(
    bytes: &[u8],
    at: usize,
    key: i64,
    Ghost(value): Ghost<ReleaseClass>,
) -> (r: Option<
    (ReleaseClass, usize),
>)
    ensures
        stands(bytes@, at as int, keyed(key as int, number(value.index()))) ==> r is Some && (r->0).0
            == value && (r->0).1 == at + keyed(key as int, number(value.index())).len(),
{
    match read_signed_field(bytes, at, key, Ghost(value.index() as i64)) {
        None => None,
        Some((index, next)) => match ReleaseClass::from_index(index) {
            None => None,
            Some(value) => Some((value, next)),
        },
    }
}

fn read_optional_text_field(
    bytes: &[u8],
    at: usize,
    key: i64,
    Ghost(expected): Ghost<Option<Seq<char>>>,
) -> (r:
    Option<(Option<String>, usize)>)
    ensures
        expected is None && no_key(bytes@, at as int, key as int) ==> r == Some((None::<String>, at)),
        expected is Some && stands(bytes@, at as int, keyed(key as int, text_string((expected->0))))
            ==> r is Some && text_option((r->0).0) == Some(expected->0) && (r->0).1 == at + keyed(key as int, text_string((expected->0))).len(),
{
    proof {
        if expected is Some && stands(bytes@, at as int, keyed(key as int, text_string((expected->0)))) {
            lemma_stands_split(bytes@, at as int, number(key as int), text_string((expected->0)));
        }
    }
    if read_key(bytes, at, key).is_none() {
        return Some((None, at));
    }
    match read_text_field(bytes, at, key, Ghost(expected->0)) {
        None => None,
        Some((value, next)) => Some((Some(value), next)),
    }
}

fn read_optional_number_field(
    bytes: &[u8],
    at: usize,
    key: i64,
    Ghost(expected): Ghost<Option<u64>>,
) -> (r:
    Option<(Option<u64>, usize)>)
    ensures
        expected is None && no_key(bytes@, at as int, key as int) ==> r == Some((None::<u64>, at)),
        expected is Some && stands(bytes@, at as int, keyed(key as int, number((expected->0) as int)))
            ==> r is Some && (r->0).0 == Some(expected->0) && (r->0).1 == at + keyed(key as int, number((expected->0) as int)).len(),
{
    proof {
        if expected is Some && stands(bytes@, at as int, keyed(key as int, number((expected->0) as int))) {
            lemma_stands_split(bytes@, at as int, number(key as int), number((expected->0) as int));
        }
    }
    if read_key(bytes, at, key).is_none() {
        return Some((None, at));
    }
    match read_number_field(bytes, at, key, Ghost(expected->0)) {
        None => None,
        Some((value, next)) => Some((Some(value), next)),
    }
}

fn read_optional_class_field(
    bytes: &[u8],
    at: usize,
    key: i64,
    Ghost(expected): Ghost<Option<ReleaseClass>>,
) -> (r:
    Option<(Option<ReleaseClass>, usize)>)
    ensures
        expected is None && no_key(bytes@, at as int, key as int) ==> r == Some((None::<ReleaseClass>, at)),
        expected is Some && stands(bytes@, at as int, keyed(key as int, number((expected->0).index())))
            ==> r is Some && (r->0).0 == Some(expected->0) && (r->0).1 == at + keyed(key as int, number((expected->0).index())).len(),
{
    proof {
        if expected is Some && stands(bytes@, at as int, keyed(key as int, number((expected->0).index()))) {
            lemma_stands_split(bytes@, at as int, number(key as int), number((expected->0).index()));
        }
    }
    if read_key(bytes, at, key).is_none() {
        return Some((None, at));
    }
    match read_class_field(bytes, at, key, Ghost(expected->0)) {
        None => None,
        Some((value, next)) => Some((Some(value), next)),
    }
}

fn read_consequences_field(
    bytes: &[u8],
    at: usize,
    key: i64,
    Ghost(values): Ghost<Seq<ExecutorIntentConsequenceV1>>,
) -> (r: Option<(Vec<ExecutorIntentConsequenceV1>, usize)>)
    ensures
        values.len() <= u64::MAX && stands(
            bytes@,
            at as int,
            keyed(key as int, consequences_item(values)),
        ) ==> r is Some && (r->0).0@ == values && (r->0).1 == at + keyed(
            key as int,
            consequences_item(values),
        ).len(),
{
    let ghost known = values.len() <= u64::MAX && stands(
        bytes@,
        at as int,
        keyed(key as int, consequences_item(values)),
    );
    let ghost end = at + keyed(key as int, consequences_item(values)).len();
    proof {
        if known {
            lemma_stands_split(bytes@, at as int, number(key as int), consequences_item(values));
            lemma_stands_split(
                bytes@,
                at + number(key as int).len(),
                head(4, values.len() as int),
                consequence_items(values),
            );
            assert(stands(
                bytes@,
                at + number(key as int).len(),
                head(4, (values.len() as u64) as int),
            ));
        }
    }
    let after_key = match read_key(bytes, at, key) {
        None => return None,
        Some(next) => next,
    };
    let (length, first) = match read_array(bytes, after_key) {
        Some((Some(length), first)) => (length, first),
        _ => return None,
    };
    let mut found: Vec<ExecutorIntentConsequenceV1> = Vec::new();
    let mut i: u64 = 0;
    let mut place: usize = first;
    assert(values.skip(0) =~= values);
    assert(found@ =~= values.take(0));
    while i < length
        invariant
            i <= length,
            known == (values.len() <= u64::MAX && stands(
                bytes@,
                at as int,
                keyed(key as int, consequences_item(values)),
            )),
            end == at + keyed(key as int, consequences_item(values)).len(),
            known ==> length == values.len() && found@ == values.take(i as int) && stands(
                bytes@,
                place as int,
                consequence_items(values.skip(i as int)),
            ) && place + consequence_items(values.skip(i as int)).len() == end,
        decreases length - i,
    {
        proof {
            if known {
                let rest = values.skip(i as int);
                assert(rest[0] == values[i as int]);
                assert(rest.drop_first() =~= values.skip(i + 1));
                lemma_stands_split(
                    bytes@,
                    place as int,
                    number(rest[0].index()),
                    consequence_items(rest.drop_first()),
                );
                assert(stands(bytes@, place as int, number((rest[0].index() as i64) as int)));
            }
        }
        match read_i64(bytes, place) {
            None => return None,
            Some((index, next)) => match ExecutorIntentConsequenceV1::from_index(index) {
                None => return None,
                Some(value) => {
                    found.push(value);
                    place = next;
                },
            },
        }
        proof {
            if known {
                assert(found@ =~= values.take(i + 1));
            }
        }
        i += 1;
    }
    assert(values.take(values.len() as int) =~= values);
    Some((found, place))
}

/// A payload that some bytes are the bytes of.
pub open spec fn written_as(bytes: Seq<u8>, payload: ExecutorIntentPayloadV1) -> bool {
    payload.cbor() == bytes
}

/// Some bytes are those of a payload.
pub open spec fn is_payload(bytes: Seq<u8>) -> bool {
    exists|payload: ExecutorIntentPayloadV1| #[trigger] written_as(bytes, payload)
}

fn read_fields(
    bytes: &[u8],
    Ghost(p): Ghost<ExecutorIntentPayloadV1>,
) -> (r: Option<ExecutorIntentPayloadV1>)
    ensures
        written_as(bytes@, p) && p.consequences@.len() <= u64::MAX ==> r is Some && r->0.same_as(p),
{
    let ghost canonical = written_as(bytes@, p) && p.consequences@.len() <= u64::MAX;
    proof {
        reveal(ExecutorIntentPayloadV1::cbor);
        if canonical {
            lemma_upto_grows(p, 0, 24);
            assert(bytes@.subrange(0, p.upto(0).len() as int) =~= bytes@.take(p.upto(0).len() as int));
            assert(stands(bytes@, 0, head(5, (p.count() as u64) as int)));
        }
    }
    let at: usize = match read_map(bytes, 0) {
        Some((_, at)) => at,
        None => return None,
    };
    assert(canonical ==> at == p.upto(0).len());
    proof {
        if canonical {
            lemma_field(p, 0);
        }
    }
    let (schema_version, at) = match read_short_field(bytes, at, 0, Ghost(p.schema_version)) {
        Some(found) => found,
        None => return None,
    };
    assert(canonical ==> schema_version == p.schema_version && at == p.upto(1).len());
    proof {
        if canonical {
            lemma_field(p, 1);
        }
    }
    let (issuer, at) = match read_text_field(bytes, at, 1, Ghost(p.issuer@)) {
        Some(found) => found,
        None => return None,
    };
    assert(canonical ==> issuer@ == p.issuer@ && at == p.upto(2).len());
    proof {
        if canonical {
            lemma_field(p, 2);
        }
    }
    let (authorizer_audience, at) = match read_text_field(bytes, at, 2, Ghost(p.authorizer_audience@)) {
        Some(found) => found,
        None => return None,
    };
    assert(canonical ==> authorizer_audience@ == p.authorizer_audience@ && at == p.upto(3).len());
    proof {
        if canonical {
            lemma_field(p, 3);
        }
    }
    let (key_id, at) = match read_text_field(bytes, at, 3, Ghost(p.key_id@)) {
        Some(found) => found,
        None => return None,
    };
    assert(canonical ==> key_id@ == p.key_id@ && at == p.upto(4).len());
    proof {
        if canonical {
            lemma_field(p, 4);
        }
    }
    let (key_epoch, at) = match read_number_field(bytes, at, 4, Ghost(p.key_epoch)) {
        Some(found) => found,
        None => return None,
    };
    assert(canonical ==> key_epoch == p.key_epoch && at == p.upto(5).len());
    proof {
        if canonical {
            lemma_field(p, 5);
        }
    }
    let (issued_at_ms, at) = match read_signed_field(bytes, at, 5, Ghost(p.issued_at_ms)) {
        Some(found) => found,
        None => return None,
    };
    assert(canonical ==> issued_at_ms == p.issued_at_ms && at == p.upto(6).len());
    proof {
        if canonical {
            lemma_field(p, 6);
        }
    }
    let (not_before_ms, at) = match read_signed_field(bytes, at, 6, Ghost(p.not_before_ms)) {
        Some(found) => found,
        None => return None,
    };
    assert(canonical ==> not_before_ms == p.not_before_ms && at == p.upto(7).len());
    proof {
        if canonical {
            lemma_field(p, 7);
        }
    }
    let (expires_at_ms, at) = match read_signed_field(bytes, at, 7, Ghost(p.expires_at_ms)) {
        Some(found) => found,
        None => return None,
    };
    assert(canonical ==> expires_at_ms == p.expires_at_ms && at == p.upto(8).len());
    proof {
        if canonical {
            lemma_field(p, 8);
        }
    }
    let (intent_id, at) = match read_id_field(bytes, at, 8, Ghost(p.intent_id)) {
        Some(found) => found,
        None => return None,
    };
    assert(canonical ==> intent_id == p.intent_id && at == p.upto(9).len());
    proof {
        if canonical {
            lemma_field(p, 9);
        }
    }
    let (request_id, at) = match read_id_field(bytes, at, 9, Ghost(p.request_id)) {
        Some(found) => found,
        None => return None,
    };
    assert(canonical ==> request_id == p.request_id && at == p.upto(10).len());
    proof {
        if canonical {
            lemma_field(p, 10);
        }
    }
    let (project_id, at) = match read_text_field(bytes, at, 10, Ghost(p.project_id@)) {
        Some(found) => found,
        None => return None,
    };
    assert(canonical ==> project_id@ == p.project_id@ && at == p.upto(11).len());
    proof {
        if canonical {
            lemma_field(p, 11);
        }
    }
    let (operation_kind, at) = match read_kind_field(bytes, at, 11, Ghost(p.operation_kind)) {
        Some(found) => found,
        None => return None,
    };
    assert(canonical ==> operation_kind == p.operation_kind && at == p.upto(12).len());
    proof {
        if canonical {
            lemma_field(p, 12);
        }
    }
    let (target_commit, at) = match read_optional_text_field(bytes, at, 12, Ghost(text_option(p.target_commit))) {
        Some(found) => found,
        None => return None,
    };
    assert(canonical ==> text_option(target_commit) == text_option(p.target_commit) && at == p.upto(13).len());
    proof {
        if canonical {
            lemma_field(p, 13);
        }
    }
    let (proposed_release_class, at) = match read_optional_class_field(bytes, at, 13, Ghost(p.proposed_release_class)) {
        Some(found) => found,
        None => return None,
    };
    assert(canonical ==> proposed_release_class == p.proposed_release_class && at == p.upto(14).len());
    proof {
        if canonical {
            lemma_field(p, 14);
        }
    }
    let (effective_release_class, at) = match read_optional_class_field(bytes, at, 14, Ghost(p.effective_release_class)) {
        Some(found) => found,
        None => return None,
    };
    assert(canonical ==> effective_release_class == p.effective_release_class && at == p.upto(15).len());
    proof {
        if canonical {
            lemma_field(p, 15);
        }
    }
    let (installed_policy_digest, at) = match read_text_field(bytes, at, 15, Ghost(p.installed_policy_digest@)) {
        Some(found) => found,
        None => return None,
    };
    assert(canonical ==> installed_policy_digest@ == p.installed_policy_digest@ && at == p.upto(16).len());
    proof {
        if canonical {
            lemma_field(p, 16);
        }
    }
    let (source_attestation_digest, at) = match read_optional_text_field(bytes, at, 16, Ghost(text_option(p.source_attestation_digest))) {
        Some(found) => found,
        None => return None,
    };
    assert(canonical ==> text_option(source_attestation_digest) == text_option(p.source_attestation_digest) && at == p.upto(17).len());
    proof {
        if canonical {
            lemma_field(p, 17);
        }
    }
    let (source_sequence, at) = match read_optional_number_field(bytes, at, 17, Ghost(p.source_sequence)) {
        Some(found) => found,
        None => return None,
    };
    assert(canonical ==> source_sequence == p.source_sequence && at == p.upto(18).len());
    proof {
        if canonical {
            lemma_field(p, 18);
        }
    }
    let (migration_id, at) = match read_optional_text_field(bytes, at, 18, Ghost(text_option(p.migration_id))) {
        Some(found) => found,
        None => return None,
    };
    assert(canonical ==> text_option(migration_id) == text_option(p.migration_id) && at == p.upto(19).len());
    proof {
        if canonical {
            lemma_field(p, 19);
        }
    }
    let (previous_release_bundle_digest, at) = match read_optional_text_field(bytes, at, 19, Ghost(text_option(p.previous_release_bundle_digest))) {
        Some(found) => found,
        None => return None,
    };
    assert(canonical ==> text_option(previous_release_bundle_digest) == text_option(p.previous_release_bundle_digest) && at == p.upto(20).len());
    proof {
        if canonical {
            lemma_field(p, 20);
        }
    }
    let (consequences, at) = match read_consequences_field(bytes, at, 20, Ghost(p.consequences@)) {
        Some(found) => found,
        None => return None,
    };
    assert(canonical ==> consequences@ == p.consequences@ && at == p.upto(21).len());
    proof {
        if canonical {
            lemma_field(p, 21);
        }
    }
    let (minimum_role, at) = match read_role_field(bytes, at, 21, Ghost(p.minimum_role)) {
        Some(found) => found,
        None => return None,
    };
    assert(canonical ==> minimum_role == p.minimum_role && at == p.upto(22).len());
    proof {
        if canonical {
            lemma_field(p, 22);
        }
    }
    let (release_bundle_digest, at) = match read_optional_text_field(bytes, at, 22, Ghost(text_option(p.release_bundle_digest))) {
        Some(found) => found,
        None => return None,
    };
    assert(canonical ==> text_option(release_bundle_digest) == text_option(p.release_bundle_digest) && at == p.upto(23).len());
    proof {
        if canonical {
            lemma_field(p, 23);
        }
    }
    let (build_attestation_digest, at) = match read_optional_text_field(bytes, at, 23, Ghost(text_option(p.build_attestation_digest))) {
        Some(found) => found,
        None => return None,
    };
    assert(canonical ==> text_option(build_attestation_digest) == text_option(p.build_attestation_digest) && at == p.upto(24).len());
    Some(
        ExecutorIntentPayloadV1 {
            schema_version,
            issuer,
            authorizer_audience,
            key_id,
            key_epoch,
            issued_at_ms,
            not_before_ms,
            expires_at_ms,
            intent_id,
            request_id,
            project_id,
            operation_kind,
            target_commit,
            proposed_release_class,
            effective_release_class,
            installed_policy_digest,
            source_attestation_digest,
            source_sequence,
            migration_id,
            previous_release_bundle_digest,
            consequences,
            minimum_role,
            release_bundle_digest,
            build_attestation_digest,
        },
    )
}

/// The payload that some bytes are the bytes of.
pub(crate) fn read_canonical(bytes: &[u8]) -> (r: Option<ExecutorIntentPayloadV1>)
    ensures
        match r {
            Some(payload) => written_as(bytes@, payload),
            None => !is_payload(bytes@),
        },
{
    let length: usize = bytes.len();
    let ghost p = choose|p: ExecutorIntentPayloadV1| #[trigger] written_as(bytes@, p);
    proof {
        if is_payload(bytes@) {
            lemma_consequences_fit(p, length as int);
        }
    }
    match read_fields(bytes, Ghost(p)) {
        None => None,
        Some(payload) => {
            let again = payload.to_cbor();
            proof {
                if is_payload(bytes@) {
                    lemma_same_payload(payload, p);
                }
            }
            if same_bytes(again.as_slice(), bytes) {
                Some(payload)
            } else {
                None
            }
        },
    }
}

/// A payload has at least one byte.
pub proof fn lemma_payload_is_written(p: ExecutorIntentPayloadV1)
    ensures
        p.cbor().len() > 0,
{
    reveal(ExecutorIntentPayloadV1::cbor);
    reveal(head);
    lemma_upto_grows(p, 0, 24);
}

/// Consequences are no more than the bytes that they are written in.
proof fn lemma_consequence_bytes(values: Seq<ExecutorIntentConsequenceV1>)
    ensures
        consequence_items(values).len() >= values.len(),
    decreases values.len(),
{
    if values.len() > 0 {
        lemma_number_is_written(values[0].index());
        lemma_consequence_bytes(values.drop_first());
    }
}

pub proof fn lemma_consequences_fit(p: ExecutorIntentPayloadV1, length: int)
    requires
        p.cbor().len() == length,
        length <= usize::MAX,
    ensures
        p.consequences@.len() <= u64::MAX,
{
    reveal(ExecutorIntentPayloadV1::cbor);
    lemma_upto_grows(p, 21, 24);
    lemma_consequence_bytes(p.consequences@);
    assert(p.upto(21) == p.upto(20) + p.field(20));
    assert(p.field(20).len() >= p.consequences@.len());
}

} // verus!
