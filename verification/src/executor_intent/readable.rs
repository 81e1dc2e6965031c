//! Which bytes can be read as a payload, though they may not be the bytes of one.

use vstd::prelude::*;
use super::cbor::{
    array_at,
    bytes_at,
    i64_at,
    item_end,
    kind_at,
    map_at,
    read_array,
    read_bytes,
    read_i64,
    read_kind,
    read_map,
    read_str,
    read_u16,
    read_u64,
    skip_item,
    str_at,
    u16_at,
    u64_at,
    ItemKind,
};

verus! {

/// What a field of a payload holds.
#[derive(Clone, Copy, Debug, PartialEq, Eq, Structural)]
pub enum FieldForm {
    Short,
    Number,
    Signed,
    Text,
    Identifier,
    /// One of so many values.
    Variant(i64),
    OptionalText,
    OptionalNumber,
    OptionalVariant(i64),
    /// A list of values, each one of so many.
    Variants(i64),
    /// No field has the key: whatever stands there is passed over.
    Unknown,
}

/// The form of the field of a key.
pub open spec fn form_of(key: i64) -> FieldForm {
    if key == 0 {
        FieldForm::Short
    } else if key == 4 {
        FieldForm::Number
    } else if key == 5 || key == 6 || key == 7 {
        FieldForm::Signed
    } else if key == 1 || key == 2 || key == 3 || key == 10 || key == 15 {
        FieldForm::Text
    } else if key == 8 || key == 9 {
        FieldForm::Identifier
    } else if key == 11 {
        FieldForm::Variant(3)
    } else if key == 21 {
        FieldForm::Variant(2)
    } else if key == 12 || key == 16 || key == 18 || key == 19 || key == 22 || key == 23 {
        FieldForm::OptionalText
    } else if key == 17 {
        FieldForm::OptionalNumber
    } else if key == 13 || key == 14 {
        FieldForm::OptionalVariant(4)
    } else if key == 20 {
        FieldForm::Variants(10)
    } else {
        FieldForm::Unknown
    }
}

fn find_form(key: i64) -> (r: FieldForm)
    ensures
        r == form_of(key),
{
    if key == 0 {
        FieldForm::Short
    } else if key == 4 {
        FieldForm::Number
    } else if key == 5 || key == 6 || key == 7 {
        FieldForm::Signed
    } else if key == 1 || key == 2 || key == 3 || key == 10 || key == 15 {
        FieldForm::Text
    } else if key == 8 || key == 9 {
        FieldForm::Identifier
    } else if key == 11 {
        FieldForm::Variant(3)
    } else if key == 21 {
        FieldForm::Variant(2)
    } else if key == 12 || key == 16 || key == 18 || key == 19 || key == 22 || key == 23 {
        FieldForm::OptionalText
    } else if key == 17 {
        FieldForm::OptionalNumber
    } else if key == 13 || key == 14 {
        FieldForm::OptionalVariant(4)
    } else if key == 20 {
        FieldForm::Variants(10)
    } else {
        FieldForm::Unknown
    }
}

/// Where a value that is one of so many ends.
pub open spec fn variant_end(bytes: Seq<u8>, at: int, count: i64) -> Option<int> {
    match i64_at(bytes, at) {
        Some((index, next)) => if 0 <= index < count {
            Some(next)
        } else {
            None
        },
        None => None,
    }
}

fn read_variant(bytes: &[u8], at: usize, count: i64) -> (r: Option<usize>)
    ensures
        match r {
            Some(next) => variant_end(bytes@, at as int, count) == Some(next as int) && at < next
                <= bytes@.len(),
            None => variant_end(bytes@, at as int, count) is None,
        },
{
    match read_i64(bytes, at) {
        Some((index, next)) => if 0 <= index && index < count {
            Some(next)
        } else {
            None
        },
        None => None,
    }
}

/// Where so many values end, or those up to a stop.
pub open spec fn variants_end(bytes: Seq<u8>, at: int, left: Option<u64>, count: i64) -> Option<int>
    decreases bytes.len() - at,
{
    if left == Some(0u64) {
        Some(at)
    } else if left is None && kind_at(bytes, at) is None {
        None
    } else if left is None && kind_at(bytes, at) == Some(ItemKind::Stop) {
        item_end(bytes, at)
    } else {
        match variant_end(bytes, at, count) {
            None => None,
            Some(next) => if at < next <= bytes.len() {
                variants_end(
                    bytes,
                    next,
                    match left {
                        Some(left) => Some((left - 1) as u64),
                        None => None,
                    },
                    count,
                )
            } else {
                None
            },
        }
    }
}

fn read_variants(bytes: &[u8], at: usize, length: Option<u64>, count: i64) -> (r: Option<usize>)
    requires
        at <= bytes@.len(),
    ensures
        match r {
            Some(next) => variants_end(bytes@, at as int, length, count) == Some(next as int) && at
                <= next <= bytes@.len(),
            None => variants_end(bytes@, at as int, length, count) is None,
        },
{
    let mut place: usize = at;
    let mut left: Option<u64> = length;
    loop
        invariant
            at <= place <= bytes@.len(),
            variants_end(bytes@, at as int, length, count) == variants_end(
                bytes@,
                place as int,
                left,
                count,
            ),
        decreases bytes@.len() - place,
    {
        match left {
            Some(remaining) => {
                if remaining == 0 {
                    return Some(place);
                }
                match read_variant(bytes, place, count) {
                    None => return None,
                    Some(next) => {
                        place = next;
                        left = Some(remaining - 1);
                    },
                }
            },
            None => {
                match read_kind(bytes, place) {
                    None => return None,
                    Some(ItemKind::Stop) => return skip_item(bytes, place),
                    Some(_) => {},
                }
                match read_variant(bytes, place, count) {
                    None => return None,
                    Some(next) => {
                        place = next;
                    },
                }
            },
        }
    }
}

/// Where a value of some form ends. A value that may be missing may be a null. One of an unknown
/// kind in place of a value that may be missing is passed over, with what follows it.
pub open spec fn value_end(bytes: Seq<u8>, at: int, form: FieldForm) -> Option<int> {
    match form {
        FieldForm::Short => match u16_at(bytes, at) {
            Some((_, next)) => Some(next),
            None => None,
        },
        FieldForm::Number => match u64_at(bytes, at) {
            Some((_, next)) => Some(next),
            None => None,
        },
        FieldForm::Signed => match i64_at(bytes, at) {
            Some((_, next)) => Some(next),
            None => None,
        },
        FieldForm::Text => match str_at(bytes, at) {
            Some((_, next)) => Some(next),
            None => None,
        },
        FieldForm::Identifier => match bytes_at(bytes, at) {
            Some((found, next)) => if found.len() == 16 {
                Some(next)
            } else {
                None
            },
            None => None,
        },
        FieldForm::Variant(count) => variant_end(bytes, at, count),
        FieldForm::OptionalText => match kind_at(bytes, at) {
            None => None,
            Some(ItemKind::Null) => item_end(bytes, at),
            Some(_) => match str_at(bytes, at) {
                Some((_, next)) => Some(next),
                None => None,
            },
        },
        FieldForm::OptionalNumber => match kind_at(bytes, at) {
            None => None,
            Some(ItemKind::Null) => item_end(bytes, at),
            Some(_) => match u64_at(bytes, at) {
                Some((_, next)) => Some(next),
                None => None,
            },
        },
        FieldForm::OptionalVariant(count) => match kind_at(bytes, at) {
            None => None,
            Some(ItemKind::Null) => item_end(bytes, at),
            Some(_) => match i64_at(bytes, at) {
                Some((index, next)) => if 0 <= index < count {
                    Some(next)
                } else {
                    item_end(bytes, next)
                },
                None => None,
            },
        },
        FieldForm::Variants(count) => match array_at(bytes, at) {
            Some((length, next)) => variants_end(bytes, next, length, count),
            None => None,
        },
        FieldForm::Unknown => item_end(bytes, at),
    }
}

fn read_value(bytes: &[u8], at: usize, form: FieldForm) -> (r: Option<usize>)
    ensures
        match r {
            Some(next) => value_end(bytes@, at as int, form) == Some(next as int) && at < next
                <= bytes@.len(),
            None => value_end(bytes@, at as int, form) is None,
        },
{
    match form {
        FieldForm::Short => match read_u16(bytes, at) {
            Some((_, next)) => Some(next),
            None => None,
        },
        FieldForm::Number => match read_u64(bytes, at) {
            Some((_, next)) => Some(next),
            None => None,
        },
        FieldForm::Signed => match read_i64(bytes, at) {
            Some((_, next)) => Some(next),
            None => None,
        },
        FieldForm::Text => match read_str(bytes, at) {
            Some((_, next)) => Some(next),
            None => None,
        },
        FieldForm::Identifier => match read_bytes(bytes, at) {
            Some((found, next)) => if found.len() == 16 {
                Some(next)
            } else {
                None
            },
            None => None,
        },
        FieldForm::Variant(count) => read_variant(bytes, at, count),
        FieldForm::OptionalText => match read_kind(bytes, at) {
            None => None,
            Some(ItemKind::Null) => skip_item(bytes, at),
            Some(_) => match read_str(bytes, at) {
                Some((_, next)) => Some(next),
                None => None,
            },
        },
        FieldForm::OptionalNumber => match read_kind(bytes, at) {
            None => None,
            Some(ItemKind::Null) => skip_item(bytes, at),
            Some(_) => match read_u64(bytes, at) {
                Some((_, next)) => Some(next),
                None => None,
            },
        },
        FieldForm::OptionalVariant(count) => match read_kind(bytes, at) {
            None => None,
            Some(ItemKind::Null) => skip_item(bytes, at),
            Some(_) => match read_i64(bytes, at) {
                Some((index, next)) => if 0 <= index && index < count {
                    Some(next)
                } else {
                    skip_item(bytes, next)
                },
                None => None,
            },
        },
        FieldForm::Variants(count) => match read_array(bytes, at) {
            Some((length, next)) => read_variants(bytes, next, length, count),
            None => None,
        },
        FieldForm::Unknown => skip_item(bytes, at),
    }
}

/// What has been seen with one more key.
pub open spec fn also_seen(seen: Seq<bool>, key: i64) -> Seq<bool> {
    if 0 <= key < seen.len() {
        seen.update(key as int, true)
    } else {
        seen
    }
}

/// Which keys are seen in the entries of a map, where all of them can be read.
pub open spec fn keys_seen(bytes: Seq<u8>, at: int, left: Option<u64>, seen: Seq<bool>) -> Option<
    Seq<bool>,
>
    decreases bytes.len() - at,
{
    if left == Some(0u64) {
        Some(seen)
    } else if left is None && kind_at(bytes, at) is None {
        None
    } else if left is None && kind_at(bytes, at) == Some(ItemKind::Stop) {
        match item_end(bytes, at) {
            Some(_) => Some(seen),
            None => None,
        }
    } else {
        match i64_at(bytes, at) {
            None => None,
            Some((key, next)) => match value_end(bytes, next, form_of(key)) {
                None => None,
                Some(after) => if at < after <= bytes.len() {
                    keys_seen(
                        bytes,
                        after,
                        match left {
                            Some(left) => Some((left - 1) as u64),
                            None => None,
                        },
                        also_seen(seen, key),
                    )
                } else {
                    None
                },
            },
        }
    }
}

/// Every field that a payload cannot do without was seen.
pub open spec fn has_required(seen: Seq<bool>) -> bool {
    &&& forall|key: int| 0 <= key < 12 ==> #[trigger] seen[key]
    &&& seen[15]
    &&& seen[20]
    &&& seen[21]
}

/// No key was seen.
pub open spec fn none_seen() -> Seq<bool> {
    Seq::new(24, |key: int| false)
}

/// Bytes can be read as a payload: they begin with a map of readable entries, with every field that
/// a payload cannot do without.
pub open spec fn readable(bytes: Seq<u8>) -> bool {
    match map_at(bytes, 0) {
        None => false,
        Some((length, next)) => match keys_seen(bytes, next, length, none_seen()) {
            Some(seen) => has_required(seen),
            None => false,
        },
    }
}

fn mark_seen(seen: &mut Vec<bool>, key: i64)
    requires
        old(seen)@.len() == 24,
    ensures
        final(seen)@ == also_seen(old(seen)@, key),
        final(seen)@.len() == 24,
{
    if 0 <= key && key < 24 {
        seen.set(key as usize, true);
    }
}

/// Whether bytes can be read as a payload.
pub fn is_readable(bytes: &[u8]) -> (r: bool)
    ensures
        r == readable(bytes@),
{
    let (length, first) = match read_map(bytes, 0) {
        None => return false,
        Some(found) => found,
    };
    let mut seen: Vec<bool> = Vec::new();
    let mut i: usize = 0;
    while i < 24
        invariant
            i <= 24,
            seen@ == none_seen().take(i as int),
        decreases 24 - i,
    {
        seen.push(false);
        i += 1;
        assert(seen@ =~= none_seen().take(i as int));
    }
    assert(seen@ =~= none_seen());
    let mut place: usize = first;
    let mut left: Option<u64> = length;
    let mut done = false;
    while !done
        invariant
            place <= bytes@.len(),
            map_at(bytes@, 0) == Some((length, first as int)),
            seen@.len() == 24,
            !done ==> keys_seen(bytes@, first as int, length, none_seen()) == keys_seen(
                bytes@,
                place as int,
                left,
                seen@,
            ),
            done ==> keys_seen(bytes@, first as int, length, none_seen()) == Some(seen@),
        decreases bytes@.len() - place, !done as int,
    {
        let stops = match left {
            Some(remaining) => remaining == 0,
            None => match read_kind(bytes, place) {
                None => return false,
                Some(ItemKind::Stop) => {
                    if skip_item(bytes, place).is_none() {
                        return false;
                    }
                    true
                },
                Some(_) => false,
            },
        };
        if stops {
            done = true;
        } else {
            let (key, next) = match read_i64(bytes, place) {
                None => return false,
                Some(found) => found,
            };
            let after = match read_value(bytes, next, find_form(key)) {
                None => return false,
                Some(after) => after,
            };
            mark_seen(&mut seen, key);
            place = after;
            left = match left {
                Some(remaining) => Some(remaining - 1),
                None => None,
            };
        }
    }
    let mut k: usize = 0;
    while k < 12
        invariant
            k <= 12,
            seen@.len() == 24,
            map_at(bytes@, 0) == Some((length, first as int)),
            keys_seen(bytes@, first as int, length, none_seen()) == Some(seen@),
            forall|key: int| 0 <= key < k ==> #[trigger] seen@[key],
        decreases 12 - k,
    {
        if !seen[k] {
            return false;
        }
        k += 1;
    }
    seen[15] && seen[20] && seen[21]
}

/// A field of a payload, its key with a value of its form behind it, stands at a place.
pub open spec fn field_at(bytes: Seq<u8>, at: int, key: i64) -> bool {
    match i64_at(bytes, at) {
        Some((found, next)) => found == key && value_end(bytes, next, form_of(key)) is Some,
        None => false,
    }
}

/// A field stands somewhere in a payload.
pub open spec fn holds_field(bytes: Seq<u8>, key: i64) -> bool {
    exists|at: int| #[trigger] field_at(bytes, at, key)
}

proof fn lemma_seen_fields_are_held(
    bytes: Seq<u8>,
    at: int,
    left: Option<u64>,
    seen: Seq<bool>,
    key: i64,
)
    requires
        0 <= key < seen.len(),
    ensures
        keys_seen(bytes, at, left, seen) matches Some(all) ==> all.len() == seen.len() && (all[key as int]
            ==> seen[key as int] || holds_field(bytes, key)),
    decreases bytes.len() - at,
{
    if left == Some(0u64) || left is None && (kind_at(bytes, at) is None || kind_at(bytes, at)
        == Some(ItemKind::Stop)) {
    } else {
        match i64_at(bytes, at) {
            None => {},
            Some((found, next)) => match value_end(bytes, next, form_of(found)) {
                None => {},
                Some(after) => if at < after <= bytes.len() {
                    let fewer: Option<u64> = match left {
                        Some(left) => Some((left - 1) as u64),
                        None => None,
                    };
                    assert(field_at(bytes, at, found));
                    lemma_seen_fields_are_held(bytes, after, fewer, also_seen(seen, found), key);
                },
            },
        }
    }
}

/// Bytes are read as a payload only if they hold every field that a payload cannot do without: those
/// of the keys up to 11, and those of the keys 15, 20 and 21.
pub proof fn law_readable_payloads_hold_their_fields(bytes: &[u8], key: i64)
    requires
        call_ensures(is_readable, (bytes,), true),
        0 <= key <= 11 || key == 15 || key == 20 || key == 21,
    ensures
        holds_field(bytes@, key),
{
    let (length, next) = map_at(bytes@, 0)->0;
    lemma_seen_fields_are_held(bytes@, next, length, none_seen(), key);
}

} // verus!
