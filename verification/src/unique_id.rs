//! Identifiers of 128 bits.

use vstd::arithmetic::power::pow;
use vstd::prelude::*;
use crate::text::{hex, text_option};

verus! {

/// A universally unique identifier, held as its 128-bit number.
#[derive(Clone, Copy, Debug, PartialEq, Eq, Hash, Structural)]
pub struct Uuid {
    value: u128,
}

/// The sixteen bytes of a 128-bit number, the most significant first.
pub open spec fn big_endian(value: u128) -> Seq<u8> {
    Seq::new(16, |i: int| ((value as int / pow(256, (15 - i) as nat)) % 256) as u8)
}

/// Hexadecimal digits in groups of eight, four, four, four and twelve, with hyphens between them.
pub open spec fn hyphenated(digits: Seq<char>) -> Seq<char> {
    digits.subrange(0, 8) + seq!['-'] + digits.subrange(8, 12) + seq!['-'] + digits.subrange(12, 16)
        + seq!['-'] + digits.subrange(16, 20) + seq!['-'] + digits.subrange(20, 32)
}

/// The text of an identifier: the digits of its bytes, hyphenated.
pub open spec fn uuid_text(value: u128) -> Seq<char> {
    hyphenated(hex(big_endian(value)))
}

/// `uuid::Uuid::from_u128` and its `hyphenated` form, written out: lowercase digits of the
/// big-endian bytes, in groups of eight, four, four, four and twelve.
#[verifier::external_body]
fn hyphenated_text(value: u128) -> (text: String)
    ensures
        text@ == uuid_text(value),
{
    uuid::Uuid::from_u128(value).hyphenated().to_string()
}

/// `uuid::Uuid::from_u128` and `as_bytes`: the sixteen bytes, the most significant first.
#[verifier::external_body]
fn bytes_of(value: u128) -> (bytes: Vec<u8>)
    ensures
        bytes@ == big_endian(value),
{
    uuid::Uuid::from_u128(value).as_bytes().to_vec()
}

/// What `uuid::Uuid::parse_str` reads from a text, as a number.
pub uninterp spec fn uuid_parsed(text: Seq<char>) -> Option<u128>;

/// `uuid::Uuid::parse_str`, with `as_u128` of what it reads. The hyphenated text of an identifier
/// is among the forms that it reads.
#[verifier::external_body]
fn parse_number(text: &str) -> (r: Option<u128>)
    ensures
        r == uuid_parsed(text@),
        forall|value: u128| text@ == #[trigger] uuid_text(value) ==> r == Some(value),
{
    uuid::Uuid::parse_str(text).ok().map(|id| id.as_u128())
}

/// `uuid::Uuid::from_slice`, with `as_u128` of what it takes: sixteen bytes, the most significant
/// first.
#[verifier::external_body]
fn number_of(bytes: &[u8]) -> (r: Option<u128>)
    ensures
        match r {
            Some(value) => bytes@.len() == 16 && big_endian(value) == bytes@,
            None => bytes@.len() != 16,
        },
        forall|value: u128| bytes@ == #[trigger] big_endian(value) ==> r == Some(value),
{
    uuid::Uuid::from_slice(bytes).ok().map(|id| id.as_u128())
}

impl View for Uuid {
    type V = u128;

    closed spec fn view(&self) -> u128 {
        self.value
    }
}

/// The identifier of a number.
pub closed spec fn uuid_of(value: u128) -> Uuid {
    Uuid { value }
}

/// An identifier is its number.
pub broadcast proof fn lemma_uuid_view(a: Uuid, b: Uuid)
    ensures
        #![trigger a@, b@]
        a == b <==> a@ == b@,
{
}

impl Uuid {
    pub fn from_u128(value: u128) -> (r: Uuid)
        ensures
            r == uuid_of(value),
            r@ == value,
    {
        Uuid { value }
    }

    pub fn as_u128(&self) -> (value: u128)
        ensures
            value == self@,
    {
        self.value
    }

    /// Reads an identifier. One reads back what is written.
    pub fn parse(text: &str) -> (r: Option<Uuid>)
        ensures
            match r {
                Some(id) => uuid_parsed(text@) == Some(id@) && id == uuid_of(id@),
                None => uuid_parsed(text@) is None,
            },
            forall|id: Uuid| text@ == #[trigger] id.text() ==> r == Some(id),
    {
        let parsed = parse_number(text);
        proof {
            assert forall|id: Uuid| text@ == #[trigger] id.text() implies parsed == Some(id@) by {
                assert(text@ == uuid_text(id@));
            }
        }
        match parsed {
            Some(value) => Some(Uuid { value }),
            None => None,
        }
    }

    /// The nil identifier is the number zero.
    pub open spec fn nil(self) -> bool {
        self@ == 0
    }

    pub fn is_nil(&self) -> (r: bool)
        ensures
            r == self.nil(),
    {
        self.value == 0
    }

    /// The hyphenated text.
    pub open spec fn text(self) -> Seq<char> {
        uuid_text(self@)
    }

    pub fn to_text(&self) -> (text: String)
        ensures
            text@ == self.text(),
    {
        hyphenated_text(self.value)
    }

    /// The identifier of sixteen bytes.
    pub fn from_bytes(bytes: &[u8]) -> (r: Option<Uuid>)
        ensures
            match r {
                Some(id) => bytes@.len() == 16 && big_endian(id@) == bytes@,
                None => bytes@.len() != 16,
            },
            forall|id: Uuid| bytes@ == #[trigger] big_endian(id@) ==> r == Some(id),
    {
        let found = number_of(bytes);
        match found {
            Some(value) => Some(Uuid { value }),
            None => None,
        }
    }

    pub fn to_bytes(&self) -> (bytes: Vec<u8>)
        ensures
            bytes@ == big_endian(self@),
    {
        bytes_of(self.value)
    }
}

/// The text of an optional identifier.
pub open spec fn uuid_option(value: Option<Uuid>) -> Option<Seq<char>> {
    match value {
        Some(id) => Some(id.text()),
        None => None,
    }
}

pub fn optional_uuid_text(value: &Option<Uuid>) -> (r: Option<String>)
    ensures
        text_option(r) == uuid_option(*value),
{
    match value {
        Some(id) => Some(id.to_text()),
        None => None,
    }
}

} // verus!
