//! Items of the Concise Binary Object Representation.

use vstd::prelude::*;
use crate::text::utf8;

verus! {

/// The head of an item: its major type, and a number in as few bytes as it has place in.
#[verifier::opaque]
pub open spec fn head(major: int, n: int) -> Seq<u8> {
    if n < 24 {
        seq![(major * 32 + n) as u8]
    } else if n < 0x100 {
        seq![(major * 32 + 24) as u8, n as u8]
    } else if n < 0x1_0000 {
        seq![(major * 32 + 25) as u8, (n / 0x100) as u8, (n % 0x100) as u8]
    } else if n < 0x1_0000_0000 {
        seq![
            (major * 32 + 26) as u8,
            (n / 0x100_0000) as u8,
            (n / 0x1_0000 % 0x100) as u8,
            (n / 0x100 % 0x100) as u8,
            (n % 0x100) as u8,
        ]
    } else {
        seq![
            (major * 32 + 27) as u8,
            (n / 0x100_0000_0000_0000) as u8,
            (n / 0x1_0000_0000_0000 % 0x100) as u8,
            (n / 0x100_0000_0000 % 0x100) as u8,
            (n / 0x1_0000_0000 % 0x100) as u8,
            (n / 0x100_0000 % 0x100) as u8,
            (n / 0x1_0000 % 0x100) as u8,
            (n / 0x100 % 0x100) as u8,
            (n % 0x100) as u8,
        ]
    }
}

/// A number. One below zero is counted down from minus one.
pub open spec fn number(n: int) -> Seq<u8> {
    if n >= 0 {
        head(0, n)
    } else {
        head(1, -1 - n)
    }
}

/// Bytes, after their length.
pub open spec fn byte_string(bytes: Seq<u8>) -> Seq<u8> {
    head(2, bytes.len() as int) + bytes
}

/// A text, after the length of its bytes.
pub open spec fn text_string(text: Seq<char>) -> Seq<u8> {
    head(3, utf8(text).len() as int) + utf8(text)
}

/// `minicbor::Encoder::u64`: adds a number that is not below zero.
#[verifier::external_body]
pub(crate) fn write_u64(out: &mut Vec<u8>, n: u64)
    ensures
        final(out)@ == old(out)@ + number(n as int),
{
    let _ = minicbor::Encoder::new(out).u64(n);
}

/// `minicbor::Encoder::i64`: adds a number.
#[verifier::external_body]
pub(crate) fn write_i64(out: &mut Vec<u8>, n: i64)
    ensures
        final(out)@ == old(out)@ + number(n as int),
{
    let _ = minicbor::Encoder::new(out).i64(n);
}

/// `minicbor::Encoder::bytes`: adds bytes, after their length.
#[verifier::external_body]
pub(crate) fn write_bytes(out: &mut Vec<u8>, bytes: &[u8])
    ensures
        final(out)@ == old(out)@ + byte_string(bytes@),
{
    let _ = minicbor::Encoder::new(out).bytes(bytes);
}

/// `minicbor::Encoder::str`: adds a text, after the length of its bytes.
#[verifier::external_body]
pub(crate) fn write_str(out: &mut Vec<u8>, text: &str)
    ensures
        final(out)@ == old(out)@ + text_string(text@),
{
    let _ = minicbor::Encoder::new(out).str(text);
}

/// `minicbor::Encoder::array`: adds the head of an array.
#[verifier::external_body]
pub(crate) fn write_array(out: &mut Vec<u8>, length: u64)
    ensures
        final(out)@ == old(out)@ + head(4, length as int),
{
    let _ = minicbor::Encoder::new(out).array(length);
}

/// `minicbor::Encoder::map`: adds the head of a map.
#[verifier::external_body]
pub(crate) fn write_map(out: &mut Vec<u8>, length: u64)
    ensures
        final(out)@ == old(out)@ + head(5, length as int),
{
    let _ = minicbor::Encoder::new(out).map(length);
}

/// Some bytes stand in others from some place on.
pub open spec fn stands(bytes: Seq<u8>, at: int, piece: Seq<u8>) -> bool {
    &&& 0 <= at
    &&& at + piece.len() <= bytes.len()
    &&& bytes.subrange(at, at + piece.len()) == piece
}

/// What `minicbor::Decoder::i64` reads at some place, and where it stops.
pub uninterp spec fn i64_at(bytes: Seq<u8>, at: int) -> Option<(i64, int)>;

/// What `minicbor::Decoder::u64` reads at some place, and where it stops.
pub uninterp spec fn u64_at(bytes: Seq<u8>, at: int) -> Option<(u64, int)>;

/// What `minicbor::Decoder::u16` reads at some place, and where it stops.
pub uninterp spec fn u16_at(bytes: Seq<u8>, at: int) -> Option<(u16, int)>;

/// What `minicbor::Decoder::str` reads at some place, and where it stops.
pub uninterp spec fn str_at(bytes: Seq<u8>, at: int) -> Option<(Seq<char>, int)>;

/// What `minicbor::Decoder::bytes` reads at some place, and where it stops.
pub uninterp spec fn bytes_at(bytes: Seq<u8>, at: int) -> Option<(Seq<u8>, int)>;

/// What `minicbor::Decoder::array` reads at some place, and where it stops: the length of the array,
/// where it is told.
pub uninterp spec fn array_at(bytes: Seq<u8>, at: int) -> Option<(Option<u64>, int)>;

/// What `minicbor::Decoder::map` reads at some place, and where it stops: the length of the map,
/// where it is told.
pub uninterp spec fn map_at(bytes: Seq<u8>, at: int) -> Option<(Option<u64>, int)>;

/// Where the item at some place ends, as `minicbor::Decoder::skip` finds it.
pub uninterp spec fn item_end(bytes: Seq<u8>, at: int) -> Option<int>;

/// What kind of item begins at some place.
#[derive(Clone, Copy, Debug, PartialEq, Eq, Structural)]
pub enum ItemKind {
    /// The end of something whose length is not told.
    Stop,
    Null,
    Other,
}

/// What `minicbor::Decoder::datatype` tells of the item at some place.
pub uninterp spec fn kind_at(bytes: Seq<u8>, at: int) -> Option<ItemKind>;

/// `minicbor::Decoder::i64` from some place on. It reads back a number that was written, reads
/// nothing past the end, and goes forward within the bytes.
#[verifier::external_body]
pub(crate) fn read_i64(bytes: &[u8], at: usize) -> (r: Option<(i64, usize)>)
    ensures
        match r {
            Some((n, next)) => i64_at(bytes@, at as int) == Some((n, next as int)) && at < next
                <= bytes@.len(),
            None => i64_at(bytes@, at as int) is None,
        },
        at >= bytes@.len() ==> r is None,
        forall|n: i64|
            stands(bytes@, at as int, #[trigger] number(n as int)) ==> r is Some && (r->0).0 == n && (
            r->0).1 == at + number(n as int).len(),
{
    let mut decoder = minicbor::Decoder::new(bytes);
    decoder.set_position(at);
    decoder.i64().ok().map(|n| (n, decoder.position()))
}

/// `minicbor::Decoder::u64` from some place on. It reads back a number that was written, and goes
/// forward within the bytes.
#[verifier::external_body]
pub(crate) fn read_u64(bytes: &[u8], at: usize) -> (r: Option<(u64, usize)>)
    ensures
        match r {
            Some((n, next)) => u64_at(bytes@, at as int) == Some((n, next as int)) && at < next
                <= bytes@.len(),
            None => u64_at(bytes@, at as int) is None,
        },
        forall|n: u64|
            stands(bytes@, at as int, #[trigger] number(n as int)) ==> r is Some && (r->0).0 == n && (
            r->0).1 == at + number(n as int).len(),
{
    let mut decoder = minicbor::Decoder::new(bytes);
    decoder.set_position(at);
    decoder.u64().ok().map(|n| (n, decoder.position()))
}

/// `minicbor::Decoder::u16` from some place on. It reads back a number that was written, and goes
/// forward within the bytes.
#[verifier::external_body]
pub(crate) fn read_u16(bytes: &[u8], at: usize) -> (r: Option<(u16, usize)>)
    ensures
        match r {
            Some((n, next)) => u16_at(bytes@, at as int) == Some((n, next as int)) && at < next
                <= bytes@.len(),
            None => u16_at(bytes@, at as int) is None,
        },
        forall|n: u16|
            stands(bytes@, at as int, #[trigger] number(n as int)) ==> r is Some && (r->0).0 == n && (
            r->0).1 == at + number(n as int).len(),
{
    let mut decoder = minicbor::Decoder::new(bytes);
    decoder.set_position(at);
    decoder.u16().ok().map(|n| (n, decoder.position()))
}

/// `minicbor::Decoder::str` from some place on. It reads back a text that was written, and goes
/// forward within the bytes.
#[verifier::external_body]
pub(crate) fn read_str(bytes: &[u8], at: usize) -> (r: Option<(String, usize)>)
    ensures
        match r {
            Some((text, next)) => str_at(bytes@, at as int) == Some((text@, next as int)) && at
                < next <= bytes@.len(),
            None => str_at(bytes@, at as int) is None,
        },
        forall|text: Seq<char>|
            stands(bytes@, at as int, #[trigger] text_string(text)) ==> r is Some && (r->0).0@ == text
                && (r->0).1 == at + text_string(text).len(),
{
    let mut decoder = minicbor::Decoder::new(bytes);
    decoder.set_position(at);
    let text = decoder.str().ok().map(|text| text.to_string());
    text.map(|text| (text, decoder.position()))
}

/// `minicbor::Decoder::bytes` from some place on. It reads back bytes that were written, and goes
/// forward within the bytes.
#[verifier::external_body]
pub(crate) fn read_bytes(bytes: &[u8], at: usize) -> (r: Option<(Vec<u8>, usize)>)
    ensures
        match r {
            Some((found, next)) => bytes_at(bytes@, at as int) == Some((found@, next as int)) && at
                < next <= bytes@.len(),
            None => bytes_at(bytes@, at as int) is None,
        },
        forall|content: Seq<u8>|
            stands(bytes@, at as int, #[trigger] byte_string(content)) ==> r is Some && (r->0).0@
                == content && (r->0).1 == at + byte_string(content).len(),
{
    let mut decoder = minicbor::Decoder::new(bytes);
    decoder.set_position(at);
    let found = decoder.bytes().ok().map(|found| found.to_vec());
    found.map(|found| (found, decoder.position()))
}

/// `minicbor::Decoder::array` from some place on. It reads back the head of an array that was
/// written, and goes forward within the bytes.
#[verifier::external_body]
pub(crate) fn read_array(bytes: &[u8], at: usize) -> (r: Option<(Option<u64>, usize)>)
    ensures
        match r {
            Some((length, next)) => array_at(bytes@, at as int) == Some((length, next as int)) && at
                < next <= bytes@.len(),
            None => array_at(bytes@, at as int) is None,
        },
        forall|length: u64|
            stands(bytes@, at as int, #[trigger] head(4, length as int)) ==> r is Some && (r->0).0 == Some(
                length,
            ) && (r->0).1 == at + head(4, length as int).len(),
{
    let mut decoder = minicbor::Decoder::new(bytes);
    decoder.set_position(at);
    decoder.array().ok().map(|length| (length, decoder.position()))
}

/// `minicbor::Decoder::map` from some place on. It reads back the head of a map that was written,
/// and goes forward within the bytes.
#[verifier::external_body]
pub(crate) fn read_map(bytes: &[u8], at: usize) -> (r: Option<(Option<u64>, usize)>)
    ensures
        match r {
            Some((length, next)) => map_at(bytes@, at as int) == Some((length, next as int)) && at
                < next <= bytes@.len(),
            None => map_at(bytes@, at as int) is None,
        },
        forall|length: u64|
            stands(bytes@, at as int, #[trigger] head(5, length as int)) ==> r is Some && (r->0).0 == Some(
                length,
            ) && (r->0).1 == at + head(5, length as int).len(),
{
    let mut decoder = minicbor::Decoder::new(bytes);
    decoder.set_position(at);
    decoder.map().ok().map(|length| (length, decoder.position()))
}

/// `minicbor::Decoder::skip` from some place on. It goes forward within the bytes.
#[verifier::external_body]
pub(crate) fn skip_item(bytes: &[u8], at: usize) -> (r: Option<usize>)
    ensures
        match r {
            Some(next) => item_end(bytes@, at as int) == Some(next as int) && at < next
                <= bytes@.len(),
            None => item_end(bytes@, at as int) is None,
        },
{
    let mut decoder = minicbor::Decoder::new(bytes);
    decoder.set_position(at);
    decoder.skip().ok().map(|_| decoder.position())
}

/// `minicbor::Decoder::datatype` at some place.
#[verifier::external_body]
pub(crate) fn read_kind(bytes: &[u8], at: usize) -> (r: Option<ItemKind>)
    ensures
        r == kind_at(bytes@, at as int),
{
    let mut decoder = minicbor::Decoder::new(bytes);
    decoder.set_position(at);
    match decoder.datatype() {
        Ok(minicbor::data::Type::Break) => Some(ItemKind::Stop),
        Ok(minicbor::data::Type::Null) => Some(ItemKind::Null),
        Ok(_) => Some(ItemKind::Other),
        Err(_) => None,
    }
}

/// A number has at least one byte.
pub proof fn lemma_number_is_written(n: int)
    ensures
        number(n).len() > 0,
{
    reveal(head);
}

/// What stands as one piece and another stands as each of them.
pub proof fn lemma_stands_split(bytes: Seq<u8>, at: int, first: Seq<u8>, second: Seq<u8>)
    requires
        stands(bytes, at, first + second),
    ensures
        stands(bytes, at, first),
        stands(bytes, at + first.len(), second),
{
    let both = first + second;
    assert(bytes.subrange(at, at + first.len()) =~= both.subrange(0, first.len() as int)) by {
        assert(bytes.subrange(at, at + both.len()).subrange(0, first.len() as int) =~= bytes.subrange(
            at,
            at + first.len(),
        ));
    }
    assert(both.subrange(0, first.len() as int) =~= first);
    assert(bytes.subrange(at + first.len(), at + first.len() + second.len()) =~= both.subrange(
        first.len() as int,
        both.len() as int,
    )) by {
        assert(bytes.subrange(at, at + both.len()).subrange(first.len() as int, both.len() as int)
            =~= bytes.subrange(at + first.len(), at + both.len()));
    }
    assert(both.subrange(first.len() as int, both.len() as int) =~= second);
}

} // verus!
