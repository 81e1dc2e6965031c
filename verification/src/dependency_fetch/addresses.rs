//! Addresses that a crate may be fetched from: only those that are routed publicly.

use vstd::prelude::*;
use crate::text::same_text;

verus! {

pub const CRATES_IO_HOST: &'static str = "static.crates.io";

/// An address of a host, as its octets or its segments.
#[derive(Clone, Copy, Debug, PartialEq, Eq)]
pub enum HostAddress {
    V4([u8; 4]),
    V6([u16; 8]),
}

/// The number of an address of four octets.
pub open spec fn v4_number(octets: Seq<u8>) -> int {
    octets[0] * 0x100_0000 + octets[1] * 0x1_0000 + octets[2] * 0x100 + octets[3]
}

/// An address lies in the block that begins at some octets, with as many addresses.
pub open spec fn in_v4_block(number: int, a: int, b: int, c: int, size: int) -> bool {
    let base = a * 0x100_0000 + b * 0x1_0000 + c * 0x100;
    base <= number < base + size
}

/// An address of four octets is not routed publicly: it means this network, it is private, shared
/// between carriers, the host itself, local to a link, for protocols, for documentation, for
/// measuring, or among those that mean many hosts or are reserved.
pub open spec fn reserved_v4(number: int) -> bool {
    ||| in_v4_block(number, 0, 0, 0, 0x100_0000)
    ||| in_v4_block(number, 10, 0, 0, 0x100_0000)
    ||| in_v4_block(number, 100, 64, 0, 0x40_0000)
    ||| in_v4_block(number, 127, 0, 0, 0x100_0000)
    ||| in_v4_block(number, 169, 254, 0, 0x1_0000)
    ||| in_v4_block(number, 172, 16, 0, 0x10_0000)
    ||| in_v4_block(number, 192, 0, 0, 0x100)
    ||| in_v4_block(number, 192, 0, 2, 0x100)
    ||| in_v4_block(number, 192, 168, 0, 0x1_0000)
    ||| in_v4_block(number, 198, 18, 0, 0x2_0000)
    ||| in_v4_block(number, 198, 51, 100, 0x100)
    ||| in_v4_block(number, 203, 0, 113, 0x100)
    ||| in_v4_block(number, 224, 0, 0, 0x2000_0000)
}

/// Whether an address of four octets is routed publicly.
pub fn public_ipv4(octets: [u8; 4]) -> (r: bool)
    ensures
        r == !reserved_v4(v4_number(octets@)),
{
    let a = octets[0];
    let b = octets[1];
    let c = octets[2];
    let is_private = a == 10 || (a == 172 && b >= 16 && b <= 31) || (a == 192 && b == 168);
    let is_special = a == 127 || (a == 169 && b == 254) || a == 0 || a >= 224;
    let is_shared = a == 100 && b >= 64 && b <= 127;
    let is_documentation = (a == 192 && b == 0 && (c == 0 || c == 2)) || (a == 198 && b == 51 && c
        == 100) || (a == 203 && b == 0 && c == 113);
    let is_measuring = a == 198 && (b == 18 || b == 19);
    !is_private && !is_special && !is_shared && !is_documentation && !is_measuring
}

/// All segments of an address from some place up to another are zero.
pub open spec fn zeros(segments: Seq<u16>, from: int, to: int) -> bool {
    forall|i: int| from <= i < to ==> segments[i] == 0
}

/// An address of eight segments that stands for one of four octets.
pub open spec fn mapped(segments: Seq<u16>) -> bool {
    zeros(segments, 0, 5) && segments[5] == 0xffff
}

/// The number of the address of four octets that an address of eight segments stands for.
pub open spec fn mapped_number(segments: Seq<u16>) -> int {
    segments[6] * 0x1_0000 + segments[7]
}

/// An address of eight segments is not routed publicly: it is no address or the host itself, it
/// means many hosts, it is private, local to a link or for documentation, or it stands for an
/// address of four octets that is not.
pub open spec fn reserved_v6(segments: Seq<u16>) -> bool {
    ||| zeros(segments, 0, 7) && segments[7] <= 1
    ||| segments[0] >= 0xff00
    ||| 0xfc00 <= segments[0] < 0xfe00
    ||| 0xfe80 <= segments[0] < 0xfec0
    ||| segments[0] == 0x2001 && segments[1] == 0x0db8
    ||| mapped(segments) && reserved_v4(mapped_number(segments))
}

/// Whether an address of eight segments is routed publicly.
pub fn public_ipv6(segments: [u16; 8]) -> (r: bool)
    ensures
        r == !reserved_v6(segments@),
{
    let first = segments[0];
    let leading = first == 0 && segments[1] == 0 && segments[2] == 0 && segments[3] == 0
        && segments[4] == 0;
    let denied = (leading && segments[5] == 0 && segments[6] == 0 && segments[7] <= 1) || first
        >= 0xff00 || (first >= 0xfc00 && first < 0xfe00) || (first >= 0xfe80 && first < 0xfec0) || (
    first == 0x2001 && segments[1] == 0x0db8);
    assert(zeros(segments@, 0, 5) == leading);
    assert(zeros(segments@, 0, 7) == (leading && segments@[5] == 0 && segments@[6] == 0));
    if denied {
        return false;
    }
    if leading && segments[5] == 0xffff {
        let octets: [u8; 4] = [
            (segments[6] / 0x100) as u8,
            (segments[6] % 0x100) as u8,
            (segments[7] / 0x100) as u8,
            (segments[7] % 0x100) as u8,
        ];
        assert(v4_number(octets@) == mapped_number(segments@));
        return public_ipv4(octets);
    }
    true
}

impl HostAddress {
    /// An address is not routed publicly.
    pub open spec fn reserved(self) -> bool {
        match self {
            HostAddress::V4(octets) => reserved_v4(v4_number(octets@)),
            HostAddress::V6(segments) => reserved_v6(segments@),
        }
    }
}

/// Whether an address is routed publicly.
pub fn public_ip(address: HostAddress) -> (r: bool)
    ensures
        r == !address.reserved(),
{
    match address {
        HostAddress::V4(octets) => public_ipv4(octets),
        HostAddress::V6(segments) => public_ipv6(segments),
    }
}

/// Whether crates are fetched from a host.
pub fn is_allowed_host(host: &str) -> (r: bool)
    ensures
        r == (host@ == CRATES_IO_HOST@),
{
    same_text(host, CRATES_IO_HOST)
}

/// Those addresses that are routed publicly.
pub open spec fn public_among(addresses: Seq<HostAddress>) -> Seq<HostAddress> {
    addresses.filter(|address: HostAddress| !address.reserved())
}

/// The addresses that a host may be reached at: those that are routed publicly, if there is one.
pub fn public_addresses(addresses: &Vec<HostAddress>) -> (r: Option<Vec<HostAddress>>)
    ensures
        match r {
            Some(found) => found@ == public_among(addresses@) && found@.len() > 0,
            None => public_among(addresses@).len() == 0,
        },
{
    let mut found: Vec<HostAddress> = Vec::new();
    let mut i: usize = 0;
    proof {
        reveal(Seq::filter);
    }
    while i < addresses.len()
        invariant
            i <= addresses.len(),
            found@ == public_among(addresses@.take(i as int)),
        decreases addresses.len() - i,
    {
        let address = addresses[i];
        proof {
            reveal(Seq::filter);
            assert(addresses@.take(i + 1).drop_last() =~= addresses@.take(i as int));
            assert(addresses@.take(i + 1).last() == address);
        }
        if public_ip(address) {
            found.push(address);
        }
        i += 1;
    }
    assert(addresses@.take(i as int) =~= addresses@);
    if found.len() == 0 {
        None
    } else {
        Some(found)
    }
}

} // verus!
