//! What holds of fetched crates, however they are asked for and wherever they come from.

use vstd::prelude::*;
use super::addresses::{
    is_allowed_host, public_addresses, public_ip, public_ipv4, public_ipv6, HostAddress,
};
use super::binding::{ConnectOutcome, SocketBinding};
use super::download::{check_fetch_timeout, http_failure, ArchiveDownload};
use super::{
    following_bytes, take_archive, take_request, valid_request_timeout, CargoRegistryPackageV1,
    DependencyFetchClientError,
    DependencyFetchClientV1, DependencyFetchFailureV1, DependencyFetchRejectionCodeV1,
    DependencyFetchHttpConfigError, DependencyFetchRequestEnvelopeV1, DependencyFetchRequestV1, DependencyFetchResponseEnvelopeV1,
    DependencyFetchResponseV1, DependencyFetchServerConfigError, DependencyFetchServerConfigV1,
    DependencyFetchSocketError, FetchOutcome, FetchStep,
};
use crate::domain::identifiers::sha256;
use crate::paths::NodeFacts;
use crate::text::hex;
use crate::unique_id::Uuid;

verus! {

/// Only addresses of the public internet are connected to: none of this host, of a private network,
/// of a link, of a carrier, for documentation or measurements, for many hosts at once, or reserved.
/// Every other address is.
pub proof fn law_private_v4_addresses_are_refused(octets: [u8; 4], r: bool)
    requires
        call_ensures(public_ipv4, (octets,), r),
    ensures
        ({
            let a = octets@[0];
            let b = octets@[1];
            let c = octets@[2];
            !r <==> {
                ||| a == 0 || a == 10 || a == 127 || a >= 224
                ||| a == 100 && 64 <= b < 128
                ||| a == 169 && b == 254
                ||| a == 172 && 16 <= b < 32
                ||| a == 192 && b == 168
                ||| a == 192 && b == 0 && (c == 0 || c == 2)
                ||| a == 198 && (b == 18 || b == 19)
                ||| a == 198 && b == 51 && c == 100
                ||| a == 203 && b == 0 && c == 113
            }
        }),
{
}

/// The same holds of the longer addresses: none of this host, for many hosts, of a private network,
/// of a link or for documentation, and none that stands for a shorter address that is refused.
pub proof fn law_private_v6_addresses_are_refused(
    segments: [u16; 8],
    octets: [u8; 4],
    r: bool,
    shorter: bool,
)
    requires
        call_ensures(public_ipv6, (segments,), r),
        call_ensures(public_ipv4, (octets,), shorter),
        segments@[6] == octets@[0] * 256 + octets@[1],
        segments@[7] == octets@[2] * 256 + octets@[3],
    ensures
        ({
            let s = segments@;
            let zero_to_four = s[0] == 0 && s[1] == 0 && s[2] == 0 && s[3] == 0 && s[4] == 0;
            !r <==> {
                ||| zero_to_four && s[5] == 0 && s[6] == 0 && s[7] <= 1
                ||| s[0] >= 0xff00
                ||| 0xfc00 <= s[0] < 0xfe00
                ||| 0xfe80 <= s[0] < 0xfec0
                ||| s[0] == 0x2001 && s[1] == 0x0db8
                ||| zero_to_four && s[5] == 0xffff && !shorter
            }
        }),
{
}

/// An address of either length is judged as what it is.
pub proof fn law_addresses_are_judged_by_their_length(
    octets: [u8; 4],
    segments: [u16; 8],
    four: bool,
    six: bool,
    of_four: bool,
    of_six: bool,
)
    requires
        call_ensures(public_ipv4, (octets,), four),
        call_ensures(public_ipv6, (segments,), six),
        call_ensures(public_ip, (HostAddress::V4(octets),), of_four),
        call_ensures(public_ip, (HostAddress::V6(segments),), of_six),
    ensures
        of_four == four,
        of_six == six,
{
}

proof fn lemma_filtered(
    all: Seq<HostAddress>,
    keep: spec_fn(HostAddress) -> bool,
    address: HostAddress,
)
    ensures
        all.filter(keep).contains(address) <==> all.contains(address) && keep(address),
    decreases all.len(),
{
    reveal(Seq::filter);
    if all.len() > 0 {
        let head = all.drop_last();
        lemma_filtered(head, keep, address);
        let rest = head.filter(keep);
        let out = all.filter(keep);
        if all.contains(address) {
            let i = choose|i: int| 0 <= i < all.len() && all[i] == address;
            if i < head.len() {
                assert(head[i] == address);
            }
        }
        if head.contains(address) {
            let i = choose|i: int| 0 <= i < head.len() && head[i] == address;
            assert(all[i] == address);
        }
        assert(all[all.len() - 1] == all.last());
        if out.contains(address) {
            let i = choose|i: int| 0 <= i < out.len() && out[i] == address;
            if i < rest.len() {
                assert(rest[i] == address);
            }
        }
        if rest.contains(address) {
            let i = choose|i: int| 0 <= i < rest.len() && rest[i] == address;
            assert(out[i] == address);
        }
        if keep(all.last()) {
            assert(out[out.len() - 1] == all.last());
        }
    }
}

/// Of the addresses of a host all that are public are used and no other, and a host that has none is
/// not used at all.
pub proof fn law_all_public_addresses_are_used(
    addresses: Vec<HostAddress>,
    found: Option<Vec<HostAddress>>,
    address: HostAddress,
    public: bool,
)
    requires
        call_ensures(public_addresses, (&addresses,), found),
        call_ensures(public_ip, (address,), public),
    ensures
        found is Some ==> (found->0@.contains(address) <==> addresses@.contains(address) && public),
        found is None ==> !(addresses@.contains(address) && public),
        found is Some ==> found->0@.len() > 0,
{
    let keep = |address: HostAddress| !address.reserved();
    lemma_filtered(addresses@, keep, address);
    if addresses@.contains(address) && public {
        let out = addresses@.filter(keep);
        let i = choose|i: int| 0 <= i < out.len() && out[i] == address;
        assert(out.len() > 0);
    }
}

/// A crate that is not there is told as that and not asked for again; what failed for a moment, for
/// the number of requests or within the registry, may be asked for again, and nothing else.
pub proof fn law_only_passing_failures_are_retried(status: u16, r: DependencyFetchFailureV1)
    requires
        call_ensures(http_failure, (status,), r),
    ensures
        r.code is CrateNotFound <==> status == 404,
        r.code is CrateNotFound || r.code is CrateUnavailable,
        r.retryable <==> status == 429 || 500 <= status <= 599,
{
}

/// Only what was answered with success is downloaded, and never more than the limit.
pub proof fn law_downloads_stay_within_their_limit(
    status: u16,
    most: usize,
    r: Result<ArchiveDownload, DependencyFetchFailureV1>,
    download: ArchiveDownload,
    chunk: &[u8],
    longer: Result<ArchiveDownload, DependencyFetchFailureV1>,
)
    requires
        call_ensures(ArchiveDownload::begin, (status, None::<&str>, most), r),
        call_ensures(ArchiveDownload::take_chunk, (download, chunk), longer),
    ensures
        r is Ok <==> status == 200,
        r is Ok ==> r->Ok_0.content().len() == 0 && r->Ok_0.limit() == most,
        longer is Err ==> longer->Err_0.code is ArchiveTooLarge && download.content().len()
            + chunk@.len() > download.limit(),
        longer is Ok ==> {
            &&& longer->Ok_0.limit() == download.limit()
            &&& longer->Ok_0.content().len() <= download.limit()
            &&& longer->Ok_0.content() == download.content() + chunk@
        },
{
}

/// What was downloaded is handed on only whole and only where it is what the lock file says.
pub proof fn law_downloads_match_their_checksum(
    download: ArchiveDownload,
    package: CargoRegistryPackageV1,
    r: Result<Vec<u8>, DependencyFetchFailureV1>,
)
    requires
        call_ensures(ArchiveDownload::finish, (download, &package), r),
    ensures
        r is Ok <==> download.content().len() > 0 && hex(sha256(download.content()))
            == package.checksum@,
        r is Ok ==> r->Ok_0@ == download.content(),
        r is Err ==> r->Err_0.code is IntegrityMismatch && !r->Err_0.retryable,
{
}

/// Something is fetched only for a request of the version that is spoken, with an identifier, for a
/// package that is in order, and with nothing behind it; then it is the package that was asked for.
pub proof fn law_only_valid_requests_fetch(
    request: DependencyFetchRequestEnvelopeV1,
    package_valid: bool,
    trailing: usize,
    r: Result<FetchStep, DependencyFetchSocketError>,
)
    requires
        call_ensures(take_request, (request, package_valid, trailing), r),
    ensures
        r is Ok <==> trailing == 0,
        r matches Ok(FetchStep::Fetch { request_id, package }) ==> {
            &&& request.version == 1
            &&& !request.request_id.nil()
            &&& package_valid
            &&& request_id == request.request_id
            &&& request.request == DependencyFetchRequestV1::FetchCrate { package }
        },
        r is Ok && request.version == 1 && !request.request_id.nil() && package_valid
            && request.request is FetchCrate ==> r->Ok_0 is Fetch,
        r matches Ok(FetchStep::Write { envelope, archive }) ==> {
            &&& archive is None
            &&& envelope.request_id == request.request_id
            &&& envelope.version == 1
            &&& !(envelope.response is CrateAccepted)
            &&& envelope.response matches DependencyFetchResponseV1::Negotiated { selected_version }
                ==> {
                &&& selected_version == 1
                &&& request.version == 1
                &&& request.request is Negotiate
                &&& request.request->supported_versions@.contains(selected_version)
                &&& 1 <= request.request->supported_versions@.len() <= 8
            }
            &&& request.version != 1 ==> envelope.response == DependencyFetchResponseV1::Rejected {
                code: DependencyFetchRejectionCodeV1::UnsupportedProtocolVersion,
                retryable: false,
            }
        },
{
}

/// An archive is sent only where it is what the package is to be and no larger than the limit, and
/// then with its length and that checksum; what failed is told as it failed.
pub proof fn law_only_matching_archives_are_sent(
    request_id: Uuid,
    package: CargoRegistryPackageV1,
    outcome: FetchOutcome,
    most: usize,
    r: Result<FetchStep, DependencyFetchSocketError>,
)
    requires
        call_ensures(take_archive, (request_id, &package, outcome, most), r),
    ensures
        r matches Ok(FetchStep::Write { envelope, archive }) ==> {
            &&& envelope.request_id == request_id
            &&& envelope.version == 1
            &&& envelope.response is CrateAccepted <==> archive is Some
            &&& envelope.response is CrateAccepted || envelope.response is Rejected
            &&& archive is Some ==> {
                &&& outcome == FetchOutcome::Archive(archive->0)
                &&& 0 < archive->0@.len() <= most
                &&& hex(sha256(archive->0@)) == package.checksum@
                &&& envelope.response->archive_bytes == archive->0@.len() as u64
                &&& envelope.response->archive_digest@ == package.checksum@
            }
            &&& outcome matches FetchOutcome::Failure(failure) ==> envelope.response
                == DependencyFetchResponseV1::Rejected {
                code: failure.code,
                retryable: failure.retryable,
            }
        },
        !(r matches Ok(FetchStep::Fetch { .. })),
        outcome is DeadlineExceeded ==> r == Err::<FetchStep, DependencyFetchSocketError>(
            DependencyFetchSocketError::DeadlineExceeded,
        ),
        outcome matches FetchOutcome::Archive(archive) && 0 < archive@.len() <= most && hex(
            sha256(archive@),
        ) == package.checksum@ ==> (r matches Ok(FetchStep::Write { archive: sent, .. }) && sent
            is Some),
{
}

/// An answer is taken only for the request that was sent, and is followed by an archive only where a
/// crate was accepted, of the length that is told and within the limit.
pub proof fn law_answers_are_of_their_request(
    envelope: DependencyFetchResponseEnvelopeV1,
    request_id: Uuid,
    most: usize,
    r: Result<Option<usize>, DependencyFetchClientError>,
)
    requires
        call_ensures(following_bytes, (&envelope, request_id, most), r),
    ensures
        r is Ok ==> envelope.version == 1 && envelope.request_id == request_id,
        r matches Ok(Some(length)) ==> envelope.response is CrateAccepted && length
            == envelope.response->archive_bytes && 0 < length <= most,
        r matches Ok(None) ==> !(envelope.response is CrateAccepted),
        envelope.version == 1 && envelope.request_id == request_id && !(
        envelope.response is CrateAccepted) ==> r is Ok,
{
}

/// Only the one user that the server is for is served, and the server is for no administrator.
pub proof fn law_only_the_configured_user_is_served(
    allowed_uid: u32,
    max_connections: usize,
    request_timeout: u128,
    r: Result<DependencyFetchServerConfigV1, DependencyFetchServerConfigError>,
    uid: u32,
    admitted: Result<(), DependencyFetchSocketError>,
)
    requires
        call_ensures(
            DependencyFetchServerConfigV1::new,
            (allowed_uid, max_connections, request_timeout),
            r,
        ),
        r is Ok,
        call_ensures(DependencyFetchServerConfigV1::admit_peer, (&r->Ok_0, uid), admitted),
    ensures
        allowed_uid != 0 && allowed_uid != u32::MAX,
        1 <= max_connections <= 32,
        1_000_000_000 <= request_timeout <= 120_000_000_000,
        admitted is Ok <==> uid == allowed_uid,
{
}

/// A client asks for nothing but a version until it has agreed on one, and only then for a package
/// that is in order; it talks to no server but its own.
pub proof fn law_clients_agree_before_they_ask(
    client: DependencyFetchClientV1,
    package: CargoRegistryPackageV1,
    package_valid: bool,
    request_id: Uuid,
    r: Result<DependencyFetchRequestEnvelopeV1, DependencyFetchClientError>,
    uid: u32,
    admitted: Result<(), DependencyFetchClientError>,
)
    requires
        call_ensures(
            DependencyFetchClientV1::next_request,
            (&client, &package, package_valid, request_id),
            r,
        ),
        call_ensures(DependencyFetchClientV1::admit_server, (&client, uid), admitted),
    ensures
        r is Ok <==> package_valid,
        r matches Ok(envelope) ==> {
            &&& envelope.version == 1
            &&& envelope.request_id == request_id
            &&& envelope.request is FetchCrate <==> client.agreed()
            &&& envelope.request is FetchCrate ==> envelope.request
                == DependencyFetchRequestV1::FetchCrate { package }
            &&& envelope.request is Negotiate ==> envelope.request->supported_versions@ == seq![1u16]
        },
        admitted is Ok <==> uid == client.server(),
{
}

/// A socket is bound only in a directory of its own owner and group, which are not those of the
/// administrator, and only over nothing or over a socket that it left itself and that no one answers.
pub proof fn law_sockets_are_bound_in_their_own_directory(
    binding: SocketBinding,
    parent: NodeFacts,
    existing: Option<NodeFacts>,
    bound: NodeFacts,
    outcome: ConnectOutcome,
    in_parent: Result<(), DependencyFetchSocketError>,
    over: Result<(), DependencyFetchSocketError>,
    abandoned: Result<(), DependencyFetchSocketError>,
    is_bound: Result<(), DependencyFetchSocketError>,
)
    requires
        call_ensures(SocketBinding::check_parent, (&binding, &parent), in_parent),
        call_ensures(SocketBinding::check_existing, (&binding, &existing), over),
        call_ensures(SocketBinding::check_abandoned, (outcome,), abandoned),
        call_ensures(SocketBinding::check_bound, (&binding, &bound), is_bound),
    ensures
        in_parent is Ok ==> {
            &&& parent.is_directory && !parent.is_symlink
            &&& parent.uid == binding.of_owner() && parent.gid == binding.of_group()
            &&& binding.of_owner() != 0 && binding.of_group() != 0
            &&& parent.mode & 0o7777 == 0o750
        },
        over is Ok && existing is Some ==> {
            &&& existing->0.is_socket
            &&& existing->0.uid == binding.of_owner() && existing->0.gid == binding.of_group()
            &&& existing->0.mode & 0o777 == 0o660
        },
        existing is None ==> over is Ok,
        abandoned is Ok <==> outcome is Refused,
        is_bound is Ok <==> bound.is_socket && bound.uid == binding.of_owner() && bound.gid
            == binding.of_group(),
{
}

/// Only the registry is asked, and for between a second and two minutes at a time.
pub proof fn law_only_the_registry_is_asked(
    host: &str,
    allowed: bool,
    timeout: u128,
    fits: Result<(), DependencyFetchHttpConfigError>,
    valid: bool,
)
    requires
        call_ensures(valid_request_timeout, (timeout,), valid),
        call_ensures(is_allowed_host, (host,), allowed),
        call_ensures(check_fetch_timeout, (timeout,), fits),
    ensures
        allowed <==> host@ == "static.crates.io"@,
        fits is Ok <==> 1_000_000_000 <= timeout <= 120_000_000_000,
        valid <==> fits is Ok,
{
}

/// An archive is named by its package and its version, so that those of one package do not share a
/// name.
pub proof fn law_archives_are_named_by_version(
    a: CargoRegistryPackageV1,
    b: CargoRegistryPackageV1,
    a_name: String,
    b_name: String,
)
    requires
        call_ensures(CargoRegistryPackageV1::archive_file_name, (&a,), a_name),
        call_ensures(CargoRegistryPackageV1::archive_file_name, (&b,), b_name),
        a.name@ == b.name@,
    ensures
        a_name@ == b_name@ <==> a.version@ == b.version@,
        a_name@.len() == a.name@.len() + 1 + a.version@.len() + 6,
{
    reveal_strlit("-");
    reveal_strlit(".crate");
    let head = a.name@.len() as int + 1;
    if a_name@ == b_name@ {
        assert(a.version@ =~= a_name@.subrange(head, head + a.version@.len()));
        assert(b.version@ =~= b_name@.subrange(head, head + b.version@.len()));
    }
}

} // verus!
