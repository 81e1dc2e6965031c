use rdashboard::dependency_fetch::addresses::{is_allowed_host, public_addresses, public_ip, HostAddress};
use rdashboard::dependency_fetch::binding::{ConnectOutcome, SocketBinding};
use rdashboard::dependency_fetch::download::{check_fetch_timeout, http_failure, ArchiveDownload};
use rdashboard::dependency_fetch::{
    check_answer_end, following_bytes, take_archive, take_request, CargoRegistryPackageV1,
    DependencyFetchClientError, DependencyFetchClientV1, DependencyFetchExchangeV1,
    DependencyFetchFailureV1, DependencyFetchHttpConfigError, DependencyFetchRejectionCodeV1,
    DependencyFetchRequestEnvelopeV1, DependencyFetchRequestV1, DependencyFetchResponseEnvelopeV1,
    DependencyFetchResponseV1, DependencyFetchServerConfigError, DependencyFetchServerConfigV1,
    DependencyFetchSocketError, DependencyFetchValidationError, FetchOutcome, FetchStep, FrameError,
    DEPENDENCY_FETCH_PROTOCOL_VERSION,
};
use rdashboard::domain::identifiers::EvidenceDigest;
use rdashboard::paths::{NodeFacts, SocketCleanupGuard};
use rdashboard::unique_id::Uuid;

const SECOND: u128 = 1_000_000_000;
const LIMIT: usize = 1024;

fn package(archive: &[u8]) -> CargoRegistryPackageV1 {
    CargoRegistryPackageV1 {
        name: "demo-crate".to_owned(),
        version: "1.2.3".to_owned(),
        checksum: EvidenceDigest::sha256(archive),
    }
}

fn address(text: &str) -> HostAddress {
    if let Some(segments) = v6(text) {
        return HostAddress::V6(segments);
    }
    let mut octets = [0u8; 4];
    for (at, part) in text.split('.').enumerate() {
        octets[at] = part.parse().expect("test IP");
    }
    HostAddress::V4(octets)
}

fn v6(text: &str) -> Option<[u16; 8]> {
    let (left, right) = text.split_once("::")?;
    let mut segments = [0u16; 8];
    let read = |part: &str| u16::from_str_radix(part, 16).expect("test IP");
    for (at, part) in left.split(':').filter(|part| !part.is_empty()).enumerate() {
        segments[at] = read(part);
    }
    let tail: Vec<u16> = right.split(':').filter(|part| !part.is_empty()).map(read).collect();
    let start = 8 - tail.len();
    for (at, part) in tail.into_iter().enumerate() {
        segments[start + at] = part;
    }
    Some(segments)
}

#[test]
fn fixed_url_cannot_be_redirected_by_package_fields() {
    let package = CargoRegistryPackageV1 {
        name: "demo-crate".to_owned(),
        version: "1.2.3".to_owned(),
        checksum: EvidenceDigest::parse(&"a".repeat(64)).expect("checksum"),
    };
    assert_eq!(
        package.package_url(true).expect("fixed URL").as_str(),
        "https://static.crates.io/crates/demo-crate/demo-crate-1.2.3.crate"
    );
    let mut invalid = package;
    invalid.name = "../escape".to_owned();
    assert!(invalid.package_url(false).is_err());
    let unnamed = invalid.package_url(true).expect("escaped URL");
    assert_eq!(
        unnamed,
        "https://static.crates.io/crates/..%2Fescape/..%2Fescape-1.2.3.crate"
    );
}

#[test]
fn resolver_rejects_private_loopback_link_local_and_documentation_routes() {
    for denied in [
        "127.0.0.1",
        "10.0.0.1",
        "100.64.0.1",
        "169.254.1.1",
        "192.0.2.1",
        "198.51.100.1",
        "203.0.113.1",
        "::1",
        "fc00::1",
        "fe80::1",
        "2001:db8::1",
    ] {
        assert!(!public_ip(address(denied)), "{denied}");
    }
    for allowed in ["1.1.1.1", "8.8.8.8", "2606:4700:4700::1111"] {
        assert!(public_ip(address(allowed)), "{allowed}");
    }
}

#[test]
fn addresses_at_the_edges_of_blocks() {
    for denied in [
        "0.0.0.0", "172.16.0.0", "172.31.255.255", "192.168.0.1", "192.0.0.255", "100.127.255.255",
        "198.18.0.0", "198.19.255.255", "224.0.0.1", "255.255.255.255", "::", "ff02::1",
        "fdff::1", "febf::1",
    ] {
        assert!(!public_ip(address(denied)), "{denied}");
    }
    for allowed in [
        "172.15.255.255", "172.32.0.0", "192.0.1.0", "192.0.3.0", "100.63.255.255", "100.128.0.0",
        "198.17.255.255", "198.20.0.0", "223.255.255.255", "11.0.0.0", "2001:db7::1", "fec0::1",
        "::2",
    ] {
        assert!(public_ip(address(allowed)), "{allowed}");
    }
    assert!(!public_ip(HostAddress::V6([0, 0, 0, 0, 0, 0xffff, 0x7f00, 1])));
    assert!(public_ip(HostAddress::V6([0, 0, 0, 0, 0, 0xffff, 0x0808, 0x0808])));
}

#[test]
fn only_public_addresses_of_the_registry_are_used() {
    assert!(is_allowed_host("static.crates.io"));
    assert!(!is_allowed_host("static.crates.io.example"));
    let found = public_addresses(&vec![address("10.0.0.1"), address("8.8.8.8"), address("::1")])
        .expect("one public address");
    assert_eq!(found, vec![address("8.8.8.8")]);
    assert!(public_addresses(&vec![address("10.0.0.1")]).is_none());
    assert!(public_addresses(&Vec::new()).is_none());
}

#[test]
fn http_statuses_say_whether_to_ask_again() {
    let unavailable = DependencyFetchRejectionCodeV1::CrateUnavailable;
    assert_eq!(
        http_failure(404),
        DependencyFetchFailureV1::new(DependencyFetchRejectionCodeV1::CrateNotFound, false)
    );
    for (status, retryable) in [(429, true), (500, true), (599, true), (403, false), (302, false), (600, false)] {
        assert_eq!(http_failure(status), DependencyFetchFailureV1::new(unavailable, retryable));
    }
}

#[test]
fn downloads_are_bounded_and_exact() {
    let archive = b"exact crate archive";
    let wanted = package(archive);
    let mut download = ArchiveDownload::begin(200, Some("19"), LIMIT).expect("begins");
    download = download.take_chunk(b"exact ").expect("chunk");
    download = download.take_chunk(b"crate archive").expect("chunk");
    assert_eq!(download.finish(&wanted).expect("archive"), archive.to_vec());

    let too_large = DependencyFetchFailureV1::new(DependencyFetchRejectionCodeV1::ArchiveTooLarge, false);
    assert_eq!(ArchiveDownload::begin(200, Some("0"), LIMIT).err(), Some(too_large));
    assert_eq!(ArchiveDownload::begin(200, Some("1025"), LIMIT).err(), Some(too_large));
    assert!(ArchiveDownload::begin(200, Some("unknown"), LIMIT).is_ok());
    assert_eq!(ArchiveDownload::begin(404, None, LIMIT).err(), Some(http_failure(404)));
    let full = ArchiveDownload::begin(200, None, 4).expect("begins").take_chunk(b"1234").expect("fits");
    assert_eq!(full.take_chunk(b"5").err(), Some(too_large));
    let mismatch = DependencyFetchFailureV1::new(DependencyFetchRejectionCodeV1::IntegrityMismatch, false);
    let empty = ArchiveDownload::begin(200, None, LIMIT).expect("begins");
    assert_eq!(empty.finish(&wanted).err(), Some(mismatch));
    let other = ArchiveDownload::begin(200, None, LIMIT).expect("begins").take_chunk(b"other").expect("fits");
    assert_eq!(other.finish(&wanted).err(), Some(mismatch));
}

#[test]
fn configurations_are_bounded() {
    assert!(DependencyFetchServerConfigV1::new(1000, 1, SECOND).is_ok());
    for (uid, connections, timeout) in [
        (0, 1, SECOND),
        (u32::MAX, 1, SECOND),
        (1000, 0, SECOND),
        (1000, 33, SECOND),
        (1000, 1, SECOND - 1),
        (1000, 1, 120 * SECOND + 1),
    ] {
        assert_eq!(
            DependencyFetchServerConfigV1::new(uid, connections, timeout).err(),
            Some(DependencyFetchServerConfigError::InvalidConfiguration)
        );
    }
    assert_eq!(check_fetch_timeout(0), Err(DependencyFetchHttpConfigError::InvalidTimeout));
    assert_eq!(check_fetch_timeout(5 * SECOND), Ok(()));
    assert!(DependencyFetchClientV1::installed(1000, SECOND).is_ok());
    assert!(DependencyFetchClientV1::installed(0, SECOND).is_err());
    assert!(DependencyFetchClientV1::new("relative.sock".to_owned(), 1000, SECOND).is_err());
    assert!(DependencyFetchClientV1::new("/run/../fetch.sock".to_owned(), 1000, SECOND).is_err());
    for path in ["/run//fetch.sock", "/run/./fetch.sock", "/run/", "/"] {
        let client = DependencyFetchClientV1::new(path.to_owned(), 1000, SECOND).expect("client");
        assert_eq!(client.socket_path(), path);
    }
    let long = format!("/{}", "a".repeat(512));
    assert!(DependencyFetchClientV1::new(long, 1000, SECOND).is_err());
}

fn request(request: DependencyFetchRequestV1) -> DependencyFetchRequestEnvelopeV1 {
    DependencyFetchRequestEnvelopeV1 {
        version: DEPENDENCY_FETCH_PROTOCOL_VERSION,
        request_id: Uuid::from_u128(7),
        request,
    }
}

fn exchange_of(step: FetchStep) -> (DependencyFetchResponseEnvelopeV1, Option<Vec<u8>>) {
    match step {
        FetchStep::Write { envelope, archive } => (envelope, archive),
        FetchStep::Fetch { .. } => panic!("nothing is written"),
    }
}

#[test]
fn peer_authenticated_protocol_returns_only_the_exact_archive() {
    let archive = b"exact crate archive".to_vec();
    let wanted = package(&archive);
    let mut client = DependencyFetchClientV1::installed(1000, SECOND).expect("client");
    assert!(client.admit_server(1000).is_ok());
    assert_eq!(
        client.admit_server(1001),
        Err(DependencyFetchClientError::UnauthorizedServer { received: 1001 })
    );

    let first = client.next_request(&wanted, true, Uuid::from_u128(1)).expect("request");
    let (envelope, none) = exchange_of(take_request(first, true, 0).expect("answer"));
    assert!(matches!(following_bytes(&envelope, Uuid::from_u128(1), LIMIT), Ok(None)));
    client
        .take_negotiation(DependencyFetchExchangeV1 { response: envelope.response, archive: none })
        .expect("agreed");

    let second = client.next_request(&wanted, true, Uuid::from_u128(2)).expect("request");
    let (request_id, asked) = match take_request(second, true, 0).expect("fetch") {
        FetchStep::Fetch { request_id, package } => (request_id, package),
        FetchStep::Write { .. } => panic!("nothing was fetched"),
    };
    let (envelope, sent) = exchange_of(
        take_archive(request_id, &asked, FetchOutcome::Archive(archive.clone()), LIMIT).expect("answer"),
    );
    assert!(matches!(following_bytes(&envelope, Uuid::from_u128(2), LIMIT), Ok(Some(19))));
    assert!(following_bytes(&envelope, Uuid::from_u128(3), LIMIT).is_err());
    assert!(following_bytes(&envelope, Uuid::from_u128(2), 18).is_err());
    assert!(check_answer_end(0).is_ok());
    assert!(check_answer_end(1).is_err());
    let taken = client
        .take_crate(&wanted, DependencyFetchExchangeV1 { response: envelope.response, archive: sent })
        .expect("fetch exact crate");
    assert_eq!(taken, archive);
    assert!(matches!(
        client.next_request(&wanted, false, Uuid::from_u128(4)),
        Err(DependencyFetchClientError::InvalidPackage)
    ));
}

#[test]
fn other_archives_are_rejected() {
    let wanted = package(b"exact crate archive");
    let id = Uuid::from_u128(7);
    for (outcome, code, retryable) in [
        (FetchOutcome::Archive(b"other".to_vec()), DependencyFetchRejectionCodeV1::IntegrityMismatch, false),
        (FetchOutcome::Archive(Vec::new()), DependencyFetchRejectionCodeV1::IntegrityMismatch, false),
        (FetchOutcome::Archive(vec![0; LIMIT + 1]), DependencyFetchRejectionCodeV1::ArchiveTooLarge, false),
        (
            FetchOutcome::Failure(DependencyFetchFailureV1::new(
                DependencyFetchRejectionCodeV1::CrateUnavailable,
                true,
            )),
            DependencyFetchRejectionCodeV1::CrateUnavailable,
            true,
        ),
    ] {
        let (envelope, archive) = exchange_of(take_archive(id, &wanted, outcome, LIMIT).expect("answer"));
        assert!(archive.is_none());
        assert!(matches!(
            envelope.response,
            DependencyFetchResponseV1::Rejected { code: found, retryable: again } if found == code && again == retryable
        ));
    }
    assert_eq!(
        take_archive(id, &wanted, FetchOutcome::DeadlineExceeded, LIMIT).err(),
        Some(DependencyFetchSocketError::DeadlineExceeded)
    );
    let mut client = DependencyFetchClientV1::installed(1000, SECOND).expect("client");
    let forged = DependencyFetchExchangeV1 {
        response: DependencyFetchResponseV1::CrateAccepted {
            archive_bytes: 5,
            archive_digest: wanted.checksum.clone(),
        },
        archive: Some(b"other".to_vec()),
    };
    assert_eq!(client.take_crate(&wanted, forged), Err(DependencyFetchClientError::InvalidResponse));
}

#[test]
fn requests_are_validated() {
    let wanted = || DependencyFetchRequestV1::FetchCrate { package: package(b"x") };
    let mut old = request(wanted());
    old.version = 2;
    assert_eq!(old.validate(true), Err(DependencyFetchValidationError::UnsupportedVersion(2)));
    let mut nil = request(wanted());
    nil.request_id = Uuid::from_u128(0);
    assert_eq!(nil.validate(true), Err(DependencyFetchValidationError::NilRequestId));
    assert_eq!(request(wanted()).validate(false), Err(DependencyFetchValidationError::InvalidPackage));
    assert_eq!(request(wanted()).validate(true), Ok(()));
    for count in [0, 9] {
        let versions = DependencyFetchRequestV1::Negotiate { supported_versions: vec![1; count] };
        assert_eq!(request(versions).validate(true), Err(DependencyFetchValidationError::InvalidVersionSet));
    }
    let unknown = DependencyFetchRequestV1::Negotiate { supported_versions: vec![2, 3] };
    let (envelope, _) = exchange_of(take_request(request(unknown), true, 0).expect("answer"));
    assert!(matches!(
        envelope.response,
        DependencyFetchResponseV1::Rejected {
            code: DependencyFetchRejectionCodeV1::UnsupportedProtocolVersion,
            retryable: false,
        }
    ));
    assert_eq!(
        take_request(request(wanted()), true, 1).err(),
        Some(DependencyFetchSocketError::Frame(FrameError::TrailingBytes(1)))
    );
}

#[test]
fn server_checks_peer_uid_before_decoding() {
    let config = DependencyFetchServerConfigV1::new(1000, 1, SECOND).expect("server config");
    assert_eq!(config.admit_peer(1000), Ok(()));
    assert_eq!(
        config.admit_peer(1001),
        Err(DependencyFetchSocketError::UnauthorizedPeer { received: 1001 })
    );
}

fn socket(mode: u32) -> NodeFacts {
    NodeFacts {
        is_directory: false,
        is_symlink: false,
        is_socket: true,
        uid: 5,
        gid: 6,
        mode,
        device: 1,
        inode: 2,
    }
}

#[test]
fn sockets_are_bound_only_in_place_of_abandoned_ones() {
    let begin = || SocketBinding::begin("/run/fetch.sock".to_owned(), 5, 6).expect("path");
    let directory = NodeFacts { is_directory: true, is_socket: false, mode: 0o40750, ..socket(0) };
    assert!(begin().check_parent(&directory).is_ok());
    let open = NodeFacts { mode: 0o40755, ..directory };
    assert_eq!(begin().check_parent(&open), Err(DependencyFetchSocketError::UnsafeBindParent));
    assert!(begin().check_existing(&None).is_ok());
    assert!(begin().check_existing(&Some(socket(0o140660))).is_ok());
    assert_eq!(
        begin().check_existing(&Some(socket(0o140666))),
        Err(DependencyFetchSocketError::SocketPathExists)
    );
    assert!(SocketBinding::check_abandoned(ConnectOutcome::Refused).is_ok());
    assert_eq!(
        SocketBinding::check_abandoned(ConnectOutcome::Connected),
        Err(DependencyFetchSocketError::SocketPathExists)
    );
    let moved = NodeFacts { inode: 3, ..socket(0o140660) };
    assert!(SocketBinding::check_unchanged(&socket(0o140660), &socket(0o140660)).is_ok());
    assert_eq!(
        SocketBinding::check_unchanged(&socket(0o140660), &moved),
        Err(DependencyFetchSocketError::SocketPathChanged)
    );
    assert!(begin().check_bound(&socket(0)).is_ok());
    let guard = begin().finish(&socket(0), &socket(0o140660)).expect("bound");
    assert!(guard.clears(&Some(socket(0o140660))));
    assert!(!guard.clears(&Some(moved)));
    assert!(!guard.clears(&None));
    assert!(begin().finish(&socket(0), &moved).is_err());
    assert!(SocketBinding::begin("/".to_owned(), 5, 6).is_err());
    assert!(SocketBinding::begin("/run//fetch.sock".to_owned(), 5, 6).is_ok());
    assert!(SocketBinding::begin("/run/../fetch.sock".to_owned(), 5, 6).is_err());
    let other = SocketCleanupGuard { path: "/run/fetch.sock".to_owned(), device: 9, inode: 2 };
    assert!(!other.clears(&Some(socket(0))));
}

#[test]
fn failures_are_told_in_words() {
    assert_eq!(
        DependencyFetchValidationError::NilRequestId.message(),
        "dependency fetch request ID must not be nil"
    );
    assert_eq!(
        DependencyFetchSocketError::UnsafeBindParent.message(),
        "dependency fetch socket parent is unsafe"
    );
    assert_eq!(
        DependencyFetchClientError::InvalidResponse.message(),
        "dependency fetch response is invalid"
    );
}
