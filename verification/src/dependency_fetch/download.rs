//! Downloading the archive of a crate: where it lies, and what is made of what comes.

use vstd::prelude::*;
use super::{
    valid_request_timeout,
    request_timeout_fits,
    CargoRegistryPackageV1,
    DependencyFetchFailureV1,
    DependencyFetchHttpConfigError,
    DependencyFetchRejectionCodeV1,
};
use crate::domain::identifiers::EvidenceDigest;
use crate::execution_receipt::measures::{read_unsigned, unsigned_of};
use crate::text::utf8;

verus! {

pub const CRATES_IO_ORIGIN: &'static str = "https://static.crates.io/crates/";

pub const HTTP_OK: u16 = 200;

pub const HTTP_NOT_FOUND: u16 = 404;

pub const HTTP_TOO_MANY_REQUESTS: u16 = 429;

pub const MAX_SEGMENT_BYTES: usize = 0x1000_0000;

/// Whether a time to wait for an archive can be set, in nanoseconds.
pub fn check_fetch_timeout(request_timeout: u128) -> (r: Result<(), DependencyFetchHttpConfigError>)
    ensures
        r is Ok == request_timeout_fits(request_timeout),
        r matches Err(error) ==> error is InvalidTimeout,
{
    if valid_request_timeout(request_timeout) {
        Ok(())
    } else {
        Err(DependencyFetchHttpConfigError::InvalidTimeout)
    }
}

/// A character stands for itself in a segment of an address.
pub open spec fn plain_char(c: char) -> bool {
    ||| 'a' <= c <= 'z'
    ||| 'A' <= c <= 'Z'
    ||| '0' <= c <= '9'
    ||| c == '-' || c == '_' || c == '.' || c == '+'
}

/// A text stands for itself as a segment of an address: it is made of such characters, and is not
/// what means this place or the one above.
pub open spec fn plain_segment(text: Seq<char>) -> bool {
    &&& text.len() > 0
    &&& text != "."@
    &&& text != ".."@
    &&& forall|i: int| 0 <= i < text.len() ==> plain_char(#[trigger] text[i])
}

/// The address that `url::Url` makes of a base and two more segments of its path.
pub uninterp spec fn url_with_segments(base: Seq<char>, first: Seq<char>, second: Seq<char>) -> Option<
    Seq<char>,
>;

/// `url::Url::parse`, and `pop_if_empty` and `push` on its `path_segments_mut`: an address with two
/// segments more. Under the place where archives lie, segments that stand for themselves are
/// appended as they are, with a slash between them. Addresses of more bytes than a `u32` can count
/// are left out.
#[verifier::external_body]
fn push_segments(base: &str, first: &str, second: &str) -> (r: Option<String>)
    requires
        utf8(base@).len() <= MAX_SEGMENT_BYTES,
        utf8(first@).len() <= MAX_SEGMENT_BYTES,
        utf8(second@).len() <= MAX_SEGMENT_BYTES,
    ensures
        match r {
            Some(address) => url_with_segments(base@, first@, second@) == Some(address@),
            None => url_with_segments(base@, first@, second@) is None,
        },
        base@ == CRATES_IO_ORIGIN@ && plain_segment(first@) && plain_segment(second@) ==> r is Some
            && (r->0)@ == base@ + first@ + "/"@ + second@,
{
    let mut address = url::Url::parse(base).ok()?;
    address.path_segments_mut().ok()?.pop_if_empty().push(first).push(second);
    Some(String::from(address))
}

impl CargoRegistryPackageV1 {
    /// The name of the file that the archive lies in.
    pub open spec fn file_name(self) -> Seq<char> {
        self.name@ + "-"@ + self.version@ + ".crate"@
    }

    pub fn archive_file_name(&self) -> (r: String)
        ensures
            r@ == self.file_name(),
    {
        let mut name = self.name.clone();
        name.append("-");
        name.append(self.version.as_str());
        name.append(".crate");
        name
    }

    /// The fields of the package are so short that an address can be made of them.
    pub open spec fn fits_address(self) -> bool {
        utf8(self.name@).len() <= MAX_SEGMENT_BYTES && utf8(self.file_name()).len()
            <= MAX_SEGMENT_BYTES
    }

    /// Where the archive lies.
    pub fn package_url(&self, package_valid: bool) -> (r: Result<String, DependencyFetchFailureV1>)
        requires
            self.fits_address(),
        ensures
            if !package_valid {
                r == Err::<String, DependencyFetchFailureV1>(
                    DependencyFetchFailureV1 {
                        code: DependencyFetchRejectionCodeV1::InvalidRequest,
                        retryable: false,
                    },
                )
            } else {
                match url_with_segments(CRATES_IO_ORIGIN@, self.name@, self.file_name()) {
                    Some(address) => r matches Ok(found) && found@ == address,
                    None => r == Err::<String, DependencyFetchFailureV1>(
                        DependencyFetchFailureV1 {
                            code: DependencyFetchRejectionCodeV1::CrateUnavailable,
                            retryable: false,
                        },
                    ),
                }
            },
            package_valid && plain_segment(self.name@) && plain_segment(self.file_name()) ==> r is Ok
                && r->Ok_0@ == CRATES_IO_ORIGIN@ + self.name@ + "/"@ + self.file_name(),
    {
        if !package_valid {
            return Err(
                DependencyFetchFailureV1::new(DependencyFetchRejectionCodeV1::InvalidRequest, false),
            );
        }
        let file = self.archive_file_name();
        proof {
            lemma_origin_is_short();
        }
        match push_segments(CRATES_IO_ORIGIN, self.name.as_str(), file.as_str()) {
            Some(address) => Ok(address),
            None => Err(
                DependencyFetchFailureV1::new(
                    DependencyFetchRejectionCodeV1::CrateUnavailable,
                    false,
                ),
            ),
        }
    }
}

proof fn lemma_origin_is_short()
    ensures
        utf8(CRATES_IO_ORIGIN@).len() <= MAX_SEGMENT_BYTES,
{
    reveal_strlit("https://static.crates.io/crates/");
    vstd::utf8::is_ascii_chars_encode_utf8("https://static.crates.io/crates/"@);
}

/// What an answer without an archive means: the crate is not there, or cannot be had, perhaps only
/// now.
pub open spec fn failure_of(status: u16) -> DependencyFetchFailureV1 {
    if status == HTTP_NOT_FOUND {
        DependencyFetchFailureV1 {
            code: DependencyFetchRejectionCodeV1::CrateNotFound,
            retryable: false,
        }
    } else {
        DependencyFetchFailureV1 {
            code: DependencyFetchRejectionCodeV1::CrateUnavailable,
            retryable: status == HTTP_TOO_MANY_REQUESTS || 500 <= status < 600,
        }
    }
}

pub fn http_failure(status: u16) -> (r: DependencyFetchFailureV1)
    ensures
        r == failure_of(status),
{
    if status == HTTP_NOT_FOUND {
        DependencyFetchFailureV1::new(DependencyFetchRejectionCodeV1::CrateNotFound, false)
    } else {
        DependencyFetchFailureV1::new(
            DependencyFetchRejectionCodeV1::CrateUnavailable,
            status == HTTP_TOO_MANY_REQUESTS || (status >= 500 && status < 600),
        )
    }
}

/// The failure of an archive that is too large.
pub open spec fn too_large() -> DependencyFetchFailureV1 {
    DependencyFetchFailureV1 {
        code: DependencyFetchRejectionCodeV1::ArchiveTooLarge,
        retryable: false,
    }
}

/// A length that is announced cannot be the one of an archive. A text that is no number announces
/// nothing.
pub open spec fn announces_too_much(length: Option<Seq<char>>, most: usize) -> bool {
    match length {
        Some(text) => match unsigned_of(text) {
            Some(bytes) => bytes == 0 || bytes > most,
            None => false,
        },
        None => false,
    }
}

/// An archive that is being downloaded, and how large it may be.
#[derive(Debug)]
pub struct ArchiveDownload {
    bytes: Vec<u8>,
    most: usize,
}

impl ArchiveDownload {
    pub closed spec fn content(self) -> Seq<u8> {
        self.bytes@
    }

    pub closed spec fn limit(self) -> usize {
        self.most
    }

    #[verifier::type_invariant]
    spec fn wf(self) -> bool {
        self.bytes@.len() <= self.most
    }

    /// Begins a download once an answer came, with the length that it announces.
    pub fn begin(status: u16, length: Option<&str>, most: usize) -> (r: Result<
        ArchiveDownload,
        DependencyFetchFailureV1,
    >)
        ensures
            ({
                let announced = match length {
                    Some(text) => Some(text@),
                    None => None,
                };
                match r {
                    Ok(download) => {
                        &&& status == HTTP_OK
                        &&& !announces_too_much(announced, most)
                        &&& download.content() == Seq::<u8>::empty()
                        &&& download.limit() == most
                    },
                    Err(failure) => if status != HTTP_OK {
                        failure == failure_of(status)
                    } else {
                        announces_too_much(announced, most) && failure == too_large()
                    },
                }
            }),
    {
        if status != HTTP_OK {
            return Err(http_failure(status));
        }
        match length {
            Some(text) => match read_unsigned(text) {
                Some(bytes) => if bytes == 0 || bytes > most as u64 {
                    return Err(
                        DependencyFetchFailureV1::new(
                            DependencyFetchRejectionCodeV1::ArchiveTooLarge,
                            false,
                        ),
                    );
                },
                None => {},
            },
            None => {},
        }
        Ok(ArchiveDownload { bytes: Vec::new(), most })
    }

    /// Takes a chunk of the archive, if it does not grow too large with it.
    pub fn take_chunk(self, chunk: &[u8]) -> (r: Result<ArchiveDownload, DependencyFetchFailureV1>)
        ensures
            match r {
                Ok(download) => {
                    &&& download.content() == self.content() + chunk@
                    &&& download.limit() == self.limit()
                    &&& download.content().len() <= download.limit()
                },
                Err(failure) => failure == too_large() && self.content().len() + chunk@.len()
                    > self.limit(),
            },
    {
        proof {
            use_type_invariant(&self);
        }
        if chunk.len() > self.most - self.bytes.len() {
            return Err(
                DependencyFetchFailureV1::new(
                    DependencyFetchRejectionCodeV1::ArchiveTooLarge,
                    false,
                ),
            );
        }
        let most = self.most;
        let mut bytes = self.bytes;
        bytes.extend_from_slice(chunk);
        assert(bytes@ =~= self.content() + chunk@);
        Ok(ArchiveDownload { bytes, most })
    }

    /// The archive, once all of it came.
    pub fn finish(self, package: &CargoRegistryPackageV1) -> (r: Result<
        Vec<u8>,
        DependencyFetchFailureV1,
    >)
        ensures
            match r {
                Ok(archive) => {
                    &&& archive@ == self.content()
                    &&& 0 < archive@.len() <= self.limit()
                    &&& package.is_of(archive@)
                },
                Err(failure) => {
                    &&& failure == (DependencyFetchFailureV1 {
                        code: DependencyFetchRejectionCodeV1::IntegrityMismatch,
                        retryable: false,
                    })
                    &&& self.content().len() == 0 || !package.is_of(self.content())
                },
            },
    {
        proof {
            use_type_invariant(&self);
        }
        let digest = EvidenceDigest::sha256(self.bytes.as_slice());
        if self.bytes.len() == 0 || digest != package.checksum {
            Err(
                DependencyFetchFailureV1::new(
                    DependencyFetchRejectionCodeV1::IntegrityMismatch,
                    false,
                ),
            )
        } else {
            Ok(self.bytes)
        }
    }
}

} // verus!
