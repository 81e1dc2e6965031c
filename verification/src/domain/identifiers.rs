//! Identifiers that travel as text and are checked once, where they come in.

use std::str::FromStr;
use vstd::prelude::*;
use vstd::std_specs::cmp::PartialEqSpecImpl;
use vstd::utf8::{is_ascii_chars, is_ascii_chars_encode_utf8};
use crate::json::{
    canonical_bytes, jcs, json_string, json_strings, str_option, EncodingError, JsonArray,
};
use crate::text::{
    all_of, bounded_token, every_byte, hex, hex_text, is_alphanumeric, is_bounded_token,
    same_text, utf8, ByteClass,
};

verus! {

pub const MAX_APPLICATION_SCHEMA_VERSION_BYTES: usize = 96;

/// Whether a text can name the schema version of an application: visible ASCII, not too long.
pub fn valid_application_schema_version(value: &str) -> (r: bool)
    ensures
        r == bounded_token(value@, ByteClass::Graphic, 1, 96),
{
    is_bounded_token(value, ByteClass::Graphic, 1, MAX_APPLICATION_SCHEMA_VERSION_BYTES)
}

/// Lowercase letters, digits and hyphens, at most 64 of them, with no hyphen at either end.
pub open spec fn project_id_text(text: Seq<char>) -> bool {
    let bytes = utf8(text);
    &&& 1 <= bytes.len() <= 64
    &&& is_alphanumeric(bytes[0])
    &&& is_alphanumeric(bytes[bytes.len() - 1])
    &&& all_of(bytes, ByteClass::Slug)
}

/// A full commit hash in lowercase hexadecimal.
pub open spec fn commit_text(text: Seq<char>) -> bool {
    bounded_token(text, ByteClass::LowerHex, 40, 40) || bounded_token(
        text,
        ByteClass::LowerHex,
        64,
        64,
    )
}

/// A SHA-256 digest in lowercase hexadecimal.
pub open spec fn digest_text(text: Seq<char>) -> bool {
    bounded_token(text, ByteClass::LowerHex, 64, 64)
}

fn is_project_id_text(value: &str) -> (r: bool)
    ensures
        r == project_id_text(value@),
{
    let bytes = value.as_bytes();
    if bytes.len() < 1 || bytes.len() > 64 {
        return false;
    }
    let first: u8 = bytes[0];
    let last: u8 = bytes[bytes.len() - 1];
    (ByteClass::LowerAlphanumeric.contains(first) || (0x41 <= first && first <= 0x5a)) && (
    ByteClass::LowerAlphanumeric.contains(last) || (0x41 <= last && last <= 0x5a)) && every_byte(
        bytes,
        ByteClass::Slug,
    )
}

/// The SHA-256 digest of some bytes.
pub uninterp spec fn sha256(bytes: Seq<u8>) -> Seq<u8>;

/// `sha2::Sha256::digest`: 32 bytes that depend on the input alone.
#[verifier::external_body]
fn sha256_bytes(bytes: &[u8]) -> (digest: Vec<u8>)
    ensures
        digest@ == sha256(bytes@),
        digest@.len() == 32,
{
    <sha2::Sha256 as sha2::Digest>::digest(bytes).to_vec()
}

/// What an identifier's text can be refused for.
#[derive(Clone, Copy, Debug, PartialEq, Eq, Structural)]
pub enum IdentifierError {
    InvalidProjectId,
    InvalidGitCommit,
    InvalidEvidenceDigest,
    InvalidRunbookId,
}

impl IdentifierError {
    /// The sentence shown to an operator.
    pub fn message(self) -> (r: &'static str)
        ensures
            r@ == match self {
                IdentifierError::InvalidProjectId =>
                    "project ID must be 1-64 lowercase ASCII letters, digits, or interior hyphens"@,
                IdentifierError::InvalidGitCommit =>
                    "Git commit must be a full lowercase 40- or 64-character hexadecimal ID"@,
                IdentifierError::InvalidEvidenceDigest =>
                    "evidence digest must be a lowercase 64-character hexadecimal value"@,
                IdentifierError::InvalidRunbookId =>
                    "runbook ID must follow the project-ID format"@,
            },
    {
        match self {
            IdentifierError::InvalidProjectId =>
                "project ID must be 1-64 lowercase ASCII letters, digits, or interior hyphens",
            IdentifierError::InvalidGitCommit =>
                "Git commit must be a full lowercase 40- or 64-character hexadecimal ID",
            IdentifierError::InvalidEvidenceDigest =>
                "evidence digest must be a lowercase 64-character hexadecimal value",
            IdentifierError::InvalidRunbookId => "runbook ID must follow the project-ID format",
        }
    }
}

/// The identifier of a project.
#[derive(Debug, Eq, Hash, PartialOrd, Ord)]
pub struct ProjectId {
    value: String,
}

impl ProjectId {
    #[verifier::type_invariant]
    spec fn valid(self) -> bool {
        project_id_text(self.value@)
    }

    pub fn as_str(&self) -> (text: &str)
        ensures
            text@ == self@,
            project_id_text(self@),
    {
        proof {
            use_type_invariant(self);
        }
        self.value.as_str()
    }

    /// Accepts exactly the texts of the right form, and keeps them as they are.
    pub fn parse(value: &str) -> (r: Result<ProjectId, IdentifierError>)
        ensures
            match r {
                Ok(id) => project_id_text(value@) && id@ == value@,
                Err(error) => !project_id_text(value@) && error == IdentifierError::InvalidProjectId,
            },
    {
        if is_project_id_text(value) {
            Ok(ProjectId { value: value.to_owned() })
        } else {
            Err(IdentifierError::InvalidProjectId)
        }
    }
}

impl View for ProjectId {
    type V = Seq<char>;

    closed spec fn view(&self) -> Seq<char> {
        self.value@
    }
}

impl Clone for ProjectId {
    fn clone(&self) -> (r: Self)
        ensures
            r == *self,
    {
        proof {
            use_type_invariant(self);
        }
        ProjectId { value: self.value.clone() }
    }
}

impl PartialEq for ProjectId {
    fn eq(&self, other: &Self) -> (r: bool) {
        same_text(self.value.as_str(), other.value.as_str())
    }
}

impl PartialEqSpecImpl for ProjectId {
    open spec fn obeys_eq_spec() -> bool {
        true
    }

    open spec fn eq_spec(&self, other: &Self) -> bool {
        self@ == other@
    }
}

impl FromStr for ProjectId {
    type Err = IdentifierError;

    fn from_str(value: &str) -> Result<ProjectId, IdentifierError> {
        ProjectId::parse(value)
    }
}

/// A full Git commit hash.
#[derive(Debug, Eq, Hash)]
pub struct GitCommitId {
    value: String,
}

impl GitCommitId {
    #[verifier::type_invariant]
    spec fn valid(self) -> bool {
        commit_text(self.value@)
    }

    pub fn as_str(&self) -> (text: &str)
        ensures
            text@ == self@,
            commit_text(self@),
    {
        proof {
            use_type_invariant(self);
        }
        self.value.as_str()
    }

    /// Accepts exactly the texts of the right form, and keeps them as they are.
    pub fn parse(value: &str) -> (r: Result<GitCommitId, IdentifierError>)
        ensures
            match r {
                Ok(id) => commit_text(value@) && id@ == value@,
                Err(error) => !commit_text(value@) && error == IdentifierError::InvalidGitCommit,
            },
    {
        if is_bounded_token(value, ByteClass::LowerHex, 40, 40) || is_bounded_token(
            value,
            ByteClass::LowerHex,
            64,
            64,
        ) {
            Ok(GitCommitId { value: value.to_owned() })
        } else {
            Err(IdentifierError::InvalidGitCommit)
        }
    }
}

impl View for GitCommitId {
    type V = Seq<char>;

    closed spec fn view(&self) -> Seq<char> {
        self.value@
    }
}

impl Clone for GitCommitId {
    fn clone(&self) -> (r: Self)
        ensures
            r == *self,
    {
        proof {
            use_type_invariant(self);
        }
        GitCommitId { value: self.value.clone() }
    }
}

impl PartialEq for GitCommitId {
    fn eq(&self, other: &Self) -> (r: bool) {
        same_text(self.value.as_str(), other.value.as_str())
    }
}

impl PartialEqSpecImpl for GitCommitId {
    open spec fn obeys_eq_spec() -> bool {
        true
    }

    open spec fn eq_spec(&self, other: &Self) -> bool {
        self@ == other@
    }
}

impl FromStr for GitCommitId {
    type Err = IdentifierError;

    fn from_str(value: &str) -> Result<GitCommitId, IdentifierError> {
        GitCommitId::parse(value)
    }
}

/// The digest of a piece of evidence.
#[derive(Debug, Eq, Hash, PartialOrd, Ord)]
pub struct EvidenceDigest {
    value: String,
}

impl EvidenceDigest {
    #[verifier::type_invariant]
    spec fn valid(self) -> bool {
        digest_text(self.value@)
    }

    pub fn as_str(&self) -> (text: &str)
        ensures
            text@ == self@,
            digest_text(self@),
    {
        proof {
            use_type_invariant(self);
        }
        self.value.as_str()
    }

    /// Accepts exactly the texts of the right form, and keeps them as they are.
    pub fn parse(value: &str) -> (r: Result<EvidenceDigest, IdentifierError>)
        ensures
            match r {
                Ok(id) => digest_text(value@) && id@ == value@,
                Err(error) => !digest_text(value@) && error == IdentifierError::InvalidEvidenceDigest,
            },
    {
        if is_bounded_token(value, ByteClass::LowerHex, 64, 64) {
            Ok(EvidenceDigest { value: value.to_owned() })
        } else {
            Err(IdentifierError::InvalidEvidenceDigest)
        }
    }
}

impl View for EvidenceDigest {
    type V = Seq<char>;

    closed spec fn view(&self) -> Seq<char> {
        self.value@
    }
}

impl Clone for EvidenceDigest {
    fn clone(&self) -> (r: Self)
        ensures
            r == *self,
    {
        proof {
            use_type_invariant(self);
        }
        EvidenceDigest { value: self.value.clone() }
    }
}

impl PartialEq for EvidenceDigest {
    fn eq(&self, other: &Self) -> (r: bool) {
        same_text(self.value.as_str(), other.value.as_str())
    }
}

impl PartialEqSpecImpl for EvidenceDigest {
    open spec fn obeys_eq_spec() -> bool {
        true
    }

    open spec fn eq_spec(&self, other: &Self) -> bool {
        self@ == other@
    }
}

impl FromStr for EvidenceDigest {
    type Err = IdentifierError;

    fn from_str(value: &str) -> Result<EvidenceDigest, IdentifierError> {
        EvidenceDigest::parse(value)
    }
}

/// The identifier of a runbook, of the same form as a project's.
#[derive(Debug, Eq, Hash)]
pub struct RunbookId {
    value: String,
}

impl RunbookId {
    #[verifier::type_invariant]
    spec fn valid(self) -> bool {
        project_id_text(self.value@)
    }

    pub fn as_str(&self) -> (text: &str)
        ensures
            text@ == self@,
            project_id_text(self@),
    {
        proof {
            use_type_invariant(self);
        }
        self.value.as_str()
    }

    /// Accepts exactly the texts of the right form, and keeps them as they are.
    pub fn parse(value: &str) -> (r: Result<RunbookId, IdentifierError>)
        ensures
            match r {
                Ok(id) => project_id_text(value@) && id@ == value@,
                Err(error) => !project_id_text(value@) && error == IdentifierError::InvalidRunbookId,
            },
    {
        if is_project_id_text(value) {
            Ok(RunbookId { value: value.to_owned() })
        } else {
            Err(IdentifierError::InvalidRunbookId)
        }
    }
}

impl View for RunbookId {
    type V = Seq<char>;

    closed spec fn view(&self) -> Seq<char> {
        self.value@
    }
}

impl Clone for RunbookId {
    fn clone(&self) -> (r: Self)
        ensures
            r == *self,
    {
        proof {
            use_type_invariant(self);
        }
        RunbookId { value: self.value.clone() }
    }
}

impl PartialEq for RunbookId {
    fn eq(&self, other: &Self) -> (r: bool) {
        same_text(self.value.as_str(), other.value.as_str())
    }
}

impl PartialEqSpecImpl for RunbookId {
    open spec fn obeys_eq_spec() -> bool {
        true
    }

    open spec fn eq_spec(&self, other: &Self) -> bool {
        self@ == other@
    }
}

impl FromStr for RunbookId {
    type Err = IdentifierError;

    fn from_str(value: &str) -> Result<RunbookId, IdentifierError> {
        RunbookId::parse(value)
    }
}

/// Hexadecimal digits are lowercase hexadecimal bytes, one byte each.
proof fn lemma_hex_is_lower_hex(bytes: Seq<u8>)
    ensures
        bounded_token(
            hex(bytes),
            ByteClass::LowerHex,
            2 * bytes.len() as int,
            2 * bytes.len() as int,
        ),
{
    let text = hex(bytes);
    assert(is_ascii_chars(text));
    is_ascii_chars_encode_utf8(text);
    assert forall|i: int| 0 <= i < utf8(text).len() implies ByteClass::LowerHex.has(
        #[trigger] utf8(text)[i],
    ) by {
        assert(text[i] as u8 == utf8(text)[i]);
    }
}

impl EvidenceDigest {
    /// The digest of some bytes, in lowercase hexadecimal.
    pub fn sha256(bytes: &[u8]) -> (r: EvidenceDigest)
        ensures
            r@ == hex(sha256(bytes@)),
    {
        let digest = sha256_bytes(bytes);
        proof {
            lemma_hex_is_lower_hex(digest@);
        }
        EvidenceDigest { value: hex_text(digest.as_slice()) }
    }
}

/// The text of an optional digest.
pub fn digest_str(value: &Option<EvidenceDigest>) -> (r: Option<&str>)
    ensures
        str_option(r) == digest_option(*value),
{
    match value {
        Some(digest) => Some(digest.as_str()),
        None => None,
    }
}

/// The texts of some digests.
pub open spec fn digest_texts(values: Seq<EvidenceDigest>) -> Seq<Seq<char>> {
    values.map_values(|digest: EvidenceDigest| digest@)
}

/// Digests as a JSON array of strings.
pub fn digests_json(values: &Vec<EvidenceDigest>) -> (r: String)
    ensures
        r@ == json_strings(digest_texts(values@)),
{
    let mut array = JsonArray::new();
    let mut i: usize = 0;
    while i < values.len()
        invariant
            i <= values.len(),
            array.wf(),
            array@ == digest_texts(values@).take(i as int).map_values(
                |item: Seq<char>| json_string(item),
            ),
        decreases values.len() - i,
    {
        array.text(values[i].as_str());
        i += 1;
        assert(array@ =~= digest_texts(values@).take(i as int).map_values(
            |item: Seq<char>| json_string(item),
        ));
    }
    assert(digest_texts(values@).take(i as int) =~= digest_texts(values@));
    array.finish()
}

/// A copy of some digests.
pub fn clone_digests(values: &Vec<EvidenceDigest>) -> (r: Vec<EvidenceDigest>)
    ensures
        r@ == values@,
{
    let mut copy: Vec<EvidenceDigest> = Vec::new();
    let mut i: usize = 0;
    while i < values.len()
        invariant
            i <= values.len(),
            copy@ == values@.take(i as int),
        decreases values.len() - i,
    {
        copy.push(values[i].clone());
        i += 1;
        assert(copy@ =~= values@.take(i as int));
    }
    assert(values@.take(i as int) =~= values@);
    copy
}

/// Whether two lists hold the same digests.
pub fn same_digests(a: &Vec<EvidenceDigest>, b: &Vec<EvidenceDigest>) -> (same: bool)
    ensures
        same == (digest_texts(a@) == digest_texts(b@)),
{
    if a.len() != b.len() {
        assert(digest_texts(a@).len() != digest_texts(b@).len());
        return false;
    }
    let mut i: usize = 0;
    while i < a.len()
        invariant
            i <= a.len(),
            a.len() == b.len(),
            forall|k: int| 0 <= k < i ==> a@[k]@ == b@[k]@,
        decreases a.len() - i,
    {
        if a[i] != b[i] {
            assert(digest_texts(a@)[i as int] != digest_texts(b@)[i as int]);
            return false;
        }
        i += 1;
    }
    assert(digest_texts(a@) =~= digest_texts(b@));
    true
}

/// The digest of a document: of the canonical bytes of its JSON text.
pub open spec fn document_digest(text: Seq<char>) -> Option<Seq<char>> {
    match jcs(text) {
        Some(bytes) => Some(hex(sha256(bytes))),
        None => None,
    }
}

/// The digest of a document.
pub fn digest_document(text: &str) -> (r: Result<EvidenceDigest, EncodingError>)
    ensures
        match r {
            Ok(digest) => document_digest(text@) == Some(digest@),
            Err(_) => document_digest(text@) is None,
        },
{
    match canonical_bytes(text) {
        Ok(bytes) => Ok(EvidenceDigest::sha256(bytes.as_slice())),
        Err(error) => Err(error),
    }
}

/// The characters of an optional digest.
pub open spec fn digest_option(value: Option<EvidenceDigest>) -> Option<Seq<char>> {
    match value {
        Some(digest) => Some(digest@),
        None => None,
    }
}

/// A name of a project, or of a runbook, is made of lowercase letters, digits and hyphens, with no
/// hyphen at either end, and is between one and sixty-four bytes long; and every such text is one.
pub proof fn law_names_are_lowercase_with_inner_hyphens(
    text: &str,
    project: Result<ProjectId, IdentifierError>,
    runbook: Result<RunbookId, IdentifierError>,
)
    requires
        call_ensures(ProjectId::parse, (text,), project),
        call_ensures(RunbookId::parse, (text,), runbook),
    ensures
        ({
            let bytes = utf8(text@);
            project is Ok <==> {
                &&& 1 <= bytes.len() <= 64
                &&& forall|i: int|
                    0 <= i < bytes.len() ==> 0x61 <= #[trigger] bytes[i] <= 0x7a || 0x30 <= bytes[i]
                        <= 0x39 || bytes[i] == 0x2d
                &&& bytes[0] != 0x2d && bytes[bytes.len() - 1] != 0x2d
            }
        }),
        project is Ok <==> runbook is Ok,
        project matches Ok(id) ==> id@ == text@,
        runbook matches Ok(id) ==> id@ == text@,
{
    let bytes = utf8(text@);
    if project is Ok {
        assert(ByteClass::Slug.has(bytes[0]) && ByteClass::Slug.has(bytes[bytes.len() - 1]));
    }
}

/// A commit is named by forty or sixty-four lowercase hexadecimal digits, and evidence by sixty-four:
/// whatever names evidence could name a commit.
pub proof fn law_digests_are_lowercase_hexadecimal(
    text: &str,
    commit: Result<GitCommitId, IdentifierError>,
    digest: Result<EvidenceDigest, IdentifierError>,
)
    requires
        call_ensures(GitCommitId::parse, (text,), commit),
        call_ensures(EvidenceDigest::parse, (text,), digest),
    ensures
        ({
            let bytes = utf8(text@);
            let digits = forall|i: int|
                0 <= i < bytes.len() ==> 0x30 <= #[trigger] bytes[i] <= 0x39 || 0x61 <= bytes[i]
                    <= 0x66;
            &&& digest is Ok <==> bytes.len() == 64 && digits
            &&& commit is Ok <==> (bytes.len() == 40 || bytes.len() == 64) && digits
        }),
        digest is Ok ==> commit is Ok,
        commit matches Ok(id) ==> id@ == text@,
        digest matches Ok(id) ==> id@ == text@,
{
    let bytes = utf8(text@);
    if forall|i: int|
        0 <= i < bytes.len() ==> 0x30 <= #[trigger] bytes[i] <= 0x39 || 0x61 <= bytes[i] <= 0x66 {
        assert(all_of(bytes, ByteClass::LowerHex));
    }
    if all_of(bytes, ByteClass::LowerHex) {
        assert forall|i: int| 0 <= i < bytes.len() implies 0x30 <= #[trigger] bytes[i] <= 0x39
            || 0x61 <= bytes[i] <= 0x66 by {
            assert(ByteClass::LowerHex.has(bytes[i]));
        }
    }
}

/// A version of a schema is made of visible characters, ninety-six at most.
pub proof fn law_schema_versions_are_visible(text: &str, r: bool)
    requires
        call_ensures(valid_application_schema_version, (text,), r),
    ensures
        ({
            let bytes = utf8(text@);
            r <==> 1 <= bytes.len() <= 96 && forall|i: int|
                0 <= i < bytes.len() ==> 0x21 <= #[trigger] bytes[i] <= 0x7e
        }),
{
    let bytes = utf8(text@);
    if forall|i: int| 0 <= i < bytes.len() ==> 0x21 <= #[trigger] bytes[i] <= 0x7e {
        assert(all_of(bytes, ByteClass::Graphic));
    }
    if all_of(bytes, ByteClass::Graphic) {
        assert forall|i: int| 0 <= i < bytes.len() implies 0x21 <= #[trigger] bytes[i] <= 0x7e by {
            assert(ByteClass::Graphic.has(bytes[i]));
        }
    }
}

/// Lists of digests are the same just if they hold the same digests in the same order.
pub proof fn law_same_digests_are_equal_one_by_one(
    a: Vec<EvidenceDigest>,
    b: Vec<EvidenceDigest>,
    same: bool,
    i: int,
)
    requires
        call_ensures(same_digests, (&a, &b), same),
    ensures
        same ==> a@.len() == b@.len(),
        same && 0 <= i < a@.len() ==> a@[i]@ == b@[i]@,
        a@ == b@ ==> same,
{
    let x = digest_texts(a@);
    let y = digest_texts(b@);
    assert(x.len() == a@.len() && y.len() == b@.len());
    if same && 0 <= i < a@.len() {
        assert(x.len() == y.len());
        assert(x[i] == a@[i]@ && y[i] == b@[i]@);
    }
}

} // verus!
