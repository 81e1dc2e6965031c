//! The manifest of a project: where its source is, how it is built and checked, which data it keeps,
//! and the workflow that brings it to production.

use vstd::prelude::*;
use super::identifiers::{digest_document, document_digest, EvidenceDigest, ProjectId};
use super::workflow::{
    either, trim, trimmed, WorkflowAdapterIdV1, WorkflowDeliveryModeV1,
    WorkflowHostPreparationPolicyV1, WorkflowNodeKindV1, WorkflowNodeV1, WorkflowPolicyV1,
};
use super::workflow_graph::profile_place;
use super::workflow_laws::has_kind;
use crate::json::{
    canonical_bytes, is_canonical, jcs, json_array, json_bool, json_nat, json_object,
    json_string, no_members, JsonArray, JsonObject,
};
use crate::paths::{
    find_part_end, lemma_every_part_is_plain, part_at, part_end, parts_are_plain, plain_parts,
};
use crate::text::{characters, same_text, utf8};

verus! {

pub const PROJECT_MANIFEST_SCHEMA_VERSION: u16 = 1;

pub const PROJECT_MANIFEST_V2_SCHEMA_VERSION: u16 = 2;

/// Why a manifest is refused.
#[derive(Clone, Debug, PartialEq, Eq)]
pub enum ManifestError {
    UnsupportedSchemaVersion(u16),
    InvalidDisplayName,
    UnsupportedBranch,
    InvalidRemoteUrl,
    MissingHealthCheck,
    InvalidHealthCheckName,
    DuplicateHealthCheck(String),
    InvalidHealthEndpoint,
    InvalidExpectedStatus,
    InvalidHealthTimeout,
    InvalidAbsolutePath,
    InvalidRelativePath,
    DuplicateDataPath(String),
    UnsafeDataPath(String),
    InvalidDockerfilePath,
    BuildWorkflowMismatch,
    SelfUpdateWorkflowMismatch,
    InvalidSoakDuration,
    WorkflowBackupMismatch,
    WorkflowMigrationMismatch,
    NoncanonicalManifest,
    WorkflowInvalid,
    InvalidManifestJson,
    CanonicalEncoding,
}

/// The parts of a URL.
#[derive(Debug)]
pub struct UrlParts {
    pub scheme: String,
    pub username: String,
    pub has_password: bool,
    pub has_host: bool,
    pub path: String,
    pub has_query: bool,
    pub has_fragment: bool,
}

/// The parts of a URL as plain values.
pub struct UrlView {
    pub scheme: Seq<char>,
    pub username: Seq<char>,
    pub has_password: bool,
    pub has_host: bool,
    pub path: Seq<char>,
    pub has_query: bool,
    pub has_fragment: bool,
}

impl View for UrlParts {
    type V = UrlView;

    open spec fn view(&self) -> UrlView {
        UrlView {
            scheme: self.scheme@,
            username: self.username@,
            has_password: self.has_password,
            has_host: self.has_host,
            path: self.path@,
            has_query: self.has_query,
            has_fragment: self.has_fragment,
        }
    }
}

/// What `url::Url::parse` finds in a text.
pub uninterp spec fn url_parsed(text: Seq<char>) -> Option<UrlView>;

/// `url::Url::parse`, and of what it finds the scheme, the user name, whether there is a password,
/// a host, a query and a fragment, and the path. The result depends on the text alone.
#[verifier::external_body]
fn split_url(text: &str) -> (r: Option<UrlParts>)
    ensures
        match r {
            Some(parts) => url_parsed(text@) == Some(parts@),
            None => url_parsed(text@) is None,
        },
{
    let url = url::Url::parse(text).ok()?;
    Some(UrlParts {
        scheme: url.scheme().to_owned(),
        username: url.username().to_owned(),
        has_password: url.password().is_some(),
        has_host: url.host_str().is_some(),
        path: url.path().to_owned(),
        has_query: url.query().is_some(),
        has_fragment: url.fragment().is_some(),
    })
}

/// A URL of a repository: over https or ssh, with a host and a path, without a password, a query
/// or a fragment, and over https without a user.
pub open spec fn repository_url(url: UrlView) -> bool {
    &&& url.scheme == "https"@ || url.scheme == "ssh"@
    &&& url.has_host
    &&& !url.has_password
    &&& url.scheme == "https"@ ==> url.username == ""@
    &&& url.path != ""@ && url.path != "/"@
    &&& !url.has_query
    &&& !url.has_fragment
}

pub fn is_repository_url(url: &UrlParts) -> (r: bool)
    ensures
        r == repository_url(url@),
{
    let https = same_text(url.scheme.as_str(), "https");
    (https || same_text(url.scheme.as_str(), "ssh")) && url.has_host && !url.has_password && (!https
        || same_text(url.username.as_str(), "")) && !same_text(url.path.as_str(), "") && !same_text(
        url.path.as_str(),
        "/",
    ) && !url.has_query && !url.has_fragment
}

/// A URL to check: over http or https, with a host, without credentials or a fragment.
pub open spec fn endpoint_url(url: UrlView) -> bool {
    &&& url.scheme == "http"@ || url.scheme == "https"@
    &&& url.has_host
    &&& url.username == ""@
    &&& !url.has_password
    &&& !url.has_fragment
}

pub fn is_endpoint_url(url: &UrlParts) -> (r: bool)
    ensures
        r == endpoint_url(url@),
{
    (same_text(url.scheme.as_str(), "http") || same_text(url.scheme.as_str(), "https"))
        && url.has_host && same_text(url.username.as_str(), "") && !url.has_password
        && !url.has_fragment
}

/// The text of a URL of a repository.
pub open spec fn repository_url_text(text: Seq<char>) -> bool {
    url_parsed(text) matches Some(url) && repository_url(url)
}

/// The text of a URL to check.
pub open spec fn endpoint_url_text(text: Seq<char>) -> bool {
    url_parsed(text) matches Some(url) && endpoint_url(url)
}

/// Where a repository is.
#[derive(Debug, Hash)]
pub struct RemoteUrl {
    value: String,
}

impl RemoteUrl {
    #[verifier::type_invariant]
    spec fn valid(self) -> bool {
        repository_url_text(self.value@)
    }

    /// The text that is held.
    pub closed spec fn held(self) -> String {
        self.value
    }

    pub fn as_str(&self) -> (text: &str)
        ensures
            text@ == self@,
            repository_url_text(self@),
    {
        proof {
            use_type_invariant(self);
        }
        self.value.as_str()
    }

    fn to_text(&self) -> (r: String)
        ensures
            r == self.held(),
            r@ == self@,
    {
        self.value.clone()
    }

    pub fn parse(value: &str) -> (r: Result<RemoteUrl, ManifestError>)
        ensures
            match r {
                Ok(parsed) => repository_url_text(value@) && parsed@ == value@,
                Err(error) => !repository_url_text(value@) && error is InvalidRemoteUrl,
            },
    {
        match split_url(value) {
            Some(parts) => if is_repository_url(&parts) {
                Ok(RemoteUrl { value: value.to_owned() })
            } else {
                Err(ManifestError::InvalidRemoteUrl)
            },
            None => Err(ManifestError::InvalidRemoteUrl),
        }
    }
}

impl View for RemoteUrl {
    type V = Seq<char>;

    closed spec fn view(&self) -> Seq<char> {
        self.value@
    }
}

impl Clone for RemoteUrl {
    fn clone(&self) -> (r: Self)
        ensures
            r == *self,
    {
        proof {
            use_type_invariant(self);
        }
        RemoteUrl { value: self.value.clone() }
    }
}

impl PartialEq for RemoteUrl {
    fn eq(&self, other: &Self) -> (r: bool) {
        same_text(self.value.as_str(), other.value.as_str())
    }
}

impl vstd::std_specs::cmp::PartialEqSpecImpl for RemoteUrl {
    open spec fn obeys_eq_spec() -> bool {
        true
    }

    open spec fn eq_spec(&self, other: &Self) -> bool {
        self@ == other@
    }
}

impl Eq for RemoteUrl {

}

impl std::str::FromStr for RemoteUrl {
    type Err = ManifestError;

    fn from_str(value: &str) -> Result<RemoteUrl, ManifestError> {
        RemoteUrl::parse(value)
    }
}

/// What is asked to check the health of a project.
#[derive(Debug, Hash)]
pub struct HttpEndpoint {
    value: String,
}

impl HttpEndpoint {
    #[verifier::type_invariant]
    spec fn valid(self) -> bool {
        endpoint_url_text(self.value@)
    }

    /// The text that is held.
    pub closed spec fn held(self) -> String {
        self.value
    }

    pub fn as_str(&self) -> (text: &str)
        ensures
            text@ == self@,
            endpoint_url_text(self@),
    {
        proof {
            use_type_invariant(self);
        }
        self.value.as_str()
    }

    fn to_text(&self) -> (r: String)
        ensures
            r == self.held(),
            r@ == self@,
    {
        self.value.clone()
    }

    pub fn parse(value: &str) -> (r: Result<HttpEndpoint, ManifestError>)
        ensures
            match r {
                Ok(parsed) => endpoint_url_text(value@) && parsed@ == value@,
                Err(error) => !endpoint_url_text(value@) && error is InvalidHealthEndpoint,
            },
    {
        match split_url(value) {
            Some(parts) => if is_endpoint_url(&parts) {
                Ok(HttpEndpoint { value: value.to_owned() })
            } else {
                Err(ManifestError::InvalidHealthEndpoint)
            },
            None => Err(ManifestError::InvalidHealthEndpoint),
        }
    }
}

impl View for HttpEndpoint {
    type V = Seq<char>;

    closed spec fn view(&self) -> Seq<char> {
        self.value@
    }
}

impl Clone for HttpEndpoint {
    fn clone(&self) -> (r: Self)
        ensures
            r == *self,
    {
        proof {
            use_type_invariant(self);
        }
        HttpEndpoint { value: self.value.clone() }
    }
}

impl PartialEq for HttpEndpoint {
    fn eq(&self, other: &Self) -> (r: bool) {
        same_text(self.value.as_str(), other.value.as_str())
    }
}

impl vstd::std_specs::cmp::PartialEqSpecImpl for HttpEndpoint {
    open spec fn obeys_eq_spec() -> bool {
        true
    }

    open spec fn eq_spec(&self, other: &Self) -> bool {
        self@ == other@
    }
}

impl Eq for HttpEndpoint {

}

impl std::str::FromStr for HttpEndpoint {
    type Err = ManifestError;

    fn from_str(value: &str) -> Result<HttpEndpoint, ManifestError> {
        HttpEndpoint::parse(value)
    }
}

/// The last part of a path that slashes divide, from some place on.
pub open spec fn last_segment(text: Seq<char>, from: int) -> Seq<char>
    decreases text.len() - from,
{
    let end = part_end(text, from);
    if from < 0 || end < from || end >= text.len() {
        text.skip(from)
    } else {
        last_segment(text, end + 1)
    }
}

/// A path of at most 512 bytes that is written in the only way it can be: parts that name
/// something, with one slash between them, behind a slash if it is absolute. The root is an
/// absolute path.
pub open spec fn policy_path(text: Seq<char>, absolute: bool) -> bool {
    &&& 1 <= utf8(text).len() <= 512
    &&& !text.contains('\0')
    &&& text.len() > 0
    &&& (text[0] == '/') == absolute
    &&& (absolute && text.len() == 1) || plain_parts(
        text,
        if absolute {
            1
        } else {
            0
        },
    )
}

fn has_nul(all: &Vec<char>) -> (r: bool)
    ensures
        r == all@.contains('\0'),
{
    let mut i: usize = 0;
    while i < all.len()
        invariant
            i <= all.len(),
            forall|k: int| 0 <= k < i ==> all@[k] != '\0',
        decreases all.len() - i,
    {
        if all[i] == '\0' {
            assert(all@[i as int] == '\0');
            return true;
        }
        i += 1;
    }
    false
}

fn is_policy_path(value: &str, absolute: bool) -> (r: bool)
    ensures
        r == policy_path(value@, absolute),
{
    let size: usize = value.as_bytes().len();
    if size < 1 || size > 512 {
        return false;
    }
    let all = characters(value);
    if has_nul(&all) || all.len() == 0 || (all[0] == '/') != absolute {
        return false;
    }
    if absolute {
        all.len() == 1 || parts_are_plain(&all, 1)
    } else {
        parts_are_plain(&all, 0)
    }
}

fn ends_in_dockerfile(value: &str) -> (r: bool)
    ensures
        r == (last_segment(value@, 0) == "Dockerfile"@),
{
    let all = characters(value);
    let mut from: usize = 0;
    loop
        invariant
            from <= all@.len(),
            all@ == value@,
            last_segment(value@, 0) == last_segment(value@, from as int),
        decreases all.len() - from,
    {
        let end = find_part_end(&all, from);
        if end >= all.len() {
            let name = crate::text::text_of(&all, from, all.len());
            assert(value@.subrange(from as int, value@.len() as int) =~= value@.skip(from as int));
            return same_text(name.as_str(), "Dockerfile");
        }
        from = end + 1;
    }
}

/// A path from the root.
#[derive(Debug)]
pub struct AbsolutePolicyPath {
    value: String,
}

impl AbsolutePolicyPath {
    #[verifier::type_invariant]
    spec fn valid(self) -> bool {
        policy_path(self.value@, true)
    }

    /// The text that is held.
    pub closed spec fn held(self) -> String {
        self.value
    }

    pub fn as_str(&self) -> (text: &str)
        ensures
            text@ == self@,
            policy_path(self@, true),
    {
        proof {
            use_type_invariant(self);
        }
        self.value.as_str()
    }

    fn to_text(&self) -> (r: String)
        ensures
            r == self.held(),
            r@ == self@,
    {
        self.value.clone()
    }

    pub fn parse(value: &str) -> (r: Result<AbsolutePolicyPath, ManifestError>)
        ensures
            match r {
                Ok(parsed) => policy_path(value@, true) && parsed@ == value@,
                Err(error) => !policy_path(value@, true) && error is InvalidAbsolutePath,
            },
    {
        if is_policy_path(value, true) {
            Ok(AbsolutePolicyPath { value: value.to_owned() })
        } else {
            Err(ManifestError::InvalidAbsolutePath)
        }
    }
}

impl View for AbsolutePolicyPath {
    type V = Seq<char>;

    closed spec fn view(&self) -> Seq<char> {
        self.value@
    }
}

impl Clone for AbsolutePolicyPath {
    fn clone(&self) -> (r: Self)
        ensures
            r == *self,
    {
        proof {
            use_type_invariant(self);
        }
        AbsolutePolicyPath { value: self.value.clone() }
    }
}

impl PartialEq for AbsolutePolicyPath {
    fn eq(&self, other: &Self) -> (r: bool) {
        same_text(self.value.as_str(), other.value.as_str())
    }
}

impl vstd::std_specs::cmp::PartialEqSpecImpl for AbsolutePolicyPath {
    open spec fn obeys_eq_spec() -> bool {
        true
    }

    open spec fn eq_spec(&self, other: &Self) -> bool {
        self@ == other@
    }
}

impl Eq for AbsolutePolicyPath {

}

impl std::str::FromStr for AbsolutePolicyPath {
    type Err = ManifestError;

    fn from_str(value: &str) -> Result<AbsolutePolicyPath, ManifestError> {
        AbsolutePolicyPath::parse(value)
    }
}

/// A path from the repository.
#[derive(Debug)]
pub struct RelativePolicyPath {
    value: String,
}

impl RelativePolicyPath {
    #[verifier::type_invariant]
    spec fn valid(self) -> bool {
        policy_path(self.value@, false)
    }

    /// The text that is held.
    pub closed spec fn held(self) -> String {
        self.value
    }

    pub fn as_str(&self) -> (text: &str)
        ensures
            text@ == self@,
            policy_path(self@, false),
    {
        proof {
            use_type_invariant(self);
        }
        self.value.as_str()
    }

    fn to_text(&self) -> (r: String)
        ensures
            r == self.held(),
            r@ == self@,
    {
        self.value.clone()
    }

    pub fn parse(value: &str) -> (r: Result<RelativePolicyPath, ManifestError>)
        ensures
            match r {
                Ok(parsed) => policy_path(value@, false) && parsed@ == value@,
                Err(error) => !policy_path(value@, false) && error is InvalidRelativePath,
            },
    {
        if is_policy_path(value, false) {
            Ok(RelativePolicyPath { value: value.to_owned() })
        } else {
            Err(ManifestError::InvalidRelativePath)
        }
    }
}

impl View for RelativePolicyPath {
    type V = Seq<char>;

    closed spec fn view(&self) -> Seq<char> {
        self.value@
    }
}

impl Clone for RelativePolicyPath {
    fn clone(&self) -> (r: Self)
        ensures
            r == *self,
    {
        proof {
            use_type_invariant(self);
        }
        RelativePolicyPath { value: self.value.clone() }
    }
}

impl PartialEq for RelativePolicyPath {
    fn eq(&self, other: &Self) -> (r: bool) {
        same_text(self.value.as_str(), other.value.as_str())
    }
}

impl vstd::std_specs::cmp::PartialEqSpecImpl for RelativePolicyPath {
    open spec fn obeys_eq_spec() -> bool {
        true
    }

    open spec fn eq_spec(&self, other: &Self) -> bool {
        self@ == other@
    }
}

impl Eq for RelativePolicyPath {

}

impl std::str::FromStr for RelativePolicyPath {
    type Err = ManifestError;

    fn from_str(value: &str) -> Result<RelativePolicyPath, ManifestError> {
        RelativePolicyPath::parse(value)
    }
}

/// The branch that is deployed.
#[derive(Clone, Copy, Debug, PartialEq, Eq, Hash, Structural)]
pub enum CanonicalBranch {
    Main,
}

impl CanonicalBranch {
    /// The name in documents.
    pub open spec fn name(self) -> Seq<char> {
        match self {
            CanonicalBranch::Main => "main"@,
        }
    }

    pub fn as_str(self) -> (r: &'static str)
        ensures
            r@ == self.name(),
    {
        match self {
            CanonicalBranch::Main => "main",
        }
    }
}

/// How a project is verified.
#[derive(Clone, Copy, Debug, PartialEq, Eq, Hash, Structural)]
pub enum CiPolicy {
    BinCi,
}

impl CiPolicy {
    /// The name in documents.
    pub open spec fn name(self) -> Seq<char> {
        match self {
            CiPolicy::BinCi => "bin_ci"@,
        }
    }

    pub fn as_str(self) -> (r: &'static str)
        ensures
            r@ == self.name(),
    {
        match self {
            CiPolicy::BinCi => "bin_ci",
        }
    }
}

/// What a build makes.
#[derive(Clone, Copy, Debug, PartialEq, Eq, Hash, Structural)]
pub enum BuildKind {
    Oci,
    Native,
}

impl Default for BuildKind {
    fn default() -> (r: BuildKind)
        ensures
            r == BuildKind::Oci,
    {
        BuildKind::Oci
    }
}

impl BuildKind {
    /// The name in documents.
    pub open spec fn name(self) -> Seq<char> {
        match self {
            BuildKind::Oci => "oci"@,
            BuildKind::Native => "native"@,
        }
    }

    pub fn as_str(self) -> (r: &'static str)
        ensures
            r@ == self.name(),
    {
        match self {
            BuildKind::Oci => "oci",
            BuildKind::Native => "native",
        }
    }
}

/// Where a build runs.
#[derive(Clone, Copy, Debug, PartialEq, Eq, Hash, Structural)]
pub enum BuildContext {
    RepositoryRoot,
}

impl BuildContext {
    /// The name in documents.
    pub open spec fn name(self) -> Seq<char> {
        match self {
            BuildContext::RepositoryRoot => "repository_root"@,
        }
    }

    pub fn as_str(self) -> (r: &'static str)
        ensures
            r@ == self.name(),
    {
        match self {
            BuildContext::RepositoryRoot => "repository_root",
        }
    }
}

/// What becomes of data.
#[derive(Clone, Copy, Debug, PartialEq, Eq, Hash, Structural)]
pub enum DataClass {
    Stateful,
    Derived,
    Ephemeral,
}

impl DataClass {
    /// The name in documents.
    pub open spec fn name(self) -> Seq<char> {
        match self {
            DataClass::Stateful => "stateful"@,
            DataClass::Derived => "derived"@,
            DataClass::Ephemeral => "ephemeral"@,
        }
    }

    pub fn as_str(self) -> (r: &'static str)
        ensures
            r@ == self.name(),
    {
        match self {
            DataClass::Stateful => "stateful",
            DataClass::Derived => "derived",
            DataClass::Ephemeral => "ephemeral",
        }
    }
}

/// How data is migrated.
#[derive(Clone, Copy, Debug, PartialEq, Eq, Hash, Structural)]
pub enum MigrationEntrypoint {
    Absent,
    ApplicationMigrate,
}

impl MigrationEntrypoint {
    /// The name in documents.
    pub open spec fn name(self) -> Seq<char> {
        match self {
            MigrationEntrypoint::Absent => "none"@,
            MigrationEntrypoint::ApplicationMigrate => "application_migrate"@,
        }
    }

    pub fn as_str(self) -> (r: &'static str)
        ensures
            r@ == self.name(),
    {
        match self {
            MigrationEntrypoint::Absent => "none",
            MigrationEntrypoint::ApplicationMigrate => "application_migrate",
        }
    }
}

/// How writes are fenced off.
#[derive(Clone, Copy, Debug, PartialEq, Eq, Hash, Structural)]
pub enum WriteFencePolicy {
    Unsupported,
    ApplicationProtocolV1,
}

impl WriteFencePolicy {
    /// The name in documents.
    pub open spec fn name(self) -> Seq<char> {
        match self {
            WriteFencePolicy::Unsupported => "unsupported"@,
            WriteFencePolicy::ApplicationProtocolV1 => "application_protocol_v1"@,
        }
    }

    pub fn as_str(self) -> (r: &'static str)
        ensures
            r@ == self.name(),
    {
        match self {
            WriteFencePolicy::Unsupported => "unsupported",
            WriteFencePolicy::ApplicationProtocolV1 => "application_protocol_v1",
        }
    }
}

/// Where notifications go.
#[derive(Clone, Copy, Debug, PartialEq, Eq, Hash, Structural)]
pub enum NotificationRoute {
    TelegramDefault,
}

impl NotificationRoute {
    /// The name in documents.
    pub open spec fn name(self) -> Seq<char> {
        match self {
            NotificationRoute::TelegramDefault => "telegram_default"@,
        }
    }

    pub fn as_str(self) -> (r: &'static str)
        ensures
            r@ == self.name(),
    {
        match self {
            NotificationRoute::TelegramDefault => "telegram_default",
        }
    }
}

/// Where the source of a project is.
#[derive(Clone, Debug, PartialEq, Eq)]
pub struct SourcePolicy {
    pub remote_url: RemoteUrl,
    pub branch: CanonicalBranch,
}

impl SourcePolicy {
    /// The document as JSON text.
    pub open spec fn json(self) -> Seq<char> {
        json_object(
            no_members()
                .push(("remote_url"@, json_string(self.remote_url@)))
                .push(("branch"@, json_string(self.branch.name()))),
        )
    }

    pub fn to_json(&self) -> (r: String)
        ensures
            r@ == self.json(),
    {
        let mut object = JsonObject::new();
        object.text("remote_url", self.remote_url.as_str());
        object.text("branch", self.branch.as_str());
        object.finish()
    }

    /// Every source policy is in order: there is one branch only.
    pub fn validate(&self) -> (r: Result<(), ManifestError>)
        ensures
            r is Ok,
    {
        if self.branch != CanonicalBranch::Main {
            return Err(ManifestError::UnsupportedBranch);
        }
        Ok(())
    }
}

/// How a project is built.
#[derive(Clone, Debug, PartialEq, Eq)]
pub struct BuildPolicy {
    pub context: BuildContext,
    pub kind: BuildKind,
    pub dockerfile: Option<RelativePolicyPath>,
}

impl BuildPolicy {
    /// The document as JSON text. The kind is left out where it is the usual one, and the
    /// Dockerfile where there is none.
    pub open spec fn json(self) -> Seq<char> {
        let members = no_members().push(("context"@, json_string(self.context.name())));
        let members = if self.kind is Oci {
            members
        } else {
            members.push(("kind"@, json_string(self.kind.name())))
        };
        let members = match self.dockerfile {
            Some(dockerfile) => members.push(("dockerfile"@, json_string(dockerfile@))),
            None => members,
        };
        json_object(members)
    }

    pub fn to_json(&self) -> (r: String)
        ensures
            r@ == self.json(),
    {
        let mut object = JsonObject::new();
        object.text("context", self.context.as_str());
        if self.kind != BuildKind::Oci {
            object.text("kind", self.kind.as_str());
        }
        match &self.dockerfile {
            Some(dockerfile) => object.text("dockerfile", dockerfile.as_str()),
            None => {},
        }
        object.finish()
    }

    /// An image is built from a file called Dockerfile; a native build has none.
    pub open spec fn valid(self) -> bool {
        match (self.kind, self.dockerfile) {
            (BuildKind::Oci, Some(dockerfile)) => last_segment(dockerfile@, 0) == "Dockerfile"@,
            (BuildKind::Native, None) => true,
            _ => false,
        }
    }

    pub fn validate(&self) -> (r: Result<(), ManifestError>)
        ensures
            match r {
                Ok(()) => self.valid(),
                Err(error) => !self.valid() && error is InvalidDockerfilePath,
            },
    {
        let valid = match (self.kind, &self.dockerfile) {
            (BuildKind::Oci, Some(dockerfile)) => ends_in_dockerfile(dockerfile.as_str()),
            (BuildKind::Native, None) => true,
            _ => false,
        };
        if valid {
            Ok(())
        } else {
            Err(ManifestError::InvalidDockerfilePath)
        }
    }
}

/// How the health of a project is checked.
#[derive(Clone, Debug, PartialEq, Eq)]
pub struct HealthCheckPolicy {
    pub name: String,
    pub endpoint: HttpEndpoint,
    pub expected_status: u16,
    pub timeout_seconds: u16,
}

impl HealthCheckPolicy {
    /// The document as JSON text.
    pub open spec fn json(self) -> Seq<char> {
        json_object(
            no_members()
                .push(("name"@, json_string(self.name@)))
                .push(("endpoint"@, json_string(self.endpoint@)))
                .push(("expected_status"@, json_nat(self.expected_status as nat)))
                .push(("timeout_seconds"@, json_nat(self.timeout_seconds as nat))),
        )
    }

    pub fn to_json(&self) -> (r: String)
        ensures
            r@ == self.json(),
    {
        let mut object = JsonObject::new();
        object.text("name", self.name.as_str());
        object.text("endpoint", self.endpoint.as_str());
        object.number("expected_status", self.expected_status as u64);
        object.number("timeout_seconds", self.timeout_seconds as u64);
        object.finish()
    }

    /// What is wrong with a check by itself.
    pub open spec fn fault(self) -> Option<ManifestError> {
        let name = utf8(trimmed(self.name@));
        if name.len() == 0 || name.len() > 64 {
            Some(ManifestError::InvalidHealthCheckName)
        } else if !(100 <= self.expected_status <= 599) {
            Some(ManifestError::InvalidExpectedStatus)
        } else if !(1 <= self.timeout_seconds <= 120) {
            Some(ManifestError::InvalidHealthTimeout)
        } else {
            None
        }
    }

    pub fn validate(&self) -> (r: Result<(), ManifestError>)
        ensures
            match r {
                Ok(()) => self.fault() is None,
                Err(error) => self.fault() == Some(error),
            },
    {
        let name = trim(self.name.as_str());
        let size: usize = name.as_str().as_bytes().len();
        if size == 0 || size > 64 {
            return Err(ManifestError::InvalidHealthCheckName);
        }
        if self.expected_status < 100 || self.expected_status > 599 {
            return Err(ManifestError::InvalidExpectedStatus);
        }
        if self.timeout_seconds < 1 || self.timeout_seconds > 120 {
            return Err(ManifestError::InvalidHealthTimeout);
        }
        Ok(())
    }
}

/// Data that a project keeps.
#[derive(Clone, Debug, PartialEq, Eq)]
pub struct DataVolumePolicy {
    pub path: AbsolutePolicyPath,
    pub class: DataClass,
    pub backup_required: bool,
}

impl DataVolumePolicy {
    /// The document as JSON text.
    pub open spec fn json(self) -> Seq<char> {
        json_object(
            no_members()
                .push(("path"@, json_string(self.path@)))
                .push(("class"@, json_string(self.class.name())))
                .push(("backup_required"@, json_bool(self.backup_required))),
        )
    }

    pub fn to_json(&self) -> (r: String)
        ensures
            r@ == self.json(),
    {
        let mut object = JsonObject::new();
        object.text("path", self.path.as_str());
        object.text("class", self.class.as_str());
        object.boolean("backup_required", self.backup_required);
        object.finish()
    }
}

/// How the data of a project is migrated.
#[derive(Clone, Copy, Debug, PartialEq, Eq, Structural)]
pub struct MigrationPolicy {
    pub entrypoint: MigrationEntrypoint,
    pub write_fence: WriteFencePolicy,
}

impl MigrationPolicy {
    /// The document as JSON text.
    pub open spec fn json(self) -> Seq<char> {
        json_object(
            no_members()
                .push(("entrypoint"@, json_string(self.entrypoint.name())))
                .push(("write_fence"@, json_string(self.write_fence.name()))),
        )
    }

    pub fn to_json(&self) -> (r: String)
        ensures
            r@ == self.json(),
    {
        let mut object = JsonObject::new();
        object.text("entrypoint", self.entrypoint.as_str());
        object.text("write_fence", self.write_fence.as_str());
        object.finish()
    }
}

/// How a project is rolled back.
#[derive(Clone, Copy, Debug, PartialEq, Eq, Structural)]
pub struct RollbackPolicy {
    pub code_rollback: bool,
    pub soak_seconds: u32,
}

impl RollbackPolicy {
    /// The document as JSON text.
    pub open spec fn json(self) -> Seq<char> {
        json_object(
            no_members()
                .push(("code_rollback"@, json_bool(self.code_rollback)))
                .push(("soak_seconds"@, json_nat(self.soak_seconds as nat))),
        )
    }

    pub fn to_json(&self) -> (r: String)
        ensures
            r@ == self.json(),
    {
        let mut object = JsonObject::new();
        object.boolean("code_rollback", self.code_rollback);
        object.number("soak_seconds", self.soak_seconds as u64);
        object.finish()
    }
}

/// How a project tells of itself.
#[derive(Clone, Copy, Debug, PartialEq, Eq, Structural)]
pub struct NotificationPolicy {
    pub route: NotificationRoute,
    pub maintenance_suppression: bool,
}

impl NotificationPolicy {
    /// The document as JSON text.
    pub open spec fn json(self) -> Seq<char> {
        json_object(
            no_members()
                .push(("route"@, json_string(self.route.name())))
                .push(("maintenance_suppression"@, json_bool(self.maintenance_suppression))),
        )
    }

    pub fn to_json(&self) -> (r: String)
        ensures
            r@ == self.json(),
    {
        let mut object = JsonObject::new();
        object.text("route", self.route.as_str());
        object.boolean("maintenance_suppression", self.maintenance_suppression);
        object.finish()
    }
}

/// Checks as a JSON array.
pub open spec fn health_checks_json(values: Seq<HealthCheckPolicy>) -> Seq<char> {
    json_array(values.map_values(|value: HealthCheckPolicy| value.json()))
}

fn health_checks_json_text(values: &Vec<HealthCheckPolicy>) -> (r: String)
    ensures
        r@ == health_checks_json(values@),
{
    let mut array = JsonArray::new();
    let mut i: usize = 0;
    while i < values.len()
        invariant
            i <= values.len(),
            array.wf(),
            array@ == values@.take(i as int).map_values(|value: HealthCheckPolicy| value.json()),
        decreases values.len() - i,
    {
        let item = values[i].to_json();
        array.raw(item.as_str());
        i += 1;
        assert(array@ =~= values@.take(i as int).map_values(|value: HealthCheckPolicy| value.json()));
    }
    assert(values@.take(i as int) =~= values@);
    array.finish()
}

/// Data as a JSON array.
pub open spec fn data_volumes_json(values: Seq<DataVolumePolicy>) -> Seq<char> {
    json_array(values.map_values(|value: DataVolumePolicy| value.json()))
}

fn data_volumes_json_text(values: &Vec<DataVolumePolicy>) -> (r: String)
    ensures
        r@ == data_volumes_json(values@),
{
    let mut array = JsonArray::new();
    let mut i: usize = 0;
    while i < values.len()
        invariant
            i <= values.len(),
            array.wf(),
            array@ == values@.take(i as int).map_values(|value: DataVolumePolicy| value.json()),
        decreases values.len() - i,
    {
        let item = values[i].to_json();
        array.raw(item.as_str());
        i += 1;
        assert(array@ =~= values@.take(i as int).map_values(|value: DataVolumePolicy| value.json()));
    }
    assert(values@.take(i as int) =~= values@);
    array.finish()
}

/// What is wrong with a list of checks: the first that is out of order or has the name of one before
/// it.
pub open spec fn checks_fault(checks: Seq<HealthCheckPolicy>) -> Option<ManifestError>
    decreases checks.len(),
{
    if checks.len() == 0 {
        None
    } else {
        let before = checks.drop_last();
        let item = checks.last();
        either(
            checks_fault(before),
            either(
                item.fault(),
                if exists|i: int| 0 <= i < before.len() && (#[trigger] before[i]).name@ == item.name@ {
                    Some(ManifestError::DuplicateHealthCheck(item.name))
                } else {
                    None
                },
            ),
        )
    }
}

proof fn lemma_checks_fault(checks: Seq<HealthCheckPolicy>, count: int)
    requires
        0 <= count <= checks.len(),
        checks_fault(checks.take(count)) is Some,
    ensures
        checks_fault(checks) == checks_fault(checks.take(count)),
    decreases checks.len() - count,
{
    if count == checks.len() {
        assert(checks.take(count) =~= checks);
    } else {
        assert(checks.take(count + 1).drop_last() =~= checks.take(count));
        lemma_checks_fault(checks, count + 1);
    }
}

fn check_checks(checks: &Vec<HealthCheckPolicy>) -> (r: Result<(), ManifestError>)
    ensures
        match r {
            Ok(()) => checks_fault(checks@) is None,
            Err(error) => checks_fault(checks@) == Some(error),
        },
{
    let mut i: usize = 0;
    assert(checks@.take(0) =~= seq![]);
    while i < checks.len()
        invariant
            i <= checks.len(),
            checks_fault(checks@.take(i as int)) is None,
        decreases checks.len() - i,
    {
        let ghost before = checks@.take(i as int);
        let ghost grown = checks@.take(i + 1);
        proof {
            assert(grown.drop_last() =~= before);
        }
        let item = &checks[i];
        let mut fault: Option<ManifestError> = match item.validate() {
            Err(error) => Some(error),
            Ok(()) => None,
        };
        if fault.is_none() {
            let mut k: usize = 0;
            let mut found = false;
            while k < i && !found
                invariant
                    k <= i < checks.len(),
                    before == checks@.take(i as int),
                    *item == checks@[i as int],
                    found ==> exists|j: int| 0 <= j < before.len() && (#[trigger] before[j]).name@
                        == item.name@,
                    !found ==> forall|j: int| 0 <= j < k ==> (#[trigger] before[j]).name@
                        != item.name@,
                decreases i - k,
            {
                if same_text(checks[k].name.as_str(), item.name.as_str()) {
                    assert(before[k as int].name@ == item.name@);
                    found = true;
                }
                k += 1;
            }
            if found {
                fault = Some(ManifestError::DuplicateHealthCheck(item.name.clone()));
            }
        }
        assert(checks_fault(grown) == fault);
        match fault {
            Some(error) => {
                proof {
                    lemma_checks_fault(checks@, i + 1);
                }
                return Err(error);
            },
            None => {},
        }
        i += 1;
    }
    assert(checks@.take(i as int) =~= checks@);
    Ok(())
}

/// What is wrong with the data of a project: the first that is the root or has the path of one
/// before it.
pub open spec fn volumes_fault(volumes: Seq<DataVolumePolicy>) -> Option<ManifestError>
    decreases volumes.len(),
{
    if volumes.len() == 0 {
        None
    } else {
        let before = volumes.drop_last();
        let item = volumes.last();
        either(
            volumes_fault(before),
            either(
                if item.path@ == "/"@ {
                    Some(ManifestError::UnsafeDataPath(item.path.held()))
                } else {
                    None
                },
                if exists|i: int| 0 <= i < before.len() && (#[trigger] before[i]).path@ == item.path@ {
                    Some(ManifestError::DuplicateDataPath(item.path.held()))
                } else {
                    None
                },
            ),
        )
    }
}

proof fn lemma_volumes_fault(volumes: Seq<DataVolumePolicy>, count: int)
    requires
        0 <= count <= volumes.len(),
        volumes_fault(volumes.take(count)) is Some,
    ensures
        volumes_fault(volumes) == volumes_fault(volumes.take(count)),
    decreases volumes.len() - count,
{
    if count == volumes.len() {
        assert(volumes.take(count) =~= volumes);
    } else {
        assert(volumes.take(count + 1).drop_last() =~= volumes.take(count));
        lemma_volumes_fault(volumes, count + 1);
    }
}

fn check_volumes(volumes: &Vec<DataVolumePolicy>) -> (r: Result<(), ManifestError>)
    ensures
        match r {
            Ok(()) => volumes_fault(volumes@) is None,
            Err(error) => volumes_fault(volumes@) == Some(error),
        },
{
    let mut i: usize = 0;
    assert(volumes@.take(0) =~= seq![]);
    while i < volumes.len()
        invariant
            i <= volumes.len(),
            volumes_fault(volumes@.take(i as int)) is None,
        decreases volumes.len() - i,
    {
        let ghost before = volumes@.take(i as int);
        let ghost grown = volumes@.take(i + 1);
        proof {
            assert(grown.drop_last() =~= before);
        }
        let item = &volumes[i];
        let mut fault: Option<ManifestError> = if same_text(item.path.as_str(), "/") {
            Some(ManifestError::UnsafeDataPath(item.path.to_text()))
        } else {
            None
        };
        if fault.is_none() {
            let mut k: usize = 0;
            let mut found = false;
            while k < i && !found
                invariant
                    k <= i < volumes.len(),
                    before == volumes@.take(i as int),
                    *item == volumes@[i as int],
                    found ==> exists|j: int| 0 <= j < before.len() && (#[trigger] before[j]).path@
                        == item.path@,
                    !found ==> forall|j: int| 0 <= j < k ==> (#[trigger] before[j]).path@
                        != item.path@,
                decreases i - k,
            {
                if same_text(volumes[k].path.as_str(), item.path.as_str()) {
                    assert(before[k as int].path@ == item.path@);
                    found = true;
                }
                k += 1;
            }
            if found {
                fault = Some(ManifestError::DuplicateDataPath(item.path.to_text()));
            }
        }
        assert(volumes_fault(grown) == fault);
        match fault {
            Some(error) => {
                proof {
                    lemma_volumes_fault(volumes@, i + 1);
                }
                return Err(error);
            },
            None => {},
        }
        i += 1;
    }
    assert(volumes@.take(i as int) =~= volumes@);
    Ok(())
}

/// What is wrong with what manifests of both versions hold.
pub open spec fn common_fault(
    display_name: Seq<char>,
    build: BuildPolicy,
    health_checks: Seq<HealthCheckPolicy>,
    data_volumes: Seq<DataVolumePolicy>,
    rollback: RollbackPolicy,
) -> Option<ManifestError> {
    let name = utf8(trimmed(display_name));
    if name.len() == 0 || name.len() > 96 {
        Some(ManifestError::InvalidDisplayName)
    } else if !build.valid() {
        Some(ManifestError::InvalidDockerfilePath)
    } else if health_checks.len() == 0 {
        Some(ManifestError::MissingHealthCheck)
    } else {
        either(
            checks_fault(health_checks),
            either(
                volumes_fault(data_volumes),
                if 10 <= rollback.soak_seconds <= 86_400 {
                    None
                } else {
                    Some(ManifestError::InvalidSoakDuration)
                },
            ),
        )
    }
}

fn validate_common_manifest(
    display_name: &str,
    source: &SourcePolicy,
    build: &BuildPolicy,
    health_checks: &Vec<HealthCheckPolicy>,
    data_volumes: &Vec<DataVolumePolicy>,
    rollback: &RollbackPolicy,
) -> (r: Result<(), ManifestError>)
    ensures
        match r {
            Ok(()) => common_fault(
                display_name@,
                *build,
                health_checks@,
                data_volumes@,
                *rollback,
            ) is None,
            Err(error) => common_fault(
                display_name@,
                *build,
                health_checks@,
                data_volumes@,
                *rollback,
            ) == Some(error),
        },
{
    let display_name = trim(display_name);
    let size: usize = display_name.as_str().as_bytes().len();
    if size == 0 || size > 96 {
        return Err(ManifestError::InvalidDisplayName);
    }
    match source.validate() {
        Err(error) => return Err(error),
        Ok(()) => {},
    }
    match build.validate() {
        Err(error) => return Err(error),
        Ok(()) => {},
    }
    if health_checks.len() == 0 {
        return Err(ManifestError::MissingHealthCheck);
    }
    match check_checks(health_checks) {
        Err(error) => return Err(error),
        Ok(()) => {},
    }
    match check_volumes(data_volumes) {
        Err(error) => return Err(error),
        Ok(()) => {},
    }
    if rollback.soak_seconds < 10 || rollback.soak_seconds > 86_400 {
        return Err(ManifestError::InvalidSoakDuration);
    }
    Ok(())
}

/// The manifest of a project, before workflows.
#[derive(Clone, Debug, PartialEq, Eq)]
pub struct ProjectManifestV1 {
    pub schema_version: u16,
    pub project_id: ProjectId,
    pub display_name: String,
    pub source: SourcePolicy,
    pub ci: CiPolicy,
    pub build: BuildPolicy,
    pub health_checks: Vec<HealthCheckPolicy>,
    pub data_volumes: Vec<DataVolumePolicy>,
    pub migration: MigrationPolicy,
    pub rollback: RollbackPolicy,
    pub notifications: NotificationPolicy,
}

impl ProjectManifestV1 {
    /// What is wrong with a manifest. Without a workflow only images are built.
    pub open spec fn fault(self) -> Option<ManifestError> {
        if self.schema_version != PROJECT_MANIFEST_SCHEMA_VERSION {
            Some(ManifestError::UnsupportedSchemaVersion(self.schema_version))
        } else {
            either(
                common_fault(
                    self.display_name@,
                    self.build,
                    self.health_checks@,
                    self.data_volumes@,
                    self.rollback,
                ),
                if self.build.kind is Oci {
                    None
                } else {
                    Some(ManifestError::BuildWorkflowMismatch)
                },
            )
        }
    }

    pub fn validate(&self) -> (r: Result<(), ManifestError>)
        ensures
            match r {
                Ok(()) => self.fault() is None,
                Err(error) => self.fault() == Some(error),
            },
    {
        if self.schema_version != PROJECT_MANIFEST_SCHEMA_VERSION {
            return Err(ManifestError::UnsupportedSchemaVersion(self.schema_version));
        }
        match validate_common_manifest(
            self.display_name.as_str(),
            &self.source,
            &self.build,
            &self.health_checks,
            &self.data_volumes,
            &self.rollback,
        ) {
            Err(error) => return Err(error),
            Ok(()) => {},
        }
        if self.build.kind != BuildKind::Oci {
            return Err(ManifestError::BuildWorkflowMismatch);
        }
        Ok(())
    }
}

/// The manifest of a project, with its workflow.
#[derive(Clone, Debug, PartialEq, Eq)]
pub struct ProjectManifestV2 {
    pub schema_version: u16,
    pub project_id: ProjectId,
    pub display_name: String,
    pub source: SourcePolicy,
    pub ci: CiPolicy,
    pub build: BuildPolicy,
    pub workflow: WorkflowPolicyV1,
    pub host_preparation: Option<WorkflowHostPreparationPolicyV1>,
    pub health_checks: Vec<HealthCheckPolicy>,
    pub data_volumes: Vec<DataVolumePolicy>,
    pub migration: MigrationPolicy,
    pub rollback: RollbackPolicy,
    pub notifications: NotificationPolicy,
}

/// The place of the first node of a kind, or the number of nodes where there is none.
pub open spec fn kind_place(nodes: Seq<WorkflowNodeV1>, kind: WorkflowNodeKindV1) -> int
    decreases nodes.len(),
{
    if nodes.len() == 0 || nodes[0].kind == kind {
        0
    } else {
        1 + kind_place(nodes.drop_first(), kind)
    }
}

fn find_kind(nodes: &Vec<WorkflowNodeV1>, kind: WorkflowNodeKindV1) -> (r: usize)
    ensures
        r == kind_place(nodes@, kind),
        r <= nodes@.len(),
{
    let mut i: usize = 0;
    assert(nodes@.skip(0) =~= nodes@);
    while i < nodes.len()
        invariant
            i <= nodes.len(),
            kind_place(nodes@, kind) == i + kind_place(nodes@.skip(i as int), kind),
        decreases nodes.len() - i,
    {
        if nodes[i].kind == kind {
            return i;
        }
        proof {
            assert(nodes@.skip(i as int).drop_first() =~= nodes@.skip(i + 1));
        }
        i += 1;
    }
    i
}

fn any_backup(volumes: &Vec<DataVolumePolicy>) -> (r: bool)
    ensures
        r == needs_backup(volumes@),
{
    let mut i: usize = 0;
    while i < volumes.len()
        invariant
            i <= volumes.len(),
            forall|k: int| 0 <= k < i ==> !(#[trigger] volumes@[k]).backup_required,
        decreases volumes.len() - i,
    {
        if volumes[i].backup_required {
            assert(volumes@[i as int].backup_required);
            return true;
        }
        i += 1;
    }
    false
}

/// Some of the data must be backed up.
pub open spec fn needs_backup(volumes: Seq<DataVolumePolicy>) -> bool {
    exists|i: int| 0 <= i < volumes.len() && (#[trigger] volumes[i]).backup_required
}

impl ProjectManifestV2 {
    /// The workflow has a node of a kind.
    pub open spec fn has_kind(self, kind: WorkflowNodeKindV1) -> bool {
        kind_place(self.workflow.nodes@, kind) < self.workflow.nodes@.len()
    }

    /// The first node of a kind has a profile, and this is its place.
    pub open spec fn kind_profile(self, kind: WorkflowNodeKindV1) -> Option<int> {
        let at = profile_place(
            self.workflow.execution_profiles@,
            self.workflow.nodes@[kind_place(self.workflow.nodes@, kind)].profile_id@,
        );
        if self.has_kind(kind) && at < self.workflow.execution_profiles@.len() {
            Some(at)
        } else {
            None
        }
    }

    fn find_kind_profile(&self, kind: WorkflowNodeKindV1) -> (r: Option<usize>)
        ensures
            match r {
                Some(place) => self.kind_profile(kind) == Some(place as int) && place
                    < self.workflow.execution_profiles@.len(),
                None => self.kind_profile(kind) is None,
            },
    {
        let place = find_kind(&self.workflow.nodes, kind);
        if place >= self.workflow.nodes.len() {
            return None;
        }
        let at = crate::domain::workflow_graph::profile_index(
            &self.workflow.execution_profiles,
            &self.workflow.nodes[place].profile_id,
        );
        if at < self.workflow.execution_profiles.len() {
            Some(at)
        } else {
            None
        }
    }

    /// A workflow that hands its release over is the one of this project: a native build without
    /// data, migration or fence, whose code can be rolled back.
    pub open spec fn hands_itself_over(self) -> bool {
        &&& self.project_id@ == "rdashboard"@
        &&& self.build.kind is Native
        &&& self.data_volumes@.len() == 0
        &&& self.migration.entrypoint is Absent
        &&& self.migration.write_fence is Unsupported
        &&& self.rollback.code_rollback
    }

    /// The build makes what the adapter of the release builds.
    pub open spec fn builds(self) -> bool {
        self.kind_profile(WorkflowNodeKindV1::ReleaseBuild) matches Some(at) && match (
            self.build.kind,
            self.workflow.execution_profiles@[at].adapter_id,
        ) {
            (BuildKind::Oci, WorkflowAdapterIdV1::WorkerOciReleaseBuildV1) => true,
            (BuildKind::Native, WorkflowAdapterIdV1::WorkerNativeReleaseBuildV1) => true,
            _ => false,
        }
    }

    /// The node that prepares the host reaches what its policy needs.
    pub open spec fn prepares(self) -> bool {
        self.host_preparation matches Some(policy) ==> policy.valid() && (self.kind_profile(
            WorkflowNodeKindV1::HostPrepare,
        ) matches Some(at) && self.workflow.execution_profiles@[at].network_class
            == policy.network())
    }

    /// What is wrong with a manifest: its version, what all manifests hold, its workflow, or that
    /// the workflow does not go with the rest, the first of these.
    pub open spec fn fault(self) -> Option<ManifestError> {
        if self.schema_version != PROJECT_MANIFEST_V2_SCHEMA_VERSION {
            Some(ManifestError::UnsupportedSchemaVersion(self.schema_version))
        } else {
            either(
                common_fault(
                    self.display_name@,
                    self.build,
                    self.health_checks@,
                    self.data_volumes@,
                    self.rollback,
                ),
                if self.workflow.fault() is Some {
                    Some(ManifestError::WorkflowInvalid)
                } else if self.workflow.delivery_mode is SelfUpdateHandoff
                    && !self.hands_itself_over() {
                    Some(ManifestError::SelfUpdateWorkflowMismatch)
                } else if !self.builds() {
                    Some(ManifestError::BuildWorkflowMismatch)
                } else if !self.prepares() {
                    Some(ManifestError::WorkflowInvalid)
                } else if self.has_kind(WorkflowNodeKindV1::Backup) != needs_backup(
                    self.data_volumes@,
                ) {
                    Some(ManifestError::WorkflowBackupMismatch)
                } else if self.has_kind(WorkflowNodeKindV1::Migration) != !(
                self.migration.entrypoint is Absent) {
                    Some(ManifestError::WorkflowMigrationMismatch)
                } else {
                    None
                },
            )
        }
    }

    pub fn validate(&self) -> (r: Result<(), ManifestError>)
        ensures
            match r {
                Ok(()) => self.fault() is None,
                Err(error) => self.fault() == Some(error),
            },
    {
        if self.schema_version != PROJECT_MANIFEST_V2_SCHEMA_VERSION {
            return Err(ManifestError::UnsupportedSchemaVersion(self.schema_version));
        }
        match validate_common_manifest(
            self.display_name.as_str(),
            &self.source,
            &self.build,
            &self.health_checks,
            &self.data_volumes,
            &self.rollback,
        ) {
            Err(error) => return Err(error),
            Ok(()) => {},
        }
        if self.workflow.validate().is_err() {
            return Err(ManifestError::WorkflowInvalid);
        }
        if self.workflow.delivery_mode == WorkflowDeliveryModeV1::SelfUpdateHandoff && (!same_text(
            self.project_id.as_str(),
            "rdashboard",
        ) || self.build.kind != BuildKind::Native || self.data_volumes.len() != 0
            || self.migration.entrypoint != MigrationEntrypoint::Absent
            || self.migration.write_fence != WriteFencePolicy::Unsupported
            || !self.rollback.code_rollback) {
            return Err(ManifestError::SelfUpdateWorkflowMismatch);
        }
        let builds = match self.find_kind_profile(WorkflowNodeKindV1::ReleaseBuild) {
            None => false,
            Some(at) => match (self.build.kind, self.workflow.execution_profiles[at].adapter_id) {
                (BuildKind::Oci, WorkflowAdapterIdV1::WorkerOciReleaseBuildV1) => true,
                (BuildKind::Native, WorkflowAdapterIdV1::WorkerNativeReleaseBuildV1) => true,
                _ => false,
            },
        };
        if !builds {
            return Err(ManifestError::BuildWorkflowMismatch);
        }
        match &self.host_preparation {
            Some(policy) => {
                let reaches = match self.find_kind_profile(WorkflowNodeKindV1::HostPrepare) {
                    None => false,
                    Some(at) => self.workflow.execution_profiles[at].network_class
                        == policy.required_network_class(),
                };
                if policy.validate().is_err() || !reaches {
                    return Err(ManifestError::WorkflowInvalid);
                }
            },
            None => {},
        }
        let has_backup = find_kind(&self.workflow.nodes, WorkflowNodeKindV1::Backup)
            < self.workflow.nodes.len();
        if has_backup != any_backup(&self.data_volumes) {
            return Err(ManifestError::WorkflowBackupMismatch);
        }
        let has_migration = find_kind(&self.workflow.nodes, WorkflowNodeKindV1::Migration)
            < self.workflow.nodes.len();
        if has_migration != (self.migration.entrypoint != MigrationEntrypoint::Absent) {
            return Err(ManifestError::WorkflowMigrationMismatch);
        }
        Ok(())
    }

    /// The document as JSON text.
    pub open spec fn json(self) -> Seq<char> {
        let members = no_members()
            .push(("schema_version"@, json_nat(self.schema_version as nat)))
            .push(("project_id"@, json_string(self.project_id@)))
            .push(("display_name"@, json_string(self.display_name@)))
            .push(("source"@, self.source.json()))
            .push(("ci"@, json_string(self.ci.name())))
            .push(("build"@, self.build.json()))
            .push(("workflow"@, self.workflow.json()));
        let members = match self.host_preparation {
            Some(value) => members.push(("host_preparation"@, value.json())),
            None => members,
        };
        let members = members
            .push(("health_checks"@, health_checks_json(self.health_checks@)))
            .push(("data_volumes"@, data_volumes_json(self.data_volumes@)))
            .push(("migration"@, self.migration.json()))
            .push(("rollback"@, self.rollback.json()))
            .push(("notifications"@, self.notifications.json()));
        json_object(members)
    }

    pub fn to_json(&self) -> (r: String)
        ensures
            r@ == self.json(),
    {
        let mut object = JsonObject::new();
        object.number("schema_version", self.schema_version as u64);
        object.text("project_id", self.project_id.as_str());
        object.text("display_name", self.display_name.as_str());
        let source = self.source.to_json();
        object.raw("source", source.as_str());
        object.text("ci", self.ci.as_str());
        let build = self.build.to_json();
        object.raw("build", build.as_str());
        let workflow = self.workflow.to_json();
        object.raw("workflow", workflow.as_str());
        match &self.host_preparation {
            Some(value) => {
                let value = value.to_json();
                object.raw("host_preparation", value.as_str());
            },
            None => {},
        }
        let health_checks = health_checks_json_text(&self.health_checks);
        object.raw("health_checks", health_checks.as_str());
        let data_volumes = data_volumes_json_text(&self.data_volumes);
        object.raw("data_volumes", data_volumes.as_str());
        let migration = self.migration.to_json();
        object.raw("migration", migration.as_str());
        let rollback = self.rollback.to_json();
        object.raw("rollback", rollback.as_str());
        let notifications = self.notifications.to_json();
        object.raw("notifications", notifications.as_str());
        object.finish()
    }

    /// What the digest of the policy is taken over.
    pub open spec fn digest_json(self) -> Seq<char> {
        json_object(
            no_members()
                .push(("purpose"@, json_string("rdashboard.project-workflow-policy.v2"@)))
                .push(("manifest"@, self.json())),
        )
    }

    /// The digest of a valid manifest.
    pub fn workflow_policy_digest(&self) -> (r: Result<EvidenceDigest, ManifestError>)
        ensures
            match r {
                Ok(digest) => self.fault() is None && document_digest(self.digest_json()) == Some(
                    digest@,
                ),
                Err(error) => if self.fault() is Some {
                    self.fault() == Some(error)
                } else {
                    document_digest(self.digest_json()) is None && error is CanonicalEncoding
                },
            },
    {
        match self.validate() {
            Err(error) => return Err(error),
            Ok(()) => {},
        }
        let manifest = self.to_json();
        let mut object = JsonObject::new();
        object.text("purpose", "rdashboard.project-workflow-policy.v2");
        object.raw("manifest", manifest.as_str());
        let text = object.finish();
        match digest_document(text.as_str()) {
            Ok(digest) => Ok(digest),
            Err(_) => Err(ManifestError::CanonicalEncoding),
        }
    }

    /// The canonical bytes of a valid manifest.
    pub fn canonical_bytes(&self) -> (r: Result<Vec<u8>, ManifestError>)
        ensures
            match r {
                Ok(bytes) => self.fault() is None && jcs(self.json()) == Some(bytes@),
                Err(error) => if self.fault() is Some {
                    self.fault() == Some(error)
                } else {
                    jcs(self.json()) is None && error is CanonicalEncoding
                },
            },
    {
        match self.validate() {
            Err(error) => return Err(error),
            Ok(()) => {},
        }
        let text = self.to_json();
        match canonical_bytes(text.as_str()) {
            Ok(bytes) => Ok(bytes),
            Err(_) => Err(ManifestError::CanonicalEncoding),
        }
    }

    /// Accepts a manifest that was read from some bytes, where the bytes are its canonical form and
    /// it is valid. `None` stands for bytes that hold no manifest at all.
    pub fn decode_canonical(parsed: Option<ProjectManifestV2>, bytes: &[u8]) -> (r: Result<
        ProjectManifestV2,
        ManifestError,
    >)
        ensures
            match (parsed, r) {
                (None, Err(error)) => error is InvalidManifestJson,
                (None, Ok(_)) => false,
                (Some(parsed), Ok(manifest)) => manifest == parsed && jcs(parsed.json()) == Some(
                    bytes@,
                ) && parsed.fault() is None,
                (Some(parsed), Err(error)) => if jcs(parsed.json()) is None {
                    error is CanonicalEncoding
                } else if jcs(parsed.json()) != Some(bytes@) {
                    error is NoncanonicalManifest
                } else {
                    parsed.fault() == Some(error)
                },
            },
    {
        match parsed {
            None => Err(ManifestError::InvalidManifestJson),
            Some(parsed) => {
                let text = parsed.to_json();
                match is_canonical(text.as_str(), bytes) {
                    Err(_) => Err(ManifestError::CanonicalEncoding),
                    Ok(false) => Err(ManifestError::NoncanonicalManifest),
                    Ok(true) => match parsed.validate() {
                        Err(error) => Err(error),
                        Ok(()) => Ok(parsed),
                    },
                }
            },
        }
    }
}

/// A repository is read over a protected connection, from a host and a path on it; no password is
/// written down for it, and no name where that would be a credential.
pub proof fn law_repositories_bear_no_credentials(url: UrlParts, r: bool)
    requires
        call_ensures(is_repository_url, (&url,), r),
    ensures
        r ==> !url.has_password && url.has_host && !url.has_query && !url.has_fragment,
        r ==> url.scheme@ == "https"@ || url.scheme@ == "ssh"@,
        r && url.username@ != ""@ ==> url.scheme@ == "ssh"@,
        r ==> url.path@ != ""@ && url.path@ != "/"@,
        url.scheme@ == "ssh"@ && url.has_host && !url.has_password && !url.has_query
            && !url.has_fragment && url.path@ != ""@ && url.path@ != "/"@ ==> r,
        url.scheme@ == "https"@ && url.username@ == ""@ && url.has_host && !url.has_password
            && !url.has_query && !url.has_fragment && url.path@ != ""@ && url.path@ != "/"@ ==> r,
{
    reveal_strlit("https");
    reveal_strlit("ssh");
    assert("https"@.len() != "ssh"@.len());
}

/// Health is asked of a host over the web, with no credentials at all.
pub proof fn law_endpoints_bear_no_credentials(url: UrlParts, r: bool)
    requires
        call_ensures(is_endpoint_url, (&url,), r),
    ensures
        r <==> (url.scheme@ == "http"@ || url.scheme@ == "https"@) && url.has_host && url.username@
            == ""@ && !url.has_password && !url.has_fragment,
{
}

/// A path of a policy leads from the root or does not, as its kind says, and has only names in it:
/// nothing empty, no place itself and nothing above it.
pub proof fn law_policy_paths_have_names_only(
    text: &str,
    rooted: Result<AbsolutePolicyPath, ManifestError>,
    below: Result<RelativePolicyPath, ManifestError>,
    a: int,
    b: int,
)
    requires
        call_ensures(AbsolutePolicyPath::parse, (text,), rooted),
        call_ensures(RelativePolicyPath::parse, (text,), below),
        part_at(text@, a, b),
        a > 0 || text@[0] != '/',
    ensures
        !(rooted is Ok && below is Ok),
        rooted is Ok ==> text@[0] == '/',
        below is Ok ==> text@[0] != '/',
        rooted is Ok && text@.len() > 1 || below is Ok ==> a < b && text@.subrange(a, b) != seq!['.']
            && text@.subrange(a, b) != seq!['.', '.'],
        rooted is Ok || below is Ok ==> !text@.contains('\0') && utf8(text@).len() <= 512,
{
    if rooted is Ok && text@.len() > 1 {
        lemma_every_part_is_plain(text@, 1, a, b);
    }
    if below is Ok {
        lemma_every_part_is_plain(text@, 0, a, b);
    }
}

proof fn lemma_checks(checks: Seq<HealthCheckPolicy>)
    requires
        checks_fault(checks) is None,
    ensures
        forall|i: int| 0 <= i < checks.len() ==> (#[trigger] checks[i]).fault() is None,
        forall|i: int, j: int|
            0 <= i < j < checks.len() ==> (#[trigger] checks[i]).name@ != (
            #[trigger] checks[j]).name@,
    decreases checks.len(),
{
    if checks.len() > 0 {
        let before = checks.drop_last();
        lemma_checks(before);
        assert forall|i: int| 0 <= i < checks.len() implies (#[trigger] checks[i]).fault()
            is None by {
            if i < before.len() {
                assert(before[i] == checks[i]);
            }
        }
        assert forall|i: int, j: int| 0 <= i < j < checks.len() implies (
        #[trigger] checks[i]).name@ != (#[trigger] checks[j]).name@ by {
            assert(before[i] == checks[i]);
            if j < before.len() {
                assert(before[j] == checks[j]);
            }
        }
    }
}

proof fn lemma_volumes(volumes: Seq<DataVolumePolicy>)
    requires
        volumes_fault(volumes) is None,
    ensures
        forall|i: int| 0 <= i < volumes.len() ==> (#[trigger] volumes[i]).path@ != "/"@,
        forall|i: int, j: int|
            0 <= i < j < volumes.len() ==> (#[trigger] volumes[i]).path@ != (
            #[trigger] volumes[j]).path@,
    decreases volumes.len(),
{
    if volumes.len() > 0 {
        let before = volumes.drop_last();
        lemma_volumes(before);
        assert forall|i: int| 0 <= i < volumes.len() implies (#[trigger] volumes[i]).path@
            != "/"@ by {
            if i < before.len() {
                assert(before[i] == volumes[i]);
            }
        }
        assert forall|i: int, j: int| 0 <= i < j < volumes.len() implies (
        #[trigger] volumes[i]).path@ != (#[trigger] volumes[j]).path@ by {
            assert(before[i] == volumes[i]);
            if j < before.len() {
                assert(before[j] == volumes[j]);
            }
        }
    }
}

/// The health of what is released is checked, at least in one way and in different ways, for answers
/// that a server can give and for two minutes at most; its data lies in different places, none of
/// which is all there is; and it is watched for between ten seconds and a day.
pub open spec fn checked_and_watched(
    build: BuildPolicy,
    checks: Seq<HealthCheckPolicy>,
    volumes: Seq<DataVolumePolicy>,
    rollback: RollbackPolicy,
) -> bool {
    &&& checks.len() > 0
    &&& forall|i: int|
        0 <= i < checks.len() ==> 100 <= (#[trigger] checks[i]).expected_status <= 599 && 1
            <= checks[i].timeout_seconds <= 120
    &&& forall|i: int, j: int|
        0 <= i < j < checks.len() ==> (#[trigger] checks[i]).name@ != (#[trigger] checks[j]).name@
    &&& forall|i: int| 0 <= i < volumes.len() ==> (#[trigger] volumes[i]).path@ != "/"@
    &&& forall|i: int, j: int|
        0 <= i < j < volumes.len() ==> (#[trigger] volumes[i]).path@ != (
        #[trigger] volumes[j]).path@
    &&& 10 <= rollback.soak_seconds <= 86_400
    &&& build.dockerfile is Some <==> build.kind is Oci
}

/// What a valid manifest of the first version brings out is an image, checked and watched.
pub proof fn law_first_manifests_bring_out_images(manifest: ProjectManifestV1)
    requires
        call_ensures(ProjectManifestV1::validate, (&manifest,), Ok::<(), ManifestError>(())),
    ensures
        manifest.schema_version == 1,
        manifest.build.kind is Oci,
        manifest.build.dockerfile is Some,
        checked_and_watched(
            manifest.build,
            manifest.health_checks@,
            manifest.data_volumes@,
            manifest.rollback,
        ),
{
    lemma_checks(manifest.health_checks@);
    lemma_volumes(manifest.data_volumes@);
}

proof fn lemma_kind_place(nodes: Seq<WorkflowNodeV1>, kind: WorkflowNodeKindV1)
    ensures
        0 <= kind_place(nodes, kind) <= nodes.len(),
        kind_place(nodes, kind) < nodes.len() ==> nodes[kind_place(nodes, kind)].kind == kind,
        forall|i: int| 0 <= i < kind_place(nodes, kind) ==> (#[trigger] nodes[i]).kind != kind,
    decreases nodes.len(),
{
    if nodes.len() > 0 && nodes[0].kind != kind {
        let rest = nodes.drop_first();
        lemma_kind_place(rest, kind);
        assert forall|i: int| 0 <= i < kind_place(nodes, kind) implies (#[trigger] nodes[i]).kind
            != kind by {
            if i > 0 {
                assert(nodes[i] == rest[i - 1]);
            }
        }
    }
}

/// A workflow of a valid manifest backs up just if some data is to be backed up, and migrates just if
/// the project can; it is built as the project is built; and only the dashboard hands an update of
/// itself over, which keeps no data, migrates nothing and can go back.
#[verifier::rlimit(40)]
pub proof fn law_workflows_do_what_their_manifest_asks(manifest: ProjectManifestV2)
    requires
        call_ensures(ProjectManifestV2::validate, (&manifest,), Ok::<(), ManifestError>(())),
    ensures
        manifest.schema_version == 2,
        checked_and_watched(
            manifest.build,
            manifest.health_checks@,
            manifest.data_volumes@,
            manifest.rollback,
        ),
        has_kind(manifest.workflow.nodes@, WorkflowNodeKindV1::Backup) <==> exists|i: int|
            0 <= i < manifest.data_volumes@.len() && (
            #[trigger] manifest.data_volumes@[i]).backup_required,
        has_kind(manifest.workflow.nodes@, WorkflowNodeKindV1::Migration)
            <==> manifest.migration.entrypoint is ApplicationMigrate,
        has_kind(manifest.workflow.nodes@, WorkflowNodeKindV1::ReleaseBuild),
        exists|at: int|
            0 <= at < manifest.workflow.execution_profiles@.len() && (
            #[trigger] manifest.workflow.execution_profiles@[at]).adapter_id == if manifest.build.kind
                is Oci {
                WorkflowAdapterIdV1::WorkerOciReleaseBuildV1
            } else {
                WorkflowAdapterIdV1::WorkerNativeReleaseBuildV1
            },
        manifest.workflow.delivery_mode is SelfUpdateHandoff ==> {
            &&& manifest.project_id@ == "rdashboard"@
            &&& manifest.build.kind is Native
            &&& manifest.data_volumes@.len() == 0
            &&& manifest.migration.entrypoint is Absent
            &&& manifest.migration.write_fence is Unsupported
            &&& manifest.rollback.code_rollback
        },
{
    lemma_checks(manifest.health_checks@);
    lemma_volumes(manifest.data_volumes@);
    lemma_has_kind(manifest, WorkflowNodeKindV1::Backup);
    lemma_has_kind(manifest, WorkflowNodeKindV1::Migration);
    lemma_has_kind(manifest, WorkflowNodeKindV1::ReleaseBuild);
    let at = manifest.kind_profile(WorkflowNodeKindV1::ReleaseBuild)->0;
    lemma_profile_places(
        manifest.workflow.execution_profiles@,
        manifest.workflow.nodes@[kind_place(
            manifest.workflow.nodes@,
            WorkflowNodeKindV1::ReleaseBuild,
        )].profile_id@,
    );
    assert(0 <= at < manifest.workflow.execution_profiles@.len());
}

proof fn lemma_has_kind(manifest: ProjectManifestV2, kind: WorkflowNodeKindV1)
    ensures
        manifest.has_kind(kind) <==> has_kind(manifest.workflow.nodes@, kind),
{
    reveal(has_kind);
    lemma_kind_place(manifest.workflow.nodes@, kind);
}

proof fn lemma_profile_places(
    profiles: Seq<super::workflow::WorkflowExecutionProfileV1>,
    id: Seq<char>,
)
    ensures
        0 <= profile_place(profiles, id) <= profiles.len(),
    decreases profiles.len(),
{
    if profiles.len() > 0 && profiles[0].profile_id@ != id {
        lemma_profile_places(profiles.drop_first(), id);
    }
}

} // verus!
