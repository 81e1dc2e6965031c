//! Failure capsules: what is told of a failed step, bounded in size and free of secrets.

use vstd::prelude::*;
use super::budget::FAILURE_CAPSULE_CAP_BYTES;
use super::execution::{
    execution_gaps, expected_execution_gaps, gaps_json, gaps_json_text, lower_token, same_gaps,
    ExecutionEvidenceGapV1, ExecutionProcessOutcomeV1, ExecutionResourceUsageV1,
    ExecutionStorageUsageV1,
};
use super::identifiers::{
    digest_option, digest_str, EvidenceDigest, GitCommitId, ProjectId, RunbookId,
};
use super::redaction::{cut, lemma_ascii_suffix, redacted, truncate_utf8, Redactor};
use super::states::{OperationPhase, Retryability};
use crate::json::{
    canonical_bytes, jcs, json_array, json_bool, json_int, json_nat, json_object, json_optional,
    json_optional_string, json_string, no_members, JsonArray, JsonObject,
};
use crate::text::{
    is_bounded_token, is_text_before, same_bytes, same_text, text_before, utf8, ByteClass,
};
use crate::unique_id::Uuid;

verus! {

pub const FAILURE_CAPSULE_V1_SCHEMA_VERSION: u16 = 1;

pub const FAILURE_CAPSULE_V2_SCHEMA_VERSION: u16 = 2;

pub const FAILURE_CAPSULE_RENDER_TEMPLATE_VERSION: u16 = 1;

const MAX_CODE_BYTES: usize = 96;

const MAX_WORKFLOW_KIND_BYTES: usize = 96;

const MAX_STEP_ID_BYTES: usize = 96;

const MAX_STEP_DISPLAY_BYTES: usize = 160;

const MAX_SUMMARY_BYTES: usize = 1024;

const MAX_CAUSE_BYTES: usize = 4096;

const MAX_CONTEXT_SUMMARY_BYTES: usize = 2048;

const MAX_ARTIFACTS: usize = 32;

const MAX_CONTEXT_EVENTS: usize = 24;

/// Why a capsule is refused.
#[derive(Clone, Copy, Debug, PartialEq, Eq, Structural)]
pub enum FailureCapsuleError {
    InvalidDocument,
    CapsuleTooLarge,
    CanonicalEncoding,
}

/// A character that can be shown: no control character but the line feed and the tab.
pub open spec fn safe_character(c: char) -> bool {
    c == '\n' || c == '\t' || !((c as int) < 0x20 || 0x7f <= (c as int) < 0xa0)
}

pub(crate) fn is_safe_character(c: char) -> (r: bool)
    ensures
        r == safe_character(c),
{
    let code: u32 = c as u32;
    c == '\n' || c == '\t' || !(code < 0x20 || (0x7f <= code && code < 0xa0))
}

/// Text of one to so many bytes that can be shown.
pub open spec fn plain_text(text: Seq<char>, most: int) -> bool {
    1 <= utf8(text).len() <= most && forall|i: int|
        0 <= i < text.len() ==> safe_character(#[trigger] text[i])
}

fn is_plain_text(text: &str, most: usize) -> (r: bool)
    ensures
        r == plain_text(text@, most as int),
{
    let size: usize = text.as_bytes().len();
    if size < 1 || size > most {
        return false;
    }
    let characters = crate::text::characters(text);
    let mut i: usize = 0;
    while i < characters.len()
        invariant
            i <= characters.len(),
            characters@ == text@,
            forall|k: int| 0 <= k < i ==> safe_character(#[trigger] text@[k]),
        decreases characters.len() - i,
    {
        if !is_safe_character(characters[i]) {
            assert(!safe_character(text@[i as int]));
            return false;
        }
        i += 1;
    }
    true
}

fn is_lower_token(text: &str, most: usize) -> (r: bool)
    ensures
        r == lower_token(text@, most as int),
{
    is_bounded_token(text, ByteClass::LowerToken, 1, most)
}

/// An error as it is told to an operator.
#[derive(Clone, Debug, PartialEq, Eq)]
pub struct StructuredError {
    pub code: String,
    pub summary: String,
    pub retryability: Retryability,
    pub runbook_id: Option<RunbookId>,
}

impl StructuredError {
    /// The document as JSON text.
    pub open spec fn json(self) -> Seq<char> {
        json_object(
            no_members()
                .push(("code"@, json_string(self.code@)))
                .push(("summary"@, json_string(self.summary@)))
                .push(("retryability"@, json_string(self.retryability.name())))
                .push(("runbook_id"@, json_optional_string(match self.runbook_id { Some(v) => Some(v@), None => None }))),
        )
    }

    pub fn to_json(&self) -> (r: String)
        ensures
            r@ == self.json(),
    {
        let mut object = JsonObject::new();
        object.text("code", self.code.as_str());
        object.text("summary", self.summary.as_str());
        object.text("retryability", self.retryability.as_str());
        match &self.runbook_id {
            Some(value) => object.text("runbook_id", value.as_str()),
            None => object.raw("runbook_id", "null"),
        }
        object.finish()
    }
}

/// A file that a failed step left behind.
#[derive(Clone, Debug, PartialEq, Eq)]
pub struct FailureArtifactV2 {
    pub kind: String,
    pub digest: EvidenceDigest,
    pub size_bytes: u64,
}

impl FailureArtifactV2 {
    /// The document as JSON text.
    pub open spec fn json(self) -> Seq<char> {
        json_object(
            no_members()
                .push(("kind"@, json_string(self.kind@)))
                .push(("digest"@, json_string(self.digest@)))
                .push(("size_bytes"@, json_nat(self.size_bytes as nat))),
        )
    }

    pub fn to_json(&self) -> (r: String)
        ensures
            r@ == self.json(),
    {
        let mut object = JsonObject::new();
        object.text("kind", self.kind.as_str());
        object.text("digest", self.digest.as_str());
        object.number("size_bytes", self.size_bytes);
        object.finish()
    }

    /// Artifacts are ordered by their kind, and those of one kind by their digest.
    pub open spec fn before(self, other: FailureArtifactV2) -> bool {
        text_before(self.kind@, other.kind@) || (self.kind@ == other.kind@ && text_before(
            self.digest@,
            other.digest@,
        ))
    }

    pub(crate) fn is_before(&self, other: &FailureArtifactV2) -> (r: bool)
        ensures
            r == self.before(*other),
    {
        is_text_before(self.kind.as_str(), other.kind.as_str()) || (same_text(
            self.kind.as_str(),
            other.kind.as_str(),
        ) && is_text_before(self.digest.as_str(), other.digest.as_str()))
    }
}

/// How an event stands to a failure.
#[derive(Clone, Copy, Debug, PartialEq, Eq, Hash, Structural)]
pub enum FailureContextRelationV2 {
    Before,
    Cause,
    After,
}

impl FailureContextRelationV2 {
    /// The name in documents.
    pub open spec fn name(self) -> Seq<char> {
        match self {
            FailureContextRelationV2::Before => "before"@,
            FailureContextRelationV2::Cause => "cause"@,
            FailureContextRelationV2::After => "after"@,
        }
    }

    pub fn as_str(self) -> (r: &'static str)
        ensures
            r@ == self.name(),
    {
        match self {
            FailureContextRelationV2::Before => "before",
            FailureContextRelationV2::Cause => "cause",
            FailureContextRelationV2::After => "after",
        }
    }
}

impl FailureContextRelationV2 {
    /// The name of the variant.
    pub open spec fn variant_name(self) -> Seq<char> {
        match self {
            FailureContextRelationV2::Before => "Before"@,
            FailureContextRelationV2::Cause => "Cause"@,
            FailureContextRelationV2::After => "After"@,
        }
    }

    pub fn variant_str(self) -> (r: &'static str)
        ensures
            r@ == self.variant_name(),
    {
        match self {
            FailureContextRelationV2::Before => "Before",
            FailureContextRelationV2::Cause => "Cause",
            FailureContextRelationV2::After => "After",
        }
    }
}

/// Something that happened around a failure.
#[derive(Clone, Debug, PartialEq, Eq)]
pub struct FailureContextEventV2 {
    pub at_ms: i64,
    pub relation: FailureContextRelationV2,
    pub kind: String,
    pub summary: String,
}

impl FailureContextEventV2 {
    /// The document as JSON text.
    pub open spec fn json(self) -> Seq<char> {
        json_object(
            no_members()
                .push(("at_ms"@, json_int(self.at_ms as int)))
                .push(("relation"@, json_string(self.relation.name())))
                .push(("kind"@, json_string(self.kind@)))
                .push(("summary"@, json_string(self.summary@))),
        )
    }

    pub fn to_json(&self) -> (r: String)
        ensures
            r@ == self.json(),
    {
        let mut object = JsonObject::new();
        object.signed("at_ms", self.at_ms);
        object.text("relation", self.relation.as_str());
        object.text("kind", self.kind.as_str());
        object.text("summary", self.summary.as_str());
        object.finish()
    }

    /// The event as plain values.
    pub open spec fn event(self) -> ContextEvent {
        ContextEvent {
            at_ms: self.at_ms as int,
            relation: self.relation,
            kind: self.kind@,
            summary: self.summary@,
        }
    }

    /// Whether the other event comes strictly before this one.
    pub(crate) fn is_after(&self, other: &FailureContextEventV2) -> (r: bool)
        ensures
            r == other.event().before(self.event()),
    {
        other.at_ms < self.at_ms || (other.at_ms == self.at_ms && is_text_before(
            other.kind.as_str(),
            self.kind.as_str(),
        ))
    }
}

/// An event around a failure as plain values.
pub struct ContextEvent {
    pub at_ms: int,
    pub relation: FailureContextRelationV2,
    pub kind: Seq<char>,
    pub summary: Seq<char>,
}

impl ContextEvent {
    /// Events are ordered by their time, and those of one time by their kind.
    pub open spec fn before(self, other: ContextEvent) -> bool {
        self.at_ms < other.at_ms || (self.at_ms == other.at_ms && text_before(
            self.kind,
            other.kind,
        ))
    }
}

/// The events as plain values.
pub open spec fn context_events(events: Seq<FailureContextEventV2>) -> Seq<ContextEvent> {
    events.map_values(|event: FailureContextEventV2| event.event())
}

/// Where the log of a failed step is kept.
#[derive(Clone, Debug, PartialEq, Eq)]
pub struct FailureRawLogReferenceV2 {
    pub redacted_log_digest: EvidenceDigest,
    pub compressed_size_bytes: u64,
    pub retained_until_ms: i64,
    pub truncated: bool,
}

impl FailureRawLogReferenceV2 {
    /// The document as JSON text.
    pub open spec fn json(self) -> Seq<char> {
        json_object(
            no_members()
                .push(("redacted_log_digest"@, json_string(self.redacted_log_digest@)))
                .push(("compressed_size_bytes"@, json_nat(self.compressed_size_bytes as nat)))
                .push(("retained_until_ms"@, json_int(self.retained_until_ms as int)))
                .push(("truncated"@, json_bool(self.truncated))),
        )
    }

    pub fn to_json(&self) -> (r: String)
        ensures
            r@ == self.json(),
    {
        let mut object = JsonObject::new();
        object.text("redacted_log_digest", self.redacted_log_digest.as_str());
        object.number("compressed_size_bytes", self.compressed_size_bytes);
        object.signed("retained_until_ms", self.retained_until_ms);
        object.boolean("truncated", self.truncated);
        object.finish()
    }
}

/// How the texts of a capsule were redacted.
#[derive(Clone, Debug, PartialEq, Eq)]
pub struct FailureRedactionEvidenceV2 {
    pub ruleset_digest: EvidenceDigest,
    pub replacement_count: u64,
}

impl FailureRedactionEvidenceV2 {
    /// The document as JSON text.
    pub open spec fn json(self) -> Seq<char> {
        json_object(
            no_members()
                .push(("ruleset_digest"@, json_string(self.ruleset_digest@)))
                .push(("replacement_count"@, json_nat(self.replacement_count as nat))),
        )
    }

    pub fn to_json(&self) -> (r: String)
        ensures
            r@ == self.json(),
    {
        let mut object = JsonObject::new();
        object.text("ruleset_digest", self.ruleset_digest.as_str());
        object.number("replacement_count", self.replacement_count);
        object.finish()
    }
}

/// Whether a failed operation changed production.
#[derive(Clone, Copy, Debug, PartialEq, Eq, Hash, Structural)]
pub enum ProductionMutationStateV2 {
    NotStarted,
    Started,
    Completed,
    Unknown,
}

impl ProductionMutationStateV2 {
    /// The name in documents.
    pub open spec fn name(self) -> Seq<char> {
        match self {
            ProductionMutationStateV2::NotStarted => "not_started"@,
            ProductionMutationStateV2::Started => "started"@,
            ProductionMutationStateV2::Completed => "completed"@,
            ProductionMutationStateV2::Unknown => "unknown"@,
        }
    }

    pub fn as_str(self) -> (r: &'static str)
        ensures
            r@ == self.name(),
    {
        match self {
            ProductionMutationStateV2::NotStarted => "not_started",
            ProductionMutationStateV2::Started => "started",
            ProductionMutationStateV2::Completed => "completed",
            ProductionMutationStateV2::Unknown => "unknown",
        }
    }
}

impl ProductionMutationStateV2 {
    /// The name of the variant.
    pub open spec fn variant_name(self) -> Seq<char> {
        match self {
            ProductionMutationStateV2::NotStarted => "NotStarted"@,
            ProductionMutationStateV2::Started => "Started"@,
            ProductionMutationStateV2::Completed => "Completed"@,
            ProductionMutationStateV2::Unknown => "Unknown"@,
        }
    }

    pub fn variant_str(self) -> (r: &'static str)
        ensures
            r@ == self.variant_name(),
    {
        match self {
            ProductionMutationStateV2::NotStarted => "NotStarted",
            ProductionMutationStateV2::Started => "Started",
            ProductionMutationStateV2::Completed => "Completed",
            ProductionMutationStateV2::Unknown => "Unknown",
        }
    }
}

/// Whether a failed operation is rolled back.
#[derive(Clone, Copy, Debug, PartialEq, Eq, Hash, Structural)]
pub enum FailureRollbackStateV2 {
    NotRequired,
    Eligible,
    Started,
    Succeeded,
    Failed,
    Unknown,
}

impl FailureRollbackStateV2 {
    /// The name in documents.
    pub open spec fn name(self) -> Seq<char> {
        match self {
            FailureRollbackStateV2::NotRequired => "not_required"@,
            FailureRollbackStateV2::Eligible => "eligible"@,
            FailureRollbackStateV2::Started => "started"@,
            FailureRollbackStateV2::Succeeded => "succeeded"@,
            FailureRollbackStateV2::Failed => "failed"@,
            FailureRollbackStateV2::Unknown => "unknown"@,
        }
    }

    pub fn as_str(self) -> (r: &'static str)
        ensures
            r@ == self.name(),
    {
        match self {
            FailureRollbackStateV2::NotRequired => "not_required",
            FailureRollbackStateV2::Eligible => "eligible",
            FailureRollbackStateV2::Started => "started",
            FailureRollbackStateV2::Succeeded => "succeeded",
            FailureRollbackStateV2::Failed => "failed",
            FailureRollbackStateV2::Unknown => "unknown",
        }
    }
}

impl FailureRollbackStateV2 {
    /// The name of the variant.
    pub open spec fn variant_name(self) -> Seq<char> {
        match self {
            FailureRollbackStateV2::NotRequired => "NotRequired"@,
            FailureRollbackStateV2::Eligible => "Eligible"@,
            FailureRollbackStateV2::Started => "Started"@,
            FailureRollbackStateV2::Succeeded => "Succeeded"@,
            FailureRollbackStateV2::Failed => "Failed"@,
            FailureRollbackStateV2::Unknown => "Unknown"@,
        }
    }

    pub fn variant_str(self) -> (r: &'static str)
        ensures
            r@ == self.variant_name(),
    {
        match self {
            FailureRollbackStateV2::NotRequired => "NotRequired",
            FailureRollbackStateV2::Eligible => "Eligible",
            FailureRollbackStateV2::Started => "Started",
            FailureRollbackStateV2::Succeeded => "Succeeded",
            FailureRollbackStateV2::Failed => "Failed",
            FailureRollbackStateV2::Unknown => "Unknown",
        }
    }
}

/// A piece of context that is missing.
#[derive(Clone, Copy, Debug, PartialEq, Eq, PartialOrd, Ord, Hash, Structural)]
pub enum FailureContextGapV2 {
    RawLog,
    TerminalReceipt,
    CleanupReceipt,
    PreviousRelease,
    AttemptedRelease,
    HealthEvidence,
}

impl FailureContextGapV2 {
    /// The name in documents.
    pub open spec fn name(self) -> Seq<char> {
        match self {
            FailureContextGapV2::RawLog => "raw_log"@,
            FailureContextGapV2::TerminalReceipt => "terminal_receipt"@,
            FailureContextGapV2::CleanupReceipt => "cleanup_receipt"@,
            FailureContextGapV2::PreviousRelease => "previous_release"@,
            FailureContextGapV2::AttemptedRelease => "attempted_release"@,
            FailureContextGapV2::HealthEvidence => "health_evidence"@,
        }
    }

    pub fn as_str(self) -> (r: &'static str)
        ensures
            r@ == self.name(),
    {
        match self {
            FailureContextGapV2::RawLog => "raw_log",
            FailureContextGapV2::TerminalReceipt => "terminal_receipt",
            FailureContextGapV2::CleanupReceipt => "cleanup_receipt",
            FailureContextGapV2::PreviousRelease => "previous_release",
            FailureContextGapV2::AttemptedRelease => "attempted_release",
            FailureContextGapV2::HealthEvidence => "health_evidence",
        }
    }
}

/// Artifacts as a JSON array.
pub open spec fn artifacts_json(values: Seq<FailureArtifactV2>) -> Seq<char> {
    json_array(values.map_values(|value: FailureArtifactV2| value.json()))
}

fn artifacts_json_text(values: &Vec<FailureArtifactV2>) -> (r: String)
    ensures
        r@ == artifacts_json(values@),
{
    let mut array = JsonArray::new();
    let mut i: usize = 0;
    while i < values.len()
        invariant
            i <= values.len(),
            array.wf(),
            array@ == values@.take(i as int).map_values(|value: FailureArtifactV2| value.json()),
        decreases values.len() - i,
    {
        let item = values[i].to_json();
        array.raw(item.as_str());
        i += 1;
        assert(array@ =~= values@.take(i as int).map_values(|value: FailureArtifactV2| value.json()));
    }
    assert(values@.take(i as int) =~= values@);
    array.finish()
}

/// Events as a JSON array.
pub open spec fn context_json(values: Seq<FailureContextEventV2>) -> Seq<char> {
    json_array(values.map_values(|value: FailureContextEventV2| value.json()))
}

fn context_json_text(values: &Vec<FailureContextEventV2>) -> (r: String)
    ensures
        r@ == context_json(values@),
{
    let mut array = JsonArray::new();
    let mut i: usize = 0;
    while i < values.len()
        invariant
            i <= values.len(),
            array.wf(),
            array@ == values@.take(i as int).map_values(|value: FailureContextEventV2| value.json()),
        decreases values.len() - i,
    {
        let item = values[i].to_json();
        array.raw(item.as_str());
        i += 1;
        assert(array@ =~= values@.take(i as int).map_values(|value: FailureContextEventV2| value.json()));
    }
    assert(values@.take(i as int) =~= values@);
    array.finish()
}

/// Gaps as a JSON array of their names.
pub open spec fn context_gaps_json(values: Seq<FailureContextGapV2>) -> Seq<char> {
    json_array(values.map_values(|value: FailureContextGapV2| json_string(value.name())))
}

fn context_gaps_json_text(values: &Vec<FailureContextGapV2>) -> (r: String)
    ensures
        r@ == context_gaps_json(values@),
{
    let mut array = JsonArray::new();
    let mut i: usize = 0;
    while i < values.len()
        invariant
            i <= values.len(),
            array.wf(),
            array@ == values@.take(i as int).map_values(|value: FailureContextGapV2| json_string(value.name())),
        decreases values.len() - i,
    {
        array.text(values[i].as_str());
        i += 1;
        assert(array@ =~= values@.take(i as int).map_values(|value: FailureContextGapV2| json_string(value.name())));
    }
    assert(values@.take(i as int) =~= values@);
    array.finish()
}

/// Everything that is told of a failed step beside its error and its excerpt.
#[derive(Clone, Debug, PartialEq, Eq)]
pub struct FailureCapsuleV2Evidence {
    pub failure_id: Uuid,
    pub project_id: ProjectId,
    pub workflow_kind: String,
    pub source_sha: Option<GitCommitId>,
    pub policy_digest: Option<EvidenceDigest>,
    pub request_id: Uuid,
    pub operation_id: Uuid,
    pub attempt_id: Uuid,
    pub phase: OperationPhase,
    pub step_id: String,
    pub step_display_name: String,
    pub started_at_ms: i64,
    pub failed_at_ms: i64,
    pub duration_ms: u64,
    pub first_cause: String,
    pub process: ExecutionProcessOutcomeV1,
    pub resources: ExecutionResourceUsageV1,
    pub storage: ExecutionStorageUsageV1,
    pub execution_gaps: Vec<ExecutionEvidenceGapV1>,
    pub artifacts: Vec<FailureArtifactV2>,
    pub context: Vec<FailureContextEventV2>,
    pub raw_log: Option<FailureRawLogReferenceV2>,
    pub redaction: FailureRedactionEvidenceV2,
    pub previous_release_digest: Option<EvidenceDigest>,
    pub attempted_release_digest: Option<EvidenceDigest>,
    pub health_evidence_digest: Option<EvidenceDigest>,
    pub terminal_receipt_digest: Option<EvidenceDigest>,
    pub cleanup_receipt_digest: Option<EvidenceDigest>,
    pub context_gaps: Vec<FailureContextGapV2>,
    pub production_mutation: ProductionMutationStateV2,
    pub rollback: FailureRollbackStateV2,
    pub render_template_version: u16,
}

/// The pieces of context that are missing, in order.
pub open spec fn missing_context(
    raw_log: bool,
    terminal_receipt: bool,
    cleanup_receipt: bool,
    previous_release: bool,
    attempted_release: bool,
    health_evidence: bool,
) -> Seq<FailureContextGapV2> {
    all_context_gaps().filter(
        |gap: FailureContextGapV2|
            match gap {
                FailureContextGapV2::RawLog => !raw_log,
                FailureContextGapV2::TerminalReceipt => !terminal_receipt,
                FailureContextGapV2::CleanupReceipt => !cleanup_receipt,
                FailureContextGapV2::PreviousRelease => !previous_release,
                FailureContextGapV2::AttemptedRelease => !attempted_release,
                FailureContextGapV2::HealthEvidence => !health_evidence,
            },
    )
}

/// Every piece of context there can be, in order.
pub open spec fn all_context_gaps() -> Seq<FailureContextGapV2> {
    seq![
        FailureContextGapV2::RawLog,
        FailureContextGapV2::TerminalReceipt,
        FailureContextGapV2::CleanupReceipt,
        FailureContextGapV2::PreviousRelease,
        FailureContextGapV2::AttemptedRelease,
        FailureContextGapV2::HealthEvidence,
    ]
}

pub(crate) fn expected_context_gaps(
    raw_log: bool,
    terminal_receipt: bool,
    cleanup_receipt: bool,
    previous_release: bool,
    attempted_release: bool,
    health_evidence: bool,
) -> (gaps: Vec<FailureContextGapV2>)
    ensures
        gaps@ == missing_context(
            raw_log,
            terminal_receipt,
            cleanup_receipt,
            previous_release,
            attempted_release,
            health_evidence,
        ),
{
    let mut gaps: Vec<FailureContextGapV2> = Vec::new();
    if !raw_log {
        gaps.push(FailureContextGapV2::RawLog);
    }
    if !terminal_receipt {
        gaps.push(FailureContextGapV2::TerminalReceipt);
    }
    if !cleanup_receipt {
        gaps.push(FailureContextGapV2::CleanupReceipt);
    }
    if !previous_release {
        gaps.push(FailureContextGapV2::PreviousRelease);
    }
    if !attempted_release {
        gaps.push(FailureContextGapV2::AttemptedRelease);
    }
    if !health_evidence {
        gaps.push(FailureContextGapV2::HealthEvidence);
    }
    proof {
        reveal_with_fuel(Seq::filter, 7);
        let all = all_context_gaps();
        assert(all.drop_last() =~= all.take(5));
        assert(all.take(5).drop_last() =~= all.take(4));
        assert(all.take(4).drop_last() =~= all.take(3));
        assert(all.take(3).drop_last() =~= all.take(2));
        assert(all.take(2).drop_last() =~= all.take(1));
        assert(all.take(1).drop_last() =~= all.take(0));
    }
    gaps
}

fn same_context_gaps(a: &Vec<FailureContextGapV2>, b: &Vec<FailureContextGapV2>) -> (same: bool)
    ensures
        same == (a@ == b@),
{
    if a.len() != b.len() {
        return false;
    }
    let mut i: usize = 0;
    while i < a.len()
        invariant
            i <= a.len(),
            a.len() == b.len(),
            forall|k: int| 0 <= k < i ==> a@[k] == b@[k],
        decreases a.len() - i,
    {
        if a[i] != b[i] {
            assert(a@[i as int] != b@[i as int]);
            return false;
        }
        i += 1;
    }
    assert(a@ =~= b@);
    true
}

/// Artifacts in their order, none twice.
pub open spec fn artifacts_ordered(artifacts: Seq<FailureArtifactV2>) -> bool {
    forall|i: int|
        0 <= i < artifacts.len() - 1 ==> (#[trigger] artifacts[i]).before(artifacts[i + 1])
}

/// Events in their order.
pub open spec fn context_ordered(events: Seq<ContextEvent>) -> bool {
    forall|i: int| 0 <= i < events.len() - 1 ==> !events[i + 1].before(#[trigger] events[i])
}

impl FailureCapsuleV2Evidence {
    /// The document as JSON text.
    #[verifier::opaque]
    pub open spec fn json(self) -> Seq<char> {
        json_object(
            no_members()
                .push(("failure_id"@, json_string(self.failure_id.text())))
                .push(("project_id"@, json_string(self.project_id@)))
                .push(("workflow_kind"@, json_string(self.workflow_kind@)))
                .push(("source_sha"@, json_optional_string(match self.source_sha { Some(v) => Some(v@), None => None })))
                .push(("policy_digest"@, json_optional_string(digest_option(self.policy_digest))))
                .push(("request_id"@, json_string(self.request_id.text())))
                .push(("operation_id"@, json_string(self.operation_id.text())))
                .push(("attempt_id"@, json_string(self.attempt_id.text())))
                .push(("phase"@, json_string(self.phase.name())))
                .push(("step_id"@, json_string(self.step_id@)))
                .push(("step_display_name"@, json_string(self.step_display_name@)))
                .push(("started_at_ms"@, json_int(self.started_at_ms as int)))
                .push(("failed_at_ms"@, json_int(self.failed_at_ms as int)))
                .push(("duration_ms"@, json_nat(self.duration_ms as nat)))
                .push(("first_cause"@, json_string(self.first_cause@)))
                .push(("process"@, self.process.json()))
                .push(("resources"@, self.resources.json()))
                .push(("storage"@, self.storage.json()))
                .push(("execution_gaps"@, gaps_json(self.execution_gaps@)))
                .push(("artifacts"@, artifacts_json(self.artifacts@)))
                .push(("context"@, context_json(self.context@)))
                .push(("raw_log"@, json_optional(match self.raw_log { Some(v) => Some(v.json()), None => None })))
                .push(("redaction"@, self.redaction.json()))
                .push(("previous_release_digest"@, json_optional_string(digest_option(self.previous_release_digest))))
                .push(("attempted_release_digest"@, json_optional_string(digest_option(self.attempted_release_digest))))
                .push(("health_evidence_digest"@, json_optional_string(digest_option(self.health_evidence_digest))))
                .push(("terminal_receipt_digest"@, json_optional_string(digest_option(self.terminal_receipt_digest))))
                .push(("cleanup_receipt_digest"@, json_optional_string(digest_option(self.cleanup_receipt_digest))))
                .push(("context_gaps"@, context_gaps_json(self.context_gaps@)))
                .push(("production_mutation"@, json_string(self.production_mutation.name())))
                .push(("rollback"@, json_string(self.rollback.name())))
                .push(("render_template_version"@, json_nat(self.render_template_version as nat))),
        )
    }

    pub fn to_json(&self) -> (r: String)
        ensures
            r@ == self.json(),
    {
        let mut object = JsonObject::new();
        let failure_id = self.failure_id.to_text();
        object.text("failure_id", failure_id.as_str());
        object.text("project_id", self.project_id.as_str());
        object.text("workflow_kind", self.workflow_kind.as_str());
        match &self.source_sha {
            Some(value) => object.text("source_sha", value.as_str()),
            None => object.raw("source_sha", "null"),
        }
        object.optional_text("policy_digest", digest_str(&self.policy_digest));
        let request_id = self.request_id.to_text();
        object.text("request_id", request_id.as_str());
        let operation_id = self.operation_id.to_text();
        object.text("operation_id", operation_id.as_str());
        let attempt_id = self.attempt_id.to_text();
        object.text("attempt_id", attempt_id.as_str());
        object.text("phase", self.phase.as_str());
        object.text("step_id", self.step_id.as_str());
        object.text("step_display_name", self.step_display_name.as_str());
        object.signed("started_at_ms", self.started_at_ms);
        object.signed("failed_at_ms", self.failed_at_ms);
        object.number("duration_ms", self.duration_ms);
        object.text("first_cause", self.first_cause.as_str());
        let process = self.process.to_json();
        object.raw("process", process.as_str());
        let resources = self.resources.to_json();
        object.raw("resources", resources.as_str());
        let storage = self.storage.to_json();
        object.raw("storage", storage.as_str());
        let execution_gaps = gaps_json_text(&self.execution_gaps);
        object.raw("execution_gaps", execution_gaps.as_str());
        let artifacts = artifacts_json_text(&self.artifacts);
        object.raw("artifacts", artifacts.as_str());
        let context = context_json_text(&self.context);
        object.raw("context", context.as_str());
        match &self.raw_log {
            Some(value) => {
                let value = value.to_json();
                object.raw("raw_log", value.as_str());
            },
            None => object.raw("raw_log", "null"),
        }
        let redaction = self.redaction.to_json();
        object.raw("redaction", redaction.as_str());
        object.optional_text("previous_release_digest", digest_str(&self.previous_release_digest));
        object.optional_text("attempted_release_digest", digest_str(&self.attempted_release_digest));
        object.optional_text("health_evidence_digest", digest_str(&self.health_evidence_digest));
        object.optional_text("terminal_receipt_digest", digest_str(&self.terminal_receipt_digest));
        object.optional_text("cleanup_receipt_digest", digest_str(&self.cleanup_receipt_digest));
        let context_gaps = context_gaps_json_text(&self.context_gaps);
        object.raw("context_gaps", context_gaps.as_str());
        object.text("production_mutation", self.production_mutation.as_str());
        object.text("rollback", self.rollback.as_str());
        object.number("render_template_version", self.render_template_version as u64);
        reveal(FailureCapsuleV2Evidence::json);
        object.finish()
    }

    /// Everything in the evidence is in order.
    #[verifier::opaque]
    pub open spec fn valid(self) -> bool {
        &&& !self.failure_id.nil()
        &&& !self.request_id.nil()
        &&& !self.operation_id.nil()
        &&& !self.attempt_id.nil()
        &&& lower_token(self.workflow_kind@, 96)
        &&& lower_token(self.step_id@, 96)
        &&& plain_text(self.step_display_name@, 160)
        &&& plain_text(self.first_cause@, 4096)
        &&& 0 <= self.started_at_ms <= self.failed_at_ms
        &&& self.duration_ms == self.failed_at_ms - self.started_at_ms
        &&& self.render_template_version == FAILURE_CAPSULE_RENDER_TEMPLATE_VERSION
        &&& self.process.valid()
        &&& self.storage.valid()
        &&& self.execution_gaps@ == execution_gaps(self.process, self.resources, self.storage)
        &&& self.artifacts@.len() <= 32
        &&& artifacts_ordered(self.artifacts@)
        &&& forall|i: int|
            0 <= i < self.artifacts@.len() ==> lower_token(#[trigger] self.artifacts@[i].kind@, 96)
        &&& self.context@.len() <= 24
        &&& context_ordered(context_events(self.context@))
        &&& forall|i: int|
            0 <= i < self.context@.len() ==> {
                &&& (#[trigger] self.context@[i]).at_ms >= 0
                &&& lower_token(self.context@[i].kind@, 96)
                &&& plain_text(self.context@[i].summary@, 2048)
            }
        &&& self.raw_log matches Some(log) ==> log.compressed_size_bytes != 0
            && log.retained_until_ms >= self.failed_at_ms
        &&& self.context_gaps@ == self.missing()
    }

    /// The pieces of context that are missing.
    pub open spec fn missing(self) -> Seq<FailureContextGapV2> {
        missing_context(
            self.raw_log is Some,
            self.terminal_receipt_digest is Some,
            self.cleanup_receipt_digest is Some,
            self.previous_release_digest is Some,
            self.attempted_release_digest is Some,
            self.health_evidence_digest is Some,
        )
    }

    fn artifacts_valid(&self) -> (r: bool)
        ensures
            r == (self.artifacts@.len() <= 32 && artifacts_ordered(self.artifacts@) && forall|i: int|
                0 <= i < self.artifacts@.len() ==> lower_token(
                    #[trigger] self.artifacts@[i].kind@,
                    96,
                )),
    {
        if self.artifacts.len() > MAX_ARTIFACTS {
            return false;
        }
        let mut i: usize = 0;
        while i < self.artifacts.len()
            invariant
                i <= self.artifacts.len(),
                forall|k: int|
                    0 <= k < i ==> lower_token(#[trigger] self.artifacts@[k].kind@, 96),
                forall|k: int|
                    0 <= k < i - 1 ==> (#[trigger] self.artifacts@[k]).before(self.artifacts@[k + 1]),
            decreases self.artifacts.len() - i,
        {
            if !is_lower_token(self.artifacts[i].kind.as_str(), MAX_CODE_BYTES) {
                assert(!lower_token(self.artifacts@[i as int].kind@, 96));
                return false;
            }
            if i > 0 && !self.artifacts[i - 1].is_before(&self.artifacts[i]) {
                assert(!(self.artifacts@[i - 1]).before(self.artifacts@[(i - 1) + 1]));
                return false;
            }
            i += 1;
        }
        true
    }

    fn context_valid(&self) -> (r: bool)
        ensures
            r == (self.context@.len() <= 24 && context_ordered(context_events(self.context@))
                && forall|i: int|
                0 <= i < self.context@.len() ==> {
                    &&& (#[trigger] self.context@[i]).at_ms >= 0
                    &&& lower_token(self.context@[i].kind@, 96)
                    &&& plain_text(self.context@[i].summary@, 2048)
                }),
    {
        if self.context.len() > MAX_CONTEXT_EVENTS {
            return false;
        }
        let ghost events = context_events(self.context@);
        let mut i: usize = 0;
        while i < self.context.len()
            invariant
                i <= self.context.len(),
                events == context_events(self.context@),
                forall|k: int|
                    0 <= k < i ==> {
                        &&& (#[trigger] self.context@[k]).at_ms >= 0
                        &&& lower_token(self.context@[k].kind@, 96)
                        &&& plain_text(self.context@[k].summary@, 2048)
                    },
                forall|k: int| 0 <= k < i - 1 ==> !events[k + 1].before(#[trigger] events[k]),
            decreases self.context.len() - i,
        {
            if self.context[i].at_ms < 0 || !is_lower_token(
                self.context[i].kind.as_str(),
                MAX_CODE_BYTES,
            ) || !is_plain_text(self.context[i].summary.as_str(), MAX_CONTEXT_SUMMARY_BYTES) {
                assert(!(self.context@[i as int].at_ms >= 0 && lower_token(
                    self.context@[i as int].kind@,
                    96,
                ) && plain_text(self.context@[i as int].summary@, 2048)));
                return false;
            }
            if i > 0 && self.context[i - 1].is_after(&self.context[i]) {
                assert(events[(i - 1) + 1].before(events[i - 1]));
                return false;
            }
            i += 1;
        }
        true
    }

    fn validate(&self) -> (r: bool)
        ensures
            r == self.valid(),
    {
        reveal(FailureCapsuleV2Evidence::valid);
        if self.failure_id.is_nil() || self.request_id.is_nil() || self.operation_id.is_nil()
            || self.attempt_id.is_nil() || !is_lower_token(
            self.workflow_kind.as_str(),
            MAX_WORKFLOW_KIND_BYTES,
        ) || !is_lower_token(self.step_id.as_str(), MAX_STEP_ID_BYTES) || !is_plain_text(
            self.step_display_name.as_str(),
            MAX_STEP_DISPLAY_BYTES,
        ) || !is_plain_text(self.first_cause.as_str(), MAX_CAUSE_BYTES) || self.started_at_ms < 0
            || self.failed_at_ms < self.started_at_ms || self.duration_ms != (self.failed_at_ms
            - self.started_at_ms) as u64 || self.render_template_version
            != FAILURE_CAPSULE_RENDER_TEMPLATE_VERSION {
            return false;
        }
        if self.process.validate().is_err() || self.storage.validate().is_err() {
            return false;
        }
        if !same_gaps(
            &self.execution_gaps,
            &expected_execution_gaps(&self.process, &self.resources, &self.storage),
        ) {
            return false;
        }
        if !self.artifacts_valid() || !self.context_valid() {
            return false;
        }
        let log_valid = match &self.raw_log {
            Some(log) => log.compressed_size_bytes != 0 && log.retained_until_ms
                >= self.failed_at_ms,
            None => true,
        };
        log_valid && same_context_gaps(
            &self.context_gaps,
            &expected_context_gaps(
                self.raw_log.is_some(),
                self.terminal_receipt_digest.is_some(),
                self.cleanup_receipt_digest.is_some(),
                self.previous_release_digest.is_some(),
                self.attempted_release_digest.is_some(),
                self.health_evidence_digest.is_some(),
            ),
        )
    }
}

/// A failure in brief: the step, the error, an excerpt of the output, and in the second version
/// the evidence around it.
#[derive(Clone, Debug, PartialEq, Eq)]
pub struct FailureCapsule {
    pub schema_version: u16,
    pub failing_step: String,
    pub error: StructuredError,
    pub excerpt: String,
    pub truncated: bool,
    pub v2: Option<FailureCapsuleV2Evidence>,
}

impl FailureCapsule {
    /// The capsule as JSON text, with another excerpt. Evidence that is absent is left out.
    pub open spec fn json_with(self, excerpt: Seq<char>, truncated: bool) -> Seq<char> {
        let members = no_members()
            .push(("schema_version"@, json_nat(self.schema_version as nat)))
            .push(("failing_step"@, json_string(self.failing_step@)))
            .push(("error"@, self.error.json()))
            .push(("excerpt"@, json_string(excerpt)))
            .push(("truncated"@, json_bool(truncated)));
        json_object(
            match self.v2 {
                Some(v2) => members.push(("v2"@, v2.json())),
                None => members,
            },
        )
    }

    /// The capsule as JSON text.
    pub open spec fn json(self) -> Seq<char> {
        self.json_with(self.excerpt@, self.truncated)
    }

    pub fn to_json(&self) -> (r: String)
        ensures
            r@ == self.json(),
    {
        let mut object = JsonObject::new();
        object.number("schema_version", self.schema_version as u64);
        object.text("failing_step", self.failing_step.as_str());
        let error = self.error.to_json();
        object.raw("error", error.as_str());
        object.text("excerpt", self.excerpt.as_str());
        object.boolean("truncated", self.truncated);
        match &self.v2 {
            Some(v2) => {
                let v2 = v2.to_json();
                object.raw("v2", v2.as_str());
            },
            None => {},
        }
        object.finish()
    }

    /// Everything in the capsule is in order.
    pub open spec fn valid(self) -> bool {
        &&& plain_text(self.failing_step@, 96)
        &&& plain_text(self.error.code@, 96)
        &&& plain_text(self.error.summary@, 1024)
        &&& utf8(self.excerpt@).len() <= FAILURE_CAPSULE_CAP_BYTES
        &&& match self.v2 {
            None => self.schema_version == FAILURE_CAPSULE_V1_SCHEMA_VERSION,
            Some(v2) => {
                &&& self.schema_version == FAILURE_CAPSULE_V2_SCHEMA_VERSION
                &&& v2.valid()
                &&& self.failing_step@ == v2.step_id@
                &&& lower_token(self.failing_step@, 96)
                &&& lower_token(self.error.code@, 96)
            },
        }
    }

    pub fn validate(&self) -> (r: Result<(), FailureCapsuleError>)
        ensures
            match r {
                Ok(()) => self.valid(),
                Err(error) => !self.valid() && error is InvalidDocument,
            },
    {
        if !is_plain_text(self.failing_step.as_str(), MAX_STEP_ID_BYTES) || !is_plain_text(
            self.error.code.as_str(),
            MAX_CODE_BYTES,
        ) || !is_plain_text(self.error.summary.as_str(), MAX_SUMMARY_BYTES)
            || self.excerpt.as_str().as_bytes().len() > FAILURE_CAPSULE_CAP_BYTES {
            return Err(FailureCapsuleError::InvalidDocument);
        }
        let valid = match &self.v2 {
            None => self.schema_version == FAILURE_CAPSULE_V1_SCHEMA_VERSION,
            Some(v2) => self.schema_version == FAILURE_CAPSULE_V2_SCHEMA_VERSION && v2.validate()
                && same_text(self.failing_step.as_str(), v2.step_id.as_str()) && is_lower_token(
                self.failing_step.as_str(),
                MAX_STEP_ID_BYTES,
            ) && is_lower_token(self.error.code.as_str(), MAX_CODE_BYTES),
        };
        if valid {
            Ok(())
        } else {
            Err(FailureCapsuleError::InvalidDocument)
        }
    }

    /// What keeps a capsule from having canonical bytes: its form, the encoding, or in the second
    /// version its size.
    pub open spec fn fault(self) -> Option<FailureCapsuleError> {
        if !self.valid() {
            Some(FailureCapsuleError::InvalidDocument)
        } else {
            match jcs(self.json()) {
                None => Some(FailureCapsuleError::CanonicalEncoding),
                Some(bytes) => if self.schema_version == FAILURE_CAPSULE_V2_SCHEMA_VERSION
                    && bytes.len() > FAILURE_CAPSULE_CAP_BYTES {
                    Some(FailureCapsuleError::CapsuleTooLarge)
                } else {
                    None
                },
            }
        }
    }

    pub fn canonical_bytes(&self) -> (r: Result<Vec<u8>, FailureCapsuleError>)
        ensures
            match r {
                Ok(bytes) => self.fault() is None && jcs(self.json()) == Some(bytes@),
                Err(error) => self.fault() == Some(error),
            },
    {
        match self.validate() {
            Err(error) => Err(error),
            Ok(()) => {
                let text = self.to_json();
                match canonical_bytes(text.as_str()) {
                    Err(_) => Err(FailureCapsuleError::CanonicalEncoding),
                    Ok(bytes) => if self.schema_version == FAILURE_CAPSULE_V2_SCHEMA_VERSION
                        && bytes.len() > FAILURE_CAPSULE_CAP_BYTES {
                        Err(FailureCapsuleError::CapsuleTooLarge)
                    } else {
                        Ok(bytes)
                    },
                }
            },
        }
    }

    /// Accepts a capsule that was read from some bytes, where the bytes are its canonical form.
    pub fn decode_canonical(parsed: FailureCapsule, bytes: &[u8]) -> (r: Result<
        FailureCapsule,
        FailureCapsuleError,
    >)
        ensures
            match r {
                Ok(capsule) => capsule == parsed && parsed.fault() is None && jcs(parsed.json())
                    == Some(bytes@),
                Err(error) => if parsed.fault() is Some {
                    parsed.fault() == Some(error)
                } else {
                    jcs(parsed.json()) != Some(bytes@) && error is InvalidDocument
                },
            },
    {
        match parsed.canonical_bytes() {
            Err(error) => Err(error),
            Ok(canonical) => if same_bytes(canonical.as_slice(), bytes) {
                Ok(parsed)
            } else {
                Err(FailureCapsuleError::InvalidDocument)
            },
        }
    }

    /// A capsule of the first version: a redacted excerpt, cut down to the size of a capsule.
    pub fn from_raw(
        failing_step: String,
        error: StructuredError,
        raw_excerpt: &str,
        redactor: &Redactor,
    ) -> (r: FailureCapsule)
        ensures
            r.schema_version == FAILURE_CAPSULE_V1_SCHEMA_VERSION,
            r.failing_step == failing_step,
            r.error == error,
            r.v2 is None,
            r.excerpt@ == cut(
                redacted(raw_excerpt@, redactor@),
                FAILURE_CAPSULE_CAP_BYTES as int,
                "\n[FAILURE CAPSULE TRUNCATED]"@,
            ),
            r.truncated == (utf8(r.excerpt@).len() < utf8(redacted(raw_excerpt@, redactor@)).len()),
            utf8(r.excerpt@).len() <= FAILURE_CAPSULE_CAP_BYTES,
    {
        let redacted = redactor.redact(raw_excerpt);
        proof {
            reveal_strlit("\n[FAILURE CAPSULE TRUNCATED]");
            lemma_ascii_suffix("\n[FAILURE CAPSULE TRUNCATED]"@);
        }
        let excerpt = truncate_utf8(
            redacted.as_str(),
            FAILURE_CAPSULE_CAP_BYTES,
            "\n[FAILURE CAPSULE TRUNCATED]",
        );
        let truncated = excerpt.as_str().as_bytes().len() < redacted.as_str().as_bytes().len();
        FailureCapsule {
            schema_version: FAILURE_CAPSULE_V1_SCHEMA_VERSION,
            failing_step,
            error,
            excerpt,
            truncated,
            v2: None,
        }
    }
}

} // verus!
