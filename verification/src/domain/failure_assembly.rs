//! Putting a failure capsule together from the parts of a failure, and keeping it within its size.

use vstd::prelude::*;
use super::budget::FAILURE_CAPSULE_CAP_BYTES;
use super::execution::{
    execution_gaps, expected_execution_gaps, ExecutionProcessOutcomeV1, ExecutionResourceUsageV1,
    ExecutionStorageUsageV1,
};
use super::failure::{
    context_events, context_json, context_ordered, expected_context_gaps, ContextEvent,
    FailureArtifactV2, FailureCapsule, FailureCapsuleError, FailureCapsuleV2Evidence,
    FailureContextEventV2, FailureRawLogReferenceV2, FailureRedactionEvidenceV2,
    FailureRollbackStateV2, ProductionMutationStateV2, StructuredError,
    FAILURE_CAPSULE_RENDER_TEMPLATE_VERSION, FAILURE_CAPSULE_V2_SCHEMA_VERSION,
};
use super::identifiers::{EvidenceDigest, GitCommitId, ProjectId};
use super::redaction::{cut, lemma_ascii_suffix, redacted, truncate_utf8, Redactor};
use super::states::OperationPhase;
use crate::json::{canonical_bytes, jcs};
use crate::text::{
    lemma_text_before_asymmetric, lemma_text_not_before_transitive, text_before, utf8,
};
use crate::unique_id::Uuid;

verus! {

/// The parts of a failure, as they were found.
#[derive(Clone, Debug)]
pub struct FailureCapsuleV2Input {
    pub failure_id: Uuid,
    pub project_id: ProjectId,
    pub workflow_kind: String,
    pub source_sha: Option<GitCommitId>,
    pub policy_digest: Option<EvidenceDigest>,
    pub request_id: Uuid,
    pub operation_id: Uuid,
    pub attempt_id: Uuid,
    pub phase: OperationPhase,
    pub step_id: String,
    pub step_display_name: String,
    pub started_at_ms: i64,
    pub failed_at_ms: i64,
    pub error: StructuredError,
    pub first_cause: String,
    pub raw_excerpt: String,
    pub process: ExecutionProcessOutcomeV1,
    pub resources: ExecutionResourceUsageV1,
    pub storage: ExecutionStorageUsageV1,
    pub artifacts: Vec<FailureArtifactV2>,
    pub context: Vec<FailureContextEventV2>,
    pub raw_log: Option<FailureRawLogReferenceV2>,
    pub previous_release_digest: Option<EvidenceDigest>,
    pub attempted_release_digest: Option<EvidenceDigest>,
    pub health_evidence_digest: Option<EvidenceDigest>,
    pub terminal_receipt_digest: Option<EvidenceDigest>,
    pub cleanup_receipt_digest: Option<EvidenceDigest>,
    pub production_mutation: ProductionMutationStateV2,
    pub rollback: FailureRollbackStateV2,
}

/// A text once it is redacted, and how many secrets were replaced in it.
#[derive(Debug)]
pub struct RedactedText {
    pub text: String,
    pub replacement_count: u64,
}

/// The texts of a failure once they are redacted: the summaries of the events around it in the
/// order of the events.
#[derive(Debug)]
pub struct RedactedFailureTexts {
    pub summary: RedactedText,
    pub step_display_name: RedactedText,
    pub first_cause: RedactedText,
    pub excerpt: RedactedText,
    pub context: Vec<RedactedText>,
    pub ruleset_digest: EvidenceDigest,
}

/// How many secrets were replaced in each text of a failure, in the summaries of the events around
/// it in the order of the events, and by which rules.
#[derive(Debug)]
pub struct RedactionTally {
    pub summary: u64,
    pub step_display_name: u64,
    pub first_cause: u64,
    pub excerpt: u64,
    pub context: Vec<u64>,
    pub ruleset_digest: EvidenceDigest,
}

impl RedactedText {
    /// The text is what is left of another once some secrets are replaced in it.
    pub open spec fn left_of(self, raw: Seq<char>, secrets: Seq<Seq<char>>, count: u64) -> bool {
        self.text@ == redacted(raw, secrets) && self.replacement_count == count
    }
}

impl RedactedFailureTexts {
    /// The texts are those of a failure, once some secrets are replaced in them.
    pub open spec fn redacted_from(
        self,
        input: FailureCapsuleV2Input,
        secrets: Seq<Seq<char>>,
        tally: RedactionTally,
    ) -> bool {
        &&& self.summary.left_of(input.error.summary@, secrets, tally.summary)
        &&& self.step_display_name.left_of(
            input.step_display_name@,
            secrets,
            tally.step_display_name,
        )
        &&& self.first_cause.left_of(input.first_cause@, secrets, tally.first_cause)
        &&& self.excerpt.left_of(input.raw_excerpt@, secrets, tally.excerpt)
        &&& self.context@.len() == input.context@.len()
        &&& forall|i: int|
            0 <= i < input.context@.len() ==> (#[trigger] self.context@[i]).left_of(
                input.context@[i].summary@,
                secrets,
                tally.context@[i],
            )
        &&& self.ruleset_digest == tally.ruleset_digest
    }
}

fn redact_text(redactor: &Redactor, raw: &str, count: u64) -> (r: RedactedText)
    ensures
        r.left_of(raw@, redactor@, count),
{
    RedactedText { text: redactor.redact(raw), replacement_count: count }
}

fn redact_texts(input: &FailureCapsuleV2Input, redactor: &Redactor, tally: RedactionTally) -> (r:
    RedactedFailureTexts)
    requires
        input.context@.len() == tally.context@.len(),
    ensures
        r.redacted_from(*input, redactor@, tally),
{
    let mut context: Vec<RedactedText> = Vec::new();
    let mut i: usize = 0;
    while i < input.context.len()
        invariant
            i <= input.context.len(),
            input.context@.len() == tally.context@.len(),
            context@.len() == i,
            forall|k: int|
                0 <= k < i ==> (#[trigger] context@[k]).left_of(
                    input.context@[k].summary@,
                    redactor@,
                    tally.context@[k],
                ),
        decreases input.context.len() - i,
    {
        context.push(redact_text(redactor, input.context[i].summary.as_str(), tally.context[i]));
        i += 1;
    }
    RedactedFailureTexts {
        summary: redact_text(redactor, input.error.summary.as_str(), tally.summary),
        step_display_name: redact_text(
            redactor,
            input.step_display_name.as_str(),
            tally.step_display_name,
        ),
        first_cause: redact_text(redactor, input.first_cause.as_str(), tally.first_cause),
        excerpt: redact_text(redactor, input.raw_excerpt.as_str(), tally.excerpt),
        context,
        ruleset_digest: tally.ruleset_digest,
    }
}

/// How many secrets were replaced in the first of some texts.
pub open spec fn replacements(texts: Seq<RedactedText>) -> int
    decreases texts.len(),
{
    if texts.len() == 0 {
        0
    } else {
        replacements(texts.drop_last()) + texts.last().replacement_count
    }
}

impl RedactedFailureTexts {
    /// How many secrets were replaced in all, or the largest number that can be told.
    pub open spec fn replacement_total(self) -> int {
        let total = self.summary.replacement_count + self.step_display_name.replacement_count
            + self.first_cause.replacement_count + self.excerpt.replacement_count + replacements(
            self.context@,
        );
        if total > u64::MAX {
            u64::MAX as int
        } else {
            total
        }
    }
}

/// Events with an event put behind all that it does not come before.
pub open spec fn event_placed(events: Seq<ContextEvent>, event: ContextEvent) -> Seq<ContextEvent>
    decreases events.len(),
{
    if events.len() == 0 || !event.before(events.last()) {
        events.push(event)
    } else {
        event_placed(events.drop_last(), event).push(events.last())
    }
}

/// Events in their order; those that come at one place stay in the order in which they came.
pub open spec fn events_sorted(events: Seq<ContextEvent>) -> Seq<ContextEvent>
    decreases events.len(),
{
    if events.len() == 0 {
        seq![]
    } else {
        event_placed(events_sorted(events.drop_last()), events.last())
    }
}

/// Artifacts with an artifact put behind all that it does not come before.
pub open spec fn artifact_placed(
    artifacts: Seq<FailureArtifactV2>,
    artifact: FailureArtifactV2,
) -> Seq<FailureArtifactV2>
    decreases artifacts.len(),
{
    if artifacts.len() == 0 || !artifact.before(artifacts.last()) {
        artifacts.push(artifact)
    } else {
        artifact_placed(artifacts.drop_last(), artifact).push(artifacts.last())
    }
}

/// Artifacts in their order; equal ones stay in the order in which they came.
pub open spec fn artifacts_sorted(artifacts: Seq<FailureArtifactV2>) -> Seq<FailureArtifactV2>
    decreases artifacts.len(),
{
    if artifacts.len() == 0 {
        seq![]
    } else {
        artifact_placed(artifacts_sorted(artifacts.drop_last()), artifacts.last())
    }
}

/// Artifacts in their order.
pub open spec fn artifacts_ordered(artifacts: Seq<FailureArtifactV2>) -> bool {
    forall|i: int, j: int|
        0 <= i < j < artifacts.len() ==> !(#[trigger] artifacts[j]).before(#[trigger] artifacts[i])
}

proof fn lemma_artifact_before_asymmetric(a: FailureArtifactV2, b: FailureArtifactV2)
    requires
        a.before(b),
    ensures
        !b.before(a),
{
    if text_before(a.kind@, b.kind@) {
        lemma_text_before_asymmetric(a.kind@, b.kind@);
    } else {
        lemma_text_before_asymmetric(a.digest@, b.digest@);
    }
}

proof fn lemma_artifact_not_before_transitive(
    a: FailureArtifactV2,
    b: FailureArtifactV2,
    c: FailureArtifactV2,
)
    requires
        !a.before(b),
        !b.before(c),
    ensures
        !a.before(c),
{
    lemma_text_not_before_transitive(a.kind@, b.kind@, c.kind@);
    if a.kind@ == c.kind@ {
        lemma_text_not_before_transitive(a.digest@, b.digest@, c.digest@);
    }
}

proof fn lemma_artifact_placed(artifacts: Seq<FailureArtifactV2>, artifact: FailureArtifactV2)
    requires
        artifacts_ordered(artifacts),
    ensures
        artifacts_ordered(artifact_placed(artifacts, artifact)),
        artifact_placed(artifacts, artifact).to_multiset() == artifacts.to_multiset().insert(
            artifact,
        ),
    decreases artifacts.len(),
{
    broadcast use vstd::seq_lib::group_to_multiset_ensures;

    let placed = artifact_placed(artifacts, artifact);
    if artifacts.len() == 0 || !artifact.before(artifacts.last()) {
        assert forall|i: int, j: int| 0 <= i < j < placed.len() implies !(
        #[trigger] placed[j]).before(#[trigger] placed[i]) by {
            if j == artifacts.len() && i < artifacts.len() - 1 {
                lemma_artifact_not_before_transitive(artifact, artifacts.last(), artifacts[i]);
            }
        }
    } else {
        let rest = artifacts.drop_last();
        let last = artifacts.last();
        let head = artifact_placed(rest, artifact);
        lemma_artifact_placed(rest, artifact);
        assert forall|i: int, j: int| 0 <= i < j < placed.len() implies !(
        #[trigger] placed[j]).before(#[trigger] placed[i]) by {
            if j < head.len() {
                assert(placed[i] == head[i] && placed[j] == head[j]);
            } else {
                assert(head.contains(head[i]));
                assert(head.to_multiset().count(head[i]) > 0);
                if head[i] == artifact {
                    lemma_artifact_before_asymmetric(artifact, last);
                } else {
                    assert(rest.contains(head[i]));
                    let k = choose|k: int| 0 <= k < rest.len() && rest[k] == head[i];
                    assert(artifacts[k] == head[i]);
                }
            }
        }
        assert(artifacts =~= rest.push(last));
        assert(placed.to_multiset() =~= artifacts.to_multiset().insert(artifact));
    }
}

/// Sorting puts any artifacts in order, and neither loses nor adds any.
pub proof fn law_sorted_artifacts_are_ordered(artifacts: Seq<FailureArtifactV2>)
    ensures
        artifacts_ordered(artifacts_sorted(artifacts)),
        artifacts_sorted(artifacts).to_multiset() == artifacts.to_multiset(),
    decreases artifacts.len(),
{
    broadcast use vstd::seq_lib::group_to_multiset_ensures;

    if artifacts.len() > 0 {
        law_sorted_artifacts_are_ordered(artifacts.drop_last());
        lemma_artifact_placed(artifacts_sorted(artifacts.drop_last()), artifacts.last());
        assert(artifacts =~= artifacts.drop_last().push(artifacts.last()));
    } else {
        assert(artifacts_sorted(artifacts) =~= artifacts);
    }
}

proof fn lemma_event_before_asymmetric(a: ContextEvent, b: ContextEvent)
    requires
        a.before(b),
    ensures
        !b.before(a),
{
    if a.at_ms == b.at_ms {
        lemma_text_before_asymmetric(a.kind, b.kind);
    }
}

proof fn lemma_event_placed_ordered(events: Seq<ContextEvent>, event: ContextEvent)
    requires
        context_ordered(events),
    ensures
        context_ordered(event_placed(events, event)),
        event_placed(events, event).len() == events.len() + 1,
        event_placed(events, event).to_multiset() == events.to_multiset().insert(event),
        event_placed(events, event).last() == event || (events.len() > 0 && event_placed(
            events,
            event,
        ).last() == events.last()),
    decreases events.len(),
{
    broadcast use vstd::seq_lib::group_to_multiset_ensures;

    let placed = event_placed(events, event);
    if events.len() == 0 || !event.before(events.last()) {
        assert forall|i: int| 0 <= i < placed.len() - 1 implies !placed[i + 1].before(
            #[trigger] placed[i],
        ) by {
            if i < events.len() - 1 {
                assert(!events[i + 1].before(events[i]));
            }
        }
    } else {
        let rest = events.drop_last();
        assert(context_ordered(rest)) by {
            assert forall|i: int| 0 <= i < rest.len() - 1 implies !rest[i + 1].before(
                #[trigger] rest[i],
            ) by {
                assert(!events[i + 1].before(events[i]));
            }
        }
        lemma_event_placed_ordered(rest, event);
        lemma_event_before_asymmetric(event, events.last());
        let head = event_placed(rest, event);
        assert(events =~= rest.push(events.last()));
        assert(placed.to_multiset() =~= events.to_multiset().insert(event));
        assert forall|i: int| 0 <= i < placed.len() - 1 implies !placed[i + 1].before(
            #[trigger] placed[i],
        ) by {
            if i < head.len() - 1 {
                assert(!head[i + 1].before(head[i]));
            } else if head.last() != event {
                assert(head.last() == events[events.len() - 2]);
                assert(!events[(events.len() - 2) + 1].before(events[events.len() - 2]));
            }
        }
    }
}

/// Sorting puts any events in order, and neither loses nor adds any.
pub proof fn law_sorted_context_is_ordered(events: Seq<ContextEvent>)
    ensures
        context_ordered(events_sorted(events)),
        events_sorted(events).len() == events.len(),
        events_sorted(events).to_multiset() == events.to_multiset(),
    decreases events.len(),
{
    broadcast use vstd::seq_lib::group_to_multiset_ensures;

    if events.len() > 0 {
        law_sorted_context_is_ordered(events.drop_last());
        lemma_event_placed_ordered(events_sorted(events.drop_last()), events.last());
        assert(events =~= events.drop_last().push(events.last()));
    } else {
        assert(events_sorted(events) =~= events);
    }
}

fn place_event(events: &mut Vec<FailureContextEventV2>, event: FailureContextEventV2)
    ensures
        context_events(final(events)@) == event_placed(context_events(old(events)@), event.event()),
{
    let ghost before = events@;
    let ghost placing = event.event();
    let mut at: usize = events.len();
    assert(before.take(at as int) =~= before);
    while at > 0 && events[at - 1].is_after(&event)
        invariant
            at <= events.len(),
            events@ == before,
            placing == event.event(),
            event_placed(context_events(before), placing) == event_placed(
                context_events(before.take(at as int)),
                placing,
            ) + context_events(before.skip(at as int)),
        decreases at,
    {
        proof {
            let head = context_events(before.take(at as int));
            assert(head.drop_last() =~= context_events(before.take(at - 1)));
            assert(head.last() == before[at - 1].event());
            assert(context_events(before.skip(at - 1)) =~= seq![head.last()] + context_events(
                before.skip(at as int),
            ));
            assert(event_placed(context_events(before), placing) =~= event_placed(
                context_events(before.take(at - 1)),
                placing,
            ) + context_events(before.skip(at - 1)));
        }
        at -= 1;
    }
    events.insert(at, event);
    proof {
        let head = context_events(before.take(at as int));
        if at > 0 {
            assert(head.last() == before[at - 1].event());
        }
        assert(event_placed(head, placing) == head.push(placing));
        assert(context_events(events@) =~= head.push(placing) + context_events(
            before.skip(at as int),
        ));
    }
}

fn place_artifact(artifacts: &mut Vec<FailureArtifactV2>, artifact: FailureArtifactV2)
    ensures
        final(artifacts)@ == artifact_placed(old(artifacts)@, artifact),
{
    let ghost before = artifacts@;
    let mut at: usize = artifacts.len();
    assert(before.take(at as int) =~= before);
    while at > 0 && artifact.is_before(&artifacts[at - 1])
        invariant
            at <= artifacts.len(),
            artifacts@ == before,
            artifact_placed(before, artifact) == artifact_placed(before.take(at as int), artifact)
                + before.skip(at as int),
        decreases at,
    {
        proof {
            let head = before.take(at as int);
            assert(head.drop_last() =~= before.take(at - 1));
            assert(before.skip(at - 1) =~= seq![head.last()] + before.skip(at as int));
            assert(artifact_placed(before, artifact) =~= artifact_placed(
                before.take(at - 1),
                artifact,
            ) + before.skip(at - 1));
        }
        at -= 1;
    }
    let ghost placing = artifact;
    artifacts.insert(at, artifact);
    proof {
        let head = before.take(at as int);
        assert(artifact_placed(head, placing) == head.push(placing));
        assert(artifacts@ =~= head.push(placing) + before.skip(at as int));
    }
}

fn sort_artifacts(artifacts: Vec<FailureArtifactV2>) -> (sorted: Vec<FailureArtifactV2>)
    ensures
        sorted@ == artifacts_sorted(artifacts@),
{
    let ghost all = artifacts@;
    let mut rest = artifacts;
    let mut sorted: Vec<FailureArtifactV2> = Vec::new();
    let ghost mut taken: int = 0;
    assert(rest@ =~= all.skip(0));
    while rest.len() > 0
        invariant
            0 <= taken <= all.len(),
            rest@ == all.skip(taken),
            sorted@ == artifacts_sorted(all.take(taken)),
        decreases rest.len(),
    {
        let artifact = rest.remove(0);
        proof {
            assert(artifact == all[taken]);
            assert(rest@ =~= all.skip(taken + 1));
            assert(all.take(taken + 1).drop_last() =~= all.take(taken));
            taken = taken + 1;
        }
        place_artifact(&mut sorted, artifact);
    }
    assert(all.take(taken) =~= all);
    sorted
}

/// An event with its summary redacted and cut down.
pub open spec fn redacted_event(
    event: FailureContextEventV2,
    summary: RedactedText,
) -> ContextEvent {
    ContextEvent {
        at_ms: event.at_ms as int,
        relation: event.relation,
        kind: event.kind@,
        summary: cut(summary.text@, 2048, " [TRUNCATED]"@),
    }
}

/// Events with their summaries redacted and cut down.
pub open spec fn redacted_events(
    events: Seq<FailureContextEventV2>,
    summaries: Seq<RedactedText>,
) -> Seq<ContextEvent> {
    Seq::new(events.len(), |i: int| redacted_event(events[i], summaries[i]))
}

fn cut_text(text: &str, most: usize) -> (r: String)
    requires
        most >= 12,
    ensures
        r@ == cut(text@, most as int, " [TRUNCATED]"@),
{
    proof {
        reveal_strlit(" [TRUNCATED]");
        lemma_ascii_suffix(" [TRUNCATED]"@);
    }
    truncate_utf8(text, most, " [TRUNCATED]")
}

fn cut_excerpt(text: &str, most: usize) -> (r: String)
    ensures
        r@ == cut(text@, most as int, "\n[FAILURE CAPSULE TRUNCATED]"@),
        utf8(r@).len() <= most,
{
    proof {
        reveal_strlit("\n[FAILURE CAPSULE TRUNCATED]");
        lemma_ascii_suffix("\n[FAILURE CAPSULE TRUNCATED]"@);
    }
    truncate_utf8(text, most, "\n[FAILURE CAPSULE TRUNCATED]")
}

fn sort_context(
    events: Vec<FailureContextEventV2>,
    summaries: &Vec<RedactedText>,
) -> (sorted: Vec<FailureContextEventV2>)
    requires
        events@.len() == summaries@.len(),
    ensures
        context_events(sorted@) == events_sorted(redacted_events(events@, summaries@)),
{
    let ghost all = events@;
    let ghost expected = redacted_events(all, summaries@);
    let mut rest = events;
    let mut sorted: Vec<FailureContextEventV2> = Vec::new();
    let mut taken: usize = 0;
    assert(rest@ =~= all.skip(0));
    assert(context_events(sorted@) =~= events_sorted(expected.take(0)));
    while taken < summaries.len()
        invariant
            taken <= all.len(),
            all.len() == summaries@.len(),
            expected == redacted_events(all, summaries@),
            rest@ == all.skip(taken as int),
            context_events(sorted@) == events_sorted(expected.take(taken as int)),
        decreases summaries.len() - taken,
    {
        let event = rest.remove(0);
        let summary = cut_text(summaries[taken].text.as_str(), 2048);
        proof {
            assert(event == all[taken as int]);
            assert(rest@ =~= all.skip(taken + 1));
            assert(expected.take(taken + 1).drop_last() =~= expected.take(taken as int));
            assert(expected.take(taken + 1).last() == redacted_event(
                event,
                summaries@[taken as int],
            ));
        }
        place_event(
            &mut sorted,
            FailureContextEventV2 {
                at_ms: event.at_ms,
                relation: event.relation,
                kind: event.kind,
                summary,
            },
        );
        taken += 1;
    }
    assert(expected.take(taken as int) =~= expected);
    sorted
}

fn count_replacements(texts: &RedactedFailureTexts) -> (r: u64)
    ensures
        r == texts.replacement_total(),
{
    let mut count: u64 = texts.summary.replacement_count;
    count = count.saturating_add(texts.step_display_name.replacement_count);
    count = count.saturating_add(texts.first_cause.replacement_count);
    count = count.saturating_add(texts.excerpt.replacement_count);
    let ghost fixed: int = texts.summary.replacement_count
        + texts.step_display_name.replacement_count + texts.first_cause.replacement_count
        + texts.excerpt.replacement_count;
    let mut i: usize = 0;
    while i < texts.context.len()
        invariant
            i <= texts.context.len(),
            fixed >= 0,
            replacements(texts.context@.take(i as int)) >= 0,
            count == if fixed + replacements(texts.context@.take(i as int)) > u64::MAX {
                u64::MAX as int
            } else {
                fixed + replacements(texts.context@.take(i as int))
            },
        decreases texts.context.len() - i,
    {
        proof {
            assert(texts.context@.take(i + 1).drop_last() =~= texts.context@.take(i as int));
        }
        count = count.saturating_add(texts.context[i].replacement_count);
        i += 1;
    }
    assert(texts.context@.take(i as int) =~= texts.context@);
    count
}

/// Capsules that tell of one failure with one excerpt are refused for the same reason.
#[verifier::spinoff_prover]
#[verifier::rlimit(50)]
proof fn lemma_same_telling(
    a: FailureCapsule,
    b: FailureCapsule,
    input: FailureCapsuleV2Input,
    texts: RedactedFailureTexts,
)
    requires
        a.tells_of(input, texts),
        b.tells_of(input, texts),
        a.excerpt@ == b.excerpt@,
        a.truncated == b.truncated,
    ensures
        a.refusal() == b.refusal(),
{
    let x = a.v2->0;
    let y = b.v2->0;
    assert(x.context@.len() == y.context@.len()) by {
        assert(context_events(x.context@).len() == context_events(y.context@).len());
    }
    assert forall|i: int| 0 <= i < x.context@.len() implies #[trigger] x.context@[i].event()
        == y.context@[i].event() by {
        assert(context_events(x.context@)[i] == x.context@[i].event());
        assert(context_events(y.context@)[i] == y.context@[i].event());
    }
    assert(context_json(x.context@) == context_json(y.context@)) by {
        let left = x.context@.map_values(|value: FailureContextEventV2| value.json());
        let right = y.context@.map_values(|value: FailureContextEventV2| value.json());
        assert forall|i: int| 0 <= i < left.len() implies left[i] == right[i] by {
            assert(x.context@[i].event() == y.context@[i].event());
        }
        assert(left =~= right);
    }
    assert(x.redaction == y.redaction);
    assert(x.duration_ms == y.duration_ms);
    assert(x.json() == y.json()) by {
        reveal(FailureCapsuleV2Evidence::json);
    }
    assert(x.valid() == y.valid()) by {
        reveal(FailureCapsuleV2Evidence::valid);
        assert forall|i: int| 0 <= i < x.context@.len() implies {
            &&& (#[trigger] x.context@[i]).at_ms == y.context@[i].at_ms
            &&& x.context@[i].kind@ == y.context@[i].kind@
            &&& x.context@[i].summary@ == y.context@[i].summary@
        } by {
            assert(x.context@[i].event() == y.context@[i].event());
        }
        assert forall|i: int| 0 <= i < x.context@.len() implies {
            &&& (#[trigger] y.context@[i]).at_ms == x.context@[i].at_ms
            &&& x.context@[i].kind@ == y.context@[i].kind@
            &&& x.context@[i].summary@ == y.context@[i].summary@
        } by {
            assert(x.context@[i].event() == y.context@[i].event());
        }
    }
    assert(a.error.json() == b.error.json());
    assert(a.json() == b.json());
}

impl FailureCapsule {
    /// The excerpt of a failure, redacted and cut down to the size of a capsule.
    pub open spec fn first_excerpt(texts: RedactedFailureTexts) -> Seq<char> {
        cut(
            texts.excerpt.text@,
            FAILURE_CAPSULE_CAP_BYTES as int,
            "\n[FAILURE CAPSULE TRUNCATED]"@,
        )
    }

    /// Everything but the excerpt is what the parts of a failure say, with the free texts redacted
    /// and cut down, the events and the artifacts in order, and the gaps that follow from the rest.
    pub open spec fn tells_of(
        self,
        input: FailureCapsuleV2Input,
        texts: RedactedFailureTexts,
    ) -> bool {
        &&& self.schema_version == FAILURE_CAPSULE_V2_SCHEMA_VERSION
        &&& self.failing_step@ == input.step_id@
        &&& self.error.code == input.error.code
        &&& self.error.summary@ == cut(texts.summary.text@, 1024, " [TRUNCATED]"@)
        &&& self.error.retryability == input.error.retryability
        &&& self.error.runbook_id == input.error.runbook_id
        &&& self.v2 matches Some(v2) && {
            &&& v2.failure_id == input.failure_id
            &&& v2.project_id == input.project_id
            &&& v2.workflow_kind == input.workflow_kind
            &&& v2.source_sha == input.source_sha
            &&& v2.policy_digest == input.policy_digest
            &&& v2.request_id == input.request_id
            &&& v2.operation_id == input.operation_id
            &&& v2.attempt_id == input.attempt_id
            &&& v2.phase == input.phase
            &&& v2.step_id == input.step_id
            &&& v2.started_at_ms == input.started_at_ms
            &&& v2.failed_at_ms == input.failed_at_ms
            &&& v2.process == input.process
            &&& v2.resources == input.resources
            &&& v2.storage == input.storage
            &&& v2.raw_log == input.raw_log
            &&& v2.previous_release_digest == input.previous_release_digest
            &&& v2.attempted_release_digest == input.attempted_release_digest
            &&& v2.health_evidence_digest == input.health_evidence_digest
            &&& v2.terminal_receipt_digest == input.terminal_receipt_digest
            &&& v2.cleanup_receipt_digest == input.cleanup_receipt_digest
            &&& v2.production_mutation == input.production_mutation
            &&& v2.rollback == input.rollback
            &&& v2.step_display_name@ == cut(texts.step_display_name.text@, 160, " [TRUNCATED]"@)
            &&& v2.duration_ms == input.failed_at_ms - input.started_at_ms
            &&& v2.first_cause@ == cut(texts.first_cause.text@, 4096, " [TRUNCATED]"@)
            &&& v2.execution_gaps@ == execution_gaps(input.process, input.resources, input.storage)
            &&& v2.artifacts@ == artifacts_sorted(input.artifacts@)
            &&& context_events(v2.context@) == events_sorted(
                redacted_events(input.context@, texts.context@),
            )
            &&& v2.redaction.ruleset_digest == texts.ruleset_digest
            &&& v2.redaction.replacement_count == texts.replacement_total()
            &&& v2.context_gaps@ == v2.missing()
            &&& v2.render_template_version == FAILURE_CAPSULE_RENDER_TEMPLATE_VERSION
        }
    }

    /// The excerpt that is left once a capsule is so many bytes too large.
    pub open spec fn shortened(excerpt: Seq<char>, oversize: int) -> Seq<char> {
        let size = utf8(excerpt).len() as int;
        cut(
            excerpt,
            if size > oversize {
                size - oversize
            } else {
                0
            },
            "\n[FAILURE CAPSULE TRUNCATED]"@,
        )
    }

    /// What keeps a capsule with its first excerpt from being made: it is out of order, it cannot
    /// be encoded, or it is too large even with its excerpt shortened by what it is too large.
    pub open spec fn refusal(self) -> Option<FailureCapsuleError> {
        if !self.valid() {
            Some(FailureCapsuleError::InvalidDocument)
        } else {
            match jcs(self.json()) {
                None => Some(FailureCapsuleError::CanonicalEncoding),
                Some(bytes) => if bytes.len() <= FAILURE_CAPSULE_CAP_BYTES {
                    None
                } else {
                    let oversize = bytes.len() - FAILURE_CAPSULE_CAP_BYTES;
                    match jcs(
                        self.json_with(FailureCapsule::shortened(self.excerpt@, oversize), true),
                    ) {
                        None => Some(FailureCapsuleError::CanonicalEncoding),
                        Some(shorter) => if shorter.len() > FAILURE_CAPSULE_CAP_BYTES {
                            Some(FailureCapsuleError::CapsuleTooLarge)
                        } else {
                            None
                        },
                    }
                },
            }
        }
    }

    /// The excerpt is the first one where the capsule fits with it, and otherwise that one,
    /// shortened.
    pub open spec fn excerpt_fits(self, excerpt: Seq<char>, truncated: bool) -> bool {
        match jcs(self.json_with(excerpt, truncated)) {
            None => false,
            Some(bytes) => if bytes.len() <= FAILURE_CAPSULE_CAP_BYTES {
                self.excerpt@ == excerpt && self.truncated == truncated
            } else {
                self.excerpt@ == FailureCapsule::shortened(
                    excerpt,
                    bytes.len() - FAILURE_CAPSULE_CAP_BYTES,
                ) && self.truncated
            },
        }
    }

    /// The capsule of a failure with its first excerpt.
    fn telling(input: FailureCapsuleV2Input, texts: RedactedFailureTexts) -> (r: Option<
        FailureCapsule,
    >)
        requires
            input.context@.len() == texts.context@.len(),
        ensures
            match r {
                Some(capsule) => {
                    &&& 0 <= input.failed_at_ms - input.started_at_ms <= i64::MAX
                    &&& capsule.tells_of(input, texts)
                    &&& capsule.excerpt@ == FailureCapsule::first_excerpt(texts)
                    &&& capsule.truncated == (utf8(capsule.excerpt@).len() < utf8(
                        texts.excerpt.text@,
                    ).len())
                },
                None => input.failed_at_ms - input.started_at_ms < 0 || input.failed_at_ms
                    - input.started_at_ms > i64::MAX,
            },
    {
        let replacement_count = count_replacements(&texts);
        let summary = cut_text(texts.summary.text.as_str(), 1024);
        let step_display_name = cut_text(texts.step_display_name.text.as_str(), 160);
        let first_cause = cut_text(texts.first_cause.text.as_str(), 4096);
        let excerpt = cut_excerpt(texts.excerpt.text.as_str(), FAILURE_CAPSULE_CAP_BYTES);
        let truncated = excerpt.as_str().as_bytes().len()
            < texts.excerpt.text.as_str().as_bytes().len();
        let context = sort_context(input.context, &texts.context);
        let artifacts = sort_artifacts(input.artifacts);
        let duration_ms: u64 = match input.failed_at_ms.checked_sub(input.started_at_ms) {
            Some(duration) => if duration < 0 {
                return None;
            } else {
                duration as u64
            },
            None => return None,
        };
        let execution_gaps = expected_execution_gaps(
            &input.process,
            &input.resources,
            &input.storage,
        );
        let context_gaps = expected_context_gaps(
            input.raw_log.is_some(),
            input.terminal_receipt_digest.is_some(),
            input.cleanup_receipt_digest.is_some(),
            input.previous_release_digest.is_some(),
            input.attempted_release_digest.is_some(),
            input.health_evidence_digest.is_some(),
        );
        let failing_step = input.step_id.clone();
        let error = StructuredError {
            code: input.error.code,
            summary,
            retryability: input.error.retryability,
            runbook_id: input.error.runbook_id,
        };
        let evidence = FailureCapsuleV2Evidence {
            failure_id: input.failure_id,
            project_id: input.project_id,
            workflow_kind: input.workflow_kind,
            source_sha: input.source_sha,
            policy_digest: input.policy_digest,
            request_id: input.request_id,
            operation_id: input.operation_id,
            attempt_id: input.attempt_id,
            phase: input.phase,
            step_id: input.step_id,
            started_at_ms: input.started_at_ms,
            failed_at_ms: input.failed_at_ms,
            process: input.process,
            resources: input.resources,
            storage: input.storage,
            raw_log: input.raw_log,
            previous_release_digest: input.previous_release_digest,
            attempted_release_digest: input.attempted_release_digest,
            health_evidence_digest: input.health_evidence_digest,
            terminal_receipt_digest: input.terminal_receipt_digest,
            cleanup_receipt_digest: input.cleanup_receipt_digest,
            production_mutation: input.production_mutation,
            rollback: input.rollback,
            step_display_name,
            duration_ms,
            first_cause,
            execution_gaps,
            artifacts,
            context,
            redaction: FailureRedactionEvidenceV2 {
                ruleset_digest: texts.ruleset_digest,
                replacement_count,
            },
            context_gaps,
            render_template_version: FAILURE_CAPSULE_RENDER_TEMPLATE_VERSION,
        };
        let capsule = FailureCapsule {
            schema_version: FAILURE_CAPSULE_V2_SCHEMA_VERSION,
            failing_step,
            error,
            excerpt,
            truncated,
            v2: Some(evidence),
        };
        Some(capsule)
    }

    /// A capsule cut down to the size of a capsule.
    fn fitted(self) -> (r: Result<FailureCapsule, FailureCapsuleError>)
        requires
            self.schema_version == FAILURE_CAPSULE_V2_SCHEMA_VERSION,
        ensures
            match r {
                Ok(capsule) => {
                    &&& self.refusal() is None
                    &&& capsule.schema_version == self.schema_version
                    &&& capsule.failing_step == self.failing_step
                    &&& capsule.error == self.error
                    &&& capsule.v2 == self.v2
                    &&& capsule.excerpt_fits(self.excerpt@, self.truncated)
                    &&& capsule.fault() is None
                },
                Err(error) => self.refusal() == Some(error),
            },
    {
        let ghost whole = self;
        let mut capsule = self;
        match capsule.validate() {
            Err(error) => return Err(error),
            Ok(()) => {},
        }
        let text = capsule.to_json();
        match canonical_bytes(text.as_str()) {
            Err(_) => Err(FailureCapsuleError::CanonicalEncoding),
            Ok(bytes) => {
                if bytes.len() <= FAILURE_CAPSULE_CAP_BYTES {
                    return Ok(capsule);
                }
                let oversize: usize = bytes.len() - FAILURE_CAPSULE_CAP_BYTES;
                let size: usize = capsule.excerpt.as_str().as_bytes().len();
                let most: usize = if size > oversize {
                    size - oversize
                } else {
                    0
                };
                capsule.excerpt = cut_excerpt(capsule.excerpt.as_str(), most);
                capsule.truncated = true;
                match capsule.validate() {
                    Err(error) => {
                        assert(capsule.valid());
                        Err(error)
                    },
                    Ok(()) => {
                        let text = capsule.to_json();
                        match canonical_bytes(text.as_str()) {
                            Err(_) => Err(FailureCapsuleError::CanonicalEncoding),
                            Ok(shorter) => if shorter.len() > FAILURE_CAPSULE_CAP_BYTES {
                                Err(FailureCapsuleError::CapsuleTooLarge)
                            } else {
                                Ok(capsule)
                            },
                        }
                    },
                }
            },
        }
    }

    /// What a failure comes to, once its texts are redacted. Every capsule that comes out is valid
    /// and has canonical bytes within the size of a capsule.
    pub open spec fn assembled(
        input: FailureCapsuleV2Input,
        texts: RedactedFailureTexts,
        r: Result<FailureCapsule, FailureCapsuleError>,
    ) -> bool {
        let excerpt = FailureCapsule::first_excerpt(texts);
        let truncated = utf8(excerpt).len() < utf8(texts.excerpt.text@).len();
        match r {
            Ok(capsule) => {
                &&& input.started_at_ms <= input.failed_at_ms
                &&& capsule.tells_of(input, texts)
                &&& capsule.excerpt_fits(excerpt, truncated)
                &&& capsule.fault() is None
            },
            Err(error) => if input.failed_at_ms - input.started_at_ms < 0 || input.failed_at_ms
                - input.started_at_ms > i64::MAX {
                error is InvalidDocument
            } else {
                forall|capsule: FailureCapsule|
                    #[trigger] capsule.tells_of(input, texts) && capsule.excerpt@ == excerpt
                        && capsule.truncated == truncated ==> capsule.refusal() == Some(error)
            },
        }
    }

    /// A capsule of the second version: the texts of a failure are redacted, and it is put
    /// together from what is left of them.
    pub fn from_v2_raw(
        input: FailureCapsuleV2Input,
        redactor: &Redactor,
        tally: RedactionTally,
    ) -> (r: Result<FailureCapsule, FailureCapsuleError>)
        requires
            input.context@.len() == tally.context@.len(),
        ensures
            exists|texts: RedactedFailureTexts| #[trigger]
                texts.redacted_from(input, redactor@, tally) && FailureCapsule::assembled(
                    input,
                    texts,
                    r,
                ),
    {
        let texts = redact_texts(&input, redactor, tally);
        let ghost redacted_texts = texts;
        assert(redacted_texts.redacted_from(input, redactor@, tally));
        FailureCapsule::from_redacted(input, texts)
    }

    /// A capsule of the second version, from texts that are redacted.
    pub fn from_redacted(input: FailureCapsuleV2Input, texts: RedactedFailureTexts) -> (r: Result<
        FailureCapsule,
        FailureCapsuleError,
    >)
        requires
            input.context@.len() == texts.context@.len(),
        ensures
            FailureCapsule::assembled(input, texts, r),
    {
        let ghost given = input;
        match FailureCapsule::telling(input, texts) {
            None => Err(FailureCapsuleError::InvalidDocument),
            Some(whole) => {
                let fitted = whole.fitted();
                proof {
                    assert forall|other: FailureCapsule|
                        #[trigger] other.tells_of(given, texts) && other.excerpt@ == whole.excerpt@
                            && other.truncated == whole.truncated implies other.refusal()
                        == whole.refusal() by {
                        lemma_same_telling(whole, other, given, texts);
                    }
                }
                fitted
            },
        }
    }
}

} // verus!
