//! What holds of every failure capsule, whatever it tells of.

use vstd::prelude::*;
use super::failure::{
    all_context_gaps, context_events, missing_context, FailureCapsule, FailureCapsuleError,
    FailureCapsuleV2Evidence, FailureContextGapV2, StructuredError,
};
use super::failure_assembly::{
    law_sorted_artifacts_are_ordered, law_sorted_context_is_ordered, redacted_events, replacements,
    FailureCapsuleV2Input, RedactedFailureTexts, RedactedText,
};
use super::redaction::Redactor;
use crate::text::utf8;

verus! {

proof fn lemma_kept_members<A>(all: Seq<A>, keep: spec_fn(A) -> bool, x: A)
    ensures
        all.filter(keep).contains(x) <==> all.contains(x) && keep(x),
    decreases all.len(),
{
    reveal(Seq::filter);
    if all.len() > 0 {
        let head = all.drop_last();
        lemma_kept_members(head, keep, x);
        let rest = head.filter(keep);
        let out = all.filter(keep);
        assert(all[all.len() - 1] == all.last());
        if all.contains(x) {
            let i = choose|i: int| 0 <= i < all.len() && all[i] == x;
            if i < head.len() {
                assert(head[i] == x);
            }
        }
        if head.contains(x) {
            let i = choose|i: int| 0 <= i < head.len() && head[i] == x;
            assert(all[i] == x);
        }
        if out.contains(x) {
            let i = choose|i: int| 0 <= i < out.len() && out[i] == x;
            if i < rest.len() {
                assert(rest[i] == x);
            }
        }
        if rest.contains(x) {
            let i = choose|i: int| 0 <= i < rest.len() && rest[i] == x;
            assert(out[i] == x);
        }
        if keep(all.last()) {
            assert(out[out.len() - 1] == all.last());
        }
    }
}

proof fn lemma_missing_context(
    raw_log: bool,
    terminal: bool,
    cleanup: bool,
    previous: bool,
    attempted: bool,
    health: bool,
)
    ensures
        ({
            let gaps = missing_context(raw_log, terminal, cleanup, previous, attempted, health);
            &&& gaps.contains(FailureContextGapV2::RawLog) <==> !raw_log
            &&& gaps.contains(FailureContextGapV2::TerminalReceipt) <==> !terminal
            &&& gaps.contains(FailureContextGapV2::CleanupReceipt) <==> !cleanup
            &&& gaps.contains(FailureContextGapV2::PreviousRelease) <==> !previous
            &&& gaps.contains(FailureContextGapV2::AttemptedRelease) <==> !attempted
            &&& gaps.contains(FailureContextGapV2::HealthEvidence) <==> !health
        }),
{
    let all = all_context_gaps();
    let keep = |gap: FailureContextGapV2|
        match gap {
            FailureContextGapV2::RawLog => !raw_log,
            FailureContextGapV2::TerminalReceipt => !terminal,
            FailureContextGapV2::CleanupReceipt => !cleanup,
            FailureContextGapV2::PreviousRelease => !previous,
            FailureContextGapV2::AttemptedRelease => !attempted,
            FailureContextGapV2::HealthEvidence => !health,
        };
    assert(missing_context(raw_log, terminal, cleanup, previous, attempted, health) == all.filter(
        keep,
    ));
    lemma_kept_members(all, keep, FailureContextGapV2::RawLog);
    lemma_kept_members(all, keep, FailureContextGapV2::TerminalReceipt);
    lemma_kept_members(all, keep, FailureContextGapV2::CleanupReceipt);
    lemma_kept_members(all, keep, FailureContextGapV2::PreviousRelease);
    lemma_kept_members(all, keep, FailureContextGapV2::AttemptedRelease);
    lemma_kept_members(all, keep, FailureContextGapV2::HealthEvidence);
    assert(all[0] is RawLog && all[1] is TerminalReceipt && all[2] is CleanupReceipt && all[3]
        is PreviousRelease && all[4] is AttemptedRelease && all[5] is HealthEvidence);
}

/// A valid capsule tells how long the failing step took, names the step twice in the same way, says of
/// all that is missing that it is missing and of nothing else, and keeps its log at least until the
/// failure.
pub proof fn law_valid_capsules_tell_their_gaps(capsule: FailureCapsule)
    requires
        call_ensures(
            FailureCapsule::validate,
            (&capsule,),
            Ok::<(), FailureCapsuleError>(()),
        ),
    ensures
        capsule.v2 is None <==> capsule.schema_version == 1,
        capsule.v2 is Some <==> capsule.schema_version == 2,
        utf8(capsule.excerpt@).len() <= 65_536,
        capsule.v2 matches Some(v2) ==> {
            &&& 0 <= v2.started_at_ms <= v2.failed_at_ms
            &&& v2.started_at_ms + v2.duration_ms == v2.failed_at_ms
            &&& capsule.failing_step@ == v2.step_id@
            &&& v2.artifacts@.len() <= 32
            &&& v2.context@.len() <= 24
            &&& v2.context_gaps@.contains(FailureContextGapV2::RawLog) <==> v2.raw_log is None
            &&& v2.context_gaps@.contains(FailureContextGapV2::TerminalReceipt)
                <==> v2.terminal_receipt_digest is None
            &&& v2.context_gaps@.contains(FailureContextGapV2::CleanupReceipt)
                <==> v2.cleanup_receipt_digest is None
            &&& v2.context_gaps@.contains(FailureContextGapV2::PreviousRelease)
                <==> v2.previous_release_digest is None
            &&& v2.context_gaps@.contains(FailureContextGapV2::AttemptedRelease)
                <==> v2.attempted_release_digest is None
            &&& v2.context_gaps@.contains(FailureContextGapV2::HealthEvidence)
                <==> v2.health_evidence_digest is None
            &&& v2.raw_log matches Some(log) ==> log.compressed_size_bytes > 0
                && log.retained_until_ms >= v2.failed_at_ms
            &&& !v2.failure_id.nil() && !v2.request_id.nil() && !v2.operation_id.nil()
                && !v2.attempt_id.nil()
        },
{
    let v2 = capsule.v2->0;
    lemma_missing_context(
        v2.raw_log is Some,
        v2.terminal_receipt_digest is Some,
        v2.cleanup_receipt_digest is Some,
        v2.previous_release_digest is Some,
        v2.attempted_release_digest is Some,
        v2.health_evidence_digest is Some,
    );
    if capsule.v2 is Some {
        reveal(FailureCapsuleV2Evidence::valid);
    }
}

/// The excerpt of a capsule is what is left of the raw one when all that is secret is taken out of it,
/// whole where it fits and marked as cut where it does not.
pub proof fn law_excerpts_are_redacted_before_they_are_cut(
    step: String,
    error: StructuredError,
    raw: &str,
    redactor: Redactor,
    left: String,
    capsule: FailureCapsule,
)
    requires
        call_ensures(Redactor::redact, (&redactor, raw), left),
        call_ensures(FailureCapsule::from_raw, (step, error, raw, &redactor), capsule),
    ensures
        capsule.schema_version == 1,
        capsule.v2 is None,
        capsule.failing_step == step,
        capsule.error == error,
        utf8(capsule.excerpt@).len() <= 65_536,
        utf8(left@).len() <= 65_536 ==> capsule.excerpt@ == left@ && !capsule.truncated,
        utf8(left@).len() > 65_536 ==> capsule.truncated,
{
    vstd::utf8::encode_utf8_decode_utf8(left@);
}

/// A capsule that is put together tells just what it was given, and of its texts only what redaction
/// left: every identity, the times and what lies between them, what the process did and used, what
/// became of production and of the rollback. Its artifacts and its context are those that were given,
/// all of them, in order.
#[verifier::rlimit(30)]
pub proof fn law_capsules_tell_what_they_were_given(
    input: FailureCapsuleV2Input,
    texts: RedactedFailureTexts,
    capsule: FailureCapsule,
)
    requires
        call_ensures(
            FailureCapsule::from_redacted,
            (input, texts),
            Ok::<FailureCapsule, FailureCapsuleError>(capsule),
        ),
    ensures
        capsule.schema_version == 2,
        capsule.failing_step@ == input.step_id@,
        capsule.error.code == input.error.code,
        capsule.error.retryability == input.error.retryability,
        capsule.error.runbook_id == input.error.runbook_id,
        utf8(texts.summary.text@).len() <= 1024 ==> capsule.error.summary@
            == texts.summary.text@,
        capsule.v2 matches Some(v2) && {
            &&& v2.failure_id == input.failure_id && v2.project_id == input.project_id
            &&& v2.request_id == input.request_id && v2.operation_id == input.operation_id
                && v2.attempt_id == input.attempt_id
            &&& v2.workflow_kind == input.workflow_kind && v2.source_sha == input.source_sha
                && v2.policy_digest == input.policy_digest
            &&& v2.phase == input.phase && v2.step_id == input.step_id
            &&& v2.started_at_ms == input.started_at_ms && v2.failed_at_ms == input.failed_at_ms
            &&& input.started_at_ms + v2.duration_ms == input.failed_at_ms
            &&& v2.process == input.process && v2.resources == input.resources && v2.storage
                == input.storage
            &&& v2.raw_log == input.raw_log
            &&& v2.previous_release_digest == input.previous_release_digest
                && v2.attempted_release_digest == input.attempted_release_digest
            &&& v2.health_evidence_digest == input.health_evidence_digest
            &&& v2.terminal_receipt_digest == input.terminal_receipt_digest
                && v2.cleanup_receipt_digest == input.cleanup_receipt_digest
            &&& v2.production_mutation == input.production_mutation && v2.rollback
                == input.rollback
            &&& utf8(texts.first_cause.text@).len() <= 4096 ==> v2.first_cause@
                == texts.first_cause.text@
            &&& utf8(texts.step_display_name.text@).len() <= 160 ==> v2.step_display_name@
                == texts.step_display_name.text@
            &&& v2.artifacts@.to_multiset() == input.artifacts@.to_multiset()
            &&& context_events(v2.context@).to_multiset() == redacted_events(
                input.context@,
                texts.context@,
            ).to_multiset()
            &&& v2.redaction.ruleset_digest == texts.ruleset_digest
        },
        input.started_at_ms <= input.failed_at_ms,
{
    vstd::utf8::encode_utf8_decode_utf8(texts.summary.text@);
    vstd::utf8::encode_utf8_decode_utf8(texts.first_cause.text@);
    vstd::utf8::encode_utf8_decode_utf8(texts.step_display_name.text@);
    law_sorted_artifacts_are_ordered(input.artifacts@);
    law_sorted_context_is_ordered(redacted_events(input.context@, texts.context@));
}

/// A capsule counts every replacement that was made, in whichever text, once; where there are more
/// than it can count, it tells the most that it can.
pub proof fn law_every_replacement_counts_once(
    input: FailureCapsuleV2Input,
    texts: RedactedFailureTexts,
    capsule: FailureCapsule,
)
    requires
        call_ensures(
            FailureCapsule::from_redacted,
            (input, texts),
            Ok::<FailureCapsule, FailureCapsuleError>(capsule),
        ),
        texts.context@.len() == 1,
    ensures
        ({
            let all = texts.summary.replacement_count + texts.step_display_name.replacement_count
                + texts.first_cause.replacement_count + texts.excerpt.replacement_count
                + texts.context@[0].replacement_count;
            let told = (capsule.v2->0).redaction.replacement_count;
            &&& all <= u64::MAX ==> told == all
            &&& all > u64::MAX ==> told == u64::MAX
        }),
{
    reveal_with_fuel(replacements, 2);
    assert(texts.context@.last() == texts.context@[0]);
}

/// Each further text of the context adds its own replacements to those of the others.
pub proof fn law_replacements_add_up(texts: Seq<RedactedText>, more: RedactedText)
    ensures
        replacements(texts.push(more)) == replacements(texts) + more.replacement_count,
        replacements(Seq::<RedactedText>::empty()) == 0,
{
    assert(texts.push(more).drop_last() =~= texts);
}

/// What is written of a capsule of the second version is within its limit, and a capsule is read only
/// from what it is written as.
pub proof fn law_capsules_are_written_within_their_limit(
    capsule: FailureCapsule,
    bytes: Vec<u8>,
    found: &[u8],
    read: Result<FailureCapsule, FailureCapsuleError>,
)
    requires
        call_ensures(
            FailureCapsule::canonical_bytes,
            (&capsule,),
            Ok::<Vec<u8>, FailureCapsuleError>(bytes),
        ),
        call_ensures(FailureCapsule::decode_canonical, (capsule, found), read),
    ensures
        capsule.schema_version == 2 ==> bytes@.len() <= 65_536,
        read is Ok <==> found@ == bytes@,
        read matches Ok(again) ==> again == capsule,
{
}

} // verus!
