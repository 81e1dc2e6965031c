//! Failure capsules as Markdown.

use vstd::prelude::*;
use vstd::utf8::encode_utf8_decode_utf8;
use super::budget::FAILURE_CAPSULE_CAP_BYTES;
use super::execution::{ExecutionEvidenceGapV1, ExecutionResourceUsageV1, ExecutionStorageUsageV1};
use super::failure::{
    is_safe_character, safe_character, FailureArtifactV2, FailureCapsule, FailureCapsuleError,
    FailureCapsuleV2Evidence, FailureContextEventV2, FailureContextGapV2,
};
use super::redaction::{cut, lemma_ascii_suffix, truncate_utf8};
use crate::text::{
    characters, decimal, decimal_text, lines, push_char, signed_decimal, signed_decimal_text,
    split_lines, texts, utf8,
};

verus! {

/// A character that Markdown would read as markup.
pub open spec fn markup_character(c: char) -> bool {
    c == '\\' || c == '`' || c == '*' || c == '_' || c == '[' || c == ']' || c == '<' || c == '>' || c
        == '#'
}

fn is_markup_character(c: char) -> (r: bool)
    ensures
        r == markup_character(c),
{
    c == '\\' || c == '`' || c == '*' || c == '_' || c == '[' || c == ']' || c == '<' || c == '>' || c
        == '#'
}

/// A text within a line: line feeds as spaces, markup escaped, and nothing that cannot be shown.
pub open spec fn inline(text: Seq<char>) -> Seq<char>
    decreases text.len(),
{
    if text.len() == 0 {
        seq![]
    } else {
        let before = inline(text.drop_last());
        let c = text.last();
        if !safe_character(c) {
            before
        } else if c == '\n' {
            before.push(' ')
        } else if markup_character(c) {
            before.push('\\').push(c)
        } else {
            before.push(c)
        }
    }
}

/// A text without the characters that cannot be shown.
pub open spec fn shown(text: Seq<char>) -> Seq<char>
    decreases text.len(),
{
    if text.len() == 0 {
        seq![]
    } else if safe_character(text.last()) {
        shown(text.drop_last()).push(text.last())
    } else {
        shown(text.drop_last())
    }
}

fn inline_text(value: &str) -> (r: String)
    ensures
        r@ == inline(value@),
{
    let mut out = String::new();
    let all = characters(value);
    let mut i: usize = 0;
    assert(value@.take(0) =~= seq![]);
    while i < all.len()
        invariant
            i <= all.len(),
            all@ == value@,
            out@ == inline(value@.take(i as int)),
        decreases all.len() - i,
    {
        let c = all[i];
        proof {
            assert(value@.take(i + 1).drop_last() =~= value@.take(i as int));
        }
        if is_safe_character(c) {
            if c == '\n' {
                push_char(&mut out, ' ');
            } else {
                if is_markup_character(c) {
                    push_char(&mut out, '\\');
                }
                push_char(&mut out, c);
            }
        }
        i += 1;
    }
    assert(value@.take(i as int) =~= value@);
    out
}

fn safe_block_text(value: &str) -> (r: String)
    ensures
        r@ == shown(value@),
{
    let mut out = String::new();
    let all = characters(value);
    let mut i: usize = 0;
    assert(value@.take(0) =~= seq![]);
    while i < all.len()
        invariant
            i <= all.len(),
            all@ == value@,
            out@ == shown(value@.take(i as int)),
        decreases all.len() - i,
    {
        let c = all[i];
        proof {
            assert(value@.take(i + 1).drop_last() =~= value@.take(i as int));
        }
        if is_safe_character(c) {
            push_char(&mut out, c);
        }
        i += 1;
    }
    assert(value@.take(i as int) =~= value@);
    out
}

/// A page with a value put behind it, between two texts.
pub open spec fn with_value(
    page: Seq<char>,
    before: Seq<char>,
    value: Seq<char>,
    after: Seq<char>,
) -> Seq<char> {
    page + before + value + after
}

fn put_value(page: &mut String, before: &str, value: &str, after: &str)
    ensures
        final(page)@ == with_value(old(page)@, before@, value@, after@),
{
    page.append(before);
    page.append(value);
    page.append(after);
}

/// A page with a line for a number where there is one.
pub open spec fn with_number(
    page: Seq<char>,
    before: Seq<char>,
    value: Option<u64>,
    after: Seq<char>,
) -> Seq<char> {
    match value {
        Some(value) => with_value(page, before, decimal(value as nat), after),
        None => page,
    }
}

fn render_optional(page: &mut String, before: &str, value: Option<u64>, after: &str)
    ensures
        final(page)@ == with_number(old(page)@, before@, value, after@),
{
    match value {
        Some(value) => {
            let digits = decimal_text(value);
            put_value(page, before, digits.as_str(), after);
        },
        None => {},
    }
}

/// A page with what is known of the emergency reserve.
pub open spec fn with_reserve(page: Seq<char>, storage: ExecutionStorageUsageV1) -> Seq<char> {
    let page = with_number(
        page,
        "- Emergency reserve required: "@,
        storage.emergency_reserve_required_bytes,
        " bytes\n"@,
    );
    let page = with_number(
        page,
        "- Emergency reserve remaining: "@,
        storage.emergency_reserve_remaining_bytes,
        " bytes\n"@,
    );
    with_number(
        page,
        "- Emergency reserve deficit: "@,
        storage.emergency_reserve_deficit_bytes,
        " bytes\n"@,
    )
}

fn render_reserve(page: &mut String, storage: &ExecutionStorageUsageV1)
    ensures
        final(page)@ == with_reserve(old(page)@, *storage),
{
    render_optional(
        page,
        "- Emergency reserve required: ",
        storage.emergency_reserve_required_bytes,
        " bytes\n",
    );
    render_optional(
        page,
        "- Emergency reserve remaining: ",
        storage.emergency_reserve_remaining_bytes,
        " bytes\n",
    );
    render_optional(
        page,
        "- Emergency reserve deficit: ",
        storage.emergency_reserve_deficit_bytes,
        " bytes\n",
    );
}

/// A page with what is known of the resources that a step used.
pub open spec fn with_resources(
    page: Seq<char>,
    resources: ExecutionResourceUsageV1,
    storage: ExecutionStorageUsageV1,
) -> Seq<char> {
    let page = page + "\n## Resource evidence\n"@;
    let page = with_number(page, "- CPU: "@, resources.cpu_usage_usec, " us\n"@);
    let page = with_number(page, "- Memory peak: "@, resources.memory_peak_bytes, " bytes\n"@);
    let page = with_number(page, "- Task peak: "@, resources.tasks_peak, " tasks\n"@);
    let page = with_number(page, "- Scratch after: "@, storage.scratch_after_bytes, " bytes\n"@);
    with_reserve(page, storage)
}

fn render_resources(
    page: &mut String,
    resources: &ExecutionResourceUsageV1,
    storage: &ExecutionStorageUsageV1,
)
    ensures
        final(page)@ == with_resources(old(page)@, *resources, *storage),
{
    page.append("\n## Resource evidence\n");
    render_optional(page, "- CPU: ", resources.cpu_usage_usec, " us\n");
    render_optional(page, "- Memory peak: ", resources.memory_peak_bytes, " bytes\n");
    render_optional(page, "- Task peak: ", resources.tasks_peak, " tasks\n");
    render_optional(page, "- Scratch after: ", storage.scratch_after_bytes, " bytes\n");
    render_reserve(page, storage);
}

/// A page with a line for each text of a list.
pub open spec fn with_list(
    page: Seq<char>,
    before: Seq<char>,
    values: Seq<Seq<char>>,
    after: Seq<char>,
) -> Seq<char>
    decreases values.len(),
{
    if values.len() == 0 {
        page
    } else {
        with_value(with_list(page, before, values.drop_last(), after), before, values.last(), after)
    }
}

/// The names of the pieces of evidence that are missing.
pub open spec fn execution_gap_names(gaps: Seq<ExecutionEvidenceGapV1>) -> Seq<Seq<char>> {
    gaps.map_values(|gap: ExecutionEvidenceGapV1| gap.name())
}

/// The names of the pieces of context that are missing.
pub open spec fn context_gap_names(gaps: Seq<FailureContextGapV2>) -> Seq<Seq<char>> {
    gaps.map_values(|gap: FailureContextGapV2| gap.name())
}

/// A page with the gaps in the evidence, where there are any.
pub open spec fn with_gaps(
    page: Seq<char>,
    execution: Seq<ExecutionEvidenceGapV1>,
    context: Seq<FailureContextGapV2>,
) -> Seq<char> {
    if execution.len() == 0 && context.len() == 0 {
        page
    } else {
        with_list(
            with_list(
                page + "\n## Evidence gaps\n"@,
                "- `"@,
                execution_gap_names(execution),
                "`\n"@,
            ),
            "- `"@,
            context_gap_names(context),
            "`\n"@,
        )
    }
}

fn render_gaps(
    page: &mut String,
    execution: &Vec<ExecutionEvidenceGapV1>,
    context: &Vec<FailureContextGapV2>,
)
    ensures
        final(page)@ == with_gaps(old(page)@, execution@, context@),
{
    if execution.len() == 0 && context.len() == 0 {
        return;
    }
    page.append("\n## Evidence gaps\n");
    let ghost start = page@;
    let mut i: usize = 0;
    while i < execution.len()
        invariant
            i <= execution.len(),
            page@ == with_list(
                start,
                "- `"@,
                execution_gap_names(execution@.take(i as int)),
                "`\n"@,
            ),
        decreases execution.len() - i,
    {
        proof {
            let next = execution_gap_names(execution@.take(i + 1));
            assert(next.drop_last() =~= execution_gap_names(execution@.take(i as int)));
            assert(next.last() == execution@[i as int].name());
        }
        put_value(page, "- `", execution[i].as_str(), "`\n");
        i += 1;
    }
    assert(execution@.take(i as int) =~= execution@);
    let ghost middle = page@;
    let mut k: usize = 0;
    while k < context.len()
        invariant
            k <= context.len(),
            page@ == with_list(middle, "- `"@, context_gap_names(context@.take(k as int)), "`\n"@),
        decreases context.len() - k,
    {
        proof {
            let next = context_gap_names(context@.take(k + 1));
            assert(next.drop_last() =~= context_gap_names(context@.take(k as int)));
            assert(next.last() == context@[k as int].name());
        }
        put_value(page, "- `", context[k].as_str(), "`\n");
        k += 1;
    }
    assert(context@.take(k as int) =~= context@);
}

/// A page with a line for each artifact.
pub open spec fn with_artifacts(page: Seq<char>, artifacts: Seq<FailureArtifactV2>) -> Seq<char>
    decreases artifacts.len(),
{
    if artifacts.len() == 0 {
        page
    } else {
        let artifact = artifacts.last();
        let page = with_artifacts(page, artifacts.drop_last());
        let page = with_value(page, "- `"@, artifact.kind@, "`: `"@);
        let page = with_value(page, artifact.digest@, "` ("@, decimal(artifact.size_bytes as nat));
        page + " bytes)\n"@
    }
}

fn render_artifacts(page: &mut String, artifacts: &Vec<FailureArtifactV2>)
    ensures
        final(page)@ == with_artifacts(old(page)@, artifacts@),
{
    let ghost start = page@;
    let mut i: usize = 0;
    while i < artifacts.len()
        invariant
            i <= artifacts.len(),
            page@ == with_artifacts(start, artifacts@.take(i as int)),
        decreases artifacts.len() - i,
    {
        proof {
            assert(artifacts@.take(i + 1).drop_last() =~= artifacts@.take(i as int));
        }
        put_value(page, "- `", artifacts[i].kind.as_str(), "`: `");
        let size = decimal_text(artifacts[i].size_bytes);
        put_value(page, artifacts[i].digest.as_str(), "` (", size.as_str());
        page.append(" bytes)\n");
        i += 1;
    }
    assert(artifacts@.take(i as int) =~= artifacts@);
}

/// A page with a line for each event.
pub open spec fn with_events(page: Seq<char>, events: Seq<FailureContextEventV2>) -> Seq<char>
    decreases events.len(),
{
    if events.len() == 0 {
        page
    } else {
        let event = events.last();
        let page = with_events(page, events.drop_last());
        let page = with_value(page, "- "@, signed_decimal(event.at_ms as int), " `"@);
        let page = with_value(page, event.relation.variant_name(), "` `"@, event.kind@);
        with_value(page, "`: "@, inline(event.summary@), "\n"@)
    }
}

fn render_events(page: &mut String, events: &Vec<FailureContextEventV2>)
    ensures
        final(page)@ == with_events(old(page)@, events@),
{
    let ghost start = page@;
    let mut i: usize = 0;
    while i < events.len()
        invariant
            i <= events.len(),
            page@ == with_events(start, events@.take(i as int)),
        decreases events.len() - i,
    {
        proof {
            assert(events@.take(i + 1).drop_last() =~= events@.take(i as int));
        }
        let at = signed_decimal_text(events[i].at_ms);
        put_value(page, "- ", at.as_str(), " `");
        put_value(page, events[i].relation.variant_str(), "` `", events[i].kind.as_str());
        let summary = inline_text(events[i].summary.as_str());
        put_value(page, "`: ", summary.as_str(), "\n");
        i += 1;
    }
    assert(events@.take(i as int) =~= events@);
}

impl FailureCapsuleV2Evidence {
    /// A page with the evidence of a failure.
    pub open spec fn rendered_on(self, page: Seq<char>, retryability: Seq<char>) -> Seq<char> {
        let page = with_value(page, "\nCause: "@, inline(self.first_cause@), "\n"@);
        let page = with_value(page, "\n- Step: `"@, self.step_id@, "` ("@);
        let page = with_value(page, inline(self.step_display_name@), ")\n- Phase: `"@, self.phase.variant_name());
        let page = with_value(page, "`\n- Result: `"@, self.process.result.variant_name(), "`\n"@);
        let page = with_value(page, "- Duration: "@, decimal(self.duration_ms as nat), " ms\n"@);
        let page = with_value(page, "- Retry: `"@, retryability, "`\n"@);
        let page = with_value(
            page,
            "- Production mutation: `"@,
            self.production_mutation.variant_name(),
            "`\n"@,
        );
        let page = with_value(page, "- Rollback: `"@, self.rollback.variant_name(), "`\n"@);
        let page = with_resources(page, self.resources, self.storage);
        let page = with_gaps(page, self.execution_gaps@, self.context_gaps@);
        let page = if self.artifacts@.len() == 0 {
            page
        } else {
            with_artifacts(page + "\n## Artifacts\n"@, self.artifacts@)
        };
        if self.context@.len() == 0 {
            page
        } else {
            with_events(page + "\n## Nearby events\n"@, self.context@)
        }
    }

    fn render_on(&self, page: &mut String, retryability: &str)
        ensures
            final(page)@ == self.rendered_on(old(page)@, retryability@),
    {
        let cause = inline_text(self.first_cause.as_str());
        put_value(page, "\nCause: ", cause.as_str(), "\n");
        put_value(page, "\n- Step: `", self.step_id.as_str(), "` (");
        let name = inline_text(self.step_display_name.as_str());
        put_value(page, name.as_str(), ")\n- Phase: `", self.phase.variant_str());
        put_value(page, "`\n- Result: `", self.process.result.variant_str(), "`\n");
        let duration = decimal_text(self.duration_ms);
        put_value(page, "- Duration: ", duration.as_str(), " ms\n");
        put_value(page, "- Retry: `", retryability, "`\n");
        put_value(
            page,
            "- Production mutation: `",
            self.production_mutation.variant_str(),
            "`\n",
        );
        put_value(page, "- Rollback: `", self.rollback.variant_str(), "`\n");
        render_resources(page, &self.resources, &self.storage);
        render_gaps(page, &self.execution_gaps, &self.context_gaps);
        if self.artifacts.len() != 0 {
            page.append("\n## Artifacts\n");
            render_artifacts(page, &self.artifacts);
        }
        if self.context.len() != 0 {
            page.append("\n## Nearby events\n");
            render_events(page, &self.context);
        }
    }
}

impl FailureCapsule {
    /// The whole page of a capsule, however long.
    pub open spec fn rendered(self) -> Seq<char> {
        let page = with_value(seq![], "# Failure: "@, inline(self.error.summary@), "\n"@);
        let retryability = self.error.retryability.variant_name();
        let page = match self.v2 {
            Some(v2) => v2.rendered_on(page, retryability),
            None => {
                let page = page
                    + "\nLegacy capsule (v1): terminal resource, cleanup, release, and context evidence were not recorded.\n"@;
                let page = with_value(page, "\n- Step: `"@, inline(self.failing_step@), "`\n"@);
                with_value(page, "- Retry: `"@, retryability, "`\n"@)
            },
        };
        with_list(page + "\n## Redacted excerpt\n"@, "    "@, lines(shown(self.excerpt@)), "\n"@)
    }

    /// A valid capsule as Markdown, cut down to the size of a capsule.
    pub fn render_markdown(&self) -> (r: Result<String, FailureCapsuleError>)
        ensures
            match r {
                Ok(page) => {
                    &&& self.valid()
                    &&& page@ == cut(
                        self.rendered(),
                        FAILURE_CAPSULE_CAP_BYTES as int,
                        "\n\n[FAILURE RENDER TRUNCATED]"@,
                    )
                    &&& utf8(page@).len() <= FAILURE_CAPSULE_CAP_BYTES
                },
                Err(error) => !self.valid() && error is InvalidDocument,
            },
    {
        match self.validate() {
            Err(error) => return Err(error),
            Ok(()) => {},
        }
        let mut page = String::new();
        assert(page@ =~= seq![]);
        let summary = inline_text(self.error.summary.as_str());
        put_value(&mut page, "# Failure: ", summary.as_str(), "\n");
        let retryability = self.error.retryability.variant_str();
        match &self.v2 {
            Some(v2) => v2.render_on(&mut page, retryability),
            None => {
                page.append(
                    "\nLegacy capsule (v1): terminal resource, cleanup, release, and context evidence were not recorded.\n",
                );
                let step = inline_text(self.failing_step.as_str());
                put_value(&mut page, "\n- Step: `", step.as_str(), "`\n");
                put_value(&mut page, "- Retry: `", retryability, "`\n");
            },
        }
        page.append("\n## Redacted excerpt\n");
        let block = safe_block_text(self.excerpt.as_str());
        let all = split_lines(block.as_str());
        let ghost start = page@;
        let mut i: usize = 0;
        while i < all.len()
            invariant
                i <= all.len(),
                page@ == with_list(start, "    "@, texts(all@.take(i as int)), "\n"@),
            decreases all.len() - i,
        {
            proof {
                let next = texts(all@.take(i + 1));
                assert(next.drop_last() =~= texts(all@.take(i as int)));
                assert(next.last() == all@[i as int]@);
            }
            put_value(&mut page, "    ", all[i].as_str(), "\n");
            i += 1;
        }
        assert(all@.take(i as int) =~= all@);
        proof {
            reveal_strlit("\n\n[FAILURE RENDER TRUNCATED]");
            lemma_ascii_suffix("\n\n[FAILURE RENDER TRUNCATED]"@);
        }
        Ok(
            truncate_utf8(
                page.as_str(),
                FAILURE_CAPSULE_CAP_BYTES,
                "\n\n[FAILURE RENDER TRUNCATED]",
            ),
        )
    }
}

/// A text stands somewhere on a page.
#[verifier::opaque]
pub open spec fn stands_on(page: Seq<char>, text: Seq<char>) -> bool {
    exists|before: Seq<char>, after: Seq<char>| page == #[trigger] (before + text + after)
}

broadcast proof fn lemma_more_stands(page: Seq<char>, more: Seq<char>, text: Seq<char>)
    ensures
        #![trigger stands_on(page + more, text)]
        stands_on(page, text) ==> stands_on(page + more, text),
        text == more ==> stands_on(page + more, text),
{
    reveal(stands_on);
    if stands_on(page, text) {
        let (before, after) = choose|before: Seq<char>, after: Seq<char>|
            page == #[trigger] (before + text + after);
        assert(page + more =~= before + text + (after + more));
    }
    if text == more {
        assert(page + more =~= page + text + Seq::<char>::empty());
    }
}

broadcast proof fn lemma_value_stands(
    page: Seq<char>,
    before: Seq<char>,
    value: Seq<char>,
    after: Seq<char>,
    text: Seq<char>,
)
    ensures
        #![trigger stands_on(with_value(page, before, value, after), text)]
        text == before + value + after ==> stands_on(with_value(page, before, value, after), text),
        stands_on(page, text) ==> stands_on(with_value(page, before, value, after), text),
{
    assert(with_value(page, before, value, after) =~= page + (before + value + after));
    lemma_more_stands(page, before + value + after, text);
}

broadcast proof fn lemma_number_stands(
    page: Seq<char>,
    before: Seq<char>,
    value: Option<u64>,
    after: Seq<char>,
    text: Seq<char>,
)
    ensures
        #![trigger stands_on(with_number(page, before, value, after), text)]
        value is Some && text == before + decimal(value->0 as nat) + after ==> stands_on(
            with_number(page, before, value, after),
            text,
        ),
        stands_on(page, text) ==> stands_on(with_number(page, before, value, after), text),
{
    if value is Some {
        lemma_value_stands(page, before, decimal(value->0 as nat), after, text);
    }
}

broadcast proof fn lemma_list_stands(
    page: Seq<char>,
    before: Seq<char>,
    values: Seq<Seq<char>>,
    after: Seq<char>,
    text: Seq<char>,
)
    ensures
        #![trigger stands_on(with_list(page, before, values, after), text)]
        stands_on(page, text) ==> stands_on(with_list(page, before, values, after), text),
    decreases values.len(),
{
    if values.len() > 0 {
        let rest = values.drop_last();
        lemma_list_stands(page, before, rest, after, text);
        lemma_value_stands(
            with_list(page, before, rest, after),
            before,
            values.last(),
            after,
            text,
        );
    }
}

proof fn lemma_item_stands(
    page: Seq<char>,
    before: Seq<char>,
    values: Seq<Seq<char>>,
    after: Seq<char>,
    i: int,
)
    requires
        0 <= i < values.len(),
    ensures
        stands_on(with_list(page, before, values, after), before + values[i] + after),
    decreases values.len(),
{
    let rest = values.drop_last();
    if i < rest.len() {
        lemma_item_stands(page, before, rest, after, i);
    }
    lemma_value_stands(
        with_list(page, before, rest, after),
        before,
        values.last(),
        after,
        before + values[i] + after,
    );
}

broadcast proof fn lemma_artifacts_stand(
    page: Seq<char>,
    artifacts: Seq<FailureArtifactV2>,
    text: Seq<char>,
)
    ensures
        #![trigger stands_on(with_artifacts(page, artifacts), text)]
        stands_on(page, text) ==> stands_on(with_artifacts(page, artifacts), text),
    decreases artifacts.len(),
{
    broadcast use {lemma_value_stands, lemma_more_stands};

    if artifacts.len() > 0 {
        lemma_artifacts_stand(page, artifacts.drop_last(), text);
    }
}

/// The line of an artifact.
pub open spec fn artifact_line(artifact: FailureArtifactV2) -> Seq<char> {
    "- `"@ + artifact.kind@ + "`: `"@ + artifact.digest@ + "` ("@ + decimal(
        artifact.size_bytes as nat,
    ) + " bytes)\n"@
}

proof fn lemma_artifact_stands(page: Seq<char>, artifacts: Seq<FailureArtifactV2>, i: int)
    requires
        0 <= i < artifacts.len(),
    ensures
        stands_on(with_artifacts(page, artifacts), artifact_line(artifacts[i])),
    decreases artifacts.len(),
{
    let rest = artifacts.drop_last();
    let above = with_artifacts(page, rest);
    if i < rest.len() {
        lemma_artifact_stands(page, rest, i);
    }
    assert(with_artifacts(page, artifacts) =~= above + artifact_line(artifacts.last()));
    lemma_more_stands(above, artifact_line(artifacts.last()), artifact_line(artifacts[i]));
}

broadcast proof fn lemma_events_stand(
    page: Seq<char>,
    events: Seq<FailureContextEventV2>,
    text: Seq<char>,
)
    ensures
        #![trigger stands_on(with_events(page, events), text)]
        stands_on(page, text) ==> stands_on(with_events(page, events), text),
    decreases events.len(),
{
    broadcast use lemma_value_stands;

    if events.len() > 0 {
        lemma_events_stand(page, events.drop_last(), text);
    }
}

/// The line of an event.
pub open spec fn event_line(event: FailureContextEventV2) -> Seq<char> {
    "- "@ + signed_decimal(event.at_ms as int) + " `"@ + event.relation.variant_name() + "` `"@
        + event.kind@ + "`: "@ + inline(event.summary@) + "\n"@
}

proof fn lemma_event_stands(page: Seq<char>, events: Seq<FailureContextEventV2>, i: int)
    requires
        0 <= i < events.len(),
    ensures
        stands_on(with_events(page, events), event_line(events[i])),
    decreases events.len(),
{
    let rest = events.drop_last();
    let above = with_events(page, rest);
    if i < rest.len() {
        lemma_event_stands(page, rest, i);
    }
    assert(with_events(page, events) =~= above + event_line(events.last()));
    lemma_more_stands(above, event_line(events.last()), event_line(events[i]));
}

proof fn lemma_whole_page(capsule: FailureCapsule, page: Seq<char>)
    requires
        page == cut(
            capsule.rendered(),
            FAILURE_CAPSULE_CAP_BYTES as int,
            "\n\n[FAILURE RENDER TRUNCATED]"@,
        ),
        utf8(capsule.rendered()).len() <= FAILURE_CAPSULE_CAP_BYTES,
    ensures
        page == capsule.rendered(),
{
    encode_utf8_decode_utf8(capsule.rendered());
}

/// A page that was not cut shows the summary of its failure, the cause, the step, how it ended, how
/// long it took, and what became of production and of the rollback, each under its own heading.
#[verifier::rlimit(60)]
pub proof fn law_pages_tell_what_failed(
    capsule: FailureCapsule,
    page: String,
    v2: FailureCapsuleV2Evidence,
)
    requires
        call_ensures(FailureCapsule::render_markdown, (&capsule,), Ok(page)),
        utf8(capsule.rendered()).len() <= 65_536,
        capsule.v2 == Some(v2),
    ensures
        stands_on(page@, "# Failure: "@ + inline(capsule.error.summary@) + "\n"@),
        stands_on(page@, "\nCause: "@ + inline(v2.first_cause@) + "\n"@),
        stands_on(page@, "\n- Step: `"@ + v2.step_id@ + "` ("@),
        stands_on(
            page@,
            inline(v2.step_display_name@) + ")\n- Phase: `"@ + v2.phase.variant_name(),
        ),
        stands_on(page@, "`\n- Result: `"@ + v2.process.result.variant_name() + "`\n"@),
        stands_on(page@, "- Duration: "@ + decimal(v2.duration_ms as nat) + " ms\n"@),
        stands_on(page@, "- Retry: `"@ + capsule.error.retryability.variant_name() + "`\n"@),
        stands_on(
            page@,
            "- Production mutation: `"@ + v2.production_mutation.variant_name() + "`\n"@,
        ),
        stands_on(page@, "- Rollback: `"@ + v2.rollback.variant_name() + "`\n"@),
{
    broadcast use {
        lemma_value_stands,
        lemma_number_stands,
        lemma_more_stands,
        lemma_list_stands,
        lemma_artifacts_stand,
        lemma_events_stand,
    };

    lemma_whole_page(capsule, page@);
}

/// A page that was not cut shows each amount that was measured, under its own name and in its own
/// unit.
#[verifier::rlimit(60)]
pub proof fn law_pages_tell_what_was_measured(
    capsule: FailureCapsule,
    page: String,
    v2: FailureCapsuleV2Evidence,
)
    requires
        call_ensures(FailureCapsule::render_markdown, (&capsule,), Ok(page)),
        utf8(capsule.rendered()).len() <= 65_536,
        capsule.v2 == Some(v2),
    ensures
        v2.resources.cpu_usage_usec matches Some(amount) ==> stands_on(
            page@,
            "- CPU: "@ + decimal(amount as nat) + " us\n"@,
        ),
        v2.resources.memory_peak_bytes matches Some(amount) ==> stands_on(
            page@,
            "- Memory peak: "@ + decimal(amount as nat) + " bytes\n"@,
        ),
        v2.resources.tasks_peak matches Some(amount) ==> stands_on(
            page@,
            "- Task peak: "@ + decimal(amount as nat) + " tasks\n"@,
        ),
        v2.storage.scratch_after_bytes matches Some(amount) ==> stands_on(
            page@,
            "- Scratch after: "@ + decimal(amount as nat) + " bytes\n"@,
        ),
        v2.storage.emergency_reserve_required_bytes matches Some(amount) ==> stands_on(
            page@,
            "- Emergency reserve required: "@ + decimal(amount as nat) + " bytes\n"@,
        ),
        v2.storage.emergency_reserve_remaining_bytes matches Some(amount) ==> stands_on(
            page@,
            "- Emergency reserve remaining: "@ + decimal(amount as nat) + " bytes\n"@,
        ),
        v2.storage.emergency_reserve_deficit_bytes matches Some(amount) ==> stands_on(
            page@,
            "- Emergency reserve deficit: "@ + decimal(amount as nat) + " bytes\n"@,
        ),
{
    broadcast use {
        lemma_value_stands,
        lemma_number_stands,
        lemma_more_stands,
        lemma_list_stands,
        lemma_artifacts_stand,
        lemma_events_stand,
    };

    lemma_whole_page(capsule, page@);
}

/// A page that was not cut lists every gap in the evidence, every artifact, every nearby event and
/// every line of the excerpt.
#[verifier::rlimit(60)]
pub proof fn law_pages_list_all_there_is(
    capsule: FailureCapsule,
    page: String,
    v2: FailureCapsuleV2Evidence,
    i: int,
)
    requires
        call_ensures(FailureCapsule::render_markdown, (&capsule,), Ok(page)),
        utf8(capsule.rendered()).len() <= 65_536,
        capsule.v2 == Some(v2),
    ensures
        0 <= i < v2.execution_gaps@.len() ==> stands_on(
            page@,
            "- `"@ + v2.execution_gaps@[i].name() + "`\n"@,
        ),
        0 <= i < v2.context_gaps@.len() ==> stands_on(
            page@,
            "- `"@ + v2.context_gaps@[i].name() + "`\n"@,
        ),
        0 <= i < v2.artifacts@.len() ==> stands_on(page@, artifact_line(v2.artifacts@[i])),
        0 <= i < v2.context@.len() ==> stands_on(page@, event_line(v2.context@[i])),
        0 <= i < lines(shown(capsule.excerpt@)).len() ==> stands_on(
            page@,
            "    "@ + lines(shown(capsule.excerpt@))[i] + "\n"@,
        ),
{
    broadcast use {lemma_more_stands, lemma_list_stands, lemma_artifacts_stand, lemma_events_stand};

    lemma_whole_page(capsule, page@);
    let head = with_value(seq![], "# Failure: "@, inline(capsule.error.summary@), "\n"@);
    let all = v2.rendered_on(head, capsule.error.retryability.variant_name());
    let excerpt = lines(shown(capsule.excerpt@));
    assert(page@ == with_list(all + "\n## Redacted excerpt\n"@, "    "@, excerpt, "\n"@));
    if 0 <= i < excerpt.len() {
        lemma_item_stands(all + "\n## Redacted excerpt\n"@, "    "@, excerpt, "\n"@, i);
    }
    lemma_listed(
        v2,
        head,
        capsule.error.retryability.variant_name(),
        i,
    );
}

#[verifier::rlimit(60)]
proof fn lemma_listed(
    v2: FailureCapsuleV2Evidence,
    head: Seq<char>,
    retryability: Seq<char>,
    i: int,
)
    ensures
        ({
            let all = v2.rendered_on(head, retryability);
            &&& 0 <= i < v2.execution_gaps@.len() ==> stands_on(
                all,
                "- `"@ + v2.execution_gaps@[i].name() + "`\n"@,
            )
            &&& 0 <= i < v2.context_gaps@.len() ==> stands_on(
                all,
                "- `"@ + v2.context_gaps@[i].name() + "`\n"@,
            )
            &&& 0 <= i < v2.artifacts@.len() ==> stands_on(all, artifact_line(v2.artifacts@[i]))
            &&& 0 <= i < v2.context@.len() ==> stands_on(all, event_line(v2.context@[i]))
        }),
{
    broadcast use {lemma_more_stands, lemma_list_stands, lemma_artifacts_stand, lemma_events_stand};

    let page = with_value(head, "\nCause: "@, inline(v2.first_cause@), "\n"@);
    let page = with_value(page, "\n- Step: `"@, v2.step_id@, "` ("@);
    let page = with_value(
        page,
        inline(v2.step_display_name@),
        ")\n- Phase: `"@,
        v2.phase.variant_name(),
    );
    let page = with_value(page, "`\n- Result: `"@, v2.process.result.variant_name(), "`\n"@);
    let page = with_value(page, "- Duration: "@, decimal(v2.duration_ms as nat), " ms\n"@);
    let page = with_value(page, "- Retry: `"@, retryability, "`\n"@);
    let page = with_value(
        page,
        "- Production mutation: `"@,
        v2.production_mutation.variant_name(),
        "`\n"@,
    );
    let page = with_value(page, "- Rollback: `"@, v2.rollback.variant_name(), "`\n"@);
    let measured = with_resources(page, v2.resources, v2.storage);
    let gaps = with_gaps(measured, v2.execution_gaps@, v2.context_gaps@);
    let names = execution_gap_names(v2.execution_gaps@);
    let others = context_gap_names(v2.context_gaps@);
    let titled = measured + "\n## Evidence gaps\n"@;
    let first = with_list(titled, "- `"@, names, "`\n"@);
    if 0 <= i < v2.execution_gaps@.len() {
        lemma_item_stands(titled, "- `"@, names, "`\n"@, i);
        assert(names[i] == v2.execution_gaps@[i].name());
        assert(stands_on(gaps, "- `"@ + names[i] + "`\n"@));
    }
    if 0 <= i < v2.context_gaps@.len() {
        lemma_item_stands(first, "- `"@, others, "`\n"@, i);
        assert(others[i] == v2.context_gaps@[i].name());
        assert(stands_on(gaps, "- `"@ + others[i] + "`\n"@));
    }
    let made = if v2.artifacts@.len() == 0 {
        gaps
    } else {
        with_artifacts(gaps + "\n## Artifacts\n"@, v2.artifacts@)
    };
    if 0 <= i < v2.artifacts@.len() {
        lemma_artifact_stands(gaps + "\n## Artifacts\n"@, v2.artifacts@, i);
    }
    if 0 <= i < v2.context@.len() {
        lemma_event_stands(made + "\n## Nearby events\n"@, v2.context@, i);
    }
}

/// A character that can stand in a page: not a control character, but for line feeds and tabs.
pub open spec fn may_be_shown(c: char) -> bool {
    c == '\n' || c == '\t' || 0x20 <= (c as int) < 0x7f || 0xa0 <= (c as int)
}

/// Text within a line is put down character by character: a line feed as a space, a character of
/// Markdown behind a backslash, every other character as it is, and none that cannot be shown.
pub proof fn law_inline_text_is_escaped(text: Seq<char>, c: char)
    ensures
        inline(Seq::<char>::empty()) == Seq::<char>::empty(),
        !may_be_shown(c) ==> inline(text.push(c)) == inline(text),
        inline(text.push('\n')) == inline(text).push(' '),
        "\\`*_[]<>#"@.contains(c) ==> inline(text.push(c)) == inline(text) + seq!['\\', c],
        may_be_shown(c) && c != '\n' && !"\\`*_[]<>#"@.contains(c) ==> inline(text.push(c))
            == inline(text).push(c),
        !inline(text).contains('\n'),
    decreases text.len(),
{
    reveal_strlit("\\`*_[]<>#");
    let marks = "\\`*_[]<>#"@;
    assert(marks[0] == '\\' && marks[1] == '`' && marks[2] == '*' && marks[3] == '_' && marks[4]
        == '[' && marks[5] == ']' && marks[6] == '<' && marks[7] == '>' && marks[8] == '#');
    assert(text.push(c).drop_last() =~= text);
    assert(text.push('\n').drop_last() =~= text);
    assert(inline(text).push('\\').push(c) =~= inline(text) + seq!['\\', c]);
    if text.len() > 0 {
        law_inline_text_is_escaped(text.drop_last(), c);
        let before = inline(text.drop_last());
        assert forall|k: int| 0 <= k < inline(text).len() implies inline(text)[k] != '\n' by {
            if k < before.len() {
                assert(before.contains(before[k]));
            }
        }
    }
}

/// An excerpt is shown character by character, without those that cannot be shown.
pub proof fn law_excerpts_are_shown_as_they_are(text: Seq<char>, c: char)
    ensures
        shown(Seq::<char>::empty()) == Seq::<char>::empty(),
        may_be_shown(c) ==> shown(text.push(c)) == shown(text).push(c),
        !may_be_shown(c) ==> shown(text.push(c)) == shown(text),
{
    assert(text.push(c).drop_last() =~= text);
}

/// A capsule of the first version says so, and shows its step and whether it can be tried again.
pub proof fn law_pages_of_the_first_version_say_so(capsule: FailureCapsule, page: String)
    requires
        call_ensures(FailureCapsule::render_markdown, (&capsule,), Ok(page)),
        utf8(capsule.rendered()).len() <= 65_536,
        capsule.v2 is None,
    ensures
        stands_on(page@, "# Failure: "@ + inline(capsule.error.summary@) + "\n"@),
        stands_on(
            page@,
            "\nLegacy capsule (v1): terminal resource, cleanup, release, and context evidence were not recorded.\n"@,
        ),
        stands_on(page@, "\n- Step: `"@ + inline(capsule.failing_step@) + "`\n"@),
        stands_on(page@, "- Retry: `"@ + capsule.error.retryability.variant_name() + "`\n"@),
{
    broadcast use {lemma_value_stands, lemma_more_stands, lemma_list_stands};

    lemma_whole_page(capsule, page@);
}

} // verus!
