//! Removing secrets from text, and cutting text down to a size.

use vstd::prelude::*;
use vstd::utf8::{
    decode_utf8, encode_utf8_decode_utf8, encode_utf8_valid_utf8, is_ascii_chars,
    is_ascii_chars_encode_utf8, is_char_boundary, is_char_boundary_iff_not_is_continuation_byte,
    is_char_boundary_start_end_of_seq,
};
use super::budget::LOG_EVENT_CAP_BYTES;
use crate::text::{
    characters, lemma_contains_pushed, lemma_utf8_concat, push_char, same_text, texts, utf8,
};

verus! {

/// The error of a pattern that does not compile.
#[verifier::external_type_specification]
#[verifier::external_body]
pub struct ExRegexError(regex::Error);

/// Whether a pattern compiles.
pub uninterp spec fn regex_compiles(pattern: Seq<char>) -> bool;

/// `regex::Regex::new`: whether it accepts a pattern depends on the pattern alone.
#[verifier::external_body]
fn compile_pattern(pattern: &str) -> (r: Result<(), regex::Error>)
    ensures
        r is Ok <==> regex_compiles(pattern@),
{
    regex::Regex::new(pattern).map(|_| ())
}

/// A text with every match of a pattern replaced.
pub uninterp spec fn regex_replaced(
    pattern: Seq<char>,
    text: Seq<char>,
    replacement: Seq<char>,
) -> Seq<char>;

/// `regex::Regex::replace_all` with a replacement text, in which `$1` and the like stand for the
/// groups of a match. The result depends on the pattern, the text and the replacement alone.
#[verifier::external_body]
fn replace_pattern(pattern: &str, text: &str, replacement: &str) -> (r: String)
    requires
        regex_compiles(pattern@),
    ensures
        r@ == regex_replaced(pattern@, text@, replacement@),
{
    let regex = regex::Regex::new(pattern).expect("a pattern that compiles");
    regex.replace_all(text, replacement).into_owned()
}

/// A secret that is too short to be told from ordinary text is left alone.
pub const LEAST_SECRET_BYTES: usize = 4;

/// A text with every occurrence of another replaced, from left to right.
pub open spec fn replaced(text: Seq<char>, pattern: Seq<char>, replacement: Seq<char>) -> Seq<char>
    decreases text.len(),
{
    if pattern.len() == 0 || text.len() < pattern.len() {
        text
    } else if text.take(pattern.len() as int) == pattern {
        replacement + replaced(text.skip(pattern.len() as int), pattern, replacement)
    } else {
        seq![text[0]] + replaced(text.skip(1), pattern, replacement)
    }
}

fn occurs_at(text: &Vec<char>, at: usize, pattern: &Vec<char>) -> (r: bool)
    requires
        at + pattern.len() <= text.len(),
    ensures
        r == (text@.skip(at as int).take(pattern.len() as int) == pattern@),
{
    let mut i: usize = 0;
    while i < pattern.len()
        invariant
            i <= pattern.len(),
            at + pattern.len() <= text.len(),
            forall|k: int| 0 <= k < i ==> text@[at + k] == pattern@[k],
        decreases pattern.len() - i,
    {
        if text[at + i] != pattern[i] {
            assert(text@.skip(at as int).take(pattern.len() as int)[i as int] != pattern@[i as int]);
            return false;
        }
        i += 1;
    }
    assert(text@.skip(at as int).take(pattern.len() as int) =~= pattern@);
    true
}

/// Replaces every occurrence of a text in another, from left to right.
pub fn replace_text(text: &str, pattern: &str, replacement: &str) -> (r: String)
    requires
        pattern@.len() > 0,
    ensures
        r@ == replaced(text@, pattern@, replacement@),
{
    let input = characters(text);
    let wanted = characters(pattern);
    let mut out = String::new();
    let mut i: usize = 0;
    assert(input@.skip(0) =~= text@);
    assert(out@ + replaced(input@.skip(0), pattern@, replacement@) =~= replaced(
        text@,
        pattern@,
        replacement@,
    ));
    while i < input.len() && input.len() - i >= wanted.len()
        invariant
            i <= input.len(),
            input@ == text@,
            wanted@ == pattern@,
            wanted.len() > 0,
            out@ + replaced(input@.skip(i as int), pattern@, replacement@) == replaced(
                text@,
                pattern@,
                replacement@,
            ),
        decreases input.len() - i,
    {
        let ghost rest = input@.skip(i as int);
        let ghost before = out@;
        if occurs_at(&input, i, &wanted) {
            out.append(replacement);
            i += wanted.len();
            proof {
                assert(rest.skip(wanted.len() as int) =~= input@.skip(i as int));
                assert(out@ + replaced(input@.skip(i as int), pattern@, replacement@) =~= before + (
                replacement@ + replaced(input@.skip(i as int), pattern@, replacement@)));
            }
        } else {
            push_char(&mut out, input[i]);
            i += 1;
            proof {
                assert(rest.skip(1) =~= input@.skip(i as int));
                assert(out@ + replaced(input@.skip(i as int), pattern@, replacement@) =~= before + (
                seq![rest[0]] + replaced(input@.skip(i as int), pattern@, replacement@)));
            }
        }
    }
    let ghost rest = input@.skip(i as int);
    let ghost before = out@;
    assert(replaced(rest, pattern@, replacement@) == rest);
    assert(before + rest == replaced(text@, pattern@, replacement@));
    while i < input.len()
        invariant
            i <= input.len(),
            input@ == text@,
            out@ + input@.skip(i as int) == replaced(text@, pattern@, replacement@),
        decreases input.len() - i,
    {
        let ghost so_far = out@;
        push_char(&mut out, input[i]);
        i += 1;
        assert(out@ + input@.skip(i as int) =~= so_far + input@.skip(i - 1));
    }
    assert(out@ + input@.skip(i as int) =~= out@);
    out
}

/// The largest character boundary of some UTF-8 bytes up to an index.
pub open spec fn boundary_up_to(bytes: Seq<u8>, index: int) -> int
    decreases index,
{
    if index <= 0 {
        0
    } else if is_char_boundary(bytes, index) {
        index
    } else {
        boundary_up_to(bytes, index - 1)
    }
}

/// The lesser of two numbers.
pub open spec fn lesser(a: int, b: int) -> int {
    if a <= b {
        a
    } else {
        b
    }
}

/// A text that is cut down to a number of bytes: itself where it fits, otherwise as many of its
/// characters as fit before a suffix, and the suffix. A suffix that does not fit is cut as well.
pub open spec fn truncated(bytes: Seq<u8>, most: int, suffix: Seq<u8>) -> Seq<u8> {
    if bytes.len() <= most {
        bytes
    } else {
        let kept = lesser(suffix.len() as int, most);
        bytes.take(boundary_up_to(bytes, most - kept)) + suffix.take(kept)
    }
}

/// The text of `truncated`.
pub open spec fn cut(text: Seq<char>, most: int, suffix: Seq<char>) -> Seq<char> {
    decode_utf8(truncated(utf8(text), most, utf8(suffix)))
}

/// Cuts a text down to a number of bytes. The suffix must have a character boundary where it would
/// be cut.
pub fn truncate_utf8(input: &str, max_bytes: usize, suffix: &str) -> (r: String)
    requires
        utf8(input@).len() <= max_bytes || is_char_boundary(
            utf8(suffix@),
            lesser(utf8(suffix@).len() as int, max_bytes as int),
        ),
    ensures
        utf8(r@) == truncated(utf8(input@), max_bytes as int, utf8(suffix@)),
        utf8(r@).len() <= max_bytes,
        utf8(input@).len() <= max_bytes ==> r@ == input@,
        r@ == cut(input@, max_bytes as int, suffix@),
{
    let bytes = input.as_bytes();
    if bytes.len() <= max_bytes {
        proof {
            encode_utf8_decode_utf8(input@);
        }
        return input.to_owned();
    }
    let suffix_len: usize = if suffix.as_bytes().len() < max_bytes {
        suffix.as_bytes().len()
    } else {
        max_bytes
    };
    let mut boundary: usize = max_bytes - suffix_len;
    proof {
        encode_utf8_valid_utf8(input@);
        encode_utf8_valid_utf8(suffix@);
        is_char_boundary_start_end_of_seq(utf8(input@));
    }
    while boundary > 0 && !input.is_char_boundary(boundary)
        invariant
            boundary <= max_bytes - suffix_len,
            suffix_len <= max_bytes,
            boundary_up_to(utf8(input@), boundary as int) == boundary_up_to(
                utf8(input@),
                max_bytes - suffix_len,
            ),
        decreases boundary,
    {
        boundary -= 1;
    }
    let (head, _) = input.split_at(boundary);
    let (tail, _) = suffix.split_at(suffix_len);
    let mut out = String::new();
    out.append(head);
    out.append(tail);
    proof {
        assert(out@ =~= head@ + tail@);
        lemma_utf8_concat(head@, tail@);
        assert(utf8(head@) =~= utf8(input@).take(boundary as int));
        assert(utf8(tail@) =~= utf8(suffix@).take(suffix_len as int));
        encode_utf8_decode_utf8(out@);
    }
    out
}

/// A list of texts with a text put behind all that are at least as long, in bytes.
pub open spec fn placed(secrets: Seq<Seq<char>>, secret: Seq<char>) -> Seq<Seq<char>>
    decreases secrets.len(),
{
    if secrets.len() == 0 || utf8(secrets.last()).len() >= utf8(secret).len() {
        secrets.push(secret)
    } else {
        placed(secrets.drop_last(), secret).push(secrets.last())
    }
}

/// Texts from the longest to the shortest, in bytes; those of one length stay in their order, and
/// those that are too short are left out.
pub open spec fn longest_first(secrets: Seq<Seq<char>>) -> Seq<Seq<char>>
    decreases secrets.len(),
{
    if secrets.len() == 0 {
        seq![]
    } else if utf8(secrets.last()).len() >= LEAST_SECRET_BYTES {
        placed(longest_first(secrets.drop_last()), secrets.last())
    } else {
        longest_first(secrets.drop_last())
    }
}

/// A list without the items that equal the one before them.
pub open spec fn without_repeats(items: Seq<Seq<char>>) -> Seq<Seq<char>>
    decreases items.len(),
{
    if items.len() <= 1 {
        items
    } else if items.last() == items[items.len() - 2] {
        without_repeats(items.drop_last())
    } else {
        without_repeats(items.drop_last()).push(items.last())
    }
}

/// A text with each of some secrets replaced, one after the other.
pub open spec fn secrets_replaced(text: Seq<char>, secrets: Seq<Seq<char>>) -> Seq<char>
    decreases secrets.len(),
{
    if secrets.len() == 0 {
        text
    } else {
        replaced(secrets_replaced(text, secrets.drop_last()), secrets.last(), "[REDACTED]"@)
    }
}

pub open spec fn private_key_pattern() -> Seq<char> {
    "(?s)-----BEGIN(?: [A-Z0-9]+)? PRIVATE KEY-----.*?-----END(?: [A-Z0-9]+)? PRIVATE KEY-----"@
}

pub open spec fn bearer_pattern() -> Seq<char> {
    "(?i)\\bbearer\\s+[a-z0-9._~+/=-]{8,}"@
}

pub open spec fn key_value_pattern() -> Seq<char> {
    "(?i)\\b(authorization|token|secret|password|passwd|api[_-]?key)(\\s*[:=]\\s*)([^\\s,;\"']{4,})"@
}

pub open spec fn jwt_pattern() -> Seq<char> {
    "\\beyJ[a-zA-Z0-9_-]{4,}\\.[a-zA-Z0-9_-]{4,}\\.[a-zA-Z0-9_-]{4,}\\b"@
}

pub open spec fn provider_key_pattern() -> Seq<char> {
    "\\b(?:sk-|gh[pousr]_|AIza)[a-zA-Z0-9_-]{12,}\\b"@
}

/// Every pattern compiles.
pub open spec fn patterns_compile() -> bool {
    &&& regex_compiles(private_key_pattern())
    &&& regex_compiles(bearer_pattern())
    &&& regex_compiles(key_value_pattern())
    &&& regex_compiles(jwt_pattern())
    &&& regex_compiles(provider_key_pattern())
}

/// What is left of a text once the known secrets and whatever looks like a secret are replaced.
pub open spec fn redacted(text: Seq<char>, secrets: Seq<Seq<char>>) -> Seq<char> {
    let known = secrets_replaced(text, secrets);
    let keys = regex_replaced(private_key_pattern(), known, "[REDACTED]"@);
    let bearers = regex_replaced(bearer_pattern(), keys, "Bearer [REDACTED]"@);
    let pairs = regex_replaced(key_value_pattern(), bearers, "$1$2[REDACTED]"@);
    let tokens = regex_replaced(jwt_pattern(), pairs, "[REDACTED]"@);
    regex_replaced(provider_key_pattern(), tokens, "[REDACTED]"@)
}

/// A pattern of the redactor does not compile.
#[derive(Clone, Copy, Debug, PartialEq, Eq, Structural)]
pub struct PatternError;

/// Replaces secrets in text.
#[derive(Debug)]
pub struct Redactor {
    known_secrets: Vec<String>,
}

impl View for Redactor {
    type V = Seq<Seq<char>>;

    /// The known secrets, in the order in which they are replaced.
    closed spec fn view(&self) -> Seq<Seq<char>> {
        texts(self.known_secrets@)
    }
}

fn compiles(pattern: &str) -> (r: bool)
    ensures
        r == regex_compiles(pattern@),
{
    match compile_pattern(pattern) {
        Ok(()) => true,
        Err(_) => false,
    }
}

fn place(secrets: &mut Vec<String>, secret: String)
    ensures
        texts(final(secrets)@) == placed(texts(old(secrets)@), secret@),
{
    let ghost before = secrets@;
    let mut at: usize = secrets.len();
    assert(before.take(at as int) =~= before);
    while at > 0 && secrets[at - 1].as_str().as_bytes().len() < secret.as_str().as_bytes().len()
        invariant
            at <= secrets.len(),
            secrets@ == before,
            placed(texts(before), secret@) == placed(texts(before.take(at as int)), secret@) + texts(
                before.skip(at as int),
            ),
        decreases at,
    {
        proof {
            let head = texts(before.take(at as int));
            assert(head.drop_last() =~= texts(before.take(at - 1)));
            assert(head.last() == before[at - 1]@);
            assert(placed(head, secret@) == placed(head.drop_last(), secret@).push(head.last()));
            assert(texts(before.skip(at - 1)) =~= seq![head.last()] + texts(before.skip(at as int)));
            assert(placed(texts(before), secret@) =~= placed(texts(before.take(at - 1)), secret@)
                + texts(before.skip(at - 1)));
        }
        at -= 1;
    }
    secrets.insert(at, secret);
    proof {
        let head = texts(before.take(at as int));
        if at > 0 {
            assert(head.last() == before[at - 1]@);
        }
        assert(placed(head, secret@) == head.push(secret@));
        assert(texts(secrets@) =~= head.push(secret@) + texts(before.skip(at as int)));
    }
}

impl Redactor {
    #[verifier::type_invariant]
    spec fn ready(self) -> bool {
        &&& patterns_compile()
        &&& forall|i: int|
            0 <= i < self.known_secrets@.len() ==> utf8(#[trigger] self.known_secrets@[i]@).len() > 0
    }

    /// Keeps the secrets that are long enough, the longest first, and no secret twice in a row.
    /// Fails only where a pattern does not compile.
    pub fn new(known_secrets: &Vec<String>) -> (r: Result<Redactor, PatternError>)
        ensures
            match r {
                Ok(redactor) => patterns_compile() && redactor@ == without_repeats(
                    longest_first(texts(known_secrets@)),
                ),
                Err(_) => !patterns_compile(),
            },
    {
        let mut sorted: Vec<String> = Vec::new();
        let mut i: usize = 0;
        assert(texts(sorted@) =~= longest_first(texts(known_secrets@.take(0))));
        while i < known_secrets.len()
            invariant
                i <= known_secrets.len(),
                texts(sorted@) == longest_first(texts(known_secrets@.take(i as int))),
                forall|k: int| 0 <= k < texts(sorted@).len() ==> utf8(#[trigger] texts(sorted@)[k]).len() >= LEAST_SECRET_BYTES,
            decreases known_secrets.len() - i,
        {
            proof {
                let more = texts(known_secrets@.take(i + 1));
                assert(more.drop_last() =~= texts(known_secrets@.take(i as int)));
                assert(more.last() == known_secrets@[i as int]@);
            }
            if known_secrets[i].as_str().as_bytes().len() >= LEAST_SECRET_BYTES {
                let ghost before = texts(sorted@);
                place(&mut sorted, known_secrets[i].clone());
                proof {
                    lemma_placed_items(before, known_secrets@[i as int]@);
                }
            }
            i += 1;
        }
        assert(known_secrets@.take(i as int) =~= known_secrets@);
        let mut kept: Vec<String> = Vec::new();
        let mut j: usize = 0;
        assert(texts(kept@) =~= without_repeats(texts(sorted@.take(0))));
        while j < sorted.len()
            invariant
                j <= sorted.len(),
                texts(kept@) == without_repeats(texts(sorted@.take(j as int))),
                forall|k: int| 0 <= k < texts(sorted@).len() ==> utf8(#[trigger] texts(sorted@)[k]).len() >= LEAST_SECRET_BYTES,
                forall|k: int| 0 <= k < kept@.len() ==> utf8(#[trigger] kept@[k]@).len() > 0,
            decreases sorted.len() - j,
        {
            let repeated = j > 0 && same_text(sorted[j - 1].as_str(), sorted[j].as_str());
            proof {
                let more = texts(sorted@.take(j + 1));
                assert(more.drop_last() =~= texts(sorted@.take(j as int)));
                assert(more.last() == sorted@[j as int]@);
                assert(texts(sorted@)[j as int] == sorted@[j as int]@);
                if j > 0 {
                    assert(more[more.len() - 2] == sorted@[j - 1]@);
                } else {
                    assert(more.drop_last() =~= seq![]);
                    assert(more =~= seq![].push(more.last()));
                }
            }
            if !repeated {
                let ghost before = texts(kept@);
                kept.push(sorted[j].clone());
                assert(texts(kept@) =~= before.push(sorted@[j as int]@));
            }
            j += 1;
        }
        assert(sorted@.take(j as int) =~= sorted@);
        if compiles(
            "(?s)-----BEGIN(?: [A-Z0-9]+)? PRIVATE KEY-----.*?-----END(?: [A-Z0-9]+)? PRIVATE KEY-----",
        ) && compiles("(?i)\\bbearer\\s+[a-z0-9._~+/=-]{8,}") && compiles(
            "(?i)\\b(authorization|token|secret|password|passwd|api[_-]?key)(\\s*[:=]\\s*)([^\\s,;\"']{4,})",
        ) && compiles("\\beyJ[a-zA-Z0-9_-]{4,}\\.[a-zA-Z0-9_-]{4,}\\.[a-zA-Z0-9_-]{4,}\\b")
            && compiles("\\b(?:sk-|gh[pousr]_|AIza)[a-zA-Z0-9_-]{12,}\\b") {
            Ok(Redactor { known_secrets: kept })
        } else {
            Err(PatternError)
        }
    }

    /// Replaces the known secrets, the longest first, and then private keys, bearer tokens, values
    /// of telling names, web tokens and provider keys, in this order.
    pub fn redact(&self, input: &str) -> (r: String)
        ensures
            r@ == redacted(input@, self@),
    {
        proof {
            use_type_invariant(self);
        }
        let mut output = input.to_owned();
        let mut i: usize = 0;
        assert(texts(self.known_secrets@.take(0)) =~= seq![]);
        while i < self.known_secrets.len()
            invariant
                i <= self.known_secrets.len(),
                output@ == secrets_replaced(input@, texts(self.known_secrets@.take(i as int))),
                forall|k: int|
                    0 <= k < self.known_secrets@.len() ==> utf8(#[trigger] self.known_secrets@[k]@).len() > 0,
            decreases self.known_secrets.len() - i,
        {
            proof {
                let more = texts(self.known_secrets@.take(i + 1));
                assert(more.drop_last() =~= texts(self.known_secrets@.take(i as int)));
                assert(more.last() == self.known_secrets@[i as int]@);
                if self.known_secrets@[i as int]@.len() == 0 {
                    assert(utf8(self.known_secrets@[i as int]@).len() == 0);
                }
            }
            output = replace_text(output.as_str(), self.known_secrets[i].as_str(), "[REDACTED]");
            i += 1;
        }
        assert(self.known_secrets@.take(i as int) =~= self.known_secrets@);
        let output = replace_pattern(
            "(?s)-----BEGIN(?: [A-Z0-9]+)? PRIVATE KEY-----.*?-----END(?: [A-Z0-9]+)? PRIVATE KEY-----",
            output.as_str(),
            "[REDACTED]",
        );
        let output = replace_pattern(
            "(?i)\\bbearer\\s+[a-z0-9._~+/=-]{8,}",
            output.as_str(),
            "Bearer [REDACTED]",
        );
        let output = replace_pattern(
            "(?i)\\b(authorization|token|secret|password|passwd|api[_-]?key)(\\s*[:=]\\s*)([^\\s,;\"']{4,})",
            output.as_str(),
            "$1$2[REDACTED]",
        );
        let output = replace_pattern(
            "\\beyJ[a-zA-Z0-9_-]{4,}\\.[a-zA-Z0-9_-]{4,}\\.[a-zA-Z0-9_-]{4,}\\b",
            output.as_str(),
            "[REDACTED]",
        );
        replace_pattern(
            "\\b(?:sk-|gh[pousr]_|AIza)[a-zA-Z0-9_-]{12,}\\b",
            output.as_str(),
            "[REDACTED]",
        )
    }

    /// Redacts an event of a log and cuts it down to the size of one.
    pub fn redact_log_event(&self, input: &str) -> (r: String)
        ensures
            utf8(r@) == truncated(
                utf8(redacted(input@, self@)),
                LOG_EVENT_CAP_BYTES as int,
                utf8("\n[TRUNCATED]"@),
            ),
            utf8(r@).len() <= LOG_EVENT_CAP_BYTES,
    {
        let redacted = self.redact(input);
        proof {
            reveal_strlit("\n[TRUNCATED]");
            lemma_ascii_suffix("\n[TRUNCATED]"@);
        }
        truncate_utf8(redacted.as_str(), LOG_EVENT_CAP_BYTES, "\n[TRUNCATED]")
    }
}

/// An ASCII text has as many bytes as characters, and can be cut anywhere.
pub proof fn lemma_ascii_suffix(suffix: Seq<char>)
    requires
        is_ascii_chars(suffix),
    ensures
        utf8(suffix).len() == suffix.len(),
        forall|i: int| 0 <= i <= suffix.len() ==> #[trigger] is_char_boundary(utf8(suffix), i),
{
    is_ascii_chars_encode_utf8(suffix);
    encode_utf8_valid_utf8(suffix);
    is_char_boundary_start_end_of_seq(utf8(suffix));
    assert forall|i: int| 0 <= i <= suffix.len() implies #[trigger] is_char_boundary(
        utf8(suffix),
        i,
    ) by {
        if i < suffix.len() {
            assert(suffix[i] as u8 == utf8(suffix)[i]);
            is_char_boundary_iff_not_is_continuation_byte(utf8(suffix), i);
        }
    }
}

/// A text stands somewhere in another.
pub open spec fn occurs(text: Seq<char>, pattern: Seq<char>) -> bool {
    exists|i: int|
        0 <= i <= text.len() - pattern.len() && #[trigger] text.subrange(i, i + pattern.len())
            == pattern
}

/// Two texts have no character in common.
pub open spec fn apart(a: Seq<char>, b: Seq<char>) -> bool {
    forall|i: int, j: int| 0 <= i < a.len() && 0 <= j < b.len() ==> #[trigger] a[i] != #[trigger] b[j]
}

/// A text that a replacement begins with, and that has nothing in common with what is put in, is
/// what the text before began with.
proof fn lemma_replaced_start(
    text: Seq<char>,
    pattern: Seq<char>,
    replacement: Seq<char>,
    start: Seq<char>,
)
    requires
        replacement.len() > 0,
        apart(start, replacement),
        start.len() <= replaced(text, pattern, replacement).len(),
        replaced(text, pattern, replacement).take(start.len() as int) == start,
    ensures
        start.len() <= text.len(),
        text.take(start.len() as int) == start,
    decreases text.len(),
{
    let out = replaced(text, pattern, replacement);
    if start.len() > 0 && pattern.len() > 0 && text.len() >= pattern.len() {
        assert(out[0] == out.take(start.len() as int)[0]);
        if text.take(pattern.len() as int) == pattern {
            assert(out[0] == replacement[0]);
            assert(start[0] != replacement[0]);
        } else {
            let rest = replaced(text.skip(1), pattern, replacement);
            let tail = start.skip(1);
            assert(out == seq![text[0]] + rest);
            assert(rest.take(tail.len() as int) =~= tail) by {
                assert forall|k: int| 0 <= k < tail.len() implies rest[k] == tail[k] by {
                    assert(out[k + 1] == out.take(start.len() as int)[k + 1]);
                }
            }
            assert forall|k: int, j: int|
                0 <= k < tail.len() && 0 <= j < replacement.len() implies #[trigger] tail[k]
                != #[trigger] replacement[j] by {
                assert(tail[k] == start[k + 1]);
            }
            lemma_replaced_start(text.skip(1), pattern, replacement, tail);
            assert(text.take(start.len() as int) =~= start) by {
                assert forall|k: int| 0 <= k < start.len() implies text[k] == start[k] by {
                    if k > 0 {
                        assert(text.skip(1).take(tail.len() as int)[k - 1] == tail[k - 1]);
                    }
                }
            }
        }
    }
}

/// A replacement brings in no text that has nothing in common with what is put in, and leaves no
/// such text that it was to replace.
proof fn lemma_replaced_occurs(
    text: Seq<char>,
    pattern: Seq<char>,
    replacement: Seq<char>,
    wanted: Seq<char>,
)
    requires
        replacement.len() > 0,
        wanted.len() > 0,
        apart(wanted, replacement),
        occurs(replaced(text, pattern, replacement), wanted),
    ensures
        occurs(text, wanted),
        wanted != pattern,
    decreases text.len(),
{
    let out = replaced(text, pattern, replacement);
    let length = wanted.len() as int;
    let i = choose|i: int|
        0 <= i <= out.len() - wanted.len() && #[trigger] out.subrange(i, i + wanted.len())
            == wanted;
    assert(out[i] == out.subrange(i, i + length)[0]);
    if pattern.len() == 0 || text.len() < pattern.len() {
    } else if text.take(pattern.len() as int) == pattern {
        let rest = text.skip(pattern.len() as int);
        let later = replaced(rest, pattern, replacement);
        let shift = replacement.len() as int;
        assert(out == replacement + later);
        if i < shift {
            assert(out[i] == replacement[i]);
            assert(wanted[0] != replacement[i]);
        }
        assert(later.subrange(i - shift, i - shift + length) =~= wanted) by {
            assert(later.subrange(i - shift, i - shift + length) =~= out.subrange(i, i + length));
        }
        lemma_replaced_occurs(rest, pattern, replacement, wanted);
        let k = choose|k: int|
            0 <= k <= rest.len() - wanted.len() && #[trigger] rest.subrange(k, k + wanted.len())
                == wanted;
        let at = k + pattern.len();
        assert(text.subrange(at, at + length) =~= rest.subrange(k, k + length));
    } else {
        let rest = text.skip(1);
        let later = replaced(rest, pattern, replacement);
        assert(out == seq![text[0]] + later);
        if i > 0 {
            assert(later.subrange(i - 1, i - 1 + length) =~= out.subrange(i, i + length));
            lemma_replaced_occurs(rest, pattern, replacement, wanted);
            let k = choose|k: int|
                0 <= k <= rest.len() - wanted.len() && #[trigger] rest.subrange(
                    k,
                    k + wanted.len(),
                ) == wanted;
            assert(text.subrange(k + 1, k + 1 + length) =~= rest.subrange(k, k + length));
        } else {
            assert(out.take(length) =~= out.subrange(0, length));
            lemma_replaced_start(text, pattern, replacement, wanted);
            assert(text.subrange(0, length) =~= text.take(length));
        }
    }
}

/// A known secret is nowhere left once the known secrets are replaced, unless it has a character in
/// common with the mark that takes its place.
pub proof fn law_known_secrets_are_replaced(text: Seq<char>, secrets: Seq<Seq<char>>, place: int)
    requires
        0 <= place < secrets.len(),
        secrets[place].len() > 0,
        apart(secrets[place], "[REDACTED]"@),
    ensures
        !occurs(secrets_replaced(text, secrets), secrets[place]),
    decreases secrets.len(),
{
    reveal_strlit("[REDACTED]");
    let before = secrets_replaced(text, secrets.drop_last());
    if occurs(secrets_replaced(text, secrets), secrets[place]) {
        lemma_replaced_occurs(before, secrets.last(), "[REDACTED]"@, secrets[place]);
        law_known_secrets_are_replaced(text, secrets.drop_last(), place);
    }
}

proof fn lemma_placed_contains(secrets: Seq<Seq<char>>, secret: Seq<char>, wanted: Seq<char>)
    requires
        secrets.contains(wanted) || wanted == secret,
    ensures
        placed(secrets, secret).contains(wanted),
    decreases secrets.len(),
{
    if secrets.len() == 0 || utf8(secrets.last()).len() >= utf8(secret).len() {
        lemma_contains_pushed(secrets, secret, wanted);
    } else {
        let head = secrets.drop_last();
        assert(secrets =~= head.push(secrets.last()));
        lemma_contains_pushed(head, secrets.last(), wanted);
        if head.contains(wanted) || wanted == secret {
            lemma_placed_contains(head, secret, wanted);
        }
        lemma_contains_pushed(placed(head, secret), secrets.last(), wanted);
    }
}

proof fn lemma_without_repeats_contains(items: Seq<Seq<char>>, wanted: Seq<char>)
    requires
        items.contains(wanted),
    ensures
        without_repeats(items).contains(wanted),
    decreases items.len(),
{
    if items.len() > 1 {
        let head = items.drop_last();
        assert(items =~= head.push(items.last()));
        lemma_contains_pushed(head, items.last(), wanted);
        if items.last() == items[items.len() - 2] {
            assert(head[head.len() - 1] == items.last());
            lemma_without_repeats_contains(head, wanted);
        } else {
            if head.contains(wanted) {
                lemma_without_repeats_contains(head, wanted);
            }
            lemma_contains_pushed(without_repeats(head), items.last(), wanted);
        }
    }
}

proof fn lemma_longest_first_contains(secrets: Seq<Seq<char>>, wanted: Seq<char>)
    requires
        secrets.contains(wanted),
        utf8(wanted).len() >= LEAST_SECRET_BYTES,
    ensures
        longest_first(secrets).contains(wanted),
    decreases secrets.len(),
{
    let head = secrets.drop_last();
    assert(secrets =~= head.push(secrets.last()));
    lemma_contains_pushed(head, secrets.last(), wanted);
    if head.contains(wanted) {
        lemma_longest_first_contains(head, wanted);
    }
    if utf8(secrets.last()).len() >= LEAST_SECRET_BYTES {
        lemma_placed_contains(longest_first(head), secrets.last(), wanted);
    }
}

/// A redactor knows every secret that it was given, but for those that are too short.
pub proof fn law_long_secrets_are_known(secrets: Seq<Seq<char>>, wanted: Seq<char>)
    requires
        secrets.contains(wanted),
        utf8(wanted).len() >= LEAST_SECRET_BYTES,
    ensures
        without_repeats(longest_first(secrets)).contains(wanted),
{
    lemma_longest_first_contains(secrets, wanted);
    lemma_without_repeats_contains(longest_first(secrets), wanted);
}

proof fn lemma_placed_items(secrets: Seq<Seq<char>>, secret: Seq<char>)
    requires
        forall|k: int| 0 <= k < secrets.len() ==> utf8(#[trigger] secrets[k]).len() >= LEAST_SECRET_BYTES,
        utf8(secret).len() >= LEAST_SECRET_BYTES,
    ensures
        forall|k: int|
            0 <= k < placed(secrets, secret).len() ==> utf8(#[trigger] placed(secrets, secret)[k]).len()
                >= LEAST_SECRET_BYTES,
    decreases secrets.len(),
{
    if secrets.len() != 0 && utf8(secrets.last()).len() < utf8(secret).len() {
        lemma_placed_items(secrets.drop_last(), secret);
        let rest = placed(secrets.drop_last(), secret);
        assert(secrets.last() == secrets[secrets.len() - 1]);
        assert forall|k: int| 0 <= k < rest.push(secrets.last()).len() implies utf8(
            #[trigger] rest.push(secrets.last())[k],
        ).len() >= LEAST_SECRET_BYTES by {
            if k < rest.len() {
                assert(rest.push(secrets.last())[k] == rest[k]);
            }
        }
    }
}

/// A text with web tokens and provider keys replaced, once the values of telling names are.
pub open spec fn names_and_later(text: Seq<char>) -> Seq<char> {
    let names = regex_replaced(
        "(?i)\\b(authorization|token|secret|password|passwd|api[_-]?key)(\\s*[:=]\\s*)([^\\s,;\"']{4,})"@,
        text,
        "$1$2[REDACTED]"@,
    );
    let tokens = regex_replaced(
        "\\beyJ[a-zA-Z0-9_-]{4,}\\.[a-zA-Z0-9_-]{4,}\\.[a-zA-Z0-9_-]{4,}\\b"@,
        names,
        "[REDACTED]"@,
    );
    regex_replaced("\\b(?:sk-|gh[pousr]_|AIza)[a-zA-Z0-9_-]{12,}\\b"@, tokens, "[REDACTED]"@)
}

/// Every bearer token is gone before the value of a telling name is looked at, so a header name
/// before it cannot take the word `Bearer` for the value and leave the token: whatever the
/// replacement of bearer tokens brings about holds of the text in which telling names are sought.
pub proof fn law_bearer_tokens_go_before_named_values(
    redactor: Redactor,
    input: &str,
    output: String,
    holds_no_bearer: spec_fn(Seq<char>) -> bool,
)
    requires
        call_ensures(Redactor::redact, (&redactor, input), output),
        forall|text: Seq<char>|
            holds_no_bearer(
                #[trigger] regex_replaced(
                    "(?i)\\bbearer\\s+[a-z0-9._~+/=-]{8,}"@,
                    text,
                    "Bearer [REDACTED]"@,
                ),
            ),
    ensures
        exists|text: Seq<char>|
            holds_no_bearer(text) && output@ == #[trigger] names_and_later(text),
{
    let known = secrets_replaced(input@, redactor@);
    let keys = regex_replaced(private_key_pattern(), known, "[REDACTED]"@);
    let bearers = regex_replaced(
        "(?i)\\bbearer\\s+[a-z0-9._~+/=-]{8,}"@,
        keys,
        "Bearer [REDACTED]"@,
    );
    assert(output@ == names_and_later(bearers));
}

/// Known secrets are replaced before anything else, and private keys next: in the text in which
/// bearer tokens are sought there is neither a private key nor, but for what the replacement of keys
/// brings in, a known secret.
pub proof fn law_known_secrets_and_keys_go_first(
    redactor: Redactor,
    input: &str,
    output: String,
    holds_no_key: spec_fn(Seq<char>) -> bool,
)
    requires
        call_ensures(Redactor::redact, (&redactor, input), output),
        forall|text: Seq<char>|
            holds_no_key(
                #[trigger] regex_replaced(
                    "(?s)-----BEGIN(?: [A-Z0-9]+)? PRIVATE KEY-----.*?-----END(?: [A-Z0-9]+)? PRIVATE KEY-----"@,
                    text,
                    "[REDACTED]"@,
                ),
            ),
    ensures
        exists|known: Seq<char>, keyless: Seq<char>|
            {
                &&& holds_no_key(keyless)
                &&& keyless == #[trigger] regex_replaced(
                    "(?s)-----BEGIN(?: [A-Z0-9]+)? PRIVATE KEY-----.*?-----END(?: [A-Z0-9]+)? PRIVATE KEY-----"@,
                    known,
                    "[REDACTED]"@,
                )
                &&& output@ == names_and_later(
                    #[trigger] regex_replaced(
                        "(?i)\\bbearer\\s+[a-z0-9._~+/=-]{8,}"@,
                        keyless,
                        "Bearer [REDACTED]"@,
                    ),
                )
                &&& forall|i: int|
                    0 <= i < redactor@.len() && (#[trigger] redactor@[i]).len() > 0 && apart(
                        redactor@[i],
                        "[REDACTED]"@,
                    ) ==> !occurs(known, redactor@[i])
            },
{
    let known = secrets_replaced(input@, redactor@);
    let keyless = regex_replaced(
        "(?s)-----BEGIN(?: [A-Z0-9]+)? PRIVATE KEY-----.*?-----END(?: [A-Z0-9]+)? PRIVATE KEY-----"@,
        known,
        "[REDACTED]"@,
    );
    let bearers = regex_replaced(
        "(?i)\\bbearer\\s+[a-z0-9._~+/=-]{8,}"@,
        keyless,
        "Bearer [REDACTED]"@,
    );
    assert(output@ == names_and_later(bearers));
    assert forall|i: int|
        0 <= i < redactor@.len() && (#[trigger] redactor@[i]).len() > 0 && apart(
            redactor@[i],
            "[REDACTED]"@,
        ) implies !occurs(known, redactor@[i]) by {
        law_known_secrets_are_replaced(input@, redactor@, i);
    }
}

/// What is left of a text holds nothing that the last replacement, that of provider keys, would
/// take out.
pub proof fn law_provider_keys_go_last(
    redactor: Redactor,
    input: &str,
    output: String,
    holds_no_provider_key: spec_fn(Seq<char>) -> bool,
)
    requires
        call_ensures(Redactor::redact, (&redactor, input), output),
        forall|text: Seq<char>|
            holds_no_provider_key(
                #[trigger] regex_replaced(
                    "\\b(?:sk-|gh[pousr]_|AIza)[a-zA-Z0-9_-]{12,}\\b"@,
                    text,
                    "[REDACTED]"@,
                ),
            ),
    ensures
        holds_no_provider_key(output@),
{
}

/// A text in which there is nothing to find is left as it is.
pub proof fn law_harmless_text_is_left_alone(redactor: Redactor, input: &str, output: String)
    requires
        call_ensures(Redactor::redact, (&redactor, input), output),
        forall|i: int| 0 <= i < redactor@.len() ==> !occurs(input@, #[trigger] redactor@[i]),
        forall|pattern: Seq<char>, replacement: Seq<char>|
            #[trigger] regex_replaced(pattern, input@, replacement) == input@,
    ensures
        output@ == input@,
{
    lemma_absent_secrets(input@, redactor@);
}

proof fn lemma_absent_secrets(text: Seq<char>, secrets: Seq<Seq<char>>)
    requires
        forall|i: int| 0 <= i < secrets.len() ==> !occurs(text, #[trigger] secrets[i]),
    ensures
        secrets_replaced(text, secrets) == text,
    decreases secrets.len(),
{
    if secrets.len() > 0 {
        let head = secrets.drop_last();
        assert forall|i: int| 0 <= i < head.len() implies !occurs(text, #[trigger] head[i]) by {
            assert(head[i] == secrets[i]);
        }
        lemma_absent_secrets(text, head);
        assert(secrets.last() == secrets[secrets.len() - 1]);
        lemma_absent(text, secrets.last(), "[REDACTED]"@);
    }
}

proof fn lemma_absent(text: Seq<char>, pattern: Seq<char>, replacement: Seq<char>)
    requires
        !occurs(text, pattern),
    ensures
        replaced(text, pattern, replacement) == text,
    decreases text.len(),
{
    if pattern.len() != 0 && text.len() >= pattern.len() {
        let length = pattern.len() as int;
        assert(text.take(length) =~= text.subrange(0, length));
        let start: int = 0;
        assert(text.subrange(start, start + pattern.len()) != pattern);
        let rest = text.skip(1);
        if occurs(rest, pattern) {
            let i = choose|i: int|
                0 <= i <= rest.len() - pattern.len() && #[trigger] rest.subrange(
                    i,
                    i + pattern.len(),
                ) == pattern;
            assert(text.subrange(i + 1, i + 1 + pattern.len()) =~= rest.subrange(
                i,
                i + pattern.len(),
            ));
        }
        lemma_absent(rest, pattern, replacement);
        assert(seq![text[0]] + rest =~= text);
    }
}

/// A redactor knows exactly the secrets of at least four bytes that it was given, and seeks the
/// longer before the shorter, so that a secret within another does not keep the rest of it.
pub proof fn law_longer_secrets_go_first(given: Vec<String>, redactor: Redactor)
    requires
        call_ensures(Redactor::new, (&given,), Ok::<_, PatternError>(redactor)),
    ensures
        forall|i: int, j: int|
            0 <= i < j < redactor@.len() ==> utf8(#[trigger] redactor@[i]).len() >= utf8(
                #[trigger] redactor@[j],
            ).len(),
        forall|i: int|
            0 <= i < redactor@.len() ==> utf8(#[trigger] redactor@[i]).len() >= 4 && texts(
                given@,
            ).contains(redactor@[i]),
        forall|wanted: Seq<char>|
            texts(given@).contains(wanted) && utf8(wanted).len() >= 4
                ==> #[trigger] redactor@.contains(wanted),
{
    lemma_longest_first_sorted(texts(given@));
    lemma_without_repeats_sorted(longest_first(texts(given@)));
    assert forall|wanted: Seq<char>|
        texts(given@).contains(wanted) && utf8(wanted).len() >= 4
            implies #[trigger] redactor@.contains(wanted) by {
        law_long_secrets_are_known(texts(given@), wanted);
    }
}

/// Texts from the longest to the shortest.
spec fn descending(items: Seq<Seq<char>>) -> bool {
    forall|i: int, j: int|
        0 <= i < j < items.len() ==> utf8(#[trigger] items[i]).len() >= utf8(#[trigger] items[j]).len()
}

proof fn lemma_placed_sorted(secrets: Seq<Seq<char>>, secret: Seq<char>)
    requires
        descending(secrets),
    ensures
        descending(placed(secrets, secret)),
        placed(secrets, secret).len() == secrets.len() + 1,
        forall|k: int|
            0 <= k < placed(secrets, secret).len() ==> secrets.contains(
                #[trigger] placed(secrets, secret)[k],
            ) || placed(secrets, secret)[k] == secret,
    decreases secrets.len(),
{
    let out = placed(secrets, secret);
    if secrets.len() == 0 || utf8(secrets.last()).len() >= utf8(secret).len() {
        assert forall|k: int| 0 <= k < out.len() implies secrets.contains(#[trigger] out[k])
            || out[k] == secret by {
            if k < secrets.len() {
                assert(out[k] == secrets[k]);
            }
        }
        assert forall|i: int, j: int| 0 <= i < j < out.len() implies utf8(#[trigger] out[i]).len()
            >= utf8(#[trigger] out[j]).len() by {
            assert(out[i] == secrets[i]);
            assert(secrets.last() == secrets[secrets.len() - 1]);
        }
    } else {
        let head = secrets.drop_last();
        assert(forall|k: int| 0 <= k < head.len() ==> head[k] == secrets[k]);
        lemma_placed_sorted(head, secret);
        let rest = placed(head, secret);
        assert(secrets.last() == secrets[secrets.len() - 1]);
        assert forall|k: int| 0 <= k < out.len() implies secrets.contains(#[trigger] out[k])
            || out[k] == secret by {
            if k < rest.len() {
                assert(out[k] == rest[k]);
                if head.contains(rest[k]) {
                    let m = choose|m: int| 0 <= m < head.len() && head[m] == rest[k];
                    assert(secrets[m] == rest[k]);
                }
            }
        }
        assert forall|i: int, j: int| 0 <= i < j < out.len() implies utf8(#[trigger] out[i]).len()
            >= utf8(#[trigger] out[j]).len() by {
            assert(out[i] == rest[i]);
            if j < rest.len() {
                assert(out[j] == rest[j]);
            } else if head.contains(rest[i]) {
                let m = choose|m: int| 0 <= m < head.len() && head[m] == rest[i];
                assert(secrets[m] == rest[i]);
            }
        }
    }
}

proof fn lemma_longest_first_sorted(secrets: Seq<Seq<char>>)
    ensures
        descending(longest_first(secrets)),
        forall|k: int|
            0 <= k < longest_first(secrets).len() ==> utf8(#[trigger] longest_first(secrets)[k]).len()
                >= 4 && secrets.contains(longest_first(secrets)[k]),
    decreases secrets.len(),
{
    if secrets.len() > 0 {
        let head = secrets.drop_last();
        lemma_longest_first_sorted(head);
        let before = longest_first(head);
        let out = longest_first(secrets);
        if utf8(secrets.last()).len() >= LEAST_SECRET_BYTES {
            lemma_placed_sorted(before, secrets.last());
        }
        assert forall|k: int| 0 <= k < out.len() implies utf8(#[trigger] out[k]).len() >= 4
            && secrets.contains(out[k]) by {
            if before.contains(out[k]) {
                let m = choose|m: int| 0 <= m < before.len() && before[m] == out[k];
                assert(head.contains(before[m]));
                let n = choose|n: int| 0 <= n < head.len() && head[n] == before[m];
                assert(secrets[n] == out[k]);
            } else {
                assert(secrets[secrets.len() - 1] == secrets.last());
                assert(utf8(secrets.last()).len() >= LEAST_SECRET_BYTES) by {
                    if utf8(secrets.last()).len() < LEAST_SECRET_BYTES {
                        assert(out == before);
                        assert(before[k] == out[k]);
                    }
                }
            }
        }
    }
}

proof fn lemma_without_repeats_sorted(items: Seq<Seq<char>>)
    requires
        descending(items),
    ensures
        descending(without_repeats(items)),
        forall|k: int|
            0 <= k < without_repeats(items).len() ==> items.contains(#[trigger] without_repeats(items)[k]),
    decreases items.len(),
{
    let out = without_repeats(items);
    if items.len() <= 1 {
        assert forall|k: int| 0 <= k < out.len() implies items.contains(#[trigger] out[k]) by {
            assert(items[k] == out[k]);
        }
    } else {
        let head = items.drop_last();
        assert(forall|k: int| 0 <= k < head.len() ==> head[k] == items[k]);
        lemma_without_repeats_sorted(head);
        let rest = without_repeats(head);
        assert forall|k: int| 0 <= k < out.len() implies items.contains(#[trigger] out[k]) by {
            if k < rest.len() {
                assert(out[k] == rest[k]);
                let m = choose|m: int| 0 <= m < head.len() && head[m] == rest[k];
                assert(items[m] == out[k]);
            } else {
                assert(items[items.len() - 1] == out[k]);
            }
        }
        assert forall|i: int, j: int| 0 <= i < j < out.len() implies utf8(#[trigger] out[i]).len()
            >= utf8(#[trigger] out[j]).len() by {
            assert(out[i] == rest[i]);
            if j < rest.len() {
                assert(out[j] == rest[j]);
            } else {
                assert(head.contains(rest[i]));
                let m = choose|m: int| 0 <= m < head.len() && head[m] == rest[i];
                assert(items[m] == out[i]);
                assert(items[items.len() - 1] == out[j]);
            }
        }
    }
}

proof fn lemma_boundary_is_last(bytes: Seq<u8>, index: int)
    requires
        index >= 0,
    ensures
        0 <= boundary_up_to(bytes, index) <= index,
        boundary_up_to(bytes, index) == 0 || is_char_boundary(bytes, boundary_up_to(bytes, index)),
        forall|k: int| boundary_up_to(bytes, index) < k <= index ==> !#[trigger] is_char_boundary(bytes, k),
    decreases index,
{
    if index > 0 && !is_char_boundary(bytes, index) {
        lemma_boundary_is_last(bytes, index - 1);
    }
}

/// A text that fits is kept. One that does not keeps, before the suffix, as many of its characters
/// as fit, and no part of one; together they are within the limit.
pub proof fn law_cut_texts_keep_all_that_fits(
    input: &str,
    max_bytes: usize,
    suffix: &str,
    output: String,
)
    requires
        call_ensures(truncate_utf8, (input, max_bytes, suffix), output),
        utf8(suffix@).len() <= max_bytes,
    ensures
        utf8(output@).len() <= max_bytes,
        utf8(input@).len() <= max_bytes ==> output@ == input@,
        utf8(input@).len() > max_bytes ==> exists|kept: int|
            {
                &&& 0 <= kept <= max_bytes - utf8(suffix@).len()
                &&& kept == 0 || #[trigger] is_char_boundary(utf8(input@), kept)
                &&& utf8(output@) == utf8(input@).take(kept) + utf8(suffix@)
                &&& forall|more: int|
                    kept < more <= max_bytes - utf8(suffix@).len() ==> !#[trigger] is_char_boundary(
                        utf8(input@),
                        more,
                    )
            },
{
    if utf8(input@).len() > max_bytes {
        let room = max_bytes - utf8(suffix@).len();
        lemma_boundary_is_last(utf8(input@), room);
        let kept = boundary_up_to(utf8(input@), room);
        assert(utf8(suffix@).take(utf8(suffix@).len() as int) =~= utf8(suffix@));
        assert(utf8(output@) == utf8(input@).take(kept) + utf8(suffix@));
        assert(kept == 0 || is_char_boundary(utf8(input@), kept));
    }
}

/// An event of a log is redacted first and cut down then, to 256 kibibytes, so that no secret is
/// cut in two and left.
pub proof fn law_log_events_are_redacted_before_they_are_cut(
    redactor: Redactor,
    input: &str,
    whole: String,
    whole_text: &str,
    cut_whole: String,
    event: String,
)
    requires
        call_ensures(Redactor::redact, (&redactor, input), whole),
        whole_text@ == whole@,
        call_ensures(truncate_utf8, (whole_text, 262_144usize, "\n[TRUNCATED]"), cut_whole),
        call_ensures(Redactor::redact_log_event, (&redactor, input), event),
    ensures
        utf8(event@).len() <= 262_144,
        utf8(event@) == utf8(cut_whole@),
        utf8(whole@).len() <= 262_144 ==> utf8(event@) == utf8(whole@),
{
}

} // verus!
