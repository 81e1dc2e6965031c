//! Reading what the kernel measured of a step.

use vstd::prelude::*;
use crate::domain::execution::{ExecutionIoUsageV1, ExecutionMemoryEventsV1};
use crate::domain::workflow::{trim, trimmed};
use crate::text::{
    characters, decimal, digit_char, lines, same_text, split_lines, text_of, texts,
};

verus! {

/// White space within ASCII, but for the vertical tab.
pub open spec fn ascii_space(c: char) -> bool {
    c == ' ' || c == '\t' || c == '\n' || c == '\u{c}' || c == '\r'
}

fn is_ascii_space(c: char) -> (r: bool)
    ensures
        r == ascii_space(c),
{
    c == ' ' || c == '\t' || c == '\n' || c == '\u{c}' || c == '\r'
}

/// Where the next word begins, from some place on.
pub open spec fn word_start(text: Seq<char>, from: int) -> int
    decreases text.len() - from,
{
    if from >= text.len() {
        text.len() as int
    } else if !ascii_space(text[from]) {
        from
    } else {
        word_start(text, from + 1)
    }
}

/// Where the word at some place ends.
pub open spec fn word_end(text: Seq<char>, from: int) -> int
    decreases text.len() - from,
{
    if from >= text.len() {
        text.len() as int
    } else if ascii_space(text[from]) {
        from
    } else {
        word_end(text, from + 1)
    }
}

/// The words of a text from some place on.
pub open spec fn words_from(text: Seq<char>, from: int) -> Seq<Seq<char>>
    decreases text.len() - from,
{
    let start = word_start(text, from);
    let end = word_end(text, start);
    if from < 0 || from >= text.len() || start < from || start >= text.len() || end <= start || end
        > text.len() {
        seq![]
    } else {
        seq![text.subrange(start, end)] + words_from(text, end)
    }
}

/// The words of a text, with white space between them.
pub open spec fn words(text: Seq<char>) -> Seq<Seq<char>> {
    words_from(text, 0)
}

proof fn lemma_word_start(text: Seq<char>, from: int)
    requires
        0 <= from <= text.len(),
    ensures
        from <= word_start(text, from) <= text.len(),
        word_start(text, from) < text.len() ==> !ascii_space(text[word_start(text, from)]),
    decreases text.len() - from,
{
    if from < text.len() && ascii_space(text[from]) {
        lemma_word_start(text, from + 1);
    }
}

proof fn lemma_word_end(text: Seq<char>, from: int)
    requires
        0 <= from <= text.len(),
    ensures
        from <= word_end(text, from) <= text.len(),
        from < text.len() && !ascii_space(text[from]) ==> from < word_end(text, from),
    decreases text.len() - from,
{
    if from < text.len() && !ascii_space(text[from]) {
        lemma_word_end(text, from + 1);
    }
}

fn split_words(text: &str) -> (r: Vec<String>)
    ensures
        texts(r@) == words(text@),
{
    let all = characters(text);
    let mut found: Vec<String> = Vec::new();
    let mut from: usize = 0;
    assert(texts(found@) + words_from(text@, 0) =~= words(text@));
    while from < all.len()
        invariant
            from <= all.len(),
            all@ == text@,
            texts(found@) + words_from(text@, from as int) == words(text@),
        decreases all.len() - from,
    {
        let mut start: usize = from;
        while start < all.len() && is_ascii_space(all[start])
            invariant
                from <= start <= all.len(),
                all@ == text@,
                word_start(text@, from as int) == word_start(text@, start as int),
            decreases all.len() - start,
        {
            start += 1;
        }
        let mut end: usize = start;
        while end < all.len() && !is_ascii_space(all[end])
            invariant
                start <= end <= all.len(),
                all@ == text@,
                word_end(text@, start as int) == word_end(text@, end as int),
            decreases all.len() - end,
        {
            end += 1;
        }
        let ghost before = found@;
        let ghost place = from as int;
        proof {
            lemma_word_start(text@, from as int);
            lemma_word_end(text@, start as int);
        }
        if start >= all.len() {
            from = all.len();
            proof {
                assert(words_from(text@, place) =~= seq![]);
                assert(words_from(text@, from as int) =~= seq![]);
            }
        } else {
            let word = text_of(&all, start, end);
            found.push(word);
            from = end;
            proof {
                assert(texts(found@) =~= texts(before).push(word@));
                assert(texts(found@) + words_from(text@, from as int) =~= texts(before) + (
                seq![word@] + words_from(text@, from as int)));
            }
        }
    }
    assert(words_from(text@, from as int) =~= seq![]);
    assert(texts(found@) + words_from(text@, from as int) =~= texts(found@));
    found
}

/// Every character is a decimal digit.
pub open spec fn all_digits(text: Seq<char>) -> bool {
    forall|i: int| 0 <= i < text.len() ==> '0' <= #[trigger] text[i] <= '9'
}

/// The number that decimal digits stand for.
pub open spec fn digits_value(digits: Seq<char>) -> nat
    decreases digits.len(),
{
    if digits.len() == 0 {
        0
    } else {
        10 * digits_value(digits.drop_last()) + (digits.last() as int - '0' as int) as nat
    }
}

/// The digits of a number, which a plus sign may stand before.
pub open spec fn unsigned_digits(text: Seq<char>) -> Seq<char> {
    if text.len() > 0 && text[0] == '+' {
        text.drop_first()
    } else {
        text
    }
}

/// The number of 64 bits that a text stands for.
pub open spec fn unsigned_of(text: Seq<char>) -> Option<u64> {
    let digits = unsigned_digits(text);
    if digits.len() == 0 || !all_digits(digits) || digits_value(digits) > u64::MAX {
        None
    } else {
        Some(digits_value(digits) as u64)
    }
}

/// A number grows with its digits.
proof fn lemma_digits_grow(digits: Seq<char>, count: int)
    requires
        all_digits(digits),
        0 <= count <= digits.len(),
    ensures
        digits_value(digits.take(count)) <= digits_value(digits),
    decreases digits.len(),
{
    if count == digits.len() {
        assert(digits.take(count) =~= digits);
    } else {
        assert(digits.take(count) =~= digits.drop_last().take(count));
        lemma_digits_grow(digits.drop_last(), count);
    }
}

/// Reads a number of 64 bits.
pub fn read_unsigned(text: &str) -> (r: Option<u64>)
    ensures
        r == unsigned_of(text@),
{
    let all = characters(text);
    let from: usize = if all.len() > 0 && all[0] == '+' {
        1
    } else {
        0
    };
    let ghost digits = unsigned_digits(text@);
    assert(digits =~= all@.skip(from as int));
    if from >= all.len() {
        return None;
    }
    let mut value: u64 = 0;
    let mut i: usize = from;
    assert(digits.take(0) =~= Seq::empty());
    while i < all.len()
        invariant
            from <= i <= all.len(),
            from <= 1,
            digits == all@.skip(from as int),
            digits == unsigned_digits(text@),
            digits.len() > 0,
            value == digits_value(digits.take(i - from)),
            forall|k: int| 0 <= k < i - from ==> '0' <= #[trigger] digits[k] <= '9',
        decreases all.len() - i,
    {
        let c = all[i];
        proof {
            assert(digits[i - from] == c);
        }
        if c < '0' || c > '9' {
            return None;
        }
        let digit: u64 = c as u64 - 48;
        let ghost more = digits.take(i - from + 1);
        proof {
            assert(more.drop_last() =~= digits.take(i - from));
            assert(more.last() == c);
            assert(digits_value(more) == 10 * value + digit);
            if all_digits(digits) {
                lemma_digits_grow(digits, i - from + 1);
            }
        }
        let grown = match value.checked_mul(10) {
            None => return None,
            Some(grown) => grown,
        };
        value = match grown.checked_add(digit) {
            None => return None,
            Some(value) => value,
        };
        i += 1;
    }
    assert(digits.take(i - from) =~= digits);
    Some(value)
}

/// The number that a line tells under a key.
pub open spec fn line_value(line: Seq<char>, key: Seq<char>) -> Option<u64> {
    let found = words(line);
    if found.len() >= 2 && found[0] == key {
        unsigned_of(found[1])
    } else {
        None
    }
}

/// The first number that some lines tell under a key.
pub open spec fn keyed_value(found: Seq<Seq<char>>, key: Seq<char>) -> Option<u64>
    decreases found.len(),
{
    if found.len() == 0 {
        None
    } else if line_value(found[0], key) is Some {
        line_value(found[0], key)
    } else {
        keyed_value(found.drop_first(), key)
    }
}

/// The number under a key, in a text of lines that begin with a key and a number.
pub fn parse_keyed_u64(input: &str, key: &str) -> (r: Option<u64>)
    ensures
        r == keyed_value(lines(input@), key@),
{
    let found = split_lines(input);
    let mut i: usize = 0;
    assert(lines(input@).skip(0) =~= lines(input@));
    while i < found.len()
        invariant
            i <= found.len(),
            texts(found@) == lines(input@),
            keyed_value(lines(input@), key@) == keyed_value(lines(input@).skip(i as int), key@),
        decreases found.len() - i,
    {
        let ghost line = lines(input@)[i as int];
        proof {
            assert(texts(found@)[i as int] == found@[i as int]@);
            assert(lines(input@).skip(i as int)[0] == line);
            assert(lines(input@).skip(i as int).drop_first() =~= lines(input@).skip(i + 1));
        }
        let fields = split_words(found[i].as_str());
        proof {
            assert(texts(fields@) == words(line));
            if fields@.len() >= 2 {
                assert(texts(fields@)[0] == fields@[0]@);
                assert(texts(fields@)[1] == fields@[1]@);
            }
        }
        if fields.len() >= 2 && same_text(fields[0].as_str(), key) {
            match read_unsigned(fields[1].as_str()) {
                Some(value) => return Some(value),
                None => {},
            }
        }
        i += 1;
    }
    None
}

/// The number that a text of nothing else stands for, with white space around it.
pub open spec fn single_value(text: Seq<char>) -> Option<u64> {
    if all_digits(trimmed(text)) {
        unsigned_of(trimmed(text))
    } else {
        None
    }
}

pub fn parse_single_u64(input: &str) -> (r: Option<u64>)
    ensures
        r == single_value(input@),
{
    let value = trim(input);
    let all = characters(value.as_str());
    let mut i: usize = 0;
    while i < all.len()
        invariant
            i <= all.len(),
            all@ == value@,
            value@ == trimmed(input@),
            forall|k: int| 0 <= k < i ==> '0' <= #[trigger] value@[k] <= '9',
        decreases all.len() - i,
    {
        if all[i] < '0' || all[i] > '9' {
            assert(!all_digits(value@)) by {
                assert(value@[i as int] == all@[i as int]);
            }
            return None;
        }
        i += 1;
    }
    assert(all_digits(value@));
    read_unsigned(value.as_str())
}

/// The number under a key, in a list of keys and numbers.
pub open spec fn value_of(pairs: Seq<(Seq<char>, u64)>, key: Seq<char>) -> Option<u64>
    decreases pairs.len(),
{
    if pairs.len() == 0 {
        None
    } else if pairs[0].0 == key {
        Some(pairs[0].1)
    } else {
        value_of(pairs.drop_first(), key)
    }
}

/// A list with one more number, unless its key is there already.
pub open spec fn with_pair(
    pairs: Option<Seq<(Seq<char>, u64)>>,
    key: Seq<char>,
    value: Option<u64>,
) -> Option<Seq<(Seq<char>, u64)>> {
    match (pairs, value) {
        (Some(pairs), Some(value)) => if value_of(pairs, key) is Some {
            None
        } else {
            Some(pairs.push((key, value)))
        },
        _ => None,
    }
}

/// The keys and numbers of some lines, each of which is one key and one number, no key twice.
pub open spec fn key_values(found: Seq<Seq<char>>) -> Option<Seq<(Seq<char>, u64)>>
    decreases found.len(),
{
    if found.len() == 0 {
        Some(Seq::empty())
    } else {
        let fields = words(found.last());
        if fields.len() != 2 {
            None
        } else {
            with_pair(key_values(found.drop_last()), fields[0], unsigned_of(fields[1]))
        }
    }
}

/// The view of a list of keys and numbers.
pub open spec fn pair_views(pairs: Seq<(String, u64)>) -> Seq<(Seq<char>, u64)> {
    pairs.map_values(|pair: (String, u64)| (pair.0@, pair.1))
}

fn find_value(pairs: &Vec<(String, u64)>, key: &str) -> (r: Option<u64>)
    ensures
        r == value_of(pair_views(pairs@), key@),
{
    let mut i: usize = 0;
    let ghost views = pair_views(pairs@);
    assert(views.skip(0) =~= views);
    while i < pairs.len()
        invariant
            i <= pairs.len(),
            views == pair_views(pairs@),
            value_of(views, key@) == value_of(views.skip(i as int), key@),
        decreases pairs.len() - i,
    {
        proof {
            assert(views.skip(i as int)[0] == (pairs@[i as int].0@, pairs@[i as int].1));
            assert(views.skip(i as int).drop_first() =~= views.skip(i + 1));
        }
        if same_text(pairs[i].0.as_str(), key) {
            return Some(pairs[i].1);
        }
        i += 1;
    }
    None
}

/// What a prefix of some lines lacks, all of them lack.
proof fn lemma_key_values_prefix(found: Seq<Seq<char>>, count: int)
    requires
        0 <= count <= found.len(),
        key_values(found.take(count)) is None,
    ensures
        key_values(found) is None,
    decreases found.len() - count,
{
    if count == found.len() {
        assert(found.take(count) =~= found);
    } else {
        assert(found.take(count + 1).drop_last() =~= found.take(count));
        lemma_key_values_prefix(found, count + 1);
    }
}

fn parse_key_value_lines(input: &str) -> (r: Option<Vec<(String, u64)>>)
    ensures
        match r {
            Some(pairs) => key_values(lines(input@)) == Some(pair_views(pairs@)),
            None => key_values(lines(input@)) is None,
        },
{
    let found = split_lines(input);
    let mut pairs: Vec<(String, u64)> = Vec::new();
    let mut i: usize = 0;
    let ghost all = lines(input@);
    assert(all.take(0) =~= Seq::empty());
    assert(pair_views(pairs@) =~= Seq::empty());
    while i < found.len()
        invariant
            i <= found.len(),
            texts(found@) == all,
            all == lines(input@),
            key_values(all.take(i as int)) == Some(pair_views(pairs@)),
        decreases found.len() - i,
    {
        let ghost so_far = all.take(i + 1);
        proof {
            assert(texts(found@)[i as int] == found@[i as int]@);
            assert(so_far.drop_last() =~= all.take(i as int));
            assert(so_far.last() == found@[i as int]@);
            if key_values(so_far) is None {
                lemma_key_values_prefix(all, i + 1);
            }
        }
        let mut fields = split_words(found[i].as_str());
        proof {
            assert(texts(fields@) == words(so_far.last()));
        }
        if fields.len() != 2 {
            return None;
        }
        proof {
            assert(texts(fields@)[0] == fields@[0]@);
            assert(texts(fields@)[1] == fields@[1]@);
        }
        let value = match read_unsigned(fields[1].as_str()) {
            None => return None,
            Some(value) => value,
        };
        if find_value(&pairs, fields[0].as_str()).is_some() {
            return None;
        }
        let ghost before = pairs@;
        let key = fields.remove(0);
        pairs.push((key, value));
        assert(pair_views(pairs@) =~= pair_views(before).push((key@, value)));
        i += 1;
    }
    assert(all.take(i as int) =~= all);
    Some(pairs)
}

/// The memory events among keys and numbers. Kernels may leave out the kills of groups.
pub open spec fn memory_events_of(text: Seq<char>) -> Option<ExecutionMemoryEventsV1> {
    match key_values(lines(text)) {
        None => None,
        Some(pairs) => match (
            value_of(pairs, "low"@),
            value_of(pairs, "high"@),
            value_of(pairs, "max"@),
            value_of(pairs, "oom"@),
            value_of(pairs, "oom_kill"@),
        ) {
            (Some(low), Some(high), Some(max), Some(oom), Some(oom_kill)) => Some(
                ExecutionMemoryEventsV1 {
                    low,
                    high,
                    max,
                    oom,
                    oom_kill,
                    oom_group_kill: match value_of(pairs, "oom_group_kill"@) {
                        Some(count) => count,
                        None => 0,
                    },
                },
            ),
            _ => None,
        },
    }
}

pub fn parse_memory_events(input: &str) -> (r: Option<ExecutionMemoryEventsV1>)
    ensures
        r == memory_events_of(input@),
{
    let pairs = match parse_key_value_lines(input) {
        None => return None,
        Some(pairs) => pairs,
    };
    match (
        find_value(&pairs, "low"),
        find_value(&pairs, "high"),
        find_value(&pairs, "max"),
        find_value(&pairs, "oom"),
        find_value(&pairs, "oom_kill"),
    ) {
        (Some(low), Some(high), Some(max), Some(oom), Some(oom_kill)) => Some(
            ExecutionMemoryEventsV1 {
                low,
                high,
                max,
                oom,
                oom_kill,
                oom_group_kill: match find_value(&pairs, "oom_group_kill") {
                    Some(count) => count,
                    None => 0,
                },
            },
        ),
        _ => None,
    }
}

/// Where a character stands first in a text, or the end.
pub open spec fn place_in(text: Seq<char>, c: char) -> int
    decreases text.len(),
{
    if text.len() == 0 || text[0] == c {
        0
    } else {
        1 + place_in(text.drop_first(), c)
    }
}

proof fn lemma_place_in(text: Seq<char>, c: char)
    ensures
        0 <= place_in(text, c) <= text.len(),
    decreases text.len(),
{
    if text.len() > 0 && text[0] != c {
        lemma_place_in(text.drop_first(), c);
    }
}

fn find_char(all: &Vec<char>, c: char) -> (r: usize)
    ensures
        r == place_in(all@, c),
        r <= all.len(),
{
    let mut i: usize = 0;
    assert(all@.skip(0) =~= all@);
    while i < all.len()
        invariant
            i <= all.len(),
            place_in(all@, c) == i + place_in(all@.skip(i as int), c),
        decreases all.len() - i,
    {
        if all[i] == c {
            return i;
        }
        proof {
            assert(all@.skip(i as int).drop_first() =~= all@.skip(i + 1));
        }
        i += 1;
    }
    i
}

/// The keys and numbers of some fields, each of which is a key, an equals sign and a number, no key
/// twice.
pub open spec fn field_values(fields: Seq<Seq<char>>) -> Option<Seq<(Seq<char>, u64)>>
    decreases fields.len(),
{
    if fields.len() == 0 {
        Some(Seq::empty())
    } else {
        let field = fields.last();
        let at = place_in(field, '=');
        if at >= field.len() {
            None
        } else {
            with_pair(
                field_values(fields.drop_last()),
                field.take(at),
                unsigned_of(field.skip(at + 1)),
            )
        }
    }
}

proof fn lemma_field_values_prefix(fields: Seq<Seq<char>>, count: int)
    requires
        0 <= count <= fields.len(),
        field_values(fields.take(count)) is None,
    ensures
        field_values(fields) is None,
    decreases fields.len() - count,
{
    if count == fields.len() {
        assert(fields.take(count) =~= fields);
    } else {
        assert(fields.take(count + 1).drop_last() =~= fields.take(count));
        lemma_field_values_prefix(fields, count + 1);
    }
}

/// What a row tells of a device: a row names its device with a colon, and tells at least its four
/// counts.
pub open spec fn io_row(line: Seq<char>) -> Option<ExecutionIoUsageV1> {
    let fields = words(line);
    if fields.len() == 0 || place_in(fields[0], ':') >= fields[0].len() {
        None
    } else {
        match field_values(fields.drop_first()) {
            None => None,
            Some(pairs) => match (
                value_of(pairs, "rbytes"@),
                value_of(pairs, "wbytes"@),
                value_of(pairs, "rios"@),
                value_of(pairs, "wios"@),
            ) {
                (Some(read_bytes), Some(write_bytes), Some(read_operations), Some(write_operations)) => {
                    Some(
                        ExecutionIoUsageV1 {
                            read_bytes,
                            write_bytes,
                            read_operations,
                            write_operations,
                        },
                    )
                },
                _ => None,
            },
        }
    }
}

fn parse_io_row(line: &str) -> (r: Option<ExecutionIoUsageV1>)
    ensures
        r == io_row(line@),
{
    let fields = split_words(line);
    let ghost all = words(line@);
    if fields.len() == 0 {
        return None;
    }
    assert(texts(fields@)[0] == fields@[0]@);
    let device = characters(fields[0].as_str());
    if find_char(&device, ':') >= device.len() {
        return None;
    }
    let ghost rest = all.drop_first();
    let mut pairs: Vec<(String, u64)> = Vec::new();
    let mut i: usize = 1;
    assert(rest.take(0) =~= Seq::empty());
    assert(pair_views(pairs@) =~= Seq::empty());
    while i < fields.len()
        invariant
            1 <= i <= fields.len(),
            texts(fields@) == all,
            all == words(line@),
            rest == all.drop_first(),
            field_values(rest.take(i - 1)) == Some(pair_views(pairs@)),
        decreases fields.len() - i,
    {
        let ghost so_far = rest.take(i as int);
        let field = characters(fields[i].as_str());
        proof {
            assert(texts(fields@)[i as int] == fields@[i as int]@);
            assert(so_far.drop_last() =~= rest.take(i - 1));
            assert(so_far.last() == field@);
            if field_values(so_far) is None {
                lemma_field_values_prefix(rest, i as int);
            }
        }
        let at = find_char(&field, '=');
        if at >= field.len() {
            return None;
        }
        let key = text_of(&field, 0, at);
        let number = text_of(&field, at + 1, field.len());
        proof {
            assert(key@ =~= field@.take(at as int));
            assert(number@ =~= field@.skip(at + 1));
        }
        let value = match read_unsigned(number.as_str()) {
            None => {
                    return None;
            },
            Some(value) => value,
        };
        if find_value(&pairs, key.as_str()).is_some() {
            return None;
        }
        let ghost before = pairs@;
        pairs.push((key, value));
        assert(pair_views(pairs@) =~= pair_views(before).push((key@, value)));
        i += 1;
    }
    assert(rest.take(i - 1) =~= rest);
    match (
        find_value(&pairs, "rbytes"),
        find_value(&pairs, "wbytes"),
        find_value(&pairs, "rios"),
        find_value(&pairs, "wios"),
    ) {
        (Some(read_bytes), Some(write_bytes), Some(read_operations), Some(write_operations)) => Some(
            ExecutionIoUsageV1 { read_bytes, write_bytes, read_operations, write_operations },
        ),
        _ => None,
    }
}

/// Two rows together, where every count has its place in 64 bits.
pub open spec fn io_added(
    a: ExecutionIoUsageV1,
    b: ExecutionIoUsageV1,
) -> Option<ExecutionIoUsageV1> {
    if a.read_bytes + b.read_bytes > u64::MAX || a.write_bytes + b.write_bytes > u64::MAX
        || a.read_operations + b.read_operations > u64::MAX || a.write_operations
        + b.write_operations > u64::MAX {
        None
    } else {
        Some(
            ExecutionIoUsageV1 {
                read_bytes: (a.read_bytes + b.read_bytes) as u64,
                write_bytes: (a.write_bytes + b.write_bytes) as u64,
                read_operations: (a.read_operations + b.read_operations) as u64,
                write_operations: (a.write_operations + b.write_operations) as u64,
            },
        )
    }
}

fn add_io(a: ExecutionIoUsageV1, b: ExecutionIoUsageV1) -> (r: Option<ExecutionIoUsageV1>)
    ensures
        r == io_added(a, b),
{
    match (
        a.read_bytes.checked_add(b.read_bytes),
        a.write_bytes.checked_add(b.write_bytes),
        a.read_operations.checked_add(b.read_operations),
        a.write_operations.checked_add(b.write_operations),
    ) {
        (Some(read_bytes), Some(write_bytes), Some(read_operations), Some(write_operations)) => Some(
            ExecutionIoUsageV1 { read_bytes, write_bytes, read_operations, write_operations },
        ),
        _ => None,
    }
}

/// No use of any device.
pub open spec fn no_io() -> ExecutionIoUsageV1 {
    ExecutionIoUsageV1 {
        read_bytes: 0,
        write_bytes: 0,
        read_operations: 0,
        write_operations: 0,
    }
}

/// What the rows among some lines tell together. Blank lines are no rows.
pub open spec fn io_total(found: Seq<Seq<char>>) -> Option<ExecutionIoUsageV1>
    decreases found.len(),
{
    if found.len() == 0 {
        Some(no_io())
    } else if trimmed(found.last()).len() == 0 {
        io_total(found.drop_last())
    } else {
        match (io_total(found.drop_last()), io_row(found.last())) {
            (Some(total), Some(row)) => io_added(total, row),
            _ => None,
        }
    }
}

/// Some line is a row.
pub open spec fn has_row(found: Seq<Seq<char>>) -> bool {
    exists|i: int| 0 <= i < found.len() && trimmed(#[trigger] found[i]).len() > 0
}

proof fn lemma_io_prefix(found: Seq<Seq<char>>, count: int)
    requires
        0 <= count <= found.len(),
        io_total(found.take(count)) is None,
    ensures
        io_total(found) is None,
    decreases found.len() - count,
{
    if count == found.len() {
        assert(found.take(count) =~= found);
    } else {
        assert(found.take(count + 1).drop_last() =~= found.take(count));
        lemma_io_prefix(found, count + 1);
    }
}

/// What the rows of a text tell together, where there is one.
pub open spec fn io_usage_of(text: Seq<char>) -> Option<ExecutionIoUsageV1> {
    if has_row(lines(text)) {
        io_total(lines(text))
    } else {
        None
    }
}

pub fn parse_io_stat(input: &str) -> (r: Option<ExecutionIoUsageV1>)
    ensures
        r == io_usage_of(input@),
{
    let found = split_lines(input);
    let ghost all = lines(input@);
    let mut usage = ExecutionIoUsageV1 {
        read_bytes: 0,
        write_bytes: 0,
        read_operations: 0,
        write_operations: 0,
    };
    let mut any = false;
    let mut i: usize = 0;
    assert(all.take(0) =~= Seq::empty());
    while i < found.len()
        invariant
            i <= found.len(),
            texts(found@) == all,
            all == lines(input@),
            io_total(all.take(i as int)) == Some(usage),
            any == (exists|k: int| 0 <= k < i && trimmed(#[trigger] all[k]).len() > 0),
        decreases found.len() - i,
    {
        let ghost so_far = all.take(i + 1);
        proof {
            assert(texts(found@)[i as int] == found@[i as int]@);
            assert(so_far.drop_last() =~= all.take(i as int));
            assert(so_far.last() == all[i as int]);
            assert(all[i as int] == found@[i as int]@);
            if io_total(so_far) is None {
                lemma_io_prefix(all, i + 1);
            }
        }
        let content = trim(found[i].as_str());
        let content = characters(content.as_str());
        if content.len() > 0 {
            any = true;
            assert(trimmed(all[i as int]).len() > 0);
            assert(has_row(all));
            let row = match parse_io_row(found[i].as_str()) {
                None => return None,
                Some(row) => row,
            };
            usage = match add_io(usage, row) {
                None => return None,
                Some(usage) => usage,
            };
        }
        i += 1;
    }
    assert(all.take(i as int) =~= all);
    if any {
        Some(usage)
    } else {
        None
    }
}

/// The path of the unified hierarchy, on the first line that begins with a zero and two colons.
pub open spec fn unified_path(found: Seq<Seq<char>>) -> Option<Seq<char>>
    decreases found.len(),
{
    if found.len() == 0 {
        None
    } else if found[0].len() >= 3 && found[0][0] == '0' && found[0][1] == ':' && found[0][2] == ':' {
        Some(found[0].skip(3))
    } else {
        unified_path(found.drop_first())
    }
}

/// A segment of a path leads up from some place on.
pub open spec fn leads_up(path: Seq<char>) -> bool {
    exists|i: int| #[trigger] up_at(path, i)
}

/// The segment that begins at some place is two dots.
pub open spec fn up_at(path: Seq<char>, i: int) -> bool {
    &&& 0 <= i
    &&& i + 2 <= path.len()
    &&& path[i] == '.'
    &&& path[i + 1] == '.'
    &&& i == 0 || path[i - 1] == '/'
    &&& i + 2 == path.len() || path[i + 2] == '/'
}

/// A text without the slashes that it begins with.
pub open spec fn without_slashes(path: Seq<char>) -> Seq<char>
    decreases path.len(),
{
    if path.len() > 0 && path[0] == '/' {
        without_slashes(path.drop_first())
    } else {
        path
    }
}

/// Where the measures of a process are, below the root of the hierarchy: the unified path is
/// absolute and never leads up.
pub open spec fn cgroup_place(text: Seq<char>) -> Option<Seq<char>> {
    match unified_path(lines(text)) {
        None => None,
        Some(path) => if path.len() == 0 || path[0] != '/' || leads_up(path) {
            None
        } else {
            Some(without_slashes(path))
        },
    }
}

/// Where the measures of a process are, from what the kernel tells of its groups.
pub fn resolve_cgroup_directory(input: &str) -> (r: Option<String>)
    ensures
        match r {
            Some(place) => cgroup_place(input@) == Some(place@),
            None => cgroup_place(input@) is None,
        },
{
    let found = split_lines(input);
    let ghost all = lines(input@);
    let mut i: usize = 0;
    assert(all.skip(0) =~= all);
    while i < found.len()
        invariant
            i <= found.len(),
            texts(found@) == all,
            all == lines(input@),
            unified_path(all) == unified_path(all.skip(i as int)),
        decreases found.len() - i,
    {
        proof {
            assert(texts(found@)[i as int] == found@[i as int]@);
            assert(all.skip(i as int)[0] == all[i as int]);
            assert(all.skip(i as int).drop_first() =~= all.skip(i + 1));
        }
        let line = characters(found[i].as_str());
        if line.len() >= 3 && line[0] == '0' && line[1] == ':' && line[2] == ':' {
            let ghost path = line@.skip(3);
            assert(unified_path(all) == Some(path));
            if line.len() == 3 || line[3] != '/' {
                return None;
            }
            let mut k: usize = 3;
            while k < line.len()
                invariant
                    3 <= k <= line.len(),
                    path == line@.skip(3),
                    all == lines(input@),
                    unified_path(all) == Some(path),
                    forall|j: int| 0 <= j < k - 3 ==> !#[trigger] up_at(path, j),
                decreases line.len() - k,
            {
                if line.len() - k >= 2 && line[k] == '.' && line[k + 1] == '.' && (k == 3 || line[k - 1]
                    == '/') && (k + 2 == line.len() || line[k + 2] == '/') {
                    assert(up_at(path, k - 3));
                    return None;
                }
                assert(!up_at(path, k - 3));
                k += 1;
            }
            assert(!leads_up(path)) by {
                assert forall|j: int| !#[trigger] up_at(path, j) by {}
            }
            let mut from: usize = 3;
            assert(line@.skip(3) =~= path);
            while from < line.len() && line[from] == '/'
                invariant
                    3 <= from <= line.len(),
                    without_slashes(path) == without_slashes(line@.skip(from as int)),
                decreases line.len() - from,
            {
                assert(line@.skip(from as int).drop_first() =~= line@.skip(from + 1));
                from += 1;
            }
            let place = text_of(&line, from, line.len());
            assert(place@ =~= line@.skip(from as int));
            return Some(place);
        }
        i += 1;
    }
    None
}

proof fn lemma_decimal_digits(n: nat)
    ensures
        decimal(n).len() > 0,
        all_digits(decimal(n)),
        digits_value(decimal(n)) == n,
    decreases n,
{
    reveal_with_fuel(digits_value, 2);
    if n < 10 {
        assert(decimal(n).drop_last() =~= Seq::<char>::empty());
        assert(decimal(n).last() == digit_char(n as int));
    } else {
        let front = decimal(n / 10);
        lemma_decimal_digits(n / 10);
        assert(decimal(n) == front.push(digit_char((n % 10) as int)));
        assert(decimal(n).drop_last() =~= front);
        assert(decimal(n).last() == digit_char((n % 10) as int));
        assert forall|i: int| 0 <= i < decimal(n).len() implies '0' <= #[trigger] decimal(n)[i]
            <= '9' by {
            if i < front.len() {
                assert(decimal(n)[i] == front[i]);
            }
        }
    }
}

proof fn lemma_decimal_is_read(n: u64)
    ensures
        unsigned_of(decimal(n as nat)) == Some(n),
{
    lemma_decimal_digits(n as nat);
    assert('0' <= decimal(n as nat)[0] <= '9');
}

/// A number that is written down is read as that number, also behind a plus.
pub proof fn law_written_numbers_are_read_back(
    n: u64,
    plain: &str,
    signed: &str,
    read: Option<u64>,
    read_signed: Option<u64>,
)
    requires
        plain@ == decimal(n as nat),
        signed@ == seq!['+'] + decimal(n as nat),
        call_ensures(read_unsigned, (plain,), read),
        call_ensures(read_unsigned, (signed,), read_signed),
    ensures
        read == Some(n),
        read_signed == Some(n),
{
    lemma_decimal_is_read(n);
    lemma_decimal_digits(n as nat);
    assert(signed@.drop_first() =~= decimal(n as nat));
}

/// What is not a number is not read as one.
pub proof fn law_only_numbers_are_read(text: &str, read: Option<u64>, i: int)
    requires
        call_ensures(read_unsigned, (text,), read),
        read is Some,
        0 <= i < text@.len(),
    ensures
        text@.len() > 0,
        '0' <= text@[i] <= '9' || (i == 0 && text@[0] == '+' && text@.len() > 1),
{
    let digits = unsigned_digits(text@);
    if text@[0] == '+' {
        if i > 0 {
            assert(digits[i - 1] == text@[i]);
        }
    } else {
        assert(digits[i] == text@[i]);
    }
}

/// A file that holds one number is read as that number.
pub proof fn law_single_numbers_are_read_back(n: u64, text: &str, read: Option<u64>)
    requires
        trimmed(text@) == decimal(n as nat),
        call_ensures(parse_single_u64, (text,), read),
    ensures
        read == Some(n),
{
    lemma_decimal_is_read(n);
    lemma_decimal_digits(n as nat);
}

proof fn lemma_keyed_value(found: Seq<Seq<char>>, key: Seq<char>)
    ensures
        keyed_value(found, key) matches Some(value) ==> exists|i: int|
            0 <= i < found.len() && line_value(#[trigger] found[i], key) == Some(value) && forall|
                j: int,
            |
                0 <= j < i ==> line_value(#[trigger] found[j], key) is None,
        keyed_value(found, key) is None ==> forall|i: int|
            0 <= i < found.len() ==> line_value(#[trigger] found[i], key) is None,
    decreases found.len(),
{
    if found.len() > 0 {
        if line_value(found[0], key) is None {
            let rest = found.drop_first();
            lemma_keyed_value(rest, key);
            match keyed_value(rest, key) {
                Some(value) => {
                    let i = choose|i: int|
                        0 <= i < rest.len() && line_value(#[trigger] rest[i], key) == Some(value)
                            && forall|j: int|
                            0 <= j < i ==> line_value(#[trigger] rest[j], key) is None;
                    assert(found[i + 1] == rest[i]);
                    assert forall|j: int| 0 <= j < i + 1 implies line_value(
                        #[trigger] found[j],
                        key,
                    ) is None by {
                        if j > 0 {
                            assert(found[j] == rest[j - 1]);
                        }
                    }
                },
                None => {
                    assert forall|j: int| 0 <= j < found.len() implies line_value(
                        #[trigger] found[j],
                        key,
                    ) is None by {
                        if j > 0 {
                            assert(found[j] == rest[j - 1]);
                        }
                    }
                },
            }
        } else {
            assert(line_value(found[0], key) == keyed_value(found, key));
        }
    }
}

/// A key finds the number that stands behind it on the first line that begins with it and has one.
pub proof fn law_keys_find_their_first_number(input: &str, key: &str, read: Option<u64>, n: u64)
    requires
        call_ensures(parse_keyed_u64, (input, key), read),
    ensures
        read matches Some(value) ==> exists|i: int|
            {
                let fields = words(#[trigger] lines(input@)[i]);
                &&& 0 <= i < lines(input@).len()
                &&& fields.len() >= 2 && fields[0] == key@
                &&& fields[1] == decimal(n as nat) ==> value == n
            },
        read is None ==> forall|i: int|
            0 <= i < lines(input@).len() && words(#[trigger] lines(input@)[i]).len() >= 2 ==> words(
                lines(input@)[i],
            )[0] != key@ || words(lines(input@)[i])[1] != decimal(n as nat),
{
    lemma_decimal_is_read(n);
    lemma_keyed_value(lines(input@), key@);
    if let Some(value) = read {
        let i = choose|i: int|
            0 <= i < lines(input@).len() && line_value(#[trigger] lines(input@)[i], key@) == Some(
                value,
            ) && forall|j: int|
                0 <= j < i ==> line_value(#[trigger] lines(input@)[j], key@) is None;
        let fields = words(lines(input@)[i]);
        assert(fields.len() >= 2 && fields[0] == key@);
    }
}

proof fn lemma_value_of_push(
    pairs: Seq<(Seq<char>, u64)>,
    pair: (Seq<char>, u64),
    key: Seq<char>,
)
    ensures
        value_of(pairs.push(pair), key) == if value_of(pairs, key) is Some {
            value_of(pairs, key)
        } else if pair.0 == key {
            Some(pair.1)
        } else {
            None
        },
    decreases pairs.len(),
{
    let more = pairs.push(pair);
    if pairs.len() == 0 {
        assert(more.drop_first() =~= Seq::<(Seq<char>, u64)>::empty());
        assert(value_of(more.drop_first(), key) is None);
    } else {
        assert(more[0] == pairs[0]);
        assert(more.drop_first() =~= pairs.drop_first().push(pair));
        lemma_value_of_push(pairs.drop_first(), pair, key);
    }
}

proof fn lemma_place_of_equals(key: Seq<char>, rest: Seq<char>)
    requires
        !key.contains('='),
    ensures
        place_in(key + seq!['='] + rest, '=') == key.len(),
    decreases key.len(),
{
    let text = key + seq!['='] + rest;
    if key.len() == 0 {
        assert(text[0] == '=');
    } else {
        assert(text[0] == key[0] && key.contains(key[0]));
        assert(text.drop_first() =~= key.drop_first() + seq!['='] + rest);
        assert forall|i: int| 0 <= i < key.drop_first().len() implies key.drop_first()[i]
            != '=' by {
            assert(key.contains(key[i + 1]));
        }
        lemma_place_of_equals(key.drop_first(), rest);
    }
}

proof fn lemma_field_value(fields: Seq<Seq<char>>, i: int, key: Seq<char>, n: u64)
    requires
        field_values(fields) is Some,
        0 <= i < fields.len(),
        !key.contains('='),
        fields[i] == key + seq!['='] + decimal(n as nat),
    ensures
        value_of(field_values(fields)->0, key) == Some(n),
    decreases fields.len(),
{
    let before = fields.drop_last();
    let field = fields.last();
    let at = place_in(field, '=');
    let pairs = field_values(before)->0;
    let value = unsigned_of(field.skip(at + 1))->0;
    lemma_value_of_push(pairs, (field.take(at), value), key);
    if i < before.len() {
        assert(before[i] == fields[i]);
        lemma_field_value(before, i, key, n);
    } else {
        lemma_place_of_equals(key, decimal(n as nat));
        lemma_decimal_is_read(n);
        assert(field.take(at) =~= key);
        assert(field.skip(at + 1) =~= decimal(n as nat));
    }
}

/// A row of transfers tells what its fields tell, each under its own name: what was read and what was
/// written, in bytes and in operations.
pub proof fn law_transfers_are_told_by_their_fields(
    line: Seq<char>,
    usage: ExecutionIoUsageV1,
    i: int,
    n: u64,
)
    requires
        io_row(line) == Some(usage),
        1 <= i < words(line).len(),
    ensures
        words(line)[i] == "rbytes"@ + seq!['='] + decimal(n as nat) ==> usage.read_bytes == n,
        words(line)[i] == "wbytes"@ + seq!['='] + decimal(n as nat) ==> usage.write_bytes == n,
        words(line)[i] == "rios"@ + seq!['='] + decimal(n as nat) ==> usage.read_operations == n,
        words(line)[i] == "wios"@ + seq!['='] + decimal(n as nat) ==> usage.write_operations == n,
{
    reveal_strlit("rbytes");
    reveal_strlit("wbytes");
    reveal_strlit("rios");
    reveal_strlit("wios");
    let fields = words(line).drop_first();
    assert(fields[i - 1] == words(line)[i]);
    if words(line)[i] == "rbytes"@ + seq!['='] + decimal(n as nat) {
        lemma_field_value(fields, i - 1, "rbytes"@, n);
    }
    if words(line)[i] == "wbytes"@ + seq!['='] + decimal(n as nat) {
        lemma_field_value(fields, i - 1, "wbytes"@, n);
    }
    if words(line)[i] == "rios"@ + seq!['='] + decimal(n as nat) {
        lemma_field_value(fields, i - 1, "rios"@, n);
    }
    if words(line)[i] == "wios"@ + seq!['='] + decimal(n as nat) {
        lemma_field_value(fields, i - 1, "wios"@, n);
    }
}

/// The transfers of all devices add up: with one more row they are what they were and what the row
/// tells, and a line with nothing on it adds nothing.
pub proof fn law_transfers_add_up(
    text: &str,
    longer: &str,
    line: Seq<char>,
    before: ExecutionIoUsageV1,
    after: ExecutionIoUsageV1,
)
    requires
        call_ensures(parse_io_stat, (text,), Some(before)),
        call_ensures(parse_io_stat, (longer,), Some(after)),
        lines(longer@) == lines(text@).push(line),
    ensures
        trimmed(line).len() == 0 ==> after == before,
        trimmed(line).len() > 0 ==> (io_row(line) matches Some(row) && {
            &&& after.read_bytes == before.read_bytes + row.read_bytes
            &&& after.write_bytes == before.write_bytes + row.write_bytes
            &&& after.read_operations == before.read_operations + row.read_operations
            &&& after.write_operations == before.write_operations + row.write_operations
        }),
{
    assert(lines(longer@).drop_last() =~= lines(text@));
    assert(lines(longer@).last() == line);
}

/// The transfers of one device are what its row tells.
pub proof fn law_one_row_is_told_alone(text: &str, line: Seq<char>, r: Option<ExecutionIoUsageV1>)
    requires
        call_ensures(parse_io_stat, (text,), r),
        lines(text@) == seq![line],
        trimmed(line).len() > 0,
    ensures
        r == io_row(line),
{
    reveal_with_fuel(io_total, 2);
    assert(lines(text@).drop_last() =~= Seq::<Seq<char>>::empty());
    assert(trimmed(lines(text@)[0]).len() > 0);
}

proof fn lemma_key_value(found: Seq<Seq<char>>, i: int, key: Seq<char>, n: u64)
    requires
        key_values(found) is Some,
        0 <= i < found.len(),
        words(found[i]) == seq![key, decimal(n as nat)],
    ensures
        value_of(key_values(found)->0, key) == Some(n),
    decreases found.len(),
{
    let before = found.drop_last();
    let fields = words(found.last());
    let pairs = key_values(before)->0;
    lemma_value_of_push(pairs, (fields[0], unsigned_of(fields[1])->0), key);
    if i < before.len() {
        assert(before[i] == found[i]);
        lemma_key_value(before, i, key, n);
    } else {
        lemma_decimal_is_read(n);
        assert(fields[0] == key && fields[1] == decimal(n as nat));
    }
}

proof fn lemma_no_key(found: Seq<Seq<char>>, key: Seq<char>)
    requires
        key_values(found) is Some,
        forall|i: int| 0 <= i < found.len() ==> words(#[trigger] found[i])[0] != key,
    ensures
        value_of(key_values(found)->0, key) is None,
    decreases found.len(),
{
    if found.len() > 0 {
        let before = found.drop_last();
        let fields = words(found.last());
        assert forall|i: int| 0 <= i < before.len() implies words(#[trigger] before[i])[0]
            != key by {
            assert(before[i] == found[i]);
        }
        lemma_no_key(before, key);
        lemma_value_of_push(key_values(before)->0, (fields[0], unsigned_of(fields[1])->0), key);
        assert(found[found.len() - 1] == found.last());
    }
}

/// What happened to memory is told line by line, each number under its own name. Only the kills of
/// whole groups may be left out, and then there were none.
pub proof fn law_memory_events_are_told_by_their_lines(
    text: &str,
    events: ExecutionMemoryEventsV1,
    i: int,
    n: u64,
)
    requires
        call_ensures(parse_memory_events, (text,), Some(events)),
        0 <= i < lines(text@).len(),
    ensures
        ({
            let line = words(lines(text@)[i]);
            let number = decimal(n as nat);
            &&& line == seq!["low"@, number] ==> events.low == n
            &&& line == seq!["high"@, number] ==> events.high == n
            &&& line == seq!["max"@, number] ==> events.max == n
            &&& line == seq!["oom"@, number] ==> events.oom == n
            &&& line == seq!["oom_kill"@, number] ==> events.oom_kill == n
            &&& line == seq!["oom_group_kill"@, number] ==> events.oom_group_kill == n
        }),
        (forall|j: int|
            0 <= j < lines(text@).len() ==> words(#[trigger] lines(text@)[j])[0]
                != "oom_group_kill"@) ==> events.oom_group_kill == 0,
{
    let found = lines(text@);
    let line = words(found[i]);
    let number = decimal(n as nat);
    if line == seq!["low"@, number] {
        lemma_key_value(found, i, "low"@, n);
    }
    if line == seq!["high"@, number] {
        lemma_key_value(found, i, "high"@, n);
    }
    if line == seq!["max"@, number] {
        lemma_key_value(found, i, "max"@, n);
    }
    if line == seq!["oom"@, number] {
        lemma_key_value(found, i, "oom"@, n);
    }
    if line == seq!["oom_kill"@, number] {
        lemma_key_value(found, i, "oom_kill"@, n);
    }
    if line == seq!["oom_group_kill"@, number] {
        lemma_key_value(found, i, "oom_group_kill"@, n);
    }
    if forall|j: int|
        0 <= j < lines(text@).len() ==> words(#[trigger] lines(text@)[j])[0]
            != "oom_group_kill"@ {
        lemma_no_key(found, "oom_group_kill"@);
    }
}

proof fn lemma_without_slashes(path: Seq<char>) -> (k: int)
    ensures
        0 <= k <= path.len(),
        without_slashes(path) == path.skip(k),
        forall|i: int| 0 <= i < k ==> #[trigger] path[i] == '/',
        k < path.len() ==> path[k] != '/',
    decreases path.len(),
{
    if path.len() > 0 && path[0] == '/' {
        let k = lemma_without_slashes(path.drop_first());
        assert(path.drop_first().skip(k) =~= path.skip(k + 1));
        assert forall|i: int| 0 <= i < k + 1 implies #[trigger] path[i] == '/' by {
            if i > 0 {
                assert(path.drop_first()[i - 1] == path[i]);
            }
        }
        if k + 1 < path.len() {
            assert(path.drop_first()[k] == path[k + 1]);
        }
        k + 1
    } else {
        assert(path.skip(0) =~= path);
        0
    }
}

/// The place of a control group lies below the directory of all groups: it does not begin at the root
/// and leads nowhere up.
pub proof fn law_groups_lie_below_their_directory(input: &str, place: String, i: int)
    requires
        call_ensures(resolve_cgroup_directory, (input,), Some(place)),
    ensures
        place@.len() > 0 ==> place@[0] != '/',
        !up_at(place@, i),
{
    let path = unified_path(lines(input@))->0;
    let k = lemma_without_slashes(path);
    if up_at(place@, i) {
        assert(place@[i] == path[i + k] && place@[i + 1] == path[i + k + 1]);
        if i > 0 {
            assert(place@[i - 1] == path[i + k - 1]);
        } else {
            assert(k > 0);
            assert(path[k - 1] == '/');
        }
        if i + 2 < place@.len() {
            assert(place@[i + 2] == path[i + k + 2]);
        }
        assert(up_at(path, i + k));
    }
}

} // verus!
