//! What is written as JSON can be told apart: a text of an object, all of whose values are whole, is the
//! text of no other object. So what is sealed over such a text is sealed over each of its members.

use vstd::prelude::*;
use crate::json::{
    comma_joined, escaped, escaped_text, json_array, json_bool, json_int, json_member, json_nat,
    json_null, json_object, json_optional, json_optional_int, json_optional_nat,
    json_optional_string, json_string, json_strings, no_members,
};
use crate::executor_intent::unique::lemma_big_endian_injective;
use crate::text::{decimal, digit_char, hex, hex_char};
use crate::unique_id::{big_endian, hyphenated, Uuid};

verus! {

/// Where a reader of JSON stands: how deep, and whether within a string or behind a backslash there.
/// It has stopped at a comma or a bracket that belongs to what lies around.
pub struct Reader {
    pub depth: int,
    pub quoted: bool,
    pub escaping: bool,
    pub stopped: bool,
}

/// A reader between two values.
pub open spec fn at_depth(depth: int) -> Reader {
    Reader { depth, quoted: false, escaping: false, stopped: false }
}

/// A reader within a string.
pub open spec fn in_string(depth: int) -> Reader {
    Reader { depth, quoted: true, escaping: false, stopped: false }
}

impl Reader {
    /// Where a reader stands one character on.
    pub open spec fn read(self, c: char) -> Reader {
        if self.stopped {
            self
        } else if self.quoted {
            if self.escaping {
                Reader { escaping: false, ..self }
            } else if c == '\\' {
                Reader { escaping: true, ..self }
            } else if c == '"' {
                Reader { quoted: false, ..self }
            } else {
                self
            }
        } else if c == '"' {
            Reader { quoted: true, ..self }
        } else if c == '{' || c == '[' {
            Reader { depth: self.depth + 1, ..self }
        } else if c == '}' || c == ']' {
            if self.depth == 0 {
                Reader { stopped: true, ..self }
            } else {
                Reader { depth: self.depth - 1, ..self }
            }
        } else if c == ',' && self.depth == 0 {
            Reader { stopped: true, ..self }
        } else {
            self
        }
    }
}

/// Where a reader stands behind a text.
pub open spec fn behind(reader: Reader, text: Seq<char>) -> Reader
    decreases text.len(),
{
    if text.len() == 0 {
        reader
    } else {
        behind(reader, text.drop_last()).read(text.last())
    }
}

/// A text that leaves a reader where it found it, at any depth, is a whole value.
pub open spec fn whole(text: Seq<char>) -> bool {
    forall|depth: int| depth >= 0 ==> #[trigger] behind(at_depth(depth), text) == at_depth(depth)
}

proof fn lemma_behind_both(reader: Reader, a: Seq<char>, b: Seq<char>)
    ensures
        behind(reader, a + b) == behind(behind(reader, a), b),
    decreases b.len(),
{
    if b.len() == 0 {
        assert(a + b =~= a);
    } else {
        assert((a + b).drop_last() =~= a + b.drop_last());
        assert((a + b).last() == b.last());
        lemma_behind_both(reader, a, b.drop_last());
    }
}

proof fn lemma_stays_stopped(reader: Reader, text: Seq<char>)
    requires
        reader.stopped,
    ensures
        behind(reader, text) == reader,
    decreases text.len(),
{
    if text.len() > 0 {
        lemma_stays_stopped(reader, text.drop_last());
    }
}

proof fn lemma_one(reader: Reader, c: char)
    ensures
        behind(reader, seq![c]) == reader.read(c),
{
    reveal_with_fuel(behind, 2);
    assert(seq![c].drop_last() =~= Seq::<char>::empty());
    assert(seq![c].last() == c);
}

/// A character behind which nothing that stands before it goes on.
pub open spec fn ends_value(c: char) -> bool {
    c == ',' || c == '}' || c == ']'
}

proof fn lemma_not_longer(a: Seq<char>, x: Seq<char>, b: Seq<char>, y: Seq<char>)
    requires
        whole(a),
        whole(b),
        a + x == b + y,
        x.len() > 0,
        ends_value(x[0]),
    ensures
        b.len() <= a.len(),
{
    if a.len() < b.len() {
        let start = at_depth(0);
        let head = b.take(a.len() as int + 1);
        assert((a + x)[a.len() as int] == x[0]);
        assert((b + y)[a.len() as int] == b[a.len() as int]);
        assert(head =~= a + seq![x[0]]) by {
            assert forall|k: int| 0 <= k < a.len() implies head[k] == a[k] by {
                assert((a + x)[k] == a[k]);
                assert((b + y)[k] == b[k]);
            }
        }
        lemma_behind_both(start, a, seq![x[0]]);
        assert(behind(start, a) == start);
        lemma_one(start, x[0]);
        assert(behind(start, head).stopped);
        let rest = b.skip(a.len() as int + 1);
        assert(b =~= head + rest);
        lemma_behind_both(start, head, rest);
        lemma_stays_stopped(behind(start, head), rest);
        assert(behind(start, b) == start);
    }
}

/// Two whole values with an end behind them are the same if the texts are.
pub proof fn lemma_values_end(a: Seq<char>, x: Seq<char>, b: Seq<char>, y: Seq<char>)
    requires
        whole(a),
        whole(b),
        a + x == b + y,
        x.len() > 0,
        y.len() > 0,
        ends_value(x[0]),
        ends_value(y[0]),
    ensures
        a == b,
        x == y,
{
    lemma_not_longer(a, x, b, y);
    lemma_not_longer(b, y, a, x);
    assert(a =~= (a + x).take(a.len() as int));
    assert(b =~= (b + y).take(b.len() as int));
    assert(x =~= (a + x).skip(a.len() as int));
    assert(y =~= (b + y).skip(b.len() as int));
}

proof fn lemma_escaped_in_string(depth: int, c: char)
    ensures
        behind(in_string(depth), escaped(c)) == in_string(depth),
{
    let text = escaped(c);
    reveal_with_fuel(behind, 7);
    if c == '"' || c == '\\' {
        assert(text.drop_last() =~= seq!['\\']);
        assert(text.drop_last().drop_last() =~= Seq::<char>::empty());
    } else if (c as int) < 0x20 {
        assert(text.drop_last() =~= seq!['\\', 'u', '0', '0', hex_char(c as int / 16)]);
        assert(text.drop_last().drop_last() =~= seq!['\\', 'u', '0', '0']);
        assert(text.drop_last().drop_last().drop_last() =~= seq!['\\', 'u', '0']);
        assert(text.drop_last().drop_last().drop_last().drop_last() =~= seq!['\\', 'u']);
        assert(text.drop_last().drop_last().drop_last().drop_last().drop_last() =~= seq!['\\']);
    } else {
        assert(text.drop_last() =~= Seq::<char>::empty());
    }
}

proof fn lemma_escaped_text_in_string(depth: int, text: Seq<char>)
    ensures
        behind(in_string(depth), escaped_text(text)) == in_string(depth),
    decreases text.len(),
{
    if text.len() > 0 {
        lemma_escaped_text_in_string(depth, text.drop_last());
        lemma_behind_both(in_string(depth), escaped_text(text.drop_last()), escaped(text.last()));
        lemma_escaped_in_string(depth, text.last());
    }
}

/// A string is a whole value.
pub broadcast proof fn lemma_strings_are_whole(text: Seq<char>)
    ensures
        whole(#[trigger] json_string(text)),
{
    assert forall|depth: int| depth >= 0 implies #[trigger] behind(
        at_depth(depth),
        json_string(text),
    ) == at_depth(depth) by {
        let start = at_depth(depth);
        lemma_behind_both(start, seq!['"'] + escaped_text(text), seq!['"']);
        lemma_behind_both(start, seq!['"'], escaped_text(text));
        lemma_one(start, '"');
        lemma_escaped_text_in_string(depth, text);
        lemma_one(in_string(depth), '"');
    }
}

/// A character that means nothing to a reader between values.
pub open spec fn plain(c: char) -> bool {
    c != '"' && c != '{' && c != '[' && c != '}' && c != ']' && c != ','
}

proof fn lemma_plain_from(depth: int, text: Seq<char>)
    requires
        forall|i: int| 0 <= i < text.len() ==> plain(#[trigger] text[i]),
    ensures
        behind(at_depth(depth), text) == at_depth(depth),
    decreases text.len(),
{
    if text.len() > 0 {
        assert(plain(text[text.len() - 1]));
        assert forall|i: int| 0 <= i < text.drop_last().len() implies plain(
            #[trigger] text.drop_last()[i],
        ) by {
            assert(text.drop_last()[i] == text[i]);
        }
        lemma_plain_from(depth, text.drop_last());
    }
}

proof fn lemma_plain(text: Seq<char>)
    requires
        forall|i: int| 0 <= i < text.len() ==> plain(#[trigger] text[i]),
    ensures
        whole(text),
{
    assert forall|depth: int| depth >= 0 implies #[trigger] behind(at_depth(depth), text)
        == at_depth(depth) by {
        lemma_plain_from(depth, text);
    }
}

proof fn lemma_decimal_plain(n: nat)
    ensures
        decimal(n).len() > 0,
        forall|i: int| 0 <= i < decimal(n).len() ==> '0' <= #[trigger] decimal(n)[i] <= '9',
    decreases n,
{
    if n >= 10 {
        lemma_decimal_plain(n / 10);
        assert forall|i: int| 0 <= i < decimal(n).len() implies '0' <= #[trigger] decimal(n)[i]
            <= '9' by {
            if i < decimal(n / 10).len() {
                assert(decimal(n)[i] == decimal(n / 10)[i]);
            }
        }
    }
}

/// Numbers are whole values.
pub broadcast proof fn lemma_naturals_are_whole(n: nat)
    ensures
        whole(#[trigger] json_nat(n)),
{
    lemma_decimal_plain(n);
    lemma_plain(decimal(n));
}

/// Numbers with a sign are whole values.
pub broadcast proof fn lemma_integers_are_whole(n: int)
    ensures
        whole(#[trigger] json_int(n)),
{
    if n < 0 {
        lemma_decimal_plain((-n) as nat);
    } else {
        lemma_decimal_plain(n as nat);
    }
    assert forall|i: int| 0 <= i < json_int(n).len() implies plain(#[trigger] json_int(n)[i]) by {
        if n < 0 && i > 0 {
            assert(json_int(n)[i] == decimal((-n) as nat)[i - 1]);
        }
    }
    lemma_plain(json_int(n));
}

/// What is true or false is a whole value.
pub broadcast proof fn lemma_truths_are_whole(b: bool)
    ensures
        whole(#[trigger] json_bool(b)),
{
    reveal_strlit("true");
    reveal_strlit("false");
    lemma_plain(json_bool(b));
}

proof fn lemma_null_is_whole()
    ensures
        whole(json_null()),
{
    reveal_strlit("null");
    lemma_plain(json_null());
}

/// What may be absent is a whole value where what is there is one.
pub broadcast proof fn lemma_optionals_are_whole(value: Option<Seq<char>>)
    requires
        value is Some ==> whole(value->0),
    ensures
        whole(#[trigger] json_optional(value)),
{
    lemma_null_is_whole();
}

/// A string that may be absent is a whole value.
pub broadcast proof fn lemma_optional_strings_are_whole(value: Option<Seq<char>>)
    ensures
        whole(#[trigger] json_optional_string(value)),
{
    lemma_null_is_whole();
    if value is Some {
        lemma_strings_are_whole(value->0);
    }
}

/// A number that may be absent is a whole value.
pub broadcast proof fn lemma_optional_naturals_are_whole(value: Option<nat>)
    ensures
        whole(#[trigger] json_optional_nat(value)),
{
    lemma_null_is_whole();
    if value is Some {
        lemma_naturals_are_whole(value->0);
    }
}

/// A number with a sign that may be absent is a whole value.
pub broadcast proof fn lemma_optional_integers_are_whole(value: Option<int>)
    ensures
        whole(#[trigger] json_optional_int(value)),
{
    lemma_null_is_whole();
    if value is Some {
        lemma_integers_are_whole(value->0);
    }
}

proof fn lemma_joined(depth: int, parts: Seq<Seq<char>>)
    requires
        depth >= 1,
        forall|i: int| 0 <= i < parts.len() ==> whole(#[trigger] parts[i]),
    ensures
        behind(at_depth(depth), comma_joined(parts)) == at_depth(depth),
    decreases parts.len(),
{
    let start = at_depth(depth);
    if parts.len() == 1 {
        assert(whole(parts[0]));
    } else if parts.len() > 1 {
        let front = parts.drop_last();
        assert forall|i: int| 0 <= i < front.len() implies whole(#[trigger] front[i]) by {
            assert(front[i] == parts[i]);
        }
        lemma_joined(depth, front);
        lemma_behind_both(start, comma_joined(front) + seq![','], parts.last());
        lemma_behind_both(start, comma_joined(front), seq![',']);
        lemma_one(start, ',');
        assert(whole(parts[parts.len() - 1]));
    }
}

/// A list of whole values is a whole value.
pub proof fn lemma_arrays_are_whole(parts: Seq<Seq<char>>)
    requires
        forall|i: int| 0 <= i < parts.len() ==> whole(#[trigger] parts[i]),
    ensures
        whole(json_array(parts)),
{
    assert forall|depth: int| depth >= 0 implies #[trigger] behind(
        at_depth(depth),
        json_array(parts),
    ) == at_depth(depth) by {
        let start = at_depth(depth);
        lemma_behind_both(start, seq!['['] + comma_joined(parts), seq![']']);
        lemma_behind_both(start, seq!['['], comma_joined(parts));
        lemma_one(start, '[');
        lemma_joined(depth + 1, parts);
        lemma_one(at_depth(depth + 1), ']');
    }
}

/// A list of strings is a whole value.
pub broadcast proof fn lemma_string_lists_are_whole(items: Seq<Seq<char>>)
    ensures
        whole(#[trigger] json_strings(items)),
{
    let parts = items.map_values(|item: Seq<char>| json_string(item));
    assert forall|i: int| 0 <= i < parts.len() implies whole(#[trigger] parts[i]) by {
        lemma_strings_are_whole(items[i]);
    }
    lemma_arrays_are_whole(parts);
}

/// Members all of whose values are whole.
#[verifier::opaque]
pub open spec fn all_whole(members: Seq<(Seq<char>, Seq<char>)>) -> bool {
    forall|i: int| 0 <= i < members.len() ==> whole((#[trigger] members[i]).1)
}

/// No members are all whole.
pub broadcast proof fn lemma_no_members_are_whole()
    ensures
        #[trigger] all_whole(no_members()),
{
    reveal(all_whole);
}

/// Whole members with one more are all whole.
pub broadcast proof fn lemma_more_members_are_whole(
    members: Seq<(Seq<char>, Seq<char>)>,
    name: Seq<char>,
    value: Seq<char>,
)
    requires
        all_whole(members),
        whole(value),
    ensures
        #[trigger] all_whole(members.push((name, value))),
{
    reveal(all_whole);
    let more = members.push((name, value));
    assert forall|i: int| 0 <= i < more.len() implies whole((#[trigger] more[i]).1) by {
        if i < members.len() {
            assert(more[i] == members[i]);
        }
    }
}

proof fn lemma_member_is_whole(name: Seq<char>, value: Seq<char>)
    requires
        whole(value),
    ensures
        whole(json_member(name, value)),
{
    assert forall|depth: int| depth >= 0 implies #[trigger] behind(
        at_depth(depth),
        json_member(name, value),
    ) == at_depth(depth) by {
        let start = at_depth(depth);
        lemma_behind_both(start, json_string(name) + seq![':'], value);
        lemma_behind_both(start, json_string(name), seq![':']);
        lemma_strings_are_whole(name);
        lemma_one(start, ':');
        assert(behind(start, json_string(name)) == start);
        assert(behind(start, value) == start);
    }
}

/// The texts of the members of an object.
pub open spec fn member_texts(members: Seq<(Seq<char>, Seq<char>)>) -> Seq<Seq<char>> {
    members.map_values(|m: (Seq<char>, Seq<char>)| json_member(m.0, m.1))
}

proof fn lemma_member_texts(members: Seq<(Seq<char>, Seq<char>)>)
    requires
        all_whole(members),
    ensures
        forall|i: int|
            0 <= i < members.len() ==> whole(#[trigger] member_texts(members)[i]) && member_texts(
                members,
            )[i].len() > 0,
{
    reveal(all_whole);
    assert forall|i: int| 0 <= i < members.len() implies whole(#[trigger] member_texts(members)[i])
        && member_texts(members)[i].len() > 0 by {
        lemma_member_is_whole(members[i].0, members[i].1);
    }
}

/// An object of whole members is a whole value.
pub broadcast proof fn lemma_objects_are_whole(members: Seq<(Seq<char>, Seq<char>)>)
    requires
        all_whole(members),
    ensures
        whole(#[trigger] json_object(members)),
{
    let parts = member_texts(members);
    lemma_member_texts(members);
    assert forall|depth: int| depth >= 0 implies #[trigger] behind(
        at_depth(depth),
        json_object(members),
    ) == at_depth(depth) by {
        let start = at_depth(depth);
        lemma_behind_both(start, seq!['{'] + comma_joined(parts), seq!['}']);
        lemma_behind_both(start, seq!['{'], comma_joined(parts));
        lemma_one(start, '{');
        lemma_joined(depth + 1, parts);
        lemma_one(at_depth(depth + 1), '}');
    }
}

proof fn lemma_joined_front(parts: Seq<Seq<char>>)
    requires
        parts.len() > 1,
    ensures
        comma_joined(parts) == parts[0] + (seq![','] + comma_joined(parts.drop_first())),
    decreases parts.len(),
{
    let rest = parts.drop_first();
    let front = parts.drop_last();
    if parts.len() == 2 {
        assert(comma_joined(front) == parts[0]);
        assert(comma_joined(rest) == parts[1]);
        assert(comma_joined(parts) =~= parts[0] + (seq![','] + parts[1]));
    } else {
        lemma_joined_front(front);
        assert(front.drop_first() =~= rest.drop_last());
        assert(rest.last() == parts.last());
        assert(comma_joined(rest) == comma_joined(rest.drop_last()) + seq![','] + rest.last());
        assert(comma_joined(parts) =~= parts[0] + (seq![','] + comma_joined(rest)));
    }
}

/// Texts of values, each with something in it.
spec fn value_like(parts: Seq<Seq<char>>) -> bool {
    forall|i: int| 0 <= i < parts.len() ==> whole(#[trigger] parts[i]) && parts[i].len() > 0
}

/// A character that closes what holds values.
spec fn closes(c: char) -> bool {
    c == '}' || c == ']'
}

proof fn lemma_values_begin(part: Seq<char>)
    requires
        whole(part),
        part.len() > 0,
    ensures
        !ends_value(part[0]),
{
    if ends_value(part[0]) {
        let start = at_depth(0);
        assert(part =~= seq![part[0]] + part.drop_first());
        lemma_behind_both(start, seq![part[0]], part.drop_first());
        lemma_one(start, part[0]);
        lemma_stays_stopped(behind(start, seq![part[0]]), part.drop_first());
        assert(behind(start, part) == start);
    }
}

proof fn lemma_joined_apart(a: Seq<Seq<char>>, b: Seq<Seq<char>>, end: char)
    requires
        value_like(a),
        value_like(b),
        closes(end),
        comma_joined(a) + seq![end] == comma_joined(b) + seq![end],
    ensures
        a == b,
    decreases a.len(),
{
    let x = comma_joined(a) + seq![end];
    let y = comma_joined(b) + seq![end];
    if a.len() == 0 || b.len() == 0 {
        assert(a.len() == 0 ==> x[0] == end);
        assert(b.len() == 0 ==> y[0] == end);
        if a.len() > 0 {
            lemma_first_of_joined(a, end);
        }
        if b.len() > 0 {
            lemma_first_of_joined(b, end);
        }
        assert(a =~= b);
    } else {
        let a_rest = rest_of_joined(a, end);
        let b_rest = rest_of_joined(b, end);
        lemma_first_and_rest(a, end);
        lemma_first_and_rest(b, end);
        assert(whole(a[0]) && whole(b[0]));
        lemma_values_end(a[0], a_rest, b[0], b_rest);
        if a.len() == 1 || b.len() == 1 {
            assert(a_rest[0] == b_rest[0]);
            assert(a =~= b);
        } else {
            let a_others = a.drop_first();
            let b_others = b.drop_first();
            assert(a_rest.skip(1) =~= comma_joined(a_others) + seq![end]);
            assert(b_rest.skip(1) =~= comma_joined(b_others) + seq![end]);
            assert forall|i: int| 0 <= i < a_others.len() implies whole(#[trigger] a_others[i])
                && a_others[i].len() > 0 by {
                assert(a_others[i] == a[i + 1]);
            }
            assert forall|i: int| 0 <= i < b_others.len() implies whole(#[trigger] b_others[i])
                && b_others[i].len() > 0 by {
                assert(b_others[i] == b[i + 1]);
            }
            lemma_joined_apart(a_others, b_others, end);
            assert(a =~= seq![a[0]] + a_others);
            assert(b =~= seq![b[0]] + b_others);
        }
    }
}

/// What stands behind the first of the values that something holds.
spec fn rest_of_joined(parts: Seq<Seq<char>>, end: char) -> Seq<char> {
    if parts.len() == 1 {
        seq![end]
    } else {
        seq![','] + comma_joined(parts.drop_first()) + seq![end]
    }
}

proof fn lemma_first_and_rest(parts: Seq<Seq<char>>, end: char)
    requires
        parts.len() > 0,
        closes(end),
    ensures
        comma_joined(parts) + seq![end] == parts[0] + rest_of_joined(parts, end),
        rest_of_joined(parts, end).len() > 0,
        ends_value(rest_of_joined(parts, end)[0]),
        rest_of_joined(parts, end)[0] == end <==> parts.len() == 1,
{
    if parts.len() > 1 {
        lemma_joined_front(parts);
        assert(comma_joined(parts) + seq![end] =~= parts[0] + rest_of_joined(parts, end));
    }
}

proof fn lemma_first_of_joined(parts: Seq<Seq<char>>, end: char)
    requires
        parts.len() > 0,
        value_like(parts),
        closes(end),
    ensures
        !ends_value((comma_joined(parts) + seq![end])[0]),
{
    lemma_first_and_rest(parts, end);
    assert(whole(parts[0]) && parts[0].len() > 0);
    lemma_values_begin(parts[0]);
    assert((parts[0] + rest_of_joined(parts, end))[0] == parts[0][0]);
}

proof fn lemma_escapes_apart(a: char, x: Seq<char>, b: char, y: Seq<char>)
    requires
        escaped(a) + x == escaped(b) + y,
    ensures
        a == b,
        x == y,
{
    let s = escaped(a) + x;
    let t = escaped(b) + y;
    assert(s[0] == escaped(a)[0] && t[0] == escaped(b)[0]);
    if escaped(a).len() > 1 && escaped(b).len() > 1 {
        assert(s[1] == escaped(a)[1] && t[1] == escaped(b)[1]);
        if escaped(a).len() > 2 && escaped(b).len() > 2 {
            assert(s[4] == escaped(a)[4] && t[4] == escaped(b)[4]);
            assert(s[5] == escaped(a)[5] && t[5] == escaped(b)[5]);
            lemma_hex_apart(a as int / 16, b as int / 16);
            lemma_hex_apart(a as int % 16, b as int % 16);
            assert(a as int == b as int);
        }
    }
    assert(a == b);
    assert(x =~= s.skip(escaped(a).len() as int));
    assert(y =~= t.skip(escaped(b).len() as int));
}

proof fn lemma_hex_apart(a: int, b: int)
    requires
        0 <= a < 16,
        0 <= b < 16,
    ensures
        hex_char(a) == hex_char(b) ==> a == b,
{
}

proof fn lemma_escaped_front(text: Seq<char>)
    requires
        text.len() > 0,
    ensures
        escaped_text(text) == escaped(text[0]) + escaped_text(text.drop_first()),
    decreases text.len(),
{
    let rest = text.drop_first();
    if text.len() == 1 {
        assert(text.drop_last() =~= Seq::<char>::empty());
        assert(rest =~= Seq::<char>::empty());
        assert(escaped_text(text) =~= escaped(text[0]) + escaped_text(rest));
    } else {
        lemma_escaped_front(text.drop_last());
        assert(text.drop_last().drop_first() =~= rest.drop_last());
        assert(rest.last() == text.last());
        assert(escaped_text(text) =~= escaped(text[0]) + escaped_text(rest));
    }
}

proof fn lemma_escaped_apart(a: Seq<char>, x: Seq<char>, b: Seq<char>, y: Seq<char>)
    requires
        escaped_text(a) + (seq!['"'] + x) == escaped_text(b) + (seq!['"'] + y),
    ensures
        a == b,
        x == y,
    decreases a.len(),
{
    let s = escaped_text(a) + (seq!['"'] + x);
    let t = escaped_text(b) + (seq!['"'] + y);
    if a.len() == 0 || b.len() == 0 {
        if a.len() > 0 {
            lemma_escaped_front(a);
            assert(s[0] == escaped(a[0])[0]);
            assert(t[0] == '"');
        }
        if b.len() > 0 {
            lemma_escaped_front(b);
            assert(t[0] == escaped(b[0])[0]);
            assert(s[0] == '"');
        }
        assert(a =~= b);
        assert(x =~= s.skip(1));
        assert(y =~= t.skip(1));
    } else {
        lemma_escaped_front(a);
        lemma_escaped_front(b);
        let more_a = escaped_text(a.drop_first()) + (seq!['"'] + x);
        let more_b = escaped_text(b.drop_first()) + (seq!['"'] + y);
        assert(s =~= escaped(a[0]) + more_a);
        assert(t =~= escaped(b[0]) + more_b);
        lemma_escapes_apart(a[0], more_a, b[0], more_b);
        lemma_escaped_apart(a.drop_first(), x, b.drop_first(), y);
        assert(a =~= seq![a[0]] + a.drop_first());
        assert(b =~= seq![b[0]] + b.drop_first());
    }
}

proof fn lemma_strings_and_rests(a: Seq<char>, x: Seq<char>, b: Seq<char>, y: Seq<char>)
    requires
        json_string(a) + x == json_string(b) + y,
    ensures
        a == b,
        x == y,
{
    let s = json_string(a) + x;
    let t = json_string(b) + y;
    assert(s.skip(1) =~= escaped_text(a) + (seq!['"'] + x));
    assert(t.skip(1) =~= escaped_text(b) + (seq!['"'] + y));
    lemma_escaped_apart(a, x, b, y);
}

/// A text is written as a string that no other text is written as.
pub broadcast proof fn law_strings_are_told_apart(a: Seq<char>, b: Seq<char>)
    ensures
        #![trigger json_string(a), json_string(b)]
        json_string(a) == json_string(b) <==> a == b,
{
    if json_string(a) == json_string(b) {
        assert(json_string(a) + Seq::<char>::empty() =~= json_string(b) + Seq::<char>::empty());
        lemma_strings_and_rests(a, Seq::empty(), b, Seq::empty());
    }
}

/// An object of whole values is written as no other is: not one with another value, another name,
/// another order, or a member more or less.
pub proof fn law_objects_are_told_apart(
    a: Seq<(Seq<char>, Seq<char>)>,
    b: Seq<(Seq<char>, Seq<char>)>,
)
    requires
        all_whole(a),
        all_whole(b),
        json_object(a) == json_object(b),
    ensures
        a == b,
{
    let s = member_texts(a);
    let t = member_texts(b);
    assert(json_object(a).skip(1) =~= comma_joined(s) + seq!['}']);
    assert(json_object(b).skip(1) =~= comma_joined(t) + seq!['}']);
    lemma_member_texts(a);
    lemma_member_texts(b);
    lemma_joined_apart(s, t, '}');
    assert(s.len() == t.len());
    assert forall|i: int| 0 <= i < a.len() implies a[i] == b[i] by {
        assert(s[i] == t[i]);
        assert(s[i] == json_member(a[i].0, a[i].1));
        assert(t[i] == json_member(b[i].0, b[i].1));
        assert(s[i] =~= json_string(a[i].0) + (seq![':'] + a[i].1));
        assert(t[i] =~= json_string(b[i].0) + (seq![':'] + b[i].1));
        lemma_strings_and_rests(a[i].0, seq![':'] + a[i].1, b[i].0, seq![':'] + b[i].1);
        assert(a[i].1 =~= (seq![':'] + a[i].1).skip(1));
        assert(b[i].1 =~= (seq![':'] + b[i].1).skip(1));
    }
    assert(a =~= b);
}

/// An object of whole values is written as no other is.
pub broadcast proof fn lemma_objects_apart(
    a: Seq<(Seq<char>, Seq<char>)>,
    b: Seq<(Seq<char>, Seq<char>)>,
)
    ensures
        #![trigger json_object(a), json_object(b)]
        all_whole(a) && all_whole(b) && json_object(a) == json_object(b) ==> a == b,
{
    if all_whole(a) && all_whole(b) && json_object(a) == json_object(b) {
        law_objects_are_told_apart(a, b);
    }
}

/// Members under the same names, in the same order, are the same only if each value is.
pub broadcast proof fn lemma_last_members(
    a: Seq<(Seq<char>, Seq<char>)>,
    b: Seq<(Seq<char>, Seq<char>)>,
    m: (Seq<char>, Seq<char>),
    n: (Seq<char>, Seq<char>),
)
    ensures
        #![trigger a.push(m), b.push(n)]
        a.push(m) == b.push(n) ==> a == b && m == n,
{
    if a.push(m) == b.push(n) {
        assert(a.push(m).drop_last() =~= a);
        assert(b.push(n).drop_last() =~= b);
        assert(a.push(m).last() == m && b.push(n).last() == n);
    }
}

proof fn lemma_decimals_apart(a: nat, b: nat)
    requires
        decimal(a) == decimal(b),
    ensures
        a == b,
    decreases a,
{
    lemma_decimal_plain(a);
    lemma_decimal_plain(b);
    if a >= 10 {
        lemma_decimal_plain(a / 10);
    }
    if b >= 10 {
        lemma_decimal_plain(b / 10);
    }
    if a >= 10 && b >= 10 {
        assert(decimal(a).drop_last() =~= decimal(a / 10));
        assert(decimal(b).drop_last() =~= decimal(b / 10));
        assert(decimal(a).last() == digit_char((a % 10) as int));
        assert(decimal(b).last() == digit_char((b % 10) as int));
        lemma_decimals_apart(a / 10, b / 10);
    } else if a < 10 && b < 10 {
        assert(decimal(a)[0] == digit_char(a as int));
        assert(decimal(b)[0] == digit_char(b as int));
    } else {
        assert(decimal(a).len() == decimal(b).len());
    }
}

/// A number is written as no other is.
pub broadcast proof fn law_naturals_are_told_apart(a: nat, b: nat)
    ensures
        #![trigger json_nat(a), json_nat(b)]
        json_nat(a) == json_nat(b) <==> a == b,
{
    if json_nat(a) == json_nat(b) {
        lemma_decimals_apart(a, b);
    }
}

/// A number with a sign is written as no other is.
pub broadcast proof fn law_integers_are_told_apart(a: int, b: int)
    ensures
        #![trigger json_int(a), json_int(b)]
        json_int(a) == json_int(b) <==> a == b,
{
    if json_int(a) == json_int(b) {
        if a >= 0 {
            lemma_decimal_plain(a as nat);
        } else {
            lemma_decimal_plain((-a) as nat);
        }
        if b >= 0 {
            lemma_decimal_plain(b as nat);
        } else {
            lemma_decimal_plain((-b) as nat);
        }
        if a < 0 && b < 0 {
            assert(json_int(a).skip(1) =~= decimal((-a) as nat));
            assert(json_int(b).skip(1) =~= decimal((-b) as nat));
            lemma_decimals_apart((-a) as nat, (-b) as nat);
        } else if a >= 0 && b >= 0 {
            lemma_decimals_apart(a as nat, b as nat);
        } else {
            assert(json_int(a)[0] == json_int(b)[0]);
        }
    }
}

/// What is true is not written as what is false.
pub broadcast proof fn law_truths_are_told_apart(a: bool, b: bool)
    ensures
        #![trigger json_bool(a), json_bool(b)]
        json_bool(a) == json_bool(b) <==> a == b,
{
    reveal_strlit("true");
    reveal_strlit("false");
    assert("true"@.len() != "false"@.len());
}

/// A string that may be absent is written as no other is, and its absence as no string.
pub broadcast proof fn law_optional_strings_are_told_apart(
    a: Option<Seq<char>>,
    b: Option<Seq<char>>,
)
    ensures
        #![trigger json_optional_string(a), json_optional_string(b)]
        json_optional_string(a) == json_optional_string(b) <==> a == b,
{
    reveal_strlit("null");
    if json_optional_string(a) == json_optional_string(b) {
        assert(a is Some ==> json_optional_string(a)[0] == '"');
        assert(b is Some ==> json_optional_string(b)[0] == '"');
        assert(json_null()[0] == 'n');
        if a is Some && b is Some {
            law_strings_are_told_apart(a->0, b->0);
        }
    }
}

/// A number that may be absent is written as no other is, and its absence as no number.
pub broadcast proof fn law_optional_naturals_are_told_apart(a: Option<nat>, b: Option<nat>)
    ensures
        #![trigger json_optional_nat(a), json_optional_nat(b)]
        json_optional_nat(a) == json_optional_nat(b) <==> a == b,
{
    reveal_strlit("null");
    if json_optional_nat(a) == json_optional_nat(b) {
        if a is Some {
            lemma_decimal_plain(a->0);
        }
        if b is Some {
            lemma_decimal_plain(b->0);
        }
        assert(json_null()[0] == 'n');
        if a is Some && b is Some {
            law_naturals_are_told_apart(a->0, b->0);
        } else if a is Some || b is Some {
            assert(json_optional_nat(a)[0] == json_optional_nat(b)[0]);
        }
    }
}

/// A number with a sign that may be absent is written as no other is, and its absence as no number.
pub broadcast proof fn law_optional_integers_are_told_apart(a: Option<int>, b: Option<int>)
    ensures
        #![trigger json_optional_int(a), json_optional_int(b)]
        json_optional_int(a) == json_optional_int(b) <==> a == b,
{
    reveal_strlit("null");
    if json_optional_int(a) == json_optional_int(b) {
        if a is Some {
            lemma_integer_begins(a->0);
        }
        if b is Some {
            lemma_integer_begins(b->0);
        }
        assert(json_null()[0] == 'n');
        if a is Some && b is Some {
            law_integers_are_told_apart(a->0, b->0);
        } else if a is Some || b is Some {
            assert(json_optional_int(a)[0] == json_optional_int(b)[0]);
        }
    }
}

proof fn lemma_integer_begins(n: int)
    ensures
        json_int(n).len() > 0,
        json_int(n)[0] == '-' || '0' <= json_int(n)[0] <= '9',
{
    if n < 0 {
        lemma_decimal_plain((-n) as nat);
    } else {
        lemma_decimal_plain(n as nat);
    }
}

/// Something is written of every number.
pub proof fn lemma_numbers_begin(n: nat, m: int)
    ensures
        json_nat(n).len() > 0,
        json_int(m).len() > 0,
{
    lemma_decimal_plain(n);
    lemma_integer_begins(m);
}

/// An object begins with its bracket.
pub broadcast proof fn lemma_objects_begin(members: Seq<(Seq<char>, Seq<char>)>)
    ensures
        (#[trigger] json_object(members)).len() > 0,
        json_object(members)[0] == '{',
{
}

/// An object that may be absent is written as no other is, and its absence as no object.
pub broadcast proof fn law_optional_objects_are_told_apart(
    a: Option<Seq<char>>,
    b: Option<Seq<char>>,
)
    requires
        a matches Some(x) ==> x.len() > 0 && x[0] == '{',
        b matches Some(y) ==> y.len() > 0 && y[0] == '{',
    ensures
        #![trigger json_optional(a), json_optional(b)]
        json_optional(a) == json_optional(b) <==> a == b,
{
    reveal_strlit("null");
    assert(json_null()[0] == 'n');
}

/// A list of values is written as no other is: not one with another value, or with one more or less.
pub proof fn law_lists_are_told_apart(a: Seq<Seq<char>>, b: Seq<Seq<char>>)
    requires
        forall|i: int| 0 <= i < a.len() ==> whole(#[trigger] a[i]) && a[i].len() > 0,
        forall|i: int| 0 <= i < b.len() ==> whole(#[trigger] b[i]) && b[i].len() > 0,
        json_array(a) == json_array(b),
    ensures
        a == b,
{
    assert(json_array(a).skip(1) =~= comma_joined(a) + seq![']']);
    assert(json_array(b).skip(1) =~= comma_joined(b) + seq![']']);
    lemma_joined_apart(a, b, ']');
}

/// A list of strings is written as no other is.
pub broadcast proof fn law_string_lists_are_told_apart(a: Seq<Seq<char>>, b: Seq<Seq<char>>)
    ensures
        #![trigger json_strings(a), json_strings(b)]
        json_strings(a) == json_strings(b) <==> a == b,
{
    if json_strings(a) == json_strings(b) {
        let s = a.map_values(|item: Seq<char>| json_string(item));
        let t = b.map_values(|item: Seq<char>| json_string(item));
        assert forall|i: int| 0 <= i < s.len() implies whole(#[trigger] s[i]) && s[i].len() > 0 by {
            lemma_strings_are_whole(a[i]);
        }
        assert forall|i: int| 0 <= i < t.len() implies whole(#[trigger] t[i]) && t[i].len() > 0 by {
            lemma_strings_are_whole(b[i]);
        }
        law_lists_are_told_apart(s, t);
        assert(s.len() == t.len());
        assert forall|i: int| 0 <= i < a.len() implies a[i] == b[i] by {
            assert(s[i] == t[i]);
            assert(s[i] == json_string(a[i]) && t[i] == json_string(b[i]));
            law_strings_are_told_apart(a[i], b[i]);
        }
        assert(a =~= b);
    }
}

proof fn lemma_hyphenated(a: Seq<char>, b: Seq<char>)
    requires
        a.len() == 32,
        b.len() == 32,
        hyphenated(a) == hyphenated(b),
    ensures
        a == b,
{
    let s = hyphenated(a);
    let t = hyphenated(b);
    assert(s.subrange(0, 8) =~= a.subrange(0, 8));
    assert(t.subrange(0, 8) =~= b.subrange(0, 8));
    assert(s.subrange(9, 13) =~= a.subrange(8, 12));
    assert(t.subrange(9, 13) =~= b.subrange(8, 12));
    assert(s.subrange(14, 18) =~= a.subrange(12, 16));
    assert(t.subrange(14, 18) =~= b.subrange(12, 16));
    assert(s.subrange(19, 23) =~= a.subrange(16, 20));
    assert(t.subrange(19, 23) =~= b.subrange(16, 20));
    assert(s.subrange(24, 36) =~= a.subrange(20, 32));
    assert(t.subrange(24, 36) =~= b.subrange(20, 32));
    assert(a =~= a.subrange(0, 8) + a.subrange(8, 12) + a.subrange(12, 16) + a.subrange(16, 20)
        + a.subrange(20, 32));
    assert(b =~= b.subrange(0, 8) + b.subrange(8, 12) + b.subrange(12, 16) + b.subrange(16, 20)
        + b.subrange(20, 32));
}

/// An identifier is written as no other is.
pub broadcast proof fn law_identifiers_are_told_apart(a: Uuid, b: Uuid)
    ensures
        #![trigger a.text(), b.text()]
        a.text() == b.text() <==> a == b,
{
    if a.text() == b.text() {
        let x = big_endian(a@);
        let y = big_endian(b@);
        lemma_hyphenated(hex(x), hex(y));
        assert forall|k: int| 0 <= k < 16 implies x[k] == y[k] by {
            assert(hex(x)[2 * k] == hex_char((x[k] / 16) as int));
            assert(hex(y)[2 * k] == hex_char((y[k] / 16) as int));
            assert(hex(x)[2 * k + 1] == hex_char((x[k] % 16) as int));
            assert(hex(y)[2 * k + 1] == hex_char((y[k] % 16) as int));
            lemma_hex_apart((x[k] / 16) as int, (y[k] / 16) as int);
            lemma_hex_apart((x[k] % 16) as int, (y[k] % 16) as int);
        }
        assert(x =~= y);
        lemma_big_endian_injective(a, b);
    }
}

/// What is written of any value is whole.
pub broadcast group group_whole_values {
    lemma_strings_are_whole,
    lemma_naturals_are_whole,
    lemma_integers_are_whole,
    lemma_truths_are_whole,
    lemma_optionals_are_whole,
    lemma_optional_strings_are_whole,
    lemma_optional_naturals_are_whole,
    lemma_optional_integers_are_whole,
    lemma_string_lists_are_whole,
    lemma_no_members_are_whole,
    lemma_more_members_are_whole,
    lemma_objects_are_whole,
}

/// What is written of any value is written of no other.
pub broadcast group group_values_apart {
    law_strings_are_told_apart,
    law_naturals_are_told_apart,
    law_integers_are_told_apart,
    law_truths_are_told_apart,
    law_optional_strings_are_told_apart,
    law_optional_naturals_are_told_apart,
    law_optional_integers_are_told_apart,
    law_optional_objects_are_told_apart,
    law_string_lists_are_told_apart,
    lemma_objects_begin,
    law_identifiers_are_told_apart,
    lemma_objects_apart,
    lemma_last_members,
}

} // verus!
