//! Documents as JSON text, and their canonical bytes.
//!
//! A document is written member by member into plain JSON text. The canonical bytes of a document
//! are what the JSON Canonicalization Scheme makes of that text, so neither the order of the
//! members nor the choice among escapes matters to them.

use vstd::prelude::*;
use crate::text::{
    decimal, decimal_text, hex_char, hex_digit, push_char, same_bytes, signed_decimal,
    signed_decimal_text, text_option,
};

verus! {

/// The error of `serde_json`, which `serde_jcs` shares.
#[verifier::external_type_specification]
#[verifier::external_body]
pub struct ExSerdeJsonError(serde_json::Error);

/// The canonical bytes of a JSON text, or `None` where the text is not JSON.
pub uninterp spec fn jcs(text: Seq<char>) -> Option<Seq<u8>>;

/// Reads a JSON text with `serde_json::from_str` and writes the value with `serde_jcs::to_vec`.
/// The outcome depends on the text alone; which of the two calls refused a text is not told.
#[verifier::external_body]
fn canonicalize(text: &str) -> (r: Result<Vec<u8>, serde_json::Error>)
    ensures
        match r {
            Ok(bytes) => jcs(text@) == Some(bytes@),
            Err(_) => jcs(text@) is None,
        },
{
    let value: serde_json::Value = serde_json::from_str(text)?;
    serde_jcs::to_vec(&value)
}

/// A document could not be brought into its canonical form.
#[derive(Clone, Copy, Debug, PartialEq, Eq, Structural)]
pub struct EncodingError;

/// The canonical bytes of a JSON text.
pub fn canonical_bytes(text: &str) -> (r: Result<Vec<u8>, EncodingError>)
    ensures
        match r {
            Ok(bytes) => jcs(text@) == Some(bytes@),
            Err(_) => jcs(text@) is None,
        },
{
    match canonicalize(text) {
        Ok(bytes) => Ok(bytes),
        Err(_) => Err(EncodingError),
    }
}

/// Whether the canonical bytes of a JSON text are the given bytes.
pub fn is_canonical(text: &str, bytes: &[u8]) -> (r: Result<bool, EncodingError>)
    ensures
        match r {
            Ok(same) => jcs(text@) is Some && same == (jcs(text@) == Some(bytes@)),
            Err(_) => jcs(text@) is None,
        },
{
    match canonical_bytes(text) {
        Ok(canonical) => Ok(same_bytes(canonical.as_slice(), bytes)),
        Err(error) => Err(error),
    }
}

/// How one character stands inside a JSON string.
pub open spec fn escaped(c: char) -> Seq<char> {
    if c == '"' {
        seq!['\\', '"']
    } else if c == '\\' {
        seq!['\\', '\\']
    } else if (c as int) < 0x20 {
        seq!['\\', 'u', '0', '0', hex_char(c as int / 16), hex_char(c as int % 16)]
    } else {
        seq![c]
    }
}

/// The characters between the quotes of a JSON string.
pub open spec fn escaped_text(text: Seq<char>) -> Seq<char>
    decreases text.len(),
{
    if text.len() == 0 {
        seq![]
    } else {
        escaped_text(text.drop_last()) + escaped(text.last())
    }
}

pub open spec fn json_string(text: Seq<char>) -> Seq<char> {
    seq!['"'] + escaped_text(text) + seq!['"']
}

pub open spec fn json_nat(n: nat) -> Seq<char> {
    decimal(n)
}

pub open spec fn json_int(n: int) -> Seq<char> {
    signed_decimal(n)
}

pub open spec fn json_bool(b: bool) -> Seq<char> {
    if b {
        "true"@
    } else {
        "false"@
    }
}

pub open spec fn json_null() -> Seq<char> {
    "null"@
}

/// An optional value, `null` where it is absent.
pub open spec fn json_optional(value: Option<Seq<char>>) -> Seq<char> {
    match value {
        Some(text) => text,
        None => json_null(),
    }
}

pub open spec fn json_optional_string(value: Option<Seq<char>>) -> Seq<char> {
    match value {
        Some(text) => json_string(text),
        None => json_null(),
    }
}

pub open spec fn json_optional_nat(value: Option<nat>) -> Seq<char> {
    match value {
        Some(n) => json_nat(n),
        None => json_null(),
    }
}

pub open spec fn json_optional_int(value: Option<int>) -> Seq<char> {
    match value {
        Some(n) => json_int(n),
        None => json_null(),
    }
}

/// An optional number as an integer.
pub open spec fn int_option(value: Option<i64>) -> Option<int> {
    match value {
        Some(n) => Some(n as int),
        None => None,
    }
}

/// The characters of an optional text.
pub open spec fn str_option(value: Option<&str>) -> Option<Seq<char>> {
    match value {
        Some(text) => Some(text@),
        None => None,
    }
}

/// An optional number as a natural number.
pub open spec fn nat_option(value: Option<u64>) -> Option<nat> {
    match value {
        Some(n) => Some(n as nat),
        None => None,
    }
}

/// An optional text as a reference.
pub fn optional_str(value: &Option<String>) -> (r: Option<&str>)
    ensures
        str_option(r) == text_option(*value),
{
    match value {
        Some(text) => Some(text.as_str()),
        None => None,
    }
}

/// Texts with commas between them.
pub open spec fn comma_joined(parts: Seq<Seq<char>>) -> Seq<char>
    decreases parts.len(),
{
    if parts.len() == 0 {
        seq![]
    } else if parts.len() == 1 {
        parts[0]
    } else {
        comma_joined(parts.drop_last()) + seq![','] + parts.last()
    }
}

pub open spec fn json_member(name: Seq<char>, value: Seq<char>) -> Seq<char> {
    json_string(name) + seq![':'] + value
}

/// The members of an object that has none.
pub open spec fn no_members() -> Seq<(Seq<char>, Seq<char>)> {
    Seq::empty()
}

/// A JSON object from its members, each a name and the text of its value.
pub open spec fn json_object(members: Seq<(Seq<char>, Seq<char>)>) -> Seq<char> {
    seq!['{'] + comma_joined(
        members.map_values(|m: (Seq<char>, Seq<char>)| json_member(m.0, m.1)),
    ) + seq!['}']
}

/// A JSON array from the texts of its items.
pub open spec fn json_array(items: Seq<Seq<char>>) -> Seq<char> {
    seq!['['] + comma_joined(items) + seq![']']
}

/// A JSON array of strings.
pub open spec fn json_strings(items: Seq<Seq<char>>) -> Seq<char> {
    json_array(items.map_values(|item: Seq<char>| json_string(item)))
}

/// Writes a text as a JSON string.
pub fn quoted(text: &str) -> (r: String)
    ensures
        r@ == json_string(text@),
{
    let mut out = String::new();
    push_char(&mut out, '"');
    assert(out@ =~= seq!['"'] + escaped_text(text@.take(0)));
    for c in it: text.chars()
        invariant
            out@ == seq!['"'] + escaped_text(text@.take(it.index())),
            it.seq() == text@,
    {
        let ghost before = text@.take(it.index());
        let ghost so_far = out@;
        push_escaped(&mut out, c);
        proof {
            let after = text@.take(it.index() + 1);
            assert(after.drop_last() =~= before);
            assert(after.last() == c);
            assert(out@ =~= seq!['"'] + (escaped_text(before) + escaped(c)));
        }
    }
    assert(text@.take(text@.len() as int) =~= text@);
    push_char(&mut out, '"');
    assert(out@ =~= json_string(text@));
    out
}

fn push_escaped(out: &mut String, c: char)
    ensures
        final(out)@ == old(out)@ + escaped(c),
{
    let code: u32 = c as u32;
    if c == '"' {
        push_char(out, '\\');
        push_char(out, '"');
    } else if c == '\\' {
        push_char(out, '\\');
        push_char(out, '\\');
    } else if code < 0x20 {
        push_char(out, '\\');
        push_char(out, 'u');
        push_char(out, '0');
        push_char(out, '0');
        push_char(out, hex_digit((code / 16) as u8));
        push_char(out, hex_digit((code % 16) as u8));
    } else {
        push_char(out, c);
    }
    assert(out@ =~= old(out)@ + escaped(c));
}

/// Whatever follows a list of texts follows it after a comma, unless the list is empty.
proof fn lemma_comma_joined_push(parts: Seq<Seq<char>>, part: Seq<char>)
    ensures
        parts.len() == 0 ==> comma_joined(parts.push(part)) == part,
        parts.len() > 0 ==> comma_joined(parts.push(part)) == comma_joined(parts) + seq![',']
            + part,
{
    assert(parts.push(part).drop_last() =~= parts);
}

/// A JSON array being written.
pub struct JsonArray {
    body: String,
    empty: bool,
    items: Ghost<Seq<Seq<char>>>,
}

impl View for JsonArray {
    type V = Seq<Seq<char>>;

    closed spec fn view(&self) -> Seq<Seq<char>> {
        self.items@
    }
}

impl JsonArray {
    pub closed spec fn wf(&self) -> bool {
        self.body@ == comma_joined(self.items@) && self.empty == (self.items@.len() == 0)
    }

    pub fn new() -> (r: JsonArray)
        ensures
            r.wf(),
            r@ == Seq::<Seq<char>>::empty(),
    {
        let body = String::new();
        assert(body@ =~= comma_joined(Seq::<Seq<char>>::empty()));
        JsonArray { body, empty: true, items: Ghost(Seq::empty()) }
    }

    /// Adds an item that is JSON text already.
    pub fn raw(&mut self, item: &str)
        requires
            old(self).wf(),
        ensures
            final(self).wf(),
            final(self)@ == old(self)@.push(item@),
    {
        let ghost before = self.items@;
        if !self.empty {
            push_char(&mut self.body, ',');
        }
        self.body.append(item);
        self.empty = false;
        self.items = Ghost(before.push(item@));
        proof {
            lemma_comma_joined_push(before, item@);
            assert(self.body@ =~= comma_joined(before.push(item@)));
        }
    }

    pub fn text(&mut self, item: &str)
        requires
            old(self).wf(),
        ensures
            final(self).wf(),
            final(self)@ == old(self)@.push(json_string(item@)),
    {
        let item = quoted(item);
        self.raw(item.as_str());
    }

    pub fn number(&mut self, item: u64)
        requires
            old(self).wf(),
        ensures
            final(self).wf(),
            final(self)@ == old(self)@.push(json_nat(item as nat)),
    {
        let item = decimal_text(item);
        self.raw(item.as_str());
    }

    pub fn signed(&mut self, item: i64)
        requires
            old(self).wf(),
        ensures
            final(self).wf(),
            final(self)@ == old(self)@.push(json_int(item as int)),
    {
        let item = signed_decimal_text(item);
        self.raw(item.as_str());
    }

    pub fn finish(self) -> (r: String)
        requires
            self.wf(),
        ensures
            r@ == json_array(self@),
    {
        let mut out = String::new();
        push_char(&mut out, '[');
        out.append(self.body.as_str());
        push_char(&mut out, ']');
        assert(out@ =~= json_array(self@));
        out
    }
}

/// A JSON object being written.
pub struct JsonObject {
    list: JsonArray,
    members: Ghost<Seq<(Seq<char>, Seq<char>)>>,
}

impl View for JsonObject {
    type V = Seq<(Seq<char>, Seq<char>)>;

    closed spec fn view(&self) -> Seq<(Seq<char>, Seq<char>)> {
        self.members@
    }
}

impl JsonObject {
    pub closed spec fn wf(&self) -> bool {
        self.list.wf() && self.list@ == self.members@.map_values(
            |m: (Seq<char>, Seq<char>)| json_member(m.0, m.1),
        )
    }

    pub fn new() -> (r: JsonObject)
        ensures
            r.wf(),
            r@ == no_members(),
    {
        let list = JsonArray::new();
        let r = JsonObject { list, members: Ghost(Seq::empty()) };
        assert(r.list@ =~= r.members@.map_values(
            |m: (Seq<char>, Seq<char>)| json_member(m.0, m.1),
        ));
        r
    }

    /// Adds a member whose value is JSON text already.
    pub fn raw(&mut self, name: &str, value: &str)
        requires
            old(self).wf(),
        ensures
            final(self).wf(),
            final(self)@ == old(self)@.push((name@, value@)),
    {
        let ghost before = self.members@;
        let mut member = quoted(name);
        push_char(&mut member, ':');
        member.append(value);
        assert(member@ =~= json_member(name@, value@));
        self.list.raw(member.as_str());
        self.members = Ghost(before.push((name@, value@)));
        assert(self.list@ =~= self.members@.map_values(
            |m: (Seq<char>, Seq<char>)| json_member(m.0, m.1),
        ));
    }

    pub fn text(&mut self, name: &str, value: &str)
        requires
            old(self).wf(),
        ensures
            final(self).wf(),
            final(self)@ == old(self)@.push((name@, json_string(value@))),
    {
        let value = quoted(value);
        self.raw(name, value.as_str());
    }

    pub fn optional_text(&mut self, name: &str, value: Option<&str>)
        requires
            old(self).wf(),
        ensures
            final(self).wf(),
            final(self)@ == old(self)@.push(
                (
                    name@,
                    json_optional_string(str_option(value)),
                ),
            ),
    {
        match value {
            Some(value) => self.text(name, value),
            None => self.raw(name, "null"),
        }
    }

    pub fn number(&mut self, name: &str, value: u64)
        requires
            old(self).wf(),
        ensures
            final(self).wf(),
            final(self)@ == old(self)@.push((name@, json_nat(value as nat))),
    {
        let value = decimal_text(value);
        self.raw(name, value.as_str());
    }

    pub fn optional_number(&mut self, name: &str, value: Option<u64>)
        requires
            old(self).wf(),
        ensures
            final(self).wf(),
            final(self)@ == old(self)@.push(
                (
                    name@,
                    json_optional_nat(nat_option(value)),
                ),
            ),
    {
        match value {
            Some(value) => self.number(name, value),
            None => self.raw(name, "null"),
        }
    }

    pub fn signed(&mut self, name: &str, value: i64)
        requires
            old(self).wf(),
        ensures
            final(self).wf(),
            final(self)@ == old(self)@.push((name@, json_int(value as int))),
    {
        let value = signed_decimal_text(value);
        self.raw(name, value.as_str());
    }

    pub fn optional_signed(&mut self, name: &str, value: Option<i64>)
        requires
            old(self).wf(),
        ensures
            final(self).wf(),
            final(self)@ == old(self)@.push((name@, json_optional_int(int_option(value)))),
    {
        match value {
            Some(value) => self.signed(name, value),
            None => self.raw(name, "null"),
        }
    }

    pub fn boolean(&mut self, name: &str, value: bool)
        requires
            old(self).wf(),
        ensures
            final(self).wf(),
            final(self)@ == old(self)@.push((name@, json_bool(value))),
    {
        if value {
            self.raw(name, "true");
        } else {
            self.raw(name, "false");
        }
    }

    pub fn finish(self) -> (r: String)
        requires
            self.wf(),
        ensures
            r@ == json_object(self@),
    {
        let mut out = String::new();
        push_char(&mut out, '{');
        out.append(self.list.body.as_str());
        push_char(&mut out, '}');
        assert(out@ =~= json_object(self@));
        out
    }
}

} // verus!
