//! Text as the rest of the library reads it: characters, UTF-8 bytes, byte classes, byte order,
//! decimal and hexadecimal digits.

use vstd::prelude::*;
use vstd::utf8::{encode_utf8, decode_utf8, encode_utf8_decode_utf8};

verus! {

/// The UTF-8 bytes of a text.
pub open spec fn utf8(text: Seq<char>) -> Seq<u8> {
    encode_utf8(text)
}

/// Appends one character: `String::push`, which leaves everything before it as it was.
#[verifier::external_body]
pub(crate) fn push_char(out: &mut String, c: char)
    ensures
        final(out)@ == old(out)@.push(c),
{
    out.push(c);
}

/// Two texts with the same bytes are the same text.
pub proof fn lemma_utf8_injective(a: Seq<char>, b: Seq<char>)
    requires
        utf8(a) == utf8(b),
    ensures
        a == b,
{
    encode_utf8_decode_utf8(a);
    encode_utf8_decode_utf8(b);
    assert(decode_utf8(utf8(a)) == decode_utf8(utf8(b)));
}

/// The bytes of two texts put together are their bytes put together.
pub proof fn lemma_utf8_concat(a: Seq<char>, b: Seq<char>)
    ensures
        utf8(a + b) == utf8(a) + utf8(b),
    decreases a.len(),
{
    if a.len() == 0 {
        assert(a + b =~= b);
        assert(utf8(a) + utf8(b) =~= utf8(b));
    } else {
        assert((a + b).drop_first() =~= a.drop_first() + b);
        lemma_utf8_concat(a.drop_first(), b);
        assert(utf8(a + b) =~= utf8(a) + utf8(b));
    }
}

/// Whether two byte strings are equal.
pub fn same_bytes(a: &[u8], b: &[u8]) -> (same: bool)
    ensures
        same == (a@ == b@),
{
    if a.len() != b.len() {
        return false;
    }
    let mut i: usize = 0;
    while i < a.len()
        invariant
            i <= a.len(),
            a.len() == b.len(),
            forall|k: int| 0 <= k < i ==> a@[k] == b@[k],
        decreases a.len() - i,
    {
        if a[i] != b[i] {
            assert(a@[i as int] != b@[i as int]);
            return false;
        }
        i += 1;
    }
    assert(a@ =~= b@);
    true
}

/// Whether two texts are equal.
pub fn same_text(a: &str, b: &str) -> (same: bool)
    ensures
        same == (a@ == b@),
{
    let same = same_bytes(a.as_bytes(), b.as_bytes());
    proof {
        if same {
            lemma_utf8_injective(a@, b@);
        }
    }
    same
}

/// The characters of an optional text.
pub open spec fn text_option(value: Option<String>) -> Option<Seq<char>> {
    match value {
        Some(text) => Some(text@),
        None => None,
    }
}

/// The characters of each text of a list.
pub open spec fn texts(values: Seq<String>) -> Seq<Seq<char>> {
    values.map_values(|value: String| value@)
}

/// The classes of bytes that identifiers are made of.
#[derive(Clone, Copy, Debug, PartialEq, Eq, Structural)]
pub enum ByteClass {
    /// Visible ASCII: letters, digits and punctuation.
    Graphic,
    /// Lowercase hexadecimal digits.
    LowerHex,
    /// Lowercase letters and digits.
    LowerAlphanumeric,
    /// Lowercase letters, digits and hyphens.
    Slug,
    /// Lowercase letters, digits, hyphens, underscores and dots.
    LowerToken,
    /// Letters, digits, hyphens, underscores and dots.
    Token,
    /// Letters, digits, hyphens, underscores, dots, colons and slashes.
    Path,
    /// Decimal digits.
    Digit,
}

pub open spec fn is_lower(b: u8) -> bool {
    0x61 <= b <= 0x7a
}

pub open spec fn is_upper(b: u8) -> bool {
    0x41 <= b <= 0x5a
}

pub open spec fn is_digit(b: u8) -> bool {
    0x30 <= b <= 0x39
}

pub open spec fn is_alphanumeric(b: u8) -> bool {
    is_lower(b) || is_upper(b) || is_digit(b)
}

impl ByteClass {
    pub open spec fn has(self, b: u8) -> bool {
        match self {
            ByteClass::Graphic => 0x21 <= b <= 0x7e,
            ByteClass::LowerHex => is_digit(b) || 0x61 <= b <= 0x66,
            ByteClass::LowerAlphanumeric => is_lower(b) || is_digit(b),
            ByteClass::Slug => is_lower(b) || is_digit(b) || b == 0x2d,
            ByteClass::LowerToken => is_lower(b) || is_digit(b) || b == 0x2d || b == 0x5f || b
                == 0x2e,
            ByteClass::Token => is_alphanumeric(b) || b == 0x2d || b == 0x5f || b == 0x2e,
            ByteClass::Path => is_alphanumeric(b) || b == 0x2d || b == 0x5f || b == 0x2e || b
                == 0x3a || b == 0x2f,
            ByteClass::Digit => is_digit(b),
        }
    }

    pub fn contains(self, b: u8) -> (r: bool)
        ensures
            r == self.has(b),
    {
        let lower = 0x61 <= b && b <= 0x7a;
        let upper = 0x41 <= b && b <= 0x5a;
        let digit = 0x30 <= b && b <= 0x39;
        match self {
            ByteClass::Graphic => 0x21 <= b && b <= 0x7e,
            ByteClass::LowerHex => digit || (0x61 <= b && b <= 0x66),
            ByteClass::LowerAlphanumeric => lower || digit,
            ByteClass::Slug => lower || digit || b == 0x2d,
            ByteClass::LowerToken => lower || digit || b == 0x2d || b == 0x5f || b == 0x2e,
            ByteClass::Token => lower || upper || digit || b == 0x2d || b == 0x5f || b == 0x2e,
            ByteClass::Path => lower || upper || digit || b == 0x2d || b == 0x5f || b == 0x2e || b
                == 0x3a || b == 0x2f,
            ByteClass::Digit => digit,
        }
    }
}

/// Every byte is of the class.
pub open spec fn all_of(bytes: Seq<u8>, class: ByteClass) -> bool {
    forall|i: int| 0 <= i < bytes.len() ==> class.has(#[trigger] bytes[i])
}

/// A text of `least` to `most` bytes, all of one class.
pub open spec fn bounded_token(text: Seq<char>, class: ByteClass, least: int, most: int) -> bool {
    least <= utf8(text).len() <= most && all_of(utf8(text), class)
}

/// Whether every byte is of the class.
pub fn every_byte(bytes: &[u8], class: ByteClass) -> (r: bool)
    ensures
        r == all_of(bytes@, class),
{
    let mut i: usize = 0;
    while i < bytes.len()
        invariant
            i <= bytes.len(),
            forall|k: int| 0 <= k < i ==> class.has(#[trigger] bytes@[k]),
        decreases bytes.len() - i,
    {
        if !class.contains(bytes[i]) {
            assert(!class.has(bytes@[i as int]));
            return false;
        }
        i += 1;
    }
    true
}

/// Whether a text has `least` to `most` bytes, all of one class.
pub fn is_bounded_token(text: &str, class: ByteClass, least: usize, most: usize) -> (r: bool)
    ensures
        r == bounded_token(text@, class, least as int, most as int),
{
    let bytes = text.as_bytes();
    least <= bytes.len() && bytes.len() <= most && every_byte(bytes, class)
}

/// Byte order: the first differing byte decides, and a proper prefix comes first.
pub open spec fn bytes_before(a: Seq<u8>, b: Seq<u8>) -> bool
    decreases b.len(),
{
    if b.len() == 0 {
        false
    } else if a.len() == 0 {
        true
    } else if a[0] != b[0] {
        a[0] < b[0]
    } else {
        bytes_before(a.drop_first(), b.drop_first())
    }
}

/// The order of texts, which is the order of their bytes.
pub open spec fn text_before(a: Seq<char>, b: Seq<char>) -> bool {
    bytes_before(utf8(a), utf8(b))
}

proof fn lemma_bytes_before_skip(a: Seq<u8>, b: Seq<u8>, n: int)
    requires
        0 <= n <= a.len(),
        n <= b.len(),
        a.take(n) == b.take(n),
    ensures
        bytes_before(a, b) == bytes_before(a.skip(n), b.skip(n)),
    decreases n,
{
    if n == 0 {
        assert(a.skip(0) =~= a);
        assert(b.skip(0) =~= b);
    } else {
        assert(a.take(n)[0] == a[0]);
        assert(b.take(n)[0] == b[0]);
        assert(a.drop_first().take(n - 1) =~= a.take(n).drop_first());
        assert(b.drop_first().take(n - 1) =~= b.take(n).drop_first());
        lemma_bytes_before_skip(a.drop_first(), b.drop_first(), n - 1);
        assert(a.drop_first().skip(n - 1) =~= a.skip(n));
        assert(b.drop_first().skip(n - 1) =~= b.skip(n));
    }
}

/// Whether one byte string comes before another.
pub fn is_bytes_before(a: &[u8], b: &[u8]) -> (r: bool)
    ensures
        r == bytes_before(a@, b@),
{
    let mut i: usize = 0;
    while i < a.len() && i < b.len() && a[i] == b[i]
        invariant
            i <= a.len(),
            i <= b.len(),
            a@.take(i as int) == b@.take(i as int),
        decreases a.len() - i,
    {
        proof {
            assert(a@.take(i + 1) =~= a@.take(i as int).push(a@[i as int]));
            assert(b@.take(i + 1) =~= b@.take(i as int).push(b@[i as int]));
        }
        i += 1;
    }
    proof {
        lemma_bytes_before_skip(a@, b@, i as int);
    }
    if i >= b.len() {
        false
    } else if i >= a.len() {
        true
    } else {
        proof {
            assert(a@.skip(i as int)[0] == a@[i as int]);
            assert(b@.skip(i as int)[0] == b@[i as int]);
        }
        a[i] < b[i]
    }
}

/// Whether one text comes before another.
pub fn is_text_before(a: &str, b: &str) -> (r: bool)
    ensures
        r == text_before(a@, b@),
{
    is_bytes_before(a.as_bytes(), b.as_bytes())
}

/// Nothing comes before itself.
pub proof fn lemma_bytes_before_irreflexive(a: Seq<u8>)
    ensures
        !bytes_before(a, a),
    decreases a.len(),
{
    if a.len() > 0 {
        lemma_bytes_before_irreflexive(a.drop_first());
    }
}

/// What comes before a second, which comes before a third, comes before the third.
pub proof fn lemma_bytes_before_transitive(a: Seq<u8>, b: Seq<u8>, c: Seq<u8>)
    requires
        bytes_before(a, b),
        bytes_before(b, c),
    ensures
        bytes_before(a, c),
    decreases a.len(),
{
    if a.len() > 0 && a[0] == b[0] && b[0] == c[0] {
        lemma_bytes_before_transitive(a.drop_first(), b.drop_first(), c.drop_first());
    }
}

/// Of two different byte strings one comes before the other.
pub proof fn lemma_bytes_before_total(a: Seq<u8>, b: Seq<u8>)
    ensures
        a == b || bytes_before(a, b) || bytes_before(b, a),
    decreases a.len(),
{
    if a.len() > 0 && b.len() > 0 && a[0] == b[0] {
        lemma_bytes_before_total(a.drop_first(), b.drop_first());
        if a.drop_first() == b.drop_first() {
            assert(a =~= seq![a[0]] + a.drop_first());
            assert(b =~= seq![b[0]] + b.drop_first());
        }
    } else if a.len() == 0 && b.len() == 0 {
        assert(a =~= b);
    }
}

/// Of two texts at most one comes before the other.
pub proof fn lemma_text_before_asymmetric(a: Seq<char>, b: Seq<char>)
    requires
        text_before(a, b),
    ensures
        !text_before(b, a),
        a != b,
{
    lemma_bytes_before_irreflexive(utf8(a));
    if text_before(b, a) {
        lemma_bytes_before_transitive(utf8(a), utf8(b), utf8(a));
    }
}

/// A text that does not come before a second, which does not come before a third, does not come
/// before the third.
pub proof fn lemma_text_not_before_transitive(a: Seq<char>, b: Seq<char>, c: Seq<char>)
    requires
        !text_before(a, b),
        !text_before(b, c),
    ensures
        !text_before(a, c),
        a == c ==> b == a,
{
    lemma_bytes_before_total(utf8(a), utf8(b));
    lemma_bytes_before_total(utf8(b), utf8(c));
    if utf8(a) == utf8(b) {
        lemma_utf8_injective(a, b);
    }
    if utf8(b) == utf8(c) {
        lemma_utf8_injective(b, c);
    }
    if a != b && b != c {
        lemma_bytes_before_transitive(utf8(c), utf8(b), utf8(a));
        lemma_text_before_asymmetric(c, a);
    } else if a != b {
        lemma_text_before_asymmetric(b, a);
    } else if b != c {
        lemma_text_before_asymmetric(c, b);
    }
}

/// The character of a decimal digit.
pub open spec fn digit_char(n: int) -> char {
    (0x30 + n) as char
}

/// A natural number in decimal, without leading zeros.
pub open spec fn decimal(n: nat) -> Seq<char>
    decreases n,
{
    if n < 10 {
        seq![digit_char(n as int)]
    } else {
        decimal(n / 10).push(digit_char((n % 10) as int))
    }
}

/// An integer in decimal, with a minus sign where it is negative.
pub open spec fn signed_decimal(n: int) -> Seq<char> {
    if n < 0 {
        seq!['-'] + decimal((-n) as nat)
    } else {
        decimal(n as nat)
    }
}

/// A natural number in decimal.
pub fn decimal_text(n: u64) -> (text: String)
    ensures
        text@ == decimal(n as nat),
    decreases n,
{
    if n < 10 {
        let mut text = String::new();
        push_char(&mut text, (0x30 + n as u8) as char);
        assert(text@ =~= seq![digit_char(n as int)]);
        text
    } else {
        let mut text = decimal_text(n / 10);
        push_char(&mut text, (0x30 + (n % 10) as u8) as char);
        text
    }
}

/// An integer in decimal.
pub fn signed_decimal_text(n: i64) -> (text: String)
    ensures
        text@ == signed_decimal(n as int),
{
    if n < 0 {
        let magnitude: u64 = (-(n as i128)) as u64;
        let mut text = String::new();
        push_char(&mut text, '-');
        let digits = decimal_text(magnitude);
        text.append(digits.as_str());
        assert(text@ =~= seq!['-'] + decimal(magnitude as nat));
        text
    } else {
        decimal_text(n as u64)
    }
}

/// The lowercase hexadecimal digit of a number below sixteen.
pub open spec fn hex_char(n: int) -> char {
    if n < 10 {
        (0x30 + n) as char
    } else {
        (0x57 + n) as char
    }
}

/// Bytes in lowercase hexadecimal, two digits each.
pub open spec fn hex(bytes: Seq<u8>) -> Seq<char> {
    Seq::new(
        2 * bytes.len(),
        |i: int|
            if i % 2 == 0 {
                hex_char((bytes[i / 2] / 16) as int)
            } else {
                hex_char((bytes[i / 2] % 16) as int)
            },
    )
}

/// The lowercase hexadecimal digit of a number below sixteen.
pub fn hex_digit(n: u8) -> (c: char)
    requires
        n < 16,
    ensures
        c == hex_char(n as int),
{
    if n < 10 {
        (0x30 + n) as char
    } else {
        (0x57 + n) as char
    }
}

/// Bytes in lowercase hexadecimal.
pub fn hex_text(bytes: &[u8]) -> (text: String)
    ensures
        text@ == hex(bytes@),
{
    let mut text = String::new();
    let mut i: usize = 0;
    while i < bytes.len()
        invariant
            i <= bytes.len(),
            text@ == hex(bytes@.take(i as int)),
        decreases bytes.len() - i,
    {
        push_char(&mut text, hex_digit(bytes[i] / 16));
        push_char(&mut text, hex_digit(bytes[i] % 16));
        proof {
            let before = bytes@.take(i as int);
            let after = bytes@.take(i + 1);
            assert(forall|k: int| 0 <= k < i ==> before[k] == after[k]);
            assert(after[i as int] == bytes@[i as int]);
            assert(text@ =~= hex(after));
        }
        i += 1;
    }
    assert(bytes@.take(i as int) =~= bytes@);
    text
}

/// The place of the next line feed from some place on, or the end.
pub open spec fn line_end(text: Seq<char>, from: int) -> int
    decreases text.len() - from,
{
    if from >= text.len() {
        text.len() as int
    } else if text[from] == '\n' {
        from
    } else {
        line_end(text, from + 1)
    }
}

/// A line without the carriage return that its line feed may follow.
pub open spec fn without_return(line: Seq<char>) -> Seq<char> {
    if line.len() > 0 && line.last() == '\r' {
        line.drop_last()
    } else {
        line
    }
}

/// The lines of a text from some place on.
pub open spec fn lines_from(text: Seq<char>, from: int) -> Seq<Seq<char>>
    decreases text.len() - from,
{
    let end = line_end(text, from);
    if from < 0 || from >= text.len() || end < from {
        seq![]
    } else if end >= text.len() {
        seq![text.subrange(from, text.len() as int)]
    } else {
        seq![without_return(text.subrange(from, end))] + lines_from(text, end + 1)
    }
}

/// The lines of a text. A line feed ends a line, alone or after a carriage return, and the last
/// line needs none.
pub open spec fn lines(text: Seq<char>) -> Seq<Seq<char>> {
    lines_from(text, 0)
}

proof fn lemma_line_end(text: Seq<char>, from: int)
    requires
        0 <= from <= text.len(),
    ensures
        from <= line_end(text, from) <= text.len(),
        line_end(text, from) < text.len() ==> text[line_end(text, from)] == '\n',
        forall|k: int| from <= k < line_end(text, from) ==> text[k] != '\n',
    decreases text.len() - from,
{
    if from < text.len() && text[from] != '\n' {
        lemma_line_end(text, from + 1);
    }
}

/// The characters of a text as a vector.
pub fn characters(text: &str) -> (r: Vec<char>)
    ensures
        r@ == text@,
{
    let mut characters: Vec<char> = Vec::new();
    assert(characters@ =~= text@.take(0));
    for c in it: text.chars()
        invariant
            characters@ == text@.take(it.index()),
            it.seq() == text@,
    {
        characters.push(c);
        assert(characters@ =~= text@.take(it.index() + 1));
    }
    assert(text@.take(text@.len() as int) =~= text@);
    characters
}

/// The text of some characters.
pub fn text_of(characters: &Vec<char>, from: usize, to: usize) -> (r: String)
    requires
        from <= to <= characters.len(),
    ensures
        r@ == characters@.subrange(from as int, to as int),
{
    let mut text = String::new();
    let mut i: usize = from;
    while i < to
        invariant
            from <= i <= to <= characters.len(),
            text@ == characters@.subrange(from as int, i as int),
        decreases to - i,
    {
        push_char(&mut text, characters[i]);
        i += 1;
        assert(text@ =~= characters@.subrange(from as int, i as int));
    }
    text
}

/// The lines of a text.
pub fn split_lines(text: &str) -> (r: Vec<String>)
    ensures
        texts(r@) == lines(text@),
{
    let all = characters(text);
    let mut found: Vec<String> = Vec::new();
    let mut from: usize = 0;
    assert(texts(found@) + lines_from(text@, 0) =~= lines(text@));
    while from < all.len()
        invariant
            from <= all.len(),
            all@ == text@,
            texts(found@) + lines_from(text@, from as int) == lines(text@),
        decreases all.len() - from,
    {
        let mut end: usize = from;
        while end < all.len() && all[end] != '\n'
            invariant
                from <= end <= all.len(),
                all@ == text@,
                line_end(text@, from as int) == line_end(text@, end as int),
            decreases all.len() - end,
        {
            end += 1;
        }
        let ghost before = found@;
        let ghost start = from;
        proof {
            lemma_line_end(text@, from as int);
            assert(end == line_end(text@, from as int));
        }
        if end >= all.len() {
            let line = text_of(&all, from, end);
            found.push(line);
            from = all.len();
            proof {
                assert(lines_from(text@, from as int) =~= seq![]);
                assert(texts(found@) =~= texts(before).push(line@));
                assert(texts(found@) + lines_from(text@, from as int) =~= texts(before)
                    + lines_from(text@, start as int));
            }
        } else {
            let stop: usize = if end > from && all[end - 1] == '\r' {
                end - 1
            } else {
                end
            };
            let line = text_of(&all, from, stop);
            assert(line@ =~= without_return(text@.subrange(from as int, end as int)));
            found.push(line);
            from = end + 1;
            proof {
                assert(texts(found@) =~= texts(before).push(line@));
                assert(texts(found@) + lines_from(text@, from as int) =~= texts(before) + (
                seq![line@] + lines_from(text@, from as int)));
            }
        }
    }
    assert(texts(found@) + lines_from(text@, from as int) =~= texts(found@));
    found
}

pub proof fn lemma_contains_pushed(names: Seq<Seq<char>>, name: Seq<char>, other: Seq<char>)
    ensures
        names.push(name).contains(other) == (names.contains(other) || other == name),
{
    let grown = names.push(name);
    assert(grown[names.len() as int] == name);
    if names.contains(other) {
        let k = choose|k: int| 0 <= k < names.len() && names[k] == other;
        assert(grown[k] == other);
    }
    if grown.contains(other) && other != name {
        let k = choose|k: int| 0 <= k < grown.len() && grown[k] == other;
        assert(names[k] == other);
    }
}

/// The classes of bytes lie within each other: digits within hexadecimal digits, these within letters
/// and digits, and so on to all that is visible. A slug adds the hyphen, a token the underscore and the
/// dot, a path the colon and the slash; only tokens and paths, and all that is visible, have capitals.
pub proof fn law_classes_lie_within_each_other(
    b: u8,
    digit: bool,
    hex_digit: bool,
    alphanumeric: bool,
    slug: bool,
    lower: bool,
    token: bool,
    path: bool,
    graphic: bool,
)
    requires
        call_ensures(ByteClass::contains, (ByteClass::Digit, b), digit),
        call_ensures(ByteClass::contains, (ByteClass::LowerHex, b), hex_digit),
        call_ensures(ByteClass::contains, (ByteClass::LowerAlphanumeric, b), alphanumeric),
        call_ensures(ByteClass::contains, (ByteClass::Slug, b), slug),
        call_ensures(ByteClass::contains, (ByteClass::LowerToken, b), lower),
        call_ensures(ByteClass::contains, (ByteClass::Token, b), token),
        call_ensures(ByteClass::contains, (ByteClass::Path, b), path),
        call_ensures(ByteClass::contains, (ByteClass::Graphic, b), graphic),
    ensures
        digit <==> 0x30 <= b <= 0x39,
        hex_digit <==> digit || 0x61 <= b <= 0x66,
        alphanumeric <==> digit || 0x61 <= b <= 0x7a,
        slug <==> alphanumeric || b == 0x2d,
        lower <==> slug || b == 0x5f || b == 0x2e,
        token <==> lower || 0x41 <= b <= 0x5a,
        path <==> token || b == 0x3a || b == 0x2f,
        path ==> graphic,
        graphic <==> 0x20 < b < 0x7f,
{
}

proof fn lemma_hex_char(a: int, b: int)
    requires
        0 <= a < 16,
        0 <= b < 16,
        hex_char(a) == hex_char(b),
    ensures
        a == b,
{
}

/// Bytes are written as two lowercase hexadecimal digits each, so that different bytes are written
/// differently.
pub proof fn law_hexadecimal_tells_bytes_apart(
    a: &[u8],
    b: &[u8],
    a_text: String,
    b_text: String,
    i: int,
)
    requires
        call_ensures(hex_text, (a,), a_text),
        call_ensures(hex_text, (b,), b_text),
    ensures
        a_text@.len() == 2 * a@.len(),
        0 <= i < a_text@.len() ==> '0' <= a_text@[i] <= '9' || 'a' <= a_text@[i] <= 'f',
        a_text@ == b_text@ ==> a@ == b@,
        a_text@ == b_text@ <==> a@ == b@,
{
    if a_text@ == b_text@ {
        assert(a_text@.len() == 2 * a@.len() && b_text@.len() == 2 * b@.len());
        assert forall|k: int| 0 <= k < a@.len() implies a@[k] == b@[k] by {
            assert(a_text@[2 * k] == hex_char((a@[k] / 16) as int));
            assert(b_text@[2 * k] == hex_char((b@[k] / 16) as int));
            assert(a_text@[2 * k + 1] == hex_char((a@[k] % 16) as int));
            assert(b_text@[2 * k + 1] == hex_char((b@[k] % 16) as int));
            lemma_hex_char((a@[k] / 16) as int, (b@[k] / 16) as int);
            lemma_hex_char((a@[k] % 16) as int, (b@[k] % 16) as int);
        }
        assert(a@ =~= b@);
    }
}

proof fn lemma_line_end_at(text: Seq<char>, from: int, end: int)
    requires
        0 <= from <= end < text.len(),
        text[end] == '\n',
        forall|k: int| from <= k < end ==> #[trigger] text[k] != '\n',
    ensures
        line_end(text, from) == end,
    decreases end - from,
{
    if from < end {
        assert(text[from] != '\n');
        lemma_line_end_at(text, from + 1, end);
    }
}

proof fn lemma_line_end_shift(text: Seq<char>, from: int, by: int)
    requires
        0 <= by <= from <= text.len(),
    ensures
        line_end(text, from) == line_end(text.skip(by), from - by) + by,
    decreases text.len() - from,
{
    if from < text.len() {
        assert(text.skip(by)[from - by] == text[from]);
        if text[from] != '\n' {
            lemma_line_end_shift(text, from + 1, by);
        }
    }
}

proof fn lemma_lines_shift(text: Seq<char>, from: int, by: int)
    requires
        0 <= by <= from <= text.len(),
    ensures
        lines_from(text, from) == lines_from(text.skip(by), from - by),
    decreases text.len() - from,
{
    let rest = text.skip(by);
    lemma_line_end_shift(text, from, by);
    lemma_line_end(text, from);
    let end = line_end(text, from);
    if from < text.len() {
        if end < text.len() {
            lemma_lines_shift(text, end + 1, by);
            assert(text.subrange(from, end) =~= rest.subrange(from - by, end - by));
        } else {
            assert(text.subrange(from, text.len() as int) =~= rest.subrange(
                from - by,
                rest.len() as int,
            ));
        }
    }
}

/// What stands before the first end of a line is its first line, without the return that may stand
/// there, and the lines of what stands behind it are the others.
pub proof fn law_lines_are_what_lies_between_their_ends(
    text: &str,
    rest: &str,
    first: Seq<char>,
    all: Vec<String>,
    others: Vec<String>,
)
    requires
        call_ensures(split_lines, (text,), all),
        call_ensures(split_lines, (rest,), others),
        !first.contains('\n'),
        text@ == first + seq!['\n'] + rest@,
    ensures
        all@.len() == others@.len() + 1,
        all@[0]@ == if first.len() > 0 && first.last() == '\r' {
            first.drop_last()
        } else {
            first
        },
        forall|i: int| 0 <= i < others@.len() ==> (#[trigger] others@[i])@ == all@[i + 1]@,
{
    let whole = text@;
    let end = first.len() as int;
    assert(whole[end] == '\n');
    assert forall|k: int| 0 <= k < end implies #[trigger] whole[k] != '\n' by {
        assert(first.contains(first[k]));
    }
    lemma_line_end_at(whole, 0, end);
    assert(whole.subrange(0, end) =~= first);
    assert(whole.skip(end + 1) =~= rest@);
    lemma_lines_shift(whole, end + 1, end + 1);
    assert(lines(whole) == seq![without_return(first)] + lines(rest@));
    let shown = texts(all@);
    let others_shown = texts(others@);
    assert(shown.len() == others_shown.len() + 1);
    assert(shown[0] == without_return(first) && shown[0] == all@[0]@);
    assert forall|i: int| 0 <= i < others@.len() implies (#[trigger] others@[i])@ == all@[i
        + 1]@ by {
        assert(others_shown[i] == others@[i]@);
        assert(shown[i + 1] == all@[i + 1]@);
        assert((seq![without_return(first)] + lines(rest@))[i + 1] == lines(rest@)[i]);
    }
}

/// One text comes before another in one direction only, and one of two different texts always does.
pub proof fn law_texts_are_ordered(a: &str, b: &str, there: bool, back: bool)
    requires
        call_ensures(is_text_before, (a, b), there),
        call_ensures(is_text_before, (b, a), back),
    ensures
        !(there && back),
        a@ == b@ ==> !there,
        a@ != b@ ==> there || back,
{
    if a@ == b@ {
        lemma_bytes_before_irreflexive(utf8(a@));
    } else {
        if utf8(a@) == utf8(b@) {
            lemma_utf8_injective(a@, b@);
        }
        lemma_bytes_before_total(utf8(a@), utf8(b@));
    }
    if there && back {
        lemma_bytes_before_transitive(utf8(a@), utf8(b@), utf8(a@));
        lemma_bytes_before_irreflexive(utf8(a@));
    }
}

} // verus!
