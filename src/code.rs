use vstd::prelude::*;

use crate::digits::{decimal_of, digit_chars, hex8_of, to_decimal, to_hex8};
use std::hash::{Hash, Hasher};

verus! {

/// How serde_json writes one character inside a JSON string: a double quote
/// and a backslash get a backslash before them, five control characters get
/// their short escapes, the other characters below 0x20 become `u00XX` after a
/// backslash, with lowercase hexadecimal digits, and the rest stay as they are.
pub open spec fn json_escaped_char(c: char) -> Seq<char> {
    let n = c as u32;
    if c == '"' {
        seq!['\\', '"']
    } else if c == '\\' {
        seq!['\\', '\\']
    } else if n == 0x08 {
        seq!['\\', 'b']
    } else if n == 0x09 {
        seq!['\\', 't']
    } else if n == 0x0a {
        seq!['\\', 'n']
    } else if n == 0x0c {
        seq!['\\', 'f']
    } else if n == 0x0d {
        seq!['\\', 'r']
    } else if n < 0x20 {
        seq!['\\', 'u', '0', '0', digit_chars()[(n / 16) as int], digit_chars()[(n % 16) as int]]
    } else {
        seq![c]
    }
}

/// The escaped contents of a JSON string holding `s`.
pub open spec fn json_escaped(s: Seq<char>) -> Seq<char>
    decreases s.len(),
{
    if s.len() == 0 {
        Seq::empty()
    } else {
        json_escaped_char(s[0]) + json_escaped(s.drop_first())
    }
}

/// The JSON string literal for the text `s`.
pub open spec fn json_quoted(s: Seq<char>) -> Seq<char> {
    seq!['"'] + json_escaped(s) + seq!['"']
}

/// The 64-bit value of std's default hasher, created with `DefaultHasher::new`,
/// after it is fed the text `s`.
pub uninterp spec fn default_hash_of(s: Seq<char>) -> u64;

/// Relies on `serde_json::to_string`: a `str` serialises to one JSON string
/// literal, escaped as `format_escaped_str` does, and serialising it into
/// memory does not fail.
#[verifier::external_body]
fn quote_json(s: &str) -> (r: String)
    ensures
        r@ == json_quoted(s@),
{
    match serde_json::to_string(s) {
        Ok(t) => t,
        Err(_) => String::new(),
    }
}

/// Relies on `std::hash::DefaultHasher`: `new` starts from fixed keys, so the
/// value after hashing a `str` depends on its text alone.
#[verifier::external_body]
fn hash_text(s: &str) -> (r: u64)
    ensures
        r == default_hash_of(s@),
{
    let mut hasher = std::hash::DefaultHasher::new();
    s.hash(&mut hasher);
    hasher.finish()
}

proof fn lemma_digit_chars_distinct(i: int, j: int)
    requires
        0 <= i < 16,
        0 <= j < 16,
        digit_chars()[i] == digit_chars()[j],
    ensures
        i == j,
{
}

proof fn lemma_escaped_char_prefix(c1: char, c2: char, r1: Seq<char>, r2: Seq<char>)
    requires
        json_escaped_char(c1) + r1 == json_escaped_char(c2) + r2,
    ensures
        c1 == c2,
{
    let x = json_escaped_char(c1) + r1;
    let e1 = json_escaped_char(c1);
    let e2 = json_escaped_char(c2);
    assert(x[0] == e1[0] && x[0] == e2[0]);
    if x[0] == '\\' {
        assert(x[1] == e1[1] && x[1] == e2[1]);
        if x[1] == 'u' {
            assert(x[4] == e1[4] && x[4] == e2[4]);
            assert(x[5] == e1[5] && x[5] == e2[5]);
            let n1 = c1 as u32;
            let n2 = c2 as u32;
            lemma_digit_chars_distinct((n1 / 16) as int, (n2 / 16) as int);
            lemma_digit_chars_distinct((n1 % 16) as int, (n2 % 16) as int);
            assert(n1 == n2);
        }
    }
}

proof fn lemma_escaped_injective(a: Seq<char>, b: Seq<char>)
    requires
        json_escaped(a) == json_escaped(b),
    ensures
        a == b,
    decreases a.len(),
{
    if a.len() == 0 {
        if b.len() != 0 {
            assert(json_escaped(b).len() > 0);
        }
        assert(b =~= a);
    } else {
        if b.len() == 0 {
            assert(json_escaped(a).len() > 0);
        }
        let e1 = json_escaped_char(a[0]);
        let e2 = json_escaped_char(b[0]);
        lemma_escaped_char_prefix(a[0], b[0], json_escaped(a.drop_first()), json_escaped(b.drop_first()));
        let x = json_escaped(a);
        assert(json_escaped(a.drop_first()) =~= x.subrange(e1.len() as int, x.len() as int));
        assert(json_escaped(b.drop_first()) =~= x.subrange(e2.len() as int, x.len() as int));
        lemma_escaped_injective(a.drop_first(), b.drop_first());
        assert(a =~= seq![a[0]] + a.drop_first());
        assert(b =~= seq![b[0]] + b.drop_first());
    }
}

/// The canonical text of the record `{ file_path, error_message,
/// occurrence_count }`: one JSON object, keys in sorted order, no spaces.
pub open spec fn record_of(file_path: Seq<char>, message: Seq<char>, count: nat) -> Seq<char> {
    "{\"error_message\":"@ + json_quoted(message) + ",\"file_path\":"@ + json_quoted(file_path)
        + ",\"occurrence_count\":"@ + decimal_of(count) + "}"@
}

/// Records of two different files differ, for the same message template and
/// occurrence count.
pub proof fn lemma_records_differ_by_file(file_a: Seq<char>, file_b: Seq<char>, message: Seq<char>, count: nat)
    requires
        file_a != file_b,
    ensures
        record_of(file_a, message, count) != record_of(file_b, message, count),
{
    let head = "{\"error_message\":"@ + json_quoted(message) + ",\"file_path\":"@;
    let tail = ",\"occurrence_count\":"@ + decimal_of(count) + "}"@;
    let qa = json_quoted(file_a);
    let qb = json_quoted(file_b);
    let ra = record_of(file_a, message, count);
    let rb = record_of(file_b, message, count);
    assert(ra =~= head + qa + tail);
    assert(rb =~= head + qb + tail);
    if ra == rb {
        assert(qa.len() == qb.len());
        assert(qa =~= ra.subrange(head.len() as int, (head.len() + qa.len()) as int));
        assert(qb =~= rb.subrange(head.len() as int, (head.len() + qb.len()) as int));
        assert(json_escaped(file_a) =~= qa.subrange(1, qa.len() - 1));
        assert(json_escaped(file_b) =~= qb.subrange(1, qb.len() - 1));
        lemma_escaped_injective(file_a, file_b);
    }
}

/// The registry key of a record: its hash in hexadecimal, 8 digits at least.
pub open spec fn key_of(record: Seq<char>) -> Seq<char> {
    hex8_of(default_hash_of(record) as nat)
}

/// The error code: `E`, the commit, then the registry key.
pub open spec fn code_of(commit: Seq<char>, key: Seq<char>) -> Seq<char> {
    "E"@ + commit + key
}

/// The canonical text of the record for one error site.
pub fn record_text(file_path: &String, message: &String, count: usize) -> (r: String)
    ensures
        r@ == record_of(file_path@, message@, count as nat),
{
    let mut r = String::from_str("{\"error_message\":");
    let quoted_message = quote_json(message.as_str());
    r.append(quoted_message.as_str());
    r.append(",\"file_path\":");
    let quoted_path = quote_json(file_path.as_str());
    r.append(quoted_path.as_str());
    r.append(",\"occurrence_count\":");
    let count_text = to_decimal(count);
    r.append(count_text.as_str());
    r.append("}");
    r
}

/// The registry key of a record text.
pub fn registry_key(record: &String) -> (r: String)
    ensures
        r@ == key_of(record@),
{
    let h = hash_text(record.as_str());
    to_hex8(h)
}

/// The error code for a commit and a registry key.
pub fn compose_code(commit: &String, key: &String) -> (r: String)
    ensures
        r@ == code_of(commit@, key@),
{
    let mut r = String::from_str("E");
    r.append(commit.as_str());
    r.append(key.as_str());
    r
}

} // verus!
