use vstd::prelude::*;

use crate::text::{hex_digit, lemma_hex_digit_injective};

verus! {

/// How one character stands inside a JSON string literal written by serde_json:
/// the quote, the backslash and the control characters are escaped, the short
/// escapes `\b \t \n \f \r` where they exist and `\u00XX` for the others.
pub open spec fn json_escape_char(c: char) -> Seq<char> {
    if c == '"' {
        seq!['\\', '"']
    } else if c == '\\' {
        seq!['\\', '\\']
    } else if c == '\u{8}' {
        seq!['\\', 'b']
    } else if c == '\t' {
        seq!['\\', 't']
    } else if c == '\n' {
        seq!['\\', 'n']
    } else if c == '\u{c}' {
        seq!['\\', 'f']
    } else if c == '\r' {
        seq!['\\', 'r']
    } else if (c as u32) < 0x20 {
        seq!['\\', 'u', '0', '0', hex_digit((c as u32) as int / 16), hex_digit((c as u32) as int % 16)]
    } else {
        seq![c]
    }
}

/// The escaped contents of a JSON string literal.
pub open spec fn json_escape(s: Seq<char>) -> Seq<char>
    decreases s.len(),
{
    if s.len() == 0 {
        seq![]
    } else {
        json_escape_char(s[0]) + json_escape(s.drop_first())
    }
}

/// The JSON string literal that holds `s`.
pub open spec fn json_string_literal(s: Seq<char>) -> Seq<char> {
    seq!['"'] + json_escape(s) + seq!['"']
}

/// A character that stands for itself inside a JSON string literal.
pub open spec fn is_plain_json_char(c: char) -> bool {
    c != '"' && c != '\\' && (c as u32) >= 0x20
}

/// A text of plain characters is its own escaped form.
pub proof fn lemma_json_escape_plain(s: Seq<char>)
    requires
        forall|i: int| 0 <= i < s.len() ==> is_plain_json_char(#[trigger] s[i]),
    ensures
        json_escape(s) == s,
    decreases s.len(),
{
    if s.len() > 0 {
        assert(is_plain_json_char(s[0]));
        lemma_json_escape_plain(s.drop_first());
        assert(seq![s[0]] + s.drop_first() =~= s);
    }
}

/// The escaped form of one character is never empty.
proof fn lemma_json_escape_char_nonempty(c: char)
    ensures
        json_escape_char(c).len() >= 1,
{
}

/// The escaped form of a character followed by anything tells the character.
proof fn lemma_json_escape_char_prefix(c1: char, s1: Seq<char>, c2: char, s2: Seq<char>)
    requires
        json_escape_char(c1) + s1 == json_escape_char(c2) + s2,
    ensures
        c1 == c2,
{
    let e1 = json_escape_char(c1);
    let e2 = json_escape_char(c2);
    let t = e1 + s1;
    assert(t[0] == e1[0]);
    assert(t[0] == e2[0]);
    if e1.len() == 1 {
        assert(e1[0] == c1);
    } else {
        assert(t[1] == e1[1]);
        assert(t[1] == e2[1]);
        if e1[1] == 'u' {
            assert(t[4] == e1[4] && t[4] == e2[4]);
            assert(t[5] == e1[5] && t[5] == e2[5]);
            lemma_hex_digit_injective((c1 as u32) as int / 16, (c2 as u32) as int / 16);
            lemma_hex_digit_injective((c1 as u32) as int % 16, (c2 as u32) as int % 16);
            assert((c1 as u32) == (c2 as u32));
        }
    }
}

/// Different texts have different escaped forms.
pub proof fn lemma_json_escape_injective(a: Seq<char>, b: Seq<char>)
    requires
        json_escape(a) == json_escape(b),
    ensures
        a == b,
    decreases a.len(),
{
    if a.len() == 0 {
        if b.len() > 0 {
            lemma_json_escape_char_nonempty(b[0]);
        }
    } else {
        if b.len() == 0 {
            lemma_json_escape_char_nonempty(a[0]);
            assert(false);
        } else {
            lemma_json_escape_char_prefix(a[0], json_escape(a.drop_first()), b[0], json_escape(b.drop_first()));
            let n = json_escape_char(a[0]).len() as int;
            assert(json_escape(a.drop_first()) =~= json_escape(a).subrange(n, json_escape(a).len() as int));
            assert(json_escape(b.drop_first()) =~= json_escape(b).subrange(n, json_escape(b).len() as int));
            lemma_json_escape_injective(a.drop_first(), b.drop_first());
            assert(a =~= seq![a[0]] + a.drop_first());
            assert(b =~= seq![b[0]] + b.drop_first());
        }
    }
}

/// Different texts have different JSON string literals.
pub proof fn lemma_json_string_literal_injective(a: Seq<char>, b: Seq<char>)
    requires
        json_string_literal(a) == json_string_literal(b),
    ensures
        a == b,
{
    let la = json_string_literal(a);
    let lb = json_string_literal(b);
    assert(json_escape(a) =~= la.subrange(1, la.len() - 1));
    assert(json_escape(b) =~= lb.subrange(1, lb.len() - 1));
    lemma_json_escape_injective(a, b);
}

/// Calls `serde_json::to_string` on a string slice. Its serializer writes the
/// string between quotes and escapes each byte by its table (`"` and `\` by a
/// backslash, `\b \t \n \f \r` by short escapes, the other bytes below 0x20 as
/// `\u00` and two lower-case hexadecimal digits), and a string slice never makes it
/// fail: the contract claims exactly that literal.
#[verifier::external_body]
pub(crate) fn json_quote(s: &str) -> (literal: String)
    ensures
        literal@ == json_string_literal(s@),
{
    match serde_json::to_string(s) {
        Ok(literal) => literal,
        Err(_) => String::new(),
    }
}

/// A parsed JSON document.
#[verifier::external_type_specification]
#[verifier::external_body]
pub struct ExJsonValue(serde_json::Value);

/// The members of a JSON value that is an object, each key with the compact JSON
/// text of its value; no members for any other value.
pub uninterp spec fn json_member_texts(value: serde_json::Value) -> Map<Seq<char>, Seq<char>>;

/// The members of a JSON value that is an object whose values are strings, each
/// key with the string's contents; no members for any other value.
pub uninterp spec fn json_member_strings(value: serde_json::Value) -> Map<Seq<char>, Seq<char>>;

/// The members of the JSON document in `body`, as `json_member_texts` and
/// `json_member_strings` give them, or nothing where `body` is not JSON.
pub uninterp spec fn json_document(body: Seq<u8>) -> Option<(Map<Seq<char>, Seq<char>>, Map<Seq<char>, Seq<char>>)>;

/// Calls `serde_json::from_slice` to parse a `serde_json::Value`. It succeeds
/// exactly on the bytes of one JSON document; the contract names its outcome and
/// what the parsed document's members are.
#[verifier::external_body]
fn parse_json(body: &[u8]) -> (value: Option<serde_json::Value>)
    ensures
        value is Some <==> json_document(body@) is Some,
        value is Some ==> (json_member_texts(value->0), json_member_strings(value->0)) == json_document(body@)->0,
{
    serde_json::from_slice::<serde_json::Value>(body).ok()
}

/// Calls `serde_json::Map::new` and wraps it as `serde_json::Value::Object`: an
/// object without members.
#[verifier::external_body]
fn empty_json_object() -> (value: serde_json::Value)
    ensures
        json_member_texts(value).dom() == Set::<Seq<char>>::empty(),
        json_member_strings(value).dom() == Set::<Seq<char>>::empty(),
{
    serde_json::Value::Object(serde_json::Map::new())
}

/// Calls `Index<&str>` of `serde_json::Value`, which gives the member's value or
/// `Value::Null` where there is none, and its `Display`, which writes compact JSON
/// (`null` for `Value::Null`).
#[verifier::external_body]
fn json_member_text(value: &serde_json::Value, key: &str) -> (text: String)
    ensures
        text@ == (if json_member_texts(*value).contains_key(key@) {
            json_member_texts(*value)[key@]
        } else {
            "null"@
        }),
{
    value[key].to_string()
}

/// Calls `Index<&str>` of `serde_json::Value` and `Value::as_str`, which gives the
/// contents of a string value and nothing for any other value.
#[verifier::external_body]
fn json_member_string(value: &serde_json::Value, key: &str) -> (contents: Option<String>)
    ensures
        contents is Some <==> json_member_strings(*value).contains_key(key@),
        contents is Some ==> contents->0@ == json_member_strings(*value)[key@],
{
    value[key].as_str().map(|s| s.to_owned())
}

/// The compact JSON text of a member of a document, `null` where the document has
/// no such member or is no JSON at all.
pub open spec fn document_member_text(body: Seq<u8>, key: Seq<char>) -> Seq<char> {
    match json_document(body) {
        Some(members) => if members.0.contains_key(key) { members.0[key] } else { "null"@ },
        None => "null"@,
    }
}

/// The contents of a string member of a document, nothing where the document has
/// no such member, the member is no string, or the document is no JSON at all.
pub open spec fn document_member_string(body: Seq<u8>, key: Seq<char>) -> Option<Seq<char>> {
    match json_document(body) {
        Some(members) => if members.1.contains_key(key) { Some(members.1[key]) } else { None },
        None => None,
    }
}

/// Reads a JSON document, taking a body that is no JSON as an empty object, and
/// gives the text of its member `text_key` and the contents of its string member
/// `string_key`.
pub fn read_json_members(body: &[u8], text_key: &str, string_key: &str) -> (members: (String, Option<String>))
    ensures
        members.0@ == document_member_text(body@, text_key@),
        members.1 is Some <==> document_member_string(body@, string_key@) is Some,
        members.1 is Some ==> members.1->0@ == document_member_string(body@, string_key@)->0,
{
    let document = match parse_json(body) {
        Some(value) => value,
        None => empty_json_object(),
    };
    let text = json_member_text(&document, text_key);
    let contents = json_member_string(&document, string_key);
    (text, contents)
}

} // verus!
