//! JSON values as the translation services send them: a mathematical model
//! of a document, and the few `serde_json` operations the decoders use.

use vstd::prelude::*;
use crate::text::digit_char;

verus! {

#[verifier::external_type_specification]
#[verifier::external_body]
pub struct ExValue(serde_json::Value);

#[verifier::external_type_specification]
#[verifier::external_body]
pub struct ExJsonError(serde_json::Error);

/// A JSON document. Numbers are kept without their value: no decoder
/// here reads one.
pub ghost enum JsonTree {
    Null,
    Bool(bool),
    Number,
    Text(Seq<char>),
    List(Seq<JsonTree>),
    Object(Map<Seq<char>, JsonTree>),
}

/// The document that a `serde_json::Value` holds.
pub uninterp spec fn json_tree(v: serde_json::Value) -> JsonTree;

/// The document that `serde_json` reads from a text, or `None` where it
/// refuses the text (no valid JSON, or nested deeper than it allows).
pub uninterp spec fn parsed_json(s: Seq<char>) -> Option<JsonTree>;

/// A lower-case hexadecimal digit (`d < 16`).
pub open spec fn hex_digit(d: nat) -> char {
    if d < 10 {
        digit_char(d)
    } else if d == 10 { 'a' }
    else if d == 11 { 'b' }
    else if d == 12 { 'c' }
    else if d == 13 { 'd' }
    else if d == 14 { 'e' }
    else { 'f' }
}

/// How one character is written inside a JSON string: the quote and the
/// backslash escaped, five control characters by their short escapes, the
/// other characters below U+0020 as `\u00XX`, all else as it is.
pub open spec fn escaped_char(c: char) -> Seq<char> {
    if c == '"' {
        seq!['\\', '"']
    } else if c == '\\' {
        seq!['\\', '\\']
    } else if c == '\u{8}' {
        seq!['\\', 'b']
    } else if c == '\u{c}' {
        seq!['\\', 'f']
    } else if c == '\n' {
        seq!['\\', 'n']
    } else if c == '\r' {
        seq!['\\', 'r']
    } else if c == '\t' {
        seq!['\\', 't']
    } else if (c as u32) < 0x20 {
        seq!['\\', 'u', '0', '0', hex_digit((c as u32 / 16) as nat), hex_digit((c as u32 % 16) as nat)]
    } else {
        seq![c]
    }
}

/// The characters of `s`, each written as inside a JSON string.
pub open spec fn escaped(s: Seq<char>) -> Seq<char>
    decreases s.len(),
{
    if s.len() == 0 {
        Seq::empty()
    } else {
        escaped(s.drop_last()) + escaped_char(s.last())
    }
}

/// The JSON string literal that stands for `s`: its escaped characters
/// between double quotes.
pub open spec fn json_quoted(s: Seq<char>) -> Seq<char> {
    seq!['"'] + escaped(s) + seq!['"']
}

/// The member `key` of an object; `None` for a missing key or a non-object.
pub open spec fn member(t: JsonTree, key: Seq<char>) -> Option<JsonTree> {
    match t {
        JsonTree::Object(m) => if m.contains_key(key) {
            Some(m[key])
        } else {
            None
        },
        _ => None,
    }
}

/// The elements of a list, or `None` for a value of another kind.
pub open spec fn elements(t: JsonTree) -> Option<Seq<JsonTree>> {
    match t {
        JsonTree::List(items) => Some(items),
        _ => None,
    }
}

/// The characters of a string value, or `None` for a value of another kind.
pub open spec fn text(t: JsonTree) -> Option<Seq<char>> {
    match t {
        JsonTree::Text(s) => Some(s),
        _ => None,
    }
}

/// The documents held by a sequence of values.
pub open spec fn trees(vs: Seq<serde_json::Value>) -> Seq<JsonTree> {
    vs.map_values(|v: serde_json::Value| json_tree(v))
}

/// Relies on `serde_json::from_str::<Value>`: the value read from `s`, or
/// the parser's error; the outcome depends on the text alone.
#[verifier::external_body]
pub(crate) fn parse_json(s: &str) -> (r: Result<serde_json::Value, serde_json::Error>)
    ensures
        r is Ok <==> parsed_json(s@) is Some,
        r matches Ok(v) ==> parsed_json(s@) == Some(json_tree(v)),
{
    serde_json::from_str::<serde_json::Value>(s)
}

/// Relies on `serde_json::Value::get` with a string key: the member of an
/// object, `None` for a missing key or a value that is no object.
#[verifier::external_body]
pub(crate) fn get_member<'a>(v: &'a serde_json::Value, key: &str) -> (r: Option<&'a serde_json::Value>)
    ensures
        r is Some <==> member(json_tree(*v), key@) is Some,
        r matches Some(x) ==> member(json_tree(*v), key@) == Some(json_tree(*x)),
{
    v.get(key)
}

/// Relies on `serde_json::Value::as_array`: the elements of an array,
/// `None` for a value that is no array.
#[verifier::external_body]
pub(crate) fn get_elements<'a>(v: &'a serde_json::Value) -> (r: Option<&'a Vec<serde_json::Value>>)
    ensures
        r is Some <==> elements(json_tree(*v)) is Some,
        r matches Some(a) ==> elements(json_tree(*v)) == Some(trees(a@)),
{
    v.as_array()
}

/// Relies on `serde_json::Value::as_str`: the characters of a string,
/// `None` for a value that is no string.
#[verifier::external_body]
pub(crate) fn get_text<'a>(v: &'a serde_json::Value) -> (r: Option<&'a str>)
    ensures
        r is Some <==> text(json_tree(*v)) is Some,
        r matches Some(s) ==> text(json_tree(*v)) == Some(s@),
{
    v.as_str()
}

/// Relies on the `Display` of `serde_json::Value::String`: the compact
/// JSON literal of `s`, escaped by serde_json's table of escapes.
#[verifier::external_body]
pub(crate) fn quote(s: &str) -> (r: String)
    ensures
        r@ == json_quoted(s@),
{
    serde_json::Value::String(s.to_string()).to_string()
}

} // verus!
