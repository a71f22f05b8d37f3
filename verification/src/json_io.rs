//! The trusted boundary to the outside crates that the library calls:
//! JSON document parsing and inspection through `serde_json`, URL
//! validation through `url`, and query-component percent-encoding through
//! `urlencoding`. Every item here is believed, not proved; each doc
//! comment names the outside function relied on.

use vstd::prelude::*;
use vstd::string::StringSliceAdditionalSpecFns;

verus! {

#[verifier::external_type_specification]
#[verifier::external_body]
pub struct ExValue(serde_json::Value);

#[verifier::external_type_specification]
#[verifier::external_body]
pub struct ExJsonError(serde_json::Error);

/// A JSON number as the library models it: the signed and unsigned integer
/// readings it admits (nothing for a fractional number or one out of
/// range), and its canonical compact text.
pub struct JsonNumberView {
    pub signed: Option<i64>,
    pub unsigned: Option<u64>,
    pub text: Seq<char>,
}

/// The shape and contents of a parsed JSON document, as plain values. An
/// object's members come in the document's iteration order with pairwise
/// distinct keys.
pub enum JsonView {
    Null,
    Bool(bool),
    Number(JsonNumberView),
    Text(Seq<char>),
    Array(Seq<JsonView>),
    Object(Seq<(Seq<char>, JsonView)>),
}

/// The value of the first member with the given key, if any.
pub open spec fn obj_first(ms: Seq<(Seq<char>, JsonView)>, key: Seq<char>) -> Option<JsonView>
    decreases ms.len(),
{
    if ms.len() == 0 {
        None
    } else if ms[0].0 == key {
        Some(ms[0].1)
    } else {
        obj_first(ms.drop_first(), key)
    }
}

/// The contents of a parsed document; they depend on the document alone.
pub uninterp spec fn json_view(v: serde_json::Value) -> JsonView;

/// The document a body parses to, if the body is JSON; it depends on the
/// body alone.
pub uninterp spec fn json_doc(s: Seq<char>) -> Option<JsonView>;

/// The uppercase hexadecimal digit of a value below sixteen.
pub open spec fn hex_upper(d: u8) -> char
    recommends
        d < 16,
{
    if d < 10 {
        ((d + 48) as u8) as char
    } else {
        ((d + 55) as u8) as char
    }
}

/// Whether a byte passes through percent-encoding unchanged: the ASCII
/// alphanumerics and '-', '.', '_', '~'.
pub open spec fn byte_unreserved(b: u8) -> bool {
    (48 <= b && b <= 57) || (65 <= b && b <= 90) || (97 <= b && b <= 122) || b == 45 || b == 46
        || b == 95 || b == 126
}

/// The percent-encoding of one byte: itself if unreserved, else '%' and
/// two uppercase hexadecimal digits.
pub open spec fn percent_encode_byte(b: u8) -> Seq<char> {
    if byte_unreserved(b) {
        seq![b as char]
    } else {
        seq!['%', hex_upper(b / 16), hex_upper(b % 16)]
    }
}

/// The percent-encoding of a byte sequence.
pub open spec fn percent_encode(bs: Seq<u8>) -> Seq<char>
    decreases bs.len(),
{
    if bs.len() == 0 {
        Seq::empty()
    } else {
        percent_encode_byte(bs[0]) + percent_encode(bs.drop_first())
    }
}

/// Relies on urlencoding::encode: percent-encodes every byte of the
/// string's UTF-8 form except ASCII alphanumerics and '-', '.', '_', '~',
/// each encoded byte written as '%' and two uppercase hexadecimal digits.
#[verifier::external_body]
pub fn encode_component(s: &str) -> (r: String)
    ensures
        r@ == percent_encode(s.spec_bytes()),
{
    urlencoding::encode(s).into_owned()
}

/// The serialization of the URL a string parses to, if it parses; it
/// depends on the string alone.
pub uninterp spec fn url_normal_form(s: Seq<char>) -> Option<Seq<char>>;

/// Relies on url::Url::parse and url::Url::as_str: whether a string parses
/// as an absolute URL, and the parsed URL's serialization, depend on the
/// string alone.
#[verifier::external_body]
pub fn parse_url_text(s: &str) -> (r: Option<String>)
    ensures
        match r {
            Some(t) => url_normal_form(s@) == Some(t@),
            None => url_normal_form(s@) is None,
        },
{
    match url::Url::parse(s) {
        Ok(u) => Some(String::from(u.as_str())),
        Err(_) => None,
    }
}

/// Relies on serde_json::from_str: parses a JSON document, or reports why
/// the text is not one; what it parses to depends on the text alone.
#[verifier::external_body]
pub fn json_from_str(s: &str) -> (r: Result<serde_json::Value, serde_json::Error>)
    ensures
        match r {
            Ok(d) => json_doc(s@) == Some(json_view(d)),
            Err(_) => json_doc(s@) is None,
        },
{
    serde_json::from_str(s)
}

/// Relies on serde_json::Error's Display implementation: the decoder's
/// message for the failure.
#[verifier::external_body]
pub fn json_error_text(e: &serde_json::Error) -> (r: String) {
    e.to_string()
}

/// Relies on serde_json::Value::get: the value of an object's member, if
/// the value is an object with that member.
#[verifier::external_body]
pub fn json_get<'a>(v: &'a serde_json::Value, key: &str) -> (r: Option<&'a serde_json::Value>)
    ensures
        match json_view(*v) {
            JsonView::Object(ms) => match r {
                Some(m) => obj_first(ms, key@) == Some(json_view(*m)),
                None => obj_first(ms, key@) is None,
            },
            _ => r is None,
        },
{
    v.get(key)
}

/// Relies on serde_json::Value::as_str: the content of the value, if it is
/// a string.
#[verifier::external_body]
pub fn json_as_str(v: &serde_json::Value) -> (r: Option<String>)
    ensures
        match json_view(*v) {
            JsonView::Text(t) => r matches Some(s) && s@ == t,
            _ => r is None,
        },
{
    match v.as_str() {
        Some(s) => Some(s.to_owned()),
        None => None,
    }
}

/// Relies on serde_json::Value::as_i64: the value, if it is an integer
/// representable as i64.
#[verifier::external_body]
pub fn json_as_i64(v: &serde_json::Value) -> (r: Option<i64>)
    ensures
        match json_view(*v) {
            JsonView::Number(n) => r == n.signed,
            _ => r is None,
        },
{
    v.as_i64()
}

/// Relies on serde_json::Value::as_u64: the value, if it is an integer
/// representable as u64.
#[verifier::external_body]
pub fn json_as_u64(v: &serde_json::Value) -> (r: Option<u64>)
    ensures
        match json_view(*v) {
            JsonView::Number(n) => r == n.unsigned,
            _ => r is None,
        },
{
    v.as_u64()
}

/// Relies on serde_json::Value::as_bool: the value, if it is a boolean.
#[verifier::external_body]
pub fn json_as_bool(v: &serde_json::Value) -> (r: Option<bool>)
    ensures
        match json_view(*v) {
            JsonView::Bool(b) => r == Some(b),
            _ => r is None,
        },
{
    v.as_bool()
}

/// Relies on serde_json::Value::is_null: whether the value is null.
#[verifier::external_body]
pub fn json_is_null(v: &serde_json::Value) -> (r: bool)
    ensures
        r == (json_view(*v) is Null),
{
    v.is_null()
}

/// Relies on serde_json::Value::is_number: whether the value is a number.
#[verifier::external_body]
pub fn json_is_number(v: &serde_json::Value) -> (r: bool)
    ensures
        r == (json_view(*v) is Number),
{
    v.is_number()
}

/// Relies on serde_json::Value's Display implementation: the compact JSON
/// text of the value.
#[verifier::external_body]
pub fn json_unparse(v: &serde_json::Value) -> (r: String)
    ensures
        json_view(*v) matches JsonView::Number(n) ==> r@ == n.text,
{
    v.to_string()
}

/// Relies on serde_json::Value::as_array: the elements of the value, if it
/// is an array.
#[verifier::external_body]
pub fn json_as_array(v: &serde_json::Value) -> (r: Option<Vec<serde_json::Value>>)
    ensures
        match json_view(*v) {
            JsonView::Array(items) => r matches Some(a) && a@.len() == items.len() && (forall|i: int|
                0 <= i < items.len() ==> json_view(#[trigger] a@[i]) == items[i]),
            _ => r is None,
        },
{
    v.as_array().cloned()
}

/// Relies on serde_json::Value::as_object: the members of the value in the
/// object's order, if it is an object.
#[verifier::external_body]
pub fn json_object_entries(v: &serde_json::Value) -> (r: Option<Vec<(String, serde_json::Value)>>)
    ensures
        match json_view(*v) {
            JsonView::Object(ms) => r matches Some(es) && es@.len() == ms.len() && (forall|i: int|
                0 <= i < ms.len() ==> (#[trigger] es@[i]).0@ == ms[i].0 && json_view(es@[i].1)
                    == ms[i].1) && (forall|i: int, j: int|
                0 <= i < j < ms.len() ==> (#[trigger] ms[i]).0 != (#[trigger] ms[j]).0),
            _ => r is None,
        },
{
    match v.as_object() {
        Some(m) => Some(m.iter().map(|(k, val)| (k.clone(), val.clone())).collect()),
        None => None,
    }
}

} // verus!
