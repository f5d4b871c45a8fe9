//! The calls into serde_json and urlencoding, and what the library relies on
//! of them.
use crate::json::Json;
use vstd::prelude::*;

verus! {

#[verifier::external_type_specification]
#[verifier::external_body]
pub struct ExNumber(serde_json::Number);

#[verifier::external_type_specification]
#[verifier::external_body]
pub struct ExValue(serde_json::Value);

/// The value that serde_json reads from a text, if the text is one JSON value.
pub uninterp spec fn parsed_json(text: Seq<char>) -> Option<Json>;

/// The compact JSON text that serde_json writes for a value.
pub uninterp spec fn json_text(v: Json) -> Seq<char>;

/// Relies on the variants of serde_json::Value and on serde_json::Number::as_i64:
/// moves a parsed value into `Json`, keeping the order in which the map yields
/// the members.
#[verifier::external_body]
fn from_serde(v: serde_json::Value) -> Json {
    match v {
        serde_json::Value::Null => Json::Null,
        serde_json::Value::Bool(b) => Json::Bool(b),
        serde_json::Value::Number(n) => match n.as_i64() {
            Some(i) => Json::Int(i),
            None => Json::Num(n),
        },
        serde_json::Value::String(s) => Json::Str(s),
        serde_json::Value::Array(a) => Json::Array(a.into_iter().map(from_serde).collect()),
        serde_json::Value::Object(m) => Json::Object(m.into_iter().map(|(k, x)| (k, from_serde(x))).collect()),
    }
}

/// Relies on the variants of serde_json::Value: builds the value that a
/// `Json` stands for.
#[verifier::external_body]
fn to_serde(v: &Json) -> serde_json::Value {
    match v {
        Json::Null => serde_json::Value::Null,
        Json::Bool(b) => serde_json::Value::Bool(*b),
        Json::Int(i) => serde_json::Value::from(*i),
        Json::Num(n) => serde_json::Value::Number(n.clone()),
        Json::Str(s) => serde_json::Value::String(s.clone()),
        Json::Array(a) => serde_json::Value::Array(a.iter().map(to_serde).collect()),
        Json::Object(m) => serde_json::Value::Object(m.iter().map(|(k, x)| (k.clone(), to_serde(x))).collect()),
    }
}

/// Relies on serde_json::from_str into serde_json::Value: whether the text
/// is JSON, and which value it holds, depend on the text alone.
#[verifier::external_body]
pub(crate) fn parse_json(text: &str) -> (r: Option<Json>)
    ensures
        r == parsed_json(text@),
{
    serde_json::from_str::<serde_json::Value>(text).ok().map(from_serde)
}

/// Relies on serde_json::to_string: the text depends on the value alone, and
/// writing a serde_json::Value never fails (its keys are strings, its
/// serializer raises no error of its own, and writing to a byte vector does
/// not fail).
#[verifier::external_body]
pub(crate) fn write_json(v: &Json) -> (r: Option<String>)
    ensures
        r is Some,
        r matches Some(t) ==> t@ == json_text(*v),
{
    serde_json::to_string(&to_serde(v)).ok()
}

/// ASCII letters and digits, and `-`, `.`, `_`, `~`: what a URL carries as is.
pub open spec fn unreserved(c: char) -> bool {
    ('0' <= c && c <= '9') || ('A' <= c && c <= 'Z') || ('a' <= c && c <= 'z') || c == '-' || c
        == '.' || c == '_' || c == '~'
}

/// The upper-case hexadecimal digit for `d < 16`.
pub open spec fn hex_digit(d: int) -> char {
    seq!['0', '1', '2', '3', '4', '5', '6', '7', '8', '9', 'A', 'B', 'C', 'D', 'E', 'F'][d]
}

/// The UTF-8 encoding of a character, as byte values.
pub open spec fn utf8_bytes(c: char) -> Seq<int> {
    let u = c as u32 as int;
    if u < 0x80 {
        seq![u]
    } else if u < 0x800 {
        seq![0xC0 + u / 64, 0x80 + u % 64]
    } else if u < 0x10000 {
        seq![0xE0 + u / 4096, 0x80 + (u / 64) % 64, 0x80 + u % 64]
    } else {
        seq![0xF0 + u / 262144, 0x80 + (u / 4096) % 64, 0x80 + (u / 64) % 64, 0x80 + u % 64]
    }
}

/// Each byte written as `%` and two hexadecimal digits.
pub open spec fn escaped(bytes: Seq<int>) -> Seq<char>
    decreases bytes.len(),
{
    if bytes.len() == 0 {
        seq![]
    } else {
        seq!['%', hex_digit(bytes[0] / 16), hex_digit(bytes[0] % 16)] + escaped(bytes.drop_first())
    }
}

/// The percent-encoding of a text: unreserved characters stay, every byte of
/// any other character is escaped.
pub open spec fn percent_encoded(s: Seq<char>) -> Seq<char>
    decreases s.len(),
{
    if s.len() == 0 {
        seq![]
    } else {
        (if unreserved(s[0]) {
            seq![s[0]]
        } else {
            escaped(utf8_bytes(s[0]))
        }) + percent_encoded(s.drop_first())
    }
}

/// Relies on urlencoding::encode, which escapes every byte of the UTF-8
/// text except ASCII letters, digits and `-`, `.`, `_`, `~`, as `%` and two
/// upper-case hexadecimal digits.
#[verifier::external_body]
pub(crate) fn url_encode(s: &str) -> (r: String)
    ensures
        r@ == percent_encoded(s@),
{
    urlencoding::encode(s).into_owned()
}

} // verus!
