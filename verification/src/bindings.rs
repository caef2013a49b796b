//! Calls into `serde_json`, `shell-words`, `winsplit`, `url` and
//! `urlencoding`.
//!
//! Nothing in this file is proved. Each function makes one call and states
//! what the rest of the library relies on. Where a few lines say what a
//! call returns, they are stated. Elsewhere the statement is that the
//! call's result is a function of its arguments, under a name of its own;
//! what such a name stands for is decided by the crate.

use crate::json::{distinct_keys, Json, JsonV, MemberV};
use crate::text::strings_view;
use vstd::prelude::*;

verus! {

#[verifier::external_type_specification]
#[verifier::external_body]
pub struct ExJsonValue(serde_json::Value);

/// What a `serde_json::Value` holds.
pub uninterp spec fn value_json(value: serde_json::Value) -> JsonV;

/// The text by which `serde_json` writes the number that it reads from a
/// text, where it reads one.
pub uninterp spec fn number_text(text: Seq<char>) -> Option<Seq<char>>;

/// The members of an object as a `serde_json::Map` holds them that was
/// collected from members with distinct keys: the same members, in the
/// order of their keys.
pub uninterp spec fn map_members(members: Seq<MemberV>) -> Seq<MemberV>;

/// What each of `values` holds.
pub open spec fn values_view(values: Seq<serde_json::Value>) -> Seq<JsonV> {
    Seq::new(values.len(), |i: int| value_json(values[i]))
}

/// The members that `members` stand for: each key with what its value
/// holds.
pub open spec fn named_values_view(members: Seq<(String, serde_json::Value)>) -> Seq<MemberV> {
    Seq::new(members.len(), |i: int| MemberV { key: members[i].0@, value: value_json(members[i].1) })
}

/// The text that `serde_json::to_string` writes for a `serde_json::Value`
/// that holds `json`.
pub uninterp spec fn written_json(json: JsonV) -> Seq<char>;

/// What `serde_json::from_str` reads from a text, where it reads a value.
pub uninterp spec fn parsed_json(text: Seq<char>) -> Option<JsonV>;

/// The words that `shell_words::split` finds in a command line, where it
/// can be split.
pub uninterp spec fn shell_split(line: Seq<char>) -> Option<Seq<Seq<char>>>;

/// The words that `winsplit::split` finds in a command line.
pub uninterp spec fn windows_split(line: Seq<char>) -> Seq<Seq<char>>;

/// The serialization of the URL that `url::Url::parse` reads from a text,
/// where it reads one.
pub uninterp spec fn url_text(text: Seq<char>) -> Option<Seq<char>>;

/// Whether a byte stands for itself in a percent-encoded text: the ASCII
/// letters, the digits and `-`, `.`, `_`, `~` do.
pub open spec fn is_unreserved(b: u8) -> bool {
    (48 <= b <= 57) || (65 <= b <= 90) || (97 <= b <= 122) || b == 45 || b == 46 || b == 95 || b == 126
}

/// The hexadecimal digit for `n`, in upper case.
pub open spec fn upper_hex(n: int) -> char {
    if n < 10 {
        ((48 + n) as u8) as char
    } else {
        ((55 + n) as u8) as char
    }
}

/// How one byte stands in a percent-encoded text: for itself, or as a
/// percent sign and its two hexadecimal digits.
pub open spec fn percent_byte(b: u8) -> Seq<char> {
    if is_unreserved(b) {
        seq![b as char]
    } else {
        seq!['%', upper_hex(b as int / 16), upper_hex(b as int % 16)]
    }
}

/// The percent-encoded text of a sequence of bytes.
pub open spec fn percent_encoded(bytes: Seq<u8>) -> Seq<char>
    decreases bytes.len(),
{
    if bytes.len() == 0 {
        Seq::empty()
    } else {
        percent_encoded(bytes.drop_last()) + percent_byte(bytes.last())
    }
}

/// `serde_json::from_str` into a `serde_json::Value`: the value read from
/// `text`, or the parser's message where `text` is no JSON document.
#[verifier::external_body]
pub(crate) fn parse_value(text: &str) -> (r: Result<serde_json::Value, String>)
    ensures
        match r {
            Ok(value) => parsed_json(text@) == Some(value_json(value)),
            Err(_) => parsed_json(text@) is None,
        },
{
    match serde_json::from_str::<serde_json::Value>(text) {
        Ok(value) => Ok(value),
        Err(e) => Err(e.to_string()),
    }
}

/// Copies a `serde_json::Value` into a [`Json`], variant by variant: a
/// number by its text, the members of an object in the order in which the
/// map hands them out. The result is what [`value_json`] names.
#[verifier::external_body]
pub(crate) fn json_of_value(value: &serde_json::Value) -> (r: Json)
    ensures
        r@ == value_json(*value),
{
    match value {
        serde_json::Value::Null => Json::Null,
        serde_json::Value::Bool(b) => Json::Bool(*b),
        serde_json::Value::Number(n) => Json::Number(n.to_string()),
        serde_json::Value::String(s) => Json::Str(s.clone()),
        serde_json::Value::Array(items) => Json::Array(items.iter().map(json_of_value).collect()),
        serde_json::Value::Object(map) => Json::Object(
            map.iter().map(|(k, v)| (k.clone(), json_of_value(v))).collect(),
        ),
    }
}

/// `serde_json::Value::Null`.
#[verifier::external_body]
pub(crate) fn null_value() -> (r: serde_json::Value)
    ensures
        value_json(r) == JsonV::Null,
{
    serde_json::Value::Null
}

/// `serde_json::Value::Bool` of `b`.
#[verifier::external_body]
pub(crate) fn bool_value(b: bool) -> (r: serde_json::Value)
    ensures
        value_json(r) == JsonV::Bool(b),
{
    serde_json::Value::Bool(b)
}

/// `serde_json::Value::String` of `s`.
#[verifier::external_body]
pub(crate) fn string_value(s: &str) -> (r: serde_json::Value)
    ensures
        value_json(r) == JsonV::Str(s@),
{
    serde_json::Value::String(s.to_owned())
}

/// `serde_json::Number`'s `FromStr` and `serde_json::Value::Number`: the
/// number that `text` spells, or nothing where it spells none. What the
/// value holds is the number by the text that the library writes for it.
#[verifier::external_body]
pub(crate) fn number_value(text: &str) -> (r: Option<serde_json::Value>)
    ensures
        match r {
            Some(value) => number_text(text@) is Some && value_json(value) == JsonV::Number(
                number_text(text@)->0,
            ),
            None => number_text(text@) is None,
        },
{
    match text.parse::<serde_json::Number>() {
        Ok(number) => Some(serde_json::Value::Number(number)),
        Err(_) => None,
    }
}

/// `serde_json::Value::Array` of `items`, in their order.
#[verifier::external_body]
pub(crate) fn array_value(items: Vec<serde_json::Value>) -> (r: serde_json::Value)
    ensures
        value_json(r) == JsonV::Array(values_view(items@)),
{
    serde_json::Value::Array(items)
}

/// `serde_json::Map`'s `FromIterator` and `serde_json::Value::Object`: the
/// object of `members`, whose keys are distinct. The map holds them in the
/// order of their keys, as [`map_members`] names it.
#[verifier::external_body]
pub(crate) fn object_value(members: Vec<(String, serde_json::Value)>) -> (r: serde_json::Value)
    requires
        distinct_keys(named_values_view(members@)),
    ensures
        value_json(r) == JsonV::Object(map_members(named_values_view(members@))),
{
    serde_json::Value::Object(members.into_iter().collect())
}

/// `serde_json::to_string` on a `serde_json::Value`: the JSON text of the
/// value, without white space.
#[verifier::external_body]
pub(crate) fn write_value(value: &serde_json::Value) -> (r: String)
    ensures
        r@ == written_json(value_json(*value)),
{
    serde_json::to_string(value).unwrap_or_default()
}

/// The one message of `shell_words::ParseError`.
pub open spec fn open_quote_message() -> Seq<char> {
    "missing closing quote"@
}

/// `shell_words::split`: the words of `line`, or the parser's message where
/// a quote is left open. The parser has one error and one message for it.
#[verifier::external_body]
pub(crate) fn split_words(line: &str) -> (r: Result<Vec<String>, String>)
    ensures
        match r {
            Ok(words) => shell_split(line@) == Some(strings_view(words@)),
            Err(message) => shell_split(line@) is None && message@ == open_quote_message(),
        },
{
    match shell_words::split(line) {
        Ok(words) => Ok(words),
        Err(e) => Err(e.to_string()),
    }
}

/// `winsplit::split`: the words of `line`, split by the rules by which a
/// Windows program parts its command line. Every line can be split.
#[verifier::external_body]
pub(crate) fn split_words_windows(line: &str) -> (r: Vec<String>)
    ensures
        strings_view(r@) == windows_split(line@),
{
    winsplit::split(line)
}

/// `url::Url::parse` and `Url::as_str`: the serialization of the URL read
/// from `text`, or nothing where `text` is no absolute URL.
#[verifier::external_body]
pub(crate) fn parse_url(text: &str) -> (r: Option<String>)
    ensures
        match r {
            Some(url) => url_text(text@) == Some(url@),
            None => url_text(text@) is None,
        },
{
    match url::Url::parse(text) {
        Ok(url) => Some(url.as_str().to_string()),
        Err(_) => None,
    }
}

/// `urlencoding::encode`: the bytes of `text` in UTF-8, each but the ASCII
/// letters, the digits and `-`, `_`, `.`, `~` written as a percent sign and
/// two hexadecimal digits in upper case.
#[verifier::external_body]
pub(crate) fn percent_encode(text: &str) -> (r: String)
    ensures
        r@ == percent_encoded(vstd::utf8::encode_utf8(text@)),
{
    urlencoding::encode(text).into_owned()
}

} // verus!
