//! JSON documents as `serde_json` holds them, and what the contracts say of them.
//!
//! A `serde_json::Value` is opaque to the verifier. Its content is named by
//! [`json_model`], and each function below that makes, reads or prints a value
//! states over that name what `serde_json` does. None of these statements is
//! proved: they are read off the source of `serde_json`.

use vstd::prelude::*;

verus! {

/// The mathematical content of a JSON document. An object is known by its
/// members alone: `serde_json` keeps them sorted by key (its feature
/// `preserve_order` is off), so their order holds nothing more.
pub enum JsonModel {
    Null,
    Bool(bool),
    /// An integer number.
    Int(int),
    /// A number that is no integer, by the bit pattern of its 64-bit binary form.
    Real(int),
    Str(Seq<char>),
    Array(Seq<JsonModel>),
    /// An object: its members by their keys.
    Object(Map<Seq<char>, JsonModel>),
}

/// `serde_json::Value`, carried as it is. What is known of one is its content,
/// [`json_model`].
#[verifier::external_type_specification]
#[verifier::external_body]
pub struct ExValue(serde_json::Value);

/// `serde_json::Error`, carried as it is. Nothing is known of one.
#[verifier::external_type_specification]
#[verifier::external_body]
pub struct ExJsonError(serde_json::Error);

/// What a `serde_json::Value` holds.
pub uninterp spec fn json_model(value: serde_json::Value) -> JsonModel;

/// The document that `serde_json::from_str` reads from `text`, or `None` where it
/// reports an error.
pub uninterp spec fn json_parse(text: Seq<char>) -> Option<JsonModel>;

/// The text that `serde_json::to_string` writes for a document, on one line and
/// without spaces, or `None` where it reports an error.
pub uninterp spec fn json_compact(document: JsonModel) -> Option<Seq<char>>;

/// The text that `serde_json::to_string_pretty` writes for a document, one member
/// per line and indented by two spaces, or `None` where it reports an error.
pub uninterp spec fn json_pretty(document: JsonModel) -> Option<Seq<char>>;

/// The object without members.
pub open spec fn no_members() -> Map<Seq<char>, JsonModel> {
    Map::empty()
}

/// `serde_json::Value::Object` on `serde_json::Map::new()`: an object without
/// members.
#[verifier::external_body]
pub(crate) fn empty_object() -> (value: serde_json::Value)
    ensures
        json_model(value) == JsonModel::Object(no_members()),
{
    serde_json::Value::Object(serde_json::Map::new())
}

/// `IndexMut<&str>` of `serde_json::Value`, and an assignment through it. On an
/// object the member `key` is added, or replaced where it was there, and no other
/// member changes. (On a value that is neither an object nor null the index
/// panics.)
#[verifier::external_body]
pub(crate) fn set_member(target: &mut serde_json::Value, key: &str, value: serde_json::Value)
    requires
        json_model(*old(target)) is Object,
    ensures
        json_model(*final(target)) == JsonModel::Object(
            json_model(*old(target))->Object_0.insert(key@, json_model(value)),
        ),
{
    target[key] = value;
}

/// `serde_json::Value::String`: the JSON string with the characters of `text`.
#[verifier::external_body]
pub(crate) fn json_string(text: String) -> (value: serde_json::Value)
    ensures
        json_model(value) == JsonModel::Str(text@),
{
    serde_json::Value::String(text)
}

/// `serde_json::Value::Bool`.
#[verifier::external_body]
pub(crate) fn json_bool(flag: bool) -> (value: serde_json::Value)
    ensures
        json_model(value) == JsonModel::Bool(flag),
{
    serde_json::Value::Bool(flag)
}

/// `serde_json::Value::Null`.
#[verifier::external_body]
pub(crate) fn json_null() -> (value: serde_json::Value)
    ensures
        json_model(value) == JsonModel::Null,
{
    serde_json::Value::Null
}

/// `From<u64>` of `serde_json::Value`: the JSON number `n`.
#[verifier::external_body]
pub(crate) fn json_unsigned(n: u64) -> (value: serde_json::Value)
    ensures
        json_model(value) == JsonModel::Int(n as int),
{
    serde_json::Value::from(n)
}

/// `serde_json::from_str` at the type `serde_json::Value`; its error is dropped.
#[verifier::external_body]
pub(crate) fn parse_json(text: &str) -> (parsed: Option<serde_json::Value>)
    ensures
        match parsed {
            Some(value) => json_parse(text@) == Some(json_model(value)),
            None => json_parse(text@) is None,
        },
{
    serde_json::from_str::<serde_json::Value>(text).ok()
}

/// `serde_json::to_string` on a value: what it returns goes by the content of
/// the value alone. On which contents it reports an error is not stated here.
#[verifier::external_body]
pub(crate) fn to_compact(value: &serde_json::Value) -> (written: Result<String, serde_json::Error>)
    ensures
        match written {
            Ok(text) => json_compact(json_model(*value)) == Some(text@),
            Err(_) => json_compact(json_model(*value)) is None,
        },
{
    serde_json::to_string(value)
}

/// `serde_json::to_string_pretty` on a value: what it returns goes by the content
/// of the value alone. On which contents it reports an error is not stated here.
#[verifier::external_body]
pub(crate) fn to_pretty(value: &serde_json::Value) -> (written: Result<String, serde_json::Error>)
    ensures
        match written {
            Ok(text) => json_pretty(json_model(*value)) == Some(text@),
            Err(_) => json_pretty(json_model(*value)) is None,
        },
{
    serde_json::to_string_pretty(value)
}

/// The message of a `serde_json::Error`, as its `Display` writes it. Nothing is
/// stated of the message.
#[verifier::external_body]
pub(crate) fn json_error_text(error: &serde_json::Error) -> String {
    error.to_string()
}

/// The text of `document`, on one line or pretty-printed, or `None` where it
/// cannot be written.
pub open spec fn json_text(document: JsonModel, compact: bool) -> Option<Seq<char>> {
    if compact {
        json_compact(document)
    } else {
        json_pretty(document)
    }
}

/// Writes `value` as text: on one line where `compact` is set, pretty-printed
/// otherwise. The text is returned where the value can be written in that form,
/// and the failure where it cannot.
pub fn render_json(value: &serde_json::Value, compact: bool) -> (written: Result<
    String,
    serde_json::Error,
>)
    ensures
        match written {
            Ok(text) => json_text(json_model(*value), compact) == Some(text@),
            Err(_) => json_text(json_model(*value), compact) is None,
        },
{
    if compact {
        to_compact(value)
    } else {
        to_pretty(value)
    }
}

/// The document that a body with a successful status stands for: the empty object
/// for an empty body, and for every other body the document that it parses to,
/// or else an object that holds the body under `raw`.
pub open spec fn success_document(body: Seq<char>, parsed: Option<JsonModel>) -> JsonModel {
    if body.len() == 0 {
        JsonModel::Object(no_members())
    } else {
        match parsed {
            Some(document) => document,
            None => JsonModel::Object(no_members().insert("raw"@, JsonModel::Str(body))),
        }
    }
}

/// The payload of a body that is not empty, given what parsing it came to: the
/// parsed document, or the body itself under `raw`.
pub fn wrap_parsed(body: &str, parsed: Option<serde_json::Value>) -> (value: serde_json::Value)
    ensures
        json_model(value) == (match parsed {
            Some(document) => json_model(document),
            None => JsonModel::Object(no_members().insert("raw"@, JsonModel::Str(body@))),
        }),
{
    match parsed {
        Some(document) => document,
        None => {
            let mut wrapped = empty_object();
            set_member(&mut wrapped, "raw", json_string(body.to_owned()));
            wrapped
        },
    }
}

/// The payload of a response with a successful status.
pub fn decode_success_body(body: &str) -> (value: serde_json::Value)
    ensures
        json_model(value) == success_document(body@, json_parse(body@)),
{
    if body.is_empty() {
        empty_object()
    } else {
        let parsed = parse_json(body);
        wrap_parsed(body, parsed)
    }
}

} // verus!
