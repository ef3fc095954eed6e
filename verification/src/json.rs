use vstd::prelude::*;

verus! {

/// `serde_json::Value`, a parsed JSON document. Its inside is not visible to
/// the proofs: they speak of it through [`members`] and [`text_of`].
#[verifier::external_type_specification]
#[verifier::external_body]
pub struct ExJsonValue(serde_json::Value);

/// `serde_json::Error`, carried from the parser to the place where it is
/// turned into text.
#[verifier::external_type_specification]
#[verifier::external_body]
pub struct ExJsonError(serde_json::Error);

/// What `serde_json::from_str` makes of a text when it is asked for a
/// `serde_json::Value`.
pub uninterp spec fn parsed_json(text: Seq<char>) -> Result<serde_json::Value, serde_json::Error>;

/// The text that a `serde_json::Error` displays as.
pub uninterp spec fn error_text(error: serde_json::Error) -> Seq<char>;

/// The members of a JSON object, by key. A value that is no object has none.
pub uninterp spec fn members(doc: serde_json::Value) -> Map<Seq<char>, serde_json::Value>;

/// The text of a JSON string; `None` for a value of any other JSON type.
pub uninterp spec fn text_of(value: serde_json::Value) -> Option<Seq<char>>;

/// Calls `serde_json::from_str::<serde_json::Value>`. The contract only names
/// the outcome: the same text always parses to the same outcome.
#[verifier::external_body]
pub(crate) fn parse_json(text: &str) -> (outcome: Result<serde_json::Value, serde_json::Error>)
    ensures
        outcome == parsed_json(text@),
{
    serde_json::from_str::<serde_json::Value>(text)
}

/// Calls `to_string` on a `serde_json::Error`, which renders it through its
/// `Display` impl. The contract only names the text.
#[verifier::external_body]
pub(crate) fn describe(error: &serde_json::Error) -> (text: String)
    ensures
        text@ == error_text(*error),
{
    error.to_string()
}

/// Calls `serde_json::Value::get` with a string key: the member under that key
/// where the value is an object that has one, `None` otherwise.
#[verifier::external_body]
pub(crate) fn member<'a>(doc: &'a serde_json::Value, key: &str) -> (found: Option<
    &'a serde_json::Value,
>)
    ensures
        found is Some <==> members(*doc).contains_key(key@),
        found matches Some(value) ==> *value == members(*doc)[key@],
{
    doc.get(key)
}

/// Calls `serde_json::Value::as_str`: the text where the value is a JSON
/// string, `None` otherwise.
#[verifier::external_body]
pub(crate) fn as_text<'a>(value: &'a serde_json::Value) -> (text: Option<&'a str>)
    ensures
        text is Some <==> text_of(*value) is Some,
        text matches Some(t) ==> t@ == text_of(*value).unwrap(),
{
    value.as_str()
}

} // verus!
