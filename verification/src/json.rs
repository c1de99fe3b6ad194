//! The JSON reader and writer that the store relies on.
//!
//! Nothing in this file is proved. Each item states, of one function of
//! `serde_json`, what the rest of the library takes for granted.

use vstd::prelude::*;

verus! {

/// A parsed JSON document. Its inside is hidden; [`document_members`] names
/// what the library reads from it.
#[verifier::external_type_specification]
#[verifier::external_body]
pub struct ExJsonValue(serde_json::Value);

/// The error of `serde_json`. Its inside is hidden; [`error_text`] names its
/// message.
#[verifier::external_type_specification]
#[verifier::external_body]
pub struct ExJsonError(serde_json::Error);

/// The members of a document by name: `Some(text)` for a member that is a JSON
/// string, `None` for a member of any other type. A document that is not a JSON
/// object has no members.
pub uninterp spec fn document_members(document: serde_json::Value) -> Map<
    Seq<char>,
    Option<Seq<char>>,
>;

/// The message that an error displays.
pub uninterp spec fn error_text(error: serde_json::Error) -> Seq<char>;

/// What `serde_json::from_str` makes of a text when asked for a
/// `serde_json::Value`: the members of the document, or the message of the
/// error.
pub uninterp spec fn json_document(text: Seq<char>) -> Result<
    Map<Seq<char>, Option<Seq<char>>>,
    Seq<char>,
>;

/// What `serde_json::to_string_pretty` makes of a string: the JSON string
/// literal, quotes included, or the message of the error.
pub uninterp spec fn json_string(text: Seq<char>) -> Result<Seq<char>, Seq<char>>;

/// `serde_json::from_str::<serde_json::Value>`. The result depends on the text
/// alone: either a document, whose members are those that [`json_document`]
/// names, or an error, whose message is the one that it names.
#[verifier::external_body]
pub(crate) fn parse_document(text: &str) -> (parsed: Result<serde_json::Value, serde_json::Error>)
    ensures
        match parsed {
            Ok(document) => json_document(text@) == Ok::<
                Map<Seq<char>, Option<Seq<char>>>,
                Seq<char>,
            >(document_members(document)),
            Err(error) => json_document(text@) == Err::<
                Map<Seq<char>, Option<Seq<char>>>,
                Seq<char>,
            >(error_text(error)),
        },
{
    serde_json::from_str::<serde_json::Value>(text)
}

/// `serde_json::Value::get` with a name as index, the member found handed out
/// as `serde_json::Value::as_str` sees it. `None` where the document is not an
/// object or has no member of that name; `Some(None)` where the member is not
/// a string; `Some(Some(text))` where it is the string `text`.
#[verifier::external_body]
pub(crate) fn member_text(document: &serde_json::Value, name: &str) -> (member: Option<
    Option<String>,
>)
    ensures
        match member {
            None => !document_members(*document).contains_key(name@),
            Some(None) => document_members(*document).contains_key(name@) && document_members(
                *document,
            )[name@] is None,
            Some(Some(text)) => document_members(*document).contains_key(name@) && document_members(
                *document,
            )[name@] == Some(text@),
        },
{
    document.get(name).map(|value| value.as_str().map(String::from))
}

/// `serde_json::to_string_pretty` on a string. The result depends on the text
/// alone, and is the one that [`json_string`] names.
#[verifier::external_body]
pub(crate) fn quote_text(text: &str) -> (quoted: Result<String, serde_json::Error>)
    ensures
        match quoted {
            Ok(literal) => json_string(text@) == Ok::<Seq<char>, Seq<char>>(literal@),
            Err(error) => json_string(text@) == Err::<Seq<char>, Seq<char>>(error_text(error)),
        },
{
    serde_json::to_string_pretty(text)
}

/// The `Display` of `serde_json::Error`, through `to_string`: the message that
/// [`error_text`] names.
#[verifier::external_body]
pub(crate) fn error_message(error: &serde_json::Error) -> (message: String)
    ensures
        message@ == error_text(*error),
{
    error.to_string()
}

} // verus!
