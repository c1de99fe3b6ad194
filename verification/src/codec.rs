//! The text form of a record: a JSON object with three string members.

use crate::error::{ErrorKind, Failure, StoreError};
use crate::json::{
    error_message, json_document, json_string, member_text, parse_document, quote_text,
};
use crate::record::{TokenData, TokenRecord};
use vstd::prelude::*;

verus! {

/// The text of a record whose three members are already written as JSON
/// string literals: one member per line, indented by two spaces, in the order
/// access token, refresh token, expiry.
pub open spec fn record_text(access: Seq<char>, refresh: Seq<char>, expires: Seq<char>) -> Seq<
    char,
> {
    "{\n  \"accessToken\": "@ + access + ",\n  \"refreshToken\": "@ + refresh
        + ",\n  \"expiresAt\": "@ + expires + "\n}"@
}

/// The message for a document that lacks the member `name`.
pub open spec fn missing_field(name: Seq<char>) -> Seq<char> {
    "missing field `"@ + name + "`"@
}

/// The message for a document whose member `name` is not a string.
pub open spec fn field_not_text(name: Seq<char>) -> Seq<char> {
    "field `"@ + name + "` is not a string"@
}

/// The message for a record whose text does not read back as the record.
pub open spec fn unreadable_record() -> Seq<char> {
    "the record does not survive decoding"@
}

/// A failure to decode, with the given message.
pub open spec fn decode_failure(message: Seq<char>) -> Failure {
    Failure { kind: ErrorKind::Decode, message }
}

/// A failure to encode, with the given message.
pub open spec fn encode_failure(message: Seq<char>) -> Failure {
    Failure { kind: ErrorKind::Encode, message }
}

/// What a document offers under `name`: nothing, a member that is not a
/// string, or a string.
pub open spec fn member_of(members: Map<Seq<char>, Option<Seq<char>>>, name: Seq<char>) -> Option<
    Option<Seq<char>>,
> {
    if members.contains_key(name) {
        Some(members[name])
    } else {
        None
    }
}

/// The mathematical value of a member as the JSON reader hands it out.
pub open spec fn member_view(member: Option<Option<String>>) -> Option<Option<Seq<char>>> {
    match member {
        None => None,
        Some(None) => Some(None),
        Some(Some(text)) => Some(Some(text@)),
    }
}

/// The text of the member `name`, or why the member cannot be a field of a
/// record.
pub open spec fn field_of(member: Option<Option<Seq<char>>>, name: Seq<char>) -> Result<
    Seq<char>,
    Failure,
> {
    match member {
        None => Err(decode_failure(missing_field(name))),
        Some(None) => Err(decode_failure(field_not_text(name))),
        Some(Some(text)) => Ok(text),
    }
}

/// The record that three members make. All three must be strings; the first
/// that is not, in the order access token, refresh token, expiry, gives the
/// failure.
pub open spec fn record_of(
    access: Option<Option<Seq<char>>>,
    refresh: Option<Option<Seq<char>>>,
    expires: Option<Option<Seq<char>>>,
) -> Result<TokenRecord, Failure> {
    match field_of(access, "accessToken"@) {
        Err(failure) => Err(failure),
        Ok(access_token) => match field_of(refresh, "refreshToken"@) {
            Err(failure) => Err(failure),
            Ok(refresh_token) => match field_of(expires, "expiresAt"@) {
                Err(failure) => Err(failure),
                Ok(expires_at) => Ok(TokenRecord { access_token, refresh_token, expires_at }),
            },
        },
    }
}

/// What a text decodes to. A text that is not JSON fails with the reader's
/// message. A document is a record if it has string members named
/// `accessToken`, `refreshToken` and `expiresAt`; other members are ignored.
pub open spec fn decoded(text: Seq<char>) -> Result<TokenRecord, Failure> {
    match json_document(text) {
        Err(message) => Err(decode_failure(message)),
        Ok(members) => record_of(
            member_of(members, "accessToken"@),
            member_of(members, "refreshToken"@),
            member_of(members, "expiresAt"@),
        ),
    }
}

/// The text that three JSON string literals make, if it reads back as
/// `record`.
pub open spec fn sealed(
    record: TokenRecord,
    access: Seq<char>,
    refresh: Seq<char>,
    expires: Seq<char>,
) -> Result<Seq<char>, Failure> {
    let text = record_text(access, refresh, expires);
    if decoded(text) == Ok::<TokenRecord, Failure>(record) {
        Ok(text)
    } else {
        Err(encode_failure(unreadable_record()))
    }
}

/// What a record encodes to. Each field is written as a JSON string literal;
/// the first that cannot be, in the order access token, refresh token, expiry,
/// fails with the writer's message. The text is only given out if it decodes
/// to the record again.
pub open spec fn encoded(record: TokenRecord) -> Result<Seq<char>, Failure> {
    match json_string(record.access_token) {
        Err(message) => Err(encode_failure(message)),
        Ok(access) => match json_string(record.refresh_token) {
            Err(message) => Err(encode_failure(message)),
            Ok(refresh) => match json_string(record.expires_at) {
                Err(message) => Err(encode_failure(message)),
                Ok(expires) => sealed(record, access, refresh, expires),
            },
        },
    }
}

/// Puts three JSON string literals into the text of a record.
pub fn frame_record(access: &str, refresh: &str, expires: &str) -> (text: String)
    ensures
        text@ == record_text(access@, refresh@, expires@),
{
    let mut text = String::from_str("{\n  \"accessToken\": ");
    text.append(access);
    text.append(",\n  \"refreshToken\": ");
    text.append(refresh);
    text.append(",\n  \"expiresAt\": ");
    text.append(expires);
    text.append("\n}");
    text
}

/// Takes the text out of one member, or says why it cannot be a field.
fn field_from_member(member: Option<Option<String>>, name: &str) -> (field: Result<
    String,
    StoreError,
>)
    ensures
        match field {
            Ok(text) => field_of(member_view(member), name@) == Ok::<Seq<char>, Failure>(text@),
            Err(error) => field_of(member_view(member), name@) == Err::<Seq<char>, Failure>(
                error@,
            ),
        },
{
    match member {
        None => {
            let mut message = String::from_str("missing field `");
            message.append(name);
            message.append("`");
            Err(StoreError::new(ErrorKind::Decode, message))
        },
        Some(None) => {
            let mut message = String::from_str("field `");
            message.append(name);
            message.append("` is not a string");
            Err(StoreError::new(ErrorKind::Decode, message))
        },
        Some(Some(text)) => Ok(text),
    }
}

/// Builds the record from what a document holds under the three field names,
/// each as the JSON reader hands it out: `None` for no such member,
/// `Some(None)` for a member that is not a string, `Some(Some(text))` for a
/// string.
pub fn record_from_members(
    access: Option<Option<String>>,
    refresh: Option<Option<String>>,
    expires: Option<Option<String>>,
) -> (result: Result<TokenData, StoreError>)
    ensures
        match result {
            Ok(data) => record_of(member_view(access), member_view(refresh), member_view(expires))
                == Ok::<TokenRecord, Failure>(data@),
            Err(error) => record_of(
                member_view(access),
                member_view(refresh),
                member_view(expires),
            ) == Err::<TokenRecord, Failure>(error@),
        },
{
    let access_token = match field_from_member(access, "accessToken") {
        Ok(text) => text,
        Err(error) => { return Err(error); },
    };
    let refresh_token = match field_from_member(refresh, "refreshToken") {
        Ok(text) => text,
        Err(error) => { return Err(error); },
    };
    let expires_at = match field_from_member(expires, "expiresAt") {
        Ok(text) => text,
        Err(error) => { return Err(error); },
    };
    Ok(TokenData::new(access_token, refresh_token, expires_at))
}

/// Reads a record from its text.
pub fn decode(text: &str) -> (result: Result<TokenData, StoreError>)
    ensures
        match result {
            Ok(data) => decoded(text@) == Ok::<TokenRecord, Failure>(data@),
            Err(error) => decoded(text@) == Err::<TokenRecord, Failure>(error@),
        },
{
    match parse_document(text) {
        Err(error) => Err(StoreError::new(ErrorKind::Decode, error_message(&error))),
        Ok(document) => {
            let access = member_text(&document, "accessToken");
            let refresh = member_text(&document, "refreshToken");
            let expires = member_text(&document, "expiresAt");
            record_from_members(access, refresh, expires)
        },
    }
}

/// Hands out the framed text of `data` if it decodes to `data` again.
pub fn seal_record(data: &TokenData, access: &str, refresh: &str, expires: &str) -> (result: Result<
    String,
    StoreError,
>)
    ensures
        match result {
            Ok(text) => sealed(data@, access@, refresh@, expires@) == Ok::<Seq<char>, Failure>(
                text@,
            ),
            Err(error) => sealed(data@, access@, refresh@, expires@) == Err::<Seq<char>, Failure>(
                error@,
            ),
        },
{
    let text = frame_record(access, refresh, expires);
    let survives = match decode(text.as_str()) {
        Ok(back) => back.access_token == data.access_token && back.refresh_token
            == data.refresh_token && back.expires_at == data.expires_at,
        Err(_) => false,
    };
    if survives {
        Ok(text)
    } else {
        Err(
            StoreError::new(
                ErrorKind::Encode,
                String::from_str("the record does not survive decoding"),
            ),
        )
    }
}

/// Writes one field as a JSON string literal.
fn quote_field(field: &str) -> (result: Result<String, StoreError>)
    ensures
        match result {
            Ok(literal) => json_string(field@) == Ok::<Seq<char>, Seq<char>>(literal@),
            Err(error) => json_string(field@) matches Err(message) && error@ == encode_failure(
                message,
            ),
        },
{
    match quote_text(field) {
        Ok(literal) => Ok(literal),
        Err(error) => Err(StoreError::new(ErrorKind::Encode, error_message(&error))),
    }
}

/// Writes a record as text.
pub fn encode(data: &TokenData) -> (result: Result<String, StoreError>)
    ensures
        match result {
            Ok(text) => encoded(data@) == Ok::<Seq<char>, Failure>(text@),
            Err(error) => encoded(data@) == Err::<Seq<char>, Failure>(error@),
        },
{
    let access = match quote_field(data.access_token.as_str()) {
        Ok(literal) => literal,
        Err(error) => { return Err(error); },
    };
    let refresh = match quote_field(data.refresh_token.as_str()) {
        Ok(literal) => literal,
        Err(error) => { return Err(error); },
    };
    let expires = match quote_field(data.expires_at.as_str()) {
        Ok(literal) => literal,
        Err(error) => { return Err(error); },
    };
    seal_record(data, access.as_str(), refresh.as_str(), expires.as_str())
}

/// Every failure to decode is of kind [`ErrorKind::Decode`], and every
/// failure to encode of kind [`ErrorKind::Encode`].
pub proof fn codec_fails_in_kind(text: Seq<char>, record: TokenRecord)
    ensures
        decoded(text) matches Err(failure) ==> failure.kind == ErrorKind::Decode,
        encoded(record) matches Err(failure) ==> failure.kind == ErrorKind::Encode,
{
}

/// A text that encoding hands out decodes to the record it was made from.
pub proof fn encoded_text_decodes(record: TokenRecord)
    ensures
        encoded(record) matches Ok(text) ==> decoded(text) == Ok::<TokenRecord, Failure>(record),
{
}

} // verus!
