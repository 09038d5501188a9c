//! From the payload of a frame to a request.
//!
//! A payload is UTF-8 text; the text is a JSON document; the document is an
//! object whose member `type` is the discriminant of the request. Parsing
//! JSON is the work of `serde_json`; what the members mean is decided here.

use crate::dto::InMessage;
use crate::error::{SessionError, SessionErrorView};
use vstd::prelude::*;
use vstd::utf8::{decode_utf8, encode_utf8, encode_utf8_decode_utf8, valid_utf8};

verus! {

/// `serde_json::Error`, what the JSON parser says of a text that it could not
/// read. The library carries it to the log and looks at nothing in it.
#[verifier::external_type_specification]
#[verifier::external_body]
pub struct ExJsonError(serde_json::Error);

/// `core::str::Utf8Error`, what `core::str::from_utf8` says of bytes that are
/// no text. The library looks at nothing in it.
#[verifier::external_type_specification]
#[verifier::external_body]
pub struct ExUtf8Error(core::str::Utf8Error);

/// What `serde_json` makes of a text and a key: `None` where the text is
/// no JSON document; `Some(None)` where it is one, but is no object, or has no
/// member of that key, or the member is no number that fits `u64`;
/// `Some(Some(n))` where the member is the number `n`.
pub uninterp spec fn json_member_u64(text: Seq<char>, key: Seq<char>) -> Option<Option<u64>>;

/// Parses `text` with `serde_json::from_str` into a `serde_json::Value`, looks
/// `key` up in it with `Value::get` and reads the member with `Value::as_u64`.
/// All three depend on their arguments alone; the contract gives the outcome
/// its name and says no more of it.
#[verifier::external_body]
fn member_u64(text: &str, key: &str) -> (member: Result<Option<u64>, serde_json::Error>)
    ensures
        match member {
            Ok(number) => json_member_u64(text@, key@) == Some(number),
            Err(_) => json_member_u64(text@, key@) is None,
        },
{
    let value: serde_json::Value = serde_json::from_str(text)?;
    Ok(value.get(key).and_then(serde_json::Value::as_u64))
}

/// `core::str::from_utf8`: it succeeds on exactly the byte strings that are
/// well-formed UTF-8, and the text it then returns is made of those bytes.
#[verifier::external_body]
fn text_of_bytes(bytes: &[u8]) -> (text: Result<&str, core::str::Utf8Error>)
    ensures
        text is Ok <==> valid_utf8(bytes@),
        text matches Ok(t) ==> encode_utf8(t@) == bytes@,
{
    core::str::from_utf8(bytes)
}

/// The key of the member that holds a message's discriminant.
pub open spec fn type_key() -> Seq<char> {
    "type"@
}

/// The request that a document stands for, given what the JSON parser made
/// of its text.
pub open spec fn request_of(member: Option<Option<u64>>, source_string: Seq<char>) -> Result<
    InMessage,
    SessionErrorView,
> {
    match member {
        None => Err(SessionErrorView::Syntax { source_string }),
        Some(None) => Err(SessionErrorView::Protocol { tag: None, source_string }),
        Some(Some(tag)) => match InMessage::of_tag(tag) {
            Some(request) => Ok(request),
            None => Err(SessionErrorView::Protocol { tag: Some(tag), source_string }),
        },
    }
}

/// The request that a payload stands for.
pub open spec fn decoded(payload: Seq<u8>) -> Result<InMessage, SessionErrorView> {
    if valid_utf8(payload) {
        let text = decode_utf8(payload);
        request_of(json_member_u64(text, type_key()), text)
    } else {
        Err(SessionErrorView::Encoding { raw: payload })
    }
}

/// Whether an outcome is the expected one: the same request, or an error of
/// the same value.
pub open spec fn outcome_is(outcome: Result<InMessage, SessionError>, expected: Result<
    InMessage,
    SessionErrorView,
>) -> bool {
    match outcome {
        Ok(request) => expected == Ok::<InMessage, SessionErrorView>(request),
        Err(error) => expected == Err::<InMessage, SessionErrorView>(error@),
    }
}

/// The text of a payload. A payload that is no well-formed UTF-8 comes back
/// whole inside the error.
pub fn decode_text(payload: Vec<u8>) -> (text: Result<String, SessionError>)
    ensures
        match text {
            Ok(t) => valid_utf8(payload@) && t@ == decode_utf8(payload@),
            Err(error) => !valid_utf8(payload@) && error@ == (SessionErrorView::Encoding {
                raw: payload@,
            }),
        },
{
    let owned = match text_of_bytes(payload.as_slice()) {
        Ok(t) => {
            proof {
                encode_utf8_decode_utf8(t@);
            }
            Some(t.to_owned())
        },
        Err(_) => None,
    };
    match owned {
        Some(t) => Ok(t),
        None => Err(SessionError::Encoding { raw: payload }),
    }
}

/// The request of a document whose text the JSON parser has already been
/// through: `member` is what it made of the member `type`.
pub fn request_from_member(member: Result<Option<u64>, serde_json::Error>, text: &str) -> (request:
    Result<InMessage, SessionError>)
    ensures
        outcome_is(
            request,
            request_of(
                match member {
                    Ok(number) => Some(number),
                    Err(_) => None,
                },
                text@,
            ),
        ),
{
    match member {
        Err(error) => Err(SessionError::Syntax { error, source_string: text.to_owned() }),
        Ok(None) => Err(SessionError::Protocol { tag: None, source_string: text.to_owned() }),
        Ok(Some(tag)) => match InMessage::from_tag(tag) {
            Some(request) => Ok(request),
            None => Err(SessionError::Protocol { tag: Some(tag), source_string: text.to_owned() }),
        },
    }
}

/// The request that a JSON text stands for.
pub fn decode_request(text: &str) -> (request: Result<InMessage, SessionError>)
    ensures
        outcome_is(request, request_of(json_member_u64(text@, type_key()), text@)),
{
    request_from_member(member_u64(text, "type"), text)
}

/// The request that the payload of a frame stands for.
pub fn decode(payload: Vec<u8>) -> (request: Result<InMessage, SessionError>)
    ensures
        outcome_is(request, decoded(payload@)),
{
    match decode_text(payload) {
        Ok(text) => decode_request(text.as_str()),
        Err(error) => Err(error),
    }
}

} // verus!
