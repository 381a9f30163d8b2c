//! Decoding of a message body into a telemetry record.

use vstd::prelude::*;
use crate::error::{missing_body_detail, ParseError, ParseErrorView};

verus! {

/// `serde_json::Map`, the members of a JSON object. Opaque to the verifier:
/// it is carried from the decoder to the sink and never looked into.
#[verifier::external_type_specification]
#[verifier::external_body]
#[verifier::reject_recursive_types(K)]
#[verifier::reject_recursive_types(V)]
pub struct ExJsonMap<K, V>(serde_json::Map<K, V>);

/// `serde_json::Value`, a JSON value. Opaque to the verifier.
#[verifier::external_type_specification]
#[verifier::external_body]
pub struct ExJsonValue(serde_json::Value);

/// What the JSON decoder makes of `text` when it is asked for one JSON
/// object: the members of the object, or the decoder's diagnostic when `text`
/// is not the text of a JSON object. Trusted to be a function of the text
/// alone.
pub uninterp spec fn object_decoding(text: Seq<char>) -> Result<
    serde_json::Map<String, serde_json::Value>,
    Seq<char>,
>;

/// The model of a decoding attempt: the members as they are, the diagnostic
/// by its text.
pub open spec fn decoding_view(
    decoded: Result<serde_json::Map<String, serde_json::Value>, String>,
) -> Result<serde_json::Map<String, serde_json::Value>, Seq<char>> {
    match decoded {
        Ok(members) => Ok(members),
        Err(diagnostic) => Err(diagnostic@),
    }
}

/// Runs `serde_json::from_str` with `serde_json::Map<String, Value>` as the
/// target type, and renders a `serde_json::Error` through its `Display` impl.
///
/// Trusted: what comes back is what [`object_decoding`] names for the text,
/// the members on success and the rendered error otherwise; and a rendered
/// error is never empty, because the rendering always writes the text of the
/// error's code, which is followed by the line and column of the error.
#[verifier::external_body]
fn decode_object(text: &str) -> (decoded: Result<serde_json::Map<String, serde_json::Value>, String>)
    ensures
        decoding_view(decoded) == object_decoding(text@),
        decoded matches Err(diagnostic) ==> diagnostic@.len() > 0,
{
    match serde_json::from_str::<serde_json::Map<String, serde_json::Value>>(text) {
        Ok(fields) => Ok(fields),
        Err(error) => Err(error.to_string()),
    }
}

/// The decoded form of a message body: the members of a JSON object.
pub struct TelemetryRecord {
    /// The members of the decoded object.
    pub fields: serde_json::Map<String, serde_json::Value>,
}

impl View for TelemetryRecord {
    type V = serde_json::Map<String, serde_json::Value>;

    /// A record is modelled by the members it holds.
    open spec fn view(&self) -> serde_json::Map<String, serde_json::Value> {
        self.fields
    }
}

/// What decoding an optional body yields: the members of the object that the
/// body is the text of, or the reason why there is no record.
pub open spec fn parse_result(body: Option<Seq<char>>) -> Result<
    serde_json::Map<String, serde_json::Value>,
    ParseErrorView,
> {
    match body {
        None => Err(ParseErrorView::Missing),
        Some(text) => match object_decoding(text) {
            Ok(members) => Ok(members),
            Err(diagnostic) => Err(ParseErrorView::Malformed(diagnostic)),
        },
    }
}

/// The model of an optional body.
pub open spec fn body_view(body: Option<&str>) -> Option<Seq<char>> {
    match body {
        Some(text) => Some(text@),
        None => None,
    }
}

/// The model of the result of [`MessageParser::parse`].
pub open spec fn parsed_view(parsed: Result<TelemetryRecord, ParseError>) -> Result<
    serde_json::Map<String, serde_json::Value>,
    ParseErrorView,
> {
    match parsed {
        Ok(record) => Ok(record@),
        Err(error) => Err(error@),
    }
}

/// What the parser answers to a decoding attempt: the record of the decoded
/// members, or a malformed body with the decoder's diagnostic.
pub open spec fn interpreted(
    decoded: Result<serde_json::Map<String, serde_json::Value>, Seq<char>>,
) -> Result<serde_json::Map<String, serde_json::Value>, ParseErrorView> {
    match decoded {
        Ok(members) => Ok(members),
        Err(diagnostic) => Err(ParseErrorView::Malformed(diagnostic)),
    }
}

/// The detail of a missing body is not empty.
pub proof fn missing_body_detail_is_not_empty()
    ensures
        missing_body_detail().len() > 0,
{
    reveal_strlit("message body is missing");
}

/// Validates and decodes single message bodies.
pub struct MessageParser;

impl MessageParser {
    /// Turns what the decoder made of a body into the parser's answer: the
    /// record of the decoded members, or `ParseError::Malformed` with the
    /// decoder's diagnostic.
    pub fn interpret(decoded: Result<serde_json::Map<String, serde_json::Value>, String>) -> (parsed:
        Result<TelemetryRecord, ParseError>)
        ensures
            parsed_view(parsed) == interpreted(decoding_view(decoded)),
    {
        match decoded {
            Ok(fields) => Ok(TelemetryRecord { fields }),
            Err(diagnostic) => Err(ParseError::Malformed(diagnostic)),
        }
    }

    /// Decodes a message body. An absent body is `ParseError::Missing`; a body
    /// that is not the text of a JSON object is `ParseError::Malformed` with
    /// the decoder's diagnostic; every other body yields the record of the
    /// members that the decoder read from it. The detail of an error is never
    /// empty.
    pub fn parse(body: Option<&str>) -> (parsed: Result<TelemetryRecord, ParseError>)
        ensures
            parsed_view(parsed) == parse_result(body_view(body)),
            parsed matches Err(error) ==> error@.detail().len() > 0,
    {
        match body {
            None => {
                proof {
                    missing_body_detail_is_not_empty();
                }
                Err(ParseError::Missing)
            },
            Some(text) => MessageParser::interpret(decode_object(text)),
        }
    }
}

} // verus!
