//! The closed set of failures that every operation of the crate reports.

use crate::json::{
    error_text, json_document, json_error_text, json_member, json_null, json_string, member,
    parse_document,
};
use vstd::prelude::*;

verus! {

/// A failure that the remote API reported in the body of a response.
#[derive(Debug, Clone, PartialEq)]
pub struct ApiError {
    /// What went wrong, in words.
    pub message: String,
    /// The member `type` of the report: the class of the failure.
    pub kind: Option<String>,
    /// The parameter that the failure is about.
    pub param: Option<serde_json::Value>,
    /// A code for the failure.
    pub code: Option<serde_json::Value>,
}

/// The body of a response that reports a failure: `{"error": {..}}`.
#[derive(Debug, Clone, PartialEq)]
pub struct WrappedError {
    pub error: ApiError,
}

/// Why an operation failed. Every failure ends the operation that met it:
/// nothing is tried again.
#[derive(Debug, Clone, PartialEq)]
pub enum OpenAIError {
    /// The transport failed before a response was read: its own account of why.
    Reqwest(String),
    /// The remote API answered with a failure.
    ApiError(ApiError),
    /// A body did not have the expected shape: why, and the body itself.
    JSONDeserialize { message: String, body: Vec<u8> },
    /// The event stream broke.
    StreamError(String),
    /// The caller's request could not be built.
    InvalidArgument(String),
}

/// An [`ApiError`] as mathematical values.
pub struct ApiErrorView {
    pub message: Seq<char>,
    pub kind: Option<Seq<char>>,
    pub param: Option<serde_json::Value>,
    pub code: Option<serde_json::Value>,
}

/// An [`OpenAIError`] as mathematical values.
pub enum OpenAIErrorView {
    Reqwest(Seq<char>),
    ApiError(ApiErrorView),
    JSONDeserialize { message: Seq<char>, body: Seq<u8> },
    StreamError(Seq<char>),
    InvalidArgument(Seq<char>),
}

/// The text of an optional string.
pub open spec fn text_of(s: Option<String>) -> Option<Seq<char>> {
    match s {
        Some(s) => Some(s@),
        None => None,
    }
}

impl View for ApiError {
    type V = ApiErrorView;

    open spec fn view(&self) -> ApiErrorView {
        ApiErrorView {
            message: self.message@,
            kind: text_of(self.kind),
            param: self.param,
            code: self.code,
        }
    }
}

impl View for OpenAIError {
    type V = OpenAIErrorView;

    open spec fn view(&self) -> OpenAIErrorView {
        match *self {
            OpenAIError::Reqwest(s) => OpenAIErrorView::Reqwest(s@),
            OpenAIError::ApiError(e) => OpenAIErrorView::ApiError(e@),
            OpenAIError::JSONDeserialize { message, body } => OpenAIErrorView::JSONDeserialize {
                message: message@,
                body: body@,
            },
            OpenAIError::StreamError(s) => OpenAIErrorView::StreamError(s@),
            OpenAIError::InvalidArgument(s) => OpenAIErrorView::InvalidArgument(s@),
        }
    }
}

/// The failure that stands for a body that `serde_json` could not read as
/// the expected type.
pub open spec fn deserialization_failure(error: serde_json::Error, body: Seq<u8>) -> OpenAIErrorView {
    OpenAIErrorView::JSONDeserialize { message: json_error_text(error), body }
}

/// Turns the error of a failed deserialization into this crate's error,
/// and keeps the bytes that could not be read.
pub fn map_deserialization_error(e: serde_json::Error, bytes: &[u8]) -> (r: OpenAIError)
    ensures
        r@ == deserialization_failure(e, bytes@),
{
    OpenAIError::JSONDeserialize { message: error_text(&e), body: vstd::slice::slice_to_vec(bytes) }
}

/// The member `key` of `object`, where it is there and is not `null`.
pub open spec fn optional_member(object: serde_json::Value, key: Seq<char>) -> Option<
    serde_json::Value,
> {
    match json_member(object, key) {
        Some(v) => if json_null(v) {
            None
        } else {
            Some(v)
        },
        None => None,
    }
}

/// What the document says of a failure, or why it is no error envelope.
///
/// An envelope is an object with a member `error`, which has a string
/// `message`, a `type` that is a string, `null` or absent, and `param` and
/// `code` of any shape. Members beyond these are ignored.
pub open spec fn envelope(doc: serde_json::Value) -> Result<ApiErrorView, Seq<char>> {
    match json_member(doc, "error"@) {
        None => Err("missing field `error`"@),
        Some(inner) => match json_member(inner, "message"@) {
            None => Err("missing field `message`"@),
            Some(m) => match json_string(m) {
                None => Err("invalid type for field `message`: expected a string"@),
                Some(message) => {
                    let param = optional_member(inner, "param"@);
                    let code = optional_member(inner, "code"@);
                    match optional_member(inner, "type"@) {
                        None => Ok(ApiErrorView { message, kind: None, param, code }),
                        Some(t) => match json_string(t) {
                            None => Err(
                                "invalid type for field `type`: expected a string or null"@,
                            ),
                            Some(kind) => Ok(
                                ApiErrorView { message, kind: Some(kind), param, code },
                            ),
                        },
                    }
                },
            },
        },
    }
}

/// What the body of a failed call says: the failure that the remote API
/// reported, or the failure to read the body as an envelope.
pub open spec fn envelope_of_body(body: Seq<u8>) -> Result<ApiErrorView, OpenAIErrorView> {
    match json_document(body) {
        Err(e) => Err(deserialization_failure(e, body)),
        Ok(doc) => match envelope(doc) {
            Ok(api) => Ok(api),
            Err(message) => Err(OpenAIErrorView::JSONDeserialize { message, body }),
        },
    }
}

fn optional<'a>(object: &'a serde_json::Value, key: &str) -> (r: Option<&'a serde_json::Value>)
    ensures
        r is Some <==> optional_member(*object, key@) is Some,
        r is Some ==> *r->0 == optional_member(*object, key@)->0,
{
    match member(object, key) {
        Some(v) => if v.is_null() {
            None
        } else {
            Some(v)
        },
        None => None,
    }
}

fn owned(value: Option<&serde_json::Value>) -> (r: Option<serde_json::Value>)
    ensures
        r is Some <==> value is Some,
        r is Some ==> r->0 == *value->0,
{
    match value {
        Some(v) => Some(v.clone()),
        None => None,
    }
}

fn read_envelope(doc: &serde_json::Value) -> (r: Result<ApiError, &'static str>)
    ensures
        match (r, envelope(*doc)) {
            (Ok(api), Ok(v)) => api@ == v,
            (Err(why), Err(v)) => why@ == v,
            _ => false,
        },
{
    let inner = match member(doc, "error") {
        Some(inner) => inner,
        None => { return Err("missing field `error`"); },
    };
    let message = match member(inner, "message") {
        Some(m) => match m.as_str() {
            Some(text) => text.to_owned(),
            None => { return Err("invalid type for field `message`: expected a string"); },
        },
        None => { return Err("missing field `message`"); },
    };
    let kind = match optional(inner, "type") {
        Some(t) => match t.as_str() {
            Some(text) => Some(text.to_owned()),
            None => { return Err("invalid type for field `type`: expected a string or null"); },
        },
        None => None,
    };
    let param = owned(optional(inner, "param"));
    let code = owned(optional(inner, "code"));
    Ok(ApiError { message, kind, param, code })
}

impl WrappedError {
    /// Reads the body of a failed call as an error envelope.
    ///
    /// Fails with `JSONDeserialize`, which keeps the body, where the bytes are
    /// no JSON document or the document is no envelope.
    pub fn from_slice(bytes: &[u8]) -> (r: Result<WrappedError, OpenAIError>)
        ensures
            match (r, envelope_of_body(bytes@)) {
                (Ok(wrapped), Ok(v)) => wrapped.error@ == v,
                (Err(e), Err(v)) => e@ == v,
                _ => false,
            },
    {
        match parse_document(bytes) {
            Err(e) => Err(map_deserialization_error(e, bytes)),
            Ok(doc) => match read_envelope(&doc) {
                Ok(error) => Ok(WrappedError { error }),
                Err(why) => Err(
                    OpenAIError::JSONDeserialize {
                        message: why.to_owned(),
                        body: vstd::slice::slice_to_vec(bytes),
                    },
                ),
            },
        }
    }
}

} // verus!
