//! Requests and responses as plain values: what is sent, and what came back.

use vstd::prelude::*;

verus! {

/// The HTTP methods that the pipeline uses.
#[derive(Debug, Clone, Copy, PartialEq, Eq)]
pub enum Method {
    Get,
    Post,
    Delete,
}

/// A file as one part of a multipart form.
#[derive(Debug, Clone, PartialEq)]
pub struct FilePart {
    pub file_name: String,
    pub mime: String,
    pub content: Vec<u8>,
}

/// The value of one field of a multipart form.
#[derive(Debug, Clone, PartialEq)]
pub enum Part {
    Text(String),
    File(FilePart),
}

/// A multipart form: its fields by name, in order.
#[derive(Debug, Clone, PartialEq)]
pub struct Form {
    pub parts: Vec<(String, Part)>,
}

impl Form {
    /// The fields of the form: each name with its value, in order.
    pub open spec fn fields(self) -> Seq<(String, Part)> {
        self.parts@
    }

    /// A form without fields.
    pub fn new() -> (form: Form)
        ensures
            form.fields() == Seq::<(String, Part)>::empty(),
    {
        Form { parts: Vec::new() }
    }

    /// The form with one more field, a text.
    pub fn text(self, name: String, value: String) -> (form: Form)
        ensures
            form.fields() == self.fields().push((name, Part::Text(value))),
    {
        let mut form = self;
        form.parts.push((name, Part::Text(value)));
        form
    }

    /// The form with one more field, a file.
    pub fn part(self, name: String, part: FilePart) -> (form: Form)
        ensures
            form.fields() == self.fields().push((name, Part::File(part))),
    {
        let mut form = self;
        form.parts.push((name, Part::File(part)));
        form
    }
}

/// What a request carries. A request has a JSON document, a multipart form
/// or nothing, never two of them.
#[derive(Debug, Clone, PartialEq)]
pub enum Body {
    Empty,
    Json(serde_json::Value),
    Multipart(Form),
}

/// One HTTP request, ready to be sent.
#[derive(Debug, Clone, PartialEq)]
pub struct Request {
    pub method: Method,
    pub url: String,
    pub query: Vec<(String, String)>,
    pub headers: Vec<(String, String)>,
    pub body: Body,
}

/// An HTTP response, read to its end.
#[derive(Debug, Clone, PartialEq)]
pub struct RawResponse {
    pub status: u16,
    pub body: Vec<u8>,
}

/// Is this the status of a call that succeeded? The class 2xx, and no other.
pub open spec fn is_success(status: u16) -> bool {
    200 <= status < 300
}

impl RawResponse {
    /// Is this the response to a call that succeeded?
    pub fn is_success(&self) -> (b: bool)
        ensures
            b == is_success(self.status),
    {
        200 <= self.status && self.status < 300
    }
}

} // verus!
