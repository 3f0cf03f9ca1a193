//! Requests and answers, as plain data: what is sent to a service and what
//! came back, without the sending.

use crate::failure::{Failure, FailureView};
use crate::json::{json_document, Json, JsonView};
use crate::result_view;
use crate::text::{lossy_text, string_from_utf8_lossy};
use vstd::prelude::*;

verus! {

/// One header line of a request.
#[derive(Debug, PartialEq, Eq)]
pub struct Header {
    pub name: String,
    pub value: String,
}

/// One field of a multipart form.
#[derive(Debug, PartialEq, Eq)]
pub enum Part {
    /// A text field.
    Text { name: String, value: String },
    /// A file field: the file's name and content type as declared to the
    /// service, and its bytes.
    File { name: String, file_name: String, mime: String, content: Vec<u8> },
}

/// The body of a request.
#[derive(Debug, PartialEq, Eq)]
pub enum Body {
    /// A multipart form with these fields, in this order.
    Form(Vec<Part>),
    /// A JSON document.
    Json(Json),
}

/// A POST request.
#[derive(Debug, PartialEq, Eq)]
pub struct HttpRequest {
    pub url: String,
    pub headers: Vec<Header>,
    pub body: Body,
}

/// The answer to a request: its status code and the bytes of its body.
#[derive(Debug, PartialEq, Eq)]
pub struct HttpResponse {
    pub status: u16,
    pub body: Vec<u8>,
}

pub struct HeaderView {
    pub name: Seq<char>,
    pub value: Seq<char>,
}

pub enum PartView {
    Text { name: Seq<char>, value: Seq<char> },
    File { name: Seq<char>, file_name: Seq<char>, mime: Seq<char>, content: Seq<u8> },
}

pub enum BodyView {
    Form(Seq<PartView>),
    Json(JsonView),
}

pub struct HttpRequestView {
    pub url: Seq<char>,
    pub headers: Seq<HeaderView>,
    pub body: BodyView,
}

pub struct HttpResponseView {
    pub status: u16,
    pub body: Seq<u8>,
}

impl View for Header {
    type V = HeaderView;

    open spec fn view(&self) -> HeaderView {
        HeaderView { name: self.name@, value: self.value@ }
    }
}

impl View for Part {
    type V = PartView;

    open spec fn view(&self) -> PartView {
        match self {
            Part::Text { name, value } => PartView::Text { name: name@, value: value@ },
            Part::File { name, file_name, mime, content } => PartView::File {
                name: name@,
                file_name: file_name@,
                mime: mime@,
                content: content@,
            },
        }
    }
}

impl View for Body {
    type V = BodyView;

    open spec fn view(&self) -> BodyView {
        match self {
            Body::Form(parts) => BodyView::Form(parts@.map_values(|p: Part| p@)),
            Body::Json(document) => BodyView::Json(document@),
        }
    }
}

impl View for HttpRequest {
    type V = HttpRequestView;

    open spec fn view(&self) -> HttpRequestView {
        HttpRequestView {
            url: self.url@,
            headers: self.headers@.map_values(|h: Header| h@),
            body: self.body@,
        }
    }
}

impl View for HttpResponse {
    type V = HttpResponseView;

    open spec fn view(&self) -> HttpResponseView {
        HttpResponseView { status: self.status, body: self.body@ }
    }
}

/// Whether a status code reports success: the codes from 200 to 299.
pub open spec fn is_success(status: u16) -> bool {
    200 <= status < 300
}

/// The document that an answer brings. An answer with a status outside
/// 200..=299 is a refusal and brings none, whatever its body holds: it fails
/// with the text of the body. After any other status the body has to be a
/// JSON document, and fails with the parser's description if it is not.
pub open spec fn document_of(response: HttpResponseView) -> Result<JsonView, FailureView> {
    if !is_success(response.status) {
        Err(FailureView::Remote(lossy_text(response.body)))
    } else {
        match json_document(response.body) {
            Ok(document) => Ok(document),
            Err(description) => Err(FailureView::Parse(description)),
        }
    }
}

impl HttpResponse {
    /// Whether the service reported success.
    pub fn is_success(&self) -> (success: bool)
        ensures
            success == is_success(self.status),
    {
        200 <= self.status && self.status < 300
    }

    /// Takes the document out of this answer.
    pub fn document(&self) -> (taken: Result<Json, Failure>)
        ensures
            result_view(taken) == document_of(self@),
    {
        if !self.is_success() {
            return Err(Failure::Remote(string_from_utf8_lossy(self.body.as_slice())));
        }
        match Json::parse(self.body.as_slice()) {
            Ok(document) => Ok(document),
            Err(description) => Err(Failure::Parse(description)),
        }
    }
}

/// The value of the `Authorization` header that presents `credential` as a
/// bearer token.
pub open spec fn bearer(credential: Seq<char>) -> Seq<char> {
    "Bearer "@ + credential
}

/// The `Authorization` header that presents `credential` as a bearer token.
pub fn authorization(credential: &str) -> (header: Header)
    ensures
        header@ == (HeaderView { name: "Authorization"@, value: bearer(credential@) }),
{
    Header {
        name: String::from_str("Authorization"),
        value: String::from_str("Bearer ").concat(credential),
    }
}

} // verus!
