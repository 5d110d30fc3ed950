//! Responses as plain values: everything a transport needs to answer a
//! request, and nothing tied to a particular transport.

use crate::entity::Timestamp;
use crate::error::Error;
use vstd::prelude::*;
use vstd::string::*;

verus! {

/// The outcomes a response can announce.
#[derive(Clone, Copy, Debug, PartialEq, Eq, Structural)]
pub enum Status {
    Success,
    SeeOther,
    BadRequest,
    NotFound,
    InternalServerError,
}

impl Status {
    /// The numeric HTTP status code.
    pub open spec fn spec_code(self) -> u16 {
        match self {
            Status::Success => 200,
            Status::SeeOther => 303,
            Status::BadRequest => 400,
            Status::NotFound => 404,
            Status::InternalServerError => 500,
        }
    }

    /// The numeric HTTP status code.
    #[verifier::when_used_as_spec(spec_code)]
    pub fn code(self) -> (code: u16)
        ensures
            code == self.spec_code(),
    {
        match self {
            Status::Success => 200,
            Status::SeeOther => 303,
            Status::BadRequest => 400,
            Status::NotFound => 404,
            Status::InternalServerError => 500,
        }
    }

    /// The status that conveys a failure of the given kind.
    pub open spec fn spec_of_error(error: Error) -> Status {
        match error {
            Error::InvalidIdentifier => Status::BadRequest,
            Error::NotFound => Status::NotFound,
            Error::UnsupportedFormat => Status::NotFound,
            Error::StoreError => Status::InternalServerError,
        }
    }

    /// The status that conveys a failure of the given kind.
    #[verifier::when_used_as_spec(spec_of_error)]
    pub fn of_error(error: Error) -> (status: Status)
        ensures
            status == Status::spec_of_error(error),
            status.spec_code() == error.spec_status_code(),
    {
        match error {
            Error::InvalidIdentifier => Status::BadRequest,
            Error::NotFound => Status::NotFound,
            Error::UnsupportedFormat => Status::NotFound,
            Error::StoreError => Status::InternalServerError,
        }
    }
}

/// The content types the service announces.
#[derive(Clone, Copy, Debug, PartialEq, Eq, Structural)]
pub enum MediaType {
    Png,
    Gif,
    Svg,
    Json,
    PlainText,
    OpenMetrics,
}

impl MediaType {
    /// The value of the content-type header.
    pub open spec fn spec_text(self) -> Seq<char> {
        match self {
            MediaType::Png => "image/png"@,
            MediaType::Gif => "image/gif"@,
            MediaType::Svg => "image/svg+xml; charset=utf-8"@,
            MediaType::Json => "application/json"@,
            MediaType::PlainText => "text/plain; charset=utf-8"@,
            MediaType::OpenMetrics => "text/plain; version=0.0.4; charset=utf-8"@,
        }
    }

    /// The value of the content-type header.
    pub fn text(self) -> (text: &'static str)
        ensures
            text@ == self.spec_text(),
    {
        match self {
            MediaType::Png => "image/png",
            MediaType::Gif => "image/gif",
            MediaType::Svg => "image/svg+xml; charset=utf-8",
            MediaType::Json => "application/json",
            MediaType::PlainText => "text/plain; charset=utf-8",
            MediaType::OpenMetrics => "text/plain; version=0.0.4; charset=utf-8",
        }
    }
}

/// The fixed images the service ships. Their bytes are the transport's to
/// supply; they never depend on any stored value.
#[derive(Clone, Copy, Debug, PartialEq, Eq, Structural)]
pub enum Asset {
    Png,
    Jpg,
    Gif,
}

/// What a response carries.
#[derive(Clone, Debug, PartialEq, Eq)]
pub enum Body {
    /// Literal text; the empty text for responses without content.
    Text(String),
    /// One of the fixed images.
    Asset(Asset),
}

/// The mathematical content of a [`Body`].
pub enum BodyView {
    Text(Seq<char>),
    Asset(Asset),
}

impl View for Body {
    type V = BodyView;

    open spec fn view(&self) -> BodyView {
        match self {
            Body::Text(text) => BodyView::Text(text@),
            Body::Asset(asset) => BodyView::Asset(*asset),
        }
    }
}

/// A complete answer to a request.
#[derive(Clone, Debug, PartialEq, Eq)]
pub struct Response {
    pub status: Status,
    pub content_type: Option<MediaType>,
    /// Where a redirect points.
    pub location: Option<String>,
    /// When the rendered value was last written.
    pub last_modified: Option<Timestamp>,
    pub body: Body,
}

/// The mathematical content of a [`Response`].
pub struct ResponseView {
    pub status: Status,
    pub content_type: Option<MediaType>,
    pub location: Option<Seq<char>>,
    pub last_modified: Option<Timestamp>,
    pub body: BodyView,
}

impl View for Response {
    type V = ResponseView;

    open spec fn view(&self) -> ResponseView {
        ResponseView {
            status: self.status,
            content_type: self.content_type,
            location: match self.location {
                Some(target) => Some(target@),
                None => None,
            },
            last_modified: self.last_modified,
            body: self.body@,
        }
    }
}

/// A response that carries only a status: no headers, no content.
pub open spec fn bare(status: Status) -> ResponseView {
    ResponseView {
        status,
        content_type: None,
        location: None,
        last_modified: None,
        body: BodyView::Text(Seq::empty()),
    }
}

/// The response that reports a failure: the status of the failure and
/// nothing else.
pub open spec fn failure(error: Error) -> ResponseView {
    bare(Status::spec_of_error(error))
}

/// An untyped success carrying `text`.
pub open spec fn plain(text: Seq<char>) -> ResponseView {
    ResponseView {
        status: Status::Success,
        content_type: None,
        location: None,
        last_modified: None,
        body: BodyView::Text(text),
    }
}

/// A redirect to `target` that also carries `text` as plain text.
pub open spec fn redirect(target: Seq<char>, text: Seq<char>) -> ResponseView {
    ResponseView {
        status: Status::SeeOther,
        content_type: Some(MediaType::PlainText),
        location: Some(target),
        last_modified: None,
        body: BodyView::Text(text),
    }
}

impl Response {
    /// A response that carries only a status.
    pub fn bare(status: Status) -> (response: Response)
        ensures
            response@ == bare(status),
    {
        Response {
            status,
            content_type: None,
            location: None,
            last_modified: None,
            body: Body::Text(String::new()),
        }
    }

    /// The response that reports `error`.
    pub fn failure(error: Error) -> (response: Response)
        ensures
            response@ == failure(error),
    {
        Response::bare(Status::of_error(error))
    }

    /// An untyped success carrying `text`.
    pub fn plain(text: String) -> (response: Response)
        ensures
            response@ == plain(text@),
    {
        Response {
            status: Status::Success,
            content_type: None,
            location: None,
            last_modified: None,
            body: Body::Text(text),
        }
    }

    /// A redirect to `target` that also carries `text` as plain text.
    pub fn redirect(target: String, text: String) -> (response: Response)
        ensures
            response@ == redirect(target@, text@),
    {
        Response {
            status: Status::SeeOther,
            content_type: Some(MediaType::PlainText),
            location: Some(target),
            last_modified: None,
            body: Body::Text(text),
        }
    }
}

} // verus!
