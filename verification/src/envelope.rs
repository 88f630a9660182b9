//! What a call hands back: a response envelope, or a classified error.

use crate::headers::HeaderTable;
use vstd::prelude::*;

verus! {

/// The classes of failure.
#[derive(Clone, Copy, Debug, PartialEq, Eq)]
pub enum ErrorKind {
    /// The source identifier is not registered.
    UnknownSource,
    /// The custom source was chosen and no URL came with it.
    MissingParameter,
    /// The descriptor or its template gives no usable URL.
    BadRequest,
    /// The time allowed for the call ran out.
    Timeout,
    /// No connection could be made.
    ConnectionError,
    /// The request could not be constructed.
    RequestBuilderError,
    /// The redirect policy stopped the call.
    RedirectPolicyError,
    /// The backend answered with an unsuccessful status.
    HttpStatusError { status: Option<u16> },
    /// The body could not be transferred.
    ResponseBodyError,
    /// The body could not be decoded.
    ResponseDecodeError,
    /// None of the above.
    Unknown,
}

/// A classified error: its class, a short message for people, and
/// diagnostic detail where there is any.
#[derive(Debug, PartialEq, Eq)]
pub struct HttpError {
    pub kind: ErrorKind,
    pub error: String,
    pub details: Option<String>,
}

/// An error as a mathematical value.
pub ghost struct HttpErrorView {
    pub kind: ErrorKind,
    pub error: Seq<char>,
    pub details: Option<Seq<char>>,
}

impl View for HttpError {
    type V = HttpErrorView;

    open spec fn view(&self) -> HttpErrorView {
        HttpErrorView { kind: self.kind, error: self.error@, details: self.details.deep_view() }
    }
}

/// A response: its status, its headers with textual values, and its body as text.
#[derive(Debug)]
pub struct HttpResponse {
    pub status: u16,
    pub headers: HeaderTable,
    pub body: String,
}

/// A response as a mathematical value.
pub ghost struct HttpResponseView {
    pub status: u16,
    pub headers: Map<Seq<char>, Seq<char>>,
    pub body: Seq<char>,
}

impl View for HttpResponse {
    type V = HttpResponseView;

    open spec fn view(&self) -> HttpResponseView {
        HttpResponseView { status: self.status, headers: self.headers@, body: self.body@ }
    }
}

} // verus!
