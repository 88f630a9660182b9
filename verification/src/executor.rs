//! The HTTP executor: how a request descriptor becomes what goes on the
//! wire, and how what the transport hands back becomes a response or a
//! classified error.
//!
//! The transport itself is the caller's. [`prepare_request`] fixes everything
//! the transport has to send; [`conclude_request`] takes what it reports.

use crate::envelope::{ErrorKind, HttpError, HttpErrorView, HttpResponse, HttpResponseView};
use crate::fields::{
    all_canonical, is_token_byte, is_visible, keep_headers, kept_headers, layer_headers, layered,
    lemma_layered_canonical, lower_byte, visible_text,
};
use crate::headers::HeaderTable;
use crate::text::{
    contains_bytes, decimal_digits, decimal_text, occurs_in, text_eq, unicode_uppercase, uppercase,
};
use vstd::prelude::*;
use vstd::utf8::*;

verus! {

/// The verbs that a request can go out with.
#[derive(Clone, Copy, Debug, PartialEq, Eq, Structural)]
pub enum Method {
    Get,
    Post,
    Put,
    Patch,
    Delete,
}

/// The verb that an upper-case name stands for. A name that is none of
/// `POST`, `PUT`, `DELETE` and `PATCH` stands for `GET`.
pub open spec fn method_named(upper: Seq<char>) -> Method {
    if upper == "POST"@ {
        Method::Post
    } else if upper == "PUT"@ {
        Method::Put
    } else if upper == "DELETE"@ {
        Method::Delete
    } else if upper == "PATCH"@ {
        Method::Patch
    } else {
        Method::Get
    }
}

/// The verb of a request: that of the upper-case form of the method it
/// names, and `GET` where it names none.
pub open spec fn wire_method(method: Option<Seq<char>>) -> Method {
    match method {
        Some(name) => method_named(unicode_uppercase(name)),
        None => Method::Get,
    }
}

/// The verb that an upper-case name stands for.
pub fn method_from_name(upper: &str) -> (method: Method)
    ensures
        method == method_named(upper@),
{
    if text_eq(upper, "POST") {
        Method::Post
    } else if text_eq(upper, "PUT") {
        Method::Put
    } else if text_eq(upper, "DELETE") {
        Method::Delete
    } else if text_eq(upper, "PATCH") {
        Method::Patch
    } else {
        Method::Get
    }
}

/// The verb of a request that names the given method, or none.
pub fn select_method(method: &Option<String>) -> (chosen: Method)
    ensures
        chosen == wire_method(method.deep_view()),
{
    match method {
        Some(name) => {
            let upper = uppercase(name.as_str());
            method_from_name(upper.as_str())
        },
        None => Method::Get,
    }
}

/// Whether a request with this verb carries a body.
pub open spec fn carries_body(method: Method) -> bool {
    method is Post || method is Put || method is Patch
}

/// A body as the caller supplies it.
#[derive(Debug, PartialEq, Eq)]
pub enum RequestBody {
    /// A body that is a text.
    Text(String),
    /// A body that is structured data, given as its JSON text.
    Structured(String),
}

/// A body as a mathematical value.
pub ghost enum RequestBodyView {
    Text(Seq<char>),
    Structured(Seq<char>),
}

impl View for RequestBody {
    type V = RequestBodyView;

    open spec fn view(&self) -> RequestBodyView {
        match self {
            RequestBody::Text(text) => RequestBodyView::Text(text@),
            RequestBody::Structured(json) => RequestBodyView::Structured(json@),
        }
    }
}

/// The lower-case hexadecimal digit for a value below sixteen.
pub open spec fn hex_lower(n: int) -> char {
    if n < 10 {
        (0x30 + n) as u8 as char
    } else {
        (0x61 + n - 10) as u8 as char
    }
}

/// How one character stands in a JSON string: the quote, the backslash and
/// the control characters escaped, every other character as itself.
pub open spec fn json_escape(c: char) -> Seq<char> {
    if c == '"' {
        seq!['\\', '"']
    } else if c == '\\' {
        seq!['\\', '\\']
    } else if c == '\u{8}' {
        seq!['\\', 'b']
    } else if c == '\t' {
        seq!['\\', 't']
    } else if c == '\n' {
        seq!['\\', 'n']
    } else if c == '\u{c}' {
        seq!['\\', 'f']
    } else if c == '\r' {
        seq!['\\', 'r']
    } else if (c as u32) < 0x20 {
        seq!['\\', 'u', '0', '0', hex_lower(c as u32 as int / 16), hex_lower(c as u32 as int % 16)]
    } else {
        seq![c]
    }
}

/// The characters of a text, each as it stands in a JSON string.
pub open spec fn json_escaped(text: Seq<char>) -> Seq<char>
    decreases text.len(),
{
    if text.len() == 0 {
        Seq::empty()
    } else {
        json_escape(text[0]) + json_escaped(text.drop_first())
    }
}

/// A text as a JSON string: its escaped characters between two quotes.
pub open spec fn json_string(text: Seq<char>) -> Seq<char> {
    seq!['"'] + json_escaped(text) + seq!['"']
}

/// Calls `serde_json::to_string` on a text. For a text that function cannot
/// fail; it writes a quote, the characters of the text with `"`, `\` and
/// the characters below the space escaped (`\b`, `\t`, `\n`, `\f`, `\r`, or
/// `\u00` and two lower-case hexadecimal digits), and a quote. The contract
/// claims exactly that.
#[verifier::external_body]
pub(crate) fn json_quote(text: &str) -> (quoted: String)
    ensures
        quoted@ == json_string(text@),
{
    serde_json::to_string(text).unwrap_or_default()
}

/// Whether a content type declares structured data: it is text and
/// mentions `application/json`.
pub open spec fn declares_json(content_type: Seq<char>) -> bool {
    is_visible(encode_utf8(content_type)) && occurs_in(
        encode_utf8(content_type),
        encode_utf8("application/json"@),
    )
}

/// Whether the headers of a request declare its body to be structured data.
pub open spec fn body_is_json(headers: Map<Seq<char>, Seq<char>>) -> bool {
    headers.contains_key("content-type"@) && declares_json(headers["content-type"@])
}

/// Whether the headers of a request declare its body to be structured data.
pub fn declares_json_body(headers: &HeaderTable) -> (json: bool)
    ensures
        json == body_is_json(headers@),
{
    match headers.get("content-type") {
        Some(content_type) => {
            let raw = content_type.as_str().as_bytes();
            match visible_text(raw) {
                Some(text) => {
                    proof {
                        let chars = crate::encoding::bytes_as_text(raw@);
                        assert(is_ascii_chars(chars)) by {
                            assert forall|i: int| 0 <= i < chars.len() implies '\0' <= (
                            #[trigger] chars[i]) <= '\u{7f}' by {
                                assert(crate::fields::is_visible_byte(raw@[i]));
                            }
                        }
                        is_ascii_chars_encode_utf8(chars);
                        assert(encode_utf8(text@) =~= raw@);
                    }
                    contains_bytes(text.as_str().as_bytes(), "application/json".as_bytes())
                },
                None => false,
            }
        },
        None => false,
    }
}

/// The view of an optional body.
pub open spec fn option_view(body: Option<RequestBody>) -> Option<RequestBodyView> {
    match body {
        Some(supplied) => Some(supplied@),
        None => None,
    }
}

/// What goes out as the body: a text as it is, or as a JSON string where
/// the headers declare structured data; structured data as its JSON text.
pub open spec fn payload(body: RequestBodyView, as_json: bool) -> Seq<char> {
    match body {
        RequestBodyView::Text(text) => if as_json {
            json_string(text)
        } else {
            text
        },
        RequestBodyView::Structured(json) => json,
    }
}

/// The body of the request on the wire: none with a verb that carries no
/// body, whatever the caller supplied.
pub open spec fn wire_body(method: Method, as_json: bool, body: Option<RequestBodyView>) -> Option<
    Seq<char>,
> {
    match body {
        Some(supplied) => if carries_body(method) {
            Some(payload(supplied, as_json))
        } else {
            None
        },
        None => None,
    }
}

/// The body of the request on the wire.
pub fn select_body(method: Method, as_json: bool, body: &Option<RequestBody>) -> (chosen: Option<
    String,
>)
    ensures
        chosen.deep_view() == wire_body(method, as_json, option_view(*body)),
        (method is Get || method is Delete) ==> chosen is None,
{
    let carries = match method {
        Method::Post => true,
        Method::Put => true,
        Method::Patch => true,
        _ => false,
    };
    match body {
        Some(supplied) => {
            if carries {
                match supplied {
                    RequestBody::Text(text) => {
                        if as_json {
                            Some(json_quote(text.as_str()))
                        } else {
                            Some(text.clone())
                        }
                    },
                    RequestBody::Structured(json) => Some(json.clone()),
                }
            } else {
                None
            }
        },
        None => None,
    }
}

/// The seconds allowed for a call that names no timeout.
pub const DEFAULT_TIMEOUT_SECS: u64 = 20;

/// The seconds allowed for the whole call.
pub open spec fn effective_timeout(timeout_secs: Option<u64>) -> u64 {
    match timeout_secs {
        Some(secs) => secs,
        None => DEFAULT_TIMEOUT_SECS,
    }
}

/// The headers that every request carries: the client's identifier.
pub open spec fn baseline_headers() -> Map<Seq<char>, Seq<char>> {
    Map::<Seq<char>, Seq<char>>::empty().insert("user-agent"@, "LibreTV-TauriApp/1.0"@)
}

/// The headers of the request on the wire: the caller's, layered over the baseline.
pub open spec fn request_headers(supplied: Option<Seq<(Seq<char>, Seq<char>)>>) -> Map<
    Seq<char>,
    Seq<char>,
> {
    match supplied {
        Some(pairs) => layered(baseline_headers(), pairs),
        None => baseline_headers(),
    }
}

/// The headers of a request on the wire are under canonical names: no
/// header is there twice, in whatever case the caller wrote it.
pub proof fn lemma_request_headers_canonical(supplied: Option<Seq<(Seq<char>, Seq<char>)>>)
    ensures
        all_canonical(request_headers(supplied)),
{
    let name = "user-agent"@;
    reveal_strlit("user-agent");
    assert(is_ascii_chars(name));
    is_ascii_chars_encode_utf8(name);
    let raw = encode_utf8(name);
    assert forall|i: int| 0 <= i < raw.len() implies is_token_byte(#[trigger] raw[i]) && lower_byte(
        raw[i],
    ) == raw[i] by {
        assert(raw[i] == name[i] as u8);
    }
    assert(crate::encoding::bytes_as_text(Seq::new(raw.len(), |i: int| lower_byte(raw[i])))
        =~= name);
    assert(all_canonical(baseline_headers()));
    match supplied {
        Some(pairs) => lemma_layered_canonical(baseline_headers(), pairs),
        None => {},
    }
}

/// A request as the caller describes it.
#[derive(Debug, PartialEq, Eq)]
pub struct HttpRequestOptions {
    /// The target URL.
    pub url: String,
    /// The method by name, in any case; `GET` where there is none.
    pub method: Option<String>,
    /// Headers to lay over the baseline, in the order in which they apply.
    pub headers: Option<Vec<(String, String)>>,
    /// The body, sent only with a verb that carries one.
    pub body: Option<RequestBody>,
    /// The seconds allowed for the whole call; 20 where there is none.
    pub timeout_secs: Option<u64>,
    /// Whether the body of the response is wanted as text. It always is.
    pub response_as_text: Option<bool>,
}

/// A request description as a mathematical value.
pub ghost struct HttpRequestOptionsView {
    pub url: Seq<char>,
    pub method: Option<Seq<char>>,
    pub headers: Option<Seq<(Seq<char>, Seq<char>)>>,
    pub body: Option<RequestBodyView>,
    pub timeout_secs: Option<u64>,
    pub response_as_text: Option<bool>,
}

impl View for HttpRequestOptions {
    type V = HttpRequestOptionsView;

    open spec fn view(&self) -> HttpRequestOptionsView {
        HttpRequestOptionsView {
            url: self.url@,
            method: self.method.deep_view(),
            headers: self.headers.deep_view(),
            body: option_view(self.body),
            timeout_secs: self.timeout_secs,
            response_as_text: self.response_as_text,
        }
    }
}

/// A request as it goes on the wire.
#[derive(Debug)]
pub struct PreparedRequest {
    pub url: String,
    pub method: Method,
    pub headers: HeaderTable,
    pub body: Option<String>,
    pub timeout_secs: u64,
}

/// A prepared request as a mathematical value.
pub ghost struct PreparedRequestView {
    pub url: Seq<char>,
    pub method: Method,
    pub headers: Map<Seq<char>, Seq<char>>,
    pub body: Option<Seq<char>>,
    pub timeout_secs: u64,
}

impl View for PreparedRequest {
    type V = PreparedRequestView;

    open spec fn view(&self) -> PreparedRequestView {
        PreparedRequestView {
            url: self.url@,
            method: self.method,
            headers: self.headers@,
            body: self.body.deep_view(),
            timeout_secs: self.timeout_secs,
        }
    }
}

/// What goes on the wire for a request description.
pub open spec fn prepared(options: HttpRequestOptionsView) -> PreparedRequestView {
    let method = wire_method(options.method);
    let headers = request_headers(options.headers);
    PreparedRequestView {
        url: options.url,
        method,
        headers,
        body: wire_body(method, body_is_json(headers), options.body),
        timeout_secs: effective_timeout(options.timeout_secs),
    }
}

/// Fixes what goes on the wire for a request description: the verb, the
/// headers, the body and the time allowed.
pub fn prepare_request(options: &HttpRequestOptions) -> (request: PreparedRequest)
    ensures
        request@ == prepared(options@),
        (request.method is Get || request.method is Delete) ==> request.body is None,
        all_canonical(request.headers@),
{
    proof {
        lemma_request_headers_canonical(options.headers.deep_view());
    }
    let timeout_secs: u64 = match options.timeout_secs {
        Some(secs) => secs,
        None => DEFAULT_TIMEOUT_SECS,
    };
    let method = select_method(&options.method);
    let mut headers = HeaderTable::new();
    headers.insert(String::from_str("user-agent"), String::from_str("LibreTV-TauriApp/1.0"));
    match &options.headers {
        Some(supplied) => {
            layer_headers(&mut headers, supplied);
        },
        None => {},
    }
    let as_json = declares_json_body(&headers);
    let body = select_body(method, as_json, &options.body);
    PreparedRequest { url: options.url.clone(), method, headers, body, timeout_secs }
}

/// What the transport reports of a call that failed: which of its tests
/// the failure passes, the status it carries, and its description.
#[derive(Debug, PartialEq, Eq)]
pub struct TransportFailure {
    /// The time allowed ran out.
    pub timed_out: bool,
    /// No connection could be made.
    pub connect: bool,
    /// The request or the client could not be constructed.
    pub builder: bool,
    /// The redirect policy stopped the call.
    pub redirect: bool,
    /// The failure stands for an unsuccessful status.
    pub status: bool,
    /// The status that the failure carries, if any.
    pub status_code: Option<u16>,
    /// The body could not be transferred.
    pub body: bool,
    /// The body could not be decoded.
    pub decode: bool,
    /// The transport's own words.
    pub description: String,
}

/// A failure as a mathematical value.
pub ghost struct TransportFailureView {
    pub timed_out: bool,
    pub connect: bool,
    pub builder: bool,
    pub redirect: bool,
    pub status: bool,
    pub status_code: Option<u16>,
    pub body: bool,
    pub decode: bool,
    pub description: Seq<char>,
}

impl View for TransportFailure {
    type V = TransportFailureView;

    open spec fn view(&self) -> TransportFailureView {
        TransportFailureView {
            timed_out: self.timed_out,
            connect: self.connect,
            builder: self.builder,
            redirect: self.redirect,
            status: self.status,
            status_code: self.status_code,
            body: self.body,
            decode: self.decode,
            description: self.description@,
        }
    }
}

/// The class of a failure, by its nature: the first that applies of
/// timeout, connection, construction, redirect, status, body and decoding.
pub open spec fn failure_kind(failure: TransportFailureView) -> ErrorKind {
    if failure.timed_out {
        ErrorKind::Timeout
    } else if failure.connect {
        ErrorKind::ConnectionError
    } else if failure.builder {
        ErrorKind::RequestBuilderError
    } else if failure.redirect {
        ErrorKind::RedirectPolicyError
    } else if failure.status {
        ErrorKind::HttpStatusError { status: failure.status_code }
    } else if failure.body {
        ErrorKind::ResponseBodyError
    } else if failure.decode {
        ErrorKind::ResponseDecodeError
    } else {
        ErrorKind::Unknown
    }
}

/// The message for a status that a failure carries, or does not carry.
pub open spec fn status_message(status_code: Option<u16>) -> Seq<char> {
    match status_code {
        Some(code) => "HTTP status error: "@ + decimal_digits(code as nat),
        None => "HTTP status error: "@ + "Unknown"@,
    }
}

/// The message for each class of failure.
pub open spec fn kind_message(kind: ErrorKind) -> Seq<char> {
    match kind {
        ErrorKind::Timeout => "Request timed out"@,
        ErrorKind::ConnectionError => "Connection error"@,
        ErrorKind::RequestBuilderError => "Request builder error"@,
        ErrorKind::RedirectPolicyError => "Redirect policy error"@,
        ErrorKind::HttpStatusError { status } => status_message(status),
        ErrorKind::ResponseBodyError => "Response body error"@,
        ErrorKind::ResponseDecodeError => "Response decoding error"@,
        _ => "HTTP request failed"@,
    }
}

/// The class of a failure.
pub fn classify_failure(failure: &TransportFailure) -> (kind: ErrorKind)
    ensures
        kind == failure_kind(failure@),
        failure.timed_out ==> kind == ErrorKind::Timeout,
{
    if failure.timed_out {
        ErrorKind::Timeout
    } else if failure.connect {
        ErrorKind::ConnectionError
    } else if failure.builder {
        ErrorKind::RequestBuilderError
    } else if failure.redirect {
        ErrorKind::RedirectPolicyError
    } else if failure.status {
        ErrorKind::HttpStatusError { status: failure.status_code }
    } else if failure.body {
        ErrorKind::ResponseBodyError
    } else if failure.decode {
        ErrorKind::ResponseDecodeError
    } else {
        ErrorKind::Unknown
    }
}

/// The message for a class of failure.
pub fn message_for(kind: ErrorKind) -> (message: String)
    ensures
        message@ == kind_message(kind),
{
    match kind {
        ErrorKind::Timeout => String::from_str("Request timed out"),
        ErrorKind::ConnectionError => String::from_str("Connection error"),
        ErrorKind::RequestBuilderError => String::from_str("Request builder error"),
        ErrorKind::RedirectPolicyError => String::from_str("Redirect policy error"),
        ErrorKind::HttpStatusError { status } => {
            let mut message = String::from_str("HTTP status error: ");
            match status {
                Some(code) => {
                    let digits = decimal_text(code);
                    message.append(digits.as_str());
                },
                None => {
                    message.append("Unknown");
                },
            }
            message
        },
        ErrorKind::ResponseBodyError => String::from_str("Response body error"),
        ErrorKind::ResponseDecodeError => String::from_str("Response decoding error"),
        _ => String::from_str("HTTP request failed"),
    }
}

/// The phases in which a call can fail.
#[derive(Clone, Copy, Debug, PartialEq, Eq, Structural)]
pub enum Phase {
    /// While the client was set up.
    Client,
    /// While the request was sent and the response awaited.
    Send,
    /// While the body of the response was read.
    Body,
}

/// The message of an error, by the phase in which the call failed.
pub open spec fn phase_message(phase: Phase, failure: TransportFailureView) -> Seq<char> {
    match phase {
        Phase::Client => "Failed to build HTTP client"@,
        Phase::Send => kind_message(failure_kind(failure)),
        Phase::Body => "Failed to read response body"@,
    }
}

/// The error for a failure in a phase: classified by the nature of the
/// failure, with the transport's words as detail.
pub open spec fn failure_error(phase: Phase, failure: TransportFailureView) -> HttpErrorView {
    HttpErrorView {
        kind: failure_kind(failure),
        error: phase_message(phase, failure),
        details: Some(failure.description),
    }
}

/// The error for a failure in a phase.
pub fn error_for(phase: Phase, failure: TransportFailure) -> (error: HttpError)
    ensures
        error@ == failure_error(phase, failure@),
        failure.timed_out ==> error.kind == ErrorKind::Timeout,
{
    let kind = classify_failure(&failure);
    let message = match phase {
        Phase::Client => String::from_str("Failed to build HTTP client"),
        Phase::Send => message_for(kind),
        Phase::Body => String::from_str("Failed to read response body"),
    };
    HttpError { kind, error: message, details: Some(failure.description) }
}

/// What the transport hands back for one call.
#[derive(Debug, PartialEq, Eq)]
pub enum TransportOutcome {
    /// The call failed in a phase.
    Failed { phase: Phase, failure: TransportFailure },
    /// A response came, whatever its status: the status, the headers as
    /// they were received, each value in bytes, and the whole body as text.
    Responded { status: u16, headers: Vec<(String, Vec<u8>)>, body: String },
}

/// An outcome as a mathematical value.
pub ghost enum TransportOutcomeView {
    Failed { phase: Phase, failure: TransportFailureView },
    Responded { status: u16, headers: Seq<(Seq<char>, Seq<u8>)>, body: Seq<char> },
}

impl View for TransportOutcome {
    type V = TransportOutcomeView;

    open spec fn view(&self) -> TransportOutcomeView {
        match self {
            TransportOutcome::Failed { phase, failure } => TransportOutcomeView::Failed {
                phase: *phase,
                failure: failure@,
            },
            TransportOutcome::Responded { status, headers, body } => TransportOutcomeView::Responded {
                status: *status,
                headers: headers.deep_view(),
                body: body@,
            },
        }
    }
}

/// What a call comes to: the response, with the headers whose values are
/// text, where one came, and the error for the failure where none did. An
/// unsuccessful status is a response like any other.
pub open spec fn concluded(outcome: TransportOutcomeView) -> Result<HttpResponseView, HttpErrorView> {
    match outcome {
        TransportOutcomeView::Failed { phase, failure } => Err(failure_error(phase, failure)),
        TransportOutcomeView::Responded { status, headers, body } => Ok(
            HttpResponseView { status, headers: kept_headers(headers), body },
        ),
    }
}

/// The view of a result.
pub open spec fn result_view(result: Result<HttpResponse, HttpError>) -> Result<
    HttpResponseView,
    HttpErrorView,
> {
    match result {
        Ok(response) => Ok(response@),
        Err(error) => Err(error@),
    }
}

/// Turns what the transport hands back into a response or a classified error.
pub fn conclude_request(outcome: TransportOutcome) -> (result: Result<HttpResponse, HttpError>)
    ensures
        result_view(result) == concluded(outcome@),
        outcome matches TransportOutcome::Failed { failure, .. } && failure.timed_out ==> (
        result matches Err(error) && error.kind == ErrorKind::Timeout),
        outcome is Responded ==> result is Ok,
{
    match outcome {
        TransportOutcome::Failed { phase, failure } => Err(error_for(phase, failure)),
        TransportOutcome::Responded { status, headers, body } => {
            let kept = keep_headers(&headers);
            Ok(HttpResponse { status, headers: kept, body })
        },
    }
}

} // verus!
