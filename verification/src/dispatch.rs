//! The query dispatcher: from a query and a source identifier to the
//! request for the backend, and from the backend's response to the result
//! of the search.
//!
//! A search is linear: resolve the source, build the request, execute it,
//! judge the outcome. The caller executes; the rest is here.

use crate::encoding::{
    decoded_component, encode_component, encoded_component, lemma_empty_query,
    lemma_query_round_trip,
};
use crate::envelope::{ErrorKind, HttpError, HttpErrorView, HttpResponse, HttpResponseView};
use crate::executor::{
    concluded, failure_error, HttpRequestOptions, HttpRequestOptionsView, TransportOutcomeView,
};
use crate::registry::{
    structured_source, AdapterDescriptor, AdapterRegistry, DescriptorView, ResponseKind,
};
use crate::text::{decimal_digits, decimal_text, text_eq};
use vstd::prelude::*;

verus! {

/// The search path of a backend that has none of its own. The encoded
/// query follows it directly.
pub open spec fn default_search_path() -> Seq<char> {
    "/api.php/provide/vod/?ac=videolist&wd="@
}

/// The search path of a backend that has none of its own.
pub fn default_search_template() -> (template: &'static str)
    ensures
        template@ == default_search_path(),
{
    "/api.php/provide/vod/?ac=videolist&wd="
}

/// The descriptor made for one call to a backend that the caller names by its URL.
pub open spec fn custom_source(base_url: Seq<char>) -> DescriptorView {
    structured_source(base_url, "Custom"@, None)
}

/// The error for the custom source without a URL.
pub open spec fn missing_parameter() -> HttpErrorView {
    HttpErrorView {
        kind: ErrorKind::MissingParameter,
        error: "Custom source selected but no API URL provided"@,
        details: None,
    }
}

/// The error for a source identifier that is not registered. It names the identifier.
pub open spec fn unknown_source(source_id: Seq<char>) -> HttpErrorView {
    HttpErrorView {
        kind: ErrorKind::UnknownSource,
        error: "Unknown source_id: "@ + source_id,
        details: None,
    }
}

/// The backend that a source identifier stands for: for `custom` the one
/// at the URL that comes with it, for any other the registered one.
pub open spec fn resolved(
    sources: Map<Seq<char>, DescriptorView>,
    source_id: Seq<char>,
    custom_base_url: Option<Seq<char>>,
) -> Result<DescriptorView, HttpErrorView> {
    if source_id == "custom"@ {
        match custom_base_url {
            Some(url) => Ok(custom_source(url)),
            None => Err(missing_parameter()),
        }
    } else if sources.contains_key(source_id) {
        Ok(sources[source_id])
    } else {
        Err(unknown_source(source_id))
    }
}

/// Resolves a source identifier to the descriptor of its backend.
pub fn resolve_source(
    registry: &AdapterRegistry,
    source_id: &str,
    custom_base_url: Option<String>,
) -> (result: Result<AdapterDescriptor, HttpError>)
    ensures
        match result {
            Ok(descriptor) => resolved(registry@, source_id@, custom_base_url.deep_view()) == Ok::<
                DescriptorView,
                HttpErrorView,
            >(descriptor@),
            Err(error) => resolved(registry@, source_id@, custom_base_url.deep_view()) == Err::<
                DescriptorView,
                HttpErrorView,
            >(error@),
        },
        source_id@ != "custom"@ && !registry@.contains_key(source_id@) ==> (result matches Err(
            error,
        ) && error.kind == ErrorKind::UnknownSource),
        source_id@ == "custom"@ && custom_base_url is None ==> (result matches Err(error)
            && error.kind == ErrorKind::MissingParameter),
{
    if text_eq(source_id, "custom") {
        match custom_base_url {
            Some(url) => Ok(
                AdapterDescriptor {
                    base_url: url,
                    display_name: String::from_str("Custom"),
                    detail_base_url: None,
                    response_kind: ResponseKind::Structured,
                    search_path_template: None,
                    detail_path_template: None,
                },
            ),
            None => Err(
                HttpError {
                    kind: ErrorKind::MissingParameter,
                    error: String::from_str("Custom source selected but no API URL provided"),
                    details: None,
                },
            ),
        }
    } else {
        match registry.lookup(source_id) {
            Some(descriptor) => Ok(descriptor),
            None => {
                let mut message = String::from_str("Unknown source_id: ");
                message.append(source_id);
                Err(HttpError { kind: ErrorKind::UnknownSource, error: message, details: None })
            },
        }
    }
}

/// Whether a text parses as a URL.
pub uninterp spec fn url_parses(url: Seq<char>) -> bool;

/// Calls `Url::parse` of the `url` crate, as `reqwest` gives it, and tells
/// whether it succeeded. Whether a text parses depends on the text alone;
/// the contract gives that answer its name and claims no more.
#[verifier::external_body]
pub(crate) fn parses_as_url(url: &str) -> (parses: bool)
    ensures
        parses == url_parses(url@),
{
    reqwest::Url::parse(url).is_ok()
}

/// The search path that a backend is searched at: its own where it has
/// one, the default one otherwise.
pub open spec fn search_template(descriptor: DescriptorView, default_template: Seq<char>) -> Seq<
    char,
> {
    match descriptor.search_path_template {
        Some(template) => template,
        None => default_template,
    }
}

/// The URL of a search: the base URL, the search path and the encoded
/// query, one after the other.
pub open spec fn search_url(base_url: Seq<char>, template: Seq<char>, query: Seq<char>) -> Seq<
    char,
> {
    base_url + template + encoded_component(query)
}

/// The user agent that a search goes out with.
pub open spec fn search_user_agent() -> Seq<char> {
    "Mozilla/5.0 (Windows NT 10.0; Win64; x64) AppleWebKit/537.36 (KHTML, like Gecko) Chrome/122.0.0.0 Safari/537.36"@
}

/// The headers that a search goes out with.
pub open spec fn search_headers() -> Seq<(Seq<char>, Seq<char>)> {
    seq![("User-Agent"@, search_user_agent()), ("Accept"@, "application/json"@)]
}

/// The request for a search at a URL: a `GET` without a body, 20 seconds allowed.
pub open spec fn search_request_at(url: Seq<char>) -> HttpRequestOptionsView {
    HttpRequestOptionsView {
        url,
        method: Some("GET"@),
        headers: Some(search_headers()),
        body: None,
        timeout_secs: Some(20),
        response_as_text: Some(true),
    }
}

/// The error for a descriptor without a base URL.
pub open spec fn no_base_url() -> HttpErrorView {
    HttpErrorView { kind: ErrorKind::BadRequest, error: "Source has no base URL"@, details: None }
}

/// The error for a search URL that does not parse. Its detail is the URL.
pub open spec fn malformed_url(url: Seq<char>) -> HttpErrorView {
    HttpErrorView {
        kind: ErrorKind::BadRequest,
        error: "Search URL is malformed"@,
        details: Some(url),
    }
}

/// The request for a search at a URL of which it is known whether it
/// parses: the error where it does not.
pub open spec fn checked_request(url: Seq<char>, parses: bool) -> Result<
    HttpRequestOptionsView,
    HttpErrorView,
> {
    if parses {
        Ok(search_request_at(url))
    } else {
        Err(malformed_url(url))
    }
}

/// The request for a search with a backend, or the error where the
/// descriptor has no base URL or the URL does not parse.
pub open spec fn search_request(
    descriptor: DescriptorView,
    query: Seq<char>,
    default_template: Seq<char>,
) -> Result<HttpRequestOptionsView, HttpErrorView> {
    if descriptor.base_url.len() == 0 {
        Err(no_base_url())
    } else {
        let url = search_url(
            descriptor.base_url,
            search_template(descriptor, default_template),
            query,
        );
        checked_request(url, url_parses(url))
    }
}

/// The view of a request or an error.
pub open spec fn request_view(result: Result<HttpRequestOptions, HttpError>) -> Result<
    HttpRequestOptionsView,
    HttpErrorView,
> {
    match result {
        Ok(request) => Ok(request@),
        Err(error) => Err(error@),
    }
}

/// The request for a search at a URL, given whether the URL parses.
pub fn search_request_for(url: String, parses: bool) -> (result: Result<
    HttpRequestOptions,
    HttpError,
>)
    ensures
        request_view(result) == checked_request(url@, parses),
{
    if !parses {
        return Err(
            HttpError {
                kind: ErrorKind::BadRequest,
                error: String::from_str("Search URL is malformed"),
                details: Some(url),
            },
        );
    }
    let mut headers: Vec<(String, String)> = Vec::new();
    headers.push(
        (
            String::from_str("User-Agent"),
            String::from_str(
                "Mozilla/5.0 (Windows NT 10.0; Win64; x64) AppleWebKit/537.36 (KHTML, like Gecko) Chrome/122.0.0.0 Safari/537.36",
            ),
        ),
    );
    headers.push((String::from_str("Accept"), String::from_str("application/json")));
    assert(headers.deep_view() =~= search_headers());
    Ok(
        HttpRequestOptions {
            url,
            method: Some(String::from_str("GET")),
            headers: Some(headers),
            body: None,
            timeout_secs: Some(20),
            response_as_text: Some(true),
        },
    )
}

/// Builds the request for a search with a backend. The backend's own
/// search path is used as it stands where there is one, the default one
/// otherwise; the query goes behind it percent-encoded.
pub fn build_search_request(
    descriptor: &AdapterDescriptor,
    query: &str,
    default_template: &str,
) -> (result: Result<HttpRequestOptions, HttpError>)
    ensures
        request_view(result) == search_request(descriptor@, query@, default_template@),
        result matches Ok(request) ==> request.url@ == descriptor.base_url@ + search_template(
            descriptor@,
            default_template@,
        ) + encoded_component(query@),
        result is Ok && descriptor.search_path_template is Some ==> result->Ok_0.url@
            == descriptor.base_url@ + descriptor.search_path_template->0@ + encoded_component(
            query@,
        ),
        result is Ok && descriptor.search_path_template is None ==> result->Ok_0.url@
            == descriptor.base_url@ + default_template@ + encoded_component(query@),
        result is Err <==> descriptor.base_url@.len() == 0 || !url_parses(
            search_url(descriptor.base_url@, search_template(descriptor@, default_template@), query@),
        ),
        result matches Err(error) ==> error.kind == ErrorKind::BadRequest,
{
    if descriptor.base_url.as_str().is_empty() {
        return Err(
            HttpError {
                kind: ErrorKind::BadRequest,
                error: String::from_str("Source has no base URL"),
                details: None,
            },
        );
    }
    let mut url = descriptor.base_url.clone();
    match &descriptor.search_path_template {
        Some(template) => {
            url.append(template.as_str());
        },
        None => {
            url.append(default_template);
        },
    }
    let encoded = encode_component(query);
    url.append(encoded.as_str());
    let parses = parses_as_url(url.as_str());
    search_request_for(url, parses)
}

/// The request that a search comes to, or the error that ends it before
/// anything is sent.
pub open spec fn search_plan(
    sources: Map<Seq<char>, DescriptorView>,
    query: Seq<char>,
    source_id: Seq<char>,
    custom_base_url: Option<Seq<char>>,
) -> Result<HttpRequestOptionsView, HttpErrorView> {
    match resolved(sources, source_id, custom_base_url) {
        Ok(descriptor) => search_request(descriptor, query, default_search_path()),
        Err(error) => Err(error),
    }
}

/// The first half of a search: resolves the source and builds the request
/// for its backend.
pub fn prepare_search(
    registry: &AdapterRegistry,
    query: &str,
    source_id: &str,
    custom_base_url: Option<String>,
) -> (result: Result<HttpRequestOptions, HttpError>)
    ensures
        request_view(result) == search_plan(
            registry@,
            query@,
            source_id@,
            custom_base_url.deep_view(),
        ),
        source_id@ != "custom"@ && !registry@.contains_key(source_id@) ==> (result matches Err(
            error,
        ) && error.kind == ErrorKind::UnknownSource),
        source_id@ == "custom"@ && custom_base_url is None ==> (result matches Err(error)
            && error.kind == ErrorKind::MissingParameter),
        source_id@ == "custom"@ && custom_base_url is Some ==> request_view(result)
            == search_request(
            custom_source(custom_base_url.deep_view()->0),
            query@,
            default_search_path(),
        ),
{
    match resolve_source(registry, source_id, custom_base_url) {
        Ok(descriptor) => build_search_request(&descriptor, query, default_search_template()),
        Err(error) => Err(error),
    }
}

/// The error for a response with an unsuccessful status. It carries the
/// status, and the body as detail.
pub open spec fn status_error(status: u16, body: Seq<char>) -> HttpErrorView {
    HttpErrorView {
        kind: ErrorKind::HttpStatusError { status: Some(status) },
        error: "API request failed with status: "@ + decimal_digits(status as nat),
        details: Some(body),
    }
}

/// Whether a status is a success.
pub open spec fn is_success(status: u16) -> bool {
    200 <= status < 300
}

/// What a search comes to: the body as it came where the status is a
/// success, the error for the status where it is not, and the executor's
/// error as it is.
pub open spec fn search_result(outcome: Result<HttpResponseView, HttpErrorView>) -> Result<
    Seq<char>,
    HttpErrorView,
> {
    match outcome {
        Ok(response) => if is_success(response.status) {
            Ok(response.body)
        } else {
            Err(status_error(response.status, response.body))
        },
        Err(error) => Err(error),
    }
}

/// The view of the result of a search.
pub open spec fn body_view(result: Result<String, HttpError>) -> Result<Seq<char>, HttpErrorView> {
    match result {
        Ok(body) => Ok(body@),
        Err(error) => Err(error@),
    }
}

/// The second half of a search: judges what the executor handed back.
pub fn conclude_search(outcome: Result<HttpResponse, HttpError>) -> (result: Result<
    String,
    HttpError,
>)
    ensures
        body_view(result) == search_result(crate::executor::result_view(outcome)),
        outcome is Ok && !is_success(outcome->Ok_0.status) ==> (result matches Err(error)
            && error.kind == (ErrorKind::HttpStatusError { status: Some(outcome->Ok_0.status) })
            && error.details.deep_view() == Some(outcome->Ok_0.body@)),
        outcome is Err ==> (result matches Err(error) && error@ == outcome->Err_0@),
{
    match outcome {
        Ok(response) => {
            if response.status >= 200 && response.status < 300 {
                Ok(response.body)
            } else {
                let mut message = String::from_str("API request failed with status: ");
                let digits = decimal_text(response.status);
                message.append(digits.as_str());
                Err(
                    HttpError {
                        kind: ErrorKind::HttpStatusError { status: Some(response.status) },
                        error: message,
                        details: Some(response.body),
                    },
                )
            }
        },
        Err(error) => Err(error),
    }
}

/// A search for the empty query goes to the base URL and the search path,
/// with nothing behind them: the empty query alone makes no request fail.
pub proof fn lemma_empty_query_url(descriptor: DescriptorView, default_template: Seq<char>)
    ensures
        search_url(
            descriptor.base_url,
            search_template(descriptor, default_template),
            Seq::empty(),
        ) == descriptor.base_url + search_template(descriptor, default_template),
        descriptor.base_url.len() > 0 ==> search_request(
            descriptor,
            Seq::empty(),
            default_template,
        ) == checked_request(
            descriptor.base_url + search_template(descriptor, default_template),
            url_parses(descriptor.base_url + search_template(descriptor, default_template)),
        ),
{
    lemma_empty_query();
    let stem = descriptor.base_url + search_template(descriptor, default_template);
    assert(stem + Seq::<char>::empty() =~= stem);
}

/// Percent-decoding what stands behind the base URL and the search path
/// in the URL of a search gives the query back.
pub proof fn lemma_search_url_round_trip(base_url: Seq<char>, template: Seq<char>, query: Seq<char>)
    ensures
        decoded_component(
            search_url(base_url, template, query).skip((base_url.len() + template.len()) as int),
        ) == query,
{
    lemma_query_round_trip(query);
    assert(search_url(base_url, template, query).skip((base_url.len() + template.len()) as int)
        =~= encoded_component(query));
}

/// A search ends with a body exactly when the transport brought a response
/// with a successful status, and then with the body of that response; a
/// failure of the transport ends it with the error for that failure.
pub proof fn lemma_search_outcome(outcome: TransportOutcomeView)
    ensures
        search_result(concluded(outcome)) is Ok <==> (outcome matches TransportOutcomeView::Responded {
            status,
            ..
        } && is_success(status)),
        outcome matches TransportOutcomeView::Responded { status, body, .. } ==> search_result(
            concluded(outcome),
        ) == (if is_success(status) {
            Ok::<Seq<char>, HttpErrorView>(body)
        } else {
            Err::<Seq<char>, HttpErrorView>(status_error(status, body))
        }),
        outcome matches TransportOutcomeView::Failed { phase, failure } ==> search_result(
            concluded(outcome),
        ) == Err::<Seq<char>, HttpErrorView>(failure_error(phase, failure)),
{
}

} // verus!
