use source_dispatch::dispatch::{
    build_search_request, conclude_search, default_search_template, prepare_search,
    resolve_source, search_request_for,
};
use source_dispatch::envelope::{ErrorKind, HttpError, HttpResponse};
use source_dispatch::executor::{
    conclude_request, prepare_request, Method, Phase, TransportFailure, TransportOutcome,
};
use source_dispatch::headers::HeaderTable;
use source_dispatch::registry::{AdapterDescriptor, AdapterRegistry, ResponseKind};

const DEFAULT_PATH: &str = "/api.php/provide/vod/?ac=videolist&wd=";
const USER_AGENT: &str = "Mozilla/5.0 (Windows NT 10.0; Win64; x64) AppleWebKit/537.36 (KHTML, like Gecko) Chrome/122.0.0.0 Safari/537.36";

fn descriptor(base_url: &str, search_path_template: Option<&str>) -> AdapterDescriptor {
    AdapterDescriptor {
        base_url: base_url.to_string(),
        display_name: "Test".to_string(),
        detail_base_url: None,
        response_kind: ResponseKind::Structured,
        search_path_template: search_path_template.map(|t| t.to_string()),
        detail_path_template: None,
    }
}

fn response(status: u16, body: &str) -> HttpResponse {
    HttpResponse { status, headers: HeaderTable::new(), body: body.to_string() }
}

fn encoded_part(url: &str, prefix: &str) -> String {
    assert!(url.starts_with(prefix));
    url[prefix.len()..].to_string()
}

#[test]
fn the_default_search_path_ends_where_the_query_goes() {
    assert_eq!(default_search_template(), DEFAULT_PATH);
}

#[test]
fn a_registered_source_resolves_to_its_descriptor() {
    let registry = AdapterRegistry::builtin();
    let found = resolve_source(&registry, "bfzy", None).expect("bfzy is registered");
    assert_eq!(found.base_url, "https://bfzyapi.com");
    assert_eq!(found.display_name, "暴风资源");
    let ignored =
        resolve_source(&registry, "bfzy", Some("https://elsewhere.example".to_string()))
            .expect("bfzy is registered");
    assert_eq!(ignored.base_url, "https://bfzyapi.com");
}

#[test]
fn an_unregistered_source_is_an_error_that_names_it() {
    let registry = AdapterRegistry::builtin();
    let error = resolve_source(&registry, "nowhere", None).expect_err("nowhere is unknown");
    assert_eq!(
        error,
        HttpError {
            kind: ErrorKind::UnknownSource,
            error: "Unknown source_id: nowhere".to_string(),
            details: None,
        }
    );
    let other = resolve_source(&registry, "Custom", Some("https://x.example".to_string()))
        .expect_err("the custom source is spelled in lower case");
    assert_eq!(other.kind, ErrorKind::UnknownSource);
    assert_eq!(other.error, "Unknown source_id: Custom");
}

#[test]
fn search_of_an_unregistered_source_surfaces_unknown_source() {
    let registry = AdapterRegistry::builtin();
    let error = prepare_search(&registry, "q", "nowhere", None).expect_err("nowhere is unknown");
    assert_eq!(error.kind, ErrorKind::UnknownSource);
    assert_eq!(error.error, "Unknown source_id: nowhere");
    assert_eq!(error.details, None);
}

#[test]
fn the_custom_source_without_a_url_is_a_missing_parameter() {
    let registry = AdapterRegistry::builtin();
    let error = prepare_search(&registry, "q", "custom", None).expect_err("no url was given");
    assert_eq!(
        error,
        HttpError {
            kind: ErrorKind::MissingParameter,
            error: "Custom source selected but no API URL provided".to_string(),
            details: None,
        }
    );
}

#[test]
fn the_custom_source_is_a_structured_backend_at_the_given_url() {
    let registry = AdapterRegistry::builtin();
    let found = resolve_source(&registry, "custom", Some("https://my.example".to_string()))
        .expect("a url was given");
    assert_eq!(
        found,
        AdapterDescriptor {
            base_url: "https://my.example".to_string(),
            display_name: "Custom".to_string(),
            detail_base_url: None,
            response_kind: ResponseKind::Structured,
            search_path_template: None,
            detail_path_template: None,
        }
    );
}

#[test]
fn the_custom_source_is_searched_at_the_default_path() {
    let registry = AdapterRegistry::builtin();
    let request =
        prepare_search(&registry, "matrix", "custom", Some("https://my.example".to_string()))
            .expect("a url was given");
    assert_eq!(request.url, "https://my.example/api.php/provide/vod/?ac=videolist&wd=matrix");
}

#[test]
fn a_search_request_is_a_get_with_the_search_headers() {
    let registry = AdapterRegistry::builtin();
    let request = prepare_search(&registry, "matrix", "ikun", None).expect("ikun is registered");
    assert_eq!(request.url, "https://ikunzyapi.com/api.php/provide/vod/?ac=videolist&wd=matrix");
    assert_eq!(request.method, Some("GET".to_string()));
    assert_eq!(
        request.headers,
        Some(vec![
            ("User-Agent".to_string(), USER_AGENT.to_string()),
            ("Accept".to_string(), "application/json".to_string()),
        ])
    );
    assert_eq!(request.body, None);
    assert_eq!(request.timeout_secs, Some(20));
    assert_eq!(request.response_as_text, Some(true));
}

#[test]
fn a_search_request_goes_on_the_wire_with_its_own_user_agent() {
    let registry = AdapterRegistry::builtin();
    let request = prepare_search(&registry, "matrix", "ikun", None).expect("ikun is registered");
    let wire = prepare_request(&request);
    assert_eq!(wire.url, "https://ikunzyapi.com/api.php/provide/vod/?ac=videolist&wd=matrix");
    assert_eq!(wire.method, Method::Get);
    assert_eq!(wire.body, None);
    assert_eq!(wire.timeout_secs, 20);
    assert_eq!(wire.headers.len(), 2);
    assert_eq!(wire.headers.get("user-agent"), Some(&USER_AGENT.to_string()));
    assert_eq!(wire.headers.get("accept"), Some(&"application/json".to_string()));
}

#[test]
fn the_empty_query_still_gives_a_well_formed_url() {
    let registry = AdapterRegistry::builtin();
    let request = prepare_search(&registry, "", "wwzy", None).expect("wwzy is registered");
    assert_eq!(request.url, "https://wwzy.tv/api.php/provide/vod/?ac=videolist&wd=");
    let built = build_search_request(&descriptor("https://a.example", None), "", "/s?q=")
        .expect("the url is well formed");
    assert_eq!(built.url, "https://a.example/s?q=");
}

#[test]
fn the_query_is_percent_encoded() {
    let d = descriptor("https://a.example", None);
    let plain = build_search_request(&d, "AZaz09-._~", "/s?q=").expect("well formed");
    assert_eq!(plain.url, "https://a.example/s?q=AZaz09-._~");
    let spaced = build_search_request(&d, "a b", "/s?q=").expect("well formed");
    assert_eq!(spaced.url, "https://a.example/s?q=a%20b");
    let reserved = build_search_request(&d, "a&b=c+d/e?f#g%h", "/s?q=").expect("well formed");
    assert_eq!(reserved.url, "https://a.example/s?q=a%26b%3Dc%2Bd%2Fe%3Ff%23g%25h");
    let wide = build_search_request(&d, "你好 world", "/s?q=").expect("well formed");
    assert_eq!(wide.url, "https://a.example/s?q=%E4%BD%A0%E5%A5%BD%20world");
    let rest = build_search_request(&d, "!*'();:@$,[]\"<>\\^`{|}\n\u{7f}", "/s?q=")
        .expect("well formed");
    assert_eq!(
        rest.url,
        "https://a.example/s?q=%21%2A%27%28%29%3B%3A%40%24%2C%5B%5D%22%3C%3E%5C%5E%60%7B%7C%7D%0A%7F"
    );
}

#[test]
fn decoding_the_encoded_query_gives_the_query_back() {
    let d = descriptor("https://a.example", None);
    let prefix = "https://a.example/s?q=";
    for query in [
        "",
        "plain",
        "two words",
        "a&b=c",
        "k=v&k2=v2",
        "100% sure",
        "%41",
        "你好，世界",
        "caf\u{e9} \u{1f47e} & co = fun",
        "+plus+",
    ] {
        let request = build_search_request(&d, query, "/s?q=").expect("well formed");
        let encoded = encoded_part(&request.url, prefix);
        assert!(encoded.bytes().all(|b| b.is_ascii_alphanumeric() || b"-._~%".contains(&b)));
        let decoded = urlencoding::decode(&encoded).expect("the encoded query is utf-8");
        assert_eq!(decoded, query);
    }
}

#[test]
fn a_search_path_of_the_backend_is_used_as_it_stands() {
    let own = descriptor("https://a.example", Some("/vodsearch/?keyword="));
    let request = build_search_request(&own, "x y", DEFAULT_PATH).expect("well formed");
    assert_eq!(request.url, "https://a.example/vodsearch/?keyword=x%20y");
    let unusual = descriptor("https://a.example", Some("/a b/{id}?q=&wd="));
    let kept = build_search_request(&unusual, "z", DEFAULT_PATH).expect("well formed");
    assert_eq!(kept.url, "https://a.example/a b/{id}?q=&wd=z");
    let empty = descriptor("https://a.example", Some(""));
    let bare = build_search_request(&empty, "z", DEFAULT_PATH).expect("well formed");
    assert_eq!(bare.url, "https://a.examplez");
}

#[test]
fn the_default_search_path_is_used_where_the_backend_has_none() {
    let request = build_search_request(&descriptor("https://a.example", None), "x", DEFAULT_PATH)
        .expect("well formed");
    assert_eq!(request.url, "https://a.example/api.php/provide/vod/?ac=videolist&wd=x");
}

#[test]
fn a_descriptor_without_a_base_url_is_a_bad_request() {
    let error = build_search_request(&descriptor("", None), "x", DEFAULT_PATH)
        .expect_err("there is no base url");
    assert_eq!(
        error,
        HttpError {
            kind: ErrorKind::BadRequest,
            error: "Source has no base URL".to_string(),
            details: None,
        }
    );
    let registry = AdapterRegistry::builtin();
    let custom = prepare_search(&registry, "x", "custom", Some(String::new()))
        .expect_err("there is no base url");
    assert_eq!(custom.kind, ErrorKind::BadRequest);
}

#[test]
fn a_url_that_does_not_parse_is_a_bad_request() {
    let error = build_search_request(&descriptor("not a url", None), "x", "/s?q=")
        .expect_err("the url does not parse");
    assert_eq!(
        error,
        HttpError {
            kind: ErrorKind::BadRequest,
            error: "Search URL is malformed".to_string(),
            details: Some("not a url/s?q=x".to_string()),
        }
    );
    let other = build_search_request(&descriptor("http://[::1", None), "x", "/s?q=")
        .expect_err("the url does not parse");
    assert_eq!(other.kind, ErrorKind::BadRequest);
}

#[test]
fn the_request_for_a_url_depends_on_whether_it_parses() {
    let request = search_request_for("https://a.example/s?q=x".to_string(), true)
        .expect("the url is said to parse");
    assert_eq!(request.url, "https://a.example/s?q=x");
    assert_eq!(request.method, Some("GET".to_string()));
    let error = search_request_for("https://a.example/s?q=x".to_string(), false)
        .expect_err("the url is said not to parse");
    assert_eq!(error.kind, ErrorKind::BadRequest);
    assert_eq!(error.details, Some("https://a.example/s?q=x".to_string()));
}

#[test]
fn a_successful_status_gives_the_body_as_it_came() {
    for status in [200u16, 201, 204, 299] {
        let body = conclude_search(Ok(response(status, " {\"list\": []}\n")));
        assert_eq!(body, Ok(" {\"list\": []}\n".to_string()));
    }
    assert_eq!(conclude_search(Ok(response(200, ""))), Ok(String::new()));
}

#[test]
fn a_not_found_status_is_a_status_error_with_the_body_as_detail() {
    let result = conclude_search(Ok(response(404, "{\"error\":\"nf\"}")));
    assert_eq!(
        result,
        Err(HttpError {
            kind: ErrorKind::HttpStatusError { status: Some(404) },
            error: "API request failed with status: 404".to_string(),
            details: Some("{\"error\":\"nf\"}".to_string()),
        })
    );
}

#[test]
fn a_not_found_response_from_the_transport_ends_as_a_status_error() {
    let executed = conclude_request(TransportOutcome::Responded {
        status: 404,
        headers: vec![("content-type".to_string(), b"application/json".to_vec())],
        body: "{\"error\":\"nf\"}".to_string(),
    });
    assert!(executed.is_ok());
    let error = conclude_search(executed).expect_err("404 is no success");
    assert_eq!(error.kind, ErrorKind::HttpStatusError { status: Some(404) });
    assert_eq!(error.details, Some("{\"error\":\"nf\"}".to_string()));
}

#[test]
fn every_status_outside_the_successes_is_a_status_error() {
    for status in [0u16, 100, 199, 300, 301, 400, 500, 503, 65535] {
        let error = conclude_search(Ok(response(status, "body"))).expect_err("no success");
        assert_eq!(error.kind, ErrorKind::HttpStatusError { status: Some(status) });
        assert_eq!(error.error, format!("API request failed with status: {}", status));
        assert_eq!(error.details, Some("body".to_string()));
    }
}

#[test]
fn an_error_of_the_executor_passes_through_unchanged() {
    let failure = TransportFailure {
        timed_out: true,
        connect: false,
        builder: false,
        redirect: false,
        status: false,
        status_code: None,
        body: false,
        decode: false,
        description: "operation timed out".to_string(),
    };
    let executed = conclude_request(TransportOutcome::Failed { phase: Phase::Send, failure });
    let error = conclude_search(executed).expect_err("a timeout is an error");
    assert_eq!(
        error,
        HttpError {
            kind: ErrorKind::Timeout,
            error: "Request timed out".to_string(),
            details: Some("operation timed out".to_string()),
        }
    );
}

#[test]
fn the_failure_of_one_search_leaves_another_untouched() {
    let registry = AdapterRegistry::builtin();
    let first = prepare_search(&registry, "a", "ruyi", None).expect("ruyi is registered");
    let failed = conclude_search(Ok(response(500, "down")));
    let second = prepare_search(&registry, "b", "dbzy", None).expect("dbzy is registered");
    let done = conclude_search(Ok(response(200, "up")));
    assert!(failed.is_err());
    assert_eq!(done, Ok("up".to_string()));
    assert_eq!(first.url, "https://cj.rycjapi.com/api.php/provide/vod/?ac=videolist&wd=a");
    assert_eq!(second.url, "https://dbzy.com/api.php/provide/vod/?ac=videolist&wd=b");
    let again = prepare_search(&registry, "a", "ruyi", None).expect("ruyi is registered");
    assert_eq!(again, first);
}

#[test]
fn every_ascii_character_is_kept_or_escaped_in_upper_case() {
    let d = descriptor("https://a.example", None);
    let prefix = "https://a.example/s?q=";
    for code in 0u32..=0x7f {
        let c = char::from_u32(code).expect("a character");
        let expected = if c.is_ascii_alphanumeric() || "-._~".contains(c) {
            c.to_string()
        } else {
            format!("%{:02X}", code)
        };
        let request = build_search_request(&d, &c.to_string(), "/s?q=").expect("well formed");
        assert_eq!(encoded_part(&request.url, prefix), expected);
    }
}

#[test]
fn a_wide_character_is_escaped_byte_by_byte() {
    let d = descriptor("https://a.example", None);
    let prefix = "https://a.example/s?q=";
    for (query, expected) in [
        ("\u{80}", "%C2%80"),
        ("\u{e9}", "%C3%A9"),
        ("\u{7ff}", "%DF%BF"),
        ("\u{800}", "%E0%A0%80"),
        ("\u{ffff}", "%EF%BF%BF"),
        ("\u{10000}", "%F0%90%80%80"),
        ("\u{1f47e}", "%F0%9F%91%BE"),
        ("\u{10ffff}", "%F4%8F%BF%BF"),
    ] {
        let request = build_search_request(&d, query, "/s?q=").expect("well formed");
        assert_eq!(encoded_part(&request.url, prefix), expected);
    }
}
