use source_dispatch::registry::{AdapterRegistry, ResponseKind};

fn base_url_of(source_id: &str) -> String {
    let registry = AdapterRegistry::builtin();
    registry.lookup(source_id).expect("the source is registered").base_url
}

#[test]
fn lookup_finds_a_registered_source() {
    let registry = AdapterRegistry::builtin();
    let found = registry.lookup("ruyi").expect("ruyi is registered");
    assert_eq!(found.base_url, "https://cj.rycjapi.com");
    assert_eq!(found.display_name, "如意资源");
    assert_eq!(found.detail_base_url, None);
    assert_eq!(found.response_kind, ResponseKind::Structured);
    assert_eq!(found.search_path_template, None);
    assert_eq!(found.detail_path_template, None);
}

#[test]
fn every_registered_source_keeps_its_base_url() {
    assert_eq!(base_url_of("dyttzy"), "http://caiji.dyttzyapi.com");
    assert_eq!(base_url_of("ruyi"), "https://cj.rycjapi.com");
    assert_eq!(base_url_of("bfzy"), "https://bfzyapi.com");
    assert_eq!(base_url_of("tyyszy"), "https://tyyszy.com");
    assert_eq!(base_url_of("xiaomaomi"), "https://zy.xiaomaomi.cc");
    assert_eq!(base_url_of("ffzy"), "http://ffzy5.tv");
    assert_eq!(base_url_of("heimuer"), "https://json.heimuer.xyz");
    assert_eq!(base_url_of("zy360"), "https://360zy.com");
    assert_eq!(base_url_of("wolong"), "https://wolongzyw.com");
    assert_eq!(base_url_of("hwba"), "https://cjhwba.com");
    assert_eq!(base_url_of("jisu"), "https://jszyapi.com");
    assert_eq!(base_url_of("dbzy"), "https://dbzy.com");
    assert_eq!(base_url_of("mozhua"), "https://mozhuazy.com");
    assert_eq!(base_url_of("mdzy"), "https://www.mdzyapi.com");
    assert_eq!(base_url_of("zuid"), "https://api.zuidapi.com");
    assert_eq!(base_url_of("yinghua"), "https://m3u8.apiyhzy.com");
    assert_eq!(base_url_of("baidu"), "https://api.apibdzy.com");
    assert_eq!(base_url_of("wujin"), "https://api.wujinapi.me");
    assert_eq!(base_url_of("wwzy"), "https://wwzy.tv");
    assert_eq!(base_url_of("ikun"), "https://ikunzyapi.com");
}

#[test]
fn every_registered_source_has_a_base_url() {
    let registry = AdapterRegistry::builtin();
    let ids = [
        "dyttzy", "ruyi", "bfzy", "tyyszy", "xiaomaomi", "ffzy", "heimuer", "zy360", "wolong",
        "hwba", "jisu", "dbzy", "mozhua", "mdzy", "zuid", "yinghua", "baidu", "wujin", "wwzy",
        "ikun",
    ];
    for id in ids {
        let found = registry.lookup(id).expect("the source is registered");
        assert!(!found.base_url.is_empty());
    }
}

#[test]
fn lookup_of_an_unregistered_source_finds_nothing() {
    let registry = AdapterRegistry::builtin();
    assert_eq!(registry.lookup("nowhere"), None);
    assert_eq!(registry.lookup(""), None);
    assert_eq!(registry.lookup("RUYI"), None);
    assert_eq!(registry.lookup("ruyi "), None);
}

#[test]
fn the_custom_source_is_not_registered() {
    let registry = AdapterRegistry::builtin();
    assert_eq!(registry.lookup("custom"), None);
}

#[test]
fn a_source_with_detail_pages_names_their_origin_and_path() {
    let registry = AdapterRegistry::builtin();
    let found = registry.lookup("heimuer").expect("heimuer is registered");
    assert_eq!(found.base_url, "https://json.heimuer.xyz");
    assert_eq!(found.display_name, "黑木耳");
    assert_eq!(found.detail_base_url, Some("https://heimuer.tv".to_string()));
    assert_eq!(found.response_kind, ResponseKind::MarkupScraped);
    assert_eq!(found.search_path_template, None);
    assert_eq!(
        found.detail_path_template,
        Some("/index.php/vod/detail/id/{id}.html".to_string())
    );

    let other = registry.lookup("ffzy").expect("ffzy is registered");
    assert_eq!(other.display_name, "非凡影视");
    assert_eq!(other.detail_base_url, Some("http://ffzy5.tv".to_string()));
    assert_eq!(other.response_kind, ResponseKind::MarkupScraped);
}

#[test]
fn a_source_may_name_a_detail_origin_and_still_be_structured() {
    let registry = AdapterRegistry::builtin();
    let found = registry.lookup("dyttzy").expect("dyttzy is registered");
    assert_eq!(found.display_name, "电影天堂资源");
    assert_eq!(found.detail_base_url, Some("http://caiji.dyttzyapi.com".to_string()));
    assert_eq!(found.response_kind, ResponseKind::Structured);
    assert_eq!(found.detail_path_template, None);
}

#[test]
fn a_descriptor_and_its_copy_are_equal() {
    let registry = AdapterRegistry::builtin();
    let found = registry.lookup("jisu").expect("jisu is registered");
    let copy = found.clone();
    assert_eq!(copy, found);
    assert_eq!(copy.display_name, "极速资源");
}

#[test]
fn detail_pages_come_from_their_own_origin_or_from_the_base_url() {
    let registry = AdapterRegistry::builtin();
    let own = registry.lookup("heimuer").expect("heimuer is registered");
    assert_eq!(own.detail_origin(), "https://heimuer.tv");
    let shared = registry.lookup("ikun").expect("ikun is registered");
    assert_eq!(shared.detail_origin(), "https://ikunzyapi.com");
}

#[test]
fn the_envelopes_are_found_at_the_root_of_the_library() {
    let error = source_dispatch::HttpError {
        kind: source_dispatch::envelope::ErrorKind::Unknown,
        error: "HTTP request failed".to_string(),
        details: None,
    };
    assert_eq!(error.details, None);
    let options = source_dispatch::HttpRequestOptions {
        url: "https://a.example".to_string(),
        method: None,
        headers: None,
        body: None,
        timeout_secs: None,
        response_as_text: None,
    };
    assert_eq!(options.url, "https://a.example");
    let response = source_dispatch::HttpResponse {
        status: 204,
        headers: source_dispatch::headers::HeaderTable::new(),
        body: String::new(),
    };
    assert_eq!(response.status, 204);
}
