//! The registry of search backends: a fixed mapping from source identifier
//! to the descriptor of one backend.

use crate::assoc::{lemma_mapping_of_distinct, names_distinct, names_hold, pairs_mapping};
use crate::text::text_eq;
use vstd::prelude::*;

verus! {

/// What the detail endpoint of a backend returns.
#[derive(Clone, Copy, Debug, PartialEq, Eq, Structural)]
pub enum ResponseKind {
    /// Machine-readable data.
    Structured,
    /// A document from which the data has to be extracted.
    MarkupScraped,
}

/// How one backend is addressed and what it returns.
#[derive(Debug, PartialEq, Eq)]
pub struct AdapterDescriptor {
    /// The origin of the API calls.
    pub base_url: String,
    /// A label for people; it plays no part in routing.
    pub display_name: String,
    /// The origin of the detail pages, where it is not `base_url`.
    pub detail_base_url: Option<String>,
    /// What the detail endpoint returns.
    pub response_kind: ResponseKind,
    /// The search path of this backend, where it is not the default one.
    pub search_path_template: Option<String>,
    /// The path of one item's detail page, with `{id}` for the item.
    pub detail_path_template: Option<String>,
}

/// A descriptor as a mathematical value.
pub ghost struct DescriptorView {
    pub base_url: Seq<char>,
    pub display_name: Seq<char>,
    pub detail_base_url: Option<Seq<char>>,
    pub response_kind: ResponseKind,
    pub search_path_template: Option<Seq<char>>,
    pub detail_path_template: Option<Seq<char>>,
}

impl View for AdapterDescriptor {
    type V = DescriptorView;

    open spec fn view(&self) -> DescriptorView {
        DescriptorView {
            base_url: self.base_url@,
            display_name: self.display_name@,
            detail_base_url: self.detail_base_url.deep_view(),
            response_kind: self.response_kind,
            search_path_template: self.search_path_template.deep_view(),
            detail_path_template: self.detail_path_template.deep_view(),
        }
    }
}

/// A copy of an optional text.
fn copy_optional(text: &Option<String>) -> (copy: Option<String>)
    ensures
        copy.deep_view() == text.deep_view(),
{
    match text {
        Some(t) => Some(t.clone()),
        None => None,
    }
}

impl Clone for AdapterDescriptor {
    fn clone(&self) -> (copy: Self)
        ensures
            copy@ == self@,
    {
        AdapterDescriptor {
            base_url: self.base_url.clone(),
            display_name: self.display_name.clone(),
            detail_base_url: copy_optional(&self.detail_base_url),
            response_kind: self.response_kind,
            search_path_template: copy_optional(&self.search_path_template),
            detail_path_template: copy_optional(&self.detail_path_template),
        }
    }
}

/// The origin of the detail pages of a backend: its own where it names
/// one, the origin of the API calls otherwise.
pub open spec fn detail_origin_of(descriptor: DescriptorView) -> Seq<char> {
    match descriptor.detail_base_url {
        Some(origin) => origin,
        None => descriptor.base_url,
    }
}

impl AdapterDescriptor {
    /// The origin of the detail pages.
    pub fn detail_origin(&self) -> (origin: &str)
        ensures
            origin@ == detail_origin_of(self@),
    {
        match &self.detail_base_url {
            Some(origin) => origin.as_str(),
            None => self.base_url.as_str(),
        }
    }
}

/// A backend whose detail endpoint returns structured data at the default paths.
pub open spec fn structured_source(
    base_url: Seq<char>,
    display_name: Seq<char>,
    detail_base_url: Option<Seq<char>>,
) -> DescriptorView {
    DescriptorView {
        base_url,
        display_name,
        detail_base_url,
        response_kind: ResponseKind::Structured,
        search_path_template: None,
        detail_path_template: None,
    }
}

/// A backend whose detail pages are documents at a path of their own.
pub open spec fn scraped_source(
    base_url: Seq<char>,
    display_name: Seq<char>,
    detail_base_url: Seq<char>,
    detail_path_template: Seq<char>,
) -> DescriptorView {
    DescriptorView {
        base_url,
        display_name,
        detail_base_url: Some(detail_base_url),
        response_kind: ResponseKind::MarkupScraped,
        search_path_template: None,
        detail_path_template: Some(detail_path_template),
    }
}

/// The registered backends, each with its source identifier.
pub open spec fn builtin_listing() -> Seq<(Seq<char>, DescriptorView)> {
    seq![
        ("dyttzy"@, structured_source("http://caiji.dyttzyapi.com"@, "电影天堂资源"@, Some("http://caiji.dyttzyapi.com"@))),
        ("ruyi"@, structured_source("https://cj.rycjapi.com"@, "如意资源"@, None)),
        ("bfzy"@, structured_source("https://bfzyapi.com"@, "暴风资源"@, None)),
        ("tyyszy"@, structured_source("https://tyyszy.com"@, "天涯资源"@, None)),
        ("xiaomaomi"@, structured_source("https://zy.xiaomaomi.cc"@, "小猫咪资源"@, None)),
        ("ffzy"@, scraped_source("http://ffzy5.tv"@, "非凡影视"@, "http://ffzy5.tv"@, "/index.php/vod/detail/id/{id}.html"@)),
        ("heimuer"@, scraped_source("https://json.heimuer.xyz"@, "黑木耳"@, "https://heimuer.tv"@, "/index.php/vod/detail/id/{id}.html"@)),
        ("zy360"@, structured_source("https://360zy.com"@, "360资源"@, None)),
        ("wolong"@, structured_source("https://wolongzyw.com"@, "卧龙资源"@, None)),
        ("hwba"@, structured_source("https://cjhwba.com"@, "华为吧资源"@, None)),
        ("jisu"@, structured_source("https://jszyapi.com"@, "极速资源"@, Some("https://jszyapi.com"@))),
        ("dbzy"@, structured_source("https://dbzy.com"@, "豆瓣资源"@, None)),
        ("mozhua"@, structured_source("https://mozhuazy.com"@, "魔爪资源"@, None)),
        ("mdzy"@, structured_source("https://www.mdzyapi.com"@, "魔都资源"@, None)),
        ("zuid"@, structured_source("https://api.zuidapi.com"@, "最大资源"@, None)),
        ("yinghua"@, structured_source("https://m3u8.apiyhzy.com"@, "樱花资源"@, None)),
        ("baidu"@, structured_source("https://api.apibdzy.com"@, "百度云资源"@, None)),
        ("wujin"@, structured_source("https://api.wujinapi.me"@, "无尽资源"@, None)),
        ("wwzy"@, structured_source("https://wwzy.tv"@, "旺旺短剧"@, None)),
        ("ikun"@, structured_source("https://ikunzyapi.com"@, "iKun资源"@, None))
    ]
}

/// The registered backends as a mapping from source identifier to descriptor.
pub open spec fn builtin_sources() -> Map<Seq<char>, DescriptorView> {
    pairs_mapping(builtin_listing())
}

/// Whether every descriptor of a listing has a base URL.
pub open spec fn all_addressable(listing: Seq<(Seq<char>, DescriptorView)>) -> bool {
    forall|i: int| 0 <= i < listing.len() ==> (#[trigger] listing[i]).1.base_url.len() > 0
}

/// The first two characters of a source identifier.
spec fn initials(source_id: Seq<char>) -> (char, char) {
    (source_id[0], source_id[1])
}

/// The registered source identifiers differ in their first two characters,
/// and none of them begins as `custom` does.
proof fn lemma_initials_differ()
    ensures
        builtin_listing().len() == 20,
        forall|i: int, j: int|
            0 <= i < 20 && 0 <= j < 20 && i != j ==> initials(builtin_listing()[i].0) != initials(
                builtin_listing()[j].0,
            ),
        forall|i: int| 0 <= i < 20 ==> initials(builtin_listing()[i].0) != ('c', 'u'),
{
    reveal_strlit("dyttzy");
    reveal_strlit("ruyi");
    reveal_strlit("bfzy");
    reveal_strlit("tyyszy");
    reveal_strlit("xiaomaomi");
    reveal_strlit("ffzy");
    reveal_strlit("heimuer");
    reveal_strlit("zy360");
    reveal_strlit("wolong");
    reveal_strlit("hwba");
    reveal_strlit("jisu");
    reveal_strlit("dbzy");
    reveal_strlit("mozhua");
    reveal_strlit("mdzy");
    reveal_strlit("zuid");
    reveal_strlit("yinghua");
    reveal_strlit("baidu");
    reveal_strlit("wujin");
    reveal_strlit("wwzy");
    reveal_strlit("ikun");
}

/// No source identifier is registered twice, and every registered backend
/// has a base URL.
pub proof fn lemma_builtin_listing()
    ensures
        names_distinct(builtin_listing()),
        all_addressable(builtin_listing()),
{
    let listing = builtin_listing();
    lemma_initials_differ();
    assert forall|i: int, j: int|
        0 <= i < listing.len() && 0 <= j < listing.len() && i != j implies (#[trigger] listing[i]).0
        != (#[trigger] listing[j]).0 by {
        assert(initials(listing[i].0) != initials(listing[j].0));
    }
    reveal_strlit("http://caiji.dyttzyapi.com");
    reveal_strlit("https://cj.rycjapi.com");
    reveal_strlit("https://bfzyapi.com");
    reveal_strlit("https://tyyszy.com");
    reveal_strlit("https://zy.xiaomaomi.cc");
    reveal_strlit("http://ffzy5.tv");
    reveal_strlit("https://json.heimuer.xyz");
    reveal_strlit("https://360zy.com");
    reveal_strlit("https://wolongzyw.com");
    reveal_strlit("https://cjhwba.com");
    reveal_strlit("https://jszyapi.com");
    reveal_strlit("https://dbzy.com");
    reveal_strlit("https://mozhuazy.com");
    reveal_strlit("https://www.mdzyapi.com");
    reveal_strlit("https://api.zuidapi.com");
    reveal_strlit("https://m3u8.apiyhzy.com");
    reveal_strlit("https://api.apibdzy.com");
    reveal_strlit("https://api.wujinapi.me");
    reveal_strlit("https://wwzy.tv");
    reveal_strlit("https://ikunzyapi.com");
}

/// Each backend of the listing is registered under its identifier, as listed.
pub proof fn lemma_builtin_entry(i: int)
    requires
        0 <= i < builtin_listing().len(),
    ensures
        builtin_sources().contains_key(builtin_listing()[i].0),
        builtin_sources()[builtin_listing()[i].0] == builtin_listing()[i].1,
{
    lemma_builtin_listing();
    lemma_mapping_of_distinct(builtin_listing(), i);
}

/// Every registered source identifier stands for a descriptor with a
/// non-empty base URL.
pub proof fn lemma_builtin_sources_addressable(source_id: Seq<char>)
    requires
        builtin_sources().contains_key(source_id),
    ensures
        builtin_sources()[source_id].base_url.len() > 0,
{
    lemma_builtin_listing();
    let listing = builtin_listing();
    let i = choose|i: int| 0 <= i < listing.len() && (#[trigger] listing[i]).0 == source_id;
    lemma_mapping_of_distinct(listing, i);
}

/// The identifier of the custom source is not registered: a backend that
/// the caller names by its URL is never taken from the registry.
pub proof fn lemma_custom_is_not_registered()
    ensures
        !builtin_sources().contains_key("custom"@),
{
    reveal_strlit("custom");
    lemma_initials_differ();
    let listing = builtin_listing();
    if names_hold(listing, "custom"@) {
        let i = choose|i: int| 0 <= i < listing.len() && (#[trigger] listing[i]).0 == "custom"@;
        assert(initials(listing[i].0) == ('c', 'u'));
    }
}

fn optional_text(text: Option<&str>) -> (owned: Option<String>)
    ensures
        owned.deep_view() == text.deep_view(),
{
    match text {
        Some(t) => Some(String::from_str(t)),
        None => None,
    }
}

fn structured(base_url: &str, display_name: &str, detail_base_url: Option<&str>) -> (descriptor:
    AdapterDescriptor)
    ensures
        descriptor@ == structured_source(base_url@, display_name@, detail_base_url.deep_view()),
{
    AdapterDescriptor {
        base_url: String::from_str(base_url),
        display_name: String::from_str(display_name),
        detail_base_url: optional_text(detail_base_url),
        response_kind: ResponseKind::Structured,
        search_path_template: None,
        detail_path_template: None,
    }
}

fn scraped(
    base_url: &str,
    display_name: &str,
    detail_base_url: &str,
    detail_path_template: &str,
) -> (descriptor: AdapterDescriptor)
    ensures
        descriptor@ == scraped_source(
            base_url@,
            display_name@,
            detail_base_url@,
            detail_path_template@,
        ),
{
    AdapterDescriptor {
        base_url: String::from_str(base_url),
        display_name: String::from_str(display_name),
        detail_base_url: Some(String::from_str(detail_base_url)),
        response_kind: ResponseKind::MarkupScraped,
        search_path_template: None,
        detail_path_template: Some(String::from_str(detail_path_template)),
    }
}

/// The mathematical form of a list of registered backends.
pub open spec fn listing_of(entries: Seq<(String, AdapterDescriptor)>) -> Seq<
    (Seq<char>, DescriptorView),
> {
    Seq::new(entries.len(), |i: int| (entries[i].0@, entries[i].1@))
}

/// A read-only mapping from source identifier to descriptor. No identifier
/// occurs twice in it, and every descriptor in it has a base URL.
pub struct AdapterRegistry {
    entries: Vec<(String, AdapterDescriptor)>,
}

impl View for AdapterRegistry {
    type V = Map<Seq<char>, DescriptorView>;

    closed spec fn view(&self) -> Map<Seq<char>, DescriptorView> {
        pairs_mapping(listing_of(self.entries@))
    }
}

impl AdapterRegistry {
    #[verifier::type_invariant]
    spec fn well_formed(self) -> bool {
        &&& names_distinct(listing_of(self.entries@))
        &&& all_addressable(listing_of(self.entries@))
    }

    /// The registry of the backends that this library knows.
    pub fn builtin() -> (registry: Self)
        ensures
            registry@ == builtin_sources(),
    {
        let mut entries: Vec<(String, AdapterDescriptor)> = Vec::new();
        entries.push((String::from_str("dyttzy"), structured("http://caiji.dyttzyapi.com", "电影天堂资源", Some("http://caiji.dyttzyapi.com"))));
        entries.push((String::from_str("ruyi"), structured("https://cj.rycjapi.com", "如意资源", None)));
        entries.push((String::from_str("bfzy"), structured("https://bfzyapi.com", "暴风资源", None)));
        entries.push((String::from_str("tyyszy"), structured("https://tyyszy.com", "天涯资源", None)));
        entries.push((String::from_str("xiaomaomi"), structured("https://zy.xiaomaomi.cc", "小猫咪资源", None)));
        entries.push((String::from_str("ffzy"), scraped("http://ffzy5.tv", "非凡影视", "http://ffzy5.tv", "/index.php/vod/detail/id/{id}.html")));
        entries.push((String::from_str("heimuer"), scraped("https://json.heimuer.xyz", "黑木耳", "https://heimuer.tv", "/index.php/vod/detail/id/{id}.html")));
        entries.push((String::from_str("zy360"), structured("https://360zy.com", "360资源", None)));
        entries.push((String::from_str("wolong"), structured("https://wolongzyw.com", "卧龙资源", None)));
        entries.push((String::from_str("hwba"), structured("https://cjhwba.com", "华为吧资源", None)));
        entries.push((String::from_str("jisu"), structured("https://jszyapi.com", "极速资源", Some("https://jszyapi.com"))));
        entries.push((String::from_str("dbzy"), structured("https://dbzy.com", "豆瓣资源", None)));
        entries.push((String::from_str("mozhua"), structured("https://mozhuazy.com", "魔爪资源", None)));
        entries.push((String::from_str("mdzy"), structured("https://www.mdzyapi.com", "魔都资源", None)));
        entries.push((String::from_str("zuid"), structured("https://api.zuidapi.com", "最大资源", None)));
        entries.push((String::from_str("yinghua"), structured("https://m3u8.apiyhzy.com", "樱花资源", None)));
        entries.push((String::from_str("baidu"), structured("https://api.apibdzy.com", "百度云资源", None)));
        entries.push((String::from_str("wujin"), structured("https://api.wujinapi.me", "无尽资源", None)));
        entries.push((String::from_str("wwzy"), structured("https://wwzy.tv", "旺旺短剧", None)));
        entries.push((String::from_str("ikun"), structured("https://ikunzyapi.com", "iKun资源", None)));
        proof {
            lemma_builtin_listing();
            assert(listing_of(entries@) =~= builtin_listing());
        }
        AdapterRegistry { entries }
    }

    /// The descriptor registered under a source identifier. An identifier
    /// that is not registered gives nothing: there is no fallback backend.
    pub fn lookup(&self, source_id: &str) -> (found: Option<AdapterDescriptor>)
        ensures
            match found {
                Some(descriptor) => self@.contains_key(source_id@) && descriptor@
                    == self@[source_id@] && descriptor.base_url@.len() > 0,
                None => !self@.contains_key(source_id@),
            },
    {
        proof {
            use_type_invariant(self);
        }
        let ghost listing = listing_of(self.entries@);
        let mut i: usize = 0;
        while i < self.entries.len()
            invariant
                i <= self.entries.len(),
                listing == listing_of(self.entries@),
                names_distinct(listing),
                all_addressable(listing),
                forall|k: int| 0 <= k < i ==> (#[trigger] listing[k]).0 != source_id@,
            decreases self.entries.len() - i,
        {
            if text_eq(self.entries[i].0.as_str(), source_id) {
                proof {
                    assert(listing[i as int].0 == source_id@);
                    lemma_mapping_of_distinct(listing, i as int);
                }
                return Some(self.entries[i].1.clone());
            }
            i += 1;
        }
        assert(!names_hold(listing, source_id@));
        None
    }
}

} // verus!
