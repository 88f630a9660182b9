//! The rules for header fields: which names and values a request may carry,
//! how caller-supplied headers are layered over a baseline, and which
//! response headers are kept.

use crate::encoding::bytes_as_text;
use crate::headers::HeaderTable;
use vstd::prelude::*;
use vstd::utf8::*;

verus! {

/// The bytes that a header name is made of: ASCII letters, digits and
/// ``! # $ % & ' * + - . ^ _ ` | ~``.
pub open spec fn is_token_byte(b: u8) -> bool {
    ||| b == 0x21
    ||| 0x23 <= b <= 0x27
    ||| b == 0x2a
    ||| b == 0x2b
    ||| b == 0x2d
    ||| b == 0x2e
    ||| 0x30 <= b <= 0x39
    ||| 0x41 <= b <= 0x5a
    ||| 0x5e <= b <= 0x7a
    ||| b == 0x7c
    ||| b == 0x7e
}

/// An upper-case ASCII letter as its lower-case letter, any other byte as itself.
pub open spec fn lower_byte(b: u8) -> u8 {
    if 0x41 <= b <= 0x5a {
        (b + 0x20) as u8
    } else {
        b
    }
}

/// The longest header name, in bytes.
pub open spec fn max_name_len() -> int {
    65535
}

/// The canonical form of a header name: its bytes in lower case, where it is
/// a name at all.
pub open spec fn canonical_name(name: Seq<char>) -> Option<Seq<char>> {
    let raw = encode_utf8(name);
    if 1 <= raw.len() <= max_name_len() && (forall|i: int|
        0 <= i < raw.len() ==> is_token_byte(#[trigger] raw[i])) {
        Some(bytes_as_text(Seq::new(raw.len(), |i: int| lower_byte(raw[i]))))
    } else {
        None
    }
}

/// The bytes that a header value may hold: a tab, and everything from the
/// space on but DEL.
pub open spec fn is_value_byte(b: u8) -> bool {
    (b >= 32 && b != 127) || b == 9
}

/// Whether a text can be sent as a header value.
pub open spec fn value_accepted(value: Seq<char>) -> bool {
    forall|i: int| 0 <= i < encode_utf8(value).len() ==> is_value_byte(#[trigger] encode_utf8(value)[i])
}

/// The visible ASCII bytes, and the tab.
pub open spec fn is_visible_byte(b: u8) -> bool {
    (b >= 32 && b < 127) || b == 9
}

/// Whether a header value is text: visible ASCII and tabs only.
pub open spec fn is_visible(raw: Seq<u8>) -> bool {
    forall|i: int| 0 <= i < raw.len() ==> is_visible_byte(#[trigger] raw[i])
}

/// Calls `HeaderName::from_bytes` of the `http` crate, as `reqwest::header`
/// gives it. That function accepts a name of 1 to 65535 bytes, each of them a
/// token byte, and normalises it to lower case; `as_str` gives the normalised
/// name. The contract claims exactly that.
#[verifier::external_body]
pub(crate) fn canonical_header_name(name: &str) -> (canonical: Option<String>)
    ensures
        match canonical {
            Some(text) => canonical_name(name@) == Some(text@),
            None => canonical_name(name@) is None,
        },
{
    match reqwest::header::HeaderName::from_bytes(name.as_bytes()) {
        Ok(parsed) => Some(parsed.as_str().to_string()),
        Err(_) => None,
    }
}

/// Calls `HeaderValue::from_str` of the `http` crate, as `reqwest::header`
/// gives it. That function scans the bytes of its argument and fails where
/// one is below the space and no tab, or is DEL. The contract claims that it
/// succeeds exactly otherwise.
#[verifier::external_body]
pub(crate) fn header_value_accepted(value: &str) -> (accepted: bool)
    ensures
        accepted == value_accepted(value@),
{
    reqwest::header::HeaderValue::from_str(value).is_ok()
}

/// Calls `HeaderValue::from_bytes` and, on the value it gives,
/// `HeaderValue::to_str`, both of the `http` crate as `reqwest::header` gives
/// them. The first takes the tab and every byte from the space on but DEL;
/// the second yields the bytes as text where each is visible ASCII or a tab,
/// and fails otherwise. So the two succeed together on visible ASCII and
/// tabs, and on nothing else. The contract claims exactly that.
#[verifier::external_body]
pub(crate) fn visible_text(raw: &[u8]) -> (text: Option<String>)
    ensures
        match text {
            Some(t) => is_visible(raw@) && t@ == bytes_as_text(raw@),
            None => !is_visible(raw@),
        },
{
    match reqwest::header::HeaderValue::from_bytes(raw) {
        Ok(value) => match value.to_str() {
            Ok(t) => Some(t.to_string()),
            Err(_) => None,
        },
        Err(_) => None,
    }
}

/// A table with one caller-supplied header laid over it: the value goes under
/// the canonical name, and a header whose name or value cannot be sent is
/// passed over.
pub open spec fn layer_one(
    table: Map<Seq<char>, Seq<char>>,
    name: Seq<char>,
    value: Seq<char>,
) -> Map<Seq<char>, Seq<char>> {
    if canonical_name(name) is Some && value_accepted(value) {
        table.insert(canonical_name(name)->0, value)
    } else {
        table
    }
}

/// A table with a list of caller-supplied headers laid over it in order, so
/// that of two headers with one canonical name the later stays.
pub open spec fn layered(
    base: Map<Seq<char>, Seq<char>>,
    supplied: Seq<(Seq<char>, Seq<char>)>,
) -> Map<Seq<char>, Seq<char>>
    decreases supplied.len(),
{
    if supplied.len() == 0 {
        base
    } else {
        layer_one(layered(base, supplied.drop_last()), supplied.last().0, supplied.last().1)
    }
}

/// Lays caller-supplied headers over a table.
pub fn layer_headers(table: &mut HeaderTable, supplied: &Vec<(String, String)>)
    ensures
        final(table)@ == layered(old(table)@, supplied.deep_view()),
{
    let ghost all = supplied.deep_view();
    let mut i: usize = 0;
    assert(all.take(0) =~= Seq::empty());
    while i < supplied.len()
        invariant
            i <= supplied.len(),
            all == supplied.deep_view(),
            table@ == layered(old(table)@, all.take(i as int)),
        decreases supplied.len() - i,
    {
        let name = &supplied[i].0;
        let value = &supplied[i].1;
        proof {
            let next = all.take(i + 1);
            assert(next.drop_last() =~= all.take(i as int));
            assert(next.last() == all[i as int]);
            assert(all[i as int] == (name@, value@));
        }
        match canonical_header_name(name.as_str()) {
            Some(canonical) => {
                if header_value_accepted(value.as_str()) {
                    table.insert(canonical, value.clone());
                }
            },
            None => {},
        }
        i += 1;
    }
    assert(all.take(i as int) =~= all);
}

/// Whether every name of a table is in canonical form, so that the table
/// holds no two names that differ in case only.
pub open spec fn all_canonical(table: Map<Seq<char>, Seq<char>>) -> bool {
    forall|name: Seq<char>| #[trigger] table.contains_key(name) ==> canonical_name(name) == Some(name)
}

/// The canonical form of a name is its own canonical form.
pub proof fn lemma_canonical_is_fixed(name: Seq<char>)
    requires
        canonical_name(name) is Some,
    ensures
        canonical_name(canonical_name(name)->0) == canonical_name(name),
{
    let raw = encode_utf8(name);
    let lowered = Seq::new(raw.len(), |i: int| lower_byte(raw[i]));
    let text = bytes_as_text(lowered);
    assert forall|i: int| 0 <= i < lowered.len() implies is_token_byte(#[trigger] lowered[i])
        && lower_byte(lowered[i]) == lowered[i] by {
        assert(is_token_byte(raw[i]));
    }
    assert(is_ascii_chars(text)) by {
        assert forall|i: int| 0 <= i < text.len() implies '\0' <= (#[trigger] text[i])
            <= '\u{7f}' by {
            assert(is_token_byte(lowered[i]));
        }
    }
    is_ascii_chars_encode_utf8(text);
    assert(encode_utf8(text) =~= lowered) by {
        assert forall|i: int| 0 <= i < lowered.len() implies encode_utf8(text)[i] == lowered[i] by {
            assert(is_token_byte(lowered[i]));
            assert(text[i] as u8 == lowered[i]);
        }
    }
    assert(Seq::new(lowered.len(), |i: int| lower_byte(lowered[i])) =~= lowered);
}

/// Layering over a table of canonical names gives a table of canonical names.
pub proof fn lemma_layered_canonical(
    base: Map<Seq<char>, Seq<char>>,
    supplied: Seq<(Seq<char>, Seq<char>)>,
)
    requires
        all_canonical(base),
    ensures
        all_canonical(layered(base, supplied)),
    decreases supplied.len(),
{
    if supplied.len() > 0 {
        lemma_layered_canonical(base, supplied.drop_last());
        let name = supplied.last().0;
        if canonical_name(name) is Some {
            lemma_canonical_is_fixed(name);
        }
    }
}

/// Layering keeps what the table held under a name, unless a supplied
/// header that can be sent has that canonical name.
pub proof fn lemma_layered_keeps(
    base: Map<Seq<char>, Seq<char>>,
    supplied: Seq<(Seq<char>, Seq<char>)>,
    name: Seq<char>,
)
    requires
        base.contains_key(name),
        forall|i: int|
            0 <= i < supplied.len() ==> canonical_name((#[trigger] supplied[i]).0) != Some(name),
    ensures
        layered(base, supplied).contains_key(name),
        layered(base, supplied)[name] == base[name],
    decreases supplied.len(),
{
    if supplied.len() > 0 {
        let before = supplied.drop_last();
        assert forall|i: int| 0 <= i < before.len() implies canonical_name(
            (#[trigger] before[i]).0,
        ) != Some(name) by {
            assert(before[i] == supplied[i]);
        }
        lemma_layered_keeps(base, before, name);
        assert(canonical_name(supplied[supplied.len() - 1].0) != Some(name));
    }
}

/// A supplied header that can be sent stands in the layered table under
/// its canonical name, unless a later one with that canonical name can be
/// sent too.
pub proof fn lemma_layered_overrides(
    base: Map<Seq<char>, Seq<char>>,
    supplied: Seq<(Seq<char>, Seq<char>)>,
    at: int,
)
    requires
        0 <= at < supplied.len(),
        canonical_name(supplied[at].0) is Some,
        value_accepted(supplied[at].1),
        forall|i: int|
            at < i < supplied.len() ==> canonical_name((#[trigger] supplied[i]).0)
                != canonical_name(supplied[at].0),
    ensures
        layered(base, supplied).contains_key(canonical_name(supplied[at].0)->0),
        layered(base, supplied)[canonical_name(supplied[at].0)->0] == supplied[at].1,
    decreases supplied.len(),
{
    let before = supplied.drop_last();
    if at < supplied.len() - 1 {
        assert(before[at] == supplied[at]);
        assert forall|i: int| at < i < before.len() implies canonical_name(
            (#[trigger] before[i]).0,
        ) != canonical_name(before[at].0) by {
            assert(before[i] == supplied[i]);
        }
        lemma_layered_overrides(base, before, at);
        assert(canonical_name(supplied[supplied.len() - 1].0) != canonical_name(supplied[at].0));
    }
}

/// A table with one response header put into it: a header whose value is no
/// text is passed over.
pub open spec fn keep_one(
    table: Map<Seq<char>, Seq<char>>,
    name: Seq<char>,
    raw: Seq<u8>,
) -> Map<Seq<char>, Seq<char>> {
    if is_visible(raw) {
        table.insert(name, bytes_as_text(raw))
    } else {
        table
    }
}

/// The table of the response headers whose values are text; of two with one
/// name the later stays.
pub open spec fn kept_headers(received: Seq<(Seq<char>, Seq<u8>)>) -> Map<Seq<char>, Seq<char>>
    decreases received.len(),
{
    if received.len() == 0 {
        Map::empty()
    } else {
        keep_one(kept_headers(received.drop_last()), received.last().0, received.last().1)
    }
}

/// Collects the response headers whose values are text.
pub fn keep_headers(received: &Vec<(String, Vec<u8>)>) -> (table: HeaderTable)
    ensures
        table@ == kept_headers(received.deep_view()),
{
    let ghost all = received.deep_view();
    let mut table = HeaderTable::new();
    let mut i: usize = 0;
    assert(all.take(0) =~= Seq::empty());
    while i < received.len()
        invariant
            i <= received.len(),
            all == received.deep_view(),
            table@ == kept_headers(all.take(i as int)),
        decreases received.len() - i,
    {
        let name = &received[i].0;
        let raw = &received[i].1;
        proof {
            let next = all.take(i + 1);
            assert(next.drop_last() =~= all.take(i as int));
            assert(next.last() == all[i as int]);
            assert(all[i as int].0 == name@);
            assert(all[i as int].1 =~= raw@);
        }
        match visible_text(raw.as_slice()) {
            Some(text) => {
                table.insert(name.clone(), text);
            },
            None => {},
        }
        i += 1;
    }
    assert(all.take(i as int) =~= all);
    table
}

} // verus!
