//! Percent-encoding of a query for use as a URL query component.

use vstd::prelude::*;
use vstd::utf8::*;

verus! {

/// The bytes that are written as they are: ASCII letters, digits and `-`, `.`, `_`, `~`.
pub open spec fn is_unreserved(b: u8) -> bool {
    ||| 0x30 <= b <= 0x39
    ||| 0x41 <= b <= 0x5a
    ||| 0x61 <= b <= 0x7a
    ||| b == 0x2d
    ||| b == 0x2e
    ||| b == 0x5f
    ||| b == 0x7e
}

/// The upper-case hexadecimal digit for a value below sixteen.
pub open spec fn hex_upper(n: int) -> u8 {
    if n < 10 {
        (0x30 + n) as u8
    } else {
        (0x41 + n - 10) as u8
    }
}

/// The value of a hexadecimal digit of either case.
pub open spec fn hex_value(d: u8) -> Option<int> {
    if 0x30 <= d <= 0x39 {
        Some(d - 0x30)
    } else if 0x41 <= d <= 0x46 {
        Some(d - 0x41 + 10)
    } else if 0x61 <= d <= 0x66 {
        Some(d - 0x61 + 10)
    } else {
        None
    }
}

/// How one byte is written: itself, or `%` and two upper-case hexadecimal digits.
pub open spec fn escape_byte(b: u8) -> Seq<u8> {
    if is_unreserved(b) {
        seq![b]
    } else {
        seq![0x25u8, hex_upper(b as int / 16), hex_upper(b as int % 16)]
    }
}

/// The percent-encoding of a byte string.
pub open spec fn percent_encode(bytes: Seq<u8>) -> Seq<u8>
    decreases bytes.len(),
{
    if bytes.len() == 0 {
        Seq::empty()
    } else {
        escape_byte(bytes[0]) + percent_encode(bytes.drop_first())
    }
}

/// Percent-decoding: `%` followed by two hexadecimal digits stands for one byte,
/// every other byte for itself.
pub open spec fn percent_decode(bytes: Seq<u8>) -> Seq<u8>
    decreases bytes.len(),
{
    if bytes.len() == 0 {
        Seq::empty()
    } else if bytes[0] == 0x25 && bytes.len() >= 3 && hex_value(bytes[1]) is Some && hex_value(
        bytes[2],
    ) is Some {
        seq![(hex_value(bytes[1])->0 * 16 + hex_value(bytes[2])->0) as u8] + percent_decode(
            bytes.skip(3),
        )
    } else {
        seq![bytes[0]] + percent_decode(bytes.drop_first())
    }
}

/// A byte string read as text, one character for each byte.
pub open spec fn bytes_as_text(bytes: Seq<u8>) -> Seq<char> {
    Seq::new(bytes.len(), |i: int| bytes[i] as char)
}

/// A text read as bytes, one byte for each character.
pub open spec fn text_as_bytes(text: Seq<char>) -> Seq<u8> {
    Seq::new(text.len(), |i: int| text[i] as u8)
}

/// The encoded form of a query: the percent-encoding of its UTF-8 bytes, as text.
pub open spec fn encoded_component(query: Seq<char>) -> Seq<char> {
    bytes_as_text(percent_encode(encode_utf8(query)))
}

/// What percent-decoding an encoded component and reading the bytes as UTF-8 gives.
pub open spec fn decoded_component(component: Seq<char>) -> Seq<char> {
    decode_utf8(percent_decode(text_as_bytes(component)))
}

/// Calls `urlencoding::encode`, which percent-encodes every byte of the UTF-8
/// form of its argument except ASCII letters, digits and `-`, `.`, `_`, `~`,
/// with upper-case hexadecimal digits. The contract claims exactly that.
#[verifier::external_body]
pub(crate) fn encode_component(query: &str) -> (encoded: String)
    ensures
        encoded@ == encoded_component(query@),
{
    urlencoding::encode(query).into_owned()
}

proof fn lemma_hex_digits(n: int)
    requires
        0 <= n < 16,
    ensures
        hex_value(hex_upper(n)) == Some(n),
        hex_upper(n) < 0x80,
{
}

proof fn lemma_escape_decodes(b: u8, rest: Seq<u8>)
    ensures
        percent_decode(escape_byte(b) + rest) == seq![b] + percent_decode(rest),
{
    let whole = escape_byte(b) + rest;
    if is_unreserved(b) {
        assert(whole.drop_first() =~= rest);
    } else {
        let hi = b as int / 16;
        let lo = b as int % 16;
        lemma_hex_digits(hi);
        lemma_hex_digits(lo);
        assert(whole.skip(3) =~= rest);
    }
}

/// Decoding undoes encoding, on every byte string.
pub proof fn lemma_decode_encode(bytes: Seq<u8>)
    ensures
        percent_decode(percent_encode(bytes)) == bytes,
    decreases bytes.len(),
{
    if bytes.len() > 0 {
        lemma_decode_encode(bytes.drop_first());
        lemma_escape_decodes(bytes[0], percent_encode(bytes.drop_first()));
    }
}

/// An encoded byte string holds ASCII only.
pub proof fn lemma_encoded_is_ascii(bytes: Seq<u8>)
    ensures
        forall|i: int| 0 <= i < percent_encode(bytes).len() ==> percent_encode(bytes)[i] < 0x80,
    decreases bytes.len(),
{
    if bytes.len() > 0 {
        let head = escape_byte(bytes[0]);
        let tail = percent_encode(bytes.drop_first());
        lemma_encoded_is_ascii(bytes.drop_first());
        lemma_hex_digits(bytes[0] as int / 16);
        lemma_hex_digits(bytes[0] as int % 16);
        assert forall|i: int| 0 <= i < (head + tail).len() implies (head + tail)[i] < 0x80 by {
            if i < head.len() {
                assert((head + tail)[i] == head[i]);
            } else {
                assert((head + tail)[i] == tail[i - head.len()]);
            }
        }
    }
}

/// The encoding of the empty query is empty.
pub proof fn lemma_empty_query()
    ensures
        encoded_component(Seq::empty()) == Seq::<char>::empty(),
{
}

/// A byte string of unreserved bytes is its own encoding.
pub proof fn lemma_unreserved_bytes_are_kept(bytes: Seq<u8>)
    requires
        forall|i: int| 0 <= i < bytes.len() ==> is_unreserved(#[trigger] bytes[i]),
    ensures
        percent_encode(bytes) == bytes,
    decreases bytes.len(),
{
    if bytes.len() > 0 {
        lemma_unreserved_bytes_are_kept(bytes.drop_first());
    }
}

/// The characters that are written as they are.
pub open spec fn is_unreserved_char(c: char) -> bool {
    '\0' <= c <= '\u{7f}' && is_unreserved(c as u8)
}

/// A query of ASCII letters, digits and `-`, `.`, `_`, `~` is its own
/// encoded form.
pub proof fn lemma_unreserved_query_is_kept(query: Seq<char>)
    requires
        forall|i: int| 0 <= i < query.len() ==> is_unreserved_char(#[trigger] query[i]),
    ensures
        encoded_component(query) == query,
{
    is_ascii_chars_encode_utf8(query);
    lemma_unreserved_bytes_are_kept(encode_utf8(query));
}

/// Percent-decoding the encoded form of a query gives the query back,
/// whatever characters it holds.
pub proof fn lemma_query_round_trip(query: Seq<char>)
    ensures
        decoded_component(encoded_component(query)) == query,
{
    let raw = encode_utf8(query);
    let enc = percent_encode(raw);
    lemma_encoded_is_ascii(raw);
    assert(text_as_bytes(bytes_as_text(enc)) =~= enc);
    lemma_decode_encode(raw);
    encode_utf8_decode_utf8(query);
}

} // verus!
