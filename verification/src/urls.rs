//! URLs: the query parameters of a player's address, percent-decoding of
//! their values, and page addresses with a query parameter.
//!
//! Parsing URLs is the work of the `url` crate; what it yields is a
//! function of its input and is named here (`url_query_pairs`,
//! `url_with_query_param`). Percent-decoding, by the `percent_encoding`
//! crate, is stated in full (`percent_decoded`).

use vstd::prelude::*;
use vstd::string::*;
use vstd::utf8::*;

verus! {

/// The error of a failed URL parse.
#[verifier::external_type_specification]
#[verifier::external_body]
pub struct ExUrlParseError(::url::ParseError);

/// The error of bytes that are not well-formed UTF-8.
#[verifier::external_type_specification]
#[verifier::external_body]
pub struct ExUtf8Error(core::str::Utf8Error);

/// The characters of each key and value.
pub open spec fn pairs_view(v: Seq<(String, String)>) -> Seq<(Seq<char>, Seq<char>)> {
    v.map_values(|p: (String, String)| (p.0@, p.1@))
}

/// The decoded key-value pairs of the query of the absolute URL `input`
/// (`application/x-www-form-urlencoded`), in order; `None` where `input`
/// is not an absolute URL.
pub uninterp spec fn url_query_pairs(input: Seq<char>) -> Option<Seq<(Seq<char>, Seq<char>)>>;

/// The serialization of the absolute URL `input` with the pair
/// `key=value` appended to its query; `None` where `input` is not an
/// absolute URL.
pub uninterp spec fn url_with_query_param(input: Seq<char>, key: Seq<char>, value: Seq<char>) -> Option<
    Seq<char>,
>;

/// `url::Url::parse` followed by `Url::query_pairs`. Claimed: `Ok` with
/// `url_query_pairs(input)` where it is `Some`, `Err` where it is `None`.
#[verifier::external_body]
pub(crate) fn parse_query_pairs(input: &str) -> (r: Result<Vec<(String, String)>, ::url::ParseError>)
    ensures
        match r {
            Ok(v) => url_query_pairs(input@) == Some(pairs_view(v@)),
            Err(_) => url_query_pairs(input@) is None,
        },
{
    match ::url::Url::parse(input) {
        Ok(u) => {
            let mut pairs = Vec::new();
            for (key, value) in u.query_pairs() {
                pairs.push((key.into_owned(), value.into_owned()));
            }
            Ok(pairs)
        },
        Err(e) => Err(e),
    }
}

/// `url::Url::parse_with_params` with one pair, then the URL's
/// serialization (`to_string`). Claimed: `Ok` with
/// `url_with_query_param(input, key, value)` where it is `Some`, `Err`
/// where it is `None`.
#[verifier::external_body]
pub(crate) fn parse_with_param(input: &str, key: &str, value: &str) -> (r: Result<
    String,
    ::url::ParseError,
>)
    ensures
        match r {
            Ok(s) => url_with_query_param(input@, key@, value@) == Some(s@),
            Err(_) => url_with_query_param(input@, key@, value@) is None,
        },
{
    match ::url::Url::parse_with_params(input, &[(key, value)]) {
        Ok(u) => Ok(u.to_string()),
        Err(e) => Err(e),
    }
}

/// The value of the hexadecimal digit byte `b`, either case.
pub open spec fn hex_digit_value(b: u8) -> Option<u8> {
    if 48 <= b <= 57 {
        Some((b - 48) as u8)
    } else if 65 <= b <= 70 {
        Some((b - 55) as u8)
    } else if 97 <= b <= 102 {
        Some((b - 87) as u8)
    } else {
        None
    }
}

/// Percent-decoding of bytes: each `%` followed by two hexadecimal digits
/// becomes the byte they spell; every other byte stays.
pub open spec fn percent_decode_bytes(b: Seq<u8>) -> Seq<u8>
    decreases b.len(),
{
    if b.len() == 0 {
        seq![]
    } else if b[0] == 37 && b.len() >= 3 && hex_digit_value(b[1]) is Some && hex_digit_value(
        b[2],
    ) is Some {
        seq![(hex_digit_value(b[1]).unwrap() * 16 + hex_digit_value(b[2]).unwrap()) as u8]
            + percent_decode_bytes(b.subrange(3, b.len() as int))
    } else {
        seq![b[0]] + percent_decode_bytes(b.drop_first())
    }
}

/// The percent-decoded text of `s`, where the decoded bytes are
/// well-formed UTF-8.
pub open spec fn percent_decoded(s: Seq<char>) -> Option<Seq<char>> {
    let b = percent_decode_bytes(encode_utf8(s));
    if valid_utf8(b) {
        Some(decode_utf8(b))
    } else {
        None
    }
}

proof fn lemma_encode_scalar_no_percent(v: u32)
    requires
        is_scalar(v),
        v != 37,
    ensures
        forall|j: int| 0 <= j < encode_scalar(v).len() ==> encode_scalar(v)[j] != 37,
{
    if has_width_1_encoding(v) {
        assert((v & 0x7F) as u8 == v) by (bit_vector)
            requires
                v <= 0x7F,
        ;
    } else {
        let b0 = leading_byte_width_2(v);
        let b1 = leading_byte_width_3(v);
        let b2 = leading_byte_width_4(v);
        let c0 = last_continuation_byte(v);
        let c1 = second_last_continuation_byte(v);
        let c2 = third_last_continuation_byte(v);
        assert(0xC0u8 | (((v >> 6) & 0x1F) as u8) >= 0x80) by (bit_vector);
        assert(0xE0u8 | (((v >> 12) & 0x0F) as u8) >= 0x80) by (bit_vector);
        assert(0xF0u8 | (((v >> 18) & 0x7) as u8) >= 0x80) by (bit_vector);
        assert(0x80u8 | ((v & 0x3F) as u8) >= 0x80) by (bit_vector);
        assert(0x80u8 | (((v >> 6) & 0x3F) as u8) >= 0x80) by (bit_vector);
        assert(0x80u8 | (((v >> 12) & 0x3F) as u8) >= 0x80) by (bit_vector);
    }
}

proof fn lemma_encode_utf8_no_percent(s: Seq<char>)
    requires
        forall|i: int| 0 <= i < s.len() ==> s[i] != '%',
    ensures
        forall|j: int| 0 <= j < encode_utf8(s).len() ==> encode_utf8(s)[j] != 37,
    decreases s.len(),
{
    if s.len() > 0 {
        char_is_scalar(s[0]);
        char_u32_cast(s[0], s[0] as u32);
        char_u32_cast('%', '%' as u32);
        assert(s[0] as u32 != 37);
        lemma_encode_scalar_no_percent(s[0] as u32);
        lemma_encode_utf8_no_percent(s.drop_first());
        let a = encode_scalar(s[0] as u32);
        let b = encode_utf8(s.drop_first());
        assert forall|j: int| 0 <= j < (a + b).len() implies (a + b)[j] != 37 by {
            if j >= a.len() {
                assert((a + b)[j] == b[j - a.len()]);
            }
        }
    }
}

proof fn lemma_percent_decode_plain_bytes(b: Seq<u8>)
    requires
        forall|j: int| 0 <= j < b.len() ==> b[j] != 37,
    ensures
        percent_decode_bytes(b) == b,
    decreases b.len(),
{
    if b.len() > 0 {
        lemma_percent_decode_plain_bytes(b.drop_first());
        assert(seq![b[0]] + b.drop_first() =~= b);
    }
}

/// A text without `%` is its own percent-decoding.
pub proof fn lemma_percent_decoded_plain(s: Seq<char>)
    requires
        forall|i: int| 0 <= i < s.len() ==> s[i] != '%',
    ensures
        percent_decoded(s) == Some(s),
{
    broadcast use encode_utf8_valid_utf8, encode_utf8_decode_utf8;

    lemma_encode_utf8_no_percent(s);
    lemma_percent_decode_plain_bytes(encode_utf8(s));
}

/// `percent_encoding::percent_decode_str` followed by
/// `PercentDecode::decode_utf8`. Claimed: the input's UTF-8 bytes are
/// percent-decoded as `percent_decode_bytes` says, and the result is their
/// UTF-8 decoding where they are well-formed, `Err` where they are not.
#[verifier::external_body]
pub(crate) fn percent_decode_utf8(input: &str) -> (r: Result<String, core::str::Utf8Error>)
    ensures
        match r {
            Ok(s) => percent_decoded(input@) == Some(s@),
            Err(_) => percent_decoded(input@) is None,
        },
{
    match ::percent_encoding::percent_decode_str(input).decode_utf8() {
        Ok(s) => Ok(s.to_string()),
        Err(e) => Err(e),
    }
}

} // verus!
