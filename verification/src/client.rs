//! The compute side of the catalog client: building the search request URL,
//! with the query percent-encoded so that a URL parser recovers the original
//! text from the `filter[text]` parameter.

use vstd::prelude::*;
use vstd::utf8::{decode_utf8, encode_utf8, encode_utf8_decode_utf8};
use vstd::string::StringSliceAdditionalSpecFns;
use crate::strutil::{dec_digit, push_char};

verus! {

/// Bytes that a query component may carry verbatim: ASCII letters, digits,
/// and `- _ . ~` (the unreserved set).
pub open spec fn is_unreserved(b: u8) -> bool {
    (0x41 <= b && b <= 0x5A)  // 'A'..='Z'
    || (0x61 <= b && b <= 0x7A)  // 'a'..='z'
    || (0x30 <= b && b <= 0x39)  // '0'..='9'
    || b == 0x2D  // '-'
    || b == 0x5F  // '_'
    || b == 0x2E  // '.'
    || b == 0x7E  // '~'
}

/// The uppercase hexadecimal digit character for a value below sixteen.
pub open spec fn hex_digit(d: nat) -> char {
    if d < 10 {
        dec_digit(d)
    } else if d == 10 {
        'A'
    } else if d == 11 {
        'B'
    } else if d == 12 {
        'C'
    } else if d == 13 {
        'D'
    } else if d == 14 {
        'E'
    } else {
        'F'
    }
}

/// The numeric value of a hexadecimal digit character (zero on any other
/// character).
pub open spec fn hex_value(c: char) -> nat {
    if c == '0' {
        0
    } else if c == '1' {
        1
    } else if c == '2' {
        2
    } else if c == '3' {
        3
    } else if c == '4' {
        4
    } else if c == '5' {
        5
    } else if c == '6' {
        6
    } else if c == '7' {
        7
    } else if c == '8' {
        8
    } else if c == '9' {
        9
    } else if c == 'A' {
        10
    } else if c == 'B' {
        11
    } else if c == 'C' {
        12
    } else if c == 'D' {
        13
    } else if c == 'E' {
        14
    } else if c == 'F' {
        15
    } else {
        0
    }
}

/// How one byte appears in the encoded query: unreserved bytes stand as
/// themselves, every other byte as `%` followed by two hex digits.
pub open spec fn encode_byte(b: u8) -> Seq<char> {
    if is_unreserved(b) {
        seq![b as char]
    } else {
        seq!['%', hex_digit((b / 16) as nat), hex_digit((b % 16) as nat)]
    }
}

/// The percent-encoding of a byte sequence.
pub open spec fn percent_encoded(bytes: Seq<u8>) -> Seq<char>
    decreases bytes.len(),
{
    if bytes.len() == 0 {
        Seq::empty()
    } else {
        encode_byte(bytes[0]) + percent_encoded(bytes.drop_first())
    }
}

/// What a URL parser recovers from a percent-encoded component: `%XY`
/// becomes the byte with hex value `XY`, any other character becomes its
/// own code point truncated to a byte. (A `%` with fewer than two
/// characters after it is malformed; the tail is dropped.)
pub open spec fn percent_decoded(s: Seq<char>) -> Seq<u8>
    decreases s.len(),
{
    if s.len() == 0 {
        Seq::empty()
    } else if s[0] == '%' {
        if s.len() >= 3 {
            seq![(hex_value(s[1]) * 16 + hex_value(s[2])) as u8] + percent_decoded(s.skip(3))
        } else {
            Seq::empty()
        }
    } else {
        seq![(s[0] as u32) as u8] + percent_decoded(s.skip(1))
    }
}

/// Decoding a hex digit character gives back the digit's value.
proof fn lemma_hex_digit_value(d: nat)
    requires
        d < 16,
    ensures
        hex_value(hex_digit(d)) == d,
{
}

/// Appending one byte to the input appends that byte's encoding to the
/// output.
proof fn lemma_percent_encoded_push(bytes: Seq<u8>, b: u8)
    ensures
        percent_encoded(bytes.push(b)) =~= percent_encoded(bytes) + encode_byte(b),
    decreases bytes.len(),
{
    if bytes.len() == 0 {
        let tail = bytes.push(b).drop_first();
        assert(bytes.push(b)[0] == b);
        assert(tail =~= Seq::<u8>::empty());
        assert(percent_encoded(tail) =~= Seq::<char>::empty());
        assert(percent_encoded(bytes.push(b)) =~= encode_byte(b) + percent_encoded(tail));
        assert(percent_encoded(bytes) =~= Seq::<char>::empty());
        assert(percent_encoded(bytes.push(b)) =~= percent_encoded(bytes) + encode_byte(b));
    } else {
        assert(bytes.push(b)[0] == bytes[0]);
        assert(bytes.push(b).drop_first() =~= bytes.drop_first().push(b));
        lemma_percent_encoded_push(bytes.drop_first(), b);
        assert(percent_encoded(bytes.push(b)) =~= encode_byte(bytes[0]) + (percent_encoded(
            bytes.drop_first(),
        ) + encode_byte(b)));
        assert(encode_byte(bytes[0]) + (percent_encoded(bytes.drop_first()) + encode_byte(b)) =~= (
        encode_byte(bytes[0]) + percent_encoded(bytes.drop_first())) + encode_byte(b));
    }
}

/// Percent-decoding undoes percent-encoding, byte for byte.
pub proof fn lemma_percent_round_trip(bytes: Seq<u8>)
    ensures
        percent_decoded(percent_encoded(bytes)) == bytes,
    decreases bytes.len(),
{
    if bytes.len() == 0 {
        assert(percent_decoded(percent_encoded(bytes)) =~= bytes);
    } else {
        let b = bytes[0];
        let rest = bytes.drop_first();
        let enc = percent_encoded(bytes);
        lemma_percent_round_trip(rest);
        if is_unreserved(b) {
            assert(enc[0] == b as char);
            assert((b as char) != '%') by {
                assert(b != 0x25);
                assert((b as char) as u32 == b);
                assert(('%' as u32) == 0x25);
            }
            assert(enc.skip(1) =~= percent_encoded(rest));
            assert(((b as char) as u32) as u8 == b);
            assert(percent_decoded(enc) =~= seq![b] + percent_decoded(percent_encoded(rest)));
            assert(seq![b] + rest =~= bytes);
        } else {
            assert(enc[0] == '%');
            assert(enc.len() >= 3);
            assert(enc[1] == hex_digit((b / 16) as nat));
            assert(enc[2] == hex_digit((b % 16) as nat));
            lemma_hex_digit_value((b / 16) as nat);
            lemma_hex_digit_value((b % 16) as nat);
            assert(hex_value(enc[1]) * 16 + hex_value(enc[2]) == b);
            assert(enc.skip(3) =~= percent_encoded(rest));
            assert(percent_decoded(enc) =~= seq![b] + percent_decoded(percent_encoded(rest)));
            assert(seq![b] + rest =~= bytes);
        }
        assert(percent_decoded(percent_encoded(bytes)) =~= bytes);
    }
}

/// For every query text: percent-decoding the encoded query gives back the
/// query's UTF-8 bytes, and decoding those bytes gives back the text. A URL
/// parser that undoes the percent-encoding of the `filter[text]` parameter
/// therefore sees exactly the submitted query.
pub proof fn lemma_query_round_trip(q: Seq<char>)
    ensures
        percent_decoded(percent_encoded(encode_utf8(q))) == encode_utf8(q),
        decode_utf8(percent_decoded(percent_encoded(encode_utf8(q)))) == q,
{
    lemma_percent_round_trip(encode_utf8(q));
    encode_utf8_decode_utf8(q);
}

/// The uppercase hexadecimal digit character for `d`.
fn hex_char(d: u8) -> (c: char)
    requires
        d < 16,
    ensures
        c == hex_digit(d as nat),
{
    match d {
        0 => '0',
        1 => '1',
        2 => '2',
        3 => '3',
        4 => '4',
        5 => '5',
        6 => '6',
        7 => '7',
        8 => '8',
        9 => '9',
        10 => 'A',
        11 => 'B',
        12 => 'C',
        13 => 'D',
        14 => 'E',
        _ => 'F',
    }
}

/// Whether `b` may stand verbatim in a query component.
fn unreserved(b: u8) -> (r: bool)
    ensures
        r == is_unreserved(b),
{
    (0x41 <= b && b <= 0x5A) || (0x61 <= b && b <= 0x7A) || (0x30 <= b && b <= 0x39) || b == 0x2D
        || b == 0x5F || b == 0x2E || b == 0x7E
}

/// Percent-encodes a byte sequence for use as a URL query component.
pub fn percent_encode(bytes: &[u8]) -> (out: String)
    ensures
        out@ == percent_encoded(bytes@),
{
    let mut out = String::new();
    let mut i: usize = 0;
    while i < bytes.len()
        invariant
            i <= bytes.len(),
            out@ == percent_encoded(bytes@.take(i as int)),
        decreases bytes.len() - i,
    {
        let b = bytes[i];
        if unreserved(b) {
            push_char(&mut out, b as char);
        } else {
            push_char(&mut out, '%');
            push_char(&mut out, hex_char(b / 16));
            push_char(&mut out, hex_char(b % 16));
        }
        proof {
            lemma_percent_encoded_push(bytes@.take(i as int), b);
            assert(bytes@.take(i as int).push(b) =~= bytes@.take(i + 1));
            assert(out@ =~= percent_encoded(bytes@.take(i + 1)));
        }
        i = i + 1;
    }
    proof {
        assert(bytes@.take(bytes@.len() as int) =~= bytes@);
    }
    out
}

/// The fixed search endpoint, up to and including the query parameter name.
pub open spec fn search_endpoint() -> Seq<char> {
    "https://kitsu.io/api/edge/anime?filter[text]="@
}

/// The full request URL for a query: the fixed endpoint followed by the
/// percent-encoded UTF-8 bytes of the query text.
pub open spec fn search_url(q: Seq<char>) -> Seq<char> {
    search_endpoint() + percent_encoded(encode_utf8(q))
}

/// Builds the search request URL for the given query text.
pub fn build_search_url(query: &str) -> (url: String)
    ensures
        url@ == search_url(query@),
{
    let mut url = String::from_str("https://kitsu.io/api/edge/anime?filter[text]=");
    let encoded = percent_encode(query.as_bytes());
    url.append(encoded.as_str());
    url
}

} // verus!
