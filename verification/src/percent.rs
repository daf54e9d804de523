//! Percent-encoding of a value that goes into the query of a URL.

use crate::hex::{hex_value, lemma_hex_value_of_digit, upper_hex, upper_hex_digit};
use vstd::prelude::*;
use vstd::utf8::{decode_utf8, encode_utf8, encode_utf8_decode_utf8, encode_utf8_valid_utf8, valid_utf8};

verus! {

/// Whether a byte may stand for itself in a URL wherever it occurs: the
/// letters and digits of ASCII, and `-`, `.`, `_` and `~`.
pub open spec fn is_unreserved(byte: u8) -> bool {
    ||| 'A' as u8 <= byte <= 'Z' as u8
    ||| 'a' as u8 <= byte <= 'z' as u8
    ||| '0' as u8 <= byte <= '9' as u8
    ||| byte == '-' as u8
    ||| byte == '.' as u8
    ||| byte == '_' as u8
    ||| byte == '~' as u8
}

/// How one byte is written: as itself where it is unreserved, else as `%`
/// and its two upper-case hexadecimal digits.
pub open spec fn percent_byte(byte: u8) -> Seq<char> {
    if is_unreserved(byte) {
        seq![byte as char]
    } else {
        seq!['%', upper_hex(byte as int / 16), upper_hex(byte as int % 16)]
    }
}

/// The bytes, each written as `percent_byte` says, in order.
pub open spec fn percent_encoded(bytes: Seq<u8>) -> Seq<char>
    decreases bytes.len(),
{
    if bytes.len() == 0 {
        Seq::empty()
    } else {
        percent_encoded(bytes.drop_last()) + percent_byte(bytes.last())
    }
}

/// `text` as the value of a query parameter: the percent-encoding of its
/// UTF-8 bytes.
pub open spec fn query_value(text: Seq<char>) -> Seq<char> {
    percent_encoded(encode_utf8(text))
}

fn unreserved(byte: u8) -> (yes: bool)
    ensures
        yes == is_unreserved(byte),
{
    (0x41 <= byte && byte <= 0x5a) || (0x61 <= byte && byte <= 0x7a) || (0x30 <= byte && byte
        <= 0x39) || byte == 0x2d || byte == 0x2e || byte == 0x5f || byte == 0x7e
}

/// Appends `text` to `out` as the value of a query parameter.
pub(crate) fn push_query_value(out: &mut String, text: &str)
    ensures
        final(out)@ == old(out)@ + query_value(text@),
{
    let bytes = text.as_bytes();
    let ghost before = out@;
    for i in 0..bytes.len()
        invariant
            bytes@ == encode_utf8(text@),
            out@ == before + percent_encoded(bytes@.take(i as int)),
    {
        assert(bytes@.take(i + 1).drop_last() == bytes@.take(i as int));
        let byte = bytes[i];
        if unreserved(byte) {
            out.push(byte as char);
        } else {
            out.push('%');
            out.push(upper_hex_digit(byte / 16));
            out.push(upper_hex_digit(byte % 16));
        }
    }
    assert(bytes@.take(bytes@.len() as int) == bytes@);
}

/// Writes `text` as the value of a query parameter.
pub fn to_query_value(text: &str) -> (out: String)
    ensures
        out@ == query_value(text@),
{
    let mut out = String::new();
    push_query_value(&mut out, text);
    out
}

/// Whether a character of a query leaves the query's shape alone: `%` and
/// what is unreserved do. The marks that part a query (`&`, `=`, `#`, `+`),
/// the space and everything beyond ASCII do not.
pub open spec fn is_plain(c: char) -> bool {
    c == '%' || ((c as int) < 128 && is_unreserved(c as u8))
}

/// The bytes that a percent-encoded text stands for, or `None` where the
/// text is not percent-encoded: where a `%` lacks its two hexadecimal digits
/// or a character beyond ASCII occurs.
pub open spec fn percent_decoded(text: Seq<char>) -> Option<Seq<u8>>
    decreases text.len(),
{
    if text.len() == 0 {
        Some(Seq::empty())
    } else if text[0] == '%' {
        if text.len() >= 3 && hex_value(text[1]) is Some && hex_value(text[2]) is Some {
            match percent_decoded(text.skip(3)) {
                Some(rest) => Some(
                    seq![(16 * hex_value(text[1])->0 + hex_value(text[2])->0) as u8] + rest,
                ),
                None => None,
            }
        } else {
            None
        }
    } else if (text[0] as int) < 128 {
        match percent_decoded(text.skip(1)) {
            Some(rest) => Some(seq![text[0] as u8] + rest),
            None => None,
        }
    } else {
        None
    }
}

/// The text that the value of a query parameter stands for, or `None` where
/// the value is not the percent-encoding of UTF-8.
pub open spec fn read_query_value(value: Seq<char>) -> Option<Seq<char>> {
    match percent_decoded(value) {
        Some(bytes) => if valid_utf8(bytes) {
            Some(decode_utf8(bytes))
        } else {
            None
        },
        None => None,
    }
}

/// Encoding bytes one after the other is encoding them in one go.
pub proof fn lemma_percent_encoded_concat(head: Seq<u8>, tail: Seq<u8>)
    ensures
        percent_encoded(head + tail) == percent_encoded(head) + percent_encoded(tail),
    decreases tail.len(),
{
    if tail.len() == 0 {
        assert(head + tail == head);
    } else {
        assert((head + tail).drop_last() == head + tail.drop_last());
        lemma_percent_encoded_concat(head, tail.drop_last());
    }
}

/// Every character of percent-encoded bytes is plain.
pub proof fn lemma_percent_encoded_is_plain(bytes: Seq<u8>, i: int)
    requires
        0 <= i < percent_encoded(bytes).len(),
    ensures
        is_plain(percent_encoded(bytes)[i]),
    decreases bytes.len(),
{
    let front = percent_encoded(bytes.drop_last());
    if i < front.len() {
        lemma_percent_encoded_is_plain(bytes.drop_last(), i);
    }
}

/// Percent-encoded bytes decode to the bytes they were made from.
pub proof fn lemma_percent_round_trip(bytes: Seq<u8>)
    ensures
        percent_decoded(percent_encoded(bytes)) == Some(bytes),
    decreases bytes.len(),
{
    if bytes.len() > 0 {
        let first = bytes[0];
        let rest = bytes.skip(1);
        let text = percent_encoded(bytes);
        assert(bytes == seq![first] + rest);
        lemma_percent_encoded_concat(seq![first], rest);
        assert(seq![first].drop_last() == Seq::<u8>::empty());
        assert(percent_encoded(seq![first]) == percent_byte(first)) by {
            reveal_with_fuel(percent_encoded, 2);
        }
        lemma_percent_round_trip(rest);
        if is_unreserved(first) {
            assert(text.skip(1) == percent_encoded(rest));
        } else {
            lemma_hex_value_of_digit(first as int / 16);
            lemma_hex_value_of_digit(first as int % 16);
            assert(text.skip(3) == percent_encoded(rest));
        }
    }
}

/// The value written for a text holds plain characters only, so it cannot
/// end the parameter it stands in, begin another, or begin a fragment.
pub proof fn lemma_query_value_is_plain(text: Seq<char>, i: int)
    requires
        0 <= i < query_value(text).len(),
    ensures
        is_plain(query_value(text)[i]),
{
    lemma_percent_encoded_is_plain(encode_utf8(text), i);
}

/// The value written for a text reads back as that text.
pub proof fn lemma_query_value_round_trip(text: Seq<char>)
    ensures
        read_query_value(query_value(text)) == Some(text),
{
    lemma_percent_round_trip(encode_utf8(text));
    encode_utf8_valid_utf8(text);
    encode_utf8_decode_utf8(text);
}

} // verus!
