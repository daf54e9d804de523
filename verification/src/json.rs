//! Text written as a JSON string.

use crate::hex::{hex_value, lemma_hex_value_of_digit, lower_hex, lower_hex_digit};
use vstd::prelude::*;
use vstd::utf8::{char_u32_cast, is_scalar};

verus! {

/// How one character is written inside a JSON string: the quote and the
/// backslash behind a backslash, the five control characters that have a
/// letter by that letter, every other control character by its number, and
/// anything else as it is.
pub open spec fn escape(c: char) -> Seq<char> {
    if c == '"' {
        seq!['\\', '"']
    } else if c == '\\' {
        seq!['\\', '\\']
    } else if c == '\u{8}' {
        seq!['\\', 'b']
    } else if c == '\u{c}' {
        seq!['\\', 'f']
    } else if c == '\n' {
        seq!['\\', 'n']
    } else if c == '\r' {
        seq!['\\', 'r']
    } else if c == '\t' {
        seq!['\\', 't']
    } else if (c as int) < 0x20 {
        seq!['\\', 'u', '0', '0', lower_hex(c as int / 16), lower_hex(c as int % 16)]
    } else {
        seq![c]
    }
}

/// The characters of `text`, each written as `escape` says, in order.
pub open spec fn escaped(text: Seq<char>) -> Seq<char>
    decreases text.len(),
{
    if text.len() == 0 {
        Seq::empty()
    } else {
        escaped(text.drop_last()) + escape(text.last())
    }
}

/// `text` as a JSON string: its escaped characters between two quotes.
pub open spec fn json_string(text: Seq<char>) -> Seq<char> {
    seq!['"'] + escaped(text) + seq!['"']
}

fn push_escaped(out: &mut String, c: char)
    ensures
        final(out)@ == old(out)@ + escape(c),
{
    if c == '"' {
        out.push('\\');
        out.push('"');
    } else if c == '\\' {
        out.push('\\');
        out.push('\\');
    } else if c == '\u{8}' {
        out.push('\\');
        out.push('b');
    } else if c == '\u{c}' {
        out.push('\\');
        out.push('f');
    } else if c == '\n' {
        out.push('\\');
        out.push('n');
    } else if c == '\r' {
        out.push('\\');
        out.push('r');
    } else if c == '\t' {
        out.push('\\');
        out.push('t');
    } else if (c as u32) < 0x20 {
        let n: u8 = c as u8;
        out.push('\\');
        out.push('u');
        out.push('0');
        out.push('0');
        out.push(lower_hex_digit(n / 16));
        out.push(lower_hex_digit(n % 16));
    } else {
        out.push(c);
    }
}

/// Writes `text` as a JSON string.
pub fn to_json_string(text: &str) -> (out: String)
    ensures
        out@ == json_string(text@),
{
    let mut out = String::new();
    out.push('"');
    for c in it: text.chars()
        invariant
            it.seq() == text@,
            out@ == seq!['"'] + escaped(text@.take(it.index())),
    {
        assert(text@.take(it.index() + 1).drop_last() == text@.take(it.index()));
        push_escaped(&mut out, c);
    }
    assert(text@.take(text@.len() as int) == text@);
    out.push('"');
    out
}

/// The character that a backslash and `letter` stand for, where they stand
/// for one.
pub open spec fn short_escape(letter: char) -> Option<char> {
    if letter == '"' || letter == '\\' || letter == '/' {
        Some(letter)
    } else if letter == 'b' {
        Some('\u{8}')
    } else if letter == 'f' {
        Some('\u{c}')
    } else if letter == 'n' {
        Some('\n')
    } else if letter == 'r' {
        Some('\r')
    } else if letter == 't' {
        Some('\t')
    } else {
        None
    }
}

/// The character that `\u` and the four digits behind it stand for, where
/// the digits are hexadecimal and give the number of a character by
/// themselves. Half of a surrogate pair stands for none.
pub open spec fn numbered_escape(digits: Seq<char>) -> Option<char>
    recommends
        digits.len() == 4,
{
    match (hex_value(digits[0]), hex_value(digits[1]), hex_value(digits[2]), hex_value(digits[3])) {
        (Some(a), Some(b), Some(c), Some(d)) => {
            let number = (4096 * a + 256 * b + 16 * c + d) as u32;
            if is_scalar(number) {
                Some(number as char)
            } else {
                None
            }
        },
        _ => None,
    }
}

/// `first` before the characters of `rest`, where there is a rest.
pub open spec fn before(first: char, rest: Option<Seq<char>>) -> Option<Seq<char>> {
    match rest {
        Some(rest) => Some(seq![first] + rest),
        None => None,
    }
}

/// The text that stands between the quotes of a JSON string, or `None`
/// where what stands there is not allowed: a bare quote or control
/// character, or a backslash that begins no escape.
pub open spec fn unescaped(text: Seq<char>) -> Option<Seq<char>>
    decreases text.len(),
{
    if text.len() == 0 {
        Some(Seq::empty())
    } else if text[0] == '\\' {
        if text.len() >= 2 && short_escape(text[1]) is Some {
            before(short_escape(text[1])->0, unescaped(text.skip(2)))
        } else if text.len() >= 6 && text[1] == 'u' && numbered_escape(text.subrange(2, 6))
            is Some {
            before(numbered_escape(text.subrange(2, 6))->0, unescaped(text.skip(6)))
        } else {
            None
        }
    } else if text[0] == '"' || (text[0] as int) < 0x20 {
        None
    } else {
        before(text[0], unescaped(text.skip(1)))
    }
}

/// The text that a JSON string stands for, or `None` where `document` is
/// not one JSON string.
pub open spec fn read_json_string(document: Seq<char>) -> Option<Seq<char>> {
    if document.len() >= 2 && document[0] == '"' && document.last() == '"' {
        unescaped(document.subrange(1, document.len() - 1))
    } else {
        None
    }
}

/// Escaping texts one after the other is escaping them in one go.
pub proof fn lemma_escaped_concat(head: Seq<char>, tail: Seq<char>)
    ensures
        escaped(head + tail) == escaped(head) + escaped(tail),
    decreases tail.len(),
{
    if tail.len() == 0 {
        assert(head + tail == head);
    } else {
        assert((head + tail).drop_last() == head + tail.drop_last());
        lemma_escaped_concat(head, tail.drop_last());
    }
}

/// What is written for one character, followed by anything, reads back as
/// that character followed by what the rest reads back as.
pub proof fn lemma_escape_reads_back(c: char, rest: Seq<char>)
    ensures
        unescaped(escape(c) + rest) == before(c, unescaped(rest)),
{
    let text = escape(c) + rest;
    if c == '"' || c == '\\' || c == '\u{8}' || c == '\u{c}' || c == '\n' || c == '\r' || c
        == '\t' {
        assert(text.skip(2) == rest);
    } else if (c as int) < 0x20 {
        let high = c as int / 16;
        let low = c as int % 16;
        lemma_hex_value_of_digit(0);
        lemma_hex_value_of_digit(high);
        lemma_hex_value_of_digit(low);
        assert(text.subrange(2, 6) == seq!['0', '0', lower_hex(high), lower_hex(low)]);
        assert(text.skip(6) == rest);
        char_u32_cast(c, c as u32);
    } else {
        assert(text.skip(1) == rest);
    }
}

/// Escaped text reads back as the text it was made from.
pub proof fn lemma_escaped_round_trip(text: Seq<char>)
    ensures
        unescaped(escaped(text)) == Some(text),
    decreases text.len(),
{
    if text.len() > 0 {
        let first = text[0];
        let rest = text.skip(1);
        assert(text == seq![first] + rest);
        lemma_escaped_concat(seq![first], rest);
        assert(escaped(seq![first]) == escape(first)) by {
            reveal_with_fuel(escaped, 2);
            assert(seq![first].drop_last() == Seq::<char>::empty());
        }
        lemma_escaped_round_trip(rest);
        lemma_escape_reads_back(first, escaped(rest));
    }
}

/// A text written as a JSON string reads back, in one reading, as that
/// text: nothing of it is lost, and it is wrapped once.
pub proof fn lemma_json_string_round_trip(text: Seq<char>)
    ensures
        read_json_string(json_string(text)) == Some(text),
{
    let document = json_string(text);
    assert(document.subrange(1, document.len() - 1) == escaped(text));
    lemma_escaped_round_trip(text);
}

} // verus!
