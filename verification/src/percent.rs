//! Percent-encoding of query values.
use vstd::prelude::*;
use vstd::utf8::{decode_utf8, encode_utf8, encode_utf8_decode_utf8, is_ascii_chars_encode_utf8};

verus! {

/// The bytes that stand for themselves in a query value: ASCII letters and digits, `-`, `_`, `.`
/// and `~`.
pub open spec fn unreserved(b: u8) -> bool {
    ||| 48 <= b <= 57
    ||| 65 <= b <= 90
    ||| 97 <= b <= 122
    ||| b == 45
    ||| b == 46
    ||| b == 95
    ||| b == 126
}

/// The characters that stand for themselves in a query value.
pub open spec fn unreserved_char(c: char) -> bool {
    (c as int) < 128 && unreserved(c as u8)
}

/// The upper-case hexadecimal digit of `d`.
pub open spec fn hex_digit(d: int) -> char {
    if d < 10 {
        (d + 48) as char
    } else {
        (d + 55) as char
    }
}

/// What one byte becomes: itself, or `%` and two hexadecimal digits.
pub open spec fn percent_encoded_byte(b: u8) -> Seq<char> {
    if unreserved(b) {
        seq![b as char]
    } else {
        seq!['%', hex_digit(b as int / 16), hex_digit(b as int % 16)]
    }
}

/// The bytes, each encoded on its own, in order.
pub open spec fn percent_encoded(bytes: Seq<u8>) -> Seq<char>
    decreases bytes.len(),
{
    if bytes.len() == 0 {
        seq![]
    } else {
        percent_encoded_byte(bytes[0]) + percent_encoded(bytes.skip(1))
    }
}

/// `value` as it stands in a query.
pub open spec fn query_value(value: Seq<char>) -> Seq<char> {
    percent_encoded(encode_utf8(value))
}

/// The value of a hexadecimal digit as `hex_digit` writes it.
pub open spec fn hex_value(c: char) -> int {
    if c as int <= 57 {
        c as int - 48
    } else {
        c as int - 55
    }
}

/// Reads percent-encoded text back into bytes.
pub open spec fn percent_decoded(text: Seq<char>) -> Seq<u8>
    decreases text.len(),
{
    if text.len() == 0 {
        seq![]
    } else if text[0] == '%' && text.len() >= 3 {
        seq![(16 * hex_value(text[1]) + hex_value(text[2])) as u8] + percent_decoded(text.skip(3))
    } else {
        seq![text[0] as u8] + percent_decoded(text.skip(1))
    }
}

/// Encodes `value` for a query string with `urlencoding::encode`.
///
/// Trusted of that function: every byte of the UTF-8 form except ASCII letters and digits, `-`,
/// `_`, `.` and `~` becomes `%` and two upper-case hexadecimal digits, and the rest is kept.
#[verifier::external_body]
pub(crate) fn encode_component(value: &str) -> (encoded: String)
    ensures
        encoded@ == query_value(value@),
{
    urlencoding::encode(value).into_owned()
}

/// A byte is kept or becomes `%` and its two digits, and bytes are encoded one by one: what stands
/// before or after a part has no bearing on how it is encoded.
pub proof fn percent_encoding_goes_byte_by_byte(first: Seq<u8>, b: u8, rest: Seq<u8>)
    ensures
        percent_encoded(first + seq![b] + rest) == percent_encoded(first) + percent_encoded(
            seq![b],
        ) + percent_encoded(rest),
        unreserved(b) ==> percent_encoded(seq![b]) == seq![b as char],
        !unreserved(b) ==> percent_encoded(seq![b]) == seq![
            '%',
            hex_digit(b as int / 16),
            hex_digit(b as int % 16),
        ],
        percent_encoded(Seq::<u8>::empty()) == Seq::<char>::empty(),
    decreases first.len(),
{
    assert(seq![b].skip(1) =~= Seq::<u8>::empty());
    assert(percent_encoded(seq![b].skip(1)) =~= Seq::<char>::empty());
    assert(percent_encoded(seq![b]) =~= percent_encoded_byte(b));
    let all = first + seq![b] + rest;
    if first.len() == 0 {
        assert(first =~= Seq::<u8>::empty());
        assert(all.skip(1) =~= rest);
    } else {
        percent_encoding_goes_byte_by_byte(first.skip(1), b, rest);
        assert(all.skip(1) =~= first.skip(1) + seq![b] + rest);
    }
    assert(percent_encoded(all) =~= percent_encoded(first) + percent_encoded(seq![b])
        + percent_encoded(rest));
}

/// Encoding loses nothing: decoding gives back the bytes.
pub proof fn percent_encoding_is_undone_by_decoding(bytes: Seq<u8>)
    ensures
        percent_decoded(percent_encoded(bytes)) == bytes,
    decreases bytes.len(),
{
    if bytes.len() > 0 {
        let head = percent_encoded_byte(bytes[0]);
        let rest = percent_encoded(bytes.skip(1));
        percent_encoding_is_undone_by_decoding(bytes.skip(1));
        if unreserved(bytes[0]) {
            assert((head + rest).skip(1) =~= rest);
        } else {
            assert((head + rest).skip(3) =~= rest);
        }
        assert(seq![bytes[0]] + bytes.skip(1) =~= bytes);
    } else {
        assert(bytes =~= seq![]);
    }
}

/// Encoded text holds none of the characters that structure a URL.
pub proof fn percent_encoded_text_has_no_delimiter(bytes: Seq<u8>, i: int)
    requires
        0 <= i < percent_encoded(bytes).len(),
    ensures
        percent_encoded(bytes)[i] == '%' || unreserved_char(percent_encoded(bytes)[i]),
        percent_encoded(bytes)[i] != '&',
        percent_encoded(bytes)[i] != '=',
        percent_encoded(bytes)[i] != '?',
        percent_encoded(bytes)[i] != '#',
        percent_encoded(bytes)[i] != '/',
        percent_encoded(bytes)[i] != ':',
        percent_encoded(bytes)[i] != ' ',
    decreases bytes.len(),
{
    let head = percent_encoded_byte(bytes[0]);
    if i >= head.len() {
        percent_encoded_text_has_no_delimiter(bytes.skip(1), i - head.len());
    }
}

proof fn unreserved_bytes_stand_for_themselves(bytes: Seq<u8>)
    requires
        forall|i: int| 0 <= i < bytes.len() ==> unreserved(#[trigger] bytes[i]),
    ensures
        percent_encoded(bytes) == bytes.map_values(|b: u8| b as char),
    decreases bytes.len(),
{
    let spelt = bytes.map_values(|b: u8| b as char);
    if bytes.len() > 0 {
        let rest = bytes.skip(1);
        assert forall|i: int| 0 <= i < rest.len() implies unreserved(#[trigger] rest[i]) by {
            assert(rest[i] == bytes[i + 1]);
        }
        unreserved_bytes_stand_for_themselves(rest);
        assert(spelt =~= seq![bytes[0] as char] + rest.map_values(|b: u8| b as char));
    } else {
        assert(spelt =~= seq![]);
    }
}

proof fn unreserved_char_is_ascii(c: char)
    requires
        unreserved_char(c),
    ensures
        '\0' <= c <= '\u{7f}',
{
}

/// Text of letters, digits, `-`, `_`, `.` and `~` is encoded as itself.
pub proof fn unreserved_text_stands_for_itself(text: Seq<char>)
    requires
        forall|i: int| 0 <= i < text.len() ==> unreserved_char(#[trigger] text[i]),
    ensures
        query_value(text) == text,
{
    assert forall|i: int| 0 <= i < text.len() implies '\0' <= #[trigger] text[i] <= '\u{7f}' by {
        unreserved_char_is_ascii(text[i]);
    }
    is_ascii_chars_encode_utf8(text);
    let bytes = encode_utf8(text);
    assert(bytes =~= Seq::new(text.len(), |i: int| text[i] as u8));
    assert forall|i: int| 0 <= i < bytes.len() implies unreserved(#[trigger] bytes[i]) && (
    bytes[i] as char) == text[i] by {
        assert(unreserved_char(text[i]));
    }
    unreserved_bytes_stand_for_themselves(bytes);
    assert(bytes.map_values(|b: u8| b as char) =~= text);
}

/// Two texts with one encoding are one text.
pub proof fn percent_encoding_is_injective(a: Seq<char>, b: Seq<char>)
    requires
        query_value(a) == query_value(b),
    ensures
        a == b,
{
    percent_encoding_is_undone_by_decoding(encode_utf8(a));
    percent_encoding_is_undone_by_decoding(encode_utf8(b));
    encode_utf8_decode_utf8(a);
    encode_utf8_decode_utf8(b);
    assert(decode_utf8(encode_utf8(a)) == decode_utf8(encode_utf8(b)));
}

} // verus!
