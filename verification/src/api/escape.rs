//! What escaped text looks like, byte by byte: percent-encoding, form
//! encoding, and the query string made of form-encoded values.

use vstd::prelude::*;
use vstd::utf8::{encode_utf8, is_ascii_chars_encode_utf8};

verus! {

/// ASCII letters and digits.
pub open spec fn is_alphanumeric(byte: u8) -> bool {
    ||| 0x30 <= byte <= 0x39
    ||| 0x41 <= byte <= 0x5a
    ||| 0x61 <= byte <= 0x7a
}

/// The upper-case hexadecimal digit for a value below sixteen.
pub open spec fn hex_upper(nibble: u8) -> char
    recommends
        nibble < 16,
{
    if nibble < 10 {
        (0x30 + nibble) as u8 as char
    } else {
        (0x41 + nibble - 10) as u8 as char
    }
}

/// A byte written as `%` and its two upper-case hexadecimal digits.
pub open spec fn escaped(byte: u8) -> Seq<char> {
    seq!['%', hex_upper(byte / 16), hex_upper(byte % 16)]
}

/// Bytes that percent-encoding leaves as they are: letters, digits, `-`, `_`, `.` and `~`.
pub open spec fn is_unreserved(byte: u8) -> bool {
    is_alphanumeric(byte) || byte == 0x2d || byte == 0x5f || byte == 0x2e || byte == 0x7e
}

/// One byte, percent-encoded.
pub open spec fn percent_encoded_byte(byte: u8) -> Seq<char> {
    if is_unreserved(byte) {
        seq![byte as char]
    } else {
        escaped(byte)
    }
}

/// A byte string, percent-encoded: every byte that is not unreserved becomes
/// `%XX`, and the others stay.
pub open spec fn percent_encoded(bytes: Seq<u8>) -> Seq<char>
    decreases bytes.len(),
{
    if bytes.len() == 0 {
        Seq::empty()
    } else {
        percent_encoded_byte(bytes[0]) + percent_encoded(bytes.drop_first())
    }
}

/// Bytes that form encoding leaves as they are: letters, digits, `*`, `-`, `.` and `_`.
pub open spec fn is_form_plain(byte: u8) -> bool {
    is_alphanumeric(byte) || byte == 0x2a || byte == 0x2d || byte == 0x2e || byte == 0x5f
}

/// One byte, form-encoded: a space becomes `+`.
pub open spec fn form_encoded_byte(byte: u8) -> Seq<char> {
    if is_form_plain(byte) {
        seq![byte as char]
    } else if byte == 0x20 {
        seq!['+']
    } else {
        escaped(byte)
    }
}

/// A byte string in `application/x-www-form-urlencoded` form.
pub open spec fn form_encoded(bytes: Seq<u8>) -> Seq<char>
    decreases bytes.len(),
{
    if bytes.len() == 0 {
        Seq::empty()
    } else {
        form_encoded_byte(bytes[0]) + form_encoded(bytes.drop_first())
    }
}

/// Text, percent-encoded over its UTF-8 bytes.
pub open spec fn percent_encoded_text(text: Seq<char>) -> Seq<char> {
    percent_encoded(encode_utf8(text))
}

/// Text, form-encoded over its UTF-8 bytes.
pub open spec fn form_encoded_text(text: Seq<char>) -> Seq<char> {
    form_encoded(encode_utf8(text))
}

/// Whether a character can stand in encoded text: a letter, a digit, one of
/// `-`, `_`, `.`, `~`, `*`, `+`, or the `%` of an escape.
pub open spec fn is_encoded_char(c: char) -> bool {
    '\0' <= c <= '\u{7f}' && {
        let byte = c as u8;
        is_unreserved(byte) || is_form_plain(byte) || byte == 0x2b || byte == 0x25
    }
}

/// Percent-encoded text holds no character that has a meaning in a URL: none
/// of `&`, `=`, `?`, `#`, `/`, no space, and nothing outside ASCII.
pub proof fn lemma_percent_encoded_chars(bytes: Seq<u8>, i: int)
    requires
        0 <= i < percent_encoded(bytes).len(),
    ensures
        is_encoded_char(percent_encoded(bytes)[i]),
    decreases bytes.len(),
{
    let head = percent_encoded_byte(bytes[0]);
    if i < head.len() {
        assert(is_encoded_char(head[i]));
    } else {
        lemma_percent_encoded_chars(bytes.drop_first(), i - head.len());
    }
}

/// Form-encoded text holds no character that has a meaning in a URL either.
pub proof fn lemma_form_encoded_chars(bytes: Seq<u8>, i: int)
    requires
        0 <= i < form_encoded(bytes).len(),
    ensures
        is_encoded_char(form_encoded(bytes)[i]),
    decreases bytes.len(),
{
    let head = form_encoded_byte(bytes[0]);
    if i < head.len() {
        assert(is_encoded_char(head[i]));
    } else {
        lemma_form_encoded_chars(bytes.drop_first(), i - head.len());
    }
}

/// Whether form encoding leaves a character as it is.
pub open spec fn is_plain_char(c: char) -> bool {
    '\0' <= c <= '\u{7f}' && is_form_plain(c as u8)
}

/// Form encoding leaves bytes as they are where each of them is plain.
proof fn lemma_plain_bytes_stay(bytes: Seq<u8>)
    requires
        forall|i: int| 0 <= i < bytes.len() ==> is_form_plain(#[trigger] bytes[i]),
    ensures
        form_encoded(bytes) =~= bytes.map_values(|byte: u8| byte as char),
    decreases bytes.len(),
{
    if bytes.len() > 0 {
        let rest = bytes.drop_first();
        assert forall|i: int| 0 <= i < rest.len() implies is_form_plain(#[trigger] rest[i]) by {
            assert(rest[i] == bytes[i + 1]);
        }
        lemma_plain_bytes_stay(rest);
    }
}

/// Text of plain characters is its own form encoding: a query string shows
/// such a value as it is.
pub proof fn lemma_plain_text_stays(text: Seq<char>)
    requires
        forall|i: int| 0 <= i < text.len() ==> is_plain_char(#[trigger] text[i]),
    ensures
        form_encoded_text(text) == text,
{
    assert forall|i: int| 0 <= i < text.len() implies '\0' <= #[trigger] text[i] <= '\u{7f}' by {
        assert(is_plain_char(text[i]));
    }
    is_ascii_chars_encode_utf8(text);
    let bytes = encode_utf8(text);
    assert forall|i: int| 0 <= i < bytes.len() implies is_form_plain(#[trigger] bytes[i]) by {
        assert(is_plain_char(text[i]));
    }
    lemma_plain_bytes_stay(bytes);
    assert(bytes.map_values(|byte: u8| byte as char) =~= text);
}

/// One query parameter: the key as it is, `=`, and the value form-encoded.
pub open spec fn param_text(pair: (Seq<char>, Seq<char>)) -> Seq<char> {
    pair.0 + seq!['='] + form_encoded_text(pair.1)
}

/// A query string: the parameters in order, with `&` between them.
pub open spec fn query_text(pairs: Seq<(Seq<char>, Seq<char>)>) -> Seq<char>
    decreases pairs.len(),
{
    if pairs.len() == 0 {
        Seq::empty()
    } else if pairs.len() == 1 {
        param_text(pairs[0])
    } else {
        query_text(pairs.drop_last()) + seq!['&'] + param_text(pairs.last())
    }
}

} // verus!
