//! Numbers as text.
//!
//! A number with a fraction is carried as the numeral it is printed as: an
//! optional `-`, digits, and an optional point with more digits. The values
//! that are no number have their usual texts, `NaN`, `inf` and `-inf`; they
//! are carried too, for a provider to refuse.

use vstd::prelude::*;
use vstd::string::*;
use crate::api::escape::{form_encoded_text, is_plain_char, lemma_plain_text_stays};

verus! {

/// One of the ten digits.
pub open spec fn is_digit(c: char) -> bool {
    '0' <= c <= '9'
}

/// Whether every character is a digit.
pub open spec fn all_digits(text: Seq<char>) -> bool {
    forall|i: int| 0 <= i < text.len() ==> is_digit(#[trigger] text[i])
}

/// Digits, or digits, a point and more digits.
pub open spec fn is_magnitude(text: Seq<char>) -> bool {
    ||| text.len() > 0 && all_digits(text)
    ||| exists|point: int|
        0 < point < text.len() - 1 && #[trigger] text[point] == '.' && all_digits(
            text.subrange(0, point),
        ) && all_digits(text.subrange(point + 1, text.len() as int))
}

/// A numeral without a sign: a magnitude, or `inf`.
pub open spec fn is_unsigned(text: Seq<char>) -> bool {
    text == seq!['i', 'n', 'f'] || is_magnitude(text)
}

/// What a number is printed as: `NaN`, or an unsigned numeral with or without
/// a `-` before it.
pub open spec fn is_numeral(text: Seq<char>) -> bool {
    ||| text == seq!['N', 'a', 'N']
    ||| is_unsigned(text)
    ||| text.len() > 0 && text[0] == '-' && is_unsigned(text.drop_first())
}

/// A magnitude starts with a digit and holds digits and at most one point.
pub proof fn lemma_magnitude_chars(text: Seq<char>)
    requires
        is_magnitude(text),
    ensures
        text.len() > 0,
        is_digit(text[0]),
        forall|i: int| 0 <= i < text.len() ==> is_digit(#[trigger] text[i]) || text[i] == '.',
{
    if text.len() > 0 && all_digits(text) {
    } else {
        let point = choose|point: int|
            0 < point < text.len() - 1 && #[trigger] text[point] == '.' && all_digits(
                text.subrange(0, point),
            ) && all_digits(text.subrange(point + 1, text.len() as int));
        assert(text.subrange(0, point)[0] == text[0]);
        assert forall|i: int| 0 <= i < text.len() implies is_digit(#[trigger] text[i]) || text[i]
            == '.' by {
            if i < point {
                assert(text.subrange(0, point)[i] == text[i]);
            } else if i > point {
                assert(text.subrange(point + 1, text.len() as int)[i - point - 1] == text[i]);
            }
        }
    }
}

/// Whether a character can stand in a numeral.
pub open spec fn is_numeral_char(c: char) -> bool {
    is_digit(c) || c == '.' || c == '-' || c == 'N' || c == 'a' || c == 'i' || c == 'n' || c == 'f'
}

/// A numeral holds digits, `.`, `-` and the letters of `NaN` and `inf` only.
pub proof fn lemma_numeral_chars(text: Seq<char>)
    requires
        is_numeral(text),
    ensures
        forall|i: int| 0 <= i < text.len() ==> is_numeral_char(#[trigger] text[i]),
{
    if is_magnitude(text) {
        lemma_magnitude_chars(text);
    } else if text.len() > 0 && text[0] == '-' && is_magnitude(text.drop_first()) {
        let body = text.drop_first();
        lemma_magnitude_chars(body);
        assert forall|i: int| 0 <= i < text.len() implies is_numeral_char(#[trigger] text[i]) by {
            if i > 0 {
                assert(body[i - 1] == text[i]);
            }
        }
    } else if text.len() > 0 && text[0] == '-' && text.drop_first() == seq!['i', 'n', 'f'] {
        let body = text.drop_first();
        assert forall|i: int| 0 <= i < text.len() implies is_numeral_char(#[trigger] text[i]) by {
            if i > 0 {
                assert(body[i - 1] == text[i]);
            }
        }
    }
}

/// A query string shows a numeral as it is: form encoding changes none of
/// its characters.
pub proof fn lemma_numeral_is_written_as_is(text: Seq<char>)
    requires
        is_numeral(text),
    ensures
        form_encoded_text(text) == text,
{
    lemma_numeral_chars(text);
    assert forall|i: int| 0 <= i < text.len() implies is_plain_char(#[trigger] text[i]) by {
        assert(is_numeral_char(text[i]));
    }
    lemma_plain_text_stays(text);
}

/// A number, as the text it is printed as.
#[derive(Debug, PartialEq, Eq)]
pub struct Numeral {
    text: String,
}

impl View for Numeral {
    type V = Seq<char>;

    closed spec fn view(&self) -> Seq<char> {
        self.text@
    }
}

impl Clone for Numeral {
    fn clone(&self) -> (copy: Self)
        ensures
            copy@ == self@,
    {
        proof {
            use_type_invariant(self);
        }
        Numeral { text: self.text.clone() }
    }
}

/// The number of characters of an ASCII text.
fn ascii_len(text: &str) -> (len: usize)
    requires
        text.is_ascii(),
    ensures
        len == text@.len(),
{
    broadcast use is_ascii_spec_bytes;

    text.as_bytes().len()
}

/// Whether the character at `at` is a digit.
fn digit_at(text: &str, at: usize) -> (found: bool)
    requires
        text.is_ascii(),
        at < text@.len(),
    ensures
        found == is_digit(text@[at as int]),
{
    let byte = text.get_ascii(at);
    0x30 <= byte && byte <= 0x39
}

/// The end of the digits that start at `from`.
fn digits_end(text: &str, from: usize) -> (end: usize)
    requires
        text.is_ascii(),
        from <= text@.len(),
    ensures
        from <= end <= text@.len(),
        all_digits(text@.subrange(from as int, end as int)),
        end < text@.len() ==> !is_digit(text@[end as int]),
{
    let len = ascii_len(text);
    let mut end = from;
    while end < len && digit_at(text, end)
        invariant
            text.is_ascii(),
            len == text@.len(),
            from <= end <= len,
            all_digits(text@.subrange(from as int, end as int)),
        decreases len - end,
    {
        end += 1;
    }
    end
}

/// Whether the text from `from` on is the three characters with the codes
/// `first`, `second` and `third`.
fn word_from(text: &str, from: usize, first: u8, second: u8, third: u8) -> (found: bool)
    requires
        text.is_ascii(),
        from <= text@.len(),
        first <= 0x7f && second <= 0x7f && third <= 0x7f,
    ensures
        found == (text@.subrange(from as int, text@.len() as int) == seq![
            first as char,
            second as char,
            third as char,
        ]),
{
    let len = ascii_len(text);
    let ghost rest = text@.subrange(from as int, len as int);
    if len - from != 3 {
        assert(seq![first as char, second as char, third as char].len() == 3);
        return false;
    }
    let found = text.get_ascii(from) == first && text.get_ascii(from + 1) == second
        && text.get_ascii(from + 2) == third;
    proof {
        assert(rest[0] == text@[from as int]);
        assert(rest[1] == text@[from + 1]);
        assert(rest[2] == text@[from + 2]);
        if found {
            assert(rest =~= seq![first as char, second as char, third as char]);
        }
    }
    found
}

/// Whether the text from `from` on is a magnitude.
fn magnitude_from(text: &str, from: usize) -> (found: bool)
    requires
        text.is_ascii(),
        from <= text@.len(),
    ensures
        found == is_magnitude(text@.subrange(from as int, text@.len() as int)),
{
    let len = ascii_len(text);
    let ghost rest = text@.subrange(from as int, len as int);
    let whole = digits_end(text, from);
    if whole == from {
        proof {
            if is_magnitude(rest) {
                lemma_magnitude_chars(rest);
                assert(rest[0] == text@[from as int]);
            }
        }
        return false;
    }
    if whole == len {
        return true;
    }
    let ghost at = whole - from;
    assert(rest[at] == text@[whole as int]);
    if text.get_ascii(whole) != 0x2e {
        proof {
            if is_magnitude(rest) {
                lemma_magnitude_chars(rest);
            }
        }
        return false;
    }
    let fraction = digits_end(text, whole + 1);
    let found = fraction == len && whole + 1 < len;
    proof {
        assert(rest.subrange(0, at) =~= text@.subrange(from as int, whole as int));
        if found {
            assert(rest.subrange(at + 1, rest.len() as int) =~= text@.subrange(
                whole + 1,
                len as int,
            ));
        } else if is_magnitude(rest) {
            let point = choose|point: int|
                0 < point < rest.len() - 1 && #[trigger] rest[point] == '.' && all_digits(
                    rest.subrange(0, point),
                ) && all_digits(rest.subrange(point + 1, rest.len() as int));
            if point < at {
                assert(rest.subrange(0, at)[point] == rest[point]);
            } else if point > at {
                assert(rest.subrange(0, point)[at] == rest[at]);
            } else {
                let stop = fraction - from;
                assert(rest.subrange(at + 1, rest.len() as int)[stop - at - 1] == text@[fraction as int]);
            }
        }
    }
    found
}

impl Numeral {
    #[verifier::type_invariant]
    spec fn well_formed(self) -> bool {
        is_numeral(self.text@)
    }

    /// Reads a numeral: `Some` for the texts that a number is printed as, and
    /// for no other.
    pub fn parse(text: &str) -> (parsed: Option<Numeral>)
        ensures
            parsed is Some <==> is_numeral(text@),
            parsed matches Some(numeral) ==> numeral@ == text@,
    {
        if !text.is_ascii() {
            proof {
                if is_numeral(text@) {
                    lemma_numeral_chars(text@);
                }
            }
            return None;
        }
        let len = ascii_len(text);
        assert(text@.subrange(0, len as int) =~= text@);
        let signed = len > 0 && text.get_ascii(0) == 0x2d;
        let found = if signed {
            proof {
                assert(text@.subrange(1, len as int) =~= text@.drop_first());
                if is_magnitude(text@) {
                    lemma_magnitude_chars(text@);
                }
            }
            word_from(text, 1, 0x69, 0x6e, 0x66) || magnitude_from(text, 1)
        } else {
            word_from(text, 0, 0x4e, 0x61, 0x4e) || word_from(text, 0, 0x69, 0x6e, 0x66)
                || magnitude_from(text, 0)
        };
        if found {
            Some(Numeral { text: String::from_str(text) })
        } else {
            None
        }
    }

    /// The text of this numeral.
    pub fn as_str(&self) -> (text: &str)
        ensures
            text@ == self@,
            is_numeral(self@),
    {
        proof {
            use_type_invariant(self);
        }
        self.text.as_str()
    }
}

} // verus!