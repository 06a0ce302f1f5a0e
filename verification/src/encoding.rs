//! The two text encodings that requests need: percent-encoding of resource
//! names for paths, and base64 of the credentials.

use vstd::prelude::*;
use vstd::string::*;

verus! {

/// Whether a byte stands for itself in a percent-encoded text: ASCII letters
/// and digits, `-`, `_`, `.` and `~`.
pub open spec fn is_unreserved(byte: u8) -> bool {
    ||| 0x30 <= byte <= 0x39
    ||| 0x41 <= byte <= 0x5a
    ||| 0x61 <= byte <= 0x7a
    ||| byte == 0x2d
    ||| byte == 0x2e
    ||| byte == 0x5f
    ||| byte == 0x7e
}

/// The upper-case hexadecimal digit of a value below 16.
pub open spec fn hex_digit(value: int) -> char {
    if value < 10 {
        crate::text::digit(value)
    } else if value == 10 {
        'A'
    } else if value == 11 {
        'B'
    } else if value == 12 {
        'C'
    } else if value == 13 {
        'D'
    } else if value == 14 {
        'E'
    } else {
        'F'
    }
}

/// What one byte becomes: itself where it is unreserved, else `%` and its two
/// hexadecimal digits.
pub open spec fn percent_encoded_byte(byte: u8) -> Seq<char> {
    if is_unreserved(byte) {
        seq![byte as char]
    } else {
        seq!['%', hex_digit(byte as int / 16), hex_digit(byte as int % 16)]
    }
}

/// The percent-encoded text of a sequence of bytes: each byte encoded in turn.
pub open spec fn percent_encoded(bytes: Seq<u8>) -> Seq<char>
    decreases bytes.len(),
{
    if bytes.len() == 0 {
        Seq::empty()
    } else {
        percent_encoded(bytes.drop_last()) + percent_encoded_byte(bytes.last())
    }
}

/// The percent-encoded form of a text: that of its UTF-8 bytes.
pub open spec fn url_encoded(text: Seq<char>) -> Seq<char> {
    percent_encoded(vstd::utf8::encode_utf8(text))
}

/// Whether a character can occur in a percent-encoded text: `%`, or an
/// unreserved ASCII character (the hexadecimal digits are among them).
pub open spec fn is_encoded_char(c: char) -> bool {
    c == '%' || (c as u32 <= 0x7f && is_unreserved(c as u8))
}

/// A percent-encoded text holds nothing but `%` and unreserved characters, so
/// none of the characters that give a path its structure: no `/`, `?`, `#`
/// or `&`.
pub proof fn lemma_percent_encoded_is_safe(bytes: Seq<u8>)
    ensures
        forall|i: int|
            0 <= i < percent_encoded(bytes).len() ==> is_encoded_char(
                #[trigger] percent_encoded(bytes)[i],
            ),
        forall|i: int|
            0 <= i < percent_encoded(bytes).len() ==> {
                let c = #[trigger] percent_encoded(bytes)[i];
                c != '/' && c != '?' && c != '#' && c != '&'
            },
    decreases bytes.len(),
{
    if bytes.len() > 0 {
        let front = percent_encoded(bytes.drop_last());
        let last = percent_encoded_byte(bytes.last());
        lemma_percent_encoded_is_safe(bytes.drop_last());
        assert forall|i: int| 0 <= i < percent_encoded(bytes).len() implies is_encoded_char(
            #[trigger] percent_encoded(bytes)[i],
        ) by {
            if i < front.len() {
                assert(percent_encoded(bytes)[i] == front[i]);
            } else {
                assert(percent_encoded(bytes)[i] == last[i - front.len()]);
            }
        }
    }
}

/// Calls `urlencoding::encode`, which percent-encodes every byte of the text's
/// UTF-8 form except ASCII letters, digits, `-`, `_`, `.` and `~`, with
/// upper-case hexadecimal digits. Trusted: the contract restates that rule.
#[verifier::external_body]
pub(crate) fn url_encode(text: &str) -> (encoded: String)
    ensures
        encoded@ == url_encoded(text@),
{
    urlencoding::encode(text).into_owned()
}

/// The standard base64 text, with padding, of the UTF-8 bytes of a text.
pub uninterp spec fn base64_text(text: Seq<char>) -> Seq<char>;

/// Calls `base64::encode`, which renders the bytes it is given in the standard
/// alphabet with padding. Trusted: the result is only given its name.
#[verifier::external_body]
pub(crate) fn base64_encode(text: &str) -> (encoded: String)
    ensures
        encoded@ == base64_text(text@),
{
    base64::encode(text)
}

} // verus!
