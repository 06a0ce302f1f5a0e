//! Decimal text of integers, as query strings, headers and paths carry them.

use vstd::prelude::*;
use vstd::string::*;

verus! {

/// The character that stands for the digit `d`.
pub open spec fn digit(d: int) -> char {
    if d == 0 {
        '0'
    } else if d == 1 {
        '1'
    } else if d == 2 {
        '2'
    } else if d == 3 {
        '3'
    } else if d == 4 {
        '4'
    } else if d == 5 {
        '5'
    } else if d == 6 {
        '6'
    } else if d == 7 {
        '7'
    } else if d == 8 {
        '8'
    } else {
        '9'
    }
}

/// The decimal digits of `n`, most significant first, without leading zeros.
pub open spec fn digits(n: nat) -> Seq<char>
    decreases n,
{
    if n < 10 {
        seq![digit(n as int)]
    } else {
        digits(n / 10).push(digit((n % 10) as int))
    }
}

/// The decimal text of `n`: a minus sign for a negative number, then its digits.
pub open spec fn decimal(n: int) -> Seq<char> {
    if n < 0 {
        seq!['-'] + digits((-n) as nat)
    } else {
        digits(n as nat)
    }
}

fn digit_str(d: u64) -> (s: &'static str)
    requires
        d < 10,
    ensures
        s@ == seq![digit(d as int)],
{
    proof {
        reveal_strlit("0");
        reveal_strlit("1");
        reveal_strlit("2");
        reveal_strlit("3");
        reveal_strlit("4");
        reveal_strlit("5");
        reveal_strlit("6");
        reveal_strlit("7");
        reveal_strlit("8");
        reveal_strlit("9");
    }
    let s = if d == 0 {
        "0"
    } else if d == 1 {
        "1"
    } else if d == 2 {
        "2"
    } else if d == 3 {
        "3"
    } else if d == 4 {
        "4"
    } else if d == 5 {
        "5"
    } else if d == 6 {
        "6"
    } else if d == 7 {
        "7"
    } else if d == 8 {
        "8"
    } else {
        "9"
    };
    s
}

fn append_digits(out: &mut String, n: u64)
    ensures
        final(out)@ == old(out)@ + digits(n as nat),
    decreases n,
{
    if n >= 10 {
        append_digits(out, n / 10);
    }
    out.append(digit_str(n % 10));
}

/// Appends the decimal text of `n` to `out`.
pub fn append_decimal(out: &mut String, n: i64)
    ensures
        final(out)@ == old(out)@ + decimal(n as int),
{
    if n < 0 {
        let magnitude: i128 = -(n as i128);
        proof {
            reveal_strlit("-");
        }
        out.append("-");
        append_digits(out, magnitude as u64);
    } else {
        append_digits(out, n as u64);
    }
}

/// The decimal text of a signed number.
pub fn decimal_string(n: i64) -> (text: String)
    ensures
        text@ == decimal(n as int),
{
    let mut text = String::new();
    append_decimal(&mut text, n);
    text
}

/// The decimal text of an unsigned number.
pub fn unsigned_decimal_string(n: u64) -> (text: String)
    ensures
        text@ == digits(n as nat),
{
    let mut text = String::new();
    append_digits(&mut text, n);
    text
}

/// Whether a character is an upper-case ASCII letter.
pub open spec fn is_ascii_uppercase(c: char) -> bool {
    'A' <= c <= 'Z'
}

/// The lower-case form of an upper-case ASCII letter; any other character
/// stays as it is.
pub open spec fn to_ascii_lowercase(c: char) -> char {
    if is_ascii_uppercase(c) {
        ((c as u8) + 32) as u8 as char
    } else {
        c
    }
}

/// A text with each of its characters in ASCII lower case.
pub open spec fn ascii_lowercase(text: Seq<char>) -> Seq<char> {
    Seq::new(text.len(), |i: int| to_ascii_lowercase(text[i]))
}

/// Lower-casing leaves no upper-case ASCII letter.
pub proof fn lemma_ascii_lowercase_has_no_uppercase(text: Seq<char>)
    ensures
        forall|i: int|
            0 <= i < text.len() ==> !is_ascii_uppercase(#[trigger] ascii_lowercase(text)[i]),
{
}

} // verus!
