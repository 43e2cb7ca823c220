//! Decimal text of a port number.

use vstd::prelude::*;
use vstd::string::StringExecFns;

verus! {

/// The character that stands for the digit `d`; `'0'` where `d` is no digit.
pub open spec fn digit_char(d: nat) -> char {
    if d == 1 {
        '1'
    } else if d == 2 {
        '2'
    } else if d == 3 {
        '3'
    } else if d == 4 {
        '4'
    } else if d == 5 {
        '5'
    } else if d == 6 {
        '6'
    } else if d == 7 {
        '7'
    } else if d == 8 {
        '8'
    } else if d == 9 {
        '9'
    } else {
        '0'
    }
}

/// Whether `c` is one of the ten decimal digits.
pub open spec fn is_digit(c: char) -> bool {
    c == '0' || c == '1' || c == '2' || c == '3' || c == '4' || c == '5' || c == '6' || c == '7'
        || c == '8' || c == '9'
}

/// The decimal text of `n`, without sign and without leading zeros.
pub open spec fn decimal_text(n: nat) -> Seq<char>
    decreases n,
{
    if n < 10 {
        seq![digit_char(n)]
    } else {
        decimal_text(n / 10).push(digit_char(n % 10))
    }
}

/// A decimal text is never empty and holds digits only.
pub proof fn lemma_decimal_text_is_digits(n: nat)
    ensures
        decimal_text(n).len() >= 1,
        forall|i: int| 0 <= i < decimal_text(n).len() ==> is_digit(#[trigger] decimal_text(n)[i]),
    decreases n,
{
    if n >= 10 {
        lemma_decimal_text_is_digits(n / 10);
    }
}

/// The one-character text of a single digit.
fn digit_str(d: u16) -> (s: &'static str)
    requires
        d < 10,
    ensures
        s@ == seq![digit_char(d as nat)],
{
    proof {
        reveal_strlit("0");
        reveal_strlit("1");
        reveal_strlit("2");
        reveal_strlit("3");
        reveal_strlit("4");
        reveal_strlit("5");
        reveal_strlit("6");
        reveal_strlit("7");
        reveal_strlit("8");
        reveal_strlit("9");
    }
    match d {
        0 => "0",
        1 => "1",
        2 => "2",
        3 => "3",
        4 => "4",
        5 => "5",
        6 => "6",
        7 => "7",
        8 => "8",
        _ => "9",
    }
}

/// Writes a port number in decimal.
pub fn port_digits(port: u16) -> (text: String)
    ensures
        text@ == decimal_text(port as nat),
    decreases port,
{
    if port < 10 {
        String::from_str(digit_str(port))
    } else {
        let mut text = port_digits(port / 10);
        let last = digit_str(port % 10);
        text.append(last);
        text
    }
}

} // verus!
