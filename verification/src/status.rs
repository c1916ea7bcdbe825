//! HTTP status codes and the decimal text that error objects carry for them.

use vstd::prelude::*;
use vstd::string::StringExecFns;

verus! {

/// The request was served.
pub const OK: u16 = 200;

/// The request was decoded and found invalid.
pub const BAD_REQUEST: u16 = 400;

/// No route has the requested path.
pub const NOT_FOUND: u16 = 404;

/// A route has the requested path, but none has it with the requested method.
pub const METHOD_NOT_ALLOWED: u16 = 405;

/// The character of a decimal digit.
pub open spec fn digit(value: nat) -> char {
    if value == 0 {
        '0'
    } else if value == 1 {
        '1'
    } else if value == 2 {
        '2'
    } else if value == 3 {
        '3'
    } else if value == 4 {
        '4'
    } else if value == 5 {
        '5'
    } else if value == 6 {
        '6'
    } else if value == 7 {
        '7'
    } else if value == 8 {
        '8'
    } else {
        '9'
    }
}

/// The value of a decimal digit, `None` for any other character.
pub open spec fn digit_value(c: char) -> Option<nat> {
    if c == '0' {
        Some(0)
    } else if c == '1' {
        Some(1)
    } else if c == '2' {
        Some(2)
    } else if c == '3' {
        Some(3)
    } else if c == '4' {
        Some(4)
    } else if c == '5' {
        Some(5)
    } else if c == '6' {
        Some(6)
    } else if c == '7' {
        Some(7)
    } else if c == '8' {
        Some(8)
    } else if c == '9' {
        Some(9)
    } else {
        None
    }
}

/// A number in decimal, without sign and without leading zeros.
pub open spec fn decimal(n: nat) -> Seq<char>
    decreases n,
{
    if n < 10 {
        seq![digit(n)]
    } else {
        decimal(n / 10).push(digit(n % 10))
    }
}

/// The number that a text of decimal digits stands for, `None` where the
/// text is empty or holds anything but digits.
pub open spec fn parse_decimal(text: Seq<char>) -> Option<nat>
    decreases text.len(),
{
    if text.len() == 0 {
        None
    } else if text.len() == 1 {
        digit_value(text[0])
    } else {
        match (parse_decimal(text.drop_last()), digit_value(text.last())) {
            (Some(high), Some(low)) => Some(high * 10 + low),
            _ => None,
        }
    }
}

/// The decimal text of a number parses back to that number.
pub proof fn lemma_decimal_parses_back(n: nat)
    ensures
        decimal(n).len() >= 1,
        parse_decimal(decimal(n)) == Some(n),
    decreases n,
{
    if n >= 10 {
        lemma_decimal_parses_back(n / 10);
        let text = decimal(n);
        assert(text.drop_last() =~= decimal(n / 10));
        assert(text.last() == digit(n % 10));
        assert(digit_value(digit(n % 10)) == Some(n % 10));
    } else {
        assert(decimal(n)[0] == digit(n));
        assert(digit_value(digit(n)) == Some(n));
    }
}

/// The text of one decimal digit.
fn digit_text(value: u16) -> (text: &'static str)
    requires
        value < 10,
    ensures
        text@ == seq![digit(value as nat)],
{
    proof {
        reveal_strlit("0");
        reveal_strlit("1");
        reveal_strlit("2");
        reveal_strlit("3");
        reveal_strlit("4");
        reveal_strlit("5");
        reveal_strlit("6");
        reveal_strlit("7");
        reveal_strlit("8");
        reveal_strlit("9");
    }
    let text = if value == 0 {
        "0"
    } else if value == 1 {
        "1"
    } else if value == 2 {
        "2"
    } else if value == 3 {
        "3"
    } else if value == 4 {
        "4"
    } else if value == 5 {
        "5"
    } else if value == 6 {
        "6"
    } else if value == 7 {
        "7"
    } else if value == 8 {
        "8"
    } else {
        "9"
    };
    assert(text@ =~= seq![digit(value as nat)]);
    text
}

/// Renders a status code as the decimal text that an error object carries.
pub fn status_text(code: u16) -> (text: String)
    ensures
        text@ == decimal(code as nat),
    decreases code,
{
    if code < 10 {
        digit_text(code).to_owned()
    } else {
        let mut text = status_text(code / 10);
        text.append(digit_text(code % 10));
        assert(text@ =~= decimal(code as nat));
        text
    }
}

} // verus!
