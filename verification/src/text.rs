//! Decimal numbers as text: writing a number out and reading one in.

use vstd::prelude::*;
use vstd::string::*;

verus! {

/// The character of a decimal digit.
pub open spec fn digit_char(digit: int) -> char {
    if digit == 0 {
        '0'
    } else if digit == 1 {
        '1'
    } else if digit == 2 {
        '2'
    } else if digit == 3 {
        '3'
    } else if digit == 4 {
        '4'
    } else if digit == 5 {
        '5'
    } else if digit == 6 {
        '6'
    } else if digit == 7 {
        '7'
    } else if digit == 8 {
        '8'
    } else {
        '9'
    }
}

/// The value of a decimal digit's character, if it is one.
pub open spec fn digit_value(c: char) -> Option<int> {
    if c == '0' {
        Some(0)
    } else if c == '1' {
        Some(1)
    } else if c == '2' {
        Some(2)
    } else if c == '3' {
        Some(3)
    } else if c == '4' {
        Some(4)
    } else if c == '5' {
        Some(5)
    } else if c == '6' {
        Some(6)
    } else if c == '7' {
        Some(7)
    } else if c == '8' {
        Some(8)
    } else if c == '9' {
        Some(9)
    } else {
        None
    }
}

/// A number written out in decimal, without sign or leading zeros.
pub open spec fn decimal(n: nat) -> Seq<char>
    decreases n,
{
    if n < 10 {
        seq![digit_char(n as int)]
    } else {
        decimal(n / 10).push(digit_char((n % 10) as int))
    }
}

/// A signed number written out in decimal, with `-` before a negative one.
pub open spec fn signed_decimal(n: int) -> Seq<char> {
    if n < 0 {
        seq!['-'] + decimal((-n) as nat)
    } else {
        decimal(n as nat)
    }
}

/// Why a text is not a number that fits in `u64`.
#[derive(Clone, Copy, Debug, PartialEq, Eq, Structural)]
pub enum ParseFailure {
    /// The text is empty.
    Empty,
    /// The text holds a character that is no decimal digit, or only a sign.
    InvalidDigit,
    /// The number is larger than `u64::MAX`.
    PosOverflow,
}

/// Reads the digits of `text` from place `at` on, with `value` read so far.
/// The first character that is no digit, or the first digit with which the
/// value no longer fits in `u64`, ends the reading with a failure.
pub open spec fn read_digits(text: Seq<char>, at: int, value: int) -> Result<u64, ParseFailure>
    decreases text.len() - at,
{
    if at < 0 || at >= text.len() {
        Ok(value as u64)
    } else {
        match digit_value(text[at]) {
            None => Err(ParseFailure::InvalidDigit),
            Some(digit) => if value * 10 + digit > u64::MAX {
                Err(ParseFailure::PosOverflow)
            } else {
                read_digits(text, at + 1, value * 10 + digit)
            },
        }
    }
}

/// The number that `text` stands for: decimal digits, with `+` allowed
/// before them. An empty text, a sign alone, any other character and a
/// number beyond `u64::MAX` are failures.
pub open spec fn parsed(text: Seq<char>) -> Result<u64, ParseFailure> {
    if text.len() == 0 {
        Err(ParseFailure::Empty)
    } else if text.len() == 1 && (text[0] == '+' || text[0] == '-') {
        Err(ParseFailure::InvalidDigit)
    } else if text[0] == '+' {
        read_digits(text, 1, 0)
    } else {
        read_digits(text, 0, 0)
    }
}

/// The text of one decimal digit.
fn digit_text(digit: u64) -> (text: &'static str)
    requires
        digit < 10,
    ensures
        text@ == seq![digit_char(digit as int)],
{
    proof {
        reveal_strlit("0");
        reveal_strlit("1");
        reveal_strlit("2");
        reveal_strlit("3");
        reveal_strlit("4");
        reveal_strlit("5");
        reveal_strlit("6");
        reveal_strlit("7");
        reveal_strlit("8");
        reveal_strlit("9");
    }
    let text = if digit == 0 {
        "0"
    } else if digit == 1 {
        "1"
    } else if digit == 2 {
        "2"
    } else if digit == 3 {
        "3"
    } else if digit == 4 {
        "4"
    } else if digit == 5 {
        "5"
    } else if digit == 6 {
        "6"
    } else if digit == 7 {
        "7"
    } else if digit == 8 {
        "8"
    } else {
        "9"
    };
    assert(text@ =~= seq![digit_char(digit as int)]);
    text
}

/// Appends `n`, written out in decimal, to `out`.
pub fn push_decimal(out: &mut String, n: u64)
    ensures
        final(out)@ == old(out)@ + decimal(n as nat),
    decreases n,
{
    if n >= 10 {
        push_decimal(out, n / 10);
    }
    out.append(digit_text(n % 10));
    assert(out@ =~= old(out)@ + decimal(n as nat));
}

/// Appends `n`, written out in decimal with its sign, to `out`.
pub fn push_signed_decimal(out: &mut String, n: i64)
    ensures
        final(out)@ == old(out)@ + signed_decimal(n as int),
{
    if n < 0 {
        proof {
            reveal_strlit("-");
        }
        out.append("-");
        let magnitude: u64 = if n == i64::MIN {
            0x8000_0000_0000_0000
        } else {
            (-n) as u64
        };
        push_decimal(out, magnitude);
        assert(out@ =~= old(out)@ + signed_decimal(n as int));
    } else {
        push_decimal(out, n as u64);
    }
}

/// The value of a decimal digit's character, if it is one.
fn digit_of(c: char) -> (digit: Option<u64>)
    ensures
        match digit {
            Some(d) => digit_value(c) == Some(d as int) && d < 10,
            None => digit_value(c) is None,
        },
{
    if c == '0' {
        Some(0)
    } else if c == '1' {
        Some(1)
    } else if c == '2' {
        Some(2)
    } else if c == '3' {
        Some(3)
    } else if c == '4' {
        Some(4)
    } else if c == '5' {
        Some(5)
    } else if c == '6' {
        Some(6)
    } else if c == '7' {
        Some(7)
    } else if c == '8' {
        Some(8)
    } else if c == '9' {
        Some(9)
    } else {
        None
    }
}

/// Reads a number in decimal from `text`.
pub fn parse_u64(text: &str) -> (number: Result<u64, ParseFailure>)
    ensures
        number == parsed(text@),
{
    let len = text.unicode_len();
    if len == 0 {
        return Err(ParseFailure::Empty);
    }
    let first = text.get_char(0);
    if len == 1 && (first == '+' || first == '-') {
        return Err(ParseFailure::InvalidDigit);
    }
    let mut at: usize = if first == '+' {
        1
    } else {
        0
    };
    let mut value: u64 = 0;
    while at < len
        invariant
            at <= len,
            len == text@.len(),
            parsed(text@) == read_digits(text@, at as int, value as int),
        decreases len - at,
    {
        match digit_of(text.get_char(at)) {
            None => {
                return Err(ParseFailure::InvalidDigit);
            },
            Some(digit) => {
                if value > (u64::MAX - digit) / 10 {
                    assert(value * 10 + digit > u64::MAX);
                    return Err(ParseFailure::PosOverflow);
                }
                assert(value * 10 + digit <= u64::MAX);
                value = value * 10 + digit;
            },
        }
        at += 1;
    }
    Ok(value)
}

/// What a parse failure says, in words.
pub open spec fn failure_text(failure: ParseFailure) -> Seq<char> {
    match failure {
        ParseFailure::Empty => "cannot parse integer from empty string"@,
        ParseFailure::InvalidDigit => "invalid digit found in string"@,
        ParseFailure::PosOverflow => "number too large to fit in target type"@,
    }
}

impl ParseFailure {
    /// What the failure says, in words.
    pub fn message(&self) -> (text: String)
        ensures
            text@ == failure_text(*self),
    {
        match self {
            ParseFailure::Empty => String::from_str("cannot parse integer from empty string"),
            ParseFailure::InvalidDigit => String::from_str("invalid digit found in string"),
            ParseFailure::PosOverflow => String::from_str("number too large to fit in target type"),
        }
    }
}

} // verus!
