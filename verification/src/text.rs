//! Text building blocks: numerals and concatenation.

use vstd::prelude::*;
use vstd::string::*;

verus! {

/// The character of one hexadecimal digit, in lower case.
pub open spec fn digit_char(digit: nat) -> char {
    if digit == 0 {
        '0'
    } else if digit == 1 {
        '1'
    } else if digit == 2 {
        '2'
    } else if digit == 3 {
        '3'
    } else if digit == 4 {
        '4'
    } else if digit == 5 {
        '5'
    } else if digit == 6 {
        '6'
    } else if digit == 7 {
        '7'
    } else if digit == 8 {
        '8'
    } else if digit == 9 {
        '9'
    } else if digit == 10 {
        'a'
    } else if digit == 11 {
        'b'
    } else if digit == 12 {
        'c'
    } else if digit == 13 {
        'd'
    } else if digit == 14 {
        'e'
    } else {
        'f'
    }
}

/// The decimal numeral of `value`, without leading zeros.
pub open spec fn decimal(value: nat) -> Seq<char>
    decreases value,
{
    if value < 10 {
        seq![digit_char(value)]
    } else {
        decimal(value / 10).push(digit_char(value % 10))
    }
}

/// The decimal numeral of `value`, with a minus sign where it is negative.
pub open spec fn signed_decimal(value: int) -> Seq<char> {
    if value < 0 {
        seq!['-'] + decimal((-value) as nat)
    } else {
        decimal(value as nat)
    }
}

/// The four lower-case hexadecimal digits of a 16-bit value.
pub open spec fn hex4(value: u16) -> Seq<char> {
    seq![
        digit_char(value as nat / 4096),
        digit_char(value as nat / 256 % 16),
        digit_char(value as nat / 16 % 16),
        digit_char(value as nat % 16),
    ]
}

fn digit_text(digit: u64) -> (text: &'static str)
    requires
        digit < 16,
    ensures
        text@ == seq![digit_char(digit as nat)],
{
    let text: &'static str = if digit == 0 {
        "0"
    } else if digit == 1 {
        "1"
    } else if digit == 2 {
        "2"
    } else if digit == 3 {
        "3"
    } else if digit == 4 {
        "4"
    } else if digit == 5 {
        "5"
    } else if digit == 6 {
        "6"
    } else if digit == 7 {
        "7"
    } else if digit == 8 {
        "8"
    } else if digit == 9 {
        "9"
    } else if digit == 10 {
        "a"
    } else if digit == 11 {
        "b"
    } else if digit == 12 {
        "c"
    } else if digit == 13 {
        "d"
    } else if digit == 14 {
        "e"
    } else {
        "f"
    };
    proof {
        reveal_strlit("0");
        reveal_strlit("1");
        reveal_strlit("2");
        reveal_strlit("3");
        reveal_strlit("4");
        reveal_strlit("5");
        reveal_strlit("6");
        reveal_strlit("7");
        reveal_strlit("8");
        reveal_strlit("9");
        reveal_strlit("a");
        reveal_strlit("b");
        reveal_strlit("c");
        reveal_strlit("d");
        reveal_strlit("e");
        reveal_strlit("f");
        assert(text@ =~= seq![digit_char(digit as nat)]);
    }
    text
}

/// Writes `value` in decimal.
pub fn decimal_text(value: u64) -> (text: String)
    ensures
        text@ == decimal(value as nat),
    decreases value,
{
    if value < 10 {
        String::from_str(digit_text(value))
    } else {
        let mut text = decimal_text(value / 10);
        text.append(digit_text(value % 10));
        proof {
            assert(text@ =~= decimal(value as nat));
        }
        text
    }
}

/// Writes `value` in decimal, with a minus sign where it is negative.
pub fn signed_decimal_text(value: i64) -> (text: String)
    requires
        value > i64::MIN,
    ensures
        text@ == signed_decimal(value as int),
{
    if value < 0 {
        let mut text = String::from_str("-");
        text.append(decimal_text((-value) as u64).as_str());
        proof {
            reveal_strlit("-");
            assert("-"@ =~= seq!['-']);
        }
        text
    } else {
        decimal_text(value as u64)
    }
}

/// Writes a 16-bit value as four lower-case hexadecimal digits.
pub fn hex4_text(value: u16) -> (text: String)
    ensures
        text@ == hex4(value),
{
    let wide: u64 = value as u64;
    let mut text = String::from_str(digit_text(wide / 4096));
    text.append(digit_text(wide / 256 % 16));
    text.append(digit_text(wide / 16 % 16));
    text.append(digit_text(wide % 16));
    proof {
        assert(text@ =~= hex4(value));
    }
    text
}

} // verus!
