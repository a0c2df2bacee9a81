//! Addresses and offsets as they are written in logs: in hexadecimal.

use vstd::prelude::*;
use vstd::string::StringExecFns;

verus! {

/// The digit that stands for `value`, which is below sixteen.
pub open spec fn digit(value: nat) -> char
    recommends
        value < 16,
{
    if value == 0 {
        '0'
    } else if value == 1 {
        '1'
    } else if value == 2 {
        '2'
    } else if value == 3 {
        '3'
    } else if value == 4 {
        '4'
    } else if value == 5 {
        '5'
    } else if value == 6 {
        '6'
    } else if value == 7 {
        '7'
    } else if value == 8 {
        '8'
    } else if value == 9 {
        '9'
    } else if value == 10 {
        'a'
    } else if value == 11 {
        'b'
    } else if value == 12 {
        'c'
    } else if value == 13 {
        'd'
    } else if value == 14 {
        'e'
    } else {
        'f'
    }
}

/// The digits of `value` to the base sixteen, the most significant first,
/// without leading zeros: one digit for zero.
pub open spec fn digits(value: nat) -> Seq<char>
    decreases value,
{
    if value < 16 {
        seq![digit(value)]
    } else {
        digits(value / 16).push(digit(value % 16))
    }
}

/// `value` as it is written: `0x` and its digits.
pub open spec fn literal(value: nat) -> Seq<char> {
    seq!['0', 'x'] + digits(value)
}

fn digit_str(value: u64) -> (text: &'static str)
    requires
        value < 16,
    ensures
        text@ == seq![digit(value as nat)],
{
    proof {
        reveal_strlit("0");
        reveal_strlit("1");
        reveal_strlit("2");
        reveal_strlit("3");
        reveal_strlit("4");
        reveal_strlit("5");
        reveal_strlit("6");
        reveal_strlit("7");
        reveal_strlit("8");
        reveal_strlit("9");
        reveal_strlit("a");
        reveal_strlit("b");
        reveal_strlit("c");
        reveal_strlit("d");
        reveal_strlit("e");
        reveal_strlit("f");
    }
    let text = match value {
        0 => "0",
        1 => "1",
        2 => "2",
        3 => "3",
        4 => "4",
        5 => "5",
        6 => "6",
        7 => "7",
        8 => "8",
        9 => "9",
        10 => "a",
        11 => "b",
        12 => "c",
        13 => "d",
        14 => "e",
        _ => "f",
    };
    text
}

/// Appends the digits of `value` to `text`.
pub fn push_digits(text: &mut String, value: u64)
    ensures
        final(text)@ == old(text)@ + digits(value as nat),
    decreases value,
{
    if value >= 16 {
        push_digits(text, value / 16);
    }
    text.append(digit_str(value % 16));
}

/// Appends `value` as it is written, with `0x` before its digits.
pub fn push_literal(text: &mut String, value: u64)
    ensures
        final(text)@ == old(text)@ + literal(value as nat),
{
    proof {
        reveal_strlit("0x");
    }
    text.append("0x");
    push_digits(text, value);
}

} // verus!
