//! Writing numbers as text: one digit, a number in decimal, and a byte in
//! the `0x..` form that the status lines use.

use vstd::prelude::*;
use vstd::string::StringExecFns;

verus! {

/// The strings of a list, each as its characters.
pub open spec fn texts(list: Seq<String>) -> Seq<Seq<char>> {
    list.map_values(|t: String| t@)
}

/// The character for one digit below sixteen, letters in lower case.
pub open spec fn spec_digit(n: int) -> char {
    if n == 0 {
        '0'
    } else if n == 1 {
        '1'
    } else if n == 2 {
        '2'
    } else if n == 3 {
        '3'
    } else if n == 4 {
        '4'
    } else if n == 5 {
        '5'
    } else if n == 6 {
        '6'
    } else if n == 7 {
        '7'
    } else if n == 8 {
        '8'
    } else if n == 9 {
        '9'
    } else if n == 10 {
        'a'
    } else if n == 11 {
        'b'
    } else if n == 12 {
        'c'
    } else if n == 13 {
        'd'
    } else if n == 14 {
        'e'
    } else {
        'f'
    }
}

/// A number in decimal, without leading zeros.
pub open spec fn spec_decimal(n: nat) -> Seq<char>
    decreases n,
{
    if n < 10 {
        seq![spec_digit(n as int)]
    } else {
        spec_decimal(n / 10).push(spec_digit((n % 10) as int))
    }
}

/// A byte as `0x` and two hexadecimal digits.
pub open spec fn spec_hex_byte(b: u8) -> Seq<char> {
    seq!['0', 'x', spec_digit(b as int / 16), spec_digit(b as int % 16)]
}

/// The text of one digit below sixteen.
pub(crate) fn digit_text(n: u8) -> (t: &'static str)
    requires
        n < 16,
    ensures
        t@ == seq![spec_digit(n as int)],
{
    let t = match n {
        0 => "0",
        1 => "1",
        2 => "2",
        3 => "3",
        4 => "4",
        5 => "5",
        6 => "6",
        7 => "7",
        8 => "8",
        9 => "9",
        10 => "a",
        11 => "b",
        12 => "c",
        13 => "d",
        14 => "e",
        _ => "f",
    };
    proof {
        reveal_strlit("0");
        reveal_strlit("1");
        reveal_strlit("2");
        reveal_strlit("3");
        reveal_strlit("4");
        reveal_strlit("5");
        reveal_strlit("6");
        reveal_strlit("7");
        reveal_strlit("8");
        reveal_strlit("9");
        reveal_strlit("a");
        reveal_strlit("b");
        reveal_strlit("c");
        reveal_strlit("d");
        reveal_strlit("e");
        reveal_strlit("f");
        assert(t@ =~= seq![spec_digit(n as int)]);
    }
    t
}

/// A number in decimal, without leading zeros.
pub fn decimal(n: u64) -> (s: String)
    ensures
        s@ == spec_decimal(n as nat),
    decreases n,
{
    if n < 10 {
        let s = String::from_str(digit_text(n as u8));
        s
    } else {
        let mut s = decimal(n / 10);
        s.append(digit_text((n % 10) as u8));
        proof {
            assert(s@ =~= spec_decimal(n as nat));
        }
        s
    }
}

/// A byte as `0x` and two hexadecimal digits.
pub fn hex_byte(b: u8) -> (s: String)
    ensures
        s@ == spec_hex_byte(b),
{
    let mut s = String::from_str("0x");
    s.append(digit_text(b / 16));
    s.append(digit_text(b % 16));
    proof {
        reveal_strlit("0x");
        assert(s@ =~= spec_hex_byte(b));
    }
    s
}

} // verus!
