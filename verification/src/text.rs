//! Decimal text rendering for the display strings of the exact types.

use vstd::prelude::*;

verus! {

pub open spec fn digit_char(n: int) -> char {
    if n == 0 {
        '0'
    } else if n == 1 {
        '1'
    } else if n == 2 {
        '2'
    } else if n == 3 {
        '3'
    } else if n == 4 {
        '4'
    } else if n == 5 {
        '5'
    } else if n == 6 {
        '6'
    } else if n == 7 {
        '7'
    } else if n == 8 {
        '8'
    } else {
        '9'
    }
}

/// The decimal digits of a non-negative number, most significant first.
pub open spec fn dec_digits(n: int) -> Seq<char>
    decreases n,
    when n >= 0
{
    if n < 10 {
        seq![digit_char(n)]
    } else {
        dec_digits(n / 10) + seq![digit_char(n % 10)]
    }
}

/// The usual decimal rendering of an integer, a leading minus sign included.
pub open spec fn dec_str(n: int) -> Seq<char> {
    if n < 0 {
        seq!['-'] + dec_digits(-n)
    } else {
        dec_digits(n)
    }
}

fn digit_str(n: i64) -> (r: &'static str)
    requires
        0 <= n <= 9,
    ensures
        r@ == seq![digit_char(n as int)],
{
    proof {
        reveal_strlit("0");
        reveal_strlit("1");
        reveal_strlit("2");
        reveal_strlit("3");
        reveal_strlit("4");
        reveal_strlit("5");
        reveal_strlit("6");
        reveal_strlit("7");
        reveal_strlit("8");
        reveal_strlit("9");
    }
    if n == 0 {
        "0"
    } else if n == 1 {
        "1"
    } else if n == 2 {
        "2"
    } else if n == 3 {
        "3"
    } else if n == 4 {
        "4"
    } else if n == 5 {
        "5"
    } else if n == 6 {
        "6"
    } else if n == 7 {
        "7"
    } else if n == 8 {
        "8"
    } else {
        "9"
    }
}

pub fn dec_string(n: i64) -> (r: String)
    requires
        -100000 <= n <= 100000,
    ensures
        r@ == dec_str(n as int),
    decreases
            (if n < 0 {
                1int
            } else {
                0int
            }),
            (if n < 0 {
                0int
            } else {
                n as int
            }),
{
    if n < 0 {
        proof {
            reveal_strlit("-");
        }
        let tail = dec_string(-n);
        String::from_str("-").concat(tail.as_str())
    } else if n < 10 {
        String::from_str(digit_str(n))
    } else {
        let head = dec_string(n / 10);
        head.concat(digit_str(n % 10))
    }
}

} // verus!
