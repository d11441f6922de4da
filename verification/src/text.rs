//! Verified rendering of integers as decimal text, shared by the
//! preference renderer, the policy-registry planner and the log
//! timestamp formatter.

use vstd::prelude::*;
use vstd::string::StringExecFns;

verus! {

/// The decimal digit character for a value below ten.
pub open spec fn digit_char(d: nat) -> char {
    if d == 0 {
        '0'
    } else if d == 1 {
        '1'
    } else if d == 2 {
        '2'
    } else if d == 3 {
        '3'
    } else if d == 4 {
        '4'
    } else if d == 5 {
        '5'
    } else if d == 6 {
        '6'
    } else if d == 7 {
        '7'
    } else if d == 8 {
        '8'
    } else {
        '9'
    }
}

/// Decimal digits of `n`, most significant first, without leading
/// zeros; zero itself is a single `'0'`.
pub open spec fn dec_digits(n: nat) -> Seq<char>
    decreases n,
{
    if n < 10 {
        seq![digit_char(n)]
    } else {
        dec_digits(n / 10) + seq![digit_char(n % 10)]
    }
}

/// Decimal text of a possibly negative value: a `'-'` sign followed by
/// the digits of the magnitude.
pub open spec fn int_dec(n: int) -> Seq<char> {
    if n < 0 {
        seq!['-'] + dec_digits((-n) as nat)
    } else {
        dec_digits(n as nat)
    }
}

/// `n` zero-padded to two digits.
pub open spec fn pad2(n: nat) -> Seq<char> {
    if n < 10 {
        seq!['0'] + dec_digits(n)
    } else {
        dec_digits(n)
    }
}

/// `n` zero-padded to three digits.
pub open spec fn pad3(n: nat) -> Seq<char> {
    if n < 10 {
        seq!['0', '0'] + dec_digits(n)
    } else if n < 100 {
        seq!['0'] + dec_digits(n)
    } else {
        dec_digits(n)
    }
}

fn digit_str(d: u64) -> (r: &'static str)
    requires
        d < 10,
    ensures
        r@ == seq![digit_char(d as nat)],
{
    let r: &'static str = if d == 0 {
        "0"
    } else if d == 1 {
        "1"
    } else if d == 2 {
        "2"
    } else if d == 3 {
        "3"
    } else if d == 4 {
        "4"
    } else if d == 5 {
        "5"
    } else if d == 6 {
        "6"
    } else if d == 7 {
        "7"
    } else if d == 8 {
        "8"
    } else {
        "9"
    };
    proof {
        reveal_strlit("0");
        reveal_strlit("1");
        reveal_strlit("2");
        reveal_strlit("3");
        reveal_strlit("4");
        reveal_strlit("5");
        reveal_strlit("6");
        reveal_strlit("7");
        reveal_strlit("8");
        reveal_strlit("9");
        assert(r@ =~= seq![digit_char(d as nat)]);
    }
    r
}

/// Renders `n` in decimal.
pub fn u64_dec_string(n: u64) -> (r: String)
    ensures
        r@ == dec_digits(n as nat),
    decreases n,
{
    if n < 10 {
        digit_str(n).to_owned()
    } else {
        let mut s = u64_dec_string(n / 10);
        s.append(digit_str(n % 10));
        proof {
            assert(s@ =~= dec_digits(n as nat));
        }
        s
    }
}

/// Renders `n` in decimal, with a sign when negative.
pub fn i64_dec_string(n: i64) -> (r: String)
    ensures
        r@ == int_dec(n as int),
{
    if n >= 0 {
        u64_dec_string(n as u64)
    } else {
        let magnitude: u64 = (-(n as i128)) as u64;
        let mut s = String::from_str("-");
        let digits = u64_dec_string(magnitude);
        s.append(digits.as_str());
        proof {
            reveal_strlit("-");
            assert(s@ =~= int_dec(n as int));
        }
        s
    }
}

/// Renders `n` zero-padded to at least two digits.
pub fn two_digit_string(n: u64) -> (r: String)
    requires
        n < 100,
    ensures
        r@ == pad2(n as nat),
{
    if n < 10 {
        let mut s = String::from_str("0");
        let digits = u64_dec_string(n);
        s.append(digits.as_str());
        proof {
            reveal_strlit("0");
            assert(s@ =~= pad2(n as nat));
        }
        s
    } else {
        u64_dec_string(n)
    }
}

/// Renders `n` zero-padded to at least three digits.
pub fn three_digit_string(n: u64) -> (r: String)
    requires
        n < 1000,
    ensures
        r@ == pad3(n as nat),
{
    if n < 10 {
        let mut s = String::from_str("00");
        let digits = u64_dec_string(n);
        s.append(digits.as_str());
        proof {
            reveal_strlit("00");
            assert(s@ =~= pad3(n as nat));
        }
        s
    } else if n < 100 {
        let mut s = String::from_str("0");
        let digits = u64_dec_string(n);
        s.append(digits.as_str());
        proof {
            reveal_strlit("0");
            assert(s@ =~= pad3(n as nat));
        }
        s
    } else {
        u64_dec_string(n)
    }
}

} // verus!
