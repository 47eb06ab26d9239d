//! Decimal rendering of integers for HUD and campaign copy.
use vstd::prelude::*;

verus! {

/// The character of one decimal digit.
pub open spec fn digit_char(d: int) -> char {
    if d == 0 {
        '0'
    } else if d == 1 {
        '1'
    } else if d == 2 {
        '2'
    } else if d == 3 {
        '3'
    } else if d == 4 {
        '4'
    } else if d == 5 {
        '5'
    } else if d == 6 {
        '6'
    } else if d == 7 {
        '7'
    } else if d == 8 {
        '8'
    } else {
        '9'
    }
}

/// The decimal digits of `n`, most significant first, no leading zeros.
pub open spec fn dec(n: nat) -> Seq<char>
    decreases n,
{
    if n < 10 {
        seq![digit_char(n as int)]
    } else {
        dec(n / 10).push(digit_char((n % 10) as int))
    }
}

/// `i` in decimal, with a leading `-` when negative.
pub open spec fn signed_dec(i: int) -> Seq<char> {
    if i < 0 {
        seq!['-'] + dec((-i) as nat)
    } else {
        dec(i as nat)
    }
}

/// `n` in at least two digits, zero padded.
pub open spec fn dec2(n: nat) -> Seq<char> {
    if n < 10 {
        seq!['0'] + dec(n)
    } else {
        dec(n)
    }
}

fn digit_str(d: u64) -> (s: &'static str)
    requires
        d < 10,
    ensures
        s@ == seq![digit_char(d as int)],
{
    proof {
        reveal_strlit("0");
        reveal_strlit("1");
        reveal_strlit("2");
        reveal_strlit("3");
        reveal_strlit("4");
        reveal_strlit("5");
        reveal_strlit("6");
        reveal_strlit("7");
        reveal_strlit("8");
        reveal_strlit("9");
    }
    if d == 0 {
        "0"
    } else if d == 1 {
        "1"
    } else if d == 2 {
        "2"
    } else if d == 3 {
        "3"
    } else if d == 4 {
        "4"
    } else if d == 5 {
        "5"
    } else if d == 6 {
        "6"
    } else if d == 7 {
        "7"
    } else if d == 8 {
        "8"
    } else {
        "9"
    }
}

/// Appends `n` in decimal.
pub fn push_decimal(s: &mut String, n: u64)
    ensures
        final(s)@ == old(s)@ + dec(n as nat),
    decreases n,
{
    if n >= 10 {
        push_decimal(s, n / 10);
    }
    let d = digit_str(n % 10);
    s.append(d);
    proof {
        if n < 10 {
            assert(n % 10 == n);
        }
        assert(dec(n as nat) == if n < 10 {
            seq![digit_char(n as int)]
        } else {
            dec((n / 10) as nat).push(digit_char((n % 10) as int))
        });
    }
}

/// Appends a signed value in decimal.
pub fn push_signed(s: &mut String, i: i64)
    ensures
        final(s)@ == old(s)@ + signed_dec(i as int),
{
    if i < 0 {
        proof {
            reveal_strlit("-");
        }
        s.append("-");
        let m: u64 = if i == i64::MIN {
            9223372036854775808u64
        } else {
            (-i) as u64
        };
        push_decimal(s, m);
    } else {
        push_decimal(s, i as u64);
    }
}

/// Appends `n` zero padded to two digits, as `{:02}` does.
pub fn push_decimal2(s: &mut String, n: u64)
    ensures
        final(s)@ == old(s)@ + dec2(n as nat),
{
    if n < 10 {
        proof {
            reveal_strlit("0");
        }
        s.append("0");
    }
    push_decimal(s, n);
}

/// `n` as a fresh string.
pub fn decimal(n: u64) -> (s: String)
    ensures
        s@ == dec(n as nat),
{
    let mut s = String::new();
    push_decimal(&mut s, n);
    s
}

/// `i` as a fresh string.
pub fn signed_decimal(i: i64) -> (s: String)
    ensures
        s@ == signed_dec(i as int),
{
    let mut s = String::new();
    push_signed(&mut s, i);
    s
}

/// A string holding exactly the given text.
pub fn owned(t: &str) -> (s: String)
    ensures
        s@ == t@,
{
    let mut s = String::new();
    s.append(t);
    s
}

} // verus!
