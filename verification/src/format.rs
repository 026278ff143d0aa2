//! Rendering the elapsed time as text: `HH:MM:SS.mmm`, with hours, minutes
//! and seconds zero-padded to two digits (hours growing wider past 99) and
//! milliseconds to three.

use vstd::prelude::*;
use vstd::string::StringExecFns;

verus! {

/// The decimal digit character for `d`.
pub open spec fn digit_char(d: nat) -> char
    recommends
        d < 10,
{
    if d == 0 {
        '0'
    } else if d == 1 {
        '1'
    } else if d == 2 {
        '2'
    } else if d == 3 {
        '3'
    } else if d == 4 {
        '4'
    } else if d == 5 {
        '5'
    } else if d == 6 {
        '6'
    } else if d == 7 {
        '7'
    } else if d == 8 {
        '8'
    } else {
        '9'
    }
}

/// The decimal digits of `n`, most significant first, no leading zeros
/// (a single `'0'` for zero itself).
pub open spec fn dec_digits(n: nat) -> Seq<char>
    decreases n,
{
    if n < 10 {
        seq![digit_char(n)]
    } else {
        dec_digits(n / 10).push(digit_char(n % 10))
    }
}

/// `n` in decimal, zero-padded on the left to at least two digits.
pub open spec fn padded2(n: nat) -> Seq<char> {
    if n < 10 {
        seq!['0'] + dec_digits(n)
    } else {
        dec_digits(n)
    }
}

/// `n` in decimal, zero-padded on the left to at least three digits.
pub open spec fn padded3(n: nat) -> Seq<char> {
    if n < 10 {
        seq!['0', '0'] + dec_digits(n)
    } else if n < 100 {
        seq!['0'] + dec_digits(n)
    } else {
        dec_digits(n)
    }
}

/// `ms` milliseconds of elapsed time as `HH:MM:SS.mmm`.
pub open spec fn elapsed_text(ms: nat) -> Seq<char> {
    padded2(ms / 1000 / 3600) + seq![':'] + padded2(ms / 1000 / 60 % 60) + seq![':'] + padded2(
        ms / 1000 % 60,
    ) + seq!['.'] + padded3(ms % 1000)
}

/// The one-character string for the digit `d`.
fn digit_str(d: u64) -> (s: &'static str)
    requires
        d < 10,
    ensures
        s@ == seq![digit_char(d as nat)],
{
    let s: &'static str = if d == 0 {
        "0"
    } else if d == 1 {
        "1"
    } else if d == 2 {
        "2"
    } else if d == 3 {
        "3"
    } else if d == 4 {
        "4"
    } else if d == 5 {
        "5"
    } else if d == 6 {
        "6"
    } else if d == 7 {
        "7"
    } else if d == 8 {
        "8"
    } else {
        "9"
    };
    proof {
        reveal_strlit("0");
        reveal_strlit("1");
        reveal_strlit("2");
        reveal_strlit("3");
        reveal_strlit("4");
        reveal_strlit("5");
        reveal_strlit("6");
        reveal_strlit("7");
        reveal_strlit("8");
        reveal_strlit("9");
        assert(s@ =~= seq![digit_char(d as nat)]);
    }
    s
}

/// `s` with the decimal digits of `n` appended.
fn with_decimal(s: String, n: u64) -> (r: String)
    ensures
        r@ == s@ + dec_digits(n as nat),
    decreases n,
{
    if n < 10 {
        let mut r = s;
        r.append(digit_str(n));
        r
    } else {
        let mut r = with_decimal(s, n / 10);
        r.append(digit_str(n % 10));
        proof {
            assert(r@ =~= s@ + dec_digits(n as nat));
        }
        r
    }
}

/// `s` with `n` appended, zero-padded to at least two digits.
fn with_padded2(s: String, n: u64) -> (r: String)
    ensures
        r@ == s@ + padded2(n as nat),
{
    let mut r = s;
    if n < 10 {
        r.append("0");
        proof {
            reveal_strlit("0");
        }
    }
    let r2 = with_decimal(r, n);
    proof {
        assert(r2@ =~= s@ + padded2(n as nat));
    }
    r2
}

/// `s` with `n` appended, zero-padded to at least three digits.
fn with_padded3(s: String, n: u64) -> (r: String)
    ensures
        r@ == s@ + padded3(n as nat),
{
    let mut r = s;
    if n < 10 {
        r.append("00");
        proof {
            reveal_strlit("00");
        }
    } else if n < 100 {
        r.append("0");
        proof {
            reveal_strlit("0");
        }
    }
    let r2 = with_decimal(r, n);
    proof {
        assert(r2@ =~= s@ + padded3(n as nat));
    }
    r2
}

/// The elapsed time `ms`, in milliseconds, as `HH:MM:SS.mmm`: two-digit
/// zero-padded hours, minutes and seconds (hours growing wider past 99) and
/// three-digit zero-padded milliseconds.
pub fn format_elapsed(ms: u64) -> (s: String)
    ensures
        s@ == elapsed_text(ms as nat),
{
    let secs = ms / 1000;
    let hours = secs / 3600;
    let minutes = secs / 60 % 60;
    let seconds = secs % 60;
    let millis = ms % 1000;
    let s0 = String::new();
    let mut s1 = with_padded2(s0, hours);
    s1.append(":");
    let mut s2 = with_padded2(s1, minutes);
    s2.append(":");
    let mut s3 = with_padded2(s2, seconds);
    s3.append(".");
    let s4 = with_padded3(s3, millis);
    proof {
        reveal_strlit(":");
        reveal_strlit(".");
        assert(s4@ =~= elapsed_text(ms as nat));
    }
    s4
}

} // verus!
