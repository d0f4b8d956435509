//! Decimal rendering of amounts.
//!
//! Amounts are integers in hundred-thousandths of a forint. The display form
//! rounds to two decimals (whole fillér), half away from zero, as the
//! breakdown text shows it. The exact form prints the amount without any
//! rounding, with up to five decimals and no trailing zeros, as the CSV
//! export writes it.

use vstd::prelude::*;

use crate::calc::MAX_AMOUNT_UNITS;
use crate::calc::UNITS_PER_FILLER;
use crate::calc::UNITS_PER_FORINT;

verus! {

/// The decimal digit character for `d` in 0..=9.
pub open spec fn digit_char(d: int) -> char {
    if d == 0 {
        '0'
    } else if d == 1 {
        '1'
    } else if d == 2 {
        '2'
    } else if d == 3 {
        '3'
    } else if d == 4 {
        '4'
    } else if d == 5 {
        '5'
    } else if d == 6 {
        '6'
    } else if d == 7 {
        '7'
    } else if d == 8 {
        '8'
    } else {
        '9'
    }
}

/// The decimal digits of `n`, most significant first, without leading zeros
/// (a single `'0'` for zero).
pub open spec fn dec_of(n: nat) -> Seq<char>
    decreases n,
{
    if n < 10 {
        seq![digit_char(n as int)]
    } else {
        dec_of(n / 10).push(digit_char((n % 10) as int))
    }
}

/// The magnitude of `v`.
pub open spec fn abs_of(v: int) -> int {
    if v >= 0 {
        v
    } else {
        -v
    }
}

/// The magnitude of `v` in fillér (hundredths of a forint), rounded half
/// away from zero.
pub open spec fn rounded_cents(v: int) -> int {
    (abs_of(v) + 500) / (UNITS_PER_FILLER as int)
}

/// Exactly two digits for a fraction `f` in 0..=99.
pub open spec fn two_digits(f: nat) -> Seq<char> {
    seq![digit_char((f / 10) as int), digit_char((f % 10) as int)]
}

/// The display form of an amount: forints with exactly two decimals,
/// rounded half away from zero, with a leading minus sign when the rounded
/// value is below zero.
pub open spec fn money_string(v: int) -> Seq<char> {
    let c = rounded_cents(v);
    let sign: Seq<char> = if v < 0 && c != 0 {
        seq!['-']
    } else {
        Seq::empty()
    };
    sign + dec_of((c / 100) as nat) + seq!['.'] + two_digits((c % 100) as nat)
}

/// All five digits of a fraction `f` in 0..=99999, most significant first.
pub open spec fn pad5(f: nat) -> Seq<char> {
    seq![
        digit_char((f / 10000) as int),
        digit_char(((f / 1000) % 10) as int),
        digit_char(((f / 100) % 10) as int),
        digit_char(((f / 10) % 10) as int),
        digit_char((f % 10) as int),
    ]
}

/// How many of the five fraction digits stay once trailing zeros go
/// (meaningful for `f != 0`).
pub open spec fn keep_count(f: nat) -> int {
    if f % 10 != 0 {
        5
    } else if f % 100 != 0 {
        4
    } else if f % 1000 != 0 {
        3
    } else if f % 10000 != 0 {
        2
    } else {
        1
    }
}

/// The exact form of an amount: forints, a `'.'` and the fraction digits
/// without trailing zeros only when the fraction is not zero, and a leading
/// minus sign for negative amounts.
pub open spec fn exact_decimal(v: int) -> Seq<char> {
    let m = abs_of(v);
    let ip = m / (UNITS_PER_FORINT as int);
    let f = m % (UNITS_PER_FORINT as int);
    let sign: Seq<char> = if v < 0 {
        seq!['-']
    } else {
        Seq::empty()
    };
    sign + dec_of(ip as nat) + (if f == 0 {
        Seq::empty()
    } else {
        seq!['.'] + pad5(f as nat).take(keep_count(f as nat))
    })
}

/// The one-character string for a decimal digit.
pub fn digit_str(d: u64) -> (s: &'static str)
    requires
        d < 10,
    ensures
        s@ == seq![digit_char(d as int)],
{
    proof {
        reveal_strlit("0");
        reveal_strlit("1");
        reveal_strlit("2");
        reveal_strlit("3");
        reveal_strlit("4");
        reveal_strlit("5");
        reveal_strlit("6");
        reveal_strlit("7");
        reveal_strlit("8");
        reveal_strlit("9");
    }
    let s = match d {
        0 => "0",
        1 => "1",
        2 => "2",
        3 => "3",
        4 => "4",
        5 => "5",
        6 => "6",
        7 => "7",
        8 => "8",
        _ => "9",
    };
    proof {
        assert(s@ =~= seq![digit_char(d as int)]);
    }
    s
}

/// Appends the decimal digits of `n` to `out`.
pub fn push_decimal_digits(out: &mut String, n: u64)
    ensures
        final(out)@ == old(out)@ + dec_of(n as nat),
    decreases n,
{
    if n >= 10 {
        push_decimal_digits(out, n / 10);
        let d = digit_str(n % 10);
        out.append(d);
        proof {
            assert(out@ =~= old(out)@ + dec_of(n as nat));
        }
    } else {
        out.append(digit_str(n));
        proof {
            assert(out@ =~= old(out)@ + dec_of(n as nat));
        }
    }
}

/// Renders an amount in its display form: forints with two decimals,
/// rounded half away from zero.
pub fn money_to_string(v: i64) -> (s: String)
    requires
        -MAX_AMOUNT_UNITS <= v <= MAX_AMOUNT_UNITS,
    ensures
        s@ == money_string(v as int),
{
    let neg = v < 0;
    let m: u64 = if neg {
        (-v) as u64
    } else {
        v as u64
    };
    proof {
        assert(m == abs_of(v as int));
    }
    let c: u64 = (m + 500) / (UNITS_PER_FILLER as u64);
    let mut s = String::new();
    if neg && c != 0 {
        proof {
            reveal_strlit("-");
        }
        s.append("-");
    }
    push_decimal_digits(&mut s, c / 100);
    proof {
        reveal_strlit(".");
    }
    s.append(".");
    let f = c % 100;
    s.append(digit_str(f / 10));
    s.append(digit_str(f % 10));
    proof {
        assert(s@ =~= money_string(v as int));
    }
    s
}

/// Renders an amount in its exact form: forints with up to five decimals
/// and no trailing zeros, nothing rounded away.
#[verifier::rlimit(30)]
pub fn exact_decimal_string(v: i64) -> (s: String)
    requires
        -MAX_AMOUNT_UNITS <= v <= MAX_AMOUNT_UNITS,
    ensures
        s@ == exact_decimal(v as int),
{
    let neg = v < 0;
    let m: u64 = if neg {
        (-v) as u64
    } else {
        v as u64
    };
    proof {
        assert(m == abs_of(v as int));
    }
    let mut s = String::new();
    if neg {
        proof {
            reveal_strlit("-");
        }
        s.append("-");
    }
    push_decimal_digits(&mut s, m / (UNITS_PER_FORINT as u64));
    let f = m % (UNITS_PER_FORINT as u64);
    if f != 0 {
        proof {
            reveal_strlit(".");
        }
        s.append(".");
        s.append(digit_str(f / 10000));
        if f % 10000 != 0 {
            s.append(digit_str((f / 1000) % 10));
            if f % 1000 != 0 {
                s.append(digit_str((f / 100) % 10));
                if f % 100 != 0 {
                    s.append(digit_str((f / 10) % 10));
                    if f % 10 != 0 {
                        s.append(digit_str(f % 10));
                    }
                }
            }
        }
    }
    proof {
        assert(s@ =~= exact_decimal(v as int));
    }
    s
}

} // verus!
