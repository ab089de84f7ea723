//! Rendering of the per-case report line.
//!
//! The metric is `data_len / best` in elements per cycle, shown with
//! exactly two decimal places. To keep the arithmetic exact it is computed
//! as a whole count of hundredths, rounded half-up, and rendered in fixed
//! point; a best of zero cycles renders as `inf`, the quotient's limit.

use vstd::prelude::*;
use vstd::string::StringExecFns;

verus! {

/// The decimal digit character for `d`, which must be below ten.
pub open spec fn dec_digit(d: nat) -> char {
    if d == 0 {
        '0'
    } else if d == 1 {
        '1'
    } else if d == 2 {
        '2'
    } else if d == 3 {
        '3'
    } else if d == 4 {
        '4'
    } else if d == 5 {
        '5'
    } else if d == 6 {
        '6'
    } else if d == 7 {
        '7'
    } else if d == 8 {
        '8'
    } else {
        '9'
    }
}

/// The decimal digit string of `n`, most significant digit first, with no
/// leading zeros (a single `0` for zero).
pub open spec fn dec_seq(n: nat) -> Seq<char>
    decreases n,
{
    if n < 10 {
        seq![dec_digit(n)]
    } else {
        dec_seq(n / 10).push(dec_digit(n % 10))
    }
}

/// The metric in hundredths: `100 * data_len / best`, rounded half-up to
/// the nearest whole number of hundredths.
pub open spec fn centi_throughput(data_len: nat, best: nat) -> nat
    recommends
        best > 0,
{
    (200 * data_len + best) / (2 * best)
}

/// The fixed-point rendering of a count of hundredths: the whole part in
/// decimal, a dot, then exactly two fractional digits.
pub open spec fn fixed2_seq(centi: nat) -> Seq<char> {
    dec_seq(centi / 100) + seq![
        '.',
        dec_digit((centi / 10) % 10),
        dec_digit(centi % 10),
    ]
}

/// The rendered metric: `data_len / best` to two decimal places, or `inf`
/// when `best` is zero.
pub open spec fn metric_seq(data_len: nat, best: nat) -> Seq<char> {
    if best == 0 {
        "inf"@
    } else {
        fixed2_seq(centi_throughput(data_len, best))
    }
}

/// The whole report line for one case.
pub open spec fn report_seq(level: nat, data_len: nat, best: nat) -> Seq<char> {
    "Level "@ + dec_seq(level) + ": Elements/cycle: "@ + metric_seq(data_len, best)
}

/// The one-character string for a decimal digit.
fn digit_str(d: u128) -> (s: &'static str)
    requires
        d < 10,
    ensures
        s@ == seq![dec_digit(d as nat)],
{
    if d == 0 {
        proof {
            reveal_strlit("0");
            assert("0"@ =~= seq![dec_digit(0)]);
        }
        "0"
    } else if d == 1 {
        proof {
            reveal_strlit("1");
            assert("1"@ =~= seq![dec_digit(1)]);
        }
        "1"
    } else if d == 2 {
        proof {
            reveal_strlit("2");
            assert("2"@ =~= seq![dec_digit(2)]);
        }
        "2"
    } else if d == 3 {
        proof {
            reveal_strlit("3");
            assert("3"@ =~= seq![dec_digit(3)]);
        }
        "3"
    } else if d == 4 {
        proof {
            reveal_strlit("4");
            assert("4"@ =~= seq![dec_digit(4)]);
        }
        "4"
    } else if d == 5 {
        proof {
            reveal_strlit("5");
            assert("5"@ =~= seq![dec_digit(5)]);
        }
        "5"
    } else if d == 6 {
        proof {
            reveal_strlit("6");
            assert("6"@ =~= seq![dec_digit(6)]);
        }
        "6"
    } else if d == 7 {
        proof {
            reveal_strlit("7");
            assert("7"@ =~= seq![dec_digit(7)]);
        }
        "7"
    } else if d == 8 {
        proof {
            reveal_strlit("8");
            assert("8"@ =~= seq![dec_digit(8)]);
        }
        "8"
    } else {
        proof {
            reveal_strlit("9");
            assert("9"@ =~= seq![dec_digit(9)]);
        }
        "9"
    }
}

/// The decimal rendering of `n`, most significant digit first.
pub fn decimal_string(n: u128) -> (s: String)
    ensures
        s@ == dec_seq(n as nat),
    decreases n,
{
    if n < 10 {
        let mut s = String::new();
        s.append(digit_str(n));
        proof {
            assert(s@ =~= dec_seq(n as nat));
        }
        s
    } else {
        let mut s = decimal_string(n / 10);
        s.append(digit_str(n % 10));
        proof {
            assert(s@ =~= dec_seq(n as nat));
        }
        s
    }
}

/// The rendered metric for one case: `data_len / best` elements per cycle
/// to two decimal places, rounded half-up, or `inf` when `best` is zero.
pub fn format_metric(data_len: usize, best: u64) -> (s: String)
    ensures
        s@ == metric_seq(data_len as nat, best as nat),
{
    if best == 0 {
        let s = String::from_str("inf");
        s
    } else {
        let n: u128 = data_len as u128;
        let b: u128 = best as u128;
        let centi: u128 = (200 * n + b) / (2 * b);
        let mut s = decimal_string(centi / 100);
        s.append(".");
        s.append(digit_str((centi / 10) % 10));
        s.append(digit_str(centi % 10));
        proof {
            reveal_strlit(".");
            assert(s@ =~= fixed2_seq(centi_throughput(data_len as nat, best as nat)));
        }
        s
    }
}

/// The whole report line for one case, for example
/// `Level 1: Elements/cycle: 2.10`.
pub fn report_line(level: u64, data_len: usize, best: u64) -> (s: String)
    ensures
        s@ == report_seq(level as nat, data_len as nat, best as nat),
{
    let mut s = String::from_str("Level ");
    let lvl = decimal_string(level as u128);
    s.append(lvl.as_str());
    s.append(": Elements/cycle: ");
    let metric = format_metric(data_len, best);
    s.append(metric.as_str());
    s
}

} // verus!
