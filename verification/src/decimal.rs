//! Decimal rendering of the reporter's figures.
//!
//! Everything textual the reporter emits is specified down to the
//! character: plain decimal, two fixed fractional digits, and
//! locale-style three-digit grouping (the grouping itself is produced by
//! the `num-format` crate; its output is pinned to [`grouped_spec`]).

use vstd::prelude::*;

verus! {

/// The decimal digit character for `d` (0 through 9).
pub open spec fn digit_char(d: int) -> char {
    if d == 0 {
        '0'
    } else if d == 1 {
        '1'
    } else if d == 2 {
        '2'
    } else if d == 3 {
        '3'
    } else if d == 4 {
        '4'
    } else if d == 5 {
        '5'
    } else if d == 6 {
        '6'
    } else if d == 7 {
        '7'
    } else if d == 8 {
        '8'
    } else {
        '9'
    }
}

/// The usual decimal rendering of a nonnegative integer, no sign, no
/// leading zeros (a single zero for 0).
pub open spec fn dec_spec(n: int) -> Seq<char>
    recommends
        0 <= n,
    decreases n,
{
    if n < 10 {
        seq![digit_char(n)]
    } else {
        dec_spec(n / 10).push(digit_char(n % 10))
    }
}

/// Exactly two decimal digits, zero-padded; for the fractional part of a
/// two-decimal fixed-point figure.
pub open spec fn pad2_spec(n: int) -> Seq<char> {
    seq![digit_char(n / 10), digit_char(n % 10)]
}

/// Exactly three decimal digits, zero-padded; for a grouped triple.
pub open spec fn pad3_spec(n: int) -> Seq<char> {
    seq![digit_char(n / 100), digit_char((n / 10) % 10), digit_char(n % 10)]
}

/// Decimal rendering with a comma between three-digit groups, as the `en`
/// locale writes large counts.
pub open spec fn grouped_spec(n: int) -> Seq<char>
    recommends
        0 <= n,
    decreases n,
{
    if n < 1000 {
        dec_spec(n)
    } else {
        grouped_spec(n / 1000) + seq![','] + pad3_spec(n % 1000)
    }
}

/// `v` hundredths rendered as a fixed-point figure with two decimals
/// ("12.05" for 1205).
pub open spec fn fixed2_spec(v: int) -> Seq<char> {
    dec_spec(v / 100) + seq!['.'] + pad2_spec(v % 100)
}

/// The one-character string for a decimal digit.
pub fn digit_str(d: u8) -> (s: &'static str)
    requires
        d < 10,
    ensures
        s@ == seq![digit_char(d as int)],
{
    proof {
        reveal_strlit("0");
        reveal_strlit("1");
        reveal_strlit("2");
        reveal_strlit("3");
        reveal_strlit("4");
        reveal_strlit("5");
        reveal_strlit("6");
        reveal_strlit("7");
        reveal_strlit("8");
        reveal_strlit("9");
    }
    let s: &'static str = match d {
        0 => "0",
        1 => "1",
        2 => "2",
        3 => "3",
        4 => "4",
        5 => "5",
        6 => "6",
        7 => "7",
        8 => "8",
        _ => "9",
    };
    proof {
        assert(s@ =~= seq![digit_char(d as int)]);
    }
    s
}

/// Plain decimal rendering of `n`.
pub fn dec_u128(n: u128) -> (s: String)
    ensures
        s@ == dec_spec(n as int),
    decreases n,
{
    if n < 10 {
        let s = digit_str(n as u8).to_owned();
        proof {
            assert(s@ =~= dec_spec(n as int));
        }
        s
    } else {
        let mut s = dec_u128(n / 10);
        s.append(digit_str((n % 10) as u8));
        proof {
            assert(s@ =~= dec_spec(n as int));
        }
        s
    }
}

/// Two-decimal fixed-point rendering of `v` hundredths.
pub fn fixed2_u128(v: u128) -> (s: String)
    ensures
        s@ == fixed2_spec(v as int),
{
    let mut s = dec_u128(v / 100);
    s.append(".");
    let f: u128 = v % 100;
    s.append(digit_str((f / 10) as u8));
    s.append(digit_str((f % 10) as u8));
    proof {
        reveal_strlit(".");
        assert(s@ =~= fixed2_spec(v as int));
    }
    s
}

/// Division rounded to the nearest integer, halves upward: `(n + d/2) / d`.
pub fn div_round_half_up(n: u128, d: u128) -> (q: u128)
    requires
        0 < d,
    ensures
        q as int == (n + d / 2) as int / d as int,
{
    let half: u128 = d / 2;
    let q0: u128 = n / d;
    let rem: u128 = n % d;
    proof {
        vstd::arithmetic::div_mod::lemma_fundamental_div_mod(n as int, d as int);
    }
    if rem >= d - half {
        proof {
            assert(d >= 2) by {
                if d == 1 {
                    assert(rem == 0);
                }
            }
            assert(q0 < u128::MAX) by (nonlinear_arith)
                requires
                    d as int * q0 + rem == n,
                    n <= u128::MAX,
                    1 <= rem,
                    2 <= d,
                    0 <= q0,
            ;
            assert(d as int * (q0 + 1) == d as int * q0 + d) by (nonlinear_arith);
            vstd::arithmetic::div_mod::lemma_div_multiples_vanish_fancy(
                q0 as int + 1,
                rem as int + half - d,
                d as int,
            );
        }
        q0 + 1
    } else {
        proof {
            vstd::arithmetic::div_mod::lemma_div_multiples_vanish_fancy(
                q0 as int,
                rem as int + half,
                d as int,
            );
        }
        q0
    }
}

/// Grouped decimal rendering of `n`.
///
/// Relies on `num_format::ToFormattedString::to_formatted_string` with the
/// `en` locale, whose grouping is `Grouping::Standard` (three-digit groups)
/// with `,` as the separator.
#[verifier::external_body]
pub fn grouped_u128(n: u128) -> (s: String)
    ensures
        s@ == grouped_spec(n as int),
{
    num_format::ToFormattedString::to_formatted_string(&n, &num_format::Locale::en)
}

} // verus!
