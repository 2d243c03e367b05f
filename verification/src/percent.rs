//! Failure rates, kept exact as tenths of a percent, and their decimal text.

use vstd::arithmetic::div_mod::lemma_fundamental_div_mod;
use vstd::prelude::*;
use vstd::string::StringExecFns;

verus! {

/// The failure rate of `failures` out of `total` runs in tenths of a percent,
/// rounded to the nearest tenth; a rate exactly halfway between two tenths
/// goes to the even one.
pub open spec fn percent_tenths(failures: nat, total: nat) -> nat
    recommends
        total > 0,
{
    let scaled = failures * 1000;
    let quotient = scaled / total;
    let rest = scaled % total;
    if 2 * rest > total || (2 * rest == total && quotient % 2 == 1) {
        quotient + 1
    } else {
        quotient
    }
}

/// The character of one decimal digit.
pub open spec fn digit_char(digit: nat) -> char
    recommends
        digit < 10,
{
    if digit == 0 {
        '0'
    } else if digit == 1 {
        '1'
    } else if digit == 2 {
        '2'
    } else if digit == 3 {
        '3'
    } else if digit == 4 {
        '4'
    } else if digit == 5 {
        '5'
    } else if digit == 6 {
        '6'
    } else if digit == 7 {
        '7'
    } else if digit == 8 {
        '8'
    } else {
        '9'
    }
}

/// The decimal numeral of `n`, most significant digit first, without leading zeros.
pub open spec fn decimal(n: nat) -> Seq<char>
    decreases n,
{
    if n < 10 {
        seq![digit_char(n)]
    } else {
        decimal(n / 10).push(digit_char(n % 10))
    }
}

/// The text of a rate of `tenths` tenths of a percent: the whole percents, a
/// point, one decimal and the percent sign.
pub open spec fn percent_text(tenths: nat) -> Seq<char> {
    decimal(tenths / 10) + seq!['.', digit_char(tenths % 10), '%']
}

/// A share of failing runs, as an exact number of tenths of a percent.
#[derive(Debug, Clone, Copy, PartialEq, Eq, Structural)]
pub struct Percent {
    pub tenths: u128,
}

impl Percent {
    /// Renders this rate with one decimal place, as in `2.0%`.
    pub fn to_text(&self) -> (text: String)
        ensures
            text@ == percent_text(self.tenths as nat),
    {
        let mut text = String::new();
        push_decimal(&mut text, self.tenths / 10);
        proof {
            reveal_strlit(".");
            reveal_strlit("%");
        }
        text.append(".");
        text.append(digit_str((self.tenths % 10) as u8));
        text.append("%");
        text
    }
}

/// Computes the share of `nb_errors` failing runs among `runs` runs.
pub fn percent_of_error_found(nb_errors: u64, runs: u64) -> (rate: Percent)
    requires
        runs > 0,
    ensures
        rate.tenths == percent_tenths(nb_errors as nat, runs as nat),
{
    let scaled: u128 = (nb_errors as u128) * 1000;
    let total: u128 = runs as u128;
    let quotient: u128 = scaled / total;
    let rest: u128 = scaled % total;
    let tenths: u128 = if 2 * rest > total || (2 * rest == total && quotient % 2 == 1) {
        quotient + 1
    } else {
        quotient
    };
    Percent { tenths }
}

/// The one-character text of a decimal digit.
fn digit_str(digit: u8) -> (text: &'static str)
    requires
        digit < 10,
    ensures
        text@ == seq![digit_char(digit as nat)],
{
    proof {
        reveal_strlit("0");
        reveal_strlit("1");
        reveal_strlit("2");
        reveal_strlit("3");
        reveal_strlit("4");
        reveal_strlit("5");
        reveal_strlit("6");
        reveal_strlit("7");
        reveal_strlit("8");
        reveal_strlit("9");
    }
    let text = if digit == 0 {
        "0"
    } else if digit == 1 {
        "1"
    } else if digit == 2 {
        "2"
    } else if digit == 3 {
        "3"
    } else if digit == 4 {
        "4"
    } else if digit == 5 {
        "5"
    } else if digit == 6 {
        "6"
    } else if digit == 7 {
        "7"
    } else if digit == 8 {
        "8"
    } else {
        "9"
    };
    text
}

/// Appends the decimal numeral of `n` to `text`.
fn push_decimal(text: &mut String, n: u128)
    ensures
        final(text)@ == old(text)@ + decimal(n as nat),
    decreases n,
{
    if n >= 10 {
        push_decimal(text, n / 10);
    }
    text.append(digit_str((n % 10) as u8));
}

/// A computed rate is a nearest tenth of a percent: it lies no more than
/// half a tenth from the exact ratio `failures * 100 / total`.
pub proof fn law_percent_is_nearest_tenth(failures: nat, total: nat)
    requires
        total > 0,
    ensures
        2 * (percent_tenths(failures, total) * total - failures * 1000) <= total,
        2 * (failures * 1000 - percent_tenths(failures, total) * total) <= total,
{
    let scaled = failures * 1000;
    let quotient = scaled / total;
    let rest = scaled % total;
    lemma_fundamental_div_mod(scaled as int, total as int);
    assert(total * quotient == quotient * total) by (nonlinear_arith);
    assert((quotient + 1) * total == quotient * total + total) by (nonlinear_arith);
}

/// No failure gives a rate of zero, and a run in which every invocation
/// failed gives exactly one hundred percent.
pub proof fn law_percent_extremes(total: nat)
    requires
        total > 0,
    ensures
        percent_tenths(0, total) == 0,
        percent_tenths(total, total) == 1000,
{
    assert(0nat / total == 0 && 0nat % total == 0) by (nonlinear_arith)
        requires
            total > 0,
    ;
    assert((total * 1000) / total == 1000 && (total * 1000) % total == 0) by (nonlinear_arith)
        requires
            total > 0,
    ;
}

} // verus!
