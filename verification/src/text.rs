//! Decimal rendering of unsigned integers, shared by the modules that report
//! counts and settings.

use vstd::prelude::*;

verus! {

/// The character that stands for a single decimal digit.
pub open spec fn digit(d: int) -> char
    recommends
        0 <= d < 10,
{
    if d == 0 {
        '0'
    } else if d == 1 {
        '1'
    } else if d == 2 {
        '2'
    } else if d == 3 {
        '3'
    } else if d == 4 {
        '4'
    } else if d == 5 {
        '5'
    } else if d == 6 {
        '6'
    } else if d == 7 {
        '7'
    } else if d == 8 {
        '8'
    } else {
        '9'
    }
}

/// The decimal numeral of `n`: most significant digit first, no leading zero
/// except for zero itself.
pub open spec fn decimal(n: nat) -> Seq<char>
    decreases n,
{
    if n < 10 {
        seq![digit(n as int)]
    } else {
        decimal(n / 10).push(digit((n % 10) as int))
    }
}

/// A numeral is never empty.
pub proof fn lemma_decimal_nonempty(n: nat)
    ensures
        decimal(n).len() >= 1,
    decreases n,
{
    if n >= 10 {
        lemma_decimal_nonempty(n / 10);
    }
}

/// The one-character string of a decimal digit.
fn digit_str(d: usize) -> (s: &'static str)
    requires
        d < 10,
    ensures
        s@ == seq![digit(d as int)],
{
    proof {
        reveal_strlit("0");
        reveal_strlit("1");
        reveal_strlit("2");
        reveal_strlit("3");
        reveal_strlit("4");
        reveal_strlit("5");
        reveal_strlit("6");
        reveal_strlit("7");
        reveal_strlit("8");
        reveal_strlit("9");
    }
    let s = if d == 0 {
        "0"
    } else if d == 1 {
        "1"
    } else if d == 2 {
        "2"
    } else if d == 3 {
        "3"
    } else if d == 4 {
        "4"
    } else if d == 5 {
        "5"
    } else if d == 6 {
        "6"
    } else if d == 7 {
        "7"
    } else if d == 8 {
        "8"
    } else {
        "9"
    };
    assert(s@ =~= seq![digit(d as int)]);
    s
}

/// Renders `n` in decimal.
pub fn decimal_string(n: usize) -> (s: String)
    ensures
        s@ == decimal(n as nat),
    decreases n,
{
    if n < 10 {
        String::from_str(digit_str(n))
    } else {
        let mut s = decimal_string(n / 10);
        s.append(digit_str(n % 10));
        assert(s@ =~= decimal(n as nat));
        s
    }
}

/// An amount of cents written in units: the units in decimal, a point, and
/// the remaining cents in two digits.
pub open spec fn amount(cents: nat) -> Seq<char> {
    decimal(cents / 100) + seq!['.', digit((cents / 10 % 10) as int), digit((cents % 10) as int)]
}

/// Renders an amount of cents in units.
pub fn amount_string(cents: usize) -> (s: String)
    ensures
        s@ == amount(cents as nat),
{
    proof {
        reveal_strlit(".");
    }
    let mut s = decimal_string(cents / 100);
    s.append(".");
    s.append(digit_str(cents / 10 % 10));
    s.append(digit_str(cents % 10));
    assert(s@ =~= amount(cents as nat));
    s
}

/// A reading in tenths of a unit, written in units: a minus sign if it is
/// below zero, the whole units in decimal, and, unless it is zero, the tenth
/// behind a point.
pub open spec fn tenths(reading: int) -> Seq<char> {
    let size = if reading < 0 {
        -reading
    } else {
        reading
    };
    let sign = if reading < 0 {
        seq!['-']
    } else {
        Seq::empty()
    };
    let fraction = if size % 10 == 0 {
        Seq::empty()
    } else {
        seq!['.', digit(size % 10)]
    };
    sign + decimal((size / 10) as nat) + fraction
}

/// Renders a reading in tenths of a unit in units.
pub fn tenths_string(reading: i32) -> (s: String)
    ensures
        s@ == tenths(reading as int),
{
    proof {
        reveal_strlit("-");
        reveal_strlit(".");
    }
    let wide: i64 = reading as i64;
    let size: i64 = if wide < 0 {
        -wide
    } else {
        wide
    };
    let size: usize = size as usize;
    let mut s = String::new();
    if reading < 0 {
        s.append("-");
    }
    s.append(decimal_string(size / 10).as_str());
    if size % 10 != 0 {
        s.append(".");
        s.append(digit_str(size % 10));
    }
    assert(s@ =~= tenths(reading as int));
    s
}

} // verus!
