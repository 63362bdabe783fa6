//! Decimal texts of integers, as sequences of characters.

use vstd::prelude::*;

verus! {

/// The character of a decimal digit.
pub open spec fn digit_char(d: int) -> char {
    if d == 0 {
        '0'
    } else if d == 1 {
        '1'
    } else if d == 2 {
        '2'
    } else if d == 3 {
        '3'
    } else if d == 4 {
        '4'
    } else if d == 5 {
        '5'
    } else if d == 6 {
        '6'
    } else if d == 7 {
        '7'
    } else if d == 8 {
        '8'
    } else {
        '9'
    }
}

/// The decimal digits of `n`, most significant first, without leading zeros.
pub open spec fn decimal_text(n: nat) -> Seq<char>
    decreases n,
{
    if n < 10 {
        seq![digit_char(n as int)]
    } else {
        decimal_text(n / 10).push(digit_char((n % 10) as int))
    }
}

/// The decimal text of `v`, with a minus sign in front of a negative number.
pub open spec fn signed_decimal_text(v: int) -> Seq<char> {
    if v < 0 {
        seq!['-'] + decimal_text((-v) as nat)
    } else {
        decimal_text(v as nat)
    }
}

/// The decimal text of `n`, filled with zeros on the left up to `width` characters.
pub open spec fn zero_padded(n: nat, width: nat) -> Seq<char> {
    let digits = decimal_text(n);
    if digits.len() >= width {
        digits
    } else {
        Seq::new((width - digits.len()) as nat, |i: int| '0') + digits
    }
}

/// The two digits of a number below one hundred.
pub open spec fn two_digit_text(n: int) -> Seq<char> {
    seq![digit_char(n / 10), digit_char(n % 10)]
}

/// A year as a date text writes it: four digits for the years 0 to 9999, and a
/// sign in front of at least four digits for any other.
pub open spec fn year_text(year: int) -> Seq<char> {
    if 0 <= year <= 9999 {
        zero_padded(year as nat, 4)
    } else if year < 0 {
        seq!['-'] + zero_padded((-year) as nat, 4)
    } else {
        seq!['+'] + zero_padded(year as nat, 4)
    }
}

/// A decimal text of a number below ten thousand has at most four digits, so a
/// year from 0 to 9999 is written with exactly four characters.
pub proof fn lemma_four_digit_year(year: int)
    requires
        0 <= year <= 9999,
    ensures
        year_text(year).len() == 4,
        year_text(year) == seq![
            digit_char(year / 1000),
            digit_char((year / 100) % 10),
            digit_char((year / 10) % 10),
            digit_char(year % 10),
        ],
{
    reveal_with_fuel(decimal_text, 5);
    let n = year as nat;
    let digits = decimal_text(n);
    let expected = seq![
        digit_char(year / 1000),
        digit_char((year / 100) % 10),
        digit_char((year / 10) % 10),
        digit_char(year % 10),
    ];
    if n < 10 {
        assert(digits.len() == 1);
        assert(zero_padded(n, 4) =~= expected);
    } else if n < 100 {
        assert(digits.len() == 2);
        assert(zero_padded(n, 4) =~= expected);
    } else if n < 1000 {
        assert(digits.len() == 3);
        assert(zero_padded(n, 4) =~= expected);
    } else {
        assert(digits.len() == 4);
        assert(zero_padded(n, 4) =~= expected);
    }
}

} // verus!
