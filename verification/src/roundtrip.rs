//! What the decimal texts of this library have in common: a text that was
//! written reads back as the value it was written for, so two values with
//! the same text are the same value.

use crate::decimal::all_digits;
use crate::decimal::decimal_body;
use crate::decimal::decimal_steps;
use crate::decimal::decimal_well_formed;
use crate::decimal::digit_char;
use crate::decimal::digit_value;
use crate::decimal::digits_value;
use crate::decimal::fraction_digits;
use crate::decimal::fraction_text;
use crate::decimal::fraction_value;
use crate::decimal::int_text;
use crate::decimal::lemma_point_index_is;
use crate::decimal::magnitude_text;
use crate::decimal::mileage_text;
use crate::decimal::nat_text;
use crate::decimal::padded;
use crate::decimal::parsed_mileage;
use crate::decimal::point_index;
use crate::decimal::signed;
use crate::decimal::whole_digits;
use crate::decimal::MILEAGE_LIMIT;
use crate::decimal::UNIT;
use vstd::prelude::*;

verus! {

/// Ten to the power `k`.
pub open spec fn pow10(k: nat) -> nat
    decreases k,
{
    if k == 0 {
        1
    } else {
        10 * pow10((k - 1) as nat)
    }
}

/// The digits of a natural number are digits, at least one, and stand for
/// that number.
pub proof fn lemma_nat_text(n: nat)
    ensures
        nat_text(n).len() >= 1,
        all_digits(nat_text(n)),
        digits_value(nat_text(n)) == n,
    decreases n,
{
    assert(digits_value(Seq::<char>::empty()) == 0);
    if n < 10 {
        assert(nat_text(n).drop_last() =~= Seq::<char>::empty());
        assert(nat_text(n).last() == digit_char(n as int));
    } else {
        lemma_nat_text(n / 10);
        assert(nat_text(n).drop_last() =~= nat_text(n / 10));
        assert(nat_text(n).last() == digit_char((n % 10) as int));
    }
}

/// A digit in front of a string of digits counts for its value times ten to
/// the length of the string.
pub proof fn lemma_digit_in_front(c: char, rest: Seq<char>)
    ensures
        digits_value(seq![c] + rest) == digit_value(c) * pow10(rest.len()) + digits_value(rest),
    decreases rest.len(),
{
    let all = seq![c] + rest;
    assert(digits_value(Seq::<char>::empty()) == 0);
    if rest.len() == 0 {
        assert(all.drop_last() =~= Seq::<char>::empty());
        assert(all.last() == c);
        assert(pow10(0) == 1);
    } else {
        assert(pow10(rest.len()) == 10 * pow10(rest.drop_last().len()));
        lemma_digit_in_front(c, rest.drop_last());
        assert(all.drop_last() =~= seq![c] + rest.drop_last());
        assert(all.last() == rest.last());
        let d = digit_value(c);
        let p = pow10(rest.drop_last().len()) as int;
        let v = digits_value(rest.drop_last());
        assert((d * p + v) * 10 == d * (10 * p) + v * 10) by (nonlinear_arith);
    }
}

/// Zeros stand for zero.
pub proof fn lemma_zeros(width: nat)
    ensures
        digits_value(padded(Seq::<char>::empty(), width)) == 0,
    decreases width,
{
    if width > 0 {
        lemma_zeros((width - 1) as nat);
        assert(padded(Seq::<char>::empty(), width).drop_last() =~= padded(
            Seq::<char>::empty(),
            (width - 1) as nat,
        ));
    }
}

/// The fraction digits written for `frac` at the scale ten to the `k` are
/// digits, at most `k + 1` of them, and padded to that width stand for
/// `frac`.
pub proof fn lemma_fraction_text(frac: nat, k: nat)
    requires
        frac < pow10(k + 1),
    ensures
        all_digits(fraction_text(frac, pow10(k))),
        fraction_text(frac, pow10(k)).len() <= k + 1,
        frac > 0 ==> fraction_text(frac, pow10(k)).len() >= 1,
        digits_value(padded(fraction_text(frac, pow10(k)), k + 1)) == frac,
    decreases k,
{
    let scale = pow10(k);
    let text = fraction_text(frac, scale);
    assert(scale > 0) by {
        lemma_pow10_positive(k);
    }
    if frac == 0 {
        lemma_zeros(k + 1);
    } else {
        let d = frac / scale;
        let rest = frac % scale;
        assert(pow10(k + 1) == 10 * scale);
        assert(d < 10 && frac == d * scale + rest && rest < scale) by (nonlinear_arith)
            requires
                d == frac / scale,
                rest == frac % scale,
                frac < 10 * scale,
                scale > 0,
        ;
        let tail = fraction_text(rest, scale / 10);
        assert(text == seq![digit_char(d as int)] + tail);
        if k == 0 {
            assert(rest == 0);
            assert(tail =~= Seq::<char>::empty());
            assert(padded(text, 1) =~= seq![digit_char(d as int)] + Seq::<char>::empty());
            lemma_digit_in_front(digit_char(d as int), Seq::<char>::empty());
        } else {
            assert(scale / 10 == pow10((k - 1) as nat));
            lemma_fraction_text(rest, (k - 1) as nat);
            assert(padded(text, k + 1) =~= seq![digit_char(d as int)] + padded(tail, k));
            lemma_digit_in_front(digit_char(d as int), padded(tail, k));
        }
    }
}

/// A power of ten is positive.
pub proof fn lemma_pow10_positive(k: nat)
    ensures
        pow10(k) > 0,
    decreases k,
{
    if k > 0 {
        lemma_pow10_positive((k - 1) as nat);
    }
}

/// The text of a fixed-point magnitude has no sign, is a well-formed
/// decimal text, and stands for that magnitude.
pub proof fn lemma_magnitude_reads_back(m: nat)
    ensures
        magnitude_text(m).len() >= 1,
        digit_value(magnitude_text(m)[0]) >= 0,
        decimal_well_formed(magnitude_text(m)),
        digits_value(whole_digits(magnitude_text(m))) * UNIT + fraction_value(
            fraction_digits(magnitude_text(m)),
        ) == m,
{
    let whole = m / (UNIT as nat);
    let frac = m % (UNIT as nat);
    let text = magnitude_text(m);
    let front = nat_text(whole);
    lemma_nat_text(whole);
    assert(pow10(5) == 100_000 && pow10(6) == 1_000_000) by {
        reveal_with_fuel(pow10, 8);
    }
    lemma_fraction_text(frac, 5);
    lemma_zeros(6);
    assert(text[0] == front[0]);
    assert(!signed(text));
    assert(decimal_body(text) == text);
    assert forall|j: int| 0 <= j < front.len() implies text[j] != '.' by {
        assert(text[j] == front[j]);
    }
    assert(front.len() < text.len() ==> text[front.len() as int] == '.');
    lemma_point_index_is(text, front.len() as int);
    assert(whole_digits(text) =~= front);
    assert(m == whole * UNIT + frac) by {
        assert(UNIT == 1_000_000);
        vstd::arithmetic::div_mod::lemma_fundamental_div_mod(m as int, 1_000_000);
    }
    if frac == 0 {
        assert(text == front);
        assert(point_index(text) == text.len());
        assert(fraction_digits(text) =~= Seq::<char>::empty());
        assert(fraction_value(fraction_digits(text)) == 0);
    } else {
        assert(text == front + seq!['.'] + fraction_text(frac, 100_000));
        assert(text[front.len() as int] == '.');
        assert(point_index(text) == front.len());
        assert(fraction_digits(text) =~= fraction_text(frac, 100_000));
        assert(fraction_value(fraction_digits(text)) == frac);
    }
}

/// The text of a fixed-point mileage is a well-formed decimal text that
/// stands for that mileage.
pub proof fn lemma_mileage_reads_back(m: int)
    ensures
        decimal_well_formed(mileage_text(m)),
        decimal_steps(mileage_text(m)) == m,
        -MILEAGE_LIMIT <= m <= MILEAGE_LIMIT ==> parsed_mileage(mileage_text(m)) == Some(m),
{
    let text = mileage_text(m);
    if m < 0 {
        let magnitude = magnitude_text((-m) as nat);
        lemma_magnitude_reads_back((-m) as nat);
        assert(signed(text));
        assert(decimal_body(text) =~= magnitude);
        assert(decimal_body(magnitude) == magnitude);
        assert(whole_digits(text) == whole_digits(magnitude));
        assert(fraction_digits(text) == fraction_digits(magnitude));
    } else {
        lemma_magnitude_reads_back(m as nat);
    }
}

/// Two mileages with the same text are the same mileage.
pub proof fn lemma_mileage_text_injective(a: int, b: int)
    requires
        mileage_text(a) == mileage_text(b),
    ensures
        a == b,
{
    lemma_mileage_reads_back(a);
    lemma_mileage_reads_back(b);
}

/// Two integers with the same text are the same integer.
pub proof fn lemma_int_text_injective(a: int, b: int)
    requires
        int_text(a) == int_text(b),
    ensures
        a == b,
{
    let magnitude_a: nat = if a < 0 {
        (-a) as nat
    } else {
        a as nat
    };
    let magnitude_b: nat = if b < 0 {
        (-b) as nat
    } else {
        b as nat
    };
    lemma_nat_text(magnitude_a);
    lemma_nat_text(magnitude_b);
    assert(nat_text(magnitude_a)[0] != '-');
    assert(nat_text(magnitude_b)[0] != '-');
    assert((a < 0) == (int_text(a)[0] == '-'));
    assert((b < 0) == (int_text(b)[0] == '-'));
    if a < 0 {
        assert(int_text(a).skip(1) =~= nat_text(magnitude_a));
        assert(int_text(b).skip(1) =~= nat_text(magnitude_b));
    }
}

} // verus!
