//! Decimal text of integers and of fixed-point mileage values.

use vstd::prelude::*;

verus! {

/// Number of fixed-point steps in one whole mileage unit.
pub const UNIT: i64 = 1_000_000;

/// Largest magnitude, in steps, that a mileage of an account may have: a
/// thousand units, so that the route of the longest session that an account
/// accepts holds some two hundred thousand points.
pub const MILEAGE_LIMIT: i64 = 1_000_000_000;

/// The character that writes the decimal digit `d`.
pub open spec fn digit_char(d: int) -> char {
    if d == 0 {
        '0'
    } else if d == 1 {
        '1'
    } else if d == 2 {
        '2'
    } else if d == 3 {
        '3'
    } else if d == 4 {
        '4'
    } else if d == 5 {
        '5'
    } else if d == 6 {
        '6'
    } else if d == 7 {
        '7'
    } else if d == 8 {
        '8'
    } else {
        '9'
    }
}

/// The decimal digits of a natural number, most significant first, without
/// leading zeros (a single `0` for zero).
pub open spec fn nat_text(n: nat) -> Seq<char>
    decreases n,
{
    if n < 10 {
        seq![digit_char(n as int)]
    } else {
        nat_text(n / 10).push(digit_char((n % 10) as int))
    }
}

/// The decimal text of an integer: a minus sign for negative values, then the
/// digits of the magnitude.
pub open spec fn int_text(v: int) -> Seq<char> {
    if v < 0 {
        seq!['-'] + nat_text((-v) as nat)
    } else {
        nat_text(v as nat)
    }
}

/// The digits of the fraction `frac / (10 * scale)`, most significant first,
/// ending at its last non-zero digit.
pub open spec fn fraction_text(frac: nat, scale: nat) -> Seq<char>
    decreases scale,
{
    if frac == 0 || scale == 0 {
        Seq::<char>::empty()
    } else {
        seq![digit_char((frac / scale) as int)] + fraction_text(frac % scale, scale / 10)
    }
}

/// The shortest decimal text of a non-negative fixed-point value: the whole
/// part, then a point and the fraction digits when the fraction is not zero.
pub open spec fn magnitude_text(m: nat) -> Seq<char> {
    let whole = m / (UNIT as nat);
    let frac = m % (UNIT as nat);
    if frac == 0 {
        nat_text(whole)
    } else {
        nat_text(whole) + seq!['.'] + fraction_text(frac, 100_000)
    }
}

/// The shortest decimal text of a fixed-point mileage: `4` for four units,
/// `3.9875` for 3 987 500 steps, `-0.02` for minus 20 000 steps.
pub open spec fn mileage_text(m: int) -> Seq<char> {
    if m < 0 {
        seq!['-'] + magnitude_text((-m) as nat)
    } else {
        magnitude_text(m as nat)
    }
}

fn digit_str(d: u64) -> (r: &'static str)
    requires
        d < 10,
    ensures
        r@ == seq![digit_char(d as int)],
{
    proof {
        reveal_strlit("0");
        reveal_strlit("1");
        reveal_strlit("2");
        reveal_strlit("3");
        reveal_strlit("4");
        reveal_strlit("5");
        reveal_strlit("6");
        reveal_strlit("7");
        reveal_strlit("8");
        reveal_strlit("9");
    }
    let r = if d == 0 {
        "0"
    } else if d == 1 {
        "1"
    } else if d == 2 {
        "2"
    } else if d == 3 {
        "3"
    } else if d == 4 {
        "4"
    } else if d == 5 {
        "5"
    } else if d == 6 {
        "6"
    } else if d == 7 {
        "7"
    } else if d == 8 {
        "8"
    } else {
        "9"
    };
    assert(r@ =~= seq![digit_char(d as int)]);
    r
}

/// Appends the decimal digits of `n` to `out`.
pub fn push_nat(out: &mut String, n: u64)
    ensures
        final(out)@ == old(out)@ + nat_text(n as nat),
    decreases n,
{
    if n >= 10 {
        push_nat(out, n / 10);
    }
    let ghost before = out@;
    out.append(digit_str(n % 10));
    proof {
        if n >= 10 {
            assert(out@ =~= old(out)@ + nat_text(n as nat));
        } else {
            assert(out@ =~= old(out)@ + nat_text(n as nat));
        }
    }
}

fn magnitude_of(v: i64) -> (r: u64)
    ensures
        r as int == if v < 0 { -(v as int) } else { v as int },
{
    if v == i64::MIN {
        9_223_372_036_854_775_808u64
    } else if v < 0 {
        (-v) as u64
    } else {
        v as u64
    }
}

/// The decimal text of `v`, as `int_text` defines it.
pub fn int_to_text(v: i64) -> (r: String)
    ensures
        r@ == int_text(v as int),
{
    let mut out = String::new();
    if v < 0 {
        proof {
            reveal_strlit("-");
        }
        out.append("-");
        assert(out@ =~= seq!['-']);
    }
    push_nat(&mut out, magnitude_of(v));
    assert(out@ =~= int_text(v as int));
    out
}

fn push_fraction(out: &mut String, frac: u64)
    requires
        frac < 1_000_000,
    ensures
        final(out)@ == old(out)@ + fraction_text(frac as nat, 100_000),
{
    let mut rest: u64 = frac;
    let mut scale: u64 = 100_000;
    while rest != 0 && scale != 0
        invariant
            scale == 100_000 || scale == 10_000 || scale == 1_000 || scale == 100 || scale == 10
                || scale == 1 || scale == 0,
            rest < 10 * scale || rest == 0,
            out@ + fraction_text(rest as nat, scale as nat) == old(out)@ + fraction_text(
                frac as nat,
                100_000,
            ),
        decreases scale,
    {
        let ghost before = out@;
        out.append(digit_str(rest / scale));
        proof {
            assert(before + fraction_text(rest as nat, scale as nat) =~= out@ + fraction_text(
                (rest % scale) as nat,
                (scale / 10) as nat,
            ));
        }
        rest = rest % scale;
        scale = scale / 10;
    }
    assert(out@ =~= out@ + fraction_text(rest as nat, scale as nat));
}

/// The shortest decimal text of the fixed-point mileage `m`, as
/// `mileage_text` defines it.
pub fn mileage_to_text(m: i64) -> (r: String)
    ensures
        r@ == mileage_text(m as int),
{
    let mut out = String::new();
    if m < 0 {
        proof {
            reveal_strlit("-");
        }
        out.append("-");
        assert(out@ =~= seq!['-']);
    }
    let mag = magnitude_of(m);
    let frac = mag % STEPS;
    push_nat(&mut out, mag / STEPS);
    if frac != 0 {
        proof {
            reveal_strlit(".");
        }
        out.append(".");
        push_fraction(&mut out, frac);
    }
    assert(out@ =~= mileage_text(m as int));
    out
}

/// The value of a decimal digit character, or -1 for any other character.
pub open spec fn digit_value(c: char) -> int {
    if c == '0' {
        0
    } else if c == '1' {
        1
    } else if c == '2' {
        2
    } else if c == '3' {
        3
    } else if c == '4' {
        4
    } else if c == '5' {
        5
    } else if c == '6' {
        6
    } else if c == '7' {
        7
    } else if c == '8' {
        8
    } else if c == '9' {
        9
    } else {
        -1
    }
}

/// Every character of `s` is a decimal digit.
pub open spec fn all_digits(s: Seq<char>) -> bool {
    forall|i: int| 0 <= i < s.len() ==> digit_value(#[trigger] s[i]) >= 0
}

/// The natural number that a string of digits writes; zero for the empty
/// string.
pub open spec fn digits_value(s: Seq<char>) -> int
    decreases s.len(),
{
    if s.len() == 0 {
        0
    } else {
        digits_value(s.drop_last()) * 10 + digit_value(s.last())
    }
}

/// The number of steps that the fraction digits `s` stand for: the first six
/// digits count, and missing ones are zero.
pub open spec fn fraction_value(s: Seq<char>) -> int {
    digits_value(padded(s, 6))
}

/// The first `width` characters of `s`, with zeros where `s` has none.
pub open spec fn padded(s: Seq<char>, width: nat) -> Seq<char> {
    Seq::new(
        width,
        |i: int|
            if i < s.len() {
                s[i]
            } else {
                '0'
            },
    )
}

/// Whether `s` starts with a sign.
pub open spec fn signed(s: Seq<char>) -> bool {
    s.len() > 0 && (s[0] == '-' || s[0] == '+')
}

/// The index of the first point in `s`, or the length of `s` if it holds
/// none.
pub open spec fn point_index(s: Seq<char>) -> int
    decreases s.len(),
{
    if s.len() == 0 || s[0] == '.' {
        0
    } else {
        1 + point_index(s.skip(1))
    }
}

/// The part of a decimal text after its sign.
pub open spec fn decimal_body(s: Seq<char>) -> Seq<char> {
    if signed(s) {
        s.skip(1)
    } else {
        s
    }
}

/// The digits of a decimal text before its point.
pub open spec fn whole_digits(s: Seq<char>) -> Seq<char> {
    decimal_body(s).take(point_index(decimal_body(s)))
}

/// The digits of a decimal text after its point; empty if it has no point.
pub open spec fn fraction_digits(s: Seq<char>) -> Seq<char> {
    let body = decimal_body(s);
    if point_index(body) < body.len() {
        body.skip(point_index(body) + 1)
    } else {
        Seq::<char>::empty()
    }
}

/// A decimal text is an optional sign, digits, and optionally a point and
/// more digits, with at least one digit in all.
pub open spec fn decimal_well_formed(s: Seq<char>) -> bool {
    &&& all_digits(whole_digits(s))
    &&& all_digits(fraction_digits(s))
    &&& whole_digits(s).len() + fraction_digits(s).len() > 0
}

/// The number of steps that a well-formed decimal text stands for, digits
/// beyond the sixth after the point left out.
pub open spec fn decimal_steps(s: Seq<char>) -> int {
    let magnitude = digits_value(whole_digits(s)) * UNIT + fraction_value(fraction_digits(s));
    if s.len() > 0 && s[0] == '-' {
        -magnitude
    } else {
        magnitude
    }
}

/// The mileage that a text stands for: the steps of a well-formed decimal
/// text whose magnitude is within the limit, and nothing otherwise.
pub open spec fn parsed_mileage(s: Seq<char>) -> Option<int> {
    if decimal_well_formed(s) && -MILEAGE_LIMIT <= decimal_steps(s) <= MILEAGE_LIMIT {
        Some(decimal_steps(s))
    } else {
        None
    }
}

/// The first point of `s` lies at `point_index(s)`, and nowhere before.
pub proof fn lemma_point_index(s: Seq<char>)
    ensures
        0 <= point_index(s) <= s.len(),
        forall|j: int| 0 <= j < point_index(s) ==> s[j] != '.',
        point_index(s) < s.len() ==> s[point_index(s)] == '.',
    decreases s.len(),
{
    if s.len() == 0 || s[0] == '.' {
    } else {
        lemma_point_index(s.skip(1));
        assert forall|j: int| 0 <= j < point_index(s) implies s[j] != '.' by {
            if j > 0 {
                assert(s[j] == s.skip(1)[j - 1]);
            }
        }
        if point_index(s) < s.len() {
            assert(s[point_index(s)] == s.skip(1)[point_index(s) - 1]);
        }
    }
}

/// A position with no point before it, which holds a point or is the end
/// of `s`, is `point_index(s)`.
pub proof fn lemma_point_index_is(s: Seq<char>, k: int)
    requires
        0 <= k <= s.len(),
        forall|j: int| 0 <= j < k ==> s[j] != '.',
        k < s.len() ==> s[k] == '.',
    ensures
        point_index(s) == k,
{
    lemma_point_index(s);
}

/// The digits written so far never stand for more than the whole string of
/// digits does.
pub proof fn lemma_digits_prefix(s: Seq<char>, k: int)
    requires
        all_digits(s),
        0 <= k <= s.len(),
    ensures
        0 <= digits_value(s.take(k)) <= digits_value(s),
    decreases s.len(),
{
    if s.len() == 0 {
        assert(s.take(k) =~= s);
    } else if k == s.len() {
        assert(s.take(k) =~= s);
        lemma_digits_prefix(s.drop_last(), k - 1);
    } else {
        assert(s.drop_last().take(k) =~= s.take(k));
        lemma_digits_prefix(s.drop_last(), k);
        lemma_digits_prefix(s.drop_last(), s.len() - 1);
        assert(s.drop_last().take(s.len() - 1) =~= s.drop_last());
    }
}

/// The ASCII code of the minus sign.
const MINUS: u8 = 45;

/// The ASCII code of the plus sign.
const PLUS: u8 = 43;

/// The ASCII code of the decimal point.
const POINT: u8 = 46;

/// The ASCII code of the digit zero.
const DIGIT_ZERO: u8 = 48;

/// The ASCII code of the digit nine.
const DIGIT_NINE: u8 = 57;

/// The steps in one unit, as an unsigned number.
const STEPS: u64 = 1_000_000;

/// The most whole units that a mileage within the limit has.
const WHOLE_LIMIT: u64 = 1_000;

fn digit_of(b: u8, Ghost(c): Ghost<char>) -> (r: Option<u64>)
    requires
        c as u8 == b,
        '\0' <= c <= '\u{7f}',
    ensures
        match r {
            Some(d) => d < 10 && digit_value(c) == d,
            None => digit_value(c) < 0,
        },
{
    if DIGIT_ZERO <= b && b <= DIGIT_NINE {
        Some((b - DIGIT_ZERO) as u64)
    } else {
        None
    }
}

/// A text that holds a character outside ASCII is no decimal text.
proof fn lemma_decimal_is_ascii(s: Seq<char>)
    requires
        decimal_well_formed(s),
    ensures
        vstd::utf8::is_ascii_chars(s),
{
    let body = decimal_body(s);
    lemma_point_index(body);
    let k = point_index(body);
    assert forall|i: int| 0 <= i < s.len() implies '\0' <= #[trigger] s[i] <= '\u{7f}' by {
        let shift: int = if signed(s) {
            1
        } else {
            0
        };
        if i >= shift {
            let t = i - shift;
            assert(body[t] == s[i]);
            if t < k {
                assert(whole_digits(s)[t] == body[t]);
            } else if t > k {
                assert(fraction_digits(s)[t - k - 1] == body[t]);
            }
        }
    }
}

/// Reads a decimal text as a mileage: an optional sign, digits, and
/// optionally a point and more digits, of which the first six count. Gives
/// the number of steps, or nothing where the text is no decimal text or
/// stands for more than the limit.
pub fn parse_mileage(text: &str) -> (r: Option<i64>)
    ensures
        r.is_some() == parsed_mileage(text@).is_some(),
        r matches Some(v) ==> parsed_mileage(text@) == Some(v as int),
{
    if !text.is_ascii() {
        proof {
            if decimal_well_formed(text@) {
                lemma_decimal_is_ascii(text@);
            }
        }
        return None;
    }
    let n = text.as_bytes().len();
    proof {
        vstd::string::is_ascii_spec_bytes(text);
    }
    assert(n == text@.len());
    let ghost body = decimal_body(text@);
    let has_sign = n > 0 && (text.get_ascii(0) == MINUS || text.get_ascii(0) == PLUS);
    let negative = n > 0 && text.get_ascii(0) == MINUS;
    assert(has_sign == signed(text@));
    assert(negative == (text@.len() > 0 && text@[0] == '-'));
    let start: usize = if has_sign {
        1
    } else {
        0
    };
    assert(body.len() == n - start);
    assert(forall|t: int| 0 <= t < body.len() ==> body[t] == text@[start + t]);
    let mut i: usize = start;
    let mut whole: u64 = 0;
    while i < n && text.get_ascii(i) != POINT
        invariant
            text.is_ascii(),
            n == text@.len(),
            body.len() == n - start,
            forall|t: int| 0 <= t < body.len() ==> body[t] == text@[start + t],
            start <= i <= n,
            forall|t: int| 0 <= t < i - start ==> digit_value(#[trigger] body[t]) >= 0,
            whole == digits_value(body.take(i - start)),
            whole <= WHOLE_LIMIT,
            body == decimal_body(text@),
        decreases n - i,
    {
        let b = text.get_ascii(i);
        assert(body[i - start] == text@[i as int]);
        assert(body[i - start] != '.');
        assert(body.take(i - start + 1).drop_last() =~= body.take(i - start));
        match digit_of(b, Ghost(text@[i as int])) {
            None => {
                proof {
                    lemma_point_index(body);
                    if point_index(body) <= i - start {
                        assert(body[point_index(body)] == '.');
                    }
                    assert(whole_digits(text@)[i - start] == body[i - start]);
                }
                return None;
            },
            Some(d) => {
                whole = whole * 10 + d;
                if whole > WHOLE_LIMIT {
                    proof {
                        lemma_point_index(body);
                        if point_index(body) <= i - start {
                            assert(body[point_index(body)] == '.');
                        }
                        if decimal_well_formed(text@) {
                            let digits = whole_digits(text@);
                            lemma_digits_prefix(digits, i - start + 1);
                            assert(digits.take(i - start + 1) =~= body.take(i - start + 1));
                            lemma_digits_prefix(padded(fraction_digits(text@), 6), 0);
                        }
                    }
                    return None;
                }
            },
        }
        i = i + 1;
    }
    proof {
        assert(i < n ==> body[i - start] == text@[i as int]);
        lemma_point_index_is(body, i - start);
        assert(whole_digits(text@) =~= body.take(i - start));
    }
    let rest: usize = if i < n {
        i + 1
    } else {
        n
    };
    let ghost fraction = fraction_digits(text@);
    assert(fraction.len() == n - rest);
    assert(forall|t: int| 0 <= t < fraction.len() ==> fraction[t] == text@[rest + t]);
    let mut j: usize = rest;
    while j < n
        invariant
            text.is_ascii(),
            n == text@.len(),
            rest <= j <= n,
            fraction.len() == n - rest,
            forall|t: int| 0 <= t < fraction.len() ==> fraction[t] == text@[rest + t],
            forall|t: int| 0 <= t < j - rest ==> digit_value(#[trigger] fraction[t]) >= 0,
            fraction == fraction_digits(text@),
        decreases n - j,
    {
        let b = text.get_ascii(j);
        assert(fraction[j - rest] == text@[j as int]);
        if digit_of(b, Ghost(text@[j as int])).is_none() {
            return None;
        }
        j = j + 1;
    }
    if i - start + (n - rest) == 0 {
        return None;
    }
    assert(decimal_well_formed(text@));
    let ghost six = padded(fraction, 6);
    let mut part: u64 = 0;
    let mut t: usize = 0;
    while t < 6
        invariant
            text.is_ascii(),
            n == text@.len(),
            rest <= n,
            0 <= t <= 6,
            fraction.len() == n - rest,
            forall|u: int| 0 <= u < fraction.len() ==> fraction[u] == text@[rest + u],
            all_digits(fraction),
            six == padded(fraction, 6),
            part == digits_value(six.take(t as int)),
            part < 1_000_000,
            t == 0 ==> part == 0,
            t == 1 ==> part < 10,
            t == 2 ==> part < 100,
            t == 3 ==> part < 1_000,
            t == 4 ==> part < 10_000,
            t == 5 ==> part < 100_000,
        decreases 6 - t,
    {
        assert(six.take(t + 1).drop_last() =~= six.take(t as int));
        let d: u64 = if t < n - rest {
            let b = text.get_ascii(rest + t);
            assert(fraction[t as int] == text@[rest + t]);
            match digit_of(b, Ghost(text@[rest + t])) {
                Some(d) => d,
                None => 0,
            }
        } else {
            0
        };
        assert(d == digit_value(six[t as int]));
        part = part * 10 + d;
        t = t + 1;
    }
    assert(six.take(6) =~= six);
    assert(part == fraction_value(fraction));
    let magnitude: u64 = whole * STEPS + part;
    if magnitude > WHOLE_LIMIT * STEPS {
        return None;
    }
    if negative {
        Some(-(magnitude as i64))
    } else {
        Some(magnitude as i64)
    }
}

} // verus!
