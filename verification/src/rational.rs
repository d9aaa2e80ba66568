//! Exact rational values.
//!
//! A conversion value is a fraction `num / den` of two `i128` machine
//! integers with a positive denominator. All conversion arithmetic in this
//! crate is exact on such fractions; nothing is rounded.

use vstd::prelude::*;
use vstd::string::StrSliceExecFns;

verus! {

/// Largest magnitude accepted for the numerator and denominator of a
/// well-formed input value. Conversion results may grow past this bound,
/// but starting from it every intermediate product of the conversion
/// formulas fits in an `i128`.
pub const MAX_MAGNITUDE: i128 = 9_223_372_036_854_775_807;

/// Smallest numerator accepted for a well-formed input value.
pub const MIN_NUMERATOR: i128 = -9_223_372_036_854_775_808;

/// Mathematical model of a rational value: an unbounded fraction.
pub struct Frac {
    pub num: int,
    pub den: int,
}

/// Equality of two fractions by cross multiplication.
pub open spec fn frac_eq(a: Frac, b: Frac) -> bool {
    a.num * b.den == b.num * a.den
}

/// The fraction `v` with numerator and denominator both scaled by `c`.
pub open spec fn frac_scale(c: int, v: Frac) -> Frac {
    Frac { num: c * v.num, den: c * v.den }
}

/// Scaling numerator and denominator alike does not change the value.
pub proof fn lemma_scale_eq(c: int, v: Frac)
    ensures
        frac_eq(frac_scale(c, v), v),
        frac_eq(v, frac_scale(c, v)),
{
    assert((c * v.num) * v.den == v.num * (c * v.den)) by (nonlinear_arith);
}

/// Whether `c` is a decimal digit.
pub open spec fn is_digit(c: char) -> bool {
    '0' <= c && c <= '9'
}

/// The value of the digit `c`.
pub open spec fn digit_val(c: char) -> int {
    c as int - 48
}

/// The value of a string of digits read in base ten.
pub open spec fn digits_val(s: Seq<char>) -> int
    decreases s.len(),
{
    if s.len() == 0 {
        0
    } else {
        10 * digits_val(s.drop_last()) + digit_val(s.last())
    }
}

/// Whether every character of `s` is a decimal digit.
pub open spec fn all_digits(s: Seq<char>) -> bool {
    forall|i: int| 0 <= i < s.len() ==> is_digit(#[trigger] s[i])
}

/// Ten to the power `e`.
pub open spec fn pow10(e: nat) -> int
    decreases e,
{
    if e == 0 {
        1
    } else {
        10 * pow10((e - 1) as nat)
    }
}

/// Whether the text starts with a minus sign.
pub open spec fn has_minus(s: Seq<char>) -> bool {
    s.len() > 0 && s[0] == '-'
}

/// The text with a leading minus sign removed.
pub open spec fn decimal_body(s: Seq<char>) -> Seq<char> {
    if has_minus(s) {
        s.subrange(1, s.len() as int)
    } else {
        s
    }
}

/// Whether `b` consists of one or more digits, a decimal point at
/// position `i`, and one or more further digits.
pub open spec fn dot_split_at(b: Seq<char>, i: int) -> bool {
    &&& 1 <= i < b.len() - 1
    &&& b[i] == '.'
    &&& all_digits(b.subrange(0, i))
    &&& all_digits(b.subrange(i + 1, b.len() as int))
}

/// The texts accepted as decimal literals: an optional leading minus
/// sign, one or more digits, and optionally a decimal point followed by
/// one or more digits.
pub open spec fn is_decimal_string(s: Seq<char>) -> bool {
    let b = decimal_body(s);
    ||| (b.len() > 0 && all_digits(b))
    ||| (exists|i: int| dot_split_at(b, i))
}

/// The digits of a decimal literal with the decimal point removed.
pub open spec fn decimal_digits(s: Seq<char>) -> Seq<char> {
    let b = decimal_body(s);
    if exists|i: int| dot_split_at(b, i) {
        let i = choose|i: int| dot_split_at(b, i);
        b.subrange(0, i) + b.subrange(i + 1, b.len() as int)
    } else {
        b
    }
}

/// How many digits follow the decimal point of a decimal literal;
/// zero when there is no decimal point.
pub open spec fn decimal_frac_len(s: Seq<char>) -> int {
    let b = decimal_body(s);
    if exists|i: int| dot_split_at(b, i) {
        let i = choose|i: int| dot_split_at(b, i);
        b.len() - 1 - i
    } else {
        0
    }
}

/// The exact rational value a decimal literal denotes.
pub open spec fn decimal_value(s: Seq<char>) -> Frac {
    let sign: int = if has_minus(s) {
        -1
    } else {
        1
    };
    Frac {
        num: sign * digits_val(decimal_digits(s)),
        den: pow10(decimal_frac_len(s) as nat),
    }
}

proof fn lemma_pow10_pos(e: nat)
    ensures
        pow10(e) >= 1,
    decreases e,
{
    if e > 0 {
        lemma_pow10_pos((e - 1) as nat);
    }
}

proof fn lemma_pow10_monotone(a: nat, b: nat)
    requires
        a <= b,
    ensures
        pow10(a) <= pow10(b),
    decreases b,
{
    if a < b {
        lemma_pow10_monotone(a, (b - 1) as nat);
        lemma_pow10_pos((b - 1) as nat);
    }
}

proof fn lemma_pow10_18()
    ensures
        pow10(18) == 1_000_000_000_000_000_000,
{
    reveal_with_fuel(pow10, 19);
}

/// A valid decimal body has at most one decimal point position.
proof fn lemma_dot_unique(b: Seq<char>, i: int, j: int)
    requires
        dot_split_at(b, i),
        dot_split_at(b, j),
    ensures
        i == j,
{
    if i < j {
        assert(b.subrange(0, j)[i] == b[i]);
    }
    if j < i {
        assert(b.subrange(0, i)[j] == b[j]);
    }
}

proof fn lemma_not_decimal_bad_char(s: Seq<char>, pos: int)
    requires
        0 <= pos < decimal_body(s).len(),
        !is_digit(decimal_body(s)[pos]),
        decimal_body(s)[pos] != '.',
    ensures
        !is_decimal_string(s),
{
    let b = decimal_body(s);
    assert forall|i: int| !dot_split_at(b, i) by {
        if dot_split_at(b, i) {
            if pos < i {
                assert(b.subrange(0, i)[pos] == b[pos]);
            } else if pos > i {
                assert(b.subrange(i + 1, b.len() as int)[pos - i - 1] == b[pos]);
            }
        }
    }
}

proof fn lemma_not_decimal_dot_edge(s: Seq<char>, pos: int)
    requires
        0 <= pos < decimal_body(s).len(),
        decimal_body(s)[pos] == '.',
        pos == 0 || pos == decimal_body(s).len() - 1,
    ensures
        !is_decimal_string(s),
{
    let b = decimal_body(s);
    assert(!is_digit(b[pos]));
    assert forall|i: int| !dot_split_at(b, i) by {
        if dot_split_at(b, i) {
            if pos < i {
                assert(b.subrange(0, i)[pos] == b[pos]);
            } else if pos > i {
                assert(b.subrange(i + 1, b.len() as int)[pos - i - 1] == b[pos]);
            }
        }
    }
}

proof fn lemma_not_decimal_two_dots(s: Seq<char>, p: int, q: int)
    requires
        0 <= p < q < decimal_body(s).len(),
        decimal_body(s)[p] == '.',
        decimal_body(s)[q] == '.',
    ensures
        !is_decimal_string(s),
{
    let b = decimal_body(s);
    assert(!is_digit(b[p]));
    assert forall|i: int| !dot_split_at(b, i) by {
        if dot_split_at(b, i) {
            let o = if p == i {
                q
            } else {
                p
            };
            if o < i {
                assert(b.subrange(0, i)[o] == b[o]);
            } else if o > i {
                assert(b.subrange(i + 1, b.len() as int)[o - i - 1] == b[o]);
            }
        }
    }
}

proof fn lemma_decimal_plain(s: Seq<char>)
    requires
        all_digits(decimal_body(s)),
        decimal_body(s).len() >= 1,
    ensures
        is_decimal_string(s),
        decimal_digits(s) == decimal_body(s),
        decimal_frac_len(s) == 0,
{
    let b = decimal_body(s);
    assert forall|i: int| !dot_split_at(b, i) by {
        if dot_split_at(b, i) {
            assert(is_digit(b[i]));
        }
    }
}

proof fn lemma_decimal_split(s: Seq<char>, intpart: Seq<char>, fracpart: Seq<char>)
    requires
        decimal_body(s) == intpart + seq!['.'] + fracpart,
        all_digits(intpart),
        all_digits(fracpart),
        intpart.len() >= 1,
        fracpart.len() >= 1,
    ensures
        is_decimal_string(s),
        decimal_digits(s) == intpart + fracpart,
        decimal_frac_len(s) == fracpart.len(),
{
    let b = decimal_body(s);
    let pos = intpart.len() as int;
    assert(b[pos] == '.');
    assert(b.subrange(0, pos) =~= intpart);
    assert(b.subrange(pos + 1, b.len() as int) =~= fracpart);
    assert(dot_split_at(b, pos));
    let i = choose|i: int| dot_split_at(b, i);
    lemma_dot_unique(b, i, pos);
    assert(decimal_digits(s) =~= intpart + fracpart);
}

/// Range bound on a product from range bounds on its factors.
pub proof fn lemma_mul_bound(a: int, b: int, am: int, bm: int)
    by (nonlinear_arith)
    requires
        -am <= a <= am,
        0 <= b <= bm,
    ensures
        -(am * bm) <= a * b <= am * bm,
{
}

/// A product of two positive factors is positive.
pub proof fn lemma_mul_pos(a: int, b: int)
    by (nonlinear_arith)
    requires
        0 < a,
        0 < b,
    ensures
        0 < a * b,
{
}

/// An exact rational number `num / den`.
#[derive(Clone, Copy, Debug)]
pub struct Rational {
    pub num: i128,
    pub den: i128,
}

impl View for Rational {
    type V = Frac;

    open spec fn view(&self) -> Frac {
        Frac { num: self.num as int, den: self.den as int }
    }
}

impl Rational {
    /// A well-formed value: positive denominator, both parts within
    /// `MAX_MAGNITUDE`. Conversion entry points require this of their
    /// input so that the exact arithmetic cannot overflow.
    pub open spec fn wf(self) -> bool {
        0 < self.den <= MAX_MAGNITUDE && MIN_NUMERATOR <= self.num <= MAX_MAGNITUDE
    }

    /// Builds the fraction `num / den`.
    pub fn new(num: i64, den: i64) -> (r: Rational)
        requires
            den > 0,
        ensures
            r@.num == num as int,
            r@.den == den as int,
            r.wf(),
    {
        Rational { num: num as i128, den: den as i128 }
    }

    /// Builds the whole number `n`.
    pub fn from_integer(n: i64) -> (r: Rational)
        ensures
            r@.num == n as int,
            r@.den == 1,
            r.wf(),
    {
        Rational { num: n as i128, den: 1 }
    }

    /// Whether the value is strictly below zero.
    pub fn is_negative(&self) -> (r: bool)
        requires
            self.wf(),
        ensures
            r == (self@.num < 0),
    {
        self.num < 0
    }

    /// Whether two values denote the same rational number.
    pub fn eq_rational(&self, other: &Rational) -> (r: bool)
        requires
            self.wf(),
            other.wf(),
        ensures
            r == frac_eq(self@, other@),
    {
        proof {
            assert(-170_141_183_460_469_231_731_687_303_715_884_105_728
                <= self.num as int * other.den as int
                <= 170_141_183_460_469_231_731_687_303_715_884_105_727)
                by (nonlinear_arith)
                requires
                    MIN_NUMERATOR <= self.num <= MAX_MAGNITUDE,
                    0 < other.den <= MAX_MAGNITUDE,
            ;
            assert(-170_141_183_460_469_231_731_687_303_715_884_105_728
                <= other.num as int * self.den as int
                <= 170_141_183_460_469_231_731_687_303_715_884_105_727)
                by (nonlinear_arith)
                requires
                    MIN_NUMERATOR <= other.num <= MAX_MAGNITUDE,
                    0 < self.den <= MAX_MAGNITUDE,
            ;
        }
        self.num * other.den == other.num * self.den
    }

    /// Parses a decimal literal: an optional minus sign, one or more
    /// digits, and optionally a decimal point followed by one or more
    /// digits. At most eighteen digits in all are accepted, so that the
    /// parsed value is always well-formed; a longer literal, or any
    /// other text, is rejected.
    pub fn from_decimal_str(s: &str) -> (r: Option<Rational>)
        ensures
            match r {
                Some(v) => {
                    &&& is_decimal_string(s@)
                    &&& decimal_digits(s@).len() <= 18
                    &&& v@ == decimal_value(s@)
                    &&& v.wf()
                },
                None => !is_decimal_string(s@) || decimal_digits(s@).len() > 18,
            },
    {
        let n = s.unicode_len();
        let neg = n > 0 && s.get_char(0) == '-';
        let start: usize = if neg {
            1
        } else {
            0
        };
        proof {
            assert(decimal_body(s@) =~= s@.subrange(start as int, n as int));
        }
        let mut i = start;
        let mut acc: i128 = 0;
        let mut int_digits: usize = 0;
        let mut frac_digits: usize = 0;
        let mut seen_dot = false;
        let ghost mut intpart = Seq::<char>::empty();
        let ghost mut fracpart = Seq::<char>::empty();
        while i < n
            invariant
                start <= i <= n,
                n == s@.len(),
                start == if has_minus(s@) { 1int } else { 0int },
                neg == has_minus(s@),
                decimal_body(s@) == s@.subrange(start as int, n as int),
                int_digits == intpart.len(),
                frac_digits == fracpart.len(),
                all_digits(intpart),
                all_digits(fracpart),
                !seen_dot ==> fracpart.len() == 0 && s@.subrange(start as int, i as int)
                    == intpart,
                seen_dot ==> int_digits >= 1 && s@.subrange(start as int, i as int) == intpart
                    + seq!['.'] + fracpart,
                int_digits + frac_digits <= i,
                0 <= acc < 1_000_000_000_000_000_000,
                int_digits + frac_digits <= 18 ==> acc == digits_val(intpart + fracpart) && acc
                    < pow10((int_digits + frac_digits) as nat),
            decreases n - i,
        {
            let ghost prefix = s@.subrange(start as int, i as int);
            let ghost b = decimal_body(s@);
            let c = s.get_char(i);
            proof {
                assert(b[i - start] == c);
            }
            if '0' <= c && c <= '9' {
                let total = int_digits + frac_digits;
                if total < 18 {
                    let d = ((c as u32) - 48) as i128;
                    proof {
                        assert(d == digit_val(c));
                        lemma_pow10_monotone((total + 1) as nat, 18);
                        lemma_pow10_18();
                        let combined = intpart + fracpart;
                        assert(combined.push(c).drop_last() =~= combined);
                        assert(digits_val(combined.push(c)) == 10 * acc + d);
                    }
                    acc = acc * 10 + d;
                }
                if seen_dot {
                    proof {
                        let old_frac = fracpart;
                        fracpart = fracpart.push(c);
                        assert(s@.subrange(start as int, i + 1 as int) =~= prefix.push(c));
                        assert(intpart + seq!['.'] + fracpart =~= (intpart + seq!['.']
                            + old_frac).push(c));
                        assert(intpart + fracpart =~= (intpart + old_frac).push(c));
                    }
                    frac_digits = frac_digits + 1;
                } else {
                    proof {
                        let old_int = intpart;
                        intpart = intpart.push(c);
                        assert(s@.subrange(start as int, i + 1 as int) =~= prefix.push(c));
                        assert(intpart + fracpart =~= (old_int + fracpart).push(c));
                    }
                    int_digits = int_digits + 1;
                }
            } else if c == '.' {
                if seen_dot {
                    proof {
                        assert(prefix =~= b.subrange(0, i - start));
                        assert(prefix[int_digits as int] == '.');
                        assert(b[int_digits as int] == '.');
                        lemma_not_decimal_two_dots(s@, int_digits as int, i - start);
                    }
                    return None;
                }
                if int_digits == 0 {
                    proof {
                        lemma_not_decimal_dot_edge(s@, i - start);
                    }
                    return None;
                }
                proof {
                    assert(s@.subrange(start as int, i + 1 as int) =~= prefix.push(c));
                    assert(intpart + seq!['.'] + Seq::<char>::empty() =~= prefix.push(c));
                }
                seen_dot = true;
            } else {
                proof {
                    lemma_not_decimal_bad_char(s@, i - start);
                }
                return None;
            }
            i = i + 1;
        }
        let ghost b = decimal_body(s@);
        proof {
            assert(s@.subrange(start as int, n as int) =~= b);
        }
        if int_digits == 0 {
            proof {
                assert(b.len() == 0);
                assert forall|j: int| !dot_split_at(b, j) by {}
            }
            return None;
        }
        if seen_dot && frac_digits == 0 {
            proof {
                assert(b =~= intpart + seq!['.'] + fracpart);
                assert(b[int_digits as int] == '.');
                lemma_not_decimal_dot_edge(s@, int_digits as int);
            }
            return None;
        }
        proof {
            if seen_dot {
                lemma_decimal_split(s@, intpart, fracpart);
            } else {
                assert(b =~= intpart);
                lemma_decimal_plain(s@);
            }
        }
        if int_digits + frac_digits > 18 {
            return None;
        }
        let den = pow10_exec(frac_digits);
        let num = if neg {
            -acc
        } else {
            acc
        };
        proof {
            if !seen_dot {
                assert(intpart + fracpart =~= intpart);
            }
            assert(acc == digits_val(decimal_digits(s@)));
            if neg {
                assert(num as int == -1 * digits_val(decimal_digits(s@))) by (nonlinear_arith)
                    requires
                        num as int == -(acc as int),
                        acc == digits_val(decimal_digits(s@)),
                ;
            } else {
                assert(num as int == 1 * digits_val(decimal_digits(s@))) by (nonlinear_arith)
                    requires
                        num as int == acc as int,
                        acc == digits_val(decimal_digits(s@)),
                ;
            }
            assert(num as int == decimal_value(s@).num);
        }
        Some(Rational { num, den })
    }
}

fn pow10_exec(e: usize) -> (r: i128)
    requires
        e <= 18,
    ensures
        r == pow10(e as nat),
        1 <= r <= 1_000_000_000_000_000_000,
{
    let mut r: i128 = 1;
    let mut j: usize = 0;
    while j < e
        invariant
            j <= e,
            e <= 18,
            r == pow10(j as nat),
            1 <= r <= 1_000_000_000_000_000_000,
        decreases e - j,
    {
        proof {
            lemma_pow10_monotone((j + 1) as nat, 18);
            lemma_pow10_18();
        }
        r = r * 10;
        j = j + 1;
    }
    r
}

} // verus!
