//! Decimal text for readings: a number rounded to one place after the point.
//!
//! The rounding is exact. The reading's value is taken as it is, a whole
//! multiple of 2^-1074, and goes to the nearest tenth; a value half-way
//! between two tenths goes to the even one.

use vstd::prelude::*;
use vstd::string::*;
use vstd::arithmetic::div_mod::{
    lemma_fundamental_div_mod, lemma_fundamental_div_mod_converse, lemma_mod_bound,
};
use vstd::arithmetic::mul::{
    lemma_mul_basics, lemma_mul_is_associative, lemma_mul_is_commutative,
    lemma_mul_is_distributive_add_other_way, lemma_mul_nonnegative, lemma_mul_strictly_positive,
};
use vstd::arithmetic::power2::{
    lemma2_to64, lemma2_to64_rest, lemma_pow2_adds, lemma_pow2_pos, lemma_pow2_unfold, pow2,
};
use vstd::bits::lemma_u64_shl_is_mul;
use crate::arith::{lemma_pow2_reaches, lemma_scaled_order, lemma_small_quotient};
use crate::reading::{
    lemma_large_exponent_magnitude, unit, Reading, EXPONENT_SPECIAL, FRACTION_SPAN,
};

verus! {

/// The character for one decimal digit.
pub open spec fn digit_char(d: nat) -> char {
    if d == 0 {
        '0'
    } else if d == 1 {
        '1'
    } else if d == 2 {
        '2'
    } else if d == 3 {
        '3'
    } else if d == 4 {
        '4'
    } else if d == 5 {
        '5'
    } else if d == 6 {
        '6'
    } else if d == 7 {
        '7'
    } else if d == 8 {
        '8'
    } else {
        '9'
    }
}

/// A natural number in decimal, without leading zeros.
pub open spec fn decimal_digits(n: nat) -> Seq<char>
    decreases n,
{
    if n < 10 {
        seq![digit_char(n)]
    } else {
        decimal_digits(n / 10).push(digit_char(n % 10))
    }
}

/// `n` divided by `d` and rounded to the nearest whole number, the even one
/// where two are equally near.
pub open spec fn rounded_quotient(n: nat, d: nat) -> nat {
    let q = n / d;
    let r = n % d;
    if 2 * r > d || (2 * r == d && q % 2 == 1) {
        q + 1
    } else {
        q
    }
}

/// The absolute value of a reading in tenths, rounded.
pub open spec fn tenths(r: Reading) -> nat {
    rounded_quotient(10 * r.magnitude(), unit())
}

/// The text of a reading with one digit after the point: `NaN`, `inf` or
/// `-inf` for what is no number, else a minus sign if the sign bit is set,
/// the whole part, a point and the digit of the tenths.
pub open spec fn one_decimal_text(r: Reading) -> Seq<char> {
    if r.is_nan() {
        seq!['N', 'a', 'N']
    } else if r.is_infinite() {
        if r.sign_negative() {
            seq!['-', 'i', 'n', 'f']
        } else {
            seq!['i', 'n', 'f']
        }
    } else {
        let sign = if r.sign_negative() {
            seq!['-']
        } else {
            Seq::<char>::empty()
        };
        sign + decimal_digits(tenths(r) / 10) + seq!['.', digit_char(tenths(r) % 10)]
    }
}

/// The number that decimal digits stand for, the lowest digit first.
pub open spec fn digits_value(s: Seq<u8>) -> nat
    decreases s.len(),
{
    if s.len() == 0 {
        0
    } else {
        s[0] as nat + 10 * digits_value(s.drop_first())
    }
}

/// The characters of decimal digits that are held lowest first: in reading
/// order, so the last digit comes first.
pub open spec fn digits_text(s: Seq<u8>) -> Seq<char>
    decreases s.len(),
{
    if s.len() == 0 {
        Seq::<char>::empty()
    } else {
        digits_text(s.drop_first()).push(digit_char(s[0] as nat))
    }
}

/// Every entry is a decimal digit.
pub open spec fn all_digits(s: Seq<u8>) -> bool {
    forall|i: int| 0 <= i < s.len() ==> s[i] < 10
}

/// Digits, lowest first, as a number is written: at least one, and no zero
/// in the highest place unless it is the only digit.
pub open spec fn well_formed_digits(s: Seq<u8>) -> bool {
    &&& s.len() >= 1
    &&& all_digits(s)
    &&& (s.len() == 1 || s.last() != 0)
}

/// A single digit stands for itself.
pub proof fn lemma_single_digit(s: Seq<u8>)
    requires
        s.len() == 1,
    ensures
        digits_value(s) == s[0],
        digits_text(s) == seq![digit_char(s[0] as nat)],
{
    let rest = s.drop_first();
    assert(rest.len() == 0);
    assert(digits_value(rest) == 0);
    assert(digits_text(rest) =~= Seq::<char>::empty());
    assert(digits_text(s) =~= seq![digit_char(s[0] as nat)]);
}

/// Digits whose highest is not zero stand for a positive number.
pub proof fn lemma_digits_positive(s: Seq<u8>)
    requires
        s.len() >= 1,
        s.last() != 0,
    ensures
        digits_value(s) >= 1,
    decreases s.len(),
{
    if s.len() > 1 {
        lemma_digits_positive(s.drop_first());
    }
}

/// Well-formed digits, read from the highest down, are the decimal numeral
/// of their value.
pub proof fn lemma_digits_text(s: Seq<u8>)
    requires
        well_formed_digits(s),
    ensures
        decimal_digits(digits_value(s)) == digits_text(s),
    decreases s.len(),
{
    let rest = s.drop_first();
    if s.len() == 1 {
        lemma_single_digit(s);
    } else {
        assert(rest.last() == s.last());
        lemma_digits_positive(rest);
        lemma_digits_text(rest);
        let n = digits_value(s);
        assert(n == s[0] as nat + 10 * digits_value(rest));
        assert(n / 10 == digits_value(rest));
        assert(n % 10 == s[0] as nat);
    }
}

/// One decimal digit as text.
fn digit_str(d: u8) -> (s: &'static str)
    requires
        d < 10,
    ensures
        s@ == seq![digit_char(d as nat)],
{
    proof {
        reveal_strlit("0");
        reveal_strlit("1");
        reveal_strlit("2");
        reveal_strlit("3");
        reveal_strlit("4");
        reveal_strlit("5");
        reveal_strlit("6");
        reveal_strlit("7");
        reveal_strlit("8");
        reveal_strlit("9");
    }
    let s = if d == 0 {
        "0"
    } else if d == 1 {
        "1"
    } else if d == 2 {
        "2"
    } else if d == 3 {
        "3"
    } else if d == 4 {
        "4"
    } else if d == 5 {
        "5"
    } else if d == 6 {
        "6"
    } else if d == 7 {
        "7"
    } else if d == 8 {
        "8"
    } else {
        "9"
    };
    assert(s@ =~= seq![digit_char(d as nat)]);
    s
}

/// The decimal digits of `n`, lowest first.
fn digits_of(n: u64) -> (v: Vec<u8>)
    ensures
        well_formed_digits(v@),
        digits_value(v@) == n,
    decreases n,
{
    if n < 10 {
        let mut v: Vec<u8> = Vec::new();
        v.push(n as u8);
        proof {
            lemma_single_digit(v@);
        }
        v
    } else {
        let mut v = digits_of(n / 10);
        let ghost upper = v@;
        v.insert(0, (n % 10) as u8);
        proof {
            assert(v@.drop_first() =~= upper);
            assert(v@.last() == upper.last());
            if upper.len() == 1 {
                lemma_single_digit(upper);
            }
        }
        v
    }
}

/// Appends digits that are held lowest first, in reading order.
fn push_digits(out: &mut String, digits: &Vec<u8>)
    requires
        all_digits(digits@),
    ensures
        final(out)@ == old(out)@ + digits_text(digits@),
{
    let ghost start = out@;
    let mut i: usize = digits.len();
    assert(digits@.subrange(i as int, digits@.len() as int).len() == 0);
    assert(out@ =~= start + digits_text(digits@.subrange(i as int, digits@.len() as int)));
    while i > 0
        invariant
            i <= digits@.len(),
            all_digits(digits@),
            out@ == start + digits_text(digits@.subrange(i as int, digits@.len() as int)),
        decreases i,
    {
        i = i - 1;
        let d = digits[i];
        proof {
            let tail = digits@.subrange(i as int, digits@.len() as int);
            assert(tail.drop_first() =~= digits@.subrange(i + 1, digits@.len() as int));
            assert(tail[0] == d);
        }
        out.append(digit_str(d));
        assert(out@ =~= start + digits_text(digits@.subrange(i as int, digits@.len() as int)));
    }
    assert(digits@.subrange(0, digits@.len() as int) =~= digits@);
}

/// Doubles, in place, the digits from place `i` up, with `carry` coming in
/// from the places below.
fn double_from(digits: &mut Vec<u8>, i: usize, carry: u8)
    requires
        i <= old(digits)@.len(),
        carry <= 1,
        old(digits)@.len() >= 1,
        all_digits(old(digits)@),
        (i < old(digits)@.len() || carry == 0) ==> old(digits)@.last() != 0,
    ensures
        final(digits)@.len() >= old(digits)@.len(),
        all_digits(final(digits)@),
        final(digits)@.last() != 0,
        final(digits)@.subrange(0, i as int) == old(digits)@.subrange(0, i as int),
        digits_value(final(digits)@.subrange(i as int, final(digits)@.len() as int)) == 2
            * digits_value(old(digits)@.subrange(i as int, old(digits)@.len() as int)) + carry,
    decreases old(digits)@.len() - i,
{
    let ghost before = digits@;
    let len = digits.len();
    if i == len {
        if carry > 0 {
            digits.push(carry);
        }
        proof {
            let old_tail = before.subrange(i as int, before.len() as int);
            let new_tail = digits@.subrange(i as int, digits@.len() as int);
            assert(old_tail.len() == 0);
            if carry > 0 {
                lemma_single_digit(new_tail);
            } else {
                assert(new_tail.len() == 0);
            }
            assert(digits@.subrange(0, i as int) =~= before.subrange(0, i as int));
        }
    } else {
        let d: u8 = 2 * digits[i] + carry;
        digits[i] = d % 10;
        let ghost middle = digits@;
        double_from(digits, i + 1, d / 10);
        proof {
            let old_tail = before.subrange(i as int, before.len() as int);
            let new_tail = digits@.subrange(i as int, digits@.len() as int);
            assert(old_tail.drop_first() =~= before.subrange(i + 1, before.len() as int));
            assert(middle.subrange(i + 1, middle.len() as int) =~= before.subrange(
                i + 1,
                before.len() as int,
            ));
            assert(new_tail.drop_first() =~= digits@.subrange(i + 1, digits@.len() as int));
            assert(digits@.subrange(0, i + 1)[i as int] == middle.subrange(0, i + 1)[i as int]);
            assert(new_tail[0] == d % 10);
            assert(old_tail[0] == before[i as int]);
            assert(digits@.subrange(0, i as int) =~= before.subrange(0, i as int)) by {
                assert forall|j: int| 0 <= j < i implies digits@[j] == before[j] by {
                    assert(digits@.subrange(0, i + 1)[j] == middle.subrange(0, i + 1)[j]);
                }
            }
        }
    }
}

/// Doubles a positive number held as decimal digits, lowest first.
fn double_digits(digits: &mut Vec<u8>)
    requires
        well_formed_digits(old(digits)@),
        old(digits)@.last() != 0,
    ensures
        well_formed_digits(final(digits)@),
        final(digits)@.last() != 0,
        digits_value(final(digits)@) == 2 * digits_value(old(digits)@),
{
    let ghost before = digits@;
    double_from(digits, 0, 0);
    proof {
        assert(before.subrange(0, before.len() as int) =~= before);
        assert(digits@.subrange(0, digits@.len() as int) =~= digits@);
    }
}

/// Multiplying what is divided and what divides by one positive number
/// leaves the rounded quotient as it was.
pub proof fn lemma_rounded_quotient_scaled(n: nat, d: nat, c: nat)
    requires
        d > 0,
        c > 0,
    ensures
        rounded_quotient(n * c, d * c) == rounded_quotient(n, d),
{
    let q = (n / d) as int;
    let r = (n % d) as int;
    lemma_fundamental_div_mod(n as int, d as int);
    lemma_mod_bound(n as int, d as int);
    lemma_mul_strictly_positive(d as int, c as int);
    lemma_mul_nonnegative(r, c as int);
    lemma_scaled_order(r, d as int, c as int);
    assert(n * c == q * (d * c) + r * c) by (nonlinear_arith)
        requires
            n == d * q + r,
    ;
    lemma_fundamental_div_mod_converse((n * c) as int, (d * c) as int, q, r * c);
    lemma_scaled_order(2 * r, d as int, c as int);
    assert(2 * (r * c) == (2 * r) * c) by (nonlinear_arith);
}

/// The rounded quotient is a nearest whole number: it is off from the true
/// quotient by at most a half, and where it is off by exactly a half it is
/// even.
pub proof fn lemma_rounded_quotient_nearest(n: nat, d: nat)
    requires
        d > 0,
    ensures
        2 * (n - rounded_quotient(n, d) * d) <= d,
        2 * (rounded_quotient(n, d) * d - n) <= d,
        (2 * (n - rounded_quotient(n, d) * d) == d || 2 * (rounded_quotient(n, d) * d - n) == d)
            ==> rounded_quotient(n, d) % 2 == 0,
{
    let q = (n / d) as int;
    let r = (n % d) as int;
    lemma_fundamental_div_mod(n as int, d as int);
    lemma_mod_bound(n as int, d as int);
    lemma_mul_is_commutative(d as int, q);
    lemma_mul_is_distributive_add_other_way(d as int, q, 1);
    lemma_mul_basics(d as int);
}

/// The tenths of a reading are the whole number nearest to ten times its
/// absolute value, the even one of two that are equally near.
pub proof fn lemma_tenths_nearest(r: Reading)
    ensures
        2 * (10 * r.magnitude() - tenths(r) * unit()) <= unit(),
        2 * (tenths(r) * unit() - 10 * r.magnitude()) <= unit(),
        (2 * (10 * r.magnitude() - tenths(r) * unit()) == unit() || 2 * (tenths(r) * unit() - 10
            * r.magnitude()) == unit()) ==> tenths(r) % 2 == 0,
{
    lemma_pow2_pos(1074);
    lemma_rounded_quotient_nearest(10 * r.magnitude(), unit());
}

/// `ten_m` over 2^k, rounded to the nearest whole number, ties to even.
fn rounded_shift(ten_m: u64, k: u64) -> (t: u64)
    requires
        ten_m < 0x200_0000_0000_0000,
        k >= 1,
    ensures
        t == rounded_quotient(ten_m as nat, pow2(k as nat)),
{
    proof {
        lemma2_to64_rest();
        lemma_pow2_pos(k as nat);
    }
    if k >= 58 {
        proof {
            lemma_pow2_reaches(58, k as nat);
            lemma_small_quotient(ten_m as int, pow2(k as nat) as int);
        }
        0
    } else {
        let d: u64 = 1u64 << k;
        proof {
            lemma_pow2_reaches(k as nat, 57);
            lemma_pow2_reaches(1, k as nat);
            lemma2_to64();
            lemma_mul_basics(pow2(k as nat) as int);
            lemma_u64_shl_is_mul(1, k);
            lemma_fundamental_div_mod(ten_m as int, d as int);
            lemma_mod_bound(ten_m as int, d as int);
        }
        let q = ten_m / d;
        let r = ten_m % d;
        assert(q <= ten_m) by (nonlinear_arith)
            requires
                ten_m == d * q + r,
                d >= 1,
                r >= 0,
                q >= 0,
        ;
        if 2 * r > d || (2 * r == d && q % 2 == 1) {
            q + 1
        } else {
            q
        }
    }
}

/// From exponent field 1075 on a reading is a whole number, and its tenths
/// are ten times that number.
pub proof fn lemma_tenths_of_whole(r: Reading)
    requires
        r.exponent_field() >= 1075,
    ensures
        tenths(r) == 10 * (r.significand() * pow2((r.exponent_field() - 1075) as nat)),
{
    let whole = r.significand() * pow2((r.exponent_field() - 1075) as nat);
    lemma_large_exponent_magnitude(r);
    lemma_pow2_pos(1074);
    lemma_mul_is_associative(10, whole as int, unit() as int);
    lemma_rounded_quotient_scaled(10 * whole, 1, unit());
    lemma_mul_basics(unit() as int);
}

/// Below exponent field 1075 the tenths of a reading are its significand
/// times ten, over a power of two, rounded.
pub proof fn lemma_tenths_of_fraction(r: Reading)
    requires
        r.exponent_field() < 1075,
    ensures
        tenths(r) == rounded_quotient(
            10 * r.significand(),
            pow2((1074 - r.scale()) as nat),
        ),
{
    let k = (1074 - r.scale()) as nat;
    let p = pow2(r.scale());
    lemma_pow2_adds(k, r.scale());
    lemma_pow2_pos(k);
    lemma_pow2_pos(r.scale());
    lemma_mul_is_associative(10, r.significand() as int, p as int);
    lemma_rounded_quotient_scaled(10 * r.significand(), pow2(k), p);
}

/// The text of a reading with one digit after the point.
pub fn one_decimal(r: Reading) -> (s: String)
    ensures
        s@ == one_decimal_text(r),
{
    let e = r.exponent_bits();
    let f = r.fraction_bits();
    let negative = r.is_sign_negative();
    if e == EXPONENT_SPECIAL {
        proof {
            reveal_strlit("NaN");
            reveal_strlit("-inf");
            reveal_strlit("inf");
        }
        let word = if f != 0 {
            "NaN"
        } else if negative {
            "-inf"
        } else {
            "inf"
        };
        assert(word@ =~= one_decimal_text(r));
        return String::from_str(word);
    }
    let mut out = String::new();
    if negative {
        proof {
            reveal_strlit("-");
        }
        out.append("-");
    }
    let ghost sign = out@;
    assert(sign =~= if r.sign_negative() {
        seq!['-']
    } else {
        Seq::<char>::empty()
    });
    let tenth: u8;
    if e >= 1075 {
        let m: u64 = FRACTION_SPAN + f;
        let mut whole = digits_of(m);
        proof {
            if whole@.len() == 1 {
                lemma_single_digit(whole@);
            }
            lemma2_to64();
            lemma_mul_basics(m as int);
        }
        let mut i: u64 = 1075;
        while i < e
            invariant
                1075 <= i <= e,
                well_formed_digits(whole@),
                whole@.last() != 0,
                digits_value(whole@) == m * pow2((i - 1075) as nat),
            decreases e - i,
        {
            double_digits(&mut whole);
            i = i + 1;
            proof {
                lemma_pow2_unfold((i - 1075) as nat);
                lemma_mul_is_associative(m as int, 2, pow2((i - 1076) as nat) as int);
                lemma_mul_is_commutative(m as int, 2);
                lemma_mul_is_associative(2, m as int, pow2((i - 1076) as nat) as int);
            }
        }
        proof {
            lemma_tenths_of_whole(r);
            lemma_digits_text(whole@);
        }
        push_digits(&mut out, &whole);
        tenth = 0;
    } else {
        let m: u64 = if e == 0 {
            f
        } else {
            FRACTION_SPAN + f
        };
        let k: u64 = if e == 0 {
            1074
        } else {
            1075 - e
        };
        let t = rounded_shift(10 * m, k);
        let whole = digits_of(t / 10);
        proof {
            lemma_tenths_of_fraction(r);
            lemma_digits_text(whole@);
        }
        push_digits(&mut out, &whole);
        tenth = (t % 10) as u8;
    }
    proof {
        reveal_strlit(".");
    }
    out.append(".");
    out.append(digit_str(tenth));
    assert(out@ =~= one_decimal_text(r));
    out
}

} // verus!
