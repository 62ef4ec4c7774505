//! Double precision numbers by their bits: comparison, widening from single
//! precision, and conversion from integers, all in integer arithmetic.

use vstd::prelude::*;
use vstd::arithmetic::power2::{
    lemma2_to64, lemma2_to64_rest, lemma_pow2_adds, lemma_pow2_pos, lemma_pow2_strictly_increases,
    lemma_pow2_unfold, pow2,
};

verus! {

/// The bits of `0.0`.
pub const ZERO: u64 = 0;

/// The bits of `1.0`.
pub const ONE: u64 = 0x3FF0_0000_0000_0000;

/// The bits of `1e-5`.
pub const TEN_TO_MINUS_FIVE: u64 = 0x3EE4_F8B5_88E3_68F1;

/// Two to the power 52: the weight of the leading bit of a significand.
pub const LEAD: u64 = 0x10_0000_0000_0000;

/// The weight of the sign bit.
pub const SIGN: u64 = 0x8000_0000_0000_0000;

/// Whether the sign bit is set.
pub open spec fn negative(b: u64) -> bool {
    b >= SIGN
}

/// The bits without the sign bit.
pub open spec fn magnitude(b: u64) -> nat {
    b as nat % SIGN as nat
}

/// The exponent field.
pub open spec fn exponent(b: u64) -> nat {
    magnitude(b) / LEAD as nat
}

/// The fraction field.
pub open spec fn fraction(b: u64) -> nat {
    magnitude(b) % LEAD as nat
}

/// Whether the bits are those of a number that is neither infinite nor NaN.
pub open spec fn finite(b: u64) -> bool {
    exponent(b) < 2047
}

/// Whether the bits are those of a NaN.
pub open spec fn nan(b: u64) -> bool {
    exponent(b) == 2047 && fraction(b) != 0
}

/// The absolute value of a finite number, times two to the power 1074.
pub open spec fn scaled_magnitude(b: u64) -> nat {
    if exponent(b) == 0 {
        fraction(b)
    } else {
        (LEAD as nat + fraction(b)) * pow2((exponent(b) - 1) as nat)
    }
}

/// A finite number, times two to the power 1074.
pub open spec fn scaled(b: u64) -> int {
    if negative(b) {
        -(scaled_magnitude(b) as int)
    } else {
        scaled_magnitude(b) as int
    }
}

/// The place of a number other than NaN in the order of all of them.
pub open spec fn order_key(b: u64) -> int {
    if negative(b) {
        -(magnitude(b) as int)
    } else {
        magnitude(b) as int
    }
}

/// `a < b` for the numbers with these bits.
pub open spec fn float_lt(a: u64, b: u64) -> bool {
    !nan(a) && !nan(b) && order_key(a) < order_key(b)
}

/// `a == b` for the numbers with these bits.
pub open spec fn float_eq(a: u64, b: u64) -> bool {
    !nan(a) && !nan(b) && order_key(a) == order_key(b)
}

proof fn scaled_magnitude_grows(a: u64, b: u64)
    requires
        finite(a),
        finite(b),
        magnitude(a) < magnitude(b),
    ensures
        scaled_magnitude(a) < scaled_magnitude(b),
{
    let ea = exponent(a);
    let eb = exponent(b);
    assert(ea <= eb);
    if ea == eb {
        assert(fraction(a) < fraction(b));
        if ea > 0 {
            lemma_pow2_pos((ea - 1) as nat);
            let p = pow2((ea - 1) as nat) as int;
            let x = LEAD + fraction(a);
            let y = LEAD + fraction(b);
            assert(x * p < y * p) by (nonlinear_arith)
                requires
                    x < y,
                    p > 0,
            ;
        }
    } else {
        lemma_pow2_pos((eb - 1) as nat);
        let q = pow2((eb - 1) as nat) as int;
        let y = LEAD + fraction(b);
        assert(y * q >= LEAD * q) by (nonlinear_arith)
            requires
                y >= LEAD,
                q > 0,
        ;
        if ea == 0 {
            assert(LEAD * q >= LEAD) by (nonlinear_arith)
                requires
                    q >= 1,
            ;
        } else {
            let p = pow2((ea - 1) as nat) as int;
            lemma_pow2_pos((ea - 1) as nat);
            lemma_pow2_unfold(ea);
            if ea < eb - 1 {
                lemma_pow2_strictly_increases(ea, (eb - 1) as nat);
            }
            let x = LEAD + fraction(a);
            assert(q >= 2 * p);
            assert(x * p < 2 * LEAD * p) by (nonlinear_arith)
                requires
                    x < 2 * LEAD,
                    p > 0,
            ;
            assert(2 * LEAD * p <= LEAD * q) by (nonlinear_arith)
                requires
                    q >= 2 * p,
            ;
        }
    }
}

/// The order of bits is the order of the numbers: finite numbers compare as
/// their values do, whatever the sign of zero.
pub proof fn order_is_that_of_values(a: u64, b: u64)
    requires
        finite(a),
        finite(b),
    ensures
        float_lt(a, b) <==> scaled(a) < scaled(b),
        float_eq(a, b) <==> scaled(a) == scaled(b),
{
    if magnitude(a) < magnitude(b) {
        scaled_magnitude_grows(a, b);
    } else if magnitude(b) < magnitude(a) {
        scaled_magnitude_grows(b, a);
    }
    zero_magnitude(a);
    zero_magnitude(b);
}

proof fn zero_magnitude(a: u64)
    requires
        finite(a),
    ensures
        scaled_magnitude(a) == 0 <==> magnitude(a) == 0,
{
    if magnitude(a) > 0 {
        scaled_magnitude_grows(0, a);
    }
}

/// Whether the bits are those of a NaN.
pub fn is_nan(b: u64) -> (r: bool)
    ensures
        r == nan(b),
{
    let m: u64 = b % SIGN;
    m / LEAD == 2047 && m % LEAD != 0
}

/// `a < b` for the numbers with these bits.
pub fn less(a: u64, b: u64) -> (r: bool)
    ensures
        r == float_lt(a, b),
{
    if is_nan(a) || is_nan(b) {
        return false;
    }
    if a >= SIGN {
        if b >= SIGN {
            b % SIGN < a % SIGN
        } else {
            a % SIGN > 0 || b % SIGN > 0
        }
    } else {
        b < SIGN && a % SIGN < b % SIGN
    }
}

/// `a == b` for the numbers with these bits.
pub fn equal(a: u64, b: u64) -> (r: bool)
    ensures
        r == float_eq(a, b),
{
    if is_nan(a) || is_nan(b) {
        return false;
    }
    if (a >= SIGN) == (b >= SIGN) {
        a % SIGN == b % SIGN
    } else {
        a % SIGN == 0 && b % SIGN == 0
    }
}

/// The bits of a positive number from its significand, whose leading bit is
/// set, and its exponent.
fn assemble(neg: bool, significand: u64, exp: u64) -> (r: u64)
    requires
        LEAD <= significand < 2 * LEAD,
        0 < exp < 2047,
    ensures
        finite(r),
        negative(r) == neg,
        exponent(r) == exp,
        scaled_magnitude(r) == significand as nat * pow2((exp - 1) as nat),
{
    let m: u64 = exp * LEAD + (significand - LEAD);
    assert(m / LEAD == exp && m % LEAD == significand - LEAD && m < SIGN);
    if neg {
        assert((SIGN + m) as nat % SIGN as nat == m);
        SIGN + m
    } else {
        m
    }
}

/// Doubles a significand until its leading bit is set, lowering the exponent.
fn normalize(significand: u64, exp: u64) -> (r: (u64, u64))
    requires
        0 < significand < 2 * LEAD,
        54 <= exp < 2047,
    ensures
        LEAD <= r.0 < 2 * LEAD,
        0 < r.1 <= exp,
        r.0 as nat * pow2((r.1 - 1) as nat) == significand as nat * pow2((exp - 1) as nat),
{
    let mut m: u64 = significand;
    let mut e: u64 = exp;
    let ghost mut k: nat = 0;
    proof {
        lemma2_to64();
    }
    while m < LEAD
        invariant
            0 < m < 2 * LEAD,
            e + k == exp,
            k <= 52,
            pow2(k) <= m,
            54 <= exp < 2047,
            m as nat * pow2((e - 1) as nat) == significand as nat * pow2((exp - 1) as nat),
        decreases 2 * LEAD - m,
    {
        proof {
            lemma_pow2_unfold((e - 1) as nat);
            lemma_pow2_unfold(k + 1);
            let p = pow2((e - 2) as nat) as int;
            let x = m as int;
            assert(x * (2 * p) == (2 * x) * p) by (nonlinear_arith);
            if k == 52 {
                lemma2_to64_rest();
            }
        }
        m = m * 2;
        e = e - 1;
        proof {
            k = k + 1;
        }
    }
    (m, e)
}

/// The sign bit of single precision bits.
pub open spec fn single_negative(w: u32) -> bool {
    w >= 0x8000_0000
}

/// The exponent field of single precision bits.
pub open spec fn single_exponent(w: u32) -> nat {
    (w as nat % 0x8000_0000) / 0x80_0000
}

/// The fraction field of single precision bits.
pub open spec fn single_fraction(w: u32) -> nat {
    w as nat % 0x80_0000
}

/// The absolute value of a finite single precision number, times two to the
/// power 149.
pub open spec fn single_scaled_magnitude(w: u32) -> nat {
    if single_exponent(w) == 0 {
        single_fraction(w)
    } else {
        (0x80_0000 + single_fraction(w)) * pow2((single_exponent(w) - 1) as nat)
    }
}

/// Whether `b` are the bits of the double precision number equal to the
/// single precision number with bits `w`. Infinities stay infinite; a NaN
/// keeps its sign and its payload and becomes quiet.
pub open spec fn widens(w: u32, b: u64) -> bool {
    &&& negative(b) == single_negative(w)
    &&& if single_exponent(w) < 255 {
        finite(b) && scaled_magnitude(b) == single_scaled_magnitude(w) * pow2(925)
    } else if single_fraction(w) == 0 {
        exponent(b) == 2047 && fraction(b) == 0
    } else {
        exponent(b) == 2047 && fraction(b) == single_fraction(w) * 0x2000_0000 + if single_fraction(w)
            < 0x40_0000 {
            0x8_0000_0000_0000int
        } else {
            0
        }
    }
}

/// Widening is exact: the bits that a single precision number widens to are
/// fixed by it.
pub proof fn widens_to_one(w: u32, a: u64, b: u64)
    requires
        widens(w, a),
        widens(w, b),
    ensures
        a == b,
{
    if single_exponent(w) < 255 {
        if magnitude(a) < magnitude(b) {
            scaled_magnitude_grows(a, b);
        } else if magnitude(b) < magnitude(a) {
            scaled_magnitude_grows(b, a);
        }
    } else {
        assert(magnitude(a) == exponent(a) * LEAD + fraction(a));
        assert(magnitude(b) == exponent(b) * LEAD + fraction(b));
    }
}

/// The bits that single precision bits widen to.
pub open spec fn widened(w: u32) -> u64 {
    choose|b: u64| widens(w, b)
}

/// The double precision number equal to a single precision number.
pub fn widen(w: u32) -> (r: u64)
    ensures
        widens(w, r),
        r == widened(w),
{
    let r = widened_bits(w);
    proof {
        widens_to_one(w, r, widened(w));
    }
    r
}

fn widened_bits(w: u32) -> (r: u64)
    ensures
        widens(w, r),
{
    let neg: bool = w >= 0x8000_0000;
    let sign: u64 = if neg { SIGN } else { 0 };
    let e: u64 = ((w % 0x8000_0000) / 0x80_0000) as u64;
    let f: u64 = (w % 0x80_0000) as u64;
    if e == 255 {
        let quiet: u64 = if f == 0 || f >= 0x40_0000 { 0 } else { 0x8_0000_0000_0000 };
        let m: u64 = 2047 * LEAD + f * 0x2000_0000 + quiet;
        assert(m / LEAD == 2047 && m % LEAD == f * 0x2000_0000 + quiet && m < SIGN);
        let r: u64 = sign + m;
        assert(r as nat % SIGN as nat == m);
        return r;
    }
    if e == 0 && f == 0 {
        assert(0nat * pow2(925) == 0) by (nonlinear_arith);
        assert(sign as nat % SIGN as nat == 0);
        return sign;
    }
    proof {
        lemma2_to64();
        assert(pow2(29) == 0x2000_0000);
    }
    if e == 0 {
        let (m, x) = normalize(f * 0x2000_0000, 897);
        proof {
            lemma_pow2_adds(29, 896);
            let a = f as int;
            let p = pow2(896) as int;
            assert((a * 0x2000_0000) * p == a * (0x2000_0000 * p)) by (nonlinear_arith);
        }
        assemble(neg, m, x)
    } else {
        let m: u64 = (0x80_0000 + f) * 0x2000_0000;
        proof {
            lemma_pow2_adds((e - 1) as nat, 925);
            lemma_pow2_adds(29, (e + 895) as nat);
            let a = 0x80_0000 + f;
            let p = pow2((e - 1) as nat) as int;
            let q = pow2(925) as int;
            let t = pow2((e + 895) as nat) as int;
            assert((e - 1) + 925 == 29 + (e + 895));
            assert(p * q == 0x2000_0000 * t);
            assert((a * 0x2000_0000) * t == (a * p) * q) by (nonlinear_arith)
                requires
                    p * q == 0x2000_0000 * t,
            ;
        }
        assemble(neg, m, e + 896)
    }
}

/// How many of the low bits of `n` do not fit a significand of 53 bits.
pub open spec fn excess_bits(n: nat) -> nat
    decreases n,
{
    if n < 2 * LEAD {
        0
    } else {
        1 + excess_bits(n / 2)
    }
}

/// `n / d` rounded to the nearest integer, to the even one of two that are
/// equally near.
pub open spec fn nearest_quotient(n: nat, d: nat) -> nat {
    let q = n / d;
    let r = n % d;
    if 2 * r > d || (2 * r == d && q % 2 == 1) {
        q + 1
    } else {
        q
    }
}

/// `n` rounded to 53 significant bits, to nearest, ties to even.
pub open spec fn round_to_double(n: nat) -> nat {
    let d = pow2(excess_bits(n));
    nearest_quotient(n, d) * d
}

/// The absolute value of an integer.
pub open spec fn absolute(i: int) -> nat {
    if i < 0 {
        (-i) as nat
    } else {
        i as nat
    }
}

/// Whether `b` are the bits of the double precision number nearest to `i`.
pub open spec fn nearest_to_int(i: int, b: u64) -> bool {
    &&& finite(b)
    &&& negative(b) == (i < 0)
    &&& scaled_magnitude(b) == round_to_double(absolute(i)) * pow2(1074)
}

/// The bits that an integer converts to are fixed by it.
pub proof fn nearest_to_one(i: int, a: u64, b: u64)
    requires
        nearest_to_int(i, a),
        nearest_to_int(i, b),
    ensures
        a == b,
{
    if magnitude(a) < magnitude(b) {
        scaled_magnitude_grows(a, b);
    } else if magnitude(b) < magnitude(a) {
        scaled_magnitude_grows(b, a);
    }
}

/// Integers of up to 53 bits convert exactly.
pub proof fn small_ints_are_exact(n: nat)
    requires
        n < 2 * LEAD,
    ensures
        round_to_double(n) == n,
{
    lemma2_to64();
    assert(pow2(excess_bits(n)) == 1);
    assert(n / 1 == n && n % 1 == 0);
    assert(nearest_quotient(n, 1) == n);
}

/// `(n / d) / 2 == n / (2 d)`.
proof fn halve_quotient(n: nat, d: nat)
    requires
        d > 0,
    ensures
        (n / d) / 2 == n / (2 * d),
{
    vstd::arithmetic::div_mod::lemma_div_denominator(n as int, d as int, 2);
    assert(d * 2 == 2 * d);
}

/// The bits of the double precision number nearest to an integer.
pub open spec fn double_of(i: int) -> u64 {
    choose|b: u64| nearest_to_int(i, b)
}

/// The double precision number nearest to an integer.
pub fn int_to_double(i: i64) -> (r: u64)
    ensures
        nearest_to_int(i as int, r),
        r == double_of(i as int),
{
    let r = nearest_bits(i);
    proof {
        nearest_to_one(i as int, r, double_of(i as int));
    }
    r
}

fn nearest_bits(i: i64) -> (r: u64)
    ensures
        nearest_to_int(i as int, r),
{
    let neg: bool = i < 0;
    let n: u64 = if i == i64::MIN {
        SIGN
    } else if i < 0 {
        (-i) as u64
    } else {
        i as u64
    };
    assert(n == absolute(i as int));
    proof {
        lemma2_to64();
        lemma2_to64_rest();
    }
    if n == 0 {
        assert(round_to_double(0) == 0) by {
            small_ints_are_exact(0);
        }
        assert(0nat * pow2(1074) == 0) by (nonlinear_arith);
        return 0;
    }
    let mut q: u64 = n;
    let mut d: u64 = 1;
    let mut k: u64 = 0;
    while q >= 2 * LEAD
        invariant
            n <= SIGN,
            k <= 11,
            d == pow2(k as nat),
            d <= 2048,
            q == n as nat / d as nat,
            q > 0,
            q as nat * d as nat <= n,
            excess_bits(n as nat) == k + excess_bits(q as nat),
        decreases q,
    {
        proof {
            lemma_pow2_pos(k as nat);
            halve_quotient(n as nat, d as nat);
            lemma_pow2_unfold((k + 1) as nat);
            lemma2_to64();
            let a = q as int;
            let b = d as int;
            assert(a * b <= SIGN);
            assert(b <= 1024) by (nonlinear_arith)
                requires
                    a * b <= 0x8000_0000_0000_0000,
                    a >= 0x20_0000_0000_0000,
            ;
            if k == 11 {
                assert(d == 2048);
            }
            assert((a / 2) * (2 * b) <= a * b) by (nonlinear_arith)
                requires
                    a >= 0,
                    b >= 0,
            ;
        }
        q = q / 2;
        d = d * 2;
        k = k + 1;
    }
    let r: u64 = n % d;
    proof {
        assert(excess_bits(q as nat) == 0);
        assert(r < d);
    }
    let up: bool = 2 * r > d || (2 * r == d && q % 2 == 1);
    let m: u64 = if up { q + 1 } else { q };
    assert(m == nearest_quotient(n as nat, d as nat));
    proof {
        lemma_pow2_adds(k as nat, 1074);
        let a = m as int;
        let b = d as int;
        let c = pow2(1074) as int;
        assert((a * b) * c == a * (b * c)) by (nonlinear_arith);
        assert(round_to_double(n as nat) * pow2(1074) == m as nat * pow2((1074 + k) as nat));
    }
    if m == 2 * LEAD {
        proof {
            lemma_pow2_unfold((1075 + k) as nat);
            let t = pow2((1074 + k) as nat) as int;
            assert(0x20_0000_0000_0000 * t == 0x10_0000_0000_0000 * (2 * t)) by (nonlinear_arith);
        }
        assemble(neg, LEAD, 1076 + k)
    } else {
        let (s, e) = normalize(m, 1075 + k);
        assemble(neg, s, e)
    }
}

} // verus!
