//! Facts on floats as the machine has them: the bounds of conversions, and what
//! truncation keeps.

use crate::x64::args::OperandSize;
use vstd::prelude::*;

verus! {

/// Whether a size is that of the wider floats.
pub open spec fn is_wide(size: OperandSize) -> bool {
    size is Size64
}

/// Half of the values of a size.
pub open spec fn half(size: OperandSize) -> int {
    crate::x64::machine::values(size) / 2
}

/// One is positive.
pub proof fn lemma_one(wide: bool)
    ensures
        crate::x64::machine::one(wide) > 0,
{
    vstd::arithmetic::power2::lemma_pow2_pos(1074);
    vstd::arithmetic::power2::lemma_pow2_pos(149);
}

/// A magnitude is not negative.
pub proof fn lemma_magnitude(wide: bool, bits: int)
    requires
        0 <= bits,
    ensures
        crate::x64::machine::magnitude(wide, bits) >= 0,
{
    let p = vstd::arithmetic::power2::pow2(
        (crate::x64::machine::exponent(wide, bits) - 1) as nat,
    ) as int;
    let f = crate::x64::machine::fraction_values(wide) + crate::x64::machine::fraction(wide, bits);
    assert(f >= 0 && p >= 0 ==> f * p >= 0) by (nonlinear_arith);
}

/// A quotient is below a bound if and only if the dividend is below as many
/// divisors.
proof fn lemma_quotient_below(a: int, d: int, k: int)
    requires
        d > 0,
    ensures
        a / d < k <==> a < k * d,
{
    vstd::arithmetic::div_mod::lemma_fundamental_div_mod(a, d);
    let q = a / d;
    let r = a % d;
    assert(0 <= r < d);
    assert(a == d * q + r);
    assert(q < k ==> d * q + r < k * d) by (nonlinear_arith)
        requires
            0 <= r < d,
    ;
    assert(q >= k ==> d * q + r >= k * d) by (nonlinear_arith)
        requires
            0 <= r < d,
    ;
}

/// What is truncated is below a positive bound, or above a negative one, exactly
/// if the float is; towards zero a whole one is left out.
pub proof fn lemma_truncated(wide: bool, bits: int, k: int)
    requires
        0 <= bits,
        k > 0,
    ensures
        ({
            let v = crate::x64::machine::value(wide, bits);
            let t = crate::x64::machine::truncated(wide, bits);
            let one = crate::x64::machine::one(wide);
            &&& t < k <==> v < k * one
            &&& t > -k <==> v > -k * one
            &&& v >= 0 ==> t >= 0
            &&& v <= 0 ==> t <= 0
        }),
{
    lemma_one(wide);
    lemma_magnitude(wide, bits);
    let m = crate::x64::machine::magnitude(wide, bits);
    let one = crate::x64::machine::one(wide);
    lemma_quotient_below(m, one, k);
    vstd::arithmetic::div_mod::lemma_div_pos_is_pos(m, one);
    assert(k * one > 0) by (nonlinear_arith)
        requires
            k > 0,
            one > 0,
    ;
    assert(-k * one == -(k * one)) by (nonlinear_arith);
    if m == 0 {
        assert(0int / one == 0) by (nonlinear_arith)
            requires
                one > 0,
        ;
    }
}

/// Powers of two multiply by their exponents.
pub proof fn lemma_powers(a: nat, b: nat)
    ensures
        vstd::arithmetic::power2::pow2(a) * vstd::arithmetic::power2::pow2(b)
            == vstd::arithmetic::power2::pow2(a + b),
{
    vstd::arithmetic::power2::lemma_pow2_adds(a, b);
}

/// The bound of a conversion is the power of two that is too large for a signed
/// integer.
pub proof fn lemma_upper_bound(src_size: OperandSize, dst_size: OperandSize)
    requires
        crate::x64::emit_convert::cvt_ok(src_size, dst_size),
    ensures
        ({
            let wide = is_wide(src_size);
            let bits = crate::x64::emit_convert::upper_bound(src_size, dst_size) as int;
            &&& !crate::x64::machine::is_nan(wide, bits)
            &&& crate::x64::machine::value(wide, bits) == half(dst_size)
                * crate::x64::machine::one(wide)
            &&& src_size is Size32 ==> bits < 0x1_0000_0000
        }),
{
    vstd::arithmetic::power2::lemma2_to64();
    vstd::arithmetic::power2::lemma2_to64_rest();
    lemma_powers(23, 157);
    lemma_powers(31, 149);
    lemma_powers(23, 189);
    lemma_powers(63, 149);
    lemma_powers(52, 1053);
    lemma_powers(31, 1074);
    lemma_powers(52, 1085);
    lemma_powers(63, 1074);
    let wide = is_wide(src_size);
    let bits = crate::x64::emit_convert::upper_bound(src_size, dst_size) as int;
    match (src_size, dst_size) {
        (OperandSize::Size32, OperandSize::Size32) => {
            assert(bits == 0x4f00_0000);
            lemma_fields(false, bits, 0, 158, 0);
        },
        (OperandSize::Size32, _) => {
            assert(bits == 0x5f00_0000);
            lemma_fields(false, bits, 0, 190, 0);
        },
        (_, OperandSize::Size32) => {
            assert(bits == 0x41e0_0000_0000_0000);
            lemma_fields(true, bits, 0, 1054, 0);
        },
        (_, _) => {
            assert(bits == 0x43e0_0000_0000_0000);
            lemma_fields(true, bits, 0, 1086, 0);
        },
    }
}

/// The fields of a float.
proof fn lemma_fields(wide: bool, bits: int, sign: int, e: int, f: int)
    requires
        0 <= f < crate::x64::machine::fraction_values(wide),
        0 < e < crate::x64::machine::exponents(wide) - 1,
        0 <= sign <= 1,
        wide ==> bits == sign * 0x8000_0000_0000_0000 + e * 0x10_0000_0000_0000 + f,
        !wide ==> bits == sign * 0x8000_0000 + e * 0x80_0000 + f,
    ensures
        crate::x64::machine::is_negative(wide, bits) == (sign == 1),
        crate::x64::machine::exponent(wide, bits) == e,
        crate::x64::machine::fraction(wide, bits) == f,
        !crate::x64::machine::is_nan(wide, bits),
        crate::x64::machine::magnitude(wide, bits) == (crate::x64::machine::fraction_values(wide)
            + f) * vstd::arithmetic::power2::pow2((e - 1) as nat),
{
}

/// The lower bound of a conversion is the least signed integer, or the integer
/// below it where a float can be between the two.
pub proof fn lemma_lower_bound(src_size: OperandSize, dst_size: OperandSize)
    requires
        crate::x64::emit_convert::cvt_ok(src_size, dst_size),
    ensures
        ({
            let wide = is_wide(src_size);
            let bits = crate::x64::emit_convert::lower_bound(src_size, dst_size) as int;
            let one = crate::x64::machine::one(wide);
            &&& !crate::x64::machine::is_nan(wide, bits)
            &&& src_size is Size64 && dst_size is Size32 ==> crate::x64::machine::value(wide, bits)
                == -(0x8000_0001 * one)
            &&& !(src_size is Size64 && dst_size is Size32) ==> crate::x64::machine::value(
                wide,
                bits,
            ) == -(half(dst_size) * one)
            &&& src_size is Size32 ==> bits < 0x1_0000_0000
        }),
{
    vstd::arithmetic::power2::lemma2_to64();
    vstd::arithmetic::power2::lemma2_to64_rest();
    lemma_powers(23, 157);
    lemma_powers(31, 149);
    lemma_powers(23, 189);
    lemma_powers(63, 149);
    lemma_powers(21, 1053);
    lemma_powers(52, 1085);
    lemma_powers(63, 1074);
    let bits = crate::x64::emit_convert::lower_bound(src_size, dst_size) as int;
    match (src_size, dst_size) {
        (OperandSize::Size32, OperandSize::Size32) => {
            assert(bits == 0xcf00_0000);
            lemma_fields(false, bits, 1, 158, 0);
        },
        (OperandSize::Size32, _) => {
            assert(bits == 0xdf00_0000);
            lemma_fields(false, bits, 1, 190, 0);
        },
        (_, OperandSize::Size32) => {
            assert(bits == 0xc1e0_0000_0020_0000);
            lemma_fields(true, bits, 1, 1054, 0x20_0000);
            let p = vstd::arithmetic::power2::pow2(1053) as int;
            assert(crate::x64::machine::one(true) == 0x20_0000 * p);
            assert(0x10_0000_0020_0000 * p == 0x8000_0001 * (0x20_0000 * p)) by (nonlinear_arith);
        },
        (_, _) => {
            assert(bits == 0xc3e0_0000_0000_0000);
            lemma_fields(true, bits, 1, 1086, 0);
        },
    }
}

/// The float with no bits set is zero.
pub proof fn lemma_zero(wide: bool)
    ensures
        crate::x64::machine::value(wide, 0) == 0,
        !crate::x64::machine::is_nan(wide, 0),
        crate::x64::machine::float_in(wide, 0) == 0,
{
}

/// The exponent of one.
pub open spec fn one_exponent(wide: bool) -> nat {
    if wide {
        1074
    } else {
        149
    }
}

/// The number of bits of the fraction.
pub open spec fn fraction_bits(wide: bool) -> nat {
    if wide {
        52
    } else {
        23
    }
}

/// A float whose exponent is less than that of one is below the power of two that
/// has as many bits as the fraction.
pub proof fn lemma_small_exponent(wide: bool, bits: int)
    requires
        0 <= bits,
        crate::x64::machine::exponent(wide, bits) - 1 < one_exponent(wide),
    ensures
        crate::x64::machine::magnitude(wide, bits) < crate::x64::machine::fraction_values(wide)
            * crate::x64::machine::one(wide),
{
    vstd::arithmetic::power2::lemma2_to64();
    vstd::arithmetic::power2::lemma2_to64_rest();
    lemma_one(wide);
    let e = crate::x64::machine::exponent(wide, bits);
    let fv = crate::x64::machine::fraction_values(wide);
    let one = crate::x64::machine::one(wide);
    let f = crate::x64::machine::fraction(wide, bits);
    if e == 0 {
        assert(f < fv * one) by (nonlinear_arith)
            requires
                f < fv,
                fv > 0,
                one > 0,
        ;
    } else {
        let p = vstd::arithmetic::power2::pow2((e - 1) as nat) as int;
        lemma_powers(1, (e - 1) as nat);
        vstd::arithmetic::power2::lemma_pow2_pos((e - 1) as nat);
        if e < one_exponent(wide) {
            vstd::arithmetic::power2::lemma_pow2_strictly_increases(e as nat, one_exponent(wide));
        }
        assert(2 * p <= one);
        assert((fv + f) * p < fv * one) by (nonlinear_arith)
            requires
                0 <= f < fv,
                0 < p,
                2 * p <= one,
        ;
    }
}

/// A float whose exponent is at least that of one is an integer.
pub proof fn lemma_is_integer(wide: bool, bits: int) -> (q: int)
    requires
        0 <= bits,
        crate::x64::machine::exponent(wide, bits) - 1 >= one_exponent(wide),
    ensures
        crate::x64::machine::magnitude(wide, bits) == q * crate::x64::machine::one(wide),
{
    let e = crate::x64::machine::exponent(wide, bits);
    let m = crate::x64::machine::fraction_values(wide) + crate::x64::machine::fraction(wide, bits);
    let d = (e - 1 - one_exponent(wide)) as nat;
    lemma_powers(d, one_exponent(wide));
    let p = vstd::arithmetic::power2::pow2(d) as int;
    let one = crate::x64::machine::one(wide);
    assert(m * (p * one) == (m * p) * one) by (nonlinear_arith);
    m * p
}

/// There is no float between a large negative integer and the next below.
pub proof fn lemma_whole(wide: bool, bits: int, k: int)
    requires
        0 <= bits,
        k >= crate::x64::machine::fraction_values(wide),
    ensures
        ({
            let v = crate::x64::machine::value(wide, bits);
            let one = crate::x64::machine::one(wide);
            v < -(k * one) <==> v <= -((k + 1) * one)
        }),
{
    lemma_one(wide);
    lemma_magnitude(wide, bits);
    let one = crate::x64::machine::one(wide);
    let fv = crate::x64::machine::fraction_values(wide);
    let m = crate::x64::machine::magnitude(wide, bits);
    assert((k + 1) * one == k * one + one) by (nonlinear_arith);
    assert(k * one >= fv * one && k * one > 0) by (nonlinear_arith)
        requires
            k >= fv,
            fv > 0,
            one > 0,
    ;
    if crate::x64::machine::exponent(wide, bits) - 1 < one_exponent(wide) {
        lemma_small_exponent(wide, bits);
    } else {
        let q = lemma_is_integer(wide, bits);
        assert(q * one > k * one ==> q * one >= k * one + one) by (nonlinear_arith)
            requires
                one > 0,
        ;
    }
}

/// The bits that a float can have.
pub open spec fn has_size(wide: bool, bits: int) -> bool {
    0 <= bits < 2 * crate::x64::machine::sign_weight(wide)
}

/// Whether a float is neither infinite nor no number.
pub open spec fn is_finite(wide: bool, bits: int) -> bool {
    crate::x64::machine::exponent(wide, bits) < crate::x64::machine::exponents(wide) - 1
}

/// Whether a float is what an exact value may be rounded to: no other float is
/// between the two.
pub open spec fn rounded(wide: bool, exact: int, bits: int) -> bool {
    &&& has_size(wide, bits)
    &&& !crate::x64::machine::is_nan(wide, bits)
    &&& forall|y: int|
        has_size(wide, y) && !crate::x64::machine::is_nan(wide, y) ==> {
            &&& #[trigger] crate::x64::machine::value(wide, y) <= exact
                ==> crate::x64::machine::value(wide, y) <= crate::x64::machine::value(wide, bits)
            &&& crate::x64::machine::value(wide, y) >= exact ==> crate::x64::machine::value(wide, y)
                >= crate::x64::machine::value(wide, bits)
        }
}

/// Whether differences are rounded. What is subtracted from infinity leaves it.
pub open spec fn rounds_differences(r: crate::x64::machine::Rounding) -> bool {
    forall|wide: bool, a: int, b: int|
        has_size(wide, a) && has_size(wide, b) && !crate::x64::machine::is_nan(wide, a) && is_finite(
            wide,
            b,
        ) ==> {
            let d = #[trigger] (r.difference)(wide, a, b);
            if is_finite(wide, a) {
                rounded(
                    wide,
                    crate::x64::machine::value(wide, a) - crate::x64::machine::value(wide, b),
                    d,
                )
            } else {
                d == a
            }
        }
}

/// Every number of so many bits, times a power of two, is a float.
pub proof fn lemma_representable(wide: bool, m: int, j: nat) -> (y: int)
    requires
        0 <= m < 2 * crate::x64::machine::fraction_values(wide),
        j + 1 < crate::x64::machine::exponents(wide) - 1,
    ensures
        0 <= y < crate::x64::machine::sign_weight(wide),
        has_size(wide, y),
        !crate::x64::machine::is_nan(wide, y),
        is_finite(wide, y),
        crate::x64::machine::value(wide, y) == m * vstd::arithmetic::power2::pow2(j),
    decreases j,
{
    vstd::arithmetic::power2::lemma2_to64();
    let fv = crate::x64::machine::fraction_values(wide);
    if m >= fv {
        let y = (j + 1) * fv + (m - fv);
        if wide {
            assert(y == (j + 1) * 0x10_0000_0000_0000 + (m - fv));
        } else {
            assert(y == (j + 1) * 0x80_0000 + (m - fv));
        }
        lemma_fields(wide, y, 0, (j + 1) as int, m - fv);
        y
    } else if j == 0 {
        m
    } else {
        let y = lemma_representable(wide, 2 * m, (j - 1) as nat);
        lemma_powers(1, (j - 1) as nat);
        let p = vstd::arithmetic::power2::pow2((j - 1) as nat) as int;
        assert((2 * m) * p == m * (2 * p)) by (nonlinear_arith);
        y
    }
}

/// A float from a power of two up to the next has the exponent of that power.
pub proof fn lemma_exponent_of(wide: bool, bits: int, n: nat)
    requires
        0 <= bits,
        n >= fraction_bits(wide),
        vstd::arithmetic::power2::pow2(n) <= crate::x64::machine::magnitude(wide, bits)
            < vstd::arithmetic::power2::pow2(n + 1),
    ensures
        crate::x64::machine::exponent(wide, bits) - 1 == n - fraction_bits(wide),
{
    vstd::arithmetic::power2::lemma2_to64();
    vstd::arithmetic::power2::lemma2_to64_rest();
    let e = crate::x64::machine::exponent(wide, bits);
    let p = fraction_bits(wide);
    let fv = crate::x64::machine::fraction_values(wide);
    let f = crate::x64::machine::fraction(wide, bits);
    assert(fv == vstd::arithmetic::power2::pow2(p));
    if e == 0 {
        if p < n {
            vstd::arithmetic::power2::lemma_pow2_strictly_increases(p, n);
        }
    } else {
        let k = (e - 1) as nat;
        let q = vstd::arithmetic::power2::pow2(k) as int;
        vstd::arithmetic::power2::lemma_pow2_pos(k);
        lemma_powers(p, k);
        lemma_powers(1, p + k);
        assert(fv * q <= (fv + f) * q < 2 * (fv * q)) by (nonlinear_arith)
            requires
                0 <= f < fv,
                q > 0,
        ;
        if p + k < n {
            if p + k + 1 < n {
                vstd::arithmetic::power2::lemma_pow2_strictly_increases(p + k + 1, n);
            }
        } else if p + k > n {
            if p + k > n + 1 {
                vstd::arithmetic::power2::lemma_pow2_strictly_increases(n + 1, p + k);
            }
        }
    }
}

/// The difference of a float and a power of two, from which it is less than that
/// power away, is exact.
pub proof fn lemma_difference_is_exact(wide: bool, bits: int, n: nat, d: int)
    requires
        0 <= bits,
        fraction_bits(wide) <= n,
        n - fraction_bits(wide) + 1 < crate::x64::machine::exponents(wide) - 1,
        ({
            let v = crate::x64::machine::value(wide, bits);
            &&& vstd::arithmetic::power2::pow2(n) <= v < vstd::arithmetic::power2::pow2(n + 1)
            &&& rounded(wide, v - vstd::arithmetic::power2::pow2(n), d)
        }),
    ensures
        crate::x64::machine::value(wide, d) == crate::x64::machine::value(wide, bits)
            - vstd::arithmetic::power2::pow2(n),
{
    vstd::arithmetic::power2::lemma2_to64();
    vstd::arithmetic::power2::lemma2_to64_rest();
    vstd::arithmetic::power2::lemma_pow2_pos(n);
    lemma_magnitude(wide, bits);
    lemma_exponent_of(wide, bits, n);
    let f = crate::x64::machine::fraction(wide, bits);
    let fv = crate::x64::machine::fraction_values(wide);
    let j = (n - fraction_bits(wide)) as nat;
    let q = vstd::arithmetic::power2::pow2(j) as int;
    lemma_powers(fraction_bits(wide), j);
    assert((fv + f) * q == fv * q + f * q) by (nonlinear_arith);
    let y = lemma_representable(wide, f, j);
    assert(crate::x64::machine::value(wide, y) == f * q);
}

/// The bound of a conversion is finite.
pub proof fn lemma_bound_is_finite(src_size: OperandSize, dst_size: OperandSize)
    requires
        crate::x64::emit_convert::cvt_ok(src_size, dst_size),
    ensures
        ({
            let wide = is_wide(src_size);
            let bits = crate::x64::emit_convert::upper_bound(src_size, dst_size) as int;
            has_size(wide, bits) && is_finite(wide, bits)
        }),
{
    let bits = crate::x64::emit_convert::upper_bound(src_size, dst_size) as int;
    match (src_size, dst_size) {
        (OperandSize::Size32, OperandSize::Size32) => {
            assert(bits == 0x4f00_0000);
            lemma_fields(false, bits, 0, 158, 0);
        },
        (OperandSize::Size32, _) => {
            assert(bits == 0x5f00_0000);
            lemma_fields(false, bits, 0, 190, 0);
        },
        (_, OperandSize::Size32) => {
            assert(bits == 0x41e0_0000_0000_0000);
            lemma_fields(true, bits, 0, 1054, 0);
        },
        (_, _) => {
            assert(bits == 0x43e0_0000_0000_0000);
            lemma_fields(true, bits, 0, 1086, 0);
        },
    }
}

/// The exponent of half of the range of a size.
pub open spec fn half_exponent(size: OperandSize) -> nat {
    if size is Size32 {
        31
    } else {
        63
    }
}

/// Half of the range of a size is a power of two.
proof fn lemma_half(wide: bool, size: OperandSize)
    requires
        size is Size32 || size is Size64,
    ensures
        half(size) * crate::x64::machine::one(wide) == vstd::arithmetic::power2::pow2(
            half_exponent(size) + one_exponent(wide),
        ),
        2 * half(size) * crate::x64::machine::one(wide) == vstd::arithmetic::power2::pow2(
            half_exponent(size) + one_exponent(wide) + 1,
        ),
{
    vstd::arithmetic::power2::lemma2_to64();
    vstd::arithmetic::power2::lemma2_to64_rest();
    lemma_powers(half_exponent(size), one_exponent(wide));
    lemma_powers(1, half_exponent(size) + one_exponent(wide));
    let (k, one) = (half(size), crate::x64::machine::one(wide));
    assert(k == vstd::arithmetic::power2::pow2(half_exponent(size)));
    assert(2 * k * one == 2 * (k * one)) by (nonlinear_arith);
}

/// What is in the upper half of a range is finite.
pub proof fn lemma_less_than_infinity(wide: bool, bits: int, k: int)
    requires
        0 <= bits,
        k == 0x8000_0000 || k == 0x8000_0000_0000_0000,
        k * crate::x64::machine::one(wide) <= crate::x64::machine::value(wide, bits) < 2 * k
            * crate::x64::machine::one(wide),
    ensures
        is_finite(wide, bits),
{
    let size = if k == 0x8000_0000 {
        OperandSize::Size32
    } else {
        OperandSize::Size64
    };
    assert(k == half(size));
    lemma_half(wide, size);
    lemma_one(wide);
    assert(k * crate::x64::machine::one(wide) > 0) by (nonlinear_arith)
        requires
            k > 0,
            crate::x64::machine::one(wide) > 0,
    ;
    lemma_magnitude(wide, bits);
    lemma_exponent_of(wide, bits, half_exponent(size) + one_exponent(wide));
}

/// In the upper half of a range the difference to half of it is exact.
pub proof fn lemma_upper_half(src_size: OperandSize, dst_size: OperandSize, bits: int, d: int)
    requires
        crate::x64::emit_convert::cvt_ok(src_size, dst_size),
        0 <= bits,
        ({
            let wide = is_wide(src_size);
            let v = crate::x64::machine::value(wide, bits);
            let one = crate::x64::machine::one(wide);
            &&& half(dst_size) * one <= v < 2 * half(dst_size) * one
            &&& rounded(wide, v - half(dst_size) * one, d)
        }),
    ensures
        ({
            let wide = is_wide(src_size);
            crate::x64::machine::value(wide, d) == crate::x64::machine::value(wide, bits) - half(
                dst_size,
            ) * crate::x64::machine::one(wide)
        }),
{
    let wide = is_wide(src_size);
    lemma_half(wide, dst_size);
    lemma_difference_is_exact(wide, bits, half_exponent(dst_size) + one_exponent(wide), d);
}

/// A float that is a whole number less than another truncates to as much less.
pub proof fn lemma_truncated_difference(wide: bool, bits: int, d: int, k: int)
    requires
        0 <= bits,
        0 <= d,
        k > 0,
        crate::x64::machine::value(wide, bits) >= k * crate::x64::machine::one(wide),
        crate::x64::machine::value(wide, d) == crate::x64::machine::value(wide, bits) - k
            * crate::x64::machine::one(wide),
    ensures
        crate::x64::machine::truncated(wide, d) == crate::x64::machine::truncated(wide, bits) - k,
{
    lemma_one(wide);
    lemma_magnitude(wide, bits);
    lemma_magnitude(wide, d);
    let one = crate::x64::machine::one(wide);
    assert(k * one > 0) by (nonlinear_arith)
        requires
            k > 0,
            one > 0,
    ;
    let m = crate::x64::machine::magnitude(wide, d);
    vstd::arithmetic::div_mod::lemma_hoist_over_denominator(m, k, one as nat);
    if m == 0 {
        assert(0int / one == 0) by (nonlinear_arith)
            requires
                one > 0,
        ;
    }
}

/// The fields of a float make up its bits.
pub proof fn lemma_bits_of_fields(wide: bool, bits: int)
    requires
        has_size(wide, bits),
    ensures
        crate::x64::machine::unsigned_bits(wide, bits) == crate::x64::machine::exponent(wide, bits)
            * crate::x64::machine::fraction_values(wide) + crate::x64::machine::fraction(wide, bits),
        bits == crate::x64::machine::unsigned_bits(wide, bits) + (
        if crate::x64::machine::is_negative(wide, bits) {
            crate::x64::machine::sign_weight(wide)
        } else {
            0
        }),
        0 <= crate::x64::machine::fraction(wide, bits) < crate::x64::machine::fraction_values(wide),
        0 <= crate::x64::machine::exponent(wide, bits) < crate::x64::machine::exponents(wide),
{
    if wide {
        assert(bits % 0x8000_0000_0000_0000 % 0x10_0000_0000_0000 == bits % 0x10_0000_0000_0000);
    } else {
        assert(bits % 0x8000_0000 % 0x80_0000 == bits % 0x80_0000);
    }
}

/// A float with an exponent that is not zero has at least that power of two.
pub proof fn lemma_magnitude_bounds(wide: bool, bits: int)
    requires
        has_size(wide, bits),
        crate::x64::machine::exponent(wide, bits) > 0,
    ensures
        ({
            let p = vstd::arithmetic::power2::pow2(
                (crate::x64::machine::exponent(wide, bits) - 1) as nat,
            ) as int;
            let fv = crate::x64::machine::fraction_values(wide);
            &&& p >= 1
            &&& fv * p <= crate::x64::machine::magnitude(wide, bits) < 2 * (fv * p)
        }),
{
    lemma_bits_of_fields(wide, bits);
    let e = crate::x64::machine::exponent(wide, bits);
    vstd::arithmetic::power2::lemma_pow2_pos((e - 1) as nat);
    let p = vstd::arithmetic::power2::pow2((e - 1) as nat) as int;
    let fv = crate::x64::machine::fraction_values(wide);
    let f = crate::x64::machine::fraction(wide, bits);
    assert(fv * p <= (fv + f) * p < 2 * (fv * p)) by (nonlinear_arith)
        requires
            0 <= f < fv,
            p > 0,
    ;
}

proof fn lemma_greater_exponent(wide: bool, a: int, b: int)
    requires
        has_size(wide, a),
        has_size(wide, b),
        crate::x64::machine::exponent(wide, a) < crate::x64::machine::exponent(wide, b),
    ensures
        crate::x64::machine::magnitude(wide, a) < crate::x64::machine::magnitude(wide, b),
{
    lemma_bits_of_fields(wide, a);
    lemma_magnitude_bounds(wide, b);
    let (x, y) = (crate::x64::machine::exponent(wide, a), crate::x64::machine::exponent(wide, b));
    let fv = crate::x64::machine::fraction_values(wide);
    let q = vstd::arithmetic::power2::pow2((y - 1) as nat) as int;
    vstd::arithmetic::power2::lemma2_to64();
    if x == 0 {
        assert(fv <= fv * q) by (nonlinear_arith)
            requires
                q >= 1,
                fv > 0,
        ;
    } else {
        lemma_magnitude_bounds(wide, a);
        let p = vstd::arithmetic::power2::pow2((x - 1) as nat) as int;
        lemma_powers(1, (x - 1) as nat);
        if x < y - 1 {
            vstd::arithmetic::power2::lemma_pow2_strictly_increases(x as nat, (y - 1) as nat);
        }
        assert(2 * p <= q);
        assert(2 * (fv * p) <= fv * q) by (nonlinear_arith)
            requires
                2 * p <= q,
                fv > 0,
        ;
    }
}

/// Floats of the same magnitude have the same bits but for the sign.
pub proof fn lemma_same_magnitude(wide: bool, a: int, b: int)
    requires
        has_size(wide, a),
        has_size(wide, b),
        crate::x64::machine::magnitude(wide, a) == crate::x64::machine::magnitude(wide, b),
    ensures
        crate::x64::machine::unsigned_bits(wide, a) == crate::x64::machine::unsigned_bits(wide, b),
        crate::x64::machine::exponent(wide, a) == crate::x64::machine::exponent(wide, b),
        crate::x64::machine::fraction(wide, a) == crate::x64::machine::fraction(wide, b),
{
    let (x, y) = (crate::x64::machine::exponent(wide, a), crate::x64::machine::exponent(wide, b));
    if x < y {
        lemma_greater_exponent(wide, a, b);
    } else if y < x {
        lemma_greater_exponent(wide, b, a);
    }
    lemma_bits_of_fields(wide, a);
    lemma_bits_of_fields(wide, b);
    if x > 0 {
        let p = vstd::arithmetic::power2::pow2((x - 1) as nat) as int;
        vstd::arithmetic::power2::lemma_pow2_pos((x - 1) as nat);
        let fv = crate::x64::machine::fraction_values(wide);
        let (f, g) = (
            crate::x64::machine::fraction(wide, a),
            crate::x64::machine::fraction(wide, b),
        );
        assert(f == g) by (nonlinear_arith)
            requires
                (fv + f) * p == (fv + g) * p,
                p > 0,
        ;
    }
}

/// Floats that are equal have the same bits, unless they are zeros.
pub proof fn lemma_same_value(wide: bool, a: int, b: int)
    requires
        has_size(wide, a),
        has_size(wide, b),
        crate::x64::machine::value(wide, a) == crate::x64::machine::value(wide, b),
    ensures
        crate::x64::machine::value(wide, a) != 0 ==> a == b,
        crate::x64::machine::unsigned_bits(wide, a) == crate::x64::machine::unsigned_bits(wide, b),
        crate::x64::machine::value(wide, a) == 0 ==> crate::x64::machine::unsigned_bits(wide, a)
            == 0,
{
    lemma_magnitude(wide, a);
    lemma_magnitude(wide, b);
    lemma_same_magnitude(wide, a, b);
    lemma_bits_of_fields(wide, a);
    lemma_bits_of_fields(wide, b);
    if crate::x64::machine::value(wide, a) == 0 {
        assert(crate::x64::machine::magnitude(wide, 0) == 0);
        lemma_same_magnitude(wide, a, 0);
    }
}

} // verus!
