//! What the code that converts unsigned integers to floats does.

use crate::x64::args::{Gpr, Label, OperandSize, Reg, Type, Xmm, CC};
use crate::x64::behavior_basic::{
    effect, lemma_low_is_all, lemma_passes_by, lemma_run_one, lemma_run_three, lemma_run_two,
};
use crate::x64::behavior_convert::{float, lemma_compare_imm, lemma_jump, lemma_run_five};
use crate::x64::floats::{fraction_bits, has_size, is_finite, is_wide, one_exponent, rounded};
use crate::x64::inst::{EmitInfo, EmitState, FrameLayout, Inst};
use crate::x64::machine::{At, Machine, Rounding};
use crate::x64::sink::{AsmOp, Built, Step};
use vstd::prelude::*;

verus! {

broadcast use {
    crate::x64::machine::group_run,
    crate::x64::machine::group_step,
    crate::x64::machine::group_jump,
};

/// How far two numbers are apart.
pub open spec fn distance(a: int, b: int) -> int {
    if a < b {
        b - a
    } else {
        a - b
    }
}

/// Whether a float is the nearest to an integer. Of two that are equally near it is
/// the even one.
pub open spec fn nearest(wide: bool, bits: int, n: int) -> bool {
    let exact = n * crate::x64::machine::one(wide);
    let v = crate::x64::machine::value(wide, bits);
    &&& has_size(wide, bits)
    &&& !crate::x64::machine::is_nan(wide, bits)
    &&& forall|c: int|
        has_size(wide, c) && !crate::x64::machine::is_nan(wide, c) ==> {
            let w = #[trigger] crate::x64::machine::value(wide, c);
            &&& distance(v, exact) <= distance(w, exact)
            &&& distance(v, exact) == distance(w, exact) && w != v ==> bits % 2 == 0
        }
}

/// Whether signed integers are converted to the nearest floats, and sums are rounded.
pub open spec fn rounds_to_nearest(r: Rounding) -> bool {
    &&& forall|wide: bool, n: int|
        -0x8000_0000_0000_0000 <= n < 0x8000_0000_0000_0000 ==> nearest(
            wide,
            #[trigger] (r.of_integer)(wide, n),
            n,
        )
    &&& forall|wide: bool, a: int, b: int|
        has_size(wide, a) && has_size(wide, b) && is_finite(wide, a) && is_finite(wide, b)
            ==> rounded(
            wide,
            crate::x64::machine::value(wide, a) + crate::x64::machine::value(wide, b),
            #[trigger] (r.sum)(wide, a, b),
        )
}

/// A float with an exponent one less is half as large.
proof fn lemma_halved(wide: bool, c: int)
    requires
        0 <= c < crate::x64::machine::sign_weight(wide),
        !crate::x64::machine::is_nan(wide, c),
        crate::x64::machine::exponent(wide, c) >= 2,
    ensures
        ({
            let h = c - crate::x64::machine::fraction_values(wide);
            &&& 0 <= h < crate::x64::machine::sign_weight(wide)
            &&& has_size(wide, h)
            &&& !crate::x64::machine::is_nan(wide, h)
            &&& crate::x64::machine::value(wide, c) == 2 * crate::x64::machine::value(wide, h)
            &&& h % 2 == c % 2
        }),
{
    let h = c - crate::x64::machine::fraction_values(wide);
    let e = crate::x64::machine::exponent(wide, c);
    let m = crate::x64::machine::fraction_values(wide) + crate::x64::machine::fraction(wide, c);
    crate::x64::floats::lemma_bits_of_fields(wide, c);
    crate::x64::floats::lemma_bits_of_fields(wide, h);
    assert(crate::x64::machine::exponent(wide, h) == e - 1);
    assert(crate::x64::machine::fraction(wide, h) == crate::x64::machine::fraction(wide, c));
    let p = vstd::arithmetic::power2::pow2((e - 2) as nat) as int;
    vstd::arithmetic::power2::lemma2_to64();
    crate::x64::floats::lemma_powers(1, (e - 2) as nat);
    assert(m * (2 * p) == 2 * (m * p)) by (nonlinear_arith);
}

/// The power of two with a number, as a float has it.
pub open spec fn power(wide: bool, n: nat) -> int {
    vstd::arithmetic::power2::pow2(n) * crate::x64::machine::one(wide)
}

/// Powers of two are floats.
proof fn lemma_power(wide: bool, n: nat) -> (y: int)
    requires
        n == 62 || n == 63,
    ensures
        has_size(wide, y),
        !crate::x64::machine::is_nan(wide, y),
        crate::x64::machine::value(wide, y) == power(wide, n),
{
    vstd::arithmetic::power2::lemma2_to64();
    vstd::arithmetic::power2::lemma2_to64_rest();
    let p = fraction_bits(wide);
    let j = (n + one_exponent(wide) - p) as nat;
    crate::x64::floats::lemma_powers(p, j);
    crate::x64::floats::lemma_powers(n, one_exponent(wide));
    crate::x64::floats::lemma_representable(wide, crate::x64::machine::fraction_values(wide), j)
}

/// Floats from this power of two on are multiples of four.
proof fn lemma_multiple(wide: bool, c: int) -> (k: int)
    requires
        has_size(wide, c),
        crate::x64::machine::value(wide, c) >= power(wide, 62),
    ensures
        crate::x64::machine::value(wide, c) == 4 * k * crate::x64::machine::one(wide),
        crate::x64::machine::exponent(wide, c) >= 2,
        c < crate::x64::machine::sign_weight(wide),
{
    vstd::arithmetic::power2::lemma2_to64();
    vstd::arithmetic::power2::lemma2_to64_rest();
    crate::x64::floats::lemma_one(wide);
    crate::x64::floats::lemma_magnitude(wide, c);
    crate::x64::floats::lemma_bits_of_fields(wide, c);
    let one = crate::x64::machine::one(wide);
    let x = one_exponent(wide);
    let p = fraction_bits(wide);
    let e = crate::x64::machine::exponent(wide, c);
    let fv = crate::x64::machine::fraction_values(wide);
    let f = crate::x64::machine::fraction(wide, c);
    crate::x64::floats::lemma_powers(62, x);
    assert(power(wide, 62) == vstd::arithmetic::power2::pow2(62 + x));
    assert(fv == vstd::arithmetic::power2::pow2(p));
    vstd::arithmetic::power2::lemma_pow2_strictly_increases(p, 62 + x);
    assert(e > 0);
    let q = vstd::arithmetic::power2::pow2((e - 1) as nat) as int;
    crate::x64::floats::lemma_magnitude_bounds(wide, c);
    crate::x64::floats::lemma_powers(p, (e - 1) as nat);
    crate::x64::floats::lemma_powers(1, (p + e - 1) as nat);
    assert(2 * (fv * q) == vstd::arithmetic::power2::pow2((p + e) as nat));
    if p + e <= 62 + x {
        if p + e < 62 + x {
            vstd::arithmetic::power2::lemma_pow2_strictly_increases((p + e) as nat, 62 + x);
        }
    }
    let j = (e - 1 - x - 2) as nat;
    crate::x64::floats::lemma_powers(2, x);
    crate::x64::floats::lemma_powers(2 + x, j);
    let r = vstd::arithmetic::power2::pow2(j) as int;
    let k = (fv + f) * r;
    assert(q == 4 * one * r);
    assert((fv + f) * (4 * one * r) == 4 * k * one) by (nonlinear_arith)
        requires
            k == (fv + f) * r,
    ;
    k
}

/// Distances of multiples are multiples of distances.
proof fn lemma_scaled(a: int, b: int, one: int)
    requires
        one > 0,
    ensures
        distance(a * one, b * one) == distance(a, b) * one,
{
    assert(a * one - b * one == (a - b) * one && b * one - a * one == (b - a) * one && (a < b
        ==> a * one < b * one) && (a >= b ==> a * one >= b * one)) by (nonlinear_arith)
        requires
            one > 0,
    ;
}

proof fn lemma_ordered(x: int, y: int, one: int)
    requires
        one > 0,
    ensures
        x * one <= y * one <==> x <= y,
        x * one == y * one <==> x == y,
{
    assert((x < y ==> x * one < y * one) && (x > y ==> x * one > y * one)) by (nonlinear_arith)
        requires
            one > 0,
    ;
}

/// Half of an integer: the lowest bit stays, as a mark, if it was set.
pub open spec fn marked_half(n: int) -> int {
    if n % 2 == 1 && n / 2 % 2 == 0 {
        n / 2 + 1
    } else {
        n / 2
    }
}

/// What is nearest to the half is, doubled, nearest to the integer: among multiples
/// of four the mark tells on which side the integer is.
proof fn lemma_doubling(n: int, v: int, h: int)
    requires
        v % 4 == 0,
        h % 4 == 0,
        distance(v, marked_half(n)) <= distance(h, marked_half(n)),
    ensures
        distance(2 * v, n) <= distance(2 * h, n),
        distance(2 * v, n) == distance(2 * h, n) && v != h ==> n % 2 == 0 && distance(
            v,
            marked_half(n),
        ) == distance(h, marked_half(n)),
{
    let (a, b, m) = (v / 4, h / 4, n / 2);
    assert(v == 4 * a && h == 4 * b);
    if n % 2 == 1 {
        let k = m / 2;
        lemma_odd_doubling(a, b, k, n);
    } else {
        assert(n == 2 * m);
    }
}

proof fn lemma_odd_doubling(a: int, b: int, k: int, n: int)
    requires
        n == 4 * k + 1 || n == 4 * k + 3,
        distance(4 * a, 2 * k + 1) <= distance(4 * b, 2 * k + 1),
    ensures
        distance(8 * a, n) <= distance(8 * b, n),
        distance(8 * a, n) == distance(8 * b, n) ==> a == b,
{
}

/// The nearest float to the half of an integer has an exponent in the middle.
proof fn lemma_nearest_bounds(wide: bool, r: int, t: int)
    requires
        nearest(wide, r, t),
        0x4000_0000_0000_0000 <= t <= 0x8000_0000_0000_0000,
    ensures
        power(wide, 62) <= crate::x64::machine::value(wide, r) <= power(wide, 63),
{
    let one = crate::x64::machine::one(wide);
    crate::x64::floats::lemma_one(wide);
    vstd::arithmetic::power2::lemma2_to64();
    vstd::arithmetic::power2::lemma2_to64_rest();
    let a = lemma_power(wide, 62);
    let b = lemma_power(wide, 63);
    assert(0x4000_0000_0000_0000 * one <= t * one <= 0x8000_0000_0000_0000 * one)
        by (nonlinear_arith)
        requires
            one > 0,
            0x4000_0000_0000_0000 <= t <= 0x8000_0000_0000_0000,
    ;
    assert(power(wide, 62) == 0x4000_0000_0000_0000 * one);
    assert(power(wide, 63) == 0x8000_0000_0000_0000 * one);
    assert(crate::x64::machine::value(wide, a) == power(wide, 62));
    assert(crate::x64::machine::value(wide, b) == power(wide, 63));
}

/// A float is at least as far from the integer as the doubled one.
proof fn lemma_no_nearer(wide: bool, r: int, n: int, c: int)
    requires
        0x8000_0000_0000_0000 <= n < 0x1_0000_0000_0000_0000,
        nearest(wide, r, marked_half(n)),
        has_size(wide, c),
        !crate::x64::machine::is_nan(wide, c),
        crate::x64::machine::value(wide, c) >= power(wide, 63),
    ensures
        ({
            let exact = n * crate::x64::machine::one(wide);
            let v = 2 * crate::x64::machine::value(wide, r);
            let w = crate::x64::machine::value(wide, c);
            &&& distance(v, exact) <= distance(w, exact)
            &&& distance(v, exact) == distance(w, exact) && w != v ==> r % 2 == 0
        }),
{
    let one = crate::x64::machine::one(wide);
    let t = marked_half(n);
    crate::x64::floats::lemma_one(wide);
    vstd::arithmetic::power2::lemma2_to64();
    vstd::arithmetic::power2::lemma2_to64_rest();
    assert(power(wide, 63) == 2 * power(wide, 62)) by (nonlinear_arith)
        requires
            power(wide, 63) == 0x8000_0000_0000_0000 * one,
            power(wide, 62) == 0x4000_0000_0000_0000 * one,
    ;
    assert(power(wide, 62) >= 0) by (nonlinear_arith)
        requires
            power(wide, 62) == 0x4000_0000_0000_0000 * one,
            one > 0,
    ;
    lemma_nearest_bounds(wide, r, t);
    let _ = lemma_multiple(wide, c);
    lemma_halved(wide, c);
    let h = c - crate::x64::machine::fraction_values(wide);
    let (w, x) = (crate::x64::machine::value(wide, h), crate::x64::machine::value(wide, r));
    let a = lemma_multiple(wide, r);
    let b = lemma_multiple(wide, h);
    let (i, j) = (4 * a, 4 * b);
    lemma_scaled(i, t, one);
    lemma_scaled(j, t, one);
    lemma_ordered(distance(i, t), distance(j, t), one);
    lemma_doubling(n, i, j);
    lemma_scaled(2 * i, n, one);
    lemma_scaled(2 * j, n, one);
    lemma_ordered(distance(2 * i, n), distance(2 * j, n), one);
    lemma_ordered(i, j, one);
    assert(2 * i * one == 2 * (i * one) && 2 * j * one == 2 * (j * one)) by (nonlinear_arith);
}

/// The nearest float to the half of an integer, doubled, is nearest to the integer.
proof fn lemma_doubled(wide: bool, r: int, d: int, n: int)
    requires
        0x8000_0000_0000_0000 <= n < 0x1_0000_0000_0000_0000,
        nearest(wide, r, marked_half(n)),
        rounded(wide, 2 * crate::x64::machine::value(wide, r), d),
    ensures
        nearest(wide, d, n),
        is_finite(wide, r),
{
    let one = crate::x64::machine::one(wide);
    let exact = n * one;
    let fv = crate::x64::machine::fraction_values(wide);
    crate::x64::floats::lemma_one(wide);
    vstd::arithmetic::power2::lemma2_to64();
    vstd::arithmetic::power2::lemma2_to64_rest();
    lemma_nearest_bounds(wide, r, marked_half(n));
    let _ = lemma_multiple(wide, r);
    lemma_exponent_bound(wide, r);
    let twice = r + fv;
    crate::x64::floats::lemma_bits_of_fields(wide, r);
    crate::x64::floats::lemma_bits_of_fields(wide, twice);
    assert(crate::x64::machine::exponent(wide, twice) == crate::x64::machine::exponent(wide, r)
        + 1);
    lemma_halved(wide, twice);
    let v = crate::x64::machine::value(wide, twice);
    assert(crate::x64::machine::value(wide, d) == v);
    assert(power(wide, 62) > 0) by (nonlinear_arith)
        requires
            power(wide, 62) == 0x4000_0000_0000_0000 * one,
            one > 0,
    ;
    crate::x64::floats::lemma_same_value(wide, d, twice);
    let top = lemma_power(wide, 63);
    lemma_no_nearer(wide, r, n, top);
    assert(power(wide, 63) <= exact) by (nonlinear_arith)
        requires
            power(wide, 63) == 0x8000_0000_0000_0000 * one,
            exact == n * one,
            n >= 0x8000_0000_0000_0000,
            one > 0,
    ;
    assert forall|c: int| has_size(wide, c) && !crate::x64::machine::is_nan(wide, c) implies {
        let w = #[trigger] crate::x64::machine::value(wide, c);
        &&& distance(v, exact) <= distance(w, exact)
        &&& distance(v, exact) == distance(w, exact) && w != v ==> d % 2 == 0
    } by {
        if crate::x64::machine::value(wide, c) >= power(wide, 63) {
            lemma_no_nearer(wide, r, n, c);
        }
    }
}

/// A float up to this power of two is far from infinite.
proof fn lemma_exponent_bound(wide: bool, r: int)
    requires
        has_size(wide, r),
        power(wide, 62) <= crate::x64::machine::value(wide, r) <= power(wide, 63),
    ensures
        crate::x64::machine::exponent(wide, r) + 2 < crate::x64::machine::exponents(wide),
{
    vstd::arithmetic::power2::lemma2_to64();
    vstd::arithmetic::power2::lemma2_to64_rest();
    crate::x64::floats::lemma_one(wide);
    crate::x64::floats::lemma_magnitude(wide, r);
    let one = crate::x64::machine::one(wide);
    let x = one_exponent(wide);
    crate::x64::floats::lemma_powers(62, x);
    crate::x64::floats::lemma_powers(63, x);
    vstd::arithmetic::power2::lemma_pow2_pos(62 + x);
    assert(crate::x64::machine::magnitude(wide, r) == crate::x64::machine::value(wide, r));
    if crate::x64::machine::value(wide, r) < power(wide, 63) {
        crate::x64::floats::lemma_exponent_of(wide, r, 62 + x);
    } else {
        vstd::arithmetic::power2::lemma_pow2_strictly_increases(63 + x, 64 + x);
        crate::x64::floats::lemma_exponent_of(wide, r, 63 + x);
    }
}

/// A signed conversion.
proof fn lemma_signed(s: Machine, frame: FrameLayout, src: Gpr, dst: Xmm, size: OperandSize)
    requires
        s.at is Here,
        s.pending is Nothing,
        size is Size32 || size is Size64,
        has_size(
            is_wide(size),
            (s.rounding.of_integer)(
                is_wide(size),
                crate::x64::machine::signed(s.reg(src) as int, OperandSize::Size64),
            ),
        ),
    ensures
        ({
            let r = crate::x64::machine::step(
                s,
                crate::x64::emit_convert::signed_cvt(frame, src, dst, size is Size64),
            );
            &&& r == s.set_xmm(dst.enc, r.vec(dst))
            &&& float(r, size, dst) == (s.rounding.of_integer)(
                is_wide(size),
                crate::x64::machine::signed(s.reg(src) as int, OperandSize::Size64),
            )
        }),
{
    reveal(crate::x64::machine::assembled);
}

/// A float added to itself.
proof fn lemma_twice(s: Machine, frame: FrameLayout, dst: Xmm, size: OperandSize)
    requires
        s.at is Here,
        s.pending is Nothing,
        size is Size32 || size is Size64,
        ({
            let a = float(s, size, dst);
            has_size(is_wide(size), (s.rounding.sum)(is_wide(size), a, a))
        }),
    ensures
        ({
            let a = float(s, size, dst);
            let r = crate::x64::machine::step(
                s,
                crate::x64::emit_basic::asm_rr(
                    frame,
                    if size is Size64 {
                        AsmOp::AddsdA
                    } else {
                        AsmOp::AddssA
                    },
                    Reg::Xmm(dst),
                    Reg::Xmm(dst),
                ),
            );
            &&& r == s.set_xmm(dst.enc, r.vec(dst))
            &&& float(r, size, dst) == (s.rounding.sum)(is_wide(size), a, a)
        }),
{
    reveal(crate::x64::machine::assembled);
    reveal(crate::x64::machine::vector);
}

proof fn lemma_move(s: Machine, src: Gpr, dst: Gpr)
    requires
        s.at is Here,
        s.pending is Nothing,
    ensures
        crate::x64::machine::step(
            s,
            Step::Emit(Built::Move { dst: Reg::Gpr(dst), src: Reg::Gpr(src), ty: Type::I64 }),
        ) == s.set(dst.enc, s.reg(src)),
{
    reveal(crate::x64::machine::built);
}

proof fn lemma_shift(s: Machine, frame: FrameLayout, dst: Gpr)
    requires
        s.at is Here,
        s.pending is Nothing,
    ensures
        crate::x64::machine::step(
            s,
            crate::x64::emit_basic::asm_ri(frame, AsmOp::ShrqMi, dst, 1),
        ) == s.set(dst.enc, s.reg(dst) / 2),
{
    reveal(crate::x64::machine::assembled);
    reveal(crate::x64::machine::alu_number);
    let one: u32 = 1;
    assert(vstd::arithmetic::power2::pow2(one as nat) == 2) by {
        vstd::arithmetic::power2::lemma2_to64();
    }
}

proof fn lemma_lowest(s: Machine, frame: FrameLayout, dst: Gpr)
    requires
        s.at is Here,
        s.pending is Nothing,
    ensures
        ({
            let r = crate::x64::machine::step(
                s,
                crate::x64::emit_basic::asm_ri(frame, AsmOp::AndqMiSxb, dst, 1),
            );
            r == s.set(dst.enc, s.reg(dst) & 1).set_flags(r.flags)
        }),
{
    let n: u32 = 1;
    assert(crate::x64::machine::wrapped(
        crate::x64::machine::number(1, n),
        OperandSize::Size64,
    ) as u64 == 1u64);
    assert(crate::x64::machine::step(
        s,
        crate::x64::emit_basic::asm_ri(frame, AsmOp::AndqMiSxb, dst, 1),
    ) == crate::x64::machine::alu(s, AsmOp::AndqMiSxb, dst.enc, 1)) by {
        reveal(crate::x64::machine::assembled);
        reveal(crate::x64::machine::alu_number);
    }
    reveal(crate::x64::machine::alu);
}

proof fn lemma_or(s: Machine, frame: FrameLayout, dst: Gpr, src: Gpr)
    requires
        s.at is Here,
        s.pending is Nothing,
    ensures
        ({
            let r = crate::x64::machine::step(
                s,
                crate::x64::emit_basic::asm_rr(frame, AsmOp::OrqRm, Reg::Gpr(dst), Reg::Gpr(src)),
            );
            r == s.set(dst.enc, s.reg(dst) | s.reg(src)).set_flags(r.flags)
        }),
{
    reveal(crate::x64::machine::assembled);
    reveal(crate::x64::machine::alu);
}

/// The half with its mark.
proof fn lemma_marked(
    s: Machine,
    frame: FrameLayout,
    src: Gpr,
    tmp1: Gpr,
    tmp2: Gpr,
    steps: Seq<Step>,
)
    requires
        s.at is Here,
        s.pending is Nothing,
        src.enc != tmp1.enc,
        src.enc != tmp2.enc,
        tmp1.enc != tmp2.enc,
        steps.len() == 5,
        steps[0] == Step::Emit(
            Built::Move { dst: Reg::Gpr(tmp1), src: Reg::Gpr(src), ty: Type::I64 },
        ),
        steps[1] == crate::x64::emit_basic::asm_ri(frame, AsmOp::ShrqMi, tmp1, 1),
        steps[2] == Step::Emit(
            Built::Move { dst: Reg::Gpr(tmp2), src: Reg::Gpr(src), ty: Type::I64 },
        ),
        steps[3] == crate::x64::emit_basic::asm_ri(frame, AsmOp::AndqMiSxb, tmp2, 1),
        steps[4] == crate::x64::emit_basic::asm_rr(
            frame,
            AsmOp::OrqRm,
            Reg::Gpr(tmp2),
            Reg::Gpr(tmp1),
        ),
    ensures
        ({
            let r = crate::x64::machine::run(s, steps);
            &&& r == Machine { gpr: r.gpr, flags: r.flags, ..s }
            &&& r.reg(tmp2) == marked_half(s.reg(src) as int)
        }),
{
    lemma_run_five(s, steps);
    lemma_move(s, src, tmp1);
    let s1 = crate::x64::machine::step(s, steps[0]);
    lemma_shift(s1, frame, tmp1);
    let s2 = crate::x64::machine::step(s1, steps[1]);
    lemma_move(s2, src, tmp2);
    let s3 = crate::x64::machine::step(s2, steps[2]);
    lemma_lowest(s3, frame, tmp2);
    let s4 = crate::x64::machine::step(s3, steps[3]);
    lemma_or(s4, frame, tmp2, tmp1);
    let x = s.reg(src);
    assert(x % 2 == 1 && x / 2 % 2 == 0 ==> ((x & 1) | (x / 2)) == x / 2 + 1) by (bit_vector);
    assert(!(x % 2 == 1 && x / 2 % 2 == 0) ==> ((x & 1) | (x / 2)) == x / 2) by (bit_vector);
}

/// An unsigned integer is converted to the nearest float, to the even one of two that
/// are equally near.
pub proof fn law_conversion_from_unsigned(
    s: Machine,
    dst_size: OperandSize,
    src: Gpr,
    dst: Xmm,
    tmp1: Gpr,
    tmp2: Gpr,
    info: EmitInfo,
    state: EmitState,
)
    requires
        crate::x64::machine::ready(s),
        rounds_to_nearest(s.rounding),
        dst_size is Size32 || dst_size is Size64,
        src.enc != tmp1.enc,
        src.enc != tmp2.enc,
        tmp1.enc != tmp2.enc,
    ensures
        ({
            let r = effect(
                s,
                Inst::CvtUint64ToFloatSeq {
                    dst_size,
                    src,
                    dst,
                    tmp_gpr1: tmp1,
                    tmp_gpr2: tmp2,
                },
                info,
                state,
            );
            &&& r.at is Here
            &&& nearest(is_wide(dst_size), float(r, dst_size, dst), s.reg(src) as int)
        }),
{
    let frame = state.frame_layout;
    let wide = is_wide(dst_size);
    let n = s.reg(src) as int;
    let (negative, done) = (Label::Local(0), Label::Local(1));
    let steps = crate::x64::emit_convert::cvt_uint64_to_float(
        frame,
        dst_size,
        src,
        dst,
        tmp1,
        tmp2,
    );
    let x = seq![
        Step::GetLabel { label: negative },
        Step::GetLabel { label: done },
        crate::x64::emit_convert::compare_imm(OperandSize::Size64, src, 0),
    ];
    let j = crate::x64::emit_basic::jump_if(CC::L, negative);
    let y = seq![
        crate::x64::emit_convert::signed_cvt(frame, src, dst, dst_size is Size64),
        Step::Emit(Built::JmpKnown { label: done }),
    ];
    let bind = seq![Step::BindLabel { label: negative }];
    let halve = steps.subrange(10, 15);
    let end = steps.subrange(15, 17);
    let z = seq![Step::BindLabel { label: done }];
    assert(steps =~= x + j + y + bind + halve + end + z);
    lemma_run_three(s, x);
    lemma_compare_imm(s, OperandSize::Size64, src, 0);
    lemma_low_is_all(s.reg(src));
    crate::x64::machine::law_comparison_orders(n, 0, OperandSize::Size64);
    let s1 = crate::x64::machine::run(s, x);
    let s2 = crate::x64::machine::run(s1, j);
    let s3 = crate::x64::machine::run(s2, y);
    let s4 = crate::x64::machine::run(s3, bind);
    let s5 = crate::x64::machine::run(s4, halve);
    let s6 = crate::x64::machine::run(s5, end);
    lemma_run_one(s6, z);
    lemma_run_one(s3, bind);
    if n < 0x8000_0000_0000_0000 {
        assert(s2 == s1);
        assert(nearest(wide, (s.rounding.of_integer)(wide, n), n));
        lemma_run_two(s1, y);
        lemma_signed(s1, frame, src, dst, dst_size);
        let t = crate::x64::machine::step(s1, y[0]);
        lemma_jump(t, done);
        assert(s3 == t.go(At::Seek(done)));
        assert(s4 == s3);
        lemma_passes_by(s3, halve);
        lemma_passes_by(s3, end);
    } else {
        assert(s2 == s1.go(At::Seek(negative)));
        lemma_passes_by(s2, y);
        assert(s1.go(At::Seek(negative)).go(At::Here) == s1);
        assert(s4 == s1);
        lemma_marked(s1, frame, src, tmp1, tmp2, halve);
        lemma_run_two(s5, end);
        let t = marked_half(n);
        let r = (s.rounding.of_integer)(wide, t);
        assert(nearest(wide, r, t));
        lemma_signed(s5, frame, tmp2, dst, dst_size);
        let s7 = crate::x64::machine::step(s5, end[0]);
        lemma_nearest_bounds(wide, r, t);
        lemma_exponent_bound(wide, r);
        let d = (s.rounding.sum)(wide, r, r);
        assert(rounded(wide, 2 * crate::x64::machine::value(wide, r), d));
        lemma_twice(s7, frame, dst, dst_size);
        lemma_doubled(wide, r, d, n);
    }
}

} // verus!
