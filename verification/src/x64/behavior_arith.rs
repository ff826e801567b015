//! What the code for remainders, and for minima and maxima, does.

use crate::x64::args::{Gpr, Label, OperandSize, Reg, TrapCode, Xmm, CC};
use crate::x64::behavior_basic::{effect, lemma_run_three};
use crate::x64::behavior_convert::{
    float, lemma_built_compare, lemma_compare_float, lemma_imm, lemma_jump, lemma_run_five,
};
use crate::x64::floats::is_wide;
use crate::x64::inst::{EmitInfo, EmitState, FrameLayout, Inst};
use crate::x64::machine::{At, Machine};
use crate::x64::sink::{AsmInst, AsmOp, Built, Step};
use vstd::prelude::*;

verus! {

broadcast use {
    crate::x64::machine::group_run,
    crate::x64::machine::group_step,
    crate::x64::machine::group_jump,
};

/// The quotient of a number that is in range by one that is neither zero nor
/// minus one is in range, and the remainder by minus one is zero.
proof fn lemma_quotient(a: int, b: int, half: int)
    requires
        -half <= a < half,
        half > 0,
        b != 0,
    ensures
        b != -1 ==> -half <= crate::x64::machine::quotient(a, b) < half,
        b == -1 ==> crate::x64::machine::remainder(a, b) == 0,
{
    let x = if a < 0 {
        -a
    } else {
        a
    };
    let y = if b < 0 {
        -b
    } else {
        b
    };
    let q = x / y;
    vstd::arithmetic::div_mod::lemma_fundamental_div_mod(x, y);
    vstd::arithmetic::div_mod::lemma_div_pos_is_pos(x, y);
    vstd::arithmetic::div_mod::lemma_mod_bound(x, y);
    let r = x % y;
    assert(q <= x) by (nonlinear_arith)
        requires
            x == y * q + r,
            r >= 0,
            q >= 0,
            y >= 1,
    ;
    if y > 1 {
        assert(2 * q <= x) by (nonlinear_arith)
            requires
                x == y * q + r,
                r >= 0,
                q >= 0,
                y >= 2,
        ;
    } else {
        assert(y * q == q) by (nonlinear_arith)
            requires
                y == 1,
        ;
        assert(b == -1 ==> b * crate::x64::machine::quotient(a, b)
            == -crate::x64::machine::quotient(a, b)) by (nonlinear_arith);
    }
}

/// A comparison with minus one.
proof fn lemma_compare_minus_one(s: Machine, size: OperandSize, divisor: Gpr)
    requires
        s.at is Here,
        s.pending is Nothing,
    ensures
        ({
            let r = crate::x64::machine::step(
                s,
                crate::x64::emit_convert::compare_imm(size, divisor, 0xffffffff),
            );
            let b = crate::x64::machine::low(s.reg(divisor), size);
            &&& r == s.set_flags(r.flags)
            &&& r.flags.zero == (crate::x64::machine::signed(b, size) == -1)
        }),
{
    let o = crate::x64::args::RegMemImm::Imm { simm32: 0xffffffff };
    lemma_built_compare(s, size, divisor, o);
    let b = crate::x64::machine::low(s.reg(divisor), size);
    assert(s.operand_or_number(o, size) == crate::x64::machine::values(size) - 1);
    crate::x64::machine::law_comparison_orders(b, crate::x64::machine::values(size) - 1, size);
}

/// A remainder: the code around the division.
proof fn lemma_checked_srem(
    s: Machine,
    frame: FrameLayout,
    size: OperandSize,
    divisor: Gpr,
    dst: Gpr,
)
    requires
        crate::x64::machine::ready(s),
    ensures
        ({
            let b = crate::x64::machine::signed(
                crate::x64::machine::low(s.reg(divisor), size),
                size,
            );
            let r = crate::x64::machine::run(
                s,
                crate::x64::emit_convert::checked_srem(frame, size, divisor, dst),
            );
            let compared = s.set_flags(r.flags);
            let divided = crate::x64::machine::divided(
                compared,
                size,
                divisor.enc,
                TrapCode::IntegerDivisionByZero,
            );
            if b == -1 {
                r == compared.set(dst.enc, 0)
            } else {
                r == divided
            }
        }),
{
    let b = crate::x64::machine::signed(crate::x64::machine::low(s.reg(divisor), size), size);
    let x = seq![
        Step::GetLabel { label: Label::Local(0) },
        Step::GetLabel { label: Label::Local(1) },
        crate::x64::emit_convert::compare_imm(size, divisor, 0xffffffff),
    ];
    let y = crate::x64::emit_basic::jump_if(CC::NZ, Label::Local(0));
    let z = seq![
        Step::Emit(Built::Imm { size: OperandSize::Size64, value: 0, dst }),
        Step::Emit(Built::JmpKnown { label: Label::Local(1) }),
        Step::BindLabel { label: Label::Local(0) },
        Step::Asm {
            inst: AsmInst::Idiv { size, divisor, trap: TrapCode::IntegerDivisionByZero },
            offsets: frame.offsets(),
        },
        Step::BindLabel { label: Label::Local(1) },
    ];
    assert(crate::x64::emit_convert::checked_srem(frame, size, divisor, dst) == x + y + z);
    lemma_run_three(s, x);
    lemma_compare_minus_one(s, size, divisor);
    let s1 = crate::x64::machine::run(s, x);
    let s2 = crate::x64::machine::run(s1, y);
    lemma_run_five(s2, z);
    if b == -1 {
        lemma_imm(s2, OperandSize::Size64, 0, dst);
        lemma_jump(s2.set(dst.enc, 0), Label::Local(1));
    } else {
        assert(crate::x64::machine::step(s2, z[0]) == s2);
        assert(crate::x64::machine::step(s2, z[1]) == s2);
        let h = s2.go(At::Here);
        assert(crate::x64::machine::step(s2, z[2]) == h);
        assert(h == s1);
        lemma_idiv(h, frame, size, divisor);
        let d = crate::x64::machine::step(h, z[3]);
        lemma_divided_stays(h, size, divisor);
    }
}

proof fn lemma_idiv(s: Machine, frame: FrameLayout, size: OperandSize, divisor: Gpr)
    requires
        s.at is Here,
        s.pending is Nothing,
    ensures
        crate::x64::machine::step(
            s,
            Step::Asm {
                inst: AsmInst::Idiv { size, divisor, trap: TrapCode::IntegerDivisionByZero },
                offsets: frame.offsets(),
            },
        ) == crate::x64::machine::divided(
            s,
            size,
            divisor.enc,
            TrapCode::IntegerDivisionByZero,
        ),
{
    reveal(crate::x64::machine::step);
    reveal(crate::x64::machine::here);
}

proof fn lemma_divided_stays(s: Machine, size: OperandSize, divisor: Gpr)
    requires
        s.at is Here,
        s.pending is Nothing,
    ensures
        ({
            let d = crate::x64::machine::divided(
                s,
                size,
                divisor.enc,
                TrapCode::IntegerDivisionByZero,
            );
            d.pending is Nothing && (d.at is Here || d.at is Trapped) && d.flags == s.flags
        }),
{
    reveal(crate::x64::machine::divided);
}

/// A remainder of 16 to 64 bits is in `rdx`: it is that of the division of the
/// operands with their signs, also for the least integer by minus one. By zero it
/// traps.
pub proof fn law_remainder(
    s: Machine,
    size: OperandSize,
    divisor: Gpr,
    info: EmitInfo,
    state: EmitState,
)
    requires
        crate::x64::machine::ready(s),
        size !is Size8,
        // The dividend is extended with its sign.
        crate::x64::machine::signed(crate::x64::machine::low(s.gpr[2], size), size) == (
        if crate::x64::machine::signed(crate::x64::machine::low(s.gpr[0], size), size) < 0 {
            -1int
        } else {
            0int
        }),
    ensures
        ({
            let (rax, rdx) = (crate::x64::args::rax(), crate::x64::args::rdx());
            let a = crate::x64::machine::signed(crate::x64::machine::low(s.reg(rax), size), size);
            let b = crate::x64::machine::signed(
                crate::x64::machine::low(s.reg(divisor), size),
                size,
            );
            let r = effect(
                s,
                Inst::CheckedSRemSeq {
                    size,
                    dividend_lo: rax,
                    dividend_hi: rdx,
                    divisor,
                    dst_quotient: rax,
                    dst_remainder: rdx,
                },
                info,
                state,
            );
            if b == 0 {
                r.at == At::Trapped(TrapCode::IntegerDivisionByZero)
            } else {
                r.at is Here && crate::x64::machine::low(r.reg(rdx), size)
                    == crate::x64::machine::wrapped(crate::x64::machine::remainder(a, b), size)
            }
        }),
{
    let (rax, rdx) = (crate::x64::args::rax(), crate::x64::args::rdx());
    let a = crate::x64::machine::signed(crate::x64::machine::low(s.reg(rax), size), size);
    let b = crate::x64::machine::signed(crate::x64::machine::low(s.reg(divisor), size), size);
    assert(crate::x64::emit::listing(
        Inst::CheckedSRemSeq {
            size,
            dividend_lo: rax,
            dividend_hi: rdx,
            divisor,
            dst_quotient: rax,
            dst_remainder: rdx,
        },
        info,
        state,
    ) == crate::x64::emit_convert::checked_srem(state.frame_layout, size, divisor, rdx));
    lemma_checked_srem(s, state.frame_layout, size, divisor, rdx);
    if b == -1 {
        lemma_quotient(a, b, crate::x64::machine::values(size) / 2);
    } else {
        lemma_wide_division(s, size, divisor);
    }
}

proof fn lemma_wide_division(s: Machine, size: OperandSize, divisor: Gpr)
    requires
        size !is Size8,
        s.at is Here,
        crate::x64::machine::signed(crate::x64::machine::low(s.gpr[2], size), size) == (
        if crate::x64::machine::signed(crate::x64::machine::low(s.gpr[0], size), size) < 0 {
            -1int
        } else {
            0int
        }),
        crate::x64::machine::signed(crate::x64::machine::low(s.reg(divisor), size), size) != -1,
    ensures
        forall|flags: crate::x64::machine::Flags|
            ({
                let a = crate::x64::machine::signed(
                    crate::x64::machine::low(s.gpr[0], size),
                    size,
                );
                let b = crate::x64::machine::signed(
                    crate::x64::machine::low(s.reg(divisor), size),
                    size,
                );
                let d = crate::x64::machine::divided(
                    #[trigger] s.set_flags(flags),
                    size,
                    divisor.enc,
                    TrapCode::IntegerDivisionByZero,
                );
                if b == 0 {
                    d.at == At::Trapped(TrapCode::IntegerDivisionByZero)
                } else {
                    d.at is Here && crate::x64::machine::low(d.gpr[2], size)
                        == crate::x64::machine::wrapped(crate::x64::machine::remainder(a, b), size)
                }
            }),
{
    let a = crate::x64::machine::signed(crate::x64::machine::low(s.gpr[0], size), size);
    let b = crate::x64::machine::signed(crate::x64::machine::low(s.reg(divisor), size), size);
    let high = crate::x64::machine::signed(crate::x64::machine::low(s.gpr[2], size), size);
    let v = crate::x64::machine::values(size);
    assert(high * v == if high == 0 {
        0
    } else {
        -v
    }) by (nonlinear_arith)
        requires
            high == 0 || high == -1,
    ;
    assert(high * v + crate::x64::machine::low(s.gpr[0], size) == a);
    if b != 0 {
        lemma_quotient(a, b, crate::x64::machine::values(size) / 2);
        let n = crate::x64::machine::wrapped(crate::x64::machine::remainder(a, b), size);
        crate::x64::behavior_atomic::lemma_written(s.gpr[2], n, size);
    }
    reveal(crate::x64::machine::divided);
}

/// A remainder of 8 bits is in the second byte of `rax`: it is that of the
/// division of the operands with their signs. By zero it traps.
pub proof fn law_remainder_of_bytes(
    s: Machine,
    divisor: Gpr,
    info: EmitInfo,
    state: EmitState,
)
    requires
        crate::x64::machine::ready(s),
        // The dividend is extended with its sign.
        crate::x64::machine::signed(
            crate::x64::machine::low(s.gpr[0], OperandSize::Size16),
            OperandSize::Size16,
        ) == crate::x64::machine::signed(
            crate::x64::machine::low(s.gpr[0], OperandSize::Size8),
            OperandSize::Size8,
        ),
    ensures
        ({
            let size = OperandSize::Size8;
            let rax = crate::x64::args::rax();
            let a = crate::x64::machine::signed(crate::x64::machine::low(s.reg(rax), size), size);
            let b = crate::x64::machine::signed(
                crate::x64::machine::low(s.reg(divisor), size),
                size,
            );
            let r = effect(
                s,
                Inst::CheckedSRemSeq8 { dividend: rax, divisor, dst: rax },
                info,
                state,
            );
            if b == 0 {
                r.at == At::Trapped(TrapCode::IntegerDivisionByZero)
            } else {
                r.at is Here && crate::x64::machine::low(r.reg(rax), OperandSize::Size16) / 0x100
                    == crate::x64::machine::wrapped(crate::x64::machine::remainder(a, b), size)
            }
        }),
{
    let size = OperandSize::Size8;
    let rax = crate::x64::args::rax();
    let a = crate::x64::machine::signed(crate::x64::machine::low(s.reg(rax), size), size);
    let b = crate::x64::machine::signed(crate::x64::machine::low(s.reg(divisor), size), size);
    assert(crate::x64::emit::listing(
        Inst::CheckedSRemSeq8 { dividend: rax, divisor, dst: rax },
        info,
        state,
    ) == crate::x64::emit_convert::checked_srem(state.frame_layout, size, divisor, rax));
    lemma_checked_srem(s, state.frame_layout, size, divisor, rax);
    if b != 0 {
        lemma_quotient(a, b, 0x80);
        let q = crate::x64::machine::wrapped(crate::x64::machine::quotient(a, b), size);
        let m = crate::x64::machine::wrapped(crate::x64::machine::remainder(a, b), size);
        crate::x64::behavior_atomic::lemma_written(
            s.gpr[0],
            q + 0x100 * m,
            OperandSize::Size16,
        );
    }
    reveal(crate::x64::machine::divided);
}

/// What a minimum or maximum comes to: the sum where the operands are
/// unordered, the operands' bits merged where they are equal, and else what the
/// hardware gives.
proof fn lemma_min_max_runs(
    s: Machine,
    frame: FrameLayout,
    size: OperandSize,
    is_min: bool,
    lhs: Xmm,
    dst: Xmm,
)
    requires
        crate::x64::machine::ready(s),
        size is Size32 || size is Size64,
    ensures
        ({
            let f = crate::x64::machine::float_flags(
                is_wide(size),
                float(s, size, dst),
                float(s, size, lhs),
            );
            let (sum, merged, chosen) = crate::x64::emit_convert::min_max_ops(size, is_min);
            let r = crate::x64::machine::run(
                s,
                crate::x64::emit_convert::xmm_min_max(frame, size, is_min, lhs, dst),
            );
            r == crate::x64::machine::vector(
                s.set_flags(f),
                if !f.zero {
                    chosen
                } else if f.parity {
                    sum
                } else {
                    merged
                },
                dst.enc,
                lhs.enc,
            )
        }),
{
    let f = crate::x64::machine::float_flags(
        is_wide(size),
        float(s, size, dst),
        float(s, size, lhs),
    );
    let (sum, merged, chosen) = crate::x64::emit_convert::min_max_ops(size, is_min);
    let (done, propagate, choosing) = (Label::Local(0), Label::Local(1), Label::Local(2));
    let compare = crate::x64::emit_convert::compare_float(
        crate::x64::emit_convert::compare_op(size),
        dst,
        lhs,
    );
    let x = Seq::<Step>::empty().push(Step::GetLabel { label: done }).push(
        Step::GetLabel { label: propagate },
    ).push(Step::GetLabel { label: choosing }).push(compare);
    let j1 = crate::x64::emit_basic::jump_if(CC::NZ, choosing);
    let j2 = crate::x64::emit_basic::jump_if(CC::P, propagate);
    let j3 = crate::x64::emit_basic::jump_if(CC::P, done);
    let merge = crate::x64::emit_basic::asm_rr(frame, merged, Reg::Xmm(dst), Reg::Xmm(lhs));
    let plus = crate::x64::emit_basic::asm_rr(frame, sum, Reg::Xmm(dst), Reg::Xmm(lhs));
    let choose_it = crate::x64::emit_basic::asm_rr(frame, chosen, Reg::Xmm(dst), Reg::Xmm(lhs));
    let y = Seq::<Step>::empty().push(merge).push(Step::Emit(Built::JmpKnown { label: done })).push(
        Step::BindLabel { label: propagate },
    ).push(plus);
    let z = seq![Step::BindLabel { label: choosing }, choose_it, Step::BindLabel { label: done }];
    assert(crate::x64::emit_convert::xmm_min_max(frame, size, is_min, lhs, dst) == x + j1 + j2 + y
        + j3 + z);
    lemma_compare_float(s, size, dst, lhs);
    let s1 = s.set_flags(f);
    assert(crate::x64::machine::run(s, x) == s1);
    let s2 = crate::x64::machine::run(s1, j1);
    let s3 = crate::x64::machine::run(s2, j2);
    let s4 = crate::x64::machine::run(s3, y);
    let s5 = crate::x64::machine::run(s4, j3);
    crate::x64::machine::lemma_run_four(
        s3,
        merge,
        Step::Emit(Built::JmpKnown { label: done }),
        Step::BindLabel { label: propagate },
        plus,
    );
    lemma_run_three(s5, z);
    lemma_on_vectors(s1, frame, merged, dst, lhs);
    lemma_on_vectors(s1, frame, sum, dst, lhs);
    lemma_on_vectors(s1, frame, chosen, dst, lhs);
    if !f.zero {
        assert(s2 == s1.go(At::Seek(choosing)));
        assert(s5 == s2);
        assert(s1.go(At::Seek(choosing)).go(At::Here) == s1);
    } else if f.parity {
        assert(s3 == s1.go(At::Seek(propagate)));
        assert(s1.go(At::Seek(propagate)).go(At::Here) == s1);
        let t = crate::x64::machine::vector(s1, sum, dst.enc, lhs.enc);
        assert(s4 == t);
        assert(s5 == t.go(At::Seek(done)));
        assert(t.go(At::Seek(done)).go(At::Here) == t);
    } else {
        assert(s3 == s1);
        let t = crate::x64::machine::vector(s1, merged, dst.enc, lhs.enc);
        lemma_jump(t, done);
        assert(s4 == t.go(At::Seek(done)));
        assert(s5 == s4);
        assert(t.go(At::Seek(done)).go(At::Here) == t);
    }
}

proof fn lemma_on_vectors(s: Machine, frame: FrameLayout, op: AsmOp, dst: Xmm, src: Xmm)
    requires
        crate::x64::machine::ready(s),
        op is AddssA || op is AddsdA || op is OrpsA || op is OrpdA || op is AndpsA || op is AndpdA
            || op is MinssA || op is MinsdA || op is MaxssA || op is MaxsdA,
    ensures
        ({
            let r = crate::x64::machine::vector(s, op, dst.enc, src.enc);
            &&& crate::x64::machine::step(
                s,
                crate::x64::emit_basic::asm_rr(frame, op, Reg::Xmm(dst), Reg::Xmm(src)),
            ) == r
            &&& r == s.set_xmm(dst.enc, r.vec(dst))
        }),
{
    reveal(crate::x64::machine::assembled);
    reveal(crate::x64::machine::vector);
}

/// Floats that are written are what is there after.
proof fn lemma_float_written(wide: bool, v: u64, bits: int)
    requires
        crate::x64::floats::has_size(wide, bits),
    ensures
        crate::x64::machine::float_in(wide, crate::x64::machine::with_float(wide, v, bits)) == bits,
{
}

/// Merged zeros are zeros, and negative if one (or both) of them were. Equal
/// floats are merged to themselves.
proof fn lemma_merged(wide: bool, x: u64, y: u64)
    requires
        ({
            let (a, b) = (
                crate::x64::machine::float_in(wide, x),
                crate::x64::machine::float_in(wide, y),
            );
            &&& crate::x64::machine::value(wide, a) == crate::x64::machine::value(wide, b)
            &&& !crate::x64::machine::is_nan(wide, a)
            &&& !crate::x64::machine::is_nan(wide, b)
        }),
    ensures
        ({
            let (a, b) = (
                crate::x64::machine::float_in(wide, x),
                crate::x64::machine::float_in(wide, y),
            );
            let (or, and) = (
                crate::x64::machine::float_in(wide, x | y),
                crate::x64::machine::float_in(wide, x & y),
            );
            &&& crate::x64::machine::value(wide, or) == crate::x64::machine::value(wide, a)
            &&& crate::x64::machine::value(wide, and) == crate::x64::machine::value(wide, a)
            &&& !crate::x64::machine::is_nan(wide, or)
            &&& !crate::x64::machine::is_nan(wide, and)
            &&& crate::x64::machine::is_negative(wide, or) == (
            crate::x64::machine::is_negative(wide, a) || crate::x64::machine::is_negative(wide, b))
            &&& crate::x64::machine::is_negative(wide, and) == (
            crate::x64::machine::is_negative(wide, a) && crate::x64::machine::is_negative(wide, b))
        }),
{
    let (a, b) = (crate::x64::machine::float_in(wide, x), crate::x64::machine::float_in(wide, y));
    crate::x64::floats::lemma_same_value(wide, a, b);
    let (or, and) = (x | y, x & y);
    if crate::x64::machine::value(wide, a) != 0 {
        if wide {
            assert(x | x == x && x & x == x) by (bit_vector);
        } else {
            assert((x | y) % 0x1_0000_0000 == x % 0x1_0000_0000 && (x & y) % 0x1_0000_0000 == x
                % 0x1_0000_0000) by (bit_vector)
                requires
                    x % 0x1_0000_0000 == y % 0x1_0000_0000,
            ;
        }
    } else if wide {
        let w: u64 = 0x8000_0000_0000_0000;
        assert(x % w == 0 && y % w == 0);
        assert((x | y) % w == 0 && (x & y) % w == 0 && ((x | y) / w == 1) == (x / w == 1 || y / w
            == 1) && ((x & y) / w == 1) == (x / w == 1 && y / w == 1)) by (bit_vector)
            requires
                w == 0x8000_0000_0000_0000,
                x % w == 0,
                y % w == 0,
        ;
        lemma_zeros(wide, or as int);
        lemma_zeros(wide, and as int);
    } else {
        let w: u64 = 0x8000_0000;
        let m: u64 = 0x1_0000_0000;
        assert((x | y) % m % w == 0 && (x & y) % m % w == 0 && ((x | y) % m / w % 2 == 1) == (x % m
            / w % 2 == 1 || y % m / w % 2 == 1) && ((x & y) % m / w % 2 == 1) == (x % m / w % 2
            == 1 && y % m / w % 2 == 1)) by (bit_vector)
            requires
                w == 0x8000_0000,
                m == 0x1_0000_0000,
                x % m % w == 0,
                y % m % w == 0,
        ;
        lemma_zeros(wide, or as int % 0x1_0000_0000);
        lemma_zeros(wide, and as int % 0x1_0000_0000);
    }
}

/// A float whose bits but the sign are clear is zero.
proof fn lemma_zeros(wide: bool, bits: int)
    requires
        crate::x64::floats::has_size(wide, bits),
        crate::x64::machine::unsigned_bits(wide, bits) == 0,
    ensures
        crate::x64::machine::value(wide, bits) == 0,
        !crate::x64::machine::is_nan(wide, bits),
{
    crate::x64::floats::lemma_bits_of_fields(wide, bits);
}

/// The minimum (or maximum) of floats is no number if one of them is none. It
/// is else the lesser (or the greater) of the two, and a negative zero is less than a
/// positive one.
pub proof fn law_minimum_and_maximum(
    s: Machine,
    size: OperandSize,
    is_min: bool,
    lhs: Xmm,
    rhs: Xmm,
    info: EmitInfo,
    state: EmitState,
)
    requires
        crate::x64::machine::ready(s),
        size is Size32 || size is Size64,
        // A sum with what is no number is no number.
        ({
            let (a, b) = (float(s, size, lhs), float(s, size, rhs));
            let sum = (s.rounding.sum)(is_wide(size), b, a);
            crate::x64::machine::is_nan(is_wide(size), a) || crate::x64::machine::is_nan(
                is_wide(size),
                b,
            ) ==> crate::x64::machine::is_nan(is_wide(size), sum) && crate::x64::floats::has_size(
                is_wide(size),
                sum,
            )
        }),
    ensures
        ({
            let wide = is_wide(size);
            let (a, b) = (float(s, size, lhs), float(s, size, rhs));
            let end = effect(
                s,
                Inst::XmmMinMaxSeq { size, is_min, lhs, rhs, dst: rhs },
                info,
                state,
            );
            let r = float(end, size, rhs);
            let (va, vb, vr) = (
                crate::x64::machine::value(wide, a),
                crate::x64::machine::value(wide, b),
                crate::x64::machine::value(wide, r),
            );
            &&& end.at is Here
            &&& end.gpr == s.gpr
            &&& end.memory == s.memory
            &&& if crate::x64::machine::is_nan(wide, a) || crate::x64::machine::is_nan(wide, b) {
                crate::x64::machine::is_nan(wide, r)
            } else {
                &&& !crate::x64::machine::is_nan(wide, r)
                &&& vr == va || vr == vb
                &&& is_min ==> vr <= va && vr <= vb
                &&& !is_min ==> vr >= va && vr >= vb
                &&& va == 0 && vb == 0 ==> crate::x64::machine::is_negative(wide, r) == (if is_min {
                    crate::x64::machine::is_negative(wide, a) || crate::x64::machine::is_negative(
                        wide,
                        b,
                    )
                } else {
                    crate::x64::machine::is_negative(wide, a) && crate::x64::machine::is_negative(
                        wide,
                        b,
                    )
                })
            }
        }),
{
    let wide = is_wide(size);
    let (a, b) = (float(s, size, lhs), float(s, size, rhs));
    let f = crate::x64::machine::float_flags(wide, b, a);
    assert(crate::x64::emit::listing(
        Inst::XmmMinMaxSeq { size, is_min, lhs, rhs, dst: rhs },
        info,
        state,
    ) == crate::x64::emit_convert::xmm_min_max(state.frame_layout, size, is_min, lhs, rhs));
    lemma_min_max_runs(s, state.frame_layout, size, is_min, lhs, rhs);
    reveal(crate::x64::machine::vector);
    let (x, y) = (s.vec(rhs), s.vec(lhs));
    if f.zero && !f.parity {
        lemma_merged(wide, x, y);
    } else if f.parity {
        lemma_float_written(wide, x, (s.rounding.sum)(wide, b, a));
    } else {
        lemma_float_written(
            wide,
            x,
            crate::x64::machine::hardware_min_max(wide, is_min, b, a),
        );
    }
}

} // verus!
