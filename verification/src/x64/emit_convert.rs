//! Emission of the sequences for remainders, minima and maxima, and conversions
//! between integers and floats.

use crate::x64::args::{Gpr, Label, OperandSize, Reg, RegMem, RegMemImm, TrapCode, Type, Xmm, CC};
use crate::x64::emit_basic::{emit_asm_ri, emit_asm_rr, emit_external, one_way_jmp};
use crate::x64::inst::FrameLayout;
use crate::x64::opcodes::SseOpcode;
use crate::x64::sink::{AsmInst, AsmOp, Built, Sink, Step};
use vstd::prelude::*;

verus! {

broadcast use crate::x64::sink::group_steps;

/// A comparison of a register with a constant.
pub open spec fn compare_imm(size: OperandSize, reg: Gpr, simm32: u32) -> Step {
    Step::Emit(Built::CmpRmiR { size, src1: reg, src2: RegMemImm::Imm { simm32 } })
}

fn emit_compare_imm(sink: &mut Sink, size: OperandSize, reg: Gpr, simm32: u32)
    ensures
        final(sink)@ == old(sink)@.push(compare_imm(size, reg, simm32)),
{
    sink.emit(Built::CmpRmiR { size, src1: reg, src2: RegMemImm::Imm { simm32 } });
}

/// A comparison of floats that sets the flags.
pub open spec fn compare_float(op: SseOpcode, a: Xmm, b: Xmm) -> Step {
    Step::Emit(
        Built::XmmCmpRmR { op, src1: Reg::Xmm(a), src2: RegMem::Reg { reg: Reg::Xmm(b) } },
    )
}

fn emit_compare_float(sink: &mut Sink, op: SseOpcode, a: Xmm, b: Xmm)
    ensures
        final(sink)@ == old(sink)@.push(compare_float(op, a, b)),
{
    sink.emit(Built::XmmCmpRmR { op, src1: Reg::Xmm(a), src2: RegMem::Reg { reg: Reg::Xmm(b) } });
}

/// The operation that compares floats of a size.
pub open spec fn compare_op(size: OperandSize) -> SseOpcode {
    if size is Size32 {
        SseOpcode::Ucomiss
    } else {
        SseOpcode::Ucomisd
    }
}

fn float_compare_op(size: OperandSize) -> (op: SseOpcode)
    ensures
        op == compare_op(size),
{
    match size {
        OperandSize::Size32 => SseOpcode::Ucomiss,
        _ => SseOpcode::Ucomisd,
    }
}

/// A remainder: zero if the divisor is -1, so that the division cannot overflow,
/// and else what the division gives.
pub open spec fn checked_srem(
    frame: FrameLayout,
    size: OperandSize,
    divisor: Gpr,
    dst: Gpr,
) -> Seq<Step> {
    let do_op = Label::Local(0);
    let done = Label::Local(1);
    seq![
        Step::GetLabel { label: do_op },
        Step::GetLabel { label: done },
        // cmp -1 %divisor
        compare_imm(size, divisor, 0xffffffff),
        // jnz $do_op
    ] + crate::x64::emit_basic::jump_if(CC::NZ, do_op) + seq![
        // mov #0, %dst
        Step::Emit(Built::Imm { size: OperandSize::Size64, value: 0, dst }),
        // j $done
        Step::Emit(Built::JmpKnown { label: done }),
        Step::BindLabel { label: do_op },
        // idiv %divisor
        Step::Asm {
            inst: AsmInst::Idiv { size, divisor, trap: TrapCode::IntegerDivisionByZero },
            offsets: frame.offsets(),
        },
        Step::BindLabel { label: done },
    ]
}

/// Emits a remainder.
///
/// For 16 to 64 bits the quotient is left unchanged if the divisor is -1: only
/// the remainder is used.
pub fn emit_checked_srem(
    sink: &mut Sink,
    frame: &FrameLayout,
    size: OperandSize,
    divisor: Gpr,
    dst: Gpr,
)
    requires
        frame.fits(),
    ensures
        final(sink)@ == old(sink)@ + checked_srem(*frame, size, divisor, dst),
{
    let do_op = sink.get_label(0);
    let done_label = sink.get_label(1);
    // Check if the divisor is -1, and if it isn't then immediately go to the
    // `idiv`.
    emit_compare_imm(sink, size, divisor, 0xffffffff);
    one_way_jmp(sink, CC::NZ, do_op);
    // ... otherwise the divisor is -1 and the result is always 0.
    sink.emit(Built::Imm { size: OperandSize::Size64, value: 0, dst });
    sink.emit(Built::JmpKnown { label: done_label });
    // Here the `idiv` is executed.
    sink.bind_label(do_op);
    emit_external(
        sink,
        frame,
        AsmInst::Idiv { size, divisor, trap: TrapCode::IntegerDivisionByZero },
    );
    sink.bind_label(done_label);
}

/// The instructions that a minimum or a maximum is made of, for one size.
pub open spec fn min_max_ops(size: OperandSize, is_min: bool) -> (AsmOp, AsmOp, AsmOp) {
    if size is Size32 {
        (
            AsmOp::AddssA,
            if is_min {
                AsmOp::OrpsA
            } else {
                AsmOp::AndpsA
            },
            if is_min {
                AsmOp::MinssA
            } else {
                AsmOp::MaxssA
            },
        )
    } else {
        (
            AsmOp::AddsdA,
            if is_min {
                AsmOp::OrpdA
            } else {
                AsmOp::AndpdA
            },
            if is_min {
                AsmOp::MinsdA
            } else {
                AsmOp::MaxsdA
            },
        )
    }
}

/// A minimum or a maximum. Operands that are equal are merged by their sign
/// bits, which differ for zeros. If an operand is NaN they are added, which
/// gives a quiet NaN.
pub open spec fn xmm_min_max(
    frame: FrameLayout,
    size: OperandSize,
    is_min: bool,
    lhs: Xmm,
    dst: Xmm,
) -> Seq<Step> {
    let done = Label::Local(0);
    let propagate_nan = Label::Local(1);
    let do_min_max = Label::Local(2);
    let (add_op, merge_op, min_max_op) = min_max_ops(size, is_min);
    seq![
        Step::GetLabel { label: done },
        Step::GetLabel { label: propagate_nan },
        Step::GetLabel { label: do_min_max },
        compare_float(compare_op(size), dst, lhs),
    ] + crate::x64::emit_basic::jump_if(CC::NZ, do_min_max) + crate::x64::emit_basic::jump_if(
        CC::P,
        propagate_nan,
    ) + seq![
        // ordered and equal: propagate the sign bit
        crate::x64::emit_basic::asm_rr(frame, merge_op, Reg::Xmm(dst), Reg::Xmm(lhs)),
        Step::Emit(Built::JmpKnown { label: done }),
        Step::BindLabel { label: propagate_nan },
        crate::x64::emit_basic::asm_rr(frame, add_op, Reg::Xmm(dst), Reg::Xmm(lhs)),
    ] + crate::x64::emit_basic::jump_if(CC::P, done) + seq![
        Step::BindLabel { label: do_min_max },
        crate::x64::emit_basic::asm_rr(frame, min_max_op, Reg::Xmm(dst), Reg::Xmm(lhs)),
        Step::BindLabel { label: done },
    ]
}

/// Emits a minimum or a maximum.
pub fn emit_xmm_min_max(
    sink: &mut Sink,
    frame: &FrameLayout,
    size: OperandSize,
    is_min: bool,
    lhs: Xmm,
    rhs: Xmm,
    dst: Xmm,
)
    requires
        rhs == dst,
        size is Size32 || size is Size64,
        frame.fits(),
    ensures
        final(sink)@ == old(sink)@ + xmm_min_max(*frame, size, is_min, lhs, dst),
{
    let done = sink.get_label(0);
    let propagate_nan = sink.get_label(1);
    let do_min_max = sink.get_label(2);
    let (add_op, and_op, or_op, min_max_op) = match size {
        OperandSize::Size32 => (
            AsmOp::AddssA,
            AsmOp::AndpsA,
            AsmOp::OrpsA,
            if is_min {
                AsmOp::MinssA
            } else {
                AsmOp::MaxssA
            },
        ),
        _ => (
            AsmOp::AddsdA,
            AsmOp::AndpdA,
            AsmOp::OrpdA,
            if is_min {
                AsmOp::MinsdA
            } else {
                AsmOp::MaxsdA
            },
        ),
    };
    emit_compare_float(sink, float_compare_op(size), dst, lhs);
    one_way_jmp(sink, CC::NZ, do_min_max);
    one_way_jmp(sink, CC::P, propagate_nan);
    // Ordered and equal. The operands are bit-identical unless they are zero
    // and negative zero. These instructions merge the sign bits in that case.
    let merge_op = if is_min {
        or_op
    } else {
        and_op
    };
    emit_asm_rr(sink, frame, merge_op, Reg::Xmm(dst), Reg::Xmm(lhs));
    sink.emit(Built::JmpKnown { label: done });
    // The hardware returns the operand that is only read if either is a NaN; an
    // addition has the desired effect.
    sink.bind_label(propagate_nan);
    emit_asm_rr(sink, frame, add_op, Reg::Xmm(dst), Reg::Xmm(lhs));
    one_way_jmp(sink, CC::P, done);
    sink.bind_label(do_min_max);
    emit_asm_rr(sink, frame, min_max_op, Reg::Xmm(dst), Reg::Xmm(lhs));
    sink.bind_label(done);
}

/// A signed conversion to a float.
pub open spec fn signed_cvt(frame: FrameLayout, src: Gpr, dst: Xmm, to_f64: bool) -> Step {
    crate::x64::emit_basic::asm_rr(
        frame,
        if to_f64 {
            AsmOp::Cvtsi2sdqA
        } else {
            AsmOp::Cvtsi2ssqA
        },
        Reg::Xmm(dst),
        Reg::Gpr(src),
    )
}

/// A small helper to generate a signed conversion instruction.
pub fn emit_signed_cvt(sink: &mut Sink, frame: &FrameLayout, src: Gpr, dst: Xmm, to_f64: bool)
    requires
        frame.fits(),
    ensures
        final(sink)@ == old(sink)@.push(signed_cvt(*frame, src, dst, to_f64)),
{
    let op = if to_f64 {
        AsmOp::Cvtsi2sdqA
    } else {
        AsmOp::Cvtsi2ssqA
    };
    emit_asm_rr(sink, frame, op, Reg::Xmm(dst), Reg::Gpr(src));
}

/// The conversion of an unsigned 64-bit integer to a float. One that is not
/// negative as a signed integer is converted as such. Else it is halved, with
/// its lowest bit kept for the rounding, converted, and doubled.
pub open spec fn cvt_uint64_to_float(
    frame: FrameLayout,
    dst_size: OperandSize,
    src: Gpr,
    dst: Xmm,
    tmp_gpr1: Gpr,
    tmp_gpr2: Gpr,
) -> Seq<Step> {
    let handle_negative = Label::Local(0);
    let done = Label::Local(1);
    let to_f64 = dst_size is Size64;
    seq![
        Step::GetLabel { label: handle_negative },
        Step::GetLabel { label: done },
        // cmp 0, %src
        compare_imm(OperandSize::Size64, src, 0),
        // jl handle_negative
    ] + crate::x64::emit_basic::jump_if(CC::L, handle_negative) + seq![
        // cvtsi2sd/cvtsi2ss %src, %dst
        signed_cvt(frame, src, dst, to_f64),
        // j done
        Step::Emit(Built::JmpKnown { label: done }),
        Step::BindLabel { label: handle_negative },
        // mov %src, %tmp_gpr1
        Step::Emit(Built::Move { dst: Reg::Gpr(tmp_gpr1), src: Reg::Gpr(src), ty: Type::I64 }),
        // shr $1, %tmp_gpr1
        crate::x64::emit_basic::asm_ri(frame, AsmOp::ShrqMi, tmp_gpr1, 1),
        // mov %src, %tmp_gpr2
        Step::Emit(Built::Move { dst: Reg::Gpr(tmp_gpr2), src: Reg::Gpr(src), ty: Type::I64 }),
        // and $1, %tmp_gpr2
        crate::x64::emit_basic::asm_ri(frame, AsmOp::AndqMiSxb, tmp_gpr2, 1),
        // or %tmp_gpr1, %tmp_gpr2
        crate::x64::emit_basic::asm_rr(
            frame,
            AsmOp::OrqRm,
            Reg::Gpr(tmp_gpr2),
            Reg::Gpr(tmp_gpr1),
        ),
        // cvtsi2sd/cvtsi2ss %tmp_gpr2, %dst
        signed_cvt(frame, tmp_gpr2, dst, to_f64),
        // addsd/addss %dst, %dst
        crate::x64::emit_basic::asm_rr(
            frame,
            if to_f64 {
                AsmOp::AddsdA
            } else {
                AsmOp::AddssA
            },
            Reg::Xmm(dst),
            Reg::Xmm(dst),
        ),
        Step::BindLabel { label: done },
    ]
}

/// Emits the conversion of an unsigned 64-bit integer to a float.
pub fn emit_cvt_uint64_to_float(
    sink: &mut Sink,
    frame: &FrameLayout,
    dst_size: OperandSize,
    src: Gpr,
    dst: Xmm,
    tmp_gpr1: Gpr,
    tmp_gpr2: Gpr,
)
    requires
        src != tmp_gpr1,
        src != tmp_gpr2,
        dst_size is Size32 || dst_size is Size64,
        frame.fits(),
    ensures
        final(sink)@ == old(sink)@ + cvt_uint64_to_float(
            *frame,
            dst_size,
            src,
            dst,
            tmp_gpr1,
            tmp_gpr2,
        ),
{
    let to_f64 = dst_size == OperandSize::Size64;
    let handle_negative = sink.get_label(0);
    let done = sink.get_label(1);
    // If x seen as a signed int64 is not negative, a signed-conversion will do
    // the right thing.
    emit_compare_imm(sink, OperandSize::Size64, src, 0);
    one_way_jmp(sink, CC::L, handle_negative);
    emit_signed_cvt(sink, frame, src, dst, to_f64);
    sink.emit(Built::JmpKnown { label: done });
    sink.bind_label(handle_negative);
    // Divide x by two to get it in range for the signed conversion, keep the
    // LSB, and scale it back up on the FP side.
    sink.emit(Built::Move { dst: Reg::Gpr(tmp_gpr1), src: Reg::Gpr(src), ty: Type::I64 });
    emit_asm_ri(sink, frame, AsmOp::ShrqMi, tmp_gpr1, 1);
    sink.emit(Built::Move { dst: Reg::Gpr(tmp_gpr2), src: Reg::Gpr(src), ty: Type::I64 });
    emit_asm_ri(sink, frame, AsmOp::AndqMiSxb, tmp_gpr2, 1);
    emit_asm_rr(sink, frame, AsmOp::OrqRm, Reg::Gpr(tmp_gpr2), Reg::Gpr(tmp_gpr1));
    emit_signed_cvt(sink, frame, tmp_gpr2, dst, to_f64);
    let op = match dst_size {
        OperandSize::Size64 => AsmOp::AddsdA,
        _ => AsmOp::AddssA,
    };
    emit_asm_rr(sink, frame, op, Reg::Xmm(dst), Reg::Xmm(dst));
    sink.bind_label(done);
}

/// The bits of the 32-bit float that is this power of two.
pub open spec fn f32_pow2(exponent: int) -> u32 {
    ((exponent + 127) * 0x80_0000) as u32
}

/// The bits of the 64-bit float that is this power of two.
pub open spec fn f64_pow2(exponent: int) -> u64 {
    ((exponent + 1023) * 0x10_0000_0000_0000) as u64
}

/// The bits of the power of two that is the least integer too large for a
/// signed integer of `dst_size`, as a float of `src_size`.
pub open spec fn upper_bound(src_size: OperandSize, dst_size: OperandSize) -> u64 {
    let exponent = 8 * dst_size.bytes() - 1;
    if src_size is Size32 {
        f32_pow2(exponent) as u64
    } else {
        f64_pow2(exponent)
    }
}

/// Computes the bits of the power of two that is too large for a signed integer.
fn float_upper_bound(src_size: OperandSize, dst_size: OperandSize) -> (bits: u64)
    ensures
        bits == upper_bound(src_size, dst_size),
{
    let exponent: u8 = dst_size.to_bits() - 1;
    match src_size {
        OperandSize::Size32 => ((exponent as u32 + 127) * 0x80_0000) as u64,
        _ => (exponent as u64 + 1023) * 0x10_0000_0000_0000,
    }
}

/// The bits of a bound below which a float is too small for a signed integer.
/// The least integer is itself in range. Of 32 bits a 64-bit float can be less
/// than the least integer and still be truncated to it, so that the bound is
/// the integer below, which is out of range.
pub open spec fn lower_bound(src_size: OperandSize, dst_size: OperandSize) -> u64 {
    let exponent = 8 * dst_size.bytes() - 1;
    if src_size is Size32 {
        (0x8000_0000 + f32_pow2(exponent)) as u64
    } else if dst_size is Size64 {
        (0x8000_0000_0000_0000 + f64_pow2(exponent)) as u64
    } else {
        // The lowest bit of the integer part is bit 52 - 31 of the mantissa.
        (0x8000_0000_0000_0000 + f64_pow2(exponent) + 0x20_0000) as u64
    }
}

/// Computes the bits of the lower bound.
fn float_lower_bound(src_size: OperandSize, dst_size: OperandSize) -> (bits: u64)
    requires
        dst_size is Size32 || dst_size is Size64,
    ensures
        bits == lower_bound(src_size, dst_size),
{
    let power: u64 = float_upper_bound(src_size, dst_size);
    match src_size {
        OperandSize::Size32 => power + 0x8000_0000,
        _ => if dst_size == OperandSize::Size64 {
            power + 0x8000_0000_0000_0000
        } else {
            power + 0x8000_0000_0020_0000
        },
    }
}

/// The condition for a float to be in range, once it is compared with the lower
/// bound: not below it, or above it if the bound is out of range.
pub open spec fn no_overflow_cc(src_size: OperandSize, dst_size: OperandSize) -> CC {
    if src_size is Size64 && dst_size is Size32 {
        CC::NBE
    } else {
        CC::NB
    }
}

/// The instruction that truncates a float to an integer.
pub open spec fn cvtt_op(src_size: OperandSize, dst_size: OperandSize) -> AsmOp {
    match (src_size, dst_size) {
        (OperandSize::Size32, OperandSize::Size32) => AsmOp::Cvttss2siA,
        (OperandSize::Size32, _) => AsmOp::Cvttss2siAq,
        (_, OperandSize::Size32) => AsmOp::Cvttsd2siA,
        (_, _) => AsmOp::Cvttsd2siAq,
    }
}

/// A truncation of a float to an integer.
pub open spec fn truncation(
    frame: FrameLayout,
    src_size: OperandSize,
    dst_size: OperandSize,
    dst: Gpr,
    src: Xmm,
) -> Step {
    crate::x64::emit_basic::asm_rr(frame, cvtt_op(src_size, dst_size), Reg::Gpr(dst), Reg::Xmm(src))
}

fn emit_truncation(
    sink: &mut Sink,
    frame: &FrameLayout,
    src_size: OperandSize,
    dst_size: OperandSize,
    dst: Gpr,
    src: Xmm,
)
    requires
        frame.fits(),
    ensures
        final(sink)@ == old(sink)@.push(truncation(*frame, src_size, dst_size, dst, src)),
{
    let op = match (src_size, dst_size) {
        (OperandSize::Size32, OperandSize::Size32) => AsmOp::Cvttss2siA,
        (OperandSize::Size32, _) => AsmOp::Cvttss2siAq,
        (_, OperandSize::Size32) => AsmOp::Cvttsd2siA,
        (_, _) => AsmOp::Cvttsd2siAq,
    };
    emit_asm_rr(sink, frame, op, Reg::Gpr(dst), Reg::Xmm(src));
}

/// The instruction that clears an integer register.
pub open spec fn clear(frame: FrameLayout, dst_size: OperandSize, dst: Gpr) -> Step {
    crate::x64::emit_basic::asm_rr(
        frame,
        if dst_size is Size32 {
            AsmOp::XorlRm
        } else {
            AsmOp::XorqRm
        },
        Reg::Gpr(dst),
        Reg::Gpr(dst),
    )
}

fn emit_clear(sink: &mut Sink, frame: &FrameLayout, dst_size: OperandSize, dst: Gpr)
    requires
        frame.fits(),
    ensures
        final(sink)@ == old(sink)@.push(clear(*frame, dst_size, dst)),
{
    let op = match dst_size {
        OperandSize::Size32 => AsmOp::XorlRm,
        _ => AsmOp::XorqRm,
    };
    emit_asm_rr(sink, frame, op, Reg::Gpr(dst), Reg::Gpr(dst));
}

/// The instruction that moves the bits of a float to a vector register.
pub open spec fn to_xmm(frame: FrameLayout, src_size: OperandSize, dst: Xmm, src: Gpr) -> Step {
    crate::x64::emit_basic::asm_rr(
        frame,
        if src_size is Size32 {
            AsmOp::MovdA
        } else {
            AsmOp::MovqA
        },
        Reg::Xmm(dst),
        Reg::Gpr(src),
    )
}

fn emit_to_xmm(sink: &mut Sink, frame: &FrameLayout, src_size: OperandSize, dst: Xmm, src: Gpr)
    requires
        frame.fits(),
    ensures
        final(sink)@ == old(sink)@.push(to_xmm(*frame, src_size, dst, src)),
{
    let op = match src_size {
        OperandSize::Size32 => AsmOp::MovdA,
        _ => AsmOp::MovqA,
    };
    emit_asm_rr(sink, frame, op, Reg::Xmm(dst), Reg::Gpr(src));
}

/// What a conversion of a float to an integer needs: sizes of 32 or 64 bits.
pub open spec fn cvt_ok(src_size: OperandSize, dst_size: OperandSize) -> bool {
    &&& src_size is Size32 || src_size is Size64
    &&& dst_size is Size32 || dst_size is Size64
}

/// The conversion of a float to a signed integer. The hardware gives the least
/// integer for all that is out of range, and then it is found out why.
/// Saturating, NaN becomes 0, and what is too large the greatest integer; else
/// both trap, as does what is too small.
pub open spec fn cvt_float_to_sint(
    frame: FrameLayout,
    src_size: OperandSize,
    dst_size: OperandSize,
    is_saturating: bool,
    src: Xmm,
    dst: Gpr,
    tmp_gpr: Gpr,
    tmp_xmm: Xmm,
) -> Seq<Step> {
    let done = Label::Local(0);
    let op = compare_op(src_size);
    let zero = crate::x64::emit_basic::asm_rr(
        frame,
        AsmOp::XorpdA,
        Reg::Xmm(tmp_xmm),
        Reg::Xmm(tmp_xmm),
    );
    seq![
        Step::GetLabel { label: done },
        // cvttss2si/cvttsd2si %src, %dst
        truncation(frame, src_size, dst_size, dst, src),
        // cmp %dst, 1
        compare_imm(dst_size, dst, 1),
        // jno done
    ] + crate::x64::emit_basic::jump_if(CC::NO, done) + seq![
        // check for NaN
        compare_float(op, src, src),
    ] + (if is_saturating {
        let not_nan = Label::Local(1);
        seq![Step::GetLabel { label: not_nan }] + crate::x64::emit_basic::jump_if(CC::NP, not_nan)
            + seq![
            clear(frame, dst_size, dst),
            Step::Emit(Built::JmpKnown { label: done }),
            Step::BindLabel { label: not_nan },
            // positive inputs get saturated to INT_MAX; negative ones to
            // INT_MIN, which is already in %dst.
            zero,
            compare_float(op, tmp_xmm, src),
        ] + crate::x64::emit_basic::jump_if(CC::NB, done) + seq![
            Step::Emit(
                Built::Imm {
                    size: dst_size,
                    value: if dst_size is Size64 {
                        0x7fffffffffffffff
                    } else {
                        0x7fffffff
                    },
                    dst,
                },
            ),
        ]
    } else {
        seq![
            Step::Emit(Built::TrapIf { cc: CC::P, code: TrapCode::BadConversionToInteger }),
            // check if INT_MIN was the correct result, against a magic constant
            Step::Emit(
                Built::Imm {
                    size: src_size,
                    value: lower_bound(src_size, dst_size),
                    dst: tmp_gpr,
                },
            ),
            to_xmm(frame, src_size, tmp_xmm, tmp_gpr),
            compare_float(op, src, tmp_xmm),
            Step::Emit(
                Built::TrapIf {
                    cc: no_overflow_cc(src_size, dst_size).inverse(),
                    code: TrapCode::IntegerOverflow,
                },
            ),
            // if positive, it was a real overflow
            zero,
            compare_float(op, tmp_xmm, src),
            Step::Emit(Built::TrapIf { cc: CC::B, code: TrapCode::IntegerOverflow }),
        ]
    }) + seq![Step::BindLabel { label: done }]
}

/// Emits the conversion of a float to a signed integer.
pub fn emit_cvt_float_to_sint(
    sink: &mut Sink,
    frame: &FrameLayout,
    src_size: OperandSize,
    dst_size: OperandSize,
    is_saturating: bool,
    src: Xmm,
    dst: Gpr,
    tmp_gpr: Gpr,
    tmp_xmm: Xmm,
)
    requires
        cvt_ok(src_size, dst_size),
        frame.fits(),
    ensures
        final(sink)@ == old(sink)@ + cvt_float_to_sint(
            *frame,
            src_size,
            dst_size,
            is_saturating,
            src,
            dst,
            tmp_gpr,
            tmp_xmm,
        ),
{
    let op = float_compare_op(src_size);
    let done = sink.get_label(0);
    // The truncation.
    emit_truncation(sink, frame, src_size, dst_size, dst, src);
    // Compare against 1, in case of overflow the dst operand was INT_MIN.
    emit_compare_imm(sink, dst_size, dst, 1);
    one_way_jmp(sink, CC::NO, done);  // no overflow => done
    // Check for NaN.
    emit_compare_float(sink, op, src, src);
    if is_saturating {
        let not_nan = sink.get_label(1);
        one_way_jmp(sink, CC::NP, not_nan);  // go to not_nan if not a NaN
        // For NaN, emit 0.
        emit_clear(sink, frame, dst_size, dst);
        sink.emit(Built::JmpKnown { label: done });
        sink.bind_label(not_nan);
        // If the input was positive, saturate to INT_MAX.
        emit_asm_rr(sink, frame, AsmOp::XorpdA, Reg::Xmm(tmp_xmm), Reg::Xmm(tmp_xmm));
        emit_compare_float(sink, op, tmp_xmm, src);
        // Jump if >= to done.
        one_way_jmp(sink, CC::NB, done);
        // Otherwise, put INT_MAX.
        if dst_size == OperandSize::Size64 {
            sink.emit(Built::Imm { size: OperandSize::Size64, value: 0x7fffffffffffffff, dst });
        } else {
            sink.emit(Built::Imm { size: OperandSize::Size32, value: 0x7fffffff, dst });
        }
    } else {
        sink.emit(Built::TrapIf { cc: CC::P, code: TrapCode::BadConversionToInteger });
        // Check if INT_MIN was the correct result: put the bound into a
        // temporary register, and compare against the src register.
        let mut cc = CC::NB;  // >=
        if src_size == OperandSize::Size64 && dst_size == OperandSize::Size32 {
            cc = CC::NBE;  // >
        }
        let bound: u64 = float_lower_bound(src_size, dst_size);
        sink.emit(Built::Imm { size: src_size, value: bound, dst: tmp_gpr });
        emit_to_xmm(sink, frame, src_size, tmp_xmm, tmp_gpr);
        emit_compare_float(sink, op, src, tmp_xmm);
        // no trap if src >= or > threshold
        sink.emit(Built::TrapIf { cc: cc.invert(), code: TrapCode::IntegerOverflow });
        // If positive, it was a real overflow.
        emit_asm_rr(sink, frame, AsmOp::XorpdA, Reg::Xmm(tmp_xmm), Reg::Xmm(tmp_xmm));
        emit_compare_float(sink, op, tmp_xmm, src);
        // no trap if 0 >= src
        sink.emit(Built::TrapIf { cc: CC::B, code: TrapCode::IntegerOverflow });
    }
    sink.bind_label(done);
}

/// The start of a conversion to an unsigned integer: a jump if the float is at
/// least half of the range, and else what becomes of NaN.
pub open spec fn uint_start(
    frame: FrameLayout,
    src_size: OperandSize,
    dst_size: OperandSize,
    is_saturating: bool,
    src: Xmm,
    dst: Gpr,
    tmp_gpr: Gpr,
    tmp_xmm: Xmm,
) -> Seq<Step> {
    let done = Label::Local(0);
    let large = Label::Local(1);
    let not_nan = Label::Local(2);
    seq![
        Step::GetLabel { label: done },
        // movaps/mov 2**(int_width - 1), %tmp_gpr
        Step::Emit(
            Built::Imm { size: src_size, value: upper_bound(src_size, dst_size), dst: tmp_gpr },
        ),
        // movq/movd %tmp_gpr, %tmp_xmm
        to_xmm(frame, src_size, tmp_xmm, tmp_gpr),
        // cmpss/cmpsd %tmp_xmm, %src
        compare_float(compare_op(src_size), src, tmp_xmm),
        Step::GetLabel { label: large },
        // jnb is_large
    ] + crate::x64::emit_basic::jump_if(CC::NB, large) + (if is_saturating {
        seq![Step::GetLabel { label: not_nan }] + crate::x64::emit_basic::jump_if(CC::NP, not_nan)
            + seq![
            clear(frame, dst_size, dst),
            Step::Emit(Built::JmpKnown { label: done }),
            Step::BindLabel { label: not_nan },
        ]
    } else {
        seq![Step::Emit(Built::TrapIf { cc: CC::P, code: TrapCode::BadConversionToInteger })]
    })
}

fn emit_uint_start(
    sink: &mut Sink,
    frame: &FrameLayout,
    src_size: OperandSize,
    dst_size: OperandSize,
    is_saturating: bool,
    src: Xmm,
    dst: Gpr,
    tmp_gpr: Gpr,
    tmp_xmm: Xmm,
)
    requires
        frame.fits(),
    ensures
        final(sink)@ == old(sink)@ + uint_start(
            *frame,
            src_size,
            dst_size,
            is_saturating,
            src,
            dst,
            tmp_gpr,
            tmp_xmm,
        ),
{
    let done = sink.get_label(0);
    let bound: u64 = float_upper_bound(src_size, dst_size);
    sink.emit(Built::Imm { size: src_size, value: bound, dst: tmp_gpr });
    emit_to_xmm(sink, frame, src_size, tmp_xmm, tmp_gpr);
    emit_compare_float(sink, float_compare_op(src_size), src, tmp_xmm);
    let handle_large = sink.get_label(1);
    one_way_jmp(sink, CC::NB, handle_large);  // jump to handle_large if src >= large_threshold
    if is_saturating {
        // If not NaN jump over this 0-return, otherwise return 0
        let not_nan = sink.get_label(2);
        one_way_jmp(sink, CC::NP, not_nan);
        emit_clear(sink, frame, dst_size, dst);
        sink.emit(Built::JmpKnown { label: done });
        sink.bind_label(not_nan);
    } else {
        // Trap.
        sink.emit(Built::TrapIf { cc: CC::P, code: TrapCode::BadConversionToInteger });
    }
}

/// The conversion of what is below half of the range, as a signed integer. A
/// negative result means that the float was too small.
pub open spec fn uint_small(
    frame: FrameLayout,
    src_size: OperandSize,
    dst_size: OperandSize,
    is_saturating: bool,
    src: Xmm,
    dst: Gpr,
) -> Seq<Step> {
    let done = Label::Local(0);
    seq![
        // cvttss2si/cvttsd2si %src, %dst
        truncation(frame, src_size, dst_size, dst, src),
        // cmp 0, %dst
        compare_imm(dst_size, dst, 0),
        // jnl done
    ] + crate::x64::emit_basic::jump_if(CC::NL, done) + (if is_saturating {
        seq![clear(frame, dst_size, dst), Step::Emit(Built::JmpKnown { label: done })]
    } else {
        seq![Step::Emit(Built::Trap { code: TrapCode::IntegerOverflow })]
    })
}

fn emit_uint_small(
    sink: &mut Sink,
    frame: &FrameLayout,
    src_size: OperandSize,
    dst_size: OperandSize,
    is_saturating: bool,
    src: Xmm,
    dst: Gpr,
)
    requires
        frame.fits(),
    ensures
        final(sink)@ == old(sink)@ + uint_small(
            *frame,
            src_size,
            dst_size,
            is_saturating,
            src,
            dst,
        ),
{
    let done = Label::Local(0);
    // Actual truncation for small inputs: if the result is not positive, then
    // we had an overflow.
    emit_truncation(sink, frame, src_size, dst_size, dst, src);
    emit_compare_imm(sink, dst_size, dst, 0);
    one_way_jmp(sink, CC::NL, done);  // if dst >= 0, jump to done
    if is_saturating {
        // The input was "small" (< 2**(width -1)), so the only way to get an
        // integer overflow is because the input was too small.
        emit_clear(sink, frame, dst_size, dst);
        sink.emit(Built::JmpKnown { label: done });
    } else {
        // Trap.
        sink.emit(Built::Trap { code: TrapCode::IntegerOverflow });
    }
}

/// The conversion of what is at least half of the range: the half is subtracted
/// before the conversion. A negative result means that the float was too large.
pub open spec fn uint_large(
    frame: FrameLayout,
    src_size: OperandSize,
    dst_size: OperandSize,
    is_saturating: bool,
    src: Xmm,
    dst: Gpr,
    tmp_xmm: Xmm,
    tmp_xmm2: Xmm,
) -> Seq<Step> {
    let done = Label::Local(0);
    let large = Label::Local(1);
    let in_range = Label::Local(3);
    seq![
        Step::BindLabel { label: large },
        // mov %src, %tmp_xmm2
        Step::Emit(Built::Move { dst: Reg::Xmm(tmp_xmm2), src: Reg::Xmm(src), ty: Type::F64 }),
        // subss/subsd %tmp_xmm, %tmp_xmm2
        crate::x64::emit_basic::asm_rr(
            frame,
            if src_size is Size32 {
                AsmOp::SubssA
            } else {
                AsmOp::SubsdA
            },
            Reg::Xmm(tmp_xmm2),
            Reg::Xmm(tmp_xmm),
        ),
        truncation(frame, src_size, dst_size, dst, tmp_xmm2),
        compare_imm(dst_size, dst, 0),
    ] + (if is_saturating {
        seq![Step::GetLabel { label: in_range }] + crate::x64::emit_basic::jump_if(CC::NL, in_range)
            + seq![
            Step::Emit(
                Built::Imm {
                    size: OperandSize::Size64,
                    value: if dst_size is Size64 {
                        u64::MAX
                    } else {
                        u32::MAX as u64
                    },
                    dst,
                },
            ),
            Step::Emit(Built::JmpKnown { label: done }),
            Step::BindLabel { label: in_range },
        ]
    } else {
        seq![Step::Emit(Built::TrapIf { cc: CC::L, code: TrapCode::IntegerOverflow })]
    })
}

fn emit_uint_large(
    sink: &mut Sink,
    frame: &FrameLayout,
    src_size: OperandSize,
    dst_size: OperandSize,
    is_saturating: bool,
    src: Xmm,
    dst: Gpr,
    tmp_xmm: Xmm,
    tmp_xmm2: Xmm,
)
    requires
        frame.fits(),
    ensures
        final(sink)@ == old(sink)@ + uint_large(
            *frame,
            src_size,
            dst_size,
            is_saturating,
            src,
            dst,
            tmp_xmm,
            tmp_xmm2,
        ),
{
    let done = Label::Local(0);
    sink.bind_label(Label::Local(1));
    sink.emit(Built::Move { dst: Reg::Xmm(tmp_xmm2), src: Reg::Xmm(src), ty: Type::F64 });
    let sub_op = match src_size {
        OperandSize::Size32 => AsmOp::SubssA,
        _ => AsmOp::SubsdA,
    };
    emit_asm_rr(sink, frame, sub_op, Reg::Xmm(tmp_xmm2), Reg::Xmm(tmp_xmm));
    emit_truncation(sink, frame, src_size, dst_size, dst, tmp_xmm2);
    emit_compare_imm(sink, dst_size, dst, 0);
    if is_saturating {
        let next_is_large = sink.get_label(3);
        one_way_jmp(sink, CC::NL, next_is_large);  // if dst >= 0, jump to next_is_large
        // The input was "large" (>= 2**(width -1)), so the only way to get an
        // integer overflow is because the input was too large.
        let value: u64 = if dst_size == OperandSize::Size64 {
            u64::MAX
        } else {
            u32::MAX as u64
        };
        sink.emit(Built::Imm { size: OperandSize::Size64, value, dst });
        sink.emit(Built::JmpKnown { label: done });
        sink.bind_label(next_is_large);
    } else {
        sink.emit(Built::TrapIf { cc: CC::L, code: TrapCode::IntegerOverflow });
    }
}

/// The end of a conversion to an unsigned integer: the half of the range that
/// was subtracted is added.
pub open spec fn uint_end(
    frame: FrameLayout,
    dst_size: OperandSize,
    dst: Gpr,
    tmp_gpr: Gpr,
) -> Seq<Step> {
    (if dst_size is Size64 {
        seq![
            Step::Emit(
                Built::Imm {
                    size: OperandSize::Size64,
                    value: 0x8000_0000_0000_0000,
                    dst: tmp_gpr,
                },
            ),
            crate::x64::emit_basic::asm_rr(
                frame,
                AsmOp::AddqRm,
                Reg::Gpr(dst),
                Reg::Gpr(tmp_gpr),
            ),
        ]
    } else {
        seq![crate::x64::emit_basic::asm_ri(frame, AsmOp::AddlMi, dst, 0x8000_0000)]
    }) + seq![Step::BindLabel { label: Label::Local(0) }]
}

/// The conversion of a float to an unsigned integer. What is below half of the
/// range is converted as a signed integer, and what is not has the half
/// subtracted before the conversion and added after it. A result that is
/// negative was out of range. Saturating, NaN and what is too small become 0,
/// and what is too large the greatest integer; else they trap.
pub open spec fn cvt_float_to_uint(
    frame: FrameLayout,
    src_size: OperandSize,
    dst_size: OperandSize,
    is_saturating: bool,
    src: Xmm,
    dst: Gpr,
    tmp_gpr: Gpr,
    tmp_xmm: Xmm,
    tmp_xmm2: Xmm,
) -> Seq<Step> {
    uint_start(frame, src_size, dst_size, is_saturating, src, dst, tmp_gpr, tmp_xmm) + uint_small(
        frame,
        src_size,
        dst_size,
        is_saturating,
        src,
        dst,
    ) + uint_large(
        frame,
        src_size,
        dst_size,
        is_saturating,
        src,
        dst,
        tmp_xmm,
        tmp_xmm2,
    ) + uint_end(frame, dst_size, dst, tmp_gpr)
}

/// Emits the conversion of a float to an unsigned integer.
pub fn emit_cvt_float_to_uint(
    sink: &mut Sink,
    frame: &FrameLayout,
    src_size: OperandSize,
    dst_size: OperandSize,
    is_saturating: bool,
    src: Xmm,
    dst: Gpr,
    tmp_gpr: Gpr,
    tmp_xmm: Xmm,
    tmp_xmm2: Xmm,
)
    requires
        cvt_ok(src_size, dst_size),
        tmp_xmm != src,
        frame.fits(),
    ensures
        final(sink)@ == old(sink)@ + cvt_float_to_uint(
            *frame,
            src_size,
            dst_size,
            is_saturating,
            src,
            dst,
            tmp_gpr,
            tmp_xmm,
            tmp_xmm2,
        ),
{
    emit_uint_start(sink, frame, src_size, dst_size, is_saturating, src, dst, tmp_gpr, tmp_xmm);
    emit_uint_small(sink, frame, src_size, dst_size, is_saturating, src, dst);
    // Now handle large inputs.
    emit_uint_large(sink, frame, src_size, dst_size, is_saturating, src, dst, tmp_xmm, tmp_xmm2);
    if dst_size == OperandSize::Size64 {
        sink.emit(
            Built::Imm { size: OperandSize::Size64, value: 0x8000_0000_0000_0000, dst: tmp_gpr },
        );
        emit_asm_rr(sink, frame, AsmOp::AddqRm, Reg::Gpr(dst), Reg::Gpr(tmp_gpr));
    } else {
        emit_asm_ri(sink, frame, AsmOp::AddlMi, dst, 0x8000_0000);
    }
    sink.bind_label(Label::Local(0));
}

} // verus!
