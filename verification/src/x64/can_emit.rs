//! Testing whether an instruction can be emitted, for callers that do not know
//! it beforehand.

use crate::x64::args::{
    pinned_reg, rax, rbp, rbx, rcx, rdx, rsp, Amode, Gpr, OperandSize, RegMem, RegMemImm, Type,
};
use crate::x64::emit_flow::find_unused_gprs;
use crate::x64::inst::{EmitInfo, EmitState, FrameLayout, Inst};
use crate::x64::opcodes::{
    avx_compare, avx_extract, avx_fused, avx_rm_r_imm, avx_rmi_r, avx_shift_imm, avx_store,
    avx_unary, evex_imm, evex_rm_r, evex_unary, sse_compare, sse_rm_r, sse_rm_r_imm, sse_unary,
    AvxOpcode,
};
use vstd::prelude::*;

verus! {

/// Whether the offsets into the frame fit in an instruction.
fn frame_fits(frame: &FrameLayout) -> (b: bool)
    ensures
        b == frame.fits(),
{
    frame.tail_args_size as u64 + frame.setup_area_size as u64 <= 0x7fff_ffff
        && frame.outgoing_args_size <= 0x7fff_ffff
}

/// Whether this is a register that the allocator leaves alone.
fn unallocated(reg: Gpr) -> (b: bool)
    ensures
        b == crate::x64::emit::is_unallocated(reg),
{
    reg == rsp() || reg == rbp() || reg == pinned_reg()
}

/// Whether this is one of the two sizes of floats.
fn is_float_size(size: OperandSize) -> (b: bool)
    ensures
        b == (size is Size32 || size is Size64),
{
    size == OperandSize::Size32 || size == OperandSize::Size64
}

/// Whether this is one of the integer types.
fn is_int(ty: Type) -> (b: bool)
    ensures
        b == ty.is_int(),
{
    ty == Type::I8 || ty == Type::I16 || ty == Type::I32 || ty == Type::I64
}

/// Whether an addition is made of the load of an address whose operands the
/// assembler encodes.
fn lea_is_assembled(addr: Amode, dst: Gpr, size: OperandSize) -> (b: bool)
    ensures
        forall|frame: FrameLayout|
            b == #[trigger] crate::x64::emit_basic::lea(frame, addr, dst, size) is Asm,
{
    match addr {
        Amode::ImmReg { simm32: _, base, flags: _ } => {
            base == dst && size == OperandSize::Size32
        },
        Amode::ImmRegRegShift { simm32, base, index, shift, flags: _ } => {
            simm32 == 0 && shift == 0 && (base == dst || index == dst)
        },
        _ => false,
    }
}

/// Whether a number is a power of two.
fn is_power_of_two(n: u32) -> (b: bool)
    ensures
        b == (exists|k: nat| n as nat == #[trigger] vstd::arithmetic::power2::pow2(k)),
{
    let ghost mut exponent: nat = 0;
    let mut power: u64 = 1;
    proof {
        vstd::arithmetic::power2::lemma2_to64();
    }
    while power < n as u64
        invariant
            power as nat == vstd::arithmetic::power2::pow2(exponent),
            1 <= power <= 0x1_ffff_ffff,
            forall|k: nat| k < exponent ==> #[trigger] vstd::arithmetic::power2::pow2(k) < n,
        decreases 0x2_0000_0000 - power,
    {
        proof {
            vstd::arithmetic::power2::lemma_pow2_unfold(exponent + 1);
            assert forall|k: nat| k < exponent + 1 implies #[trigger]
            vstd::arithmetic::power2::pow2(k) < n by {
                if k == exponent {
                }
            }
            exponent = exponent + 1;
        }
        power = power * 2;
    }
    proof {
        assert forall|k: nat| n as nat == #[trigger] vstd::arithmetic::power2::pow2(k) implies k
            == exponent by {
            if k > exponent {
                vstd::arithmetic::power2::lemma_pow2_strictly_increases(exponent, k);
            }
        }
    }
    power == n as u64
}

/// Whether the sizes are such as a stack probe loop needs.
fn can_probe(frame_size: u32, guard_size: u32) -> (b: bool)
    ensures
        b == crate::x64::emit_flow::probe_ok(frame_size, guard_size),
{
    if guard_size > 0x7fff_ffff || !is_power_of_two(guard_size) {
        return false;
    }
    if guard_size == 0 {
        proof {
            assert forall|k: nat| #[trigger] vstd::arithmetic::power2::pow2(k) != 0 by {
                vstd::arithmetic::power2::lemma_pow2_pos(k);
            }
        }
        return false;
    }
    let sum: u64 = frame_size as u64 + guard_size as u64 - 1;
    let whole: u64 = sum - sum % (guard_size as u64);
    proof {
        let (n, g) = (sum as int, guard_size as int);
        vstd::arithmetic::div_mod::lemma_fundamental_div_mod(n, g);
        vstd::arithmetic::mul::lemma_mul_is_commutative(g, n / g);
    }
    whole <= 0x7fff_ffff
}

/// Whether a tail call finds its frame in order.
fn can_return_call(info: &EmitInfo, frame: &FrameLayout, new_stack_arg_size: u32) -> (b: bool)
    ensures
        b == crate::x64::emit_flow::return_call_ok(
            info.preserve_frame_pointers,
            *frame,
            new_stack_arg_size,
        ),
{
    info.preserve_frame_pointers && new_stack_arg_size <= frame.tail_args_size && (
    new_stack_arg_size == frame.tail_args_size || (frame.tail_args_size - new_stack_arg_size
        <= 0x7fff_ffff && frame_fits(frame)))
}

/// Whether the registers are those of an exchange of 16 bytes.
fn are_cmpxchg16b_regs(
    replacement_low: Gpr,
    replacement_high: Gpr,
    expected_low: Gpr,
    expected_high: Gpr,
    dst_old_low: Gpr,
    dst_old_high: Gpr,
) -> (b: bool)
    ensures
        b == crate::x64::emit_atomic::cmpxchg16b_regs(
            replacement_low,
            replacement_high,
            expected_low,
            expected_high,
            dst_old_low,
            dst_old_high,
        ),
{
    replacement_low == rbx() && replacement_high == rcx() && expected_low == rax()
        && expected_high == rdx() && dst_old_low == rax() && dst_old_high == rdx()
}

/// Whether an operation has an encoding for its second operand.
fn can_rmi_r_vex(op: AvxOpcode, src2: RegMemImm) -> (b: bool)
    ensures
        b == crate::x64::emit_vector::rmi_r_vex_ok(op, src2),
{
    match src2 {
        RegMemImm::Imm { simm32 } => simm32 <= 0xff && avx_shift_imm(op).is_some(),
        _ => avx_rmi_r(op).is_some(),
    }
}

/// Whether a move, an address, a comparison or a remainder can be emitted.
fn can_emit_scalar(inst: &Inst, info: &EmitInfo, state: &EmitState) -> (b: bool)
    ensures
        b == (crate::x64::emit::is_scalar(*inst) ==> crate::x64::emit::emittable(
            *inst,
            *info,
            *state,
        )),
{
    let frame = &state.frame_layout;
    match inst {
        Inst::CheckedSRemSeq { dividend_lo, dividend_hi, dst_quotient, dst_remainder, .. } => {
            *dividend_lo == rax() && *dividend_hi == rdx() && *dst_quotient == rax()
                && *dst_remainder == rdx() && frame_fits(frame)
        },
        Inst::CheckedSRemSeq8 { dividend, dst, .. } => {
            *dividend == rax() && *dst == rax() && frame_fits(frame)
        },
        Inst::MovFromPReg { src, .. } => unallocated(*src),
        Inst::MovToPReg { dst, .. } => unallocated(*dst),
        Inst::LoadEffectiveAddress { addr, dst, size } => {
            is_float_size(*size) && (!lea_is_assembled(*addr, *dst, *size) || frame_fits(frame))
        },
        Inst::Cmove { size, alternative, dst, .. } => {
            *alternative == *dst && *size != OperandSize::Size8
        },
        Inst::XmmCmove { alternative, dst, .. } => *alternative == *dst,
        _ => true,
    }
}

/// Whether a transfer of control can be emitted.
fn can_emit_control(inst: &Inst, info: &EmitInfo, state: &EmitState) -> (b: bool)
    ensures
        b == (crate::x64::emit::is_control(*inst) ==> crate::x64::emit::emittable(
            *inst,
            *info,
            *state,
        )),
{
    let frame = &state.frame_layout;
    match inst {
        Inst::StackProbeLoop { frame_size, guard_size, .. } => {
            info.enable_probestack && can_probe(*frame_size, *guard_size)
        },
        Inst::CallKnown { info: call } => call.callee_pop_size <= 0x7fff_ffff,
        Inst::CallUnknown { info: call } => call.callee_pop_size <= 0x7fff_ffff,
        Inst::ReturnCallKnown { info: call } => {
            can_return_call(info, frame, call.new_stack_arg_size)
        },
        Inst::ReturnCallUnknown { info: call } => {
            can_return_call(info, frame, call.new_stack_arg_size)
        },
        Inst::Ret { stack_bytes_to_pop } => *stack_bytes_to_pop <= 0xffff,
        Inst::StackSwitchBasic {
            store_context_ptr,
            load_context_ptr,
            in_payload0,
            out_payload0,
        } => {
            frame_fits(frame) && find_unused_gprs(
                &info.all_clobbers,
                *load_context_ptr,
                *store_context_ptr,
                *in_payload0,
                *out_payload0,
            ).len() >= 2
        },
        Inst::JmpTableSeq { targets, .. } => {
            frame_fits(frame) && targets.len() <= 0x3fff_ffff
        },
        _ => true,
    }
}

/// Whether an operation on vector registers can be emitted.
fn can_emit_sse(inst: &Inst, info: &EmitInfo, state: &EmitState) -> (b: bool)
    ensures
        b == (crate::x64::emit::is_sse(*inst) ==> crate::x64::emit::emittable(
            *inst,
            *info,
            *state,
        )),
{
    match inst {
        Inst::XmmUnaryRmR { op, .. } => sse_unary(*op).is_some(),
        Inst::XmmUnaryRmREvex { op, .. } => evex_unary(*op).is_some(),
        Inst::XmmUnaryRmRImmEvex { op, .. } => evex_imm(*op).is_some(),
        Inst::XmmRmR { op, src1, dst, .. } => *src1 == *dst && sse_rm_r(*op).is_some(),
        Inst::XmmRmRUnaligned { op, src1, dst, .. } => *src1 == *dst && sse_rm_r(*op).is_some(),
        Inst::XmmRmREvex { op, .. } => evex_rm_r(*op).is_some(),
        Inst::XmmRmREvex3 { op, src1, dst, .. } => *src1 == *dst && evex_rm_r(*op).is_some(),
        Inst::XmmRmRImm { op, src1, dst, .. } => *src1 == *dst && sse_rm_r_imm(*op).is_some(),
        Inst::XmmCmpRmR { op, .. } => sse_compare(*op).is_some(),
        _ => true,
    }
}

/// Whether an operation on vector registers with a separate destination can be
/// emitted.
fn can_emit_vex(inst: &Inst, info: &EmitInfo, state: &EmitState) -> (b: bool)
    ensures
        b == (crate::x64::emit::is_vex(*inst) ==> crate::x64::emit::emittable(
            *inst,
            *info,
            *state,
        )),
{
    match inst {
        Inst::XmmRmRImmVex { op, .. } => avx_rm_r_imm(*op).is_some(),
        Inst::XmmRmRVex3 { op, src1, dst, .. } => *src1 == *dst && avx_fused(*op).is_some(),
        Inst::XmmUnaryRmRVex { op, src, .. } => {
            avx_unary(
                *op,
                match src {
                    RegMem::Reg { .. } => false,
                    RegMem::Mem { .. } => true,
                },
            ).is_some()
        },
        Inst::XmmMovRMVex { op, .. } => avx_store(*op).is_some(),
        Inst::XmmMovRMImmVex { op, .. } => avx_extract(*op).is_some(),
        Inst::XmmToGprImmVex { op, .. } => avx_extract(*op).is_some(),
        Inst::XmmCmpRmRVex { op, .. } => avx_compare(*op).is_some(),
        _ => true,
    }
}

/// Whether a conversion or an atomic operation can be emitted.
fn can_emit_sequence(inst: &Inst, info: &EmitInfo, state: &EmitState) -> (b: bool)
    ensures
        b == (crate::x64::emit::is_sequence(*inst) ==> crate::x64::emit::emittable(
            *inst,
            *info,
            *state,
        )),
{
    let frame = &state.frame_layout;
    match inst {
        Inst::XmmMinMaxSeq { size, rhs, dst, .. } => {
            *rhs == *dst && is_float_size(*size) && frame_fits(frame)
        },
        Inst::CvtUint64ToFloatSeq { dst_size, src, tmp_gpr1, tmp_gpr2, .. } => {
            *src != *tmp_gpr1 && *src != *tmp_gpr2 && is_float_size(*dst_size)
                && frame_fits(frame)
        },
        Inst::CvtFloatToSintSeq { src_size, dst_size, .. } => {
            is_float_size(*src_size) && is_float_size(*dst_size) && frame_fits(frame)
        },
        Inst::CvtFloatToUintSeq { src_size, dst_size, src, tmp_xmm, .. } => {
            is_float_size(*src_size) && is_float_size(*dst_size) && *tmp_xmm != *src
                && frame_fits(frame)
        },
        Inst::LockCmpxchg { ty, expected, dst_old, .. } => {
            is_int(*ty) && *expected == rax() && *dst_old == rax()
        },
        Inst::LockCmpxchg16b {
            replacement_low,
            replacement_high,
            expected_low,
            expected_high,
            dst_old_low,
            dst_old_high,
            ..
        } => are_cmpxchg16b_regs(
            *replacement_low,
            *replacement_high,
            *expected_low,
            *expected_high,
            *dst_old_low,
            *dst_old_high,
        ),
        Inst::LockXadd { operand, dst_old, .. } => *dst_old == *operand,
        Inst::Xchg { operand, dst_old, .. } => *dst_old == *operand,
        Inst::AtomicRmwSeq { ty, dst_old, .. } => {
            is_int(*ty) && *dst_old == rax() && frame_fits(frame)
        },
        Inst::Atomic128RmwSeq { temp_low, temp_high, dst_old_low, dst_old_high, .. } => {
            are_cmpxchg16b_regs(
                *temp_low,
                *temp_high,
                *dst_old_low,
                *dst_old_high,
                *dst_old_low,
                *dst_old_high,
            ) && frame_fits(frame)
        },
        Inst::Atomic128XchgSeq { operand_low, operand_high, dst_old_low, dst_old_high, .. } => {
            are_cmpxchg16b_regs(
                *operand_low,
                *operand_high,
                *dst_old_low,
                *dst_old_high,
                *dst_old_low,
                *dst_old_high,
            )
        },
        _ => true,
    }
}

/// Whether an instruction with little to choose can be emitted.
fn can_emit_fixed(inst: &Inst, info: &EmitInfo, state: &EmitState) -> (b: bool)
    ensures
        b == (crate::x64::emit::is_fixed(*inst) ==> crate::x64::emit::emittable(
            *inst,
            *info,
            *state,
        )),
{
    let frame = &state.frame_layout;
    match inst {
        Inst::LoadExtName { offset, .. } => {
            !info.is_pic || (-0x7fff_ffff <= *offset && *offset <= 0x7fff_ffff)
        },
        Inst::ElfTlsGetAddr { dst, .. } => *dst == rax(),
        Inst::MachOTlsGetAddr { dst, .. } => *dst == rax(),
        Inst::CoffTlsGetAddr { dst, tmp, .. } => *dst == rax() && *tmp == rcx(),
        Inst::External { .. } => frame_fits(frame),
        _ => true,
    }
}

/// Whether an instruction can be emitted: its operands are where the hardware
/// wants them, its numbers fit, and it is one of those that are known.
pub fn can_emit(inst: &Inst, info: &EmitInfo, state: &EmitState) -> (b: bool)
    ensures
        b == crate::x64::emit::emittable(*inst, *info, *state),
{
    match inst {
        Inst::XmmRmiRVex { op, src2, .. } => can_rmi_r_vex(*op, *src2),
        _ => can_emit_scalar(inst, info, state) && can_emit_control(inst, info, state)
            && can_emit_sse(inst, info, state) && can_emit_vex(inst, info, state)
            && can_emit_sequence(inst, info, state) && can_emit_fixed(inst, info, state),
    }
}

} // verus!
