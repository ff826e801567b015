//! Emission: what an instruction puts into the code buffer.

use crate::x64::args::{pinned_reg, rax, rbp, rdx, rsp, Gpr, OperandSize, RegMemImm};
use crate::x64::emit_atomic::{
    emit_atomic128_rmw_seq, emit_atomic128_xchg_seq, emit_atomic_rmw_seq, emit_lock_cmpxchg,
    emit_lock_cmpxchg16b, emit_lock_xadd, emit_xchg,
};
use crate::x64::emit_basic::{
    emit_cmove, emit_cmp_rmi_r, emit_external, emit_imm, emit_lea, emit_mov_imm_m, emit_mov_rm,
    emit_mov_rr, emit_setcc, emit_xmm_cmove, one_way_jmp,
};
use crate::x64::emit_convert::{
    emit_checked_srem, emit_cvt_float_to_sint, emit_cvt_float_to_uint, emit_cvt_uint64_to_float,
    emit_xmm_min_max,
};
use crate::x64::emit_flow::{
    emit_call_known, emit_call_unknown, emit_jmp_cond, emit_jmp_cond_or, emit_jmp_known,
    emit_jmp_table_seq, emit_jmp_unknown, emit_ret, emit_return_call_known,
    emit_return_call_unknown, emit_stack_probe_loop, emit_stack_switch_basic, emit_trap_if,
    emit_trap_if_and, emit_trap_if_or,
};
use crate::x64::emit_misc::{
    emit_coff_tls_get_addr, emit_elf_tls_get_addr, emit_fence, emit_load_ext_name,
    emit_macho_tls_get_addr, emit_nop, emit_ud2,
};
use crate::x64::emit_vector::{
    emit_xmm_cmp_rm_r, emit_xmm_cmp_rm_r_vex, emit_xmm_mov_rm_imm_vex, emit_xmm_mov_rm_vex,
    emit_xmm_rm_r, emit_xmm_rm_r_evex, emit_xmm_rm_r_imm, emit_xmm_rm_r_imm_vex, emit_xmm_rm_r_vex3,
    emit_xmm_rmi_r_vex, emit_xmm_to_gpr_imm_vex, emit_xmm_unary_rm_r, emit_xmm_unary_rm_r_evex,
    emit_xmm_unary_rm_r_imm_evex, emit_xmm_unary_rm_r_vex,
};
use crate::x64::inst::{EmitInfo, EmitState, Inst, InstructionSet};
use crate::x64::sink::{AsmInst, RegisterOrAmode, Sink, Step};
use vstd::prelude::*;

verus! {

broadcast use {crate::x64::sink::lemma_push_added, crate::x64::sink::lemma_nothing_added};

/// The registers that the allocator leaves alone.
pub open spec fn is_unallocated(reg: Gpr) -> bool {
    reg == rsp() || reg == rbp() || reg == pinned_reg()
}

/// Whether an instruction can be emitted: its operands are where the hardware
/// wants them, its numbers fit, and it is one of those that are known.
pub open spec fn emittable(inst: Inst, info: EmitInfo, state: EmitState) -> bool {
    match inst {
        Inst::CheckedSRemSeq { dividend_lo, dividend_hi, dst_quotient, dst_remainder, .. } => {
            &&& dividend_lo == crate::x64::args::rax()
            &&& dividend_hi == crate::x64::args::rdx()
            &&& dst_quotient == crate::x64::args::rax()
            &&& dst_remainder == crate::x64::args::rdx()
            &&& state.frame_layout.fits()
        },
        Inst::CheckedSRemSeq8 { dividend, dst, .. } => {
            &&& dividend == crate::x64::args::rax()
            &&& dst == crate::x64::args::rax()
            &&& state.frame_layout.fits()
        },
        Inst::MovFromPReg { src, .. } => is_unallocated(src),
        Inst::MovToPReg { dst, .. } => is_unallocated(dst),
        Inst::LoadEffectiveAddress { addr, dst, size } => {
            &&& size is Size32 || size is Size64
            &&& crate::x64::emit_basic::lea(
                state.frame_layout,
                addr,
                dst,
                size,
            ) is Asm ==> state.frame_layout.fits()
        },
        Inst::Cmove { size, alternative, dst, .. } => {
            &&& alternative == dst
            &&& size !is Size8
        },
        Inst::XmmCmove { alternative, dst, .. } => alternative == dst,
        Inst::StackProbeLoop { frame_size, guard_size, .. } => {
            &&& info.enable_probestack
            &&& crate::x64::emit_flow::probe_ok(frame_size, guard_size)
        },
        Inst::CallKnown { info: call } => call.callee_pop_size <= i32::MAX,
        Inst::CallUnknown { info: call } => call.callee_pop_size <= i32::MAX,
        Inst::ReturnCallKnown { info: call } => crate::x64::emit_flow::return_call_ok(
            info.preserve_frame_pointers,
            state.frame_layout,
            call.new_stack_arg_size,
        ),
        Inst::ReturnCallUnknown { info: call } => crate::x64::emit_flow::return_call_ok(
            info.preserve_frame_pointers,
            state.frame_layout,
            call.new_stack_arg_size,
        ),
        Inst::Ret { stack_bytes_to_pop } => stack_bytes_to_pop <= u16::MAX,
        Inst::StackSwitchBasic {
            store_context_ptr,
            load_context_ptr,
            in_payload0,
            out_payload0,
        } => {
            &&& state.frame_layout.fits()
            &&& crate::x64::emit_flow::unused_gprs(
                info.all_clobbers@,
                seq![load_context_ptr, store_context_ptr, in_payload0, out_payload0],
            ).len() >= 2
        },
        Inst::JmpTableSeq { targets, .. } => {
            &&& state.frame_layout.fits()
            &&& 4 * targets@.len() <= u32::MAX
        },
        Inst::XmmUnaryRmR { op, .. } => crate::x64::opcodes::sse_unary_code(op) is Some,
        Inst::XmmUnaryRmREvex { op, .. } => crate::x64::opcodes::evex_unary_code(op) is Some,
        Inst::XmmUnaryRmRImmEvex { op, .. } => crate::x64::opcodes::evex_imm_code(op) is Some,
        Inst::XmmRmR { op, src1, dst, .. } => {
            &&& src1 == dst
            &&& crate::x64::opcodes::sse_rm_r_code(op) is Some
        },
        Inst::XmmRmRUnaligned { op, src1, dst, .. } => {
            &&& src1 == dst
            &&& crate::x64::opcodes::sse_rm_r_code(op) is Some
        },
        Inst::XmmRmiRVex { op, src2, .. } => crate::x64::emit_vector::rmi_r_vex_ok(op, src2),
        Inst::XmmRmRImmVex { op, .. } => crate::x64::opcodes::avx_rm_r_imm_code(op) is Some,
        Inst::XmmRmRVex3 { op, src1, dst, .. } => {
            &&& src1 == dst
            &&& crate::x64::opcodes::avx_fused_code(op) is Some
        },
        Inst::XmmUnaryRmRVex { op, src, .. } => {
            crate::x64::opcodes::avx_unary_code(op, src is Mem) is Some
        },
        Inst::XmmMovRMVex { op, .. } => crate::x64::opcodes::avx_store_code(op) is Some,
        Inst::XmmMovRMImmVex { op, .. } => crate::x64::opcodes::avx_extract_code(op) is Some,
        Inst::XmmToGprImmVex { op, .. } => crate::x64::opcodes::avx_extract_code(op) is Some,
        Inst::XmmCmpRmRVex { op, .. } => crate::x64::opcodes::avx_compare_code(op) is Some,
        Inst::XmmRmREvex { op, .. } => crate::x64::opcodes::evex_rm_r_code(op) is Some,
        Inst::XmmRmREvex3 { op, src1, dst, .. } => {
            &&& src1 == dst
            &&& crate::x64::opcodes::evex_rm_r_code(op) is Some
        },
        Inst::XmmMinMaxSeq { size, rhs, dst, .. } => {
            &&& rhs == dst
            &&& size is Size32 || size is Size64
            &&& state.frame_layout.fits()
        },
        Inst::XmmRmRImm { op, src1, dst, .. } => {
            &&& src1 == dst
            &&& crate::x64::opcodes::sse_rm_r_imm_code(op) is Some
        },
        Inst::XmmCmpRmR { op, .. } => crate::x64::opcodes::sse_compare_code(op) is Some,
        Inst::CvtUint64ToFloatSeq { dst_size, src, tmp_gpr1, tmp_gpr2, .. } => {
            &&& src != tmp_gpr1
            &&& src != tmp_gpr2
            &&& dst_size is Size32 || dst_size is Size64
            &&& state.frame_layout.fits()
        },
        Inst::CvtFloatToSintSeq { src_size, dst_size, .. } => {
            &&& crate::x64::emit_convert::cvt_ok(src_size, dst_size)
            &&& state.frame_layout.fits()
        },
        Inst::CvtFloatToUintSeq { src_size, dst_size, src, tmp_xmm, .. } => {
            &&& crate::x64::emit_convert::cvt_ok(src_size, dst_size)
            &&& tmp_xmm != src
            &&& state.frame_layout.fits()
        },
        Inst::LoadExtName { offset, .. } => {
            crate::x64::emit_misc::load_ext_name_ok(info.is_pic, offset)
        },
        Inst::LockCmpxchg { ty, expected, dst_old, .. } => {
            &&& ty.is_int()
            &&& expected == crate::x64::args::rax()
            &&& dst_old == crate::x64::args::rax()
        },
        Inst::LockCmpxchg16b {
            replacement_low,
            replacement_high,
            expected_low,
            expected_high,
            dst_old_low,
            dst_old_high,
            ..
        } => crate::x64::emit_atomic::cmpxchg16b_regs(
            replacement_low,
            replacement_high,
            expected_low,
            expected_high,
            dst_old_low,
            dst_old_high,
        ),
        Inst::LockXadd { operand, dst_old, .. } => dst_old == operand,
        Inst::Xchg { operand, dst_old, .. } => dst_old == operand,
        Inst::AtomicRmwSeq { ty, dst_old, .. } => {
            &&& ty.is_int()
            &&& dst_old == crate::x64::args::rax()
            &&& state.frame_layout.fits()
        },
        Inst::Atomic128RmwSeq { temp_low, temp_high, dst_old_low, dst_old_high, .. } => {
            &&& crate::x64::emit_atomic::cmpxchg16b_regs(
                temp_low,
                temp_high,
                dst_old_low,
                dst_old_high,
                dst_old_low,
                dst_old_high,
            )
            &&& state.frame_layout.fits()
        },
        Inst::Atomic128XchgSeq { operand_low, operand_high, dst_old_low, dst_old_high, .. } => {
            crate::x64::emit_atomic::cmpxchg16b_regs(
                operand_low,
                operand_high,
                dst_old_low,
                dst_old_high,
                dst_old_low,
                dst_old_high,
            )
        },
        Inst::ElfTlsGetAddr { dst, .. } => dst == crate::x64::args::rax(),
        Inst::MachOTlsGetAddr { dst, .. } => dst == crate::x64::args::rax(),
        Inst::CoffTlsGetAddr { dst, tmp, .. } => {
            &&& dst == crate::x64::args::rax()
            &&& tmp == crate::x64::args::rcx()
        },
        Inst::External { .. } => state.frame_layout.fits(),
        _ => true,
    }
}

/// What an instruction puts into the code buffer.
pub open spec fn listing(inst: Inst, info: EmitInfo, state: EmitState) -> Seq<Step> {
    match inst {
        Inst::CheckedSRemSeq { size, divisor, .. } => crate::x64::emit_convert::checked_srem(
            state.frame_layout,
            size,
            divisor,
            crate::x64::args::rdx(),
        ),
        Inst::CheckedSRemSeq8 { divisor, .. } => crate::x64::emit_convert::checked_srem(
            state.frame_layout,
            OperandSize::Size8,
            divisor,
            crate::x64::args::rax(),
        ),
        Inst::Imm { dst_size, simm64, dst } => crate::x64::emit_basic::imm(dst_size, simm64, dst),
        Inst::MovImmM { size, simm32, dst } => crate::x64::emit_basic::mov_imm_m(size, simm32, dst),
        Inst::MovRR { size, src, dst } => seq![crate::x64::emit_basic::mov_rr(size, src, dst)],
        Inst::MovFromPReg { src, dst } => {
            seq![crate::x64::emit_basic::mov_rr(OperandSize::Size64, src, dst)]
        },
        Inst::MovToPReg { src, dst } => {
            seq![crate::x64::emit_basic::mov_rr(OperandSize::Size64, src, dst)]
        },
        Inst::LoadEffectiveAddress { addr, dst, size } => {
            seq![crate::x64::emit_basic::lea(state.frame_layout, addr, dst, size)]
        },
        Inst::MovRM { size, src, dst } => seq![crate::x64::emit_basic::mov_rm(size, src, dst)],
        Inst::CmpRmiR { size, src1, src2, opcode } => {
            crate::x64::emit_basic::cmp_rmi_r(size, src1, src2, opcode)
        },
        Inst::Setcc { cc, dst } => seq![crate::x64::emit_basic::setcc(cc, dst)],
        Inst::Cmove { size, cc, consequent, dst, .. } => {
            seq![crate::x64::emit_basic::cmove(size, cc, consequent, dst)]
        },
        Inst::XmmCmove { ty, cc, consequent, dst, .. } => {
            crate::x64::emit_basic::xmm_cmove(ty, cc, consequent, dst)
        },
        Inst::StackProbeLoop { tmp, frame_size, guard_size } => {
            crate::x64::emit_flow::stack_probe_loop(tmp, frame_size, guard_size)
        },
        Inst::CallKnown { info: call } => crate::x64::emit_flow::call_known(state, call),
        Inst::CallUnknown { info: call } => crate::x64::emit_flow::call_unknown(state, call),
        Inst::ReturnCallKnown { info: call } => {
            crate::x64::emit_flow::return_call_known(state.frame_layout, call)
        },
        Inst::ReturnCallUnknown { info: call } => {
            crate::x64::emit_flow::return_call_unknown(state.frame_layout, call)
        },
        Inst::Args => seq![],
        Inst::Rets => seq![],
        Inst::Ret { stack_bytes_to_pop } => crate::x64::emit_flow::ret(stack_bytes_to_pop),
        Inst::StackSwitchBasic {
            store_context_ptr,
            load_context_ptr,
            in_payload0,
            out_payload0,
        } => {
            crate::x64::emit_flow::stack_switch_basic(
                info.all_clobbers@,
                info.control_context_layout,
                state.frame_layout,
                store_context_ptr,
                load_context_ptr,
                in_payload0,
                out_payload0,
            )
        },
        Inst::JmpKnown { dst } => crate::x64::emit_flow::jmp_known(dst),
        Inst::WinchJmpIf { cc, taken } => crate::x64::emit_basic::jump_if(cc, taken),
        Inst::JmpCond { cc, taken, not_taken } => {
            crate::x64::emit_flow::jmp_cond(cc, taken, not_taken)
        },
        Inst::JmpCondOr { cc1, cc2, taken, not_taken } => {
            crate::x64::emit_flow::jmp_cond_or(cc1, cc2, taken, not_taken)
        },
        Inst::JmpUnknown { target } => seq![crate::x64::emit_flow::indirect(4, target)],
        Inst::JmpTableSeq { idx, tmp1, tmp2, targets, default_target } => {
            crate::x64::emit_flow::jmp_table_seq(
                state.frame_layout,
                idx,
                tmp1,
                tmp2,
                targets@,
                default_target,
            )
        },
        Inst::TrapIf { cc, trap_code } => crate::x64::emit_flow::trap_if(cc, trap_code),
        Inst::TrapIfAnd { cc1, cc2, trap_code } => {
            crate::x64::emit_flow::trap_if_and(cc1, cc2, trap_code)
        },
        Inst::TrapIfOr { cc1, cc2, trap_code } => {
            crate::x64::emit_flow::trap_if_or(cc1, cc2, trap_code)
        },
        Inst::XmmUnaryRmR { op, src, dst } => {
            seq![crate::x64::emit_vector::xmm_unary_rm_r(op, src, dst)]
        },
        Inst::XmmUnaryRmREvex { op, src, dst } => {
            seq![crate::x64::emit_vector::xmm_unary_rm_r_evex(op, src, dst)]
        },
        Inst::XmmUnaryRmRImmEvex { op, src, dst, imm } => {
            seq![crate::x64::emit_vector::xmm_unary_rm_r_imm_evex(op, src, dst, imm)]
        },
        Inst::XmmRmR { op, src2, dst, .. } => {
            seq![crate::x64::emit_vector::xmm_rm_r(op, src2, dst)]
        },
        Inst::XmmRmRUnaligned { op, src2, dst, .. } => {
            seq![crate::x64::emit_vector::xmm_rm_r(op, src2, dst)]
        },
        Inst::XmmRmiRVex { op, commutative, src1, src2, dst } => {
            seq![crate::x64::emit_vector::xmm_rmi_r_vex(op, commutative, src1, src2, dst)]
        },
        Inst::XmmRmRImmVex { op, src1, src2, dst, imm } => {
            seq![crate::x64::emit_vector::xmm_rm_r_imm_vex(op, src1, src2, dst, imm)]
        },
        Inst::XmmRmRVex3 { op, src2, src3, dst, .. } => {
            seq![crate::x64::emit_vector::xmm_rm_r_vex3(op, src2, src3, dst)]
        },
        Inst::XmmUnaryRmRVex { op, src, dst } => {
            seq![crate::x64::emit_vector::xmm_unary_rm_r_vex(op, src, dst)]
        },
        Inst::XmmMovRMVex { op, src, dst } => {
            seq![crate::x64::emit_vector::xmm_mov_rm_vex(op, src, dst)]
        },
        Inst::XmmMovRMImmVex { op, src, dst, imm } => {
            seq![crate::x64::emit_vector::extract(op, src, RegisterOrAmode::Amode(dst), imm)]
        },
        Inst::XmmToGprImmVex { op, src, dst, imm } => {
            seq![crate::x64::emit_vector::extract(op, src, RegisterOrAmode::Register(dst.enc), imm)]
        },
        Inst::XmmCmpRmRVex { op, src1, src2 } => {
            seq![crate::x64::emit_vector::xmm_cmp_rm_r_vex(op, src1, src2)]
        },
        Inst::XmmRmREvex { op, src1, src2, dst } => {
            seq![crate::x64::emit_vector::xmm_rm_r_evex(op, src1, src2, dst)]
        },
        Inst::XmmRmREvex3 { op, src2, src3, dst, .. } => {
            seq![crate::x64::emit_vector::xmm_rm_r_evex(op, src2, src3, dst)]
        },
        Inst::XmmMinMaxSeq { size, is_min, lhs, dst, .. } => {
            crate::x64::emit_convert::xmm_min_max(state.frame_layout, size, is_min, lhs, dst)
        },
        Inst::XmmRmRImm { op, src2, dst, imm, size, .. } => {
            crate::x64::emit_vector::xmm_rm_r_imm(op, src2, dst, imm, size)
        },
        Inst::XmmUninitializedValue => seq![],
        Inst::GprUninitializedValue => seq![],
        Inst::XmmCmpRmR { op, src1, src2 } => {
            seq![crate::x64::emit_vector::xmm_cmp_rm_r(op, src1, src2)]
        },
        Inst::CvtUint64ToFloatSeq { dst_size, src, dst, tmp_gpr1, tmp_gpr2 } => {
            crate::x64::emit_convert::cvt_uint64_to_float(
                state.frame_layout,
                dst_size,
                src,
                dst,
                tmp_gpr1,
                tmp_gpr2,
            )
        },
        Inst::CvtFloatToSintSeq {
            src_size,
            dst_size,
            is_saturating,
            src,
            dst,
            tmp_gpr,
            tmp_xmm,
        } => {
            crate::x64::emit_convert::cvt_float_to_sint(
                state.frame_layout,
                src_size,
                dst_size,
                is_saturating,
                src,
                dst,
                tmp_gpr,
                tmp_xmm,
            )
        },
        Inst::CvtFloatToUintSeq {
            src_size,
            dst_size,
            is_saturating,
            src,
            dst,
            tmp_gpr,
            tmp_xmm,
            tmp_xmm2,
        } => crate::x64::emit_convert::cvt_float_to_uint(
            state.frame_layout,
            src_size,
            dst_size,
            is_saturating,
            src,
            dst,
            tmp_gpr,
            tmp_xmm,
            tmp_xmm2,
        ),
        Inst::LoadExtName { dst, name, offset, distance } => {
            crate::x64::emit_misc::load_ext_name(info.is_pic, dst, name, offset, distance)
        },
        Inst::LockCmpxchg { ty, replacement, mem, .. } => {
            seq![crate::x64::emit_atomic::lock_cmpxchg(ty, replacement, mem)]
        },
        Inst::LockCmpxchg16b { mem, .. } => seq![crate::x64::emit_atomic::lock_cmpxchg16b(mem)],
        Inst::LockXadd { size, operand, mem, .. } => {
            seq![crate::x64::emit_atomic::lock_xadd(size, operand, mem)]
        },
        Inst::Xchg { size, operand, mem, .. } => {
            seq![crate::x64::emit_atomic::xchg(size, operand, mem)]
        },
        Inst::AtomicRmwSeq { ty, op, mem, operand, temp, dst_old } => {
            crate::x64::emit_atomic::atomic_rmw_seq(
                state.frame_layout,
                ty,
                op,
                mem,
                operand,
                temp,
                dst_old,
            )
        },
        Inst::Atomic128RmwSeq {
            op,
            mem,
            operand_low,
            operand_high,
            temp_low,
            temp_high,
            dst_old_low,
            dst_old_high,
        } => crate::x64::emit_atomic::atomic128_rmw_seq(
            state.frame_layout,
            op,
            mem,
            (operand_low, operand_high),
            (temp_low, temp_high),
            (dst_old_low, dst_old_high),
        ),
        Inst::Atomic128XchgSeq { mem, dst_old_low, dst_old_high, .. } => {
            crate::x64::emit_atomic::atomic128_xchg_seq(mem, (dst_old_low, dst_old_high))
        },
        Inst::Fence { kind } => crate::x64::emit_misc::fence(kind),
        Inst::Hlt => seq![Step::Put1(0xcc)],
        Inst::Ud2 { trap_code } => crate::x64::emit_misc::ud2(trap_code),
        Inst::Nop { len } => crate::x64::emit_misc::nops(len),
        Inst::ElfTlsGetAddr { symbol, .. } => crate::x64::emit_misc::elf_tls_get_addr(symbol),
        Inst::MachOTlsGetAddr { symbol, .. } => crate::x64::emit_misc::macho_tls_get_addr(symbol),
        Inst::CoffTlsGetAddr { symbol, .. } => crate::x64::emit_misc::coff_tls_get_addr(symbol),
        Inst::Unwind { inst: unwind } => seq![Step::AddUnwind { info: unwind }],
        Inst::DummyUse => seq![],
        Inst::External { inst: number } => {
            seq![Step::Asm { inst: AsmInst::Given(number), offsets: state.frame_layout.offsets() }]
        },
    }
}

/// The steps of an instruction were added to those before.
pub open spec fn emitted(
    before: Seq<Step>,
    after: Seq<Step>,
    inst: Inst,
    info: EmitInfo,
    state: EmitState,
) -> bool {
    after == before + listing(inst, info, state)
}

/// The state after an instruction. The stack map is forgotten, except by a shift
/// of a vector register by an immediate.
pub open spec fn state_after(inst: Inst, state: EmitState) -> EmitState {
    match inst {
        Inst::XmmRmiRVex { src2, .. } if src2 is Imm => state,
        _ => state.cleared(),
    }
}

/// Moves, addresses, comparisons and remainders.
pub open spec fn is_scalar(inst: Inst) -> bool {
    match inst {
        Inst::CheckedSRemSeq { .. }
        | Inst::CheckedSRemSeq8 { .. }
        | Inst::Imm { .. }
        | Inst::MovImmM { .. }
        | Inst::MovRR { .. }
        | Inst::MovFromPReg { .. }
        | Inst::MovToPReg { .. }
        | Inst::LoadEffectiveAddress { .. }
        | Inst::MovRM { .. }
        | Inst::CmpRmiR { .. }
        | Inst::Setcc { .. }
        | Inst::Cmove { .. }
        | Inst::XmmCmove { .. } => true,
        _ => false,
    }
}

/// Jumps, calls, traps and changes of the stack.
pub open spec fn is_control(inst: Inst) -> bool {
    match inst {
        Inst::StackProbeLoop { .. }
        | Inst::CallKnown { .. }
        | Inst::CallUnknown { .. }
        | Inst::ReturnCallKnown { .. }
        | Inst::ReturnCallUnknown { .. }
        | Inst::Ret { .. }
        | Inst::StackSwitchBasic { .. }
        | Inst::JmpKnown { .. }
        | Inst::WinchJmpIf { .. }
        | Inst::JmpCond { .. }
        | Inst::JmpCondOr { .. }
        | Inst::JmpUnknown { .. }
        | Inst::JmpTableSeq { .. }
        | Inst::TrapIf { .. }
        | Inst::TrapIfAnd { .. }
        | Inst::TrapIfOr { .. } => true,
        _ => false,
    }
}

/// Vector instructions whose first operand is the destination, and those with the longest prefix.
pub open spec fn is_sse(inst: Inst) -> bool {
    match inst {
        Inst::XmmUnaryRmR { .. }
        | Inst::XmmUnaryRmREvex { .. }
        | Inst::XmmUnaryRmRImmEvex { .. }
        | Inst::XmmRmR { .. }
        | Inst::XmmRmRUnaligned { .. }
        | Inst::XmmRmREvex { .. }
        | Inst::XmmRmREvex3 { .. }
        | Inst::XmmRmRImm { .. }
        | Inst::XmmCmpRmR { .. } => true,
        _ => false,
    }
}

/// Vector instructions with a separate destination.
pub open spec fn is_vex(inst: Inst) -> bool {
    match inst {
        Inst::XmmRmRImmVex { .. }
        | Inst::XmmRmRVex3 { .. }
        | Inst::XmmUnaryRmRVex { .. }
        | Inst::XmmMovRMVex { .. }
        | Inst::XmmMovRMImmVex { .. }
        | Inst::XmmToGprImmVex { .. }
        | Inst::XmmCmpRmRVex { .. } => true,
        _ => false,
    }
}

/// Conversions and atomic operations.
pub open spec fn is_sequence(inst: Inst) -> bool {
    match inst {
        Inst::XmmMinMaxSeq { .. }
        | Inst::CvtUint64ToFloatSeq { .. }
        | Inst::CvtFloatToSintSeq { .. }
        | Inst::CvtFloatToUintSeq { .. }
        | Inst::LockCmpxchg { .. }
        | Inst::LockCmpxchg16b { .. }
        | Inst::LockXadd { .. }
        | Inst::Xchg { .. }
        | Inst::AtomicRmwSeq { .. }
        | Inst::Atomic128RmwSeq { .. }
        | Inst::Atomic128XchgSeq { .. } => true,
        _ => false,
    }
}

/// Fixed bytes, and instructions that are handed on.
pub open spec fn is_fixed(inst: Inst) -> bool {
    match inst {
        Inst::LoadExtName { .. }
        | Inst::Fence { .. }
        | Inst::Hlt
        | Inst::Ud2 { .. }
        | Inst::Nop { .. }
        | Inst::ElfTlsGetAddr { .. }
        | Inst::MachOTlsGetAddr { .. }
        | Inst::CoffTlsGetAddr { .. }
        | Inst::Unwind { .. }
        | Inst::External { .. } => true,
        _ => false,
    }
}

/// Emits a move, an address, a comparison or a remainder.
fn emit_scalar(inst: &Inst, sink: &mut Sink, info: &EmitInfo, state: &mut EmitState)
    requires
        is_scalar(*inst),
        emittable(*inst, *info, *old(state)),
    ensures
        emitted(old(sink)@, final(sink)@, *inst, *info, *old(state)),
        final(state).cleared() == old(state).cleared(),
{
    match inst {
        Inst::CheckedSRemSeq { size, divisor, .. } => {
            emit_checked_srem(sink, &state.frame_layout, *size, *divisor, rdx());
        },
        Inst::CheckedSRemSeq8 { divisor, .. } => {
            emit_checked_srem(sink, &state.frame_layout, OperandSize::Size8, *divisor, rax());
        },
        Inst::Imm { dst_size, simm64, dst } => {
            emit_imm(sink, *dst_size, *simm64, *dst);
        },
        Inst::MovImmM { size, simm32, dst } => {
            emit_mov_imm_m(sink, *size, *simm32, *dst);
        },
        Inst::MovRR { size, src, dst } => {
            emit_mov_rr(sink, *size, *src, *dst);
        },
        Inst::MovFromPReg { src, dst } => {
            emit_mov_rr(sink, OperandSize::Size64, *src, *dst);
        },
        Inst::MovToPReg { src, dst } => {
            emit_mov_rr(sink, OperandSize::Size64, *src, *dst);
        },
        Inst::LoadEffectiveAddress { addr, dst, size } => {
            emit_lea(sink, &state.frame_layout, *addr, *dst, *size);
        },
        Inst::MovRM { size, src, dst } => {
            emit_mov_rm(sink, *size, *src, *dst);
        },
        Inst::CmpRmiR { size, src1, src2, opcode } => {
            emit_cmp_rmi_r(sink, *size, *src1, *src2, *opcode);
        },
        Inst::Setcc { cc, dst } => {
            emit_setcc(sink, *cc, *dst);
        },
        Inst::Cmove { size, cc, consequent, alternative, dst } => {
            emit_cmove(sink, *size, *cc, *consequent, *alternative, *dst);
        },
        Inst::XmmCmove { ty, cc, consequent, alternative, dst } => {
            emit_xmm_cmove(sink, *ty, *cc, *consequent, *alternative, *dst);
        },
        _ => vstd::pervasive::unreached(),
    }
}

/// Emits a jump, a call, a trap or a change of the stack.
fn emit_control(inst: &Inst, sink: &mut Sink, info: &EmitInfo, state: &mut EmitState)
    requires
        is_control(*inst),
        emittable(*inst, *info, *old(state)),
    ensures
        emitted(old(sink)@, final(sink)@, *inst, *info, *old(state)),
        final(state).cleared() == old(state).cleared(),
{
    match inst {
        Inst::StackProbeLoop { tmp, frame_size, guard_size } => {
            emit_stack_probe_loop(sink, *tmp, *frame_size, *guard_size);
        },
        Inst::CallKnown { info: call } => {
            emit_call_known(sink, state, call);
        },
        Inst::CallUnknown { info: call } => {
            emit_call_unknown(sink, state, call);
        },
        Inst::ReturnCallKnown { info: call } => {
            emit_return_call_known(sink, info, &state.frame_layout, call);
        },
        Inst::ReturnCallUnknown { info: call } => {
            emit_return_call_unknown(sink, info, &state.frame_layout, call);
        },
        Inst::Ret { stack_bytes_to_pop } => {
            emit_ret(sink, *stack_bytes_to_pop);
        },
        Inst::StackSwitchBasic {
            store_context_ptr,
            load_context_ptr,
            in_payload0,
            out_payload0,
        } => {
            emit_stack_switch_basic(
                sink,
                info,
                &state.frame_layout,
                *store_context_ptr,
                *load_context_ptr,
                *in_payload0,
                *out_payload0,
            );
        },
        Inst::JmpKnown { dst } => {
            emit_jmp_known(sink, *dst);
        },
        Inst::WinchJmpIf { cc, taken } => {
            one_way_jmp(sink, *cc, *taken);
        },
        Inst::JmpCond { cc, taken, not_taken } => {
            emit_jmp_cond(sink, *cc, *taken, *not_taken);
        },
        Inst::JmpCondOr { cc1, cc2, taken, not_taken } => {
            emit_jmp_cond_or(sink, *cc1, *cc2, *taken, *not_taken);
        },
        Inst::JmpUnknown { target } => {
            emit_jmp_unknown(sink, *target);
        },
        Inst::JmpTableSeq { idx, tmp1, tmp2, targets, default_target } => {
            emit_jmp_table_seq(
                sink,
                &state.frame_layout,
                *idx,
                *tmp1,
                *tmp2,
                targets,
                *default_target,
            );
        },
        Inst::TrapIf { cc, trap_code } => {
            emit_trap_if(sink, *cc, *trap_code);
        },
        Inst::TrapIfAnd { cc1, cc2, trap_code } => {
            emit_trap_if_and(sink, *cc1, *cc2, *trap_code);
        },
        Inst::TrapIfOr { cc1, cc2, trap_code } => {
            emit_trap_if_or(sink, *cc1, *cc2, *trap_code);
        },
        _ => vstd::pervasive::unreached(),
    }
}

/// Emits a vector instruction whose first operand is the destination, or one
/// with the longest prefix.
fn emit_sse(inst: &Inst, sink: &mut Sink, info: &EmitInfo, state: &mut EmitState)
    requires
        is_sse(*inst),
        emittable(*inst, *info, *old(state)),
    ensures
        emitted(old(sink)@, final(sink)@, *inst, *info, *old(state)),
        final(state).cleared() == old(state).cleared(),
{
    match inst {
        Inst::XmmUnaryRmR { op, src, dst } => {
            emit_xmm_unary_rm_r(sink, *op, *src, *dst);
        },
        Inst::XmmUnaryRmREvex { op, src, dst } => {
            emit_xmm_unary_rm_r_evex(sink, *op, *src, *dst);
        },
        Inst::XmmUnaryRmRImmEvex { op, src, dst, imm } => {
            emit_xmm_unary_rm_r_imm_evex(sink, *op, *src, *dst, *imm);
        },
        Inst::XmmRmR { op, src1, src2, dst } => {
            emit_xmm_rm_r(sink, *op, *src1, *src2, *dst);
        },
        Inst::XmmRmRUnaligned { op, src1, src2, dst } => {
            emit_xmm_rm_r(sink, *op, *src1, *src2, *dst);
        },
        Inst::XmmRmREvex { op, src1, src2, dst } => {
            emit_xmm_rm_r_evex(sink, *op, *src1, *src2, *dst);
        },
        Inst::XmmRmREvex3 { op, src2, src3, dst, .. } => {
            emit_xmm_rm_r_evex(sink, *op, *src2, *src3, *dst);
        },
        Inst::XmmRmRImm { op, src1, src2, dst, imm, size } => {
            emit_xmm_rm_r_imm(sink, *op, *src1, *src2, *dst, *imm, *size);
        },
        Inst::XmmCmpRmR { op, src1, src2 } => {
            emit_xmm_cmp_rm_r(sink, *op, *src1, *src2);
        },
        _ => vstd::pervasive::unreached(),
    }
}

/// Emits a vector instruction with a separate destination.
fn emit_vex(inst: &Inst, sink: &mut Sink, info: &EmitInfo, state: &mut EmitState)
    requires
        is_vex(*inst),
        emittable(*inst, *info, *old(state)),
    ensures
        emitted(old(sink)@, final(sink)@, *inst, *info, *old(state)),
        final(state).cleared() == old(state).cleared(),
{
    match inst {
        Inst::XmmRmRImmVex { op, src1, src2, dst, imm } => {
            emit_xmm_rm_r_imm_vex(sink, *op, *src1, *src2, *dst, *imm);
        },
        Inst::XmmRmRVex3 { op, src1, src2, src3, dst } => {
            emit_xmm_rm_r_vex3(sink, *op, *src1, *src2, *src3, *dst);
        },
        Inst::XmmUnaryRmRVex { op, src, dst } => {
            emit_xmm_unary_rm_r_vex(sink, *op, *src, *dst);
        },
        Inst::XmmMovRMVex { op, src, dst } => {
            emit_xmm_mov_rm_vex(sink, *op, *src, *dst);
        },
        Inst::XmmMovRMImmVex { op, src, dst, imm } => {
            emit_xmm_mov_rm_imm_vex(sink, *op, *src, *dst, *imm);
        },
        Inst::XmmToGprImmVex { op, src, dst, imm } => {
            emit_xmm_to_gpr_imm_vex(sink, *op, *src, *dst, *imm);
        },
        Inst::XmmCmpRmRVex { op, src1, src2 } => {
            emit_xmm_cmp_rm_r_vex(sink, *op, *src1, *src2);
        },
        _ => vstd::pervasive::unreached(),
    }
}

/// Emits a conversion or an atomic operation.
fn emit_sequence(inst: &Inst, sink: &mut Sink, info: &EmitInfo, state: &mut EmitState)
    requires
        is_sequence(*inst),
        emittable(*inst, *info, *old(state)),
    ensures
        emitted(old(sink)@, final(sink)@, *inst, *info, *old(state)),
        final(state).cleared() == old(state).cleared(),
{
    match inst {
        Inst::XmmMinMaxSeq { size, is_min, lhs, rhs, dst } => {
            emit_xmm_min_max(sink, &state.frame_layout, *size, *is_min, *lhs, *rhs, *dst);
        },
        Inst::CvtUint64ToFloatSeq { dst_size, src, dst, tmp_gpr1, tmp_gpr2 } => {
            emit_cvt_uint64_to_float(
                sink,
                &state.frame_layout,
                *dst_size,
                *src,
                *dst,
                *tmp_gpr1,
                *tmp_gpr2,
            );
        },
        Inst::CvtFloatToSintSeq {
            src_size,
            dst_size,
            is_saturating,
            src,
            dst,
            tmp_gpr,
            tmp_xmm,
        } => {
            emit_cvt_float_to_sint(
                sink,
                &state.frame_layout,
                *src_size,
                *dst_size,
                *is_saturating,
                *src,
                *dst,
                *tmp_gpr,
                *tmp_xmm,
            );
        },
        Inst::CvtFloatToUintSeq {
            src_size,
            dst_size,
            is_saturating,
            src,
            dst,
            tmp_gpr,
            tmp_xmm,
            tmp_xmm2,
        } => {
            emit_cvt_float_to_uint(
                sink,
                &state.frame_layout,
                *src_size,
                *dst_size,
                *is_saturating,
                *src,
                *dst,
                *tmp_gpr,
                *tmp_xmm,
                *tmp_xmm2,
            );
        },
        Inst::LockCmpxchg { ty, replacement, expected, mem, dst_old } => {
            emit_lock_cmpxchg(sink, *ty, *replacement, *expected, *mem, *dst_old);
        },
        Inst::LockCmpxchg16b {
            replacement_low,
            replacement_high,
            expected_low,
            expected_high,
            mem,
            dst_old_low,
            dst_old_high,
        } => {
            emit_lock_cmpxchg16b(
                sink,
                *replacement_low,
                *replacement_high,
                *expected_low,
                *expected_high,
                *mem,
                *dst_old_low,
                *dst_old_high,
            );
        },
        Inst::LockXadd { size, operand, mem, dst_old } => {
            emit_lock_xadd(sink, *size, *operand, *mem, *dst_old);
        },
        Inst::Xchg { size, operand, mem, dst_old } => {
            emit_xchg(sink, *size, *operand, *mem, *dst_old);
        },
        Inst::AtomicRmwSeq { ty, op, mem, operand, temp, dst_old } => {
            emit_atomic_rmw_seq(
                sink,
                &state.frame_layout,
                *ty,
                *op,
                *mem,
                *operand,
                *temp,
                *dst_old,
            );
        },
        Inst::Atomic128RmwSeq {
            op,
            mem,
            operand_low,
            operand_high,
            temp_low,
            temp_high,
            dst_old_low,
            dst_old_high,
        } => {
            emit_atomic128_rmw_seq(
                sink,
                &state.frame_layout,
                *op,
                *mem,
                (*operand_low, *operand_high),
                (*temp_low, *temp_high),
                (*dst_old_low, *dst_old_high),
            );
        },
        Inst::Atomic128XchgSeq { mem, operand_low, operand_high, dst_old_low, dst_old_high } => {
            emit_atomic128_xchg_seq(
                sink,
                *mem,
                (*operand_low, *operand_high),
                (*dst_old_low, *dst_old_high),
            );
        },
        _ => vstd::pervasive::unreached(),
    }
}

/// Emits fixed bytes, or an instruction that is handed on.
fn emit_fixed(inst: &Inst, sink: &mut Sink, info: &EmitInfo, state: &mut EmitState)
    requires
        is_fixed(*inst),
        emittable(*inst, *info, *old(state)),
    ensures
        emitted(old(sink)@, final(sink)@, *inst, *info, *old(state)),
        final(state).cleared() == old(state).cleared(),
{
    match inst {
        Inst::LoadExtName { dst, name, offset, distance } => {
            emit_load_ext_name(sink, info.is_pic, *dst, *name, *offset, *distance);
        },
        Inst::Fence { kind } => {
            emit_fence(sink, *kind);
        },
        Inst::Hlt => {
            sink.put1(0xcc);
        },
        Inst::Ud2 { trap_code } => {
            emit_ud2(sink, *trap_code);
        },
        Inst::Nop { len } => {
            emit_nop(sink, *len);
        },
        Inst::ElfTlsGetAddr { symbol, dst } => {
            emit_elf_tls_get_addr(sink, *symbol, *dst);
        },
        Inst::MachOTlsGetAddr { symbol, dst } => {
            emit_macho_tls_get_addr(sink, *symbol, *dst);
        },
        Inst::CoffTlsGetAddr { symbol, dst, tmp } => {
            emit_coff_tls_get_addr(sink, *symbol, *dst, *tmp);
        },
        Inst::Unwind { inst: unwind } => {
            sink.push(Step::AddUnwind { info: *unwind });
        },
        Inst::External { inst: number } => {
            emit_external(sink, &state.frame_layout, AsmInst::Given(*number));
        },
        _ => vstd::pervasive::unreached(),
    }
}

/// Emits an instruction.
///
/// `isa_requirements` are the instruction sets in which it may be present; the
/// target has to have one of them.
pub fn emit(
    inst: &Inst,
    isa_requirements: &Vec<InstructionSet>,
    sink: &mut Sink,
    info: &EmitInfo,
    state: &mut EmitState,
)
    requires
        crate::x64::inst::has_one_of(info.isa_flags, isa_requirements@),
        emittable(*inst, *info, *old(state)),
    ensures
        emitted(old(sink)@, final(sink)@, *inst, *info, *old(state)),
        *final(state) == state_after(*inst, *old(state)),
{
    match inst {
        // These only concern the allocation of registers; no code is emitted.
        Inst::Args
        | Inst::Rets
        | Inst::XmmUninitializedValue
        | Inst::GprUninitializedValue
        | Inst::DummyUse => {},
        Inst::XmmRmiRVex { op, commutative, src1, src2, dst } => {
            emit_xmm_rmi_r_vex(sink, *op, *commutative, *src1, *src2, *dst);
            if let RegMemImm::Imm { .. } = src2 {
                return ;
            }
        },
        Inst::CheckedSRemSeq { .. }
        | Inst::CheckedSRemSeq8 { .. }
        | Inst::Imm { .. }
        | Inst::MovImmM { .. }
        | Inst::MovRR { .. }
        | Inst::MovFromPReg { .. }
        | Inst::MovToPReg { .. }
        | Inst::LoadEffectiveAddress { .. }
        | Inst::MovRM { .. }
        | Inst::CmpRmiR { .. }
        | Inst::Setcc { .. }
        | Inst::Cmove { .. }
        | Inst::XmmCmove { .. } => {
            emit_scalar(inst, sink, info, state);
        },
        Inst::StackProbeLoop { .. }
        | Inst::CallKnown { .. }
        | Inst::CallUnknown { .. }
        | Inst::ReturnCallKnown { .. }
        | Inst::ReturnCallUnknown { .. }
        | Inst::Ret { .. }
        | Inst::StackSwitchBasic { .. }
        | Inst::JmpKnown { .. }
        | Inst::WinchJmpIf { .. }
        | Inst::JmpCond { .. }
        | Inst::JmpCondOr { .. }
        | Inst::JmpUnknown { .. }
        | Inst::JmpTableSeq { .. }
        | Inst::TrapIf { .. }
        | Inst::TrapIfAnd { .. }
        | Inst::TrapIfOr { .. } => {
            emit_control(inst, sink, info, state);
        },
        Inst::XmmUnaryRmR { .. }
        | Inst::XmmUnaryRmREvex { .. }
        | Inst::XmmUnaryRmRImmEvex { .. }
        | Inst::XmmRmR { .. }
        | Inst::XmmRmRUnaligned { .. }
        | Inst::XmmRmREvex { .. }
        | Inst::XmmRmREvex3 { .. }
        | Inst::XmmRmRImm { .. }
        | Inst::XmmCmpRmR { .. } => {
            emit_sse(inst, sink, info, state);
        },
        Inst::XmmRmRImmVex { .. }
        | Inst::XmmRmRVex3 { .. }
        | Inst::XmmUnaryRmRVex { .. }
        | Inst::XmmMovRMVex { .. }
        | Inst::XmmMovRMImmVex { .. }
        | Inst::XmmToGprImmVex { .. }
        | Inst::XmmCmpRmRVex { .. } => {
            emit_vex(inst, sink, info, state);
        },
        Inst::XmmMinMaxSeq { .. }
        | Inst::CvtUint64ToFloatSeq { .. }
        | Inst::CvtFloatToSintSeq { .. }
        | Inst::CvtFloatToUintSeq { .. }
        | Inst::LockCmpxchg { .. }
        | Inst::LockCmpxchg16b { .. }
        | Inst::LockXadd { .. }
        | Inst::Xchg { .. }
        | Inst::AtomicRmwSeq { .. }
        | Inst::Atomic128RmwSeq { .. }
        | Inst::Atomic128XchgSeq { .. } => {
            emit_sequence(inst, sink, info, state);
        },
        Inst::LoadExtName { .. }
        | Inst::Fence { .. }
        | Inst::Hlt
        | Inst::Ud2 { .. }
        | Inst::Nop { .. }
        | Inst::ElfTlsGetAddr { .. }
        | Inst::MachOTlsGetAddr { .. }
        | Inst::CoffTlsGetAddr { .. }
        | Inst::Unwind { .. }
        | Inst::External { .. } => {
            emit_fixed(inst, sink, info, state);
        },
    }
    state.clear_post_insn();
}

} // verus!
