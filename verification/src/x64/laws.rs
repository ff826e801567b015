//! What holds of emission as a whole.

use crate::x64::args::{
    Amode, CmpOpcode, ExternalName, FenceKind, Gpr, Label, LabelUse, OperandSize, RegMem,
    RegMemImm, TrapCode, Type, Xmm, CC,
};
use crate::x64::inst::{CallInfo, EmitInfo, EmitState, Inst};
use crate::x64::opcodes::AvxOpcode;
use crate::x64::sink::Step;
use vstd::prelude::*;

verus! {

/// The inverse of the inverse of a condition is the condition.
pub proof fn law_inverse_of_inverse(cc: CC)
    ensures
        cc.inverse().inverse() == cc,
{
}

/// A condition and its inverse differ in the lowest bit of their encoding, and
/// in nothing else.
pub proof fn law_inverse_flips_the_low_bit(cc: CC)
    ensures
        cc.inverse().enc() / 2 == cc.enc() / 2,
        cc.inverse().enc() % 2 != cc.enc() % 2,
{
}

/// Conditions are told apart by four bits.
pub proof fn law_conditions_are_told_apart(a: CC, b: CC)
    ensures
        a.enc() < 16,
        a.enc() == b.enc() ==> a == b,
{
}

/// A 64-bit constant takes the short form if and only if its low 32 bits,
/// extended with their sign, give the constant back.
pub proof fn law_short_constant_extends_back(x: u64)
    ensures
        crate::x64::args::fits_signed_32(x) <==> ((x as u32) as i32) as i64 as u64 == x,
{
    assert((x < 0x8000_0000 || x >= 0xffff_ffff_8000_0000) <==> ((x as u32) as i32) as i64 as u64
        == x) by (bit_vector);
}

/// A 32-bit immediate takes one byte if and only if that byte, extended with its
/// sign, gives the immediate back.
pub proof fn law_short_immediate_extends_back(x: u32)
    ensures
        crate::x64::args::fits_signed_8(x) <==> ((x as u8) as i8) as i32 as u32 == x,
{
    assert((x < 0x80 || x >= 0xffff_ff80) <==> ((x as u8) as i8) as i32 as u32 == x)
        by (bit_vector);
}

/// What was in the buffer before an instruction stays there.
pub proof fn law_emission_only_adds(
    before: Seq<Step>,
    after: Seq<Step>,
    inst: Inst,
    info: EmitInfo,
    state: EmitState,
)
    requires
        crate::x64::emit::emitted(before, after, inst, info, state),
    ensures
        before.is_prefix_of(after),
{
}

/// As many bytes are emitted that do nothing as were asked for.
pub proof fn law_nop_has_its_length(len: nat)
    ensures
        crate::x64::emit_misc::nop(len).len() == len,
    decreases len,
{
    if len > 9 {
        law_nop_has_its_length((len - 9) as nat);
    }
}

/// The number of bytes that steps append which append a known number of bytes.
pub open spec fn size(steps: Seq<Step>) -> nat
    decreases steps.len(),
{
    if steps.len() == 0 {
        0
    } else {
        size(steps.drop_last()) + (match steps.last() {
            Step::Put1(_) => 1nat,
            Step::Put2(_) => 2,
            Step::Put4(_) => 4,
            Step::Put8(_) => 8,
            _ => 0,
        })
    }
}

broadcast proof fn lemma_size_push(steps: Seq<Step>, step: Step)
    ensures
        #[trigger] size(steps.push(step)) == size(steps) + (match step {
            Step::Put1(_) => 1nat,
            Step::Put2(_) => 2,
            Step::Put4(_) => 4,
            Step::Put8(_) => 8,
            _ => 0,
        }),
{
    assert(steps.push(step).drop_last() =~= steps);
}

/// How many bytes jumps append.
proof fn lemma_size_of_jumps(cc: CC, label: Label)
    ensures
        size(crate::x64::emit_flow::jmp_known(label)) == 5,
        size(crate::x64::emit_flow::jmp_cond_part(cc, label)) == 6,
{
    broadcast use lemma_size_push;

    let none = Seq::<Step>::empty();
    let jump = crate::x64::emit_flow::jmp_known(label);
    assert(jump =~= none.push(jump[0]).push(jump[1]).push(jump[2]).push(jump[3]));
    let cond = crate::x64::emit_flow::jmp_cond_part(cc, label);
    assert(cond =~= none.push(cond[0]).push(cond[1]).push(cond[2]).push(cond[3]).push(cond[4]));
}

/// A jump has the length that it is said to have, and the last four bytes of it
/// are the place that refers to the label.
pub proof fn law_jump_has_its_length(dst: Label)
    ensures
        ({
            let steps = crate::x64::emit_flow::jmp_known(dst);
            &&& steps[1] == (Step::AddUncondBranch { len: size(steps) as u32, label: dst })
            &&& steps[0] == (Step::UseLabel {
                ahead: (size(steps) - 4) as u32,
                label: dst,
                usage: LabelUse::JmpRel32,
            })
            &&& steps.last() == Step::Put4(0)
        }),
{
    lemma_size_of_jumps(CC::Z, dst);
}

/// A conditional jump has the length that it is said to have, and the last four
/// bytes of it are the place that refers to the label. The bytes for its
/// inversion are those of the jump on the inverse condition.
pub proof fn law_conditional_jump_can_be_inverted(cc: CC, taken: Label)
    ensures
        ({
            let steps = crate::x64::emit_flow::jmp_cond_part(cc, taken);
            let inverse = crate::x64::emit_flow::jmp_cond_part(cc.inverse(), taken);
            &&& size(steps) == 6
            &&& steps[0] == (Step::UseLabel {
                ahead: (size(steps) - 4) as u32,
                label: taken,
                usage: LabelUse::JmpRel32,
            })
            &&& steps[1] matches Step::AddCondBranch { len, label, inverted }
            &&& len == size(steps)
            &&& label == taken
            &&& inverse[2] == Step::Put1(inverted.0)
            &&& inverse[3] == Step::Put1(inverted.1)
            &&& inverted.2 == 0 && inverted.3 == 0 && inverted.4 == 0 && inverted.5 == 0
            &&& inverse[4] == Step::Put4(0)
        }),
{
    lemma_size_of_jumps(cc, taken);
}

/// The stack map of a call of a symbol is for the place right behind the call
/// instruction, where the call returns to.
pub proof fn law_stack_map_is_where_the_call_returns(
    state: EmitState,
    info: CallInfo<ExternalName>,
    map: u32,
)
    requires
        state.stack_map == Some(map),
    ensures
        ({
            let steps = crate::x64::emit_flow::call_known(state, info);
            &&& steps[0] == (Step::PushUserStackMap { ahead: 5, map })
            &&& size(steps.subrange(1, 4)) == 5
            &&& steps[4] is AddCallSite
        }),
{
    broadcast use lemma_size_push;

    let steps = crate::x64::emit_flow::call_known(state, info);
    let call = seq![
        Step::Put1(0xE8),
        Step::AddReloc {
            kind: crate::x64::args::Reloc::X86CallPCRel4,
            name: info.dest,
            addend: -4i64,
        },
        Step::Put4(0),
    ];
    assert(steps.subrange(1, 4) =~= call);
    assert(call =~= Seq::<Step>::empty().push(call[0]).push(call[1]).push(call[2]));
    let rest = crate::x64::emit_flow::after_call(
        state.frame_layout,
        info.defs,
        info.try_call_info,
        info.callee_pop_size,
    );
    assert(rest[0] is AddCallSite);
    assert(steps[4] == rest[0]);
}

/// A jump table has a word for each target and one for the default. Each word
/// refers to its target and holds its own offset in the table, so that once it
/// is patched it is relative to the start of the table.
pub proof fn law_jump_table_words(targets: Seq<Label>, i: int)
    requires
        0 <= i < targets.len(),
    ensures
        crate::x64::emit_flow::table_words(targets).len() == 2 * targets.len(),
        crate::x64::emit_flow::table_words(targets)[2 * i] == (Step::UseLabel {
            ahead: 0,
            label: targets[i],
            usage: LabelUse::PCRel32,
        }),
        crate::x64::emit_flow::table_words(targets)[2 * i + 1] == Step::Put4((4 * i) as u32),
    decreases targets.len(),
{
    if targets.len() > 1 {
        if i < targets.len() - 1 {
            law_jump_table_words(targets.drop_last(), i);
        } else {
            law_jump_table_words(targets.drop_last(), 0);
        }
    } else {
        assert(crate::x64::emit_flow::table_words(targets.drop_last()) =~= Seq::<Step>::empty());
    }
}

/// A stack is probed for the whole frame: what is probed is a whole number of
/// guard areas, is at least the frame, and is less than one area more.
pub proof fn law_probes_cover_the_frame(frame_size: u32, guard_size: u32)
    requires
        guard_size > 0,
    ensures
        frame_size <= crate::x64::emit_flow::guarded_size(frame_size, guard_size),
        crate::x64::emit_flow::guarded_size(frame_size, guard_size) < frame_size + guard_size,
        crate::x64::emit_flow::guarded_size(frame_size, guard_size) % (guard_size as int) == 0,
{
    crate::x64::emit_flow::lemma_guarded_size(frame_size, guard_size);
}

/// Swapping the operands of a commutative operation changes which field names
/// which of them, and nothing else.
pub proof fn law_swap_keeps_the_operands(op: AvxOpcode, src1: Xmm, src2: Xmm, dst: Xmm)
    ensures
        ({
            let reg = RegMemImm::Reg { reg: crate::x64::args::Reg::Xmm(src2) };
            let plain = crate::x64::emit_vector::xmm_rmi_r_vex(op, false, src1, reg, dst);
            let swapped = crate::x64::emit_vector::xmm_rmi_r_vex(op, true, src1, reg, dst);
            let other = RegMemImm::Reg { reg: crate::x64::args::Reg::Xmm(src1) };
            ||| swapped == plain
            ||| swapped == crate::x64::emit_vector::xmm_rmi_r_vex(op, false, src2, other, dst)
        }),
{
}

/// Emission leaves the frame as it is, and no stack map for the next instruction,
/// but for a shift of a vector register by an immediate.
pub proof fn law_state_after_an_instruction(inst: Inst, state: EmitState)
    ensures
        crate::x64::emit::state_after(inst, state).frame_layout == state.frame_layout,
        !(inst matches Inst::XmmRmiRVex { src2, .. } && src2 is Imm)
            ==> crate::x64::emit::state_after(inst, state).stack_map is None,
{
}

/// Instructions without conditions on their operands can always be emitted.
pub proof fn law_these_can_always_be_emitted(
    size: OperandSize,
    cc: (CC, CC),
    regs: (Gpr, Gpr),
    addr: Amode,
    operand: RegMemImm,
    target: RegMem,
    compare: CmpOpcode,
    labels: (Label, Label),
    code: TrapCode,
    kind: FenceKind,
    numbers: (u64, i32, u8),
    info: EmitInfo,
    state: EmitState,
)
    ensures
        can(Inst::Imm { dst_size: size, simm64: numbers.0, dst: regs.0 }, info, state),
        can(Inst::MovImmM { size, simm32: numbers.1, dst: addr }, info, state),
        can(Inst::MovRR { size, src: regs.0, dst: regs.1 }, info, state),
        can(Inst::MovRM { size, src: regs.0, dst: addr }, info, state),
        can(Inst::CmpRmiR { size, src1: regs.0, src2: operand, opcode: compare }, info, state),
        can(Inst::Setcc { cc: cc.0, dst: regs.0 }, info, state),
        can(Inst::JmpKnown { dst: labels.0 }, info, state),
        can(Inst::WinchJmpIf { cc: cc.0, taken: labels.0 }, info, state),
        can(Inst::JmpCond { cc: cc.0, taken: labels.0, not_taken: labels.1 }, info, state),
        can(
            Inst::JmpCondOr { cc1: cc.0, cc2: cc.1, taken: labels.0, not_taken: labels.1 },
            info,
            state,
        ),
        can(Inst::JmpUnknown { target }, info, state),
        can(Inst::TrapIf { cc: cc.0, trap_code: code }, info, state),
        can(Inst::TrapIfAnd { cc1: cc.0, cc2: cc.1, trap_code: code }, info, state),
        can(Inst::TrapIfOr { cc1: cc.0, cc2: cc.1, trap_code: code }, info, state),
        can(Inst::Fence { kind }, info, state),
        can(Inst::Ud2 { trap_code: code }, info, state),
        can(Inst::Nop { len: numbers.2 }, info, state),
        can(Inst::Hlt, info, state),
        can(Inst::Args, info, state) && can(Inst::Rets, info, state),
{
}

/// Whether an instruction can be emitted.
pub open spec fn can(inst: Inst, info: EmitInfo, state: EmitState) -> bool {
    crate::x64::emit::emittable(inst, info, state)
}

/// The numbers of instructions have the room that their fields have: 16 bits for what a
/// return pops, 31 for offsets and sizes. Where the result replaces an operand, the two
/// are in the same place.
pub proof fn law_operands_have_to_fit(
    n: u32,
    offset: i64,
    sizes: (OperandSize, OperandSize),
    cc: CC,
    regs: (Gpr, Gpr),
    vectors: (Xmm, Xmm, Xmm),
    target: RegMem,
    ty: Type,
    call: CallInfo<ExternalName>,
    name: ExternalName,
    distance: crate::x64::args::RelocDistance,
    info: EmitInfo,
    state: EmitState,
)
    ensures
        can(Inst::Ret { stack_bytes_to_pop: n }, info, state) <==> n < 0x1_0000,
        can(Inst::CallKnown { info: call }, info, state) <==> call.callee_pop_size < 0x8000_0000,
        can(Inst::LoadExtName { dst: regs.0, name, offset, distance }, info, state) <==> (
        info.is_pic ==> -0x8000_0000 < offset < 0x8000_0000),
        can(
            Inst::Cmove {
                size: sizes.0,
                cc,
                consequent: target,
                alternative: regs.0,
                dst: regs.1,
            },
            info,
            state,
        ) <==> regs.0 == regs.1 && sizes.0 != OperandSize::Size8,
        can(
            Inst::XmmCmove {
                ty,
                cc,
                consequent: vectors.0,
                alternative: vectors.1,
                dst: vectors.2,
            },
            info,
            state,
        ) <==> vectors.1 == vectors.2,
        can(Inst::MovFromPReg { src: regs.0, dst: regs.1 }, info, state) <==> regs.0.enc == 4
            || regs.0.enc == 5 || regs.0.enc == 15,
        can(Inst::MovToPReg { src: regs.0, dst: regs.1 }, info, state) <==> regs.1.enc == 4
            || regs.1.enc == 5 || regs.1.enc == 15,
        state.frame_layout.fits() ==> (can(
            Inst::CvtFloatToSintSeq {
                src_size: sizes.0,
                dst_size: sizes.1,
                is_saturating: true,
                src: vectors.0,
                dst: regs.0,
                tmp_gpr: regs.1,
                tmp_xmm: vectors.1,
            },
            info,
            state,
        ) <==> sizes.0.bytes() >= 4 && sizes.1.bytes() >= 4),
        state.frame_layout.fits() ==> (can(
            Inst::XmmMinMaxSeq {
                size: sizes.0,
                is_min: true,
                lhs: vectors.0,
                rhs: vectors.1,
                dst: vectors.2,
            },
            info,
            state,
        ) <==> vectors.1 == vectors.2 && sizes.0.bytes() >= 4),
{
}

/// A tail call needs frame pointers, and arguments no larger than those of the caller. It
/// can then be emitted if the difference fits in an instruction.
pub proof fn law_tail_calls_need_room(
    call: crate::x64::inst::ReturnCallInfo<Gpr>,
    info: EmitInfo,
    state: EmitState,
)
    requires
        state.frame_layout.fits(),
    ensures
        can(Inst::ReturnCallUnknown { info: call }, info, state) <==> info.preserve_frame_pointers
            && call.new_stack_arg_size <= state.frame_layout.tail_args_size,
{
}

/// What stands for registers and values alone emits nothing, and a stop for a debugger is
/// one byte.
pub proof fn law_markers_emit_nothing(info: EmitInfo, state: EmitState)
    ensures
        crate::x64::emit::listing(Inst::Args, info, state).len() == 0,
        crate::x64::emit::listing(Inst::Rets, info, state).len() == 0,
        crate::x64::emit::listing(Inst::XmmUninitializedValue, info, state).len() == 0,
        crate::x64::emit::listing(Inst::GprUninitializedValue, info, state).len() == 0,
        crate::x64::emit::listing(Inst::DummyUse, info, state).len() == 0,
        crate::x64::emit::listing(Inst::Hlt, info, state) == seq![Step::Put1(0xCC)],
{
}

} // verus!
