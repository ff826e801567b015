//! Emission of jumps, calls, traps and changes of the stack.

use crate::x64::args::{
    Amode, ExternalName, Gpr, Label, LabelUse, OperandSize, Reg, RegMem, RegMemImm, Reloc, TrapCode,
    Type, CC,
};
use crate::x64::emit_basic::{emit_external, emit_mov_rm, emit_mov_rr, one_way_jmp};
use crate::x64::inst::{
    CallInfo, ControlContextLayout, EmitInfo, EmitState, FrameLayout, ReturnCallInfo, TryCallInfo,
};
use crate::x64::opcodes::LegacyPrefixes;
use crate::x64::sink::{AsmInst, AsmOp, AsmSrc, Built, Rex, RexBase, Sink, Step};
use vstd::prelude::*;

verus! {

broadcast use crate::x64::sink::group_steps;

/// Emits a relocation.
pub fn emit_reloc(sink: &mut Sink, kind: Reloc, name: ExternalName, addend: i64)
    ensures
        final(sink)@ == old(sink)@.push(Step::AddReloc { kind, name, addend }),
{
    sink.push(Step::AddReloc { kind, name, addend });
}

/// A frame size rounded up to whole guard areas.
pub open spec fn guarded_size(frame_size: u32, guard_size: u32) -> int {
    (frame_size + guard_size - 1) / (guard_size as int) * guard_size
}

/// The loop that touches the stack once in each guard area of a frame, and then
/// leaves the stack pointer where it was.
pub open spec fn stack_probe_loop(tmp: Gpr, frame_size: u32, guard_size: u32) -> Seq<Step> {
    let rsp = crate::x64::args::rsp();
    let loop_start = Label::Local(0);
    let all = guarded_size(frame_size, guard_size) as i32;
    seq![
        // mov tmp_reg, rsp
        Step::Emit(Built::Move { dst: Reg::Gpr(tmp), src: Reg::Gpr(rsp), ty: Type::I64 }),
        // sub tmp_reg, guard_size * probe_count
        Step::Emit(Built::SubqMi { dst: tmp, imm: all }),
        Step::GetLabel { label: loop_start },
        Step::BindLabel { label: loop_start },
        // sub rsp, guard_size
        Step::Emit(Built::SubqMi { dst: rsp, imm: guard_size as i32 }),
        // mov [rsp], rsp
        Step::Emit(Built::MovRM { size: OperandSize::Size32, src: rsp, addr: Amode::at(0, rsp) }),
        // cmp rsp, tmp_reg
        Step::Emit(
            Built::CmpRmiR {
                size: OperandSize::Size64,
                src1: tmp,
                src2: RegMemImm::Reg { reg: Reg::Gpr(rsp) },
            },
        ),
    ] + crate::x64::emit_basic::jump_if(CC::NZ, loop_start) + seq![
        // add rsp, guard_size * probe_count
        Step::Emit(Built::AddqMi { dst: rsp, imm: all }),
    ]
}

/// What a stack probe loop needs: guard areas whose size is a power of two, and
/// sizes that fit in an instruction.
pub open spec fn probe_ok(frame_size: u32, guard_size: u32) -> bool {
    &&& exists|k: nat| guard_size as nat == #[trigger] vstd::arithmetic::power2::pow2(k)
    &&& guard_size <= i32::MAX
    &&& guarded_size(frame_size, guard_size) <= i32::MAX
}

/// A size is at most what it is rounded up to, and no more than a whole area is
/// added.
pub proof fn lemma_guarded_size(frame_size: u32, guard_size: u32)
    requires
        guard_size > 0,
    ensures
        frame_size <= guarded_size(frame_size, guard_size) < frame_size + guard_size,
        guarded_size(frame_size, guard_size) % (guard_size as int) == 0,
{
    let n = frame_size + guard_size - 1;
    let g = guard_size as int;
    vstd::arithmetic::div_mod::lemma_fundamental_div_mod(n, g);
    vstd::arithmetic::mul::lemma_mul_is_commutative(g, n / g);
    vstd::arithmetic::div_mod::lemma_mod_bound(n, g);
    vstd::arithmetic::div_mod::lemma_mod_multiples_basic(n / g, g);
}

/// Emits the loop that touches the stack.
pub fn emit_stack_probe_loop(sink: &mut Sink, tmp: Gpr, frame_size: u32, guard_size: u32)
    requires
        probe_ok(frame_size, guard_size),
    ensures
        final(sink)@ == old(sink)@ + stack_probe_loop(tmp, frame_size, guard_size),
{
    proof {
        let k = choose|k: nat| guard_size as nat == #[trigger] vstd::arithmetic::power2::pow2(k);
        vstd::arithmetic::power2::lemma_pow2_pos(k);
        lemma_guarded_size(frame_size, guard_size);
    }
    let rsp = crate::x64::args::rsp();
    // Number of probes that we need to perform
    let probe_count: u32 = (frame_size + (guard_size - 1)) / guard_size;
    // Create the guard bound register
    sink.emit(Built::Move { dst: Reg::Gpr(tmp), src: Reg::Gpr(rsp), ty: Type::I64 });
    assert(probe_count * guard_size == guarded_size(frame_size, guard_size));
    let guard_plus_count: i32 = (probe_count * guard_size) as i32;
    sink.emit(Built::SubqMi { dst: tmp, imm: guard_plus_count });
    // Emit the main loop!
    let loop_start = sink.get_label(0);
    sink.bind_label(loop_start);
    sink.emit(Built::SubqMi { dst: rsp, imm: guard_size as i32 });
    // Probe the stack. 32 bits take one byte less than 64.
    sink.emit(
        Built::MovRM { size: OperandSize::Size32, src: rsp, addr: Amode::imm_reg(0, rsp) },
    );
    // Compare and jump if we are not done yet
    sink.emit(
        Built::CmpRmiR {
            size: OperandSize::Size64,
            src1: tmp,
            src2: RegMemImm::Reg { reg: Reg::Gpr(rsp) },
        },
    );
    one_way_jmp(sink, CC::NZ, loop_start);
    // The prologue moves the stack pointer again, so it is reset here.
    sink.emit(Built::AddqMi { dst: rsp, imm: guard_plus_count });
}

/// What follows the instruction of a call: the call site, the area of the
/// arguments that the callee released, the loads of return values, and for a
/// call that may throw the jump to where it continues.
pub open spec fn after_call(
    frame: FrameLayout,
    defs: u32,
    try_call_info: Option<TryCallInfo>,
    callee_pop_size: u32,
) -> Seq<Step> {
    seq![
        Step::AddCallSite {
            exception_dests: match try_call_info {
                Some(try_call) => Some(try_call.exception_dests),
                None => None,
            },
        },
    ] + (if callee_pop_size > 0 {
        seq![
            Step::Emit(
                Built::SubqMi { dst: crate::x64::args::rsp(), imm: callee_pop_size as i32 },
            ),
        ]
    } else {
        seq![]
    }) + seq![Step::RetvalLoads { defs, stackslots_size: frame.stackslots_size }] + (
    match try_call_info {
        Some(try_call) => jmp_known(try_call.continuation),
        None => seq![],
    })
}

/// Emits what follows the instruction of a call.
fn emit_after_call(
    sink: &mut Sink,
    frame: &FrameLayout,
    defs: u32,
    try_call_info: Option<TryCallInfo>,
    callee_pop_size: u32,
)
    requires
        callee_pop_size <= i32::MAX,
    ensures
        final(sink)@ == old(sink)@ + after_call(
            *frame,
            defs,
            try_call_info,
            callee_pop_size,
        ),
{
    let exception_dests = match try_call_info {
        Some(try_call) => Some(try_call.exception_dests),
        None => None,
    };
    sink.push(Step::AddCallSite { exception_dests });
    // Reclaim the outgoing argument area that was released by the callee, so
    // that addresses relative to the stack pointer stay right.
    if callee_pop_size > 0 {
        sink.emit(Built::SubqMi { dst: crate::x64::args::rsp(), imm: callee_pop_size as i32 });
    }
    // Load any stack-carried return values.
    sink.push(Step::RetvalLoads { defs, stackslots_size: frame.stackslots_size });
    // If the call may throw, jump to the block for the normal return.
    if let Some(try_call) = try_call_info {
        emit_jmp_known(sink, try_call.continuation);
    }
}

/// The stack map of an instruction, `ahead` bytes further on.
pub open spec fn stack_map(state: EmitState, ahead: u32) -> Seq<Step> {
    match state.stack_map {
        Some(map) => seq![Step::PushUserStackMap { ahead, map }],
        None => seq![],
    }
}

/// A call of a symbol. The stack map is for the place after the 5 bytes of the
/// instruction.
pub open spec fn call_known(state: EmitState, info: CallInfo<ExternalName>) -> Seq<Step> {
    stack_map(state, 5) + seq![
        Step::Put1(0xE8),
        Step::AddReloc { kind: Reloc::X86CallPCRel4, name: info.dest, addend: -4i64 },
        Step::Put4(0),
    ] + after_call(state.frame_layout, info.defs, info.try_call_info, info.callee_pop_size)
}

/// Emits a call of a symbol.
pub fn emit_call_known(sink: &mut Sink, state: &mut EmitState, info: &CallInfo<ExternalName>)
    requires
        info.callee_pop_size <= i32::MAX,
    ensures
        final(sink)@ == old(sink)@ + call_known(*old(state), *info),
        *final(state) == old(state).cleared(),
{
    if let Some(map) = state.take_stack_map() {
        sink.push(Step::PushUserStackMap { ahead: 5, map });
    }
    sink.put1(0xE8);
    // The addend adjusts for the difference between the end of the instruction
    // and the beginning of the immediate field.
    emit_reloc(sink, Reloc::X86CallPCRel4, info.dest, -4);
    sink.put4(0);
    emit_after_call(
        sink,
        &state.frame_layout,
        info.defs,
        info.try_call_info,
        info.callee_pop_size,
    );
}

/// An instruction with one operand, which the subopcode tells from others.
pub open spec fn indirect(subopcode: u8, target: RegMem) -> Step {
    match target {
        RegMem::Reg { reg } => Step::StdEncEnc {
            prefix: LegacyPrefixes::NoPrefix,
            opcode: 0xFF,
            num_opcodes: 1,
            enc_g: subopcode,
            enc_e: reg.enc(),
            rex: Rex::of(RexBase::ClearW),
        },
        RegMem::Mem { addr } => Step::StdEncMem {
            prefix: LegacyPrefixes::NoPrefix,
            opcode: 0xFF,
            num_opcodes: 1,
            enc_g: subopcode,
            addr,
            rex: Rex::of(RexBase::ClearW),
            bytes_at_end: 0,
        },
    }
}

/// Emits an instruction with one operand.
fn emit_indirect(sink: &mut Sink, subopcode: u8, target: RegMem)
    ensures
        final(sink)@ == old(sink)@.push(indirect(subopcode, target)),
{
    match target {
        RegMem::Reg { reg } => {
            sink.push(
                Step::StdEncEnc {
                    prefix: LegacyPrefixes::NoPrefix,
                    opcode: 0xFF,
                    num_opcodes: 1,
                    enc_g: subopcode,
                    enc_e: reg.hw_enc(),
                    rex: Rex::new(RexBase::ClearW),
                },
            );
        },
        RegMem::Mem { addr } => {
            sink.push(
                Step::StdEncMem {
                    prefix: LegacyPrefixes::NoPrefix,
                    opcode: 0xFF,
                    num_opcodes: 1,
                    enc_g: subopcode,
                    addr,
                    rex: Rex::new(RexBase::ClearW),
                    bytes_at_end: 0,
                },
            );
        },
    }
}

/// A call of a computed address. The stack map is for the place after the
/// instruction.
pub open spec fn call_unknown(state: EmitState, info: CallInfo<RegMem>) -> Seq<Step> {
    seq![indirect(2, info.dest)] + stack_map(state, 0) + after_call(
        state.frame_layout,
        info.defs,
        info.try_call_info,
        info.callee_pop_size,
    )
}

/// Emits a call of a computed address.
pub fn emit_call_unknown(sink: &mut Sink, state: &mut EmitState, info: &CallInfo<RegMem>)
    requires
        info.callee_pop_size <= i32::MAX,
    ensures
        final(sink)@ == old(sink)@ + call_unknown(*old(state), *info),
        *final(state) == old(state).cleared(),
{
    emit_indirect(sink, 2, info.dest);
    if let Some(map) = state.take_stack_map() {
        sink.push(Step::PushUserStackMap { ahead: 0, map });
    }
    emit_after_call(
        sink,
        &state.frame_layout,
        info.defs,
        info.try_call_info,
        info.callee_pop_size,
    );
}

/// What a tail call needs: frame pointers, and arguments of the callee that fit
/// in the area of those of the caller.
pub open spec fn return_call_ok(
    preserve_frame_pointers: bool,
    frame: FrameLayout,
    new_stack_arg_size: u32,
) -> bool {
    &&& preserve_frame_pointers
    &&& new_stack_arg_size <= frame.tail_args_size
    &&& new_stack_arg_size < frame.tail_args_size ==> frame.tail_args_size - new_stack_arg_size
        <= i32::MAX && frame.fits()
}

/// What comes before the jump of a tail call: the frame is taken down, and if
/// the callee has a smaller area for stack arguments, the return address moves
/// up by the difference.
pub open spec fn return_call_common(frame: FrameLayout, new_stack_arg_size: u32, tmp: Gpr) -> Seq<
    Step,
> {
    let rsp = crate::x64::args::rsp();
    let diff = (frame.tail_args_size - new_stack_arg_size) as i32;
    seq![Step::ClobberRestore, Step::EpilogueFrameRestore] + (if new_stack_arg_size
        < frame.tail_args_size {
        seq![
            Step::Asm {
                inst: AsmInst::Op {
                    op: AsmOp::MovqRm,
                    dst: Reg::Gpr(tmp),
                    src: AsmSrc::Mem(Amode::at(0, rsp)),
                },
                offsets: frame.offsets(),
            },
            Step::Emit(
                Built::MovRM { size: OperandSize::Size64, src: tmp, addr: Amode::at(diff, rsp) },
            ),
            Step::Emit(Built::AddqMi { dst: rsp, imm: diff }),
        ]
    } else {
        seq![]
    })
}

/// Emits the common sequence used for both direct and indirect tail calls.
pub fn emit_return_call_common_sequence<T>(
    sink: &mut Sink,
    info: &EmitInfo,
    frame: &FrameLayout,
    call_info: &ReturnCallInfo<T>,
)
    requires
        return_call_ok(info.preserve_frame_pointers, *frame, call_info.new_stack_arg_size),
    ensures
        final(sink)@ == old(sink)@ + return_call_common(
            *frame,
            call_info.new_stack_arg_size,
            call_info.tmp,
        ),
{
    let tmp = call_info.tmp;
    let rsp = crate::x64::args::rsp();
    sink.push(Step::ClobberRestore);
    sink.push(Step::EpilogueFrameRestore);
    let incoming_args_diff: u32 = frame.tail_args_size - call_info.new_stack_arg_size;
    if incoming_args_diff > 0 {
        let diff: i32 = incoming_args_diff as i32;
        // Move the saved return address up by `incoming_args_diff`.
        emit_external(
            sink,
            frame,
            AsmInst::Op {
                op: AsmOp::MovqRm,
                dst: Reg::Gpr(tmp),
                src: AsmSrc::Mem(Amode::imm_reg(0, rsp)),
            },
        );
        sink.emit(
            Built::MovRM { size: OperandSize::Size64, src: tmp, addr: Amode::imm_reg(diff, rsp) },
        );
        // Increment the stack pointer to shrink the argument area for the new
        // call.
        sink.emit(Built::AddqMi { dst: rsp, imm: diff });
    }
}

/// A tail call of a symbol.
pub open spec fn return_call_known(frame: FrameLayout, info: ReturnCallInfo<ExternalName>) -> Seq<
    Step,
> {
    return_call_common(frame, info.new_stack_arg_size, info.tmp) + seq![
        Step::Put1(0xE9),
        Step::AddReloc { kind: Reloc::X86CallPCRel4, name: info.dest, addend: -4i64 },
        Step::Put4(0),
        Step::AddCallSite { exception_dests: None },
    ]
}

/// Emits a tail call of a symbol.
pub fn emit_return_call_known(
    sink: &mut Sink,
    info: &EmitInfo,
    frame: &FrameLayout,
    call_info: &ReturnCallInfo<ExternalName>,
)
    requires
        return_call_ok(info.preserve_frame_pointers, *frame, call_info.new_stack_arg_size),
    ensures
        final(sink)@ == old(sink)@ + return_call_known(*frame, *call_info),
{
    emit_return_call_common_sequence(sink, info, frame, call_info);
    // Finally, jump to the callee! The target is a relocation, not a label.
    sink.put1(0xE9);
    emit_reloc(sink, Reloc::X86CallPCRel4, call_info.dest, -4);
    sink.put4(0);
    sink.push(Step::AddCallSite { exception_dests: None });
}

/// A tail call of a computed address.
pub open spec fn return_call_unknown(frame: FrameLayout, info: ReturnCallInfo<Gpr>) -> Seq<Step> {
    return_call_common(frame, info.new_stack_arg_size, info.tmp) + seq![
        indirect(4, RegMem::Reg { reg: Reg::Gpr(info.dest) }),
        Step::AddCallSite { exception_dests: None },
    ]
}

/// Emits a tail call of a computed address.
pub fn emit_return_call_unknown(
    sink: &mut Sink,
    info: &EmitInfo,
    frame: &FrameLayout,
    call_info: &ReturnCallInfo<Gpr>,
)
    requires
        return_call_ok(info.preserve_frame_pointers, *frame, call_info.new_stack_arg_size),
    ensures
        final(sink)@ == old(sink)@ + return_call_unknown(*frame, *call_info),
{
    let callee = call_info.dest;
    emit_return_call_common_sequence(sink, info, frame, call_info);
    emit_jmp_unknown(sink, RegMem::Reg { reg: Reg::Gpr(callee) });
    sink.push(Step::AddCallSite { exception_dests: None });
}

/// A return.
pub open spec fn ret(stack_bytes_to_pop: u32) -> Seq<Step> {
    if stack_bytes_to_pop == 0 {
        seq![Step::Put1(0xC3)]
    } else {
        seq![Step::Put1(0xC2), Step::Put2(stack_bytes_to_pop as u16)]
    }
}

/// Emits a return.
pub fn emit_ret(sink: &mut Sink, stack_bytes_to_pop: u32)
    requires
        stack_bytes_to_pop <= u16::MAX,
    ensures
        final(sink)@ == old(sink)@ + ret(stack_bytes_to_pop),
{
    if stack_bytes_to_pop == 0 {
        sink.put1(0xC3);
    } else {
        sink.put1(0xC2);
        sink.put2(stack_bytes_to_pop as u16);
    }
}

/// A jump to a label.
pub open spec fn jmp_known(dst: Label) -> Seq<Step> {
    seq![
        Step::UseLabel { ahead: 1, label: dst, usage: LabelUse::JmpRel32 },
        Step::AddUncondBranch { len: 5, label: dst },
        Step::Put1(0xE9),
        Step::Put4(0),
    ]
}

/// Emits a jump to a label.
pub fn emit_jmp_known(sink: &mut Sink, dst: Label)
    ensures
        final(sink)@ == old(sink)@ + jmp_known(dst),
{
    sink.use_label(1, dst, LabelUse::JmpRel32);
    sink.push(Step::AddUncondBranch { len: 5, label: dst });
    sink.put1(0xE9);
    // Placeholder for the label value.
    sink.put4(0x0);
}

/// A conditional jump that ends a block: it can be turned into a jump on the
/// inverse condition.
pub open spec fn jmp_cond_part(cc: CC, taken: Label) -> Seq<Step> {
    seq![
        Step::UseLabel { ahead: 2, label: taken, usage: LabelUse::JmpRel32 },
        Step::AddCondBranch {
            len: 6,
            label: taken,
            inverted: (0x0F, (0x80 + cc.inverse().enc()) as u8, 0, 0, 0, 0),
        },
        Step::Put1(0x0F),
        Step::Put1((0x80 + cc.enc()) as u8),
        Step::Put4(0),
    ]
}

/// Emits a conditional jump that ends a block.
fn emit_jmp_cond_part(sink: &mut Sink, cc: CC, taken: Label)
    ensures
        final(sink)@ == old(sink)@ + jmp_cond_part(cc, taken),
{
    sink.use_label(2, taken, LabelUse::JmpRel32);
    let inverted: (u8, u8, u8, u8, u8, u8) = (0x0F, 0x80 + cc.invert().get_enc(), 0, 0, 0, 0);
    sink.push(Step::AddCondBranch { len: 6, label: taken, inverted });
    sink.put1(0x0F);
    sink.put1(0x80 + cc.get_enc());
    // Placeholder for the label value.
    sink.put4(0x0);
}

/// A jump to one of two places.
pub open spec fn jmp_cond(cc: CC, taken: Label, not_taken: Label) -> Seq<Step> {
    jmp_cond_part(cc, taken) + jmp_known(not_taken)
}

/// Emits a jump to one of two places.
pub fn emit_jmp_cond(sink: &mut Sink, cc: CC, taken: Label, not_taken: Label)
    ensures
        final(sink)@ == old(sink)@ + jmp_cond(cc, taken, not_taken),
{
    emit_jmp_cond_part(sink, cc, taken);
    emit_jmp_known(sink, not_taken);
}

/// A jump to one of two places, on either of two conditions.
pub open spec fn jmp_cond_or(cc1: CC, cc2: CC, taken: Label, not_taken: Label) -> Seq<Step> {
    jmp_cond_part(cc1, taken) + jmp_cond_part(cc2, taken) + jmp_known(not_taken)
}

/// Emits a jump to one of two places, on either of two conditions. Both
/// conditional jumps can be turned, so that all three can vanish.
pub fn emit_jmp_cond_or(sink: &mut Sink, cc1: CC, cc2: CC, taken: Label, not_taken: Label)
    ensures
        final(sink)@ == old(sink)@ + jmp_cond_or(cc1, cc2, taken, not_taken),
{
    emit_jmp_cond_part(sink, cc1, taken);
    emit_jmp_cond_part(sink, cc2, taken);
    emit_jmp_known(sink, not_taken);
}

/// Emits a jump to a computed address.
pub fn emit_jmp_unknown(sink: &mut Sink, target: RegMem)
    ensures
        final(sink)@ == old(sink)@.push(indirect(4, target)),
{
    emit_indirect(sink, 4, target);
}

/// The words of a jump table. Each is the offset of its target, which is patched
/// in, plus the offset of the word in the table.
pub open spec fn table_words(targets: Seq<Label>) -> Seq<Step>
    decreases targets.len(),
{
    if targets.len() == 0 {
        seq![]
    } else {
        table_words(targets.drop_last()) + seq![
            Step::UseLabel { ahead: 0, label: targets.last(), usage: LabelUse::PCRel32 },
            Step::Put4((4 * (targets.len() - 1)) as u32),
        ]
    }
}

/// A jump through a table, with the table behind it. The default target is the
/// last of the table.
pub open spec fn jmp_table_seq(
    frame: FrameLayout,
    idx: Gpr,
    tmp1: Gpr,
    tmp2: Gpr,
    targets: Seq<Label>,
    default_target: Label,
) -> Seq<Step> {
    let table = Label::Local(0);
    seq![
        Step::GetLabel { label: table },
        // lea start_of_jump_table_offset(%rip), %tmp1
        Step::Emit(Built::Lea { addr: Amode::RipRelative { target: table }, dst: tmp1 }),
        // movslq [%tmp1, %idx, 4], %tmp2
        Step::Emit(
            Built::MovsxLQ {
                src: RegMem::Mem {
                    addr: Amode::ImmRegRegShift {
                        simm32: 0,
                        base: tmp1,
                        index: idx,
                        shift: 2,
                        flags: 0,
                    },
                },
                dst: tmp2,
            },
        ),
        // addq %tmp2, %tmp1
        crate::x64::emit_basic::asm_rr(frame, AsmOp::AddqRm, Reg::Gpr(tmp1), Reg::Gpr(tmp2)),
        // j *%tmp1
        Step::Emit(Built::JmpUnknown { target: RegMem::Reg { reg: Reg::Gpr(tmp1) } }),
        Step::BindLabel { label: table },
    ] + table_words(targets.push(default_target))
}

/// Emits a jump through a table. This is one instruction for the register
/// allocator, since nothing may come between its parts.
pub fn emit_jmp_table_seq(
    sink: &mut Sink,
    frame: &FrameLayout,
    idx: Gpr,
    tmp1: Gpr,
    tmp2: Gpr,
    targets: &Vec<Label>,
    default_target: Label,
)
    requires
        frame.fits(),
        4 * targets@.len() <= u32::MAX,
    ensures
        final(sink)@ == old(sink)@ + jmp_table_seq(
            *frame,
            idx,
            tmp1,
            tmp2,
            targets@,
            default_target,
        ),
{
    // Load base address of jump table.
    let start_of_jumptable = sink.get_label(0);
    sink.emit(Built::Lea { addr: Amode::RipRelative { target: start_of_jumptable }, dst: tmp1 });
    // Load value out of the jump table. It is a relative offset to the target,
    // so it might be negative.
    sink.emit(
        Built::MovsxLQ {
            src: RegMem::Mem {
                addr: Amode::ImmRegRegShift {
                    simm32: 0,
                    base: tmp1,
                    index: idx,
                    shift: 2,
                    flags: 0,
                },
            },
            dst: tmp2,
        },
    );
    // Add base of jump table to jump-table-sourced block offset.
    crate::x64::emit_basic::emit_asm_rr(
        sink,
        frame,
        AsmOp::AddqRm,
        Reg::Gpr(tmp1),
        Reg::Gpr(tmp2),
    );
    // Branch to computed address.
    sink.emit(Built::JmpUnknown { target: RegMem::Reg { reg: Reg::Gpr(tmp1) } });
    sink.bind_label(start_of_jumptable);
    let ghost before = sink@;
    // Emit jump table (table of 32-bit offsets).
    let ghost all = targets@.push(default_target);
    for i in 0..targets.len()
        invariant
            4 * targets@.len() <= u32::MAX,
            all == targets@.push(default_target),
            sink@ == before + table_words(all.take(i as int)),
    {
        sink.use_label(0, targets[i], LabelUse::PCRel32);
        sink.put4(4 * (i as u32));
        assert(all.take(i + 1).drop_last() =~= all.take(i as int));
        assert(all.take(i + 1).last() == targets@[i as int]);
    }
    sink.use_label(0, default_target, LabelUse::PCRel32);
    sink.put4(4 * (targets.len() as u32));
    assert(all.drop_last() =~= all.take(targets@.len() as int));
}

/// A trap if the condition holds.
pub open spec fn trap_if(cc: CC, code: TrapCode) -> Seq<Step> {
    let trap = Label::Local(0);
    seq![Step::DeferTrap { label: trap, code }] + crate::x64::emit_basic::jump_if(cc, trap)
}

/// Emits a trap if the condition holds.
pub fn emit_trap_if(sink: &mut Sink, cc: CC, trap_code: TrapCode)
    ensures
        final(sink)@ == old(sink)@ + trap_if(cc, trap_code),
{
    let trap_label = sink.defer_trap(0, trap_code);
    one_way_jmp(sink, cc, trap_label);
}

/// A trap if both conditions hold.
pub open spec fn trap_if_and(cc1: CC, cc2: CC, code: TrapCode) -> Seq<Step> {
    let trap = Label::Local(0);
    let end = Label::Local(1);
    seq![Step::DeferTrap { label: trap, code }, Step::GetLabel { label: end }]
        + crate::x64::emit_basic::jump_if(cc1.inverse(), end) + crate::x64::emit_basic::jump_if(
        cc2,
        trap,
    ) + seq![Step::BindLabel { label: end }]
}

/// Emits a trap if both conditions hold.
pub fn emit_trap_if_and(sink: &mut Sink, cc1: CC, cc2: CC, trap_code: TrapCode)
    ensures
        final(sink)@ == old(sink)@ + trap_if_and(cc1, cc2, trap_code),
{
    let trap_label = sink.defer_trap(0, trap_code);
    let else_label = sink.get_label(1);
    // Jump to the end if the first condition isn't true, and then if the second
    // condition is true go to the trap.
    one_way_jmp(sink, cc1.invert(), else_label);
    one_way_jmp(sink, cc2, trap_label);
    sink.bind_label(else_label);
}

/// A trap if either condition holds.
pub open spec fn trap_if_or(cc1: CC, cc2: CC, code: TrapCode) -> Seq<Step> {
    let trap = Label::Local(0);
    seq![Step::DeferTrap { label: trap, code }] + crate::x64::emit_basic::jump_if(cc1, trap)
        + crate::x64::emit_basic::jump_if(cc2, trap)
}

/// Emits a trap if either condition holds.
pub fn emit_trap_if_or(sink: &mut Sink, cc1: CC, cc2: CC, trap_code: TrapCode)
    ensures
        final(sink)@ == old(sink)@ + trap_if_or(cc1, cc2, trap_code),
{
    let trap_label = sink.defer_trap(0, trap_code);
    // Emit two jumps to the same trap if either condition code is true.
    one_way_jmp(sink, cc1, trap_label);
    one_way_jmp(sink, cc2, trap_label);
}

/// The general purpose registers among `all` that are not in use, in order.
pub open spec fn unused_gprs(all: Seq<Reg>, used: Seq<Gpr>) -> Seq<Gpr>
    decreases all.len(),
{
    if all.len() == 0 {
        seq![]
    } else {
        let rest = unused_gprs(all.drop_last(), used);
        match all.last() {
            Reg::Gpr(r) if !used.contains(r) => rest.push(r),
            _ => rest,
        }
    }
}

/// Finds the general purpose registers among `all` that are not one of the four.
pub(crate) fn find_unused_gprs(all: &Vec<Reg>, a: Gpr, b: Gpr, c: Gpr, d: Gpr) -> (r: Vec<Gpr>)
    ensures
        r@ == unused_gprs(all@, seq![a, b, c, d]),
{
    let ghost used = seq![a, b, c, d];
    let mut r: Vec<Gpr> = Vec::new();
    for i in 0..all.len()
        invariant
            used == seq![a, b, c, d],
            r@ == unused_gprs(all@.take(i as int), used),
    {
        assert(all@.take(i + 1).drop_last() =~= all@.take(i as int));
        assert(used[0] == a && used[1] == b && used[2] == c && used[3] == d);
        if let Reg::Gpr(reg) = all[i] {
            if reg != a && reg != b && reg != c && reg != d {
                assert(!used.contains(reg));
                r.push(reg);
            }
        }
    }
    assert(all@.take(all@.len() as int) =~= all@);
    r
}

/// Loads a register from one context and stores the value it had in another,
/// which may be the same.
pub open spec fn exchange(
    frame: FrameLayout,
    load: Gpr,
    store: Gpr,
    tmp: Gpr,
    offset: i32,
    reg: Gpr,
) -> Seq<Step> {
    seq![
        load_from(frame, load, tmp, offset),
        crate::x64::emit_basic::mov_rm(OperandSize::Size64, reg, Amode::at(offset, store)),
        crate::x64::emit_basic::mov_rr(OperandSize::Size64, tmp, reg),
    ]
}

/// A load of 64 bits.
pub open spec fn load_from(frame: FrameLayout, base: Gpr, dst: Gpr, offset: i32) -> Step {
    Step::Asm {
        inst: AsmInst::Op {
            op: AsmOp::MovqRm,
            dst: Reg::Gpr(dst),
            src: AsmSrc::Mem(Amode::at(offset, base)),
        },
        offsets: frame.offsets(),
    }
}

fn emit_load_from(sink: &mut Sink, frame: &FrameLayout, base: Gpr, dst: Gpr, offset: i32)
    requires
        frame.fits(),
    ensures
        final(sink)@ == old(sink)@.push(load_from(*frame, base, dst, offset)),
{
    emit_external(
        sink,
        frame,
        AsmInst::Op {
            op: AsmOp::MovqRm,
            dst: Reg::Gpr(dst),
            src: AsmSrc::Mem(Amode::imm_reg(offset, base)),
        },
    );
}

fn emit_exchange(
    sink: &mut Sink,
    frame: &FrameLayout,
    load: Gpr,
    store: Gpr,
    tmp: Gpr,
    offset: i32,
    reg: Gpr,
)
    requires
        frame.fits(),
    ensures
        final(sink)@ == old(sink)@ + exchange(*frame, load, store, tmp, offset, reg),
{
    emit_load_from(sink, frame, load, tmp, offset);
    emit_mov_rm(sink, OperandSize::Size64, reg, Amode::imm_reg(offset, store));
    emit_mov_rr(sink, OperandSize::Size64, tmp, reg);
}

/// A switch of stacks: the stack pointer, the frame pointer and the place of
/// execution are loaded from one context, and those of this stack are stored in
/// another. Whoever switches back comes to the place behind the instruction.
pub open spec fn stack_switch(
    frame: FrameLayout,
    layout: ControlContextLayout,
    load: Gpr,
    store: Gpr,
    tmp1: Gpr,
    tmp2: Gpr,
) -> Seq<Step> {
    let resume = Label::Local(0);
    seq![Step::GetLabel { label: resume }] + exchange(
        frame,
        load,
        store,
        tmp1,
        layout.stack_pointer_offset,
        crate::x64::args::rsp(),
    ) + exchange(
        frame,
        load,
        store,
        tmp1,
        layout.frame_pointer_offset,
        crate::x64::args::rbp(),
    ) + seq![
        load_from(frame, load, tmp1, layout.ip_offset),
        Step::Emit(Built::Lea { addr: Amode::RipRelative { target: resume }, dst: tmp2 }),
        crate::x64::emit_basic::mov_rm(
            OperandSize::Size64,
            tmp2,
            Amode::at(layout.ip_offset, store),
        ),
        indirect(4, RegMem::Reg { reg: Reg::Gpr(tmp1) }),
        Step::BindLabel { label: resume },
    ]
}

/// The switch of stacks with the registers that it may use: the first two that
/// hold none of its operands.
pub open spec fn stack_switch_basic(
    all_clobbers: Seq<Reg>,
    layout: ControlContextLayout,
    frame: FrameLayout,
    store: Gpr,
    load: Gpr,
    in_payload0: Gpr,
    out_payload0: Gpr,
) -> Seq<Step> {
    let tmps = unused_gprs(all_clobbers, seq![load, store, in_payload0, out_payload0]);
    stack_switch(frame, layout, load, store, tmps[0], tmps[1])
}

/// Emits a switch of stacks.
///
/// Ordinary registers are not kept: the instruction is marked as changing all
/// of them. The payload is passed in a fixed register.
pub fn emit_stack_switch_basic(
    sink: &mut Sink,
    info: &EmitInfo,
    frame: &FrameLayout,
    store_context_ptr: Gpr,
    load_context_ptr: Gpr,
    in_payload0: Gpr,
    out_payload0: Gpr,
)
    requires
        frame.fits(),
        unused_gprs(
            info.all_clobbers@,
            seq![load_context_ptr, store_context_ptr, in_payload0, out_payload0],
        ).len() >= 2,
    ensures
        final(sink)@ == old(sink)@ + stack_switch_basic(
            info.all_clobbers@,
            info.control_context_layout,
            *frame,
            store_context_ptr,
            load_context_ptr,
            in_payload0,
            out_payload0,
        ),
{
    // Since the instruction changes all registers, any register that is not
    // assigned to an operand can be used.
    let tmps = find_unused_gprs(
        &info.all_clobbers,
        load_context_ptr,
        store_context_ptr,
        in_payload0,
        out_payload0,
    );
    let tmp1 = tmps[0];
    let tmp2 = tmps[1];
    let layout = info.control_context_layout;
    // Where someone who switches back to this stack will jump to.
    let resume = sink.get_label(0);
    emit_exchange(
        sink,
        frame,
        load_context_ptr,
        store_context_ptr,
        tmp1,
        layout.stack_pointer_offset,
        crate::x64::args::rsp(),
    );
    emit_exchange(
        sink,
        frame,
        load_context_ptr,
        store_context_ptr,
        tmp1,
        layout.frame_pointer_offset,
        crate::x64::args::rbp(),
    );
    // Load target PC, store resume PC, jump to target PC
    emit_load_from(sink, frame, load_context_ptr, tmp1, layout.ip_offset);
    sink.emit(Built::Lea { addr: Amode::RipRelative { target: resume }, dst: tmp2 });
    emit_mov_rm(
        sink,
        OperandSize::Size64,
        tmp2,
        Amode::imm_reg(layout.ip_offset, store_context_ptr),
    );
    emit_jmp_unknown(sink, RegMem::Reg { reg: Reg::Gpr(tmp1) });
    sink.bind_label(resume);
}

} // verus!
