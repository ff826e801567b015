//! The labels that an instruction obtains for itself: each is obtained before
//! anything refers to it, and is bound once.

use crate::x64::args::{
    Amode, Atomic128RmwSeqOp, AtomicRmwSeqOp, ExternalName, Gpr, Label, OperandSize, RegMem,
    RelocDistance, TrapCode, Type, Xmm, CC,
};
use crate::x64::inst::{
    CallInfo, ControlContextLayout, EmitInfo, EmitState, FrameLayout, Inst, ReturnCallInfo,
};
use crate::x64::sink::{Built, Step};
use vstd::prelude::*;

verus! {

/// What has become of a label so far.
pub enum Life {
    /// Nothing has mentioned it.
    Unknown,
    /// It was obtained, and is not bound yet.
    Open,
    /// It was obtained and bound, or is bound by the code for deferred traps.
    Done,
    /// It was obtained or bound twice, or mentioned before it was obtained.
    Broken,
}

/// Whether a step jumps to a label or takes its address.
pub open spec fn refers(step: Step, label: Label) -> bool {
    match step {
        Step::UseLabel { label: l, .. } => l == label,
        Step::AddUncondBranch { label: l, .. } => l == label,
        Step::AddCondBranch { label: l, .. } => l == label,
        Step::Emit(Built::JmpKnown { label: l }) => l == label,
        Step::Emit(Built::Lea { addr: Amode::RipRelative { target }, .. }) => target == label,
        _ => false,
    }
}

/// What becomes of a label with one more step.
pub open spec fn next(life: Life, step: Step, label: Label) -> Life {
    if step == (Step::GetLabel { label }) {
        if life is Unknown {
            Life::Open
        } else {
            Life::Broken
        }
    } else if step is DeferTrap && step->DeferTrap_label == label {
        if life is Unknown {
            Life::Done
        } else {
            Life::Broken
        }
    } else if step == (Step::BindLabel { label }) {
        if life is Open {
            Life::Done
        } else {
            Life::Broken
        }
    } else if refers(step, label) && life is Unknown {
        Life::Broken
    } else {
        life
    }
}

/// What has become of a label after the first `n` steps, if it was `start`
/// before them.
pub open spec fn life(start: Life, steps: Seq<Step>, n: nat, label: Label) -> Life
    decreases n,
{
    if n == 0 {
        start
    } else {
        next(life(start, steps, (n - 1) as nat, label), steps[n - 1], label)
    }
}

/// What has become of a label after all steps, if nothing mentioned it before.
pub open spec fn outcome(steps: Seq<Step>, label: Label) -> Life {
    life(Life::Unknown, steps, steps.len(), label)
}

/// Whether steps leave a label alone, or obtain it, use it and bind it once.
pub open spec fn settled(steps: Seq<Step>, label: Label) -> bool {
    outcome(steps, label) is Unknown || outcome(steps, label) is Done
}

/// The labels that an instruction is given are none of those that it obtains.
pub open spec fn labels_are_given(inst: Inst) -> bool {
    match inst {
        Inst::CallKnown { info } => {
            info.try_call_info matches Some(try_call) ==> try_call.continuation is Given
        },
        Inst::CallUnknown { info } => {
            info.try_call_info matches Some(try_call) ==> try_call.continuation is Given
        },
        Inst::JmpKnown { dst } => dst is Given,
        Inst::WinchJmpIf { taken, .. } => taken is Given,
        Inst::JmpCond { taken, not_taken, .. } => taken is Given && not_taken is Given,
        Inst::JmpCondOr { taken, not_taken, .. } => taken is Given && not_taken is Given,
        Inst::JmpTableSeq { targets, default_target, .. } => {
            &&& default_target is Given
            &&& forall|i: int| 0 <= i < targets@.len() ==> #[trigger] targets@[i] is Given
        },
        _ => true,
    }
}

/// Steps that do not mention a label change nothing of it.
proof fn lemma_unmentioned(start: Life, steps: Seq<Step>, n: nat, label: Label)
    requires
        n <= steps.len(),
        forall|i: int|
            0 <= i < n ==> forall|l: Life| #[trigger] next(l, #[trigger] steps[i], label) == l,
    ensures
        life(start, steps, n, label) == start,
    decreases n,
{
    if n > 0 {
        lemma_unmentioned(start, steps, (n - 1) as nat, label);
    }
}

/// The first steps of two lists decide alone what comes after them.
proof fn lemma_first_steps(start: Life, a: Seq<Step>, b: Seq<Step>, n: nat, label: Label)
    requires
        n <= a.len(),
    ensures
        life(start, a + b, n, label) == life(start, a, n, label),
    decreases n,
{
    if n > 0 {
        lemma_first_steps(start, a, b, (n - 1) as nat, label);
    }
}

/// Steps go on where the steps before them stopped.
proof fn lemma_one_after_the_other(start: Life, a: Seq<Step>, b: Seq<Step>, n: nat, label: Label)
    requires
        n <= b.len(),
    ensures
        life(start, a + b, a.len() + n, label) == life(
            life(start, a, a.len(), label),
            b,
            n,
            label,
        ),
    decreases n,
{
    if n == 0 {
        lemma_first_steps(start, a, b, a.len(), label);
    } else {
        lemma_one_after_the_other(start, a, b, (n - 1) as nat, label);
    }
}

proof fn lemma_checked_srem(
    frame: FrameLayout,
    size: OperandSize,
    divisor: Gpr,
    dst: Gpr,
    n: u8,
)
    ensures
        settled(
            crate::x64::emit_convert::checked_srem(frame, size, divisor, dst),
            Label::Local(n),
        ),
{
    reveal_with_fuel(life, 13);
}

proof fn lemma_xmm_min_max(
    frame: FrameLayout,
    size: OperandSize,
    is_min: bool,
    lhs: Xmm,
    dst: Xmm,
    n: u8,
)
    ensures
        settled(
            crate::x64::emit_convert::xmm_min_max(frame, size, is_min, lhs, dst),
            Label::Local(n),
        ),
{
    reveal_with_fuel(life, 24);
}

proof fn lemma_cvt_uint64_to_float(
    frame: FrameLayout,
    dst_size: OperandSize,
    src: Gpr,
    dst: Xmm,
    tmp_gpr1: Gpr,
    tmp_gpr2: Gpr,
    n: u8,
)
    ensures
        settled(
            crate::x64::emit_convert::cvt_uint64_to_float(
                frame,
                dst_size,
                src,
                dst,
                tmp_gpr1,
                tmp_gpr2,
            ),
            Label::Local(n),
        ),
{
    reveal_with_fuel(life, 19);
}

#[verifier::rlimit(60)]
proof fn lemma_cvt_float_to_sint(
    frame: FrameLayout,
    src_size: OperandSize,
    dst_size: OperandSize,
    is_saturating: bool,
    src: Xmm,
    dst: Gpr,
    tmp_gpr: Gpr,
    tmp_xmm: Xmm,
    n: u8,
)
    ensures
        settled(
            crate::x64::emit_convert::cvt_float_to_sint(
                frame,
                src_size,
                dst_size,
                is_saturating,
                src,
                dst,
                tmp_gpr,
                tmp_xmm,
            ),
            Label::Local(n),
        ),
{
    if is_saturating {
        reveal_with_fuel(life, 25);
    } else {
        reveal_with_fuel(life, 18);
    }
}

/// The beginning of the conversion leaves the end and the case of large floats
/// open.
proof fn lemma_uint_start(
    frame: FrameLayout,
    src_size: OperandSize,
    dst_size: OperandSize,
    is_saturating: bool,
    src: Xmm,
    dst: Gpr,
    tmp_gpr: Gpr,
    tmp_xmm: Xmm,
    n: u8,
)
    ensures
        outcome(
            crate::x64::emit_convert::uint_start(
                frame,
                src_size,
                dst_size,
                is_saturating,
                src,
                dst,
                tmp_gpr,
                tmp_xmm,
            ),
            Label::Local(n),
        ) == (if n == 0 || n == 1 {
            Life::Open
        } else if n == 2 && is_saturating {
            Life::Done
        } else {
            Life::Unknown
        }),
{
    reveal_with_fuel(life, 19);
}

/// The conversion of small floats refers to the end.
proof fn lemma_uint_small(
    start: Life,
    frame: FrameLayout,
    src_size: OperandSize,
    dst_size: OperandSize,
    is_saturating: bool,
    src: Xmm,
    dst: Gpr,
    n: u8,
)
    requires
        n == 0 ==> start is Open,
    ensures
        ({
            let steps = crate::x64::emit_convert::uint_small(
                frame,
                src_size,
                dst_size,
                is_saturating,
                src,
                dst,
            );
            life(start, steps, steps.len(), Label::Local(n)) == start
        }),
{
    reveal_with_fuel(life, 9);
}

/// The conversion of large floats refers to the end, and binds its own labels.
proof fn lemma_uint_large(
    start: Life,
    frame: FrameLayout,
    src_size: OperandSize,
    dst_size: OperandSize,
    is_saturating: bool,
    src: Xmm,
    dst: Gpr,
    tmp_xmm: Xmm,
    tmp_xmm2: Xmm,
    n: u8,
)
    requires
        n == 0 || n == 1 ==> start is Open,
        n == 3 ==> start is Unknown,
    ensures
        ({
            let steps = crate::x64::emit_convert::uint_large(
                frame,
                src_size,
                dst_size,
                is_saturating,
                src,
                dst,
                tmp_xmm,
                tmp_xmm2,
            );
            life(start, steps, steps.len(), Label::Local(n)) == (if n == 1 || n == 3
                && is_saturating {
                Life::Done
            } else {
                start
            })
        }),
{
    reveal_with_fuel(life, 15);
}

/// The end of the conversion is bound last.
proof fn lemma_uint_end(
    start: Life,
    frame: FrameLayout,
    dst_size: OperandSize,
    dst: Gpr,
    tmp_gpr: Gpr,
    n: u8,
)
    requires
        n == 0 ==> start is Open,
    ensures
        ({
            let steps = crate::x64::emit_convert::uint_end(frame, dst_size, dst, tmp_gpr);
            life(start, steps, steps.len(), Label::Local(n)) == (if n == 0 {
                Life::Done
            } else {
                start
            })
        }),
{
    reveal_with_fuel(life, 5);
}

proof fn lemma_cvt_float_to_uint(
    frame: FrameLayout,
    src_size: OperandSize,
    dst_size: OperandSize,
    is_saturating: bool,
    src: Xmm,
    dst: Gpr,
    tmp_gpr: Gpr,
    tmp_xmm: Xmm,
    tmp_xmm2: Xmm,
    n: u8,
)
    ensures
        settled(
            crate::x64::emit_convert::cvt_float_to_uint(
                frame,
                src_size,
                dst_size,
                is_saturating,
                src,
                dst,
                tmp_gpr,
                tmp_xmm,
                tmp_xmm2,
            ),
            Label::Local(n),
        ),
{
    let label = Label::Local(n);
    let start = crate::x64::emit_convert::uint_start(
        frame,
        src_size,
        dst_size,
        is_saturating,
        src,
        dst,
        tmp_gpr,
        tmp_xmm,
    );
    let small = crate::x64::emit_convert::uint_small(
        frame,
        src_size,
        dst_size,
        is_saturating,
        src,
        dst,
    );
    let large = crate::x64::emit_convert::uint_large(
        frame,
        src_size,
        dst_size,
        is_saturating,
        src,
        dst,
        tmp_xmm,
        tmp_xmm2,
    );
    let end = crate::x64::emit_convert::uint_end(frame, dst_size, dst, tmp_gpr);
    let life1 = outcome(start, label);
    lemma_uint_start(
        frame,
        src_size,
        dst_size,
        is_saturating,
        src,
        dst,
        tmp_gpr,
        tmp_xmm,
        n,
    );
    lemma_uint_small(life1, frame, src_size, dst_size, is_saturating, src, dst, n);
    lemma_one_after_the_other(Life::Unknown, start, small, small.len(), label);
    let life2 = outcome(start + small, label);
    lemma_uint_large(
        life2,
        frame,
        src_size,
        dst_size,
        is_saturating,
        src,
        dst,
        tmp_xmm,
        tmp_xmm2,
        n,
    );
    lemma_one_after_the_other(Life::Unknown, start + small, large, large.len(), label);
    let life3 = outcome(start + small + large, label);
    lemma_uint_end(life3, frame, dst_size, dst, tmp_gpr, n);
    lemma_one_after_the_other(Life::Unknown, start + small + large, end, end.len(), label);
}

proof fn lemma_xmm_cmove(ty: Type, cc: CC, consequent: Xmm, dst: Xmm, n: u8)
    ensures
        settled(
            crate::x64::emit_basic::xmm_cmove(ty, cc, consequent, dst),
            Label::Local(n),
        ),
{
    reveal_with_fuel(life, 8);
}

proof fn lemma_stack_probe_loop(tmp: Gpr, frame_size: u32, guard_size: u32, n: u8)
    ensures
        settled(
            crate::x64::emit_flow::stack_probe_loop(tmp, frame_size, guard_size),
            Label::Local(n),
        ),
{
    reveal_with_fuel(life, 13);
}

proof fn lemma_call_known(state: EmitState, info: CallInfo<ExternalName>, n: u8)
    requires
        info.try_call_info matches Some(try_call) ==> try_call.continuation is Given,
    ensures
        settled(crate::x64::emit_flow::call_known(state, info), Label::Local(n)),
{
    reveal_with_fuel(life, 12);
}

proof fn lemma_call_unknown(state: EmitState, info: CallInfo<RegMem>, n: u8)
    requires
        info.try_call_info matches Some(try_call) ==> try_call.continuation is Given,
    ensures
        settled(crate::x64::emit_flow::call_unknown(state, info), Label::Local(n)),
{
    reveal_with_fuel(life, 10);
}

proof fn lemma_return_call_known(frame: FrameLayout, info: ReturnCallInfo<ExternalName>, n: u8)
    ensures
        settled(crate::x64::emit_flow::return_call_known(frame, info), Label::Local(n)),
{
    reveal_with_fuel(life, 10);
}

proof fn lemma_return_call_unknown(frame: FrameLayout, info: ReturnCallInfo<Gpr>, n: u8)
    ensures
        settled(crate::x64::emit_flow::return_call_unknown(frame, info), Label::Local(n)),
{
    reveal_with_fuel(life, 8);
}

proof fn lemma_jmp_cond(cc: CC, taken: Label, not_taken: Label, n: u8)
    requires
        taken is Given,
        not_taken is Given,
    ensures
        settled(crate::x64::emit_flow::jmp_cond(cc, taken, not_taken), Label::Local(n)),
{
    reveal_with_fuel(life, 10);
}

proof fn lemma_jmp_cond_or(cc1: CC, cc2: CC, taken: Label, not_taken: Label, n: u8)
    requires
        taken is Given,
        not_taken is Given,
    ensures
        settled(crate::x64::emit_flow::jmp_cond_or(cc1, cc2, taken, not_taken), Label::Local(n)),
{
    reveal_with_fuel(life, 15);
}

proof fn lemma_trap_if(cc: CC, code: TrapCode, n: u8)
    ensures
        settled(crate::x64::emit_flow::trap_if(cc, code), Label::Local(n)),
{
    reveal_with_fuel(life, 6);
}

proof fn lemma_trap_if_and(cc1: CC, cc2: CC, code: TrapCode, n: u8)
    ensures
        settled(crate::x64::emit_flow::trap_if_and(cc1, cc2, code), Label::Local(n)),
{
    reveal_with_fuel(life, 12);
}

proof fn lemma_trap_if_or(cc1: CC, cc2: CC, code: TrapCode, n: u8)
    ensures
        settled(crate::x64::emit_flow::trap_if_or(cc1, cc2, code), Label::Local(n)),
{
    reveal_with_fuel(life, 10);
}

proof fn lemma_stack_switch(
    frame: FrameLayout,
    layout: ControlContextLayout,
    load: Gpr,
    store: Gpr,
    tmp1: Gpr,
    tmp2: Gpr,
    n: u8,
)
    ensures
        settled(
            crate::x64::emit_flow::stack_switch(frame, layout, load, store, tmp1, tmp2),
            Label::Local(n),
        ),
{
    reveal_with_fuel(life, 13);
}

/// The words of a jump table refer to its targets only.
proof fn lemma_table_words(start: Life, targets: Seq<Label>, n: u8)
    requires
        forall|i: int| 0 <= i < targets.len() ==> #[trigger] targets[i] is Given,
    ensures
        ({
            let words = crate::x64::emit_flow::table_words(targets);
            life(start, words, words.len(), Label::Local(n)) == start
        }),
    decreases targets.len(),
{
    reveal_with_fuel(life, 3);
    if targets.len() > 0 {
        let label = Label::Local(n);
        let before = targets.drop_last();
        assert forall|i: int| 0 <= i < before.len() implies #[trigger] before[i] is Given by {
            assert(before[i] == targets[i]);
        }
        lemma_table_words(start, before, n);
        let last = seq![
            Step::UseLabel {
                ahead: 0,
                label: targets.last(),
                usage: crate::x64::args::LabelUse::PCRel32,
            },
            Step::Put4((4 * (targets.len() - 1)) as u32),
        ];
        lemma_one_after_the_other(
            start,
            crate::x64::emit_flow::table_words(before),
            last,
            2,
            label,
        );
        assert(targets[targets.len() - 1] is Given);
    }
}

proof fn lemma_jmp_table_seq(
    frame: FrameLayout,
    idx: Gpr,
    tmp1: Gpr,
    tmp2: Gpr,
    targets: Seq<Label>,
    default_target: Label,
    n: u8,
)
    requires
        default_target is Given,
        forall|i: int| 0 <= i < targets.len() ==> #[trigger] targets[i] is Given,
    ensures
        settled(
            crate::x64::emit_flow::jmp_table_seq(frame, idx, tmp1, tmp2, targets, default_target),
            Label::Local(n),
        ),
{
    let steps = crate::x64::emit_flow::jmp_table_seq(
        frame,
        idx,
        tmp1,
        tmp2,
        targets,
        default_target,
    );
    let words = crate::x64::emit_flow::table_words(targets.push(default_target));
    let jump = steps.take(6);
    assert(steps =~= jump + words);
    lemma_one_after_the_other(Life::Unknown, jump, words, words.len(), Label::Local(n));
    reveal_with_fuel(life, 7);
    lemma_table_words(outcome(jump, Label::Local(n)), targets.push(default_target), n);
}

proof fn lemma_atomic_rmw_seq(
    frame: FrameLayout,
    ty: Type,
    op: AtomicRmwSeqOp,
    mem: Amode,
    operand: Gpr,
    temp: Gpr,
    dst_old: Gpr,
    n: u8,
)
    ensures
        settled(
            crate::x64::emit_atomic::atomic_rmw_seq(frame, ty, op, mem, operand, temp, dst_old),
            Label::Local(n),
        ),
{
    reveal_with_fuel(life, 12);
}

proof fn lemma_atomic128_rmw_seq(
    frame: FrameLayout,
    op: Atomic128RmwSeqOp,
    mem: Amode,
    operand: (Gpr, Gpr),
    temp: (Gpr, Gpr),
    dst_old: (Gpr, Gpr),
    n: u8,
)
    ensures
        settled(
            crate::x64::emit_atomic::atomic128_rmw_seq(frame, op, mem, operand, temp, dst_old),
            Label::Local(n),
        ),
{
    reveal_with_fuel(life, 17);
}

proof fn lemma_atomic128_xchg_seq(mem: Amode, dst_old: (Gpr, Gpr), n: u8)
    ensures
        settled(
            crate::x64::emit_atomic::atomic128_xchg_seq(mem, dst_old),
            Label::Local(n),
        ),
{
    reveal_with_fuel(life, 10);
}

proof fn lemma_scalar(inst: Inst, info: EmitInfo, state: EmitState, n: u8)
    requires
        crate::x64::emit::is_scalar(inst),
    ensures
        settled(crate::x64::emit::listing(inst, info, state), Label::Local(n)),
{
    match inst {
        Inst::CheckedSRemSeq { size, divisor, .. } => {
            lemma_checked_srem(
                state.frame_layout,
                size,
                divisor,
                crate::x64::args::rdx(),
                n,
            );
        },
        Inst::CheckedSRemSeq8 { divisor, .. } => {
            lemma_checked_srem(
                state.frame_layout,
                OperandSize::Size8,
                divisor,
                crate::x64::args::rax(),
                n,
            );
        },
        Inst::XmmCmove { ty, cc, consequent, dst, .. } => {
            lemma_xmm_cmove(ty, cc, consequent, dst, n);
        },
        _ => {
            reveal_with_fuel(life, 4);
        },
    }
}

/// Calls, returns and changes of the stack.
spec fn is_call(inst: Inst) -> bool {
    match inst {
        Inst::StackProbeLoop { .. }
        | Inst::CallKnown { .. }
        | Inst::CallUnknown { .. }
        | Inst::ReturnCallKnown { .. }
        | Inst::ReturnCallUnknown { .. }
        | Inst::Ret { .. }
        | Inst::StackSwitchBasic { .. } => true,
        _ => false,
    }
}

proof fn lemma_call(inst: Inst, info: EmitInfo, state: EmitState, n: u8)
    requires
        is_call(inst),
        labels_are_given(inst),
    ensures
        settled(crate::x64::emit::listing(inst, info, state), Label::Local(n)),
{
    match inst {
        Inst::StackProbeLoop { tmp, frame_size, guard_size } => {
            lemma_stack_probe_loop(tmp, frame_size, guard_size, n);
        },
        Inst::CallKnown { info: call } => {
            lemma_call_known(state, call, n);
        },
        Inst::CallUnknown { info: call } => {
            lemma_call_unknown(state, call, n);
        },
        Inst::StackSwitchBasic {
            store_context_ptr,
            load_context_ptr,
            in_payload0,
            out_payload0,
        } => {
            let tmps = crate::x64::emit_flow::unused_gprs(
                info.all_clobbers@,
                seq![load_context_ptr, store_context_ptr, in_payload0, out_payload0],
            );
            lemma_stack_switch(
                state.frame_layout,
                info.control_context_layout,
                load_context_ptr,
                store_context_ptr,
                tmps[0],
                tmps[1],
                n,
            );
        },
        Inst::ReturnCallKnown { info: call } => {
            lemma_return_call_known(state.frame_layout, call, n);
        },
        Inst::ReturnCallUnknown { info: call } => {
            lemma_return_call_unknown(state.frame_layout, call, n);
        },
        _ => {
            reveal_with_fuel(life, 5);
        },
    }
}

proof fn lemma_jump(inst: Inst, info: EmitInfo, state: EmitState, n: u8)
    requires
        crate::x64::emit::is_control(inst),
        !is_call(inst),
        labels_are_given(inst),
    ensures
        settled(crate::x64::emit::listing(inst, info, state), Label::Local(n)),
{
    match inst {
        Inst::JmpTableSeq { idx, tmp1, tmp2, targets, default_target } => {
            lemma_jmp_table_seq(
                state.frame_layout,
                idx,
                tmp1,
                tmp2,
                targets@,
                default_target,
                n,
            );
        },
        Inst::JmpCond { cc, taken, not_taken } => {
            lemma_jmp_cond(cc, taken, not_taken, n);
        },
        Inst::JmpCondOr { cc1, cc2, taken, not_taken } => {
            lemma_jmp_cond_or(cc1, cc2, taken, not_taken, n);
        },
        Inst::TrapIf { cc, trap_code } => {
            lemma_trap_if(cc, trap_code, n);
        },
        Inst::TrapIfAnd { cc1, cc2, trap_code } => {
            lemma_trap_if_and(cc1, cc2, trap_code, n);
        },
        Inst::TrapIfOr { cc1, cc2, trap_code } => {
            lemma_trap_if_or(cc1, cc2, trap_code, n);
        },
        _ => {
            reveal_with_fuel(life, 5);
        },
    }
}

proof fn lemma_vector(inst: Inst, info: EmitInfo, state: EmitState, n: u8)
    requires
        crate::x64::emit::is_sse(inst) || crate::x64::emit::is_vex(inst),
    ensures
        settled(crate::x64::emit::listing(inst, info, state), Label::Local(n)),
{
    reveal_with_fuel(life, 4);
}

proof fn lemma_sequence(inst: Inst, info: EmitInfo, state: EmitState, n: u8)
    requires
        crate::x64::emit::is_sequence(inst),
    ensures
        settled(crate::x64::emit::listing(inst, info, state), Label::Local(n)),
{
    let frame = state.frame_layout;
    match inst {
        Inst::XmmMinMaxSeq { size, is_min, lhs, dst, .. } => {
            lemma_xmm_min_max(frame, size, is_min, lhs, dst, n);
        },
        Inst::CvtUint64ToFloatSeq { dst_size, src, dst, tmp_gpr1, tmp_gpr2 } => {
            lemma_cvt_uint64_to_float(frame, dst_size, src, dst, tmp_gpr1, tmp_gpr2, n);
        },
        Inst::CvtFloatToSintSeq {
            src_size,
            dst_size,
            is_saturating,
            src,
            dst,
            tmp_gpr,
            tmp_xmm,
        } => {
            lemma_cvt_float_to_sint(
                frame,
                src_size,
                dst_size,
                is_saturating,
                src,
                dst,
                tmp_gpr,
                tmp_xmm,
                n,
            );
        },
        Inst::CvtFloatToUintSeq {
            src_size,
            dst_size,
            is_saturating,
            src,
            dst,
            tmp_gpr,
            tmp_xmm,
            tmp_xmm2,
        } => {
            lemma_cvt_float_to_uint(
                frame,
                src_size,
                dst_size,
                is_saturating,
                src,
                dst,
                tmp_gpr,
                tmp_xmm,
                tmp_xmm2,
                n,
            );
        },
        Inst::AtomicRmwSeq { ty, op, mem, operand, temp, dst_old } => {
            lemma_atomic_rmw_seq(frame, ty, op, mem, operand, temp, dst_old, n);
        },
        Inst::Atomic128RmwSeq {
            op,
            mem,
            operand_low,
            operand_high,
            temp_low,
            temp_high,
            dst_old_low,
            dst_old_high,
        } => {
            lemma_atomic128_rmw_seq(
                frame,
                op,
                mem,
                (operand_low, operand_high),
                (temp_low, temp_high),
                (dst_old_low, dst_old_high),
                n,
            );
        },
        Inst::Atomic128XchgSeq { mem, dst_old_low, dst_old_high, .. } => {
            lemma_atomic128_xchg_seq(mem, (dst_old_low, dst_old_high), n);
        },
        _ => {
            reveal_with_fuel(life, 2);
        },
    }
}

/// Bytes mention no label.
proof fn lemma_bytes(b: Seq<u8>, label: Label)
    ensures
        settled(crate::x64::emit_misc::bytes(b), label),
{
    let steps = crate::x64::emit_misc::bytes(b);
    assert forall|i: int| 0 <= i < steps.len() implies (forall|l: Life| #[trigger]
        next(l, #[trigger] steps[i], label) == l) by {
        assert(steps[i] == Step::Put1(b[i]));
    }
    lemma_unmentioned(Life::Unknown, steps, steps.len(), label);
}

proof fn lemma_load_ext_name(
    is_pic: bool,
    dst: Gpr,
    name: ExternalName,
    offset: i64,
    distance: RelocDistance,
    label: Label,
)
    ensures
        settled(
            crate::x64::emit_misc::load_ext_name(is_pic, dst, name, offset, distance),
            label,
        ),
{
    reveal_with_fuel(life, 10);
}

proof fn lemma_tls_get_addr(symbol: ExternalName, label: Label)
    ensures
        settled(crate::x64::emit_misc::elf_tls_get_addr(symbol), label),
        settled(crate::x64::emit_misc::macho_tls_get_addr(symbol), label),
{
    reveal_with_fuel(life, 13);
}

proof fn lemma_coff_tls_get_addr(symbol: ExternalName, label: Label)
    ensures
        settled(crate::x64::emit_misc::coff_tls_get_addr(symbol), label),
{
    reveal_with_fuel(life, 25);
}

proof fn lemma_fixed(inst: Inst, info: EmitInfo, state: EmitState, n: u8)
    requires
        crate::x64::emit::is_fixed(inst),
    ensures
        settled(crate::x64::emit::listing(inst, info, state), Label::Local(n)),
{
    match inst {
        Inst::Nop { len } => {
            lemma_bytes(crate::x64::emit_misc::nop(len as nat), Label::Local(n));
        },
        Inst::LoadExtName { dst, name, offset, distance } => {
            lemma_load_ext_name(info.is_pic, dst, name, offset, distance, Label::Local(n));
        },
        Inst::ElfTlsGetAddr { symbol, .. } => {
            lemma_tls_get_addr(symbol, Label::Local(n));
        },
        Inst::MachOTlsGetAddr { symbol, .. } => {
            lemma_tls_get_addr(symbol, Label::Local(n));
        },
        Inst::CoffTlsGetAddr { symbol, .. } => {
            lemma_coff_tls_get_addr(symbol, Label::Local(n));
        },
        _ => {
            reveal_with_fuel(life, 4);
        },
    }
}

/// Each label that an instruction obtains is obtained once, before anything
/// refers to it, and is bound once; one that it does not obtain it does not
/// mention.
pub proof fn law_labels_are_bound_once(inst: Inst, info: EmitInfo, state: EmitState, n: u8)
    requires
        labels_are_given(inst),
    ensures
        settled(crate::x64::emit::listing(inst, info, state), Label::Local(n)),
{
    if crate::x64::emit::is_scalar(inst) {
        lemma_scalar(inst, info, state, n);
    } else if is_call(inst) {
        lemma_call(inst, info, state, n);
    } else if crate::x64::emit::is_control(inst) {
        lemma_jump(inst, info, state, n);
    } else if crate::x64::emit::is_sse(inst) || crate::x64::emit::is_vex(inst) {
        lemma_vector(inst, info, state, n);
    } else if crate::x64::emit::is_sequence(inst) {
        lemma_sequence(inst, info, state, n);
    } else if crate::x64::emit::is_fixed(inst) {
        lemma_fixed(inst, info, state, n);
    } else {
        reveal_with_fuel(life, 2);
    }
}

} // verus!
