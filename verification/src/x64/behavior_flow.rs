//! What the code for calls, tail calls, jump tables and switches of stacks does.

use crate::x64::args::{
    rbp, rsp, Amode, ExternalName, Gpr, Label, OperandSize, Reg, RegMem, Reloc, Type,
};
use crate::x64::behavior_basic::{
    integer_operand, lemma_low_is_all, lemma_run_one, lemma_run_three, lemma_run_two,
};
use crate::x64::behavior_convert::lemma_run_five;
use crate::x64::inst::{CallInfo, EmitInfo, EmitState, FrameLayout, Inst, ReturnCallInfo};
use crate::x64::machine::{At, Machine};
use crate::x64::sink::{AsmOp, Built, Step};
use vstd::prelude::*;

verus! {

broadcast use {
    crate::x64::machine::group_run,
    crate::x64::machine::group_step,
    crate::x64::machine::group_opcode,
};

/// Where a direct transfer of control goes.
pub enum Transfer {
    Call(ExternalName),
    Jump(ExternalName),
}

/// How the hardware reads a transfer to a symbol: an opcode and the distance from
/// its end, which is filled in. The distance is four bytes long.
pub open spec fn transfer(steps: Seq<Step>) -> Option<Transfer> {
    if steps.len() == 3 && steps[2] == Step::Put4(0) {
        match (steps[0], steps[1]) {
            (
                Step::Put1(opcode),
                Step::AddReloc { kind: Reloc::X86CallPCRel4, name, addend },
            ) => if addend != -4 {
                None
            } else if opcode == 0xE8 {
                Some(Transfer::Call(name))
            } else if opcode == 0xE9 {
                Some(Transfer::Jump(name))
            } else {
                None
            },
            _ => None,
        }
    } else {
        None
    }
}

proof fn lemma_load(s: Machine, frame: FrameLayout, base: Gpr, dst: Gpr, offset: i32)
    requires
        s.at is Here,
        s.pending is Nothing,
    ensures
        crate::x64::machine::step(s, crate::x64::emit_flow::load_from(frame, base, dst, offset))
            == s.set(dst.enc, s.memory[s.address(Amode::at(offset, base))]),
{
    reveal(crate::x64::machine::assembled);
}

/// A store of all bits of a register replaces what was there.
proof fn lemma_store_all(s: Machine, addr: int, src: Gpr)
    ensures
        s.store(
            addr,
            crate::x64::machine::low(s.reg(src), OperandSize::Size64),
            OperandSize::Size64,
        ) == (Machine { memory: s.memory.insert(addr, s.reg(src)), ..s }),
{
    lemma_low_is_all(s.reg(src));
    lemma_low_is_all(s.memory[addr]);
}

proof fn lemma_built_store(s: Machine, src: Gpr, addr: Amode)
    requires
        s.at is Here,
        s.pending is Nothing,
    ensures
        crate::x64::machine::step(
            s,
            Step::Emit(Built::MovRM { size: OperandSize::Size64, src, addr }),
        ) == (Machine { memory: s.memory.insert(s.address(addr), s.reg(src)), ..s }),
{
    reveal(crate::x64::machine::built);
    lemma_store_all(s, s.address(addr), src);
}

proof fn lemma_store(s: Machine, src: Gpr, offset: i32, base: Gpr)
    requires
        s.at is Here,
        s.pending is Nothing,
    ensures
        crate::x64::machine::step(
            s,
            crate::x64::emit_basic::mov_rm(OperandSize::Size64, src, Amode::at(offset, base)),
        ) == (Machine {
            memory: s.memory.insert(s.address(Amode::at(offset, base)), s.reg(src)),
            ..s
        }),
{
    reveal(crate::x64::machine::on_memory);
    lemma_store_all(s, s.address(Amode::at(offset, base)), src);
}

proof fn lemma_move(s: Machine, src: Gpr, dst: Gpr)
    requires
        s.at is Here,
        s.pending is Nothing,
    ensures
        crate::x64::machine::step(
            s,
            crate::x64::emit_basic::mov_rr(OperandSize::Size64, src, dst),
        ) == s.set(dst.enc, s.reg(src)),
{
    reveal(crate::x64::machine::on_registers);
    lemma_low_is_all(s.reg(src));
}

proof fn lemma_adjust(s: Machine, dst: Gpr, imm: i32)
    requires
        s.at is Here,
        s.pending is Nothing,
    ensures
        crate::x64::machine::step(s, Step::Emit(Built::AddqMi { dst, imm })) == s.set(
            dst.enc,
            crate::x64::machine::extended(s.reg(dst) + imm),
        ),
        crate::x64::machine::step(s, Step::Emit(Built::SubqMi { dst, imm })) == s.set(
            dst.enc,
            crate::x64::machine::extended(s.reg(dst) - imm),
        ),
{
    reveal(crate::x64::machine::built);
}

/// The return address, once the frame is taken down, is moved to where the callee
/// expects it.
pub open spec fn with_return_address_moved(s: Machine, by: int) -> Machine {
    let from = s.reg(rsp());
    let to = crate::x64::machine::extended(from + by);
    if by == 0 {
        s
    } else {
        Machine {
            gpr: s.gpr.insert(rsp().enc, to),
            memory: s.memory.insert(to as int, s.memory[from as int]),
            ..s
        }
    }
}

/// Whether two machines agree but for a register.
pub open spec fn agree_but(a: Machine, b: Machine, r: Gpr) -> bool {
    &&& a.at == b.at
    &&& a.pending == b.pending
    &&& a.memory == b.memory
    &&& a.xmm == b.xmm
    &&& forall|n: u8| n != r.enc ==> #[trigger] a.gpr[n] == b.gpr[n]
}

proof fn lemma_return_address(s: Machine, frame: FrameLayout, new_stack_arg_size: u32, tmp: Gpr)
    requires
        crate::x64::machine::ready(s),
        tmp.enc != rsp().enc,
        crate::x64::emit_flow::return_call_ok(true, frame, new_stack_arg_size),
    ensures
        ({
            let steps = crate::x64::emit_flow::return_call_common(frame, new_stack_arg_size, tmp);
            let r = crate::x64::machine::run(s, steps.skip(2));
            &&& steps.len() >= 2
            &&& steps.take(2) == seq![Step::ClobberRestore, Step::EpilogueFrameRestore]
            &&& agree_but(
                r,
                with_return_address_moved(s, frame.tail_args_size - new_stack_arg_size),
                tmp,
            )
        }),
{
    let steps = crate::x64::emit_flow::return_call_common(frame, new_stack_arg_size, tmp);
    let by = (frame.tail_args_size - new_stack_arg_size) as i32;
    let rest = steps.skip(2);
    let moved = with_return_address_moved(s, frame.tail_args_size - new_stack_arg_size);
    assert(steps.take(2) =~= seq![Step::ClobberRestore, Step::EpilogueFrameRestore]);
    if new_stack_arg_size < frame.tail_args_size {
        assert(rest =~= seq![
            crate::x64::emit_flow::load_from(frame, rsp(), tmp, 0),
            Step::Emit(
                Built::MovRM { size: OperandSize::Size64, src: tmp, addr: Amode::at(by, rsp()) },
            ),
            Step::Emit(Built::AddqMi { dst: rsp(), imm: by }),
        ]);
        lemma_run_three(s, rest);
        lemma_load(s, frame, rsp(), tmp, 0);
        lemma_low_is_all(s.reg(rsp()));
        let s1 = crate::x64::machine::step(s, rest[0]);
        assert(s1 == s.set(tmp.enc, s.memory[s.reg(rsp()) as int]));
        lemma_built_store(s1, tmp, Amode::at(by, rsp()));
        let s2 = crate::x64::machine::step(s1, rest[1]);
        lemma_adjust(s2, rsp(), by);
        let r = crate::x64::machine::run(s, rest);
        assert(r.memory =~= moved.memory);
    } else {
        assert(rest =~= Seq::<Step>::empty());
    }
}

/// A tail call of a computed address first takes the frame down. It then moves the
/// return address up by what the arguments of the callee are smaller than those of
/// the caller, and goes to the address.
pub proof fn law_tail_call_of_an_address(
    s: Machine,
    call: ReturnCallInfo<Gpr>,
    info: EmitInfo,
    state: EmitState,
)
    requires
        crate::x64::machine::ready(s),
        call.tmp.enc != rsp().enc,
        call.dest.enc != rsp().enc,
        call.dest.enc != call.tmp.enc,
        crate::x64::emit_flow::return_call_ok(true, state.frame_layout, call.new_stack_arg_size),
    ensures
        ({
            let steps = crate::x64::emit::listing(
                Inst::ReturnCallUnknown { info: call },
                info,
                state,
            );
            let by = state.frame_layout.tail_args_size - call.new_stack_arg_size;
            &&& steps.len() >= 2
            &&& steps.take(2) == seq![Step::ClobberRestore, Step::EpilogueFrameRestore]
            &&& agree_but(
                crate::x64::machine::run(s, steps.skip(2)),
                with_return_address_moved(s, by).go(At::Address(s.reg(call.dest))),
                call.tmp,
            )
        }),
{
    let steps = crate::x64::emit::listing(Inst::ReturnCallUnknown { info: call }, info, state);
    let a = crate::x64::emit_flow::return_call_common(
        state.frame_layout,
        call.new_stack_arg_size,
        call.tmp,
    );
    let b = seq![
        crate::x64::emit_flow::indirect(4, RegMem::Reg { reg: Reg::Gpr(call.dest) }),
        Step::AddCallSite { exception_dests: None },
    ];
    assert(steps == a + b);
    lemma_return_address(s, state.frame_layout, call.new_stack_arg_size, call.tmp);
    assert(steps.take(2) =~= a.take(2));
    assert(steps.skip(2) =~= a.skip(2) + b);
    let s1 = crate::x64::machine::run(s, a.skip(2));
    lemma_run_two(s1, b);
    reveal(crate::x64::machine::on_one_register);
}

/// A tail call of a symbol does the same, and jumps to the symbol.
pub proof fn law_tail_call_of_a_symbol(
    s: Machine,
    call: ReturnCallInfo<ExternalName>,
    info: EmitInfo,
    state: EmitState,
)
    requires
        crate::x64::machine::ready(s),
        call.tmp.enc != rsp().enc,
        crate::x64::emit_flow::return_call_ok(true, state.frame_layout, call.new_stack_arg_size),
    ensures
        ({
            let steps = crate::x64::emit::listing(
                Inst::ReturnCallKnown { info: call },
                info,
                state,
            );
            let n = steps.len() - 4;
            let by = state.frame_layout.tail_args_size - call.new_stack_arg_size;
            &&& n >= 2
            &&& steps.take(2) == seq![Step::ClobberRestore, Step::EpilogueFrameRestore]
            &&& agree_but(
                crate::x64::machine::run(s, steps.subrange(2, n)),
                with_return_address_moved(s, by),
                call.tmp,
            )
            &&& transfer(steps.subrange(n, n + 3)) == Some(Transfer::Jump(call.dest))
            &&& steps.last() == (Step::AddCallSite { exception_dests: None })
        }),
{
    let steps = crate::x64::emit::listing(Inst::ReturnCallKnown { info: call }, info, state);
    let n = steps.len() - 4;
    let a = crate::x64::emit_flow::return_call_common(
        state.frame_layout,
        call.new_stack_arg_size,
        call.tmp,
    );
    lemma_return_address(s, state.frame_layout, call.new_stack_arg_size, call.tmp);
    assert(n == a.len());
    assert(steps.take(2) =~= a.take(2));
    assert(steps.subrange(2, n) =~= a.skip(2));
    let b = steps.subrange(n, n + 3);
    assert(b[0] == Step::Put1(0xE9));
    assert(b[1] == (Step::AddReloc {
        kind: Reloc::X86CallPCRel4,
        name: call.dest,
        addend: -4i64,
    }));
}

/// What follows a call: the call site with where exceptions go, the stack pointer
/// moved down by what the callee released, the loads of the return values, and
/// the jump to where a call that may throw continues.
proof fn lemma_after_call<T>(
    s: Machine,
    call: CallInfo<T>,
    frame: FrameLayout,
    ahead: Seq<Step>,
    steps: Seq<Step>,
)
    requires
        crate::x64::machine::ready(s),
        call.callee_pop_size <= i32::MAX,
        steps == ahead + crate::x64::emit_flow::after_call(
            frame,
            call.defs,
            call.try_call_info,
            call.callee_pop_size,
        ),
    ensures
        goes_on_after_call(s, call, frame, ahead.len() as int, steps),
{
    let k = ahead.len() as int;
    let rest = crate::x64::emit_flow::after_call(
        frame,
        call.defs,
        call.try_call_info,
        call.callee_pop_size,
    );
    let loads = if call.callee_pop_size > 0 {
        k + 2
    } else {
        k + 1
    };
    let pop = steps.subrange(k + 1, loads);
    let jump = steps.skip(loads + 1);
    assert(steps[k] == rest[0]);
    assert(steps[loads] == rest[loads - k]);
    if call.callee_pop_size > 0 {
        assert(pop =~= seq![
            Step::Emit(Built::SubqMi { dst: rsp(), imm: call.callee_pop_size as i32 }),
        ]);
        lemma_run_one(s, pop);
        lemma_adjust(s, rsp(), call.callee_pop_size as i32);
    } else {
        assert(pop =~= Seq::<Step>::empty());
    }
    match call.try_call_info {
        None => {
            assert(jump =~= Seq::<Step>::empty());
        },
        Some(t) => {
            assert(jump =~= crate::x64::emit_flow::jmp_known(t.continuation));
            crate::x64::behavior_basic::law_jump(
                s,
                t.continuation,
                arbitrary(),
                arbitrary(),
            );
        },
    }
}

/// Whether what follows a call, from step `k`, is as the call asks for.
pub open spec fn goes_on_after_call<T>(
    s: Machine,
    call: CallInfo<T>,
    frame: FrameLayout,
    k: int,
    steps: Seq<Step>,
) -> bool {
    exists|loads: int|
        {
            let popped = crate::x64::machine::run(s, steps.subrange(k + 1, loads));
            &&& k < loads < steps.len()
            &&& steps[k] == (Step::AddCallSite {
                exception_dests: match call.try_call_info {
                    Some(t) => Some(t.exception_dests),
                    None => None,
                },
            })
            &&& #[trigger] steps[loads] == (Step::RetvalLoads {
                defs: call.defs,
                stackslots_size: frame.stackslots_size,
            })
            &&& agree_but(popped, s, rsp())
            &&& popped.reg(rsp()) == crate::x64::machine::extended(
                s.reg(rsp()) - call.callee_pop_size,
            )
            &&& crate::x64::machine::run(s, steps.skip(loads + 1)) == (match call.try_call_info {
                Some(t) => s.jump(t.continuation),
                None => s,
            })
        }
}

/// A call of a symbol calls that symbol, and goes on as it asks for.
pub proof fn law_call_of_a_symbol(
    s: Machine,
    call: CallInfo<ExternalName>,
    info: EmitInfo,
    state: EmitState,
)
    requires
        crate::x64::machine::ready(s),
        call.callee_pop_size <= i32::MAX,
    ensures
        ({
            let steps = crate::x64::emit::listing(Inst::CallKnown { info: call }, info, state);
            let n: int = if state.stack_map is Some {
                1
            } else {
                0
            };
            &&& transfer(steps.subrange(n, n + 3)) == Some(Transfer::Call(call.dest))
            &&& goes_on_after_call(s, call, state.frame_layout, n + 3, steps)
        }),
{
    let steps = crate::x64::emit::listing(Inst::CallKnown { info: call }, info, state);
    let map = crate::x64::emit_flow::stack_map(state, 5);
    let n = map.len() as int;
    let b = steps.subrange(n, n + 3);
    assert(b[0] == Step::Put1(0xE8));
    assert(b[1] == (Step::AddReloc {
        kind: Reloc::X86CallPCRel4,
        name: call.dest,
        addend: -4i64,
    }));
    assert(b[2] == Step::Put4(0));
    assert(steps =~= (map + b) + crate::x64::emit_flow::after_call(
        state.frame_layout,
        call.defs,
        call.try_call_info,
        call.callee_pop_size,
    ));
    lemma_after_call(s, call, state.frame_layout, map + b, steps);
}

/// A call of a computed address calls the function there, and goes on as it asks
/// for. The stack map is for the place where the call returns to.
pub proof fn law_call_of_an_address(
    s: Machine,
    call: CallInfo<RegMem>,
    info: EmitInfo,
    state: EmitState,
)
    requires
        crate::x64::machine::ready(s),
        call.callee_pop_size <= i32::MAX,
        integer_operand(call.dest),
    ensures
        ({
            let steps = crate::x64::emit::listing(Inst::CallUnknown { info: call }, info, state);
            let n: int = if state.stack_map is Some {
                2
            } else {
                1
            };
            &&& crate::x64::machine::run(s, steps.take(1)) == s.go(
                At::Called(s.operand(call.dest, OperandSize::Size64) as u64),
            )
            &&& state.stack_map matches Some(map) ==> steps[1] == (Step::PushUserStackMap {
                ahead: 0,
                map,
            })
            &&& goes_on_after_call(s, call, state.frame_layout, n, steps)
        }),
{
    let steps = crate::x64::emit::listing(Inst::CallUnknown { info: call }, info, state);
    let first = seq![crate::x64::emit_flow::indirect(2, call.dest)];
    let map = crate::x64::emit_flow::stack_map(state, 0);
    assert(steps.take(1) =~= first);
    lemma_run_one(s, first);
    reveal(crate::x64::machine::on_one_register);
    reveal(crate::x64::machine::on_one_address);
    match call.dest {
        RegMem::Reg { reg } => {
            let m: u64 = s.gpr[reg.enc()];
            lemma_low_is_all(m);
        },
        RegMem::Mem { addr } => {
            let m: u64 = s.memory[s.address(addr)];
            lemma_low_is_all(m);
        },
    }
    lemma_after_call(s, call, state.frame_layout, first + map, steps);
}

proof fn lemma_lea(s: Machine, target: Label, dst: Gpr)
    requires
        s.at is Here,
        s.pending is Nothing,
    ensures
        crate::x64::machine::step(
            s,
            Step::Emit(Built::Lea { addr: Amode::RipRelative { target }, dst }),
        ) == s.set(dst.enc, s.places[target]),
{
    reveal(crate::x64::machine::built);
}

/// The word of a table with a number.
pub open spec fn word(s: Machine, table: u64, idx: u64) -> int {
    crate::x64::machine::signed(
        crate::x64::machine::low(
            s.memory[crate::x64::machine::wrapped(table + 4 * idx, OperandSize::Size64)],
            OperandSize::Size32,
        ),
        OperandSize::Size32,
    )
}

proof fn lemma_load_word(s: Machine, tmp1: Gpr, idx: Gpr, tmp2: Gpr)
    requires
        s.at is Here,
        s.pending is Nothing,
    ensures
        crate::x64::machine::step(
            s,
            Step::Emit(
                Built::MovsxLQ {
                    src: RegMem::Mem {
                        addr: Amode::ImmRegRegShift {
                            simm32: 0,
                            base: tmp1,
                            index: idx,
                            shift: 2,
                            flags: 0,
                        },
                    },
                    dst: tmp2,
                },
            ),
        ) == s.set(
            tmp2.enc,
            crate::x64::machine::extended(word(s, s.reg(tmp1), s.reg(idx))),
        ),
{
    reveal(crate::x64::machine::built);
    lemma_word_address(s, tmp1, idx);
}

proof fn lemma_word_address(s: Machine, base: Gpr, index: Gpr)
    ensures
        s.address(Amode::ImmRegRegShift { simm32: 0, base, index, shift: 2, flags: 0 })
            == crate::x64::machine::wrapped(
            s.reg(base) + 4 * s.reg(index),
            OperandSize::Size64,
        ),
{
    let two: u8 = 2;
    let p = vstd::arithmetic::power2::pow2(two as nat) as int;
    let n = s.reg(index) as int;
    assert(p == 4) by {
        vstd::arithmetic::power2::lemma2_to64();
    }
    assert(n * p == 4 * n) by (nonlinear_arith)
        requires
            p == 4,
    ;
}

proof fn lemma_add_register(s: Machine, frame: FrameLayout, dst: Gpr, src: Gpr)
    requires
        s.at is Here,
        s.pending is Nothing,
    ensures
        ({
            let r = crate::x64::machine::step(
                s,
                crate::x64::emit_basic::asm_rr(
                    frame,
                    AsmOp::AddqRm,
                    Reg::Gpr(dst),
                    Reg::Gpr(src),
                ),
            );
            r == s.set(
                dst.enc,
                crate::x64::machine::extended(s.reg(dst) + s.reg(src)),
            ).set_flags(r.flags)
        }),
{
    reveal(crate::x64::machine::assembled);
    reveal(crate::x64::machine::alu);
}

/// A number that was extended is what is added.
proof fn lemma_add_extended(a: u64, n: int)
    ensures
        crate::x64::machine::extended(a + crate::x64::machine::extended(n))
            == crate::x64::machine::extended(a + n),
{
    let v = crate::x64::machine::values(OperandSize::Size64);
    vstd::arithmetic::div_mod::lemma_add_mod_noop_right(a as int, n, v);
    assert(crate::x64::machine::extended(n) as int == n % v);
}

/// A jump through a table goes to the address of the table plus the word that the
/// index selects. The words are those of the targets in their order, and of the
/// default behind them; each is relative to the table.
pub proof fn law_jump_through_a_table(
    s: Machine,
    idx: Gpr,
    tmp1: Gpr,
    tmp2: Gpr,
    targets: Vec<Label>,
    default_target: Label,
    i: int,
    info: EmitInfo,
    state: EmitState,
)
    requires
        crate::x64::machine::ready(s),
        idx.enc != tmp1.enc,
        tmp1.enc != tmp2.enc,
        0 <= i <= targets@.len(),
    ensures
        ({
            let steps = crate::x64::emit::listing(
                Inst::JmpTableSeq { idx, tmp1, tmp2, targets, default_target },
                info,
                state,
            );
            let table = s.places[Label::Local(0)];
            &&& crate::x64::machine::run(s, steps).at == At::Address(
                crate::x64::machine::extended(table + word(s, table, s.reg(idx))),
            )
            &&& steps.len() == 8 + 2 * targets@.len()
            &&& steps[5] == (Step::BindLabel { label: Label::Local(0) })
            &&& steps[6 + 2 * i] == (Step::UseLabel {
                ahead: 0,
                label: if i < targets@.len() {
                    targets@[i]
                } else {
                    default_target
                },
                usage: crate::x64::args::LabelUse::PCRel32,
            })
            &&& steps[7 + 2 * i] == Step::Put4((4 * i) as u32)
        }),
{
    let steps = crate::x64::emit::listing(
        Inst::JmpTableSeq { idx, tmp1, tmp2, targets, default_target },
        info,
        state,
    );
    let table = s.places[Label::Local(0)];
    let all = targets@.push(default_target);
    let words = crate::x64::emit_flow::table_words(all);
    crate::x64::laws::law_jump_table_words(all, i);
    let a = steps.take(5);
    let b = steps.skip(5);
    assert(steps =~= a + b);
    assert(b =~= seq![Step::BindLabel { label: Label::Local(0) }] + words);
    lemma_run_five(s, a);
    let s1 = s.set(tmp1.enc, table);
    lemma_lea(s, Label::Local(0), tmp1);
    assert(crate::x64::machine::step(crate::x64::machine::step(s, a[0]), a[1]) == s1);
    lemma_load_word(s1, tmp1, idx, tmp2);
    assert(word(s1, table, s1.reg(idx)) == word(s, table, s.reg(idx)));
    let s2 = crate::x64::machine::step(s1, a[2]);
    lemma_add_register(s2, state.frame_layout, tmp1, tmp2);
    lemma_add_extended(table, word(s, table, s.reg(idx)));
    let s3 = crate::x64::machine::step(s2, a[3]);
    lemma_low_is_all(s3.reg(tmp1));
    let s4 = crate::x64::machine::run(s, a);
    lemma_jump_unknown(s3, tmp1);
    crate::x64::behavior_basic::lemma_passes_by(s4, b);
    assert(steps[6 + 2 * i] == words[2 * i]);
    assert(steps[7 + 2 * i] == words[2 * i + 1]);
}

proof fn lemma_jump_unknown(s: Machine, target: Gpr)
    requires
        s.at is Here,
        s.pending is Nothing,
    ensures
        crate::x64::machine::step(
            s,
            Step::Emit(Built::JmpUnknown { target: RegMem::Reg { reg: Reg::Gpr(target) } }),
        ) == s.go(At::Address(s.reg(target))),
{
    reveal(crate::x64::machine::built);
    lemma_low_is_all(s.reg(target));
}

/// The registers that may be used are among those that are given, and none of
/// those in use. None comes twice if none was given twice.
pub proof fn law_unused_registers(all: Seq<Reg>, used: Seq<Gpr>)
    ensures
        ({
            let free = crate::x64::emit_flow::unused_gprs(all, used);
            &&& forall|i: int|
                0 <= i < free.len() ==> all.contains(Reg::Gpr(#[trigger] free[i]))
                    && !used.contains(free[i])
            &&& forall|r: Gpr|
                all.contains(Reg::Gpr(r)) && !used.contains(r) ==> #[trigger] free.contains(r)
            &&& all.no_duplicates() ==> free.no_duplicates()
        }),
    decreases all.len(),
{
    if all.len() > 0 {
        let before = all.drop_last();
        law_unused_registers(before, used);
        let rest = crate::x64::emit_flow::unused_gprs(before, used);
        let free = crate::x64::emit_flow::unused_gprs(all, used);
        assert(all =~= before.push(all.last()));
        assert forall|i: int| 0 <= i < free.len() implies all.contains(
            Reg::Gpr(#[trigger] free[i]),
        ) && !used.contains(free[i]) by {
            if i < rest.len() {
                assert(free[i] == rest[i]);
                let j = choose|j: int| 0 <= j < before.len() && before[j] == Reg::Gpr(rest[i]);
                assert(all[j] == Reg::Gpr(rest[i]));
            } else {
                assert(all[all.len() - 1] == Reg::Gpr(free[i]));
            }
        }
        assert forall|r: Gpr|
            all.contains(Reg::Gpr(r)) && !used.contains(r) implies #[trigger] free.contains(r) by {
            let j = choose|j: int| 0 <= j < all.len() && all[j] == Reg::Gpr(r);
            if j < before.len() {
                assert(before[j] == Reg::Gpr(r));
                assert(rest.contains(r));
                let k = choose|k: int| 0 <= k < rest.len() && rest[k] == r;
                assert(free[k] == r);
            } else {
                assert(free[rest.len() as int] == r);
            }
        }
        if all.no_duplicates() {
            assert(before.no_duplicates());
            if free.len() > rest.len() {
                let last = free[rest.len() as int];
                assert(all.last() == Reg::Gpr(last));
                assert(!rest.contains(last)) by {
                    if rest.contains(last) {
                        let k = choose|k: int| 0 <= k < rest.len() && rest[k] == last;
                        assert(before.contains(Reg::Gpr(rest[k])));
                        let j = choose|j: int| 0 <= j < before.len() && before[j] == Reg::Gpr(last);
                        assert(all[j] == all[all.len() - 1]);
                    }
                }
                assert(free =~= rest.push(last));
            }
        }
    }
}

/// A register of one context is exchanged for that of another.
proof fn lemma_exchange(
    s: Machine,
    frame: FrameLayout,
    load: Gpr,
    store: Gpr,
    tmp: Gpr,
    offset: i32,
    reg: Gpr,
)
    requires
        s.at is Here,
        s.pending is Nothing,
        tmp.enc != load.enc,
        tmp.enc != store.enc,
        tmp.enc != reg.enc,
        reg.enc != load.enc,
        reg.enc != store.enc,
    ensures
        ({
            let r = crate::x64::machine::run(
                s,
                crate::x64::emit_flow::exchange(frame, load, store, tmp, offset, reg),
            );
            let v = s.memory[s.address(Amode::at(offset, load))];
            r == (Machine {
                gpr: s.gpr.insert(tmp.enc, v).insert(reg.enc, v),
                memory: s.memory.insert(s.address(Amode::at(offset, store)), s.reg(reg)),
                ..s
            })
        }),
{
    let steps = crate::x64::emit_flow::exchange(frame, load, store, tmp, offset, reg);
    lemma_run_three(s, steps);
    lemma_load(s, frame, load, tmp, offset);
    let s1 = crate::x64::machine::step(s, steps[0]);
    lemma_store(s1, reg, offset, store);
    let s2 = crate::x64::machine::step(s1, steps[1]);
    lemma_move(s2, tmp, reg);
}

/// The addresses of a context's fields: the stack pointer, the frame pointer and
/// the place of execution.
pub open spec fn fields(
    s: Machine,
    layout: crate::x64::inst::ControlContextLayout,
    base: Gpr,
) -> (int, int, int) {
    (
        s.address(Amode::at(layout.stack_pointer_offset, base)),
        s.address(Amode::at(layout.frame_pointer_offset, base)),
        s.address(Amode::at(layout.ip_offset, base)),
    )
}

/// A switch of stacks goes on at the place of one context with its stack pointer
/// and its frame pointer. Those of this stack, and the place behind the switch, are
/// in the other context then. The two contexts may be the same.
#[verifier::rlimit(40)]
pub proof fn law_stack_switch(
    s: Machine,
    store: Gpr,
    load: Gpr,
    in_payload0: Gpr,
    out_payload0: Gpr,
    info: EmitInfo,
    state: EmitState,
)
    requires
        crate::x64::machine::ready(s),
        info.all_clobbers@.no_duplicates(),
        // The pointers of the stack are not free to use.
        !info.all_clobbers@.contains(Reg::Gpr(rsp())),
        !info.all_clobbers@.contains(Reg::Gpr(rbp())),
        crate::x64::emit_flow::unused_gprs(
            info.all_clobbers@,
            seq![load, store, in_payload0, out_payload0],
        ).len() >= 2,
        load != rsp() && load != rbp(),
        store != rsp() && store != rbp(),
        ({
            let a = fields(s, info.control_context_layout, load);
            let b = fields(s, info.control_context_layout, store);
            // What is stored first is not what is loaded later, or stored later.
            &&& b.0 != a.1 && b.0 != a.2 && b.1 != a.2
            &&& b.0 != b.1 && b.0 != b.2 && b.1 != b.2
        }),
    ensures
        ({
            let a = fields(s, info.control_context_layout, load);
            let b = fields(s, info.control_context_layout, store);
            let steps = crate::x64::emit::listing(
                Inst::StackSwitchBasic {
                    store_context_ptr: store,
                    load_context_ptr: load,
                    in_payload0,
                    out_payload0,
                },
                info,
                state,
            );
            let r = crate::x64::machine::run(s, steps);
            &&& r.at == At::Address(s.memory[a.2])
            &&& r.reg(rsp()) == s.memory[a.0]
            &&& r.reg(rbp()) == s.memory[a.1]
            &&& r.memory[b.0] == s.reg(rsp())
            &&& r.memory[b.1] == s.reg(rbp())
            &&& r.memory[b.2] == s.places[Label::Local(0)]
            &&& steps.last() == (Step::BindLabel { label: Label::Local(0) })
            &&& in_payload0 != rsp() && in_payload0 != rbp() ==> r.reg(in_payload0) == s.reg(
                in_payload0,
            )
        }),
{
    let frame = state.frame_layout;
    let layout = info.control_context_layout;
    let used = seq![load, store, in_payload0, out_payload0];
    let free = crate::x64::emit_flow::unused_gprs(info.all_clobbers@, used);
    law_unused_registers(info.all_clobbers@, used);
    let (tmp1, tmp2) = (free[0], free[1]);
    assert(used[0] == load && used[1] == store && used[2] == in_payload0);
    assert(!used.contains(tmp1) && !used.contains(tmp2));
    assert(tmp1 != load && tmp1 != store && tmp1 != in_payload0);
    assert(tmp2 != load && tmp2 != store && tmp2 != in_payload0);
    assert(tmp1 != tmp2);
    let a = fields(s, layout, load);
    let b = fields(s, layout, store);
    let x = seq![Step::GetLabel { label: Label::Local(0) }];
    let y = crate::x64::emit_flow::exchange(
        frame,
        load,
        store,
        tmp1,
        layout.stack_pointer_offset,
        rsp(),
    );
    let z = crate::x64::emit_flow::exchange(
        frame,
        load,
        store,
        tmp1,
        layout.frame_pointer_offset,
        rbp(),
    );
    let w = seq![
        crate::x64::emit_flow::load_from(frame, load, tmp1, layout.ip_offset),
        Step::Emit(Built::Lea { addr: Amode::RipRelative { target: Label::Local(0) }, dst: tmp2 }),
        crate::x64::emit_basic::mov_rm(
            OperandSize::Size64,
            tmp2,
            Amode::at(layout.ip_offset, store),
        ),
        crate::x64::emit_flow::indirect(4, RegMem::Reg { reg: Reg::Gpr(tmp1) }),
        Step::BindLabel { label: Label::Local(0) },
    ];
    let steps = crate::x64::emit::listing(
        Inst::StackSwitchBasic {
            store_context_ptr: store,
            load_context_ptr: load,
            in_payload0,
            out_payload0,
        },
        info,
        state,
    );
    assert(steps == x + y + z + w);
    lemma_run_one(s, x);
    lemma_exchange(s, frame, load, store, tmp1, layout.stack_pointer_offset, rsp());
    let s1 = crate::x64::machine::run(s, y);
    lemma_exchange(s1, frame, load, store, tmp1, layout.frame_pointer_offset, rbp());
    let s2 = crate::x64::machine::run(s1, z);
    lemma_run_five(s2, w);
    lemma_load(s2, frame, load, tmp1, layout.ip_offset);
    let s3 = crate::x64::machine::step(s2, w[0]);
    lemma_lea(s3, Label::Local(0), tmp2);
    let s4 = crate::x64::machine::step(s3, w[1]);
    lemma_store(s4, tmp2, layout.ip_offset, store);
    let s5 = crate::x64::machine::step(s4, w[2]);
    lemma_indirect(s5, tmp1);
}

proof fn lemma_indirect(s: Machine, target: Gpr)
    requires
        s.at is Here,
        s.pending is Nothing,
    ensures
        crate::x64::machine::step(
            s,
            crate::x64::emit_flow::indirect(4, RegMem::Reg { reg: Reg::Gpr(target) }),
        ) == s.go(At::Address(s.reg(target))),
{
    reveal(crate::x64::machine::on_one_register);
}

/// What is done when code runs so many times over the steps: once, and again for
/// each jump back.
pub open spec fn passes(s: Machine, steps: Seq<Step>, n: nat) -> Machine
    decreases n,
{
    if n == 0 {
        s
    } else {
        crate::x64::machine::run(passes(s, steps, (n - 1) as nat), steps)
    }
}

/// The address that is so many guard areas below the stack pointer.
pub open spec fn below(top: u64, guard_size: u32, n: int) -> u64 {
    crate::x64::machine::extended(top - n * guard_size)
}

/// Whether the first so many guard areas were touched.
pub open spec fn touched(s: Machine, top: u64, guard_size: u32, n: int) -> bool {
    forall|i: int|
        1 <= i <= n ==> crate::x64::machine::low(
            s.memory[#[trigger] below(top, guard_size, i) as int],
            OperandSize::Size32,
        ) == crate::x64::machine::low(below(top, guard_size, i), OperandSize::Size32)
}

/// Addresses in different guard areas differ.
proof fn lemma_below(top: u64, guard_size: u32, i: int, j: int)
    requires
        guard_size > 0,
        0 <= i < j,
        j * guard_size <= i32::MAX,
    ensures
        below(top, guard_size, i) != below(top, guard_size, j),
{
    let g = guard_size as int;
    let (a, b) = (i * g, j * g);
    assert(0 <= a < b) by (nonlinear_arith)
        requires
            0 <= i < j,
            g > 0,
            a == i * g,
            b == j * g,
    ;
}

proof fn lemma_below_next(top: u64, guard_size: u32, n: int)
    ensures
        crate::x64::machine::extended(below(top, guard_size, n) - guard_size) == below(
            top,
            guard_size,
            n + 1,
        ),
        below(top, guard_size, 0) == top,
{
    let v = crate::x64::machine::values(OperandSize::Size64);
    let g = guard_size as int;
    assert((n + 1) * g == n * g + g) by (nonlinear_arith);
    assert(0 * g == 0);
    vstd::arithmetic::div_mod::lemma_add_mod_noop_right(-g, top - n * g, v);
    vstd::arithmetic::div_mod::lemma_small_mod(top as nat, v as nat);
}

proof fn lemma_back_up(top: u64, guard_size: u32, n: int, all: int)
    requires
        all == n * guard_size,
    ensures
        crate::x64::machine::extended(below(top, guard_size, n) + all) == top,
{
    let v = crate::x64::machine::values(OperandSize::Size64);
    vstd::arithmetic::div_mod::lemma_add_mod_noop_right(all, top - all, v);
    vstd::arithmetic::div_mod::lemma_small_mod(top as nat, v as nat);
    assert(all + (top - all) == top);
}

/// The parts of the loop: what is before it, what is repeated, and what is behind.
pub open spec fn probe_head(tmp: Gpr, all: i32) -> Seq<Step> {
    seq![
        Step::Emit(Built::Move { dst: Reg::Gpr(tmp), src: Reg::Gpr(rsp()), ty: Type::I64 }),
        Step::Emit(Built::SubqMi { dst: tmp, imm: all }),
        Step::GetLabel { label: Label::Local(0) },
    ]
}

/// The stack pointer moves down by an area and what is there is touched.
pub open spec fn after_probe(s: Machine, guard_size: u32) -> Machine {
    let down = crate::x64::machine::extended(s.reg(rsp()) - guard_size);
    s.set(rsp().enc, down).store(
        down as int,
        crate::x64::machine::low(down, OperandSize::Size32),
        OperandSize::Size32,
    )
}

proof fn lemma_probe_body(s: Machine, tmp: Gpr, guard_size: u32, steps: Seq<Step>)
    requires
        s.at is Here,
        s.pending is Nothing,
        guard_size <= i32::MAX,
        tmp.enc != rsp().enc,
        steps.len() == 3,
        steps[0] == Step::Emit(Built::SubqMi { dst: rsp(), imm: guard_size as i32 }),
        steps[1] == Step::Emit(
            Built::MovRM { size: OperandSize::Size32, src: rsp(), addr: Amode::at(0, rsp()) },
        ),
        steps[2] == Step::Emit(
            Built::CmpRmiR {
                size: OperandSize::Size64,
                src1: tmp,
                src2: crate::x64::args::RegMemImm::Reg { reg: Reg::Gpr(rsp()) },
            },
        ),
    ensures
        ({
            let r = crate::x64::machine::run(s, steps);
            let t = after_probe(s, guard_size);
            &&& r == t.set_flags(r.flags)
            &&& r.flags.zero == (t.reg(rsp()) == s.reg(tmp))
        }),
{
    lemma_run_three(s, steps);
    lemma_adjust(s, rsp(), guard_size as i32);
    let s1 = crate::x64::machine::step(s, steps[0]);
    assert(s1 == s.set(rsp().enc, crate::x64::machine::extended(s.reg(rsp()) - guard_size)));
    lemma_low_is_all(s1.reg(rsp()));
    let s2 = crate::x64::machine::step(s1, steps[1]);
    assert(s2 == after_probe(s, guard_size)) by {
        reveal(crate::x64::machine::built);
    }
    let o = crate::x64::args::RegMemImm::Reg { reg: Reg::Gpr(rsp()) };
    crate::x64::behavior_convert::lemma_built_compare(s2, OperandSize::Size64, tmp, o);
    lemma_low_is_all(s2.reg(tmp));
    lemma_low_is_all(s2.reg(rsp()));
    crate::x64::machine::law_comparison_orders(
        s2.reg(tmp) as int,
        s2.reg(rsp()) as int,
        OperandSize::Size64,
    );
}

/// One pass from the start of the loop.
proof fn lemma_probe_pass(s: Machine, tmp: Gpr, frame_size: u32, guard_size: u32)
    requires
        s.at is Here || s.at == At::Seek(Label::Local(0)),
        s.pending is Nothing,
        !s.traps.dom().contains(Label::Local(0)),
        tmp.enc != rsp().enc,
        crate::x64::emit_flow::probe_ok(frame_size, guard_size),
        guard_size > 0,
    ensures
        ({
            let all = crate::x64::emit_flow::guarded_size(frame_size, guard_size);
            let r = crate::x64::machine::run(
                s,
                crate::x64::emit_flow::stack_probe_loop(tmp, frame_size, guard_size),
            );
            let start = if s.at is Here {
                s.set(tmp.enc, crate::x64::machine::extended(s.reg(rsp()) - all))
            } else {
                s.go(At::Here)
            };
            let t = after_probe(start, guard_size).set_flags(r.flags);
            if t.reg(rsp()) == t.reg(tmp) {
                r == t.set(rsp().enc, crate::x64::machine::extended(t.reg(rsp()) + all))
            } else {
                r == t.go(At::Seek(Label::Local(0)))
            }
        }),
{
    crate::x64::emit_flow::lemma_guarded_size(frame_size, guard_size);
    let all = crate::x64::emit_flow::guarded_size(frame_size, guard_size);
    let steps = crate::x64::emit_flow::stack_probe_loop(tmp, frame_size, guard_size);
    let l = Label::Local(0);
    let head = probe_head(tmp, all as i32);
    let bind = seq![Step::BindLabel { label: l }];
    let body = steps.subrange(4, 7);
    let jump = crate::x64::emit_basic::jump_if(crate::x64::args::CC::NZ, l);
    let tail = seq![Step::Emit(Built::AddqMi { dst: rsp(), imm: all as i32 })];
    assert(steps =~= head + bind + body + jump + tail);
    let start = if s.at is Here {
        s.set(tmp.enc, crate::x64::machine::extended(s.reg(rsp()) - all))
    } else {
        s.go(At::Here)
    };
    let s1 = crate::x64::machine::run(s, head);
    if s.at is Here {
        lemma_run_three(s, head);
        lemma_move_built(s, tmp);
        lemma_adjust(s.set(tmp.enc, s.reg(rsp())), tmp, all as i32);
        assert(s1 == s.set(tmp.enc, s.reg(rsp())).set(
            tmp.enc,
            crate::x64::machine::extended(s.reg(rsp()) - all),
        ));
        assert(s1.gpr =~= start.gpr);
    } else {
        crate::x64::behavior_basic::lemma_passes_by(s, head);
    }
    lemma_run_one(s1, bind);
    let s2 = crate::x64::machine::run(s1, bind);
    assert(s2 == start);
    lemma_probe_body(start, tmp, guard_size, body);
    let s3 = crate::x64::machine::run(s2, body);
    crate::x64::machine::law_jump_if(s3, crate::x64::args::CC::NZ, l);
    let s4 = crate::x64::machine::run(s3, jump);
    lemma_run_one(s4, tail);
    if s4.at is Here {
        lemma_adjust(s4, rsp(), all as i32);
    }
    assert(s3.reg(tmp) == start.reg(tmp));
}

proof fn lemma_move_built(s: Machine, tmp: Gpr)
    requires
        s.at is Here,
        s.pending is Nothing,
    ensures
        crate::x64::machine::step(
            s,
            Step::Emit(Built::Move { dst: Reg::Gpr(tmp), src: Reg::Gpr(rsp()), ty: Type::I64 }),
        ) == s.set(tmp.enc, s.reg(rsp())),
{
    reveal(crate::x64::machine::built);
}

/// What was touched stays so when the next area is.
proof fn lemma_touch(s: Machine, t: Machine, top: u64, guard_size: u32, n: int)
    requires
        guard_size > 0,
        n >= 0,
        (n + 1) * guard_size <= i32::MAX,
        touched(s, top, guard_size, n),
        t.memory == s.store(
            below(top, guard_size, n + 1) as int,
            crate::x64::machine::low(below(top, guard_size, n + 1), OperandSize::Size32),
            OperandSize::Size32,
        ).memory,
    ensures
        touched(t, top, guard_size, n + 1),
{
    assert forall|i: int| 1 <= i <= n + 1 implies crate::x64::machine::low(
        t.memory[#[trigger] below(top, guard_size, i) as int],
        OperandSize::Size32,
    ) == crate::x64::machine::low(below(top, guard_size, i), OperandSize::Size32) by {
        if i <= n {
            lemma_below(top, guard_size, i, n + 1);
        } else {
            crate::x64::behavior_atomic::lemma_written(
                s.memory[below(top, guard_size, n + 1) as int],
                crate::x64::machine::low(below(top, guard_size, n + 1), OperandSize::Size32),
                OperandSize::Size32,
            );
        }
    }
}

/// After some passes, but not all.
proof fn lemma_probing(
    s: Machine,
    tmp: Gpr,
    frame_size: u32,
    guard_size: u32,
    count: nat,
    n: nat,
)
    requires
        crate::x64::machine::ready(s),
        tmp.enc != rsp().enc,
        crate::x64::emit_flow::probe_ok(frame_size, guard_size),
        guard_size > 0,
        count * guard_size == crate::x64::emit_flow::guarded_size(frame_size, guard_size),
        1 <= n <= count,
    ensures
        ({
            let steps = crate::x64::emit_flow::stack_probe_loop(tmp, frame_size, guard_size);
            let r = passes(s, steps, n);
            let top = s.reg(rsp());
            &&& r.pending is Nothing
            &&& r.traps == s.traps
            &&& touched(r, top, guard_size, n as int)
            &&& r.reg(tmp) == below(top, guard_size, count as int)
            &&& if n < count {
                r.at == At::Seek(Label::Local(0)) && r.reg(rsp()) == below(
                    top,
                    guard_size,
                    n as int,
                )
            } else {
                r.at is Here && r.reg(rsp()) == top
            }
        }),
    decreases n,
{
    let steps = crate::x64::emit_flow::stack_probe_loop(tmp, frame_size, guard_size);
    let all = crate::x64::emit_flow::guarded_size(frame_size, guard_size);
    let top = s.reg(rsp());
    let m = (n - 1) as nat;
    let before = passes(s, steps, m);
    if m > 0 {
        lemma_probing(s, tmp, frame_size, guard_size, count, m);
    }
    lemma_probe_pass(before, tmp, frame_size, guard_size);
    lemma_below_next(top, guard_size, m as int);
    assert(n * guard_size <= count * guard_size) by (nonlinear_arith)
        requires
            n <= count,
    ;
    let r = passes(s, steps, n);
    let start = if before.at is Here {
        before.set(tmp.enc, crate::x64::machine::extended(before.reg(rsp()) - all))
    } else {
        before.go(At::Here)
    };
    assert(start.reg(rsp()) == below(top, guard_size, m as int));
    assert(start.reg(tmp) == below(top, guard_size, count as int));
    let t = after_probe(start, guard_size);
    assert(t.reg(rsp()) == below(top, guard_size, n as int));
    lemma_touch(before, t, top, guard_size, m as int);
    assert(r.memory == t.memory);
    assert(touched(r, top, guard_size, n as int)) by {
        assert forall|i: int| 1 <= i <= n implies crate::x64::machine::low(
            r.memory[#[trigger] below(top, guard_size, i) as int],
            OperandSize::Size32,
        ) == crate::x64::machine::low(below(top, guard_size, i), OperandSize::Size32) by {
            assert(touched(t, top, guard_size, n as int));
        }
    }
    if n < count {
        lemma_below(top, guard_size, n as int, count as int);
    } else {
        lemma_back_up(top, guard_size, n as int, all);
    }
}

/// The probes of a frame end after one pass for each guard area that the frame
/// reaches into. Each area was touched then, and the stack pointer is where it was.
pub proof fn law_probes_touch_every_area(
    s: Machine,
    tmp: Gpr,
    frame_size: u32,
    guard_size: u32,
    info: EmitInfo,
    state: EmitState,
)
    requires
        crate::x64::machine::ready(s),
        tmp.enc != rsp().enc,
        crate::x64::emit_flow::probe_ok(frame_size, guard_size),
        guard_size > 0,
        frame_size > 0,
    ensures
        ({
            let steps = crate::x64::emit::listing(
                Inst::StackProbeLoop { tmp, frame_size, guard_size },
                info,
                state,
            );
            let count = (frame_size + guard_size - 1) / (guard_size as int);
            let r = passes(s, steps, count as nat);
            &&& count * guard_size >= frame_size
            &&& (count - 1) * guard_size < frame_size
            &&& r.at is Here
            &&& r.reg(rsp()) == s.reg(rsp())
            &&& touched(r, s.reg(rsp()), guard_size, count)
        }),
{
    let g = guard_size as int;
    let count = (frame_size + guard_size - 1) / g;
    vstd::arithmetic::div_mod::lemma_fundamental_div_mod(frame_size + guard_size - 1, g);
    let rest = (frame_size + guard_size - 1) % g;
    assert(g * count == count * g && (count - 1) * g == count * g - g) by (nonlinear_arith);
    assert(count >= 1) by (nonlinear_arith)
        requires
            frame_size + guard_size - 1 == g * count + rest,
            rest < g,
            frame_size > 0,
            g == guard_size,
            g > 0,
    ;
    lemma_probing(s, tmp, frame_size, guard_size, count as nat, count as nat);
}

} // verus!
