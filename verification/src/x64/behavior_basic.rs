//! What the code for moves, addresses, comparisons, jumps and traps does.

use crate::x64::args::{
    Amode, CmpOpcode, Gpr, Label, OperandSize, Reg, RegMem, RegMemImm, TrapCode, Type, Xmm, CC,
};
use crate::x64::inst::{EmitInfo, EmitState, Inst};
use crate::x64::machine::{At, Machine, Pending};
use crate::x64::sink::{Built, Step};
use vstd::prelude::*;

verus! {

broadcast use {
    crate::x64::machine::group_run,
    crate::x64::machine::group_step,
    crate::x64::machine::group_opcode,
    crate::x64::machine::group_jump,
};

/// What an instruction does to a machine.
pub open spec fn effect(s: Machine, inst: Inst, info: EmitInfo, state: EmitState) -> Machine {
    crate::x64::machine::run(s, crate::x64::emit::listing(inst, info, state))
}

/// Whether an operand is one that integer instructions take.
pub open spec fn integer_operand(o: RegMem) -> bool {
    match o {
        RegMem::Reg { reg } => reg is Gpr,
        RegMem::Mem { .. } => true,
    }
}

/// Whether an operand is one that comparisons take.
pub open spec fn comparable(o: RegMemImm) -> bool {
    match o {
        RegMemImm::Reg { reg } => reg is Gpr,
        RegMemImm::Mem { .. } => true,
        RegMemImm::Imm { .. } => true,
    }
}

/// A comparison subtracts the second operand from the first, sets the flags by
/// the difference, and changes nothing else.
pub proof fn law_compare_subtracts_the_second(
    s: Machine,
    size: OperandSize,
    src1: Gpr,
    src2: RegMemImm,
    info: EmitInfo,
    state: EmitState,
)
    requires
        crate::x64::machine::ready(s),
        comparable(src2),
    ensures
        effect(s, Inst::CmpRmiR { size, src1, src2, opcode: CmpOpcode::Cmp }, info, state)
            == s.set_flags(
            crate::x64::machine::sub_flags(
                crate::x64::machine::low(s.reg(src1), size),
                s.operand_or_number(src2, size),
                0,
                size,
            ),
        ),
{
    let steps = crate::x64::emit_basic::cmp_rmi_r(size, src1, src2, CmpOpcode::Cmp);
    assert(crate::x64::emit::listing(
        Inst::CmpRmiR { size, src1, src2, opcode: CmpOpcode::Cmp },
        info,
        state,
    ) == steps);
    match src2 {
        RegMemImm::Imm { simm32 } => {
            lemma_numbers(simm32, size);
            lemma_run_two(s, steps);
            reveal(crate::x64::machine::on_one_register);
            reveal(crate::x64::machine::with_number);
            let s1 = crate::x64::machine::step(s, steps[0]);
            assert(s1.pending is Number);
            crate::x64::machine::lemma_step_number(
                s1,
                s1.pending->Number_0,
                steps[1]->PutSimm_size,
                simm32,
            );
        },
        RegMemImm::Reg { .. } => {
            lemma_run_one(s, steps);
            reveal(crate::x64::machine::on_registers);
        },
        RegMemImm::Mem { .. } => {
            lemma_run_one(s, steps);
            reveal(crate::x64::machine::on_memory);
        },
    }
}

/// A pass over one step.
pub proof fn lemma_run_one(s: Machine, steps: Seq<Step>)
    requires
        steps.len() == 1,
    ensures
        crate::x64::machine::run(s, steps) == crate::x64::machine::step(s, steps[0]),
{
    assert(steps =~= Seq::<Step>::empty().push(steps[0]));
}

/// A pass over two steps.
pub proof fn lemma_run_two(s: Machine, steps: Seq<Step>)
    requires
        steps.len() == 2,
    ensures
        crate::x64::machine::run(s, steps) == crate::x64::machine::step(
            crate::x64::machine::step(s, steps[0]),
            steps[1],
        ),
{
    assert(steps =~= Seq::<Step>::empty().push(steps[0]).push(steps[1]));
}

/// A pass over three steps.
pub proof fn lemma_run_three(s: Machine, steps: Seq<Step>)
    requires
        steps.len() == 3,
    ensures
        crate::x64::machine::run(s, steps) == crate::x64::machine::step(
            crate::x64::machine::step(crate::x64::machine::step(s, steps[0]), steps[1]),
            steps[2],
        ),
{
    assert(steps =~= Seq::<Step>::empty().push(steps[0]).push(steps[1]).push(steps[2]));
}

/// A number that is extended from fewer bytes is the same in the bits of a size.
proof fn lemma_numbers(simm32: u32, size: OperandSize)
    ensures
        crate::x64::args::fits_signed_8(simm32) ==> crate::x64::machine::number(1, simm32)
            == crate::x64::machine::signed(simm32 as int, OperandSize::Size32),
        crate::x64::machine::wrapped(
            crate::x64::machine::number(size.bytes(), simm32),
            size,
        ) == crate::x64::machine::wrapped(
            crate::x64::machine::signed(simm32 as int, OperandSize::Size32),
            size,
        ),
{
    let v = simm32 as int;
    vstd::arithmetic::div_mod::lemma_mod_multiples_vanish(-1, v % 0x100, 0x100);
    vstd::arithmetic::div_mod::lemma_mod_multiples_vanish(-0x100_0000, v, 0x100);
    vstd::arithmetic::div_mod::lemma_mod_multiples_vanish(-1, v % 0x1_0000, 0x1_0000);
    vstd::arithmetic::div_mod::lemma_mod_multiples_vanish(-0x1_0000, v, 0x1_0000);
    assert(v % 0x100 % 0x100 == v % 0x100);
    assert(v % 0x1_0000 % 0x1_0000 == v % 0x1_0000);
}

/// After a comparison and a conditional jump, execution goes on at the label if
/// and only if the operands compare as the condition says.
pub proof fn law_branch_compares_the_operands(
    s: Machine,
    size: OperandSize,
    src1: Gpr,
    src2: RegMemImm,
    taken: Label,
    not_taken: Label,
    info: EmitInfo,
    state: EmitState,
)
    requires
        crate::x64::machine::ready(s),
        comparable(src2),
    ensures
        ({
            let compared = effect(
                s,
                Inst::CmpRmiR { size, src1, src2, opcode: CmpOpcode::Cmp },
                info,
                state,
            );
            let (a, b) = (
                crate::x64::machine::low(s.reg(src1), size),
                s.operand_or_number(src2, size),
            );
            let (x, y) = (
                crate::x64::machine::signed(a, size),
                crate::x64::machine::signed(b, size),
            );
            let goes = |cc: CC|
                effect(compared, Inst::JmpCond { cc, taken, not_taken }, info, state).at;
            &&& goes(CC::Z) == At::Seek(if a == b { taken } else { not_taken })
            &&& goes(CC::NZ) == At::Seek(if a != b { taken } else { not_taken })
            &&& goes(CC::B) == At::Seek(if a < b { taken } else { not_taken })
            &&& goes(CC::NB) == At::Seek(if a >= b { taken } else { not_taken })
            &&& goes(CC::BE) == At::Seek(if a <= b { taken } else { not_taken })
            &&& goes(CC::NBE) == At::Seek(if a > b { taken } else { not_taken })
            &&& goes(CC::L) == At::Seek(if x < y { taken } else { not_taken })
            &&& goes(CC::NL) == At::Seek(if x >= y { taken } else { not_taken })
            &&& goes(CC::LE) == At::Seek(if x <= y { taken } else { not_taken })
            &&& goes(CC::NLE) == At::Seek(if x > y { taken } else { not_taken })
        }),
{
    law_compare_subtracts_the_second(s, size, src1, src2, info, state);
    let (a, b) = (crate::x64::machine::low(s.reg(src1), size), s.operand_or_number(src2, size));
    let compared = s.set_flags(crate::x64::machine::sub_flags(a, b, 0, size));
    crate::x64::machine::law_comparison_orders(a, b, size);
    let goes = |cc: CC| effect(compared, Inst::JmpCond { cc, taken, not_taken }, info, state).at;
    assert forall|cc: CC| #[trigger]
        goes(cc) == At::Seek(
            if crate::x64::machine::holds(cc, compared.flags) {
                taken
            } else {
                not_taken
            },
        ) by {
        law_jump_goes_by_the_condition(compared, cc, taken, not_taken, info, state);
    }
}

/// A test sets the flags by the bits that both operands have, and changes
/// nothing else.
pub proof fn law_test_takes_the_common_bits(
    s: Machine,
    size: OperandSize,
    src1: Gpr,
    src2: RegMemImm,
    info: EmitInfo,
    state: EmitState,
)
    requires
        crate::x64::machine::ready(s),
        comparable(src2),
    ensures
        effect(s, Inst::CmpRmiR { size, src1, src2, opcode: CmpOpcode::Test }, info, state)
            == s.set_flags(
            crate::x64::machine::logic_flags(
                crate::x64::machine::low(s.reg(src1) & s.all_bits(src2), size),
                size,
            ),
        ),
{
    let x = s.reg(src1);
    let steps = crate::x64::emit_basic::cmp_rmi_r(size, src1, src2, CmpOpcode::Test);
    assert(crate::x64::emit::listing(
        Inst::CmpRmiR { size, src1, src2, opcode: CmpOpcode::Test },
        info,
        state,
    ) == steps);
    match src2 {
        RegMemImm::Reg { reg } => {
            let y = s.gpr[reg.enc()];
            assert(x & y == y & x) by (bit_vector);
            lemma_run_one(s, steps);
            reveal(crate::x64::machine::on_registers);
        },
        RegMemImm::Mem { .. } => {
            lemma_run_one(s, steps);
            reveal(crate::x64::machine::on_memory);
        },
        RegMemImm::Imm { simm32 } => {
            lemma_numbers(simm32, size);
            lemma_run_two(s, steps);
            reveal(crate::x64::machine::on_one_register);
            reveal(crate::x64::machine::with_number);
            let s1 = crate::x64::machine::step(s, steps[0]);
            assert(s1.pending is Number);
            crate::x64::machine::lemma_step_number(
                s1,
                s1.pending->Number_0,
                steps[1]->PutSimm_size,
                simm32,
            );
            let n = crate::x64::machine::number(size.bytes(), simm32);
            lemma_low_of_extended(n, size);
            lemma_low_of_extended(
                crate::x64::machine::number(4, simm32),
                size,
            );
            lemma_common_low_bits(
                x,
                crate::x64::machine::extended(crate::x64::machine::number(size.bytes(), simm32)),
                s.all_bits(src2),
                size,
            );
        },
    }
}

/// The low bits of a number are the same once it is in a register.
pub proof fn lemma_low_of_extended(n: int, size: OperandSize)
    ensures
        crate::x64::machine::low(crate::x64::machine::extended(n), size)
            == crate::x64::machine::wrapped(n, size),
{
    vstd::arithmetic::div_mod::lemma_mod_mod(n, 0x100, 0x100_0000_0000_0000);
    vstd::arithmetic::div_mod::lemma_mod_mod(n, 0x1_0000, 0x1_0000_0000_0000);
    vstd::arithmetic::div_mod::lemma_mod_mod(n, 0x1_0000_0000, 0x1_0000_0000);
}

/// The low bits that two numbers have in common depend on their low bits alone.
proof fn lemma_common_low_bits(x: u64, y: u64, z: u64, size: OperandSize)
    requires
        crate::x64::machine::low(y, size) == crate::x64::machine::low(z, size),
    ensures
        crate::x64::machine::low(x & y, size) == crate::x64::machine::low(x & z, size),
{
    assert(y % 0x100 == z % 0x100 ==> (x & y) % 0x100 == (x & z) % 0x100) by (bit_vector);
    assert(y % 0x1_0000 == z % 0x1_0000 ==> (x & y) % 0x1_0000 == (x & z) % 0x1_0000)
        by (bit_vector);
    assert(y % 0x1_0000_0000 == z % 0x1_0000_0000 ==> (x & y) % 0x1_0000_0000 == (x & z)
        % 0x1_0000_0000) by (bit_vector);
}

/// A byte is set to one if the condition holds and to zero if it does not; the
/// rest of the register stays.
pub proof fn law_set_by_a_condition(
    s: Machine,
    cc: CC,
    dst: Gpr,
    info: EmitInfo,
    state: EmitState,
)
    requires
        crate::x64::machine::ready(s),
    ensures
        effect(s, Inst::Setcc { cc, dst }, info, state) == s.set(
            dst.enc,
            crate::x64::machine::written(
                s.reg(dst),
                if crate::x64::machine::holds(cc, s.flags) {
                    1
                } else {
                    0
                },
                OperandSize::Size8,
            ),
        ),
{
    crate::x64::machine::law_condition_means_its_name(cc, s.flags);
    let steps = seq![crate::x64::emit_basic::setcc(cc, dst)];
    assert(crate::x64::emit::listing(Inst::Setcc { cc, dst }, info, state) == steps);
    lemma_run_one(s, steps);
    reveal(crate::x64::machine::on_one_register);
}

/// A conditional move takes the one operand if the condition holds, and leaves
/// the other if it does not.
pub proof fn law_conditional_move_selects(
    s: Machine,
    size: OperandSize,
    cc: CC,
    consequent: RegMem,
    dst: Gpr,
    info: EmitInfo,
    state: EmitState,
)
    requires
        crate::x64::machine::ready(s),
        integer_operand(consequent),
        size !is Size8,
    ensures
        effect(s, Inst::Cmove { size, cc, consequent, alternative: dst, dst }, info, state)
            == s.set(
            dst.enc,
            crate::x64::machine::written(
                s.reg(dst),
                if crate::x64::machine::holds(cc, s.flags) {
                    s.operand(consequent, size)
                } else {
                    crate::x64::machine::low(s.reg(dst), size)
                },
                size,
            ),
        ),
{
    crate::x64::machine::law_condition_means_its_name(cc, s.flags);
    let steps = seq![crate::x64::emit_basic::cmove(size, cc, consequent, dst)];
    assert(crate::x64::emit::listing(
        Inst::Cmove { size, cc, consequent, alternative: dst, dst },
        info,
        state,
    ) == steps);
    lemma_run_one(s, steps);
    reveal(crate::x64::machine::on_registers);
    reveal(crate::x64::machine::on_memory);
}

/// The part of a jump that depends on a condition does the same.
proof fn lemma_jmp_cond_part(s: Machine, cc: CC, label: Label)
    requires
        s.at is Here,
        s.pending is Nothing,
    ensures
        crate::x64::machine::run(s, crate::x64::emit_flow::jmp_cond_part(cc, label)) == (
        if crate::x64::machine::holds(cc, s.flags) {
            s.jump(label)
        } else {
            s
        }),
{
    crate::x64::machine::law_condition_means_its_name(cc, s.flags);
    crate::x64::machine::lemma_jump_bytes(s, cc.enc(), label);
    let steps = crate::x64::emit_flow::jmp_cond_part(cc, label);
    assert(steps =~= Seq::<Step>::empty().push(steps[0]).push(steps[1]).push(steps[2]).push(
        steps[3],
    ).push(steps[4]));
    reveal(crate::x64::machine::step);
    reveal(crate::x64::machine::here);
    let s1 = crate::x64::machine::step(s, steps[0]);
    assert(crate::x64::machine::step(s1, steps[1]) == s1);
}

/// An unconditional jump goes to its label.
proof fn lemma_jmp_known(s: Machine, label: Label)
    requires
        s.at is Here,
        s.pending is Nothing,
    ensures
        crate::x64::machine::run(s, crate::x64::emit_flow::jmp_known(label)) == s.jump(label),
{
    let steps = crate::x64::emit_flow::jmp_known(label);
    assert(steps =~= Seq::<Step>::empty().push(steps[0]).push(steps[1]).push(steps[2]).push(
        steps[3],
    ));
    crate::x64::machine::lemma_run_four(s, steps[0], steps[1], steps[2], steps[3]);
    reveal(crate::x64::machine::step);
    reveal(crate::x64::machine::here);
    reveal(crate::x64::machine::after_four);
    let s1 = crate::x64::machine::step(s, steps[0]);
    assert(crate::x64::machine::step(s1, steps[1]) == s1);
    let s3 = crate::x64::machine::step(s1, steps[2]);
    assert(s3.pending == (Pending::Bytes { code: 0xE9, label: Some((1u32, label)) }));
}

/// What is on its way to a label takes no notice of steps that do not bind it.
pub proof fn lemma_passes_by(s: Machine, steps: Seq<Step>)
    requires
        match s.at {
            At::Here => false,
            At::Seek(label) => forall|i: int|
                0 <= i < steps.len() ==> #[trigger] steps[i] != (Step::BindLabel { label }),
            _ => true,
        },
    ensures
        crate::x64::machine::run(s, steps) == s,
    decreases steps.len(),
{
    if steps.len() > 0 {
        reveal(crate::x64::machine::step);
        lemma_passes_by(s, steps.drop_last());
        assert(steps.last() == steps[steps.len() - 1]);
        assert forall|i: int| 0 <= i < steps.drop_last().len() implies steps.drop_last()[i]
            == steps[i] by {}
    }
}

/// A jump goes to its label.
pub proof fn law_jump(s: Machine, dst: Label, info: EmitInfo, state: EmitState)
    requires
        crate::x64::machine::ready(s),
    ensures
        effect(s, Inst::JmpKnown { dst }, info, state) == s.go(At::Seek(dst)),
{
    lemma_jmp_known(s, dst);
}

/// A jump to one of two places goes to the one if the condition holds, and to the
/// other if it does not.
pub proof fn law_jump_goes_by_the_condition(
    s: Machine,
    cc: CC,
    taken: Label,
    not_taken: Label,
    info: EmitInfo,
    state: EmitState,
)
    requires
        crate::x64::machine::ready(s),
    ensures
        effect(s, Inst::JmpCond { cc, taken, not_taken }, info, state) == s.go(
            At::Seek(
                if crate::x64::machine::holds(cc, s.flags) {
                    taken
                } else {
                    not_taken
                },
            ),
        ),
{
    lemma_jmp_cond_part(s, cc, taken);
    let part = crate::x64::machine::run(s, crate::x64::emit_flow::jmp_cond_part(cc, taken));
    if crate::x64::machine::holds(cc, s.flags) {
        lemma_passes_by(part, crate::x64::emit_flow::jmp_known(not_taken));
    } else {
        lemma_jmp_known(part, not_taken);
    }
}

/// A jump on either of two conditions goes to the one place if one of them holds,
/// and to the other if none does.
pub proof fn law_jump_goes_by_either_condition(
    s: Machine,
    cc1: CC,
    cc2: CC,
    taken: Label,
    not_taken: Label,
    info: EmitInfo,
    state: EmitState,
)
    requires
        crate::x64::machine::ready(s),
    ensures
        effect(s, Inst::JmpCondOr { cc1, cc2, taken, not_taken }, info, state) == s.go(
            At::Seek(
                if crate::x64::machine::holds(cc1, s.flags) || crate::x64::machine::holds(
                    cc2,
                    s.flags,
                ) {
                    taken
                } else {
                    not_taken
                },
            ),
        ),
{
    let second = crate::x64::emit_flow::jmp_cond_part(cc2, taken);
    let other = crate::x64::emit_flow::jmp_known(not_taken);
    lemma_jmp_cond_part(s, cc1, taken);
    let one = crate::x64::machine::run(s, crate::x64::emit_flow::jmp_cond_part(cc1, taken));
    if crate::x64::machine::holds(cc1, s.flags) {
        lemma_passes_by(one, second);
        lemma_passes_by(one, other);
    } else {
        lemma_jmp_cond_part(s, cc2, taken);
        if crate::x64::machine::holds(cc2, s.flags) {
            lemma_passes_by(crate::x64::machine::run(one, second), other);
        } else {
            lemma_jmp_known(one, not_taken);
        }
    }
}

/// A jump that does not end a block is taken if the condition holds.
pub proof fn law_one_way_jump(s: Machine, cc: CC, taken: Label, info: EmitInfo, state: EmitState)
    requires
        crate::x64::machine::ready(s),
    ensures
        effect(s, Inst::WinchJmpIf { cc, taken }, info, state) == (
        if crate::x64::machine::holds(cc, s.flags) {
            s.go(At::Seek(taken))
        } else {
            s
        }),
{
    crate::x64::machine::law_jump_if(s, cc, taken);
}

/// A trap on a condition traps with its code if the condition holds, and else
/// execution goes on.
pub proof fn law_trap_goes_by_the_condition(
    s: Machine,
    cc: CC,
    trap_code: TrapCode,
    info: EmitInfo,
    state: EmitState,
)
    requires
        crate::x64::machine::ready(s),
    ensures
        effect(s, Inst::TrapIf { cc, trap_code }, info, state).at == (
        if crate::x64::machine::holds(cc, s.flags) {
            At::Trapped(trap_code)
        } else {
            At::Here
        }),
{
    let trap = Label::Local(0);
    let known = Machine { traps: s.traps.insert(trap, trap_code), ..s };
    crate::x64::machine::law_jump_if(known, cc, trap);
}

/// A trap on two conditions traps if both hold.
pub proof fn law_trap_needs_both_conditions(
    s: Machine,
    cc1: CC,
    cc2: CC,
    trap_code: TrapCode,
    info: EmitInfo,
    state: EmitState,
)
    requires
        crate::x64::machine::ready(s),
    ensures
        effect(s, Inst::TrapIfAnd { cc1, cc2, trap_code }, info, state).at == (
        if crate::x64::machine::holds(cc1, s.flags) && crate::x64::machine::holds(cc2, s.flags) {
            At::Trapped(trap_code)
        } else {
            At::Here
        }),
{
    let trap = Label::Local(0);
    let end = Label::Local(1);
    let known = Machine { traps: s.traps.insert(trap, trap_code), ..s };
    let head = seq![
        Step::DeferTrap { label: trap, code: trap_code },
        Step::GetLabel { label: end },
    ];
    let first = crate::x64::emit_basic::jump_if(cc1.inverse(), end);
    let second = crate::x64::emit_basic::jump_if(cc2, trap);
    let tail = seq![Step::BindLabel { label: end }];
    assert(crate::x64::emit::listing(Inst::TrapIfAnd { cc1, cc2, trap_code }, info, state) == head
        + first + second + tail);
    lemma_run_two(s, head);
    crate::x64::machine::law_inverse_holds_otherwise(cc1, s.flags);
    let after_first = crate::x64::machine::run(known, first);
    let after_second = crate::x64::machine::run(after_first, second);
    lemma_run_one(after_second, tail);
    assert(!known.traps.dom().contains(end));
    assert(known.traps.dom().contains(trap));
}

/// A trap on either of two conditions traps if one of them holds.
pub proof fn law_trap_needs_one_condition(
    s: Machine,
    cc1: CC,
    cc2: CC,
    trap_code: TrapCode,
    info: EmitInfo,
    state: EmitState,
)
    requires
        crate::x64::machine::ready(s),
    ensures
        effect(s, Inst::TrapIfOr { cc1, cc2, trap_code }, info, state).at == (
        if crate::x64::machine::holds(cc1, s.flags) || crate::x64::machine::holds(cc2, s.flags) {
            At::Trapped(trap_code)
        } else {
            At::Here
        }),
{
    let trap = Label::Local(0);
    let known = Machine { traps: s.traps.insert(trap, trap_code), ..s };
    crate::x64::machine::law_jump_if(known, cc1, trap);
    if crate::x64::machine::holds(cc1, s.flags) {
        lemma_passes_by(known.jump(trap), crate::x64::emit_basic::jump_if(cc2, trap));
    } else {
        crate::x64::machine::law_jump_if(known, cc2, trap);
    }
}

/// A conditional move of a vector register is made if the condition holds, and
/// changes nothing else.
pub proof fn law_vector_move_goes_by_the_condition(
    s: Machine,
    ty: Type,
    cc: CC,
    consequent: Xmm,
    dst: Xmm,
    info: EmitInfo,
    state: EmitState,
)
    requires
        crate::x64::machine::ready(s),
    ensures
        effect(s, Inst::XmmCmove { ty, cc, consequent, alternative: dst, dst }, info, state) == (
        if crate::x64::machine::holds(cc, s.flags) {
            s.set_xmm(dst.enc, s.vec(consequent))
        } else {
            s
        }),
{
    let next = Label::Local(0);
    let head = seq![Step::GetLabel { label: next }];
    let skip = crate::x64::emit_basic::jump_if(cc.inverse(), next);
    let tail = seq![
        Step::Emit(Built::Move { dst: Reg::Xmm(dst), src: Reg::Xmm(consequent), ty }),
        Step::BindLabel { label: next },
    ];
    assert(crate::x64::emit::listing(
        Inst::XmmCmove { ty, cc, consequent, alternative: dst, dst },
        info,
        state,
    ) == head + skip + tail);
    lemma_run_one(s, head);
    crate::x64::machine::law_inverse_holds_otherwise(cc, s.flags);
    lemma_run_two(crate::x64::machine::run(s, skip), tail);
    reveal(crate::x64::machine::built);
}

/// A move between registers copies the operand. One of less than 64 bits copies
/// 32 bits and clears the rest.
pub proof fn law_move_copies(
    s: Machine,
    size: OperandSize,
    src: Gpr,
    dst: Gpr,
    info: EmitInfo,
    state: EmitState,
)
    requires
        crate::x64::machine::ready(s),
    ensures
        effect(s, Inst::MovRR { size, src, dst }, info, state) == s.set(
            dst.enc,
            if size is Size64 {
                s.reg(src)
            } else {
                crate::x64::machine::low(s.reg(src), OperandSize::Size32) as u64
            },
        ),
        effect(s, Inst::MovFromPReg { src, dst }, info, state) == s.set(dst.enc, s.reg(src)),
        effect(s, Inst::MovToPReg { src, dst }, info, state) == s.set(dst.enc, s.reg(src)),
{
    reveal(crate::x64::machine::on_registers);
    lemma_run_one(s, seq![crate::x64::emit_basic::mov_rr(size, src, dst)]);
    lemma_run_one(s, seq![crate::x64::emit_basic::mov_rr(OperandSize::Size64, src, dst)]);
}

/// A store writes the low bits of the register to the address, and nothing else.
pub proof fn law_store_writes(
    s: Machine,
    size: OperandSize,
    src: Gpr,
    dst: Amode,
    info: EmitInfo,
    state: EmitState,
)
    requires
        crate::x64::machine::ready(s),
    ensures
        effect(s, Inst::MovRM { size, src, dst }, info, state) == s.store(
            s.address(dst),
            crate::x64::machine::low(s.reg(src), size),
            size,
        ),
{
    reveal(crate::x64::machine::on_memory);
    lemma_run_one(s, seq![crate::x64::emit_basic::mov_rm(size, src, dst)]);
}

/// A store of a constant writes its low bits, extended with its sign, to the
/// address, and nothing else.
pub proof fn law_store_of_a_constant_writes_it(
    s: Machine,
    size: OperandSize,
    simm32: i32,
    dst: Amode,
    info: EmitInfo,
    state: EmitState,
)
    requires
        crate::x64::machine::ready(s),
        !(dst is RipRelative),
    ensures
        effect(s, Inst::MovImmM { size, simm32, dst }, info, state) == s.store(
            s.address(dst),
            crate::x64::machine::wrapped(simm32 as int, size),
            size,
        ),
{
    let n = simm32 as u32;
    assert(n as int == if simm32 >= 0 { simm32 as int } else { simm32 + 0x1_0000_0000 }) by {
        assert(simm32 >= 0 ==> (simm32 as u32) == simm32) by (bit_vector);
        assert(simm32 < 0 ==> (simm32 as u32) == simm32 + 0x1_0000_0000) by (bit_vector);
    }
    lemma_numbers(n, size);
    let steps = crate::x64::emit_basic::mov_imm_m(size, simm32, dst);
    lemma_run_two(s, steps);
    reveal(crate::x64::machine::on_one_address);
    reveal(crate::x64::machine::with_number);
    let s1 = crate::x64::machine::step(s, steps[0]);
    assert(s1.pending is Number);
    crate::x64::machine::lemma_step_number(s1, s1.pending->Number_0, size.bytes(), n);
}

/// A move of a constant puts the constant into the register: all of it if 64 bits
/// are asked for, and else its low 32 bits.
pub proof fn law_constant_is_moved(
    s: Machine,
    dst_size: OperandSize,
    simm64: u64,
    dst: Gpr,
    info: EmitInfo,
    state: EmitState,
)
    requires
        crate::x64::machine::ready(s),
        dst.enc < 16,
    ensures
        effect(s, Inst::Imm { dst_size, simm64, dst }, info, state) == s.set(
            dst.enc,
            if dst_size is Size64 {
                simm64
            } else {
                crate::x64::machine::low(simm64, OperandSize::Size32) as u64
            },
        ),
{
    let steps = crate::x64::emit_basic::imm(dst_size, simm64, dst);
    assert(crate::x64::emit::listing(Inst::Imm { dst_size, simm64, dst }, info, state) == steps);
    if dst_size is Size64 && !crate::x64::args::fits_signed_32(simm64) {
        lemma_long_constant(s, simm64, dst);
    } else if dst_size is Size64 {
        lemma_short_constant(s, simm64, dst);
    } else {
        lemma_half_constant(s, dst_size, simm64, dst);
    }
}

proof fn lemma_long_constant(s: Machine, simm64: u64, dst: Gpr)
    requires
        crate::x64::machine::ready(s),
        dst.enc < 16,
        !crate::x64::args::fits_signed_32(simm64),
    ensures
        crate::x64::machine::run(
            s,
            crate::x64::emit_basic::imm(OperandSize::Size64, simm64, dst),
        ) == s.set(dst.enc, simm64),
{
    let e = dst.enc;
    assert(e < 16 ==> 0x48u8 | ((e >> 3) & 1) == 0x48 + e / 8) by (bit_vector);
    assert(e < 16 ==> 0xB8u8 | (e & 7) == 0xB8 + e % 8) by (bit_vector);
    let steps = crate::x64::emit_basic::imm(OperandSize::Size64, simm64, dst);
    lemma_run_three(s, steps);
    let code = (0x48 + e / 8) * 0x100 + 0xB8 + e % 8;
    lemma_put_bytes(s, (0x48 + e / 8) as u8, (0xB8 + e % 8) as u8);
    let s2 = s.wait(Pending::Bytes { code, label: None });
    reveal(crate::x64::machine::step);
    reveal(crate::x64::machine::here);
    reveal(crate::x64::machine::after_eight);
    assert(crate::x64::machine::step(s2, Step::Put8(simm64)) == crate::x64::machine::after_eight(
        s2,
        code,
        simm64,
    ));
}

/// Two bytes make one number.
proof fn lemma_put_bytes(s: Machine, a: u8, b: u8)
    requires
        crate::x64::machine::ready(s),
        a != 0xC3,
    ensures
        crate::x64::machine::step(s, Step::Put1(a)) == s.wait(
            Pending::Bytes { code: a as int, label: None },
        ),
        crate::x64::machine::step(crate::x64::machine::step(s, Step::Put1(a)), Step::Put1(b))
            == s.wait(Pending::Bytes { code: a * 0x100 + b, label: None }),
{
    reveal(crate::x64::machine::step);
    reveal(crate::x64::machine::here);
}

proof fn lemma_short_constant(s: Machine, simm64: u64, dst: Gpr)
    requires
        crate::x64::machine::ready(s),
        crate::x64::args::fits_signed_32(simm64),
    ensures
        crate::x64::machine::run(
            s,
            crate::x64::emit_basic::imm(OperandSize::Size64, simm64, dst),
        ) == s.set(dst.enc, simm64),
{
    assert(simm64 as u32 == simm64 % 0x1_0000_0000) by (bit_vector);
    let steps = crate::x64::emit_basic::imm(OperandSize::Size64, simm64, dst);
    lemma_run_two(s, steps);
    reveal(crate::x64::machine::on_one_register);
    let use_ = crate::x64::machine::WithNumber::Move { dst: dst.enc };
    let s1 = s.wait(Pending::Number(use_));
    assert(crate::x64::machine::step(s, steps[0]) == s1);
    let n = crate::x64::machine::number(4, simm64 as u32);
    assert(n == if simm64 < 0x8000_0000 {
        simm64 as int
    } else {
        simm64 - 0x1_0000_0000_0000_0000
    });
    assert(crate::x64::machine::wrapped(n, OperandSize::Size64) == simm64);
    lemma_put_number(s1, use_, simm64 as u32);
    reveal(crate::x64::machine::with_number);
}

/// Four bytes are a number.
proof fn lemma_put_number(s: Machine, use_: crate::x64::machine::WithNumber, v: u32)
    requires
        s.at is Here,
        s.pending == Pending::Number(use_),
        crate::x64::machine::bytes_of(use_) == 4,
    ensures
        crate::x64::machine::step(s, Step::Put4(v)) == crate::x64::machine::with_number(
            s,
            use_,
            crate::x64::machine::number(4, v),
        ),
{
    reveal(crate::x64::machine::step);
    reveal(crate::x64::machine::here);
}

proof fn lemma_half_constant(s: Machine, dst_size: OperandSize, simm64: u64, dst: Gpr)
    requires
        crate::x64::machine::ready(s),
        dst.enc < 16,
        dst_size !is Size64,
    ensures
        crate::x64::machine::run(s, crate::x64::emit_basic::imm(dst_size, simm64, dst)) == s.set(
            dst.enc,
            crate::x64::machine::low(simm64, OperandSize::Size32) as u64,
        ),
{
    let e = dst.enc;
    assert(e < 16 ==> 0xB8u8 | (e & 7) == 0xB8 + e % 8) by (bit_vector);
    assert(e < 16 ==> (e >> 3) & 1 == e / 8) by (bit_vector);
    assert(simm64 as u32 == simm64 % 0x1_0000_0000) by (bit_vector);
    let steps = crate::x64::emit_basic::imm(dst_size, simm64, dst);
    let b = (0xB8 + e % 8) as u8;
    if e >= 8 {
        lemma_run_three(s, steps);
        lemma_put_bytes(s, 0x41, b);
        lemma_put_four(s, 0x4100 + b, simm64 as u32);
    } else {
        lemma_run_two(s, steps);
        lemma_put_bytes(s, b, b);
        lemma_put_four(s, b as int, simm64 as u32);
    }
    reveal(crate::x64::machine::after_four);
}

/// Four bytes at the end of an instruction.
proof fn lemma_put_four(s: Machine, code: int, v: u32)
    requires
        crate::x64::machine::ready(s),
    ensures
        crate::x64::machine::step(
            s.wait(Pending::Bytes { code, label: None }),
            Step::Put4(v),
        ) == crate::x64::machine::after_four(
            s.wait(Pending::Bytes { code, label: None }),
            code,
            None,
            v,
        ),
{
    reveal(crate::x64::machine::step);
    reveal(crate::x64::machine::here);
}

/// The load of an address puts the address into the register, of which 32 bits
/// or all are kept. An addition in its place sets the flags too.
pub proof fn law_address_is_computed(
    s: Machine,
    addr: Amode,
    dst: Gpr,
    size: OperandSize,
    info: EmitInfo,
    state: EmitState,
)
    requires
        crate::x64::machine::ready(s),
        size is Size32 || size is Size64,
    ensures
        ({
            let after = effect(s, Inst::LoadEffectiveAddress { addr, dst, size }, info, state);
            &&& after == s.set(
                dst.enc,
                crate::x64::machine::wrapped(s.address(addr), size) as u64,
            ).set_flags(after.flags)
        }),
{
    let step_ = crate::x64::emit_basic::lea(state.frame_layout, addr, dst, size);
    assert(crate::x64::emit::listing(
        Inst::LoadEffectiveAddress { addr, dst, size },
        info,
        state,
    ) == seq![step_]);
    lemma_run_one(s, seq![step_]);
    match addr {
        Amode::ImmReg { simm32, base, .. } if base == dst => {
            lemma_lea_adds_a_constant(s, simm32, dst);
            if size is Size32 {
                reveal(crate::x64::machine::assembled);
                reveal(crate::x64::machine::alu);
                reveal(crate::x64::machine::alu_number);
            } else {
                reveal(crate::x64::machine::built);
            }
        },
        Amode::ImmRegRegShift { simm32, base, index, shift, .. } if simm32 == 0 && shift == 0 && (
        base == dst || index == dst) => {
            vstd::arithmetic::power2::lemma2_to64();
            let i = s.reg(index) as int;
            assert(i * 1 == i);
            assert(vstd::arithmetic::power2::pow2(shift as nat) == 1);
            let sum = s.reg(base) + s.reg(index);
            assert(s.address(addr) == sum % 0x1_0000_0000_0000_0000);
            assert(sum % 0x1_0000_0000_0000_0000 % 0x1_0000_0000 == sum % 0x1_0000_0000);
            reveal(crate::x64::machine::assembled);
            reveal(crate::x64::machine::alu);
        },
        _ => {
            assert(s.address(addr) % 0x1_0000_0000_0000_0000 == s.address(addr));
            reveal(crate::x64::machine::on_memory);
        },
    }
}

/// An addition of a constant, with its sign or as it is encoded.
proof fn lemma_lea_adds_a_constant(s: Machine, simm32: i32, dst: Gpr)
    ensures
        ({
            let sum = s.reg(dst) + simm32;
            crate::x64::machine::wrapped(s.reg(dst) + (simm32 as u32), OperandSize::Size32)
                == crate::x64::machine::wrapped(
                crate::x64::machine::wrapped(sum, OperandSize::Size64),
                OperandSize::Size32,
            )
        }),
{
    assert(simm32 >= 0 ==> (simm32 as u32) == simm32) by (bit_vector);
    assert(simm32 < 0 ==> (simm32 as u32) == simm32 + 0x1_0000_0000) by (bit_vector);
    let sum = s.reg(dst) + simm32;
    assert(sum % 0x1_0000_0000_0000_0000 % 0x1_0000_0000 == sum % 0x1_0000_0000);
}

/// The low 64 bits are all bits.
pub proof fn lemma_low_is_all(v: u64)
    ensures
        crate::x64::machine::low(v, OperandSize::Size64) == v,
{
}

/// A jump to a computed address goes there.
pub proof fn law_computed_jump(s: Machine, target: RegMem, info: EmitInfo, state: EmitState)
    requires
        crate::x64::machine::ready(s),
        integer_operand(target),
    ensures
        effect(s, Inst::JmpUnknown { target }, info, state) == s.go(
            At::Address(s.operand(target, OperandSize::Size64) as u64),
        ),
{
    let steps = seq![crate::x64::emit_flow::indirect(4, target)];
    assert(crate::x64::emit::listing(Inst::JmpUnknown { target }, info, state) == steps);
    lemma_run_one(s, steps);
    reveal(crate::x64::machine::on_one_register);
    reveal(crate::x64::machine::on_one_address);
    match target {
        RegMem::Reg { reg } => {
            let m: u64 = s.gpr[reg.enc()];
            lemma_low_is_all(m);
        },
        RegMem::Mem { addr } => {
            let m: u64 = s.memory[s.address(addr)];
            lemma_low_is_all(m);
        },
    }
}

/// A return gives back the bytes of the stack that it is asked to.
pub proof fn law_return_pops(
    s: Machine,
    stack_bytes_to_pop: u32,
    info: EmitInfo,
    state: EmitState,
)
    requires
        crate::x64::machine::ready(s),
        stack_bytes_to_pop <= u16::MAX,
    ensures
        effect(s, Inst::Ret { stack_bytes_to_pop }, info, state) == s.go(
            At::Returned(stack_bytes_to_pop as int),
        ),
{
    let steps = crate::x64::emit_flow::ret(stack_bytes_to_pop);
    reveal(crate::x64::machine::step);
    reveal(crate::x64::machine::here);
    if stack_bytes_to_pop == 0 {
        lemma_run_one(s, steps);
    } else {
        lemma_run_two(s, steps);
    }
}

} // verus!
