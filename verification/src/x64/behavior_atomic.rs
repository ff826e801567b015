//! What the code for atomic operations on memory does.

use crate::x64::args::{Amode, AtomicRmwSeqOp, Gpr, Label, OperandSize, Type, CC};
use crate::x64::behavior_basic::{effect, lemma_low_is_all, lemma_run_one, lemma_run_two};
use crate::x64::inst::{EmitInfo, EmitState, FrameLayout, Inst};
use crate::x64::machine::{At, Machine};
use crate::x64::sink::{Built, Step};
use vstd::prelude::*;

verus! {

broadcast use {
    crate::x64::machine::group_run,
    crate::x64::machine::group_step,
    crate::x64::machine::group_opcode,
    crate::x64::machine::group_jump,
};

/// The value that an atomic update makes of the old value and the operand, in the
/// low bits of a size.
pub open spec fn combined(op: AtomicRmwSeqOp, x: u64, y: u64, size: OperandSize) -> int {
    let (a, b) = (crate::x64::machine::low(x, size), crate::x64::machine::low(y, size));
    let (i, j) = (crate::x64::machine::signed(a, size), crate::x64::machine::signed(b, size));
    match op {
        AtomicRmwSeqOp::And => crate::x64::machine::low(x & y, size),
        AtomicRmwSeqOp::Nand => crate::x64::machine::low(!(x & y), size),
        AtomicRmwSeqOp::Or => crate::x64::machine::low(x | y, size),
        AtomicRmwSeqOp::Xor => crate::x64::machine::low(x ^ y, size),
        AtomicRmwSeqOp::Umin => if a < b {
            a
        } else {
            b
        },
        AtomicRmwSeqOp::Umax => if a > b {
            a
        } else {
            b
        },
        AtomicRmwSeqOp::Smin => if i < j {
            a
        } else {
            b
        },
        AtomicRmwSeqOp::Smax => if i > j {
            a
        } else {
            b
        },
    }
}

/// Whether an address does not depend on a register.
pub open spec fn apart(mem: Amode, r: Gpr) -> bool {
    match mem {
        Amode::ImmReg { base, .. } => base != r,
        Amode::ImmRegRegShift { base, index, .. } => base != r && index != r,
        Amode::RipRelative { .. } => true,
    }
}

/// What is computed between the load of the old value and its replacement is the
/// operation on the old value, which is in the temporary, and the operand.
/// Nothing else but the flags changes.
pub proof fn law_update_computes_the_operation(
    s: Machine,
    frame: FrameLayout,
    ty: Type,
    op: AtomicRmwSeqOp,
    operand: Gpr,
    temp: Gpr,
)
    requires
        s.at is Here,
        s.pending is Nothing,
        operand != temp,
        ty.is_int(),
    ensures
        ({
            let r = crate::x64::machine::run(
                s,
                crate::x64::emit_atomic::rmw_op(frame, ty, op, operand, temp),
            );
            let size = OperandSize::of_type(ty);
            &&& r == s.set(temp.enc, r.reg(temp)).set_flags(r.flags)
            &&& crate::x64::machine::low(r.reg(temp), size) == combined(
                op,
                s.reg(temp),
                s.reg(operand),
                size,
            )
        }),
{
    let size = OperandSize::of_type(ty);
    let steps = crate::x64::emit_atomic::rmw_op(frame, ty, op, operand, temp);
    let r = crate::x64::machine::run(s, steps);
    let (x, y) = (s.reg(temp), s.reg(operand));
    let (a, b) = (crate::x64::machine::low(x, size), crate::x64::machine::low(y, size));
    match op {
        AtomicRmwSeqOp::And | AtomicRmwSeqOp::Or | AtomicRmwSeqOp::Xor => {
            lemma_run_one(s, steps);
            reveal(crate::x64::machine::assembled);
            reveal(crate::x64::machine::alu);
        },
        AtomicRmwSeqOp::Nand => {
            lemma_run_two(s, steps);
            reveal(crate::x64::machine::assembled);
            reveal(crate::x64::machine::alu);
            assert(r.gpr =~= s.gpr.insert(temp.enc, !(x & y)));
        },
        _ => {
            lemma_run_two(s, steps);
            lemma_compare_and_move(
                s,
                size,
                operand,
                temp,
                match op {
                    AtomicRmwSeqOp::Umin => CC::BE,
                    AtomicRmwSeqOp::Umax => CC::NB,
                    AtomicRmwSeqOp::Smin => CC::LE,
                    _ => CC::NL,
                },
            );
            crate::x64::machine::law_comparison_orders(b, a, size);
        },
    }
}

/// A comparison of the operand with the temporary and a conditional move.
proof fn lemma_compare_and_move(s: Machine, size: OperandSize, operand: Gpr, temp: Gpr, cc: CC)
    requires
        s.at is Here,
        s.pending is Nothing,
        operand != temp,
    ensures
        ({
            let compared = crate::x64::machine::step(
                s,
                crate::x64::emit_atomic::compare_regs(size, operand, temp),
            );
            let r = crate::x64::machine::step(
                compared,
                crate::x64::emit_atomic::move_if(cc, operand, temp),
            );
            let flags = crate::x64::machine::sub_flags(
                crate::x64::machine::low(s.reg(operand), size),
                crate::x64::machine::low(s.reg(temp), size),
                0,
                size,
            );
            &&& compared == s.set_flags(flags)
            &&& r.reg(temp) == (if crate::x64::machine::holds(cc, flags) {
                s.reg(operand)
            } else {
                s.reg(temp)
            })
            &&& r == s.set(temp.enc, r.reg(temp)).set_flags(r.flags)
        }),
{
    reveal(crate::x64::machine::built);
    lemma_low_is_all(s.reg(operand));
    lemma_low_is_all(s.reg(temp));
}

/// What follows the label of an atomic update.
pub open spec fn attempt(
    frame: FrameLayout,
    ty: Type,
    op: AtomicRmwSeqOp,
    mem: Amode,
    operand: Gpr,
    temp: Gpr,
    dst_old: Gpr,
) -> Seq<Step> {
    seq![Step::Emit(Built::MovRR { size: OperandSize::Size64, src: dst_old, dst: temp })]
        + crate::x64::emit_atomic::rmw_op(frame, ty, op, operand, temp) + seq![
        crate::x64::emit_atomic::lock_cmpxchg(ty, temp, mem),
    ] + crate::x64::emit_basic::jump_if(CC::NZ, Label::Local(0))
}

/// The registers of an atomic update are different ones.
pub open spec fn update_regs(mem: Amode, operand: Gpr, temp: Gpr) -> bool {
    let rax = crate::x64::args::rax();
    &&& operand != temp && operand != rax && temp != rax
    &&& apart(mem, temp) && apart(mem, rax)
}

/// One attempt of an atomic update, from the old value in `rax`: if that is what
/// is in memory, the new value takes its place and execution goes on; else memory
/// stays, `rax` has what is there, and the next attempt follows.
proof fn lemma_attempt(
    s: Machine,
    frame: FrameLayout,
    ty: Type,
    op: AtomicRmwSeqOp,
    mem: Amode,
    operand: Gpr,
    temp: Gpr,
)
    requires
        s.at is Here,
        s.pending is Nothing,
        !s.traps.dom().contains(Label::Local(0)),
        ty.is_int(),
        update_regs(mem, operand, temp),
    ensures
        ({
            let rax = crate::x64::args::rax();
            let size = OperandSize::of_type(ty);
            let r = crate::x64::machine::run(
                s,
                attempt(frame, ty, op, mem, operand, temp, rax),
            );
            attempted(s, r, op, size, s.address(mem), s.reg(operand))
        }),
{
    let rax = crate::x64::args::rax();
    let s1 = s.set(temp.enc, s.reg(rax));
    law_update_computes_the_operation(s1, frame, ty, op, operand, temp);
    lemma_attempt_around(
        s,
        crate::x64::emit_atomic::rmw_op(frame, ty, op, operand, temp),
        ty,
        op,
        mem,
        operand,
        temp,
    );
}

/// An attempt, with any steps that compute the operation.
proof fn lemma_attempt_around(
    s: Machine,
    compute: Seq<Step>,
    ty: Type,
    op: AtomicRmwSeqOp,
    mem: Amode,
    operand: Gpr,
    temp: Gpr,
)
    requires
        s.at is Here,
        s.pending is Nothing,
        !s.traps.dom().contains(Label::Local(0)),
        ty.is_int(),
        update_regs(mem, operand, temp),
        ({
            let s1 = s.set(temp.enc, s.gpr[0]);
            let r = crate::x64::machine::run(s1, compute);
            let size = OperandSize::of_type(ty);
            &&& r == s1.set(temp.enc, r.reg(temp)).set_flags(r.flags)
            &&& crate::x64::machine::low(r.reg(temp), size) == combined(
                op,
                s1.reg(temp),
                s1.reg(operand),
                size,
            )
        }),
    ensures
        ({
            let rax = crate::x64::args::rax();
            let size = OperandSize::of_type(ty);
            let steps = seq![
                Step::Emit(Built::MovRR { size: OperandSize::Size64, src: rax, dst: temp }),
            ] + compute + seq![
                crate::x64::emit_atomic::lock_cmpxchg(ty, temp, mem),
            ] + crate::x64::emit_basic::jump_if(CC::NZ, Label::Local(0));
            attempted(
                s,
                crate::x64::machine::run(s, steps),
                op,
                size,
                s.address(mem),
                s.reg(operand),
            )
        }),
{
    let rax = crate::x64::args::rax();
    let size = OperandSize::of_type(ty);
    let first = seq![Step::Emit(Built::MovRR { size: OperandSize::Size64, src: rax, dst: temp })];
    let third = seq![crate::x64::emit_atomic::lock_cmpxchg(ty, temp, mem)];
    let s1 = crate::x64::machine::run(s, first);
    lemma_run_one(s, first);
    lemma_move(s, rax, temp);
    let s2 = crate::x64::machine::run(s1, compute);
    assert(s2.address(mem) == s.address(mem));
    let s3 = crate::x64::machine::run(s2, third);
    lemma_run_one(s2, third);
    lemma_exchange(s2, ty, temp, mem);
    let m = s.memory[s.address(mem)];
    crate::x64::machine::law_comparison_orders(
        crate::x64::machine::low(s2.reg(rax), size),
        crate::x64::machine::low(m, size),
        size,
    );
    lemma_written(s2.reg(rax), crate::x64::machine::low(m, size), size);
    crate::x64::machine::law_jump_if(s3, CC::NZ, Label::Local(0));
}

/// What an attempt of an atomic update makes of a machine: `y` is the operand and
/// `a` the address.
pub open spec fn attempted(
    s: Machine,
    r: Machine,
    op: AtomicRmwSeqOp,
    size: OperandSize,
    a: int,
    y: u64,
) -> bool {
    let (x, m) = (s.gpr[0], s.memory[a]);
    if crate::x64::machine::low(x, size) == crate::x64::machine::low(m, size) {
        &&& r.at is Here
        &&& r.pending is Nothing
        &&& r.memory == s.memory.insert(
            a,
            crate::x64::machine::stored(m, combined(op, x, y, size), size),
        )
        &&& r.gpr[0] == x
        &&& r.traps == s.traps
    } else {
        &&& r.at == At::Seek(Label::Local(0))
        &&& r.pending is Nothing
        &&& r.memory == s.memory
        &&& crate::x64::machine::low(r.gpr[0], size) == crate::x64::machine::low(m, size)
        &&& r.traps == s.traps
    }
}

/// A move of all bits.
proof fn lemma_move(s: Machine, src: Gpr, dst: Gpr)
    requires
        s.at is Here,
        s.pending is Nothing,
    ensures
        crate::x64::machine::step(
            s,
            Step::Emit(Built::MovRR { size: OperandSize::Size64, src, dst }),
        ) == s.set(dst.enc, s.reg(src)),
{
    reveal(crate::x64::machine::built);
    lemma_low_is_all(s.reg(src));
}

/// The exchange of an atomic update.
proof fn lemma_exchange(s: Machine, ty: Type, temp: Gpr, mem: Amode)
    requires
        s.at is Here,
        s.pending is Nothing,
        ty.is_int(),
    ensures
        ({
            let size = OperandSize::of_type(ty);
            let (rax, m) = (s.gpr[0], s.memory[s.address(mem)]);
            let compared = s.set_flags(
                crate::x64::machine::sub_flags(
                    crate::x64::machine::low(rax, size),
                    crate::x64::machine::low(m, size),
                    0,
                    size,
                ),
            );
            crate::x64::machine::step(s, crate::x64::emit_atomic::lock_cmpxchg(ty, temp, mem)) == (
            if crate::x64::machine::low(rax, size) == crate::x64::machine::low(m, size) {
                compared.store(s.address(mem), crate::x64::machine::low(s.reg(temp), size), size)
            } else {
                compared.set(
                    0,
                    crate::x64::machine::written(rax, crate::x64::machine::low(m, size), size),
                )
            })
        }),
{
    reveal(crate::x64::machine::on_memory);
}

/// A register whose low bits were written has them.
pub proof fn lemma_written(v: u64, n: int, size: OperandSize)
    requires
        0 <= n < crate::x64::machine::values(size),
    ensures
        crate::x64::machine::low(crate::x64::machine::written(v, n, size), size) == n,
        crate::x64::machine::low(crate::x64::machine::stored(v, n, size), size) == n,
{
    let k = crate::x64::machine::values(size);
    let q = v as int / k;
    vstd::arithmetic::div_mod::lemma_fundamental_div_mod(v as int, k);
    vstd::arithmetic::div_mod::lemma_mod_multiples_vanish(q, n, k);
    vstd::arithmetic::div_mod::lemma_small_mod(n as nat, k as nat);
    lemma_fits(v, n, size);
}

/// What replaces the low bits of a register fits in it.
proof fn lemma_fits(v: u64, n: int, size: OperandSize)
    requires
        0 <= n < crate::x64::machine::values(size),
    ensures
        0 <= v - crate::x64::machine::low(v, size) + n <= u64::MAX,
{
    let w = v as int;
    assert(w - w % 0x100 <= 0xffff_ffff_ffff_ff00);
    assert(w - w % 0x1_0000 <= 0xffff_ffff_ffff_0000);
    assert(w - w % 0x1_0000_0000 <= 0xffff_ffff_0000_0000);
    assert(w % 0x1_0000_0000_0000_0000 == w);
}

/// An atomic update puts the result of the operation on the old value and the
/// operand into memory, leaves the rest of memory alone, and gives the old value,
/// extended with zeros.
pub proof fn law_atomic_update(
    s: Machine,
    ty: Type,
    op: AtomicRmwSeqOp,
    mem: Amode,
    operand: Gpr,
    temp: Gpr,
    info: EmitInfo,
    state: EmitState,
)
    requires
        crate::x64::machine::ready(s),
        ty.is_int(),
        update_regs(mem, operand, temp),
    ensures
        ({
            let dst_old = crate::x64::args::rax();
            let size = OperandSize::of_type(ty);
            let m = s.memory[s.address(mem)];
            let r = effect(
                s,
                Inst::AtomicRmwSeq { ty, op, mem, operand, temp, dst_old },
                info,
                state,
            );
            &&& r.at is Here
            &&& r.reg(dst_old) == crate::x64::machine::low(m, size)
            &&& r.memory == s.memory.insert(
                s.address(mem),
                crate::x64::machine::stored(
                    m,
                    combined(op, r.reg(dst_old), s.reg(operand), size),
                    size,
                ),
            )
        }),
{
    let rax = crate::x64::args::rax();
    let size = OperandSize::of_type(ty);
    let head = start(ty, mem);
    let rest = attempt(state.frame_layout, ty, op, mem, operand, temp, rax);
    lemma_listing(ty, op, mem, operand, temp, info, state);
    let s1 = crate::x64::machine::run(s, head);
    lemma_start(s, ty, mem);
    lemma_attempt(s1, state.frame_layout, ty, op, mem, operand, temp);
    let m = s.memory[s.address(mem)];
    lemma_low_twice(m, size);
}

/// The low bits of the low bits.
proof fn lemma_low_twice(v: u64, size: OperandSize)
    ensures
        0 <= crate::x64::machine::low(v, size) <= v,
        crate::x64::machine::low(crate::x64::machine::low(v, size) as u64, size)
            == crate::x64::machine::low(v, size),
{
}

/// The start of an atomic update.
pub open spec fn start(ty: Type, mem: Amode) -> Seq<Step> {
    seq![
        Step::GetLabel { label: Label::Local(0) },
        Step::Emit(Built::Load { ty, addr: mem, plus: 0, dst: crate::x64::args::rax() }),
        Step::BindLabel { label: Label::Local(0) },
    ]
}

proof fn lemma_listing(
    ty: Type,
    op: AtomicRmwSeqOp,
    mem: Amode,
    operand: Gpr,
    temp: Gpr,
    info: EmitInfo,
    state: EmitState,
)
    ensures
        ({
            let rax = crate::x64::args::rax();
            crate::x64::emit::listing(
                Inst::AtomicRmwSeq { ty, op, mem, operand, temp, dst_old: rax },
                info,
                state,
            ) == start(ty, mem) + attempt(state.frame_layout, ty, op, mem, operand, temp, rax)
        }),
{
    let rax = crate::x64::args::rax();
    assert(crate::x64::emit_atomic::atomic_rmw_seq(
        state.frame_layout,
        ty,
        op,
        mem,
        operand,
        temp,
        rax,
    ) =~= start(ty, mem) + attempt(state.frame_layout, ty, op, mem, operand, temp, rax));
}

/// The start of an atomic update loads the old value, or is passed by on the way
/// to the label.
proof fn lemma_start(s: Machine, ty: Type, mem: Amode)
    requires
        s.pending is Nothing,
        ty.is_int(),
    ensures
        ({
            let r = crate::x64::machine::run(s, start(ty, mem));
            &&& s.at is Here ==> r == s.set(
                0,
                crate::x64::machine::low(
                    s.memory[s.address(mem)],
                    OperandSize::of_type(ty),
                ) as u64,
            )
            &&& s.at == At::Seek(Label::Local(0)) ==> r == s.go(At::Here)
        }),
{
    let steps = start(ty, mem);
    assert(steps =~= Seq::<Step>::empty().push(steps[0]).push(steps[1]).push(steps[2]));
    reveal(crate::x64::machine::built);
}

/// An attempt that follows a failed one has the same outcome: the value in `rax`
/// is replaced in memory by the result of the operation on it if it is there, and
/// else memory stays and the attempts go on.
pub proof fn law_atomic_update_tries_again(
    s: Machine,
    ty: Type,
    op: AtomicRmwSeqOp,
    mem: Amode,
    operand: Gpr,
    temp: Gpr,
    info: EmitInfo,
    state: EmitState,
)
    requires
        s.at == At::Seek(Label::Local(0)),
        s.pending is Nothing,
        !s.traps.dom().contains(Label::Local(0)),
        ty.is_int(),
        update_regs(mem, operand, temp),
    ensures
        ({
            let dst_old = crate::x64::args::rax();
            let size = OperandSize::of_type(ty);
            let r = effect(
                s,
                Inst::AtomicRmwSeq { ty, op, mem, operand, temp, dst_old },
                info,
                state,
            );
            attempted(s, r, op, size, s.address(mem), s.reg(operand))
        }),
{
    lemma_listing(ty, op, mem, operand, temp, info, state);
    lemma_start(s, ty, mem);
    lemma_attempt(s.go(At::Here), state.frame_layout, ty, op, mem, operand, temp);
}

/// An exchange if the value is as expected replaces the value in memory by the
/// new one if it is the one in `rax`; else memory stays. Either way `rax` has the
/// old value in the bits of the size.
pub proof fn law_exchange_if_expected(
    s: Machine,
    ty: Type,
    replacement: Gpr,
    mem: Amode,
    info: EmitInfo,
    state: EmitState,
)
    requires
        crate::x64::machine::ready(s),
        ty.is_int(),
    ensures
        ({
            let rax = crate::x64::args::rax();
            let size = OperandSize::of_type(ty);
            let m = s.memory[s.address(mem)];
            let same = crate::x64::machine::low(s.reg(rax), size) == crate::x64::machine::low(
                m,
                size,
            );
            let r = effect(
                s,
                Inst::LockCmpxchg { ty, replacement, expected: rax, mem, dst_old: rax },
                info,
                state,
            );
            &&& r.at is Here
            &&& r.memory == (if same {
                s.memory.insert(
                    s.address(mem),
                    crate::x64::machine::stored(
                        m,
                        crate::x64::machine::low(s.reg(replacement), size),
                        size,
                    ),
                )
            } else {
                s.memory
            })
            &&& crate::x64::machine::low(r.reg(rax), size) == crate::x64::machine::low(m, size)
            &&& r.flags.zero == same
        }),
{
    let rax = crate::x64::args::rax();
    let size = OperandSize::of_type(ty);
    let m = s.memory[s.address(mem)];
    let steps = seq![crate::x64::emit_atomic::lock_cmpxchg(ty, replacement, mem)];
    assert(crate::x64::emit::listing(
        Inst::LockCmpxchg { ty, replacement, expected: rax, mem, dst_old: rax },
        info,
        state,
    ) == steps);
    lemma_run_one(s, steps);
    lemma_exchange(s, ty, replacement, mem);
    crate::x64::machine::law_comparison_orders(
        crate::x64::machine::low(s.reg(rax), size),
        crate::x64::machine::low(m, size),
        size,
    );
    lemma_written(s.reg(rax), crate::x64::machine::low(m, size), size);
}

/// An atomic addition adds the operand to memory, and gives the old value.
pub proof fn law_exchange_and_add(
    s: Machine,
    size: OperandSize,
    operand: Gpr,
    mem: Amode,
    info: EmitInfo,
    state: EmitState,
)
    requires
        crate::x64::machine::ready(s),
    ensures
        ({
            let m = s.memory[s.address(mem)];
            let (a, b) = (
                crate::x64::machine::low(m, size),
                crate::x64::machine::low(s.reg(operand), size),
            );
            let r = effect(s, Inst::LockXadd { size, operand, mem, dst_old: operand }, info, state);
            &&& r.at is Here
            &&& r.memory == s.memory.insert(
                s.address(mem),
                crate::x64::machine::stored(m, crate::x64::machine::wrapped(a + b, size), size),
            )
            &&& crate::x64::machine::low(r.reg(operand), size) == a
        }),
{
    let steps = seq![crate::x64::emit_atomic::lock_xadd(size, operand, mem)];
    assert(crate::x64::emit::listing(
        Inst::LockXadd { size, operand, mem, dst_old: operand },
        info,
        state,
    ) == steps);
    lemma_run_one(s, steps);
    reveal(crate::x64::machine::on_memory);
    let m = s.memory[s.address(mem)];
    lemma_written(s.reg(operand), crate::x64::machine::low(m, size), size);
}

/// An exchange puts the operand into memory, and gives the old value.
pub proof fn law_exchange(
    s: Machine,
    size: OperandSize,
    operand: Gpr,
    mem: Amode,
    info: EmitInfo,
    state: EmitState,
)
    requires
        crate::x64::machine::ready(s),
    ensures
        ({
            let m = s.memory[s.address(mem)];
            let r = effect(s, Inst::Xchg { size, operand, mem, dst_old: operand }, info, state);
            &&& r.at is Here
            &&& r.memory == s.memory.insert(
                s.address(mem),
                crate::x64::machine::stored(
                    m,
                    crate::x64::machine::low(s.reg(operand), size),
                    size,
                ),
            )
            &&& crate::x64::machine::low(r.reg(operand), size) == crate::x64::machine::low(m, size)
        }),
{
    let steps = seq![crate::x64::emit_atomic::xchg(size, operand, mem)];
    assert(crate::x64::emit::listing(
        Inst::Xchg { size, operand, mem, dst_old: operand },
        info,
        state,
    ) == steps);
    lemma_run_one(s, steps);
    reveal(crate::x64::machine::on_memory);
    let m = s.memory[s.address(mem)];
    lemma_written(s.reg(operand), crate::x64::machine::low(m, size), size);
}

} // verus!
