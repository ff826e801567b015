//! What the code for atomic updates of 16 bytes does.

use crate::x64::args::{
    rax, rbx, rcx, rdx, Amode, Atomic128RmwSeqOp, Gpr, Label, OperandSize, Type, CC,
};
use crate::x64::behavior_atomic::apart;
use crate::x64::behavior_basic::{effect, lemma_low_is_all, lemma_run_one, lemma_run_two};
use crate::x64::behavior_convert::lemma_run_five;
use crate::x64::inst::{EmitInfo, EmitState, FrameLayout, Inst};
use crate::x64::machine::{At, Machine};
use crate::x64::sink::{AsmOp, Built, Step};
use vstd::prelude::*;

verus! {

broadcast use {
    crate::x64::machine::group_run,
    crate::x64::machine::group_step,
    crate::x64::machine::group_opcode,
};

/// How many values there are of 64 bits.
pub open spec fn half() -> int {
    0x1_0000_0000_0000_0000
}

/// How many values there are of 128 bits.
pub open spec fn whole() -> int {
    0x1_0000_0000_0000_0000_0000_0000_0000_0000int
}

/// The number that two registers hold.
pub open spec fn number(lo: u64, hi: u64) -> int {
    hi * half() + lo
}

/// The number that two registers hold, with its sign.
pub open spec fn signed_number(lo: u64, hi: u64) -> int {
    if hi >= 0x8000_0000_0000_0000 {
        number(lo, hi) - whole()
    } else {
        number(lo, hi)
    }
}

/// What an operation makes of two numbers of 128 bits.
pub open spec fn combined(op: Atomic128RmwSeqOp, x: (u64, u64), y: (u64, u64)) -> int {
    let (a, b) = (number(x.0, x.1), number(y.0, y.1));
    let (i, j) = (signed_number(x.0, x.1), signed_number(y.0, y.1));
    match op {
        Atomic128RmwSeqOp::Add => if a + b >= whole() {
            a + b - whole()
        } else {
            a + b
        },
        Atomic128RmwSeqOp::Sub => if a < b {
            a - b + whole()
        } else {
            a - b
        },
        Atomic128RmwSeqOp::And => number(x.0 & y.0, x.1 & y.1),
        Atomic128RmwSeqOp::Nand => number(!(x.0 & y.0), !(x.1 & y.1)),
        Atomic128RmwSeqOp::Or => number(x.0 | y.0, x.1 | y.1),
        Atomic128RmwSeqOp::Xor => number(x.0 ^ y.0, x.1 ^ y.1),
        Atomic128RmwSeqOp::Umin => if a < b {
            a
        } else {
            b
        },
        Atomic128RmwSeqOp::Umax => if a > b {
            a
        } else {
            b
        },
        Atomic128RmwSeqOp::Smin => if i < j {
            a
        } else {
            b
        },
        Atomic128RmwSeqOp::Smax => if i > j {
            a
        } else {
            b
        },
    }
}

/// Whether a machine has computed something in `rcx:rbx` and changed nothing else.
pub open spec fn computed(s: Machine, r: Machine) -> bool {
    &&& r.at is Here
    &&& r.pending is Nothing
    &&& r.traps == s.traps
    &&& r.places == s.places
    &&& r.memory == s.memory
    &&& r.gpr == s.gpr.insert(rbx().enc, r.reg(rbx())).insert(rcx().enc, r.reg(rcx()))
}

/// What the flags of a subtraction with a borrow say of two numbers of 128 bits.
proof fn lemma_borrow(x: (u64, u64), y: (u64, u64))
    ensures
        ({
            let c: int = if x.0 < y.0 {
                1
            } else {
                0
            };
            let f = crate::x64::machine::sub_flags(
                x.1 as int,
                y.1 as int,
                c,
                OperandSize::Size64,
            );
            &&& crate::x64::machine::holds(CC::B, f) == (number(x.0, x.1) < number(y.0, y.1))
            &&& crate::x64::machine::holds(CC::NB, f) == (number(x.0, x.1) >= number(y.0, y.1))
            &&& crate::x64::machine::holds(CC::L, f) == (signed_number(x.0, x.1) < signed_number(
                y.0,
                y.1,
            ))
            &&& crate::x64::machine::holds(CC::NL, f) == (signed_number(x.0, x.1)
                >= signed_number(y.0, y.1))
        }),
{
}

proof fn lemma_alu(s: Machine, frame: FrameLayout, op: AsmOp, dst: Gpr, src: Gpr)
    requires
        s.at is Here,
        s.pending is Nothing,
    ensures
        crate::x64::machine::step(s, crate::x64::emit_atomic::alu(frame, op, dst, src))
            == crate::x64::machine::alu(s, op, dst.enc, s.reg(src)),
{
    reveal(crate::x64::machine::assembled);
}

/// What operations on one half make of a machine.
proof fn lemma_halves(s: Machine, dst: u8, y: u64)
    ensures
        ({
            let x = s.gpr[dst];
            let c: int = if s.flags.carry {
                1
            } else {
                0
            };
            let and = crate::x64::machine::alu(s, AsmOp::AndqRm, dst, y);
            let or = crate::x64::machine::alu(s, AsmOp::OrqRm, dst, y);
            let xor = crate::x64::machine::alu(s, AsmOp::XorqRm, dst, y);
            &&& and == s.set(dst, x & y).set_flags(and.flags)
            &&& or == s.set(dst, x | y).set_flags(or.flags)
            &&& xor == s.set(dst, x ^ y).set_flags(xor.flags)
        }),
{
    reveal(crate::x64::machine::alu);
}

/// What additions and subtractions make of a machine: the carry of the first of two
/// counts in the second.
proof fn lemma_carries(s: Machine, dst: u8, y: u64)
    ensures
        ({
            let x = s.gpr[dst];
            let c: int = if s.flags.carry {
                1
            } else {
                0
            };
            let plus = crate::x64::machine::alu(s, AsmOp::AddqRm, dst, y);
            let minus = crate::x64::machine::alu(s, AsmOp::SubqRm, dst, y);
            let more = crate::x64::machine::alu(s, AsmOp::AdcqRm, dst, y);
            let less = crate::x64::machine::alu(s, AsmOp::SbbqRm, dst, y);
            &&& plus == s.set(dst, crate::x64::machine::extended(x + y)).set_flags(plus.flags)
            &&& plus.flags.carry == (x + y >= half())
            &&& minus == s.set(dst, crate::x64::machine::extended(x - y)).set_flags(minus.flags)
            &&& minus.flags.carry == (x < y)
            &&& more == s.set(dst, crate::x64::machine::extended(x + y + c)).set_flags(more.flags)
            &&& less == s.set(dst, crate::x64::machine::extended(x - y - c)).set_flags(less.flags)
        }),
{
    reveal(crate::x64::machine::alu);
}

/// Numbers are added and subtracted half by half.
proof fn lemma_sums(x: (u64, u64), y: (u64, u64))
    ensures
        ({
            let c: int = if x.0 + y.0 >= half() {
                1
            } else {
                0
            };
            let d: int = if x.0 < y.0 {
                1
            } else {
                0
            };
            &&& number(
                crate::x64::machine::extended(x.0 + y.0),
                crate::x64::machine::extended(x.1 + y.1 + c),
            ) == combined(Atomic128RmwSeqOp::Add, x, y)
            &&& number(
                crate::x64::machine::extended(x.0 - y.0),
                crate::x64::machine::extended(x.1 - y.1 - d),
            ) == combined(Atomic128RmwSeqOp::Sub, x, y)
        }),
{
}

/// An operation on the low halves and then on the high halves.
proof fn lemma_both(
    s: Machine,
    frame: FrameLayout,
    low: AsmOp,
    high: AsmOp,
    operand: (Gpr, Gpr),
)
    requires
        s.at is Here,
        s.pending is Nothing,
        free(operand.0) && free(operand.1),
        low is AddqRm && high is AdcqRm || low is SubqRm && high is SbbqRm || low is AndqRm
            && high is AndqRm || low is OrqRm && high is OrqRm || low is XorqRm && high is XorqRm,
    ensures
        ({
            let r = crate::x64::machine::run(
                s,
                crate::x64::emit_atomic::both(frame, low, high, (rbx(), rcx()), operand),
            );
            let (x, y) = (
                (s.reg(rbx()), s.reg(rcx())),
                (s.reg(operand.0), s.reg(operand.1)),
            );
            let n = number(r.reg(rbx()), r.reg(rcx()));
            &&& computed(s, r)
            &&& low is AddqRm ==> n == combined(Atomic128RmwSeqOp::Add, x, y)
            &&& low is SubqRm ==> n == combined(Atomic128RmwSeqOp::Sub, x, y)
            &&& low is AndqRm ==> r.reg(rbx()) == x.0 & y.0 && r.reg(rcx()) == x.1 & y.1
            &&& low is OrqRm ==> n == combined(Atomic128RmwSeqOp::Or, x, y)
            &&& low is XorqRm ==> n == combined(Atomic128RmwSeqOp::Xor, x, y)
        }),
{
    let steps = crate::x64::emit_atomic::both(frame, low, high, (rbx(), rcx()), operand);
    let (x, y) = ((s.reg(rbx()), s.reg(rcx())), (s.reg(operand.0), s.reg(operand.1)));
    lemma_run_two(s, steps);
    lemma_alu(s, frame, low, rbx(), operand.0);
    let s1 = crate::x64::machine::alu(s, low, rbx().enc, y.0);
    lemma_halves(s, rbx().enc, y.0);
    lemma_carries(s, rbx().enc, y.0);
    assert(s1.at is Here && s1.pending is Nothing);
    assert(s1.reg(operand.1) == y.1 && s1.reg(rcx()) == x.1);
    lemma_alu(s1, frame, high, rcx(), operand.1);
    lemma_halves(s1, rcx().enc, y.1);
    lemma_carries(s1, rcx().enc, y.1);
    lemma_sums(x, y);
    let r = crate::x64::machine::run(s, steps);
    assert(r.gpr =~= s.gpr.insert(rbx().enc, r.reg(rbx())).insert(rcx().enc, r.reg(rcx())));
}

/// Whether a register is none of those that the update is bound to.
pub open spec fn free(r: Gpr) -> bool {
    r.enc != rax().enc && r.enc != rbx().enc && r.enc != rcx().enc && r.enc != rdx().enc
}

proof fn lemma_not(s: Machine, frame: FrameLayout, dst: Gpr)
    requires
        s.at is Here,
        s.pending is Nothing,
    ensures
        crate::x64::machine::step(s, crate::x64::emit_atomic::not_q(frame, dst)) == s.set(
            dst.enc,
            !s.reg(dst),
        ),
{
    reveal(crate::x64::machine::assembled);
}

proof fn lemma_select(s: Machine, cc: CC, src: Gpr, dst: Gpr)
    requires
        s.at is Here,
        s.pending is Nothing,
    ensures
        crate::x64::machine::step(s, crate::x64::emit_atomic::move_if(cc, src, dst)) == s.set(
            dst.enc,
            if crate::x64::machine::holds(cc, s.flags) {
                s.reg(src)
            } else {
                s.reg(dst)
            },
        ),
{
    reveal(crate::x64::machine::built);
    lemma_low_is_all(s.reg(src));
    lemma_low_is_all(s.reg(dst));
}

proof fn lemma_move(s: Machine, src: Gpr, dst: Gpr)
    requires
        s.at is Here,
        s.pending is Nothing,
    ensures
        crate::x64::machine::step(
            s,
            Step::Emit(Built::MovRR { size: OperandSize::Size64, src, dst }),
        ) == s.set(dst.enc, s.reg(src)),
{
    reveal(crate::x64::machine::built);
    lemma_low_is_all(s.reg(src));
}

/// A minimum or a maximum.
proof fn lemma_choice(s: Machine, frame: FrameLayout, op: Atomic128RmwSeqOp, operand: (Gpr, Gpr))
    requires
        s.at is Here,
        s.pending is Nothing,
        free(operand.0) && free(operand.1),
        s.reg(rdx()) == s.reg(rcx()),
        op is Umin || op is Umax || op is Smin || op is Smax,
    ensures
        ({
            let r = crate::x64::machine::run(
                s,
                crate::x64::emit_atomic::rmw128_op(frame, op, operand, (rbx(), rcx()), rdx()),
            );
            let (x, y) = (
                (s.reg(rbx()), s.reg(rcx())),
                (s.reg(operand.0), s.reg(operand.1)),
            );
            &&& computed(s, r)
            &&& number(r.reg(rbx()), r.reg(rcx())) == combined(op, x, y)
        }),
{
    let steps = crate::x64::emit_atomic::rmw128_op(frame, op, operand, (rbx(), rcx()), rdx());
    let cc = crate::x64::emit_atomic::operand_wins(op);
    let (x, y) = ((s.reg(rbx()), s.reg(rcx())), (s.reg(operand.0), s.reg(operand.1)));
    lemma_run_five(s, steps);
    let o = crate::x64::args::RegMemImm::Reg { reg: crate::x64::args::Reg::Gpr(operand.0) };
    crate::x64::behavior_convert::lemma_built_compare(s, OperandSize::Size64, rbx(), o);
    lemma_low_is_all(x.0);
    lemma_low_is_all(y.0);
    let s1 = crate::x64::machine::step(s, steps[0]);
    assert(s1.flags.carry == (x.0 < y.0));
    lemma_alu(s1, frame, AsmOp::SbbqRm, rcx(), operand.1);
    let s2 = crate::x64::machine::step(s1, steps[1]);
    let c: int = if x.0 < y.0 {
        1
    } else {
        0
    };
    let f = crate::x64::machine::sub_flags(x.1 as int, y.1 as int, c, OperandSize::Size64);
    assert(s2 == s1.set(rcx().enc, s2.reg(rcx())).set_flags(f)) by {
        reveal(crate::x64::machine::alu);
    }
    lemma_borrow(x, y);
    lemma_move(s2, rdx(), rcx());
    let s3 = crate::x64::machine::step(s2, steps[2]);
    lemma_select(s3, cc, operand.0, rbx());
    let s4 = crate::x64::machine::step(s3, steps[3]);
    lemma_select(s4, cc, operand.1, rcx());
    let r = crate::x64::machine::run(s, steps);
    assert(r.gpr =~= s.gpr.insert(rbx().enc, r.reg(rbx())).insert(rcx().enc, r.reg(rcx())));
}

/// The code that computes the new value computes the operation, and changes no
/// register but those that it computes in.
pub proof fn law_wide_update_computes_the_operation(
    s: Machine,
    frame: FrameLayout,
    op: Atomic128RmwSeqOp,
    operand: (Gpr, Gpr),
)
    requires
        s.at is Here,
        s.pending is Nothing,
        free(operand.0) && free(operand.1),
        s.reg(rdx()) == s.reg(rcx()),
    ensures
        ({
            let r = crate::x64::machine::run(
                s,
                crate::x64::emit_atomic::rmw128_op(frame, op, operand, (rbx(), rcx()), rdx()),
            );
            let (x, y) = (
                (s.reg(rbx()), s.reg(rcx())),
                (s.reg(operand.0), s.reg(operand.1)),
            );
            &&& computed(s, r)
            &&& number(r.reg(rbx()), r.reg(rcx())) == combined(op, x, y)
        }),
{
    let temp = (rbx(), rcx());
    match op {
        Atomic128RmwSeqOp::Add => {
            lemma_both(s, frame, AsmOp::AddqRm, AsmOp::AdcqRm, operand);
        },
        Atomic128RmwSeqOp::Sub => {
            lemma_both(s, frame, AsmOp::SubqRm, AsmOp::SbbqRm, operand);
        },
        Atomic128RmwSeqOp::And => {
            lemma_both(s, frame, AsmOp::AndqRm, AsmOp::AndqRm, operand);
        },
        Atomic128RmwSeqOp::Or => {
            lemma_both(s, frame, AsmOp::OrqRm, AsmOp::OrqRm, operand);
        },
        Atomic128RmwSeqOp::Xor => {
            lemma_both(s, frame, AsmOp::XorqRm, AsmOp::XorqRm, operand);
        },
        Atomic128RmwSeqOp::Nand => {
            lemma_both(s, frame, AsmOp::AndqRm, AsmOp::AndqRm, operand);
            let a = crate::x64::emit_atomic::both(
                frame,
                AsmOp::AndqRm,
                AsmOp::AndqRm,
                temp,
                operand,
            );
            let b = seq![
                crate::x64::emit_atomic::not_q(frame, rbx()),
                crate::x64::emit_atomic::not_q(frame, rcx()),
            ];
            assert(crate::x64::emit_atomic::rmw128_op(frame, op, operand, temp, rdx()) == a + b);
            let s1 = crate::x64::machine::run(s, a);
            lemma_run_two(s1, b);
            lemma_not(s1, frame, rbx());
            lemma_not(s1.set(rbx().enc, !s1.reg(rbx())), frame, rcx());
            let r = crate::x64::machine::run(s1, b);
            assert(r.gpr =~= s.gpr.insert(rbx().enc, r.reg(rbx())).insert(
                rcx().enc,
                r.reg(rcx()),
            ));
        },
        _ => {
            lemma_choice(s, frame, op, operand);
        },
    }
}

/// The address is none of the registers that an update is bound to.
pub open spec fn address_apart(mem: Amode) -> bool {
    apart(mem, rax()) && apart(mem, rbx()) && apart(mem, rcx()) && apart(mem, rdx())
}

proof fn lemma_exchange(s: Machine, mem: Amode)
    requires
        s.at is Here,
        s.pending is Nothing,
    ensures
        ({
            let a = s.address(mem);
            let same = s.reg(rax()) == s.memory[a] && s.reg(rdx()) == s.memory[a + 8];
            let r = crate::x64::machine::step(s, crate::x64::emit_atomic::lock_cmpxchg16b(mem));
            &&& r.at == s.at && r.pending == s.pending && r.traps == s.traps
            &&& r.flags.zero == same
            &&& same ==> r.gpr == s.gpr && r.memory == s.memory.insert(a, s.reg(rbx())).insert(
                a + 8,
                s.reg(rcx()),
            )
            &&& !same ==> r.memory == s.memory && r.gpr == s.gpr.insert(
                rax().enc,
                s.memory[a],
            ).insert(rdx().enc, s.memory[a + 8])
        }),
{
    reveal(crate::x64::machine::on_one_address);
}

/// An exchange of 16 bytes puts the new ones into memory if those there are the ones
/// that are expected; else memory stays. Either way the registers of the old value
/// have what was in memory.
pub proof fn law_wide_exchange_if_expected(
    s: Machine,
    mem: Amode,
    info: EmitInfo,
    state: EmitState,
)
    requires
        crate::x64::machine::ready(s),
    ensures
        ({
            let a = s.address(mem);
            let (lo, hi) = (s.memory[a], s.memory[a + 8]);
            let r = effect(
                s,
                Inst::LockCmpxchg16b {
                    replacement_low: rbx(),
                    replacement_high: rcx(),
                    expected_low: rax(),
                    expected_high: rdx(),
                    mem,
                    dst_old_low: rax(),
                    dst_old_high: rdx(),
                },
                info,
                state,
            );
            let same = number(s.reg(rax()), s.reg(rdx())) == number(lo, hi);
            &&& r.at is Here
            &&& number(r.reg(rax()), r.reg(rdx())) == number(lo, hi)
            &&& r.flags.zero == same
            &&& same ==> number(r.memory[a], r.memory[a + 8]) == number(s.reg(rbx()), s.reg(rcx()))
            &&& !same ==> r.memory == s.memory
            &&& forall|b: int| b != a && b != a + 8 ==> #[trigger] r.memory[b] == s.memory[b]
        }),
{
    let steps = seq![crate::x64::emit_atomic::lock_cmpxchg16b(mem)];
    lemma_run_one(s, steps);
    lemma_exchange(s, mem);
}

/// What an attempt of an update of 16 bytes makes of a machine: if the old value in
/// `rdx:rax` is what is in memory, `n` is there then and execution goes on. Else
/// memory stays, `rdx:rax` has what is there, and the next attempt follows.
pub open spec fn attempted(s: Machine, r: Machine, a: int, n: int) -> bool {
    let old_value = number(s.memory[a], s.memory[a + 8]);
    &&& r.pending is Nothing
    &&& r.traps == s.traps
    &&& number(r.reg(rax()), r.reg(rdx())) == old_value
    &&& forall|b: int| b != a && b != a + 8 ==> #[trigger] r.memory[b] == s.memory[b]
    &&& if number(s.reg(rax()), s.reg(rdx())) == old_value {
        r.at is Here && number(r.memory[a], r.memory[a + 8]) == n
    } else {
        r.at == At::Seek(Label::Local(0)) && r.memory == s.memory
    }
}

/// The old value is loaded, unless the attempt follows another.
proof fn lemma_start(s: Machine, mem: Amode)
    requires
        s.pending is Nothing,
        apart(mem, rax()),
    ensures
        ({
            let r = crate::x64::machine::run(
                s,
                crate::x64::emit_atomic::load_both(mem, rax(), rdx()),
            );
            let a = s.address(mem);
            &&& s.at is Here ==> r == s.set(rax().enc, s.memory[a]).set(
                rdx().enc,
                s.memory[a + 8],
            )
            &&& s.at == At::Seek(Label::Local(0)) ==> r == s.go(At::Here)
        }),
{
    let steps = crate::x64::emit_atomic::load_both(mem, rax(), rdx());
    assert(steps =~= Seq::<Step>::empty().push(steps[0]).push(steps[1]).push(steps[2]).push(
        steps[3],
    ));
    crate::x64::machine::lemma_run_four(s, steps[0], steps[1], steps[2], steps[3]);
    if s.at is Here {
        let a = s.address(mem);
        lemma_load(s, mem, 0, rax());
        let s1 = s.set(rax().enc, s.memory[a]);
        assert(s1.address(mem) == a);
        lemma_load(s1, mem, 8, rdx());
    }
}

proof fn lemma_load(s: Machine, addr: Amode, plus: u8, dst: Gpr)
    requires
        s.at is Here,
        s.pending is Nothing,
    ensures
        crate::x64::machine::step(
            s,
            Step::Emit(Built::Load { ty: Type::I64, addr, plus, dst }),
        ) == s.set(dst.enc, s.memory[s.address(addr) + plus]),
{
    reveal(crate::x64::machine::built);
    lemma_low_is_all(s.memory[s.address(addr) + plus]);
}

/// The exchange that ends an attempt.
proof fn lemma_end(s: Machine, mem: Amode)
    requires
        s.at is Here,
        s.pending is Nothing,
        !s.traps.dom().contains(Label::Local(0)),
    ensures
        attempted(
            s,
            crate::x64::machine::run(
                s,
                seq![crate::x64::emit_atomic::lock_cmpxchg16b(mem)]
                    + crate::x64::emit_basic::jump_if(CC::NZ, Label::Local(0)),
            ),
            s.address(mem),
            number(s.reg(rbx()), s.reg(rcx())),
        ),
{
    let first = seq![crate::x64::emit_atomic::lock_cmpxchg16b(mem)];
    lemma_run_one(s, first);
    lemma_exchange(s, mem);
    let s1 = crate::x64::machine::run(s, first);
    crate::x64::machine::law_jump_if(s1, CC::NZ, Label::Local(0));
}

/// An atomic exchange of 16 bytes leaves the operand in memory and what was there in
/// `rdx:rax`. An attempt that follows another does so if memory is as that one found
/// it.
pub proof fn law_wide_exchange(s: Machine, mem: Amode, info: EmitInfo, state: EmitState)
    requires
        s.at is Here || s.at == At::Seek(Label::Local(0)),
        s.pending is Nothing,
        !s.traps.dom().contains(Label::Local(0)),
        address_apart(mem),
    ensures
        ({
            let r = effect(
                s,
                Inst::Atomic128XchgSeq {
                    mem,
                    operand_low: rbx(),
                    operand_high: rcx(),
                    dst_old_low: rax(),
                    dst_old_high: rdx(),
                },
                info,
                state,
            );
            let a = s.address(mem);
            let n = number(s.reg(rbx()), s.reg(rcx()));
            &&& s.at is Here ==> r.at is Here && number(r.memory[a], r.memory[a + 8]) == n
                && number(r.reg(rax()), r.reg(rdx())) == number(s.memory[a], s.memory[a + 8])
            &&& s.at is Seek ==> attempted(s, r, a, n)
        }),
{
    let x = crate::x64::emit_atomic::load_both(mem, rax(), rdx());
    let y = seq![crate::x64::emit_atomic::lock_cmpxchg16b(mem)]
        + crate::x64::emit_basic::jump_if(CC::NZ, Label::Local(0));
    assert(crate::x64::emit_atomic::atomic128_xchg_seq(mem, (rax(), rdx())) =~= x + y);
    lemma_start(s, mem);
    let s1 = crate::x64::machine::run(s, x);
    assert(s1.address(mem) == s.address(mem));
    lemma_end(s1, mem);
}

/// An atomic update of 16 bytes leaves in memory what the operation makes of what was
/// there and of the operand, and leaves what was there in `rdx:rax`. An attempt that
/// follows another does so if memory is as that one found it.
pub proof fn law_wide_update(
    s: Machine,
    op: Atomic128RmwSeqOp,
    mem: Amode,
    operand: (Gpr, Gpr),
    info: EmitInfo,
    state: EmitState,
)
    requires
        s.at is Here || s.at == At::Seek(Label::Local(0)),
        s.pending is Nothing,
        !s.traps.dom().contains(Label::Local(0)),
        address_apart(mem),
        free(operand.0) && free(operand.1),
    ensures
        ({
            let r = effect(
                s,
                Inst::Atomic128RmwSeq {
                    op,
                    mem,
                    operand_low: operand.0,
                    operand_high: operand.1,
                    temp_low: rbx(),
                    temp_high: rcx(),
                    dst_old_low: rax(),
                    dst_old_high: rdx(),
                },
                info,
                state,
            );
            let a = s.address(mem);
            let y = (s.reg(operand.0), s.reg(operand.1));
            &&& s.at is Here ==> r.at is Here && number(r.memory[a], r.memory[a + 8]) == combined(
                op,
                (s.memory[a], s.memory[a + 8]),
                y,
            ) && number(r.reg(rax()), r.reg(rdx())) == number(s.memory[a], s.memory[a + 8])
            &&& s.at is Seek ==> attempted(
                s,
                r,
                a,
                combined(op, (s.reg(rax()), s.reg(rdx())), y),
            )
        }),
{
    let x = crate::x64::emit_atomic::load_both(mem, rax(), rdx());
    let moves = seq![
        Step::Emit(Built::MovRR { size: OperandSize::Size64, src: rax(), dst: rbx() }),
        Step::Emit(Built::MovRR { size: OperandSize::Size64, src: rdx(), dst: rcx() }),
    ];
    let compute = crate::x64::emit_atomic::rmw128_op(
        state.frame_layout,
        op,
        operand,
        (rbx(), rcx()),
        rdx(),
    );
    let y = seq![crate::x64::emit_atomic::lock_cmpxchg16b(mem)]
        + crate::x64::emit_basic::jump_if(CC::NZ, Label::Local(0));
    assert(crate::x64::emit_atomic::atomic128_rmw_seq(
        state.frame_layout,
        op,
        mem,
        operand,
        (rbx(), rcx()),
        (rax(), rdx()),
    ) =~= x + moves + compute + y);
    lemma_start(s, mem);
    let s1 = crate::x64::machine::run(s, x);
    lemma_run_two(s1, moves);
    lemma_move(s1, rax(), rbx());
    lemma_move(s1.set(rbx().enc, s1.reg(rax())), rdx(), rcx());
    let s2 = crate::x64::machine::run(s1, moves);
    law_wide_update_computes_the_operation(s2, state.frame_layout, op, operand);
    let s3 = crate::x64::machine::run(s2, compute);
    assert(s1.address(mem) == s.address(mem));
    assert(s2.address(mem) == s.address(mem));
    assert(s3.address(mem) == s.address(mem));
    lemma_end(s3, mem);
}

} // verus!
