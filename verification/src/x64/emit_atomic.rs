//! Emission of atomic operations on memory.

use crate::x64::args::{
    Amode, Atomic128RmwSeqOp, AtomicRmwSeqOp, Gpr, Label, OperandSize, Reg, RegMem, RegMemImm, Type,
    CC,
};
use crate::x64::emit_basic::{emit_asm_rr, emit_external, one_way_jmp};
use crate::x64::inst::FrameLayout;
use crate::x64::opcodes::LegacyPrefixes;
use crate::x64::sink::{AsmInst, AsmOp, AsmSrc, Built, Rex, RexBase, Sink, Step};
use vstd::prelude::*;

verus! {

broadcast use crate::x64::sink::group_steps;

/// The prefixes of an instruction that locks the bus, by the size of the
/// operand.
pub open spec fn lock_prefix(size: OperandSize) -> LegacyPrefixes {
    if size is Size16 {
        LegacyPrefixes::P66F0
    } else {
        LegacyPrefixes::PF0
    }
}

fn locked(size: OperandSize) -> (prefix: LegacyPrefixes)
    ensures
        prefix == lock_prefix(size),
{
    match size {
        OperandSize::Size16 => LegacyPrefixes::P66F0,
        _ => LegacyPrefixes::PF0,
    }
}

/// An exchange if the value in memory is the one in `rax`.
pub open spec fn lock_cmpxchg(ty: Type, replacement: Gpr, mem: Amode) -> Step {
    let size = OperandSize::of_type(ty);
    Step::StdRegMem {
        prefix: lock_prefix(size),
        opcode: if size is Size8 {
            0x0FB0
        } else {
            0x0FB1
        },
        num_opcodes: 2,
        reg_g: Reg::Gpr(replacement),
        addr: mem,
        rex: Rex::of(RexBase::SizeAndReg(size, Reg::Gpr(replacement))),
        bytes_at_end: 0,
    }
}

/// Emits an exchange if the value in memory is the expected one.
pub fn emit_lock_cmpxchg(
    sink: &mut Sink,
    ty: Type,
    replacement: Gpr,
    expected: Gpr,
    mem: Amode,
    dst_old: Gpr,
)
    requires
        ty.is_int(),
        expected == crate::x64::args::rax(),
        dst_old == crate::x64::args::rax(),
    ensures
        final(sink)@ == old(sink)@.push(lock_cmpxchg(ty, replacement, mem)),
{
    let size = OperandSize::from_ty(ty);
    // lock cmpxchg{b,w,l,q} %replacement, (mem)
    let opcode: u32 = match size {
        OperandSize::Size8 => 0x0FB0,
        _ => 0x0FB1,
    };
    sink.push(
        Step::StdRegMem {
            prefix: locked(size),
            opcode,
            num_opcodes: 2,
            reg_g: Reg::Gpr(replacement),
            addr: mem,
            rex: Rex::new(RexBase::SizeAndReg(size, Reg::Gpr(replacement))),
            bytes_at_end: 0,
        },
    );
}

/// An exchange of 16 bytes for those in `rcx:rbx` if they are the ones in
/// `rdx:rax`.
pub open spec fn lock_cmpxchg16b(mem: Amode) -> Step {
    Step::StdEncMem {
        prefix: LegacyPrefixes::PF0,
        opcode: 0x0FC7,
        num_opcodes: 2,
        enc_g: 1,
        addr: mem,
        rex: Rex::of(RexBase::SetW),
        bytes_at_end: 0,
    }
}

/// The registers that an exchange of 16 bytes is bound to.
pub open spec fn cmpxchg16b_regs(
    replacement_low: Gpr,
    replacement_high: Gpr,
    expected_low: Gpr,
    expected_high: Gpr,
    dst_old_low: Gpr,
    dst_old_high: Gpr,
) -> bool {
    &&& replacement_low == crate::x64::args::rbx()
    &&& replacement_high == crate::x64::args::rcx()
    &&& expected_low == crate::x64::args::rax()
    &&& expected_high == crate::x64::args::rdx()
    &&& dst_old_low == crate::x64::args::rax()
    &&& dst_old_high == crate::x64::args::rdx()
}

/// Emits an exchange of 16 bytes if they are the expected ones.
pub fn emit_lock_cmpxchg16b(
    sink: &mut Sink,
    replacement_low: Gpr,
    replacement_high: Gpr,
    expected_low: Gpr,
    expected_high: Gpr,
    mem: Amode,
    dst_old_low: Gpr,
    dst_old_high: Gpr,
)
    requires
        cmpxchg16b_regs(
            replacement_low,
            replacement_high,
            expected_low,
            expected_high,
            dst_old_low,
            dst_old_high,
        ),
    ensures
        final(sink)@ == old(sink)@.push(lock_cmpxchg16b(mem)),
{
    // lock cmpxchg16b (mem)
    sink.push(
        Step::StdEncMem {
            prefix: LegacyPrefixes::PF0,
            opcode: 0x0FC7,
            num_opcodes: 2,
            enc_g: 1,
            addr: mem,
            rex: Rex::new(RexBase::SetW),
            bytes_at_end: 0,
        },
    );
}

/// An addition to memory that gives the old value.
pub open spec fn lock_xadd(size: OperandSize, operand: Gpr, mem: Amode) -> Step {
    Step::StdRegMem {
        prefix: lock_prefix(size),
        opcode: if size is Size8 {
            0x0FC0
        } else {
            0x0FC1
        },
        num_opcodes: 2,
        reg_g: Reg::Gpr(operand),
        addr: mem,
        rex: Rex::of(RexBase::SizeAndReg(size, Reg::Gpr(operand))),
        bytes_at_end: 0,
    }
}

/// Emits an addition to memory that gives the old value.
pub fn emit_lock_xadd(sink: &mut Sink, size: OperandSize, operand: Gpr, mem: Amode, dst_old: Gpr)
    requires
        dst_old == operand,
    ensures
        final(sink)@ == old(sink)@.push(lock_xadd(size, operand, mem)),
{
    // lock xadd{b,w,l,q} %operand, (mem)
    let opcode: u32 = match size {
        OperandSize::Size8 => 0x0FC0,
        _ => 0x0FC1,
    };
    sink.push(
        Step::StdRegMem {
            prefix: locked(size),
            opcode,
            num_opcodes: 2,
            reg_g: Reg::Gpr(operand),
            addr: mem,
            rex: Rex::new(RexBase::SizeAndReg(size, Reg::Gpr(operand))),
            bytes_at_end: 0,
        },
    );
}

/// An exchange with memory. It locks the bus without a prefix.
pub open spec fn xchg(size: OperandSize, operand: Gpr, mem: Amode) -> Step {
    Step::StdRegMem {
        prefix: if size is Size16 {
            LegacyPrefixes::P66
        } else {
            LegacyPrefixes::NoPrefix
        },
        opcode: if size is Size8 {
            0x86
        } else {
            0x87
        },
        num_opcodes: 1,
        reg_g: Reg::Gpr(operand),
        addr: mem,
        rex: Rex::of(RexBase::SizeAndReg(size, Reg::Gpr(operand))),
        bytes_at_end: 0,
    }
}

/// Emits an exchange with memory.
pub fn emit_xchg(sink: &mut Sink, size: OperandSize, operand: Gpr, mem: Amode, dst_old: Gpr)
    requires
        dst_old == operand,
    ensures
        final(sink)@ == old(sink)@.push(xchg(size, operand, mem)),
{
    // xchg{b,w,l,q} %operand, (mem)
    let (prefix, opcode): (LegacyPrefixes, u32) = match size {
        OperandSize::Size8 => (LegacyPrefixes::NoPrefix, 0x86),
        OperandSize::Size16 => (LegacyPrefixes::P66, 0x87),
        OperandSize::Size32 => (LegacyPrefixes::NoPrefix, 0x87),
        OperandSize::Size64 => (LegacyPrefixes::NoPrefix, 0x87),
    };
    sink.push(
        Step::StdRegMem {
            prefix,
            opcode,
            num_opcodes: 1,
            reg_g: Reg::Gpr(operand),
            addr: mem,
            rex: Rex::new(RexBase::SizeAndReg(size, Reg::Gpr(operand))),
            bytes_at_end: 0,
        },
    );
}

/// An operation on two general purpose registers.
pub open spec fn alu(frame: FrameLayout, op: AsmOp, dst: Gpr, src: Gpr) -> Step {
    crate::x64::emit_basic::asm_rr(frame, op, Reg::Gpr(dst), Reg::Gpr(src))
}

fn emit_alu(sink: &mut Sink, frame: &FrameLayout, op: AsmOp, dst: Gpr, src: Gpr)
    requires
        frame.fits(),
    ensures
        final(sink)@ == old(sink)@.push(alu(*frame, op, dst, src)),
{
    emit_asm_rr(sink, frame, op, Reg::Gpr(dst), Reg::Gpr(src));
}

/// The complement of a register.
pub open spec fn not_q(frame: FrameLayout, dst: Gpr) -> Step {
    Step::Asm {
        inst: AsmInst::Op { op: AsmOp::NotqM, dst: Reg::Gpr(dst), src: AsmSrc::Nothing },
        offsets: frame.offsets(),
    }
}

fn emit_not_q(sink: &mut Sink, frame: &FrameLayout, dst: Gpr)
    requires
        frame.fits(),
    ensures
        final(sink)@ == old(sink)@.push(not_q(*frame, dst)),
{
    emit_external(
        sink,
        frame,
        AsmInst::Op { op: AsmOp::NotqM, dst: Reg::Gpr(dst), src: AsmSrc::Nothing },
    );
}

/// A comparison of general purpose registers.
pub open spec fn compare_regs(size: OperandSize, src1: Gpr, src2: Gpr) -> Step {
    Step::Emit(Built::CmpRmiR { size, src1, src2: RegMemImm::Reg { reg: Reg::Gpr(src2) } })
}

fn emit_compare_regs(sink: &mut Sink, size: OperandSize, src1: Gpr, src2: Gpr)
    ensures
        final(sink)@ == old(sink)@.push(compare_regs(size, src1, src2)),
{
    sink.emit(Built::CmpRmiR { size, src1, src2: RegMemImm::Reg { reg: Reg::Gpr(src2) } });
}

/// A move of 64 bits that is made if the condition holds.
pub open spec fn move_if(cc: CC, src: Gpr, dst: Gpr) -> Step {
    Step::Emit(
        Built::Cmove {
            size: OperandSize::Size64,
            cc,
            consequent: RegMem::Reg { reg: Reg::Gpr(src) },
            dst,
        },
    )
}

fn emit_move_if(sink: &mut Sink, cc: CC, src: Gpr, dst: Gpr)
    ensures
        final(sink)@ == old(sink)@.push(move_if(cc, src, dst)),
{
    sink.emit(
        Built::Cmove {
            size: OperandSize::Size64,
            cc,
            consequent: RegMem::Reg { reg: Reg::Gpr(src) },
            dst,
        },
    );
}

/// Computes the new value in `temp` from the old value there and the operand.
pub open spec fn rmw_op(
    frame: FrameLayout,
    ty: Type,
    op: AtomicRmwSeqOp,
    operand: Gpr,
    temp: Gpr,
) -> Seq<Step> {
    let compare = compare_regs(OperandSize::of_type(ty), operand, temp);
    match op {
        AtomicRmwSeqOp::And => seq![alu(frame, AsmOp::AndqRm, temp, operand)],
        AtomicRmwSeqOp::Nand => seq![
            alu(frame, AsmOp::AndqRm, temp, operand),
            not_q(frame, temp),
        ],
        AtomicRmwSeqOp::Or => seq![alu(frame, AsmOp::OrqRm, temp, operand)],
        AtomicRmwSeqOp::Xor => seq![alu(frame, AsmOp::XorqRm, temp, operand)],
        AtomicRmwSeqOp::Umin => seq![compare, move_if(CC::BE, operand, temp)],
        AtomicRmwSeqOp::Umax => seq![compare, move_if(CC::NB, operand, temp)],
        AtomicRmwSeqOp::Smin => seq![compare, move_if(CC::LE, operand, temp)],
        AtomicRmwSeqOp::Smax => seq![compare, move_if(CC::NL, operand, temp)],
    }
}

fn emit_rmw_op(
    sink: &mut Sink,
    frame: &FrameLayout,
    ty: Type,
    op: AtomicRmwSeqOp,
    operand: Gpr,
    temp: Gpr,
)
    requires
        ty.is_int(),
        frame.fits(),
    ensures
        final(sink)@ == old(sink)@ + rmw_op(*frame, ty, op, operand, temp),
{
    match op {
        AtomicRmwSeqOp::Nand => {
            // andq %r_operand, %r_temp
            emit_alu(sink, frame, AsmOp::AndqRm, temp, operand);
            // notq %r_temp
            emit_not_q(sink, frame, temp);
        },
        AtomicRmwSeqOp::Umin
        | AtomicRmwSeqOp::Umax
        | AtomicRmwSeqOp::Smin
        | AtomicRmwSeqOp::Smax => {
            // cmp %r_temp, %r_operand
            emit_compare_regs(sink, OperandSize::from_ty(ty), operand, temp);
            // cmovcc %r_operand, %r_temp
            let cc = match op {
                AtomicRmwSeqOp::Umin => CC::BE,
                AtomicRmwSeqOp::Umax => CC::NB,
                AtomicRmwSeqOp::Smin => CC::LE,
                _ => CC::NL,
            };
            emit_move_if(sink, cc, operand, temp);
        },
        AtomicRmwSeqOp::And => {
            emit_alu(sink, frame, AsmOp::AndqRm, temp, operand);
        },
        AtomicRmwSeqOp::Or => {
            emit_alu(sink, frame, AsmOp::OrqRm, temp, operand);
        },
        AtomicRmwSeqOp::Xor => {
            emit_alu(sink, frame, AsmOp::XorqRm, temp, operand);
        },
    }
}

/// An atomic update: the old value is loaded, the new one computed from it and
/// stored if the old one is still there, and if it is not then this is done
/// again.
pub open spec fn atomic_rmw_seq(
    frame: FrameLayout,
    ty: Type,
    op: AtomicRmwSeqOp,
    mem: Amode,
    operand: Gpr,
    temp: Gpr,
    dst_old: Gpr,
) -> Seq<Step> {
    let again = Label::Local(0);
    seq![
        Step::GetLabel { label: again },
        // mov{zbq,zwq,zlq,q} (%r_address), %rax
        Step::Emit(Built::Load { ty, addr: mem, plus: 0, dst: dst_old }),
        Step::BindLabel { label: again },
        // movq %rax, %r_temp
        Step::Emit(Built::MovRR { size: OperandSize::Size64, src: dst_old, dst: temp }),
        // `op`q %r_operand, %r_temp
    ] + rmw_op(frame, ty, op, operand, temp) + seq![
        // lock cmpxchg{b,w,l,q} %r_temp, (%r_address)
        lock_cmpxchg(ty, temp, mem),
        // jnz again
    ] + crate::x64::emit_basic::jump_if(CC::NZ, again)
}

/// Emits an atomic update.
pub fn emit_atomic_rmw_seq(
    sink: &mut Sink,
    frame: &FrameLayout,
    ty: Type,
    op: AtomicRmwSeqOp,
    mem: Amode,
    operand: Gpr,
    temp: Gpr,
    dst_old: Gpr,
)
    requires
        ty.is_int(),
        dst_old == crate::x64::args::rax(),
        frame.fits(),
    ensures
        final(sink)@ == old(sink)@ + atomic_rmw_seq(
            *frame,
            ty,
            op,
            mem,
            operand,
            temp,
            dst_old,
        ),
{
    let again_label = sink.get_label(0);
    sink.emit(Built::Load { ty, addr: mem, plus: 0, dst: dst_old });
    // again:
    sink.bind_label(again_label);
    // movq %rax, %r_temp
    sink.emit(Built::MovRR { size: OperandSize::Size64, src: dst_old, dst: temp });
    emit_rmw_op(sink, frame, ty, op, operand, temp);
    // lock cmpxchg{b,w,l,q} %r_temp, (%r_address)
    emit_lock_cmpxchg(sink, ty, temp, dst_old, mem, dst_old);
    // jnz again
    one_way_jmp(sink, CC::NZ, again_label);
}

/// The same operation on the low half and on the high half.
pub open spec fn both(
    frame: FrameLayout,
    low: AsmOp,
    high: AsmOp,
    temp: (Gpr, Gpr),
    operand: (Gpr, Gpr),
) -> Seq<Step> {
    seq![alu(frame, low, temp.0, operand.0), alu(frame, high, temp.1, operand.1)]
}

fn emit_both(
    sink: &mut Sink,
    frame: &FrameLayout,
    low: AsmOp,
    high: AsmOp,
    temp: (Gpr, Gpr),
    operand: (Gpr, Gpr),
)
    requires
        frame.fits(),
    ensures
        final(sink)@ == old(sink)@ + both(*frame, low, high, temp, operand),
{
    emit_alu(sink, frame, low, temp.0, operand.0);
    emit_alu(sink, frame, high, temp.1, operand.1);
}

/// The condition on which the operand is the minimum or the maximum, once it is
/// subtracted from the old value.
pub open spec fn operand_wins(op: Atomic128RmwSeqOp) -> CC {
    match op {
        Atomic128RmwSeqOp::Umin => CC::NB,
        Atomic128RmwSeqOp::Umax => CC::B,
        Atomic128RmwSeqOp::Smin => CC::NL,
        _ => CC::L,
    }
}

/// Computes the new value of 16 bytes, low half first, from the old value in
/// `temp` and the operand. A comparison subtracts, and what it changes is
/// restored from the old value in `dst_old_high`.
pub open spec fn rmw128_op(
    frame: FrameLayout,
    op: Atomic128RmwSeqOp,
    operand: (Gpr, Gpr),
    temp: (Gpr, Gpr),
    dst_old_high: Gpr,
) -> Seq<Step> {
    match op {
        Atomic128RmwSeqOp::Add => both(frame, AsmOp::AddqRm, AsmOp::AdcqRm, temp, operand),
        Atomic128RmwSeqOp::Sub => both(frame, AsmOp::SubqRm, AsmOp::SbbqRm, temp, operand),
        Atomic128RmwSeqOp::And => both(frame, AsmOp::AndqRm, AsmOp::AndqRm, temp, operand),
        Atomic128RmwSeqOp::Or => both(frame, AsmOp::OrqRm, AsmOp::OrqRm, temp, operand),
        Atomic128RmwSeqOp::Xor => both(frame, AsmOp::XorqRm, AsmOp::XorqRm, temp, operand),
        Atomic128RmwSeqOp::Nand => both(frame, AsmOp::AndqRm, AsmOp::AndqRm, temp, operand) + seq![
            not_q(frame, temp.0),
            not_q(frame, temp.1),
        ],
        _ => seq![
            compare_regs(OperandSize::Size64, temp.0, operand.0),
            alu(frame, AsmOp::SbbqRm, temp.1, operand.1),
            Step::Emit(
                Built::MovRR { size: OperandSize::Size64, src: dst_old_high, dst: temp.1 },
            ),
            move_if(operand_wins(op), operand.0, temp.0),
            move_if(operand_wins(op), operand.1, temp.1),
        ],
    }
}

fn emit_rmw128_op(
    sink: &mut Sink,
    frame: &FrameLayout,
    op: Atomic128RmwSeqOp,
    operand: (Gpr, Gpr),
    temp: (Gpr, Gpr),
    dst_old_high: Gpr,
)
    requires
        frame.fits(),
    ensures
        final(sink)@ == old(sink)@ + rmw128_op(*frame, op, operand, temp, dst_old_high),
{
    match op {
        Atomic128RmwSeqOp::Nand => {
            // temp &= operand
            emit_both(sink, frame, AsmOp::AndqRm, AsmOp::AndqRm, temp, operand);
            // temp = !temp
            emit_not_q(sink, frame, temp.0);
            emit_not_q(sink, frame, temp.1);
        },
        Atomic128RmwSeqOp::Umin
        | Atomic128RmwSeqOp::Umax
        | Atomic128RmwSeqOp::Smin
        | Atomic128RmwSeqOp::Smax => {
            // Do a comparison with LHS temp and RHS operand.
            emit_compare_regs(sink, OperandSize::Size64, temp.0, operand.0);
            // This will clobber the high half of `temp`.
            emit_alu(sink, frame, AsmOp::SbbqRm, temp.1, operand.1);
            // Restore the clobbered value
            sink.emit(Built::MovRR { size: OperandSize::Size64, src: dst_old_high, dst: temp.1 });
            let cc = match op {
                Atomic128RmwSeqOp::Umin => CC::NB,
                Atomic128RmwSeqOp::Umax => CC::B,
                Atomic128RmwSeqOp::Smin => CC::NL,
                _ => CC::L,
            };
            emit_move_if(sink, cc, operand.0, temp.0);
            emit_move_if(sink, cc, operand.1, temp.1);
        },
        Atomic128RmwSeqOp::Add => {
            emit_both(sink, frame, AsmOp::AddqRm, AsmOp::AdcqRm, temp, operand);
        },
        Atomic128RmwSeqOp::Sub => {
            emit_both(sink, frame, AsmOp::SubqRm, AsmOp::SbbqRm, temp, operand);
        },
        Atomic128RmwSeqOp::And => {
            emit_both(sink, frame, AsmOp::AndqRm, AsmOp::AndqRm, temp, operand);
        },
        Atomic128RmwSeqOp::Or => {
            emit_both(sink, frame, AsmOp::OrqRm, AsmOp::OrqRm, temp, operand);
        },
        Atomic128RmwSeqOp::Xor => {
            emit_both(sink, frame, AsmOp::XorqRm, AsmOp::XorqRm, temp, operand);
        },
    }
}

/// The start of an atomic update of 16 bytes: the old value is loaded.
pub open spec fn load_both(mem: Amode, low: Gpr, high: Gpr) -> Seq<Step> {
    let again = Label::Local(0);
    seq![
        Step::GetLabel { label: again },
        Step::Emit(Built::Load { ty: Type::I64, addr: mem, plus: 0, dst: low }),
        Step::Emit(Built::Load { ty: Type::I64, addr: mem, plus: 8, dst: high }),
        Step::BindLabel { label: again },
    ]
}

fn emit_load_both(sink: &mut Sink, mem: Amode, low: Gpr, high: Gpr)
    ensures
        final(sink)@ == old(sink)@ + load_both(mem, low, high),
{
    let again_label = sink.get_label(0);
    // Load the initial value.
    sink.emit(Built::Load { ty: Type::I64, addr: mem, plus: 0, dst: low });
    sink.emit(Built::Load { ty: Type::I64, addr: mem, plus: 8, dst: high });
    // again:
    sink.bind_label(again_label);
}

/// An atomic update of 16 bytes.
pub open spec fn atomic128_rmw_seq(
    frame: FrameLayout,
    op: Atomic128RmwSeqOp,
    mem: Amode,
    operand: (Gpr, Gpr),
    temp: (Gpr, Gpr),
    dst_old: (Gpr, Gpr),
) -> Seq<Step> {
    load_both(mem, dst_old.0, dst_old.1) + seq![
        Step::Emit(Built::MovRR { size: OperandSize::Size64, src: dst_old.0, dst: temp.0 }),
        Step::Emit(Built::MovRR { size: OperandSize::Size64, src: dst_old.1, dst: temp.1 }),
    ] + rmw128_op(frame, op, operand, temp, dst_old.1) + seq![lock_cmpxchg16b(mem)]
        + crate::x64::emit_basic::jump_if(CC::NZ, Label::Local(0))
}

/// Emits an atomic update of 16 bytes. Pairs of registers are low half first.
pub fn emit_atomic128_rmw_seq(
    sink: &mut Sink,
    frame: &FrameLayout,
    op: Atomic128RmwSeqOp,
    mem: Amode,
    operand: (Gpr, Gpr),
    temp: (Gpr, Gpr),
    dst_old: (Gpr, Gpr),
)
    requires
        cmpxchg16b_regs(temp.0, temp.1, dst_old.0, dst_old.1, dst_old.0, dst_old.1),
        frame.fits(),
    ensures
        final(sink)@ == old(sink)@ + atomic128_rmw_seq(*frame, op, mem, operand, temp, dst_old),
{
    emit_load_both(sink, mem, dst_old.0, dst_old.1);
    // Move old value to temp registers.
    sink.emit(Built::MovRR { size: OperandSize::Size64, src: dst_old.0, dst: temp.0 });
    sink.emit(Built::MovRR { size: OperandSize::Size64, src: dst_old.1, dst: temp.1 });
    // Perform the operation.
    emit_rmw128_op(sink, frame, op, operand, temp, dst_old.1);
    // cmpxchg16b (mem)
    emit_lock_cmpxchg16b(
        sink,
        temp.0,
        temp.1,
        dst_old.0,
        dst_old.1,
        mem,
        dst_old.0,
        dst_old.1,
    );
    // jnz again
    one_way_jmp(sink, CC::NZ, Label::Local(0));
}

/// An atomic exchange of 16 bytes.
pub open spec fn atomic128_xchg_seq(mem: Amode, dst_old: (Gpr, Gpr)) -> Seq<Step> {
    load_both(mem, dst_old.0, dst_old.1) + seq![lock_cmpxchg16b(mem)]
        + crate::x64::emit_basic::jump_if(CC::NZ, Label::Local(0))
}

/// Emits an atomic exchange of 16 bytes.
pub fn emit_atomic128_xchg_seq(
    sink: &mut Sink,
    mem: Amode,
    operand: (Gpr, Gpr),
    dst_old: (Gpr, Gpr),
)
    requires
        cmpxchg16b_regs(operand.0, operand.1, dst_old.0, dst_old.1, dst_old.0, dst_old.1),
    ensures
        final(sink)@ == old(sink)@ + atomic128_xchg_seq(mem, dst_old),
{
    emit_load_both(sink, mem, dst_old.0, dst_old.1);
    // cmpxchg16b (mem)
    emit_lock_cmpxchg16b(
        sink,
        operand.0,
        operand.1,
        dst_old.0,
        dst_old.1,
        mem,
        dst_old.0,
        dst_old.1,
    );
    // jnz again
    one_way_jmp(sink, CC::NZ, Label::Local(0));
}

} // verus!
