//! Emission of moves, addresses, comparisons and conditional moves.

use crate::x64::args::{
    Amode, CmpOpcode, Gpr, Label, LabelUse, OperandSize, Reg, RegMem, RegMemImm, Type, Xmm, CC,
};
use crate::x64::inst::FrameLayout;
use crate::x64::opcodes::LegacyPrefixes;
use crate::x64::sink::{AsmInst, AsmOp, AsmSrc, Built, Rex, RexBase, Sink, Step};
use vstd::prelude::*;

verus! {

broadcast use crate::x64::sink::group_steps;

/// A jump to the label if the condition holds.
pub open spec fn jump_if(cc: CC, label: Label) -> Seq<Step> {
    seq![
        Step::UseLabel { ahead: 2, label, usage: LabelUse::JmpRel32 },
        Step::Put1(0x0F),
        Step::Put1((0x80 + cc.enc()) as u8),
        Step::Put4(0),
    ]
}

/// Emits a one way conditional jump if the condition is true.
pub fn one_way_jmp(sink: &mut Sink, cc: CC, label: Label)
    ensures
        final(sink)@ == old(sink)@ + jump_if(cc, label),
{
    sink.use_label(2, label, LabelUse::JmpRel32);
    sink.put1(0x0F);
    sink.put1(0x80 + cc.get_enc());
    sink.put4(0x0);
}

/// An assembler instruction of two registers.
pub open spec fn asm_rr(frame: FrameLayout, op: AsmOp, dst: Reg, src: Reg) -> Step {
    Step::Asm { inst: AsmInst::Op { op, dst, src: AsmSrc::Reg(src) }, offsets: frame.offsets() }
}

/// An assembler instruction of a register and an immediate.
pub open spec fn asm_ri(frame: FrameLayout, op: AsmOp, dst: Gpr, imm: u32) -> Step {
    Step::Asm {
        inst: AsmInst::Op { op, dst: Reg::Gpr(dst), src: AsmSrc::Imm(imm) },
        offsets: frame.offsets(),
    }
}

/// Emits an assembler instruction of two registers.
pub fn emit_asm_rr(sink: &mut Sink, frame: &FrameLayout, op: AsmOp, dst: Reg, src: Reg)
    requires
        frame.fits(),
    ensures
        final(sink)@ == old(sink)@.push(asm_rr(*frame, op, dst, src)),
{
    emit_external(sink, frame, AsmInst::Op { op, dst, src: AsmSrc::Reg(src) });
}

/// Emits an assembler instruction of a register and an immediate.
pub fn emit_asm_ri(sink: &mut Sink, frame: &FrameLayout, op: AsmOp, dst: Gpr, imm: u32)
    requires
        frame.fits(),
    ensures
        final(sink)@ == old(sink)@.push(asm_ri(*frame, op, dst, imm)),
{
    emit_external(sink, frame, AsmInst::Op { op, dst: Reg::Gpr(dst), src: AsmSrc::Imm(imm) });
}

/// Emits an instruction that the assembler encodes. The offsets into the frame
/// are known only now, and are handed over.
pub fn emit_external(sink: &mut Sink, frame: &FrameLayout, inst: AsmInst)
    requires
        frame.fits(),
    ensures
        final(sink)@ == old(sink)@.push(Step::Asm { inst, offsets: frame.offsets() }),
{
    let offsets = frame.known_offsets();
    sink.push(Step::Asm { inst, offsets });
}

/// A move of a constant: one that is sign extended from 32 bits if that gives
/// the constant, one of the full width if it does not, and one of 32 bits if no
/// more is asked for.
pub open spec fn imm(dst_size: OperandSize, simm64: u64, dst: Gpr) -> Seq<Step> {
    if dst_size == OperandSize::Size64 {
        if crate::x64::args::fits_signed_32(simm64) {
            seq![
                Step::StdEncEnc {
                    prefix: LegacyPrefixes::NoPrefix,
                    opcode: 0xC7,
                    num_opcodes: 1,
                    enc_g: 0,
                    enc_e: dst.enc,
                    rex: Rex::of(RexBase::SetW),
                },
                Step::Put4(simm64 as u32),
            ]
        } else {
            seq![
                Step::Put1(0x48 | ((dst.enc >> 3) & 1)),
                Step::Put1(0xB8 | (dst.enc & 7)),
                Step::Put8(simm64),
            ]
        }
    } else if ((dst.enc >> 3) & 1) == 1 {
        seq![Step::Put1(0x41), Step::Put1(0xB8 | (dst.enc & 7)), Step::Put4(simm64 as u32)]
    } else {
        seq![Step::Put1(0xB8 | (dst.enc & 7)), Step::Put4(simm64 as u32)]
    }
}

/// Emits a move of a constant to a register.
pub fn emit_imm(sink: &mut Sink, dst_size: OperandSize, simm64: u64, dst: Gpr)
    ensures
        final(sink)@ == old(sink)@ + imm(dst_size, simm64, dst),
{
    let enc_dst: u8 = dst.enc;
    if dst_size == OperandSize::Size64 {
        if crate::x64::args::low32_will_sign_extend_to_64(simm64) {
            // Sign-extended move imm32.
            sink.push(
                Step::StdEncEnc {
                    prefix: LegacyPrefixes::NoPrefix,
                    opcode: 0xC7,
                    num_opcodes: 1,
                    enc_g: 0,
                    enc_e: enc_dst,
                    rex: Rex::new(RexBase::SetW),
                },
            );
            sink.put4(#[verifier::truncate] (simm64 as u32));
        } else {
            sink.put1(0x48 | ((enc_dst >> 3) & 1));
            sink.put1(0xB8 | (enc_dst & 7));
            sink.put8(simm64);
        }
    } else {
        if ((enc_dst >> 3) & 1) == 1 {
            sink.put1(0x41);
        }
        sink.put1(0xB8 | (enc_dst & 7));
        sink.put4(#[verifier::truncate] (simm64 as u32));
    }
}

/// A move of a constant to memory. Of a 64-bit operand the constant is sign
/// extended from 32 bits.
pub open spec fn mov_imm_m(size: OperandSize, simm32: i32, dst: Amode) -> Seq<Step> {
    seq![
        Step::StdEncMem {
            prefix: if size is Size16 {
                LegacyPrefixes::P66
            } else {
                LegacyPrefixes::NoPrefix
            },
            opcode: if size is Size8 {
                0xC6
            } else {
                0xC7
            },
            num_opcodes: 1,
            enc_g: 0,
            addr: dst,
            rex: if size is Size64 {
                Rex::of(RexBase::Size(size))
            } else {
                Rex::of(RexBase::ClearW)
            },
            bytes_at_end: 0,
        },
        Step::PutSimm { size: size.bytes(), value: simm32 as u32 },
    ]
}

/// Emits a move of a constant to memory.
pub fn emit_mov_imm_m(sink: &mut Sink, size: OperandSize, simm32: i32, dst: Amode)
    ensures
        final(sink)@ == old(sink)@ + mov_imm_m(size, simm32, dst),
{
    let default_rex = Rex::new(RexBase::ClearW);
    let (opcode, rex, prefix): (u32, Rex, LegacyPrefixes) = match size {
        // An 8-bit operand needs no REX prefix on its own account, since the
        // destination is in memory.
        OperandSize::Size8 => (0xC6, default_rex, LegacyPrefixes::NoPrefix),
        OperandSize::Size16 => (0xC7, default_rex, LegacyPrefixes::P66),
        OperandSize::Size64 => (0xC7, Rex::new(RexBase::Size(size)), LegacyPrefixes::NoPrefix),
        OperandSize::Size32 => (0xC7, default_rex, LegacyPrefixes::NoPrefix),
    };
    // 8-bit C6 /0 ib
    // 16-bit 0x66 C7 /0 iw
    // 32-bit C7 /0 id
    // 64-bit REX.W C7 /0 id
    sink.push(
        Step::StdEncMem {
            prefix,
            opcode,
            num_opcodes: 1,
            enc_g: 0,
            addr: dst,
            rex,
            bytes_at_end: 0,
        },
    );
    sink.push(
        Step::PutSimm { size: size.to_bytes(), value: #[verifier::truncate] (simm32 as u32) },
    );
}

/// A move between registers.
pub open spec fn mov_rr(size: OperandSize, src: Gpr, dst: Gpr) -> Step {
    Step::StdRegReg {
        prefix: LegacyPrefixes::NoPrefix,
        opcode: 0x89,
        num_opcodes: 1,
        reg_g: Reg::Gpr(src),
        reg_e: Reg::Gpr(dst),
        rex: Rex::of(RexBase::Size(size)),
    }
}

/// Emits a move between registers.
pub fn emit_mov_rr(sink: &mut Sink, size: OperandSize, src: Gpr, dst: Gpr)
    ensures
        final(sink)@ == old(sink)@.push(mov_rr(size, src, dst)),
{
    sink.push(
        Step::StdRegReg {
            prefix: LegacyPrefixes::NoPrefix,
            opcode: 0x89,
            num_opcodes: 1,
            reg_g: Reg::Gpr(src),
            reg_e: Reg::Gpr(dst),
            rex: Rex::new(RexBase::Size(size)),
        },
    );
}

/// The load of an address, or an addition that does the same: if the
/// destination is the base then a constant or the index is added to it, and if
/// it is the index then the base is added to it.
pub open spec fn lea(frame: FrameLayout, addr: Amode, dst: Gpr, size: OperandSize) -> Step {
    match addr {
        Amode::ImmReg { simm32, base, .. } if base == dst => if size is Size32 {
            asm_ri(frame, AsmOp::AddlMi, dst, simm32 as u32)
        } else {
            Step::Emit(Built::AddqMi { dst, imm: simm32 })
        },
        Amode::ImmRegRegShift { simm32, base, index, shift, .. } if simm32 == 0 && shift == 0 && (
        base == dst || index == dst) => asm_rr(
            frame,
            if size is Size32 {
                AsmOp::AddlRm
            } else {
                AsmOp::AddqRm
            },
            Reg::Gpr(dst),
            Reg::Gpr(
                if base == dst {
                    index
                } else {
                    base
                },
            ),
        ),
        _ => Step::StdRegMem {
            prefix: LegacyPrefixes::NoPrefix,
            opcode: 0x8D,
            num_opcodes: 1,
            reg_g: Reg::Gpr(dst),
            addr,
            rex: Rex::of(
                if size is Size32 {
                    RexBase::ClearW
                } else {
                    RexBase::SetW
                },
            ),
            bytes_at_end: 0,
        },
    }
}

/// Emits the load of an address.
///
/// `lea` goes through dedicated units, which are few, so an addition is made of
/// it where that does the same.
pub fn emit_lea(sink: &mut Sink, frame: &FrameLayout, addr: Amode, dst: Gpr, size: OperandSize)
    requires
        size is Size32 || size is Size64,
        lea(*frame, addr, dst, size) is Asm ==> frame.fits(),
    ensures
        final(sink)@ == old(sink)@.push(lea(*frame, addr, dst, size)),
{
    match addr {
        // `add $imm, %dst`
        Amode::ImmReg { simm32, base, flags: _ } if base == dst => {
            match size {
                OperandSize::Size32 => emit_asm_ri(
                    sink,
                    frame,
                    AsmOp::AddlMi,
                    dst,
                    #[verifier::truncate] (simm32 as u32),
                ),
                _ => sink.emit(Built::AddqMi { dst, imm: simm32 }),
            }
        },
        // `add %index, %base` or `add %base, %index`
        Amode::ImmRegRegShift { simm32, base, index, shift, flags: _ } if simm32 == 0 && shift == 0
            && (base == dst || index == dst) => {
            let operand = if base == dst {
                index
            } else {
                base
            };
            let op = match size {
                OperandSize::Size32 => AsmOp::AddlRm,
                _ => AsmOp::AddqRm,
            };
            emit_asm_rr(sink, frame, op, Reg::Gpr(dst), Reg::Gpr(operand));
        },
        _ => {
            let base = match size {
                OperandSize::Size32 => RexBase::ClearW,
                _ => RexBase::SetW,
            };
            sink.push(
                Step::StdRegMem {
                    prefix: LegacyPrefixes::NoPrefix,
                    opcode: 0x8D,
                    num_opcodes: 1,
                    reg_g: Reg::Gpr(dst),
                    addr,
                    rex: Rex::new(base),
                    bytes_at_end: 0,
                },
            );
        },
    }
}

/// A store.
pub open spec fn mov_rm(size: OperandSize, src: Gpr, dst: Amode) -> Step {
    Step::StdRegMem {
        prefix: if size is Size16 {
            LegacyPrefixes::P66
        } else {
            LegacyPrefixes::NoPrefix
        },
        opcode: if size is Size8 {
            0x88
        } else {
            0x89
        },
        num_opcodes: 1,
        reg_g: Reg::Gpr(src),
        addr: dst,
        rex: Rex::of(RexBase::SizeAndReg(size, Reg::Gpr(src))),
        bytes_at_end: 0,
    }
}

/// Emits a store.
pub fn emit_mov_rm(sink: &mut Sink, size: OperandSize, src: Gpr, dst: Amode)
    ensures
        final(sink)@ == old(sink)@.push(mov_rm(size, src, dst)),
{
    let prefix = match size {
        OperandSize::Size16 => LegacyPrefixes::P66,
        _ => LegacyPrefixes::NoPrefix,
    };
    let opcode: u32 = match size {
        OperandSize::Size8 => 0x88,
        _ => 0x89,
    };
    //  8-bit: MOV r8, r/m8 is (REX.W==0) 88 /r
    // 16-bit: MOV r16, r/m16 is 66 (REX.W==0) 89 /r
    // 32-bit: MOV r32, r/m32 is (REX.W==0) 89 /r
    // 64-bit: MOV r64, r/m64 is (REX.W==1) 89 /r
    sink.push(
        Step::StdRegMem {
            prefix,
            opcode,
            num_opcodes: 1,
            reg_g: Reg::Gpr(src),
            addr: dst,
            // Here a redundant REX prefix changes the meaning of the
            // instruction.
            rex: Rex::new(RexBase::SizeAndReg(size, Reg::Gpr(src))),
            bytes_at_end: 0,
        },
    );
}

/// A comparison. Of two registers the operands are swapped. An immediate of
/// `cmp` takes one byte if that suffices.
pub open spec fn cmp_rmi_r(
    size: OperandSize,
    src1: Gpr,
    src2: RegMemImm,
    opcode: CmpOpcode,
) -> Seq<Step> {
    let prefix = if size is Size16 {
        LegacyPrefixes::P66
    } else {
        LegacyPrefixes::NoPrefix
    };
    let rex = Rex::of(RexBase::SizeAndReg(size, Reg::Gpr(src1)));
    match src2 {
        RegMemImm::Reg { reg } => seq![
            Step::StdRegReg {
                prefix,
                opcode: match (opcode, size) {
                    (CmpOpcode::Cmp, OperandSize::Size8) => 0x38,
                    (CmpOpcode::Cmp, _) => 0x39,
                    (CmpOpcode::Test, OperandSize::Size8) => 0x84,
                    (CmpOpcode::Test, _) => 0x85,
                },
                num_opcodes: 1,
                reg_g: reg,
                reg_e: Reg::Gpr(src1),
                rex: if size is Size8 {
                    Rex { also_8bit: Some(reg), ..rex }
                } else {
                    rex
                },
            },
        ],
        RegMemImm::Mem { addr } => seq![
            Step::StdRegMem {
                prefix,
                opcode: match (opcode, size) {
                    (CmpOpcode::Cmp, OperandSize::Size8) => 0x3A,
                    (CmpOpcode::Cmp, _) => 0x3B,
                    (CmpOpcode::Test, OperandSize::Size8) => 0x84,
                    (CmpOpcode::Test, _) => 0x85,
                },
                num_opcodes: 1,
                reg_g: Reg::Gpr(src1),
                addr,
                rex,
                bytes_at_end: 0,
            },
        ],
        RegMemImm::Imm { simm32 } => {
            let short = opcode is Cmp && crate::x64::args::fits_signed_8(simm32);
            seq![
                Step::StdEncEnc {
                    prefix,
                    opcode: match (opcode, size) {
                        (CmpOpcode::Cmp, OperandSize::Size8) => 0x80,
                        (CmpOpcode::Cmp, _) => if short {
                            0x83
                        } else {
                            0x81
                        },
                        (CmpOpcode::Test, OperandSize::Size8) => 0xF6,
                        (CmpOpcode::Test, _) => 0xF7,
                    },
                    num_opcodes: 1,
                    enc_g: if opcode is Cmp {
                        7
                    } else {
                        0
                    },
                    enc_e: src1.enc,
                    rex,
                },
                Step::PutSimm {
                    size: if short {
                        1
                    } else {
                        size.bytes()
                    },
                    value: simm32,
                },
            ]
        },
    }
}

/// Emits a comparison.
pub fn emit_cmp_rmi_r(
    sink: &mut Sink,
    size: OperandSize,
    src1: Gpr,
    src2: RegMemImm,
    opcode: CmpOpcode,
)
    ensures
        final(sink)@ == old(sink)@ + cmp_rmi_r(size, src1, src2, opcode),
{
    let is_cmp = match opcode {
        CmpOpcode::Cmp => true,
        CmpOpcode::Test => false,
    };
    let mut prefix = LegacyPrefixes::NoPrefix;
    if size == OperandSize::Size16 {
        prefix = LegacyPrefixes::P66;
    }
    // A redundant REX prefix can change the meaning of this instruction.
    let mut rex = Rex::new(RexBase::SizeAndReg(size, Reg::Gpr(src1)));
    match src2 {
        RegMemImm::Reg { reg: reg_e } => {
            if size == OperandSize::Size8 {
                // The other register may need a redundant REX prefix too.
                rex.also_8bit = Some(reg_e);
            }
            // The encoding with swapped operands is the customary one.
            let opcode: u32 = match (size, is_cmp) {
                (OperandSize::Size8, true) => 0x38,
                (_, true) => 0x39,
                (OperandSize::Size8, false) => 0x84,
                (_, false) => 0x85,
            };
            sink.push(
                Step::StdRegReg {
                    prefix,
                    opcode,
                    num_opcodes: 1,
                    reg_g: reg_e,
                    reg_e: Reg::Gpr(src1),
                    rex,
                },
            );
        },
        RegMemImm::Mem { addr } => {
            let opcode: u32 = match (size, is_cmp) {
                (OperandSize::Size8, true) => 0x3A,
                (_, true) => 0x3B,
                (OperandSize::Size8, false) => 0x84,
                (_, false) => 0x85,
            };
            sink.push(
                Step::StdRegMem {
                    prefix,
                    opcode,
                    num_opcodes: 1,
                    reg_g: Reg::Gpr(src1),
                    addr,
                    rex,
                    bytes_at_end: 0,
                },
            );
        },
        RegMemImm::Imm { simm32 } => {
            let use_imm8 = is_cmp && crate::x64::args::low8_will_sign_extend_to_32(simm32);
            let opcode: u32 = if is_cmp {
                if size == OperandSize::Size8 {
                    0x80
                } else if use_imm8 {
                    0x83
                } else {
                    0x81
                }
            } else {
                if size == OperandSize::Size8 {
                    0xF6
                } else {
                    0xF7
                }
            };
            let subopcode: u8 = if is_cmp {
                7
            } else {
                0
            };
            sink.push(
                Step::StdEncEnc {
                    prefix,
                    opcode,
                    num_opcodes: 1,
                    enc_g: subopcode,
                    enc_e: src1.enc,
                    rex,
                },
            );
            let bytes: u8 = if use_imm8 {
                1
            } else {
                size.to_bytes()
            };
            sink.push(Step::PutSimm { size: bytes, value: simm32 });
        },
    }
}

/// Sets a register by a condition. The REX prefix is always there, so that any
/// register can be named by its low 8 bits.
pub open spec fn setcc(cc: CC, dst: Gpr) -> Step {
    Step::StdEncEnc {
        prefix: LegacyPrefixes::NoPrefix,
        opcode: (0x0f90 + cc.enc()) as u32,
        num_opcodes: 2,
        enc_g: 0,
        enc_e: dst.enc,
        rex: Rex { base: RexBase::ClearW, always: true, also_8bit: None },
    }
}

/// Emits the setting of a register by a condition.
pub fn emit_setcc(sink: &mut Sink, cc: CC, dst: Gpr)
    ensures
        final(sink)@ == old(sink)@.push(setcc(cc, dst)),
{
    let opcode: u32 = 0x0f90 + cc.get_enc() as u32;
    let mut rex = Rex::new(RexBase::ClearW);
    rex.always = true;
    sink.push(
        Step::StdEncEnc {
            prefix: LegacyPrefixes::NoPrefix,
            opcode,
            num_opcodes: 2,
            enc_g: 0,
            enc_e: dst.enc,
            rex,
        },
    );
}

/// A move if the condition holds.
pub open spec fn cmove(size: OperandSize, cc: CC, consequent: RegMem, dst: Gpr) -> Step {
    let prefix = if size is Size16 {
        LegacyPrefixes::P66
    } else {
        LegacyPrefixes::NoPrefix
    };
    let opcode = (0x0F40 + cc.enc()) as u32;
    let rex = Rex::of(RexBase::Size(size));
    match consequent {
        RegMem::Reg { reg } => Step::StdRegReg {
            prefix,
            opcode,
            num_opcodes: 2,
            reg_g: Reg::Gpr(dst),
            reg_e: reg,
            rex,
        },
        RegMem::Mem { addr } => Step::StdRegMem {
            prefix,
            opcode,
            num_opcodes: 2,
            reg_g: Reg::Gpr(dst),
            addr,
            rex,
            bytes_at_end: 0,
        },
    }
}

/// Emits a move that is made if the condition holds.
pub fn emit_cmove(
    sink: &mut Sink,
    size: OperandSize,
    cc: CC,
    consequent: RegMem,
    alternative: Gpr,
    dst: Gpr,
)
    requires
        alternative == dst,
        size !is Size8,
    ensures
        final(sink)@ == old(sink)@.push(cmove(size, cc, consequent, dst)),
{
    let rex = Rex::new(RexBase::Size(size));
    let prefix = match size {
        OperandSize::Size16 => LegacyPrefixes::P66,
        _ => LegacyPrefixes::NoPrefix,
    };
    let opcode: u32 = 0x0F40 + cc.get_enc() as u32;
    match consequent {
        RegMem::Reg { reg } => {
            sink.push(
                Step::StdRegReg {
                    prefix,
                    opcode,
                    num_opcodes: 2,
                    reg_g: Reg::Gpr(dst),
                    reg_e: reg,
                    rex,
                },
            );
        },
        RegMem::Mem { addr } => {
            sink.push(
                Step::StdRegMem {
                    prefix,
                    opcode,
                    num_opcodes: 2,
                    reg_g: Reg::Gpr(dst),
                    addr,
                    rex,
                    bytes_at_end: 0,
                },
            );
        },
    }
}

/// A move of a vector register if the condition holds: a jump over the move if
/// it does not.
pub open spec fn xmm_cmove(ty: Type, cc: CC, consequent: Xmm, dst: Xmm) -> Seq<Step> {
    let next = Label::Local(0);
    seq![Step::GetLabel { label: next }] + jump_if(cc.inverse(), next) + seq![
        Step::Emit(Built::Move { dst: Reg::Xmm(dst), src: Reg::Xmm(consequent), ty }),
        Step::BindLabel { label: next },
    ]
}

/// Emits a move of a vector register that is made if the condition holds. The
/// flags are left alone.
pub fn emit_xmm_cmove(
    sink: &mut Sink,
    ty: Type,
    cc: CC,
    consequent: Xmm,
    alternative: Xmm,
    dst: Xmm,
)
    requires
        alternative == dst,
    ensures
        final(sink)@ == old(sink)@ + xmm_cmove(ty, cc, consequent, dst),
{
    let next = sink.get_label(0);
    // Jump if cc is *not* set.
    one_way_jmp(sink, cc.invert(), next);
    sink.emit(Built::Move { dst: Reg::Xmm(dst), src: Reg::Xmm(consequent), ty });
    sink.bind_label(next);
}

} // verus!
