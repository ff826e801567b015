//! Emission of vector instructions.

use crate::x64::args::{Amode, Gpr, OperandSize, Reg, RegMem, RegMemImm, Xmm};
use crate::x64::opcodes::{
    avx_compare, avx_extract, avx_fused, avx_rm_r_imm, avx_rmi_r, avx_shift_imm, avx_store,
    avx_unary, evex_imm, evex_rm_r, evex_unary, sse_compare, sse_rm_r, sse_rm_r_imm, sse_unary,
    Avx512Opcode, AvxOpcode, ExtendedCode, LegacyPrefixes, OpcodeMap, SseCode, SseOpcode, VexCode,
};
use crate::x64::sink::{
    EvexInstruction, RegisterOrAmode, Rex, RexBase, Sink, Step, VexInstruction,
};
use vstd::prelude::*;

verus! {

broadcast use crate::x64::sink::group_steps;

/// The operand as a vector instruction takes it.
pub open spec fn operand(src: RegMem) -> RegisterOrAmode {
    match src {
        RegMem::Reg { reg } => RegisterOrAmode::Register(reg.enc()),
        RegMem::Mem { addr } => RegisterOrAmode::Amode(addr),
    }
}

/// The operand as a vector instruction takes it.
fn to_operand(src: RegMem) -> (rm: RegisterOrAmode)
    ensures
        rm == operand(src),
{
    match src {
        RegMem::Reg { reg } => RegisterOrAmode::Register(reg.hw_enc()),
        RegMem::Mem { addr } => RegisterOrAmode::Amode(addr),
    }
}

/// An instruction of a register and an operand in a register or in memory, with
/// `bytes_at_end` bytes of immediates behind it.
pub open spec fn sse(code: SseCode, reg_g: Reg, src: RegMem, rex: Rex, bytes_at_end: u8) -> Step {
    match src {
        RegMem::Reg { reg } => Step::StdRegReg {
            prefix: code.prefix,
            opcode: code.opcode,
            num_opcodes: code.num_opcodes,
            reg_g,
            reg_e: reg,
            rex,
        },
        RegMem::Mem { addr } => Step::StdRegMem {
            prefix: code.prefix,
            opcode: code.opcode,
            num_opcodes: code.num_opcodes,
            reg_g,
            addr,
            rex,
            bytes_at_end,
        },
    }
}

fn emit_sse(sink: &mut Sink, code: SseCode, reg_g: Reg, src: RegMem, rex: Rex, bytes_at_end: u8)
    ensures
        final(sink)@ == old(sink)@.push(sse(code, reg_g, src, rex, bytes_at_end)),
{
    match src {
        RegMem::Reg { reg } => {
            sink.push(
                Step::StdRegReg {
                    prefix: code.prefix,
                    opcode: code.opcode,
                    num_opcodes: code.num_opcodes,
                    reg_g,
                    reg_e: reg,
                    rex,
                },
            );
        },
        RegMem::Mem { addr } => {
            sink.push(
                Step::StdRegMem {
                    prefix: code.prefix,
                    opcode: code.opcode,
                    num_opcodes: code.num_opcodes,
                    reg_g,
                    addr,
                    rex,
                    bytes_at_end,
                },
            );
        },
    }
}

/// An operation of one operand.
pub open spec fn xmm_unary_rm_r(op: SseOpcode, src: RegMem, dst: Xmm) -> Step {
    sse(
        crate::x64::opcodes::sse_unary_code(op)->0,
        Reg::Xmm(dst),
        src,
        Rex::of(RexBase::ClearW),
        0,
    )
}

/// Emits an operation of one operand.
pub fn emit_xmm_unary_rm_r(sink: &mut Sink, op: SseOpcode, src: RegMem, dst: Xmm)
    requires
        crate::x64::opcodes::sse_unary_code(op) is Some,
    ensures
        final(sink)@ == old(sink)@.push(xmm_unary_rm_r(op, src, dst)),
{
    let rex = Rex::new(RexBase::ClearW);
    if let Some(code) = sse_unary(op) {
        emit_sse(sink, code, Reg::Xmm(dst), src, rex, 0);
    }
}

/// An operation of two operands, the first of which is the destination.
pub open spec fn xmm_rm_r(op: SseOpcode, src2: RegMem, dst: Xmm) -> Step {
    sse(
        crate::x64::opcodes::sse_rm_r_code(op)->0,
        Reg::Xmm(dst),
        src2,
        Rex::of(RexBase::ClearW),
        0,
    )
}

/// Emits an operation of two operands.
pub fn emit_xmm_rm_r(sink: &mut Sink, op: SseOpcode, src1: Xmm, src2: RegMem, dst: Xmm)
    requires
        src1 == dst,
        crate::x64::opcodes::sse_rm_r_code(op) is Some,
    ensures
        final(sink)@ == old(sink)@.push(xmm_rm_r(op, src2, dst)),
{
    let rex = Rex::new(RexBase::ClearW);
    if let Some(code) = sse_rm_r(op) {
        emit_sse(sink, code, Reg::Xmm(dst), src2, rex, 0);
    }
}

/// An operation of two operands and an immediate, the first operand being the
/// destination.
pub open spec fn xmm_rm_r_imm(
    op: SseOpcode,
    src2: RegMem,
    dst: Reg,
    imm: u8,
    size: OperandSize,
) -> Seq<Step> {
    seq![
        sse(
            crate::x64::opcodes::sse_rm_r_imm_code(op)->0,
            dst,
            src2,
            Rex::of(RexBase::Size(size)),
            1,
        ),
        Step::Put1(imm),
    ]
}

/// Emits an operation of two operands and an immediate.
pub fn emit_xmm_rm_r_imm(
    sink: &mut Sink,
    op: SseOpcode,
    src1: Reg,
    src2: RegMem,
    dst: Reg,
    imm: u8,
    size: OperandSize,
)
    requires
        src1 == dst,
        crate::x64::opcodes::sse_rm_r_imm_code(op) is Some,
    ensures
        final(sink)@ == old(sink)@ + xmm_rm_r_imm(op, src2, dst, imm, size),
{
    let rex = Rex::new(RexBase::Size(size));
    if let Some(code) = sse_rm_r_imm(op) {
        // One byte follows the instruction: the immediate.
        emit_sse(sink, code, dst, src2, rex, 1);
    }
    sink.put1(imm);
}

/// A comparison that sets the flags.
pub open spec fn xmm_cmp_rm_r(op: SseOpcode, src1: Xmm, src2: RegMem) -> Step {
    sse(
        crate::x64::opcodes::sse_compare_code(op)->0,
        Reg::Xmm(src1),
        src2,
        Rex::of(RexBase::ClearW),
        0,
    )
}

/// Emits a comparison that sets the flags.
pub fn emit_xmm_cmp_rm_r(sink: &mut Sink, op: SseOpcode, src1: Xmm, src2: RegMem)
    requires
        crate::x64::opcodes::sse_compare_code(op) is Some,
    ensures
        final(sink)@ == old(sink)@.push(xmm_cmp_rm_r(op, src1, src2)),
{
    let rex = Rex::new(RexBase::ClearW);
    if let Some(code) = sse_compare(op) {
        emit_sse(sink, code, Reg::Xmm(src1), src2, rex, 0);
    }
}

/// A vector instruction with the longest prefix.
pub open spec fn evex(
    op: Avx512Opcode,
    code: VexCode,
    reg: u8,
    vvvvv: Option<u8>,
    src: RegMem,
) -> Step {
    Step::Evex(
        EvexInstruction {
            prefix: code.prefix,
            map: code.map,
            w: code.w,
            opcode: code.opcode,
            tuple_type_of: op,
            reg,
            vvvvv,
            rm: operand(src),
            imm: None,
        },
    )
}

/// An operation of one operand.
pub open spec fn xmm_unary_rm_r_evex(op: Avx512Opcode, src: RegMem, dst: Xmm) -> Step {
    evex(op, crate::x64::opcodes::evex_unary_code(op)->0, dst.enc, None, src)
}

/// Emits an operation of one operand.
pub fn emit_xmm_unary_rm_r_evex(sink: &mut Sink, op: Avx512Opcode, src: RegMem, dst: Xmm)
    requires
        crate::x64::opcodes::evex_unary_code(op) is Some,
    ensures
        final(sink)@ == old(sink)@.push(xmm_unary_rm_r_evex(op, src, dst)),
{
    let rm = to_operand(src);
    if let Some(code) = evex_unary(op) {
        sink.push(
            Step::Evex(
                EvexInstruction {
                    prefix: code.prefix,
                    map: code.map,
                    w: code.w,
                    opcode: code.opcode,
                    tuple_type_of: op,
                    reg: dst.enc,
                    vvvvv: None,
                    rm,
                    imm: None,
                },
            ),
        );
    }
}

/// An operation of one operand and an immediate. The register field extends the
/// opcode.
pub open spec fn xmm_unary_rm_r_imm_evex(
    op: Avx512Opcode,
    src: RegMem,
    dst: Xmm,
    imm: u8,
) -> Step {
    let code = crate::x64::opcodes::evex_imm_code(op)->0;
    Step::Evex(
        EvexInstruction {
            prefix: LegacyPrefixes::P66,
            map: OpcodeMap::M0F,
            w: code.w,
            opcode: code.opcode,
            tuple_type_of: op,
            reg: code.opcode_ext,
            vvvvv: Some(dst.enc),
            rm: operand(src),
            imm: Some(imm),
        },
    )
}

/// Emits an operation of one operand and an immediate.
pub fn emit_xmm_unary_rm_r_imm_evex(
    sink: &mut Sink,
    op: Avx512Opcode,
    src: RegMem,
    dst: Xmm,
    imm: u8,
)
    requires
        crate::x64::opcodes::evex_imm_code(op) is Some,
    ensures
        final(sink)@ == old(sink)@.push(xmm_unary_rm_r_imm_evex(op, src, dst, imm)),
{
    let rm = to_operand(src);
    if let Some(code) = evex_imm(op) {
        sink.push(
            Step::Evex(
                EvexInstruction {
                    prefix: LegacyPrefixes::P66,
                    map: OpcodeMap::M0F,
                    w: code.w,
                    opcode: code.opcode,
                    tuple_type_of: op,
                    reg: code.opcode_ext,
                    vvvvv: Some(dst.enc),
                    rm,
                    imm: Some(imm),
                },
            ),
        );
    }
}

/// An operation of two operands.
pub open spec fn xmm_rm_r_evex(op: Avx512Opcode, src1: Xmm, src2: RegMem, dst: Xmm) -> Step {
    evex(op, crate::x64::opcodes::evex_rm_r_code(op)->0, dst.enc, Some(src1.enc), src2)
}

/// Emits an operation of two operands.
pub fn emit_xmm_rm_r_evex(sink: &mut Sink, op: Avx512Opcode, src1: Xmm, src2: RegMem, dst: Xmm)
    requires
        crate::x64::opcodes::evex_rm_r_code(op) is Some,
    ensures
        final(sink)@ == old(sink)@.push(xmm_rm_r_evex(op, src1, src2, dst)),
{
    let rm = to_operand(src2);
    if let Some(code) = evex_rm_r(op) {
        sink.push(
            Step::Evex(
                EvexInstruction {
                    prefix: code.prefix,
                    map: code.map,
                    w: code.w,
                    opcode: code.opcode,
                    tuple_type_of: op,
                    reg: dst.enc,
                    vvvvv: Some(src1.enc),
                    rm,
                    imm: None,
                },
            ),
        );
    }
}

/// A vector instruction with a register, up to one further register, an operand
/// and an immediate. `set_w` says whether the field `w` is set.
pub open spec fn vex(
    code: VexCode,
    set_w: bool,
    reg: u8,
    vvvv: Option<u8>,
    rm: RegisterOrAmode,
    imm: Option<u8>,
) -> Step {
    Step::Vex(
        VexInstruction {
            prefix: code.prefix,
            map: code.map,
            w: if set_w {
                Some(code.w)
            } else {
                None
            },
            opcode: code.opcode,
            opcode_ext: None,
            reg: Some(reg),
            vvvv,
            rm,
            imm,
        },
    )
}

fn emit_vex(
    sink: &mut Sink,
    code: VexCode,
    set_w: bool,
    reg: u8,
    vvvv: Option<u8>,
    rm: RegisterOrAmode,
    imm: Option<u8>,
)
    ensures
        final(sink)@ == old(sink)@.push(vex(code, set_w, reg, vvvv, rm, imm)),
{
    let w = if set_w {
        Some(code.w)
    } else {
        None
    };
    sink.push(
        Step::Vex(
            VexInstruction {
                prefix: code.prefix,
                map: code.map,
                w,
                opcode: code.opcode,
                opcode_ext: None,
                reg: Some(reg),
                vvvv,
                rm,
                imm,
            },
        ),
    );
}

/// A shift by an immediate. The destination is in the further register field,
/// and the register field extends the opcode.
pub open spec fn vex_shift(code: ExtendedCode, src1: Xmm, dst: Xmm, imm: u8) -> Step {
    Step::Vex(
        VexInstruction {
            prefix: LegacyPrefixes::P66,
            map: OpcodeMap::M0F,
            w: None,
            opcode: code.opcode,
            opcode_ext: Some(code.opcode_ext),
            reg: None,
            vvvv: Some(dst.enc),
            rm: RegisterOrAmode::Register(src1.enc),
            imm: Some(imm),
        },
    )
}

/// The operands of an operation are swapped if it is commutative, the first is
/// one of the low registers and the second one of the high registers: that
/// saves a byte.
pub open spec fn swapped(commutative: bool, src1: Xmm, src2: RegMemImm) -> bool {
    src2 matches RegMemImm::Reg { reg } && commutative && src1.enc < 8 && reg.enc() >= 8
}

/// What the operation of two operands or a shift by an immediate needs.
pub open spec fn rmi_r_vex_ok(op: AvxOpcode, src2: RegMemImm) -> bool {
    match src2 {
        RegMemImm::Imm { simm32 } => simm32 <= u8::MAX && crate::x64::opcodes::avx_shift_imm_code(
            op,
        ) is Some,
        _ => crate::x64::opcodes::avx_rmi_r_code(op) is Some,
    }
}

/// An operation of two operands, or a shift by an immediate.
pub open spec fn xmm_rmi_r_vex(
    op: AvxOpcode,
    commutative: bool,
    src1: Xmm,
    src2: RegMemImm,
    dst: Xmm,
) -> Step {
    let code = crate::x64::opcodes::avx_rmi_r_code(op)->0;
    match src2 {
        RegMemImm::Imm { simm32 } => vex_shift(
            crate::x64::opcodes::avx_shift_imm_code(op)->0,
            src1,
            dst,
            simm32 as u8,
        ),
        RegMemImm::Reg { reg } => if swapped(commutative, src1, src2) {
            vex(
                code,
                false,
                dst.enc,
                Some(reg.enc()),
                RegisterOrAmode::Register(src1.enc),
                None,
            )
        } else {
            vex(
                code,
                false,
                dst.enc,
                Some(src1.enc),
                RegisterOrAmode::Register(reg.enc()),
                None,
            )
        },
        RegMemImm::Mem { addr } => vex(
            code,
            false,
            dst.enc,
            Some(src1.enc),
            RegisterOrAmode::Amode(addr),
            None,
        ),
    }
}

/// Emits an operation of two operands, or a shift by an immediate.
pub fn emit_xmm_rmi_r_vex(
    sink: &mut Sink,
    op: AvxOpcode,
    commutative: bool,
    src1: Xmm,
    src2: RegMemImm,
    dst: Xmm,
)
    requires
        rmi_r_vex_ok(op, src2),
    ensures
        final(sink)@ == old(sink)@.push(xmm_rmi_r_vex(op, commutative, src1, src2, dst)),
{
    let (first, rm): (u8, RegisterOrAmode) = match src2 {
        RegMemImm::Imm { simm32 } => {
            // With an immediate the encoding is a bit different.
            if let Some(code) = avx_shift_imm(op) {
                sink.push(
                    Step::Vex(
                        VexInstruction {
                            prefix: LegacyPrefixes::P66,
                            map: OpcodeMap::M0F,
                            w: None,
                            opcode: code.opcode,
                            opcode_ext: Some(code.opcode_ext),
                            reg: None,
                            vvvv: Some(dst.enc),
                            rm: RegisterOrAmode::Register(src1.enc),
                            imm: Some(simm32 as u8),
                        },
                    ),
                );
            }
            return ;
        },
        RegMemImm::Reg { reg } => {
            let enc: u8 = reg.hw_enc();
            if commutative && src1.enc < 8 && enc >= 8 {
                (enc, RegisterOrAmode::Register(src1.enc))
            } else {
                (src1.enc, RegisterOrAmode::Register(enc))
            }
        },
        RegMemImm::Mem { addr } => (src1.enc, RegisterOrAmode::Amode(addr)),
    };
    if let Some(code) = avx_rmi_r(op) {
        emit_vex(sink, code, false, dst.enc, Some(first), rm, None);
    }
}

/// An operation of two operands and an immediate.
pub open spec fn xmm_rm_r_imm_vex(
    op: AvxOpcode,
    src1: Xmm,
    src2: RegMem,
    dst: Xmm,
    imm: u8,
) -> Step {
    vex(
        crate::x64::opcodes::avx_rm_r_imm_code(op)->0,
        true,
        dst.enc,
        Some(src1.enc),
        operand(src2),
        Some(imm),
    )
}

/// Emits an operation of two operands and an immediate.
pub fn emit_xmm_rm_r_imm_vex(
    sink: &mut Sink,
    op: AvxOpcode,
    src1: Xmm,
    src2: RegMem,
    dst: Xmm,
    imm: u8,
)
    requires
        crate::x64::opcodes::avx_rm_r_imm_code(op) is Some,
    ensures
        final(sink)@ == old(sink)@.push(xmm_rm_r_imm_vex(op, src1, src2, dst, imm)),
{
    let rm = to_operand(src2);
    if let Some(code) = avx_rm_r_imm(op) {
        emit_vex(sink, code, true, dst.enc, Some(src1.enc), rm, Some(imm));
    }
}

/// A multiplication with an addition. The first operand is the destination.
pub open spec fn xmm_rm_r_vex3(op: AvxOpcode, src2: Xmm, src3: RegMem, dst: Xmm) -> Step {
    vex(
        crate::x64::opcodes::avx_fused_code(op)->0,
        true,
        dst.enc,
        Some(src2.enc),
        operand(src3),
        None,
    )
}

/// Emits a multiplication with an addition.
pub fn emit_xmm_rm_r_vex3(
    sink: &mut Sink,
    op: AvxOpcode,
    src1: Xmm,
    src2: Xmm,
    src3: RegMem,
    dst: Xmm,
)
    requires
        src1 == dst,
        crate::x64::opcodes::avx_fused_code(op) is Some,
    ensures
        final(sink)@ == old(sink)@.push(xmm_rm_r_vex3(op, src2, src3, dst)),
{
    let rm = to_operand(src3);
    if let Some(code) = avx_fused(op) {
        emit_vex(sink, code, true, dst.enc, Some(src2.enc), rm, None);
    }
}

/// An operation of one operand.
pub open spec fn xmm_unary_rm_r_vex(op: AvxOpcode, src: RegMem, dst: Xmm) -> Step {
    vex(
        crate::x64::opcodes::avx_unary_code(op, src is Mem)->0,
        false,
        dst.enc,
        None,
        operand(src),
        None,
    )
}

/// Emits an operation of one operand.
pub fn emit_xmm_unary_rm_r_vex(sink: &mut Sink, op: AvxOpcode, src: RegMem, dst: Xmm)
    requires
        crate::x64::opcodes::avx_unary_code(op, src is Mem) is Some,
    ensures
        final(sink)@ == old(sink)@.push(xmm_unary_rm_r_vex(op, src, dst)),
{
    let rm = to_operand(src);
    let in_memory = match src {
        RegMem::Reg { .. } => false,
        RegMem::Mem { .. } => true,
    };
    if let Some(code) = avx_unary(op, in_memory) {
        emit_vex(sink, code, false, dst.enc, None, rm, None);
    }
}

/// A move to memory.
pub open spec fn xmm_mov_rm_vex(op: AvxOpcode, src: Xmm, dst: Amode) -> Step {
    vex(
        crate::x64::opcodes::avx_store_code(op)->0,
        false,
        src.enc,
        None,
        RegisterOrAmode::Amode(dst),
        None,
    )
}

/// Emits a move to memory.
pub fn emit_xmm_mov_rm_vex(sink: &mut Sink, op: AvxOpcode, src: Xmm, dst: Amode)
    requires
        crate::x64::opcodes::avx_store_code(op) is Some,
    ensures
        final(sink)@ == old(sink)@.push(xmm_mov_rm_vex(op, src, dst)),
{
    if let Some(code) = avx_store(op) {
        emit_vex(sink, code, false, src.enc, None, RegisterOrAmode::Amode(dst), None);
    }
}

/// An extraction of a lane to memory or to a register.
pub open spec fn extract(op: AvxOpcode, src: Xmm, rm: RegisterOrAmode, imm: u8) -> Step {
    vex(crate::x64::opcodes::avx_extract_code(op)->0, true, src.enc, None, rm, Some(imm))
}

/// Emits an extraction of a lane to memory.
pub fn emit_xmm_mov_rm_imm_vex(sink: &mut Sink, op: AvxOpcode, src: Xmm, dst: Amode, imm: u8)
    requires
        crate::x64::opcodes::avx_extract_code(op) is Some,
    ensures
        final(sink)@ == old(sink)@.push(extract(op, src, RegisterOrAmode::Amode(dst), imm)),
{
    if let Some(code) = avx_extract(op) {
        emit_vex(sink, code, true, src.enc, None, RegisterOrAmode::Amode(dst), Some(imm));
    }
}

/// Emits an extraction of a lane to a register.
pub fn emit_xmm_to_gpr_imm_vex(sink: &mut Sink, op: AvxOpcode, src: Xmm, dst: Gpr, imm: u8)
    requires
        crate::x64::opcodes::avx_extract_code(op) is Some,
    ensures
        final(sink)@ == old(sink)@.push(extract(op, src, RegisterOrAmode::Register(dst.enc), imm)),
{
    if let Some(code) = avx_extract(op) {
        emit_vex(sink, code, true, src.enc, None, RegisterOrAmode::Register(dst.enc), Some(imm));
    }
}

/// A comparison that sets the flags.
pub open spec fn xmm_cmp_rm_r_vex(op: AvxOpcode, src1: Xmm, src2: RegMem) -> Step {
    vex(
        crate::x64::opcodes::avx_compare_code(op)->0,
        false,
        src1.enc,
        None,
        operand(src2),
        None,
    )
}

/// Emits a comparison that sets the flags.
pub fn emit_xmm_cmp_rm_r_vex(sink: &mut Sink, op: AvxOpcode, src1: Xmm, src2: RegMem)
    requires
        crate::x64::opcodes::avx_compare_code(op) is Some,
    ensures
        final(sink)@ == old(sink)@.push(xmm_cmp_rm_r_vex(op, src1, src2)),
{
    let rm = to_operand(src2);
    if let Some(code) = avx_compare(op) {
        emit_vex(sink, code, false, src1.enc, None, rm, None);
    }
}

} // verus!
