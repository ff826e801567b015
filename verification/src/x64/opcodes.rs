//! The instruction set: operations of vector instructions and how they are
//! encoded.

use crate::x64::opcodes::LegacyPrefixes::{NoPrefix, PF2, PF3, P66};
use crate::x64::opcodes::OpcodeMap::{M0F, M0F38, M0F3A};
use vstd::prelude::*;

verus! {

/// Prefixes before an opcode.
#[derive(Debug, Clone, Copy, PartialEq, Eq, Structural)]
pub enum LegacyPrefixes {
    NoPrefix,
    P66,
    PF0,
    P66F0,
    PF2,
    PF3,
}

/// The opcode map that an opcode is looked up in.
#[derive(Debug, Clone, Copy, PartialEq, Eq, Structural)]
pub enum OpcodeMap {
    M0F,
    M0F38,
    M0F3A,
}

/// Operations on vector registers.
#[derive(Debug, Clone, Copy, PartialEq, Eq, Structural)]
pub enum SseOpcode {
    Pabsb,
    Pabsw,
    Pabsd,
    Movlhps,
    Packssdw,
    Packsswb,
    Packusdw,
    Packuswb,
    Pmaddubsw,
    Pavgb,
    Pavgw,
    Pcmpeqb,
    Pcmpeqw,
    Pcmpeqd,
    Pcmpeqq,
    Pcmpgtb,
    Pcmpgtw,
    Pcmpgtd,
    Pcmpgtq,
    Pmaddwd,
    Pshufb,
    Cmpps,
    Cmppd,
    Cmpss,
    Cmpsd,
    Insertps,
    Palignr,
    Shufps,
    Pblendw,
    Ptest,
    Ucomisd,
    Ucomiss,
}

/// Operations on vector registers, with a separate destination.
#[derive(Debug, Clone, Copy, PartialEq, Eq, Structural)]
pub enum AvxOpcode {
    Vpsrlw,
    Vpsrld,
    Vpsrlq,
    Vpsllw,
    Vpslld,
    Vpsllq,
    Vpsraw,
    Vpsrad,
    Vminps,
    Vminpd,
    Vmaxps,
    Vmaxpd,
    Vandnps,
    Vandnpd,
    Vpandn,
    Vpaddb,
    Vpaddw,
    Vpaddd,
    Vpaddq,
    Vpaddsb,
    Vpaddsw,
    Vpaddusb,
    Vpaddusw,
    Vpsubb,
    Vpsubw,
    Vpsubd,
    Vpsubq,
    Vpsubsb,
    Vpsubsw,
    Vpsubusb,
    Vpsubusw,
    Vpavgb,
    Vpavgw,
    Vpand,
    Vandps,
    Vandpd,
    Vpor,
    Vorps,
    Vorpd,
    Vpxor,
    Vxorps,
    Vxorpd,
    Vpmullw,
    Vpmulld,
    Vpmulhw,
    Vpmulhrsw,
    Vpmulhuw,
    Vpmuldq,
    Vpmuludq,
    Vpunpckhwd,
    Vpunpcklwd,
    Vunpcklps,
    Vunpckhps,
    Vaddps,
    Vaddpd,
    Vsubps,
    Vsubpd,
    Vmulps,
    Vmulpd,
    Vdivps,
    Vdivpd,
    Vpcmpeqb,
    Vpcmpeqw,
    Vpcmpeqd,
    Vpcmpeqq,
    Vpcmpgtb,
    Vpcmpgtw,
    Vpcmpgtd,
    Vpcmpgtq,
    Vmovlhps,
    Vpminsb,
    Vpminsw,
    Vpminsd,
    Vpmaxsb,
    Vpmaxsw,
    Vpmaxsd,
    Vpminub,
    Vpminuw,
    Vpminud,
    Vpmaxub,
    Vpmaxuw,
    Vpmaxud,
    Vpunpcklbw,
    Vpunpckhbw,
    Vpacksswb,
    Vpackssdw,
    Vpackuswb,
    Vpackusdw,
    Vpmaddwd,
    Vpmaddubsw,
    Vpshufb,
    Vaddss,
    Vaddsd,
    Vmulss,
    Vmulsd,
    Vsubss,
    Vsubsd,
    Vdivss,
    Vdivsd,
    Vminss,
    Vminsd,
    Vmaxss,
    Vmaxsd,
    Vphaddw,
    Vphaddd,
    Vpunpckldq,
    Vpunpckhdq,
    Vpunpcklqdq,
    Vpunpckhqdq,
    Vmovsd,
    Vmovss,
    Vsqrtss,
    Vsqrtsd,
    Vunpcklpd,
    Vcmpps,
    Vcmppd,
    Vpalignr,
    Vinsertps,
    Vshufps,
    Vpblendw,
    Vfmadd132ss,
    Vfmadd213ss,
    Vfnmadd132ss,
    Vfnmadd213ss,
    Vfmadd132sd,
    Vfmadd213sd,
    Vfnmadd132sd,
    Vfnmadd213sd,
    Vfmadd132ps,
    Vfmadd213ps,
    Vfnmadd132ps,
    Vfnmadd213ps,
    Vfmadd132pd,
    Vfmadd213pd,
    Vfnmadd132pd,
    Vfnmadd213pd,
    Vfmsub132ss,
    Vfmsub213ss,
    Vfnmsub132ss,
    Vfnmsub213ss,
    Vfmsub132sd,
    Vfmsub213sd,
    Vfnmsub132sd,
    Vfnmsub213sd,
    Vfmsub132ps,
    Vfmsub213ps,
    Vfnmsub132ps,
    Vfnmsub213ps,
    Vfmsub132pd,
    Vfmsub213pd,
    Vfnmsub132pd,
    Vfnmsub213pd,
    Vpmovsxbw,
    Vpmovzxbw,
    Vpmovsxwd,
    Vpmovzxwd,
    Vpmovsxdq,
    Vpmovzxdq,
    Vpabsb,
    Vpabsw,
    Vpabsd,
    Vsqrtps,
    Vsqrtpd,
    Vmovdqu,
    Vmovups,
    Vmovupd,
    Vpbroadcastb,
    Vpbroadcastw,
    Vpbroadcastd,
    Vbroadcastss,
    Vpextrb,
    Vpextrw,
    Vpextrd,
    Vpextrq,
    Vucomiss,
    Vucomisd,
    Vptest,
}

/// Operations on vector registers that take the longest prefix.
#[derive(Debug, Clone, Copy, PartialEq, Eq, Structural)]
pub enum Avx512Opcode {
    Vcvtudq2ps,
    Vpabsq,
    Vpopcntb,
    VpsraqImm,
    Vpermi2b,
    Vpmullq,
    Vpsraq,
}

/// An opcode with its prefix. The opcode has `num_opcodes` bytes.
#[derive(Debug, Clone, Copy, PartialEq, Eq, Structural)]
pub struct SseCode {
    pub prefix: LegacyPrefixes,
    pub opcode: u32,
    pub num_opcodes: u8,
}

/// An opcode with what the vector prefix says of it.
#[derive(Debug, Clone, Copy, PartialEq, Eq, Structural)]
pub struct VexCode {
    pub prefix: LegacyPrefixes,
    pub map: OpcodeMap,
    pub w: bool,
    pub opcode: u8,
}

/// An opcode that is extended by the register field.
#[derive(Debug, Clone, Copy, PartialEq, Eq, Structural)]
pub struct ExtendedCode {
    pub opcode: u8,
    pub opcode_ext: u8,
    pub w: bool,
}

/// The operations of one operand.
pub open spec fn sse_unary_code(op: SseOpcode) -> Option<SseCode> {
    match op {
        SseOpcode::Pabsb => Some(SseCode { prefix: P66, opcode: 0x0F381C, num_opcodes: 3 }),
        SseOpcode::Pabsw => Some(SseCode { prefix: P66, opcode: 0x0F381D, num_opcodes: 3 }),
        SseOpcode::Pabsd => Some(SseCode { prefix: P66, opcode: 0x0F381E, num_opcodes: 3 }),
        _ => None,
    }
}

/// The operations of one operand.
pub fn sse_unary(op: SseOpcode) -> (code: Option<SseCode>)
    ensures
        code == sse_unary_code(op),
{
    match op {
        SseOpcode::Pabsb => Some(SseCode { prefix: P66, opcode: 0x0F381C, num_opcodes: 3 }),
        SseOpcode::Pabsw => Some(SseCode { prefix: P66, opcode: 0x0F381D, num_opcodes: 3 }),
        SseOpcode::Pabsd => Some(SseCode { prefix: P66, opcode: 0x0F381E, num_opcodes: 3 }),
        _ => None,
    }
}

/// The operations of two operands.
pub open spec fn sse_rm_r_code(op: SseOpcode) -> Option<SseCode> {
    match op {
        SseOpcode::Movlhps => Some(SseCode { prefix: NoPrefix, opcode: 0x0F16, num_opcodes: 2 }),
        SseOpcode::Packssdw => Some(SseCode { prefix: P66, opcode: 0x0F6B, num_opcodes: 2 }),
        SseOpcode::Packsswb => Some(SseCode { prefix: P66, opcode: 0x0F63, num_opcodes: 2 }),
        SseOpcode::Packusdw => Some(SseCode { prefix: P66, opcode: 0x0F382B, num_opcodes: 3 }),
        SseOpcode::Packuswb => Some(SseCode { prefix: P66, opcode: 0x0F67, num_opcodes: 2 }),
        SseOpcode::Pmaddubsw => Some(SseCode { prefix: P66, opcode: 0x0F3804, num_opcodes: 3 }),
        SseOpcode::Pavgb => Some(SseCode { prefix: P66, opcode: 0x0FE0, num_opcodes: 2 }),
        SseOpcode::Pavgw => Some(SseCode { prefix: P66, opcode: 0x0FE3, num_opcodes: 2 }),
        SseOpcode::Pcmpeqb => Some(SseCode { prefix: P66, opcode: 0x0F74, num_opcodes: 2 }),
        SseOpcode::Pcmpeqw => Some(SseCode { prefix: P66, opcode: 0x0F75, num_opcodes: 2 }),
        SseOpcode::Pcmpeqd => Some(SseCode { prefix: P66, opcode: 0x0F76, num_opcodes: 2 }),
        SseOpcode::Pcmpeqq => Some(SseCode { prefix: P66, opcode: 0x0F3829, num_opcodes: 3 }),
        SseOpcode::Pcmpgtb => Some(SseCode { prefix: P66, opcode: 0x0F64, num_opcodes: 2 }),
        SseOpcode::Pcmpgtw => Some(SseCode { prefix: P66, opcode: 0x0F65, num_opcodes: 2 }),
        SseOpcode::Pcmpgtd => Some(SseCode { prefix: P66, opcode: 0x0F66, num_opcodes: 2 }),
        SseOpcode::Pcmpgtq => Some(SseCode { prefix: P66, opcode: 0x0F3837, num_opcodes: 3 }),
        SseOpcode::Pmaddwd => Some(SseCode { prefix: P66, opcode: 0x0FF5, num_opcodes: 2 }),
        SseOpcode::Pshufb => Some(SseCode { prefix: P66, opcode: 0x0F3800, num_opcodes: 3 }),
        _ => None,
    }
}

/// The operations of two operands.
pub fn sse_rm_r(op: SseOpcode) -> (code: Option<SseCode>)
    ensures
        code == sse_rm_r_code(op),
{
    match op {
        SseOpcode::Movlhps => Some(SseCode { prefix: NoPrefix, opcode: 0x0F16, num_opcodes: 2 }),
        SseOpcode::Packssdw => Some(SseCode { prefix: P66, opcode: 0x0F6B, num_opcodes: 2 }),
        SseOpcode::Packsswb => Some(SseCode { prefix: P66, opcode: 0x0F63, num_opcodes: 2 }),
        SseOpcode::Packusdw => Some(SseCode { prefix: P66, opcode: 0x0F382B, num_opcodes: 3 }),
        SseOpcode::Packuswb => Some(SseCode { prefix: P66, opcode: 0x0F67, num_opcodes: 2 }),
        SseOpcode::Pmaddubsw => Some(SseCode { prefix: P66, opcode: 0x0F3804, num_opcodes: 3 }),
        SseOpcode::Pavgb => Some(SseCode { prefix: P66, opcode: 0x0FE0, num_opcodes: 2 }),
        SseOpcode::Pavgw => Some(SseCode { prefix: P66, opcode: 0x0FE3, num_opcodes: 2 }),
        SseOpcode::Pcmpeqb => Some(SseCode { prefix: P66, opcode: 0x0F74, num_opcodes: 2 }),
        SseOpcode::Pcmpeqw => Some(SseCode { prefix: P66, opcode: 0x0F75, num_opcodes: 2 }),
        SseOpcode::Pcmpeqd => Some(SseCode { prefix: P66, opcode: 0x0F76, num_opcodes: 2 }),
        SseOpcode::Pcmpeqq => Some(SseCode { prefix: P66, opcode: 0x0F3829, num_opcodes: 3 }),
        SseOpcode::Pcmpgtb => Some(SseCode { prefix: P66, opcode: 0x0F64, num_opcodes: 2 }),
        SseOpcode::Pcmpgtw => Some(SseCode { prefix: P66, opcode: 0x0F65, num_opcodes: 2 }),
        SseOpcode::Pcmpgtd => Some(SseCode { prefix: P66, opcode: 0x0F66, num_opcodes: 2 }),
        SseOpcode::Pcmpgtq => Some(SseCode { prefix: P66, opcode: 0x0F3837, num_opcodes: 3 }),
        SseOpcode::Pmaddwd => Some(SseCode { prefix: P66, opcode: 0x0FF5, num_opcodes: 2 }),
        SseOpcode::Pshufb => Some(SseCode { prefix: P66, opcode: 0x0F3800, num_opcodes: 3 }),
        _ => None,
    }
}

/// The operations of two operands and an immediate.
pub open spec fn sse_rm_r_imm_code(op: SseOpcode) -> Option<SseCode> {
    match op {
        SseOpcode::Cmpps => Some(SseCode { prefix: NoPrefix, opcode: 0x0FC2, num_opcodes: 2 }),
        SseOpcode::Cmppd => Some(SseCode { prefix: P66, opcode: 0x0FC2, num_opcodes: 2 }),
        SseOpcode::Cmpss => Some(SseCode { prefix: PF3, opcode: 0x0FC2, num_opcodes: 2 }),
        SseOpcode::Cmpsd => Some(SseCode { prefix: PF2, opcode: 0x0FC2, num_opcodes: 2 }),
        SseOpcode::Insertps => Some(SseCode { prefix: P66, opcode: 0x0F3A21, num_opcodes: 3 }),
        SseOpcode::Palignr => Some(SseCode { prefix: P66, opcode: 0x0F3A0F, num_opcodes: 3 }),
        SseOpcode::Shufps => Some(SseCode { prefix: NoPrefix, opcode: 0x0FC6, num_opcodes: 2 }),
        SseOpcode::Pblendw => Some(SseCode { prefix: P66, opcode: 0x0F3A0E, num_opcodes: 3 }),
        _ => None,
    }
}

/// The operations of two operands and an immediate.
pub fn sse_rm_r_imm(op: SseOpcode) -> (code: Option<SseCode>)
    ensures
        code == sse_rm_r_imm_code(op),
{
    match op {
        SseOpcode::Cmpps => Some(SseCode { prefix: NoPrefix, opcode: 0x0FC2, num_opcodes: 2 }),
        SseOpcode::Cmppd => Some(SseCode { prefix: P66, opcode: 0x0FC2, num_opcodes: 2 }),
        SseOpcode::Cmpss => Some(SseCode { prefix: PF3, opcode: 0x0FC2, num_opcodes: 2 }),
        SseOpcode::Cmpsd => Some(SseCode { prefix: PF2, opcode: 0x0FC2, num_opcodes: 2 }),
        SseOpcode::Insertps => Some(SseCode { prefix: P66, opcode: 0x0F3A21, num_opcodes: 3 }),
        SseOpcode::Palignr => Some(SseCode { prefix: P66, opcode: 0x0F3A0F, num_opcodes: 3 }),
        SseOpcode::Shufps => Some(SseCode { prefix: NoPrefix, opcode: 0x0FC6, num_opcodes: 2 }),
        SseOpcode::Pblendw => Some(SseCode { prefix: P66, opcode: 0x0F3A0E, num_opcodes: 3 }),
        _ => None,
    }
}

/// The comparisons, which set the flags.
pub open spec fn sse_compare_code(op: SseOpcode) -> Option<SseCode> {
    match op {
        SseOpcode::Ptest => Some(SseCode { prefix: P66, opcode: 0x0F3817, num_opcodes: 3 }),
        SseOpcode::Ucomisd => Some(SseCode { prefix: P66, opcode: 0x0F2E, num_opcodes: 2 }),
        SseOpcode::Ucomiss => Some(SseCode { prefix: NoPrefix, opcode: 0x0F2E, num_opcodes: 2 }),
        _ => None,
    }
}

/// The comparisons, which set the flags.
pub fn sse_compare(op: SseOpcode) -> (code: Option<SseCode>)
    ensures
        code == sse_compare_code(op),
{
    match op {
        SseOpcode::Ptest => Some(SseCode { prefix: P66, opcode: 0x0F3817, num_opcodes: 3 }),
        SseOpcode::Ucomisd => Some(SseCode { prefix: P66, opcode: 0x0F2E, num_opcodes: 2 }),
        SseOpcode::Ucomiss => Some(SseCode { prefix: NoPrefix, opcode: 0x0F2E, num_opcodes: 2 }),
        _ => None,
    }
}

/// The shifts by an immediate.
pub open spec fn avx_shift_imm_code(op: AvxOpcode) -> Option<ExtendedCode> {
    match op {
        AvxOpcode::Vpsrlw => Some(ExtendedCode { opcode: 0x71, opcode_ext: 2, w: false }),
        AvxOpcode::Vpsrld => Some(ExtendedCode { opcode: 0x72, opcode_ext: 2, w: false }),
        AvxOpcode::Vpsrlq => Some(ExtendedCode { opcode: 0x73, opcode_ext: 2, w: false }),
        AvxOpcode::Vpsllw => Some(ExtendedCode { opcode: 0x71, opcode_ext: 6, w: false }),
        AvxOpcode::Vpslld => Some(ExtendedCode { opcode: 0x72, opcode_ext: 6, w: false }),
        AvxOpcode::Vpsllq => Some(ExtendedCode { opcode: 0x73, opcode_ext: 6, w: false }),
        AvxOpcode::Vpsraw => Some(ExtendedCode { opcode: 0x71, opcode_ext: 4, w: false }),
        AvxOpcode::Vpsrad => Some(ExtendedCode { opcode: 0x72, opcode_ext: 4, w: false }),
        _ => None,
    }
}

/// The shifts by an immediate.
pub fn avx_shift_imm(op: AvxOpcode) -> (code: Option<ExtendedCode>)
    ensures
        code == avx_shift_imm_code(op),
{
    match op {
        AvxOpcode::Vpsrlw => Some(ExtendedCode { opcode: 0x71, opcode_ext: 2, w: false }),
        AvxOpcode::Vpsrld => Some(ExtendedCode { opcode: 0x72, opcode_ext: 2, w: false }),
        AvxOpcode::Vpsrlq => Some(ExtendedCode { opcode: 0x73, opcode_ext: 2, w: false }),
        AvxOpcode::Vpsllw => Some(ExtendedCode { opcode: 0x71, opcode_ext: 6, w: false }),
        AvxOpcode::Vpslld => Some(ExtendedCode { opcode: 0x72, opcode_ext: 6, w: false }),
        AvxOpcode::Vpsllq => Some(ExtendedCode { opcode: 0x73, opcode_ext: 6, w: false }),
        AvxOpcode::Vpsraw => Some(ExtendedCode { opcode: 0x71, opcode_ext: 4, w: false }),
        AvxOpcode::Vpsrad => Some(ExtendedCode { opcode: 0x72, opcode_ext: 4, w: false }),
        _ => None,
    }
}

/// The operations of two operands.
pub open spec fn avx_rmi_r_code(op: AvxOpcode) -> Option<VexCode> {
    match op {
        AvxOpcode::Vminps => Some(VexCode { prefix: NoPrefix, map: M0F, w: false, opcode: 0x5D }),
        AvxOpcode::Vminpd => Some(VexCode { prefix: P66, map: M0F, w: false, opcode: 0x5D }),
        AvxOpcode::Vmaxps => Some(VexCode { prefix: NoPrefix, map: M0F, w: false, opcode: 0x5F }),
        AvxOpcode::Vmaxpd => Some(VexCode { prefix: P66, map: M0F, w: false, opcode: 0x5F }),
        AvxOpcode::Vandnps => Some(VexCode { prefix: NoPrefix, map: M0F, w: false, opcode: 0x55 }),
        AvxOpcode::Vandnpd => Some(VexCode { prefix: P66, map: M0F, w: false, opcode: 0x55 }),
        AvxOpcode::Vpandn => Some(VexCode { prefix: P66, map: M0F, w: false, opcode: 0xDF }),
        AvxOpcode::Vpsrlw => Some(VexCode { prefix: P66, map: M0F, w: false, opcode: 0xD1 }),
        AvxOpcode::Vpsrld => Some(VexCode { prefix: P66, map: M0F, w: false, opcode: 0xD2 }),
        AvxOpcode::Vpsrlq => Some(VexCode { prefix: P66, map: M0F, w: false, opcode: 0xD3 }),
        AvxOpcode::Vpaddb => Some(VexCode { prefix: P66, map: M0F, w: false, opcode: 0xFC }),
        AvxOpcode::Vpaddw => Some(VexCode { prefix: P66, map: M0F, w: false, opcode: 0xFD }),
        AvxOpcode::Vpaddd => Some(VexCode { prefix: P66, map: M0F, w: false, opcode: 0xFE }),
        AvxOpcode::Vpaddq => Some(VexCode { prefix: P66, map: M0F, w: false, opcode: 0xD4 }),
        AvxOpcode::Vpaddsb => Some(VexCode { prefix: P66, map: M0F, w: false, opcode: 0xEC }),
        AvxOpcode::Vpaddsw => Some(VexCode { prefix: P66, map: M0F, w: false, opcode: 0xED }),
        AvxOpcode::Vpaddusb => Some(VexCode { prefix: P66, map: M0F, w: false, opcode: 0xDC }),
        AvxOpcode::Vpaddusw => Some(VexCode { prefix: P66, map: M0F, w: false, opcode: 0xDD }),
        AvxOpcode::Vpsubb => Some(VexCode { prefix: P66, map: M0F, w: false, opcode: 0xF8 }),
        AvxOpcode::Vpsubw => Some(VexCode { prefix: P66, map: M0F, w: false, opcode: 0xF9 }),
        AvxOpcode::Vpsubd => Some(VexCode { prefix: P66, map: M0F, w: false, opcode: 0xFA }),
        AvxOpcode::Vpsubq => Some(VexCode { prefix: P66, map: M0F, w: false, opcode: 0xFB }),
        AvxOpcode::Vpsubsb => Some(VexCode { prefix: P66, map: M0F, w: false, opcode: 0xE8 }),
        AvxOpcode::Vpsubsw => Some(VexCode { prefix: P66, map: M0F, w: false, opcode: 0xE9 }),
        AvxOpcode::Vpsubusb => Some(VexCode { prefix: P66, map: M0F, w: false, opcode: 0xD8 }),
        AvxOpcode::Vpsubusw => Some(VexCode { prefix: P66, map: M0F, w: false, opcode: 0xD9 }),
        AvxOpcode::Vpavgb => Some(VexCode { prefix: P66, map: M0F, w: false, opcode: 0xE0 }),
        AvxOpcode::Vpavgw => Some(VexCode { prefix: P66, map: M0F, w: false, opcode: 0xE3 }),
        AvxOpcode::Vpand => Some(VexCode { prefix: P66, map: M0F, w: false, opcode: 0xDB }),
        AvxOpcode::Vandps => Some(VexCode { prefix: NoPrefix, map: M0F, w: false, opcode: 0x54 }),
        AvxOpcode::Vandpd => Some(VexCode { prefix: P66, map: M0F, w: false, opcode: 0x54 }),
        AvxOpcode::Vpor => Some(VexCode { prefix: P66, map: M0F, w: false, opcode: 0xEB }),
        AvxOpcode::Vorps => Some(VexCode { prefix: NoPrefix, map: M0F, w: false, opcode: 0x56 }),
        AvxOpcode::Vorpd => Some(VexCode { prefix: P66, map: M0F, w: false, opcode: 0x56 }),
        AvxOpcode::Vpxor => Some(VexCode { prefix: P66, map: M0F, w: false, opcode: 0xEF }),
        AvxOpcode::Vxorps => Some(VexCode { prefix: NoPrefix, map: M0F, w: false, opcode: 0x57 }),
        AvxOpcode::Vxorpd => Some(VexCode { prefix: P66, map: M0F, w: false, opcode: 0x57 }),
        AvxOpcode::Vpmullw => Some(VexCode { prefix: P66, map: M0F, w: false, opcode: 0xD5 }),
        AvxOpcode::Vpmulld => Some(VexCode { prefix: P66, map: M0F38, w: false, opcode: 0x40 }),
        AvxOpcode::Vpmulhw => Some(VexCode { prefix: P66, map: M0F, w: false, opcode: 0xE5 }),
        AvxOpcode::Vpmulhrsw => Some(VexCode { prefix: P66, map: M0F38, w: false, opcode: 0x0B }),
        AvxOpcode::Vpmulhuw => Some(VexCode { prefix: P66, map: M0F, w: false, opcode: 0xE4 }),
        AvxOpcode::Vpmuldq => Some(VexCode { prefix: P66, map: M0F38, w: false, opcode: 0x28 }),
        AvxOpcode::Vpmuludq => Some(VexCode { prefix: P66, map: M0F, w: false, opcode: 0xF4 }),
        AvxOpcode::Vpunpckhwd => Some(VexCode { prefix: P66, map: M0F, w: false, opcode: 0x69 }),
        AvxOpcode::Vpunpcklwd => Some(VexCode { prefix: P66, map: M0F, w: false, opcode: 0x61 }),
        AvxOpcode::Vunpcklps => Some(VexCode { prefix: NoPrefix, map: M0F, w: false, opcode: 0x14 }),
        AvxOpcode::Vunpckhps => Some(VexCode { prefix: NoPrefix, map: M0F, w: false, opcode: 0x15 }),
        AvxOpcode::Vaddps => Some(VexCode { prefix: NoPrefix, map: M0F, w: false, opcode: 0x58 }),
        AvxOpcode::Vaddpd => Some(VexCode { prefix: P66, map: M0F, w: false, opcode: 0x58 }),
        AvxOpcode::Vsubps => Some(VexCode { prefix: NoPrefix, map: M0F, w: false, opcode: 0x5C }),
        AvxOpcode::Vsubpd => Some(VexCode { prefix: P66, map: M0F, w: false, opcode: 0x5C }),
        AvxOpcode::Vmulps => Some(VexCode { prefix: NoPrefix, map: M0F, w: false, opcode: 0x59 }),
        AvxOpcode::Vmulpd => Some(VexCode { prefix: P66, map: M0F, w: false, opcode: 0x59 }),
        AvxOpcode::Vdivps => Some(VexCode { prefix: NoPrefix, map: M0F, w: false, opcode: 0x5E }),
        AvxOpcode::Vdivpd => Some(VexCode { prefix: P66, map: M0F, w: false, opcode: 0x5E }),
        AvxOpcode::Vpcmpeqb => Some(VexCode { prefix: P66, map: M0F, w: false, opcode: 0x74 }),
        AvxOpcode::Vpcmpeqw => Some(VexCode { prefix: P66, map: M0F, w: false, opcode: 0x75 }),
        AvxOpcode::Vpcmpeqd => Some(VexCode { prefix: P66, map: M0F, w: false, opcode: 0x76 }),
        AvxOpcode::Vpcmpeqq => Some(VexCode { prefix: P66, map: M0F38, w: false, opcode: 0x29 }),
        AvxOpcode::Vpcmpgtb => Some(VexCode { prefix: P66, map: M0F, w: false, opcode: 0x64 }),
        AvxOpcode::Vpcmpgtw => Some(VexCode { prefix: P66, map: M0F, w: false, opcode: 0x65 }),
        AvxOpcode::Vpcmpgtd => Some(VexCode { prefix: P66, map: M0F, w: false, opcode: 0x66 }),
        AvxOpcode::Vpcmpgtq => Some(VexCode { prefix: P66, map: M0F38, w: false, opcode: 0x37 }),
        AvxOpcode::Vmovlhps => Some(VexCode { prefix: NoPrefix, map: M0F, w: false, opcode: 0x16 }),
        AvxOpcode::Vpminsb => Some(VexCode { prefix: P66, map: M0F38, w: false, opcode: 0x38 }),
        AvxOpcode::Vpminsw => Some(VexCode { prefix: P66, map: M0F, w: false, opcode: 0xEA }),
        AvxOpcode::Vpminsd => Some(VexCode { prefix: P66, map: M0F38, w: false, opcode: 0x39 }),
        AvxOpcode::Vpmaxsb => Some(VexCode { prefix: P66, map: M0F38, w: false, opcode: 0x3C }),
        AvxOpcode::Vpmaxsw => Some(VexCode { prefix: P66, map: M0F, w: false, opcode: 0xEE }),
        AvxOpcode::Vpmaxsd => Some(VexCode { prefix: P66, map: M0F38, w: false, opcode: 0x3D }),
        AvxOpcode::Vpminub => Some(VexCode { prefix: P66, map: M0F, w: false, opcode: 0xDA }),
        AvxOpcode::Vpminuw => Some(VexCode { prefix: P66, map: M0F38, w: false, opcode: 0x3A }),
        AvxOpcode::Vpminud => Some(VexCode { prefix: P66, map: M0F38, w: false, opcode: 0x3B }),
        AvxOpcode::Vpmaxub => Some(VexCode { prefix: P66, map: M0F, w: false, opcode: 0xDE }),
        AvxOpcode::Vpmaxuw => Some(VexCode { prefix: P66, map: M0F38, w: false, opcode: 0x3E }),
        AvxOpcode::Vpmaxud => Some(VexCode { prefix: P66, map: M0F38, w: false, opcode: 0x3F }),
        AvxOpcode::Vpunpcklbw => Some(VexCode { prefix: P66, map: M0F, w: false, opcode: 0x60 }),
        AvxOpcode::Vpunpckhbw => Some(VexCode { prefix: P66, map: M0F, w: false, opcode: 0x68 }),
        AvxOpcode::Vpacksswb => Some(VexCode { prefix: P66, map: M0F, w: false, opcode: 0x63 }),
        AvxOpcode::Vpackssdw => Some(VexCode { prefix: P66, map: M0F, w: false, opcode: 0x6B }),
        AvxOpcode::Vpackuswb => Some(VexCode { prefix: P66, map: M0F, w: false, opcode: 0x67 }),
        AvxOpcode::Vpackusdw => Some(VexCode { prefix: P66, map: M0F38, w: false, opcode: 0x2B }),
        AvxOpcode::Vpmaddwd => Some(VexCode { prefix: P66, map: M0F, w: false, opcode: 0xF5 }),
        AvxOpcode::Vpmaddubsw => Some(VexCode { prefix: P66, map: M0F38, w: false, opcode: 0x04 }),
        AvxOpcode::Vpshufb => Some(VexCode { prefix: P66, map: M0F38, w: false, opcode: 0x00 }),
        AvxOpcode::Vpsllw => Some(VexCode { prefix: P66, map: M0F, w: false, opcode: 0xF1 }),
        AvxOpcode::Vpslld => Some(VexCode { prefix: P66, map: M0F, w: false, opcode: 0xF2 }),
        AvxOpcode::Vpsllq => Some(VexCode { prefix: P66, map: M0F, w: false, opcode: 0xF3 }),
        AvxOpcode::Vpsraw => Some(VexCode { prefix: P66, map: M0F, w: false, opcode: 0xE1 }),
        AvxOpcode::Vpsrad => Some(VexCode { prefix: P66, map: M0F, w: false, opcode: 0xE2 }),
        AvxOpcode::Vaddss => Some(VexCode { prefix: PF3, map: M0F, w: false, opcode: 0x58 }),
        AvxOpcode::Vaddsd => Some(VexCode { prefix: PF2, map: M0F, w: false, opcode: 0x58 }),
        AvxOpcode::Vmulss => Some(VexCode { prefix: PF3, map: M0F, w: false, opcode: 0x59 }),
        AvxOpcode::Vmulsd => Some(VexCode { prefix: PF2, map: M0F, w: false, opcode: 0x59 }),
        AvxOpcode::Vsubss => Some(VexCode { prefix: PF3, map: M0F, w: false, opcode: 0x5C }),
        AvxOpcode::Vsubsd => Some(VexCode { prefix: PF2, map: M0F, w: false, opcode: 0x5C }),
        AvxOpcode::Vdivss => Some(VexCode { prefix: PF3, map: M0F, w: false, opcode: 0x5E }),
        AvxOpcode::Vdivsd => Some(VexCode { prefix: PF2, map: M0F, w: false, opcode: 0x5E }),
        AvxOpcode::Vminss => Some(VexCode { prefix: PF3, map: M0F, w: false, opcode: 0x5D }),
        AvxOpcode::Vminsd => Some(VexCode { prefix: PF2, map: M0F, w: false, opcode: 0x5D }),
        AvxOpcode::Vmaxss => Some(VexCode { prefix: PF3, map: M0F, w: false, opcode: 0x5F }),
        AvxOpcode::Vmaxsd => Some(VexCode { prefix: PF2, map: M0F, w: false, opcode: 0x5F }),
        AvxOpcode::Vphaddw => Some(VexCode { prefix: P66, map: M0F38, w: false, opcode: 0x01 }),
        AvxOpcode::Vphaddd => Some(VexCode { prefix: P66, map: M0F38, w: false, opcode: 0x02 }),
        AvxOpcode::Vpunpckldq => Some(VexCode { prefix: P66, map: M0F, w: false, opcode: 0x62 }),
        AvxOpcode::Vpunpckhdq => Some(VexCode { prefix: P66, map: M0F, w: false, opcode: 0x6A }),
        AvxOpcode::Vpunpcklqdq => Some(VexCode { prefix: P66, map: M0F, w: false, opcode: 0x6C }),
        AvxOpcode::Vpunpckhqdq => Some(VexCode { prefix: P66, map: M0F, w: false, opcode: 0x6D }),
        AvxOpcode::Vmovsd => Some(VexCode { prefix: PF2, map: M0F, w: false, opcode: 0x10 }),
        AvxOpcode::Vmovss => Some(VexCode { prefix: PF3, map: M0F, w: false, opcode: 0x10 }),
        AvxOpcode::Vsqrtss => Some(VexCode { prefix: PF3, map: M0F, w: false, opcode: 0x51 }),
        AvxOpcode::Vsqrtsd => Some(VexCode { prefix: PF2, map: M0F, w: false, opcode: 0x51 }),
        AvxOpcode::Vunpcklpd => Some(VexCode { prefix: P66, map: M0F, w: false, opcode: 0x14 }),
        _ => None,
    }
}

/// The operations of two operands.
pub fn avx_rmi_r(op: AvxOpcode) -> (code: Option<VexCode>)
    ensures
        code == avx_rmi_r_code(op),
{
    match op {
        AvxOpcode::Vminps => Some(VexCode { prefix: NoPrefix, map: M0F, w: false, opcode: 0x5D }),
        AvxOpcode::Vminpd => Some(VexCode { prefix: P66, map: M0F, w: false, opcode: 0x5D }),
        AvxOpcode::Vmaxps => Some(VexCode { prefix: NoPrefix, map: M0F, w: false, opcode: 0x5F }),
        AvxOpcode::Vmaxpd => Some(VexCode { prefix: P66, map: M0F, w: false, opcode: 0x5F }),
        AvxOpcode::Vandnps => Some(VexCode { prefix: NoPrefix, map: M0F, w: false, opcode: 0x55 }),
        AvxOpcode::Vandnpd => Some(VexCode { prefix: P66, map: M0F, w: false, opcode: 0x55 }),
        AvxOpcode::Vpandn => Some(VexCode { prefix: P66, map: M0F, w: false, opcode: 0xDF }),
        AvxOpcode::Vpsrlw => Some(VexCode { prefix: P66, map: M0F, w: false, opcode: 0xD1 }),
        AvxOpcode::Vpsrld => Some(VexCode { prefix: P66, map: M0F, w: false, opcode: 0xD2 }),
        AvxOpcode::Vpsrlq => Some(VexCode { prefix: P66, map: M0F, w: false, opcode: 0xD3 }),
        AvxOpcode::Vpaddb => Some(VexCode { prefix: P66, map: M0F, w: false, opcode: 0xFC }),
        AvxOpcode::Vpaddw => Some(VexCode { prefix: P66, map: M0F, w: false, opcode: 0xFD }),
        AvxOpcode::Vpaddd => Some(VexCode { prefix: P66, map: M0F, w: false, opcode: 0xFE }),
        AvxOpcode::Vpaddq => Some(VexCode { prefix: P66, map: M0F, w: false, opcode: 0xD4 }),
        AvxOpcode::Vpaddsb => Some(VexCode { prefix: P66, map: M0F, w: false, opcode: 0xEC }),
        AvxOpcode::Vpaddsw => Some(VexCode { prefix: P66, map: M0F, w: false, opcode: 0xED }),
        AvxOpcode::Vpaddusb => Some(VexCode { prefix: P66, map: M0F, w: false, opcode: 0xDC }),
        AvxOpcode::Vpaddusw => Some(VexCode { prefix: P66, map: M0F, w: false, opcode: 0xDD }),
        AvxOpcode::Vpsubb => Some(VexCode { prefix: P66, map: M0F, w: false, opcode: 0xF8 }),
        AvxOpcode::Vpsubw => Some(VexCode { prefix: P66, map: M0F, w: false, opcode: 0xF9 }),
        AvxOpcode::Vpsubd => Some(VexCode { prefix: P66, map: M0F, w: false, opcode: 0xFA }),
        AvxOpcode::Vpsubq => Some(VexCode { prefix: P66, map: M0F, w: false, opcode: 0xFB }),
        AvxOpcode::Vpsubsb => Some(VexCode { prefix: P66, map: M0F, w: false, opcode: 0xE8 }),
        AvxOpcode::Vpsubsw => Some(VexCode { prefix: P66, map: M0F, w: false, opcode: 0xE9 }),
        AvxOpcode::Vpsubusb => Some(VexCode { prefix: P66, map: M0F, w: false, opcode: 0xD8 }),
        AvxOpcode::Vpsubusw => Some(VexCode { prefix: P66, map: M0F, w: false, opcode: 0xD9 }),
        AvxOpcode::Vpavgb => Some(VexCode { prefix: P66, map: M0F, w: false, opcode: 0xE0 }),
        AvxOpcode::Vpavgw => Some(VexCode { prefix: P66, map: M0F, w: false, opcode: 0xE3 }),
        AvxOpcode::Vpand => Some(VexCode { prefix: P66, map: M0F, w: false, opcode: 0xDB }),
        AvxOpcode::Vandps => Some(VexCode { prefix: NoPrefix, map: M0F, w: false, opcode: 0x54 }),
        AvxOpcode::Vandpd => Some(VexCode { prefix: P66, map: M0F, w: false, opcode: 0x54 }),
        AvxOpcode::Vpor => Some(VexCode { prefix: P66, map: M0F, w: false, opcode: 0xEB }),
        AvxOpcode::Vorps => Some(VexCode { prefix: NoPrefix, map: M0F, w: false, opcode: 0x56 }),
        AvxOpcode::Vorpd => Some(VexCode { prefix: P66, map: M0F, w: false, opcode: 0x56 }),
        AvxOpcode::Vpxor => Some(VexCode { prefix: P66, map: M0F, w: false, opcode: 0xEF }),
        AvxOpcode::Vxorps => Some(VexCode { prefix: NoPrefix, map: M0F, w: false, opcode: 0x57 }),
        AvxOpcode::Vxorpd => Some(VexCode { prefix: P66, map: M0F, w: false, opcode: 0x57 }),
        AvxOpcode::Vpmullw => Some(VexCode { prefix: P66, map: M0F, w: false, opcode: 0xD5 }),
        AvxOpcode::Vpmulld => Some(VexCode { prefix: P66, map: M0F38, w: false, opcode: 0x40 }),
        AvxOpcode::Vpmulhw => Some(VexCode { prefix: P66, map: M0F, w: false, opcode: 0xE5 }),
        AvxOpcode::Vpmulhrsw => Some(VexCode { prefix: P66, map: M0F38, w: false, opcode: 0x0B }),
        AvxOpcode::Vpmulhuw => Some(VexCode { prefix: P66, map: M0F, w: false, opcode: 0xE4 }),
        AvxOpcode::Vpmuldq => Some(VexCode { prefix: P66, map: M0F38, w: false, opcode: 0x28 }),
        AvxOpcode::Vpmuludq => Some(VexCode { prefix: P66, map: M0F, w: false, opcode: 0xF4 }),
        AvxOpcode::Vpunpckhwd => Some(VexCode { prefix: P66, map: M0F, w: false, opcode: 0x69 }),
        AvxOpcode::Vpunpcklwd => Some(VexCode { prefix: P66, map: M0F, w: false, opcode: 0x61 }),
        AvxOpcode::Vunpcklps => Some(VexCode { prefix: NoPrefix, map: M0F, w: false, opcode: 0x14 }),
        AvxOpcode::Vunpckhps => Some(VexCode { prefix: NoPrefix, map: M0F, w: false, opcode: 0x15 }),
        AvxOpcode::Vaddps => Some(VexCode { prefix: NoPrefix, map: M0F, w: false, opcode: 0x58 }),
        AvxOpcode::Vaddpd => Some(VexCode { prefix: P66, map: M0F, w: false, opcode: 0x58 }),
        AvxOpcode::Vsubps => Some(VexCode { prefix: NoPrefix, map: M0F, w: false, opcode: 0x5C }),
        AvxOpcode::Vsubpd => Some(VexCode { prefix: P66, map: M0F, w: false, opcode: 0x5C }),
        AvxOpcode::Vmulps => Some(VexCode { prefix: NoPrefix, map: M0F, w: false, opcode: 0x59 }),
        AvxOpcode::Vmulpd => Some(VexCode { prefix: P66, map: M0F, w: false, opcode: 0x59 }),
        AvxOpcode::Vdivps => Some(VexCode { prefix: NoPrefix, map: M0F, w: false, opcode: 0x5E }),
        AvxOpcode::Vdivpd => Some(VexCode { prefix: P66, map: M0F, w: false, opcode: 0x5E }),
        AvxOpcode::Vpcmpeqb => Some(VexCode { prefix: P66, map: M0F, w: false, opcode: 0x74 }),
        AvxOpcode::Vpcmpeqw => Some(VexCode { prefix: P66, map: M0F, w: false, opcode: 0x75 }),
        AvxOpcode::Vpcmpeqd => Some(VexCode { prefix: P66, map: M0F, w: false, opcode: 0x76 }),
        AvxOpcode::Vpcmpeqq => Some(VexCode { prefix: P66, map: M0F38, w: false, opcode: 0x29 }),
        AvxOpcode::Vpcmpgtb => Some(VexCode { prefix: P66, map: M0F, w: false, opcode: 0x64 }),
        AvxOpcode::Vpcmpgtw => Some(VexCode { prefix: P66, map: M0F, w: false, opcode: 0x65 }),
        AvxOpcode::Vpcmpgtd => Some(VexCode { prefix: P66, map: M0F, w: false, opcode: 0x66 }),
        AvxOpcode::Vpcmpgtq => Some(VexCode { prefix: P66, map: M0F38, w: false, opcode: 0x37 }),
        AvxOpcode::Vmovlhps => Some(VexCode { prefix: NoPrefix, map: M0F, w: false, opcode: 0x16 }),
        AvxOpcode::Vpminsb => Some(VexCode { prefix: P66, map: M0F38, w: false, opcode: 0x38 }),
        AvxOpcode::Vpminsw => Some(VexCode { prefix: P66, map: M0F, w: false, opcode: 0xEA }),
        AvxOpcode::Vpminsd => Some(VexCode { prefix: P66, map: M0F38, w: false, opcode: 0x39 }),
        AvxOpcode::Vpmaxsb => Some(VexCode { prefix: P66, map: M0F38, w: false, opcode: 0x3C }),
        AvxOpcode::Vpmaxsw => Some(VexCode { prefix: P66, map: M0F, w: false, opcode: 0xEE }),
        AvxOpcode::Vpmaxsd => Some(VexCode { prefix: P66, map: M0F38, w: false, opcode: 0x3D }),
        AvxOpcode::Vpminub => Some(VexCode { prefix: P66, map: M0F, w: false, opcode: 0xDA }),
        AvxOpcode::Vpminuw => Some(VexCode { prefix: P66, map: M0F38, w: false, opcode: 0x3A }),
        AvxOpcode::Vpminud => Some(VexCode { prefix: P66, map: M0F38, w: false, opcode: 0x3B }),
        AvxOpcode::Vpmaxub => Some(VexCode { prefix: P66, map: M0F, w: false, opcode: 0xDE }),
        AvxOpcode::Vpmaxuw => Some(VexCode { prefix: P66, map: M0F38, w: false, opcode: 0x3E }),
        AvxOpcode::Vpmaxud => Some(VexCode { prefix: P66, map: M0F38, w: false, opcode: 0x3F }),
        AvxOpcode::Vpunpcklbw => Some(VexCode { prefix: P66, map: M0F, w: false, opcode: 0x60 }),
        AvxOpcode::Vpunpckhbw => Some(VexCode { prefix: P66, map: M0F, w: false, opcode: 0x68 }),
        AvxOpcode::Vpacksswb => Some(VexCode { prefix: P66, map: M0F, w: false, opcode: 0x63 }),
        AvxOpcode::Vpackssdw => Some(VexCode { prefix: P66, map: M0F, w: false, opcode: 0x6B }),
        AvxOpcode::Vpackuswb => Some(VexCode { prefix: P66, map: M0F, w: false, opcode: 0x67 }),
        AvxOpcode::Vpackusdw => Some(VexCode { prefix: P66, map: M0F38, w: false, opcode: 0x2B }),
        AvxOpcode::Vpmaddwd => Some(VexCode { prefix: P66, map: M0F, w: false, opcode: 0xF5 }),
        AvxOpcode::Vpmaddubsw => Some(VexCode { prefix: P66, map: M0F38, w: false, opcode: 0x04 }),
        AvxOpcode::Vpshufb => Some(VexCode { prefix: P66, map: M0F38, w: false, opcode: 0x00 }),
        AvxOpcode::Vpsllw => Some(VexCode { prefix: P66, map: M0F, w: false, opcode: 0xF1 }),
        AvxOpcode::Vpslld => Some(VexCode { prefix: P66, map: M0F, w: false, opcode: 0xF2 }),
        AvxOpcode::Vpsllq => Some(VexCode { prefix: P66, map: M0F, w: false, opcode: 0xF3 }),
        AvxOpcode::Vpsraw => Some(VexCode { prefix: P66, map: M0F, w: false, opcode: 0xE1 }),
        AvxOpcode::Vpsrad => Some(VexCode { prefix: P66, map: M0F, w: false, opcode: 0xE2 }),
        AvxOpcode::Vaddss => Some(VexCode { prefix: PF3, map: M0F, w: false, opcode: 0x58 }),
        AvxOpcode::Vaddsd => Some(VexCode { prefix: PF2, map: M0F, w: false, opcode: 0x58 }),
        AvxOpcode::Vmulss => Some(VexCode { prefix: PF3, map: M0F, w: false, opcode: 0x59 }),
        AvxOpcode::Vmulsd => Some(VexCode { prefix: PF2, map: M0F, w: false, opcode: 0x59 }),
        AvxOpcode::Vsubss => Some(VexCode { prefix: PF3, map: M0F, w: false, opcode: 0x5C }),
        AvxOpcode::Vsubsd => Some(VexCode { prefix: PF2, map: M0F, w: false, opcode: 0x5C }),
        AvxOpcode::Vdivss => Some(VexCode { prefix: PF3, map: M0F, w: false, opcode: 0x5E }),
        AvxOpcode::Vdivsd => Some(VexCode { prefix: PF2, map: M0F, w: false, opcode: 0x5E }),
        AvxOpcode::Vminss => Some(VexCode { prefix: PF3, map: M0F, w: false, opcode: 0x5D }),
        AvxOpcode::Vminsd => Some(VexCode { prefix: PF2, map: M0F, w: false, opcode: 0x5D }),
        AvxOpcode::Vmaxss => Some(VexCode { prefix: PF3, map: M0F, w: false, opcode: 0x5F }),
        AvxOpcode::Vmaxsd => Some(VexCode { prefix: PF2, map: M0F, w: false, opcode: 0x5F }),
        AvxOpcode::Vphaddw => Some(VexCode { prefix: P66, map: M0F38, w: false, opcode: 0x01 }),
        AvxOpcode::Vphaddd => Some(VexCode { prefix: P66, map: M0F38, w: false, opcode: 0x02 }),
        AvxOpcode::Vpunpckldq => Some(VexCode { prefix: P66, map: M0F, w: false, opcode: 0x62 }),
        AvxOpcode::Vpunpckhdq => Some(VexCode { prefix: P66, map: M0F, w: false, opcode: 0x6A }),
        AvxOpcode::Vpunpcklqdq => Some(VexCode { prefix: P66, map: M0F, w: false, opcode: 0x6C }),
        AvxOpcode::Vpunpckhqdq => Some(VexCode { prefix: P66, map: M0F, w: false, opcode: 0x6D }),
        AvxOpcode::Vmovsd => Some(VexCode { prefix: PF2, map: M0F, w: false, opcode: 0x10 }),
        AvxOpcode::Vmovss => Some(VexCode { prefix: PF3, map: M0F, w: false, opcode: 0x10 }),
        AvxOpcode::Vsqrtss => Some(VexCode { prefix: PF3, map: M0F, w: false, opcode: 0x51 }),
        AvxOpcode::Vsqrtsd => Some(VexCode { prefix: PF2, map: M0F, w: false, opcode: 0x51 }),
        AvxOpcode::Vunpcklpd => Some(VexCode { prefix: P66, map: M0F, w: false, opcode: 0x14 }),
        _ => None,
    }
}

/// The operations of two operands and an immediate.
pub open spec fn avx_rm_r_imm_code(op: AvxOpcode) -> Option<VexCode> {
    match op {
        AvxOpcode::Vcmpps => Some(VexCode { prefix: NoPrefix, map: M0F, w: false, opcode: 0xC2 }),
        AvxOpcode::Vcmppd => Some(VexCode { prefix: P66, map: M0F, w: false, opcode: 0xC2 }),
        AvxOpcode::Vpalignr => Some(VexCode { prefix: P66, map: M0F3A, w: false, opcode: 0x0F }),
        AvxOpcode::Vinsertps => Some(VexCode { prefix: P66, map: M0F3A, w: false, opcode: 0x21 }),
        AvxOpcode::Vshufps => Some(VexCode { prefix: NoPrefix, map: M0F, w: false, opcode: 0xC6 }),
        AvxOpcode::Vpblendw => Some(VexCode { prefix: P66, map: M0F3A, w: false, opcode: 0x0E }),
        _ => None,
    }
}

/// The operations of two operands and an immediate.
pub fn avx_rm_r_imm(op: AvxOpcode) -> (code: Option<VexCode>)
    ensures
        code == avx_rm_r_imm_code(op),
{
    match op {
        AvxOpcode::Vcmpps => Some(VexCode { prefix: NoPrefix, map: M0F, w: false, opcode: 0xC2 }),
        AvxOpcode::Vcmppd => Some(VexCode { prefix: P66, map: M0F, w: false, opcode: 0xC2 }),
        AvxOpcode::Vpalignr => Some(VexCode { prefix: P66, map: M0F3A, w: false, opcode: 0x0F }),
        AvxOpcode::Vinsertps => Some(VexCode { prefix: P66, map: M0F3A, w: false, opcode: 0x21 }),
        AvxOpcode::Vshufps => Some(VexCode { prefix: NoPrefix, map: M0F, w: false, opcode: 0xC6 }),
        AvxOpcode::Vpblendw => Some(VexCode { prefix: P66, map: M0F3A, w: false, opcode: 0x0E }),
        _ => None,
    }
}

/// The operations that multiply and add.
pub open spec fn avx_fused_code(op: AvxOpcode) -> Option<VexCode> {
    match op {
        AvxOpcode::Vfmadd132ss => Some(VexCode { prefix: P66, map: M0F38, w: false, opcode: 0x99 }),
        AvxOpcode::Vfmadd213ss => Some(VexCode { prefix: P66, map: M0F38, w: false, opcode: 0xA9 }),
        AvxOpcode::Vfnmadd132ss => Some(VexCode { prefix: P66, map: M0F38, w: false, opcode: 0x9D }),
        AvxOpcode::Vfnmadd213ss => Some(VexCode { prefix: P66, map: M0F38, w: false, opcode: 0xAD }),
        AvxOpcode::Vfmadd132sd => Some(VexCode { prefix: P66, map: M0F38, w: true, opcode: 0x99 }),
        AvxOpcode::Vfmadd213sd => Some(VexCode { prefix: P66, map: M0F38, w: true, opcode: 0xA9 }),
        AvxOpcode::Vfnmadd132sd => Some(VexCode { prefix: P66, map: M0F38, w: true, opcode: 0x9D }),
        AvxOpcode::Vfnmadd213sd => Some(VexCode { prefix: P66, map: M0F38, w: true, opcode: 0xAD }),
        AvxOpcode::Vfmadd132ps => Some(VexCode { prefix: P66, map: M0F38, w: false, opcode: 0x98 }),
        AvxOpcode::Vfmadd213ps => Some(VexCode { prefix: P66, map: M0F38, w: false, opcode: 0xA8 }),
        AvxOpcode::Vfnmadd132ps => Some(VexCode { prefix: P66, map: M0F38, w: false, opcode: 0x9C }),
        AvxOpcode::Vfnmadd213ps => Some(VexCode { prefix: P66, map: M0F38, w: false, opcode: 0xAC }),
        AvxOpcode::Vfmadd132pd => Some(VexCode { prefix: P66, map: M0F38, w: true, opcode: 0x98 }),
        AvxOpcode::Vfmadd213pd => Some(VexCode { prefix: P66, map: M0F38, w: true, opcode: 0xA8 }),
        AvxOpcode::Vfnmadd132pd => Some(VexCode { prefix: P66, map: M0F38, w: true, opcode: 0x9C }),
        AvxOpcode::Vfnmadd213pd => Some(VexCode { prefix: P66, map: M0F38, w: true, opcode: 0xAC }),
        AvxOpcode::Vfmsub132ss => Some(VexCode { prefix: P66, map: M0F38, w: false, opcode: 0x9B }),
        AvxOpcode::Vfmsub213ss => Some(VexCode { prefix: P66, map: M0F38, w: false, opcode: 0xAB }),
        AvxOpcode::Vfnmsub132ss => Some(VexCode { prefix: P66, map: M0F38, w: false, opcode: 0x9F }),
        AvxOpcode::Vfnmsub213ss => Some(VexCode { prefix: P66, map: M0F38, w: false, opcode: 0xAF }),
        AvxOpcode::Vfmsub132sd => Some(VexCode { prefix: P66, map: M0F38, w: true, opcode: 0x9B }),
        AvxOpcode::Vfmsub213sd => Some(VexCode { prefix: P66, map: M0F38, w: true, opcode: 0xAB }),
        AvxOpcode::Vfnmsub132sd => Some(VexCode { prefix: P66, map: M0F38, w: true, opcode: 0x9F }),
        AvxOpcode::Vfnmsub213sd => Some(VexCode { prefix: P66, map: M0F38, w: true, opcode: 0xAF }),
        AvxOpcode::Vfmsub132ps => Some(VexCode { prefix: P66, map: M0F38, w: false, opcode: 0x9A }),
        AvxOpcode::Vfmsub213ps => Some(VexCode { prefix: P66, map: M0F38, w: false, opcode: 0xAA }),
        AvxOpcode::Vfnmsub132ps => Some(VexCode { prefix: P66, map: M0F38, w: false, opcode: 0x9E }),
        AvxOpcode::Vfnmsub213ps => Some(VexCode { prefix: P66, map: M0F38, w: false, opcode: 0xAE }),
        AvxOpcode::Vfmsub132pd => Some(VexCode { prefix: P66, map: M0F38, w: true, opcode: 0x9A }),
        AvxOpcode::Vfmsub213pd => Some(VexCode { prefix: P66, map: M0F38, w: true, opcode: 0xAA }),
        AvxOpcode::Vfnmsub132pd => Some(VexCode { prefix: P66, map: M0F38, w: true, opcode: 0x9E }),
        AvxOpcode::Vfnmsub213pd => Some(VexCode { prefix: P66, map: M0F38, w: true, opcode: 0xAE }),
        _ => None,
    }
}

/// The operations that multiply and add.
pub fn avx_fused(op: AvxOpcode) -> (code: Option<VexCode>)
    ensures
        code == avx_fused_code(op),
{
    match op {
        AvxOpcode::Vfmadd132ss => Some(VexCode { prefix: P66, map: M0F38, w: false, opcode: 0x99 }),
        AvxOpcode::Vfmadd213ss => Some(VexCode { prefix: P66, map: M0F38, w: false, opcode: 0xA9 }),
        AvxOpcode::Vfnmadd132ss => Some(VexCode { prefix: P66, map: M0F38, w: false, opcode: 0x9D }),
        AvxOpcode::Vfnmadd213ss => Some(VexCode { prefix: P66, map: M0F38, w: false, opcode: 0xAD }),
        AvxOpcode::Vfmadd132sd => Some(VexCode { prefix: P66, map: M0F38, w: true, opcode: 0x99 }),
        AvxOpcode::Vfmadd213sd => Some(VexCode { prefix: P66, map: M0F38, w: true, opcode: 0xA9 }),
        AvxOpcode::Vfnmadd132sd => Some(VexCode { prefix: P66, map: M0F38, w: true, opcode: 0x9D }),
        AvxOpcode::Vfnmadd213sd => Some(VexCode { prefix: P66, map: M0F38, w: true, opcode: 0xAD }),
        AvxOpcode::Vfmadd132ps => Some(VexCode { prefix: P66, map: M0F38, w: false, opcode: 0x98 }),
        AvxOpcode::Vfmadd213ps => Some(VexCode { prefix: P66, map: M0F38, w: false, opcode: 0xA8 }),
        AvxOpcode::Vfnmadd132ps => Some(VexCode { prefix: P66, map: M0F38, w: false, opcode: 0x9C }),
        AvxOpcode::Vfnmadd213ps => Some(VexCode { prefix: P66, map: M0F38, w: false, opcode: 0xAC }),
        AvxOpcode::Vfmadd132pd => Some(VexCode { prefix: P66, map: M0F38, w: true, opcode: 0x98 }),
        AvxOpcode::Vfmadd213pd => Some(VexCode { prefix: P66, map: M0F38, w: true, opcode: 0xA8 }),
        AvxOpcode::Vfnmadd132pd => Some(VexCode { prefix: P66, map: M0F38, w: true, opcode: 0x9C }),
        AvxOpcode::Vfnmadd213pd => Some(VexCode { prefix: P66, map: M0F38, w: true, opcode: 0xAC }),
        AvxOpcode::Vfmsub132ss => Some(VexCode { prefix: P66, map: M0F38, w: false, opcode: 0x9B }),
        AvxOpcode::Vfmsub213ss => Some(VexCode { prefix: P66, map: M0F38, w: false, opcode: 0xAB }),
        AvxOpcode::Vfnmsub132ss => Some(VexCode { prefix: P66, map: M0F38, w: false, opcode: 0x9F }),
        AvxOpcode::Vfnmsub213ss => Some(VexCode { prefix: P66, map: M0F38, w: false, opcode: 0xAF }),
        AvxOpcode::Vfmsub132sd => Some(VexCode { prefix: P66, map: M0F38, w: true, opcode: 0x9B }),
        AvxOpcode::Vfmsub213sd => Some(VexCode { prefix: P66, map: M0F38, w: true, opcode: 0xAB }),
        AvxOpcode::Vfnmsub132sd => Some(VexCode { prefix: P66, map: M0F38, w: true, opcode: 0x9F }),
        AvxOpcode::Vfnmsub213sd => Some(VexCode { prefix: P66, map: M0F38, w: true, opcode: 0xAF }),
        AvxOpcode::Vfmsub132ps => Some(VexCode { prefix: P66, map: M0F38, w: false, opcode: 0x9A }),
        AvxOpcode::Vfmsub213ps => Some(VexCode { prefix: P66, map: M0F38, w: false, opcode: 0xAA }),
        AvxOpcode::Vfnmsub132ps => Some(VexCode { prefix: P66, map: M0F38, w: false, opcode: 0x9E }),
        AvxOpcode::Vfnmsub213ps => Some(VexCode { prefix: P66, map: M0F38, w: false, opcode: 0xAE }),
        AvxOpcode::Vfmsub132pd => Some(VexCode { prefix: P66, map: M0F38, w: true, opcode: 0x9A }),
        AvxOpcode::Vfmsub213pd => Some(VexCode { prefix: P66, map: M0F38, w: true, opcode: 0xAA }),
        AvxOpcode::Vfnmsub132pd => Some(VexCode { prefix: P66, map: M0F38, w: true, opcode: 0x9E }),
        AvxOpcode::Vfnmsub213pd => Some(VexCode { prefix: P66, map: M0F38, w: true, opcode: 0xAE }),
        _ => None,
    }
}

/// The operations of one operand. The moves of a scalar take it from memory only.
pub open spec fn avx_unary_code(op: AvxOpcode, in_memory: bool) -> Option<VexCode> {
    match op {
        AvxOpcode::Vpmovsxbw => Some(VexCode { prefix: P66, map: M0F38, w: false, opcode: 0x20 }),
        AvxOpcode::Vpmovzxbw => Some(VexCode { prefix: P66, map: M0F38, w: false, opcode: 0x30 }),
        AvxOpcode::Vpmovsxwd => Some(VexCode { prefix: P66, map: M0F38, w: false, opcode: 0x23 }),
        AvxOpcode::Vpmovzxwd => Some(VexCode { prefix: P66, map: M0F38, w: false, opcode: 0x33 }),
        AvxOpcode::Vpmovsxdq => Some(VexCode { prefix: P66, map: M0F38, w: false, opcode: 0x25 }),
        AvxOpcode::Vpmovzxdq => Some(VexCode { prefix: P66, map: M0F38, w: false, opcode: 0x35 }),
        AvxOpcode::Vpabsb => Some(VexCode { prefix: P66, map: M0F38, w: false, opcode: 0x1C }),
        AvxOpcode::Vpabsw => Some(VexCode { prefix: P66, map: M0F38, w: false, opcode: 0x1D }),
        AvxOpcode::Vpabsd => Some(VexCode { prefix: P66, map: M0F38, w: false, opcode: 0x1E }),
        AvxOpcode::Vsqrtps => Some(VexCode { prefix: NoPrefix, map: M0F, w: false, opcode: 0x51 }),
        AvxOpcode::Vsqrtpd => Some(VexCode { prefix: P66, map: M0F, w: false, opcode: 0x51 }),
        AvxOpcode::Vmovdqu => Some(VexCode { prefix: PF3, map: M0F, w: false, opcode: 0x6F }),
        AvxOpcode::Vmovups => Some(VexCode { prefix: NoPrefix, map: M0F, w: false, opcode: 0x10 }),
        AvxOpcode::Vmovupd => Some(VexCode { prefix: P66, map: M0F, w: false, opcode: 0x10 }),
        AvxOpcode::Vpbroadcastb => Some(VexCode { prefix: P66, map: M0F38, w: false, opcode: 0x78 }),
        AvxOpcode::Vpbroadcastw => Some(VexCode { prefix: P66, map: M0F38, w: false, opcode: 0x79 }),
        AvxOpcode::Vpbroadcastd => Some(VexCode { prefix: P66, map: M0F38, w: false, opcode: 0x58 }),
        AvxOpcode::Vbroadcastss => Some(VexCode { prefix: P66, map: M0F38, w: false, opcode: 0x18 }),
        AvxOpcode::Vmovss => if in_memory {
            Some(VexCode { prefix: PF3, map: M0F, w: false, opcode: 0x10 })
        } else {
            None
        },
        AvxOpcode::Vmovsd => if in_memory {
            Some(VexCode { prefix: PF2, map: M0F, w: false, opcode: 0x10 })
        } else {
            None
        },
        _ => None,
    }
}

/// The operations of one operand. The moves of a scalar take it from memory only.
pub fn avx_unary(op: AvxOpcode, in_memory: bool) -> (code: Option<VexCode>)
    ensures
        code == avx_unary_code(op, in_memory),
{
    match op {
        AvxOpcode::Vpmovsxbw => Some(VexCode { prefix: P66, map: M0F38, w: false, opcode: 0x20 }),
        AvxOpcode::Vpmovzxbw => Some(VexCode { prefix: P66, map: M0F38, w: false, opcode: 0x30 }),
        AvxOpcode::Vpmovsxwd => Some(VexCode { prefix: P66, map: M0F38, w: false, opcode: 0x23 }),
        AvxOpcode::Vpmovzxwd => Some(VexCode { prefix: P66, map: M0F38, w: false, opcode: 0x33 }),
        AvxOpcode::Vpmovsxdq => Some(VexCode { prefix: P66, map: M0F38, w: false, opcode: 0x25 }),
        AvxOpcode::Vpmovzxdq => Some(VexCode { prefix: P66, map: M0F38, w: false, opcode: 0x35 }),
        AvxOpcode::Vpabsb => Some(VexCode { prefix: P66, map: M0F38, w: false, opcode: 0x1C }),
        AvxOpcode::Vpabsw => Some(VexCode { prefix: P66, map: M0F38, w: false, opcode: 0x1D }),
        AvxOpcode::Vpabsd => Some(VexCode { prefix: P66, map: M0F38, w: false, opcode: 0x1E }),
        AvxOpcode::Vsqrtps => Some(VexCode { prefix: NoPrefix, map: M0F, w: false, opcode: 0x51 }),
        AvxOpcode::Vsqrtpd => Some(VexCode { prefix: P66, map: M0F, w: false, opcode: 0x51 }),
        AvxOpcode::Vmovdqu => Some(VexCode { prefix: PF3, map: M0F, w: false, opcode: 0x6F }),
        AvxOpcode::Vmovups => Some(VexCode { prefix: NoPrefix, map: M0F, w: false, opcode: 0x10 }),
        AvxOpcode::Vmovupd => Some(VexCode { prefix: P66, map: M0F, w: false, opcode: 0x10 }),
        AvxOpcode::Vpbroadcastb => Some(VexCode { prefix: P66, map: M0F38, w: false, opcode: 0x78 }),
        AvxOpcode::Vpbroadcastw => Some(VexCode { prefix: P66, map: M0F38, w: false, opcode: 0x79 }),
        AvxOpcode::Vpbroadcastd => Some(VexCode { prefix: P66, map: M0F38, w: false, opcode: 0x58 }),
        AvxOpcode::Vbroadcastss => Some(VexCode { prefix: P66, map: M0F38, w: false, opcode: 0x18 }),
        AvxOpcode::Vmovss => if in_memory {
            Some(VexCode { prefix: PF3, map: M0F, w: false, opcode: 0x10 })
        } else {
            None
        },
        AvxOpcode::Vmovsd => if in_memory {
            Some(VexCode { prefix: PF2, map: M0F, w: false, opcode: 0x10 })
        } else {
            None
        },
        _ => None,
    }
}

/// The moves to memory.
pub open spec fn avx_store_code(op: AvxOpcode) -> Option<VexCode> {
    match op {
        AvxOpcode::Vmovdqu => Some(VexCode { prefix: PF3, map: M0F, w: false, opcode: 0x7F }),
        AvxOpcode::Vmovss => Some(VexCode { prefix: PF3, map: M0F, w: false, opcode: 0x11 }),
        AvxOpcode::Vmovsd => Some(VexCode { prefix: PF2, map: M0F, w: false, opcode: 0x11 }),
        AvxOpcode::Vmovups => Some(VexCode { prefix: NoPrefix, map: M0F, w: false, opcode: 0x11 }),
        AvxOpcode::Vmovupd => Some(VexCode { prefix: P66, map: M0F, w: false, opcode: 0x11 }),
        _ => None,
    }
}

/// The moves to memory.
pub fn avx_store(op: AvxOpcode) -> (code: Option<VexCode>)
    ensures
        code == avx_store_code(op),
{
    match op {
        AvxOpcode::Vmovdqu => Some(VexCode { prefix: PF3, map: M0F, w: false, opcode: 0x7F }),
        AvxOpcode::Vmovss => Some(VexCode { prefix: PF3, map: M0F, w: false, opcode: 0x11 }),
        AvxOpcode::Vmovsd => Some(VexCode { prefix: PF2, map: M0F, w: false, opcode: 0x11 }),
        AvxOpcode::Vmovups => Some(VexCode { prefix: NoPrefix, map: M0F, w: false, opcode: 0x11 }),
        AvxOpcode::Vmovupd => Some(VexCode { prefix: P66, map: M0F, w: false, opcode: 0x11 }),
        _ => None,
    }
}

/// The extractions of a lane.
pub open spec fn avx_extract_code(op: AvxOpcode) -> Option<VexCode> {
    match op {
        AvxOpcode::Vpextrb => Some(VexCode { prefix: P66, map: M0F3A, w: false, opcode: 0x14 }),
        AvxOpcode::Vpextrw => Some(VexCode { prefix: P66, map: M0F3A, w: false, opcode: 0x15 }),
        AvxOpcode::Vpextrd => Some(VexCode { prefix: P66, map: M0F3A, w: false, opcode: 0x16 }),
        AvxOpcode::Vpextrq => Some(VexCode { prefix: P66, map: M0F3A, w: true, opcode: 0x16 }),
        _ => None,
    }
}

/// The extractions of a lane.
pub fn avx_extract(op: AvxOpcode) -> (code: Option<VexCode>)
    ensures
        code == avx_extract_code(op),
{
    match op {
        AvxOpcode::Vpextrb => Some(VexCode { prefix: P66, map: M0F3A, w: false, opcode: 0x14 }),
        AvxOpcode::Vpextrw => Some(VexCode { prefix: P66, map: M0F3A, w: false, opcode: 0x15 }),
        AvxOpcode::Vpextrd => Some(VexCode { prefix: P66, map: M0F3A, w: false, opcode: 0x16 }),
        AvxOpcode::Vpextrq => Some(VexCode { prefix: P66, map: M0F3A, w: true, opcode: 0x16 }),
        _ => None,
    }
}

/// The comparisons, which set the flags.
pub open spec fn avx_compare_code(op: AvxOpcode) -> Option<VexCode> {
    match op {
        AvxOpcode::Vucomiss => Some(VexCode { prefix: NoPrefix, map: M0F, w: false, opcode: 0x2E }),
        AvxOpcode::Vucomisd => Some(VexCode { prefix: P66, map: M0F, w: false, opcode: 0x2E }),
        AvxOpcode::Vptest => Some(VexCode { prefix: P66, map: M0F38, w: false, opcode: 0x17 }),
        _ => None,
    }
}

/// The comparisons, which set the flags.
pub fn avx_compare(op: AvxOpcode) -> (code: Option<VexCode>)
    ensures
        code == avx_compare_code(op),
{
    match op {
        AvxOpcode::Vucomiss => Some(VexCode { prefix: NoPrefix, map: M0F, w: false, opcode: 0x2E }),
        AvxOpcode::Vucomisd => Some(VexCode { prefix: P66, map: M0F, w: false, opcode: 0x2E }),
        AvxOpcode::Vptest => Some(VexCode { prefix: P66, map: M0F38, w: false, opcode: 0x17 }),
        _ => None,
    }
}

/// The operations of one operand.
pub open spec fn evex_unary_code(op: Avx512Opcode) -> Option<VexCode> {
    match op {
        Avx512Opcode::Vcvtudq2ps => Some(VexCode { prefix: PF2, map: M0F, w: false, opcode: 0x7a }),
        Avx512Opcode::Vpabsq => Some(VexCode { prefix: P66, map: M0F38, w: true, opcode: 0x1f }),
        Avx512Opcode::Vpopcntb => Some(VexCode { prefix: P66, map: M0F38, w: false, opcode: 0x54 }),
        _ => None,
    }
}

/// The operations of one operand.
pub fn evex_unary(op: Avx512Opcode) -> (code: Option<VexCode>)
    ensures
        code == evex_unary_code(op),
{
    match op {
        Avx512Opcode::Vcvtudq2ps => Some(VexCode { prefix: PF2, map: M0F, w: false, opcode: 0x7a }),
        Avx512Opcode::Vpabsq => Some(VexCode { prefix: P66, map: M0F38, w: true, opcode: 0x1f }),
        Avx512Opcode::Vpopcntb => Some(VexCode { prefix: P66, map: M0F38, w: false, opcode: 0x54 }),
        _ => None,
    }
}

/// The operations of one operand and an immediate.
pub open spec fn evex_imm_code(op: Avx512Opcode) -> Option<ExtendedCode> {
    match op {
        Avx512Opcode::VpsraqImm => Some(ExtendedCode { opcode: 0x72, opcode_ext: 4, w: true }),
        _ => None,
    }
}

/// The operations of one operand and an immediate.
pub fn evex_imm(op: Avx512Opcode) -> (code: Option<ExtendedCode>)
    ensures
        code == evex_imm_code(op),
{
    match op {
        Avx512Opcode::VpsraqImm => Some(ExtendedCode { opcode: 0x72, opcode_ext: 4, w: true }),
        _ => None,
    }
}

/// The operations of two operands.
pub open spec fn evex_rm_r_code(op: Avx512Opcode) -> Option<VexCode> {
    match op {
        Avx512Opcode::Vpermi2b => Some(VexCode { prefix: P66, map: M0F38, w: false, opcode: 0x75 }),
        Avx512Opcode::Vpmullq => Some(VexCode { prefix: P66, map: M0F38, w: true, opcode: 0x40 }),
        Avx512Opcode::Vpsraq => Some(VexCode { prefix: P66, map: M0F, w: true, opcode: 0xE2 }),
        _ => None,
    }
}

/// The operations of two operands.
pub fn evex_rm_r(op: Avx512Opcode) -> (code: Option<VexCode>)
    ensures
        code == evex_rm_r_code(op),
{
    match op {
        Avx512Opcode::Vpermi2b => Some(VexCode { prefix: P66, map: M0F38, w: false, opcode: 0x75 }),
        Avx512Opcode::Vpmullq => Some(VexCode { prefix: P66, map: M0F38, w: true, opcode: 0x40 }),
        Avx512Opcode::Vpsraq => Some(VexCode { prefix: P66, map: M0F, w: true, opcode: 0xE2 }),
        _ => None,
    }
}

} // verus!
