//! The operands of instructions: registers, addresses, sizes and conditions.

use vstd::prelude::*;

verus! {

/// A general purpose register, by its hardware encoding.
#[derive(Debug, Clone, Copy, PartialEq, Eq, Structural)]
pub struct Gpr {
    pub enc: u8,
}

/// A vector register, by its hardware encoding.
#[derive(Debug, Clone, Copy, PartialEq, Eq, Structural)]
pub struct Xmm {
    pub enc: u8,
}

/// A register of either class.
#[derive(Debug, Clone, Copy, PartialEq, Eq, Structural)]
pub enum Reg {
    Gpr(Gpr),
    Xmm(Xmm),
}

impl Reg {
    /// The hardware encoding.
    pub open spec fn enc(self) -> u8 {
        match self {
            Reg::Gpr(r) => r.enc,
            Reg::Xmm(r) => r.enc,
        }
    }

    /// The hardware encoding.
    pub fn hw_enc(self) -> (enc: u8)
        ensures
            enc == self.enc(),
    {
        match self {
            Reg::Gpr(r) => r.enc,
            Reg::Xmm(r) => r.enc,
        }
    }
}

/// The register `rax`.
#[verifier::allow_in_spec]
pub fn rax() -> Gpr
    returns
        (Gpr { enc: 0 }),
{
    Gpr { enc: 0 }
}

/// The register `rcx`.
#[verifier::allow_in_spec]
pub fn rcx() -> Gpr
    returns
        (Gpr { enc: 1 }),
{
    Gpr { enc: 1 }
}

/// The register `rdx`.
#[verifier::allow_in_spec]
pub fn rdx() -> Gpr
    returns
        (Gpr { enc: 2 }),
{
    Gpr { enc: 2 }
}

/// The register `rbx`.
#[verifier::allow_in_spec]
pub fn rbx() -> Gpr
    returns
        (Gpr { enc: 3 }),
{
    Gpr { enc: 3 }
}

/// The register `rsp`.
#[verifier::allow_in_spec]
pub fn rsp() -> Gpr
    returns
        (Gpr { enc: 4 }),
{
    Gpr { enc: 4 }
}

/// The register `rbp`.
#[verifier::allow_in_spec]
pub fn rbp() -> Gpr
    returns
        (Gpr { enc: 5 }),
{
    Gpr { enc: 5 }
}

/// The register `r15`, which embedders may pin.
#[verifier::allow_in_spec]
pub fn pinned_reg() -> Gpr
    returns
        (Gpr { enc: 15 }),
{
    Gpr { enc: 15 }
}

/// The width of an operand.
#[derive(Debug, Clone, Copy, PartialEq, Eq, Structural)]
pub enum OperandSize {
    Size8,
    Size16,
    Size32,
    Size64,
}

impl OperandSize {
    /// The width in bytes.
    pub open spec fn bytes(self) -> u8 {
        match self {
            OperandSize::Size8 => 1,
            OperandSize::Size16 => 2,
            OperandSize::Size32 => 4,
            OperandSize::Size64 => 8,
        }
    }

    /// The width in bytes.
    pub fn to_bytes(self) -> (n: u8)
        ensures
            n == self.bytes(),
    {
        match self {
            OperandSize::Size8 => 1,
            OperandSize::Size16 => 2,
            OperandSize::Size32 => 4,
            OperandSize::Size64 => 8,
        }
    }

    /// The width in bits.
    pub fn to_bits(self) -> (n: u8)
        ensures
            n == 8 * self.bytes(),
    {
        self.to_bytes() * 8
    }

    /// The width of a value of an integer type.
    pub open spec fn of_type(ty: Type) -> OperandSize {
        match ty {
            Type::I8 => OperandSize::Size8,
            Type::I16 => OperandSize::Size16,
            Type::I32 => OperandSize::Size32,
            _ => OperandSize::Size64,
        }
    }

    /// The width of a value of an integer type.
    pub fn from_ty(ty: Type) -> (size: OperandSize)
        requires
            ty.is_int(),
        ensures
            size == OperandSize::of_type(ty),
    {
        match ty {
            Type::I8 => OperandSize::Size8,
            Type::I16 => OperandSize::Size16,
            Type::I32 => OperandSize::Size32,
            _ => OperandSize::Size64,
        }
    }
}

/// The type of a value. A type of which emission needs to know no more is given
/// by its number.
#[derive(Debug, Clone, Copy, PartialEq, Eq, Structural)]
pub enum Type {
    I8,
    I16,
    I32,
    I64,
    F64,
    Other(u16),
}

impl Type {
    /// Whether this is one of the integer types.
    pub open spec fn is_int(self) -> bool {
        self is I8 || self is I16 || self is I32 || self is I64
    }
}

/// A place in the code. A label that is given comes from outside an
/// instruction; a local one is obtained during the emission of one instruction
/// and is known by the order in which it was obtained.
#[derive(Debug, Clone, Copy, PartialEq, Eq, Structural)]
pub enum Label {
    Given(u32),
    Local(u8),
}

/// How a use of a label is patched.
#[derive(Debug, Clone, Copy, PartialEq, Eq, Structural)]
pub enum LabelUse {
    /// A 32-bit offset from the end of a jump instruction.
    JmpRel32,
    /// A 32-bit offset from the location of the offset, plus the addend that is
    /// there.
    PCRel32,
}

/// The address of a memory operand, in terms of registers only.
#[derive(Debug, Clone, Copy, PartialEq, Eq, Structural)]
pub enum Amode {
    /// `simm32 + base`
    ImmReg { simm32: i32, base: Gpr, flags: u16 },
    /// `simm32 + base + (index << shift)`
    ImmRegRegShift { simm32: i32, base: Gpr, index: Gpr, shift: u8, flags: u16 },
    /// The address of the label.
    RipRelative { target: Label },
}

impl Amode {
    /// `simm32 + base`, with nothing special about the access.
    pub open spec fn at(simm32: i32, base: Gpr) -> Amode {
        Amode::ImmReg { simm32, base, flags: 0 }
    }

    /// `simm32 + base`, with nothing special about the access.
    pub fn imm_reg(simm32: i32, base: Gpr) -> (a: Amode)
        ensures
            a == Amode::at(simm32, base),
    {
        Amode::ImmReg { simm32, base, flags: 0 }
    }
}

/// An operand in a register or in memory.
#[derive(Debug, Clone, Copy, PartialEq, Eq, Structural)]
pub enum RegMem {
    Reg { reg: Reg },
    Mem { addr: Amode },
}

/// An operand in a register, in memory, or given in the instruction.
#[derive(Debug, Clone, Copy, PartialEq, Eq, Structural)]
pub enum RegMemImm {
    Reg { reg: Reg },
    Mem { addr: Amode },
    Imm { simm32: u32 },
}

/// A condition on the flags.
#[derive(Debug, Clone, Copy, PartialEq, Eq, Structural)]
pub enum CC {
    /// overflow
    O,
    /// no overflow
    NO,
    /// below, unsigned
    B,
    /// not below
    NB,
    /// zero
    Z,
    /// not zero
    NZ,
    /// below or equal, unsigned
    BE,
    /// not below or equal
    NBE,
    /// sign
    S,
    /// no sign
    NS,
    /// parity
    P,
    /// no parity
    NP,
    /// less, signed
    L,
    /// not less
    NL,
    /// less or equal, signed
    LE,
    /// not less or equal
    NLE,
}

impl CC {
    /// The four bits that stand for the condition in an instruction.
    pub open spec fn enc(self) -> u8 {
        match self {
            CC::O => 0,
            CC::NO => 1,
            CC::B => 2,
            CC::NB => 3,
            CC::Z => 4,
            CC::NZ => 5,
            CC::BE => 6,
            CC::NBE => 7,
            CC::S => 8,
            CC::NS => 9,
            CC::P => 10,
            CC::NP => 11,
            CC::L => 12,
            CC::NL => 13,
            CC::LE => 14,
            CC::NLE => 15,
        }
    }

    /// The four bits that stand for the condition in an instruction.
    pub fn get_enc(self) -> (n: u8)
        ensures
            n == self.enc(),
            n < 16,
    {
        match self {
            CC::O => 0,
            CC::NO => 1,
            CC::B => 2,
            CC::NB => 3,
            CC::Z => 4,
            CC::NZ => 5,
            CC::BE => 6,
            CC::NBE => 7,
            CC::S => 8,
            CC::NS => 9,
            CC::P => 10,
            CC::NP => 11,
            CC::L => 12,
            CC::NL => 13,
            CC::LE => 14,
            CC::NLE => 15,
        }
    }

    /// The condition that holds when this one does not.
    pub open spec fn inverse(self) -> CC {
        match self {
            CC::O => CC::NO,
            CC::NO => CC::O,
            CC::B => CC::NB,
            CC::NB => CC::B,
            CC::Z => CC::NZ,
            CC::NZ => CC::Z,
            CC::BE => CC::NBE,
            CC::NBE => CC::BE,
            CC::S => CC::NS,
            CC::NS => CC::S,
            CC::P => CC::NP,
            CC::NP => CC::P,
            CC::L => CC::NL,
            CC::NL => CC::L,
            CC::LE => CC::NLE,
            CC::NLE => CC::LE,
        }
    }

    /// The condition that holds when this one does not.
    pub fn invert(self) -> (cc: CC)
        ensures
            cc == self.inverse(),
    {
        match self {
            CC::O => CC::NO,
            CC::NO => CC::O,
            CC::B => CC::NB,
            CC::NB => CC::B,
            CC::Z => CC::NZ,
            CC::NZ => CC::Z,
            CC::BE => CC::NBE,
            CC::NBE => CC::BE,
            CC::S => CC::NS,
            CC::NS => CC::S,
            CC::P => CC::NP,
            CC::NP => CC::P,
            CC::L => CC::NL,
            CC::NL => CC::L,
            CC::LE => CC::NLE,
            CC::NLE => CC::LE,
        }
    }
}

/// Why execution traps. A code that emission does not name is given by its
/// number.
#[derive(Debug, Clone, Copy, PartialEq, Eq, Structural)]
pub enum TrapCode {
    IntegerOverflow,
    IntegerDivisionByZero,
    BadConversionToInteger,
    Other(u8),
}

/// How the address of a symbol is filled in.
#[derive(Debug, Clone, Copy, PartialEq, Eq, Structural)]
pub enum Reloc {
    Abs8,
    X86PCRel4,
    X86CallPCRel4,
    X86CallPLTRel4,
    X86GOTPCRel4,
    X86SecRel,
    ElfX86_64TlsGd,
    MachOX86_64Tlv,
}

/// A symbol: one that is known by its number, or one of those that emission
/// names.
#[derive(Debug, Clone, Copy, PartialEq, Eq, Structural)]
pub enum ExternalName {
    Numbered(u32),
    /// The library routine `__tls_get_addr`.
    ElfTlsGetAddr,
    /// The symbol `_tls_index`.
    CoffTlsIndex,
}

/// How far away a symbol may be.
#[derive(Debug, Clone, Copy, PartialEq, Eq, Structural)]
pub enum RelocDistance {
    Near,
    Far,
}

/// Which memory accesses a fence orders.
#[derive(Debug, Clone, Copy, PartialEq, Eq, Structural)]
pub enum FenceKind {
    MFence,
    LFence,
    SFence,
}

/// Whether a comparison subtracts or takes the conjunction.
#[derive(Debug, Clone, Copy, PartialEq, Eq, Structural)]
pub enum CmpOpcode {
    Cmp,
    Test,
}

/// The operation of an atomic read-modify-write sequence.
#[derive(Debug, Clone, Copy, PartialEq, Eq, Structural)]
pub enum AtomicRmwSeqOp {
    And,
    Nand,
    Or,
    Xor,
    Umin,
    Umax,
    Smin,
    Smax,
}

/// The operation of an atomic read-modify-write sequence on 16 bytes.
#[derive(Debug, Clone, Copy, PartialEq, Eq, Structural)]
pub enum Atomic128RmwSeqOp {
    Add,
    Sub,
    And,
    Nand,
    Or,
    Xor,
    Umin,
    Umax,
    Smin,
    Smax,
}

/// Whether a 64-bit value is what its low 32 bits extend to with their sign.
pub open spec fn fits_signed_32(x: u64) -> bool {
    x < 0x8000_0000 || x >= 0xffff_ffff_8000_0000
}

/// Whether a 64-bit value is what its low 32 bits extend to with their sign.
pub fn low32_will_sign_extend_to_64(x: u64) -> (b: bool)
    ensures
        b == fits_signed_32(x),
{
    x < 0x8000_0000 || x >= 0xffff_ffff_8000_0000
}

/// Whether a 32-bit value is what its low 8 bits extend to with their sign.
pub open spec fn fits_signed_8(x: u32) -> bool {
    x < 0x80 || x >= 0xffff_ff80
}

/// Whether a 32-bit value is what its low 8 bits extend to with their sign.
pub fn low8_will_sign_extend_to_32(x: u32) -> (b: bool)
    ensures
        b == fits_signed_8(x),
{
    x < 0x80 || x >= 0xffff_ff80
}

} // verus!
