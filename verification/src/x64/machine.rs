//! What emitted code does: a machine with registers, flags and memory that
//! carries out the steps of an instruction.
//!
//! The steps are carried out once, from the first to the last. A jump looks for
//! its label further on. If it is not found there, the pass ends while the label
//! is still looked for: then the jump goes back, and the next pass starts in
//! search of the label, or it leaves the instruction.
//!
//! Memory is the 8 bytes at each address that is accessed; addresses that are
//! used side by side are 8 bytes apart.

use crate::x64::args::{
    Amode, Gpr, Label, LabelUse, OperandSize, Reg, RegMem, RegMemImm, TrapCode, Type, CC,
};
use crate::x64::opcodes::{LegacyPrefixes, SseOpcode};
use crate::x64::sink::{AsmInst, AsmOp, AsmSrc, Built, KnownOffsets, Rex, RexBase, Step};
use vstd::prelude::*;

verus! {

/// The flags that a comparison sets.
pub struct Flags {
    pub zero: bool,
    pub carry: bool,
    pub sign: bool,
    pub overflow: bool,
    pub parity: bool,
}

/// Where execution is.
#[allow(inconsistent_fields)]
pub enum At {
    /// At the next step.
    Here,
    /// On the way to a label.
    Seek(Label),
    /// At an address that was computed.
    Address(u64),
    /// In a function at an address that was computed.
    Called(u64),
    /// Returned to the caller, which gets back so many bytes of the stack.
    Returned(int),
    /// Trapped.
    Trapped(TrapCode),
    /// The steps mean nothing, or not what they seem to.
    Stuck,
}

/// What an instruction does with the number at its end.
#[allow(inconsistent_fields)]
pub enum WithNumber {
    Move { dst: u8 },
    Compare { reg: u8, size: OperandSize, bytes: u8 },
    Test { reg: u8, size: OperandSize, bytes: u8 },
    Store { addr: int, size: OperandSize, bytes: u8 },
}

/// What was read of an instruction that is not complete yet.
#[allow(inconsistent_fields)]
pub enum Pending {
    Nothing,
    /// Bytes, as one number, and a label with its distance from the first byte.
    Bytes { code: int, label: Option<(u32, Label)> },
    Number(WithNumber),
}

/// How the hardware rounds. The first argument says whether floats have 64 bits.
pub struct Rounding {
    pub sum: spec_fn(bool, int, int) -> int,
    pub difference: spec_fn(bool, int, int) -> int,
    pub of_integer: spec_fn(bool, int) -> int,
}

/// The state of the machine.
pub struct Machine {
    pub at: At,
    pub gpr: Map<u8, u64>,
    /// The low 64 bits of the vector registers.
    pub xmm: Map<u8, u64>,
    pub flags: Flags,
    pub memory: Map<int, u64>,
    pub pending: Pending,
    /// The labels at which code traps.
    pub traps: Map<Label, TrapCode>,
    /// The addresses of the labels.
    pub places: Map<Label, u64>,
    pub rounding: Rounding,
}

/// How many values there are of a size.
pub open spec fn values(size: OperandSize) -> int {
    match size {
        OperandSize::Size8 => 0x100,
        OperandSize::Size16 => 0x1_0000,
        OperandSize::Size32 => 0x1_0000_0000,
        OperandSize::Size64 => 0x1_0000_0000_0000_0000,
    }
}

/// The low bits of a register, as an unsigned number.
pub open spec fn low(v: u64, size: OperandSize) -> int {
    v as int % values(size)
}

/// An unsigned number of a size as a signed one.
pub open spec fn signed(n: int, size: OperandSize) -> int {
    if n >= values(size) / 2 {
        n - values(size)
    } else {
        n
    }
}

/// A number as an unsigned one of a size.
pub open spec fn wrapped(n: int, size: OperandSize) -> int {
    n % values(size)
}

/// A number as the contents of a register.
pub open spec fn extended(n: int) -> u64 {
    wrapped(n, OperandSize::Size64) as u64
}

/// A register after its low bits were written. A write of 32 bits clears the
/// others.
pub open spec fn written(old_value: u64, n: int, size: OperandSize) -> u64 {
    match size {
        OperandSize::Size64 | OperandSize::Size32 => n as u64,
        _ => (old_value - low(old_value, size) + n) as u64,
    }
}

/// The 8 bytes at an address after the first of them were written.
pub open spec fn stored(old_value: u64, n: int, size: OperandSize) -> u64 {
    (old_value - low(old_value, size) + n) as u64
}

/// Whether a condition holds.
pub open spec fn holds(cc: CC, f: Flags) -> bool {
    match cc {
        CC::O => f.overflow,
        CC::NO => !f.overflow,
        CC::B => f.carry,
        CC::NB => !f.carry,
        CC::Z => f.zero,
        CC::NZ => !f.zero,
        CC::BE => f.carry || f.zero,
        CC::NBE => !f.carry && !f.zero,
        CC::S => f.sign,
        CC::NS => !f.sign,
        CC::P => f.parity,
        CC::NP => !f.parity,
        CC::L => f.sign != f.overflow,
        CC::NL => f.sign == f.overflow,
        CC::LE => f.zero || f.sign != f.overflow,
        CC::NLE => !f.zero && f.sign == f.overflow,
    }
}

/// Whether the condition with this number holds: the lowest bit inverts it.
pub open spec fn number_holds(n: int, f: Flags) -> bool {
    let plain = if n / 2 == 0 {
        f.overflow
    } else if n / 2 == 1 {
        f.carry
    } else if n / 2 == 2 {
        f.zero
    } else if n / 2 == 3 {
        f.carry || f.zero
    } else if n / 2 == 4 {
        f.sign
    } else if n / 2 == 5 {
        f.parity
    } else if n / 2 == 6 {
        f.sign != f.overflow
    } else {
        f.zero || f.sign != f.overflow
    };
    plain != (n % 2 == 1)
}

/// Whether the low byte of a number has an even number of bits that are set.
#[verifier::opaque]
pub open spec fn even_bits(n: int) -> bool {
    let b = n % 256;
    (b % 2 + b / 2 % 2 + b / 4 % 2 + b / 8 % 2 + b / 16 % 2 + b / 32 % 2 + b / 64 % 2 + b / 128 % 2)
        % 2 == 0
}

/// The flags for a result that neither carries nor overflows.
pub open spec fn logic_flags(n: int, size: OperandSize) -> Flags {
    Flags {
        zero: n == 0,
        carry: false,
        sign: n >= values(size) / 2,
        overflow: false,
        parity: even_bits(n),
    }
}

/// The flags for `a - b - borrow`.
pub open spec fn sub_flags(a: int, b: int, borrow: int, size: OperandSize) -> Flags {
    let result = wrapped(a - b - borrow, size);
    let exact = signed(a, size) - signed(b, size) - borrow;
    Flags {
        zero: result == 0,
        carry: a - b - borrow < 0,
        sign: result >= values(size) / 2,
        overflow: exact < -(values(size) / 2) || exact >= values(size) / 2,
        parity: even_bits(result),
    }
}

/// The flags for `a + b + carry`.
pub open spec fn add_flags(a: int, b: int, carry: int, size: OperandSize) -> Flags {
    let result = wrapped(a + b + carry, size);
    let exact = signed(a, size) + signed(b, size) + carry;
    Flags {
        zero: result == 0,
        carry: a + b + carry >= values(size),
        sign: result >= values(size) / 2,
        overflow: exact < -(values(size) / 2) || exact >= values(size) / 2,
        parity: even_bits(result),
    }
}

/// The bits of the fraction of a float.
pub open spec fn fraction_values(wide: bool) -> int {
    if wide {
        0x10_0000_0000_0000
    } else {
        0x80_0000
    }
}

/// The number of exponents of a float.
pub open spec fn exponents(wide: bool) -> int {
    if wide {
        0x800
    } else {
        0x100
    }
}

/// The weight of the sign of a float.
pub open spec fn sign_weight(wide: bool) -> int {
    if wide {
        0x8000_0000_0000_0000
    } else {
        0x8000_0000
    }
}

/// The bits of a float without its sign.
pub open spec fn unsigned_bits(wide: bool, bits: int) -> int {
    bits % sign_weight(wide)
}

/// Whether the sign of a float is set.
pub open spec fn is_negative(wide: bool, bits: int) -> bool {
    bits / sign_weight(wide) % 2 == 1
}

/// The exponent of a float, as it is encoded.
pub open spec fn exponent(wide: bool, bits: int) -> int {
    unsigned_bits(wide, bits) / fraction_values(wide)
}

/// The fraction of a float, as it is encoded.
pub open spec fn fraction(wide: bool, bits: int) -> int {
    bits % fraction_values(wide)
}

/// Whether a float is no number.
pub open spec fn is_nan(wide: bool, bits: int) -> bool {
    exponent(wide, bits) == exponents(wide) - 1 && fraction(wide, bits) != 0
}

/// The magnitude of a float as a multiple of the least float. Infinity is the
/// power of two that follows the largest float.
pub open spec fn magnitude(wide: bool, bits: int) -> int {
    if exponent(wide, bits) == 0 {
        fraction(wide, bits)
    } else {
        (fraction_values(wide) + fraction(wide, bits)) * vstd::arithmetic::power2::pow2(
            (exponent(wide, bits) - 1) as nat,
        )
    }
}

/// The value of a float as a multiple of the least float.
pub open spec fn value(wide: bool, bits: int) -> int {
    if is_negative(wide, bits) {
        -magnitude(wide, bits)
    } else {
        magnitude(wide, bits)
    }
}

/// One as a multiple of the least float.
pub open spec fn one(wide: bool) -> int {
    vstd::arithmetic::power2::pow2(
        if wide {
            1074
        } else {
            149
        },
    ) as int
}

/// A float without what is behind the point.
pub open spec fn truncated(wide: bool, bits: int) -> int {
    if is_negative(wide, bits) {
        -(magnitude(wide, bits) / one(wide))
    } else {
        magnitude(wide, bits) / one(wide)
    }
}

/// The float in the low bits of a vector register.
pub open spec fn float_in(wide: bool, v: u64) -> int {
    if wide {
        v as int
    } else {
        v as int % 0x1_0000_0000
    }
}

/// A vector register after a float was written to its low bits.
pub open spec fn with_float(wide: bool, old_value: u64, bits: int) -> u64 {
    if wide {
        bits as u64
    } else {
        (old_value - old_value as int % 0x1_0000_0000 + bits) as u64
    }
}

/// The flags of a comparison of floats.
pub open spec fn float_flags(wide: bool, a: int, b: int) -> Flags {
    let unordered = is_nan(wide, a) || is_nan(wide, b);
    Flags {
        zero: unordered || value(wide, a) == value(wide, b),
        carry: unordered || value(wide, a) < value(wide, b),
        sign: false,
        overflow: false,
        parity: unordered,
    }
}

/// What the hardware makes of a float as a signed integer: the truncated float
/// if it is in range, and else the least integer.
pub open spec fn hardware_truncation(wide: bool, bits: int, size: OperandSize) -> int {
    let n = truncated(wide, bits);
    if is_nan(wide, bits) || n < -(values(size) / 2) || n >= values(size) / 2 {
        values(size) / 2
    } else {
        wrapped(n, size)
    }
}

/// What the hardware gives for the lesser (or the greater) of two floats: the
/// second unless the first is strictly less (or greater).
pub open spec fn hardware_min_max(wide: bool, is_min: bool, a: int, b: int) -> int {
    if is_nan(wide, a) || is_nan(wide, b) {
        b
    } else if is_min && value(wide, a) < value(wide, b) {
        a
    } else if !is_min && value(wide, a) > value(wide, b) {
        a
    } else {
        b
    }
}

impl Machine {
    pub open spec fn go(self, at: At) -> Machine {
        Machine { at, ..self }
    }

    pub open spec fn stuck(self) -> Machine {
        self.go(At::Stuck)
    }

    /// Jumps to a label, which may be one at which code traps.
    pub open spec fn jump(self, label: Label) -> Machine {
        if self.traps.dom().contains(label) {
            self.go(At::Trapped(self.traps[label]))
        } else {
            self.go(At::Seek(label))
        }
    }

    pub open spec fn reg(self, r: Gpr) -> u64 {
        self.gpr[r.enc]
    }

    pub open spec fn vec(self, r: crate::x64::args::Xmm) -> u64 {
        self.xmm[r.enc]
    }

    pub open spec fn set(self, enc: u8, v: u64) -> Machine {
        Machine { gpr: self.gpr.insert(enc, v), ..self }
    }

    pub open spec fn set_xmm(self, enc: u8, v: u64) -> Machine {
        Machine { xmm: self.xmm.insert(enc, v), ..self }
    }

    pub open spec fn set_flags(self, flags: Flags) -> Machine {
        Machine { flags, ..self }
    }

    pub open spec fn wait(self, pending: Pending) -> Machine {
        Machine { pending, ..self }
    }

    pub open spec fn store(self, addr: int, n: int, size: OperandSize) -> Machine {
        Machine { memory: self.memory.insert(addr, stored(self.memory[addr], n, size)), ..self }
    }

    /// The address that an operand names.
    pub open spec fn address(self, a: Amode) -> int {
        match a {
            Amode::ImmReg { simm32, base, .. } => wrapped(
                self.reg(base) + simm32,
                OperandSize::Size64,
            ),
            Amode::ImmRegRegShift { simm32, base, index, shift, .. } => wrapped(
                self.reg(base) + simm32 + self.reg(index) * vstd::arithmetic::power2::pow2(
                    shift as nat,
                ),
                OperandSize::Size64,
            ),
            Amode::RipRelative { target } => self.places[target] as int,
        }
    }

    /// The low bits of what an operand names.
    pub open spec fn operand(self, o: RegMem, size: OperandSize) -> int {
        match o {
            RegMem::Reg { reg } => low(self.gpr[reg.enc()], size),
            RegMem::Mem { addr } => low(self.memory[self.address(addr)], size),
        }
    }

    /// All bits of what an operand names. A number is extended with its sign.
    pub open spec fn all_bits(self, o: RegMemImm) -> u64 {
        match o {
            RegMemImm::Reg { reg } => self.gpr[reg.enc()],
            RegMemImm::Mem { addr } => self.memory[self.address(addr)],
            RegMemImm::Imm { simm32 } => extended(signed(simm32 as int, OperandSize::Size32)),
        }
    }

    /// The low bits of what an operand names. A number is extended with its sign.
    pub open spec fn operand_or_number(self, o: RegMemImm, size: OperandSize) -> int {
        match o {
            RegMemImm::Reg { reg } => low(self.gpr[reg.enc()], size),
            RegMemImm::Mem { addr } => low(self.memory[self.address(addr)], size),
            RegMemImm::Imm { simm32 } => wrapped(signed(simm32 as int, OperandSize::Size32), size),
        }
    }
}

/// The width of an instruction that has no form for single bytes.
pub open spec fn width(prefix: LegacyPrefixes, rex: Rex) -> OperandSize {
    let wide = match rex.base {
        RexBase::ClearW => false,
        RexBase::SetW => true,
        RexBase::Size(size) | RexBase::SizeAndReg(size, _) => size is Size64,
    };
    if wide {
        OperandSize::Size64
    } else if prefix is P66 || prefix is P66F0 {
        OperandSize::Size16
    } else {
        OperandSize::Size32
    }
}

/// Whether a register is named by its low byte. Without the prefix the four
/// registers after the first four would be others.
pub open spec fn byte_is_low(rex: Rex, reg: Reg) -> bool {
    ||| reg.enc() < 4 || reg.enc() >= 8
    ||| rex.always
    ||| rex.base == RexBase::SizeAndReg(OperandSize::Size8, reg)
    ||| rex.also_8bit == Some(reg)
}

/// Whether the bus is locked.
pub open spec fn is_locked(prefix: LegacyPrefixes) -> bool {
    prefix is PF0 || prefix is P66F0
}

/// An instruction on two registers. `g` is in the register field and `e` in the
/// other.
#[verifier::opaque]
pub open spec fn on_registers(
    s: Machine,
    prefix: LegacyPrefixes,
    opcode: u32,
    num_opcodes: u8,
    g: Reg,
    e: Reg,
    rex: Rex,
) -> Machine {
    let bytes_ok = byte_is_low(rex, g) && byte_is_low(rex, e);
    let w = width(prefix, rex);
    let (x, y) = (s.gpr[g.enc()], s.gpr[e.enc()]);
    if is_locked(prefix) || !(g is Gpr) || !(e is Gpr) {
        s.stuck()
    } else if num_opcodes == 1 && opcode == 0x89 {
        s.set(e.enc(), written(y, low(x, w), w))
    } else if num_opcodes == 1 && (opcode == 0x38 || opcode == 0x39) {
        let size = if opcode == 0x38 { OperandSize::Size8 } else { w };
        if opcode == 0x38 && !bytes_ok {
            s.stuck()
        } else {
            s.set_flags(sub_flags(low(y, size), low(x, size), 0, size))
        }
    } else if num_opcodes == 1 && (opcode == 0x3A || opcode == 0x3B) {
        let size = if opcode == 0x3A { OperandSize::Size8 } else { w };
        if opcode == 0x3A && !bytes_ok {
            s.stuck()
        } else {
            s.set_flags(sub_flags(low(x, size), low(y, size), 0, size))
        }
    } else if num_opcodes == 1 && (opcode == 0x84 || opcode == 0x85) {
        let size = if opcode == 0x84 { OperandSize::Size8 } else { w };
        if opcode == 0x84 && !bytes_ok {
            s.stuck()
        } else {
            s.set_flags(logic_flags(low(x & y, size), size))
        }
    } else if num_opcodes == 2 && 0x0F40 <= opcode < 0x0F50 {
        s.set(
            g.enc(),
            written(
                x,
                low(
                    if number_holds(opcode - 0x0F40, s.flags) {
                        y
                    } else {
                        x
                    },
                    w,
                ),
                w,
            ),
        )
    } else {
        s.stuck()
    }
}

/// An instruction on a register and memory.
#[verifier::opaque]
pub open spec fn on_memory(
    s: Machine,
    prefix: LegacyPrefixes,
    opcode: u32,
    num_opcodes: u8,
    g: Reg,
    addr: Amode,
    rex: Rex,
) -> Machine {
    let bytes_ok = byte_is_low(rex, g);
    let w = width(prefix, rex);
    let byte = opcode % 2 == 0;
    let size = if byte { OperandSize::Size8 } else { w };
    let x = s.gpr[g.enc()];
    let a = s.address(addr);
    let m = s.memory[a];
    if !(g is Gpr) {
        s.stuck()
    } else if num_opcodes == 1 && opcode == 0x8D && !is_locked(prefix) {
        s.set(g.enc(), written(x, wrapped(a, w), w))
    } else if num_opcodes == 2 && 0x0F40 <= opcode < 0x0F50 && !is_locked(prefix) {
        s.set(
            g.enc(),
            written(
                x,
                low(
                    if number_holds(opcode - 0x0F40, s.flags) {
                        m
                    } else {
                        x
                    },
                    w,
                ),
                w,
            ),
        )
    } else if byte && !bytes_ok {
        s.stuck()
    } else if num_opcodes == 1 && (opcode == 0x88 || opcode == 0x89) && !is_locked(prefix) {
        s.store(a, low(x, size), size)
    } else if num_opcodes == 1 && (opcode == 0x38 || opcode == 0x39) && !is_locked(prefix) {
        s.set_flags(sub_flags(low(m, size), low(x, size), 0, size))
    } else if num_opcodes == 1 && (opcode == 0x3A || opcode == 0x3B) && !is_locked(prefix) {
        s.set_flags(sub_flags(low(x, size), low(m, size), 0, size))
    } else if num_opcodes == 1 && (opcode == 0x84 || opcode == 0x85) && !is_locked(prefix) {
        s.set_flags(logic_flags(low(x & m, size), size))
    } else if num_opcodes == 1 && (opcode == 0x86 || opcode == 0x87) {
        // An exchange with memory locks the bus in any case.
        s.store(a, low(x, size), size).set(g.enc(), written(x, low(m, size), size))
    } else if num_opcodes == 2 && (opcode == 0x0FC0 || opcode == 0x0FC1) && is_locked(prefix) {
        s.store(a, wrapped(low(m, size) + low(x, size), size), size).set(
            g.enc(),
            written(x, low(m, size), size),
        ).set_flags(add_flags(low(m, size), low(x, size), 0, size))
    } else if num_opcodes == 2 && (opcode == 0x0FB0 || opcode == 0x0FB1) && is_locked(prefix) {
        let rax = s.gpr[0];
        let compared = s.set_flags(sub_flags(low(rax, size), low(m, size), 0, size));
        if low(rax, size) == low(m, size) {
            compared.store(a, low(x, size), size)
        } else {
            compared.set(0, written(rax, low(m, size), size))
        }
    } else {
        s.stuck()
    }
}

/// An instruction on one register; the other field says which.
#[verifier::opaque]
pub open spec fn on_one_register(
    s: Machine,
    prefix: LegacyPrefixes,
    opcode: u32,
    num_opcodes: u8,
    g: u8,
    e: u8,
    rex: Rex,
) -> Machine {
    let w = width(prefix, rex);
    let byte_ok = byte_is_low(rex, Reg::Gpr(Gpr { enc: e }));
    if is_locked(prefix) {
        s.stuck()
    } else if num_opcodes == 1 && opcode == 0xC7 && g == 0 && w is Size64 {
        s.wait(Pending::Number(WithNumber::Move { dst: e }))
    } else if num_opcodes == 1 && opcode == 0x80 && g == 7 && byte_ok {
        s.wait(
            Pending::Number(WithNumber::Compare { reg: e, size: OperandSize::Size8, bytes: 1 }),
        )
    } else if num_opcodes == 1 && opcode == 0x83 && g == 7 {
        s.wait(Pending::Number(WithNumber::Compare { reg: e, size: w, bytes: 1 }))
    } else if num_opcodes == 1 && opcode == 0x81 && g == 7 {
        s.wait(Pending::Number(WithNumber::Compare { reg: e, size: w, bytes: w.bytes() }))
    } else if num_opcodes == 1 && opcode == 0xF6 && g == 0 && byte_ok {
        s.wait(Pending::Number(WithNumber::Test { reg: e, size: OperandSize::Size8, bytes: 1 }))
    } else if num_opcodes == 1 && opcode == 0xF7 && g == 0 {
        s.wait(Pending::Number(WithNumber::Test { reg: e, size: w, bytes: w.bytes() }))
    } else if num_opcodes == 2 && 0x0F90 <= opcode < 0x0FA0 && byte_ok {
        s.set(
            e,
            written(
                s.gpr[e],
                if number_holds(opcode - 0x0F90, s.flags) {
                    1
                } else {
                    0
                },
                OperandSize::Size8,
            ),
        )
    } else if num_opcodes == 1 && opcode == 0xFF && g == 4 {
        s.go(At::Address(s.gpr[e]))
    } else if num_opcodes == 1 && opcode == 0xFF && g == 2 {
        s.go(At::Called(s.gpr[e]))
    } else {
        s.stuck()
    }
}

/// An instruction on memory alone; the register field says which.
#[verifier::opaque]
pub open spec fn on_one_address(
    s: Machine,
    prefix: LegacyPrefixes,
    opcode: u32,
    num_opcodes: u8,
    g: u8,
    addr: Amode,
    rex: Rex,
) -> Machine {
    let w = width(prefix, rex);
    let a = s.address(addr);
    if addr is RipRelative && (opcode == 0xC6 || opcode == 0xC7) {
        // The number would count in the distance.
        s.stuck()
    } else if num_opcodes == 1 && opcode == 0xC6 && g == 0 && !is_locked(prefix) {
        s.wait(
            Pending::Number(WithNumber::Store { addr: a, size: OperandSize::Size8, bytes: 1 }),
        )
    } else if num_opcodes == 1 && opcode == 0xC7 && g == 0 && !is_locked(prefix) {
        s.wait(Pending::Number(WithNumber::Store { addr: a, size: w, bytes: w.bytes() }))
    } else if num_opcodes == 1 && opcode == 0xFF && g == 4 && !is_locked(prefix) {
        s.go(At::Address(s.memory[a]))
    } else if num_opcodes == 1 && opcode == 0xFF && g == 2 && !is_locked(prefix) {
        s.go(At::Called(s.memory[a]))
    } else if num_opcodes == 2 && opcode == 0x0FC7 && g == 1 && is_locked(prefix) && w is Size64 {
        let (m, n) = (s.memory[a], s.memory[a + 8]);
        let same = s.gpr[0] == m && s.gpr[2] == n;
        let compared = s.set_flags(Flags { zero: same, ..s.flags });
        if same {
            Machine {
                memory: s.memory.insert(a, s.gpr[3]).insert(a + 8, s.gpr[1]),
                ..compared
            }
        } else {
            compared.set(0, m).set(2, n)
        }
    } else {
        s.stuck()
    }
}

/// An instruction whose number has come, sign and all.
#[verifier::opaque]
pub open spec fn with_number(s: Machine, use_: WithNumber, n: int) -> Machine {
    let s = s.wait(Pending::Nothing);
    match use_ {
        WithNumber::Move { dst } => s.set(dst, wrapped(n, OperandSize::Size64) as u64),
        WithNumber::Compare { reg, size, .. } => s.set_flags(
            sub_flags(low(s.gpr[reg], size), wrapped(n, size), 0, size),
        ),
        WithNumber::Test { reg, size, .. } => s.set_flags(
            logic_flags(
                low(s.gpr[reg] & extended(n), size),
                size,
            ),
        ),
        WithNumber::Store { addr, size, .. } => s.store(addr, wrapped(n, size), size),
    }
}

/// How many bytes a number is to have.
pub open spec fn bytes_of(use_: WithNumber) -> u8 {
    match use_ {
        WithNumber::Move { .. } => 4,
        WithNumber::Compare { bytes, .. } => bytes,
        WithNumber::Test { bytes, .. } => bytes,
        WithNumber::Store { bytes, .. } => bytes,
    }
}

/// The number that so many bytes give. For an operand of 8 bytes there are 4.
pub open spec fn number(bytes: u8, v: u32) -> int {
    if bytes == 1 {
        signed(v as int % 0x100, OperandSize::Size8)
    } else if bytes == 2 {
        signed(v as int % 0x1_0000, OperandSize::Size16)
    } else {
        signed(v as int, OperandSize::Size32)
    }
}

/// Four bytes at the end of an instruction that is given by its bytes.
#[verifier::opaque]
pub open spec fn after_four(s: Machine, code: int, label: Option<(u32, Label)>, v: u32) -> Machine {
    let s = s.wait(Pending::Nothing);
    match label {
        Some((ahead, l)) => if code == 0xE9 && ahead == 1 {
            s.jump(l)
        } else if 0x0F80 <= code < 0x0F90 && ahead == 2 {
            if number_holds(code - 0x0F80, s.flags) {
                s.jump(l)
            } else {
                s
            }
        } else {
            s.stuck()
        },
        None => if 0xB8 <= code < 0xC0 {
            s.set((code - 0xB8) as u8, v as u64)
        } else if 0x41B8 <= code < 0x41C0 {
            s.set((code - 0x41B8 + 8) as u8, v as u64)
        } else {
            s.stuck()
        },
    }
}

/// Eight bytes at the end of an instruction that is given by its bytes.
#[verifier::opaque]
pub open spec fn after_eight(s: Machine, code: int, v: u64) -> Machine {
    let s = s.wait(Pending::Nothing);
    if 0x48B8 <= code < 0x48C0 {
        s.set((code - 0x48B8) as u8, v)
    } else if 0x49B8 <= code < 0x49C0 {
        s.set((code - 0x49B8 + 8) as u8, v)
    } else {
        s.stuck()
    }
}

/// Whether a vector instruction of the assembler is one on 64-bit floats.
pub open spec fn is_wide(op: AsmOp) -> bool {
    match op {
        AsmOp::AddsdA
        | AsmOp::SubsdA
        | AsmOp::MinsdA
        | AsmOp::MaxsdA
        | AsmOp::Cvtsi2sdqA
        | AsmOp::Cvttsd2siA
        | AsmOp::Cvttsd2siAq => true,
        _ => false,
    }
}

/// An operation on two general purpose registers, or on one and a number.
#[verifier::opaque]
pub open spec fn alu(s: Machine, op: AsmOp, dst: u8, y: u64) -> Machine {
    let x = s.gpr[dst];
    let q = OperandSize::Size64;
    let l = OperandSize::Size32;
    let c: int = if s.flags.carry {
        1
    } else {
        0
    };
    match op {
        AsmOp::AndqRm | AsmOp::AndqMiSxb => s.set(dst, x & y).set_flags(
            logic_flags((x & y) as int, q),
        ),
        AsmOp::OrqRm => s.set(dst, x | y).set_flags(logic_flags((x | y) as int, q)),
        AsmOp::XorqRm => s.set(dst, x ^ y).set_flags(logic_flags((x ^ y) as int, q)),
        AsmOp::XorlRm => s.set(dst, low(x ^ y, l) as u64).set_flags(
            logic_flags(low(x ^ y, l), l),
        ),
        AsmOp::AddqRm => s.set(dst, wrapped(x + y, q) as u64).set_flags(
            add_flags(x as int, y as int, 0, q),
        ),
        AsmOp::AdcqRm => s.set(dst, wrapped(x + y + c, q) as u64).set_flags(
            add_flags(x as int, y as int, c, q),
        ),
        AsmOp::SubqRm => s.set(dst, wrapped(x - y, q) as u64).set_flags(
            sub_flags(x as int, y as int, 0, q),
        ),
        AsmOp::SbbqRm => s.set(dst, wrapped(x - y - c, q) as u64).set_flags(
            sub_flags(x as int, y as int, c, q),
        ),
        AsmOp::AddlRm | AsmOp::AddlMi => s.set(dst, wrapped(x + y, l) as u64).set_flags(
            add_flags(low(x, l), low(y, l), 0, l),
        ),
        AsmOp::MovqRm => s.set(dst, y),
        _ => s.stuck(),
    }
}

/// An operation on a general purpose register and a number.
#[verifier::opaque]
pub open spec fn alu_number(s: Machine, op: AsmOp, dst: u8, n: u32) -> Machine {
    match op {
        // The number has one byte.
        AsmOp::AndqMiSxb => alu(
            s,
            op,
            dst,
            wrapped(number(1, n), OperandSize::Size64) as u64,
        ),
        AsmOp::AddlMi => alu(s, op, dst, n as u64),
        AsmOp::ShrqMi => s.set(
            dst,
            (s.gpr[dst] as int / vstd::arithmetic::power2::pow2(n as nat) as int) as u64,
        ),
        _ => s.stuck(),
    }
}

/// An operation on vector registers.
#[verifier::opaque]
pub open spec fn vector(s: Machine, op: AsmOp, dst: u8, src: u8) -> Machine {
    let wide = is_wide(op);
    let (x, y) = (s.xmm[dst], s.xmm[src]);
    let (a, b) = (float_in(wide, x), float_in(wide, y));
    match op {
        AsmOp::AddssA | AsmOp::AddsdA => s.set_xmm(
            dst,
            with_float(wide, x, (s.rounding.sum)(wide, a, b)),
        ),
        AsmOp::SubssA | AsmOp::SubsdA => s.set_xmm(
            dst,
            with_float(wide, x, (s.rounding.difference)(wide, a, b)),
        ),
        AsmOp::MinssA | AsmOp::MinsdA => s.set_xmm(
            dst,
            with_float(wide, x, hardware_min_max(wide, true, a, b)),
        ),
        AsmOp::MaxssA | AsmOp::MaxsdA => s.set_xmm(
            dst,
            with_float(wide, x, hardware_min_max(wide, false, a, b)),
        ),
        AsmOp::AndpsA | AsmOp::AndpdA => s.set_xmm(dst, x & y),
        AsmOp::OrpsA | AsmOp::OrpdA => s.set_xmm(dst, x | y),
        AsmOp::XorpdA => s.set_xmm(dst, x ^ y),
        _ => s.stuck(),
    }
}

/// The size of the integer that a truncation gives.
pub open spec fn truncation_size(op: AsmOp) -> Option<OperandSize> {
    match op {
        AsmOp::Cvttss2siA | AsmOp::Cvttsd2siA => Some(OperandSize::Size32),
        AsmOp::Cvttss2siAq | AsmOp::Cvttsd2siAq => Some(OperandSize::Size64),
        _ => None,
    }
}

/// An instruction of the assembler with its operands.
#[verifier::opaque]
pub open spec fn assembled(s: Machine, op: AsmOp, dst: Reg, src: AsmSrc) -> Machine {
    match (dst, src) {
        (Reg::Gpr(d), AsmSrc::Reg(Reg::Gpr(r))) => alu(s, op, d.enc, s.gpr[r.enc]),
        (Reg::Gpr(d), AsmSrc::Imm(n)) => alu_number(s, op, d.enc, n),
        (Reg::Gpr(d), AsmSrc::Mem(m)) => if op is MovqRm {
            s.set(d.enc, s.memory[s.address(m)])
        } else {
            s.stuck()
        },
        (Reg::Gpr(d), AsmSrc::Nothing) => if op is NotqM {
            s.set(d.enc, !s.gpr[d.enc])
        } else {
            s.stuck()
        },
        (Reg::Xmm(d), AsmSrc::Reg(Reg::Xmm(r))) => vector(s, op, d.enc, r.enc),
        (Reg::Xmm(d), AsmSrc::Reg(Reg::Gpr(r))) => match op {
            AsmOp::MovdA => s.set_xmm(
                d.enc,
                low(s.gpr[r.enc], OperandSize::Size32) as u64,
            ),
            AsmOp::MovqA => s.set_xmm(d.enc, s.gpr[r.enc]),
            AsmOp::Cvtsi2ssqA | AsmOp::Cvtsi2sdqA => s.set_xmm(
                d.enc,
                with_float(
                    is_wide(op),
                    s.xmm[d.enc],
                    (s.rounding.of_integer)(
                        is_wide(op),
                        signed(s.gpr[r.enc] as int, OperandSize::Size64),
                    ),
                ),
            ),
            _ => s.stuck(),
        },
        (Reg::Gpr(d), AsmSrc::Reg(Reg::Xmm(r))) => match truncation_size(op) {
            Some(size) => s.set(
                d.enc,
                hardware_truncation(is_wide(op), float_in(is_wide(op), s.xmm[r.enc]), size) as u64,
            ),
            None => s.stuck(),
        },
        _ => s.stuck(),
    }
}

/// A quotient without what is behind the point.
pub open spec fn quotient(a: int, b: int) -> int {
    let q = (if a < 0 { -a } else { a }) / (if b < 0 { -b } else { b });
    if (a < 0) != (b < 0) {
        -q
    } else {
        q
    }
}

/// What is left of a division that drops what is behind the point. It has the
/// sign of the dividend.
pub open spec fn remainder(a: int, b: int) -> int {
    a - b * quotient(a, b)
}

/// A signed division: of the 16 bits in `rax` by 8 bits, with the quotient in
/// the low byte and the remainder in the next, or of `rdx:rax` by the operand,
/// with the quotient in `rax` and the remainder in `rdx`.
#[verifier::opaque]
pub open spec fn divided(s: Machine, size: OperandSize, divisor: u8, trap: TrapCode) -> Machine {
    let b = signed(low(s.gpr[divisor], size), size);
    let a = if size is Size8 {
        signed(low(s.gpr[0], OperandSize::Size16), OperandSize::Size16)
    } else {
        signed(low(s.gpr[2], size), size) * values(size) + low(s.gpr[0], size)
    };
    let (q, r) = (quotient(a, b), remainder(a, b));
    if b == 0 || q < -(values(size) / 2) || q >= values(size) / 2 {
        s.go(At::Trapped(trap))
    } else if size is Size8 {
        s.set(
            0,
            written(
                s.gpr[0],
                wrapped(q, size) + 0x100 * wrapped(r, size),
                OperandSize::Size16,
            ),
        )
    } else {
        s.set(0, written(s.gpr[0], wrapped(q, size), size)).set(
            2,
            written(s.gpr[2], wrapped(r, size), size),
        )
    }
}

/// The size of a value of an integer type.
pub open spec fn size_of_type(ty: Type) -> Option<OperandSize> {
    match ty {
        Type::I8 => Some(OperandSize::Size8),
        Type::I16 => Some(OperandSize::Size16),
        Type::I32 => Some(OperandSize::Size32),
        Type::I64 => Some(OperandSize::Size64),
        _ => None,
    }
}

/// An instruction that a constructor makes.
#[verifier::opaque]
pub open spec fn built(s: Machine, inst: Built) -> Machine {
    let q = OperandSize::Size64;
    match inst {
        Built::CmpRmiR { size, src1, src2 } => s.set_flags(
            sub_flags(low(s.reg(src1), size), s.operand_or_number(src2, size), 0, size),
        ),
        Built::Cmove { size, cc, consequent, dst } => s.set(
            dst.enc,
            written(
                s.reg(dst),
                if holds(cc, s.flags) {
                    s.operand(consequent, size)
                } else {
                    low(s.reg(dst), size)
                },
                size,
            ),
        ),
        Built::Imm { size, value, dst } => s.set(dst.enc, low(value, size) as u64),
        Built::JmpKnown { label } => s.jump(label),
        Built::JmpUnknown { target } => s.go(At::Address(s.operand(target, q) as u64)),
        Built::Lea { addr: Amode::RipRelative { target }, dst } => s.set(
            dst.enc,
            s.places[target],
        ),
        Built::Load { ty, addr, plus, dst } => match size_of_type(ty) {
            Some(size) => s.set(
                dst.enc,
                low(s.memory[s.address(addr) + plus], size) as u64,
            ),
            None => s.stuck(),
        },
        Built::MovsxLQ { src, dst } => s.set(
            dst.enc,
            wrapped(
                signed(s.operand(src, OperandSize::Size32), OperandSize::Size32),
                q,
            ) as u64,
        ),
        Built::Move { dst: Reg::Gpr(d), src: Reg::Gpr(r), .. } => s.set(d.enc, s.reg(r)),
        Built::Move { dst: Reg::Xmm(d), src: Reg::Xmm(r), .. } => s.set_xmm(d.enc, s.vec(r)),
        Built::MovRM { size, src, addr } => s.store(s.address(addr), low(s.reg(src), size), size),
        Built::MovRR { size, src, dst } => s.set(
            dst.enc,
            written(s.reg(dst), low(s.reg(src), size), size),
        ),
        Built::AddqMi { dst, imm } => s.set(dst.enc, wrapped(s.reg(dst) + imm, q) as u64),
        Built::SubqMi { dst, imm } => s.set(dst.enc, wrapped(s.reg(dst) - imm, q) as u64),
        Built::Trap { code } => s.go(At::Trapped(code)),
        Built::TrapIf { cc, code } => if holds(cc, s.flags) {
            s.go(At::Trapped(code))
        } else {
            s
        },
        Built::XmmCmpRmR { op, src1: Reg::Xmm(a), src2: RegMem::Reg { reg: Reg::Xmm(b) } } => match op {
            SseOpcode::Ucomiss => s.set_flags(
                float_flags(false, float_in(false, s.vec(a)), float_in(false, s.vec(b))),
            ),
            SseOpcode::Ucomisd => s.set_flags(
                float_flags(true, float_in(true, s.vec(a)), float_in(true, s.vec(b))),
            ),
            _ => s.stuck(),
        },
        _ => s.stuck(),
    }
}

/// One step, carried out at its place.
#[verifier::opaque]
pub open spec fn here(s: Machine, step: Step) -> Machine {
    match s.pending {
        Pending::Nothing => match step {
            Step::GetLabel { .. }
            | Step::BindLabel { .. }
            | Step::AddUncondBranch { .. }
            | Step::AddCondBranch { .. }
            | Step::AddTrap { .. } => s,
            Step::UseLabel { ahead, label, usage: LabelUse::JmpRel32 } => s.wait(
                Pending::Bytes { code: 0, label: Some((ahead, label)) },
            ),
            Step::Put1(b) => if b == 0xC3 {
                s.go(At::Returned(0))
            } else {
                s.wait(Pending::Bytes { code: b as int, label: None })
            },
            Step::StdRegReg { prefix, opcode, num_opcodes, reg_g, reg_e, rex } => on_registers(
                s,
                prefix,
                opcode,
                num_opcodes,
                reg_g,
                reg_e,
                rex,
            ),
            Step::StdRegMem { prefix, opcode, num_opcodes, reg_g, addr, rex, .. } => on_memory(
                s,
                prefix,
                opcode,
                num_opcodes,
                reg_g,
                addr,
                rex,
            ),
            Step::StdEncEnc { prefix, opcode, num_opcodes, enc_g, enc_e, rex } => on_one_register(
                s,
                prefix,
                opcode,
                num_opcodes,
                enc_g,
                enc_e,
                rex,
            ),
            Step::StdEncMem { prefix, opcode, num_opcodes, enc_g, addr, rex, .. } => on_one_address(
                s,
                prefix,
                opcode,
                num_opcodes,
                enc_g,
                addr,
                rex,
            ),
            Step::Asm { inst: AsmInst::Op { op, dst, src }, .. } => assembled(s, op, dst, src),
            Step::Asm { inst: AsmInst::Idiv { size, divisor, trap }, .. } => divided(
                s,
                size,
                divisor.enc,
                trap,
            ),
            Step::Emit(inst) => built(s, inst),
            _ => s.stuck(),
        },
        Pending::Bytes { code, label } => match step {
            Step::AddUncondBranch { .. } | Step::AddCondBranch { .. } => s,
            Step::Put1(b) => s.wait(Pending::Bytes { code: code * 0x100 + b, label }),
            Step::Put2(v) => if code == 0xC2 && label is None {
                s.wait(Pending::Nothing).go(At::Returned(v as int))
            } else {
                s.stuck()
            },
            Step::Put4(v) => after_four(s, code, label, v),
            Step::Put8(v) => if label is None {
                after_eight(s, code, v)
            } else {
                s.stuck()
            },
            _ => s.stuck(),
        },
        Pending::Number(use_) => match step {
            Step::Put4(v) => if bytes_of(use_) == 4 {
                with_number(s, use_, number(4, v))
            } else {
                s.stuck()
            },
            Step::PutSimm { size, value } => if bytes_of(use_) == size {
                with_number(s, use_, number(size, value))
            } else {
                s.stuck()
            },
            _ => s.stuck(),
        },
    }
}

/// One step.
#[verifier::opaque]
pub open spec fn step(s: Machine, x: Step) -> Machine {
    match (s.at, x) {
        (At::Here, Step::DeferTrap { label, code }) => Machine {
            traps: s.traps.insert(label, code),
            ..s
        },
        (At::Here, _) => here(s, x),
        (At::Seek(label), Step::BindLabel { label: l }) => if l == label {
            s.go(At::Here)
        } else {
            s
        },
        _ => s,
    }
}

/// One pass over the steps.
pub open spec fn run(s: Machine, steps: Seq<Step>) -> Machine
    decreases steps.len(),
{
    if steps.len() == 0 {
        s
    } else {
        step(run(s, steps.drop_last()), steps.last())
    }
}

/// A machine at the start of an instruction.
pub open spec fn ready(s: Machine) -> bool {
    s.at is Here && s.pending is Nothing && s.traps == Map::<Label, TrapCode>::empty()
}

/// A pass over no steps does nothing.
pub broadcast proof fn lemma_run_nothing(s: Machine)
    ensures
        #[trigger] run(s, Seq::<Step>::empty()) == s,
{
}

/// The last step comes last.
pub broadcast proof fn lemma_run_push(s: Machine, a: Seq<Step>, x: Step)
    ensures
        #[trigger] run(s, a.push(x)) == step(run(s, a), x),
{
    assert(a.push(x).drop_last() =~= a);
}

/// A pass over two lists is a pass over one and then over the other.
pub broadcast proof fn lemma_run_add(s: Machine, a: Seq<Step>, b: Seq<Step>)
    ensures
        #[trigger] run(s, a + b) == run(run(s, a), b),
    decreases b.len(),
{
    if b.len() == 0 {
        assert(a + b =~= a);
    } else {
        lemma_run_add(s, a, b.drop_last());
        assert((a + b).drop_last() =~= a + b.drop_last());
    }
}

/// How passes are put together.
pub broadcast group group_run {
    lemma_run_nothing,
    lemma_run_push,
    lemma_run_add,
}

/// What is not at its place takes no notice of a step that binds no label.
pub broadcast proof fn lemma_step_elsewhere(s: Machine, x: Step)
    requires
        !(s.at is Here),
        !(x is BindLabel),
    ensures
        #[trigger] step(s, x) == s,
{
    reveal(step);
}

/// A label that is bound is where what seeks it goes on.
pub broadcast proof fn lemma_step_bind(s: Machine, label: Label)
    requires
        s.pending is Nothing,
    ensures
        #[trigger] step(s, Step::BindLabel { label }) == (if s.at == At::Seek(label) {
            s.go(At::Here)
        } else {
            s
        }),
{
    reveal(step);
    reveal(here);
}

/// To obtain a label does nothing to the machine.
pub broadcast proof fn lemma_step_label(s: Machine, label: Label)
    requires
        s.pending is Nothing,
    ensures
        #[trigger] step(s, Step::GetLabel { label }) == s,
{
    reveal(step);
    reveal(here);
}

/// A label for a trap is noted.
pub broadcast proof fn lemma_step_defer(s: Machine, label: Label, code: TrapCode)
    requires
        s.at is Here,
    ensures
        #[trigger] step(s, Step::DeferTrap { label, code }) == (Machine {
            traps: s.traps.insert(label, code),
            ..s
        }),
{
    reveal(step);
}

/// An instruction made by a constructor is carried out.
pub broadcast proof fn lemma_step_built(s: Machine, inst: Built)
    requires
        s.at is Here,
        s.pending is Nothing,
    ensures
        #[trigger] step(s, Step::Emit(inst)) == built(s, inst),
{
    reveal(step);
    reveal(here);
}

/// An instruction of the assembler is carried out.
pub broadcast proof fn lemma_step_assembled(
    s: Machine,
    op: AsmOp,
    dst: Reg,
    src: AsmSrc,
    offsets: KnownOffsets,
)
    requires
        s.at is Here,
        s.pending is Nothing,
    ensures
        #[trigger] step(s, Step::Asm { inst: AsmInst::Op { op, dst, src }, offsets }) == assembled(
            s,
            op,
            dst,
            src,
        ),
{
    reveal(step);
    reveal(here);
}

/// An instruction on two registers is carried out.
pub broadcast proof fn lemma_step_registers(
    s: Machine,
    prefix: LegacyPrefixes,
    opcode: u32,
    num_opcodes: u8,
    reg_g: Reg,
    reg_e: Reg,
    rex: Rex,
)
    requires
        s.at is Here,
        s.pending is Nothing,
    ensures
        #[trigger] step(s, Step::StdRegReg { prefix, opcode, num_opcodes, reg_g, reg_e, rex })
            == on_registers(s, prefix, opcode, num_opcodes, reg_g, reg_e, rex),
{
    reveal(step);
    reveal(here);
}

/// An instruction on a register and memory is carried out.
pub broadcast proof fn lemma_step_memory(
    s: Machine,
    prefix: LegacyPrefixes,
    opcode: u32,
    num_opcodes: u8,
    reg_g: Reg,
    addr: Amode,
    rex: Rex,
    bytes_at_end: u8,
)
    requires
        s.at is Here,
        s.pending is Nothing,
    ensures
        #[trigger] step(
            s,
            Step::StdRegMem { prefix, opcode, num_opcodes, reg_g, addr, rex, bytes_at_end },
        ) == on_memory(s, prefix, opcode, num_opcodes, reg_g, addr, rex),
{
    reveal(step);
    reveal(here);
}

/// An instruction on one register is carried out.
pub broadcast proof fn lemma_step_one_register(
    s: Machine,
    prefix: LegacyPrefixes,
    opcode: u32,
    num_opcodes: u8,
    enc_g: u8,
    enc_e: u8,
    rex: Rex,
)
    requires
        s.at is Here,
        s.pending is Nothing,
    ensures
        #[trigger] step(s, Step::StdEncEnc { prefix, opcode, num_opcodes, enc_g, enc_e, rex })
            == on_one_register(s, prefix, opcode, num_opcodes, enc_g, enc_e, rex),
{
    reveal(step);
    reveal(here);
}

/// An instruction on memory alone is carried out.
pub broadcast proof fn lemma_step_one_address(
    s: Machine,
    prefix: LegacyPrefixes,
    opcode: u32,
    num_opcodes: u8,
    enc_g: u8,
    addr: Amode,
    rex: Rex,
    bytes_at_end: u8,
)
    requires
        s.at is Here,
        s.pending is Nothing,
    ensures
        #[trigger] step(
            s,
            Step::StdEncMem { prefix, opcode, num_opcodes, enc_g, addr, rex, bytes_at_end },
        ) == on_one_address(s, prefix, opcode, num_opcodes, enc_g, addr, rex),
{
    reveal(step);
    reveal(here);
}

/// The number of an instruction is read.
pub proof fn lemma_step_number(s: Machine, use_: WithNumber, size: u8, value: u32)
    requires
        s.at is Here,
        s.pending == Pending::Number(use_),
        bytes_of(use_) == size,
    ensures
        step(s, Step::PutSimm { size, value }) == with_number(s, use_, number(size, value)),
{
    reveal(step);
    reveal(here);
}

/// How instructions that are given by their opcodes are carried out.
pub broadcast group group_opcode {
    lemma_step_registers,
    lemma_step_memory,
    lemma_step_one_register,
    lemma_step_one_address,
}

/// How steps are carried out.
pub broadcast group group_step {
    lemma_step_elsewhere,
    lemma_step_bind,
    lemma_step_label,
    lemma_step_defer,
    lemma_step_built,
    lemma_step_assembled,
}

/// A jump on a condition goes to its label if the condition holds, and does
/// nothing if it does not.
pub broadcast proof fn law_jump_if(s: Machine, cc: CC, label: Label)
    requires
        s.at is Here,
        s.pending is Nothing,
    ensures
        #[trigger] run(s, crate::x64::emit_basic::jump_if(cc, label)) == (if holds(cc, s.flags) {
            s.jump(label)
        } else {
            s
        }),
{
    lemma_jump_bytes(s, cc.enc(), label);
    law_condition_means_its_name(cc, s.flags);
    let steps = crate::x64::emit_basic::jump_if(cc, label);
    assert(steps =~= Seq::<Step>::empty().push(steps[0]).push(steps[1]).push(steps[2]).push(
        steps[3],
    ));
    lemma_run_four(s, steps[0], steps[1], steps[2], steps[3]);
}

/// The bytes of a conditional jump.
pub proof fn lemma_jump_bytes(s: Machine, n: u8, label: Label)
    requires
        s.at is Here,
        s.pending is Nothing,
        n < 16,
    ensures
        step(
            step(
                step(
                    step(s, Step::UseLabel { ahead: 2, label, usage: LabelUse::JmpRel32 }),
                    Step::Put1(0x0F),
                ),
                Step::Put1((0x80 + n) as u8),
            ),
            Step::Put4(0),
        ) == (if number_holds(n as int, s.flags) {
            s.jump(label)
        } else {
            s
        }),
{
    reveal(step);
    reveal(here);
    reveal(after_four);
    let s1 = step(s, Step::UseLabel { ahead: 2, label, usage: LabelUse::JmpRel32 });
    assert(s1 == s.wait(Pending::Bytes { code: 0, label: Some((2u32, label)) }));
    let s2 = step(s1, Step::Put1(0x0F));
    assert(s2 == s.wait(Pending::Bytes { code: 0x0F, label: Some((2u32, label)) }));
    let s3 = step(s2, Step::Put1((0x80 + n) as u8));
    assert(s3 == s.wait(Pending::Bytes { code: 0x0F80 + n, label: Some((2u32, label)) }));
}

/// A pass over four steps.
pub proof fn lemma_run_four(s: Machine, a: Step, b: Step, c: Step, d: Step)
    ensures
        run(s, Seq::<Step>::empty().push(a).push(b).push(c).push(d)) == step(
            step(step(step(s, a), b), c),
            d,
        ),
{
    broadcast use group_run;

}

/// What is on its way to a label that is not bound by a jump passes it by.
pub broadcast proof fn lemma_passes_jump(s: Machine, cc: CC, label: Label)
    requires
        !(s.at is Here),
    ensures
        #[trigger] run(s, crate::x64::emit_basic::jump_if(cc, label)) == s,
{
    let steps = crate::x64::emit_basic::jump_if(cc, label);
    assert(steps =~= Seq::<Step>::empty().push(steps[0]).push(steps[1]).push(steps[2]).push(
        steps[3],
    ));
    lemma_run_four(s, steps[0], steps[1], steps[2], steps[3]);
    lemma_step_elsewhere(s, steps[0]);
    lemma_step_elsewhere(s, steps[1]);
    lemma_step_elsewhere(s, steps[2]);
    lemma_step_elsewhere(s, steps[3]);
}

/// How conditional jumps are carried out.
pub broadcast group group_jump {
    law_jump_if,
    lemma_passes_jump,
}

/// The number of a condition means what its name says.
pub proof fn law_condition_means_its_name(cc: CC, f: Flags)
    ensures
        number_holds(cc.enc() as int, f) == holds(cc, f),
{
}

/// The inverse of a condition holds exactly when the condition does not.
pub proof fn law_inverse_holds_otherwise(cc: CC, f: Flags)
    ensures
        holds(cc.inverse(), f) == !holds(cc, f),
{
}

/// After a comparison the conditions are those of the operands: unsigned ones
/// compare the numbers, and signed ones the numbers with their signs.
pub proof fn law_comparison_orders(a: int, b: int, size: OperandSize)
    requires
        0 <= a < values(size),
        0 <= b < values(size),
    ensures
        ({
            let f = sub_flags(a, b, 0, size);
            let (x, y) = (signed(a, size), signed(b, size));
            &&& holds(CC::Z, f) == (a == b)
            &&& holds(CC::NZ, f) == (a != b)
            &&& holds(CC::B, f) == (a < b)
            &&& holds(CC::NB, f) == (a >= b)
            &&& holds(CC::BE, f) == (a <= b)
            &&& holds(CC::NBE, f) == (a > b)
            &&& holds(CC::L, f) == (x < y)
            &&& holds(CC::NL, f) == (x >= y)
            &&& holds(CC::LE, f) == (x <= y)
            &&& holds(CC::NLE, f) == (x > y)
        }),
{
    lemma_wrapped_difference(a, b, size);
}

/// A difference wraps around at zero.
pub proof fn lemma_wrapped_difference(a: int, b: int, size: OperandSize)
    requires
        0 <= a < values(size),
        0 <= b < values(size),
    ensures
        wrapped(a - b, size) == if a >= b {
            a - b
        } else {
            a - b + values(size)
        },
{
}

/// A size has eight bits for each of its bytes, and a value of an integer type has the
/// size of its type.
pub proof fn law_sizes(size: OperandSize, ty: Type)
    ensures
        values(size) == vstd::arithmetic::power2::pow2((8 * size.bytes()) as nat),
        ty.is_int() <==> size_of_type(ty) is Some,
        ty.is_int() ==> size_of_type(ty) == Some(OperandSize::of_type(ty)),
{
    vstd::arithmetic::power2::lemma2_to64();
    vstd::arithmetic::power2::lemma2_to64_rest();
}

} // verus!
