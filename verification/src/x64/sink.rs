//! What emission puts into the code buffer, step by step.
//!
//! Emission decides what goes into the buffer and in which order. A [`Sink`]
//! records these decisions as a list of [`Step`]s. Playing the steps in order
//! against a code buffer gives the machine code.

use crate::x64::args::{
    Amode, ExternalName, Gpr, Label, LabelUse, OperandSize, Reg, RegMem, RegMemImm, Reloc, TrapCode,
    Type, CC,
};
use crate::x64::opcodes::{Avx512Opcode, LegacyPrefixes, OpcodeMap, SseOpcode};
use vstd::prelude::*;

verus! {

/// What the REX prefix of an instruction is made from.
#[derive(Debug, Clone, Copy, PartialEq, Eq, Structural)]
pub enum RexBase {
    /// `W` is clear.
    ClearW,
    /// `W` is set.
    SetW,
    /// What an operand of this size needs.
    Size(OperandSize),
    /// What an operand of this size needs that is in this register. A register
    /// of 8 bits may need a prefix that has no bit set.
    SizeAndReg(OperandSize, Reg),
}

/// The REX prefix of an instruction.
#[derive(Debug, Clone, Copy, PartialEq, Eq, Structural)]
pub struct Rex {
    pub base: RexBase,
    /// Whether the prefix is there even if no bit of it is set.
    pub always: bool,
    /// A further register that may need the prefix even if no bit of it is set,
    /// for an operand of 8 bits.
    pub also_8bit: Option<Reg>,
}

impl Rex {
    /// A prefix that is there only if it is needed.
    pub open spec fn of(base: RexBase) -> Rex {
        Rex { base, always: false, also_8bit: None }
    }

    /// A prefix that is there only if it is needed.
    pub fn new(base: RexBase) -> (r: Rex)
        ensures
            r == Rex::of(base),
    {
        Rex { base, always: false, also_8bit: None }
    }
}

/// An operand of a vector instruction: a register, by its encoding, or an
/// address.
#[derive(Debug, Clone, Copy, PartialEq, Eq, Structural)]
pub enum RegisterOrAmode {
    Register(u8),
    Amode(Amode),
}

/// A vector instruction of 128 bits with its fields; a field that is not set has
/// the value it has by default.
#[derive(Debug, Clone, Copy, PartialEq, Eq, Structural)]
pub struct VexInstruction {
    pub prefix: LegacyPrefixes,
    pub map: OpcodeMap,
    pub w: Option<bool>,
    pub opcode: u8,
    pub opcode_ext: Option<u8>,
    pub reg: Option<u8>,
    pub vvvv: Option<u8>,
    pub rm: RegisterOrAmode,
    pub imm: Option<u8>,
}

/// A vector instruction of 128 bits with the longest prefix.
#[derive(Debug, Clone, Copy, PartialEq, Eq, Structural)]
pub struct EvexInstruction {
    pub prefix: LegacyPrefixes,
    pub map: OpcodeMap,
    pub w: bool,
    pub opcode: u8,
    /// The tuple type is that of this operation.
    pub tuple_type_of: Avx512Opcode,
    pub reg: u8,
    pub vvvvv: Option<u8>,
    pub rm: RegisterOrAmode,
    pub imm: Option<u8>,
}

/// Instructions that the assembler encodes.
#[derive(Debug, Clone, Copy, PartialEq, Eq, Structural)]
pub enum AsmOp {
    AdcqRm,
    AddlMi,
    AddlRm,
    AddqRm,
    AddsdA,
    AddssA,
    AndpdA,
    AndpsA,
    AndqMiSxb,
    AndqRm,
    Cvtsi2sdqA,
    Cvtsi2ssqA,
    Cvttsd2siA,
    Cvttsd2siAq,
    Cvttss2siA,
    Cvttss2siAq,
    MaxsdA,
    MaxssA,
    MinsdA,
    MinssA,
    MovdA,
    MovqA,
    MovqRm,
    NotqM,
    OrpdA,
    OrpsA,
    OrqRm,
    SbbqRm,
    ShrqMi,
    SubqRm,
    SubsdA,
    SubssA,
    XorlRm,
    XorpdA,
    XorqRm,
}

/// The operand that an assembler instruction reads beside its destination.
#[derive(Debug, Clone, Copy, PartialEq, Eq, Structural)]
pub enum AsmSrc {
    Nothing,
    Reg(Reg),
    Imm(u32),
    Mem(Amode),
}

/// An instruction that the assembler encodes.
#[derive(Debug, Clone, Copy, PartialEq, Eq, Structural)]
pub enum AsmInst {
    /// An instruction with its destination and its source.
    Op { op: AsmOp, dst: Reg, src: AsmSrc },
    /// A signed division of `rax` (8 bits) or of `rdx:rax` (else) by the
    /// divisor, which traps with the code.
    Idiv { size: OperandSize, divisor: Gpr, trap: TrapCode },
    /// An instruction that was given, by its number.
    Given(u32),
}

/// The offsets that are known only when code is emitted, for the addresses in
/// assembler instructions that refer to them.
#[derive(Debug, Clone, Copy, PartialEq, Eq, Structural)]
pub struct KnownOffsets {
    /// From the frame pointer to the end of the incoming arguments.
    pub incoming_arg: i32,
    /// From the stack pointer to the stack slots.
    pub slot_offset: i32,
}

/// An instruction that is made by one of the constructors for instructions, and
/// is emitted in its place.
#[allow(inconsistent_fields)]
#[derive(Debug, Clone, Copy, PartialEq, Eq, Structural)]
pub enum Built {
    /// `cmp`, with the register as the first operand.
    CmpRmiR { size: OperandSize, src1: Gpr, src2: RegMemImm },
    /// A conditional move.
    Cmove { size: OperandSize, cc: CC, consequent: RegMem, dst: Gpr },
    /// A move of a constant.
    Imm { size: OperandSize, value: u64, dst: Gpr },
    /// A jump to a label.
    JmpKnown { label: Label },
    /// A jump to a computed address.
    JmpUnknown { target: RegMem },
    /// A load of an address.
    Lea { addr: Amode, dst: Gpr },
    /// A load, from `plus` bytes after the address, that extends with zeros.
    Load { ty: Type, addr: Amode, plus: u8, dst: Gpr },
    /// A move of 32 bits that extends the sign to 64 bits.
    MovsxLQ { src: RegMem, dst: Gpr },
    /// A move between registers of one class.
    Move { dst: Reg, src: Reg, ty: Type },
    /// A store.
    MovRM { size: OperandSize, src: Gpr, addr: Amode },
    /// A move between general purpose registers.
    MovRR { size: OperandSize, src: Gpr, dst: Gpr },
    /// `addq` of a constant.
    AddqMi { dst: Gpr, imm: i32 },
    /// `subq` of a constant.
    SubqMi { dst: Gpr, imm: i32 },
    /// A trap.
    Trap { code: TrapCode },
    /// A trap if the condition holds.
    TrapIf { cc: CC, code: TrapCode },
    /// A comparison of vector registers that sets the flags.
    XmmCmpRmR { op: SseOpcode, src1: Reg, src2: RegMem },
}

/// One thing that is done to the code buffer.
#[allow(inconsistent_fields)]
#[derive(Debug, Clone, Copy, PartialEq, Eq)]
pub enum Step {
    /// Append a byte.
    Put1(u8),
    /// Append two bytes, the low one first.
    Put2(u16),
    /// Append four bytes, the low one first.
    Put4(u32),
    /// Append eight bytes, the low one first.
    Put8(u64),
    /// Append the bytes of the trapping instruction.
    PutTrapOpcode,
    /// Append an immediate of `size` bytes.
    PutSimm { size: u8, value: u32 },
    /// Obtain a new label.
    GetLabel { label: Label },
    /// Obtain a label at which, later on, the code is put that traps.
    DeferTrap { label: Label, code: TrapCode },
    /// Bind the label to the end of the buffer.
    BindLabel { label: Label },
    /// The place `ahead` bytes after the end of the buffer refers to the label.
    UseLabel { ahead: u32, label: Label, usage: LabelUse },
    /// What follows, up to `len` bytes after the end of the buffer, is a jump to
    /// the label.
    AddUncondBranch { len: u32, label: Label },
    /// What follows, up to `len` bytes after the end of the buffer, is a jump to
    /// the label on a condition; with these bytes it would be a jump on the
    /// inverse condition.
    AddCondBranch { len: u32, label: Label, inverted: (u8, u8, u8, u8, u8, u8) },
    /// What follows refers to a symbol.
    AddReloc { kind: Reloc, name: ExternalName, addend: i64 },
    /// What follows may trap.
    AddTrap { code: TrapCode },
    /// A call ends here. If it may end in an exception, the list of where it
    /// then goes is given by its number.
    AddCallSite { exception_dests: Option<u32> },
    /// The stack map describes the place `ahead` bytes after the end of the
    /// buffer.
    PushUserStackMap { ahead: u32, map: u32 },
    /// A piece of unwinding information, by its number, holds from here on.
    AddUnwind { info: u32 },
    /// An instruction of two register fields, by encodings.
    StdEncEnc {
        prefix: LegacyPrefixes,
        opcode: u32,
        num_opcodes: u8,
        enc_g: u8,
        enc_e: u8,
        rex: Rex,
    },
    /// An instruction of two registers.
    StdRegReg {
        prefix: LegacyPrefixes,
        opcode: u32,
        num_opcodes: u8,
        reg_g: Reg,
        reg_e: Reg,
        rex: Rex,
    },
    /// An instruction of a register field, by encoding, and an address.
    StdEncMem {
        prefix: LegacyPrefixes,
        opcode: u32,
        num_opcodes: u8,
        enc_g: u8,
        addr: Amode,
        rex: Rex,
        bytes_at_end: u8,
    },
    /// An instruction of a register and an address.
    StdRegMem {
        prefix: LegacyPrefixes,
        opcode: u32,
        num_opcodes: u8,
        reg_g: Reg,
        addr: Amode,
        rex: Rex,
        bytes_at_end: u8,
    },
    /// A vector instruction.
    Vex(VexInstruction),
    /// A vector instruction with the longest prefix.
    Evex(EvexInstruction),
    /// An instruction that the assembler encodes.
    Asm { inst: AsmInst, offsets: KnownOffsets },
    /// An instruction made by a constructor.
    Emit(Built),
    /// Loads of the return values that the call leaves on the stack, above
    /// `stackslots_size` bytes of slots. The return values are given by their
    /// number.
    RetvalLoads { defs: u32, stackslots_size: u32 },
    /// The instructions that restore the registers saved by the prologue, for a
    /// tail call.
    ClobberRestore,
    /// The instructions that take the frame down, for a tail call.
    EpilogueFrameRestore,
}

/// The list of steps that is being made.
pub struct Sink {
    steps: Vec<Step>,
}

impl View for Sink {
    type V = Seq<Step>;

    closed spec fn view(&self) -> Seq<Step> {
        self.steps@
    }
}

impl Sink {
    /// No steps.
    pub fn new() -> (s: Sink)
        ensures
            s@ == Seq::<Step>::empty(),
    {
        Sink { steps: Vec::new() }
    }

    /// The steps.
    pub fn into_steps(self) -> (v: Vec<Step>)
        ensures
            v@ == self@,
    {
        self.steps
    }

    /// Adds a step.
    pub fn push(&mut self, step: Step)
        ensures
            final(self)@ == old(self)@.push(step),
    {
        self.steps.push(step);
    }

    /// Appends a byte.
    pub fn put1(&mut self, value: u8)
        ensures
            final(self)@ == old(self)@.push(Step::Put1(value)),
    {
        self.push(Step::Put1(value));
    }

    /// Appends two bytes.
    pub fn put2(&mut self, value: u16)
        ensures
            final(self)@ == old(self)@.push(Step::Put2(value)),
    {
        self.push(Step::Put2(value));
    }

    /// Appends four bytes.
    pub fn put4(&mut self, value: u32)
        ensures
            final(self)@ == old(self)@.push(Step::Put4(value)),
    {
        self.push(Step::Put4(value));
    }

    /// Appends eight bytes.
    pub fn put8(&mut self, value: u64)
        ensures
            final(self)@ == old(self)@.push(Step::Put8(value)),
    {
        self.push(Step::Put8(value));
    }

    /// Obtains the `n`th local label of an instruction.
    pub fn get_label(&mut self, n: u8) -> (label: Label)
        ensures
            label == Label::Local(n),
            final(self)@ == old(self)@.push(Step::GetLabel { label: Label::Local(n) }),
    {
        let label = Label::Local(n);
        self.push(Step::GetLabel { label });
        label
    }

    /// Obtains a label for code that traps, as the `n`th local label of an
    /// instruction.
    pub fn defer_trap(&mut self, n: u8, code: TrapCode) -> (label: Label)
        ensures
            label == Label::Local(n),
            final(self)@ == old(self)@.push(Step::DeferTrap { label: Label::Local(n), code }),
    {
        let label = Label::Local(n);
        self.push(Step::DeferTrap { label, code });
        label
    }

    /// Binds a label to the end of the buffer.
    pub fn bind_label(&mut self, label: Label)
        ensures
            final(self)@ == old(self)@.push(Step::BindLabel { label }),
    {
        self.push(Step::BindLabel { label });
    }

    /// Refers to a label.
    pub fn use_label(&mut self, ahead: u32, label: Label, usage: LabelUse)
        ensures
            final(self)@ == old(self)@.push(Step::UseLabel { ahead, label, usage }),
    {
        self.push(Step::UseLabel { ahead, label, usage });
    }

    /// Emits an instruction made by a constructor.
    pub fn emit(&mut self, inst: Built)
        ensures
            final(self)@ == old(self)@.push(Step::Emit(inst)),
    {
        self.push(Step::Emit(inst));
    }
}

/// To add a step to what is added is to add it afterwards.
pub broadcast proof fn lemma_push_added(a: Seq<Step>, b: Seq<Step>, step: Step)
    ensures
        #[trigger] (a + b.push(step)) == (a + b).push(step),
{
    assert(a + b.push(step) =~= (a + b).push(step));
}

/// To add steps to what is added is to add them afterwards.
pub broadcast proof fn lemma_add_added(a: Seq<Step>, b: Seq<Step>, c: Seq<Step>)
    ensures
        #[trigger] (a + (b + c)) == (a + b) + c,
{
    assert(a + (b + c) =~= (a + b) + c);
}

/// To add nothing changes nothing.
pub broadcast proof fn lemma_nothing_added(a: Seq<Step>)
    ensures
        #[trigger] (a + Seq::<Step>::empty()) == a,
{
    assert(a + Seq::<Step>::empty() =~= a);
}

/// Adding steps one by one or together makes no difference.
pub broadcast group group_steps {
    lemma_push_added,
    lemma_add_added,
    lemma_nothing_added,
}

} // verus!
