//! Instructions, and what emission knows beside the instruction.

use crate::x64::args::{
    Amode, Atomic128RmwSeqOp, AtomicRmwSeqOp, CmpOpcode, ExternalName, FenceKind, Gpr, Label,
    OperandSize, Reg, RegMem, RegMemImm, RelocDistance, TrapCode, Type, Xmm, CC,
};
use crate::x64::opcodes::{Avx512Opcode, AvxOpcode, SseOpcode};
use crate::x64::sink::KnownOffsets;
use vstd::prelude::*;

verus! {

/// Where a call goes that may end in an exception.
#[derive(Debug, Clone, Copy, PartialEq, Eq, Structural)]
pub struct TryCallInfo {
    /// Where it goes with each exception, by the number of the list.
    pub exception_dests: u32,
    /// Where it goes with none.
    pub continuation: Label,
}

/// A call to a destination `T`.
#[derive(Debug)]
pub struct CallInfo<T> {
    pub dest: T,
    /// The return values and where the call leaves them, by their number.
    pub defs: u32,
    /// If the call may end in an exception, where it goes.
    pub try_call_info: Option<TryCallInfo>,
    /// The size of the argument area that the callee releases.
    pub callee_pop_size: u32,
}

/// A tail call to a destination `T`.
#[derive(Debug)]
pub struct ReturnCallInfo<T> {
    pub dest: T,
    /// The size of the stack arguments of the callee.
    pub new_stack_arg_size: u32,
    /// A register that is free to use.
    pub tmp: Gpr,
}

/// An instruction. Addresses in it are in terms of registers only.
#[allow(inconsistent_fields)]
#[derive(Debug)]
pub enum Inst {
    /// The remainder of a signed division by a register, which is zero for a
    /// divisor of -1.
    CheckedSRemSeq {
        size: OperandSize,
        dividend_lo: Gpr,
        dividend_hi: Gpr,
        divisor: Gpr,
        dst_quotient: Gpr,
        dst_remainder: Gpr,
    },
    /// The same for 8 bits.
    CheckedSRemSeq8 { dividend: Gpr, divisor: Gpr, dst: Gpr },
    /// A move of a constant to a register.
    Imm { dst_size: OperandSize, simm64: u64, dst: Gpr },
    /// A move of a constant to memory.
    MovImmM { size: OperandSize, simm32: i32, dst: Amode },
    /// A move between registers.
    MovRR { size: OperandSize, src: Gpr, dst: Gpr },
    /// A move from a register that is not allocated.
    MovFromPReg { src: Gpr, dst: Gpr },
    /// A move to a register that is not allocated.
    MovToPReg { src: Gpr, dst: Gpr },
    /// A load of an address.
    LoadEffectiveAddress { addr: Amode, dst: Gpr, size: OperandSize },
    /// A store.
    MovRM { size: OperandSize, src: Gpr, dst: Amode },
    /// A comparison that sets the flags.
    CmpRmiR { size: OperandSize, src1: Gpr, src2: RegMemImm, opcode: CmpOpcode },
    /// Sets a register to 1 if the condition holds, else to 0.
    Setcc { cc: CC, dst: Gpr },
    /// A move if the condition holds.
    Cmove { size: OperandSize, cc: CC, consequent: RegMem, alternative: Gpr, dst: Gpr },
    /// A move of a vector register if the condition holds.
    XmmCmove { ty: Type, cc: CC, consequent: Xmm, alternative: Xmm, dst: Xmm },
    /// A loop that touches each page of a frame.
    StackProbeLoop { tmp: Gpr, frame_size: u32, guard_size: u32 },
    /// A call of a symbol.
    CallKnown { info: CallInfo<ExternalName> },
    /// A call of a computed address.
    CallUnknown { info: CallInfo<RegMem> },
    /// A tail call of a symbol.
    ReturnCallKnown { info: ReturnCallInfo<ExternalName> },
    /// A tail call of a computed address.
    ReturnCallUnknown { info: ReturnCallInfo<Gpr> },
    /// Defines the registers of the arguments.
    Args,
    /// Uses the registers of the return values.
    Rets,
    /// A return that pops this many bytes of arguments.
    Ret { stack_bytes_to_pop: u32 },
    /// Switches to another stack.
    StackSwitchBasic {
        store_context_ptr: Gpr,
        load_context_ptr: Gpr,
        in_payload0: Gpr,
        out_payload0: Gpr,
    },
    /// A jump.
    JmpKnown { dst: Label },
    /// A jump on a condition that does not end a block.
    WinchJmpIf { cc: CC, taken: Label },
    /// A jump to one of two places.
    JmpCond { cc: CC, taken: Label, not_taken: Label },
    /// A jump to one of two places, on either of two conditions.
    JmpCondOr { cc1: CC, cc2: CC, taken: Label, not_taken: Label },
    /// A jump to a computed address.
    JmpUnknown { target: RegMem },
    /// A jump through a table.
    JmpTableSeq { idx: Gpr, tmp1: Gpr, tmp2: Gpr, targets: Vec<Label>, default_target: Label },
    /// A trap if the condition holds.
    TrapIf { cc: CC, trap_code: TrapCode },
    /// A trap if both conditions hold.
    TrapIfAnd { cc1: CC, cc2: CC, trap_code: TrapCode },
    /// A trap if either condition holds.
    TrapIfOr { cc1: CC, cc2: CC, trap_code: TrapCode },
    XmmUnaryRmR { op: SseOpcode, src: RegMem, dst: Xmm },
    XmmUnaryRmREvex { op: Avx512Opcode, src: RegMem, dst: Xmm },
    XmmUnaryRmRImmEvex { op: Avx512Opcode, src: RegMem, dst: Xmm, imm: u8 },
    XmmRmR { op: SseOpcode, src1: Xmm, src2: RegMem, dst: Xmm },
    XmmRmRUnaligned { op: SseOpcode, src1: Xmm, src2: RegMem, dst: Xmm },
    /// `commutative` says whether the operation is.
    XmmRmiRVex { op: AvxOpcode, commutative: bool, src1: Xmm, src2: RegMemImm, dst: Xmm },
    XmmRmRImmVex { op: AvxOpcode, src1: Xmm, src2: RegMem, dst: Xmm, imm: u8 },
    XmmRmRVex3 { op: AvxOpcode, src1: Xmm, src2: Xmm, src3: RegMem, dst: Xmm },
    XmmUnaryRmRVex { op: AvxOpcode, src: RegMem, dst: Xmm },
    XmmMovRMVex { op: AvxOpcode, src: Xmm, dst: Amode },
    XmmMovRMImmVex { op: AvxOpcode, src: Xmm, dst: Amode, imm: u8 },
    XmmToGprImmVex { op: AvxOpcode, src: Xmm, dst: Gpr, imm: u8 },
    XmmCmpRmRVex { op: AvxOpcode, src1: Xmm, src2: RegMem },
    XmmRmREvex { op: Avx512Opcode, src1: Xmm, src2: RegMem, dst: Xmm },
    XmmRmREvex3 { op: Avx512Opcode, src1: Xmm, src2: Xmm, src3: RegMem, dst: Xmm },
    /// The minimum or the maximum, with the treatment of NaN and zeros that the
    /// hardware lacks.
    XmmMinMaxSeq { size: OperandSize, is_min: bool, lhs: Xmm, rhs: Xmm, dst: Xmm },
    XmmRmRImm { op: SseOpcode, src1: Reg, src2: RegMem, dst: Reg, imm: u8, size: OperandSize },
    /// Defines a vector register with any value.
    XmmUninitializedValue,
    /// Defines a register with any value.
    GprUninitializedValue,
    XmmCmpRmR { op: SseOpcode, src1: Xmm, src2: RegMem },
    /// The conversion of an unsigned 64-bit integer to a float.
    CvtUint64ToFloatSeq { dst_size: OperandSize, src: Gpr, dst: Xmm, tmp_gpr1: Gpr, tmp_gpr2: Gpr },
    /// The conversion of a float to a signed integer.
    CvtFloatToSintSeq {
        src_size: OperandSize,
        dst_size: OperandSize,
        is_saturating: bool,
        src: Xmm,
        dst: Gpr,
        tmp_gpr: Gpr,
        tmp_xmm: Xmm,
    },
    /// The conversion of a float to an unsigned integer.
    CvtFloatToUintSeq {
        src_size: OperandSize,
        dst_size: OperandSize,
        is_saturating: bool,
        src: Xmm,
        dst: Gpr,
        tmp_gpr: Gpr,
        tmp_xmm: Xmm,
        tmp_xmm2: Xmm,
    },
    /// A load of the address of a symbol.
    LoadExtName { dst: Gpr, name: ExternalName, offset: i64, distance: RelocDistance },
    /// An atomic exchange if the old value is as expected.
    LockCmpxchg { ty: Type, replacement: Gpr, expected: Gpr, mem: Amode, dst_old: Gpr },
    /// The same for 16 bytes.
    LockCmpxchg16b {
        replacement_low: Gpr,
        replacement_high: Gpr,
        expected_low: Gpr,
        expected_high: Gpr,
        mem: Amode,
        dst_old_low: Gpr,
        dst_old_high: Gpr,
    },
    /// An atomic addition.
    LockXadd { size: OperandSize, operand: Gpr, mem: Amode, dst_old: Gpr },
    /// An atomic exchange.
    Xchg { size: OperandSize, operand: Gpr, mem: Amode, dst_old: Gpr },
    /// An atomic update in a loop.
    AtomicRmwSeq {
        ty: Type,
        op: AtomicRmwSeqOp,
        mem: Amode,
        operand: Gpr,
        temp: Gpr,
        dst_old: Gpr,
    },
    /// An atomic update of 16 bytes in a loop.
    Atomic128RmwSeq {
        op: Atomic128RmwSeqOp,
        mem: Amode,
        operand_low: Gpr,
        operand_high: Gpr,
        temp_low: Gpr,
        temp_high: Gpr,
        dst_old_low: Gpr,
        dst_old_high: Gpr,
    },
    /// An atomic exchange of 16 bytes in a loop.
    Atomic128XchgSeq {
        mem: Amode,
        operand_low: Gpr,
        operand_high: Gpr,
        dst_old_low: Gpr,
        dst_old_high: Gpr,
    },
    /// A memory fence.
    Fence { kind: FenceKind },
    /// A stop for a debugger.
    Hlt,
    /// A trap.
    Ud2 { trap_code: TrapCode },
    /// Bytes that do nothing.
    Nop { len: u8 },
    /// The address of a thread-local symbol, in the ELF way.
    ElfTlsGetAddr { symbol: ExternalName, dst: Gpr },
    /// The address of a thread-local symbol, in the Mach-O way.
    MachOTlsGetAddr { symbol: ExternalName, dst: Gpr },
    /// The address of a thread-local symbol, in the COFF way.
    CoffTlsGetAddr { symbol: ExternalName, dst: Gpr, tmp: Gpr },
    /// A piece of unwinding information, by its number.
    Unwind { inst: u32 },
    /// Keeps a register alive.
    DummyUse,
    /// An instruction of the assembler, by its number.
    External { inst: u32 },
}

/// The instruction sets that an instruction may need.
#[derive(Debug, Clone, Copy, PartialEq, Eq, Structural)]
pub enum InstructionSet {
    SSE,
    SSE2,
    CMPXCHG16b,
    SSE3,
    SSSE3,
    SSE41,
    SSE42,
    Popcnt,
    Lzcnt,
    BMI1,
    BMI2,
    FMA,
    AVX,
    AVX2,
    AVX512BITALG,
    AVX512DQ,
    AVX512F,
    AVX512VBMI,
    AVX512VL,
}

/// The features of the target.
#[derive(Debug, Clone, Copy, PartialEq, Eq, Structural)]
pub struct IsaFlags {
    pub use_cmpxchg16b: bool,
    pub use_sse3: bool,
    pub use_ssse3: bool,
    pub use_sse41: bool,
    pub use_sse42: bool,
    pub use_popcnt: bool,
    pub use_lzcnt: bool,
    pub use_bmi1: bool,
    pub has_bmi2: bool,
    pub has_fma: bool,
    pub has_avx: bool,
    pub has_avx2: bool,
    pub has_avx512bitalg: bool,
    pub has_avx512dq: bool,
    pub has_avx512f: bool,
    pub has_avx512vbmi: bool,
    pub has_avx512vl: bool,
}

/// Where a stack keeps the registers of a computation that is suspended.
#[derive(Debug, Clone, Copy, PartialEq, Eq, Structural)]
pub struct ControlContextLayout {
    pub stack_pointer_offset: i32,
    pub frame_pointer_offset: i32,
    pub ip_offset: i32,
}

/// The settings of code generation.
#[derive(Debug)]
pub struct EmitInfo {
    pub isa_flags: IsaFlags,
    pub enable_probestack: bool,
    pub is_pic: bool,
    pub preserve_frame_pointers: bool,
    pub control_context_layout: ControlContextLayout,
    /// The registers that a call which keeps none of them may change, in the
    /// order in which they are considered.
    pub all_clobbers: Vec<Reg>,
}

/// The parts of a stack frame.
#[derive(Debug, Clone, Copy, PartialEq, Eq, Structural)]
pub struct FrameLayout {
    pub tail_args_size: u32,
    pub setup_area_size: u32,
    pub stackslots_size: u32,
    pub outgoing_args_size: u32,
}

impl FrameLayout {
    /// The offsets into the frame fit in an instruction.
    pub open spec fn fits(self) -> bool {
        &&& self.tail_args_size + self.setup_area_size <= i32::MAX
        &&& self.outgoing_args_size <= i32::MAX
    }

    /// The offsets into the frame that assembler instructions refer to.
    pub open spec fn offsets(self) -> KnownOffsets {
        KnownOffsets {
            incoming_arg: (self.tail_args_size + self.setup_area_size) as i32,
            slot_offset: self.outgoing_args_size as i32,
        }
    }

    /// The offsets into the frame that assembler instructions refer to.
    pub fn known_offsets(&self) -> (offsets: KnownOffsets)
        requires
            self.fits(),
        ensures
            offsets == self.offsets(),
    {
        KnownOffsets {
            incoming_arg: (self.tail_args_size + self.setup_area_size) as i32,
            slot_offset: self.outgoing_args_size as i32,
        }
    }
}

/// What changes from instruction to instruction.
#[derive(Debug, Clone, Copy, PartialEq, Eq, Structural)]
pub struct EmitState {
    pub frame_layout: FrameLayout,
    /// The stack map for the next instruction, by its number.
    pub stack_map: Option<u32>,
}

impl EmitState {
    /// The state once an instruction has been emitted.
    pub open spec fn cleared(self) -> EmitState {
        EmitState { stack_map: None, ..self }
    }

    /// Hands the stack map out.
    pub fn take_stack_map(&mut self) -> (map: Option<u32>)
        ensures
            map == old(self).stack_map,
            *final(self) == old(self).cleared(),
    {
        let map = self.stack_map;
        self.stack_map = None;
        map
    }

    /// Forgets what held of one instruction only.
    pub fn clear_post_insn(&mut self)
        ensures
            *final(self) == old(self).cleared(),
    {
        self.stack_map = None;
    }
}

/// Whether the target has an instruction set.
pub open spec fn has_set(flags: IsaFlags, set: InstructionSet) -> bool {
    match set {
        // The target is assumed to have these.
        InstructionSet::SSE | InstructionSet::SSE2 => true,
        InstructionSet::CMPXCHG16b => flags.use_cmpxchg16b,
        InstructionSet::SSE3 => flags.use_sse3,
        InstructionSet::SSSE3 => flags.use_ssse3,
        InstructionSet::SSE41 => flags.use_sse41,
        InstructionSet::SSE42 => flags.use_sse42,
        InstructionSet::Popcnt => flags.use_popcnt,
        InstructionSet::Lzcnt => flags.use_lzcnt,
        InstructionSet::BMI1 => flags.use_bmi1,
        InstructionSet::BMI2 => flags.has_bmi2,
        InstructionSet::FMA => flags.has_fma,
        InstructionSet::AVX => flags.has_avx,
        InstructionSet::AVX2 => flags.has_avx2,
        InstructionSet::AVX512BITALG => flags.has_avx512bitalg,
        InstructionSet::AVX512DQ => flags.has_avx512dq,
        InstructionSet::AVX512F => flags.has_avx512f,
        InstructionSet::AVX512VBMI => flags.has_avx512vbmi,
        InstructionSet::AVX512VL => flags.has_avx512vl,
    }
}

/// Whether the target has an instruction set.
pub fn matches_isa_flags(flags: &IsaFlags, set: InstructionSet) -> (b: bool)
    ensures
        b == has_set(*flags, set),
{
    match set {
        InstructionSet::SSE | InstructionSet::SSE2 => true,
        InstructionSet::CMPXCHG16b => flags.use_cmpxchg16b,
        InstructionSet::SSE3 => flags.use_sse3,
        InstructionSet::SSSE3 => flags.use_ssse3,
        InstructionSet::SSE41 => flags.use_sse41,
        InstructionSet::SSE42 => flags.use_sse42,
        InstructionSet::Popcnt => flags.use_popcnt,
        InstructionSet::Lzcnt => flags.use_lzcnt,
        InstructionSet::BMI1 => flags.use_bmi1,
        InstructionSet::BMI2 => flags.has_bmi2,
        InstructionSet::FMA => flags.has_fma,
        InstructionSet::AVX => flags.has_avx,
        InstructionSet::AVX2 => flags.has_avx2,
        InstructionSet::AVX512BITALG => flags.has_avx512bitalg,
        InstructionSet::AVX512DQ => flags.has_avx512dq,
        InstructionSet::AVX512F => flags.has_avx512f,
        InstructionSet::AVX512VBMI => flags.has_avx512vbmi,
        InstructionSet::AVX512VL => flags.has_avx512vl,
    }
}

/// Whether the target has one of these instruction sets at least, if any is
/// named.
pub open spec fn has_one_of(flags: IsaFlags, sets: Seq<InstructionSet>) -> bool {
    sets.len() == 0 || exists|i: int| 0 <= i < sets.len() && has_set(flags, #[trigger] sets[i])
}

/// Whether the target has an instruction that may be present in any of these
/// instruction sets.
pub fn available(flags: &IsaFlags, sets: &Vec<InstructionSet>) -> (b: bool)
    ensures
        b == has_one_of(*flags, sets@),
{
    if sets.len() == 0 {
        return true;
    }
    for i in 0..sets.len()
        invariant
            forall|j: int| 0 <= j < i ==> !has_set(*flags, #[trigger] sets@[j]),
    {
        if matches_isa_flags(flags, sets[i]) {
            return true;
        }
    }
    false
}

/// A setting of the target turns on the instruction set that it is named after, and no
/// other. The oldest two are always on.
pub proof fn law_each_setting_is_of_its_set(flags: IsaFlags, set: InstructionSet, on: bool)
    ensures
        set is SSE || set is SSE2 ==> has_set(flags, set),
        has_set(IsaFlags { use_cmpxchg16b: on, ..flags }, set) == (if set is CMPXCHG16b {
            on
        } else {
            has_set(flags, set)
        }),
        has_set(IsaFlags { use_sse3: on, ..flags }, set) == (if set is SSE3 {
            on
        } else {
            has_set(flags, set)
        }),
        has_set(IsaFlags { use_ssse3: on, ..flags }, set) == (if set is SSSE3 {
            on
        } else {
            has_set(flags, set)
        }),
        has_set(IsaFlags { use_sse41: on, ..flags }, set) == (if set is SSE41 {
            on
        } else {
            has_set(flags, set)
        }),
        has_set(IsaFlags { use_sse42: on, ..flags }, set) == (if set is SSE42 {
            on
        } else {
            has_set(flags, set)
        }),
        has_set(IsaFlags { use_popcnt: on, ..flags }, set) == (if set is Popcnt {
            on
        } else {
            has_set(flags, set)
        }),
        has_set(IsaFlags { use_lzcnt: on, ..flags }, set) == (if set is Lzcnt {
            on
        } else {
            has_set(flags, set)
        }),
        has_set(IsaFlags { use_bmi1: on, ..flags }, set) == (if set is BMI1 {
            on
        } else {
            has_set(flags, set)
        }),
        has_set(IsaFlags { has_bmi2: on, ..flags }, set) == (if set is BMI2 {
            on
        } else {
            has_set(flags, set)
        }),
        has_set(IsaFlags { has_fma: on, ..flags }, set) == (if set is FMA {
            on
        } else {
            has_set(flags, set)
        }),
        has_set(IsaFlags { has_avx: on, ..flags }, set) == (if set is AVX {
            on
        } else {
            has_set(flags, set)
        }),
        has_set(IsaFlags { has_avx2: on, ..flags }, set) == (if set is AVX2 {
            on
        } else {
            has_set(flags, set)
        }),
        has_set(IsaFlags { has_avx512bitalg: on, ..flags }, set) == (if set is AVX512BITALG {
            on
        } else {
            has_set(flags, set)
        }),
        has_set(IsaFlags { has_avx512dq: on, ..flags }, set) == (if set is AVX512DQ {
            on
        } else {
            has_set(flags, set)
        }),
        has_set(IsaFlags { has_avx512f: on, ..flags }, set) == (if set is AVX512F {
            on
        } else {
            has_set(flags, set)
        }),
        has_set(IsaFlags { has_avx512vbmi: on, ..flags }, set) == (if set is AVX512VBMI {
            on
        } else {
            has_set(flags, set)
        }),
        has_set(IsaFlags { has_avx512vl: on, ..flags }, set) == (if set is AVX512VL {
            on
        } else {
            has_set(flags, set)
        }),
{
}

/// An instruction of no particular set is always there. One that may be in several sets
/// is there if it is in one that the target has, and one more set can only help.
pub proof fn law_one_set_is_enough(
    flags: IsaFlags,
    sets: Seq<InstructionSet>,
    set: InstructionSet,
)
    ensures
        has_one_of(flags, Seq::empty()),
        has_one_of(flags, sets.push(set)) <==> has_set(flags, set) || sets.len() > 0
            && has_one_of(flags, sets),
{
    let all = sets.push(set);
    assert(all[sets.len() as int] == set);
    if sets.len() > 0 && has_one_of(flags, sets) {
        let i = choose|i: int| 0 <= i < sets.len() && has_set(flags, #[trigger] sets[i]);
        assert(all[i] == sets[i]);
    }
    if has_one_of(flags, all) && !has_set(flags, set) {
        let i = choose|i: int| 0 <= i < all.len() && has_set(flags, #[trigger] all[i]);
        assert(all[i] == sets[i]);
    }
}

/// The arguments that came in are above the areas for tail calls and for the setup of
/// the frame, and the slots are above the arguments that go out. The offsets fit if
/// they are positive numbers of 32 bits.
pub proof fn law_offsets_into_the_frame(frame: FrameLayout)
    ensures
        frame.fits() <==> frame.tail_args_size + frame.setup_area_size < 0x8000_0000
            && frame.outgoing_args_size < 0x8000_0000,
        frame.fits() ==> frame.offsets().incoming_arg - frame.tail_args_size
            == frame.setup_area_size,
        frame.fits() ==> frame.offsets().slot_offset == frame.outgoing_args_size,
{
}

} // verus!
