use wasmhost::x64::args::{
    low32_will_sign_extend_to_64, low8_will_sign_extend_to_32, pinned_reg, rax, rbp, rbx, rcx, rdx,
    rsp, Amode, Atomic128RmwSeqOp, AtomicRmwSeqOp, CmpOpcode, ExternalName, FenceKind, Gpr, Label,
    LabelUse, OperandSize, Reg, RegMem, RegMemImm, RelocDistance, Reloc, TrapCode, Type, Xmm, CC,
};
use wasmhost::x64::can_emit::can_emit;
use wasmhost::x64::emit::emit;
use wasmhost::x64::inst::{
    available, matches_isa_flags, CallInfo, ControlContextLayout, EmitInfo, EmitState, FrameLayout,
    Inst, InstructionSet, IsaFlags, ReturnCallInfo, TryCallInfo,
};
use wasmhost::x64::opcodes::{Avx512Opcode, AvxOpcode, LegacyPrefixes, OpcodeMap, SseOpcode};
use wasmhost::x64::sink::{
    AsmInst, AsmOp, AsmSrc, Built, EvexInstruction, KnownOffsets, RegisterOrAmode, Rex, RexBase,
    Sink, Step, VexInstruction,
};

fn flags(on: bool) -> IsaFlags {
    IsaFlags {
        use_cmpxchg16b: on,
        use_sse3: on,
        use_ssse3: on,
        use_sse41: on,
        use_sse42: on,
        use_popcnt: on,
        use_lzcnt: on,
        use_bmi1: on,
        has_bmi2: on,
        has_fma: on,
        has_avx: on,
        has_avx2: on,
        has_avx512bitalg: on,
        has_avx512dq: on,
        has_avx512f: on,
        has_avx512vbmi: on,
        has_avx512vl: on,
    }
}

fn gpr(enc: u8) -> Gpr {
    Gpr { enc }
}

fn xmm(enc: u8) -> Xmm {
    Xmm { enc }
}

fn info() -> EmitInfo {
    EmitInfo {
        isa_flags: flags(true),
        enable_probestack: true,
        is_pic: false,
        preserve_frame_pointers: true,
        control_context_layout: ControlContextLayout {
            stack_pointer_offset: 0,
            frame_pointer_offset: 8,
            ip_offset: 16,
        },
        all_clobbers: vec![
            Reg::Xmm(xmm(0)),
            Reg::Gpr(gpr(0)),
            Reg::Gpr(gpr(1)),
            Reg::Gpr(gpr(2)),
            Reg::Gpr(gpr(3)),
        ],
    }
}

fn state() -> EmitState {
    EmitState {
        frame_layout: FrameLayout {
            tail_args_size: 32,
            setup_area_size: 16,
            stackslots_size: 64,
            outgoing_args_size: 48,
        },
        stack_map: None,
    }
}

const OFFSETS: KnownOffsets = KnownOffsets { incoming_arg: 48, slot_offset: 48 };

fn steps_with(inst: &Inst, info: &EmitInfo, state: &mut EmitState) -> Vec<Step> {
    assert!(can_emit(inst, info, state));
    let mut sink = Sink::new();
    emit(inst, &vec![], &mut sink, info, state);
    sink.into_steps()
}

fn steps(inst: Inst) -> Vec<Step> {
    steps_with(&inst, &info(), &mut state())
}

fn bytes(b: &[u8]) -> Vec<Step> {
    b.iter().map(|x| Step::Put1(*x)).collect()
}

fn rex(base: RexBase) -> Rex {
    Rex { base, always: false, also_8bit: None }
}

fn jcc(code: u8, label: Label) -> Vec<Step> {
    vec![
        Step::UseLabel { ahead: 2, label, usage: LabelUse::JmpRel32 },
        Step::Put1(0x0F),
        Step::Put1(code),
        Step::Put4(0),
    ]
}

fn op_step(op: AsmOp, dst: Reg, src: AsmSrc) -> Step {
    Step::Asm { inst: AsmInst::Op { op, dst, src }, offsets: OFFSETS }
}

fn concat(parts: Vec<Vec<Step>>) -> Vec<Step> {
    parts.into_iter().flatten().collect()
}

fn local(n: u8) -> Label {
    Label::Local(n)
}

#[test]
fn conditions_have_their_encodings() {
    assert_eq!(CC::O.get_enc(), 0);
    assert_eq!(CC::NB.get_enc(), 3);
    assert_eq!(CC::NZ.get_enc(), 5);
    assert_eq!(CC::P.get_enc(), 10);
    assert_eq!(CC::NLE.get_enc(), 15);
    assert_eq!(CC::LE.invert(), CC::NLE);
    assert_eq!(CC::NB.invert(), CC::B);
    assert_eq!(CC::P.invert().invert(), CC::P);
}

#[test]
fn sizes_have_their_widths() {
    assert_eq!(OperandSize::Size8.to_bytes(), 1);
    assert_eq!(OperandSize::Size64.to_bits(), 64);
    assert_eq!(OperandSize::from_ty(Type::I16), OperandSize::Size16);
    assert_eq!(OperandSize::from_ty(Type::I64), OperandSize::Size64);
}

#[test]
fn short_forms_extend_their_sign() {
    assert!(low32_will_sign_extend_to_64(0x7fff_ffff));
    assert!(!low32_will_sign_extend_to_64(0x8000_0000));
    assert!(low32_will_sign_extend_to_64(0xffff_ffff_8000_0000));
    assert!(!low32_will_sign_extend_to_64(0xffff_ffff_7fff_ffff));
    assert!(low8_will_sign_extend_to_32(0x7f));
    assert!(!low8_will_sign_extend_to_32(0x80));
    assert!(low8_will_sign_extend_to_32(0xffff_ff80));
    assert!(!low8_will_sign_extend_to_32(0xffff_ff7f));
}

#[test]
fn one_of_the_instruction_sets_is_asked_for() {
    let off = flags(false);
    assert!(matches_isa_flags(&off, InstructionSet::SSE2));
    assert!(!matches_isa_flags(&off, InstructionSet::AVX));
    assert!(available(&off, &vec![]));
    assert!(available(&off, &vec![InstructionSet::Popcnt, InstructionSet::SSE]));
    assert!(!available(&off, &vec![InstructionSet::Popcnt, InstructionSet::AVX]));
    let mut some = flags(false);
    some.has_avx512vl = true;
    assert!(available(&some, &vec![InstructionSet::AVX512F, InstructionSet::AVX512VL]));
    assert!(!available(&some, &vec![InstructionSet::AVX512F]));
    assert!(available(&flags(true), &vec![InstructionSet::AVX512VL, InstructionSet::AVX512F]));
}

#[test]
fn constants_take_the_shortest_move() {
    let short = steps(Inst::Imm {
        dst_size: OperandSize::Size64,
        simm64: 0xffff_ffff_ffff_ffff,
        dst: gpr(9),
    });
    assert_eq!(
        short,
        vec![
            Step::StdEncEnc {
                prefix: LegacyPrefixes::NoPrefix,
                opcode: 0xC7,
                num_opcodes: 1,
                enc_g: 0,
                enc_e: 9,
                rex: rex(RexBase::SetW),
            },
            Step::Put4(0xffff_ffff),
        ]
    );
    let long = steps(Inst::Imm {
        dst_size: OperandSize::Size64,
        simm64: 0x1_0000_0000,
        dst: gpr(9),
    });
    assert_eq!(long, vec![Step::Put1(0x49), Step::Put1(0xB9), Step::Put8(0x1_0000_0000)]);
    let low = steps(Inst::Imm { dst_size: OperandSize::Size32, simm64: 5, dst: gpr(3) });
    assert_eq!(low, vec![Step::Put1(0xBB), Step::Put4(5)]);
    let high = steps(Inst::Imm { dst_size: OperandSize::Size32, simm64: 5, dst: gpr(11) });
    assert_eq!(high, vec![Step::Put1(0x41), Step::Put1(0xBB), Step::Put4(5)]);
}

#[test]
fn constants_are_moved_to_memory() {
    let at = Amode::imm_reg(4, rbp());
    let word = steps(Inst::MovImmM { size: OperandSize::Size16, simm32: -2, dst: at });
    assert_eq!(
        word,
        vec![
            Step::StdEncMem {
                prefix: LegacyPrefixes::P66,
                opcode: 0xC7,
                num_opcodes: 1,
                enc_g: 0,
                addr: at,
                rex: rex(RexBase::ClearW),
                bytes_at_end: 0,
            },
            Step::PutSimm { size: 2, value: 0xffff_fffe },
        ]
    );
    let byte = steps(Inst::MovImmM { size: OperandSize::Size8, simm32: 1, dst: at });
    assert!(matches!(byte[0], Step::StdEncMem { opcode: 0xC6, .. }));
}

#[test]
fn moves_between_registers() {
    let expected = Step::StdRegReg {
        prefix: LegacyPrefixes::NoPrefix,
        opcode: 0x89,
        num_opcodes: 1,
        reg_g: Reg::Gpr(rsp()),
        reg_e: Reg::Gpr(rbx()),
        rex: rex(RexBase::Size(OperandSize::Size64)),
    };
    assert_eq!(
        steps(Inst::MovRR { size: OperandSize::Size64, src: rsp(), dst: rbx() }),
        vec![expected]
    );
    assert_eq!(steps(Inst::MovFromPReg { src: rsp(), dst: rbx() }), vec![expected]);
    assert_eq!(steps(Inst::MovToPReg { src: rax(), dst: pinned_reg() }).len(), 1);
}

#[test]
fn an_address_may_become_an_addition() {
    let frame = |addr, dst, size| steps(Inst::LoadEffectiveAddress { addr, dst, size });
    // The base is the destination: the constant is added.
    assert_eq!(
        frame(Amode::imm_reg(8, gpr(3)), gpr(3), OperandSize::Size64),
        vec![Step::Emit(Built::AddqMi { dst: gpr(3), imm: 8 })]
    );
    assert_eq!(
        frame(Amode::imm_reg(-1, gpr(3)), gpr(3), OperandSize::Size32),
        vec![op_step(AsmOp::AddlMi, Reg::Gpr(gpr(3)), AsmSrc::Imm(0xffff_ffff))]
    );
    // The index is the destination: the base is added.
    let sum = Amode::ImmRegRegShift { simm32: 0, base: gpr(1), index: gpr(2), shift: 0, flags: 0 };
    assert_eq!(
        frame(sum, gpr(2), OperandSize::Size64),
        vec![op_step(AsmOp::AddqRm, Reg::Gpr(gpr(2)), AsmSrc::Reg(Reg::Gpr(gpr(1))))]
    );
    assert_eq!(
        frame(sum, gpr(1), OperandSize::Size32),
        vec![op_step(AsmOp::AddlRm, Reg::Gpr(gpr(1)), AsmSrc::Reg(Reg::Gpr(gpr(2))))]
    );
    // Neither: the address is computed as such.
    assert_eq!(
        frame(sum, gpr(5), OperandSize::Size64),
        vec![Step::StdRegMem {
            prefix: LegacyPrefixes::NoPrefix,
            opcode: 0x8D,
            num_opcodes: 1,
            reg_g: Reg::Gpr(gpr(5)),
            addr: sum,
            rex: rex(RexBase::SetW),
            bytes_at_end: 0,
        }]
    );
    // A shift rules the addition out.
    let shifted =
        Amode::ImmRegRegShift { simm32: 0, base: gpr(1), index: gpr(2), shift: 1, flags: 0 };
    assert!(matches!(frame(shifted, gpr(1), OperandSize::Size32)[0], Step::StdRegMem { .. }));
}

#[test]
fn stores_by_size() {
    let at = Amode::imm_reg(0, rbp());
    for (size, prefix, opcode) in [
        (OperandSize::Size8, LegacyPrefixes::NoPrefix, 0x88),
        (OperandSize::Size16, LegacyPrefixes::P66, 0x89),
        (OperandSize::Size32, LegacyPrefixes::NoPrefix, 0x89),
        (OperandSize::Size64, LegacyPrefixes::NoPrefix, 0x89),
    ] {
        assert_eq!(
            steps(Inst::MovRM { size, src: gpr(6), dst: at }),
            vec![Step::StdRegMem {
                prefix,
                opcode,
                num_opcodes: 1,
                reg_g: Reg::Gpr(gpr(6)),
                addr: at,
                rex: rex(RexBase::SizeAndReg(size, Reg::Gpr(gpr(6)))),
                bytes_at_end: 0,
            }]
        );
    }
}

#[test]
fn comparisons_with_each_kind_of_operand() {
    let cmp = |size, src2, opcode| steps(Inst::CmpRmiR { size, src1: gpr(1), src2, opcode });
    let reg = Reg::Gpr(gpr(7));
    assert_eq!(
        cmp(OperandSize::Size8, RegMemImm::Reg { reg }, CmpOpcode::Cmp),
        vec![Step::StdRegReg {
            prefix: LegacyPrefixes::NoPrefix,
            opcode: 0x38,
            num_opcodes: 1,
            reg_g: reg,
            reg_e: Reg::Gpr(gpr(1)),
            rex: Rex {
                base: RexBase::SizeAndReg(OperandSize::Size8, Reg::Gpr(gpr(1))),
                always: false,
                also_8bit: Some(reg),
            },
        }]
    );
    let addr = Amode::imm_reg(0, rsp());
    assert!(matches!(
        cmp(OperandSize::Size16, RegMemImm::Mem { addr }, CmpOpcode::Cmp)[0],
        Step::StdRegMem { prefix: LegacyPrefixes::P66, opcode: 0x3B, .. }
    ));
    assert!(matches!(
        cmp(OperandSize::Size32, RegMemImm::Mem { addr }, CmpOpcode::Test)[0],
        Step::StdRegMem { opcode: 0x85, .. }
    ));
    let short = cmp(OperandSize::Size64, RegMemImm::Imm { simm32: 0x7f }, CmpOpcode::Cmp);
    assert!(matches!(short[0], Step::StdEncEnc { opcode: 0x83, enc_g: 7, enc_e: 1, .. }));
    assert_eq!(short[1], Step::PutSimm { size: 1, value: 0x7f });
    let long = cmp(OperandSize::Size64, RegMemImm::Imm { simm32: 0x80 }, CmpOpcode::Cmp);
    assert!(matches!(long[0], Step::StdEncEnc { opcode: 0x81, .. }));
    assert_eq!(long[1], Step::PutSimm { size: 8, value: 0x80 });
    let test = cmp(OperandSize::Size32, RegMemImm::Imm { simm32: 1 }, CmpOpcode::Test);
    assert!(matches!(test[0], Step::StdEncEnc { opcode: 0xF7, enc_g: 0, .. }));
    assert_eq!(test[1], Step::PutSimm { size: 4, value: 1 });
}

#[test]
fn conditions_set_and_move() {
    assert_eq!(
        steps(Inst::Setcc { cc: CC::NZ, dst: gpr(6) }),
        vec![Step::StdEncEnc {
            prefix: LegacyPrefixes::NoPrefix,
            opcode: 0x0f95,
            num_opcodes: 2,
            enc_g: 0,
            enc_e: 6,
            rex: Rex { base: RexBase::ClearW, always: true, also_8bit: None },
        }]
    );
    let reg = Reg::Gpr(gpr(2));
    assert_eq!(
        steps(Inst::Cmove {
            size: OperandSize::Size16,
            cc: CC::L,
            consequent: RegMem::Reg { reg },
            alternative: gpr(1),
            dst: gpr(1),
        }),
        vec![Step::StdRegReg {
            prefix: LegacyPrefixes::P66,
            opcode: 0x0F4C,
            num_opcodes: 2,
            reg_g: Reg::Gpr(gpr(1)),
            reg_e: reg,
            rex: rex(RexBase::Size(OperandSize::Size16)),
        }]
    );
    // A vector register is moved by a jump over the move.
    assert_eq!(
        steps(Inst::XmmCmove {
            ty: Type::F64,
            cc: CC::Z,
            consequent: xmm(1),
            alternative: xmm(2),
            dst: xmm(2),
        }),
        concat(vec![
            vec![Step::GetLabel { label: local(0) }],
            jcc(0x85, local(0)),
            vec![
                Step::Emit(Built::Move {
                    dst: Reg::Xmm(xmm(2)),
                    src: Reg::Xmm(xmm(1)),
                    ty: Type::F64
                }),
                Step::BindLabel { label: local(0) },
            ],
        ])
    );
}

#[test]
fn remainders_by_minus_one_are_zero() {
    let seq = |size, dst| {
        concat(vec![
            vec![
                Step::GetLabel { label: local(0) },
                Step::GetLabel { label: local(1) },
                Step::Emit(Built::CmpRmiR {
                    size,
                    src1: gpr(3),
                    src2: RegMemImm::Imm { simm32: 0xffff_ffff },
                }),
            ],
            jcc(0x85, local(0)),
            vec![
                Step::Emit(Built::Imm { size: OperandSize::Size64, value: 0, dst }),
                Step::Emit(Built::JmpKnown { label: local(1) }),
                Step::BindLabel { label: local(0) },
                Step::Asm {
                    inst: AsmInst::Idiv {
                        size,
                        divisor: gpr(3),
                        trap: TrapCode::IntegerDivisionByZero,
                    },
                    offsets: OFFSETS,
                },
                Step::BindLabel { label: local(1) },
            ],
        ])
    };
    assert_eq!(
        steps(Inst::CheckedSRemSeq {
            size: OperandSize::Size32,
            dividend_lo: rax(),
            dividend_hi: rdx(),
            divisor: gpr(3),
            dst_quotient: rax(),
            dst_remainder: rdx(),
        }),
        seq(OperandSize::Size32, rdx())
    );
    assert_eq!(
        steps(Inst::CheckedSRemSeq8 { dividend: rax(), divisor: gpr(3), dst: rax() }),
        seq(OperandSize::Size8, rax())
    );
}

#[test]
fn the_stack_is_probed_in_whole_areas() {
    assert_eq!(
        steps(Inst::StackProbeLoop { tmp: gpr(11), frame_size: 0x1001, guard_size: 0x1000 }),
        concat(vec![
            vec![
                Step::Emit(Built::Move {
                    dst: Reg::Gpr(gpr(11)),
                    src: Reg::Gpr(rsp()),
                    ty: Type::I64
                }),
                Step::Emit(Built::SubqMi { dst: gpr(11), imm: 0x2000 }),
                Step::GetLabel { label: local(0) },
                Step::BindLabel { label: local(0) },
                Step::Emit(Built::SubqMi { dst: rsp(), imm: 0x1000 }),
                Step::Emit(Built::MovRM {
                    size: OperandSize::Size32,
                    src: rsp(),
                    addr: Amode::imm_reg(0, rsp()),
                }),
                Step::Emit(Built::CmpRmiR {
                    size: OperandSize::Size64,
                    src1: gpr(11),
                    src2: RegMemImm::Reg { reg: Reg::Gpr(rsp()) },
                }),
            ],
            jcc(0x85, local(0)),
            vec![Step::Emit(Built::AddqMi { dst: rsp(), imm: 0x2000 })],
        ])
    );
}

#[test]
fn calls_of_symbols() {
    let name = ExternalName::Numbered(4);
    let mut st = state();
    st.stack_map = Some(77);
    let call = Inst::CallKnown {
        info: CallInfo {
            dest: name,
            defs: 2,
            try_call_info: Some(TryCallInfo {
                exception_dests: 31,
                continuation: Label::Given(6),
            }),
            callee_pop_size: 24,
        },
    };
    assert_eq!(
        steps_with(&call, &info(), &mut st),
        vec![
            Step::PushUserStackMap { ahead: 5, map: 77 },
            Step::Put1(0xE8),
            Step::AddReloc { kind: Reloc::X86CallPCRel4, name, addend: -4 },
            Step::Put4(0),
            Step::AddCallSite { exception_dests: Some(31) },
            Step::Emit(Built::SubqMi { dst: rsp(), imm: 24 }),
            Step::RetvalLoads { defs: 2, stackslots_size: 64 },
            Step::UseLabel { ahead: 1, label: Label::Given(6), usage: LabelUse::JmpRel32 },
            Step::AddUncondBranch { len: 5, label: Label::Given(6) },
            Step::Put1(0xE9),
            Step::Put4(0),
        ]
    );
    // The stack map is used up.
    assert_eq!(st.stack_map, None);
    let plain =
        Inst::CallKnown {
            info: CallInfo { dest: name, defs: 2, try_call_info: None, callee_pop_size: 0 },
        };
    assert_eq!(
        steps_with(&plain, &info(), &mut st),
        vec![
            Step::Put1(0xE8),
            Step::AddReloc { kind: Reloc::X86CallPCRel4, name, addend: -4 },
            Step::Put4(0),
            Step::AddCallSite { exception_dests: None },
            Step::RetvalLoads { defs: 2, stackslots_size: 64 },
        ]
    );
}

#[test]
fn calls_of_computed_addresses() {
    let mut st = state();
    st.stack_map = Some(8);
    let addr = Amode::imm_reg(0, rbx());
    let call = Inst::CallUnknown {
        info: CallInfo {
            dest: RegMem::Mem { addr },
            defs: 2,
            try_call_info: None,
            callee_pop_size: 0,
        },
    };
    assert_eq!(
        steps_with(&call, &info(), &mut st),
        vec![
            Step::StdEncMem {
                prefix: LegacyPrefixes::NoPrefix,
                opcode: 0xFF,
                num_opcodes: 1,
                enc_g: 2,
                addr,
                rex: rex(RexBase::ClearW),
                bytes_at_end: 0,
            },
            Step::PushUserStackMap { ahead: 0, map: 8 },
            Step::AddCallSite { exception_dests: None },
            Step::RetvalLoads { defs: 2, stackslots_size: 64 },
        ]
    );
}

#[test]
fn tail_calls_take_the_frame_down() {
    let name = ExternalName::Numbered(4);
    let known = Inst::ReturnCallKnown {
        info: ReturnCallInfo { dest: name, new_stack_arg_size: 8, tmp: gpr(10) },
    };
    let common = vec![
        Step::ClobberRestore,
        Step::EpilogueFrameRestore,
        op_step(AsmOp::MovqRm, Reg::Gpr(gpr(10)), AsmSrc::Mem(Amode::imm_reg(0, rsp()))),
        Step::Emit(Built::MovRM {
            size: OperandSize::Size64,
            src: gpr(10),
            addr: Amode::imm_reg(24, rsp()),
        }),
        Step::Emit(Built::AddqMi { dst: rsp(), imm: 24 }),
    ];
    assert_eq!(
        steps(known),
        concat(vec![
            common,
            vec![
                Step::Put1(0xE9),
                Step::AddReloc { kind: Reloc::X86CallPCRel4, name, addend: -4 },
                Step::Put4(0),
                Step::AddCallSite { exception_dests: None },
            ],
        ])
    );
    // With an area of the same size nothing moves.
    let unknown = Inst::ReturnCallUnknown {
        info: ReturnCallInfo { dest: gpr(3), new_stack_arg_size: 32, tmp: gpr(10) },
    };
    assert_eq!(
        steps(unknown),
        vec![
            Step::ClobberRestore,
            Step::EpilogueFrameRestore,
            Step::StdEncEnc {
                prefix: LegacyPrefixes::NoPrefix,
                opcode: 0xFF,
                num_opcodes: 1,
                enc_g: 4,
                enc_e: 3,
                rex: rex(RexBase::ClearW),
            },
            Step::AddCallSite { exception_dests: None },
        ]
    );
}

#[test]
fn returns_may_pop_arguments() {
    assert_eq!(steps(Inst::Ret { stack_bytes_to_pop: 0 }), vec![Step::Put1(0xC3)]);
    assert_eq!(
        steps(Inst::Ret { stack_bytes_to_pop: 40 }),
        vec![Step::Put1(0xC2), Step::Put2(40)]
    );
}

#[test]
fn some_instructions_emit_nothing() {
    assert_eq!(steps(Inst::Args), vec![]);
    assert_eq!(steps(Inst::Rets), vec![]);
    assert_eq!(steps(Inst::XmmUninitializedValue), vec![]);
    assert_eq!(steps(Inst::GprUninitializedValue), vec![]);
    assert_eq!(steps(Inst::DummyUse), vec![]);
}

#[test]
fn a_stack_switch_uses_registers_that_are_free() {
    // Of the registers that may change, 0 and 2 hold operands.
    let load = gpr(0);
    let store = gpr(2);
    let tmp1 = gpr(1);
    let tmp2 = gpr(3);
    let exchange = |offset, reg: Gpr| {
        vec![
            op_step(AsmOp::MovqRm, Reg::Gpr(tmp1), AsmSrc::Mem(Amode::imm_reg(offset, load))),
            Step::StdRegMem {
                prefix: LegacyPrefixes::NoPrefix,
                opcode: 0x89,
                num_opcodes: 1,
                reg_g: Reg::Gpr(reg),
                addr: Amode::imm_reg(offset, store),
                rex: rex(RexBase::SizeAndReg(OperandSize::Size64, Reg::Gpr(reg))),
                bytes_at_end: 0,
            },
            Step::StdRegReg {
                prefix: LegacyPrefixes::NoPrefix,
                opcode: 0x89,
                num_opcodes: 1,
                reg_g: Reg::Gpr(tmp1),
                reg_e: Reg::Gpr(reg),
                rex: rex(RexBase::Size(OperandSize::Size64)),
            },
        ]
    };
    assert_eq!(
        steps(Inst::StackSwitchBasic {
            store_context_ptr: store,
            load_context_ptr: load,
            in_payload0: gpr(7),
            out_payload0: gpr(7),
        }),
        concat(vec![
            vec![Step::GetLabel { label: local(0) }],
            exchange(0, rsp()),
            exchange(8, rbp()),
            vec![
                op_step(AsmOp::MovqRm, Reg::Gpr(tmp1), AsmSrc::Mem(Amode::imm_reg(16, load))),
                Step::Emit(Built::Lea {
                    addr: Amode::RipRelative { target: local(0) },
                    dst: tmp2
                }),
                Step::StdRegMem {
                    prefix: LegacyPrefixes::NoPrefix,
                    opcode: 0x89,
                    num_opcodes: 1,
                    reg_g: Reg::Gpr(tmp2),
                    addr: Amode::imm_reg(16, store),
                    rex: rex(RexBase::SizeAndReg(OperandSize::Size64, Reg::Gpr(tmp2))),
                    bytes_at_end: 0,
                },
                Step::StdEncEnc {
                    prefix: LegacyPrefixes::NoPrefix,
                    opcode: 0xFF,
                    num_opcodes: 1,
                    enc_g: 4,
                    enc_e: 1,
                    rex: rex(RexBase::ClearW),
                },
                Step::BindLabel { label: local(0) },
            ],
        ])
    );
}

#[test]
fn jumps() {
    let a = Label::Given(1);
    let b = Label::Given(2);
    let jmp = |label| {
        vec![
            Step::UseLabel { ahead: 1, label, usage: LabelUse::JmpRel32 },
            Step::AddUncondBranch { len: 5, label },
            Step::Put1(0xE9),
            Step::Put4(0),
        ]
    };
    let cond = |code, inverse| {
        vec![
            Step::UseLabel { ahead: 2, label: a, usage: LabelUse::JmpRel32 },
            Step::AddCondBranch { len: 6, label: a, inverted: (0x0F, inverse, 0, 0, 0, 0) },
            Step::Put1(0x0F),
            Step::Put1(code),
            Step::Put4(0),
        ]
    };
    assert_eq!(steps(Inst::JmpKnown { dst: a }), jmp(a));
    assert_eq!(steps(Inst::WinchJmpIf { cc: CC::B, taken: a }), jcc(0x82, a));
    assert_eq!(
        steps(Inst::JmpCond { cc: CC::Z, taken: a, not_taken: b }),
        concat(vec![cond(0x84, 0x85), jmp(b)])
    );
    assert_eq!(
        steps(Inst::JmpCondOr { cc1: CC::NZ, cc2: CC::P, taken: a, not_taken: b }),
        concat(vec![cond(0x85, 0x84), cond(0x8A, 0x8B), jmp(b)])
    );
    assert!(matches!(
        steps(Inst::JmpUnknown { target: RegMem::Reg { reg: Reg::Gpr(gpr(9)) } })[0],
        Step::StdEncEnc { opcode: 0xFF, enc_g: 4, enc_e: 9, .. }
    ));
}

#[test]
fn jump_tables_hold_offsets() {
    let a = Label::Given(1);
    let b = Label::Given(2);
    let d = Label::Given(3);
    let word = |label, value| {
        vec![
            Step::UseLabel { ahead: 0, label, usage: LabelUse::PCRel32 },
            Step::Put4(value),
        ]
    };
    assert_eq!(
        steps(Inst::JmpTableSeq {
            idx: gpr(1),
            tmp1: gpr(2),
            tmp2: gpr(3),
            targets: vec![a, b],
            default_target: d,
        }),
        concat(vec![
            vec![
                Step::GetLabel { label: local(0) },
                Step::Emit(Built::Lea {
                    addr: Amode::RipRelative { target: local(0) },
                    dst: gpr(2)
                }),
                Step::Emit(Built::MovsxLQ {
                    src: RegMem::Mem {
                        addr: Amode::ImmRegRegShift {
                            simm32: 0,
                            base: gpr(2),
                            index: gpr(1),
                            shift: 2,
                            flags: 0,
                        },
                    },
                    dst: gpr(3),
                }),
                op_step(AsmOp::AddqRm, Reg::Gpr(gpr(2)), AsmSrc::Reg(Reg::Gpr(gpr(3)))),
                Step::Emit(Built::JmpUnknown {
                    target: RegMem::Reg { reg: Reg::Gpr(gpr(2)) }
                }),
                Step::BindLabel { label: local(0) },
            ],
            word(a, 0),
            word(b, 4),
            word(d, 8),
        ])
    );
}

#[test]
fn traps_on_conditions() {
    let code = TrapCode::Other(5);
    let defer = Step::DeferTrap { label: local(0), code };
    assert_eq!(
        steps(Inst::TrapIf { cc: CC::Z, trap_code: code }),
        concat(vec![vec![defer], jcc(0x84, local(0))])
    );
    assert_eq!(
        steps(Inst::TrapIfAnd { cc1: CC::Z, cc2: CC::NP, trap_code: code }),
        concat(vec![
            vec![defer, Step::GetLabel { label: local(1) }],
            jcc(0x85, local(1)),
            jcc(0x8B, local(0)),
            vec![Step::BindLabel { label: local(1) }],
        ])
    );
    assert_eq!(
        steps(Inst::TrapIfOr { cc1: CC::Z, cc2: CC::NP, trap_code: code }),
        concat(vec![vec![defer], jcc(0x84, local(0)), jcc(0x8B, local(0))])
    );
    assert_eq!(
        steps(Inst::Ud2 { trap_code: code }),
        vec![Step::AddTrap { code }, Step::PutTrapOpcode]
    );
}

#[test]
fn vector_operations_in_place() {
    let reg = Reg::Xmm(xmm(9));
    assert_eq!(
        steps(Inst::XmmUnaryRmR {
            op: SseOpcode::Pabsw,
            src: RegMem::Reg { reg },
            dst: xmm(1)
        }),
        vec![Step::StdRegReg {
            prefix: LegacyPrefixes::P66,
            opcode: 0x0F381D,
            num_opcodes: 3,
            reg_g: Reg::Xmm(xmm(1)),
            reg_e: reg,
            rex: rex(RexBase::ClearW),
        }]
    );
    let addr = Amode::imm_reg(16, rsp());
    let packed = vec![Step::StdRegMem {
        prefix: LegacyPrefixes::P66,
        opcode: 0x0F382B,
        num_opcodes: 3,
        reg_g: Reg::Xmm(xmm(1)),
        addr,
        rex: rex(RexBase::ClearW),
        bytes_at_end: 0,
    }];
    let src2 = RegMem::Mem { addr };
    assert_eq!(
        steps(Inst::XmmRmR { op: SseOpcode::Packusdw, src1: xmm(1), src2, dst: xmm(1) }),
        packed
    );
    assert_eq!(
        steps(Inst::XmmRmRUnaligned { op: SseOpcode::Packusdw, src1: xmm(1), src2, dst: xmm(1) }),
        packed
    );
    // The immediate behind the address is counted.
    let imm = steps(Inst::XmmRmRImm {
        op: SseOpcode::Insertps,
        src1: Reg::Xmm(xmm(1)),
        src2,
        dst: Reg::Xmm(xmm(1)),
        imm: 0x1f,
        size: OperandSize::Size32,
    });
    assert!(matches!(imm[0], Step::StdRegMem { opcode: 0x0F3A21, bytes_at_end: 1, .. }));
    assert_eq!(imm[1], Step::Put1(0x1f));
    assert!(matches!(
        steps(Inst::XmmCmpRmR { op: SseOpcode::Ptest, src1: xmm(1), src2 })[0],
        Step::StdRegMem { opcode: 0x0F3817, num_opcodes: 3, .. }
    ));
}

fn vex(
    prefix: LegacyPrefixes,
    map: OpcodeMap,
    w: Option<bool>,
    opcode: u8,
    reg: u8,
    vvvv: Option<u8>,
    rm: RegisterOrAmode,
    imm: Option<u8>,
) -> Vec<Step> {
    vec![Step::Vex(VexInstruction {
        prefix,
        map,
        w,
        opcode,
        opcode_ext: None,
        reg: Some(reg),
        vvvv,
        rm,
        imm,
    })]
}

#[test]
fn commutative_operands_are_swapped_to_save_a_byte() {
    let add = |commutative, src1, src2| {
        steps(Inst::XmmRmiRVex {
            op: AvxOpcode::Vaddps,
            commutative,
            src1: xmm(src1),
            src2: RegMemImm::Reg { reg: Reg::Xmm(xmm(src2)) },
            dst: xmm(0),
        })
    };
    let plain = |first, second| {
        vex(
            LegacyPrefixes::NoPrefix,
            OpcodeMap::M0F,
            None,
            0x58,
            0,
            Some(first),
            RegisterOrAmode::Register(second),
            None,
        )
    };
    assert_eq!(add(true, 3, 12), plain(12, 3));
    assert_eq!(add(false, 3, 12), plain(3, 12));
    assert_eq!(add(true, 9, 12), plain(9, 12));
    assert_eq!(add(true, 3, 4), plain(3, 4));
}

#[test]
fn vector_shifts_by_an_immediate_keep_the_state() {
    let mut st = state();
    st.stack_map = Some(1);
    let shift = Inst::XmmRmiRVex {
        op: AvxOpcode::Vpsrad,
        commutative: false,
        src1: xmm(4),
        src2: RegMemImm::Imm { simm32: 7 },
        dst: xmm(5),
    };
    assert_eq!(
        steps_with(&shift, &info(), &mut st),
        vec![Step::Vex(VexInstruction {
            prefix: LegacyPrefixes::P66,
            map: OpcodeMap::M0F,
            w: None,
            opcode: 0x72,
            opcode_ext: Some(4),
            reg: None,
            vvvv: Some(5),
            rm: RegisterOrAmode::Register(4),
            imm: Some(7),
        })]
    );
    assert_eq!(st.stack_map, Some(1));
    steps_with(&Inst::Hlt, &info(), &mut st);
    assert_eq!(st.stack_map, None);
}

#[test]
fn vector_operations_with_a_destination() {
    let addr = Amode::imm_reg(0, rbx());
    let mem = RegMem::Mem { addr };
    let at = RegisterOrAmode::Amode(addr);
    assert_eq!(
        steps(Inst::XmmRmRImmVex {
            op: AvxOpcode::Vpalignr,
            src1: xmm(1),
            src2: mem,
            dst: xmm(2),
            imm: 3
        }),
        vex(
            LegacyPrefixes::P66,
            OpcodeMap::M0F3A,
            Some(false),
            0x0F,
            2,
            Some(1),
            at,
            Some(3)
        )
    );
    assert_eq!(
        steps(Inst::XmmRmRVex3 {
            op: AvxOpcode::Vfnmsub213pd,
            src1: xmm(2),
            src2: xmm(1),
            src3: mem,
            dst: xmm(2)
        }),
        vex(LegacyPrefixes::P66, OpcodeMap::M0F38, Some(true), 0xAE, 2, Some(1), at, None)
    );
    assert_eq!(
        steps(Inst::XmmUnaryRmRVex { op: AvxOpcode::Vmovss, src: mem, dst: xmm(2) }),
        vex(LegacyPrefixes::PF3, OpcodeMap::M0F, None, 0x10, 2, None, at, None)
    );
    assert_eq!(
        steps(Inst::XmmMovRMVex { op: AvxOpcode::Vmovsd, src: xmm(2), dst: addr }),
        vex(LegacyPrefixes::PF2, OpcodeMap::M0F, None, 0x11, 2, None, at, None)
    );
    assert_eq!(
        steps(Inst::XmmMovRMImmVex {
            op: AvxOpcode::Vpextrq,
            src: xmm(2),
            dst: addr,
            imm: 1
        }),
        vex(LegacyPrefixes::P66, OpcodeMap::M0F3A, Some(true), 0x16, 2, None, at, Some(1))
    );
    assert_eq!(
        steps(Inst::XmmToGprImmVex {
            op: AvxOpcode::Vpextrb,
            src: xmm(2),
            dst: gpr(3),
            imm: 1
        }),
        vex(
            LegacyPrefixes::P66,
            OpcodeMap::M0F3A,
            Some(false),
            0x14,
            2,
            None,
            RegisterOrAmode::Register(3),
            Some(1)
        )
    );
    assert_eq!(
        steps(Inst::XmmCmpRmRVex { op: AvxOpcode::Vptest, src1: xmm(2), src2: mem }),
        vex(LegacyPrefixes::P66, OpcodeMap::M0F38, None, 0x17, 2, None, at, None)
    );
}

#[test]
fn vector_operations_with_the_longest_prefix() {
    let src = RegMem::Reg { reg: Reg::Xmm(xmm(20)) };
    let rm = RegisterOrAmode::Register(20);
    assert_eq!(
        steps(Inst::XmmUnaryRmREvex { op: Avx512Opcode::Vpabsq, src, dst: xmm(2) }),
        vec![Step::Evex(EvexInstruction {
            prefix: LegacyPrefixes::P66,
            map: OpcodeMap::M0F38,
            w: true,
            opcode: 0x1f,
            tuple_type_of: Avx512Opcode::Vpabsq,
            reg: 2,
            vvvvv: None,
            rm,
            imm: None,
        })]
    );
    assert_eq!(
        steps(Inst::XmmUnaryRmRImmEvex {
            op: Avx512Opcode::VpsraqImm,
            src,
            dst: xmm(2),
            imm: 63
        }),
        vec![Step::Evex(EvexInstruction {
            prefix: LegacyPrefixes::P66,
            map: OpcodeMap::M0F,
            w: true,
            opcode: 0x72,
            tuple_type_of: Avx512Opcode::VpsraqImm,
            reg: 4,
            vvvvv: Some(2),
            rm,
            imm: Some(63),
        })]
    );
    let two = |op, opcode, map, w| {
        vec![Step::Evex(EvexInstruction {
            prefix: LegacyPrefixes::P66,
            map,
            w,
            opcode,
            tuple_type_of: op,
            reg: 2,
            vvvvv: Some(1),
            rm,
            imm: None,
        })]
    };
    assert_eq!(
        steps(Inst::XmmRmREvex {
            op: Avx512Opcode::Vpsraq,
            src1: xmm(1),
            src2: src,
            dst: xmm(2)
        }),
        two(Avx512Opcode::Vpsraq, 0xE2, OpcodeMap::M0F, true)
    );
    assert_eq!(
        steps(Inst::XmmRmREvex3 {
            op: Avx512Opcode::Vpermi2b,
            src1: xmm(2),
            src2: xmm(1),
            src3: src,
            dst: xmm(2)
        }),
        two(Avx512Opcode::Vpermi2b, 0x75, OpcodeMap::M0F38, false)
    );
}

#[test]
fn minima_and_maxima() {
    let dst = Reg::Xmm(xmm(1));
    let lhs = AsmSrc::Reg(Reg::Xmm(xmm(2)));
    let seq = |compare, merge, sum, pick| {
        concat(vec![
            vec![
                Step::GetLabel { label: local(0) },
                Step::GetLabel { label: local(1) },
                Step::GetLabel { label: local(2) },
                Step::Emit(Built::XmmCmpRmR {
                    op: compare,
                    src1: dst,
                    src2: RegMem::Reg { reg: Reg::Xmm(xmm(2)) },
                }),
            ],
            jcc(0x85, local(2)),
            jcc(0x8A, local(1)),
            vec![
                op_step(merge, dst, lhs),
                Step::Emit(Built::JmpKnown { label: local(0) }),
                Step::BindLabel { label: local(1) },
                op_step(sum, dst, lhs),
            ],
            jcc(0x8A, local(0)),
            vec![
                Step::BindLabel { label: local(2) },
                op_step(pick, dst, lhs),
                Step::BindLabel { label: local(0) },
            ],
        ])
    };
    let emit = |size, is_min| {
        steps(Inst::XmmMinMaxSeq { size, is_min, lhs: xmm(2), rhs: xmm(1), dst: xmm(1) })
    };
    assert_eq!(
        emit(OperandSize::Size32, true),
        seq(SseOpcode::Ucomiss, AsmOp::OrpsA, AsmOp::AddssA, AsmOp::MinssA)
    );
    assert_eq!(
        emit(OperandSize::Size64, false),
        seq(SseOpcode::Ucomisd, AsmOp::AndpdA, AsmOp::AddsdA, AsmOp::MaxsdA)
    );
}

#[test]
fn unsigned_integers_become_floats() {
    let dst = Reg::Xmm(xmm(1));
    assert_eq!(
        steps(Inst::CvtUint64ToFloatSeq {
            dst_size: OperandSize::Size64,
            src: gpr(3),
            dst: xmm(1),
            tmp_gpr1: gpr(8),
            tmp_gpr2: gpr(9),
        }),
        concat(vec![
            vec![
                Step::GetLabel { label: local(0) },
                Step::GetLabel { label: local(1) },
                Step::Emit(Built::CmpRmiR {
                    size: OperandSize::Size64,
                    src1: gpr(3),
                    src2: RegMemImm::Imm { simm32: 0 },
                }),
            ],
            jcc(0x8C, local(0)),
            vec![
                op_step(AsmOp::Cvtsi2sdqA, dst, AsmSrc::Reg(Reg::Gpr(gpr(3)))),
                Step::Emit(Built::JmpKnown { label: local(1) }),
                Step::BindLabel { label: local(0) },
                Step::Emit(Built::Move {
                    dst: Reg::Gpr(gpr(8)),
                    src: Reg::Gpr(gpr(3)),
                    ty: Type::I64
                }),
                op_step(AsmOp::ShrqMi, Reg::Gpr(gpr(8)), AsmSrc::Imm(1)),
                Step::Emit(Built::Move {
                    dst: Reg::Gpr(gpr(9)),
                    src: Reg::Gpr(gpr(3)),
                    ty: Type::I64
                }),
                op_step(AsmOp::AndqMiSxb, Reg::Gpr(gpr(9)), AsmSrc::Imm(1)),
                op_step(AsmOp::OrqRm, Reg::Gpr(gpr(9)), AsmSrc::Reg(Reg::Gpr(gpr(8)))),
                op_step(AsmOp::Cvtsi2sdqA, dst, AsmSrc::Reg(Reg::Gpr(gpr(9)))),
                op_step(AsmOp::AddsdA, dst, AsmSrc::Reg(dst)),
                Step::BindLabel { label: local(1) },
            ],
        ])
    );
}

/// The constants that a sequence moves into registers.
fn constants(steps: &[Step]) -> Vec<u64> {
    steps
        .iter()
        .filter_map(|s| match s {
            Step::Emit(Built::Imm { value, .. }) => Some(*value),
            _ => None,
        })
        .collect()
}

fn traps(steps: &[Step]) -> Vec<(CC, TrapCode)> {
    steps
        .iter()
        .filter_map(|s| match s {
            Step::Emit(Built::TrapIf { cc, code }) => Some((*cc, *code)),
            _ => None,
        })
        .collect()
}

fn to_sint(src_size: OperandSize, dst_size: OperandSize, is_saturating: bool) -> Vec<Step> {
    steps(Inst::CvtFloatToSintSeq {
        src_size,
        dst_size,
        is_saturating,
        src: xmm(1),
        dst: gpr(2),
        tmp_gpr: gpr(3),
        tmp_xmm: xmm(4),
    })
}

#[test]
fn floats_are_compared_with_the_least_integer() {
    let s32 = OperandSize::Size32;
    let s64 = OperandSize::Size64;
    assert_eq!(constants(&to_sint(s32, s32, false)), vec![(-2147483648.0f32).to_bits() as u64]);
    assert_eq!(
        constants(&to_sint(s32, s64, false)),
        vec![(-9223372036854775808.0f32).to_bits() as u64]
    );
    assert_eq!(constants(&to_sint(s64, s32, false)), vec![(-2147483649.0f64).to_bits()]);
    assert_eq!(constants(&to_sint(s64, s64, false)), vec![(-9223372036854775808.0f64).to_bits()]);
    let invalid = (CC::P, TrapCode::BadConversionToInteger);
    let positive = (CC::B, TrapCode::IntegerOverflow);
    assert_eq!(
        traps(&to_sint(s64, s32, false)),
        vec![invalid, (CC::BE, TrapCode::IntegerOverflow), positive]
    );
    assert_eq!(
        traps(&to_sint(s32, s32, false)),
        vec![invalid, (CC::B, TrapCode::IntegerOverflow), positive]
    );
}

#[test]
fn saturating_conversions_do_not_trap() {
    let s32 = OperandSize::Size32;
    let s64 = OperandSize::Size64;
    assert_eq!(traps(&to_sint(s64, s32, true)), vec![]);
    assert_eq!(constants(&to_sint(s64, s32, true)), vec![0x7fff_ffff]);
    assert_eq!(constants(&to_sint(s32, s64, true)), vec![0x7fff_ffff_ffff_ffff]);
    let src = Reg::Xmm(xmm(1));
    let tmp = Reg::Xmm(xmm(4));
    let dst = Reg::Gpr(gpr(2));
    let compare = |a, reg| {
        Step::Emit(Built::XmmCmpRmR { op: SseOpcode::Ucomisd, src1: a, src2: RegMem::Reg { reg } })
    };
    assert_eq!(
        to_sint(s64, s32, true),
        concat(vec![
            vec![
                Step::GetLabel { label: local(0) },
                op_step(AsmOp::Cvttsd2siA, dst, AsmSrc::Reg(src)),
                Step::Emit(Built::CmpRmiR {
                    size: s32,
                    src1: gpr(2),
                    src2: RegMemImm::Imm { simm32: 1 }
                }),
            ],
            jcc(0x81, local(0)),
            vec![compare(src, src), Step::GetLabel { label: local(1) }],
            jcc(0x8B, local(1)),
            vec![
                op_step(AsmOp::XorlRm, dst, AsmSrc::Reg(dst)),
                Step::Emit(Built::JmpKnown { label: local(0) }),
                Step::BindLabel { label: local(1) },
                op_step(AsmOp::XorpdA, tmp, AsmSrc::Reg(tmp)),
                compare(tmp, src),
            ],
            jcc(0x83, local(0)),
            vec![
                Step::Emit(Built::Imm { size: s32, value: 0x7fff_ffff, dst: gpr(2) }),
                Step::BindLabel { label: local(0) },
            ],
        ])
    );
}

fn to_uint(src_size: OperandSize, dst_size: OperandSize, is_saturating: bool) -> Vec<Step> {
    steps(Inst::CvtFloatToUintSeq {
        src_size,
        dst_size,
        is_saturating,
        src: xmm(1),
        dst: gpr(2),
        tmp_gpr: gpr(3),
        tmp_xmm: xmm(4),
        tmp_xmm2: xmm(5),
    })
}

#[test]
fn large_floats_are_converted_by_halves() {
    let s32 = OperandSize::Size32;
    let s64 = OperandSize::Size64;
    assert_eq!(constants(&to_uint(s32, s32, false)), vec![2147483648.0f32.to_bits() as u64]);
    assert_eq!(
        constants(&to_uint(s32, s64, false)),
        vec![9223372036854775808.0f32.to_bits() as u64, 1 << 63]
    );
    assert_eq!(
        constants(&to_uint(s64, s32, true)),
        vec![2147483648.0f64.to_bits(), 0xffff_ffff]
    );
    assert_eq!(
        constants(&to_uint(s64, s64, true)),
        vec![9223372036854775808.0f64.to_bits(), u64::MAX, 1 << 63]
    );
    let src = Reg::Xmm(xmm(1));
    let tmp = Reg::Xmm(xmm(4));
    let tmp2 = Reg::Xmm(xmm(5));
    let dst = Reg::Gpr(gpr(2));
    let zero = Step::Emit(Built::CmpRmiR {
        size: s32,
        src1: gpr(2),
        src2: RegMemImm::Imm { simm32: 0 },
    });
    assert_eq!(
        to_uint(s32, s32, false),
        concat(vec![
            vec![
                Step::GetLabel { label: local(0) },
                Step::Emit(Built::Imm { size: s32, value: 0x4F00_0000, dst: gpr(3) }),
                op_step(AsmOp::MovdA, tmp, AsmSrc::Reg(Reg::Gpr(gpr(3)))),
                Step::Emit(Built::XmmCmpRmR {
                    op: SseOpcode::Ucomiss,
                    src1: src,
                    src2: RegMem::Reg { reg: tmp }
                }),
                Step::GetLabel { label: local(1) },
            ],
            jcc(0x83, local(1)),
            vec![
                Step::Emit(Built::TrapIf {
                    cc: CC::P,
                    code: TrapCode::BadConversionToInteger
                }),
                op_step(AsmOp::Cvttss2siA, dst, AsmSrc::Reg(src)),
                zero,
            ],
            jcc(0x8D, local(0)),
            vec![
                Step::Emit(Built::Trap { code: TrapCode::IntegerOverflow }),
                Step::BindLabel { label: local(1) },
                Step::Emit(Built::Move { dst: tmp2, src, ty: Type::F64 }),
                op_step(AsmOp::SubssA, tmp2, AsmSrc::Reg(tmp)),
                op_step(AsmOp::Cvttss2siA, dst, AsmSrc::Reg(tmp2)),
                zero,
                Step::Emit(Built::TrapIf { cc: CC::L, code: TrapCode::IntegerOverflow }),
                op_step(AsmOp::AddlMi, dst, AsmSrc::Imm(0x8000_0000)),
                Step::BindLabel { label: local(0) },
            ],
        ])
    );
    // Each label of the longest form is obtained once and bound once.
    let long = to_uint(s64, s64, true);
    for n in 0..4 {
        let label = local(n);
        assert_eq!(long.iter().filter(|s| **s == Step::GetLabel { label }).count(), 1);
        assert_eq!(long.iter().filter(|s| **s == Step::BindLabel { label }).count(), 1);
    }
}

#[test]
fn addresses_of_symbols() {
    let name = ExternalName::Numbered(3);
    let load = |is_pic, offset, distance| {
        let mut info = info();
        info.is_pic = is_pic;
        steps_with(
            &Inst::LoadExtName { dst: gpr(10), name, offset, distance },
            &info,
            &mut state(),
        )
    };
    let got = vec![
        Step::Put1(0x4C),
        Step::Put1(0x8B),
        Step::Put1(0x15),
        Step::AddReloc { kind: Reloc::X86GOTPCRel4, name, addend: -4 },
        Step::Put4(0),
    ];
    assert_eq!(load(true, 0, RelocDistance::Far), got);
    assert_eq!(
        load(true, 16, RelocDistance::Near),
        concat(vec![
            got.clone(),
            vec![Step::Put1(0x49), Step::Put1(0x81), Step::Put1(0xc2), Step::Put4(16)],
        ])
    );
    assert_eq!(
        load(true, -16, RelocDistance::Near),
        concat(vec![
            got,
            vec![Step::Put1(0x49), Step::Put1(0x81), Step::Put1(0xea), Step::Put4(16)],
        ])
    );
    assert_eq!(
        load(false, 16, RelocDistance::Near),
        vec![
            Step::Put1(0x4C),
            Step::Put1(0x8D),
            Step::Put1(0x15),
            Step::AddReloc { kind: Reloc::X86CallPCRel4, name, addend: -4 },
            Step::Put4(0),
        ]
    );
    assert_eq!(
        load(false, 16, RelocDistance::Far),
        vec![
            Step::Put1(0x49),
            Step::Put1(0xBA),
            Step::AddReloc { kind: Reloc::Abs8, name, addend: 16 },
            Step::Put8(0),
        ]
    );
}

#[test]
fn atomic_exchanges() {
    let mem = Amode::imm_reg(0, gpr(7));
    let step = |prefix, opcode, num_opcodes, size, reg: Gpr| {
        vec![Step::StdRegMem {
            prefix,
            opcode,
            num_opcodes,
            reg_g: Reg::Gpr(reg),
            addr: mem,
            rex: rex(RexBase::SizeAndReg(size, Reg::Gpr(reg))),
            bytes_at_end: 0,
        }]
    };
    let cmpxchg = |ty| {
        steps(Inst::LockCmpxchg {
            ty,
            replacement: gpr(3),
            expected: rax(),
            mem,
            dst_old: rax(),
        })
    };
    assert_eq!(
        cmpxchg(Type::I8),
        step(LegacyPrefixes::PF0, 0x0FB0, 2, OperandSize::Size8, gpr(3))
    );
    assert_eq!(
        cmpxchg(Type::I16),
        step(LegacyPrefixes::P66F0, 0x0FB1, 2, OperandSize::Size16, gpr(3))
    );
    assert_eq!(
        steps(Inst::LockXadd {
            size: OperandSize::Size64,
            operand: gpr(3),
            mem,
            dst_old: gpr(3)
        }),
        step(LegacyPrefixes::PF0, 0x0FC1, 2, OperandSize::Size64, gpr(3))
    );
    assert_eq!(
        steps(Inst::Xchg { size: OperandSize::Size8, operand: gpr(3), mem, dst_old: gpr(3) }),
        step(LegacyPrefixes::NoPrefix, 0x86, 1, OperandSize::Size8, gpr(3))
    );
    assert_eq!(
        steps(Inst::LockCmpxchg16b {
            replacement_low: rbx(),
            replacement_high: rcx(),
            expected_low: rax(),
            expected_high: rdx(),
            mem,
            dst_old_low: rax(),
            dst_old_high: rdx(),
        }),
        vec![Step::StdEncMem {
            prefix: LegacyPrefixes::PF0,
            opcode: 0x0FC7,
            num_opcodes: 2,
            enc_g: 1,
            addr: mem,
            rex: rex(RexBase::SetW),
            bytes_at_end: 0,
        }]
    );
}

#[test]
fn atomic_updates_are_retried() {
    let mem = Amode::imm_reg(0, gpr(7));
    let temp = Reg::Gpr(gpr(4));
    let operand = Reg::Gpr(gpr(5));
    let update = |op, ty| {
        steps(Inst::AtomicRmwSeq {
            ty,
            op,
            mem,
            operand: gpr(5),
            temp: gpr(4),
            dst_old: rax(),
        })
    };
    let around = |ty, middle: Vec<Step>, prefix, size| {
        concat(vec![
            vec![
                Step::GetLabel { label: local(0) },
                Step::Emit(Built::Load { ty, addr: mem, plus: 0, dst: rax() }),
                Step::BindLabel { label: local(0) },
                Step::Emit(Built::MovRR {
                    size: OperandSize::Size64,
                    src: rax(),
                    dst: gpr(4)
                }),
            ],
            middle,
            vec![Step::StdRegMem {
                prefix,
                opcode: 0x0FB1,
                num_opcodes: 2,
                reg_g: temp,
                addr: mem,
                rex: rex(RexBase::SizeAndReg(size, temp)),
                bytes_at_end: 0,
            }],
            jcc(0x85, local(0)),
        ])
    };
    assert_eq!(
        update(AtomicRmwSeqOp::Nand, Type::I32),
        around(
            Type::I32,
            vec![
                op_step(AsmOp::AndqRm, temp, AsmSrc::Reg(operand)),
                op_step(AsmOp::NotqM, temp, AsmSrc::Nothing),
            ],
            LegacyPrefixes::PF0,
            OperandSize::Size32
        )
    );
    assert_eq!(
        update(AtomicRmwSeqOp::Smax, Type::I16),
        around(
            Type::I16,
            vec![
                Step::Emit(Built::CmpRmiR {
                    size: OperandSize::Size16,
                    src1: gpr(5),
                    src2: RegMemImm::Reg { reg: temp },
                }),
                Step::Emit(Built::Cmove {
                    size: OperandSize::Size64,
                    cc: CC::NL,
                    consequent: RegMem::Reg { reg: operand },
                    dst: gpr(4),
                }),
            ],
            LegacyPrefixes::P66F0,
            OperandSize::Size16
        )
    );
    assert_eq!(
        update(AtomicRmwSeqOp::Xor, Type::I64),
        around(
            Type::I64,
            vec![op_step(AsmOp::XorqRm, temp, AsmSrc::Reg(operand))],
            LegacyPrefixes::PF0,
            OperandSize::Size64
        )
    );
}

#[test]
fn atomic_updates_of_sixteen_bytes() {
    let mem = Amode::imm_reg(0, gpr(7));
    let exchange = Step::StdEncMem {
        prefix: LegacyPrefixes::PF0,
        opcode: 0x0FC7,
        num_opcodes: 2,
        enc_g: 1,
        addr: mem,
        rex: rex(RexBase::SetW),
        bytes_at_end: 0,
    };
    let loads = vec![
        Step::GetLabel { label: local(0) },
        Step::Emit(Built::Load { ty: Type::I64, addr: mem, plus: 0, dst: rax() }),
        Step::Emit(Built::Load { ty: Type::I64, addr: mem, plus: 8, dst: rdx() }),
        Step::BindLabel { label: local(0) },
    ];
    let mov = |src, dst| Step::Emit(Built::MovRR { size: OperandSize::Size64, src, dst });
    let update = |op| {
        steps(Inst::Atomic128RmwSeq {
            op,
            mem,
            operand_low: gpr(8),
            operand_high: gpr(9),
            temp_low: rbx(),
            temp_high: rcx(),
            dst_old_low: rax(),
            dst_old_high: rdx(),
        })
    };
    let around = |middle: Vec<Step>| {
        concat(vec![
            loads.clone(),
            vec![mov(rax(), rbx()), mov(rdx(), rcx())],
            middle,
            vec![exchange],
            jcc(0x85, local(0)),
        ])
    };
    let low = Reg::Gpr(rbx());
    let high = Reg::Gpr(rcx());
    let from_low = AsmSrc::Reg(Reg::Gpr(gpr(8)));
    let from_high = AsmSrc::Reg(Reg::Gpr(gpr(9)));
    assert_eq!(
        update(Atomic128RmwSeqOp::Sub),
        around(vec![op_step(AsmOp::SubqRm, low, from_low), op_step(AsmOp::SbbqRm, high, from_high)])
    );
    let pick = |src, dst| {
        Step::Emit(Built::Cmove {
            size: OperandSize::Size64,
            cc: CC::NB,
            consequent: RegMem::Reg { reg: Reg::Gpr(src) },
            dst,
        })
    };
    assert_eq!(
        update(Atomic128RmwSeqOp::Umin),
        around(vec![
            Step::Emit(Built::CmpRmiR {
                size: OperandSize::Size64,
                src1: rbx(),
                src2: RegMemImm::Reg { reg: Reg::Gpr(gpr(8)) },
            }),
            op_step(AsmOp::SbbqRm, high, from_high),
            mov(rdx(), rcx()),
            pick(gpr(8), rbx()),
            pick(gpr(9), rcx()),
        ])
    );
    assert_eq!(
        steps(Inst::Atomic128XchgSeq {
            mem,
            operand_low: rbx(),
            operand_high: rcx(),
            dst_old_low: rax(),
            dst_old_high: rdx(),
        }),
        concat(vec![loads.clone(), vec![exchange], jcc(0x85, local(0))])
    );
}

#[test]
fn fences_and_stops() {
    assert_eq!(steps(Inst::Fence { kind: FenceKind::MFence }), bytes(&[0x0F, 0xAE, 0xF0]));
    assert_eq!(steps(Inst::Fence { kind: FenceKind::LFence }), bytes(&[0x0F, 0xAE, 0xE8]));
    assert_eq!(steps(Inst::Fence { kind: FenceKind::SFence }), bytes(&[0x0F, 0xAE, 0xF8]));
    assert_eq!(steps(Inst::Hlt), bytes(&[0xcc]));
}

#[test]
fn nops_have_their_length() {
    for len in 0..=255u8 {
        assert_eq!(steps(Inst::Nop { len }).len(), len as usize);
    }
    assert_eq!(
        steps(Inst::Nop { len: 12 }),
        bytes(&[0x66, 0x0F, 0x1F, 0x84, 0, 0, 0, 0, 0, 0x0F, 0x1F, 0])
    );
    assert_eq!(steps(Inst::Nop { len: 6 }), bytes(&[0x66, 0x0F, 0x1F, 0x44, 0, 0]));
}

#[test]
fn thread_local_symbols() {
    let symbol = ExternalName::Numbered(2);
    assert_eq!(
        steps(Inst::ElfTlsGetAddr { symbol, dst: rax() }),
        concat(vec![
            bytes(&[0x66, 0x48, 0x8d, 0x3d]),
            vec![
                Step::AddReloc { kind: Reloc::ElfX86_64TlsGd, name: symbol, addend: -4 },
                Step::Put4(0),
            ],
            bytes(&[0x66, 0x66, 0x48, 0xe8]),
            vec![
                Step::AddReloc {
                    kind: Reloc::X86CallPLTRel4,
                    name: ExternalName::ElfTlsGetAddr,
                    addend: -4,
                },
                Step::Put4(0),
            ],
        ])
    );
    assert_eq!(
        steps(Inst::MachOTlsGetAddr { symbol, dst: rax() }),
        concat(vec![
            bytes(&[0x48, 0x8b, 0x3d]),
            vec![
                Step::AddReloc { kind: Reloc::MachOX86_64Tlv, name: symbol, addend: -4 },
                Step::Put4(0),
            ],
            bytes(&[0xff, 0x17]),
        ])
    );
    assert_eq!(
        steps(Inst::CoffTlsGetAddr { symbol, dst: rax(), tmp: rcx() }),
        concat(vec![
            bytes(&[0x8b, 0x05]),
            vec![
                Step::AddReloc {
                    kind: Reloc::X86PCRel4,
                    name: ExternalName::CoffTlsIndex,
                    addend: -4,
                },
                Step::Put4(0),
            ],
            bytes(&[0x65, 0x48, 0x8b, 0x0c, 0x25, 0x58, 0, 0, 0, 0x48, 0x8b, 0x04, 0xc1]),
            bytes(&[0x48, 0x8d, 0x80]),
            vec![
                Step::AddReloc { kind: Reloc::X86SecRel, name: symbol, addend: 0 },
                Step::Put4(0),
            ],
        ])
    );
}

#[test]
fn what_is_given_is_handed_on() {
    assert_eq!(steps(Inst::Unwind { inst: 9 }), vec![Step::AddUnwind { info: 9 }]);
    assert_eq!(
        steps(Inst::External { inst: 5 }),
        vec![Step::Asm { inst: AsmInst::Given(5), offsets: OFFSETS }]
    );
}

#[test]
fn steps_are_added_behind_others() {
    let mut sink = Sink::new();
    let mut st = state();
    emit(&Inst::Hlt, &vec![InstructionSet::SSE2], &mut sink, &info(), &mut st);
    emit(&Inst::Ret { stack_bytes_to_pop: 0 }, &vec![], &mut sink, &info(), &mut st);
    assert_eq!(sink.into_steps(), bytes(&[0xcc, 0xC3]));
}

/// Whether each local label is obtained once, before it is mentioned, and bound
/// once.
fn labels_are_in_order(steps: &[Step]) -> bool {
    (0..=255u8).all(|n| {
        let label = local(n);
        let mentioned: Vec<bool> = steps
            .iter()
            .filter_map(|s| match s {
                Step::GetLabel { label: l } if *l == label => Some(true),
                Step::DeferTrap { label: l, .. } if *l == label => Some(true),
                Step::BindLabel { label: l } if *l == label => Some(false),
                Step::UseLabel { label: l, .. } if *l == label => Some(false),
                Step::Emit(Built::JmpKnown { label: l }) if *l == label => Some(false),
                _ => None,
            })
            .collect();
        let obtained = mentioned.iter().filter(|first| **first).count();
        let deferred = steps
            .iter()
            .filter(|s| matches!(s, Step::DeferTrap { label: l, .. } if *l == label))
            .count();
        let bound = steps.iter().filter(|s| **s == Step::BindLabel { label }).count();
        mentioned.is_empty() || mentioned[0] && obtained == 1 && bound + deferred == 1
    })
}

#[test]
fn labels_are_bound_once() {
    let s32 = OperandSize::Size32;
    let s64 = OperandSize::Size64;
    for is_saturating in [false, true] {
        for src in [s32, s64] {
            for dst in [s32, s64] {
                assert!(labels_are_in_order(&to_sint(src, dst, is_saturating)));
                assert!(labels_are_in_order(&to_uint(src, dst, is_saturating)));
            }
        }
    }
    let trap = Inst::TrapIfAnd { cc1: CC::Z, cc2: CC::P, trap_code: TrapCode::Other(1) };
    assert!(labels_are_in_order(&steps(trap)));
    let probe = Inst::StackProbeLoop { tmp: gpr(11), frame_size: 1, guard_size: 4096 };
    assert!(labels_are_in_order(&steps(probe)));
}

#[test]
fn what_cannot_be_emitted_is_told() {
    let can = |inst: &Inst| can_emit(inst, &info(), &state());
    let mut wide = state();
    wide.frame_layout.tail_args_size = 0x7fff_ffff;

    assert!(can(&Inst::Fence { kind: FenceKind::MFence }));
    assert!(can(&Inst::External { inst: 1 }));
    assert!(!can_emit(&Inst::External { inst: 1 }, &info(), &wide));

    assert!(can(&Inst::MovFromPReg { src: rsp(), dst: rax() }));
    assert!(!can(&Inst::MovFromPReg { src: rbx(), dst: rax() }));

    let probe = |frame_size, guard_size| Inst::StackProbeLoop {
        tmp: gpr(11),
        frame_size,
        guard_size,
    };
    assert!(can(&probe(0x1001, 0x1000)));
    assert!(can(&probe(5, 1)));
    assert!(!can(&probe(0x1001, 0x1001)));
    assert!(!can(&probe(0x1001, 0)));
    assert!(!can(&probe(0x1001, 0x8000_0000)));
    assert!(!can(&probe(0x7fff_f001, 0x1000)));
    assert!(can(&probe(0x7fff_f000, 0x1000)));
    let mut unprobed = info();
    unprobed.enable_probestack = false;
    assert!(!can_emit(&probe(0x1001, 0x1000), &unprobed, &state()));

    let lea = |base| Inst::LoadEffectiveAddress {
        addr: Amode::imm_reg(8, base),
        dst: rax(),
        size: OperandSize::Size32,
    };
    assert!(can_emit(&lea(rbx()), &info(), &wide));
    assert!(!can_emit(&lea(rax()), &info(), &wide));
    assert!(can(&lea(rax())));

    let switch = |in_payload0| Inst::StackSwitchBasic {
        store_context_ptr: rax(),
        load_context_ptr: rcx(),
        in_payload0,
        out_payload0: in_payload0,
    };
    assert!(can(&switch(gpr(7))));
    assert!(!can(&switch(rdx())));

    let unary = |op| Inst::XmmUnaryRmR {
        op,
        src: RegMem::Reg { reg: Reg::Xmm(xmm(1)) },
        dst: xmm(2),
    };
    assert!(can(&unary(SseOpcode::Pabsb)));
    assert!(!can(&unary(SseOpcode::Ptest)));

    let shift = |simm32| Inst::XmmRmiRVex {
        op: AvxOpcode::Vpsrlw,
        commutative: false,
        src1: xmm(1),
        src2: RegMemImm::Imm { simm32 },
        dst: xmm(2),
    };
    assert!(can(&shift(255)));
    assert!(!can(&shift(256)));

    let convert = |tmp| Inst::CvtUint64ToFloatSeq {
        dst_size: OperandSize::Size64,
        src: rax(),
        dst: xmm(0),
        tmp_gpr1: tmp,
        tmp_gpr2: rdx(),
    };
    assert!(can(&convert(rcx())));
    assert!(!can(&convert(rax())));

    let exchange = |dst_old| Inst::Xchg {
        size: OperandSize::Size32,
        operand: rcx(),
        mem: Amode::imm_reg(0, rbx()),
        dst_old,
    };
    assert!(can(&exchange(rcx())));
    assert!(!can(&exchange(rax())));

    assert!(can(&Inst::Ret { stack_bytes_to_pop: 0xffff }));
    assert!(!can(&Inst::Ret { stack_bytes_to_pop: 0x1_0000 }));
}
