//! What instructions that are emitted byte by byte mean.

use crate::x64::args::{
    rax, rcx, ExternalName, FenceKind, Gpr, Reloc, RelocDistance, TrapCode,
};
use crate::x64::inst::{EmitInfo, EmitState, Inst};
use crate::x64::sink::Step;
use vstd::prelude::*;

verus! {

/// The number of the register `rdi`.
pub const RDI: u8 = 7;

/// A place in memory, as the byte behind an opcode names it: relative to the end
/// of the instruction, in a register, at the address in a register, or at such an
/// address plus what follows the byte.
pub enum Operand {
    Relative,
    Register(int),
    At(int),
    AtPlus(int),
    Other,
}

/// The two operands that the byte behind an opcode names. `rex` is the prefix.
pub open spec fn operands(rex: int, b: int) -> (int, Operand) {
    let kind = b / 0x40;
    let n = b % 8 + if rex % 2 == 1 {
        8int
    } else {
        0int
    };
    (
        b / 8 % 8 + if rex / 4 % 2 == 1 {
            8int
        } else {
            0int
        },
        if kind == 3 {
            Operand::Register(n)
        } else if kind == 0 && b % 8 == 5 {
            Operand::Relative
        } else if kind == 0 && b % 8 != 4 {
            Operand::At(n)
        } else if kind == 2 && b % 8 != 4 {
            Operand::AtPlus(n)
        } else {
            Operand::Other
        },
    )
}

/// Whether a byte is a prefix for operands of 64 bits.
pub open spec fn is_wide_prefix(rex: int) -> bool {
    rex / 0x10 == 4 && rex / 8 % 2 == 1
}

/// What is loaded into a register.
pub enum Loaded {
    /// What is at a place that the relocation names.
    Contents(Reloc, ExternalName),
    /// The address of a place that the relocation names.
    Address(Reloc, ExternalName),
    /// A constant that the relocation gives, plus a number.
    Constant(Reloc, ExternalName, int),
}

/// The register that the steps load, and with what. A place relative to the end of
/// the instruction has its four bytes at that end.
pub open spec fn loaded(steps: Seq<Step>) -> Option<(int, Loaded)> {
    if steps.len() == 5 {
        match (steps[0], steps[1], steps[2], steps[3], steps[4]) {
            (
                Step::Put1(rex),
                Step::Put1(opcode),
                Step::Put1(b),
                Step::AddReloc { kind, name, addend },
                Step::Put4(0),
            ) => if is_wide_prefix(rex as int) && operands(rex as int, b as int).1 is Relative
                && addend == -4 {
                let reg = operands(rex as int, b as int).0;
                if opcode == 0x8B {
                    Some((reg, Loaded::Contents(kind, name)))
                } else if opcode == 0x8D {
                    Some((reg, Loaded::Address(kind, name)))
                } else {
                    None
                }
            } else {
                None
            },
            _ => None,
        }
    } else if steps.len() == 4 {
        match (steps[0], steps[1], steps[2], steps[3]) {
            (
                Step::Put1(rex),
                Step::Put1(opcode),
                Step::AddReloc { kind, name, addend },
                Step::Put8(0),
            ) => if is_wide_prefix(rex as int) && 0xB8 <= opcode < 0xC0 {
                Some(
                    (
                        opcode - 0xB8 + if rex % 2 == 1 {
                            8int
                        } else {
                            0int
                        },
                        Loaded::Constant(kind, name, addend as int),
                    ),
                )
            } else {
                None
            },
            _ => None,
        }
    } else {
        None
    }
}

/// The register that the steps add to, and what they add: an addition, or a
/// subtraction, of a number of four bytes with its sign.
pub open spec fn added(steps: Seq<Step>) -> Option<(int, int)> {
    if steps.len() == 4 {
        match (steps[0], steps[1], steps[2], steps[3]) {
            (
                Step::Put1(rex),
                Step::Put1(opcode),
                Step::Put1(b),
                Step::Put4(n),
            ) => if is_wide_prefix(rex as int) && opcode == 0x81 && n < 0x8000_0000 {
                match operands(rex as int, b as int).1 {
                    Operand::Register(reg) => if b / 8 % 8 == 0 {
                        Some((reg, n as int))
                    } else if b / 8 % 8 == 5 {
                        Some((reg, -n))
                    } else {
                        None
                    },
                    _ => None,
                }
            } else {
                None
            },
            _ => None,
        }
    } else {
        None
    }
}

/// How the fields for registers are filled.
proof fn lemma_fields(enc: u8)
    requires
        enc < 16,
    ensures
        (0x48 | ((enc >> 3) & 1) << 2) == 0x48 + 4 * (enc / 8),
        (0x48 | ((enc >> 3) & 1)) == 0x48 + enc / 8,
        (0x05 | ((enc & 7) << 3)) == 5 + 8 * (enc % 8),
        (0xB8 | (enc & 7)) == 0xB8 + enc % 8,
        (0xe8 | (enc & 7)) == 0xE8 + enc % 8,
        (0xc0 | (enc & 7)) == 0xC0 + enc % 8,
{
    assert((0x48 | ((enc >> 3) & 1) << 2) == 0x48 + 4 * (enc / 8) && (0x48 | ((enc >> 3) & 1))
        == 0x48 + enc / 8 && (0x05 | ((enc & 7) << 3)) == 5 + 8 * (enc % 8) && (0xB8 | (enc & 7))
        == 0xB8 + enc % 8 && (0xe8 | (enc & 7)) == 0xE8 + enc % 8 && (0xc0 | (enc & 7)) == 0xC0
        + enc % 8) by (bit_vector)
        requires
            enc < 16u8,
    ;
}

/// The address of a symbol is loaded into the register that is asked for. In code
/// that is independent of its position it is read from the table of addresses, and
/// the offset is added. Of a symbol that is near it is computed. Else it is a constant
/// of all 64 bits, with the offset.
pub proof fn law_address_of_a_symbol(
    dst: Gpr,
    name: ExternalName,
    offset: i64,
    distance: RelocDistance,
    info: EmitInfo,
    state: EmitState,
)
    requires
        dst.enc < 16,
        crate::x64::emit_misc::load_ext_name_ok(info.is_pic, offset),
    ensures
        ({
            let steps = crate::x64::emit::listing(
                Inst::LoadExtName { dst, name, offset, distance },
                info,
                state,
            );
            let reg = dst.enc as int;
            if info.is_pic {
                &&& loaded(steps.take(5)) == Some(
                    (reg, Loaded::Contents(Reloc::X86GOTPCRel4, name)),
                )
                &&& offset == 0 ==> steps.len() == 5
                &&& offset != 0 ==> added(steps.skip(5)) == Some((reg, offset as int))
            } else if distance is Near {
                loaded(steps) == Some((reg, Loaded::Address(Reloc::X86CallPCRel4, name)))
            } else {
                loaded(steps) == Some((reg, Loaded::Constant(Reloc::Abs8, name, offset as int)))
            }
        }),
{
    let steps = crate::x64::emit::listing(
        Inst::LoadExtName { dst, name, offset, distance },
        info,
        state,
    );
    lemma_fields(dst.enc);
    if info.is_pic {
        let a = crate::x64::emit_misc::rip_relative(0x8B, dst.enc, Reloc::X86GOTPCRel4, name);
        assert(steps.take(5) =~= a);
        if offset < 0 {
            let by = -offset as u32;
            assert(steps.skip(5) =~= crate::x64::emit_misc::adjust(dst.enc, 0xe8, by));
        } else if offset > 0 {
            let by = offset as u32;
            assert(steps.skip(5) =~= crate::x64::emit_misc::adjust(dst.enc, 0xc0, by));
        }
    }
}

/// A fence is the instruction for its kind.
pub proof fn law_fence(kind: FenceKind, info: EmitInfo, state: EmitState)
    ensures
        ({
            let steps = crate::x64::emit::listing(Inst::Fence { kind }, info, state);
            &&& steps.len() == 3
            &&& steps[0] == Step::Put1(0x0F)
            &&& steps[1] == Step::Put1(0xAE)
            &&& steps[2] matches Step::Put1(b)
            &&& operands(0, b as int).1 is Register
            // Loads, then loads and stores, then stores.
            &&& b / 8 % 8 == (match kind {
                FenceKind::LFence => 5int,
                FenceKind::MFence => 6int,
                FenceKind::SFence => 7int,
            })
        }),
{
}

/// A trap is at the place that has its code.
pub proof fn law_trap(trap_code: TrapCode, info: EmitInfo, state: EmitState)
    ensures
        crate::x64::emit::listing(Inst::Ud2 { trap_code }, info, state) == seq![
            Step::AddTrap { code: trap_code },
            Step::PutTrapOpcode,
        ],
{
}

/// The length of the instruction at the start of the bytes if it is one that does
/// nothing, and zero if it is not: a prefix may be before it, and it may name an
/// address of several bytes.
pub open spec fn idle_length(b: Seq<u8>) -> nat
    decreases b.len(),
{
    if b.len() == 0 {
        0
    } else if b[0] == 0x66 {
        let rest = idle_length(b.skip(1));
        if rest == 0 {
            0
        } else {
            1 + rest
        }
    } else if b[0] == 0x90 {
        1
    } else if b.len() >= 3 && b[0] == 0x0F && b[1] == 0x1F && b[2] / 8 % 8 == 0 {
        let more = (if b[2] % 8 == 4 && b[2] / 0x40 != 3 {
            1nat
        } else {
            0nat
        }) + (if b[2] / 0x40 == 1 {
            1nat
        } else if b[2] / 0x40 == 2 {
            4nat
        } else if b[2] / 0x40 == 0 && b[2] % 8 == 5 {
            4nat
        } else {
            0nat
        });
        if b.len() >= 3 + more {
            3 + more
        } else {
            0
        }
    } else {
        0
    }
}

/// Whether the bytes are instructions that do nothing, one after the other.
pub open spec fn is_idle(b: Seq<u8>) -> bool
    decreases b.len(),
{
    b.len() == 0 || {
        let n = idle_length(b);
        n > 0 && n <= b.len() && is_idle(b.skip(n as int))
    }
}

/// What is before other bytes is read the same.
proof fn lemma_idle_prefix(len: nat, rest: Seq<u8>)
    requires
        1 <= len <= 9,
    ensures
        idle_length(crate::x64::emit_misc::nop_bytes(len) + rest) == len,
{
    let b = crate::x64::emit_misc::nop_bytes(len) + rest;
    reveal_with_fuel(idle_length, 2);
    if len == 2 || len == 6 || len == 9 {
        assert(b[0] == 0x66);
        let c = b.skip(1);
        assert(c[0] == b[1]);
        if len > 2 {
            assert(c[1] == b[2] && c[2] == b[3]);
        }
    }
}

/// Bytes that are asked for to do nothing are instructions that do nothing.
pub proof fn law_idle_bytes_do_nothing(len: nat)
    ensures
        is_idle(crate::x64::emit_misc::nop(len)),
    decreases len,
{
    let b = crate::x64::emit_misc::nop(len);
    crate::x64::laws::law_nop_has_its_length(len);
    if len > 9 {
        let rest = crate::x64::emit_misc::nop((len - 9) as nat);
        lemma_idle_prefix(9, rest);
        law_idle_bytes_do_nothing((len - 9) as nat);
        assert(b.skip(9) =~= rest);
    } else if len > 0 {
        lemma_idle_prefix(len, Seq::empty());
        assert(b =~= crate::x64::emit_misc::nop_bytes(len) + Seq::<u8>::empty());
        assert(b.skip(len as int) =~= Seq::<u8>::empty());
        assert(is_idle(Seq::<u8>::empty()));
    }
}

/// The emitted bytes that do nothing are as many as were asked for, one step each.
pub proof fn law_idle_instruction(len: u8, info: EmitInfo, state: EmitState)
    ensures
        ({
            let steps = crate::x64::emit::listing(Inst::Nop { len }, info, state);
            let b = Seq::new(steps.len(), |i: int| steps[i]->Put1_0);
            &&& steps.len() == len
            &&& forall|i: int| 0 <= i < steps.len() ==> #[trigger] steps[i] is Put1
            &&& is_idle(b)
        }),
{
    let steps = crate::x64::emit::listing(Inst::Nop { len }, info, state);
    let n = crate::x64::emit_misc::nop(len as nat);
    crate::x64::laws::law_nop_has_its_length(len as nat);
    law_idle_bytes_do_nothing(len as nat);
    let b = Seq::new(steps.len(), |i: int| steps[i]->Put1_0);
    assert(b =~= n);
}

/// The address of a thread-local symbol, the ELF way: the address of the symbol's
/// entry is computed in `rdi`, and `__tls_get_addr` is called. There are prefixes
/// before both, so that there are 16 bytes in all.
pub proof fn law_elf_symbol(symbol: ExternalName, info: EmitInfo, state: EmitState)
    ensures
        ({
            let steps = crate::x64::emit::listing(
                Inst::ElfTlsGetAddr { symbol, dst: rax() },
                info,
                state,
            );
            &&& steps.len() == 12
            &&& steps[0] == Step::Put1(0x66)
            &&& loaded(steps.subrange(1, 6)) == Some(
                (RDI as int, Loaded::Address(Reloc::ElfX86_64TlsGd, symbol)),
            )
            &&& steps[6] == Step::Put1(0x66) && steps[7] == Step::Put1(0x66)
            &&& steps[8] matches Step::Put1(rex)
            &&& is_wide_prefix(rex as int)
            &&& steps[9] == Step::Put1(0xE8)
            &&& steps[10] == (Step::AddReloc {
                kind: Reloc::X86CallPLTRel4,
                name: ExternalName::ElfTlsGetAddr,
                addend: -4i64,
            })
            &&& steps[11] == Step::Put4(0)
        }),
{
}

/// The address of a thread-local symbol, the Mach-O way: what is in the symbol's
/// entry is loaded into `rdi`, and what is at that address is called.
pub proof fn law_macho_symbol(symbol: ExternalName, info: EmitInfo, state: EmitState)
    ensures
        ({
            let steps = crate::x64::emit::listing(
                Inst::MachOTlsGetAddr { symbol, dst: rax() },
                info,
                state,
            );
            &&& steps.len() == 7
            &&& loaded(steps.take(5)) == Some(
                (RDI as int, Loaded::Contents(Reloc::MachOX86_64Tlv, symbol)),
            )
            &&& steps[5] == Step::Put1(0xFF)
            &&& steps[6] matches Step::Put1(b)
            &&& b / 8 % 8 == 2
            &&& operands(0, b as int).1 == Operand::At(RDI as int)
        }),
{
}

/// The address of a thread-local symbol, the COFF way: the index of the module is
/// loaded into `eax`, the areas of the thread into `rcx`, the area at the index into
/// `rax`, and the offset of the symbol is added.
pub proof fn law_coff_symbol(symbol: ExternalName, info: EmitInfo, state: EmitState)
    ensures
        ({
            let steps = crate::x64::emit::listing(
                Inst::CoffTlsGetAddr { symbol, dst: rax(), tmp: rcx() },
                info,
                state,
            );
            &&& steps.len() == 22
            &&& steps[0] == Step::Put1(0x8B)
            &&& steps[1] matches Step::Put1(a)
            &&& operands(0, a as int) == (rax().enc as int, Operand::Relative)
            &&& steps[2] == (Step::AddReloc {
                kind: Reloc::X86PCRel4,
                name: ExternalName::CoffTlsIndex,
                addend: -4i64,
            })
            &&& steps[3] == Step::Put4(0)
            // The thread's areas are at 0x58 in its segment.
            &&& steps[4] == Step::Put1(0x65)
            &&& steps[5] matches Step::Put1(rex1)
            &&& is_wide_prefix(rex1 as int)
            &&& steps[6] == Step::Put1(0x8B)
            &&& steps[7] matches Step::Put1(b) && operands(rex1 as int, b as int).0
                == rcx().enc as int && b / 0x40 == 0 && b % 8 == 4
            &&& steps[8] == Step::Put1(0x25)
            &&& steps[9] == Step::Put1(0x58)
            &&& forall|i: int| 10 <= i < 13 ==> #[trigger] steps[i] == Step::Put1(0)
            // The area at `rcx + 8 * rax`.
            &&& steps[13] matches Step::Put1(rex2)
            &&& is_wide_prefix(rex2 as int)
            &&& steps[14] == Step::Put1(0x8B)
            &&& steps[15] matches Step::Put1(c) && operands(rex2 as int, c as int).0
                == rax().enc as int && c / 0x40 == 0 && c % 8 == 4
            &&& steps[16] matches Step::Put1(d) && d / 0x40 == 3 && d / 8 % 8 == rax().enc && d % 8
                == rcx().enc
            &&& steps[17] matches Step::Put1(rex3)
            &&& is_wide_prefix(rex3 as int)
            &&& steps[18] == Step::Put1(0x8D)
            &&& steps[19] matches Step::Put1(e) && operands(rex3 as int, e as int) == (
                rax().enc as int,
                Operand::AtPlus(rax().enc as int),
            )
            &&& steps[20] == (Step::AddReloc { kind: Reloc::X86SecRel, name: symbol, addend: 0 })
            &&& steps[21] == Step::Put4(0)
        }),
{
    let steps = crate::x64::emit::listing(
        Inst::CoffTlsGetAddr { symbol, dst: rax(), tmp: rcx() },
        info,
        state,
    );
    assert(steps.len() == 22);
}

} // verus!
