//! Emission of fixed byte sequences: symbols, thread-local storage, fences and
//! bytes that do nothing.

use crate::x64::args::{ExternalName, FenceKind, Gpr, RelocDistance, Reloc, TrapCode};
use crate::x64::emit_flow::emit_reloc;
use crate::x64::sink::{Sink, Step};
use vstd::prelude::*;

verus! {

broadcast use crate::x64::sink::group_steps;

/// An instruction of a register and an address relative to its end, which a
/// relocation fills in.
pub open spec fn rip_relative(
    opcode: u8,
    enc_dst: u8,
    kind: Reloc,
    name: ExternalName,
) -> Seq<Step> {
    seq![
        Step::Put1(0x48 | ((enc_dst >> 3) & 1) << 2),
        Step::Put1(opcode),
        Step::Put1(0x05 | ((enc_dst & 7) << 3)),
        Step::AddReloc { kind, name, addend: -4i64 },
        Step::Put4(0),
    ]
}

fn emit_rip_relative(sink: &mut Sink, opcode: u8, enc_dst: u8, kind: Reloc, name: ExternalName)
    ensures
        final(sink)@ == old(sink)@ + rip_relative(opcode, enc_dst, kind, name),
{
    sink.put1(0x48 | ((enc_dst >> 3) & 1) << 2);
    sink.put1(opcode);
    sink.put1(0x05 | ((enc_dst & 7) << 3));
    emit_reloc(sink, kind, name, -4);
    sink.put4(0);
}

/// An addition of a constant to a register, or with `0xe8` for `modrm` a
/// subtraction.
pub open spec fn adjust(enc_dst: u8, modrm: u8, by: u32) -> Seq<Step> {
    seq![
        Step::Put1(0x48 | ((enc_dst >> 3) & 1)),
        Step::Put1(0x81),
        Step::Put1(modrm | (enc_dst & 7)),
        Step::Put4(by),
    ]
}

/// What the address of a symbol needs: in code that is independent of its
/// position, an offset that fits in an instruction.
pub open spec fn load_ext_name_ok(is_pic: bool, offset: i64) -> bool {
    is_pic ==> -0x7fff_ffff <= offset <= 0x7fff_ffff
}

/// The address of a symbol, plus an offset. In code that is independent of its
/// position it is loaded from a table, and the offset is added or subtracted.
/// Of a symbol that is near it is computed from the place of the instruction;
/// the offset is then not used. Else it is a constant of 64 bits.
pub open spec fn load_ext_name(
    is_pic: bool,
    dst: Gpr,
    name: ExternalName,
    offset: i64,
    distance: RelocDistance,
) -> Seq<Step> {
    if is_pic {
        // movq symbol@GOTPCREL(%rip), %dst
        rip_relative(0x8B, dst.enc, Reloc::X86GOTPCRel4, name) + (if offset < 0 {
            adjust(dst.enc, 0xe8, -offset as u32)
        } else if offset > 0 {
            adjust(dst.enc, 0xc0, offset as u32)
        } else {
            seq![]
        })
    } else if distance is Near {
        // lea $name(%rip), $dst
        rip_relative(0x8D, dst.enc, Reloc::X86CallPCRel4, name)
    } else {
        // movabsq $name, %dst
        seq![
            Step::Put1(0x48 | ((dst.enc >> 3) & 1)),
            Step::Put1(0xB8 | (dst.enc & 7)),
            Step::AddReloc { kind: Reloc::Abs8, name, addend: offset },
            Step::Put8(0),
        ]
    }
}

/// Emits the load of the address of a symbol.
pub fn emit_load_ext_name(
    sink: &mut Sink,
    is_pic: bool,
    dst: Gpr,
    name: ExternalName,
    offset: i64,
    distance: RelocDistance,
)
    requires
        load_ext_name_ok(is_pic, offset),
    ensures
        final(sink)@ == old(sink)@ + load_ext_name(is_pic, dst, name, offset, distance),
{
    let enc_dst: u8 = dst.enc;
    if is_pic {
        emit_rip_relative(sink, 0x8B, enc_dst, Reloc::X86GOTPCRel4, name);
        // An offset in the relocation would apply to the address of the table
        // entry, not to the loaded address.
        if offset < 0 {
            sink.put1(0x48 | ((enc_dst >> 3) & 1));
            sink.put1(0x81);
            sink.put1(0xe8 | (enc_dst & 7));
            sink.put4((-offset) as u32);
        } else if offset > 0 {
            sink.put1(0x48 | ((enc_dst >> 3) & 1));
            sink.put1(0x81);
            sink.put1(0xc0 | (enc_dst & 7));
            sink.put4(offset as u32);
        }
    } else if distance == RelocDistance::Near {
        // The distance is within 2GB, so the address can be relative.
        emit_rip_relative(sink, 0x8D, enc_dst, Reloc::X86CallPCRel4, name);
    } else {
        sink.put1(0x48 | ((enc_dst >> 3) & 1));
        sink.put1(0xB8 | (enc_dst & 7));
        emit_reloc(sink, Reloc::Abs8, name, offset);
        sink.put8(0);
    }
}

/// A memory fence.
pub open spec fn fence(kind: FenceKind) -> Seq<Step> {
    seq![
        Step::Put1(0x0F),
        Step::Put1(0xAE),
        Step::Put1(
            match kind {
                FenceKind::MFence => 0xF0,
                FenceKind::LFence => 0xE8,
                FenceKind::SFence => 0xF8,
            },
        ),
    ]
}

/// Emits a memory fence.
pub fn emit_fence(sink: &mut Sink, kind: FenceKind)
    ensures
        final(sink)@ == old(sink)@ + fence(kind),
{
    sink.put1(0x0F);
    sink.put1(0xAE);
    match kind {
        FenceKind::MFence => sink.put1(0xF0),  // mfence = 0F AE F0
        FenceKind::LFence => sink.put1(0xE8),  // lfence = 0F AE E8
        FenceKind::SFence => sink.put1(0xF8),  // sfence = 0F AE F8
    }
}

/// A trap.
pub open spec fn ud2(code: TrapCode) -> Seq<Step> {
    seq![Step::AddTrap { code }, Step::PutTrapOpcode]
}

/// Emits a trap.
pub fn emit_ud2(sink: &mut Sink, trap_code: TrapCode)
    ensures
        final(sink)@ == old(sink)@ + ud2(trap_code),
{
    sink.push(Step::AddTrap { code: trap_code });
    sink.push(Step::PutTrapOpcode);
}

/// The bytes as steps.
pub open spec fn bytes(b: Seq<u8>) -> Seq<Step> {
    b.map_values(|x: u8| Step::Put1(x))
}

/// The instruction of up to 9 bytes that does nothing, as the architecture
/// manual has it.
pub open spec fn nop_bytes(len: nat) -> Seq<u8> {
    if len == 0 {
        seq![]
    } else if len == 1 {
        // NOP
        seq![0x90]
    } else if len == 2 {
        // 66 NOP
        seq![0x66, 0x90]
    } else if len == 3 {
        // NOP [EAX]
        seq![0x0F, 0x1F, 0x00]
    } else if len == 4 {
        // NOP 0(EAX), with 0 a 1-byte immediate.
        seq![0x0F, 0x1F, 0x40, 0x00]
    } else if len == 5 {
        // NOP [EAX, EAX, 1]
        seq![0x0F, 0x1F, 0x44, 0x00, 0x00]
    } else if len == 6 {
        // 66 NOP [EAX, EAX, 1]
        seq![0x66, 0x0F, 0x1F, 0x44, 0x00, 0x00]
    } else if len == 7 {
        // NOP 0[EAX], but 0 is a 4 bytes immediate.
        seq![0x0F, 0x1F, 0x80, 0x00, 0x00, 0x00, 0x00]
    } else if len == 8 {
        // NOP 0[EAX, EAX, 1], with 0 a 4 bytes immediate.
        seq![0x0F, 0x1F, 0x84, 0x00, 0x00, 0x00, 0x00, 0x00]
    } else {
        // 66 NOP 0[EAX, EAX, 1], with 0 a 4 bytes immediate.
        seq![0x66, 0x0F, 0x1F, 0x84, 0x00, 0x00, 0x00, 0x00, 0x00]
    }
}

/// Bytes that do nothing: instructions of 9 bytes each, and one for the rest.
pub open spec fn nop(len: nat) -> Seq<u8>
    decreases len,
{
    if len > 9 {
        nop_bytes(9) + nop((len - 9) as nat)
    } else {
        nop_bytes(len)
    }
}

/// The steps for this many bytes that do nothing.
pub open spec fn nops(len: u8) -> Seq<Step> {
    bytes(nop(len as nat))
}

/// Emits bytes.
fn put_bytes(sink: &mut Sink, data: &[u8])
    ensures
        final(sink)@ == old(sink)@ + bytes(data@),
{
    let ghost all = bytes(data@);
    assert(all.take(0) =~= Seq::<Step>::empty());
    for i in 0..data.len()
        invariant
            all == bytes(data@),
            sink@ == old(sink)@ + all.take(i as int),
    {
        sink.put1(data[i]);
        assert(all.take(i + 1) =~= all.take(i as int).push(Step::Put1(data@[i as int])));
    }
    assert(all.take(data@.len() as int) =~= all);
}

/// Emits one instruction of at most 9 bytes that does nothing.
fn emit_one_nop(sink: &mut Sink, len: u8)
    requires
        len <= 9,
    ensures
        final(sink)@ == old(sink)@ + bytes(nop_bytes(len as nat)),
{
    match len {
        0 => {
            assert(bytes(nop_bytes(0)) =~= Seq::<Step>::empty());
        },
        1 => put_bytes(sink, &[0x90]),
        2 => put_bytes(sink, &[0x66, 0x90]),
        3 => put_bytes(sink, &[0x0F, 0x1F, 0x00]),
        4 => put_bytes(sink, &[0x0F, 0x1F, 0x40, 0x00]),
        5 => put_bytes(sink, &[0x0F, 0x1F, 0x44, 0x00, 0x00]),
        6 => put_bytes(sink, &[0x66, 0x0F, 0x1F, 0x44, 0x00, 0x00]),
        7 => put_bytes(sink, &[0x0F, 0x1F, 0x80, 0x00, 0x00, 0x00, 0x00]),
        8 => put_bytes(sink, &[0x0F, 0x1F, 0x84, 0x00, 0x00, 0x00, 0x00, 0x00]),
        _ => put_bytes(sink, &[0x66, 0x0F, 0x1F, 0x84, 0x00, 0x00, 0x00, 0x00, 0x00]),
    }
}

/// Emits bytes that do nothing.
pub fn emit_nop(sink: &mut Sink, len: u8)
    ensures
        final(sink)@ == old(sink)@ + nops(len),
{
    let ghost before = sink@;
    let ghost mut done: Seq<u8> = Seq::empty();
    let mut left: u8 = len;
    assert(bytes(done) =~= Seq::<Step>::empty());
    assert(done + nop(left as nat) =~= nop(len as nat));
    while left != 0
        invariant
            sink@ == before + bytes(done),
            done + nop(left as nat) == nop(len as nat),
        decreases left,
    {
        let emitted: u8 = if left < 9 {
            left
        } else {
            9
        };
        emit_one_nop(sink, emitted);
        proof {
            let part = nop_bytes(emitted as nat);
            let next = (left - emitted) as nat;
            assert(bytes(done + part) =~= bytes(done) + bytes(part));
            assert(nop(left as nat) =~= part + nop(next));
            assert((done + part) + nop(next) =~= done + (part + nop(next)));
            done = done + part;
        }
        left = left - emitted;
    }
    assert(done + nop(0) =~= done);
}

/// The address of a thread-local symbol in `rax`, the ELF way. The linker must
/// know how to rewrite the bytes, so they are exactly these.
pub open spec fn elf_tls_get_addr(symbol: ExternalName) -> Seq<Step> {
    seq![
        // data16 lea gv@tlsgd(%rip),%rdi
        Step::Put1(0x66),
        Step::Put1(0x48),
        Step::Put1(0x8d),
        Step::Put1(0x3d),
        Step::AddReloc { kind: Reloc::ElfX86_64TlsGd, name: symbol, addend: -4i64 },
        Step::Put4(0),
        // data16 data16 callq __tls_get_addr-4
        Step::Put1(0x66),
        Step::Put1(0x66),
        Step::Put1(0x48),
        Step::Put1(0xe8),
        Step::AddReloc {
            kind: Reloc::X86CallPLTRel4,
            name: ExternalName::ElfTlsGetAddr,
            addend: -4i64,
        },
        Step::Put4(0),
    ]
}

/// Emits the address of a thread-local symbol, the ELF way.
pub fn emit_elf_tls_get_addr(sink: &mut Sink, symbol: ExternalName, dst: Gpr)
    requires
        dst == crate::x64::args::rax(),
    ensures
        final(sink)@ == old(sink)@ + elf_tls_get_addr(symbol),
{
    // data16 lea gv@tlsgd(%rip),%rdi
    sink.put1(0x66);  // data16
    sink.put1(0b01001000);  // REX.W
    sink.put1(0x8d);  // LEA
    sink.put1(0x3d);  // ModRM byte
    emit_reloc(sink, Reloc::ElfX86_64TlsGd, symbol, -4);
    sink.put4(0);  // offset
    // data16 data16 callq __tls_get_addr-4
    sink.put1(0x66);  // data16
    sink.put1(0x66);  // data16
    sink.put1(0b01001000);  // REX.W
    sink.put1(0xe8);  // CALL
    emit_reloc(sink, Reloc::X86CallPLTRel4, ExternalName::ElfTlsGetAddr, -4);
    sink.put4(0);  // offset
}

/// The address of a thread-local symbol in `rax`, the Mach-O way.
pub open spec fn macho_tls_get_addr(symbol: ExternalName) -> Seq<Step> {
    seq![
        // movq gv@tlv(%rip), %rdi
        Step::Put1(0x48),
        Step::Put1(0x8b),
        Step::Put1(0x3d),
        Step::AddReloc { kind: Reloc::MachOX86_64Tlv, name: symbol, addend: -4i64 },
        Step::Put4(0),
        // callq *(%rdi)
        Step::Put1(0xff),
        Step::Put1(0x17),
    ]
}

/// Emits the address of a thread-local symbol, the Mach-O way.
pub fn emit_macho_tls_get_addr(sink: &mut Sink, symbol: ExternalName, dst: Gpr)
    requires
        dst == crate::x64::args::rax(),
    ensures
        final(sink)@ == old(sink)@ + macho_tls_get_addr(symbol),
{
    // movq gv@tlv(%rip), %rdi
    sink.put1(0x48);  // REX.w
    sink.put1(0x8b);  // MOV
    sink.put1(0x3d);  // ModRM byte
    emit_reloc(sink, Reloc::MachOX86_64Tlv, symbol, -4);
    sink.put4(0);  // offset
    // callq *(%rdi)
    sink.put1(0xff);
    sink.put1(0x17);
}

/// The address of a thread-local symbol in `rax`, the COFF way: the index of the
/// module selects an area of the thread, and the symbol is at an offset in it.
pub open spec fn coff_tls_get_addr(symbol: ExternalName) -> Seq<Step> {
    seq![
        // movl (%rip), %eax
        Step::Put1(0x8b),
        Step::Put1(0x05),
        Step::AddReloc { kind: Reloc::X86PCRel4, name: ExternalName::CoffTlsIndex, addend: -4i64 },
        Step::Put4(0),
    ] + bytes(
        seq![
            // movq %gs:88, %rcx
            0x65,
            0x48,
            0x8b,
            0x0c,
            0x25,
            0x58,
            0x00,
            0x00,
            0x00,
        ],
    ) + bytes(
        seq![
            // movq (%rcx,%rax,8), %rax
            0x48,
            0x8b,
            0x04,
            0xc1,
        ],
    ) + seq![
        // leaq (%rax), %rax
        Step::Put1(0x48),
        Step::Put1(0x8d),
        Step::Put1(0x80),
        Step::AddReloc { kind: Reloc::X86SecRel, name: symbol, addend: 0 },
        Step::Put4(0),
    ]
}

/// Emits the address of a thread-local symbol, the COFF way.
pub fn emit_coff_tls_get_addr(sink: &mut Sink, symbol: ExternalName, dst: Gpr, tmp: Gpr)
    requires
        dst == crate::x64::args::rax(),
        tmp == crate::x64::args::rcx(),
    ensures
        final(sink)@ == old(sink)@ + coff_tls_get_addr(symbol),
{
    // Load TLS index for current thread
    // movl (%rip), %eax
    sink.put1(0x8b);  // mov
    sink.put1(0x05);
    emit_reloc(sink, Reloc::X86PCRel4, ExternalName::CoffTlsIndex, -4);
    sink.put4(0);  // offset
    // Load the TLS Storage Array pointer: the gs segment register refers to the
    // environment block of the thread, which has it at 0x58.
    // movq %gs:88, %rcx
    put_bytes(sink, &[0x65, 0x48, 0x8b, 0x0c, 0x25, 0x58, 0x00, 0x00, 0x00]);
    // Load the actual TLS entry for this thread.
    // movq (%rcx,%rax,8), %rax
    put_bytes(sink, &[0x48, 0x8b, 0x04, 0xc1]);
    // leaq (%rax), %rax
    sink.put1(0x48);
    sink.put1(0x8d);
    sink.put1(0x80);
    emit_reloc(sink, Reloc::X86SecRel, symbol, 0);
    sink.put4(0);  // offset
}

} // verus!
