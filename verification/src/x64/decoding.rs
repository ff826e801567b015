//! How the hardware reads vector instructions, and that it reads each as the
//! operation that it is named after, on the operands that were given.

use crate::x64::args::{Amode, Gpr, OperandSize, Reg, RegMem, RegMemImm, Xmm};
use crate::x64::inst::{EmitInfo, EmitState, Inst};
use crate::x64::opcodes::{Avx512Opcode, AvxOpcode, LegacyPrefixes, OpcodeMap, SseOpcode};
use crate::x64::sink::{RegisterOrAmode, Rex, RexBase, Step};
use vstd::prelude::*;

verus! {

/// What the lanes of a vector hold.
pub enum Lane {
    I8,
    I16,
    I32,
    I64,
    F32,
    F64,
    /// The vector is one number of 128 bits.
    Whole,
}

/// The factors of a multiplication with an addition. The third operand is added
/// to the product of the first two, or the second to that of the first and the third.
pub enum Product {
    SecondByFirst,
    FirstByThird,
}

/// What an operation does with its operands. `signed` says how integers are read.
/// What takes a number to go by is named so.
pub enum What {
    Add,
    SaturatingAdd { signed: bool },
    Sub,
    SaturatingSub { signed: bool },
    Multiply,
    /// The high halves of the products.
    MultiplyHigh { signed: bool },
    /// The high halves of the products, rounded.
    MultiplyRounded,
    /// The products of every other lane, with all their bits.
    MultiplyWide { signed: bool },
    /// The sums of neighbouring products.
    MultiplyAddPairs,
    Fused { product: Product, negated: bool, subtracts: bool },
    Divide,
    SquareRoot,
    Average,
    Absolute,
    AddPairs,
    CountBits,
    Min { signed: bool },
    Max { signed: bool },
    /// The minimum of floats.
    MinNumber,
    /// The maximum of floats.
    MaxNumber,
    And,
    /// The bits of the second operand that the first does not have.
    AndNot,
    Or,
    Xor,
    ShiftLeft,
    ShiftRight { signed: bool },
    Equal,
    Greater,
    CompareBy,
    /// Sets the flags by the order of floats.
    OrderFlags,
    /// Sets the flags by the common bits.
    TestFlags,
    Unpack { high: bool },
    /// Lanes of half the size, saturated.
    Pack { signed: bool },
    /// Lanes of twice the size.
    Extend { signed: bool },
    Shuffle,
    ShuffleBy,
    BlendBy,
    AlignBy,
    InsertBy,
    Permute,
    Broadcast,
    Extract,
    Move,
    MoveLowToHigh,
    FromUnsigned,
}

/// An operation. One that is `scalar` is on the lowest lane alone.
pub struct Operation {
    pub what: What,
    pub lane: Lane,
    pub scalar: bool,
}

/// Where an operand is.
pub enum Place {
    Vector(u8),
    General(u8),
    Memory(Amode),
}

/// An instruction as the hardware reads it. `to` is where the result goes, if it
/// goes anywhere but to the flags.
pub struct Reading {
    pub operation: Operation,
    pub to: Option<Place>,
    pub from: Seq<Place>,
    pub number: Option<u8>,
}

/// The lanes of integers by their size: 1, 2, 4 or 8 bytes.
pub open spec fn integers(log_bytes: int) -> Lane {
    if log_bytes == 0 {
        Lane::I8
    } else if log_bytes == 1 {
        Lane::I16
    } else if log_bytes == 2 {
        Lane::I32
    } else {
        Lane::I64
    }
}

/// An operation on all lanes of integers.
pub open spec fn on_integers(what: What, log_bytes: int) -> Option<Operation> {
    Some(Operation { what, lane: integers(log_bytes), scalar: false })
}

/// An operation on floats: the prefix says on which.
pub open spec fn on_floats(what: What, prefix: LegacyPrefixes) -> Option<Operation> {
    match prefix {
        LegacyPrefixes::NoPrefix => Some(Operation { what, lane: Lane::F32, scalar: false }),
        LegacyPrefixes::P66 => Some(Operation { what, lane: Lane::F64, scalar: false }),
        LegacyPrefixes::PF3 => Some(Operation { what, lane: Lane::F32, scalar: true }),
        LegacyPrefixes::PF2 => Some(Operation { what, lane: Lane::F64, scalar: true }),
        _ => None,
    }
}

/// An operation on floats one by one, for the flags.
pub open spec fn on_lowest(what: What, prefix: LegacyPrefixes) -> Option<Operation> {
    match prefix {
        LegacyPrefixes::NoPrefix => Some(Operation { what, lane: Lane::F32, scalar: true }),
        LegacyPrefixes::P66 => Some(Operation { what, lane: Lane::F64, scalar: true }),
        _ => None,
    }
}

/// An operation on the bits of a vector.
pub open spec fn on_bits(what: What) -> Option<Operation> {
    Some(Operation { what, lane: Lane::Whole, scalar: false })
}

/// The floats of the first map.
pub open spec fn read_floats(prefix: LegacyPrefixes, n: int) -> Option<Operation> {
    if n == 0x10 || n == 0x11 {
        on_floats(What::Move, prefix)
    } else if n == 0x14 {
        on_floats(What::Unpack { high: false }, prefix)
    } else if n == 0x15 {
        on_floats(What::Unpack { high: true }, prefix)
    } else if n == 0x16 && prefix is NoPrefix {
        on_floats(What::MoveLowToHigh, prefix)
    } else if n == 0x2E {
        on_lowest(What::OrderFlags, prefix)
    } else if n == 0x51 {
        on_floats(What::SquareRoot, prefix)
    } else if n == 0x54 {
        on_floats(What::And, prefix)
    } else if n == 0x55 {
        on_floats(What::AndNot, prefix)
    } else if n == 0x56 {
        on_floats(What::Or, prefix)
    } else if n == 0x57 {
        on_floats(What::Xor, prefix)
    } else if n == 0x58 {
        on_floats(What::Add, prefix)
    } else if n == 0x59 {
        on_floats(What::Multiply, prefix)
    } else if n == 0x5C {
        on_floats(What::Sub, prefix)
    } else if n == 0x5D {
        on_floats(What::MinNumber, prefix)
    } else if n == 0x5E {
        on_floats(What::Divide, prefix)
    } else if n == 0x5F {
        on_floats(What::MaxNumber, prefix)
    } else if n == 0xC2 {
        on_floats(What::CompareBy, prefix)
    } else if n == 0xC6 {
        on_floats(What::ShuffleBy, prefix)
    } else {
        None
    }
}

/// The integers of the first map, up to its middle.
pub open spec fn read_low_integers(n: int) -> Option<Operation> {
    if 0x60 <= n <= 0x62 {
        on_integers(What::Unpack { high: false }, n - 0x60)
    } else if n == 0x63 {
        on_integers(What::Pack { signed: true }, 1)
    } else if 0x64 <= n <= 0x66 {
        on_integers(What::Greater, n - 0x64)
    } else if n == 0x67 {
        on_integers(What::Pack { signed: false }, 1)
    } else if 0x68 <= n <= 0x6A {
        on_integers(What::Unpack { high: true }, n - 0x68)
    } else if n == 0x6B {
        on_integers(What::Pack { signed: true }, 2)
    } else if n == 0x6C {
        on_integers(What::Unpack { high: false }, 3)
    } else if n == 0x6D {
        on_integers(What::Unpack { high: true }, 3)
    } else if 0x74 <= n <= 0x76 {
        on_integers(What::Equal, n - 0x74)
    } else {
        None
    }
}

/// The integers of the first map, from its middle. Rows come in pairs: the low
/// numbers of a row are of unsigned and of logical operations, and those of the
/// row two below of signed ones.
pub open spec fn read_high_integers(n: int) -> Option<Operation> {
    if 0xD1 <= n <= 0xD3 {
        on_integers(What::ShiftRight { signed: false }, n - 0xD0)
    } else if n == 0xD4 {
        on_integers(What::Add, 3)
    } else if n == 0xD5 {
        on_integers(What::Multiply, 1)
    } else if n == 0xD8 || n == 0xD9 {
        on_integers(What::SaturatingSub { signed: false }, n - 0xD8)
    } else if n == 0xDA {
        on_integers(What::Min { signed: false }, 0)
    } else if n == 0xDB {
        on_bits(What::And)
    } else if n == 0xDC || n == 0xDD {
        on_integers(What::SaturatingAdd { signed: false }, n - 0xDC)
    } else if n == 0xDE {
        on_integers(What::Max { signed: false }, 0)
    } else if n == 0xDF {
        on_bits(What::AndNot)
    } else if n == 0xE0 {
        on_integers(What::Average, 0)
    } else if n == 0xE1 || n == 0xE2 {
        on_integers(What::ShiftRight { signed: true }, n - 0xE0)
    } else if n == 0xE3 {
        on_integers(What::Average, 1)
    } else if n == 0xE4 {
        on_integers(What::MultiplyHigh { signed: false }, 1)
    } else if n == 0xE5 {
        on_integers(What::MultiplyHigh { signed: true }, 1)
    } else if n == 0xE8 || n == 0xE9 {
        on_integers(What::SaturatingSub { signed: true }, n - 0xE8)
    } else if n == 0xEA {
        on_integers(What::Min { signed: true }, 1)
    } else if n == 0xEB {
        on_bits(What::Or)
    } else if n == 0xEC || n == 0xED {
        on_integers(What::SaturatingAdd { signed: true }, n - 0xEC)
    } else if n == 0xEE {
        on_integers(What::Max { signed: true }, 1)
    } else if n == 0xEF {
        on_bits(What::Xor)
    } else if 0xF1 <= n <= 0xF3 {
        on_integers(What::ShiftLeft, n - 0xF0)
    } else if n == 0xF4 {
        on_integers(What::MultiplyWide { signed: false }, 2)
    } else if n == 0xF5 {
        on_integers(What::MultiplyAddPairs, 1)
    } else if 0xF8 <= n <= 0xFB {
        on_integers(What::Sub, n - 0xF8)
    } else if 0xFC <= n <= 0xFE {
        on_integers(What::Add, n - 0xFC)
    } else {
        None
    }
}

/// The multiplications with an addition: the row says what is multiplied, the
/// odd numbers are of the lowest lane alone, and `w` is set for wide floats.
pub open spec fn read_fused(w: bool, n: int) -> Option<Operation> {
    let row = n / 0x10;
    let kind = n % 0x10 / 2;
    Some(
        Operation {
            what: What::Fused {
                product: if row == 9 {
                    Product::FirstByThird
                } else {
                    Product::SecondByFirst
                },
                negated: kind >= 6,
                subtracts: kind % 2 == 1,
            },
            lane: if w {
                Lane::F64
            } else {
                Lane::F32
            },
            scalar: n % 2 == 1,
        },
    )
}

/// The second map.
pub open spec fn read_second_map(w: bool, n: int, longest: bool) -> Option<Operation> {
    if n == 0x00 {
        on_integers(What::Shuffle, 0)
    } else if n == 0x01 || n == 0x02 {
        on_integers(What::AddPairs, n)
    } else if n == 0x04 {
        on_integers(What::MultiplyAddPairs, 0)
    } else if n == 0x0B {
        on_integers(What::MultiplyRounded, 1)
    } else if n == 0x17 {
        on_bits(What::TestFlags)
    } else if n == 0x18 {
        Some(Operation { what: What::Broadcast, lane: Lane::F32, scalar: false })
    } else if 0x1C <= n <= 0x1F {
        on_integers(What::Absolute, n - 0x1C)
    } else if n == 0x20 || n == 0x23 || n == 0x25 {
        on_integers(What::Extend { signed: true }, (n - 0x20) / 2)
    } else if n == 0x28 {
        on_integers(What::MultiplyWide { signed: true }, 2)
    } else if n == 0x29 {
        on_integers(What::Equal, 3)
    } else if n == 0x2B {
        on_integers(What::Pack { signed: false }, 2)
    } else if n == 0x30 || n == 0x33 || n == 0x35 {
        on_integers(What::Extend { signed: false }, (n - 0x30) / 2)
    } else if n == 0x37 {
        on_integers(What::Greater, 3)
    } else if n == 0x38 {
        on_integers(What::Min { signed: true }, 0)
    } else if n == 0x39 {
        on_integers(What::Min { signed: true }, 2)
    } else if n == 0x3A || n == 0x3B {
        on_integers(What::Min { signed: false }, n - 0x39)
    } else if n == 0x3C {
        on_integers(What::Max { signed: true }, 0)
    } else if n == 0x3D {
        on_integers(What::Max { signed: true }, 2)
    } else if n == 0x3E || n == 0x3F {
        on_integers(What::Max { signed: false }, n - 0x3D)
    } else if n == 0x40 {
        on_integers(
            What::Multiply,
            if w {
                3
            } else {
                2
            },
        )
    } else if n == 0x54 && longest {
        on_integers(What::CountBits, 0)
    } else if n == 0x58 {
        on_integers(What::Broadcast, 2)
    } else if n == 0x75 && longest {
        on_integers(What::Permute, 0)
    } else if n == 0x78 || n == 0x79 {
        on_integers(What::Broadcast, n - 0x78)
    } else if 0x98 <= n <= 0x9F || 0xA8 <= n <= 0xAF {
        read_fused(w, n)
    } else {
        None
    }
}

/// The third map.
pub open spec fn read_third_map(w: bool, n: int) -> Option<Operation> {
    if n == 0x0E {
        on_integers(What::BlendBy, 1)
    } else if n == 0x0F {
        on_bits(What::AlignBy)
    } else if n == 0x14 || n == 0x15 {
        on_integers(What::Extract, n - 0x14)
    } else if n == 0x16 {
        on_integers(
            What::Extract,
            if w {
                3
            } else {
                2
            },
        )
    } else if n == 0x21 {
        Some(Operation { what: What::InsertBy, lane: Lane::F32, scalar: false })
    } else {
        None
    }
}

/// The operation that an opcode stands for. `longest` says whether the prefix is
/// the longest, which has room for wider lanes.
pub open spec fn read_opcode(
    prefix: LegacyPrefixes,
    map: OpcodeMap,
    w: bool,
    n: int,
    longest: bool,
) -> Option<Operation> {
    match map {
        OpcodeMap::M0F => if n == 0x6F || n == 0x7F {
            if prefix is PF3 {
                on_bits(What::Move)
            } else {
                None
            }
        } else if longest && n == 0x7A && prefix is PF2 {
            Some(Operation { what: What::FromUnsigned, lane: Lane::F32, scalar: false })
        } else if longest && w && n == 0xE2 && prefix is P66 {
            on_integers(What::ShiftRight { signed: true }, 3)
        } else if 0x60 <= n <= 0x76 && prefix is P66 {
            read_low_integers(n)
        } else if n >= 0xD0 && prefix is P66 {
            read_high_integers(n)
        } else {
            read_floats(prefix, n)
        },
        OpcodeMap::M0F38 => if prefix is P66 {
            read_second_map(w, n, longest)
        } else {
            None
        },
        OpcodeMap::M0F3A => if prefix is P66 {
            read_third_map(w, n)
        } else {
            None
        },
    }
}

/// The shifts by a number: the opcode says of which lanes, and the register field
/// says which shift.
pub open spec fn read_shift(n: int, extension: int, w: bool) -> Option<Operation> {
    if !(0x71 <= n <= 0x73) {
        None
    } else if extension == 2 {
        on_integers(What::ShiftRight { signed: false }, n - 0x70)
    } else if extension == 4 && n <= 0x72 {
        on_integers(
            What::ShiftRight { signed: true },
            if w {
                3
            } else {
                n - 0x70
            },
        )
    } else if extension == 6 {
        on_integers(What::ShiftLeft, n - 0x70)
    } else {
        None
    }
}

/// Whether an operation has one operand.
pub open spec fn is_unary(o: Operation) -> bool {
    match o.what {
        What::Absolute
        | What::CountBits
        | What::Extend { .. }
        | What::Broadcast
        | What::FromUnsigned => true,
        What::SquareRoot | What::Move => !o.scalar,
        _ => false,
    }
}

/// Whether an operation sets the flags alone.
pub open spec fn is_comparison(o: Operation) -> bool {
    o.what is OrderFlags || o.what is TestFlags
}

/// Whether an operation goes by a number.
pub open spec fn is_by_number(o: Operation) -> bool {
    match o.what {
        What::CompareBy | What::ShuffleBy | What::BlendBy | What::AlignBy | What::InsertBy => true,
        _ => false,
    }
}

/// Whether an operation is a shift.
pub open spec fn is_shift(o: Operation) -> bool {
    o.what is ShiftLeft || o.what is ShiftRight
}

/// Whether an operation has two operands and nothing else.
pub open spec fn is_binary(o: Operation) -> bool {
    &&& !is_unary(o)
    &&& !is_comparison(o)
    &&& !is_by_number(o)
    &&& !(o.what is Fused)
    &&& !(o.what is Extract)
}

/// Where an operand of a vector instruction is.
pub open spec fn place(o: Operation, rm: RegisterOrAmode) -> Place {
    match rm {
        RegisterOrAmode::Register(n) => if o.what is Extract {
            Place::General(n)
        } else {
            Place::Vector(n)
        },
        RegisterOrAmode::Amode(addr) => Place::Memory(addr),
    }
}

/// How the fields of a vector instruction are read, by the operation. `stores`
/// says whether the opcode is that of a move to memory.
pub open spec fn read_fields(
    o: Operation,
    stores: bool,
    reg: u8,
    further: Option<u8>,
    rm: RegisterOrAmode,
    number: Option<u8>,
) -> Option<Reading> {
    let other = place(o, rm);
    let first = Place::Vector(reg);
    if stores || o.what is Extract {
        Some(Reading { operation: o, to: Some(other), from: seq![first], number })
    } else if is_comparison(o) {
        Some(Reading { operation: o, to: None, from: seq![first, other], number })
    } else if is_unary(o) || o.what is Move && rm is Amode {
        if further is None {
            Some(Reading { operation: o, to: Some(first), from: seq![other], number })
        } else {
            None
        }
    } else {
        match further {
            None => None,
            Some(v) => Some(
                Reading {
                    operation: o,
                    to: Some(first),
                    from: if o.what is Fused || o.what is Permute {
                        seq![first, Place::Vector(v), other]
                    } else {
                        seq![Place::Vector(v), other]
                    },
                    number,
                },
            ),
        }
    }
}

/// Whether an opcode of the first map is that of a move to memory.
pub open spec fn is_store(map: OpcodeMap, n: int) -> bool {
    map is M0F && (n == 0x11 || n == 0x7F)
}

/// A shift by a number puts its result into the further register.
pub open spec fn read_shift_fields(
    o: Option<Operation>,
    further: Option<u8>,
    rm: RegisterOrAmode,
    number: Option<u8>,
) -> Option<Reading> {
    match (o, further) {
        (Some(o), Some(v)) => Some(
            Reading {
                operation: o,
                to: Some(Place::Vector(v)),
                from: seq![place(o, rm)],
                number,
            },
        ),
        _ => None,
    }
}

/// The map and the number of an opcode of several bytes.
pub open spec fn read_bytes(opcode: int, num_opcodes: int) -> Option<(OpcodeMap, int)> {
    if num_opcodes == 2 && opcode / 0x100 == 0x0F {
        Some((OpcodeMap::M0F, opcode % 0x100))
    } else if num_opcodes == 3 && opcode / 0x100 == 0x0F38 {
        Some((OpcodeMap::M0F38, opcode % 0x100))
    } else if num_opcodes == 3 && opcode / 0x100 == 0x0F3A {
        Some((OpcodeMap::M0F3A, opcode % 0x100))
    } else {
        None
    }
}

/// An instruction without a separate destination: the first operand is replaced.
pub open spec fn read_short(
    prefix: LegacyPrefixes,
    opcode: int,
    num_opcodes: int,
    reg: u8,
    rm: RegisterOrAmode,
) -> Option<Reading> {
    match read_bytes(opcode, num_opcodes) {
        None => None,
        Some((map, n)) => match read_opcode(prefix, map, false, n, false) {
            None => None,
            Some(o) => read_fields(
                o,
                is_store(map, n),
                reg,
                if is_unary(o) {
                    None
                } else {
                    Some(reg)
                },
                rm,
                None,
            ),
        },
    }
}

/// How the hardware reads a vector instruction.
pub open spec fn read(step: Step) -> Option<Reading> {
    match step {
        Step::Vex(i) => {
            let n = i.opcode as int;
            let w = i.w == Some(true);
            match (i.opcode_ext, i.reg) {
                (Some(extension), None) => if i.prefix is P66 && i.map is M0F {
                    read_shift_fields(read_shift(n, extension as int, w), i.vvvv, i.rm, i.imm)
                } else {
                    None
                },
                (None, Some(reg)) => match read_opcode(i.prefix, i.map, w, n, false) {
                    None => None,
                    Some(o) => read_fields(o, is_store(i.map, n), reg, i.vvvv, i.rm, i.imm),
                },
                _ => None,
            }
        },
        Step::Evex(i) => {
            let n = i.opcode as int;
            if i.prefix is P66 && i.map is M0F && 0x71 <= n <= 0x73 {
                read_shift_fields(read_shift(n, i.reg as int, i.w), i.vvvvv, i.rm, i.imm)
            } else {
                match read_opcode(i.prefix, i.map, i.w, n, true) {
                    None => None,
                    Some(o) => read_fields(o, is_store(i.map, n), i.reg, i.vvvvv, i.rm, i.imm),
                }
            }
        },
        Step::StdRegReg { prefix, opcode, num_opcodes, reg_g, reg_e, rex } => read_short(
            prefix,
            opcode as int,
            num_opcodes as int,
            reg_g.enc(),
            RegisterOrAmode::Register(reg_e.enc()),
        ),
        Step::StdRegMem { prefix, opcode, num_opcodes, reg_g, addr, rex, bytes_at_end } => {
            read_short(
                prefix,
                opcode as int,
                num_opcodes as int,
                reg_g.enc(),
                RegisterOrAmode::Amode(addr),
            )
        },
        _ => None,
    }
}

/// Where an operand is.
pub open spec fn operand_place(src: RegMem) -> Place {
    match src {
        RegMem::Reg { reg } => Place::Vector(reg.enc()),
        RegMem::Mem { addr } => Place::Memory(addr),
    }
}

/// What an operation does, by its name.
pub open spec fn sse_what(op: SseOpcode) -> What {
    match op {
        SseOpcode::Pabsb | SseOpcode::Pabsw | SseOpcode::Pabsd => What::Absolute,
        SseOpcode::Movlhps => What::MoveLowToHigh,
        SseOpcode::Packssdw | SseOpcode::Packsswb => What::Pack { signed: true },
        SseOpcode::Packusdw | SseOpcode::Packuswb => What::Pack { signed: false },
        SseOpcode::Pmaddubsw | SseOpcode::Pmaddwd => What::MultiplyAddPairs,
        SseOpcode::Pavgb | SseOpcode::Pavgw => What::Average,
        SseOpcode::Pcmpeqb
        | SseOpcode::Pcmpeqw
        | SseOpcode::Pcmpeqd
        | SseOpcode::Pcmpeqq => What::Equal,
        SseOpcode::Pcmpgtb
        | SseOpcode::Pcmpgtw
        | SseOpcode::Pcmpgtd
        | SseOpcode::Pcmpgtq => What::Greater,
        SseOpcode::Pshufb => What::Shuffle,
        SseOpcode::Cmpps
        | SseOpcode::Cmppd
        | SseOpcode::Cmpss
        | SseOpcode::Cmpsd => What::CompareBy,
        SseOpcode::Insertps => What::InsertBy,
        SseOpcode::Palignr => What::AlignBy,
        SseOpcode::Shufps => What::ShuffleBy,
        SseOpcode::Pblendw => What::BlendBy,
        SseOpcode::Ptest => What::TestFlags,
        SseOpcode::Ucomisd | SseOpcode::Ucomiss => What::OrderFlags,
    }
}

/// What the lanes of an operation hold, by its name.
pub open spec fn sse_lane(op: SseOpcode) -> Lane {
    match op {
        SseOpcode::Pabsb
        | SseOpcode::Pmaddubsw
        | SseOpcode::Pavgb
        | SseOpcode::Pcmpeqb
        | SseOpcode::Pcmpgtb
        | SseOpcode::Pshufb => Lane::I8,
        SseOpcode::Pabsw
        | SseOpcode::Packsswb
        | SseOpcode::Packuswb
        | SseOpcode::Pavgw
        | SseOpcode::Pcmpeqw
        | SseOpcode::Pcmpgtw
        | SseOpcode::Pmaddwd
        | SseOpcode::Pblendw => Lane::I16,
        SseOpcode::Pabsd
        | SseOpcode::Packssdw
        | SseOpcode::Packusdw
        | SseOpcode::Pcmpeqd
        | SseOpcode::Pcmpgtd => Lane::I32,
        SseOpcode::Movlhps
        | SseOpcode::Cmpps
        | SseOpcode::Cmpss
        | SseOpcode::Insertps
        | SseOpcode::Shufps
        | SseOpcode::Ucomiss => Lane::F32,
        SseOpcode::Pcmpeqq | SseOpcode::Pcmpgtq => Lane::I64,
        SseOpcode::Cmppd | SseOpcode::Cmpsd | SseOpcode::Ucomisd => Lane::F64,
        SseOpcode::Palignr | SseOpcode::Ptest => Lane::Whole,
    }
}

/// Whether an operation is on the lowest lane alone, by its name.
pub open spec fn sse_is_scalar(op: SseOpcode) -> bool {
    match op {
        SseOpcode::Cmpss
        | SseOpcode::Cmpsd
        | SseOpcode::Ucomisd
        | SseOpcode::Ucomiss => true,
        _ => false,
    }
}

/// The operation that a name stands for.
pub open spec fn sse_operation(op: SseOpcode) -> Operation {
    Operation { what: sse_what(op), lane: sse_lane(op), scalar: sse_is_scalar(op) }
}

/// What an operation does, by its name.
pub open spec fn avx_what(op: AvxOpcode) -> What {
    match op {
        AvxOpcode::Vpsrlw
        | AvxOpcode::Vpsrld
        | AvxOpcode::Vpsrlq => What::ShiftRight { signed: false },
        AvxOpcode::Vpsllw | AvxOpcode::Vpslld | AvxOpcode::Vpsllq => What::ShiftLeft,
        AvxOpcode::Vpsraw | AvxOpcode::Vpsrad => What::ShiftRight { signed: true },
        AvxOpcode::Vminps
        | AvxOpcode::Vminpd
        | AvxOpcode::Vminss
        | AvxOpcode::Vminsd => What::MinNumber,
        AvxOpcode::Vmaxps
        | AvxOpcode::Vmaxpd
        | AvxOpcode::Vmaxss
        | AvxOpcode::Vmaxsd => What::MaxNumber,
        AvxOpcode::Vandnps | AvxOpcode::Vandnpd | AvxOpcode::Vpandn => What::AndNot,
        AvxOpcode::Vpaddb
        | AvxOpcode::Vpaddw
        | AvxOpcode::Vpaddd
        | AvxOpcode::Vpaddq
        | AvxOpcode::Vaddps
        | AvxOpcode::Vaddpd
        | AvxOpcode::Vaddss
        | AvxOpcode::Vaddsd => What::Add,
        AvxOpcode::Vpaddsb | AvxOpcode::Vpaddsw => What::SaturatingAdd { signed: true },
        AvxOpcode::Vpaddusb | AvxOpcode::Vpaddusw => What::SaturatingAdd { signed: false },
        AvxOpcode::Vpsubb
        | AvxOpcode::Vpsubw
        | AvxOpcode::Vpsubd
        | AvxOpcode::Vpsubq
        | AvxOpcode::Vsubps
        | AvxOpcode::Vsubpd
        | AvxOpcode::Vsubss
        | AvxOpcode::Vsubsd => What::Sub,
        AvxOpcode::Vpsubsb | AvxOpcode::Vpsubsw => What::SaturatingSub { signed: true },
        AvxOpcode::Vpsubusb | AvxOpcode::Vpsubusw => What::SaturatingSub { signed: false },
        AvxOpcode::Vpavgb | AvxOpcode::Vpavgw => What::Average,
        AvxOpcode::Vpand | AvxOpcode::Vandps | AvxOpcode::Vandpd => What::And,
        AvxOpcode::Vpor | AvxOpcode::Vorps | AvxOpcode::Vorpd => What::Or,
        AvxOpcode::Vpxor | AvxOpcode::Vxorps | AvxOpcode::Vxorpd => What::Xor,
        AvxOpcode::Vpmullw
        | AvxOpcode::Vpmulld
        | AvxOpcode::Vmulps
        | AvxOpcode::Vmulpd
        | AvxOpcode::Vmulss
        | AvxOpcode::Vmulsd => What::Multiply,
        AvxOpcode::Vpmulhw => What::MultiplyHigh { signed: true },
        AvxOpcode::Vpmulhrsw => What::MultiplyRounded,
        AvxOpcode::Vpmulhuw => What::MultiplyHigh { signed: false },
        AvxOpcode::Vpmuldq => What::MultiplyWide { signed: true },
        AvxOpcode::Vpmuludq => What::MultiplyWide { signed: false },
        AvxOpcode::Vpunpckhwd
        | AvxOpcode::Vunpckhps
        | AvxOpcode::Vpunpckhbw
        | AvxOpcode::Vpunpckhdq
        | AvxOpcode::Vpunpckhqdq => What::Unpack { high: true },
        AvxOpcode::Vpunpcklwd
        | AvxOpcode::Vunpcklps
        | AvxOpcode::Vpunpcklbw
        | AvxOpcode::Vpunpckldq
        | AvxOpcode::Vpunpcklqdq
        | AvxOpcode::Vunpcklpd => What::Unpack { high: false },
        AvxOpcode::Vdivps
        | AvxOpcode::Vdivpd
        | AvxOpcode::Vdivss
        | AvxOpcode::Vdivsd => What::Divide,
        AvxOpcode::Vpcmpeqb
        | AvxOpcode::Vpcmpeqw
        | AvxOpcode::Vpcmpeqd
        | AvxOpcode::Vpcmpeqq => What::Equal,
        AvxOpcode::Vpcmpgtb
        | AvxOpcode::Vpcmpgtw
        | AvxOpcode::Vpcmpgtd
        | AvxOpcode::Vpcmpgtq => What::Greater,
        AvxOpcode::Vmovlhps => What::MoveLowToHigh,
        AvxOpcode::Vpminsb | AvxOpcode::Vpminsw | AvxOpcode::Vpminsd => What::Min { signed: true },
        AvxOpcode::Vpmaxsb | AvxOpcode::Vpmaxsw | AvxOpcode::Vpmaxsd => What::Max { signed: true },
        AvxOpcode::Vpminub | AvxOpcode::Vpminuw | AvxOpcode::Vpminud => What::Min { signed: false },
        AvxOpcode::Vpmaxub | AvxOpcode::Vpmaxuw | AvxOpcode::Vpmaxud => What::Max { signed: false },
        AvxOpcode::Vpacksswb | AvxOpcode::Vpackssdw => What::Pack { signed: true },
        AvxOpcode::Vpackuswb | AvxOpcode::Vpackusdw => What::Pack { signed: false },
        AvxOpcode::Vpmaddwd | AvxOpcode::Vpmaddubsw => What::MultiplyAddPairs,
        AvxOpcode::Vpshufb => What::Shuffle,
        AvxOpcode::Vphaddw | AvxOpcode::Vphaddd => What::AddPairs,
        AvxOpcode::Vmovsd
        | AvxOpcode::Vmovss
        | AvxOpcode::Vmovdqu
        | AvxOpcode::Vmovups
        | AvxOpcode::Vmovupd => What::Move,
        AvxOpcode::Vsqrtss
        | AvxOpcode::Vsqrtsd
        | AvxOpcode::Vsqrtps
        | AvxOpcode::Vsqrtpd => What::SquareRoot,
        AvxOpcode::Vcmpps | AvxOpcode::Vcmppd => What::CompareBy,
        AvxOpcode::Vpalignr => What::AlignBy,
        AvxOpcode::Vinsertps => What::InsertBy,
        AvxOpcode::Vshufps => What::ShuffleBy,
        AvxOpcode::Vpblendw => What::BlendBy,
        AvxOpcode::Vfmadd132ss
        | AvxOpcode::Vfmadd132sd
        | AvxOpcode::Vfmadd132ps
        | AvxOpcode::Vfmadd132pd => What::Fused {
            product: Product::FirstByThird,
            negated: false,
            subtracts: false,
        },
        AvxOpcode::Vfmadd213ss
        | AvxOpcode::Vfmadd213sd
        | AvxOpcode::Vfmadd213ps
        | AvxOpcode::Vfmadd213pd => What::Fused {
            product: Product::SecondByFirst,
            negated: false,
            subtracts: false,
        },
        AvxOpcode::Vfnmadd132ss
        | AvxOpcode::Vfnmadd132sd
        | AvxOpcode::Vfnmadd132ps
        | AvxOpcode::Vfnmadd132pd => What::Fused {
            product: Product::FirstByThird,
            negated: true,
            subtracts: false,
        },
        AvxOpcode::Vfnmadd213ss
        | AvxOpcode::Vfnmadd213sd
        | AvxOpcode::Vfnmadd213ps
        | AvxOpcode::Vfnmadd213pd => What::Fused {
            product: Product::SecondByFirst,
            negated: true,
            subtracts: false,
        },
        AvxOpcode::Vfmsub132ss
        | AvxOpcode::Vfmsub132sd
        | AvxOpcode::Vfmsub132ps
        | AvxOpcode::Vfmsub132pd => What::Fused {
            product: Product::FirstByThird,
            negated: false,
            subtracts: true,
        },
        AvxOpcode::Vfmsub213ss
        | AvxOpcode::Vfmsub213sd
        | AvxOpcode::Vfmsub213ps
        | AvxOpcode::Vfmsub213pd => What::Fused {
            product: Product::SecondByFirst,
            negated: false,
            subtracts: true,
        },
        AvxOpcode::Vfnmsub132ss
        | AvxOpcode::Vfnmsub132sd
        | AvxOpcode::Vfnmsub132ps
        | AvxOpcode::Vfnmsub132pd => What::Fused {
            product: Product::FirstByThird,
            negated: true,
            subtracts: true,
        },
        AvxOpcode::Vfnmsub213ss
        | AvxOpcode::Vfnmsub213sd
        | AvxOpcode::Vfnmsub213ps
        | AvxOpcode::Vfnmsub213pd => What::Fused {
            product: Product::SecondByFirst,
            negated: true,
            subtracts: true,
        },
        AvxOpcode::Vpmovsxbw
        | AvxOpcode::Vpmovsxwd
        | AvxOpcode::Vpmovsxdq => What::Extend { signed: true },
        AvxOpcode::Vpmovzxbw
        | AvxOpcode::Vpmovzxwd
        | AvxOpcode::Vpmovzxdq => What::Extend { signed: false },
        AvxOpcode::Vpabsb | AvxOpcode::Vpabsw | AvxOpcode::Vpabsd => What::Absolute,
        AvxOpcode::Vpbroadcastb
        | AvxOpcode::Vpbroadcastw
        | AvxOpcode::Vpbroadcastd
        | AvxOpcode::Vbroadcastss => What::Broadcast,
        AvxOpcode::Vpextrb
        | AvxOpcode::Vpextrw
        | AvxOpcode::Vpextrd
        | AvxOpcode::Vpextrq => What::Extract,
        AvxOpcode::Vucomiss | AvxOpcode::Vucomisd => What::OrderFlags,
        AvxOpcode::Vptest => What::TestFlags,
    }
}

/// What the lanes of an operation hold, by its name.
pub open spec fn avx_lane(op: AvxOpcode) -> Lane {
    match op {
        AvxOpcode::Vpsrlw
        | AvxOpcode::Vpsllw
        | AvxOpcode::Vpsraw
        | AvxOpcode::Vpaddw
        | AvxOpcode::Vpaddsw
        | AvxOpcode::Vpaddusw
        | AvxOpcode::Vpsubw
        | AvxOpcode::Vpsubsw
        | AvxOpcode::Vpsubusw
        | AvxOpcode::Vpavgw
        | AvxOpcode::Vpmullw
        | AvxOpcode::Vpmulhw
        | AvxOpcode::Vpmulhrsw
        | AvxOpcode::Vpmulhuw
        | AvxOpcode::Vpunpckhwd
        | AvxOpcode::Vpunpcklwd
        | AvxOpcode::Vpcmpeqw
        | AvxOpcode::Vpcmpgtw
        | AvxOpcode::Vpminsw
        | AvxOpcode::Vpmaxsw
        | AvxOpcode::Vpminuw
        | AvxOpcode::Vpmaxuw
        | AvxOpcode::Vpacksswb
        | AvxOpcode::Vpackuswb
        | AvxOpcode::Vpmaddwd
        | AvxOpcode::Vphaddw
        | AvxOpcode::Vpblendw
        | AvxOpcode::Vpmovsxwd
        | AvxOpcode::Vpmovzxwd
        | AvxOpcode::Vpabsw
        | AvxOpcode::Vpbroadcastw
        | AvxOpcode::Vpextrw => Lane::I16,
        AvxOpcode::Vpsrld
        | AvxOpcode::Vpslld
        | AvxOpcode::Vpsrad
        | AvxOpcode::Vpaddd
        | AvxOpcode::Vpsubd
        | AvxOpcode::Vpmulld
        | AvxOpcode::Vpmuldq
        | AvxOpcode::Vpmuludq
        | AvxOpcode::Vpcmpeqd
        | AvxOpcode::Vpcmpgtd
        | AvxOpcode::Vpminsd
        | AvxOpcode::Vpmaxsd
        | AvxOpcode::Vpminud
        | AvxOpcode::Vpmaxud
        | AvxOpcode::Vpackssdw
        | AvxOpcode::Vpackusdw
        | AvxOpcode::Vphaddd
        | AvxOpcode::Vpunpckldq
        | AvxOpcode::Vpunpckhdq
        | AvxOpcode::Vpmovsxdq
        | AvxOpcode::Vpmovzxdq
        | AvxOpcode::Vpabsd
        | AvxOpcode::Vpbroadcastd
        | AvxOpcode::Vpextrd => Lane::I32,
        AvxOpcode::Vpsrlq
        | AvxOpcode::Vpsllq
        | AvxOpcode::Vpaddq
        | AvxOpcode::Vpsubq
        | AvxOpcode::Vpcmpeqq
        | AvxOpcode::Vpcmpgtq
        | AvxOpcode::Vpunpcklqdq
        | AvxOpcode::Vpunpckhqdq
        | AvxOpcode::Vpextrq => Lane::I64,
        AvxOpcode::Vminps
        | AvxOpcode::Vmaxps
        | AvxOpcode::Vandnps
        | AvxOpcode::Vandps
        | AvxOpcode::Vorps
        | AvxOpcode::Vxorps
        | AvxOpcode::Vunpcklps
        | AvxOpcode::Vunpckhps
        | AvxOpcode::Vaddps
        | AvxOpcode::Vsubps
        | AvxOpcode::Vmulps
        | AvxOpcode::Vdivps
        | AvxOpcode::Vmovlhps
        | AvxOpcode::Vaddss
        | AvxOpcode::Vmulss
        | AvxOpcode::Vsubss
        | AvxOpcode::Vdivss
        | AvxOpcode::Vminss
        | AvxOpcode::Vmaxss
        | AvxOpcode::Vmovss
        | AvxOpcode::Vsqrtss
        | AvxOpcode::Vcmpps
        | AvxOpcode::Vinsertps
        | AvxOpcode::Vshufps
        | AvxOpcode::Vfmadd132ss
        | AvxOpcode::Vfmadd213ss
        | AvxOpcode::Vfnmadd132ss
        | AvxOpcode::Vfnmadd213ss
        | AvxOpcode::Vfmadd132ps
        | AvxOpcode::Vfmadd213ps
        | AvxOpcode::Vfnmadd132ps
        | AvxOpcode::Vfnmadd213ps
        | AvxOpcode::Vfmsub132ss
        | AvxOpcode::Vfmsub213ss
        | AvxOpcode::Vfnmsub132ss
        | AvxOpcode::Vfnmsub213ss
        | AvxOpcode::Vfmsub132ps
        | AvxOpcode::Vfmsub213ps
        | AvxOpcode::Vfnmsub132ps
        | AvxOpcode::Vfnmsub213ps
        | AvxOpcode::Vsqrtps
        | AvxOpcode::Vmovups
        | AvxOpcode::Vbroadcastss
        | AvxOpcode::Vucomiss => Lane::F32,
        AvxOpcode::Vminpd
        | AvxOpcode::Vmaxpd
        | AvxOpcode::Vandnpd
        | AvxOpcode::Vandpd
        | AvxOpcode::Vorpd
        | AvxOpcode::Vxorpd
        | AvxOpcode::Vaddpd
        | AvxOpcode::Vsubpd
        | AvxOpcode::Vmulpd
        | AvxOpcode::Vdivpd
        | AvxOpcode::Vaddsd
        | AvxOpcode::Vmulsd
        | AvxOpcode::Vsubsd
        | AvxOpcode::Vdivsd
        | AvxOpcode::Vminsd
        | AvxOpcode::Vmaxsd
        | AvxOpcode::Vmovsd
        | AvxOpcode::Vsqrtsd
        | AvxOpcode::Vunpcklpd
        | AvxOpcode::Vcmppd
        | AvxOpcode::Vfmadd132sd
        | AvxOpcode::Vfmadd213sd
        | AvxOpcode::Vfnmadd132sd
        | AvxOpcode::Vfnmadd213sd
        | AvxOpcode::Vfmadd132pd
        | AvxOpcode::Vfmadd213pd
        | AvxOpcode::Vfnmadd132pd
        | AvxOpcode::Vfnmadd213pd
        | AvxOpcode::Vfmsub132sd
        | AvxOpcode::Vfmsub213sd
        | AvxOpcode::Vfnmsub132sd
        | AvxOpcode::Vfnmsub213sd
        | AvxOpcode::Vfmsub132pd
        | AvxOpcode::Vfmsub213pd
        | AvxOpcode::Vfnmsub132pd
        | AvxOpcode::Vfnmsub213pd
        | AvxOpcode::Vsqrtpd
        | AvxOpcode::Vmovupd
        | AvxOpcode::Vucomisd => Lane::F64,
        AvxOpcode::Vpandn
        | AvxOpcode::Vpand
        | AvxOpcode::Vpor
        | AvxOpcode::Vpxor
        | AvxOpcode::Vpalignr
        | AvxOpcode::Vmovdqu
        | AvxOpcode::Vptest => Lane::Whole,
        AvxOpcode::Vpaddb
        | AvxOpcode::Vpaddsb
        | AvxOpcode::Vpaddusb
        | AvxOpcode::Vpsubb
        | AvxOpcode::Vpsubsb
        | AvxOpcode::Vpsubusb
        | AvxOpcode::Vpavgb
        | AvxOpcode::Vpcmpeqb
        | AvxOpcode::Vpcmpgtb
        | AvxOpcode::Vpminsb
        | AvxOpcode::Vpmaxsb
        | AvxOpcode::Vpminub
        | AvxOpcode::Vpmaxub
        | AvxOpcode::Vpunpcklbw
        | AvxOpcode::Vpunpckhbw
        | AvxOpcode::Vpmaddubsw
        | AvxOpcode::Vpshufb
        | AvxOpcode::Vpmovsxbw
        | AvxOpcode::Vpmovzxbw
        | AvxOpcode::Vpabsb
        | AvxOpcode::Vpbroadcastb
        | AvxOpcode::Vpextrb => Lane::I8,
    }
}

/// Whether an operation is on the lowest lane alone, by its name.
pub open spec fn avx_is_scalar(op: AvxOpcode) -> bool {
    match op {
        AvxOpcode::Vaddss
        | AvxOpcode::Vaddsd
        | AvxOpcode::Vmulss
        | AvxOpcode::Vmulsd
        | AvxOpcode::Vsubss
        | AvxOpcode::Vsubsd
        | AvxOpcode::Vdivss
        | AvxOpcode::Vdivsd
        | AvxOpcode::Vminss
        | AvxOpcode::Vminsd
        | AvxOpcode::Vmaxss
        | AvxOpcode::Vmaxsd
        | AvxOpcode::Vmovsd
        | AvxOpcode::Vmovss
        | AvxOpcode::Vsqrtss
        | AvxOpcode::Vsqrtsd
        | AvxOpcode::Vfmadd132ss
        | AvxOpcode::Vfmadd213ss
        | AvxOpcode::Vfnmadd132ss
        | AvxOpcode::Vfnmadd213ss
        | AvxOpcode::Vfmadd132sd
        | AvxOpcode::Vfmadd213sd
        | AvxOpcode::Vfnmadd132sd
        | AvxOpcode::Vfnmadd213sd
        | AvxOpcode::Vfmsub132ss
        | AvxOpcode::Vfmsub213ss
        | AvxOpcode::Vfnmsub132ss
        | AvxOpcode::Vfnmsub213ss
        | AvxOpcode::Vfmsub132sd
        | AvxOpcode::Vfmsub213sd
        | AvxOpcode::Vfnmsub132sd
        | AvxOpcode::Vfnmsub213sd
        | AvxOpcode::Vucomiss
        | AvxOpcode::Vucomisd => true,
        _ => false,
    }
}

/// The operation that a name stands for.
pub open spec fn avx_operation(op: AvxOpcode) -> Operation {
    Operation { what: avx_what(op), lane: avx_lane(op), scalar: avx_is_scalar(op) }
}

/// What an operation does, by its name.
pub open spec fn evex_what(op: Avx512Opcode) -> What {
    match op {
        Avx512Opcode::Vcvtudq2ps => What::FromUnsigned,
        Avx512Opcode::Vpabsq => What::Absolute,
        Avx512Opcode::Vpopcntb => What::CountBits,
        Avx512Opcode::VpsraqImm | Avx512Opcode::Vpsraq => What::ShiftRight { signed: true },
        Avx512Opcode::Vpermi2b => What::Permute,
        Avx512Opcode::Vpmullq => What::Multiply,
    }
}

/// What the lanes of an operation hold, by its name.
pub open spec fn evex_lane(op: Avx512Opcode) -> Lane {
    match op {
        Avx512Opcode::Vcvtudq2ps => Lane::F32,
        Avx512Opcode::Vpabsq
        | Avx512Opcode::VpsraqImm
        | Avx512Opcode::Vpmullq
        | Avx512Opcode::Vpsraq => Lane::I64,
        Avx512Opcode::Vpopcntb | Avx512Opcode::Vpermi2b => Lane::I8,
    }
}

/// The operation that a name stands for.
pub open spec fn evex_operation(op: Avx512Opcode) -> Operation {
    Operation { what: evex_what(op), lane: evex_lane(op), scalar: false }
}

/// Each opcode without a separate destination stands for the operation that it is
/// named after, and there is one for each.
#[verifier::rlimit(60)]
pub proof fn law_short_opcodes_mean_their_names(op: SseOpcode)
    ensures
        ({
            let o = sse_operation(op);
            let unary = crate::x64::opcodes::sse_unary_code(op);
            let binary = crate::x64::opcodes::sse_rm_r_code(op);
            let by_number = crate::x64::opcodes::sse_rm_r_imm_code(op);
            let flags = crate::x64::opcodes::sse_compare_code(op);
            &&& unary is Some <==> is_unary(o)
            &&& binary is Some <==> is_binary(o)
            &&& by_number is Some <==> is_by_number(o)
            &&& flags is Some <==> is_comparison(o)
            &&& unary matches Some(c) ==> short_code_means(c, o)
            &&& binary matches Some(c) ==> short_code_means(c, o)
            &&& by_number matches Some(c) ==> short_code_means(c, o)
            &&& flags matches Some(c) ==> short_code_means(c, o)
        }),
{
}

/// Whether an opcode stands for an operation.
pub open spec fn short_code_means(c: crate::x64::opcodes::SseCode, o: Operation) -> bool {
    match read_bytes(c.opcode as int, c.num_opcodes as int) {
        None => false,
        Some((map, n)) => {
            &&& read_opcode(c.prefix, map, false, n, false) == Some(o)
            &&& !is_store(map, n)
        },
    }
}

/// Whether an opcode stands for an operation.
pub open spec fn code_means(
    c: crate::x64::opcodes::VexCode,
    o: Operation,
    longest: bool,
    stores: bool,
) -> bool {
    &&& read_opcode(c.prefix, c.map, c.w, c.opcode as int, longest) == Some(o)
    &&& is_store(c.map, c.opcode as int) == stores
    &&& longest ==> !(0x71 <= c.opcode <= 0x73)
}

/// Each opcode of two operands stands for the operation that it is named after,
/// and there is one for each.
#[verifier::rlimit(40)]
pub proof fn law_binary_opcodes_mean_their_names(op: AvxOpcode)
    ensures
        ({
            let o = avx_operation(op);
            let code = crate::x64::opcodes::avx_rmi_r_code(op);
            &&& code is Some <==> is_binary(o)
            &&& code matches Some(c) ==> code_means(c, o, false, false) && !c.w
        }),
{
}

/// Each shift by a number stands for the operation that it is named after, and
/// there is one for each shift.
pub proof fn law_shifts_mean_their_names(op: AvxOpcode)
    ensures
        ({
            let o = avx_operation(op);
            let code = crate::x64::opcodes::avx_shift_imm_code(op);
            &&& code is Some <==> is_shift(o)
            &&& code matches Some(c) ==> read_shift(c.opcode as int, c.opcode_ext as int, false)
                == Some(o)
        }),
{
}

/// Each opcode of another form stands for the operation that it is named after,
/// and there is one for each.
#[verifier::rlimit(40)]
pub proof fn law_other_opcodes_mean_their_names(op: AvxOpcode, in_memory: bool)
    ensures
        ({
            let o = avx_operation(op);
            let by_number = crate::x64::opcodes::avx_rm_r_imm_code(op);
            let fused = crate::x64::opcodes::avx_fused_code(op);
            let unary = crate::x64::opcodes::avx_unary_code(op, in_memory);
            let store = crate::x64::opcodes::avx_store_code(op);
            let extract = crate::x64::opcodes::avx_extract_code(op);
            let flags = crate::x64::opcodes::avx_compare_code(op);
            &&& by_number is Some <==> is_by_number(o)
            &&& fused is Some <==> o.what is Fused
            &&& unary is Some <==> is_unary(o) || o.what is Move && in_memory
            &&& store is Some <==> o.what is Move
            &&& extract is Some <==> o.what is Extract
            &&& flags is Some <==> is_comparison(o)
            &&& by_number matches Some(c) ==> code_means(c, o, false, false)
            &&& fused matches Some(c) ==> code_means(c, o, false, false)
            &&& unary matches Some(c) ==> code_means(c, o, false, false) && !c.w
            &&& store matches Some(c) ==> code_means(c, o, false, true) && !c.w
            &&& extract matches Some(c) ==> code_means(c, o, false, false)
            &&& flags matches Some(c) ==> code_means(c, o, false, false) && !c.w
        }),
{
}

/// Each opcode with the longest prefix stands for the operation that it is named
/// after, and there is one for each.
pub proof fn law_longest_opcodes_mean_their_names(op: Avx512Opcode)
    ensures
        ({
            let o = evex_operation(op);
            let unary = crate::x64::opcodes::evex_unary_code(op);
            let binary = crate::x64::opcodes::evex_rm_r_code(op);
            let shift = crate::x64::opcodes::evex_imm_code(op);
            &&& unary is Some <==> is_unary(o)
            &&& binary is Some <==> is_binary(o) && !(op is VpsraqImm)
            &&& shift is Some <==> op is VpsraqImm
            &&& unary matches Some(c) ==> code_means(c, o, true, false)
            &&& binary matches Some(c) ==> code_means(c, o, true, false)
            &&& shift matches Some(c) ==> 0x71 <= c.opcode <= 0x73 && read_shift(
                c.opcode as int,
                c.opcode_ext as int,
                c.w,
            ) == Some(o)
        }),
{
}

/// The only vector instruction of a listing.
pub open spec fn only(inst: Inst, info: EmitInfo, state: EmitState) -> Option<Reading> {
    let steps = crate::x64::emit::listing(inst, info, state);
    if steps.len() == 1 {
        read(steps[0])
    } else {
        None
    }
}

/// An instruction of two operands is read as its operation on the operands in
/// their order. Only those of a commutative operation may be swapped, and they are
/// where that spares the last operand a high register.
pub proof fn law_binary_instruction(
    op: AvxOpcode,
    commutative: bool,
    src1: Xmm,
    src2: RegMem,
    dst: Xmm,
    info: EmitInfo,
    state: EmitState,
)
    requires
        is_binary(avx_operation(op)),
        // A move from memory has one operand.
        avx_operation(op).what is Move ==> src2 is Reg,
    ensures
        ({
            let r = only(
                Inst::XmmRmiRVex {
                    op,
                    commutative,
                    src1,
                    src2: match src2 {
                        RegMem::Reg { reg } => RegMemImm::Reg { reg },
                        RegMem::Mem { addr } => RegMemImm::Mem { addr },
                    },
                    dst,
                },
                info,
                state,
            );
            let (a, b) = (Place::Vector(src1.enc), operand_place(src2));
            &&& r is Some
            &&& r->0.operation == avx_operation(op)
            &&& r->0.to == Some(Place::Vector(dst.enc))
            &&& r->0.number is None
            &&& r->0.from == seq![a, b] || commutative && r->0.from == seq![b, a]
            &&& commutative && (b matches Place::Vector(n) && (n < 8 || src1.enc < 8)) ==> (
            r->0.from[1] matches Place::Vector(last) && last < 8)
            &&& (b matches Place::Vector(n) && n < 8) ==> r->0.from == seq![a, b]
        }),
{
    law_binary_opcodes_mean_their_names(op);
    lemma_kept_apart(avx_operation(op));
}

/// What is of two operands is of no other form.
proof fn lemma_kept_apart(o: Operation)
    ensures
        is_binary(o) ==> !is_unary(o) && !is_comparison(o) && !(o.what is Extract),
{
}

/// A shift by a number is read as its operation on the operand, by the number.
pub proof fn law_shift_instruction(
    op: AvxOpcode,
    commutative: bool,
    src1: Xmm,
    simm32: u32,
    dst: Xmm,
    info: EmitInfo,
    state: EmitState,
)
    requires
        is_shift(avx_operation(op)),
        simm32 < 0x100,
    ensures
        ({
            let r = only(
                Inst::XmmRmiRVex {
                    op,
                    commutative,
                    src1,
                    src2: RegMemImm::Imm { simm32 },
                    dst,
                },
                info,
                state,
            );
            &&& r is Some
            &&& r->0.operation == avx_operation(op)
            &&& r->0.to == Some(Place::Vector(dst.enc))
            &&& r->0.from == seq![Place::Vector(src1.enc)]
            &&& r->0.number is Some
            &&& r->0.number->0 as int == simm32
        }),
{
    law_shifts_mean_their_names(op);
    assert(simm32 < 0x100 ==> simm32 as u8 as u32 == simm32) by (bit_vector);
}

/// An instruction of two operands that goes by a number is read as its operation
/// on the operands in their order, by the number.
pub proof fn law_instruction_by_a_number(
    op: AvxOpcode,
    src1: Xmm,
    src2: RegMem,
    dst: Xmm,
    imm: u8,
    info: EmitInfo,
    state: EmitState,
)
    requires
        is_by_number(avx_operation(op)),
    ensures
        only(Inst::XmmRmRImmVex { op, src1, src2, dst, imm }, info, state) == Some(
            Reading {
                operation: avx_operation(op),
                to: Some(Place::Vector(dst.enc)),
                from: seq![Place::Vector(src1.enc), operand_place(src2)],
                number: Some(imm),
            },
        ),
{
    law_other_opcodes_mean_their_names(op, false);
    assert(is_by_number(avx_operation(op)));
}

/// A multiplication with an addition is read as its operation on the operands in
/// their order. The first is where the result goes.
pub proof fn law_fused_instruction(
    op: AvxOpcode,
    src1: Xmm,
    src2: Xmm,
    src3: RegMem,
    info: EmitInfo,
    state: EmitState,
)
    requires
        avx_operation(op).what is Fused,
    ensures
        only(Inst::XmmRmRVex3 { op, src1, src2, src3, dst: src1 }, info, state) == Some(
            Reading {
                operation: avx_operation(op),
                to: Some(Place::Vector(src1.enc)),
                from: seq![
                    Place::Vector(src1.enc),
                    Place::Vector(src2.enc),
                    operand_place(src3),
                ],
                number: None,
            },
        ),
{
    law_other_opcodes_mean_their_names(op, false);
}

/// An instruction of one operand is read as its operation on that operand.
pub proof fn law_unary_instruction(
    op: AvxOpcode,
    src: RegMem,
    dst: Xmm,
    info: EmitInfo,
    state: EmitState,
)
    requires
        is_unary(avx_operation(op)) || avx_operation(op).what is Move && src is Mem,
    ensures
        only(Inst::XmmUnaryRmRVex { op, src, dst }, info, state) == Some(
            Reading {
                operation: avx_operation(op),
                to: Some(Place::Vector(dst.enc)),
                from: seq![operand_place(src)],
                number: None,
            },
        ),
{
    law_other_opcodes_mean_their_names(op, src is Mem);
}

/// A move to memory is read as such.
pub proof fn law_store_instruction(
    op: AvxOpcode,
    src: Xmm,
    dst: Amode,
    info: EmitInfo,
    state: EmitState,
)
    requires
        avx_operation(op).what is Move,
    ensures
        only(Inst::XmmMovRMVex { op, src, dst }, info, state) == Some(
            Reading {
                operation: avx_operation(op),
                to: Some(Place::Memory(dst)),
                from: seq![Place::Vector(src.enc)],
                number: None,
            },
        ),
{
    law_other_opcodes_mean_their_names(op, false);
}

/// An extraction takes the lane with the number to a register or to memory.
pub proof fn law_extract_instruction(
    op: AvxOpcode,
    src: Xmm,
    dst: Gpr,
    addr: Amode,
    imm: u8,
    info: EmitInfo,
    state: EmitState,
)
    requires
        avx_operation(op).what is Extract,
    ensures
        only(Inst::XmmToGprImmVex { op, src, dst, imm }, info, state) == Some(
            Reading {
                operation: avx_operation(op),
                to: Some(Place::General(dst.enc)),
                from: seq![Place::Vector(src.enc)],
                number: Some(imm),
            },
        ),
        only(Inst::XmmMovRMImmVex { op, src, dst: addr, imm }, info, state) == Some(
            Reading {
                operation: avx_operation(op),
                to: Some(Place::Memory(addr)),
                from: seq![Place::Vector(src.enc)],
                number: Some(imm),
            },
        ),
{
    law_other_opcodes_mean_their_names(op, false);
}

/// A comparison is read as one of its operands in their order.
pub proof fn law_comparing_instruction(
    op: AvxOpcode,
    src1: Xmm,
    src2: RegMem,
    info: EmitInfo,
    state: EmitState,
)
    requires
        is_comparison(avx_operation(op)),
    ensures
        only(Inst::XmmCmpRmRVex { op, src1, src2 }, info, state) == Some(
            Reading {
                operation: avx_operation(op),
                to: None,
                from: seq![Place::Vector(src1.enc), operand_place(src2)],
                number: None,
            },
        ),
{
    law_other_opcodes_mean_their_names(op, false);
}

/// Instructions with the longest prefix are read as their operations on their
/// operands.
pub proof fn law_longest_instructions(
    op: Avx512Opcode,
    src1: Xmm,
    src2: Xmm,
    src: RegMem,
    dst: Xmm,
    imm: u8,
    info: EmitInfo,
    state: EmitState,
)
    ensures
        is_unary(evex_operation(op)) ==> only(Inst::XmmUnaryRmREvex { op, src, dst }, info, state)
            == Some(
            Reading {
                operation: evex_operation(op),
                to: Some(Place::Vector(dst.enc)),
                from: seq![operand_place(src)],
                number: None,
            },
        ),
        op is VpsraqImm ==> only(Inst::XmmUnaryRmRImmEvex { op, src, dst, imm }, info, state)
            == Some(
            Reading {
                operation: evex_operation(op),
                to: Some(Place::Vector(dst.enc)),
                from: seq![operand_place(src)],
                number: Some(imm),
            },
        ),
        op is Vpmullq || op is Vpsraq ==> only(
            Inst::XmmRmREvex { op, src1, src2: src, dst },
            info,
            state,
        ) == Some(
            Reading {
                operation: evex_operation(op),
                to: Some(Place::Vector(dst.enc)),
                from: seq![Place::Vector(src1.enc), operand_place(src)],
                number: None,
            },
        ),
        op is Vpermi2b ==> only(
            Inst::XmmRmREvex3 { op, src1, src2, src3: src, dst: src1 },
            info,
            state,
        ) == Some(
            Reading {
                operation: evex_operation(op),
                to: Some(Place::Vector(src1.enc)),
                from: seq![
                    Place::Vector(src1.enc),
                    Place::Vector(src2.enc),
                    operand_place(src),
                ],
                number: None,
            },
        ),
{
    law_longest_opcodes_mean_their_names(op);
}

/// Whether a step has a prefix `W` that is clear, and so many bytes behind it.
pub open spec fn is_plain(step: Step, bytes: u8) -> bool {
    match step {
        Step::StdRegReg { rex, .. } => rex == Rex::of(RexBase::ClearW),
        Step::StdRegMem { rex, bytes_at_end, .. } => {
            rex == Rex::of(RexBase::ClearW) && bytes_at_end == bytes
        },
        _ => false,
    }
}

/// Instructions without a separate destination are read as their operations on
/// their operands in their order, and nothing is behind them.
pub proof fn law_short_instructions(
    op: SseOpcode,
    src1: Xmm,
    src2: RegMem,
    info: EmitInfo,
    state: EmitState,
)
    ensures
        ({
            let o = sse_operation(op);
            let (a, b) = (Place::Vector(src1.enc), operand_place(src2));
            let unary = Inst::XmmUnaryRmR { op, src: src2, dst: src1 };
            let binary = Inst::XmmRmR { op, src1, src2, dst: src1 };
            let unaligned = Inst::XmmRmRUnaligned { op, src1, src2, dst: src1 };
            let flags = Inst::XmmCmpRmR { op, src1, src2 };
            &&& is_unary(o) ==> {
                &&& only(unary, info, state) == Some(
                    Reading { operation: o, to: Some(a), from: seq![b], number: None },
                )
                &&& is_plain(crate::x64::emit::listing(unary, info, state)[0], 0)
            }
            &&& is_binary(o) ==> {
                &&& only(binary, info, state) == Some(
                    Reading { operation: o, to: Some(a), from: seq![a, b], number: None },
                )
                &&& is_plain(crate::x64::emit::listing(binary, info, state)[0], 0)
                &&& crate::x64::emit::listing(unaligned, info, state)
                    == crate::x64::emit::listing(binary, info, state)
            }
            &&& is_comparison(o) ==> {
                &&& only(flags, info, state) == Some(
                    Reading { operation: o, to: None, from: seq![a, b], number: None },
                )
                &&& is_plain(crate::x64::emit::listing(flags, info, state)[0], 0)
            }
        }),
{
    law_short_opcodes_mean_their_names(op);
}

/// An instruction without a separate destination that goes by a number is read as
/// its operation on its operands in their order. The number is the one byte behind
/// it.
pub proof fn law_short_instruction_by_a_number(
    op: SseOpcode,
    src1: Xmm,
    src2: RegMem,
    imm: u8,
    size: OperandSize,
    info: EmitInfo,
    state: EmitState,
)
    requires
        is_by_number(sse_operation(op)),
    ensures
        ({
            let steps = crate::x64::emit::listing(
                Inst::XmmRmRImm {
                    op,
                    src1: Reg::Xmm(src1),
                    src2,
                    dst: Reg::Xmm(src1),
                    imm,
                    size,
                },
                info,
                state,
            );
            &&& steps.len() == 2
            &&& read(steps[0]) == Some(
                Reading {
                    operation: sse_operation(op),
                    to: Some(Place::Vector(src1.enc)),
                    from: seq![Place::Vector(src1.enc), operand_place(src2)],
                    number: None,
                },
            )
            &&& steps[0] matches Step::StdRegReg { rex, .. } ==> rex == Rex::of(RexBase::Size(size))
            &&& steps[0] matches Step::StdRegMem { rex, bytes_at_end, .. } ==> rex == Rex::of(
                RexBase::Size(size),
            ) && bytes_at_end == 1
            &&& steps[1] == Step::Put1(imm)
        }),
{
    law_short_opcodes_mean_their_names(op);
}

/// A vector instruction can be emitted exactly if there is an operation of its form by that
/// name. A number has one byte, and an operand that is replaced is where the result goes.
pub proof fn law_vector_instructions_that_can_be_emitted(
    op: AvxOpcode,
    short: SseOpcode,
    regs: (Xmm, Xmm, Xmm),
    general: Gpr,
    src: RegMem,
    addr: Amode,
    simm32: u32,
    imm: u8,
    info: EmitInfo,
    state: EmitState,
)
    ensures
        ({
            let o = avx_operation(op);
            let p = sse_operation(short);
            let (a, b, c) = regs;
            let place = RegMemImm::Mem { addr };
            let number = RegMemImm::Imm { simm32 };
            let can = |i: Inst| crate::x64::emit::emittable(i, info, state);
            &&& can(
                Inst::XmmRmiRVex { op, commutative: true, src1: a, src2: place, dst: b },
            ) <==> is_binary(o)
            &&& can(
                Inst::XmmRmiRVex { op, commutative: true, src1: a, src2: number, dst: b },
            ) <==> is_shift(o) && simm32 < 0x100
            &&& can(Inst::XmmRmRImmVex { op, src1: a, src2: src, dst: b, imm }) <==> is_by_number(
                o,
            )
            &&& can(Inst::XmmRmRVex3 { op, src1: a, src2: b, src3: src, dst: c }) <==> a == c
                && o.what is Fused
            &&& can(Inst::XmmUnaryRmRVex { op, src, dst: a }) <==> is_unary(o) || o.what is Move
                && src is Mem
            &&& can(Inst::XmmMovRMVex { op, src: a, dst: addr }) <==> o.what is Move
            &&& can(Inst::XmmMovRMImmVex { op, src: a, dst: addr, imm }) <==> o.what is Extract
            &&& can(Inst::XmmToGprImmVex { op, src: a, dst: general, imm }) <==> o.what is Extract
            &&& can(Inst::XmmCmpRmRVex { op, src1: a, src2: src }) <==> is_comparison(o)
            &&& can(Inst::XmmUnaryRmR { op: short, src, dst: a }) <==> is_unary(p)
            &&& can(Inst::XmmRmR { op: short, src1: a, src2: src, dst: b }) <==> is_binary(p) && a
                == b
            &&& can(Inst::XmmCmpRmR { op: short, src1: a, src2: src }) <==> is_comparison(p)
        }),
{
    law_binary_opcodes_mean_their_names(op);
    law_shifts_mean_their_names(op);
    law_other_opcodes_mean_their_names(op, src is Mem);
    law_short_opcodes_mean_their_names(short);
}

} // verus!
