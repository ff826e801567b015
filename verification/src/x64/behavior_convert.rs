//! What the code for conversions of floats to integers does.

use crate::x64::args::{Gpr, Label, OperandSize, Reg, RegMemImm, TrapCode, Xmm, CC};
use crate::x64::behavior_basic::{effect, lemma_run_one, lemma_run_three, lemma_run_two};
use crate::x64::floats::{half, is_wide};
use crate::x64::inst::{EmitInfo, EmitState, FrameLayout, Inst};
use crate::x64::machine::{At, Machine};
use crate::x64::sink::{AsmOp, Built, Step};
use vstd::prelude::*;

verus! {

broadcast use {
    crate::x64::machine::group_run,
    crate::x64::machine::group_step,
    crate::x64::machine::group_jump,
};

/// The float of a size in a vector register.
pub open spec fn float(s: Machine, size: OperandSize, r: Xmm) -> int {
    crate::x64::machine::float_in(is_wide(size), s.vec(r))
}

/// What a conversion gives: an integer, or a trap.
pub enum Converted {
    Integer(int),
    Trap(TrapCode),
}

/// What the conversion of a float to an integer from `least` to `greatest` gives.
pub open spec fn converted(
    wide: bool,
    bits: int,
    least: int,
    greatest: int,
    is_saturating: bool,
) -> Converted {
    let n = crate::x64::machine::truncated(wide, bits);
    if crate::x64::machine::is_nan(wide, bits) {
        if is_saturating {
            Converted::Integer(0)
        } else {
            Converted::Trap(TrapCode::BadConversionToInteger)
        }
    } else if least <= n <= greatest {
        Converted::Integer(n)
    } else if !is_saturating {
        Converted::Trap(TrapCode::IntegerOverflow)
    } else if n < least {
        Converted::Integer(least)
    } else {
        Converted::Integer(greatest)
    }
}

/// Whether a machine ended with what a conversion gives.
pub open spec fn gives(r: Machine, dst: Gpr, size: OperandSize, c: Converted) -> bool {
    match c {
        Converted::Integer(n) => r.at is Here && r.reg(dst) == crate::x64::machine::wrapped(
            n,
            size,
        ),
        Converted::Trap(code) => r.at == At::Trapped(code),
    }
}

/// The truncating instruction reads a float of the source size and gives an
/// integer of the destination size.
pub proof fn law_truncation_has_its_sizes(
    s: Machine,
    frame: FrameLayout,
    src_size: OperandSize,
    dst_size: OperandSize,
    dst: Gpr,
    src: Xmm,
)
    requires
        s.at is Here,
        s.pending is Nothing,
        crate::x64::emit_convert::cvt_ok(src_size, dst_size),
    ensures
        crate::x64::machine::step(
            s,
            crate::x64::emit_convert::truncation(frame, src_size, dst_size, dst, src),
        ) == s.set(
            dst.enc,
            crate::x64::machine::hardware_truncation(
                is_wide(src_size),
                float(s, src_size, src),
                dst_size,
            ) as u64,
        ),
{
    reveal(crate::x64::machine::assembled);
}

pub proof fn lemma_compare_imm(s: Machine, size: OperandSize, reg: Gpr, n: u32)
    requires
        s.at is Here,
        s.pending is Nothing,
        n < 0x8000_0000,
        size is Size32 || size is Size64,
    ensures
        crate::x64::machine::step(s, crate::x64::emit_convert::compare_imm(size, reg, n))
            == s.set_flags(
            crate::x64::machine::sub_flags(
                crate::x64::machine::low(s.reg(reg), size),
                n as int,
                0,
                size,
            ),
        ),
{
    lemma_small_number(n, size);
    let o = RegMemImm::Imm { simm32: n };
    assert(s.operand_or_number(o, size) == n);
    lemma_built_compare(s, size, reg, o);
}

/// A comparison that a constructor makes.
pub proof fn lemma_built_compare(s: Machine, size: OperandSize, src1: Gpr, src2: RegMemImm)
    ensures
        crate::x64::machine::built(s, Built::CmpRmiR { size, src1, src2 }) == s.set_flags(
            crate::x64::machine::sub_flags(
                crate::x64::machine::low(s.reg(src1), size),
                s.operand_or_number(src2, size),
                0,
                size,
            ),
        ),
{
    reveal(crate::x64::machine::built);
}

/// A number that is not negative stays as it is.
proof fn lemma_small_number(n: u32, size: OperandSize)
    requires
        n < 0x8000_0000,
        size is Size32 || size is Size64,
    ensures
        crate::x64::machine::wrapped(
            crate::x64::machine::signed(n as int, OperandSize::Size32),
            size,
        ) == n,
{
}

pub proof fn lemma_compare_float(s: Machine, size: OperandSize, a: Xmm, b: Xmm)
    requires
        s.at is Here,
        s.pending is Nothing,
        size is Size32 || size is Size64,
    ensures
        crate::x64::machine::step(
            s,
            crate::x64::emit_convert::compare_float(
                crate::x64::emit_convert::compare_op(size),
                a,
                b,
            ),
        ) == s.set_flags(
            crate::x64::machine::float_flags(is_wide(size), float(s, size, a), float(s, size, b)),
        ),
{
    reveal(crate::x64::machine::built);
}

pub proof fn lemma_clear(s: Machine, frame: FrameLayout, size: OperandSize, dst: Gpr)
    requires
        s.at is Here,
        s.pending is Nothing,
    ensures
        ({
            let r = crate::x64::machine::step(
                s,
                crate::x64::emit_convert::clear(frame, size, dst),
            );
            r == s.set(dst.enc, 0).set_flags(r.flags)
        }),
{
    reveal(crate::x64::machine::assembled);
    reveal(crate::x64::machine::alu);
    let x = s.reg(dst);
    assert(x ^ x == 0) by (bit_vector);
}

pub proof fn lemma_zero_vector(s: Machine, frame: FrameLayout, tmp: Xmm)
    requires
        s.at is Here,
        s.pending is Nothing,
    ensures
        crate::x64::machine::step(
            s,
            crate::x64::emit_basic::asm_rr(frame, AsmOp::XorpdA, Reg::Xmm(tmp), Reg::Xmm(tmp)),
        ) == s.set_xmm(tmp.enc, 0),
{
    reveal(crate::x64::machine::assembled);
    reveal(crate::x64::machine::vector);
    let x = s.vec(tmp);
    assert(x ^ x == 0) by (bit_vector);
}

pub proof fn lemma_imm(s: Machine, size: OperandSize, value: u64, dst: Gpr)
    requires
        s.at is Here,
        s.pending is Nothing,
    ensures
        crate::x64::machine::step(s, Step::Emit(Built::Imm { size, value, dst })) == s.set(
            dst.enc,
            crate::x64::machine::low(value, size) as u64,
        ),
{
    reveal(crate::x64::machine::built);
}

/// A constant becomes the float in a vector register.
pub proof fn lemma_to_xmm(
    s: Machine,
    frame: FrameLayout,
    size: OperandSize,
    value: u64,
    tmp_xmm: Xmm,
    tmp_gpr: Gpr,
)
    requires
        s.at is Here,
        s.pending is Nothing,
        size is Size32 || size is Size64,
        size is Size32 ==> value < 0x1_0000_0000,
    ensures
        ({
            let s1 = crate::x64::machine::step(
                s,
                Step::Emit(Built::Imm { size, value, dst: tmp_gpr }),
            );
            crate::x64::machine::step(
                s1,
                crate::x64::emit_convert::to_xmm(frame, size, tmp_xmm, tmp_gpr),
            ) == s.set(tmp_gpr.enc, value).set_xmm(tmp_xmm.enc, value)
        }),
{
    lemma_imm(s, size, value, tmp_gpr);
    assert(crate::x64::machine::low(value, size) == value);
    assert(size is Size32 ==> crate::x64::machine::low(value, OperandSize::Size32) == value);
    reveal(crate::x64::machine::assembled);
}

pub proof fn lemma_trap_if(s: Machine, cc: CC, code: TrapCode)
    requires
        s.at is Here,
        s.pending is Nothing,
    ensures
        crate::x64::machine::step(s, Step::Emit(Built::TrapIf { cc, code })) == (
        if crate::x64::machine::holds(cc, s.flags) {
            s.go(At::Trapped(code))
        } else {
            s
        }),
{
    reveal(crate::x64::machine::built);
}

pub proof fn lemma_jump(s: Machine, label: Label)
    requires
        s.at is Here,
        s.pending is Nothing,
        !s.traps.dom().contains(label),
    ensures
        crate::x64::machine::step(s, Step::Emit(Built::JmpKnown { label })) == s.go(
            At::Seek(label),
        ),
{
    reveal(crate::x64::machine::built);
}

/// The difference of one overflows for the least integer alone.
proof fn lemma_least_overflows(n: int, size: OperandSize)
    requires
        0 <= n < crate::x64::machine::values(size),
    ensures
        crate::x64::machine::sub_flags(n, 1, 0, size).overflow == (n == half(size)),
{
}

/// The parts of a conversion to a signed integer.
pub open spec fn sint_head(
    frame: FrameLayout,
    src_size: OperandSize,
    dst_size: OperandSize,
    src: Xmm,
    dst: Gpr,
) -> Seq<Step> {
    seq![
        Step::GetLabel { label: Label::Local(0) },
        crate::x64::emit_convert::truncation(frame, src_size, dst_size, dst, src),
        crate::x64::emit_convert::compare_imm(dst_size, dst, 1),
    ]
}

/// The start of a conversion: the truncated float is in the destination, and is
/// left there unless it is the least integer.
proof fn lemma_sint_head(
    s: Machine,
    frame: FrameLayout,
    src_size: OperandSize,
    dst_size: OperandSize,
    src: Xmm,
    dst: Gpr,
)
    requires
        s.at is Here,
        s.pending is Nothing,
        !s.traps.dom().contains(Label::Local(0)),
        crate::x64::emit_convert::cvt_ok(src_size, dst_size),
    ensures
        ({
            let n = crate::x64::machine::hardware_truncation(
                is_wide(src_size),
                float(s, src_size, src),
                dst_size,
            );
            let r = crate::x64::machine::run(
                s,
                sint_head(frame, src_size, dst_size, src, dst)
                    + crate::x64::emit_basic::jump_if(CC::NO, Label::Local(0)),
            );
            &&& 0 <= n < crate::x64::machine::values(dst_size)
            &&& r == s.set(dst.enc, n as u64).set_flags(r.flags).go(
                if n == half(dst_size) {
                    At::Here
                } else {
                    At::Seek(Label::Local(0))
                },
            )
        }),
{
    let n = crate::x64::machine::hardware_truncation(
        is_wide(src_size),
        float(s, src_size, src),
        dst_size,
    );
    let steps = sint_head(frame, src_size, dst_size, src, dst);
    lemma_run_three(s, steps);
    law_truncation_has_its_sizes(s, frame, src_size, dst_size, dst, src);
    let s1 = s.set(dst.enc, n as u64);
    lemma_compare_imm(s1, dst_size, dst, 1);
    assert(0 <= n < crate::x64::machine::values(dst_size));
    lemma_low_of_small(n, dst_size);
    lemma_least_overflows(n, dst_size);
}

/// How the truncated float and the bounds are related.
proof fn lemma_sint_range(wide: bool, bits: int, size: OperandSize)
    requires
        0 <= bits,
        size is Size32 || size is Size64,
    ensures
        ({
            let v = crate::x64::machine::value(wide, bits);
            let t = crate::x64::machine::truncated(wide, bits);
            let one = crate::x64::machine::one(wide);
            let n = crate::x64::machine::hardware_truncation(wide, bits, size);
            &&& t < half(size) <==> v < half(size) * one
            &&& t >= -half(size) <==> v > -(half(size) + 1) * one
            &&& t > -half(size) <==> v > -half(size) * one
            &&& v >= 0 ==> t >= 0
            &&& v <= 0 ==> t <= 0
            &&& n == half(size) <==> (crate::x64::machine::is_nan(wide, bits) || t <= -half(size)
                || t >= half(size))
            &&& n != half(size) ==> n == crate::x64::machine::wrapped(t, size)
            &&& crate::x64::machine::wrapped(-half(size), size) == half(size)
            &&& crate::x64::machine::wrapped(half(size) - 1, size) == half(size) - 1
        }),
{
    crate::x64::floats::lemma_truncated(wide, bits, half(size));
    crate::x64::floats::lemma_truncated(wide, bits, half(size) + 1);
}

/// A number of a size is all in its low bits.
pub proof fn lemma_low_of_small(n: int, size: OperandSize)
    requires
        0 <= n < crate::x64::machine::values(size),
    ensures
        crate::x64::machine::low(n as u64, size) == n,
        (n as u64) as int == n,
{
    vstd::arithmetic::div_mod::lemma_small_mod(
        n as nat,
        crate::x64::machine::values(size) as nat,
    );
}

/// What a saturating conversion does with the least integer.
pub open spec fn saturate(
    frame: FrameLayout,
    src_size: OperandSize,
    dst_size: OperandSize,
    src: Xmm,
    dst: Gpr,
    tmp_xmm: Xmm,
) -> Seq<Step> {
    let op = crate::x64::emit_convert::compare_op(src_size);
    seq![
        crate::x64::emit_convert::compare_float(op, src, src),
        Step::GetLabel { label: Label::Local(1) },
    ] + crate::x64::emit_basic::jump_if(CC::NP, Label::Local(1)) + seq![
        crate::x64::emit_convert::clear(frame, dst_size, dst),
        Step::Emit(Built::JmpKnown { label: Label::Local(0) }),
        Step::BindLabel { label: Label::Local(1) },
        crate::x64::emit_basic::asm_rr(
            frame,
            AsmOp::XorpdA,
            Reg::Xmm(tmp_xmm),
            Reg::Xmm(tmp_xmm),
        ),
        crate::x64::emit_convert::compare_float(op, tmp_xmm, src),
    ] + crate::x64::emit_basic::jump_if(CC::NB, Label::Local(0)) + seq![
        Step::Emit(
            Built::Imm {
                size: dst_size,
                value: if dst_size is Size64 {
                    0x7fffffffffffffff
                } else {
                    0x7fffffff
                },
                dst,
            },
        ),
        Step::BindLabel { label: Label::Local(0) },
    ]
}

/// With the least integer in the destination: NaN gives zero, what is positive
/// the greatest integer, and the rest stays.
proof fn lemma_saturate(
    s: Machine,
    frame: FrameLayout,
    src_size: OperandSize,
    dst_size: OperandSize,
    src: Xmm,
    dst: Gpr,
    tmp_xmm: Xmm,
)
    requires
        s.at is Here,
        s.pending is Nothing,
        !s.traps.dom().contains(Label::Local(0)),
        !s.traps.dom().contains(Label::Local(1)),
        crate::x64::emit_convert::cvt_ok(src_size, dst_size),
        tmp_xmm != src,
    ensures
        ({
            let wide = is_wide(src_size);
            let bits = float(s, src_size, src);
            let r = crate::x64::machine::run(
                s,
                saturate(frame, src_size, dst_size, src, dst, tmp_xmm),
            );
            &&& r.at is Here
            &&& r.reg(dst) == (if crate::x64::machine::is_nan(wide, bits) {
                0
            } else if crate::x64::machine::value(wide, bits) > 0 {
                (half(dst_size) - 1) as u64
            } else {
                s.reg(dst)
            })
        }),
{
    let wide = is_wide(src_size);
    let op = crate::x64::emit_convert::compare_op(src_size);
    let a = seq![
        crate::x64::emit_convert::compare_float(op, src, src),
        Step::GetLabel { label: Label::Local(1) },
    ];
    let b = crate::x64::emit_basic::jump_if(CC::NP, Label::Local(1));
    let c = seq![
        crate::x64::emit_convert::clear(frame, dst_size, dst),
        Step::Emit(Built::JmpKnown { label: Label::Local(0) }),
        Step::BindLabel { label: Label::Local(1) },
        crate::x64::emit_basic::asm_rr(
            frame,
            AsmOp::XorpdA,
            Reg::Xmm(tmp_xmm),
            Reg::Xmm(tmp_xmm),
        ),
        crate::x64::emit_convert::compare_float(op, tmp_xmm, src),
    ];
    let value: u64 = if dst_size is Size64 {
        0x7fffffffffffffff
    } else {
        0x7fffffff
    };
    let d = crate::x64::emit_basic::jump_if(CC::NB, Label::Local(0));
    let e = seq![
        Step::Emit(Built::Imm { size: dst_size, value, dst }),
        Step::BindLabel { label: Label::Local(0) },
    ];
    lemma_run_two(s, a);
    lemma_compare_float(s, src_size, src, src);
    let s1 = crate::x64::machine::run(s, a);
    let s2 = crate::x64::machine::run(s1, b);
    lemma_run_five(s2, c);
    let s3 = crate::x64::machine::run(s2, c);
    let s4 = crate::x64::machine::run(s3, d);
    lemma_run_two(s4, e);
    crate::x64::floats::lemma_zero(wide);
    assert(saturate(frame, src_size, dst_size, src, dst, tmp_xmm) == a + b + c + d + e);
    lemma_low_of_small(value as int, dst_size);
    if crate::x64::machine::is_nan(wide, float(s, src_size, src)) {
        lemma_clear(s2, frame, dst_size, dst);
        lemma_jump(crate::x64::machine::step(s2, c[0]), Label::Local(0));
        assert(s3.at == At::Seek(Label::Local(0)));
        assert(s3.reg(dst) == 0);
        assert(s4 == s3);
    } else {
        let h = s2.go(At::Here);
        lemma_zero_vector(h, frame, tmp_xmm);
        lemma_compare_float(h.set_xmm(tmp_xmm.enc, 0), src_size, tmp_xmm, src);
        assert(s3.at is Here);
        assert(s3.reg(dst) == s.reg(dst));
        if crate::x64::machine::value(wide, float(s, src_size, src)) > 0 {
            assert(s4 == s3);
            lemma_imm(s4, dst_size, value, dst);
        } else {
            assert(s4 == s3.go(At::Seek(Label::Local(0))));
        }
    }
}

/// A pass over five steps.
pub proof fn lemma_run_five(s: Machine, steps: Seq<Step>)
    requires
        steps.len() == 5,
    ensures
        crate::x64::machine::run(s, steps) == crate::x64::machine::step(
            crate::x64::machine::step(
                crate::x64::machine::step(
                    crate::x64::machine::step(
                        crate::x64::machine::step(s, steps[0]),
                        steps[1],
                    ),
                    steps[2],
                ),
                steps[3],
            ),
            steps[4],
        ),
{
    assert(steps =~= Seq::<Step>::empty().push(steps[0]).push(steps[1]).push(steps[2]).push(
        steps[3],
    ).push(steps[4]));
}

/// A trap for NaN.
pub open spec fn trap_nan(src_size: OperandSize, src: Xmm) -> Seq<Step> {
    seq![
        crate::x64::emit_convert::compare_float(
            crate::x64::emit_convert::compare_op(src_size),
            src,
            src,
        ),
        Step::Emit(Built::TrapIf { cc: CC::P, code: TrapCode::BadConversionToInteger }),
    ]
}

/// A trap for what is too small.
pub open spec fn trap_small(
    frame: FrameLayout,
    src_size: OperandSize,
    dst_size: OperandSize,
    src: Xmm,
    tmp_gpr: Gpr,
    tmp_xmm: Xmm,
) -> Seq<Step> {
    seq![
        Step::Emit(
            Built::Imm {
                size: src_size,
                value: crate::x64::emit_convert::lower_bound(src_size, dst_size),
                dst: tmp_gpr,
            },
        ),
        crate::x64::emit_convert::to_xmm(frame, src_size, tmp_xmm, tmp_gpr),
        crate::x64::emit_convert::compare_float(
            crate::x64::emit_convert::compare_op(src_size),
            src,
            tmp_xmm,
        ),
        Step::Emit(
            Built::TrapIf {
                cc: crate::x64::emit_convert::no_overflow_cc(src_size, dst_size).inverse(),
                code: TrapCode::IntegerOverflow,
            },
        ),
    ]
}

/// A trap for what is positive.
pub open spec fn trap_positive(
    frame: FrameLayout,
    src_size: OperandSize,
    src: Xmm,
    tmp_xmm: Xmm,
) -> Seq<Step> {
    seq![
        crate::x64::emit_basic::asm_rr(
            frame,
            AsmOp::XorpdA,
            Reg::Xmm(tmp_xmm),
            Reg::Xmm(tmp_xmm),
        ),
        crate::x64::emit_convert::compare_float(
            crate::x64::emit_convert::compare_op(src_size),
            tmp_xmm,
            src,
        ),
        Step::Emit(Built::TrapIf { cc: CC::B, code: TrapCode::IntegerOverflow }),
    ]
}

proof fn lemma_trap_nan(s: Machine, src_size: OperandSize, src: Xmm)
    requires
        s.at is Here,
        s.pending is Nothing,
        src_size is Size32 || src_size is Size64,
    ensures
        ({
            let r = crate::x64::machine::run(s, trap_nan(src_size, src));
            r == s.set_flags(r.flags).go(
                if crate::x64::machine::is_nan(is_wide(src_size), float(s, src_size, src)) {
                    At::Trapped(TrapCode::BadConversionToInteger)
                } else {
                    At::Here
                },
            )
        }),
{
    lemma_run_two(s, trap_nan(src_size, src));
    lemma_compare_float(s, src_size, src, src);
    lemma_trap_if(
        crate::x64::machine::step(s, trap_nan(src_size, src)[0]),
        CC::P,
        TrapCode::BadConversionToInteger,
    );
}

proof fn lemma_trap_small(
    s: Machine,
    frame: FrameLayout,
    src_size: OperandSize,
    dst_size: OperandSize,
    src: Xmm,
    tmp_gpr: Gpr,
    tmp_xmm: Xmm,
)
    requires
        s.at is Here,
        s.pending is Nothing,
        crate::x64::emit_convert::cvt_ok(src_size, dst_size),
        tmp_xmm != src,
        !crate::x64::machine::is_nan(is_wide(src_size), float(s, src_size, src)),
    ensures
        ({
            let wide = is_wide(src_size);
            let v = crate::x64::machine::value(wide, float(s, src_size, src));
            let one = crate::x64::machine::one(wide);
            let r = crate::x64::machine::run(
                s,
                trap_small(frame, src_size, dst_size, src, tmp_gpr, tmp_xmm),
            );
            let fine = if src_size is Size64 && dst_size is Size32 {
                v > -(0x8000_0001 * one)
            } else {
                v >= -(half(dst_size) * one)
            };
            &&& r.pending is Nothing
            &&& r.gpr == s.gpr.insert(tmp_gpr.enc, r.reg(tmp_gpr))
            &&& r.vec(src) == s.vec(src)
            &&& r.traps == s.traps
            &&& r.at == (if fine {
                At::Here
            } else {
                At::Trapped(TrapCode::IntegerOverflow)
            })
        }),
{
    let steps = trap_small(frame, src_size, dst_size, src, tmp_gpr, tmp_xmm);
    assert(steps =~= Seq::<Step>::empty().push(steps[0]).push(steps[1]).push(steps[2]).push(
        steps[3],
    ));
    crate::x64::machine::lemma_run_four(s, steps[0], steps[1], steps[2], steps[3]);
    let bound = crate::x64::emit_convert::lower_bound(src_size, dst_size);
    crate::x64::floats::lemma_lower_bound(src_size, dst_size);
    lemma_to_xmm(s, frame, src_size, bound, tmp_xmm, tmp_gpr);
    let s2 = s.set(tmp_gpr.enc, bound).set_xmm(tmp_xmm.enc, bound);
    lemma_compare_float(s2, src_size, src, tmp_xmm);
    assert(float(s2, src_size, tmp_xmm) == bound);
    let s3 = crate::x64::machine::step(s2, steps[2]);
    let cc = crate::x64::emit_convert::no_overflow_cc(src_size, dst_size);
    lemma_trap_if(s3, cc.inverse(), TrapCode::IntegerOverflow);
}

proof fn lemma_trap_positive(
    s: Machine,
    frame: FrameLayout,
    src_size: OperandSize,
    src: Xmm,
    tmp_xmm: Xmm,
)
    requires
        s.at is Here,
        s.pending is Nothing,
        src_size is Size32 || src_size is Size64,
        tmp_xmm != src,
        !crate::x64::machine::is_nan(is_wide(src_size), float(s, src_size, src)),
    ensures
        ({
            let v = crate::x64::machine::value(is_wide(src_size), float(s, src_size, src));
            let r = crate::x64::machine::run(s, trap_positive(frame, src_size, src, tmp_xmm));
            &&& r.pending is Nothing
            &&& r.gpr == s.gpr
            &&& r.at == (if v > 0 {
                At::Trapped(TrapCode::IntegerOverflow)
            } else {
                At::Here
            })
        }),
{
    let steps = trap_positive(frame, src_size, src, tmp_xmm);
    lemma_run_three(s, steps);
    lemma_zero_vector(s, frame, tmp_xmm);
    let s1 = s.set_xmm(tmp_xmm.enc, 0);
    lemma_compare_float(s1, src_size, tmp_xmm, src);
    crate::x64::floats::lemma_zero(is_wide(src_size));
    lemma_trap_if(
        crate::x64::machine::step(s1, steps[1]),
        CC::B,
        TrapCode::IntegerOverflow,
    );
}

/// With the least integer in the destination: NaN traps, as does what is too
/// small and what is positive, and the rest stays.
proof fn lemma_trapping(
    s: Machine,
    frame: FrameLayout,
    src_size: OperandSize,
    dst_size: OperandSize,
    src: Xmm,
    dst: Gpr,
    tmp_gpr: Gpr,
    tmp_xmm: Xmm,
)
    requires
        s.at is Here,
        s.pending is Nothing,
        crate::x64::emit_convert::cvt_ok(src_size, dst_size),
        tmp_xmm != src,
        dst != tmp_gpr,
    ensures
        ({
            let wide = is_wide(src_size);
            let bits = float(s, src_size, src);
            let v = crate::x64::machine::value(wide, bits);
            let one = crate::x64::machine::one(wide);
            let fine = if src_size is Size64 && dst_size is Size32 {
                v > -(0x8000_0001 * one)
            } else {
                v >= -(half(dst_size) * one)
            };
            let r = crate::x64::machine::run(
                s,
                trap_nan(src_size, src) + trap_small(
                    frame,
                    src_size,
                    dst_size,
                    src,
                    tmp_gpr,
                    tmp_xmm,
                ) + trap_positive(frame, src_size, src, tmp_xmm),
            );
            &&& r.pending is Nothing
            &&& crate::x64::machine::is_nan(wide, bits) ==> r.at == At::Trapped(
                TrapCode::BadConversionToInteger,
            )
            &&& !crate::x64::machine::is_nan(wide, bits) && !(fine && v <= 0) ==> r.at
                == At::Trapped(TrapCode::IntegerOverflow)
            &&& !crate::x64::machine::is_nan(wide, bits) && fine && v <= 0 ==> r.at is Here
                && r.reg(dst) == s.reg(dst)
        }),
{
    let a = trap_nan(src_size, src);
    let b = trap_small(frame, src_size, dst_size, src, tmp_gpr, tmp_xmm);
    let c = trap_positive(frame, src_size, src, tmp_xmm);
    lemma_trap_nan(s, src_size, src);
    let s1 = crate::x64::machine::run(s, a);
    let s2 = crate::x64::machine::run(s1, b);
    if !(s1.at is Here) {
        crate::x64::behavior_basic::lemma_passes_by(s1, b);
        crate::x64::behavior_basic::lemma_passes_by(s1, c);
    } else {
        lemma_trap_small(s1, frame, src_size, dst_size, src, tmp_gpr, tmp_xmm);
        if s2.at is Here {
            lemma_trap_positive(s2, frame, src_size, src, tmp_xmm);
        } else {
            crate::x64::behavior_basic::lemma_passes_by(s2, c);
        }
    }
}

proof fn lemma_sint_listing(
    frame: FrameLayout,
    src_size: OperandSize,
    dst_size: OperandSize,
    src: Xmm,
    dst: Gpr,
    tmp_gpr: Gpr,
    tmp_xmm: Xmm,
)
    ensures
        ({
            let head = sint_head(frame, src_size, dst_size, src, dst)
                + crate::x64::emit_basic::jump_if(CC::NO, Label::Local(0));
            &&& crate::x64::emit_convert::cvt_float_to_sint(
                frame,
                src_size,
                dst_size,
                true,
                src,
                dst,
                tmp_gpr,
                tmp_xmm,
            ) == head + saturate(frame, src_size, dst_size, src, dst, tmp_xmm)
            &&& crate::x64::emit_convert::cvt_float_to_sint(
                frame,
                src_size,
                dst_size,
                false,
                src,
                dst,
                tmp_gpr,
                tmp_xmm,
            ) == head + (trap_nan(src_size, src) + trap_small(
                frame,
                src_size,
                dst_size,
                src,
                tmp_gpr,
                tmp_xmm,
            ) + trap_positive(frame, src_size, src, tmp_xmm)) + seq![
                Step::BindLabel { label: Label::Local(0) },
            ]
        }),
{
    let head = sint_head(frame, src_size, dst_size, src, dst) + crate::x64::emit_basic::jump_if(
        CC::NO,
        Label::Local(0),
    );
    assert(crate::x64::emit_convert::cvt_float_to_sint(
        frame,
        src_size,
        dst_size,
        true,
        src,
        dst,
        tmp_gpr,
        tmp_xmm,
    ) =~= head + saturate(frame, src_size, dst_size, src, dst, tmp_xmm));
    assert(crate::x64::emit_convert::cvt_float_to_sint(
        frame,
        src_size,
        dst_size,
        false,
        src,
        dst,
        tmp_gpr,
        tmp_xmm,
    ) =~= head + (trap_nan(src_size, src) + trap_small(
        frame,
        src_size,
        dst_size,
        src,
        tmp_gpr,
        tmp_xmm,
    ) + trap_positive(frame, src_size, src, tmp_xmm)) + seq![
        Step::BindLabel { label: Label::Local(0) },
    ]);
}

/// On the way to the end of a conversion, the rest is passed by.
proof fn lemma_goes_to_the_end(s: Machine, steps: Seq<Step>)
    requires
        s.at == At::Seek(Label::Local(0)),
        s.pending is Nothing,
        steps.len() > 0,
        steps.last() == (Step::BindLabel { label: Label::Local(0) }),
        forall|i: int|
            0 <= i < steps.len() - 1 ==> #[trigger] steps[i] != (Step::BindLabel {
                label: Label::Local(0),
            }),
    ensures
        crate::x64::machine::run(s, steps) == s.go(At::Here),
{
    let front = steps.drop_last();
    assert(steps =~= front.push(steps.last()));
    assert forall|i: int| 0 <= i < front.len() implies #[trigger] front[i] != (Step::BindLabel {
        label: Label::Local(0),
    }) by {
        assert(front[i] == steps[i]);
    }
    crate::x64::behavior_basic::lemma_passes_by(s, front);
}

/// A float is converted to the signed integer that it truncates to, if that is in
/// range. Else the conversion saturates, with zero for NaN, or it traps with the
/// reason.
pub proof fn law_conversion_to_signed(
    s: Machine,
    src_size: OperandSize,
    dst_size: OperandSize,
    is_saturating: bool,
    src: Xmm,
    dst: Gpr,
    tmp_gpr: Gpr,
    tmp_xmm: Xmm,
    info: EmitInfo,
    state: EmitState,
)
    requires
        crate::x64::machine::ready(s),
        crate::x64::emit_convert::cvt_ok(src_size, dst_size),
        tmp_xmm != src,
        tmp_gpr != dst,
    ensures
        ({
            let r = effect(
                s,
                Inst::CvtFloatToSintSeq {
                    src_size,
                    dst_size,
                    is_saturating,
                    src,
                    dst,
                    tmp_gpr,
                    tmp_xmm,
                },
                info,
                state,
            );
            gives(
                r,
                dst,
                dst_size,
                converted(
                    is_wide(src_size),
                    float(s, src_size, src),
                    -half(dst_size),
                    half(dst_size) - 1,
                    is_saturating,
                ),
            )
        }),
{
    let frame = state.frame_layout;
    let wide = is_wide(src_size);
    let bits = float(s, src_size, src);
    let head = sint_head(frame, src_size, dst_size, src, dst) + crate::x64::emit_basic::jump_if(
        CC::NO,
        Label::Local(0),
    );
    lemma_sint_listing(frame, src_size, dst_size, src, dst, tmp_gpr, tmp_xmm);
    lemma_sint_head(s, frame, src_size, dst_size, src, dst);
    lemma_sint_range(wide, bits, dst_size);
    let s1 = crate::x64::machine::run(s, head);
    assert(float(s1, src_size, src) == bits);
    let one = crate::x64::machine::one(wide);
    assert(-half(dst_size) * one == -(half(dst_size) * one)) by (nonlinear_arith);
    assert(-(half(dst_size) + 1) * one == -((half(dst_size) + 1) * one)) by (nonlinear_arith);
    if is_saturating {
        let rest = saturate(frame, src_size, dst_size, src, dst, tmp_xmm);
        if s1.at is Here {
            lemma_saturate(s1, frame, src_size, dst_size, src, dst, tmp_xmm);
        } else {
            lemma_goes_to_the_end(s1, rest);
        }
    } else {
        let traps = trap_nan(src_size, src) + trap_small(
            frame,
            src_size,
            dst_size,
            src,
            tmp_gpr,
            tmp_xmm,
        ) + trap_positive(frame, src_size, src, tmp_xmm);
        let end = seq![Step::BindLabel { label: Label::Local(0) }];
        let s2 = crate::x64::machine::run(s1, traps);
        lemma_run_one(s2, end);
        if s1.at is Here {
            lemma_trapping(s1, frame, src_size, dst_size, src, dst, tmp_gpr, tmp_xmm);
            lemma_in_range(wide, bits, src_size, dst_size);
        } else {
            crate::x64::behavior_basic::lemma_passes_by(s1, traps);
        }
    }
}

/// The bound that is compared with tells the floats that are too small from those
/// that truncate to the least integer.
proof fn lemma_in_range(wide: bool, bits: int, src_size: OperandSize, dst_size: OperandSize)
    requires
        0 <= bits,
        wide == is_wide(src_size),
        !wide ==> bits < 0x1_0000_0000,
        crate::x64::emit_convert::cvt_ok(src_size, dst_size),
    ensures
        ({
            let v = crate::x64::machine::value(wide, bits);
            let one = crate::x64::machine::one(wide);
            let fine = if src_size is Size64 && dst_size is Size32 {
                v > -(0x8000_0001 * one)
            } else {
                v >= -(half(dst_size) * one)
            };
            fine <==> crate::x64::machine::truncated(wide, bits) >= -half(dst_size)
        }),
{
    lemma_sint_range(wide, bits, dst_size);
    let one = crate::x64::machine::one(wide);
    assert(-(half(dst_size) + 1) * one == -((half(dst_size) + 1) * one)) by (nonlinear_arith);
    if !(src_size is Size64 && dst_size is Size32) {
        crate::x64::floats::lemma_whole(wide, bits, half(dst_size));
    }
}

} // verus!
