//! What the code for conversions of floats to unsigned integers does.

use crate::x64::args::{Gpr, Label, OperandSize, Reg, TrapCode, Type, Xmm, CC};
use crate::x64::behavior_basic::{
    effect, lemma_passes_by, lemma_run_one, lemma_run_three, lemma_run_two,
};
use crate::x64::behavior_convert::{
    converted, float, gives, law_truncation_has_its_sizes, lemma_clear, lemma_compare_float,
    lemma_compare_imm, lemma_imm, lemma_jump, lemma_low_of_small, lemma_run_five, lemma_to_xmm,
    lemma_trap_if,
};
use crate::x64::floats::{half, is_wide};
use crate::x64::inst::{EmitInfo, EmitState, FrameLayout, Inst};
use crate::x64::machine::{At, Machine};
use crate::x64::sink::{AsmOp, Built, Step};
use vstd::prelude::*;

verus! {

broadcast use {
    crate::x64::machine::group_run,
    crate::x64::machine::group_step,
    crate::x64::machine::group_jump,
};

/// The value of the float in a register.
pub open spec fn number(s: Machine, size: OperandSize, r: Xmm) -> int {
    crate::x64::machine::value(is_wide(size), float(s, size, r))
}

/// Half of the range, as a float has it.
pub open spec fn middle(src_size: OperandSize, dst_size: OperandSize) -> int {
    half(dst_size) * crate::x64::machine::one(is_wide(src_size))
}

/// Whether the labels of a conversion are no traps.
pub open spec fn labels_free(s: Machine) -> bool {
    s.traps == Map::<Label, TrapCode>::empty()
}

/// The start: the float is compared with half of the range.
proof fn lemma_start(
    s: Machine,
    frame: FrameLayout,
    src_size: OperandSize,
    dst_size: OperandSize,
    src: Xmm,
    tmp_gpr: Gpr,
    tmp_xmm: Xmm,
)
    requires
        s.at is Here,
        s.pending is Nothing,
        labels_free(s),
        crate::x64::emit_convert::cvt_ok(src_size, dst_size),
        tmp_xmm != src,
    ensures
        ({
            let bound = crate::x64::emit_convert::upper_bound(src_size, dst_size);
            let steps = seq![
                Step::GetLabel { label: Label::Local(0) },
                Step::Emit(Built::Imm { size: src_size, value: bound, dst: tmp_gpr }),
                crate::x64::emit_convert::to_xmm(frame, src_size, tmp_xmm, tmp_gpr),
                crate::x64::emit_convert::compare_float(
                    crate::x64::emit_convert::compare_op(src_size),
                    src,
                    tmp_xmm,
                ),
                Step::GetLabel { label: Label::Local(1) },
            ] + crate::x64::emit_basic::jump_if(CC::NB, Label::Local(1));
            let r = crate::x64::machine::run(s, steps);
            let nan = crate::x64::machine::is_nan(is_wide(src_size), float(s, src_size, src));
            &&& r == s.set(tmp_gpr.enc, bound).set_xmm(tmp_xmm.enc, bound).set_flags(r.flags).go(
                if !nan && number(s, src_size, src) >= middle(src_size, dst_size) {
                    At::Seek(Label::Local(1))
                } else {
                    At::Here
                },
            )
            &&& r.flags.parity == nan
        }),
{
    let bound = crate::x64::emit_convert::upper_bound(src_size, dst_size);
    let a = seq![
        Step::GetLabel { label: Label::Local(0) },
        Step::Emit(Built::Imm { size: src_size, value: bound, dst: tmp_gpr }),
        crate::x64::emit_convert::to_xmm(frame, src_size, tmp_xmm, tmp_gpr),
        crate::x64::emit_convert::compare_float(
            crate::x64::emit_convert::compare_op(src_size),
            src,
            tmp_xmm,
        ),
        Step::GetLabel { label: Label::Local(1) },
    ];
    lemma_run_five(s, a);
    crate::x64::floats::lemma_upper_bound(src_size, dst_size);
    lemma_to_xmm(s, frame, src_size, bound, tmp_xmm, tmp_gpr);
    let s2 = s.set(tmp_gpr.enc, bound).set_xmm(tmp_xmm.enc, bound);
    lemma_compare_float(s2, src_size, src, tmp_xmm);
    assert(float(s2, src_size, tmp_xmm) == bound);
}

/// What becomes of NaN.
pub open spec fn handle_nan(
    frame: FrameLayout,
    dst_size: OperandSize,
    is_saturating: bool,
    dst: Gpr,
) -> Seq<Step> {
    if is_saturating {
        seq![Step::GetLabel { label: Label::Local(2) }] + crate::x64::emit_basic::jump_if(
            CC::NP,
            Label::Local(2),
        ) + seq![
            crate::x64::emit_convert::clear(frame, dst_size, dst),
            Step::Emit(Built::JmpKnown { label: Label::Local(0) }),
            Step::BindLabel { label: Label::Local(2) },
        ]
    } else {
        seq![Step::Emit(Built::TrapIf { cc: CC::P, code: TrapCode::BadConversionToInteger })]
    }
}

proof fn lemma_handle_nan(
    s: Machine,
    frame: FrameLayout,
    dst_size: OperandSize,
    is_saturating: bool,
    dst: Gpr,
)
    requires
        s.at is Here,
        s.pending is Nothing,
        labels_free(s),
    ensures
        ({
            let r = crate::x64::machine::run(s, handle_nan(frame, dst_size, is_saturating, dst));
            if !s.flags.parity {
                r == s
            } else if is_saturating {
                r == s.set(dst.enc, 0).set_flags(r.flags).go(At::Seek(Label::Local(0)))
            } else {
                r == s.go(At::Trapped(TrapCode::BadConversionToInteger))
            }
        }),
{
    if is_saturating {
        let a = seq![Step::GetLabel { label: Label::Local(2) }];
        let b = crate::x64::emit_basic::jump_if(CC::NP, Label::Local(2));
        let c = seq![
            crate::x64::emit_convert::clear(frame, dst_size, dst),
            Step::Emit(Built::JmpKnown { label: Label::Local(0) }),
            Step::BindLabel { label: Label::Local(2) },
        ];
        assert(handle_nan(frame, dst_size, is_saturating, dst) == a + b + c);
        lemma_run_one(s, a);
        let s2 = crate::x64::machine::run(s, b);
        lemma_run_three(s2, c);
        if s.flags.parity {
            lemma_clear(s, frame, dst_size, dst);
            lemma_jump(crate::x64::machine::step(s, c[0]), Label::Local(0));
        }
    } else {
        lemma_run_one(s, handle_nan(frame, dst_size, is_saturating, dst));
        lemma_trap_if(s, CC::P, TrapCode::BadConversionToInteger);
    }
}

/// What is below half of the range.
#[verifier::rlimit(40)]
proof fn lemma_small(
    s: Machine,
    frame: FrameLayout,
    src_size: OperandSize,
    dst_size: OperandSize,
    is_saturating: bool,
    src: Xmm,
    dst: Gpr,
)
    requires
        s.at is Here,
        s.pending is Nothing,
        labels_free(s),
        crate::x64::emit_convert::cvt_ok(src_size, dst_size),
        !crate::x64::machine::is_nan(is_wide(src_size), float(s, src_size, src)),
        number(s, src_size, src) < middle(src_size, dst_size),
    ensures
        ({
            let r = crate::x64::machine::run(
                s,
                crate::x64::emit_convert::uint_small(
                    frame,
                    src_size,
                    dst_size,
                    is_saturating,
                    src,
                    dst,
                ),
            );
            let t = crate::x64::machine::truncated(is_wide(src_size), float(s, src_size, src));
            &&& t < half(dst_size)
            &&& r.pending is Nothing
            &&& if t >= 0 {
                r.at == At::Seek(Label::Local(0)) && r.reg(dst) == t
            } else if is_saturating {
                r.at == At::Seek(Label::Local(0)) && r.reg(dst) == 0
            } else {
                r.at == At::Trapped(TrapCode::IntegerOverflow)
            }
        }),
{
    let wide = is_wide(src_size);
    let bits = float(s, src_size, src);
    crate::x64::floats::lemma_truncated(wide, bits, half(dst_size));
    let n = crate::x64::machine::hardware_truncation(wide, bits, dst_size);
    let t = crate::x64::machine::truncated(wide, bits);
    lemma_small_number(wide, bits, dst_size);
    let a = seq![
        crate::x64::emit_convert::truncation(frame, src_size, dst_size, dst, src),
        crate::x64::emit_convert::compare_imm(dst_size, dst, 0),
    ];
    let b = crate::x64::emit_basic::jump_if(CC::NL, Label::Local(0));
    let c = if is_saturating {
        seq![
            crate::x64::emit_convert::clear(frame, dst_size, dst),
            Step::Emit(Built::JmpKnown { label: Label::Local(0) }),
        ]
    } else {
        seq![Step::Emit(Built::Trap { code: TrapCode::IntegerOverflow })]
    };
    assert(crate::x64::emit_convert::uint_small(frame, src_size, dst_size, is_saturating, src, dst)
        == a + b + c);
    lemma_run_two(s, a);
    law_truncation_has_its_sizes(s, frame, src_size, dst_size, dst, src);
    let s1 = s.set(dst.enc, n as u64);
    lemma_compare_imm(s1, dst_size, dst, 0);
    lemma_low_of_small(n, dst_size);
    crate::x64::machine::law_comparison_orders(n, 0, dst_size);
    let s2 = crate::x64::machine::run(s, a);
    let s3 = crate::x64::machine::run(s2, b);
    if t >= 0 {
        assert forall|i: int| 0 <= i < c.len() implies #[trigger] c[i] != (Step::BindLabel {
            label: Label::Local(0),
        }) by {}
        lemma_passes_by(s3, c);
    } else if is_saturating {
        lemma_run_two(s3, c);
        lemma_clear(s3, frame, dst_size, dst);
        lemma_jump(crate::x64::machine::step(s3, c[0]), Label::Local(0));
    } else {
        lemma_run_one(s3, c);
        lemma_trap(s3, TrapCode::IntegerOverflow);
    }
}

proof fn lemma_trap(s: Machine, code: TrapCode)
    requires
        s.at is Here,
        s.pending is Nothing,
    ensures
        crate::x64::machine::step(s, Step::Emit(Built::Trap { code })) == s.go(At::Trapped(code)),
{
    reveal(crate::x64::machine::built);
}

/// What is below half of the range is truncated with its sign.
proof fn lemma_small_number(wide: bool, bits: int, size: OperandSize)
    requires
        size is Size32 || size is Size64,
        crate::x64::machine::truncated(wide, bits) < half(size),
        !crate::x64::machine::is_nan(wide, bits),
    ensures
        ({
            let n = crate::x64::machine::hardware_truncation(wide, bits, size);
            let t = crate::x64::machine::truncated(wide, bits);
            &&& 0 <= n < crate::x64::machine::values(size)
            &&& crate::x64::machine::signed(n, size) >= 0 <==> t >= 0
            &&& t >= 0 ==> n == t
        }),
{
}

/// The difference of a float in a register and the one in another.
proof fn lemma_subtract(
    s: Machine,
    frame: FrameLayout,
    size: OperandSize,
    dst: Xmm,
    src: Xmm,
)
    requires
        s.at is Here,
        s.pending is Nothing,
        size is Size32 || size is Size64,
        ({
            let d = (s.rounding.difference)(is_wide(size), float(s, size, dst), float(s, size, src));
            crate::x64::floats::has_size(is_wide(size), d)
        }),
    ensures
        ({
            let op = if size is Size32 {
                AsmOp::SubssA
            } else {
                AsmOp::SubsdA
            };
            let r = crate::x64::machine::step(
                s,
                crate::x64::emit_basic::asm_rr(frame, op, Reg::Xmm(dst), Reg::Xmm(src)),
            );
            &&& r == s.set_xmm(dst.enc, r.vec(dst))
            &&& float(r, size, dst) == (s.rounding.difference)(
                is_wide(size),
                float(s, size, dst),
                float(s, size, src),
            )
        }),
{
    reveal(crate::x64::machine::assembled);
    reveal(crate::x64::machine::vector);
    let x = s.vec(dst) as int;
    let d = (s.rounding.difference)(is_wide(size), float(s, size, dst), float(s, size, src));
    assert(size is Size32 ==> 0 <= x - x % 0x1_0000_0000 + d <= u64::MAX);
    assert(size is Size32 ==> (x - x % 0x1_0000_0000 + d) % 0x1_0000_0000 == d);
}

/// What is at least half of the range is that half plus what the difference
/// truncates to, or too large.
proof fn lemma_halved(
    src_size: OperandSize,
    dst_size: OperandSize,
    bits: int,
    bound: int,
    rounding: crate::x64::machine::Rounding,
)
    requires
        crate::x64::emit_convert::cvt_ok(src_size, dst_size),
        crate::x64::floats::has_size(is_wide(src_size), bits),
        bound == crate::x64::emit_convert::upper_bound(src_size, dst_size),
        !crate::x64::machine::is_nan(is_wide(src_size), bits),
        crate::x64::machine::value(is_wide(src_size), bits) >= middle(src_size, dst_size),
        crate::x64::floats::rounds_differences(rounding),
    ensures
        ({
            let wide = is_wide(src_size);
            let d = (rounding.difference)(wide, bits, bound);
            let t = crate::x64::machine::truncated(wide, bits);
            let n = crate::x64::machine::hardware_truncation(wide, d, dst_size);
            &&& crate::x64::floats::has_size(wide, d)
            &&& half(dst_size) <= t
            &&& t < 2 * half(dst_size) ==> n == t - half(dst_size)
            &&& t >= 2 * half(dst_size) ==> n == half(dst_size)
        }),
{
    let wide = is_wide(src_size);
    let k = half(dst_size);
    let one = crate::x64::machine::one(wide);
    let v = crate::x64::machine::value(wide, bits);
    let d = (rounding.difference)(wide, bits, bound);
    crate::x64::floats::lemma_upper_bound(src_size, dst_size);
    crate::x64::floats::lemma_bound_is_finite(src_size, dst_size);
    crate::x64::floats::lemma_one(wide);
    crate::x64::floats::lemma_truncated(wide, bits, k);
    crate::x64::floats::lemma_truncated(wide, bits, 2 * k);
    assert(2 * k * one == k * one + k * one) by (nonlinear_arith);
    assert(crate::x64::floats::has_size(wide, d));
    crate::x64::floats::lemma_truncated(wide, d, k);
    if v < 2 * k * one {
        crate::x64::floats::lemma_less_than_infinity(wide, bits, k);
        crate::x64::floats::lemma_upper_half(src_size, dst_size, bits, d);
        crate::x64::floats::lemma_truncated_difference(wide, bits, d, k);
    } else {
        if crate::x64::floats::is_finite(wide, bits) {
            assert(crate::x64::machine::value(wide, bound) <= v - k * one);
        }
        assert(crate::x64::machine::value(wide, d) >= k * one);
    }
}

/// What is at least half of the range: the half is subtracted and the rest is
/// truncated, or it is too large.
proof fn lemma_large(
    s: Machine,
    frame: FrameLayout,
    src_size: OperandSize,
    dst_size: OperandSize,
    is_saturating: bool,
    src: Xmm,
    dst: Gpr,
    tmp_xmm: Xmm,
    tmp_xmm2: Xmm,
)
    requires
        s.at == At::Seek(Label::Local(1)),
        s.pending is Nothing,
        labels_free(s),
        crate::x64::emit_convert::cvt_ok(src_size, dst_size),
        !crate::x64::machine::is_nan(is_wide(src_size), float(s, src_size, src)),
        number(s, src_size, src) >= middle(src_size, dst_size),
        s.vec(tmp_xmm) == crate::x64::emit_convert::upper_bound(src_size, dst_size),
        crate::x64::floats::rounds_differences(s.rounding),
        tmp_xmm != src,
        tmp_xmm != tmp_xmm2,
    ensures
        ({
            let r = crate::x64::machine::run(
                s,
                crate::x64::emit_convert::uint_large(
                    frame,
                    src_size,
                    dst_size,
                    is_saturating,
                    src,
                    dst,
                    tmp_xmm,
                    tmp_xmm2,
                ),
            );
            let t = crate::x64::machine::truncated(is_wide(src_size), float(s, src_size, src));
            &&& half(dst_size) <= t
            &&& r.pending is Nothing
            &&& r.traps == s.traps
            &&& if t < 2 * half(dst_size) {
                r.at is Here && r.reg(dst) == t - half(dst_size)
            } else if is_saturating {
                r.at == At::Seek(Label::Local(0)) && r.reg(dst) == 2 * half(dst_size) - 1
            } else {
                r.at == At::Trapped(TrapCode::IntegerOverflow)
            }
        }),
{
    let wide = is_wide(src_size);
    let bits = float(s, src_size, src);
    let bound = crate::x64::emit_convert::upper_bound(src_size, dst_size);
    let t = crate::x64::machine::truncated(wide, bits);
    let sub_op = if src_size is Size32 {
        AsmOp::SubssA
    } else {
        AsmOp::SubsdA
    };
    let a = seq![
        Step::BindLabel { label: Label::Local(1) },
        Step::Emit(Built::Move { dst: Reg::Xmm(tmp_xmm2), src: Reg::Xmm(src), ty: Type::F64 }),
        crate::x64::emit_basic::asm_rr(frame, sub_op, Reg::Xmm(tmp_xmm2), Reg::Xmm(tmp_xmm)),
        crate::x64::emit_convert::truncation(frame, src_size, dst_size, dst, tmp_xmm2),
        crate::x64::emit_convert::compare_imm(dst_size, dst, 0),
    ];
    let value: u64 = if dst_size is Size64 {
        u64::MAX
    } else {
        u32::MAX as u64
    };
    let b = seq![Step::GetLabel { label: Label::Local(3) }];
    let c = crate::x64::emit_basic::jump_if(CC::NL, Label::Local(3));
    let d = seq![
        Step::Emit(Built::Imm { size: OperandSize::Size64, value, dst }),
        Step::Emit(Built::JmpKnown { label: Label::Local(0) }),
        Step::BindLabel { label: Label::Local(3) },
    ];
    let e = seq![Step::Emit(Built::TrapIf { cc: CC::L, code: TrapCode::IntegerOverflow })];
    crate::x64::floats::lemma_upper_bound(src_size, dst_size);
    lemma_halved(src_size, dst_size, bits, bound as int, s.rounding);
    let diff = (s.rounding.difference)(wide, bits, bound as int);
    let n = crate::x64::machine::hardware_truncation(wide, diff, dst_size);
    lemma_run_five(s, a);
    let h = s.go(At::Here);
    let h1 = h.set_xmm(tmp_xmm2.enc, s.vec(src));
    lemma_move_vector(h, src, tmp_xmm2);
    assert(crate::x64::machine::step(s, a[0]) == h);
    assert(crate::x64::machine::step(h, a[1]) == h1);
    assert(float(h1, src_size, tmp_xmm2) == bits);
    assert(float(h1, src_size, tmp_xmm) == bound);
    lemma_subtract(h1, frame, src_size, tmp_xmm2, tmp_xmm);
    let h2 = crate::x64::machine::step(h1, a[2]);
    law_truncation_has_its_sizes(h2, frame, src_size, dst_size, dst, tmp_xmm2);
    let h3 = h2.set(dst.enc, n as u64);
    assert(0 <= n < crate::x64::machine::values(dst_size));
    lemma_low_of_small(n, dst_size);
    lemma_compare_imm(h3, dst_size, dst, 0);
    crate::x64::machine::law_comparison_orders(n, 0, dst_size);
    assert(crate::x64::machine::signed(n, dst_size) >= 0 <==> t < 2 * half(dst_size));
    let s4 = crate::x64::machine::run(s, a);
    assert(s4.at is Here && s4.pending is Nothing && s4.reg(dst) == n && s4.traps == s.traps);
    let listing = crate::x64::emit_convert::uint_large(
        frame,
        src_size,
        dst_size,
        is_saturating,
        src,
        dst,
        tmp_xmm,
        tmp_xmm2,
    );
    if is_saturating {
        assert(listing == a + (b + c + d));
        lemma_run_one(s4, b);
        let s5 = crate::x64::machine::run(s4, c);
        lemma_run_three(s5, d);
        if t >= 2 * half(dst_size) {
            lemma_imm(s5, OperandSize::Size64, value, dst);
            lemma_low_of_small(value as int, OperandSize::Size64);
            lemma_jump(s5.set(dst.enc, value), Label::Local(0));
        }
    } else {
        assert(listing == a + e);
        lemma_run_one(s4, e);
        lemma_trap_if(s4, CC::L, TrapCode::IntegerOverflow);
    }
}

proof fn lemma_move_vector(s: Machine, src: Xmm, dst: Xmm)
    requires
        s.at is Here,
        s.pending is Nothing,
    ensures
        crate::x64::machine::step(
            s,
            Step::Emit(Built::Move { dst: Reg::Xmm(dst), src: Reg::Xmm(src), ty: Type::F64 }),
        ) == s.set_xmm(dst.enc, s.vec(src)),
{
    reveal(crate::x64::machine::built);
}

/// An addition of registers that does not carry.
proof fn lemma_add(s: Machine, frame: FrameLayout, dst: Gpr, src: Gpr)
    requires
        s.at is Here,
        s.pending is Nothing,
        s.reg(dst) + s.reg(src) <= u64::MAX,
    ensures
        ({
            let r = crate::x64::machine::step(
                s,
                crate::x64::emit_basic::asm_rr(
                    frame,
                    AsmOp::AddqRm,
                    Reg::Gpr(dst),
                    Reg::Gpr(src),
                ),
            );
            r.at is Here && r.pending is Nothing && r.reg(dst) == s.reg(dst) + s.reg(src)
        }),
{
    reveal(crate::x64::machine::assembled);
    reveal(crate::x64::machine::alu);
}

/// An addition of half of 32 bits that does not carry.
proof fn lemma_add_half(s: Machine, frame: FrameLayout, dst: Gpr)
    requires
        s.at is Here,
        s.pending is Nothing,
        s.reg(dst) < 0x8000_0000,
    ensures
        ({
            let r = crate::x64::machine::step(
                s,
                crate::x64::emit_basic::asm_ri(frame, AsmOp::AddlMi, dst, 0x8000_0000),
            );
            r.at is Here && r.pending is Nothing && r.reg(dst) == s.reg(dst) + 0x8000_0000
        }),
{
    reveal(crate::x64::machine::assembled);
    reveal(crate::x64::machine::alu_number);
    reveal(crate::x64::machine::alu);
}

/// The end: half of the range is added.
proof fn lemma_end(
    s: Machine,
    frame: FrameLayout,
    dst_size: OperandSize,
    dst: Gpr,
    tmp_gpr: Gpr,
)
    requires
        s.pending is Nothing,
        dst_size is Size32 || dst_size is Size64,
        dst != tmp_gpr,
        s.at is Here ==> s.reg(dst) < half(dst_size),
        s.at is Here || s.at == At::Seek(Label::Local(0)) || s.at is Trapped,
    ensures
        ({
            let r = crate::x64::machine::run(
                s,
                crate::x64::emit_convert::uint_end(frame, dst_size, dst, tmp_gpr),
            );
            &&& s.at is Here ==> r.at is Here && r.reg(dst) == s.reg(dst) + half(dst_size)
            &&& s.at == At::Seek(Label::Local(0)) ==> r == s.go(At::Here)
            &&& s.at is Trapped ==> r == s
        }),
{
    let end = seq![Step::BindLabel { label: Label::Local(0) }];
    let a = if dst_size is Size64 {
        seq![
            Step::Emit(
                Built::Imm {
                    size: OperandSize::Size64,
                    value: 0x8000_0000_0000_0000,
                    dst: tmp_gpr,
                },
            ),
            crate::x64::emit_basic::asm_rr(
                frame,
                AsmOp::AddqRm,
                Reg::Gpr(dst),
                Reg::Gpr(tmp_gpr),
            ),
        ]
    } else {
        seq![crate::x64::emit_basic::asm_ri(frame, AsmOp::AddlMi, dst, 0x8000_0000)]
    };
    assert(crate::x64::emit_convert::uint_end(frame, dst_size, dst, tmp_gpr) == a + end);
    let s1 = crate::x64::machine::run(s, a);
    lemma_run_one(s1, end);
    if s.at is Here {
        if dst_size is Size64 {
            lemma_run_two(s, a);
            lemma_imm(s, OperandSize::Size64, 0x8000_0000_0000_0000, tmp_gpr);
            lemma_low_of_small(0x8000_0000_0000_0000, OperandSize::Size64);
            lemma_add(s.set(tmp_gpr.enc, 0x8000_0000_0000_0000), frame, dst, tmp_gpr);
        } else {
            lemma_run_one(s, a);
            lemma_add_half(s, frame, dst);
        }
    } else {
        assert forall|i: int| 0 <= i < a.len() implies #[trigger] a[i] != (Step::BindLabel {
            label: Label::Local(0),
        }) by {}
        lemma_passes_by(s, a);
    }
}

/// A float is converted to the unsigned integer that it truncates to, if that is
/// in range. Else the conversion saturates, with zero for NaN, or it traps with
/// the reason.
pub proof fn law_conversion_to_unsigned(
    s: Machine,
    src_size: OperandSize,
    dst_size: OperandSize,
    is_saturating: bool,
    src: Xmm,
    dst: Gpr,
    tmp_gpr: Gpr,
    tmp_xmm: Xmm,
    tmp_xmm2: Xmm,
    info: EmitInfo,
    state: EmitState,
)
    requires
        crate::x64::machine::ready(s),
        crate::x64::floats::rounds_differences(s.rounding),
        crate::x64::emit_convert::cvt_ok(src_size, dst_size),
        tmp_xmm != src,
        tmp_xmm != tmp_xmm2,
        tmp_gpr != dst,
    ensures
        ({
            let r = effect(
                s,
                Inst::CvtFloatToUintSeq {
                    src_size,
                    dst_size,
                    is_saturating,
                    src,
                    dst,
                    tmp_gpr,
                    tmp_xmm,
                    tmp_xmm2,
                },
                info,
                state,
            );
            gives(
                r,
                dst,
                dst_size,
                converted(
                    is_wide(src_size),
                    float(s, src_size, src),
                    0,
                    2 * half(dst_size) - 1,
                    is_saturating,
                ),
            )
        }),
{
    let frame = state.frame_layout;
    let bound = crate::x64::emit_convert::upper_bound(src_size, dst_size);
    let first = seq![
        Step::GetLabel { label: Label::Local(0) },
        Step::Emit(Built::Imm { size: src_size, value: bound, dst: tmp_gpr }),
        crate::x64::emit_convert::to_xmm(frame, src_size, tmp_xmm, tmp_gpr),
        crate::x64::emit_convert::compare_float(
            crate::x64::emit_convert::compare_op(src_size),
            src,
            tmp_xmm,
        ),
        Step::GetLabel { label: Label::Local(1) },
    ] + crate::x64::emit_basic::jump_if(CC::NB, Label::Local(1));
    let second = handle_nan(frame, dst_size, is_saturating, dst);
    let third = crate::x64::emit_convert::uint_small(
        frame,
        src_size,
        dst_size,
        is_saturating,
        src,
        dst,
    );
    let fourth = crate::x64::emit_convert::uint_large(
        frame,
        src_size,
        dst_size,
        is_saturating,
        src,
        dst,
        tmp_xmm,
        tmp_xmm2,
    );
    let fifth = crate::x64::emit_convert::uint_end(frame, dst_size, dst, tmp_gpr);
    assert(crate::x64::emit_convert::uint_start(
        frame,
        src_size,
        dst_size,
        is_saturating,
        src,
        dst,
        tmp_gpr,
        tmp_xmm,
    ) =~= first + second);
    let s1 = crate::x64::machine::run(s, first);
    lemma_start(s, frame, src_size, dst_size, src, tmp_gpr, tmp_xmm);
    assert(float(s1, src_size, src) == float(s, src_size, src));
    let s2 = crate::x64::machine::run(s1, second);
    let s3 = crate::x64::machine::run(s2, third);
    let s4 = crate::x64::machine::run(s3, fourth);
    lemma_no_binding(frame, src_size, dst_size, is_saturating, src, dst, tmp_xmm, tmp_xmm2);
    let nan = crate::x64::machine::is_nan(is_wide(src_size), float(s, src_size, src));
    if s1.at is Here {
        lemma_handle_nan(s1, frame, dst_size, is_saturating, dst);
        if nan {
            lemma_passes_by(s2, third);
        } else {
            lemma_small(s2, frame, src_size, dst_size, is_saturating, src, dst);
        }
        lemma_passes_by(s3, fourth);
    } else {
        lemma_passes_by(s1, second);
        lemma_passes_by(s2, third);
        lemma_large(
            s3,
            frame,
            src_size,
            dst_size,
            is_saturating,
            src,
            dst,
            tmp_xmm,
            tmp_xmm2,
        );
    }
    lemma_end(s4, frame, dst_size, dst, tmp_gpr);
    let t = crate::x64::machine::truncated(is_wide(src_size), float(s, src_size, src));
    if !nan && 0 <= t < 2 * half(dst_size) {
        lemma_low_of_small(t, dst_size);
    }
}

/// Which labels the parts do not bind.
proof fn lemma_no_binding(
    frame: FrameLayout,
    src_size: OperandSize,
    dst_size: OperandSize,
    is_saturating: bool,
    src: Xmm,
    dst: Gpr,
    tmp_xmm: Xmm,
    tmp_xmm2: Xmm,
)
    ensures
        ({
            let second = handle_nan(frame, dst_size, is_saturating, dst);
            let third = crate::x64::emit_convert::uint_small(
                frame,
                src_size,
                dst_size,
                is_saturating,
                src,
                dst,
            );
            let fourth = crate::x64::emit_convert::uint_large(
                frame,
                src_size,
                dst_size,
                is_saturating,
                src,
                dst,
                tmp_xmm,
                tmp_xmm2,
            );
            &&& forall|i: int|
                0 <= i < second.len() ==> #[trigger] second[i] != (Step::BindLabel {
                    label: Label::Local(1),
                })
            &&& forall|i: int|
                0 <= i < third.len() ==> #[trigger] third[i] != (Step::BindLabel {
                    label: Label::Local(1),
                }) && third[i] != (Step::BindLabel { label: Label::Local(0) })
            &&& forall|i: int|
                0 <= i < fourth.len() ==> #[trigger] fourth[i] != (Step::BindLabel {
                    label: Label::Local(0),
                })
        }),
{
}

} // verus!
