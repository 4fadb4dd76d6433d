//! The operation engine: read both operands, apply a transform, set the
//! flags, and (unless the operation is dry) write the result back to
//! the destination.

use vstd::prelude::*;

use crate::cstate::{CpuState, CpuView};
use crate::operand::{
    Operand, Flags, b_readable, b_writable, b_value, b_write, w_readable, w_writable, w_value,
    w_write, b_operand_value, b_operand_set, w_operand_value, w_operand_set,
};
use crate::tf::{Transform8, Transform16, tf8_spec, tf16_spec};

verus! {

/// The state after a byte-width operation: both operands are read,
/// the transform is applied, the flags are replaced by its flags-out,
/// and unless `dry` the result is written to `dest`.
pub open spec fn op8_spec(
    v: CpuView,
    dest: Operand,
    src: Operand,
    t: Transform8,
    dry: bool,
) -> CpuView {
    let r = tf8_spec(t, b_value(dest, v), b_value(src, v), v.flags());
    let v1 = v.with_flags(r.1);
    if dry {
        v1
    } else {
        b_write(dest, v1, r.0)
    }
}

/// The state after a word-width operation.
pub open spec fn op16_spec(
    v: CpuView,
    dest: Operand,
    src: Operand,
    t: Transform16,
    dry: bool,
) -> CpuView {
    let r = tf16_spec(t, w_value(dest, v), w_value(src, v), v.flags());
    let v1 = v.with_flags(r.1);
    if dry {
        v1
    } else {
        w_write(dest, v1, r.0)
    }
}

/// A dry (compare-style) byte operation is non-destructive: it leaves
/// memory and every register as it was, and sets exactly the flags that
/// the written-back operation would set.
pub proof fn lemma_op8_dry(v: CpuView, dest: Operand, src: Operand, t: Transform8)
    ensures
        op8_spec(v, dest, src, t, true) == v.with_flags(op8_spec(v, dest, src, t, true).flags()),
        op8_spec(v, dest, src, t, true).flags() == op8_spec(v, dest, src, t, false).flags(),
{
    let dry = op8_spec(v, dest, src, t, true);
    assert(dry =~= v.with_flags(dry.flags()));
}

/// A dry word operation is non-destructive in the same way.
pub proof fn lemma_op16_dry(v: CpuView, dest: Operand, src: Operand, t: Transform16)
    ensures
        op16_spec(v, dest, src, t, true) == v.with_flags(op16_spec(v, dest, src, t, true).flags()),
        op16_spec(v, dest, src, t, true).flags() == op16_spec(v, dest, src, t, false).flags(),
{
    let dry = op16_spec(v, dest, src, t, true);
    assert(dry =~= v.with_flags(dry.flags()));
}

/// A MOV (the no-op transform) never disturbs the flags, at either
/// width, whatever its operands.
pub proof fn lemma_mov_preserves_flags(v: CpuView, dest: Operand, src: Operand)
    ensures
        op8_spec(v, dest, src, Transform8::Noop, false).flags() == v.flags(),
        op16_spec(v, dest, src, Transform16::Noop, false).flags() == v.flags(),
{
}

/// Apply a byte transform.
fn apply8(t: Transform8, left: u8, right: u8, f: Flags) -> (r: (u8, Flags))
    ensures
        r == tf8_spec(t, left, right, f),
{
    match t {
        Transform8::Add => crate::tf::add8(left, right, f),
        Transform8::Sub => crate::tf::sub8(left, right, f),
        Transform8::Or => crate::tf::or8(left, right, f),
        Transform8::Noop => crate::tf::noop8(left, right, f),
    }
}

/// Apply a word transform.
fn apply16(t: Transform16, left: u16, right: u16, f: Flags) -> (r: (u16, Flags))
    ensures
        r == tf16_spec(t, left, right, f),
{
    match t {
        Transform16::Add => crate::tf::add16(left, right, f),
        Transform16::Sub => crate::tf::sub16(left, right, f),
        Transform16::Or => crate::tf::or16(left, right, f),
        Transform16::Xor => crate::tf::xor16(left, right, f),
        Transform16::And => crate::tf::and16(left, right, f),
        Transform16::Adc => crate::tf::adc16(left, right, f),
        Transform16::Sbb => crate::tf::sbb16(left, right, f),
        Transform16::Noop => crate::tf::noop16(left, right, f),
    }
}

fn operation_byte(cs: &mut CpuState, dest: Operand, src: Operand, t: Transform8, dry: bool)
    requires
        old(cs)@.wf(),
        b_readable(dest),
        b_readable(src),
        !dry ==> b_writable(dest),
    ensures
        final(cs)@ == op8_spec(old(cs)@, dest, src, t, dry),
{
    let dest_val = b_operand_value(cs, &dest);
    let src_val = b_operand_value(cs, &src);
    let flags_in = cs.get_flags();
    let (result_val, flags) = apply8(t, dest_val, src_val, flags_in);
    cs.set_flags(flags.carry, flags.overflow, flags.sign, flags.zero);
    if !dry {
        b_operand_set(cs, &dest, result_val);
    }
}

fn operation_word(cs: &mut CpuState, dest: Operand, src: Operand, t: Transform16, dry: bool)
    requires
        old(cs)@.wf(),
        w_readable(dest),
        w_readable(src),
        !dry ==> w_writable(dest),
    ensures
        final(cs)@ == op16_spec(old(cs)@, dest, src, t, dry),
{
    let dest_val = w_operand_value(cs, &dest);
    let src_val = w_operand_value(cs, &src);
    let flags_in = cs.get_flags();
    let (result_val, flags) = apply16(t, dest_val, src_val, flags_in);
    cs.set_flags(flags.carry, flags.overflow, flags.sign, flags.zero);
    if !dry {
        w_operand_set(cs, &dest, result_val);
    }
}

/// Byte operation with write-back.
pub fn op8(cs: &mut CpuState, dest: Operand, src: Operand, t: Transform8)
    requires
        old(cs)@.wf(),
        b_readable(dest),
        b_readable(src),
        b_writable(dest),
    ensures
        final(cs)@ == op8_spec(old(cs)@, dest, src, t, false),
{
    operation_byte(cs, dest, src, t, false);
}

/// Byte operation without write-back: the flags are updated, the
/// destination keeps its value (used for CMP).
pub fn op8_dry(cs: &mut CpuState, dest: Operand, src: Operand, t: Transform8)
    requires
        old(cs)@.wf(),
        b_readable(dest),
        b_readable(src),
    ensures
        final(cs)@ == op8_spec(old(cs)@, dest, src, t, true),
{
    operation_byte(cs, dest, src, t, true);
}

/// Word operation with write-back.
pub fn op16(cs: &mut CpuState, dest: Operand, src: Operand, t: Transform16)
    requires
        old(cs)@.wf(),
        w_readable(dest),
        w_readable(src),
        w_writable(dest),
    ensures
        final(cs)@ == op16_spec(old(cs)@, dest, src, t, false),
{
    operation_word(cs, dest, src, t, false);
}

/// Word operation without write-back (used for CMP).
pub fn op16_dry(cs: &mut CpuState, dest: Operand, src: Operand, t: Transform16)
    requires
        old(cs)@.wf(),
        w_readable(dest),
        w_readable(src),
    ensures
        final(cs)@ == op16_spec(old(cs)@, dest, src, t, true),
{
    operation_word(cs, dest, src, t, true);
}

} // verus!
