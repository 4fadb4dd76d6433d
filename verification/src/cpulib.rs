//! Stack, jump and arithmetic helpers over the CPU state. The pop here
//! zeroes the vacated cells, which callers may not rely on; the word
//! layout on the stack is little-endian, as everywhere.

use vstd::prelude::*;

use crate::byteutils::{spec_add8, spec_add16, spec_sub8, spec_sub16};
use crate::cstate::{CpuState, CpuView, Reg16, MEM_SIZE};
use crate::specialops::{spec_jmp8, spec_jmp16, spec_call};
use crate::tf::{flags_of8, flags_of16};

verus! {

/// The state after a pop that zeroes the two vacated cells.
pub open spec fn spec_pop_zeroing(v: CpuView) -> CpuView {
    CpuView {
        sp: (v.sp + 2) as u16,
        mem: v.mem.update(v.sp as int, 0u8).update(v.sp as int + 1, 0u8),
        ..v
    }
}

/// Push the given value onto the stack.
pub fn push(cs: &mut CpuState, val: u16)
    requires
        old(cs)@.wf(),
        old(cs)@.sp >= 2,
    ensures
        final(cs)@ == old(cs)@.push_w(val),
{
    let low_b = crate::byteutils::low8(val);
    let high_b = crate::byteutils::high8(val);
    let sp = cs.getreg16(&Reg16::SP);
    cs.setmem(sp - 2, low_b);
    cs.setmem(sp - 1, high_b);
    cs.setreg16(&Reg16::SP, sp - 2);
}

/// Pop and return the top value from the stack, zeroing the cells it
/// occupied.
pub fn pop(cs: &mut CpuState) -> (r: u16)
    requires
        old(cs)@.wf(),
        old(cs)@.sp as int + 1 < MEM_SIZE,
    ensures
        r == old(cs)@.pop_value(),
        final(cs)@ == spec_pop_zeroing(old(cs)@),
{
    let sp = cs.getreg16(&Reg16::SP);
    let low_b = cs.getmem(sp);
    let high_b = cs.getmem(sp + 1);
    cs.setmem(sp, 0x0);
    cs.setmem(sp + 1, 0x0);
    cs.setreg16(&Reg16::SP, sp + 2);
    crate::byteutils::join8(low_b, high_b)
}

/// Move IP by the given one-byte relative offset.
pub fn jump_b(cs: &mut CpuState, offset: u8)
    ensures
        final(cs)@ == spec_jmp8(old(cs)@, offset),
{
    crate::specialops::jmp8(cs, offset);
}

/// Move IP by the given unsigned word offset, wrapping modulo 2^16.
pub fn jump_w(cs: &mut CpuState, offset: u16)
    ensures
        final(cs)@ == spec_jmp16(old(cs)@, offset),
{
    crate::specialops::jmp16(cs, offset);
}

/// Push IP, then move it by `offset`.
pub fn call(cs: &mut CpuState, offset: u16)
    requires
        old(cs)@.wf(),
        old(cs)@.sp >= 2,
    ensures
        final(cs)@ == spec_call(old(cs)@, offset),
{
    let ip = cs.getreg16(&Reg16::IP);
    push(cs, ip);
    jump_w(cs, offset);
}

/// Pop the top value from the stack into IP, zeroing the vacated
/// cells.
pub fn ret(cs: &mut CpuState)
    requires
        old(cs)@.wf(),
        old(cs)@.sp as int + 1 < MEM_SIZE,
    ensures
        final(cs)@ == spec_pop_zeroing(old(cs)@).with_ip(old(cs)@.pop_value()),
{
    let ip = pop(cs);
    cs.setreg16(&Reg16::IP, ip);
}

/// 8-bit add that stores the computed flags on the CPU state.
pub fn b_add(cs: &mut CpuState, left: u8, right: u8) -> (r: u8)
    ensures
        r == spec_add8(left, right).0,
        final(cs)@ == old(cs)@.with_flags(flags_of8(spec_add8(left, right))),
{
    let (result, cf, of, sf, zf) = crate::byteutils::add8(left, right);
    cs.set_flags(cf, of, sf, zf);
    result
}

/// 16-bit add that stores the computed flags on the CPU state.
pub fn w_add(cs: &mut CpuState, left: u16, right: u16) -> (r: u16)
    ensures
        r == spec_add16(left, right).0,
        final(cs)@ == old(cs)@.with_flags(flags_of16(spec_add16(left, right))),
{
    let (result, cf, of, sf, zf) = crate::byteutils::add16(left, right);
    cs.set_flags(cf, of, sf, zf);
    result
}

/// 8-bit subtract that stores the computed flags on the CPU state.
pub fn b_sub(cs: &mut CpuState, left: u8, right: u8) -> (r: u8)
    ensures
        r == spec_sub8(left, right).0,
        final(cs)@ == old(cs)@.with_flags(flags_of8(spec_sub8(left, right))),
{
    let (result, cf, of, sf, zf) = crate::byteutils::sub8(left, right);
    cs.set_flags(cf, of, sf, zf);
    result
}

/// 16-bit subtract that stores the computed flags on the CPU state.
pub fn w_sub(cs: &mut CpuState, left: u16, right: u16) -> (r: u16)
    ensures
        r == spec_sub16(left, right).0,
        final(cs)@ == old(cs)@.with_flags(flags_of16(spec_sub16(left, right))),
{
    let (result, cf, of, sf, zf) = crate::byteutils::sub16(left, right);
    cs.set_flags(cf, of, sf, zf);
    result
}

} // verus!
