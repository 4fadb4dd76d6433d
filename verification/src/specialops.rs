//! Operations outside the read-transform-write pipeline: stack push
//! and pop, call and return, jumps (unconditional and flag-conditional),
//! exchange, and set-carry.

use vstd::prelude::*;

use crate::cstate::{CpuState, CpuView, Reg16, MEM_SIZE};
use crate::operand::{
    Operand, b_readable, b_writable, b_value, b_write, w_readable, w_writable, w_value, w_write,
    b_operand_value, b_operand_set, w_operand_value, w_operand_set,
};

verus! {

/// A flag a conditional jump can test.
#[derive(Clone, Copy, Debug, PartialEq, Eq, Structural)]
pub enum FlagName {
    Carry,
    Zero,
    Sign,
}

/// The value of the named flag in state `v`.
pub open spec fn spec_flag(v: CpuView, f: FlagName) -> bool {
    match f {
        FlagName::Carry => v.cf,
        FlagName::Zero => v.zf,
        FlagName::Sign => v.sf,
    }
}

/// IP after a one-byte relative jump. An offset below 127 moves IP
/// forward by the offset; any other offset moves it back by
/// 256 - offset. Both directions wrap modulo 2^16.
pub open spec fn spec_jmp8_ip(ip: u16, offset: u8) -> u16 {
    if offset < 127 {
        ((ip + offset) % 0x10000) as u16
    } else {
        ((ip + 0x10000 - (256 - offset)) % 0x10000) as u16
    }
}

/// The state after a one-byte relative jump.
pub open spec fn spec_jmp8(v: CpuView, offset: u8) -> CpuView {
    v.with_ip(spec_jmp8_ip(v.ip, offset))
}

/// The state after a word relative jump: IP moves forward by the
/// unsigned offset, wrapping modulo 2^16.
pub open spec fn spec_jmp16(v: CpuView, offset: u16) -> CpuView {
    v.with_ip(((v.ip + offset) % 0x10000) as u16)
}

/// The state after a call: the current IP is pushed, then IP moves by
/// the offset.
pub open spec fn spec_call(v: CpuView, offset: u16) -> CpuView {
    spec_jmp16(v.push_w(v.ip), offset)
}

/// The state after a return: a word is popped into IP.
pub open spec fn spec_ret(v: CpuView) -> CpuView {
    v.after_pop().with_ip(v.pop_value())
}

/// The state after a conditional one-byte jump: taken when the tested
/// flag, xor `invert`, is true.
pub open spec fn spec_jmp_flag(v: CpuView, f: FlagName, invert: bool, offset: u8) -> CpuView {
    if spec_flag(v, f) != invert {
        spec_jmp8(v, offset)
    } else {
        v
    }
}

/// The state after a two-flag conditional jump: taken when the
/// disjunction of the two flags, xor `invert`, is true.
pub open spec fn spec_jmp_flags(
    v: CpuView,
    f0: FlagName,
    f1: FlagName,
    invert: bool,
    offset: u8,
) -> CpuView {
    if (spec_flag(v, f0) || spec_flag(v, f1)) != invert {
        spec_jmp8(v, offset)
    } else {
        v
    }
}

/// The state after exchanging two byte operands.
pub open spec fn spec_xchg8(v: CpuView, left: Operand, right: Operand) -> CpuView {
    let lv = b_value(left, v);
    let rv = b_value(right, v);
    b_write(right, b_write(left, v, rv), lv)
}

/// The state after exchanging two word operands.
pub open spec fn spec_xchg16(v: CpuView, left: Operand, right: Operand) -> CpuView {
    let lv = w_value(left, v);
    let rv = w_value(right, v);
    w_write(right, w_write(left, v, rv), lv)
}

/// An exchange never disturbs the flags, at either width, whatever its
/// operands.
pub proof fn lemma_xchg_preserves_flags(v: CpuView, left: Operand, right: Operand)
    ensures
        spec_xchg8(v, left, right).flags() == v.flags(),
        spec_xchg16(v, left, right).flags() == v.flags(),
{
}

/// Call/return round trip: a return directly after a call brings IP
/// back to the instruction after the call, and restores SP.
pub proof fn lemma_call_ret(v: CpuView, offset: u16)
    requires
        v.wf(),
        v.sp >= 2,
    ensures
        spec_ret(spec_call(v, offset)).ip == v.ip,
        spec_ret(spec_call(v, offset)).sp == v.sp,
{
    crate::byteutils::lemma_split_join(v.ip);
}

/// Push the value of a 16-bit register onto the stack.
pub fn push(cs: &mut CpuState, reg: Reg16)
    requires
        old(cs)@.wf(),
        old(cs)@.sp >= 2,
    ensures
        final(cs)@ == old(cs)@.push_w(old(cs)@.reg16(reg)),
{
    let cur_val = cs.getreg16(&reg);
    cs.push(cur_val);
}

/// Pop the top of the stack into a 16-bit register.
pub fn pop(cs: &mut CpuState, reg: Reg16)
    requires
        old(cs)@.wf(),
        old(cs)@.sp as int + 1 < MEM_SIZE,
    ensures
        final(cs)@ == old(cs)@.after_pop().with_reg16(reg, old(cs)@.pop_value()),
{
    let popped_val = cs.pop();
    cs.setreg16(&reg, popped_val);
}

/// Push the current IP, then move IP by the offset.
pub fn call(cs: &mut CpuState, immediate: u16)
    requires
        old(cs)@.wf(),
        old(cs)@.sp >= 2,
    ensures
        final(cs)@ == spec_call(old(cs)@, immediate),
{
    let ip = cs.getreg16(&Reg16::IP);
    cs.push(ip);
    jmp16(cs, immediate);
}

/// Pop the top of the stack into IP.
pub fn ret(cs: &mut CpuState)
    requires
        old(cs)@.wf(),
        old(cs)@.sp as int + 1 < MEM_SIZE,
    ensures
        final(cs)@ == spec_ret(old(cs)@),
{
    let ip = cs.pop();
    cs.setreg16(&Reg16::IP, ip);
}

/// Exchange two byte operands.
pub fn xchg8(cs: &mut CpuState, left: Operand, right: Operand)
    requires
        old(cs)@.wf(),
        b_readable(left),
        b_readable(right),
        b_writable(left),
        b_writable(right),
    ensures
        final(cs)@ == spec_xchg8(old(cs)@, left, right),
{
    let left_val = b_operand_value(cs, &left);
    let right_val = b_operand_value(cs, &right);
    b_operand_set(cs, &left, right_val);
    b_operand_set(cs, &right, left_val);
}

/// Exchange two word operands.
pub fn xchg16(cs: &mut CpuState, left: Operand, right: Operand)
    requires
        old(cs)@.wf(),
        w_readable(left),
        w_readable(right),
        w_writable(left),
        w_writable(right),
    ensures
        final(cs)@ == spec_xchg16(old(cs)@, left, right),
{
    let left_val = w_operand_value(cs, &left);
    let right_val = w_operand_value(cs, &right);
    w_operand_set(cs, &left, right_val);
    w_operand_set(cs, &right, left_val);
}

/// Move IP by a one-byte relative offset.
pub fn jmp8(cs: &mut CpuState, offset: u8)
    ensures
        final(cs)@ == spec_jmp8(old(cs)@, offset),
{
    let ip = cs.getreg16(&Reg16::IP);
    let offset16 = offset as u16;
    if offset16 < 127 {
        let target: u16 = (((ip as u32) + (offset16 as u32)) % 0x10000) as u16;
        cs.setreg16(&Reg16::IP, target);
    } else {
        let target: u16 = (((ip as u32) + 0x10000 - (256 - offset16 as u32)) % 0x10000) as u16;
        cs.setreg16(&Reg16::IP, target);
    }
}

/// Move IP forward by an unsigned word offset, wrapping modulo 2^16.
pub fn jmp16(cs: &mut CpuState, offset: u16)
    ensures
        final(cs)@ == spec_jmp16(old(cs)@, offset),
{
    let ip = cs.getreg16(&Reg16::IP);
    let target: u16 = (((ip as u32) + (offset as u32)) % 0x10000) as u16;
    cs.setreg16(&Reg16::IP, target);
}

/// Read the named flag.
pub fn read_flag(cs: &CpuState, flag: FlagName) -> (r: bool)
    ensures
        r == spec_flag(cs@, flag),
{
    match flag {
        FlagName::Carry => cs.carry(),
        FlagName::Zero => cs.zero(),
        FlagName::Sign => cs.sign(),
    }
}

/// One-byte relative jump taken when the tested flag, xor `invert`,
/// is true; otherwise the state is left as it is.
pub fn jmp_flag(cs: &mut CpuState, flag: FlagName, invert: bool, immediate: u8)
    ensures
        final(cs)@ == spec_jmp_flag(old(cs)@, flag, invert, immediate),
{
    let flag_value = read_flag(cs, flag);
    if !(flag_value ^ invert) {
        return ;
    }
    jmp8(cs, immediate);
}

/// One-byte relative jump taken when the disjunction of two flags, xor
/// `invert`, is true.
pub fn jmp_flags(cs: &mut CpuState, flag0: FlagName, flag1: FlagName, invert: bool, immediate: u8)
    ensures
        final(cs)@ == spec_jmp_flags(old(cs)@, flag0, flag1, invert, immediate),
{
    let flags_value = read_flag(cs, flag0) || read_flag(cs, flag1);
    if !(flags_value ^ invert) {
        return ;
    }
    jmp8(cs, immediate);
}

/// Raise the carry flag; the other flags are untouched.
pub fn stc(cs: &mut CpuState)
    ensures
        final(cs)@ == old(cs)@.with_cf(true),
{
    cs.set_carry();
}

} // verus!
