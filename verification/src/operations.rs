//! Instruction implementations over symbolic ModR/M results and plain
//! registers: moves, arithmetic, compares, exchanges, stack and jump
//! operations, each stated as an exact state transformation.

use vstd::prelude::*;

use crate::byteutils::{
    spec_add8, spec_add16, spec_sub8, spec_sub16, spec_bitflags8, spec_bitflags16,
};
use crate::cstate::{CpuState, CpuView, Reg8, Reg16, MEM_SIZE};
use crate::modrm::ModrmResult;
use crate::operand::{Operand, b_readable, b_writable};
use crate::operation::{op8, op8_spec};
use crate::oplib::{
    modrm_b_ok, modrm_w_ok, spec_modrm_value_b, spec_modrm_value_w, spec_modrm_set_b,
    spec_modrm_set_w, spec_reg8_of, spec_reg16_of, has_reg8,
};
use crate::specialops::{
    FlagName, spec_jmp8, spec_jmp16, spec_call, spec_ret, spec_jmp_flag, spec_jmp_flags,
};
use crate::tf::{Transform8, flags_of8, flags_of16};

verus! {

/// Byte operation: read both operands, apply the transform, store its
/// flags, and write the result to `dest`.
pub fn b_op(cs: &mut CpuState, dest: Operand, src: Operand, tf: Transform8)
    requires
        old(cs)@.wf(),
        b_readable(dest),
        b_readable(src),
        b_writable(dest),
    ensures
        final(cs)@ == op8_spec(old(cs)@, dest, src, tf, false),
{
    op8(cs, dest, src, tf);
}

/// Pop the top of the stack into IP.
pub fn ret(cs: &mut CpuState)
    requires
        old(cs)@.wf(),
        old(cs)@.sp as int + 1 < MEM_SIZE,
    ensures
        final(cs)@ == spec_ret(old(cs)@),
{
    crate::oplib::ret(cs);
}

/// Increment a word register by one, setting the flags.
pub fn inc(cs: &mut CpuState, reg: Reg16)
    ensures
        final(cs)@ == old(cs)@.with_flags(
            flags_of16(spec_add16(old(cs)@.reg16(reg), 1)),
        ).with_reg16(reg, spec_add16(old(cs)@.reg16(reg), 1).0),
{
    let cur_val = cs.getreg16(&reg);
    let new_val = crate::oplib::w_add(cs, cur_val, 1);
    cs.setreg16(&reg, new_val);
}

/// Decrement a word register by one, setting the flags.
pub fn dec(cs: &mut CpuState, reg: Reg16)
    ensures
        final(cs)@ == old(cs)@.with_flags(
            flags_of16(spec_sub16(old(cs)@.reg16(reg), 1)),
        ).with_reg16(reg, spec_sub16(old(cs)@.reg16(reg), 1).0),
{
    let cur_val = cs.getreg16(&reg);
    let new_val = crate::oplib::w_sub(cs, cur_val, 1);
    cs.setreg16(&reg, new_val);
}

/// Exchange the values of two word registers; flags untouched.
pub fn xchg(cs: &mut CpuState, left: Reg16, right: Reg16)
    ensures
        final(cs)@ == old(cs)@.with_reg16(left, old(cs)@.reg16(right)).with_reg16(
            right,
            old(cs)@.reg16(left),
        ),
{
    let left_value = cs.getreg16(&left);
    let right_value = cs.getreg16(&right);
    cs.setreg16(&left, right_value);
    cs.setreg16(&right, left_value);
}

/// Raise the carry flag; the other flags are untouched.
pub fn stc(cs: &mut CpuState)
    ensures
        final(cs)@ == old(cs)@.with_cf(true),
{
    cs.set_carry();
}

/// Push the value of a word register onto the stack.
pub fn push(cs: &mut CpuState, reg: Reg16)
    requires
        old(cs)@.wf(),
        old(cs)@.sp >= 2,
    ensures
        final(cs)@ == old(cs)@.push_w(old(cs)@.reg16(reg)),
{
    let cur_val = cs.getreg16(&reg);
    crate::oplib::push(cs, cur_val);
}

/// Pop the top of the stack into a word register.
pub fn pop(cs: &mut CpuState, reg: Reg16)
    requires
        old(cs)@.wf(),
        old(cs)@.sp as int + 1 < MEM_SIZE,
    ensures
        final(cs)@ == old(cs)@.after_pop().with_reg16(reg, old(cs)@.pop_value()),
{
    let popped_val = crate::oplib::pop(cs);
    cs.setreg16(&reg, popped_val);
}

/// One-byte relative jump.
pub fn b_jmp(cs: &mut CpuState, immediate: u8)
    ensures
        final(cs)@ == spec_jmp8(old(cs)@, immediate),
{
    crate::oplib::jump_b(cs, immediate);
}

/// Word relative jump.
pub fn w_jmp(cs: &mut CpuState, immediate: u16)
    ensures
        final(cs)@ == spec_jmp16(old(cs)@, immediate),
{
    crate::oplib::jump_w(cs, immediate);
}

/// One-byte relative jump taken when the tested flag, xor `invert`,
/// is true.
pub fn b_jmp_flag(cs: &mut CpuState, flag: FlagName, invert: bool, immediate: u8)
    ensures
        final(cs)@ == spec_jmp_flag(old(cs)@, flag, invert, immediate),
{
    let flag_value = crate::specialops::read_flag(cs, flag);
    if !(flag_value ^ invert) {
        return ;
    }
    crate::oplib::jump_b(cs, immediate);
}

/// One-byte relative jump taken when the disjunction of two flags, xor
/// `invert`, is true.
pub fn b_jmp_flags(cs: &mut CpuState, flag0: FlagName, flag1: FlagName, invert: bool, immediate: u8)
    ensures
        final(cs)@ == spec_jmp_flags(old(cs)@, flag0, flag1, invert, immediate),
{
    let flag0_value = crate::specialops::read_flag(cs, flag0);
    let flag1_value = crate::specialops::read_flag(cs, flag1);
    let flags_value = flag0_value || flag1_value;
    if !(flags_value ^ invert) {
        return ;
    }
    crate::oplib::jump_b(cs, immediate);
}

/// Push IP, then move it by the offset.
pub fn call(cs: &mut CpuState, immediate: u16)
    requires
        old(cs)@.wf(),
        old(cs)@.sp >= 2,
    ensures
        final(cs)@ == spec_call(old(cs)@, immediate),
{
    crate::oplib::call(cs, immediate);
}

/// Add an immediate byte to an 8-bit register, setting the flags.
pub fn b_add(cs: &mut CpuState, reg: Reg8, immediate: u8)
    ensures
        final(cs)@ == old(cs)@.with_flags(
            flags_of8(spec_add8(old(cs)@.reg8(reg), immediate)),
        ).with_reg8(reg, spec_add8(old(cs)@.reg8(reg), immediate).0),
{
    let cur_val = cs.getreg8(&reg);
    let new_val = crate::oplib::b_add(cs, cur_val, immediate);
    cs.setreg8(&reg, new_val);
}

/// Add an immediate word to a 16-bit register, setting the flags.
pub fn w_add(cs: &mut CpuState, reg: Reg16, immediate: u16)
    ensures
        final(cs)@ == old(cs)@.with_flags(
            flags_of16(spec_add16(old(cs)@.reg16(reg), immediate)),
        ).with_reg16(reg, spec_add16(old(cs)@.reg16(reg), immediate).0),
{
    let cur_val = cs.getreg16(&reg);
    let new_val = crate::oplib::w_add(cs, cur_val, immediate);
    cs.setreg16(&reg, new_val);
}

/// Subtract an immediate word from a 16-bit register, setting the
/// flags.
pub fn w_sub_ri(cs: &mut CpuState, reg: Reg16, immediate: u16)
    ensures
        final(cs)@ == old(cs)@.with_flags(
            flags_of16(spec_sub16(old(cs)@.reg16(reg), immediate)),
        ).with_reg16(reg, spec_sub16(old(cs)@.reg16(reg), immediate).0),
{
    let reg_val = cs.getreg16(&reg);
    let new_val = crate::oplib::w_sub(cs, reg_val, immediate);
    cs.setreg16(&reg, new_val);
}

/// Compare an 8-bit register with an immediate byte: the flags of the
/// subtraction are stored, the register keeps its value.
pub fn b_cmp_ri(cs: &mut CpuState, reg: Reg8, immediate: u8)
    ensures
        final(cs)@ == old(cs)@.with_flags(flags_of8(spec_sub8(old(cs)@.reg8(reg), immediate))),
{
    let reg_val = cs.getreg8(&reg);
    crate::oplib::b_sub(cs, reg_val, immediate);
}

/// Compare a 16-bit register with an immediate word.
pub fn w_cmp_ri(cs: &mut CpuState, reg: Reg16, immediate: u16)
    ensures
        final(cs)@ == old(cs)@.with_flags(flags_of16(spec_sub16(old(cs)@.reg16(reg), immediate))),
{
    let reg_val = cs.getreg16(&reg);
    crate::oplib::w_sub(cs, reg_val, immediate);
}

/// Move an immediate byte into an 8-bit register; flags untouched.
pub fn b_mov_ir(cs: &mut CpuState, reg: Reg8, immediate: u8)
    ensures
        final(cs)@ == old(cs)@.with_reg8(reg, immediate),
{
    cs.setreg8(&reg, immediate);
}

/// Move an immediate word into a 16-bit register; flags untouched.
pub fn w_mov_ir(cs: &mut CpuState, reg: Reg16, immediate: u16)
    ensures
        final(cs)@ == old(cs)@.with_reg16(reg, immediate),
{
    cs.setreg16(&reg, immediate);
}

/// Move the byte a `ModrmResult` names into the 8-bit register of a
/// register form.
pub fn b_mov_ge(cs: &mut CpuState, src: ModrmResult, dest: ModrmResult)
    requires
        old(cs)@.wf(),
        modrm_b_ok(old(cs)@, src),
        dest is Register,
        has_reg8(dest->Register_0),
    ensures
        final(cs)@ == old(cs)@.with_reg8(
            spec_reg8_of(dest->Register_0),
            spec_modrm_value_b(old(cs)@, src),
        ),
{
    let dest_value = crate::oplib::modrm_reg8(dest.unwrap_register());
    let src_value = crate::oplib::modrm_value_b(cs, &src);
    cs.setreg8(&dest_value, src_value);
}

/// Move the word a `ModrmResult` names into the register of a register
/// form.
pub fn w_mov_ge(cs: &mut CpuState, src: ModrmResult, dest: ModrmResult)
    requires
        old(cs)@.wf(),
        modrm_w_ok(old(cs)@, src),
        dest is Register,
    ensures
        final(cs)@ == old(cs)@.with_reg16(
            spec_reg16_of(dest->Register_0),
            spec_modrm_value_w(old(cs)@, src),
        ),
{
    let dest_reg = crate::oplib::modrm_reg16(dest.unwrap_register());
    let src_value = crate::oplib::modrm_value_w(cs, &src);
    cs.setreg16(&dest_reg, src_value);
}

/// Move the byte `src` names into the target `dest` names; flags
/// untouched.
pub fn b_mov_eg(cs: &mut CpuState, dest: ModrmResult, src: ModrmResult)
    requires
        old(cs)@.wf(),
        modrm_b_ok(old(cs)@, src),
        modrm_b_ok(old(cs)@, dest),
    ensures
        final(cs)@ == spec_modrm_set_b(old(cs)@, dest, spec_modrm_value_b(old(cs)@, src)),
{
    let src_value = crate::oplib::modrm_value_b(cs, &src);
    crate::oplib::modrm_set_b(cs, &dest, src_value);
}

/// Move the word `src` names into the target `dest` names; flags
/// untouched.
pub fn w_mov_eg(cs: &mut CpuState, dest: ModrmResult, src: ModrmResult)
    requires
        old(cs)@.wf(),
        modrm_w_ok(old(cs)@, src),
        modrm_w_ok(old(cs)@, dest),
    ensures
        final(cs)@ == spec_modrm_set_w(old(cs)@, dest, spec_modrm_value_w(old(cs)@, src)),
{
    let src_value = crate::oplib::modrm_value_w(cs, &src);
    crate::oplib::modrm_set_w(cs, &dest, src_value);
}

/// Exchange the bytes two `ModrmResult`s name; the second write sees
/// the state the first one left.
pub fn b_xchg_eg(cs: &mut CpuState, left: ModrmResult, right: ModrmResult)
    requires
        old(cs)@.wf(),
        modrm_b_ok(old(cs)@, left),
        modrm_b_ok(old(cs)@, right),
        modrm_b_ok(
            spec_modrm_set_b(old(cs)@, left, spec_modrm_value_b(old(cs)@, right)),
            right,
        ),
    ensures
        final(cs)@ == spec_modrm_set_b(
            spec_modrm_set_b(old(cs)@, left, spec_modrm_value_b(old(cs)@, right)),
            right,
            spec_modrm_value_b(old(cs)@, left),
        ),
{
    let left_value = crate::oplib::modrm_value_b(cs, &left);
    let right_value = crate::oplib::modrm_value_b(cs, &right);
    crate::oplib::modrm_set_b(cs, &left, right_value);
    crate::oplib::modrm_set_b(cs, &right, left_value);
}

/// Bitwise or of the words two `ModrmResult`s name, stored through the
/// left one, with the flags of the operation.
pub fn w_or_eg(cs: &mut CpuState, left: ModrmResult, right: ModrmResult)
    requires
        old(cs)@.wf(),
        modrm_w_ok(old(cs)@, left),
        modrm_w_ok(old(cs)@, right),
    ensures
        final(cs)@ == ({
            let res = spec_modrm_value_w(old(cs)@, left) | spec_modrm_value_w(old(cs)@, right);
            spec_modrm_set_w(
                old(cs)@.with_flags(flags_of16(spec_bitflags16(res))),
                left,
                res,
            )
        }),
{
    let left_value = crate::oplib::modrm_value_w(cs, &left);
    let right_value = crate::oplib::modrm_value_w(cs, &right);
    let result = crate::oplib::w_or(cs, left_value, right_value);
    crate::oplib::modrm_set_w(cs, &left, result);
}

/// Bitwise and, as `w_or_eg`.
pub fn w_and_eg(cs: &mut CpuState, left: ModrmResult, right: ModrmResult)
    requires
        old(cs)@.wf(),
        modrm_w_ok(old(cs)@, left),
        modrm_w_ok(old(cs)@, right),
    ensures
        final(cs)@ == ({
            let res = spec_modrm_value_w(old(cs)@, left) & spec_modrm_value_w(old(cs)@, right);
            spec_modrm_set_w(
                old(cs)@.with_flags(flags_of16(spec_bitflags16(res))),
                left,
                res,
            )
        }),
{
    let left_value = crate::oplib::modrm_value_w(cs, &left);
    let right_value = crate::oplib::modrm_value_w(cs, &right);
    let result = crate::oplib::w_and(cs, left_value, right_value);
    crate::oplib::modrm_set_w(cs, &left, result);
}

/// Bitwise xor, as `w_or_eg`.
pub fn w_xor_eg(cs: &mut CpuState, left: ModrmResult, right: ModrmResult)
    requires
        old(cs)@.wf(),
        modrm_w_ok(old(cs)@, left),
        modrm_w_ok(old(cs)@, right),
    ensures
        final(cs)@ == ({
            let res = spec_modrm_value_w(old(cs)@, left) ^ spec_modrm_value_w(old(cs)@, right);
            spec_modrm_set_w(
                old(cs)@.with_flags(flags_of16(spec_bitflags16(res))),
                left,
                res,
            )
        }),
{
    let left_value = crate::oplib::modrm_value_w(cs, &left);
    let right_value = crate::oplib::modrm_value_w(cs, &right);
    let result = crate::oplib::w_xor(cs, left_value, right_value);
    crate::oplib::modrm_set_w(cs, &left, result);
}

/// Wrapping add of the words two `ModrmResult`s name, stored through
/// the left one, with full flag computation.
pub fn w_add_eg(cs: &mut CpuState, left: ModrmResult, right: ModrmResult)
    requires
        old(cs)@.wf(),
        modrm_w_ok(old(cs)@, left),
        modrm_w_ok(old(cs)@, right),
    ensures
        final(cs)@ == ({
            let t = spec_add16(
                spec_modrm_value_w(old(cs)@, left),
                spec_modrm_value_w(old(cs)@, right),
            );
            spec_modrm_set_w(old(cs)@.with_flags(flags_of16(t)), left, t.0)
        }),
{
    let left_value = crate::oplib::modrm_value_w(cs, &left);
    let right_value = crate::oplib::modrm_value_w(cs, &right);
    let result = crate::oplib::w_add(cs, left_value, right_value);
    crate::oplib::modrm_set_w(cs, &left, result);
}

/// Subtract-with-borrow of the words two `ModrmResult`s name: the
/// borrow is folded into the subtrahend before a plain subtraction.
pub fn w_sbb_eg(cs: &mut CpuState, left: ModrmResult, right: ModrmResult)
    requires
        old(cs)@.wf(),
        modrm_w_ok(old(cs)@, left),
        modrm_w_ok(old(cs)@, right),
        !(old(cs)@.cf && spec_modrm_value_w(old(cs)@, right) == 0xFFFF),
    ensures
        final(cs)@ == ({
            let c: u16 = if old(cs)@.cf { 1u16 } else { 0u16 };
            let t = spec_sub16(
                spec_modrm_value_w(old(cs)@, left),
                (spec_modrm_value_w(old(cs)@, right) + c) as u16,
            );
            spec_modrm_set_w(old(cs)@.with_flags(flags_of16(t)), left, t.0)
        }),
{
    let left_value = crate::oplib::modrm_value_w(cs, &left);
    let right_value = crate::oplib::modrm_value_w(cs, &right);
    let carry_value: u16 = if cs.carry() {
        1
    } else {
        0
    };
    let result = crate::oplib::w_sub(cs, left_value, right_value + carry_value);
    crate::oplib::modrm_set_w(cs, &left, result);
}

/// Wrapping subtract of the words two `ModrmResult`s name, stored
/// through the left one.
pub fn w_sub_eg(cs: &mut CpuState, left: ModrmResult, right: ModrmResult)
    requires
        old(cs)@.wf(),
        modrm_w_ok(old(cs)@, left),
        modrm_w_ok(old(cs)@, right),
    ensures
        final(cs)@ == ({
            let t = spec_sub16(
                spec_modrm_value_w(old(cs)@, left),
                spec_modrm_value_w(old(cs)@, right),
            );
            spec_modrm_set_w(old(cs)@.with_flags(flags_of16(t)), left, t.0)
        }),
{
    let left_value = crate::oplib::modrm_value_w(cs, &left);
    let right_value = crate::oplib::modrm_value_w(cs, &right);
    let result = crate::oplib::w_sub(cs, left_value, right_value);
    crate::oplib::modrm_set_w(cs, &left, result);
}

/// Compare the bytes two `ModrmResult`s name: flags only.
pub fn b_cmp_eg(cs: &mut CpuState, left: ModrmResult, right: ModrmResult)
    requires
        old(cs)@.wf(),
        modrm_b_ok(old(cs)@, left),
        modrm_b_ok(old(cs)@, right),
    ensures
        final(cs)@ == old(cs)@.with_flags(
            flags_of8(
                spec_sub8(spec_modrm_value_b(old(cs)@, left), spec_modrm_value_b(old(cs)@, right)),
            ),
        ),
{
    let left_value = crate::oplib::modrm_value_b(cs, &left);
    let right_value = crate::oplib::modrm_value_b(cs, &right);
    crate::oplib::b_sub(cs, left_value, right_value);
}

/// Compare the words two `ModrmResult`s name: flags only.
pub fn w_cmp_eg(cs: &mut CpuState, left: ModrmResult, right: ModrmResult)
    requires
        old(cs)@.wf(),
        modrm_w_ok(old(cs)@, left),
        modrm_w_ok(old(cs)@, right),
    ensures
        final(cs)@ == old(cs)@.with_flags(
            flags_of16(
                spec_sub16(spec_modrm_value_w(old(cs)@, left), spec_modrm_value_w(old(cs)@, right)),
            ),
        ),
{
    let left_value = crate::oplib::modrm_value_w(cs, &left);
    let right_value = crate::oplib::modrm_value_w(cs, &right);
    crate::oplib::w_sub(cs, left_value, right_value);
}

/// Add-with-carry of an immediate word into the target a `ModrmResult`
/// names: the carry is folded into the addend before a plain addition.
pub fn w_adc_ei(cs: &mut CpuState, effective: ModrmResult, immediate: u16)
    requires
        old(cs)@.wf(),
        modrm_w_ok(old(cs)@, effective),
        !(old(cs)@.cf && immediate == 0xFFFF),
    ensures
        final(cs)@ == ({
            let c: u16 = if old(cs)@.cf { 1u16 } else { 0u16 };
            let t = spec_add16(spec_modrm_value_w(old(cs)@, effective), (immediate + c) as u16);
            spec_modrm_set_w(old(cs)@.with_flags(flags_of16(t)), effective, t.0)
        }),
{
    let effective_value = crate::oplib::modrm_value_w(cs, &effective);
    let carry_value: u16 = if cs.carry() {
        1
    } else {
        0
    };
    let result = crate::oplib::w_add(cs, effective_value, immediate + carry_value);
    crate::oplib::modrm_set_w(cs, &effective, result);
}

/// Add an immediate word into the target a `ModrmResult` names.
pub fn w_add_ei(cs: &mut CpuState, effective: ModrmResult, immediate: u16)
    requires
        old(cs)@.wf(),
        modrm_w_ok(old(cs)@, effective),
    ensures
        final(cs)@ == ({
            let t = spec_add16(spec_modrm_value_w(old(cs)@, effective), immediate);
            spec_modrm_set_w(old(cs)@.with_flags(flags_of16(t)), effective, t.0)
        }),
{
    let effective_value = crate::oplib::modrm_value_w(cs, &effective);
    let result = crate::oplib::w_add(cs, effective_value, immediate);
    crate::oplib::modrm_set_w(cs, &effective, result);
}

/// Compare the byte a `ModrmResult` names with an immediate byte:
/// flags only.
pub fn b_cmp_ei(cs: &mut CpuState, effective: ModrmResult, immediate: u8)
    requires
        old(cs)@.wf(),
        modrm_b_ok(old(cs)@, effective),
    ensures
        final(cs)@ == old(cs)@.with_flags(
            flags_of8(spec_sub8(spec_modrm_value_b(old(cs)@, effective), immediate)),
        ),
{
    let effective_value = crate::oplib::modrm_value_b(cs, &effective);
    crate::oplib::b_sub(cs, effective_value, immediate);
}

/// Bitwise or of an immediate byte into the target a `ModrmResult`
/// names.
pub fn b_or_ei(cs: &mut CpuState, effective: ModrmResult, immediate: u8)
    requires
        old(cs)@.wf(),
        modrm_b_ok(old(cs)@, effective),
    ensures
        final(cs)@ == ({
            let res = spec_modrm_value_b(old(cs)@, effective) | immediate;
            spec_modrm_set_b(
                old(cs)@.with_flags(flags_of8(spec_bitflags8(res))),
                effective,
                res,
            )
        }),
{
    let effective_value = crate::oplib::modrm_value_b(cs, &effective);
    let result = crate::oplib::b_or(cs, effective_value, immediate);
    crate::oplib::modrm_set_b(cs, &effective, result);
}

/// Subtract an immediate word from the target a `ModrmResult` names.
pub fn w_sub_ei(cs: &mut CpuState, effective: ModrmResult, immediate: u16)
    requires
        old(cs)@.wf(),
        modrm_w_ok(old(cs)@, effective),
    ensures
        final(cs)@ == ({
            let t = spec_sub16(spec_modrm_value_w(old(cs)@, effective), immediate);
            spec_modrm_set_w(old(cs)@.with_flags(flags_of16(t)), effective, t.0)
        }),
{
    let effective_value = crate::oplib::modrm_value_w(cs, &effective);
    let result = crate::oplib::w_sub(cs, effective_value, immediate);
    crate::oplib::modrm_set_w(cs, &effective, result);
}

/// Compare the word a `ModrmResult` names with an immediate word:
/// flags only.
pub fn w_cmp_ei(cs: &mut CpuState, effective: ModrmResult, immediate: u16)
    requires
        old(cs)@.wf(),
        modrm_w_ok(old(cs)@, effective),
    ensures
        final(cs)@ == old(cs)@.with_flags(
            flags_of16(spec_sub16(spec_modrm_value_w(old(cs)@, effective), immediate)),
        ),
{
    let effective_value = crate::oplib::modrm_value_w(cs, &effective);
    crate::oplib::w_sub(cs, effective_value, immediate);
}

/// Move an immediate byte into the target a `ModrmResult` names;
/// flags untouched.
pub fn b_mov_ei(cs: &mut CpuState, effective: ModrmResult, immediate: u8)
    requires
        old(cs)@.wf(),
        modrm_b_ok(old(cs)@, effective),
    ensures
        final(cs)@ == spec_modrm_set_b(old(cs)@, effective, immediate),
{
    crate::oplib::modrm_set_b(cs, &effective, immediate);
}

/// Move an immediate word into the target a `ModrmResult` names;
/// flags untouched.
pub fn w_mov_ei(cs: &mut CpuState, effective: ModrmResult, immediate: u16)
    requires
        old(cs)@.wf(),
        modrm_w_ok(old(cs)@, effective),
    ensures
        final(cs)@ == spec_modrm_set_w(old(cs)@, effective, immediate),
{
    crate::oplib::modrm_set_w(cs, &effective, immediate);
}

/// Increment the byte a `ModrmResult` names, setting the flags.
pub fn b_inc_e(cs: &mut CpuState, effective: ModrmResult)
    requires
        old(cs)@.wf(),
        modrm_b_ok(old(cs)@, effective),
    ensures
        final(cs)@ == ({
            let t = spec_add8(spec_modrm_value_b(old(cs)@, effective), 1);
            spec_modrm_set_b(old(cs)@.with_flags(flags_of8(t)), effective, t.0)
        }),
{
    let cur_val = crate::oplib::modrm_value_b(cs, &effective);
    let new_val = crate::oplib::b_add(cs, cur_val, 1);
    crate::oplib::modrm_set_b(cs, &effective, new_val);
}

/// Decrement the byte a `ModrmResult` names, setting the flags.
pub fn b_dec_e(cs: &mut CpuState, effective: ModrmResult)
    requires
        old(cs)@.wf(),
        modrm_b_ok(old(cs)@, effective),
    ensures
        final(cs)@ == ({
            let t = spec_sub8(spec_modrm_value_b(old(cs)@, effective), 1);
            spec_modrm_set_b(old(cs)@.with_flags(flags_of8(t)), effective, t.0)
        }),
{
    let cur_val = crate::oplib::modrm_value_b(cs, &effective);
    let new_val = crate::oplib::b_sub(cs, cur_val, 1);
    crate::oplib::modrm_set_b(cs, &effective, new_val);
}

} // verus!
