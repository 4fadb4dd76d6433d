//! Helpers for instruction implementations that work on symbolic
//! ModR/M results: stack and jump operations, flag-setting arithmetic,
//! and resolution of `ModrmResult` values to registers, addresses and
//! memory cells.

use vstd::prelude::*;

use crate::byteutils::{
    spec_add8, spec_add16, spec_sub8, spec_sub16, spec_bitflags8, spec_bitflags16, spec_join8,
    spec_low8, spec_high8, spec_wrap_add16,
};
use crate::cstate::{CpuState, CpuView, Reg8, Reg16, MEM_SIZE};
use crate::modrm::{MemoryAddr, Register, ModrmResult};
use crate::specialops::{spec_jmp8, spec_jmp16, spec_call, spec_ret};
use crate::tf::{flags_of8, flags_of16};

verus! {

/// The memory address a register-sum form resolves to, modulo 2^16.
pub open spec fn spec_modrm_addr(v: CpuView, m: MemoryAddr) -> u16 {
    match m {
        MemoryAddr::BX_SI => spec_wrap_add16(v.bx, v.si),
        MemoryAddr::BX_DI => spec_wrap_add16(v.bx, v.di),
        MemoryAddr::BP_SI => spec_wrap_add16(v.bp, v.si),
        MemoryAddr::BP_DI => spec_wrap_add16(v.bp, v.di),
        MemoryAddr::SI => v.si,
        MemoryAddr::DI => v.di,
        MemoryAddr::BX => v.bx,
    }
}

/// The 16-bit register a ModR/M register form names.
pub open spec fn spec_reg16_of(r: Register) -> Reg16 {
    match r {
        Register::AX => Reg16::AX,
        Register::CX => Reg16::CX,
        Register::DX => Reg16::DX,
        Register::BX => Reg16::BX,
        Register::SP => Reg16::SP,
        Register::BP => Reg16::BP,
        Register::SI => Reg16::SI,
        Register::DI => Reg16::DI,
    }
}

/// Whether a ModR/M register form has an 8-bit counterpart: only the
/// four registers with addressable halves do.
pub open spec fn has_reg8(r: Register) -> bool {
    r == Register::AX || r == Register::CX || r == Register::DX || r == Register::BX
}

/// The 8-bit register (low half) a ModR/M register form names.
pub open spec fn spec_reg8_of(r: Register) -> Reg8 {
    match r {
        Register::CX => Reg8::CL,
        Register::DX => Reg8::DL,
        Register::BX => Reg8::BL,
        _ => Reg8::AL,
    }
}

/// The memory address a `ModrmResult` resolves to; registers resolve
/// to no address and yield zero here.
pub open spec fn spec_result_addr(v: CpuView, m: ModrmResult) -> u16 {
    match m {
        ModrmResult::MemoryAddr(a) => spec_modrm_addr(v, a),
        ModrmResult::MemoryDisp16(d) => d,
        ModrmResult::Register(_) => 0,
    }
}

/// Whether a `ModrmResult` can be read or written at byte width: a
/// memory form must name a valid cell, a register form must have an
/// 8-bit counterpart.
pub open spec fn modrm_b_ok(v: CpuView, m: ModrmResult) -> bool {
    match m {
        ModrmResult::Register(r) => has_reg8(r),
        _ => spec_result_addr(v, m) < MEM_SIZE,
    }
}

/// Whether a `ModrmResult` can be read or written at word width.
pub open spec fn modrm_w_ok(v: CpuView, m: ModrmResult) -> bool {
    match m {
        ModrmResult::Register(_) => true,
        _ => spec_result_addr(v, m) as int + 1 < MEM_SIZE,
    }
}

/// The byte a `ModrmResult` reads in state `v`.
pub open spec fn spec_modrm_value_b(v: CpuView, m: ModrmResult) -> u8 {
    match m {
        ModrmResult::Register(r) => v.reg8(spec_reg8_of(r)),
        _ => v.mem[spec_result_addr(v, m) as int],
    }
}

/// The word a `ModrmResult` reads in state `v`, little-endian for
/// memory forms.
pub open spec fn spec_modrm_value_w(v: CpuView, m: ModrmResult) -> u16 {
    match m {
        ModrmResult::Register(r) => v.reg16(spec_reg16_of(r)),
        _ => spec_join8(
            v.mem[spec_result_addr(v, m) as int],
            v.mem[spec_result_addr(v, m) as int + 1],
        ),
    }
}

/// The state after writing byte `val` through a `ModrmResult`.
pub open spec fn spec_modrm_set_b(v: CpuView, m: ModrmResult, val: u8) -> CpuView {
    match m {
        ModrmResult::Register(r) => v.with_reg8(spec_reg8_of(r), val),
        _ => v.with_mem(spec_result_addr(v, m) as int, val),
    }
}

/// The state after writing word `val` through a `ModrmResult`,
/// little-endian for memory forms.
pub open spec fn spec_modrm_set_w(v: CpuView, m: ModrmResult, val: u16) -> CpuView {
    match m {
        ModrmResult::Register(r) => v.with_reg16(spec_reg16_of(r), val),
        _ => v
            .with_mem(spec_result_addr(v, m) as int, spec_low8(val))
            .with_mem(spec_result_addr(v, m) as int + 1, spec_high8(val)),
    }
}

/// Push the given value onto the stack.
pub fn push(cs: &mut CpuState, val: u16)
    requires
        old(cs)@.wf(),
        old(cs)@.sp >= 2,
    ensures
        final(cs)@ == old(cs)@.push_w(val),
{
    let low_b = crate::byteutils::low8(val);
    let high_b = crate::byteutils::high8(val);
    let sp = cs.getreg16(&Reg16::SP);
    cs.setmem(sp - 2, low_b);
    cs.setmem(sp - 1, high_b);
    cs.setreg16(&Reg16::SP, sp - 2);
}

/// Pop and return the top value from the stack.
pub fn pop(cs: &mut CpuState) -> (r: u16)
    requires
        old(cs)@.wf(),
        old(cs)@.sp as int + 1 < MEM_SIZE,
    ensures
        r == old(cs)@.pop_value(),
        final(cs)@ == old(cs)@.after_pop(),
{
    let sp = cs.getreg16(&Reg16::SP);
    let low_b = cs.getmem(sp);
    let high_b = cs.getmem(sp + 1);
    cs.setreg16(&Reg16::SP, sp + 2);
    crate::byteutils::join8(low_b, high_b)
}

/// Move IP by the given one-byte relative offset.
pub fn jump_b(cs: &mut CpuState, offset: u8)
    ensures
        final(cs)@ == spec_jmp8(old(cs)@, offset),
{
    crate::specialops::jmp8(cs, offset);
}

/// Move IP by the given unsigned word offset, wrapping modulo 2^16.
pub fn jump_w(cs: &mut CpuState, offset: u16)
    ensures
        final(cs)@ == spec_jmp16(old(cs)@, offset),
{
    crate::specialops::jmp16(cs, offset);
}

/// Push IP, then move it by `offset`.
pub fn call(cs: &mut CpuState, offset: u16)
    requires
        old(cs)@.wf(),
        old(cs)@.sp >= 2,
    ensures
        final(cs)@ == spec_call(old(cs)@, offset),
{
    let ip = cs.getreg16(&Reg16::IP);
    push(cs, ip);
    jump_w(cs, offset);
}

/// Pop the top value from the stack into IP.
pub fn ret(cs: &mut CpuState)
    requires
        old(cs)@.wf(),
        old(cs)@.sp as int + 1 < MEM_SIZE,
    ensures
        final(cs)@ == spec_ret(old(cs)@),
{
    let ip = pop(cs);
    cs.setreg16(&Reg16::IP, ip);
}

/// 8-bit add that stores the computed flags on the CPU state.
pub fn b_add(cs: &mut CpuState, left: u8, right: u8) -> (r: u8)
    ensures
        r == spec_add8(left, right).0,
        final(cs)@ == old(cs)@.with_flags(flags_of8(spec_add8(left, right))),
{
    let (result, cf, of, sf, zf) = crate::byteutils::add8(left, right);
    cs.set_flags(cf, of, sf, zf);
    result
}

/// 16-bit add that stores the computed flags on the CPU state.
pub fn w_add(cs: &mut CpuState, left: u16, right: u16) -> (r: u16)
    ensures
        r == spec_add16(left, right).0,
        final(cs)@ == old(cs)@.with_flags(flags_of16(spec_add16(left, right))),
{
    let (result, cf, of, sf, zf) = crate::byteutils::add16(left, right);
    cs.set_flags(cf, of, sf, zf);
    result
}

/// 8-bit subtract that stores the computed flags on the CPU state.
pub fn b_sub(cs: &mut CpuState, left: u8, right: u8) -> (r: u8)
    ensures
        r == spec_sub8(left, right).0,
        final(cs)@ == old(cs)@.with_flags(flags_of8(spec_sub8(left, right))),
{
    let (result, cf, of, sf, zf) = crate::byteutils::sub8(left, right);
    cs.set_flags(cf, of, sf, zf);
    result
}

/// 16-bit subtract that stores the computed flags on the CPU state.
pub fn w_sub(cs: &mut CpuState, left: u16, right: u16) -> (r: u16)
    ensures
        r == spec_sub16(left, right).0,
        final(cs)@ == old(cs)@.with_flags(flags_of16(spec_sub16(left, right))),
{
    let (result, cf, of, sf, zf) = crate::byteutils::sub16(left, right);
    cs.set_flags(cf, of, sf, zf);
    result
}

/// 8-bit bitwise or that stores the computed flags on the CPU state.
pub fn b_or(cs: &mut CpuState, left: u8, right: u8) -> (r: u8)
    ensures
        r == (left | right),
        final(cs)@ == old(cs)@.with_flags(flags_of8(spec_bitflags8(left | right))),
{
    let (result, cf, of, sf, zf) = crate::byteutils::or8(left, right);
    cs.set_flags(cf, of, sf, zf);
    result
}

/// 16-bit bitwise or that stores the computed flags on the CPU state.
pub fn w_or(cs: &mut CpuState, left: u16, right: u16) -> (r: u16)
    ensures
        r == (left | right),
        final(cs)@ == old(cs)@.with_flags(flags_of16(spec_bitflags16(left | right))),
{
    let (result, cf, of, sf, zf) = crate::byteutils::or16(left, right);
    cs.set_flags(cf, of, sf, zf);
    result
}

/// 8-bit bitwise xor that stores the computed flags on the CPU state.
pub fn b_xor(cs: &mut CpuState, left: u8, right: u8) -> (r: u8)
    ensures
        r == (left ^ right),
        final(cs)@ == old(cs)@.with_flags(flags_of8(spec_bitflags8(left ^ right))),
{
    let (result, cf, of, sf, zf) = crate::byteutils::xor8(left, right);
    cs.set_flags(cf, of, sf, zf);
    result
}

/// 16-bit bitwise xor that stores the computed flags on the CPU state.
pub fn w_xor(cs: &mut CpuState, left: u16, right: u16) -> (r: u16)
    ensures
        r == (left ^ right),
        final(cs)@ == old(cs)@.with_flags(flags_of16(spec_bitflags16(left ^ right))),
{
    let (result, cf, of, sf, zf) = crate::byteutils::xor16(left, right);
    cs.set_flags(cf, of, sf, zf);
    result
}

/// 8-bit bitwise and that stores the computed flags on the CPU state.
pub fn b_and(cs: &mut CpuState, left: u8, right: u8) -> (r: u8)
    ensures
        r == (left & right),
        final(cs)@ == old(cs)@.with_flags(flags_of8(spec_bitflags8(left & right))),
{
    let (result, cf, of, sf, zf) = crate::byteutils::and8(left, right);
    cs.set_flags(cf, of, sf, zf);
    result
}

/// 16-bit bitwise and that stores the computed flags on the CPU state.
pub fn w_and(cs: &mut CpuState, left: u16, right: u16) -> (r: u16)
    ensures
        r == (left & right),
        final(cs)@ == old(cs)@.with_flags(flags_of16(spec_bitflags16(left & right))),
{
    let (result, cf, of, sf, zf) = crate::byteutils::and16(left, right);
    cs.set_flags(cf, of, sf, zf);
    result
}

/// Resolve a register-sum form to its current memory address.
pub fn modrm_addr(cs: &mut CpuState, result_addr: &MemoryAddr) -> (r: u16)
    ensures
        final(cs)@ == old(cs)@,
        r == spec_modrm_addr(old(cs)@, *result_addr),
{
    match *result_addr {
        MemoryAddr::BX_SI => wrap_add(cs.getreg16(&Reg16::BX), cs.getreg16(&Reg16::SI)),
        MemoryAddr::BX_DI => wrap_add(cs.getreg16(&Reg16::BX), cs.getreg16(&Reg16::DI)),
        MemoryAddr::BP_SI => wrap_add(cs.getreg16(&Reg16::BP), cs.getreg16(&Reg16::SI)),
        MemoryAddr::BP_DI => wrap_add(cs.getreg16(&Reg16::BP), cs.getreg16(&Reg16::DI)),
        MemoryAddr::SI => cs.getreg16(&Reg16::SI),
        MemoryAddr::DI => cs.getreg16(&Reg16::DI),
        MemoryAddr::BX => cs.getreg16(&Reg16::BX),
    }
}

/// Add two register values modulo 2^16.
fn wrap_add(a: u16, b: u16) -> (r: u16)
    ensures
        r == spec_wrap_add16(a, b),
{
    ((a as u32 + b as u32) % 0x10000) as u16
}

/// The 16-bit register named by a ModR/M register form.
pub fn modrm_reg16(result_reg: &Register) -> (r: Reg16)
    ensures
        r == spec_reg16_of(*result_reg),
{
    match *result_reg {
        Register::AX => Reg16::AX,
        Register::CX => Reg16::CX,
        Register::DX => Reg16::DX,
        Register::BX => Reg16::BX,
        Register::SP => Reg16::SP,
        Register::BP => Reg16::BP,
        Register::SI => Reg16::SI,
        Register::DI => Reg16::DI,
    }
}

/// The 8-bit register named by a ModR/M register form; only AX, CX, DX
/// and BX have one.
pub fn modrm_reg8(result_reg: &Register) -> (r: Reg8)
    requires
        has_reg8(*result_reg),
    ensures
        r == spec_reg8_of(*result_reg),
{
    match *result_reg {
        Register::AX => Reg8::AL,
        Register::CX => Reg8::CL,
        Register::DX => Reg8::DL,
        Register::BX => Reg8::BL,
        _ => vstd::pervasive::unreached(),
    }
}

/// Resolve and return the current byte value a `ModrmResult` names,
/// whether memory or register.
pub fn modrm_value_b(cs: &mut CpuState, effective: &ModrmResult) -> (r: u8)
    requires
        old(cs)@.wf(),
        modrm_b_ok(old(cs)@, *effective),
    ensures
        final(cs)@ == old(cs)@,
        r == spec_modrm_value_b(old(cs)@, *effective),
{
    match *effective {
        ModrmResult::MemoryAddr(x) => {
            let addr = modrm_addr(cs, &x);
            cs.getmem(addr)
        },
        ModrmResult::MemoryDisp16(addr) => cs.getmem(addr),
        ModrmResult::Register(x) => {
            let reg = modrm_reg8(&x);
            cs.getreg8(&reg)
        },
    }
}

/// Resolve and return the current word value a `ModrmResult` names.
pub fn modrm_value_w(cs: &mut CpuState, effective: &ModrmResult) -> (r: u16)
    requires
        old(cs)@.wf(),
        modrm_w_ok(old(cs)@, *effective),
    ensures
        final(cs)@ == old(cs)@,
        r == spec_modrm_value_w(old(cs)@, *effective),
{
    match *effective {
        ModrmResult::MemoryAddr(x) => {
            let addr = modrm_addr(cs, &x);
            let lo = cs.getmem(addr);
            let hi = cs.getmem(addr + 1);
            crate::byteutils::join8(lo, hi)
        },
        ModrmResult::MemoryDisp16(addr) => {
            let lo = cs.getmem(addr);
            let hi = cs.getmem(addr + 1);
            crate::byteutils::join8(lo, hi)
        },
        ModrmResult::Register(x) => {
            let reg = modrm_reg16(&x);
            cs.getreg16(&reg)
        },
    }
}

/// Write a byte through a `ModrmResult`.
pub fn modrm_set_b(cs: &mut CpuState, result: &ModrmResult, value: u8)
    requires
        old(cs)@.wf(),
        modrm_b_ok(old(cs)@, *result),
    ensures
        final(cs)@ == spec_modrm_set_b(old(cs)@, *result, value),
{
    match *result {
        ModrmResult::MemoryAddr(x) => {
            let addr = modrm_addr(cs, &x);
            cs.setmem(addr, value);
        },
        ModrmResult::MemoryDisp16(addr) => {
            cs.setmem(addr, value);
        },
        ModrmResult::Register(x) => {
            let reg = modrm_reg8(&x);
            cs.setreg8(&reg, value);
        },
    }
}

/// Write a word through a `ModrmResult`, little-endian for memory
/// forms.
pub fn modrm_set_w(cs: &mut CpuState, result: &ModrmResult, value: u16)
    requires
        old(cs)@.wf(),
        modrm_w_ok(old(cs)@, *result),
    ensures
        final(cs)@ == spec_modrm_set_w(old(cs)@, *result, value),
{
    match *result {
        ModrmResult::MemoryAddr(x) => {
            let addr = modrm_addr(cs, &x);
            cs.setmem(addr, crate::byteutils::low8(value));
            cs.setmem(addr + 1, crate::byteutils::high8(value));
        },
        ModrmResult::MemoryDisp16(addr) => {
            cs.setmem(addr, crate::byteutils::low8(value));
            cs.setmem(addr + 1, crate::byteutils::high8(value));
        },
        ModrmResult::Register(x) => {
            let reg = modrm_reg16(&x);
            cs.setreg16(&reg, value);
        },
    }
}

} // verus!
