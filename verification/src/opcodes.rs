//! The opcode table: each supported opcode byte is classified by the
//! shape of its operands (immediate byte or word, ModR/M byte or word,
//! ModR/M plus immediate, no operand, group) and dispatched to the
//! operation it performs. Unsupported opcodes, addressing modes and
//! group sub-opcodes are reported as errors.

use vstd::prelude::*;

use crate::cstate::{CpuState, CpuView, Reg8, Reg16, MEM_SIZE, spec_fetch_b, spec_fetch_w};
use crate::errors::EmuError;
use crate::modrm::{read_modrm, spec_read_modrm};
use crate::operand::{Operand, b_addr_ok, w_addr_ok, b_check_addr, w_check_addr};
use crate::operation::{op8, op8_dry, op16, op16_dry, op8_spec, op16_spec};
use crate::specialops::{
    FlagName, spec_jmp8, spec_jmp16, spec_call, spec_ret, spec_jmp_flag, spec_jmp_flags,
    spec_xchg8, spec_xchg16,
};
use crate::tf::{Transform8, Transform16};

verus! {

/// A register push as a total function: fails when the stack would
/// leave the address space.
pub open spec fn spec_push_reg(v: CpuView, reg: Reg16) -> Result<CpuView, EmuError> {
    if v.sp >= 2 {
        Ok(v.push_w(v.reg16(reg)))
    } else {
        Err(EmuError::InvalidAddress)
    }
}

/// A register pop as a total function.
pub open spec fn spec_pop_reg(v: CpuView, reg: Reg16) -> Result<CpuView, EmuError> {
    if v.sp as int + 1 < MEM_SIZE {
        Ok(v.after_pop().with_reg16(reg, v.pop_value()))
    } else {
        Err(EmuError::InvalidAddress)
    }
}

/// What an immediate-byte opcode does after its operand byte is
/// fetched.
pub open spec fn spec_b_opcode_i(v: CpuView, opcode: u8) -> Result<CpuView, EmuError> {
    match spec_fetch_b(v) {
        Err(e) => Err(e),
        Ok(t) => {
            let v1 = t.0;
            let imm = t.1;
            if opcode == 0x04 {
                Ok(op8_spec(v1, Operand::Reg8(Reg8::AL), Operand::RawByte(imm), Transform8::Add, false))
            } else if opcode == 0x3C {
                Ok(op8_spec(v1, Operand::Reg8(Reg8::AL), Operand::RawByte(imm), Transform8::Sub, true))
            } else if opcode == 0x72 {
                Ok(spec_jmp_flag(v1, FlagName::Carry, false, imm))
            } else if opcode == 0x74 {
                Ok(spec_jmp_flag(v1, FlagName::Zero, false, imm))
            } else if opcode == 0x75 {
                Ok(spec_jmp_flag(v1, FlagName::Zero, true, imm))
            } else if opcode == 0x76 {
                Ok(spec_jmp_flags(v1, FlagName::Carry, FlagName::Zero, false, imm))
            } else if opcode == 0x77 {
                Ok(spec_jmp_flags(v1, FlagName::Carry, FlagName::Zero, true, imm))
            } else if opcode == 0x79 {
                Ok(spec_jmp_flag(v1, FlagName::Sign, true, imm))
            } else if opcode == 0xB0 {
                Ok(op8_spec(v1, Operand::Reg8(Reg8::AL), Operand::RawByte(imm), Transform8::Noop, false))
            } else if opcode == 0xB1 {
                Ok(op8_spec(v1, Operand::Reg8(Reg8::CL), Operand::RawByte(imm), Transform8::Noop, false))
            } else if opcode == 0xB2 {
                Ok(op8_spec(v1, Operand::Reg8(Reg8::DL), Operand::RawByte(imm), Transform8::Noop, false))
            } else if opcode == 0xB3 {
                Ok(op8_spec(v1, Operand::Reg8(Reg8::BL), Operand::RawByte(imm), Transform8::Noop, false))
            } else if opcode == 0xB4 {
                Ok(op8_spec(v1, Operand::Reg8(Reg8::AH), Operand::RawByte(imm), Transform8::Noop, false))
            } else if opcode == 0xB5 {
                Ok(op8_spec(v1, Operand::Reg8(Reg8::CH), Operand::RawByte(imm), Transform8::Noop, false))
            } else if opcode == 0xB6 {
                Ok(op8_spec(v1, Operand::Reg8(Reg8::DH), Operand::RawByte(imm), Transform8::Noop, false))
            } else if opcode == 0xB7 {
                Ok(op8_spec(v1, Operand::Reg8(Reg8::BH), Operand::RawByte(imm), Transform8::Noop, false))
            } else if opcode == 0xEB {
                Ok(spec_jmp8(v1, imm))
            } else {
                Err(EmuError::UnknownOpcode)
            }
        },
    }
}

/// What an immediate-word opcode does after its operand word is
/// fetched.
pub open spec fn spec_w_opcode_i(v: CpuView, opcode: u8) -> Result<CpuView, EmuError> {
    match spec_fetch_w(v) {
        Err(e) => Err(e),
        Ok(t) => {
            let v1 = t.0;
            let imm = t.1;
            if opcode == 0x05 {
                Ok(op16_spec(v1, Operand::Reg16(Reg16::AX), Operand::RawWord(imm), Transform16::Add, false))
            } else if opcode == 0x2D {
                Ok(op16_spec(v1, Operand::Reg16(Reg16::AX), Operand::RawWord(imm), Transform16::Sub, false))
            } else if opcode == 0x3D {
                Ok(op16_spec(v1, Operand::Reg16(Reg16::AX), Operand::RawWord(imm), Transform16::Sub, true))
            } else if opcode == 0xB8 {
                Ok(op16_spec(v1, Operand::Reg16(Reg16::AX), Operand::RawWord(imm), Transform16::Noop, false))
            } else if opcode == 0xB9 {
                Ok(op16_spec(v1, Operand::Reg16(Reg16::CX), Operand::RawWord(imm), Transform16::Noop, false))
            } else if opcode == 0xBA {
                Ok(op16_spec(v1, Operand::Reg16(Reg16::DX), Operand::RawWord(imm), Transform16::Noop, false))
            } else if opcode == 0xBB {
                Ok(op16_spec(v1, Operand::Reg16(Reg16::BX), Operand::RawWord(imm), Transform16::Noop, false))
            } else if opcode == 0xBC {
                Ok(op16_spec(v1, Operand::Reg16(Reg16::SP), Operand::RawWord(imm), Transform16::Noop, false))
            } else if opcode == 0xBE {
                Ok(op16_spec(v1, Operand::Reg16(Reg16::SI), Operand::RawWord(imm), Transform16::Noop, false))
            } else if opcode == 0xBF {
                Ok(op16_spec(v1, Operand::Reg16(Reg16::DI), Operand::RawWord(imm), Transform16::Noop, false))
            } else if opcode == 0xE8 {
                if v1.sp >= 2 {
                    Ok(spec_call(v1, imm))
                } else {
                    Err(EmuError::InvalidAddress)
                }
            } else if opcode == 0xE9 {
                Ok(spec_jmp16(v1, imm))
            } else {
                Err(EmuError::UnknownOpcode)
            }
        },
    }
}

/// What a byte-width ModR/M opcode does after its ModR/M byte is
/// decoded.
pub open spec fn spec_b_opcode_m(v: CpuView, opcode: u8) -> Result<CpuView, EmuError> {
    match spec_read_modrm(v, true) {
        Err(e) => Err(e),
        Ok(t) => {
            let v1 = t.0;
            let eff = t.2;
            let regop = t.3;
            if opcode == 0x86 {
                if b_addr_ok(eff) {
                    Ok(spec_xchg8(v1, eff, regop))
                } else {
                    Err(EmuError::InvalidAddress)
                }
            } else if opcode == 0x88 {
                if b_addr_ok(eff) {
                    Ok(op8_spec(v1, eff, regop, Transform8::Noop, false))
                } else {
                    Err(EmuError::InvalidAddress)
                }
            } else if opcode == 0x8A {
                if b_addr_ok(eff) {
                    Ok(op8_spec(v1, regop, eff, Transform8::Noop, false))
                } else {
                    Err(EmuError::InvalidAddress)
                }
            } else if opcode == 0x38 {
                if b_addr_ok(eff) {
                    Ok(op8_spec(v1, eff, regop, Transform8::Sub, true))
                } else {
                    Err(EmuError::InvalidAddress)
                }
            } else {
                Err(EmuError::UnknownOpcode)
            }
        },
    }
}

/// What a word-width ModR/M opcode does after its ModR/M byte is
/// decoded.
pub open spec fn spec_w_opcode_m(v: CpuView, opcode: u8) -> Result<CpuView, EmuError> {
    match spec_read_modrm(v, false) {
        Err(e) => Err(e),
        Ok(t) => {
            let v1 = t.0;
            let eff = t.2;
            let regop = t.3;
            if !w_addr_ok(eff) {
                if opcode == 0x01 || opcode == 0x09 || opcode == 0x19 || opcode == 0x20
                    || opcode == 0x29 || opcode == 0x31 || opcode == 0x39 || opcode == 0x89
                    || opcode == 0x8B {
                    Err(EmuError::InvalidAddress)
                } else {
                    Err(EmuError::UnknownOpcode)
                }
            } else if opcode == 0x01 {
                Ok(op16_spec(v1, eff, regop, Transform16::Add, false))
            } else if opcode == 0x09 {
                Ok(op16_spec(v1, eff, regop, Transform16::Or, false))
            } else if opcode == 0x19 {
                Ok(op16_spec(v1, eff, regop, Transform16::Sbb, false))
            } else if opcode == 0x20 {
                Ok(op16_spec(v1, eff, regop, Transform16::And, false))
            } else if opcode == 0x29 {
                Ok(op16_spec(v1, eff, regop, Transform16::Sub, false))
            } else if opcode == 0x31 {
                Ok(op16_spec(v1, eff, regop, Transform16::Xor, false))
            } else if opcode == 0x39 {
                Ok(op16_spec(v1, eff, regop, Transform16::Sub, true))
            } else if opcode == 0x89 {
                Ok(op16_spec(v1, eff, regop, Transform16::Noop, false))
            } else if opcode == 0x8B {
                Ok(op16_spec(v1, regop, eff, Transform16::Noop, false))
            } else {
                Err(EmuError::UnknownOpcode)
            }
        },
    }
}

/// What the byte-width ModR/M-plus-immediate opcode (a byte MOV into
/// the effective operand) does.
pub open spec fn spec_b_opcode_mi(v: CpuView) -> Result<CpuView, EmuError> {
    match spec_read_modrm(v, true) {
        Err(e) => Err(e),
        Ok(t) => match spec_fetch_b(t.0) {
            Err(e) => Err(e),
            Ok(t2) => {
                if b_addr_ok(t.2) {
                    Ok(op8_spec(t2.0, t.2, Operand::RawByte(t2.1), Transform8::Noop, false))
                } else {
                    Err(EmuError::InvalidAddress)
                }
            },
        },
    }
}

/// What the word-width ModR/M-plus-immediate opcode (a word MOV into
/// the effective operand) does.
pub open spec fn spec_w_opcode_mi(v: CpuView) -> Result<CpuView, EmuError> {
    match spec_read_modrm(v, false) {
        Err(e) => Err(e),
        Ok(t) => match spec_fetch_w(t.0) {
            Err(e) => Err(e),
            Ok(t2) => {
                if w_addr_ok(t.2) {
                    Ok(op16_spec(t2.0, t.2, Operand::RawWord(t2.1), Transform16::Noop, false))
                } else {
                    Err(EmuError::InvalidAddress)
                }
            },
        },
    }
}

/// What the byte group opcode does: the `reg` bits of its ModR/M byte
/// select OR (001) or CMP (111) against the trailing immediate byte.
pub open spec fn spec_b_group_i(v: CpuView) -> Result<CpuView, EmuError> {
    match spec_read_modrm(v, true) {
        Err(e) => Err(e),
        Ok(t) => match spec_fetch_b(t.0) {
            Err(e) => Err(e),
            Ok(t2) => {
                let rb = t.1;
                let eff = t.2;
                if rb == 1 {
                    if b_addr_ok(eff) {
                        Ok(op8_spec(t2.0, eff, Operand::RawByte(t2.1), Transform8::Or, false))
                    } else {
                        Err(EmuError::InvalidAddress)
                    }
                } else if rb == 7 {
                    if b_addr_ok(eff) {
                        Ok(op8_spec(t2.0, eff, Operand::RawByte(t2.1), Transform8::Sub, true))
                    } else {
                        Err(EmuError::InvalidAddress)
                    }
                } else {
                    Err(EmuError::InvalidGroupSubOp)
                }
            },
        },
    }
}

/// What the word group opcode does: the `reg` bits select ADD (000),
/// ADC (010), SUB (101) or CMP (111) against the trailing immediate
/// word.
pub open spec fn spec_w_group_i(v: CpuView) -> Result<CpuView, EmuError> {
    match spec_read_modrm(v, false) {
        Err(e) => Err(e),
        Ok(t) => match spec_fetch_w(t.0) {
            Err(e) => Err(e),
            Ok(t2) => {
                let rb = t.1;
                let eff = t.2;
                if rb == 0 {
                    if w_addr_ok(eff) {
                        Ok(op16_spec(t2.0, eff, Operand::RawWord(t2.1), Transform16::Add, false))
                    } else {
                        Err(EmuError::InvalidAddress)
                    }
                } else if rb == 2 {
                    if w_addr_ok(eff) {
                        Ok(op16_spec(t2.0, eff, Operand::RawWord(t2.1), Transform16::Adc, false))
                    } else {
                        Err(EmuError::InvalidAddress)
                    }
                } else if rb == 5 {
                    if w_addr_ok(eff) {
                        Ok(op16_spec(t2.0, eff, Operand::RawWord(t2.1), Transform16::Sub, false))
                    } else {
                        Err(EmuError::InvalidAddress)
                    }
                } else if rb == 7 {
                    if w_addr_ok(eff) {
                        Ok(op16_spec(t2.0, eff, Operand::RawWord(t2.1), Transform16::Sub, true))
                    } else {
                        Err(EmuError::InvalidAddress)
                    }
                } else {
                    Err(EmuError::InvalidGroupSubOp)
                }
            },
        },
    }
}

/// What the byte inc/dec group opcode does: the `reg` bits select INC
/// (000) or DEC (001) of the effective operand.
pub open spec fn spec_b_group_noargs(v: CpuView) -> Result<CpuView, EmuError> {
    match spec_read_modrm(v, true) {
        Err(e) => Err(e),
        Ok(t) => {
            let rb = t.1;
            let eff = t.2;
            if rb == 0 {
                if b_addr_ok(eff) {
                    Ok(op8_spec(t.0, eff, Operand::RawByte(1), Transform8::Add, false))
                } else {
                    Err(EmuError::InvalidAddress)
                }
            } else if rb == 1 {
                if b_addr_ok(eff) {
                    Ok(op8_spec(t.0, eff, Operand::RawByte(1), Transform8::Sub, false))
                } else {
                    Err(EmuError::InvalidAddress)
                }
            } else {
                Err(EmuError::InvalidGroupSubOp)
            }
        },
    }
}

/// What an operand-less opcode does: inc/dec of a word register, push,
/// pop, return, exchange, no-op, or set-carry.
pub open spec fn spec_opcode_noargs(v: CpuView, opcode: u8) -> Result<CpuView, EmuError> {
    if opcode == 0x40 {
        Ok(op16_spec(v, Operand::Reg16(Reg16::AX), Operand::RawWord(1), Transform16::Add, false))
    } else if opcode == 0x41 {
        Ok(op16_spec(v, Operand::Reg16(Reg16::CX), Operand::RawWord(1), Transform16::Add, false))
    } else if opcode == 0x42 {
        Ok(op16_spec(v, Operand::Reg16(Reg16::DX), Operand::RawWord(1), Transform16::Add, false))
    } else if opcode == 0x43 {
        Ok(op16_spec(v, Operand::Reg16(Reg16::BX), Operand::RawWord(1), Transform16::Add, false))
    } else if opcode == 0x47 {
        Ok(op16_spec(v, Operand::Reg16(Reg16::DI), Operand::RawWord(1), Transform16::Add, false))
    } else if opcode == 0x48 {
        Ok(op16_spec(v, Operand::Reg16(Reg16::AX), Operand::RawWord(1), Transform16::Sub, false))
    } else if opcode == 0x49 {
        Ok(op16_spec(v, Operand::Reg16(Reg16::CX), Operand::RawWord(1), Transform16::Sub, false))
    } else if opcode == 0x4A {
        Ok(op16_spec(v, Operand::Reg16(Reg16::DX), Operand::RawWord(1), Transform16::Sub, false))
    } else if opcode == 0x4B {
        Ok(op16_spec(v, Operand::Reg16(Reg16::BX), Operand::RawWord(1), Transform16::Sub, false))
    } else if opcode == 0x4C {
        Ok(op16_spec(v, Operand::Reg16(Reg16::DI), Operand::RawWord(1), Transform16::Sub, false))
    } else if opcode == 0x50 {
        spec_push_reg(v, Reg16::AX)
    } else if opcode == 0x51 {
        spec_push_reg(v, Reg16::CX)
    } else if opcode == 0x52 {
        spec_push_reg(v, Reg16::DX)
    } else if opcode == 0x53 {
        spec_push_reg(v, Reg16::BX)
    } else if opcode == 0x54 {
        spec_push_reg(v, Reg16::SP)
    } else if opcode == 0x56 {
        spec_push_reg(v, Reg16::SI)
    } else if opcode == 0x57 {
        spec_push_reg(v, Reg16::DI)
    } else if opcode == 0x58 {
        spec_pop_reg(v, Reg16::AX)
    } else if opcode == 0x59 {
        spec_pop_reg(v, Reg16::CX)
    } else if opcode == 0x5A {
        spec_pop_reg(v, Reg16::DX)
    } else if opcode == 0x5B {
        spec_pop_reg(v, Reg16::BX)
    } else if opcode == 0x5C {
        spec_pop_reg(v, Reg16::SP)
    } else if opcode == 0x5E {
        spec_pop_reg(v, Reg16::SI)
    } else if opcode == 0x5F {
        spec_pop_reg(v, Reg16::DI)
    } else if opcode == 0x90 {
        Ok(v)
    } else if opcode == 0x92 {
        Ok(spec_xchg16(v, Operand::Reg16(Reg16::AX), Operand::Reg16(Reg16::DX)))
    } else if opcode == 0xC3 {
        if v.sp as int + 1 < MEM_SIZE {
            Ok(spec_ret(v))
        } else {
            Err(EmuError::InvalidAddress)
        }
    } else if opcode == 0xF9 {
        Ok(v.with_cf(true))
    } else {
        Err(EmuError::UnknownOpcode)
    }
}

/// What one dispatched opcode does to the whole CPU state: the
/// successor state, or the error that stops the run.
/// Whether `opcode` takes one immediate byte.
pub open spec fn shape_i8(opcode: u8) -> bool {
    opcode == 0x04 || opcode == 0x3C || opcode == 0x72 || (0x74 <= opcode && opcode <= 0x79)
        || (0xB0 <= opcode && opcode <= 0xB7) || opcode == 0xEB
}

/// Whether `opcode` takes one immediate word.
pub open spec fn shape_i16(opcode: u8) -> bool {
    opcode == 0x05 || opcode == 0x2D || opcode == 0x3D || (0xB8 <= opcode && opcode <= 0xBF)
        || opcode == 0xE8 || opcode == 0xE9
}

/// Whether `opcode` takes a ModR/M byte at byte width.
pub open spec fn shape_mb(opcode: u8) -> bool {
    opcode == 0x86 || opcode == 0x88 || opcode == 0x8A || opcode == 0x38
}

/// Whether `opcode` takes a ModR/M byte at word width.
pub open spec fn shape_mw(opcode: u8) -> bool {
    opcode == 0x01 || opcode == 0x09 || opcode == 0x19 || opcode == 0x20 || opcode == 0x29
        || opcode == 0x31 || opcode == 0x39 || opcode == 0x89 || opcode == 0x8B
}

/// Whether `opcode` takes no operand bytes.
pub open spec fn shape_noargs(opcode: u8) -> bool {
    (0x40 <= opcode && opcode <= 0x4C) || (0x50 <= opcode && opcode <= 0x5F) || opcode == 0x90
        || opcode == 0x92 || opcode == 0xC3 || opcode == 0xF9
}

#[verifier::opaque]
pub open spec fn spec_do_opcode(v: CpuView, opcode: u8) -> Result<CpuView, EmuError> {
    if shape_i8(opcode) {
        spec_b_opcode_i(v, opcode)
    } else if shape_i16(opcode) {
        spec_w_opcode_i(v, opcode)
    } else if shape_mb(opcode) {
        spec_b_opcode_m(v, opcode)
    } else if shape_mw(opcode) {
        spec_w_opcode_m(v, opcode)
    } else if opcode == 0xC6 {
        spec_b_opcode_mi(v)
    } else if opcode == 0xC7 {
        spec_w_opcode_mi(v)
    } else if shape_noargs(opcode) {
        spec_opcode_noargs(v, opcode)
    } else if opcode == 0x80 {
        spec_b_group_i(v)
    } else if opcode == 0x81 {
        spec_w_group_i(v)
    } else if opcode == 0xFE {
        spec_b_group_noargs(v)
    } else {
        Err(EmuError::UnknownOpcode)
    }
}

fn push_reg(cs: &mut CpuState, reg: Reg16) -> (r: Result<(), EmuError>)
    requires
        old(cs)@.wf(),
    ensures
        final(cs)@.wf(),
        match spec_push_reg(old(cs)@, reg) {
            Ok(v) => r is Ok && final(cs)@ == v,
            Err(e) => r == Err::<(), EmuError>(e) && final(cs)@ == old(cs)@,
        },
{
    if cs.getreg16(&Reg16::SP) < 2 {
        return Err(EmuError::InvalidAddress);
    }
    crate::specialops::push(cs, reg);
    Ok(())
}

fn pop_reg(cs: &mut CpuState, reg: Reg16) -> (r: Result<(), EmuError>)
    requires
        old(cs)@.wf(),
    ensures
        final(cs)@.wf(),
        match spec_pop_reg(old(cs)@, reg) {
            Ok(v) => r is Ok && final(cs)@ == v,
            Err(e) => r == Err::<(), EmuError>(e) && final(cs)@ == old(cs)@,
        },
{
    if cs.getreg16(&Reg16::SP) >= 0xFFFE {
        return Err(EmuError::InvalidAddress);
    }
    crate::specialops::pop(cs, reg);
    Ok(())
}

#[verifier::rlimit(100)]
fn b_opcode_i(cs: &mut CpuState, opcode: u8) -> (r: Result<(), EmuError>)
    requires
        old(cs)@.wf(),
    ensures
        final(cs)@.wf(),
        match spec_b_opcode_i(old(cs)@, opcode) {
            Ok(v) => r is Ok && final(cs)@ == v,
            Err(e) => r == Err::<(), EmuError>(e),
        },
{
    if cs.getreg16(&Reg16::IP) as usize >= MEM_SIZE {
        return Err(EmuError::InvalidAddress);
    }
    let immediate_raw = cs.read();
    let immediate = Operand::RawByte(immediate_raw);

    match opcode {
        0x04 => op8(cs, Operand::Reg8(Reg8::AL), immediate, Transform8::Add),
        0x3C => op8_dry(cs, Operand::Reg8(Reg8::AL), immediate, Transform8::Sub),
        0x72 => crate::specialops::jmp_flag(cs, FlagName::Carry, false, immediate_raw),
        0x74 => crate::specialops::jmp_flag(cs, FlagName::Zero, false, immediate_raw),
        0x75 => crate::specialops::jmp_flag(cs, FlagName::Zero, true, immediate_raw),
        0x76 => crate::specialops::jmp_flags(
            cs,
            FlagName::Carry,
            FlagName::Zero,
            false,
            immediate_raw,
        ),
        0x77 => crate::specialops::jmp_flags(
            cs,
            FlagName::Carry,
            FlagName::Zero,
            true,
            immediate_raw,
        ),
        0x79 => crate::specialops::jmp_flag(cs, FlagName::Sign, true, immediate_raw),
        0xB0 => op8(cs, Operand::Reg8(Reg8::AL), immediate, Transform8::Noop),
        0xB1 => op8(cs, Operand::Reg8(Reg8::CL), immediate, Transform8::Noop),
        0xB2 => op8(cs, Operand::Reg8(Reg8::DL), immediate, Transform8::Noop),
        0xB3 => op8(cs, Operand::Reg8(Reg8::BL), immediate, Transform8::Noop),
        0xB4 => op8(cs, Operand::Reg8(Reg8::AH), immediate, Transform8::Noop),
        0xB5 => op8(cs, Operand::Reg8(Reg8::CH), immediate, Transform8::Noop),
        0xB6 => op8(cs, Operand::Reg8(Reg8::DH), immediate, Transform8::Noop),
        0xB7 => op8(cs, Operand::Reg8(Reg8::BH), immediate, Transform8::Noop),
        0xEB => crate::specialops::jmp8(cs, immediate_raw),
        _ => {
            return Err(EmuError::UnknownOpcode);
        },
    }
    Ok(())
}

#[verifier::rlimit(100)]
fn w_opcode_i(cs: &mut CpuState, opcode: u8) -> (r: Result<(), EmuError>)
    requires
        old(cs)@.wf(),
    ensures
        final(cs)@.wf(),
        match spec_w_opcode_i(old(cs)@, opcode) {
            Ok(v) => r is Ok && final(cs)@ == v,
            Err(e) => r == Err::<(), EmuError>(e),
        },
{
    if cs.getreg16(&Reg16::IP) >= 0xFFFE {
        return Err(EmuError::InvalidAddress);
    }
    let immediate_raw = cs.read16();
    let immediate = Operand::RawWord(immediate_raw);

    match opcode {
        0x05 => op16(cs, Operand::Reg16(Reg16::AX), immediate, Transform16::Add),
        0x2D => op16(cs, Operand::Reg16(Reg16::AX), immediate, Transform16::Sub),
        0x3D => op16_dry(cs, Operand::Reg16(Reg16::AX), immediate, Transform16::Sub),
        0xB8 => op16(cs, Operand::Reg16(Reg16::AX), immediate, Transform16::Noop),
        0xB9 => op16(cs, Operand::Reg16(Reg16::CX), immediate, Transform16::Noop),
        0xBA => op16(cs, Operand::Reg16(Reg16::DX), immediate, Transform16::Noop),
        0xBB => op16(cs, Operand::Reg16(Reg16::BX), immediate, Transform16::Noop),
        0xBC => op16(cs, Operand::Reg16(Reg16::SP), immediate, Transform16::Noop),
        0xBE => op16(cs, Operand::Reg16(Reg16::SI), immediate, Transform16::Noop),
        0xBF => op16(cs, Operand::Reg16(Reg16::DI), immediate, Transform16::Noop),
        0xE8 => {
            if cs.getreg16(&Reg16::SP) < 2 {
                return Err(EmuError::InvalidAddress);
            }
            crate::specialops::call(cs, immediate_raw);
        },
        0xE9 => crate::specialops::jmp16(cs, immediate_raw),
        _ => {
            return Err(EmuError::UnknownOpcode);
        },
    }
    Ok(())
}

#[verifier::rlimit(100)]
fn b_opcode_m(cs: &mut CpuState, opcode: u8) -> (r: Result<(), EmuError>)
    requires
        old(cs)@.wf(),
    ensures
        final(cs)@.wf(),
        match spec_b_opcode_m(old(cs)@, opcode) {
            Ok(v) => r is Ok && final(cs)@ == v,
            Err(e) => r == Err::<(), EmuError>(e),
        },
{
    let (_rb, eff, reg) = match read_modrm(cs, true) {
        Ok(t) => t,
        Err(e) => {
            return Err(e);
        },
    };

    match opcode {
        0x86 => {
            if !b_check_addr(&eff) {
                return Err(EmuError::InvalidAddress);
            }
            crate::specialops::xchg8(cs, eff, reg);
        },
        0x88 => {
            if !b_check_addr(&eff) {
                return Err(EmuError::InvalidAddress);
            }
            op8(cs, eff, reg, Transform8::Noop);
        },
        0x8A => {
            if !b_check_addr(&eff) {
                return Err(EmuError::InvalidAddress);
            }
            op8(cs, reg, eff, Transform8::Noop);
        },
        0x38 => {
            if !b_check_addr(&eff) {
                return Err(EmuError::InvalidAddress);
            }
            op8_dry(cs, eff, reg, Transform8::Sub);
        },
        _ => {
            return Err(EmuError::UnknownOpcode);
        },
    }
    Ok(())
}

#[verifier::rlimit(100)]
fn w_opcode_m(cs: &mut CpuState, opcode: u8) -> (r: Result<(), EmuError>)
    requires
        old(cs)@.wf(),
    ensures
        final(cs)@.wf(),
        match spec_w_opcode_m(old(cs)@, opcode) {
            Ok(v) => r is Ok && final(cs)@ == v,
            Err(e) => r == Err::<(), EmuError>(e),
        },
{
    let (_rb, eff, reg) = match read_modrm(cs, false) {
        Ok(t) => t,
        Err(e) => {
            return Err(e);
        },
    };

    match opcode {
        0x01 | 0x09 | 0x19 | 0x20 | 0x29 | 0x31 | 0x39 | 0x89 | 0x8B => {},
        _ => {
            return Err(EmuError::UnknownOpcode);
        },
    }
    if !w_check_addr(&eff) {
        return Err(EmuError::InvalidAddress);
    }

    match opcode {
        0x01 => op16(cs, eff, reg, Transform16::Add),
        0x09 => op16(cs, eff, reg, Transform16::Or),
        0x19 => op16(cs, eff, reg, Transform16::Sbb),
        0x20 => op16(cs, eff, reg, Transform16::And),
        0x29 => op16(cs, eff, reg, Transform16::Sub),
        0x31 => op16(cs, eff, reg, Transform16::Xor),
        0x39 => op16_dry(cs, eff, reg, Transform16::Sub),
        0x89 => op16(cs, eff, reg, Transform16::Noop),
        _ => op16(cs, reg, eff, Transform16::Noop),
    }
    Ok(())
}

#[verifier::rlimit(100)]
fn b_opcode_mi(cs: &mut CpuState) -> (r: Result<(), EmuError>)
    requires
        old(cs)@.wf(),
    ensures
        final(cs)@.wf(),
        match spec_b_opcode_mi(old(cs)@) {
            Ok(v) => r is Ok && final(cs)@ == v,
            Err(e) => r == Err::<(), EmuError>(e),
        },
{
    let (_rb, eff, _reg) = match read_modrm(cs, true) {
        Ok(t) => t,
        Err(e) => {
            return Err(e);
        },
    };
    if cs.getreg16(&Reg16::IP) as usize >= MEM_SIZE {
        return Err(EmuError::InvalidAddress);
    }
    let immediate = cs.read();
    if !b_check_addr(&eff) {
        return Err(EmuError::InvalidAddress);
    }
    op8(cs, eff, Operand::RawByte(immediate), Transform8::Noop);
    Ok(())
}

#[verifier::rlimit(100)]
fn w_opcode_mi(cs: &mut CpuState) -> (r: Result<(), EmuError>)
    requires
        old(cs)@.wf(),
    ensures
        final(cs)@.wf(),
        match spec_w_opcode_mi(old(cs)@) {
            Ok(v) => r is Ok && final(cs)@ == v,
            Err(e) => r == Err::<(), EmuError>(e),
        },
{
    let (_rb, eff, _reg) = match read_modrm(cs, false) {
        Ok(t) => t,
        Err(e) => {
            return Err(e);
        },
    };
    if cs.getreg16(&Reg16::IP) >= 0xFFFE {
        return Err(EmuError::InvalidAddress);
    }
    let immediate = cs.read16();
    if !w_check_addr(&eff) {
        return Err(EmuError::InvalidAddress);
    }
    op16(cs, eff, Operand::RawWord(immediate), Transform16::Noop);
    Ok(())
}

#[verifier::rlimit(100)]
fn b_group_i(cs: &mut CpuState) -> (r: Result<(), EmuError>)
    requires
        old(cs)@.wf(),
    ensures
        final(cs)@.wf(),
        match spec_b_group_i(old(cs)@) {
            Ok(v) => r is Ok && final(cs)@ == v,
            Err(e) => r == Err::<(), EmuError>(e),
        },
{
    let (rb, eff, _reg) = match read_modrm(cs, true) {
        Ok(t) => t,
        Err(e) => {
            return Err(e);
        },
    };
    if cs.getreg16(&Reg16::IP) as usize >= MEM_SIZE {
        return Err(EmuError::InvalidAddress);
    }
    let immediate = cs.read();

    match rb {
        1 => {
            if !b_check_addr(&eff) {
                return Err(EmuError::InvalidAddress);
            }
            op8(cs, eff, Operand::RawByte(immediate), Transform8::Or);
        },
        7 => {
            if !b_check_addr(&eff) {
                return Err(EmuError::InvalidAddress);
            }
            op8_dry(cs, eff, Operand::RawByte(immediate), Transform8::Sub);
        },
        _ => {
            return Err(EmuError::InvalidGroupSubOp);
        },
    }
    Ok(())
}

#[verifier::rlimit(100)]
fn w_group_i(cs: &mut CpuState) -> (r: Result<(), EmuError>)
    requires
        old(cs)@.wf(),
    ensures
        final(cs)@.wf(),
        match spec_w_group_i(old(cs)@) {
            Ok(v) => r is Ok && final(cs)@ == v,
            Err(e) => r == Err::<(), EmuError>(e),
        },
{
    let (rb, eff, _reg) = match read_modrm(cs, false) {
        Ok(t) => t,
        Err(e) => {
            return Err(e);
        },
    };
    if cs.getreg16(&Reg16::IP) >= 0xFFFE {
        return Err(EmuError::InvalidAddress);
    }
    let immediate = cs.read16();

    match rb {
        0 => {
            if !w_check_addr(&eff) {
                return Err(EmuError::InvalidAddress);
            }
            op16(cs, eff, Operand::RawWord(immediate), Transform16::Add);
        },
        2 => {
            if !w_check_addr(&eff) {
                return Err(EmuError::InvalidAddress);
            }
            op16(cs, eff, Operand::RawWord(immediate), Transform16::Adc);
        },
        5 => {
            if !w_check_addr(&eff) {
                return Err(EmuError::InvalidAddress);
            }
            op16(cs, eff, Operand::RawWord(immediate), Transform16::Sub);
        },
        7 => {
            if !w_check_addr(&eff) {
                return Err(EmuError::InvalidAddress);
            }
            op16_dry(cs, eff, Operand::RawWord(immediate), Transform16::Sub);
        },
        _ => {
            return Err(EmuError::InvalidGroupSubOp);
        },
    }
    Ok(())
}

#[verifier::rlimit(100)]
fn b_group_noargs(cs: &mut CpuState) -> (r: Result<(), EmuError>)
    requires
        old(cs)@.wf(),
    ensures
        final(cs)@.wf(),
        match spec_b_group_noargs(old(cs)@) {
            Ok(v) => r is Ok && final(cs)@ == v,
            Err(e) => r == Err::<(), EmuError>(e),
        },
{
    let (rb, eff, _reg) = match read_modrm(cs, true) {
        Ok(t) => t,
        Err(e) => {
            return Err(e);
        },
    };

    match rb {
        0 => {
            if !b_check_addr(&eff) {
                return Err(EmuError::InvalidAddress);
            }
            op8(cs, eff, Operand::RawByte(1), Transform8::Add);
        },
        1 => {
            if !b_check_addr(&eff) {
                return Err(EmuError::InvalidAddress);
            }
            op8(cs, eff, Operand::RawByte(1), Transform8::Sub);
        },
        _ => {
            return Err(EmuError::InvalidGroupSubOp);
        },
    }
    Ok(())
}

#[verifier::rlimit(100)]
fn opcode_noargs(cs: &mut CpuState, opcode: u8) -> (r: Result<(), EmuError>)
    requires
        old(cs)@.wf(),
    ensures
        final(cs)@.wf(),
        match spec_opcode_noargs(old(cs)@, opcode) {
            Ok(v) => r is Ok && final(cs)@ == v,
            Err(e) => r == Err::<(), EmuError>(e),
        },
{
    match opcode {
        0x40 => op16(cs, Operand::Reg16(Reg16::AX), Operand::RawWord(1), Transform16::Add),
        0x41 => op16(cs, Operand::Reg16(Reg16::CX), Operand::RawWord(1), Transform16::Add),
        0x42 => op16(cs, Operand::Reg16(Reg16::DX), Operand::RawWord(1), Transform16::Add),
        0x43 => op16(cs, Operand::Reg16(Reg16::BX), Operand::RawWord(1), Transform16::Add),
        0x47 => op16(cs, Operand::Reg16(Reg16::DI), Operand::RawWord(1), Transform16::Add),
        0x48 => op16(cs, Operand::Reg16(Reg16::AX), Operand::RawWord(1), Transform16::Sub),
        0x49 => op16(cs, Operand::Reg16(Reg16::CX), Operand::RawWord(1), Transform16::Sub),
        0x4A => op16(cs, Operand::Reg16(Reg16::DX), Operand::RawWord(1), Transform16::Sub),
        0x4B => op16(cs, Operand::Reg16(Reg16::BX), Operand::RawWord(1), Transform16::Sub),
        0x4C => op16(cs, Operand::Reg16(Reg16::DI), Operand::RawWord(1), Transform16::Sub),
        0x50 => {
            return push_reg(cs, Reg16::AX);
        },
        0x51 => {
            return push_reg(cs, Reg16::CX);
        },
        0x52 => {
            return push_reg(cs, Reg16::DX);
        },
        0x53 => {
            return push_reg(cs, Reg16::BX);
        },
        0x54 => {
            return push_reg(cs, Reg16::SP);
        },
        0x56 => {
            return push_reg(cs, Reg16::SI);
        },
        0x57 => {
            return push_reg(cs, Reg16::DI);
        },
        0x58 => {
            return pop_reg(cs, Reg16::AX);
        },
        0x59 => {
            return pop_reg(cs, Reg16::CX);
        },
        0x5A => {
            return pop_reg(cs, Reg16::DX);
        },
        0x5B => {
            return pop_reg(cs, Reg16::BX);
        },
        0x5C => {
            return pop_reg(cs, Reg16::SP);
        },
        0x5E => {
            return pop_reg(cs, Reg16::SI);
        },
        0x5F => {
            return pop_reg(cs, Reg16::DI);
        },
        0x90 => {},
        0x92 => crate::specialops::xchg16(
            cs,
            Operand::Reg16(Reg16::AX),
            Operand::Reg16(Reg16::DX),
        ),
        0xC3 => {
            if cs.getreg16(&Reg16::SP) >= 0xFFFE {
                return Err(EmuError::InvalidAddress);
            }
            crate::specialops::ret(cs);
        },
        0xF9 => crate::specialops::stc(cs),
        _ => {
            return Err(EmuError::UnknownOpcode);
        },
    }
    Ok(())
}

/// Execute one already-fetched opcode byte against the CPU state: the
/// state moves to exactly the successor that `spec_do_opcode` gives, or
/// the run stops with exactly the error it gives.
#[verifier::rlimit(100)]
pub fn do_opcode(cs: &mut CpuState, opcode: u8) -> (r: Result<(), EmuError>)
    requires
        old(cs)@.wf(),
    ensures
        final(cs)@.wf(),
        match spec_do_opcode(old(cs)@, opcode) {
            Ok(v) => r is Ok && final(cs)@ == v,
            Err(e) => r == Err::<(), EmuError>(e),
        },
{
    proof {
        reveal(spec_do_opcode);
    }
    if opcode == 0x04 || opcode == 0x3C || opcode == 0x72 || (0x74 <= opcode && opcode <= 0x79)
        || (0xB0 <= opcode && opcode <= 0xB7) || opcode == 0xEB {
        b_opcode_i(cs, opcode)
    } else if opcode == 0x05 || opcode == 0x2D || opcode == 0x3D
        || (0xB8 <= opcode && opcode <= 0xBF) || opcode == 0xE8 || opcode == 0xE9 {
        w_opcode_i(cs, opcode)
    } else if opcode == 0x86 || opcode == 0x88 || opcode == 0x8A || opcode == 0x38 {
        b_opcode_m(cs, opcode)
    } else if opcode == 0x01 || opcode == 0x09 || opcode == 0x19 || opcode == 0x20
        || opcode == 0x29 || opcode == 0x31 || opcode == 0x39 || opcode == 0x89
        || opcode == 0x8B {
        w_opcode_m(cs, opcode)
    } else if opcode == 0xC6 {
        b_opcode_mi(cs)
    } else if opcode == 0xC7 {
        w_opcode_mi(cs)
    } else if (0x40 <= opcode && opcode <= 0x4C) || (0x50 <= opcode && opcode <= 0x5F)
        || opcode == 0x90 || opcode == 0x92 || opcode == 0xC3 || opcode == 0xF9 {
        opcode_noargs(cs, opcode)
    } else if opcode == 0x80 {
        b_group_i(cs)
    } else if opcode == 0x81 {
        w_group_i(cs)
    } else if opcode == 0xFE {
        b_group_noargs(cs)
    } else {
        Err(EmuError::UnknownOpcode)
    }
}

} // verus!
