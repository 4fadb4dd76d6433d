//! The ModR/M decoder: one addressing-mode byte is parsed into its
//! `mod`, `reg` and `r/m` fields and resolved to an effective operand
//! (memory or register) and a register operand.

use vstd::prelude::*;

use crate::byteutils::spec_wrap_add16;
use crate::cstate::{CpuState, CpuView, Reg8, Reg16, MEM_SIZE, spec_fetch_b, spec_fetch_w};
use crate::errors::EmuError;
use crate::operand::Operand;

verus! {

/// The register named by three `reg` or `r/m` bits, at byte or word
/// width.
pub open spec fn spec_register_operand(reg: u8, byte_registers: bool) -> Operand {
    if byte_registers {
        if reg == 0 {
            Operand::Reg8(Reg8::AL)
        } else if reg == 1 {
            Operand::Reg8(Reg8::CL)
        } else if reg == 2 {
            Operand::Reg8(Reg8::DL)
        } else if reg == 3 {
            Operand::Reg8(Reg8::BL)
        } else if reg == 4 {
            Operand::Reg8(Reg8::AH)
        } else if reg == 5 {
            Operand::Reg8(Reg8::CH)
        } else if reg == 6 {
            Operand::Reg8(Reg8::DH)
        } else {
            Operand::Reg8(Reg8::BH)
        }
    } else {
        if reg == 0 {
            Operand::Reg16(Reg16::AX)
        } else if reg == 1 {
            Operand::Reg16(Reg16::CX)
        } else if reg == 2 {
            Operand::Reg16(Reg16::DX)
        } else if reg == 3 {
            Operand::Reg16(Reg16::BX)
        } else if reg == 4 {
            Operand::Reg16(Reg16::SP)
        } else if reg == 5 {
            Operand::Reg16(Reg16::BP)
        } else if reg == 6 {
            Operand::Reg16(Reg16::SI)
        } else {
            Operand::Reg16(Reg16::DI)
        }
    }
}

/// The effective memory address of a mod=00 encoding, for every `r/m`
/// but 0b110 (which takes a trailing displacement instead). Register
/// sums wrap modulo 2^16.
pub open spec fn spec_effective_addr00(v: CpuView, rm: u8) -> u16 {
    if rm == 0 {
        spec_wrap_add16(v.bx, v.si)
    } else if rm == 1 {
        spec_wrap_add16(v.bx, v.di)
    } else if rm == 2 {
        spec_wrap_add16(v.bp, v.si)
    } else if rm == 3 {
        spec_wrap_add16(v.bp, v.di)
    } else if rm == 4 {
        v.si
    } else if rm == 5 {
        v.di
    } else {
        v.bx
    }
}

/// Resolution of the effective operand from the `mod` and `r/m` fields:
/// the possibly advanced state (a direct or added displacement is read
/// from the instruction stream) and the operand, or the error for an
/// encoding outside the supported subset.
pub open spec fn spec_effective(
    v: CpuView,
    modbits: u8,
    rm: u8,
    byte_registers: bool,
) -> Result<(CpuView, Operand), EmuError> {
    if modbits == 0 {
        if rm == 6 {
            match spec_fetch_w(v) {
                Ok(t) => Ok((t.0, Operand::MemoryAddress(t.1))),
                Err(e) => Err(e),
            }
        } else {
            Ok((v, Operand::MemoryAddress(spec_effective_addr00(v, rm))))
        }
    } else if modbits == 3 {
        Ok((v, spec_register_operand(rm, byte_registers)))
    } else if modbits == 2 {
        if rm == 7 {
            match spec_fetch_w(v) {
                Ok(t) => Ok((t.0, Operand::MemoryAddress(spec_wrap_add16(v.bx, t.1)))),
                Err(e) => Err(e),
            }
        } else if rm == 5 {
            match spec_fetch_w(v) {
                Ok(t) => Ok((t.0, Operand::MemoryAddress(spec_wrap_add16(v.di, t.1)))),
                Err(e) => Err(e),
            }
        } else {
            Err(EmuError::UnimplementedAddressingMode)
        }
    } else {
        Err(EmuError::UnimplementedAddressingMode)
    }
}

/// Full decoding of one ModR/M byte read at IP: the advanced state, the
/// raw `reg` bits, the effective operand and the register operand.
pub open spec fn spec_read_modrm(
    v: CpuView,
    byte_registers: bool,
) -> Result<(CpuView, u8, Operand, Operand), EmuError> {
    match spec_fetch_b(v) {
        Ok(t) => {
            let modbits = t.1 / 64;
            let reg = (t.1 / 8) % 8;
            let rm = t.1 % 8;
            match spec_effective(t.0, modbits, rm, byte_registers) {
                Ok(t2) => Ok((t2.0, reg, t2.1, spec_register_operand(reg, byte_registers))),
                Err(e) => Err(e),
            }
        },
        Err(e) => Err(e),
    }
}

/// A register-pair or single-register effective address form, before
/// the register values are added.
#[allow(non_camel_case_types)]
#[derive(Clone, Copy, Debug, PartialEq, Eq, Structural)]
pub enum MemoryAddr {
    BX_SI,
    BX_DI,
    BP_SI,
    BP_DI,
    SI,
    DI,
    BX,
}

/// A word register as named by ModR/M register bits.
#[derive(Clone, Copy, Debug, PartialEq, Eq, Structural)]
pub enum Register {
    AX,
    CX,
    DX,
    BX,
    SP,
    BP,
    SI,
    DI,
}

/// A decoded effective operand in symbolic form: a register-sum
/// address, a direct 16-bit displacement, or a register.
#[derive(Clone, Copy, Debug, PartialEq, Eq, Structural)]
pub enum ModrmResult {
    MemoryAddr(MemoryAddr),
    MemoryDisp16(u16),
    Register(Register),
}

impl ModrmResult {
    /// The register held by a `Register` result.
    pub fn unwrap_register(&self) -> (r: &Register)
        requires
            self is Register,
        ensures
            *r == self->Register_0,
    {
        match self {
            ModrmResult::Register(reg) => reg,
            _ => vstd::pervasive::unreached(),
        }
    }
}

/// Build the register operand named by three bits.
fn modrm_register(reg: u8, byte: bool) -> (r: Operand)
    requires
        reg < 8,
    ensures
        r == spec_register_operand(reg, byte),
{
    if byte {
        match reg {
            0 => Operand::Reg8(Reg8::AL),
            1 => Operand::Reg8(Reg8::CL),
            2 => Operand::Reg8(Reg8::DL),
            3 => Operand::Reg8(Reg8::BL),
            4 => Operand::Reg8(Reg8::AH),
            5 => Operand::Reg8(Reg8::CH),
            6 => Operand::Reg8(Reg8::DH),
            _ => Operand::Reg8(Reg8::BH),
        }
    } else {
        match reg {
            0 => Operand::Reg16(Reg16::AX),
            1 => Operand::Reg16(Reg16::CX),
            2 => Operand::Reg16(Reg16::DX),
            3 => Operand::Reg16(Reg16::BX),
            4 => Operand::Reg16(Reg16::SP),
            5 => Operand::Reg16(Reg16::BP),
            6 => Operand::Reg16(Reg16::SI),
            _ => Operand::Reg16(Reg16::DI),
        }
    }
}

/// Add two register values modulo 2^16.
fn wrap_add(a: u16, b: u16) -> (r: u16)
    ensures
        r == spec_wrap_add16(a, b),
{
    ((a as u32 + b as u32) % 0x10000) as u16
}

/// Resolve the effective operand, reading any displacement from the
/// instruction stream.
fn modrm_effective(
    cs: &mut CpuState,
    modbits: u8,
    rm: u8,
    byte_registers: bool,
) -> (r: Result<Operand, EmuError>)
    requires
        old(cs)@.wf(),
        modbits < 4,
        rm < 8,
    ensures
        match spec_effective(old(cs)@, modbits, rm, byte_registers) {
            Ok(t) => r == Ok::<Operand, EmuError>(t.1) && final(cs)@ == t.0,
            Err(e) => r == Err::<Operand, EmuError>(e) && final(cs)@ == old(cs)@,
        },
{
    if modbits == 0 {
        if rm == 6 {
            if cs.getreg16(&Reg16::IP) >= 0xFFFE {
                return Err(EmuError::InvalidAddress);
            }
            let disp = cs.read16();
            Ok(Operand::MemoryAddress(disp))
        } else {
            let addr = if rm == 0 {
                wrap_add(cs.getreg16(&Reg16::BX), cs.getreg16(&Reg16::SI))
            } else if rm == 1 {
                wrap_add(cs.getreg16(&Reg16::BX), cs.getreg16(&Reg16::DI))
            } else if rm == 2 {
                wrap_add(cs.getreg16(&Reg16::BP), cs.getreg16(&Reg16::SI))
            } else if rm == 3 {
                wrap_add(cs.getreg16(&Reg16::BP), cs.getreg16(&Reg16::DI))
            } else if rm == 4 {
                cs.getreg16(&Reg16::SI)
            } else if rm == 5 {
                cs.getreg16(&Reg16::DI)
            } else {
                cs.getreg16(&Reg16::BX)
            };
            Ok(Operand::MemoryAddress(addr))
        }
    } else if modbits == 3 {
        Ok(modrm_register(rm, byte_registers))
    } else if modbits == 2 {
        if rm == 7 {
            if cs.getreg16(&Reg16::IP) >= 0xFFFE {
                return Err(EmuError::InvalidAddress);
            }
            let base = cs.getreg16(&Reg16::BX);
            let disp = cs.read16();
            Ok(Operand::MemoryAddress(wrap_add(base, disp)))
        } else if rm == 5 {
            if cs.getreg16(&Reg16::IP) >= 0xFFFE {
                return Err(EmuError::InvalidAddress);
            }
            let base = cs.getreg16(&Reg16::DI);
            let disp = cs.read16();
            Ok(Operand::MemoryAddress(wrap_add(base, disp)))
        } else {
            Err(EmuError::UnimplementedAddressingMode)
        }
    } else {
        Err(EmuError::UnimplementedAddressingMode)
    }
}

/// Read one ModR/M byte at IP and decode it into the raw `reg` bits,
/// the effective operand and the register operand.
pub fn read_modrm(cs: &mut CpuState, byte_registers: bool) -> (r: Result<
    (u8, Operand, Operand),
    EmuError,
>)
    requires
        old(cs)@.wf(),
    ensures
        match spec_read_modrm(old(cs)@, byte_registers) {
            Ok(t) => r == Ok::<(u8, Operand, Operand), EmuError>((t.1, t.2, t.3)) && final(cs)@
                == t.0,
            Err(e) => r == Err::<(u8, Operand, Operand), EmuError>(e) && final(cs)@.wf(),
        },
        r matches Ok(t) ==> t.0 < 8,
        r matches Ok(t) ==> (if byte_registers {
            (t.1 is Reg8 || t.1 is MemoryAddress) && t.2 is Reg8
        } else {
            (t.1 is Reg16 || t.1 is MemoryAddress) && t.2 is Reg16
        }),
{
    if cs.getreg16(&Reg16::IP) as usize >= MEM_SIZE {
        return Err(EmuError::InvalidAddress);
    }
    let byte = cs.read();

    let modbits = byte / 64;
    let reg = (byte / 8) % 8;
    let rm = byte % 8;

    let effective = match modrm_effective(cs, modbits, rm, byte_registers) {
        Ok(e) => e,
        Err(e) => {
            return Err(e);
        },
    };
    let register = modrm_register(reg, byte_registers);
    Ok((reg, effective, register))
}

} // verus!
