//! The operand model: a tagged value naming where a read or write
//! targets (immediate literal, register, or memory address), with
//! uniform read/write in byte and word widths, and the flags record.

use vstd::prelude::*;

use crate::byteutils::spec_join8;
use crate::cstate::{CpuState, CpuView, MEM_SIZE};

verus! {

/// The four modeled condition flags.
#[derive(Clone, Copy, Debug, PartialEq, Eq, Structural)]
pub struct Flags {
    pub carry: bool,
    pub overflow: bool,
    pub sign: bool,
    pub zero: bool,
}

/// Where an operand read or write targets.
#[derive(Clone, Copy, Debug, PartialEq, Eq, Structural)]
pub enum Operand {
    /// An immediate literal byte; read-only.
    RawByte(u8),
    /// An immediate literal word; read-only.
    RawWord(u16),
    /// An 8-bit half-register.
    Reg8(crate::cstate::Reg8),
    /// A 16-bit register.
    Reg16(crate::cstate::Reg16),
    /// A 16-bit memory address.
    MemoryAddress(u16),
}

/// Whether `o` can be read at byte width: a byte literal, an 8-bit
/// register, or a memory address naming a valid cell.
pub open spec fn b_readable(o: Operand) -> bool {
    match o {
        Operand::RawByte(_) => true,
        Operand::RawWord(_) => false,
        Operand::Reg8(_) => true,
        Operand::Reg16(_) => false,
        Operand::MemoryAddress(addr) => addr < MEM_SIZE,
    }
}

/// The byte a read of `o` returns in state `v`.
pub open spec fn b_value(o: Operand, v: CpuView) -> u8 {
    match o {
        Operand::RawByte(x) => x,
        Operand::Reg8(reg) => v.reg8(reg),
        Operand::MemoryAddress(addr) => v.mem[addr as int],
        _ => 0,
    }
}

/// Whether `o` can be written at byte width: literals are read-only and
/// a word register would be a width mismatch.
pub open spec fn b_writable(o: Operand) -> bool {
    match o {
        Operand::Reg8(_) => true,
        Operand::MemoryAddress(addr) => addr < MEM_SIZE,
        _ => false,
    }
}

/// The state after writing byte `val` to `o`.
pub open spec fn b_write(o: Operand, v: CpuView, val: u8) -> CpuView {
    match o {
        Operand::Reg8(reg) => v.with_reg8(reg, val),
        Operand::MemoryAddress(addr) => v.with_mem(addr as int, val),
        _ => v,
    }
}

/// Whether `o` can be read at word width: a word literal, a 16-bit
/// register, or a memory address with two valid cells.
pub open spec fn w_readable(o: Operand) -> bool {
    match o {
        Operand::RawByte(_) => false,
        Operand::RawWord(_) => true,
        Operand::Reg8(_) => false,
        Operand::Reg16(_) => true,
        Operand::MemoryAddress(addr) => addr as int + 1 < MEM_SIZE,
    }
}

/// The word a read of `o` returns in state `v`; memory words are read
/// little-endian, low byte at the lower address.
pub open spec fn w_value(o: Operand, v: CpuView) -> u16 {
    match o {
        Operand::RawWord(x) => x,
        Operand::Reg16(reg) => v.reg16(reg),
        Operand::MemoryAddress(addr) => spec_join8(v.mem[addr as int], v.mem[addr as int + 1]),
        _ => 0,
    }
}

/// Whether `o` can be written at word width.
pub open spec fn w_writable(o: Operand) -> bool {
    match o {
        Operand::Reg16(_) => true,
        Operand::MemoryAddress(addr) => addr as int + 1 < MEM_SIZE,
        _ => false,
    }
}

/// The state after writing word `val` to `o`; memory words are stored
/// little-endian.
pub open spec fn w_write(o: Operand, v: CpuView, val: u16) -> CpuView {
    match o {
        Operand::Reg16(reg) => v.with_reg16(reg, val),
        Operand::MemoryAddress(addr) => v
            .with_mem(addr as int, crate::byteutils::spec_low8(val))
            .with_mem(addr as int + 1, crate::byteutils::spec_high8(val)),
        _ => v,
    }
}

/// Whether a memory operand names a cell inside the address space; true
/// of every non-memory operand. This is the only part of byte
/// readability and writability that decoded operands can fail.
pub open spec fn b_addr_ok(o: Operand) -> bool {
    match o {
        Operand::MemoryAddress(addr) => addr < MEM_SIZE,
        _ => true,
    }
}

/// Whether a memory operand names two cells inside the address space;
/// true of every non-memory operand.
pub open spec fn w_addr_ok(o: Operand) -> bool {
    match o {
        Operand::MemoryAddress(addr) => addr as int + 1 < MEM_SIZE,
        _ => true,
    }
}

/// Runtime test for `b_addr_ok`.
pub fn b_check_addr(o: &Operand) -> (r: bool)
    ensures
        r == b_addr_ok(*o),
{
    match *o {
        Operand::MemoryAddress(addr) => (addr as usize) < MEM_SIZE,
        _ => true,
    }
}

/// Runtime test for `w_addr_ok`.
pub fn w_check_addr(o: &Operand) -> (r: bool)
    ensures
        r == w_addr_ok(*o),
{
    match *o {
        Operand::MemoryAddress(addr) => (addr as usize) + 1 < MEM_SIZE,
        _ => true,
    }
}

/// Read the byte value of an operand.
pub fn b_operand_value(cs: &mut CpuState, o: &Operand) -> (r: u8)
    requires
        old(cs)@.wf(),
        b_readable(*o),
    ensures
        final(cs)@ == old(cs)@,
        r == b_value(*o, old(cs)@),
{
    match *o {
        Operand::RawByte(v) => v,
        Operand::Reg8(reg) => cs.getreg8(&reg),
        Operand::MemoryAddress(addr) => cs.getmem(addr),
        _ => 0,
    }
}

/// Read the word value of an operand.
pub fn w_operand_value(cs: &mut CpuState, o: &Operand) -> (r: u16)
    requires
        old(cs)@.wf(),
        w_readable(*o),
    ensures
        final(cs)@ == old(cs)@,
        r == w_value(*o, old(cs)@),
{
    match *o {
        Operand::RawWord(v) => v,
        Operand::Reg16(reg) => cs.getreg16(&reg),
        Operand::MemoryAddress(addr) => {
            let lo = cs.getmem(addr);
            let hi = cs.getmem(addr + 1);
            crate::byteutils::join8(lo, hi)
        },
        _ => 0,
    }
}

/// Write a byte to an operand target.
pub fn b_operand_set(cs: &mut CpuState, o: &Operand, result: u8)
    requires
        old(cs)@.wf(),
        b_writable(*o),
    ensures
        final(cs)@ == b_write(*o, old(cs)@, result),
{
    match *o {
        Operand::Reg8(reg) => cs.setreg8(&reg, result),
        Operand::MemoryAddress(addr) => cs.setmem(addr, result),
        _ => {},
    }
}

/// Write a word to an operand target; memory words are stored
/// little-endian, low byte at the lower address.
pub fn w_operand_set(cs: &mut CpuState, o: &Operand, result: u16)
    requires
        old(cs)@.wf(),
        w_writable(*o),
    ensures
        final(cs)@ == w_write(*o, old(cs)@, result),
{
    match *o {
        Operand::Reg16(reg) => cs.setreg16(&reg, result),
        Operand::MemoryAddress(addr) => {
            cs.setmem(addr, crate::byteutils::low8(result));
            cs.setmem(addr + 1, crate::byteutils::high8(result));
        },
        _ => {},
    }
}

} // verus!
