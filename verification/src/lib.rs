//! An instruction-level emulator for a small subset of the Intel 8086
//! 16-bit real-mode architecture.
//!
//! A flat binary image is loaded into a simulated 64 KiB memory and
//! interpreted one instruction at a time, updating simulated registers,
//! flags, memory and the instruction pointer until a halt opcode is reached.

pub mod byteutils;
pub mod cpulib;
pub mod cstate;
pub mod driver;
pub mod errors;
pub mod modrm;
pub mod opcodes;
pub mod specialops;
pub mod operand;
pub mod oplib;
pub mod operation;
pub mod operations;
pub mod tf;
