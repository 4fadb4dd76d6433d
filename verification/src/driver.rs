//! The driver loop: fetch the opcode at IP, stop normally on the halt
//! sentinel, otherwise dispatch through the opcode table, until a halt
//! or a fatal error.

use vstd::prelude::*;

use crate::cstate::{CpuState, CpuView, Reg16, MEM_SIZE};
use crate::errors::EmuError;
use crate::opcodes::{do_opcode, spec_do_opcode};

verus! {

/// The opcode byte that ends a run normally.
pub const HALT_OPCODE: u8 = 0xF4;

/// Whether the next instruction of state `v` is the halt sentinel.
pub open spec fn at_halt(v: CpuView) -> bool {
    v.ip < MEM_SIZE && v.mem[v.ip as int] == HALT_OPCODE
}

/// What one driver step does: halt (leaving the state as it is, with
/// IP still naming the halt instruction), execute one instruction, or
/// stop with an error.
pub open spec fn spec_step(v: CpuView) -> Result<(bool, CpuView), EmuError> {
    if v.ip >= MEM_SIZE {
        Err(EmuError::InvalidAddress)
    } else if v.mem[v.ip as int] == HALT_OPCODE {
        Ok((true, v))
    } else {
        match spec_do_opcode(v.with_ip((v.ip + 1) as u16), v.mem[v.ip as int]) {
            Ok(v2) => Ok((false, v2)),
            Err(e) => Err(e),
        }
    }
}

/// Perform one driver step: read the opcode byte at IP and either halt
/// (returning `true` and leaving the state untouched) or execute the
/// instruction. A state sitting at the halt opcode always halts.
pub fn step(cs: &mut CpuState) -> (r: Result<bool, EmuError>)
    requires
        old(cs)@.wf(),
    ensures
        final(cs)@.wf(),
        match spec_step(old(cs)@) {
            Ok(t) => r == Ok::<bool, EmuError>(t.0) && final(cs)@ == t.1,
            Err(e) => r == Err::<bool, EmuError>(e),
        },
        at_halt(old(cs)@) ==> r == Ok::<bool, EmuError>(true) && final(cs)@ == old(cs)@,
{
    let ip = cs.getreg16(&Reg16::IP);
    if ip as usize >= MEM_SIZE {
        return Err(EmuError::InvalidAddress);
    }
    let opcode = cs.getmem(ip);
    if opcode == HALT_OPCODE {
        return Ok(true);
    }
    cs.setreg16(&Reg16::IP, ip + 1);
    match do_opcode(cs, opcode) {
        Ok(_) => Ok(false),
        Err(e) => Err(e),
    }
}

/// What a run with the given fuel does: step after step until a halt,
/// an error, or the fuel is gone. `Ok((true, v))` is a normal halt in
/// state `v`; `Ok((false, v))` means the fuel ran out with the run
/// stopped at `v`.
pub open spec fn spec_run(v: CpuView, fuel: nat) -> Result<(bool, CpuView), EmuError>
    decreases fuel,
{
    if fuel == 0 {
        Ok((false, v))
    } else {
        match spec_step(v) {
            Ok(t) => if t.0 {
                Ok((true, t.1))
            } else {
                spec_run(t.1, (fuel - 1) as nat)
            },
            Err(e) => Err(e),
        }
    }
}

/// Run the fetch/decode/execute loop for at most `max_steps`
/// instructions: the state moves to exactly where `spec_run` says a
/// run of that budget ends. `Ok(true)` means the run reached a halt
/// instruction, which IP then names, and terminated normally;
/// `Ok(false)` means the step budget ran out first; an error stops the
/// run at once. In particular a run whose execution reaches the halt
/// opcode within its budget returns the halt result, and a state
/// already sitting at the halt opcode terminates at once, unchanged.
#[verifier::rlimit(100)]
pub fn run(cs: &mut CpuState, max_steps: u64) -> (r: Result<bool, EmuError>)
    requires
        old(cs)@.wf(),
    ensures
        final(cs)@.wf(),
        match spec_run(old(cs)@, max_steps as nat) {
            Ok(t) => r == Ok::<bool, EmuError>(t.0) && final(cs)@ == t.1,
            Err(e) => r == Err::<bool, EmuError>(e),
        },
        r == Ok::<bool, EmuError>(true) ==> at_halt(final(cs)@),
        at_halt(old(cs)@) && max_steps > 0 ==> r == Ok::<bool, EmuError>(true) && final(cs)@
            == old(cs)@,
{
    let mut steps_left: u64 = max_steps;
    loop
        invariant
            cs@.wf(),
            steps_left <= max_steps,
            at_halt(old(cs)@) ==> cs@ == old(cs)@ && steps_left == max_steps,
            spec_run(old(cs)@, max_steps as nat) == spec_run(cs@, steps_left as nat),
        decreases steps_left,
    {
        if steps_left == 0 {
            return Ok(false);
        }
        let halted = match step(cs) {
            Ok(h) => h,
            Err(e) => {
                return Err(e);
            },
        };
        if halted {
            return Ok(true);
        }
        steps_left = steps_left - 1;
    }
}

} // verus!
