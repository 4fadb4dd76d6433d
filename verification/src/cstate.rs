//! The CPU state: a 64 KiB linear memory, nine 16-bit registers with
//! 8-bit half-register aliases over AX/BX/CX/DX, and the four condition
//! flags, together with the operations that read and mutate them.

use vstd::prelude::*;

use crate::byteutils::{
    spec_low8, spec_high8, spec_join8, low8, high8, join8, join_low8, join_high8,
};
use crate::errors::EmuError;
use crate::operand::Flags;

verus! {

/// A byte fetch at IP as a total function: the fetched byte and the
/// state with IP advanced, or the error when IP names no valid cell.
pub open spec fn spec_fetch_b(v: CpuView) -> Result<(CpuView, u8), EmuError> {
    if v.ip < MEM_SIZE {
        Ok((v.with_ip((v.ip + 1) as u16), v.mem[v.ip as int]))
    } else {
        Err(EmuError::InvalidAddress)
    }
}

/// A little-endian word fetch at IP as a total function.
pub open spec fn spec_fetch_w(v: CpuView) -> Result<(CpuView, u16), EmuError> {
    if v.ip as int + 1 < MEM_SIZE {
        Ok((
            v.with_ip((v.ip + 2) as u16),
            spec_join8(v.mem[v.ip as int], v.mem[v.ip as int + 1]),
        ))
    } else {
        Err(EmuError::InvalidAddress)
    }
}

/// Number of memory cells. Valid addresses are `0 .. MEM_SIZE`.
pub const MEM_SIZE: usize = 65535;

/// A 16-bit register name.
#[derive(Clone, Copy, Debug, PartialEq, Eq, Structural)]
pub enum Reg16 {
    AX,
    BX,
    CX,
    DX,
    SI,
    DI,
    BP,
    SP,
    IP,
}

/// An 8-bit half-register name. The L half is bits 0-7 of the parent
/// word register, the H half is bits 8-15.
#[derive(Clone, Copy, Debug, PartialEq, Eq, Structural)]
pub enum Reg8 {
    AH,
    AL,
    BH,
    BL,
    CH,
    CL,
    DH,
    DL,
}

/// The mathematical value of a `CpuState`: the memory as a sequence of
/// bytes, the nine word registers, and the four flags.
#[verifier::ext_equal]
pub ghost struct CpuView {
    pub mem: Seq<u8>,
    pub ax: u16,
    pub bx: u16,
    pub cx: u16,
    pub dx: u16,
    pub si: u16,
    pub di: u16,
    pub sp: u16,
    pub bp: u16,
    pub ip: u16,
    pub cf: bool,
    pub of: bool,
    pub sf: bool,
    pub zf: bool,
}

impl CpuView {
    /// Well-formedness: the memory holds exactly `MEM_SIZE` cells.
    pub open spec fn wf(self) -> bool {
        self.mem.len() == MEM_SIZE
    }

    /// The state of a freshly constructed CPU: memory all zero, every
    /// register zero except SP, which starts at 0x0100.
    pub open spec fn spec_init() -> CpuView {
        CpuView {
            mem: Seq::new(MEM_SIZE as nat, |i: int| 0u8),
            ax: 0,
            bx: 0,
            cx: 0,
            dx: 0,
            si: 0,
            di: 0,
            sp: 0x100,
            bp: 0,
            ip: 0,
            cf: false,
            of: false,
            sf: false,
            zf: false,
        }
    }

    /// The value of a 16-bit register.
    pub open spec fn reg16(self, reg: Reg16) -> u16 {
        match reg {
            Reg16::AX => self.ax,
            Reg16::BX => self.bx,
            Reg16::CX => self.cx,
            Reg16::DX => self.dx,
            Reg16::SI => self.si,
            Reg16::DI => self.di,
            Reg16::SP => self.sp,
            Reg16::BP => self.bp,
            Reg16::IP => self.ip,
        }
    }

    /// The state after writing a 16-bit register.
    pub open spec fn with_reg16(self, reg: Reg16, val: u16) -> CpuView {
        match reg {
            Reg16::AX => CpuView { ax: val, ..self },
            Reg16::BX => CpuView { bx: val, ..self },
            Reg16::CX => CpuView { cx: val, ..self },
            Reg16::DX => CpuView { dx: val, ..self },
            Reg16::SI => CpuView { si: val, ..self },
            Reg16::DI => CpuView { di: val, ..self },
            Reg16::SP => CpuView { sp: val, ..self },
            Reg16::BP => CpuView { bp: val, ..self },
            Reg16::IP => CpuView { ip: val, ..self },
        }
    }

    /// The value of an 8-bit half-register: the matching half of the
    /// parent word register.
    pub open spec fn reg8(self, reg: Reg8) -> u8 {
        match reg {
            Reg8::AL => spec_low8(self.ax),
            Reg8::BL => spec_low8(self.bx),
            Reg8::CL => spec_low8(self.cx),
            Reg8::DL => spec_low8(self.dx),
            Reg8::AH => spec_high8(self.ax),
            Reg8::BH => spec_high8(self.bx),
            Reg8::CH => spec_high8(self.cx),
            Reg8::DH => spec_high8(self.dx),
        }
    }

    /// The state after writing an 8-bit half-register: one half of the
    /// parent register is replaced, the other half is untouched.
    pub open spec fn with_reg8(self, reg: Reg8, val: u8) -> CpuView {
        match reg {
            Reg8::AL => CpuView { ax: spec_join8(val, spec_high8(self.ax)), ..self },
            Reg8::BL => CpuView { bx: spec_join8(val, spec_high8(self.bx)), ..self },
            Reg8::CL => CpuView { cx: spec_join8(val, spec_high8(self.cx)), ..self },
            Reg8::DL => CpuView { dx: spec_join8(val, spec_high8(self.dx)), ..self },
            Reg8::AH => CpuView { ax: spec_join8(spec_low8(self.ax), val), ..self },
            Reg8::BH => CpuView { bx: spec_join8(spec_low8(self.bx), val), ..self },
            Reg8::CH => CpuView { cx: spec_join8(spec_low8(self.cx), val), ..self },
            Reg8::DH => CpuView { dx: spec_join8(spec_low8(self.dx), val), ..self },
        }
    }

    /// The state after writing one memory cell.
    pub open spec fn with_mem(self, addr: int, val: u8) -> CpuView {
        CpuView { mem: self.mem.update(addr, val), ..self }
    }

    /// The state after moving the instruction pointer.
    pub open spec fn with_ip(self, ip: u16) -> CpuView {
        CpuView { ip, ..self }
    }

    /// The four flags as a `Flags` value.
    pub open spec fn flags(self) -> Flags {
        Flags { carry: self.cf, overflow: self.of, sign: self.sf, zero: self.zf }
    }

    /// The state after replacing all four flags.
    pub open spec fn with_flags(self, f: Flags) -> CpuView {
        CpuView { cf: f.carry, of: f.overflow, sf: f.sign, zf: f.zero, ..self }
    }

    /// The state after setting the carry flag alone.
    pub open spec fn with_cf(self, cf: bool) -> CpuView {
        CpuView { cf, ..self }
    }

    /// The state after pushing a word: SP drops by 2 and the word is
    /// stored little-endian at the new SP (low byte at SP, high byte at
    /// SP + 1).
    pub open spec fn push_w(self, val: u16) -> CpuView {
        let nsp = (self.sp - 2) as u16;
        CpuView {
            sp: nsp,
            mem: self.mem
                .update(nsp as int, spec_low8(val))
                .update(nsp as int + 1, spec_high8(val)),
            ..self
        }
    }

    /// The word a pop would return: the little-endian word at SP.
    pub open spec fn pop_value(self) -> u16 {
        spec_join8(self.mem[self.sp as int], self.mem[self.sp as int + 1])
    }

    /// The state after popping a word: SP rises by 2, memory untouched.
    pub open spec fn after_pop(self) -> CpuView {
        CpuView { sp: (self.sp + 2) as u16, ..self }
    }
}

/// The other half of the same parent word register.
pub open spec fn sibling_half(reg: Reg8) -> Reg8 {
    match reg {
        Reg8::AL => Reg8::AH,
        Reg8::AH => Reg8::AL,
        Reg8::BL => Reg8::BH,
        Reg8::BH => Reg8::BL,
        Reg8::CL => Reg8::CH,
        Reg8::CH => Reg8::CL,
        Reg8::DL => Reg8::DH,
        Reg8::DH => Reg8::DL,
    }
}

/// Register aliasing: writing an 8-bit half-register stores exactly the
/// written byte, and leaves the opposite half of the parent 16-bit
/// register unchanged.
pub proof fn lemma_reg8_aliasing(v: CpuView, reg: Reg8, val: u8)
    ensures
        v.with_reg8(reg, val).reg8(reg) == val,
        v.with_reg8(reg, val).reg8(sibling_half(reg)) == v.reg8(sibling_half(reg)),
{
    crate::byteutils::lemma_join_split(val, spec_high8(v.ax));
    crate::byteutils::lemma_join_split(spec_low8(v.ax), val);
    crate::byteutils::lemma_join_split(val, spec_high8(v.bx));
    crate::byteutils::lemma_join_split(spec_low8(v.bx), val);
    crate::byteutils::lemma_join_split(val, spec_high8(v.cx));
    crate::byteutils::lemma_join_split(spec_low8(v.cx), val);
    crate::byteutils::lemma_join_split(val, spec_high8(v.dx));
    crate::byteutils::lemma_join_split(spec_low8(v.dx), val);
}

/// Stack discipline: a pop directly after a push yields the pushed
/// word, restores SP, and leaves every register, flag, and memory cell
/// at or above the old SP as it was.
pub proof fn lemma_push_pop(v: CpuView, val: u16)
    requires
        v.wf(),
        v.sp >= 2,
    ensures
        v.push_w(val).pop_value() == val,
        v.push_w(val).after_pop().sp == v.sp,
        v.push_w(val).after_pop() == (CpuView { mem: v.push_w(val).mem, ..v }),
        forall|a: int| v.sp <= a < v.mem.len() ==> v.push_w(val).mem[a] == v.mem[a],
{
    crate::byteutils::lemma_split_join(val);
    assert(v.push_w(val).after_pop() =~= (CpuView { mem: v.push_w(val).mem, ..v }));
}

/// The state after pushing the words of `ws` in order.
pub open spec fn push_seq(v: CpuView, ws: Seq<u16>) -> CpuView
    decreases ws.len(),
{
    if ws.len() == 0 {
        v
    } else {
        push_seq(v.push_w(ws[0]), ws.skip(1))
    }
}

/// The words `n` successive pops yield, first pop first.
pub open spec fn pop_seq(v: CpuView, n: nat) -> Seq<u16>
    decreases n,
{
    if n == 0 {
        Seq::empty()
    } else {
        seq![v.pop_value()] + pop_seq(v.after_pop(), (n - 1) as nat)
    }
}

/// The state `n` successive pops leave.
pub open spec fn pops_state(v: CpuView, n: nat) -> CpuView
    decreases n,
{
    if n == 0 {
        v
    } else {
        pops_state(v.after_pop(), (n - 1) as nat)
    }
}

proof fn lemma_push_seq_snoc(v: CpuView, ws: Seq<u16>, w: u16)
    ensures
        push_seq(v, ws.push(w)) == push_seq(v, ws).push_w(w),
    decreases ws.len(),
{
    if ws.len() == 0 {
        assert(ws.push(w)[0] == w);
        assert(ws.push(w).skip(1) =~= Seq::<u16>::empty());
        assert(push_seq(v, ws.push(w)) == push_seq(v.push_w(w), Seq::<u16>::empty()));
        assert(push_seq(v.push_w(w), Seq::<u16>::empty()) == v.push_w(w));
    } else {
        let v1 = v.push_w(ws[0]);
        assert(ws.push(w)[0] == ws[0]);
        assert(ws.push(w).skip(1) =~= ws.skip(1).push(w));
        assert(push_seq(v, ws.push(w)) == push_seq(v1, ws.skip(1).push(w)));
        lemma_push_seq_snoc(v1, ws.skip(1), w);
        assert(push_seq(v, ws) == push_seq(v1, ws.skip(1)));
    }
}

proof fn lemma_push_seq_frame(v: CpuView, ws: Seq<u16>)
    requires
        v.wf(),
        2 * ws.len() <= v.sp,
    ensures
        push_seq(v, ws).wf(),
        push_seq(v, ws).sp == v.sp - 2 * ws.len(),
        forall|a: int| v.sp <= a < v.mem.len() ==> push_seq(v, ws).mem[a] == v.mem[a],
        push_seq(v, ws) == (CpuView {
            mem: push_seq(v, ws).mem,
            sp: push_seq(v, ws).sp,
            ..v
        }),
    decreases ws.len(),
{
    if ws.len() == 0 {
        assert(push_seq(v, ws) =~= (CpuView {
            mem: push_seq(v, ws).mem,
            sp: push_seq(v, ws).sp,
            ..v
        }));
    } else {
        let v1 = v.push_w(ws[0]);
        lemma_push_seq_frame(v1, ws.skip(1));
        assert(push_seq(v, ws) == push_seq(v1, ws.skip(1)));
        assert forall|a: int| v.sp <= a < v.mem.len() implies push_seq(v, ws).mem[a]
            == v.mem[a] by {
            assert(v1.mem[a] == v.mem[a]);
            assert(push_seq(v1, ws.skip(1)).mem[a] == v1.mem[a]);
        }
        assert(push_seq(v, ws) =~= (CpuView {
            mem: push_seq(v, ws).mem,
            sp: push_seq(v, ws).sp,
            ..v
        }));
    }
}

proof fn lemma_pop_seq_agree(v1: CpuView, v2: CpuView, n: nat)
    requires
        v1.sp == v2.sp,
        v1.sp + 2 * n <= 0xFFFF,
        forall|a: int| v1.sp <= a < v1.sp + 2 * n ==> v1.mem[a] == v2.mem[a],
    ensures
        pop_seq(v1, n) == pop_seq(v2, n),
    decreases n,
{
    if n == 0 {
        assert(pop_seq(v1, n) =~= pop_seq(v2, n));
    } else {
        assert(v1.pop_value() == v2.pop_value());
        assert(v1.after_pop().sp == v1.sp + 2);
        assert forall|a: int|
            v1.after_pop().sp <= a < v1.after_pop().sp + 2 * (n - 1) implies v1.after_pop().mem[a]
            == v2.after_pop().mem[a] by {
            assert(v1.mem[a] == v2.mem[a]);
        }
        lemma_pop_seq_agree(v1.after_pop(), v2.after_pop(), (n - 1) as nat);
        assert(pop_seq(v1, n) =~= pop_seq(v2, n));
    }
}

proof fn lemma_pops_state_sp(v: CpuView, n: nat)
    requires
        v.sp + 2 * n <= 0xFFFF,
    ensures
        pops_state(v, n).sp == v.sp + 2 * n,
    decreases n,
{
    if n > 0 {
        lemma_pops_state_sp(v.after_pop(), (n - 1) as nat);
    }
}

/// Stack discipline over whole sequences: pushing the words of `ws` in
/// order and then popping as many times yields the words in reverse
/// order, and leaves SP back at its pre-push value.
pub proof fn lemma_stack_lifo(v: CpuView, ws: Seq<u16>)
    requires
        v.wf(),
        2 * ws.len() <= v.sp,
    ensures
        pop_seq(push_seq(v, ws), ws.len()) == ws.reverse(),
        pops_state(push_seq(v, ws), ws.len()).sp == v.sp,
    decreases ws.len(),
{
    let n = ws.len();
    lemma_push_seq_frame(v, ws);
    lemma_pops_state_sp(push_seq(v, ws), n);
    if n == 0 {
        assert(pop_seq(push_seq(v, ws), 0) =~= ws.reverse());
    } else {
        let ws0 = ws.drop_last();
        let w = ws.last();
        assert(ws0.push(w) =~= ws);
        lemma_push_seq_snoc(v, ws0, w);
        let q = push_seq(v, ws0);
        lemma_push_seq_frame(v, ws0);
        let p = q.push_w(w);
        crate::byteutils::lemma_split_join(w);
        assert(p.pop_value() == w);
        lemma_stack_lifo(v, ws0);
        lemma_pop_seq_agree(p.after_pop(), q, (n - 1) as nat);
        assert(pop_seq(p, n) =~= seq![w] + pop_seq(p.after_pop(), (n - 1) as nat));
        assert(ws.reverse() =~= seq![w] + ws0.reverse());
    }
}

/// The simulated CPU: memory, registers and flags.
pub struct CpuState {
    pub mem: Vec<u8>,
    pub ax: u16,
    pub bx: u16,
    pub cx: u16,
    pub dx: u16,
    pub si: u16,
    pub di: u16,
    pub sp: u16,
    pub bp: u16,
    pub ip: u16,
    pub cf: bool,
    pub of: bool,
    pub sf: bool,
    pub zf: bool,
}

impl View for CpuState {
    type V = CpuView;

    open spec fn view(&self) -> CpuView {
        CpuView {
            mem: self.mem@,
            ax: self.ax,
            bx: self.bx,
            cx: self.cx,
            dx: self.dx,
            si: self.si,
            di: self.di,
            sp: self.sp,
            bp: self.bp,
            ip: self.ip,
            cf: self.cf,
            of: self.of,
            sf: self.sf,
            zf: self.zf,
        }
    }
}

impl CpuState {
    /// A fresh CPU: memory all zero, registers zero, SP = 0x0100.
    pub fn new() -> (cs: CpuState)
        ensures
            cs@ == CpuView::spec_init(),
            cs@.wf(),
    {
        let mem = vec![0u8; MEM_SIZE];
        let cs = CpuState {
            mem,
            ax: 0,
            bx: 0,
            cx: 0,
            dx: 0,
            si: 0,
            di: 0,
            sp: 0x100,
            bp: 0,
            ip: 0,
            cf: false,
            of: false,
            sf: false,
            zf: false,
        };
        proof {
            assert(cs@.mem =~= Seq::new(MEM_SIZE as nat, |i: int| 0u8));
            assert(cs@ =~= CpuView::spec_init());
        }
        cs
    }

    /// Replace the leading cells of memory with the program image; the
    /// tail keeps its previous contents.
    pub fn load_program(&mut self, prog: &Vec<u8>)
        requires
            old(self)@.wf(),
            prog@.len() <= MEM_SIZE,
        ensures
            final(self)@ == (CpuView {
                mem: prog@ + old(self)@.mem.skip(prog@.len() as int),
                ..old(self)@
            }),
    {
        let n = prog.len();
        let mut i: usize = 0;
        while i < n
            invariant
                n == prog@.len() <= MEM_SIZE,
                0 <= i <= n,
                self@.mem.len() == MEM_SIZE,
                forall|j: int| 0 <= j < i ==> self@.mem[j] == prog@[j],
                forall|j: int| i <= j < MEM_SIZE ==> self@.mem[j] == old(self)@.mem[j],
                self@ == (CpuView { mem: self@.mem, ..old(self)@ }),
            decreases n - i,
        {
            self.mem[i] = prog[i];
            i = i + 1;
        }
        proof {
            assert(self@.mem =~= prog@ + old(self)@.mem.skip(prog@.len() as int));
            assert(self@ =~= (CpuView {
                mem: prog@ + old(self)@.mem.skip(prog@.len() as int),
                ..old(self)@
            }));
        }
    }

    /// Read the memory cell at `i`.
    pub fn getmem(&self, i: u16) -> (r: u8)
        requires
            self@.wf(),
            i < MEM_SIZE,
        ensures
            r == self@.mem[i as int],
    {
        self.mem[i as usize]
    }

    /// Write the memory cell at `addr`.
    pub fn setmem(&mut self, addr: u16, val: u8)
        requires
            old(self)@.wf(),
            addr < MEM_SIZE,
        ensures
            final(self)@ == old(self)@.with_mem(addr as int, val),
    {
        self.mem[addr as usize] = val;
    }

    /// Get the current value of the specified 16-bit register.
    pub fn getreg16(&self, reg: &Reg16) -> (r: u16)
        ensures
            r == self@.reg16(*reg),
    {
        match *reg {
            Reg16::AX => self.ax,
            Reg16::BX => self.bx,
            Reg16::CX => self.cx,
            Reg16::DX => self.dx,
            Reg16::SI => self.si,
            Reg16::DI => self.di,
            Reg16::SP => self.sp,
            Reg16::BP => self.bp,
            Reg16::IP => self.ip,
        }
    }

    /// Get the current value of the specified 8-bit half-register.
    pub fn getreg8(&self, reg: &Reg8) -> (r: u8)
        ensures
            r == self@.reg8(*reg),
    {
        match *reg {
            Reg8::AL => low8(self.ax),
            Reg8::BL => low8(self.bx),
            Reg8::CL => low8(self.cx),
            Reg8::DL => low8(self.dx),
            Reg8::AH => high8(self.ax),
            Reg8::BH => high8(self.bx),
            Reg8::CH => high8(self.cx),
            Reg8::DH => high8(self.dx),
        }
    }

    /// Set the specified 16-bit register.
    pub fn setreg16(&mut self, reg: &Reg16, new_val: u16)
        ensures
            final(self)@ == old(self)@.with_reg16(*reg, new_val),
    {
        match *reg {
            Reg16::AX => self.ax = new_val,
            Reg16::BX => self.bx = new_val,
            Reg16::CX => self.cx = new_val,
            Reg16::DX => self.dx = new_val,
            Reg16::SI => self.si = new_val,
            Reg16::DI => self.di = new_val,
            Reg16::SP => self.sp = new_val,
            Reg16::BP => self.bp = new_val,
            Reg16::IP => self.ip = new_val,
        }
    }

    /// Set the specified 8-bit half-register, leaving the opposite half
    /// of the parent register unchanged.
    pub fn setreg8(&mut self, reg: &Reg8, new_val: u8)
        ensures
            final(self)@ == old(self)@.with_reg8(*reg, new_val),
    {
        match *reg {
            Reg8::AL => self.ax = join_low8(self.ax, new_val),
            Reg8::BL => self.bx = join_low8(self.bx, new_val),
            Reg8::CL => self.cx = join_low8(self.cx, new_val),
            Reg8::DL => self.dx = join_low8(self.dx, new_val),
            Reg8::AH => self.ax = join_high8(self.ax, new_val),
            Reg8::BH => self.bx = join_high8(self.bx, new_val),
            Reg8::CH => self.cx = join_high8(self.cx, new_val),
            Reg8::DH => self.dx = join_high8(self.dx, new_val),
        }
    }

    /// Read a byte from the memory location at IP and advance IP.
    pub fn read(&mut self) -> (r: u8)
        requires
            old(self)@.wf(),
            old(self)@.ip < MEM_SIZE,
        ensures
            r == old(self)@.mem[old(self)@.ip as int],
            final(self)@ == old(self)@.with_ip((old(self)@.ip + 1) as u16),
    {
        let byte = self.getmem(self.ip);
        self.ip = self.ip + 1;
        byte
    }

    /// Read a word from the memory location at IP, low byte first, and
    /// advance IP by 2.
    pub fn read16(&mut self) -> (r: u16)
        requires
            old(self)@.wf(),
            old(self)@.ip as int + 1 < MEM_SIZE,
        ensures
            r == spec_join8(
                old(self)@.mem[old(self)@.ip as int],
                old(self)@.mem[old(self)@.ip as int + 1],
            ),
            final(self)@ == old(self)@.with_ip((old(self)@.ip + 2) as u16),
    {
        let low_b = self.read();
        let high_b = self.read();
        join8(low_b, high_b)
    }

    /// Push a word onto the stack: SP drops by 2, and the word is stored
    /// little-endian at the new SP.
    pub fn push(&mut self, val: u16)
        requires
            old(self)@.wf(),
            old(self)@.sp >= 2,
        ensures
            final(self)@ == old(self)@.push_w(val),
    {
        let low_b = low8(val);
        let high_b = high8(val);
        let sp = self.sp;
        self.setmem(sp - 2, low_b);
        self.setmem(sp - 1, high_b);
        self.sp = sp - 2;
    }

    /// Pop and return the little-endian word at SP; SP rises by 2.
    pub fn pop(&mut self) -> (r: u16)
        requires
            old(self)@.wf(),
            old(self)@.sp as int + 1 < MEM_SIZE,
        ensures
            r == old(self)@.pop_value(),
            final(self)@ == old(self)@.after_pop(),
    {
        let low_b = self.getmem(self.sp);
        let high_b = self.getmem(self.sp + 1);
        self.sp = self.sp + 2;
        join8(low_b, high_b)
    }

    /// Replace all four flags at once.
    pub fn set_flags(&mut self, cf: bool, of: bool, sf: bool, zf: bool)
        ensures
            final(self)@ == old(self)@.with_flags(
                Flags { carry: cf, overflow: of, sign: sf, zero: zf },
            ),
    {
        self.cf = cf;
        self.of = of;
        self.sf = sf;
        self.zf = zf;
    }

    /// The four flags as one value.
    pub fn get_flags(&self) -> (f: Flags)
        ensures
            f == self@.flags(),
    {
        Flags { carry: self.cf, overflow: self.of, sign: self.sf, zero: self.zf }
    }

    /// The zero flag.
    pub fn zero(&self) -> (r: bool)
        ensures
            r == self@.zf,
    {
        self.zf
    }

    /// The sign flag.
    pub fn sign(&self) -> (r: bool)
        ensures
            r == self@.sf,
    {
        self.sf
    }

    /// The carry flag.
    pub fn carry(&self) -> (r: bool)
        ensures
            r == self@.cf,
    {
        self.cf
    }

    /// Raise the carry flag, leaving the other flags untouched.
    pub fn set_carry(&mut self)
        ensures
            final(self)@ == old(self)@.with_cf(true),
    {
        self.cf = true;
    }
}

} // verus!
