use emu86::cstate::{CpuState, Reg8, Reg16};
use emu86::driver::{run, step};
use emu86::errors::EmuError;

/// Load `bytes` at address 0 and run until halt, error, or the step
/// budget runs out.
fn run_program(bytes: &[u8]) -> (CpuState, Result<bool, EmuError>) {
    let mut cs = CpuState::new();
    cs.load_program(&bytes.to_vec());
    let r = run(&mut cs, 100_000);
    (cs, r)
}

#[test]
fn halt_terminates_immediately() {
    let (cs, r) = run_program(&[0xF4]);
    assert_eq!(r, Ok(true));
    assert_eq!(cs.getreg16(&Reg16::IP), 0);
    assert_eq!(cs.getreg16(&Reg16::SP), 0x0100);
}

#[test]
fn halt_terminates_straight_line_program() {
    let (cs, r) = run_program(&[0xB0, 0x01, 0x90, 0xF4]);
    assert_eq!(r, Ok(true));
    assert_eq!(cs.getreg8(&Reg8::AL), 1);
    assert_eq!(cs.getreg16(&Reg16::IP), 3);
}

#[test]
fn budget_runs_out_on_self_loop() {
    // jmp -2: loops on itself forever; the trailing halt is never
    // reached, so only the step budget stops the run.
    let (cs, r) = run_program(&[0xEB, 0xFE, 0xF4]);
    assert_eq!(r, Ok(false));
    assert_eq!(cs.getreg16(&Reg16::IP), 0);
}

#[test]
fn budget_stops_after_exact_steps() {
    // two of the four instructions run before the budget is spent
    let mut cs = CpuState::new();
    cs.load_program(&vec![0xB0, 0x01, 0x40, 0x40, 0xF4]);
    let r = run(&mut cs, 2);
    assert_eq!(r, Ok(false));
    assert_eq!(cs.getreg16(&Reg16::AX), 0x0002);
    assert_eq!(cs.getreg16(&Reg16::IP), 3);
    // the same program halts normally once the budget suffices
    let r = run(&mut cs, 2);
    assert_eq!(r, Ok(true));
    assert_eq!(cs.getreg16(&Reg16::AX), 0x0003);
    assert_eq!(cs.getreg16(&Reg16::IP), 4);
}

#[test]
fn s1_mov_and_halt() {
    let (cs, r) = run_program(&[0xB8, 0x34, 0x12, 0xF4]);
    assert_eq!(r, Ok(true));
    assert_eq!(cs.getreg16(&Reg16::AX), 0x1234);
    assert_eq!(cs.getreg16(&Reg16::IP), 3);
}

#[test]
fn s2_add_immediate() {
    let (cs, r) = run_program(&[0xB8, 0x01, 0x00, 0x05, 0xFF, 0x00, 0xF4]);
    assert_eq!(r, Ok(true));
    assert_eq!(cs.getreg16(&Reg16::AX), 0x0100);
    assert!(!cs.carry());
    assert!(!cs.zero());
}

#[test]
fn s3_byte_wrap_and_flags() {
    let (cs, r) = run_program(&[0xB0, 0xFF, 0x04, 0x01, 0xF4]);
    assert_eq!(r, Ok(true));
    assert_eq!(cs.getreg8(&Reg8::AL), 0x00);
    assert_eq!(cs.getreg8(&Reg8::AH), 0x00);
    assert!(cs.carry());
    assert!(cs.zero());
}

#[test]
fn s4_push_pop() {
    let (cs, r) = run_program(&[0xB8, 0xEF, 0xBE, 0x50, 0xB8, 0x00, 0x00, 0x58, 0xF4]);
    assert_eq!(r, Ok(true));
    assert_eq!(cs.getreg16(&Reg16::AX), 0xBEEF);
    assert_eq!(cs.getreg16(&Reg16::SP), 0x0100);
}

#[test]
fn s5_cmp_and_conditional_jump() {
    let (cs, r) = run_program(&[0xB0, 0x05, 0x3C, 0x05, 0x74, 0x02, 0xB0, 0x99, 0xF4]);
    assert_eq!(r, Ok(true));
    assert_eq!(cs.getreg8(&Reg8::AL), 0x05);
}

#[test]
fn s6_call_lands_on_halt() {
    // The call offset is added to the IP after its immediate (3), so
    // the jump lands on the halt at 6 and the subroutine at 7 never
    // runs: AX stays zero and the pushed return address stays on the
    // stack.
    let (cs, r) = run_program(&[
        0xE8, 0x03, 0x00, 0xB8, 0x00, 0x00, 0xF4, 0xB8, 0xAA, 0xAA, 0xC3,
    ]);
    assert_eq!(r, Ok(true));
    assert_eq!(cs.getreg16(&Reg16::AX), 0x0000);
    assert_eq!(cs.getreg16(&Reg16::IP), 6);
    assert_eq!(cs.getreg16(&Reg16::SP), 0x00FE);
}

#[test]
fn call_ret_round_trip() {
    // call +4 reaches the subroutine at 7, which sets AX and returns
    // to 3; the code there clears AX and halts with SP restored.
    let (cs, r) = run_program(&[
        0xE8, 0x04, 0x00, 0xB8, 0x00, 0x00, 0xF4, 0xB8, 0xAA, 0xAA, 0xC3,
    ]);
    assert_eq!(r, Ok(true));
    assert_eq!(cs.getreg16(&Reg16::AX), 0x0000);
    assert_eq!(cs.getreg16(&Reg16::IP), 6);
    assert_eq!(cs.getreg16(&Reg16::SP), 0x0100);
}

#[test]
fn conditional_jump_distances() {
    // With ZF set, `jz +5` moves IP by the two consumed bytes plus 5.
    let mut cs = CpuState::new();
    cs.load_program(&vec![0x74, 0x05]);
    cs.set_flags(false, false, false, true);
    assert_eq!(step(&mut cs), Ok(false));
    assert_eq!(cs.getreg16(&Reg16::IP), 7);
    // With ZF clear it only consumes the two bytes.
    let mut cs = CpuState::new();
    cs.load_program(&vec![0x74, 0x05]);
    assert_eq!(step(&mut cs), Ok(false));
    assert_eq!(cs.getreg16(&Reg16::IP), 2);
}

#[test]
fn conditional_jump_variants() {
    // jc (0x72) taken on carry
    let mut cs = CpuState::new();
    cs.load_program(&vec![0xF9, 0x72, 0x02, 0xB0, 0x99, 0xF4]);
    let r = run(&mut cs, 100);
    assert_eq!(r, Ok(true));
    assert_eq!(cs.getreg8(&Reg8::AL), 0);
    // jnz (0x75) taken while CX not zero: a count-down loop
    let (cs, r) = run_program(&[
        0xB9, 0x03, 0x00, // mov cx, 3
        0xB0, 0x00, // mov al, 0
        0x04, 0x02, // add al, 2
        0x49, // dec cx
        0x75, 0xFB, // jnz -5
        0xF4,
    ]);
    assert_eq!(r, Ok(true));
    assert_eq!(cs.getreg8(&Reg8::AL), 6);
    assert_eq!(cs.getreg16(&Reg16::CX), 0);
    // jbe (0x76) taken on zero, jnbe (0x77) not taken on zero
    let (cs, r) = run_program(&[
        0xB0, 0x01, 0x3C, 0x01, // al = 1, cmp al,1 -> ZF
        0x76, 0x02, 0xB0, 0x99, // jbe over the poison mov
        0x77, 0x02, 0xB4, 0x42, // jnbe must fall through: ah = 0x42
        0xF4,
    ]);
    assert_eq!(r, Ok(true));
    assert_eq!(cs.getreg8(&Reg8::AL), 0x01);
    assert_eq!(cs.getreg8(&Reg8::AH), 0x42);
    // jns (0x79) taken when the sign flag is clear
    let (cs, r) = run_program(&[0xB0, 0x01, 0x04, 0x01, 0x79, 0x02, 0xB0, 0x99, 0xF4]);
    assert_eq!(r, Ok(true));
    assert_eq!(cs.getreg8(&Reg8::AL), 0x02);
}

#[test]
fn mov_family_opcodes() {
    let (cs, r) = run_program(&[
        0xB0, 0x01, 0xB1, 0x02, 0xB2, 0x03, 0xB3, 0x04, // AL CL DL BL
        0xB4, 0x05, 0xB5, 0x06, 0xB6, 0x07, 0xB7, 0x08, // AH CH DH BH
        0xB9, 0x22, 0x11, // CX overwritten
        0xBA, 0x44, 0x33, // DX
        0xBB, 0x66, 0x55, // BX
        0xBE, 0x88, 0x77, // SI
        0xBF, 0xAA, 0x99, // DI
        0xF4,
    ]);
    assert_eq!(r, Ok(true));
    assert_eq!(cs.getreg16(&Reg16::AX), 0x0501);
    assert_eq!(cs.getreg16(&Reg16::CX), 0x1122);
    assert_eq!(cs.getreg16(&Reg16::DX), 0x3344);
    assert_eq!(cs.getreg16(&Reg16::BX), 0x5566);
    assert_eq!(cs.getreg16(&Reg16::SI), 0x7788);
    assert_eq!(cs.getreg16(&Reg16::DI), 0x99AA);
}

#[test]
fn mov_sp_and_push_through_it() {
    let (cs, r) = run_program(&[
        0xBC, 0x00, 0x02, // mov sp, 0x0200
        0xB8, 0x34, 0x12, // mov ax, 0x1234
        0x50, // push ax
        0xF4,
    ]);
    assert_eq!(r, Ok(true));
    assert_eq!(cs.getreg16(&Reg16::SP), 0x01FE);
    assert_eq!(cs.getmem(0x01FE), 0x34);
    assert_eq!(cs.getmem(0x01FF), 0x12);
}

#[test]
fn memory_mov_through_modrm() {
    let (cs, r) = run_program(&[
        0xBB, 0x00, 0x80, // mov bx, 0x8000
        0xC7, 0x07, 0x34, 0x12, // mov word [bx], 0x1234
        0x8B, 0x0F, // mov cx, [bx]
        0xC6, 0x06, 0x10, 0x80, 0x55, // mov byte [0x8010], 0x55
        0x8A, 0x16, 0x10, 0x80, // mov dl, [0x8010]
        0xF4,
    ]);
    assert_eq!(r, Ok(true));
    assert_eq!(cs.getmem(0x8000), 0x34);
    assert_eq!(cs.getmem(0x8001), 0x12);
    assert_eq!(cs.getreg16(&Reg16::CX), 0x1234);
    assert_eq!(cs.getmem(0x8010), 0x55);
    assert_eq!(cs.getreg8(&Reg8::DL), 0x55);
}

#[test]
fn word_alu_opcodes_on_registers() {
    // add (0x01), or (0x09), and (0x20), sub (0x29), xor (0x31) between
    // registers through ModR/M mod=11.
    let (cs, r) = run_program(&[
        0xB8, 0x0F, 0x00, // mov ax, 0x000F
        0xBB, 0x03, 0x00, // mov bx, 3
        0x01, 0xD8, // add ax, bx -> 0x12
        0x09, 0xD8, // or ax, bx -> 0x13
        0x20, 0xD8, // and ax, bx -> 0x03
        0x29, 0xD8, // sub ax, bx -> 0x00
        0x31, 0xC9, // xor cx, cx -> 0
        0xF4,
    ]);
    assert_eq!(r, Ok(true));
    assert_eq!(cs.getreg16(&Reg16::AX), 0);
    assert!(cs.zero());
    assert_eq!(cs.getreg16(&Reg16::CX), 0);
}

#[test]
fn cmp_opcodes_preserve_destination() {
    let (cs, r) = run_program(&[
        0xB8, 0x05, 0x00, // mov ax, 5
        0xBB, 0x07, 0x00, // mov bx, 7
        0x39, 0xD8, // cmp ax, bx -> borrow
        0xF4,
    ]);
    assert_eq!(r, Ok(true));
    assert_eq!(cs.getreg16(&Reg16::AX), 5);
    assert_eq!(cs.getreg16(&Reg16::BX), 7);
    assert!(cs.carry());
    assert!(!cs.zero());

    let (cs, r) = run_program(&[0xB0, 0x09, 0xB3, 0x09, 0x38, 0xD8, 0xF4]);
    assert_eq!(r, Ok(true));
    assert_eq!(cs.getreg8(&Reg8::AL), 9);
    assert!(cs.zero());

    let (cs, r) = run_program(&[0xB8, 0x34, 0x12, 0x3D, 0x34, 0x12, 0xF4]);
    assert_eq!(r, Ok(true));
    assert_eq!(cs.getreg16(&Reg16::AX), 0x1234);
    assert!(cs.zero());
}

#[test]
fn sub_and_adc_and_sbb() {
    // sub16 via 0x2D, adc via group 0x81/010, sbb via 0x19.
    let (cs, r) = run_program(&[
        0xB8, 0x05, 0x00, // mov ax, 5
        0x2D, 0x06, 0x00, // sub ax, 6 -> 0xFFFF, carry
        0x81, 0xD0, 0x02, 0x00, // adc ax, 2 -> 0xFFFF + 2 + 1 = 2, carry out
        0xF4,
    ]);
    assert_eq!(r, Ok(true));
    assert_eq!(cs.getreg16(&Reg16::AX), 0x0002);
    assert!(cs.carry());

    let (cs, r) = run_program(&[
        0xF9, // stc
        0xB8, 0x05, 0x00, // mov ax, 5
        0xBB, 0x02, 0x00, // mov bx, 2
        0x19, 0xD8, // sbb ax, bx -> 5 - 2 - 1 = 2
        0xF4,
    ]);
    assert_eq!(r, Ok(true));
    assert_eq!(cs.getreg16(&Reg16::AX), 0x0002);
    assert!(!cs.carry());
}

#[test]
fn group_opcodes() {
    // 0x81/000 add, 0x81/101 sub, 0x81/111 cmp; 0x80/001 or, 0x80/111
    // cmp; 0xFE/000 inc, 0xFE/001 dec.
    let (cs, r) = run_program(&[
        0xB9, 0x0A, 0x00, // mov cx, 10
        0x81, 0xC1, 0x05, 0x00, // add cx, 5
        0x81, 0xE9, 0x03, 0x00, // sub cx, 3
        0x81, 0xF9, 0x0C, 0x00, // cmp cx, 12
        0xF4,
    ]);
    assert_eq!(r, Ok(true));
    assert_eq!(cs.getreg16(&Reg16::CX), 12);
    assert!(cs.zero());

    let (cs, r) = run_program(&[
        0xB3, 0x30, // mov bl, 0x30
        0x80, 0xCB, 0x0F, // or bl, 0x0F
        0x80, 0xFB, 0x3F, // cmp bl, 0x3F
        0xF4,
    ]);
    assert_eq!(r, Ok(true));
    assert_eq!(cs.getreg8(&Reg8::BL), 0x3F);
    assert!(cs.zero());

    let (cs, r) = run_program(&[0xB0, 0xFF, 0xFE, 0xC0, 0xF4]);
    assert_eq!(r, Ok(true));
    assert_eq!(cs.getreg8(&Reg8::AL), 0);
    assert!(cs.carry() && cs.zero());

    let (cs, r) = run_program(&[0xB0, 0x01, 0xFE, 0xC8, 0xF4]);
    assert_eq!(r, Ok(true));
    assert_eq!(cs.getreg8(&Reg8::AL), 0);
    assert!(cs.zero());
}

#[test]
fn inc_dec_push_pop_xchg_stc_nop() {
    let (cs, r) = run_program(&[
        0x40, 0x40, 0x48, // inc ax, inc ax, dec ax -> 1
        0x41, 0x42, 0x43, 0x47, // inc cx dx bx di
        0x90, // nop
        0x51, // push cx
        0x5A, // pop dx -> dx = cx = 1... dx was 1, becomes 1
        0xB8, 0x07, 0x00, // mov ax, 7
        0xBA, 0x09, 0x00, // mov dx, 9
        0x92, // xchg ax, dx
        0xF9, // stc
        0xF4,
    ]);
    assert_eq!(r, Ok(true));
    assert_eq!(cs.getreg16(&Reg16::AX), 9);
    assert_eq!(cs.getreg16(&Reg16::DX), 7);
    assert_eq!(cs.getreg16(&Reg16::CX), 1);
    assert_eq!(cs.getreg16(&Reg16::BX), 1);
    assert_eq!(cs.getreg16(&Reg16::DI), 1);
    assert!(cs.carry());
    assert_eq!(cs.getreg16(&Reg16::SP), 0x0100);
}

#[test]
fn xchg_through_modrm() {
    let (cs, r) = run_program(&[
        0xB0, 0x01, // mov al, 1
        0xB3, 0x02, // mov bl, 2
        0x86, 0xD8, // xchg al, bl
        0xF4,
    ]);
    assert_eq!(r, Ok(true));
    assert_eq!(cs.getreg8(&Reg8::AL), 2);
    assert_eq!(cs.getreg8(&Reg8::BL), 1);
}

#[test]
fn mov_and_xchg_leave_flags() {
    let (cs, r) = run_program(&[
        0xB0, 0xFF, 0x04, 0x01, // set carry and zero
        0xB8, 0x34, 0x12, // mov ax
        0xBB, 0x78, 0x56, // mov bx
        0x89, 0xD8, // mov ax, bx
        0x92, // xchg ax, dx
        0xF4,
    ]);
    assert_eq!(r, Ok(true));
    assert!(cs.carry());
    assert!(cs.zero());
}

#[test]
fn unknown_opcode_is_fatal() {
    let (_, r) = run_program(&[0xFF]);
    assert_eq!(r, Err(EmuError::UnknownOpcode));
    let (_, r) = run_program(&[0x44]);
    assert_eq!(r, Err(EmuError::UnknownOpcode));
    let (_, r) = run_program(&[0x55]);
    assert_eq!(r, Err(EmuError::UnknownOpcode));
    // 0xBD sits in the immediate-word family but has no register
    let (_, r) = run_program(&[0xBD, 0x00, 0x00]);
    assert_eq!(r, Err(EmuError::UnknownOpcode));
    let (_, r) = run_program(&[0x78, 0x00]);
    assert_eq!(r, Err(EmuError::UnknownOpcode));
}

#[test]
fn unimplemented_addressing_mode_is_fatal() {
    // mod=01 is outside the supported subset
    let (_, r) = run_program(&[0x89, 0x40, 0x00]);
    assert_eq!(r, Err(EmuError::UnimplementedAddressingMode));
    // mod=10 with rm other than 101/111
    let (_, r) = run_program(&[0x89, 0x80, 0x00, 0x00]);
    assert_eq!(r, Err(EmuError::UnimplementedAddressingMode));
}

#[test]
fn invalid_group_sub_op_is_fatal() {
    // 0x80 with reg=010 is not handled
    let (_, r) = run_program(&[0x80, 0xD0, 0x01]);
    assert_eq!(r, Err(EmuError::InvalidGroupSubOp));
    // 0x81 with reg=001
    let (_, r) = run_program(&[0x81, 0xC8, 0x01, 0x00]);
    assert_eq!(r, Err(EmuError::InvalidGroupSubOp));
    // 0xFE with reg=111
    let (_, r) = run_program(&[0xFE, 0xF8]);
    assert_eq!(r, Err(EmuError::InvalidGroupSubOp));
}

#[test]
fn invalid_address_is_fatal() {
    // a word access at 0xFFFE needs the cell 0xFFFF, which is outside
    // the 65,535-cell memory
    let (_, r) = run_program(&[0xC7, 0x06, 0xFE, 0xFF, 0x34, 0x12]);
    assert_eq!(r, Err(EmuError::InvalidAddress));
    // a byte access at 0xFFFF
    let (_, r) = run_program(&[0xC6, 0x06, 0xFF, 0xFF, 0x55]);
    assert_eq!(r, Err(EmuError::InvalidAddress));
    // pushing with SP too low runs off the bottom of memory
    let (_, r) = run_program(&[0xBC, 0x01, 0x00, 0x50]);
    assert_eq!(r, Err(EmuError::InvalidAddress));
    // popping with SP at the top runs off the end
    let (_, r) = run_program(&[0xBC, 0xFE, 0xFF, 0x58]);
    assert_eq!(r, Err(EmuError::InvalidAddress));
}
