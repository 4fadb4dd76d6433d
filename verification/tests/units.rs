use emu86::byteutils::{
    low8, high8, join8, join_low8, join_high8, add8, sub8, or8, xor8, and8, add16, sub16, or16,
};
use emu86::cstate::{CpuState, Reg8, Reg16};
use emu86::modrm::{read_modrm, MemoryAddr, ModrmResult, Register};
use emu86::operand::{b_operand_value, b_operand_set, w_operand_value, w_operand_set, Operand};
use emu86::operation::{op8, op8_dry, op16, op16_dry};
use emu86::specialops::FlagName;
use emu86::tf::{adc16, sbb16, noop8, noop16, Transform8, Transform16};
use emu86::errors::EmuError;

#[test]
fn split_join_round_trip() {
    assert_eq!(low8(0xBEEF), 0xEF);
    assert_eq!(high8(0xBEEF), 0xBE);
    assert_eq!(join8(0xEF, 0xBE), 0xBEEF);
    for w in [0u16, 1, 0x00FF, 0x0100, 0x1234, 0x8000, 0xFFFF] {
        assert_eq!(join8(low8(w), high8(w)), w);
    }
    for lo in [0u8, 1, 0x7F, 0x80, 0xFF] {
        for hi in [0u8, 1, 0x7F, 0x80, 0xFF] {
            assert_eq!(low8(join8(lo, hi)), lo);
            assert_eq!(high8(join8(lo, hi)), hi);
        }
    }
}

#[test]
fn replace_halves() {
    assert_eq!(join_low8(0xBEEF, 0x42), 0xBE42);
    assert_eq!(join_high8(0xBEEF, 0x42), 0x42EF);
}

#[test]
fn flag_semantics_add8() {
    // (result, carry, overflow, sign, zero)
    assert_eq!(add8(0xFF, 0x01), (0x00, true, false, false, true));
    assert_eq!(add8(0x7F, 0x01), (0x80, false, true, true, false));
    assert_eq!(add8(0x01, 0x02), (0x03, false, false, false, false));
}

#[test]
fn flag_semantics_sub8() {
    assert_eq!(sub8(0x00, 0x01), (0xFF, true, false, true, false));
    assert_eq!(sub8(0x05, 0x05), (0x00, false, false, false, true));
    assert_eq!(sub8(0x80, 0x01), (0x7F, false, true, false, false));
}

#[test]
fn flag_semantics_bitwise() {
    for (l, r) in [(0x00u8, 0x00u8), (0xFF, 0x01), (0x80, 0x80), (0x55, 0xAA)] {
        let (res, cf, of, sf, zf) = or8(l, r);
        assert_eq!(res, l | r);
        assert!(!cf && !of);
        assert_eq!(sf, res >= 0x80);
        assert_eq!(zf, res == 0);
        let (res, cf, of, _, _) = xor8(l, r);
        assert_eq!(res, l ^ r);
        assert!(!cf && !of);
        let (res, cf, of, _, _) = and8(l, r);
        assert_eq!(res, l & r);
        assert!(!cf && !of);
    }
}

#[test]
fn flag_semantics_word() {
    assert_eq!(add16(0xFFFF, 0x0001), (0x0000, true, false, false, true));
    assert_eq!(add16(0x7FFF, 0x0001), (0x8000, false, true, true, false));
    assert_eq!(sub16(0x0000, 0x0001), (0xFFFF, true, false, true, false));
    let (res, cf, of, sf, zf) = or16(0x8000, 0x0001);
    assert_eq!((res, cf, of, sf, zf), (0x8001, false, false, true, false));
}

#[test]
fn adc_sbb_transforms() {
    let carry_set = {
        let mut cs = CpuState::new();
        cs.set_carry();
        cs.get_flags()
    };
    let clear = CpuState::new().get_flags();
    assert_eq!(adc16(1, 2, carry_set).0, 4);
    assert_eq!(adc16(1, 2, clear).0, 3);
    assert_eq!(sbb16(5, 2, carry_set).0, 2);
    assert_eq!(sbb16(5, 2, clear).0, 3);
    // carry-out reports the full 17-bit sum / borrow
    assert!(adc16(0xFFFF, 0x0000, carry_set).1.carry);
    assert!(sbb16(0x0000, 0x0000, carry_set).1.carry);
}

#[test]
fn noop_transform_passes_flags() {
    let mut cs = CpuState::new();
    cs.set_flags(true, false, true, false);
    let f = cs.get_flags();
    let (r8, f8) = noop8(0x12, 0x34, f);
    assert_eq!(r8, 0x34);
    assert_eq!(f8, f);
    let (r16, f16) = noop16(0x1234, 0x5678, f);
    assert_eq!(r16, 0x5678);
    assert_eq!(f16, f);
}

#[test]
fn register_aliasing() {
    let mut cs = CpuState::new();
    for (w, l, h) in [
        (Reg16::AX, Reg8::AL, Reg8::AH),
        (Reg16::BX, Reg8::BL, Reg8::BH),
        (Reg16::CX, Reg8::CL, Reg8::CH),
        (Reg16::DX, Reg8::DL, Reg8::DH),
    ] {
        cs.setreg16(&w, 0xBEEF);
        assert_eq!(cs.getreg8(&l), 0xEF);
        assert_eq!(cs.getreg8(&h), 0xBE);
        cs.setreg8(&l, 0x42);
        assert_eq!(cs.getreg8(&h), 0xBE);
        assert_eq!(cs.getreg16(&w), 0xBE42);
        cs.setreg8(&h, 0x99);
        assert_eq!(cs.getreg8(&l), 0x42);
        assert_eq!(cs.getreg16(&w), 0x9942);
    }
}

#[test]
fn initial_state() {
    let cs = CpuState::new();
    assert_eq!(cs.getreg16(&Reg16::SP), 0x0100);
    assert_eq!(cs.getreg16(&Reg16::AX), 0);
    assert_eq!(cs.getreg16(&Reg16::IP), 0);
    assert_eq!(cs.getmem(0), 0);
    assert_eq!(cs.getmem(0xFFFE), 0);
    assert!(!cs.carry() && !cs.sign() && !cs.zero());
}

#[test]
fn load_program_keeps_tail() {
    let mut cs = CpuState::new();
    cs.setmem(5, 0x77);
    cs.load_program(&vec![0xB8, 0x34, 0x12]);
    assert_eq!(cs.getmem(0), 0xB8);
    assert_eq!(cs.getmem(1), 0x34);
    assert_eq!(cs.getmem(2), 0x12);
    assert_eq!(cs.getmem(5), 0x77);
}

#[test]
fn stack_lifo() {
    let mut cs = CpuState::new();
    let words = [0x1111u16, 0x2222, 0xBEEF, 0x0000];
    for w in words {
        cs.push(w);
    }
    for w in words.iter().rev() {
        assert_eq!(cs.pop(), *w);
    }
    assert_eq!(cs.getreg16(&Reg16::SP), 0x0100);
}

#[test]
fn stack_endianness() {
    let mut cs = CpuState::new();
    assert_eq!(cs.getreg16(&Reg16::SP), 0x0100);
    cs.push(0xBEEF);
    assert_eq!(cs.getmem(0x00FE), 0xEF);
    assert_eq!(cs.getmem(0x00FF), 0xBE);
    assert_eq!(cs.getreg16(&Reg16::SP), 0x00FE);
}

#[test]
fn fetch_is_little_endian() {
    let mut cs = CpuState::new();
    cs.setmem(0, 0x34);
    cs.setmem(1, 0x12);
    assert_eq!(cs.read16(), 0x1234);
    assert_eq!(cs.getreg16(&Reg16::IP), 2);
}

#[test]
fn operand_memory_word_is_little_endian() {
    let mut cs = CpuState::new();
    w_operand_set(&mut cs, &Operand::MemoryAddress(0x8000), 0x1234);
    assert_eq!(cs.getmem(0x8000), 0x34);
    assert_eq!(cs.getmem(0x8001), 0x12);
    assert_eq!(w_operand_value(&mut cs, &Operand::MemoryAddress(0x8000)), 0x1234);
    b_operand_set(&mut cs, &Operand::MemoryAddress(0x8000), 0x56);
    assert_eq!(b_operand_value(&mut cs, &Operand::MemoryAddress(0x8000)), 0x56);
    assert_eq!(w_operand_value(&mut cs, &Operand::MemoryAddress(0x8000)), 0x1256);
}

#[test]
fn cmp_is_non_destructive() {
    let mut cs = CpuState::new();
    cs.setreg8(&Reg8::AL, 5);
    op8_dry(
        &mut cs,
        Operand::Reg8(Reg8::AL),
        Operand::RawByte(5),
        Transform8::Sub,
    );
    assert_eq!(cs.getreg8(&Reg8::AL), 5);
    assert!(cs.zero());
    assert!(!cs.carry());

    cs.setreg16(&Reg16::BX, 3);
    op16_dry(
        &mut cs,
        Operand::Reg16(Reg16::BX),
        Operand::RawWord(7),
        Transform16::Sub,
    );
    assert_eq!(cs.getreg16(&Reg16::BX), 3);
    assert!(cs.carry());
    assert!(!cs.zero());
}

#[test]
fn mov_does_not_disturb_flags() {
    let mut cs = CpuState::new();
    cs.set_flags(true, true, false, true);
    let before = cs.get_flags();
    op8(
        &mut cs,
        Operand::Reg8(Reg8::CL),
        Operand::RawByte(0x7F),
        Transform8::Noop,
    );
    op16(
        &mut cs,
        Operand::Reg16(Reg16::SI),
        Operand::RawWord(0x1234),
        Transform16::Noop,
    );
    emu86::specialops::xchg16(
        &mut cs,
        Operand::Reg16(Reg16::AX),
        Operand::Reg16(Reg16::SI),
    );
    assert_eq!(cs.get_flags(), before);
    assert_eq!(cs.getreg16(&Reg16::AX), 0x1234);
    assert_eq!(cs.getreg8(&Reg8::CL), 0x7F);
}

#[test]
fn jmp8_offset_interpretation() {
    let mut cs = CpuState::new();
    cs.setreg16(&Reg16::IP, 200);
    emu86::specialops::jmp8(&mut cs, 126);
    assert_eq!(cs.getreg16(&Reg16::IP), 326);
    // 127 is already treated as a backward offset: IP -= 256 - 127
    let mut cs = CpuState::new();
    cs.setreg16(&Reg16::IP, 200);
    emu86::specialops::jmp8(&mut cs, 127);
    assert_eq!(cs.getreg16(&Reg16::IP), 71);
    // 0xFE is -2
    let mut cs = CpuState::new();
    cs.setreg16(&Reg16::IP, 10);
    emu86::specialops::jmp8(&mut cs, 0xFE);
    assert_eq!(cs.getreg16(&Reg16::IP), 8);
    // forward jumps wrap modulo 2^16
    let mut cs = CpuState::new();
    cs.setreg16(&Reg16::IP, 0xFFFF);
    emu86::specialops::jmp8(&mut cs, 2);
    assert_eq!(cs.getreg16(&Reg16::IP), 1);
}

#[test]
fn modrm_register_mode() {
    let mut cs = CpuState::new();
    // mod=11, reg=000 (AX), rm=011 (BX)
    cs.setmem(0, 0b11_000_011);
    let (rb, eff, reg) = read_modrm(&mut cs, false).unwrap();
    assert_eq!(rb, 0);
    assert_eq!(eff, Operand::Reg16(Reg16::BX));
    assert_eq!(reg, Operand::Reg16(Reg16::AX));
}

#[test]
fn modrm_byte_registers() {
    let mut cs = CpuState::new();
    // mod=11, reg=100 (AH), rm=111 (BH)
    cs.setmem(0, 0b11_100_111);
    let (rb, eff, reg) = read_modrm(&mut cs, true).unwrap();
    assert_eq!(rb, 4);
    assert_eq!(eff, Operand::Reg8(Reg8::BH));
    assert_eq!(reg, Operand::Reg8(Reg8::AH));
}

#[test]
fn modrm_direct_displacement() {
    let mut cs = CpuState::new();
    // mod=00, rm=110: [disp16], disp read little-endian
    cs.setmem(0, 0b00_001_110);
    cs.setmem(1, 0x00);
    cs.setmem(2, 0x80);
    let (rb, eff, reg) = read_modrm(&mut cs, false).unwrap();
    assert_eq!(rb, 1);
    assert_eq!(eff, Operand::MemoryAddress(0x8000));
    assert_eq!(reg, Operand::Reg16(Reg16::CX));
    assert_eq!(cs.getreg16(&Reg16::IP), 3);
}

#[test]
fn modrm_register_sums() {
    let mut cs = CpuState::new();
    cs.setreg16(&Reg16::BX, 0x1000);
    cs.setreg16(&Reg16::SI, 0x0234);
    // mod=00, rm=000: [BX+SI]
    cs.setmem(0, 0b00_000_000);
    let (_, eff, _) = read_modrm(&mut cs, false).unwrap();
    assert_eq!(eff, Operand::MemoryAddress(0x1234));
    // mod=10, rm=111: [BX + disp16]
    cs.setreg16(&Reg16::IP, 0);
    cs.setmem(0, 0b10_000_111);
    cs.setmem(1, 0x10);
    cs.setmem(2, 0x00);
    let (_, eff, _) = read_modrm(&mut cs, false).unwrap();
    assert_eq!(eff, Operand::MemoryAddress(0x1010));
}

#[test]
fn modrm_mod01_is_unimplemented() {
    let mut cs = CpuState::new();
    cs.setmem(0, 0b01_000_000);
    assert_eq!(
        read_modrm(&mut cs, false),
        Err(EmuError::UnimplementedAddressingMode)
    );
}

#[test]
fn modrm_mod10_unsupported_rm() {
    let mut cs = CpuState::new();
    cs.setmem(0, 0b10_000_000);
    assert_eq!(
        read_modrm(&mut cs, false),
        Err(EmuError::UnimplementedAddressingMode)
    );
}

#[test]
fn cpulib_pop_zeroes_cells() {
    let mut cs = CpuState::new();
    emu86::cpulib::push(&mut cs, 0xBEEF);
    assert_eq!(cs.getmem(0x00FE), 0xEF);
    let v = emu86::cpulib::pop(&mut cs);
    assert_eq!(v, 0xBEEF);
    assert_eq!(cs.getmem(0x00FE), 0);
    assert_eq!(cs.getmem(0x00FF), 0);
    assert_eq!(cs.getreg16(&Reg16::SP), 0x0100);
}

#[test]
fn cpulib_arithmetic_sets_flags() {
    let mut cs = CpuState::new();
    assert_eq!(emu86::cpulib::b_add(&mut cs, 0xFF, 1), 0);
    assert!(cs.carry() && cs.zero());
    assert_eq!(emu86::cpulib::w_sub(&mut cs, 0, 1), 0xFFFF);
    assert!(cs.carry() && cs.sign());
    assert_eq!(emu86::cpulib::b_sub(&mut cs, 9, 4), 5);
    assert!(!cs.carry() && !cs.zero());
    assert_eq!(emu86::cpulib::w_add(&mut cs, 2, 3), 5);
    assert!(!cs.carry());
}

#[test]
fn cpulib_call_and_ret() {
    let mut cs = CpuState::new();
    cs.setreg16(&Reg16::IP, 0x0010);
    emu86::cpulib::call(&mut cs, 0x0100);
    assert_eq!(cs.getreg16(&Reg16::IP), 0x0110);
    assert_eq!(cs.getreg16(&Reg16::SP), 0x00FE);
    emu86::cpulib::ret(&mut cs);
    assert_eq!(cs.getreg16(&Reg16::IP), 0x0010);
    assert_eq!(cs.getreg16(&Reg16::SP), 0x0100);
}

#[test]
fn oplib_modrm_resolution() {
    let mut cs = CpuState::new();
    cs.setreg16(&Reg16::BX, 0x8000);
    cs.setreg16(&Reg16::SI, 0x0010);
    let addr = emu86::oplib::modrm_addr(&mut cs, &MemoryAddr::BX_SI);
    assert_eq!(addr, 0x8010);
    assert_eq!(emu86::oplib::modrm_reg16(&Register::SP), Reg16::SP);
    assert_eq!(emu86::oplib::modrm_reg8(&Register::CX), Reg8::CL);

    let disp = ModrmResult::MemoryDisp16(0x8010);
    emu86::oplib::modrm_set_w(&mut cs, &disp, 0xBEEF);
    assert_eq!(cs.getmem(0x8010), 0xEF);
    assert_eq!(cs.getmem(0x8011), 0xBE);
    assert_eq!(emu86::oplib::modrm_value_w(&mut cs, &disp), 0xBEEF);
    let m = ModrmResult::MemoryAddr(MemoryAddr::BX_SI);
    assert_eq!(emu86::oplib::modrm_value_b(&mut cs, &m), 0xEF);
    emu86::oplib::modrm_set_b(&mut cs, &m, 0x01);
    assert_eq!(emu86::oplib::modrm_value_w(&mut cs, &disp), 0xBE01);

    let r = ModrmResult::Register(Register::DX);
    emu86::oplib::modrm_set_w(&mut cs, &r, 0x1234);
    assert_eq!(cs.getreg16(&Reg16::DX), 0x1234);
    assert_eq!(emu86::oplib::modrm_value_b(&mut cs, &r), 0x34);
}

#[test]
fn operations_register_ops() {
    let mut cs = CpuState::new();
    emu86::operations::w_mov_ir(&mut cs, Reg16::CX, 0x00FF);
    emu86::operations::inc(&mut cs, Reg16::CX);
    assert_eq!(cs.getreg16(&Reg16::CX), 0x0100);
    emu86::operations::dec(&mut cs, Reg16::CX);
    assert_eq!(cs.getreg16(&Reg16::CX), 0x00FF);
    emu86::operations::b_mov_ir(&mut cs, Reg8::AL, 0xFF);
    emu86::operations::b_add(&mut cs, Reg8::AL, 1);
    assert_eq!(cs.getreg8(&Reg8::AL), 0);
    assert!(cs.carry() && cs.zero());
    emu86::operations::w_mov_ir(&mut cs, Reg16::DX, 7);
    emu86::operations::xchg(&mut cs, Reg16::CX, Reg16::DX);
    assert_eq!(cs.getreg16(&Reg16::CX), 7);
    assert_eq!(cs.getreg16(&Reg16::DX), 0x00FF);
    emu86::operations::w_cmp_ri(&mut cs, Reg16::CX, 7);
    assert!(cs.zero());
    assert_eq!(cs.getreg16(&Reg16::CX), 7);
    emu86::operations::b_cmp_ri(&mut cs, Reg8::AL, 1);
    assert!(cs.carry());
    emu86::operations::w_sub_ri(&mut cs, Reg16::CX, 2);
    assert_eq!(cs.getreg16(&Reg16::CX), 5);
    emu86::operations::w_add(&mut cs, Reg16::CX, 3);
    assert_eq!(cs.getreg16(&Reg16::CX), 8);
    emu86::operations::stc(&mut cs);
    assert!(cs.carry());
}

#[test]
fn operations_stack_and_jumps() {
    let mut cs = CpuState::new();
    emu86::operations::w_mov_ir(&mut cs, Reg16::AX, 0xBEEF);
    emu86::operations::push(&mut cs, Reg16::AX);
    emu86::operations::w_mov_ir(&mut cs, Reg16::AX, 0);
    emu86::operations::pop(&mut cs, Reg16::BX);
    assert_eq!(cs.getreg16(&Reg16::BX), 0xBEEF);
    assert_eq!(cs.getreg16(&Reg16::SP), 0x0100);

    cs.setreg16(&Reg16::IP, 100);
    emu86::operations::b_jmp(&mut cs, 10);
    assert_eq!(cs.getreg16(&Reg16::IP), 110);
    emu86::operations::w_jmp(&mut cs, 0x0100);
    assert_eq!(cs.getreg16(&Reg16::IP), 0x0100 + 110);

    cs.set_flags(false, false, false, true);
    cs.setreg16(&Reg16::IP, 50);
    emu86::operations::b_jmp_flag(&mut cs, FlagName::Zero, false, 5);
    assert_eq!(cs.getreg16(&Reg16::IP), 55);
    emu86::operations::b_jmp_flag(&mut cs, FlagName::Zero, true, 5);
    assert_eq!(cs.getreg16(&Reg16::IP), 55);
    emu86::operations::b_jmp_flags(&mut cs, FlagName::Carry, FlagName::Zero, false, 3);
    assert_eq!(cs.getreg16(&Reg16::IP), 58);

    cs.setreg16(&Reg16::IP, 7);
    emu86::operations::call(&mut cs, 3);
    assert_eq!(cs.getreg16(&Reg16::IP), 10);
    emu86::operations::ret(&mut cs);
    assert_eq!(cs.getreg16(&Reg16::IP), 7);
}

#[test]
fn operations_modrm_ops() {
    let mut cs = CpuState::new();
    let cell = ModrmResult::MemoryDisp16(0x8000);
    let reg_ax = ModrmResult::Register(Register::AX);
    emu86::operations::w_mov_ei(&mut cs, cell, 0x0F0F);
    emu86::operations::w_mov_ir(&mut cs, Reg16::AX, 0x00FF);
    emu86::operations::w_or_eg(&mut cs, cell, reg_ax);
    assert_eq!(cs.getmem(0x8000), 0xFF);
    assert_eq!(cs.getmem(0x8001), 0x0F);
    emu86::operations::w_and_eg(&mut cs, cell, reg_ax);
    assert_eq!(cs.getmem(0x8000), 0xFF);
    assert_eq!(cs.getmem(0x8001), 0x00);
    emu86::operations::w_xor_eg(&mut cs, cell, reg_ax);
    assert!(cs.zero());
    emu86::operations::w_add_ei(&mut cs, cell, 0x0005);
    emu86::operations::w_add_eg(&mut cs, cell, reg_ax);
    assert_eq!(emu86::oplib::modrm_value_w(&mut cs, &cell), 0x0104);
    emu86::operations::w_sub_eg(&mut cs, cell, reg_ax);
    emu86::operations::w_sub_ei(&mut cs, cell, 0x0004);
    assert_eq!(emu86::oplib::modrm_value_w(&mut cs, &cell), 0x0001);
    emu86::operations::w_cmp_ei(&mut cs, cell, 1);
    assert!(cs.zero());
    emu86::operations::w_cmp_eg(&mut cs, cell, reg_ax);
    assert!(cs.carry());
    assert_eq!(emu86::oplib::modrm_value_w(&mut cs, &cell), 0x0001);

    // sbb/adc fold the carry into the second operand
    cs.set_flags(true, false, false, false);
    emu86::operations::w_adc_ei(&mut cs, cell, 2);
    assert_eq!(emu86::oplib::modrm_value_w(&mut cs, &cell), 0x0004);
    emu86::operations::w_mov_ir(&mut cs, Reg16::AX, 1);
    cs.set_flags(true, false, false, false);
    emu86::operations::w_sbb_eg(&mut cs, cell, reg_ax);
    assert_eq!(emu86::oplib::modrm_value_w(&mut cs, &cell), 0x0002);

    // byte forms
    emu86::operations::b_mov_ei(&mut cs, cell, 0x41);
    emu86::operations::b_inc_e(&mut cs, cell);
    assert_eq!(cs.getmem(0x8000), 0x42);
    emu86::operations::b_dec_e(&mut cs, cell);
    assert_eq!(cs.getmem(0x8000), 0x41);
    emu86::operations::b_or_ei(&mut cs, cell, 0x80);
    assert_eq!(cs.getmem(0x8000), 0xC1);
    assert!(cs.sign());
    emu86::operations::b_cmp_ei(&mut cs, cell, 0xC1);
    assert!(cs.zero());

    emu86::operations::b_mov_ir(&mut cs, Reg8::BL, 0x0F);
    let reg_bx = ModrmResult::Register(Register::BX);
    emu86::operations::b_cmp_eg(&mut cs, cell, reg_bx);
    assert!(!cs.zero());
    emu86::operations::b_mov_eg(&mut cs, cell, reg_bx);
    assert_eq!(cs.getmem(0x8000), 0x0F);
    emu86::operations::b_mov_ge(&mut cs, cell, ModrmResult::Register(Register::CX));
    assert_eq!(cs.getreg8(&Reg8::CL), 0x0F);
    emu86::operations::w_mov_ge(&mut cs, cell, ModrmResult::Register(Register::SI));
    assert_eq!(cs.getreg16(&Reg16::SI), emu86::oplib::modrm_value_w(&mut cs, &cell));
    emu86::operations::w_mov_ir(&mut cs, Reg16::DX, 0x7777);
    emu86::operations::w_mov_eg(&mut cs, cell, ModrmResult::Register(Register::DX));
    assert_eq!(emu86::oplib::modrm_value_w(&mut cs, &cell), 0x7777);

    emu86::operations::b_mov_ei(&mut cs, cell, 0x01);
    emu86::operations::b_mov_ir(&mut cs, Reg8::DL, 0x02);
    let reg_dx = ModrmResult::Register(Register::DX);
    emu86::operations::b_xchg_eg(&mut cs, cell, reg_dx);
    assert_eq!(cs.getmem(0x8000), 0x02);
    assert_eq!(cs.getreg8(&Reg8::DL), 0x01);

    // b_op drives the byte pipeline directly
    emu86::operations::b_op(
        &mut cs,
        Operand::Reg8(Reg8::DL),
        Operand::RawByte(1),
        Transform8::Add,
    );
    assert_eq!(cs.getreg8(&Reg8::DL), 0x02);
}
