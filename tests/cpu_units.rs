use sg1000::cpu::Cpu;
use sg1000::memory::{Bus, Device, Ram};
use sg1000::registers::{Flags, RegisterCode, RegisterCode16};

fn cpu_from(bytes: Vec<u8>) -> Cpu {
    let ram = Ram::builder().data(bytes).build();
    Cpu::new(Bus::new(vec![Device::from(ram)]), Bus::default_bus())
}

fn get_cpu() -> Cpu {
    Cpu::new(
        Bus::new(vec![Device::from(vec![0xabu8, 0xcd, 0xef])]),
        Bus::default_bus(),
    )
}

#[test]
fn test_set_flag_macro() {
    let mut cpu = cpu_from(Vec::new());
    cpu.set_flag(Flags::Carry, true);
    cpu.set_flag(Flags::Carry, true);
    assert!(cpu.flag(Flags::Carry));

    cpu.set_flag(Flags::Carry, false);
    assert!(!cpu.flag(Flags::Carry));
}

#[test]
fn tests_test_inc_clock() {
    let mut cpu = Cpu::new(Bus::default_bus(), Bus::default_bus());
    assert_eq!(0, cpu.clock());

    cpu.tick_clock(1);
    assert_eq!(1, cpu.clock());

    cpu.tick_clock(5);
    assert_eq!(6, cpu.clock());
}

#[test]
fn tests_test_set_reg_a() {
    let mut cpu = Cpu::new(Bus::default_bus(), Bus::default_bus());
    cpu.set_reg_value(RegisterCode::A, 10);
    assert_eq!(10, cpu.reg_value(RegisterCode::A));
}

#[test]
fn tests_test_register_16() {
    let mut cpu = Cpu::new(Bus::default_bus(), Bus::default_bus());
    cpu.set_reg_value(RegisterCode::B, 0xBB);
    cpu.set_reg_value(RegisterCode::C, 0xCC);
    assert_eq!(0xBBCC, cpu.reg_value_16(RegisterCode16::BC));
}

#[test]
fn tests_test_immediate_addressing() {
    let mut cpu = Cpu::new(
        Bus::new(vec![Device::from(vec![0xabu8, 0xbc, 0xde])]),
        Bus::default_bus(),
    );

    assert_eq!(0xab, cpu.imm_addr());
}

#[test]
fn tests_test_immediate_extended_addressing() {
    let mut cpu = Cpu::new(
        Bus::new(vec![Device::from(vec![0xabu8, 0xcd, 0xef])]),
        Bus::default_bus(),
    );

    assert_eq!(0xcdab, cpu.imm_addr_ex());
}

#[test]
fn tests_test_relative_addressing() {
    let mut cpu = Cpu::new(
        Bus::new(vec![Device::from(vec![0xffu8, 0xff, 0])]),
        Bus::default_bus(),
    );
    assert_eq!(0, cpu.rel_addr());

    let pc = cpu.get_pc() as i16;
    let pc = (pc + 1 - 1) as u16;
    assert_eq!(pc, cpu.rel_addr());
}

#[test]
fn tests_test_relative_addressing_pc_cast_is_neg() {
    let mut vec = Vec::with_capacity(0xff + 5);
    vec.resize(0xff + 5, 0u8);
    for i in 0..0xff + 5 {
        vec[i] = (i % 0xff) as u8;
    }

    let mut cpu = Cpu::new(Bus::new(vec![Device::from(vec)]), Bus::default_bus());
    cpu.set_pc(0xf0);
    assert_eq!(0xf1 - 16, cpu.rel_addr());
}

#[test]
fn tests_test_extended_addressing() {
    let mut cpu = get_cpu();

    assert_eq!(0xcdab, cpu.ext_addr());
}

#[test]
fn tests_test_register_indexed_addressing() {
    let mut cpu = get_cpu();
    cpu.set_reg_value_16(RegisterCode16::IY, 0xa015);
    // 0xAB = -85
    assert_eq!(0xa015 - 85, cpu.index_addr(RegisterCode16::IY));

    let mut cpu = get_cpu();
    cpu.set_reg_value_16(RegisterCode16::IY, 0x0000);
    assert_eq!(0xFFFF - 84, cpu.index_addr(RegisterCode16::IY));

    let mut cpu = cpu_from(vec![0xFF]);
    cpu.set_reg_value_16(RegisterCode16::IY, 0x0000);
    assert_eq!(0xFFFF, cpu.index_addr(RegisterCode16::IY));

    let mut cpu = cpu_from(vec![0x01]);
    cpu.set_reg_value_16(RegisterCode16::IY, 0xFFFF);
    assert_eq!(0x0000, cpu.index_addr(RegisterCode16::IY));
}

#[test]
fn tests_test_indirect_reg_addr() {
    let mut cpu = get_cpu();
    cpu.set_reg_value(RegisterCode::H, 0xab);
    cpu.set_reg_value(RegisterCode::L, 0xcd);

    assert_eq!(0xabcd, cpu.indirect_reg_addr(RegisterCode16::HL));
}

#[test]
fn tests_test_set_flags() {
    let mut cpu = get_cpu();

    cpu.set_flag(Flags::Carry, false);
    assert_eq!(0, cpu.reg_value(RegisterCode::Flags) & 1);
    cpu.set_flag(Flags::Carry, true);
    assert_eq!(1, cpu.reg_value(RegisterCode::Flags) & 1);

    cpu.set_flag(Flags::Sign, false);
    assert_eq!(0, (cpu.reg_value(RegisterCode::Flags) >> 7) & 1);

    cpu.set_flag(Flags::Sign, true);
    assert_eq!(1, (cpu.reg_value(RegisterCode::Flags) >> 7) & 1);
}

#[test]
fn tests_test_get_flags() {
    let mut cpu = get_cpu();

    cpu.set_reg_value(RegisterCode::Flags, 0b10);
    assert_eq!(true, cpu.flag(Flags::Subtract));

    cpu.set_reg_value(RegisterCode::Flags, 0b11110);
    assert_eq!(false, cpu.flag(Flags::Carry));
}

/* ----------------     test inc     ------------------- */
#[test]
fn tests_test_inc_reg() {
    let mut cpu = get_cpu();

    // test normal
    cpu.set_reg_value(RegisterCode::A, 0x0);
    cpu.inc_reg(RegisterCode::A);
    assert_eq!(1, cpu.reg_value(RegisterCode::A));
    assert_eq!(false, cpu.flag(Flags::OverflowParity));
    assert_eq!(false, cpu.flag(Flags::Zero));
    assert_eq!(false, cpu.flag(Flags::Sign));
    assert_eq!(false, cpu.flag(Flags::HalfCarry));
    assert_eq!(false, cpu.flag(Flags::Subtract));

    // test half carry flag
    cpu.set_reg_value(RegisterCode::A, 0b1101_1111);
    cpu.inc_reg(RegisterCode::A);
    assert_eq!(0b1110_0000, cpu.reg_value(RegisterCode::A));
    assert_eq!(false, cpu.flag(Flags::OverflowParity));
    assert_eq!(false, cpu.flag(Flags::Zero));
    assert_eq!(true, cpu.flag(Flags::Sign));
    assert_eq!(true, cpu.flag(Flags::HalfCarry));

    // test overflow
    cpu.set_reg_value(RegisterCode::A, 0xFF);
    cpu.inc_reg(RegisterCode::A);
    assert_eq!(0, cpu.reg_value(RegisterCode::A));
    assert_eq!(false, cpu.flag(Flags::OverflowParity));
    assert_eq!(true, cpu.flag(Flags::Zero));
    assert_eq!(false, cpu.flag(Flags::Sign));
    assert_eq!(true, cpu.flag(Flags::HalfCarry));

    // test wrap around to negative
    cpu.set_reg_value(RegisterCode::A, 0x7F);
    cpu.inc_reg(RegisterCode::A);
    assert_eq!(-128, cpu.reg_value(RegisterCode::A) as i8);
    assert_eq!(true, cpu.flag(Flags::OverflowParity));
    assert_eq!(false, cpu.flag(Flags::Zero));
    assert_eq!(true, cpu.flag(Flags::Sign));
    assert_eq!(true, cpu.flag(Flags::HalfCarry));
}

#[test]
fn test_inc_addr() {
    let mut cpu = cpu_from(vec![0x00, 0x80, 0xFF, 0x7F]);

    // 0x00
    cpu.inc_addr(0x00);
    assert_eq!(0x01, cpu.fetch(0x00));
    assert_eq!(false, cpu.flag(Flags::OverflowParity));
    assert_eq!(false, cpu.flag(Flags::Zero));
    assert_eq!(false, cpu.flag(Flags::Sign));
    assert_eq!(false, cpu.flag(Flags::HalfCarry));

    // 0x80
    cpu.inc_addr(0x01);
    assert_eq!(-127 as i8 as u8, cpu.fetch(0x01));
    assert_eq!(0x81, cpu.fetch(0x01));
    assert_eq!(false, cpu.flag(Flags::OverflowParity));
    assert_eq!(false, cpu.flag(Flags::Zero));
    assert_eq!(true, cpu.flag(Flags::Sign));
    assert_eq!(false, cpu.flag(Flags::HalfCarry));

    // 0xFF
    cpu.inc_addr(0x02);
    assert_eq!(0, cpu.fetch(0x02));
    assert_eq!(false, cpu.flag(Flags::OverflowParity));
    assert_eq!(true, cpu.flag(Flags::Zero));
    assert_eq!(false, cpu.flag(Flags::Sign));
    assert_eq!(true, cpu.flag(Flags::HalfCarry));

    // 0x7F
    cpu.inc_addr(0x03);
    assert_eq!(-128 as i8 as u8, cpu.fetch(0x03));
    assert_eq!(0x80, cpu.fetch(0x03));
    assert_eq!(true, cpu.flag(Flags::OverflowParity));
    assert_eq!(false, cpu.flag(Flags::Zero));
    assert_eq!(true, cpu.flag(Flags::Sign));
    assert_eq!(true, cpu.flag(Flags::HalfCarry));
}

#[test]
fn test_inc_reg16() {

    let mut cpu = cpu_from(Vec::new());
    let overflow = cpu.flag(Flags::OverflowParity);
    let sign = cpu.flag(Flags::Sign);
    let zero = cpu.flag(Flags::Zero);
    let carry = cpu.flag(Flags::Carry);
    let subtract = cpu.flag(Flags::Subtract);
    let halfcarry = cpu.flag(Flags::HalfCarry);

    cpu.set_reg_value_16(RegisterCode16::HL, 0);
    cpu.inc_reg16(RegisterCode16::HL);
    assert_eq!(1, cpu.reg_value_16(RegisterCode16::HL));
    assert_eq!(overflow, cpu.flag(Flags::OverflowParity));
    assert_eq!(sign, cpu.flag(Flags::Sign));
    assert_eq!(zero, cpu.flag(Flags::Zero));
    assert_eq!(carry, cpu.flag(Flags::Carry));
    assert_eq!(subtract, cpu.flag(Flags::Subtract));
    assert_eq!(halfcarry, cpu.flag(Flags::HalfCarry));

    cpu.set_reg_value_16(RegisterCode16::HL, 0xFFFF);
    cpu.inc_reg16(RegisterCode16::HL);
    assert_eq!(0, cpu.reg_value_16(RegisterCode16::HL));
    assert_eq!(overflow, cpu.flag(Flags::OverflowParity));
    assert_eq!(sign, cpu.flag(Flags::Sign));
    assert_eq!(zero, cpu.flag(Flags::Zero));
    assert_eq!(carry, cpu.flag(Flags::Carry));
    assert_eq!(subtract, cpu.flag(Flags::Subtract));
    assert_eq!(halfcarry, cpu.flag(Flags::HalfCarry));

    cpu.set_reg_value_16(RegisterCode16::HL, 0x7FFF);
    cpu.inc_reg16(RegisterCode16::HL);
    assert_eq!(0x8000, cpu.reg_value_16(RegisterCode16::HL));
    assert_eq!(overflow, cpu.flag(Flags::OverflowParity));
    assert_eq!(sign, cpu.flag(Flags::Sign));
    assert_eq!(zero, cpu.flag(Flags::Zero));
    assert_eq!(carry, cpu.flag(Flags::Carry));
    assert_eq!(subtract, cpu.flag(Flags::Subtract));
    assert_eq!(halfcarry, cpu.flag(Flags::HalfCarry));

    cpu.set_reg_value_16(RegisterCode16::HL, 0x8000);
    cpu.inc_reg16(RegisterCode16::HL);
    assert_eq!(-32767 as i16 as u16, cpu.reg_value_16(RegisterCode16::HL));
    assert_eq!(0x8001, cpu.reg_value_16(RegisterCode16::HL));
    assert_eq!(overflow, cpu.flag(Flags::OverflowParity));
    assert_eq!(sign, cpu.flag(Flags::Sign));
    assert_eq!(zero, cpu.flag(Flags::Zero));
    assert_eq!(carry, cpu.flag(Flags::Carry));
    assert_eq!(subtract, cpu.flag(Flags::Subtract));
    assert_eq!(halfcarry, cpu.flag(Flags::HalfCarry));
}

/* ----------------     test dec     ------------------- */
#[test]
fn tests_test_dec_reg() {
    let mut cpu = get_cpu();

    // test normal dec
    cpu.set_reg_value(RegisterCode::A, 1);
    cpu.dec_reg(RegisterCode::A);
    assert_eq!(0, cpu.reg_value(RegisterCode::A));
    assert_eq!(false, cpu.flag(Flags::OverflowParity));
    assert_eq!(true, cpu.flag(Flags::Zero));
    assert_eq!(false, cpu.flag(Flags::Sign));
    assert_eq!(false, cpu.flag(Flags::HalfCarry));
    assert_eq!(true, cpu.flag(Flags::Subtract));

    // test wrap around
    cpu.set_reg_value(RegisterCode::A, 0);
    cpu.dec_reg(RegisterCode::A);
    assert_eq!(0xFF, cpu.reg_value(RegisterCode::A));
    assert_eq!(false, cpu.flag(Flags::OverflowParity));
    assert_eq!(false, cpu.flag(Flags::Zero));
    assert_eq!(true, cpu.flag(Flags::Sign));
    assert_eq!(true, cpu.flag(Flags::HalfCarry));
    assert_eq!(true, cpu.flag(Flags::Subtract));

    // test wrap around
    cpu.set_reg_value(RegisterCode::A, 0x80);
    cpu.dec_reg(RegisterCode::A);
    assert_eq!(0x7F, cpu.reg_value(RegisterCode::A));
    assert_eq!(true, cpu.flag(Flags::OverflowParity));
    assert_eq!(false, cpu.flag(Flags::Zero));
    assert_eq!(false, cpu.flag(Flags::Sign));
    assert_eq!(true, cpu.flag(Flags::HalfCarry));
    assert_eq!(true, cpu.flag(Flags::Subtract));

    // test half adder
    cpu.set_reg_value(RegisterCode::A, 0b1011_0000);
    cpu.dec_reg(RegisterCode::A);
    assert_eq!(0b1010_1111, cpu.reg_value(RegisterCode::A));
    assert_eq!(false, cpu.flag(Flags::OverflowParity));
    assert_eq!(false, cpu.flag(Flags::Zero));
    assert_eq!(true, cpu.flag(Flags::Sign));
    assert_eq!(true, cpu.flag(Flags::HalfCarry));
    assert_eq!(true, cpu.flag(Flags::Subtract));
}

#[test]
fn test_dec_addr() {
    let mut cpu = cpu_from(vec![0x00, 0x80, 0xFF, 0x7F]);

    // 0x00
    cpu.dec_addr(0x00);
    assert_eq!(0xFF, cpu.fetch(0x00));
    assert_eq!(false, cpu.flag(Flags::OverflowParity));
    assert_eq!(false, cpu.flag(Flags::Zero));
    assert_eq!(true, cpu.flag(Flags::Sign));
    assert_eq!(true, cpu.flag(Flags::HalfCarry));
    assert_eq!(true, cpu.flag(Flags::Subtract));

    // 0x80
    cpu.dec_addr(0x01);
    assert_eq!(0x7F, cpu.fetch(0x01));
    assert_eq!(true, cpu.flag(Flags::OverflowParity));
    assert_eq!(false, cpu.flag(Flags::Zero));
    assert_eq!(false, cpu.flag(Flags::Sign));
    assert_eq!(true, cpu.flag(Flags::HalfCarry));
    assert_eq!(true, cpu.flag(Flags::Subtract));

    // 0xFF
    cpu.dec_addr(0x02);
    assert_eq!(0xFE, cpu.fetch(0x02));
    assert_eq!(false, cpu.flag(Flags::OverflowParity));
    assert_eq!(false, cpu.flag(Flags::Zero));
    assert_eq!(true, cpu.flag(Flags::Sign));
    assert_eq!(false, cpu.flag(Flags::HalfCarry));
    assert_eq!(true, cpu.flag(Flags::Subtract));

    // 0x7F
    cpu.dec_addr(0x03);
    assert_eq!(0x7E, cpu.fetch(0x03));
    assert_eq!(false, cpu.flag(Flags::OverflowParity));
    assert_eq!(false, cpu.flag(Flags::Zero));
    assert_eq!(false, cpu.flag(Flags::Sign));
    assert_eq!(false, cpu.flag(Flags::HalfCarry));
    assert_eq!(true, cpu.flag(Flags::Subtract));
}

#[test]
fn test_dec_reg16() {

    let mut cpu = cpu_from(Vec::new());
    let overflow = cpu.flag(Flags::OverflowParity);
    let sign = cpu.flag(Flags::Sign);
    let zero = cpu.flag(Flags::Zero);
    let carry = cpu.flag(Flags::Carry);
    let subtract = cpu.flag(Flags::Subtract);
    let halfcarry = cpu.flag(Flags::HalfCarry);

    cpu.set_reg_value_16(RegisterCode16::HL, 0x0001);
    cpu.dec_reg16(RegisterCode16::HL);
    assert_eq!(0x0000, cpu.reg_value_16(RegisterCode16::HL));
    assert_eq!(overflow, cpu.flag(Flags::OverflowParity));
    assert_eq!(sign, cpu.flag(Flags::Sign));
    assert_eq!(zero, cpu.flag(Flags::Zero));
    assert_eq!(carry, cpu.flag(Flags::Carry));
    assert_eq!(subtract, cpu.flag(Flags::Subtract));
    assert_eq!(halfcarry, cpu.flag(Flags::HalfCarry));

    cpu.set_reg_value_16(RegisterCode16::HL, 0x0000);
    cpu.dec_reg16(RegisterCode16::HL);
    assert_eq!(0xFFFF, cpu.reg_value_16(RegisterCode16::HL));
    assert_eq!(overflow, cpu.flag(Flags::OverflowParity));
    assert_eq!(sign, cpu.flag(Flags::Sign));
    assert_eq!(zero, cpu.flag(Flags::Zero));
    assert_eq!(carry, cpu.flag(Flags::Carry));
    assert_eq!(subtract, cpu.flag(Flags::Subtract));
    assert_eq!(halfcarry, cpu.flag(Flags::HalfCarry));

    cpu.set_reg_value_16(RegisterCode16::HL, 0xFFFF);
    cpu.dec_reg16(RegisterCode16::HL);
    assert_eq!(0xFFFE, cpu.reg_value_16(RegisterCode16::HL));
    assert_eq!(overflow, cpu.flag(Flags::OverflowParity));
    assert_eq!(sign, cpu.flag(Flags::Sign));
    assert_eq!(zero, cpu.flag(Flags::Zero));
    assert_eq!(carry, cpu.flag(Flags::Carry));
    assert_eq!(subtract, cpu.flag(Flags::Subtract));
    assert_eq!(halfcarry, cpu.flag(Flags::HalfCarry));
}

/* ----------------     test add     ------------------- */
#[test]
fn test_add_val_val() {
    let mut cpu = get_cpu();

    let result = cpu.add_val_val(0x00, 0x00, false);
    assert_eq!(0, result);
    assert_eq!(false, cpu.flag(Flags::OverflowParity));
    assert_eq!(true, cpu.flag(Flags::Zero));
    assert_eq!(false, cpu.flag(Flags::Sign));
    assert_eq!(false, cpu.flag(Flags::HalfCarry));
    assert_eq!(false, cpu.flag(Flags::Carry));
    assert_eq!(false, cpu.flag(Flags::Subtract));

    // test overflow to 0x80
    let result = cpu.add_val_val(0x70, 0x10, false);
    assert_eq!(0x80, result);
    assert_eq!(true, cpu.flag(Flags::OverflowParity));
    assert_eq!(false, cpu.flag(Flags::Zero));
    assert_eq!(true, cpu.flag(Flags::Sign));
    assert_eq!(false, cpu.flag(Flags::HalfCarry));
    assert_eq!(false, cpu.flag(Flags::Carry));
    assert_eq!(false, cpu.flag(Flags::Subtract));

    // test half carry
    let result = cpu.add_val_val(0b0000_1010, 0b0000_1110, false);
    assert_eq!(0b0001_1000, result);
    assert_eq!(false, cpu.flag(Flags::OverflowParity));
    assert_eq!(false, cpu.flag(Flags::Zero));
    assert_eq!(false, cpu.flag(Flags::Sign));
    assert_eq!(true, cpu.flag(Flags::HalfCarry));
    assert_eq!(false, cpu.flag(Flags::Carry));
    assert_eq!(false, cpu.flag(Flags::Subtract));

    // test wrap around
    let result = cpu.add_val_val(0xF1, 0x0F, false);
    assert_eq!(0, result);
    assert_eq!(false, cpu.flag(Flags::OverflowParity));
    assert_eq!(true, cpu.flag(Flags::Zero));
    assert_eq!(false, cpu.flag(Flags::Sign));
    assert_eq!(true, cpu.flag(Flags::HalfCarry));
    assert_eq!(true, cpu.flag(Flags::Carry));
    assert_eq!(false, cpu.flag(Flags::Subtract));

    // test val + 0
    let result = cpu.add_val_val(0x80, 0, false);
    assert_eq!(0x80, result);
    assert_eq!(false, cpu.flag(Flags::OverflowParity));
    assert_eq!(false, cpu.flag(Flags::Zero));
    assert_eq!(true, cpu.flag(Flags::Sign));
    assert_eq!(false, cpu.flag(Flags::HalfCarry));
    assert_eq!(false, cpu.flag(Flags::Carry));
    assert_eq!(false, cpu.flag(Flags::Subtract));

    let result = cpu.add_val_val(0x70, 0, false);
    assert_eq!(0x70, result);
    assert_eq!(false, cpu.flag(Flags::OverflowParity));
    assert_eq!(false, cpu.flag(Flags::Zero));
    assert_eq!(false, cpu.flag(Flags::Sign));
    assert_eq!(false, cpu.flag(Flags::HalfCarry));
    assert_eq!(false, cpu.flag(Flags::Carry));
    assert_eq!(false, cpu.flag(Flags::Subtract));
}

#[test]
fn tests_test_add_a_reg() {
    let mut cpu = get_cpu();

    cpu.set_reg_value(RegisterCode::A, 0xFF);
    cpu.set_reg_value(RegisterCode::B, 1);
    cpu.add_a_reg(RegisterCode::B);
    assert_eq!(0, cpu.reg_value(RegisterCode::A));
    assert_eq!(false, cpu.flag(Flags::OverflowParity));
    assert_eq!(true, cpu.flag(Flags::Zero));
    assert_eq!(false, cpu.flag(Flags::Sign));
    assert_eq!(true, cpu.flag(Flags::HalfCarry));
    assert_eq!(false, cpu.flag(Flags::Subtract));

    cpu.set_reg_value(RegisterCode::A, 0b11110110); // -10
    cpu.set_reg_value(RegisterCode::B, 15);
    cpu.add_a_reg(RegisterCode::B);
    assert_eq!(5, cpu.reg_value(RegisterCode::A));
    assert_eq!(false, cpu.flag(Flags::OverflowParity));
    assert_eq!(false, cpu.flag(Flags::Zero));
    assert_eq!(false, cpu.flag(Flags::Sign));
    assert_eq!(true, cpu.flag(Flags::HalfCarry));
    assert_eq!(false, cpu.flag(Flags::Subtract));

    cpu.set_reg_value(RegisterCode::A, 0b10011100); // -100
    cpu.set_reg_value(RegisterCode::B, 15);
    cpu.add_a_reg(RegisterCode::B);
    assert_eq!(-85, cpu.reg_value(RegisterCode::A) as i8);
    assert_eq!(false, cpu.flag(Flags::OverflowParity));
    assert_eq!(false, cpu.flag(Flags::Zero));
    assert_eq!(true, cpu.flag(Flags::Sign));
    assert_eq!(true, cpu.flag(Flags::HalfCarry));
    assert_eq!(false, cpu.flag(Flags::Subtract));

    cpu.set_reg_value(RegisterCode::A, 0x7F); // 127
    cpu.set_reg_value(RegisterCode::B, 1); // -> should wrap around and overflow
    cpu.add_a_reg(RegisterCode::B);
    assert_eq!(-128, cpu.reg_value(RegisterCode::A) as i8);
    assert_eq!(true, cpu.flag(Flags::OverflowParity));
    assert_eq!(false, cpu.flag(Flags::Zero));
    assert_eq!(true, cpu.flag(Flags::Sign));
    assert_eq!(true, cpu.flag(Flags::HalfCarry));
    assert_eq!(false, cpu.flag(Flags::Subtract));
}

#[test]
fn test_add_a_reg_carry() {

    let mut cpu = get_cpu();

    cpu.set_reg_value(RegisterCode::A, 0xFE);
    cpu.set_reg_value(RegisterCode::B, 1);
    cpu.set_flag(Flags::Carry, true);
    cpu.add_a_reg_carry(RegisterCode::B);
    assert_eq!(0, cpu.reg_value(RegisterCode::A));
    assert_eq!(false, cpu.flag(Flags::OverflowParity));
    assert_eq!(true, cpu.flag(Flags::Zero));
    assert_eq!(false, cpu.flag(Flags::Sign));
    assert_eq!(true, cpu.flag(Flags::HalfCarry));
    assert_eq!(true, cpu.flag(Flags::Carry));
    assert_eq!(false, cpu.flag(Flags::Subtract));

    cpu.set_reg_value(RegisterCode::A, 0b1111_0110); // -10
    cpu.set_reg_value(RegisterCode::B, 0b0000_1111);
    cpu.set_flag(Flags::Carry, true);
    cpu.add_a_reg_carry(RegisterCode::B);
    assert_eq!(6, cpu.reg_value(RegisterCode::A));
    assert_eq!(false, cpu.flag(Flags::OverflowParity));
    assert_eq!(false, cpu.flag(Flags::Zero));
    assert_eq!(false, cpu.flag(Flags::Sign));
    assert_eq!(true, cpu.flag(Flags::HalfCarry));
    assert_eq!(true, cpu.flag(Flags::Carry));
    assert_eq!(false, cpu.flag(Flags::Subtract));

    cpu.set_reg_value(RegisterCode::A, 0b10011100); // -100
    cpu.set_reg_value(RegisterCode::B, 0b1111);
    cpu.set_flag(Flags::Carry, true);
    cpu.add_a_reg_carry(RegisterCode::B);
    assert_eq!(-84, cpu.reg_value(RegisterCode::A) as i8);
    assert_eq!(false, cpu.flag(Flags::OverflowParity));
    assert_eq!(false, cpu.flag(Flags::Zero));
    assert_eq!(true, cpu.flag(Flags::Sign));
    assert_eq!(true, cpu.flag(Flags::HalfCarry));
    assert_eq!(false, cpu.flag(Flags::Carry));
    assert_eq!(false, cpu.flag(Flags::Subtract));

    // test wrap around
    cpu.set_reg_value(RegisterCode::A, 0x7F); // 127
    cpu.set_reg_value(RegisterCode::B, 0);
    cpu.set_flag(Flags::Carry, true);
    cpu.add_a_reg_carry(RegisterCode::B);
    assert_eq!(-128, cpu.reg_value(RegisterCode::A) as i8);
    assert_eq!(true, cpu.flag(Flags::OverflowParity));
    assert_eq!(false, cpu.flag(Flags::Zero));
    assert_eq!(true, cpu.flag(Flags::Sign));
    assert_eq!(true, cpu.flag(Flags::HalfCarry));
    assert_eq!(false, cpu.flag(Flags::Carry));
    assert_eq!(false, cpu.flag(Flags::Subtract));
}

#[test]
fn test_add_a_addr() {
    let mut cpu = cpu_from(vec![0x01]);

    cpu.set_reg_value(RegisterCode::A, 0xFF);
    cpu.add_a_addr(0);
    assert_eq!(0, cpu.reg_value(RegisterCode::A));
    assert_eq!(false, cpu.flag(Flags::OverflowParity));
    assert_eq!(true, cpu.flag(Flags::Zero));
    assert_eq!(false, cpu.flag(Flags::Sign));
    assert_eq!(true, cpu.flag(Flags::HalfCarry));
    assert_eq!(true, cpu.flag(Flags::Carry));
    assert_eq!(false, cpu.flag(Flags::Subtract));
}

/* ----------------     test sub     ------------------- */
#[test]
fn tests_test_sub_val_val() {
    let mut cpu = cpu_from(vec![]);

    // test value - value
    let result = cpu.sub_val_val(0x80, 0x80, false);
    assert_eq!(result, 0x00);
    assert_eq!(false, cpu.flag(Flags::OverflowParity));
    assert_eq!(true, cpu.flag(Flags::Zero));
    assert_eq!(false, cpu.flag(Flags::Sign));
    assert_eq!(false, cpu.flag(Flags::HalfCarry));
    assert_eq!(false, cpu.flag(Flags::Carry));
    assert_eq!(true, cpu.flag(Flags::Subtract));

    // test overflow
    let result = cpu.sub_val_val(0x80, 0x01, false);
    assert_eq!(result, 0x7F);
    assert_eq!(true, cpu.flag(Flags::OverflowParity));
    assert_eq!(false, cpu.flag(Flags::Zero));
    assert_eq!(false, cpu.flag(Flags::Sign));
    assert_eq!(true, cpu.flag(Flags::HalfCarry));
    assert_eq!(false, cpu.flag(Flags::Carry));
    assert_eq!(true, cpu.flag(Flags::Subtract));

    // test 0 - val
    let result = cpu.sub_val_val(0x00, 0x01, false);
    assert_eq!(result, 0xFF);
    assert_eq!(false, cpu.flag(Flags::OverflowParity));
    assert_eq!(false, cpu.flag(Flags::Zero));
    assert_eq!(true, cpu.flag(Flags::Sign));
    assert_eq!(true, cpu.flag(Flags::HalfCarry));
    assert_eq!(true, cpu.flag(Flags::Carry));
    assert_eq!(true, cpu.flag(Flags::Subtract));

    // test val - 0
    let result = cpu.sub_val_val(0x80, 0, false);
    assert_eq!(result, 0x80);
    assert_eq!(false, cpu.flag(Flags::OverflowParity));
    assert_eq!(false, cpu.flag(Flags::Zero));
    assert_eq!(true, cpu.flag(Flags::Sign));
    assert_eq!(false, cpu.flag(Flags::HalfCarry));
    assert_eq!(false, cpu.flag(Flags::Carry));
    assert_eq!(true, cpu.flag(Flags::Subtract));

    let result = cpu.sub_val_val(0x70, 0, false);
    assert_eq!(result, 0x70);
    assert_eq!(false, cpu.flag(Flags::OverflowParity));
    assert_eq!(false, cpu.flag(Flags::Zero));
    assert_eq!(false, cpu.flag(Flags::Sign));
    assert_eq!(false, cpu.flag(Flags::HalfCarry));
    assert_eq!(false, cpu.flag(Flags::Carry));
    assert_eq!(true, cpu.flag(Flags::Subtract));
}

#[test]
fn tests_test_sub_val_val_carry() {

    let mut cpu = cpu_from(vec![]);

    // test value - value
    cpu.set_flag(Flags::Carry, true);
    let result = cpu.sub_val_val(0x80, 0x80, true);
    assert_eq!(result, 0xFF);
    assert_eq!(false, cpu.flag(Flags::OverflowParity));
    assert_eq!(false, cpu.flag(Flags::Zero));
    assert_eq!(true, cpu.flag(Flags::Sign));
    assert_eq!(true, cpu.flag(Flags::HalfCarry));
    assert_eq!(true, cpu.flag(Flags::Carry));
    assert_eq!(true, cpu.flag(Flags::Subtract));

    // test overflow
    cpu.set_flag(Flags::Carry, true);
    let result = cpu.sub_val_val(0x80, 0x00, true);
    assert_eq!(result, 0x7F);
    assert_eq!(true, cpu.flag(Flags::OverflowParity));
    assert_eq!(false, cpu.flag(Flags::Zero));
    assert_eq!(false, cpu.flag(Flags::Sign));
    assert_eq!(true, cpu.flag(Flags::HalfCarry));
    assert_eq!(false, cpu.flag(Flags::Carry));
    assert_eq!(true, cpu.flag(Flags::Subtract));

    // test 0 - val
    cpu.set_flag(Flags::Carry, true);
    let result = cpu.sub_val_val(0x00, 0x00, true);
    assert_eq!(result, 0xFF);
    assert_eq!(false, cpu.flag(Flags::OverflowParity));
    assert_eq!(false, cpu.flag(Flags::Zero));
    assert_eq!(true, cpu.flag(Flags::Sign));
    assert_eq!(true, cpu.flag(Flags::HalfCarry));
    assert_eq!(true, cpu.flag(Flags::Carry));
    assert_eq!(true, cpu.flag(Flags::Subtract));

    // test val - 0
    cpu.set_flag(Flags::Carry, true);
    let result = cpu.sub_val_val(0x80, 0xFF, true);
    assert_eq!(result, 0x80);
    assert_eq!(false, cpu.flag(Flags::OverflowParity));
    assert_eq!(false, cpu.flag(Flags::Zero));
    assert_eq!(true, cpu.flag(Flags::Sign));
    // the borrow into bit 4 counts the carry-in: 0 < 0xF + 1
    assert_eq!(true, cpu.flag(Flags::HalfCarry));
    // the subtrahend with the carry-in, 0x100, exceeds 0x80
    assert_eq!(true, cpu.flag(Flags::Carry));
    assert_eq!(true, cpu.flag(Flags::Subtract));

    cpu.set_flag(Flags::Carry, true);
    let result = cpu.sub_val_val(0x00, 0x80, true);
    assert_eq!(result, 0x7F);
    assert_eq!(false, cpu.flag(Flags::OverflowParity));
    assert_eq!(false, cpu.flag(Flags::Zero));
    assert_eq!(false, cpu.flag(Flags::Sign));
    assert_eq!(true, cpu.flag(Flags::HalfCarry));
    assert_eq!(true, cpu.flag(Flags::Carry));
    assert_eq!(true, cpu.flag(Flags::Subtract));
}

#[test]
fn test_sbc_a_reg() {

    let mut cpu = cpu_from(vec![]);

    // test wrap around from carry
    cpu.set_reg_value(RegisterCode::A, 0x00);
    cpu.set_reg_value(RegisterCode::B, 0x00);
    cpu.set_flag(Flags::Carry, true);
    cpu.sub_a_reg_carry(RegisterCode::B);
    assert_eq!(0xFF, cpu.reg_value(RegisterCode::A));
    assert_eq!(false, cpu.flag(Flags::OverflowParity));
    assert_eq!(false, cpu.flag(Flags::Zero));
    assert_eq!(true, cpu.flag(Flags::Sign));
    assert_eq!(true, cpu.flag(Flags::HalfCarry));
    assert_eq!(true, cpu.flag(Flags::Carry));
    assert_eq!(true, cpu.flag(Flags::Subtract));

    // test a - b - carry == 0
    cpu.set_reg_value(RegisterCode::A, 0xFF);
    cpu.set_reg_value(RegisterCode::B, 0xFE);
    cpu.set_flag(Flags::Carry, true);
    cpu.sub_a_reg_carry(RegisterCode::B);
    assert_eq!(0x00, cpu.reg_value(RegisterCode::A));
    assert_eq!(false, cpu.flag(Flags::OverflowParity));
    assert_eq!(true, cpu.flag(Flags::Zero));
    assert_eq!(false, cpu.flag(Flags::Sign));
    assert_eq!(false, cpu.flag(Flags::HalfCarry));
    assert_eq!(false, cpu.flag(Flags::Carry));
    assert_eq!(true, cpu.flag(Flags::Subtract));

    // test a - b == 0
    cpu.set_reg_value(RegisterCode::A, 0x50);
    cpu.set_reg_value(RegisterCode::B, 0x50);
    cpu.set_flag(Flags::Carry, true);
    cpu.sub_a_reg_carry(RegisterCode::B);
    assert_eq!(0xFF, cpu.reg_value(RegisterCode::A));
    assert_eq!(false, cpu.flag(Flags::OverflowParity));
    assert_eq!(false, cpu.flag(Flags::Zero));
    assert_eq!(true, cpu.flag(Flags::Sign));
    assert_eq!(true, cpu.flag(Flags::HalfCarry));
    assert_eq!(true, cpu.flag(Flags::Carry));
    assert_eq!(true, cpu.flag(Flags::Subtract));

    // test 0 - (-1) - 1 == 0
    cpu.set_reg_value(RegisterCode::A, 0x00);
    cpu.set_reg_value(RegisterCode::B, 0xFF);
    cpu.set_flag(Flags::Carry, true);
    cpu.sub_a_reg_carry(RegisterCode::B);
    assert_eq!(0x00, cpu.reg_value(RegisterCode::A));
    assert_eq!(false, cpu.flag(Flags::OverflowParity));
    assert_eq!(true, cpu.flag(Flags::Zero));
    assert_eq!(false, cpu.flag(Flags::Sign));
    assert_eq!(true, cpu.flag(Flags::HalfCarry));
    // 0xFF plus the carry-in is 0x100, more than 0x00
    assert_eq!(true, cpu.flag(Flags::Carry));
    assert_eq!(true, cpu.flag(Flags::Subtract));

    // test val - (-1) - 1 == 0
    cpu.set_reg_value(RegisterCode::A, 0x50);
    cpu.set_reg_value(RegisterCode::B, 0xFF);
    cpu.set_flag(Flags::Carry, true);
    cpu.sub_a_reg_carry(RegisterCode::B);
    assert_eq!(0x50, cpu.reg_value(RegisterCode::A));
    assert_eq!(false, cpu.flag(Flags::OverflowParity));
    assert_eq!(false, cpu.flag(Flags::Zero));
    assert_eq!(false, cpu.flag(Flags::Sign));
    assert_eq!(true, cpu.flag(Flags::HalfCarry));
    // 0xFF plus the carry-in is 0x100, more than 0x50
    assert_eq!(true, cpu.flag(Flags::Carry));
    assert_eq!(true, cpu.flag(Flags::Subtract));
}

#[test]
fn tests_test_sbc_reg16_reg16() {
    let mut cpu = get_cpu();

    cpu.set_flag(Flags::Carry, true);
}
