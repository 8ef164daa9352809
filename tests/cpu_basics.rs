use sg1000::cpu::{Cpu, TriStateLogic};
use sg1000::memory::{Bus, Device};
use sg1000::registers::{Flags, RegisterCode, RegisterCode16};

fn cpu_with(bytes: Vec<u8>) -> Cpu {
    Cpu::new(Bus::new(vec![Device::from(bytes)]), Bus::default_bus())
}

fn get_cpu() -> Cpu {
    cpu_with(vec![0xab, 0xcd, 0xef])
}

#[test]
fn cpu_test_inc_clock() {
    let mut cpu = cpu_with(Vec::new());
    assert_eq!(0, cpu.clock());

    cpu.inc_clock();
    assert_eq!(1, cpu.clock());

    cpu.inc_clock_n(5);
    assert_eq!(6, cpu.clock());

    let mut cpu = cpu_with(Vec::new());
    cpu.tick_clock(1);
    assert_eq!(1, cpu.clock());
    cpu.tick_clock(5);
    assert_eq!(6, cpu.clock());
}

#[test]
fn test_read_write() {
    let mut cpu = cpu_with(Vec::new());
    assert_eq!(TriStateLogic::Disconnect, cpu.read_write());

    cpu.set_read_write(TriStateLogic::On);
    assert_eq!(TriStateLogic::On, cpu.read_write());
}

#[test]
fn cpu_test_set_reg_a() {
    let mut cpu = cpu_with(Vec::new());
    cpu.set_reg_value(RegisterCode::A, 10);
    assert_eq!(10, cpu.reg_value(RegisterCode::A));
}

#[test]
fn cpu_test_register_16() {
    let mut cpu = cpu_with(Vec::new());
    cpu.set_reg_value(RegisterCode::B, 0xBB);
    cpu.set_reg_value(RegisterCode::C, 0xCC);
    assert_eq!(0xBBCC, cpu.reg_value_16(RegisterCode16::BC));
}

#[test]
fn cpu_test_immediate_addressing() {
    let mut cpu = cpu_with(vec![0xab, 0xbc, 0xde]);

    assert_eq!(0xab, cpu.imm_addr());
}

#[test]
fn cpu_test_immediate_extended_addressing() {
    let mut cpu = cpu_with(vec![0xab, 0xcd, 0xef]);

    assert_eq!(0xcdab, cpu.imm_addr_ex());
}

#[test]
fn cpu_test_relative_addressing() {
    let mut cpu = cpu_with(vec![0xff, 0xff, 0]);
    assert_eq!(0, cpu.rel_addr());

    let pc = cpu.get_pc() as i16;
    let pc = (pc + 1 - 1) as u16;
    assert_eq!(pc, cpu.rel_addr());
}

#[test]
fn cpu_test_relative_addressing_pc_cast_is_neg() {
    let mut vec = Vec::with_capacity(0xff + 5);
    vec.resize(0xff + 5, 0u8);
    for i in 0..0xff + 5 {
        vec[i] = (i % 0xff) as u8;
    }

    let mut cpu = cpu_with(vec);
    cpu.set_pc(0xf0);
    assert_eq!(0xf1 - 16, cpu.rel_addr());
}

#[test]
fn cpu_test_extended_addressing() {
    let mut cpu = get_cpu();

    assert_eq!(0xcdab, cpu.ext_addr());
}

#[test]
fn cpu_test_register_indexed_addressing() {
    let mut cpu = get_cpu();
    cpu.set_reg_value_16(RegisterCode16::IY, 0xa015);

    // 0xAB = -85
    assert_eq!(0xa015 - 85, cpu.index_addr(RegisterCode16::IY));
}

#[test]
fn test_reg_indirect_addr() {
    let mut cpu = get_cpu();
    cpu.set_reg_value(RegisterCode::H, 0xab);
    cpu.set_reg_value(RegisterCode::L, 0xcd);

    assert_eq!(0xabcd, cpu.indirect_reg_addr(RegisterCode16::HL));
}

#[test]
fn cpu_test_indirect_reg_addr() {
    let mut cpu = get_cpu();
    cpu.set_reg_value(RegisterCode::H, 0xab);
    cpu.set_reg_value(RegisterCode::L, 0xcd);

    assert_eq!(0xabcd, cpu.indirect_reg_addr(RegisterCode16::HL));
}

#[test]
fn cpu_test_set_flags() {
    let mut cpu = get_cpu();

    cpu.set_flag(Flags::Carry, false);
    assert_eq!(0, cpu.reg_value(RegisterCode::Flags) & 1);
    cpu.set_flag(Flags::Carry, true);
    assert_eq!(1, cpu.reg_value(RegisterCode::Flags) & 1);

    cpu.set_flag(Flags::Sign, false);
    assert_eq!(0, (cpu.reg_value(RegisterCode::Flags) >> 7) & 1);

    cpu.set_flag(Flags::Sign, true);
    assert_eq!(1, (cpu.reg_value(RegisterCode::Flags) >> 7) & 1);
}

#[test]
fn cpu_test_get_flags() {
    let mut cpu = get_cpu();

    cpu.set_reg_value(RegisterCode::Flags, 0b10);
    assert_eq!(true, cpu.flag(Flags::Subtract));

    cpu.set_reg_value(RegisterCode::Flags, 0b11110);
    assert_eq!(false, cpu.flag(Flags::Carry));
}

#[test]
fn cpu_test_inc_reg() {
    let mut cpu = get_cpu();

    // test normal
    cpu.set_reg_value(RegisterCode::A, 0x0);
    cpu.inc_reg(RegisterCode::A);
    assert_eq!(1, cpu.reg_value(RegisterCode::A));
    assert_eq!(false, cpu.flag(Flags::OverflowParity));
    assert_eq!(false, cpu.flag(Flags::Zero));
    assert_eq!(false, cpu.flag(Flags::Sign));
    assert_eq!(false, cpu.flag(Flags::HalfCarry));
    assert_eq!(false, cpu.flag(Flags::Subtract));

    // test half carry flag
    cpu.set_reg_value(RegisterCode::A, 0b1101_1111);
    cpu.inc_reg(RegisterCode::A);
    assert_eq!(0b1110_0000, cpu.reg_value(RegisterCode::A));
    assert_eq!(false, cpu.flag(Flags::OverflowParity));
    assert_eq!(false, cpu.flag(Flags::Zero));
    assert_eq!(true, cpu.flag(Flags::Sign));
    assert_eq!(true, cpu.flag(Flags::HalfCarry));

    // test overflow
    cpu.set_reg_value(RegisterCode::A, 0xFF);
    cpu.inc_reg(RegisterCode::A);
    assert_eq!(0, cpu.reg_value(RegisterCode::A));
    assert_eq!(false, cpu.flag(Flags::OverflowParity));
    assert_eq!(true, cpu.flag(Flags::Zero));
    assert_eq!(false, cpu.flag(Flags::Sign));
    assert_eq!(true, cpu.flag(Flags::HalfCarry));

    // test wrap around to negative
    cpu.set_reg_value(RegisterCode::A, 0x7F);
    cpu.inc_reg(RegisterCode::A);
    assert_eq!(-128, cpu.reg_value(RegisterCode::A) as i8);
    assert_eq!(true, cpu.flag(Flags::OverflowParity));
    assert_eq!(false, cpu.flag(Flags::Zero));
    assert_eq!(true, cpu.flag(Flags::Sign));
    assert_eq!(true, cpu.flag(Flags::HalfCarry));
}

#[test]
fn cpu_test_dec_reg() {
    let mut cpu = get_cpu();

    // test normal dec
    cpu.set_reg_value(RegisterCode::A, 1);
    cpu.dec_reg(RegisterCode::A);
    assert_eq!(0, cpu.reg_value(RegisterCode::A));
    assert_eq!(false, cpu.flag(Flags::OverflowParity));
    assert_eq!(true, cpu.flag(Flags::Zero));
    assert_eq!(false, cpu.flag(Flags::Sign));
    assert_eq!(false, cpu.flag(Flags::HalfCarry));
    assert_eq!(true, cpu.flag(Flags::Subtract));

    // test wrap around
    cpu.set_reg_value(RegisterCode::A, 0);
    cpu.dec_reg(RegisterCode::A);
    assert_eq!(0xFF, cpu.reg_value(RegisterCode::A));
    assert_eq!(false, cpu.flag(Flags::OverflowParity));
    assert_eq!(false, cpu.flag(Flags::Zero));
    assert_eq!(true, cpu.flag(Flags::Sign));
    assert_eq!(true, cpu.flag(Flags::HalfCarry));
    assert_eq!(true, cpu.flag(Flags::Subtract));

    // test wrap around
    cpu.set_reg_value(RegisterCode::A, 0x80);
    cpu.dec_reg(RegisterCode::A);
    assert_eq!(0x7F, cpu.reg_value(RegisterCode::A));
    assert_eq!(true, cpu.flag(Flags::OverflowParity));
    assert_eq!(false, cpu.flag(Flags::Zero));
    assert_eq!(false, cpu.flag(Flags::Sign));
    assert_eq!(true, cpu.flag(Flags::HalfCarry));
    assert_eq!(true, cpu.flag(Flags::Subtract));

    // test half adder
    cpu.set_reg_value(RegisterCode::A, 0b1011_0000);
    cpu.dec_reg(RegisterCode::A);
    assert_eq!(0b1010_1111, cpu.reg_value(RegisterCode::A));
    assert_eq!(false, cpu.flag(Flags::OverflowParity));
    assert_eq!(false, cpu.flag(Flags::Zero));
    assert_eq!(true, cpu.flag(Flags::Sign));
    assert_eq!(true, cpu.flag(Flags::HalfCarry));
    assert_eq!(true, cpu.flag(Flags::Subtract));
}

#[test]
fn cpu_test_add_a_reg() {
    let mut cpu = get_cpu();

    cpu.set_reg_value(RegisterCode::A, 0xFF);
    cpu.set_reg_value(RegisterCode::B, 1);
    cpu.add_a_reg(RegisterCode::B);
    assert_eq!(0, cpu.reg_value(RegisterCode::A));
    assert_eq!(false, cpu.flag(Flags::OverflowParity));
    assert_eq!(true, cpu.flag(Flags::Zero));
    assert_eq!(false, cpu.flag(Flags::Sign));
    assert_eq!(true, cpu.flag(Flags::HalfCarry));
    assert_eq!(false, cpu.flag(Flags::Subtract));

    cpu.set_reg_value(RegisterCode::A, 0b11110110); // -10
    cpu.set_reg_value(RegisterCode::B, 15);
    cpu.add_a_reg(RegisterCode::B);
    assert_eq!(5, cpu.reg_value(RegisterCode::A));
    assert_eq!(false, cpu.flag(Flags::OverflowParity));
    assert_eq!(false, cpu.flag(Flags::Zero));
    assert_eq!(false, cpu.flag(Flags::Sign));
    assert_eq!(true, cpu.flag(Flags::HalfCarry));
    assert_eq!(false, cpu.flag(Flags::Subtract));

    cpu.set_reg_value(RegisterCode::A, 0b10011100); // -100
    cpu.set_reg_value(RegisterCode::B, 15);
    cpu.add_a_reg(RegisterCode::B);
    assert_eq!(-85, cpu.reg_value(RegisterCode::A) as i8);
    assert_eq!(false, cpu.flag(Flags::OverflowParity));
    assert_eq!(false, cpu.flag(Flags::Zero));
    assert_eq!(true, cpu.flag(Flags::Sign));
    assert_eq!(true, cpu.flag(Flags::HalfCarry));
    assert_eq!(false, cpu.flag(Flags::Subtract));

    cpu.set_reg_value(RegisterCode::A, 0x7F); // 127
    cpu.set_reg_value(RegisterCode::B, 1); // -> should wrap around and overflow
    cpu.add_a_reg(RegisterCode::B);
    assert_eq!(-128, cpu.reg_value(RegisterCode::A) as i8);
    assert_eq!(true, cpu.flag(Flags::OverflowParity));
    assert_eq!(false, cpu.flag(Flags::Zero));
    assert_eq!(true, cpu.flag(Flags::Sign));
    assert_eq!(true, cpu.flag(Flags::HalfCarry));
    assert_eq!(false, cpu.flag(Flags::Subtract));
}

#[test]
fn cpu_test_sub_val_val() {
    let mut cpu = get_cpu();

    let result = cpu.sub_val_val(127, 0xC0, false);
    assert_eq!(191, result);
    assert_eq!(true, cpu.flag(Flags::OverflowParity));

    let result = cpu.sub_val_val(127, 5, false);
    assert_eq!(122, result);
    assert_eq!(false, cpu.flag(Flags::OverflowParity));

    let result = cpu.sub_val_val(1, 0xFF, false);
    assert_eq!(2, result);
    assert_eq!(false, cpu.flag(Flags::Zero));

    let result = cpu.sub_val_val(0xC0, 0xFF, false);
    assert_eq!(-63, result as i8);
    assert_eq!(false, cpu.flag(Flags::Zero));
}

#[test]
fn cpu_test_sub_val_val_carry() {
    let mut cpu = get_cpu();

    let result = cpu.sub_val_val(127, 0xC0, true);
    assert_eq!(191 - 1, result);
    assert_eq!(true, cpu.flag(Flags::OverflowParity));

    let result = cpu.sub_val_val(127, 5, true);
    assert_eq!(121, result);
    assert_eq!(false, cpu.flag(Flags::OverflowParity));

    let result = cpu.sub_val_val(1, 0xFF, true);
    assert_eq!(1, result);
    assert_eq!(false, cpu.flag(Flags::OverflowParity));
}

#[test]
fn cpu_test_sbc_reg16_reg16() {
    let mut cpu = get_cpu();

    cpu.set_flag(Flags::Carry, true);
}
