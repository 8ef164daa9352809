use sg1000::alu;
use sg1000::cpu::Cpu;
use sg1000::memory::{Bus, Device};
use sg1000::registers::{FlagSet, Flags, RegisterCode, RegisterCode16, Registers};

fn cpu_with(mut program: Vec<u8>) -> Cpu {
    program.resize(0x400, 0);
    Cpu::new(Bus::new(vec![Device::from(program)]), Bus::default_bus())
}

fn steps(cpu: &mut Cpu, n: usize) {
    for _ in 0..n {
        cpu.do_operation();
    }
}

#[test]
fn register_pair_composes_and_splits() {
    let mut regs = Registers::new(0);
    regs.set_reg_value_16(RegisterCode16::HL, 0xF00F);
    assert_eq!(0xF0, regs.reg_value(RegisterCode::H));
    assert_eq!(0x0F, regs.reg_value(RegisterCode::L));
    regs.set_reg_value(RegisterCode::D, 0x12);
    regs.set_reg_value(RegisterCode::E, 0x34);
    assert_eq!(0x1234, regs.reg_value_16(RegisterCode16::DE));
    regs.set_reg_value_16(RegisterCode16::AF, 0xABD7);
    assert_eq!(0xAB, regs.reg_value(RegisterCode::A));
    assert_eq!(0xD7, regs.reg_value(RegisterCode::Flags));
    assert_eq!(0xABD7, regs.reg_value_16(RegisterCode16::AF));
    regs.set_reg_value(RegisterCode::IXh, 0x9A);
    regs.set_reg_value(RegisterCode::IXl, 0xBC);
    assert_eq!(0x9ABC, regs.reg_value_16(RegisterCode16::IX));
}

#[test]
fn flag_byte_round_trips() {
    for v in 0..=255u8 {
        assert_eq!(v, FlagSet::from_byte(v).to_byte());
    }
}

#[test]
fn arithmetic_flags_depend_on_operands_and_carry_only() {
    let quiet = FlagSet::from_byte(0x01);
    let noisy = FlagSet::from_byte(0xFF);
    assert_eq!(alu::add8(0x3C, 0xC4, true, quiet).0, alu::add8(0x3C, 0xC4, true, noisy).0);
    let a = alu::add8(0x3C, 0xC4, true, quiet).1;
    let b = alu::add8(0x3C, 0xC4, true, noisy).1;
    assert_eq!((a.sign, a.zero, a.half_carry, a.parity_overflow, a.subtract, a.carry),
        (b.sign, b.zero, b.half_carry, b.parity_overflow, b.subtract, b.carry));
    assert_eq!((0x01, true, true, false, false, true),
        (alu::add8(0x3C, 0xC4, true, quiet).0, a.carry, a.half_carry, a.zero, a.sign, a.carry));
}

#[test]
fn push_then_pop_restores_pair_and_sp() {
    // LD SP,0x0300; LD BC,0x1234; PUSH BC; LD BC,0; POP BC
    let mut cpu = cpu_with(vec![0x31, 0x00, 0x03, 0x01, 0x34, 0x12, 0xC5, 0x01, 0x00, 0x00, 0xC1]);
    steps(&mut cpu, 3);
    assert_eq!(0x02FE, cpu.reg_value_16(RegisterCode16::SP));
    steps(&mut cpu, 2);
    assert_eq!(0x1234, cpu.reg_value_16(RegisterCode16::BC));
    assert_eq!(0x0300, cpu.reg_value_16(RegisterCode16::SP));
    assert_eq!(0x34, cpu.fetch(0x02FE));
    assert_eq!(0x12, cpu.fetch(0x02FF));
}

#[test]
fn push_pop_af_keeps_every_flag_bit() {
    let mut cpu = cpu_with(vec![0xF5, 0xF1]);
    cpu.set_reg_value_16(RegisterCode16::SP, 0x200);
    cpu.set_reg_value_16(RegisterCode16::AF, 0x7EFF);
    steps(&mut cpu, 2);
    assert_eq!(0x7EFF, cpu.reg_value_16(RegisterCode16::AF));
}

#[test]
fn ex_sp_hl_twice_restores_hl_and_memory() {
    let mut program = vec![0xE3, 0xE3];
    program.resize(0x400, 0);
    program[0x300] = 0x11;
    program[0x301] = 0x22;
    let mut cpu = Cpu::new(Bus::new(vec![Device::from(program)]), Bus::default_bus());
    cpu.set_reg_value_16(RegisterCode16::SP, 0x300);
    cpu.set_reg_value_16(RegisterCode16::HL, 0xBEEF);
    steps(&mut cpu, 1);
    assert_eq!(0x2211, cpu.reg_value_16(RegisterCode16::HL));
    assert_eq!(0xEF, cpu.fetch(0x300));
    assert_eq!(0xBE, cpu.fetch(0x301));
    steps(&mut cpu, 1);
    assert_eq!(0xBEEF, cpu.reg_value_16(RegisterCode16::HL));
    assert_eq!(0x11, cpu.fetch(0x300));
    assert_eq!(0x22, cpu.fetch(0x301));
}

#[test]
fn exx_twice_restores_main_registers() {
    let mut cpu = cpu_with(vec![0xD9, 0xD9]);
    cpu.set_reg_value_16(RegisterCode16::BC, 0x0102);
    cpu.set_reg_value_16(RegisterCode16::DE, 0x0304);
    cpu.set_reg_value_16(RegisterCode16::HL, 0x0506);
    steps(&mut cpu, 1);
    assert_eq!(0, cpu.reg_value_16(RegisterCode16::BC));
    assert_eq!(0, cpu.reg_value_16(RegisterCode16::HL));
    steps(&mut cpu, 1);
    assert_eq!(0x0102, cpu.reg_value_16(RegisterCode16::BC));
    assert_eq!(0x0304, cpu.reg_value_16(RegisterCode16::DE));
    assert_eq!(0x0506, cpu.reg_value_16(RegisterCode16::HL));
}

#[test]
fn neg_twice_gives_back_a() {
    for a in [0u8, 1, 0x7F, 0x80, 0x81, 0xFF] {
        let mut cpu = cpu_with(vec![0xED, 0x44, 0xED, 0x44]);
        cpu.set_reg_value(RegisterCode::A, a);
        steps(&mut cpu, 1);
        assert_eq!(a.wrapping_neg(), cpu.reg_value(RegisterCode::A));
        assert_eq!(a != 0, cpu.flag(Flags::Carry));
        assert_eq!(a == 0x80, cpu.flag(Flags::OverflowParity));
        assert!(cpu.flag(Flags::Subtract));
        steps(&mut cpu, 1);
        assert_eq!(a, cpu.reg_value(RegisterCode::A));
    }
}

#[test]
fn ldir_copies_n_bytes_and_clears_bc() {
    // LD HL,0x0100; LD DE,0x0200; LD BC,5; LDIR
    let mut program = vec![0x21, 0x00, 0x01, 0x11, 0x00, 0x02, 0x01, 0x05, 0x00, 0xED, 0xB0];
    program.resize(0x400, 0);
    for i in 0..5 {
        program[0x100 + i] = 0xA0 + i as u8;
    }
    let mut cpu = Cpu::new(Bus::new(vec![Device::from(program)]), Bus::default_bus());
    steps(&mut cpu, 3);
    let mut iterations = 0;
    while cpu.get_pc() <= 9 {
        cpu.do_operation();
        iterations += 1;
    }
    assert_eq!(5, iterations);
    assert_eq!(0, cpu.reg_value_16(RegisterCode16::BC));
    assert!(!cpu.flag(Flags::OverflowParity));
    for i in 0..5u16 {
        assert_eq!(0xA0 + i as u8, cpu.fetch(0x200 + i));
    }
    assert_eq!(0, cpu.fetch(0x205));
    assert_eq!(0x105, cpu.reg_value_16(RegisterCode16::HL));
    assert_eq!(0x205, cpu.reg_value_16(RegisterCode16::DE));
}

#[test]
fn ldir_repeat_costs_five_more_t_states() {
    let mut cpu = cpu_with(vec![0xED, 0xB0]);
    cpu.set_reg_value_16(RegisterCode16::BC, 2);
    assert_eq!(21, cpu.do_operation());
    assert_eq!(0, cpu.get_pc());
    assert_eq!(16, cpu.do_operation());
    assert_eq!(2, cpu.get_pc());
}

#[test]
fn cpir_stops_at_first_match() {
    let mut program = vec![0xED, 0xB1];
    program.resize(0x400, 0);
    program[0x100..0x105].copy_from_slice(&[7, 8, 9, 9, 1]);
    let mut cpu = Cpu::new(Bus::new(vec![Device::from(program)]), Bus::default_bus());
    cpu.set_reg_value(RegisterCode::A, 9);
    cpu.set_reg_value_16(RegisterCode16::HL, 0x100);
    cpu.set_reg_value_16(RegisterCode16::BC, 5);
    let mut iterations = 0;
    while cpu.get_pc() < 2 {
        cpu.do_operation();
        iterations += 1;
    }
    assert_eq!(3, iterations);
    assert!(cpu.flag(Flags::Zero));
    assert_eq!(0x103, cpu.reg_value_16(RegisterCode16::HL));
    assert_eq!(2, cpu.reg_value_16(RegisterCode16::BC));
}

#[test]
fn cpir_stops_when_count_runs_out() {
    let mut program = vec![0xED, 0xB1];
    program.resize(0x400, 0);
    program[0x100..0x103].copy_from_slice(&[7, 8, 9]);
    let mut cpu = Cpu::new(Bus::new(vec![Device::from(program)]), Bus::default_bus());
    cpu.set_reg_value(RegisterCode::A, 0x55);
    cpu.set_reg_value_16(RegisterCode16::HL, 0x100);
    cpu.set_reg_value_16(RegisterCode16::BC, 3);
    let mut iterations = 0;
    while cpu.get_pc() < 2 {
        cpu.do_operation();
        iterations += 1;
    }
    assert_eq!(3, iterations);
    assert!(!cpu.flag(Flags::Zero));
    assert!(!cpu.flag(Flags::OverflowParity));
    assert_eq!(0, cpu.reg_value_16(RegisterCode16::BC));
}

#[test]
fn clock_never_goes_back() {
    let mut cpu = cpu_with(vec![0x00, 0x3E, 0x05, 0x21, 0x00, 0x01, 0x34, 0xC3, 0x00, 0x00]);
    let mut last = cpu.clock();
    let expected = [4u64, 7, 10, 11, 10];
    for &t in expected.iter() {
        let spent = cpu.do_operation();
        assert_eq!(t, spent);
        assert_eq!(last + t, cpu.clock());
        last = cpu.clock();
    }
}

#[test]
fn indexed_load_takes_displacement_and_costs_nineteen() {
    // LD IX,0x0100; LD A,(IX+2); LD (IX-1),A
    let mut program = vec![0xDD, 0x21, 0x00, 0x01, 0xDD, 0x7E, 0x02, 0xDD, 0x77, 0xFF];
    program.resize(0x400, 0);
    program[0x102] = 0x5C;
    let mut cpu = Cpu::new(Bus::new(vec![Device::from(program)]), Bus::default_bus());
    assert_eq!(14, cpu.do_operation());
    assert_eq!(19, cpu.do_operation());
    assert_eq!(0x5C, cpu.reg_value(RegisterCode::A));
    assert_eq!(19, cpu.do_operation());
    assert_eq!(0x5C, cpu.fetch(0xFF));
}

#[test]
fn indexed_bits_work_on_memory() {
    // LD IY,0x0100; SET 3,(IY+1); BIT 3,(IY+1)
    let mut program = vec![0xFD, 0x21, 0x00, 0x01, 0xFD, 0xCB, 0x01, 0xDE, 0xFD, 0xCB, 0x01, 0x5E];
    program.resize(0x400, 0);
    let mut cpu = Cpu::new(Bus::new(vec![Device::from(program)]), Bus::default_bus());
    steps(&mut cpu, 1);
    assert_eq!(23, cpu.do_operation());
    assert_eq!(0x08, cpu.fetch(0x101));
    assert_eq!(0, cpu.reg_value(RegisterCode::B));
    assert_eq!(20, cpu.do_operation());
    assert!(!cpu.flag(Flags::Zero));
}

#[test]
fn daa_adjusts_bcd_sum() {
    // LD A,0x15; ADD A,0x27; DAA
    let mut cpu = cpu_with(vec![0x3E, 0x15, 0xC6, 0x27, 0x27]);
    steps(&mut cpu, 3);
    assert_eq!(0x42, cpu.reg_value(RegisterCode::A));
    assert!(!cpu.flag(Flags::Carry));
    // LD A,0x99; ADD A,0x01; DAA
    let mut cpu = cpu_with(vec![0x3E, 0x99, 0xC6, 0x01, 0x27]);
    steps(&mut cpu, 3);
    assert_eq!(0x00, cpu.reg_value(RegisterCode::A));
    assert!(cpu.flag(Flags::Carry));
    assert!(cpu.flag(Flags::Zero));
}

#[test]
fn rotates_and_shifts() {
    let f = FlagSet::from_byte(0);
    assert_eq!(0x03, alu::rlc(0x81, f).0);
    assert!(alu::rlc(0x81, f).1.carry);
    assert_eq!(0xC0, alu::rrc(0x81, f).0);
    assert_eq!(0x02, alu::rl(0x81, f).0);
    assert_eq!(0x40, alu::rr(0x81, f).0);
    assert_eq!(0x02, alu::sla(0x81, f).0);
    assert_eq!(0x03, alu::sll(0x81, f).0);
    assert_eq!(0xC0, alu::sra(0x81, f).0);
    assert_eq!(0x40, alu::srl(0x81, f).0);
    assert!(alu::srl(0x81, f).1.carry);
    assert!(alu::parity_even(0x03));
    assert!(!alu::parity_even(0x07));
}

#[test]
fn logic_ops_set_parity_and_clear_carry() {
    let f = FlagSet::from_byte(0xFF);
    let (v, g) = alu::and8(0xF0, 0x3C, f);
    assert_eq!(0x30, v);
    assert!(g.half_carry && g.parity_overflow && !g.carry && !g.subtract);
    let (v, g) = alu::xor8(0xFF, 0xFE, f);
    assert_eq!(0x01, v);
    assert!(!g.half_carry && !g.parity_overflow && !g.carry);
    let (v, g) = alu::or8(0, 0, f);
    assert_eq!(0, v);
    assert!(g.zero && g.parity_overflow);
}

#[test]
fn sixteen_bit_arithmetic_flags() {
    let f = FlagSet::from_byte(0);
    let (v, g) = alu::add16(0x0FFF, 0x0001, f);
    assert_eq!(0x1000, v);
    assert!(g.half_carry && !g.carry);
    let (v, g) = alu::adc16(0xFFFF, 0x0000, true, f);
    assert_eq!(0, v);
    assert!(g.zero && g.carry);
    let (v, g) = alu::sbc16(0x0000, 0x0001, false, f);
    assert_eq!(0xFFFF, v);
    assert!(g.carry && g.sign && g.subtract);
    let (v, g) = alu::sbc16(0x8000, 0x0001, false, f);
    assert_eq!(0x7FFF, v);
    assert!(g.parity_overflow);
}

#[test]
fn nmi_pushes_pc_and_jumps() {
    let mut cpu = cpu_with(vec![0x00, 0x00]);
    cpu.set_reg_value_16(RegisterCode16::SP, 0x200);
    steps(&mut cpu, 1);
    cpu.set_nomask_interrupt(true);
    assert_eq!(11, cpu.do_operation());
    assert_eq!(0x66, cpu.get_pc());
    assert_eq!(0x1FE, cpu.reg_value_16(RegisterCode16::SP));
    assert_eq!(0x01, cpu.fetch(0x1FE));
    assert_eq!(0x00, cpu.fetch(0x1FF));
}

#[test]
fn irq_waits_for_ei_grace_and_wakes_halt() {
    // EI; NOP; HALT
    let mut cpu = cpu_with(vec![0xFB, 0x00, 0x76]);
    cpu.set_reg_value_16(RegisterCode16::SP, 0x200);
    cpu.set_mask_interrupt(true);
    steps(&mut cpu, 1);
    assert_eq!(1, cpu.get_pc());
    steps(&mut cpu, 1);
    assert_eq!(2, cpu.get_pc());
    steps(&mut cpu, 1);
    assert_eq!(0x38, cpu.get_pc());
    assert!(!cpu.is_halted());

    let mut cpu = cpu_with(vec![0x76]);
    steps(&mut cpu, 1);
    assert!(cpu.is_halted());
    assert_eq!(4, cpu.do_operation());
    assert_eq!(1, cpu.get_pc());
    cpu.set_mask_interrupt(true);
    steps(&mut cpu, 1);
    assert!(cpu.is_halted());
    cpu.request_reset();
    assert_eq!(0, cpu.do_operation());
    assert_eq!(0, cpu.get_pc());
    assert!(!cpu.is_halted());
}

#[test]
fn call_ret_and_rst() {
    // CALL 0x0010; (0x0003) HALT ... (0x0010) RST 0x28 ... (0x0028) RET ; then RET
    let mut program = vec![0xCD, 0x10, 0x00, 0x76];
    program.resize(0x400, 0);
    program[0x10] = 0xEF;
    program[0x11] = 0xC9;
    program[0x28] = 0xC9;
    let mut cpu = Cpu::new(Bus::new(vec![Device::from(program)]), Bus::default_bus());
    cpu.set_reg_value_16(RegisterCode16::SP, 0x300);
    assert_eq!(17, cpu.do_operation());
    assert_eq!(0x10, cpu.get_pc());
    assert_eq!(11, cpu.do_operation());
    assert_eq!(0x28, cpu.get_pc());
    assert_eq!(10, cpu.do_operation());
    assert_eq!(0x11, cpu.get_pc());
    assert_eq!(10, cpu.do_operation());
    assert_eq!(0x03, cpu.get_pc());
    assert_eq!(0x300, cpu.reg_value_16(RegisterCode16::SP));
}

#[test]
fn unknown_extended_opcode_is_a_no_op() {
    let mut cpu = cpu_with(vec![0xED, 0x00, 0x3C]);
    assert_eq!(8, cpu.do_operation());
    assert_eq!(2, cpu.get_pc());
    steps(&mut cpu, 1);
    assert_eq!(1, cpu.reg_value(RegisterCode::A));
}

#[test]
fn add_with_carry_needs_the_carry_flag() {
    let mut cpu = cpu_with(vec![]);
    cpu.set_flag(Flags::Carry, false);
    assert_eq!(2, cpu.add_val_val(1, 1, true));
    cpu.set_flag(Flags::Carry, true);
    assert_eq!(3, cpu.add_val_val(1, 1, true));
    cpu.set_flag(Flags::Carry, true);
    assert_eq!(2, cpu.add_val_val(1, 1, false));
}

#[test]
fn maskable_interrupt_costs_eight_t_states() {
    // EI; NOP; NOP
    let mut cpu = cpu_with(vec![0xFB, 0x00, 0x00]);
    cpu.set_reg_value_16(RegisterCode16::SP, 0x200);
    steps(&mut cpu, 2);
    cpu.set_mask_interrupt(true);
    assert_eq!(8, cpu.do_operation());
    assert_eq!(0x38, cpu.get_pc());
    assert_eq!(0x02, cpu.fetch(0x1FE));
}
