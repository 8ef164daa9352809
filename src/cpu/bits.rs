//! The bits plane (prefix 0xCB): rotates, shifts, and bit test, set and reset.

use vstd::prelude::*;
use crate::alu;
use crate::cpu::{Cpu, CpuView, ShiftOp};
use crate::cpu::opcode::{IndexMode, Operand, operand_of, operand_spec, reg_of, reg_spec, shift_op_of, shift_op_spec};
use crate::registers::{RegisterCode, RegisterCode16};

verus! {

/// An instruction of the bits plane; bit numbers are below 8.
#[derive(Debug, Copy, Clone, PartialEq, Eq, Structural)]
pub enum BitsOpcode {
    Rot(ShiftOp, Operand),
    TestBit(u8, Operand),
    ResBit(u8, Operand),
    SetBit(u8, Operand),
}

/// The bits-plane table: `x = b / 64` picks the family, `y` the shift or bit, `z` the operand.
pub open spec fn bits_decode_spec(b: u8) -> BitsOpcode {
    let x = b / 64;
    let y = ((b / 8) % 8) as u8;
    let z = b % 8;
    if x == 0 {
        BitsOpcode::Rot(shift_op_spec(y), operand_spec(z))
    } else if x == 1 {
        BitsOpcode::TestBit(y, operand_spec(z))
    } else if x == 2 {
        BitsOpcode::ResBit(y, operand_spec(z))
    } else {
        BitsOpcode::SetBit(y, operand_spec(z))
    }
}

/// The byte `v` with bit `n` set (`set`) or cleared.
pub open spec fn changed_bit(v: u8, n: u8, set: bool) -> u8 {
    if set {
        v | (1u8 << n)
    } else {
        v & !(1u8 << n)
    }
}

/// A bits-plane instruction on the byte at `addr`.
pub open spec fn bits_on_memory(s: CpuView, opcode: BitsOpcode, addr: u16) -> CpuView {
    let (v, t) = s.fetch(addr);
    match opcode {
        BitsOpcode::Rot(op, _) => s.shift_m(op, addr).tick(15),
        BitsOpcode::TestBit(n, _) => t.with_flags(alu::bit_flags_spec(v, n % 8, t.regs.f)).tick(12),
        BitsOpcode::ResBit(n, _) => t.store(addr, changed_bit(v, n % 8, false)).tick(15),
        BitsOpcode::SetBit(n, _) => t.store(addr, changed_bit(v, n % 8, true)).tick(15),
    }
}

/// A bits-plane instruction on register `r`.
pub open spec fn bits_on_register(s: CpuView, opcode: BitsOpcode, r: RegisterCode) -> CpuView {
    let v = s.regs.get8(r);
    match opcode {
        BitsOpcode::Rot(op, _) => s.shift_r(op, r).tick(8),
        BitsOpcode::TestBit(n, _) => s.with_flags(alu::bit_flags_spec(v, n % 8, s.regs.f)).tick(8),
        BitsOpcode::ResBit(n, _) => s.set8(r, changed_bit(v, n % 8, false)).tick(8),
        BitsOpcode::SetBit(n, _) => s.set8(r, changed_bit(v, n % 8, true)).tick(8),
    }
}

pub open spec fn operand_of_bits(opcode: BitsOpcode) -> Operand {
    match opcode {
        BitsOpcode::Rot(_, o) => o,
        BitsOpcode::TestBit(_, o) => o,
        BitsOpcode::ResBit(_, o) => o,
        BitsOpcode::SetBit(_, o) => o,
    }
}

/// A bits-plane instruction on the register it names, or on (HL).
pub open spec fn bits_effect(s: CpuView, opcode: BitsOpcode) -> CpuView {
    let o = operand_of_bits(opcode);
    if o == Operand::Mem {
        bits_on_memory(s, opcode, s.regs.get16(RegisterCode16::HL))
    } else {
        bits_on_register(s, opcode, reg_spec(o, IndexMode::HL))
    }
}

impl BitsOpcode {
    pub fn from_u8(value: u8) -> (r: BitsOpcode)
        ensures
            r == bits_decode_spec(value),
    {
        let x = value / 64;
        let y = (value / 8) % 8;
        let z = value % 8;
        if x == 0 {
            BitsOpcode::Rot(shift_op_of(y), operand_of(z))
        } else if x == 1 {
            BitsOpcode::TestBit(y, operand_of(z))
        } else if x == 2 {
            BitsOpcode::ResBit(y, operand_of(z))
        } else {
            BitsOpcode::SetBit(y, operand_of(z))
        }
    }

    /// Decodes and executes the bits-plane opcode `value`.
    pub fn operate_u8(cpu: &mut Cpu, value: u8)
        ensures
            final(cpu)@ == bits_effect(old(cpu)@, bits_decode_spec(value)),
            old(cpu)@.clock <= final(cpu)@.clock,
    {
        BitsOpcode::operate(cpu, BitsOpcode::from_u8(value));
    }

    /// Executes a bits-plane instruction on a register or on (HL).
    pub fn operate(cpu: &mut Cpu, opcode: BitsOpcode)
        ensures
            final(cpu)@ == bits_effect(old(cpu)@, opcode),
            old(cpu)@.clock <= final(cpu)@.clock,
    {
        let hl = cpu.indirect_reg_addr(RegisterCode16::HL);
        match opcode {
            BitsOpcode::Rot(op, o) => {
                if o == Operand::Mem {
                    cpu.shift_addr(op, hl);
                } else {
                    cpu.shift_reg(op, reg_of(o, IndexMode::HL));
                }
            },
            BitsOpcode::TestBit(n, o) => {
                if o == Operand::Mem {
                    cpu.test_bit_addr(hl, n % 8);
                } else {
                    cpu.test_bit_reg(reg_of(o, IndexMode::HL), n % 8);
                }
            },
            BitsOpcode::ResBit(n, o) => {
                if o == Operand::Mem {
                    cpu.change_bit_addr(hl, n % 8, false);
                } else {
                    cpu.change_bit_reg(reg_of(o, IndexMode::HL), n % 8, false);
                }
            },
            BitsOpcode::SetBit(n, o) => {
                if o == Operand::Mem {
                    cpu.change_bit_addr(hl, n % 8, true);
                } else {
                    cpu.change_bit_reg(reg_of(o, IndexMode::HL), n % 8, true);
                }
            },
        }
    }

    /// Executes a bits-plane instruction after an index prefix: whatever operand
    /// the opcode names, it works on the byte at `addr` (IX or IY plus displacement).
    pub fn operate_indexed(cpu: &mut Cpu, opcode: BitsOpcode, addr: u16)
        ensures
            final(cpu)@ == bits_on_memory(old(cpu)@, opcode, addr),
            old(cpu)@.clock <= final(cpu)@.clock,
    {
        match opcode {
            BitsOpcode::Rot(op, _) => cpu.shift_addr(op, addr),
            BitsOpcode::TestBit(n, _) => cpu.test_bit_addr(addr, n % 8),
            BitsOpcode::ResBit(n, _) => cpu.change_bit_addr(addr, n % 8, false),
            BitsOpcode::SetBit(n, _) => cpu.change_bit_addr(addr, n % 8, true),
        }
    }
}

} // verus!
