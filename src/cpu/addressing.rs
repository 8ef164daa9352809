//! Addressing modes as values: each computes its operand from the CPU,
//! consuming operand bytes at PC where it has any.

use vstd::prelude::*;
use crate::cpu::{Cpu, CpuView, offset_addr};
use crate::registers::{RegisterCode16, pair};

verus! {

/// A way of finding an instruction's operand.
pub trait AddressMode<T> {
    /// The operand, and the CPU after any operand bytes were read.
    spec fn operand(&self, s: CpuView) -> (T, CpuView);

    fn get(&self, cpu: &mut Cpu) -> (r: T)
        ensures
            (r, final(cpu)@) == self.operand(old(cpu)@),
    ;
}

/// Immediate: the next byte.
pub struct ImmediateAddressing {}

impl ImmediateAddressing {
    pub fn new() -> ImmediateAddressing {
        ImmediateAddressing {}
    }
}

impl AddressMode<u8> for ImmediateAddressing {
    open spec fn operand(&self, s: CpuView) -> (u8, CpuView) {
        s.next_byte()
    }

    fn get(&self, cpu: &mut Cpu) -> (r: u8) {
        cpu.imm_addr()
    }
}

/// Immediate extended: the next two bytes, low byte first.
pub struct ImmediateAddressingExt {}

impl ImmediateAddressingExt {
    pub fn new() -> ImmediateAddressingExt {
        ImmediateAddressingExt {}
    }

    pub fn combine(&self, higher: u8, lower: u8) -> (r: u16)
        ensures
            r == pair(higher, lower),
    {
        higher as u16 * 256 + lower as u16
    }
}

impl AddressMode<u16> for ImmediateAddressingExt {
    open spec fn operand(&self, s: CpuView) -> (u16, CpuView) {
        s.next_word()
    }

    fn get(&self, cpu: &mut Cpu) -> (r: u16) {
        let lower = cpu.next_byte();
        let higher = cpu.next_byte();
        self.combine(higher, lower)
    }
}

/// Relative: the address after the offset byte plus the signed offset.
pub struct RelativeAddressing {}

impl RelativeAddressing {
    pub fn new() -> RelativeAddressing {
        RelativeAddressing {}
    }

    /// `pc` moved by the signed byte `offset`, wrapping.
    pub fn combine(&self, pc: u16, offset: u8) -> (r: u16)
        ensures
            r == offset_addr(pc, offset),
    {
        let t: u32 = (pc as u32 + 65536 + (offset as i8 as i32 + 128) as u32 - 128) % 65536;
        t as u16
    }
}

impl AddressMode<u16> for RelativeAddressing {
    open spec fn operand(&self, s: CpuView) -> (u16, CpuView) {
        s.rel_target()
    }

    fn get(&self, cpu: &mut Cpu) -> (r: u16) {
        cpu.rel_addr()
    }
}

/// Indexed: IX or IY plus the signed displacement in the next byte.
pub struct IndexedAddressing {
    register: RegisterCode16,
}

impl IndexedAddressing {
    pub closed spec fn register_spec(&self) -> RegisterCode16 {
        self.register
    }

    pub fn new(register: RegisterCode16) -> (r: IndexedAddressing)
        requires
            register == RegisterCode16::IX || register == RegisterCode16::IY,
        ensures
            r.register_spec() == register,
    {
        IndexedAddressing { register }
    }

    /// The index register's value.
    pub fn reg(&self, cpu: &Cpu) -> (r: u16)
        ensures
            r == cpu@.regs.get16(self.register_spec()),
    {
        cpu.reg_value_16(self.register)
    }
}

impl AddressMode<u16> for IndexedAddressing {
    open spec fn operand(&self, s: CpuView) -> (u16, CpuView) {
        let (d, t) = s.next_byte();
        (offset_addr(s.regs.get16(self.register_spec()), d), t)
    }

    fn get(&self, cpu: &mut Cpu) -> (r: u16) {
        let base = self.reg(cpu);
        let d = cpu.next_byte();
        let t: u32 = (base as u32 + 65536 + (d as i8 as i32 + 128) as u32 - 128) % 65536;
        t as u16
    }
}

/// Indirect register: the value of a register pair.
pub struct IndirectRegisterAddressing {
    register: RegisterCode16,
}

impl IndirectRegisterAddressing {
    pub closed spec fn register_spec(&self) -> RegisterCode16 {
        self.register
    }

    pub fn new(register: RegisterCode16) -> (r: IndirectRegisterAddressing)
        ensures
            r.register_spec() == register,
    {
        IndirectRegisterAddressing { register }
    }
}

impl AddressMode<u16> for IndirectRegisterAddressing {
    open spec fn operand(&self, s: CpuView) -> (u16, CpuView) {
        (s.regs.get16(self.register_spec()), s)
    }

    fn get(&self, cpu: &mut Cpu) -> (r: u16) {
        cpu.indirect_reg_addr(self.register)
    }
}

} // verus!
