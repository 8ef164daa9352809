//! The extended plane (prefix 0xED): 16-bit arithmetic with carry, block
//! transfers, compares and port I/O, returns from interrupts, and the rest.

use vstd::prelude::*;
use crate::cpu::{Cpu, CpuView};
use crate::cpu::opcode::{IndexMode, Operand, operand_of, operand_spec, reg_of, reg_spec, rp_of, rp_spec};
use crate::registers::{RegisterCode, RegisterCode16};

verus! {

/// An instruction of the extended plane; opcodes without one decode to `NoOp`.
#[derive(Debug, Copy, Clone, PartialEq, Eq, Structural)]
pub enum Extnd {
    InC(Operand),
    OutC(Operand),
    SbcHL(RegisterCode16),
    AdcHL(RegisterCode16),
    LdLitptrRp(RegisterCode16),
    LdRpLitptr(RegisterCode16),
    Neg,
    Retn,
    Reti,
    Im,
    LdIA,
    LdRA,
    LdAI,
    LdAR,
    Rrd,
    Rld,
    Ldi,
    Ldd,
    Ldir,
    Lddr,
    Cpi,
    Cpd,
    Cpir,
    Cpdr,
    Ini,
    Ind,
    Inir,
    Indr,
    Outi,
    Outd,
    Otir,
    Otdr,
    NoOp,
}

/// The block instruction in row `y` (4 to 7) and column `z` (0 to 3).
pub open spec fn block_spec(y: u8, z: u8) -> Extnd {
    if y == 4 {
        if z == 0 { Extnd::Ldi } else if z == 1 { Extnd::Cpi } else if z == 2 { Extnd::Ini } else { Extnd::Outi }
    } else if y == 5 {
        if z == 0 { Extnd::Ldd } else if z == 1 { Extnd::Cpd } else if z == 2 { Extnd::Ind } else { Extnd::Outd }
    } else if y == 6 {
        if z == 0 { Extnd::Ldir } else if z == 1 { Extnd::Cpir } else if z == 2 { Extnd::Inir } else { Extnd::Otir }
    } else {
        if z == 0 { Extnd::Lddr } else if z == 1 { Extnd::Cpdr } else if z == 2 { Extnd::Indr } else { Extnd::Otdr }
    }
}

pub open spec fn extended_decode_spec(b: u8) -> Extnd {
    let x = b / 64;
    let y = ((b / 8) % 8) as u8;
    let z = (b % 8) as u8;
    let p = (y / 2) as u8;
    let q = y % 2;
    if x == 1 {
        if z == 0 {
            Extnd::InC(operand_spec(y))
        } else if z == 1 {
            Extnd::OutC(operand_spec(y))
        } else if z == 2 {
            if q == 0 { Extnd::SbcHL(rp_spec(p)) } else { Extnd::AdcHL(rp_spec(p)) }
        } else if z == 3 {
            if q == 0 { Extnd::LdLitptrRp(rp_spec(p)) } else { Extnd::LdRpLitptr(rp_spec(p)) }
        } else if z == 4 {
            Extnd::Neg
        } else if z == 5 {
            if y == 1 { Extnd::Reti } else { Extnd::Retn }
        } else if z == 6 {
            Extnd::Im
        } else {
            if y == 0 {
                Extnd::LdIA
            } else if y == 1 {
                Extnd::LdRA
            } else if y == 2 {
                Extnd::LdAI
            } else if y == 3 {
                Extnd::LdAR
            } else if y == 4 {
                Extnd::Rrd
            } else if y == 5 {
                Extnd::Rld
            } else {
                Extnd::NoOp
            }
        }
    } else if x == 2 && z <= 3 && y >= 4 {
        block_spec(y, z)
    } else {
        Extnd::NoOp
    }
}

fn block_of(y: u8, z: u8) -> (r: Extnd)
    ensures
        r == block_spec(y, z),
{
    if y == 4 {
        if z == 0 { Extnd::Ldi } else if z == 1 { Extnd::Cpi } else if z == 2 { Extnd::Ini } else { Extnd::Outi }
    } else if y == 5 {
        if z == 0 { Extnd::Ldd } else if z == 1 { Extnd::Cpd } else if z == 2 { Extnd::Ind } else { Extnd::Outd }
    } else if y == 6 {
        if z == 0 { Extnd::Ldir } else if z == 1 { Extnd::Cpir } else if z == 2 { Extnd::Inir } else { Extnd::Otir }
    } else {
        if z == 0 { Extnd::Lddr } else if z == 1 { Extnd::Cpdr } else if z == 2 { Extnd::Indr } else { Extnd::Otdr }
    }
}

/// The register an IN or OUT operand names; none for the (HL) slot.
pub open spec fn port_reg(o: Operand) -> Option<RegisterCode> {
    if o == Operand::Mem {
        None
    } else {
        Some(reg_spec(o, IndexMode::HL))
    }
}

/// What an extended-plane instruction does.
pub open spec fn extended_effect(s: CpuView, opcode: Extnd) -> CpuView {
    match opcode {
        Extnd::InC(o) => s.in_c(port_reg(o)).tick(12),
        Extnd::OutC(o) => s.out_c(port_reg(o)).tick(12),
        Extnd::SbcHL(rp) => s.sbc_rr(RegisterCode16::HL, rp).tick(15),
        Extnd::AdcHL(rp) => s.adc_rr(RegisterCode16::HL, rp).tick(15),
        Extnd::LdLitptrRp(rp) => {
            let (addr, t) = s.queue(4).next_word();
            t.store16(addr, t.regs.get16(rp)).tick(16)
        },
        Extnd::LdRpLitptr(rp) => {
            let (addr, t) = s.queue(4).next_word();
            let (v, u) = t.fetch16(addr);
            u.set16(rp, v).tick(16)
        },
        Extnd::Neg => s.acc_op(crate::alu::neg_spec(s.regs.a, s.regs.f)).tick(8),
        Extnd::Retn => (CpuView { iff1: s.iff2, ..s }).ret().tick(14),
        Extnd::Reti => s.ret().tick(14),
        Extnd::Im => s.tick(8),
        Extnd::LdIA => s.queue(5).ld_rr(RegisterCode::I, RegisterCode::A).tick(4),
        Extnd::LdRA => s.queue(5).ld_rr(RegisterCode::R, RegisterCode::A).tick(4),
        Extnd::LdAI => s.queue(5).ld_rr(RegisterCode::A, RegisterCode::I).tick(4),
        Extnd::LdAR => s.queue(5).ld_rr(RegisterCode::A, RegisterCode::R).tick(4),
        Extnd::Rrd => s.nibble_rotate(true).tick(18),
        Extnd::Rld => s.nibble_rotate(false).tick(18),
        Extnd::Ldi => s.ld_block(true).tick(16),
        Extnd::Ldd => s.ld_block(false).tick(16),
        Extnd::Ldir => s.ld_block_repeat(true),
        Extnd::Lddr => s.ld_block_repeat(false),
        Extnd::Cpi => s.cp_block(true).tick(16),
        Extnd::Cpd => s.cp_block(false).tick(16),
        Extnd::Cpir => s.cp_block_repeat(true),
        Extnd::Cpdr => s.cp_block_repeat(false),
        Extnd::Ini => s.in_block(true).tick(16),
        Extnd::Ind => s.in_block(false).tick(16),
        Extnd::Inir => s.in_block_repeat(true),
        Extnd::Indr => s.in_block_repeat(false),
        Extnd::Outi => s.out_block(true).tick(16),
        Extnd::Outd => s.out_block(false).tick(16),
        Extnd::Otir => s.out_block_repeat(true),
        Extnd::Otdr => s.out_block_repeat(false),
        Extnd::NoOp => s.queue(4).tick(4),
    }
}

impl Extnd {
    pub fn from_u8(value: u8) -> (r: Extnd)
        ensures
            r == extended_decode_spec(value),
    {
        let x = value / 64;
        let y = (value / 8) % 8;
        let z = value % 8;
        let p = y / 2;
        let q = y % 2;
        if x == 1 {
            if z == 0 {
                Extnd::InC(operand_of(y))
            } else if z == 1 {
                Extnd::OutC(operand_of(y))
            } else if z == 2 {
                if q == 0 { Extnd::SbcHL(rp_of(p)) } else { Extnd::AdcHL(rp_of(p)) }
            } else if z == 3 {
                if q == 0 { Extnd::LdLitptrRp(rp_of(p)) } else { Extnd::LdRpLitptr(rp_of(p)) }
            } else if z == 4 {
                Extnd::Neg
            } else if z == 5 {
                if y == 1 { Extnd::Reti } else { Extnd::Retn }
            } else if z == 6 {
                Extnd::Im
            } else {
                if y == 0 {
                    Extnd::LdIA
                } else if y == 1 {
                    Extnd::LdRA
                } else if y == 2 {
                    Extnd::LdAI
                } else if y == 3 {
                    Extnd::LdAR
                } else if y == 4 {
                    Extnd::Rrd
                } else if y == 5 {
                    Extnd::Rld
                } else {
                    Extnd::NoOp
                }
            }
        } else if x == 2 && z <= 3 && y >= 4 {
            block_of(y, z)
        } else {
            Extnd::NoOp
        }
    }

    /// Decodes and executes the extended opcode `value`.
    pub fn operate_u8(cpu: &mut Cpu, value: u8)
        ensures
            final(cpu)@ == extended_effect(old(cpu)@, extended_decode_spec(value)),
            old(cpu)@.clock <= final(cpu)@.clock,
    {
        Extnd::operate(cpu, Extnd::from_u8(value));
    }

    #[verifier::spinoff_prover]
    #[verifier::rlimit(60)]
    pub fn operate(cpu: &mut Cpu, opcode: Extnd)
        ensures
            final(cpu)@ == extended_effect(old(cpu)@, opcode),
            old(cpu)@.clock <= final(cpu)@.clock,
    {
        match opcode {
            Extnd::InC(o) => {
                if o == Operand::Mem {
                    cpu.in_reg_c(None);
                } else {
                    cpu.in_reg_c(Some(reg_of(o, IndexMode::HL)));
                }
            },
            Extnd::OutC(o) => {
                if o == Operand::Mem {
                    cpu.out_c_reg(None);
                } else {
                    cpu.out_c_reg(Some(reg_of(o, IndexMode::HL)));
                }
            },
            Extnd::SbcHL(rp) => cpu.sbc_reg16_reg16(RegisterCode16::HL, rp),
            Extnd::AdcHL(rp) => cpu.adc_reg16_reg16(RegisterCode16::HL, rp),
            Extnd::LdLitptrRp(rp) => {
                cpu.queue_clock_tick(4);
                let addr = cpu.imm_addr_ex();
                cpu.ld_addr_reg16(addr, rp);
            },
            Extnd::LdRpLitptr(rp) => {
                cpu.queue_clock_tick(4);
                let addr = cpu.imm_addr_ex();
                cpu.ld_reg16_addr(rp, addr);
            },
            Extnd::Neg => cpu.neg(),
            Extnd::Retn => cpu.retn(),
            Extnd::Reti => cpu.reti(),
            Extnd::Im => cpu.interrupt_mode(),
            Extnd::LdIA => {
                cpu.queue_clock_tick(5);
                cpu.ld_reg_reg(RegisterCode::I, RegisterCode::A);
            },
            Extnd::LdRA => {
                cpu.queue_clock_tick(5);
                cpu.ld_reg_reg(RegisterCode::R, RegisterCode::A);
            },
            Extnd::LdAI => {
                cpu.queue_clock_tick(5);
                cpu.ld_reg_reg(RegisterCode::A, RegisterCode::I);
            },
            Extnd::LdAR => {
                cpu.queue_clock_tick(5);
                cpu.ld_reg_reg(RegisterCode::A, RegisterCode::R);
            },
            Extnd::Rrd => cpu.rrd(),
            Extnd::Rld => cpu.rld(),
            Extnd::Ldi => cpu.ld_id(true),
            Extnd::Ldd => cpu.ld_id(false),
            Extnd::Ldir => cpu.ld_id_r(true),
            Extnd::Lddr => cpu.ld_id_r(false),
            Extnd::Cpi => cpu.cp_id(true),
            Extnd::Cpd => cpu.cp_id(false),
            Extnd::Cpir => cpu.cp_id_r(true),
            Extnd::Cpdr => cpu.cp_id_r(false),
            Extnd::Ini => cpu.in_id(true),
            Extnd::Ind => cpu.in_id(false),
            Extnd::Inir => cpu.in_id_rep(true),
            Extnd::Indr => cpu.in_id_rep(false),
            Extnd::Outi => cpu.out_id(true),
            Extnd::Outd => cpu.out_id(false),
            Extnd::Otir => cpu.out_id_rep(true),
            Extnd::Otdr => cpu.out_id_rep(false),
            Extnd::NoOp => {
                cpu.queue_clock_tick(4);
                cpu.noop();
            },
        }
    }
}

} // verus!
