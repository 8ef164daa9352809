//! The unprefixed opcode plane and the IX / IY planes that reuse it.

use vstd::prelude::*;
use crate::alu;
use crate::cpu::{AluOp, Cpu, CpuView, ShiftOp, cond_holds, offset_addr, wrap16};
use crate::cpu::bits::{BitsOpcode, bits_decode_spec, bits_effect, bits_on_memory};
use crate::cpu::extended::{Extnd, extended_decode_spec, extended_effect};
use crate::registers::{Flags, RegisterCode, RegisterCode16, pair};

verus! {

/// An 8-bit operand as the opcode tables number them: B C D E H L (HL) A.
#[derive(Debug, Copy, Clone, PartialEq, Eq, Structural)]
pub enum Operand {
    B,
    C,
    D,
    E,
    H,
    L,
    Mem,
    A,
}

/// Which register stands for HL: HL itself, or IX / IY after a prefix byte.
#[derive(Debug, Copy, Clone, PartialEq, Eq, Structural)]
pub enum IndexMode {
    HL,
    IX,
    IY,
}

/// An unprefixed instruction, decoded from its opcode byte.
#[derive(Debug, Copy, Clone, PartialEq, Eq, Structural)]
pub enum Opcode {
    NoOp,
    ExAfAf,
    Djnz,
    Jr,
    JrCond(Flags, bool),
    LdRpLit(RegisterCode16),
    AddHlRp(RegisterCode16),
    LdBCptrA,
    LdDEptrA,
    LdLitptrHL,
    LdLitptrA,
    LdABCptr,
    LdADEptr,
    LdHLLitptr,
    LdALitptr,
    IncRp(RegisterCode16),
    DecRp(RegisterCode16),
    Inc(Operand),
    Dec(Operand),
    LdLit(Operand),
    Rlca,
    Rrca,
    Rla,
    Rra,
    Daa,
    Cpl,
    Scf,
    Ccf,
    Halt,
    Ld(Operand, Operand),
    Alu(AluOp, Operand),
    AluLit(AluOp),
    RetCond(Flags, bool),
    Pop(RegisterCode16),
    Ret,
    Exx,
    JpHL,
    LdSpHL,
    JpCond(Flags, bool),
    Jp,
    Bits,
    OutLitA,
    InALit,
    ExSpHL,
    ExDeHL,
    Di,
    Ei,
    CallCond(Flags, bool),
    Push(RegisterCode16),
    Call,
    PrefixIX,
    Extended,
    PrefixIY,
    Rst(u8),
}

pub open spec fn operand_spec(i: u8) -> Operand {
    match i % 8 {
        0 => Operand::B,
        1 => Operand::C,
        2 => Operand::D,
        3 => Operand::E,
        4 => Operand::H,
        5 => Operand::L,
        6 => Operand::Mem,
        _ => Operand::A,
    }
}

/// The condition numbered `i`: NZ Z NC C PO PE P M, as a flag and the value it must have.
pub open spec fn cond_spec(i: u8) -> (Flags, bool) {
    match i % 8 {
        0 => (Flags::Zero, false),
        1 => (Flags::Zero, true),
        2 => (Flags::Carry, false),
        3 => (Flags::Carry, true),
        4 => (Flags::OverflowParity, false),
        5 => (Flags::OverflowParity, true),
        6 => (Flags::Sign, false),
        _ => (Flags::Sign, true),
    }
}

/// The register pair numbered `p` in loads and arithmetic: BC DE HL SP.
pub open spec fn rp_spec(p: u8) -> RegisterCode16 {
    match p % 4 {
        0 => RegisterCode16::BC,
        1 => RegisterCode16::DE,
        2 => RegisterCode16::HL,
        _ => RegisterCode16::SP,
    }
}

/// The register pair numbered `p` in PUSH and POP: BC DE HL AF.
pub open spec fn rp2_spec(p: u8) -> RegisterCode16 {
    match p % 4 {
        0 => RegisterCode16::BC,
        1 => RegisterCode16::DE,
        2 => RegisterCode16::HL,
        _ => RegisterCode16::AF,
    }
}

pub open spec fn alu_op_spec(i: u8) -> AluOp {
    match i % 8 {
        0 => AluOp::Add,
        1 => AluOp::Adc,
        2 => AluOp::Sub,
        3 => AluOp::Sbc,
        4 => AluOp::And,
        5 => AluOp::Xor,
        6 => AluOp::Or,
        _ => AluOp::Cp,
    }
}

pub open spec fn shift_op_spec(i: u8) -> ShiftOp {
    match i % 8 {
        0 => ShiftOp::Rlc,
        1 => ShiftOp::Rrc,
        2 => ShiftOp::Rl,
        3 => ShiftOp::Rr,
        4 => ShiftOp::Sla,
        5 => ShiftOp::Sra,
        6 => ShiftOp::Sll,
        _ => ShiftOp::Srl,
    }
}

/// The opcode table: `x = b / 64`, `y = b / 8 % 8`, `z = b % 8`, `p = y / 2`, `q = y % 2`.
pub open spec fn decode_spec(b: u8) -> Opcode {
    let x = b / 64;
    let y = (b / 8) % 8;
    let z = b % 8;
    let p = y / 2;
    let q = y % 2;
    if x == 0 {
        if z == 0 {
            if y == 0 {
                Opcode::NoOp
            } else if y == 1 {
                Opcode::ExAfAf
            } else if y == 2 {
                Opcode::Djnz
            } else if y == 3 {
                Opcode::Jr
            } else {
                Opcode::JrCond(cond_spec((y - 4) as u8).0, cond_spec((y - 4) as u8).1)
            }
        } else if z == 1 {
            if q == 0 {
                Opcode::LdRpLit(rp_spec(p))
            } else {
                Opcode::AddHlRp(rp_spec(p))
            }
        } else if z == 2 {
            if q == 0 {
                if p == 0 {
                    Opcode::LdBCptrA
                } else if p == 1 {
                    Opcode::LdDEptrA
                } else if p == 2 {
                    Opcode::LdLitptrHL
                } else {
                    Opcode::LdLitptrA
                }
            } else {
                if p == 0 {
                    Opcode::LdABCptr
                } else if p == 1 {
                    Opcode::LdADEptr
                } else if p == 2 {
                    Opcode::LdHLLitptr
                } else {
                    Opcode::LdALitptr
                }
            }
        } else if z == 3 {
            if q == 0 {
                Opcode::IncRp(rp_spec(p))
            } else {
                Opcode::DecRp(rp_spec(p))
            }
        } else if z == 4 {
            Opcode::Inc(operand_spec(y))
        } else if z == 5 {
            Opcode::Dec(operand_spec(y))
        } else if z == 6 {
            Opcode::LdLit(operand_spec(y))
        } else {
            if y == 0 {
                Opcode::Rlca
            } else if y == 1 {
                Opcode::Rrca
            } else if y == 2 {
                Opcode::Rla
            } else if y == 3 {
                Opcode::Rra
            } else if y == 4 {
                Opcode::Daa
            } else if y == 5 {
                Opcode::Cpl
            } else if y == 6 {
                Opcode::Scf
            } else {
                Opcode::Ccf
            }
        }
    } else if x == 1 {
        if y == 6 && z == 6 {
            Opcode::Halt
        } else {
            Opcode::Ld(operand_spec(y), operand_spec(z))
        }
    } else if x == 2 {
        Opcode::Alu(alu_op_spec(y), operand_spec(z))
    } else {
        if z == 0 {
            Opcode::RetCond(cond_spec(y).0, cond_spec(y).1)
        } else if z == 1 {
            if q == 0 {
                Opcode::Pop(rp2_spec(p))
            } else if p == 0 {
                Opcode::Ret
            } else if p == 1 {
                Opcode::Exx
            } else if p == 2 {
                Opcode::JpHL
            } else {
                Opcode::LdSpHL
            }
        } else if z == 2 {
            Opcode::JpCond(cond_spec(y).0, cond_spec(y).1)
        } else if z == 3 {
            if y == 0 {
                Opcode::Jp
            } else if y == 1 {
                Opcode::Bits
            } else if y == 2 {
                Opcode::OutLitA
            } else if y == 3 {
                Opcode::InALit
            } else if y == 4 {
                Opcode::ExSpHL
            } else if y == 5 {
                Opcode::ExDeHL
            } else if y == 6 {
                Opcode::Di
            } else {
                Opcode::Ei
            }
        } else if z == 4 {
            Opcode::CallCond(cond_spec(y).0, cond_spec(y).1)
        } else if z == 5 {
            if q == 0 {
                Opcode::Push(rp2_spec(p))
            } else if p == 0 {
                Opcode::Call
            } else if p == 1 {
                Opcode::PrefixIX
            } else if p == 2 {
                Opcode::Extended
            } else {
                Opcode::PrefixIY
            }
        } else if z == 6 {
            Opcode::AluLit(alu_op_spec(y))
        } else {
            Opcode::Rst((y * 8) as u8)
        }
    }
}

pub fn operand_of(i: u8) -> (r: Operand)
    ensures
        r == operand_spec(i),
{
    match i % 8 {
        0 => Operand::B,
        1 => Operand::C,
        2 => Operand::D,
        3 => Operand::E,
        4 => Operand::H,
        5 => Operand::L,
        6 => Operand::Mem,
        _ => Operand::A,
    }
}

pub fn cond_of(i: u8) -> (r: (Flags, bool))
    ensures
        r == cond_spec(i),
{
    match i % 8 {
        0 => (Flags::Zero, false),
        1 => (Flags::Zero, true),
        2 => (Flags::Carry, false),
        3 => (Flags::Carry, true),
        4 => (Flags::OverflowParity, false),
        5 => (Flags::OverflowParity, true),
        6 => (Flags::Sign, false),
        _ => (Flags::Sign, true),
    }
}

pub fn rp_of(p: u8) -> (r: RegisterCode16)
    ensures
        r == rp_spec(p),
{
    match p % 4 {
        0 => RegisterCode16::BC,
        1 => RegisterCode16::DE,
        2 => RegisterCode16::HL,
        _ => RegisterCode16::SP,
    }
}

pub fn rp2_of(p: u8) -> (r: RegisterCode16)
    ensures
        r == rp2_spec(p),
{
    match p % 4 {
        0 => RegisterCode16::BC,
        1 => RegisterCode16::DE,
        2 => RegisterCode16::HL,
        _ => RegisterCode16::AF,
    }
}

pub fn alu_op_of(i: u8) -> (r: AluOp)
    ensures
        r == alu_op_spec(i),
{
    match i % 8 {
        0 => AluOp::Add,
        1 => AluOp::Adc,
        2 => AluOp::Sub,
        3 => AluOp::Sbc,
        4 => AluOp::And,
        5 => AluOp::Xor,
        6 => AluOp::Or,
        _ => AluOp::Cp,
    }
}

pub fn shift_op_of(i: u8) -> (r: ShiftOp)
    ensures
        r == shift_op_spec(i),
{
    match i % 8 {
        0 => ShiftOp::Rlc,
        1 => ShiftOp::Rrc,
        2 => ShiftOp::Rl,
        3 => ShiftOp::Rr,
        4 => ShiftOp::Sla,
        5 => ShiftOp::Sra,
        6 => ShiftOp::Sll,
        _ => ShiftOp::Srl,
    }
}

/// The register an operand names; with an index prefix H and L name the
/// halves of IX or IY.
pub open spec fn reg_spec(o: Operand, mode: IndexMode) -> RegisterCode {
    match o {
        Operand::B => RegisterCode::B,
        Operand::C => RegisterCode::C,
        Operand::D => RegisterCode::D,
        Operand::E => RegisterCode::E,
        Operand::H => match mode {
            IndexMode::HL => RegisterCode::H,
            IndexMode::IX => RegisterCode::IXh,
            IndexMode::IY => RegisterCode::IYh,
        },
        Operand::L => match mode {
            IndexMode::HL => RegisterCode::L,
            IndexMode::IX => RegisterCode::IXl,
            IndexMode::IY => RegisterCode::IYl,
        },
        Operand::Mem => RegisterCode::A,
        Operand::A => RegisterCode::A,
    }
}

pub fn reg_of(o: Operand, mode: IndexMode) -> (r: RegisterCode)
    ensures
        r == reg_spec(o, mode),
{
    match o {
        Operand::B => RegisterCode::B,
        Operand::C => RegisterCode::C,
        Operand::D => RegisterCode::D,
        Operand::E => RegisterCode::E,
        Operand::H => match mode {
            IndexMode::HL => RegisterCode::H,
            IndexMode::IX => RegisterCode::IXh,
            IndexMode::IY => RegisterCode::IYh,
        },
        Operand::L => match mode {
            IndexMode::HL => RegisterCode::L,
            IndexMode::IX => RegisterCode::IXl,
            IndexMode::IY => RegisterCode::IYl,
        },
        Operand::Mem => RegisterCode::A,
        Operand::A => RegisterCode::A,
    }
}

/// The pair that stands for HL in `mode`.
pub open spec fn pair_spec(mode: IndexMode) -> RegisterCode16 {
    match mode {
        IndexMode::HL => RegisterCode16::HL,
        IndexMode::IX => RegisterCode16::IX,
        IndexMode::IY => RegisterCode16::IY,
    }
}

/// A register pair of the table, with HL replaced by the pair of `mode`.
pub open spec fn sub_pair_spec(rp: RegisterCode16, mode: IndexMode) -> RegisterCode16 {
    if rp == RegisterCode16::HL {
        pair_spec(mode)
    } else {
        rp
    }
}

/// The memory operand that (HL) names in `mode`, and the CPU after it was found.
pub open spec fn pointer_spec(s: CpuView, mode: IndexMode) -> (u16, CpuView) {
    if mode == IndexMode::HL {
        (s.regs.get16(RegisterCode16::HL), s)
    } else {
        let (d, t) = s.queue(8).next_byte();
        (offset_addr(s.regs.get16(pair_spec(mode)), d), t)
    }
}

/// What an unprefixed instruction does, with HL standing for the pair of `mode`.
/// With an index prefix, H and L name the halves of IX or IY, except in an
/// instruction that also uses (IX + d) or (IY + d).
pub open spec fn main_effect(s: CpuView, op: Opcode, mode: IndexMode) -> CpuView
    decreases rank(mode),
{
    match op {
        Opcode::NoOp => s.tick(4),
        Opcode::ExAfAf => s.with_regs(s.regs.ex_af_spec()).tick(4),
        Opcode::Djnz => {
            let (t, s1) = s.rel_target();
            let b = ((s1.regs.b + 255) % 256) as u8;
            let s2 = s1.set8(RegisterCode::B, b);
            if b != 0 {
                s2.jump(t).tick(13)
            } else {
                s2.tick(8)
            }
        },
        Opcode::Jr => {
            let (t, s1) = s.rel_target();
            s1.jump(t).tick(12)
        },
        Opcode::JrCond(f, v) => {
            let (t, s1) = s.rel_target();
            if cond_holds(s, f, v) {
                s1.jump(t).tick(12)
            } else {
                s1.tick(7)
            }
        },
        Opcode::LdRpLit(rp) => {
            let (v, s1) = s.next_word();
            s1.set16(sub_pair_spec(rp, mode), v).tick(10)
        },
        Opcode::AddHlRp(rp) => s.add_rr(pair_spec(mode), sub_pair_spec(rp, mode)).tick(11),
        Opcode::LdBCptrA => s.store(s.regs.get16(RegisterCode16::BC), s.regs.a).tick(7),
        Opcode::LdDEptrA => s.store(s.regs.get16(RegisterCode16::DE), s.regs.a).tick(7),
        Opcode::LdLitptrHL => {
            let (a, s1) = s.next_word();
            s1.store16(a, s1.regs.get16(pair_spec(mode))).tick(16)
        },
        Opcode::LdLitptrA => {
            let (a, s1) = s.next_word();
            let s2 = s1.queue(6);
            s2.store(a, s2.regs.a).tick(7)
        },
        Opcode::LdABCptr => {
            let (v, s1) = s.fetch(s.regs.get16(RegisterCode16::BC));
            s1.set8(RegisterCode::A, v).tick(7)
        },
        Opcode::LdADEptr => {
            let (v, s1) = s.fetch(s.regs.get16(RegisterCode16::DE));
            s1.set8(RegisterCode::A, v).tick(7)
        },
        Opcode::LdHLLitptr => {
            let (a, s1) = s.next_word();
            let (v, s2) = s1.fetch16(a);
            s2.set16(pair_spec(mode), v).tick(16)
        },
        Opcode::LdALitptr => {
            let (a, s1) = s.next_word();
            let (v, s2) = s1.queue(6).fetch(a);
            s2.set8(RegisterCode::A, v).tick(7)
        },
        Opcode::IncRp(rp) => {
            let r = sub_pair_spec(rp, mode);
            s.set16(r, wrap16(s.regs.get16(r) + 1)).tick(6)
        },
        Opcode::DecRp(rp) => {
            let r = sub_pair_spec(rp, mode);
            s.set16(r, wrap16(s.regs.get16(r) + 65535)).tick(6)
        },
        Opcode::Inc(o) => if o == Operand::Mem {
            let (a, s1) = pointer_spec(s, mode);
            s1.inc_m(a).tick(11)
        } else {
            s.inc_r(reg_spec(o, mode)).tick(4)
        },
        Opcode::Dec(o) => if o == Operand::Mem {
            let (a, s1) = pointer_spec(s, mode);
            s1.dec_m(a).tick(11)
        } else {
            s.dec_r(reg_spec(o, mode)).tick(4)
        },
        Opcode::LdLit(o) => if o == Operand::Mem {
            let (a, s1) = pointer_spec(s, mode);
            let (n, s2) = s1.next_byte();
            s2.store(a, n).tick(10)
        } else {
            let (n, s1) = s.next_byte();
            s1.set8(reg_spec(o, mode), n).tick(7)
        },
        Opcode::Rlca => s.rotate_a(ShiftOp::Rlc).tick(4),
        Opcode::Rrca => s.rotate_a(ShiftOp::Rrc).tick(4),
        Opcode::Rla => s.rotate_a(ShiftOp::Rl).tick(4),
        Opcode::Rra => s.rotate_a(ShiftOp::Rr).tick(4),
        Opcode::Daa => s.acc_op(alu::daa_spec(s.regs.a, s.regs.f)).tick(4),
        Opcode::Cpl => s.acc_op(alu::cpl_spec(s.regs.a, s.regs.f)).tick(4),
        Opcode::Scf => s.with_flags(alu::scf_spec(s.regs.f)).tick(4),
        Opcode::Ccf => s.with_flags(alu::ccf_spec(s.regs.f)).tick(4),
        Opcode::Halt => (CpuView { halted: true, ..s }).tick(4),
        Opcode::Ld(dst, src) => if dst == Operand::Mem {
            let (a, s1) = pointer_spec(s, mode);
            s1.store(a, s1.regs.get8(reg_spec(src, IndexMode::HL))).tick(7)
        } else if src == Operand::Mem {
            let (a, s1) = pointer_spec(s, mode);
            let (v, s2) = s1.fetch(a);
            s2.set8(reg_spec(dst, IndexMode::HL), v).tick(7)
        } else {
            s.ld_rr(reg_spec(dst, mode), reg_spec(src, mode)).tick(4)
        },
        Opcode::Alu(op, o) => if o == Operand::Mem {
            let (a, s1) = pointer_spec(s, mode);
            let (v, s2) = s1.fetch(a);
            s2.alu_a(op, v).tick(7)
        } else {
            s.alu_a(op, s.regs.get8(reg_spec(o, mode))).tick(4)
        },
        Opcode::AluLit(op) => {
            let (n, s1) = s.next_byte();
            s1.alu_a(op, n).tick(7)
        },
        Opcode::RetCond(f, v) => if cond_holds(s, f, v) {
            s.ret().tick(11)
        } else {
            s.tick(5)
        },
        Opcode::Pop(rp) => {
            let (v, s1) = s.pop16();
            s1.set16(sub_pair_spec(rp, mode), v).tick(10)
        },
        Opcode::Ret => s.ret().tick(10),
        Opcode::Exx => s.with_regs(s.regs.exx_spec()).tick(4),
        Opcode::JpHL => s.jump(s.regs.get16(pair_spec(mode))).tick(4),
        Opcode::LdSpHL => s.set16(RegisterCode16::SP, s.regs.get16(pair_spec(mode))).tick(6),
        Opcode::JpCond(f, v) => {
            let (a, s1) = s.next_word();
            if cond_holds(s1, f, v) {
                s1.jump(a).tick(10)
            } else {
                s1.tick(10)
            }
        },
        Opcode::Jp => {
            let (a, s1) = s.next_word();
            s1.jump(a).tick(10)
        },
        Opcode::Bits => if mode == IndexMode::HL {
            let (b, s1) = s.next_byte();
            bits_effect(s1, bits_decode_spec(b))
        } else {
            let (d, s1) = s.next_byte();
            let a = offset_addr(s.regs.get16(pair_spec(mode)), d);
            let (b, s2) = s1.next_byte();
            bits_on_memory(s2.queue(4), bits_decode_spec(b), a)
        },
        Opcode::OutLitA => {
            let (n, s1) = s.next_byte();
            s1.port_out(pair(s1.regs.a, n), s1.regs.a).tick(11)
        },
        Opcode::InALit => {
            let (n, s1) = s.next_byte();
            let (v, s2) = s1.port_in(pair(s1.regs.a, n));
            s2.set8(RegisterCode::A, v).tick(11)
        },
        Opcode::ExSpHL => s.ex_sp(pair_spec(mode)).tick(19),
        Opcode::ExDeHL => s.with_regs(s.regs.ex_de_hl_spec()).tick(4),
        Opcode::Di => (CpuView { iff1: false, iff2: false, ..s }).tick(4),
        Opcode::Ei => (CpuView { iff1: true, iff2: true, interrupt_count: 2, ..s }).tick(4),
        Opcode::CallCond(f, v) => {
            let (a, s1) = s.next_word();
            if cond_holds(s1, f, v) {
                s1.call(a).tick(17)
            } else {
                s1.tick(10)
            }
        },
        Opcode::Push(rp) => s.push16(s.regs.get16(sub_pair_spec(rp, mode))).tick(11),
        Opcode::Call => {
            let (a, s1) = s.next_word();
            s1.call(a).tick(17)
        },
        Opcode::PrefixIX => if mode == IndexMode::HL {
            let (b, s1) = s.queue(4).next_byte();
            main_effect(s1, decode_spec(b), IndexMode::IX)
        } else {
            s.jump(wrap16(s.regs.pc + 65535)).tick(4)
        },
        Opcode::PrefixIY => if mode == IndexMode::HL {
            let (b, s1) = s.queue(4).next_byte();
            main_effect(s1, decode_spec(b), IndexMode::IY)
        } else {
            s.jump(wrap16(s.regs.pc + 65535)).tick(4)
        },
        Opcode::Extended => {
            let (b, s1) = s.queue(if mode == IndexMode::HL { 0 } else { 4 }).next_byte();
            extended_effect(s1, extended_decode_spec(b))
        },
        Opcode::Rst(n) => s.call(n as u16).tick(11),
    }
}

/// The pair that stands for HL in `mode`.
pub fn pair_of(mode: IndexMode) -> (r: RegisterCode16)
    ensures
        r == pair_spec(mode),
{
    match mode {
        IndexMode::HL => RegisterCode16::HL,
        IndexMode::IX => RegisterCode16::IX,
        IndexMode::IY => RegisterCode16::IY,
    }
}

/// A register pair of the table, with HL replaced by the pair of `mode`.
pub fn sub_pair(rp: RegisterCode16, mode: IndexMode) -> (r: RegisterCode16)
    ensures
        r == sub_pair_spec(rp, mode),
{
    if rp == RegisterCode16::HL {
        pair_of(mode)
    } else {
        rp
    }
}

pub open spec fn rank(mode: IndexMode) -> int {
    if mode == IndexMode::HL {
        1
    } else {
        0
    }
}

/// Whether `op` belongs to this group: loads, the exchange of AF with its alternate, and the no-op.
pub open spec fn in_group_loads(op: Opcode) -> bool {
    match op {
        Opcode::NoOp | Opcode::ExAfAf | Opcode::LdRpLit(..) | Opcode::LdBCptrA | Opcode::LdDEptrA | Opcode::LdLitptrHL | Opcode::LdLitptrA | Opcode::LdABCptr | Opcode::LdADEptr | Opcode::LdHLLitptr | Opcode::LdALitptr | Opcode::LdLit(..) | Opcode::Ld(..) => true,
        _ => false,
    }
}

/// Whether `op` belongs to this group: arithmetic, increments, rotates of A and flag operations.
pub open spec fn in_group_arith(op: Opcode) -> bool {
    match op {
        Opcode::AddHlRp(..) | Opcode::IncRp(..) | Opcode::DecRp(..) | Opcode::Inc(..) | Opcode::Dec(..) | Opcode::Rlca | Opcode::Rrca | Opcode::Rla | Opcode::Rra | Opcode::Daa | Opcode::Cpl | Opcode::Scf | Opcode::Ccf | Opcode::Alu(..) | Opcode::AluLit(..) => true,
        _ => false,
    }
}

/// Whether `op` belongs to this group: jumps, calls, returns, stack operations, exchanges and interrupt control.
pub open spec fn in_group_flow(op: Opcode) -> bool {
    match op {
        Opcode::Djnz | Opcode::Jr | Opcode::JrCond(..) | Opcode::Halt | Opcode::RetCond(..) | Opcode::Pop(..) | Opcode::Ret | Opcode::Exx | Opcode::JpHL | Opcode::LdSpHL | Opcode::JpCond(..) | Opcode::Jp | Opcode::ExSpHL | Opcode::ExDeHL | Opcode::Di | Opcode::Ei | Opcode::CallCond(..) | Opcode::Push(..) | Opcode::Call | Opcode::Rst(..) => true,
        _ => false,
    }
}

impl Opcode {
    pub fn from_u8(value: u8) -> (r: Opcode)
        ensures
            r == decode_spec(value),
    {
        let x = value / 64;
        let y = (value / 8) % 8;
        let z = value % 8;
        let p = y / 2;
        let q = y % 2;
        if x == 0 {
            if z == 0 {
                if y == 0 {
                    Opcode::NoOp
                } else if y == 1 {
                    Opcode::ExAfAf
                } else if y == 2 {
                    Opcode::Djnz
                } else if y == 3 {
                    Opcode::Jr
                } else {
                    let (f, v) = cond_of(y - 4);
                    Opcode::JrCond(f, v)
                }
            } else if z == 1 {
                if q == 0 {
                    Opcode::LdRpLit(rp_of(p))
                } else {
                    Opcode::AddHlRp(rp_of(p))
                }
            } else if z == 2 {
                if q == 0 {
                    if p == 0 {
                        Opcode::LdBCptrA
                    } else if p == 1 {
                        Opcode::LdDEptrA
                    } else if p == 2 {
                        Opcode::LdLitptrHL
                    } else {
                        Opcode::LdLitptrA
                    }
                } else {
                    if p == 0 {
                        Opcode::LdABCptr
                    } else if p == 1 {
                        Opcode::LdADEptr
                    } else if p == 2 {
                        Opcode::LdHLLitptr
                    } else {
                        Opcode::LdALitptr
                    }
                }
            } else if z == 3 {
                if q == 0 {
                    Opcode::IncRp(rp_of(p))
                } else {
                    Opcode::DecRp(rp_of(p))
                }
            } else if z == 4 {
                Opcode::Inc(operand_of(y))
            } else if z == 5 {
                Opcode::Dec(operand_of(y))
            } else if z == 6 {
                Opcode::LdLit(operand_of(y))
            } else {
                if y == 0 {
                    Opcode::Rlca
                } else if y == 1 {
                    Opcode::Rrca
                } else if y == 2 {
                    Opcode::Rla
                } else if y == 3 {
                    Opcode::Rra
                } else if y == 4 {
                    Opcode::Daa
                } else if y == 5 {
                    Opcode::Cpl
                } else if y == 6 {
                    Opcode::Scf
                } else {
                    Opcode::Ccf
                }
            }
        } else if x == 1 {
            if y == 6 && z == 6 {
                Opcode::Halt
            } else {
                Opcode::Ld(operand_of(y), operand_of(z))
            }
        } else if x == 2 {
            Opcode::Alu(alu_op_of(y), operand_of(z))
        } else {
            if z == 0 {
                let (f, v) = cond_of(y);
                Opcode::RetCond(f, v)
            } else if z == 1 {
                if q == 0 {
                    Opcode::Pop(rp2_of(p))
                } else if p == 0 {
                    Opcode::Ret
                } else if p == 1 {
                    Opcode::Exx
                } else if p == 2 {
                    Opcode::JpHL
                } else {
                    Opcode::LdSpHL
                }
            } else if z == 2 {
                let (f, v) = cond_of(y);
                Opcode::JpCond(f, v)
            } else if z == 3 {
                if y == 0 {
                    Opcode::Jp
                } else if y == 1 {
                    Opcode::Bits
                } else if y == 2 {
                    Opcode::OutLitA
                } else if y == 3 {
                    Opcode::InALit
                } else if y == 4 {
                    Opcode::ExSpHL
                } else if y == 5 {
                    Opcode::ExDeHL
                } else if y == 6 {
                    Opcode::Di
                } else {
                    Opcode::Ei
                }
            } else if z == 4 {
                let (f, v) = cond_of(y);
                Opcode::CallCond(f, v)
            } else if z == 5 {
                if q == 0 {
                    Opcode::Push(rp2_of(p))
                } else if p == 0 {
                    Opcode::Call
                } else if p == 1 {
                    Opcode::PrefixIX
                } else if p == 2 {
                    Opcode::Extended
                } else {
                    Opcode::PrefixIY
                }
            } else if z == 6 {
                Opcode::AluLit(alu_op_of(y))
            } else {
                Opcode::Rst(y * 8)
            }
        }
    }

    /// Decodes and executes the unprefixed opcode `value`.
    pub fn operate_u8(cpu: &mut Cpu, value: u8)
        ensures
            final(cpu)@ == main_effect(old(cpu)@, decode_spec(value), IndexMode::HL),
            old(cpu)@.clock <= final(cpu)@.clock,
    {
        Opcode::operate(cpu, Opcode::from_u8(value));
    }

    /// Executes an unprefixed instruction whose opcode byte has been read.
    pub fn operate(cpu: &mut Cpu, opcode: Opcode)
        ensures
            final(cpu)@ == main_effect(old(cpu)@, opcode, IndexMode::HL),
            old(cpu)@.clock <= final(cpu)@.clock,
    {
        Opcode::operate_with(cpu, opcode, IndexMode::HL);
    }

    /// The memory operand that (HL) names in `mode`: HL itself, or IX / IY plus
    /// the displacement byte that follows the opcode (eight extra T-states).
    fn pointer(cpu: &mut Cpu, mode: IndexMode) -> (r: u16)
        ensures
            (r, final(cpu)@) == pointer_spec(old(cpu)@, mode),
            old(cpu)@.clock == final(cpu)@.clock,
    {
        match mode {
            IndexMode::HL => cpu.indirect_reg_addr(RegisterCode16::HL),
            IndexMode::IX => {
                cpu.queue_clock_tick(8);
                cpu.index_addr(RegisterCode16::IX)
            },
            IndexMode::IY => {
                cpu.queue_clock_tick(8);
                cpu.index_addr(RegisterCode16::IY)
            },
        }
    }

    /// Loads, the exchange of AF with its alternate, and the no-op.
    #[verifier::spinoff_prover]
    #[verifier::rlimit(100)]
    fn operate_loads(cpu: &mut Cpu, opcode: Opcode, mode: IndexMode)
        requires
            in_group_loads(opcode),
        ensures
            final(cpu)@ == main_effect(old(cpu)@, opcode, mode),
            old(cpu)@.clock <= final(cpu)@.clock,
    {
        match opcode {
            Opcode::NoOp => cpu.noop(),
            Opcode::ExAfAf => cpu.ex_af_altaf(),
            Opcode::LdRpLit(rp) => {
                let v = cpu.imm_addr_ex();
                cpu.ld_reg16_lit(sub_pair(rp, mode), v);
            },
            Opcode::LdBCptrA => {
                let addr = cpu.indirect_reg_addr(RegisterCode16::BC);
                cpu.ld_addr_reg(addr, RegisterCode::A);
            },
            Opcode::LdDEptrA => {
                let addr = cpu.indirect_reg_addr(RegisterCode16::DE);
                cpu.ld_addr_reg(addr, RegisterCode::A);
            },
            Opcode::LdLitptrHL => {
                let addr = cpu.imm_addr_ex();
                cpu.ld_addr_reg16(addr, pair_of(mode));
            },
            Opcode::LdLitptrA => {
                let addr = cpu.imm_addr_ex();
                cpu.queue_clock_tick(6);
                cpu.ld_addr_reg(addr, RegisterCode::A);
            },
            Opcode::LdABCptr => {
                let addr = cpu.indirect_reg_addr(RegisterCode16::BC);
                cpu.ld_reg_addr(RegisterCode::A, addr);
            },
            Opcode::LdADEptr => {
                let addr = cpu.indirect_reg_addr(RegisterCode16::DE);
                cpu.ld_reg_addr(RegisterCode::A, addr);
            },
            Opcode::LdHLLitptr => {
                let addr = cpu.imm_addr_ex();
                cpu.ld_reg16_addr(pair_of(mode), addr);
            },
            Opcode::LdALitptr => {
                let addr = cpu.imm_addr_ex();
                cpu.queue_clock_tick(6);
                cpu.ld_reg_addr(RegisterCode::A, addr);
            },
            Opcode::LdLit(o) => {
                if o == Operand::Mem {
                    let addr = Opcode::pointer(cpu, mode);
                    let n = cpu.imm_addr();
                    cpu.ld_addr_lit(addr, n);
                } else {
                    cpu.ld_reg_lit(reg_of(o, mode));
                }
            },
            Opcode::Ld(dst, src) => {
                if dst == Operand::Mem {
                    let addr = Opcode::pointer(cpu, mode);
                    cpu.ld_addr_reg(addr, reg_of(src, IndexMode::HL));
                } else if src == Operand::Mem {
                    let addr = Opcode::pointer(cpu, mode);
                    cpu.ld_reg_addr(reg_of(dst, IndexMode::HL), addr);
                } else {
                    cpu.ld_reg_reg(reg_of(dst, mode), reg_of(src, mode));
                }
            },
            _ => {},
        }
    }

    /// Arithmetic, increments, rotates of A and flag operations.
    #[verifier::spinoff_prover]
    #[verifier::rlimit(100)]
    fn operate_arith(cpu: &mut Cpu, opcode: Opcode, mode: IndexMode)
        requires
            in_group_arith(opcode),
        ensures
            final(cpu)@ == main_effect(old(cpu)@, opcode, mode),
            old(cpu)@.clock <= final(cpu)@.clock,
    {
        match opcode {
            Opcode::AddHlRp(rp) => cpu.add_reg16_reg16(pair_of(mode), sub_pair(rp, mode)),
            Opcode::IncRp(rp) => cpu.inc_reg16(sub_pair(rp, mode)),
            Opcode::DecRp(rp) => cpu.dec_reg16(sub_pair(rp, mode)),
            Opcode::Inc(o) => {
                if o == Operand::Mem {
                    let addr = Opcode::pointer(cpu, mode);
                    cpu.inc_addr(addr);
                } else {
                    cpu.inc_reg(reg_of(o, mode));
                }
            },
            Opcode::Dec(o) => {
                if o == Operand::Mem {
                    let addr = Opcode::pointer(cpu, mode);
                    cpu.dec_addr(addr);
                } else {
                    cpu.dec_reg(reg_of(o, mode));
                }
            },
            Opcode::Rlca => cpu.rotate_acc(ShiftOp::Rlc),
            Opcode::Rrca => cpu.rotate_acc(ShiftOp::Rrc),
            Opcode::Rla => cpu.rotate_acc(ShiftOp::Rl),
            Opcode::Rra => cpu.rotate_acc(ShiftOp::Rr),
            Opcode::Daa => cpu.daa(),
            Opcode::Cpl => cpu.cpl(),
            Opcode::Scf => cpu.scf(),
            Opcode::Ccf => cpu.ccf(),
            Opcode::Alu(op, o) => {
                if o == Operand::Mem {
                    let addr = Opcode::pointer(cpu, mode);
                    cpu.alu_a_addr(op, addr);
                } else {
                    cpu.alu_a_reg(op, reg_of(o, mode));
                }
            },
            Opcode::AluLit(op) => {
                let n = cpu.imm_addr();
                cpu.alu_a_lit(op, n);
            },
            _ => {},
        }
    }

    /// Jumps, calls, returns, stack operations, exchanges and interrupt control.
    #[verifier::spinoff_prover]
    #[verifier::rlimit(100)]
    fn operate_flow(cpu: &mut Cpu, opcode: Opcode, mode: IndexMode)
        requires
            in_group_flow(opcode),
        ensures
            final(cpu)@ == main_effect(old(cpu)@, opcode, mode),
            old(cpu)@.clock <= final(cpu)@.clock,
    {
        match opcode {
            Opcode::Djnz => cpu.djnz(),
            Opcode::Jr => cpu.jmp_rel(),
            Opcode::JrCond(f, v) => cpu.jr_cond(f, v),
            Opcode::Halt => cpu.halt(),
            Opcode::RetCond(f, v) => cpu.ret_cond(f, v),
            Opcode::Pop(rp) => cpu.pop_reg16(sub_pair(rp, mode)),
            Opcode::Ret => cpu.ret(),
            Opcode::Exx => cpu.exx(),
            Opcode::JpHL => cpu.jmp_addr(pair_of(mode)),
            Opcode::LdSpHL => cpu.ld_reg16_reg16(RegisterCode16::SP, pair_of(mode)),
            Opcode::JpCond(f, v) => {
                let addr = cpu.imm_addr_ex();
                cpu.jmp_cond(addr, f, v);
            },
            Opcode::Jp => {
                let addr = cpu.imm_addr_ex();
                cpu.jmp(addr);
            },
            Opcode::ExSpHL => cpu.ex_spptr_reg(pair_of(mode)),
            Opcode::ExDeHL => cpu.ex_de_hl(),
            Opcode::Di => cpu.disable_intrpt(),
            Opcode::Ei => cpu.enable_intrpt(),
            Opcode::CallCond(f, v) => {
                let addr = cpu.imm_addr_ex();
                cpu.call_cond_addr(addr, f, v);
            },
            Opcode::Push(rp) => cpu.push_reg16(sub_pair(rp, mode)),
            Opcode::Call => {
                let addr = cpu.imm_addr_ex();
                cpu.call_addr(addr);
            },
            Opcode::Rst(n) => cpu.rst_lit(n),
            _ => {},
        }
    }

    /// Executes `opcode` with HL standing for the pair of `mode`.
    #[verifier::spinoff_prover]
    #[verifier::rlimit(100)]
    pub fn operate_with(cpu: &mut Cpu, opcode: Opcode, mode: IndexMode)
        ensures
            final(cpu)@ == main_effect(old(cpu)@, opcode, mode),
            old(cpu)@.clock <= final(cpu)@.clock,
        decreases rank(mode),
    {
        match opcode {
            Opcode::NoOp | Opcode::ExAfAf | Opcode::LdRpLit(..) | Opcode::LdBCptrA | Opcode::LdDEptrA | Opcode::LdLitptrHL | Opcode::LdLitptrA | Opcode::LdABCptr | Opcode::LdADEptr | Opcode::LdHLLitptr | Opcode::LdALitptr | Opcode::LdLit(..) | Opcode::Ld(..) => Opcode::operate_loads(cpu, opcode, mode),
            Opcode::AddHlRp(..) | Opcode::IncRp(..) | Opcode::DecRp(..) | Opcode::Inc(..) | Opcode::Dec(..) | Opcode::Rlca | Opcode::Rrca | Opcode::Rla | Opcode::Rra | Opcode::Daa | Opcode::Cpl | Opcode::Scf | Opcode::Ccf | Opcode::Alu(..) | Opcode::AluLit(..) => Opcode::operate_arith(cpu, opcode, mode),
            Opcode::Djnz | Opcode::Jr | Opcode::JrCond(..) | Opcode::Halt | Opcode::RetCond(..) | Opcode::Pop(..) | Opcode::Ret | Opcode::Exx | Opcode::JpHL | Opcode::LdSpHL | Opcode::JpCond(..) | Opcode::Jp | Opcode::ExSpHL | Opcode::ExDeHL | Opcode::Di | Opcode::Ei | Opcode::CallCond(..) | Opcode::Push(..) | Opcode::Call | Opcode::Rst(..) => Opcode::operate_flow(cpu, opcode, mode),
            Opcode::Bits => {
                if mode == IndexMode::HL {
                    let b = cpu.next_byte();
                    BitsOpcode::operate_u8(cpu, b);
                } else {
                    let reg = pair_of(mode);
                    let addr = cpu.index_addr(reg);
                    let b = cpu.next_byte();
                    cpu.queue_clock_tick(4);
                    BitsOpcode::operate_indexed(cpu, BitsOpcode::from_u8(b), addr);
                }
            },
            Opcode::OutLitA => cpu.out_a_lit(),
            Opcode::InALit => cpu.in_a_lit(),
            Opcode::PrefixIX | Opcode::PrefixIY => {
                let next = if opcode == Opcode::PrefixIX {
                    IndexMode::IX
                } else {
                    IndexMode::IY
                };
                if mode == IndexMode::HL {
                    cpu.queue_clock_tick(4);
                    let b = cpu.next_byte();
                    Opcode::operate_with(cpu, Opcode::from_u8(b), next);
                } else {
                    // a second prefix cancels the first, which then ran as a no-op
                    cpu.rewind_one();
                    cpu.noop();
                }
            },
            Opcode::Extended => {
                cpu.queue_clock_tick(if mode == IndexMode::HL { 0 } else { 4 });
                let b = cpu.next_byte();
                Extnd::operate_u8(cpu, b);
            },
        }
    }
}

} // verus!
