//! The Z80 interpreter: state, memory and port access, and one method per
//! instruction family, each stated over the CPU's view.

use vstd::prelude::*;
use crate::alu;
use crate::cpu::opcode::{IndexMode, Opcode, decode_spec, main_effect};
use crate::controller::Button;
use crate::memory::{Bus, DeviceView, bus_read, bus_after_read, bus_after_write, canvas_taken, joypad_updated, vdp_updated};
use crate::vdp::Canvas;
use crate::registers::{FlagSet, Flags, RegisterCode, RegisterCode16, Registers, pair, high, low};

pub mod addressing;
pub mod bits;
pub mod extended;
pub mod laws;
pub mod opcode;

verus! {

/// `c + n`, held at the largest `u64` instead of overflowing.
pub open spec fn advance(c: u64, n: int) -> u64 {
    if c + n > u64::MAX {
        u64::MAX
    } else {
        (c + n) as u64
    }
}

pub open spec fn wrap16(v: int) -> u16 {
    (v % 65536) as u16
}

/// The address `offset` (a signed byte) away from `base`.
pub open spec fn offset_addr(base: u16, offset: u8) -> u16 {
    wrap16(base + (offset as i8) + 65536)
}

/// Everything the CPU holds.
pub struct CpuView {
    pub regs: Registers,
    pub clock: u64,
    pub clock_queue: u64,
    pub iff1: bool,
    pub iff2: bool,
    pub interrupt_count: u8,
    pub halted: bool,
    pub reset_req: bool,
    pub nomask_interrupt: bool,
    pub mask_interrupt: bool,
    pub mem: Seq<DeviceView>,
    pub io: Seq<DeviceView>,
}

impl CpuView {
    /// `n` T-states spent, together with any queued extra ones.
    pub open spec fn tick(self, n: u64) -> CpuView {
        CpuView { clock: advance(self.clock, self.clock_queue + n), clock_queue: 0, ..self }
    }

    pub open spec fn queue(self, n: u64) -> CpuView {
        CpuView { clock_queue: advance(self.clock_queue, n as int), ..self }
    }

    pub open spec fn with_regs(self, regs: Registers) -> CpuView {
        CpuView { regs, ..self }
    }

    pub open spec fn with_flags(self, f: FlagSet) -> CpuView {
        CpuView { regs: Registers { f, ..self.regs }, ..self }
    }

    pub open spec fn set8(self, code: RegisterCode, v: u8) -> CpuView {
        self.with_regs(self.regs.set8(code, v))
    }

    pub open spec fn set16(self, code: RegisterCode16, v: u16) -> CpuView {
        self.with_regs(self.regs.set16(code, v))
    }

    /// A memory read of `addr`: the byte (0 when nothing answers) and the CPU after it.
    pub open spec fn fetch(self, addr: u16) -> (u8, CpuView) {
        (
            match bus_read(self.mem, addr) {
                Some(v) => v,
                None => 0,
            },
            CpuView { mem: bus_after_read(self.mem, addr), ..self },
        )
    }

    pub open spec fn store(self, addr: u16, v: u8) -> CpuView {
        CpuView { mem: bus_after_write(self.mem, addr, v), ..self }
    }

    /// A port read of `addr`.
    pub open spec fn port_in(self, addr: u16) -> (u8, CpuView) {
        (
            match bus_read(self.io, addr) {
                Some(v) => v,
                None => 0,
            },
            CpuView { io: bus_after_read(self.io, addr), ..self },
        )
    }

    pub open spec fn port_out(self, addr: u16, v: u8) -> CpuView {
        CpuView { io: bus_after_write(self.io, addr, v), ..self }
    }

    /// The byte at PC, with PC moved past it.
    pub open spec fn next_byte(self) -> (u8, CpuView) {
        let (v, s) = self.fetch(self.regs.pc);
        (v, s.set16(RegisterCode16::PC, wrap16(self.regs.pc + 1)))
    }

    /// The little-endian word at PC, with PC moved past it.
    pub open spec fn next_word(self) -> (u16, CpuView) {
        let (lo, s1) = self.next_byte();
        let (hi, s2) = s1.next_byte();
        (pair(hi, lo), s2)
    }

    /// Target of a relative jump: the address after the offset byte plus the signed offset.
    pub open spec fn rel_target(self) -> (u16, CpuView) {
        let (d, s) = self.next_byte();
        (offset_addr(s.regs.pc, d), s)
    }

    /// One byte pushed: SP moves down, then the byte is stored there.
    pub open spec fn push(self, v: u8) -> CpuView {
        let sp = wrap16(self.regs.sp + 65535);
        self.set16(RegisterCode16::SP, sp).store(sp, v)
    }

    /// One byte popped: read at SP, then SP moves up.
    pub open spec fn pop(self) -> (u8, CpuView) {
        let (v, s) = self.fetch(self.regs.sp);
        (v, s.set16(RegisterCode16::SP, wrap16(self.regs.sp + 1)))
    }

    /// A word pushed high byte first.
    pub open spec fn push16(self, v: u16) -> CpuView {
        self.push(high(v)).push(low(v))
    }

    /// A word popped low byte first.
    pub open spec fn pop16(self) -> (u16, CpuView) {
        let (lo, s1) = self.pop();
        let (hi, s2) = s1.pop();
        (pair(hi, lo), s2)
    }
}

/// State of the CPU's read/write line.
#[derive(Debug, Copy, Clone, PartialEq, Eq, Structural)]
pub enum TriStateLogic {
    On,
    Off,
    Disconnect,
}

/// A Z80 together with the memory bus and the port bus it drives.
pub struct Cpu {
    read_write: TriStateLogic,
    regs: Registers,
    clock: u64,
    clock_queue: u64,
    iff1: bool,
    iff2: bool,
    interrupt_count: u8,
    halted: bool,
    reset_req: bool,
    nomask_interrupt: bool,
    mask_interrupt: bool,
    data_bus: Bus,
    io_bus: Bus,
}

impl View for Cpu {
    type V = CpuView;

    closed spec fn view(&self) -> CpuView {
        CpuView {
            regs: self.regs,
            clock: self.clock,
            clock_queue: self.clock_queue,
            iff1: self.iff1,
            iff2: self.iff2,
            interrupt_count: self.interrupt_count,
            halted: self.halted,
            reset_req: self.reset_req,
            nomask_interrupt: self.nomask_interrupt,
            mask_interrupt: self.mask_interrupt,
            mem: self.data_bus@,
            io: self.io_bus@,
        }
    }
}

/// The state a CPU starts in: everything zero, PC at `pc`.
pub open spec fn initial(mem: Seq<DeviceView>, io: Seq<DeviceView>, pc: u16) -> CpuView {
    CpuView {
        regs: Registers::zeroed(pc),
        clock: 0,
        clock_queue: 0,
        iff1: false,
        iff2: false,
        interrupt_count: 0,
        halted: false,
        reset_req: false,
        nomask_interrupt: false,
        mask_interrupt: false,
        mem,
        io,
    }
}

impl Cpu {
    pub fn new(data: Bus, io: Bus) -> (r: Cpu)
        ensures
            r@ == initial(data@, io@, 0),
            r.read_write_spec() == TriStateLogic::Disconnect,
    {
        Cpu::with_pc(data, io, 0)
    }

    pub fn with_pc(data: Bus, io: Bus, pc: u16) -> (r: Cpu)
        ensures
            r@ == initial(data@, io@, pc),
            r.read_write_spec() == TriStateLogic::Disconnect,
    {
        Cpu {
            read_write: TriStateLogic::Disconnect,
            regs: Registers::new(pc),
            clock: 0,
            clock_queue: 0,
            iff1: false,
            iff2: false,
            interrupt_count: 0,
            halted: false,
            reset_req: false,
            nomask_interrupt: false,
            mask_interrupt: false,
            data_bus: data,
            io_bus: io,
        }
    }

    pub closed spec fn read_write_spec(&self) -> TriStateLogic {
        self.read_write
    }

    /// The read/write line.
    pub fn read_write(&self) -> (r: TriStateLogic)
        ensures
            r == self.read_write_spec(),
    {
        self.read_write
    }

    pub fn set_read_write(&mut self, rw: TriStateLogic)
        ensures
            final(self).read_write_spec() == rw,
            final(self)@ == old(self)@,
    {
        self.read_write = rw;
    }

    /// Adds `n` T-states to the clock directly, held at the largest `u64`.
    pub fn inc_clock_n(&mut self, n: u64)
        ensures
            final(self)@ == (CpuView { clock: advance(old(self)@.clock, n as int), ..old(self)@ }),
    {
        self.clock = self.clock.saturating_add(n);
    }

    /// Adds one T-state to the clock.
    pub fn inc_clock(&mut self)
        ensures
            final(self)@ == (CpuView { clock: advance(old(self)@.clock, 1), ..old(self)@ }),
    {
        self.inc_clock_n(1);
    }

    /// Cumulative T-states.
    pub fn clock(&self) -> (r: u64)
        ensures
            r == self@.clock,
    {
        self.clock
    }

    pub fn get_pc(&self) -> (r: u16)
        ensures
            r == self@.regs.pc,
    {
        self.regs.pc
    }

    pub fn set_pc(&mut self, val: u16)
        ensures
            final(self)@ == old(self)@.set16(RegisterCode16::PC, val),
    {
        self.regs.set_reg_value_16(RegisterCode16::PC, val);
    }

    pub fn registers(&self) -> (r: Registers)
        ensures
            r == self@.regs,
    {
        self.regs
    }

    pub fn reg_value(&self, code: RegisterCode) -> (r: u8)
        ensures
            r == self@.regs.get8(code),
    {
        self.regs.reg_value(code)
    }

    pub fn reg_value_16(&self, code: RegisterCode16) -> (r: u16)
        ensures
            r == self@.regs.get16(code),
    {
        self.regs.reg_value_16(code)
    }

    pub fn set_reg_value(&mut self, code: RegisterCode, value: u8)
        ensures
            final(self)@ == old(self)@.set8(code, value),
    {
        self.regs.set_reg_value(code, value);
    }

    pub fn set_reg_value_16(&mut self, code: RegisterCode16, value: u16)
        ensures
            final(self)@ == old(self)@.set16(code, value),
    {
        self.regs.set_reg_value_16(code, value);
    }

    pub fn flag(&self, f: Flags) -> (r: bool)
        ensures
            r == self@.regs.f.get(f),
    {
        self.regs.flag(f)
    }

    pub fn set_flag(&mut self, f: Flags, set: bool)
        ensures
            final(self)@ == old(self)@.with_flags(old(self)@.regs.f.with(f, set)),
    {
        self.regs.set_flag(f, set);
    }

    fn set_flags(&mut self, f: FlagSet)
        ensures
            final(self)@ == old(self)@.with_flags(f),
    {
        self.regs.f = f;
    }

    pub fn is_halted(&self) -> (r: bool)
        ensures
            r == self@.halted,
    {
        self.halted
    }

    pub fn reset_halt(&mut self)
        ensures
            final(self)@ == (CpuView { halted: false, ..old(self)@ }),
    {
        self.halted = false;
    }

    pub fn interrupts_enabled(&self) -> (r: (bool, bool))
        ensures
            r == (self@.iff1, self@.iff2),
    {
        (self.iff1, self.iff2)
    }

    /// Raises or lowers the maskable interrupt line.
    pub fn set_mask_interrupt(&mut self, v: bool)
        ensures
            final(self)@ == (CpuView { mask_interrupt: v, ..old(self)@ }),
    {
        self.mask_interrupt = v;
    }

    /// Raises or lowers the non-maskable interrupt line.
    pub fn set_nomask_interrupt(&mut self, v: bool)
        ensures
            final(self)@ == (CpuView { nomask_interrupt: v, ..old(self)@ }),
    {
        self.nomask_interrupt = v;
    }

    /// Asks for a reset at the next instruction boundary.
    pub fn request_reset(&mut self)
        ensures
            final(self)@ == (CpuView { reset_req: true, ..old(self)@ }),
    {
        self.reset_req = true;
    }

    /// Advances the video processor on the port bus by `cycles` T-states; see
    /// `Bus::vdp_update`.
    pub fn io_vdp_update(&mut self, cycles: u64) -> (r: Option<(bool, bool)>)
        ensures
            final(self)@ == (CpuView { io: final(self)@.io, ..old(self)@ }),
            vdp_updated(old(self)@.io, final(self)@.io, cycles, r),
    {
        self.io_bus.vdp_update(cycles)
    }

    /// Takes the completed frame of the video processor on the port bus.
    pub fn io_take_canvas(&mut self) -> (r: Option<Canvas>)
        ensures
            final(self)@ == (CpuView { io: final(self)@.io, ..old(self)@ }),
            canvas_taken(old(self)@.io, final(self)@.io, r),
    {
        self.io_bus.take_canvas()
    }

    /// Passes a button change to the joypad on the port bus.
    pub fn io_joypad_input(&mut self, button: Button, pressed: bool) -> (r: bool)
        ensures
            final(self)@ == (CpuView { io: final(self)@.io, ..old(self)@ }),
            joypad_updated(old(self)@.io, final(self)@.io, button, pressed, r),
    {
        self.io_bus.joypad_input(button, pressed)
    }

    /// Spends `n` T-states, together with any queued extra ones.
    pub fn tick_clock(&mut self, n: u64)
        ensures
            final(self)@ == old(self)@.tick(n),
    {
        let total = self.clock_queue.saturating_add(n);
        self.clock = self.clock.saturating_add(total);
        self.clock_queue = 0;
    }

    /// Queues extra T-states that the next `tick_clock` spends.
    pub fn queue_clock_tick(&mut self, n: u64)
        ensures
            final(self)@ == old(self)@.queue(n),
    {
        self.clock_queue = self.clock_queue.saturating_add(n);
    }

    pub fn fetch(&mut self, addr: u16) -> (r: u8)
        ensures
            (r, final(self)@) == old(self)@.fetch(addr),
    {
        match self.data_bus.cpu_read(addr) {
            Some(v) => v,
            None => 0,
        }
    }

    fn store(&mut self, addr: u16, val: u8)
        ensures
            final(self)@ == old(self)@.store(addr, val),
    {
        self.data_bus.cpu_write(addr, val);
    }

    fn in_addr(&mut self, addr: u16) -> (r: u8)
        ensures
            (r, final(self)@) == old(self)@.port_in(addr),
    {
        match self.io_bus.cpu_read(addr) {
            Some(v) => v,
            None => 0,
        }
    }

    fn out_addr_val(&mut self, addr: u16, val: u8)
        ensures
            final(self)@ == old(self)@.port_out(addr, val),
    {
        self.io_bus.cpu_write(addr, val);
    }

    /// The byte at PC, without moving PC.
    pub fn next_byte_no_inc(&mut self) -> (r: u8)
        ensures
            (r, final(self)@) == old(self)@.fetch(old(self)@.regs.pc),
    {
        let pc = self.regs.pc;
        self.fetch(pc)
    }

    fn inc_pc(&mut self)
        ensures
            final(self)@ == old(self)@.set16(RegisterCode16::PC, wrap16(old(self)@.regs.pc + 1)),
    {
        let pc = self.regs.pc;
        self.set_pc(if pc == 0xFFFF { 0 } else { pc + 1 });
    }

    /// The byte at PC; PC moves past it.
    fn next_byte(&mut self) -> (r: u8)
        ensures
            (r, final(self)@) == old(self)@.next_byte(),
    {
        let b = self.next_byte_no_inc();
        self.inc_pc();
        b
    }

    /// Immediate operand: the next byte.
    pub fn imm_addr(&mut self) -> (r: u8)
        ensures
            (r, final(self)@) == old(self)@.next_byte(),
    {
        self.next_byte()
    }

    /// Immediate extended operand: the next two bytes, little-endian.
    pub fn imm_addr_ex(&mut self) -> (r: u16)
        ensures
            (r, final(self)@) == old(self)@.next_word(),
    {
        let lo = self.next_byte();
        let hi = self.next_byte();
        hi as u16 * 256 + lo as u16
    }

    /// Extended addressing: the address in the next two bytes, little-endian.
    pub fn ext_addr(&mut self) -> (r: u16)
        ensures
            (r, final(self)@) == old(self)@.next_word(),
    {
        self.imm_addr_ex()
    }

    /// Relative operand: PC after the offset byte plus the signed offset.
    pub fn rel_addr(&mut self) -> (r: u16)
        ensures
            (r, final(self)@) == old(self)@.rel_target(),
    {
        let d = self.next_byte();
        let pc = self.regs.pc;
        let t: u32 = (pc as u32 + 65536 + (d as i8 as i32 + 128) as u32 - 128) % 65536;
        t as u16
    }

    /// Indexed operand: IX or IY plus the signed displacement in the next byte.
    pub fn index_addr(&mut self, register: RegisterCode16) -> (r: u16)
        requires
            register == RegisterCode16::IX || register == RegisterCode16::IY,
        ensures
            ({
                let (d, s) = old(self)@.next_byte();
                r == offset_addr(old(self)@.regs.get16(register), d) && final(self)@ == s
            }),
    {
        let base = self.regs.reg_value_16(register);
        let d = self.next_byte();
        let t: u32 = (base as u32 + 65536 + (d as i8 as i32 + 128) as u32 - 128) % 65536;
        t as u16
    }

    /// Indirect register operand: the value of a register pair.
    pub fn indirect_reg_addr(&self, register: RegisterCode16) -> (r: u16)
        ensures
            r == self@.regs.get16(register),
    {
        self.regs.reg_value_16(register)
    }

    fn push(&mut self, value: u8)
        ensures
            final(self)@ == old(self)@.push(value),
    {
        let sp = self.regs.sp;
        let sp = if sp == 0 { 0xFFFF } else { sp - 1 };
        self.regs.set_reg_value_16(RegisterCode16::SP, sp);
        self.store(sp, value);
    }

    fn pop(&mut self) -> (r: u8)
        ensures
            (r, final(self)@) == old(self)@.pop(),
    {
        let sp = self.regs.sp;
        let v = self.fetch(sp);
        self.regs.set_reg_value_16(RegisterCode16::SP, if sp == 0xFFFF { 0 } else { sp + 1 });
        v
    }

    fn push16(&mut self, v: u16)
        ensures
            final(self)@ == old(self)@.push16(v),
    {
        self.push((v / 256) as u8);
        self.push((v % 256) as u8);
    }

    fn pop16(&mut self) -> (r: u16)
        ensures
            (r, final(self)@) == old(self)@.pop16(),
    {
        let lo = self.pop();
        let hi = self.pop();
        hi as u16 * 256 + lo as u16
    }

    /// Pushes PC, high byte first.
    fn push_pc(&mut self)
        ensures
            final(self)@ == old(self)@.push16(old(self)@.regs.pc),
    {
        let pc = self.regs.pc;
        self.push16(pc);
    }

    /// Pops PC, low byte first.
    fn pop_pc(&mut self)
        ensures
            ({
                let (v, s) = old(self)@.pop16();
                final(self)@ == s.set16(RegisterCode16::PC, v)
            }),
    {
        let v = self.pop16();
        self.set_pc(v);
    }
}


/// The eight accumulator operations, in opcode order.
#[derive(Debug, Copy, Clone, PartialEq, Eq, Structural)]
pub enum AluOp {
    Add,
    Adc,
    Sub,
    Sbc,
    And,
    Xor,
    Or,
    Cp,
}

/// Result and flags of `op` on accumulator `a` and operand `b`; CP leaves `a`.
pub open spec fn alu_spec(op: AluOp, a: u8, b: u8, f: FlagSet) -> (u8, FlagSet) {
    match op {
        AluOp::Add => alu::add8_spec(a, b, false, f),
        AluOp::Adc => alu::add8_spec(a, b, f.carry, f),
        AluOp::Sub => alu::sub8_spec(a, b, false, f),
        AluOp::Sbc => alu::sub8_spec(a, b, f.carry, f),
        AluOp::And => alu::and8_spec(a, b, f),
        AluOp::Xor => alu::xor8_spec(a, b, f),
        AluOp::Or => alu::or8_spec(a, b, f),
        AluOp::Cp => (a, alu::sub8_spec(a, b, false, f).1),
    }
}

impl CpuView {
    /// A and F after `op` with operand `b`.
    pub open spec fn alu_a(self, op: AluOp, b: u8) -> CpuView {
        let (v, f) = alu_spec(op, self.regs.a, b, self.regs.f);
        self.with_regs(Registers { a: v, f, ..self.regs })
    }

    pub open spec fn ld_rr(self, dst: RegisterCode, src: RegisterCode) -> CpuView {
        let v = self.regs.get8(src);
        let s = self.set8(dst, v);
        if dst == RegisterCode::A && (src == RegisterCode::I || src == RegisterCode::R) {
            s.with_flags(
                FlagSet {
                    sign: v >= 128,
                    zero: v == 0,
                    half_carry: false,
                    parity_overflow: self.iff2,
                    subtract: false,
                    ..s.regs.f
                },
            )
        } else {
            s
        }
    }

    pub open spec fn inc_r(self, code: RegisterCode) -> CpuView {
        let (v, f) = alu::inc8_spec(self.regs.get8(code), self.regs.f);
        self.set8(code, v).with_flags(f)
    }

    pub open spec fn dec_r(self, code: RegisterCode) -> CpuView {
        let (v, f) = alu::dec8_spec(self.regs.get8(code), self.regs.f);
        self.set8(code, v).with_flags(f)
    }

    pub open spec fn inc_m(self, addr: u16) -> CpuView {
        let (m, s) = self.fetch(addr);
        let (v, f) = alu::inc8_spec(m, s.regs.f);
        s.store(addr, v).with_flags(f)
    }

    pub open spec fn dec_m(self, addr: u16) -> CpuView {
        let (m, s) = self.fetch(addr);
        let (v, f) = alu::dec8_spec(m, s.regs.f);
        s.store(addr, v).with_flags(f)
    }

    /// ADD HL, rr (or IX, IY): only HalfCarry, Subtract and Carry change.
    pub open spec fn add_rr(self, to: RegisterCode16, operand: RegisterCode16) -> CpuView {
        let (v, f) = alu::add16_spec(self.regs.get16(to), self.regs.get16(operand), self.regs.f);
        self.set16(to, v).with_flags(f)
    }

    pub open spec fn adc_rr(self, to: RegisterCode16, operand: RegisterCode16) -> CpuView {
        let (v, f) = alu::adc16_spec(self.regs.get16(to), self.regs.get16(operand), self.regs.f.carry, self.regs.f);
        self.set16(to, v).with_flags(f)
    }

    pub open spec fn sbc_rr(self, to: RegisterCode16, operand: RegisterCode16) -> CpuView {
        let (v, f) = alu::sbc16_spec(self.regs.get16(to), self.regs.get16(operand), self.regs.f.carry, self.regs.f);
        self.set16(to, v).with_flags(f)
    }

    /// A and the flags after the accumulator operation `op`.
    pub open spec fn acc_op(self, r: (u8, FlagSet)) -> CpuView {
        self.set8(RegisterCode::A, r.0).with_flags(r.1)
    }

    /// RRD (`right`) or RLD on the byte at HL.
    pub open spec fn nibble_rotate(self, right: bool) -> CpuView {
        let hl = self.regs.get16(RegisterCode16::HL);
        let (m, s) = self.fetch(hl);
        let (na, nm, f) = if right {
            alu::rrd_spec(s.regs.a, m, s.regs.f)
        } else {
            alu::rld_spec(s.regs.a, m, s.regs.f)
        };
        s.store(hl, nm).set8(RegisterCode::A, na).with_flags(f)
    }

    /// IN r, (C); with no register only the flags are set.
    pub open spec fn in_c(self, dst: Option<RegisterCode>) -> CpuView {
        let (v, s) = self.port_in(self.regs.get16(RegisterCode16::BC));
        let s2 = match dst {
            Some(r) => s.set8(r, v),
            None => s,
        };
        s2.with_flags(alu::in_flags_spec(v, s2.regs.f))
    }

    /// OUT (C), r; with no register, zero is sent.
    pub open spec fn out_c(self, src: Option<RegisterCode>) -> CpuView {
        self.port_out(
            self.regs.get16(RegisterCode16::BC),
            match src {
                Some(r) => self.regs.get8(r),
                None => 0,
            },
        )
    }

    /// Reads a little-endian word at `addr`.
    pub open spec fn fetch16(self, addr: u16) -> (u16, CpuView) {
        let (lo, s1) = self.fetch(addr);
        let (hi, s2) = s1.fetch(wrap16(addr + 1));
        (pair(hi, lo), s2)
    }

    /// Writes a little-endian word at `addr`.
    pub open spec fn store16(self, addr: u16, v: u16) -> CpuView {
        self.store(addr, low(v)).store(wrap16(addr + 1), high(v))
    }
}

impl Cpu {
    fn noop(&mut self)
        ensures
            final(self)@ == old(self)@.tick(4),
    {
        self.tick_clock(4);
    }

    /// LD r, r'. Loading A from I or R also sets Sign, Zero and copies IFF2 to Parity.
    fn ld_reg_reg(&mut self, dst: RegisterCode, src: RegisterCode)
        ensures
            final(self)@ == old(self)@.ld_rr(dst, src).tick(4),
    {
        let val = self.regs.reg_value(src);
        self.regs.set_reg_value(dst, val);
        if dst == RegisterCode::A && (src == RegisterCode::I || src == RegisterCode::R) {
            let f = FlagSet {
                sign: val >= 128,
                zero: val == 0,
                half_carry: false,
                parity_overflow: self.iff2,
                subtract: false,
                ..self.regs.f
            };
            self.set_flags(f);
        }
        self.tick_clock(4);
    }

    /// LD r, n
    fn ld_reg_lit(&mut self, dst: RegisterCode)
        ensures
            ({
                let (n, s) = old(self)@.next_byte();
                final(self)@ == s.set8(dst, n).tick(7)
            }),
    {
        let literal = self.next_byte();
        self.regs.set_reg_value(dst, literal);
        self.tick_clock(7);
    }

    /// LD r, (addr)
    fn ld_reg_addr(&mut self, dst: RegisterCode, addr: u16)
        ensures
            ({
                let (v, s) = old(self)@.fetch(addr);
                final(self)@ == s.set8(dst, v).tick(7)
            }),
    {
        let value = self.fetch(addr);
        self.regs.set_reg_value(dst, value);
        self.tick_clock(7);
    }

    /// LD (addr), r
    fn ld_addr_reg(&mut self, addr: u16, src: RegisterCode)
        ensures
            final(self)@ == old(self)@.store(addr, old(self)@.regs.get8(src)).tick(7),
    {
        let value = self.regs.reg_value(src);
        self.store(addr, value);
        self.tick_clock(7);
    }

    /// LD (addr), n
    fn ld_addr_lit(&mut self, addr: u16, lit: u8)
        ensures
            final(self)@ == old(self)@.store(addr, lit).tick(10),
    {
        self.store(addr, lit);
        self.tick_clock(10);
    }

    /// LD rr, nn
    fn ld_reg16_lit(&mut self, reg: RegisterCode16, lit: u16)
        ensures
            final(self)@ == old(self)@.set16(reg, lit).tick(10),
    {
        self.regs.set_reg_value_16(reg, lit);
        self.tick_clock(10);
    }

    fn fetch16(&mut self, addr: u16) -> (r: u16)
        ensures
            (r, final(self)@) == old(self)@.fetch16(addr),
    {
        let lo = self.fetch(addr);
        let hi = self.fetch(if addr == 0xFFFF { 0 } else { addr + 1 });
        hi as u16 * 256 + lo as u16
    }

    fn store16(&mut self, addr: u16, v: u16)
        ensures
            final(self)@ == old(self)@.store16(addr, v),
    {
        self.store(addr, (v % 256) as u8);
        self.store(if addr == 0xFFFF { 0 } else { addr + 1 }, (v / 256) as u8);
    }

    /// LD rr, (nn)
    fn ld_reg16_addr(&mut self, dst: RegisterCode16, addr: u16)
        ensures
            ({
                let (v, s) = old(self)@.fetch16(addr);
                final(self)@ == s.set16(dst, v).tick(16)
            }),
    {
        let v = self.fetch16(addr);
        self.regs.set_reg_value_16(dst, v);
        self.tick_clock(16);
    }

    /// LD rr, rr'
    fn ld_reg16_reg16(&mut self, dst: RegisterCode16, src: RegisterCode16)
        ensures
            final(self)@ == old(self)@.set16(dst, old(self)@.regs.get16(src)).tick(6),
    {
        let val = self.regs.reg_value_16(src);
        self.regs.set_reg_value_16(dst, val);
        self.tick_clock(6);
    }

    /// LD (nn), rr
    fn ld_addr_reg16(&mut self, addr: u16, src: RegisterCode16)
        ensures
            final(self)@ == old(self)@.store16(addr, old(self)@.regs.get16(src)).tick(16),
    {
        let val = self.regs.reg_value_16(src);
        self.store16(addr, val);
        self.tick_clock(16);
    }

    /// PUSH rr: high byte stored first, at the lower of the two new stack slots' upper one.
    pub fn push_reg16(&mut self, src: RegisterCode16)
        ensures
            final(self)@ == old(self)@.push16(old(self)@.regs.get16(src)).tick(11),
    {
        let val = self.regs.reg_value_16(src);
        self.push16(val);
        self.tick_clock(11);
    }

    /// POP rr: low byte popped first.
    pub fn pop_reg16(&mut self, dst: RegisterCode16)
        ensures
            ({
                let (v, s) = old(self)@.pop16();
                final(self)@ == s.set16(dst, v).tick(10)
            }),
    {
        let val = self.pop16();
        self.regs.set_reg_value_16(dst, val);
        self.tick_clock(10);
    }

    /// INC r
    pub fn inc_reg(&mut self, reg: RegisterCode)
        ensures
            final(self)@ == old(self)@.inc_r(reg).tick(4),
    {
        let (v, f) = alu::inc8(self.regs.reg_value(reg), self.regs.f);
        self.regs.set_reg_value(reg, v);
        self.set_flags(f);
        self.tick_clock(4);
    }

    /// INC (addr)
    pub fn inc_addr(&mut self, addr: u16)
        ensures
            final(self)@ == old(self)@.inc_m(addr).tick(11),
    {
        let m = self.fetch(addr);
        let (v, f) = alu::inc8(m, self.regs.f);
        self.store(addr, v);
        self.set_flags(f);
        self.tick_clock(11);
    }

    /// INC rr; flags untouched.
    pub fn inc_reg16(&mut self, reg: RegisterCode16)
        ensures
            final(self)@ == old(self)@.set16(reg, wrap16(old(self)@.regs.get16(reg) + 1)).tick(
                6,
            ),
    {
        let val = self.regs.reg_value_16(reg);
        self.regs.set_reg_value_16(reg, if val == 0xFFFF { 0 } else { val + 1 });
        self.tick_clock(6);
    }

    /// DEC r
    pub fn dec_reg(&mut self, reg: RegisterCode)
        ensures
            final(self)@ == old(self)@.dec_r(reg).tick(4),
    {
        let (v, f) = alu::dec8(self.regs.reg_value(reg), self.regs.f);
        self.regs.set_reg_value(reg, v);
        self.set_flags(f);
        self.tick_clock(4);
    }

    /// DEC (addr)
    pub fn dec_addr(&mut self, addr: u16)
        ensures
            final(self)@ == old(self)@.dec_m(addr).tick(11),
    {
        let m = self.fetch(addr);
        let (v, f) = alu::dec8(m, self.regs.f);
        self.store(addr, v);
        self.set_flags(f);
        self.tick_clock(11);
    }

    /// DEC rr; flags untouched.
    pub fn dec_reg16(&mut self, reg: RegisterCode16)
        ensures
            final(self)@ == old(self)@.set16(reg, wrap16(old(self)@.regs.get16(reg) + 65535)).tick(
                6,
            ),
    {
        let val = self.regs.reg_value_16(reg);
        self.regs.set_reg_value_16(reg, if val == 0 { 0xFFFF } else { val - 1 });
        self.tick_clock(6);
    }

    /// Adds `operand` to `acc`, plus one when `carry` is asked for and the
    /// Carry flag is set; sets the flags and returns the sum.
    pub fn add_val_val(&mut self, acc: u8, operand: u8, carry: bool) -> (r: u8)
        ensures
            ({
                let (v, f) = alu::add8_spec(acc, operand, carry && old(self)@.regs.f.carry, old(self)@.regs.f);
                r == v && final(self)@ == old(self)@.with_flags(f)
            }),
    {
        let (v, f) = alu::add8(acc, operand, carry && self.regs.f.carry, self.regs.f);
        self.set_flags(f);
        v
    }

    /// Subtracts `operand` and the carry-in `carry` from `acc`, sets the flags
    /// and returns the difference.
    pub fn sub_val_val(&mut self, acc: u8, operand: u8, carry: bool) -> (r: u8)
        ensures
            ({
                let (v, f) = alu::sub8_spec(acc, operand, carry, old(self)@.regs.f);
                r == v && final(self)@ == old(self)@.with_flags(f)
            }),
    {
        let (v, f) = alu::sub8(acc, operand, carry, self.regs.f);
        self.set_flags(f);
        v
    }

    /// `op` on A with `operand`, without spending time.
    fn alu_a(&mut self, op: AluOp, operand: u8)
        ensures
            final(self)@ == old(self)@.alu_a(op, operand),
    {
        let a = self.regs.a;
        let f = self.regs.f;
        let (v, nf) = match op {
            AluOp::Add => alu::add8(a, operand, false, f),
            AluOp::Adc => alu::add8(a, operand, f.carry, f),
            AluOp::Sub => alu::sub8(a, operand, false, f),
            AluOp::Sbc => alu::sub8(a, operand, f.carry, f),
            AluOp::And => alu::and8(a, operand, f),
            AluOp::Xor => alu::xor8(a, operand, f),
            AluOp::Or => alu::or8(a, operand, f),
            AluOp::Cp => (a, alu::sub8(a, operand, false, f).1),
        };
        self.regs.a = v;
        self.regs.f = nf;
    }

    /// `op` A, r
    pub fn alu_a_reg(&mut self, op: AluOp, reg: RegisterCode)
        ensures
            final(self)@ == old(self)@.alu_a(op, old(self)@.regs.get8(reg)).tick(4),
    {
        let v = self.regs.reg_value(reg);
        self.alu_a(op, v);
        self.tick_clock(4);
    }

    /// `op` A, (addr)
    pub fn alu_a_addr(&mut self, op: AluOp, addr: u16)
        ensures
            ({
                let (v, s) = old(self)@.fetch(addr);
                final(self)@ == s.alu_a(op, v).tick(7)
            }),
    {
        let v = self.fetch(addr);
        self.alu_a(op, v);
        self.tick_clock(7);
    }

    /// `op` A, n
    pub fn alu_a_lit(&mut self, op: AluOp, lit: u8)
        ensures
            final(self)@ == old(self)@.alu_a(op, lit).tick(7),
    {
        self.alu_a(op, lit);
        self.tick_clock(7);
    }

    /// ADD A, r
    pub fn add_a_reg(&mut self, reg: RegisterCode)
        ensures
            final(self)@ == old(self)@.alu_a(AluOp::Add, old(self)@.regs.get8(reg)).tick(4),
    {
        self.alu_a_reg(AluOp::Add, reg);
    }

    /// ADD A, (addr)
    pub fn add_a_addr(&mut self, addr: u16)
        ensures
            ({
                let (v, s) = old(self)@.fetch(addr);
                final(self)@ == s.alu_a(AluOp::Add, v).tick(7)
            }),
    {
        self.alu_a_addr(AluOp::Add, addr);
    }

    /// ADC A, r
    pub fn add_a_reg_carry(&mut self, reg: RegisterCode)
        ensures
            final(self)@ == old(self)@.alu_a(AluOp::Adc, old(self)@.regs.get8(reg)).tick(4),
    {
        self.alu_a_reg(AluOp::Adc, reg);
    }

    /// SBC A, r
    pub fn sub_a_reg_carry(&mut self, reg: RegisterCode)
        ensures
            final(self)@ == old(self)@.alu_a(AluOp::Sbc, old(self)@.regs.get8(reg)).tick(4),
    {
        self.alu_a_reg(AluOp::Sbc, reg);
    }

    /// ADD HL, rr (or IX/IY): only HalfCarry, Subtract and Carry change.
    fn add_reg16_reg16(&mut self, to: RegisterCode16, operand: RegisterCode16)
        ensures
            final(self)@ == old(self)@.add_rr(to, operand).tick(11),
    {
        let (v, f) = alu::add16(self.regs.reg_value_16(to), self.regs.reg_value_16(operand), self.regs.f);
        self.regs.set_reg_value_16(to, v);
        self.set_flags(f);
        self.tick_clock(11);
    }

    /// ADC HL, rr
    fn adc_reg16_reg16(&mut self, to: RegisterCode16, operand: RegisterCode16)
        ensures
            final(self)@ == old(self)@.adc_rr(to, operand).tick(15),
    {
        let (v, f) = alu::adc16(self.regs.reg_value_16(to), self.regs.reg_value_16(operand), self.regs.f.carry, self.regs.f);
        self.regs.set_reg_value_16(to, v);
        self.set_flags(f);
        self.tick_clock(15);
    }

    /// SBC HL, rr
    pub fn sbc_reg16_reg16(&mut self, to: RegisterCode16, operand: RegisterCode16)
        ensures
            final(self)@ == old(self)@.sbc_rr(to, operand).tick(15),
    {
        let (v, f) = alu::sbc16(self.regs.reg_value_16(to), self.regs.reg_value_16(operand), self.regs.f.carry, self.regs.f);
        self.regs.set_reg_value_16(to, v);
        self.set_flags(f);
        self.tick_clock(15);
    }
}


/// The eight rotate and shift operations of the bits plane, in opcode order.
#[derive(Debug, Copy, Clone, PartialEq, Eq, Structural)]
pub enum ShiftOp {
    Rlc,
    Rrc,
    Rl,
    Rr,
    Sla,
    Sra,
    Sll,
    Srl,
}

pub open spec fn shift_spec(op: ShiftOp, v: u8, f: FlagSet) -> (u8, FlagSet) {
    match op {
        ShiftOp::Rlc => alu::rlc_spec(v, f),
        ShiftOp::Rrc => alu::rrc_spec(v, f),
        ShiftOp::Rl => alu::rl_spec(v, f),
        ShiftOp::Rr => alu::rr_spec(v, f),
        ShiftOp::Sla => alu::sla_spec(v, f),
        ShiftOp::Sra => alu::sra_spec(v, f),
        ShiftOp::Sll => alu::sll_spec(v, f),
        ShiftOp::Srl => alu::srl_spec(v, f),
    }
}

/// Whether the flag `flag` equals `is_set`.
pub open spec fn cond_holds(s: CpuView, flag: Flags, is_set: bool) -> bool {
    s.regs.f.get(flag) == is_set
}

impl CpuView {
    pub open spec fn shift_r(self, op: ShiftOp, code: RegisterCode) -> CpuView {
        let (v, f) = shift_spec(op, self.regs.get8(code), self.regs.f);
        self.set8(code, v).with_flags(f)
    }

    pub open spec fn shift_m(self, op: ShiftOp, addr: u16) -> CpuView {
        let (m, s) = self.fetch(addr);
        let (v, f) = shift_spec(op, m, s.regs.f);
        s.store(addr, v).with_flags(f)
    }

    /// The accumulator rotate `op`: Sign, Zero and Parity stay.
    pub open spec fn rotate_a(self, op: ShiftOp) -> CpuView {
        let (v, f) = alu::acc_rotate_spec(shift_spec(op, self.regs.a, self.regs.f), self.regs.f);
        self.set8(RegisterCode::A, v).with_flags(f)
    }

    pub open spec fn jump(self, addr: u16) -> CpuView {
        self.set16(RegisterCode16::PC, addr)
    }

    /// A call: PC pushed, then PC set to `addr`.
    pub open spec fn call(self, addr: u16) -> CpuView {
        self.push16(self.regs.pc).jump(addr)
    }

    /// A return: PC popped.
    pub open spec fn ret(self) -> CpuView {
        let (v, s) = self.pop16();
        s.jump(v)
    }

    /// EX (SP), rr: the word at SP and the register exchanged.
    pub open spec fn ex_sp(self, reg: RegisterCode16) -> CpuView {
        let sp = self.regs.sp;
        let (lo, s1) = self.fetch(sp);
        let (hi, s2) = s1.fetch(wrap16(sp + 1));
        let v = s2.regs.get16(reg);
        s2.store(sp, low(v)).store(wrap16(sp + 1), high(v)).set16(reg, pair(hi, lo))
    }

    /// The maskable interrupt in mode 1: PC pushed, jump to 0x0038; 8 T-states,
    /// the pushes included.
    pub open spec fn interrupt_1(self) -> CpuView {
        CpuView { halted: false, ..self }.call(0x0038).tick(8)
    }

    /// The non-maskable interrupt: PC pushed, IFF1 kept in IFF2 and cleared, jump to 0x0066.
    pub open spec fn interrupt_nomask(self) -> CpuView {
        CpuView { iff2: self.iff1, iff1: false, ..self.push16(self.regs.pc) }.jump(0x0066).tick(11)
    }

    /// The reset vector: PC, I and R zero, interrupts disabled.
    pub open spec fn reset(self) -> CpuView {
        CpuView {
            regs: Registers { pc: 0, i: 0, r: 0, ..self.regs },
            iff1: false,
            iff2: false,
            ..self
        }
    }
}

impl Cpu {
    fn shift_val(op: ShiftOp, v: u8, f: FlagSet) -> (r: (u8, FlagSet))
        ensures
            r == shift_spec(op, v, f),
    {
        match op {
            ShiftOp::Rlc => alu::rlc(v, f),
            ShiftOp::Rrc => alu::rrc(v, f),
            ShiftOp::Rl => alu::rl(v, f),
            ShiftOp::Rr => alu::rr(v, f),
            ShiftOp::Sla => alu::sla(v, f),
            ShiftOp::Sra => alu::sra(v, f),
            ShiftOp::Sll => alu::sll(v, f),
            ShiftOp::Srl => alu::srl(v, f),
        }
    }

    /// A rotate or shift of a register.
    fn shift_reg(&mut self, op: ShiftOp, src: RegisterCode)
        ensures
            final(self)@ == old(self)@.shift_r(op, src).tick(8),
    {
        let (v, f) = Cpu::shift_val(op, self.regs.reg_value(src), self.regs.f);
        self.regs.set_reg_value(src, v);
        self.set_flags(f);
        self.tick_clock(8);
    }

    /// A rotate or shift of a memory byte.
    fn shift_addr(&mut self, op: ShiftOp, addr: u16)
        ensures
            final(self)@ == old(self)@.shift_m(op, addr).tick(15),
    {
        let m = self.fetch(addr);
        let (v, f) = Cpu::shift_val(op, m, self.regs.f);
        self.store(addr, v);
        self.set_flags(f);
        self.tick_clock(15);
    }

    /// RLCA, RRCA, RLA, RRA.
    fn rotate_acc(&mut self, op: ShiftOp)
        ensures
            final(self)@ == old(self)@.rotate_a(op).tick(4),
    {
        let f = self.regs.f;
        let (v, nf) = Cpu::shift_val(op, self.regs.a, f);
        self.regs.a = v;
        self.regs.f = FlagSet { half_carry: false, subtract: false, carry: nf.carry, ..f };
        self.tick_clock(4);
    }

    /// BIT n, r
    fn test_bit_reg(&mut self, src: RegisterCode, bit: u8)
        requires
            bit < 8,
        ensures
            final(self)@ == old(self)@.with_flags(
                alu::bit_flags_spec(old(self)@.regs.get8(src), bit, old(self)@.regs.f),
            ).tick(8),
    {
        let v = self.regs.reg_value(src);
        let is_set = alu::test_bit(v, bit);
        let f = FlagSet { zero: !is_set, half_carry: true, subtract: false, ..self.regs.f };
        self.set_flags(f);
        self.tick_clock(8);
    }

    /// BIT n, (addr)
    fn test_bit_addr(&mut self, addr: u16, bit: u8)
        requires
            bit < 8,
        ensures
            ({
                let (v, s) = old(self)@.fetch(addr);
                final(self)@ == s.with_flags(alu::bit_flags_spec(v, bit, s.regs.f)).tick(12)
            }),
    {
        let v = self.fetch(addr);
        let is_set = alu::test_bit(v, bit);
        let f = FlagSet { zero: !is_set, half_carry: true, subtract: false, ..self.regs.f };
        self.set_flags(f);
        self.tick_clock(12);
    }

    /// SET n, r or RES n, r
    fn change_bit_reg(&mut self, src: RegisterCode, bit: u8, set: bool)
        requires
            bit < 8,
        ensures
            ({
                let v = old(self)@.regs.get8(src);
                final(self)@ == old(self)@.set8(
                    src,
                    if set {
                        v | (1u8 << bit)
                    } else {
                        v & !(1u8 << bit)
                    },
                ).tick(8)
            }),
    {
        let val = self.regs.reg_value(src);
        let output = if set {
            alu::set_bit(val, bit)
        } else {
            alu::res_bit(val, bit)
        };
        self.regs.set_reg_value(src, output);
        self.tick_clock(8);
    }

    /// SET n, (addr) or RES n, (addr)
    fn change_bit_addr(&mut self, addr: u16, bit: u8, set: bool)
        requires
            bit < 8,
        ensures
            ({
                let (v, s) = old(self)@.fetch(addr);
                final(self)@ == s.store(
                    addr,
                    if set {
                        v | (1u8 << bit)
                    } else {
                        v & !(1u8 << bit)
                    },
                ).tick(15)
            }),
    {
        let val = self.fetch(addr);
        let output = if set {
            alu::set_bit(val, bit)
        } else {
            alu::res_bit(val, bit)
        };
        self.store(addr, output);
        self.tick_clock(15);
    }

    /// JP nn
    fn jmp(&mut self, addr: u16)
        ensures
            final(self)@ == old(self)@.jump(addr).tick(10),
    {
        self.set_pc(addr);
        self.tick_clock(10);
    }

    /// JP (rr)
    fn jmp_addr(&mut self, src: RegisterCode16)
        ensures
            final(self)@ == old(self)@.jump(old(self)@.regs.get16(src)).tick(4),
    {
        let addr = self.regs.reg_value_16(src);
        self.set_pc(addr);
        self.tick_clock(4);
    }

    /// JR d
    fn jmp_rel(&mut self)
        ensures
            ({
                let (t, s) = old(self)@.rel_target();
                final(self)@ == s.jump(t).tick(12)
            }),
    {
        let addr = self.rel_addr();
        self.set_pc(addr);
        self.tick_clock(12);
    }

    /// JP cc, nn: 10 T-states whether taken or not.
    fn jmp_cond(&mut self, addr: u16, flag: Flags, is_set: bool)
        ensures
            final(self)@ == if cond_holds(old(self)@, flag, is_set) {
                old(self)@.jump(addr).tick(10)
            } else {
                old(self)@.tick(10)
            },
    {
        if self.regs.flag(flag) == is_set {
            self.set_pc(addr);
        }
        self.tick_clock(10);
    }

    /// JR cc, d: 12 T-states taken, 7 not taken.
    fn jr_cond(&mut self, flag: Flags, is_set: bool)
        ensures
            ({
                let (t, s) = old(self)@.rel_target();
                final(self)@ == if cond_holds(old(self)@, flag, is_set) {
                    s.jump(t).tick(12)
                } else {
                    s.tick(7)
                }
            }),
    {
        let addr = self.rel_addr();
        if self.regs.flag(flag) == is_set {
            self.set_pc(addr);
            self.tick_clock(12);
        } else {
            self.tick_clock(7);
        }
    }

    /// DJNZ d: B counts down; the jump is taken while B is not zero.
    fn djnz(&mut self)
        ensures
            ({
                let (t, s) = old(self)@.rel_target();
                let b = ((s.regs.b + 255) % 256) as u8;
                let s2 = s.set8(RegisterCode::B, b);
                final(self)@ == if b != 0 {
                    s2.jump(t).tick(13)
                } else {
                    s2.tick(8)
                }
            }),
    {
        let addr = self.rel_addr();
        let b = self.regs.b;
        let b = if b == 0 { 0xFF } else { b - 1 };
        self.regs.set_reg_value(RegisterCode::B, b);
        if b != 0 {
            self.set_pc(addr);
            self.tick_clock(13);
        } else {
            self.tick_clock(8);
        }
    }

    fn ex_de_hl(&mut self)
        ensures
            final(self)@ == old(self)@.with_regs(old(self)@.regs.ex_de_hl_spec()).tick(4),
    {
        self.regs.ex_de_hl();
        self.tick_clock(4);
    }

    fn ex_af_altaf(&mut self)
        ensures
            final(self)@ == old(self)@.with_regs(old(self)@.regs.ex_af_spec()).tick(4),
    {
        self.regs.ex_af();
        self.tick_clock(4);
    }

    /// EXX
    pub fn exx(&mut self)
        ensures
            final(self)@ == old(self)@.with_regs(old(self)@.regs.exx_spec()).tick(4),
    {
        self.regs.exx();
        self.tick_clock(4);
    }

    /// EX (SP), HL (or IX, IY).
    pub fn ex_spptr_reg(&mut self, reg_code: RegisterCode16)
        ensures
            final(self)@ == old(self)@.ex_sp(reg_code).tick(19),
    {
        let sp = self.regs.sp;
        let sp1 = if sp == 0xFFFF { 0 } else { sp + 1 };
        let lo = self.fetch(sp);
        let hi = self.fetch(sp1);
        let v = self.regs.reg_value_16(reg_code);
        self.store(sp, (v % 256) as u8);
        self.store(sp1, (v / 256) as u8);
        self.regs.set_reg_value_16(reg_code, hi as u16 * 256 + lo as u16);
        self.tick_clock(19);
    }

    /// DAA: adjusts A after BCD arithmetic.
    fn daa(&mut self)
        ensures
            final(self)@ == old(self)@.acc_op(alu::daa_spec(old(self)@.regs.a, old(self)@.regs.f)).tick(4),
    {
        let (v, f) = alu::daa(self.regs.a, self.regs.f);
        self.regs.a = v;
        self.set_flags(f);
        self.tick_clock(4);
    }

    /// CPL
    fn cpl(&mut self)
        ensures
            final(self)@ == old(self)@.acc_op(alu::cpl_spec(old(self)@.regs.a, old(self)@.regs.f)).tick(4),
    {
        let (v, f) = alu::cpl(self.regs.a, self.regs.f);
        self.regs.a = v;
        self.set_flags(f);
        self.tick_clock(4);
    }

    /// NEG: A becomes 0 - A.
    pub fn neg(&mut self)
        ensures
            final(self)@ == old(self)@.acc_op(alu::neg_spec(old(self)@.regs.a, old(self)@.regs.f)).tick(8),
    {
        let (v, f) = alu::neg(self.regs.a, self.regs.f);
        self.regs.a = v;
        self.set_flags(f);
        self.tick_clock(8);
    }

    /// CCF
    fn ccf(&mut self)
        ensures
            final(self)@ == old(self)@.with_flags(alu::ccf_spec(old(self)@.regs.f)).tick(4),
    {
        let f = self.regs.f;
        self.set_flags(FlagSet { half_carry: f.carry, subtract: false, carry: !f.carry, ..f });
        self.tick_clock(4);
    }

    /// SCF
    fn scf(&mut self)
        ensures
            final(self)@ == old(self)@.with_flags(alu::scf_spec(old(self)@.regs.f)).tick(4),
    {
        let f = self.regs.f;
        self.set_flags(FlagSet { half_carry: false, subtract: false, carry: true, ..f });
        self.tick_clock(4);
    }

    /// HALT: the CPU idles until an interrupt or a reset.
    pub fn halt(&mut self)
        ensures
            final(self)@ == (CpuView { halted: true, ..old(self)@ }).tick(4),
    {
        self.halted = true;
        self.tick_clock(4);
    }

    /// The reset vector.
    pub fn reset(&mut self)
        ensures
            final(self)@ == old(self)@.reset(),
    {
        self.regs.pc = 0;
        self.regs.i = 0;
        self.regs.r = 0;
        self.iff1 = false;
        self.iff2 = false;
    }

    /// DI
    fn disable_intrpt(&mut self)
        ensures
            final(self)@ == (CpuView { iff1: false, iff2: false, ..old(self)@ }).tick(4),
    {
        self.iff1 = false;
        self.iff2 = false;
        self.tick_clock(4);
    }

    /// EI: the instruction after it cannot be interrupted.
    fn enable_intrpt(&mut self)
        ensures
            final(self)@ == (CpuView {
                iff1: true,
                iff2: true,
                interrupt_count: 2,
                ..old(self)@
            }).tick(4),
    {
        self.iff1 = true;
        self.iff2 = true;
        self.interrupt_count = 2;
        self.tick_clock(4);
    }

    /// CALL nn
    fn call_addr(&mut self, addr: u16)
        ensures
            final(self)@ == old(self)@.call(addr).tick(17),
    {
        self.push_pc();
        self.set_pc(addr);
        self.tick_clock(17);
    }

    /// CALL cc, nn: 17 T-states taken, 10 not taken.
    fn call_cond_addr(&mut self, addr: u16, flag: Flags, is_set: bool)
        ensures
            final(self)@ == if cond_holds(old(self)@, flag, is_set) {
                old(self)@.call(addr).tick(17)
            } else {
                old(self)@.tick(10)
            },
    {
        if self.regs.flag(flag) != is_set {
            self.tick_clock(10);
            return;
        }
        self.push_pc();
        self.set_pc(addr);
        self.tick_clock(17);
    }

    /// RET
    fn ret(&mut self)
        ensures
            final(self)@ == old(self)@.ret().tick(10),
    {
        self.pop_pc();
        self.tick_clock(10);
    }

    /// RET cc: 11 T-states taken, 5 not taken.
    fn ret_cond(&mut self, flag: Flags, is_set: bool)
        ensures
            final(self)@ == if cond_holds(old(self)@, flag, is_set) {
                old(self)@.ret().tick(11)
            } else {
                old(self)@.tick(5)
            },
    {
        if self.regs.flag(flag) != is_set {
            self.tick_clock(5);
            return;
        }
        self.pop_pc();
        self.tick_clock(11);
    }

    /// RST n: a call to the page-zero vector `offset`.
    fn rst_lit(&mut self, offset: u8)
        ensures
            final(self)@ == old(self)@.call(offset as u16).tick(11),
    {
        self.push_pc();
        self.set_pc(offset as u16);
        self.tick_clock(11);
    }

    /// RETN: IFF1 restored from IFF2, then a return.
    fn retn(&mut self)
        ensures
            final(self)@ == (CpuView { iff1: old(self)@.iff2, ..old(self)@ }).ret().tick(14),
    {
        self.iff1 = self.iff2;
        self.pop_pc();
        self.tick_clock(14);
    }

    /// RETI
    fn reti(&mut self)
        ensures
            final(self)@ == old(self)@.ret().tick(14),
    {
        self.pop_pc();
        self.tick_clock(14);
    }

    /// IM n: only mode 1 is served, so selecting a mode does nothing else.
    fn interrupt_mode(&mut self)
        ensures
            final(self)@ == old(self)@.tick(8),
    {
        self.tick_clock(8);
    }

    /// Serves the maskable interrupt in mode 1.
    fn interrupt_1(&mut self)
        ensures
            final(self)@ == old(self)@.interrupt_1(),
    {
        self.halted = false;
        self.push_pc();
        self.set_pc(0x0038);
        self.tick_clock(8);
    }

    /// Serves the non-maskable interrupt.
    fn interrupt_nomask(&mut self)
        ensures
            final(self)@ == old(self)@.interrupt_nomask(),
    {
        self.push_pc();
        self.iff2 = self.iff1;
        self.iff1 = false;
        self.set_pc(0x0066);
        self.tick_clock(11);
    }
}


/// `v` moved one step up (`inc`) or down, wrapping.
pub open spec fn step16(v: u16, inc: bool) -> u16 {
    if inc {
        wrap16(v + 1)
    } else {
        wrap16(v + 65535)
    }
}

impl CpuView {
    /// PC moved back over a two-byte instruction, so that it runs again.
    pub open spec fn rewind(self) -> CpuView {
        self.jump(wrap16(self.regs.pc + 65534))
    }

    /// LDI / LDD: (HL) copied to (DE), HL and DE stepped, BC counted down.
    pub open spec fn ld_block(self, inc: bool) -> CpuView {
        let hl = self.regs.get16(RegisterCode16::HL);
        let de = self.regs.get16(RegisterCode16::DE);
        let bc = wrap16(self.regs.get16(RegisterCode16::BC) + 65535);
        let (v, s1) = self.fetch(hl);
        let s2 = s1.store(de, v);
        s2.set16(RegisterCode16::HL, step16(hl, inc)).set16(RegisterCode16::DE, step16(de, inc)).set16(
            RegisterCode16::BC,
            bc,
        ).with_flags(
            FlagSet { half_carry: false, parity_overflow: bc != 0, subtract: false, ..s2.regs.f },
        )
    }

    /// LDIR / LDDR, one iteration: runs again while BC is not zero.
    #[verifier::opaque]
    pub open spec fn ld_block_repeat(self, inc: bool) -> CpuView {
        let s = self.ld_block(inc).tick(16);
        if s.regs.get16(RegisterCode16::BC) != 0 {
            s.rewind().tick(5)
        } else {
            s
        }
    }

    /// CPI / CPD: A compared with (HL), HL stepped, BC counted down.
    pub open spec fn cp_block(self, inc: bool) -> CpuView {
        let hl = self.regs.get16(RegisterCode16::HL);
        let bc = wrap16(self.regs.get16(RegisterCode16::BC) + 65535);
        let (m, s1) = self.fetch(hl);
        let f = alu::cp_block_flags_spec(s1.regs.a, m, bc, s1.regs.f);
        s1.set16(RegisterCode16::HL, step16(hl, inc)).set16(RegisterCode16::BC, bc).with_flags(f)
    }

    /// CPIR / CPDR, one iteration: runs again while BC is not zero and no match was found.
    pub open spec fn cp_block_repeat(self, inc: bool) -> CpuView {
        let s = self.cp_block(inc).tick(16);
        if s.regs.get16(RegisterCode16::BC) != 0 && !s.regs.f.zero {
            s.rewind().tick(5)
        } else {
            s
        }
    }

    /// OUTI / OUTD: B counted down, (HL) sent to port BC, HL stepped.
    pub open spec fn out_block(self, inc: bool) -> CpuView {
        let hl = self.regs.get16(RegisterCode16::HL);
        let (v, s1) = self.fetch(hl);
        let b = ((s1.regs.b + 255) % 256) as u8;
        let s2 = s1.set8(RegisterCode::B, b);
        let s3 = s2.port_out(s2.regs.get16(RegisterCode16::BC), v);
        s3.set16(RegisterCode16::HL, step16(hl, inc)).with_flags(
            FlagSet { zero: b == 0, subtract: true, ..s3.regs.f },
        )
    }

    pub open spec fn out_block_repeat(self, inc: bool) -> CpuView {
        let s = self.out_block(inc).tick(16);
        if s.regs.b != 0 {
            s.rewind().tick(5)
        } else {
            s
        }
    }

    /// INI / IND: port BC read into (HL), B counted down, HL stepped.
    pub open spec fn in_block(self, inc: bool) -> CpuView {
        let hl = self.regs.get16(RegisterCode16::HL);
        let (v, s1) = self.port_in(self.regs.get16(RegisterCode16::BC));
        let s2 = s1.store(hl, v);
        let b = ((s2.regs.b + 255) % 256) as u8;
        s2.set8(RegisterCode::B, b).set16(RegisterCode16::HL, step16(hl, inc)).with_flags(
            FlagSet { zero: b == 0, subtract: true, ..s2.regs.f },
        )
    }

    pub open spec fn in_block_repeat(self, inc: bool) -> CpuView {
        let s = self.in_block(inc).tick(16);
        if s.regs.b != 0 {
            s.rewind().tick(5)
        } else {
            s
        }
    }
}

impl Cpu {
    fn step16(v: u16, inc: bool) -> (r: u16)
        ensures
            r == step16(v, inc),
    {
        if inc {
            if v == 0xFFFF { 0 } else { v + 1 }
        } else {
            if v == 0 { 0xFFFF } else { v - 1 }
        }
    }

    /// PC moved back one byte.
    fn rewind_one(&mut self)
        ensures
            final(self)@ == old(self)@.jump(wrap16(old(self)@.regs.pc + 65535)),
    {
        let pc = self.regs.pc;
        self.set_pc(if pc == 0 { 0xFFFF } else { pc - 1 });
    }

    fn rewind_pc(&mut self)
        ensures
            final(self)@ == old(self)@.rewind(),
    {
        let pc = self.regs.pc;
        self.set_pc(if pc < 2 { pc + 65534 } else { pc - 2 });
    }

    #[verifier::rlimit(40)]
    fn ld_block(&mut self, inc: bool)
        ensures
            final(self)@ == old(self)@.ld_block(inc),
    {
        let hl = self.regs.reg_value_16(RegisterCode16::HL);
        let de = self.regs.reg_value_16(RegisterCode16::DE);
        let bc = self.regs.reg_value_16(RegisterCode16::BC);
        let bc = if bc == 0 { 0xFFFF } else { bc - 1 };
        let v = self.fetch(hl);
        self.store(de, v);
        self.regs.set_reg_value_16(RegisterCode16::HL, Cpu::step16(hl, inc));
        self.regs.set_reg_value_16(RegisterCode16::DE, Cpu::step16(de, inc));
        self.regs.set_reg_value_16(RegisterCode16::BC, bc);
        let f = FlagSet { half_carry: false, parity_overflow: bc != 0, subtract: false, ..self.regs.f };
        self.set_flags(f);
    }

    /// LDI (`is_inc`) or LDD.
    pub fn ld_id(&mut self, is_inc: bool)
        ensures
            final(self)@ == old(self)@.ld_block(is_inc).tick(16),
    {
        self.ld_block(is_inc);
        self.tick_clock(16);
    }

    /// LDIR or LDDR, one iteration; PC is rewound while BC is not zero, so the
    /// instruction runs again and interrupts are served in between.
    pub fn ld_id_r(&mut self, is_inc: bool)
        ensures
            final(self)@ == old(self)@.ld_block_repeat(is_inc),
            old(self)@.clock <= final(self)@.clock,
    {
        proof {
            reveal(CpuView::ld_block_repeat);
        }
        self.ld_id(is_inc);
        if self.regs.reg_value_16(RegisterCode16::BC) != 0 {
            self.rewind_pc();
            self.tick_clock(5);
        }
    }

    fn cp_block(&mut self, inc: bool)
        ensures
            final(self)@ == old(self)@.cp_block(inc),
    {
        let hl = self.regs.reg_value_16(RegisterCode16::HL);
        let bc = self.regs.reg_value_16(RegisterCode16::BC);
        let bc = if bc == 0 { 0xFFFF } else { bc - 1 };
        let m = self.fetch(hl);
        let s = alu::sub8(self.regs.a, m, false, self.regs.f).1;
        let f = FlagSet { parity_overflow: bc != 0, carry: self.regs.f.carry, ..s };
        self.regs.set_reg_value_16(RegisterCode16::HL, Cpu::step16(hl, inc));
        self.regs.set_reg_value_16(RegisterCode16::BC, bc);
        self.set_flags(f);
    }

    /// CPI (`is_inc`) or CPD.
    pub fn cp_id(&mut self, is_inc: bool)
        ensures
            final(self)@ == old(self)@.cp_block(is_inc).tick(16),
    {
        self.cp_block(is_inc);
        self.tick_clock(16);
    }

    /// CPIR or CPDR, one iteration; PC is rewound while BC is not zero and A
    /// differs from the byte just compared.
    pub fn cp_id_r(&mut self, is_inc: bool)
        ensures
            final(self)@ == old(self)@.cp_block_repeat(is_inc),
    {
        self.cp_id(is_inc);
        if self.regs.reg_value_16(RegisterCode16::BC) != 0 && !self.regs.f.zero {
            self.rewind_pc();
            self.tick_clock(5);
        }
    }

    /// RRD
    fn rrd(&mut self)
        ensures
            final(self)@ == old(self)@.nibble_rotate(true).tick(18),
    {
        let hl = self.regs.reg_value_16(RegisterCode16::HL);
        let m = self.fetch(hl);
        let (na, nm, f) = alu::rrd(self.regs.a, m, self.regs.f);
        self.store(hl, nm);
        self.regs.a = na;
        self.set_flags(f);
        self.tick_clock(18);
    }

    /// RLD
    fn rld(&mut self)
        ensures
            final(self)@ == old(self)@.nibble_rotate(false).tick(18),
    {
        let hl = self.regs.reg_value_16(RegisterCode16::HL);
        let m = self.fetch(hl);
        let (na, nm, f) = alu::rld(self.regs.a, m, self.regs.f);
        self.store(hl, nm);
        self.regs.a = na;
        self.set_flags(f);
        self.tick_clock(18);
    }

    /// OUT (n), A: the port address is A in the high byte and n in the low.
    fn out_a_lit(&mut self)
        ensures
            ({
                let (n, s) = old(self)@.next_byte();
                final(self)@ == s.port_out(pair(s.regs.a, n), s.regs.a).tick(11)
            }),
    {
        let n = self.imm_addr();
        let a = self.regs.a;
        self.out_addr_val(a as u16 * 256 + n as u16, a);
        self.tick_clock(11);
    }

    /// OUT (C), r; with no register, zero is sent.
    fn out_c_reg(&mut self, src: Option<RegisterCode>)
        ensures
            final(self)@ == old(self)@.out_c(src).tick(12),
    {
        let val = match src {
            Some(r) => self.regs.reg_value(r),
            None => 0,
        };
        let port = self.regs.reg_value_16(RegisterCode16::BC);
        self.out_addr_val(port, val);
        self.tick_clock(12);
    }

    fn out_block(&mut self, inc: bool)
        ensures
            final(self)@ == old(self)@.out_block(inc),
    {
        let hl = self.regs.reg_value_16(RegisterCode16::HL);
        let v = self.fetch(hl);
        let b = self.regs.b;
        let b = if b == 0 { 0xFF } else { b - 1 };
        self.regs.set_reg_value(RegisterCode::B, b);
        let port = self.regs.reg_value_16(RegisterCode16::BC);
        self.out_addr_val(port, v);
        self.regs.set_reg_value_16(RegisterCode16::HL, Cpu::step16(hl, inc));
        let f = FlagSet { zero: b == 0, subtract: true, ..self.regs.f };
        self.set_flags(f);
    }

    /// OUTI (`inc`) or OUTD.
    fn out_id(&mut self, inc: bool)
        ensures
            final(self)@ == old(self)@.out_block(inc).tick(16),
    {
        self.out_block(inc);
        self.tick_clock(16);
    }

    /// OTIR or OTDR, one iteration; repeats while B is not zero.
    fn out_id_rep(&mut self, inc: bool)
        ensures
            final(self)@ == old(self)@.out_block_repeat(inc),
    {
        self.out_id(inc);
        if self.regs.b != 0 {
            self.rewind_pc();
            self.tick_clock(5);
        }
    }

    /// IN A, (n); flags untouched.
    fn in_a_lit(&mut self)
        ensures
            ({
                let (n, s) = old(self)@.next_byte();
                let (v, s2) = s.port_in(pair(s.regs.a, n));
                final(self)@ == s2.set8(RegisterCode::A, v).tick(11)
            }),
    {
        let n = self.imm_addr();
        let a = self.regs.a;
        let v = self.in_addr(a as u16 * 256 + n as u16);
        self.regs.a = v;
        self.tick_clock(11);
    }

    /// IN r, (C); with no register only the flags are set.
    fn in_reg_c(&mut self, dst: Option<RegisterCode>)
        ensures
            final(self)@ == old(self)@.in_c(dst).tick(12),
    {
        let port = self.regs.reg_value_16(RegisterCode16::BC);
        let v = self.in_addr(port);
        match dst {
            Some(r) => self.regs.set_reg_value(r, v),
            None => {},
        }
        let f = FlagSet {
            sign: v >= 128,
            zero: v == 0,
            half_carry: false,
            parity_overflow: alu::parity_even(v),
            subtract: false,
            ..self.regs.f
        };
        self.set_flags(f);
        self.tick_clock(12);
    }

    fn in_block(&mut self, inc: bool)
        ensures
            final(self)@ == old(self)@.in_block(inc),
    {
        let hl = self.regs.reg_value_16(RegisterCode16::HL);
        let port = self.regs.reg_value_16(RegisterCode16::BC);
        let v = self.in_addr(port);
        self.store(hl, v);
        let b = self.regs.b;
        let b = if b == 0 { 0xFF } else { b - 1 };
        self.regs.set_reg_value(RegisterCode::B, b);
        self.regs.set_reg_value_16(RegisterCode16::HL, Cpu::step16(hl, inc));
        let f = FlagSet { zero: b == 0, subtract: true, ..self.regs.f };
        self.set_flags(f);
    }

    /// INI (`inc`) or IND.
    fn in_id(&mut self, inc: bool)
        ensures
            final(self)@ == old(self)@.in_block(inc).tick(16),
    {
        self.in_block(inc);
        self.tick_clock(16);
    }

    /// INIR or INDR, one iteration; repeats while B is not zero.
    fn in_id_rep(&mut self, inc: bool)
        ensures
            final(self)@ == old(self)@.in_block_repeat(inc),
    {
        self.in_id(inc);
        if self.regs.b != 0 {
            self.rewind_pc();
            self.tick_clock(5);
        }
    }
}


/// What one `Cpu::do_operation` does: a pending reset, else a non-maskable
/// interrupt, else a maskable one when IFF1 is set and no EI grace is left,
/// else a no-op while halted, else the instruction at PC.
#[verifier::opaque]
pub open spec fn cpu_step(s: CpuView) -> CpuView {
    if s.reset_req {
        (CpuView { reset_req: false, halted: false, ..s }).reset()
    } else if s.nomask_interrupt {
        (CpuView { nomask_interrupt: false, halted: false, ..s }).interrupt_nomask()
    } else if s.mask_interrupt && s.iff1 && s.interrupt_count == 0 {
        (CpuView { mask_interrupt: false, ..s }).interrupt_1()
    } else if s.halted {
        s.tick(4)
    } else {
        let (b, t) = s.next_byte();
        main_effect(t, decode_spec(b), IndexMode::HL).count_down()
    }
}

impl CpuView {
    /// The grace counter after an executed instruction.
    pub open spec fn count_down(self) -> CpuView {
        CpuView {
            interrupt_count: if self.interrupt_count > 0 {
                (self.interrupt_count - 1) as u8
            } else {
                0
            },
            ..self
        }
    }
}

impl Cpu {
    /// Runs one step and returns the T-states it took. In order of priority: a
    /// pending reset; a non-maskable interrupt; a maskable interrupt when IFF1 is
    /// set and no EI grace is left; a no-op while halted; else the instruction at PC.
    #[verifier::spinoff_prover]
    #[verifier::rlimit(60)]
    pub fn do_operation(&mut self) -> (r: u64)
        ensures
            final(self)@ == cpu_step(old(self)@),
            old(self)@.clock <= final(self)@.clock,
            r == final(self)@.clock - old(self)@.clock,
            old(self)@.reset_req ==> final(self)@ == (CpuView {
                reset_req: false,
                halted: false,
                ..old(self)@
            }).reset(),
            !old(self)@.reset_req && old(self)@.nomask_interrupt ==> final(self)@ == (CpuView {
                nomask_interrupt: false,
                halted: false,
                ..old(self)@
            }).interrupt_nomask(),
            !old(self)@.reset_req && !old(self)@.nomask_interrupt && old(self)@.mask_interrupt
                && old(self)@.iff1 && old(self)@.interrupt_count == 0 ==> final(self)@ == (
            CpuView { mask_interrupt: false, ..old(self)@ }).interrupt_1(),
            !old(self)@.reset_req && !old(self)@.nomask_interrupt && !(old(self)@.mask_interrupt
                && old(self)@.iff1 && old(self)@.interrupt_count == 0) && old(self)@.halted
                ==> final(self)@ == old(self)@.tick(4),
            !old(self)@.reset_req && !old(self)@.nomask_interrupt && !(old(self)@.mask_interrupt
                && old(self)@.iff1 && old(self)@.interrupt_count == 0) && !old(self)@.halted
                ==> ({
                let (b, s) = old(self)@.next_byte();
                final(self)@ == main_effect(s, decode_spec(b), IndexMode::HL).count_down()
            }),
    {
        proof {
            reveal(cpu_step);
        }
        let initial = self.clock;
        if self.reset_req {
            self.reset_req = false;
            self.halted = false;
            self.reset();
        } else if self.nomask_interrupt {
            self.nomask_interrupt = false;
            self.halted = false;
            self.interrupt_nomask();
        } else if self.mask_interrupt && self.iff1 && self.interrupt_count == 0 {
            self.mask_interrupt = false;
            self.interrupt_1();
        } else if self.halted {
            self.noop();
        } else {
            let opcode = self.next_byte();
            Opcode::operate_u8(self, opcode);
            if self.interrupt_count > 0 {
                self.interrupt_count = self.interrupt_count - 1;
            }
        }
        self.clock - initial
    }
}

} // verus!
