//! Emulation core of an SG-1000 class console: a Z80 interpreter, the bus and
//! memory fabric it runs against, a TMS9918 video processor, the joypad port,
//! and the scheduler that runs them in lockstep.
//!
//! - `memory`: address windows, memory regions with mirrors, devices, buses.
//! - `registers`: the register file and the flag byte.
//! - `alu`: arithmetic and logic with their flag rules.
//! - `cpu`: instruction semantics, the interrupt state machine, the opcode
//!   planes (`cpu::opcode`, `cpu::bits`, `cpu::extended`), addressing modes,
//!   and laws relating instructions (`cpu::laws`).
//! - `vdp`: VRAM, the port protocol, scanline timing and rendering.
//! - `controller`: the joypad port device.
//! - `emulator`: the console and its frame loop.

pub mod memory;
pub mod registers;
pub mod alu;
pub mod cpu;
pub mod vdp;
pub mod controller;
pub mod emulator;
