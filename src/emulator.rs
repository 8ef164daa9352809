//! The scheduler: runs the CPU an instruction at a time, feeds the T-states to
//! the video processor, and arms the maskable interrupt on vertical blank.

use vstd::prelude::*;
use crate::controller::{Button, JoypadView, KeyboardController};
use crate::cpu::{Cpu, CpuView, cpu_step, initial};
use crate::memory::{Bus, DeviceView, MemoryMap, Ram, RamView, first_vdp_from, lemma_first_vdp_stable};
use crate::vdp::{Canvas, Ppu, initial_ppu, lemma_update_keeps_setup};

verus! {

/// The most instructions one frame may run before `refresh` gives up.
pub const MAX_STEPS_PER_FRAME: u64 = 1000000;

/// Cartridge ROM: the first 0x8000 bytes of the image, zero-padded, read-only at 0x0000.
pub open spec fn rom_view(rom: Seq<u8>) -> RamView {
    RamView {
        bytes: Seq::new(0x8000, |i: int| if i < rom.len() { rom[i] } else { 0u8 }),
        size: 0x8000,
        primary: MemoryMap { min: 0, max: 0x7FFF },
        mirrors: Seq::empty(),
        read_only: true,
    }
}

/// System RAM: 8 KiB at 0xA000, mirrored at 0xC000 and 0xE000.
pub open spec fn system_ram_view() -> RamView {
    RamView {
        bytes: Seq::new(0x2000, |i: int| 0u8),
        size: 0x2000,
        primary: MemoryMap { min: 0xA000, max: 0xBFFF },
        mirrors: seq![MemoryMap { min: 0xC000, max: 0xDFFF }, MemoryMap { min: 0xE000, max: 0xFFFF }],
        read_only: false,
    }
}

/// Whether the maskable interrupt line follows the interrupt-enable bit of
/// the first video processor on the port bus.
pub open spec fn irq_follows_vdp(s: CpuView) -> bool {
    let i = first_vdp_from(s.io, 0);
    i < s.io.len() && match s.io[i] {
        DeviceView::Vdp(p) => s.mask_interrupt == p.interrupt_enabled(),
        _ => false,
    }
}

/// The console after at most `budget` steps of the frame loop from `s`: each
/// step runs one `Cpu::do_operation` and hands the T-states it took to the
/// first video processor on the port bus. At the vertical blank the maskable
/// interrupt line takes the processor's interrupt-enable bit and the run ends
/// with `true`; it ends with `false` when the budget runs out or the port bus
/// has no video processor.
#[verifier::opaque]
pub open spec fn frame_run(s: CpuView, budget: nat) -> (CpuView, bool)
    decreases budget,
{
    if budget == 0 {
        (s, false)
    } else {
        let s1 = cpu_step(s);
        let ticks = (s1.clock - s.clock) as u64;
        let i = first_vdp_from(s1.io, 0);
        if i < s1.io.len() {
            match s1.io[i] {
                DeviceView::Vdp(p) => {
                    let s2 = CpuView { io: s1.io.update(i, DeviceView::Vdp(p.update_spec(ticks))), ..s1 };
                    if p.reaches_vblank(ticks) {
                        (CpuView { mask_interrupt: p.interrupt_enabled(), ..s2 }, true)
                    } else {
                        frame_run(s2, (budget - 1) as nat)
                    }
                },
                _ => (s1, false),
            }
        } else {
            (s1, false)
        }
    }
}

/// The console: a CPU whose memory bus holds the cartridge and system RAM and
/// whose port bus holds the video processor and the joypads.
pub struct Emulator {
    cpu: Cpu,
    paused: bool,
}

impl Emulator {
    pub closed spec fn cpu_view(&self) -> CpuView {
        self.cpu@
    }

    pub closed spec fn paused_spec(&self) -> bool {
        self.paused
    }

    /// Maps `rom` and the system RAM, attaches a video processor and a joypad
    /// controller to the ports, and starts the CPU at 0x0000.
    pub fn new(rom: Vec<u8>) -> (r: Emulator)
        ensures
            r.cpu_view() == initial(
                seq![DeviceView::Ram(rom_view(rom@)), DeviceView::Ram(system_ram_view())],
                seq![
                    DeviceView::Vdp(initial_ppu(2)),
                    DeviceView::Joypad(JoypadView { joypad1: 0xFF, joypad2: 0xFF }),
                ],
                0,
            ),
            !r.paused_spec(),
    {
        let ghost rom_bytes = rom@;
        let cartridge = Ram::builder().data(rom).size(0x8000).map(MemoryMap::new(0, 0x7FFF)).read_only(true).build();
        let system = Ram::builder().size(0x2000).map(MemoryMap::new(0xA000, 0xBFFF)).mirror(
            MemoryMap::new(0xC000, 0xDFFF),
        ).mirror(MemoryMap::new(0xE000, 0xFFFF)).build();
        proof {
            assert(cartridge@.bytes =~= rom_view(rom_bytes).bytes);
            assert(cartridge@ == rom_view(rom_bytes));
            assert(system@.bytes =~= system_ram_view().bytes);
            assert(system@.mirrors =~= system_ram_view().mirrors);
            assert(system@ == system_ram_view());
        }
        let data = Bus::builder().add(crate::memory::Device::Ram(cartridge)).add(
            crate::memory::Device::Ram(system),
        ).build();
        let io = Bus::builder().add(crate::memory::Device::Vdp(Ppu::new())).add(
            crate::memory::Device::Joypad(KeyboardController::new()),
        ).build();
        proof {
            assert(data@ =~= seq![DeviceView::Ram(rom_view(rom_bytes)), DeviceView::Ram(system_ram_view())]);
            assert(io@ =~= seq![
                DeviceView::Vdp(initial_ppu(2)),
                DeviceView::Joypad(JoypadView { joypad1: 0xFF, joypad2: 0xFF }),
            ]);
        }
        Emulator { cpu: Cpu::with_pc(data, io, 0), paused: false }
    }

    /// Runs the CPU until the video processor reaches the vertical blank, then
    /// sets the maskable interrupt line to the processor's interrupt-enable bit
    /// and returns true: see `frame_run`. Returns false at once while paused,
    /// and false when no frame completes within `MAX_STEPS_PER_FRAME`
    /// instructions or the port bus has no video processor.
    #[verifier::spinoff_prover]
    #[verifier::rlimit(60)]
    pub fn refresh(&mut self) -> (r: bool)
        ensures
            old(self).paused_spec() ==> !r && final(self).cpu_view() == old(self).cpu_view(),
            !old(self).paused_spec() ==> (final(self).cpu_view(), r) == frame_run(
                old(self).cpu_view(),
                MAX_STEPS_PER_FRAME as nat,
            ),
            final(self).paused_spec() == old(self).paused_spec(),
            old(self).cpu_view().clock <= final(self).cpu_view().clock,
            r ==> irq_follows_vdp(final(self).cpu_view()),
    {
        if self.paused {
            return false;
        }
        let mut steps: u64 = 0;
        while steps < MAX_STEPS_PER_FRAME
            invariant
                old(self).cpu@.clock <= self.cpu@.clock,
                self.paused == old(self).paused,
                !self.paused,
                steps <= MAX_STEPS_PER_FRAME,
                frame_run(old(self).cpu@, MAX_STEPS_PER_FRAME as nat) == frame_run(
                    self.cpu@,
                    (MAX_STEPS_PER_FRAME - steps) as nat,
                ),
            decreases MAX_STEPS_PER_FRAME - steps,
        {
            proof {
                reveal(frame_run);
            }
            let ghost start = self.cpu@;
            let ticks = self.cpu.do_operation();
            let ghost before = self.cpu@;
            proof {
                crate::memory::lemma_first_vdp_from_bounds(before.io, 0);
            }
            match self.cpu.io_vdp_update(ticks) {
                Some((vblank, irq)) => {
                    let ghost i = first_vdp_from(before.io, 0);
                    let ghost p = match before.io[i] {
                        DeviceView::Vdp(p) => p,
                        _ => arbitrary(),
                    };
                    proof {
                        assert(self.cpu@.io =~= before.io.update(i, DeviceView::Vdp(p.update_spec(ticks))));
                    }
                    if vblank {
                        proof {
                            lemma_first_vdp_stable(before.io, self.cpu@.io, i, 0);
                            lemma_update_keeps_setup(p, ticks);
                        }
                        self.cpu.set_mask_interrupt(irq);
                        return true;
                    }
                },
                None => {
                    proof {
                        assert(self.cpu@.io =~= before.io);
                        assert(self.cpu@ == before);
                    }
                    return false;
                },
            }
            steps += 1;
        }
        proof {
            reveal(frame_run);
        }
        false
    }

    /// The most recently completed frame, once; `None` until the next one.
    pub fn take_canvas(&mut self) -> (r: Option<Canvas>)
        ensures
            crate::memory::canvas_taken(old(self).cpu_view().io, final(self).cpu_view().io, r),
            final(self).cpu_view() == (CpuView { io: final(self).cpu_view().io, ..old(self).cpu_view() }),
    {
        self.cpu.io_take_canvas()
    }

    /// Passes a button change to the joypad controller, unless paused.
    pub fn post_input(&mut self, button: Button, pressed: bool) -> (r: bool)
        ensures
            old(self).paused_spec() ==> !r && final(self).cpu_view() == old(self).cpu_view(),
            !old(self).paused_spec() ==> crate::memory::joypad_updated(
                old(self).cpu_view().io,
                final(self).cpu_view().io,
                button,
                pressed,
                r,
            ) && final(self).cpu_view() == (CpuView {
                io: final(self).cpu_view().io,
                ..old(self).cpu_view()
            }),
    {
        if self.paused {
            return false;
        }
        self.cpu.io_joypad_input(button, pressed)
    }

    /// Raises the non-maskable interrupt line.
    pub fn nmi(&mut self)
        ensures
            final(self).cpu_view() == (CpuView { nomask_interrupt: true, ..old(self).cpu_view() }),
    {
        self.cpu.set_nomask_interrupt(true);
    }

    pub fn is_paused(&self) -> (r: bool)
        ensures
            r == self.paused_spec(),
    {
        self.paused
    }

    /// Pauses a running console or resumes a paused one.
    pub fn toggle_pause(&mut self)
        ensures
            final(self).paused_spec() == !old(self).paused_spec(),
            final(self).cpu_view() == old(self).cpu_view(),
    {
        self.paused = !self.paused;
    }

    pub fn halt_cpu(&mut self)
        ensures
            final(self).cpu_view() == (CpuView { halted: true, ..old(self).cpu_view() }).tick(4),
    {
        self.cpu.halt();
    }

    pub fn reset_halt_cpu(&mut self)
        ensures
            final(self).cpu_view() == (CpuView { halted: false, ..old(self).cpu_view() }),
    {
        self.cpu.reset_halt();
    }

    /// Halts a running CPU or wakes a halted one.
    pub fn flip_halt_cpu(&mut self)
        ensures
            old(self).cpu_view().halted ==> final(self).cpu_view() == (CpuView {
                halted: false,
                ..old(self).cpu_view()
            }),
            !old(self).cpu_view().halted ==> final(self).cpu_view() == (CpuView {
                halted: true,
                ..old(self).cpu_view()
            }).tick(4),
    {
        if self.cpu.is_halted() {
            self.reset_halt_cpu();
        } else {
            self.halt_cpu();
        }
    }

    pub fn cpu(&self) -> (r: &Cpu)
        ensures
            r@ == self.cpu_view(),
    {
        &self.cpu
    }
}

} // verus!
