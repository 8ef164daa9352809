use sg1000::controller::{Button, KeyboardController};
use sg1000::emulator::Emulator;
use sg1000::memory::{Bus, BusConnectable, Device};
use sg1000::vdp::Ppu;

#[test]
fn vdp_port_latch() {
    let mut ppu = Ppu::new();
    assert!(ppu.cpu_write(0xBF, 0x10));
    assert!(ppu.cpu_write(0xBF, 0x80));
    assert_eq!(0x10, ppu.reg(0));

    assert!(ppu.cpu_write(0xBF, 0x00));
    assert!(ppu.cpu_write(0xBF, 0x40));
    assert_eq!(0x0000, ppu.cpu_addr());

    assert!(ppu.cpu_write(0xBE, 0xAB));
    assert_eq!(0xAB, ppu.vram()[0]);
    assert_eq!(1, ppu.cpu_addr());
}

#[test]
fn vdp_data_port_reads_advance_and_wrap() {
    let mut ppu = Ppu::new();
    ppu.cpu_write(0xBF, 0xFF);
    ppu.cpu_write(0xBF, 0x7F);
    assert_eq!(0x3FFF, ppu.cpu_addr());
    ppu.cpu_write(0xBE, 0x42);
    assert_eq!(0, ppu.cpu_addr());
    ppu.cpu_write(0xBF, 0xFF);
    ppu.cpu_write(0xBF, 0x7F);
    assert_eq!(0x42, ppu.cpu_read(0xBE));
    assert_eq!(0, ppu.cpu_addr());
}

#[test]
fn vdp_ignores_other_second_bytes() {
    let mut ppu = Ppu::new();
    ppu.cpu_write(0xBF, 0x33);
    ppu.cpu_write(0xBF, 0xC5);
    assert_eq!(0, ppu.reg(5));
    assert_eq!(0, ppu.cpu_addr());
    ppu.cpu_write(0xBF, 0x22);
    ppu.cpu_write(0xBF, 0x87);
    assert_eq!(0x22, ppu.reg(7));
}

#[test]
fn one_canvas_per_vertical_blank() {
    let mut ppu = Ppu::new();
    assert!(ppu.get_canvas().is_some());
    assert!(ppu.get_canvas().is_none());
    let mut blanks = 0;
    for line in 0..262 {
        let vblank = ppu.update(228);
        if vblank {
            blanks += 1;
            assert_eq!(191, line);
        }
    }
    assert_eq!(1, blanks);
    assert_eq!(0, ppu.line());
    assert!(ppu.status() >= 0x80);
    let frame = ppu.get_canvas().expect("a frame completed");
    assert_eq!((512, 384), frame.size());
    assert!(ppu.get_canvas().is_none());
    assert!(ppu.cpu_read(0xBF) >= 0x80);
    assert!(ppu.status() < 0x40);
}

#[test]
fn partial_line_does_not_advance() {
    let mut ppu = Ppu::new();
    assert!(!ppu.update(200));
    assert_eq!(0, ppu.line());
    assert!(!ppu.update(28));
    assert_eq!(1, ppu.line());
}

fn write_reg(ppu: &mut Ppu, reg: u8, value: u8) {
    ppu.cpu_write(0xBF, value);
    ppu.cpu_write(0xBF, 0x80 | reg);
}

fn write_vram(ppu: &mut Ppu, addr: u16, bytes: &[u8]) {
    ppu.cpu_write(0xBF, (addr & 0xFF) as u8);
    ppu.cpu_write(0xBF, 0x40 | (addr >> 8) as u8);
    for &b in bytes {
        ppu.cpu_write(0xBE, b);
    }
}

#[test]
fn graphics_one_line_is_drawn_into_the_frame() {
    let mut ppu = Ppu::with_zoom(1);
    write_reg(&mut ppu, 0, 0x00);
    write_reg(&mut ppu, 1, 0x40);
    write_reg(&mut ppu, 2, 0x00);
    write_reg(&mut ppu, 3, 0x10);
    write_reg(&mut ppu, 4, 0x01);
    write_reg(&mut ppu, 5, 0x20);
    write_vram(&mut ppu, 0x0000, &[0x01]);
    write_vram(&mut ppu, 0x0808, &[0b1000_0001]);
    write_vram(&mut ppu, 0x0400, &[0xF4]);
    write_vram(&mut ppu, 0x1000, &[0xD0]);
    ppu.get_canvas();
    for _ in 0..192 {
        ppu.update(228);
    }
    let bytes = ppu.get_canvas().expect("frame").to_bytes();
    assert_eq!(&bytes[0..4], &[0xE0, 0xE0, 0xE0, 0xFF]);
    assert_eq!(&bytes[4..8], &[0x20, 0x20, 0xE0, 0xFF]);
    assert_eq!(&bytes[28..32], &[0xE0, 0xE0, 0xE0, 0xFF]);
}

#[test]
fn fifth_sprite_on_a_line_is_flagged() {
    let mut ppu = Ppu::with_zoom(1);
    write_reg(&mut ppu, 1, 0x40);
    write_reg(&mut ppu, 5, 0x20);
    write_reg(&mut ppu, 6, 0x00);
    let mut attrs = Vec::new();
    for i in 0..6u8 {
        attrs.extend_from_slice(&[0, i * 10, 0, 0x0F]);
    }
    write_vram(&mut ppu, 0x1000, &attrs);
    ppu.update(228);
    assert_eq!(0x40 | 4, ppu.status() & 0x5F);
}

#[test]
fn joypad_bits_follow_buttons() {
    let mut pad = KeyboardController::new();
    assert_eq!((0xFF, 0xFF), pad.joypads());
    pad.input(Button::Up, true);
    assert_eq!(0xFE, pad.cpu_read(0xDC));
    pad.input(Button::Down, true);
    assert_eq!(0xFD, pad.cpu_read(0xC0));
    pad.input(Button::Down, false);
    assert_eq!(0xFF, pad.cpu_read(0xDC));
    pad.input(Button::Button1, true);
    pad.input(Button::Left, true);
    assert_eq!(0xEB, pad.cpu_read(0xDC));
    pad.input(Button::Button1, false);
    assert_eq!(0xFB, pad.cpu_read(0xDC));
    assert_eq!(0xFF, pad.cpu_read(0xDD));
    assert!(!pad.cpu_write(0xDC, 0));
    assert!(pad.accept(0x12C1));
    assert!(!pad.accept(0xBE));
}

#[test]
fn port_bus_reaches_vdp_and_joypad() {
    let mut io = Bus::builder()
        .add(Device::from(Ppu::new()))
        .add(Device::from(KeyboardController::new()))
        .build();
    assert!(io.cpu_write(0xBF, 0x20));
    assert!(io.cpu_write(0xBF, 0x81));
    assert_eq!(Some((false, true)), io.vdp_update(10));
    assert!(io.joypad_input(Button::Right, true));
    assert_eq!(Some(0xF7), io.cpu_read(0xDC));
    assert_eq!(None, io.cpu_read(0x00));
    assert!(!io.cpu_write(0x7F, 1));
}

#[test]
fn emulator_runs_a_frame_and_raises_irq() {
    // DI; LD A,0x60; OUT (0xBF),A; LD A,0x81; OUT (0xBF),A; (0x0009) JR 0x0009
    let rom = vec![0xF3, 0x3E, 0x60, 0xD3, 0xBF, 0x3E, 0x81, 0xD3, 0xBF, 0x18, 0xFE];
    let mut emu = Emulator::new(rom);
    assert!(emu.take_canvas().is_some());
    assert!(emu.refresh());
    assert!(emu.cpu().clock() >= 192 * 228);
    assert!(emu.take_canvas().is_some());
    assert!(emu.take_canvas().is_none());
    assert!(emu.post_input(Button::Button2, true));
    emu.toggle_pause();
    assert!(!emu.refresh());
    assert!(!emu.post_input(Button::Button2, false));
    assert!(emu.is_paused());
}

#[test]
fn emulator_maps_rom_and_mirrored_ram() {
    // LD A,0x5A; LD (0xA010),A; LD A,(0xE010); LD (0x0000),A
    let rom = vec![0x3E, 0x5A, 0x32, 0x10, 0xA0, 0x3E, 0x00, 0x3A, 0x10, 0xE0, 0x32, 0x00, 0x00];
    let mut emu = Emulator::new(rom);
    emu.halt_cpu();
    assert!(emu.cpu().is_halted());
    emu.flip_halt_cpu();
    assert!(!emu.cpu().is_halted());
    assert!(emu.refresh());
    assert_eq!(0x5A, emu.cpu().reg_value(sg1000::registers::RegisterCode::A));
}

#[test]
fn overlapping_sprites_set_coincidence_and_first_wins() {
    let mut ppu = Ppu::with_zoom(1);
    write_reg(&mut ppu, 1, 0x40);
    write_reg(&mut ppu, 5, 0x20);
    write_reg(&mut ppu, 6, 0x01);
    let mut attrs = Vec::new();
    attrs.extend_from_slice(&[0, 10, 1, 0x08]);
    attrs.extend_from_slice(&[0, 10, 1, 0x04]);
    attrs.extend_from_slice(&[0, 40, 1, 0x84]);
    for _ in 3..32 {
        attrs.extend_from_slice(&[0xD0, 0, 0, 0]);
    }
    write_vram(&mut ppu, 0x1000, &attrs);
    write_vram(&mut ppu, 0x0808, &[0x80]);
    ppu.get_canvas();
    for _ in 0..192 {
        ppu.update(228);
    }
    assert_eq!(0x20, ppu.status() & 0x60);
    let bytes = ppu.get_canvas().expect("frame").to_bytes();
    assert_eq!(&bytes[40..44], &[0xE0, 0x20, 0x20, 0xFF]);
    // the early-clock sprite at X = 40 lands 32 pixels left, at column 8
    assert_eq!(&bytes[32..36], &[0x20, 0x20, 0xE0, 0xFF]);
    assert_eq!(&bytes[160..164], &[0, 0, 0, 0]);
}
