//! The TMS9918 video processor: VRAM, the port protocol, control registers,
//! scanline timing and the renderers that fill the framebuffer.

use vstd::prelude::*;
use crate::memory::BusConnectable;

verus! {

/// The framebuffer: an RGBA image buffer, row-major, four bytes per pixel.
#[verifier::external_body]
pub struct Canvas {
    image: image::ImageBuffer<image::Rgba<u8>, Vec<u8>>,
}

/// The bytes the framebuffer holds.
pub uninterp spec fn canvas_bytes(c: Canvas) -> Seq<u8>;

/// The width the framebuffer was made with.
pub uninterp spec fn canvas_width(c: Canvas) -> u32;

/// The height the framebuffer was made with.
pub uninterp spec fn canvas_height(c: Canvas) -> u32;

/// Relies on image::ImageBuffer::new: a buffer of the given size holding
/// four zero bytes per pixel. It panics only when `4 * width`, or that times
/// `height`, overflows `usize`.
#[verifier::external_body]
fn new_canvas(width: u32, height: u32) -> (r: Canvas)
    requires
        width * 4 <= usize::MAX,
        width * height * 4 <= usize::MAX,
    ensures
        canvas_width(r) == width,
        canvas_height(r) == height,
        canvas_bytes(r) == Seq::new((width * height * 4) as nat, |i: int| 0u8),
{
    Canvas { image: image::ImageBuffer::new(width, height) }
}

/// Relies on image::ImageBuffer::width and ::height.
#[verifier::external_body]
fn canvas_size(c: &Canvas) -> (r: (u32, u32))
    ensures
        r == (canvas_width(*c), canvas_height(*c)),
{
    (c.image.width(), c.image.height())
}

/// Relies on image::ImageBuffer::put_pixel: the four channels of pixel (x, y)
/// are the bytes from `(y * width + x) * 4` on. It panics outside the image.
#[verifier::external_body]
fn put_pixel(c: &mut Canvas, x: u32, y: u32, color: (u8, u8, u8, u8))
    requires
        x < canvas_width(*old(c)),
        y < canvas_height(*old(c)),
    ensures
        canvas_width(*final(c)) == canvas_width(*old(c)),
        canvas_height(*final(c)) == canvas_height(*old(c)),
        canvas_bytes(*final(c)) == pixel_written(canvas_bytes(*old(c)), canvas_width(*old(c)), x, y, color),
{
    c.image.put_pixel(x, y, image::Rgba([color.0, color.1, color.2, color.3]))
}

/// Relies on image::ImageBuffer::as_raw: the buffer's bytes, row-major.
#[verifier::external_body]
fn canvas_raw(c: &Canvas) -> (r: Vec<u8>)
    ensures
        r@ == canvas_bytes(*c),
{
    c.image.as_raw().clone()
}

impl Canvas {
    /// The RGBA bytes of the frame, row-major.
    pub fn to_bytes(&self) -> (r: Vec<u8>)
        ensures
            r@ == canvas_bytes(*self),
    {
        canvas_raw(self)
    }

    /// Width and height in pixels.
    pub fn size(&self) -> (r: (u32, u32))
        ensures
            r == (canvas_width(*self), canvas_height(*self)),
    {
        canvas_size(self)
    }
}

/// What a framebuffer holds: its bytes and its size in pixels.
pub struct CanvasView {
    pub bytes: Seq<u8>,
    pub width: u32,
    pub height: u32,
}

pub open spec fn canvas_view(c: Canvas) -> CanvasView {
    CanvasView { bytes: canvas_bytes(c), width: canvas_width(c), height: canvas_height(c) }
}

/// A framebuffer of the given size with every byte zero.
pub open spec fn blank_view(width: u32, height: u32) -> CanvasView {
    CanvasView { bytes: Seq::new((width * height * 4) as nat, |i: int| 0u8), width, height }
}

/// `bytes` with the four channels of pixel (x, y) of a `width`-wide image replaced.
pub open spec fn pixel_written(bytes: Seq<u8>, width: u32, x: u32, y: u32, color: (u8, u8, u8, u8)) -> Seq<u8> {
    let o = (y * width + x) * 4;
    bytes.update(o, color.0).update(o + 1, color.1).update(o + 2, color.2).update(o + 3, color.3)
}

pub const WIDTH: u32 = 256;

pub const HEIGHT: u32 = 192;

pub const VRAM_SIZE: usize = 0x4000;

pub const CYCLES_PER_LINE: u64 = 228;

pub const MAX_LINES: u16 = 262;

/// The sixteen colours, RGBA; colour 0 is transparent.
pub open spec fn palette_spec(i: u8) -> (u8, u8, u8, u8) {
    match i % 16 {
        0 => (0, 0, 0, 0),
        1 => (0, 0, 0, 0xFF),
        2 => (0x20, 0xC0, 0x20, 0xFF),
        3 => (0x60, 0xE0, 0x60, 0xFF),
        4 => (0x20, 0x20, 0xE0, 0xFF),
        5 => (0x40, 0x60, 0xE0, 0xFF),
        6 => (0xA0, 0x20, 0x20, 0xFF),
        7 => (0x40, 0xC0, 0xE0, 0xFF),
        8 => (0xE0, 0x20, 0x20, 0xFF),
        9 => (0xE0, 0x60, 0x60, 0xFF),
        10 => (0xC0, 0xC0, 0x20, 0xFF),
        11 => (0xC0, 0xC0, 0x80, 0xFF),
        12 => (0x20, 0x80, 0x20, 0xFF),
        13 => (0xC0, 0x40, 0xA0, 0xFF),
        14 => (0xA0, 0xA0, 0xA0, 0xFF),
        _ => (0xE0, 0xE0, 0xE0, 0xFF),
    }
}

pub fn palette(i: u8) -> (r: (u8, u8, u8, u8))
    ensures
        r == palette_spec(i),
{
    match i % 16 {
        0 => (0, 0, 0, 0),
        1 => (0, 0, 0, 0xFF),
        2 => (0x20, 0xC0, 0x20, 0xFF),
        3 => (0x60, 0xE0, 0x60, 0xFF),
        4 => (0x20, 0x20, 0xE0, 0xFF),
        5 => (0x40, 0x60, 0xE0, 0xFF),
        6 => (0xA0, 0x20, 0x20, 0xFF),
        7 => (0x40, 0xC0, 0xE0, 0xFF),
        8 => (0xE0, 0x20, 0x20, 0xFF),
        9 => (0xE0, 0x60, 0x60, 0xFF),
        10 => (0xC0, 0xC0, 0x20, 0xFF),
        11 => (0xC0, 0xC0, 0x80, 0xFF),
        12 => (0x20, 0x80, 0x20, 0xFF),
        13 => (0xC0, 0x40, 0xA0, 0xFF),
        14 => (0xA0, 0xA0, 0xA0, 0xFF),
        _ => (0xE0, 0xE0, 0xE0, 0xFF),
    }
}

/// The control port's two-byte latch.
#[derive(Debug, Copy, Clone, PartialEq, Eq, Structural)]
pub enum RWState {
    Idle,
    First(u8),
}

/// The display mode selected by the bits M1, M2, M3.
#[derive(Debug, Copy, Clone, PartialEq, Eq, Structural)]
pub enum GraphicsMode {
    Graphics1,
    Graphics2,
    Multicolor,
    Text,
}

/// Whether bit `n` of `v` is set.
pub open spec fn bit_set(v: u8, n: u8) -> bool {
    (v >> n) & 1 == 1
}

pub fn is_bit_set(v: u8, n: u8) -> (r: bool)
    requires
        n < 8,
    ensures
        r == bit_set(v, n),
{
    (v >> n) & 1 == 1
}

/// Mode selection: (M1, M2, M3) = (0,0,0) Graphics I, (0,0,1) Graphics II,
/// (0,1,0) Multicolor, (1,0,0) Text; any other combination is Text.
pub open spec fn mode_spec(m1: bool, m2: bool, m3: bool) -> GraphicsMode {
    if !m1 && !m2 && !m3 {
        GraphicsMode::Graphics1
    } else if !m1 && !m2 && m3 {
        GraphicsMode::Graphics2
    } else if !m1 && m2 && !m3 {
        GraphicsMode::Multicolor
    } else {
        GraphicsMode::Text
    }
}

/// What the video processor holds.
pub struct PpuView {
    pub canvas: Option<CanvasView>,
    pub next_canvas: CanvasView,
    pub vram: Seq<u8>,
    pub status: u8,
    pub registers: Seq<u8>,
    pub line: u16,
    pub clock_cycles: u64,
    pub latch: RWState,
    pub cpu_addr: u16,
    pub zoom: u8,
}

impl PpuView {
    pub open spec fn accepts(self, addr: u16) -> bool {
        addr % 256 == 0xBE || addr % 256 == 0xBF
    }

    pub open spec fn vram_at(self, addr: int) -> u8 {
        if 0 <= addr % (VRAM_SIZE as int) < self.vram.len() {
            self.vram[addr % (VRAM_SIZE as int)]
        } else {
            0
        }
    }

    /// Control port: the status register; data port: the byte at the address pointer.
    pub open spec fn read(self, addr: u16) -> u8 {
        if addr % 256 == 0xBF {
            self.status
        } else {
            self.vram_at(self.cpu_addr as int)
        }
    }

    /// Control port read: the top two status bits cleared and the latch reset;
    /// data port read: the address pointer advanced.
    pub open spec fn after_read(self, addr: u16) -> PpuView {
        if addr % 256 == 0xBF {
            PpuView { status: self.status % 64, latch: RWState::Idle, ..self }
        } else if addr % 256 == 0xBE {
            PpuView { cpu_addr: ((self.cpu_addr + 1) % 0x4000) as u16, ..self }
        } else {
            self
        }
    }

    /// Data port: the byte stored at the address pointer, which advances.
    /// Control port: the first byte is latched; with the second, `01nnnnnn` sets
    /// the address pointer and `10nnnnnn` writes the latched byte to register `n & 7`.
    pub open spec fn after_write(self, addr: u16, v: u8) -> PpuView {
        if addr % 256 == 0xBE {
            let i = (self.cpu_addr % 0x4000) as int;
            PpuView {
                vram: if i < self.vram.len() {
                    self.vram.update(i, v)
                } else {
                    self.vram
                },
                cpu_addr: ((self.cpu_addr + 1) % 0x4000) as u16,
                ..self
            }
        } else if addr % 256 == 0xBF {
            match self.latch {
                RWState::Idle => PpuView { latch: RWState::First(v), ..self },
                RWState::First(first) => {
                    if v / 64 == 1 {
                        PpuView {
                            cpu_addr: ((v % 64) * 256 + first) as u16,
                            latch: RWState::Idle,
                            ..self
                        }
                    } else if v / 64 == 2 && ((v % 8) as int) < self.registers.len() {
                        PpuView {
                            registers: self.registers.update((v % 8) as int, first),
                            latch: RWState::Idle,
                            ..self
                        }
                    } else {
                        PpuView { latch: RWState::Idle, ..self }
                    }
                },
            }
        } else {
            self
        }
    }

    pub open spec fn reg(self, i: int) -> u8 {
        if 0 <= i < self.registers.len() {
            self.registers[i]
        } else {
            0
        }
    }

    pub open spec fn mode(self) -> GraphicsMode {
        mode_spec(bit_set(self.reg(1), 4), bit_set(self.reg(1), 3), bit_set(self.reg(0), 1))
    }

    pub open spec fn display_enabled(self) -> bool {
        bit_set(self.reg(1), 6)
    }

    pub open spec fn interrupt_enabled(self) -> bool {
        bit_set(self.reg(1), 5)
    }

    /// Whether spending `cycles` more T-states finishes line 191, so that the
    /// line counter reaches the vertical blank.
    pub open spec fn reaches_vblank(self, cycles: u64) -> bool {
        add_cycles(self.clock_cycles, cycles) >= CYCLES_PER_LINE && self.line == 191
    }
}

/// The video processor.
pub struct Ppu {
    canvas: Option<Canvas>,
    next_canvas: Canvas,
    vram: Vec<u8>,
    status_reg: u8,
    registers: Vec<u8>,
    line: u16,
    clock_cycles: u64,
    rw_state: RWState,
    cpu_addr: u16,
    image_zoom: u8,
}

impl View for Ppu {
    type V = PpuView;

    closed spec fn view(&self) -> PpuView {
        PpuView {
            canvas: match self.canvas {
                Some(c) => Some(canvas_view(c)),
                None => None,
            },
            next_canvas: canvas_view(self.next_canvas),
            vram: self.vram@,
            status: self.status_reg,
            registers: self.registers@,
            line: self.line,
            clock_cycles: self.clock_cycles,
            latch: self.rw_state,
            cpu_addr: self.cpu_addr,
            zoom: self.image_zoom,
        }
    }
}


/// `b` differs from `a` at most in the frame being drawn, whose size stays.
pub open spec fn only_canvas(a: PpuView, b: PpuView) -> bool {
    &&& b == PpuView { next_canvas: b.next_canvas, ..a }
    &&& b.next_canvas.width == a.next_canvas.width
    &&& b.next_canvas.height == a.next_canvas.height
}

/// Row `dy` of the zoom-by-zoom block of native pixel (x, y), its first `dx`
/// frame pixels painted in `rgba`; frame pixels outside the frame are skipped.
pub open spec fn paint_cols(c: CanvasView, zoom: nat, x: nat, y: nat, rgba: (u8, u8, u8, u8), dy: nat, dx: nat) -> CanvasView
    decreases dx,
{
    if dx == 0 {
        c
    } else {
        let c1 = paint_cols(c, zoom, x, y, rgba, dy, (dx - 1) as nat);
        let px = x * zoom + dx - 1;
        let py = y * zoom + dy;
        if px < c1.width && py < c1.height {
            CanvasView { bytes: pixel_written(c1.bytes, c1.width, px as u32, py as u32, rgba), ..c1 }
        } else {
            c1
        }
    }
}

/// The first `dy` rows of the block of native pixel (x, y) painted.
pub open spec fn paint_rows(c: CanvasView, zoom: nat, x: nat, y: nat, rgba: (u8, u8, u8, u8), dy: nat) -> CanvasView
    decreases dy,
{
    if dy == 0 {
        c
    } else {
        paint_cols(paint_rows(c, zoom, x, y, rgba, (dy - 1) as nat), zoom, x, y, rgba, (dy - 1) as nat, zoom)
    }
}

/// The frame with native pixel (x, y) painted in palette colour `color`: a
/// zoom-by-zoom block, clipped to the frame.
pub open spec fn painted(c: CanvasView, zoom: u8, x: nat, y: nat, color: u8) -> CanvasView {
    paint_rows(c, zoom as nat, x, y, palette_spec(color), zoom as nat)
}

pub proof fn lemma_paint_cols_size(c: CanvasView, zoom: nat, x: nat, y: nat, rgba: (u8, u8, u8, u8), dy: nat, dx: nat)
    ensures
        paint_cols(c, zoom, x, y, rgba, dy, dx).width == c.width,
        paint_cols(c, zoom, x, y, rgba, dy, dx).height == c.height,
    decreases dx,
{
    if dx > 0 {
        lemma_paint_cols_size(c, zoom, x, y, rgba, dy, (dx - 1) as nat);
    }
}

pub proof fn lemma_paint_rows_size(c: CanvasView, zoom: nat, x: nat, y: nat, rgba: (u8, u8, u8, u8), dy: nat)
    ensures
        paint_rows(c, zoom, x, y, rgba, dy).width == c.width,
        paint_rows(c, zoom, x, y, rgba, dy).height == c.height,
    decreases dy,
{
    if dy > 0 {
        lemma_paint_rows_size(c, zoom, x, y, rgba, (dy - 1) as nat);
        lemma_paint_cols_size(paint_rows(c, zoom, x, y, rgba, (dy - 1) as nat), zoom, x, y, rgba, (dy - 1) as nat, zoom);
    }
}

/// `c + n`, held at the largest `u64` instead of overflowing.
pub open spec fn add_cycles(c: u64, n: u64) -> u64 {
    if c + n > u64::MAX {
        u64::MAX
    } else {
        (c + n) as u64
    }
}

/// The state `Ppu::with_zoom(zoom)` starts in.
pub open spec fn initial_ppu(zoom: u8) -> PpuView {
    let blank = blank_view((WIDTH * zoom) as u32, (HEIGHT * zoom) as u32);
    PpuView {
        canvas: Some(blank),
        next_canvas: blank,
        vram: Seq::new(VRAM_SIZE as nat, |i: int| 0u8),
        status: 0,
        registers: seq![0u8, 0x10, 0, 0, 0, 0, 0, 0xE1],
        line: 0,
        clock_cycles: 0,
        latch: RWState::Idle,
        cpu_addr: 0,
        zoom,
    }
}

impl Ppu {
    /// A video processor in Text mode with white-on-black text colours,
    /// 16 KiB of zeroed VRAM, and frames drawn at twice the native size.
    pub fn new() -> (r: Ppu)
        ensures
            r@ == initial_ppu(2),
            r@.wf(),
    {
        assert((WIDTH * 2) * (HEIGHT * 2) * 4 == 786432) by (nonlinear_arith);
        Ppu::with_zoom(2)
    }

    /// A video processor whose frames are `zoom` times the native size; the
    /// frame must fit in memory.
    pub fn with_zoom(zoom: u8) -> (r: Ppu)
        requires
            (WIDTH * zoom) * (HEIGHT * zoom) * 4 <= usize::MAX,
        ensures
            r@ == initial_ppu(zoom),
            r@.wf(),
    {
        let w = WIDTH * zoom as u32;
        let h = HEIGHT * zoom as u32;
        proof {
            lemma_row_fits(w, h);
        }
        let registers = vec![0u8, 0x10, 0, 0, 0, 0, 0, 0xE1];
        let r = Ppu {
            canvas: Some(new_canvas(w, h)),
            next_canvas: new_canvas(w, h),
            vram: vec![0u8; VRAM_SIZE],
            status_reg: 0,
            registers,
            line: 0,
            clock_cycles: 0,
            rw_state: RWState::Idle,
            cpu_addr: 0,
            image_zoom: zoom,
        };
        proof {
            assert(r.vram@ =~= Seq::new(VRAM_SIZE as nat, |i: int| 0u8));
            assert(r.registers@ =~= seq![0u8, 0x10, 0, 0, 0, 0, 0, 0xE1]);
        }
        r
    }

    /// Takes the most recently completed frame, leaving none until the next one.
    pub fn get_canvas(&mut self) -> (r: Option<Canvas>)
        ensures
            match r {
                Some(c) => old(self)@.canvas == Some(canvas_view(c)),
                None => old(self)@.canvas is None,
            },
            final(self)@ == (PpuView { canvas: None, ..old(self)@ }),
            old(self)@.wf() ==> final(self)@.wf(),
    {
        let c = self.canvas.take();
        c
    }

    /// Whether register 1 enables the vertical-blank interrupt.
    pub fn intrpt_enabled(&self) -> (r: bool)
        ensures
            r == self@.interrupt_enabled(),
    {
        is_bit_set(self.reg(1), 5)
    }

    /// Control register `i` (0 past the eighth).
    pub fn reg(&self, i: usize) -> (r: u8)
        ensures
            r == self@.reg(i as int),
    {
        if i < self.registers.len() {
            self.registers[i]
        } else {
            0
        }
    }

    pub fn status(&self) -> (r: u8)
        ensures
            r == self@.status,
    {
        self.status_reg
    }

    /// The VRAM address pointer.
    pub fn cpu_addr(&self) -> (r: u16)
        ensures
            r == self@.cpu_addr,
    {
        self.cpu_addr
    }

    pub fn vram(&self) -> (r: &Vec<u8>)
        ensures
            r@ == self@.vram,
    {
        &self.vram
    }

    /// The current scanline.
    pub fn line(&self) -> (r: u16)
        ensures
            r == self@.line,
    {
        self.line
    }

    fn vram_at(&self, addr: usize) -> (r: u8)
        ensures
            r == self@.vram_at(addr as int),
    {
        let i = addr % VRAM_SIZE;
        if i < self.vram.len() {
            self.vram[i]
        } else {
            0
        }
    }

    /// Data port read: the byte at the address pointer, which then advances.
    fn ram_read(&mut self) -> (r: u8)
        ensures
            r == old(self)@.read(0xBE),
            final(self)@ == old(self)@.after_read(0xBE),
    {
        let val = self.vram_at(self.cpu_addr as usize);
        self.cpu_addr = ((self.cpu_addr as u32 + 1) % 0x4000) as u16;
        val
    }

    /// Control port read: the status register; its top two bits are then
    /// cleared and the latch reset.
    fn get_status_reg(&mut self) -> (r: u8)
        ensures
            r == old(self)@.read(0xBF),
            final(self)@ == old(self)@.after_read(0xBF),
    {
        let output = self.status_reg;
        self.status_reg = self.status_reg % 64;
        self.rw_state = RWState::Idle;
        output
    }

    /// Foreground colour of Text mode: the high nibble of register 7.
    fn text_color(&self) -> (r: u8)
        ensures
            r == self@.reg(7) / 16,
    {
        self.reg(7) / 16
    }

    /// Background colour of Text mode: the low nibble of register 7.
    fn text_back_color(&self) -> (r: u8)
        ensures
            r == self@.reg(7) % 16,
    {
        self.reg(7) % 16
    }

    /// Sprite size in pixels and magnification, from register 1.
    fn get_sprite_size(&self) -> (r: (u16, u16))
        ensures
            r.0 == if bit_set(self@.reg(1), 1) { 16u16 } else { 8u16 },
            r.1 == if bit_set(self@.reg(1), 0) { 2u16 } else { 1u16 },
    {
        let r1 = self.reg(1);
        (if is_bit_set(r1, 1) { 16 } else { 8 }, if is_bit_set(r1, 0) { 2 } else { 1 })
    }

    fn is_blank_screen(&self) -> (r: bool)
        ensures
            r == !self@.display_enabled(),
    {
        !is_bit_set(self.reg(1), 6)
    }

    fn graphics_mode(&self) -> (r: GraphicsMode)
        ensures
            r == self@.mode(),
    {
        let m3 = is_bit_set(self.reg(0), 1);
        let m2 = is_bit_set(self.reg(1), 3);
        let m1 = is_bit_set(self.reg(1), 4);
        if !m1 && !m2 && !m3 {
            GraphicsMode::Graphics1
        } else if !m1 && !m2 && m3 {
            GraphicsMode::Graphics2
        } else if !m1 && m2 && !m3 {
            GraphicsMode::Multicolor
        } else {
            GraphicsMode::Text
        }
    }

    fn name_table(&self) -> (r: usize)
        ensures
            r == self@.reg(2) * 0x400,
    {
        self.reg(2) as usize * 0x400
    }

    fn color_table(&self) -> (r: usize)
        ensures
            r == self@.reg(3) * 0x40,
    {
        self.reg(3) as usize * 0x40
    }

    fn pattern_gen_table(&self) -> (r: usize)
        ensures
            r == self@.reg(4) * 0x800,
    {
        self.reg(4) as usize * 0x800
    }

    fn sprite_attr_table(&self) -> (r: usize)
        ensures
            r == self@.reg(5) * 0x80,
    {
        self.reg(5) as usize * 0x80
    }

    fn sprite_patt_gen_table(&self) -> (r: usize)
        ensures
            r == self@.reg(6) * 0x800,
    {
        self.reg(6) as usize * 0x800
    }

    /// Paints native pixel (x, y) in palette colour `color`: a zoom-by-zoom
    /// block of the frame being drawn; parts outside the frame are skipped.
    fn color_pixel(&mut self, color: u8, x: u32, y: u32)
        requires
            x < WIDTH,
            y < HEIGHT,
        ensures
            final(self)@ == (PpuView {
                next_canvas: painted(old(self)@.next_canvas, old(self)@.zoom, x as nat, y as nat, color),
                ..old(self)@
            }),
            only_canvas(old(self)@, final(self)@),
    {
        proof {
            reveal(painted);
        }
        let rgba = palette(color);
        let zoom = self.image_zoom as u32;
        let (w, h) = canvas_size(&self.next_canvas);
        let ghost c0 = old(self)@.next_canvas;
        let ghost z = zoom as nat;
        let mut dy: u32 = 0;
        while dy < zoom
            invariant
                zoom == old(self)@.zoom,
                z == zoom as nat,
                c0 == old(self)@.next_canvas,
                (w, h) == (c0.width, c0.height),
                rgba == palette_spec(color),
                x < WIDTH,
                y < HEIGHT,
                zoom <= 255,
                dy <= zoom,
                self@ == (PpuView { next_canvas: paint_rows(c0, z, x as nat, y as nat, rgba, dy as nat), ..old(self)@ }),
            decreases zoom - dy,
        {
            let mut dx: u32 = 0;
            let ghost row0 = self@.next_canvas;
            proof {
                lemma_paint_rows_size(c0, z, x as nat, y as nat, rgba, dy as nat);
            }
            while dx < zoom
                invariant
                    zoom == old(self)@.zoom,
                    z == zoom as nat,
                    (w, h) == (c0.width, c0.height),
                    row0 == paint_rows(c0, z, x as nat, y as nat, rgba, dy as nat),
                    row0.width == w && row0.height == h,
                    x < WIDTH,
                    y < HEIGHT,
                    zoom <= 255,
                    dy < zoom,
                    dx <= zoom,
                    self@ == (PpuView { next_canvas: paint_cols(row0, z, x as nat, y as nat, rgba, dy as nat, dx as nat), ..old(self)@ }),
                decreases zoom - dx,
            {
                assert(x * zoom + dx <= 255 * 255 + 255 && y * zoom + dy <= 255 * 255 + 255)
                    by (nonlinear_arith)
                    requires
                        x < 256,
                        y < 192,
                        zoom <= 255,
                        dx < zoom,
                        dy < zoom,
                ;
                let px = x * zoom + dx;
                let py = y * zoom + dy;
                proof {
                    lemma_paint_cols_size(row0, z, x as nat, y as nat, rgba, dy as nat, dx as nat);
                }
                if px < w && py < h {
                    put_pixel(&mut self.next_canvas, px, py, rgba);
                }
                dx += 1;
            }
            dy += 1;
        }
        proof {
            lemma_paint_rows_size(c0, z, x as nat, y as nat, rgba, z);
        }
    }
}

impl BusConnectable for Ppu {
    open spec fn accepts(&self, addr: u16) -> bool {
        self@.accepts(addr)
    }

    open spec fn read_value(&self, addr: u16) -> u8 {
        self@.read(addr)
    }

    open spec fn read_view(&self, addr: u16) -> PpuView {
        self@.after_read(addr)
    }

    open spec fn write_view(&self, addr: u16, data: u8) -> PpuView {
        self@.after_write(addr, data)
    }

    open spec fn write_ok(&self, addr: u16, data: u8) -> bool {
        self@.accepts(addr)
    }

    fn accept(&self, addr: u16) -> (r: bool) {
        addr % 256 == 0xBE || addr % 256 == 0xBF
    }

    fn cpu_read(&mut self, addr: u16) -> (r: u8) {
        if addr % 256 == 0xBF {
            self.get_status_reg()
        } else if addr % 256 == 0xBE {
            self.ram_read()
        } else {
            self.vram_at(self.cpu_addr as usize)
        }
    }

    fn cpu_write(&mut self, addr: u16, val: u8) -> (r: bool) {
        if addr % 256 == 0xBE {
            let i = (self.cpu_addr % 0x4000) as usize;
            if i < self.vram.len() {
                self.vram.set(i, val);
            }
            self.cpu_addr = ((self.cpu_addr as u32 + 1) % 0x4000) as u16;
            true
        } else if addr % 256 == 0xBF {
            match self.rw_state {
                RWState::Idle => {
                    self.rw_state = RWState::First(val);
                },
                RWState::First(first) => {
                    if val / 64 == 1 {
                        self.cpu_addr = (val % 64) as u16 * 256 + first as u16;
                    } else if val / 64 == 2 && ((val % 8) as usize) < self.registers.len() {
                        self.registers.set((val % 8) as usize, first);
                    }
                    self.rw_state = RWState::Idle;
                },
            }
            true
        } else {
            false
        }
    }
}


/// The palette colour of native pixel (x, y) of the background in `mode`.
pub open spec fn pixel_color(p: PpuView, mode: GraphicsMode, x: int, y: int) -> u8 {
    let row = y / 8;
    let sub = y % 8;
    match mode {
        GraphicsMode::Graphics1 => {
            let name = p.vram_at(p.reg(2) * 0x400 + row * 32 + x / 8);
            let color = p.vram_at(p.reg(3) * 0x40 + name / 8);
            let pattern = p.vram_at(p.reg(4) * 0x800 + name * 8 + sub);
            if bit_set(pattern, (7 - x % 8) as u8) {
                color / 16
            } else {
                color % 16
            }
        },
        GraphicsMode::Graphics2 => {
            let block = y / 64;
            let name = p.vram_at(p.reg(2) * 0x400 + row * 32 + x / 8);
            let pattern = p.vram_at(p.reg(4) * 0x800 + 0x800 * block + name * 8 + sub);
            let color = p.vram_at(p.reg(3) * 0x40 + 0x800 * block + name * 8 + sub);
            if bit_set(pattern, (7 - x % 8) as u8) {
                color / 16
            } else {
                color % 16
            }
        },
        GraphicsMode::Text => {
            let name = p.vram_at(p.reg(2) * 0x400 + row * 40 + x / 6);
            let pattern = p.vram_at(p.reg(4) * 0x800 + name * 8 + sub);
            if bit_set(pattern, (7 - x % 6) as u8) {
                p.reg(7) / 16
            } else {
                p.reg(7) % 16
            }
        },
        GraphicsMode::Multicolor => {
            let name = p.vram_at(p.reg(2) * 0x400 + row * 32 + x / 8);
            let colors = p.vram_at(p.reg(4) * 0x800 + name * 8 + (row % 4) * 2 + sub / 4);
            if x % 8 < 4 {
                colors / 16
            } else {
                colors % 16
            }
        },
    }
}

/// The frame `c` with the first `n` native pixels of line `y` painted, left to right.
pub open spec fn paint_line(p: PpuView, c: CanvasView, mode: GraphicsMode, y: nat, n: nat) -> CanvasView
    decreases n,
{
    if n == 0 {
        c
    } else {
        painted(paint_line(p, c, mode, y, (n - 1) as nat), p.zoom, (n - 1) as nat, y, pixel_color(p, mode, n - 1, y as int))
    }
}

/// What the sprite pass carries: the status register, the columns of this line
/// already taken by a sprite pixel, and the frame.
pub struct SpriteState {
    pub status: u8,
    pub taken: Seq<bool>,
    pub canvas: CanvasView,
}

pub open spec fn sprite_size(p: PpuView) -> int {
    if bit_set(p.reg(1), 1) {
        16
    } else {
        8
    }
}

pub open spec fn sprite_mag(p: PpuView) -> int {
    if bit_set(p.reg(1), 0) {
        2
    } else {
        1
    }
}

/// Byte `k` (Y, X, name, early-clock and colour) of sprite `spr`'s attributes.
pub open spec fn sprite_byte(p: PpuView, spr: int, k: int) -> u8 {
    p.vram_at(p.reg(5) * 0x80 + 4 * spr + k)
}

pub open spec fn sprite_active(p: PpuView, spr: int, y: int) -> bool {
    let sy = sprite_byte(p, spr, 0) as int;
    sy <= y && y < sy + sprite_size(p) * sprite_mag(p)
}

/// One sprite pixel at screen column `x`: outside the screen nothing happens;
/// on a column already taken the coincidence flag (bit 5) is set; otherwise
/// the column is taken and painted unless the colour is transparent.
pub open spec fn sprite_dot(st: SpriteState, zoom: u8, x: int, y: nat, color: u8) -> SpriteState {
    if 0 <= x < 256 {
        if st.taken[x] {
            SpriteState { status: st.status | 0x20, ..st }
        } else {
            SpriteState {
                taken: st.taken.update(x, true),
                canvas: if color != 0 {
                    painted(st.canvas, zoom, x as nat, y, color)
                } else {
                    st.canvas
                },
                ..st
            }
        }
    } else {
        st
    }
}

/// `k` sprite pixels at columns `base`, `base + 1`, ...
pub open spec fn sprite_dots(st: SpriteState, zoom: u8, base: int, k: nat, y: nat, color: u8) -> SpriteState
    decreases k,
{
    if k == 0 {
        st
    } else {
        sprite_dot(sprite_dots(st, zoom, base, (k - 1) as nat, y, color), zoom, base + k - 1, y, color)
    }
}

/// The first `px` pattern columns of sprite `spr` on line `y`.
#[verifier::opaque]
pub open spec fn sprite_cols(p: PpuView, st: SpriteState, spr: int, y: nat, px: nat) -> SpriteState
    decreases px,
{
    if px == 0 {
        st
    } else {
        let prev = sprite_cols(p, st, spr, y, (px - 1) as nat);
        let c = px - 1;
        let sy = sprite_byte(p, spr, 0) as int;
        let sx = sprite_byte(p, spr, 1) as int;
        let name = sprite_byte(p, spr, 2) as int;
        let cc = sprite_byte(p, spr, 3);
        let mag = sprite_mag(p);
        let first = if sprite_size(p) == 16 {
            name / 4 * 4
        } else {
            name
        };
        let shift = if cc >= 128 {
            32int
        } else {
            0
        };
        let pattern = p.vram_at(p.reg(6) * 0x800 + first * 8 + (c / 8) * 16 + (y - sy) / mag);
        if bit_set(pattern, (7 - c % 8) as u8) {
            sprite_dots(prev, p.zoom, sx + c * mag - shift, mag as nat, y, cc % 16)
        } else {
            prev
        }
    }
}

/// The fifth-sprite status: bit 6 set and the sprite's index in bits 0-4.
pub open spec fn fifth_status(s: u8, spr: int) -> u8 {
    ((s / 128) * 128 + 64 + (s % 64) / 32 * 32 + spr) as u8
}

pub struct SpritePass {
    pub st: SpriteState,
    pub count: nat,
    pub stopped: bool,
}

/// The sprite pass over the first `n` sprites of the table, in order.
#[verifier::opaque]
pub open spec fn sprite_pass(p: PpuView, st0: SpriteState, y: nat, n: nat) -> SpritePass
    decreases n,
{
    if n == 0 {
        SpritePass { st: st0, count: 0, stopped: false }
    } else {
        let prev = sprite_pass(p, st0, y, (n - 1) as nat);
        let spr = n - 1;
        if prev.stopped || !sprite_active(p, spr, y as int) {
            prev
        } else if prev.count + 1 == 5 {
            SpritePass {
                st: SpriteState { status: fifth_status(prev.st.status, spr), ..prev.st },
                count: 5,
                stopped: true,
            }
        } else {
            SpritePass {
                st: sprite_cols(p, prev.st, spr, y, sprite_size(p) as nat),
                count: prev.count + 1,
                stopped: false,
            }
        }
    }
}

pub proof fn lemma_sprite_pass_stops(p: PpuView, st0: SpriteState, y: nat, n: nat, m: nat)
    requires
        n <= m,
        sprite_pass(p, st0, y, n).stopped,
    ensures
        sprite_pass(p, st0, y, m) == sprite_pass(p, st0, y, n),
    decreases m - n,
{
    reveal(sprite_pass);
    if n < m {
        lemma_sprite_pass_stops(p, st0, y, n, (m - 1) as nat);
    }
}

/// No column of the line taken yet.
pub open spec fn no_columns_taken() -> Seq<bool> {
    Seq::new(256, |i: int| false)
}

/// The frame and status after the sprite pass of line `y`.
#[verifier::opaque]
pub open spec fn sprites_applied(q: PpuView, y: nat) -> PpuView {
    let pass = sprite_pass(
        q,
        SpriteState { status: q.status, taken: no_columns_taken(), canvas: q.next_canvas },
        y,
        32,
    );
    PpuView { status: pass.st.status, next_canvas: pass.st.canvas, ..q }
}

/// The current line drawn in the selected mode, then, in Graphics I and II,
/// the sprites over it.
#[verifier::opaque]
pub open spec fn line_drawn(p: PpuView) -> PpuView {
    let y = p.line as nat;
    let mode = p.mode();
    let width: nat = if mode == GraphicsMode::Text {
        240
    } else {
        256
    };
    let q = PpuView { next_canvas: paint_line(p, p.next_canvas, mode, y, width), ..p };
    if mode == GraphicsMode::Graphics1 || mode == GraphicsMode::Graphics2 {
        sprites_applied(q, y)
    } else {
        q
    }
}

/// A fresh frame of the same size, or of the native size when that would not fit.
pub open spec fn blank_of(c: CanvasView) -> CanvasView {
    if c.width * 4 <= usize::MAX && c.width * c.height * 4 <= usize::MAX {
        blank_view(c.width, c.height)
    } else {
        blank_view(WIDTH, HEIGHT)
    }
}

/// Drawing a line changes only the frame being drawn and the status register.
pub proof fn lemma_line_drawn_frame(p: PpuView)
    ensures
        line_drawn(p) == (PpuView { next_canvas: line_drawn(p).next_canvas, status: line_drawn(p).status, ..p }),
{
    reveal(line_drawn);
    reveal(sprites_applied);
}

/// Spending T-states keeps VRAM, the control registers, the port latch, the
/// address pointer and the zoom.
pub proof fn lemma_update_keeps_setup(p: PpuView, cycles: u64)
    ensures
        p.update_spec(cycles).registers == p.registers,
        p.update_spec(cycles).vram == p.vram,
        p.update_spec(cycles).latch == p.latch,
        p.update_spec(cycles).cpu_addr == p.cpu_addr,
        p.update_spec(cycles).zoom == p.zoom,
        p.update_spec(cycles).interrupt_enabled() == p.interrupt_enabled(),
{
    reveal(PpuView::update_spec);
    lemma_line_drawn_frame(PpuView { clock_cycles: add_cycles(p.clock_cycles, cycles), ..p });
}

/// A frame `4 * width` bytes wide fits in `usize` whenever the whole frame does
/// and has at least one row, or has no columns.
pub proof fn lemma_row_fits(w: u32, h: u32)
    requires
        w * h * 4 <= usize::MAX,
        w == 0 || h >= 1,
    ensures
        w * 4 <= usize::MAX,
{
    if w > 0 {
        assert(w * 4 <= w * h * 4) by (nonlinear_arith)
            requires
                h >= 1,
        ;
    }
}

impl PpuView {
    /// Well-formed: 16 KiB of VRAM, eight control registers, and both frames
    /// sized 256·zoom by 192·zoom, small enough to allocate.
    pub open spec fn wf(self) -> bool {
        &&& self.vram.len() == VRAM_SIZE
        &&& self.registers.len() == 8
        &&& self.next_canvas.width == WIDTH * self.zoom
        &&& self.next_canvas.height == HEIGHT * self.zoom
        &&& (self.canvas matches Some(c) ==> c.width == WIDTH * self.zoom && c.height == HEIGHT
            * self.zoom)
        &&& (WIDTH * self.zoom) * (HEIGHT * self.zoom) * 4 <= usize::MAX
    }
}

pub proof fn lemma_painted_size(c: CanvasView, zoom: u8, x: nat, y: nat, color: u8)
    ensures
        painted(c, zoom, x, y, color).width == c.width,
        painted(c, zoom, x, y, color).height == c.height,
{
    reveal(painted);
    lemma_paint_rows_size(c, zoom as nat, x, y, palette_spec(color), zoom as nat);
}

pub proof fn lemma_paint_line_size(p: PpuView, c: CanvasView, mode: GraphicsMode, y: nat, n: nat)
    ensures
        paint_line(p, c, mode, y, n).width == c.width,
        paint_line(p, c, mode, y, n).height == c.height,
    decreases n,
{
    if n > 0 {
        lemma_paint_line_size(p, c, mode, y, (n - 1) as nat);
        lemma_painted_size(paint_line(p, c, mode, y, (n - 1) as nat), p.zoom, (n - 1) as nat, y, pixel_color(p, mode, n - 1, y as int));
    }
}

pub proof fn lemma_sprite_dots_size(st: SpriteState, zoom: u8, base: int, k: nat, y: nat, color: u8)
    ensures
        sprite_dots(st, zoom, base, k, y, color).canvas.width == st.canvas.width,
        sprite_dots(st, zoom, base, k, y, color).canvas.height == st.canvas.height,
    decreases k,
{
    if k > 0 {
        lemma_sprite_dots_size(st, zoom, base, (k - 1) as nat, y, color);
        let t = sprite_dots(st, zoom, base, (k - 1) as nat, y, color);
        lemma_painted_size(t.canvas, zoom, (base + k - 1) as nat, y, color);
    }
}

pub proof fn lemma_sprite_cols_size(p: PpuView, st: SpriteState, spr: int, y: nat, px: nat)
    ensures
        sprite_cols(p, st, spr, y, px).canvas.width == st.canvas.width,
        sprite_cols(p, st, spr, y, px).canvas.height == st.canvas.height,
    decreases px,
{
    reveal(sprite_cols);
    if px > 0 {
        lemma_sprite_cols_size(p, st, spr, y, (px - 1) as nat);
        let prev = sprite_cols(p, st, spr, y, (px - 1) as nat);
        let c = px - 1;
        let sx = sprite_byte(p, spr, 1) as int;
        let cc = sprite_byte(p, spr, 3);
        let mag = sprite_mag(p);
        let shift = if cc >= 128 { 32int } else { 0 };
        lemma_sprite_dots_size(prev, p.zoom, sx + c * mag - shift, mag as nat, y, cc % 16);
    }
}

pub proof fn lemma_sprite_pass_size(p: PpuView, st0: SpriteState, y: nat, n: nat)
    ensures
        sprite_pass(p, st0, y, n).st.canvas.width == st0.canvas.width,
        sprite_pass(p, st0, y, n).st.canvas.height == st0.canvas.height,
    decreases n,
{
    reveal(sprite_pass);
    if n > 0 {
        lemma_sprite_pass_size(p, st0, y, (n - 1) as nat);
        let prev = sprite_pass(p, st0, y, (n - 1) as nat);
        lemma_sprite_cols_size(p, prev.st, n - 1, y, sprite_size(p) as nat);
    }
}

/// Drawing a line keeps the size of the frame being drawn.
pub proof fn lemma_line_drawn_size(p: PpuView)
    ensures
        line_drawn(p).next_canvas.width == p.next_canvas.width,
        line_drawn(p).next_canvas.height == p.next_canvas.height,
{
    reveal(line_drawn);
    reveal(sprites_applied);
    let y = p.line as nat;
    let mode = p.mode();
    let width: nat = if mode == GraphicsMode::Text { 240 } else { 256 };
    lemma_paint_line_size(p, p.next_canvas, mode, y, width);
    let q = PpuView { next_canvas: paint_line(p, p.next_canvas, mode, y, width), ..p };
    lemma_sprite_pass_size(
        q,
        SpriteState { status: q.status, taken: no_columns_taken(), canvas: q.next_canvas },
        y,
        32,
    );
}

/// Updates keep the processor well-formed; a frame completed from a
/// well-formed processor is 256·zoom by 192·zoom.
pub proof fn lemma_update_wf(p: PpuView, cycles: u64)
    ensures
        p.wf() ==> p.update_spec(cycles).wf(),
        p.wf() && p.reaches_vblank(cycles) ==> (p.update_spec(cycles).canvas matches Some(c)
            && c.width == WIDTH * p.zoom && c.height == HEIGHT * p.zoom),
{
    reveal(PpuView::update_spec);
    let s1 = PpuView { clock_cycles: add_cycles(p.clock_cycles, cycles), ..p };
    lemma_line_drawn_frame(s1);
    lemma_line_drawn_size(s1);
    if p.wf() {
        lemma_row_fits((WIDTH * p.zoom) as u32, (HEIGHT * p.zoom) as u32);
    }
}

/// Port accesses keep the processor well-formed.
pub proof fn lemma_port_access_wf(p: PpuView, addr: u16, v: u8)
    ensures
        p.wf() ==> p.after_write(addr, v).wf(),
        p.wf() ==> p.after_read(addr).wf(),
{
}

/// An update fills the completed-canvas slot exactly when it reaches the
/// vertical blank, and otherwise leaves the slot as it was.
pub proof fn lemma_update_canvas(p: PpuView, cycles: u64)
    ensures
        p.reaches_vblank(cycles) ==> p.update_spec(cycles).canvas is Some,
        !p.reaches_vblank(cycles) ==> p.update_spec(cycles).canvas == p.canvas,
{
    reveal(PpuView::update_spec);
    let s1 = PpuView { clock_cycles: add_cycles(p.clock_cycles, cycles), ..p };
    lemma_line_drawn_frame(s1);
}

/// The processor after updates by each of `cs` in turn.
pub open spec fn after_updates(p: PpuView, cs: Seq<u64>) -> PpuView
    decreases cs.len(),
{
    if cs.len() == 0 {
        p
    } else {
        after_updates(p, cs.drop_last()).update_spec(cs.last())
    }
}

/// Whether one of the updates by `cs` in turn reaches the vertical blank.
pub open spec fn some_vblank(p: PpuView, cs: Seq<u64>) -> bool
    decreases cs.len(),
{
    if cs.len() == 0 {
        false
    } else {
        some_vblank(p, cs.drop_last()) || after_updates(p, cs.drop_last()).reaches_vblank(cs.last())
    }
}

/// Once the completed frame has been taken, the slot holds a frame again
/// after any sequence of updates exactly when one of them reached the
/// vertical blank: one completed canvas per vertical blank.
pub proof fn lemma_one_canvas_per_vblank(p: PpuView, cs: Seq<u64>)
    requires
        p.canvas is None,
    ensures
        after_updates(p, cs).canvas is Some <==> some_vblank(p, cs),
    decreases cs.len(),
{
    if cs.len() > 0 {
        lemma_one_canvas_per_vblank(p, cs.drop_last());
        lemma_update_canvas(after_updates(p, cs.drop_last()), cs.last());
    }
}

impl PpuView {
    /// The processor after `cycles` more T-states: see `Ppu::update`.
    #[verifier::opaque]
    pub open spec fn update_spec(self, cycles: u64) -> PpuView {
        let total = add_cycles(self.clock_cycles, cycles);
        if total < CYCLES_PER_LINE {
            PpuView { clock_cycles: total, ..self }
        } else {
            let s1 = PpuView { clock_cycles: total, ..self };
            let d = if (self.line as u32) < HEIGHT && self.display_enabled() {
                line_drawn(s1)
            } else {
                s1
            };
            let next_line: u16 = if self.line >= 261 {
                0
            } else {
                (self.line + 1) as u16
            };
            let q = PpuView { clock_cycles: (total - CYCLES_PER_LINE) as u64, line: next_line, ..d };
            if next_line == HEIGHT {
                PpuView {
                    canvas: Some(q.next_canvas),
                    next_canvas: blank_of(q.next_canvas),
                    status: (q.status % 128 + 128) as u8,
                    ..q
                }
            } else {
                q
            }
        }
    }
}

impl Ppu {
    /// Spends `cycles` CPU T-states. Each 228 of them finish a scanline, drawn
    /// when it is visible and the display is enabled; the line counter wraps
    /// at 262. Returns whether this call reached the vertical blank (line 192):
    /// then the drawn frame becomes the completed canvas, a fresh one is
    /// started, and the top status bit is set. Otherwise the completed canvas
    /// is left as it was.
    #[verifier::spinoff_prover]
    #[verifier::rlimit(60)]
    pub fn update(&mut self, cycles: u64) -> (r: bool)
        ensures
            r == old(self)@.reaches_vblank(cycles),
            final(self)@ == old(self)@.update_spec(cycles),
            old(self)@.wf() ==> final(self)@.wf(),
            old(self)@.wf() && r ==> (final(self)@.canvas matches Some(c) && c.width == WIDTH
                * old(self)@.zoom && c.height == HEIGHT * old(self)@.zoom),
    {
        proof {
            lemma_update_wf(old(self)@, cycles);
        }
        proof {
            reveal(PpuView::update_spec);
        }
        self.clock_cycles = self.clock_cycles.saturating_add(cycles);
        let mut vblank = false;
        if self.clock_cycles >= CYCLES_PER_LINE {
            if (self.line as u32) < HEIGHT && !self.is_blank_screen() {
                self.scan_line();
            }
            self.clock_cycles = self.clock_cycles - CYCLES_PER_LINE;
            self.line = if self.line >= 261 { 0 } else { self.line + 1 };
            vblank = self.line as u32 == HEIGHT;
        }
        if vblank {
            let (w, h) = canvas_size(&self.next_canvas);
            assert((w as u128) * (h as u128) * 4 <= 0xFFFF_FFFF * 0xFFFF_FFFF * 4) by (nonlinear_arith)
                requires
                    w <= 0xFFFF_FFFF,
                    h <= 0xFFFF_FFFF,
            ;
            let fresh = if (w as u128) * 4 <= usize::MAX as u128 && (w as u128) * (h as u128) * 4
                <= usize::MAX as u128 {
                new_canvas(w, h)
            } else {
                new_canvas(WIDTH, HEIGHT)
            };
            let mut done = fresh;
            std::mem::swap(&mut done, &mut self.next_canvas);
            self.canvas = Some(done);
            self.status_reg = self.status_reg % 128 + 128;
        }
        vblank
    }

    /// Draws the current line: see `line_drawn`.
    fn scan_line(&mut self)
        requires
            (old(self)@.line as u32) < HEIGHT,
        ensures
            final(self)@ == line_drawn(old(self)@),
            final(self)@ == (PpuView { next_canvas: final(self)@.next_canvas, status: final(self)@.status, ..old(self)@ }),
    {
        proof {
            reveal(line_drawn);
        }
        let y = self.line as u32;
        match self.graphics_mode() {
            GraphicsMode::Text => self.draw_text(y),
            GraphicsMode::Graphics1 => {
                self.draw_background(y, GraphicsMode::Graphics1);
                self.draw_sprites(y);
            },
            GraphicsMode::Graphics2 => {
                self.draw_background(y, GraphicsMode::Graphics2);
                self.draw_sprites(y);
            },
            GraphicsMode::Multicolor => self.draw_background(y, GraphicsMode::Multicolor),
        }
    }

    /// Graphics I, Graphics II or Multicolor: 32 cells of 8 pixels.
    /// Graphics I: each name picks a pattern row and a colour byte shared by a
    /// group of eight names. Graphics II: each third of the screen has its own
    /// 2 KiB of patterns and colours, and colours go by pattern row.
    /// Multicolor: the name's byte colours two 4-pixel blocks.
    fn draw_background(&mut self, y: u32, mode: GraphicsMode)
        requires
            y < HEIGHT,
            mode != GraphicsMode::Text,
        ensures
            final(self)@ == (PpuView {
                next_canvas: paint_line(old(self)@, old(self)@.next_canvas, mode, y as nat, 256),
                ..old(self)@
            }),
    {
        let ghost p0 = old(self)@;
        let block = (y / 64) as usize;
        let name_tbl = self.name_table();
        let patt_tbl = self.pattern_gen_table() + if mode == GraphicsMode::Graphics2 { 0x800 * block } else { 0 };
        let colr_tbl = self.color_table() + if mode == GraphicsMode::Graphics2 { 0x800 * block } else { 0 };
        let row = (y / 8) as usize;
        let sub = (y % 8) as usize;
        let mut cell: usize = 0;
        while cell < 32
            invariant
                y < HEIGHT,
                mode != GraphicsMode::Text,
                block == y / 64,
                row == y / 8,
                sub == y % 8,
                cell <= 32,
                name_tbl == p0.reg(2) * 0x400,
                patt_tbl == p0.reg(4) * 0x800 + if mode == GraphicsMode::Graphics2 { 0x800 * block } else { 0 },
                colr_tbl == p0.reg(3) * 0x40 + if mode == GraphicsMode::Graphics2 { 0x800 * block } else { 0 },
                self@ == (PpuView { next_canvas: paint_line(p0, p0.next_canvas, mode, y as nat, (cell * 8) as nat), ..p0 }),
            decreases 32 - cell,
        {
            let name = self.vram_at(name_tbl + row * 32 + cell) as usize;
            let (pattern, color) = if mode == GraphicsMode::Multicolor {
                (0u8, self.vram_at(patt_tbl + name * 8 + (row % 4) * 2 + sub / 4))
            } else if mode == GraphicsMode::Graphics1 {
                (self.vram_at(patt_tbl + name * 8 + sub), self.vram_at(colr_tbl + name / 8))
            } else {
                (self.vram_at(patt_tbl + name * 8 + sub), self.vram_at(colr_tbl + name * 8 + sub))
            };
            let mut bit: u32 = 0;
            while bit < 8
                invariant
                    y < HEIGHT,
                    cell < 32,
                    bit <= 8,
                    self@ == (PpuView { next_canvas: paint_line(p0, p0.next_canvas, mode, y as nat, (cell * 8 + bit) as nat), ..p0 }),
                    mode == GraphicsMode::Multicolor ==> color == p0.vram_at(p0.reg(4) * 0x800 + name * 8 + (row % 4) * 2 + sub / 4),
                    mode == GraphicsMode::Graphics1 ==> pattern == p0.vram_at(p0.reg(4) * 0x800 + name * 8 + sub)
                        && color == p0.vram_at(p0.reg(3) * 0x40 + name / 8),
                    mode == GraphicsMode::Graphics2 ==> pattern == p0.vram_at(p0.reg(4) * 0x800 + 0x800 * block + name * 8 + sub)
                        && color == p0.vram_at(p0.reg(3) * 0x40 + 0x800 * block + name * 8 + sub),
                    name == p0.vram_at(p0.reg(2) * 0x400 + row * 32 + cell),
                    mode != GraphicsMode::Text,
                    block == y / 64,
                    row == y / 8,
                    sub == y % 8,
                decreases 8 - bit,
            {
                let c = if mode == GraphicsMode::Multicolor {
                    if bit < 4 { color / 16 } else { color % 16 }
                } else if is_bit_set(pattern, (7 - bit) as u8) {
                    color / 16
                } else {
                    color % 16
                };
                let x = (cell * 8) as u32 + bit;
                assert(x / 8 == cell && x % 8 == bit);
                assert(c == pixel_color(p0, mode, x as int, y as int));
                self.color_pixel(c, x, y);
                bit += 1;
            }
            cell += 1;
        }
    }

    /// Text mode: 40 cells of 6 pixels in the two colours of register 7.
    fn draw_text(&mut self, y: u32)
        requires
            y < HEIGHT,
        ensures
            final(self)@ == (PpuView {
                next_canvas: paint_line(old(self)@, old(self)@.next_canvas, GraphicsMode::Text, y as nat, 240),
                ..old(self)@
            }),
    {
        let ghost p0 = old(self)@;
        let fg = self.text_color();
        let bg = self.text_back_color();
        let name_tbl = self.name_table();
        let patt_tbl = self.pattern_gen_table();
        let row = (y / 8) as usize;
        let sub = (y % 8) as usize;
        let mut cell: usize = 0;
        while cell < 40
            invariant
                y < HEIGHT,
                row == y / 8,
                sub == y % 8,
                cell <= 40,
                fg == p0.reg(7) / 16,
                bg == p0.reg(7) % 16,
                name_tbl == p0.reg(2) * 0x400,
                patt_tbl == p0.reg(4) * 0x800,
                self@ == (PpuView { next_canvas: paint_line(p0, p0.next_canvas, GraphicsMode::Text, y as nat, (cell * 6) as nat), ..p0 }),
            decreases 40 - cell,
        {
            let name = self.vram_at(name_tbl + row * 40 + cell) as usize;
            let pattern = self.vram_at(patt_tbl + name * 8 + sub);
            let mut bit: u32 = 0;
            while bit < 6
                invariant
                    y < HEIGHT,
                    cell < 40,
                    bit <= 6,
                    row == y / 8,
                    sub == y % 8,
                    fg == p0.reg(7) / 16,
                    bg == p0.reg(7) % 16,
                    name == p0.vram_at(p0.reg(2) * 0x400 + row * 40 + cell),
                    pattern == p0.vram_at(p0.reg(4) * 0x800 + name * 8 + sub),
                    self@ == (PpuView { next_canvas: paint_line(p0, p0.next_canvas, GraphicsMode::Text, y as nat, (cell * 6 + bit) as nat), ..p0 }),
                decreases 6 - bit,
            {
                let on = is_bit_set(pattern, (7 - bit) as u8);
                let x = cell as u32 * 6 + bit;
                assert(x / 6 == cell && x % 6 == bit);
                self.color_pixel(if on { fg } else { bg }, x, y);
                bit += 1;
            }
            cell += 1;
        }
    }

    /// The pattern row of sprite `spr` on line `y`: see `sprite_cols`.
    #[verifier::spinoff_prover]
    #[verifier::rlimit(100)]
    fn draw_sprite(
        &mut self,
        taken: &mut Vec<bool>,
        spr: usize,
        y: u32,
        size: u32,
        mag: u32,
        gen_tbl: usize,
        sy: u32,
        sx: u32,
        name: usize,
        clock_color: u8,
        p0: Ghost<PpuView>,
    )
        requires
            y < HEIGHT,
            spr < 32,
            size == sprite_size(p0@),
            mag == sprite_mag(p0@),
            size == 8 || size == 16,
            mag == 1 || mag == 2,
            gen_tbl == p0@.reg(6) * 0x800,
            sy == sprite_byte(p0@, spr as int, 0),
            sx == sprite_byte(p0@, spr as int, 1),
            name == sprite_byte(p0@, spr as int, 2),
            clock_color == sprite_byte(p0@, spr as int, 3),
            sy <= y < sy + size * mag,
            old(taken)@.len() == 256,
            old(self)@ == (PpuView { next_canvas: old(self)@.next_canvas, status: old(self)@.status, ..p0@ }),
        ensures
            final(taken)@.len() == 256,
            final(self)@ == (PpuView { next_canvas: final(self)@.next_canvas, status: final(self)@.status, ..p0@ }),
            sprite_cols(
                p0@,
                SpriteState { status: old(self)@.status, taken: old(taken)@, canvas: old(self)@.next_canvas },
                spr as int,
                y as nat,
                size as nat,
            ) == (SpriteState { status: final(self)@.status, taken: final(taken)@, canvas: final(self)@.next_canvas }),
    {
        let ghost p0 = p0@;
        proof {
            reveal(sprite_cols);
        }
        let ghost start = SpriteState { status: self@.status, taken: taken@, canvas: self@.next_canvas };
        assert((y - sy) / (mag as int) < 16) by (nonlinear_arith)
            requires
                0 <= y - sy < size * mag,
                size <= 16,
                mag == 1 || mag == 2,
        ;
        let row = ((y - sy) / mag) as usize;
        let color = clock_color % 16;
        let shift: u32 = if clock_color >= 128 { 32 } else { 0 };
        let first = if size == 16 { name / 4 * 4 } else { name };
        let mut px: u32 = 0;
        while px < size
            invariant
                y < HEIGHT,
                size == sprite_size(p0),
                mag == sprite_mag(p0),
                size == 8 || size == 16,
                mag == 1 || mag == 2,
                px <= size,
                sy == sprite_byte(p0, spr as int, 0),
                sx == sprite_byte(p0, spr as int, 1),
                name == sprite_byte(p0, spr as int, 2),
                clock_color == sprite_byte(p0, spr as int, 3),
                sy <= y,
                row == (y - sy) / (mag as int),
                row < 16,
                color == clock_color % 16,
                shift == if clock_color >= 128 { 32int } else { 0 },
                first == if size == 16 { name / 4 * 4 } else { name as int },
                gen_tbl == p0.reg(6) * 0x800,
                taken@.len() == 256,
                self@ == (PpuView { next_canvas: self@.next_canvas, status: self@.status, ..p0 }),
                sprite_cols(p0, start, spr as int, y as nat, px as nat) == (SpriteState {
                    status: self@.status,
                    taken: taken@,
                    canvas: self@.next_canvas,
                }),
            decreases size - px,
        {
            proof {
                reveal(sprite_cols);
            }
            let pattern = self.vram_at(gen_tbl + first * 8 + (px / 8) as usize * 16 + row);
            let ghost before = SpriteState { status: self@.status, taken: taken@, canvas: self@.next_canvas };
            if is_bit_set(pattern, (7 - px % 8) as u8) {
                let ghost base = sx as int + px as int * mag as int - shift as int;
                let mut k: u32 = 0;
                while k < mag
                    invariant
                        y < HEIGHT,
                        mag == 1 || mag == 2,
                        k <= mag,
                        px < 16,
                        sx < 256,
                        base == sx as int + px as int * mag as int - shift as int,
                        taken@.len() == 256,
                        self@ == (PpuView { next_canvas: self@.next_canvas, status: self@.status, ..p0 }),
                        sprite_dots(before, p0.zoom, base, k as nat, y as nat, color) == (SpriteState {
                            status: self@.status,
                            taken: taken@,
                            canvas: self@.next_canvas,
                        }),
                    decreases mag - k,
                {
                    assert(px * mag + k <= 15 * 2 + 1) by (nonlinear_arith)
                        requires
                            px < 16,
                            mag <= 2,
                            k < mag,
                    ;
                    let pos = sx + px * mag + k;
                    if pos >= shift && pos - shift < WIDTH {
                        let screen_x = pos - shift;
                        if taken[screen_x as usize] {
                            self.status_reg = self.status_reg | 0x20;
                        } else {
                            taken.set(screen_x as usize, true);
                            if color != 0 {
                                self.color_pixel(color, screen_x, y);
                            }
                        }
                    }
                    k += 1;
                }
            }
            px += 1;
        }
    }

    /// The sprite pass for line `y`: see `sprite_pass`. Sprites are taken in
    /// table order; one is active when `Y <= y < Y + height`. The fifth active
    /// sprite sets the fifth-sprite flag (bit 6) with its index in bits 0-4 and
    /// ends the pass. A set pattern bit at a column already taken by an earlier
    /// sprite on this line sets the coincidence flag (bit 5) and is not drawn;
    /// colour 0 is transparent. The early-clock bit moves a sprite 32 pixels left.
    #[verifier::spinoff_prover]
    #[verifier::rlimit(100)]
    fn draw_sprites(&mut self, y: u32)
        requires
            y < HEIGHT,
        ensures
            final(self)@ == sprites_applied(old(self)@, y as nat),
            final(self)@ == (PpuView { next_canvas: final(self)@.next_canvas, status: final(self)@.status, ..old(self)@ }),
    {
        proof {
            reveal(sprites_applied);
            reveal(sprite_pass);
        }
        let ghost p0 = old(self)@;
        let ghost st0 = SpriteState { status: p0.status, taken: no_columns_taken(), canvas: p0.next_canvas };
        let (size, mag) = self.get_sprite_size();
        let size = size as u32;
        let mag = mag as u32;
        let height: u32 = if mag == 2 { size * 2 } else { size };
        let attr_tbl = self.sprite_attr_table();
        let gen_tbl = self.sprite_patt_gen_table();
        let mut taken: Vec<bool> = vec![false; 256];
        proof {
            assert(taken@ =~= st0.taken);
        }
        let mut count: u32 = 0;
        let mut spr: usize = 0;
        while spr < 32
            invariant
                y < HEIGHT,
                size == sprite_size(p0),
                mag == sprite_mag(p0),
                size == 8 || size == 16,
                mag == 1 || mag == 2,
                height == size * mag,
                attr_tbl == p0.reg(5) * 0x80,
                gen_tbl == p0.reg(6) * 0x800,
                p0 == old(self)@,
                st0 == (SpriteState { status: p0.status, taken: no_columns_taken(), canvas: p0.next_canvas }),
                spr <= 32,
                count < 5,
                taken@.len() == 256,
                self@ == (PpuView { next_canvas: self@.next_canvas, status: self@.status, ..p0 }),
                ({
                    let pass = sprite_pass(p0, st0, y as nat, spr as nat);
                    &&& !pass.stopped
                    &&& pass.count == count
                    &&& pass.st == (SpriteState { status: self@.status, taken: taken@, canvas: self@.next_canvas })
                }),
            decreases 32 - spr,
        {
            let sy = self.vram_at(attr_tbl + 4 * spr) as u32;
            let sx = self.vram_at(attr_tbl + 4 * spr + 1) as u32;
            let name = self.vram_at(attr_tbl + 4 * spr + 2) as usize;
            let clock_color = self.vram_at(attr_tbl + 4 * spr + 3);
            assert(sy == sprite_byte(p0, spr as int, 0) && sx == sprite_byte(p0, spr as int, 1));
            assert(name == sprite_byte(p0, spr as int, 2) && clock_color == sprite_byte(p0, spr as int, 3));
            proof {
                reveal(sprite_pass);
            }
            let ghost prev = sprite_pass(p0, st0, y as nat, spr as nat);
            assert(sprite_active(p0, spr as int, y as int) == (sy <= y && y < sy + height));
            if sy <= y && y < sy + height {
                count = count + 1;
                if count == 5 {
                    assert(sprite_pass(p0, st0, y as nat, (spr + 1) as nat) == (SpritePass {
                        st: SpriteState { status: fifth_status(prev.st.status, spr as int), ..prev.st },
                        count: 5,
                        stopped: true,
                    }));
                    self.status_reg = (self.status_reg / 128) * 128 + 64 + (self.status_reg % 64) / 32 * 32 + spr as u8;
                    proof {
                        lemma_sprite_pass_stops(p0, st0, y as nat, (spr + 1) as nat, 32);
                        reveal(sprites_applied);
                    }
                    return;
                }
                self.draw_sprite(&mut taken, spr, y, size, mag, gen_tbl, sy, sx, name, clock_color, Ghost(p0));
                assert(sprite_pass(p0, st0, y as nat, (spr + 1) as nat) == (SpritePass {
                    st: sprite_cols(p0, prev.st, spr as int, y as nat, sprite_size(p0) as nat),
                    count: prev.count + 1,
                    stopped: false,
                }));
            } else {
                assert(sprite_pass(p0, st0, y as nat, (spr + 1) as nat) == prev);
            }
            spr += 1;
        }
        proof {
            reveal(sprites_applied);
        }
    }
}

} // verus!
