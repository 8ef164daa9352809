//! Address windows, memory regions and the bus that routes accesses to the
//! first device accepting an address.

use vstd::prelude::*;
use crate::controller::{Button, JoypadView, KeyboardController};
use crate::vdp::{Canvas, Ppu, PpuView, canvas_view};

verus! {

/// Largest size of a memory region: the whole 16-bit address space.
pub const MAX_SIZE: usize = 0x10000;

/// An inclusive window `min ..= max` of 16-bit addresses.
#[derive(Clone, Copy, Debug, PartialEq, Eq, Structural)]
pub struct MemoryMap {
    pub min: u16,
    pub max: u16,
}

impl MemoryMap {
    pub open spec fn has(self, addr: u16) -> bool {
        self.min <= addr && addr <= self.max
    }

    pub fn new(min: u16, max: u16) -> (r: MemoryMap)
        ensures
            r.min == min,
            r.max == max,
    {
        MemoryMap { min, max }
    }

    /// Whether `val` falls inside the window, both ends included.
    pub fn contains(&self, val: u16) -> (r: bool)
        ensures
            r == self.has(val),
    {
        val >= self.min && val <= self.max
    }
}

impl From<(u16, u16)> for MemoryMap {
    fn from(range: (u16, u16)) -> (r: MemoryMap) {
        MemoryMap { min: range.0, max: range.1 }
    }
}

impl vstd::std_specs::convert::FromSpecImpl<(u16, u16)> for MemoryMap {
    open spec fn obeys_from_spec() -> bool {
        true
    }

    open spec fn from_spec(range: (u16, u16)) -> MemoryMap {
        MemoryMap { min: range.0, max: range.1 }
    }
}

/// Index of the first window in `maps`, from `i` on, that holds `addr`;
/// `maps.len()` when none does.
pub open spec fn first_map_from(maps: Seq<MemoryMap>, addr: u16, i: int) -> int
    decreases maps.len() - i,
{
    if i >= maps.len() {
        maps.len() as int
    } else if maps[i].has(addr) {
        i
    } else {
        first_map_from(maps, addr, i + 1)
    }
}

pub proof fn lemma_first_map_from_bounds(maps: Seq<MemoryMap>, addr: u16, i: int)
    requires
        0 <= i <= maps.len(),
    ensures
        i <= first_map_from(maps, addr, i) <= maps.len(),
        first_map_from(maps, addr, i) < maps.len() ==> maps[first_map_from(maps, addr, i)].has(
            addr,
        ),
    decreases maps.len() - i,
{
    if i < maps.len() && !maps[i].has(addr) {
        lemma_first_map_from_bounds(maps, addr, i + 1);
    }
}

/// Something attached to a bus: it claims addresses and serves reads and writes.
/// Its view after an access is a function of its view before.
pub trait BusConnectable: View + Sized {
    /// Whether the device services `addr`.
    spec fn accepts(&self, addr: u16) -> bool;

    /// The byte a read of `addr` returns.
    spec fn read_value(&self, addr: u16) -> u8;

    /// The view of the device after a read of `addr` (some ports change on reads).
    spec fn read_view(&self, addr: u16) -> Self::V;

    /// The view of the device after `data` is written to `addr`.
    spec fn write_view(&self, addr: u16, data: u8) -> Self::V;

    /// Whether a write of `data` to `addr` is reported as successful.
    spec fn write_ok(&self, addr: u16, data: u8) -> bool;

    fn accept(&self, addr: u16) -> (r: bool)
        ensures
            r == self.accepts(addr),
    ;

    fn cpu_read(&mut self, addr: u16) -> (r: u8)
        ensures
            r == old(self).read_value(addr),
            final(self)@ == old(self).read_view(addr),
    ;

    fn cpu_write(&mut self, addr: u16, data: u8) -> (r: bool)
        ensures
            r == old(self).write_ok(addr, data),
            final(self)@ == old(self).write_view(addr, data),
    ;
}

/// The byte at `addr` of a flat memory vector; bytes past its end read as 0.
pub open spec fn vec_read(v: Seq<u8>, addr: u16) -> u8 {
    if (addr as int) < v.len() {
        v[addr as int]
    } else {
        0
    }
}

/// A flat memory vector after a write: it grows with zeros to reach `addr`.
pub open spec fn vec_write(v: Seq<u8>, addr: u16, data: u8) -> Seq<u8> {
    if (addr as int) < v.len() {
        v.update(addr as int, data)
    } else {
        (v + Seq::new((addr as int + 1 - v.len()) as nat, |i: int| 0u8)).update(addr as int, data)
    }
}

/// A plain byte vector on a bus accepts every address and grows on writes.
impl BusConnectable for Vec<u8> {
    open spec fn accepts(&self, addr: u16) -> bool {
        true
    }

    open spec fn read_value(&self, addr: u16) -> u8 {
        vec_read(self@, addr)
    }

    open spec fn read_view(&self, addr: u16) -> Seq<u8> {
        self@
    }

    open spec fn write_view(&self, addr: u16, data: u8) -> Seq<u8> {
        vec_write(self@, addr, data)
    }

    open spec fn write_ok(&self, addr: u16, data: u8) -> bool {
        true
    }

    fn accept(&self, addr: u16) -> (r: bool) {
        true
    }

    fn cpu_read(&mut self, addr: u16) -> (r: u8) {
        if (addr as usize) < self.len() {
            self[addr as usize]
        } else {
            0
        }
    }

    fn cpu_write(&mut self, addr: u16, data: u8) -> (r: bool) {
        if self.len() <= addr as usize {
            self.resize(addr as usize + 1, 0);
        }
        self.set(addr as usize, data);
        proof {
            assert(self@ =~= vec_write(old(self)@, addr, data));
        }
        true
    }
}

/// What a memory region holds: its buffer, its windows and whether it is read-only.
pub struct RamView {
    pub bytes: Seq<u8>,
    pub size: nat,
    pub primary: MemoryMap,
    pub mirrors: Seq<MemoryMap>,
    pub read_only: bool,
}

impl RamView {
    /// The window through which `addr` reaches the buffer: the primary map
    /// first, then the first mirror that holds it.
    pub open spec fn window(self, addr: u16) -> Option<MemoryMap> {
        if self.primary.has(addr) {
            Some(self.primary)
        } else {
            let i = first_map_from(self.mirrors, addr, 0);
            if i < self.mirrors.len() {
                Some(self.mirrors[i])
            } else {
                None
            }
        }
    }

    /// Offset into the buffer that `addr` designates, or -1 when no window holds it.
    pub open spec fn cell(self, addr: u16) -> int {
        match self.window(addr) {
            Some(m) => addr - m.min,
            None => -1,
        }
    }

    pub open spec fn has_cell(self, addr: u16) -> bool {
        0 <= self.cell(addr) < self.bytes.len()
    }

    pub open spec fn accepts(self, addr: u16) -> bool {
        self.window(addr) is Some
    }

    pub open spec fn read(self, addr: u16) -> u8 {
        if self.has_cell(addr) {
            self.bytes[self.cell(addr)]
        } else {
            0
        }
    }

    /// A write lands when the region is writable and a window maps the address
    /// inside the buffer; a write to a read-only region is refused.
    pub open spec fn write_ok(self, addr: u16) -> bool {
        !self.read_only && self.has_cell(addr)
    }

    pub open spec fn write(self, addr: u16, data: u8) -> RamView {
        if self.write_ok(addr) {
            RamView { bytes: self.bytes.update(self.cell(addr), data), ..self }
        } else {
            self
        }
    }
}

/// A byte buffer reachable through one primary window and any number of
/// mirror windows, all sharing the same storage.
pub struct Ram {
    data: Vec<u8>,
    size: usize,
    memory_map: MemoryMap,
    mirrors: Vec<MemoryMap>,
    read_only: bool,
}

impl View for Ram {
    type V = RamView;

    closed spec fn view(&self) -> RamView {
        RamView {
            bytes: self.data@,
            size: self.size as nat,
            primary: self.memory_map,
            mirrors: self.mirrors@,
            read_only: self.read_only,
        }
    }
}

impl Ram {
    /// A region of `size` zero bytes mapped at `memory_map`, writable, without mirrors.
    pub fn new(size: usize, memory_map: MemoryMap) -> (r: Ram)
        requires
            size <= MAX_SIZE,
        ensures
            r@ == (RamView {
                bytes: Seq::new(size as nat, |i: int| 0u8),
                size: size as nat,
                primary: memory_map,
                mirrors: Seq::empty(),
                read_only: false,
            }),
    {
        let r = Ram { size, data: vec![0u8; size], memory_map, mirrors: Vec::new(), read_only: false };
        proof {
            assert(r.data@ =~= Seq::new(size as nat, |i: int| 0u8));
            assert(r.mirrors@ =~= Seq::<MemoryMap>::empty());
        }
        r
    }

    /// A builder whose defaults are a writable 64 KiB region mapped at
    /// `0x0000 ..= 0xFFFF`, zero-filled, without mirrors.
    pub fn builder() -> (r: RamBuilder)
        ensures
            r.is_empty(),
    {
        RamBuilder::new()
    }

    /// The buffer behind every window of the region.
    pub fn vram(&self) -> (r: &Vec<u8>)
        ensures
            r@ == self@.bytes,
    {
        &self.data
    }

    pub fn size(&self) -> (r: usize)
        ensures
            r == self@.size,
    {
        self.size
    }

    pub fn memory_map(&self) -> (r: MemoryMap)
        ensures
            r == self@.primary,
    {
        self.memory_map
    }

    pub fn mirrors(&self) -> (r: &Vec<MemoryMap>)
        ensures
            r@ == self@.mirrors,
    {
        &self.mirrors
    }

    pub fn read_only(&self) -> (r: bool)
        ensures
            r == self@.read_only,
    {
        self.read_only
    }

    /// The window holding `addr`, searched as `RamView::window` describes.
    fn find_window(&self, addr: u16) -> (r: Option<MemoryMap>)
        ensures
            r == self@.window(addr),
            r matches Some(m) ==> m.has(addr),
    {
        proof {
            lemma_first_map_from_bounds(self.mirrors@, addr, 0);
        }
        if self.memory_map.contains(addr) {
            return Some(self.memory_map);
        }
        let mut i: usize = 0;
        while i < self.mirrors.len()
            invariant
                0 <= i <= self.mirrors@.len(),
                !self.memory_map.has(addr),
                first_map_from(self.mirrors@, addr, 0) == first_map_from(
                    self.mirrors@,
                    addr,
                    i as int,
                ),
            decreases self.mirrors@.len() - i,
        {
            if self.mirrors[i].contains(addr) {
                assert(first_map_from(self.mirrors@, addr, i as int) == i as int);
                return Some(self.mirrors[i]);
            }
            i += 1;
        }
        assert(first_map_from(self.mirrors@, addr, i as int) == self.mirrors@.len());
        None
    }
}

impl BusConnectable for Ram {
    open spec fn accepts(&self, addr: u16) -> bool {
        self@.accepts(addr)
    }

    open spec fn read_value(&self, addr: u16) -> u8 {
        self@.read(addr)
    }

    open spec fn read_view(&self, addr: u16) -> RamView {
        self@
    }

    open spec fn write_view(&self, addr: u16, data: u8) -> RamView {
        self@.write(addr, data)
    }

    open spec fn write_ok(&self, addr: u16, data: u8) -> bool {
        self@.write_ok(addr)
    }

    fn accept(&self, addr: u16) -> (r: bool) {
        self.find_window(addr).is_some()
    }

    fn cpu_read(&mut self, addr: u16) -> (r: u8) {
        match self.find_window(addr) {
            Some(m) => {
                let index = (addr - m.min) as usize;
                if index < self.data.len() {
                    self.data[index]
                } else {
                    0
                }
            },
            None => 0,
        }
    }

    fn cpu_write(&mut self, addr: u16, data: u8) -> (r: bool) {
        if self.read_only {
            return false;
        }
        match self.find_window(addr) {
            Some(m) => {
                let index = (addr - m.min) as usize;
                if index < self.data.len() {
                    self.data.set(index, data);
                    proof {
                        assert(self@ == old(self)@.write(addr, data));
                    }
                    true
                } else {
                    false
                }
            },
            None => false,
        }
    }
}

/// Collects the settings of a memory region; unset ones take the defaults
/// listed at `Ram::builder`.
pub struct RamBuilder {
    data: Option<Vec<u8>>,
    size: Option<usize>,
    memory_map: Option<MemoryMap>,
    mirrors: Option<Vec<MemoryMap>>,
    read_only: Option<bool>,
}

/// The settings a region builder holds so far.
pub struct RamSettings {
    pub data: Option<Seq<u8>>,
    pub size: Option<usize>,
    pub memory_map: Option<MemoryMap>,
    pub mirrors: Seq<MemoryMap>,
    pub read_only: Option<bool>,
}

impl RamSettings {
    /// The size the region will have; sizes over `MAX_SIZE` are cut to it.
    pub open spec fn built_size(self) -> nat {
        match self.size {
            Some(s) => if s <= MAX_SIZE {
                s as nat
            } else {
                MAX_SIZE as nat
            },
            None => MAX_SIZE as nat,
        }
    }

    /// The buffer the region will have: the given data cut or zero-padded to the size.
    pub open spec fn built_bytes(self) -> Seq<u8> {
        let d = match self.data {
            Some(d) => d,
            None => Seq::empty(),
        };
        Seq::new(self.built_size(), |i: int| if i < d.len() { d[i] } else { 0u8 })
    }

    pub open spec fn built(self) -> RamView {
        RamView {
            bytes: self.built_bytes(),
            size: self.built_size(),
            primary: match self.memory_map {
                Some(m) => m,
                None => MemoryMap { min: 0, max: 0xFFFF },
            },
            mirrors: self.mirrors,
            read_only: match self.read_only {
                Some(b) => b,
                None => false,
            },
        }
    }
}

impl View for RamBuilder {
    type V = RamSettings;

    closed spec fn view(&self) -> RamSettings {
        RamSettings {
            data: match self.data {
                Some(d) => Some(d@),
                None => None,
            },
            size: self.size,
            memory_map: self.memory_map,
            mirrors: match self.mirrors {
                Some(m) => m@,
                None => Seq::empty(),
            },
            read_only: self.read_only,
        }
    }
}

impl RamBuilder {
    pub open spec fn is_empty(&self) -> bool {
        &&& self@.data is None
        &&& self@.size is None
        &&& self@.memory_map is None
        &&& self@.mirrors == Seq::<MemoryMap>::empty()
        &&& self@.read_only is None
    }

    pub fn new() -> (r: RamBuilder)
        ensures
            r.is_empty(),
    {
        RamBuilder { data: None, size: None, memory_map: None, mirrors: None, read_only: None }
    }

    /// Sets the buffer size; sizes over `MAX_SIZE` are cut to it when built.
    pub fn size(self, size: usize) -> (r: Self)
        ensures
            r@ == (RamSettings { size: Some(size), ..self@ }),
    {
        RamBuilder { size: Some(size), ..self }
    }

    pub fn data(self, data: Vec<u8>) -> (r: Self)
        ensures
            r@ == (RamSettings { data: Some(data@), ..self@ }),
    {
        RamBuilder { data: Some(data), ..self }
    }

    /// Replaces the mirror windows.
    pub fn mirrors(self, memory_maps: Vec<MemoryMap>) -> (r: Self)
        ensures
            r@ == (RamSettings { mirrors: memory_maps@, ..self@ }),
    {
        RamBuilder { mirrors: Some(memory_maps), ..self }
    }

    /// Appends one mirror window.
    pub fn mirror(self, map: MemoryMap) -> (r: Self)
        ensures
            r@ == (RamSettings { mirrors: self@.mirrors.push(map), ..self@ }),
    {
        let mut maps = match self.mirrors {
            Some(m) => m,
            None => Vec::new(),
        };
        maps.push(map);
        let r = RamBuilder { mirrors: Some(maps), ..self };
        proof {
            assert(r@.mirrors =~= self@.mirrors.push(map));
        }
        r
    }

    pub fn map(self, map: MemoryMap) -> (r: Self)
        ensures
            r@ == (RamSettings { memory_map: Some(map), ..self@ }),
    {
        RamBuilder { memory_map: Some(map), ..self }
    }

    pub fn read_only(self, read_only: bool) -> (r: Self)
        ensures
            r@ == (RamSettings { read_only: Some(read_only), ..self@ }),
    {
        RamBuilder { read_only: Some(read_only), ..self }
    }

    pub fn build(self) -> (r: Ram)
        ensures
            r@ == self@.built(),
    {
        let size = match self.size {
            Some(s) => if s <= MAX_SIZE {
                s
            } else {
                MAX_SIZE
            },
            None => MAX_SIZE,
        };
        let mut data = match self.data {
            Some(d) => d,
            None => Vec::new(),
        };
        if data.len() > size {
            data.truncate(size);
        } else {
            data.resize(size, 0);
        }
        proof {
            assert(data@ =~= self@.built_bytes());
        }
        let memory_map = match self.memory_map {
            Some(m) => m,
            None => MemoryMap { min: 0, max: 0xFFFF },
        };
        let mirrors = match self.mirrors {
            Some(m) => m,
            None => Vec::new(),
        };
        let read_only = match self.read_only {
            Some(b) => b,
            None => false,
        };
        proof {
            assert(mirrors@ =~= self@.mirrors);
        }
        Ram { data, size, memory_map, mirrors, read_only }
    }
}

/// Writing a byte through the primary window of a writable region makes it
/// visible through every mirror window of the same width, at the same offset.
pub proof fn lemma_mirror_write_read(ram: RamView, j: int, k: u16, v: u8)
    requires
        !ram.read_only,
        ram.primary.min <= ram.primary.max,
        ram.bytes.len() == ram.primary.max - ram.primary.min + 1,
        0 <= j < ram.mirrors.len(),
        ram.mirrors[j].max - ram.mirrors[j].min == ram.primary.max - ram.primary.min,
        k <= ram.primary.max - ram.primary.min,
        ram.window((ram.mirrors[j].min + k) as u16) == Some(ram.mirrors[j]),
    ensures
        ram.write((ram.primary.min + k) as u16, v).read((ram.mirrors[j].min + k) as u16) == v,
{
    let p = (ram.primary.min + k) as u16;
    let q = (ram.mirrors[j].min + k) as u16;
    let post = ram.write(p, v);
    assert(ram.window(p) == Some(ram.primary));
    assert(ram.cell(p) == k);
    assert(post.window(q) == ram.window(q));
    assert(post.cell(q) == k);
}

/// What a device on a bus holds.
pub enum DeviceView {
    Memory(Seq<u8>),
    Ram(RamView),
    Vdp(PpuView),
    Joypad(JoypadView),
}

impl DeviceView {
    pub open spec fn accepts(self, addr: u16) -> bool {
        match self {
            DeviceView::Memory(v) => true,
            DeviceView::Ram(r) => r.accepts(addr),
            DeviceView::Vdp(p) => p.accepts(addr),
            DeviceView::Joypad(j) => j.accepts(addr),
        }
    }

    pub open spec fn read(self, addr: u16) -> u8 {
        match self {
            DeviceView::Memory(v) => vec_read(v, addr),
            DeviceView::Ram(r) => r.read(addr),
            DeviceView::Vdp(p) => p.read(addr),
            DeviceView::Joypad(j) => j.read(addr),
        }
    }

    pub open spec fn after_read(self, addr: u16) -> DeviceView {
        match self {
            DeviceView::Vdp(p) => DeviceView::Vdp(p.after_read(addr)),
            _ => self,
        }
    }

    pub open spec fn write_ok(self, addr: u16, data: u8) -> bool {
        match self {
            DeviceView::Memory(v) => true,
            DeviceView::Ram(r) => r.write_ok(addr),
            DeviceView::Vdp(p) => p.accepts(addr),
            DeviceView::Joypad(j) => false,
        }
    }

    pub open spec fn after_write(self, addr: u16, data: u8) -> DeviceView {
        match self {
            DeviceView::Memory(v) => DeviceView::Memory(vec_write(v, addr, data)),
            DeviceView::Ram(r) => DeviceView::Ram(r.write(addr, data)),
            DeviceView::Vdp(p) => DeviceView::Vdp(p.after_write(addr, data)),
            DeviceView::Joypad(j) => self,
        }
    }
}

/// Every kind of device that can sit on a bus.
pub enum Device {
    Memory(Vec<u8>),
    Ram(Ram),
    Vdp(Ppu),
    Joypad(KeyboardController),
}

impl View for Device {
    type V = DeviceView;

    open spec fn view(&self) -> DeviceView {
        match self {
            Device::Memory(v) => DeviceView::Memory(v@),
            Device::Ram(r) => DeviceView::Ram(r@),
            Device::Vdp(p) => DeviceView::Vdp(p@),
            Device::Joypad(j) => DeviceView::Joypad(j@),
        }
    }
}

impl From<Vec<u8>> for Device {
    fn from(v: Vec<u8>) -> (r: Device) {
        Device::Memory(v)
    }
}

impl vstd::std_specs::convert::FromSpecImpl<Vec<u8>> for Device {
    open spec fn obeys_from_spec() -> bool {
        true
    }

    open spec fn from_spec(v: Vec<u8>) -> Device {
        Device::Memory(v)
    }
}

impl From<Ram> for Device {
    fn from(r: Ram) -> (d: Device) {
        Device::Ram(r)
    }
}

impl vstd::std_specs::convert::FromSpecImpl<Ram> for Device {
    open spec fn obeys_from_spec() -> bool {
        true
    }

    open spec fn from_spec(r: Ram) -> Device {
        Device::Ram(r)
    }
}

impl From<Ppu> for Device {
    fn from(p: Ppu) -> (d: Device) {
        Device::Vdp(p)
    }
}

impl vstd::std_specs::convert::FromSpecImpl<Ppu> for Device {
    open spec fn obeys_from_spec() -> bool {
        true
    }

    open spec fn from_spec(p: Ppu) -> Device {
        Device::Vdp(p)
    }
}

impl From<KeyboardController> for Device {
    fn from(j: KeyboardController) -> (d: Device) {
        Device::Joypad(j)
    }
}

impl vstd::std_specs::convert::FromSpecImpl<KeyboardController> for Device {
    open spec fn obeys_from_spec() -> bool {
        true
    }

    open spec fn from_spec(j: KeyboardController) -> Device {
        Device::Joypad(j)
    }
}

impl BusConnectable for Device {
    open spec fn accepts(&self, addr: u16) -> bool {
        self@.accepts(addr)
    }

    open spec fn read_value(&self, addr: u16) -> u8 {
        self@.read(addr)
    }

    open spec fn read_view(&self, addr: u16) -> DeviceView {
        self@.after_read(addr)
    }

    open spec fn write_view(&self, addr: u16, data: u8) -> DeviceView {
        self@.after_write(addr, data)
    }

    open spec fn write_ok(&self, addr: u16, data: u8) -> bool {
        self@.write_ok(addr, data)
    }

    fn accept(&self, addr: u16) -> (r: bool) {
        match self {
            Device::Memory(v) => v.accept(addr),
            Device::Ram(r) => r.accept(addr),
            Device::Vdp(p) => p.accept(addr),
            Device::Joypad(j) => j.accept(addr),
        }
    }

    fn cpu_read(&mut self, addr: u16) -> (r: u8) {
        match self {
            Device::Memory(v) => v.cpu_read(addr),
            Device::Ram(r) => r.cpu_read(addr),
            Device::Vdp(p) => p.cpu_read(addr),
            Device::Joypad(j) => j.cpu_read(addr),
        }
    }

    fn cpu_write(&mut self, addr: u16, data: u8) -> (r: bool) {
        match self {
            Device::Memory(v) => v.cpu_write(addr, data),
            Device::Ram(r) => r.cpu_write(addr, data),
            Device::Vdp(p) => p.cpu_write(addr, data),
            Device::Joypad(j) => j.cpu_write(addr, data),
        }
    }
}

/// Index of the first device in `devs`, from `i` on, that accepts `addr`;
/// `devs.len()` when none does.
pub open spec fn first_device_from(devs: Seq<DeviceView>, addr: u16, i: int) -> int
    decreases devs.len() - i,
{
    if i >= devs.len() {
        devs.len() as int
    } else if devs[i].accepts(addr) {
        i
    } else {
        first_device_from(devs, addr, i + 1)
    }
}

pub proof fn lemma_first_device_from_bounds(devs: Seq<DeviceView>, addr: u16, i: int)
    requires
        0 <= i <= devs.len(),
    ensures
        i <= first_device_from(devs, addr, i) <= devs.len(),
    decreases devs.len() - i,
{
    if i < devs.len() && !devs[i].accepts(addr) {
        lemma_first_device_from_bounds(devs, addr, i + 1);
    }
}

/// Index of the device that services `addr` (the number of devices if none).
pub open spec fn bus_target(devs: Seq<DeviceView>, addr: u16) -> int {
    first_device_from(devs, addr, 0)
}

/// What a read of `addr` returns: `None` when no device accepts it.
pub open spec fn bus_read(devs: Seq<DeviceView>, addr: u16) -> Option<u8> {
    let i = bus_target(devs, addr);
    if 0 <= i < devs.len() {
        Some(devs[i].read(addr))
    } else {
        None
    }
}

/// The devices after a read of `addr`: only the servicing one may change.
pub open spec fn bus_after_read(devs: Seq<DeviceView>, addr: u16) -> Seq<DeviceView> {
    let i = bus_target(devs, addr);
    if 0 <= i < devs.len() {
        devs.update(i, devs[i].after_read(addr))
    } else {
        devs
    }
}

/// Whether a write of `data` to `addr` succeeds.
pub open spec fn bus_write_ok(devs: Seq<DeviceView>, addr: u16, data: u8) -> bool {
    let i = bus_target(devs, addr);
    0 <= i < devs.len() && devs[i].write_ok(addr, data)
}

/// The devices after `data` is written to `addr`.
pub open spec fn bus_after_write(devs: Seq<DeviceView>, addr: u16, data: u8) -> Seq<DeviceView> {
    let i = bus_target(devs, addr);
    if 0 <= i < devs.len() {
        devs.update(i, devs[i].after_write(addr, data))
    } else {
        devs
    }
}

/// An ordered list of devices; every access goes to the first that accepts it.
pub struct Bus {
    connections: Vec<Device>,
}

impl View for Bus {
    type V = Seq<DeviceView>;

    closed spec fn view(&self) -> Seq<DeviceView> {
        self.connections@.map_values(|d: Device| d@)
    }
}

impl Bus {
    pub fn builder() -> (r: BusBuilder)
        ensures
            r@ == Seq::<DeviceView>::empty(),
    {
        BusBuilder::new()
    }

    pub fn new(connections: Vec<Device>) -> (r: Bus)
        ensures
            r@ == connections@.map_values(|d: Device| d@),
    {
        Bus { connections }
    }

    /// A bus holding one empty flat memory vector.
    pub fn default_bus() -> (r: Bus)
        ensures
            r@ == seq![DeviceView::Memory(Seq::empty())],
    {
        let r = Bus { connections: vec![Device::Memory(Vec::new())] };
        proof {
            assert(r@ =~= seq![DeviceView::Memory(Seq::empty())]);
        }
        r
    }

    /// Number of attached devices.
    pub fn len(&self) -> (r: usize)
        ensures
            r == self@.len(),
    {
        self.connections.len()
    }

    fn find(&self, addr: u16) -> (r: usize)
        ensures
            r == bus_target(self@, addr),
    {
        proof {
            lemma_first_device_from_bounds(self@, addr, 0);
        }
        let mut i: usize = 0;
        while i < self.connections.len()
            invariant
                0 <= i <= self.connections@.len(),
                self@.len() == self.connections@.len(),
                bus_target(self@, addr) == first_device_from(self@, addr, i as int),
            decreases self.connections@.len() - i,
        {
            if self.connections[i].accept(addr) {
                assert(first_device_from(self@, addr, i as int) == i as int);
                return i;
            }
            i += 1;
        }
        i
    }

    /// Writes `data` to the first device accepting `addr`; false when none does
    /// or the device refuses the write.
    pub fn cpu_write(&mut self, addr: u16, data: u8) -> (r: bool)
        ensures
            r == bus_write_ok(old(self)@, addr, data),
            final(self)@ == bus_after_write(old(self)@, addr, data),
    {
        let i = self.find(addr);
        if i < self.connections.len() {
            let mut d = self.connections.remove(i);
            let r = d.cpu_write(addr, data);
            self.connections.insert(i, d);
            proof {
                assert(self@ =~= bus_after_write(old(self)@, addr, data));
            }
            r
        } else {
            false
        }
    }

    /// Reads from the first device accepting `addr`; `None` when none does.
    pub fn cpu_read(&mut self, addr: u16) -> (r: Option<u8>)
        ensures
            r == bus_read(old(self)@, addr),
            final(self)@ == bus_after_read(old(self)@, addr),
    {
        let i = self.find(addr);
        if i < self.connections.len() {
            let mut d = self.connections.remove(i);
            let r = d.cpu_read(addr);
            self.connections.insert(i, d);
            proof {
                assert(self@ =~= bus_after_read(old(self)@, addr));
            }
            Some(r)
        } else {
            None
        }
    }
}

/// Index of the first video processor in `devs`, from `i` on; `devs.len()` when none.
pub open spec fn first_vdp_from(devs: Seq<DeviceView>, i: int) -> int
    decreases devs.len() - i,
{
    if i >= devs.len() {
        devs.len() as int
    } else if devs[i] is Vdp {
        i
    } else {
        first_vdp_from(devs, i + 1)
    }
}

/// Index of the first joypad in `devs`, from `i` on; `devs.len()` when none.
pub open spec fn first_joypad_from(devs: Seq<DeviceView>, i: int) -> int
    decreases devs.len() - i,
{
    if i >= devs.len() {
        devs.len() as int
    } else if devs[i] is Joypad {
        i
    } else {
        first_joypad_from(devs, i + 1)
    }
}

pub proof fn lemma_first_vdp_from_bounds(devs: Seq<DeviceView>, i: int)
    requires
        0 <= i <= devs.len(),
    ensures
        i <= first_vdp_from(devs, i) <= devs.len(),
        first_vdp_from(devs, i) < devs.len() ==> devs[first_vdp_from(devs, i)] is Vdp,
    decreases devs.len() - i,
{
    if i < devs.len() && !(devs[i] is Vdp) {
        lemma_first_vdp_from_bounds(devs, i + 1);
    }
}

pub proof fn lemma_first_joypad_from_bounds(devs: Seq<DeviceView>, i: int)
    requires
        0 <= i <= devs.len(),
    ensures
        i <= first_joypad_from(devs, i) <= devs.len(),
        first_joypad_from(devs, i) < devs.len() ==> devs[first_joypad_from(devs, i)] is Joypad,
    decreases devs.len() - i,
{
    if i < devs.len() && !(devs[i] is Joypad) {
        lemma_first_joypad_from_bounds(devs, i + 1);
    }
}

/// `post` equals `devs` except perhaps at index `i`.
pub open spec fn same_except(devs: Seq<DeviceView>, post: Seq<DeviceView>, i: int) -> bool {
    post.len() == devs.len() && forall|j: int| 0 <= j < devs.len() && j != i ==> post[j] == devs[j]
}

/// `post` and `r` are the bus and the result after the first video processor
/// of `devs` spent `cycles` T-states.
pub open spec fn vdp_updated(devs: Seq<DeviceView>, post: Seq<DeviceView>, cycles: u64, r: Option<(bool, bool)>) -> bool {
    let i = first_vdp_from(devs, 0);
    &&& same_except(devs, post, i)
    &&& if i < devs.len() {
        match devs[i] {
            DeviceView::Vdp(p) => {
                &&& r == Some((p.reaches_vblank(cycles), p.interrupt_enabled()))
                &&& post[i] == DeviceView::Vdp(p.update_spec(cycles))
            },
            _ => false,
        }
    } else {
        r is None
    }
}

/// The first video processor stays first when only it changes.
pub proof fn lemma_first_vdp_stable(devs: Seq<DeviceView>, post: Seq<DeviceView>, i: int, k: int)
    requires
        same_except(devs, post, i),
        0 <= k <= i < devs.len(),
        first_vdp_from(devs, k) == i,
        post[i] is Vdp,
    ensures
        first_vdp_from(post, k) == i,
    decreases i - k,
{
    if k < i {
        assert(post[k] == devs[k]);
        lemma_first_vdp_stable(devs, post, i, k + 1);
    }
}

/// `post` and `r` are the bus and the frame after the completed frame of the
/// first video processor of `devs` was taken.
pub open spec fn canvas_taken(devs: Seq<DeviceView>, post: Seq<DeviceView>, r: Option<Canvas>) -> bool {
    let i = first_vdp_from(devs, 0);
    &&& same_except(devs, post, i)
    &&& if i < devs.len() {
        match devs[i] {
            DeviceView::Vdp(p) => {
                &&& match r {
                    Some(c) => p.canvas == Some(canvas_view(c)),
                    None => p.canvas is None,
                }
                &&& post[i] == DeviceView::Vdp(PpuView { canvas: None, ..p })
            },
            _ => false,
        }
    } else {
        r is None
    }
}

/// `post` and `r` are the bus and the result after a button change went to
/// the first joypad of `devs`.
pub open spec fn joypad_updated(devs: Seq<DeviceView>, post: Seq<DeviceView>, button: Button, pressed: bool, r: bool) -> bool {
    let i = first_joypad_from(devs, 0);
    &&& same_except(devs, post, i)
    &&& r == (i < devs.len())
    &&& i < devs.len() ==> match devs[i] {
        DeviceView::Joypad(j) => post[i] == DeviceView::Joypad(j.after_input(button, pressed)),
        _ => false,
    }
}

impl Bus {
    fn find_vdp(&self) -> (r: usize)
        ensures
            r == first_vdp_from(self@, 0),
    {
        proof {
            lemma_first_vdp_from_bounds(self@, 0);
        }
        let mut i: usize = 0;
        while i < self.connections.len()
            invariant
                0 <= i <= self.connections@.len(),
                self@.len() == self.connections@.len(),
                first_vdp_from(self@, 0) == first_vdp_from(self@, i as int),
            decreases self.connections@.len() - i,
        {
            if let Device::Vdp(_) = &self.connections[i] {
                assert(first_vdp_from(self@, i as int) == i as int);
                return i;
            }
            i += 1;
        }
        i
    }

    fn find_joypad(&self) -> (r: usize)
        ensures
            r == first_joypad_from(self@, 0),
    {
        proof {
            lemma_first_joypad_from_bounds(self@, 0);
        }
        let mut i: usize = 0;
        while i < self.connections.len()
            invariant
                0 <= i <= self.connections@.len(),
                self@.len() == self.connections@.len(),
                first_joypad_from(self@, 0) == first_joypad_from(self@, i as int),
            decreases self.connections@.len() - i,
        {
            if let Device::Joypad(_) = &self.connections[i] {
                assert(first_joypad_from(self@, i as int) == i as int);
                return i;
            }
            i += 1;
        }
        i
    }

    /// Advances the first video processor on the bus by `cycles` T-states.
    /// Returns whether it reached the vertical blank and whether its interrupt
    /// is enabled; `None` when the bus has no video processor.
    pub fn vdp_update(&mut self, cycles: u64) -> (r: Option<(bool, bool)>)
        ensures
            vdp_updated(old(self)@, final(self)@, cycles, r),
    {
        let i = self.find_vdp();
        proof {
            lemma_first_vdp_from_bounds(self@, 0);
        }
        if i < self.connections.len() {
            let mut d = self.connections.remove(i);
            let r = match &mut d {
                Device::Vdp(p) => {
                    let enabled = p.intrpt_enabled();
                    let vblank = p.update(cycles);
                    Some((vblank, enabled))
                },
                _ => None,
            };
            self.connections.insert(i, d);
            proof {
                assert forall|j: int| 0 <= j < old(self)@.len() && j != i implies self@[j] == old(
                    self,
                )@[j] by {
                    if j < i {
                        assert(self.connections@[j] == old(self).connections@[j]);
                    } else {
                        assert(self.connections@[j] == old(self).connections@[j]);
                    }
                }
            }
            r
        } else {
            None
        }
    }

    /// Takes the completed frame of the first video processor, if any.
    pub fn take_canvas(&mut self) -> (r: Option<Canvas>)
        ensures
            canvas_taken(old(self)@, final(self)@, r),
    {
        let i = self.find_vdp();
        proof {
            lemma_first_vdp_from_bounds(self@, 0);
        }
        if i < self.connections.len() {
            let mut d = self.connections.remove(i);
            let r = match &mut d {
                Device::Vdp(p) => p.get_canvas(),
                _ => None,
            };
            self.connections.insert(i, d);
            proof {
                assert forall|j: int| 0 <= j < old(self)@.len() && j != i implies self@[j] == old(
                    self,
                )@[j] by {
                    assert(self.connections@[j] == old(self).connections@[j]);
                }
            }
            r
        } else {
            None
        }
    }

    /// Passes a button change to the first joypad on the bus; false when there is none.
    pub fn joypad_input(&mut self, button: Button, pressed: bool) -> (r: bool)
        ensures
            joypad_updated(old(self)@, final(self)@, button, pressed, r),
    {
        let i = self.find_joypad();
        proof {
            lemma_first_joypad_from_bounds(self@, 0);
        }
        if i < self.connections.len() {
            let mut d = self.connections.remove(i);
            match &mut d {
                Device::Joypad(j) => j.input(button, pressed),
                _ => {},
            }
            self.connections.insert(i, d);
            proof {
                assert forall|j: int| 0 <= j < old(self)@.len() && j != i implies self@[j] == old(
                    self,
                )@[j] by {
                    assert(self.connections@[j] == old(self).connections@[j]);
                }
            }
            true
        } else {
            false
        }
    }
}

/// Collects devices in the order the bus will poll them.
pub struct BusBuilder {
    connections: Vec<Device>,
}

impl View for BusBuilder {
    type V = Seq<DeviceView>;

    closed spec fn view(&self) -> Seq<DeviceView> {
        self.connections@.map_values(|d: Device| d@)
    }
}

impl BusBuilder {
    pub fn new() -> (r: BusBuilder)
        ensures
            r@ == Seq::<DeviceView>::empty(),
    {
        let r = BusBuilder { connections: Vec::new() };
        proof {
            assert(r@ =~= Seq::<DeviceView>::empty());
        }
        r
    }

    /// Appends a device after those already added.
    pub fn add(self, connection: Device) -> (r: Self)
        ensures
            r@ == self@.push(connection@),
    {
        let mut connections = self.connections;
        connections.push(connection);
        let r = BusBuilder { connections };
        proof {
            assert(r@ =~= self@.push(connection@));
        }
        r
    }

    /// Appends a boxed device after those already added.
    pub fn add_box(self, connection: Box<Device>) -> (r: Self)
        ensures
            r@ == self@.push((*connection)@),
    {
        self.add(*connection)
    }

    pub fn build(self) -> (r: Bus)
        ensures
            r@ == self@,
    {
        Bus { connections: self.connections }
    }
}


/// Whether a write to `addr` lands in memory: the servicing device is a byte
/// vector or a writable region that maps `addr` inside its buffer.
pub open spec fn writable_cell(devs: Seq<DeviceView>, addr: u16) -> bool {
    let i = bus_target(devs, addr);
    0 <= i < devs.len() && match devs[i] {
        DeviceView::Memory(_) => true,
        DeviceView::Ram(r) => r.write_ok(addr),
        _ => false,
    }
}

/// Whether `a` and `b` reach the same byte of the same device.
pub open spec fn same_cell(devs: Seq<DeviceView>, a: u16, b: u16) -> bool {
    let i = bus_target(devs, a);
    &&& i == bus_target(devs, b)
    &&& 0 <= i < devs.len()
    &&& match devs[i] {
        DeviceView::Memory(_) => a == b,
        DeviceView::Ram(r) => r.cell(a) == r.cell(b),
        _ => false,
    }
}

/// The byte a read of `addr` returns, 0 when nothing answers.
pub open spec fn bus_value(devs: Seq<DeviceView>, addr: u16) -> u8 {
    match bus_read(devs, addr) {
        Some(v) => v,
        None => 0,
    }
}

proof fn lemma_target_kept(devs: Seq<DeviceView>, post: Seq<DeviceView>, a: u16, k: int)
    requires
        post.len() == devs.len(),
        0 <= k <= devs.len(),
        forall|j: int| 0 <= j < devs.len() ==> #[trigger] post[j].accepts(a) == devs[j].accepts(a),
    ensures
        first_device_from(post, a, k) == first_device_from(devs, a, k),
    decreases devs.len() - k,
{
    if k < devs.len() {
        lemma_target_kept(devs, post, a, k + 1);
    }
}

/// A read of a writable cell changes nothing.
pub proof fn lemma_read_cell(devs: Seq<DeviceView>, b: u16)
    requires
        writable_cell(devs, b),
    ensures
        bus_after_read(devs, b) == devs,
        bus_read(devs, b) == Some(bus_value(devs, b)),
{
    let i = bus_target(devs, b);
    assert(devs.update(i, devs[i].after_read(b)) =~= devs);
}

/// A write to a writable cell: every address that reaches the same byte then
/// reads the byte written, every other address reads what it read before, and
/// the bus routes and maps addresses as before.
pub proof fn lemma_write_cell(devs: Seq<DeviceView>, a: u16, b: u16, v: u8)
    requires
        writable_cell(devs, a),
    ensures
        same_cell(devs, a, a),
        same_cell(devs, a, b) == same_cell(devs, b, a),
        ({
            let w = bus_after_write(devs, a, v);
            &&& bus_target(w, b) == bus_target(devs, b)
            &&& writable_cell(w, b) == writable_cell(devs, b)
            &&& same_cell(w, a, b) == same_cell(devs, a, b)
            &&& bus_value(w, b) == if same_cell(devs, a, b) {
                v
            } else {
                bus_value(devs, b)
            }
        }),
{
    let i = bus_target(devs, a);
    let w = bus_after_write(devs, a, v);
    lemma_first_device_from_bounds(devs, b, 0);
    assert forall|j: int| 0 <= j < devs.len() implies #[trigger] w[j].accepts(b) == devs[j].accepts(b) by {
        if j == i {
            match devs[i] {
                DeviceView::Ram(r) => {
                    assert(r.write(a, v).window(b) == r.window(b));
                },
                _ => {},
            }
        }
    }
    assert forall|j: int| 0 <= j < devs.len() implies #[trigger] w[j].accepts(a) == devs[j].accepts(a) by {
        if j == i {
            match devs[i] {
                DeviceView::Ram(r) => {
                    assert(r.write(a, v).window(a) == r.window(a));
                },
                _ => {},
            }
        }
    }
    lemma_target_kept(devs, w, b, 0);
    lemma_target_kept(devs, w, a, 0);
    let j = bus_target(devs, b);
    if j == i {
        match devs[i] {
            DeviceView::Memory(m) => {
                let m2 = vec_write(m, a, v);
                if (a as int) >= m.len() && (b as int) < m.len() {
                    let ext = m + Seq::new((a as int + 1 - m.len()) as nat, |q: int| 0u8);
                    assert(ext[b as int] == m[b as int]);
                }
                assert(vec_read(m2, b) == if a == b { v } else { vec_read(m, b) });
            },
            DeviceView::Ram(r) => {
                let r2 = r.write(a, v);
                assert(r2.window(b) == r.window(b));
                assert(r2.window(a) == r.window(a));
            },
            _ => {},
        }
    }
}

/// Two addresses that reach the same byte read the same value.
pub proof fn lemma_same_cell_value(devs: Seq<DeviceView>, a: u16, b: u16)
    requires
        same_cell(devs, a, b),
    ensures
        bus_value(devs, a) == bus_value(devs, b),
{
}

/// A bus made of one flat memory vector.
pub open spec fn is_flat(devs: Seq<DeviceView>) -> bool {
    devs.len() == 1 && devs[0] is Memory
}

/// The byte a flat bus holds at `addr`.
pub open spec fn flat_read(devs: Seq<DeviceView>, addr: u16) -> u8 {
    match devs[0] {
        DeviceView::Memory(v) => vec_read(v, addr),
        _ => 0,
    }
}

/// On a flat bus every access goes to the one vector: a read returns the byte
/// at the address and changes nothing, and a write changes that byte alone.
pub proof fn lemma_flat_bus(devs: Seq<DeviceView>, a: u16, b: u16, v: u8)
    requires
        is_flat(devs),
    ensures
        bus_read(devs, b) == Some(flat_read(devs, b)),
        bus_after_read(devs, b) == devs,
        is_flat(bus_after_write(devs, a, v)),
        flat_read(bus_after_write(devs, a, v), b) == if a == b {
            v
        } else {
            flat_read(devs, b)
        },
{
    assert(first_device_from(devs, b, 0) == 0);
    assert(first_device_from(devs, a, 0) == 0);
    assert(devs.update(0, devs[0].after_read(b)) =~= devs);
    let w = bus_after_write(devs, a, v);
    assert(w =~= seq![devs[0].after_write(a, v)]);
    let m = match devs[0] {
        DeviceView::Memory(m) => m,
        _ => Seq::empty(),
    };
    let m2 = vec_write(m, a, v);
    if (a as int) < m.len() {
        assert(vec_read(m2, b) == if a == b { v } else { vec_read(m, b) });
    } else {
        let ext = m + Seq::new((a as int + 1 - m.len()) as nat, |i: int| 0u8);
        assert(vec_read(m2, b) == if a == b { v } else { vec_read(m, b) }) by {
            if (b as int) < m.len() {
                assert(ext[b as int] == m[b as int]);
            }
        }
    }
}

} // verus!
