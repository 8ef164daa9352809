//! The Z80 register file: eight main registers with their alternates, the
//! flag byte, and the special registers. Pairs are composed on demand.

use vstd::prelude::*;

verus! {

/// The eight bits of the flag register F.
#[derive(Clone, Copy, Debug, PartialEq, Eq, Structural)]
pub struct FlagSet {
    pub sign: bool,
    pub zero: bool,
    pub bit5: bool,
    pub half_carry: bool,
    pub bit3: bool,
    pub parity_overflow: bool,
    pub subtract: bool,
    pub carry: bool,
}

pub open spec fn bit_of(b: bool, weight: u8) -> u8 {
    if b {
        weight
    } else {
        0
    }
}

impl FlagSet {
    /// The flag byte: bit 7 Sign, 6 Zero, 4 HalfCarry, 2 Parity/Overflow,
    /// 1 Subtract, 0 Carry (bits 5 and 3 unused).
    pub open spec fn byte(self) -> u8 {
        bit_of(self.sign, 0x80) | bit_of(self.zero, 0x40) | bit_of(self.bit5, 0x20) | bit_of(
            self.half_carry,
            0x10,
        ) | bit_of(self.bit3, 0x08) | bit_of(self.parity_overflow, 0x04) | bit_of(
            self.subtract,
            0x02,
        ) | bit_of(self.carry, 0x01)
    }

    pub open spec fn of_byte(v: u8) -> FlagSet {
        FlagSet {
            sign: v & 0x80 != 0,
            zero: v & 0x40 != 0,
            bit5: v & 0x20 != 0,
            half_carry: v & 0x10 != 0,
            bit3: v & 0x08 != 0,
            parity_overflow: v & 0x04 != 0,
            subtract: v & 0x02 != 0,
            carry: v & 0x01 != 0,
        }
    }

    pub fn empty() -> (r: FlagSet)
        ensures
            r.byte() == 0,
            r == FlagSet::of_byte(0),
    {
        let r = FlagSet {
            sign: false,
            zero: false,
            bit5: false,
            half_carry: false,
            bit3: false,
            parity_overflow: false,
            subtract: false,
            carry: false,
        };
        proof {
            lemma_byte_flag_round_trip(0);
            assert(0u8 & 0x80 == 0 && 0u8 & 0x40 == 0 && 0u8 & 0x20 == 0 && 0u8 & 0x10 == 0
                && 0u8 & 0x08 == 0 && 0u8 & 0x04 == 0 && 0u8 & 0x02 == 0 && 0u8 & 0x01 == 0)
                by (bit_vector);
        }
        r
    }

    pub fn to_byte(&self) -> (r: u8)
        ensures
            r == self.byte(),
    {
        let b = |x: bool, w: u8| -> (r: u8)
            ensures
                r == bit_of(x, w),
            {
                if x {
                    w
                } else {
                    0
                }
            };
        b(self.sign, 0x80) | b(self.zero, 0x40) | b(self.bit5, 0x20) | b(self.half_carry, 0x10) | b(
            self.bit3,
            0x08,
        ) | b(self.parity_overflow, 0x04) | b(self.subtract, 0x02) | b(self.carry, 0x01)
    }

    pub fn from_byte(v: u8) -> (r: FlagSet)
        ensures
            r == FlagSet::of_byte(v),
    {
        FlagSet {
            sign: v & 0x80 != 0,
            zero: v & 0x40 != 0,
            bit5: v & 0x20 != 0,
            half_carry: v & 0x10 != 0,
            bit3: v & 0x08 != 0,
            parity_overflow: v & 0x04 != 0,
            subtract: v & 0x02 != 0,
            carry: v & 0x01 != 0,
        }
    }
}

/// Composing the flag byte and splitting it again are inverse to each other.
pub proof fn lemma_flag_byte_round_trip(f: FlagSet)
    ensures
        FlagSet::of_byte(f.byte()) == f,
{
    let (s, z, b5, h, b3, p, n, c) = (
        f.sign,
        f.zero,
        f.bit5,
        f.half_carry,
        f.bit3,
        f.parity_overflow,
        f.subtract,
        f.carry,
    );
    let v = f.byte();
    assert(v == bit_of(s, 0x80) | bit_of(z, 0x40) | bit_of(b5, 0x20) | bit_of(h, 0x10) | bit_of(
        b3,
        0x08,
    ) | bit_of(p, 0x04) | bit_of(n, 0x02) | bit_of(c, 0x01));
    assert(((if s { 0x80u8 } else { 0u8 }) | (if z { 0x40u8 } else { 0u8 }) | (if b5 { 0x20u8 } else { 0u8 }) | (if h { 0x10u8 } else { 0u8 }) | (if b3 { 0x08u8 } else { 0u8 }) | (if p { 0x04u8 } else { 0u8 }) | (if n { 0x02u8 } else { 0u8 }) | (if c { 0x01u8 } else { 0u8 })) == v ==> (
        (v & 0x80 != 0) == s && (v & 0x40 != 0) == z && (v & 0x20 != 0) == b5 && (v & 0x10 != 0) == h
            && (v & 0x08 != 0) == b3 && (v & 0x04 != 0) == p && (v & 0x02 != 0) == n && (v & 0x01
            != 0) == c)) by (bit_vector);
}

/// Splitting a byte into flags and composing them again gives the byte back.
pub proof fn lemma_byte_flag_round_trip(v: u8)
    ensures
        FlagSet::of_byte(v).byte() == v,
{
    let f = FlagSet::of_byte(v);
    assert(((if v & 0x80 != 0 { 0x80u8 } else { 0u8 }) | (if v & 0x40 != 0 { 0x40u8 } else { 0u8 }) | (if v & 0x20 != 0 { 0x20u8 } else { 0u8 }) | (if v & 0x10 != 0 { 0x10u8 } else { 0u8 }) | (if v & 0x08 != 0 { 0x08u8 } else { 0u8 }) | (if v & 0x04 != 0 { 0x04u8 } else { 0u8 }) | (if v & 0x02 != 0 { 0x02u8 } else { 0u8 }) | (if v & 0x01 != 0 { 0x01u8 } else { 0u8 })) == v) by (bit_vector);
}


/// 8-bit register names, including the halves of IX and IY.
#[derive(Debug, Copy, Clone, PartialEq, Eq, Structural)]
pub enum RegisterCode {
    Flags,
    A,
    B,
    C,
    D,
    E,
    H,
    L,
    I,
    R,
    IXh,
    IXl,
    IYh,
    IYl,
}

/// 16-bit register and register pair names.
#[derive(Debug, Copy, Clone, PartialEq, Eq, Structural)]
pub enum RegisterCode16 {
    I,
    R,
    IX,
    IY,
    SP,
    PC,
    BC,
    DE,
    HL,
    AF,
}

/// The bits of the flag register, from bit 0 up.
#[derive(Debug, Copy, Clone, PartialEq, Eq, Structural)]
pub enum Flags {
    Carry,
    Subtract,
    OverflowParity,
    NotUsed1,
    HalfCarry,
    NotUsed2,
    Zero,
    Sign,
}

/// The 16-bit value whose high byte is `hi` and low byte is `lo`.
pub open spec fn pair(hi: u8, lo: u8) -> u16 {
    (hi * 256 + lo) as u16
}

pub open spec fn high(v: u16) -> u8 {
    (v / 256) as u8
}

pub open spec fn low(v: u16) -> u8 {
    (v % 256) as u8
}

impl FlagSet {
    pub open spec fn get(self, f: Flags) -> bool {
        match f {
            Flags::Carry => self.carry,
            Flags::Subtract => self.subtract,
            Flags::OverflowParity => self.parity_overflow,
            Flags::NotUsed1 => self.bit3,
            Flags::HalfCarry => self.half_carry,
            Flags::NotUsed2 => self.bit5,
            Flags::Zero => self.zero,
            Flags::Sign => self.sign,
        }
    }

    pub open spec fn with(self, f: Flags, v: bool) -> FlagSet {
        match f {
            Flags::Carry => FlagSet { carry: v, ..self },
            Flags::Subtract => FlagSet { subtract: v, ..self },
            Flags::OverflowParity => FlagSet { parity_overflow: v, ..self },
            Flags::NotUsed1 => FlagSet { bit3: v, ..self },
            Flags::HalfCarry => FlagSet { half_carry: v, ..self },
            Flags::NotUsed2 => FlagSet { bit5: v, ..self },
            Flags::Zero => FlagSet { zero: v, ..self },
            Flags::Sign => FlagSet { sign: v, ..self },
        }
    }
}

/// Main registers A F B C D E H L, their alternates, and I, R, IX, IY, SP, PC.
#[derive(Clone, Copy, Debug, PartialEq, Eq, Structural)]
pub struct Registers {
    pub a: u8,
    pub f: FlagSet,
    pub b: u8,
    pub c: u8,
    pub d: u8,
    pub e: u8,
    pub h: u8,
    pub l: u8,
    pub alt_a: u8,
    pub alt_f: FlagSet,
    pub alt_b: u8,
    pub alt_c: u8,
    pub alt_d: u8,
    pub alt_e: u8,
    pub alt_h: u8,
    pub alt_l: u8,
    pub i: u8,
    pub r: u8,
    pub ix: u16,
    pub iy: u16,
    pub sp: u16,
    pub pc: u16,
}

impl Registers {
    pub open spec fn get8(self, code: RegisterCode) -> u8 {
        match code {
            RegisterCode::Flags => self.f.byte(),
            RegisterCode::A => self.a,
            RegisterCode::B => self.b,
            RegisterCode::C => self.c,
            RegisterCode::D => self.d,
            RegisterCode::E => self.e,
            RegisterCode::H => self.h,
            RegisterCode::L => self.l,
            RegisterCode::I => self.i,
            RegisterCode::R => self.r,
            RegisterCode::IXh => high(self.ix),
            RegisterCode::IXl => low(self.ix),
            RegisterCode::IYh => high(self.iy),
            RegisterCode::IYl => low(self.iy),
        }
    }

    pub open spec fn set8(self, code: RegisterCode, v: u8) -> Registers {
        match code {
            RegisterCode::Flags => Registers { f: FlagSet::of_byte(v), ..self },
            RegisterCode::A => Registers { a: v, ..self },
            RegisterCode::B => Registers { b: v, ..self },
            RegisterCode::C => Registers { c: v, ..self },
            RegisterCode::D => Registers { d: v, ..self },
            RegisterCode::E => Registers { e: v, ..self },
            RegisterCode::H => Registers { h: v, ..self },
            RegisterCode::L => Registers { l: v, ..self },
            RegisterCode::I => Registers { i: v, ..self },
            RegisterCode::R => Registers { r: v, ..self },
            RegisterCode::IXh => Registers { ix: pair(v, low(self.ix)), ..self },
            RegisterCode::IXl => Registers { ix: pair(high(self.ix), v), ..self },
            RegisterCode::IYh => Registers { iy: pair(v, low(self.iy)), ..self },
            RegisterCode::IYl => Registers { iy: pair(high(self.iy), v), ..self },
        }
    }

    pub open spec fn get16(self, code: RegisterCode16) -> u16 {
        match code {
            RegisterCode16::I => self.i as u16,
            RegisterCode16::R => self.r as u16,
            RegisterCode16::IX => self.ix,
            RegisterCode16::IY => self.iy,
            RegisterCode16::SP => self.sp,
            RegisterCode16::PC => self.pc,
            RegisterCode16::BC => pair(self.b, self.c),
            RegisterCode16::DE => pair(self.d, self.e),
            RegisterCode16::HL => pair(self.h, self.l),
            RegisterCode16::AF => pair(self.a, self.f.byte()),
        }
    }

    /// Pairs take the high byte in the first register; I and R keep the low byte.
    pub open spec fn set16(self, code: RegisterCode16, v: u16) -> Registers {
        match code {
            RegisterCode16::I => Registers { i: low(v), ..self },
            RegisterCode16::R => Registers { r: low(v), ..self },
            RegisterCode16::IX => Registers { ix: v, ..self },
            RegisterCode16::IY => Registers { iy: v, ..self },
            RegisterCode16::SP => Registers { sp: v, ..self },
            RegisterCode16::PC => Registers { pc: v, ..self },
            RegisterCode16::BC => Registers { b: high(v), c: low(v), ..self },
            RegisterCode16::DE => Registers { d: high(v), e: low(v), ..self },
            RegisterCode16::HL => Registers { h: high(v), l: low(v), ..self },
            RegisterCode16::AF => Registers { a: high(v), f: FlagSet::of_byte(low(v)), ..self },
        }
    }

    /// The main B C D E H L exchanged with their alternates.
    pub open spec fn exx_spec(self) -> Registers {
        Registers {
            b: self.alt_b,
            c: self.alt_c,
            d: self.alt_d,
            e: self.alt_e,
            h: self.alt_h,
            l: self.alt_l,
            alt_b: self.b,
            alt_c: self.c,
            alt_d: self.d,
            alt_e: self.e,
            alt_h: self.h,
            alt_l: self.l,
            ..self
        }
    }

    /// A and F exchanged with their alternates.
    pub open spec fn ex_af_spec(self) -> Registers {
        Registers { a: self.alt_a, f: self.alt_f, alt_a: self.a, alt_f: self.f, ..self }
    }

    /// DE and HL exchanged.
    pub open spec fn ex_de_hl_spec(self) -> Registers {
        Registers { d: self.h, e: self.l, h: self.d, l: self.e, ..self }
    }

    /// Every register zero, PC at `pc`.
    pub open spec fn zeroed(pc: u16) -> Registers {
        Registers {
            a: 0,
            f: FlagSet::of_byte(0),
            b: 0,
            c: 0,
            d: 0,
            e: 0,
            h: 0,
            l: 0,
            alt_a: 0,
            alt_f: FlagSet::of_byte(0),
            alt_b: 0,
            alt_c: 0,
            alt_d: 0,
            alt_e: 0,
            alt_h: 0,
            alt_l: 0,
            i: 0,
            r: 0,
            ix: 0,
            iy: 0,
            sp: 0,
            pc,
        }
    }

    pub fn new(pc: u16) -> (r: Registers)
        ensures
            r == Registers::zeroed(pc),
    {
        Registers {
            a: 0,
            f: FlagSet::empty(),
            b: 0,
            c: 0,
            d: 0,
            e: 0,
            h: 0,
            l: 0,
            alt_a: 0,
            alt_f: FlagSet::empty(),
            alt_b: 0,
            alt_c: 0,
            alt_d: 0,
            alt_e: 0,
            alt_h: 0,
            alt_l: 0,
            i: 0,
            r: 0,
            ix: 0,
            iy: 0,
            sp: 0,
            pc,
        }
    }

    pub fn reg_value(&self, code: RegisterCode) -> (r: u8)
        ensures
            r == self.get8(code),
    {
        match code {
            RegisterCode::Flags => self.f.to_byte(),
            RegisterCode::A => self.a,
            RegisterCode::B => self.b,
            RegisterCode::C => self.c,
            RegisterCode::D => self.d,
            RegisterCode::E => self.e,
            RegisterCode::H => self.h,
            RegisterCode::L => self.l,
            RegisterCode::I => self.i,
            RegisterCode::R => self.r,
            RegisterCode::IXh => (self.ix / 256) as u8,
            RegisterCode::IXl => (self.ix % 256) as u8,
            RegisterCode::IYh => (self.iy / 256) as u8,
            RegisterCode::IYl => (self.iy % 256) as u8,
        }
    }

    pub fn set_reg_value(&mut self, code: RegisterCode, v: u8)
        ensures
            *final(self) == old(self).set8(code, v),
    {
        match code {
            RegisterCode::Flags => self.f = FlagSet::from_byte(v),
            RegisterCode::A => self.a = v,
            RegisterCode::B => self.b = v,
            RegisterCode::C => self.c = v,
            RegisterCode::D => self.d = v,
            RegisterCode::E => self.e = v,
            RegisterCode::H => self.h = v,
            RegisterCode::L => self.l = v,
            RegisterCode::I => self.i = v,
            RegisterCode::R => self.r = v,
            RegisterCode::IXh => self.ix = v as u16 * 256 + self.ix % 256,
            RegisterCode::IXl => self.ix = (self.ix / 256) * 256 + v as u16,
            RegisterCode::IYh => self.iy = v as u16 * 256 + self.iy % 256,
            RegisterCode::IYl => self.iy = (self.iy / 256) * 256 + v as u16,
        }
    }

    /// A register or a pair; a pair is its first register times 256 plus its second.
    pub fn reg_value_16(&self, code: RegisterCode16) -> (r: u16)
        ensures
            r == self.get16(code),
    {
        match code {
            RegisterCode16::I => self.i as u16,
            RegisterCode16::R => self.r as u16,
            RegisterCode16::IX => self.ix,
            RegisterCode16::IY => self.iy,
            RegisterCode16::SP => self.sp,
            RegisterCode16::PC => self.pc,
            RegisterCode16::BC => self.b as u16 * 256 + self.c as u16,
            RegisterCode16::DE => self.d as u16 * 256 + self.e as u16,
            RegisterCode16::HL => self.h as u16 * 256 + self.l as u16,
            RegisterCode16::AF => self.a as u16 * 256 + self.f.to_byte() as u16,
        }
    }

    pub fn set_reg_value_16(&mut self, code: RegisterCode16, v: u16)
        ensures
            *final(self) == old(self).set16(code, v),
    {
        let hi = (v / 256) as u8;
        let lo = (v % 256) as u8;
        assert(hi == high(v) && lo == low(v));
        let old_regs = *self;
        *self = match code {
            RegisterCode16::I => Registers { i: lo, ..old_regs },
            RegisterCode16::R => Registers { r: lo, ..old_regs },
            RegisterCode16::IX => Registers { ix: v, ..old_regs },
            RegisterCode16::IY => Registers { iy: v, ..old_regs },
            RegisterCode16::SP => Registers { sp: v, ..old_regs },
            RegisterCode16::PC => Registers { pc: v, ..old_regs },
            RegisterCode16::BC => Registers { b: hi, c: lo, ..old_regs },
            RegisterCode16::DE => Registers { d: hi, e: lo, ..old_regs },
            RegisterCode16::HL => Registers { h: hi, l: lo, ..old_regs },
            RegisterCode16::AF => Registers { a: hi, f: FlagSet::from_byte(lo), ..old_regs },
        };
    }

    pub fn flag(&self, f: Flags) -> (r: bool)
        ensures
            r == self.f.get(f),
    {
        match f {
            Flags::Carry => self.f.carry,
            Flags::Subtract => self.f.subtract,
            Flags::OverflowParity => self.f.parity_overflow,
            Flags::NotUsed1 => self.f.bit3,
            Flags::HalfCarry => self.f.half_carry,
            Flags::NotUsed2 => self.f.bit5,
            Flags::Zero => self.f.zero,
            Flags::Sign => self.f.sign,
        }
    }

    pub fn set_flag(&mut self, f: Flags, v: bool)
        ensures
            *final(self) == (Registers { f: old(self).f.with(f, v), ..*old(self) }),
    {
        match f {
            Flags::Carry => self.f.carry = v,
            Flags::Subtract => self.f.subtract = v,
            Flags::OverflowParity => self.f.parity_overflow = v,
            Flags::NotUsed1 => self.f.bit3 = v,
            Flags::HalfCarry => self.f.half_carry = v,
            Flags::NotUsed2 => self.f.bit5 = v,
            Flags::Zero => self.f.zero = v,
            Flags::Sign => self.f.sign = v,
        }
    }

    pub fn exx(&mut self)
        ensures
            *final(self) == old(self).exx_spec(),
    {
        let (b, c, d, e, h, l) = (self.b, self.c, self.d, self.e, self.h, self.l);
        self.b = self.alt_b;
        self.c = self.alt_c;
        self.d = self.alt_d;
        self.e = self.alt_e;
        self.h = self.alt_h;
        self.l = self.alt_l;
        self.alt_b = b;
        self.alt_c = c;
        self.alt_d = d;
        self.alt_e = e;
        self.alt_h = h;
        self.alt_l = l;
    }

    pub fn ex_af(&mut self)
        ensures
            *final(self) == old(self).ex_af_spec(),
    {
        let (a, f) = (self.a, self.f);
        self.a = self.alt_a;
        self.f = self.alt_f;
        self.alt_a = a;
        self.alt_f = f;
    }

    pub fn ex_de_hl(&mut self)
        ensures
            *final(self) == old(self).ex_de_hl_spec(),
    {
        let (d, e) = (self.d, self.e);
        self.d = self.h;
        self.e = self.l;
        self.h = d;
        self.l = e;
    }
}

/// Reading a pair gives its first register shifted up eight bits, or-ed with
/// the second; writing `v` puts `v >> 8` in the first and `v & 0xFF` in the second.
pub proof fn lemma_pair_read_write(hi: u8, lo: u8, v: u16)
    ensures
        pair(hi, lo) == ((hi as u16) << 8) | (lo as u16),
        high(v) == (v >> 8) as u8,
        low(v) == (v & 0xFF) as u8,
        pair(high(v), low(v)) == v,
        high(pair(hi, lo)) == hi,
        low(pair(hi, lo)) == lo,
{
    assert(((hi as u16) << 8) | (lo as u16) == (hi as u16) * 256 + (lo as u16)) by (bit_vector);
    assert(v >> 8 == v / 256 && v & 0xFF == v % 256) by (bit_vector);
}

/// The register-pair law over the register file: reading BC, DE, HL or AF
/// composes the two halves, and writing splits the value into them.
pub proof fn lemma_register_pairs(regs: Registers, v: u16)
    ensures
        regs.get16(RegisterCode16::BC) == ((regs.b as u16) << 8) | (regs.c as u16),
        regs.get16(RegisterCode16::DE) == ((regs.d as u16) << 8) | (regs.e as u16),
        regs.get16(RegisterCode16::HL) == ((regs.h as u16) << 8) | (regs.l as u16),
        regs.set16(RegisterCode16::BC, v).b == (v >> 8) as u8,
        regs.set16(RegisterCode16::BC, v).c == (v & 0xFF) as u8,
        regs.set16(RegisterCode16::DE, v).d == (v >> 8) as u8,
        regs.set16(RegisterCode16::DE, v).e == (v & 0xFF) as u8,
        regs.set16(RegisterCode16::HL, v).h == (v >> 8) as u8,
        regs.set16(RegisterCode16::HL, v).l == (v & 0xFF) as u8,
        regs.set16(RegisterCode16::BC, v).get16(RegisterCode16::BC) == v,
        regs.set16(RegisterCode16::DE, v).get16(RegisterCode16::DE) == v,
        regs.set16(RegisterCode16::HL, v).get16(RegisterCode16::HL) == v,
        regs.set16(RegisterCode16::AF, v).get16(RegisterCode16::AF) == v,
{
    lemma_pair_read_write(regs.b, regs.c, v);
    lemma_pair_read_write(regs.d, regs.e, v);
    lemma_pair_read_write(regs.h, regs.l, v);
    lemma_byte_flag_round_trip(low(v));
}

/// Exchanging the main and alternate register sets twice changes nothing.
pub proof fn lemma_exx_involution(regs: Registers)
    ensures
        regs.exx_spec().exx_spec() == regs,
{
}

} // verus!
