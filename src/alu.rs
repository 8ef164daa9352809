//! Arithmetic and logic of the Z80 with its flag rules. Every operation is a
//! pure function of its operands and the incoming flags; each returns the
//! result and the new flag set.

use vstd::prelude::*;
use crate::registers::FlagSet;

verus! {

/// Number of set bits of `v`.
pub open spec fn ones(v: nat) -> nat
    decreases v,
{
    if v == 0 {
        0
    } else {
        v % 2 + ones(v / 2)
    }
}

/// Whether `v` has an even number of set bits.
pub open spec fn parity_spec(v: u8) -> bool {
    ones(v as nat) % 2 == 0
}

pub open spec fn carry_in(c: bool) -> int {
    if c {
        1
    } else {
        0
    }
}

/// Sign, Zero and Parity from a result, HalfCarry and Subtract cleared, Carry given.
pub open spec fn logic_flags(v: u8, half: bool, carry: bool, f: FlagSet) -> FlagSet {
    FlagSet {
        sign: v >= 128,
        zero: v == 0,
        half_carry: half,
        parity_overflow: parity_spec(v),
        subtract: false,
        carry,
        ..f
    }
}

pub open spec fn add8_spec(a: u8, b: u8, c: bool, f: FlagSet) -> (u8, FlagSet) {
    let sum = a + b + carry_in(c);
    let v = (sum % 256) as u8;
    (
        v,
        FlagSet {
            sign: v >= 128,
            zero: v == 0,
            half_carry: a % 16 + b % 16 + carry_in(c) > 15,
            parity_overflow: (a >= 128) == (b >= 128) && (v >= 128) != (a >= 128),
            subtract: false,
            carry: sum > 255,
            ..f
        },
    )
}

pub open spec fn sub8_spec(a: u8, b: u8, c: bool, f: FlagSet) -> (u8, FlagSet) {
    let d = b + carry_in(c);
    let v = ((a + 256 - d) % 256) as u8;
    (
        v,
        FlagSet {
            sign: v >= 128,
            zero: v == 0,
            half_carry: a % 16 < b % 16 + carry_in(c),
            parity_overflow: (a >= 128) != (b >= 128) && (v >= 128) != (a >= 128),
            subtract: true,
            carry: a < d,
            ..f
        },
    )
}

pub open spec fn inc8_spec(a: u8, f: FlagSet) -> (u8, FlagSet) {
    let v = ((a + 1) % 256) as u8;
    (
        v,
        FlagSet {
            sign: v >= 128,
            zero: v == 0,
            half_carry: a % 16 == 15,
            parity_overflow: a == 0x7F,
            subtract: false,
            ..f
        },
    )
}

pub open spec fn dec8_spec(a: u8, f: FlagSet) -> (u8, FlagSet) {
    let v = ((a + 255) % 256) as u8;
    (
        v,
        FlagSet {
            sign: v >= 128,
            zero: v == 0,
            half_carry: a % 16 == 0,
            parity_overflow: a == 0x80,
            subtract: true,
            ..f
        },
    )
}

pub open spec fn add16_spec(a: u16, b: u16, f: FlagSet) -> (u16, FlagSet) {
    let sum = a + b;
    (
        (sum % 65536) as u16,
        FlagSet { half_carry: a % 4096 + b % 4096 > 4095, subtract: false, carry: sum > 65535, ..f },
    )
}

pub open spec fn adc16_spec(a: u16, b: u16, c: bool, f: FlagSet) -> (u16, FlagSet) {
    let sum = a + b + carry_in(c);
    let v = (sum % 65536) as u16;
    (
        v,
        FlagSet {
            sign: v >= 32768,
            zero: v == 0,
            half_carry: a % 4096 + b % 4096 + carry_in(c) > 4095,
            parity_overflow: (a >= 32768) == (b >= 32768) && (v >= 32768) != (a >= 32768),
            subtract: false,
            carry: sum > 65535,
            ..f
        },
    )
}

pub open spec fn sbc16_spec(a: u16, b: u16, c: bool, f: FlagSet) -> (u16, FlagSet) {
    let d = b + carry_in(c);
    let v = ((a + 65536 - d) % 65536) as u16;
    (
        v,
        FlagSet {
            sign: v >= 32768,
            zero: v == 0,
            half_carry: a % 4096 < b % 4096 + carry_in(c),
            parity_overflow: (a >= 32768) != (b >= 32768) && (v >= 32768) != (a >= 32768),
            subtract: true,
            carry: a < d,
            ..f
        },
    )
}

pub open spec fn and8_spec(a: u8, b: u8, f: FlagSet) -> (u8, FlagSet) {
    (a & b, logic_flags(a & b, true, false, f))
}

pub open spec fn or8_spec(a: u8, b: u8, f: FlagSet) -> (u8, FlagSet) {
    (a | b, logic_flags(a | b, false, false, f))
}

pub open spec fn xor8_spec(a: u8, b: u8, f: FlagSet) -> (u8, FlagSet) {
    (a ^ b, logic_flags(a ^ b, false, false, f))
}

/// Rotate left; bit 7 goes to Carry and to bit 0.
pub open spec fn rlc_spec(v: u8, f: FlagSet) -> (u8, FlagSet) {
    let r = ((v % 128) * 2 + (if v >= 128 { 1int } else { 0 })) as u8;
    (r, logic_flags(r, false, v >= 128, f))
}

/// Rotate left through Carry.
pub open spec fn rl_spec(v: u8, f: FlagSet) -> (u8, FlagSet) {
    let r = ((v % 128) * 2 + carry_in(f.carry)) as u8;
    (r, logic_flags(r, false, v >= 128, f))
}

/// Rotate right; bit 0 goes to Carry and to bit 7.
pub open spec fn rrc_spec(v: u8, f: FlagSet) -> (u8, FlagSet) {
    let r = (v / 2 + (if v % 2 == 1 { 128int } else { 0 })) as u8;
    (r, logic_flags(r, false, v % 2 == 1, f))
}

/// Rotate right through Carry.
pub open spec fn rr_spec(v: u8, f: FlagSet) -> (u8, FlagSet) {
    let r = (v / 2 + 128 * carry_in(f.carry)) as u8;
    (r, logic_flags(r, false, v % 2 == 1, f))
}

/// Shift left, a zero enters bit 0.
pub open spec fn sla_spec(v: u8, f: FlagSet) -> (u8, FlagSet) {
    let r = ((v % 128) * 2) as u8;
    (r, logic_flags(r, false, v >= 128, f))
}

/// Shift left, a one enters bit 0.
pub open spec fn sll_spec(v: u8, f: FlagSet) -> (u8, FlagSet) {
    let r = ((v % 128) * 2 + 1) as u8;
    (r, logic_flags(r, false, v >= 128, f))
}

/// Shift right keeping bit 7.
pub open spec fn sra_spec(v: u8, f: FlagSet) -> (u8, FlagSet) {
    let r = (v / 2 + (if v >= 128 { 128int } else { 0 })) as u8;
    (r, logic_flags(r, false, v % 2 == 1, f))
}

/// Shift right, a zero enters bit 7.
pub open spec fn srl_spec(v: u8, f: FlagSet) -> (u8, FlagSet) {
    let r = (v / 2) as u8;
    (r, logic_flags(r, false, v % 2 == 1, f))
}

/// The accumulator form of a rotate: Sign, Zero and Parity stay as they were.
pub open spec fn acc_rotate_spec(full: (u8, FlagSet), f: FlagSet) -> (u8, FlagSet) {
    (full.0, FlagSet { half_carry: false, subtract: false, carry: full.1.carry, ..f })
}

pub open spec fn daa_spec(a: u8, f: FlagSet) -> (u8, FlagSet) {
    let lo = a % 16;
    let diff = (if f.half_carry || lo > 9 { 6int } else { 0 }) + (if f.carry || a > 0x99 {
        0x60int
    } else {
        0
    });
    let v = (if f.subtract {
        (a + 256 - diff) % 256
    } else {
        (a + diff) % 256
    }) as u8;
    (
        v,
        FlagSet {
            sign: v >= 128,
            zero: v == 0,
            half_carry: if f.subtract {
                f.half_carry && lo < 6
            } else {
                lo > 9
            },
            parity_overflow: parity_spec(v),
            carry: f.carry || a > 0x99,
            ..f
        },
    )
}

pub open spec fn neg_spec(a: u8, f: FlagSet) -> (u8, FlagSet) {
    sub8_spec(0, a, false, f)
}

pub open spec fn cpl_spec(a: u8, f: FlagSet) -> (u8, FlagSet) {
    ((255 - a) as u8, FlagSet { half_carry: true, subtract: true, ..f })
}

pub open spec fn ccf_spec(f: FlagSet) -> FlagSet {
    FlagSet { half_carry: f.carry, subtract: false, carry: !f.carry, ..f }
}

pub open spec fn scf_spec(f: FlagSet) -> FlagSet {
    FlagSet { half_carry: false, subtract: false, carry: true, ..f }
}

/// Rotate the low nibbles of A and the memory byte `m` right:
/// returns the new A, the new memory byte and the flags.
pub open spec fn rrd_spec(a: u8, m: u8, f: FlagSet) -> (u8, u8, FlagSet) {
    let na = ((a / 16) * 16 + m % 16) as u8;
    let nm = ((a % 16) * 16 + m / 16) as u8;
    (na, nm, logic_flags(na, false, f.carry, f))
}

/// Rotate the low nibble of A and the memory byte `m` left.
pub open spec fn rld_spec(a: u8, m: u8, f: FlagSet) -> (u8, u8, FlagSet) {
    let na = ((a / 16) * 16 + m / 16) as u8;
    let nm = ((m % 16) * 16 + a % 16) as u8;
    (na, nm, logic_flags(na, false, f.carry, f))
}

/// Whether bit `n` of `v` is set.
pub open spec fn bit_spec(v: u8, n: u8) -> bool {
    (v >> n) & 1 == 1
}

/// Flags of `BIT n`: Zero is the complement of the tested bit.
pub open spec fn bit_flags_spec(v: u8, n: u8, f: FlagSet) -> FlagSet {
    FlagSet { zero: !bit_spec(v, n), half_carry: true, subtract: false, ..f }
}

/// Flags of a byte read from a port into a register.
pub open spec fn in_flags_spec(v: u8, f: FlagSet) -> FlagSet {
    logic_flags(v, false, f.carry, f)
}

/// Flags of a compare-and-step (CPI, CPD): those of `A - m`, Carry kept,
/// Parity/Overflow set while the count is not zero.
pub open spec fn cp_block_flags_spec(a: u8, m: u8, bc: u16, f: FlagSet) -> FlagSet {
    let s = sub8_spec(a, m, false, f).1;
    FlagSet { parity_overflow: bc != 0, carry: f.carry, ..s }
}

pub fn parity_even(v: u8) -> (r: bool)
    ensures
        r == parity_spec(v),
{
    let mut val: u8 = v;
    let mut result: u8 = 0;
    while val > 0
        invariant
            result <= 1,
            (result + ones(val as nat)) % 2 == ones(v as nat) % 2,
        decreases val,
    {
        result = (result + val % 2) % 2;
        val = val / 2;
    }
    result == 0
}

pub fn add8(a: u8, b: u8, c: bool, f: FlagSet) -> (r: (u8, FlagSet))
    ensures
        r == add8_spec(a, b, c, f),
{
    let ci: u16 = if c {
        1
    } else {
        0
    };
    let sum: u16 = a as u16 + b as u16 + ci;
    let v = (sum % 256) as u8;
    (
        v,
        FlagSet {
            sign: v >= 128,
            zero: v == 0,
            half_carry: a as u16 % 16 + b as u16 % 16 + ci > 15,
            parity_overflow: (a >= 128) == (b >= 128) && (v >= 128) != (a >= 128),
            subtract: false,
            carry: sum > 255,
            ..f
        },
    )
}

pub fn sub8(a: u8, b: u8, c: bool, f: FlagSet) -> (r: (u8, FlagSet))
    ensures
        r == sub8_spec(a, b, c, f),
{
    let ci: u16 = if c {
        1
    } else {
        0
    };
    let d: u16 = b as u16 + ci;
    let v = ((a as u16 + 256 - d) % 256) as u8;
    (
        v,
        FlagSet {
            sign: v >= 128,
            zero: v == 0,
            half_carry: ((a % 16) as u16) < (b % 16) as u16 + ci,
            parity_overflow: (a >= 128) != (b >= 128) && (v >= 128) != (a >= 128),
            subtract: true,
            carry: (a as u16) < d,
            ..f
        },
    )
}

pub fn inc8(a: u8, f: FlagSet) -> (r: (u8, FlagSet))
    ensures
        r == inc8_spec(a, f),
{
    let v = ((a as u16 + 1) % 256) as u8;
    (
        v,
        FlagSet {
            sign: v >= 128,
            zero: v == 0,
            half_carry: a % 16 == 15,
            parity_overflow: a == 0x7F,
            subtract: false,
            ..f
        },
    )
}

pub fn dec8(a: u8, f: FlagSet) -> (r: (u8, FlagSet))
    ensures
        r == dec8_spec(a, f),
{
    let v = ((a as u16 + 255) % 256) as u8;
    (
        v,
        FlagSet {
            sign: v >= 128,
            zero: v == 0,
            half_carry: a % 16 == 0,
            parity_overflow: a == 0x80,
            subtract: true,
            ..f
        },
    )
}

pub fn add16(a: u16, b: u16, f: FlagSet) -> (r: (u16, FlagSet))
    ensures
        r == add16_spec(a, b, f),
{
    let sum: u32 = a as u32 + b as u32;
    (
        (sum % 65536) as u16,
        FlagSet {
            half_carry: a % 4096 + b % 4096 > 4095,
            subtract: false,
            carry: sum > 65535,
            ..f
        },
    )
}

pub fn adc16(a: u16, b: u16, c: bool, f: FlagSet) -> (r: (u16, FlagSet))
    ensures
        r == adc16_spec(a, b, c, f),
{
    let ci: u32 = if c {
        1
    } else {
        0
    };
    let sum: u32 = a as u32 + b as u32 + ci;
    let v = (sum % 65536) as u16;
    (
        v,
        FlagSet {
            sign: v >= 32768,
            zero: v == 0,
            half_carry: (a % 4096) as u32 + (b % 4096) as u32 + ci > 4095,
            parity_overflow: (a >= 32768) == (b >= 32768) && (v >= 32768) != (a >= 32768),
            subtract: false,
            carry: sum > 65535,
            ..f
        },
    )
}

pub fn sbc16(a: u16, b: u16, c: bool, f: FlagSet) -> (r: (u16, FlagSet))
    ensures
        r == sbc16_spec(a, b, c, f),
{
    let ci: u32 = if c {
        1
    } else {
        0
    };
    let d: u32 = b as u32 + ci;
    let v = ((a as u32 + 65536 - d) % 65536) as u16;
    (
        v,
        FlagSet {
            sign: v >= 32768,
            zero: v == 0,
            half_carry: ((a % 4096) as u32) < (b % 4096) as u32 + ci,
            parity_overflow: (a >= 32768) != (b >= 32768) && (v >= 32768) != (a >= 32768),
            subtract: true,
            carry: (a as u32) < d,
            ..f
        },
    )
}

fn logic_flags_of(v: u8, half: bool, carry: bool, f: FlagSet) -> (r: FlagSet)
    ensures
        r == logic_flags(v, half, carry, f),
{
    FlagSet {
        sign: v >= 128,
        zero: v == 0,
        half_carry: half,
        parity_overflow: parity_even(v),
        subtract: false,
        carry,
        ..f
    }
}

pub fn and8(a: u8, b: u8, f: FlagSet) -> (r: (u8, FlagSet))
    ensures
        r == and8_spec(a, b, f),
{
    let v = a & b;
    (v, logic_flags_of(v, true, false, f))
}

pub fn or8(a: u8, b: u8, f: FlagSet) -> (r: (u8, FlagSet))
    ensures
        r == or8_spec(a, b, f),
{
    let v = a | b;
    (v, logic_flags_of(v, false, false, f))
}

pub fn xor8(a: u8, b: u8, f: FlagSet) -> (r: (u8, FlagSet))
    ensures
        r == xor8_spec(a, b, f),
{
    let v = a ^ b;
    (v, logic_flags_of(v, false, false, f))
}

pub fn rlc(v: u8, f: FlagSet) -> (r: (u8, FlagSet))
    ensures
        r == rlc_spec(v, f),
{
    let out: u8 = if v >= 128 {
        (v % 128) * 2 + 1
    } else {
        (v % 128) * 2
    };
    (out, logic_flags_of(out, false, v >= 128, f))
}

pub fn rl(v: u8, f: FlagSet) -> (r: (u8, FlagSet))
    ensures
        r == rl_spec(v, f),
{
    let out: u8 = if f.carry {
        (v % 128) * 2 + 1
    } else {
        (v % 128) * 2
    };
    (out, logic_flags_of(out, false, v >= 128, f))
}

pub fn rrc(v: u8, f: FlagSet) -> (r: (u8, FlagSet))
    ensures
        r == rrc_spec(v, f),
{
    let out: u8 = if v % 2 == 1 {
        v / 2 + 128
    } else {
        v / 2
    };
    (out, logic_flags_of(out, false, v % 2 == 1, f))
}

pub fn rr(v: u8, f: FlagSet) -> (r: (u8, FlagSet))
    ensures
        r == rr_spec(v, f),
{
    let out: u8 = if f.carry {
        v / 2 + 128
    } else {
        v / 2
    };
    (out, logic_flags_of(out, false, v % 2 == 1, f))
}

pub fn sla(v: u8, f: FlagSet) -> (r: (u8, FlagSet))
    ensures
        r == sla_spec(v, f),
{
    let out: u8 = (v % 128) * 2;
    (out, logic_flags_of(out, false, v >= 128, f))
}

pub fn sll(v: u8, f: FlagSet) -> (r: (u8, FlagSet))
    ensures
        r == sll_spec(v, f),
{
    let out: u8 = (v % 128) * 2 + 1;
    (out, logic_flags_of(out, false, v >= 128, f))
}

pub fn sra(v: u8, f: FlagSet) -> (r: (u8, FlagSet))
    ensures
        r == sra_spec(v, f),
{
    let out: u8 = if v >= 128 {
        v / 2 + 128
    } else {
        v / 2
    };
    (out, logic_flags_of(out, false, v % 2 == 1, f))
}

pub fn srl(v: u8, f: FlagSet) -> (r: (u8, FlagSet))
    ensures
        r == srl_spec(v, f),
{
    let out: u8 = v / 2;
    (out, logic_flags_of(out, false, v % 2 == 1, f))
}

pub fn daa(a: u8, f: FlagSet) -> (r: (u8, FlagSet))
    ensures
        r == daa_spec(a, f),
{
    let lo = a % 16;
    let mut diff: u16 = 0;
    if f.half_carry || lo > 9 {
        diff = diff + 6;
    }
    if f.carry || a > 0x99 {
        diff = diff + 0x60;
    }
    let v = if f.subtract {
        ((a as u16 + 256 - diff) % 256) as u8
    } else {
        ((a as u16 + diff) % 256) as u8
    };
    let half = if f.subtract {
        f.half_carry && lo < 6
    } else {
        lo > 9
    };
    (
        v,
        FlagSet {
            sign: v >= 128,
            zero: v == 0,
            half_carry: half,
            parity_overflow: parity_even(v),
            carry: f.carry || a > 0x99,
            ..f
        },
    )
}

pub fn neg(a: u8, f: FlagSet) -> (r: (u8, FlagSet))
    ensures
        r == neg_spec(a, f),
{
    sub8(0, a, false, f)
}

pub fn cpl(a: u8, f: FlagSet) -> (r: (u8, FlagSet))
    ensures
        r == cpl_spec(a, f),
{
    (255 - a, FlagSet { half_carry: true, subtract: true, ..f })
}

pub fn rrd(a: u8, m: u8, f: FlagSet) -> (r: (u8, u8, FlagSet))
    ensures
        r == rrd_spec(a, m, f),
{
    let na = (a / 16) * 16 + m % 16;
    let nm = (a % 16) * 16 + m / 16;
    (na, nm, logic_flags_of(na, false, f.carry, f))
}

pub fn rld(a: u8, m: u8, f: FlagSet) -> (r: (u8, u8, FlagSet))
    ensures
        r == rld_spec(a, m, f),
{
    let na = (a / 16) * 16 + m / 16;
    let nm = (m % 16) * 16 + a % 16;
    (na, nm, logic_flags_of(na, false, f.carry, f))
}

pub fn test_bit(v: u8, n: u8) -> (r: bool)
    requires
        n < 8,
    ensures
        r == bit_spec(v, n),
{
    (v >> n) & 1 == 1
}

/// `v` with bit `n` set.
pub fn set_bit(v: u8, n: u8) -> (r: u8)
    requires
        n < 8,
    ensures
        r == v | (1u8 << n),
{
    v | (1u8 << n)
}

/// `v` with bit `n` cleared.
pub fn res_bit(v: u8, n: u8) -> (r: u8)
    requires
        n < 8,
    ensures
        r == v & !(1u8 << n),
{
    v & !(1u8 << n)
}

/// Negating twice gives the byte back, for every byte (0x80 included).
pub proof fn lemma_neg_involution(a: u8, f: FlagSet, g: FlagSet)
    ensures
        neg_spec(neg_spec(a, f).0, g).0 == a,
{
}

/// The flags of an 8-bit addition or subtraction depend on the operands and
/// the carry-in alone: two flag sets that agree on Carry give the same
/// Sign, Zero, HalfCarry, Parity/Overflow, Subtract and Carry.
pub proof fn lemma_arith_flags_pure(a: u8, b: u8, with_carry: bool, f: FlagSet, g: FlagSet)
    requires
        f.carry == g.carry,
    ensures
        ({
            let x = add8_spec(a, b, with_carry && f.carry, f).1;
            let y = add8_spec(a, b, with_carry && g.carry, g).1;
            x.sign == y.sign && x.zero == y.zero && x.half_carry == y.half_carry
                && x.parity_overflow == y.parity_overflow && x.subtract == y.subtract && x.carry
                == y.carry
        }),
        ({
            let x = sub8_spec(a, b, with_carry && f.carry, f).1;
            let y = sub8_spec(a, b, with_carry && g.carry, g).1;
            x.sign == y.sign && x.zero == y.zero && x.half_carry == y.half_carry
                && x.parity_overflow == y.parity_overflow && x.subtract == y.subtract && x.carry
                == y.carry
        }),
        add8_spec(a, b, with_carry && f.carry, f).0 == add8_spec(a, b, with_carry && g.carry, g).0,
        sub8_spec(a, b, with_carry && f.carry, f).0 == sub8_spec(a, b, with_carry && g.carry, g).0,
{
}

} // verus!
