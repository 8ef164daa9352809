//! Laws relating instructions to each other, over the CPU view.

use vstd::prelude::*;
use crate::cpu::{CpuView, wrap16, step16};
use crate::memory::{DeviceView, bus_value, is_flat, flat_read, lemma_flat_bus, lemma_read_cell, lemma_same_cell_value, lemma_write_cell, same_cell, writable_cell};
use crate::registers::{Registers, RegisterCode16, lemma_pair_read_write, lemma_flag_byte_round_trip, pair, high, low};

verus! {

/// The stack after a push of `v` onto two distinct writable cells: SP two
/// below, the word stored there.
proof fn lemma_push16_cells(s: CpuView, v: u16)
    requires
        writable_cell(s.mem, wrap16(s.regs.sp + 65535)),
        writable_cell(s.mem, wrap16(wrap16(s.regs.sp + 65535) + 65535)),
        !same_cell(s.mem, wrap16(s.regs.sp + 65535), wrap16(wrap16(s.regs.sp + 65535) + 65535)),
    ensures
        ({
            let t = s.push16(v);
            let sp1 = wrap16(s.regs.sp + 65535);
            let sp2 = wrap16(sp1 + 65535);
            &&& t.regs == s.regs.set16(RegisterCode16::SP, sp1).set16(RegisterCode16::SP, sp2)
            &&& writable_cell(t.mem, sp1) && writable_cell(t.mem, sp2)
            &&& !same_cell(t.mem, sp1, sp2)
            &&& bus_value(t.mem, sp2) == low(v)
            &&& bus_value(t.mem, sp1) == high(v)
            &&& t.clock == s.clock && t.clock_queue == s.clock_queue
        }),
{
    let sp1 = wrap16(s.regs.sp + 65535);
    let sp2 = wrap16(sp1 + 65535);
    let m1 = s.push(high(v)).mem;
    lemma_write_cell(s.mem, sp1, sp1, high(v));
    lemma_write_cell(s.mem, sp1, sp2, high(v));
    lemma_write_cell(m1, sp2, sp2, low(v));
    lemma_write_cell(m1, sp2, sp1, low(v));
}

/// PUSH rr followed by POP rr leaves every register as it was, SP included,
/// for any pair but SP itself, when the two stack bytes are distinct writable
/// memory (a byte vector, or a writable region reached through any window).
#[verifier::rlimit(60)]
#[verifier::spinoff_prover]
pub proof fn lemma_push_pop(s: CpuView, rr: RegisterCode16)
    requires
        writable_cell(s.mem, wrap16(s.regs.sp + 65535)),
        writable_cell(s.mem, wrap16(wrap16(s.regs.sp + 65535) + 65535)),
        !same_cell(s.mem, wrap16(s.regs.sp + 65535), wrap16(wrap16(s.regs.sp + 65535) + 65535)),
        rr == RegisterCode16::BC || rr == RegisterCode16::DE || rr == RegisterCode16::HL || rr
            == RegisterCode16::AF || rr == RegisterCode16::IX || rr == RegisterCode16::IY,
    ensures
        ({
            let pushed = s.push16(s.regs.get16(rr)).tick(11);
            let (v, popped) = pushed.pop16();
            popped.set16(rr, v).tick(10).regs == s.regs
        }),
{
    let v = s.regs.get16(rr);
    lemma_push16_cells(s, v);
    let pushed = s.push16(v).tick(11);
    let sp1 = wrap16(s.regs.sp + 65535);
    let sp2 = wrap16(sp1 + 65535);
    assert(pushed.regs.sp == sp2);
    lemma_read_cell(pushed.mem, sp2);
    let (lo, p1) = pushed.pop();
    assert(lo == low(v));
    assert(p1.regs.sp == sp1);
    assert(p1.mem == pushed.mem);
    lemma_read_cell(p1.mem, sp1);
    let (hi, p2) = p1.pop();
    assert(hi == high(v));
    assert(p2.regs.sp == s.regs.sp);
    lemma_pair_read_write(high(v), low(v), v);
    lemma_pair_read_write(s.regs.b, s.regs.c, v);
    lemma_pair_read_write(s.regs.d, s.regs.e, v);
    lemma_pair_read_write(s.regs.h, s.regs.l, v);
    lemma_pair_read_write(s.regs.a, s.regs.f.byte(), v);
    lemma_flag_byte_round_trip(s.regs.f);
    assert(p2.set16(rr, pair(hi, lo)).regs == s.regs);
}

/// Exchanging the word at SP with HL (or IX, IY) twice gives back the
/// register and every byte of memory, when the two stack bytes are distinct
/// writable memory.
#[verifier::rlimit(60)]
#[verifier::spinoff_prover]
pub proof fn lemma_ex_sp_involution(s: CpuView, rr: RegisterCode16, b: u16)
    requires
        writable_cell(s.mem, s.regs.sp),
        writable_cell(s.mem, wrap16(s.regs.sp + 1)),
        !same_cell(s.mem, s.regs.sp, wrap16(s.regs.sp + 1)),
        rr == RegisterCode16::HL || rr == RegisterCode16::IX || rr == RegisterCode16::IY,
    ensures
        ({
            let twice = s.ex_sp(rr).tick(19).ex_sp(rr).tick(19);
            &&& twice.regs == s.regs
            &&& bus_value(twice.mem, b) == bus_value(s.mem, b)
        }),
{
    let sp = s.regs.sp;
    let sp1 = wrap16(sp + 1);
    let v = s.regs.get16(rr);
    let m0 = s.mem;
    let lo = bus_value(m0, sp);
    let hi = bus_value(m0, sp1);
    lemma_read_cell(m0, sp);
    lemma_read_cell(m0, sp1);
    let m1 = crate::memory::bus_after_write(m0, sp, low(v));
    lemma_write_cell(m0, sp, sp1, low(v));
    lemma_write_cell(m0, sp, sp, low(v));
    lemma_write_cell(m0, sp, b, low(v));
    let m2 = crate::memory::bus_after_write(m1, sp1, high(v));
    lemma_write_cell(m1, sp1, sp, high(v));
    lemma_write_cell(m1, sp1, sp1, high(v));
    lemma_write_cell(m1, sp1, b, high(v));
    let once = s.ex_sp(rr).tick(19);
    assert(once.mem == m2);
    lemma_pair_read_write(hi, lo, v);
    lemma_pair_read_write(high(v), low(v), v);
    lemma_pair_read_write(s.regs.h, s.regs.l, v);
    assert(once.regs.get16(rr) == pair(hi, lo));
    assert(once.regs.sp == sp);
    let w = pair(hi, lo);
    lemma_pair_read_write(hi, lo, w);
    lemma_read_cell(m2, sp);
    lemma_read_cell(m2, sp1);
    assert(bus_value(m2, sp) == low(v));
    assert(bus_value(m2, sp1) == high(v));
    let m3 = crate::memory::bus_after_write(m2, sp, low(w));
    lemma_write_cell(m2, sp, sp1, low(w));
    lemma_write_cell(m2, sp, b, low(w));
    let m4 = crate::memory::bus_after_write(m3, sp1, high(w));
    lemma_write_cell(m3, sp1, b, high(w));
    let twice = once.ex_sp(rr).tick(19);
    assert(twice.mem == m4);
    assert(twice.regs == s.regs);
    if same_cell(m0, sp1, b) {
        lemma_same_cell_value(m0, sp1, b);
    } else if same_cell(m0, sp, b) {
        lemma_same_cell_value(m0, sp, b);
    }
}

/// One iteration of CPIR runs again exactly when the count is not yet zero
/// and the byte compared differs from A.
pub proof fn lemma_cpir_stop(s: CpuView)
    ensures
        ({
            let (m, _) = s.fetch(s.regs.get16(RegisterCode16::HL));
            let bc = wrap16(s.regs.get16(RegisterCode16::BC) + 65535);
            let t = s.cp_block_repeat(true);
            &&& t.regs.get16(RegisterCode16::BC) == bc
            &&& (t.regs.pc != s.regs.pc <==> (bc != 0 && m != s.regs.a))
            &&& t.regs.get16(RegisterCode16::HL) == step16(s.regs.get16(RegisterCode16::HL), true)
        }),
{
    let hl = s.regs.get16(RegisterCode16::HL);
    let bc = wrap16(s.regs.get16(RegisterCode16::BC) + 65535);
    lemma_pair_read_write(s.regs.h, s.regs.l, step16(hl, true));
    lemma_pair_read_write(s.regs.b, s.regs.c, bc);
    lemma_pair_read_write(high(step16(hl, true)), low(step16(hl, true)), bc);
}


/// The CPU after `k` iterations of LDIR.
#[verifier::opaque]
pub open spec fn ldir_times(s: CpuView, k: nat) -> CpuView
    decreases k,
{
    if k == 0 {
        s
    } else {
        ldir_times(s, (k - 1) as nat).ld_block_repeat(true)
    }
}

/// One iteration of LDIR on a flat memory: the byte at HL copied to DE, both
/// stepped up, BC counted down, nothing else in memory changed.
#[verifier::rlimit(60)]
#[verifier::spinoff_prover]
proof fn lemma_ldir_once(p: CpuView)
    requires
        is_flat(p.mem),
    ensures
        ({
            let src = p.regs.get16(RegisterCode16::HL);
            let dst = p.regs.get16(RegisterCode16::DE);
            let q = p.ld_block_repeat(true);
            &&& is_flat(q.mem)
            &&& q.regs.get16(RegisterCode16::HL) == step16(src, true)
            &&& q.regs.get16(RegisterCode16::DE) == step16(dst, true)
            &&& q.regs.get16(RegisterCode16::BC) == wrap16(p.regs.get16(RegisterCode16::BC) + 65535)
            &&& !q.regs.f.half_carry && !q.regs.f.subtract
            &&& q.regs.f.parity_overflow == (q.regs.get16(RegisterCode16::BC) != 0)
            &&& forall|a: u16| #[trigger] flat_read(q.mem, a) == if a == dst {
                flat_read(p.mem, src)
            } else {
                flat_read(p.mem, a)
            }
        }),
{
    reveal(CpuView::ld_block_repeat);
    let src = p.regs.get16(RegisterCode16::HL);
    let dst = p.regs.get16(RegisterCode16::DE);
    let v = flat_read(p.mem, src);
    lemma_flat_bus(p.mem, dst, src, 0);
    let bc = wrap16(p.regs.get16(RegisterCode16::BC) + 65535);
    lemma_pair_read_write(p.regs.h, p.regs.l, step16(src, true));
    lemma_pair_read_write(p.regs.d, p.regs.e, step16(dst, true));
    lemma_pair_read_write(p.regs.b, p.regs.c, bc);
    lemma_pair_read_write(high(step16(src, true)), low(step16(src, true)), step16(dst, true));
    lemma_pair_read_write(high(step16(src, true)), low(step16(src, true)), bc);
    lemma_pair_read_write(high(step16(dst, true)), low(step16(dst, true)), bc);
    let q = p.ld_block(true);
    assert forall|a: u16| #[trigger] flat_read(q.mem, a) == if a == dst {
        v
    } else {
        flat_read(p.mem, a)
    } by {
        lemma_flat_bus(p.mem, dst, a, v);
    }
    lemma_flat_bus(p.mem, dst, dst, v);
    let t = p.ld_block_repeat(true);
    assert(t.mem == q.mem);
    assert(t.regs.get16(RegisterCode16::HL) == q.regs.get16(RegisterCode16::HL));
    assert(t.regs.get16(RegisterCode16::DE) == q.regs.get16(RegisterCode16::DE));
    assert(t.regs.get16(RegisterCode16::BC) == q.regs.get16(RegisterCode16::BC));
}

proof fn lemma_ldir_times_zero(s: CpuView)
    ensures
        ldir_times(s, 0) == s,
{
    reveal(ldir_times);
}

proof fn lemma_ldir_times_step(s: CpuView, k: nat)
    ensures
        ldir_times(s, k + 1) == ldir_times(s, k).ld_block_repeat(true),
{
    reveal(ldir_times);
}

/// One more byte copied: what the first `k1` copies established, extended to `k1 + 1`.
proof fn lemma_ldir_copy_step(m0: Seq<DeviceView>, mp: Seq<DeviceView>, mt: Seq<DeviceView>, hl: int, de: int, n: nat, k1: nat)
    requires
        0 <= hl,
        0 <= de,
        hl + n <= 65536,
        de + n <= 65536,
        de + n <= hl || hl + n <= de,
        k1 < n,
        forall|j: int| 0 <= j < k1 ==> #[trigger] flat_read(mp, (de + j) as u16) == flat_read(m0, (hl + j) as u16),
        forall|a: u16| (a < de || a >= de + k1) ==> #[trigger] flat_read(mp, a) == flat_read(m0, a),
        forall|a: u16| #[trigger] flat_read(mt, a) == if a == (de + k1) as u16 {
            flat_read(mp, (hl + k1) as u16)
        } else {
            flat_read(mp, a)
        },
    ensures
        forall|j: int| 0 <= j < k1 + 1 ==> #[trigger] flat_read(mt, (de + j) as u16) == flat_read(m0, (hl + j) as u16),
        forall|a: u16| (a < de || a >= de + k1 + 1) ==> #[trigger] flat_read(mt, a) == flat_read(m0, a),
{
    let src = (hl + k1) as u16;
    assert(flat_read(mp, src) == flat_read(m0, src));
    assert forall|j: int| 0 <= j < k1 + 1 implies #[trigger] flat_read(mt, (de + j) as u16) == flat_read(
        m0,
        (hl + j) as u16,
    ) by {
        if j < k1 {
            assert(flat_read(mp, (de + j) as u16) == flat_read(m0, (hl + j) as u16));
        }
    }
    assert forall|a: u16| (a < de || a >= de + k1 + 1) implies #[trigger] flat_read(mt, a) == flat_read(m0, a) by {
        assert(flat_read(mp, a) == flat_read(m0, a));
    }
}

/// What holds after `k` of the `n` iterations of an LDIR that copies from a
/// source range that the destination range does not overlap.
#[verifier::rlimit(100)]
#[verifier::spinoff_prover]
proof fn lemma_ldir_progress(s: CpuView, n: nat, k: nat)
    requires
        is_flat(s.mem),
        s.regs.get16(RegisterCode16::BC) == n,
        s.regs.get16(RegisterCode16::HL) + n <= 65536,
        s.regs.get16(RegisterCode16::DE) + n <= 65536,
        s.regs.get16(RegisterCode16::DE) + n <= s.regs.get16(RegisterCode16::HL) || s.regs.get16(
            RegisterCode16::HL,
        ) + n <= s.regs.get16(RegisterCode16::DE),
        k <= n,
    ensures
        ({
            let hl = s.regs.get16(RegisterCode16::HL);
            let de = s.regs.get16(RegisterCode16::DE);
            let t = ldir_times(s, k);
            &&& is_flat(t.mem)
            &&& t.regs.get16(RegisterCode16::HL) == if hl + k < 65536 { hl + k } else { 0 }
            &&& t.regs.get16(RegisterCode16::DE) == if de + k < 65536 { de + k } else { 0 }
            &&& t.regs.get16(RegisterCode16::BC) == n - k
            &&& k >= 1 ==> (!t.regs.f.half_carry && !t.regs.f.subtract && t.regs.f.parity_overflow
                == (n - k != 0))
            &&& forall|j: int|
                0 <= j < k ==> #[trigger] flat_read(t.mem, (de + j) as u16) == flat_read(
                    s.mem,
                    (hl + j) as u16,
                )
            &&& forall|a: u16|
                (a < de || a >= de + k) ==> #[trigger] flat_read(t.mem, a) == flat_read(s.mem, a)
        }),
    decreases k,
{
    lemma_ldir_times_zero(s);
    let hl = s.regs.get16(RegisterCode16::HL);
    let de = s.regs.get16(RegisterCode16::DE);
    if k > 0 {
        let k1 = (k - 1) as nat;
        lemma_ldir_progress(s, n, k1);
        let p = ldir_times(s, k1);
        lemma_ldir_times_step(s, k1);
        lemma_ldir_once(p);
        let src = (hl + k1) as u16;
        let dst = (de + k1) as u16;
        assert(p.regs.get16(RegisterCode16::HL) == src);
        assert(p.regs.get16(RegisterCode16::DE) == dst);
        assert(flat_read(p.mem, src) == flat_read(s.mem, src));
        let t = ldir_times(s, k);
        assert(t == p.ld_block_repeat(true));
        assert(step16(src, true) == if hl + k < 65536 { hl + k } else { 0 });
        assert(step16(dst, true) == if de + k < 65536 { de + k } else { 0 });
        lemma_ldir_copy_step(s.mem, p.mem, t.mem, hl as int, de as int, n, k1);
    }
}

/// After `LD BC, n` (n > 0) and LDIR over ranges that do not overlap or wrap,
/// on a flat memory: the instruction runs exactly `n` times, BC ends at zero,
/// HL and DE have moved `n` bytes, Parity/Overflow, HalfCarry and Subtract are
/// clear, and the `n` bytes at DE equal the `n` bytes that were at HL.
pub proof fn lemma_ldir_copies(s: CpuView, n: nat)
    requires
        is_flat(s.mem),
        n > 0,
        s.regs.get16(RegisterCode16::BC) == n,
        s.regs.get16(RegisterCode16::HL) + n <= 65536,
        s.regs.get16(RegisterCode16::DE) + n <= 65536,
        s.regs.get16(RegisterCode16::DE) + n <= s.regs.get16(RegisterCode16::HL) || s.regs.get16(
            RegisterCode16::HL,
        ) + n <= s.regs.get16(RegisterCode16::DE),
    ensures
        ldir_times(s, n).regs.get16(RegisterCode16::BC) == 0,
        ldir_times(s, n).regs.get16(RegisterCode16::HL) == if s.regs.get16(RegisterCode16::HL) + n
            < 65536 {
            s.regs.get16(RegisterCode16::HL) + n
        } else {
            0
        },
        ldir_times(s, n).regs.get16(RegisterCode16::DE) == if s.regs.get16(RegisterCode16::DE) + n
            < 65536 {
            s.regs.get16(RegisterCode16::DE) + n
        } else {
            0
        },
        !ldir_times(s, n).regs.f.parity_overflow,
        !ldir_times(s, n).regs.f.half_carry,
        !ldir_times(s, n).regs.f.subtract,
        forall|k: nat| k < n ==> #[trigger] ldir_times(s, k).regs.get16(RegisterCode16::BC) != 0,
        forall|j: int|
            0 <= j < n ==> #[trigger] flat_read(
                ldir_times(s, n).mem,
                (s.regs.get16(RegisterCode16::DE) + j) as u16,
            ) == flat_read(s.mem, (s.regs.get16(RegisterCode16::HL) + j) as u16),
{
    lemma_ldir_progress(s, n, n);
    assert forall|k: nat| k < n implies #[trigger] ldir_times(s, k).regs.get16(
        RegisterCode16::BC,
    ) != 0 by {
        lemma_ldir_progress(s, n, k);
    }
}



/// One CPIR iteration as the CPU runs it: A is compared with (HL); when the
/// instruction repeats, it is fetched again, so PC ends where it started.
#[verifier::opaque]
pub open spec fn cpir_iter(s: CpuView) -> CpuView {
    let t = s.cp_block_repeat(true);
    CpuView { regs: Registers { pc: s.regs.pc, ..t.regs }, ..t }
}

/// Whether a CPIR iteration from `s` runs the instruction again.
#[verifier::opaque]
pub open spec fn cpir_repeats(s: CpuView) -> bool {
    s.cp_block_repeat(true).regs.pc != s.regs.pc
}

/// The CPU after `k` CPIR iterations.
#[verifier::opaque]
pub open spec fn cpir_times(s: CpuView, k: nat) -> CpuView
    decreases k,
{
    if k == 0 {
        s
    } else {
        cpir_iter(cpir_times(s, (k - 1) as nat))
    }
}

/// The `n` bytes from `h` on are writable memory.
#[verifier::opaque]
pub open spec fn writable_run(mem: Seq<DeviceView>, h: int, n: nat) -> bool {
    forall|i: int| 0 <= i < n ==> #[trigger] writable_cell(mem, (h + i) as u16)
}

/// None of the first `k` bytes from `h` equals `a`.
#[verifier::opaque]
pub open spec fn no_match(mem: Seq<DeviceView>, h: int, k: nat, a: u8) -> bool {
    forall|i: int| 0 <= i < k ==> #[trigger] bus_value(mem, (h + i) as u16) != a
}

proof fn lemma_cpir_times_unfold(s: CpuView, k: nat)
    ensures
        cpir_times(s, 0) == s,
        cpir_times(s, k + 1) == cpir_iter(cpir_times(s, k)),
{
    reveal(cpir_times);
}

proof fn lemma_writable_run_at(mem: Seq<DeviceView>, h: int, n: nat, i: int)
    requires
        writable_run(mem, h, n),
        0 <= i < n,
    ensures
        writable_cell(mem, (h + i) as u16),
{
    reveal(writable_run);
}

proof fn lemma_no_match_shorter(mem: Seq<DeviceView>, h: int, k: nat, a: u8)
    requires
        no_match(mem, h, k + 1, a),
    ensures
        no_match(mem, h, k, a),
        bus_value(mem, (h + k) as u16) != a,
{
    reveal(no_match);
}

/// One CPIR iteration from a state whose HL is a writable cell.
#[verifier::rlimit(60)]
#[verifier::spinoff_prover]
proof fn lemma_cpir_iter_facts(t: CpuView)
    requires
        writable_cell(t.mem, t.regs.get16(RegisterCode16::HL)),
    ensures
        ({
            let hl = t.regs.get16(RegisterCode16::HL);
            let bc = wrap16(t.regs.get16(RegisterCode16::BC) + 65535);
            let m = bus_value(t.mem, hl);
            let u = cpir_iter(t);
            &&& u.regs.get16(RegisterCode16::HL) == step16(hl, true)
            &&& u.regs.get16(RegisterCode16::BC) == bc
            &&& u.regs.a == t.regs.a
            &&& u.mem == t.mem
            &&& u.regs.f.zero == (m == t.regs.a)
            &&& (cpir_repeats(t) <==> (bc != 0 && m != t.regs.a))
        }),
{
    reveal(cpir_iter);
    reveal(cpir_repeats);
    let hl = t.regs.get16(RegisterCode16::HL);
    lemma_read_cell(t.mem, hl);
    lemma_cpir_stop(t);
    let bc = wrap16(t.regs.get16(RegisterCode16::BC) + 65535);
    lemma_pair_read_write(t.regs.h, t.regs.l, step16(hl, true));
    lemma_pair_read_write(t.regs.b, t.regs.c, bc);
    lemma_pair_read_write(high(step16(hl, true)), low(step16(hl, true)), bc);
}

/// CPIR over `n` bytes of writable memory at HL (no wrap), with BC = n: after
/// `k` iterations that found no byte equal to A, HL has moved `k` bytes, BC has
/// counted `k` down, and A and memory are unchanged; iteration `k` runs again
/// exactly when its byte differs from A and BC has not reached zero, and its
/// Zero flag tells whether the byte equals A. So CPIR stops at the first byte
/// equal to A, or when BC reaches zero.
#[verifier::rlimit(100)]
#[verifier::spinoff_prover]
pub proof fn lemma_cpir_finds_first(s: CpuView, n: nat, k: nat)
    requires
        s.regs.get16(RegisterCode16::BC) == n,
        n >= 1,
        s.regs.get16(RegisterCode16::HL) + n <= 65536,
        writable_run(s.mem, s.regs.get16(RegisterCode16::HL) as int, n),
        k < n,
        no_match(s.mem, s.regs.get16(RegisterCode16::HL) as int, k, s.regs.a),
    ensures
        ({
            let h = s.regs.get16(RegisterCode16::HL);
            let t = cpir_times(s, k);
            let m = bus_value(s.mem, (h + k) as u16);
            &&& t.regs.get16(RegisterCode16::HL) == h + k
            &&& t.regs.get16(RegisterCode16::BC) == n - k
            &&& t.regs.a == s.regs.a
            &&& t.mem == s.mem
            &&& (cpir_repeats(t) <==> (k + 1 < n && m != s.regs.a))
            &&& cpir_iter(t).regs.f.zero == (m == s.regs.a)
            &&& cpir_iter(t).regs.get16(RegisterCode16::BC) == n - k - 1
        }),
    decreases k,
{
    let h = s.regs.get16(RegisterCode16::HL);
    lemma_cpir_times_unfold(s, 0);
    if k > 0 {
        let k1 = (k - 1) as nat;
        lemma_no_match_shorter(s.mem, h as int, k1, s.regs.a);
        lemma_cpir_finds_first(s, n, k1);
        lemma_cpir_times_unfold(s, k1);
        let p = cpir_times(s, k1);
        lemma_writable_run_at(s.mem, h as int, n, k1 as int);
        lemma_cpir_iter_facts(p);
        assert(p.regs.get16(RegisterCode16::HL) == h + k1);
        assert(step16((h + k1) as u16, true) == h + k);
        assert(wrap16((n - k1) + 65535) == n - k);
    }
    let t = cpir_times(s, k);
    lemma_writable_run_at(s.mem, h as int, n, k as int);
    lemma_cpir_iter_facts(t);
}

} // verus!
