//! The BIOS calls that the core emulates itself when a program raises a
//! software interrupt: reset, memory clearing, halts, division, square root,
//! arc tangent and memory copies. Any other call goes to the BIOS code.
use crate::bitwise::byte_of;
use crate::bus::{bus_address, half_word_aligned, half_word_of, Bus};
use crate::cpu::arm::block_transfer::{
    bus_word, lemma_ram_word_kept, lemma_ram_word_read_back, lemma_read_keeps_bytes, ram_word,
    word_written, wrap32,
};
use crate::cpu::arm::operations::signed32;
use crate::cpu::arm7tdmi::Arm7tdmi;
use crate::cpu::cpu_modes::Mode;
use crate::cpu::psr::Psr;
use vstd::prelude::*;

verus! {

/// Integer division rounding towards zero, as Rust's `/` does.
pub open spec fn trunc_div(a: int, b: int) -> int {
    let q = abs(a) / abs(b);
    if (a < 0) != (b < 0) {
        -q
    } else {
        q
    }
}

/// The absolute value.
pub open spec fn abs(a: int) -> int {
    if a < 0 {
        -a
    } else {
        a
    }
}

/// The remainder that goes with [`trunc_div`]: it has the sign of `a`.
pub open spec fn trunc_rem(a: int, b: int) -> int {
    a - b * trunc_div(a, b)
}

/// Whether `r` is the integer square root of `n`.
pub open spec fn is_isqrt(r: int, n: int) -> bool {
    0 <= r && r * r <= n < (r + 1) * (r + 1)
}

/// The low halfword of a word read as a two's complement number.
pub open spec fn signed16(v: u32) -> int {
    let h = v % 0x1_0000;
    if h >= 0x8000 {
        h - 0x1_0000
    } else {
        h as int
    }
}

/// The registers after a division of `n` by `d`: R0 the quotient, R1 the
/// remainder, R3 the absolute quotient; all three zero for a division by
/// zero.
pub open spec fn divided(regs: Seq<u32>, n: int, d: int) -> Seq<u32> {
    if d == 0 {
        regs.update(0, 0).update(1, 0).update(3, 0)
    } else {
        let q = trunc_div(n, d);
        regs.update(0, wrap32(q)).update(1, wrap32(trunc_rem(n, d))).update(3, abs(q) as u32)
    }
}

/// A word's magnitude and sign as a two's complement number.
fn magnitude(v: u32) -> (r: (u64, bool))
    ensures
        r.1 == (signed32(v) < 0),
        r.0 == abs(signed32(v)),
{
    if v >= 0x8000_0000 {
        ((0x1_0000_0000u64 - v as u64), true)
    } else {
        (v as u64, false)
    }
}

/// A number in two's complement on 32 bits, from its magnitude and sign.
fn from_magnitude(m: u64, negative: bool) -> (r: u32)
    requires
        m <= 0x1_0000_0000,
    ensures
        r == wrap32(if negative {
            -(m as int)
        } else {
            m as int
        }),
{
    let m32 = if m == 0x1_0000_0000 {
        0u32
    } else {
        m as u32
    };
    proof {
        let x: int = 0x1_0000_0000;
        if negative {
            vstd::arithmetic::div_mod::lemma_mod_add_multiples_vanish(-(m as int), x);
            if m == 0 {
            } else {
                vstd::arithmetic::div_mod::lemma_small_mod((x - m) as nat, x as nat);
            }
        } else if m == 0x1_0000_0000 {
            vstd::arithmetic::div_mod::lemma_mod_add_multiples_vanish(0, x);
        } else {
            vstd::arithmetic::div_mod::lemma_small_mod(m as nat, x as nat);
        }
    }
    if negative {
        0u32.wrapping_sub(m32)
    } else {
        m32
    }
}

/// Signed division of `numerator` by `denominator` (as two's complement
/// words), rounding towards zero: the quotient, the remainder and the
/// absolute quotient, or three zeros for a division by zero.
fn signed_division(numerator: u32, denominator: u32) -> (r: (u32, u32, u32))
    requires
        !(signed32(numerator) == -0x8000_0000 && signed32(denominator) == -1),
    ensures
        signed32(denominator) == 0 ==> r == (0u32, 0u32, 0u32),
        signed32(denominator) != 0 ==> {
            let n = signed32(numerator);
            let d = signed32(denominator);
            let q = trunc_div(n, d);
            r == (wrap32(q), wrap32(trunc_rem(n, d)), abs(q) as u32)
        },
{
    if denominator == 0 {
        return (0, 0, 0);
    }
    let (n, n_negative) = magnitude(numerator);
    let (d, d_negative) = magnitude(denominator);
    let q = n / d;
    let m = n % d;
    proof {
        let ni = signed32(numerator);
        let di = signed32(denominator);
        vstd::arithmetic::div_mod::lemma_fundamental_div_mod(n as int, d as int);
        vstd::arithmetic::div_mod::lemma_div_is_ordered_by_denominator(n as int, 1, d as int);
        vstd::arithmetic::div_mod::lemma_div_basics(n as int);
        vstd::arithmetic::div_mod::lemma_mod_bound(n as int, d as int);
        assert(q <= n);
        let qi = trunc_div(ni, di);
        assert(qi == if n_negative != d_negative { -(q as int) } else { q as int });
        assert(trunc_rem(ni, di) == if n_negative { -(m as int) } else { m as int }) by {
            assert(n as int == d * q + m);
            if n_negative != d_negative {
                assert(ni - di * qi == if n_negative { -(n - d * q) } else { n - d * q })
                    by (nonlinear_arith)
                    requires
                        ni == (if n_negative { -(n as int) } else { n as int }),
                        di == (if d_negative { -(d as int) } else { d as int }),
                        qi == -(q as int),
                        n_negative != d_negative,
                ;
            } else {
                assert(ni - di * qi == if n_negative { -(n - d * q) } else { n - d * q })
                    by (nonlinear_arith)
                    requires
                        ni == (if n_negative { -(n as int) } else { n as int }),
                        di == (if d_negative { -(d as int) } else { d as int }),
                        qi == q as int,
                        n_negative == d_negative,
                ;
            }
        }
    }
    let quotient = from_magnitude(q, n_negative != d_negative);
    let remainder = from_magnitude(m, n_negative);
    (quotient, remainder, q as u32)
}

/// The integer square root, by Newton's method from `n` down.
fn integer_sqrt(n: u32) -> (r: u32)
    ensures
        is_isqrt(r as int, n as int),
{
    if n == 0 {
        return 0;
    }
    let ghost s = lemma_isqrt_exists(n as int);
    let mut x = n;
    // Half of n, rounded up.
    let mut y = n / 2 + n % 2;
    proof {
        vstd::arithmetic::div_mod::lemma_div_basics(n as int);
        lemma_mean_above_root(n as int, x as int, s);
        assert(s >= 1) by {
            if s == 0 {
                assert((s + 1) * (s + 1) == 1) by (nonlinear_arith)
                    requires
                        s == 0,
                ;
            }
        }
        assert(s <= n) by {
            assert(s <= s * s) by (nonlinear_arith)
                requires
                    s >= 1,
            ;
        }
    }
    while y < x
        invariant
            0 < x <= n,
            y as int == (x + n / x) / 2,
            is_isqrt(s, n as int),
            1 <= s <= x,
            s <= y,
        decreases x,
    {
        x = y;
        proof {
            lemma_mean_above_root(n as int, x as int, s);
            vstd::arithmetic::div_mod::lemma_div_is_ordered_by_denominator(n as int, 1, x as int);
            vstd::arithmetic::div_mod::lemma_div_basics(n as int);
        }
        y = ((x as u64 + (n / x) as u64) / 2) as u32;
    }
    proof {
        lemma_newton_stops(n as int, x as int, y as int, s);
    }
    x
}

/// Every natural number has an integer square root.
proof fn lemma_isqrt_exists(n: int) -> (s: int)
    requires
        0 <= n,
    ensures
        is_isqrt(s, n),
    decreases n,
{
    if n == 0 {
        assert(is_isqrt(0, 0)) by (nonlinear_arith);
        0
    } else {
        let t = lemma_isqrt_exists(n - 1);
        if (t + 1) * (t + 1) <= n {
            assert((t + 1) * (t + 1) == n) by {
                assert(n - 1 < (t + 1) * (t + 1));
            }
            assert(n < (t + 2) * (t + 2)) by (nonlinear_arith)
                requires
                    (t + 1) * (t + 1) == n,
                    t >= 0,
            ;
            assert(is_isqrt(t + 1, n));
            t + 1
        } else {
            assert(t * t <= n);
            assert(is_isqrt(t, n));
            t
        }
    }
}

/// `s <= (x + n / x) / 2` for the root `s` of `n` and any positive `x`.
proof fn lemma_mean_above_root(n: int, x: int, s: int)
    requires
        0 < x,
        is_isqrt(s, n),
    ensures
        s <= (x + n / x) / 2,
{
    vstd::arithmetic::div_mod::lemma_fundamental_div_mod(n, x);
    vstd::arithmetic::div_mod::lemma_mod_bound(n, x);
    let q = n / x;
    // (q + 1) * x > n >= s * s, and (x - s)^2 >= 0 gives x + q >= 2s - 1;
    // with integers, x + q + 1 > 2s - 1 + ... as below.
    assert(x + q >= 2 * s - 1) by (nonlinear_arith)
        requires
            n == x * q + n % x,
            0 <= n % x < x,
            s * s <= n,
            0 < x,
            0 <= s,
    {
        assert((q + 1) * x > s * s);
        assert((x - s) * (x - s) >= 0);
    }
    assert(x + q >= 2 * s) by (nonlinear_arith)
        requires
            n == x * q + n % x,
            0 <= n % x < x,
            s * s <= n,
            0 < x,
            0 <= s,
            x + q >= 2 * s - 1,
    {
        if x + q == 2 * s - 1 {
            assert(q == 2 * s - 1 - x);
            assert((q + 1) * x == (2 * s - x) * x);
            assert((2 * s - x) * x == s * s - (s - x) * (s - x));
            assert((q + 1) * x <= s * s);
        }
    }
}

/// When the next Newton step no longer goes down, `x` is the root.
proof fn lemma_newton_stops(n: int, x: int, y: int, s: int)
    requires
        0 < x <= n,
        y == (x + n / x) / 2,
        y >= x,
        is_isqrt(s, n),
        s <= x,
    ensures
        is_isqrt(x, n),
{
    vstd::arithmetic::div_mod::lemma_fundamental_div_mod(n, x);
    vstd::arithmetic::div_mod::lemma_mod_bound(n, x);
    let q = n / x;
    // y >= x means n / x >= x, so x * x <= n.
    assert(q >= x);
    assert(x * x <= n) by (nonlinear_arith)
        requires
            n == x * q + n % x,
            0 <= n % x,
            q >= x,
            x > 0,
    ;
    assert(x <= s) by {
        if x > s {
            assert((s + 1) * (s + 1) <= x * x) by (nonlinear_arith)
                requires
                    s + 1 <= x,
                    s >= 0,
            ;
        }
    }
}


/// `buses` is a run of `n` steps of the bus: `step(buses[i], buses[i + 1], i)`
/// for each `i`.
#[verifier::opaque]
pub open spec fn bus_run(buses: Seq<Bus>, n: int, step: spec_fn(Bus, Bus, int) -> bool) -> bool {
    &&& buses.len() == n + 1
    &&& forall|i: int| 0 <= i < n ==> step(#[trigger] buses[i], buses[i + 1], i)
}

/// `new` is `old` after `n` steps.
pub open spec fn runs_to(old: Bus, new: Bus, n: int, step: spec_fn(Bus, Bus, int) -> bool) -> bool {
    exists|buses: Seq<Bus>|
        #![trigger bus_run(buses, n, step)]
        bus_run(buses, n, step) && buses[0] == old && buses[n] == new
}

/// No step takes a bus to itself.
proof fn lemma_run_start(b: Bus, step: spec_fn(Bus, Bus, int) -> bool)
    ensures
        runs_to(b, b, 0, step),
{
    reveal(bus_run);
    assert(bus_run(seq![b], 0, step));
}

/// Step `p` of a run holds between its `p`-th and next bus.
proof fn lemma_run_step(buses: Seq<Bus>, n: int, step: spec_fn(Bus, Bus, int) -> bool, p: int)
    requires
        bus_run(buses, n, step),
        0 <= p < n,
    ensures
        step(buses[p], buses[p + 1], p),
{
    reveal(bus_run);
}

/// One more step extends a run.
proof fn lemma_run_extend(old: Bus, mid: Bus, new: Bus, n: int, step: spec_fn(Bus, Bus, int) -> bool)
    requires
        0 <= n,
        runs_to(old, mid, n, step),
        step(mid, new, n),
    ensures
        runs_to(old, new, n + 1, step),
{
    reveal(bus_run);
    let buses = choose|buses: Seq<Bus>| bus_run(buses, n, step) && buses[0] == old && buses[n] == mid;
    let more = buses.push(new);
    assert forall|i: int| 0 <= i < n + 1 implies step(#[trigger] more[i], more[i + 1], i) by {
        if i < n {
            assert(step(buses[i], buses[i + 1], i));
        }
    }
    assert(bus_run(more, n + 1, step));
}

/// A byte write of `v` at `a` through the bus, counted as one access.
pub open spec fn byte_write_step(old: Bus, new: Bus, a: usize, v: u8) -> bool {
    &&& old.byte_written(new, a, v)
    &&& new.wf()
    &&& new.cycles() == old.cycles() + 1
    &&& new.last_address() == a
}

/// A halfword write of `v` at `a` through the bus, counted as one access.
pub open spec fn half_word_written(old: Bus, new: Bus, a: u32, v: u16) -> bool {
    &&& old.half_word_stored(
        new,
        half_word_aligned(a as usize),
        byte_of(v as u128, 0),
        byte_of(v as u128, 1),
    )
    &&& new.wf()
    &&& new.cycles() == old.cycles() + 1
    &&& new.last_address() == a as usize
}

/// The halfword that a halfword read at `a` gives.
pub open spec fn bus_half_word(bus: Bus, a: usize) -> u16 {
    half_word_of(
        bus.byte_at(bus_address(half_word_aligned(a))),
        bus.byte_at(bus_address((half_word_aligned(a) + 1) as usize)),
    )
}

/// The bus after a read at `a`: one more access, and `a` the last address.
pub open spec fn after_read(bus: Bus, a: usize) -> Bus {
    Bus { cycles_count: (bus.cycles_count + 1) as u128, last_used_address: a, ..bus }
}

/// Step `i` of clearing bytes from `start`: a zero byte at `start + i`.
pub open spec fn clear_step(start: int) -> spec_fn(Bus, Bus, int) -> bool {
    |b: Bus, b2: Bus, i: int| byte_write_step(b, b2, (start + i) as usize, 0)
}

/// Step `i` of filling from `dest` with `value`: a word (or halfword) at
/// `dest` plus `i` units.
pub open spec fn fill_step(dest: int, value: u32, word: bool) -> spec_fn(Bus, Bus, int) -> bool {
    |b: Bus, b2: Bus, i: int|
        if word {
            word_written(b, b2, (dest + 4 * i) as u32, value)
        } else {
            half_word_written(b, b2, (dest + 2 * i) as u32, value as u16)
        }
}

/// Step `i` of copying from `src` to `dest`: the unit `i` is read from the
/// source and written to the destination.
pub open spec fn copy_step(src: int, dest: int, word: bool) -> spec_fn(Bus, Bus, int) -> bool {
    |b: Bus, b2: Bus, i: int|
        if word {
            word_written(
                after_read(b, (src + 4 * i) as usize),
                b2,
                (dest + 4 * i) as u32,
                bus_word(b, (src + 4 * i) as usize),
            )
        } else {
            half_word_written(
                after_read(b, (src + 2 * i) as usize),
                b2,
                (dest + 2 * i) as u32,
                bus_half_word(b, (src + 2 * i) as usize) as u16,
            )
        }
}

/// `new` is `old` with the `len` bytes from `start` cleared when the
/// flags have the bit `bit`, and `old` itself otherwise.
pub open spec fn cleared(old: Bus, new: Bus, flags: u8, bit: u8, start: int, len: int) -> bool {
    if flags & bit != 0 {
        runs_to(old, new, len, clear_step(start))
    } else {
        new == old
    }
}

impl Arm7tdmi {
    /// Writes zero to the `len` bytes from `start`, one byte at a time.
    fn clear_bytes(&mut self, start: usize, len: usize)
        requires
            start + len <= 0x1_0000_0000,
            old(self).bus.wf(),
            old(self).bus.cycles() + len < u128::MAX,
        ensures
            runs_to(old(self).bus, final(self).bus, len as int, clear_step(start as int)),
            final(self).bus.wf(),
            final(self).bus.cycles() == old(self).bus.cycles() + len,
            *final(self) == (Arm7tdmi { bus: final(self).bus, ..*old(self) }),
    {
        let ghost b0 = self.bus;
        proof {
            lemma_run_start(b0, clear_step(start as int));
        }
        let mut i: usize = 0;
        while i < len
            invariant
                i <= len,
                start + len <= 0x1_0000_0000,
                b0.cycles() + len < u128::MAX,
                runs_to(b0, self.bus, i as int, clear_step(start as int)),
                self.bus.wf(),
                self.bus.cycles() == b0.cycles() + i,
                *self == (Arm7tdmi { bus: self.bus, ..*old(self) }),
                b0 == old(self).bus,
            decreases len - i,
        {
            let ghost before = self.bus;
            self.bus.write_byte(start + i, 0);
            proof {
                assert(clear_step(start as int)(before, self.bus, i as int));
                lemma_run_extend(b0, before, self.bus, i as int, clear_step(start as int));
            }
            i = i + 1;
        }
    }
}


/// The source value of a fill: the word, or the halfword, at `src`.
pub open spec fn fill_value(bus: Bus, src: u32, word: bool) -> u32 {
    if word {
        bus_word(bus, src as usize)
    } else {
        bus_half_word(bus, src as usize) as u32
    }
}

/// `new` is `old` after a BIOS copy of `count` units (words or halfwords)
/// from `src` to `dest`, or a fill of them with the unit at `src`.
pub open spec fn units_copied(old: Bus, new: Bus, src: u32, dest: u32, count: int, word: bool, fill: bool) -> bool {
    if fill {
        runs_to(after_read(old, src as usize), new, count, fill_step(dest as int, fill_value(old, src, word), word))
    } else {
        runs_to(old, new, count, copy_step(src as int, dest as int, word))
    }
}

/// The size in bytes of `count` units.
pub open spec fn units_size(count: int, word: bool) -> int {
    if word {
        4 * count
    } else {
        2 * count
    }
}

impl Arm7tdmi {
    /// Copies `count` words (or halfwords) from `src` to `dest`, one read and
    /// one write at a time; a fill reads the unit at `src` once and writes
    /// it `count` times.
    #[verifier::rlimit(40)]
    #[verifier::spinoff_prover]
    fn copy_units(&mut self, src: u32, dest: u32, count: u32, word: bool, fill: bool)
        requires
            count <= 0x1F_FFFF,
            count > 0 ==> dest + units_size(count - 1, word) <= u32::MAX,
            count > 0 && !fill ==> src + units_size(count - 1, word) <= u32::MAX,
            old(self).bus.wf(),
            old(self).bus.cycles() + 2 * count + 1 < u128::MAX,
        ensures
            units_copied(old(self).bus, final(self).bus, src, dest, count as int, word, fill),
            final(self).bus.wf(),
            final(self).bus.cycles() <= old(self).bus.cycles() + 2 * count + 1,
            *final(self) == (Arm7tdmi { bus: final(self).bus, ..*old(self) }),
    {
        proof {
            reveal(bus_word);
        }
        let ghost b0 = self.bus;
        let value = if fill {
            if word {
                self.bus.read_word(src as usize)
            } else {
                self.bus.read_half_word(src as usize) as u32
            }
        } else {
            0
        };
        let ghost start = self.bus;
        let ghost step = if fill {
            fill_step(dest as int, value, word)
        } else {
            copy_step(src as int, dest as int, word)
        };
        proof {
            lemma_run_start(start, step);
        }
        let mut i: u32 = 0;
        while i < count
            invariant
                i <= count <= 0x1F_FFFF,
                count > 0 ==> dest + units_size(count - 1, word) <= u32::MAX,
                count > 0 && !fill ==> src + units_size(count - 1, word) <= u32::MAX,
                step == if fill {
                    fill_step(dest as int, value, word)
                } else {
                    copy_step(src as int, dest as int, word)
                },
                fill ==> value == fill_value(b0, src, word) && start == after_read(b0, src as usize),
                !fill ==> start == b0,
                runs_to(start, self.bus, i as int, step),
                self.bus.wf(),
                self.bus.cycles() <= b0.cycles() + 2 * i + 1,
                b0.cycles() + 2 * count + 1 < u128::MAX,
                *self == (Arm7tdmi { bus: self.bus, ..*old(self) }),
            decreases count - i,
        {
            let ghost before = self.bus;
            let offset = if word {
                i * 4
            } else {
                i * 2
            };
            if fill {
                if word {
                    self.bus.write_word((dest + offset) as usize, value);
                } else {
                    self.bus.write_half_word((dest + offset) as usize, value as u16);
                }
            } else {
                if word {
                    let v = self.bus.read_word((src + offset) as usize);
                    self.bus.write_word((dest + offset) as usize, v);
                } else {
                    let v = self.bus.read_half_word((src + offset) as usize) as u32;
                    self.bus.write_half_word((dest + offset) as usize, v as u16);
                }
            }
            proof {
                reveal(bus_word);
                assert(step(before, self.bus, i as int));
                lemma_run_extend(start, before, self.bus, i as int, step);
            }
            i = i + 1;
        }
    }
}


/// An ArcTan2 call (0x0A) waiting for its angle: the point's coordinates
/// are the low halfwords of R0 (x) and R1 (y), as two's complement numbers;
/// the angle, from 0 to 2 pi scaled to 0 to 0x10000, is computed in floating
/// point by the host and handed to [`Arm7tdmi::complete_arctan2`].
#[derive(Copy, Clone, Debug, PartialEq, Eq, Structural)]
pub struct ArcTan2Request {
    /// R0 when the call was made.
    pub x: u32,
    /// R1 when the call was made.
    pub y: u32,
    /// The CPSR to return with.
    pub old_cpsr: Psr,
    /// The address to return to.
    pub return_addr: u32,
}

/// What an emulated BIOS call leaves to be done.
#[derive(Copy, Clone, Debug, PartialEq, Eq, Structural)]
pub enum SwiOutcome {
    /// The call was emulated in full.
    Handled,
    /// The call is not emulated: the BIOS code runs it.
    Bios,
    /// ArcTan2 waits for the host's angle.
    ArcTan2(ArcTan2Request),
}

/// The outcome that each BIOS call gets.
pub open spec fn swi_outcome(swi_num: u32, request: ArcTan2Request) -> SwiOutcome {
    if swi_num == 0x0A {
        SwiOutcome::ArcTan2(request)
    } else if swi_num <= 0x0C {
        SwiOutcome::Handled
    } else {
        SwiOutcome::Bios
    }
}

impl Arm7tdmi {
    /// `new` is `self` after a return from an emulated BIOS call with the
    /// registers `regs` (before the program counter is set): the CPSR is
    /// the caller's, the program counter the return address, and the
    /// pipeline is emptied; the bus is left to the call.
    pub open spec fn swi_returned(self, new: Self, regs: Seq<u32>, old_cpsr: Psr, return_addr: u32) -> bool {
        &&& new.registers.0@ == regs.update(15, return_addr)
        &&& new.cpsr == old_cpsr
        &&& new.spsr == self.spsr
        &&& new.register_bank == self.register_bank
        &&& new.fetched_arm is None
        &&& new.decoded_arm is None
        &&& new.current_cycle == self.current_cycle
    }

    /// `new` is `self` after SoftReset (0x00): the top 0x200 bytes of the
    /// internal work RAM are cleared, R0 to R12 are zeroed, the CPSR goes
    /// to System mode with IRQs enabled in ARM state, R13 is the System
    /// stack pointer, and the program counter jumps to ROM, or to work RAM
    /// when the byte at 0x03007FFA is not zero.
    pub open spec fn soft_reset_done(self, new: Self) -> bool {
        exists|cleared_bus: Bus|
            #[trigger] runs_to(self.bus, cleared_bus, 0x200, clear_step(0x0300_7E00)) && {
                let flag = cleared_bus.byte_at(bus_address(0x0300_7FFA));
                let entry: u32 = if flag == 0 {
                    0x0800_0000
                } else {
                    0x0200_0000
                };
                &&& new.bus == after_read(cleared_bus, 0x0300_7FFA)
                &&& new.registers.0@ == Seq::new(
                    16,
                    |i: int|
                        if i <= 12 {
                            0u32
                        } else if i == 13 {
                            0x0300_7F00u32
                        } else if i == 14 {
                            self.reg(14)
                        } else {
                            entry
                        },
                )
                &&& new.cpsr == self.cpsr.with_mode_bits(Mode::Supervisor.code()).with_mode_bits(
                    Mode::Irq.code(),
                ).with_mode_bits(Mode::System.code()).with_flag(7, false).with_flag(5, false)
                &&& new.spsr == self.spsr
                &&& new.register_bank == self.register_bank
                &&& new.fetched_arm is None
                &&& new.decoded_arm is None
                &&& new.current_cycle == self.current_cycle
            }
    }

    /// `new.bus` is `self.bus` after RegisterRamReset (0x01) with the flags
    /// in the low byte of R0: bit 0 clears the work RAM but its top 0x200
    /// bytes, bit 2 palette RAM, bit 3 video RAM and bit 4 object
    /// attributes, one byte write at a time; bit 1 (internal work RAM) is
    /// left alone, and the I/O bits 5 to 7 do nothing.
    pub open spec fn ram_reset_done(self, new: Self) -> bool {
        let flags = self.reg(0) as u8;
        exists|b1: Bus, b2: Bus, b3: Bus|
            #![trigger cleared(self.bus, b1, flags, 0x01, 0x0200_0000, 0x3_FE00), cleared(b1, b2, flags, 0x04, 0x0500_0000, 0x400), cleared(b2, b3, flags, 0x08, 0x0600_0000, 0x1_8000)]
            cleared(self.bus, b1, flags, 0x01, 0x0200_0000, 0x3_FE00) && cleared(
                b1,
                b2,
                flags,
                0x04,
                0x0500_0000,
                0x400,
            ) && cleared(b2, b3, flags, 0x08, 0x0600_0000, 0x1_8000) && cleared(
                b3,
                new.bus,
                flags,
                0x10,
                0x0700_0000,
                0x400,
            )
    }

    /// `new` is `self` after the emulated BIOS call `swi_num`, made from
    /// the state `old_cpsr` and returning to `return_addr`: the calls that
    /// are emulated do their work and return; ArcTan2 and the calls that
    /// are not emulated change nothing.
    pub open spec fn swi_hle_done(self, new: Self, swi_num: u32, old_cpsr: Psr, return_addr: u32) -> bool {
        let regs = self.registers.0@;
        let control = self.reg(2);
        let count = (control & 0x1F_FFFF) as int;
        let fill = control & 0x100_0000 != 0;
        if swi_num == 0x00 {
            self.soft_reset_done(new)
        } else if swi_num == 0x01 {
            self.ram_reset_done(new) && self.swi_returned(new, regs, old_cpsr, return_addr)
        } else if 0x02 <= swi_num <= 0x05 {
            new.bus == self.bus && self.swi_returned(new, regs, old_cpsr, return_addr)
        } else if swi_num == 0x06 {
            new.bus == self.bus && self.swi_returned(
                new,
                divided(regs, signed32(self.reg(0)), signed32(self.reg(1))),
                old_cpsr,
                return_addr,
            )
        } else if swi_num == 0x07 {
            new.bus == self.bus && self.swi_returned(
                new,
                divided(regs, signed32(self.reg(1)), signed32(self.reg(0))),
                old_cpsr,
                return_addr,
            )
        } else if swi_num == 0x08 {
            new.bus == self.bus && is_isqrt(new.reg(0) as int, self.reg(0) as int)
                && self.swi_returned(new, regs.update(0, new.reg(0)), old_cpsr, return_addr)
        } else if swi_num == 0x09 {
            new.bus == self.bus && self.swi_returned(
                new,
                regs.update(0, wrap32(trunc_div(signed16(self.reg(0)), 2))),
                old_cpsr,
                return_addr,
            )
        } else if swi_num == 0x0B {
            units_copied(
                self.bus,
                new.bus,
                self.reg(0),
                self.reg(1),
                count,
                control & 0x400_0000 != 0,
                fill,
            ) && self.swi_returned(new, regs, old_cpsr, return_addr)
        } else if swi_num == 0x0C {
            units_copied(self.bus, new.bus, self.reg(0), self.reg(1), count, true, fill)
                && self.swi_returned(new, regs, old_cpsr, return_addr)
        } else {
            new == self
        }
    }

    /// What the emulated BIOS calls ask of the machine: room on the access
    /// counter, no division of the most negative number by -1 (which
    /// overflows), and copies and fills that stay below 2^32.
    pub open spec fn swi_hle_allowed(self, swi_num: u32) -> bool {
        let control = self.reg(2);
        let count = (control & 0x1F_FFFF) as int;
        let fill = control & 0x100_0000 != 0;
        let word = swi_num == 0x0C || control & 0x400_0000 != 0;
        &&& self.bus.wf()
        &&& self.bus.cycles() < u128::MAX - 0x100_0000
        &&& swi_num == 0x06 ==> !(signed32(self.reg(0)) == -0x8000_0000 && signed32(self.reg(1)) == -1)
        &&& swi_num == 0x07 ==> !(signed32(self.reg(1)) == -0x8000_0000 && signed32(self.reg(0)) == -1)
        &&& (swi_num == 0x0B || swi_num == 0x0C) && count > 0 ==> {
            &&& self.reg(1) + units_size(count - 1, word) <= u32::MAX
            &&& !fill ==> self.reg(0) + units_size(count - 1, word) <= u32::MAX
        }
    }

    /// Returns from an emulated BIOS call: the caller's CPSR comes back, the
    /// program counter goes to the return address and the pipeline is
    /// emptied.
    fn swi_return(&mut self, old_cpsr: Psr, return_addr: u32)
        ensures
            old(self).swi_returned(*final(self), old(self).registers.0@, old_cpsr, return_addr),
            final(self).bus == old(self).bus,
    {
        self.cpsr = old_cpsr;
        self.registers.set_program_counter(return_addr);
        self.flush_pipeline();
    }

    /// SoftReset (0x00): see [`Arm7tdmi::soft_reset_done`].
    fn soft_reset(&mut self)
        requires
            old(self).bus.wf(),
            old(self).bus.cycles() < u128::MAX - 0x1000,
        ensures
            old(self).soft_reset_done(*final(self)),
            final(self).bus.wf(),
            final(self).bus.cycles() == old(self).bus.cycles() + 0x201,
    {
        let ghost s0 = *self;
        self.clear_bytes(0x0300_7E00, 0x200);
        let ghost cleared_bus = self.bus;
        let flag = self.bus.read_byte(0x0300_7FFA);
        let entry_point: u32 = if flag == 0 {
            0x0800_0000
        } else {
            0x0200_0000
        };
        let mut i: usize = 0;
        while i <= 12
            invariant
                i <= 13,
                forall|j: int| 0 <= j < i ==> self.registers.0@[j] == 0,
                forall|j: int| i <= j < 16 ==> self.registers.0@[j] == s0.registers.0@[j],
                self.cpsr == s0.cpsr,
                self.spsr == s0.spsr,
                self.register_bank == s0.register_bank,
                self.fetched_arm == s0.fetched_arm,
                self.decoded_arm == s0.decoded_arm,
                self.current_cycle == s0.current_cycle,
                self.bus == after_read(cleared_bus, 0x0300_7FFA),
            decreases 13 - i,
        {
            self.registers.set_register_at(i, 0);
            i = i + 1;
        }
        // The stack pointers of Supervisor, IRQ and System mode are
        // set one after the other through the current R13.
        self.cpsr.set_mode(Mode::Supervisor);
        self.registers.set_register_at(13, 0x0300_7FE0);
        self.cpsr.set_mode(Mode::Irq);
        self.registers.set_register_at(13, 0x0300_7FA0);
        self.cpsr.set_mode(Mode::System);
        self.registers.set_register_at(13, 0x0300_7F00);
        self.cpsr.set_irq_disable(false);
        self.cpsr.set_state_bit(false);
        self.registers.set_program_counter(entry_point);
        self.flush_pipeline();
        proof {
            let entry: u32 = if cleared_bus.byte_at(bus_address(0x0300_7FFA)) == 0 {
                0x0800_0000
            } else {
                0x0200_0000
            };
            assert(self.registers.0@ =~= Seq::new(
                16,
                |i: int|
                    if i <= 12 {
                        0u32
                    } else if i == 13 {
                        0x0300_7F00u32
                    } else if i == 14 {
                        s0.reg(14)
                    } else {
                        entry
                    },
            ));
        }
    }

    /// RegisterRamReset (0x01): see [`Arm7tdmi::ram_reset_done`].
    #[verifier::rlimit(40)]
    #[verifier::spinoff_prover]
    fn register_ram_reset(&mut self, old_cpsr: Psr, return_addr: u32)
        requires
            old(self).bus.wf(),
            old(self).bus.cycles() < u128::MAX - 0x10_0000,
        ensures
            old(self).ram_reset_done(*final(self)),
            old(self).swi_returned(*final(self), old(self).registers.0@, old_cpsr, return_addr),
            final(self).bus.wf(),
            final(self).bus.cycles() <= old(self).bus.cycles() + 0x6_0000,
    {
        let ghost s0 = *self;
        let flags = self.registers.register_at(0) as u8;
        let ghost b0 = self.bus;
        // Work RAM but its top 0x200 bytes.
        if flags & 0x01 != 0 {
            self.clear_bytes(0x0200_0000, 0x3_FE00);
        }
        let ghost b1 = self.bus;
        // The internal work RAM is left alone: the interrupt handlers
        // that programs put there before the call must survive it.
        // Palette RAM.
        if flags & 0x04 != 0 {
            self.clear_bytes(0x0500_0000, 0x400);
        }
        let ghost b2 = self.bus;
        // Video RAM.
        if flags & 0x08 != 0 {
            self.clear_bytes(0x0600_0000, 0x1_8000);
        }
        let ghost b3 = self.bus;
        // Object attributes.
        if flags & 0x10 != 0 {
            self.clear_bytes(0x0700_0000, 0x400);
        }
        // The I/O registers (bits 5 to 7) are not reset.
        let ghost b4 = self.bus;
        self.swi_return(old_cpsr, return_addr);
        proof {
            assert(cleared(b0, b1, flags, 0x01, 0x0200_0000, 0x3_FE00));
            assert(cleared(b1, b2, flags, 0x04, 0x0500_0000, 0x400));
            assert(cleared(b2, b3, flags, 0x08, 0x0600_0000, 0x1_8000));
            assert(cleared(b3, b4, flags, 0x10, 0x0700_0000, 0x400));
            assert(self.bus == b4);
            assert(flags == s0.reg(0) as u8);
            assert(s0.ram_reset_done(*self));
        }
    }

    /// Handles the BIOS call `swi_num` itself where it can: the outcome
    /// says whether it did, whether the BIOS code must run it, or whether
    /// the host must compute an arc tangent.
    pub fn handle_swi_hle(&mut self, swi_num: u32, old_cpsr: Psr, return_addr: u32) -> (r: SwiOutcome)
        requires
            old(self).swi_hle_allowed(swi_num),
        ensures
            r == swi_outcome(
                swi_num,
                ArcTan2Request { x: old(self).reg(0), y: old(self).reg(1), old_cpsr, return_addr },
            ),
            old(self).swi_hle_done(*final(self), swi_num, old_cpsr, return_addr),
            final(self).bus.wf(),
            final(self).bus.cycles() <= old(self).bus.cycles() + 0x80_0000,
    {
        match swi_num {
            // SoftReset.
            0x00 => {
                self.soft_reset();
                SwiOutcome::Handled
            },
            // RegisterRamReset.
            0x01 => {
                self.register_ram_reset(old_cpsr, return_addr);
                SwiOutcome::Handled
            },
            // Halt, Stop, IntrWait and VBlankIntrWait return at once: the
            // caller's loop waits for the interrupt.
            0x02 | 0x03 | 0x04 | 0x05 => {
                self.swi_return(old_cpsr, return_addr);
                SwiOutcome::Handled
            },
            // Div: R0 / R1.
            0x06 => {
                let (q, m, a) = signed_division(
                    self.registers.register_at(0),
                    self.registers.register_at(1),
                );
                self.registers.set_register_at(0, q);
                self.registers.set_register_at(1, m);
                self.registers.set_register_at(3, a);
                self.swi_return(old_cpsr, return_addr);
                SwiOutcome::Handled
            },
            // DivArm: R1 / R0.
            0x07 => {
                let (q, m, a) = signed_division(
                    self.registers.register_at(1),
                    self.registers.register_at(0),
                );
                self.registers.set_register_at(0, q);
                self.registers.set_register_at(1, m);
                self.registers.set_register_at(3, a);
                self.swi_return(old_cpsr, return_addr);
                SwiOutcome::Handled
            },
            // Sqrt.
            0x08 => {
                let result = integer_sqrt(self.registers.register_at(0));
                self.registers.set_register_at(0, result);
                self.swi_return(old_cpsr, return_addr);
                SwiOutcome::Handled
            },
            // ArcTan, approximated by tan / 2 for the small angles it serves.
            0x09 => {
                let result = half_of_signed_halfword(self.registers.register_at(0));
                self.registers.set_register_at(0, result);
                self.swi_return(old_cpsr, return_addr);
                SwiOutcome::Handled
            },
            // ArcTan2 needs floating point: the host computes the angle.
            0x0A => SwiOutcome::ArcTan2(
                ArcTan2Request {
                    x: self.registers.register_at(0),
                    y: self.registers.register_at(1),
                    old_cpsr,
                    return_addr,
                },
            ),
            // CpuSet: halfwords or words (bit 26), copied or filled (bit 24).
            0x0B => {
                let src = self.registers.register_at(0);
                let dest = self.registers.register_at(1);
                let control = self.registers.register_at(2);
                let count = control & 0x1F_FFFF;
                let is_32bit = control & 0x400_0000 != 0;
                let is_fill = control & 0x100_0000 != 0;
                proof {
                    assert(control & 0x1F_FFFF <= 0x1F_FFFF) by (bit_vector);
                }
                self.copy_units(src, dest, count, is_32bit, is_fill);
                self.swi_return(old_cpsr, return_addr);
                SwiOutcome::Handled
            },
            // CpuFastSet: words, copied or filled (bit 24).
            0x0C => {
                let src = self.registers.register_at(0);
                let dest = self.registers.register_at(1);
                let control = self.registers.register_at(2);
                let count = control & 0x1F_FFFF;
                let is_fill = control & 0x100_0000 != 0;
                proof {
                    assert(control & 0x1F_FFFF <= 0x1F_FFFF) by (bit_vector);
                }
                self.copy_units(src, dest, count, true, is_fill);
                self.swi_return(old_cpsr, return_addr);
                SwiOutcome::Handled
            },
            // Any other call runs in the BIOS code.
            _ => SwiOutcome::Bios,
        }
    }

    /// Finishes an ArcTan2 call with the host's `angle`: R0 takes its low
    /// halfword, and the call returns.
    pub fn complete_arctan2(&mut self, request: ArcTan2Request, angle: u32)
        ensures
            final(self).bus == old(self).bus,
            old(self).swi_returned(
                *final(self),
                old(self).registers.0@.update(0, angle & 0xFFFF),
                request.old_cpsr,
                request.return_addr,
            ),
    {
        self.registers.set_register_at(0, angle & 0xFFFF);
        self.swi_return(request.old_cpsr, request.return_addr);
    }
}

/// Half of the low halfword of `v` as a two's complement number, rounded
/// towards zero, as a word.
fn half_of_signed_halfword(v: u32) -> (r: u32)
    ensures
        r == wrap32(trunc_div(signed16(v), 2)),
{
    let h = v % 0x1_0000;
    let (m, negative) = if h >= 0x8000 {
        ((0x1_0000 - h) as u64, true)
    } else {
        (h as u64, false)
    };
    from_magnitude(m / 2, negative)
}


/// The BIOS division is Euclid's with the quotient rounded towards zero:
/// quotient times denominator plus remainder is the numerator, the
/// remainder is smaller than the denominator in size, and it is zero or has
/// the numerator's sign.
pub proof fn lemma_division(n: int, d: int)
    requires
        d != 0,
    ensures
        d * trunc_div(n, d) + trunc_rem(n, d) == n,
        abs(trunc_rem(n, d)) < abs(d),
        trunc_rem(n, d) == 0 || (trunc_rem(n, d) < 0) == (n < 0),
{
    let an = abs(n);
    let ad = abs(d);
    let q = an / ad;
    let r = an % ad;
    vstd::arithmetic::div_mod::lemma_fundamental_div_mod(an, ad);
    vstd::arithmetic::div_mod::lemma_mod_bound(an, ad);
    let tq = trunc_div(n, d);
    assert(trunc_rem(n, d) == if n < 0 { -r } else { r }) by (nonlinear_arith)
        requires
            an == ad * q + r,
            an == (if n < 0 { -n } else { n }),
            ad == (if d < 0 { -d } else { d }),
            tq == (if (n < 0) != (d < 0) { -q } else { q }),
            trunc_rem(n, d) == n - d * tq,
    ;
}


/// Whether the `n` words from `a` are aligned words of work RAM, in the
/// first copy of one of its two memories.
pub open spec fn ram_block(a: int, n: int) -> bool {
    &&& a % 4 == 0
    &&& (0x0200_0000 <= a && a + 4 * n <= 0x0204_0000) || (0x0300_0000 <= a && a + 4 * n
        <= 0x0300_8000)
}

/// What the first `i` steps of a word copy between disjoint blocks of work
/// RAM leave in `b`: the words copied so far hold the source words, and the
/// source is untouched.
pub open spec fn copied_so_far(old: Bus, b: Bus, src: u32, dest: u32, count: int, i: int) -> bool {
    &&& b.wf()
    &&& forall|k: int|
        0 <= k < i ==> bus_word(b, #[trigger] ((dest + 4 * k) as usize)) == bus_word(
            old,
            (src + 4 * k) as usize,
        )
    &&& forall|j: int|
        0 <= j < count ==> bus_word(b, #[trigger] ((src + 4 * j) as usize)) == bus_word(
            old,
            (src + 4 * j) as usize,
        )
}

/// One unit of a word copy in work RAM: the destination word takes the
/// source word, and every other word of work RAM is left as it was.
proof fn lemma_copy_unit(b: Bus, b2: Bus, s: u32, d: u32)
    requires
        b.wf(),
        ram_word(s as int),
        ram_word(d as int),
        word_written(after_read(b, s as usize), b2, d, bus_word(b, s as usize)),
    ensures
        b2.wf(),
        bus_word(b2, d as usize) == bus_word(b, s as usize),
        forall|x: u32|
            ram_word(x as int) && x != d ==> bus_word(b2, #[trigger] (x as usize)) == bus_word(
                b,
                x as usize,
            ),
{
    let read = after_read(b, s as usize);
    let v = bus_word(b, s as usize);
    lemma_ram_word_read_back(read, b2, d, v);
    assert forall|x: u32| ram_word(x as int) && x != d implies bus_word(
        b2,
        #[trigger] (x as usize),
    ) == bus_word(b, x as usize) by {
        lemma_ram_word_kept(read, b2, d, v, x);
        lemma_read_keeps_bytes(b, read.cycles_count, read.last_used_address, x as usize);
    }
}

/// One more step of a word copy between disjoint blocks of work RAM.
#[verifier::spinoff_prover]
proof fn lemma_copy_step(old: Bus, b: Bus, b2: Bus, src: u32, dest: u32, count: int, p: int)
    requires
        copied_so_far(old, b, src, dest, count, p),
        0 <= p < count,
        ram_block(src as int, count),
        ram_block(dest as int, count),
        src + 4 * count <= dest || dest + 4 * count <= src,
        b2.wf(),
        bus_word(b2, (dest + 4 * p) as u32 as usize) == bus_word(b, (src + 4 * p) as usize),
        forall|x: u32|
            ram_word(x as int) && x != (dest + 4 * p) as u32 ==> bus_word(
                b2,
                #[trigger] (x as usize),
            ) == bus_word(b, x as usize),
    ensures
        copied_so_far(old, b2, src, dest, count, p + 1),
{
    let d_p = (dest + 4 * p) as u32;
    assert forall|k: int| 0 <= k < p + 1 implies bus_word(b2, #[trigger] ((dest + 4 * k) as usize))
        == bus_word(old, (src + 4 * k) as usize) by {
        if k < p {
            let d_k = (dest + 4 * k) as u32;
            assert(ram_word(d_k as int));
            assert(bus_word(b2, d_k as usize) == bus_word(b, d_k as usize));
        } else {
            assert(bus_word(b, (src + 4 * k) as usize) == bus_word(old, (src + 4 * k) as usize));
        }
    }
    assert forall|j: int| 0 <= j < count implies bus_word(b2, #[trigger] ((src + 4 * j) as usize))
        == bus_word(old, (src + 4 * j) as usize) by {
        let s_j = (src + 4 * j) as u32;
        assert(ram_word(s_j as int));
        assert(bus_word(b2, s_j as usize) == bus_word(b, s_j as usize));
    }
}

/// The first `i` steps of a word copy between disjoint blocks of work RAM.
#[verifier::spinoff_prover]
proof fn lemma_copy_run(
    old: Bus,
    buses: Seq<Bus>,
    src: u32,
    dest: u32,
    count: int,
    i: int,
)
    requires
        bus_run(buses, count, copy_step(src as int, dest as int, true)),
        buses[0] == old,
        old.wf(),
        0 <= i <= count,
        ram_block(src as int, count),
        ram_block(dest as int, count),
        src + 4 * count <= dest || dest + 4 * count <= src,
    ensures
        copied_so_far(old, buses[i], src, dest, count, i),
    decreases i,
{
    if i > 0 {
        let p = i - 1;
        lemma_copy_run(old, buses, src, dest, count, p);
        lemma_run_step(buses, count, copy_step(src as int, dest as int, true), p);
        lemma_copy_unit(buses[p], buses[i], (src + 4 * p) as u32, (dest + 4 * p) as u32);
        lemma_copy_step(old, buses[p], buses[i], src, dest, count, p);
    }
}

/// A word copy of the BIOS (CpuSet or CpuFastSet) between two disjoint
/// blocks of work RAM copies: each destination word holds the source word.
pub proof fn lemma_word_copy(old: Bus, new: Bus, src: u32, dest: u32, count: int)
    requires
        old.wf(),
        units_copied(old, new, src, dest, count, true, false),
        0 <= count,
        ram_block(src as int, count),
        ram_block(dest as int, count),
        src + 4 * count <= dest || dest + 4 * count <= src,
    ensures
        forall|k: int|
            0 <= k < count ==> bus_word(new, #[trigger] ((dest + 4 * k) as usize)) == bus_word(
                old,
                (src + 4 * k) as usize,
            ),
{
    let step = copy_step(src as int, dest as int, true);
    let buses = choose|buses: Seq<Bus>|
        bus_run(buses, count, step) && buses[0] == old && buses[count] == new;
    lemma_copy_run(old, buses, src, dest, count, count);
    assert(copied_so_far(old, new, src, dest, count, count));
}


/// What the first `i` steps of a word fill of work RAM leave in `b`: the
/// words filled so far hold the value.
pub open spec fn filled_so_far(b: Bus, dest: u32, value: u32, i: int) -> bool {
    &&& b.wf()
    &&& forall|k: int| 0 <= k < i ==> bus_word(b, #[trigger] ((dest + 4 * k) as usize)) == value
}

/// One word of a fill of work RAM: it takes the value, and every other
/// word of work RAM is left as it was.
proof fn lemma_fill_unit(b: Bus, b2: Bus, d: u32, v: u32)
    requires
        b.wf(),
        ram_word(d as int),
        word_written(b, b2, d, v),
    ensures
        b2.wf(),
        bus_word(b2, d as usize) == v,
        forall|x: u32|
            ram_word(x as int) && x != d ==> bus_word(b2, #[trigger] (x as usize)) == bus_word(
                b,
                x as usize,
            ),
{
    lemma_ram_word_read_back(b, b2, d, v);
    assert forall|x: u32| ram_word(x as int) && x != d implies bus_word(
        b2,
        #[trigger] (x as usize),
    ) == bus_word(b, x as usize) by {
        lemma_ram_word_kept(b, b2, d, v, x);
    }
}

/// One more step of a word fill of work RAM.
#[verifier::spinoff_prover]
proof fn lemma_fill_step(b: Bus, b2: Bus, dest: u32, value: u32, count: int, p: int)
    requires
        filled_so_far(b, dest, value, p),
        0 <= p < count,
        ram_block(dest as int, count),
        b2.wf(),
        bus_word(b2, (dest + 4 * p) as u32 as usize) == value,
        forall|x: u32|
            ram_word(x as int) && x != (dest + 4 * p) as u32 ==> bus_word(
                b2,
                #[trigger] (x as usize),
            ) == bus_word(b, x as usize),
    ensures
        filled_so_far(b2, dest, value, p + 1),
{
    assert forall|k: int| 0 <= k < p + 1 implies bus_word(b2, #[trigger] ((dest + 4 * k) as usize))
        == value by {
        if k < p {
            let d_k = (dest + 4 * k) as u32;
            assert(ram_word(d_k as int));
            assert(bus_word(b2, d_k as usize) == bus_word(b, d_k as usize));
        }
    }
}

/// The first `i` steps of a word fill of work RAM.
#[verifier::spinoff_prover]
proof fn lemma_fill_run(buses: Seq<Bus>, dest: u32, value: u32, count: int, i: int)
    requires
        bus_run(buses, count, fill_step(dest as int, value, true)),
        buses[0].wf(),
        0 <= i <= count,
        ram_block(dest as int, count),
    ensures
        filled_so_far(buses[i], dest, value, i),
    decreases i,
{
    if i > 0 {
        let p = i - 1;
        lemma_fill_run(buses, dest, value, count, p);
        lemma_run_step(buses, count, fill_step(dest as int, value, true), p);
        lemma_fill_unit(buses[p], buses[i], (dest + 4 * p) as u32, value);
        lemma_fill_step(buses[p], buses[i], dest, value, count, p);
    }
}

/// A word fill of the BIOS (CpuSet or CpuFastSet with the fill bit) of a
/// block of work RAM fills: every destination word holds the word that was
/// read at the source.
pub proof fn lemma_word_fill(old: Bus, new: Bus, src: u32, dest: u32, count: int)
    requires
        old.wf(),
        units_copied(old, new, src, dest, count, true, true),
        0 <= count,
        ram_block(dest as int, count),
    ensures
        forall|k: int|
            0 <= k < count ==> bus_word(new, #[trigger] ((dest + 4 * k) as usize)) == bus_word(
                old,
                src as usize,
            ),
{
    let value = fill_value(old, src, true);
    let step = fill_step(dest as int, value, true);
    let start = after_read(old, src as usize);
    let buses = choose|buses: Seq<Bus>|
        bus_run(buses, count, step) && buses[0] == start && buses[count] == new;
    lemma_fill_run(buses, dest, value, count, count);
    assert(filled_so_far(new, dest, value, count));
}

} // verus!
