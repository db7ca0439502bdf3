//! Block data transfers (LDM and STM): a list of registers loaded from or
//! stored to consecutive words, the lowest register at the lowest address.
use crate::bitwise::byte_of;
use crate::bus::{
    bus_address, cell, keeps_writes, lemma_bus_address_small, lemma_word_write_then_read,
    lemma_write_keeps_other_cells, word_aligned, word_of, Bus,
};
use crate::cpu::arm::operations::{address_index, register_index};
use crate::cpu::arm7tdmi::{user_bank_written, user_register, Arm7tdmi};
use crate::cpu::flags::{Indexing, LoadStoreKind, Offsetting};
use crate::cpu::register_bank::RegisterBank;
use vstd::prelude::*;

verus! {

/// Whether register `r` is in the register list `list` (bit `r` is set).
pub open spec fn listed(list: u32, r: int) -> bool {
    0 <= r < 32 && (list >> (r as u32)) & 1 == 1
}

/// The number of registers below `n` in the list.
pub open spec fn count_listed(list: u32, n: int) -> nat
    decreases n,
{
    if n <= 0 {
        0
    } else {
        count_listed(list, n - 1) + if listed(list, n - 1) {
            1nat
        } else {
            0nat
        }
    }
}

/// The listed registers below `n`, lowest first.
pub open spec fn listed_upto(list: u32, n: int) -> Seq<int>
    decreases n,
{
    if n <= 0 {
        Seq::empty()
    } else if listed(list, n - 1) {
        listed_upto(list, n - 1).push(n - 1)
    } else {
        listed_upto(list, n - 1)
    }
}

/// The listed registers from `n` to R15, highest first.
pub open spec fn listed_down_to(list: u32, n: int) -> Seq<int>
    decreases 16 - n,
{
    if n >= 16 {
        Seq::empty()
    } else if listed(list, n) {
        listed_down_to(list, n + 1).push(n)
    } else {
        listed_down_to(list, n + 1)
    }
}

/// The order in which the registers are transferred: upwards when the
/// address grows, downwards when it shrinks.
pub open spec fn transfer_order(list: u32, up: bool) -> Seq<int> {
    if up {
        listed_upto(list, 16)
    } else {
        listed_down_to(list, 0)
    }
}

/// `x` modulo 2^32.
pub open spec fn wrap32(x: int) -> u32 {
    (x % 0x1_0000_0000) as u32
}

/// The distance from the base to the lowest address of a block of `n`
/// words: increment after, increment before, decrement after, decrement
/// before.
pub open spec fn lowest_offset(n: int, indexing: Indexing, offsetting: Offsetting) -> int {
    match (indexing, offsetting) {
        (Indexing::Post, Offsetting::Up) => 0,
        (Indexing::Pre, Offsetting::Up) => 4,
        (Indexing::Post, Offsetting::Down) => 4 - 4 * n,
        (Indexing::Pre, Offsetting::Down) => -4 * n,
    }
}

/// The address of register `r` in a block transfer from base `b`: the
/// listed registers take consecutive words from the lowest address up.
pub open spec fn block_address(
    b: u32,
    list: u32,
    indexing: Indexing,
    offsetting: Offsetting,
    r: int,
) -> u32 {
    wrap32(b + lowest_offset(count_listed(list, 16) as int, indexing, offsetting) + 4 * count_listed(list, r))
}

/// The address that an empty register list transfers R15 at: that of R15
/// in a list of all 16 registers.
pub open spec fn empty_list_address(b: u32, indexing: Indexing, offsetting: Offsetting) -> u32 {
    wrap32(b + lowest_offset(16, indexing, offsetting))
}

/// The word that a word read at `a` gives: the word holding `a`.
#[verifier::opaque]
pub open spec fn bus_word(bus: Bus, a: usize) -> u32 {
    word_of(
        bus.byte_at(bus_address(word_aligned(a))),
        bus.byte_at(bus_address((word_aligned(a) + 1) as usize)),
        bus.byte_at(bus_address((word_aligned(a) + 2) as usize)),
        bus.byte_at(bus_address((word_aligned(a) + 3) as usize)),
    )
}

/// The value a store takes from register `r`: the User mode register when
/// `user`, and R15 reads 12 bytes past the instruction.
pub open spec fn stored_word(regs: Seq<u32>, bank: RegisterBank, user: bool, r: int) -> u32 {
    let v = if user {
        user_register(bank, regs, r)
    } else {
        regs[r]
    };
    if r == 15 {
        (v + 4) as u32
    } else {
        v
    }
}

/// Whether a load into register `r` goes to the bank: R8 to R14 of User
/// mode when `user`.
pub open spec fn loads_to_bank(user: bool, r: int) -> bool {
    user && 8 <= r <= 14
}

/// The registers after loading `f(r)` into each register `r` of `done`.
pub open spec fn regs_after_loads(
    regs: Seq<u32>,
    user: bool,
    done: Seq<int>,
    f: spec_fn(int) -> u32,
) -> Seq<u32> {
    Seq::new(
        regs.len(),
        |i: int|
            if done.contains(i) && !loads_to_bank(user, i) {
                f(i)
            } else {
                regs[i]
            },
    )
}

/// A User mode register of the bank after the loads of `done`.
pub open spec fn banked_load(old: u32, user: bool, done: Seq<int>, f: spec_fn(int) -> u32, r: int) -> u32 {
    if user && done.contains(r) {
        f(r)
    } else {
        old
    }
}

/// The bank after loading `f(r)` into each register `r` of `done`.
pub open spec fn bank_after_loads(
    bank: RegisterBank,
    user: bool,
    done: Seq<int>,
    f: spec_fn(int) -> u32,
) -> RegisterBank {
    RegisterBank {
        r8_old: banked_load(bank.r8_old, user, done, f, 8),
        r9_old: banked_load(bank.r9_old, user, done, f, 9),
        r10_old: banked_load(bank.r10_old, user, done, f, 10),
        r11_old: banked_load(bank.r11_old, user, done, f, 11),
        r12_old: banked_load(bank.r12_old, user, done, f, 12),
        r13_old: banked_load(bank.r13_old, user, done, f, 13),
        r14_old: banked_load(bank.r14_old, user, done, f, 14),
        ..bank
    }
}

/// `new` is `old` after a word write of `v` at `a`.
pub open spec fn word_written(old: Bus, new: Bus, a: u32, v: u32) -> bool {
    &&& old.word_stored(
        new,
        word_aligned(a as usize),
        byte_of(v as u128, 0),
        byte_of(v as u128, 1),
        byte_of(v as u128, 2),
        byte_of(v as u128, 3),
    )
    &&& new.wf()
    &&& new.cycles() == old.cycles() + 1
    &&& new.last_address() == a as usize
}

/// `buses` is a run of word writes from its first bus to its last: the
/// write `g(done[i])` (address, value) takes `buses[i]` to `buses[i + 1]`.
pub open spec fn store_run(buses: Seq<Bus>, done: Seq<int>, g: spec_fn(int) -> (u32, u32)) -> bool {
    &&& buses.len() == done.len() + 1
    &&& forall|i: int|
        0 <= i < done.len() ==> word_written(
            #[trigger] buses[i],
            buses[i + 1],
            g(done[i]).0,
            g(done[i]).1,
        )
}

/// `new` is `old` after the word writes `g(r)` (address, value) for the
/// registers `r` of `done`, in that order.
pub open spec fn stores_done(old: Bus, new: Bus, done: Seq<int>, g: spec_fn(int) -> (u32, u32)) -> bool {
    exists|buses: Seq<Bus>|
        #![trigger store_run(buses, done, g)]
        store_run(buses, done, g) && buses[0] == old && buses.last() == new
}

/// The lists below `n`: their length is the count, and they hold exactly
/// the listed registers below `n`, in increasing order.
proof fn lemma_listed_upto(list: u32, n: int)
    requires
        0 <= n <= 32,
    ensures
        listed_upto(list, n).len() == count_listed(list, n),
        forall|i: int| #[trigger] listed_upto(list, n).contains(i) <==> 0 <= i < n && listed(list, i),
        count_listed(list, n) <= n,
    decreases n,
{
    if n > 0 {
        lemma_listed_upto(list, n - 1);
        let s = listed_upto(list, n - 1);
        if listed(list, n - 1) {
            assert forall|i: int| #[trigger] s.push(n - 1).contains(i) <==> 0 <= i < n && listed(
                list,
                i,
            ) by {
                vstd::seq_lib::lemma_seq_contains_after_push(s, n - 1, i);
            }
        }
    }
}

/// The lists from `n` to R15: their length is the number of listed
/// registers from `n` on, and they hold exactly those registers.
proof fn lemma_listed_down_to(list: u32, n: int)
    requires
        0 <= n <= 16,
    ensures
        listed_down_to(list, n).len() == count_listed(list, 16) - count_listed(list, n),
        forall|i: int| #[trigger] listed_down_to(list, n).contains(i) <==> n <= i < 16 && listed(list, i),
    decreases 16 - n,
{
    if n < 16 {
        lemma_listed_down_to(list, n + 1);
        lemma_count_step(list, n);
        let s = listed_down_to(list, n + 1);
        if listed(list, n) {
            assert forall|i: int| #[trigger] s.push(n).contains(i) <==> n <= i < 16 && listed(list, i) by {
                vstd::seq_lib::lemma_seq_contains_after_push(s, n, i);
            }
        }
    }
}

/// One step of the count.
proof fn lemma_count_step(list: u32, n: int)
    requires
        0 <= n,
    ensures
        count_listed(list, n + 1) == count_listed(list, n) + if listed(list, n) {
            1nat
        } else {
            0nat
        },
{
}

/// The count grows with `n`, by at least one past each listed register.
proof fn lemma_count_monotonic(list: u32, i: int, j: int)
    requires
        0 <= i <= j,
    ensures
        count_listed(list, i) <= count_listed(list, j),
        i < j && listed(list, i) ==> count_listed(list, i) < count_listed(list, j),
    decreases j - i,
{
    if i < j {
        lemma_count_monotonic(list, i, j - 1);
        lemma_count_step(list, j - 1);
        if i < j - 1 && listed(list, i) {
        } else if listed(list, i) {
            lemma_count_step(list, i);
        }
    }
}

/// Adding to a value modulo 2^32 and reducing again is adding to the value.
proof fn lemma_wrap_add(x: int, d: int)
    ensures
        wrap32(wrap32(x) + d) == wrap32(x + d),
        0 <= wrap32(x) as int,
{
    let m: int = 0x1_0000_0000;
    vstd::arithmetic::div_mod::lemma_add_mod_noop(x, d, m);
    vstd::arithmetic::div_mod::lemma_add_mod_noop(x % m, d, m);
    vstd::arithmetic::div_mod::lemma_mod_twice(x, m);
    vstd::arithmetic::div_mod::lemma_mod_bound(x, m);
    vstd::arithmetic::div_mod::lemma_mod_bound(x + d, m);
    vstd::arithmetic::div_mod::lemma_mod_bound(wrap32(x) + d, m);
}

/// The wrapping additions and subtractions of four are steps modulo 2^32.
proof fn lemma_wrapping_steps(a: u32)
    ensures
        vstd::wrapping::u32_specs::wrapping_add(a, 4) == wrap32(a + 4),
        vstd::wrapping::u32_specs::wrapping_sub(a, 4) == wrap32(a - 4),
        a == wrap32(a as int),
{
    let m: int = 0x1_0000_0000;
    vstd::arithmetic::div_mod::lemma_small_mod(a as nat, m as nat);
    if a + 4 >= m {
        vstd::arithmetic::div_mod::lemma_mod_sub_multiples_vanish(a + 4, m);
        vstd::arithmetic::div_mod::lemma_small_mod((a + 4 - m) as nat, m as nat);
    } else {
        vstd::arithmetic::div_mod::lemma_small_mod((a + 4) as nat, m as nat);
    }
    if a < 4 {
        vstd::arithmetic::div_mod::lemma_mod_add_multiples_vanish(a - 4, m);
        vstd::arithmetic::div_mod::lemma_small_mod((a - 4 + m) as nat, m as nat);
    } else {
        vstd::arithmetic::div_mod::lemma_small_mod((a - 4) as nat, m as nat);
    }
}


/// Wrapping additions and subtractions of small amounts are additions and
/// subtractions modulo 2^32.
proof fn lemma_wrapping(a: u32, d: u32)
    requires
        d <= 0x100,
    ensures
        vstd::wrapping::u32_specs::wrapping_add(a, d) == wrap32(a + d),
        vstd::wrapping::u32_specs::wrapping_sub(a, d) == wrap32(a - d),
{
    let m: int = 0x1_0000_0000;
    if a + d >= m {
        vstd::arithmetic::div_mod::lemma_mod_sub_multiples_vanish(a + d, m);
        vstd::arithmetic::div_mod::lemma_small_mod((a + d - m) as nat, m as nat);
    } else {
        vstd::arithmetic::div_mod::lemma_small_mod((a + d) as nat, m as nat);
    }
    if a < d {
        vstd::arithmetic::div_mod::lemma_mod_add_multiples_vanish(a - d, m);
        vstd::arithmetic::div_mod::lemma_small_mod((a - d + m) as nat, m as nat);
    } else {
        vstd::arithmetic::div_mod::lemma_small_mod((a - d) as nat, m as nat);
    }
}

/// A single word write is a run of stores of one register.
proof fn lemma_single_store(old: Bus, new: Bus, r: int, g: spec_fn(int) -> (u32, u32))
    requires
        word_written(old, new, g(r).0, g(r).1),
    ensures
        stores_done(old, new, seq![r], g),
{
    let buses = seq![old, new];
    assert(word_written(buses[0], buses[1], g(seq![r][0]).0, g(seq![r][0]).1));
    assert(store_run(buses, seq![r], g));
}

/// Whether register `r` is in the list.
fn is_listed(list: u32, r: u32) -> (b: bool)
    requires
        r < 32,
    ensures
        b == listed(list, r as int),
{
    (list >> r) & 1 == 1
}

/// The number of listed registers below `n`.
fn count_registers(list: u32, n: u32) -> (c: u32)
    requires
        n <= 32,
    ensures
        c == count_listed(list, n as int),
{
    let mut c: u32 = 0;
    let mut i: u32 = 0;
    while i < n
        invariant
            i <= n <= 32,
            c == count_listed(list, i as int),
            c <= i,
        decreases n - i,
    {
        proof {
            lemma_count_step(list, i as int);
        }
        if is_listed(list, i) {
            c = c + 1;
        }
        i = i + 1;
    }
    c
}

/// The lowest listed register.
fn first_listed(list: u32) -> (r: u32)
    requires
        count_listed(list, 16) > 0,
    ensures
        r < 16,
        listed(list, r as int),
        count_listed(list, r as int) == 0,
{
    let mut i: u32 = 0;
    while i < 16
        invariant
            i <= 16,
            count_listed(list, i as int) == 0,
            count_listed(list, 16) > 0,
        decreases 16 - i,
    {
        proof {
            lemma_count_step(list, i as int);
        }
        if is_listed(list, i) {
            return i;
        }
        i = i + 1;
    }
    i
}


/// The words that loads give: the word at each register's address, read
/// from `bus`.
pub open spec fn load_values(bus: Bus, addr: spec_fn(int) -> u32) -> spec_fn(int) -> u32 {
    |r: int| bus_word(bus, addr(r) as usize)
}

/// The address and value of each register's store.
pub open spec fn store_values(
    regs: Seq<u32>,
    bank: RegisterBank,
    user: bool,
    addr: spec_fn(int) -> u32,
) -> spec_fn(int) -> (u32, u32) {
    |r: int| (addr(r), stored_word(regs, bank, user, r))
}

/// The registers done after `k` steps of the transfer loop.
pub open spec fn transfer_prefix(list: u32, up: bool, k: int) -> Seq<int> {
    if up {
        listed_upto(list, k)
    } else {
        listed_down_to(list, 16 - k)
    }
}

/// The base moved `len` words up or down.
pub open spec fn step_from(b: u32, up: bool, len: int) -> int {
    if up {
        b + 4 * len
    } else {
        b - 4 * len
    }
}

/// A read changes only the access count and the last address, so every
/// byte reads as before.
pub(crate) proof fn lemma_read_keeps_bytes(b: Bus, c: u128, l: usize, a: usize)
    ensures
        bus_word(Bus { cycles_count: c, last_used_address: l, ..b }, a) == bus_word(b, a),
{
    reveal(bus_word);
}


/// The address of the register that step `k` of the transfer loop moves,
/// after `len` registers: the base moved by `len` words, and by one more
/// before the transfer when pre-indexing.
proof fn lemma_step_address(
    b: u32,
    list: u32,
    indexing: Indexing,
    offsetting: Offsetting,
    k: int,
    len: int,
)
    requires
        0 <= k < 16,
        listed(list, if offsetting == Offsetting::Up { k } else { 15 - k }),
        len == if offsetting == Offsetting::Up {
            count_listed(list, k) as int
        } else {
            count_listed(list, 16) - count_listed(list, 16 - k)
        },
    ensures
        offsetting == Offsetting::Up ==> block_address(b, list, indexing, offsetting, k) == wrap32(
            b + 4 * len + if indexing == Indexing::Pre { 4int } else { 0int },
        ),
        offsetting == Offsetting::Down ==> block_address(b, list, indexing, offsetting, 15 - k)
            == wrap32(b - 4 * len - if indexing == Indexing::Pre { 4int } else { 0int }),
{
    let r = if offsetting == Offsetting::Up { k } else { 15 - k };
    lemma_count_step(list, r);
}


/// Storing one more register extends the stores done.
proof fn lemma_stores_step(
    b0: Bus,
    mid: Bus,
    new: Bus,
    done: Seq<int>,
    r: int,
    g: spec_fn(int) -> (u32, u32),
)
    requires
        stores_done(b0, mid, done, g),
        word_written(mid, new, g(r).0, g(r).1),
    ensures
        stores_done(b0, new, done.push(r), g),
{
    let buses = choose|buses: Seq<Bus>| store_run(buses, done, g) && buses[0] == b0 && buses.last() == mid;
    let more = buses.push(new);
    let d = done.push(r);
    assert forall|i: int| 0 <= i < d.len() implies word_written(
        #[trigger] more[i],
        more[i + 1],
        g(d[i]).0,
        g(d[i]).1,
    ) by {
        if i < done.len() {
            assert(word_written(buses[i], buses[i + 1], g(done[i]).0, g(done[i]).1));
        }
    }
    assert(store_run(more, d, g));
}

/// Loading one more register `r` writes it, or its User mode copy in the
/// bank.
proof fn lemma_loads_step(
    regs: Seq<u32>,
    bank: RegisterBank,
    user: bool,
    done: Seq<int>,
    r: int,
    f: spec_fn(int) -> u32,
)
    requires
        regs.len() == 16,
        0 <= r < 16,
        !done.contains(r),
    ensures
        regs_after_loads(regs, user, done.push(r), f) == if loads_to_bank(user, r) {
            regs_after_loads(regs, user, done, f)
        } else {
            regs_after_loads(regs, user, done, f).update(r, f(r))
        },
        bank_after_loads(bank, user, done.push(r), f) == if user {
            user_bank_written(bank_after_loads(bank, user, done, f), r, f(r))
        } else {
            bank_after_loads(bank, user, done, f)
        },
{
    broadcast use vstd::seq_lib::lemma_seq_contains_after_push;

    let a = regs_after_loads(regs, user, done.push(r), f);
    let b = regs_after_loads(regs, user, done, f);
    if loads_to_bank(user, r) {
        assert(a =~= b);
    } else {
        assert(a =~= b.update(r, f(r)));
    }
}

impl Arm7tdmi {
    /// Loads register `r` from, or stores it to, the word at `address`; with
    /// `user`, R8 to R14 are those of User mode. A stored R15 reads 12
    /// bytes past the instruction.
    fn transfer_register(&mut self, load_store: LoadStoreKind, user: bool, address: u32, r: usize)
        requires
            r < 16,
            old(self).bus.wf(),
            old(self).bus.cycles() < u128::MAX,
            load_store == LoadStoreKind::Store && r == 15 ==> old(self).reg(15) <= u32::MAX - 4,
        ensures
            load_store == LoadStoreKind::Load ==> {
                let v = bus_word(old(self).bus, address as usize);
                &&& final(self).bus == (Bus {
                    cycles_count: (old(self).bus.cycles_count + 1) as u128,
                    last_used_address: address as usize,
                    ..old(self).bus
                })
                &&& final(self).registers.0@ == if loads_to_bank(user, r as int) {
                    old(self).registers.0@
                } else {
                    old(self).registers.0@.update(r as int, v)
                }
                &&& final(self).register_bank == if user {
                    user_bank_written(old(self).register_bank, r as int, v)
                } else {
                    old(self).register_bank
                }
            },
            load_store == LoadStoreKind::Store ==> {
                &&& word_written(
                    old(self).bus,
                    final(self).bus,
                    address,
                    stored_word(old(self).registers.0@, old(self).register_bank, user, r as int),
                )
                &&& final(self).registers == old(self).registers
                &&& final(self).register_bank == old(self).register_bank
            },
            final(self).cpsr == old(self).cpsr,
            final(self).spsr == old(self).spsr,
            final(self).fetched_arm == old(self).fetched_arm,
            final(self).decoded_arm == old(self).decoded_arm,
            final(self).current_cycle == old(self).current_cycle,
    {
        proof {
            reveal(bus_word);
        }
        match load_store {
            LoadStoreKind::Store => {
                let mut value = if user {
                    self.read_user_register(r)
                } else {
                    self.registers.register_at(r)
                };
                // R15 reads 12 bytes past the instruction (the pipeline gives 8).
                if r == 15 {
                    value = value + 4;
                }
                self.bus.write_word(address_index(address), value);
            },
            LoadStoreKind::Load => {
                let v = self.bus.read_word(address_index(address));
                if user {
                    self.write_user_register(r, v);
                } else {
                    self.registers.set_register_at(r, v);
                }
            },
        }
    }

    /// Transfers the listed registers R0 to R15 in turn, upwards when the
    /// address grows and downwards when it shrinks, moving `address` by a
    /// word before (pre-indexing) or after (post-indexing) each transfer,
    /// so that the lowest register takes the lowest address.
    #[verifier::rlimit(50)]
    fn exec_data_transfer(
        &mut self,
        reg_list: u32,
        indexing: Indexing,
        address: &mut u32,
        offsetting: Offsetting,
        load_store: LoadStoreKind,
        user: bool,
    )
        requires
            old(self).bus.wf(),
            old(self).bus.cycles() < u128::MAX - 16,
            load_store == LoadStoreKind::Store && listed(reg_list, 15) ==> old(self).reg(15)
                <= u32::MAX - 4,
        ensures
            ({
                let up = offsetting == Offsetting::Up;
                let done = transfer_order(reg_list, up);
                let n = count_listed(reg_list, 16) as int;
                let b = *old(address);
                let addr = |r: int| block_address(b, reg_list, indexing, offsetting, r);
                &&& *final(address) == wrap32(step_from(b, up, n))
                &&& done.len() == n
                &&& n <= 16
                &&& final(self).bus.wf()
                &&& final(self).bus.cycles() == old(self).bus.cycles() + n
                &&& if load_store == LoadStoreKind::Load {
                    loaded_so_far(*old(self), *final(self), user, done, addr)
                } else {
                    stored_so_far(*old(self), *final(self), user, done, addr)
                }
            }),
            final(self).cpsr == old(self).cpsr,
            final(self).spsr == old(self).spsr,
            final(self).fetched_arm == old(self).fetched_arm,
            final(self).decoded_arm == old(self).decoded_arm,
            final(self).current_cycle == old(self).current_cycle,
    {
        let ghost s0 = *self;
        let ghost b = *address;
        let ghost n = count_listed(reg_list, 16) as int;
        let ghost addr = |r: int| block_address(b, reg_list, indexing, offsetting, r);
        let up = offsetting == Offsetting::Up;
        proof {
            lemma_listed_upto(reg_list, 16);
            lemma_wrapping_steps(b);
            lemma_nothing_done(s0, user, addr);
        }
        let mut k: u32 = 0;
        while k < 16
            invariant
                k <= 16,
                up == (offsetting == Offsetting::Up),
                n == count_listed(reg_list, 16),
                n <= 16,
                addr == (|r: int| block_address(b, reg_list, indexing, offsetting, r)),
                s0.bus.wf(),
                s0.bus.cycles() < u128::MAX - 16,
                s0.registers.0@.len() == 16,
                load_store == LoadStoreKind::Store && listed(reg_list, 15) ==> s0.reg(15) <= u32::MAX
                    - 4,
                transfer_prefix(reg_list, up, k as int).len() == if up {
                    count_listed(reg_list, k as int) as int
                } else {
                    n - count_listed(reg_list, 16 - k)
                },
                forall|i: int| #[trigger] transfer_prefix(reg_list, up, k as int).contains(i) <==> if up {
                    0 <= i < k && listed(reg_list, i)
                } else {
                    16 - k <= i < 16 && listed(reg_list, i)
                },
                *address == wrap32(step_from(b, up, transfer_prefix(reg_list, up, k as int).len() as int)),
                self.bus.wf(),
                self.bus.cycles() == s0.bus.cycles() + transfer_prefix(reg_list, up, k as int).len(),
                load_store == LoadStoreKind::Load ==> loaded_so_far(
                    s0,
                    *self,
                    user,
                    transfer_prefix(reg_list, up, k as int),
                    addr,
                ),
                load_store == LoadStoreKind::Store ==> stored_so_far(
                    s0,
                    *self,
                    user,
                    transfer_prefix(reg_list, up, k as int),
                    addr,
                ),
                self.cpsr == s0.cpsr,
                self.spsr == s0.spsr,
                self.fetched_arm == s0.fetched_arm,
                self.decoded_arm == s0.decoded_arm,
                self.current_cycle == s0.current_cycle,
            decreases 16 - k,
        {
            let r: u32 = if up {
                k
            } else {
                15 - k
            };
            let ghost done = transfer_prefix(reg_list, up, k as int);
            proof {
                lemma_count_step(reg_list, r as int);
                lemma_listed_upto(reg_list, k as int);
                lemma_listed_down_to(reg_list, 16 - k);
                lemma_listed_down_to(reg_list, 15 - k);
                lemma_listed_upto(reg_list, k + 1);
                lemma_count_monotonic(reg_list, r as int, 16);
            }
            if is_listed(reg_list, r) {
                let ghost before = *self;
                let ghost sign: int = if up { 4 } else { -4 };
                let ghost x: int = step_from(b, up, done.len() as int);
                proof {
                    lemma_step_address(b, reg_list, indexing, offsetting, k as int, done.len() as int);
                    lemma_wrapping_steps(*address);
                    lemma_wrap_add(x, sign);
                    assert(*address == wrap32(x));
                    if load_store == LoadStoreKind::Store && r == 15 {
                        lemma_stored_registers_kept(s0, before, user, done, addr);
                    }
                }
                if indexing == Indexing::Pre {
                    *address = match offsetting {
                        Offsetting::Down => address.wrapping_sub(4),
                        Offsetting::Up => address.wrapping_add(4),
                    };
                    assert(*address == wrap32(x + sign));
                }
                assert(*address == addr(r as int));
                self.transfer_register(load_store, user, *address, r as usize);
                let ghost at = *address;
                if indexing == Indexing::Post {
                    proof {
                        lemma_wrapping_steps(*address);
                    }
                    *address = match offsetting {
                        Offsetting::Down => address.wrapping_sub(4),
                        Offsetting::Up => address.wrapping_add(4),
                    };
                }
                assert(*address == wrap32(x + sign));
                proof {
                    let done2 = done.push(r as int);
                    assert(transfer_prefix(reg_list, up, k + 1) == done2);
                    vstd::seq_lib::lemma_seq_contains_after_push(done, r as int, r as int);
                    assert forall|i: int| #[trigger] done2.contains(i) <==> if up {
                        0 <= i < k + 1 && listed(reg_list, i)
                    } else {
                        16 - (k + 1) <= i < 16 && listed(reg_list, i)
                    } by {
                        vstd::seq_lib::lemma_seq_contains_after_push(done, r as int, i);
                    }
                    if load_store == LoadStoreKind::Load {
                        lemma_load_step(s0, before, *self, user, done, r as int, addr);
                    } else {
                        lemma_store_step(s0, before, *self, user, done, r as int, addr);
                    }
                }
            } else {
                proof {
                    assert(transfer_prefix(reg_list, up, k + 1) == done);
                }
            }
            k = k + 1;
        }
        proof {
            lemma_listed_down_to(reg_list, 0);
        }
    }
}

/// The state of the core once the loads of `done` are made from `s0`: the
/// loaded registers hold the words at their addresses, read from the bus
/// as it was, and each read counted one access.
#[verifier::opaque]
pub open spec fn loaded_so_far(
    s0: Arm7tdmi,
    cur: Arm7tdmi,
    user: bool,
    done: Seq<int>,
    addr: spec_fn(int) -> u32,
) -> bool {
    let f = load_values(s0.bus, addr);
    &&& cur.registers.0@ == regs_after_loads(s0.registers.0@, user, done, f)
    &&& cur.register_bank == bank_after_loads(s0.register_bank, user, done, f)
    &&& cur.bus == (Bus {
        cycles_count: (s0.bus.cycles_count + done.len()) as u128,
        last_used_address: if done.len() == 0 {
            s0.bus.last_used_address
        } else {
            addr(done.last()) as usize
        },
        ..s0.bus
    })
}

/// The state of the core once the stores of `done` are made from `s0`:
/// the bus has taken the words in order, the registers are unchanged.
#[verifier::opaque]
pub open spec fn stored_so_far(
    s0: Arm7tdmi,
    cur: Arm7tdmi,
    user: bool,
    done: Seq<int>,
    addr: spec_fn(int) -> u32,
) -> bool {
    &&& stores_done(
        s0.bus,
        cur.bus,
        done,
        store_values(s0.registers.0@, s0.register_bank, user, addr),
    )
    &&& cur.registers == s0.registers
    &&& cur.register_bank == s0.register_bank
}

/// Before any transfer, nothing is loaded or stored.
proof fn lemma_nothing_done(s0: Arm7tdmi, user: bool, addr: spec_fn(int) -> u32)
    ensures
        loaded_so_far(s0, s0, user, Seq::empty(), addr),
        stored_so_far(s0, s0, user, Seq::empty(), addr),
{
    reveal(loaded_so_far);
    reveal(stored_so_far);
    let f = load_values(s0.bus, addr);
    assert(regs_after_loads(s0.registers.0@, user, Seq::empty(), f) =~= s0.registers.0@);
    assert(store_run(seq![s0.bus], Seq::empty(), store_values(s0.registers.0@, s0.register_bank, user, addr)));
}

/// Stores leave the registers as they were.
proof fn lemma_stored_registers_kept(
    s0: Arm7tdmi,
    cur: Arm7tdmi,
    user: bool,
    done: Seq<int>,
    addr: spec_fn(int) -> u32,
)
    requires
        stored_so_far(s0, cur, user, done, addr),
    ensures
        cur.registers == s0.registers,
        cur.register_bank == s0.register_bank,
{
    reveal(stored_so_far);
}

/// One more load, of register `r` at its address, extends the loads done.
proof fn lemma_load_step(
    s0: Arm7tdmi,
    before: Arm7tdmi,
    after: Arm7tdmi,
    user: bool,
    done: Seq<int>,
    r: int,
    addr: spec_fn(int) -> u32,
)
    requires
        loaded_so_far(s0, before, user, done, addr),
        s0.bus.cycles_count + done.len() < u128::MAX,
        s0.registers.0@.len() == 16,
        0 <= r < 16,
        !done.contains(r),
        ({
            let v = bus_word(before.bus, addr(r) as usize);
            &&& after.bus == (Bus {
                cycles_count: (before.bus.cycles_count + 1) as u128,
                last_used_address: addr(r) as usize,
                ..before.bus
            })
            &&& after.registers.0@ == if loads_to_bank(user, r) {
                before.registers.0@
            } else {
                before.registers.0@.update(r, v)
            }
            &&& after.register_bank == if user {
                user_bank_written(before.register_bank, r, v)
            } else {
                before.register_bank
            }
        }),
    ensures
        loaded_so_far(s0, after, user, done.push(r), addr),
{
    reveal(loaded_so_far);
    let f = load_values(s0.bus, addr);
    lemma_read_keeps_bytes(s0.bus, before.bus.cycles_count, before.bus.last_used_address, addr(r) as usize);
    lemma_loads_step(s0.registers.0@, s0.register_bank, user, done, r, f);
    assert(done.push(r).last() == r);
}

/// One more store, of register `r` at its address, extends the stores
/// done.
proof fn lemma_store_step(
    s0: Arm7tdmi,
    before: Arm7tdmi,
    after: Arm7tdmi,
    user: bool,
    done: Seq<int>,
    r: int,
    addr: spec_fn(int) -> u32,
)
    requires
        stored_so_far(s0, before, user, done, addr),
        word_written(
            before.bus,
            after.bus,
            addr(r),
            stored_word(before.registers.0@, before.register_bank, user, r),
        ),
        after.registers == before.registers,
        after.register_bank == before.register_bank,
    ensures
        stored_so_far(s0, after, user, done.push(r), addr),
{
    reveal(stored_so_far);
    let g = store_values(s0.registers.0@, s0.register_bank, user, addr);
    assert(g(r) == (addr(r), stored_word(before.registers.0@, before.register_bank, user, r)));
    lemma_stores_step(s0.bus, before.bus, after.bus, done, r, g);
}


impl Arm7tdmi {
    /// The registers that the stores of a block transfer read: when the base
    /// is written back and is in the list but not its lowest register, the
    /// stores see the base already moved past the whole list (counting every
    /// set bit of the list).
    pub open spec fn store_sources(
        self,
        rn: u32,
        reg_list: u32,
        write_back: bool,
        offsetting: Offsetting,
    ) -> Seq<u32> {
        let b = self.reg(rn as int);
        if write_back && listed(reg_list, rn as int) && reg_list != 0 && count_listed(reg_list, rn as int)
            != 0 {
            self.registers.0@.update(
                rn as int,
                wrap32(step_from(b, offsetting == Offsetting::Up, count_listed(reg_list, 32) as int)),
            )
        } else {
            self.registers.0@
        }
    }

    /// `new` is `self` after LDM or STM. The listed registers are moved in
    /// order (upwards when the address grows, downwards when it shrinks),
    /// the lowest register at the lowest address; an empty list moves R15
    /// and counts as 16 registers. With the S bit and R15 not moved, R8 to
    /// R14 are those of User mode. The base is written back past the block,
    /// except after a load that wrote it. A load of R15 empties the
    /// pipeline, and with the S bit also copies the SPSR into the CPSR.
    #[verifier::opaque]
    pub open spec fn block_transferred(
        self,
        new: Self,
        indexing: Indexing,
        offsetting: Offsetting,
        load_psr: bool,
        write_back: bool,
        load_store: LoadStoreKind,
        rn: u32,
        reg_list: u32,
    ) -> bool {
        let b = self.reg(rn as int);
        let empty = reg_list == 0;
        let r15 = listed(reg_list, 15) || empty;
        let user = load_psr && !r15;
        let up = offsetting == Offsetting::Up;
        let done = if empty {
            seq![15int]
        } else {
            transfer_order(reg_list, up)
        };
        let addr = if empty {
            |r: int| empty_list_address(b, indexing, offsetting)
        } else {
            |r: int| block_address(b, reg_list, indexing, offsetting, r)
        };
        let final_address = wrap32(step_from(b, up, if empty { 16 } else { count_listed(reg_list, 16) as int }));
        &&& new.current_cycle == self.current_cycle
        &&& new.spsr == self.spsr
        &&& new.bus.wf()
        &&& if load_store == LoadStoreKind::Load {
            let f = load_values(self.bus, addr);
            let regs1 = regs_after_loads(self.registers.0@, user, done, f);
            &&& new.registers.0@ == if write_back && !listed(reg_list, rn as int) {
                regs1.update(rn as int, final_address)
            } else {
                regs1
            }
            &&& new.register_bank == bank_after_loads(self.register_bank, user, done, f)
            &&& new.bus == (Bus {
                cycles_count: (self.bus.cycles_count + done.len()) as u128,
                last_used_address: if done.len() == 0 {
                    self.bus.last_used_address
                } else {
                    addr(done.last()) as usize
                },
                ..self.bus
            })
            &&& new.cpsr == if load_psr && r15 {
                self.spsr
            } else {
                self.cpsr
            }
            &&& if r15 {
                new.fetched_arm is None && new.decoded_arm is None
            } else {
                new.fetched_arm == self.fetched_arm && new.decoded_arm == self.decoded_arm
            }
        } else {
            let sources = self.store_sources(rn, reg_list, write_back, offsetting);
            &&& stores_done(self.bus, new.bus, done, store_values(sources, self.register_bank, user, addr))
            &&& new.registers.0@ == if write_back {
                self.registers.0@.update(rn as int, final_address)
            } else {
                self.registers.0@
            }
            &&& new.register_bank == self.register_bank
            &&& new.cpsr == self.cpsr
            &&& new.fetched_arm == self.fetched_arm
            &&& new.decoded_arm == self.decoded_arm
        }
    }

    /// Executes LDM or STM.
    #[verifier::rlimit(60)]
    pub fn block_data_transfer(
        &mut self,
        indexing: Indexing,
        offsetting: Offsetting,
        load_psr: bool,
        write_back: bool,
        load_store: LoadStoreKind,
        rn: u32,
        reg_list: u32,
    )
        requires
            rn < 16,
            old(self).bus.wf(),
            old(self).bus.cycles() < u128::MAX - 16,
            load_store == LoadStoreKind::Store && (listed(reg_list, 15) || reg_list == 0)
                ==> old(self).store_sources(rn, reg_list, write_back, offsetting)[15] <= u32::MAX - 4,
        ensures
            old(self).block_transferred(
                *final(self),
                indexing,
                offsetting,
                load_psr,
                write_back,
                load_store,
                rn,
                reg_list,
            ),
            final(self).bus.wf(),
            final(self).bus.cycles() <= old(self).bus.cycles() + 16,
    {
        proof {
            reveal(Arm7tdmi::block_transferred);
        }
        let ghost s0 = *self;
        let base_register = register_index(rn);
        let memory_base = self.registers.register_at(base_register);
        let mut address: u32 = memory_base;

        let is_empty_list = reg_list == 0;
        // An empty list moves R15.
        let r15_in_list = is_listed(reg_list, 15) || is_empty_list;
        let use_user_registers = load_psr && !r15_in_list;

        // A store of the base with write back stores its original value when
        // the base is the lowest listed register, and the written-back value
        // otherwise: the base is moved for the transfers and put back after.
        let base_in_list = is_listed(reg_list, rn);
        let restore_base: Option<u32> = if write_back && base_in_list && load_store
            == LoadStoreKind::Store && !is_empty_list {
            let num_registers = count_registers(reg_list, 32);
            proof {
                lemma_listed_upto(reg_list, 32);
                lemma_wrapping(memory_base, (num_registers * 4) as u32);
                lemma_count_monotonic(reg_list, rn as int, 16);
            }
            let final_address = match offsetting {
                Offsetting::Up => memory_base.wrapping_add(num_registers * 4),
                Offsetting::Down => memory_base.wrapping_sub(num_registers * 4),
            };
            let first = first_listed(reg_list);
            proof {
                if first < rn {
                    lemma_count_monotonic(reg_list, first as int, rn as int);
                } else {
                    lemma_count_monotonic(reg_list, rn as int, first as int);
                }
            }
            if first == rn {
                None
            } else {
                self.registers.set_register_at(base_register, final_address);
                Some(memory_base)
            }
        } else {
            None
        };
        let ghost s1 = *self;
        assert(s1.registers.0@ == s0.store_sources(rn, reg_list, write_back, offsetting) || load_store
            == LoadStoreKind::Load);

        if is_empty_list {
            proof {
                lemma_wrapping(memory_base, 4);
                lemma_wrapping(memory_base, 0x3C);
                lemma_wrapping(memory_base, 0x40);
                lemma_wrapping_steps(memory_base);
            }
            // An empty list moves R15 as the last of 16 registers would move.
            let transfer_address = match (indexing, offsetting) {
                (Indexing::Post, Offsetting::Up) => address,
                (Indexing::Post, Offsetting::Down) => address.wrapping_sub(0x3C),
                (Indexing::Pre, Offsetting::Up) => address.wrapping_add(4),
                (Indexing::Pre, Offsetting::Down) => address.wrapping_sub(0x40),
            };
            assert(transfer_address == empty_list_address(memory_base, indexing, offsetting));
            self.transfer_register(load_store, use_user_registers, transfer_address, 15);
            address = match offsetting {
                Offsetting::Up => memory_base.wrapping_add(0x40),
                Offsetting::Down => memory_base.wrapping_sub(0x40),
            };
            proof {
                let addr = |r: int| empty_list_address(memory_base, indexing, offsetting);
                if load_store == LoadStoreKind::Load {
                    let f = load_values(s0.bus, addr);
                    assert(seq![15int][0] == 15);
                    assert(seq![15int].contains(15));
                    assert(self.registers.0@ =~= regs_after_loads(s0.registers.0@, false, seq![15int], f));
                } else {
                    lemma_single_store(
                        s0.bus,
                        self.bus,
                        15,
                        store_values(s1.registers.0@, s0.register_bank, false, addr),
                    );
                }
            }
        } else {
            self.exec_data_transfer(reg_list, indexing, &mut address, offsetting, load_store, use_user_registers);
            proof {
                reveal(loaded_so_far);
                reveal(stored_so_far);
            }
        }

        // Put back the base that the stores saw moved.
        if let Some(original_value) = restore_base {
            self.registers.set_register_at(base_register, original_value);
        }

        // A load that wrote the base keeps the loaded value.
        let skip_writeback = write_back && load_store == LoadStoreKind::Load && base_in_list;
        if write_back && !skip_writeback {
            self.registers.set_register_at(base_register, address);
        }

        // A load of R15 with the S bit returns from an exception: the SPSR
        // becomes the CPSR.
        if load_store == LoadStoreKind::Load && load_psr && r15_in_list {
            self.cpsr = self.spsr;
        }
        // A load of R15 empties the pipeline.
        if load_store == LoadStoreKind::Load && r15_in_list {
            self.flush_pipeline();
        }
        proof {
            if load_store == LoadStoreKind::Store {
                assert(self.registers.0@ =~= if write_back {
                    s0.registers.0@.update(rn as int, address)
                } else {
                    s0.registers.0@
                });
            }
        }
    }
}


/// Whether the word at `a` is an aligned word of work RAM (on-board or
/// on-chip, in its first copy), where every byte keeps what is written and
/// reaches a cell of its own.
pub open spec fn ram_word(a: int) -> bool {
    &&& a % 4 == 0
    &&& (0x0200_0000 <= a && a + 4 <= 0x0204_0000) || (0x0300_0000 <= a && a + 4 <= 0x0300_8000)
}

/// In the first copy of work RAM a byte's cell is its address.
proof fn lemma_ram_cell(x: usize)
    requires
        (0x0200_0000 <= x < 0x0204_0000) || (0x0300_0000 <= x < 0x0300_8000),
    ensures
        cell(x) == x,
        keeps_writes(x),
{
    if x < 0x0300_0000 {
        vstd::arithmetic::div_mod::lemma_mod_multiples_vanish(128, x - 0x0200_0000, 0x4_0000);
        vstd::arithmetic::div_mod::lemma_small_mod((x - 0x0200_0000) as nat, 0x4_0000);
    } else {
        vstd::arithmetic::div_mod::lemma_mod_multiples_vanish(0x600, x - 0x0300_0000, 0x8000);
        vstd::arithmetic::div_mod::lemma_small_mod((x - 0x0300_0000) as nat, 0x8000);
    }
}

/// A word write in work RAM reads back.
pub(crate) proof fn lemma_ram_word_read_back(old: Bus, new: Bus, a: u32, v: u32)
    requires
        word_written(old, new, a, v),
        old.wf(),
        ram_word(a as int),
    ensures
        bus_word(new, a as usize) == v,
{
    reveal(bus_word);
    let a0 = a as usize;
    assert(word_aligned(a0) == a0);
    lemma_ram_cell(a0);
    lemma_ram_cell((a0 + 1) as usize);
    lemma_ram_cell((a0 + 2) as usize);
    lemma_ram_cell((a0 + 3) as usize);
    lemma_bus_address_small(a0);
    lemma_bus_address_small((a0 + 1) as usize);
    lemma_bus_address_small((a0 + 2) as usize);
    lemma_bus_address_small((a0 + 3) as usize);
    lemma_word_write_then_read(old, new, a0, v);
}

/// A word write in work RAM leaves every other word of work RAM as it was.
#[verifier::rlimit(30)]
pub(crate) proof fn lemma_ram_word_kept(old: Bus, new: Bus, a: u32, v: u32, b: u32)
    requires
        word_written(old, new, a, v),
        old.wf(),
        ram_word(a as int),
        ram_word(b as int),
        a != b,
    ensures
        bus_word(new, b as usize) == bus_word(old, b as usize),
{
    reveal(bus_word);
    let a0 = a as usize;
    let b0 = b as usize;
    assert(word_aligned(a0) == a0);
    assert(word_aligned(b0) == b0);
    let c0 = byte_of(v as u128, 0);
    let c1 = byte_of(v as u128, 1);
    let c2 = byte_of(v as u128, 2);
    let c3 = byte_of(v as u128, 3);
    assert(old.word_stored(new, word_aligned(a0), c0, c1, c2, c3));
    let (s1, s2, s3) = choose|s1: Bus, s2: Bus, s3: Bus|
        #![trigger old.stores(s1, bus_address(a0), c0), s1.stores(s2, bus_address((a0 + 1) as usize), c1), s2.stores(s3, bus_address((a0 + 2) as usize), c2)]
        old.stores(s1, bus_address(a0), c0) && s1.stores(s2, bus_address((a0 + 1) as usize), c1)
            && s2.stores(s3, bus_address((a0 + 2) as usize), c2) && s3.stores(
            new,
            bus_address((a0 + 3) as usize),
            c3,
        );
    lemma_bytes_kept(old, s1, s2, s3, new, a0, c0, c1, c2, c3, b0);
    lemma_bytes_kept(old, s1, s2, s3, new, a0, c0, c1, c2, c3, (b0 + 1) as usize);
    lemma_bytes_kept(old, s1, s2, s3, new, a0, c0, c1, c2, c3, (b0 + 2) as usize);
    lemma_bytes_kept(old, s1, s2, s3, new, a0, c0, c1, c2, c3, (b0 + 3) as usize);
    lemma_bus_address_small(b0);
    lemma_bus_address_small((b0 + 1) as usize);
    lemma_bus_address_small((b0 + 2) as usize);
    lemma_bus_address_small((b0 + 3) as usize);
}

/// The four byte stores of a word write in work RAM leave a byte of work
/// RAM outside the word as it was.
proof fn lemma_bytes_kept(
    old: Bus,
    s1: Bus,
    s2: Bus,
    s3: Bus,
    new: Bus,
    a: usize,
    c0: u8,
    c1: u8,
    c2: u8,
    c3: u8,
    x: usize,
)
    requires
        old.wf(),
        old.stores(s1, bus_address(a), c0),
        s1.stores(s2, bus_address((a + 1) as usize), c1),
        s2.stores(s3, bus_address((a + 2) as usize), c2),
        s3.stores(new, bus_address((a + 3) as usize), c3),
        ram_word(a as int),
        (0x0200_0000 <= x < 0x0204_0000) || (0x0300_0000 <= x < 0x0300_8000),
        x < a || x > a + 3,
    ensures
        new.byte_at(x) == old.byte_at(x),
{
    lemma_ram_cell(a);
    lemma_ram_cell((a + 1) as usize);
    lemma_ram_cell((a + 2) as usize);
    lemma_ram_cell((a + 3) as usize);
    lemma_ram_cell(x);
    lemma_bus_address_small(a);
    lemma_bus_address_small((a + 1) as usize);
    lemma_bus_address_small((a + 2) as usize);
    lemma_bus_address_small((a + 3) as usize);
    lemma_write_keeps_other_cells(old, s1, a, x, c0);
    lemma_write_keeps_other_cells(s1, s2, (a + 1) as usize, x, c1);
    lemma_write_keeps_other_cells(s2, s3, (a + 2) as usize, x, c2);
    lemma_write_keeps_other_cells(s3, new, (a + 3) as usize, x, c3);
}


/// A run of word stores to distinct words of work RAM reads back: after
/// the first `i` stores, each of their words holds its store's value.
proof fn lemma_store_run_reads(buses: Seq<Bus>, done: Seq<int>, g: spec_fn(int) -> (u32, u32), i: int)
    requires
        store_run(buses, done, g),
        buses[0].wf(),
        0 <= i <= done.len(),
        forall|k: int| 0 <= k < done.len() ==> ram_word(#[trigger] g(done[k]).0 as int),
        forall|k: int, l: int|
            0 <= k < l < done.len() ==> #[trigger] g(done[k]).0 != #[trigger] g(done[l]).0,
    ensures
        buses[i].wf(),
        forall|k: int|
            0 <= k < i ==> bus_word(buses[i], #[trigger] g(done[k]).0 as usize) == g(done[k]).1,
    decreases i,
{
    if i > 0 {
        lemma_store_run_reads(buses, done, g, i - 1);
        let j = i - 1;
        assert(word_written(buses[j], buses[j + 1], g(done[j]).0, g(done[j]).1));
        lemma_ram_word_read_back(buses[j], buses[i], g(done[j]).0, g(done[j]).1);
        assert forall|k: int| 0 <= k < i implies bus_word(
            buses[i],
            #[trigger] g(done[k]).0 as usize,
        ) == g(done[k]).1 by {
            if k < j {
                lemma_ram_word_kept(buses[j], buses[i], g(done[j]).0, g(done[j]).1, g(done[k]).0);
            }
        }
    }
}

/// Pushing an element that is not there keeps a sequence free of
/// duplicates.
proof fn lemma_push_no_duplicates(s: Seq<int>, x: int)
    requires
        s.no_duplicates(),
        !s.contains(x),
    ensures
        s.push(x).no_duplicates(),
{
    let t = s.push(x);
    assert forall|i: int, j: int| 0 <= i < t.len() && 0 <= j < t.len() && i != j implies t[i]
        != t[j] by {
        if i < s.len() && j < s.len() {
            assert(t[i] == s[i] && t[j] == s[j]);
        } else if i < s.len() {
            assert(s.contains(s[i]));
        } else if j < s.len() {
            assert(s.contains(s[j]));
        }
    }
}

/// The transfer order has no register twice.
proof fn lemma_order_no_duplicates(list: u32, up: bool, n: int)
    requires
        0 <= n <= 16,
    ensures
        listed_upto(list, n).no_duplicates(),
        listed_down_to(list, 16 - n).no_duplicates(),
    decreases n,
{
    if n > 0 {
        lemma_order_no_duplicates(list, up, n - 1);
        lemma_listed_upto(list, n - 1);
        lemma_listed_down_to(list, 16 - n + 1);
        if listed(list, n - 1) {
            lemma_push_no_duplicates(listed_upto(list, n - 1), n - 1);
        }
        if listed(list, 16 - n) {
            lemma_push_no_duplicates(listed_down_to(list, 16 - n + 1), 16 - n);
        }
    }
}

/// The stores of an STM without the S bit.
proof fn lemma_stm_stores(
    s0: Arm7tdmi,
    s1: Arm7tdmi,
    indexing: Indexing,
    offsetting: Offsetting,
    write_back: bool,
    rn: u32,
    list: u32,
)
    requires
        s0.block_transferred(s1, indexing, offsetting, false, write_back, LoadStoreKind::Store, rn, list),
        list != 0,
    ensures
        stores_done(
            s0.bus,
            s1.bus,
            transfer_order(list, offsetting == Offsetting::Up),
            store_values(
                s0.store_sources(rn, list, write_back, offsetting),
                s0.register_bank,
                false,
                |r: int| block_address(s0.reg(rn as int), list, indexing, offsetting, r),
            ),
        ),
{
    reveal(Arm7tdmi::block_transferred);
}

/// The loads of an LDM without the S bit: each listed register takes the
/// word at its address.
proof fn lemma_ldm_loads(
    s1: Arm7tdmi,
    s2: Arm7tdmi,
    indexing: Indexing,
    offsetting: Offsetting,
    write_back: bool,
    rn: u32,
    list: u32,
)
    requires
        s1.block_transferred(s2, indexing, offsetting, false, write_back, LoadStoreKind::Load, rn, list),
        list != 0,
        rn < 16,
    ensures
        forall|r: int|
            0 <= r < 16 && listed(list, r) ==> #[trigger] s2.reg(r) == bus_word(
                s1.bus,
                block_address(s1.reg(rn as int), list, indexing, offsetting, r) as usize,
            ),
{
    reveal(Arm7tdmi::block_transferred);
    lemma_listed_upto(list, 16);
    lemma_listed_down_to(list, 0);
    assert forall|r: int| 0 <= r < 16 && listed(list, r) implies #[trigger] s2.reg(r) == bus_word(
        s1.bus,
        block_address(s1.reg(rn as int), list, indexing, offsetting, r) as usize,
    ) by {
        assert(transfer_order(list, offsetting == Offsetting::Up).contains(r));
    }
}

/// Stores to distinct words of work RAM read back.
proof fn lemma_stores_read_back(b0: Bus, b1: Bus, done: Seq<int>, g: spec_fn(int) -> (u32, u32))
    requires
        stores_done(b0, b1, done, g),
        b0.wf(),
        forall|k: int| 0 <= k < done.len() ==> ram_word(#[trigger] g(done[k]).0 as int),
        forall|k: int, l: int|
            0 <= k < l < done.len() ==> #[trigger] g(done[k]).0 != #[trigger] g(done[l]).0,
    ensures
        forall|k: int|
            0 <= k < done.len() ==> bus_word(b1, #[trigger] g(done[k]).0 as usize) == g(done[k]).1,
{
    let buses = choose|buses: Seq<Bus>| store_run(buses, done, g) && buses[0] == b0 && buses.last() == b1;
    lemma_store_run_reads(buses, done, g, done.len() as int);
}

/// The addresses of a block of `n` words from `lowest` in work RAM are
/// distinct words of work RAM, the same for any base and addressing mode
/// that start the block at `lowest`.
proof fn lemma_block_in_ram(
    b: u32,
    list: u32,
    indexing: Indexing,
    offsetting: Offsetting,
    lowest: u32,
)
    requires
        lowest == wrap32(b + lowest_offset(count_listed(list, 16) as int, indexing, offsetting)),
        lowest % 4 == 0,
        ({
            let n = count_listed(list, 16) as int;
            (0x0200_0000 <= lowest && lowest + 4 * n <= 0x0204_0000) || (0x0300_0000 <= lowest
                && lowest + 4 * n <= 0x0300_8000)
        }),
    ensures
        forall|r: int|
            0 <= r < 16 && listed(list, r) ==> #[trigger] block_address(
                b,
                list,
                indexing,
                offsetting,
                r,
            ) == lowest + 4 * count_listed(list, r) && ram_word(
                block_address(b, list, indexing, offsetting, r) as int,
            ),
{
    let n = count_listed(list, 16) as int;
    assert forall|r: int| 0 <= r < 16 && listed(list, r) implies #[trigger] block_address(
        b,
        list,
        indexing,
        offsetting,
        r,
    ) == lowest + 4 * count_listed(list, r) && ram_word(
        block_address(b, list, indexing, offsetting, r) as int,
    ) by {
        lemma_count_monotonic(list, r, 16);
        let c: int = 4 * (count_listed(list, r) as int);
        lemma_wrap_add(b + lowest_offset(n, indexing, offsetting), c);
        vstd::arithmetic::div_mod::lemma_small_mod((lowest + c) as nat, 0x1_0000_0000);
    }
}

/// LDM reads back what STM stored: when an STM and a later LDM without the
/// S bit move the same (non-empty) register list over the same block of
/// words, the block being in work RAM, every listed register is loaded with what the
/// store took from it (the base as the store saw it, R15 twelve bytes past
/// the store).
pub proof fn lemma_stm_then_ldm(
    s0: Arm7tdmi,
    s1: Arm7tdmi,
    s2: Arm7tdmi,
    indexing_s: Indexing,
    offsetting_s: Offsetting,
    write_back_s: bool,
    rn_s: u32,
    indexing_l: Indexing,
    offsetting_l: Offsetting,
    write_back_l: bool,
    rn_l: u32,
    list: u32,
)
    requires
        s0.bus.wf(),
        rn_s < 16,
        rn_l < 16,
        list != 0,
        s0.block_transferred(
            s1,
            indexing_s,
            offsetting_s,
            false,
            write_back_s,
            LoadStoreKind::Store,
            rn_s,
            list,
        ),
        s1.block_transferred(
            s2,
            indexing_l,
            offsetting_l,
            false,
            write_back_l,
            LoadStoreKind::Load,
            rn_l,
            list,
        ),
        ({
            let n = count_listed(list, 16) as int;
            let lowest = wrap32(s0.reg(rn_s as int) + lowest_offset(n, indexing_s, offsetting_s));
            &&& lowest == wrap32(s1.reg(rn_l as int) + lowest_offset(n, indexing_l, offsetting_l))
            &&& lowest % 4 == 0
            &&& (0x0200_0000 <= lowest && lowest + 4 * n <= 0x0204_0000) || (0x0300_0000 <= lowest
                && lowest + 4 * n <= 0x0300_8000)
        }),
    ensures
        forall|r: int|
            0 <= r < 16 && listed(list, r) ==> #[trigger] s2.reg(r) == stored_word(
                s0.store_sources(rn_s, list, write_back_s, offsetting_s),
                s0.register_bank,
                false,
                r,
            ),
{
    if list != 0 {
        let n = count_listed(list, 16) as int;
        let b_s = s0.reg(rn_s as int);
        let b_l = s1.reg(rn_l as int);
        let lowest = wrap32(b_s + lowest_offset(n, indexing_s, offsetting_s));
        let done_s = transfer_order(list, offsetting_s == Offsetting::Up);
        let addr_s = |r: int| block_address(b_s, list, indexing_s, offsetting_s, r);
        let sources = s0.store_sources(rn_s, list, write_back_s, offsetting_s);
        let g = store_values(sources, s0.register_bank, false, addr_s);
        lemma_stm_stores(s0, s1, indexing_s, offsetting_s, write_back_s, rn_s, list);
        lemma_ldm_loads(s1, s2, indexing_l, offsetting_l, write_back_l, rn_l, list);
        lemma_block_in_ram(b_s, list, indexing_s, offsetting_s, lowest);
        lemma_block_in_ram(b_l, list, indexing_l, offsetting_l, lowest);
        lemma_listed_upto(list, 16);
        lemma_listed_down_to(list, 0);
        lemma_order_no_duplicates(list, true, 16);
        // The stores reach distinct words of work RAM.
        assert forall|k: int| 0 <= k < done_s.len() implies ram_word(#[trigger] g(done_s[k]).0 as int) by {
            assert(done_s.contains(done_s[k]));
        }
        assert forall|k: int, l: int| 0 <= k < l < done_s.len() implies #[trigger] g(done_s[k]).0
            != #[trigger] g(done_s[l]).0 by {
            assert(done_s.contains(done_s[k]));
            assert(done_s.contains(done_s[l]));
            assert(done_s[k] != done_s[l]);
            if done_s[k] < done_s[l] {
                lemma_count_monotonic(list, done_s[k], done_s[l]);
            } else {
                lemma_count_monotonic(list, done_s[l], done_s[k]);
            }
        }
        lemma_stores_read_back(s0.bus, s1.bus, done_s, g);
        assert forall|r: int| 0 <= r < 16 && listed(list, r) implies #[trigger] s2.reg(r)
            == stored_word(sources, s0.register_bank, false, r) by {
            assert(done_s.contains(r));
            let k = choose|k: int| 0 <= k < done_s.len() && done_s[k] == r;
            assert(g(done_s[k]).0 == addr_s(r));
            assert(g(done_s[k]).1 == stored_word(sources, s0.register_bank, false, r));
            assert(bus_word(s1.bus, g(done_s[k]).0 as usize) == g(done_s[k]).1);
            assert(block_address(b_l, list, indexing_l, offsetting_l, r) == block_address(
                b_s,
                list,
                indexing_s,
                offsetting_s,
                r,
            ));
            assert(s2.reg(r) == bus_word(
                s1.bus,
                block_address(b_l, list, indexing_l, offsetting_l, r) as usize,
            ));
        }
    }
}

} // verus!
