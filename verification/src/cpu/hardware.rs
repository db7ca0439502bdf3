//! The memory-mapped hardware blocks that the bus routes to, and the address
//! folding that maps a mirrored address onto the block's own range.

pub mod dma;
pub mod internal_memory;
pub mod interrupt_control;
pub mod keypad;
pub mod lcd;
pub mod serial;
pub mod sound;
pub mod timers;

use vstd::prelude::*;

verus! {

/// Every byte of `v` is zero.
pub open spec fn all_zero(v: Seq<u8>) -> bool {
    forall|i: int| 0 <= i < v.len() ==> #[trigger] v[i] == 0
}

/// A zero-filled vector of `n` bytes.
pub fn zeroed(n: usize) -> (r: Vec<u8>)
    ensures
        r.len() == n,
        all_zero(r@),
{
    let mut r: Vec<u8> = Vec::new();
    let mut i: usize = 0;
    while i < n
        invariant
            i <= n,
            r.len() == i,
            all_zero(r@),
        decreases n - i,
    {
        r.push(0);
        i = i + 1;
    }
    r
}

/// `address` with the bits under `masked` (shifted down by `shift`) reduced
/// modulo `mirrors`, and the bits under `unmasked` kept as they are.
pub open spec fn unmasked_address(
    address: usize,
    masked: usize,
    unmasked: usize,
    shift: usize,
    mirrors: usize,
) -> usize {
    (address & unmasked) | ((((address & masked) >> shift) % mirrors) << shift)
}

/// Folds a mirrored address onto the first copy of its region: the bits
/// under `masked` count the copies, and only their value modulo `mirrors`
/// is kept.
pub fn get_unmasked_address(
    address: usize,
    masked: usize,
    unmasked: usize,
    shift: usize,
    mirrors: usize,
) -> (r: usize)
    requires
        mirrors > 0,
        shift < 32,
    ensures
        r == unmasked_address(address, masked, unmasked, shift, mirrors),
{
    (address & unmasked) | ((((address & masked) >> shift) % mirrors) << shift)
}

/// Palette RAM and object attributes repeat every 1 KB of their 16 MB region.
pub proof fn lemma_fold_1k(address: usize, base: usize)
    by (bit_vector)
    requires
        base == 0x0500_0000 || base == 0x0700_0000,
        base <= address <= base + 0x00FF_FFFF,
    ensures
        unmasked_address(address, 0x00FF_FF00, 0xFF00_00FF, 8, 4) == base + address % 0x400,
{
}

/// Video RAM repeats every 128 KB of its 16 MB region.
pub proof fn lemma_fold_128k(address: usize)
    by (bit_vector)
    requires
        0x0600_0000 <= address <= 0x06FF_FFFF,
    ensures
        unmasked_address(address, 0x00FF_0000, 0xFF00_FFFF, 16, 2) == 0x0600_0000 + address
            % 0x2_0000,
{
}

} // verus!
