//! Helpers to read and change single bits, bit ranges and bytes of the
//! unsigned integer types. Bit indexes count from the least significant bit.
use std::ops::RangeInclusive;
use vstd::prelude::*;

verus! {

/// All of the low `w` bits set (every bit when `w` is 128 or more).
pub open spec fn low_mask(w: u128) -> u128 {
    if w >= 128 {
        u128::MAX
    } else {
        ((1u128 << w) - 1) as u128
    }
}

/// Bit `i` of `v` is one.
pub open spec fn bit_at(v: u128, i: u128) -> bool {
    (v >> i) & 1 == 1
}

/// The `len` bits of `v` that start at bit `start`, moved down to bit 0.
pub open spec fn bit_field(v: u128, start: u128, len: u128) -> u128 {
    (v >> start) & low_mask(len)
}

/// `v` with bit `i` set to one.
pub open spec fn with_bit_on(v: u128, i: u128) -> u128 {
    v | (1u128 << i)
}

/// `v` with bit `i` set to zero.
pub open spec fn with_bit_off(v: u128, i: u128) -> u128 {
    v & !(1u128 << i)
}

/// `v` with bit `i` flipped.
pub open spec fn with_bit_toggled(v: u128, i: u128) -> u128 {
    v ^ (1u128 << i)
}

/// `v` with bit `i` set to `value`.
pub open spec fn with_bit(v: u128, i: u128, value: bool) -> u128 {
    if value {
        with_bit_on(v, i)
    } else {
        with_bit_off(v, i)
    }
}

/// `v` with byte `n` (bits `8n ..= 8n + 7`) replaced by `b`.
pub open spec fn with_byte(v: u128, n: u128, b: u8) -> u128 {
    (v & !(0xFFu128 << ((8 * n) as u128))) | ((b as u128) << ((8 * n) as u128))
}

/// Byte `n` of `v`: bits `8n ..= 8n + 7`, moved down to bit 0.
pub open spec fn byte_of(v: u128, n: u128) -> u8 {
    bit_field(v, (8 * n) as u128, 8) as u8
}

/// The number of bits in an inclusive range of bit indexes: zero when its
/// upper bound is below its lower bound.
pub open spec fn range_len(r: RangeInclusive<u8>) -> u128 {
    if r@.end < r@.start {
        0
    } else {
        (r@.end - r@.start + 1) as u128
    }
}

/// Two's complement sign extension of the low `n` bits of `v` to a value of
/// `w` bits: flip the sign bit, subtract it, keep the low `w` bits.
pub open spec fn sign_extend(v: u128, n: u128, w: u128) -> u128 {
    let m = 1u128 << ((n - 1) as u128);
    vstd::wrapping::u128_specs::wrapping_sub(v ^ m, m) & low_mask(w)
}

/// An and with a mask is at most the mask and at most the value.
proof fn lemma_and_le(v: u128, m: u128)
    by (bit_vector)
    ensures
        (v & m) <= m,
        (v & m) <= v,
{
}

/// Testing a bit with a one-bit mask reads the bit; clearing it does not grow the value.
proof fn lemma_bit_test(v: u128, i: u128)
    by (bit_vector)
    requires
        i < 128,
    ensures
        ((v & (1u128 << i)) != 0) == (((v >> i) & 1) == 1),
        (v & !(1u128 << i)) <= v,
{
}

/// A one shifted by less than the width is at least one.
proof fn lemma_shift_one_pos(l: u128)
    by (bit_vector)
    requires
        l < 128,
    ensures
        (1u128 << l) >= 1,
{
}

/// A shifted and masked value is at most the value.
proof fn lemma_shr_and_le(v: u128, s: u128, m: u128)
    by (bit_vector)
    requires
        s < 128,
    ensures
        (v >> s) & m <= v,
{
}

/// Setting or flipping a bit below the width keeps a value within the width.
proof fn lemma_bit_change_fits(v: u128, i: u128, w: u128)
    by (bit_vector)
    requires
        i < w,
        w < 128,
        v <= ((1u128 << w) - 1) as u128,
    ensures
        (v | (1u128 << i)) <= ((1u128 << w) - 1) as u128,
        (v ^ (1u128 << i)) <= ((1u128 << w) - 1) as u128,
{
}

/// Replacing a byte below the width keeps a value within the width.
pub proof fn lemma_byte_change_fits(v: u128, n: u128, w: u128, b: u128)
    by (bit_vector)
    requires
        n < 16,
        8 * n + 8 <= w,
        w < 128,
        b <= 0xFF,
        v <= ((1u128 << w) - 1) as u128,
    ensures
        ((v & !(0xFFu128 << (8 * n))) | (b << (8 * n))) <= ((1u128 << w) - 1) as u128,
{
}

proof fn lemma_byte_field_write(v: u128, n: u128, j: u128, b: u128)
    by (bit_vector)
    requires
        n < 16,
        j < 16,
        b <= 0xFF,
    ensures
        (((v & !(0xFFu128 << (8 * n))) | (b << (8 * n))) >> (8 * j)) & low_mask(8) == if j == n {
            b
        } else {
            (v >> (8 * j)) & low_mask(8)
        },
        (v >> (8 * j)) & low_mask(8) <= 0xFF,
{
}

/// Replacing byte `n` makes byte `n` read the new value and leaves every other
/// byte as it was.
pub proof fn lemma_byte_write_reads(v: u128, n: u128, j: u128, b: u8)
    requires
        n < 16,
        j < 16,
    ensures
        byte_of(with_byte(v, n, b), j) == if j == n {
            b
        } else {
            byte_of(v, j)
        },
{
    lemma_byte_field_write(v, n, j, b as u128);
}

/// Every byte of zero is zero.
pub proof fn lemma_zero_bytes(n: u128)
    requires
        n < 16,
    ensures
        byte_of(0, n) == 0,
{
    lemma_zero_field(n);
}

proof fn lemma_zero_field(n: u128)
    by (bit_vector)
    requires
        n < 16,
    ensures
        (0u128 >> (8 * n)) & low_mask(8) == 0,
{
}

/// Setting bit `i` to `value` makes bit `i` read `value` and leaves every other
/// bit as it was.
pub proof fn lemma_with_bit_reads(v: u128, i: u128, j: u128, value: bool)
    requires
        i < 128,
        j < 128,
    ensures
        bit_at(with_bit(v, i, value), j) == if i == j {
            value
        } else {
            bit_at(v, j)
        },
{
    if value {
        lemma_bit_on_reads(v, i, j);
    } else {
        lemma_bit_off_reads(v, i, j);
    }
}

proof fn lemma_bit_on_reads(v: u128, i: u128, j: u128)
    by (bit_vector)
    requires
        i < 128,
        j < 128,
    ensures
        (((v | (1u128 << i)) >> j) & 1 == 1) == (i == j || ((v >> j) & 1 == 1)),
{
}

proof fn lemma_bit_off_reads(v: u128, i: u128, j: u128)
    by (bit_vector)
    requires
        i < 128,
        j < 128,
    ensures
        (((v & !(1u128 << i)) >> j) & 1 == 1) == (i != j && ((v >> j) & 1 == 1)),
{
}

/// A bit field is at most the all-ones value of its length, and at most the
/// value it is read from.
pub proof fn lemma_bit_field_le(v: u128, start: u128, len: u128)
    requires
        start < 128,
    ensures
        bit_field(v, start, len) <= low_mask(len),
        bit_field(v, start, len) <= v,
{
    lemma_and_le(v >> start, low_mask(len));
    lemma_shr_and_le(v, start, low_mask(len));
}

/// The all-ones values of the field lengths that instructions use.
pub proof fn lemma_field_masks()
    by (bit_vector)
    ensures
        low_mask(1) == 1,
        low_mask(2) == 3,
        low_mask(3) == 7,
        low_mask(4) == 0xF,
        low_mask(5) == 0x1F,
        low_mask(6) == 0x3F,
        low_mask(8) == 0xFF,
        low_mask(10) == 0x3FF,
        low_mask(12) == 0xFFF,
        low_mask(16) == 0xFFFF,
        low_mask(24) == 0xFF_FFFF,
{
}

/// Bit helpers for the unsigned integer types. A value is seen through its
/// `value()` as a `u128` that fits in `width()` bits.
pub trait Bits: Sized {
    /// The value as an unsigned 128-bit number.
    spec fn value(&self) -> u128;

    /// The number of bits of the type.
    spec fn width() -> u128;

    /// Every value fits in the width of its type.
    proof fn lemma_value_fits(&self)
        ensures
            8 <= Self::width() <= 128,
            Self::width() % 8 == 0,
            self.value() <= low_mask(Self::width()),
    ;

    /// Widens the value to 128 bits.
    fn to_u128(&self) -> (r: u128)
        ensures
            r == self.value(),
    ;

    /// Narrows a 128-bit number that fits in the width of the type.
    fn from_u128(v: u128) -> (r: Self)
        requires
            8 <= Self::width() <= 128,
            v <= low_mask(Self::width()),
        ensures
            r.value() == v,
    ;

    /// Whether bit `bit_idx` is one.
    fn is_bit_on(&self, bit_idx: u8) -> (r: bool)
        requires
            (bit_idx as u128) < Self::width(),
        ensures
            r == bit_at(self.value(), bit_idx as u128),
    {
        proof {
            self.lemma_value_fits();
            lemma_bit_test(self.value(), bit_idx as u128);
        }
        let bitwise: u128 = self.to_u128();
        let mask: u128 = 1u128 << bit_idx;
        (bitwise & mask) != 0
    }

    /// Whether bit `bit_idx` is zero.
    fn is_bit_off(&self, bit_idx: u8) -> (r: bool)
        requires
            (bit_idx as u128) < Self::width(),
        ensures
            r == !bit_at(self.value(), bit_idx as u128),
    {
        proof {
            self.lemma_value_fits();
            lemma_bit_test(self.value(), bit_idx as u128);
        }
        let bitwise: u128 = self.to_u128();
        let mask: u128 = 1u128 << bit_idx;
        (bitwise & mask) == 0
    }

    /// Sets bit `bit_idx` to one.
    fn set_bit_on(&mut self, bit_idx: u8)
        requires
            (bit_idx as u128) < Self::width(),
        ensures
            final(self).value() == with_bit_on(old(self).value(), bit_idx as u128),
    {
        proof {
            self.lemma_value_fits();
        }
        let bitwise: u128 = self.to_u128();
        let mask: u128 = 1u128 << bit_idx;
        let r = bitwise | mask;
        proof {
            if Self::width() < 128 {
                lemma_bit_change_fits(bitwise, bit_idx as u128, Self::width());
            }
        }
        *self = Self::from_u128(r);
    }

    /// Sets bit `bit_idx` to zero; an index past the width changes nothing.
    fn set_bit_off(&mut self, bit_idx: u8)
        requires
            bit_idx < 128,
        ensures
            final(self).value() == with_bit_off(old(self).value(), bit_idx as u128),
    {
        proof {
            self.lemma_value_fits();
            lemma_bit_test(self.value(), bit_idx as u128);
        }
        let bitwise: u128 = self.to_u128();
        let mask: u128 = !(1u128 << bit_idx);
        let r = bitwise & mask;
        assert(r <= bitwise);
        *self = Self::from_u128(r);
    }

    /// Switches bit `bit_idx` from 1 to 0, or conversely from 0 to 1.
    fn toggle_bit(&mut self, bit_idx: u8)
        requires
            (bit_idx as u128) < Self::width(),
        ensures
            final(self).value() == with_bit_toggled(old(self).value(), bit_idx as u128),
    {
        proof {
            self.lemma_value_fits();
        }
        let bitwise: u128 = self.to_u128();
        let mask: u128 = 1u128 << bit_idx;
        let r = bitwise ^ mask;
        proof {
            if Self::width() < 128 {
                lemma_bit_change_fits(bitwise, bit_idx as u128, Self::width());
            }
        }
        *self = Self::from_u128(r);
    }

    /// Sets bit `bit_idx` to `value`.
    fn set_bit(&mut self, bit_idx: u8, value: bool)
        requires
            bit_idx < 128,
            value ==> (bit_idx as u128) < Self::width(),
        ensures
            final(self).value() == with_bit(old(self).value(), bit_idx as u128, value),
    {
        match value {
            false => self.set_bit_off(bit_idx),
            true => self.set_bit_on(bit_idx),
        }
    }

    /// Whether bit `bit_idx` is one.
    fn get_bit(&self, bit_idx: u8) -> (r: bool)
        requires
            (bit_idx as u128) < Self::width(),
        ensures
            r == bit_at(self.value(), bit_idx as u128),
    {
        self.is_bit_on(bit_idx)
    }

    /// The bits in `bits_range`, moved down to bit 0.
    fn get_bits(&self, bits_range: RangeInclusive<u8>) -> (r: Self)
        requires
            !bits_range@.exhausted,
            bits_range@.start < 128,
            range_len(bits_range) < 128,
        ensures
            r.value() == bit_field(
                self.value(),
                bits_range@.start as u128,
                range_len(bits_range),
            ),
    {
        proof {
            self.lemma_value_fits();
        }
        let start = *bits_range.start();
        let end = *bits_range.end();
        let length: u32 = if end < start {
            0
        } else {
            (end - start) as u32 + 1
        };
        proof {
            lemma_shift_one_pos(length as u128);
        }
        // A value with `length` ones.
        let mask: u128 = (1u128 << length) - 1;
        let value: u128 = self.to_u128();
        // The value moved down to the first bit of the range, then masked.
        let r = (value >> start) & mask;
        proof {
            lemma_shr_and_le(value, start as u128, mask);
        }
        Self::from_u128(r)
    }

    /// Whether every bit in `bits_range` is one; an empty range gives true.
    fn are_bits_on(&self, bits_range: RangeInclusive<u8>) -> (r: bool)
        requires
            !bits_range@.exhausted,
            range_len(bits_range) > 0 ==> (bits_range@.end as u128) < Self::width(),
        ensures
            r == (forall|i: u128|
                bits_range@.start <= i <= bits_range@.end ==> bit_at(self.value(), i)),
    {
        let start = *bits_range.start();
        let end = *bits_range.end();
        if end < start {
            return true;
        }
        let mut bit_index: u8 = start;
        while bit_index <= end
            invariant
                start <= bit_index,
                bit_index as int <= end as int + 1,
                start == bits_range@.start,
                end == bits_range@.end,
                range_len(bits_range) == end - start + 1,
                (end as u128) < Self::width(),
                forall|i: u128| start <= i < bit_index ==> bit_at(self.value(), i),
            decreases end - bit_index,
        {
            if self.is_bit_off(bit_index) {
                return false;
            }
            if bit_index == end {
                return true;
            }
            bit_index = bit_index + 1;
        }
        true
    }

    /// Byte `byte_nth` (bits `8 * byte_nth ..= 8 * byte_nth + 7`).
    fn get_byte(&self, byte_nth: u8) -> (r: u8)
        requires
            8 * (byte_nth as u128) < Self::width(),
        ensures
            r as u128 == bit_field(self.value(), (8 * byte_nth) as u128, 8),
            r == byte_of(self.value(), byte_nth as u128),
    {
        proof {
            self.lemma_value_fits();
        }
        let byte = self.get_bits(byte_nth * 8..=byte_nth * 8 + 7);
        let v = byte.to_u128();
        proof {
            lemma_and_le(self.value() >> ((8 * byte_nth) as u128), low_mask(8));
            lemma_low_masks();
            assert(v <= 0xFF);
        }
        v as u8
    }

    /// Replaces byte `byte_nth` with `value`.
    fn set_byte(&mut self, byte_nth: u8, value: u8)
        requires
            8 * (byte_nth as u128) < Self::width(),
        ensures
            final(self).value() == with_byte(old(self).value(), byte_nth as u128, value),
            forall|j: u128|
                j < 16 ==> #[trigger] byte_of(final(self).value(), j) == if j == byte_nth {
                    value
                } else {
                    byte_of(old(self).value(), j)
                },
    {
        proof {
            self.lemma_value_fits();
            assert forall|j: u128| j < 16 implies #[trigger] byte_of(
                with_byte(self.value(), byte_nth as u128, value),
                j,
            ) == if j == byte_nth {
                value
            } else {
                byte_of(self.value(), j)
            } by {
                lemma_byte_write_reads(self.value(), byte_nth as u128, j, value);
            }
        }
        let bitwise: u128 = self.to_u128();
        // Selects byte `byte_nth` so that it can be cleared.
        let mask: u128 = !(0xFFu128 << (8 * byte_nth));
        let shifted_value: u128 = (value as u128) << (8 * byte_nth);
        let r = (bitwise & mask) | shifted_value;
        proof {
            if Self::width() < 128 {
                lemma_byte_change_fits(bitwise, byte_nth as u128, Self::width(), value as u128);
            }
        }
        *self = Self::from_u128(r);
    }

    /// A sign-extended copy of the value: `number_of_bits` is the number of
    /// low bits that hold the two's complement number.
    fn sign_extended(&self, number_of_bits: u8) -> (r: Self)
        requires
            1 <= number_of_bits <= 128,
            Self::width() <= 64,
        ensures
            r.value() == sign_extend(self.value(), number_of_bits as u128, Self::width()),
    {
        proof {
            self.lemma_value_fits();
        }
        let value: u128 = self.to_u128();
        // A one in the sign bit of the `number_of_bits`-bit number.
        let mask: u128 = 1u128 << (number_of_bits - 1);
        // XOR clears a set sign bit (and sets a clear one); subtracting the
        // mask then borrows through all higher bits exactly when the number
        // was negative.
        let extended: u128 = (value ^ mask).wrapping_sub(mask);
        let width: u32 = Self::bit_count();
        proof {
            lemma_shift_one_pos(width as u128);
        }
        let size_mask: u128 = (1u128 << width) - 1;
        proof {
            lemma_and_le(extended, size_mask);
        }
        Self::from_u128(extended & size_mask)
    }

    /// The number of bits of the type.
    fn bit_count() -> (r: u32)
        ensures
            r as u128 == Self::width(),
    ;
}


/// The facts about each width that the impls below rely on.
proof fn lemma_low_masks()
    by (bit_vector)
    ensures
        low_mask(8) == 0xFF,
        low_mask(16) == 0xFFFF,
        low_mask(32) == 0xFFFF_FFFF,
        low_mask(64) == 0xFFFF_FFFF_FFFF_FFFF,
        low_mask(128) == u128::MAX,
{
}

impl Bits for u8 {
    open spec fn value(&self) -> u128 {
        *self as u128
    }

    open spec fn width() -> u128 {
        8
    }

    proof fn lemma_value_fits(&self) {
        lemma_low_masks();
    }

    fn to_u128(&self) -> (r: u128) {
        *self as u128
    }

    fn from_u128(v: u128) -> (r: Self) {
        proof {
            lemma_low_masks();
        }
        v as u8
    }

    fn bit_count() -> (r: u32) {
        8
    }
}

impl Bits for u16 {
    open spec fn value(&self) -> u128 {
        *self as u128
    }

    open spec fn width() -> u128 {
        16
    }

    proof fn lemma_value_fits(&self) {
        lemma_low_masks();
    }

    fn to_u128(&self) -> (r: u128) {
        *self as u128
    }

    fn from_u128(v: u128) -> (r: Self) {
        proof {
            lemma_low_masks();
        }
        v as u16
    }

    fn bit_count() -> (r: u32) {
        16
    }
}

impl Bits for u32 {
    open spec fn value(&self) -> u128 {
        *self as u128
    }

    open spec fn width() -> u128 {
        32
    }

    proof fn lemma_value_fits(&self) {
        lemma_low_masks();
    }

    fn to_u128(&self) -> (r: u128) {
        *self as u128
    }

    fn from_u128(v: u128) -> (r: Self) {
        proof {
            lemma_low_masks();
        }
        v as u32
    }

    fn bit_count() -> (r: u32) {
        32
    }
}

impl Bits for u64 {
    open spec fn value(&self) -> u128 {
        *self as u128
    }

    open spec fn width() -> u128 {
        64
    }

    proof fn lemma_value_fits(&self) {
        lemma_low_masks();
    }

    fn to_u128(&self) -> (r: u128) {
        *self as u128
    }

    fn from_u128(v: u128) -> (r: Self) {
        proof {
            lemma_low_masks();
        }
        v as u64
    }

    fn bit_count() -> (r: u32) {
        64
    }
}

impl Bits for u128 {
    open spec fn value(&self) -> u128 {
        *self as u128
    }

    open spec fn width() -> u128 {
        128
    }

    proof fn lemma_value_fits(&self) {
        lemma_low_masks();
    }

    fn to_u128(&self) -> (r: u128) {
        *self as u128
    }

    fn from_u128(v: u128) -> (r: Self) {
        proof {
            lemma_low_masks();
        }
        v as u128
    }

    fn bit_count() -> (r: u32) {
        128
    }
}

/// `RangeInclusive::start` (std) returns the lower bound that the range was made with.
pub assume_specification<Idx>[ RangeInclusive::<Idx>::start ](r: &RangeInclusive<Idx>) -> (res: &Idx)
    ensures
        *res == r@.start,
;

/// `RangeInclusive::end` (std) returns the upper bound that the range was made with.
pub assume_specification<Idx>[ RangeInclusive::<Idx>::end ](r: &RangeInclusive<Idx>) -> (res: &Idx)
    ensures
        *res == r@.end,
;

} // verus!
