use emu::bitwise::Bits;

#[test]
fn test_is_on() {
    let b = 0b110011101_u32;
    assert!(b.is_bit_on(0));
    assert!(!b.is_bit_on(1));
    assert!(b.is_bit_on(2));
    assert!(b.is_bit_on(3));
    assert!(b.is_bit_on(8));
    assert!(!b.is_bit_on(31));
}

#[test]
fn test_is_off() {
    let b = 0b110011101_u32;
    assert!(!b.is_bit_off(0));
    assert!(b.is_bit_off(1));
    assert!(!b.is_bit_off(2));
    assert!(!b.is_bit_off(3));
    assert!(!b.is_bit_off(8));
    assert!(b.is_bit_off(31));
}

#[test]
fn test_set_on() {
    let mut b = 0b110011101_u32;
    b.set_bit_on(1);
    b.set_bit_on(0);
    b.set_bit_on(11);
    assert_eq!(b, 0b100110011111);
}

#[test]
fn test_set_off() {
    let mut b = 0b1101001101_u32;
    b.set_bit_off(0);
    b.set_bit_off(4);
    b.set_bit_off(5);
    b.set_bit_off(6);
    b.set_bit_off(20);
    assert_eq!(b, 0b1100001100);
}

#[test]
fn toggle_bit() {
    for original in [1u32, 0x1234_5678, 0xDEAD_BEEF, u32::MAX - 1] {
        let mut fin = original;
        for i in 0..32 {
            fin.toggle_bit(i)
        }
        assert_eq!(!original, fin);
    }
}

#[test]
fn set_bit() {
    let mut b = 0b1100110_u32;
    b.set_bit(0, true);
    b.set_bit(1, true);
    b.set_bit(2, false);
    b.set_bit(3, false);
    assert_eq!(b, 0b1100011)
}

#[test]
fn get_bit() {
    let b = 0b1011001110_u32;
    assert!(b.get_bit(1));
    assert!(!b.get_bit(0));
    assert!(b.get_bit(2));
    assert!(!b.get_bit(31));
}

#[test]
fn get_gits() {
    let b = 0b1011001110_u32;
    assert_eq!(b.get_bits(0..=3), 0b1110);
    assert_eq!(b.get_bits(1..=1), 0b1);
    assert_eq!(b.get_bits(4..=7), 0b1100);
    assert_eq!(b.get_bits(8..=9), 0b10);
    assert_eq!(b.get_bits(0..=9), 0b10_1100_1110);
    assert_eq!(b.get_bits(0..=31), 0b10_1100_1110);
    assert_eq!(b.get_bits(28..=31), 0b0);
}

#[test]
fn are_bits_on() {
    let b = 0b1011001110_u32;
    assert!(!b.are_bits_on(0..=3));
    assert!(b.are_bits_on(1..=3));
}

#[test]
fn get_byte() {
    let b: u32 = 0b00000001_00100010_00000100_01001000;

    assert_eq!(b.get_byte(0), 0b01001000_u8);
    assert_eq!(b.get_byte(1), 0b00000100_u8);
    assert_eq!(b.get_byte(2), 0b00100010_u8);
    assert_eq!(b.get_byte(3), 0b00000001_u8);
}

#[test]
fn set_byte() {
    let mut b: u32 = 0;

    b.set_byte(0, 0b1010_1010);

    assert_eq!(b, 0b1010_1010);

    b = 0;
    b.set_byte(1, 0b1010_1010);

    assert_eq!(b >> 8, 0b1010_1010);

    b = 0;
    b.set_byte(2, 0b1010_1010);

    assert_eq!(b >> 16, 0b1010_1010);

    b = 0;
    b.set_byte(3, 0b1010_1010);

    assert_eq!(b >> 24, 0b1010_1010);
}

#[test]
fn check_sign_extended() {
    let a: u32 = 0b1001; // -7 in i4

    assert_eq!(a.sign_extended(4) as i32, -7);
}

#[test]
fn sign_extended_positive_value_unchanged() {
    let a: u32 = 0b0111; // 7 in i4
    assert_eq!(a.sign_extended(4), 7);
    let b: u8 = 0x80;
    assert_eq!(b.sign_extended(8), 0x80);
    let c: u16 = 0x0080;
    assert_eq!(c.sign_extended(8), 0xFF80);
}

#[test]
fn bits_on_other_widths() {
    let mut h: u16 = 0;
    h.set_bit_on(15);
    assert_eq!(h, 0x8000);
    assert_eq!(h.get_byte(1), 0x80);
    let mut w: u64 = 0;
    w.set_byte(7, 0xAB);
    assert_eq!(w, 0xAB00_0000_0000_0000);
    let mut q: u128 = 0;
    q.set_bit(127, true);
    assert!(q.get_bit(127));
    q.set_bit(127, false);
    assert_eq!(q, 0);
    let x: u8 = 0b1010_0000;
    assert_eq!(x.get_bits(5..=7), 0b101);
}

#[test]
fn set_bit_off_past_width_changes_nothing() {
    let mut b: u8 = 0xFF;
    b.set_bit_off(100);
    assert_eq!(b, 0xFF);
}

#[test]
fn empty_range() {
    let b = 0xFFFF_FFFF_u32;
    #[allow(clippy::reversed_empty_ranges)]
    let r = 5..=3;
    assert_eq!(b.get_bits(r.clone()), 0);
    assert!(b.are_bits_on(r));
}
