use emu::cartridge_header::{CartridgeHeader, NINTENDO_LOGO};

fn header_bytes() -> Vec<u8> {
    let mut data = vec![0u8; 0xE4];
    // B 0x080000C0
    data[0..4].copy_from_slice(&[0x2E, 0x00, 0x00, 0xEA]);
    data[0x04..0xA0].copy_from_slice(&NINTENDO_LOGO);
    data[0xA0..0xA8].copy_from_slice(b"ADVANCE\0");
    data[0xAC..0xB0].copy_from_slice(b"BPEE");
    data[0xB0..0xB2].copy_from_slice(b"01");
    data[0xB2] = 0x96;
    data[0xC4] = 3;
    data[0xC5] = 7;
    let mut checksum: u8 = 0;
    for byte in &data[0xA0..0xBD] {
        checksum = checksum.wrapping_sub(*byte);
    }
    data[0xBD] = checksum.wrapping_sub(0x19);
    data
}

#[test]
fn valid_header_is_bootable() {
    let data = header_bytes();
    let header = CartridgeHeader::new(&data);
    assert_eq!(header.game_title, "ADVANCE");
    assert_eq!(header.game_code, "BPEE");
    assert_eq!(header.marker_code, "01");
    assert_eq!(header.fixed_value, 0x96);
    assert_eq!(header.boot_mode, 3);
    assert_eq!(header.slave_id_number, 7);
    assert_eq!(header.rom_entry_point, [0x2E, 0x00, 0x00, 0xEA]);
    assert_eq!(header.calculated_checksum, header.complement_check);
    assert!(header.logo_valid);
    assert!(header.checksum_valid);
    assert!(header.fixed_value_valid);
    assert!(header.is_bootable());
    assert!(header.has_valid_entry_point());
    assert_eq!(header.entry_point_address(), 0x0800_00C0);
}

#[test]
fn header_checksum_formula() {
    let mut data = vec![0u8; 0xE4];
    // Zero bytes: the checksum is -0x19 modulo 256.
    let header = CartridgeHeader::new(&data);
    assert_eq!(header.calculated_checksum, 0xE7);
    data[0xA0] = 0x01;
    data[0xBC] = 0x02;
    let header = CartridgeHeader::new(&data);
    assert_eq!(header.calculated_checksum, 0xE4);
    assert!(!header.checksum_valid);
}

#[test]
fn broken_fields_are_not_bootable() {
    let mut data = header_bytes();
    data[0x10] ^= 0xFF;
    let header = CartridgeHeader::new(&data);
    assert!(!header.logo_valid);
    assert!(!header.is_bootable());

    let mut data = header_bytes();
    data[0xB2] = 0x95;
    let header = CartridgeHeader::new(&data);
    assert!(!header.fixed_value_valid);
    assert!(!header.checksum_valid);
    assert!(!header.is_bootable());
}

#[test]
fn entry_point_branches() {
    let mut data = header_bytes();
    // A branch backwards by two words: 0x08000008 - 8.
    data[0..4].copy_from_slice(&[0xFE, 0xFF, 0xFF, 0xEA]);
    let header = CartridgeHeader::new(&data);
    assert_eq!(header.entry_point_address(), 0x0800_0000);
    // BL is a valid entry point, but only B is decoded.
    data[0..4].copy_from_slice(&[0x10, 0x00, 0x00, 0xEB]);
    let header = CartridgeHeader::new(&data);
    assert!(header.has_valid_entry_point());
    assert_eq!(header.entry_point_address(), 0x0800_0000);
    data[0..4].copy_from_slice(&[0x00, 0x00, 0x00, 0x00]);
    let header = CartridgeHeader::new(&data);
    assert!(!header.has_valid_entry_point());
}

#[test]
fn title_text_is_decoded_and_trimmed() {
    let mut data = header_bytes();
    data[0xA0..0xAC].copy_from_slice(b"AB\xFFC\0\0\0\0\0\0\0\0");
    let header = CartridgeHeader::new(&data);
    assert_eq!(header.game_title, "AB\u{FFFD}C");
    data[0xA0..0xAC].copy_from_slice(b"\0\0\0\0\0\0\0\0\0\0\0\0");
    let header = CartridgeHeader::new(&data);
    assert_eq!(header.game_title, "");
}

#[test]
fn only_trailing_nuls_are_trimmed() {
    let mut data = header_bytes();
    data[0xA0..0xAC].copy_from_slice(b"A\0B\xC3\xA9\0\0\0\0\0\0\0");
    let header = CartridgeHeader::new(&data);
    assert_eq!(header.game_title, "A\0B\u{E9}");
    data[0xA0..0xAC].copy_from_slice(b"TWELVE CHARS");
    let header = CartridgeHeader::new(&data);
    assert_eq!(header.game_title, "TWELVE CHARS");
}
