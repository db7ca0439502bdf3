//! The 192-byte GBA cartridge header (and the multiboot fields after it):
//! extracting its fields and checking the three boot-critical ones, the
//! Nintendo logo, the header checksum and the fixed value 0x96.
use vstd::prelude::*;

verus! {

/// The official Nintendo logo that must be present in the cartridge header.
/// The BIOS compares this against its internal copy during boot.
/// This is 156 bytes of compressed bitmap data.
pub const NINTENDO_LOGO: [u8; 156] = [
    0x24, 0xFF, 0xAE, 0x51, 0x69, 0x9A, 0xA2, 0x21, 0x3D, 0x84, 0x82, 0x0A,
    0x84, 0xE4, 0x09, 0xAD, 0x11, 0x24, 0x8B, 0x98, 0xC0, 0x81, 0x7F, 0x21,
    0xA3, 0x52, 0xBE, 0x19, 0x93, 0x09, 0xCE, 0x20, 0x10, 0x46, 0x4A, 0x4A,
    0xF8, 0x27, 0x31, 0xEC, 0x58, 0xC7, 0xE8, 0x33, 0x82, 0xE3, 0xCE, 0xBF,
    0x85, 0xF4, 0xDF, 0x94, 0xCE, 0x4B, 0x09, 0xC1, 0x94, 0x56, 0x8A, 0xC0,
    0x13, 0x72, 0xA7, 0xFC, 0x9F, 0x84, 0x4D, 0x73, 0xA3, 0xCA, 0x9A, 0x61,
    0x58, 0x97, 0xA3, 0x27, 0xFC, 0x03, 0x98, 0x76, 0x23, 0x1D, 0xC7, 0x61,
    0x03, 0x04, 0xAE, 0x56, 0xBF, 0x38, 0x84, 0x00, 0x40, 0xA7, 0x0E, 0xFD,
    0xFF, 0x52, 0xFE, 0x03, 0x6F, 0x95, 0x30, 0xF1, 0x97, 0xFB, 0xC0, 0x85,
    0x60, 0xD6, 0x80, 0x25, 0xA9, 0x63, 0xBE, 0x03, 0x01, 0x4E, 0x38, 0xE2,
    0xF9, 0xA2, 0x34, 0xFF, 0xBB, 0x3E, 0x03, 0x44, 0x78, 0x00, 0x90, 0xCB,
    0x88, 0x11, 0x3A, 0x94, 0x65, 0xC0, 0x7C, 0x63, 0x87, 0xF0, 0x3C, 0xAF,
    0xD6, 0x25, 0xE4, 0x8B, 0x38, 0x0A, 0xAC, 0x72, 0x21, 0xD4, 0xF8, 0x07,
];

/// Parsed GBA cartridge header.
pub struct CartridgeHeader {
    /// ARM branch instruction at ROM start (usually jumps over header).
    pub rom_entry_point: [u8; 4],
    /// Nintendo logo bitmap - BIOS verifies this matches its internal copy.
    pub nintendo_logo: [u8; 156],
    /// Game title (uppercase ASCII, max 12 chars).
    pub game_title: String,
    /// Game code (4 chars, e.g., "BPEE" for Pokemon Emerald).
    pub game_code: String,
    /// Maker/publisher code (2 chars, e.g., "01" for Nintendo).
    pub marker_code: String,
    /// Must be 0x96 for valid cartridge.
    pub fixed_value: u8,
    /// Main unit code (0x00 for GBA).
    pub main_unit_code: u8,
    /// Device type (usually 0x00, bit 7 = DACS/debug).
    pub device_type: u8,
    /// Reserved area (should be zero).
    pub reserved_area_1: [u8; 7],
    /// Software version (usually 0x00).
    pub software_version: u8,
    /// Header checksum stored in ROM.
    pub complement_check: u8,
    /// Calculated header checksum (should match `complement_check`).
    pub calculated_checksum: u8,
    /// Reserved area (should be zero).
    pub reserved_area_2: [u8; 2],
    /// RAM entry point for multiboot.
    pub ram_entry_point: [u8; 4],
    /// Boot mode (set by BIOS during multiboot).
    pub boot_mode: u8,
    /// Slave ID for multiboot.
    pub slave_id_number: u8,
    /// Unused area.
    pub not_used: [u8; 26],
    /// Joybus mode entry point.
    pub joybus_mode_entry_point: [u8; 4],
    /// Whether the Nintendo logo matches the expected value.
    pub logo_valid: bool,
    /// Whether the header checksum is valid.
    pub checksum_valid: bool,
    /// Whether the fixed value (0x96) is correct.
    pub fixed_value_valid: bool,
}

/// The sum of the bytes.
pub open spec fn byte_sum(s: Seq<u8>) -> int
    decreases s.len(),
{
    if s.len() == 0 {
        0
    } else {
        byte_sum(s.drop_last()) + s.last()
    }
}

/// The header checksum of a ROM: minus the sum of bytes 0xA0 to 0xBC, minus
/// 0x19, modulo 256.
pub open spec fn header_checksum(data: Seq<u8>) -> u8 {
    ((0 - byte_sum(data.subrange(0xA0, 0xBD)) - 0x19) % 256) as u8
}

/// The text with every trailing NUL character removed.
pub open spec fn trim_end_nul(s: Seq<char>) -> Seq<char>
    decreases s.len(),
{
    if s.len() > 0 && s.last() == '\0' {
        trim_end_nul(s.drop_last())
    } else {
        s
    }
}

/// Each byte read as the character with the same code.
pub open spec fn ascii_chars(bytes: Seq<u8>) -> Seq<char> {
    bytes.map_values(|b: u8| b as char)
}

/// The text that `String::from_utf8_lossy` makes of `bytes`: UTF-8 decoding
/// with each invalid sequence replaced by U+FFFD.
pub uninterp spec fn utf8_lossy(bytes: Seq<u8>) -> Seq<char>;

/// A text field of the header: the bytes decoded as UTF-8 (invalid sequences
/// replaced), without trailing NULs.
pub open spec fn header_text(bytes: Seq<u8>) -> Seq<char> {
    trim_end_nul(utf8_lossy(bytes))
}

/// The address that the entry point jumps to: for a `B` instruction (top byte
/// 0xEA), the ROM start plus 8 plus four times the signed 24-bit offset;
/// otherwise the ROM start.
pub open spec fn entry_point_of(b: Seq<u8>) -> u32 {
    if b[3] == 0xEA {
        let offset = b[0] + 256 * b[1] + 65536 * b[2];
        let signed = if offset >= 0x80_0000 {
            offset - 0x100_0000
        } else {
            offset
        };
        (0x0800_0008 + 4 * signed) as u32
    } else {
        0x0800_0000
    }
}

/// `String::from_utf8_lossy` (std): decodes UTF-8, replacing each invalid
/// sequence with U+FFFD. The contract names the result, and states that bytes
/// below 0x80 decode to the characters with the same codes.
#[verifier::external_body]
fn from_utf8_lossy(bytes: &[u8]) -> (r: String)
    ensures
        r@ == utf8_lossy(bytes@),
        (forall|i: int| 0 <= i < bytes@.len() ==> bytes@[i] < 0x80) ==> r@ == ascii_chars(bytes@),
{
    String::from_utf8_lossy(bytes).into_owned()
}

/// The text without its trailing NUL characters: the length is cut back
/// past every NUL at the end, and the rest is copied.
fn trim_end_nuls(s: &str) -> (r: String)
    ensures
        r@ == trim_end_nul(s@),
{
    let len = s.unicode_len();
    let mut n: usize = len;
    proof {
        assert(s@.subrange(0, n as int) =~= s@);
    }
    while n > 0 && s.get_char(n - 1) == '\0'
        invariant
            len == s@.len(),
            n <= len,
            trim_end_nul(s@.subrange(0, n as int)) == trim_end_nul(s@),
        decreases n,
    {
        proof {
            let t = s@.subrange(0, n as int);
            assert(t.drop_last() =~= s@.subrange(0, n - 1));
        }
        n = n - 1;
    }
    // No NUL is left at the end of the first `n` characters.
    assert(trim_end_nul(s@.subrange(0, n as int)) == s@.subrange(0, n as int));
    String::from_str(s.substring_char(0, n))
}

/// The `N` bytes of `data` from `start` on.
fn extract_bytes<const N: usize>(data: &[u8], start: usize) -> (r: [u8; N])
    requires
        start + N <= data@.len(),
    ensures
        r@ == data@.subrange(start as int, start + N),
{
    let mut a = [0u8; N];
    let mut i: usize = 0;
    let len = data.len();
    while i < N
        invariant
            start + N <= data@.len(),
            len == data@.len(),
            i <= N,
            a@.len() == N,
            forall|j: int| 0 <= j < i ==> a@[j] == data@[start + j],
        decreases N - i,
    {
        a[i] = data[start + i];
        i = i + 1;
    }
    proof {
        assert(a@ =~= data@.subrange(start as int, start + N));
    }
    a
}

/// A text field: the bytes `start..end` decoded, without trailing NULs.
fn extract_text(data: &[u8], start: usize, end: usize) -> (r: String)
    requires
        start <= end <= data@.len(),
    ensures
        r@ == header_text(data@.subrange(start as int, end as int)),
{
    let text = from_utf8_lossy(&data[start..end]);
    trim_end_nuls(text.as_str())
}

impl CartridgeHeader {
    /// The header read from the start of a ROM image of at least 0xE4 bytes.
    pub fn new(data: &[u8]) -> (r: Self)
        requires
            data@.len() >= 0xE4,
        ensures
            r.rom_entry_point@ == data@.subrange(0x000, 0x004),
            r.nintendo_logo@ == data@.subrange(0x004, 0x0A0),
            r.game_title@ == header_text(data@.subrange(0x0A0, 0x0AC)),
            r.game_code@ == header_text(data@.subrange(0x0AC, 0x0B0)),
            r.marker_code@ == header_text(data@.subrange(0x0B0, 0x0B2)),
            r.fixed_value == data@[0x0B2],
            r.main_unit_code == data@[0x0B3],
            r.device_type == data@[0x0B4],
            r.reserved_area_1@ == data@.subrange(0x0B5, 0x0BC),
            r.software_version == data@[0x0BC],
            r.complement_check == data@[0x0BD],
            r.calculated_checksum == header_checksum(data@),
            r.reserved_area_2@ == data@.subrange(0x0BE, 0x0C0),
            r.ram_entry_point@ == data@.subrange(0x0C0, 0x0C4),
            r.boot_mode == data@[0x0C4],
            r.slave_id_number == data@[0x0C5],
            r.not_used@ == data@.subrange(0x0C6, 0x0E0),
            r.joybus_mode_entry_point@ == data@.subrange(0x0E0, 0x0E4),
            r.logo_valid == (data@.subrange(0x004, 0x0A0) == NINTENDO_LOGO@),
            r.checksum_valid == (data@[0x0BD] == header_checksum(data@)),
            r.fixed_value_valid == (data@[0x0B2] == 0x96),
    {
        let nintendo_logo = Self::extract_nintendo_logo(data);
        let fixed_value = data[0x0B2];
        let complement_check = data[0x0BD];
        let calculated_checksum = Self::calculate_checksum(data);

        let logo_valid = same_bytes(&nintendo_logo, &NINTENDO_LOGO);
        let checksum_valid = complement_check == calculated_checksum;
        let fixed_value_valid = fixed_value == 0x96;

        CartridgeHeader {
            rom_entry_point: Self::extract_rom_entry_point(data),
            nintendo_logo,
            game_title: Self::extract_game_title(data),
            game_code: Self::extract_game_code(data),
            marker_code: Self::extract_marker_code(data),
            fixed_value,
            main_unit_code: data[0x0B3],
            device_type: data[0x0B4],
            reserved_area_1: Self::extract_reserved_area_1(data),
            software_version: data[0x0BC],
            complement_check,
            calculated_checksum,
            reserved_area_2: Self::extract_reserved_area_2(data),
            ram_entry_point: Self::extract_ram_entry_point(data),
            boot_mode: data[0x0C4],
            slave_id_number: data[0x0C5],
            not_used: Self::extract_not_used(data),
            joybus_mode_entry_point: Self::extract_joybus_mode_entry_point(data),
            logo_valid,
            checksum_valid,
            fixed_value_valid,
        }
    }

    /// Calculate the header checksum.
    /// Formula: checksum = -(sum of bytes 0xA0..0xBC) - 0x19
    fn calculate_checksum(data: &[u8]) -> (r: u8)
        requires
            data@.len() >= 0xBD,
        ensures
            r == header_checksum(data@),
    {
        let mut acc: u8 = 0;
        let mut i: usize = 0xA0;
        while i < 0xBD
            invariant
                0xA0 <= i <= 0xBD,
                data@.len() >= 0xBD,
                acc as int == (0 - byte_sum(data@.subrange(0xA0, i as int))) % 256,
            decreases 0xBD - i,
        {
            let byte = data[i];
            proof {
                let prev = data@.subrange(0xA0, i as int);
                let next = data@.subrange(0xA0, i + 1);
                assert(next.drop_last() =~= prev);
                assert(byte_sum(next) == byte_sum(prev) + byte);
                lemma_sub_byte_mod(0 - byte_sum(prev), byte as int, acc as int);
            }
            acc = acc.wrapping_sub(byte);
            i = i + 1;
        }
        proof {
            lemma_sub_byte_mod(0 - byte_sum(data@.subrange(0xA0, 0xBD)), 0x19, acc as int);
        }
        acc.wrapping_sub(0x19)
    }

    /// Check if all boot-critical fields are valid.
    /// The BIOS will halt if any of these fail.
    pub fn is_bootable(&self) -> (r: bool)
        ensures
            r == (self.logo_valid && self.checksum_valid && self.fixed_value_valid),
    {
        self.logo_valid && self.checksum_valid && self.fixed_value_valid
    }

    /// Get the entry point address decoded from the ARM branch instruction.
    /// Returns the target address the branch jumps to (the ROM start when the
    /// entry point is no branch).
    pub fn entry_point_address(&self) -> (r: u32)
        ensures
            r == entry_point_of(self.rom_entry_point@),
    {
        // ARM branch instruction format: 0xEA + 24-bit signed offset.
        // The offset is in words (4 bytes), and PC is 8 bytes ahead during execution.
        let b = self.rom_entry_point;
        if b[3] == 0xEA {
            let offset: u32 = b[0] as u32 + (b[1] as u32) * 256 + (b[2] as u32) * 65536;
            if offset >= 0x80_0000 {
                // a negative offset: PC + 8 - 4 * (2^24 - offset)
                0x0800_0008 - 4 * (0x100_0000 - offset)
            } else {
                0x0800_0008 + 4 * offset
            }
        } else {
            0x0800_0000  // not a branch, return ROM start
        }
    }

    /// Check if the entry point looks like a valid ARM branch instruction.
    pub fn has_valid_entry_point(&self) -> (r: bool)
        ensures
            r == (self.rom_entry_point@[3] == 0xEA || self.rom_entry_point@[3] == 0xEB),
    {
        // check if it's a B (branch) instruction: 0xEA______
        (self.rom_entry_point[3] == 0xEA) || (self.rom_entry_point[3] == 0xEB)
    }

    /// Extract ROM entry point (4 bytes at 0x000).
    fn extract_rom_entry_point(data: &[u8]) -> (r: [u8; 4])
        requires
            data@.len() >= 0x004,
        ensures
            r@ == data@.subrange(0x000, 0x004),
    {
        extract_bytes(data, 0x000)
    }

    /// Extract Nintendo logo (156 bytes at 0x004).
    fn extract_nintendo_logo(data: &[u8]) -> (r: [u8; 156])
        requires
            data@.len() >= 0x0A0,
        ensures
            r@ == data@.subrange(0x004, 0x0A0),
    {
        extract_bytes(data, 0x004)
    }

    /// Extract game title (12 bytes at 0x0A0, uppercase ASCII).
    fn extract_game_title(data: &[u8]) -> (r: String)
        requires
            data@.len() >= 0x0AC,
        ensures
            r@ == header_text(data@.subrange(0x0A0, 0x0AC)),
    {
        extract_text(data, 0x0A0, 0x0AC)
    }

    /// Extract game code (4 bytes at 0x0AC).
    fn extract_game_code(data: &[u8]) -> (r: String)
        requires
            data@.len() >= 0x0B0,
        ensures
            r@ == header_text(data@.subrange(0x0AC, 0x0B0)),
    {
        extract_text(data, 0x0AC, 0x0B0)
    }

    /// Extract maker code (2 bytes at 0x0B0).
    fn extract_marker_code(data: &[u8]) -> (r: String)
        requires
            data@.len() >= 0x0B2,
        ensures
            r@ == header_text(data@.subrange(0x0B0, 0x0B2)),
    {
        extract_text(data, 0x0B0, 0x0B2)
    }

    /// Extract reserved area 1 (7 bytes at 0x0B5).
    fn extract_reserved_area_1(data: &[u8]) -> (r: [u8; 7])
        requires
            data@.len() >= 0x0BC,
        ensures
            r@ == data@.subrange(0x0B5, 0x0BC),
    {
        extract_bytes(data, 0x0B5)
    }

    /// Extract reserved area 2 (2 bytes at 0x0BE).
    fn extract_reserved_area_2(data: &[u8]) -> (r: [u8; 2])
        requires
            data@.len() >= 0x0C0,
        ensures
            r@ == data@.subrange(0x0BE, 0x0C0),
    {
        extract_bytes(data, 0x0BE)
    }

    /// Extract RAM entry point for multiboot (4 bytes at 0x0C0).
    fn extract_ram_entry_point(data: &[u8]) -> (r: [u8; 4])
        requires
            data@.len() >= 0x0C4,
        ensures
            r@ == data@.subrange(0x0C0, 0x0C4),
    {
        extract_bytes(data, 0x0C0)
    }

    /// Extract unused area (26 bytes at 0x0C6).
    fn extract_not_used(data: &[u8]) -> (r: [u8; 26])
        requires
            data@.len() >= 0x0E0,
        ensures
            r@ == data@.subrange(0x0C6, 0x0E0),
    {
        extract_bytes(data, 0x0C6)
    }

    /// Extract Joybus mode entry point (4 bytes at 0x0E0).
    fn extract_joybus_mode_entry_point(data: &[u8]) -> (r: [u8; 4])
        requires
            data@.len() >= 0x0E4,
        ensures
            r@ == data@.subrange(0x0E0, 0x0E4),
    {
        extract_bytes(data, 0x0E0)
    }
}

/// Whether two byte arrays of the same length hold the same bytes.
fn same_bytes<const N: usize>(a: &[u8; N], b: &[u8; N]) -> (r: bool)
    ensures
        r == (a@ == b@),
{
    let mut i: usize = 0;
    while i < N
        invariant
            i <= N,
            a@.len() == N,
            b@.len() == N,
            forall|j: int| 0 <= j < i ==> a@[j] == b@[j],
        decreases N - i,
    {
        if a[i] != b[i] {
            return false;
        }
        i = i + 1;
    }
    proof {
        assert(a@ =~= b@);
    }
    true
}

/// Subtracting a byte with wraparound keeps a running value equal to the
/// running difference modulo 256.
proof fn lemma_sub_byte_mod(x: int, b: int, acc: int)
    requires
        acc == x % 256,
        0 <= b < 256,
    ensures
        vstd::wrapping::u8_specs::wrapping_sub(acc as u8, b as u8) as int == (x - b) % 256,
{
    vstd::arithmetic::div_mod::lemma_sub_mod_noop(x, b, 256);
    vstd::arithmetic::div_mod::lemma_small_mod(b as nat, 256);
    assert(0 <= acc < 256) by {
        vstd::arithmetic::div_mod::lemma_mod_bound(x, 256);
    }
    if acc - b < 0 {
        vstd::arithmetic::div_mod::lemma_mod_multiples_vanish(1, acc - b, 256);
        vstd::arithmetic::div_mod::lemma_small_mod((acc - b + 256) as nat, 256);
    } else {
        vstd::arithmetic::div_mod::lemma_small_mod((acc - b) as nat, 256);
    }
}

} // verus!
