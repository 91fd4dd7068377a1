use vstd::prelude::*;

verus! {

/// Metadata at the start of a ROM image.
#[derive(Debug, Clone)]
pub struct Header {
    pub entry_point: u32,
    pub game_title: Vec<u8>,
    pub game_code: Vec<u8>,
    pub maker_code: Vec<u8>,
    pub software_version: u8,
    pub checksum: u8,
    pub checksum_valid: bool,
}

/// Byte `i` of the ROM, zero past its end.
pub open spec fn rom_byte(rom: Seq<u8>, i: int) -> u8 {
    if 0 <= i < rom.len() { rom[i] } else { 0 }
}

/// `len` bytes of the ROM from `start`, zero past its end.
pub open spec fn rom_field(rom: Seq<u8>, start: int, len: nat) -> Seq<u8> {
    Seq::new(len, |k: int| rom_byte(rom, start + k))
}

/// Sum of the header bytes from 0xA0 up to (not including) `end`.
pub open spec fn header_sum(rom: Seq<u8>, end: int) -> int
    decreases end - 0xA0,
{
    if end <= 0xA0 { 0 } else { header_sum(rom, end - 1) + rom_byte(rom, end - 1) }
}

/// The complement check byte: minus the sum of bytes 0xA0..0xBD, minus 0x19,
/// modulo 256 (0x2000 is a multiple of 256 above any such sum).
pub open spec fn header_complement(rom: Seq<u8>) -> u8 {
    ((0x2000 - header_sum(rom, 0xBD) - 0x19) % 0x100) as u8
}

/// The header parsed from a ROM image.
pub open spec fn header_of(h: Header, rom: Seq<u8>) -> bool {
    &&& h.entry_point == (rom_byte(rom, 0) as u32) | ((rom_byte(rom, 1) as u32) << 8u32) | ((rom_byte(
        rom,
        2,
    ) as u32) << 16u32) | ((rom_byte(rom, 3) as u32) << 24u32)
    &&& h.game_title@ == rom_field(rom, 0xA0, 12)
    &&& h.game_code@ == rom_field(rom, 0xAC, 4)
    &&& h.maker_code@ == rom_field(rom, 0xB0, 2)
    &&& h.software_version == rom_byte(rom, 0xBC)
    &&& h.checksum == rom_byte(rom, 0xBD)
    &&& h.checksum_valid == (h.checksum == header_complement(rom))
}

fn byte_at(rom: &Vec<u8>, i: usize) -> (r: u8)
    ensures
        r == rom_byte(rom@, i as int),
{
    if i < rom.len() { rom[i] } else { 0 }
}

fn field(rom: &Vec<u8>, start: usize, len: usize) -> (r: Vec<u8>)
    requires
        start + len <= 0x100,
    ensures
        r@ == rom_field(rom@, start as int, len as nat),
{
    let mut r: Vec<u8> = Vec::new();
    let mut k: usize = 0;
    while k < len
        invariant
            k <= len,
            start + len <= 0x100,
            r@ == rom_field(rom@, start as int, k as nat),
        decreases len - k,
    {
        let b: u8 = byte_at(rom, start + k);
        r.push(b);
        k = k + 1;
        assert(r@ =~= rom_field(rom@, start as int, k as nat));
    }
    r
}

/// Parses the header; never fails. Bytes past the end of a short image read as
/// zero, and `checksum_valid` tells whether the stored complement check matches.
pub fn parse(rom: &Vec<u8>) -> (r: Header)
    ensures
        header_of(r, rom@),
{
    let mut sum: u32 = 0;
    let mut i: usize = 0xA0;
    while i < 0xBD
        invariant
            0xA0 <= i <= 0xBD,
            sum == header_sum(rom@, i as int),
            sum <= (i - 0xA0) * 0xFF,
        decreases 0xBD - i,
    {
        let b: u8 = byte_at(rom, i);
        sum = sum + b as u32;
        i = i + 1;
    }
    let complement: u8 = ((0x2000 - sum - 0x19) % 0x100) as u8;
    let checksum: u8 = byte_at(rom, 0xBD);
    let entry_point: u32 = (byte_at(rom, 0) as u32) | ((byte_at(rom, 1) as u32) << 8u32) | ((byte_at(
        rom,
        2,
    ) as u32) << 16u32) | ((byte_at(rom, 3) as u32) << 24u32);
    Header {
        entry_point,
        game_title: field(rom, 0xA0, 12),
        game_code: field(rom, 0xAC, 4),
        maker_code: field(rom, 0xB0, 2),
        software_version: byte_at(rom, 0xBC),
        checksum,
        checksum_valid: checksum == complement,
    }
}

} // verus!
