use vstd::prelude::*;

use crate::backup::ERASED;
use crate::cartridge::{BackupMedia, Cartridge};
use crate::ioregs::{
    byte_of, half_index, join_halves, write_16_effect, write_32_effect, write_8_effect, IoRegs,
};

verus! {

pub const BIOS_SIZE: usize = 0x4000;
pub const EWRAM_SIZE: usize = 0x40000;
pub const IWRAM_SIZE: usize = 0x8000;
pub const PALETTE_RAM_SIZE: usize = 0x400;
pub const VRAM_SIZE: usize = 0x18000;
pub const OAM_SIZE: usize = 0x400;

/// The regions of the physical address space.
#[derive(Debug, Clone, Copy, PartialEq, Eq, Structural)]
pub enum Region {
    Bios,
    Ewram,
    Iwram,
    Io,
    Palette,
    Vram,
    Oam,
    Rom,
    Backup,
    Unmapped,
}

/// The region an address falls in.
pub open spec fn region_of(addr: u32) -> Region {
    if addr < 0x0000_4000 {
        Region::Bios
    } else if 0x0200_0000 <= addr < 0x0204_0000 {
        Region::Ewram
    } else if 0x0300_0000 <= addr < 0x0300_8000 {
        Region::Iwram
    } else if 0x0400_0000 <= addr < 0x0400_0400 {
        Region::Io
    } else if 0x0500_0000 <= addr < 0x0500_0400 {
        Region::Palette
    } else if 0x0600_0000 <= addr < 0x0601_8000 {
        Region::Vram
    } else if 0x0700_0000 <= addr < 0x0700_0400 {
        Region::Oam
    } else if 0x0800_0000 <= addr < 0x0E00_0000 {
        Region::Rom
    } else if 0x0E00_0000 <= addr < 0x1000_0000 {
        Region::Backup
    } else {
        Region::Unmapped
    }
}

/// Offset of an address inside its region; the ROM window mirrors every 32 MiB.
pub open spec fn region_offset(addr: u32) -> int {
    match region_of(addr) {
        Region::Bios => addr as int,
        Region::Ewram => addr - 0x0200_0000,
        Region::Iwram => addr - 0x0300_0000,
        Region::Io => addr - 0x0400_0000,
        Region::Palette => addr - 0x0500_0000,
        Region::Vram => addr - 0x0600_0000,
        Region::Oam => addr - 0x0700_0000,
        Region::Rom => (addr & 0x01FF_FFFF) as int,
        Region::Backup => addr - 0x0E00_0000,
        Region::Unmapped => 0,
    }
}

/// Decodes an address into its region and the offset inside it.
pub fn decode(addr: u32) -> (r: (Region, u32))
    ensures
        r.0 == region_of(addr),
        r.1 == region_offset(addr),
{
    if addr < 0x0000_4000 {
        (Region::Bios, addr)
    } else if 0x0200_0000 <= addr && addr < 0x0204_0000 {
        (Region::Ewram, addr - 0x0200_0000)
    } else if 0x0300_0000 <= addr && addr < 0x0300_8000 {
        (Region::Iwram, addr - 0x0300_0000)
    } else if 0x0400_0000 <= addr && addr < 0x0400_0400 {
        (Region::Io, addr - 0x0400_0000)
    } else if 0x0500_0000 <= addr && addr < 0x0500_0400 {
        (Region::Palette, addr - 0x0500_0000)
    } else if 0x0600_0000 <= addr && addr < 0x0601_8000 {
        (Region::Vram, addr - 0x0600_0000)
    } else if 0x0700_0000 <= addr && addr < 0x0700_0400 {
        (Region::Oam, addr - 0x0700_0000)
    } else if 0x0800_0000 <= addr && addr < 0x0E00_0000 {
        (Region::Rom, addr & 0x01FF_FFFF)
    } else if 0x0E00_0000 <= addr && addr < 0x1000_0000 {
        (Region::Backup, addr - 0x0E00_0000)
    } else {
        (Region::Unmapped, 0)
    }
}

/// The system bus: routes each access to the memory or device that owns the
/// address. Unmapped addresses read as zero and drop writes; BIOS and ROM
/// drop writes.
#[derive(Debug)]
pub struct SysBus {
    pub bios: Vec<u8>,
    pub ewram: Vec<u8>,
    pub iwram: Vec<u8>,
    pub io: IoRegs,
    pub palette_ram: Vec<u8>,
    pub vram: Vec<u8>,
    pub oam: Vec<u8>,
    pub cartridge: Cartridge,
}

/// Byte `i` of `s`, zero past its end.
pub open spec fn byte_or_zero(s: Seq<u8>, i: int) -> u8 {
    if 0 <= i < s.len() { s[i] } else { 0 }
}

/// What a byte read at `addr` returns.
pub open spec fn bus_read_8(b: SysBus, addr: u32) -> u8 {
    let off = region_offset(addr);
    match region_of(addr) {
        Region::Bios => b.bios@[off],
        Region::Ewram => b.ewram@[off],
        Region::Iwram => b.iwram@[off],
        Region::Io => byte_of(b.io@[half_index(addr)], addr & 1),
        Region::Palette => b.palette_ram@[off],
        Region::Vram => b.vram@[off],
        Region::Oam => b.oam@[off],
        Region::Rom => byte_or_zero(b.cartridge.bytes@, off),
        Region::Backup => match b.cartridge.backup {
            BackupMedia::Sram(f) => f@[(addr & 0x7FFF) as int],
            BackupMedia::Flash(f) => crate::backup::flash_read(f, addr),
            BackupMedia::Eeprom(e) => e.memory@[(addr & 0x1FFF) as int],
            BackupMedia::Undetected => ERASED,
        },
        Region::Unmapped => 0,
    }
}

/// A byte write to one of the RAM regions, or no write when `addr` is elsewhere.
pub open spec fn ram_after_write(s: Seq<u8>, addr: u32, region: Region, value: u8) -> Seq<u8> {
    if region_of(addr) == region {
        s.update(region_offset(addr), value)
    } else {
        s
    }
}

/// The effect of a byte write on the bus.
pub open spec fn bus_write_8_effect(old: SysBus, new: SysBus, addr: u32, value: u8) -> bool {
    &&& new.wf()
    &&& new.bios@ == old.bios@
    &&& new.ewram@ == ram_after_write(old.ewram@, addr, Region::Ewram, value)
    &&& new.iwram@ == ram_after_write(old.iwram@, addr, Region::Iwram, value)
    &&& new.palette_ram@ == ram_after_write(old.palette_ram@, addr, Region::Palette, value)
    &&& new.vram@ == ram_after_write(old.vram@, addr, Region::Vram, value)
    &&& new.oam@ == ram_after_write(old.oam@, addr, Region::Oam, value)
    &&& new.cartridge.bytes@ == old.cartridge.bytes@
    &&& if region_of(addr) == Region::Io {
        write_8_effect(old.io, new.io, addr, value)
    } else {
        new.io == old.io
    }
    &&& (region_of(addr) != Region::Backup ==> new.cartridge.backup == old.cartridge.backup)
}


/// Whether an address is in a region that takes 16- and 32-bit accesses; the
/// backup region is byte-wide and unmapped addresses take none.
pub open spec fn is_wide_region(r: Region) -> bool {
    r != Region::Backup && r != Region::Unmapped
}

/// What a 16-bit read at `addr` (aligned down to 2) returns.
pub open spec fn bus_read_16(b: SysBus, addr: u32) -> u16 {
    let a = addr & 0xFFFF_FFFE;
    if region_of(a) == Region::Io {
        b.io@[half_index(a)]
    } else if is_wide_region(region_of(a)) {
        (bus_read_8(b, a) as u16) | ((bus_read_8(b, (a + 1) as u32) as u16) << 8u16)
    } else {
        0
    }
}

/// What a 32-bit read at `addr` (aligned down to 4) returns.
pub open spec fn bus_read_32(b: SysBus, addr: u32) -> u32 {
    let a = addr & 0xFFFF_FFFC;
    join_halves(bus_read_16(b, a), bus_read_16(b, (a + 2) as u32))
}

/// A RAM region after the bytes of a little-endian value of `n` bytes were
/// written from `a`.
pub open spec fn ram_after_wide_write(s: Seq<u8>, a: u32, region: Region, value: u32, n: nat) -> Seq<u8>
    decreases n,
{
    if n == 0 {
        s
    } else {
        ram_after_write(
            ram_after_wide_write(s, a, region, value, (n - 1) as nat),
            (a + (n - 1)) as u32,
            region,
            (value >> (8 * (n - 1)) as u32) as u8,
        )
    }
}

/// The effect of a wide write of `n` bytes (2 or 4) at the aligned address `a`.
pub open spec fn bus_wide_write_effect(old: SysBus, new: SysBus, a: u32, value: u32, n: nat) -> bool {
    &&& new.wf()
    &&& new.bios@ == old.bios@
    &&& new.cartridge.bytes@ == old.cartridge.bytes@
    &&& new.cartridge.backup == old.cartridge.backup
    &&& if region_of(a) == Region::Io {
        &&& (if n == 2 {
            write_16_effect(old.io, new.io, a, value as u16)
        } else {
            write_32_effect(old.io, new.io, a, value)
        })
        &&& new.ewram@ == old.ewram@ && new.iwram@ == old.iwram@
        &&& new.palette_ram@ == old.palette_ram@ && new.vram@ == old.vram@
        &&& new.oam@ == old.oam@
    } else {
        &&& new.io == old.io
        &&& new.ewram@ == ram_after_wide_write(old.ewram@, a, Region::Ewram, value, n)
        &&& new.iwram@ == ram_after_wide_write(old.iwram@, a, Region::Iwram, value, n)
        &&& new.palette_ram@ == ram_after_wide_write(old.palette_ram@, a, Region::Palette, value, n)
        &&& new.vram@ == ram_after_wide_write(old.vram@, a, Region::Vram, value, n)
        &&& new.oam@ == ram_after_wide_write(old.oam@, a, Region::Oam, value, n)
    }
}

proof fn lemma_aligned_in_region(addr: u32)
    ensures
        (addr & 0xFFFF_FFFE) % 2 == 0,
        (addr & 0xFFFF_FFFC) % 4 == 0,
        (addr & 0xFFFF_FFFE) <= 0xFFFF_FFFE,
        (addr & 0xFFFF_FFFC) <= 0xFFFF_FFFC,
        region_of((addr & 0xFFFF_FFFE) as u32) == region_of(((addr & 0xFFFF_FFFE) + 1) as u32),
        region_of((addr & 0xFFFF_FFFC) as u32) == region_of(((addr & 0xFFFF_FFFC) + 2) as u32),
        region_of((addr & 0xFFFF_FFFC) as u32) == region_of(((addr & 0xFFFF_FFFC) + 3) as u32),
        (((addr & 0xFFFF_FFFC) + 2) as u32) & 0xFFFF_FFFE == (addr & 0xFFFF_FFFC) + 2,
        (addr & 0xFFFF_FFFC) & 0xFFFF_FFFE == addr & 0xFFFF_FFFC,
{
    assert((addr & 0xFFFF_FFFE) % 2 == 0) by (bit_vector);
    assert((addr & 0xFFFF_FFFC) % 4 == 0) by (bit_vector);
    assert((addr & 0xFFFF_FFFE) <= 0xFFFF_FFFE) by (bit_vector);
    assert((addr & 0xFFFF_FFFC) <= 0xFFFF_FFFC) by (bit_vector);
    assert((((addr & 0xFFFF_FFFC) + 2) as u32) & 0xFFFF_FFFE == (addr & 0xFFFF_FFFC) + 2) by (bit_vector);
    assert((addr & 0xFFFF_FFFC) & 0xFFFF_FFFE == addr & 0xFFFF_FFFC) by (bit_vector);
}

impl SysBus {
    pub open spec fn wf(&self) -> bool {
        &&& self.bios@.len() == BIOS_SIZE
        &&& self.ewram@.len() == EWRAM_SIZE
        &&& self.iwram@.len() == IWRAM_SIZE
        &&& self.io.wf()
        &&& self.palette_ram@.len() == PALETTE_RAM_SIZE
        &&& self.vram@.len() == VRAM_SIZE
        &&& self.oam@.len() == OAM_SIZE
        &&& self.cartridge.backup.wf()
    }

    /// Reads a byte.
    pub fn read_8(&self, addr: u32) -> (r: u8)
        requires
            self.wf(),
        ensures
            r == bus_read_8(*self, addr),
    {
        let (region, off) = decode(addr);
        match region {
            Region::Bios => self.bios[off as usize],
            Region::Ewram => self.ewram[off as usize],
            Region::Iwram => self.iwram[off as usize],
            Region::Io => self.io.read_8(addr),
            Region::Palette => self.palette_ram[off as usize],
            Region::Vram => self.vram[off as usize],
            Region::Oam => self.oam[off as usize],
            Region::Rom => {
                if (off as usize) < self.cartridge.bytes.len() {
                    self.cartridge.bytes[off as usize]
                } else {
                    0
                }
            },
            Region::Backup => self.cartridge.backup.read_byte(addr),
            Region::Unmapped => 0,
        }
    }

    /// Writes a byte.
    pub fn write_8(&mut self, addr: u32, value: u8)
        requires
            old(self).wf(),
        ensures
            bus_write_8_effect(*old(self), *final(self), addr, value),
    {
        let (region, off) = decode(addr);
        match region {
            Region::Ewram => self.ewram.set(off as usize, value),
            Region::Iwram => self.iwram.set(off as usize, value),
            Region::Io => self.io.write_8(addr, value),
            Region::Palette => self.palette_ram.set(off as usize, value),
            Region::Vram => self.vram.set(off as usize, value),
            Region::Oam => self.oam.set(off as usize, value),
            Region::Backup => self.cartridge.backup.write_byte(addr, value),
            _ => {},
        }
    }

    /// A bus over the given BIOS image and cartridge, with zeroed RAM and a
    /// fresh register file over `io`.
    pub fn new(bios: Vec<u8>, io: IoRegs, cartridge: Cartridge) -> (r: SysBus)
        requires
            bios@.len() == BIOS_SIZE,
            io.wf(),
            cartridge.backup.wf(),
        ensures
            r.wf(),
            r.bios@ == bios@,
            r.io == io,
            r.ewram@ == Seq::new(EWRAM_SIZE as nat, |i: int| 0u8),
            r.iwram@ == Seq::new(IWRAM_SIZE as nat, |i: int| 0u8),
            r.palette_ram@ == Seq::new(PALETTE_RAM_SIZE as nat, |i: int| 0u8),
            r.vram@ == Seq::new(VRAM_SIZE as nat, |i: int| 0u8),
            r.oam@ == Seq::new(OAM_SIZE as nat, |i: int| 0u8),
    {
        SysBus {
            bios,
            ewram: zeroed(EWRAM_SIZE),
            iwram: zeroed(IWRAM_SIZE),
            io,
            palette_ram: zeroed(PALETTE_RAM_SIZE),
            vram: zeroed(VRAM_SIZE),
            oam: zeroed(OAM_SIZE),
            cartridge,
        }
    }

    /// 16-bit read, aligned down to 2: the I/O page through its register file,
    /// other regions as two bytes, little-endian.
    pub fn read_16(&self, addr: u32) -> (r: u16)
        requires
            self.wf(),
        ensures
            r == bus_read_16(*self, addr),
    {
        proof { lemma_aligned_in_region(addr); }
        let a: u32 = addr & 0xFFFF_FFFE;
        let (region, _) = decode(a);
        match region {
            Region::Io => self.io.read_16(a),
            Region::Backup | Region::Unmapped => 0,
            _ => (self.read_8(a) as u16) | ((self.read_8(a + 1) as u16) << 8u16),
        }
    }

    /// 32-bit read, aligned down to 4: two 16-bit reads, low half first.
    pub fn read_32(&self, addr: u32) -> (r: u32)
        requires
            self.wf(),
        ensures
            r == bus_read_32(*self, addr),
    {
        proof { lemma_aligned_in_region(addr); }
        let a: u32 = addr & 0xFFFF_FFFC;
        let lo: u16 = self.read_16(a);
        let hi: u16 = self.read_16(a + 2);
        (lo as u32) | ((hi as u32) << 16u32)
    }

    /// 16-bit write, aligned down to 2; dropped in the backup region.
    pub fn write_16(&mut self, addr: u32, value: u16)
        requires
            old(self).wf(),
        ensures
            is_wide_region(region_of(addr & 0xFFFF_FFFE)) ==> bus_wide_write_effect(
                *old(self),
                *final(self),
                addr & 0xFFFF_FFFE,
                value as u32,
                2,
            ),
            !is_wide_region(region_of(addr & 0xFFFF_FFFE)) ==> *final(self) == *old(self),
    {
        proof { lemma_aligned_in_region(addr); }
        let a: u32 = addr & 0xFFFF_FFFE;
        let (region, _) = decode(a);
        match region {
            Region::Io => {
                self.io.write_16(a, value);
                proof {
                    assert((value as u32) as u16 == value) by (bit_vector);
                }
            },
            Region::Backup | Region::Unmapped => {},
            _ => {
                self.write_8(a, value as u8);
                self.write_8(a + 1, (value >> 8u16) as u8);
                proof {
                    assert(((value as u32) >> 0u32) as u8 == value as u8) by (bit_vector);
                    assert(((value as u32) >> 8u32) as u8 == (value >> 8u16) as u8) by (bit_vector);
                    assert forall|s0: Seq<u8>, r: Region| #[trigger] ram_after_wide_write(s0, a, r, value as u32, 2)
                        == ram_after_write(
                        ram_after_write(s0, a, r, value as u8),
                        (a + 1) as u32,
                        r,
                        (value >> 8u16) as u8,
                    ) by {
                        reveal_with_fuel(ram_after_wide_write, 3);
                    }
                }
            },
        }
    }

    /// 32-bit write, aligned down to 4; the I/O page takes it through its
    /// register file, RAM regions as four bytes, little-endian.
    pub fn write_32(&mut self, addr: u32, value: u32)
        requires
            old(self).wf(),
        ensures
            is_wide_region(region_of(addr & 0xFFFF_FFFC)) ==> bus_wide_write_effect(
                *old(self),
                *final(self),
                addr & 0xFFFF_FFFC,
                value,
                4,
            ),
            !is_wide_region(region_of(addr & 0xFFFF_FFFC)) ==> *final(self) == *old(self),
    {
        proof { lemma_aligned_in_region(addr); }
        let a: u32 = addr & 0xFFFF_FFFC;
        let (region, _) = decode(a);
        match region {
            Region::Io => {
                self.io.write_32(a, value);
            },
            Region::Backup | Region::Unmapped => {},
            _ => {
                self.write_8(a, value as u8);
                self.write_8(a + 1, (value >> 8u32) as u8);
                self.write_8(a + 2, (value >> 16u32) as u8);
                self.write_8(a + 3, (value >> 24u32) as u8);
                proof {
                    assert((value >> 0u32) as u8 == value as u8) by (bit_vector);
                    assert forall|s0: Seq<u8>, r: Region| #[trigger] ram_after_wide_write(s0, a, r, value, 4)
                        == ram_after_write(
                        ram_after_write(
                            ram_after_write(
                                ram_after_write(s0, a, r, value as u8),
                                (a + 1) as u32,
                                r,
                                (value >> 8u32) as u8,
                            ),
                            (a + 2) as u32,
                            r,
                            (value >> 16u32) as u8,
                        ),
                        (a + 3) as u32,
                        r,
                        (value >> 24u32) as u8,
                    ) by {
                        reveal_with_fuel(ram_after_wide_write, 5);
                    }
                }
            },
        }
    }
}

fn zeroed(n: usize) -> (r: Vec<u8>)
    ensures
        r@ == Seq::new(n as nat, |i: int| 0u8),
{
    let mut r: Vec<u8> = Vec::new();
    let mut i: usize = 0;
    while i < n
        invariant
            i <= n,
            r@ == Seq::new(i as nat, |k: int| 0u8),
        decreases n - i,
    {
        r.push(0);
        i = i + 1;
        assert(r@ =~= Seq::new(i as nat, |k: int| 0u8));
    }
    r
}

} // verus!
