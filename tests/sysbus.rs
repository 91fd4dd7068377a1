use gba_core::cartridge::GamepakBuilder;
use gba_core::ioregs::{IoDevices, IoRegs, REG_DMA0SAD, REG_IE};
use gba_core::sysbus::{decode, Region, SysBus};

fn bus_with_rom(rom: &[u8]) -> SysBus {
    let cart = GamepakBuilder::new().buffer(rom).with_sram().build().unwrap();
    SysBus::new(vec![0xAB; 0x4000], IoRegs::new(IoDevices::new()), cart)
}

#[test]
fn addresses_decode_to_regions() {
    assert_eq!(decode(0x0000_0010), (Region::Bios, 0x10));
    assert_eq!(decode(0x0203_FFFF), (Region::Ewram, 0x3_FFFF));
    assert_eq!(decode(0x0204_0000).0, Region::Unmapped);
    assert_eq!(decode(0x0300_7FFF), (Region::Iwram, 0x7FFF));
    assert_eq!(decode(0x0400_0208), (Region::Io, 0x208));
    assert_eq!(decode(0x0601_7FFF), (Region::Vram, 0x1_7FFF));
    assert_eq!(decode(0x0A00_0004), (Region::Rom, 0x4));
    assert_eq!(decode(0x0E00_1234), (Region::Backup, 0x1234));
    assert_eq!(decode(0x1000_0000).0, Region::Unmapped);
}

#[test]
fn ram_regions_read_back_bytes_halfwords_and_words() {
    let mut b = bus_with_rom(&[1, 2, 3, 4]);
    b.write_8(0x0200_0001, 0x5A);
    assert_eq!(b.read_8(0x0200_0001), 0x5A);
    b.write_16(0x0300_0010, 0xBEEF);
    assert_eq!(b.read_16(0x0300_0010), 0xBEEF);
    assert_eq!(b.read_8(0x0300_0010), 0xEF);
    b.write_32(0x0600_0100, 0x1234_5678);
    assert_eq!(b.read_32(0x0600_0100), 0x1234_5678);
    assert_eq!(b.read_16(0x0600_0102), 0x1234);
    assert_eq!(b.read_8(0x0700_0000), 0);
}

#[test]
fn rom_and_bios_are_read_only_and_rom_mirrors() {
    let mut b = bus_with_rom(&[1, 2, 3, 4]);
    assert_eq!(b.read_8(0x0000_0000), 0xAB);
    b.write_8(0x0000_0000, 0);
    assert_eq!(b.read_8(0x0000_0000), 0xAB);
    assert_eq!(b.read_32(0x0800_0000), 0x0403_0201);
    assert_eq!(b.read_8(0x0A00_0002), 3);
    b.write_8(0x0800_0000, 9);
    assert_eq!(b.read_8(0x0800_0000), 1);
    assert_eq!(b.read_8(0x0800_0010), 0);
}

#[test]
fn io_and_backup_routing() {
    let mut b = bus_with_rom(&[0; 16]);
    b.write_32(0x0400_0000 + REG_DMA0SAD, 0xDEAD_BEEF);
    assert_eq!(b.read_16(0x0400_0000 + REG_DMA0SAD + 2), 0xDEAD);
    b.write_16(0x0400_0000 + REG_IE, 0x0001);
    assert_eq!(b.io.io.intc.interrupt_enable, 1);
    b.write_8(0x0E00_0042, 0x99);
    assert_eq!(b.read_8(0x0E00_0042), 0x99);
    b.write_16(0x0E00_0050, 0x1234);
    assert_eq!(b.read_8(0x0E00_0050), 0xFF);
    assert_eq!(b.read_32(0x1000_0000), 0);
}
