//! Core of a Game Boy Advance emulator: the system bus and its memory-mapped
//! I/O register file, the interrupt plumbing between synced devices and the
//! CPU, backup media (SRAM, Flash, EEPROM) and the cartridge builder with
//! save-type detection.

pub mod error;
pub mod ioregs;
pub mod interrupt;
pub mod backup;
pub mod outside;
pub mod header;
pub mod cartridge;
pub mod sysbus;
