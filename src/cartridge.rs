use vstd::prelude::*;

use crate::backup::{
    flash_read, flash_write_effect, opt_str_view, BackupFile, BackupType, EepromController, Flash, FlashSize, EEPROM_SIZE, ERASED,
    FLASH_BANK_SIZE, SRAM_SIZE,
};
use crate::error::{GBAError, GBAResult};
use crate::header::{header_of, parse, Header};
use crate::outside::{
    contains_bytes, extension_of, path_extension, path_with_extension, search_bytes,
    with_extension_of, zip_data, zip_entry_count, zip_entry_data, zip_entry_name, zip_len, zip_name,
};

verus! {

/// The backup device of a cartridge.
#[derive(Debug)]
pub enum BackupMedia {
    Sram(BackupFile),
    Flash(Flash),
    Eeprom(EepromController),
    Undetected,
}

/// A loaded cartridge: the ROM image, its header and its backup device.
#[derive(Debug)]
pub struct Cartridge {
    pub header: Header,
    pub bytes: Vec<u8>,
    pub size: usize,
    pub backup: BackupMedia,
}

/// Extension of the backup sidecar file.
pub open spec fn backup_ext() -> Seq<char> {
    seq!['s', 'a', 'v']
}

impl BackupMedia {
    /// The sidecar path the backup is persisted to.
    pub open spec fn path_spec(&self) -> Option<Seq<char>> {
        match self {
            BackupMedia::Sram(f) => f.path_spec(),
            BackupMedia::Flash(f) => f.memory.path_spec(),
            BackupMedia::Eeprom(e) => e.memory.path_spec(),
            BackupMedia::Undetected => None,
        }
    }

    pub open spec fn wf(&self) -> bool {
        match self {
            BackupMedia::Sram(f) => f@.len() == SRAM_SIZE,
            BackupMedia::Flash(f) => f.wf(),
            BackupMedia::Eeprom(e) => e.wf(),
            BackupMedia::Undetected => true,
        }
    }

    /// The sidecar path, if the backup is persisted.
    pub fn path(&self) -> (r: Option<String>)
        ensures
            opt_str_view(r) == self.path_spec(),
    {
        match self {
            BackupMedia::Sram(f) => f.path(),
            BackupMedia::Flash(f) => f.memory.path(),
            BackupMedia::Eeprom(e) => e.memory.path(),
            BackupMedia::Undetected => None,
        }
    }

    /// Reads a byte of backup space. SRAM maps `offset & 0x7FFF`; an
    /// undetected device reads as erased.
    pub fn read_byte(&self, offset: u32) -> (r: u8)
        requires
            self.wf(),
        ensures
            self matches BackupMedia::Sram(f) ==> r == f@[(offset & 0x7FFF) as int],
            self matches BackupMedia::Eeprom(e) ==> r == e.memory@[(offset & 0x1FFF) as int],
            *self matches BackupMedia::Flash(f) ==> r == flash_read(f, offset),
            (*self is Undetected) ==> r == ERASED,
    {
        proof {
            assert(offset & 0x7FFF < 0x8000) by (bit_vector);
            assert(offset & 0x1FFF < 0x2000) by (bit_vector);
        }
        match self {
            BackupMedia::Sram(f) => f.read((offset & 0x7FFF) as usize),
            BackupMedia::Flash(f) => f.read_byte(offset),
            BackupMedia::Eeprom(e) => e.memory.read((offset & 0x1FFF) as usize),
            BackupMedia::Undetected => ERASED,
        }
    }

    /// Writes a byte of backup space; dropped when no device was detected.
    pub fn write_byte(&mut self, offset: u32, value: u8)
        requires
            old(self).wf(),
        ensures
            final(self).wf(),
            final(self).path_spec() == old(self).path_spec(),
            *old(self) matches BackupMedia::Sram(f) ==> (*final(self) matches BackupMedia::Sram(g)
                && g@ == f@.update((offset & 0x7FFF) as int, value)),
            *old(self) matches BackupMedia::Eeprom(e) ==> (*final(self) matches BackupMedia::Eeprom(g)
                && g.memory@ == e.memory@.update((offset & 0x1FFF) as int, value)),
            *old(self) matches BackupMedia::Flash(f) ==> (*final(self) matches BackupMedia::Flash(g)
                && flash_write_effect(f, g, offset & 0xFFFF, value)),
            (*old(self) is Undetected) ==> (*final(self) is Undetected),
    {
        proof {
            assert(offset & 0x7FFF < 0x8000) by (bit_vector);
            assert(offset & 0x1FFF < 0x2000) by (bit_vector);
        }
        match self {
            BackupMedia::Sram(f) => f.write((offset & 0x7FFF) as usize, value),
            BackupMedia::Flash(f) => f.write_byte(offset, value),
            BackupMedia::Eeprom(e) => e.memory.write((offset & 0x1FFF) as usize, value),
            BackupMedia::Undetected => {},
        }
    }
}

/// An SRAM byte written at an offset is read back at that offset.
pub proof fn lemma_sram_write_then_read(image: Seq<u8>, offset: u32, value: u8)
    requires
        image.len() == SRAM_SIZE,
    ensures
        image.update((offset & 0x7FFF) as int, value)[(offset & 0x7FFF) as int] == value,
{
    assert(offset & 0x7FFF < 0x8000) by (bit_vector);
}

/// The device that a backup type asks for, freshly erased.
pub open spec fn media_for(media: BackupMedia, t: BackupType) -> bool {
    match t {
        BackupType::Sram => media matches BackupMedia::Sram(f) && f@ == Seq::new(
            SRAM_SIZE as nat,
            |i: int| ERASED,
        ),
        BackupType::Flash | BackupType::Flash512 => media matches BackupMedia::Flash(f) && f.size
            == FlashSize::Flash64k && f.wf(),
        BackupType::Flash1M => media matches BackupMedia::Flash(f) && f.size == FlashSize::Flash128k
            && f.wf(),
        BackupType::Eeprom => media matches BackupMedia::Eeprom(e) && e.wf() && e.memory@ == Seq::new(
            EEPROM_SIZE as nat,
            |i: int| ERASED,
        ),
        BackupType::AutoDetect => media is Undetected,
    }
}

/// Where the backup of a ROM loaded from `rom_path` is persisted.
pub open spec fn backup_path_for(rom_path: Option<Seq<char>>) -> Option<Seq<char>> {
    match rom_path {
        Some(p) => Some(with_extension_of(p, backup_ext())),
        None => None,
    }
}

/// Builds the backup device for a type; its sidecar path is the ROM path with
/// the extension replaced by `sav`, when a ROM path is given.
pub fn create_backup(backup_type: BackupType, rom_path: Option<String>) -> (r: BackupMedia)
    ensures
        media_for(r, backup_type),
        r.wf(),
        backup_type != BackupType::AutoDetect ==> r.path_spec() == backup_path_for(
            opt_str_view(rom_path),
        ),
{
    let backup_path: Option<String> = match rom_path {
        Some(p) => {
            let ext: String = "sav".to_owned();
            proof { reveal_strlit("sav"); assert(ext@ =~= backup_ext()); }
            Some(path_with_extension(p.as_str(), ext.as_str()))
        },
        None => None,
    };
    match backup_type {
        BackupType::Flash | BackupType::Flash512 => BackupMedia::Flash(
            Flash::new(backup_path, FlashSize::Flash64k),
        ),
        BackupType::Flash1M => BackupMedia::Flash(Flash::new(backup_path, FlashSize::Flash128k)),
        BackupType::Sram => BackupMedia::Sram(BackupFile::new(SRAM_SIZE, backup_path)),
        BackupType::Eeprom => BackupMedia::Eeprom(EepromController::new(backup_path)),
        BackupType::AutoDetect => BackupMedia::Undetected,
    }
}

/// Number of id strings searched for.
pub const ID_STRING_COUNT: usize = 5;

/// The id strings in the order they are searched for: `EEPROM`, `SRAM`,
/// `FLASH_`, `FLASH512_`, `FLASH1M_`.
pub open spec fn id_string(i: int) -> Seq<u8> {
    if i == 0 {
        seq![0x45u8, 0x45, 0x50, 0x52, 0x4F, 0x4D]
    } else if i == 1 {
        seq![0x53u8, 0x52, 0x41, 0x4D]
    } else if i == 2 {
        seq![0x46u8, 0x4C, 0x41, 0x53, 0x48, 0x5F]
    } else if i == 3 {
        seq![0x46u8, 0x4C, 0x41, 0x53, 0x48, 0x35, 0x31, 0x32, 0x5F]
    } else {
        seq![0x46u8, 0x4C, 0x41, 0x53, 0x48, 0x31, 0x4D, 0x5F]
    }
}

/// The backup type that each id string stands for.
pub open spec fn id_type(i: int) -> BackupType {
    if i == 0 {
        BackupType::Eeprom
    } else if i == 1 {
        BackupType::Sram
    } else if i == 2 {
        BackupType::Flash
    } else if i == 3 {
        BackupType::Flash512
    } else {
        BackupType::Flash1M
    }
}

fn id_string_bytes(i: usize) -> (r: Vec<u8>)
    requires
        i < ID_STRING_COUNT,
    ensures
        r@ == id_string(i as int),
{
    let r: Vec<u8> = if i == 0 {
        vec![0x45u8, 0x45, 0x50, 0x52, 0x4F, 0x4D]
    } else if i == 1 {
        vec![0x53u8, 0x52, 0x41, 0x4D]
    } else if i == 2 {
        vec![0x46u8, 0x4C, 0x41, 0x53, 0x48, 0x5F]
    } else if i == 3 {
        vec![0x46u8, 0x4C, 0x41, 0x53, 0x48, 0x35, 0x31, 0x32, 0x5F]
    } else {
        vec![0x46u8, 0x4C, 0x41, 0x53, 0x48, 0x31, 0x4D, 0x5F]
    };
    assert(r@ =~= id_string(i as int));
    r
}

fn id_string_type(i: usize) -> (r: BackupType)
    ensures
        r == id_type(i as int),
{
    if i == 0 {
        BackupType::Eeprom
    } else if i == 1 {
        BackupType::Sram
    } else if i == 2 {
        BackupType::Flash
    } else if i == 3 {
        BackupType::Flash512
    } else {
        BackupType::Flash1M
    }
}

/// The type of the first id string, from index `i` on, that occurs in the ROM.
pub open spec fn detected_from(rom: Seq<u8>, i: nat) -> Option<BackupType>
    decreases ID_STRING_COUNT - i,
{
    if i >= ID_STRING_COUNT {
        None
    } else if contains_bytes(rom, id_string(i as int)) {
        Some(id_type(i as int))
    } else {
        detected_from(rom, i + 1)
    }
}

/// The backup type that the ROM's id strings announce.
pub open spec fn detected_type(rom: Seq<u8>) -> Option<BackupType> {
    detected_from(rom, 0)
}

/// Scans the ROM for the id strings in their fixed order; the first one found
/// decides the type.
pub fn detect_backup_type(bytes: &Vec<u8>) -> (r: Option<BackupType>)
    ensures
        r == detected_type(bytes@),
{
    let mut i: usize = 0;
    while i < ID_STRING_COUNT
        invariant
            i <= ID_STRING_COUNT,
            detected_type(bytes@) == detected_from(bytes@, i as nat),
        decreases ID_STRING_COUNT - i,
    {
        let id: Vec<u8> = id_string_bytes(i);
        match search_bytes(bytes, &id) {
            Some(_) => {
                return Some(id_string_type(i));
            },
            None => {},
        }
        i = i + 1;
    }
    None
}

/// `.gba`, as bytes.
pub open spec fn gba_suffix() -> Seq<u8> {
    seq![0x2Eu8, 0x67, 0x62, 0x61]
}

/// A zip entry name that ends in `.gba`.
pub open spec fn is_gba_name(name: Seq<u8>) -> bool {
    name.len() >= 4 && name.subrange(name.len() - 4, name.len() as int) == gba_suffix()
}

/// Whether an entry name ends in `.gba`.
pub fn has_gba_suffix(name: &Vec<u8>) -> (r: bool)
    ensures
        r == is_gba_name(name@),
{
    let n: usize = name.len();
    if n < 4 {
        return false;
    }
    let r: bool = name[n - 4] == 0x2E && name[n - 3] == 0x67 && name[n - 2] == 0x62 && name[n
        - 1] == 0x61;
    proof {
        let tail = name@.subrange(n - 4, n as int);
        if r {
            assert(tail =~= gba_suffix());
        } else {
            assert(tail[0] != 0x2E || tail[1] != 0x67 || tail[2] != 0x62 || tail[3] != 0x61);
        }
    }
    r
}

/// Message of the error for an archive without a `.gba` entry.
pub open spec fn no_gba_entry_message() -> Seq<char> {
    "no .gba file contained in the zip file"@
}

/// The contents of the first entry, from index `i` on, whose name ends in
/// `.gba`; the message of the first error met on the way, or of there being
/// no such entry.
pub open spec fn gba_entry_from(archive: Seq<u8>, n: nat, i: nat) -> Result<Seq<u8>, Seq<char>>
    decreases n - i,
{
    if i >= n {
        Err(no_gba_entry_message())
    } else {
        match zip_entry_name(archive, i as int) {
            Err(m) => Err(m),
            Ok(name) => if is_gba_name(name) {
                zip_entry_data(archive, i as int)
            } else {
                gba_entry_from(archive, n, i + 1)
            },
        }
    }
}

/// The ROM held in a zip archive: its first entry whose name ends in `.gba`,
/// or the message of the error that prevents reading it.
pub open spec fn rom_in_zip(archive: Seq<u8>) -> Result<Seq<u8>, Seq<char>> {
    match zip_entry_count(archive) {
        Ok(n) => gba_entry_from(archive, n, 0),
        Err(m) => Err(m),
    }
}

/// Extracts the ROM from a zip archive: the first entry, in directory order,
/// whose name ends in `.gba`.
pub fn rom_from_zip(archive: &Vec<u8>) -> (r: GBAResult<Vec<u8>>)
    ensures
        match r {
            Ok(rom) => rom_in_zip(archive@) == Ok::<Seq<u8>, Seq<char>>(rom@),
            Err(e) => e matches GBAError::CartridgeLoadError(m) && rom_in_zip(archive@) == Err::<
                Seq<u8>,
                Seq<char>,
            >(m@),
        },
{
    let n: usize = match zip_len(archive) {
        Ok(n) => n,
        Err(msg) => {
            return Err(GBAError::CartridgeLoadError(msg));
        },
    };
    let mut i: usize = 0;
    while i < n
        invariant
            i <= n,
            zip_entry_count(archive@) == Ok::<nat, Seq<char>>(n as nat),
            rom_in_zip(archive@) == gba_entry_from(archive@, n as nat, i as nat),
        decreases n - i,
    {
        let name: Vec<u8> = match zip_name(archive, i) {
            Ok(name) => name,
            Err(msg) => {
                return Err(GBAError::CartridgeLoadError(msg));
            },
        };
        if has_gba_suffix(&name) {
            return match zip_data(archive, i) {
                Ok(rom) => Ok(rom),
                Err(msg) => Err(GBAError::CartridgeLoadError(msg)),
            };
        }
        i = i + 1;
    }
    Err(GBAError::CartridgeLoadError("no .gba file contained in the zip file".to_owned()))
}

/// `zip`, the extension of archived ROMs.
pub open spec fn zip_ext() -> Seq<char> {
    seq!['z', 'i', 'p']
}

/// The ROM image held in a file at `path` with the given contents: the `.gba`
/// entry of a zip archive, or the contents themselves.
pub open spec fn rom_in_file(path: Seq<char>, contents: Seq<u8>) -> Result<Seq<u8>, Seq<char>> {
    if extension_of(path) == Some(zip_ext()) {
        rom_in_zip(contents)
    } else {
        Ok(contents)
    }
}

/// Turns the contents of the file at `path` into the ROM image: a `.zip` file
/// is opened as an archive, any other file is the image itself.
pub fn load_rom(path: &str, contents: Vec<u8>) -> (r: GBAResult<Vec<u8>>)
    ensures
        match r {
            Ok(rom) => rom_in_file(path@, contents@) == Ok::<Seq<u8>, Seq<char>>(rom@),
            Err(e) => e matches GBAError::CartridgeLoadError(m) && rom_in_file(path@, contents@)
                == Err::<Seq<u8>, Seq<char>>(m@),
        },
{
    let zip: String = "zip".to_owned();
    proof { reveal_strlit("zip"); assert(zip@ =~= zip_ext()); }
    match path_extension(path) {
        Some(ext) => {
            if ext == zip {
                rom_from_zip(&contents)
            } else {
                Ok(contents)
            }
        },
        None => Ok(contents),
    }
}

fn copy_bytes(bytes: &[u8]) -> (r: Vec<u8>)
    ensures
        r@ == bytes@,
{
    let mut r: Vec<u8> = Vec::new();
    let mut i: usize = 0;
    while i < bytes.len()
        invariant
            i <= bytes@.len(),
            r@ == bytes@.subrange(0, i as int),
        decreases bytes@.len() - i,
    {
        r.push(bytes[i]);
        i = i + 1;
        assert(r@ =~= bytes@.subrange(0, i as int));
    }
    assert(r@ =~= bytes@);
    r
}

/// Configuration of a cartridge to be built.
#[derive(Debug)]
pub struct GamepakBuilder {
    path: Option<String>,
    bytes: Option<Vec<u8>>,
    file_contents: Option<Vec<u8>>,
    save_type: BackupType,
    create_backup_file: bool,
}

impl GamepakBuilder {
    pub closed spec fn path_spec(&self) -> Option<Seq<char>> {
        opt_str_view(self.path)
    }

    pub closed spec fn bytes_spec(&self) -> Option<Seq<u8>> {
        match self.bytes {
            Some(b) => Some(b@),
            None => None,
        }
    }

    pub closed spec fn file_contents_spec(&self) -> Option<Seq<u8>> {
        match self.file_contents {
            Some(b) => Some(b@),
            None => None,
        }
    }

    pub closed spec fn save_type_spec(&self) -> BackupType {
        self.save_type
    }

    pub closed spec fn backup_to_file_spec(&self) -> bool {
        self.create_backup_file
    }

    /// The ROM image the builder resolves: the buffer if one was given, else
    /// the image held in the file's contents; or the message of the error.
    pub open spec fn rom_spec(&self) -> Result<Seq<u8>, Seq<char>> {
        match self.bytes_spec() {
            Some(b) => Ok(b),
            None => match (self.path_spec(), self.file_contents_spec()) {
                (Some(p), Some(c)) => rom_in_file(p, c),
                (Some(_), None) => Err("the ROM file was not read"@),
                (None, _) => Err("either provide file() or buffer()"@),
            },
        }
    }

    /// The backup type the cartridge gets for a ROM image: the forced type,
    /// or the detected one under `AutoDetect`.
    pub open spec fn backup_type_for(&self, rom: Seq<u8>) -> BackupType {
        if self.save_type_spec() == BackupType::AutoDetect {
            match detected_type(rom) {
                Some(t) => t,
                None => BackupType::AutoDetect,
            }
        } else {
            self.save_type_spec()
        }
    }

    /// Where the backup is persisted: beside the ROM file, unless persistence
    /// was switched off or no file was given.
    pub open spec fn backup_path_spec(&self) -> Option<Seq<char>> {
        if self.backup_to_file_spec() {
            backup_path_for(self.path_spec())
        } else {
            None
        }
    }

    /// No input, auto-detected backup, persisted to a sidecar file.
    pub fn new() -> (r: GamepakBuilder)
        ensures
            r.path_spec().is_none(),
            r.bytes_spec().is_none(),
            r.file_contents_spec().is_none(),
            r.save_type_spec() == BackupType::AutoDetect,
            r.backup_to_file_spec(),
    {
        GamepakBuilder {
            save_type: BackupType::AutoDetect,
            path: None,
            bytes: None,
            file_contents: None,
            create_backup_file: true,
        }
    }

    /// Uses the given bytes as the ROM image.
    pub fn buffer(self, bytes: &[u8]) -> (r: Self)
        ensures
            r.bytes_spec() == Some(bytes@),
            r.path_spec() == self.path_spec(),
            r.file_contents_spec() == self.file_contents_spec(),
            r.save_type_spec() == self.save_type_spec(),
            r.backup_to_file_spec() == self.backup_to_file_spec(),
    {
        let mut s = self;
        s.bytes = Some(copy_bytes(bytes));
        s
    }

    /// Loads the ROM from the file at `path`.
    pub fn file(self, path: &str) -> (r: Self)
        ensures
            r.path_spec() == Some(path@),
            r.bytes_spec() == self.bytes_spec(),
            r.file_contents_spec() == self.file_contents_spec(),
            r.save_type_spec() == self.save_type_spec(),
            r.backup_to_file_spec() == self.backup_to_file_spec(),
    {
        let mut s = self;
        s.path = Some(path.to_owned());
        s
    }

    /// The contents of the file given to `file`, as read from disk.
    pub fn file_contents(self, contents: Vec<u8>) -> (r: Self)
        ensures
            r.file_contents_spec() == Some(contents@),
            r.path_spec() == self.path_spec(),
            r.bytes_spec() == self.bytes_spec(),
            r.save_type_spec() == self.save_type_spec(),
            r.backup_to_file_spec() == self.backup_to_file_spec(),
    {
        let mut s = self;
        s.file_contents = Some(contents);
        s
    }

    /// The file whose contents must still be read before `build`: set when a
    /// path but neither a buffer nor the file's contents were given.
    pub fn pending_file(&self) -> (r: Option<String>)
        ensures
            opt_str_view(r) == (if self.bytes_spec().is_none() && self.file_contents_spec().is_none() {
                self.path_spec()
            } else {
                None
            }),
    {
        if self.bytes.is_none() && self.file_contents.is_none() {
            match &self.path {
                Some(p) => Some(p.clone()),
                None => None,
            }
        } else {
            None
        }
    }

    /// Forces the backup type.
    pub fn save_type(self, save_type: BackupType) -> (r: Self)
        ensures
            r.save_type_spec() == save_type,
            r.path_spec() == self.path_spec(),
            r.bytes_spec() == self.bytes_spec(),
            r.file_contents_spec() == self.file_contents_spec(),
            r.backup_to_file_spec() == self.backup_to_file_spec(),
    {
        let mut s = self;
        s.save_type = save_type;
        s
    }

    pub fn with_sram(self) -> (r: Self)
        ensures
            r.save_type_spec() == BackupType::Sram,
            r.path_spec() == self.path_spec(),
            r.bytes_spec() == self.bytes_spec(),
            r.file_contents_spec() == self.file_contents_spec(),
            r.backup_to_file_spec() == self.backup_to_file_spec(),
    {
        self.save_type(BackupType::Sram)
    }

    pub fn with_flash128k(self) -> (r: Self)
        ensures
            r.save_type_spec() == BackupType::Flash1M,
            r.path_spec() == self.path_spec(),
            r.bytes_spec() == self.bytes_spec(),
            r.file_contents_spec() == self.file_contents_spec(),
            r.backup_to_file_spec() == self.backup_to_file_spec(),
    {
        self.save_type(BackupType::Flash1M)
    }

    pub fn with_flash64k(self) -> (r: Self)
        ensures
            r.save_type_spec() == BackupType::Flash512,
            r.path_spec() == self.path_spec(),
            r.bytes_spec() == self.bytes_spec(),
            r.file_contents_spec() == self.file_contents_spec(),
            r.backup_to_file_spec() == self.backup_to_file_spec(),
    {
        self.save_type(BackupType::Flash512)
    }

    pub fn with_eeprom(self) -> (r: Self)
        ensures
            r.save_type_spec() == BackupType::Eeprom,
            r.path_spec() == self.path_spec(),
            r.bytes_spec() == self.bytes_spec(),
            r.file_contents_spec() == self.file_contents_spec(),
            r.backup_to_file_spec() == self.backup_to_file_spec(),
    {
        self.save_type(BackupType::Eeprom)
    }

    /// Keeps the backup in memory only.
    pub fn without_backup_to_file(self) -> (r: Self)
        ensures
            !r.backup_to_file_spec(),
            r.save_type_spec() == self.save_type_spec(),
            r.path_spec() == self.path_spec(),
            r.bytes_spec() == self.bytes_spec(),
            r.file_contents_spec() == self.file_contents_spec(),
    {
        let mut s = self;
        s.create_backup_file = false;
        s
    }

    /// Builds the cartridge: resolves the ROM image, parses its header, picks
    /// the backup type (detecting it under `AutoDetect`) and creates the
    /// backup device, persisted beside the ROM file unless switched off.
    pub fn build(self) -> (r: GBAResult<Cartridge>)
        ensures
            match r {
                Ok(c) => {
                    &&& self.rom_spec() == Ok::<Seq<u8>, Seq<char>>(c.bytes@)
                    &&& c.size == c.bytes@.len()
                    &&& header_of(c.header, c.bytes@)
                    &&& media_for(c.backup, self.backup_type_for(c.bytes@))
                    &&& c.backup.wf()
                    &&& self.backup_type_for(c.bytes@) != BackupType::AutoDetect
                        ==> c.backup.path_spec() == self.backup_path_spec()
                    &&& !self.backup_to_file_spec() ==> c.backup.path_spec().is_none()
                },
                Err(e) => e matches GBAError::CartridgeLoadError(m) && self.rom_spec() == Err::<
                    Seq<u8>,
                    Seq<char>,
                >(m@),
            },
    {
        let GamepakBuilder { path, bytes, file_contents, save_type, create_backup_file } = self;
        let rom: Vec<u8> = match bytes {
            Some(b) => b,
            None => match (&path, file_contents) {
                (Some(p), Some(c)) => match load_rom(p.as_str(), c) {
                    Ok(rom) => rom,
                    Err(e) => {
                        return Err(e);
                    },
                },
                (Some(_), None) => {
                    return Err(
                        GBAError::CartridgeLoadError("the ROM file was not read".to_owned()),
                    );
                },
                (None, _) => {
                    return Err(
                        GBAError::CartridgeLoadError(
                            "either provide file() or buffer()".to_owned(),
                        ),
                    );
                },
            },
        };
        let header: Header = parse(&rom);
        let backup_path: Option<String> = if create_backup_file { path } else { None };
        let backup_type: BackupType = if save_type == BackupType::AutoDetect {
            match detect_backup_type(&rom) {
                Some(detected) => detected,
                None => BackupType::AutoDetect,
            }
        } else {
            save_type
        };
        let backup: BackupMedia = create_backup(backup_type, backup_path);
        let size: usize = rom.len();
        Ok(Cartridge { header, bytes: rom, size, backup })
    }
}

} // verus!
