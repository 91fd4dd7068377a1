use vstd::prelude::*;

verus! {

/// Requested or detected kind of backup media.
#[derive(Debug, Clone, Copy, PartialEq, Eq, Structural)]
pub enum BackupType {
    AutoDetect,
    Sram,
    Flash,
    Flash512,
    Flash1M,
    Eeprom,
}

pub const SRAM_SIZE: usize = 0x8000;
pub const FLASH_BANK_SIZE: usize = 0x10000;
pub const EEPROM_SIZE: usize = 0x2000;
/// Value of an erased backup cell.
pub const ERASED: u8 = 0xFF;

/// The in-memory image of a backup device, with the sidecar path it is
/// persisted to, if any.
#[derive(Debug)]
pub struct BackupFile {
    path: Option<String>,
    buffer: Vec<u8>,
}

impl View for BackupFile {
    type V = Seq<u8>;

    closed spec fn view(&self) -> Seq<u8> {
        self.buffer@
    }
}

/// The view of an optional string.
pub open spec fn opt_str_view(p: Option<String>) -> Option<Seq<char>> {
    match p {
        Some(s) => Some(s@),
        None => None,
    }
}

impl BackupFile {
    /// The sidecar path the image is persisted to.
    pub closed spec fn path_spec(&self) -> Option<Seq<char>> {
        opt_str_view(self.path)
    }

    /// An erased image of `size` bytes.
    pub fn new(size: usize, path: Option<String>) -> (r: BackupFile)
        ensures
            r@ == Seq::new(size as nat, |i: int| ERASED),
            r.path_spec() == opt_str_view(path),
    {
        let mut buffer: Vec<u8> = Vec::new();
        let mut i: usize = 0;
        while i < size
            invariant
                i <= size,
                buffer@.len() == i,
                forall|j: int| 0 <= j < i ==> buffer@[j] == ERASED,
            decreases size - i,
        {
            buffer.push(ERASED);
            i = i + 1;
        }
        let r = BackupFile { path, buffer };
        assert(r@ =~= Seq::new(size as nat, |i: int| ERASED));
        r
    }

    pub fn len(&self) -> (r: usize)
        ensures
            r == self@.len(),
    {
        self.buffer.len()
    }

    pub fn read(&self, offset: usize) -> (r: u8)
        requires
            offset < self@.len(),
        ensures
            r == self@[offset as int],
    {
        self.buffer[offset]
    }

    pub fn write(&mut self, offset: usize, value: u8)
        requires
            offset < old(self)@.len(),
        ensures
            final(self)@ == old(self)@.update(offset as int, value),
            final(self).path_spec() == old(self).path_spec(),
    {
        self.buffer.set(offset, value);
    }

    /// Sets `count` bytes from `start` to the erased value.
    pub fn erase(&mut self, start: usize, count: usize)
        requires
            start + count <= old(self)@.len(),
        ensures
            final(self)@.len() == old(self)@.len(),
            forall|i: int|
                0 <= i < old(self)@.len() ==> #[trigger] final(self)@[i] == if start <= i < start + count {
                    ERASED
                } else {
                    old(self)@[i]
                },
            final(self).path_spec() == old(self).path_spec(),
    {
        let len: usize = self.buffer.len();
        let mut k: usize = 0;
        while k < count
            invariant
                k <= count,
                len == old(self)@.len(),
                start + count <= old(self)@.len(),
                self@.len() == old(self)@.len(),
                self.path_spec() == old(self).path_spec(),
                forall|i: int|
                    0 <= i < old(self)@.len() ==> #[trigger] self@[i] == if start <= i < start + k {
                        ERASED
                    } else {
                        old(self)@[i]
                    },
            decreases count - k,
        {
            self.buffer.set(start + k, ERASED);
            k = k + 1;
        }
    }

    /// The image as it is written to the sidecar file.
    pub fn image(&self) -> (r: &Vec<u8>)
        ensures
            r@ == self@,
    {
        &self.buffer
    }

    /// The sidecar path, if the image is persisted.
    pub fn path(&self) -> (r: Option<String>)
        ensures
            opt_str_view(r) == self.path_spec(),
    {
        match &self.path {
            Some(p) => Some(p.clone()),
            None => None,
        }
    }

    /// Restores an image read back from the sidecar file: the bytes it holds
    /// replace the start of the image, the rest is left as it is.
    pub fn load(&mut self, data: &Vec<u8>)
        ensures
            final(self)@ == loaded(old(self)@, data@),
            final(self).path_spec() == old(self).path_spec(),
    {
        let n: usize = if data.len() < self.buffer.len() { data.len() } else { self.buffer.len() };
        let mut k: usize = 0;
        while k < n
            invariant
                k <= n,
                n <= data@.len(),
                n == if data@.len() < old(self)@.len() { data@.len() } else { old(self)@.len() },
                self@.len() == old(self)@.len(),
                self.path_spec() == old(self).path_spec(),
                forall|i: int|
                    0 <= i < old(self)@.len() ==> #[trigger] self@[i] == if i < k {
                        data@[i]
                    } else {
                        old(self)@[i]
                    },
            decreases n - k,
        {
            self.buffer.set(k, data[k]);
            k = k + 1;
        }
        assert(self@ =~= loaded(old(self)@, data@));
    }
}

/// An image after the bytes of `data` were loaded over its start.
pub open spec fn loaded(image: Seq<u8>, data: Seq<u8>) -> Seq<u8> {
    Seq::new(image.len(), |i: int| if i < data.len() { data[i] } else { image[i] })
}

/// Persisting an image and loading it back into an image of the same size
/// restores it exactly.
pub proof fn lemma_flush_then_reload_restores(image: Seq<u8>, other: Seq<u8>)
    requires
        other.len() == image.len(),
    ensures
        loaded(other, image) == image,
{
    assert(loaded(other, image) =~= image);
}

/// Capacity of a flash chip: one or two banks of 64 KiB.
#[derive(Debug, Clone, Copy, PartialEq, Eq, Structural)]
pub enum FlashSize {
    Flash64k,
    Flash128k,
}

impl FlashSize {
    pub open spec fn banks_spec(self) -> usize {
        match self {
            FlashSize::Flash64k => 1,
            FlashSize::Flash128k => 2,
        }
    }

    #[verifier::when_used_as_spec(banks_spec)]
    pub fn banks(self) -> (r: usize)
        ensures
            r == self.banks_spec(),
    {
        match self {
            FlashSize::Flash64k => 1,
            FlashSize::Flash128k => 2,
        }
    }
}

/// Manufacturer (low byte) and device (high byte) ids: Macronix for 64 KiB,
/// Sanyo for 128 KiB.
pub const FLASH_64K_CHIP_ID: u16 = 0x1CC2;
pub const FLASH_128K_CHIP_ID: u16 = 0x1362;

/// Progress through the two-byte unlock sequence that precedes each command.
#[derive(Debug, Clone, Copy, PartialEq, Eq, Structural)]
pub enum FlashPhase {
    Ready,
    Unlocked1,
    Unlocked2,
}

/// What the next byte written is taken as.
#[derive(Debug, Clone, Copy, PartialEq, Eq, Structural)]
pub enum FlashMode {
    Command,
    WriteByte,
    SelectBank,
}

pub const FLASH_CMD_ADDR: u32 = 0x5555;
pub const FLASH_UNLOCK_ADDR: u32 = 0x2AAA;
pub const FLASH_CMD_CHIP_ID_ENTER: u8 = 0x90;
pub const FLASH_CMD_CHIP_ID_EXIT: u8 = 0xF0;
pub const FLASH_CMD_PRE_ERASE: u8 = 0x80;
pub const FLASH_CMD_ERASE_ALL: u8 = 0x10;
pub const FLASH_CMD_ERASE_SECTOR: u8 = 0x30;
pub const FLASH_CMD_WRITE_BYTE: u8 = 0xA0;
pub const FLASH_CMD_SELECT_BANK: u8 = 0xB0;
pub const FLASH_SECTOR_SIZE: usize = 0x1000;

/// A flash backup chip with its command state machine.
#[derive(Debug)]
pub struct Flash {
    pub size: FlashSize,
    pub chip_id: u16,
    pub phase: FlashPhase,
    pub mode: FlashMode,
    pub chip_id_mode: bool,
    pub erase_armed: bool,
    pub bank: usize,
    pub memory: BackupFile,
}

/// Index into the image of `offset` in `bank`.
pub open spec fn flash_index(bank: int, offset: u32) -> int {
    bank * FLASH_BANK_SIZE + (offset & 0xFFFF) as int
}

impl Flash {
    pub open spec fn wf(&self) -> bool {
        &&& self.memory@.len() == self.size.banks() * FLASH_BANK_SIZE
        &&& self.bank < self.size.banks()
    }

    /// An erased chip in read mode, bank 0 selected.
    pub fn new(path: Option<String>, size: FlashSize) -> (r: Flash)
        ensures
            r.wf(),
            r.size == size,
            r.chip_id == (match size {
                FlashSize::Flash64k => FLASH_64K_CHIP_ID,
                FlashSize::Flash128k => FLASH_128K_CHIP_ID,
            }),
            r.phase == FlashPhase::Ready,
            r.mode == FlashMode::Command,
            !r.chip_id_mode && !r.erase_armed,
            r.bank == 0,
            r.memory@ == Seq::new((size.banks() * FLASH_BANK_SIZE) as nat, |i: int| ERASED),
            r.memory.path_spec() == opt_str_view(path),
    {
        let chip_id: u16 = match size {
            FlashSize::Flash64k => FLASH_64K_CHIP_ID,
            FlashSize::Flash128k => FLASH_128K_CHIP_ID,
        };
        let memory = BackupFile::new(size.banks() * FLASH_BANK_SIZE, path);
        Flash {
            size,
            chip_id,
            phase: FlashPhase::Ready,
            mode: FlashMode::Command,
            chip_id_mode: false,
            erase_armed: false,
            bank: 0,
            memory,
        }
    }

    /// Reads a byte: the chip ids at offsets 0 and 1 in chip-id mode, else the
    /// byte at `offset` in the selected bank.
    pub fn read_byte(&self, offset: u32) -> (r: u8)
        requires
            self.wf(),
        ensures
            r == flash_read(*self, offset),
    {
        let off: u32 = offset & 0xFFFF;
        if self.chip_id_mode && off == 0 {
            (self.chip_id & 0xFF) as u8
        } else if self.chip_id_mode && off == 1 {
            (self.chip_id >> 8u16) as u8
        } else {
            proof { assert(offset & 0xFFFF < 0x10000) by (bit_vector); }
            self.memory.read(self.bank * FLASH_BANK_SIZE + off as usize)
        }
    }

    /// Writes a byte to the chip: a pending byte program or bank select takes
    /// it, otherwise it drives the unlock sequence and, once unlocked, is
    /// executed as a command.
    #[verifier::rlimit(50)]
    pub fn write_byte(&mut self, offset: u32, value: u8)
        requires
            old(self).wf(),
        ensures
            final(self).wf(),
            final(self).size == old(self).size,
            final(self).chip_id == old(self).chip_id,
            final(self).memory.path_spec() == old(self).memory.path_spec(),
            flash_write_effect(*old(self), *final(self), offset & 0xFFFF, value),
    {
        let off: u32 = offset & 0xFFFF;
        proof {
            assert(offset & 0xFFFF < 0x10000) by (bit_vector);
            assert(self.bank * FLASH_BANK_SIZE + FLASH_BANK_SIZE <= self.size.banks() * FLASH_BANK_SIZE)
                by (nonlinear_arith)
                requires
                    self.bank < self.size.banks(),
            ;
            assert((value & 1) < 2) by (bit_vector);
            assert((offset & 0xFFFF) & 0xFFFF == offset & 0xFFFF) by (bit_vector);
        }
        let base: usize = self.bank * FLASH_BANK_SIZE;
        if self.mode == FlashMode::WriteByte {
            self.memory.write(base + off as usize, value);
            self.mode = FlashMode::Command;
        } else if self.mode == FlashMode::SelectBank && off == 0 {
            self.bank = if self.size == FlashSize::Flash128k { (value & 1) as usize } else { 0 };
            self.mode = FlashMode::Command;
        } else {
            match self.phase {
                FlashPhase::Ready => {
                    if off == FLASH_CMD_ADDR && value == 0xAA {
                        self.phase = FlashPhase::Unlocked1;
                    }
                }
                FlashPhase::Unlocked1 => {
                    self.phase = if off == FLASH_UNLOCK_ADDR && value == 0x55 {
                        FlashPhase::Unlocked2
                    } else {
                        FlashPhase::Ready
                    };
                }
                FlashPhase::Unlocked2 => {
                    self.phase = FlashPhase::Ready;
                    if off == FLASH_CMD_ADDR {
                        if value == FLASH_CMD_CHIP_ID_ENTER {
                            self.chip_id_mode = true;
                        } else if value == FLASH_CMD_CHIP_ID_EXIT {
                            self.chip_id_mode = false;
                        } else if value == FLASH_CMD_PRE_ERASE {
                            self.erase_armed = true;
                        } else if value == FLASH_CMD_ERASE_ALL && self.erase_armed {
                            let n: usize = self.memory.len();
                            self.memory.erase(0, n);
                            self.erase_armed = false;
                        } else if value == FLASH_CMD_WRITE_BYTE {
                            self.mode = FlashMode::WriteByte;
                        } else if value == FLASH_CMD_SELECT_BANK {
                            self.mode = FlashMode::SelectBank;
                        }
                    } else if value == FLASH_CMD_ERASE_SECTOR && self.erase_armed {
                        proof { assert(off & 0xF000 <= 0xF000) by (bit_vector); }
                        self.memory.erase(base + (off & 0xF000) as usize, FLASH_SECTOR_SIZE);
                        self.erase_armed = false;
                    }
                }
            }
        }
    }
}

/// The effect of writing `value` at `off` (already reduced to 16 bits) on a chip.
pub open spec fn flash_write_effect(old: Flash, new: Flash, off: u32, value: u8) -> bool {
    let base = old.bank * FLASH_BANK_SIZE;
    if old.mode == FlashMode::WriteByte {
        &&& new.memory@ == old.memory@.update(flash_index(old.bank as int, off), value)
        &&& new.mode == FlashMode::Command
        &&& new.phase == old.phase && new.bank == old.bank
        &&& new.chip_id_mode == old.chip_id_mode && new.erase_armed == old.erase_armed
    } else if old.mode == FlashMode::SelectBank && off == 0 {
        &&& new.bank == (if old.size == FlashSize::Flash128k { (value & 1) as usize } else { 0 })
        &&& new.mode == FlashMode::Command
        &&& new.memory@ == old.memory@ && new.phase == old.phase
        &&& new.chip_id_mode == old.chip_id_mode && new.erase_armed == old.erase_armed
    } else {
        &&& new.bank == old.bank
        &&& new.phase == flash_next_phase(old.phase, off, value)
        &&& new.mode == (if old.phase == FlashPhase::Unlocked2 && off == FLASH_CMD_ADDR
            && value == FLASH_CMD_WRITE_BYTE {
            FlashMode::WriteByte
        } else if old.phase == FlashPhase::Unlocked2 && off == FLASH_CMD_ADDR && value
            == FLASH_CMD_SELECT_BANK {
            FlashMode::SelectBank
        } else {
            old.mode
        })
        &&& new.chip_id_mode == (if old.phase == FlashPhase::Unlocked2 && off == FLASH_CMD_ADDR
            && value == FLASH_CMD_CHIP_ID_ENTER {
            true
        } else if old.phase == FlashPhase::Unlocked2 && off == FLASH_CMD_ADDR && value
            == FLASH_CMD_CHIP_ID_EXIT {
            false
        } else {
            old.chip_id_mode
        })
        &&& new.erase_armed == (if old.phase == FlashPhase::Unlocked2 && off == FLASH_CMD_ADDR
            && value == FLASH_CMD_PRE_ERASE {
            true
        } else if old.phase == FlashPhase::Unlocked2 && old.erase_armed && ((off
            == FLASH_CMD_ADDR && value == FLASH_CMD_ERASE_ALL) || (off != FLASH_CMD_ADDR && value
            == FLASH_CMD_ERASE_SECTOR)) {
            false
        } else {
            old.erase_armed
        })
        &&& new.memory@.len() == old.memory@.len()
        &&& forall|i: int|
            0 <= i < old.memory@.len() ==> #[trigger] new.memory@[i] == (if old.phase
                == FlashPhase::Unlocked2 && old.erase_armed && off == FLASH_CMD_ADDR && value
                == FLASH_CMD_ERASE_ALL {
                ERASED
            } else if old.phase == FlashPhase::Unlocked2 && old.erase_armed && off
                != FLASH_CMD_ADDR && value == FLASH_CMD_ERASE_SECTOR && base + (off & 0xF000) <= i
                < base + (off & 0xF000) + FLASH_SECTOR_SIZE {
                ERASED
            } else {
                old.memory@[i]
            })
    }
}

/// What a byte read at `offset` returns.
pub open spec fn flash_read(f: Flash, offset: u32) -> u8 {
    if f.chip_id_mode && (offset & 0xFFFF) == 0 {
        (f.chip_id & 0xFF) as u8
    } else if f.chip_id_mode && (offset & 0xFFFF) == 1 {
        (f.chip_id >> 8u16) as u8
    } else {
        f.memory@[flash_index(f.bank as int, offset)]
    }
}

/// Phase after a byte that is not taken by a pending program or bank select.
pub open spec fn flash_next_phase(phase: FlashPhase, off: u32, value: u8) -> FlashPhase {
    match phase {
        FlashPhase::Ready => if off == FLASH_CMD_ADDR && value == 0xAA {
            FlashPhase::Unlocked1
        } else {
            FlashPhase::Ready
        },
        FlashPhase::Unlocked1 => if off == FLASH_UNLOCK_ADDR && value == 0x55 {
            FlashPhase::Unlocked2
        } else {
            FlashPhase::Ready
        },
        FlashPhase::Unlocked2 => FlashPhase::Ready,
    }
}

/// Capacity of a serial EEPROM, which fixes the width of request addresses.
#[derive(Debug, Clone, Copy, PartialEq, Eq, Structural)]
pub enum EepromSize {
    /// 512 bytes, 6-bit block addresses.
    Eeprom512,
    /// 8 KiB, 14-bit block addresses of which the low 10 are used.
    Eeprom8k,
}

impl EepromSize {
    pub open spec fn addr_bits_spec(self) -> usize {
        match self {
            EepromSize::Eeprom512 => 6,
            EepromSize::Eeprom8k => 14,
        }
    }

    #[verifier::when_used_as_spec(addr_bits_spec)]
    pub fn addr_bits(self) -> (r: usize)
        ensures
            r == self.addr_bits_spec(),
    {
        match self {
            EepromSize::Eeprom512 => 6,
            EepromSize::Eeprom8k => 14,
        }
    }

    /// Number of 8-byte blocks.
    pub open spec fn blocks_spec(self) -> usize {
        match self {
            EepromSize::Eeprom512 => 64,
            EepromSize::Eeprom8k => 1024,
        }
    }

    #[verifier::when_used_as_spec(blocks_spec)]
    pub fn blocks(self) -> (r: usize)
        ensures
            r == self.blocks_spec(),
    {
        match self {
            EepromSize::Eeprom512 => 64,
            EepromSize::Eeprom8k => 1024,
        }
    }
}

/// Bits streamed out after a read request: 4 dummy bits, then 64 data bits.
pub const EEPROM_READ_STREAM_BITS: usize = 68;

/// The number a sequence of bits spells, most significant first.
pub open spec fn bits_value(bits: Seq<u8>) -> nat
    decreases bits.len(),
{
    if bits.len() == 0 {
        0
    } else {
        2 * bits_value(bits.drop_last()) + bits.last() as nat
    }
}

/// Length of a complete read request: opcode `11`, the address, an end bit.
pub open spec fn read_request_len(size: EepromSize) -> int {
    2 + size.addr_bits() + 1
}

/// Length of a complete write request: opcode `10`, the address, 64 data
/// bits, an end bit.
pub open spec fn write_request_len(size: EepromSize) -> int {
    2 + size.addr_bits() + 64 + 1
}

/// The block a complete request addresses.
pub open spec fn request_block(size: EepromSize, req: Seq<u8>) -> int {
    (bits_value(req.subrange(2, 2 + size.addr_bits())) % (size.blocks() as nat)) as int
}

/// The image after the 64 data bits of a write request were stored in its block.
pub open spec fn image_after_write(size: EepromSize, image: Seq<u8>, req: Seq<u8>) -> Seq<u8> {
    let base = 8 * request_block(size, req);
    let data = 2 + size.addr_bits();
    Seq::new(
        image.len(),
        |i: int|
            if base <= i < base + 8 {
                bits_value(req.subrange(data + 8 * (i - base), data + 8 * (i - base) + 8)) as u8
            } else {
                image[i]
            },
    )
}

/// The bit a read stream yields at position `pos`: zero for the 4 dummy bits,
/// then the block's bytes, most significant bit first.
pub open spec fn stream_bit(image: Seq<u8>, block: int, pos: int) -> u16 {
    if pos < 4 {
        0
    } else {
        ((image[8 * block + (pos - 4) / 8] >> (7 - (pos - 4) % 8) as u8) & 1) as u16
    }
}

/// A serial EEPROM: requests arrive one bit at a time; a read request makes the
/// addressed block stream out, a write request stores 64 bits into a block.
#[derive(Debug)]
pub struct EepromController {
    pub size: EepromSize,
    pub size_detected: bool,
    pub memory: BackupFile,
    pub request: Vec<u8>,
    pub read_block: Option<usize>,
    pub read_pos: usize,
}

proof fn lemma_bits_value_step(s: Seq<u8>, k: int)
    requires
        0 <= k < s.len(),
    ensures
        bits_value(s.subrange(0, k + 1)) == 2 * bits_value(s.subrange(0, k)) + s[k] as nat,
{
    assert(s.subrange(0, k + 1).drop_last() =~= s.subrange(0, k));
}

/// The number spelled by `count` bits of `bits` from `start`, most significant first.
fn read_bits(bits: &Vec<u8>, start: usize, count: usize) -> (r: u32)
    requires
        start + count <= bits@.len(),
        count <= 14,
        forall|i: int| 0 <= i < bits@.len() ==> bits@[i] <= 1,
    ensures
        r == bits_value(bits@.subrange(start as int, start + count)),
        r < 0x4000,
{
    let len: usize = bits.len();
    let mut acc: u32 = 0;
    let mut k: usize = 0;
    let ghost s = bits@.subrange(start as int, start + count);
    proof {
        vstd::arithmetic::power2::lemma2_to64();
        assert(s.subrange(0, 0) =~= Seq::<u8>::empty());
    }
    while k < count
        invariant
            k <= count,
            len == bits@.len(),
            count <= 14,
            start + count <= bits@.len(),
            s == bits@.subrange(start as int, start + count),
            forall|i: int| 0 <= i < bits@.len() ==> bits@[i] <= 1,
            acc == bits_value(s.subrange(0, k as int)),
            acc < vstd::arithmetic::power2::pow2(k as nat),
        decreases count - k,
    {
        proof {
            lemma_bits_value_step(s, k as int);
            vstd::arithmetic::power2::lemma_pow2_unfold((k + 1) as nat);
            vstd::arithmetic::power2::lemma2_to64();
            vstd::arithmetic::power2::lemma_pow2_strictly_increases(k as nat, 14);
        }
        acc = 2 * acc + bits[start + k] as u32;
        k = k + 1;
    }
    proof {
        assert(s.subrange(0, count as int) =~= s);
        vstd::arithmetic::power2::lemma2_to64();
        if count < 14 {
            vstd::arithmetic::power2::lemma_pow2_strictly_increases(count as nat, 14);
        }
    }
    acc
}

impl EepromController {
    pub open spec fn wf(&self) -> bool {
        &&& self.memory@.len() == EEPROM_SIZE
        &&& self.request@.len() < write_request_len(self.size)
        &&& forall|i: int| 0 <= i < self.request@.len() ==> self.request@[i] <= 1
        &&& (self.request@.len() >= 1 ==> self.request@[0] == 1)
        &&& (self.request@.len() >= 2 && self.request@[1] == 1 ==> self.request@.len()
            < read_request_len(self.size))
        &&& (self.read_block matches Some(b) ==> b < self.size.blocks() && self.read_pos
            < EEPROM_READ_STREAM_BITS)
    }

    /// An erased 8 KiB EEPROM, idle; its size is not yet detected.
    pub fn new(path: Option<String>) -> (r: EepromController)
        ensures
            r.wf(),
            r.size == EepromSize::Eeprom8k,
            !r.size_detected,
            r.request@.len() == 0,
            r.read_block.is_none(),
            r.memory@ == Seq::new(EEPROM_SIZE as nat, |i: int| ERASED),
            r.memory.path_spec() == opt_str_view(path),
    {
        EepromController {
            size: EepromSize::Eeprom8k,
            size_detected: false,
            memory: BackupFile::new(EEPROM_SIZE, path),
            request: Vec::new(),
            read_block: None,
            read_pos: 0,
        }
    }

    /// Fixes the size from the length, in bits, of the first request seen: 9 or
    /// 73 bits mean 6-bit addresses, 17 or 81 bits 14-bit addresses.
    pub fn detect_size(&mut self, request_bits: usize)
        requires
            old(self).wf(),
            old(self).request@.len() == 0,
        ensures
            final(self).wf(),
            final(self).size == (if !old(self).size_detected && (request_bits == 9 || request_bits
                == 73) {
                EepromSize::Eeprom512
            } else if !old(self).size_detected && (request_bits == 17 || request_bits == 81) {
                EepromSize::Eeprom8k
            } else {
                old(self).size
            }),
            final(self).size_detected == (old(self).size_detected || request_bits == 9
                || request_bits == 73 || request_bits == 17 || request_bits == 81),
            final(self).memory@ == old(self).memory@,
            final(self).memory.path_spec() == old(self).memory.path_spec(),
            final(self).request@ == old(self).request@,
            final(self).read_block.is_none(),
    {
        if !self.size_detected {
            if request_bits == 9 || request_bits == 73 {
                self.size = EepromSize::Eeprom512;
                self.size_detected = true;
            } else if request_bits == 17 || request_bits == 81 {
                self.size = EepromSize::Eeprom8k;
                self.size_detected = true;
            }
        }
        self.read_block = None;
        self.read_pos = 0;
    }

    /// Takes the next bit of a request (bit 0 of `value`). A complete read
    /// request starts the read stream of its block; a complete write request
    /// stores its 64 data bits; a request whose first bit is 0 is dropped.
    #[verifier::rlimit(50)]
    pub fn write_bit(&mut self, value: u16)
        requires
            old(self).wf(),
        ensures
            final(self).wf(),
            final(self).size == old(self).size,
            final(self).size_detected == old(self).size_detected,
            final(self).memory.path_spec() == old(self).memory.path_spec(),
            eeprom_bit_effect(*old(self), *final(self), (value & 1) as u8),
    {
        proof { assert(value & 1 <= 1) by (bit_vector); }
        let bit: u8 = (value & 1) as u8;
        self.request.push(bit);
        let n: usize = self.request.len();
        let ab: usize = self.size.addr_bits();
        if self.request[0] == 0 {
            self.request = Vec::new();
        } else if n >= 2 {
            if self.request[1] == 1 && n == 2 + ab + 1 {
                let addr: u32 = read_bits(&self.request, 2, ab);
                self.read_block = Some(addr as usize % self.size.blocks());
                self.read_pos = 0;
                self.request = Vec::new();
            } else if self.request[1] == 0 && n == 2 + ab + 64 + 1 {
                let addr: u32 = read_bits(&self.request, 2, ab);
                let block: usize = addr as usize % self.size.blocks();
                let ghost old_mem = self.memory@;
                let ghost req = self.request@;
                let mut k: usize = 0;
                while k < 8
                    invariant
                        k <= 8,
                        n == req.len(),
                        req == self.request@,
                        n == 2 + ab + 64 + 1,
                        ab == self.size.addr_bits(),
                        block == request_block(self.size, req),
                        block < self.size.blocks(),
                        forall|i: int| 0 <= i < req.len() ==> req[i] <= 1,
                        self.memory@.len() == EEPROM_SIZE,
                        old_mem.len() == EEPROM_SIZE,
                        self.memory.path_spec() == old(self).memory.path_spec(),
                        self.size == old(self).size,
                        self.size_detected == old(self).size_detected,
                        self.read_block == old(self).read_block,
                        self.read_pos == old(self).read_pos,
                        forall|i: int|
                            0 <= i < EEPROM_SIZE ==> #[trigger] self.memory@[i] == (if 8 * block
                                <= i < 8 * block + k {
                                image_after_write(self.size, old_mem, req)[i]
                            } else {
                                old_mem[i]
                            }),
                    decreases 8 - k,
                {
                    let b: u32 = read_bits(&self.request, 2 + ab + 8 * k, 8);
                    self.memory.write(8 * block + k, b as u8);
                    k = k + 1;
                }
                self.request = Vec::new();
                proof {
                    assert(self.memory@ =~= image_after_write(self.size, old_mem, req));
                }
            }
        }
    }

    /// Yields the next bit of the read stream, or 1 (ready) when no read is
    /// in progress.
    pub fn read_bit(&mut self) -> (r: u16)
        requires
            old(self).wf(),
        ensures
            final(self).wf(),
            final(self).size == old(self).size,
            final(self).size_detected == old(self).size_detected,
            final(self).memory@ == old(self).memory@,
            final(self).memory.path_spec() == old(self).memory.path_spec(),
            final(self).request@ == old(self).request@,
            match old(self).read_block {
                Some(b) => {
                    &&& r == stream_bit(old(self).memory@, b as int, old(self).read_pos as int)
                    &&& if old(self).read_pos + 1 == EEPROM_READ_STREAM_BITS {
                        final(self).read_block.is_none()
                    } else {
                        final(self).read_block == Some(b) && final(self).read_pos
                            == old(self).read_pos + 1
                    }
                },
                None => r == 1 && final(self).read_block.is_none(),
            },
    {
        match self.read_block {
            Some(block) => {
                let pos: usize = self.read_pos;
                let r: u16 = if pos < 4 {
                    0
                } else {
                    let byte: u8 = self.memory.read(8 * block + (pos - 4) / 8);
                    ((byte >> (7 - (pos - 4) % 8) as u8) & 1) as u16
                };
                if pos + 1 == EEPROM_READ_STREAM_BITS {
                    self.read_block = None;
                    self.read_pos = 0;
                } else {
                    self.read_pos = pos + 1;
                }
                r
            },
            None => 1,
        }
    }
}

/// The effect of one request bit on an EEPROM.
pub open spec fn eeprom_bit_effect(old: EepromController, new: EepromController, bit: u8) -> bool {
    let req = old.request@.push(bit);
    let n = req.len();
    if req[0] == 0 {
        &&& new.request@.len() == 0
        &&& new.memory@ == old.memory@
        &&& new.read_block == old.read_block && new.read_pos == old.read_pos
    } else if n >= 2 && req[1] == 1 && n == read_request_len(old.size) {
        &&& new.request@.len() == 0
        &&& new.memory@ == old.memory@
        &&& new.read_block == Some(request_block(old.size, req) as usize)
        &&& new.read_pos == 0
    } else if n >= 2 && req[1] == 0 && n == write_request_len(old.size) {
        &&& new.request@.len() == 0
        &&& new.memory@ == image_after_write(old.size, old.memory@, req)
        &&& new.read_block == old.read_block && new.read_pos == old.read_pos
    } else {
        &&& new.request@ == req
        &&& new.memory@ == old.memory@
        &&& new.read_block == old.read_block && new.read_pos == old.read_pos
    }
}

} // verus!
