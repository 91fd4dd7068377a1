use vstd::prelude::*;

use crate::interrupt::InterruptController;

verus! {

// Register offsets inside the I/O page (0x0400_0000 .. 0x0400_0400).
pub const IO_BASE: u32 = 0x0400_0000;
pub const IO_SIZE: u32 = 0x400;

pub const REG_DISPCNT: u32 = 0x000;
pub const REG_DISPSTAT: u32 = 0x004;
pub const REG_VCOUNT: u32 = 0x006;
pub const REG_BG0CNT: u32 = 0x008;
pub const REG_BG1CNT: u32 = 0x00A;
pub const REG_BG2CNT: u32 = 0x00C;
pub const REG_BG3CNT: u32 = 0x00E;
pub const REG_BG0HOFS: u32 = 0x010;
pub const REG_BG0VOFS: u32 = 0x012;
pub const REG_BG1HOFS: u32 = 0x014;
pub const REG_BG1VOFS: u32 = 0x016;
pub const REG_BG2HOFS: u32 = 0x018;
pub const REG_BG2VOFS: u32 = 0x01A;
pub const REG_BG3HOFS: u32 = 0x01C;
pub const REG_BG3VOFS: u32 = 0x01E;
pub const REG_WIN0H: u32 = 0x040;
pub const REG_WIN1H: u32 = 0x042;
pub const REG_WIN0V: u32 = 0x044;
pub const REG_WIN1V: u32 = 0x046;
pub const REG_WININ: u32 = 0x048;
pub const REG_WINOUT: u32 = 0x04A;
pub const REG_MOSAIC: u32 = 0x04C;
pub const REG_BLDCNT: u32 = 0x050;
pub const REG_BLDALPHA: u32 = 0x052;
pub const REG_BLDY: u32 = 0x054;
pub const REG_DMA0SAD: u32 = 0x0B0;
pub const REG_DMA0DAD: u32 = 0x0B4;
pub const REG_DMA0CNT_L: u32 = 0x0B8;
pub const REG_DMA0CNT_H: u32 = 0x0BA;
pub const REG_TM0CNT_L: u32 = 0x100;
pub const REG_TM0CNT_H: u32 = 0x102;
pub const REG_TM1CNT_L: u32 = 0x104;
pub const REG_TM1CNT_H: u32 = 0x106;
pub const REG_TM2CNT_L: u32 = 0x108;
pub const REG_TM2CNT_H: u32 = 0x10A;
pub const REG_TM3CNT_L: u32 = 0x10C;
pub const REG_TM3CNT_H: u32 = 0x10E;
pub const REG_KEYINPUT: u32 = 0x130;
pub const REG_KEYCNT: u32 = 0x132;
pub const REG_IE: u32 = 0x200;
pub const REG_IF: u32 = 0x202;
pub const REG_WAITCNT: u32 = 0x204;
pub const REG_IME: u32 = 0x208;
/// POSTFLG is the low byte of this halfword, HALTCNT (0x301) the high byte.
pub const REG_POSTFLG: u32 = 0x300;
pub const REG_HALTCNT: u32 = 0x301;

/// Key state with every key released (a clear bit means pressed).
pub const KEYINPUT_ALL_RELEASED: u16 = 0xFFFF;

/// Number of 16-bit halfwords in the I/O page.
pub const IO_HALFWORDS: usize = 0x200;

/// One hardware timer: the running counter, its reload value and its control word.
#[derive(Debug, Clone, Copy, PartialEq, Eq, Structural)]
pub struct Timer {
    pub timer_data: u16,
    pub initial_data: u16,
    pub timer_ctl: u16,
}

/// Display registers that the register file reads and writes.
#[derive(Debug, Clone, Copy)]
pub struct GpuRegs {
    pub dispcnt: u16,
    pub dispstat: u16,
    pub current_scanline: u16,
    pub bgcnt: [u16; 4],
    pub bghofs: [u16; 4],
    pub bgvofs: [u16; 4],
    pub win0h: u16,
    pub win1h: u16,
    pub win0v: u16,
    pub win1v: u16,
    pub winin: u16,
    pub winout: u16,
    pub mosaic: u16,
    pub bldcnt: u16,
    pub bldalpha: u16,
    pub bldy: u16,
}

/// The state shared by the devices and reached through the register file.
#[derive(Debug, Clone, Copy)]
pub struct IoDevices {
    pub gpu: GpuRegs,
    pub intc: InterruptController,
    pub timers: [Timer; 4],
}

/// Game pak wait-state control, packed as on the bus.
#[derive(Debug, Clone, Copy, PartialEq, Eq, Structural)]
pub struct WaitControl(pub u16);

impl Timer {
    pub fn new() -> (r: Timer)
        ensures
            r.timer_data == 0 && r.initial_data == 0 && r.timer_ctl == 0,
    {
        Timer { timer_data: 0, initial_data: 0, timer_ctl: 0 }
    }
}

impl GpuRegs {
    /// All display registers cleared.
    pub fn new() -> (r: GpuRegs)
        ensures
            r == Self::new_spec(),
            r.dispcnt == 0 && r.dispstat == 0 && r.current_scanline == 0,
            forall|i: int| 0 <= i < 4 ==> r.bgcnt[i] == 0 && r.bghofs[i] == 0 && r.bgvofs[i] == 0,
            r.win0h == 0 && r.win1h == 0 && r.win0v == 0 && r.win1v == 0,
            r.winin == 0 && r.winout == 0 && r.mosaic == 0,
            r.bldcnt == 0 && r.bldalpha == 0 && r.bldy == 0,
    {
        GpuRegs {
            dispcnt: 0,
            dispstat: 0,
            current_scanline: 0,
            bgcnt: [0, 0, 0, 0],
            bghofs: [0, 0, 0, 0],
            bgvofs: [0, 0, 0, 0],
            win0h: 0,
            win1h: 0,
            win0v: 0,
            win1v: 0,
            winin: 0,
            winout: 0,
            mosaic: 0,
            bldcnt: 0,
            bldalpha: 0,
            bldy: 0,
        }
    }
}

impl IoDevices {
    /// Devices in their power-on state.
    pub fn new() -> (r: IoDevices)
        ensures
            r.gpu == GpuRegs::new_spec(),
            !r.intc.interrupt_master_enable,
            r.intc.interrupt_enable == 0 && r.intc.interrupt_flags == 0,
            forall|k: int| 0 <= k < 4 ==> r.timers[k] == (Timer { timer_data: 0, initial_data: 0, timer_ctl: 0 }),
    {
        let t = Timer::new();
        IoDevices { gpu: GpuRegs::new(), intc: InterruptController::new(), timers: [t, t, t, t] }
    }
}

impl GpuRegs {
    pub open spec fn new_spec() -> GpuRegs {
        GpuRegs {
            dispcnt: 0,
            dispstat: 0,
            current_scanline: 0,
            bgcnt: [0, 0, 0, 0],
            bghofs: [0, 0, 0, 0],
            bgvofs: [0, 0, 0, 0],
            win0h: 0,
            win1h: 0,
            win0v: 0,
            win1v: 0,
            winin: 0,
            winout: 0,
            mosaic: 0,
            bldcnt: 0,
            bldalpha: 0,
            bldy: 0,
        }
    }
}

impl WaitControl {
    /// Bits 0-1: SRAM wait control.
    pub fn sram_wait_control(&self) -> (r: u16)
        ensures
            r == (self.0 >> 0u16) & 0x3,
    {
        (self.0 >> 0u16) & 0x3
    }

    /// Bits 2-3: wait state 0, first access.
    pub fn ws0_first_access(&self) -> (r: u16)
        ensures
            r == (self.0 >> 2u16) & 0x3,
    {
        (self.0 >> 2u16) & 0x3
    }

    /// Bit 4: wait state 0, second access.
    pub fn ws0_second_access(&self) -> (r: u16)
        ensures
            r == (self.0 >> 4u16) & 0x1,
    {
        (self.0 >> 4u16) & 0x1
    }

    /// Bits 5-6: wait state 1, first access.
    pub fn ws1_first_access(&self) -> (r: u16)
        ensures
            r == (self.0 >> 5u16) & 0x3,
    {
        (self.0 >> 5u16) & 0x3
    }

    /// Bit 7: wait state 1, second access.
    pub fn ws1_second_access(&self) -> (r: u16)
        ensures
            r == (self.0 >> 7u16) & 0x1,
    {
        (self.0 >> 7u16) & 0x1
    }

    /// Bits 8-9: wait state 2, first access.
    pub fn ws2_first_access(&self) -> (r: u16)
        ensures
            r == (self.0 >> 8u16) & 0x3,
    {
        (self.0 >> 8u16) & 0x3
    }

    /// Bit 10: wait state 2, second access.
    pub fn ws2_second_access(&self) -> (r: u16)
        ensures
            r == (self.0 >> 10u16) & 0x1,
    {
        (self.0 >> 10u16) & 0x1
    }

    /// Bits 11-12: PHI terminal output.
    pub fn phi_terminal_output(&self) -> (r: u16)
        ensures
            r == (self.0 >> 11u16) & 0x3,
    {
        (self.0 >> 11u16) & 0x3
    }

    /// Bit 14: game pak prefetch buffer enabled.
    pub fn prefetch(&self) -> (r: bool)
        ensures
            r == ((self.0 >> 14u16) & 1 == 1),
    {
        (self.0 >> 14u16) & 1 == 1
    }
}

/// The halfword of the I/O page that an address falls in (the address is taken
/// modulo the page size, and 16-bit accesses are aligned down).
pub open spec fn half_index(addr: u32) -> int {
    ((addr & 0x3FF) >> 1u32) as int
}

/// Byte offset of the halfword with the given index.
pub open spec fn half_offset(h: int) -> u32 {
    (2 * h) as u32
}

/// Offset of the counter/reload register of timer `k`.
pub open spec fn timer_reload_reg(k: int) -> u32 {
    (0x100 + 4 * k) as u32
}

/// Registers that ignore writes.
pub open spec fn is_read_only(off: u32) -> bool {
    off == REG_VCOUNT || off == REG_KEYINPUT
}

/// Registers whose 16-bit write stores the value as it is, read back unchanged.
pub open spec fn is_plain_store(off: u32) -> bool {
    off != REG_IF && off != REG_IME && off != REG_POSTFLG && !is_read_only(off)
}

/// What a 16-bit read of the halfword at `off` returns after `value` is written
/// there, when it returned `old` before.
pub open spec fn stored_value(off: u32, old: u16, value: u16) -> u16 {
    if off == REG_IF {
        old & !value
    } else if off == REG_IME {
        if value != 0 { 1 } else { 0 }
    } else if off == REG_POSTFLG {
        if value != 0 { 1 } else { 0 }
    } else if is_read_only(off) {
        old
    } else {
        value
    }
}

/// Reload value of a timer after `value` is written at `off`.
pub open spec fn reload_after(k: int, off: u32, reload: u16, value: u16) -> u16 {
    if off == timer_reload_reg(k) { value } else { reload }
}

/// A halfword with byte `lane` (0 = low, 1 = high) replaced by `b`.
pub open spec fn merge_byte(word: u16, lane: u32, b: u8) -> u16 {
    if lane == 0 { (word & 0xFF00) | (b as u16) } else { (word & 0x00FF) | ((b as u16) << 8u16) }
}

/// Byte `lane` (0 = low, 1 = high) of a halfword.
pub open spec fn byte_of(word: u16, lane: u32) -> u8 {
    if lane == 0 { (word & 0xFF) as u8 } else { (word >> 8u16) as u8 }
}

/// Backing store for the offsets of the I/O page that no register is mapped at.
#[derive(Debug)]
pub struct ScratchMem {
    data: Vec<u16>,
}

impl View for ScratchMem {
    type V = Seq<u16>;

    closed spec fn view(&self) -> Seq<u16> {
        self.data@
    }
}

impl ScratchMem {
    /// A zeroed buffer covering the whole I/O page.
    pub fn new() -> (r: ScratchMem)
        ensures
            r@ == Seq::new(IO_HALFWORDS as nat, |h: int| 0u16),
    {
        let mut data: Vec<u16> = Vec::new();
        let mut i: usize = 0;
        while i < IO_HALFWORDS
            invariant
                i <= IO_HALFWORDS,
                data@.len() == i,
                forall|j: int| 0 <= j < i ==> data@[j] == 0,
            decreases IO_HALFWORDS - i,
        {
            data.push(0);
            i = i + 1;
        }
        let r = ScratchMem { data };
        assert(r@ =~= Seq::new(IO_HALFWORDS as nat, |h: int| 0u16));
        r
    }

    pub fn read(&self, h: usize) -> (r: u16)
        requires
            h < self@.len(),
        ensures
            r == self@[h as int],
    {
        self.data[h]
    }

    pub fn write(&mut self, h: usize, v: u16)
        requires
            h < old(self)@.len(),
        ensures
            final(self)@ == old(self)@.update(h as int, v),
    {
        self.data.set(h, v);
    }
}

/// The I/O register file: 16-bit accesses at fixed offsets are dispatched to the
/// fields of the shared device state and to the register file's own fields;
/// write-only registers also keep the written value in a scratch buffer, which
/// every other offset reads and writes.
#[derive(Debug)]
pub struct IoRegs {
    pub mem: ScratchMem,
    pub io: IoDevices,
    pub keyinput: u16,
    pub post_boot_flag: bool,
    pub waitcnt: WaitControl,
}

/// The value a 16-bit read of the halfword at byte offset `off` returns.
pub open spec fn read_at(
    io: IoDevices,
    keyinput: u16,
    post_boot_flag: bool,
    waitcnt: WaitControl,
    mem: Seq<u16>,
    off: u32,
) -> u16 {
    if off == REG_DISPCNT { io.gpu.dispcnt }
    else if off == REG_DISPSTAT { io.gpu.dispstat }
    else if off == REG_VCOUNT { io.gpu.current_scanline }
    else if off == REG_BG0CNT { io.gpu.bgcnt[0] }
    else if off == REG_BG1CNT { io.gpu.bgcnt[1] }
    else if off == REG_BG2CNT { io.gpu.bgcnt[2] }
    else if off == REG_BG3CNT { io.gpu.bgcnt[3] }
    else if off == REG_WIN0H { io.gpu.win0h }
    else if off == REG_WIN1H { io.gpu.win1h }
    else if off == REG_WIN0V { io.gpu.win0v }
    else if off == REG_WIN1V { io.gpu.win1v }
    else if off == REG_WININ { io.gpu.winin }
    else if off == REG_WINOUT { io.gpu.winout }
    else if off == REG_MOSAIC { io.gpu.mosaic }
    else if off == REG_BLDCNT { io.gpu.bldcnt }
    else if off == REG_BLDALPHA { io.gpu.bldalpha }
    else if off == REG_BLDY { io.gpu.bldy }
    else if off == REG_IME { if io.intc.interrupt_master_enable { 1 } else { 0 } }
    else if off == REG_IE { io.intc.interrupt_enable }
    else if off == REG_IF { io.intc.interrupt_flags }
    else if off == REG_TM0CNT_L { io.timers[0].timer_data }
    else if off == REG_TM0CNT_H { io.timers[0].timer_ctl }
    else if off == REG_TM1CNT_L { io.timers[1].timer_data }
    else if off == REG_TM1CNT_H { io.timers[1].timer_ctl }
    else if off == REG_TM2CNT_L { io.timers[2].timer_data }
    else if off == REG_TM2CNT_H { io.timers[2].timer_ctl }
    else if off == REG_TM3CNT_L { io.timers[3].timer_data }
    else if off == REG_TM3CNT_H { io.timers[3].timer_ctl }
    else if off == REG_WAITCNT { waitcnt.0 }
    else if off == REG_POSTFLG { if post_boot_flag { 1 } else { 0 } }
    else if off == REG_KEYINPUT { keyinput }
    else { mem[(off / 2) as int] }
}

impl View for IoRegs {
    /// What a 16-bit read returns, halfword by halfword.
    type V = Seq<u16>;

    open spec fn view(&self) -> Seq<u16> {
        Seq::new(
            IO_HALFWORDS as nat,
            |h: int|
                read_at(
                    self.io,
                    self.keyinput,
                    self.post_boot_flag,
                    self.waitcnt,
                    self.mem@,
                    half_offset(h),
                ),
        )
    }
}

/// Registers that 16-bit accesses are dispatched to, by halfword offset.
pub open spec fn is_register(off: u32) -> bool {
    ||| off == REG_DISPCNT || off == REG_DISPSTAT || off == REG_VCOUNT
    ||| REG_BG0CNT <= off <= REG_BG3VOFS
    ||| REG_WIN0H <= off <= REG_MOSAIC
    ||| REG_BLDCNT <= off <= REG_BLDY
    ||| REG_TM0CNT_L <= off <= REG_TM3CNT_H
    ||| off == REG_KEYINPUT || off == REG_IE || off == REG_IF || off == REG_WAITCNT
    ||| off == REG_IME || off == REG_POSTFLG
}

/// Write-only registers: the BG scroll offsets. A read returns the scratch
/// buffer, which the write fills too.
pub open spec fn is_write_only(off: u32) -> bool {
    REG_BG0HOFS <= off <= REG_BG3VOFS
}

/// The scratch buffer after `value` is written to halfword `h`: it takes the
/// value unless a readable register is mapped there.
pub open spec fn mem_after(mem: Seq<u16>, h: int, value: u16) -> Seq<u16> {
    if is_register(half_offset(h)) && !is_write_only(half_offset(h)) {
        mem
    } else {
        mem.update(h, value)
    }
}

/// Horizontal scroll of BG `k` after `value` is written at `off`.
pub open spec fn hofs_after(k: int, off: u32, hofs: u16, value: u16) -> u16 {
    if off == (REG_BG0HOFS + 4 * k) as u32 { value } else { hofs }
}

/// Vertical scroll of BG `k` after `value` is written at `off`.
pub open spec fn vofs_after(k: int, off: u32, vofs: u16, value: u16) -> u16 {
    if off == (REG_BG0VOFS + 4 * k) as u32 { value } else { vofs }
}

/// The effect of a 16-bit store of `value` into halfword `h`.
pub open spec fn store_effect(old: IoRegs, new: IoRegs, h: int, value: u16) -> bool {
    let off = half_offset(h);
    &&& new@ == old@.update(h, stored_value(off, old@[h], value))
    &&& new.mem@ == mem_after(old.mem@, h, value)
    &&& forall|k: int|
        0 <= k < 4 ==> #[trigger] new.io.timers[k].initial_data == reload_after(
            k,
            off,
            old.io.timers[k].initial_data,
            value,
        )
    &&& forall|k: int|
        0 <= k < 4 ==> #[trigger] new.io.gpu.bghofs[k] == hofs_after(k, off, old.io.gpu.bghofs[k], value)
    &&& forall|k: int|
        0 <= k < 4 ==> #[trigger] new.io.gpu.bgvofs[k] == vofs_after(k, off, old.io.gpu.bgvofs[k], value)
}

/// The effect of a 16-bit write of `value` at `addr` on the register file: a
/// write at HALTCNT is dropped (CPU halting is signalled elsewhere), any other
/// is stored into the halfword `addr` falls in.
pub open spec fn write_16_effect(old: IoRegs, new: IoRegs, addr: u32, value: u16) -> bool {
    &&& new.wf()
    &&& if addr & 0x3FF == REG_HALTCNT {
        new == old
    } else {
        store_effect(old, new, half_index(addr), value)
    }
}

/// The halfword that follows the one `addr` falls in, wrapping at the page end.
pub open spec fn next_half(addr: u32) -> int {
    (half_index(addr) + 1) % (IO_HALFWORDS as int)
}

/// Two halfwords joined little-endian: `lo` in bits 0..16, `hi` in bits 16..32.
pub open spec fn join_halves(lo: u16, hi: u16) -> u32 {
    (lo as u32) | ((hi as u32) << 16u32)
}

/// The effect of an 8-bit write: the byte is merged into its halfword, which is
/// then written as a 16-bit value.
pub open spec fn write_8_effect(old: IoRegs, new: IoRegs, addr: u32, value: u8) -> bool {
    write_16_effect(old, new, addr, merge_byte(old@[half_index(addr)], addr & 1, value))
}

/// The effect of a 32-bit write: the low half at `addr`, then the high half in
/// the next halfword.
pub open spec fn write_32_effect(old: IoRegs, new: IoRegs, addr: u32, value: u32) -> bool {
    let h = half_index(addr);
    let h2 = next_half(addr);
    let off = half_offset(h);
    let off2 = half_offset(h2);
    let lo = value as u16;
    let hi = (value >> 16u32) as u16;
    &&& new.wf()
    &&& new@ == old@.update(h, stored_value(off, old@[h], lo)).update(
        h2,
        stored_value(off2, old@[h2], hi),
    )
    &&& new.mem@ == mem_after(mem_after(old.mem@, h, lo), h2, hi)
    &&& forall|k: int|
        0 <= k < 4 ==> #[trigger] new.io.timers[k].initial_data == reload_after(
            k,
            off2,
            reload_after(k, off, old.io.timers[k].initial_data, lo),
            hi,
        )
    &&& forall|k: int|
        0 <= k < 4 ==> #[trigger] new.io.gpu.bghofs[k] == hofs_after(
            k,
            off2,
            hofs_after(k, off, old.io.gpu.bghofs[k], lo),
            hi,
        )
    &&& forall|k: int|
        0 <= k < 4 ==> #[trigger] new.io.gpu.bgvofs[k] == vofs_after(
            k,
            off2,
            vofs_after(k, off, old.io.gpu.bgvofs[k], lo),
            hi,
        )
}

proof fn lemma_next_half(addr: u32)
    ensures
        half_index(((addr & 0x3FE) + 2) as u32) == next_half(addr),
        next_half(addr) != half_index(addr),
        0 <= next_half(addr) < IO_HALFWORDS,
        (addr & 0x3FE) <= 0x3FE,
{
    assert((addr & 0x3FE) <= 0x3FE) by (bit_vector);
    assert(((((addr & 0x3FE) + 2) as u32) & 0x3FF) >> 1u32 == (((addr & 0x3FF) >> 1u32) + 1) % 0x200)
        by (bit_vector);
    assert(((addr & 0x3FF) >> 1u32) < 0x200) by (bit_vector);
}

proof fn lemma_lane(addr: u32)
    ensures
        (addr & 1) == 0 || (addr & 1) == 1,
{
    assert((addr & 1) == 0 || (addr & 1) == 1) by (bit_vector);
}

proof fn lemma_half_index(addr: u32)
    ensures
        0 <= half_index(addr) < IO_HALFWORDS,
        half_offset(half_index(addr)) == addr & 0x3FE,
        (addr & 0x3FE) / 2 == half_index(addr),
        (addr & 0x3FE) % 2 == 0,
        (addr & 0x3FF) == 0x301 ==> (addr & 0x3FE) == 0x300,
        ((addr & 0x3FE) & 0x3FF) != 0x301,
        half_index(addr & 0x3FE) == half_index(addr),
{
    assert((addr & 0x3FF) == 0x301 ==> (addr & 0x3FE) == 0x300) by (bit_vector);
    assert(((addr & 0x3FE) & 0x3FF) != 0x301) by (bit_vector);
    assert((((addr & 0x3FE) & 0x3FF) >> 1u32) == ((addr & 0x3FF) >> 1u32)) by (bit_vector);
    assert(((addr & 0x3FF) >> 1u32) < 0x200) by (bit_vector);
    assert((addr & 0x3FE) == 2 * ((addr & 0x3FF) >> 1u32)) by (bit_vector);
}

impl IoRegs {
    pub open spec fn wf(&self) -> bool {
        self.mem@.len() == IO_HALFWORDS
    }

    /// A register file over the given devices: scratch buffer zeroed, all keys
    /// released, post-boot flag clear, wait states zero.
    pub fn new(io: IoDevices) -> (r: IoRegs)
        ensures
            r.wf(),
            r.io == io,
            r.keyinput == KEYINPUT_ALL_RELEASED,
            !r.post_boot_flag,
            r.waitcnt == WaitControl(0),
            r.mem@ == Seq::new(IO_HALFWORDS as nat, |h: int| 0u16),
    {
        let mem = ScratchMem::new();
        let r = IoRegs {
            mem,
            io,
            keyinput: KEYINPUT_ALL_RELEASED,
            post_boot_flag: false,
            waitcnt: WaitControl(0),
        };
        r
    }

    /// 16-bit read; the address is taken modulo the I/O page and aligned down.
    pub fn read_16(&self, addr: u32) -> (r: u16)
        requires
            self.wf(),
        ensures
            r == self@[half_index(addr)],
    {
        proof { lemma_half_index(addr); }
        let off: u32 = addr & 0x3FE;
        let io = &self.io;
        if off == REG_DISPCNT { io.gpu.dispcnt }
        else if off == REG_DISPSTAT { io.gpu.dispstat }
        else if off == REG_VCOUNT { io.gpu.current_scanline }
        else if off == REG_BG0CNT { io.gpu.bgcnt[0] }
        else if off == REG_BG1CNT { io.gpu.bgcnt[1] }
        else if off == REG_BG2CNT { io.gpu.bgcnt[2] }
        else if off == REG_BG3CNT { io.gpu.bgcnt[3] }
        else if off == REG_WIN0H { io.gpu.win0h }
        else if off == REG_WIN1H { io.gpu.win1h }
        else if off == REG_WIN0V { io.gpu.win0v }
        else if off == REG_WIN1V { io.gpu.win1v }
        else if off == REG_WININ { io.gpu.winin }
        else if off == REG_WINOUT { io.gpu.winout }
        else if off == REG_MOSAIC { io.gpu.mosaic }
        else if off == REG_BLDCNT { io.gpu.bldcnt }
        else if off == REG_BLDALPHA { io.gpu.bldalpha }
        else if off == REG_BLDY { io.gpu.bldy }
        else if off == REG_IME { if io.intc.interrupt_master_enable { 1 } else { 0 } }
        else if off == REG_IE { io.intc.interrupt_enable }
        else if off == REG_IF { io.intc.interrupt_flags }
        else if off == REG_TM0CNT_L { io.timers[0].timer_data }
        else if off == REG_TM0CNT_H { io.timers[0].timer_ctl }
        else if off == REG_TM1CNT_L { io.timers[1].timer_data }
        else if off == REG_TM1CNT_H { io.timers[1].timer_ctl }
        else if off == REG_TM2CNT_L { io.timers[2].timer_data }
        else if off == REG_TM2CNT_H { io.timers[2].timer_ctl }
        else if off == REG_TM3CNT_L { io.timers[3].timer_data }
        else if off == REG_TM3CNT_H { io.timers[3].timer_ctl }
        else if off == REG_WAITCNT { self.waitcnt.0 }
        else if off == REG_POSTFLG { if self.post_boot_flag { 1 } else { 0 } }
        else if off == REG_KEYINPUT { self.keyinput }
        else { self.mem.read((off / 2) as usize) }
    }

    /// Stores into a halfword of the display block (offsets below 0x100).
    #[verifier::spinoff_prover]
    #[verifier::rlimit(100)]
    fn store_display(&mut self, off: u32, value: u16)
        requires
            old(self).wf(),
            off % 2 == 0,
            off < 0x100,
        ensures
            final(self).wf(),
            store_effect(*old(self), *final(self), (off / 2) as int, value),
    {
        let ghost h = (off / 2) as int;
        assert(half_offset(h) == off);
        if off == REG_DISPCNT {
            self.io.gpu.dispcnt = value;
        } else if off == REG_DISPSTAT {
            self.io.gpu.dispstat = value;
        } else if off == REG_BG0CNT {
            self.io.gpu.bgcnt[0] = value;
        } else if off == REG_BG1CNT {
            self.io.gpu.bgcnt[1] = value;
        } else if off == REG_BG2CNT {
            self.io.gpu.bgcnt[2] = value;
        } else if off == REG_BG3CNT {
            self.io.gpu.bgcnt[3] = value;
        } else if off == REG_WIN0H {
            self.io.gpu.win0h = value;
        } else if off == REG_WIN1H {
            self.io.gpu.win1h = value;
        } else if off == REG_WIN0V {
            self.io.gpu.win0v = value;
        } else if off == REG_WIN1V {
            self.io.gpu.win1v = value;
        } else if off == REG_WININ {
            self.io.gpu.winin = value;
        } else if off == REG_WINOUT {
            self.io.gpu.winout = value;
        } else if off == REG_MOSAIC {
            self.io.gpu.mosaic = value;
        } else if off == REG_BLDCNT {
            self.io.gpu.bldcnt = value;
        } else if off == REG_BLDALPHA {
            self.io.gpu.bldalpha = value;
        } else if off == REG_BLDY {
            self.io.gpu.bldy = value;
        } else if off == REG_BG0HOFS {
            self.io.gpu.bghofs[0] = value;
            self.mem.write((off / 2) as usize, value);
        } else if off == REG_BG0VOFS {
            self.io.gpu.bgvofs[0] = value;
            self.mem.write((off / 2) as usize, value);
        } else if off == REG_BG1HOFS {
            self.io.gpu.bghofs[1] = value;
            self.mem.write((off / 2) as usize, value);
        } else if off == REG_BG1VOFS {
            self.io.gpu.bgvofs[1] = value;
            self.mem.write((off / 2) as usize, value);
        } else if off == REG_BG2HOFS {
            self.io.gpu.bghofs[2] = value;
            self.mem.write((off / 2) as usize, value);
        } else if off == REG_BG2VOFS {
            self.io.gpu.bgvofs[2] = value;
            self.mem.write((off / 2) as usize, value);
        } else if off == REG_BG3HOFS {
            self.io.gpu.bghofs[3] = value;
            self.mem.write((off / 2) as usize, value);
        } else if off == REG_BG3VOFS {
            self.io.gpu.bgvofs[3] = value;
            self.mem.write((off / 2) as usize, value);
        } else if off == REG_VCOUNT {
            // read-only: the write is dropped
        } else {
            self.mem.write((off / 2) as usize, value);
        }
        proof {
            let h = (off / 2) as int;
            assert(self@ =~= old(self)@.update(h, stored_value(off, old(self)@[h], value)));
            assert(self.mem@ =~= mem_after(old(self).mem@, h, value));
        }
    }

    /// Stores into a halfword above the display block.
    #[verifier::spinoff_prover]
    #[verifier::rlimit(100)]
    fn store_system(&mut self, off: u32, value: u16)
        requires
            old(self).wf(),
            off % 2 == 0,
            0x100 <= off < 0x400,
        ensures
            final(self).wf(),
            store_effect(*old(self), *final(self), (off / 2) as int, value),
    {
        let ghost h = (off / 2) as int;
        assert(half_offset(h) == off);
        if off == REG_IE {
            self.io.intc.interrupt_enable = value;
        } else if off == REG_IME {
            self.io.intc.interrupt_master_enable = value != 0;
        } else if off == REG_IF {
            self.io.intc.interrupt_flags = self.io.intc.interrupt_flags & !value;
        } else if off == REG_TM0CNT_L {
            self.io.timers[0].timer_data = value;
            self.io.timers[0].initial_data = value;
        } else if off == REG_TM0CNT_H {
            self.io.timers[0].timer_ctl = value;
        } else if off == REG_TM1CNT_L {
            self.io.timers[1].timer_data = value;
            self.io.timers[1].initial_data = value;
        } else if off == REG_TM1CNT_H {
            self.io.timers[1].timer_ctl = value;
        } else if off == REG_TM2CNT_L {
            self.io.timers[2].timer_data = value;
            self.io.timers[2].initial_data = value;
        } else if off == REG_TM2CNT_H {
            self.io.timers[2].timer_ctl = value;
        } else if off == REG_TM3CNT_L {
            self.io.timers[3].timer_data = value;
            self.io.timers[3].initial_data = value;
        } else if off == REG_TM3CNT_H {
            self.io.timers[3].timer_ctl = value;
        } else if off == REG_WAITCNT {
            self.waitcnt = WaitControl(value);
        } else if off == REG_POSTFLG {
            self.post_boot_flag = value != 0;
        } else if off == REG_KEYINPUT {
            // read-only: the write is dropped
        } else {
            self.mem.write((off / 2) as usize, value);
        }
        proof {
            let h = (off / 2) as int;
            assert(self@ =~= old(self)@.update(h, stored_value(off, old(self)@[h], value)));
            assert(self.mem@ =~= mem_after(old(self).mem@, h, value));
        }
    }

    /// 16-bit write; the address is taken modulo the I/O page and aligned down.
    /// A write at HALTCNT is dropped; otherwise each register applies its own
    /// write policy (see `stored_value`), timer counter writes also set the
    /// reload value, and unmapped offsets go to the scratch buffer.
    pub fn write_16(&mut self, addr: u32, value: u16)
        requires
            old(self).wf(),
        ensures
            write_16_effect(*old(self), *final(self), addr, value),
    {
        proof { lemma_half_index(addr); }
        if addr & 0x3FF == REG_HALTCNT {
            return;
        }
        let off: u32 = addr & 0x3FE;
        if off < 0x100 {
            self.store_display(off, value);
        } else {
            self.store_system(off, value);
        }
    }

    /// 8-bit read: the byte of the addressed halfword that `addr & 1` selects.
    pub fn read_8(&self, addr: u32) -> (r: u8)
        requires
            self.wf(),
        ensures
            r == byte_of(self@[half_index(addr)], addr & 1),
    {
        let w: u16 = self.read_16(addr);
        if addr & 1 == 0 {
            (w & 0xFF) as u8
        } else {
            (w >> 8u16) as u8
        }
    }

    /// 32-bit read: the halfword at `addr` is the low half, the next one the high half.
    pub fn read_32(&self, addr: u32) -> (r: u32)
        requires
            self.wf(),
        ensures
            r == join_halves(self@[half_index(addr)], self@[next_half(addr)]),
    {
        proof { lemma_next_half(addr); }
        let lo: u16 = self.read_16(addr);
        let hi: u16 = self.read_16((addr & 0x3FE) + 2);
        (lo as u32) | ((hi as u32) << 16u32)
    }

    /// 8-bit write: the byte replaces the half of the addressed halfword that
    /// `addr & 1` selects, and the halfword is written back through `write_16`.
    pub fn write_8(&mut self, addr: u32, value: u8)
        requires
            old(self).wf(),
        ensures
            write_8_effect(*old(self), *final(self), addr, value),
    {
        let t: u16 = self.read_16(addr);
        let merged: u16 = if addr & 1 == 0 {
            (t & 0xFF00) | (value as u16)
        } else {
            (t & 0x00FF) | ((value as u16) << 8u16)
        };
        self.write_16(addr, merged);
    }

    /// 32-bit write: the low half goes to `addr`, the high half to the next halfword.
    pub fn write_32(&mut self, addr: u32, value: u32)
        requires
            old(self).wf(),
        ensures
            write_32_effect(*old(self), *final(self), addr, value),
    {
        proof {
            lemma_next_half(addr);
            lemma_half_index(addr);
            lemma_half_index(addr & 0x3FE);
            lemma_half_index(((addr & 0x3FE) + 2) as u32);
            assert((value & 0xFFFF) as u16 == value as u16) by (bit_vector);
            assert(((((addr & 0x3FE) + 2) as u32) & 0x3FF) != 0x301) by (bit_vector)
                requires
                    (addr & 0x3FE) <= 0x3FE,
            ;
        }
        self.write_16(addr & 0x3FE, (value & 0xFFFF) as u16);
        let ghost mid = *self;
        self.write_16((addr & 0x3FE) + 2, (value >> 16u32) as u16);
        proof {
            let h = half_index(addr);
            let h2 = next_half(addr);
            let lo = value as u16;
            let hi = (value >> 16u32) as u16;
            assert(store_effect(*old(self), mid, h, lo));
            assert(store_effect(mid, *self, h2, hi));
            assert forall|k: int| 0 <= k < 4 implies #[trigger] self.io.timers[k].initial_data
                == reload_after(k, half_offset(h2), reload_after(k, half_offset(h), old(self).io.timers[k].initial_data, lo), hi)
                && self.io.gpu.bghofs[k] == hofs_after(k, half_offset(h2), hofs_after(k, half_offset(h), old(self).io.gpu.bghofs[k], lo), hi)
                && self.io.gpu.bgvofs[k] == vofs_after(k, half_offset(h2), vofs_after(k, half_offset(h), old(self).io.gpu.bgvofs[k], lo), hi) by {
                assert(mid.io.timers[k].initial_data == reload_after(k, half_offset(h), old(self).io.timers[k].initial_data, lo));
                assert(mid.io.gpu.bghofs[k] == hofs_after(k, half_offset(h), old(self).io.gpu.bghofs[k], lo));
                assert(mid.io.gpu.bgvofs[k] == vofs_after(k, half_offset(h), old(self).io.gpu.bgvofs[k], lo));
            }
            assert(mid@[h2] == old(self)@[h2]);
        }
    }
}

} // verus!

verus! {

proof fn lemma_merge_then_select(word: u16, lane: u32, b: u8)
    requires
        lane == 0 || lane == 1,
    ensures
        byte_of(merge_byte(word, lane, b), lane) == b,
{
    assert((((word & 0xFF00) | (b as u16)) & 0xFF) as u8 == b) by (bit_vector);
    assert((((word & 0x00FF) | ((b as u16) << 8u16)) >> 8u16) as u8 == b) by (bit_vector);
}

/// A 16-bit write to a plain-store register is read back unchanged.
pub proof fn lemma_plain_store_round_trip_16(old: IoRegs, new: IoRegs, addr: u32, value: u16)
    requires
        write_16_effect(old, new, addr, value),
        is_plain_store(addr & 0x3FE),
    ensures
        new@[half_index(addr)] == value,
{
    lemma_half_index(addr);
}

/// An 8-bit write to a byte of a plain-store register is read back unchanged by
/// an 8-bit read of the same address.
pub proof fn lemma_plain_store_round_trip_8(old: IoRegs, new: IoRegs, addr: u32, value: u8)
    requires
        write_8_effect(old, new, addr, value),
        is_plain_store(addr & 0x3FE),
    ensures
        byte_of(new@[half_index(addr)], addr & 1) == value,
{
    lemma_half_index(addr);
    lemma_lane(addr);
    lemma_merge_then_select(old@[half_index(addr)], addr & 1, value);
}

/// A 32-bit write whose two halfwords are plain-store registers is read back
/// unchanged by a 32-bit read of the same address.
pub proof fn lemma_plain_store_round_trip_32(old: IoRegs, new: IoRegs, addr: u32, value: u32)
    requires
        write_32_effect(old, new, addr, value),
        is_plain_store(addr & 0x3FE),
        is_plain_store(half_offset(next_half(addr))),
    ensures
        join_halves(new@[half_index(addr)], new@[next_half(addr)]) == value,
{
    lemma_half_index(addr);
    lemma_next_half(addr);
    assert(((value as u16) as u32) | ((((value >> 16u32) as u16) as u32) << 16u32) == value)
        by (bit_vector);
}

/// Writing IF clears exactly the flags that are set in the value written.
pub proof fn lemma_interrupt_flags_write_one_to_clear(
    old: IoRegs,
    new: IoRegs,
    addr: u32,
    value: u16,
)
    requires
        write_16_effect(old, new, addr, value),
        addr & 0x3FE == REG_IF,
    ensures
        new@[half_index(addr)] == old@[half_index(addr)] & !value,
        new.io.intc.interrupt_flags == old.io.intc.interrupt_flags & !value,
{
    lemma_half_index(addr);
    let h = half_index(addr);
    assert(half_offset(h) == REG_IF);
    assert(new@[h] == new.io.intc.interrupt_flags);
    assert(old@[h] == old.io.intc.interrupt_flags);
}

/// Writing IME reads back 1 for any nonzero value and 0 for zero.
pub proof fn lemma_master_enable_is_boolean(old: IoRegs, new: IoRegs, addr: u32, value: u16)
    requires
        write_16_effect(old, new, addr, value),
        addr & 0x3FE == REG_IME,
    ensures
        new@[half_index(addr)] == (if value != 0 { 1u16 } else { 0u16 }),
        new.io.intc.interrupt_master_enable == (value != 0),
{
    lemma_half_index(addr);
    let h = half_index(addr);
    assert(half_offset(h) == REG_IME);
    assert(new@[h] == (if new.io.intc.interrupt_master_enable { 1u16 } else { 0u16 }));
}

/// Writing a timer's counter register sets both its counter and its reload value.
pub proof fn lemma_timer_counter_write_sets_reload(
    old: IoRegs,
    new: IoRegs,
    k: int,
    addr: u32,
    value: u16,
)
    requires
        0 <= k < 4,
        write_16_effect(old, new, addr, value),
        addr & 0x3FE == timer_reload_reg(k),
    ensures
        new.io.timers[k].timer_data == value,
        new.io.timers[k].initial_data == value,
{
    lemma_half_index(addr);
    let h = half_index(addr);
    assert(new.io.timers[k].initial_data == reload_after(k, half_offset(h), old.io.timers[k].initial_data, value));
    assert(half_offset(h) == timer_reload_reg(k));
    assert(new@[h] == new.io.timers[k].timer_data);
}

/// Writing a timer's control register leaves its counter and reload value unchanged.
pub proof fn lemma_timer_control_write_keeps_counter(
    old: IoRegs,
    new: IoRegs,
    k: int,
    addr: u32,
    value: u16,
)
    requires
        0 <= k < 4,
        write_16_effect(old, new, addr, value),
        addr & 0x3FE == (timer_reload_reg(k) + 2) as u32,
    ensures
        new.io.timers[k].timer_data == old.io.timers[k].timer_data,
        new.io.timers[k].initial_data == old.io.timers[k].initial_data,
        new.io.timers[k].timer_ctl == value,
{
    lemma_half_index(addr);
    let h = half_index(addr);
    let c = (timer_reload_reg(k) / 2) as int;
    assert(half_offset(c) == timer_reload_reg(k));
    assert(new@[c] == old@[c]);
    assert(new@[c] == new.io.timers[k].timer_data);
    assert(old@[c] == old.io.timers[k].timer_data);
    assert(new@[h] == new.io.timers[k].timer_ctl);
    assert(new.io.timers[k].initial_data == reload_after(k, half_offset(half_index(addr)), old.io.timers[k].initial_data, value));
}

/// A 16-bit write only depends on the address modulo the I/O page: writing at
/// a full bus address and at its offset in the page have the same effect.
pub proof fn lemma_write_16_address_canonical(old: IoRegs, new: IoRegs, addr: u32, value: u16)
    requires
        write_16_effect(old, new, addr, value),
    ensures
        write_16_effect(old, new, addr & 0x3FF, value),
{
    assert((addr & 0x3FF) & 0x3FF == addr & 0x3FF) by (bit_vector);
}

} // verus!
