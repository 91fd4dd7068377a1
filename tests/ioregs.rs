use gba_core::cartridge::GamepakBuilder;
use gba_core::interrupt::{step_synced, Interrupt, IrqBitmask, SyncedIoDevice};
use gba_core::sysbus::SysBus;
use gba_core::ioregs::{
    IoDevices, IoRegs, IO_BASE, KEYINPUT_ALL_RELEASED, REG_BG0HOFS, REG_BLDALPHA, REG_DISPCNT,
    REG_DMA0SAD, REG_IE, REG_IF, REG_IME, REG_KEYINPUT, REG_MOSAIC, REG_POSTFLG, REG_HALTCNT,
    REG_TM0CNT_H, REG_TM0CNT_L, REG_TM3CNT_L, REG_VCOUNT, REG_WAITCNT, REG_WIN0H,
};

fn regs() -> IoRegs {
    IoRegs::new(IoDevices::new())
}

#[test]
fn keyinput_defaults_to_all_released() {
    let r = regs();
    assert_eq!(r.keyinput, 0xFFFF);
    assert_eq!(KEYINPUT_ALL_RELEASED, 0xFFFF);
    assert_eq!(r.read_16(IO_BASE + REG_KEYINPUT), 0xFFFF);
}

#[test]
fn plain_store_registers_read_back_written_values() {
    let plain = [REG_DISPCNT, REG_BG0HOFS, REG_WIN0H, REG_MOSAIC, REG_BLDALPHA, REG_WAITCNT, REG_TM0CNT_H, REG_IE];
    for &reg in plain.iter() {
        for &v in [0x0000u16, 0x0001, 0x5555, 0xAAAA, 0xFFFF].iter() {
            let mut r = regs();
            r.write_16(IO_BASE + reg, v);
            assert_eq!(r.read_16(IO_BASE + reg), v, "register {:#x} value {:#x}", reg, v);
        }
    }
}

#[test]
fn interrupt_flags_are_write_one_to_clear() {
    let mut r = regs();
    r.io.intc.interrupt_flags = 0b1011_0110;
    r.write_16(IO_BASE + REG_IF, 0b0010_0100);
    assert_eq!(r.read_16(IO_BASE + REG_IF), 0b1011_0110 & !0b0010_0100u16);
    assert_eq!(r.io.intc.interrupt_flags, 0b1001_0010);
}

#[test]
fn master_enable_reads_back_as_boolean() {
    let mut r = regs();
    for &v in [1u16, 2, 0x8000, 0xFFFF].iter() {
        r.write_16(IO_BASE + REG_IME, v);
        assert_eq!(r.read_16(IO_BASE + REG_IME), 1);
        assert!(r.io.intc.interrupt_master_enable);
    }
    r.write_16(IO_BASE + REG_IME, 0);
    assert_eq!(r.read_16(IO_BASE + REG_IME), 0);
    assert!(!r.io.intc.interrupt_master_enable);
}

#[test]
fn timer_counter_write_sets_counter_and_reload() {
    let mut r = regs();
    r.write_16(IO_BASE + REG_TM0CNT_L, 0xBEEF);
    assert_eq!(r.io.timers[0].timer_data, 0xBEEF);
    assert_eq!(r.io.timers[0].initial_data, 0xBEEF);
    assert_eq!(r.read_16(IO_BASE + REG_TM0CNT_L), 0xBEEF);
    r.write_16(IO_BASE + REG_TM0CNT_H, 0x00C3);
    assert_eq!(r.io.timers[0].timer_data, 0xBEEF);
    assert_eq!(r.io.timers[0].initial_data, 0xBEEF);
    assert_eq!(r.io.timers[0].timer_ctl, 0x00C3);
    r.write_16(IO_BASE + REG_TM3CNT_L, 0x1234);
    assert_eq!(r.io.timers[3].initial_data, 0x1234);
    assert_eq!(r.io.timers[0].initial_data, 0xBEEF);
}

#[test]
fn dispcnt_second_write_replaces_first() {
    let mut r = regs();
    r.write_16(IO_BASE + REG_DISPCNT, 0x1234);
    r.write_16(IO_BASE + REG_DISPCNT, 0x0F0F);
    assert_eq!(r.read_16(IO_BASE + REG_DISPCNT), 0x0F0F);
    assert_eq!(r.io.gpu.dispcnt, 0x0F0F);
}

#[test]
fn word_write_lands_in_two_halfwords() {
    let mut r = regs();
    r.write_32(IO_BASE + REG_DMA0SAD, 0xDEAD_BEEF);
    assert_eq!(r.read_16(IO_BASE + REG_DMA0SAD), 0xBEEF);
    assert_eq!(r.read_16(IO_BASE + REG_DMA0SAD + 2), 0xDEAD);
    assert_eq!(r.read_32(IO_BASE + REG_DMA0SAD), 0xDEAD_BEEF);
}

#[test]
fn byte_writes_merge_into_the_right_half() {
    let mut r = regs();
    r.write_16(IO_BASE + REG_BLDALPHA, 0x1122);
    r.write_8(IO_BASE + REG_BLDALPHA + 1, 0xAB);
    assert_eq!(r.read_16(IO_BASE + REG_BLDALPHA), 0xAB22);
    r.write_8(IO_BASE + REG_BLDALPHA, 0xCD);
    assert_eq!(r.read_16(IO_BASE + REG_BLDALPHA), 0xABCD);
    assert_eq!(r.read_8(IO_BASE + REG_BLDALPHA), 0xCD);
    assert_eq!(r.read_8(IO_BASE + REG_BLDALPHA + 1), 0xAB);
}

#[test]
fn read_only_registers_ignore_writes() {
    let mut r = regs();
    r.io.gpu.current_scanline = 42;
    r.write_16(IO_BASE + REG_VCOUNT, 7);
    assert_eq!(r.read_16(IO_BASE + REG_VCOUNT), 42);
    r.write_16(IO_BASE + REG_KEYINPUT, 0);
    assert_eq!(r.read_16(IO_BASE + REG_KEYINPUT), 0xFFFF);
}

#[test]
fn post_boot_flag_and_halt_byte() {
    let mut r = regs();
    r.write_8(IO_BASE + REG_POSTFLG, 1);
    assert!(r.post_boot_flag);
    assert_eq!(r.read_8(IO_BASE + REG_POSTFLG), 1);
    r.write_8(IO_BASE + REG_HALTCNT, 0x80);
    assert!(r.post_boot_flag);
    assert_eq!(r.read_8(IO_BASE + REG_HALTCNT), 0);
    r.write_8(IO_BASE + REG_POSTFLG, 0);
    assert!(!r.post_boot_flag);
}

#[test]
fn unmapped_offsets_use_scratch_buffer() {
    let mut r = regs();
    assert_eq!(r.read_16(IO_BASE + 0x3F0), 0);
    r.write_16(IO_BASE + 0x3F0, 0x5A5A);
    assert_eq!(r.read_16(IO_BASE + 0x3F0), 0x5A5A);
    // the address is taken modulo the page
    assert_eq!(r.read_16(0x3F0), 0x5A5A);
}

#[test]
fn word_access_wraps_at_page_end() {
    let mut r = regs();
    r.write_32(IO_BASE + 0x3FE, 0x1111_2222);
    assert_eq!(r.read_16(IO_BASE + 0x3FE), 0x2222);
    assert_eq!(r.read_16(IO_BASE + REG_DISPCNT), 0x1111);
}

struct VBlankDevice;

impl SyncedIoDevice for VBlankDevice {
    fn step(&mut self, _cycles: usize, _sb: &mut SysBus, irqs: &mut IrqBitmask) {
        irqs.add_irq(Interrupt::LcdVBlank);
    }
}

fn bus() -> SysBus {
    let cart = GamepakBuilder::new().buffer(&[0u8; 0xC0]).build().unwrap();
    SysBus::new(vec![0; 0x4000], regs(), cart)
}

#[test]
fn vblank_raised_by_device_reaches_cpu() {
    let mut sb = bus();
    sb.write_16(IO_BASE + REG_IE, 0x0001);
    sb.write_16(IO_BASE + REG_IME, 1);
    let mut dev = VBlankDevice;
    let signalled = step_synced(&mut dev, 100, &mut sb);
    assert!(signalled);
    assert_ne!(sb.read_16(IO_BASE + REG_IF) & sb.read_16(IO_BASE + REG_IE) & sb.read_16(IO_BASE + REG_IME), 0);
}

#[test]
fn request_without_enable_is_not_signalled() {
    let mut sb = bus();
    sb.write_16(IO_BASE + REG_IME, 1);
    let mut dev = VBlankDevice;
    assert!(!step_synced(&mut dev, 1, &mut sb));
    assert_eq!(sb.io.io.intc.interrupt_flags, 1);
    let mut m = IrqBitmask::new();
    m.add_irq(Interrupt::Timer2Overflow);
    assert_eq!(m.0, 1 << 5);
    assert!(m.contains(Interrupt::Timer2Overflow));
    assert!(!m.contains(Interrupt::Keypad));
}

#[test]
fn waitcnt_fields_unpack() {
    let mut r = regs();
    r.write_16(IO_BASE + REG_WAITCNT, 0b0100_1010_1101_0111);
    let w = r.waitcnt;
    assert_eq!(w.sram_wait_control(), 0b11);
    assert_eq!(w.ws0_first_access(), 0b01);
    assert_eq!(w.ws0_second_access(), 1);
    assert_eq!(w.ws1_first_access(), 0b10);
    assert_eq!(w.ws1_second_access(), 1);
    assert_eq!(w.ws2_first_access(), 0b10);
    assert_eq!(w.ws2_second_access(), 0);
    assert_eq!(w.phi_terminal_output(), 0b01);
    assert!(w.prefetch());
}

#[test]
fn post_boot_flag_set_by_any_nonzero_halfword() {
    let mut r = regs();
    r.write_16(IO_BASE + REG_POSTFLG, 0x0100);
    assert!(r.post_boot_flag);
    assert_eq!(r.read_16(IO_BASE + REG_POSTFLG), 1);
    r.write_16(IO_BASE + REG_POSTFLG, 0);
    assert!(!r.post_boot_flag);
}

#[test]
fn halfword_write_at_haltcnt_is_dropped() {
    let mut r = regs();
    r.write_16(IO_BASE + REG_HALTCNT, 0xFFFF);
    assert!(!r.post_boot_flag);
    r.write_16(IO_BASE + REG_POSTFLG, 1);
    r.write_16(IO_BASE + REG_HALTCNT, 0);
    assert!(r.post_boot_flag);
}

#[test]
fn scroll_registers_store_field_and_shadow() {
    let mut r = regs();
    r.write_16(IO_BASE + REG_BG0HOFS, 0x0123);
    assert_eq!(r.io.gpu.bghofs[0], 0x0123);
    assert_eq!(r.read_16(IO_BASE + REG_BG0HOFS), 0x0123);
    r.io.gpu.bghofs[0] = 7;
    assert_eq!(r.read_16(IO_BASE + REG_BG0HOFS), 0x0123);
}
