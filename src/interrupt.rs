use vstd::prelude::*;

use crate::sysbus::SysBus;

verus! {

/// Interrupt sources, in the order of their bits in IE and IF.
#[derive(Debug, Clone, Copy, PartialEq, Eq, Structural)]
pub enum Interrupt {
    LcdVBlank,
    LcdHBlank,
    LcdVCounterMatch,
    Timer0Overflow,
    Timer1Overflow,
    Timer2Overflow,
    Timer3Overflow,
    SerialCommunication,
    Dma0,
    Dma1,
    Dma2,
    Dma3,
    Keypad,
    Gamepak,
}

impl Interrupt {
    /// Bit position of the source in IE and IF.
    pub open spec fn bit_spec(self) -> u16 {
        match self {
            Interrupt::LcdVBlank => 0,
            Interrupt::LcdHBlank => 1,
            Interrupt::LcdVCounterMatch => 2,
            Interrupt::Timer0Overflow => 3,
            Interrupt::Timer1Overflow => 4,
            Interrupt::Timer2Overflow => 5,
            Interrupt::Timer3Overflow => 6,
            Interrupt::SerialCommunication => 7,
            Interrupt::Dma0 => 8,
            Interrupt::Dma1 => 9,
            Interrupt::Dma2 => 10,
            Interrupt::Dma3 => 11,
            Interrupt::Keypad => 12,
            Interrupt::Gamepak => 13,
        }
    }

    #[verifier::when_used_as_spec(bit_spec)]
    pub fn bit(self) -> (r: u16)
        ensures
            r == self.bit_spec(),
    {
        match self {
            Interrupt::LcdVBlank => 0,
            Interrupt::LcdHBlank => 1,
            Interrupt::LcdVCounterMatch => 2,
            Interrupt::Timer0Overflow => 3,
            Interrupt::Timer1Overflow => 4,
            Interrupt::Timer2Overflow => 5,
            Interrupt::Timer3Overflow => 6,
            Interrupt::SerialCommunication => 7,
            Interrupt::Dma0 => 8,
            Interrupt::Dma1 => 9,
            Interrupt::Dma2 => 10,
            Interrupt::Dma3 => 11,
            Interrupt::Keypad => 12,
            Interrupt::Gamepak => 13,
        }
    }

    /// The source's mask in IE and IF.
    pub open spec fn mask(self) -> u16 {
        (1u16 << self.bit())
    }
}

/// A set of interrupt requests raised by a device during one step.
#[derive(Debug, Clone, Copy, PartialEq, Eq, Structural)]
pub struct IrqBitmask(pub u16);

impl IrqBitmask {
    pub fn new() -> (r: IrqBitmask)
        ensures
            r.0 == 0,
    {
        IrqBitmask(0)
    }

    /// Adds one source to the set.
    pub fn add_irq(&mut self, irq: Interrupt)
        ensures
            final(self).0 == old(self).0 | irq.mask(),
    {
        self.0 = self.0 | (1u16 << irq.bit());
    }

    /// Whether the set holds the source.
    pub fn contains(&self, irq: Interrupt) -> (r: bool)
        ensures
            r == (self.0 & irq.mask() != 0),
    {
        self.0 & (1u16 << irq.bit()) != 0
    }
}

/// The interrupt controller: master enable, enable mask and request flags.
#[derive(Debug, Clone, Copy, PartialEq, Eq, Structural)]
pub struct InterruptController {
    pub interrupt_master_enable: bool,
    pub interrupt_enable: u16,
    pub interrupt_flags: u16,
}

impl InterruptController {
    pub fn new() -> (r: InterruptController)
        ensures
            !r.interrupt_master_enable,
            r.interrupt_enable == 0,
            r.interrupt_flags == 0,
    {
        InterruptController { interrupt_master_enable: false, interrupt_enable: 0, interrupt_flags: 0 }
    }

    /// The CPU takes an interrupt: the master enable is set and some requested
    /// source is enabled.
    pub open spec fn irq_pending_spec(&self) -> bool {
        self.interrupt_master_enable && (self.interrupt_enable & self.interrupt_flags) != 0
    }

    #[verifier::when_used_as_spec(irq_pending_spec)]
    pub fn irq_pending(&self) -> (r: bool)
        ensures
            r == self.irq_pending_spec(),
    {
        self.interrupt_master_enable && (self.interrupt_enable & self.interrupt_flags) != 0
    }

    /// Merges the requests raised during a step into the flags.
    pub fn request(&mut self, irqs: IrqBitmask)
        ensures
            final(self).interrupt_flags == old(self).interrupt_flags | irqs.0,
            final(self).interrupt_enable == old(self).interrupt_enable,
            final(self).interrupt_master_enable == old(self).interrupt_master_enable,
    {
        self.interrupt_flags = self.interrupt_flags | irqs.0;
    }

    /// Merges the requests raised during a step and tells whether the CPU must
    /// take the interrupt vector at its next instruction boundary.
    pub fn commit(&mut self, irqs: IrqBitmask) -> (r: bool)
        ensures
            final(self).interrupt_flags == old(self).interrupt_flags | irqs.0,
            final(self).interrupt_enable == old(self).interrupt_enable,
            final(self).interrupt_master_enable == old(self).interrupt_master_enable,
            r == final(self).irq_pending(),
    {
        self.request(irqs);
        self.irq_pending()
    }
}

/// A device advanced in lockstep with the CPU. During a step it may read and
/// write the bus and add requests to `irqs`.
pub trait SyncedIoDevice {
    fn step(&mut self, cycles: usize, sb: &mut SysBus, irqs: &mut IrqBitmask);
}

/// Advances one device by `cycles`, then merges what it raised into the
/// interrupt controller's flags; the result tells whether the CPU must take
/// an interrupt.
pub fn step_synced<D: SyncedIoDevice>(device: &mut D, cycles: usize, sb: &mut SysBus) -> (r: bool)
    ensures
        r == final(sb).io.io.intc.irq_pending(),
{
    let mut irqs = IrqBitmask::new();
    device.step(cycles, sb, &mut irqs);
    sb.io.io.intc.commit(irqs)
}

/// A request that is raised while its source is enabled and the master enable
/// is set reaches the CPU once the step is committed.
pub proof fn lemma_enabled_request_is_signalled(
    old: InterruptController,
    new: InterruptController,
    irqs: IrqBitmask,
    irq: Interrupt,
)
    requires
        old.interrupt_master_enable,
        old.interrupt_enable & irq.mask() != 0,
        irqs.0 & irq.mask() != 0,
        new.interrupt_flags == old.interrupt_flags | irqs.0,
        new.interrupt_enable == old.interrupt_enable,
        new.interrupt_master_enable == old.interrupt_master_enable,
    ensures
        new.irq_pending(),
{
    let b = irq.bit();
    let m = irq.mask();
    assert(b < 16);
    let (e, f, q) = (old.interrupt_enable, old.interrupt_flags, irqs.0);
    assert(m == (1u16 << b));
    assert(b < 16 && e & (1u16 << b) != 0 && q & (1u16 << b) != 0 ==> e & (f | q) != 0)
        by (bit_vector);
}

} // verus!
