//! The control and interrupt registers of the DMA controller.

use vstd::prelude::*;

verus! {

/// What the DMA registers hold.
pub struct DmaState {
    /// The control register.
    pub control: u32,
    /// Master interrupt enable, bit 23 of the interrupt register.
    pub irq_en: bool,
    /// Interrupt enable of each of the seven channels, bits [22:16].
    pub channel_irq_en: u8,
    /// Interrupt flag of each channel, bits [30:24].
    pub channel_irq_flags: u8,
    /// Forced interrupt, bit 15.
    pub force_irq: bool,
    /// Bits [5:0], which are kept but do nothing.
    pub irq_dummy: u8,
}

impl DmaState {
    /// Each field fits the bits of the interrupt register that it is kept in.
    pub open spec fn wf(self) -> bool {
        &&& self.channel_irq_en < 0x80
        &&& self.channel_irq_flags < 0x80
        &&& self.irq_dummy < 0x40
    }

    /// An interrupt is signalled: it is forced, or the master enable is set
    /// and a channel is both enabled and flagged.
    pub open spec fn irq_status(self) -> bool {
        self.force_irq || (self.irq_en && self.channel_irq_flags & self.channel_irq_en != 0)
    }

    /// The interrupt register as it is read: each field at its place, and the
    /// interrupt status in bit 31.
    pub open spec fn interrupt(self) -> u32 {
        (self.irq_dummy + 0x8000 * (if self.force_irq {
            1int
        } else {
            0int
        }) + 0x1_0000 * self.channel_irq_en + 0x80_0000 * (if self.irq_en {
            1int
        } else {
            0int
        }) + 0x100_0000 * self.channel_irq_flags + 0x8000_0000 * (if self.irq_status() {
            1int
        } else {
            0int
        })) as u32
    }

    /// The registers after `val` is written to the interrupt register: the
    /// enables and bits [5:0] are taken from it, and a channel flag is
    /// cleared where bits [29:24] hold a one.
    pub open spec fn set_interrupt(self, val: u32) -> DmaState {
        DmaState {
            irq_dummy: (val & 0x3f) as u8,
            force_irq: (val >> 15) & 1 != 0,
            channel_irq_en: ((val >> 16) & 0x7f) as u8,
            irq_en: (val >> 23) & 1 != 0,
            channel_irq_flags: self.channel_irq_flags & !(((val >> 24) & 0x3f) as u8),
            ..self
        }
    }
}

/// The registers of the DMA controller.
pub struct Dma {
    control: u32,
    irq_en: bool,
    channel_irq_en: u8,
    channel_irq_flags: u8,
    force_irq: bool,
    irq_dummy: u8,
}

impl View for Dma {
    type V = DmaState;

    closed spec fn view(&self) -> DmaState {
        DmaState {
            control: self.control,
            irq_en: self.irq_en,
            channel_irq_en: self.channel_irq_en,
            channel_irq_flags: self.channel_irq_flags,
            force_irq: self.force_irq,
            irq_dummy: self.irq_dummy,
        }
    }
}

impl Dma {
    /// Each field fits the bits of the interrupt register that it is kept in.
    pub open spec fn inv(&self) -> bool {
        self@.wf()
    }

    /// The registers after reset.
    pub fn new() -> (dma: Dma)
        ensures
            dma.inv(),
            dma@ == (DmaState {
                control: 0x0765_4321,
                irq_en: false,
                channel_irq_en: 0,
                channel_irq_flags: 0,
                force_irq: false,
                irq_dummy: 0,
            }),
    {
        Dma {
            control: 0x0765_4321,
            irq_en: false,
            channel_irq_en: 0,
            channel_irq_flags: 0,
            force_irq: false,
            irq_dummy: 0,
        }
    }

    /// Reads the control register.
    pub fn control(&self) -> (v: u32)
        ensures
            v == self@.control,
    {
        self.control
    }

    /// Writes the control register.
    pub fn set_control(&mut self, val: u32)
        ensures
            final(self)@ == (DmaState { control: val, ..old(self)@ }),
    {
        self.control = val;
    }

    /// Whether an interrupt is signalled.
    pub fn irq_status(&self) -> (v: bool)
        ensures
            v == self@.irq_status(),
    {
        let channel_irq = self.channel_irq_flags & self.channel_irq_en;

        self.force_irq || (self.irq_en && channel_irq != 0)
    }

    /// Reads the interrupt register.
    pub fn interrupt(&self) -> (v: u32)
        requires
            self.inv(),
        ensures
            v == self@.interrupt(),
    {
        let mut r: u32 = 0;

        let dummy = self.irq_dummy as u32;
        let force = self.force_irq as u32;
        let channel_en = self.channel_irq_en as u32;
        let master_en = self.irq_en as u32;
        let flags = self.channel_irq_flags as u32;
        let status = self.irq_status() as u32;

        r |= dummy;
        r |= force << 15;
        r |= channel_en << 16;
        r |= master_en << 23;
        r |= flags << 24;
        r |= status << 31;

        assert(r == dummy + 0x8000 * force + 0x1_0000 * channel_en + 0x80_0000 * master_en
            + 0x100_0000 * flags + 0x8000_0000 * status) by (bit_vector)
            requires
                r == 0u32 | dummy | (force << 15) | (channel_en << 16) | (master_en << 23) | (flags
                    << 24) | (status << 31),
                dummy < 0x40,
                force < 2,
                channel_en < 0x80,
                master_en < 2,
                flags < 0x80,
                status < 2,
        ;
        r
    }

    /// Writes the interrupt register.
    pub fn set_interrupt(&mut self, val: u32)
        requires
            old(self).inv(),
        ensures
            final(self).inv(),
            final(self)@ == old(self)@.set_interrupt(val),
    {
        self.irq_dummy = (val & 0x3f) as u8;
        self.force_irq = (val >> 15) & 1 != 0;
        self.channel_irq_en = ((val >> 16) & 0x7f) as u8;
        self.irq_en = (val >> 23) & 1 != 0;

        let ack = ((val >> 24) & 0x3f) as u8;
        let flags = self.channel_irq_flags;
        self.channel_irq_flags = flags & !ack;

        assert(val & 0x3f < 0x40 && (val >> 16) & 0x7f < 0x80) by (bit_vector);
        assert(flags & !ack < 0x80) by (bit_vector)
            requires
                flags < 0x80,
        ;
    }
}

} // verus!
