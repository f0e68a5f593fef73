//! The DMA controller: seven channels, the global control register and
//! the interrupt register.

use vstd::prelude::*;
use crate::channel::{Channel, channel_reset};

verus! {

/// The peripheral attached to each DMA channel, in register order.
#[derive(Clone, Copy, PartialEq, Eq, Structural, Debug)]
pub enum Port {
    /// Macroblock decoder input.
    MdecIn,
    /// Macroblock decoder output.
    MdecOut,
    /// Graphics processing unit.
    GPU,
    /// CD-ROM drive.
    CDROM,
    /// Sound processing unit.
    SPU,
    /// Extension port.
    Pio,
    /// Ordering-table clear, used to set up graphics linked lists.
    Otc,
}

impl Port {
    /// The channel number of the port.
    pub open spec fn spec_index(self) -> usize {
        match self {
            Port::MdecIn => 0,
            Port::MdecOut => 1,
            Port::GPU => 2,
            Port::CDROM => 3,
            Port::SPU => 4,
            Port::Pio => 5,
            Port::Otc => 6,
        }
    }

    #[verifier::when_used_as_spec(spec_index)]
    pub fn index(self) -> (r: usize)
        ensures
            r == self.spec_index(),
            r < 7,
    {
        match self {
            Port::MdecIn => 0,
            Port::MdecOut => 1,
            Port::GPU => 2,
            Port::CDROM => 3,
            Port::SPU => 4,
            Port::Pio => 5,
            Port::Otc => 6,
        }
    }

    /// The port with channel number `index`; indices 7 and above give
    /// the last port.
    pub open spec fn spec_from_index(index: u32) -> Port {
        if index == 0 {
            Port::MdecIn
        } else if index == 1 {
            Port::MdecOut
        } else if index == 2 {
            Port::GPU
        } else if index == 3 {
            Port::CDROM
        } else if index == 4 {
            Port::SPU
        } else if index == 5 {
            Port::Pio
        } else {
            Port::Otc
        }
    }

    /// The port with the given channel number, which must be below 7.
    pub fn from_index(index: u32) -> (r: Port)
        requires
            index < 7,
        ensures
            r.spec_index() == index,
            r == Port::spec_from_index(index),
    {
        match index {
            0 => Port::MdecIn,
            1 => Port::MdecOut,
            2 => Port::GPU,
            3 => Port::CDROM,
            4 => Port::SPU,
            5 => Port::Pio,
            _ => Port::Otc,
        }
    }
}

/// The mathematical state of the DMA controller.
pub ghost struct DmaState {
    pub control: u32,
    pub irq_en: bool,
    pub channel_irq_en: u8,
    pub channel_irq_flags: u8,
    pub force_irq: bool,
    pub irq_dummy: u8,
    pub channels: Seq<Channel>,
}

/// The DMA controller's register state.
pub struct Dma {
    /// The global control register.
    pub control: u32,
    /// Master IRQ enable.
    pub irq_en: bool,
    /// Per-channel IRQ enable mask.
    pub channel_irq_en: u8,
    /// Per-channel IRQ flags.
    pub channel_irq_flags: u8,
    /// When set, the IRQ signal is asserted unconditionally.
    pub force_irq: bool,
    /// Writable bits 0-5 of the interrupt register with no function.
    pub irq_dummy: u8,
    /// The seven channels, indexed by port.
    pub channels: Vec<Channel>,
}

impl View for Dma {
    type V = DmaState;

    open spec fn view(&self) -> DmaState {
        DmaState {
            control: self.control,
            irq_en: self.irq_en,
            channel_irq_en: self.channel_irq_en,
            channel_irq_flags: self.channel_irq_flags,
            force_irq: self.force_irq,
            irq_dummy: self.irq_dummy,
            channels: self.channels@,
        }
    }
}

/// The power-on state of the controller.
pub open spec fn dma_reset() -> DmaState {
    DmaState {
        control: 0x07654321,
        irq_en: false,
        channel_irq_en: 0,
        channel_irq_flags: 0,
        force_irq: false,
        irq_dummy: 0,
        channels: Seq::new(7, |i: int| channel_reset()),
    }
}

/// The aggregated IRQ signal of the interrupt register.
pub open spec fn irq_spec(d: DmaState) -> bool {
    d.force_irq || (d.irq_en && (d.channel_irq_flags & d.channel_irq_en) != 0)
}

/// The value read from the interrupt register.
pub open spec fn interrupt_spec(d: DmaState) -> u32 {
    (d.irq_dummy as u32) | ((if d.force_irq {
        1u32
    } else {
        0u32
    }) << 15) | ((d.channel_irq_en as u32) << 16) | ((if d.irq_en {
        1u32
    } else {
        0u32
    }) << 23) | ((d.channel_irq_flags as u32) << 24) | ((if irq_spec(d) {
        1u32
    } else {
        0u32
    }) << 31)
}

/// The controller state after a write to the interrupt register: the
/// seven bits 24-30 acknowledge (clear) the matching IRQ flags.
pub open spec fn set_interrupt_spec(d: DmaState, value: u32) -> DmaState {
    DmaState {
        irq_dummy: (value & 0x3f) as u8,
        force_irq: (value >> 15) & 1 != 0,
        channel_irq_en: ((value >> 16) & 0x7f) as u8,
        irq_en: (value >> 23) & 1 != 0,
        channel_irq_flags: (d.channel_irq_flags & !(((value >> 24) & 0x7f) as u8)) as u8,
        ..d
    }
}

/// A well-formed controller state: exactly seven channels, and the
/// sub-byte register fields within their widths (seven flag bits, six
/// dummy bits), so that reading them back cannot bleed into higher
/// interrupt-register bits.
pub open spec fn dma_wf(d: DmaState) -> bool {
    &&& d.channels.len() == 7
    &&& d.channel_irq_flags < 0x80
    &&& d.irq_dummy < 0x40
}

impl Dma {
    /// A well-formed controller, as [`dma_wf`] of its state.
    pub open spec fn wf(&self) -> bool {
        dma_wf(self@)
    }

    /// Power-on state: reset control value, no interrupts pending, all
    /// channels idle.
    pub fn new() -> (r: Dma)
        ensures
            r.wf(),
            r@ == dma_reset(),
    {
        let mut channels: Vec<Channel> = Vec::new();
        let mut n: usize = 0;
        while n < 7
            invariant
                n == channels@.len(),
                n <= 7,
                forall|i: int| 0 <= i < n ==> channels@[i] == channel_reset(),
            decreases 7 - n,
        {
            channels.push(Channel::new());
            n = n + 1;
        }

        let r = Dma {
            control: 0x07654321,
            irq_en: false,
            channel_irq_en: 0,
            channel_irq_flags: 0,
            force_irq: false,
            irq_dummy: 0,
            channels,
        };
        proof {
            assert(r@.channels =~= dma_reset().channels);
        }
        r
    }

    /// The aggregated IRQ signal: forced, or some enabled channel flag
    /// pending while the master enable is set.
    pub fn irq(&self) -> (r: bool)
        ensures
            r == irq_spec(self@),
    {
        let channel_irq = self.channel_irq_flags & self.channel_irq_en;

        self.force_irq || (self.irq_en && channel_irq != 0)
    }

    /// Reads the interrupt register.
    pub fn interrupt(&self) -> (r: u32)
        ensures
            r == interrupt_spec(self@),
    {
        let force: u32 = if self.force_irq {
            1
        } else {
            0
        };
        let en: u32 = if self.irq_en {
            1
        } else {
            0
        };
        let irq: u32 = if self.irq() {
            1
        } else {
            0
        };

        (self.irq_dummy as u32) | (force << 15) | ((self.channel_irq_en as u32) << 16) | (en << 23)
            | ((self.channel_irq_flags as u32) << 24) | (irq << 31)
    }

    /// Writes the interrupt register; the seven flag bits written as 1
    /// are cleared.
    pub fn set_interrupt(&mut self, value: u32)
        requires
            old(self).wf(),
        ensures
            final(self).wf(),
            final(self)@ == set_interrupt_spec(old(self)@, value),
    {
        self.irq_dummy = (value & 0x3f) as u8;

        self.force_irq = (value >> 15) & 1 != 0;

        self.channel_irq_en = ((value >> 16) & 0x7f) as u8;

        self.irq_en = (value >> 23) & 1 != 0;

        let ack = ((value >> 24) & 0x7f) as u8;
        let flags = self.channel_irq_flags;
        proof {
            assert((value & 0x3f) < 0x40) by (bit_vector);
            assert(flags < 0x80 ==> (flags & !ack) < 0x80) by (bit_vector);
        }
        self.channel_irq_flags = flags & !ack;
    }

    /// Reads the global control register.
    pub fn control(&self) -> (r: u32)
        ensures
            r == self@.control,
    {
        self.control
    }

    /// Writes the global control register.
    pub fn set_control(&mut self, value: u32)
        ensures
            final(self)@ == (DmaState { control: value, ..old(self)@ }),
    {
        self.control = value;
    }

    /// The state of the channel attached to `port`.
    pub fn channel(&self, port: Port) -> (r: Channel)
        requires
            self.wf(),
        ensures
            r == self@.channels[port.spec_index() as int],
    {
        self.channels[port.index()]
    }

    /// Replaces the state of the channel attached to `port`.
    pub fn set_channel(&mut self, port: Port, channel: Channel)
        requires
            old(self).wf(),
        ensures
            final(self).wf(),
            final(self)@ == (DmaState {
                channels: old(self)@.channels.update(port.spec_index() as int, channel),
                ..old(self)@
            }),
    {
        self.channels.set(port.index(), channel);
    }
}

} // verus!
