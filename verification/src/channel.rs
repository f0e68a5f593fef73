//! One DMA channel: its control, block-control and base-address
//! registers, decoded into fields.

use vstd::prelude::*;
use crate::errors::EmuError;

verus! {

/// Transfer direction of a channel.
#[derive(Clone, Copy, PartialEq, Eq, Structural, Debug)]
pub enum Direction {
    ToRam,
    FromRam,
}

/// Address step of a block transfer.
#[derive(Clone, Copy, PartialEq, Eq, Structural, Debug)]
pub enum Step {
    Increment,
    Decrement,
}

/// Synchronization mode of a channel.
#[derive(Clone, Copy, PartialEq, Eq, Structural, Debug)]
pub enum Sync {
    /// Transfer starts when the CPU writes the trigger bit.
    Manual,
    /// Sync blocks to DMA requests.
    Request,
    /// Linked-list mode, used to send GPU command lists.
    LinkedList,
}

/// The encoding of a direction in bit 0 of the control word.
pub open spec fn direction_bit(d: Direction) -> u32 {
    match d {
        Direction::ToRam => 0,
        Direction::FromRam => 1,
    }
}

/// The encoding of a step in bit 1 of the control word.
pub open spec fn step_bit(s: Step) -> u32 {
    match s {
        Step::Increment => 0,
        Step::Decrement => 1,
    }
}

/// The encoding of a sync mode in bits 9-10 of the control word.
pub open spec fn sync_bits(s: Sync) -> u32 {
    match s {
        Sync::Manual => 0,
        Sync::Request => 1,
        Sync::LinkedList => 2,
    }
}

/// One DMA channel's register state.
#[derive(Clone, Copy, PartialEq, Eq, Structural, Debug)]
pub struct Channel {
    pub enable: bool,
    pub direction: Direction,
    pub step: Step,
    pub sync: Sync,
    pub trigger: bool,
    pub chop: bool,
    pub chop_dma_size: u8,
    pub chop_cpu_size: u8,
    pub dummy: u8,
    pub base: u32,
    pub block_size: u16,
    pub block_count: u16,
}

/// The channel state encoded by a control-word write: the decoded fields
/// of `value`, with base and block control carried over from `c`.
pub open spec fn set_control_spec(c: Channel, value: u32) -> Channel {
    Channel {
        direction: if value & 1 != 0 {
            Direction::FromRam
        } else {
            Direction::ToRam
        },
        step: if (value >> 1) & 1 != 0 {
            Step::Decrement
        } else {
            Step::Increment
        },
        chop: (value >> 8) & 1 != 0,
        sync: if (value >> 9) & 3 == 0 {
            Sync::Manual
        } else if (value >> 9) & 3 == 1 {
            Sync::Request
        } else {
            Sync::LinkedList
        },
        chop_dma_size: ((value >> 16) & 7) as u8,
        chop_cpu_size: ((value >> 20) & 7) as u8,
        enable: (value >> 24) & 1 != 0,
        trigger: (value >> 28) & 1 != 0,
        dummy: ((value >> 29) & 3) as u8,
        ..c
    }
}

/// The control word that reads back the channel's fields.
pub open spec fn control_spec(c: Channel) -> u32 {
    direction_bit(c.direction) | (step_bit(c.step) << 1) | ((if c.chop {
        1u32
    } else {
        0u32
    }) << 8) | (sync_bits(c.sync) << 9) | ((c.chop_dma_size as u32) << 16) | ((
    c.chop_cpu_size as u32) << 20) | ((if c.enable {
        1u32
    } else {
        0u32
    }) << 24) | ((if c.trigger {
        1u32
    } else {
        0u32
    }) << 28) | ((c.dummy as u32) << 29)
}

/// Words moved by a transfer in the channel's sync mode, or `None` in
/// linked-list mode, where the size comes from the list itself.
pub open spec fn transfer_size_spec(c: Channel) -> Option<u32> {
    match c.sync {
        Sync::Manual => Some(c.block_size as u32),
        Sync::Request => Some(((c.block_count as u32) * (c.block_size as u32)) as u32),
        Sync::LinkedList => None,
    }
}

/// The power-on state of a channel: everything disabled and zero.
pub open spec fn channel_reset() -> Channel {
    Channel {
        enable: false,
        direction: Direction::ToRam,
        step: Step::Increment,
        sync: Sync::Manual,
        trigger: false,
        chop: false,
        chop_dma_size: 0,
        chop_cpu_size: 0,
        dummy: 0,
        base: 0,
        block_size: 0,
        block_count: 0,
    }
}

impl Channel {
    /// Power-on state: everything disabled and zero.
    pub fn new() -> (r: Channel)
        ensures
            r == channel_reset(),
    {
        Channel {
            enable: false,
            direction: Direction::ToRam,
            step: Step::Increment,
            sync: Sync::Manual,
            trigger: false,
            chop: false,
            chop_dma_size: 0,
            chop_cpu_size: 0,
            dummy: 0,
            base: 0,
            block_size: 0,
            block_count: 0,
        }
    }

    /// The transfer base address.
    pub fn base(&self) -> (r: u32)
        ensures
            r == self.base,
    {
        self.base
    }

    /// Sets the base address; only its low 24 bits are kept.
    pub fn set_base(&mut self, value: u32)
        ensures
            *final(self) == (Channel { base: value & 0xffffff, ..*old(self) }),
    {
        self.base = value & 0xffffff;
    }

    /// The block-control word: block count in the high half, block size in
    /// the low half.
    pub fn block_control(&self) -> (r: u32)
        ensures
            r == ((self.block_count as u32) << 16) | (self.block_size as u32),
    {
        let bs = self.block_size as u32;
        let bc = self.block_count as u32;

        (bc << 16) | bs
    }

    /// Sets block size and block count from the two halves of `value`.
    pub fn set_block_control(&mut self, value: u32)
        ensures
            *final(self) == (Channel {
                block_size: value as u16,
                block_count: (value >> 16) as u16,
                ..*old(self)
            }),
    {
        self.block_size = value as u16;
        self.block_count = (value >> 16) as u16;
    }

    /// Whether the channel wants to run: enabled, and in manual sync also
    /// triggered.
    pub open spec fn spec_active(&self) -> bool {
        self.enable && (match self.sync {
            Sync::Manual => self.trigger,
            _ => true,
        })
    }

    #[verifier::when_used_as_spec(spec_active)]
    pub fn active(&self) -> (r: bool)
        ensures
            r == self.spec_active(),
    {
        let trigger = match self.sync {
            Sync::Manual => self.trigger,
            _ => true,
        };

        self.enable && trigger
    }

    /// The control word that reads back the channel's fields.
    pub fn control(&self) -> (r: u32)
        ensures
            r == control_spec(*self),
    {
        let direction: u32 = match self.direction {
            Direction::ToRam => 0,
            Direction::FromRam => 1,
        };
        let step: u32 = match self.step {
            Step::Increment => 0,
            Step::Decrement => 1,
        };
        let chop: u32 = if self.chop {
            1
        } else {
            0
        };
        let sync: u32 = match self.sync {
            Sync::Manual => 0,
            Sync::Request => 1,
            Sync::LinkedList => 2,
        };
        let enable: u32 = if self.enable {
            1
        } else {
            0
        };
        let trigger: u32 = if self.trigger {
            1
        } else {
            0
        };

        direction | (step << 1) | (chop << 8) | (sync << 9) | ((self.chop_dma_size as u32) << 16)
            | ((self.chop_cpu_size as u32) << 20) | (enable << 24) | (trigger << 28) | ((
        self.dummy as u32) << 29)
    }

    /// Decodes a control-word write into the channel's fields.  The sync
    /// field value 3 is reserved and rejected.
    pub fn set_control(&mut self, value: u32) -> (r: Result<(), EmuError>)
        ensures
            match r {
                Ok(()) => (value >> 9) & 3 != 3 && *final(self) == set_control_spec(
                    *old(self),
                    value,
                ),
                Err(e) => (value >> 9) & 3 == 3 && e == EmuError::UnknownSyncMode((value >> 9) & 3)
                    && *final(self) == *old(self),
            },
    {
        let s = (value >> 9) & 3;
        proof {
            assert((value >> 9) & 3 <= 3) by (bit_vector);
        }
        let sync = if s == 0 {
            Sync::Manual
        } else if s == 1 {
            Sync::Request
        } else if s == 2 {
            Sync::LinkedList
        } else {
            return Err(EmuError::UnknownSyncMode(s));
        };

        self.direction = if value & 1 != 0 {
            Direction::FromRam
        } else {
            Direction::ToRam
        };

        self.step = if (value >> 1) & 1 != 0 {
            Step::Decrement
        } else {
            Step::Increment
        };

        self.chop = (value >> 8) & 1 != 0;

        self.sync = sync;

        self.chop_dma_size = ((value >> 16) & 7) as u8;
        self.chop_cpu_size = ((value >> 20) & 7) as u8;

        self.enable = (value >> 24) & 1 != 0;
        self.trigger = (value >> 28) & 1 != 0;
        self.dummy = ((value >> 29) & 3) as u8;

        Ok(())
    }

    /// The transfer direction.
    pub fn direction(&self) -> (r: Direction)
        ensures
            r == self.direction,
    {
        self.direction
    }

    /// The address step.
    pub fn step(&self) -> (r: Step)
        ensures
            r == self.step,
    {
        self.step
    }

    /// The sync mode.
    pub fn sync(&self) -> (r: Sync)
        ensures
            r == self.sync,
    {
        self.sync
    }

    /// Words moved by a transfer in the current sync mode, or `None` in
    /// linked-list mode.
    pub fn transfer_size(&self) -> (r: Option<u32>)
        ensures
            r == transfer_size_spec(*self),
    {
        let bs = self.block_size as u32;
        let bc = self.block_count as u32;

        match self.sync {
            Sync::Manual => Some(bs),
            Sync::Request => {
                proof {
                    assert(bc * bs < 0x100000000) by (nonlinear_arith)
                        requires
                            bs < 0x10000,
                            bc < 0x10000,
                    ;
                }
                Some(bc * bs)
            },
            Sync::LinkedList => None,
        }
    }

    /// Marks the transfer finished: clears the enable and trigger bits.
    pub fn done(&mut self)
        ensures
            *final(self) == (Channel { enable: false, trigger: false, ..*old(self) }),
    {
        self.enable = false;
        self.trigger = false;
    }
}

} // verus!
