//! The direct-memory-access controller for sprite attribute transfers: copies
//! 160 bytes from a programmer-selected source page, one byte per emulated
//! step, then deactivates itself.

use vstd::prelude::*;

use crate::bits;

verus! {

/// How many bytes one transfer copies, one per step.
pub const DMA_CYCLES: u8 = 160;

pub struct DMA {
    pub source: u8,
    pub offset: u8,
    pub running: bool,
}

/// The source address a transfer reads at a given offset: the source page as
/// the high byte plus the running offset.
pub open spec fn spec_dma_address(source: u8, offset: u8) -> u16 {
    bits::spec_wrap_add16((source as u16) << 8, offset as u16)
}

impl DMA {
    /// An idle controller.
    pub fn new() -> (r: DMA)
        ensures
            r.source == 0,
            r.offset == 0,
            !r.running,
    {
        DMA { source: 0x0, offset: 0, running: false }
    }

    /// Starts a transfer from the given source page. Ignored, leaving the
    /// controller unchanged, while a transfer is already active.
    pub fn initialize(&mut self, addr_high: u8)
        ensures
            old(self).running ==> *final(self) == *old(self),
            !old(self).running ==> *final(self) == (DMA {
                source: addr_high,
                offset: 0,
                running: true,
            }),
    {
        if self.running {
            return ;
        }
        self.source = addr_high;
        self.offset = 0;
        self.running = true;
    }

    /// While a transfer is active, returns the next source address and
    /// advances the offset, deactivating once all 160 bytes were addressed;
    /// returns nothing when idle.
    pub fn emulate(&mut self) -> (r: Option<u16>)
        ensures
            !old(self).running ==> r is None && *final(self) == *old(self),
            old(self).running ==> {
                &&& r == Some(spec_dma_address(old(self).source, old(self).offset))
                &&& final(self).source == old(self).source
                &&& final(self).offset == bits::spec_wrap_add8(old(self).offset, 1)
                &&& final(self).running == (bits::spec_wrap_add8(old(self).offset, 1) < DMA_CYCLES)
            },
    {
        if self.running {
            Some(self.get_next_address())
        } else {
            None
        }
    }

    /// The source page of the current (or last) transfer.
    pub fn get_source(&self) -> (r: u8)
        ensures
            r == self.source,
    {
        self.source
    }

    fn get_next_address(&mut self) -> (r: u16)
        requires
            old(self).running,
        ensures
            r == spec_dma_address(old(self).source, old(self).offset),
            final(self).source == old(self).source,
            final(self).offset == bits::spec_wrap_add8(old(self).offset, 1),
            final(self).running == (bits::spec_wrap_add8(old(self).offset, 1) < DMA_CYCLES),
    {
        let address = (self.source as u16) << 8;
        let address = address.wrapping_add(self.offset as u16);
        self.offset = self.offset.wrapping_add(1);
        if self.is_complete() {
            self.running = false;
        }
        address
    }

    /// True once the offset has run past the last of the 160 bytes.
    pub fn is_complete(&self) -> (r: bool)
        ensures
            r == (self.offset >= DMA_CYCLES),
    {
        self.offset >= DMA_CYCLES
    }
}

} // verus!
