//! The device context base address array: a fixed table of physical
//! pointers, one per usable device slot, read by the controller through DMA.
//!
//! Slot 0 is conventionally reserved for scratchpad use; slot `n` later
//! receives the physical address of device slot `n`'s context. The bring-up
//! path only zero-initializes the table and hands its physical base address
//! to the controller.

use vstd::prelude::*;

verus! {

/// Number of pointer slots the array holds, fixed at build time.
pub const MAX_DEVICE_SLOT: usize = 255;

/// Fixed array of machine-word physical pointers, never resized.
pub struct DeviceContextBaseAddressArray {
    pub entries: Vec<u64>,
}

impl DeviceContextBaseAddressArray {
    pub open spec fn wf(self) -> bool {
        self.entries.len() == MAX_DEVICE_SLOT
    }

    /// A zero-initialized array of `MAX_DEVICE_SLOT` pointers.
    pub fn new() -> (r: Self)
        ensures
            r.wf(),
            r.entries.len() == MAX_DEVICE_SLOT,
            forall|i: int| 0 <= i < r.entries.len() ==> r.entries[i] == 0,
    {
        let mut entries: Vec<u64> = Vec::new();
        while entries.len() < MAX_DEVICE_SLOT
            invariant
                entries.len() <= MAX_DEVICE_SLOT,
                forall|i: int| 0 <= i < entries.len() ==> entries[i] == 0,
            decreases MAX_DEVICE_SLOT - entries.len(),
        {
            entries.push(0);
        }
        DeviceContextBaseAddressArray { entries }
    }

    /// Number of pointer slots.
    pub fn len(&self) -> (r: usize)
        ensures
            r == self.entries.len(),
    {
        self.entries.len()
    }
}

} // verus!
