//! PCI configuration space: register addressing and decoding of the header
//! fields the bring-up path reads.
//!
//! The configuration access mechanism itself is a hardware bus transaction;
//! the shell performs it and hands the library a 256-byte snapshot of one
//! function's configuration space, modeled here as 64 little-endian DWORDs.

use vstd::prelude::*;

verus! {

/// Number of 32-bit registers in one function's configuration space.
pub const CONFIG_SPACE_DWORDS: usize = 64;

/// All-ones pattern returned for the vendor/device DWORD of an absent device.
pub const DEVICE_ABSENT: u32 = 0xFFFF_FFFF;

/// Identifies exactly one 32-bit configuration register of one PCI function.
#[derive(Clone, Copy, PartialEq, Eq, Structural)]
pub struct ConfigAddress {
    pub bus: u8,
    pub device: u8,
    pub function: u8,
    pub offset: u8,
}

impl ConfigAddress {
    /// A well-formed address: device 0-31, function 0-7, DWORD-aligned offset.
    pub open spec fn wf(self) -> bool {
        &&& self.device < 32
        &&& self.function < 8
        &&& self.offset % 4 == 0
    }

    pub fn new(bus: u8, device: u8, function: u8, offset: u8) -> (r: Self)
        requires
            device < 32,
            function < 8,
            offset % 4 == 0,
        ensures
            r == (ConfigAddress { bus, device, function, offset }),
            r.wf(),
    {
        ConfigAddress { bus, device, function, offset }
    }

    /// The DWORD written to the configuration address port: enable bit 31,
    /// bus in bits 23:16, device in 15:11, function in 10:8, offset in 7:2.
    pub fn as_u32(&self) -> (r: u32)
        requires
            self.wf(),
        ensures
            r == (0x8000_0000u32 | ((self.bus as u32) << 16) | ((self.device as u32) << 11)
                | ((self.function as u32) << 8) | (self.offset as u32)),
    {
        0x8000_0000u32 | ((self.bus as u32) << 16) | ((self.device as u32) << 11)
            | ((self.function as u32) << 8) | (self.offset as u32)
    }
}

/// A snapshot of one function's 256-byte configuration space.
///
/// Each hardware read is one bus transaction with no failure mode other than
/// the all-ones "device absent" encoding of the vendor/device DWORD; no field
/// of an absent function may be trusted, which the `requires` clauses of the
/// field accessors enforce on every caller.
pub struct ConfigSpace {
    pub regs: Vec<u32>,
}

impl ConfigSpace {
    pub open spec fn wf(self) -> bool {
        self.regs.len() == CONFIG_SPACE_DWORDS
    }

    /// The DWORD at the given byte offset.
    pub open spec fn spec_read(self, offset: int) -> u32 {
        self.regs[offset / 4]
    }

    /// A populated slot answers the vendor/device DWORD with anything but
    /// all-ones.
    pub open spec fn spec_present(self) -> bool {
        self.spec_read(0) != DEVICE_ABSENT
    }

    pub open spec fn spec_class(self) -> u32 {
        self.spec_read(0x08) >> 24
    }

    pub open spec fn spec_subclass(self) -> u32 {
        (self.spec_read(0x08) >> 16) & 0xFF
    }

    pub open spec fn spec_interface(self) -> u32 {
        (self.spec_read(0x08) >> 8) & 0xFF
    }

    /// Header type byte (offset 0x0E), multi-function bit masked off.
    pub open spec fn spec_header_type(self) -> u32 {
        (self.spec_read(0x0C) >> 16) & 0x7F
    }

    /// Class/subclass/programming-interface of a USB xHCI function.
    pub open spec fn spec_is_xhci(self) -> bool {
        &&& self.spec_present()
        &&& self.spec_class() == 0x0C
        &&& self.spec_subclass() == 0x03
        &&& self.spec_interface() == 0x30
    }

    /// An xHCI function with a type-0 (non-bridge) header: the only shape the
    /// controller constructor accepts.
    pub open spec fn spec_is_xhci_non_bridge(self) -> bool {
        self.spec_is_xhci() && self.spec_header_type() == 0
    }

    /// Capability-list head pointer: byte at offset 0x34, low two bits
    /// masked to zero.
    pub open spec fn spec_capability_ptr(self) -> u8 {
        (self.spec_read(0x34) & 0xFC) as u8
    }

    /// An absent slot is never treated as holding a device: whatever the rest
    /// of the snapshot says, a function whose vendor/device DWORD reads
    /// all-ones is not an xHCI controller, and every other field accessor
    /// demands a present device outright.
    pub proof fn lemma_absent_device_rejected(self)
        requires
            !self.spec_present(),
        ensures
            !self.spec_is_xhci(),
            !self.spec_is_xhci_non_bridge(),
    {
    }

    pub fn new(regs: Vec<u32>) -> (r: Self)
        requires
            regs.len() == CONFIG_SPACE_DWORDS,
        ensures
            r.regs == regs,
            r.wf(),
    {
        ConfigSpace { regs }
    }

    /// A copy of the snapshot holding the same register values.
    pub fn clone_space(&self) -> (r: Self)
        requires
            self.wf(),
        ensures
            r.regs@ == self.regs@,
            r.wf(),
    {
        let mut regs: Vec<u32> = Vec::new();
        let mut i: usize = 0;
        while i < self.regs.len()
            invariant
                i <= self.regs.len(),
                regs@ == self.regs@.take(i as int),
            decreases self.regs.len() - i,
        {
            regs.push(self.regs[i]);
            proof {
                assert(self.regs@.take(i as int + 1) =~= self.regs@.take(i as int).push(
                    self.regs@[i as int],
                ));
            }
            i = i + 1;
        }
        proof {
            assert(self.regs@.take(self.regs@.len() as int) =~= self.regs@);
        }
        ConfigSpace { regs }
    }

    pub fn read_u32(&self, offset: u8) -> (r: u32)
        requires
            self.wf(),
            offset % 4 == 0,
        ensures
            r == self.spec_read(offset as int),
    {
        self.regs[(offset / 4) as usize]
    }

    /// Whether the slot is populated; this must hold before any other field
    /// of the space is read.
    pub fn is_present(&self) -> (r: bool)
        requires
            self.wf(),
        ensures
            r == self.spec_present(),
    {
        self.regs[0] != DEVICE_ABSENT
    }

    /// Whether class/subclass/programming-interface identify an xHCI
    /// controller. An absent slot is never an xHCI controller.
    pub fn is_xhci(&self) -> (r: bool)
        requires
            self.wf(),
        ensures
            r == self.spec_is_xhci(),
    {
        if !self.is_present() {
            return false;
        }
        let class_reg = self.read_u32(0x08);
        (class_reg >> 24) == 0x0C && ((class_reg >> 16) & 0xFF) == 0x03
            && ((class_reg >> 8) & 0xFF) == 0x30
    }

    /// Whether the header is type 0 (a non-bridge function).
    pub fn is_non_bridge(&self) -> (r: bool)
        requires
            self.wf(),
            self.spec_present(),
        ensures
            r == (self.spec_header_type() == 0),
    {
        ((self.read_u32(0x0C) >> 16) & 0x7F) == 0
    }

    /// Whether the status register reports a capability list (bit 4 of the
    /// status word, which occupies the upper half of the DWORD at 0x04).
    pub fn has_capability_list(&self) -> (r: bool)
        requires
            self.wf(),
            self.spec_present(),
        ensures
            r == ((self.spec_read(0x04) >> 20) & 1 == 1),
    {
        (self.read_u32(0x04) >> 20) & 1 == 1
    }

    pub fn capability_ptr(&self) -> (r: u8)
        requires
            self.wf(),
            self.spec_present(),
        ensures
            r == self.spec_capability_ptr(),
            r % 4 == 0,
    {
        let r = (self.read_u32(0x34) & 0xFC) as u8;
        proof {
            let d = self.spec_read(0x34);
            assert((d & 0xFC) as u8 == (d & 0xFC) && (d & 0xFC) % 4 == 0) by (bit_vector);
        }
        r
    }
}

} // verus!
