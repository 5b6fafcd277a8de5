//! Typed views of the host controller's MMIO registers.
//!
//! On hardware these overlay the memory region named by the function's first
//! BAR, and every field access is a volatile load or store. The library works
//! on plain copies of the register values: the capability registers are a
//! read-only snapshot valid for the controller's lifetime, and the shell is
//! responsible for writing each operational-register change back with one
//! volatile store.

use vstd::prelude::*;

verus! {

/// Read-only capability registers, snapshotted once at discovery.
#[derive(Clone, Copy, PartialEq, Eq, Structural, Debug)]
pub struct HCCapabilityRegisters {
    /// CAPLENGTH: byte offset of the operational registers.
    pub cap_length: u8,
    /// HCSPARAMS1: structural parameters.
    pub hcs_params_1: StructuralParameters1,
    /// RTSOFF: byte offset of the runtime registers.
    pub runtime_register_space_offset: u32,
}

/// The first structural-parameters DWORD.
#[derive(Clone, Copy, PartialEq, Eq, Structural, Debug)]
pub struct StructuralParameters1 {
    pub raw: u32,
}

impl StructuralParameters1 {
    /// Number of device slots the controller supports, in bits 7:0.
    pub open spec fn spec_number_of_device_slots(self) -> u8 {
        (self.raw & 0xFF) as u8
    }

    pub fn number_of_device_slots(&self) -> (r: u8)
        ensures
            r == self.spec_number_of_device_slots(),
    {
        (self.raw & 0xFF) as u8
    }
}

/// USBCMD: the command register; the run/stop bit lives in bit 0.
#[derive(Clone, Copy, PartialEq, Eq, Structural, Debug)]
pub struct UsbCommandRegister {
    pub raw: u32,
}

impl UsbCommandRegister {
    pub open spec fn spec_run_stop(self) -> bool {
        self.raw & 1 == 1
    }

    pub fn run_stop(&self) -> (r: bool)
        ensures
            r == self.spec_run_stop(),
    {
        self.raw & 1 == 1
    }

    /// Sets or clears run/stop; all other command bits keep their values.
    pub fn set_run_stop(&mut self, on: bool)
        ensures
            final(self).raw == if on {
                old(self).raw | 1u32
            } else {
                old(self).raw & !1u32
            },
            final(self).spec_run_stop() == on,
    {
        let prior = self.raw;
        self.raw = if on {
            prior | 1u32
        } else {
            prior & !1u32
        };
        proof {
            assert(((prior | 1u32) & 1 == 1) && !((prior & !1u32) & 1 == 1)) by (bit_vector);
        }
    }
}

/// USBSTS: the status register; controller-not-ready is bit 11.
#[derive(Clone, Copy, PartialEq, Eq, Structural, Debug)]
pub struct UsbStatusRegister {
    pub raw: u32,
}

impl UsbStatusRegister {
    pub open spec fn spec_controller_not_ready(self) -> bool {
        (self.raw >> 11) & 1 == 1
    }

    pub fn controller_not_ready(&self) -> (r: bool)
        ensures
            r == self.spec_controller_not_ready(),
    {
        (self.raw >> 11) & 1 == 1
    }
}

/// CONFIG: the configure register; the enabled slot count lives in bits 7:0.
#[derive(Clone, Copy, PartialEq, Eq, Structural, Debug)]
pub struct ConfigureRegister {
    pub raw: u32,
}

impl ConfigureRegister {
    pub open spec fn spec_max_device_slots_enabled(self) -> u8 {
        (self.raw & 0xFF) as u8
    }

    pub fn max_device_slots_enabled(&self) -> (r: u8)
        ensures
            r == self.spec_max_device_slots_enabled(),
    {
        (self.raw & 0xFF) as u8
    }

    /// Writes bits 7:0; all other bits keep their values.
    pub fn set_max_device_slots_enabled(&mut self, slots: u8)
        ensures
            final(self).raw == (old(self).raw & !0xFFu32) | (slots as u32),
            final(self).spec_max_device_slots_enabled() == slots,
    {
        let prior = self.raw;
        self.raw = (prior & !0xFFu32) | (slots as u32);
        proof {
            let s = slots;
            assert((((prior & !0xFFu32) | (s as u32)) & 0xFF) as u8 == s) by (bit_vector);
        }
    }
}

/// DCBAAP: physical base address of the device context base address array.
#[derive(Clone, Copy, PartialEq, Eq, Structural, Debug)]
pub struct DcbaapRegister {
    pub ptr: u64,
}

impl DcbaapRegister {
    pub fn set_ptr(&mut self, ptr: u64)
        ensures
            final(self).ptr == ptr,
    {
        self.ptr = ptr;
    }
}

/// CRCR: physical base address of the command ring.
#[derive(Clone, Copy, PartialEq, Eq, Structural, Debug)]
pub struct CrcrRegister {
    pub ptr: u64,
}

impl CrcrRegister {
    pub fn set_ptr(&mut self, ptr: u64)
        ensures
            final(self).ptr == ptr,
    {
        self.ptr = ptr;
    }
}

/// Read/write operational registers, at CAPLENGTH bytes past the MMIO base.
#[derive(Clone, Copy, PartialEq, Eq, Structural, Debug)]
pub struct HCOperationalRegisters {
    pub usb_cmd: UsbCommandRegister,
    pub usb_sts: UsbStatusRegister,
    pub config: ConfigureRegister,
    pub dcbaap: DcbaapRegister,
    pub crcr: CrcrRegister,
}

/// USBLEGSUP: the vendor-defined extended capability negotiating firmware
/// handoff. The BIOS-owned semaphore is bit 16, the OS-owned semaphore is
/// bit 24.
#[derive(Clone, Copy, PartialEq, Eq, Structural, Debug)]
pub struct UsbLegacySupportCapability {
    pub usb_leg_sup: u32,
}

impl UsbLegacySupportCapability {
    pub open spec fn spec_bios_owns_hc(self) -> bool {
        (self.usb_leg_sup >> 16) & 1 == 1
    }

    pub open spec fn spec_os_owns_hc(self) -> bool {
        (self.usb_leg_sup >> 24) & 1 == 1
    }

    pub fn bios_owns_hc(&self) -> (r: bool)
        ensures
            r == self.spec_bios_owns_hc(),
    {
        (self.usb_leg_sup >> 16) & 1 == 1
    }

    pub fn os_owns_hc(&self) -> (r: bool)
        ensures
            r == self.spec_os_owns_hc(),
    {
        (self.usb_leg_sup >> 24) & 1 == 1
    }

    /// Sets or clears the OS-owned semaphore. The BIOS-owned semaphore
    /// belongs to the firmware and keeps its value.
    pub fn request_hc_ownership(&mut self, own: bool)
        ensures
            final(self).usb_leg_sup == if own {
                old(self).usb_leg_sup | 0x100_0000u32
            } else {
                old(self).usb_leg_sup & !0x100_0000u32
            },
            final(self).spec_os_owns_hc() == own,
            final(self).spec_bios_owns_hc() == old(self).spec_bios_owns_hc(),
    {
        let prior = self.usb_leg_sup;
        self.usb_leg_sup = if own {
            prior | 0x100_0000u32
        } else {
            prior & !0x100_0000u32
        };
        proof {
            let s = prior | 0x100_0000u32;
            let c = prior & !0x100_0000u32;
            assert((((s >> 24) & 1) == 1) && !(((c >> 24) & 1) == 1) && ((s >> 16) & 1) == ((prior
                >> 16) & 1) && ((c >> 16) & 1) == ((prior >> 16) & 1)) by (bit_vector)
                requires
                    s == prior | 0x100_0000u32,
                    c == prior & !0x100_0000u32,
            ;
        }
    }
}

} // verus!
