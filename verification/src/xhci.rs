//! The controller orchestrator: sequences a discovered PCI function through
//! the bring-up states, in strict forward order, to a running host
//! controller.
//!
//! Discovered, ownership requested, ownership transferred, controller ready,
//! slots configured, DCBAAP set, command ring pointer set, running. Each
//! wait of the bring-up path is a busy-poll on a volatile register bit with
//! no timeout; over the plain register values the library works on, such a
//! poll completes exactly when the predicate already holds, which the
//! preconditions state. A shell driving real hardware re-reads the registers
//! through the public predicate accessors until they settle, then hands the
//! settled values in.

use vstd::prelude::*;

verus! {

use crate::dcbaa::{DeviceContextBaseAddressArray, MAX_DEVICE_SLOT};
use crate::memory::MemoryServices;
use crate::pci::ConfigSpace;
use crate::registers::{
    HCCapabilityRegisters,
    HCOperationalRegisters,
    UsbLegacySupportCapability,
};
use crate::ring::RingQueue;

/// Failure of controller discovery or bring-up.
#[derive(Clone, Copy, PartialEq, Eq, Structural, Debug)]
pub enum Error {
    /// The function's class codes or header type do not identify an xHCI
    /// controller; the caller excludes it from the iteration.
    NotXhciDevice,
    /// The capability registers report more device slots than the DCBAA has
    /// pointer slots; writing them would run past the array.
    TooManySlots,
}

/// One xHC and the structures it is brought up with. Constructed once per
/// discovered xHCI function and mutated in place by the bring-up steps,
/// never reconstructed.
pub struct Xhci {
    pub usb_legacy_support_capability: UsbLegacySupportCapability,
    pub hc_capability_registers: HCCapabilityRegisters,
    pub hc_operational_registers: HCOperationalRegisters,
    pub dcbaa: DeviceContextBaseAddressArray,
    pub command_ring: RingQueue,
    pub config_space: ConfigSpace,
    /// Virtual address of the page backing the DCBAA.
    pub dcbaa_addr: u64,
}

impl Xhci {
    pub open spec fn wf(self) -> bool {
        &&& self.config_space.wf()
        &&& self.config_space.spec_is_xhci_non_bridge()
        &&& self.dcbaa.wf()
        &&& self.command_ring.wf()
    }

    /// Builds the controller for one discovered function.
    ///
    /// Succeeds exactly when the function is present, its class codes name
    /// an xHCI controller and its header is type 0. On success one page is
    /// claimed and mapped for the DCBAA and one for the command ring, both
    /// zero-initialized; on failure the memory services are untouched.
    pub fn new(
        config_space: ConfigSpace,
        hc_capability_registers: HCCapabilityRegisters,
        hc_operational_registers: HCOperationalRegisters,
        usb_legacy_support_capability: UsbLegacySupportCapability,
        mem: &mut MemoryServices,
    ) -> (r: Result<Xhci, Error>)
        requires
            config_space.wf(),
            old(mem).wf(),
            old(mem).next_free_page + 8192 <= u64::MAX,
            old(mem).next_free_frame + 8192 <= u64::MAX,
        ensures
            r is Ok <==> config_space.spec_is_xhci_non_bridge(),
            (r matches Err(e) ==> e == Error::NotXhciDevice && *final(mem) == *old(mem)),
            (r matches Ok(c) ==> {
                &&& c.wf()
                &&& c.config_space == config_space
                &&& c.hc_capability_registers == hc_capability_registers
                &&& c.hc_operational_registers == hc_operational_registers
                &&& c.usb_legacy_support_capability == usb_legacy_support_capability
                &&& c.dcbaa.entries.len() == MAX_DEVICE_SLOT
                &&& forall|i: int| 0 <= i < c.dcbaa.entries.len() ==> c.dcbaa.entries[i] == 0
                &&& c.command_ring.trbs.len() == crate::ring::NUM_OF_TRB_IN_QUEUE
                &&& forall|i: int|
                    0 <= i < c.command_ring.trbs.len() ==> c.command_ring.trbs[i] == (crate::ring::Trb {
                        parameter: 0,
                        status: 0,
                        control: 0,
                    })
                &&& c.command_ring.enqueue_index == 0
                &&& c.command_ring.cycle_bit == true
                &&& c.dcbaa_addr == old(mem).next_free_page
                &&& c.command_ring.base_addr == old(mem).next_free_page + 4096
                &&& final(mem).wf()
                &&& final(mem).spec_translate(c.dcbaa_addr) == Some(old(mem).next_free_frame)
                &&& final(mem).spec_translate(c.command_ring.base_addr) == Some(
                    (old(mem).next_free_frame + 4096) as u64,
                )
                &&& final(mem).next_free_page == old(mem).next_free_page + 8192
                &&& final(mem).next_free_frame == old(mem).next_free_frame + 8192
            }),
    {
        if !config_space.is_xhci() {
            return Err(Error::NotXhciDevice);
        }
        if !config_space.is_non_bridge() {
            return Err(Error::NotXhciDevice);
        }
        let dcbaa_page = match mem.search_first_unused_page() {
            Some(page) => page,
            None => unreached(),
        };
        let dcbaa_frame = match mem.allocate_frame() {
            Some(frame) => frame,
            None => unreached(),
        };
        mem.map_to(dcbaa_page, dcbaa_frame);
        let dcbaa = DeviceContextBaseAddressArray::new();
        let command_ring = RingQueue::new(mem);
        Ok(
            Xhci {
                usb_legacy_support_capability,
                hc_capability_registers,
                hc_operational_registers,
                dcbaa,
                command_ring,
                config_space,
                dcbaa_addr: dcbaa_page,
            },
        )
    }

    /// Runs the whole bring-up sequence: ownership handoff, readiness wait,
    /// slot configuration, DCBAAP and command-ring pointers, run/stop.
    ///
    /// Afterwards the OS owns the controller, the enabled slot count equals
    /// the supported slot count, both hardware pointers hold the translated
    /// physical addresses of the DCBAA and the ring, and the controller
    /// runs. Everything the sequence does not write keeps its value.
    pub fn init(&mut self, mem: &MemoryServices) -> (r: Result<(), Error>)
        requires
            old(self).wf(),
            mem.wf(),
            mem.spec_translate(old(self).dcbaa_addr) is Some,
            mem.spec_translate(old(self).command_ring.base_addr) is Some,
            !old(self).usb_legacy_support_capability.spec_bios_owns_hc(),
            !old(self).hc_operational_registers.usb_sts.spec_controller_not_ready(),
        ensures
            r is Ok,
            final(self).wf(),
            final(self).hc_capability_registers == old(self).hc_capability_registers,
            final(self).config_space == old(self).config_space,
            final(self).dcbaa == old(self).dcbaa,
            final(self).command_ring == old(self).command_ring,
            final(self).dcbaa_addr == old(self).dcbaa_addr,
            final(self).usb_legacy_support_capability.spec_os_owns_hc(),
            !final(self).usb_legacy_support_capability.spec_bios_owns_hc(),
            final(self).hc_operational_registers.config.spec_max_device_slots_enabled() == old(
                self,
            ).hc_capability_registers.hcs_params_1.spec_number_of_device_slots(),
            Some(final(self).hc_operational_registers.dcbaap.ptr) == mem.spec_translate(
                old(self).dcbaa_addr,
            ),
            Some(final(self).hc_operational_registers.crcr.ptr) == mem.spec_translate(
                old(self).command_ring.base_addr,
            ),
            final(self).hc_operational_registers.usb_cmd.spec_run_stop(),
            final(self).hc_operational_registers.usb_sts == old(
                self,
            ).hc_operational_registers.usb_sts,
    {
        self.get_ownership_from_bios();
        self.wait_until_controller_is_ready();
        self.set_num_of_enabled_slots()?;
        self.set_dcbaap(mem);
        self.set_command_ring_pointer(mem);
        self.run();
        Ok(())
    }

    /// Requests ownership by setting the OS-owned semaphore, then busy-polls
    /// until the firmware's BIOS-owned semaphore reads clear.
    pub fn get_ownership_from_bios(&mut self)
        requires
            !old(self).usb_legacy_support_capability.spec_bios_owns_hc(),
        ensures
            final(self).usb_legacy_support_capability.spec_os_owns_hc(),
            !final(self).usb_legacy_support_capability.spec_bios_owns_hc(),
            final(self).usb_legacy_support_capability.usb_leg_sup == old(
                self,
            ).usb_legacy_support_capability.usb_leg_sup | 0x100_0000u32,
            final(self).hc_capability_registers == old(self).hc_capability_registers,
            final(self).hc_operational_registers == old(self).hc_operational_registers,
            final(self).dcbaa == old(self).dcbaa,
            final(self).command_ring == old(self).command_ring,
            final(self).config_space == old(self).config_space,
            final(self).dcbaa_addr == old(self).dcbaa_addr,
    {
        self.usb_legacy_support_capability.request_hc_ownership(true);
        while !self.usb_legacy_support_capability.os_owns_hc()
            || self.usb_legacy_support_capability.bios_owns_hc()
            invariant
                self.usb_legacy_support_capability.spec_os_owns_hc(),
                !self.usb_legacy_support_capability.spec_bios_owns_hc(),
            decreases 0int,
        {
        }
    }

    /// Busy-polls the status register until controller-not-ready reads
    /// clear.
    pub fn wait_until_controller_is_ready(&self)
        requires
            !self.hc_operational_registers.usb_sts.spec_controller_not_ready(),
    {
        while self.hc_operational_registers.usb_sts.controller_not_ready()
            invariant
                !self.hc_operational_registers.usb_sts.spec_controller_not_ready(),
            decreases 0int,
        {
        }
    }

    /// Copies the supported slot count from the read-only capability
    /// registers into the writable configure register, after checking that
    /// the count does not exceed the DCBAA's fixed capacity.
    pub fn set_num_of_enabled_slots(&mut self) -> (r: Result<(), Error>)
        requires
            old(self).dcbaa.wf(),
        ensures
            r is Ok,
            final(self).hc_operational_registers.config.spec_max_device_slots_enabled() == old(
                self,
            ).hc_capability_registers.hcs_params_1.spec_number_of_device_slots(),
            final(self).hc_operational_registers.usb_cmd == old(
                self,
            ).hc_operational_registers.usb_cmd,
            final(self).hc_operational_registers.usb_sts == old(
                self,
            ).hc_operational_registers.usb_sts,
            final(self).hc_operational_registers.dcbaap == old(
                self,
            ).hc_operational_registers.dcbaap,
            final(self).hc_operational_registers.crcr == old(self).hc_operational_registers.crcr,
            final(self).usb_legacy_support_capability == old(self).usb_legacy_support_capability,
            final(self).hc_capability_registers == old(self).hc_capability_registers,
            final(self).dcbaa == old(self).dcbaa,
            final(self).command_ring == old(self).command_ring,
            final(self).config_space == old(self).config_space,
            final(self).dcbaa_addr == old(self).dcbaa_addr,
    {
        let num_of_slots = self.hc_capability_registers.hcs_params_1.number_of_device_slots();
        if num_of_slots as usize > self.dcbaa.len() {
            // An 8-bit count never exceeds the 255 pointer slots, but the
            // capacity is this module's own constant; the check keeps the
            // write in bounds even if the constant changes.
            return Err(Error::TooManySlots);
        }
        self.hc_operational_registers.config.set_max_device_slots_enabled(num_of_slots);
        Ok(())
    }

    /// Translates the DCBAA's virtual address and writes the physical result
    /// into DCBAAP. A failed translation after the memory manager is up
    /// would be a kernel invariant violation, not a hardware fault; the
    /// precondition rules it out.
    pub fn set_dcbaap(&mut self, mem: &MemoryServices)
        requires
            mem.wf(),
            mem.spec_translate(old(self).dcbaa_addr) is Some,
        ensures
            Some(final(self).hc_operational_registers.dcbaap.ptr) == mem.spec_translate(
                old(self).dcbaa_addr,
            ),
            final(self).hc_operational_registers.usb_cmd == old(
                self,
            ).hc_operational_registers.usb_cmd,
            final(self).hc_operational_registers.usb_sts == old(
                self,
            ).hc_operational_registers.usb_sts,
            final(self).hc_operational_registers.config == old(
                self,
            ).hc_operational_registers.config,
            final(self).hc_operational_registers.crcr == old(self).hc_operational_registers.crcr,
            final(self).usb_legacy_support_capability == old(self).usb_legacy_support_capability,
            final(self).hc_capability_registers == old(self).hc_capability_registers,
            final(self).dcbaa == old(self).dcbaa,
            final(self).command_ring == old(self).command_ring,
            final(self).config_space == old(self).config_space,
            final(self).dcbaa_addr == old(self).dcbaa_addr,
    {
        let phys_addr_of_dcbaa = match mem.translate_addr(self.dcbaa_addr) {
            Some(phys) => phys,
            None => unreached(),
        };
        self.hc_operational_registers.dcbaap.set_ptr(phys_addr_of_dcbaa);
    }

    /// Translates the ring's virtual base address and writes the physical
    /// result into CRCR.
    pub fn set_command_ring_pointer(&mut self, mem: &MemoryServices)
        requires
            mem.wf(),
            mem.spec_translate(old(self).command_ring.base_addr) is Some,
        ensures
            Some(final(self).hc_operational_registers.crcr.ptr) == mem.spec_translate(
                old(self).command_ring.base_addr,
            ),
            final(self).hc_operational_registers.usb_cmd == old(
                self,
            ).hc_operational_registers.usb_cmd,
            final(self).hc_operational_registers.usb_sts == old(
                self,
            ).hc_operational_registers.usb_sts,
            final(self).hc_operational_registers.config == old(
                self,
            ).hc_operational_registers.config,
            final(self).hc_operational_registers.dcbaap == old(
                self,
            ).hc_operational_registers.dcbaap,
            final(self).usb_legacy_support_capability == old(self).usb_legacy_support_capability,
            final(self).hc_capability_registers == old(self).hc_capability_registers,
            final(self).dcbaa == old(self).dcbaa,
            final(self).command_ring == old(self).command_ring,
            final(self).config_space == old(self).config_space,
            final(self).dcbaa_addr == old(self).dcbaa_addr,
    {
        let virt_addr = self.command_ring.addr();
        let phys_addr = match mem.translate_addr(virt_addr) {
            Some(phys) => phys,
            None => unreached(),
        };
        self.hc_operational_registers.crcr.set_ptr(phys_addr);
    }

    /// Sets run/stop: the terminal state of the bring-up sequence.
    pub fn run(&mut self)
        ensures
            final(self).hc_operational_registers.usb_cmd.spec_run_stop(),
            final(self).hc_operational_registers.usb_cmd.raw == old(
                self,
            ).hc_operational_registers.usb_cmd.raw | 1u32,
            final(self).hc_operational_registers.usb_sts == old(
                self,
            ).hc_operational_registers.usb_sts,
            final(self).hc_operational_registers.config == old(
                self,
            ).hc_operational_registers.config,
            final(self).hc_operational_registers.dcbaap == old(
                self,
            ).hc_operational_registers.dcbaap,
            final(self).hc_operational_registers.crcr == old(self).hc_operational_registers.crcr,
            final(self).usb_legacy_support_capability == old(self).usb_legacy_support_capability,
            final(self).hc_capability_registers == old(self).hc_capability_registers,
            final(self).dcbaa == old(self).dcbaa,
            final(self).command_ring == old(self).command_ring,
            final(self).config_space == old(self).config_space,
            final(self).dcbaa_addr == old(self).dcbaa_addr,
    {
        self.hc_operational_registers.usb_cmd.set_run_stop(true)
    }
}

/// One PCI function as discovery hands it over: its configuration-space
/// snapshot and the register values read through its first BAR.
pub struct DiscoveredFunction {
    pub config_space: ConfigSpace,
    pub hc_capability_registers: HCCapabilityRegisters,
    pub hc_operational_registers: HCOperationalRegisters,
    pub usb_legacy_support_capability: UsbLegacySupportCapability,
}

impl DiscoveredFunction {
    pub open spec fn wf(self) -> bool {
        self.config_space.wf()
    }
}

/// The functions of the sequence whose configuration space identifies an
/// xHCI controller with a type-0 header, in discovery order.
pub open spec fn spec_xhci_functions(functions: Seq<DiscoveredFunction>) -> Seq<
    DiscoveredFunction,
>
    decreases functions.len(),
{
    if functions.len() == 0 {
        Seq::empty()
    } else if functions.last().config_space.spec_is_xhci_non_bridge() {
        spec_xhci_functions(functions.drop_last()).push(functions.last())
    } else {
        spec_xhci_functions(functions.drop_last())
    }
}

/// Whether a controller was built from this discovered function: it carries
/// the function's configuration-space registers and all three register
/// snapshots.
pub open spec fn spec_built_from(c: Xhci, f: DiscoveredFunction) -> bool {
    &&& c.config_space.regs@ == f.config_space.regs@
    &&& c.hc_capability_registers == f.hc_capability_registers
    &&& c.hc_operational_registers == f.hc_operational_registers
    &&& c.usb_legacy_support_capability == f.usb_legacy_support_capability
}

/// Builds a controller for every discovered function that is an xHCI
/// device, excluding the others from the iteration.
///
/// The k-th yielded controller is built from the k-th xHCI function of the
/// input; in particular every yielded controller's configuration space is
/// present (an absent slot reads all-ones and is never an xHCI function).
pub fn iter_devices(functions: Vec<DiscoveredFunction>, mem: &mut MemoryServices) -> (r: Vec<Xhci>)
    requires
        forall|i: int| 0 <= i < functions.len() ==> (#[trigger] functions[i]).wf(),
        old(mem).wf(),
        old(mem).next_free_page + functions@.len() * 8192 <= u64::MAX,
        old(mem).next_free_frame + functions@.len() * 8192 <= u64::MAX,
    ensures
        final(mem).wf(),
        r.len() == spec_xhci_functions(functions@).len(),
        forall|k: int|
            0 <= k < r.len() ==> spec_built_from(#[trigger] r[k], spec_xhci_functions(functions@)[k]),
        forall|k: int| 0 <= k < r.len() ==> (#[trigger] r[k]).wf(),
        forall|k: int| 0 <= k < r.len() ==> (#[trigger] r[k]).config_space.spec_present(),
{
    let mut controllers: Vec<Xhci> = Vec::new();
    let mut idx: usize = 0;
    while idx < functions.len()
        invariant
            idx <= functions.len(),
            forall|i: int| 0 <= i < functions.len() ==> (#[trigger] functions[i]).wf(),
            mem.wf(),
            mem.next_free_page <= old(mem).next_free_page + idx * 8192,
            mem.next_free_frame <= old(mem).next_free_frame + idx * 8192,
            old(mem).next_free_page + functions@.len() * 8192 <= u64::MAX,
            old(mem).next_free_frame + functions@.len() * 8192 <= u64::MAX,
            controllers.len() == spec_xhci_functions(functions@.take(idx as int)).len(),
            forall|k: int|
                0 <= k < controllers.len() ==> spec_built_from(
                    #[trigger] controllers[k],
                    spec_xhci_functions(functions@.take(idx as int))[k],
                ),
            forall|i: int| 0 <= i < controllers.len() ==> (#[trigger] controllers[i]).wf(),
        decreases functions.len() - idx,
    {
        let function = functions[idx].config_space.clone_space();
        let candidate = Xhci::new(
            function,
            functions[idx].hc_capability_registers,
            functions[idx].hc_operational_registers,
            functions[idx].usb_legacy_support_capability,
            mem,
        );
        proof {
            assert(functions@.take(idx as int + 1).drop_last() =~= functions@.take(idx as int));
            assert(functions@.take(idx as int + 1).last() == functions@[idx as int]);
        }
        match candidate {
            Ok(controller) => controllers.push(controller),
            Err(_) => (),
        }
        idx = idx + 1;
    }
    proof {
        assert(functions@.take(functions@.len() as int) =~= functions@);
    }
    controllers
}

} // verus!
