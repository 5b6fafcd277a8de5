use ramen::capability::{walk_capabilities, ParseError};
use ramen::dcbaa::MAX_DEVICE_SLOT;
use ramen::memory::MemoryServices;
use ramen::msi_x::{decode_offset_bir, table_size, Element, MsiX, MsiXDescriptor, MsiXError};
use ramen::pci::{ConfigAddress, ConfigSpace, CONFIG_SPACE_DWORDS};
use ramen::registers::{
    ConfigureRegister, CrcrRegister, DcbaapRegister, HCCapabilityRegisters,
    HCOperationalRegisters, StructuralParameters1, UsbCommandRegister, UsbLegacySupportCapability,
    UsbStatusRegister,
};
use ramen::ring::{RingQueue, NUM_OF_TRB_IN_QUEUE, Trb, TRB_TYPE_LINK};
use ramen::xhci::{iter_devices, DiscoveredFunction, Error, Xhci};

const XHCI_CLASS_DWORD: u32 = 0x0C03_3001;

fn empty_regs() -> Vec<u32> {
    vec![0u32; CONFIG_SPACE_DWORDS]
}

fn xhci_space() -> ConfigSpace {
    let mut regs = empty_regs();
    regs[0] = 0x1234_8086;
    regs[2] = XHCI_CLASS_DWORD;
    regs[3] = 0x0000_0000;
    ConfigSpace::new(regs)
}

fn mock_operational() -> HCOperationalRegisters {
    HCOperationalRegisters {
        usb_cmd: UsbCommandRegister { raw: 0 },
        usb_sts: UsbStatusRegister { raw: 0 },
        config: ConfigureRegister { raw: 0 },
        dcbaap: DcbaapRegister { ptr: 0 },
        crcr: CrcrRegister { ptr: 0 },
    }
}

fn mock_capability(slots: u32) -> HCCapabilityRegisters {
    HCCapabilityRegisters {
        cap_length: 0x20,
        hcs_params_1: StructuralParameters1 { raw: slots },
        runtime_register_space_offset: 0x1000,
    }
}

fn relinquished_legacy() -> UsbLegacySupportCapability {
    UsbLegacySupportCapability { usb_leg_sup: 0 }
}

#[test]
fn config_address_encoding() {
    let addr = ConfigAddress::new(1, 2, 3, 0x34);
    assert_eq!(
        addr.as_u32(),
        0x8000_0000 | (1 << 16) | (2 << 11) | (3 << 8) | 0x34
    );
}

#[test]
fn absent_device_fields_never_trusted() {
    // An all-ones vendor/device DWORD means an unpopulated slot; even with
    // xHCI class codes in the snapshot the function is rejected.
    let mut regs = empty_regs();
    regs[0] = 0xFFFF_FFFF;
    regs[2] = XHCI_CLASS_DWORD;
    let space = ConfigSpace::new(regs);
    assert!(!space.is_present());
    assert!(!space.is_xhci());
    let mut mem = MemoryServices::new(0x10_0000, 0x20_0000);
    let r = Xhci::new(
        space,
        mock_capability(32),
        mock_operational(),
        relinquished_legacy(),
        &mut mem,
    );
    assert!(matches!(r, Err(Error::NotXhciDevice)));
}

#[test]
fn capability_walk_reaches_list_end() {
    let mut regs = empty_regs();
    regs[0] = 0x1234_8086;
    regs[1] = 0x0010_0000; // status reports a capability list
    regs[0x34 / 4] = 0x40;
    regs[0x40 / 4] = 0x5001; // id 1, next 0x50
    regs[0x50 / 4] = 0x0011; // id 0x11, list end
    let space = ConfigSpace::new(regs);
    let recs = walk_capabilities(&space).unwrap();
    assert_eq!(recs.len(), 2);
    assert_eq!(recs[0].base_offset, 0x40);
    assert_eq!(recs[0].id, 1);
    assert_eq!(recs[0].next_offset, 0x50);
    assert_eq!(recs[1].base_offset, 0x50);
    assert_eq!(recs[1].id, 0x11);
    assert_eq!(recs[1].next_offset, 0);
}

#[test]
fn cyclic_capability_list_is_a_parse_error() {
    // A deliberately cyclic next-pointer chain: 0x40 -> 0x50 -> 0x40.
    let mut regs = empty_regs();
    regs[0] = 0x1234_8086;
    regs[0x34 / 4] = 0x40;
    regs[0x40 / 4] = 0x5001;
    regs[0x50 / 4] = 0x4002;
    let space = ConfigSpace::new(regs);
    assert_eq!(
        walk_capabilities(&space),
        Err(ParseError::CyclicPointerChain)
    );
}

#[test]
fn self_cycle_is_a_parse_error() {
    let mut regs = empty_regs();
    regs[0] = 0x1234_8086;
    regs[0x34 / 4] = 0x40;
    regs[0x40 / 4] = 0x4001; // points at itself
    let space = ConfigSpace::new(regs);
    assert_eq!(
        walk_capabilities(&space),
        Err(ParseError::CyclicPointerChain)
    );
}

#[test]
fn offset_bir_decode_masks_low_bits() {
    // BIR in bits 2:0, byte offset in bits 31:3.
    let (bir, offset) = decode_offset_bir(0x1234_5673).unwrap();
    assert_eq!(bir, 3);
    assert_eq!(offset, 0x1234_5670);
    assert_eq!(offset % 8, 0);
    assert!(bir < 6);
    assert_eq!(decode_offset_bir(0x0000_0006), Err(MsiXError::InvalidBir));
    assert_eq!(decode_offset_bir(0xFFFF_FFFF), Err(MsiXError::InvalidBir));
}

#[test]
fn table_size_seven_decodes_to_eight_elements() {
    // Message control encodes table size minus one in bits 26:16.
    let control = 7u32 << 16;
    assert_eq!(table_size(control), 8);

    let mut regs = empty_regs();
    regs[0] = 0x1234_8086;
    regs[0x40 / 4] = (7 << 16) | 0x0011; // MSI-X capability, size-1 = 7
    regs[0x44 / 4] = 0x0000_2003; // table in BAR 3 at offset 0x2000
    regs[0x48 / 4] = 0x0000_3004; // PBA in BAR 4 at offset 0x3000
    let space = ConfigSpace::new(regs);
    let descriptor = MsiXDescriptor::new(&space, 0x40).unwrap();
    assert_eq!(descriptor.table_size, 8);
    assert_eq!(descriptor.bir, 3);
    assert_eq!(descriptor.table_byte_offset, 0x2000);
    assert_eq!(descriptor.pba_bir, 4);
    assert_eq!(descriptor.pba_byte_offset, 0x3000);
    assert_eq!(descriptor.table.len(), 8);
    assert!(descriptor.table.element(7).is_ok());
    assert_eq!(
        descriptor.table.element(8).unwrap_err(),
        MsiXError::IndexOutOfRange
    );
}

#[test]
fn msi_x_walk_collects_only_msi_x_records() {
    let mut regs = empty_regs();
    regs[0] = 0x1234_8086;
    regs[0x34 / 4] = 0x40;
    regs[0x40 / 4] = 0x5005; // some other capability
    regs[0x50 / 4] = 0x0011; // MSI-X, list end
    regs[0x54 / 4] = 0x0000_1002;
    regs[0x58 / 4] = 0x0000_8001;
    let space = ConfigSpace::new(regs);
    let msi_x = MsiX::new(&space).unwrap();
    assert_eq!(msi_x.descriptors.len(), 1);
    assert_eq!(msi_x.descriptors[0].bir, 2);
    assert_eq!(msi_x.descriptors[0].table_byte_offset, 0x1000);
    assert_eq!(msi_x.descriptors[0].table_size, 1);
}

#[test]
fn message_address_round_trip() {
    let mut address = ramen::msi_x::MessageAddress { raw: 0xFEE0_0000 };
    address.set_destination_id(0xAB);
    assert_eq!(address.destination_id(), 0xAB);
    address.set_redirection_hint(true);
    assert!(address.redirection_hint());
    assert_eq!(address.destination_id(), 0xAB);
    address.set_redirection_hint(false);
    assert!(!address.redirection_hint());
}

#[test]
fn message_data_round_trip() {
    let mut data = ramen::msi_x::MessageData { raw: 0 };
    data.set_vector(0x41);
    data.set_delivery_mode(5);
    data.set_trigger_mode(true);
    data.set_level(true);
    assert_eq!(data.vector(), 0x41);
    assert_eq!(data.delivery_mode(), 5);
    assert!(data.trigger_mode());
    assert!(data.level());
    data.set_trigger_mode(false);
    assert!(!data.trigger_mode());
    assert_eq!(data.vector(), 0x41);
}

#[test]
fn vector_control_mask_bit() {
    let mut control = ramen::msi_x::VectorControl { raw: 0 };
    assert!(!control.masked());
    control.set_masked(true);
    assert!(control.masked());
    control.set_masked(false);
    assert!(!control.masked());
}

#[test]
fn element_is_sixteen_bytes_of_registers() {
    let element = Element::zeroed();
    assert_eq!(element.message_address.raw, 0);
    assert_eq!(element.message_data.raw, 0);
    assert_eq!(element.vector_control.raw, 0);
}

#[test]
fn xhci_class_codes_accepted_mass_storage_rejected() {
    let mut mem = MemoryServices::new(0x10_0000, 0x20_0000);
    let r = Xhci::new(
        xhci_space(),
        mock_capability(32),
        mock_operational(),
        relinquished_legacy(),
        &mut mem,
    );
    assert!(r.is_ok());

    let mut regs = empty_regs();
    regs[0] = 0x1234_8086;
    regs[2] = 0x0100_0001; // mass storage
    let storage = ConfigSpace::new(regs);
    let r = Xhci::new(
        storage,
        mock_capability(32),
        mock_operational(),
        relinquished_legacy(),
        &mut mem,
    );
    assert!(matches!(r, Err(Error::NotXhciDevice)));
}

#[test]
fn bridge_header_rejected() {
    let mut regs = empty_regs();
    regs[0] = 0x1234_8086;
    regs[2] = XHCI_CLASS_DWORD;
    regs[3] = 0x0001_0000; // header type 1: a bridge
    let space = ConfigSpace::new(regs);
    let mut mem = MemoryServices::new(0x10_0000, 0x20_0000);
    let r = Xhci::new(
        space,
        mock_capability(32),
        mock_operational(),
        relinquished_legacy(),
        &mut mem,
    );
    assert!(matches!(r, Err(Error::NotXhciDevice)));
}

#[test]
fn bring_up_enables_reported_slot_count() {
    let mut mem = MemoryServices::new(0x10_0000, 0x20_0000);
    let mut controller = Xhci::new(
        xhci_space(),
        mock_capability(32),
        mock_operational(),
        relinquished_legacy(),
        &mut mem,
    )
    .unwrap();
    controller.init(&mem).unwrap();
    assert_eq!(
        controller.hc_operational_registers.config.max_device_slots_enabled(),
        32
    );
}

#[test]
fn full_bring_up_programs_pointers_and_runs() {
    let mut mem = MemoryServices::new(0x10_0000, 0x20_0000);
    let mut controller = Xhci::new(
        xhci_space(),
        mock_capability(8),
        mock_operational(),
        relinquished_legacy(),
        &mut mem,
    )
    .unwrap();
    controller.init(&mem).unwrap();

    assert!(controller.hc_operational_registers.usb_cmd.run_stop());
    assert!(controller.usb_legacy_support_capability.os_owns_hc());
    assert!(!controller.usb_legacy_support_capability.bios_owns_hc());

    // The stub translator maps pages from 0x10_0000 to frames from 0x20_0000.
    let dcbaa_phys = mem.translate_addr(controller.dcbaa_addr).unwrap();
    let ring_phys = mem.translate_addr(controller.command_ring.addr()).unwrap();
    assert_eq!(controller.hc_operational_registers.dcbaap.ptr, dcbaa_phys);
    assert_eq!(controller.hc_operational_registers.crcr.ptr, ring_phys);
    assert_eq!(dcbaa_phys, 0x20_0000);
    assert_eq!(ring_phys, 0x20_1000);
}

#[test]
fn dcbaa_has_fixed_zeroed_capacity() {
    let dcbaa = ramen::dcbaa::DeviceContextBaseAddressArray::new();
    assert_eq!(dcbaa.len(), MAX_DEVICE_SLOT);
    assert_eq!(dcbaa.len(), 255);
    for i in 0..dcbaa.len() {
        assert_eq!(dcbaa.entries[i], 0);
    }
}

#[test]
fn ring_queue_is_one_page_of_256_slots() {
    let mut mem = MemoryServices::new(0x10_0000, 0x20_0000);
    let ring = RingQueue::new(&mut mem);
    assert_eq!(ring.bytes(), 4096);
    assert_eq!(ring.len(), NUM_OF_TRB_IN_QUEUE);
    assert_eq!(ring.len(), 256);
    for i in 0..ring.len() {
        assert_eq!(ring.trbs[i], Trb::zeroed());
    }
}

#[test]
fn ring_enqueue_stamps_cycle_bit() {
    let mut mem = MemoryServices::new(0x10_0000, 0x20_0000);
    let mut ring = RingQueue::new(&mut mem);
    let trb = Trb { parameter: 0xDEAD_0000, status: 7, control: 0x0400 };
    ring.enqueue(trb);
    assert_eq!(ring.enqueue_index, 1);
    assert!(ring.cycle_bit);
    assert_eq!(ring.trbs[0].parameter, 0xDEAD_0000);
    assert_eq!(ring.trbs[0].status, 7);
    assert_eq!(ring.trbs[0].control, 0x0401); // cycle bit forced on
}

#[test]
fn ring_wraps_with_link_trb_and_flips_cycle() {
    let mut mem = MemoryServices::new(0x10_0000, 0x20_0000);
    let mut ring = RingQueue::new(&mut mem);
    let base = ring.addr();
    for _ in 0..255 {
        ring.enqueue(Trb { parameter: 1, status: 0, control: 0 });
    }
    // The 255th descriptor filled the slot before the link slot: the link
    // TRB points back to the base with the toggle-cycle flag, and the
    // producer's cycle state flipped.
    assert_eq!(ring.enqueue_index, 0);
    assert!(!ring.cycle_bit);
    let link = ring.trbs[255];
    assert_eq!(link.parameter, base);
    assert_eq!((link.control >> 10) & 0x3F, TRB_TYPE_LINK);
    assert_eq!(link.control & 0x2, 0x2); // toggle cycle
    assert_eq!(link.control & 0x1, 0x1); // carried the old cycle state
}

#[test]
fn translator_answers_only_mapped_addresses() {
    let mut mem = MemoryServices::new(0x40_0000, 0x80_0000);
    assert_eq!(mem.translate_addr(0x40_0000), None);
    let page = mem.search_first_unused_page().unwrap();
    let frame = mem.allocate_frame().unwrap();
    assert_eq!(page, 0x40_0000);
    assert_eq!(frame, 0x80_0000);
    mem.map_to(page, frame);
    assert_eq!(mem.translate_addr(0x40_0000), Some(0x80_0000));
    assert_eq!(mem.translate_addr(0x40_0123), Some(0x80_0123));
    assert_eq!(mem.translate_addr(0x40_1000), None);
}

#[test]
fn iter_devices_keeps_only_xhci_functions() {
    let mut storage_regs = empty_regs();
    storage_regs[0] = 0x1234_8086;
    storage_regs[2] = 0x0100_0001;
    let mut absent_regs = empty_regs();
    absent_regs[0] = 0xFFFF_FFFF;
    let functions = vec![
        DiscoveredFunction {
            config_space: xhci_space(),
            hc_capability_registers: mock_capability(16),
            hc_operational_registers: mock_operational(),
            usb_legacy_support_capability: relinquished_legacy(),
        },
        DiscoveredFunction {
            config_space: ConfigSpace::new(storage_regs),
            hc_capability_registers: mock_capability(16),
            hc_operational_registers: mock_operational(),
            usb_legacy_support_capability: relinquished_legacy(),
        },
        DiscoveredFunction {
            config_space: ConfigSpace::new(absent_regs),
            hc_capability_registers: mock_capability(16),
            hc_operational_registers: mock_operational(),
            usb_legacy_support_capability: relinquished_legacy(),
        },
    ];
    let mut mem = MemoryServices::new(0x10_0000, 0x20_0000);
    let controllers = iter_devices(functions, &mut mem);
    assert_eq!(controllers.len(), 1);
}

#[test]
fn no_capability_list_yields_empty_walk() {
    let mut regs = empty_regs();
    regs[0] = 0x1234_8086; // present, head pointer zero
    let space = ConfigSpace::new(regs);
    assert_eq!(walk_capabilities(&space).unwrap().len(), 0);
    assert_eq!(MsiX::new(&space).unwrap().descriptors.len(), 0);
}

#[test]
fn msi_x_walk_reports_cycle() {
    let mut regs = empty_regs();
    regs[0] = 0x1234_8086;
    regs[0x34 / 4] = 0x40;
    regs[0x40 / 4] = 0x4011;
    let space = ConfigSpace::new(regs);
    assert!(matches!(MsiX::new(&space), Err(MsiXError::CyclicPointerChain)));
}

#[test]
fn msi_x_record_at_end_of_space_is_malformed() {
    let mut regs = empty_regs();
    regs[0] = 0x1234_8086;
    regs[0x34 / 4] = 0xF8;
    regs[0xF8 / 4] = 0x0011; // MSI-X record whose three DWORDs run past 0xFF
    let space = ConfigSpace::new(regs);
    assert!(matches!(MsiX::new(&space), Err(MsiXError::MalformedCapability)));
}

#[test]
fn table_size_field_tops_out_at_2048() {
    assert_eq!(table_size(0x7FF << 16), 2048);
    assert_eq!(table_size(0), 1);
    // Bits outside 26:16 do not contribute.
    assert_eq!(table_size(0xF800_FFFF), 1);
}

#[test]
fn msi_x_descriptors_follow_chain_order() {
    let mut regs = empty_regs();
    regs[0] = 0x1234_8086;
    regs[0x34 / 4] = 0x40;
    regs[0x40 / 4] = (3 << 16) | 0x5011; // MSI-X, size-1 = 3, next 0x50
    regs[0x44 / 4] = 0x0000_1000; // table in BAR 0 at 0x1000
    regs[0x48 / 4] = 0x0000_2001; // PBA in BAR 1 at 0x2000
    regs[0x50 / 4] = 0x6005; // other capability, next 0x60
    regs[0x60 / 4] = (1 << 16) | 0x0011; // MSI-X, size-1 = 1, list end
    regs[0x64 / 4] = 0x0000_3002; // table in BAR 2 at 0x3000
    regs[0x68 / 4] = 0x0000_4003; // PBA in BAR 3 at 0x4000
    let space = ConfigSpace::new(regs);
    let msi_x = MsiX::new(&space).unwrap();
    assert_eq!(msi_x.descriptors.len(), 2);
    assert_eq!(msi_x.descriptors[0].table_size, 4);
    assert_eq!(msi_x.descriptors[0].bir, 0);
    assert_eq!(msi_x.descriptors[0].table_byte_offset, 0x1000);
    assert_eq!(msi_x.descriptors[1].table_size, 2);
    assert_eq!(msi_x.descriptors[1].bir, 2);
    assert_eq!(msi_x.descriptors[1].table_byte_offset, 0x3000);
}

#[test]
fn msi_x_invalid_bir_rejects_the_whole_parse() {
    let mut regs = empty_regs();
    regs[0] = 0x1234_8086;
    regs[0x34 / 4] = 0x40;
    regs[0x40 / 4] = 0x0011; // MSI-X, list end
    regs[0x44 / 4] = 0x0000_1007; // BIR 7: no such BAR
    regs[0x48 / 4] = 0x0000_2001;
    let space = ConfigSpace::new(regs);
    assert!(matches!(MsiX::new(&space), Err(MsiXError::InvalidBir)));
}

#[test]
fn descriptor_decode_from_raw_dwords() {
    let d = MsiXDescriptor::from_dwords(5 << 16, 0x0000_2003, 0x0000_3004).unwrap();
    assert_eq!(d.table_size, 6);
    assert_eq!(d.bir, 3);
    assert_eq!(d.table_byte_offset, 0x2000);
    assert_eq!(d.pba_bir, 4);
    assert_eq!(d.pba_byte_offset, 0x3000);
    assert!(matches!(
        MsiXDescriptor::from_dwords(0, 0x0000_2006, 0),
        Err(MsiXError::InvalidBir)
    ));
}

#[test]
fn misaligned_next_pointer_is_a_parse_error() {
    // Next-pointer byte 3: bits 15:8 are taken whole, and no record can sit
    // at a non-DWORD-aligned offset.
    let mut regs = empty_regs();
    regs[0] = 0x1234_8086;
    regs[0x34 / 4] = 0x40;
    regs[0x40 / 4] = 0x0000_0301;
    let space = ConfigSpace::new(regs);
    assert_eq!(
        walk_capabilities(&space),
        Err(ParseError::MisalignedPointer)
    );

    let mut regs = empty_regs();
    regs[0] = 0x1234_8086;
    regs[0x34 / 4] = 0x40;
    regs[0x40 / 4] = 0x0000_4201; // next-pointer byte 0x42
    let space = ConfigSpace::new(regs);
    assert_eq!(
        walk_capabilities(&space),
        Err(ParseError::MisalignedPointer)
    );
}

#[test]
fn msi_x_walk_reports_misaligned_pointer() {
    let mut regs = empty_regs();
    regs[0] = 0x1234_8086;
    regs[0x34 / 4] = 0x40;
    regs[0x40 / 4] = 0x0000_0211; // MSI-X record whose next pointer is 2
    let space = ConfigSpace::new(regs);
    assert!(matches!(MsiX::new(&space), Err(MsiXError::MisalignedPointer)));
}
