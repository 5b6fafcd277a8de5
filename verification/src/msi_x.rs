//! MSI-X capability records: table location, table size, and the per-entry
//! interrupt-remapping table.
//!
//! One record occupies three DWORDs at fixed offsets from its capability
//! base: Message Control (+0x00, table size minus one in bits 26:16), Table
//! Offset/BIR (+0x04) and PBA Offset/BIR (+0x08). In each offset/BIR DWORD
//! the BAR index lives in bits 2:0 and the byte offset in bits 31:3, so a
//! decoded offset is always 8-byte aligned. This parser only exposes the
//! table; programming individual vectors is a later subsystem's work.

use vstd::prelude::*;

verus! {

use crate::capability::{walk_capabilities, CapabilityRecord, ParseError};
use crate::pci::ConfigSpace;

/// Capability id of an MSI-X record.
pub const MSI_X_CAPABILITY_ID: u8 = 0x11;

/// Largest table size the 11-bit table-size field can encode, plus one.
pub const MAX_TABLE_SIZE: u16 = 2048;

/// Failure of MSI-X capability parsing or table indexing.
#[derive(Clone, Copy, PartialEq, Eq, Structural, Debug)]
pub enum MsiXError {
    /// An offset/BIR DWORD named BAR 6 or 7, which no function has.
    InvalidBir,
    /// A record lies too close to the end of configuration space for its
    /// three DWORDs.
    MalformedCapability,
    /// The capability list's next-pointer chain visited an offset twice.
    CyclicPointerChain,
    /// A capability record's next pointer names no DWORD-aligned offset.
    MisalignedPointer,
    /// A table index at or beyond the table size.
    IndexOutOfRange,
}

/// Message-address DWORD pair of one table element: destination id in bits
/// 19:12, redirection hint in bit 3, destination mode in bit 2.
#[derive(Clone, Copy, PartialEq, Eq, Structural, Debug)]
pub struct MessageAddress {
    pub raw: u64,
}

impl MessageAddress {
    pub open spec fn spec_destination_id(self) -> u32 {
        ((self.raw >> 12) & 0xFF) as u32
    }

    pub open spec fn spec_redirection_hint(self) -> bool {
        (self.raw >> 3) & 1 == 1
    }

    pub open spec fn spec_destination_mode(self) -> bool {
        (self.raw >> 2) & 1 == 1
    }

    pub fn destination_id(&self) -> (r: u32)
        ensures
            r == self.spec_destination_id(),
    {
        ((self.raw >> 12) & 0xFF) as u32
    }

    pub fn redirection_hint(&self) -> (r: bool)
        ensures
            r == self.spec_redirection_hint(),
    {
        (self.raw >> 3) & 1 == 1
    }

    pub fn destination_mode(&self) -> (r: bool)
        ensures
            r == self.spec_destination_mode(),
    {
        (self.raw >> 2) & 1 == 1
    }

    /// Writes bits 19:12; every other bit keeps its value, so decoding the
    /// field afterwards returns exactly what was written.
    pub fn set_destination_id(&mut self, id: u32)
        requires
            id < 0x100,
        ensures
            final(self).raw == (old(self).raw & !0xF_F000u64) | ((id as u64) << 12),
            final(self).spec_destination_id() == id,
            final(self).spec_redirection_hint() == old(self).spec_redirection_hint(),
            final(self).spec_destination_mode() == old(self).spec_destination_mode(),
    {
        let prior = self.raw;
        self.raw = (prior & !0xF_F000u64) | ((id as u64) << 12);
        proof {
            let r = (prior & !0xF_F000u64) | ((id as u64) << 12);
            assert(((r >> 12) & 0xFF) as u32 == id && ((r >> 3) & 1) == ((prior >> 3) & 1) && ((r
                >> 2) & 1) == ((prior >> 2) & 1)) by (bit_vector)
                requires
                    id < 0x100,
                    r == (prior & !0xF_F000u64) | ((id as u64) << 12),
            ;
        }
    }

    pub fn set_redirection_hint(&mut self, on: bool)
        ensures
            final(self).raw == if on {
                old(self).raw | 0x8u64
            } else {
                old(self).raw & !0x8u64
            },
            final(self).spec_redirection_hint() == on,
            final(self).spec_destination_id() == old(self).spec_destination_id(),
            final(self).spec_destination_mode() == old(self).spec_destination_mode(),
    {
        let prior = self.raw;
        self.raw = if on {
            prior | 0x8u64
        } else {
            prior & !0x8u64
        };
        proof {
            let s = prior | 0x8u64;
            let c = prior & !0x8u64;
            assert(((s >> 3) & 1 == 1) && !((c >> 3) & 1 == 1) && ((s >> 12) & 0xFF) == ((prior
                >> 12) & 0xFF) && ((c >> 12) & 0xFF) == ((prior >> 12) & 0xFF) && ((s >> 2) & 1) == (
            (prior >> 2) & 1) && ((c >> 2) & 1) == ((prior >> 2) & 1)) by (bit_vector)
                requires
                    s == prior | 0x8u64,
                    c == prior & !0x8u64,
            ;
        }
    }
}

/// Message-data DWORD of one table element: trigger mode in bit 15, level in
/// bit 14, delivery mode in bits 10:8, vector in bits 7:0.
#[derive(Clone, Copy, PartialEq, Eq, Structural, Debug)]
pub struct MessageData {
    pub raw: u32,
}

impl MessageData {
    pub open spec fn spec_trigger_mode(self) -> bool {
        (self.raw >> 15) & 1 == 1
    }

    pub open spec fn spec_level(self) -> bool {
        (self.raw >> 14) & 1 == 1
    }

    pub open spec fn spec_delivery_mode(self) -> u32 {
        (self.raw >> 8) & 0x7
    }

    pub open spec fn spec_vector(self) -> u32 {
        self.raw & 0xFF
    }

    pub fn trigger_mode(&self) -> (r: bool)
        ensures
            r == self.spec_trigger_mode(),
    {
        (self.raw >> 15) & 1 == 1
    }

    pub fn level(&self) -> (r: bool)
        ensures
            r == self.spec_level(),
    {
        (self.raw >> 14) & 1 == 1
    }

    pub fn delivery_mode(&self) -> (r: u32)
        ensures
            r == self.spec_delivery_mode(),
    {
        (self.raw >> 8) & 0x7
    }

    pub fn vector(&self) -> (r: u32)
        ensures
            r == self.spec_vector(),
    {
        self.raw & 0xFF
    }

    pub fn set_trigger_mode(&mut self, on: bool)
        ensures
            final(self).raw == if on {
                old(self).raw | 0x8000u32
            } else {
                old(self).raw & !0x8000u32
            },
            final(self).spec_trigger_mode() == on,
            final(self).spec_level() == old(self).spec_level(),
            final(self).spec_delivery_mode() == old(self).spec_delivery_mode(),
            final(self).spec_vector() == old(self).spec_vector(),
    {
        let prior = self.raw;
        self.raw = if on {
            prior | 0x8000u32
        } else {
            prior & !0x8000u32
        };
        proof {
            let s = prior | 0x8000u32;
            let c = prior & !0x8000u32;
            assert(((s >> 15) & 1 == 1) && !((c >> 15) & 1 == 1) && ((s >> 14) & 1) == ((prior
                >> 14) & 1) && ((c >> 14) & 1) == ((prior >> 14) & 1) && ((s >> 8) & 0x7) == ((prior
                >> 8) & 0x7) && ((c >> 8) & 0x7) == ((prior >> 8) & 0x7) && (s & 0xFF) == (prior
                & 0xFF) && (c & 0xFF) == (prior & 0xFF)) by (bit_vector)
                requires
                    s == prior | 0x8000u32,
                    c == prior & !0x8000u32,
            ;
        }
    }

    pub fn set_level(&mut self, on: bool)
        ensures
            final(self).raw == if on {
                old(self).raw | 0x4000u32
            } else {
                old(self).raw & !0x4000u32
            },
            final(self).spec_level() == on,
            final(self).spec_trigger_mode() == old(self).spec_trigger_mode(),
            final(self).spec_delivery_mode() == old(self).spec_delivery_mode(),
            final(self).spec_vector() == old(self).spec_vector(),
    {
        let prior = self.raw;
        self.raw = if on {
            prior | 0x4000u32
        } else {
            prior & !0x4000u32
        };
        proof {
            let s = prior | 0x4000u32;
            let c = prior & !0x4000u32;
            assert(((s >> 14) & 1 == 1) && !((c >> 14) & 1 == 1) && ((s >> 15) & 1) == ((prior
                >> 15) & 1) && ((c >> 15) & 1) == ((prior >> 15) & 1) && ((s >> 8) & 0x7) == ((prior
                >> 8) & 0x7) && ((c >> 8) & 0x7) == ((prior >> 8) & 0x7) && (s & 0xFF) == (prior
                & 0xFF) && (c & 0xFF) == (prior & 0xFF)) by (bit_vector)
                requires
                    s == prior | 0x4000u32,
                    c == prior & !0x4000u32,
            ;
        }
    }

    pub fn set_delivery_mode(&mut self, mode: u32)
        requires
            mode < 8,
        ensures
            final(self).raw == (old(self).raw & !0x700u32) | (mode << 8),
            final(self).spec_delivery_mode() == mode,
            final(self).spec_trigger_mode() == old(self).spec_trigger_mode(),
            final(self).spec_level() == old(self).spec_level(),
            final(self).spec_vector() == old(self).spec_vector(),
    {
        let prior = self.raw;
        self.raw = (prior & !0x700u32) | (mode << 8);
        proof {
            let r = (prior & !0x700u32) | (mode << 8);
            assert(((r >> 8) & 0x7) == mode && ((r >> 15) & 1) == ((prior >> 15) & 1) && ((r >> 14)
                & 1) == ((prior >> 14) & 1) && (r & 0xFF) == (prior & 0xFF)) by (bit_vector)
                requires
                    mode < 8,
                    r == (prior & !0x700u32) | (mode << 8),
            ;
        }
    }

    pub fn set_vector(&mut self, vector: u32)
        requires
            vector < 0x100,
        ensures
            final(self).raw == (old(self).raw & !0xFFu32) | vector,
            final(self).spec_vector() == vector,
            final(self).spec_trigger_mode() == old(self).spec_trigger_mode(),
            final(self).spec_level() == old(self).spec_level(),
            final(self).spec_delivery_mode() == old(self).spec_delivery_mode(),
    {
        let prior = self.raw;
        self.raw = (prior & !0xFFu32) | vector;
        proof {
            let r = (prior & !0xFFu32) | vector;
            assert((r & 0xFF) == vector && ((r >> 15) & 1) == ((prior >> 15) & 1) && ((r >> 14) & 1)
                == ((prior >> 14) & 1) && ((r >> 8) & 0x7) == ((prior >> 8) & 0x7)) by (bit_vector)
                requires
                    vector < 0x100,
                    r == (prior & !0xFFu32) | vector,
            ;
        }
    }
}

/// Vector-control DWORD of one table element; the mask bit lives in bit 0.
#[derive(Clone, Copy, PartialEq, Eq, Structural, Debug)]
pub struct VectorControl {
    pub raw: u32,
}

impl VectorControl {
    pub open spec fn spec_masked(self) -> bool {
        self.raw & 1 == 1
    }

    pub fn masked(&self) -> (r: bool)
        ensures
            r == self.spec_masked(),
    {
        self.raw & 1 == 1
    }

    pub fn set_masked(&mut self, on: bool)
        ensures
            final(self).raw == if on {
                old(self).raw | 1u32
            } else {
                old(self).raw & !1u32
            },
            final(self).spec_masked() == on,
    {
        let prior = self.raw;
        self.raw = if on {
            prior | 1u32
        } else {
            prior & !1u32
        };
        proof {
            assert(((prior | 1u32) & 1 == 1) && !((prior & !1u32) & 1 == 1)) by (bit_vector);
        }
    }
}

/// One 16-byte entry of the interrupt-remapping table.
#[derive(Clone, Copy, PartialEq, Eq, Structural, Debug)]
pub struct Element {
    pub message_address: MessageAddress,
    pub message_data: MessageData,
    pub vector_control: VectorControl,
}

impl Element {
    /// Whether every register of the entry is zero.
    pub open spec fn spec_is_zeroed(self) -> bool {
        &&& self.message_address.raw == 0
        &&& self.message_data.raw == 0
        &&& self.vector_control.raw == 0
    }

    /// An entry with every register zeroed.
    pub fn zeroed() -> (r: Element)
        ensures
            r.spec_is_zeroed(),
    {
        Element {
            message_address: MessageAddress { raw: 0 },
            message_data: MessageData { raw: 0 },
            vector_control: VectorControl { raw: 0 },
        }
    }
}

/// The interrupt-remapping table of one MSI-X capability: `table_size`
/// contiguous elements, addressed by index.
pub struct Table {
    pub elements: Vec<Element>,
}

impl Table {
    pub fn new(elements: Vec<Element>) -> (r: Table)
        ensures
            r.elements == elements,
    {
        Table { elements }
    }

    /// Number of addressable elements.
    pub fn len(&self) -> (r: usize)
        ensures
            r == self.elements.len(),
    {
        self.elements.len()
    }

    /// The element at `index`; exactly the indices below the table size are
    /// addressable.
    pub fn element(&self, index: usize) -> (r: Result<&Element, MsiXError>)
        ensures
            index < self.elements.len() <==> (r matches Ok(e) && *e == self.elements[index as int]),
            index >= self.elements.len() <==> (r matches Err(e) && e == MsiXError::IndexOutOfRange),
    {
        if index < self.elements.len() {
            Ok(&self.elements[index])
        } else {
            Err(MsiXError::IndexOutOfRange)
        }
    }

    /// Replaces the element at `index`; exactly the indices below the table
    /// size are addressable.
    pub fn set_element(&mut self, index: usize, element: Element) -> (r: Result<(), MsiXError>)
        ensures
            index < old(self).elements.len() <==> (r matches Ok(u) && final(self).elements@
                == old(self).elements@.update(index as int, element)),
            index >= old(self).elements.len() <==> (r matches Err(e) && e
                == MsiXError::IndexOutOfRange && *final(self) == *old(self)),
    {
        if index < self.elements.len() {
            self.elements.set(index, element);
            Ok(())
        } else {
            Err(MsiXError::IndexOutOfRange)
        }
    }
}

/// One decoded MSI-X capability record, owning its remapping table.
pub struct MsiXDescriptor {
    /// BAR index holding the table; always below 6.
    pub bir: u8,
    /// Byte offset of the table inside that BAR; always 8-byte aligned.
    pub table_byte_offset: u64,
    /// Number of table entries: the 11-bit field plus one, so 1 to 2048.
    pub table_size: u16,
    /// BAR index holding the pending-bit array; always below 6.
    pub pba_bir: u8,
    /// Byte offset of the pending-bit array; always 8-byte aligned.
    pub pba_byte_offset: u64,
    pub table: Table,
}

impl MsiXDescriptor {
    pub open spec fn wf(self) -> bool {
        &&& self.bir < 6
        &&& self.table_byte_offset % 8 == 0
        &&& 1 <= self.table_size <= MAX_TABLE_SIZE
        &&& self.pba_bir < 6
        &&& self.pba_byte_offset % 8 == 0
        &&& self.table.elements.len() == self.table_size
    }

    /// Whether this descriptor is the decode of the three given DWORDs,
    /// with a fresh zeroed table of the decoded size.
    pub open spec fn spec_decodes(
        self,
        control: u32,
        table_dword: u32,
        pba_dword: u32,
    ) -> bool {
        &&& self.wf()
        &&& self.bir == table_dword & 0x7
        &&& self.table_byte_offset == (table_dword & 0xFFFF_FFF8) as u64
        &&& self.table_size == decode_table_size(control)
        &&& self.pba_bir == pba_dword & 0x7
        &&& self.pba_byte_offset == (pba_dword & 0xFFFF_FFF8) as u64
        &&& forall|i: int|
            0 <= i < self.table.elements.len() ==> (#[trigger] self.table.elements[i]).spec_is_zeroed()
    }

    /// Decodes a record from its three DWORDs, allocating a zeroed table of
    /// the decoded size. Succeeds exactly when both offset/BIR DWORDs name
    /// one of the six BARs.
    pub fn from_dwords(control: u32, table_dword: u32, pba_dword: u32) -> (r: Result<
        MsiXDescriptor,
        MsiXError,
    >)
        ensures
            (r matches Ok(d) ==> d.spec_decodes(control, table_dword, pba_dword)),
            (r matches Err(e) ==> e == MsiXError::InvalidBir),
            (r is Ok <==> (table_dword & 0x7) < 6 && (pba_dword & 0x7) < 6),
    {
        let (bir, table_byte_offset) = decode_offset_bir(table_dword)?;
        let (pba_bir, pba_byte_offset) = decode_offset_bir(pba_dword)?;
        let table_size = table_size(control);
        let mut elements: Vec<Element> = Vec::new();
        while elements.len() < table_size as usize
            invariant
                forall|i: int| 0 <= i < elements.len() ==> (#[trigger] elements[i]).spec_is_zeroed(),
                elements.len() <= table_size,
            decreases table_size - elements.len(),
        {
            elements.push(Element::zeroed());
        }
        Ok(
            MsiXDescriptor {
                bir,
                table_byte_offset,
                table_size,
                pba_bir,
                pba_byte_offset,
                table: Table::new(elements),
            },
        )
    }

    /// Decodes the record at `base` of the configuration space. Succeeds
    /// exactly when both offset/BIR DWORDs name one of the six BARs.
    pub fn new(space: &ConfigSpace, base: u8) -> (r: Result<MsiXDescriptor, MsiXError>)
        requires
            space.wf(),
            space.spec_present(),
            base % 4 == 0,
            base + 8 < 256,
        ensures
            (r matches Ok(d) ==> d.spec_decodes(
                space.spec_read(base as int),
                space.spec_read(base as int + 4),
                space.spec_read(base as int + 8),
            )),
            (r matches Err(e) ==> e == MsiXError::InvalidBir),
            (r is Ok <==> (space.spec_read(base as int + 4) & 0x7) < 6 && (space.spec_read(
                base as int + 8,
            ) & 0x7) < 6),
    {
        let control = space.read_u32(base);
        let table_dword = space.read_u32(base + 4);
        let pba_dword = space.read_u32(base + 8);
        MsiXDescriptor::from_dwords(control, table_dword, pba_dword)
    }
}

/// Table size encoded in a Message-Control DWORD: bits 26:16 hold the size
/// minus one.
pub open spec fn decode_table_size(control: u32) -> u16 {
    (((control >> 16) & 0x7FF) + 1) as u16
}

/// Decodes the table size from a Message-Control DWORD; the result is always
/// 1 to 2048.
pub fn table_size(control: u32) -> (r: u16)
    ensures
        r == decode_table_size(control),
        1 <= r <= MAX_TABLE_SIZE,
{
    proof {
        assert(((control >> 16) & 0x7FF) < 0x800) by (bit_vector);
    }
    (((control >> 16) & 0x7FF) + 1) as u16
}

/// Splits an offset/BIR DWORD into the BAR index (bits 2:0) and the byte
/// offset (bits 31:3, so the offset's low three bits are always zero).
/// BAR indices 6 and 7 name no BAR and are rejected.
pub fn decode_offset_bir(dword: u32) -> (r: Result<(u8, u64), MsiXError>)
    ensures
        (dword & 0x7) < 6 <==> (r matches Ok(p) && p.0 == (dword & 0x7) && p.0 < 6 && p.1 == (
        dword & 0xFFFF_FFF8) as u64 && p.1 % 8 == 0),
        (dword & 0x7) >= 6 <==> (r matches Err(e) && e == MsiXError::InvalidBir),
{
    let bir = (dword & 0x7) as u8;
    if bir >= 6 {
        return Err(MsiXError::InvalidBir);
    }
    let offset = (dword & 0xFFFF_FFF8) as u64;
    proof {
        assert((dword & 0x7) < 8 && (dword & 0xFFFF_FFF8) % 8 == 0) by (bit_vector);
    }
    Ok((bir, offset))
}

/// The MSI-X records of a capability chain, in chain order.
pub open spec fn spec_msi_x_records(recs: Seq<CapabilityRecord>) -> Seq<CapabilityRecord>
    decreases recs.len(),
{
    if recs.len() == 0 {
        Seq::empty()
    } else if recs.last().id == MSI_X_CAPABILITY_ID {
        spec_msi_x_records(recs.drop_last()).push(recs.last())
    } else {
        spec_msi_x_records(recs.drop_last())
    }
}

/// Whether every MSI-X record of a chain can be decoded: its three DWORDs
/// lie inside the 256-byte space, and both its offset/BIR DWORDs name one
/// of the six BARs.
pub open spec fn spec_msi_x_records_ok(space: ConfigSpace, recs: Seq<CapabilityRecord>) -> bool {
    forall|i: int|
        0 <= i < recs.len() && (#[trigger] recs[i]).id == MSI_X_CAPABILITY_ID ==> {
            &&& recs[i].base_offset + 8 < 256
            &&& (space.spec_read(recs[i].base_offset as int + 4) & 0x7) < 6
            &&& (space.spec_read(recs[i].base_offset as int + 8) & 0x7) < 6
        }
}

/// Whether descriptor `d` is the decode of the three DWORDs at `rec`'s base.
pub open spec fn spec_descriptor_of(
    space: ConfigSpace,
    rec: CapabilityRecord,
    d: MsiXDescriptor,
) -> bool {
    d.spec_decodes(
        space.spec_read(rec.base_offset as int),
        space.spec_read(rec.base_offset as int + 4),
        space.spec_read(rec.base_offset as int + 8),
    )
}

/// The MSI-X capability records of one function, in list order.
pub struct MsiX {
    pub descriptors: Vec<MsiXDescriptor>,
}

impl MsiX {
    /// Walks the function's capability list and decodes every MSI-X record
    /// found there, one descriptor per record, in chain order.
    ///
    /// The walk fails exactly on a cyclic or misaligned list. With a
    /// well-formed chain — unique by `lemma_wf_chain_unique` — parsing
    /// succeeds exactly when every MSI-X record of that chain can be
    /// decoded, and then the k-th descriptor is the decode of the chain's
    /// k-th MSI-X record.
    pub fn new(space: &ConfigSpace) -> (r: Result<MsiX, MsiXError>)
        requires
            space.wf(),
            space.spec_present(),
        ensures
            (r matches Err(e) && (e == MsiXError::CyclicPointerChain || e
                == MsiXError::MisalignedPointer)) <==> !(exists|recs: Seq<CapabilityRecord>|
                crate::capability::wf_chain(*space, recs)),
            forall|recs: Seq<CapabilityRecord>|
                #[trigger] crate::capability::wf_chain(*space, recs) ==> {
                    &&& (r is Ok <==> spec_msi_x_records_ok(*space, recs))
                    &&& (r matches Ok(m) ==> m.descriptors.len() == spec_msi_x_records(recs).len()
                        && (forall|k: int|
                        0 <= k < m.descriptors.len() ==> spec_descriptor_of(
                            *space,
                            spec_msi_x_records(recs)[k],
                            #[trigger] m.descriptors[k],
                        )))
                },
    {
        let records = match walk_capabilities(space) {
            Ok(records) => records,
            Err(ParseError::CyclicPointerChain) => {
                return Err(MsiXError::CyclicPointerChain);
            },
            Err(ParseError::MisalignedPointer) => {
                return Err(MsiXError::MisalignedPointer);
            },
        };
        let mut descriptors: Vec<MsiXDescriptor> = Vec::new();
        let mut idx: usize = 0;
        while idx < records.len()
            invariant
                space.wf(),
                space.spec_present(),
                crate::capability::wf_chain(*space, records@),
                idx <= records.len(),
                spec_msi_x_records_ok(*space, records@.take(idx as int)),
                descriptors.len() == spec_msi_x_records(records@.take(idx as int)).len(),
                forall|k: int|
                    0 <= k < descriptors.len() ==> spec_descriptor_of(
                        *space,
                        spec_msi_x_records(records@.take(idx as int))[k],
                        #[trigger] descriptors[k],
                    ),
            decreases records.len() - idx,
        {
            let record = records[idx];
            proof {
                assert(records@.take(idx as int + 1).drop_last() =~= records@.take(idx as int));
                assert(records@.take(idx as int + 1).last() == records@[idx as int]);
            }
            if record.id == MSI_X_CAPABILITY_ID {
                if record.base_offset + 8 >= 256 {
                    proof {
                        lemma_chain_is_unique(*space, records@);
                        assert(!spec_msi_x_records_ok(*space, records@)) by {
                            assert(records@[idx as int].id == MSI_X_CAPABILITY_ID);
                            assert(!(records@[idx as int].base_offset + 8 < 256));
                        }
                    }
                    return Err(MsiXError::MalformedCapability);
                }
                let descriptor = match MsiXDescriptor::new(space, record.base_offset as u8) {
                    Ok(descriptor) => descriptor,
                    Err(e) => {
                        proof {
                            lemma_chain_is_unique(*space, records@);
                            assert(!spec_msi_x_records_ok(*space, records@)) by {
                                assert(records@[idx as int].id == MSI_X_CAPABILITY_ID);
                            }
                        }
                        return Err(e);
                    },
                };
                descriptors.push(descriptor);
                proof {
                    assert(spec_msi_x_records(records@.take(idx as int + 1))
                        =~= spec_msi_x_records(records@.take(idx as int)).push(
                        records@[idx as int],
                    ));
                }
            }
            idx = idx + 1;
        }
        proof {
            assert(records@.take(records@.len() as int) =~= records@);
            lemma_chain_is_unique(*space, records@);
        }
        Ok(MsiX { descriptors })
    }
}

/// Every well-formed chain of the space is this one.
proof fn lemma_chain_is_unique(space: ConfigSpace, chain: Seq<CapabilityRecord>)
    requires
        crate::capability::wf_chain(space, chain),
    ensures
        forall|recs: Seq<CapabilityRecord>|
            #[trigger] crate::capability::wf_chain(space, recs) ==> recs == chain,
{
    assert forall|recs: Seq<CapabilityRecord>|
        #[trigger] crate::capability::wf_chain(space, recs) implies recs == chain by {
        crate::capability::lemma_wf_chain_unique(space, recs, chain);
    }
}

} // verus!
