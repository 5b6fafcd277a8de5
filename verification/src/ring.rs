//! The command ring: one physical page reinterpreted as a fixed sequence of
//! transfer request blocks (TRBs), with the hardware-mandated producer
//! protocol.
//!
//! The ring claims one virtual page and one physical frame from the memory
//! collaborators, maps them, and zeroes the page. The producer writes a
//! descriptor at a moving enqueue index with the current cycle-bit state;
//! when the last slot is reached it instead plants a link TRB back to the
//! base (with the toggle-cycle flag) and flips its cycle state.

use vstd::prelude::*;

verus! {

use crate::memory::MemoryServices;

/// Slots in the ring: one page divided into 16-byte descriptors.
pub const NUM_OF_TRB_IN_QUEUE: usize = 256;

/// Bytes of one descriptor: a 64-bit parameter and two 32-bit words.
pub const TRB_BYTES: usize = 16;

/// TRB-type field value of a link TRB.
pub const TRB_TYPE_LINK: u32 = 6;

/// One transfer request block: the fixed-size record the controller reads
/// from the ring. The cycle bit is control bit 0, the toggle-cycle flag is
/// control bit 1, and the TRB type sits in control bits 15:10.
#[derive(Clone, Copy, PartialEq, Eq, Structural, Debug)]
pub struct Trb {
    pub parameter: u64,
    pub status: u32,
    pub control: u32,
}

impl Trb {
    pub open spec fn spec_cycle_bit(self) -> bool {
        self.control & 1 == 1
    }

    pub open spec fn spec_trb_type(self) -> u32 {
        (self.control >> 10) & 0x3F
    }

    pub fn zeroed() -> (r: Trb)
        ensures
            r == (Trb { parameter: 0, status: 0, control: 0 }),
    {
        Trb { parameter: 0, status: 0, control: 0 }
    }
}

/// `trb` with its cycle bit forced to `cycle`; all other bits keep their
/// values.
pub open spec fn spec_with_cycle(trb: Trb, cycle: bool) -> Trb {
    Trb {
        control: if cycle {
            trb.control | 1u32
        } else {
            trb.control & !1u32
        },
        ..trb
    }
}

/// The link TRB planted in the last slot: it points back to the ring base,
/// carries the toggle-cycle flag (bit 1), and owns the producer's current
/// cycle state.
pub open spec fn spec_link_trb(base_addr: u64, cycle: bool) -> Trb {
    Trb {
        parameter: base_addr,
        status: 0,
        control: if cycle {
            (TRB_TYPE_LINK << 10) | 3u32
        } else {
            (TRB_TYPE_LINK << 10) | 2u32
        },
    }
}

/// A fixed-capacity circular descriptor queue backed by exactly one page,
/// with exclusive write access to it for the controller's lifetime.
pub struct RingQueue {
    pub trbs: Vec<Trb>,
    /// Slot the next descriptor goes to; the last slot is reserved for the
    /// link TRB.
    pub enqueue_index: usize,
    /// Producer cycle state, flipped at each wraparound.
    pub cycle_bit: bool,
    /// Virtual base address of the backing page.
    pub base_addr: u64,
}

impl RingQueue {
    pub open spec fn wf(self) -> bool {
        &&& self.trbs.len() == NUM_OF_TRB_IN_QUEUE
        &&& self.enqueue_index < NUM_OF_TRB_IN_QUEUE - 1
        &&& self.base_addr % 4096 == 0
    }

    /// Claims the first unused page and a fresh frame, maps the page, zeroes
    /// it, and exposes it as an empty ring of `NUM_OF_TRB_IN_QUEUE` slots.
    ///
    /// An exhausted allocator here would leave the controller without a
    /// command ring, which the kernel treats as unrecoverable; the
    /// preconditions demand the room instead.
    pub fn new(mem: &mut MemoryServices) -> (r: RingQueue)
        requires
            old(mem).wf(),
            old(mem).spec_can_allocate_page(),
            old(mem).spec_can_allocate_frame(),
        ensures
            r.wf(),
            r.trbs.len() == NUM_OF_TRB_IN_QUEUE,
            forall|i: int| 0 <= i < r.trbs.len() ==> r.trbs[i] == (Trb { parameter: 0, status: 0, control: 0 }),
            r.enqueue_index == 0,
            r.cycle_bit == true,
            r.base_addr == old(mem).next_free_page,
            final(mem).wf(),
            final(mem).spec_translate(r.base_addr) == Some(old(mem).next_free_frame),
            forall|addr: u64|
                old(mem).spec_translate(addr) is Some ==> final(mem).spec_translate(addr) == old(
                    mem,
                ).spec_translate(addr),
            final(mem).spec_can_allocate_page() ==> final(mem).next_free_page == old(
                mem,
            ).next_free_page + 4096,
            final(mem).next_free_page == old(mem).next_free_page + 4096,
            final(mem).next_free_frame == old(mem).next_free_frame + 4096,
    {
        let page = match mem.search_first_unused_page() {
            Some(page) => page,
            None => unreached(),
        };
        let frame = match mem.allocate_frame() {
            Some(frame) => frame,
            None => unreached(),
        };
        mem.map_to(page, frame);
        let mut trbs: Vec<Trb> = Vec::new();
        while trbs.len() < NUM_OF_TRB_IN_QUEUE
            invariant
                trbs.len() <= NUM_OF_TRB_IN_QUEUE,
                forall|i: int| 0 <= i < trbs.len() ==> trbs[i] == (Trb { parameter: 0, status: 0, control: 0 }),
            decreases NUM_OF_TRB_IN_QUEUE - trbs.len(),
        {
            trbs.push(Trb::zeroed());
        }
        RingQueue { trbs, enqueue_index: 0, cycle_bit: true, base_addr: page }
    }

    /// Virtual base address of the ring's page, for programming the command
    /// ring pointer after translation.
    pub fn addr(&self) -> (r: u64)
        ensures
            r == self.base_addr,
    {
        self.base_addr
    }

    /// Byte length of the backing buffer: always exactly one page.
    pub fn bytes(&self) -> (r: usize)
        requires
            self.wf(),
        ensures
            r == 4096,
    {
        self.trbs.len() * TRB_BYTES
    }

    /// Number of descriptor slots.
    pub fn len(&self) -> (r: usize)
        ensures
            r == self.trbs.len(),
    {
        self.trbs.len()
    }

    /// Places one descriptor on the ring with the producer's cycle state.
    ///
    /// The descriptor lands in the enqueue slot with its cycle bit forced to
    /// the producer's cycle state. When that fills the slot before the last
    /// one, a link TRB pointing back to the base with the toggle-cycle flag
    /// takes the last slot, the index wraps to the start, and the cycle
    /// state flips.
    pub fn enqueue(&mut self, trb: Trb)
        requires
            old(self).wf(),
        ensures
            final(self).wf(),
            final(self).base_addr == old(self).base_addr,
            old(self).enqueue_index + 1 < NUM_OF_TRB_IN_QUEUE - 1 ==> {
                &&& final(self).trbs@ == old(self).trbs@.update(
                    old(self).enqueue_index as int,
                    spec_with_cycle(trb, old(self).cycle_bit),
                )
                &&& final(self).enqueue_index == old(self).enqueue_index + 1
                &&& final(self).cycle_bit == old(self).cycle_bit
            },
            old(self).enqueue_index + 1 == NUM_OF_TRB_IN_QUEUE - 1 ==> {
                &&& final(self).trbs@ == old(self).trbs@.update(
                    old(self).enqueue_index as int,
                    spec_with_cycle(trb, old(self).cycle_bit),
                ).update(
                    NUM_OF_TRB_IN_QUEUE - 1,
                    spec_link_trb(old(self).base_addr, old(self).cycle_bit),
                )
                &&& final(self).enqueue_index == 0
                &&& final(self).cycle_bit == !old(self).cycle_bit
            },
    {
        let mut slotted = trb;
        slotted.control = if self.cycle_bit {
            slotted.control | 1u32
        } else {
            slotted.control & !1u32
        };
        let index = self.enqueue_index;
        self.trbs.set(index, slotted);
        if index + 1 < NUM_OF_TRB_IN_QUEUE - 1 {
            self.enqueue_index = index + 1;
        } else {
            let link = Trb {
                parameter: self.base_addr,
                status: 0,
                control: if self.cycle_bit {
                    (TRB_TYPE_LINK << 10) | 3u32
                } else {
                    (TRB_TYPE_LINK << 10) | 2u32
                },
            };
            self.trbs.set(NUM_OF_TRB_IN_QUEUE - 1, link);
            self.enqueue_index = 0;
            self.cycle_bit = !self.cycle_bit;
        }
    }
}

} // verus!
