//! The capability list: a singly-linked chain of optional feature records in
//! a function's configuration space.
//!
//! Each record's DWORD holds the capability id in bits 7:0 and the offset of
//! the next record in bits 15:8 (0 ends the list). Only the list head at
//! offset 0x34 carries a mask: its two low bits are reserved and read as
//! zero. A record's next pointer is taken whole; since every record lives at
//! a DWORD-aligned offset, a nonzero next pointer with a low bit set cannot
//! be followed and is reported as a parsing error.
//!
//! A conforming list is also acyclic, but the walker does not trust the
//! hardware: a repeated offset is reported as a parsing error instead of
//! looping.

use vstd::prelude::*;

verus! {

use crate::pci::ConfigSpace;

/// One record of a function's capability list.
#[derive(Clone, Copy, PartialEq, Eq, Structural, Debug)]
pub struct CapabilityRecord {
    pub id: u8,
    /// Offset of the next record; 0 ends the list.
    pub next_offset: u8,
    /// Offset of this record in configuration space.
    pub base_offset: u16,
}

/// Failure of the capability-list walk.
#[derive(Clone, Copy, PartialEq, Eq, Structural, Debug)]
pub enum ParseError {
    /// The next-pointer chain visited an offset twice before reaching 0.
    CyclicPointerChain,
    /// A nonzero next pointer with a low bit set: it names no DWORD-aligned
    /// record and cannot be followed.
    MisalignedPointer,
}

/// Capability id stored at a record's base offset.
pub open spec fn spec_cap_id(space: ConfigSpace, base: int) -> u8 {
    (space.spec_read(base) & 0xFF) as u8
}

/// Next-record offset stored at a record's base offset: bits 15:8 of the
/// record's DWORD, taken whole.
pub open spec fn spec_cap_next(space: ConfigSpace, base: int) -> u8 {
    ((space.spec_read(base) >> 8) & 0xFF) as u8
}

/// The records of a well-formed walk of `space`'s capability list: the chain
/// starts at the list head, each record sits at a DWORD-aligned offset and
/// is decoded from it, the records link each other, the last one links to
/// 0, and no offset repeats. A chain whose next pointers lead to a
/// misaligned offset is not well formed: no record can sit there.
pub open spec fn wf_chain(space: ConfigSpace, recs: Seq<CapabilityRecord>) -> bool {
    &&& (space.spec_capability_ptr() == 0 ==> recs.len() == 0)
    &&& (space.spec_capability_ptr() != 0 ==> recs.len() > 0 && recs[0].base_offset
        == space.spec_capability_ptr())
    &&& (forall|i: int|
        0 <= i < recs.len() ==> {
            &&& 0 < #[trigger] recs[i].base_offset < 256
            &&& recs[i].base_offset % 4 == 0
            &&& recs[i].id == spec_cap_id(space, recs[i].base_offset as int)
            &&& recs[i].next_offset == spec_cap_next(space, recs[i].base_offset as int)
        })
    &&& (forall|i: int|
        0 <= i < recs.len() - 1 ==> #[trigger] recs[i + 1].base_offset == recs[
            i
        ].next_offset)
    &&& (recs.len() > 0 ==> recs[recs.len() - 1].next_offset == 0)
    &&& (forall|i: int, j: int|
        0 <= i < j < recs.len() ==> #[trigger] recs[i].base_offset != #[trigger] recs[
            j
        ].base_offset)
}

/// Number of true entries in a seen-set.
spec fn count_trues(s: Seq<bool>) -> int
    decreases s.len(),
{
    if s.len() == 0 {
        0
    } else {
        count_trues(s.drop_last()) + if s.last() {
            1int
        } else {
            0int
        }
    }
}

proof fn lemma_count_trues_le_len(s: Seq<bool>)
    ensures
        count_trues(s) <= s.len(),
    decreases s.len(),
{
    if s.len() > 0 {
        lemma_count_trues_le_len(s.drop_last());
    }
}

proof fn lemma_count_trues_update(s: Seq<bool>, i: int)
    requires
        0 <= i < s.len(),
        !s[i],
    ensures
        count_trues(s.update(i, true)) == count_trues(s) + 1,
    decreases s.len(),
{
    if i == s.len() - 1 {
        assert(s.update(i, true).drop_last() =~= s.drop_last());
        assert(s.update(i, true).last());
    } else {
        assert(s.update(i, true).drop_last() =~= s.drop_last().update(i, true));
        assert(s.update(i, true).last() == s.last());
        lemma_count_trues_update(s.drop_last(), i);
    }
}

/// A well-formed chain is determined record by record: any chain meeting
/// `wf_chain` agrees with any decoded, linked, head-anchored prefix, index
/// for index.
proof fn lemma_chain_prefix(
    space: ConfigSpace,
    full: Seq<CapabilityRecord>,
    partial: Seq<CapabilityRecord>,
    k: int,
)
    requires
        wf_chain(space, full),
        0 < partial.len(),
        space.spec_capability_ptr() != 0,
        partial[0].base_offset == space.spec_capability_ptr(),
        forall|i: int|
            0 <= i < partial.len() ==> {
                &&& 0 < #[trigger] partial[i].base_offset < 256
                &&& partial[i].id == spec_cap_id(space, partial[i].base_offset as int)
                &&& partial[i].next_offset == spec_cap_next(space, partial[i].base_offset as int)
            },
        forall|i: int|
            0 <= i < partial.len() - 1 ==> #[trigger] partial[i + 1].base_offset == partial[
                i
            ].next_offset,
        0 <= k < partial.len(),
    ensures
        k < full.len(),
        full[k] == partial[k],
    decreases k,
{
    if k == 0 {
        assert(full[0].base_offset == partial[0].base_offset);
    } else {
        lemma_chain_prefix(space, full, partial, k - 1);
        // The previous record links to a nonzero offset, so the full chain
        // cannot have ended there.
        assert(partial[(k - 1) + 1].base_offset == partial[k - 1].next_offset);
        assert(full[k - 1].next_offset != 0);
        if k == full.len() {
            assert(full[full.len() - 1].next_offset == 0);
            assert(false);
        }
        assert(full[(k - 1) + 1].base_offset == full[k - 1].next_offset);
    }
}

/// A configuration space holds at most one well-formed capability chain:
/// the head pointer and the next pointers determine every record.
pub proof fn lemma_wf_chain_unique(space: ConfigSpace, a: Seq<CapabilityRecord>, b: Seq<
    CapabilityRecord,
>)
    requires
        wf_chain(space, a),
        wf_chain(space, b),
    ensures
        a == b,
{
    if space.spec_capability_ptr() == 0 {
        assert(a =~= b);
    } else {
        lemma_chain_prefix(space, b, a, a.len() - 1);
        lemma_chain_prefix(space, a, b, b.len() - 1);
        assert(a.len() == b.len());
        assert forall|k: int| 0 <= k < a.len() implies a[k] == b[k] by {
            lemma_chain_prefix(space, b, a, k);
        }
        assert(a =~= b);
    }
}

/// Follows the capability list of one populated function.
///
/// The walk starts at the head pointer (offset 0x34), decodes the id and
/// next pointer of each record, and stops at a next pointer of 0. A repeated
/// offset means the hardware handed out a cyclic chain; the walk then stops
/// with a parsing error rather than trusting it. It succeeds exactly when a
/// well-formed (acyclic, nil-terminated, aligned) chain exists in the
/// space, and then returns that chain; a nonzero next pointer with a low
/// bit set names no DWORD-aligned record and is itself a parsing error.
pub fn walk_capabilities(space: &ConfigSpace) -> (r: Result<
    Vec<CapabilityRecord>,
    ParseError,
>)
    requires
        space.wf(),
        space.spec_present(),
    ensures
        (r matches Ok(recs) ==> wf_chain(*space, recs@)),
        r is Ok <==> (exists|recs: Seq<CapabilityRecord>| wf_chain(*space, recs)),
        (r matches Err(e) ==> e == ParseError::CyclicPointerChain || e
            == ParseError::MisalignedPointer),
{
    let head = space.capability_ptr();
    if head == 0 {
        let empty: Vec<CapabilityRecord> = Vec::new();
        proof {
            assert(wf_chain(*space, empty@));
        }
        return Ok(empty);
    }
    let mut seen: Vec<bool> = Vec::new();
    while seen.len() < 256
        invariant
            seen.len() <= 256,
            forall|k: int| 0 <= k < seen.len() ==> !seen[k],
        decreases 256 - seen.len(),
    {
        seen.push(false);
    }
    proof {
        assert(count_trues(seen@) == 0) by {
            lemma_count_trues_all_false(seen@);
        }
    }
    let mut recs: Vec<CapabilityRecord> = Vec::new();
    let mut next: u8 = head;
    let mut visited: usize = 0;
    while next != 0
        invariant
            space.wf(),
            space.spec_present(),
            head == space.spec_capability_ptr(),
            head != 0,
            seen.len() == 256,
            next % 4 == 0,
            visited == count_trues(seen@),
            visited <= 256,
            recs.len() == 0 ==> next == head,
            recs.len() > 0 ==> recs[recs.len() - 1].next_offset == next,
            forall|i: int|
                0 <= i < recs.len() ==> {
                    &&& 0 < #[trigger] recs[i].base_offset < 256
                    &&& recs[i].base_offset % 4 == 0
                    &&& recs[i].id == spec_cap_id(*space, recs[i].base_offset as int)
                    &&& recs[i].next_offset == spec_cap_next(*space, recs[i].base_offset as int)
                },
            forall|i: int|
                0 <= i < recs.len() - 1 ==> #[trigger] recs[i + 1].base_offset == recs[
                    i
                ].next_offset,
            recs.len() > 0 ==> recs[0].base_offset == head,
            forall|i: int| 0 <= i < recs.len() ==> seen[#[trigger] recs[i].base_offset as int],
            forall|x: int|
                0 <= x < 256 && seen[x] ==> exists|j: int|
                    0 <= j < recs.len() && (#[trigger] recs[j]).base_offset == x,
            forall|i: int, j: int|
                0 <= i < j < recs.len() ==> #[trigger] recs[i].base_offset
                    != #[trigger] recs[j].base_offset,
        decreases 256 - visited,
    {
        let base = next;
        if seen[base as usize] {
            proof {
                let ghost partial = recs@;
                let ghost tail = base;
                assert forall|full: Seq<CapabilityRecord>| !wf_chain(*space, full) by {
                    if wf_chain(*space, full) {
                        // The repeated offset is already some record's base.
                        let j = choose|j: int|
                            0 <= j < partial.len() && partial[j].base_offset == tail as int;
                        // A repeat needs an earlier visit, so the walked
                        // prefix is nonempty; `full` agrees with it record
                        // for record and must continue past it to the
                        // repeated offset, breaking its own distinctness.
                        if partial.len() == 0 {
                            assert(false);
                        } else {
                            let last = partial.len() - 1;
                            lemma_chain_prefix(*space, full, partial, j);
                            lemma_chain_prefix(*space, full, partial, last);
                            assert(full[last].next_offset == tail as u16);
                            if last == full.len() - 1 {
                                assert(full[full.len() - 1].next_offset == 0);
                                assert(false);
                            }
                            assert(full[last + 1].base_offset == full[last].next_offset);
                            assert(full[j].base_offset == tail as u16);
                            assert(false);
                        }
                    }
                }
            }
            return Err(ParseError::CyclicPointerChain);
        }
        proof {
            lemma_count_trues_update(seen@, base as int);
            lemma_count_trues_le_len(seen@.update(base as int, true));
        }
        seen.set(base as usize, true);
        let dword = space.read_u32(base);
        let id = (dword & 0xFF) as u8;
        let nxt = ((dword >> 8) & 0xFF) as u8;
        let ghost prior = recs@;
        recs.push(CapabilityRecord { id, next_offset: nxt, base_offset: base as u16 });
        proof {
            assert forall|x: int| 0 <= x < 256 && seen[x] implies exists|j: int|
                0 <= j < recs.len() && (#[trigger] recs[j]).base_offset == x by {
                if x == base as int {
                    assert(recs[recs.len() - 1].base_offset == x);
                } else {
                    let j = choose|j: int| 0 <= j < prior.len() && (#[trigger] prior[j]).base_offset
                        == x;
                    assert(recs[j].base_offset == x);
                }
            }
        }
        if nxt != 0 && nxt % 4 != 0 {
            proof {
                let partial = recs@;
                assert forall|full: Seq<CapabilityRecord>| !wf_chain(*space, full) by {
                    if wf_chain(*space, full) {
                        // `full` agrees with the walked prefix record for
                        // record and must continue past it to the misaligned
                        // offset, where no record can sit.
                        let last = partial.len() - 1;
                        lemma_chain_prefix(*space, full, partial, last);
                        assert(full[last].next_offset == nxt);
                        if last == full.len() - 1 {
                            assert(full[full.len() - 1].next_offset == 0);
                            assert(false);
                        }
                        assert(full[last + 1].base_offset == full[last].next_offset);
                        assert(full[last + 1].base_offset % 4 == 0);
                        assert(false);
                    }
                }
            }
            return Err(ParseError::MisalignedPointer);
        }
        next = nxt;
        visited = visited + 1;
    }
    proof {
        assert(wf_chain(*space, recs@));
    }
    Ok(recs)
}

proof fn lemma_count_trues_all_false(s: Seq<bool>)
    requires
        forall|k: int| 0 <= k < s.len() ==> !s[k],
    ensures
        count_trues(s) == 0,
    decreases s.len(),
{
    if s.len() > 0 {
        lemma_count_trues_all_false(s.drop_last());
    }
}

} // verus!
