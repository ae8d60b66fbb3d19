//! ACPI table discovery: locating the RSDP by its signature and walking
//! the root table's entry pointers.
//!
//! The firmware areas being searched, and the tables themselves, live in
//! physical memory only the runtime can read; it hands the bytes and the
//! header fields over as plain values. Nothing wires this into the boot
//! path; it is kept for diagnostics.

use vstd::prelude::*;

verus! {

/// The RSDP is aligned this strictly inside its search areas.
pub const RSDP_ALIGN: usize = 0x10;

/// Byte size of an `ACPISDTHeader` in memory.
pub const SDT_HEADER_SIZE: usize = 36;

/// Byte size of one table pointer following the root table's header.
pub const SDT_PTR_SIZE: usize = 4;

/// The signature marking the RSDP: the bytes of `"RSD PTR "`.
pub open spec fn spec_rsdp_signature() -> Seq<u8> {
    seq![0x52u8, 0x53u8, 0x44u8, 0x20u8, 0x50u8, 0x54u8, 0x52u8, 0x20u8]
}

/// Whether the signature sits at byte offset `off` of the region.
pub open spec fn spec_sig_at(region: Seq<u8>, off: int) -> bool {
    &&& 0 <= off
    &&& off + 8 <= region.len()
    &&& region.subrange(off, off + 8) == spec_rsdp_signature()
}

/// The Root System Description Pointer, as its fixed memory layout reads.
#[derive(Clone, Copy, Debug)]
pub struct RSDP {
    pub signature: [u8; 8],
    pub checksum: u8,
    pub oem_id: [u8; 6],
    pub revision: u8,
    /// Physical address of the root system description table.
    pub rsdt_addr: u32,
}

/// The header every system description table starts with.
#[derive(Clone, Copy, Debug)]
pub struct ACPISDTHeader {
    pub signature: [u8; 4],
    pub length: u32,
    pub revision: u8,
    pub checksum: u8,
    pub oem_id: [u8; 6],
    pub oem_table_id: [u8; 8],
    pub oem_revision: u32,
    pub creator_id: u32,
    pub creator_revision: u32,
}

/// Search a firmware area for the RSDP signature, at every 16-byte
/// boundary from the area's start. Returns the first aligned offset
/// where the signature sits.
pub fn find_rsdp_offset(region: &Vec<u8>) -> (r: Option<usize>)
    requires
        region@.len() + RSDP_ALIGN <= usize::MAX,
    ensures
        r matches Some(off) ==> {
            &&& off % RSDP_ALIGN == 0
            &&& spec_sig_at(region@, off as int)
            &&& forall|j: int|
                0 <= j && RSDP_ALIGN * j < off ==> !(#[trigger] spec_sig_at(region@, RSDP_ALIGN * j))
        },
        r is None ==> forall|j: int| j >= 0 ==> !(#[trigger] spec_sig_at(region@, RSDP_ALIGN * j)),
{
    let signature: [u8; 8] = [0x52, 0x53, 0x44, 0x20, 0x50, 0x54, 0x52, 0x20];
    proof {
        assert(signature@ =~= spec_rsdp_signature());
    }
    let mut offset: usize = 0;
    while offset + 8 <= region.len()
        invariant
            region@.len() + RSDP_ALIGN <= usize::MAX,
            offset % RSDP_ALIGN == 0,
            signature@ =~= spec_rsdp_signature(),
            forall|j: int|
                0 <= j && RSDP_ALIGN * j < offset ==> !(#[trigger] spec_sig_at(region@, RSDP_ALIGN * j)),
        decreases region@.len() + RSDP_ALIGN - offset,
    {
        let mut matches_here = true;
        let mut i: usize = 0;
        while i < 8
            invariant
                region@.len() + RSDP_ALIGN <= usize::MAX,
                offset + 8 <= region@.len(),
                i <= 8,
                signature@ =~= spec_rsdp_signature(),
                matches_here <==> (forall|k: int|
                    0 <= k < i ==> region@[offset + k] == signature@[k]),
            decreases 8 - i,
        {
            if region[offset + i] != signature[i] {
                matches_here = false;
            }
            i = i + 1;
        }
        if matches_here {
            proof {
                assert(region@.subrange(offset as int, offset + 8) =~= spec_rsdp_signature());
            }
            return Some(offset);
        }
        proof {
            if spec_sig_at(region@, offset as int) {
                let sub = region@.subrange(offset as int, offset + 8);
                assert(forall|k: int| 0 <= k < 8 ==> region@[offset + k] == sub[k]);
                assert(false);
            }
            assert forall|j: int|
                0 <= j && RSDP_ALIGN * j < offset + RSDP_ALIGN implies !(#[trigger] spec_sig_at(
                region@,
                RSDP_ALIGN * j,
            )) by {
                if RSDP_ALIGN * j < offset {
                } else {
                    assert(RSDP_ALIGN * j == offset) by (nonlinear_arith)
                        requires
                            offset % RSDP_ALIGN == 0,
                            offset <= RSDP_ALIGN * j < offset + RSDP_ALIGN,
                            RSDP_ALIGN == 0x10,
                    ;
                }
            }
        }
        offset = offset + RSDP_ALIGN;
    }
    proof {
        assert forall|j: int| j >= 0 implies !(#[trigger] spec_sig_at(region@, RSDP_ALIGN * j)) by {
            if RSDP_ALIGN * j < offset {
            } else {
                assert(RSDP_ALIGN * j >= offset) by (nonlinear_arith)
                    requires
                        j >= 0,
                        RSDP_ALIGN * j >= offset || RSDP_ALIGN * j < offset,
                        !(RSDP_ALIGN * j < offset),
                ;
                assert(RSDP_ALIGN * j + 8 > region@.len());
            }
        }
    }
    None
}

/// The table handle: where the RSDP sits and where the root table's
/// entry pointers begin.
pub struct ACPI {
    /// Physical address of the RSDP.
    pub rsdp_ptr: usize,
    /// Physical address of the first entry pointer behind the root
    /// table's header.
    pub sdt_ptrs: usize,
    /// How many entry pointers the root table holds.
    pub sdt_cnt: usize,
}

impl ACPI {
    /// A handle is internally consistent when its pointer block does not
    /// run past the address space.
    pub open spec fn wf(self) -> bool {
        self.sdt_ptrs + self.sdt_cnt * SDT_PTR_SIZE <= usize::MAX
    }

    /// Lay out the handle from the RSDP's address and the root table
    /// fields the runtime read at `rsdp.rsdt_addr`: the entry pointers
    /// start right behind the header, and the header's length covers
    /// header plus pointers. Fails on a length too short to hold the
    /// header.
    pub fn load(rsdp_ptr: usize, rsdt_addr: u32, rsdt_length: u32) -> (r: Option<ACPI>)
        requires
            rsdt_addr + rsdt_length <= usize::MAX,
        ensures
            (r is Some) <==> rsdt_length >= SDT_HEADER_SIZE,
            r matches Some(acpi) ==> {
                &&& acpi.rsdp_ptr == rsdp_ptr
                &&& acpi.sdt_ptrs == rsdt_addr + SDT_HEADER_SIZE
                &&& acpi.sdt_cnt == (rsdt_length - SDT_HEADER_SIZE) / (SDT_PTR_SIZE as int)
                &&& acpi.wf()
            },
    {
        if rsdt_length < SDT_HEADER_SIZE as u32 {
            return None;
        }
        let sdt_cnt = ((rsdt_length as usize) - SDT_HEADER_SIZE) / SDT_PTR_SIZE;
        Some(ACPI {
            rsdp_ptr,
            sdt_ptrs: rsdt_addr as usize + SDT_HEADER_SIZE,
            sdt_cnt,
        })
    }

    /// Walk the root table's entry pointers.
    pub fn iter(&self) -> (r: SDTIterator<'_>)
        requires
            self.wf(),
        ensures
            r.idx == 0,
            r.acpi == self,
    {
        SDTIterator::new(self)
    }
}

/// Walks the addresses of the root table's entry pointers in order.
pub struct SDTIterator<'a> {
    /// How many entries were yielded already.
    pub idx: usize,
    /// The handle being walked.
    pub acpi: &'a ACPI,
}

impl<'a> SDTIterator<'a> {
    /// A walk starting at the first entry.
    pub fn new(acpi: &'a ACPI) -> (r: Self)
        ensures
            r.idx == 0,
            r.acpi == acpi,
    {
        Self { idx: 0, acpi }
    }

    /// How many entry pointers the table holds in all.
    pub fn len(&self) -> (r: usize)
        ensures
            r == self.acpi.sdt_cnt,
    {
        self.acpi.sdt_cnt
    }

    /// The address of the next entry pointer, until the count runs out.
    pub fn next(&mut self) -> (r: Option<usize>)
        requires
            old(self).acpi.wf(),
        ensures
            final(self).acpi == old(self).acpi,
            (r is Some) <==> old(self).idx < old(self).acpi.sdt_cnt,
            r matches Some(addr) ==> {
                &&& addr == old(self).acpi.sdt_ptrs + old(self).idx * SDT_PTR_SIZE
                &&& final(self).idx == old(self).idx + 1
            },
            r is None ==> final(self).idx == old(self).idx,
    {
        if self.idx >= self.acpi.sdt_cnt {
            return None;
        }
        proof {
            assert(self.idx * SDT_PTR_SIZE <= self.acpi.sdt_cnt * SDT_PTR_SIZE)
                by (nonlinear_arith)
                requires
                    self.idx < self.acpi.sdt_cnt,
            ;
        }
        let addr = self.acpi.sdt_ptrs + self.idx * SDT_PTR_SIZE;
        self.idx = self.idx + 1;
        Some(addr)
    }
}

} // verus!
