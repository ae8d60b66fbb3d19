//! The memory map the boot sector leaves behind: the low-memory size and
//! the high-memory region records, decoded into typed values.
//!
//! The raw records sit at fixed addresses only the runtime can read; it
//! hands them over as plain values and the decoding happens here.

use vstd::prelude::*;

verus! {

/// Most high-memory region records the map can hold.
pub const MAX_HIGH_MEM_ENTRIES: usize = 15;

/// One 20-byte region record as the BIOS call wrote it.
#[derive(Clone, Copy, Debug, PartialEq, Eq, Structural)]
pub struct RawHighMemEntry {
    pub base: u64,
    pub len: u64,
    pub typ: u32,
}

/// What a memory region is usable for.
#[derive(Clone, Copy, Debug, PartialEq, Eq, Structural)]
pub enum MemType {
    Usable,
    Reserved,
    ACPIReclaimable,
    ACPI,
    Bad,
    Error,
}

/// The region type a raw type code decodes to; unknown codes decode to
/// `Error`.
pub open spec fn spec_mem_type(value: u32) -> MemType {
    match value {
        1 => MemType::Usable,
        2 => MemType::Reserved,
        3 => MemType::ACPIReclaimable,
        4 => MemType::ACPI,
        5 => MemType::Bad,
        _ => MemType::Error,
    }
}

/// The code each region type reports in diagnostics; `Error` reports zero.
pub open spec fn spec_type_code(t: MemType) -> u8 {
    match t {
        MemType::Usable => 1,
        MemType::Reserved => 2,
        MemType::ACPIReclaimable => 3,
        MemType::ACPI => 4,
        MemType::Bad => 5,
        MemType::Error => 0,
    }
}

impl MemType {
    /// Decode a raw region type code.
    pub fn from_code(value: u32) -> (r: Self)
        ensures
            r == spec_mem_type(value),
    {
        match value {
            1 => MemType::Usable,
            2 => MemType::Reserved,
            3 => MemType::ACPIReclaimable,
            4 => MemType::ACPI,
            5 => MemType::Bad,
            _ => MemType::Error,
        }
    }

    /// The code reported for this region type.
    pub fn type_code(&self) -> (r: u8)
        ensures
            r == spec_type_code(*self),
    {
        match self {
            MemType::Usable => 1,
            MemType::Reserved => 2,
            MemType::ACPIReclaimable => 3,
            MemType::ACPI => 4,
            MemType::Bad => 5,
            MemType::Error => 0,
        }
    }
}

/// One decoded high-memory region.
#[derive(Clone, Copy, Debug, PartialEq, Eq, Structural)]
pub struct HighMemEntry {
    pub base: u64,
    pub len: u64,
    pub typ: MemType,
}

/// The decoded form of a raw record.
pub open spec fn spec_entry_of(raw: RawHighMemEntry) -> HighMemEntry {
    HighMemEntry { base: raw.base, len: raw.len, typ: spec_mem_type(raw.typ) }
}

impl HighMemEntry {
    /// Decode one raw region record.
    pub fn from_raw(value: RawHighMemEntry) -> (r: Self)
        ensures
            r == spec_entry_of(value),
    {
        Self { base: value.base, len: value.len, typ: MemType::from_code(value.typ) }
    }
}

/// The decoded memory map.
pub struct MemSpec {
    /// Low memory size in kilobytes.
    pub low_mem_size: u16,
    /// Decoded region records, the unused tail `None`.
    pub high_mem: Vec<Option<HighMemEntry>>,
}

/// The decoded region list for a raw record list and the record count the
/// boot sector reported: the first `min(count, capacity)` slots decoded in
/// order, the rest empty.
pub open spec fn spec_high_mem(raw: Seq<RawHighMemEntry>, num_entries: int) -> Seq<
    Option<HighMemEntry>,
> {
    Seq::new(
        MAX_HIGH_MEM_ENTRIES as nat,
        |i: int|
            if i < num_entries && i < raw.len() {
                Some(spec_entry_of(raw[i]))
            } else {
                None
            },
    )
}

impl MemSpec {
    /// The record list always has the full capacity.
    pub open spec fn wf(self) -> bool {
        self.high_mem@.len() == MAX_HIGH_MEM_ENTRIES
    }
}

/// Decode the high-memory records the boot sector stored: the reported
/// count of records, in order, up to the map's capacity.
pub fn detect_high_mem(raw: &Vec<RawHighMemEntry>, num_entries: usize) -> (r: Vec<
    Option<HighMemEntry>,
>)
    ensures
        r@ == spec_high_mem(raw@, num_entries as int),
        r@.len() == MAX_HIGH_MEM_ENTRIES,
{
    let mut entries: Vec<Option<HighMemEntry>> = Vec::new();
    let mut i: usize = 0;
    while i < MAX_HIGH_MEM_ENTRIES
        invariant
            i <= MAX_HIGH_MEM_ENTRIES,
            entries@.len() == i,
            forall|j: int|
                0 <= j < i ==> entries@[j] == spec_high_mem(raw@, num_entries as int)[j],
        decreases MAX_HIGH_MEM_ENTRIES - i,
    {
        if i < num_entries && i < raw.len() {
            entries.push(Some(HighMemEntry::from_raw(raw[i])));
        } else {
            entries.push(None);
        }
        i = i + 1;
    }
    proof {
        assert(entries@ =~= spec_high_mem(raw@, num_entries as int));
    }
    entries
}

/// Assemble the memory map from the low-memory size and the raw
/// high-memory records the runtime read out of the boot area.
pub fn read_mem_spec(low_mem_size: u16, raw: &Vec<RawHighMemEntry>, num_entries: usize) -> (r:
    MemSpec)
    ensures
        r.wf(),
        r.low_mem_size == low_mem_size,
        r.high_mem@ == spec_high_mem(raw@, num_entries as int),
{
    MemSpec { low_mem_size, high_mem: detect_high_mem(raw, num_entries) }
}

} // verus!
