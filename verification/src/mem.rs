//! The bump-pointer physical memory allocator.
//!
//! Allocation only ever moves a free-memory address forward; freeing is a
//! no-op by design. The address arithmetic — in particular rounding up to
//! the next page for aligned requests — is what gets verified; turning
//! the address into a pointer is the runtime's business.

use vstd::prelude::*;
use crate::pre_boot::MemSpec;

verus! {

/// Where free physical memory starts at boot.
pub const FREE_MEM_START_ADDR: usize = 0x10000;

/// Size of one page.
pub const PAGE_SIZE: usize = 0x1000;

/// `addr` rounded up to the next page boundary when it is not already on
/// one.
pub open spec fn spec_page_align_up(addr: usize) -> int {
    if addr % PAGE_SIZE == 0 {
        addr as int
    } else {
        addr - (addr % PAGE_SIZE) + PAGE_SIZE
    }
}

/// The bump-pointer allocator and the memory map it was initialised with.
pub struct MemoryManager {
    /// First address not yet handed out.
    pub free_mem_addr: usize,
    /// The memory map, kept for diagnostics.
    pub mem_spec: MemSpec,
}

impl MemoryManager {
    /// A fresh allocator over a decoded memory map.
    pub fn init(mem_spec: MemSpec) -> (r: Self)
        ensures
            r.free_mem_addr == FREE_MEM_START_ADDR,
            r.mem_spec == mem_spec,
    {
        Self { free_mem_addr: FREE_MEM_START_ADDR, mem_spec }
    }

    /// Hand out `size` bytes, first rounding the free-memory address up to
    /// a page boundary when `align` asks for it. Returns the address of
    /// the allocation.
    pub fn malloc(&mut self, size: usize, align: bool) -> (addr: usize)
        requires
            old(self).free_mem_addr + PAGE_SIZE + size <= usize::MAX,
        ensures
            addr == if align {
                spec_page_align_up(old(self).free_mem_addr)
            } else {
                old(self).free_mem_addr as int
            },
            align ==> addr % PAGE_SIZE == 0,
            final(self).free_mem_addr == addr + size,
            final(self).mem_spec == old(self).mem_spec,
    {
        if align {
            let rem = self.free_mem_addr % PAGE_SIZE;
            if rem != 0 {
                // Drop back to the page boundary, then advance one page.
                self.free_mem_addr = self.free_mem_addr - rem;
                self.free_mem_addr = self.free_mem_addr + PAGE_SIZE;
            }
        }
        let phys_addr = self.free_mem_addr;
        self.free_mem_addr = self.free_mem_addr + size;
        phys_addr
    }

    /// Freeing is a no-op: a bump allocator never reuses memory.
    pub fn free(&mut self, _addr: usize)
        ensures
            *final(self) == *old(self),
    {
    }

    /// The memory map read at boot.
    pub fn get_memory(&self) -> (r: &MemSpec)
        ensures
            r == self.mem_spec,
    {
        &self.mem_spec
    }
}

} // verus!
