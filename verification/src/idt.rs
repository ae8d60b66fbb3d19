//! Interrupt Descriptor Table entries and the table register value.
//!
//! A gate is a fixed-layout 8-byte descriptor: the handler address split
//! into 16-bit halves around the code-segment selector, a reserved zero
//! byte, and the flags byte. Only the values are built here; the runtime
//! lays them out in memory and loads the table register.

use vstd::prelude::*;
use crate::util::{address_hi_16_bytes, address_lo_16_bytes};

verus! {

/// The kernel code-segment selector every gate uses.
pub const KERNEL_CS: u16 = 0x08;

/// Gate flags: present, kernel privilege, 32-bit interrupt gate.
pub const GATE_FLAGS: u8 = 0x8E;

/// One entry of the interrupt descriptor table.
#[derive(Clone, Copy, Debug, PartialEq, Eq, Structural)]
pub struct IDTGate {
    /// Low 16 bits of the handler address.
    pub lo_offset: u16,
    /// Kernel segment selector.
    pub sel: u16,
    /// Reserved, always zero.
    pub always_0: u8,
    /// Present bit, privilege level and gate type.
    pub flags: u8,
    /// High 16 bits of the handler address.
    pub hi_offset: u16,
}

/// A gate before any handler is installed: selector and flags set, both
/// address halves zero.
pub open spec fn spec_empty_gate() -> IDTGate {
    IDTGate { lo_offset: 0, sel: KERNEL_CS, always_0: 0, flags: GATE_FLAGS, hi_offset: 0 }
}

/// The populated gate whose handler entry point is `addr`.
pub open spec fn spec_gate_for(addr: usize) -> IDTGate {
    IDTGate {
        lo_offset: (addr % 0x10000) as u16,
        sel: KERNEL_CS,
        always_0: 0,
        flags: GATE_FLAGS,
        hi_offset: ((addr / 0x10000) % 0x10000) as u16,
    }
}

impl IDTGate {
    /// A gate with no handler installed yet.
    pub fn new() -> (g: Self)
        ensures
            g == spec_empty_gate(),
    {
        Self { lo_offset: 0, sel: KERNEL_CS, always_0: 0, flags: GATE_FLAGS, hi_offset: 0 }
    }

    /// Point this gate at the handler whose entry point is `handler_addr`.
    pub fn set(&mut self, handler_addr: usize)
        requires
            old(self).sel == KERNEL_CS,
            old(self).always_0 == 0,
            old(self).flags == GATE_FLAGS,
        ensures
            *final(self) == spec_gate_for(handler_addr),
    {
        self.hi_offset = address_hi_16_bytes(handler_addr);
        self.lo_offset = address_lo_16_bytes(handler_addr);
    }
}

/// The 6-byte interrupt descriptor table register value: a 2-byte limit
/// and the table's linear base address.
#[derive(Clone, Copy, Debug, PartialEq, Eq, Structural)]
pub struct IDTReg {
    pub limit: u16,
    /// Linear address of the first gate.
    pub base: usize,
}

impl IDTReg {
    /// The null register value, before any table is installed.
    pub fn null() -> (r: Self)
        ensures
            r.limit == 0,
            r.base == 0,
    {
        Self { limit: 0, base: 0 }
    }
}

} // verus!
