//! Byte- and word-splitting helpers used by the descriptor table builder
//! and the device drivers.

use vstd::prelude::*;

verus! {

/// Low byte of a 16-bit value.
pub fn lo_byte(two_byte: u16) -> (r: u8)
    ensures
        r == two_byte % 0x100,
{
    proof {
        assert((two_byte & 0x00FF) == two_byte % 0x100) by (bit_vector);
    }
    (two_byte & 0x00FF) as u8
}

/// High byte of a 16-bit value.
pub fn hi_byte(two_byte: u16) -> (r: u8)
    ensures
        r == two_byte / 0x100,
{
    proof {
        assert((two_byte >> 8) == two_byte / 0x100) by (bit_vector);
        assert(two_byte / 0x100 < 0x100);
    }
    (two_byte >> 8) as u8
}

/// Low 16 bits of an address, as stored in a gate descriptor.
pub fn address_lo_16_bytes(addr: usize) -> (r: u16)
    ensures
        r == addr % 0x10000,
{
    proof {
        assert((addr & 0x0000_FFFF) == addr % 0x10000) by (bit_vector);
        assert(addr % 0x10000 < 0x10000) by (bit_vector);
    }
    (addr & 0x0000_FFFF) as u16
}

/// Bits 16..32 of an address, as stored in a gate descriptor.
pub fn address_hi_16_bytes(addr: usize) -> (r: u16)
    ensures
        r == (addr / 0x10000) % 0x10000,
{
    proof {
        assert(((addr >> 16) & 0xFFFF) == (addr / 0x10000) % 0x10000) by (bit_vector);
        assert(((addr >> 16) as u16) == ((addr >> 16) & 0xFFFF)) by (bit_vector);
    }
    (addr >> 16) as u16
}

/// True when `b` has at least one of the bits of `mask` set.
pub fn read_bit_mask(b: u8, mask: u8) -> (r: bool)
    ensures
        r == ((b & mask) != 0),
{
    (b & mask) > 0
}

} // verus!
