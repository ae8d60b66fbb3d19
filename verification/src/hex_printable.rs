//! Hexadecimal formatting support for the diagnostics output: big-endian
//! byte splitting and nibble-to-digit conversion.

use vstd::prelude::*;

verus! {

/// The ASCII hex digit of a nibble: `0`..`9` then `A`..`F`.
pub open spec fn spec_hex_digit(n: u8) -> u8
    recommends
        n < 16,
{
    if n <= 9 {
        (0x30 + n) as u8
    } else {
        (0x37 + n) as u8
    }
}

/// The ASCII hex digit of a nibble.
pub fn half_byte_to_hex_ascii(n: u8) -> (r: u8)
    requires
        n < 16,
    ensures
        r == spec_hex_digit(n),
{
    if n <= 9 {
        0x30 + n
    } else {
        0x37 + n
    }
}

/// A `u8` as its single big-endian byte.
pub fn u8_to_bytes(x: u8) -> (r: Vec<u8>)
    ensures
        r@ == seq![x],
{
    let mut r: Vec<u8> = Vec::new();
    r.push(x);
    proof {
        assert(r@ =~= seq![x]);
    }
    r
}

/// A `u16` as its two big-endian bytes.
pub fn u16_to_bytes(x: u16) -> (r: Vec<u8>)
    ensures
        r@ == seq![(x / 0x100) as u8, (x % 0x100) as u8],
{
    let mut r: Vec<u8> = Vec::new();
    r.push(crate::util::hi_byte(x));
    r.push(crate::util::lo_byte(x));
    proof {
        assert(r@ =~= seq![(x / 0x100) as u8, (x % 0x100) as u8]);
    }
    r
}

/// A `u32` as its four big-endian bytes.
pub fn u32_to_bytes(x: u32) -> (r: Vec<u8>)
    ensures
        r@ == seq![
            (x / 0x1000000) as u8,
            ((x / 0x10000) % 0x100) as u8,
            ((x / 0x100) % 0x100) as u8,
            (x % 0x100) as u8,
        ],
{
    proof {
        assert((x >> 24) == x / 0x1000000 && (x / 0x1000000) < 0x100 && ((x >> 16) & 0xFF) == (x
            / 0x10000) % 0x100 && ((x >> 8) & 0xFF) == (x / 0x100) % 0x100 && (x & 0xFF) == x
            % 0x100) by (bit_vector);
    }
    let mut r: Vec<u8> = Vec::new();
    r.push((x >> 24) as u8);
    r.push(((x >> 16) & 0xFF) as u8);
    r.push(((x >> 8) & 0xFF) as u8);
    r.push((x & 0xFF) as u8);
    proof {
        assert(r@ =~= seq![
            (x / 0x1000000) as u8,
            ((x / 0x10000) % 0x100) as u8,
            ((x / 0x100) % 0x100) as u8,
            (x % 0x100) as u8,
        ]);
    }
    r
}

/// The hex digit pair of each byte, in order: digit `2*i` is the high
/// nibble of byte `i` and digit `2*i + 1` its low nibble.
pub fn as_hex(bytes: &Vec<u8>) -> (r: Vec<u8>)
    ensures
        r@.len() == 2 * bytes@.len(),
        forall|i: int|
            0 <= i < bytes@.len() ==> r@[2 * i] == spec_hex_digit((bytes@[i] / 16) as u8)
                && r@[2 * i + 1] == spec_hex_digit((bytes@[i] % 16) as u8),
{
    let mut hex_chars: Vec<u8> = Vec::new();
    let mut i: usize = 0;
    while i < bytes.len()
        invariant
            i <= bytes@.len(),
            hex_chars@.len() == 2 * i,
            forall|j: int|
                0 <= j < i ==> hex_chars@[2 * j] == spec_hex_digit((bytes@[j] / 16) as u8)
                    && hex_chars@[2 * j + 1] == spec_hex_digit((bytes@[j] % 16) as u8),
        decreases bytes@.len() - i,
    {
        let byte = bytes[i];
        proof {
            assert((byte >> 4) == byte / 16 && byte / 16 < 16 && (byte & 0x0F) == byte % 16)
                by (bit_vector);
        }
        hex_chars.push(half_byte_to_hex_ascii(byte >> 4));
        hex_chars.push(half_byte_to_hex_ascii(byte & 0x0F));
        i = i + 1;
    }
    hex_chars
}

} // verus!
