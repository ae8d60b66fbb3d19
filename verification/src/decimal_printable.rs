//! Decimal formatting support for the diagnostics output.
//!
//! Each printable width knows its maximum digit count; the digits
//! themselves come out least significant first, exactly as the printer
//! consumes them.

use vstd::prelude::*;

verus! {

/// A fixed-width integer that can be printed in decimal.
pub trait DecimalDigits where Self: Sized {
    /// The most decimal digits a value of this width can have.
    spec fn spec_digits() -> usize;

    /// The low byte of a value.
    spec fn spec_low_byte(self) -> u8;

    /// The most decimal digits a value of this width can have.
    fn decimal_digits() -> (r: usize)
        ensures
            r == Self::spec_digits(),
    ;

    /// The low byte of this value.
    fn extract_low_byte(self) -> (r: u8)
        ensures
            r == self.spec_low_byte(),
    ;
}

impl DecimalDigits for u8 {
    open spec fn spec_digits() -> usize {
        3
    }

    open spec fn spec_low_byte(self) -> u8 {
        self
    }

    fn decimal_digits() -> (r: usize) {
        3
    }

    fn extract_low_byte(self) -> (r: u8) {
        self
    }
}

impl DecimalDigits for u16 {
    open spec fn spec_digits() -> usize {
        5
    }

    open spec fn spec_low_byte(self) -> u8 {
        (self % 0x100) as u8
    }

    fn decimal_digits() -> (r: usize) {
        5
    }

    fn extract_low_byte(self) -> (r: u8) {
        proof {
            assert((self as u8) == self % 0x100) by (bit_vector);
        }
        self as u8
    }
}

impl DecimalDigits for u32 {
    open spec fn spec_digits() -> usize {
        10
    }

    open spec fn spec_low_byte(self) -> u8 {
        (self % 0x100) as u8
    }

    fn decimal_digits() -> (r: usize) {
        10
    }

    fn extract_low_byte(self) -> (r: u8) {
        proof {
            assert((self as u8) == self % 0x100) by (bit_vector);
        }
        self as u8
    }
}

impl DecimalDigits for u64 {
    open spec fn spec_digits() -> usize {
        20
    }

    open spec fn spec_low_byte(self) -> u8 {
        (self % 0x100) as u8
    }

    fn decimal_digits() -> (r: usize) {
        20
    }

    fn extract_low_byte(self) -> (r: u8) {
        proof {
            assert((self as u8) == self % 0x100) by (bit_vector);
        }
        self as u8
    }
}

/// The decimal digit bytes of `n`, least significant first; zero has no
/// digits, matching a printer that stops at the first empty slot.
pub open spec fn spec_decimal_digits(n: int) -> Seq<u8>
    decreases n,
{
    if n <= 0 {
        Seq::empty()
    } else {
        seq![(0x30 + n % 10) as u8] + spec_decimal_digits(n / 10)
    }
}

/// The decimal digit bytes of `n`, least significant first.
pub fn as_decimal(n: u64) -> (r: Vec<u8>)
    ensures
        r@ == spec_decimal_digits(n as int),
{
    let mut chars: Vec<u8> = Vec::new();
    let mut remainder = n;
    while remainder != 0
        invariant
            spec_decimal_digits(n as int) =~= chars@ + spec_decimal_digits(remainder as int),
        decreases remainder,
    {
        let digit = (remainder % 10) as u8;
        chars.push(digit + 0x30);
        remainder = remainder / 10;
    }
    proof {
        assert(chars@ + spec_decimal_digits(0) =~= chars@);
    }
    chars
}

} // verus!
