//! A driver for a generic PS/2 connected keyboard: the identification
//! handshake at initialisation, and the stateful scan-code decoder.
//!
//! Decoding is a pure function of the driver's shift offset and the scan
//! code: shift make codes select the upper-case bias, shift break codes
//! restore the lower-case default, alphabetic make codes map through a
//! fixed base-letter table with the offset added, and every other code
//! maps to a fixed byte or to no character at all.

use vstd::prelude::*;
use crate::ps2::{KeyboardInitError, identity_devices, spec_identify};

verus! {

/// Offset from an upper-case ASCII letter to its lower-case form; the
/// decoder's default shift offset.
pub const LOWER_CASE_OFFSET: u8 = 0x20;

/// The base (upper-case) letter of an alphabetic make code, if the code
/// is alphabetic.
pub open spec fn spec_alpha_base(scan_code: u8) -> Option<u8> {
    match scan_code {
        0x10 => Some(0x51),  // 'Q'
        0x11 => Some(0x57),  // 'W'
        0x12 => Some(0x45),  // 'E'
        0x13 => Some(0x52),  // 'R'
        0x14 => Some(0x54),  // 'T'
        0x15 => Some(0x59),  // 'Y'
        0x16 => Some(0x55),  // 'U'
        0x17 => Some(0x49),  // 'I'
        0x18 => Some(0x4f),  // 'O'
        0x19 => Some(0x50),  // 'P'
        0x1e => Some(0x41),  // 'A'
        0x1f => Some(0x53),  // 'S'
        0x20 => Some(0x44),  // 'D'
        0x21 => Some(0x46),  // 'F'
        0x22 => Some(0x47),  // 'G'
        0x23 => Some(0x48),  // 'H'
        0x24 => Some(0x4a),  // 'J'
        0x25 => Some(0x4b),  // 'K'
        0x26 => Some(0x4c),  // 'L'
        0x2c => Some(0x5a),  // 'Z'
        0x2d => Some(0x58),  // 'X'
        0x2e => Some(0x43),  // 'C'
        0x2f => Some(0x56),  // 'V'
        0x30 => Some(0x42),  // 'B'
        0x31 => Some(0x4e),  // 'N'
        0x32 => Some(0x4d),  // 'M'
        _ => None,
    }
}

/// The fixed byte of a code that is neither alphabetic nor a shift code:
/// the numeric row, punctuation, Tab, Backspace and Enter map to single
/// bytes whatever the shift offset; Escape, the function keys, Delete and
/// every release code map to no character; the remaining make codes map
/// to a placeholder.
pub open spec fn spec_fixed_key(scan_code: u8) -> Option<u8> {
    match scan_code {
        0x01 => None,  // Escape
        0x00 => Some(0x58),  // 'X'
        0x02 => Some(0x31),  // '1'
        0x03 => Some(0x32),  // '2'
        0x04 => Some(0x33),  // '3'
        0x05 => Some(0x34),  // '4'
        0x06 => Some(0x35),  // '5'
        0x07 => Some(0x36),  // '6'
        0x08 => Some(0x37),  // '7'
        0x09 => Some(0x38),  // '8'
        0x0a => Some(0x39),  // '9'
        0x0b => Some(0x30),  // '0'
        0x0c => Some(0x2d),  // '-'
        0x0d => Some(0x3d),  // '='
        0x0e => Some(0x08),  // Backspace
        0x0f => Some(0x09),  // Tab
        0x1a => Some(0x5b),  // '['
        0x1b => Some(0x5d),  // ']'
        0x1c => Some(0x0a),  // Enter
        0x27 => Some(0x3b),  // ';'
        0x28 => Some(0x27),  // quote
        0x29 => Some(0x60),  // backtick
        0x2b => Some(0x5c),  // backslash
        0x33 => Some(0x2c),  // ','
        0x34 => Some(0x2e),  // '.'
        0x35 => Some(0x2f),  // '/'
        0x39 => Some(0x20),  // space
        c if 0x3b <= c && c <= 0x44 => None,  // F1 through F10
        0x53 => None,  // Delete
        c if 0x57 <= c && c <= 0x58 => None,  // F11, F12
        c if 0x1d <= c && c <= 0x7f => Some(0x58),  // 'X'
        // Release codes, and the alphabetic codes that never reach this
        // table.
        _ => None,
    }
}

/// The shift offset after a scan code: shift make codes select the
/// upper-case bias, shift break codes restore the lower-case default,
/// everything else leaves it alone.
pub open spec fn spec_shift_after(shift_offset: u8, scan_code: u8) -> u8 {
    if scan_code == 0x2a || scan_code == 0x36 {
        0
    } else if scan_code == 0xaa || scan_code == 0xb6 {
        LOWER_CASE_OFFSET
    } else {
        shift_offset
    }
}

/// The character a scan code decodes to under a given shift offset.
pub open spec fn spec_key(shift_offset: u8, scan_code: u8) -> Option<u8> {
    if scan_code == 0x2a || scan_code == 0x36 || scan_code == 0xaa || scan_code == 0xb6 {
        None
    } else if spec_alpha_base(scan_code) is Some {
        Some((spec_alpha_base(scan_code)->0 + shift_offset) as u8)
    } else {
        spec_fixed_key(scan_code)
    }
}

/// A driver for a generic PS/2 connected keyboard.
pub struct KeyboardDriver {
    /// First identification byte, kept for diagnostics.
    pub b1: u8,
    /// Second identification byte, kept for diagnostics.
    pub b2: u8,
    /// Current case-mapping bias: 0 while shift is held, 0x20 otherwise.
    pub shift_offset: u8,
}

impl KeyboardDriver {
    /// The shift offset is always one of the two case biases.
    pub open spec fn wf(self) -> bool {
        self.shift_offset == 0 || self.shift_offset == LOWER_CASE_OFFSET
    }

    /// Initialise the driver by running the identification handshake over
    /// the bytes the data port yields and retaining the identification
    /// pair; decoding starts with the lower-case bias.
    pub fn initialise(reads: &Vec<u8>) -> (r: Result<Self, KeyboardInitError>)
        requires
            reads@.len() >= 4,
        ensures
            r matches Ok(d) ==> {
                &&& spec_identify(reads@) matches Ok(pair) && d.b1 == pair.0 && d.b2 == pair.1
                &&& d.shift_offset == LOWER_CASE_OFFSET
                &&& d.wf()
            },
            r matches Err(e) ==> spec_identify(reads@) == Err::<(u8, u8), _>(e),
            (r is Ok) == (spec_identify(reads@) is Ok),
    {
        let (_writes, outcome) = identity_devices(reads);
        match outcome {
            Ok((b1, b2)) => Ok(Self { b1, b2, shift_offset: LOWER_CASE_OFFSET }),
            Err(e) => Err(e),
        }
    }

    /// Handle a keyboard interrupt (IRQ1): decode the scan code that was
    /// read from the data port.
    pub fn keyboard_interrupt_handler(&mut self, scan_code: u8) -> (r: Option<u8>)
        requires
            old(self).wf(),
        ensures
            final(self).wf(),
            r == spec_key(old(self).shift_offset, scan_code),
            final(self).shift_offset == spec_shift_after(old(self).shift_offset, scan_code),
            final(self).b1 == old(self).b1,
            final(self).b2 == old(self).b2,
    {
        self.letter_from_scan_code(scan_code)
    }

    /// Decode one scan code, updating the shift offset on shift make and
    /// break codes.
    pub fn letter_from_scan_code(&mut self, scan_code: u8) -> (r: Option<u8>)
        requires
            old(self).wf(),
        ensures
            final(self).wf(),
            r == spec_key(old(self).shift_offset, scan_code),
            final(self).shift_offset == spec_shift_after(old(self).shift_offset, scan_code),
            final(self).b1 == old(self).b1,
            final(self).b2 == old(self).b2,
    {
        match scan_code {
            0x01 => None,  // Escape
            0x00 => Some(0x58),  // 'X'
            0x02 => Some(0x31),  // '1'
            0x03 => Some(0x32),  // '2'
            0x04 => Some(0x33),  // '3'
            0x05 => Some(0x34),  // '4'
            0x06 => Some(0x35),  // '5'
            0x07 => Some(0x36),  // '6'
            0x08 => Some(0x37),  // '7'
            0x09 => Some(0x38),  // '8'
            0x0a => Some(0x39),  // '9'
            0x0b => Some(0x30),  // '0'
            0x0c => Some(0x2d),  // '-'
            0x0d => Some(0x3d),  // '='
            0x0e => Some(0x08),  // Backspace
            0x0f => Some(0x09),  // Tab
            0x10 => Some(0x51 + self.shift_offset),  // 'Q'
            0x11 => Some(0x57 + self.shift_offset),  // 'W'
            0x12 => Some(0x45 + self.shift_offset),  // 'E'
            0x13 => Some(0x52 + self.shift_offset),  // 'R'
            0x14 => Some(0x54 + self.shift_offset),  // 'T'
            0x15 => Some(0x59 + self.shift_offset),  // 'Y'
            0x16 => Some(0x55 + self.shift_offset),  // 'U'
            0x17 => Some(0x49 + self.shift_offset),  // 'I'
            0x18 => Some(0x4f + self.shift_offset),  // 'O'
            0x19 => Some(0x50 + self.shift_offset),  // 'P'
            0x1a => Some(0x5b),  // '['
            0x1b => Some(0x5d),  // ']'
            0x1c => Some(0x0a),  // Enter
            0x1e => Some(0x41 + self.shift_offset),  // 'A'
            0x1f => Some(0x53 + self.shift_offset),  // 'S'
            0x20 => Some(0x44 + self.shift_offset),  // 'D'
            0x21 => Some(0x46 + self.shift_offset),  // 'F'
            0x22 => Some(0x47 + self.shift_offset),  // 'G'
            0x23 => Some(0x48 + self.shift_offset),  // 'H'
            0x24 => Some(0x4a + self.shift_offset),  // 'J'
            0x25 => Some(0x4b + self.shift_offset),  // 'K'
            0x26 => Some(0x4c + self.shift_offset),  // 'L'
            0x27 => Some(0x3b),  // ';'
            0x28 => Some(0x27),  // quote
            0x29 => Some(0x60),  // backtick
            0x2a => {
                // Left shift make
                self.shift_offset = 0;
                None
            },
            0x2b => Some(0x5c),  // backslash
            0x2c => Some(0x5a + self.shift_offset),  // 'Z'
            0x2d => Some(0x58 + self.shift_offset),  // 'X'
            0x2e => Some(0x43 + self.shift_offset),  // 'C'
            0x2f => Some(0x56 + self.shift_offset),  // 'V'
            0x30 => Some(0x42 + self.shift_offset),  // 'B'
            0x31 => Some(0x4e + self.shift_offset),  // 'N'
            0x32 => Some(0x4d + self.shift_offset),  // 'M'
            0x33 => Some(0x2c),  // ','
            0x34 => Some(0x2e),  // '.'
            0x35 => Some(0x2f),  // '/'
            0x36 => {
                // Right shift make
                self.shift_offset = 0;
                None
            },
            0x39 => Some(0x20),  // space
            c if 0x3b <= c && c <= 0x44 => None,  // F1 through F10
            0x53 => None,  // Delete
            c if 0x57 <= c && c <= 0x58 => None,  // F11, F12
            c if 0x1d <= c && c <= 0x7f => Some(0x58),  // 'X'
            0xaa | 0xb6 => {
                // Shift break: restore the lower-case bias
                self.shift_offset = LOWER_CASE_OFFSET;
                None
            },
            _ => None,  // Release
        }
    }
}

} // verus!
