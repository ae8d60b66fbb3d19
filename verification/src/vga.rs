//! VGA controller port names and cursor register indices.

use vstd::prelude::*;

verus! {

/// The VGA controller's port pairs.
#[derive(Clone, Copy, Debug, PartialEq, Eq, Structural)]
pub enum Port {
    VGA1Out,
    VGA1In,
    VGA2Out,
    VGA2In,
    VGA3Out,
    VGA3In,
}

/// The hardware port number behind each name.
pub open spec fn spec_vga_port_number(p: Port) -> u16 {
    match p {
        Port::VGA1Out => 0x3C4,
        Port::VGA1In => 0x3C5,
        Port::VGA2Out => 0x3CE,
        Port::VGA2In => 0x3CF,
        Port::VGA3Out => 0x3D4,
        Port::VGA3In => 0x3D5,
    }
}

impl Port {
    /// The hardware port number.
    pub fn number(self) -> (n: u16)
        ensures
            n == spec_vga_port_number(self),
    {
        match self {
            Port::VGA1Out => 0x3C4,
            Port::VGA1In => 0x3C5,
            Port::VGA2Out => 0x3CE,
            Port::VGA2In => 0x3CF,
            Port::VGA3Out => 0x3D4,
            Port::VGA3In => 0x3D5,
        }
    }
}

/// Cursor register indices of the VGA controller.
#[derive(Clone, Copy, Debug, PartialEq, Eq, Structural)]
pub enum VGA {
    CursorHiByte,
    CursorLoByte,
}

/// The register index behind each name.
pub open spec fn spec_vga_register(r: VGA) -> u8 {
    match r {
        VGA::CursorHiByte => 0x0E,
        VGA::CursorLoByte => 0x0F,
    }
}

impl VGA {
    /// The register index.
    pub fn register(self) -> (n: u8)
        ensures
            n == spec_vga_register(self),
    {
        match self {
            VGA::CursorHiByte => 0x0E,
            VGA::CursorLoByte => 0x0F,
        }
    }
}

} // verus!
