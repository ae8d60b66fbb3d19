//! The VGA text-mode driver's hardware-facing arithmetic: cursor
//! positions as the controller's registers hold them.
//!
//! Writing characters into video memory and executing the register
//! accesses is the runtime's business; the offset arithmetic and the
//! exact register sequences are pinned down here.

use vstd::prelude::*;
use crate::vga::{Port, VGA};

verus! {

/// Columns of the text screen.
pub const WIDTH: u16 = 80;

/// Rows of the text screen.
pub const HEIGHT: u16 = 25;

/// Character cells on the screen.
pub const SCREEN_SIZE: u16 = WIDTH * HEIGHT;

/// Bytes per character cell: the character and its colour attribute.
pub const CHAR_SIZE: u16 = 2;

/// Size of the text-mode video buffer in bytes.
pub const BUF_SIZE: u16 = CHAR_SIZE * SCREEN_SIZE;

/// One access to the VGA controller's ports.
#[derive(Clone, Copy, Debug, PartialEq, Eq, Structural)]
pub enum VgaOp {
    WriteByte(Port, u8),
    ReadByte(Port),
}

/// The register accesses that fetch the two cursor position bytes: select
/// and read the high byte, then select and read the low byte.
pub open spec fn spec_cursor_query_ops() -> Seq<VgaOp> {
    seq![
        VgaOp::WriteByte(Port::VGA3Out, 0x0E),
        VgaOp::ReadByte(Port::VGA3In),
        VgaOp::WriteByte(Port::VGA3Out, 0x0F),
        VgaOp::ReadByte(Port::VGA3In),
    ]
}

/// The VGA text-mode driver.
pub struct VGAText {}

impl VGAText {
    /// The register accesses whose two reads yield the cursor position
    /// bytes for [`VGAText::get_cursor_position`].
    pub fn cursor_query_ops(&self) -> (ops: Vec<VgaOp>)
        ensures
            ops@ == spec_cursor_query_ops(),
    {
        let mut ops: Vec<VgaOp> = Vec::new();
        ops.push(VgaOp::WriteByte(Port::VGA3Out, VGA::CursorHiByte.register()));
        ops.push(VgaOp::ReadByte(Port::VGA3In));
        ops.push(VgaOp::WriteByte(Port::VGA3Out, VGA::CursorLoByte.register()));
        ops.push(VgaOp::ReadByte(Port::VGA3In));
        proof {
            assert(ops@ =~= spec_cursor_query_ops());
        }
        ops
    }

    /// The cursor's byte offset into video memory, from the two bytes the
    /// controller's cursor registers yielded: twice the cell index.
    pub fn get_cursor_position(&self, hi: u8, lo: u8) -> (r: usize)
        ensures
            r == 2 * (hi * 0x100 + lo),
    {
        proof {
            assert(((hi as usize) << 8) == hi * 0x100) by (bit_vector);
        }
        let offset: usize = ((hi as usize) << 8) + lo as usize;
        offset * 2
    }

    /// The register writes that move the hardware cursor to column `x` of
    /// row `y`: the low byte of the cell index, then the high byte.
    pub fn update_cursor_position(&mut self, x: u16, y: u16) -> (ops: Vec<VgaOp>)
        requires
            x < WIDTH,
            y < HEIGHT,
        ensures
            ({
                let offset = y * WIDTH + x;
                ops@ =~= seq![
                    VgaOp::WriteByte(Port::VGA3Out, 0x0F),
                    VgaOp::WriteByte(Port::VGA3In, (offset % 0x100) as u8),
                    VgaOp::WriteByte(Port::VGA3Out, 0x0E),
                    VgaOp::WriteByte(Port::VGA3In, (offset / 0x100) as u8),
                ]
            }),
    {
        let offset = y * WIDTH + x;
        let hi = crate::util::hi_byte(offset);
        let lo = crate::util::lo_byte(offset);
        let mut ops: Vec<VgaOp> = Vec::new();
        ops.push(VgaOp::WriteByte(Port::VGA3Out, VGA::CursorLoByte.register()));
        ops.push(VgaOp::WriteByte(Port::VGA3In, lo));
        ops.push(VgaOp::WriteByte(Port::VGA3Out, VGA::CursorHiByte.register()));
        ops.push(VgaOp::WriteByte(Port::VGA3In, hi));
        ops
    }
}

} // verus!
