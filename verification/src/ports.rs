//! I/O port names and the operation transcript type.
//!
//! The drivers in this crate never touch hardware directly. Instead they
//! produce sequences of [`PortOp`] values whose exact contents are pinned
//! by their contracts; the unverified runtime executes each operation with
//! the CPU's `in`/`out` instructions.

use vstd::prelude::*;

verus! {

/// The I/O ports this subsystem talks to.
#[derive(Clone, Copy, Debug, PartialEq, Eq, Structural)]
pub enum Port {
    /// Unused after POST; writing it is a cheap I/O delay.
    MBHexDisplay,
    MasterPICCommand,
    MasterPICData,
    SlavePICCommand,
    SlavePICData,
    PS2DataPort,
    PS2StatusCmdReg,
}

/// The hardware port number behind each name.
pub open spec fn spec_port_number(p: Port) -> u16 {
    match p {
        Port::MBHexDisplay => 0x0080,
        Port::MasterPICCommand => 0x0020,
        Port::MasterPICData => 0x0021,
        Port::SlavePICCommand => 0x00A0,
        Port::SlavePICData => 0x00A1,
        Port::PS2DataPort => 0x0060,
        Port::PS2StatusCmdReg => 0x0064,
    }
}

impl Port {
    /// The hardware port number, for the runtime that executes transcripts.
    pub fn number(self) -> (n: u16)
        ensures
            n == spec_port_number(self),
    {
        match self {
            Port::MBHexDisplay => 0x0080,
            Port::MasterPICCommand => 0x0020,
            Port::MasterPICData => 0x0021,
            Port::SlavePICCommand => 0x00A0,
            Port::SlavePICData => 0x00A1,
            Port::PS2DataPort => 0x0060,
            Port::PS2StatusCmdReg => 0x0064,
        }
    }
}

/// One raw port access, to be executed in transcript order.
#[derive(Clone, Copy, Debug, PartialEq, Eq, Structural)]
pub enum PortOp {
    WriteByte(Port, u8),
    ReadByte(Port),
}

/// The operation that creates a short I/O delay: a write of zero to an
/// unused port, required between the PIC initialisation bytes.
pub open spec fn io_wait_op() -> PortOp {
    PortOp::WriteByte(Port::MBHexDisplay, 0)
}

/// Append the I/O-delay operation to a transcript.
pub fn io_wait(ops: &mut Vec<PortOp>)
    ensures
        final(ops)@ == old(ops)@.push(io_wait_op()),
{
    ops.push(PortOp::WriteByte(Port::MBHexDisplay, 0));
}

} // verus!
