//! Driver for the 8259 Programmable Interrupt Controller.
//!
//! `remap` produces the full initialisation sequence that moves the
//! sixteen hardware IRQ lines onto a chosen pair of CPU vector offsets;
//! `send_eoi` produces the end-of-interrupt acknowledgment. Both return
//! the exact port writes to perform, in order.

use vstd::prelude::*;
use crate::ports::{Port, PortOp, io_wait, io_wait_op};

verus! {

/// End-of-interrupt command byte.
pub const EOI: u8 = 0x20;

/// The master line that cascades to the slave controller.
pub const CASCADE_IRQ: u8 = 2;

/// Initialisation command: init bit plus "a fourth initialisation word
/// follows".
pub const ICW1_INIT_ICW4: u8 = 0x11;

/// Fourth initialisation word: 8086 mode.
pub const ICW4_MODE_8086: u8 = 0x01;

/// The port writes of the end-of-interrupt acknowledgment for one IRQ:
/// lines on the slave controller acknowledge the slave first, and the
/// master is always acknowledged last.
pub open spec fn eoi_ops(irq: u8) -> Seq<PortOp> {
    if irq >= 8 {
        seq![
            PortOp::WriteByte(Port::SlavePICCommand, EOI),
            PortOp::WriteByte(Port::MasterPICCommand, EOI),
        ]
    } else {
        seq![PortOp::WriteByte(Port::MasterPICCommand, EOI)]
    }
}

/// The full remap sequence: the init command to both controllers, the
/// vector offsets, the cascade identities, the 8086 mode word — each
/// followed by an I/O delay — and finally the unmask of every line.
pub open spec fn remap_ops(offset1: u8, offset2: u8) -> Seq<PortOp> {
    seq![
        PortOp::WriteByte(Port::MasterPICCommand, ICW1_INIT_ICW4),
        io_wait_op(),
        PortOp::WriteByte(Port::SlavePICCommand, ICW1_INIT_ICW4),
        io_wait_op(),
        PortOp::WriteByte(Port::MasterPICData, offset1),
        io_wait_op(),
        PortOp::WriteByte(Port::SlavePICData, offset2),
        io_wait_op(),
        PortOp::WriteByte(Port::MasterPICData, 1u8 << CASCADE_IRQ),
        io_wait_op(),
        PortOp::WriteByte(Port::SlavePICData, 2),
        io_wait_op(),
        PortOp::WriteByte(Port::MasterPICData, ICW4_MODE_8086),
        io_wait_op(),
        PortOp::WriteByte(Port::SlavePICData, ICW4_MODE_8086),
        io_wait_op(),
        PortOp::WriteByte(Port::MasterPICData, 0),
        PortOp::WriteByte(Port::SlavePICData, 0),
    ]
}

/// The CPU vector on which a hardware IRQ arrives once the controllers
/// have been remapped to `offset1` (master) and `offset2` (slave).
pub open spec fn vector_for_irq(offset1: u8, offset2: u8, irq: u8) -> int {
    if irq < 8 {
        offset1 + irq
    } else {
        offset2 + (irq - 8)
    }
}

/// Driver for the Programmable Interrupt Controller.
pub struct PIC {}

impl PIC {
    /// The End Of Interrupt (EOI) acknowledgment for a given IRQ: written
    /// to the slave controller first when the line is cascaded, and to the
    /// master controller last in every case.
    pub fn send_eoi(irq: u8) -> (ops: Vec<PortOp>)
        ensures
            ops@ == eoi_ops(irq),
    {
        let mut ops: Vec<PortOp> = Vec::new();
        if irq >= 8 {
            ops.push(PortOp::WriteByte(Port::SlavePICCommand, EOI));
        }
        ops.push(PortOp::WriteByte(Port::MasterPICCommand, EOI));
        proof {
            assert(ops@ =~= eoi_ops(irq));
        }
        ops
    }

    /// The initialisation sequence that remaps the controllers' IRQs: the
    /// init command and the three following initialisation words on both
    /// controllers, an I/O delay after each byte, then the unmask of all
    /// lines.
    pub fn remap(offset1: u8, offset2: u8) -> (ops: Vec<PortOp>)
        ensures
            ops@ == remap_ops(offset1, offset2),
    {
        let mut ops: Vec<PortOp> = Vec::new();

        // Init command
        ops.push(PortOp::WriteByte(Port::MasterPICCommand, ICW1_INIT_ICW4));
        io_wait(&mut ops);
        ops.push(PortOp::WriteByte(Port::SlavePICCommand, ICW1_INIT_ICW4));
        io_wait(&mut ops);

        // Init word 1: the new vector offsets
        ops.push(PortOp::WriteByte(Port::MasterPICData, offset1));
        io_wait(&mut ops);
        ops.push(PortOp::WriteByte(Port::SlavePICData, offset2));
        io_wait(&mut ops);

        // Init word 2:
        // Master: there is a slave at IRQ 2
        // Slave: set cascade identity
        ops.push(PortOp::WriteByte(Port::MasterPICData, 1u8 << CASCADE_IRQ));
        io_wait(&mut ops);
        ops.push(PortOp::WriteByte(Port::SlavePICData, 2));
        io_wait(&mut ops);

        // Init word 3: use 8086 mode over 8080 mode.
        ops.push(PortOp::WriteByte(Port::MasterPICData, ICW4_MODE_8086));
        io_wait(&mut ops);
        ops.push(PortOp::WriteByte(Port::SlavePICData, ICW4_MODE_8086));
        io_wait(&mut ops);

        // Unmask
        ops.push(PortOp::WriteByte(Port::MasterPICData, 0));
        ops.push(PortOp::WriteByte(Port::SlavePICData, 0));

        proof {
            assert(ops@ =~= remap_ops(offset1, offset2));
        }
        ops
    }
}

/// With the controllers remapped to offsets 32 and 40, hardware IRQ `irq`
/// arrives as CPU vector `32 + irq`: IRQ 0 on vector 32, IRQ 15 on
/// vector 47, and no IRQ vector overlaps the 32 reserved exception
/// vectors 0..=31.
pub proof fn lemma_remap_32_40_vectors(irq: u8)
    requires
        irq < 16,
    ensures
        vector_for_irq(32, 40, irq) == 32 + irq,
        32 <= vector_for_irq(32, 40, irq) <= 47,
{
}

} // verus!
