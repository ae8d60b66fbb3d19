use kernel_core::pic::{EOI, PIC};
use kernel_core::ports::{Port, PortOp};

fn io_delay() -> PortOp {
    PortOp::WriteByte(Port::MBHexDisplay, 0)
}

#[test]
fn send_eoi_low_irq_writes_master_only() {
    let ops = PIC::send_eoi(1);
    assert_eq!(ops, vec![PortOp::WriteByte(Port::MasterPICCommand, EOI)]);
}

#[test]
fn send_eoi_irq0_writes_master_only() {
    let ops = PIC::send_eoi(0);
    assert_eq!(ops, vec![PortOp::WriteByte(Port::MasterPICCommand, EOI)]);
}

#[test]
fn send_eoi_cascaded_irq_writes_slave_then_master() {
    for irq in 8..16u8 {
        let ops = PIC::send_eoi(irq);
        assert_eq!(
            ops,
            vec![
                PortOp::WriteByte(Port::SlavePICCommand, EOI),
                PortOp::WriteByte(Port::MasterPICCommand, EOI),
            ]
        );
    }
}

#[test]
fn send_eoi_boundary_irq7_is_master_only() {
    let ops = PIC::send_eoi(7);
    assert_eq!(ops.len(), 1);
    assert_eq!(ops[0], PortOp::WriteByte(Port::MasterPICCommand, EOI));
}

#[test]
fn remap_emits_full_init_sequence() {
    let ops = PIC::remap(32, 40);
    let expected = vec![
        PortOp::WriteByte(Port::MasterPICCommand, 0x11),
        io_delay(),
        PortOp::WriteByte(Port::SlavePICCommand, 0x11),
        io_delay(),
        PortOp::WriteByte(Port::MasterPICData, 32),
        io_delay(),
        PortOp::WriteByte(Port::SlavePICData, 40),
        io_delay(),
        PortOp::WriteByte(Port::MasterPICData, 0x04),
        io_delay(),
        PortOp::WriteByte(Port::SlavePICData, 2),
        io_delay(),
        PortOp::WriteByte(Port::MasterPICData, 0x01),
        io_delay(),
        PortOp::WriteByte(Port::SlavePICData, 0x01),
        io_delay(),
        PortOp::WriteByte(Port::MasterPICData, 0),
        PortOp::WriteByte(Port::SlavePICData, 0),
    ];
    assert_eq!(ops, expected);
}

#[test]
fn remap_32_40_programs_vector_offsets() {
    // The two vector-offset words (ICW2) carry 32 and 40: IRQ0 arrives as
    // vector 32 and IRQ15 as vector 47, clear of the 32 exception vectors.
    let ops = PIC::remap(32, 40);
    assert_eq!(ops[4], PortOp::WriteByte(Port::MasterPICData, 32));
    assert_eq!(ops[6], PortOp::WriteByte(Port::SlavePICData, 40));
}

#[test]
fn port_numbers_match_hardware() {
    assert_eq!(Port::MBHexDisplay.number(), 0x0080);
    assert_eq!(Port::MasterPICCommand.number(), 0x0020);
    assert_eq!(Port::MasterPICData.number(), 0x0021);
    assert_eq!(Port::SlavePICCommand.number(), 0x00A0);
    assert_eq!(Port::SlavePICData.number(), 0x00A1);
    assert_eq!(Port::PS2DataPort.number(), 0x0060);
    assert_eq!(Port::PS2StatusCmdReg.number(), 0x0064);
}

#[test]
fn io_wait_appends_the_delay_write() {
    let mut ops = vec![PortOp::WriteByte(Port::MasterPICCommand, EOI)];
    kernel_core::ports::io_wait(&mut ops);
    assert_eq!(ops.len(), 2);
    assert_eq!(ops[1], io_delay());
}
