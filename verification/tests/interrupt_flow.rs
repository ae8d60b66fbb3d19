use kernel_core::event::SysEvent;
use kernel_core::interrupt_handlers::{keyboard_handler, null_handler, IrqHandler};
use kernel_core::isr::{exception_message, InterruptState, Registers};
use kernel_core::pic::EOI;
use kernel_core::ports::{Port, PortOp};

fn regs_with_vector(int_no: u32) -> Registers {
    Registers {
        ds: 0,
        edi: 0,
        esi: 0,
        ebp: 0,
        esp: 0,
        ebx: 0,
        edx: 0,
        ecx: 0,
        eax: 0,
        int_no,
        err_code: 0,
        eip: 0,
        cs: 0,
        eflags: 0,
        useresp: 0,
        ss: 0,
    }
}

#[test]
fn every_exception_vector_has_a_message() {
    for v in 0..32u32 {
        assert!(exception_message(v).is_some());
    }
    assert_eq!(exception_message(32), None);
    assert_eq!(exception_message(0xffff_ffff), None);
}

#[test]
fn exception_messages_name_the_faults() {
    assert_eq!(exception_message(0), Some("Division By Zero"));
    assert_eq!(exception_message(8), Some("Double Fault"));
    assert_eq!(exception_message(13), Some("General Protection Fault"));
    assert_eq!(exception_message(14), Some("Page Fault"));
    assert_eq!(exception_message(19), Some("Reserved"));
    assert_eq!(exception_message(31), Some("Reserved"));
}

#[test]
fn exception_entry_records_the_vector() {
    let mut st = InterruptState::new();
    let msg = st.isr_handler(&regs_with_vector(13));
    assert_eq!(msg, Some("General Protection Fault"));
    assert_eq!(st.last_interrupt(), 13);
    assert_eq!(st.last_interrupt(), 0);
}

#[test]
fn keyboard_irq_queues_an_event_and_acknowledges() {
    let mut st = InterruptState::new();
    let ops = st.irq_handler(&regs_with_vector(33));
    assert_eq!(ops, vec![PortOp::WriteByte(Port::MasterPICCommand, EOI)]);
    assert_eq!(st.last_interrupt, 33);
    let events = st.empty_event_buffer();
    assert_eq!(events, vec![SysEvent::Keyboard]);
}

#[test]
fn irq0_only_acknowledges() {
    let mut st = InterruptState::new();
    let ops = st.irq_handler(&regs_with_vector(32));
    assert_eq!(ops, vec![PortOp::WriteByte(Port::MasterPICCommand, EOI)]);
    assert_eq!(st.last_interrupt, 0);
    assert_eq!(st.empty_event_buffer().len(), 0);
}

#[test]
fn cascaded_irq_acknowledges_slave_then_master() {
    let mut st = InterruptState::new();
    let ops = st.irq_handler(&regs_with_vector(40));
    assert_eq!(
        ops,
        vec![
            PortOp::WriteByte(Port::SlavePICCommand, EOI),
            PortOp::WriteByte(Port::MasterPICCommand, EOI),
        ]
    );
    // IRQ 8 has no handler registered: acknowledged, but no event queued.
    assert_eq!(st.empty_event_buffer().len(), 0);
    assert_eq!(st.last_interrupt, 40);
}

#[test]
fn registering_a_handler_routes_its_irq() {
    let mut st = InterruptState::new();
    st.register_handler(5, IrqHandler::Keyboard);
    st.irq_handler(&regs_with_vector(37));
    assert_eq!(st.empty_event_buffer(), vec![SysEvent::Keyboard]);
}

#[test]
fn unregistered_irq_produces_no_event() {
    let mut st = InterruptState::new();
    st.irq_handler(&regs_with_vector(35));
    assert_eq!(st.empty_event_buffer().len(), 0);
}

#[test]
fn handlers_report_their_events() {
    let regs = regs_with_vector(33);
    assert_eq!(keyboard_handler(regs), Some(SysEvent::Keyboard));
    assert_eq!(null_handler(regs), None);
    assert_eq!(IrqHandler::Keyboard.handle(&regs), Some(SysEvent::Keyboard));
    assert_eq!(IrqHandler::Null.handle(&regs), None);
}

#[test]
fn clear_last_interrupt_resets_the_record() {
    let mut st = InterruptState::new();
    st.irq_handler(&regs_with_vector(33));
    st.clear_last_interrupt();
    assert_eq!(st.last_interrupt, 0);
}

#[test]
fn write_fault_reports_the_provoked_vector() {
    let mut st = InterruptState::new();
    st.clear_last_interrupt();
    assert_eq!(st.write_fault(), Ok(()));
    st.irq_handler(&regs_with_vector(33));
    assert_eq!(st.write_fault(), Err(33));
    assert_eq!(st.write_fault(), Ok(()));
}
