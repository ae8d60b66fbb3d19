//! The interrupt service layer: the table of 256 gates, the exception
//! entry point, and the IRQ entry point with its registration table and
//! event queue.
//!
//! The runtime's trampolines snapshot the registers and call one of two
//! entry points: [`InterruptState::isr_handler`] for CPU exceptions
//! (vectors 0..=31, fatal by design) and [`InterruptState::irq_handler`]
//! for remapped hardware interrupts (vectors 32..=47).

use vstd::prelude::*;
use crate::event::{EventBuf, SysEvent, spec_push};
use crate::idt::{IDTGate, spec_empty_gate, spec_gate_for};
use crate::interrupt_handlers::{IrqHandler, spec_handle};
use crate::pic::{PIC, eoi_ops, remap_ops};
use crate::ports::PortOp;

verus! {

/// Number of gates in the descriptor table.
pub const NUM_IDT_GATES: usize = 256;

/// Gates that point at real trampolines: 32 exceptions plus 16 IRQs.
pub const NUM_USED_GATES: usize = 48;

/// Number of IRQ lines behind the two PIC controllers.
pub const NUM_IRQS: usize = 16;

/// The vector the master controller's lines are remapped to.
pub const IRQ_VECTOR_OFFSET1: u8 = 32;

/// The vector the slave controller's lines are remapped to.
pub const IRQ_VECTOR_OFFSET2: u8 = 40;

/// The register snapshot a trampoline captures at interrupt entry:
/// the data segment, the general-purpose registers, the vector number and
/// error code it pushed, and the interrupted context the CPU saved.
#[derive(Clone, Copy, Debug, PartialEq, Eq, Structural)]
pub struct Registers {
    pub ds: u32,
    pub edi: u32,
    pub esi: u32,
    pub ebp: u32,
    pub esp: u32,
    pub ebx: u32,
    pub edx: u32,
    pub ecx: u32,
    pub eax: u32,
    pub int_no: u32,
    pub err_code: u32,
    pub eip: u32,
    pub cs: u32,
    pub eflags: u32,
    pub useresp: u32,
    pub ss: u32,
}

/// The name printed for each of the 32 CPU exception vectors.
pub open spec fn spec_exception_message(vector: int) -> Seq<char> {
    if vector == 0 {
        "Division By Zero"@
    } else if vector == 1 {
        "Debug"@
    } else if vector == 2 {
        "Non Maskable Interrupt"@
    } else if vector == 3 {
        "Breakpoint"@
    } else if vector == 4 {
        "Into Detected Overflow"@
    } else if vector == 5 {
        "Out of Bounds"@
    } else if vector == 6 {
        "Invalid Opcode"@
    } else if vector == 7 {
        "No Coprocessor"@
    } else if vector == 8 {
        "Double Fault"@
    } else if vector == 9 {
        "Coprocessor Segment Overrun"@
    } else if vector == 10 {
        "Bad TSS"@
    } else if vector == 11 {
        "Segment Not Present"@
    } else if vector == 12 {
        "Stack Fault"@
    } else if vector == 13 {
        "General Protection Fault"@
    } else if vector == 14 {
        "Page Fault"@
    } else if vector == 15 {
        "Unknown Interrupt"@
    } else if vector == 16 {
        "Coprocessor Fault"@
    } else if vector == 17 {
        "Alignment Check"@
    } else if vector == 18 {
        "Machine Check"@
    } else {
        "Reserved"@
    }
}

/// The exception name for a vector, `None` for any vector outside the
/// 32-entry message table. The lookup is total: even vectors that should
/// never reach it are answered without touching memory out of bounds.
pub fn exception_message(vector: u32) -> (r: Option<&'static str>)
    ensures
        (r is Some) <==> vector < 32,
        vector < 32 ==> r->0@ == spec_exception_message(vector as int),
{
    match vector {
        0 => Some("Division By Zero"),
        1 => Some("Debug"),
        2 => Some("Non Maskable Interrupt"),
        3 => Some("Breakpoint"),
        4 => Some("Into Detected Overflow"),
        5 => Some("Out of Bounds"),
        6 => Some("Invalid Opcode"),
        7 => Some("No Coprocessor"),
        8 => Some("Double Fault"),
        9 => Some("Coprocessor Segment Overrun"),
        10 => Some("Bad TSS"),
        11 => Some("Segment Not Present"),
        12 => Some("Stack Fault"),
        13 => Some("General Protection Fault"),
        14 => Some("Page Fault"),
        15 => Some("Unknown Interrupt"),
        16 => Some("Coprocessor Fault"),
        17 => Some("Alignment Check"),
        18 => Some("Machine Check"),
        c if c < 32 => Some("Reserved"),
        _ => None,
    }
}

/// Every exception vector has a message: looking any of the 32 vectors up
/// never leaves the fixed table.
pub proof fn lemma_exception_message_total(vector: u32)
    requires
        vector < 32,
    ensures
        spec_exception_message(vector as int).len() > 0,
{
    reveal_strlit("Division By Zero");
    reveal_strlit("Debug");
    reveal_strlit("Non Maskable Interrupt");
    reveal_strlit("Breakpoint");
    reveal_strlit("Into Detected Overflow");
    reveal_strlit("Out of Bounds");
    reveal_strlit("Invalid Opcode");
    reveal_strlit("No Coprocessor");
    reveal_strlit("Double Fault");
    reveal_strlit("Coprocessor Segment Overrun");
    reveal_strlit("Bad TSS");
    reveal_strlit("Segment Not Present");
    reveal_strlit("Stack Fault");
    reveal_strlit("General Protection Fault");
    reveal_strlit("Page Fault");
    reveal_strlit("Unknown Interrupt");
    reveal_strlit("Coprocessor Fault");
    reveal_strlit("Alignment Check");
    reveal_strlit("Machine Check");
    reveal_strlit("Reserved");
}

/// Everything `set_isr` prepares for the runtime: the 256 gate values,
/// the table register limit, and the PIC remap transcript to execute
/// before the table is loaded.
pub struct IdtSetup {
    /// All 256 gates, the first 48 pointing at the trampolines.
    pub gates: Vec<IDTGate>,
    /// Table register limit: the table's byte size minus one.
    pub limit: u16,
    /// The PIC initialisation writes that remap IRQs to vectors 32..=47.
    pub pic_ops: Vec<PortOp>,
}

/// Build the descriptor table contents and the PIC remap sequence.
/// `handler_addrs` holds the entry addresses of the 48 trampolines:
/// 32 exception stubs, then 16 IRQ stubs. Every remaining gate keeps the
/// empty value, and the limit describes the full 8-byte-per-gate table.
pub fn set_isr(handler_addrs: &Vec<usize>) -> (r: IdtSetup)
    requires
        handler_addrs@.len() == NUM_USED_GATES,
    ensures
        r.gates@.len() == NUM_IDT_GATES,
        forall|i: int|
            0 <= i < NUM_USED_GATES ==> r.gates@[i] == spec_gate_for(handler_addrs@[i]),
        forall|i: int| NUM_USED_GATES <= i < NUM_IDT_GATES ==> r.gates@[i] == spec_empty_gate(),
        r.limit == 8 * NUM_IDT_GATES - 1,
        r.pic_ops@ == remap_ops(IRQ_VECTOR_OFFSET1, IRQ_VECTOR_OFFSET2),
{
    let mut gates: Vec<IDTGate> = Vec::new();
    let mut i: usize = 0;
    while i < NUM_USED_GATES
        invariant
            i <= NUM_USED_GATES,
            gates@.len() == i,
            handler_addrs@.len() == NUM_USED_GATES,
            forall|j: int| 0 <= j < i ==> gates@[j] == spec_gate_for(handler_addrs@[j]),
        decreases NUM_USED_GATES - i,
    {
        let mut gate = IDTGate::new();
        gate.set(handler_addrs[i]);
        gates.push(gate);
        i = i + 1;
    }
    while i < NUM_IDT_GATES
        invariant
            NUM_USED_GATES <= i <= NUM_IDT_GATES,
            gates@.len() == i,
            handler_addrs@.len() == NUM_USED_GATES,
            forall|j: int| 0 <= j < NUM_USED_GATES ==> gates@[j] == spec_gate_for(handler_addrs@[j]),
            forall|j: int| NUM_USED_GATES <= j < i ==> gates@[j] == spec_empty_gate(),
        decreases NUM_IDT_GATES - i,
    {
        gates.push(IDTGate::new());
        i = i + 1;
    }
    let pic_ops = PIC::remap(IRQ_VECTOR_OFFSET1, IRQ_VECTOR_OFFSET2);
    IdtSetup { gates, limit: (8 * NUM_IDT_GATES - 1) as u16, pic_ops }
}

/// The mutable state the interrupt layer owns: the per-IRQ registration
/// table, the event queue, and the vector of the last interrupt taken.
pub struct InterruptState {
    /// Registration table indexed by IRQ number; unregistered lines hold
    /// the no-op handler.
    pub handlers: Vec<IrqHandler>,
    /// The queue the mainline loop drains.
    pub events: EventBuf,
    /// Vector of the last interrupt recorded, zero after a take or clear.
    pub last_interrupt: u32,
}

impl InterruptState {
    /// Structure invariant: one handler per IRQ line, and a well-formed
    /// queue.
    pub open spec fn wf(self) -> bool {
        &&& self.handlers@.len() == NUM_IRQS
        &&& self.events.wf()
    }

    /// Boot state: the keyboard handler on IRQ1, the no-op handler
    /// everywhere else, an empty queue, no interrupt recorded.
    pub fn new() -> (r: Self)
        ensures
            r.wf(),
            r.handlers@[1] == IrqHandler::Keyboard,
            forall|i: int| 0 <= i < NUM_IRQS && i != 1 ==> r.handlers@[i] == IrqHandler::Null,
            r.events.len == 0,
            r.events.queued() == Seq::<SysEvent>::empty(),
            r.last_interrupt == 0,
    {
        let mut handlers: Vec<IrqHandler> = Vec::new();
        let mut i: usize = 0;
        while i < NUM_IRQS
            invariant
                i <= NUM_IRQS,
                handlers@.len() == i,
                forall|j: int| 0 <= j < i && j != 1 ==> handlers@[j] == IrqHandler::Null,
                i > 1 ==> handlers@[1] == IrqHandler::Keyboard,
            decreases NUM_IRQS - i,
        {
            if i == 1 {
                handlers.push(IrqHandler::Keyboard);
            } else {
                handlers.push(IrqHandler::Null);
            }
            i = i + 1;
        }
        InterruptState { handlers, events: EventBuf::new(), last_interrupt: 0 }
    }

    /// Install a handler for one IRQ line.
    pub fn register_handler(&mut self, irq: usize, handler: IrqHandler)
        requires
            old(self).wf(),
            irq < NUM_IRQS,
        ensures
            final(self).wf(),
            final(self).handlers@ == old(self).handlers@.update(irq as int, handler),
            final(self).events == old(self).events,
            final(self).last_interrupt == old(self).last_interrupt,
    {
        self.handlers.set(irq, handler);
    }

    /// The exception entry point, for vectors 0..=31: record the vector
    /// and hand back the message to print. Exceptions are fatal by
    /// design — the runtime prints the message and halts forever. The
    /// lookup is bounds-checked, so even a vector that should never reach
    /// it is answered.
    pub fn isr_handler(&mut self, regs: &Registers) -> (r: Option<&'static str>)
        ensures
            (r is Some) <==> regs.int_no < 32,
            regs.int_no < 32 ==> r->0@ == spec_exception_message(regs.int_no as int),
            final(self).last_interrupt == regs.int_no,
            final(self).events == old(self).events,
            final(self).handlers == old(self).handlers,
    {
        self.last_interrupt = regs.int_no;
        exception_message(regs.int_no)
    }

    /// The IRQ entry point, for vectors 32..=47. The PIC acknowledgment
    /// comes back first and unconditionally, so later interrupts can be
    /// delivered even when the handler is a no-op: the runtime must write
    /// it before anything else. For IRQs other than 0 the entry records
    /// the vector, runs the registered handler, and queues the event it
    /// produces, overwriting the oldest unread event when the queue is
    /// full.
    pub fn irq_handler(&mut self, regs: &Registers) -> (ops: Vec<PortOp>)
        requires
            old(self).wf(),
            32 <= regs.int_no < 48,
            old(self).events.len < usize::MAX,
        ensures
            final(self).wf(),
            ops@ == eoi_ops((regs.int_no - 32) as u8),
            final(self).handlers == old(self).handlers,
            regs.int_no == 32 ==> *final(self) == *old(self),
            regs.int_no != 32 ==> final(self).last_interrupt == regs.int_no,
            regs.int_no != 32 ==> {
                let produced = spec_handle(old(self).handlers@[regs.int_no - 32]);
                match produced {
                    Some(event) => final(self).events.queued() == spec_push(
                        old(self).events.queued(),
                        event,
                    ) && final(self).events.len == old(self).events.len + 1,
                    None => final(self).events == old(self).events,
                }
            },
    {
        let irq = (regs.int_no - 32) as u8;
        let ops = PIC::send_eoi(irq);
        if irq != 0 {
            self.last_interrupt = regs.int_no;
            let handler = self.handlers[irq as usize];
            if let Some(event) = handler.handle(regs) {
                self.events.push(event);
            }
        }
        ops
    }

    /// Drain the event queue: every unread event, oldest first, leaving
    /// the queue empty. Mainline context must make the call atomic with
    /// respect to interrupts.
    pub fn empty_event_buffer(&mut self) -> (events: Vec<SysEvent>)
        requires
            old(self).wf(),
        ensures
            final(self).wf(),
            events@ == old(self).events.queued(),
            final(self).events.len == 0,
            final(self).events.queued() == Seq::<SysEvent>::empty(),
            final(self).handlers == old(self).handlers,
            final(self).last_interrupt == old(self).last_interrupt,
    {
        self.events.empty_event_buffer()
    }

    /// Take and clear the vector of the last interrupt.
    pub fn last_interrupt(&mut self) -> (r: u32)
        ensures
            r == old(self).last_interrupt,
            final(self).last_interrupt == 0,
            final(self).events == old(self).events,
            final(self).handlers == old(self).handlers,
    {
        let li = self.last_interrupt;
        self.last_interrupt = 0;
        li
    }

    /// The outcome of a guarded port write: called after
    /// [`InterruptState::clear_last_interrupt`] and the write itself, it
    /// reports the vector of any interrupt the write provoked, and clears
    /// the record either way.
    pub fn write_fault(&mut self) -> (r: Result<(), u32>)
        ensures
            final(self).last_interrupt == 0,
            final(self).events == old(self).events,
            final(self).handlers == old(self).handlers,
            (r is Err) <==> old(self).last_interrupt > 0,
            r matches Err(vector) ==> vector == old(self).last_interrupt,
    {
        let vector = self.last_interrupt();
        if vector > 0 {
            return Err(vector);
        }
        Ok(())
    }

    /// Clear the record of the last interrupt.
    pub fn clear_last_interrupt(&mut self)
        ensures
            final(self).last_interrupt == 0,
            final(self).events == old(self).events,
            final(self).handlers == old(self).handlers,
    {
        self.last_interrupt = 0;
    }
}

} // verus!
