//! Per-IRQ handlers and the capability type the registration table holds.
//!
//! Instead of raw function-pointer slots, the dispatcher's table maps each
//! IRQ number to an [`IrqHandler`] capability with a single `handle`
//! operation; unregistered entries default to the no-op handler.

use vstd::prelude::*;
use crate::event::SysEvent;
use crate::isr::Registers;

verus! {

/// Handler for keyboard interrupts (IRQ1): report keyboard activity for
/// the mainline loop to pick up.
pub fn keyboard_handler(_regs: Registers) -> (r: Option<SysEvent>)
    ensures
        r == Some(SysEvent::Keyboard),
{
    Some(SysEvent::Keyboard)
}

/// Handler for IRQs nothing is registered for: produce no event.
pub fn null_handler(_regs: Registers) -> (r: Option<SysEvent>)
    ensures
        r is None,
{
    None
}

/// A registered handler capability: one `handle` operation returning an
/// optional event.
#[derive(Clone, Copy, Debug, PartialEq, Eq, Structural)]
pub enum IrqHandler {
    Null,
    Keyboard,
}

/// The event each handler produces.
pub open spec fn spec_handle(h: IrqHandler) -> Option<SysEvent> {
    match h {
        IrqHandler::Null => None,
        IrqHandler::Keyboard => Some(SysEvent::Keyboard),
    }
}

impl IrqHandler {
    /// Run the handler on the register snapshot of the interrupt.
    pub fn handle(&self, regs: &Registers) -> (r: Option<SysEvent>)
        ensures
            r == spec_handle(*self),
    {
        match self {
            IrqHandler::Null => null_handler(*regs),
            IrqHandler::Keyboard => keyboard_handler(*regs),
        }
    }
}

} // verus!
