//! The kernel-context value: every driver the mainline loop works with,
//! owned in one place and threaded through explicitly instead of living
//! in process-wide variables.

use vstd::prelude::*;
use crate::event::SysEvent;
use crate::keyboard_driver::{KeyboardDriver, spec_key, spec_shift_after};
use crate::mem::MemoryManager;
use crate::pre_boot::MemSpec;
use crate::ps2::{KeyboardInitError, spec_identify};
use crate::vga_driver::VGAText;

verus! {

/// Errors of the kernel context itself.
#[derive(Clone, Copy, Debug, PartialEq, Eq, Structural)]
pub enum KernelError {
    NotReady,
    OutOfBounds,
    Busy,
}

/// The kernel's owned components.
pub struct Kernel {
    pub mem: MemoryManager,
    pub keyboard_driver: KeyboardDriver,
    pub vga_driver: VGAText,
}

impl Kernel {
    /// The drivers' invariants, together.
    pub open spec fn wf(self) -> bool {
        self.keyboard_driver.wf()
    }

    /// Assemble the kernel at boot: a fresh allocator over the decoded
    /// memory map, and the keyboard driver initialised from the
    /// identification handshake's data-port reads. Fails exactly when the
    /// handshake fails.
    pub fn new(mem_spec: MemSpec, identify_reads: &Vec<u8>) -> (r: Result<Self, KeyboardInitError>)
        requires
            identify_reads@.len() >= 4,
        ensures
            (r is Ok) == (spec_identify(identify_reads@) is Ok),
            r matches Ok(k) ==> {
                &&& k.wf()
                &&& k.mem.free_mem_addr == crate::mem::FREE_MEM_START_ADDR
                &&& k.mem.mem_spec == mem_spec
                &&& spec_identify(identify_reads@) matches Ok(pair)
                    && k.keyboard_driver.b1 == pair.0 && k.keyboard_driver.b2 == pair.1
                &&& k.keyboard_driver.shift_offset
                    == crate::keyboard_driver::LOWER_CASE_OFFSET
            },
            r matches Err(e) ==> spec_identify(identify_reads@) == Err::<(u8, u8), _>(e),
    {
        let mem = MemoryManager::init(mem_spec);
        let keyboard_drv = match KeyboardDriver::initialise(identify_reads) {
            Ok(drv) => drv,
            Err(e) => {
                return Err(e);
            },
        };
        Ok(Self { mem, keyboard_driver: keyboard_drv, vga_driver: VGAText {} })
    }

    /// One mainline dispatch step: for a keyboard event, decode the scan
    /// code that was read from the data port into at most one character
    /// for the consumer.
    pub fn handle_event(&mut self, event: SysEvent, scan_code: u8) -> (r: Option<u8>)
        requires
            old(self).wf(),
        ensures
            final(self).wf(),
            final(self).mem == old(self).mem,
            final(self).keyboard_driver.b1 == old(self).keyboard_driver.b1,
            final(self).keyboard_driver.b2 == old(self).keyboard_driver.b2,
            event is Keyboard ==> r == spec_key(
                old(self).keyboard_driver.shift_offset,
                scan_code,
            ),
            event is Keyboard ==> final(self).keyboard_driver.shift_offset == spec_shift_after(
                old(self).keyboard_driver.shift_offset,
                scan_code,
            ),
    {
        match event {
            SysEvent::Keyboard => self.keyboard_driver.keyboard_interrupt_handler(scan_code),
        }
    }

    /// The memory manager.
    pub fn memory_manager(&mut self) -> (r: &mut MemoryManager)
        ensures
            *r == old(self).mem,
            *final(self) == (Kernel { mem: *final(r), ..*old(self) }),
    {
        &mut self.mem
    }

    /// The keyboard driver.
    pub fn keyboard_driver(&mut self) -> (r: &mut KeyboardDriver)
        ensures
            *r == old(self).keyboard_driver,
            *final(self) == (Kernel { keyboard_driver: *final(r), ..*old(self) }),
    {
        &mut self.keyboard_driver
    }

    /// The VGA text driver.
    pub fn vga_driver(&mut self) -> (r: &mut VGAText)
        ensures
            *r == old(self).vga_driver,
            *final(self) == (Kernel { vga_driver: *final(r), ..*old(self) }),
    {
        &mut self.vga_driver
    }
}

} // verus!
