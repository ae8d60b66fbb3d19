//! Verified core of a small x86 kernel's interrupt subsystem.
//!
//! The crate covers the hardware-facing protocol logic: building the
//! interrupt descriptor table, the 8259 PIC remap and end-of-interrupt
//! sequences, the event ring buffer that carries work from interrupt
//! context to the mainline loop, the PS/2 keyboard identification
//! handshake, and the scan-code decoder.
//!
//! Raw port accesses never happen here. Functions that drive hardware
//! return the exact sequence of port operations to perform, and functions
//! that depend on bytes read from a port take those bytes as arguments.
//! The surrounding unverified runtime performs the operations.

pub mod acpi;
pub mod decimal_printable;
pub mod event;
pub mod hex_printable;
pub mod idt;
pub mod interrupt_handlers;
pub mod isr;
pub mod kernel;
pub mod keyboard_driver;
pub mod mem;
pub mod pic;
pub mod pre_boot;
pub mod ports;
pub mod ps2;
pub mod static_str;
pub mod util;
pub mod vga;
pub mod vga_driver;
