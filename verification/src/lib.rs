//! Interrupt and exception layer of a small single-core kernel, with the text
//! surface it reports to.

pub mod gdt;
pub mod idt;
pub mod interrupts;
pub mod keyboard;
pub mod surface;
pub mod vga_buffer;
