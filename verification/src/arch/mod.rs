//! Support for the x86-64 architecture.

pub mod bytes;
pub mod cpuio;
pub mod descriptor_tables;
pub mod interrupts;
pub mod irq;
pub mod keyboard;
pub mod pic;
pub mod serial;
pub mod text;
pub mod vga;
