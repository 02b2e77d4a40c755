//! Drivers that stand on their own.

pub mod vga_buffer;
