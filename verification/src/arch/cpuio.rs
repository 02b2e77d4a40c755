//! Typed descriptions of x86 port I/O.
//!
//! The `in` and `out` instructions themselves are privileged and live with the
//! caller. The types here say which port an access goes to and what travels
//! over it, so that a driver can be written as a function from the values it
//! has read to the sequence of values it wants written.

use core::marker::PhantomData;
use vstd::prelude::*;

verus! {

/// Operand size of a port access.
#[derive(Clone, Copy, Debug, PartialEq, Eq, Structural)]
pub enum PortWidth {
    /// 8 bits (`inb` / `outb`).
    Byte,
    /// 16 bits (`inw` / `outw`).
    Word,
    /// 32 bits (`inl` / `outl`).
    Long,
}

/// One `out` instruction: the low `width` bits of `data` go to `port`.
#[derive(Clone, Copy, Debug, PartialEq, Eq, Structural)]
pub struct PortWrite {
    pub port: u16,
    pub width: PortWidth,
    pub data: u32,
}

/// One `in` instruction: `width` bits come from `port`.
#[derive(Clone, Copy, Debug, PartialEq, Eq, Structural)]
pub struct PortRead {
    pub port: u16,
    pub width: PortWidth,
}

/// The write of one byte to `port`.
pub open spec fn byte_write(port: u16, data: u8) -> PortWrite {
    PortWrite { port, width: PortWidth::Byte, data: data as u32 }
}

/// A value that can travel over an I/O port.
pub trait InOut: Copy + Sized {
    /// Operand size of an access with this type.
    spec fn spec_width() -> PortWidth;

    /// The value as it appears on the bus, zero-extended to 32 bits.
    spec fn spec_bits(self) -> u32;

    /// Write `data` to the specified port.
    fn port_out(port: u16, data: Self) -> (write: PortWrite)
        ensures
            write == (PortWrite { port, width: Self::spec_width(), data: data.spec_bits() }),
    ;

    /// Read data from the specified port.
    fn port_in(port: u16) -> (read: PortRead)
        ensures
            read == (PortRead { port, width: Self::spec_width() }),
    ;
}

impl InOut for u8 {
    open spec fn spec_width() -> PortWidth {
        PortWidth::Byte
    }

    open spec fn spec_bits(self) -> u32 {
        self as u32
    }

    fn port_out(port: u16, data: u8) -> (write: PortWrite) {
        PortWrite { port, width: PortWidth::Byte, data: data as u32 }
    }

    fn port_in(port: u16) -> (read: PortRead) {
        PortRead { port, width: PortWidth::Byte }
    }
}

impl InOut for u16 {
    open spec fn spec_width() -> PortWidth {
        PortWidth::Word
    }

    open spec fn spec_bits(self) -> u32 {
        self as u32
    }

    fn port_out(port: u16, data: u16) -> (write: PortWrite) {
        PortWrite { port, width: PortWidth::Word, data: data as u32 }
    }

    fn port_in(port: u16) -> (read: PortRead) {
        PortRead { port, width: PortWidth::Word }
    }
}

impl InOut for u32 {
    open spec fn spec_width() -> PortWidth {
        PortWidth::Long
    }

    open spec fn spec_bits(self) -> u32 {
        self
    }

    fn port_out(port: u16, data: u32) -> (write: PortWrite) {
        PortWrite { port, width: PortWidth::Long, data }
    }

    fn port_in(port: u16) -> (read: PortRead) {
        PortRead { port, width: PortWidth::Long }
    }
}

/// A wrapper for an I/O port carrying values of type `T`.
///
/// This is the port to use for hardware that cannot violate memory safety
/// whatever is written to it, such as the VGA cursor registers.
#[derive(Debug)]
pub struct Port<T: InOut> {
    port: u16,
    phantom: PhantomData<T>,
}

impl<T: InOut> Port<T> {
    /// The port's address in the I/O space.
    pub closed spec fn address(&self) -> u16 {
        self.port
    }

    /// Create a new I/O port.
    pub fn new(port: u16) -> (result: Self)
        ensures
            result.address() == port,
    {
        Port { port, phantom: PhantomData }
    }

    /// Write data to the port.
    pub fn write(&self, data: T) -> (write: PortWrite)
        ensures
            write == (PortWrite {
                port: self.address(),
                width: T::spec_width(),
                data: data.spec_bits(),
            }),
    {
        T::port_out(self.port, data)
    }

    /// Read data from the port.
    pub fn read(&self) -> (read: PortRead)
        ensures
            read == (PortRead { port: self.address(), width: T::spec_width() }),
    {
        T::port_in(self.port)
    }
}

/// A wrapper for an I/O port carrying values of type `T`, for hardware that
/// can corrupt memory or the machine state when it is driven wrongly, such as
/// the interrupt controllers.
pub struct UnsafePort<T: InOut> {
    port: u16,
    phantom: PhantomData<T>,
}

impl<T: InOut> UnsafePort<T> {
    /// The port's address in the I/O space.
    pub closed spec fn address(&self) -> u16 {
        self.port
    }

    /// Create a new I/O port.
    pub fn new(port: u16) -> (result: Self)
        ensures
            result.address() == port,
    {
        UnsafePort { port, phantom: PhantomData }
    }

    /// Read data from the port.
    pub fn read(&self) -> (read: PortRead)
        ensures
            read == (PortRead { port: self.address(), width: T::spec_width() }),
    {
        T::port_in(self.port)
    }

    /// Write data to the port.
    pub fn write(&self, data: T) -> (write: PortWrite)
        ensures
            write == (PortWrite {
                port: self.address(),
                width: T::spec_width(),
                data: data.spec_bits(),
            }),
    {
        T::port_out(self.port, data)
    }
}

} // verus!
