//! Basic COM serial port driver.
//!
//! The driver gives the writes that configure the port and that send text.
//! The caller issues them, and before each write to the data register it
//! polls the line status until [`SerialPort::can_transmit`] says yes.

use crate::arch::cpuio::{PortRead, PortWidth, PortWrite, UnsafePort, byte_write};
use vstd::prelude::*;
use vstd::string::StringSliceAdditionalSpecFns;

verus! {

/// Base address of the first serial port.
pub const COM1_BASE: u16 = 0x03F8;

/// The divisor that sets the baud rate.
pub const BAUD_DIVISOR: u16 = 2;

/// Bit of the line-control register that makes the first two registers hold
/// the baud divisor.
pub const DIVISOR_LATCH: u8 = 0x80;

/// Line control for 8 bits, no parity, one stop bit.
pub const MODE_8N1: u8 = 0x03;

/// FIFO control: enabled, both cleared, threshold of 14 bytes.
pub const FIFO_SETUP: u8 = 0xC7;

/// Modem control: interrupts enabled, RTS and DSR on.
pub const MODEM_SETUP: u8 = 0x0B;

/// Bit of the line status that says that the transmitter takes a byte.
pub const TRANSMIT_EMPTY: u8 = 0x20;

/// Each COM serial port has 8 data registers, offset from the port address.
/// The first two have dual use depending on the divisor-latch bit of the
/// `LineControl` register.
#[derive(Clone, Copy, Debug, PartialEq, Eq, Structural)]
pub enum SerialRegister {
    DataOrBaudDivisorLowByte,
    InterruptEnableOrBaudDivisorHighByte,
    InterruptIdentificationAndFifo,
    LineControl,
    ModemControl,
    LineStatus,
    ModemStatus,
    Scratch,
}

impl SerialRegister {
    /// The register's distance from the port's base address.
    pub open spec fn spec_offset(self) -> u16 {
        match self {
            SerialRegister::DataOrBaudDivisorLowByte => 0,
            SerialRegister::InterruptEnableOrBaudDivisorHighByte => 1,
            SerialRegister::InterruptIdentificationAndFifo => 2,
            SerialRegister::LineControl => 3,
            SerialRegister::ModemControl => 4,
            SerialRegister::LineStatus => 5,
            SerialRegister::ModemStatus => 6,
            SerialRegister::Scratch => 7,
        }
    }

    /// The register's distance from the port's base address.
    pub fn offset(self) -> (offset: u16)
        ensures
            offset == self.spec_offset(),
    {
        match self {
            SerialRegister::DataOrBaudDivisorLowByte => 0,
            SerialRegister::InterruptEnableOrBaudDivisorHighByte => 1,
            SerialRegister::InterruptIdentificationAndFifo => 2,
            SerialRegister::LineControl => 3,
            SerialRegister::ModemControl => 4,
            SerialRegister::LineStatus => 5,
            SerialRegister::ModemStatus => 6,
            SerialRegister::Scratch => 7,
        }
    }
}

/// The writes that configure the port at `base`: interrupts off, the baud
/// divisor set behind the divisor latch, the line control put back and then
/// set to 8N1, the FIFOs and the modem lines set up. `saved` is what the
/// line-control register held before.
pub open spec fn init_sequence(base: u16, saved: u8) -> Seq<PortWrite> {
    seq![
        byte_write((base + 1) as u16, 0x00),
        byte_write((base + 3) as u16, DIVISOR_LATCH | saved),
        byte_write(base, 2),
        byte_write((base + 1) as u16, 0),
        byte_write((base + 3) as u16, saved),
        byte_write((base + 3) as u16, MODE_8N1),
        byte_write((base + 2) as u16, FIFO_SETUP),
        byte_write((base + 4) as u16, MODEM_SETUP),
    ]
}

/// The writes that send `bytes` through the port at `base`, one write to the
/// data register for each.
pub open spec fn data_sequence(base: u16, bytes: Seq<u8>) -> Seq<PortWrite> {
    Seq::new(bytes.len(), |i: int| byte_write(base, bytes[i]))
}

/// A COM serial port wrapper.
pub struct SerialPort {
    base_address: u16,
}

impl SerialPort {
    /// Address of the port's first register.
    pub closed spec fn base(&self) -> u16 {
        self.base_address
    }

    /// A serial port whose eight registers start at `base_address`.
    pub fn new(base_address: u16) -> (port: Self)
        requires
            base_address + 7 <= u16::MAX,
        ensures
            port.base() == base_address,
    {
        SerialPort { base_address }
    }

    /// The port of register `reg`.
    fn port(&self, reg: SerialRegister) -> (port: UnsafePort<u8>)
        requires
            self.base() + 7 <= u16::MAX,
        ensures
            port.address() == self.base() + reg.spec_offset(),
    {
        UnsafePort::new(self.base_address + reg.offset())
    }

    /// The read of the line-control register, which comes before
    /// [`SerialPort::lazy_init`] and [`SerialPort::write_str`].
    pub fn read_line_control(&self) -> (read: PortRead)
        requires
            self.base() + 7 <= u16::MAX,
        ensures
            read == (PortRead { port: (self.base() + 3) as u16, width: PortWidth::Byte }),
    {
        self.port(SerialRegister::LineControl).read()
    }

    /// The read of the line-status register, to poll the transmitter.
    pub fn read_line_status(&self) -> (read: PortRead)
        requires
            self.base() + 7 <= u16::MAX,
        ensures
            read == (PortRead { port: (self.base() + 5) as u16, width: PortWidth::Byte }),
    {
        self.port(SerialRegister::LineStatus).read()
    }

    /// Configure the port, given what the line-control register holds.
    pub fn lazy_init(&self, saved_line_control_mode: u8) -> (writes: Vec<PortWrite>)
        requires
            self.base() + 7 <= u16::MAX,
        ensures
            writes@ == init_sequence(self.base(), saved_line_control_mode),
    {
        let mut writes: Vec<PortWrite> = Vec::new();
        // Disable all interrupts
        writes.push(self.port(SerialRegister::InterruptEnableOrBaudDivisorHighByte).write(0x00));

        // Enable the divisor latch (set baud rate divisor)
        writes.push(
            self.port(SerialRegister::LineControl).write(DIVISOR_LATCH | saved_line_control_mode),
        );

        // Set the divisor
        let baud_divisor: u16 = BAUD_DIVISOR;
        writes.push(
            self.port(SerialRegister::DataOrBaudDivisorLowByte).write((baud_divisor % 256) as u8),
        );
        writes.push(
            self.port(SerialRegister::InterruptEnableOrBaudDivisorHighByte).write(
                (baud_divisor / 256) as u8,
            ),
        );

        // Restore mode on LineControl register
        writes.push(self.port(SerialRegister::LineControl).write(saved_line_control_mode));

        // Set 8N1 mode (8 bits, no parity, one stop bit)
        writes.push(self.port(SerialRegister::LineControl).write(MODE_8N1));

        // Enable FIFO, clear them, with 14 byte threshold
        writes.push(self.port(SerialRegister::InterruptIdentificationAndFifo).write(FIFO_SETUP));

        // Configure modem: IRQs enabled, RTS/DSR on
        writes.push(self.port(SerialRegister::ModemControl).write(MODEM_SETUP));
        writes
    }

    /// Whether the transmitter takes the next byte, given what the
    /// line-status register holds.
    pub fn can_transmit(&self, line_status: u8) -> (ready: bool)
        ensures
            ready == (line_status & TRANSMIT_EMPTY != 0),
    {
        line_status & TRANSMIT_EMPTY != 0
    }

    /// Send `s`: the writes that configure the port, then one write to the
    /// data register for each byte of `s`.
    pub fn write_str(&self, s: &str, saved_line_control_mode: u8) -> (writes: Vec<PortWrite>)
        requires
            self.base() + 7 <= u16::MAX,
        ensures
            writes@ == init_sequence(self.base(), saved_line_control_mode) + data_sequence(
                self.base(),
                s.spec_bytes(),
            ),
    {
        self.write_bytes(s.as_bytes(), saved_line_control_mode)
    }

    /// Send `text`: the writes that configure the port, then one write to
    /// the data register for each byte of `text`.
    pub fn write_bytes(&self, text: &[u8], saved_line_control_mode: u8) -> (writes: Vec<PortWrite>)
        requires
            self.base() + 7 <= u16::MAX,
        ensures
            writes@ == init_sequence(self.base(), saved_line_control_mode) + data_sequence(
                self.base(),
                text@,
            ),
    {
        let mut writes = self.lazy_init(saved_line_control_mode);
        let data = self.port(SerialRegister::DataOrBaudDivisorLowByte);
        let mut index: usize = 0;
        while index < text.len()
            invariant
                index <= text@.len(),
                data.address() == self.base(),
                writes@ == init_sequence(self.base(), saved_line_control_mode) + data_sequence(
                    self.base(),
                    text@.take(index as int),
                ),
            decreases text@.len() - index,
        {
            writes.push(data.write(text[index]));
            index += 1;
        }
        assert(text@.take(index as int) =~= text@);
        writes
    }
}

} // verus!
