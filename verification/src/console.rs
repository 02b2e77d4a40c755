//! A wrapper around a VGA console and a COM1 serial port.

use crate::arch::cpuio::PortWrite;
use crate::arch::serial::{SerialPort, data_sequence, init_sequence};
use crate::arch::vga::Screen;
use vstd::prelude::*;
use vstd::string::StringSliceAdditionalSpecFns;

verus! {

/// The place where the kernel's messages go: the screen and, as a copy, the
/// first serial port.
pub struct Console;

impl Console {
    /// Write `s` to the screen, and give the writes that send it through
    /// the serial port as well. `saved_line_control_mode` is what the serial
    /// port's line-control register holds.
    pub fn write_str(
        &mut self,
        screen: &mut Screen,
        serial: &SerialPort,
        s: &str,
        saved_line_control_mode: u8,
    ) -> (writes: Vec<PortWrite>)
        requires
            old(screen)@.wf(),
            serial.base() + 7 <= u16::MAX,
        ensures
            final(screen)@ == old(screen)@.write_bytes(s.spec_bytes()),
            final(screen)@.wf(),
            writes@ == init_sequence(serial.base(), saved_line_control_mode) + data_sequence(
                serial.base(),
                s.spec_bytes(),
            ),
    {
        screen.write(s);
        serial.write_str(s, saved_line_control_mode)
    }

    /// Write the bytes of `text` to the screen, and give the writes that
    /// send them through the serial port as well. `saved_line_control_mode`
    /// is what the serial port's line-control register holds.
    pub fn write_bytes(
        &mut self,
        screen: &mut Screen,
        serial: &SerialPort,
        text: &[u8],
        saved_line_control_mode: u8,
    ) -> (writes: Vec<PortWrite>)
        requires
            old(screen)@.wf(),
            serial.base() + 7 <= u16::MAX,
        ensures
            final(screen)@ == old(screen)@.write_bytes(text@),
            final(screen)@.wf(),
            writes@ == init_sequence(serial.base(), saved_line_control_mode) + data_sequence(
                serial.base(),
                text@,
            ),
    {
        screen.write_bytes(text);
        serial.write_bytes(text, saved_line_control_mode)
    }
}

} // verus!
