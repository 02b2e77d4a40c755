//! The pair of 8259 Programmable Interrupt Controllers of the IBM PC.
//!
//! Two controllers are chained: the slave hangs on line 2 of the master,
//! which gives 15 usable lines instead of 8. After power-on the controllers
//! deliver their lines on vectors that the CPU reserves for its exceptions, so
//! they have to be moved: the master to `0x20..0x28`, the slave to
//! `0x28..0x30`.
//!
//! Every routine here returns the port writes that make up the command; the
//! caller issues them in order.

use crate::arch::cpuio::{InOut, PortRead, PortWidth, PortWrite, UnsafePort, byte_write};
use vstd::prelude::*;

verus! {

/// Command to initialise a controller.
pub const CMD_INIT: u8 = 0x11;

/// Command to signal the end of an interrupt.
pub const CMD_END_OF_INTERRUPT: u8 = 0x20;

/// The mode the controllers are put in.
pub const MODE_8086: u8 = 0x01;

/// Command port of the master controller.
pub const MASTER_COMMAND: u16 = 0x20;

/// Data port of the master controller.
pub const MASTER_DATA: u16 = 0x21;

/// Command port of the slave controller.
pub const SLAVE_COMMAND: u16 = 0xA0;

/// Data port of the slave controller.
pub const SLAVE_DATA: u16 = 0xA1;

/// An unused port. A write to it takes long enough for a controller to
/// settle, at a time when no timer can be had.
pub const WAIT_PORT: u16 = 0x80;

/// Whether a controller that delivers its eight lines from vector `offset`
/// on is the source of `interrupt_id`.
pub open spec fn in_range(offset: u8, interrupt_id: u8) -> bool {
    offset <= interrupt_id < offset + 8
}

/// The mask register `mask` with the bit of `line` set.
pub open spec fn with_line_masked(mask: u8, line: u8) -> u8 {
    mask | (1u8 << line)
}

/// The mask register `mask` with the bit of `line` cleared.
pub open spec fn with_line_unmasked(mask: u8, line: u8) -> u8 {
    mask & !(1u8 << line)
}

/// The settling delay between two configuration writes.
pub open spec fn wait_write() -> PortWrite {
    byte_write(WAIT_PORT, 0)
}

/// The writes that move the master to `offset_master` and the slave to
/// `offset_slave`, with the masks that were read before put back at the
/// end: four configuration words for each controller, each followed by a
/// settling delay, then the two masks.
pub open spec fn init_sequence(
    offset_master: u8,
    offset_slave: u8,
    saved_master_mask: u8,
    saved_slave_mask: u8,
) -> Seq<PortWrite> {
    seq![
        byte_write(MASTER_COMMAND, CMD_INIT),
        wait_write(),
        byte_write(SLAVE_COMMAND, CMD_INIT),
        wait_write(),
        byte_write(MASTER_DATA, offset_master),
        wait_write(),
        byte_write(SLAVE_DATA, offset_slave),
        wait_write(),
        byte_write(MASTER_DATA, 4),
        wait_write(),
        byte_write(SLAVE_DATA, 2),
        wait_write(),
        byte_write(MASTER_DATA, MODE_8086),
        wait_write(),
        byte_write(SLAVE_DATA, MODE_8086),
        wait_write(),
        byte_write(MASTER_DATA, saved_master_mask),
        byte_write(SLAVE_DATA, saved_slave_mask),
    ]
}

/// A single controller. Not used on its own.
struct Pic {
    offset: u8,
    command: UnsafePort<u8>,
    data: UnsafePort<u8>,
}

impl Pic {
    /// The acknowledgment of the interrupt in service.
    fn end_of_interrupt(&self) -> (write: PortWrite)
        ensures
            write == byte_write(self.command.address(), CMD_END_OF_INTERRUPT),
    {
        self.command.write(CMD_END_OF_INTERRUPT)
    }

    /// Check if `interrupt_id` is handled. A controller handles 8 interrupts.
    fn handles_interrupt(&self, interrupt_id: u8) -> (handled: bool)
        ensures
            handled == in_range(self.offset, interrupt_id),
    {
        interrupt_id >= self.offset && interrupt_id - self.offset < 8
    }

    /// The write that makes the controller ignore the line of
    /// `interrupt_id`, given what its mask register holds now.
    fn set_mask(&self, interrupt_id: u8, mask: u8) -> (write: PortWrite)
        requires
            in_range(self.offset, interrupt_id),
        ensures
            write == byte_write(
                self.data.address(),
                with_line_masked(mask, (interrupt_id - self.offset) as u8),
            ),
    {
        let line: u8 = interrupt_id - self.offset;
        self.data.write(mask | (1u8 << line))
    }

    /// The write that makes the controller listen to the line of
    /// `interrupt_id` again, given what its mask register holds now.
    fn clear_mask(&self, interrupt_id: u8, mask: u8) -> (write: PortWrite)
        requires
            in_range(self.offset, interrupt_id),
        ensures
            write == byte_write(
                self.data.address(),
                with_line_unmasked(mask, (interrupt_id - self.offset) as u8),
            ),
    {
        let line: u8 = interrupt_id - self.offset;
        self.data.write(mask & !(1u8 << line))
    }
}

/// A pair of chained controllers, the standard arrangement on x86.
pub struct ChainedPics {
    master: Pic,
    slave: Pic,
}

impl ChainedPics {
    /// First vector of the master.
    pub closed spec fn master_offset(&self) -> u8 {
        self.master.offset
    }

    /// First vector of the slave.
    pub closed spec fn slave_offset(&self) -> u8 {
        self.slave.offset
    }

    /// The controllers sit on their standard ports.
    pub closed spec fn standard_ports(&self) -> bool {
        &&& self.master.command.address() == MASTER_COMMAND
        &&& self.master.data.address() == MASTER_DATA
        &&& self.slave.command.address() == SLAVE_COMMAND
        &&& self.slave.data.address() == SLAVE_DATA
    }

    /// The pair's invariant: the sixteen vectors are contiguous, master
    /// first, and keep clear of the 32 vectors of the CPU's own exceptions.
    pub open spec fn wf(&self) -> bool {
        &&& self.standard_ports()
        &&& 32 <= self.master_offset()
        &&& self.slave_offset() == self.master_offset() + 8
        &&& self.slave_offset() + 8 <= 256
    }

    /// Whether one of the two controllers is the source of `interrupt_id`.
    pub open spec fn handles(&self, interrupt_id: u8) -> bool {
        in_range(self.master_offset(), interrupt_id) || in_range(
            self.slave_offset(),
            interrupt_id,
        )
    }

    /// The acknowledgments owed for `interrupt_id`. An interrupt of the
    /// slave reaches the CPU through the master, so both are told, the slave
    /// first. An interrupt of the master is acknowledged to the master alone,
    /// and one that comes from neither to nobody.
    pub open spec fn acknowledgments(&self, interrupt_id: u8) -> Seq<PortWrite> {
        if in_range(self.slave_offset(), interrupt_id) {
            seq![
                byte_write(SLAVE_COMMAND, CMD_END_OF_INTERRUPT),
                byte_write(MASTER_COMMAND, CMD_END_OF_INTERRUPT),
            ]
        } else if in_range(self.master_offset(), interrupt_id) {
            seq![byte_write(MASTER_COMMAND, CMD_END_OF_INTERRUPT)]
        } else {
            Seq::empty()
        }
    }

    /// The data port of the controller whose line raises `interrupt_id`.
    pub open spec fn mask_port(&self, interrupt_id: u8) -> Option<u16> {
        if in_range(self.slave_offset(), interrupt_id) {
            Some(SLAVE_DATA)
        } else if in_range(self.master_offset(), interrupt_id) {
            Some(MASTER_DATA)
        } else {
            None
        }
    }

    /// The line, 0 to 7, on which `interrupt_id` arrives at its controller.
    pub open spec fn line(&self, interrupt_id: u8) -> u8 {
        if in_range(self.slave_offset(), interrupt_id) {
            (interrupt_id - self.slave_offset()) as u8
        } else {
            (interrupt_id - self.master_offset()) as u8
        }
    }

    /// A pair that delivers the master's lines from `offset_master` on and
    /// the slave's from `offset_slave` on.
    pub fn new(offset_master: u8, offset_slave: u8) -> (pics: Self)
        requires
            32 <= offset_master,
            offset_slave == offset_master + 8,
            offset_slave + 8 <= 256,
        ensures
            pics.wf(),
            pics.master_offset() == offset_master,
            pics.slave_offset() == offset_slave,
    {
        ChainedPics {
            master: Pic {
                offset: offset_master,
                command: UnsafePort::new(MASTER_COMMAND),
                data: UnsafePort::new(MASTER_DATA),
            },
            slave: Pic {
                offset: offset_slave,
                command: UnsafePort::new(SLAVE_COMMAND),
                data: UnsafePort::new(SLAVE_DATA),
            },
        }
    }

    /// The reads of the two mask registers, master first. They come before
    /// [`ChainedPics::init`], which needs what they return.
    pub fn read_masks(&self) -> (reads: (PortRead, PortRead))
        requires
            self.wf(),
        ensures
            reads.0 == (PortRead { port: MASTER_DATA, width: PortWidth::Byte }),
            reads.1 == (PortRead { port: SLAVE_DATA, width: PortWidth::Byte }),
    {
        (self.master.data.read(), self.slave.data.read())
    }

    /// Initialise both controllers together: the writes that put them in
    /// 8086 mode at their offsets and restore the two masks, which the caller
    /// has read from the data ports beforehand.
    pub fn init(&self, saved_master_mask: u8, saved_slave_mask: u8) -> (writes: Vec<PortWrite>)
        requires
            self.wf(),
        ensures
            writes@ == init_sequence(
                self.master_offset(),
                self.slave_offset(),
                saved_master_mask,
                saved_slave_mask,
            ),
    {
        // The controllers need time between two configuration writes,
        // above all on old hardware. A delay would need a clock, and the
        // clock needs interrupts. A write to port 0x80 takes long enough on
        // most hardware.
        let wait_port: UnsafePort<u8> = UnsafePort::new(WAIT_PORT);
        let mut writes: Vec<PortWrite> = Vec::new();

        // Send init command
        writes.push(self.master.command.write(CMD_INIT));
        writes.push(wait_port.write(0));
        writes.push(self.slave.command.write(CMD_INIT));
        writes.push(wait_port.write(0));

        // Setup required offset
        writes.push(self.master.data.write(self.master.offset));
        writes.push(wait_port.write(0));
        writes.push(self.slave.data.write(self.slave.offset));
        writes.push(wait_port.write(0));

        // Setup master-slave relationship
        writes.push(self.master.data.write(4));
        writes.push(wait_port.write(0));
        writes.push(self.slave.data.write(2));
        writes.push(wait_port.write(0));

        // Setup mode
        writes.push(self.master.data.write(MODE_8086));
        writes.push(wait_port.write(0));
        writes.push(self.slave.data.write(MODE_8086));
        writes.push(wait_port.write(0));

        // Restore saved masks
        writes.push(self.master.data.write(saved_master_mask));
        writes.push(self.slave.data.write(saved_slave_mask));
        writes
    }

    /// Check if `interrupt_id` is handled.
    pub fn handles_interrupt(&self, interrupt_id: u8) -> (handled: bool)
        requires
            self.wf(),
        ensures
            handled == self.handles(interrupt_id),
            handled == (self.master_offset() <= interrupt_id < self.master_offset() + 16),
    {
        self.master.handles_interrupt(interrupt_id) || self.slave.handles_interrupt(interrupt_id)
    }

    /// Select which controllers need to know that `interrupt_id` has been
    /// handled, and return their acknowledgments in the order to send them.
    pub fn end_of_interrupt(&self, interrupt_id: u8) -> (writes: Vec<PortWrite>)
        requires
            self.wf(),
        ensures
            writes@ == self.acknowledgments(interrupt_id),
    {
        let mut writes: Vec<PortWrite> = Vec::new();
        if self.slave.handles_interrupt(interrupt_id) {
            writes.push(self.slave.end_of_interrupt());
            writes.push(self.master.end_of_interrupt());
        } else if self.master.handles_interrupt(interrupt_id) {
            writes.push(self.master.end_of_interrupt());
        }
        writes
    }

    /// The read of the mask register that holds the line of `interrupt_id`,
    /// if one of the controllers handles it.
    pub fn read_mask(&self, interrupt_id: u8) -> (read: Option<PortRead>)
        requires
            self.wf(),
        ensures
            read == match self.mask_port(interrupt_id) {
                Some(port) => Some(PortRead { port, width: PortWidth::Byte }),
                None => None,
            },
    {
        if self.slave.handles_interrupt(interrupt_id) {
            Some(self.slave.data.read())
        } else if self.master.handles_interrupt(interrupt_id) {
            Some(self.master.data.read())
        } else {
            None
        }
    }

    /// The write that silences the line of `interrupt_id`, given the value
    /// `mask` read from that line's mask register. Only that line's own bit
    /// changes: silencing a line of the slave leaves the cascade line of the
    /// master open.
    pub fn set_mask(&self, interrupt_id: u8, mask: u8) -> (write: Option<PortWrite>)
        requires
            self.wf(),
        ensures
            write == match self.mask_port(interrupt_id) {
                Some(port) => Some(
                    byte_write(port, with_line_masked(mask, self.line(interrupt_id))),
                ),
                None => None,
            },
    {
        if self.slave.handles_interrupt(interrupt_id) {
            Some(self.slave.set_mask(interrupt_id, mask))
        } else if self.master.handles_interrupt(interrupt_id) {
            Some(self.master.set_mask(interrupt_id, mask))
        } else {
            None
        }
    }

    /// The write that opens the line of `interrupt_id` again, given the
    /// value `mask` read from that line's mask register.
    pub fn clear_mask(&self, interrupt_id: u8, mask: u8) -> (write: Option<PortWrite>)
        requires
            self.wf(),
        ensures
            write == match self.mask_port(interrupt_id) {
                Some(port) => Some(
                    byte_write(port, with_line_unmasked(mask, self.line(interrupt_id))),
                ),
                None => None,
            },
    {
        if self.slave.handles_interrupt(interrupt_id) {
            Some(self.slave.clear_mask(interrupt_id, mask))
        } else if self.master.handles_interrupt(interrupt_id) {
            Some(self.master.clear_mask(interrupt_id, mask))
        } else {
            None
        }
    }
}

/// With the master at `0x20` and the slave at `0x28`, the pair handles
/// exactly the vectors `0x20` to `0x2F`.
pub proof fn lemma_standard_pair_handles(pics: ChainedPics, interrupt_id: u8)
    requires
        pics.master_offset() == 0x20,
        pics.slave_offset() == 0x28,
    ensures
        pics.handles(interrupt_id) <==> 0x20 <= interrupt_id < 0x30,
{
}

/// An interrupt of the slave is acknowledged twice, to the slave and then to
/// the master; one that only the master handles is acknowledged once, to the
/// master.
pub proof fn lemma_acknowledgment_count(pics: ChainedPics, interrupt_id: u8)
    requires
        pics.wf(),
    ensures
        in_range(pics.slave_offset(), interrupt_id) ==> {
            &&& pics.acknowledgments(interrupt_id).len() == 2
            &&& pics.acknowledgments(interrupt_id)[0].port == SLAVE_COMMAND
            &&& pics.acknowledgments(interrupt_id)[1].port == MASTER_COMMAND
        },
        in_range(pics.master_offset(), interrupt_id) ==> {
            &&& pics.acknowledgments(interrupt_id).len() == 1
            &&& pics.acknowledgments(interrupt_id)[0].port == MASTER_COMMAND
        },
        !pics.handles(interrupt_id) ==> pics.acknowledgments(interrupt_id).len() == 0,
        forall|i: int|
            0 <= i < pics.acknowledgments(interrupt_id).len() ==> (
            #[trigger] pics.acknowledgments(interrupt_id)[i]).data == CMD_END_OF_INTERRUPT,
{
}

} // verus!
