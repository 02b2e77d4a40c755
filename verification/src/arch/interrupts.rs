//! Interrupts: the descriptor table that tells the CPU where the handlers
//! are, and the routine that decides what to do when one of them is entered.

use crate::arch::cpuio::PortWrite;
use crate::arch::bytes::{
    byte, byte_of, le_bytes_u16, le_bytes_u64, read_u32, read_u64, u32_from_le, u64_from_le,
};
use crate::arch::descriptor_tables::DescriptorTablePointer;
use crate::arch::irq::{
    InterruptInfo, PageFaultException, cpu_exception, reserved_exception, spec_cpu_exception,
    spec_reserved_exception,
};
use crate::arch::text::{decimal_text, hex_text, push_number, push_str};
use crate::arch::keyboard::{KeyboardState, ascii_of};
use crate::arch::pic::ChainedPics;
use vstd::prelude::*;
use vstd::string::StringSliceAdditionalSpecFns;

verus! {

/// Number of entries of the interrupt descriptor table, one for each vector.
pub const IDT_ENTRY_COUNT: usize = 256;

/// Size in bytes of one entry of the table.
pub const IDT_ENTRY_SIZE: usize = 16;

/// Flags of a present 64-bit interrupt gate at privilege level 0: the
/// present bit, and type `1110`.
pub const GATE_FLAGS: u8 = 0b1000_1110;

/// The present bit among an entry's flags.
pub const GATE_PRESENT: u8 = 0b1000_0000;

/// Vector of the page fault.
pub const PAGE_FAULT_VECTOR: u32 = 14;

/// First vector of the hardware interrupts.
pub const IRQ_BASE: u32 = 0x20;

/// Vector of the keyboard interrupt.
pub const KEYBOARD_VECTOR: u32 = 0x21;

/// Vector of the software interrupt.
pub const SOFTWARE_VECTOR: u32 = 0x80;

/// The context on the stack available when the interrupt handler is called:
/// the registers that the entry code saves, the number of the interrupt, and
/// the error code that the CPU pushes for some exceptions (zero for the
/// others).
#[derive(Clone, Copy, Debug, PartialEq, Eq, Structural)]
pub struct InterruptStackContext {
    pub rsi: u64,
    pub rdi: u64,
    pub r11: u64,
    pub r10: u64,
    pub r9: u64,
    pub r8: u64,
    pub rdx: u64,
    pub rcx: u64,
    pub rax: u64,
    pub interrupt_id: u32,
    pub error_code: u32,
}

/// Size in bytes of the context on the stack.
pub const CONTEXT_SIZE: usize = 88;

impl InterruptStackContext {
    /// The context that lies in the 88 bytes `bytes`: the nine registers,
    /// eight bytes each, then the number of the interrupt and the error
    /// code, four bytes each with four bytes of padding behind.
    pub open spec fn spec_from_bytes(bytes: Seq<u8>) -> InterruptStackContext {
        InterruptStackContext {
            rsi: u64_from_le(bytes, 0),
            rdi: u64_from_le(bytes, 8),
            r11: u64_from_le(bytes, 16),
            r10: u64_from_le(bytes, 24),
            r9: u64_from_le(bytes, 32),
            r8: u64_from_le(bytes, 40),
            rdx: u64_from_le(bytes, 48),
            rcx: u64_from_le(bytes, 56),
            rax: u64_from_le(bytes, 64),
            interrupt_id: u32_from_le(bytes, 72),
            error_code: u32_from_le(bytes, 80),
        }
    }

    /// Read the context off the stack.
    pub fn from_bytes(bytes: &[u8; 88]) -> (context: InterruptStackContext)
        ensures
            context == Self::spec_from_bytes(bytes@),
    {
        let bytes = bytes.as_slice();
        InterruptStackContext {
            rsi: read_u64(bytes, 0),
            rdi: read_u64(bytes, 8),
            r11: read_u64(bytes, 16),
            r10: read_u64(bytes, 24),
            r9: read_u64(bytes, 32),
            r8: read_u64(bytes, 40),
            rdx: read_u64(bytes, 48),
            rcx: read_u64(bytes, 56),
            rax: read_u64(bytes, 64),
            interrupt_id: read_u32(bytes, 72),
            error_code: read_u32(bytes, 80),
        }
    }
}

/// An entry of the interrupt descriptor table: a gate to one handler.
#[derive(Clone, Copy, Debug, PartialEq, Eq, Structural)]
pub struct IdtEntry {
    /// Bits 0 to 15 of the handler's address.
    pub offset_low: u16,
    /// Selector of the code segment that the handler runs in.
    pub segment_selector: u16,
    /// Must be 0.
    pub reserved_0: u8,
    /// Present bit, privilege level and gate type.
    pub flags: u8,
    /// Bits 16 to 63 of the handler's address.
    pub offset_high: u64,
    /// Must be 0.
    pub reserved_1: u16,
}

impl IdtEntry {
    /// The entry of a vector without a handler: all zero, so not present.
    pub open spec fn spec_missing_handler() -> IdtEntry {
        IdtEntry {
            offset_low: 0,
            segment_selector: 0,
            reserved_0: 0,
            flags: 0,
            offset_high: 0,
            reserved_1: 0,
        }
    }

    /// The present interrupt gate to the handler at address `handler`, in
    /// the code segment `gdt_code_selector`.
    pub open spec fn spec_new(gdt_code_selector: u16, handler: u64) -> IdtEntry {
        IdtEntry {
            offset_low: (handler & 0xFFFF) as u16,
            segment_selector: gdt_code_selector,
            reserved_0: 0,
            flags: GATE_FLAGS,
            offset_high: handler >> 16,
            reserved_1: 0,
        }
    }

    /// Whether the CPU may go through this gate.
    pub open spec fn present(self) -> bool {
        self.flags & GATE_PRESENT == GATE_PRESENT
    }

    /// The handler's address, put together from the two parts of the offset.
    pub open spec fn handler_address(self) -> u64 {
        (self.offset_low as u64) | (self.offset_high << 16)
    }

    /// The entry as it lies in the table, 16 bytes without padding, each
    /// field with its least significant byte first.
    pub open spec fn spec_to_bytes(self) -> Seq<u8> {
        le_bytes_u16(self.offset_low) + le_bytes_u16(self.segment_selector) + seq![
            self.reserved_0,
            self.flags,
        ] + le_bytes_u64(self.offset_high) + le_bytes_u16(self.reserved_1)
    }

    /// Create an empty handler for the initialisation of a table.
    pub fn missing_handler() -> (entry: Self)
        ensures
            entry == Self::spec_missing_handler(),
    {
        IdtEntry {
            offset_low: 0,
            segment_selector: 0,
            reserved_0: 0,
            flags: 0,
            offset_high: 0,
            reserved_1: 0,
        }
    }

    /// Create a new entry given the selector of the code segment and the
    /// address of a handler.
    pub fn new(gdt_code_selector: u16, handler: u64) -> (entry: Self)
        ensures
            entry == Self::spec_new(gdt_code_selector, handler),
            entry.present(),
            entry.handler_address() == handler,
            entry.segment_selector == gdt_code_selector,
    {
        proof {
            lemma_gate_leads_to_handler(gdt_code_selector, handler);
        }
        IdtEntry {
            offset_low: (handler & 0xFFFF) as u16,
            segment_selector: gdt_code_selector,
            reserved_0: 0,
            // "Present" bit set, privilege level 0, 64-bit interrupt gate.
            flags: GATE_FLAGS,
            offset_high: handler >> 16,
            reserved_1: 0,
        }
    }

    /// The entry as it lies in the table, 16 bytes without padding, each
    /// field with its least significant byte first.
    pub fn to_bytes(&self) -> (bytes: [u8; 16])
        ensures
            bytes@ == self.spec_to_bytes(),
    {
        let low = self.offset_low as u64;
        let selector = self.segment_selector as u64;
        let reserved = self.reserved_1 as u64;
        let bytes = [
            byte(low, 0),
            byte(low, 1),
            byte(selector, 0),
            byte(selector, 1),
            self.reserved_0,
            self.flags,
            byte(self.offset_high, 0),
            byte(self.offset_high, 1),
            byte(self.offset_high, 2),
            byte(self.offset_high, 3),
            byte(self.offset_high, 4),
            byte(self.offset_high, 5),
            byte(self.offset_high, 6),
            byte(self.offset_high, 7),
            byte(reserved, 0),
            byte(reserved, 1),
        ];
        assert(bytes@ =~= self.spec_to_bytes());
        bytes
    }
}

/// A gate made for a handler is present, and the two parts of its offset put
/// together give the handler's address back.
pub proof fn lemma_gate_leads_to_handler(gdt_code_selector: u16, handler: u64)
    ensures
        IdtEntry::spec_new(gdt_code_selector, handler).present(),
        IdtEntry::spec_new(gdt_code_selector, handler).handler_address() == handler,
{
    assert(0b1000_1110u8 & 0b1000_0000u8 == 0b1000_0000u8) by (bit_vector);
    assert((((handler & 0xFFFF) as u16) as u64) | ((handler >> 16) << 16) == handler)
        by (bit_vector);
}

/// The entry of a vector without a handler is sixteen zero bytes, and the
/// CPU takes it as not present.
pub proof fn lemma_missing_handler_is_zero()
    ensures
        IdtEntry::spec_missing_handler().spec_to_bytes() == Seq::new(16, |i: int| 0u8),
        !IdtEntry::spec_missing_handler().present(),
{
    assert forall|index: u64| index < 8 implies #[trigger] byte_of(0, index) == 0u8 by {
        assert(((0u64 >> (8 * index)) & 0xff) as u8 == 0u8) by (bit_vector)
            requires
                index < 8,
        ;
    }
    assert(0u8 & 0b1000_0000u8 != 0b1000_0000u8) by (bit_vector);
    assert(IdtEntry::spec_missing_handler().spec_to_bytes() =~= Seq::new(16, |i: int| 0u8));
}

/// The Interrupt Descriptor Table, which tells the CPU where each vector's
/// handler is: the interrupt on vector `i` goes through entry `i`.
///
/// The table is filled from the handlers' addresses and then loaded: the CPU
/// is given a pointer to the place in memory where the entries lie.
pub struct Idt {
    table: [IdtEntry; 256],
}

impl Idt {
    /// The 256 entries, by vector.
    pub closed spec fn entries(&self) -> Seq<IdtEntry> {
        self.table@
    }

    /// The table that [`Idt::add_handlers`] leaves for the handlers'
    /// addresses `handlers` where it started from `before`: a present gate
    /// for each address that is not null, the old entry elsewhere.
    pub open spec fn with_handlers(
        before: Seq<IdtEntry>,
        gdt_code_selector: u16,
        handlers: Seq<u64>,
    ) -> Seq<IdtEntry> {
        Seq::new(
            IDT_ENTRY_COUNT as nat,
            |vector: int|
                if handlers[vector] != 0 {
                    IdtEntry::spec_new(gdt_code_selector, handlers[vector])
                } else {
                    before[vector]
                },
        )
    }

    /// The pointer that loads a table lying at address `base`.
    pub open spec fn pointer(base: u64) -> DescriptorTablePointer {
        DescriptorTablePointer { limit: (IDT_ENTRY_SIZE * IDT_ENTRY_COUNT - 1) as u16, base }
    }

    /// A table without any handler.
    pub fn new() -> (idt: Self)
        ensures
            idt.entries().len() == IDT_ENTRY_COUNT,
            forall|vector: int|
                0 <= vector < IDT_ENTRY_COUNT ==> idt.entries()[vector]
                    == IdtEntry::spec_missing_handler(),
    {
        Idt { table: [IdtEntry::missing_handler();256] }
    }

    /// The entry of `vector`.
    pub fn entry(&self, vector: u8) -> (entry: IdtEntry)
        ensures
            self.entries().len() == IDT_ENTRY_COUNT,
            entry == self.entries()[vector as int],
    {
        self.table[vector as usize]
    }

    /// Init the table: fill it from `handlers`, then hand back the pointer
    /// that loads it from `base`, the address where the caller keeps the
    /// entries.
    pub fn init(&mut self, gdt_code_selector: u16, handlers: &[u64; 256], base: u64) -> (pointer:
        DescriptorTablePointer)
        ensures
            final(self).entries() == Self::with_handlers(
                old(self).entries(),
                gdt_code_selector,
                handlers@,
            ),
            pointer == Self::pointer(base),
    {
        self.add_handlers(gdt_code_selector, handlers);
        self.load(base)
    }

    /// Make a gate for every vector whose handler's address in `handlers` is
    /// not null. The entries of the other vectors stay as they are.
    pub fn add_handlers(&mut self, gdt_code_selector: u16, handlers: &[u64; 256])
        ensures
            final(self).entries() == Self::with_handlers(
                old(self).entries(),
                gdt_code_selector,
                handlers@,
            ),
    {
        let mut index: usize = 0;
        while index < IDT_ENTRY_COUNT
            invariant
                index <= IDT_ENTRY_COUNT,
                self.table@.len() == IDT_ENTRY_COUNT,
                forall|vector: int|
                    0 <= vector < index ==> self.table@[vector] == Self::with_handlers(
                        old(self).entries(),
                        gdt_code_selector,
                        handlers@,
                    )[vector],
                forall|vector: int|
                    index <= vector < IDT_ENTRY_COUNT ==> self.table@[vector] == old(self).table@[vector],
            decreases IDT_ENTRY_COUNT - index,
        {
            let handler = handlers[index];
            if handler != 0 {
                self.table[index] = IdtEntry::new(gdt_code_selector, handler);
            }
            index += 1;
        }
        assert(self.table@ =~= Self::with_handlers(
            old(self).entries(),
            gdt_code_selector,
            handlers@,
        ));
    }

    /// The pointer that loads the table, once the entries lie at address
    /// `base`. Its limit is the offset of the table's last byte.
    pub fn load(&self, base: u64) -> (pointer: DescriptorTablePointer)
        ensures
            pointer == Self::pointer(base),
            pointer.limit == 4095,
    {
        DescriptorTablePointer { limit: (IDT_ENTRY_SIZE * IDT_ENTRY_COUNT - 1) as u16, base }
    }
}

/// In a table that was empty before its handlers were added, the entry of
/// every vector without a handler is still the empty one, all zero, and the
/// entry of every other vector is a present gate to its handler.
pub proof fn lemma_fresh_table_entries(
    before: Seq<IdtEntry>,
    gdt_code_selector: u16,
    handlers: Seq<u64>,
    vector: int,
)
    requires
        0 <= vector < IDT_ENTRY_COUNT,
        before[vector] == IdtEntry::spec_missing_handler(),
    ensures
        handlers[vector] == 0 ==> Idt::with_handlers(
            before,
            gdt_code_selector,
            handlers,
        )[vector].spec_to_bytes() == Seq::new(16, |i: int| 0u8),
        handlers[vector] != 0 ==> {
            let entry = Idt::with_handlers(before, gdt_code_selector, handlers)[vector];
            entry.present() && entry.handler_address() == handlers[vector]
        },
{
    lemma_missing_handler_is_zero();
    lemma_gate_leads_to_handler(gdt_code_selector, handlers[vector]);
}

/// The devices behind the sixteen lines of the two interrupt controllers, in
/// the order of their lines.
#[derive(Clone, Copy, Debug, PartialEq, Eq, Structural)]
pub enum Peripheral {
    /// Line 0: the programmable interval timer.
    Timer,
    /// Line 1: the keyboard.
    Keyboard,
    /// Line 2: the cascade to the slave controller, never raised.
    Cascade,
    /// Line 3: serial port COM2.
    Com2,
    /// Line 4: serial port COM1.
    Com1,
    /// Line 5: parallel port LPT2.
    Lpt2,
    /// Line 6: the floppy disk.
    FloppyDisk,
    /// Line 7: parallel port LPT1, with unreliable spurious interrupts.
    Lpt1,
    /// Line 8: the CMOS real-time clock.
    RealTimeClock,
    /// Line 9: free for peripherals, legacy SCSI or a network card.
    Free9,
    /// Line 10: free for peripherals, SCSI or a network card.
    Free10,
    /// Line 11: free for peripherals, SCSI or a network card.
    Free11,
    /// Line 12: the PS/2 mouse.
    Mouse,
    /// Line 13: the floating-point unit or coprocessor.
    Coprocessor,
    /// Line 14: the primary ATA hard disk.
    PrimaryAta,
    /// Line 15: the secondary ATA hard disk.
    SecondaryAta,
}

impl Peripheral {
    /// The line, 0 to 15, that the device raises.
    pub open spec fn line(self) -> u32 {
        match self {
            Peripheral::Timer => 0,
            Peripheral::Keyboard => 1,
            Peripheral::Cascade => 2,
            Peripheral::Com2 => 3,
            Peripheral::Com1 => 4,
            Peripheral::Lpt2 => 5,
            Peripheral::FloppyDisk => 6,
            Peripheral::Lpt1 => 7,
            Peripheral::RealTimeClock => 8,
            Peripheral::Free9 => 9,
            Peripheral::Free10 => 10,
            Peripheral::Free11 => 11,
            Peripheral::Mouse => 12,
            Peripheral::Coprocessor => 13,
            Peripheral::PrimaryAta => 14,
            Peripheral::SecondaryAta => 15,
        }
    }

    /// The device on `line`.
    pub fn from_line(line: u32) -> (device: Peripheral)
        requires
            line < 16,
        ensures
            device.line() == line,
    {
        match line {
            0 => Peripheral::Timer,
            1 => Peripheral::Keyboard,
            2 => Peripheral::Cascade,
            3 => Peripheral::Com2,
            4 => Peripheral::Com1,
            5 => Peripheral::Lpt2,
            6 => Peripheral::FloppyDisk,
            7 => Peripheral::Lpt1,
            8 => Peripheral::RealTimeClock,
            9 => Peripheral::Free9,
            10 => Peripheral::Free10,
            11 => Peripheral::Free11,
            12 => Peripheral::Mouse,
            13 => Peripheral::Coprocessor,
            14 => Peripheral::PrimaryAta,
            _ => Peripheral::SecondaryAta,
        }
    }
}

/// The kinds of interrupt that the dispatch routine tells apart.
#[derive(Clone, Copy, Debug, PartialEq, Eq, Structural)]
pub enum InterruptClass {
    /// Vectors `0x00` to `0x1F`: an exception of the CPU itself. Fatal.
    CpuException,
    /// Vectors `0x20` to `0x2F`: a line of the interrupt controllers.
    Hardware(Peripheral),
    /// Vector `0x80`: the software interrupt.
    Software,
    /// Any other vector: nothing should ever raise it. Fatal.
    Unknown,
}

impl InterruptClass {
    /// Whether `self` is the kind of the interrupt on vector `interrupt_id`.
    pub open spec fn is_class_of(self, interrupt_id: u32) -> bool {
        match self {
            InterruptClass::CpuException => interrupt_id < IRQ_BASE,
            InterruptClass::Hardware(device) => IRQ_BASE <= interrupt_id < IRQ_BASE + 16
                && device.line() == interrupt_id - IRQ_BASE,
            InterruptClass::Software => interrupt_id == SOFTWARE_VECTOR,
            InterruptClass::Unknown => IRQ_BASE + 16 <= interrupt_id && interrupt_id
                != SOFTWARE_VECTOR,
        }
    }

}

/// Whether the processor is halted for good after the interrupt on vector
/// `interrupt_id`: after an exception of the CPU, and after an interrupt
/// that nothing should raise.
pub open spec fn is_fatal(interrupt_id: u32) -> bool {
    interrupt_id < IRQ_BASE || (IRQ_BASE + 16 <= interrupt_id && interrupt_id != SOFTWARE_VECTOR)
}

/// Every vector is of exactly one kind.
pub proof fn lemma_class_is_unique(first: InterruptClass, second: InterruptClass, interrupt_id: u32)
    requires
        first.is_class_of(interrupt_id),
        second.is_class_of(interrupt_id),
    ensures
        first == second,
{
}

/// The kind of the interrupt on vector `interrupt_id`.
pub fn classify(interrupt_id: u32) -> (class: InterruptClass)
    ensures
        class.is_class_of(interrupt_id),
{
    if interrupt_id < IRQ_BASE {
        InterruptClass::CpuException
    } else if interrupt_id < IRQ_BASE + 16 {
        InterruptClass::Hardware(Peripheral::from_line(interrupt_id - IRQ_BASE))
    } else if interrupt_id == SOFTWARE_VECTOR {
        InterruptClass::Software
    } else {
        InterruptClass::Unknown
    }
}

/// What the error code of an exception says about a page fault.
#[derive(Clone, Copy, Debug, PartialEq, Eq, Structural)]
pub enum PageFaultDetail {
    /// The exception is not a page fault.
    NotAPageFault,
    /// The exception is a page fault, and its error code has bits set that
    /// have no meaning.
    Undecodable,
    /// The exception is a page fault with these flags.
    Flags(PageFaultException),
}

/// What is reported of an exception of the CPU before the processor halts.
#[derive(Clone, Copy, Debug)]
pub struct ExceptionReport {
    /// The exception's description, where the vector has one.
    pub info: Option<InterruptInfo>,
    /// The exception's vector.
    pub interrupt_id: u32,
    /// The error code, as the CPU pushed it.
    pub error_code: u32,
    /// The decoded error code of a page fault.
    pub page_fault: PageFaultDetail,
}

/// What goes to the console while an interrupt is served.
#[derive(Clone, Copy, Debug)]
pub enum ConsoleOutput {
    /// No output.
    Nothing,
    /// The report of a CPU exception.
    Exception(ExceptionReport),
    /// The code of one character that was typed.
    Character(u8),
    /// The end of the line: the enter key was hit.
    LineBreak,
    /// The line that answers the software interrupt.
    NotUnix,
    /// The line that reports an interrupt on a vector nobody should raise.
    UnknownInterrupt(u32),
}

/// What the caller has to do to finish an interrupt, in this order: print,
/// then either halt for good or send the acknowledgments.
#[derive(Debug)]
pub struct Dispatch {
    /// What to send to the console.
    pub output: ConsoleOutput,
    /// Whether the processor halts here and never goes on. The interrupt is
    /// then not acknowledged.
    pub halt: bool,
    /// The writes that acknowledge the interrupt to the controllers.
    pub acknowledgments: Vec<PortWrite>,
}

impl ExceptionReport {
    /// The report as it is printed: the line that names the exception and
    /// gives the error code in hexadecimal and, for a page fault, the decoded
    /// flags or `None` on the lines after it. A vector without a description
    /// is named as a reserved one.
    pub open spec fn spec_text(self) -> Seq<u8> {
        let info = match self.info {
            Some(info) => info,
            None => spec_reserved_exception(self.interrupt_id as u8),
        };
        let headline = info.spec_text() + ", error 0x".spec_bytes() + hex_text(
            self.error_code as nat,
        ) + "\n".spec_bytes();
        match self.page_fault {
            PageFaultDetail::NotAPageFault => headline,
            PageFaultDetail::Undecodable => headline + "None\n".spec_bytes(),
            PageFaultDetail::Flags(flags) => headline + "Some(".spec_bytes() + flags.spec_text()
                + ")\n".spec_bytes(),
        }
    }

    /// The report as it is printed.
    pub fn text(&self) -> (text: Vec<u8>)
        ensures
            text@ == self.spec_text(),
    {
        let info = match self.info {
            Some(info) => info,
            None => reserved_exception(self.interrupt_id as u8),
        };
        let mut text = info.text();
        push_str(&mut text, ", error 0x");
        push_number(&mut text, self.error_code, 16);
        push_str(&mut text, "\n");
        match self.page_fault {
            PageFaultDetail::NotAPageFault => {},
            PageFaultDetail::Undecodable => {
                push_str(&mut text, "None\n");
            },
            PageFaultDetail::Flags(flags) => {
                push_str(&mut text, "Some(");
                let mut sentences = flags.text();
                text.append(&mut sentences);
                push_str(&mut text, ")\n");
            },
        }
        text
    }
}

impl ConsoleOutput {
    /// The bytes that go to the console.
    pub open spec fn spec_text(self) -> Seq<u8> {
        match self {
            ConsoleOutput::Nothing => Seq::empty(),
            ConsoleOutput::Exception(report) => report.spec_text(),
            ConsoleOutput::Character(code) => seq![code],
            ConsoleOutput::LineBreak => "\n".spec_bytes(),
            ConsoleOutput::NotUnix => "Not Unix ;)\n".spec_bytes(),
            ConsoleOutput::UnknownInterrupt(interrupt_id) => "Unknown Interrupt #".spec_bytes()
                + decimal_text(interrupt_id as nat) + "\n".spec_bytes(),
        }
    }

    /// The bytes that go to the console.
    pub fn text(&self) -> (text: Vec<u8>)
        ensures
            text@ == self.spec_text(),
    {
        let mut text: Vec<u8> = Vec::new();
        match self {
            ConsoleOutput::Nothing => {},
            ConsoleOutput::Exception(report) => {
                text = report.text();
            },
            ConsoleOutput::Character(code) => {
                text.push(*code);
            },
            ConsoleOutput::LineBreak => {
                push_str(&mut text, "\n");
            },
            ConsoleOutput::NotUnix => {
                push_str(&mut text, "Not Unix ;)\n");
            },
            ConsoleOutput::UnknownInterrupt(interrupt_id) => {
                push_str(&mut text, "Unknown Interrupt #");
                push_number(&mut text, *interrupt_id, 10);
                push_str(&mut text, "\n");
            },
        }
        text
    }
}

/// The page-fault part of the report of the exception on `interrupt_id`.
pub open spec fn page_fault_detail(interrupt_id: u32, error_code: u32) -> PageFaultDetail {
    if interrupt_id == PAGE_FAULT_VECTOR {
        match PageFaultException::spec_from_bits(error_code) {
            Some(flags) => PageFaultDetail::Flags(flags),
            None => PageFaultDetail::Undecodable,
        }
    } else {
        PageFaultDetail::NotAPageFault
    }
}

/// The report of the exception that `context` was saved for.
pub open spec fn exception_report(context: InterruptStackContext) -> ExceptionReport {
    ExceptionReport {
        info: spec_cpu_exception(context.interrupt_id),
        interrupt_id: context.interrupt_id,
        error_code: context.error_code,
        page_fault: page_fault_detail(context.interrupt_id, context.error_code),
    }
}

/// What the keyboard interrupt prints when the key event `scancode` comes
/// in while the modifiers are `modifiers`: the character that the event
/// types, a line break for the enter key, nothing where no event was read
/// or the event types nothing.
pub open spec fn keyboard_output(
    modifiers: crate::arch::keyboard::Modifiers,
    scancode: Option<u8>,
) -> ConsoleOutput {
    match scancode {
        Some(code) => match ascii_of(code) {
            Some(ascii) => {
                let typed = modifiers.spec_update(code).spec_apply(ascii);
                if typed == 0x0D {
                    ConsoleOutput::LineBreak
                } else {
                    ConsoleOutput::Character(typed)
                }
            },
            None => ConsoleOutput::Nothing,
        },
        None => ConsoleOutput::Nothing,
    }
}

/// What an interrupt prints.
pub open spec fn console_output(
    context: InterruptStackContext,
    modifiers: crate::arch::keyboard::Modifiers,
    scancode: Option<u8>,
) -> ConsoleOutput {
    if context.interrupt_id < IRQ_BASE {
        ConsoleOutput::Exception(exception_report(context))
    } else if context.interrupt_id == KEYBOARD_VECTOR {
        keyboard_output(modifiers, scancode)
    } else if context.interrupt_id < IRQ_BASE + 16 {
        ConsoleOutput::Nothing
    } else if context.interrupt_id == SOFTWARE_VECTOR {
        ConsoleOutput::NotUnix
    } else {
        ConsoleOutput::UnknownInterrupt(context.interrupt_id)
    }
}

/// The modifiers that an interrupt leaves: only a key event that the
/// keyboard interrupt brings changes them.
pub open spec fn modifiers_after(
    context: InterruptStackContext,
    modifiers: crate::arch::keyboard::Modifiers,
    scancode: Option<u8>,
) -> crate::arch::keyboard::Modifiers {
    match scancode {
        Some(code) if context.interrupt_id == KEYBOARD_VECTOR => modifiers.spec_update(code),
        _ => modifiers,
    }
}

/// Collect what there is to say about a CPU exception. The processor halts
/// once it is said.
pub fn cpu_interrupt_handler(context: &InterruptStackContext) -> (report: ExceptionReport)
    ensures
        report == exception_report(*context),
{
    let page_fault = if context.interrupt_id == PAGE_FAULT_VECTOR {
        match PageFaultException::from_bits(context.error_code) {
            Some(flags) => PageFaultDetail::Flags(flags),
            None => PageFaultDetail::Undecodable,
        }
    } else {
        PageFaultDetail::NotAPageFault
    };
    ExceptionReport {
        info: cpu_exception(context.interrupt_id),
        interrupt_id: context.interrupt_id,
        error_code: context.error_code,
        page_fault,
    }
}

/// Decide what the interrupt that `context` was saved for asks for.
///
/// `scancode` is what the keyboard's data port gave, for the keyboard
/// interrupt; the caller reads the port for that vector only.
///
/// An exception of the CPU and an interrupt on an unknown vector are fatal:
/// they are reported and the processor halts, without an acknowledgment to
/// the controllers, since nothing is served after that. Every other
/// interrupt is acknowledged as the controllers ask for its vector. Of the
/// devices only the keyboard is served.
pub fn rust_interrupt_handler(
    context: &InterruptStackContext,
    pics: &ChainedPics,
    keyboard: &mut KeyboardState,
    scancode: Option<u8>,
) -> (dispatch: Dispatch)
    requires
        pics.wf(),
    ensures
        dispatch.output == console_output(*context, old(keyboard).modifiers(), scancode),
        dispatch.halt == is_fatal(context.interrupt_id),
        dispatch.acknowledgments@ == if dispatch.halt {
            Seq::empty()
        } else {
            pics.acknowledgments(context.interrupt_id as u8)
        },
        final(keyboard).modifiers() == modifiers_after(
            *context,
            old(keyboard).modifiers(),
            scancode,
        ),
        final(keyboard).wf() == old(keyboard).wf(),
{
    match classify(context.interrupt_id) {
        InterruptClass::CpuException => Dispatch {
            output: ConsoleOutput::Exception(cpu_interrupt_handler(context)),
            halt: true,
            acknowledgments: Vec::new(),
        },
        InterruptClass::Hardware(device) => {
            let output = match device {
                Peripheral::Keyboard => {
                    let typed = match scancode {
                        Some(code) => keyboard.get_char(code),
                        None => None,
                    };
                    match typed {
                        Some(character) => {
                            if character == '\r' {
                                ConsoleOutput::LineBreak
                            } else {
                                ConsoleOutput::Character(character as u8)
                            }
                        },
                        None => ConsoleOutput::Nothing,
                    }
                },
                // The other devices need nothing but the acknowledgment.
                _ => ConsoleOutput::Nothing,
            };
            Dispatch {
                output,
                halt: false,
                acknowledgments: pics.end_of_interrupt(context.interrupt_id as u8),
            }
        },
        InterruptClass::Software => Dispatch {
            output: ConsoleOutput::NotUnix,
            halt: false,
            acknowledgments: pics.end_of_interrupt(context.interrupt_id as u8),
        },
        InterruptClass::Unknown => Dispatch {
            output: ConsoleOutput::UnknownInterrupt(context.interrupt_id),
            halt: true,
            acknowledgments: Vec::new(),
        },
    }
}

/// One step of getting interrupts going.
#[derive(Clone, Copy, Debug, PartialEq, Eq, Structural)]
pub enum InitStep {
    /// Issue this write to a port of the interrupt controllers.
    Write(PortWrite),
    /// Copy the entries of the table to the place in memory that the CPU
    /// will be pointed to.
    StoreTable,
    /// Load this pointer with `lidt`.
    LoadTable(DescriptorTablePointer),
    /// Raise the software interrupt once, to try the table out.
    TestInterrupt,
    /// Let the CPU take interrupts.
    EnableInterrupts,
}

/// The steps that get interrupts going, in the one order that is safe: the
/// controllers are set up first, so that no line arrives on a vector of the
/// CPU's exceptions; then the table is put in memory, complete; then the CPU
/// is pointed to it; and only then may interrupts come.
pub open spec fn init_steps(pic_writes: Seq<PortWrite>, idt_pointer: DescriptorTablePointer) -> Seq<
    InitStep,
> {
    Seq::new(pic_writes.len(), |i: int| InitStep::Write(pic_writes[i])) + seq![
        InitStep::StoreTable,
        InitStep::LoadTable(idt_pointer),
        InitStep::TestInterrupt,
        InitStep::EnableInterrupts,
    ]
}

/// Initialize interrupts: fill `idt` from the handlers' addresses, and give
/// the steps that are left to the caller, in the order to take them. The
/// caller has read the masks of the two controllers, and will keep the
/// table at `idt_base`.
pub fn init(
    pics: &ChainedPics,
    saved_master_mask: u8,
    saved_slave_mask: u8,
    idt: &mut Idt,
    gdt_code_selector: u16,
    handlers: &[u64; 256],
    idt_base: u64,
) -> (steps: Vec<InitStep>)
    requires
        pics.wf(),
    ensures
        steps@ == init_steps(
            crate::arch::pic::init_sequence(
                pics.master_offset(),
                pics.slave_offset(),
                saved_master_mask,
                saved_slave_mask,
            ),
            Idt::pointer(idt_base),
        ),
        final(idt).entries() == Idt::with_handlers(
            old(idt).entries(),
            gdt_code_selector,
            handlers@,
        ),
{
    let pic_writes = pics.init(saved_master_mask, saved_slave_mask);
    let idt_pointer = idt.init(gdt_code_selector, handlers, idt_base);
    let mut steps: Vec<InitStep> = Vec::new();
    let mut index: usize = 0;
    while index < pic_writes.len()
        invariant
            index <= pic_writes@.len(),
            steps@ == Seq::new(index as nat, |i: int| InitStep::Write(pic_writes@[i])),
        decreases pic_writes@.len() - index,
    {
        steps.push(InitStep::Write(pic_writes[index]));
        index += 1;
    }
    steps.push(InitStep::StoreTable);
    steps.push(InitStep::LoadTable(idt_pointer));
    steps.push(InitStep::TestInterrupt);
    steps.push(InitStep::EnableInterrupts);
    steps
}

} // verus!
