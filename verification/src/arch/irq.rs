//! Descriptions of the CPU's exceptions, and the decoding of the page-fault
//! error code.

use crate::arch::text::{decimal_text, push_number, push_str};
use vstd::prelude::*;
use vstd::string::StringSliceAdditionalSpecFns;

verus! {

/// Aggregates some information about an interrupt.
#[derive(Clone, Copy, Debug)]
pub struct InterruptInfo {
    pub id: u8,
    pub has_error_code: bool,
    pub mnemonic: &'static str,
    pub description: &'static str,
    pub irqtype: &'static str,
    pub source: &'static str,
}

impl InterruptInfo {
    /// The line that names the interrupt: `mnemonic (type, vec=id)
    /// description`.
    pub open spec fn spec_text(self) -> Seq<u8> {
        self.mnemonic.spec_bytes() + " (".spec_bytes() + self.irqtype.spec_bytes()
            + ", vec=".spec_bytes() + decimal_text(self.id as nat) + ") ".spec_bytes()
            + self.description.spec_bytes()
    }

    /// The line that names the interrupt: `mnemonic (type, vec=id)
    /// description`.
    pub fn text(&self) -> (text: Vec<u8>)
        ensures
            text@ == self.spec_text(),
    {
        let mut text: Vec<u8> = Vec::new();
        push_str(&mut text, self.mnemonic);
        push_str(&mut text, " (");
        push_str(&mut text, self.irqtype);
        push_str(&mut text, ", vec=");
        push_number(&mut text, self.id as u32, 10);
        push_str(&mut text, ") ");
        push_str(&mut text, self.description);
        text
    }
}

/// What is said of a vector that the CPU reserves and does not use.
pub open spec fn spec_reserved_exception(vector: u8) -> InterruptInfo {
    InterruptInfo {
        id: vector,
        has_error_code: false,
        mnemonic: "-",
        description: "Intel reserved (Do not use)",
        irqtype: "-",
        source: "-",
    }
}

/// What is said of a vector that the CPU reserves and does not use.
pub fn reserved_exception(vector: u8) -> (info: InterruptInfo)
    ensures
        info == spec_reserved_exception(vector),
{
    InterruptInfo {
        id: vector,
        has_error_code: false,
        mnemonic: "-",
        description: "Intel reserved (Do not use)",
        irqtype: "-",
        source: "-",
    }
}

/// How many of the 32 vectors that the CPU reserves for itself are in use.
pub const CPU_EXCEPTION_COUNT: usize = 20;

/// Processor exceptions, by vector.
///
/// The first 32 vectors are reserved. Only the first 20 are actually used.
pub open spec fn cpu_exceptions() -> Seq<InterruptInfo> {
    seq![
        InterruptInfo { id: 0, has_error_code: false, mnemonic: "#DE", description: "Divide Error", irqtype: "Fault", source: "DIV and IDIV instructions" },
        InterruptInfo { id: 1, has_error_code: false, mnemonic: "#DB", description: "RESERVED (Debug)", irqtype: "Fault/Trap", source: "For Intel use only" },
        InterruptInfo { id: 2, has_error_code: false, mnemonic: "#NMI", description: "NMI Interrupt", irqtype: "Interrupt", source: "Nonmaskable external interrupt" },
        InterruptInfo { id: 3, has_error_code: false, mnemonic: "#BP", description: "Breakpoint", irqtype: "Trap", source: "INT 3 Instruction" },
        InterruptInfo { id: 4, has_error_code: false, mnemonic: "#OF", description: "Overflow", irqtype: "Fault", source: "Divide Error" },
        InterruptInfo { id: 5, has_error_code: false, mnemonic: "#BR", description: "BOUND Range Exceeded", irqtype: "Fault", source: "Bound instruction" },
        InterruptInfo { id: 6, has_error_code: false, mnemonic: "#UD", description: "Invalid Opcode (Undefined Opcode)", irqtype: "Fault", source: "UD2 instruction or reserved opcode" },
        InterruptInfo { id: 7, has_error_code: true, mnemonic: "#NM", description: "Device not accessible (No Math Coprocessor)", irqtype: "Fault", source: "Floating-point or WAIT/FWAIT instruction" },
        InterruptInfo { id: 8, has_error_code: true, mnemonic: "#DF", description: "Double Fault", irqtype: "Abort", source: "Any source that can generate an exception, an NMI, or a NTR" },
        InterruptInfo { id: 9, has_error_code: false, mnemonic: "#CSO", description: "Coprocessor Segment Overrun (reserved)", irqtype: "Fault", source: "Floating-point instruction" },
        InterruptInfo { id: 10, has_error_code: true, mnemonic: "#TS", description: "Invalid TSS", irqtype: "Fault", source: "Task switch or TSS access" },
        InterruptInfo { id: 11, has_error_code: true, mnemonic: "#NP", description: "Segment not present", irqtype: "Fault", source: "Loading segment registers or accessing system segments" },
        InterruptInfo { id: 12, has_error_code: true, mnemonic: "#SS", description: "Stak-Segment fault", irqtype: "Fault", source: "Stack operations and SS register loads" },
        InterruptInfo { id: 13, has_error_code: true, mnemonic: "#GP", description: "General protection", irqtype: "Fault", source: "Any memory reference and other protection checks" },
        InterruptInfo { id: 14, has_error_code: true, mnemonic: "#PF", description: "Page fault", irqtype: "Fault", source: "Any memory reference" },
        InterruptInfo { id: 15, has_error_code: false, mnemonic: "-", description: "Intel reserved (Do not use)", irqtype: "-", source: "-" },
        InterruptInfo { id: 16, has_error_code: false, mnemonic: "#MF", description: "x87 FPU Floating-Point Error (Math Fault)", irqtype: "Fault", source: "x87 FPU floating-point or WAIT/WAITF instruction" },
        InterruptInfo { id: 17, has_error_code: true, mnemonic: "#AC", description: "Alignment Check", irqtype: "Fault", source: "Any data reference in memory" },
        InterruptInfo { id: 18, has_error_code: false, mnemonic: "#MC", description: "Machine Check", irqtype: "Abort", source: "Error codes (if any) and source are model dependent" },
        InterruptInfo { id: 19, has_error_code: false, mnemonic: "#XM", description: "SIMD Floating-Point Exception", irqtype: "Fault", source: "SSE/SSE2/SSE3 floating-point instruction" },
    ]
}

/// The description of the exception on `vector`, for the vectors that have
/// one.
pub open spec fn spec_cpu_exception(vector: u32) -> Option<InterruptInfo> {
    if vector < CPU_EXCEPTION_COUNT {
        Some(cpu_exceptions()[vector as int])
    } else {
        None
    }
}

/// The description of the exception on `vector`, for the vectors that have
/// one.
pub fn cpu_exception(vector: u32) -> (info: Option<InterruptInfo>)
    ensures
        info == spec_cpu_exception(vector),
        info matches Some(found) ==> found.id == vector,
{
    let table: [InterruptInfo; 20] = [
        InterruptInfo { id: 0, has_error_code: false, mnemonic: "#DE", description: "Divide Error", irqtype: "Fault", source: "DIV and IDIV instructions" },
        InterruptInfo { id: 1, has_error_code: false, mnemonic: "#DB", description: "RESERVED (Debug)", irqtype: "Fault/Trap", source: "For Intel use only" },
        InterruptInfo { id: 2, has_error_code: false, mnemonic: "#NMI", description: "NMI Interrupt", irqtype: "Interrupt", source: "Nonmaskable external interrupt" },
        InterruptInfo { id: 3, has_error_code: false, mnemonic: "#BP", description: "Breakpoint", irqtype: "Trap", source: "INT 3 Instruction" },
        InterruptInfo { id: 4, has_error_code: false, mnemonic: "#OF", description: "Overflow", irqtype: "Fault", source: "Divide Error" },
        InterruptInfo { id: 5, has_error_code: false, mnemonic: "#BR", description: "BOUND Range Exceeded", irqtype: "Fault", source: "Bound instruction" },
        InterruptInfo { id: 6, has_error_code: false, mnemonic: "#UD", description: "Invalid Opcode (Undefined Opcode)", irqtype: "Fault", source: "UD2 instruction or reserved opcode" },
        InterruptInfo { id: 7, has_error_code: true, mnemonic: "#NM", description: "Device not accessible (No Math Coprocessor)", irqtype: "Fault", source: "Floating-point or WAIT/FWAIT instruction" },
        InterruptInfo { id: 8, has_error_code: true, mnemonic: "#DF", description: "Double Fault", irqtype: "Abort", source: "Any source that can generate an exception, an NMI, or a NTR" },
        InterruptInfo { id: 9, has_error_code: false, mnemonic: "#CSO", description: "Coprocessor Segment Overrun (reserved)", irqtype: "Fault", source: "Floating-point instruction" },
        InterruptInfo { id: 10, has_error_code: true, mnemonic: "#TS", description: "Invalid TSS", irqtype: "Fault", source: "Task switch or TSS access" },
        InterruptInfo { id: 11, has_error_code: true, mnemonic: "#NP", description: "Segment not present", irqtype: "Fault", source: "Loading segment registers or accessing system segments" },
        InterruptInfo { id: 12, has_error_code: true, mnemonic: "#SS", description: "Stak-Segment fault", irqtype: "Fault", source: "Stack operations and SS register loads" },
        InterruptInfo { id: 13, has_error_code: true, mnemonic: "#GP", description: "General protection", irqtype: "Fault", source: "Any memory reference and other protection checks" },
        InterruptInfo { id: 14, has_error_code: true, mnemonic: "#PF", description: "Page fault", irqtype: "Fault", source: "Any memory reference" },
        InterruptInfo { id: 15, has_error_code: false, mnemonic: "-", description: "Intel reserved (Do not use)", irqtype: "-", source: "-" },
        InterruptInfo { id: 16, has_error_code: false, mnemonic: "#MF", description: "x87 FPU Floating-Point Error (Math Fault)", irqtype: "Fault", source: "x87 FPU floating-point or WAIT/WAITF instruction" },
        InterruptInfo { id: 17, has_error_code: true, mnemonic: "#AC", description: "Alignment Check", irqtype: "Fault", source: "Any data reference in memory" },
        InterruptInfo { id: 18, has_error_code: false, mnemonic: "#MC", description: "Machine Check", irqtype: "Abort", source: "Error codes (if any) and source are model dependent" },
        InterruptInfo { id: 19, has_error_code: false, mnemonic: "#XM", description: "SIMD Floating-Point Exception", irqtype: "Fault", source: "SSE/SSE2/SSE3 floating-point instruction" },
    ];
    if vector < 20 {
        assert(table@ =~= cpu_exceptions());
        Some(table[vector as usize])
    } else {
        None
    }
}

/// Bit 0 of the error code: set where a page-level protection was violated,
/// clear where the page was not present.
pub const PAGEFAULT_EXCEPTION_P: u32 = 0x01;

/// Bit 1 of the error code: set where the access was a write, clear where
/// it was a read.
pub const PAGEFAULT_EXCEPTION_WR: u32 = 0x02;

/// Bit 2 of the error code: set where the access came from user mode.
pub const PAGEFAULT_EXCEPTION_US: u32 = 0x04;

/// Bit 3 of the error code: set where a reserved bit was found set in a
/// paging-structure entry.
pub const PAGEFAULT_EXCEPTION_RSVD: u32 = 0x08;

/// Bit 4 of the error code: set where the access was an instruction fetch.
pub const PAGEFAULT_EXCEPTION_ID: u32 = 0x10;

/// All the bits of the error code that have a meaning.
pub const PAGEFAULT_EXCEPTION_ALL: u32 = 0x1F;

/// The five flags of a page fault's error code.
#[derive(Clone, Copy, Debug, PartialEq, Eq, Structural)]
pub struct PageFaultException {
    /// The error code that the flags were taken from.
    pub bits: u32,
}

impl PageFaultException {
    /// The flags of the error code `bits`, unless a bit without a meaning is
    /// set in it.
    pub open spec fn spec_from_bits(bits: u32) -> Option<PageFaultException> {
        if bits & !PAGEFAULT_EXCEPTION_ALL == 0 {
            Some(PageFaultException { bits })
        } else {
            None
        }
    }

    /// Whether all the bits of `flags` are set.
    pub open spec fn spec_contains(self, flags: u32) -> bool {
        self.bits & flags == flags
    }

    /// The five sentences that describe the fault, one for each flag, from
    /// bit 0 up.
    pub open spec fn spec_describe(self) -> Seq<&'static str> {
        seq![
            if self.spec_contains(PAGEFAULT_EXCEPTION_P) {
                "The fault was caused by a page-level protection violation."
            } else {
                "The fault was caused by a non-present page."
            },
            if self.spec_contains(PAGEFAULT_EXCEPTION_WR) {
                "The access causing the fault was a write."
            } else {
                "The access causing the fault was a read."
            },
            if self.spec_contains(PAGEFAULT_EXCEPTION_US) {
                "The access causing the fault originated when the processor was executing in user mode (CPL = 3)."
            } else {
                "The access causing the fault originated when the processor was executing in supervisor mode (CPL < 3)."
            },
            if self.spec_contains(PAGEFAULT_EXCEPTION_RSVD) {
                "The fault was caused by a reserved bit set to 1 in some paging-stucture entry."
            } else {
                "The fault was not caused by reserved bit violation."
            },
            if self.spec_contains(PAGEFAULT_EXCEPTION_ID) {
                "The fault was caused by an instruction fetch."
            } else {
                "The fault was not caused by an instruction fetch."
            },
        ]
    }

    /// The flags of the error code `bits`, unless a bit without a meaning is
    /// set in it.
    pub fn from_bits(bits: u32) -> (flags: Option<PageFaultException>)
        ensures
            flags == Self::spec_from_bits(bits),
    {
        if bits & !PAGEFAULT_EXCEPTION_ALL == 0 {
            Some(PageFaultException { bits })
        } else {
            None
        }
    }

    /// The error code that the flags were taken from.
    pub fn bits(&self) -> (bits: u32)
        ensures
            bits == self.bits,
    {
        self.bits
    }

    /// Whether all the bits of `flags` are set.
    pub fn contains(&self, flags: u32) -> (all_set: bool)
        ensures
            all_set == self.spec_contains(flags),
    {
        self.bits & flags == flags
    }

    /// The five sentences, one to a line.
    pub open spec fn spec_text(self) -> Seq<u8> {
        let sentences = self.spec_describe();
        sentences[0].spec_bytes() + "\n".spec_bytes() + sentences[1].spec_bytes()
            + "\n".spec_bytes() + sentences[2].spec_bytes() + "\n".spec_bytes()
            + sentences[3].spec_bytes() + "\n".spec_bytes() + sentences[4].spec_bytes()
    }

    /// The five sentences, one to a line.
    pub fn text(&self) -> (text: Vec<u8>)
        ensures
            text@ == self.spec_text(),
    {
        let sentences = self.describe();
        let mut text: Vec<u8> = Vec::new();
        push_str(&mut text, sentences[0]);
        push_str(&mut text, "\n");
        push_str(&mut text, sentences[1]);
        push_str(&mut text, "\n");
        push_str(&mut text, sentences[2]);
        push_str(&mut text, "\n");
        push_str(&mut text, sentences[3]);
        push_str(&mut text, "\n");
        push_str(&mut text, sentences[4]);
        text
    }

    /// The five sentences that describe the fault, one for each flag, from
    /// bit 0 up.
    pub fn describe(&self) -> (sentences: [&'static str; 5])
        ensures
            sentences@ == self.spec_describe(),
    {
        let p = if self.contains(PAGEFAULT_EXCEPTION_P) {
            "The fault was caused by a page-level protection violation."
        } else {
            "The fault was caused by a non-present page."
        };
        let wr = if self.contains(PAGEFAULT_EXCEPTION_WR) {
            "The access causing the fault was a write."
        } else {
            "The access causing the fault was a read."
        };
        let us = if self.contains(PAGEFAULT_EXCEPTION_US) {
            "The access causing the fault originated when the processor was executing in user mode (CPL = 3)."
        } else {
            "The access causing the fault originated when the processor was executing in supervisor mode (CPL < 3)."
        };
        let rsvd = if self.contains(PAGEFAULT_EXCEPTION_RSVD) {
            "The fault was caused by a reserved bit set to 1 in some paging-stucture entry."
        } else {
            "The fault was not caused by reserved bit violation."
        };
        let id = if self.contains(PAGEFAULT_EXCEPTION_ID) {
            "The fault was caused by an instruction fetch."
        } else {
            "The fault was not caused by an instruction fetch."
        };
        [p, wr, us, rsvd, id]
    }
}

} // verus!
