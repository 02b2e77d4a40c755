//! The four-level page tables of x86-64.

pub mod entry;
pub mod table;

pub use self::entry::{Entry, EntryFlags};
pub use self::table::{Level4, Table, TableLevel};
use vstd::prelude::*;

verus! {

/// Number of entries of a page table.
pub const ENTRY_COUNT: usize = 512;

/// A virtual address.
pub type VirtualAddress = u64;

} // verus!
