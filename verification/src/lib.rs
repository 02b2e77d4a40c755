//! Hardware-independent core of a small x86-64 kernel: interrupt dispatch,
//! interrupt-controller programming, physical frame allocation and
//! page-table bookkeeping. Nothing here touches the machine. Every routine
//! computes what has to be written to which port or table, and leaves the
//! privileged instructions to its caller.

pub mod arch;
pub mod memory;
pub mod console;
pub mod drivers;
