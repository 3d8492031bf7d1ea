//! Kinds of CPU interrupt requests.

use vstd::prelude::*;

verus! {

/// A pending interrupt request line. At most one request is outstanding at
/// a time; it is held on the machine until serviced at an instruction
/// boundary.
#[derive(Debug, Clone, Copy, PartialEq, Eq, Structural)]
pub enum Interrupt {
    /// Non-maskable interrupt: always serviced when pending.
    NMI,
    /// Maskable interrupt: serviced only while the interrupt-disable flag
    /// is clear.
    IRQ,
}

} // verus!
