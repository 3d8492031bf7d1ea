//! The register file: accumulator, index registers, stack pointer, status
//! register and program counter.

use vstd::prelude::*;

use crate::status::Status;

verus! {

/// CPU registers. All 8-bit registers wrap modulo 256 and the program
/// counter wraps modulo 65536; none is ever range-checked.
#[derive(Debug, Clone, Copy, PartialEq, Eq, Structural)]
pub struct Cpu {
    /// Accumulator.
    pub a: u8,
    /// Index register X.
    pub x: u8,
    /// Index register Y.
    pub y: u8,
    /// Stack pointer into page 0x0100.
    pub s: u8,
    /// Status register.
    pub p: Status,
    /// Program counter.
    pub pc: u16,
}

impl Cpu {
    /// Advance the program counter by `n`, wrapping modulo 65536.
    pub fn incr_pc(&mut self, n: u16)
        ensures
            *final(self) == (Cpu { pc: old(self).pc.wrapping_add(n), ..*old(self) }),
    {
        self.pc = self.pc.wrapping_add(n);
    }
}

} // verus!
