//! The processor status register `P`: eight flags packed at fixed bit
//! positions, plus the two derived patterns used only when pushing `P`
//! to the stack.

use vstd::prelude::*;

verus! {

/// Negative: mirrors bit 7 of the last result byte.
pub const FLAG_N: u8 = 0x80;
/// Overflow: signed overflow out of the last arithmetic result.
pub const FLAG_V: u8 = 0x40;
/// Reserved bit, set in stack images pushed by hardware and instructions.
pub const FLAG_R: u8 = 0x20;
/// Break bit, set only in stack images pushed by `BRK`/`PHP`.
pub const FLAG_B: u8 = 0x10;
/// Decimal mode: settable but unused during execution.
pub const FLAG_D: u8 = 0x08;
/// Interrupt disable: gates IRQ servicing.
pub const FLAG_I: u8 = 0x04;
/// Zero: set iff the last result byte was zero.
pub const FLAG_Z: u8 = 0x02;
/// Carry.
pub const FLAG_C: u8 = 0x01;

/// B-pattern OR-ed into `P` images pushed by hardware interrupts: bit 5 set.
pub const INTERRUPTED_B: u8 = 0x20;
/// B-pattern OR-ed into `P` images pushed by `BRK`/`PHP`: bits 5 and 4 set.
pub const OPERATED_B: u8 = 0x30;

/// True iff every bit of `mask` is set in `p`.
pub open spec fn spec_contains(p: u8, mask: u8) -> bool {
    p & mask == mask
}

/// `p` with the bits of `mask` forced to `on`.
pub open spec fn spec_set(p: u8, mask: u8, on: bool) -> u8 {
    if on {
        p | mask
    } else {
        p & !mask
    }
}

/// `p` with `Z` set iff `v` is zero and `N` mirroring bit 7 of `v`.
pub open spec fn spec_zn(p: u8, v: u8) -> u8 {
    spec_set(spec_set(p, FLAG_Z, v == 0), FLAG_N, v & 0x80 == 0x80)
}

/// The byte pushed for `P` by `BRK`/`PHP`: bits 5 and 4 both set.
pub open spec fn spec_instruction_pushed(p: u8) -> u8 {
    p | OPERATED_B
}

/// The byte pushed for `P` by hardware interrupt servicing: bit 5 set,
/// bit 4 clear.
pub open spec fn spec_interrupt_pushed(p: u8) -> u8 {
    (p & !FLAG_B) | FLAG_R
}

/// The status restored by `PLP`/`RTI` from a pulled byte: the B bit of the
/// stack image is ignored (cleared) and the reserved bit is always set.
pub open spec fn spec_pulled_status(v: u8) -> u8 {
    (v & !FLAG_B) | FLAG_R
}

/// The status register, one flag per bit position.
#[derive(Debug, Clone, Copy, PartialEq, Eq, Structural)]
pub struct Status {
    pub bits: u8,
}

impl Status {
    pub fn contains(&self, mask: u8) -> (r: bool)
        ensures
            r == spec_contains(self.bits, mask),
    {
        self.bits & mask == mask
    }

    pub fn insert(&mut self, mask: u8)
        ensures
            final(self).bits == (old(self).bits | mask),
    {
        self.bits = self.bits | mask;
    }

    pub fn remove(&mut self, mask: u8)
        ensures
            final(self).bits == (old(self).bits & !mask),
    {
        self.bits = self.bits & !mask;
    }

    pub fn set(&mut self, mask: u8, on: bool)
        ensures
            final(self).bits == spec_set(old(self).bits, mask, on),
    {
        if on {
            self.insert(mask);
        } else {
            self.remove(mask);
        }
    }

    /// Update `Z` and `N` from a result byte; applied by every instruction
    /// that produces one.
    pub fn set_zn(&mut self, v: u8)
        ensures
            final(self).bits == spec_zn(old(self).bits, v),
    {
        self.set(FLAG_Z, v == 0);
        self.set(FLAG_N, v & 0x80 == 0x80);
    }
}

} // verus!
