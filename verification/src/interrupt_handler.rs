//! Interrupt servicing, checked once per completed instruction, never
//! mid-instruction.
//!
//! A pending NMI is always serviced; a pending IRQ only while the
//! interrupt-disable flag is clear. The servicing sequence is identical in
//! shape to `BRK`'s push/vector-load sequence except for the B-pattern of
//! the pushed status image, the vector address, and the absence of a `PC`
//! advance before pushing.

use vstd::prelude::*;

use crate::addressing_mode::spec_with_pc;
use crate::instruction::{spec_with_p, IRQ_VECTOR};
use crate::interrupt::Interrupt;
use crate::nes::{spec_push_stack, spec_push_stack_word, spec_read_word, spec_tick, Nes, NesView};
use crate::status::{spec_contains, spec_interrupt_pushed, FLAG_I};

verus! {

/// Address of the NMI vector.
pub const NMI_VECTOR: u16 = 0xFFFA;

/// The servicing sequence for a given vector: one tick, push `PC` as a
/// word, push `P` with the interrupt-pushed B-pattern, set the
/// interrupt-disable flag, load `PC` from the vector, clear the pending
/// request.
pub open spec fn spec_on_interrupt(v: NesView, vector: u16) -> NesView {
    let v1 = spec_tick(v);
    let v2 = spec_push_stack_word(v1, v1.cpu.pc);
    let v3 = spec_push_stack(v2, spec_interrupt_pushed(v2.cpu.p.bits));
    let v4 = spec_with_p(v3, v3.cpu.p.bits | FLAG_I);
    let (v5, w) = spec_read_word(v4, vector);
    NesView { interrupt: None, ..spec_with_pc(v5, w) }
}

/// The instruction-boundary interrupt check: NMI is serviced
/// unconditionally; IRQ only while the interrupt-disable flag is clear;
/// otherwise the state is untouched and any pending IRQ stays pending.
pub open spec fn spec_handle_interrupt(v: NesView) -> NesView {
    if v.interrupt == Some(Interrupt::NMI) {
        spec_on_interrupt(v, NMI_VECTOR)
    } else if v.interrupt == Some(Interrupt::IRQ) && !spec_contains(v.cpu.p.bits, FLAG_I) {
        spec_on_interrupt(v, IRQ_VECTOR)
    } else {
        v
    }
}

/// Service an interrupt through `vector`.
pub fn on_interrupt(nes: &mut Nes, vector: u16)
    requires
        old(nes)@.wf(),
    ensures
        final(nes)@ == spec_on_interrupt(old(nes)@, vector),
        final(nes)@.wf(),
{
    nes.tick();
    let pc = nes.cpu.pc;
    nes.push_stack_word(pc);
    let image = (nes.cpu.p.bits & !crate::status::FLAG_B) | crate::status::FLAG_R;
    nes.push_stack(image);
    nes.cpu.p.insert(FLAG_I);
    let w = nes.read_word(vector);
    nes.cpu.pc = w;
    nes.interrupt = None;
}

/// Check for a pending request at an instruction boundary and service it
/// if it may be taken.
pub fn handle_interrupt(nes: &mut Nes)
    requires
        old(nes)@.wf(),
    ensures
        final(nes)@ == spec_handle_interrupt(old(nes)@),
        final(nes)@.wf(),
{
    match nes.interrupt {
        Some(Interrupt::NMI) => on_interrupt(nes, NMI_VECTOR),
        Some(Interrupt::IRQ) => {
            if !nes.cpu.p.contains(FLAG_I) {
                on_interrupt(nes, IRQ_VECTOR);
            }
        },
        None => {},
    }
}

} // verus!
