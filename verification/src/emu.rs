//! The stepping interface: power-on initialization and the
//! fetch-decode-resolve-execute-interrupt step loop body.

use vstd::prelude::*;

use crate::addressing_mode::{get_operand, spec_operand};
use crate::cpu::Cpu;
use crate::decode::{decode, spec_decode};
use crate::instruction::{execute, spec_execute};
use crate::interrupt_handler::{handle_interrupt, spec_handle_interrupt};
use crate::nes::{spec_fetch, Nes, NesView};
use crate::status::Status;

verus! {

/// The state after power-on: a fixed register file (`P` = 0x34 with the
/// interrupt-disable and B-pattern bits set, `S` = 0xFD, `A`/`X`/`Y`
/// zero), and 22 ticks from the bus-initialization write sequence that
/// silences the audio registers. `PC` is untouched: the caller is
/// expected to load it from the reset vector before the first step.
pub open spec fn spec_power_on(v: NesView) -> NesView {
    NesView {
        cpu: Cpu { a: 0, x: 0, y: 0, s: 0xFD, p: Status { bits: 0x34 }, pc: v.cpu.pc },
        cycles: v.cycles.wrapping_add(22),
        ..v
    }
}

/// One full instruction step as a mathematical next-state function:
/// fetch, decode, resolve the operand, execute, then check interrupts.
pub open spec fn spec_step(v: NesView) -> NesView {
    let (v1, op) = spec_fetch(v);
    let inst = spec_decode(op);
    let (v2, operand) = spec_operand(v1, inst.1);
    let v3 = spec_execute(v2, inst, operand);
    spec_handle_interrupt(v3)
}

/// Power on the machine: set the documented fixed register state and run
/// the bus-initialization write sequence (silence the audio frame
/// counter, silence all channels, zero every audio register), each write
/// ticking the clock once.
pub fn power_on(nes: &mut Nes)
    requires
        old(nes)@.wf(),
    ensures
        final(nes)@ == spec_power_on(old(nes)@),
        final(nes)@.wf(),
{
    let ghost v0 = nes@;
    nes.cpu.p = Status { bits: 0x34 };
    nes.cpu.a = 0x00;
    nes.cpu.x = 0x00;
    nes.cpu.y = 0x00;
    nes.cpu.s = 0xFD;
    nes.write(0x4017, 0x00);
    nes.write(0x4015, 0x00);
    let mut a: u16 = 0x4000;
    while a < 0x4014
        invariant
            0x4000 <= a <= 0x4014,
            nes@ == (NesView {
                cpu: Cpu { a: 0, x: 0, y: 0, s: 0xFD, p: Status { bits: 0x34 }, pc: v0.cpu.pc },
                cycles: v0.cycles.wrapping_add((2 + (a - 0x4000)) as u64),
                ..v0
            }),
            nes@.wf(),
        decreases 0x4014 - a,
    {
        nes.write(a, 0x00);
        a = a + 1;
    }
}

/// Execute exactly one instruction (fetch through execute, plus the
/// interrupt check), advancing the cycle counter by the exact number of
/// ticks the instruction and any interrupt dispatch require.
pub fn step(nes: &mut Nes)
    requires
        old(nes)@.wf(),
    ensures
        final(nes)@ == spec_step(old(nes)@),
        final(nes)@.wf(),
{
    let op = nes.fetch();
    let inst = decode(op);
    let operand = get_operand(nes, inst.1);
    execute(nes, inst, operand);
    handle_interrupt(nes);
}

} // verus!
