//! Addressing modes and operand resolution.
//!
//! For each decoded mode this computes the effective operand (an address
//! for memory-referencing modes, the address of the literal byte for
//! `Immediate`, the accumulator's value for `Accumulator`, the raw
//! displacement byte for `Relative`), advances `PC` by the operand width
//! and charges the mode-specific extra cycles. Variable-cost modes carry a
//! `penalty` flag: when set, the extra tick is charged only on a page
//! crossing; when clear (read-modify-write and store forms), it is always
//! charged.

use vstd::prelude::*;

use crate::cpu::Cpu;
use crate::nes::{Nes, NesView, spec_read, spec_read_word, spec_read_on_indirect, spec_tick};

verus! {

/// The rule for locating an instruction's operand.
#[derive(Debug, Clone, Copy, PartialEq, Eq, Structural)]
pub enum AddressingMode {
    Implicit,
    Accumulator,
    Immediate,
    ZeroPage,
    ZeroPageX,
    ZeroPageY,
    Absolute,
    AbsoluteX { penalty: bool },
    AbsoluteY { penalty: bool },
    Relative,
    Indirect,
    IndexedIndirect,
    IndirectIndexed { penalty: bool },
}

/// Whether adding `a` (an index register or displacement) to the base
/// address `b` crosses a 256-byte page.
pub open spec fn spec_page_crossed(a: u16, b: u16) -> bool {
    (a.wrapping_add(b) & 0xFF00) != (b & 0xFF00)
}

/// True iff adding offset `a` to base address `b` changes the high byte
/// of the address (computed modulo the 16-bit address space).
pub fn page_crossed(a: u16, b: u16) -> (r: bool)
    ensures
        r == spec_page_crossed(a, b),
        r == (((a + b) % 0x10000) / 0x100 != b / 0x100),
{
    proof {
        let w: u16 = a.wrapping_add(b);
        assert(w == (a + b) % 0x10000);
        assert((w & 0xFF00 != b & 0xFF00) <==> (w / 0x100 != b / 0x100)) by (bit_vector);
    }
    (a.wrapping_add(b) & 0xFF00) != (b & 0xFF00)
}

/// `v` with the program counter replaced.
pub open spec fn spec_with_pc(v: NesView, pc: u16) -> NesView {
    NesView { cpu: Cpu { pc, ..v.cpu }, ..v }
}

/// `v` with the program counter advanced by `n`, wrapping.
pub open spec fn spec_incr_pc(v: NesView, n: u16) -> NesView {
    spec_with_pc(v, v.cpu.pc.wrapping_add(n))
}

/// Operand resolution as a mathematical function: the machine state after
/// the operand fetches and penalty ticks, paired with the resolved
/// operand.
pub open spec fn spec_operand(v: NesView, mode: AddressingMode) -> (NesView, u16) {
    match mode {
        AddressingMode::Implicit => (v, 0),
        AddressingMode::Accumulator => (v, v.cpu.a as u16),
        AddressingMode::Immediate => (spec_incr_pc(v, 1), v.cpu.pc),
        AddressingMode::ZeroPage => {
            let (v1, m) = spec_read(v, v.cpu.pc);
            (spec_incr_pc(v1, 1), m as u16)
        },
        AddressingMode::ZeroPageX => {
            let (v1, m) = spec_read(v, v.cpu.pc);
            (spec_tick(spec_incr_pc(v1, 1)), m.wrapping_add(v.cpu.x) as u16)
        },
        AddressingMode::ZeroPageY => {
            let (v1, m) = spec_read(v, v.cpu.pc);
            (spec_tick(spec_incr_pc(v1, 1)), m.wrapping_add(v.cpu.y) as u16)
        },
        AddressingMode::Absolute => {
            let (v1, w) = spec_read_word(v, v.cpu.pc);
            (spec_incr_pc(v1, 2), w)
        },
        AddressingMode::AbsoluteX { penalty } => {
            let (v1, w) = spec_read_word(v, v.cpu.pc);
            let v2 = spec_incr_pc(v1, 2);
            let v3 = if !penalty || spec_page_crossed(v.cpu.x as u16, w) {
                spec_tick(v2)
            } else {
                v2
            };
            (v3, w.wrapping_add(v.cpu.x as u16))
        },
        AddressingMode::AbsoluteY { penalty } => {
            let (v1, w) = spec_read_word(v, v.cpu.pc);
            let v2 = spec_incr_pc(v1, 2);
            let v3 = if !penalty || spec_page_crossed(v.cpu.y as u16, w) {
                spec_tick(v2)
            } else {
                v2
            };
            (v3, w.wrapping_add(v.cpu.y as u16))
        },
        AddressingMode::Relative => {
            let (v1, m) = spec_read(v, v.cpu.pc);
            (spec_incr_pc(v1, 1), m as u16)
        },
        AddressingMode::Indirect => {
            let (v1, p) = spec_read_word(v, v.cpu.pc);
            let v2 = spec_incr_pc(v1, 2);
            let (v3, t) = spec_read_on_indirect(v2, p);
            (v3, t)
        },
        AddressingMode::IndexedIndirect => {
            let (v1, m) = spec_read(v, v.cpu.pc);
            let v2 = spec_tick(spec_incr_pc(v1, 1));
            let (v3, t) = spec_read_on_indirect(v2, m.wrapping_add(v.cpu.x) as u16);
            (v3, t)
        },
        AddressingMode::IndirectIndexed { penalty } => {
            let (v1, m) = spec_read(v, v.cpu.pc);
            let v2 = spec_incr_pc(v1, 1);
            let (v3, p) = spec_read_on_indirect(v2, m as u16);
            let v4 = if !penalty || spec_page_crossed(v.cpu.y as u16, p) {
                spec_tick(v3)
            } else {
                v3
            };
            (v4, p.wrapping_add(v.cpu.y as u16))
        },
    }
}

/// Resolve the operand for `mode`, advancing `PC` by the operand width
/// and charging the mode's extra cycles.
pub fn get_operand(nes: &mut Nes, mode: AddressingMode) -> (r: u16)
    requires
        old(nes)@.wf(),
    ensures
        final(nes)@ == spec_operand(old(nes)@, mode).0,
        r == spec_operand(old(nes)@, mode).1,
        final(nes)@.wf(),
{
    match mode {
        AddressingMode::Implicit => 0,
        AddressingMode::Accumulator => nes.cpu.a as u16,
        AddressingMode::Immediate => {
            let pc = nes.cpu.pc;
            nes.cpu.incr_pc(1);
            pc
        },
        AddressingMode::ZeroPage => {
            let pc = nes.cpu.pc;
            let m = nes.read(pc);
            nes.cpu.incr_pc(1);
            m as u16
        },
        AddressingMode::ZeroPageX => {
            let pc = nes.cpu.pc;
            let m = nes.read(pc);
            nes.cpu.incr_pc(1);
            nes.tick();
            m.wrapping_add(nes.cpu.x) as u16
        },
        AddressingMode::ZeroPageY => {
            let pc = nes.cpu.pc;
            let m = nes.read(pc);
            nes.cpu.incr_pc(1);
            nes.tick();
            m.wrapping_add(nes.cpu.y) as u16
        },
        AddressingMode::Absolute => {
            let pc = nes.cpu.pc;
            let w = nes.read_word(pc);
            nes.cpu.incr_pc(2);
            w
        },
        AddressingMode::AbsoluteX { penalty } => {
            let pc = nes.cpu.pc;
            let w = nes.read_word(pc);
            nes.cpu.incr_pc(2);
            if !penalty || page_crossed(nes.cpu.x as u16, w) {
                nes.tick();
            }
            w.wrapping_add(nes.cpu.x as u16)
        },
        AddressingMode::AbsoluteY { penalty } => {
            let pc = nes.cpu.pc;
            let w = nes.read_word(pc);
            nes.cpu.incr_pc(2);
            if !penalty || page_crossed(nes.cpu.y as u16, w) {
                nes.tick();
            }
            w.wrapping_add(nes.cpu.y as u16)
        },
        AddressingMode::Relative => {
            let pc = nes.cpu.pc;
            let m = nes.read(pc);
            nes.cpu.incr_pc(1);
            m as u16
        },
        AddressingMode::Indirect => {
            let pc = nes.cpu.pc;
            let p = nes.read_word(pc);
            nes.cpu.incr_pc(2);
            nes.read_on_indirect(p)
        },
        AddressingMode::IndexedIndirect => {
            let pc = nes.cpu.pc;
            let m = nes.read(pc);
            nes.cpu.incr_pc(1);
            nes.tick();
            let ptr = m.wrapping_add(nes.cpu.x) as u16;
            nes.read_on_indirect(ptr)
        },
        AddressingMode::IndirectIndexed { penalty } => {
            let pc = nes.cpu.pc;
            let m = nes.read(pc);
            nes.cpu.incr_pc(1);
            let p = nes.read_on_indirect(m as u16);
            if !penalty || page_crossed(nes.cpu.y as u16, p) {
                nes.tick();
            }
            p.wrapping_add(nes.cpu.y as u16)
        },
    }
}

} // verus!
