//! Instruction execution: for each mnemonic, the mutation of the register
//! file and memory bus it performs, as a mathematical next-state function
//! and as verified executable code.
//!
//! The undocumented composite opcodes perform a primitive
//! read-modify-write step inline, without the primitive's standalone extra
//! tick, immediately followed by the corresponding logical or arithmetic
//! helper on the same resolved address, so no cycle is double-charged.

use vstd::prelude::*;

use crate::addressing_mode::{
    page_crossed, spec_page_crossed, spec_with_pc, AddressingMode,
};
use crate::cpu::Cpu;
use crate::decode::{Instruction, Mnemonic};
use crate::nes::{
    spec_push_stack, spec_push_stack_word, spec_pull_stack, spec_pull_stack_word, spec_read,
    spec_read_word, spec_tick, spec_write, Nes, NesView,
};
use crate::status::{
    spec_contains, spec_instruction_pushed, spec_pulled_status, spec_set, spec_zn, Status, FLAG_B,
    FLAG_C, FLAG_D, FLAG_I, FLAG_N, FLAG_V, FLAG_Z, OPERATED_B,
};

verus! {

/// Address of the IRQ/BRK vector.
pub const IRQ_VECTOR: u16 = 0xFFFE;

/// `v` with the status bits replaced.
pub open spec fn spec_with_p(v: NesView, bits: u8) -> NesView {
    NesView { cpu: Cpu { p: Status { bits }, ..v.cpu }, ..v }
}

/// `v` with the accumulator set to `m` and `Z`/`N` set from it.
pub open spec fn spec_set_a_zn(v: NesView, m: u8) -> NesView {
    NesView {
        cpu: Cpu { a: m, p: Status { bits: spec_zn(v.cpu.p.bits, m) }, ..v.cpu },
        ..v
    }
}

// ---------------------------------------------------------------------
// Loads, stores, transfers
// ---------------------------------------------------------------------

pub open spec fn spec_lda(v: NesView, operand: u16) -> NesView {
    let (v1, m) = spec_read(v, operand);
    spec_set_a_zn(v1, m)
}

pub open spec fn spec_ldx(v: NesView, operand: u16) -> NesView {
    let (v1, m) = spec_read(v, operand);
    NesView { cpu: Cpu { x: m, p: Status { bits: spec_zn(v1.cpu.p.bits, m) }, ..v1.cpu }, ..v1 }
}

pub open spec fn spec_ldy(v: NesView, operand: u16) -> NesView {
    let (v1, m) = spec_read(v, operand);
    NesView { cpu: Cpu { y: m, p: Status { bits: spec_zn(v1.cpu.p.bits, m) }, ..v1.cpu }, ..v1 }
}

pub open spec fn spec_sta(v: NesView, operand: u16) -> NesView {
    spec_write(v, operand, v.cpu.a)
}

pub open spec fn spec_stx(v: NesView, operand: u16) -> NesView {
    spec_write(v, operand, v.cpu.x)
}

pub open spec fn spec_sty(v: NesView, operand: u16) -> NesView {
    spec_write(v, operand, v.cpu.y)
}

pub open spec fn spec_tax(v: NesView) -> NesView {
    spec_tick(
        NesView {
            cpu: Cpu { x: v.cpu.a, p: Status { bits: spec_zn(v.cpu.p.bits, v.cpu.a) }, ..v.cpu },
            ..v
        },
    )
}

pub open spec fn spec_tay(v: NesView) -> NesView {
    spec_tick(
        NesView {
            cpu: Cpu { y: v.cpu.a, p: Status { bits: spec_zn(v.cpu.p.bits, v.cpu.a) }, ..v.cpu },
            ..v
        },
    )
}

pub open spec fn spec_txa(v: NesView) -> NesView {
    spec_tick(spec_set_a_zn(v, v.cpu.x))
}

pub open spec fn spec_tya(v: NesView) -> NesView {
    spec_tick(spec_set_a_zn(v, v.cpu.y))
}

pub open spec fn spec_tsx(v: NesView) -> NesView {
    spec_tick(
        NesView {
            cpu: Cpu { x: v.cpu.s, p: Status { bits: spec_zn(v.cpu.p.bits, v.cpu.s) }, ..v.cpu },
            ..v
        },
    )
}

/// `TXS` is the one transfer that updates no flags.
pub open spec fn spec_txs(v: NesView) -> NesView {
    spec_tick(NesView { cpu: Cpu { s: v.cpu.x, ..v.cpu }, ..v })
}

// ---------------------------------------------------------------------
// Stack instructions
// ---------------------------------------------------------------------

pub open spec fn spec_pha(v: NesView) -> NesView {
    spec_tick(spec_push_stack(v, v.cpu.a))
}

/// `PHP` pushes `P` with the instruction-pushed B-pattern (bits 5 and 4 set).
pub open spec fn spec_php(v: NesView) -> NesView {
    spec_tick(spec_push_stack(v, spec_instruction_pushed(v.cpu.p.bits)))
}

pub open spec fn spec_pla(v: NesView) -> NesView {
    let (v1, m) = spec_pull_stack(v);
    spec_tick(spec_tick(spec_set_a_zn(v1, m)))
}

/// `PLP` ignores the B bit of the pulled image and forces the reserved bit.
pub open spec fn spec_plp(v: NesView) -> NesView {
    let (v1, m) = spec_pull_stack(v);
    spec_tick(spec_tick(spec_with_p(v1, spec_pulled_status(m))))
}

// ---------------------------------------------------------------------
// Logical and arithmetic instructions
// ---------------------------------------------------------------------

pub open spec fn spec_and(v: NesView, operand: u16) -> NesView {
    let (v1, m) = spec_read(v, operand);
    spec_set_a_zn(v1, v.cpu.a & m)
}

pub open spec fn spec_eor(v: NesView, operand: u16) -> NesView {
    let (v1, m) = spec_read(v, operand);
    spec_set_a_zn(v1, v.cpu.a ^ m)
}

pub open spec fn spec_ora(v: NesView, operand: u16) -> NesView {
    let (v1, m) = spec_read(v, operand);
    spec_set_a_zn(v1, v.cpu.a | m)
}

pub open spec fn spec_bit(v: NesView, operand: u16) -> NesView {
    let (v1, m) = spec_read(v, operand);
    let p1 = spec_set(v1.cpu.p.bits, FLAG_Z, v.cpu.a & m == 0);
    let p2 = spec_set(p1, FLAG_V, m & 0x40 == 0x40);
    let p3 = spec_set(p2, FLAG_N, m & 0x80 == 0x80);
    spec_with_p(v1, p3)
}

/// The sum of the accumulator, an operand byte and the carry-in, as the
/// result byte, the carry-out, and the signed overflow: both addends with
/// the same sign as each other and a result of the opposite sign mean
/// overflow.
pub open spec fn spec_adc_math(a: u8, m: u8, cin: bool) -> (u8, bool, bool) {
    let sum = a + m + (if cin { 1 as int } else { 0 as int });
    let r = (sum % 256) as u8;
    let carry = sum > 255;
    let overflow = ((a ^ r) & (m ^ r)) & 0x80 == 0x80;
    (r, carry, overflow)
}

/// Add `m` plus carry into the accumulator, updating `C`, `V`, `Z`, `N`.
pub open spec fn spec_adc_with(v: NesView, m: u8) -> NesView {
    let (r, carry, overflow) = spec_adc_math(v.cpu.a, m, spec_contains(v.cpu.p.bits, FLAG_C));
    let p1 = spec_set(spec_set(v.cpu.p.bits, FLAG_C, carry), FLAG_V, overflow);
    NesView { cpu: Cpu { a: r, p: Status { bits: spec_zn(p1, r) }, ..v.cpu }, ..v }
}

pub open spec fn spec_adc(v: NesView, operand: u16) -> NesView {
    let (v1, m) = spec_read(v, operand);
    spec_adc_with(v1, m)
}

/// `SBC` is `ADC` of the complemented operand.
pub open spec fn spec_sbc(v: NesView, operand: u16) -> NesView {
    let (v1, m) = spec_read(v, operand);
    spec_adc_with(v1, !m)
}

/// Compare register value `x` against the byte at `operand`: the numeric
/// difference is discarded except for `Z`/`N`, and `C` is set iff there is
/// no borrow, i.e. `x >= m`.
pub open spec fn spec_cmp(v: NesView, x: u8, operand: u16) -> NesView {
    let (v1, m) = spec_read(v, operand);
    let r = ((x + 256 - m) % 256) as u8;
    let p1 = spec_zn(v1.cpu.p.bits, r);
    spec_with_p(v1, spec_set(p1, FLAG_C, x >= m))
}

// ---------------------------------------------------------------------
// Increment / decrement
// ---------------------------------------------------------------------

pub open spec fn spec_inc(v: NesView, operand: u16) -> NesView {
    let (v1, m) = spec_read(v, operand);
    let r = m.wrapping_add(1);
    let v2 = spec_write(v1, operand, r);
    spec_tick(spec_with_p(v2, spec_zn(v2.cpu.p.bits, r)))
}

pub open spec fn spec_dec(v: NesView, operand: u16) -> NesView {
    let (v1, m) = spec_read(v, operand);
    let r = m.wrapping_sub(1);
    let v2 = spec_write(v1, operand, r);
    spec_tick(spec_with_p(v2, spec_zn(v2.cpu.p.bits, r)))
}

pub open spec fn spec_inx(v: NesView) -> NesView {
    let r = v.cpu.x.wrapping_add(1);
    spec_tick(
        NesView { cpu: Cpu { x: r, p: Status { bits: spec_zn(v.cpu.p.bits, r) }, ..v.cpu }, ..v },
    )
}

pub open spec fn spec_iny(v: NesView) -> NesView {
    let r = v.cpu.y.wrapping_add(1);
    spec_tick(
        NesView { cpu: Cpu { y: r, p: Status { bits: spec_zn(v.cpu.p.bits, r) }, ..v.cpu }, ..v },
    )
}

pub open spec fn spec_dex(v: NesView) -> NesView {
    let r = v.cpu.x.wrapping_sub(1);
    spec_tick(
        NesView { cpu: Cpu { x: r, p: Status { bits: spec_zn(v.cpu.p.bits, r) }, ..v.cpu }, ..v },
    )
}

pub open spec fn spec_dey(v: NesView) -> NesView {
    let r = v.cpu.y.wrapping_sub(1);
    spec_tick(
        NesView { cpu: Cpu { y: r, p: Status { bits: spec_zn(v.cpu.p.bits, r) }, ..v.cpu }, ..v },
    )
}

// ---------------------------------------------------------------------
// Shift / rotate primitives: tick-free pure flag-and-value updates, shared
// by the official instructions and the undocumented composites, each of
// which decides on its own when to charge the extra cycle.
// ---------------------------------------------------------------------

/// Arithmetic shift left: bit 7 moves into `C`, `Z`/`N` from the result.
pub open spec fn spec_asl(v: NesView, m: u8) -> (NesView, u8) {
    let r = m << 1;
    let p = spec_zn(spec_set(v.cpu.p.bits, FLAG_C, m & 0x80 == 0x80), r);
    (spec_with_p(v, p), r)
}

/// Logical shift right: bit 0 moves into `C`, `Z`/`N` from the result.
pub open spec fn spec_lsr(v: NesView, m: u8) -> (NesView, u8) {
    let r = m >> 1;
    let p = spec_zn(spec_set(v.cpu.p.bits, FLAG_C, m & 1 == 1), r);
    (spec_with_p(v, p), r)
}

/// Rotate left through the carry flag.
pub open spec fn spec_rol(v: NesView, m: u8) -> (NesView, u8) {
    let r0 = m << 1;
    let r = if spec_contains(v.cpu.p.bits, FLAG_C) { r0 | 1 } else { r0 };
    let p = spec_zn(spec_set(v.cpu.p.bits, FLAG_C, m & 0x80 == 0x80), r);
    (spec_with_p(v, p), r)
}

/// Rotate right through the carry flag.
pub open spec fn spec_ror(v: NesView, m: u8) -> (NesView, u8) {
    let r0 = m >> 1;
    let r = if spec_contains(v.cpu.p.bits, FLAG_C) { r0 | 0x80 } else { r0 };
    let p = spec_zn(spec_set(v.cpu.p.bits, FLAG_C, m & 1 == 1), r);
    (spec_with_p(v, p), r)
}

/// A shift/rotate in `Accumulator` mode: operate on `A` directly, one
/// extra tick.
pub open spec fn spec_shift_acc(v: NesView, shifted: (NesView, u8)) -> NesView {
    let (v1, r) = shifted;
    spec_tick(NesView { cpu: Cpu { a: r, ..v1.cpu }, ..v1 })
}

// ---------------------------------------------------------------------
// Jumps, branches, subroutines
// ---------------------------------------------------------------------

pub open spec fn spec_jmp(v: NesView, operand: u16) -> NesView {
    spec_with_pc(v, operand)
}

/// `JSR` pushes the address of its own last byte (`PC - 1`), then jumps,
/// with one extra internal tick.
pub open spec fn spec_jsr(v: NesView, operand: u16) -> NesView {
    let v1 = spec_push_stack_word(v, v.cpu.pc.wrapping_sub(1));
    spec_tick(spec_with_pc(v1, operand))
}

/// `RTS` pulls the return address and increments it by one, with three
/// extra ticks.
pub open spec fn spec_rts(v: NesView) -> NesView {
    let (v1, w) = spec_pull_stack_word(v);
    spec_tick(spec_tick(spec_tick(spec_with_pc(v1, w.wrapping_add(1)))))
}

/// `RTI` pulls the flags (ignoring the stacked B-pattern) then the return
/// address, without incrementing it, with two extra ticks.
pub open spec fn spec_rti(v: NesView) -> NesView {
    let (v1, m) = spec_pull_stack(v);
    let v2 = spec_with_p(v1, spec_pulled_status(m));
    let (v3, w) = spec_pull_stack_word(v2);
    spec_tick(spec_tick(spec_with_pc(v3, w)))
}

/// The displacement byte of a relative branch, sign-extended to 16 bits.
pub open spec fn spec_sign_extend(operand: u16) -> u16 {
    if operand & 0x80 == 0x80 {
        operand | 0xFF00
    } else {
        operand
    }
}

/// A conditional branch: free when not taken; one extra tick when taken
/// and a further one when the target crosses a page from the following
/// instruction's address.
pub open spec fn spec_branch(v: NesView, operand: u16, cond: bool) -> NesView {
    if !cond {
        v
    } else {
        let off = spec_sign_extend(operand);
        let v1 = spec_tick(v);
        let v2 = if spec_page_crossed(off, v.cpu.pc) {
            spec_tick(v1)
        } else {
            v1
        };
        spec_with_pc(v2, v.cpu.pc.wrapping_add(off))
    }
}

/// `BRK`: push `PC`, set the instruction-pushed B-pattern in `P`, push
/// `P`, load `PC` from the IRQ vector, one extra tick.
pub open spec fn spec_brk(v: NesView) -> NesView {
    let v1 = spec_push_stack_word(v, v.cpu.pc);
    let v2 = spec_with_p(v1, v1.cpu.p.bits | OPERATED_B);
    let v3 = spec_push_stack(v2, v2.cpu.p.bits);
    let (v4, w) = spec_read_word(v3, IRQ_VECTOR);
    spec_tick(spec_with_pc(v4, w))
}

pub open spec fn spec_nop(v: NesView) -> NesView {
    spec_tick(v)
}

// ---------------------------------------------------------------------
// Undocumented composites
// ---------------------------------------------------------------------

/// `LAX`: load `A` and `X` at once.
pub open spec fn spec_lax(v: NesView, operand: u16) -> NesView {
    let (v1, m) = spec_read(v, operand);
    NesView {
        cpu: Cpu { a: m, x: m, p: Status { bits: spec_zn(v1.cpu.p.bits, m) }, ..v1.cpu },
        ..v1
    }
}

/// `SAX`: store `A & X`.
pub open spec fn spec_sax(v: NesView, operand: u16) -> NesView {
    spec_write(v, operand, v.cpu.a & v.cpu.x)
}

/// `DCP`: decrement memory (without the standalone tick), then compare.
pub open spec fn spec_dcp(v: NesView, operand: u16) -> NesView {
    let (v1, m) = spec_read(v, operand);
    let r = m.wrapping_sub(1);
    let v2 = spec_with_p(v1, spec_zn(v1.cpu.p.bits, r));
    let v3 = spec_write(v2, operand, r);
    spec_cmp(v3, v3.cpu.a, operand)
}

/// `ISB`: increment memory (without the standalone tick), then subtract.
pub open spec fn spec_isb(v: NesView, operand: u16) -> NesView {
    let (v1, m) = spec_read(v, operand);
    let r = m.wrapping_add(1);
    let v2 = spec_with_p(v1, spec_zn(v1.cpu.p.bits, r));
    let v3 = spec_write(v2, operand, r);
    spec_sbc(v3, operand)
}

/// `SLO`: shift left in memory (without the standalone tick or `Z`/`N`
/// update), then OR.
pub open spec fn spec_slo(v: NesView, operand: u16) -> NesView {
    let (v1, m) = spec_read(v, operand);
    let v2 = spec_with_p(v1, spec_set(v1.cpu.p.bits, FLAG_C, m & 0x80 == 0x80));
    let v3 = spec_write(v2, operand, m << 1);
    spec_ora(v3, operand)
}

/// `RLA`: rotate left in memory (without the standalone tick), then AND.
pub open spec fn spec_rla(v: NesView, operand: u16) -> NesView {
    let (v1, m) = spec_read(v, operand);
    let (v2, r) = spec_rol(v1, m);
    let v3 = spec_write(v2, operand, r);
    spec_and(v3, operand)
}

/// `SRE`: shift right in memory (without the standalone tick), then XOR.
pub open spec fn spec_sre(v: NesView, operand: u16) -> NesView {
    let (v1, m) = spec_read(v, operand);
    let (v2, r) = spec_lsr(v1, m);
    let v3 = spec_write(v2, operand, r);
    spec_eor(v3, operand)
}

/// `RRA`: rotate right in memory (without the standalone tick), then add.
pub open spec fn spec_rra(v: NesView, operand: u16) -> NesView {
    let (v1, m) = spec_read(v, operand);
    let (v2, r) = spec_ror(v1, m);
    let v3 = spec_write(v2, operand, r);
    spec_adc(v3, operand)
}

// ---------------------------------------------------------------------
// The dispatcher
// ---------------------------------------------------------------------

/// The full executor as a mathematical next-state function: the machine
/// after executing `inst` with resolved operand `operand`.
pub open spec fn spec_execute(v: NesView, inst: Instruction, operand: u16) -> NesView {
    let p = v.cpu.p.bits;
    match inst.0 {
        Mnemonic::LDA => spec_lda(v, operand),
        Mnemonic::LDX => spec_ldx(v, operand),
        Mnemonic::LDY => spec_ldy(v, operand),
        Mnemonic::STA => spec_sta(v, operand),
        Mnemonic::STX => spec_stx(v, operand),
        Mnemonic::STY => spec_sty(v, operand),
        Mnemonic::TAX => spec_tax(v),
        Mnemonic::TAY => spec_tay(v),
        Mnemonic::TXA => spec_txa(v),
        Mnemonic::TYA => spec_tya(v),
        Mnemonic::TSX => spec_tsx(v),
        Mnemonic::TXS => spec_txs(v),
        Mnemonic::PHA => spec_pha(v),
        Mnemonic::PHP => spec_php(v),
        Mnemonic::PLA => spec_pla(v),
        Mnemonic::PLP => spec_plp(v),
        Mnemonic::AND => spec_and(v, operand),
        Mnemonic::EOR => spec_eor(v, operand),
        Mnemonic::ORA => spec_ora(v, operand),
        Mnemonic::BIT => spec_bit(v, operand),
        Mnemonic::ADC => spec_adc(v, operand),
        Mnemonic::SBC => spec_sbc(v, operand),
        Mnemonic::CMP => spec_cmp(v, v.cpu.a, operand),
        Mnemonic::CPX => spec_cmp(v, v.cpu.x, operand),
        Mnemonic::CPY => spec_cmp(v, v.cpu.y, operand),
        Mnemonic::INC => spec_inc(v, operand),
        Mnemonic::INX => spec_inx(v),
        Mnemonic::INY => spec_iny(v),
        Mnemonic::DEC => spec_dec(v, operand),
        Mnemonic::DEX => spec_dex(v),
        Mnemonic::DEY => spec_dey(v),
        Mnemonic::ASL => if inst.1 == AddressingMode::Accumulator {
            spec_shift_acc(v, spec_asl(v, v.cpu.a))
        } else {
            let (v1, m) = spec_read(v, operand);
            let (v2, r) = spec_asl(v1, m);
            spec_write(spec_tick(v2), operand, r)
        },
        Mnemonic::LSR => if inst.1 == AddressingMode::Accumulator {
            spec_shift_acc(v, spec_lsr(v, v.cpu.a))
        } else {
            let (v1, m) = spec_read(v, operand);
            let (v2, r) = spec_lsr(v1, m);
            spec_write(spec_tick(v2), operand, r)
        },
        Mnemonic::ROL => if inst.1 == AddressingMode::Accumulator {
            spec_shift_acc(v, spec_rol(v, v.cpu.a))
        } else {
            let (v1, m) = spec_read(v, operand);
            let (v2, r) = spec_rol(v1, m);
            spec_write(spec_tick(v2), operand, r)
        },
        Mnemonic::ROR => if inst.1 == AddressingMode::Accumulator {
            spec_shift_acc(v, spec_ror(v, v.cpu.a))
        } else {
            let (v1, m) = spec_read(v, operand);
            let (v2, r) = spec_ror(v1, m);
            spec_write(spec_tick(v2), operand, r)
        },
        Mnemonic::JMP => spec_jmp(v, operand),
        Mnemonic::JSR => spec_jsr(v, operand),
        Mnemonic::RTS => spec_rts(v),
        Mnemonic::RTI => spec_rti(v),
        Mnemonic::BCC => spec_branch(v, operand, !spec_contains(p, FLAG_C)),
        Mnemonic::BCS => spec_branch(v, operand, spec_contains(p, FLAG_C)),
        Mnemonic::BEQ => spec_branch(v, operand, spec_contains(p, FLAG_Z)),
        Mnemonic::BMI => spec_branch(v, operand, spec_contains(p, FLAG_N)),
        Mnemonic::BNE => spec_branch(v, operand, !spec_contains(p, FLAG_Z)),
        Mnemonic::BPL => spec_branch(v, operand, !spec_contains(p, FLAG_N)),
        Mnemonic::BVC => spec_branch(v, operand, !spec_contains(p, FLAG_V)),
        Mnemonic::BVS => spec_branch(v, operand, spec_contains(p, FLAG_V)),
        Mnemonic::CLC => spec_tick(spec_with_p(v, p & !FLAG_C)),
        Mnemonic::CLD => spec_tick(spec_with_p(v, p & !FLAG_D)),
        Mnemonic::CLI => spec_tick(spec_with_p(v, p & !FLAG_I)),
        Mnemonic::CLV => spec_tick(spec_with_p(v, p & !FLAG_V)),
        Mnemonic::SEC => spec_tick(spec_with_p(v, p | FLAG_C)),
        Mnemonic::SED => spec_tick(spec_with_p(v, p | FLAG_D)),
        Mnemonic::SEI => spec_tick(spec_with_p(v, p | FLAG_I)),
        Mnemonic::BRK => spec_brk(v),
        Mnemonic::NOP => spec_nop(v),
        Mnemonic::LAX => spec_lax(v, operand),
        Mnemonic::SAX => spec_sax(v, operand),
        Mnemonic::DCP => spec_dcp(v, operand),
        Mnemonic::ISB => spec_isb(v, operand),
        Mnemonic::SLO => spec_slo(v, operand),
        Mnemonic::RLA => spec_rla(v, operand),
        Mnemonic::SRE => spec_sre(v, operand),
        Mnemonic::RRA => spec_rra(v, operand),
    }
}

// ---------------------------------------------------------------------
// Executable helpers
// ---------------------------------------------------------------------

/// AND the byte at `operand` into the accumulator.
pub fn and(nes: &mut Nes, operand: u16)
    requires
        old(nes)@.wf(),
    ensures
        final(nes)@ == spec_and(old(nes)@, operand),
        final(nes)@.wf(),
{
    let m = nes.read(operand);
    let r = nes.cpu.a & m;
    nes.cpu.a = r;
    nes.cpu.p.set_zn(r);
}

/// XOR the byte at `operand` into the accumulator.
pub fn eor(nes: &mut Nes, operand: u16)
    requires
        old(nes)@.wf(),
    ensures
        final(nes)@ == spec_eor(old(nes)@, operand),
        final(nes)@.wf(),
{
    let m = nes.read(operand);
    let r = nes.cpu.a ^ m;
    nes.cpu.a = r;
    nes.cpu.p.set_zn(r);
}

/// OR the byte at `operand` into the accumulator.
pub fn ora(nes: &mut Nes, operand: u16)
    requires
        old(nes)@.wf(),
    ensures
        final(nes)@ == spec_ora(old(nes)@, operand),
        final(nes)@.wf(),
{
    let m = nes.read(operand);
    let r = nes.cpu.a | m;
    nes.cpu.a = r;
    nes.cpu.p.set_zn(r);
}

/// Add `m` plus carry-in into the accumulator, deriving carry-out and
/// signed overflow from the sign bits.
fn adc_with(nes: &mut Nes, m: u8)
    ensures
        final(nes)@ == spec_adc_with(old(nes)@, m),
{
    let a = nes.cpu.a;
    let cin: u16 = if nes.cpu.p.contains(FLAG_C) {
        1
    } else {
        0
    };
    let sum: u16 = a as u16 + m as u16 + cin;
    let r: u8 = (sum % 256) as u8;
    nes.cpu.p.set(FLAG_C, sum > 255);
    nes.cpu.p.set(FLAG_V, ((a ^ r) & (m ^ r)) & 0x80 == 0x80);
    nes.cpu.a = r;
    nes.cpu.p.set_zn(r);
}

/// `ADC`: add with carry.
pub fn adc(nes: &mut Nes, operand: u16)
    requires
        old(nes)@.wf(),
    ensures
        final(nes)@ == spec_adc(old(nes)@, operand),
        final(nes)@.wf(),
{
    let m = nes.read(operand);
    adc_with(nes, m);
}

/// `SBC`: subtract with borrow, as addition of the complemented operand.
pub fn sbc(nes: &mut Nes, operand: u16)
    requires
        old(nes)@.wf(),
    ensures
        final(nes)@ == spec_sbc(old(nes)@, operand),
        final(nes)@.wf(),
{
    let m = nes.read(operand);
    adc_with(nes, !m);
}

/// Compare register value `x` against the byte at `operand`.
pub fn cmp(nes: &mut Nes, x: u8, operand: u16)
    requires
        old(nes)@.wf(),
    ensures
        final(nes)@ == spec_cmp(old(nes)@, x, operand),
        final(nes)@.wf(),
{
    let m = nes.read(operand);
    let r: u8 = ((x as u16 + 256 - m as u16) % 256) as u8;
    nes.cpu.p.set_zn(r);
    nes.cpu.p.set(FLAG_C, x >= m);
}

/// Arithmetic-shift-left primitive: updates `C`, `Z`, `N`, returns the
/// shifted byte, charges no tick.
pub fn asl(nes: &mut Nes, m: u8) -> (r: u8)
    ensures
        final(nes)@ == spec_asl(old(nes)@, m).0,
        r == spec_asl(old(nes)@, m).1,
{
    nes.cpu.p.set(FLAG_C, m & 0x80 == 0x80);
    let r = m << 1;
    nes.cpu.p.set_zn(r);
    r
}

/// Logical-shift-right primitive.
pub fn lsr(nes: &mut Nes, m: u8) -> (r: u8)
    ensures
        final(nes)@ == spec_lsr(old(nes)@, m).0,
        r == spec_lsr(old(nes)@, m).1,
{
    nes.cpu.p.set(FLAG_C, m & 1 == 1);
    let r = m >> 1;
    nes.cpu.p.set_zn(r);
    r
}

/// Rotate-left primitive.
pub fn rol(nes: &mut Nes, m: u8) -> (r: u8)
    ensures
        final(nes)@ == spec_rol(old(nes)@, m).0,
        r == spec_rol(old(nes)@, m).1,
{
    let carry_in = nes.cpu.p.contains(FLAG_C);
    let r0 = m << 1;
    let r = if carry_in {
        r0 | 1
    } else {
        r0
    };
    nes.cpu.p.set(FLAG_C, m & 0x80 == 0x80);
    nes.cpu.p.set_zn(r);
    r
}

/// Rotate-right primitive.
pub fn ror(nes: &mut Nes, m: u8) -> (r: u8)
    ensures
        final(nes)@ == spec_ror(old(nes)@, m).0,
        r == spec_ror(old(nes)@, m).1,
{
    let carry_in = nes.cpu.p.contains(FLAG_C);
    let r0 = m >> 1;
    let r = if carry_in {
        r0 | 0x80
    } else {
        r0
    };
    nes.cpu.p.set(FLAG_C, m & 1 == 1);
    nes.cpu.p.set_zn(r);
    r
}

/// Take a conditional branch when `cond` holds: one tick, a second on a
/// page crossing, and `PC` moves by the sign-extended displacement.
pub fn branch(nes: &mut Nes, operand: u16, cond: bool)
    requires
        old(nes)@.wf(),
    ensures
        final(nes)@ == spec_branch(old(nes)@, operand, cond),
        final(nes)@.wf(),
{
    if !cond {
        return ;
    }
    let off: u16 = if operand & 0x80 == 0x80 {
        operand | 0xFF00
    } else {
        operand
    };
    let base = nes.cpu.pc;
    nes.tick();
    if page_crossed(off, base) {
        nes.tick();
    }
    nes.cpu.pc = base.wrapping_add(off);
}

/// `DCP`: decrement the byte at `operand` then compare `A` against it.
fn dcp(nes: &mut Nes, operand: u16)
    requires
        old(nes)@.wf(),
    ensures
        final(nes)@ == spec_dcp(old(nes)@, operand),
        final(nes)@.wf(),
{
    let m = nes.read(operand);
    let r = m.wrapping_sub(1);
    nes.cpu.p.set_zn(r);
    nes.write(operand, r);
    let a = nes.cpu.a;
    cmp(nes, a, operand);
}

/// `ISB`: increment the byte at `operand` then subtract it from `A`.
fn isb(nes: &mut Nes, operand: u16)
    requires
        old(nes)@.wf(),
    ensures
        final(nes)@ == spec_isb(old(nes)@, operand),
        final(nes)@.wf(),
{
    let m = nes.read(operand);
    let r = m.wrapping_add(1);
    nes.cpu.p.set_zn(r);
    nes.write(operand, r);
    sbc(nes, operand);
}

/// `SLO`: shift the byte at `operand` left then OR it into `A`.
fn slo(nes: &mut Nes, operand: u16)
    requires
        old(nes)@.wf(),
    ensures
        final(nes)@ == spec_slo(old(nes)@, operand),
        final(nes)@.wf(),
{
    let m = nes.read(operand);
    nes.cpu.p.set(FLAG_C, m & 0x80 == 0x80);
    nes.write(operand, m << 1);
    ora(nes, operand);
}

/// `RLA`: rotate the byte at `operand` left then AND it into `A`.
fn rla(nes: &mut Nes, operand: u16)
    requires
        old(nes)@.wf(),
    ensures
        final(nes)@ == spec_rla(old(nes)@, operand),
        final(nes)@.wf(),
{
    let m = nes.read(operand);
    let r = rol(nes, m);
    nes.write(operand, r);
    and(nes, operand);
}

/// `SRE`: shift the byte at `operand` right then XOR it into `A`.
fn sre(nes: &mut Nes, operand: u16)
    requires
        old(nes)@.wf(),
    ensures
        final(nes)@ == spec_sre(old(nes)@, operand),
        final(nes)@.wf(),
{
    let m = nes.read(operand);
    let r = lsr(nes, m);
    nes.write(operand, r);
    eor(nes, operand);
}

/// `RRA`: rotate the byte at `operand` right then add it into `A`.
fn rra(nes: &mut Nes, operand: u16)
    requires
        old(nes)@.wf(),
    ensures
        final(nes)@ == spec_rra(old(nes)@, operand),
        final(nes)@.wf(),
{
    let m = nes.read(operand);
    let r = ror(nes, m);
    nes.write(operand, r);
    adc(nes, operand);
}

/// A shift/rotate instruction in a memory mode: read, flags and result
/// via the tick-free primitive, one tick, write back.
fn shift_mem(nes: &mut Nes, mnemonic: Mnemonic, operand: u16)
    requires
        old(nes)@.wf(),
        mnemonic == Mnemonic::ASL || mnemonic == Mnemonic::LSR || mnemonic == Mnemonic::ROL
            || mnemonic == Mnemonic::ROR,
    ensures
        final(nes)@ == ({
            let (v1, m) = spec_read(old(nes)@, operand);
            let (v2, r) = match mnemonic {
                Mnemonic::ASL => spec_asl(v1, m),
                Mnemonic::LSR => spec_lsr(v1, m),
                Mnemonic::ROL => spec_rol(v1, m),
                _ => spec_ror(v1, m),
            };
            spec_write(spec_tick(v2), operand, r)
        }),
        final(nes)@.wf(),
{
    let m = nes.read(operand);
    let r = match mnemonic {
        Mnemonic::ASL => asl(nes, m),
        Mnemonic::LSR => lsr(nes, m),
        Mnemonic::ROL => rol(nes, m),
        _ => ror(nes, m),
    };
    nes.tick();
    nes.write(operand, r);
}

/// Execute one decoded instruction on its resolved operand.
pub fn execute(nes: &mut Nes, inst: Instruction, operand: u16)
    requires
        old(nes)@.wf(),
    ensures
        final(nes)@ == spec_execute(old(nes)@, inst, operand),
        final(nes)@.wf(),
{
    let (mnemonic, mode) = inst;
    match mnemonic {
        Mnemonic::LDA => {
            let m = nes.read(operand);
            nes.cpu.a = m;
            nes.cpu.p.set_zn(m);
        },
        Mnemonic::LDX => {
            let m = nes.read(operand);
            nes.cpu.x = m;
            nes.cpu.p.set_zn(m);
        },
        Mnemonic::LDY => {
            let m = nes.read(operand);
            nes.cpu.y = m;
            nes.cpu.p.set_zn(m);
        },
        Mnemonic::STA => {
            let a = nes.cpu.a;
            nes.write(operand, a);
        },
        Mnemonic::STX => {
            let x = nes.cpu.x;
            nes.write(operand, x);
        },
        Mnemonic::STY => {
            let y = nes.cpu.y;
            nes.write(operand, y);
        },
        Mnemonic::TAX => {
            let a = nes.cpu.a;
            nes.cpu.x = a;
            nes.cpu.p.set_zn(a);
            nes.tick();
        },
        Mnemonic::TAY => {
            let a = nes.cpu.a;
            nes.cpu.y = a;
            nes.cpu.p.set_zn(a);
            nes.tick();
        },
        Mnemonic::TXA => {
            let x = nes.cpu.x;
            nes.cpu.a = x;
            nes.cpu.p.set_zn(x);
            nes.tick();
        },
        Mnemonic::TYA => {
            let y = nes.cpu.y;
            nes.cpu.a = y;
            nes.cpu.p.set_zn(y);
            nes.tick();
        },
        Mnemonic::TSX => {
            let s = nes.cpu.s;
            nes.cpu.x = s;
            nes.cpu.p.set_zn(s);
            nes.tick();
        },
        Mnemonic::TXS => {
            nes.cpu.s = nes.cpu.x;
            nes.tick();
        },
        Mnemonic::PHA => {
            let a = nes.cpu.a;
            nes.push_stack(a);
            nes.tick();
        },
        Mnemonic::PHP => {
            let p = nes.cpu.p.bits | OPERATED_B;
            nes.push_stack(p);
            nes.tick();
        },
        Mnemonic::PLA => {
            let m = nes.pull_stack();
            nes.cpu.a = m;
            nes.cpu.p.set_zn(m);
            nes.tick();
            nes.tick();
        },
        Mnemonic::PLP => {
            let m = nes.pull_stack();
            nes.cpu.p = Status { bits: (m & !FLAG_B) | crate::status::FLAG_R };
            nes.tick();
            nes.tick();
        },
        Mnemonic::AND => and(nes, operand),
        Mnemonic::EOR => eor(nes, operand),
        Mnemonic::ORA => ora(nes, operand),
        Mnemonic::BIT => {
            let m = nes.read(operand);
            let a = nes.cpu.a;
            nes.cpu.p.set(FLAG_Z, a & m == 0);
            nes.cpu.p.set(FLAG_V, m & 0x40 == 0x40);
            nes.cpu.p.set(FLAG_N, m & 0x80 == 0x80);
        },
        Mnemonic::ADC => adc(nes, operand),
        Mnemonic::SBC => sbc(nes, operand),
        Mnemonic::CMP => {
            let a = nes.cpu.a;
            cmp(nes, a, operand);
        },
        Mnemonic::CPX => {
            let x = nes.cpu.x;
            cmp(nes, x, operand);
        },
        Mnemonic::CPY => {
            let y = nes.cpu.y;
            cmp(nes, y, operand);
        },
        Mnemonic::INC => {
            let m = nes.read(operand);
            let r = m.wrapping_add(1);
            nes.write(operand, r);
            nes.cpu.p.set_zn(r);
            nes.tick();
        },
        Mnemonic::INX => {
            let r = nes.cpu.x.wrapping_add(1);
            nes.cpu.x = r;
            nes.cpu.p.set_zn(r);
            nes.tick();
        },
        Mnemonic::INY => {
            let r = nes.cpu.y.wrapping_add(1);
            nes.cpu.y = r;
            nes.cpu.p.set_zn(r);
            nes.tick();
        },
        Mnemonic::DEC => {
            let m = nes.read(operand);
            let r = m.wrapping_sub(1);
            nes.write(operand, r);
            nes.cpu.p.set_zn(r);
            nes.tick();
        },
        Mnemonic::DEX => {
            let r = nes.cpu.x.wrapping_sub(1);
            nes.cpu.x = r;
            nes.cpu.p.set_zn(r);
            nes.tick();
        },
        Mnemonic::DEY => {
            let r = nes.cpu.y.wrapping_sub(1);
            nes.cpu.y = r;
            nes.cpu.p.set_zn(r);
            nes.tick();
        },
        Mnemonic::ASL => {
            if mode == AddressingMode::Accumulator {
                let a = nes.cpu.a;
                let r = asl(nes, a);
                nes.cpu.a = r;
                nes.tick();
            } else {
                shift_mem(nes, Mnemonic::ASL, operand);
            }
        },
        Mnemonic::LSR => {
            if mode == AddressingMode::Accumulator {
                let a = nes.cpu.a;
                let r = lsr(nes, a);
                nes.cpu.a = r;
                nes.tick();
            } else {
                shift_mem(nes, Mnemonic::LSR, operand);
            }
        },
        Mnemonic::ROL => {
            if mode == AddressingMode::Accumulator {
                let a = nes.cpu.a;
                let r = rol(nes, a);
                nes.cpu.a = r;
                nes.tick();
            } else {
                shift_mem(nes, Mnemonic::ROL, operand);
            }
        },
        Mnemonic::ROR => {
            if mode == AddressingMode::Accumulator {
                let a = nes.cpu.a;
                let r = ror(nes, a);
                nes.cpu.a = r;
                nes.tick();
            } else {
                shift_mem(nes, Mnemonic::ROR, operand);
            }
        },
        Mnemonic::JMP => {
            nes.cpu.pc = operand;
        },
        Mnemonic::JSR => {
            let rtn = nes.cpu.pc.wrapping_sub(1);
            nes.push_stack_word(rtn);
            nes.cpu.pc = operand;
            nes.tick();
        },
        Mnemonic::RTS => {
            let w = nes.pull_stack_word();
            nes.cpu.pc = w.wrapping_add(1);
            nes.tick();
            nes.tick();
            nes.tick();
        },
        Mnemonic::RTI => {
            let m = nes.pull_stack();
            nes.cpu.p = Status { bits: (m & !FLAG_B) | crate::status::FLAG_R };
            let w = nes.pull_stack_word();
            nes.cpu.pc = w;
            nes.tick();
            nes.tick();
        },
        Mnemonic::BCC => {
            let cond = !nes.cpu.p.contains(FLAG_C);
            branch(nes, operand, cond);
        },
        Mnemonic::BCS => {
            let cond = nes.cpu.p.contains(FLAG_C);
            branch(nes, operand, cond);
        },
        Mnemonic::BEQ => {
            let cond = nes.cpu.p.contains(FLAG_Z);
            branch(nes, operand, cond);
        },
        Mnemonic::BMI => {
            let cond = nes.cpu.p.contains(FLAG_N);
            branch(nes, operand, cond);
        },
        Mnemonic::BNE => {
            let cond = !nes.cpu.p.contains(FLAG_Z);
            branch(nes, operand, cond);
        },
        Mnemonic::BPL => {
            let cond = !nes.cpu.p.contains(FLAG_N);
            branch(nes, operand, cond);
        },
        Mnemonic::BVC => {
            let cond = !nes.cpu.p.contains(FLAG_V);
            branch(nes, operand, cond);
        },
        Mnemonic::BVS => {
            let cond = nes.cpu.p.contains(FLAG_V);
            branch(nes, operand, cond);
        },
        Mnemonic::CLC => {
            nes.cpu.p.remove(FLAG_C);
            nes.tick();
        },
        Mnemonic::CLD => {
            nes.cpu.p.remove(FLAG_D);
            nes.tick();
        },
        Mnemonic::CLI => {
            nes.cpu.p.remove(FLAG_I);
            nes.tick();
        },
        Mnemonic::CLV => {
            nes.cpu.p.remove(FLAG_V);
            nes.tick();
        },
        Mnemonic::SEC => {
            nes.cpu.p.insert(FLAG_C);
            nes.tick();
        },
        Mnemonic::SED => {
            nes.cpu.p.insert(FLAG_D);
            nes.tick();
        },
        Mnemonic::SEI => {
            nes.cpu.p.insert(FLAG_I);
            nes.tick();
        },
        Mnemonic::BRK => {
            let pc = nes.cpu.pc;
            nes.push_stack_word(pc);
            nes.cpu.p.insert(OPERATED_B);
            let p = nes.cpu.p.bits;
            nes.push_stack(p);
            let w = nes.read_word(IRQ_VECTOR);
            nes.cpu.pc = w;
            nes.tick();
        },
        Mnemonic::NOP => {
            nes.tick();
        },
        Mnemonic::LAX => {
            let m = nes.read(operand);
            nes.cpu.a = m;
            nes.cpu.x = m;
            nes.cpu.p.set_zn(m);
        },
        Mnemonic::SAX => {
            let r = nes.cpu.a & nes.cpu.x;
            nes.write(operand, r);
        },
        Mnemonic::DCP => dcp(nes, operand),
        Mnemonic::ISB => isb(nes, operand),
        Mnemonic::SLO => slo(nes, operand),
        Mnemonic::RLA => rla(nes, operand),
        Mnemonic::SRE => sre(nes, operand),
        Mnemonic::RRA => rra(nes, operand),
    }
}

} // verus!
