//! Laws that relate several operations of the core to one another: flag
//! round trips through the stack and the interrupt/return-from-interrupt
//! round trip.

use vstd::prelude::*;

use crate::decode::Mnemonic;
use crate::addressing_mode::AddressingMode;
use crate::instruction::{spec_execute, spec_php, spec_plp};
use crate::interrupt::Interrupt;
use crate::interrupt_handler::spec_handle_interrupt;
use crate::nes::{spec_indirect_high_addr, spec_mem_read, spec_word, NesView};
use crate::status::{
    spec_contains, spec_instruction_pushed, spec_interrupt_pushed, spec_pulled_status, FLAG_I,
    OPERATED_B,
};

verus! {

/// The address an indirect pointer's high byte is fetched from always
/// stays within the page of the pointer address: its high byte is that of
/// the pointer address itself, and its low byte is the pointer's low byte
/// plus one modulo 256 — so a pointer whose low byte is 0xFF reads its
/// high byte from the start of the same page, never from the next one.
pub proof fn lemma_indirect_high_addr_stays_in_page(addr: u16)
    ensures
        spec_indirect_high_addr(addr) / 0x100 == addr / 0x100,
        spec_indirect_high_addr(addr) % 0x100 == (addr % 0x100 + 1) % 0x100,
{
    let w: u16 = addr.wrapping_add(1);
    assert(((addr & 0xFF00) | (w & 0xFF)) / 0x100 == addr / 0x100 && ((addr & 0xFF00) | (w
        & 0xFF)) % 0x100 == w % 0x100) by (bit_vector);
    assert(w % 0x100 == (addr % 0x100 + 1) % 0x100);
}

/// Splitting a word into its low and high bytes and reassembling them
/// gives the word back.
pub proof fn lemma_word_round_trip(w: u16)
    by (bit_vector)
    ensures
        spec_word((w & 0xFF) as u8, (w >> 8) as u8) == w,
{
}

/// A status byte pushed with either B-pattern and then pulled back agrees
/// with the original on every bit outside the B-pattern bits, which exist
/// only in the stack image.
pub proof fn lemma_flag_image_round_trip(p: u8)
    by (bit_vector)
    ensures
        spec_pulled_status(spec_instruction_pushed(p)) & !OPERATED_B == p & !OPERATED_B,
        spec_pulled_status(spec_interrupt_pushed(p)) & !OPERATED_B == p & !OPERATED_B,
{
}

/// Pushing `P` with `PHP` and pulling it back with `PLP` preserves every
/// status bit outside the B-pattern bits, and restores the stack pointer,
/// registers and program counter.
pub proof fn lemma_php_plp_round_trip(v: NesView)
    requires
        v.wf(),
    ensures
        ({
            let w = spec_plp(spec_php(v));
            &&& w.cpu.p.bits & !OPERATED_B == v.cpu.p.bits & !OPERATED_B
            &&& w.cpu.s == v.cpu.s
            &&& w.cpu.a == v.cpu.a
            &&& w.cpu.x == v.cpu.x
            &&& w.cpu.y == v.cpu.y
            &&& w.cpu.pc == v.cpu.pc
        }),
{
    let s = v.cpu.s;
    assert(s.wrapping_sub(1).wrapping_add(1) == s);
    lemma_flag_image_round_trip(v.cpu.p.bits);
}

/// Servicing a pending NMI at an instruction boundary pushes the current
/// `PC` and `P`, sets the interrupt-disable flag, loads `PC` from the NMI
/// vector and clears the request; a subsequent `RTI` restores the
/// original `PC` and, modulo the B-pattern bits, the original `P`.
pub proof fn lemma_nmi_round_trip(v: NesView)
    requires
        v.wf(),
        v.interrupt == Some(Interrupt::NMI),
    ensures
        ({
            let w = spec_handle_interrupt(v);
            let u = spec_execute(w, (Mnemonic::RTI, AddressingMode::Implicit), 0);
            &&& w.cpu.pc == spec_word(spec_mem_read(v, 0xFFFA), spec_mem_read(v, 0xFFFB))
            &&& spec_contains(w.cpu.p.bits, FLAG_I)
            &&& w.interrupt is None
            &&& u.cpu.pc == v.cpu.pc
            &&& u.cpu.p.bits & !OPERATED_B == v.cpu.p.bits & !OPERATED_B
            &&& u.cpu.s == v.cpu.s
        }),
{
    let s = v.cpu.s;
    let s1 = s.wrapping_sub(1);
    let s2 = s1.wrapping_sub(1);
    assert(s2.wrapping_add(1) == s1 && s1.wrapping_add(1) == s && s2.wrapping_sub(1).wrapping_add(
        1,
    ) == s2);
    assert(s != s1 && s != s2 && s1 != s2);
    let p = v.cpu.p.bits;
    lemma_flag_image_round_trip(p);
    assert((p | FLAG_I) & FLAG_I == FLAG_I) by (bit_vector);
    lemma_word_round_trip(v.cpu.pc);
}

/// A pending IRQ is left pending, and the machine untouched, while the
/// interrupt-disable flag is set; servicing waits for the flag to clear.
pub proof fn lemma_irq_masked(v: NesView)
    requires
        v.interrupt == Some(Interrupt::IRQ),
        spec_contains(v.cpu.p.bits, FLAG_I),
    ensures
        spec_handle_interrupt(v) == v,
{
}

} // verus!
