//! Instruction-semantics tests: arithmetic and flag behavior, stack
//! wraparound, shifts, and the undocumented composites.

use nes_core::instruction::execute;
use nes_core::status::{FLAG_C, FLAG_N, FLAG_V, FLAG_Z};
use nes_core::{AddressingMode, Mnemonic, Nes};

fn machine() -> Nes {
    Nes::new()
}

fn flag(nes: &Nes, mask: u8) -> bool {
    nes.cpu.p.bits & mask == mask
}

#[test]
fn adc_sets_negative_and_overflow_on_like_signed_operands() {
    // A = 0x50 plus 0x50 with carry-in 0: result 0xA0, N=1, V=1, C=0, Z=0.
    let mut nes = machine();
    nes.cpu.a = 0x50;
    nes.ram[0x10] = 0x50;
    execute(&mut nes, (Mnemonic::ADC, AddressingMode::ZeroPage), 0x0010);
    assert_eq!(nes.cpu.a, 0xA0);
    assert!(flag(&nes, FLAG_N));
    assert!(flag(&nes, FLAG_V));
    assert!(!flag(&nes, FLAG_C));
    assert!(!flag(&nes, FLAG_Z));
}

#[test]
fn adc_carries_out_on_unsigned_overflow() {
    let mut nes = machine();
    nes.cpu.a = 0xFF;
    nes.ram[0x10] = 0x01;
    execute(&mut nes, (Mnemonic::ADC, AddressingMode::ZeroPage), 0x0010);
    assert_eq!(nes.cpu.a, 0x00);
    assert!(flag(&nes, FLAG_C));
    assert!(flag(&nes, FLAG_Z));
    assert!(!flag(&nes, FLAG_V));
}

#[test]
fn adc_adds_the_carry_in() {
    let mut nes = machine();
    nes.cpu.a = 0x10;
    nes.cpu.p.bits = FLAG_C;
    nes.ram[0x10] = 0x20;
    execute(&mut nes, (Mnemonic::ADC, AddressingMode::ZeroPage), 0x0010);
    assert_eq!(nes.cpu.a, 0x31);
}

#[test]
fn sbc_subtracts_with_borrow() {
    // With carry set (no borrow): 0x50 - 0x10 = 0x40, C=1.
    let mut nes = machine();
    nes.cpu.a = 0x50;
    nes.cpu.p.bits = FLAG_C;
    nes.ram[0x10] = 0x10;
    execute(&mut nes, (Mnemonic::SBC, AddressingMode::ZeroPage), 0x0010);
    assert_eq!(nes.cpu.a, 0x40);
    assert!(flag(&nes, FLAG_C));
    // With carry clear, one more is subtracted.
    let mut nes = machine();
    nes.cpu.a = 0x50;
    nes.ram[0x10] = 0x10;
    execute(&mut nes, (Mnemonic::SBC, AddressingMode::ZeroPage), 0x0010);
    assert_eq!(nes.cpu.a, 0x3F);
}

#[test]
fn cmp_of_equal_values_sets_zero_and_carry() {
    // A = 0x10 compared with 0x10: Z=1, C=1, N=0.
    let mut nes = machine();
    nes.cpu.a = 0x10;
    nes.ram[0x20] = 0x10;
    execute(&mut nes, (Mnemonic::CMP, AddressingMode::ZeroPage), 0x0020);
    assert_eq!(nes.cpu.a, 0x10);
    assert!(flag(&nes, FLAG_Z));
    assert!(flag(&nes, FLAG_C));
    assert!(!flag(&nes, FLAG_N));
}

#[test]
fn cmp_of_smaller_register_clears_carry() {
    let mut nes = machine();
    nes.cpu.a = 0x10;
    nes.ram[0x20] = 0x20;
    execute(&mut nes, (Mnemonic::CMP, AddressingMode::ZeroPage), 0x0020);
    assert!(!flag(&nes, FLAG_C));
    assert!(!flag(&nes, FLAG_Z));
    assert!(flag(&nes, FLAG_N));
}

#[test]
fn pha_wraps_the_stack_pointer_from_zero() {
    // S = 0x00: PHA wraps S to 0xFF rather than failing.
    let mut nes = machine();
    nes.cpu.s = 0x00;
    nes.cpu.a = 0x77;
    execute(&mut nes, (Mnemonic::PHA, AddressingMode::Implicit), 0);
    assert_eq!(nes.cpu.s, 0xFF);
    assert_eq!(nes.ram[0x0100], 0x77);
}

#[test]
fn asl_accumulator_moves_bit7_into_carry() {
    let mut nes = machine();
    nes.cpu.a = 0x81;
    let a = nes.cpu.a as u16;
    execute(&mut nes, (Mnemonic::ASL, AddressingMode::Accumulator), a);
    assert_eq!(nes.cpu.a, 0x02);
    assert!(flag(&nes, FLAG_C));
    assert!(!flag(&nes, FLAG_N));
    assert!(!flag(&nes, FLAG_Z));
    assert_eq!(nes.cycles, 1);
}

#[test]
fn lsr_memory_moves_bit0_into_carry() {
    let mut nes = machine();
    nes.ram[0x40] = 0x01;
    execute(&mut nes, (Mnemonic::LSR, AddressingMode::ZeroPage), 0x0040);
    assert_eq!(nes.ram[0x40], 0x00);
    assert!(flag(&nes, FLAG_C));
    assert!(flag(&nes, FLAG_Z));
}

#[test]
fn rol_and_ror_rotate_through_the_carry() {
    let mut nes = machine();
    nes.cpu.p.bits = FLAG_C;
    nes.cpu.a = 0x80;
    let a = nes.cpu.a as u16;
    execute(&mut nes, (Mnemonic::ROL, AddressingMode::Accumulator), a);
    assert_eq!(nes.cpu.a, 0x01);
    assert!(flag(&nes, FLAG_C));

    let mut nes = machine();
    nes.cpu.p.bits = FLAG_C;
    nes.cpu.a = 0x01;
    let a = nes.cpu.a as u16;
    execute(&mut nes, (Mnemonic::ROR, AddressingMode::Accumulator), a);
    assert_eq!(nes.cpu.a, 0x80);
    assert!(flag(&nes, FLAG_C));
    assert!(flag(&nes, FLAG_N));
}

#[test]
fn dec_decrements_memory_and_inc_increments() {
    let mut nes = machine();
    nes.ram[0x30] = 0x05;
    execute(&mut nes, (Mnemonic::DEC, AddressingMode::ZeroPage), 0x0030);
    assert_eq!(nes.ram[0x30], 0x04);
    execute(&mut nes, (Mnemonic::INC, AddressingMode::ZeroPage), 0x0030);
    execute(&mut nes, (Mnemonic::INC, AddressingMode::ZeroPage), 0x0030);
    assert_eq!(nes.ram[0x30], 0x06);
}

#[test]
fn dec_wraps_around_zero() {
    let mut nes = machine();
    nes.ram[0x30] = 0x00;
    execute(&mut nes, (Mnemonic::DEC, AddressingMode::ZeroPage), 0x0030);
    assert_eq!(nes.ram[0x30], 0xFF);
    assert!(flag(&nes, FLAG_N));
}

#[test]
fn bit_copies_memory_bits_into_v_and_n() {
    let mut nes = machine();
    nes.cpu.a = 0x0F;
    nes.ram[0x10] = 0xC0;
    execute(&mut nes, (Mnemonic::BIT, AddressingMode::ZeroPage), 0x0010);
    assert!(flag(&nes, FLAG_Z));
    assert!(flag(&nes, FLAG_V));
    assert!(flag(&nes, FLAG_N));
}

#[test]
fn lax_loads_a_and_x_at_once() {
    let mut nes = machine();
    nes.ram[0x10] = 0x9C;
    execute(&mut nes, (Mnemonic::LAX, AddressingMode::ZeroPage), 0x0010);
    assert_eq!(nes.cpu.a, 0x9C);
    assert_eq!(nes.cpu.x, 0x9C);
    assert!(flag(&nes, FLAG_N));
}

#[test]
fn sax_stores_a_and_x() {
    let mut nes = machine();
    nes.cpu.a = 0xF0;
    nes.cpu.x = 0x3C;
    execute(&mut nes, (Mnemonic::SAX, AddressingMode::ZeroPage), 0x0010);
    assert_eq!(nes.ram[0x10], 0x30);
}

#[test]
fn dcp_decrements_then_compares() {
    let mut nes = machine();
    nes.cpu.a = 0x10;
    nes.ram[0x10] = 0x11;
    execute(&mut nes, (Mnemonic::DCP, AddressingMode::ZeroPage), 0x0010);
    assert_eq!(nes.ram[0x10], 0x10);
    assert!(flag(&nes, FLAG_Z));
    assert!(flag(&nes, FLAG_C));
}

#[test]
fn isb_increments_then_subtracts() {
    let mut nes = machine();
    nes.cpu.a = 0x10;
    nes.cpu.p.bits = FLAG_C;
    nes.ram[0x10] = 0x04;
    execute(&mut nes, (Mnemonic::ISB, AddressingMode::ZeroPage), 0x0010);
    assert_eq!(nes.ram[0x10], 0x05);
    assert_eq!(nes.cpu.a, 0x0B);
}

#[test]
fn slo_shifts_then_ors() {
    let mut nes = machine();
    nes.cpu.a = 0x01;
    nes.ram[0x10] = 0xC0;
    execute(&mut nes, (Mnemonic::SLO, AddressingMode::ZeroPage), 0x0010);
    assert_eq!(nes.ram[0x10], 0x80);
    assert_eq!(nes.cpu.a, 0x81);
    assert!(flag(&nes, FLAG_C));
}

#[test]
fn rla_rotates_then_ands() {
    let mut nes = machine();
    nes.cpu.a = 0xFF;
    nes.cpu.p.bits = FLAG_C;
    nes.ram[0x10] = 0x40;
    execute(&mut nes, (Mnemonic::RLA, AddressingMode::ZeroPage), 0x0010);
    assert_eq!(nes.ram[0x10], 0x81);
    assert_eq!(nes.cpu.a, 0x81);
    assert!(!flag(&nes, FLAG_C));
}

#[test]
fn sre_shifts_right_then_xors() {
    let mut nes = machine();
    nes.cpu.a = 0xFF;
    nes.ram[0x10] = 0x03;
    execute(&mut nes, (Mnemonic::SRE, AddressingMode::ZeroPage), 0x0010);
    assert_eq!(nes.ram[0x10], 0x01);
    assert_eq!(nes.cpu.a, 0xFE);
    assert!(flag(&nes, FLAG_C));
}

#[test]
fn rra_rotates_right_then_adds() {
    let mut nes = machine();
    nes.cpu.a = 0x10;
    nes.ram[0x10] = 0x02;
    execute(&mut nes, (Mnemonic::RRA, AddressingMode::ZeroPage), 0x0010);
    assert_eq!(nes.ram[0x10], 0x01);
    assert_eq!(nes.cpu.a, 0x11);
}

#[test]
fn transfers_update_flags_except_txs() {
    let mut nes = machine();
    nes.cpu.a = 0x00;
    nes.cpu.p.bits = 0;
    execute(&mut nes, (Mnemonic::TAX, AddressingMode::Implicit), 0);
    assert_eq!(nes.cpu.x, 0);
    assert!(flag(&nes, FLAG_Z));
    // TXS copies without touching any flag.
    let mut nes = machine();
    nes.cpu.x = 0x00;
    nes.cpu.p.bits = 0;
    execute(&mut nes, (Mnemonic::TXS, AddressingMode::Implicit), 0);
    assert_eq!(nes.cpu.s, 0);
    assert_eq!(nes.cpu.p.bits, 0);
}
