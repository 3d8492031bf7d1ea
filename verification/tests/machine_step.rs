//! Whole-machine tests through `step`: cycle-exact instruction timing,
//! flag round trips through the stack, interrupt servicing, power-on
//! state, and the end-to-end scenario.

use nes_core::instruction::execute;
use nes_core::interrupt_handler::handle_interrupt;
use nes_core::status::{FLAG_C, FLAG_I, FLAG_Z, OPERATED_B};
use nes_core::{power_on, step, AddressingMode, Interrupt, Mnemonic, Nes};

fn machine() -> Nes {
    Nes::new()
}

/// Load `program` into RAM at address 0 and point `PC` at it.
fn with_program(program: &[u8]) -> Nes {
    let mut nes = machine();
    for (i, b) in program.iter().enumerate() {
        nes.ram[i] = *b;
    }
    nes.cpu.pc = 0x0000;
    nes
}

#[test]
fn end_to_end_store_and_reload() {
    // LDA #$05; STA $10; LDA $10 from all-zero state: A = 5, RAM[0x10] = 5,
    // and exactly 2 + 3 + 3 = 8 ticks.
    let mut nes = with_program(&[0xA9, 0x05, 0x85, 0x10, 0xA5, 0x10]);
    step(&mut nes);
    step(&mut nes);
    step(&mut nes);
    assert_eq!(nes.cpu.a, 0x05);
    assert_eq!(nes.ram[0x10], 0x05);
    assert_eq!(nes.cycles, 8);
    assert_eq!(nes.cpu.pc, 0x0006);
}

#[test]
fn flag_round_trip_through_php_and_plp() {
    // For every P byte value, push-then-pull preserves all bits other
    // than the B-pattern bits, which live only in the stack image.
    for p in 0..=255u8 {
        let mut nes = machine();
        nes.cpu.s = 0xFD;
        nes.cpu.p.bits = p;
        execute(&mut nes, (Mnemonic::PHP, AddressingMode::Implicit), 0);
        assert_eq!(nes.ram[0x01FD], p | OPERATED_B);
        execute(&mut nes, (Mnemonic::PLP, AddressingMode::Implicit), 0);
        assert_eq!(nes.cpu.p.bits & !OPERATED_B, p & !OPERATED_B);
        assert_eq!(nes.cpu.s, 0xFD);
    }
}

#[test]
fn nmi_round_trip_through_rti() {
    let mut nes = machine();
    nes.cpu.pc = 0x1234;
    nes.cpu.p.bits = 0x41;  // V and C set, I clear
    nes.cpu.s = 0xFD;
    nes.cart[0xFFFA - 0x4020] = 0x23;  // NMI vector -> 0x0123
    nes.cart[0xFFFB - 0x4020] = 0x01;
    nes.interrupt = Some(Interrupt::NMI);
    let c0 = nes.cycles;
    handle_interrupt(&mut nes);
    // Serviced: PC and P pushed, I set, PC loaded from 0xFFFA, request cleared.
    assert_eq!(nes.cpu.pc, 0x0123);
    assert!(nes.cpu.p.bits & FLAG_I == FLAG_I);
    assert!(nes.interrupt.is_none());
    assert_eq!(nes.ram[0x01FD], 0x12);
    assert_eq!(nes.ram[0x01FC], 0x34);
    assert_eq!(nes.ram[0x01FB], 0x41 | 0x20);  // interrupt-pushed pattern
    assert_eq!(nes.cycles, c0 + 6);
    // RTI restores the original PC and P (modulo the B-pattern bits).
    execute(&mut nes, (Mnemonic::RTI, AddressingMode::Implicit), 0);
    assert_eq!(nes.cpu.pc, 0x1234);
    assert_eq!(nes.cpu.p.bits & !OPERATED_B, 0x41 & !OPERATED_B);
    assert_eq!(nes.cpu.s, 0xFD);
}

#[test]
fn irq_is_masked_while_interrupt_disable_is_set() {
    // Regression pin for the chosen gating: IRQ is serviced only while
    // the interrupt-disable flag is clear; a masked request stays pending.
    let mut nes = machine();
    nes.cpu.pc = 0x1234;
    nes.cpu.p.bits = FLAG_I;
    nes.interrupt = Some(Interrupt::IRQ);
    handle_interrupt(&mut nes);
    assert_eq!(nes.cpu.pc, 0x1234);
    assert_eq!(nes.interrupt, Some(Interrupt::IRQ));
    assert_eq!(nes.cycles, 0);
}

#[test]
fn irq_is_serviced_when_interrupt_disable_is_clear() {
    let mut nes = machine();
    nes.cpu.pc = 0x1234;
    nes.cpu.p.bits = 0x00;
    nes.cpu.s = 0xFD;
    nes.cart[0xFFFE - 0x4020] = 0x00;  // IRQ vector -> 0x0600
    nes.cart[0xFFFF - 0x4020] = 0x06;
    nes.interrupt = Some(Interrupt::IRQ);
    handle_interrupt(&mut nes);
    assert_eq!(nes.cpu.pc, 0x0600);
    assert!(nes.interrupt.is_none());
    assert!(nes.cpu.p.bits & FLAG_I == FLAG_I);
}

#[test]
fn nmi_is_serviced_at_the_instruction_boundary_of_step() {
    // NOP with a pending NMI: 2 ticks for the instruction, 6 for servicing.
    let mut nes = with_program(&[0xEA]);
    nes.cart[0xFFFA - 0x4020] = 0x00;
    nes.cart[0xFFFB - 0x4020] = 0x05;
    nes.interrupt = Some(Interrupt::NMI);
    step(&mut nes);
    assert_eq!(nes.cpu.pc, 0x0500);
    assert!(nes.interrupt.is_none());
    assert_eq!(nes.cycles, 8);
}

#[test]
fn masked_irq_is_serviced_once_the_flag_clears() {
    // SEI; CLI with an IRQ pending throughout: the request survives the
    // masked boundary and is serviced after CLI clears the flag.
    let mut nes = with_program(&[0x78, 0x58]);
    nes.cpu.s = 0xFD;
    nes.cart[0xFFFE - 0x4020] = 0x00;
    nes.cart[0xFFFF - 0x4020] = 0x06;
    nes.interrupt = Some(Interrupt::IRQ);
    step(&mut nes);
    assert_eq!(nes.interrupt, Some(Interrupt::IRQ));
    assert_eq!(nes.cycles, 2);
    step(&mut nes);
    assert!(nes.interrupt.is_none());
    assert_eq!(nes.cpu.pc, 0x0600);
    assert_eq!(nes.cycles, 2 + 2 + 6);
}

#[test]
fn absolute_y_load_timing_matches_absolute_x() {
    // LDA abs,Y without crossing: 4 cycles; with crossing: 5.
    let mut nes = with_program(&[0xB9, 0x00, 0x02]);
    nes.cpu.y = 0x01;
    step(&mut nes);
    assert_eq!(nes.cycles, 4);
    let mut nes = with_program(&[0xB9, 0xFF, 0x01]);
    nes.cpu.y = 0x01;
    step(&mut nes);
    assert_eq!(nes.cycles, 5);
    // STA abs,Y: always 5.
    let mut nes = with_program(&[0x99, 0x00, 0x02]);
    step(&mut nes);
    assert_eq!(nes.cycles, 5);
}

#[test]
fn power_on_sets_the_documented_state() {
    let mut nes = machine();
    nes.cpu.pc = 0x4321;
    power_on(&mut nes);
    assert_eq!(nes.cpu.p.bits, 0x34);
    assert_eq!(nes.cpu.a, 0);
    assert_eq!(nes.cpu.x, 0);
    assert_eq!(nes.cpu.y, 0);
    assert_eq!(nes.cpu.s, 0xFD);
    // PC is left for the caller to load from the reset vector.
    assert_eq!(nes.cpu.pc, 0x4321);
    // 22 initialization writes, each ticking once.
    assert_eq!(nes.cycles, 22);
}

#[test]
fn branch_timing_depends_on_outcome_and_page_crossing() {
    // BNE not taken: 2 cycles.
    let mut nes = with_program(&[0xD0, 0x10]);
    nes.cpu.p.bits = FLAG_Z;
    step(&mut nes);
    assert_eq!(nes.cycles, 2);
    assert_eq!(nes.cpu.pc, 0x0002);
    // BNE taken within the page: 3 cycles.
    let mut nes = with_program(&[0xD0, 0x10]);
    step(&mut nes);
    assert_eq!(nes.cycles, 3);
    assert_eq!(nes.cpu.pc, 0x0012);
    // BNE taken across a page (backwards displacement): 4 cycles.
    let mut nes = with_program(&[0xD0, 0xFC]);
    step(&mut nes);
    assert_eq!(nes.cycles, 4);
    assert_eq!(nes.cpu.pc, 0xFFFE);
}

#[test]
fn jsr_and_rts_round_trip() {
    // JSR $0040 at 0: pushes 0x0002 (address of JSR's last byte), 6 cycles.
    let mut nes = with_program(&[0x20, 0x40, 0x00]);
    nes.cpu.s = 0xFD;
    nes.ram[0x40] = 0x60;  // RTS
    step(&mut nes);
    assert_eq!(nes.cpu.pc, 0x0040);
    assert_eq!(nes.cycles, 6);
    assert_eq!(nes.ram[0x01FD], 0x00);
    assert_eq!(nes.ram[0x01FC], 0x02);
    // RTS pulls and increments: back to 0x0003, 6 more cycles.
    step(&mut nes);
    assert_eq!(nes.cpu.pc, 0x0003);
    assert_eq!(nes.cycles, 12);
    assert_eq!(nes.cpu.s, 0xFD);
}

#[test]
fn brk_pushes_state_and_jumps_through_the_irq_vector() {
    let mut nes = with_program(&[0x00]);
    nes.cpu.s = 0xFD;
    nes.cpu.p.bits = 0x01;
    nes.cart[0xFFFE - 0x4020] = 0x00;
    nes.cart[0xFFFF - 0x4020] = 0x07;
    step(&mut nes);
    assert_eq!(nes.cpu.pc, 0x0700);
    assert_eq!(nes.cycles, 7);
    // PC after the opcode fetch was 0x0001.
    assert_eq!(nes.ram[0x01FD], 0x00);
    assert_eq!(nes.ram[0x01FC], 0x01);
    // The pushed P image carries the instruction-pushed B-pattern.
    assert_eq!(nes.ram[0x01FB], 0x01 | OPERATED_B);
}

#[test]
fn load_timing_across_addressing_modes() {
    // LDA #imm: 2 cycles.
    let mut nes = with_program(&[0xA9, 0x01]);
    step(&mut nes);
    assert_eq!(nes.cycles, 2);
    // LDA zp: 3 cycles.
    let mut nes = with_program(&[0xA5, 0x10]);
    step(&mut nes);
    assert_eq!(nes.cycles, 3);
    // LDA zp,X: 4 cycles.
    let mut nes = with_program(&[0xB5, 0x10]);
    step(&mut nes);
    assert_eq!(nes.cycles, 4);
    // LDA abs: 4 cycles.
    let mut nes = with_program(&[0xAD, 0x00, 0x02]);
    step(&mut nes);
    assert_eq!(nes.cycles, 4);
    // LDA abs,X without crossing: 4 cycles.
    let mut nes = with_program(&[0xBD, 0x00, 0x02]);
    nes.cpu.x = 0x01;
    step(&mut nes);
    assert_eq!(nes.cycles, 4);
    // LDA abs,X with a page crossing: 5 cycles.
    let mut nes = with_program(&[0xBD, 0xFF, 0x01]);
    nes.cpu.x = 0x01;
    step(&mut nes);
    assert_eq!(nes.cycles, 5);
    // LDA (zp,X): 6 cycles.
    let mut nes = with_program(&[0xA1, 0x10]);
    step(&mut nes);
    assert_eq!(nes.cycles, 6);
    // LDA (zp),Y without crossing: 5 cycles.
    let mut nes = with_program(&[0xB1, 0x10]);
    step(&mut nes);
    assert_eq!(nes.cycles, 5);
    // LDA (zp),Y with a page crossing: 6 cycles.
    let mut nes = with_program(&[0xB1, 0x10]);
    nes.ram[0x10] = 0xFF;
    nes.ram[0x11] = 0x01;
    nes.cpu.y = 0x01;
    step(&mut nes);
    assert_eq!(nes.cycles, 6);
}

#[test]
fn store_and_rmw_timing_has_no_crossing_penalty() {
    // STA abs,X: always 5 cycles, crossing or not.
    let mut nes = with_program(&[0x9D, 0x00, 0x02]);
    step(&mut nes);
    assert_eq!(nes.cycles, 5);
    let mut nes = with_program(&[0x9D, 0xFF, 0x01]);
    nes.cpu.x = 0x01;
    step(&mut nes);
    assert_eq!(nes.cycles, 5);
    // ASL zp: 5; ASL abs: 6; ASL abs,X: 7 cycles.
    let mut nes = with_program(&[0x06, 0x10]);
    step(&mut nes);
    assert_eq!(nes.cycles, 5);
    let mut nes = with_program(&[0x0E, 0x00, 0x02]);
    step(&mut nes);
    assert_eq!(nes.cycles, 6);
    let mut nes = with_program(&[0x1E, 0x00, 0x02]);
    step(&mut nes);
    assert_eq!(nes.cycles, 7);
    // INC abs: 6 cycles.
    let mut nes = with_program(&[0xEE, 0x00, 0x02]);
    step(&mut nes);
    assert_eq!(nes.cycles, 6);
}

#[test]
fn undocumented_composite_timing() {
    // DCP (zp),Y: 8 cycles regardless of page crossing.
    let mut nes = with_program(&[0xD3, 0x10]);
    step(&mut nes);
    assert_eq!(nes.cycles, 8);
    // SLO zp: 5 cycles; SLO abs,Y: 7 cycles.
    let mut nes = with_program(&[0x07, 0x10]);
    step(&mut nes);
    assert_eq!(nes.cycles, 5);
    let mut nes = with_program(&[0x1B, 0x00, 0x02]);
    step(&mut nes);
    assert_eq!(nes.cycles, 7);
    // ISB (zp,X): 8 cycles.
    let mut nes = with_program(&[0xE3, 0x10]);
    step(&mut nes);
    assert_eq!(nes.cycles, 8);
    // LAX zp,Y: 4 cycles.
    let mut nes = with_program(&[0xB7, 0x10]);
    step(&mut nes);
    assert_eq!(nes.cycles, 4);
}

#[test]
fn register_transfers_cost_one_extra_internal_cycle() {
    // TAX, an implied instruction touching no memory, still costs 2 cycles.
    let mut nes = with_program(&[0xAA]);
    step(&mut nes);
    assert_eq!(nes.cycles, 2);
    // Flag instructions likewise.
    let mut nes = with_program(&[0x38]);
    step(&mut nes);
    assert_eq!(nes.cycles, 2);
    assert!(nes.cpu.p.bits & FLAG_C == FLAG_C);
}

#[test]
fn stack_instruction_timing() {
    // PHA: 3 cycles; PLA: 4 cycles.
    let mut nes = with_program(&[0x48, 0x68]);
    nes.cpu.s = 0xFD;
    nes.cpu.a = 0x31;
    step(&mut nes);
    assert_eq!(nes.cycles, 3);
    nes.cpu.a = 0x00;
    step(&mut nes);
    assert_eq!(nes.cycles, 7);
    assert_eq!(nes.cpu.a, 0x31);
}
