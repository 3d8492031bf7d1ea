//! Decoder tests: totality over all 256 opcode values and spot checks of
//! the table, including undocumented opcodes and penalty flags.

use nes_core::{decode, AddressingMode, Mnemonic};

#[test]
fn decode_is_total_over_all_opcodes() {
    // Every opcode byte decodes to some pair without panicking.
    for op in 0..=255u8 {
        let (_mnemonic, _mode) = decode(op);
    }
}

#[test]
fn decode_documented_opcodes() {
    assert_eq!(decode(0xA9), (Mnemonic::LDA, AddressingMode::Immediate));
    assert_eq!(decode(0xA5), (Mnemonic::LDA, AddressingMode::ZeroPage));
    assert_eq!(decode(0x85), (Mnemonic::STA, AddressingMode::ZeroPage));
    assert_eq!(decode(0x69), (Mnemonic::ADC, AddressingMode::Immediate));
    assert_eq!(decode(0x00), (Mnemonic::BRK, AddressingMode::Implicit));
    assert_eq!(decode(0x4C), (Mnemonic::JMP, AddressingMode::Absolute));
    assert_eq!(decode(0x6C), (Mnemonic::JMP, AddressingMode::Indirect));
    assert_eq!(decode(0x20), (Mnemonic::JSR, AddressingMode::Absolute));
    assert_eq!(decode(0xD0), (Mnemonic::BNE, AddressingMode::Relative));
    assert_eq!(decode(0xEA), (Mnemonic::NOP, AddressingMode::Implicit));
}

#[test]
fn decode_penalty_flags_differ_between_loads_and_rmw() {
    // Load-type instructions penalize a page crossing.
    assert_eq!(decode(0xBD), (Mnemonic::LDA, AddressingMode::AbsoluteX { penalty: true }));
    assert_eq!(decode(0xB9), (Mnemonic::LDA, AddressingMode::AbsoluteY { penalty: true }));
    assert_eq!(decode(0xB1), (Mnemonic::LDA, AddressingMode::IndirectIndexed { penalty: true }));
    // Read-modify-write and store instructions have a fixed cost instead.
    assert_eq!(decode(0x1E), (Mnemonic::ASL, AddressingMode::AbsoluteX { penalty: false }));
    assert_eq!(decode(0xDE), (Mnemonic::DEC, AddressingMode::AbsoluteX { penalty: false }));
    assert_eq!(decode(0x9D), (Mnemonic::STA, AddressingMode::AbsoluteX { penalty: false }));
    assert_eq!(decode(0x91), (Mnemonic::STA, AddressingMode::IndirectIndexed { penalty: false }));
}

#[test]
fn decode_undocumented_opcodes() {
    assert_eq!(decode(0xEB), (Mnemonic::SBC, AddressingMode::Immediate));
    assert_eq!(decode(0xA7), (Mnemonic::LAX, AddressingMode::ZeroPage));
    assert_eq!(decode(0x87), (Mnemonic::SAX, AddressingMode::ZeroPage));
    assert_eq!(decode(0xC3), (Mnemonic::DCP, AddressingMode::IndexedIndirect));
    assert_eq!(decode(0xE7), (Mnemonic::ISB, AddressingMode::ZeroPage));
    assert_eq!(decode(0x07), (Mnemonic::SLO, AddressingMode::ZeroPage));
    assert_eq!(decode(0x33), (Mnemonic::RLA, AddressingMode::IndirectIndexed { penalty: false }));
    assert_eq!(decode(0x57), (Mnemonic::SRE, AddressingMode::ZeroPageX));
    assert_eq!(decode(0x7F), (Mnemonic::RRA, AddressingMode::AbsoluteX { penalty: false }));
}

#[test]
fn decode_unlisted_opcodes_fall_back_to_nop() {
    assert_eq!(decode(0x02), (Mnemonic::NOP, AddressingMode::Implicit));
    assert_eq!(decode(0x12), (Mnemonic::NOP, AddressingMode::Implicit));
    assert_eq!(decode(0x92), (Mnemonic::NOP, AddressingMode::Implicit));
    // Documented no-op aliases keep their addressing mode.
    assert_eq!(decode(0x04), (Mnemonic::NOP, AddressingMode::ZeroPage));
    assert_eq!(decode(0x1C), (Mnemonic::NOP, AddressingMode::AbsoluteX { penalty: true }));
    assert_eq!(decode(0x80), (Mnemonic::NOP, AddressingMode::Immediate));
}
