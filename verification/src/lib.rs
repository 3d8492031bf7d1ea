//! Cycle-exact emulation core for the MOS 6502 CPU as found in a classic
//! 8-bit game console: register file, opcode decoder, addressing-mode
//! resolution (including the documented indirect-addressing hardware bug),
//! instruction execution for official and common undocumented opcodes,
//! interrupt servicing, and a clocked memory-bus model.

pub mod status;
pub mod cpu;
pub mod interrupt;
pub mod nes;
pub mod decode;
pub mod addressing_mode;
pub mod instruction;
pub mod interrupt_handler;
pub mod emu;
pub mod laws;

pub use crate::addressing_mode::AddressingMode;
pub use crate::decode::{decode, Instruction, Mnemonic};
pub use crate::cpu::Cpu;
pub use crate::emu::{power_on, step};
pub use crate::interrupt::Interrupt;
pub use crate::nes::Nes;
pub use crate::status::Status;
