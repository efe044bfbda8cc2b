//! Instruction-level core of an 8-bit home console: the processor with its
//! decoder, addressing modes, stack and interrupts, the bus it is wired to,
//! and the frame driver around them.
//!
//! Every executable function states what it returns and changes over a plain
//! model: the registers as they are, the bus as a sequence of 65536 bytes.
//! `laws` holds what follows for every program.

pub mod addressing;
pub mod alu;
pub mod cpu;
pub mod execute;
pub mod instruction;
pub mod laws;
pub mod nes;
pub mod pad;
pub mod rom;
pub mod step;
pub mod system;
