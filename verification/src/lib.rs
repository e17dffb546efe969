//! Instruction-set emulator for a 6502-family CPU: a flat 64KB memory, a
//! table-driven decoder, addressing-mode resolution, and the per-mnemonic
//! execution semantics, with the machine's small-step transition relation
//! stated as spec functions and proved of the executable engine.
#![allow(non_snake_case)]

pub mod bits;
pub mod cpu;
pub mod instructions;
pub mod laws;
pub mod memory;
pub mod semantics;
