//! Instruction-execution core of a Game Boy (LR35902) emulator: a
//! cycle-counted fetch-decode-execute engine over a register file and a flat
//! 64KB memory space, with bit-exact flag semantics.

pub mod cpu;
pub mod instructions;
pub mod laws;
pub mod memory;
pub mod registers;
pub mod semantics;
pub mod word;
