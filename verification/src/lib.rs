//! An emulator of the J1, a 16-bit dual-stack CPU designed for executing
//! Forth. The crate models the instruction set bit-exactly, the two circular
//! 32-slot stacks, the word-addressed memory with its memory-mapped console
//! ports, and the single-cycle execution engine, together with an image
//! loader and a disassembler.

pub mod console;
pub mod cpu;
pub mod errors;
pub mod instruction;
pub mod j1_args;
pub mod j1_dump_args;
pub mod stack;
pub mod text;
