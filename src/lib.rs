//! A CHIP-16 console core: memory, registers and flags, the opcode table,
//! the sprite engine and the frame pacing of the execution engine.

pub mod bytes;
pub mod memory;
pub mod alu;
pub mod graphics;
pub mod cpu;
pub mod opcode;
pub mod loading;
pub mod engine;
pub mod laws;
