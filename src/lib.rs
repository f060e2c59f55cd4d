//! Instruction-execution core of an 8-bit SM83 (Game Boy class) processor:
//! register file and flags, opcode decoder, execution units and the
//! fetch-decode-execute step, each specified over a mathematical model.
pub mod cpu;
pub mod memory;
