//! Execution core of an 8-bit CPU in the LR35902 style: registers with a
//! packed flag byte, a flat byte-addressable memory bus, a pure instruction
//! decoder over two opcode spaces, and an execution unit that fetches,
//! decodes, executes and commits one instruction per step.

pub mod cpu;
pub mod instructions;
pub mod membus;
pub mod registers;
