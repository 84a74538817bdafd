//! A verified virtual machine for a small 16-bit instruction set: eight
//! general registers, a 64K-word address space, sixteen 4-bit opcodes and
//! trap-based console I/O. The crate holds the instruction codec, the
//! register file and address space, the fetch-decode-execute engine with its
//! memory-mapped keyboard registers, and the trap routines. Console I/O is
//! modelled as an input tape of bytes consumed by the machine and an output
//! buffer of bytes it emits; a caller feeds the tape and drains the buffer.

pub mod assembler;
pub mod error;
pub mod instruction;
pub mod laws;
pub mod opcode;
pub mod registers;
pub mod semantics;
pub mod trap;
pub mod vm;
pub mod word;
