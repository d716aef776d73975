//! Bytecode chunk container and instruction-pointer abstraction for a
//! stack-based virtual machine: the in-memory representation of compiled
//! bytecode (opcode stream, constant pool, source-line table), a cursor type
//! that walks the stream with type-enforced initialization safety, and a
//! disassembler that renders the stream as human-readable text.

pub mod opcodes;
pub mod text;
pub mod value;
pub mod bytecode;
pub mod laws;
