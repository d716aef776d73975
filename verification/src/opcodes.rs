//! The opcode table: the closed set of instruction tags, each with a stable
//! one-byte wire encoding, a fixed operand byte-count, and a display form
//! used by the disassembler. Pure lookup, no state.

use vstd::prelude::*;

verus! {

/// Decoding a byte that is not the wire form of any opcode is an error,
/// never undefined behaviour.
#[derive(Clone, Copy, Debug, PartialEq, Eq, Structural)]
pub enum DecodeError {
    UnknownOpcode,
}

/// One instruction tag of the closed instruction set.
///
/// `ConstantSmall` carries one operand byte (a constant-pool index, 0-255);
/// `Negate` and `Ret` carry none.
#[derive(Clone, Copy, Debug, PartialEq, Eq, Structural)]
pub enum Op {
    ConstantSmall,
    Negate,
    Ret,
}

/// The stable one-byte wire encoding of each opcode: the byte stored in a
/// chunk's instruction stream.
pub open spec fn spec_encode(op: Op) -> u8 {
    match op {
        Op::ConstantSmall => 0,
        Op::Negate => 1,
        Op::Ret => 2,
    }
}

/// The partial inverse of `spec_encode`: every valid byte value maps to at
/// most one opcode, and an unmapped byte maps to nothing.
pub open spec fn spec_decode(byte: u8) -> Option<Op> {
    if byte == 0 {
        Some(Op::ConstantSmall)
    } else if byte == 1 {
        Some(Op::Negate)
    } else if byte == 2 {
        Some(Op::Ret)
    } else {
        None
    }
}

/// How many operand bytes trail the tag byte: the sole source of truth for
/// how far a cursor or the disassembler advances past an opcode.
pub open spec fn spec_operand_count(op: Op) -> nat {
    match op {
        Op::ConstantSmall => 1,
        Op::Negate => 0,
        Op::Ret => 0,
    }
}

/// The mnemonic each opcode is rendered as in disassembly listings.
pub open spec fn mnemonic(op: Op) -> Seq<char> {
    match op {
        Op::ConstantSmall => "OP_CONSTANT"@,
        Op::Negate => "OP_NEGATE"@,
        Op::Ret => "OP_RETURN"@,
    }
}

impl Op {
    /// The wire form of this opcode.
    pub fn as_byte(&self) -> (byte: u8)
        ensures
            byte == spec_encode(*self),
    {
        match self {
            Op::ConstantSmall => 0,
            Op::Negate => 1,
            Op::Ret => 2,
        }
    }

    /// Decodes one byte of the instruction stream, rejecting any byte that
    /// is not the wire form of an opcode.
    pub fn decode(byte: u8) -> (r: Result<Op, DecodeError>)
        ensures
            (match spec_decode(byte) {
                Some(op) => r == Ok::<Op, DecodeError>(op),
                None => r == Err::<Op, DecodeError>(DecodeError::UnknownOpcode),
            }),
    {
        if byte == 0 {
            Ok(Op::ConstantSmall)
        } else if byte == 1 {
            Ok(Op::Negate)
        } else if byte == 2 {
            Ok(Op::Ret)
        } else {
            Err(DecodeError::UnknownOpcode)
        }
    }

    /// The number of operand bytes that follow this opcode's tag byte.
    pub fn operand_count(&self) -> (n: usize)
        ensures
            n == spec_operand_count(*self),
    {
        match self {
            Op::ConstantSmall => 1,
            Op::Negate => 0,
            Op::Ret => 0,
        }
    }

    /// The display form of this opcode, used only by the disassembler.
    pub fn render(&self) -> (r: &'static str)
        ensures
            r@ == mnemonic(*self),
    {
        match self {
            Op::ConstantSmall => "OP_CONSTANT",
            Op::Negate => "OP_NEGATE",
            Op::Ret => "OP_RETURN",
        }
    }
}

/// Encoding an opcode and decoding the byte back yields the same opcode.
pub proof fn lemma_decode_encode(op: Op)
    ensures
        spec_decode(spec_encode(op)) == Some(op),
{
}

/// Decoding is injective: a byte that decodes at all decodes to the opcode
/// whose wire form it is.
pub proof fn lemma_encode_decode(byte: u8)
    ensures
        spec_decode(byte) matches Some(op) ==> spec_encode(op) == byte,
{
}

} // verus!
