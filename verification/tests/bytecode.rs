use lox_bytecode::bytecode::{Bytecode, Ip};
use lox_bytecode::opcodes::{DecodeError, Op};
use lox_bytecode::value::Value;

#[test]
fn code_length_counts_writes() {
    let mut chunk = Bytecode::new();
    assert_eq!(chunk.get_code_len(), 0);
    for i in 0..17 {
        chunk.write_u8((i % 3) as u8, 1);
        assert_eq!(chunk.get_code_len(), i + 1);
    }
}

#[test]
fn add_constant_indices_are_sequential() {
    let mut chunk = Bytecode::new();
    assert_eq!(chunk.add_constant(Value(10)), 0);
    assert_eq!(chunk.add_constant(Value(-7)), 1);
    assert_eq!(chunk.add_constant(Value(10)), 2);
    assert_eq!(chunk.get_constant(0), Value(10));
    assert_eq!(chunk.get_constant(1), Value(-7));
    assert_eq!(chunk.get_constant(2), Value(10));
}

#[test]
fn opcode_wire_encoding_round_trips() {
    for op in [Op::ConstantSmall, Op::Negate, Op::Ret] {
        assert_eq!(Op::decode(op.as_byte()), Ok(op));
    }
}

#[test]
fn unknown_byte_is_a_decode_error() {
    assert_eq!(Op::decode(3), Err(DecodeError::UnknownOpcode));
    assert_eq!(Op::decode(255), Err(DecodeError::UnknownOpcode));
}

#[test]
fn operand_counts() {
    assert_eq!(Op::ConstantSmall.operand_count(), 1);
    assert_eq!(Op::Negate.operand_count(), 0);
    assert_eq!(Op::Ret.operand_count(), 0);
}

#[test]
fn mnemonics() {
    assert_eq!(Op::ConstantSmall.render(), "OP_CONSTANT");
    assert_eq!(Op::Negate.render(), "OP_NEGATE");
    assert_eq!(Op::Ret.render(), "OP_RETURN");
}

#[test]
fn cursor_round_trips_an_instruction_stream() {
    let mut chunk = Bytecode::new();
    let index = chunk.add_constant(Value(42));
    chunk.write_u8(Op::ConstantSmall.as_byte(), 1);
    chunk.write_u8(index as u8, 1);
    chunk.write_u8(Op::Negate.as_byte(), 1);
    chunk.write_u8(Op::Ret.as_byte(), 2);

    let mut ip = chunk.get_base_ip();
    let op = ip.get_op();
    assert_eq!(op, Op::ConstantSmall);
    ip.inc(1);
    let operand = ip.get_u8();
    assert_eq!(operand, index as u8);
    assert_eq!(chunk.get_constant(operand as usize), Value(42));
    ip.inc(op.operand_count());

    let op = ip.get_op();
    assert_eq!(op, Op::Negate);
    ip.inc(1 + op.operand_count());

    let op = ip.get_op();
    assert_eq!(op, Op::Ret);
    ip.inc(1 + op.operand_count());
}

#[test]
fn many_cursors_share_one_chunk() {
    let mut chunk = Bytecode::new();
    chunk.write_u8(Op::Negate.as_byte(), 1);
    chunk.write_u8(Op::Ret.as_byte(), 1);

    let mut first = chunk.get_base_ip();
    let second = chunk.get_base_ip();
    first.inc(1);
    assert_eq!(first.get_op(), Op::Ret);
    assert_eq!(second.get_op(), Op::Negate);
}

#[test]
fn unbound_cursor_can_be_created() {
    // An unbound cursor has no decode or advance operation: those methods
    // exist only on the bound state, so misuse fails to compile rather
    // than at run time.
    let _ip: Ip<_> = Ip::create_uninitialized();
}

#[test]
fn disassemble_three_instructions() {
    let mut chunk = Bytecode::new();
    let index = chunk.add_constant(Value(1));
    chunk.write_u8(Op::ConstantSmall.as_byte(), 1);
    chunk.write_u8(index as u8, 1);
    chunk.write_u8(Op::Negate.as_byte(), 1);
    chunk.write_u8(Op::Ret.as_byte(), 2);

    let expected = "== test ==\n\
                    0000    1 OP_CONSTANT      0000 1\n\
                    0002    | OP_NEGATE\n\
                    0003    2 OP_RETURN\n";
    assert_eq!(chunk.disassemble("test"), expected);
}

#[test]
fn disassemble_empty_chunk_is_header_only() {
    let chunk = Bytecode::new();
    assert_eq!(chunk.disassemble("empty"), "== empty ==\n");
}

#[test]
fn disassemble_stops_at_unrecognized_tag() {
    let mut chunk = Bytecode::new();
    chunk.write_u8(Op::Ret.as_byte(), 1);
    chunk.write_u8(255, 2);

    let expected = "== bad ==\n\
                    0000    1 OP_RETURN\n\
                    0001    2 Illegal Instruction\n";
    assert_eq!(chunk.disassemble("bad"), expected);
}

#[test]
fn disassemble_scans_nothing_after_unrecognized_tag() {
    let mut chunk = Bytecode::new();
    chunk.write_u8(Op::Negate.as_byte(), 7);
    chunk.write_u8(250, 7);
    chunk.write_u8(Op::Ret.as_byte(), 8);
    chunk.write_u8(Op::Ret.as_byte(), 9);

    let expected = "== bad ==\n\
                    0000    7 OP_NEGATE\n\
                    0001    | Illegal Instruction\n";
    assert_eq!(chunk.disassemble("bad"), expected);
}

#[test]
fn line_column_compares_previous_instruction_not_previous_byte() {
    // The operand byte carries line 2, but the previous *instruction*
    // (its tag byte) is at line 1: the following opcode's line 2 differs
    // from it, so the numeric line is printed, not the placeholder.
    let mut chunk = Bytecode::new();
    let index = chunk.add_constant(Value(5));
    chunk.write_u8(Op::ConstantSmall.as_byte(), 1);
    chunk.write_u8(index as u8, 2);
    chunk.write_u8(Op::Ret.as_byte(), 2);

    let expected = "== mixed ==\n\
                    0000    1 OP_CONSTANT      0000 5\n\
                    0002    2 OP_RETURN\n";
    assert_eq!(chunk.disassemble("mixed"), expected);
}

#[test]
fn disassemble_renders_negative_lines_and_values() {
    let mut chunk = Bytecode::new();
    let index = chunk.add_constant(Value(-12));
    chunk.write_u8(Op::ConstantSmall.as_byte(), -3);
    chunk.write_u8(index as u8, -3);
    chunk.write_u8(Op::Ret.as_byte(), 1000);

    let expected = "== neg ==\n\
                    0000   -3 OP_CONSTANT      0000 -12\n\
                    0002 1000 OP_RETURN\n";
    assert_eq!(chunk.disassemble("neg"), expected);
}

#[test]
fn value_rendering() {
    assert_eq!(Value(0).render(), "0");
    assert_eq!(Value(9).render(), "9");
    assert_eq!(Value(1234567).render(), "1234567");
    assert_eq!(Value(-1).render(), "-1");
    assert_eq!(Value(i64::MAX).render(), "9223372036854775807");
    assert_eq!(Value(i64::MIN).render(), "-9223372036854775808");
}

#[test]
fn default_chunk_is_empty() {
    let chunk: Bytecode = Default::default();
    assert_eq!(chunk.get_code_len(), 0);
    assert_eq!(chunk.disassemble("d"), "== d ==\n");
}
