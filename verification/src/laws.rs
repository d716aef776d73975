//! The library's general laws: properties that hold for every chunk and
//! every instruction stream, stated over the same spec functions the
//! public contracts use, and proved once and for all.

use vstd::prelude::*;

use crate::bytecode::{dis_lines, disassembly_text, header_text, line_col};
use crate::opcodes::{lemma_decode_encode, spec_decode, spec_encode, spec_operand_count, Op};
use crate::text::{dec_digits, zero_pad};
use crate::value::Value;

verus! {

/// The code and line sequences after replaying a run of `write_u8` calls,
/// one `(byte, line)` pair per call, folding exactly the append that
/// `write_u8`'s contract states.
pub open spec fn replay_writes(code: Seq<u8>, lines: Seq<i32>, ws: Seq<(u8, i32)>) -> (Seq<u8>, Seq<
    i32,
>)
    decreases ws.len(),
{
    if ws.len() == 0 {
        (code, lines)
    } else {
        replay_writes(code.push(ws.first().0), lines.push(ws.first().1), ws.drop_first())
    }
}

/// Law: after any sequence of `write_u8` calls, `code_length` equals the
/// number of calls made so far, and the line table has exactly one entry
/// per byte of code — at every point of construction.
pub proof fn lemma_write_lengths(code: Seq<u8>, lines: Seq<i32>, ws: Seq<(u8, i32)>)
    requires
        lines.len() == code.len(),
    ensures
        replay_writes(code, lines, ws).0.len() == code.len() + ws.len(),
        replay_writes(code, lines, ws).1.len() == replay_writes(code, lines, ws).0.len(),
    decreases ws.len(),
{
    if ws.len() > 0 {
        lemma_write_lengths(code.push(ws.first().0), lines.push(ws.first().1), ws.drop_first());
    }
}

/// The constant pool after replaying a run of `add_constant` calls, one
/// value per call, folding exactly the append that `add_constant`'s
/// contract states.
pub open spec fn replay_adds(constants: Seq<Value>, vs: Seq<Value>) -> Seq<Value>
    decreases vs.len(),
{
    if vs.len() == 0 {
        constants
    } else {
        replay_adds(constants.push(vs.first()), vs.drop_first())
    }
}

/// Replaying `add_constant` calls appends the added values in order.
pub proof fn lemma_replay_adds_appends(constants: Seq<Value>, vs: Seq<Value>)
    ensures
        replay_adds(constants, vs) == constants + vs,
    decreases vs.len(),
{
    if vs.len() == 0 {
        assert(replay_adds(constants, vs) =~= constants + vs);
    } else {
        lemma_replay_adds_appends(constants.push(vs.first()), vs.drop_first());
        assert(constants.push(vs.first()) + vs.drop_first() =~= constants + vs);
    }
}

/// Law: starting from an empty pool, the index `add_constant` returns for
/// the k-th value added is k — the pool holds exactly k values just before
/// that call — and the value stored at index i, which `get_constant(i)`
/// returns, is exactly the i-th value added.
pub proof fn lemma_constant_indices(vs: Seq<Value>)
    ensures
        forall|k: int|
            0 <= k <= vs.len() ==> #[trigger] replay_adds(
                Seq::<Value>::empty(),
                vs.take(k),
            ).len() == k,
        replay_adds(Seq::<Value>::empty(), vs) == vs,
{
    assert forall|k: int| 0 <= k <= vs.len() implies #[trigger] replay_adds(
        Seq::<Value>::empty(),
        vs.take(k),
    ).len() == k by {
        lemma_replay_adds_appends(Seq::<Value>::empty(), vs.take(k));
        assert(Seq::<Value>::empty() + vs.take(k) =~= vs.take(k));
    }
    lemma_replay_adds_appends(Seq::<Value>::empty(), vs);
    assert(Seq::<Value>::empty() + vs =~= vs);
}

/// One encoded instruction: the opcode's wire byte followed by its operand
/// bytes.
pub open spec fn encode_instruction(op: Op, operands: Seq<u8>) -> Seq<u8> {
    seq![spec_encode(op)] + operands
}

/// Law (round trip): an instruction encoded at position `p` of the stream
/// reads back as written. The tag byte decodes to the same opcode — what
/// `get_op` returns there — each operand byte reads back unchanged — what
/// `get_u8` returns after `inc` past the tag — and advancing by
/// `1 + operand_count` lands the cursor exactly at the start of the next
/// instruction.
pub proof fn lemma_instruction_round_trip(code: Seq<u8>, op: Op, operands: Seq<u8>, p: int)
    requires
        operands.len() == spec_operand_count(op),
        0 <= p,
        p + 1 + operands.len() <= code.len(),
        code.subrange(p, p + 1 + operands.len() as int) == encode_instruction(op, operands),
    ensures
        spec_decode(code[p]) == Some(op),
        forall|j: int| 0 <= j < operands.len() ==> code[p + 1 + j] == operands[j],
        p + 1 + spec_operand_count(op) == p + encode_instruction(op, operands).len(),
{
    lemma_decode_encode(op);
    assert(code[p] == code.subrange(p, p + 1 + operands.len() as int)[0]);
    assert forall|j: int| 0 <= j < operands.len() implies code[p + 1 + j] == operands[j] by {
        assert(code[p + 1 + j] == code.subrange(p, p + 1 + operands.len() as int)[1 + j]);
    }
}

/// Law: disassembling an empty chunk produces the header line alone,
/// whatever the chunk's name, lines, and constants are.
pub proof fn lemma_disassemble_empty(lines: Seq<i32>, constants: Seq<Value>, name: Seq<char>)
    ensures
        disassembly_text(Seq::<u8>::empty(), lines, constants, name) == header_text(name),
{
    assert(disassembly_text(Seq::<u8>::empty(), lines, constants, name) =~= header_text(name));
}

/// Law: when the scan reaches a byte that does not decode, the listing
/// ends with that offset's illegal-instruction line: nothing after the bad
/// byte is scanned, whatever bytes follow it.
pub proof fn lemma_illegal_stops_scan(
    code: Seq<u8>,
    lines: Seq<i32>,
    constants: Seq<Value>,
    i: int,
    prev: int,
)
    requires
        0 <= i < code.len(),
        spec_decode(code[i]) is None,
    ensures
        dis_lines(code, lines, constants, i, prev) == zero_pad(dec_digits(i), 4) + seq![' ']
            + line_col(lines, i, prev) + seq![' '] + "Illegal Instruction"@ + seq!['\n'],
{
    assert(dis_lines(code, lines, constants, i, prev) =~= zero_pad(dec_digits(i), 4) + seq![' ']
        + line_col(lines, i, prev) + seq![' '] + "Illegal Instruction"@ + seq!['\n']);
}

} // verus!
