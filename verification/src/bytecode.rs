//! The bytecode chunk and the instruction cursor.
//!
//! A chunk owns three parallel sequences: raw instruction bytes, a constant
//! pool, and a per-byte source-line table. Construction is append-only;
//! traversal happens through a cursor bound to the finished chunk, or
//! through the disassembler, which walks the byte sequence directly.

use vstd::prelude::*;

use crate::opcodes::{mnemonic, spec_decode, spec_operand_count, Op};
use crate::text::{
    dec_digits, int_digits, push_dec_padded4, push_int_padded4, repeat_char, space_pad_left,
    space_pad_right, zero_pad,
};
use crate::value::{value_text, Value};

verus! {

/// Cursor state: no chunk attached; no decode operation is available.
#[derive(Debug)]
pub struct Uninitialized;

/// Cursor state: bound to one chunk's finished byte sequence. The borrow
/// makes the finalization rule static: the chunk cannot be mutated while a
/// bound cursor exists.
#[derive(Debug)]
pub struct Initialized<'a> {
    code: &'a Vec<u8>,
}

/// An instruction pointer: a traversal position into one chunk's byte
/// sequence, statically tagged with its initialization state. Decode
/// operations exist only on `Ip<Initialized>`, so using a cursor before it
/// is bound is a compile-time error, not a runtime check.
#[derive(Debug)]
pub struct Ip<S> {
    pos: usize,
    state: S,
}

impl Ip<Uninitialized> {
    /// The unbound cursor's position; it never moves, since an unbound
    /// cursor has no advance operation.
    pub closed spec fn pos(&self) -> int {
        self.pos as int
    }

    /// A cursor with no chunk attached. It exposes no decode or advance
    /// operation; binding one is only possible through
    /// [`Bytecode::get_base_ip`].
    pub fn create_uninitialized() -> (ip: Ip<Uninitialized>)
        ensures
            ip.pos() == 0,
    {
        Ip { pos: 0, state: Uninitialized }
    }
}

impl<'a> Ip<Initialized<'a>> {
    /// The byte sequence this cursor is bound to.
    pub closed spec fn code(&self) -> Seq<u8> {
        self.state.code@
    }

    /// The cursor's read position within the bound byte sequence.
    pub closed spec fn pos(&self) -> int {
        self.pos as int
    }

    /// A cursor's position is a byte offset and so never negative,
    /// whatever calls produced the cursor.
    pub proof fn lemma_pos_nonneg(&self)
        ensures
            0 <= self.pos(),
    {
    }

    /// Binds a cursor to a finished byte sequence, positioned at offset 0.
    /// The sequence is borrowed for the cursor's whole lifetime, so it
    /// cannot grow (and so relocate) while the cursor is live.
    pub fn create(code: &'a Vec<u8>) -> (ip: Ip<Initialized<'a>>)
        ensures
            ip.code() == code@,
            ip.pos() == 0,
    {
        Ip { pos: 0, state: Initialized { code } }
    }

    /// Decodes the opcode whose tag byte is at the current position.
    ///
    /// Decoding trusts well-formed input: a byte that is not an opcode is a
    /// corrupt or mismatched chunk, excluded here rather than handled.
    pub fn get_op(&self) -> (op: Op)
        requires
            self.pos() < self.code().len(),
            spec_decode(self.code()[self.pos()]) is Some,
        ensures
            spec_decode(self.code()[self.pos()]) == Some(op),
    {
        let byte = self.state.code[self.pos];
        match Op::decode(byte) {
            Ok(op) => op,
            Err(_) => vstd::pervasive::unreached(),
        }
    }

    /// Reads the raw byte at the current position without decoding it;
    /// used for the operand bytes that follow an opcode's tag byte.
    pub fn get_u8(&self) -> (byte: u8)
        requires
            self.pos() < self.code().len(),
        ensures
            byte == self.code()[self.pos()],
    {
        self.state.code[self.pos]
    }

    /// Moves the position forward by `offset` bytes. The caller computes
    /// `offset` as `1 + operand_count` of the current opcode so the cursor
    /// lands exactly on the next instruction's tag byte; the position may
    /// reach, but not pass, the end of the sequence.
    pub fn inc(&mut self, offset: usize)
        requires
            old(self).pos() + offset <= old(self).code().len(),
        ensures
            final(self).code() == old(self).code(),
            final(self).pos() == old(self).pos() + offset,
    {
        // A Vec's length fits in usize, so the new position cannot overflow.
        let _len: usize = self.state.code.len();
        self.pos = self.pos + offset;
    }
}

/// The unit of compiled output: instruction bytes, the constant pool, and
/// one source-line entry per instruction byte.
#[derive(Debug)]
pub struct Bytecode {
    code: Vec<u8>,
    constants: Vec<Value>,
    lines: Vec<i32>,
}

impl Bytecode {
    /// The instruction byte sequence.
    pub closed spec fn code(&self) -> Seq<u8> {
        self.code@
    }

    /// The constant pool.
    pub closed spec fn constants(&self) -> Seq<Value> {
        self.constants@
    }

    /// The source-line table, one entry per byte of `code`.
    pub closed spec fn lines(&self) -> Seq<i32> {
        self.lines@
    }

    /// The chunk's structural invariant: the line table is exactly as long
    /// as the byte sequence. `new` establishes it and every append
    /// preserves it.
    pub open spec fn wf(&self) -> bool {
        self.lines().len() == self.code().len()
    }

    /// An empty chunk: zero-length code, constants, and lines.
    pub fn new() -> (chunk: Bytecode)
        ensures
            chunk.code() == Seq::<u8>::empty(),
            chunk.constants() == Seq::<Value>::empty(),
            chunk.lines() == Seq::<i32>::empty(),
            chunk.wf(),
    {
        Bytecode { code: Vec::new(), constants: Vec::new(), lines: Vec::new() }
    }

    /// Appends one byte to `code` and its source line to `lines`.
    pub fn write_u8(&mut self, byte: u8, line: i32)
        ensures
            final(self).code() == old(self).code().push(byte),
            final(self).lines() == old(self).lines().push(line),
            final(self).constants() == old(self).constants(),
            old(self).wf() ==> final(self).wf(),
    {
        self.code.push(byte);
        self.lines.push(line);
    }

    /// Appends a value to the constant pool and returns its index: the
    /// indices handed out are 0, 1, 2, ... in order of addition.
    pub fn add_constant(&mut self, value: Value) -> (index: usize)
        ensures
            final(self).constants() == old(self).constants().push(value),
            index == old(self).constants().len(),
            final(self).code() == old(self).code(),
            final(self).lines() == old(self).lines(),
            old(self).wf() ==> final(self).wf(),
    {
        self.constants.push(value);
        self.constants.len() - 1
    }

    /// Returns the constant stored at `index`. An index not obtained from
    /// `add_constant` is a contract violation, excluded here: no substitute
    /// value is ever returned.
    pub fn get_constant(&self, index: usize) -> (value: Value)
        requires
            index < self.constants().len(),
        ensures
            value == self.constants()[index as int],
    {
        self.constants[index]
    }

    /// The current length of the byte sequence.
    pub fn get_code_len(&self) -> (len: usize)
        ensures
            len == self.code().len(),
    {
        self.code.len()
    }

    /// A cursor positioned at offset 0, bound to this chunk's storage.
    /// The borrow freezes the chunk: no `write_u8` or `add_constant` call
    /// can happen while the cursor is live.
    pub fn get_base_ip<'a>(&'a self) -> (ip: Ip<Initialized<'a>>)
        ensures
            ip.code() == self.code(),
            ip.pos() == 0,
    {
        Ip::create(&self.code)
    }
}

impl Default for Bytecode {
    /// The same empty chunk that `new` builds.
    fn default() -> (chunk: Bytecode)
        ensures
            chunk.code() == Seq::<u8>::empty(),
            chunk.constants() == Seq::<Value>::empty(),
            chunk.lines() == Seq::<i32>::empty(),
            chunk.wf(),
    {
        Bytecode::new()
    }
}

/// The `== name ==` header line that opens every disassembly listing.
pub open spec fn header_text(name: Seq<char>) -> Seq<char> {
    "== "@ + name + " ==\n"@
}

/// The line-number column of one listing line: the source line,
/// right-aligned to four columns, or `   |` when it repeats the line of the
/// previous instruction. `prev` is the offset of the previous instruction's
/// tag byte; a negative `prev` marks the first instruction, whose line is
/// always printed.
pub open spec fn line_col(lines: Seq<i32>, i: int, prev: int) -> Seq<char> {
    if prev >= 0 && lines[i] == lines[prev] {
        "   |"@
    } else {
        space_pad_left(int_digits(lines[i] as int), 4)
    }
}

/// The rendering of one decoded instruction, after the offset and line
/// columns: the mnemonic alone for operand-less opcodes; for
/// `ConstantSmall`, the mnemonic left-aligned to 16 columns, the operand
/// byte zero-padded to four, and the referenced constant's value.
pub open spec fn instr_text(op: Op, code: Seq<u8>, constants: Seq<Value>, i: int) -> Seq<char> {
    match op {
        Op::ConstantSmall => space_pad_right(mnemonic(op), 16) + seq![' '] + zero_pad(
            dec_digits(code[i + 1] as int),
            4,
        ) + seq![' '] + value_text(constants[code[i + 1] as int]),
        Op::Negate => mnemonic(op),
        Op::Ret => mnemonic(op),
    }
}

/// Every listing line from offset `i` to the end of the stream: one line
/// per instruction, each ended by a newline. `prev` is the offset of the
/// previous instruction's tag byte (negative for the first instruction),
/// which the line-number column compares against. A byte that does not
/// decode produces the fixed illegal-instruction marker, and the scan stops
/// there.
pub open spec fn dis_lines(
    code: Seq<u8>,
    lines: Seq<i32>,
    constants: Seq<Value>,
    i: int,
    prev: int,
) -> Seq<char>
    decreases code.len() + 1 - i,
{
    if i < 0 || i >= code.len() {
        Seq::empty()
    } else {
        let prefix = zero_pad(dec_digits(i), 4) + seq![' '] + line_col(lines, i, prev) + seq![' '];
        match spec_decode(code[i]) {
            Some(op) => prefix + instr_text(op, code, constants, i) + seq!['\n'] + dis_lines(
                code,
                lines,
                constants,
                i + 1 + spec_operand_count(op),
                i,
            ),
            None => prefix + "Illegal Instruction"@ + seq!['\n'],
        }
    }
}

/// The whole disassembly of a chunk: the header line, then every listing
/// line from offset 0.
pub open spec fn disassembly_text(
    code: Seq<u8>,
    lines: Seq<i32>,
    constants: Seq<Value>,
    name: Seq<char>,
) -> Seq<char> {
    header_text(name) + dis_lines(code, lines, constants, 0, -1)
}

/// The stream is well formed for a disassembly scan from offset `i`: every
/// `ConstantSmall` the scan reaches has its operand byte present and names
/// a constant inside the pool. A violation is a compiler bug — the sole
/// producer of indices is `add_constant` — and is excluded rather than
/// given a substitute rendering.
pub open spec fn scan_wf(code: Seq<u8>, constants: Seq<Value>, i: int) -> bool
    decreases code.len() + 1 - i,
{
    if i < 0 || i >= code.len() {
        true
    } else {
        match spec_decode(code[i]) {
            Some(op) => {
                &&& (op is ConstantSmall ==> i + 1 < code.len() && (code[i + 1] as int)
                    < constants.len())
                &&& scan_wf(code, constants, i + 1 + spec_operand_count(op))
            },
            None => true,
        }
    }
}

impl Bytecode {
    /// Appends the offset and line-number columns of the listing line for
    /// the instruction at offset `i`, each followed by its separating
    /// space. `prev` is the tag offset of the previous instruction; it is
    /// ignored for the first instruction, at offset 0.
    fn push_line_prefix(&self, out: &mut String, i: usize, prev: usize)
        requires
            self.wf(),
            i < self.code().len(),
            i > 0 ==> prev < i,
        ensures
            final(out)@ == old(out)@ + (zero_pad(dec_digits(i as int), 4) + seq![' '] + line_col(
                self.lines(),
                i as int,
                if i == 0 {
                    -1
                } else {
                    prev as int
                },
            ) + seq![' ']),
    {
        push_dec_padded4(out, i as u64);
        out.append(" ");
        if i > 0 && self.lines[i] == self.lines[prev] {
            out.append("   |");
        } else {
            push_int_padded4(out, self.lines[i] as i64);
        }
        out.append(" ");
        proof {
            reveal_strlit(" ");
            assert(" "@ =~= seq![' ']);
            assert(out@ =~= old(out)@ + (zero_pad(dec_digits(i as int), 4) + seq![' ']
                + line_col(
                self.lines(),
                i as int,
                if i == 0 {
                    -1
                } else {
                    prev as int
                },
            ) + seq![' ']));
        }
    }

    /// Appends the rendering of the decoded instruction at offset `i`.
    fn push_instr_text(&self, out: &mut String, op: Op, i: usize)
        requires
            self.wf(),
            i < self.code().len(),
            spec_decode(self.code()[i as int]) == Some(op),
            scan_wf(self.code(), self.constants(), i as int),
        ensures
            final(out)@ == old(out)@ + instr_text(op, self.code(), self.constants(), i as int),
    {
        // A Vec's length fits in usize, so the operand offset cannot overflow.
        let _len: usize = self.code.len();
        match op {
            Op::ConstantSmall => {
                out.append(op.render());
                out.append("     ");
                out.append(" ");
                let constant = self.code[i + 1];
                push_dec_padded4(out, constant as u64);
                out.append(" ");
                let val = self.constants[constant as usize];
                let rendered = val.render();
                out.append(rendered.as_str());
                proof {
                    reveal_strlit("OP_CONSTANT");
                    reveal_strlit("     ");
                    reveal_strlit(" ");
                    reveal_with_fuel(repeat_char, 6);
                    assert(" "@ =~= seq![' ']);
                    assert("     "@ =~= repeat_char(' ', 5));
                    assert(space_pad_right(mnemonic(op), 16) =~= mnemonic(op) + repeat_char(
                        ' ',
                        5,
                    ));
                    assert(out@ =~= old(out)@ + instr_text(
                        op,
                        self.code(),
                        self.constants(),
                        i as int,
                    ));
                }
            },
            Op::Negate => {
                out.append(op.render());
            },
            Op::Ret => {
                out.append(op.render());
            },
        }
    }

    /// Appends the whole listing line for the instruction at offset `i` and
    /// returns the offset the scan continues from: one past this
    /// instruction's last byte, or the end of the stream after the
    /// illegal-instruction marker. `prev` is the tag offset of the previous
    /// instruction, ignored for the first instruction at offset 0.
    #[verifier::rlimit(60)]
    fn push_listing_line(&self, out: &mut String, i: usize, prev: usize) -> (next: usize)
        requires
            self.wf(),
            i < self.code().len(),
            scan_wf(self.code(), self.constants(), i as int),
            i > 0 ==> prev < i,
        ensures
            i < next <= self.code().len(),
            scan_wf(self.code(), self.constants(), next as int),
            final(out)@ + dis_lines(
                self.code(),
                self.lines(),
                self.constants(),
                next as int,
                i as int,
            ) == old(out)@ + dis_lines(
                self.code(),
                self.lines(),
                self.constants(),
                i as int,
                if i == 0 {
                    -1
                } else {
                    prev as int
                },
            ),
    {
        let ghost prev_spec: int = if i == 0 {
            -1
        } else {
            prev as int
        };
        let ghost prefix: Seq<char> = zero_pad(dec_digits(i as int), 4) + seq![' '] + line_col(
            self.lines(),
            i as int,
            prev_spec,
        ) + seq![' '];
        self.push_line_prefix(out, i, prev);
        let ghost pre: Seq<char> = out@;
        match Op::decode(self.code[i]) {
            Ok(op) => {
                self.push_instr_text(out, op, i);
                out.append("\n");
                // A Vec's length fits in usize, so the next offset cannot overflow.
                let _len: usize = self.code.len();
                proof {
                    assert(i as int + 1 + spec_operand_count(op) <= self.code().len());
                }
                let next = i + 1 + op.operand_count();
                proof {
                    reveal_strlit("\n");
                    assert("\n"@ =~= seq!['\n']);
                    assert(out@ =~= pre + instr_text(op, self.code(), self.constants(), i as int)
                        + seq!['\n']);
                    assert(dis_lines(
                        self.code(),
                        self.lines(),
                        self.constants(),
                        i as int,
                        prev_spec,
                    ) == prefix + instr_text(op, self.code(), self.constants(), i as int)
                        + seq!['\n'] + dis_lines(
                        self.code(),
                        self.lines(),
                        self.constants(),
                        next as int,
                        i as int,
                    ));
                    assert(out@ + dis_lines(
                        self.code(),
                        self.lines(),
                        self.constants(),
                        next as int,
                        i as int,
                    ) =~= old(out)@ + dis_lines(
                        self.code(),
                        self.lines(),
                        self.constants(),
                        i as int,
                        prev_spec,
                    ));
                }
                next
            },
            Err(_) => {
                out.append("Illegal Instruction");
                out.append("\n");
                let next = self.code.len();
                proof {
                    reveal_strlit("\n");
                    assert("\n"@ =~= seq!['\n']);
                    assert(dis_lines(
                        self.code(),
                        self.lines(),
                        self.constants(),
                        i as int,
                        prev_spec,
                    ) == prefix + "Illegal Instruction"@ + seq!['\n']);
                    assert(dis_lines(
                        self.code(),
                        self.lines(),
                        self.constants(),
                        next as int,
                        i as int,
                    ) =~= Seq::<char>::empty());
                    assert(out@ + dis_lines(
                        self.code(),
                        self.lines(),
                        self.constants(),
                        next as int,
                        i as int,
                    ) =~= old(out)@ + dis_lines(
                        self.code(),
                        self.lines(),
                        self.constants(),
                        i as int,
                        prev_spec,
                    ));
                }
                next
            },
        }
    }

    /// Renders the chunk as one header line and one line per instruction,
    /// exactly as `disassembly_text` lays the columns out.
    pub fn disassemble(&self, name: &str) -> (text: String)
        requires
            self.wf(),
            scan_wf(self.code(), self.constants(), 0),
        ensures
            text@ == disassembly_text(self.code(), self.lines(), self.constants(), name@),
    {
        let mut out = String::new();
        out.append("== ");
        out.append(name);
        out.append(" ==\n");
        proof {
            assert(out@ =~= header_text(name@));
        }
        let mut op_index: usize = 0;
        let mut prev_op_index: usize = 0;
        while op_index < self.code.len()
            invariant
                self.wf(),
                scan_wf(self.code(), self.constants(), op_index as int),
                op_index <= self.code().len(),
                op_index > 0 ==> prev_op_index < op_index,
                out@ + dis_lines(
                    self.code(),
                    self.lines(),
                    self.constants(),
                    op_index as int,
                    if op_index == 0 {
                        -1
                    } else {
                        prev_op_index as int
                    },
                ) == header_text(name@) + dis_lines(
                    self.code(),
                    self.lines(),
                    self.constants(),
                    0,
                    -1,
                ),
            decreases self.code().len() - op_index,
        {
            let next = self.push_listing_line(&mut out, op_index, prev_op_index);
            prev_op_index = op_index;
            op_index = next;
        }
        proof {
            assert(dis_lines(
                self.code(),
                self.lines(),
                self.constants(),
                op_index as int,
                if op_index == 0 {
                    -1
                } else {
                    prev_op_index as int
                },
            ) =~= Seq::<char>::empty());
            assert(out@ =~= disassembly_text(self.code(), self.lines(), self.constants(), name@));
        }
        out
    }
}

} // verus!
