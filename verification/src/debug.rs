use vstd::prelude::*;
use vstd::bytes::u64_from_le_bytes;
use vstd::slice::slice_subrange;
use crate::chunk::{Chunk, ChunkView};
use crate::value::Value;

verus! {

/// What the opcode byte at an offset, together with its operand bytes,
/// decodes to.
#[allow(inconsistent_fields)]
#[derive(Clone, Copy, PartialEq, Eq, Structural, Debug)]
pub enum DisasmKind {
    /// A `Constant` instruction: the decoded pool index and the value it
    /// resolves to.
    Constant { idx: usize, value: Value },
    /// A `Constant` instruction whose decoded index names no pool entry.
    InvalidConstant { idx: u64 },
    /// A `Constant` opcode whose operand is cut short by the end of the
    /// stream.
    TruncatedOperand,
    /// A `Return` instruction.
    Return,
    /// A byte with no registered opcode; reported and given width 1 so the
    /// walk can make progress.
    Unknown { opcode: u8 },
}

/// One instruction of a disassembly listing, ready to be rendered.
#[derive(Clone, Copy, PartialEq, Eq, Structural, Debug)]
pub struct DisasmLine {
    /// Byte offset of the instruction in the stream.
    pub offset: usize,
    /// The source line recorded for the opcode byte.
    pub line: usize,
    /// True when the instruction's source line equals the previous
    /// instruction's; a renderer then prints a placeholder mark instead of
    /// repeating the number.
    pub same_line: bool,
    /// The decoded instruction itself.
    pub kind: DisasmKind,
}

/// What the instruction at `offset` decodes to.
pub open spec fn spec_instr_kind(c: ChunkView, offset: int) -> DisasmKind {
    if c.code[offset] == 0 {
        if offset + 9 > c.code.len() {
            DisasmKind::TruncatedOperand
        } else {
            let idx = c.operand_at(offset + 1);
            if idx >= c.constants.len() {
                DisasmKind::InvalidConstant { idx }
            } else {
                DisasmKind::Constant { idx: idx as usize, value: c.constants[idx as int] }
            }
        }
    } else if c.code[offset] == 1 {
        DisasmKind::Return
    } else {
        DisasmKind::Unknown { opcode: c.code[offset] }
    }
}

/// How many bytes the instruction at `offset` occupies: one for the opcode,
/// plus eight operand bytes for a `Constant` (or whatever remains of them
/// when the stream is cut short).
pub open spec fn spec_instr_width(c: ChunkView, offset: int) -> int {
    if c.code[offset] == 0 {
        if offset + 9 > c.code.len() {
            c.code.len() - offset
        } else {
            9
        }
    } else {
        1
    }
}

/// The listing entry for the instruction at `offset`.
pub open spec fn spec_disasm_line(c: ChunkView, offset: int) -> DisasmLine {
    DisasmLine {
        offset: offset as usize,
        line: c.lines[offset],
        same_line: offset > 0 && c.lines[offset] == c.lines[offset - 1],
        kind: spec_instr_kind(c, offset),
    }
}

/// The full listing from `offset` to the end of the stream: every
/// instruction is decoded and the walk advances by each instruction's width,
/// so the whole byte stream is consumed.
pub open spec fn spec_disassemble(c: ChunkView, offset: int) -> Seq<DisasmLine>
    decreases c.code.len() - offset,
{
    if offset < 0 || offset >= c.code.len() {
        Seq::empty()
    } else {
        seq![spec_disasm_line(c, offset)] + spec_disassemble(
            c,
            offset + spec_instr_width(c, offset),
        )
    }
}

/// Law: a written constant round-trips through the disassembler's decode
/// path. After `write_constant(value, line)`, decoding the instruction that
/// now sits at the old end of the stream yields a `Constant` entry whose
/// index is the one the value was pooled at and whose resolved value is
/// exactly `value`.
pub proof fn lemma_disassemble_written_constant(c: ChunkView, value: Value, line: usize)
    requires
        c.constants.len() <= usize::MAX,
    ensures
        spec_instr_kind(c.with_constant(value, line), c.code.len() as int)
            == (DisasmKind::Constant { idx: c.constants.len() as usize, value }),
        spec_instr_width(c.with_constant(value, line), c.code.len() as int) == 9,
{
    crate::chunk::lemma_write_constant_round_trip(c, value, line);
    let post = c.with_constant(value, line);
    assert(post.code[c.code.len() as int] == 0u8);
}

/// Decodes the one instruction at `offset` and returns its listing entry
/// together with the offset of the next instruction.
pub fn disassemble_instruction(chunk: &Chunk, offset: usize) -> (r: (DisasmLine, usize))
    requires
        chunk.wf(),
        offset < chunk@.code.len(),
    ensures
        r.0 == spec_disasm_line(chunk@, offset as int),
        r.1 == offset + spec_instr_width(chunk@, offset as int),
{
    let bytes = chunk.bytes();
    let n = bytes.len();
    let lines = chunk.lines();
    let line = lines[offset];
    let same_line = offset > 0 && lines[offset - 1] == line;
    let instruction = bytes[offset];
    let (kind, next) = if instruction == 0 {
        if n - offset < 9 {
            (DisasmKind::TruncatedOperand, n)
        } else {
            let operand = slice_subrange(bytes.as_slice(), offset + 1, offset + 9);
            let idx = u64_from_le_bytes(operand);
            let pool_size = chunk.constants().len();
            if idx >= pool_size as u64 {
                (DisasmKind::InvalidConstant { idx }, offset + 9)
            } else {
                let value = chunk.read_constant(offset + 1);
                (DisasmKind::Constant { idx: idx as usize, value }, offset + 9)
            }
        }
    } else if instruction == 1 {
        (DisasmKind::Return, offset + 1)
    } else {
        (DisasmKind::Unknown { opcode: instruction }, offset + 1)
    };
    (DisasmLine { offset, line, same_line, kind }, next)
}

/// Walks every instruction of the chunk from offset 0 to the end of the
/// stream and returns the listing, one entry per instruction, in stream
/// order. The chunk is read-only to the walk.
pub fn disassemble_chunk(chunk: &Chunk) -> (listing: Vec<DisasmLine>)
    requires
        chunk.wf(),
    ensures
        listing@ == spec_disassemble(chunk@, 0),
{
    let mut listing: Vec<DisasmLine> = Vec::new();
    let n = chunk.bytes().len();
    let mut offset: usize = 0;
    while offset < n
        invariant
            chunk.wf(),
            n == chunk@.code.len(),
            offset <= n,
            spec_disassemble(chunk@, 0) == listing@ + spec_disassemble(chunk@, offset as int),
        decreases n - offset,
    {
        let ghost listing0 = listing@;
        let (entry, next) = disassemble_instruction(chunk, offset);
        listing.push(entry);
        proof {
            assert(listing0 + (seq![entry] + spec_disassemble(chunk@, next as int)) =~= listing@
                + spec_disassemble(chunk@, next as int));
        }
        offset = next;
    }
    proof {
        assert(spec_disassemble(chunk@, 0) =~= listing@);
    }
    listing
}

} // verus!
