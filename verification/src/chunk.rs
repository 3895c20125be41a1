use vstd::prelude::*;
use vstd::bytes::{
    lemma_auto_spec_u64_to_from_le_bytes, spec_u64_from_le_bytes, spec_u64_to_le_bytes,
    u64_from_le_bytes, u64_to_le_bytes,
};
use vstd::slice::slice_subrange;
use vstd::std_specs::iter::IteratorSpec;
use crate::value::Value;

verus! {

broadcast use {vstd::std_specs::slice::axiom_spec_slice_iter, vstd::std_specs::vec::axiom_spec_len};

/// The closed set of instruction tags. Each opcode is stored as a single byte
/// in a chunk's instruction stream; that byte is both the wire encoding and
/// the dispatch key. `Constant` is encoded as 0 and carries one operand (a
/// constant-pool index); `Return` is encoded as 1 and carries none.
#[derive(Clone, Copy, PartialEq, Eq, Structural, Debug)]
pub enum OpCode {
    Constant,
    Return,
}

impl OpCode {
    /// The byte that encodes this opcode in the instruction stream.
    pub open spec fn spec_tag(self) -> u8 {
        match self {
            OpCode::Constant => 0,
            OpCode::Return => 1,
        }
    }

    /// The byte that encodes this opcode in the instruction stream.
    #[verifier::when_used_as_spec(spec_tag)]
    pub fn tag(self) -> (b: u8)
        ensures
            b == self.spec_tag(),
    {
        match self {
            OpCode::Constant => 0,
            OpCode::Return => 1,
        }
    }
}

/// The mathematical model of a [`Chunk`]: the flat instruction stream, the
/// per-byte source-line table, and the constant pool.
pub ghost struct ChunkView {
    /// The encoded instruction stream, opcodes and operands interleaved.
    pub code: Seq<u8>,
    /// `lines[i]` is the source line that produced `code[i]`.
    pub lines: Seq<usize>,
    /// Append-only pool of values; insertion order is the constant's index.
    pub constants: Seq<Value>,
}

impl ChunkView {
    /// The line table annotates the instruction stream byte for byte.
    pub open spec fn wf(self) -> bool {
        self.lines.len() == self.code.len()
    }

    /// Effect of appending one raw byte tagged with its source line.
    pub open spec fn with_byte(self, byte: u8, line: usize) -> ChunkView {
        ChunkView {
            code: self.code.push(byte),
            lines: self.lines.push(line),
            constants: self.constants,
        }
    }

    /// Effect of appending one encoded operand: the value's eight
    /// little-endian bytes, every one tagged with the same source line.
    pub open spec fn with_operand(self, value: u64, line: usize) -> ChunkView {
        ChunkView {
            code: self.code + spec_u64_to_le_bytes(value),
            lines: self.lines + Seq::new(8, |i: int| line),
            constants: self.constants,
        }
    }

    /// Effect of appending one value to the constant pool.
    pub open spec fn with_pool_entry(self, value: Value) -> ChunkView {
        ChunkView { constants: self.constants.push(value), ..self }
    }

    /// Effect of appending each value of `values` to the constant pool,
    /// in order.
    pub open spec fn with_pool_entries(self, values: Seq<Value>) -> ChunkView
        decreases values.len(),
    {
        if values.len() == 0 {
            self
        } else {
            self.with_pool_entry(values[0]).with_pool_entries(values.drop_first())
        }
    }

    /// Effect of the composite constant write: the value joins the pool, and
    /// a `Constant` instruction loading it is appended — the opcode byte
    /// followed by the pool index it was assigned, all on one source line.
    pub open spec fn with_constant(self, value: Value, line: usize) -> ChunkView {
        self.with_pool_entry(value).with_byte(OpCode::Constant.spec_tag(), line).with_operand(
            self.constants.len() as u64,
            line,
        )
    }

    /// The operand encoded at `offset` in the instruction stream, decoded
    /// back to the constant-pool index it names.
    pub open spec fn operand_at(self, offset: int) -> u64 {
        spec_u64_from_le_bytes(self.code.subrange(offset, offset + 8))
    }
}

/// The binary unit of compiled instructions: a flat byte stream of opcodes
/// and operands, a parallel per-byte source-line table, and the constant pool
/// the instructions draw from.
///
/// A chunk is created empty, grows monotonically through the `write` family
/// of methods, and is read-only to its consumers (the disassembler and the
/// virtual machine). Nothing is ever removed or reordered.
pub struct Chunk {
    code: Vec<u8>,
    pub constants: Vec<Value>,
    pub lines: Vec<usize>,
}

impl View for Chunk {
    type V = ChunkView;

    closed spec fn view(&self) -> ChunkView {
        ChunkView { code: self.code@, lines: self.lines@, constants: self.constants@ }
    }
}

impl Chunk {
    /// The line table annotates the instruction stream byte for byte.
    pub open spec fn wf(&self) -> bool {
        self@.wf()
    }

    /// Creates an empty chunk: no instructions, no line entries, no constants.
    pub fn new() -> (c: Chunk)
        ensures
            c@.code == Seq::<u8>::empty(),
            c@.lines == Seq::<usize>::empty(),
            c@.constants == Seq::<Value>::empty(),
            c.wf(),
    {
        Chunk { code: Vec::new(), constants: Vec::new(), lines: Vec::new() }
    }

    /// Appends one raw byte and the source line that produced it. The byte's
    /// meaning is not validated; the stream and the line table grow by one
    /// entry each, in lockstep.
    pub fn write(&mut self, byte: u8, line: usize)
        ensures
            final(self)@ == old(self)@.with_byte(byte, line),
            old(self).wf() ==> final(self).wf(),
    {
        self.code.push(byte);
        self.lines.push(line);
    }

    /// Appends an opcode's encoding byte via [`Chunk::write`].
    pub fn write_opcode(&mut self, opcode: OpCode, line: usize)
        ensures
            final(self)@ == old(self)@.with_byte(opcode.spec_tag(), line),
            old(self).wf() ==> final(self).wf(),
    {
        self.write(opcode.tag(), line);
    }

    /// Appends an operand: the value's eight little-endian bytes, one at a
    /// time via [`Chunk::write`], all tagged with the same source line. The
    /// eight-byte little-endian layout is the fixed wire contract for
    /// operands, independent of the host.
    pub fn write_usize(&mut self, value: usize, line: usize)
        ensures
            final(self)@ == old(self)@.with_operand(value as u64, line),
            old(self).wf() ==> final(self).wf(),
    {
        let ghost pre = self@;
        let bytes = u64_to_le_bytes(value as u64);
        let mut i: usize = 0;
        while i < 8
            invariant
                bytes@ == spec_u64_to_le_bytes(value as u64),
                bytes@.len() == 8,
                i <= 8,
                self@.code == pre.code + bytes@.take(i as int),
                self@.lines == pre.lines + Seq::new(i as nat, |j: int| line),
                self@.constants == pre.constants,
            decreases 8 - i,
        {
            let ghost code0 = self@.code;
            let ghost lines0 = self@.lines;
            self.write(bytes[i], line);
            proof {
                assert(pre.code + bytes@.take(i + 1) =~= code0.push(bytes@[i as int]));
                assert(pre.lines + Seq::new((i + 1) as nat, |j: int| line) =~= lines0.push(
                    line,
                ));
            }
            i = i + 1;
        }
        proof {
            assert(bytes@.take(8) =~= bytes@);
        }
    }

    /// A read-only view of the encoded instruction stream.
    pub fn bytes(&self) -> (b: &Vec<u8>)
        ensures
            b@ == self@.code,
    {
        &self.code
    }

    /// A read-only view of the constant pool.
    pub fn constants(&self) -> (p: &Vec<Value>)
        ensures
            p@ == self@.constants,
    {
        &self.constants
    }

    /// A read-only view of the source-line table.
    pub fn lines(&self) -> (l: &Vec<usize>)
        ensures
            l@ == self@.lines,
    {
        &self.lines
    }

    /// An iterator over the bytes of the instruction stream, in order.
    pub fn iter(&self) -> (it: std::slice::Iter<'_, u8>)
        ensures
            it.remaining() == self@.code.as_ref(),
    {
        self.code.as_slice().iter()
    }

    /// Appends a value to the constant pool and returns the index it was
    /// assigned: always the pool's length before the call, so indices are
    /// handed out consecutively from 0 and are stable once assigned.
    pub fn add_constant(&mut self, value: Value) -> (idx: usize)
        ensures
            final(self)@ == old(self)@.with_pool_entry(value),
            idx == old(self)@.constants.len(),
            old(self).wf() ==> final(self).wf(),
    {
        self.constants.push(value);
        self.constants.len() - 1
    }

    /// The composite write that producers are expected to use: adds the value
    /// to the constant pool, then emits the `Constant` opcode followed by the
    /// assigned pool index as its operand, all tagged with the same line.
    pub fn write_constant(&mut self, value: Value, line: usize)
        ensures
            final(self)@ == old(self)@.with_constant(value, line),
            old(self).wf() ==> final(self).wf(),
    {
        let const_offset = self.add_constant(value);
        self.write_opcode(OpCode::Constant, line);
        self.write_usize(const_offset, line);
    }

    /// Decodes the operand starting at `offset` in the instruction stream:
    /// eight little-endian bytes naming a constant-pool index.
    pub fn constant_idx(&self, offset: usize) -> (idx: usize)
        requires
            offset + 8 <= self@.code.len(),
            self@.operand_at(offset as int) <= usize::MAX,
        ensures
            idx == self@.operand_at(offset as int),
    {
        proof {
            assert(self.code.len() <= usize::MAX);
        }
        let operand = slice_subrange(self.code.as_slice(), offset, offset + 8);
        u64_from_le_bytes(operand) as usize
    }

    /// Decodes the operand at `offset` and resolves it in the constant pool.
    /// The decoded index must name an existing pool entry: a stream that
    /// names a missing one is a producer/consumer mismatch, which consumers
    /// must rule out before calling.
    pub fn read_constant(&self, offset: usize) -> (v: Value)
        requires
            offset + 8 <= self@.code.len(),
            self@.operand_at(offset as int) < self@.constants.len(),
        ensures
            v == self@.constants[self@.operand_at(offset as int) as int],
    {
        proof {
            assert(self.constants.len() <= usize::MAX);
        }
        let const_idx = self.constant_idx(offset);
        self.constants[const_idx]
    }

    /// The fixed byte width of an encoded operand: the single source of truth
    /// that the disassembler and the virtual machine use to advance their
    /// cursors past a `Constant` instruction.
    pub fn constant_idx_size() -> (n: usize)
        ensures
            n == 8,
    {
        8
    }
}

/// The pool after a run of `add_constant` calls holds exactly the old
/// entries followed by the added ones — nothing is moved, lost or deduplicated.
proof fn lemma_with_pool_entries_appends(c: ChunkView, values: Seq<Value>)
    ensures
        c.with_pool_entries(values).constants =~= c.constants + values,
        c.with_pool_entries(values).code == c.code,
        c.with_pool_entries(values).lines == c.lines,
    decreases values.len(),
{
    if values.len() != 0 {
        lemma_with_pool_entries_appends(c.with_pool_entry(values[0]), values.drop_first());
        assert(c.constants.push(values[0]) + values.drop_first() =~= c.constants + values);
    }
}

/// Law: `add_constant` hands out strictly increasing indices starting at the
/// current pool size — 0 on a fresh chunk — and `constants[i]` afterwards
/// equals the i-th value added, for every i.
pub proof fn lemma_add_constant_indices(c: ChunkView, values: Seq<Value>, i: int)
    requires
        0 <= i < values.len(),
    ensures
        c.with_pool_entries(values.take(i)).constants.len() == c.constants.len() + i,
        c.with_pool_entries(values).constants[c.constants.len() + i] == values[i],
{
    lemma_with_pool_entries_appends(c, values.take(i));
    lemma_with_pool_entries_appends(c, values);
}

/// Law: an operand round-trips. The eight bytes that `write_usize` appends
/// for `value` decode back to exactly `value`, for every representable value.
pub proof fn lemma_operand_round_trip(c: ChunkView, value: usize, line: usize)
    ensures
        c.with_operand(value as u64, line).code.len() == c.code.len() + 8,
        c.with_operand(value as u64, line).operand_at(c.code.len() as int) == value as u64,
{
    lemma_auto_spec_u64_to_from_le_bytes();
    let post = c.with_operand(value as u64, line);
    assert(post.code.subrange(c.code.len() as int, c.code.len() as int + 8) =~= spec_u64_to_le_bytes(
        value as u64,
    ));
}

/// Law: a written constant round-trips. After `write_constant(value, line)`,
/// the instruction sits at the old end of the stream: its operand (at the old
/// length plus the one opcode byte) decodes to the index the value was pooled
/// at, that index is in bounds, and resolving it yields exactly `value`.
pub proof fn lemma_write_constant_round_trip(c: ChunkView, value: Value, line: usize)
    requires
        c.constants.len() <= u64::MAX,
    ensures
        c.with_constant(value, line).code.len() == c.code.len() + 9,
        c.with_constant(value, line).operand_at(c.code.len() as int + 1) == c.constants.len(),
        c.with_constant(value, line).operand_at(c.code.len() as int + 1) < c.with_constant(
            value,
            line,
        ).constants.len(),
        c.with_constant(value, line).constants[c.constants.len() as int] == value,
{
    lemma_auto_spec_u64_to_from_le_bytes();
    let post = c.with_constant(value, line);
    assert(post.code.subrange(c.code.len() as int + 1, c.code.len() as int + 9) =~= spec_u64_to_le_bytes(
        c.constants.len() as u64,
    ));
}

} // verus!
