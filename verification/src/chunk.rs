//! Compiled bytecode chunks and the builder that assembles them.

use std::sync::Arc;

use smallvec::SmallVec;

use vstd::prelude::*;
use vstd::string::StringExecFns;

use crate::opcode::{Opcode, byte_opcode, opcode_byte, opcode_immediate_size, opcode_is_jump, opcode_mnemonic};
use crate::text::{decimal, padded_digits, push_decimal, push_padded_digits, push_signed_decimal, signed_decimal};
use crate::value::{MettaValue, Val, debug_repr, push_debug, seq_view};

verus! {

/// Big-endian value of two bytes.
pub open spec fn be_u16(hi: u8, lo: u8) -> u16 {
    (hi as nat * 256 + lo as nat) as u16
}

/// The high byte of a 16-bit value.
pub open spec fn u16_hi(v: u16) -> u8 {
    (v / 256) as u8
}

/// The low byte of a 16-bit value.
pub open spec fn u16_lo(v: u16) -> u8 {
    (v % 256) as u8
}

/// The line of the last entry of `info` whose offset is at most `offset`.
pub open spec fn line_at(info: Seq<(usize, u32)>, offset: int) -> Option<u32>
    decreases info.len(),
{
    if info.len() == 0 {
        None
    } else if info.last().0 <= offset {
        Some(info.last().1)
    } else {
        line_at(info.drop_last(), offset)
    }
}

/// Line information is ordered by strictly increasing offsets within the code.
pub open spec fn line_info_wf(info: Seq<(usize, u32)>, code_len: nat) -> bool {
    &&& forall|i: int, j: int| 0 <= i < j < info.len() ==> info[i].0 < info[j].0
    &&& forall|i: int| 0 <= i < info.len() ==> info[i].0 < code_len
}

/// No value occurs twice in a constant pool.
pub open spec fn pool_distinct(pool: Seq<Val>) -> bool {
    forall|i: int, j: int| 0 <= i < j < pool.len() ==> pool[i] != pool[j]
}

/// A jump table for multi-way branching.
#[derive(Debug)]
pub struct JumpTable {
    /// Base offset in bytecode for this table.
    pub base_offset: usize,
    /// Entries: (value hash, target offset).
    pub entries: Vec<(u64, usize)>,
    /// Default target if no entry matches.
    pub default_offset: usize,
}

impl JumpTable {
    /// The model of this table: base offset, entries and default target.
    pub open spec fn view(&self) -> (usize, Seq<(u64, usize)>, usize) {
        (self.base_offset, self.entries@, self.default_offset)
    }
}

/// The models of a sequence of jump tables.
pub open spec fn tables_view(tables: Seq<JumpTable>) -> Seq<(usize, Seq<(u64, usize)>, usize)> {
    tables.map_values(|t: JumpTable| t@)
}

/// A compiled bytecode chunk: instructions, constant pool and metadata.
#[derive(Debug)]
pub struct BytecodeChunk {
    code: Vec<u8>,
    constants: Vec<MettaValue>,
    line_info: Vec<(usize, u32)>,
    jump_tables: Vec<JumpTable>,
    name: String,
    local_count: u16,
    upvalue_count: u16,
    arity: u8,
    is_vararg: bool,
    chunk_constants: Vec<BytecodeChunk>,
}

/// Mathematical model of a [`BytecodeChunk`].
pub ghost struct ChunkModel {
    pub code: Seq<u8>,
    pub pool: Seq<Val>,
    pub lines: Seq<(usize, u32)>,
    pub name: Seq<char>,
    pub locals: u16,
    pub upvalues: u16,
    pub arity: u8,
    pub vararg: bool,
    pub tables: nat,
    pub subs: Seq<ChunkModel>,
}

/// The constants of a chunk and of its sub-chunks, depth first.
pub open spec fn all_constants(m: ChunkModel) -> Seq<Val>
    decreases m, 1nat,
{
    m.pool + subs_constants(m.subs, m.subs.len())
}

/// The constants of the first `k` sub-chunks, depth first.
pub open spec fn subs_constants(subs: Seq<ChunkModel>, k: nat) -> Seq<Val>
    decreases subs, k,
{
    if k == 0 || k > subs.len() {
        Seq::empty()
    } else {
        subs_constants(subs, (k - 1) as nat) + all_constants(subs[k - 1])
    }
}

/// Builder for constructing a [`BytecodeChunk`].
#[derive(Debug)]
pub struct ChunkBuilder {
    code: Vec<u8>,
    constants: Vec<MettaValue>,
    line_info: Vec<(usize, u32)>,
    jump_tables: Vec<JumpTable>,
    name: String,
    local_count: u16,
    upvalue_count: u16,
    arity: u8,
    is_vararg: bool,
    current_line: u32,
    chunk_constants: Vec<BytecodeChunk>,
}

/// Models of a list of chunks.
pub open spec fn chunks_view(v: Seq<BytecodeChunk>) -> Seq<ChunkModel> {
    Seq::new(v.len(), |i: int| v[i]@)
}

/// Label of a forward jump with a two-byte offset, to be patched later.
#[derive(Debug, Clone, Copy)]
pub struct JumpLabel {
    offset: usize,
}

/// Label of a forward jump with a one-byte offset, to be patched later.
#[derive(Debug, Clone, Copy)]
pub struct JumpLabelShort {
    offset: usize,
}

impl JumpLabel {
    /// Offset of the two operand bytes of the jump.
    pub closed spec fn at(self) -> nat {
        self.offset as nat
    }
}

impl JumpLabelShort {
    /// Offset of the operand byte of the jump.
    pub closed spec fn at(self) -> nat {
        self.offset as nat
    }
}

impl BytecodeChunk {
    /// The model of this chunk.
    pub closed spec fn view(&self) -> ChunkModel
        decreases self,
    {
        ChunkModel {
            code: self.code@,
            pool: seq_view(self.constants@),
            lines: self.line_info@,
            name: self.name@,
            locals: self.local_count,
            upvalues: self.upvalue_count,
            arity: self.arity,
            vararg: self.is_vararg,
            tables: self.jump_tables@.len(),
            subs: Seq::new(
                self.chunk_constants@.len(),
                |i: int|
                    if 0 <= i < self.chunk_constants@.len() {
                        self.chunk_constants@[i].view()
                    } else {
                        vstd::pervasive::arbitrary()
                    },
            ),
        }
    }

    /// The sub-chunks that templates compile to.
    pub closed spec fn subs(&self) -> Seq<ChunkModel> {
        self@.subs
    }

    /// Append the constants of this chunk and of its sub-chunks, depth first.
    pub fn collect_constants(&self, roots: &mut Vec<MettaValue>)
        ensures
            seq_view(final(roots)@) == seq_view(old(roots)@) + all_constants(self@),
        decreases self,
    {
        let ghost start = seq_view(roots@);
        let mut i: usize = 0;
        while i < self.constants.len()
            invariant
                0 <= i <= self.constants@.len(),
                seq_view(roots@) == start + seq_view(self.constants@).take(i as int),
            decreases self.constants@.len() - i,
        {
            let ghost before = roots@;
            roots.push(self.constants[i].deep_clone());
            proof {
                assert(seq_view(roots@) =~= seq_view(before).push(self.constants@[i as int]@));
                assert(seq_view(self.constants@).take(i as int + 1) =~= seq_view(self.constants@).take(i as int).push(self.constants@[i as int]@));
            }
            i = i + 1;
        }
        proof {
            assert(seq_view(self.constants@).take(self.constants@.len() as int) =~= seq_view(self.constants@));
        }
        let ghost mid = seq_view(roots@);
        let ghost subs = self@.subs;
        let mut j: usize = 0;
        while j < self.chunk_constants.len()
            invariant
                0 <= j <= self.chunk_constants@.len(),
                subs == self@.subs,
                subs.len() == self.chunk_constants@.len(),
                seq_view(roots@) == mid + subs_constants(subs, j as nat),
            decreases self.chunk_constants@.len() - j,
        {
            proof {
                vstd::std_specs::vec::axiom_vec_index_decreases(self.chunk_constants, j as int);
                assert(subs[j as int] == self.chunk_constants@[j as int]@);
            }
            let ghost before = seq_view(roots@);
            self.chunk_constants[j].collect_constants(roots);
            proof {
                assert(seq_view(roots@) =~= mid + subs_constants(subs, (j + 1) as nat));
            }
            j = j + 1;
        }
        proof {
            assert(seq_view(roots@) =~= seq_view(old(roots)@) + all_constants(self@));
        }
    }

    /// The number of compiled sub-chunks.
    pub fn chunk_constant_count(&self) -> (r: usize)
        ensures
            r == self.subs().len(),
    {
        self.chunk_constants.len()
    }

    /// The compiled sub-chunk at `index`, if any.
    pub fn get_chunk_constant(&self, index: u16) -> (r: Option<&BytecodeChunk>)
        ensures
            (index as nat) < self.subs().len() ==> r is Some && r->Some_0@ == self.subs()[index as int],
            (index as nat) >= self.subs().len() ==> r is None,
    {
        let i = index as usize;
        if i < self.chunk_constants.len() {
            Some(&self.chunk_constants[i])
        } else {
            None
        }
    }

    /// The instruction bytes.
    pub closed spec fn code_view(&self) -> Seq<u8> {
        self.code@
    }

    /// The constant pool.
    pub closed spec fn pool(&self) -> Seq<Val> {
        seq_view(self.constants@)
    }

    /// The line table.
    pub closed spec fn lines(&self) -> Seq<(usize, u32)> {
        self.line_info@
    }

    /// The chunk name.
    pub closed spec fn name_view(&self) -> Seq<char> {
        self.name@
    }

    /// Number of local slots.
    pub closed spec fn locals_view(&self) -> u16 {
        self.local_count
    }

    /// Number of captured upvalues.
    pub closed spec fn upvalues_view(&self) -> u16 {
        self.upvalue_count
    }

    /// Number of parameters.
    pub closed spec fn arity_view(&self) -> u8 {
        self.arity
    }

    /// Whether the chunk takes variadic arguments.
    pub closed spec fn vararg_view(&self) -> bool {
        self.is_vararg
    }

    /// Number of jump tables.
    pub closed spec fn jump_table_count(&self) -> nat {
        self.jump_tables@.len()
    }

    /// The jump tables, in order.
    pub closed spec fn jump_tables_view(&self) -> Seq<(usize, Seq<(u64, usize)>, usize)> {
        tables_view(self.jump_tables@)
    }

    /// Create a new empty chunk.
    pub fn new(name: &str) -> (r: BytecodeChunk)
        ensures
            r.code_view() == Seq::<u8>::empty(),
            r.pool() == Seq::<Val>::empty(),
            r.lines() == Seq::<(usize, u32)>::empty(),
            r.name_view() == name@,
            r.locals_view() == 0,
            r.upvalues_view() == 0,
            r.arity_view() == 0,
            !r.vararg_view(),
            r.jump_table_count() == 0,
    {
        let r = BytecodeChunk {
            code: Vec::new(),
            constants: Vec::new(),
            line_info: Vec::new(),
            jump_tables: Vec::new(),
            name: name.to_string(),
            local_count: 0,
            upvalue_count: 0,
            arity: 0,
            is_vararg: false,
            chunk_constants: Vec::new(),
        };
        assert(seq_view(r.constants@) =~= Seq::<Val>::empty());
        r
    }

    /// Create a builder for constructing a chunk.
    pub fn builder(name: &str) -> (r: ChunkBuilder)
        ensures
            r.wf(),
            r.code_view() == Seq::<u8>::empty(),
            r.pool() == Seq::<Val>::empty(),
            r.name_view() == name@,
            r.line_view() == 1,
    {
        ChunkBuilder::new(name)
    }

    /// The instruction bytes.
    pub fn code(&self) -> (r: &[u8])
        ensures
            r@ == self.code_view(),
    {
        self.code.as_slice()
    }

    /// Number of instruction bytes.
    pub fn len(&self) -> (r: usize)
        ensures
            r == self.code_view().len(),
    {
        self.code.len()
    }

    /// Whether the chunk holds no instructions.
    pub fn is_empty(&self) -> (r: bool)
        ensures
            r == (self.code_view().len() == 0),
    {
        self.code.len() == 0
    }

    /// The byte at `offset`, if any.
    pub fn read_byte(&self, offset: usize) -> (r: Option<u8>)
        ensures
            r == (if offset < self.code_view().len() {
                Some(self.code_view()[offset as int])
            } else {
                None
            }),
    {
        if offset < self.code.len() {
            Some(self.code[offset])
        } else {
            None
        }
    }

    /// The opcode at `offset`, if the byte there encodes one.
    pub fn read_opcode(&self, offset: usize) -> (r: Option<Opcode>)
        ensures
            r == (if offset < self.code_view().len() {
                byte_opcode(self.code_view()[offset as int])
            } else {
                None
            }),
    {
        if offset < self.code.len() {
            Opcode::from_byte(self.code[offset])
        } else {
            None
        }
    }

    /// The big-endian 16-bit value at `offset`, if two bytes are there.
    pub fn read_u16(&self, offset: usize) -> (r: Option<u16>)
        ensures
            r == (if offset + 1 < self.code_view().len() {
                Some(be_u16(self.code_view()[offset as int], self.code_view()[offset + 1]))
            } else {
                None
            }),
    {
        if offset < self.code.len() && offset + 1 < self.code.len() {
            let hi = self.code[offset];
            let lo = self.code[offset + 1];
            Some((hi as u16) * 256 + (lo as u16))
        } else {
            None
        }
    }

    /// The big-endian signed 16-bit value at `offset`, if two bytes are there.
    pub fn read_i16(&self, offset: usize) -> (r: Option<i16>)
        ensures
            r == (if offset + 1 < self.code_view().len() {
                Some(be_u16(self.code_view()[offset as int], self.code_view()[offset + 1]) as i16)
            } else {
                None
            }),
    {
        match self.read_u16(offset) {
            Some(u) => Some(u as i16),
            None => None,
        }
    }

    /// The signed byte at `offset`, if any.
    pub fn read_i8(&self, offset: usize) -> (r: Option<i8>)
        ensures
            r == (if offset < self.code_view().len() {
                Some(self.code_view()[offset as int] as i8)
            } else {
                None
            }),
    {
        if offset < self.code.len() {
            Some(self.code[offset] as i8)
        } else {
            None
        }
    }

    /// The constant at `index`, if any.
    pub fn get_constant(&self, index: u16) -> (r: Option<&MettaValue>)
        ensures
            (index < self.pool().len()) == (r is Some),
            r matches Some(c) ==> c@ == self.pool()[index as int],
    {
        if (index as usize) < self.constants.len() {
            Some(&self.constants[index as usize])
        } else {
            None
        }
    }

    /// All constants.
    pub fn constants(&self) -> (r: &[MettaValue])
        ensures
            seq_view(r@) == self.pool(),
    {
        self.constants.as_slice()
    }

    /// Number of constants.
    pub fn constant_count(&self) -> (r: usize)
        ensures
            r == self.pool().len(),
    {
        self.constants.len()
    }

    /// The source line of the instruction at `offset`.
    pub fn get_line(&self, offset: usize) -> (r: Option<u32>)
        ensures
            r == line_at(self.lines(), offset as int),
    {
        let mut i = self.line_info.len();
        assert(self.line_info@.take(i as int) =~= self.line_info@);
        while i > 0
            invariant
                i <= self.line_info@.len(),
                line_at(self.line_info@, offset as int) == line_at(
                    self.line_info@.take(i as int),
                    offset as int,
                ),
            decreases i,
        {
            let (o, l) = self.line_info[i - 1];
            let ghost t = self.line_info@.take(i as int);
            assert(t.drop_last() =~= self.line_info@.take(i - 1));
            if o <= offset {
                return Some(l);
            }
            i = i - 1;
        }
        None
    }

    /// The chunk name.
    pub fn name(&self) -> (r: &str)
        ensures
            r@ == self.name_view(),
    {
        self.name.as_str()
    }

    /// Number of local slots.
    pub fn local_count(&self) -> (r: u16)
        ensures
            r == self.locals_view(),
    {
        self.local_count
    }

    /// Number of captured upvalues.
    pub fn upvalue_count(&self) -> (r: u16)
        ensures
            r == self.upvalues_view(),
    {
        self.upvalue_count
    }

    /// Number of parameters.
    pub fn arity(&self) -> (r: u8)
        ensures
            r == self.arity_view(),
    {
        self.arity
    }

    /// Whether the chunk takes variadic arguments.
    pub fn is_vararg(&self) -> (r: bool)
        ensures
            r == self.vararg_view(),
    {
        self.is_vararg
    }

    /// The jump table at `index`, if any.
    pub fn get_jump_table(&self, index: usize) -> (r: Option<&JumpTable>)
        ensures
            r is Some == (index < self.jump_table_count()),
            r is Some ==> r->Some_0@ == self.jump_tables_view()[index as int],
    {
        if index < self.jump_tables.len() {
            Some(&self.jump_tables[index])
        } else {
            None
        }
    }
}


/// The line table after recording `line` at `offset`: a new entry only when
/// the line differs from the last recorded one.
pub open spec fn record_line(info: Seq<(usize, u32)>, offset: usize, line: u32) -> Seq<(usize, u32)> {
    if info.len() == 0 || info.last().1 != line {
        info.push((offset, line))
    } else {
        info
    }
}

/// The two operand bytes that a patched forward jump holds: the distance
/// from the end of the operand to `target`, as a big-endian 16-bit value.
pub open spec fn jump_operand(at: nat, target: nat) -> u16 {
    ((target - (at + 2)) as i16) as u16
}

impl ChunkBuilder {
    /// The builder invariant.
    pub closed spec fn wf(&self) -> bool {
        &&& line_info_wf(self.line_info@, self.code@.len())
        &&& pool_distinct(seq_view(self.constants@))
        &&& self.constants@.len() <= 65536
    }

    /// The instruction bytes emitted so far.
    pub closed spec fn code_view(&self) -> Seq<u8> {
        self.code@
    }

    /// The constant pool.
    pub closed spec fn pool(&self) -> Seq<Val> {
        seq_view(self.constants@)
    }

    /// The line table.
    pub closed spec fn lines(&self) -> Seq<(usize, u32)> {
        self.line_info@
    }

    /// The chunk name.
    pub closed spec fn name_view(&self) -> Seq<char> {
        self.name@
    }

    /// The line recorded for subsequent instructions.
    pub closed spec fn line_view(&self) -> u32 {
        self.current_line
    }

    /// Number of local slots.
    pub closed spec fn locals_view(&self) -> u16 {
        self.local_count
    }

    /// Number of captured upvalues.
    pub closed spec fn upvalues_view(&self) -> u16 {
        self.upvalue_count
    }

    /// Number of parameters.
    pub closed spec fn arity_view(&self) -> u8 {
        self.arity
    }

    /// Whether the chunk takes variadic arguments.
    pub closed spec fn vararg_view(&self) -> bool {
        self.is_vararg
    }

    /// Number of jump tables.
    pub closed spec fn jump_table_count(&self) -> nat {
        self.jump_tables@.len()
    }

    /// The jump tables, in order.
    pub closed spec fn jump_tables_view(&self) -> Seq<(usize, Seq<(u64, usize)>, usize)> {
        tables_view(self.jump_tables@)
    }

    /// The fields that only setters change.
    pub open spec fn same_metadata(&self, other: &ChunkBuilder) -> bool {
        &&& self.name_view() == other.name_view()
        &&& self.line_view() == other.line_view()
        &&& self.locals_view() == other.locals_view()
        &&& self.upvalues_view() == other.upvalues_view()
        &&& self.arity_view() == other.arity_view()
        &&& self.vararg_view() == other.vararg_view()
        &&& self.jump_table_count() == other.jump_table_count()
        &&& self.subs() == other.subs()
    }

    /// The sub-chunks that templates compile to.
    pub closed spec fn subs(&self) -> Seq<ChunkModel> {
        chunks_view(self.chunk_constants@)
    }

    /// The chunk that building now would produce.
    pub open spec fn chunk_model(&self) -> ChunkModel {
        ChunkModel {
            code: self.code_view(),
            pool: self.pool(),
            lines: self.lines(),
            name: self.name_view(),
            locals: self.locals_view(),
            upvalues: self.upvalues_view(),
            arity: self.arity_view(),
            vararg: self.vararg_view(),
            tables: self.jump_table_count(),
            subs: self.subs(),
        }
    }

    /// Create a new chunk builder.
    pub fn new(name: &str) -> (r: ChunkBuilder)
        ensures
            r.wf(),
            r.code_view() == Seq::<u8>::empty(),
            r.pool() == Seq::<Val>::empty(),
            r.lines() == Seq::<(usize, u32)>::empty(),
            r.name_view() == name@,
            r.line_view() == 1,
            r.locals_view() == 0,
            r.upvalues_view() == 0,
            r.arity_view() == 0,
            !r.vararg_view(),
            r.jump_table_count() == 0,
            r.subs() == Seq::<ChunkModel>::empty(),
    {
        let r = ChunkBuilder {
            code: Vec::new(),
            constants: Vec::new(),
            line_info: Vec::new(),
            jump_tables: Vec::new(),
            name: name.to_string(),
            local_count: 0,
            upvalue_count: 0,
            arity: 0,
            is_vararg: false,
            current_line: 1,
            chunk_constants: Vec::new(),
        };
        assert(chunks_view(r.chunk_constants@) =~= Seq::<ChunkModel>::empty());
        assert(seq_view(r.constants@) =~= Seq::<Val>::empty());
        r
    }

    /// Set the source line for subsequent instructions.
    pub fn set_line(&mut self, line: u32)
        requires
            old(self).wf(),
        ensures
            final(self).wf(),
            final(self).line_view() == line,
            final(self).code_view() == old(self).code_view(),
            final(self).pool() == old(self).pool(),
            final(self).lines() == old(self).lines(),
            final(self).name_view() == old(self).name_view(),
            final(self).locals_view() == old(self).locals_view(),
            final(self).upvalues_view() == old(self).upvalues_view(),
            final(self).arity_view() == old(self).arity_view(),
            final(self).vararg_view() == old(self).vararg_view(),
            final(self).jump_table_count() == old(self).jump_table_count(),
            final(self).subs() == old(self).subs(),
    {
        self.current_line = line;
    }

    /// Set the number of local slots.
    pub fn set_local_count(&mut self, count: u16)
        requires
            old(self).wf(),
        ensures
            final(self).wf(),
            final(self).locals_view() == count,
            final(self).code_view() == old(self).code_view(),
            final(self).pool() == old(self).pool(),
            final(self).lines() == old(self).lines(),
            final(self).name_view() == old(self).name_view(),
            final(self).line_view() == old(self).line_view(),
            final(self).upvalues_view() == old(self).upvalues_view(),
            final(self).arity_view() == old(self).arity_view(),
            final(self).vararg_view() == old(self).vararg_view(),
            final(self).jump_table_count() == old(self).jump_table_count(),
            final(self).subs() == old(self).subs(),
    {
        self.local_count = count;
    }

    /// Set the number of captured upvalues.
    pub fn set_upvalue_count(&mut self, count: u16)
        requires
            old(self).wf(),
        ensures
            final(self).wf(),
            final(self).upvalues_view() == count,
            final(self).code_view() == old(self).code_view(),
            final(self).pool() == old(self).pool(),
            final(self).lines() == old(self).lines(),
            final(self).name_view() == old(self).name_view(),
            final(self).line_view() == old(self).line_view(),
            final(self).locals_view() == old(self).locals_view(),
            final(self).arity_view() == old(self).arity_view(),
            final(self).vararg_view() == old(self).vararg_view(),
            final(self).jump_table_count() == old(self).jump_table_count(),
            final(self).subs() == old(self).subs(),
    {
        self.upvalue_count = count;
    }

    /// Set the number of parameters.
    pub fn set_arity(&mut self, arity: u8)
        requires
            old(self).wf(),
        ensures
            final(self).wf(),
            final(self).arity_view() == arity,
            final(self).code_view() == old(self).code_view(),
            final(self).pool() == old(self).pool(),
            final(self).lines() == old(self).lines(),
            final(self).name_view() == old(self).name_view(),
            final(self).line_view() == old(self).line_view(),
            final(self).locals_view() == old(self).locals_view(),
            final(self).upvalues_view() == old(self).upvalues_view(),
            final(self).vararg_view() == old(self).vararg_view(),
            final(self).jump_table_count() == old(self).jump_table_count(),
            final(self).subs() == old(self).subs(),
    {
        self.arity = arity;
    }

    /// Set the variadic flag.
    pub fn set_vararg(&mut self, is_vararg: bool)
        requires
            old(self).wf(),
        ensures
            final(self).wf(),
            final(self).vararg_view() == is_vararg,
            final(self).code_view() == old(self).code_view(),
            final(self).pool() == old(self).pool(),
            final(self).lines() == old(self).lines(),
            final(self).name_view() == old(self).name_view(),
            final(self).line_view() == old(self).line_view(),
            final(self).locals_view() == old(self).locals_view(),
            final(self).upvalues_view() == old(self).upvalues_view(),
            final(self).arity_view() == old(self).arity_view(),
            final(self).jump_table_count() == old(self).jump_table_count(),
            final(self).subs() == old(self).subs(),
    {
        self.is_vararg = is_vararg;
    }

    /// The current bytecode offset.
    pub fn current_offset(&self) -> (r: usize)
        ensures
            r == self.code_view().len(),
    {
        self.code.len()
    }

    fn emit_line_info(&mut self)
        requires
            old(self).wf(),
        ensures
            final(self).lines() == record_line(old(self).lines(), old(self).code_view().len() as usize, old(self).line_view()),
            final(self).code_view() == old(self).code_view(),
            final(self).pool() == old(self).pool(),
            final(self).same_metadata(&*old(self)),
            line_info_wf(final(self).lines(), old(self).code_view().len() + 1),
            pool_distinct(final(self).pool()),
            final(self).constants@.len() <= 65536,
    {
        let offset = self.code.len();
        let n = self.line_info.len();
        if n == 0 || self.line_info[n - 1].1 != self.current_line {
            self.line_info.push((offset, self.current_line));
        }
    }

    /// Emit a single opcode.
    pub fn emit(&mut self, opcode: Opcode)
        requires
            old(self).wf(),
        ensures
            final(self).wf(),
            final(self).code_view() == old(self).code_view().push(opcode_byte(opcode)),
            final(self).lines() == record_line(old(self).lines(), old(self).code_view().len() as usize, old(self).line_view()),
            final(self).pool() == old(self).pool(),
            final(self).same_metadata(&*old(self)),
    {
        self.emit_line_info();
        self.code.push(opcode.to_byte());
    }

    /// Emit an opcode with a one-byte operand.
    pub fn emit_byte(&mut self, opcode: Opcode, operand: u8)
        requires
            old(self).wf(),
        ensures
            final(self).wf(),
            final(self).code_view() == old(self).code_view().push(opcode_byte(opcode)).push(operand),
            final(self).lines() == record_line(old(self).lines(), old(self).code_view().len() as usize, old(self).line_view()),
            final(self).pool() == old(self).pool(),
            final(self).same_metadata(&*old(self)),
    {
        self.emit_line_info();
        self.code.push(opcode.to_byte());
        self.code.push(operand);
    }

    /// Emit an opcode with a two-byte big-endian operand.
    pub fn emit_u16(&mut self, opcode: Opcode, operand: u16)
        requires
            old(self).wf(),
        ensures
            final(self).wf(),
            final(self).code_view() == old(self).code_view().push(opcode_byte(opcode)).push(
                u16_hi(operand),
            ).push(u16_lo(operand)),
            final(self).lines() == record_line(old(self).lines(), old(self).code_view().len() as usize, old(self).line_view()),
            final(self).pool() == old(self).pool(),
            final(self).same_metadata(&*old(self)),
    {
        self.emit_line_info();
        self.code.push(opcode.to_byte());
        self.code.push((operand / 256) as u8);
        self.code.push((operand % 256) as u8);
    }

    /// Emit raw bytes.
    pub fn emit_raw(&mut self, bytes: &[u8])
        requires
            old(self).wf(),
        ensures
            final(self).wf(),
            final(self).code_view() == old(self).code_view() + bytes@,
            final(self).lines() == old(self).lines(),
            final(self).pool() == old(self).pool(),
            final(self).same_metadata(&*old(self)),
    {
        let mut i: usize = 0;
        while i < bytes.len()
            invariant
                self.wf(),
                i <= bytes@.len(),
                self.code@ == old(self).code_view() + bytes@.take(i as int),
                self.lines() == old(self).lines(),
                self.pool() == old(self).pool(),
                self.same_metadata(&*old(self)),
            decreases bytes@.len() - i,
        {
            self.code.push(bytes[i]);
            i = i + 1;
            assert(self.code@ =~= old(self).code_view() + bytes@.take(i as int));
        }
        assert(bytes@.take(bytes@.len() as int) =~= bytes@);
    }

    /// The name of the chunk under construction.
    pub fn name(&self) -> (r: &str)
        ensures
            r@ == self.name_view(),
    {
        self.name.as_str()
    }

    /// The number of compiled sub-chunks.
    pub fn sub_count(&self) -> (r: usize)
        ensures
            r == self.subs().len(),
    {
        self.chunk_constants.len()
    }

    /// The number of constants in the pool.
    pub fn pool_len(&self) -> (r: usize)
        ensures
            r == self.pool().len(),
    {
        self.constants.len()
    }

    /// Whether the pool already holds a value equal to `value`.
    pub fn pool_contains(&self, value: &MettaValue) -> (r: bool)
        ensures
            r == self.pool().contains(value@),
    {
        let mut i: usize = 0;
        while i < self.constants.len()
            invariant
                0 <= i <= self.constants@.len(),
                forall|j: int| 0 <= j < i ==> self.constants@[j]@ != value@,
            decreases self.constants@.len() - i,
        {
            if values_equal_ref(&self.constants[i], value) {
                proof {
                    assert(seq_view(self.constants@)[i as int] == value@);
                }
                return true;
            }
            i = i + 1;
        }
        proof {
            assert forall|j: int| 0 <= j < seq_view(self.constants@).len() implies seq_view(self.constants@)[j] != value@ by {
                assert(seq_view(self.constants@)[j] == self.constants@[j]@);
            }
        }
        false
    }

    /// Add a constant to the pool, returning its index; a value already in the
    /// pool is not added again.
    pub fn add_constant(&mut self, value: MettaValue) -> (r: u16)
        requires
            old(self).wf(),
            old(self).pool().contains(value@) || old(self).pool().len() < 65536,
        ensures
            final(self).wf(),
            r < final(self).pool().len(),
            final(self).pool()[r as int] == value@,
            old(self).pool().contains(value@) ==> final(self).pool() == old(self).pool(),
            !old(self).pool().contains(value@) ==> final(self).pool() == old(self).pool().push(value@)
                && r == old(self).pool().len(),
            forall|j: int| 0 <= j < r ==> final(self).pool()[j] != value@,
            final(self).code_view() == old(self).code_view(),
            final(self).lines() == old(self).lines(),
            final(self).same_metadata(&*old(self)),
    {
        let mut i: usize = 0;
        while i < self.constants.len()
            invariant
                *self == *old(self),
                old(self).wf(),
                0 <= i <= self.constants@.len(),
                self.constants@.len() <= 65536,
                forall|j: int| 0 <= j < i ==> self.constants@[j]@ != value@,
            decreases self.constants@.len() - i,
        {
            if values_equal_ref(&self.constants[i], &value) {
                proof {
                    assert(seq_view(self.constants@)[i as int] == value@);
                }
                return i as u16;
            }
            i = i + 1;
        }
        proof {
            assert forall|j: int| 0 <= j < seq_view(self.constants@).len() implies seq_view(self.constants@)[j] != value@ by {
                assert(seq_view(self.constants@)[j] == self.constants@[j]@);
            }
        }
        let index = self.constants.len();
        self.constants.push(value);
        proof {
            assert(seq_view(self.constants@) =~= old(self).pool().push(value@));
        }
        index as u16
    }

    /// Emit a load of a constant.
    pub fn emit_constant(&mut self, value: MettaValue)
        requires
            old(self).wf(),
            old(self).pool().contains(value@) || old(self).pool().len() < 65536,
        ensures
            final(self).wf(),
            final(self).pool().contains(value@),
            old(self).pool().contains(value@) ==> final(self).pool() == old(self).pool(),
            !old(self).pool().contains(value@) ==> final(self).pool() == old(self).pool().push(value@),
            exists|k: u16| #![auto] k < final(self).pool().len() && final(self).pool()[k as int] == value@
                && final(self).code_view() == old(self).code_view().push(opcode_byte(Opcode::PushConstant)).push(u16_hi(k)).push(u16_lo(k)),
            final(self).same_metadata(&*old(self)),
    {
        let index = self.add_constant(value);
        self.emit_u16(Opcode::PushConstant, index);
    }

    /// Emit a forward jump with a placeholder operand; the label patches it.
    pub fn emit_jump(&mut self, opcode: Opcode) -> (r: JumpLabel)
        requires
            old(self).wf(),
            opcode_is_jump(opcode),
        ensures
            final(self).wf(),
            final(self).code_view() == old(self).code_view().push(opcode_byte(opcode)).push(0xFFu8).push(0xFFu8),
            r.at() == old(self).code_view().len() + 1,
            final(self).lines() == record_line(old(self).lines(), old(self).code_view().len() as usize, old(self).line_view()),
            final(self).pool() == old(self).pool(),
            final(self).same_metadata(&*old(self)),
    {
        self.emit_line_info();
        let offset = self.code.len();
        self.code.push(opcode.to_byte());
        self.code.push(0xFF);
        self.code.push(0xFF);
        let end = self.code.len();
        JumpLabel { offset: end - 2 }
    }

    /// Emit a forward jump with a one-byte placeholder operand.
    pub fn emit_jump_short(&mut self, opcode: Opcode) -> (r: JumpLabelShort)
        requires
            old(self).wf(),
            opcode_is_jump(opcode),
        ensures
            final(self).wf(),
            final(self).code_view() == old(self).code_view().push(opcode_byte(opcode)).push(0xFFu8),
            r.at() == old(self).code_view().len() + 1,
            final(self).lines() == record_line(old(self).lines(), old(self).code_view().len() as usize, old(self).line_view()),
            final(self).pool() == old(self).pool(),
            final(self).same_metadata(&*old(self)),
    {
        self.emit_line_info();
        let offset = self.code.len();
        self.code.push(opcode.to_byte());
        self.code.push(0xFF);
        let end = self.code.len();
        JumpLabelShort { offset: end - 1 }
    }

    /// Patch a jump so that it lands at the current end of the code.
    pub fn patch_jump(&mut self, label: JumpLabel)
        requires
            old(self).wf(),
            label.at() + 1 < old(self).code_view().len(),
        ensures
            final(self).wf(),
            final(self).code_view() == old(self).code_view().update(
                label.at() as int,
                u16_hi(jump_operand(label.at(), old(self).code_view().len())),
            ).update(
                (label.at() + 1) as int,
                u16_lo(jump_operand(label.at(), old(self).code_view().len())),
            ),
            final(self).lines() == old(self).lines(),
            final(self).pool() == old(self).pool(),
            final(self).same_metadata(&*old(self)),
    {
        let target = self.code.len();
        let jump_from = label.offset + 2;
        let distance: usize = target - jump_from;
        let offset: i16 = distance as i16;
        let bits: u16 = offset as u16;
        self.code.set(label.offset, (bits / 256) as u8);
        self.code.set(label.offset + 1, (bits % 256) as u8);
    }

    /// Patch a short jump so that it lands at the current end of the code.
    pub fn patch_jump_short(&mut self, label: JumpLabelShort)
        requires
            old(self).wf(),
            label.at() < old(self).code_view().len(),
        ensures
            final(self).wf(),
            final(self).code_view() == old(self).code_view().update(
                label.at() as int,
                (((old(self).code_view().len() - (label.at() + 1)) as i8) as u8),
            ),
            final(self).lines() == old(self).lines(),
            final(self).pool() == old(self).pool(),
            final(self).same_metadata(&*old(self)),
    {
        let target = self.code.len();
        let jump_from = label.offset + 1;
        let distance: usize = target - jump_from;
        let offset: i8 = distance as i8;
        self.code.set(label.offset, offset as u8);
    }

    /// Emit a backward jump to a known target.
    pub fn emit_loop(&mut self, target: usize)
        requires
            old(self).wf(),
        ensures
            final(self).wf(),
            final(self).code_view() == old(self).code_view().push(opcode_byte(Opcode::Jump)).push(
                u16_hi(((target - (old(self).code_view().len() + 3)) as i16) as u16),
            ).push(u16_lo(((target - (old(self).code_view().len() + 3)) as i16) as u16)),
            final(self).lines() == record_line(old(self).lines(), old(self).code_view().len() as usize, old(self).line_view()),
            final(self).pool() == old(self).pool(),
            final(self).same_metadata(&*old(self)),
    {
        self.emit_line_info();
        let len = self.code.len();
        let distance: i128 = (target as i128) - (len as i128 + 3);
        let offset: i16 = distance as i16;
        let bits: u16 = offset as u16;
        self.code.push(Opcode::Jump.to_byte());
        self.code.push((bits / 256) as u8);
        self.code.push((bits % 256) as u8);
    }

    /// Add a jump table, returning its index.
    pub fn add_jump_table(&mut self, table: JumpTable) -> (r: usize)
        requires
            old(self).wf(),
        ensures
            final(self).wf(),
            r == old(self).jump_table_count(),
            final(self).jump_table_count() == old(self).jump_table_count() + 1,
            final(self).jump_tables_view() == old(self).jump_tables_view().push(table@),
            final(self).code_view() == old(self).code_view(),
            final(self).lines() == old(self).lines(),
            final(self).pool() == old(self).pool(),
            final(self).subs() == old(self).subs(),
            final(self).name_view() == old(self).name_view(),
            final(self).line_view() == old(self).line_view(),
            final(self).locals_view() == old(self).locals_view(),
            final(self).upvalues_view() == old(self).upvalues_view(),
            final(self).arity_view() == old(self).arity_view(),
            final(self).vararg_view() == old(self).vararg_view(),
    {
        let index = self.jump_tables.len();
        let ghost before = self.jump_tables@;
        self.jump_tables.push(table);
        proof {
            assert(tables_view(self.jump_tables@) =~= tables_view(before).push(table@));
        }
        index
    }

    /// Build the final chunk.
    pub fn build(self) -> (r: BytecodeChunk)
        ensures
            r.code_view() == self.code_view(),
            r.pool() == self.pool(),
            r.lines() == self.lines(),
            r.name_view() == self.name_view(),
            r.locals_view() == self.locals_view(),
            r.upvalues_view() == self.upvalues_view(),
            r.arity_view() == self.arity_view(),
            r.vararg_view() == self.vararg_view(),
            r.jump_table_count() == self.jump_table_count(),
            r.jump_tables_view() == self.jump_tables_view(),
            r@ == self.chunk_model(),
    {
        let r = BytecodeChunk {
            code: self.code,
            constants: self.constants,
            line_info: self.line_info,
            jump_tables: self.jump_tables,
            name: self.name,
            local_count: self.local_count,
            upvalue_count: self.upvalue_count,
            arity: self.arity,
            is_vararg: self.is_vararg,
            chunk_constants: self.chunk_constants,
        };
        assert(r@.subs =~= chunks_view(r.chunk_constants@));
        r
    }

    /// Add a compiled sub-chunk, returning its index.
    pub fn add_chunk_constant(&mut self, chunk: BytecodeChunk) -> (r: u16)
        requires
            old(self).wf(),
            old(self).subs().len() < 65536,
        ensures
            final(self).wf(),
            r == old(self).subs().len(),
            final(self).subs() == old(self).subs().push(chunk@),
            final(self).code_view() == old(self).code_view(),
            final(self).lines() == old(self).lines(),
            final(self).pool() == old(self).pool(),
            final(self).name_view() == old(self).name_view(),
            final(self).line_view() == old(self).line_view(),
            final(self).locals_view() == old(self).locals_view(),
            final(self).upvalues_view() == old(self).upvalues_view(),
            final(self).arity_view() == old(self).arity_view(),
            final(self).vararg_view() == old(self).vararg_view(),
            final(self).jump_table_count() == old(self).jump_table_count(),
    {
        let index = self.chunk_constants.len();
        let ghost before = self.chunk_constants@;
        self.chunk_constants.push(chunk);
        assert(chunks_view(self.chunk_constants@) =~= chunks_view(before).push(chunk@));
        index as u16
    }

    /// Build the final chunk behind a shared pointer.
    pub fn build_arc(self) -> (r: Arc<BytecodeChunk>)
        ensures
            r.code_view() == self.code_view(),
            r.pool() == self.pool(),
            r.lines() == self.lines(),
            r.name_view() == self.name_view(),
            r.locals_view() == self.locals_view(),
            r.upvalues_view() == self.upvalues_view(),
            r.arity_view() == self.arity_view(),
            r.vararg_view() == self.vararg_view(),
            r@ == self.chunk_model(),
    {
        Arc::new(self.build())
    }
}

fn values_equal_ref(a: &MettaValue, b: &MettaValue) -> (r: bool)
    ensures
        r == (a@ == b@),
{
    crate::value::values_equal(a, b)
}


/// Four-digit lowercase hexadecimal text, wider when needed.
pub open spec fn hex4(n: nat) -> Seq<char> {
    padded_digits(n, 16, 4, '0')
}

/// Whether an opcode jumps by a one-byte offset.
pub open spec fn is_short_jump(op: Opcode) -> bool {
    op == Opcode::JumpShort || op == Opcode::JumpIfFalseShort || op == Opcode::JumpIfTrueShort
}

/// Whether an opcode jumps by a two-byte offset.
pub open spec fn is_long_jump(op: Opcode) -> bool {
    op == Opcode::Jump || op == Opcode::JumpIfFalse || op == Opcode::JumpIfTrue || op
        == Opcode::JumpIfNil || op == Opcode::JumpIfError
}

/// Whether an opcode takes a constant-pool index as operand.
pub open spec fn is_constant_load(op: Opcode) -> bool {
    op == Opcode::PushLong || op == Opcode::PushAtom || op == Opcode::PushString || op
        == Opcode::PushUri || op == Opcode::PushConstant || op == Opcode::PushVariable
}

/// Text of the operand of the instruction `op` at `offset`.
pub open spec fn operand_text(code: Seq<u8>, pool: Seq<Val>, offset: nat, op: Opcode) -> Seq<char> {
    let imm = opcode_immediate_size(op);
    if imm == 1 {
        let b: u8 = if offset + 1 < code.len() { code[(offset + 1) as int] } else { 0 };
        if op == Opcode::PushLongSmall {
            " "@ + signed_decimal((b as i8) as int)
        } else if is_short_jump(op) {
            " -> "@ + hex4(((offset + 2 + (b as i8)) as usize) as nat)
        } else {
            " "@ + decimal(b as nat)
        }
    } else if imm == 2 {
        let v: u16 = if offset + 2 < code.len() {
            be_u16(code[(offset + 1) as int], code[(offset + 2) as int])
        } else {
            0
        };
        if is_long_jump(op) {
            " -> "@ + hex4(((offset + 3 + (v as i16)) as usize) as nat)
        } else if is_constant_load(op) {
            " #"@ + decimal(v as nat) + " ("@ + (if (v as nat) < pool.len() {
                debug_repr(pool[v as int])
            } else {
                "???"@
            }) + ")"@
        } else {
            " "@ + decimal(v as nat)
        }
    } else {
        Seq::empty()
    }
}

/// Text of the instruction at `offset` and the offset of the next one.
pub open spec fn instruction_text(code: Seq<u8>, pool: Seq<Val>, offset: nat) -> (Seq<char>, nat) {
    if offset < code.len() && byte_opcode(code[offset as int]) is Some {
        let op = byte_opcode(code[offset as int])->0;
        (opcode_mnemonic(op) + operand_text(code, pool, offset, op), offset + 1 + opcode_immediate_size(op))
    } else {
        let b: u8 = if offset < code.len() { code[offset as int] } else { 0 };
        ("??? (0x"@ + padded_digits(b as nat, 16, 2, '0') + ")"@, offset + 1)
    }
}

/// Each instruction occupies between one and four bytes.
pub proof fn lemma_instruction_advances(code: Seq<u8>, pool: Seq<Val>, offset: nat)
    ensures
        offset < instruction_text(code, pool, offset).1 <= offset + 4,
{
}

/// Line-number column of the listing.
pub open spec fn line_column(lines: Seq<(usize, u32)>, offset: nat) -> Seq<char> {
    match line_at(lines, offset as int) {
        Some(l) => padded_digits(l as nat, 10, 4, ' ') + " "@,
        None => Seq::empty(),
    }
}

/// The listing from `offset` to the end of the code, one instruction per line.
pub open spec fn listing_from(code: Seq<u8>, pool: Seq<Val>, lines: Seq<(usize, u32)>, offset: nat) -> Seq<char>
    decreases code.len() + 4 - offset,
{
    if offset >= code.len() {
        Seq::empty()
    } else {
        let (text, next) = instruction_text(code, pool, offset);
        proof {
            lemma_instruction_advances(code, pool, offset);
        }
        hex4(offset) + " "@ + line_column(lines, offset) + " "@ + text + "\n"@ + listing_from(
            code,
            pool,
            lines,
            next,
        )
    }
}

impl BytecodeChunk {
    /// Header lines of the disassembly.
    pub open spec fn header_text(&self) -> Seq<char> {
        "=== "@ + self.name_view() + " ===\n"@ + "locals: "@ + decimal(self.locals_view() as nat)
            + ", upvalues: "@ + decimal(self.upvalues_view() as nat) + ", arity: "@ + decimal(
            self.arity_view() as nat,
        ) + "\n"@ + "constants: "@ + decimal(self.pool().len()) + "\n"@
    }

    /// Full disassembly text.
    pub open spec fn disassembly(&self) -> Seq<char> {
        self.header_text() + listing_from(self.code_view(), self.pool(), self.lines(), 0)
    }

    fn push_operand(&self, out: &mut String, offset: usize, op: Opcode)
        requires
            offset < self.code_view().len(),
            offset + 4 <= usize::MAX,
        ensures
            final(out)@ == old(out)@ + operand_text(self.code_view(), self.pool(), offset as nat, op),
    {
        let imm = op.immediate_size();
        if imm == 1 {
            let b: u8 = if offset + 1 < self.code.len() { self.code[offset + 1] } else { 0 };
            if matches!(op, Opcode::PushLongSmall) {
                out.append(" ");
                push_signed_decimal(out, (b as i8) as i64);
            } else if matches!(op, Opcode::JumpShort | Opcode::JumpIfFalseShort | Opcode::JumpIfTrueShort) {
                out.append(" -> ");
                let target: usize = ((offset as i128) + 2 + ((b as i8) as i128)) as usize;
                push_padded_digits(out, target as u64, 16, 4, '0');
            } else {
                out.append(" ");
                push_decimal(out, b as u64);
            }
        } else if imm == 2 {
            let v: u16 = if offset + 2 < self.code.len() {
                (self.code[offset + 1] as u16) * 256 + (self.code[offset + 2] as u16)
            } else {
                0
            };
            if matches!(op, Opcode::Jump | Opcode::JumpIfFalse | Opcode::JumpIfTrue | Opcode::JumpIfNil | Opcode::JumpIfError) {
                out.append(" -> ");
                let target: usize = ((offset as i128) + 3 + ((v as i16) as i128)) as usize;
                push_padded_digits(out, target as u64, 16, 4, '0');
            } else if matches!(op, Opcode::PushLong | Opcode::PushAtom | Opcode::PushString | Opcode::PushUri | Opcode::PushConstant | Opcode::PushVariable) {
                out.append(" #");
                push_decimal(out, v as u64);
                out.append(" (");
                if (v as usize) < self.constants.len() {
                    push_debug(out, &self.constants[v as usize]);
                    assert(seq_view(self.constants@)[v as int] == self.constants@[v as int]@);
                } else {
                    out.append("???");
                }
                out.append(")");
            } else {
                out.append(" ");
                push_decimal(out, v as u64);
            }
        }
        assert(out@ =~= old(out)@ + operand_text(self.code_view(), self.pool(), offset as nat, op));
    }

    /// Disassemble one instruction, returning its text and the next offset.
    pub fn disassemble_instruction(&self, offset: usize) -> (r: (String, usize))
        requires
            offset + 4 <= usize::MAX,
        ensures
            r.0@ == instruction_text(self.code_view(), self.pool(), offset as nat).0,
            r.1 == instruction_text(self.code_view(), self.pool(), offset as nat).1,
            offset < r.1 <= offset + 4,
    {
        proof {
            lemma_instruction_advances(self.code_view(), self.pool(), offset as nat);
        }
        let mut out = String::new();
        match self.read_opcode(offset) {
            Some(op) => {
                out.append(op.mnemonic());
                self.push_operand(&mut out, offset, op);
                let next = offset + 1 + op.immediate_size();
                assert(out@ =~= instruction_text(self.code_view(), self.pool(), offset as nat).0);
                (out, next)
            },
            None => {
                let b: u8 = if offset < self.code.len() { self.code[offset] } else { 0 };
                out.append("??? (0x");
                push_padded_digits(&mut out, b as u64, 16, 2, '0');
                out.append(")");
                assert(out@ =~= instruction_text(self.code_view(), self.pool(), offset as nat).0);
                (out, offset + 1)
            },
        }
    }

    /// Disassemble the whole chunk into readable text.
    pub fn disassemble(&self) -> (r: String)
        requires
            self.code_view().len() + 4 <= usize::MAX,
        ensures
            r@ == self.disassembly(),
    {
        let mut out = String::new();
        out.append("=== ");
        out.append(self.name.as_str());
        out.append(" ===\n");
        out.append("locals: ");
        push_decimal(&mut out, self.local_count as u64);
        out.append(", upvalues: ");
        push_decimal(&mut out, self.upvalue_count as u64);
        out.append(", arity: ");
        push_decimal(&mut out, self.arity as u64);
        out.append("\n");
        out.append("constants: ");
        push_decimal(&mut out, self.constants.len() as u64);
        out.append("\n");
        assert(out@ =~= self.header_text());
        let ghost code = self.code_view();
        let ghost pool = self.pool();
        let ghost lines = self.lines();
        let mut offset: usize = 0;
        while offset < self.code.len()
            invariant
                code == self.code_view(),
                pool == self.pool(),
                lines == self.lines(),
                code.len() + 4 <= usize::MAX,
                offset <= code.len() + 3,
                out@ + listing_from(code, pool, lines, offset as nat) == self.disassembly(),
            decreases code.len() + 3 - offset,
        {
            let ghost before = out@;
            push_padded_digits(&mut out, offset as u64, 16, 4, '0');
            out.append(" ");
            match self.get_line(offset) {
                Some(l) => {
                    push_padded_digits(&mut out, l as u64, 10, 4, ' ');
                    out.append(" ");
                },
                None => {},
            }
            out.append(" ");
            let (text, next) = self.disassemble_instruction(offset);
            out.append(text.as_str());
            out.append("\n");
            proof {
                let (t, n) = instruction_text(code, pool, offset as nat);
                assert(out@ =~= before + (hex4(offset as nat) + " "@ + line_column(lines, offset as nat) + " "@ + t + "\n"@));
                assert(listing_from(code, pool, lines, offset as nat) =~= (hex4(offset as nat) + " "@
                    + line_column(lines, offset as nat) + " "@ + t + "\n"@) + listing_from(code, pool, lines, n));
                assert(out@ + listing_from(code, pool, lines, next as nat) =~= before + listing_from(code, pool, lines, offset as nat));
            }
            offset = next;
        }
        assert(listing_from(code, pool, lines, offset as nat) =~= Seq::<char>::empty());
        assert(out@ =~= self.disassembly());
        out
    }
}

/// The variable positions of a compiled pattern: for each variable, the
/// path of item indices that reaches it and its name, held inline.
#[verifier::external_body]
#[derive(Debug)]
pub struct VariablePositions {
    positions: SmallVec<[(SmallVec<[u8; 4]>, Arc<str>); 4]>,
}

/// The (path, name) pairs held.
pub uninterp spec fn variable_positions(v: VariablePositions) -> Seq<(Seq<u8>, Seq<char>)>;

/// `SmallVec::new`: no positions.
#[verifier::external_body]
fn variable_positions_new() -> (r: VariablePositions)
    ensures
        variable_positions(r) == Seq::<(Seq<u8>, Seq<char>)>::empty(),
{
    VariablePositions { positions: SmallVec::new() }
}

/// `SmallVec::len`: the number of positions.
#[verifier::external_body]
fn variable_positions_len(v: &VariablePositions) -> (r: usize)
    ensures
        r == variable_positions(*v).len(),
{
    v.positions.len()
}

/// `SmallVec::clone`: the same positions.
#[verifier::external_body]
fn variable_positions_clone(v: &VariablePositions) -> (r: VariablePositions)
    ensures
        variable_positions(r) == variable_positions(*v),
{
    VariablePositions { positions: v.positions.clone() }
}

impl VariablePositions {
    /// The number of positions.
    pub fn len(&self) -> (r: usize)
        ensures
            r == variable_positions(*self).len(),
    {
        variable_positions_len(self)
    }

    /// Whether there is no position.
    pub fn is_empty(&self) -> (r: bool)
        ensures
            r == (variable_positions(*self).len() == 0),
    {
        variable_positions_len(self) == 0
    }
}

impl Clone for VariablePositions {
    fn clone(&self) -> (r: Self)
        ensures
            variable_positions(r) == variable_positions(*self),
    {
        variable_positions_clone(self)
    }
}

/// A pattern compiled for fast matching.
#[derive(Debug, Clone)]
pub struct CompiledPattern {
    /// Head symbol, if known.
    pub head: Option<String>,
    /// Expected arity, if known.
    pub arity: Option<usize>,
    /// Whether the pattern contains variables.
    pub has_variables: bool,
    /// Where the variables are.
    pub variable_positions: VariablePositions,
    /// Bytecode of the guard.
    pub guard: Option<Arc<BytecodeChunk>>,
    /// Bloom-filter signature for fast rejection.
    pub bloom_signature: u64,
}

impl CompiledPattern {
    /// A pattern that matches anything.
    pub fn any() -> (r: Self)
        ensures
            r.head is None,
            r.arity is None,
            !r.has_variables,
            variable_positions(r.variable_positions) == Seq::<(Seq<u8>, Seq<char>)>::empty(),
            r.guard is None,
            r.bloom_signature == 0,
    {
        CompiledPattern {
            head: None,
            arity: None,
            has_variables: false,
            variable_positions: variable_positions_new(),
            guard: None,
            bloom_signature: 0,
        }
    }

    /// A pattern that matches expressions with the given head symbol.
    pub fn with_head(head: &str) -> (r: Self)
        ensures
            r.head is Some && r.head->Some_0@ == head@,
            r.arity is None,
            !r.has_variables,
            variable_positions(r.variable_positions) == Seq::<(Seq<u8>, Seq<char>)>::empty(),
            r.guard is None,
            r.bloom_signature == 0,
    {
        CompiledPattern {
            head: Some(head.to_string()),
            arity: None,
            has_variables: false,
            variable_positions: variable_positions_new(),
            guard: None,
            bloom_signature: 0,
        }
    }
}

} // verus!
