//! The compiler: state, emission helpers and the expression dispatcher.

use std::sync::Arc;

use vstd::prelude::*;

use crate::chunk::{BytecodeChunk, ChunkBuilder, ChunkModel, JumpLabel};
use crate::compiler::context::CompileContext;
use crate::compiler::error::{CompileError, ErrModel};
use crate::compiler::context::CtxModel;
use crate::compiler::semantics::{CState, add_const, begin_scope, declare_all, emit_const, emit_jump, emit_op, emit_op_u16, emit_op_u8, emit_raw, end_scope, first_index, gen, gen_atom, gen_literal, patch, swap_pops, template_chunk, template_state, with_tail};
use crate::opcode::{Opcode, opcode_byte, opcode_is_jump};
use crate::text::{drop_first_char, starts_with_char};
use vstd::string::StringExecFns;
use crate::value::{MettaValue, Val, lemma_sexpr_view};

verus! {

broadcast use vstd::string::group_string_axioms;

/// Bytecode compiler.
pub struct Compiler {
    builder: ChunkBuilder,
    context: CompileContext,
    current_line: u32,
    in_tail_position: bool,
}

/// Whether a compilation result agrees with its meaning: the same state on
/// success, the same error on failure.
pub open spec fn outcome(r: Result<(), CompileError>, after: CState, expected: Result<CState, ErrModel>) -> bool {
    match expected {
        Ok(s) => r is Ok && after == s,
        Err(x) => r is Err && r->Err_0@ == x,
    }
}

/// An error whose model is the expected error agrees with the meaning.
pub proof fn lemma_err_outcome(x: CompileError, after: CState, expected: Result<CState, ErrModel>)
    requires
        expected is Err,
        x@ == expected->Err_0,
    ensures
        outcome(Err(x), after, expected),
{
}

/// What compiling never changes, and the code that it only extends.
pub open spec fn grows(before: CState, after: CState) -> bool {
    &&& after.code.len() >= before.code.len()
    &&& after.ctx.scope == before.ctx.scope
    &&& after.line == before.line
    &&& after.name == before.name
}

impl Compiler {
    /// The model of the compiler state.
    pub closed spec fn model(&self) -> CState {
        CState {
            code: self.builder.code_view(),
            pool: self.builder.pool(),
            lines: self.builder.lines(),
            line: self.builder.line_view(),
            name: self.builder.name_view(),
            subs: self.builder.subs(),
            ctx: self.context@,
            tail: self.in_tail_position,
        }
    }

    /// The compiler invariant; the chunk metadata stays unset until `finish`.
    pub closed spec fn wf(&self) -> bool {
        &&& self.builder.wf()
        &&& self.context@.wf()
        &&& self.current_line == self.builder.line_view()
        &&& self.builder.locals_view() == 0
        &&& self.builder.upvalues_view() == 0
        &&& self.builder.arity_view() == 0
        &&& !self.builder.vararg_view()
        &&& self.builder.jump_table_count() == 0
    }

    pub(crate) fn emit_op(&mut self, op: Opcode)
        requires
            old(self).wf(),
        ensures
            final(self).wf(),
            final(self).model() == emit_op(old(self).model(), op),
    {
        self.builder.emit(op);
    }

    pub(crate) fn emit_op_u8(&mut self, op: Opcode, b: u8)
        requires
            old(self).wf(),
        ensures
            final(self).wf(),
            final(self).model() == emit_op_u8(old(self).model(), op, b),
    {
        self.builder.emit_byte(op, b);
    }

    pub(crate) fn emit_op_u16(&mut self, op: Opcode, v: u16)
        requires
            old(self).wf(),
        ensures
            final(self).wf(),
            final(self).model() == emit_op_u16(old(self).model(), op, v),
    {
        self.builder.emit_u16(op, v);
    }

    pub(crate) fn emit_raw(&mut self, bytes: &[u8])
        requires
            old(self).wf(),
        ensures
            final(self).wf(),
            final(self).model() == emit_raw(old(self).model(), bytes@),
    {
        self.builder.emit_raw(bytes);
    }

    /// The current tail-position flag.
    pub(crate) fn tail_flag(&self) -> (r: bool)
        ensures
            r == self.model().tail,
    {
        self.in_tail_position
    }

    /// Declare a local variable in the next free slot.
    pub(crate) fn declare(&mut self, name: String) -> (r: Result<u16, CompileError>)
        requires
            old(self).wf(),
        ensures
            final(self).wf(),
            old(self).model().ctx.next >= u16::MAX ==> r is Err && r->Err_0@ == ErrModel::TooManyLocals,
            old(self).model().ctx.next < u16::MAX ==> r == Ok::<u16, CompileError>(old(self).model().ctx.next)
                && final(self).model() == (CState { ctx: old(self).model().ctx.declare(name@), ..old(self).model() }),
    {
        self.context.declare_local(name)
    }

    pub(crate) fn set_tail(&mut self, t: bool)
        ensures
            final(self).model() == with_tail(old(self).model(), t),
            final(self).wf() == old(self).wf(),
    {
        self.in_tail_position = t;
    }

    /// Intern a constant.
    pub(crate) fn add_const(&mut self, v: MettaValue) -> (r: Result<u16, CompileError>)
        requires
            old(self).wf(),
        ensures
            final(self).wf(),
            match add_const(old(self).model(), v@) {
                Ok((s, i)) => r == Ok::<u16, CompileError>(i) && final(self).model() == s,
                Err(x) => r is Err && r->Err_0@ == x,
            },
    {
        let ghost s0 = self.model();
        if self.builder.pool_len() >= 65536 && !self.builder.pool_contains(&v) {
            proof {
                lemma_first_index_absent(s0.pool, v@);
            }
            return Err(CompileError::TooManyConstants);
        }
        let ghost vv = v@;
        let i = self.builder.add_constant(v);
        proof {
            lemma_first_index_at(self.builder.pool(), vv, i as int);
            if s0.pool.contains(vv) {
                assert(first_index(s0.pool, vv) == i);
            } else {
                lemma_first_index_absent(s0.pool, vv);
            }
        }
        Ok(i)
    }

    /// Load a constant with `op`.
    pub(crate) fn emit_const(&mut self, op: Opcode, v: MettaValue) -> (r: Result<(), CompileError>)
        requires
            old(self).wf(),
        ensures
            final(self).wf(),
            outcome(r, final(self).model(), emit_const(old(self).model(), op, v@)),
            r is Ok ==> grows(old(self).model(), final(self).model()),
    {
        let i = self.add_const(v)?;
        self.emit_op_u16(op, i);
        Ok(())
    }

    pub(crate) fn emit_jump(&mut self, op: Opcode) -> (r: JumpLabel)
        requires
            old(self).wf(),
            opcode_is_jump(op),
        ensures
            final(self).wf(),
            (final(self).model(), r.at()) == emit_jump(old(self).model(), op),
    {
        self.builder.emit_jump(op)
    }

    pub(crate) fn patch_jump(&mut self, label: JumpLabel)
        requires
            old(self).wf(),
            label.at() + 1 < old(self).model().code.len(),
        ensures
            final(self).wf(),
            final(self).model() == patch(old(self).model(), label.at()),
    {
        self.builder.patch_jump(label);
    }

    /// Begin a lexical scope.
    pub(crate) fn begin_scope(&mut self) -> (r: Result<(), CompileError>)
        requires
            old(self).wf(),
        ensures
            final(self).wf(),
            outcome(r, final(self).model(), begin_scope(old(self).model())),
            r is Ok ==> final(self).model().ctx.scope == old(self).model().ctx.scope + 1
                && final(self).model().code == old(self).model().code
                && final(self).model().line == old(self).model().line
                && final(self).model().name == old(self).model().name,
    {
        if self.context.scope_depth() == u16::MAX {
            return Err(CompileError::NestingTooDeep);
        }
        self.context.begin_scope();
        Ok(())
    }

    /// End a lexical scope, dropping its locals from below the result.
    pub(crate) fn end_scope(&mut self)
        requires
            old(self).wf(),
            old(self).model().ctx.scope > 0,
        ensures
            final(self).wf(),
            final(self).model() == end_scope(old(self).model()),
            final(self).model().code.len() >= old(self).model().code.len(),
            final(self).model().ctx.scope == old(self).model().ctx.scope - 1,
            final(self).model().line == old(self).model().line,
            final(self).model().name == old(self).model().name,
    {
        let ghost s0 = self.model();
        let count = self.context.end_scope();
        let ghost s1 = self.model();
        let mut i: u16 = 0;
        while i < count
            invariant
                self.wf(),
                0 <= i <= count,
                self.model() == swap_pops(s1, i as nat),
                self.model().code.len() >= s1.code.len(),
                self.model().ctx == s1.ctx,
                self.model().line == s1.line,
                self.model().name == s1.name,
                s1.code == s0.code,
                s1.line == s0.line,
                s1.name == s0.name,
                s1.ctx.scope == s0.ctx.scope - 1,
            decreases count - i,
        {
            self.emit_op(Opcode::Swap);
            self.emit_op(Opcode::Pop);
            i = i + 1;
        }
    }

    /// A literal or constant value.
    pub(crate) fn compile_literal(&mut self, v: &MettaValue) -> (r: Result<(), CompileError>)
        requires
            old(self).wf(),
        ensures
            final(self).wf(),
            outcome(r, final(self).model(), gen_literal(old(self).model(), v@)),
            r is Ok ==> grows(old(self).model(), final(self).model()),
    {
        match v {
            MettaValue::Unit => {
                self.emit_op(Opcode::PushUnit);
                Ok(())
            },
            MettaValue::Bool(b) => {
                if *b {
                    self.emit_op(Opcode::PushTrue);
                } else {
                    self.emit_op(Opcode::PushFalse);
                }
                Ok(())
            },
            MettaValue::Long(n) => {
                if -128 <= *n && *n <= 127 {
                    self.emit_op_u8(Opcode::PushLongSmall, *n as u8);
                    Ok(())
                } else {
                    self.emit_const(Opcode::PushLong, MettaValue::Long(*n))
                }
            },
            MettaValue::String(_) => self.emit_const(Opcode::PushString, v.deep_clone()),
            MettaValue::SExpr(items) => {
                proof {
                    crate::value::lemma_sexpr_view(v, items);
                }
                if items.len() == 0 {
                    self.emit_op(Opcode::PushUnit);
                    Ok(())
                } else {
                    self.emit_const(Opcode::PushConstant, v.deep_clone())
                }
            },
            _ => self.emit_const(Opcode::PushConstant, v.deep_clone()),
        }
    }

    /// A symbol or a variable reference.
    pub(crate) fn compile_atom(&mut self, name: &str) -> (r: Result<(), CompileError>)
        requires
            old(self).wf(),
        ensures
            final(self).wf(),
            outcome(r, final(self).model(), gen_atom(old(self).model(), name@)),
            r is Ok ==> grows(old(self).model(), final(self).model()),
    {
        if starts_with_char(name, '$') {
            let var = drop_first_char(name);
            match self.context.resolve_local(var.as_str()) {
                Some(slot) => {
                    if slot <= 255 {
                        self.emit_op_u8(Opcode::LoadLocal, slot as u8);
                    } else {
                        self.emit_op_u16(Opcode::LoadLocalWide, slot);
                    }
                    Ok(())
                },
                None => {
                    let up = self.context.resolve_upvalue(var.as_str());
                    match up {
                        Some(i) => {
                            self.emit_op_u16(Opcode::LoadUpvalue, i);
                            Ok(())
                        },
                        None => self.emit_const(Opcode::PushVariable, MettaValue::Atom(name.to_string())),
                    }
                },
            }
        } else {
            self.emit_const(Opcode::PushAtom, MettaValue::Atom(name.to_string()))
        }
    }
}

/// The state of a compiler for a fresh chunk named `name` over context `ctx`.
pub open spec fn initial_state(name: Seq<char>, ctx: CtxModel) -> CState {
    CState {
        code: Seq::empty(),
        pool: Seq::empty(),
        lines: Seq::empty(),
        line: 1,
        name,
        subs: Seq::empty(),
        ctx,
        tail: true,
    }
}

/// The chunk that finishing a compiler in state `s` gives: the code with a
/// final Return, and the counts of locals and captured variables.
pub open spec fn finished(s: CState) -> ChunkModel {
    let t = emit_op(s, Opcode::Return);
    ChunkModel {
        code: t.code,
        pool: t.pool,
        lines: t.lines,
        name: t.name,
        locals: s.ctx.next,
        upvalues: s.ctx.upvalues.len() as u16,
        arity: 0,
        vararg: false,
        tables: 0,
        subs: t.subs,
    }
}

/// Every finished chunk ends with `Return`, after the code compiled so far.
pub proof fn lemma_finished_ends_with_return(s: CState)
    ensures
        finished(s).code.len() == s.code.len() + 1,
        finished(s).code.last() == opcode_byte(Opcode::Return),
        finished(s).code.take(s.code.len() as int) == s.code,
{
    assert(finished(s).code.take(s.code.len() as int) =~= s.code);
}

impl Compiler {
    /// Create a compiler for a fresh chunk named `name`.
    pub fn new(name: &str) -> (r: Compiler)
        ensures
            r.wf(),
            r.model() == initial_state(name@, CtxModel::fresh(None)),
    {
        Compiler::start(name.to_string())
    }

    /// Create a compiler over an existing context, for nested functions.
    pub fn with_context(name: &str, context: CompileContext) -> (r: Compiler)
        requires
            context@.wf(),
        ensures
            r.wf(),
            r.model() == initial_state(name@, context@),
    {
        Compiler {
            builder: ChunkBuilder::new(name),
            context,
            current_line: 1,
            in_tail_position: true,
        }
    }

    /// Set the source line recorded for subsequent instructions.
    pub fn set_line(&mut self, line: u32)
        requires
            old(self).wf(),
        ensures
            final(self).wf(),
            final(self).model() == (CState { line, ..old(self).model() }),
    {
        self.current_line = line;
        self.builder.set_line(line);
    }

    /// Compile an expression, appending its code to the chunk.
    pub fn compile(&mut self, expr: &MettaValue) -> (r: Result<(), CompileError>)
        requires
            old(self).wf(),
        ensures
            final(self).wf(),
            outcome(r, final(self).model(), gen(old(self).model(), expr@, old(self).model().tail)),
    {
        self.compile_iterative(expr)
    }

    /// Finish compilation: append Return and record the local and upvalue
    /// counts.
    pub fn finish(self) -> (r: BytecodeChunk)
        requires
            self.wf(),
        ensures
            r@ == finished(self.model()),
    {
        let ghost s = self.model();
        let mut me = self;
        me.emit_op(Opcode::Return);
        let locals = me.context.local_count();
        let upvalues = me.context.upvalue_count();
        let Compiler { builder: mut b, .. } = me;
        b.set_local_count(locals);
        b.set_upvalue_count(upvalues);
        b.build()
    }

    /// Finish compilation behind a shared pointer.
    pub fn finish_arc(self) -> (r: Arc<BytecodeChunk>)
        requires
            self.wf(),
        ensures
            r@ == finished(self.model()),
    {
        Arc::new(self.finish())
    }
}

/// Compile an expression to a chunk named `name`.
pub fn compile(name: &str, expr: &MettaValue) -> (r: Result<BytecodeChunk, CompileError>)
    ensures
        match gen(initial_state(name@, CtxModel::fresh(None)), expr@, true) {
            Ok(s) => r is Ok && r->Ok_0@ == finished(s),
            Err(x) => r is Err && r->Err_0@ == x,
        },
{
    let mut c = Compiler::new(name);
    c.compile(expr)?;
    Ok(c.finish())
}

/// Compile an expression to a chunk behind a shared pointer.
pub fn compile_arc(name: &str, expr: &MettaValue) -> (r: Result<Arc<BytecodeChunk>, CompileError>)
    ensures
        match gen(initial_state(name@, CtxModel::fresh(None)), expr@, true) {
            Ok(s) => r is Ok && r->Ok_0@ == finished(s),
            Err(x) => r is Err && r->Err_0@ == x,
        },
{
    let chunk = compile(name, expr)?;
    Ok(Arc::new(chunk))
}

/// The texts of a list of names.
pub open spec fn names_view(v: Seq<String>) -> Seq<Seq<char>> {
    Seq::new(v.len(), |i: int| v[i]@)
}

impl Compiler {
    /// A compiler for a fresh chunk named `name`, in tail position.
    pub(crate) fn start(name: String) -> (r: Compiler)
        ensures
            r.wf(),
            r.model() == (CState {
                code: Seq::empty(),
                pool: Seq::empty(),
                lines: Seq::empty(),
                line: 1,
                name: name@,
                subs: Seq::empty(),
                ctx: CtxModel::fresh(None),
                tail: true,
            }),
    {
        Compiler {
            builder: ChunkBuilder::new(name.as_str()),
            context: CompileContext::new(),
            current_line: 1,
            in_tail_position: true,
        }
    }

    /// A compiler for the template of a chunk named like this one, whose
    /// locals are `params`, in order.
    pub(crate) fn template_compiler(&self, params: &Vec<String>) -> (r: Compiler)
        requires
            self.wf(),
            params@.len() <= 2,
        ensures
            r.wf(),
            r.model() == template_state(self.model().name, names_view(params@)),
    {
        let mut name = self.builder.name().to_string();
        name.append("_template");
        let mut sub = Compiler::start(name);
        let ghost pv = names_view(params@);
        let mut i: usize = 0;
        while i < params.len()
            invariant
                sub.wf(),
                0 <= i <= params@.len() <= 2,
                pv == names_view(params@),
                sub.model() == (CState { ctx: declare_all(CtxModel::fresh(None), pv, i as nat), ..template_state(self.model().name, pv) }),
                sub.model().ctx.next == i,
            decreases params@.len() - i,
        {
            let p = params[i].clone();
            let declared = sub.declare(p);
            assert(declared is Ok);
            i = i + 1;
        }
        proof {
            assert(sub.model() == template_state(self.model().name, pv));
        }
        sub
    }

    /// Attach the chunk of a compiled template as a sub-chunk, and load it
    /// with `op`.
    pub(crate) fn attach_template(&mut self, sub: Compiler, op: Opcode) -> (r: Result<(), CompileError>)
        requires
            old(self).wf(),
            sub.wf(),
        ensures
            final(self).wf(),
            old(self).model().subs.len() < 65536 ==> r is Ok && final(self).model() == emit_op_u16(
                CState { subs: old(self).model().subs.push(template_chunk(sub.model())), ..old(self).model() },
                op,
                old(self).model().subs.len() as u16,
            ),
            old(self).model().subs.len() >= 65536 ==> r is Err && r->Err_0@ == ErrModel::TooManyConstants,
    {
        let ghost t = sub.model();
        let mut sub = sub;
        sub.emit_op(Opcode::Return);
        let locals = sub.context.local_count();
        let Compiler { builder: mut sub_builder, .. } = sub;
        sub_builder.set_local_count(locals);
        let chunk = sub_builder.build();
        proof {
            assert(chunk@ == template_chunk(t));
        }
        if self.builder.sub_count() >= 65536 {
            return Err(CompileError::TooManyConstants);
        }
        let idx = self.builder.add_chunk_constant(chunk);
        self.emit_op_u16(op, idx);
        Ok(())
    }
}

/// A position found for a value holds that value, and no earlier one does.
pub proof fn lemma_first_index_at(pool: Seq<Val>, v: Val, i: int)
    requires
        0 <= i < pool.len(),
        pool[i] == v,
        forall|j: int| 0 <= j < i ==> pool[j] != v,
    ensures
        first_index(pool, v) == i,
    decreases pool.len(),
{
    if i < pool.len() - 1 {
        lemma_first_index_at(pool.drop_last(), v, i);
    } else {
        lemma_first_index_absent(pool.drop_last(), v);
    }
}

/// A value that the pool does not hold has no position.
pub proof fn lemma_first_index_absent(pool: Seq<Val>, v: Val)
    ensures
        !pool.contains(v) ==> first_index(pool, v) < 0,
        first_index(pool, v) < pool.len(),
        first_index(pool, v) >= 0 ==> pool[first_index(pool, v)] == v,
        (forall|j: int| 0 <= j < pool.len() ==> pool[j] != v) ==> first_index(pool, v) < 0,
    decreases pool.len(),
{
    if pool.len() > 0 {
        lemma_first_index_absent(pool.drop_last(), v);
        if !pool.contains(v) {
            assert(!pool.drop_last().contains(v)) by {
                if pool.drop_last().contains(v) {
                    let j = choose|j: int| 0 <= j < pool.drop_last().len() && pool.drop_last()[j] == v;
                    assert(pool[j] == v);
                }
            }
            assert(pool[pool.len() - 1] != v);
        }
        if forall|j: int| 0 <= j < pool.len() ==> pool[j] != v {
            assert forall|j: int| 0 <= j < pool.drop_last().len() implies pool.drop_last()[j] != v by {
                assert(pool[j] != v);
            }
            assert(pool[pool.len() - 1] != v);
        }
    }
}

} // verus!
