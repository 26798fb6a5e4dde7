//! The trampoline compiler: pending work lives on an explicit stack in
//! place of the call stack, so deeply nested expressions compile without
//! deep recursion.
//!
//! Each work item denotes a transformation of the compiler state (its
//! meaning); the meaning of a stack is the composition of its items, top
//! first. Processing an item emits code and pushes further items so that
//! the stack's meaning is kept, and a weight that counts the work still to
//! do goes down, so the loop ends with the state that the recursive
//! definition of compilation gives.

use vstd::prelude::*;

use crate::chunk::JumpLabel;
use crate::compiler::codegen::{Compiler, names_view, outcome};
use crate::compiler::error::{CompileError, ErrModel};
use crate::compiler::semantics::{
    CState, add_const, bind, bind_items, emit_jump, emit_op, emit_op_u16, emit_op_u8, emit_raw, end_scope, gen,
    case_arm_end, case_rest, gen_bindings, gen_quoted, gen_quoted_range, gen_range, gen_template, make_sexpr, patch, patch_all, with_tail,
};
use crate::opcode::Opcode;
use crate::value::{MettaValue, Val, lemma_sexpr_view, seq_view};

verus! {

/// A pending piece of compilation work.
pub enum CompileWork<'a> {
    /// Compile an expression.
    CompileExpr { expr: &'a MettaValue, in_tail_position: bool },
    /// Compile an expression as quoted data.
    CompileQuoted { expr: &'a MettaValue, keep_tail: bool },
    /// Bind the value on top of the stack to a pattern.
    CompilePatternBinding { pattern: &'a MettaValue },
    /// Bind one element of a destructured list; the last one also drops
    /// the list.
    BindElement { pattern: &'a MettaValue, index: usize, last: bool },
    /// After the condition of an `if`: the jumps and both branches.
    IfBranches { then_branch: &'a MettaValue, else_branch: &'a MettaValue, parent_tail_position: bool },
    /// After the then-branch of an `if`: the else-branch and the patches.
    IfElse {
        else_branch: &'a MettaValue,
        parent_tail_position: bool,
        else_jump: JumpLabel,
        error_jump: JumpLabel,
    },
    /// After the operands of `unify`: the test and both branches.
    UnifyBranches { success: &'a MettaValue, failure: &'a MettaValue, parent_tail_position: bool },
    /// After the success branch of `unify`: the failure branch.
    UnifyFailure { failure: &'a MettaValue, parent_tail_position: bool, failure_jump: JumpLabel },
    /// The branches of a `case` from `index` on, with the jumps out of the
    /// branches before.
    CaseNext { branches: &'a Vec<MettaValue>, index: usize, end_jumps: Vec<JumpLabel>, parent_tail_position: bool },
    /// After the pattern of the `index`-th branch of a `case`: the test and
    /// the result.
    CaseBranch {
        result: &'a MettaValue,
        branches: &'a Vec<MettaValue>,
        index: usize,
        end_jumps: Vec<JumpLabel>,
        parent_tail_position: bool,
    },
    /// After the result of the `index`-th branch of a `case`: the jump out
    /// of the `case` and the target of the failed test.
    CaseArmEnd {
        next_jump: JumpLabel,
        branches: &'a Vec<MettaValue>,
        index: usize,
        end_jumps: Vec<JumpLabel>,
        parent_tail_position: bool,
    },
    /// After the expression of `is-error`: the test.
    IsErrorResult,
    /// After the expression of `catch`: the recovery with the default.
    CatchDefault { default: &'a MettaValue },
    /// After the arguments of a call: the call itself.
    FinishCall { head: String, arity: u8, saved_tail_position: bool },
    /// A template compiled to a sub-chunk, loaded with `opcode`.
    CompileTemplate { template: &'a MettaValue, params: Vec<String>, opcode: Opcode },
    /// The end of a lexical scope.
    EndScope,
    /// A bare opcode.
    EmitOpcode { opcode: Opcode },
    /// An opcode with a one-byte operand.
    EmitOpcodeU8 { opcode: Opcode, operand: u8 },
    /// The instruction that builds an S-expression of `count` elements.
    MakeSExpr { count: usize },
    /// Point a forward jump at the current end of the code.
    PatchJump { jump_label: JumpLabel },
}

/// The rest of an `if` after its then-branch.
pub open spec fn if_else(s: CState, else_branch: Val, parent: bool, else_jump: nat, error_jump: nat) -> Result<CState, ErrModel> {
    let (s5, end_jump) = emit_jump(s, Opcode::Jump);
    match gen(patch(s5, else_jump), else_branch, parent) {
        Ok(s7) => Ok(patch(patch(s7, end_jump), error_jump)),
        Err(x) => Err(x),
    }
}

/// The rest of a `unify` after its success branch.
pub open spec fn unify_failure(s: CState, failure: Val, parent: bool, failure_jump: nat) -> Result<CState, ErrModel> {
    let (s4, done_jump) = emit_jump(s, Opcode::Jump);
    match gen(patch(s4, failure_jump), failure, parent) {
        Ok(s5) => Ok(patch(s5, done_jump)),
        Err(x) => Err(x),
    }
}

/// The call instruction after the arguments of a call of `head`.
pub open spec fn finish_call(s: CState, head: Seq<char>, arity: u8, saved: bool) -> Result<CState, ErrModel> {
    match add_const(with_tail(s, saved), Val::Atom(head)) {
        Ok((s2, idx)) => Ok(
            emit_raw(emit_op_u16(s2, if saved { Opcode::TailCall } else { Opcode::Call }, idx), seq![arity]),
        ),
        Err(x) => Err(x),
    }
}

/// What a work item does to the compiler state.
#[verifier::opaque]
pub open spec fn work_meaning(w: CompileWork, s: CState) -> Result<CState, ErrModel> {
    match w {
        CompileWork::CompileExpr { expr, in_tail_position } => gen(s, expr@, in_tail_position),
        CompileWork::CompileQuoted { expr, keep_tail } => gen_quoted(s, expr@, keep_tail),
        CompileWork::CompilePatternBinding { pattern } => bind(s, pattern@),
        CompileWork::BindElement { pattern, index, last } => match bind(
            emit_op_u8(emit_op(s, Opcode::Dup), Opcode::GetElement, index as u8),
            pattern@,
        ) {
            Ok(s1) => Ok(if last { emit_op(s1, Opcode::Pop) } else { s1 }),
            Err(x) => Err(x),
        },
        CompileWork::IfBranches { then_branch, else_branch, parent_tail_position } => {
            let (s2, error_jump) = emit_jump(s, Opcode::JumpIfError);
            let (s3, else_jump) = emit_jump(s2, Opcode::JumpIfFalse);
            match gen(s3, then_branch@, parent_tail_position) {
                Ok(s4) => if_else(s4, else_branch@, parent_tail_position, else_jump, error_jump),
                Err(x) => Err(x),
            }
        },
        CompileWork::IfElse { else_branch, parent_tail_position, else_jump, error_jump } => if_else(
            s,
            else_branch@,
            parent_tail_position,
            else_jump.at(),
            error_jump.at(),
        ),
        CompileWork::UnifyBranches { success, failure, parent_tail_position } => {
            let (s2, failure_jump) = emit_jump(emit_op(s, Opcode::UnifyBind), Opcode::JumpIfFalse);
            match gen(s2, success@, parent_tail_position) {
                Ok(s3) => unify_failure(s3, failure@, parent_tail_position, failure_jump),
                Err(x) => Err(x),
            }
        },
        CompileWork::UnifyFailure { failure, parent_tail_position, failure_jump } => unify_failure(
            s,
            failure@,
            parent_tail_position,
            failure_jump.at(),
        ),
        CompileWork::CaseNext { branches, index, end_jumps, parent_tail_position } => case_rest(
            s,
            seq_view(branches@),
            index as nat,
            labels_at(end_jumps@),
            parent_tail_position,
        ),
        CompileWork::CaseBranch { result, branches, index, end_jumps, parent_tail_position } => {
            let (s3, next) = emit_jump(emit_op(s, Opcode::MatchBind), Opcode::JumpIfFalse);
            match gen(emit_op(s3, Opcode::Pop), result@, parent_tail_position) {
                Ok(s4) => case_arm_end(
                    s4,
                    next,
                    seq_view(branches@),
                    index as nat,
                    labels_at(end_jumps@),
                    parent_tail_position,
                ),
                Err(x) => Err(x),
            }
        },
        CompileWork::CaseArmEnd { next_jump, branches, index, end_jumps, parent_tail_position } => case_arm_end(
            s,
            next_jump.at(),
            seq_view(branches@),
            index as nat,
            labels_at(end_jumps@),
            parent_tail_position,
        ),
        CompileWork::IsErrorResult => {
            let (s2, not_error) = emit_jump(s, Opcode::JumpIfError);
            let (s3, done) = emit_jump(emit_op(s2, Opcode::PushFalse), Opcode::Jump);
            Ok(patch(emit_op(patch(s3, not_error), Opcode::PushTrue), done))
        },
        CompileWork::CatchDefault { default } => {
            let (s2, no_error) = emit_jump(s, Opcode::JumpIfError);
            let (s3, done) = emit_jump(s2, Opcode::Jump);
            let s4 = emit_op(patch(s3, no_error), Opcode::Pop);
            match gen(s4, default@, s4.tail) {
                Ok(s5) => Ok(patch(s5, done)),
                Err(x) => Err(x),
            }
        },
        CompileWork::FinishCall { head, arity, saved_tail_position } => finish_call(
            s,
            head@,
            arity,
            saved_tail_position,
        ),
        CompileWork::CompileTemplate { template, params, opcode } => gen_template(
            s,
            template@,
            names_view(params@),
            opcode,
        ),
        CompileWork::EndScope => Ok(end_scope(s)),
        CompileWork::EmitOpcode { opcode } => Ok(emit_op(s, opcode)),
        CompileWork::EmitOpcodeU8 { opcode, operand } => Ok(emit_op_u8(s, opcode, operand)),
        CompileWork::MakeSExpr { count } => Ok(make_sexpr(s, count as nat)),
        CompileWork::PatchJump { jump_label } => Ok(patch(s, jump_label.at())),
    }
}

/// What a stack of work does to the compiler state: its items in turn,
/// the top one first, up to the first error.
pub open spec fn run_work(stack: Seq<CompileWork>, s: CState) -> Result<CState, ErrModel>
    decreases stack.len(),
{
    if stack.len() == 0 {
        Ok(s)
    } else {
        match work_meaning(stack.last(), s) {
            Ok(s1) => run_work(stack.drop_last(), s1),
            Err(x) => Err(x),
        }
    }
}

/// A result followed by the work on a stack.
pub open spec fn then_run(r: Result<CState, ErrModel>, stack: Seq<CompileWork>) -> Result<CState, ErrModel> {
    match r {
        Ok(s) => run_work(stack, s),
        Err(x) => Err(x),
    }
}

/// The size of a value: one for each node of its S-expression and
/// conjunction structure.
pub open spec fn vsize(v: Val) -> nat
    decreases v, 1nat,
{
    match v {
        Val::SExpr(xs) => 1 + vsizes(xs, xs.len()),
        Val::Conjunction(xs) => 1 + vsizes(xs, xs.len()),
        _ => 1,
    }
}

/// The total size of the first `k` values.
pub open spec fn vsizes(xs: Seq<Val>, k: nat) -> nat
    decreases xs, k,
{
    if k == 0 || k > xs.len() {
        0
    } else {
        vsizes(xs, (k - 1) as nat) + vsize(xs[k - 1])
    }
}

/// The work that an item stands for, in units that each processing step
/// reduces.
pub open spec fn work_weight(w: CompileWork) -> nat {
    match w {
        CompileWork::CompileExpr { expr, .. } => 16 * vsize(expr@),
        CompileWork::CompileQuoted { expr, .. } => 16 * vsize(expr@),
        CompileWork::CompilePatternBinding { pattern } => (16 * vsize(pattern@) - 8) as nat,
        CompileWork::BindElement { pattern, .. } => (16 * vsize(pattern@) - 6) as nat,
        CompileWork::IfBranches { then_branch, else_branch, .. } => 16 * (vsize(then_branch@) + vsize(else_branch@))
            + 4,
        CompileWork::IfElse { else_branch, .. } => 16 * vsize(else_branch@) + 3,
        CompileWork::UnifyBranches { success, failure, .. } => 16 * (vsize(success@) + vsize(failure@)) + 4,
        CompileWork::UnifyFailure { failure, .. } => 16 * vsize(failure@) + 2,
        CompileWork::CaseNext { branches, index, .. } => case_weight(seq_view(branches@), index as nat),
        CompileWork::CaseBranch { result, branches, index, .. } => 16 * vsize(result@) + 3 + case_weight(
            seq_view(branches@),
            (index + 1) as nat,
        ),
        CompileWork::CaseArmEnd { branches, index, .. } => 2 + case_weight(seq_view(branches@), (index + 1) as nat),
        CompileWork::CatchDefault { default } => 16 * vsize(default@) + 2,
        _ => 1,
    }
}

/// The total weight of a stack.
pub open spec fn stack_weight(stack: Seq<CompileWork>) -> nat
    decreases stack.len(),
{
    if stack.len() == 0 {
        0
    } else {
        stack_weight(stack.drop_last()) + work_weight(stack.last())
    }
}

/// The number of scopes that a stack still has to end.
pub open spec fn scope_need(stack: Seq<CompileWork>) -> nat
    decreases stack.len(),
{
    if stack.len() == 0 {
        0
    } else {
        scope_need(stack.drop_last()) + if stack.last() is EndScope { 1nat } else { 0nat }
    }
}

/// The weight of the branches of a `case` from the `i`-th on.
pub open spec fn case_weight(cs: Seq<Val>, i: nat) -> nat {
    16 * ((vsizes(cs, cs.len()) - vsizes(cs, i)) as nat) + 1
}

/// The places of the operands of a list of jumps.
pub open spec fn labels_at(ls: Seq<JumpLabel>) -> Seq<nat> {
    ls.map_values(|l: JumpLabel| l.at())
}

/// The branches of a `case` are within the bound, and its pending jumps
/// within a code of length `len`.
pub open spec fn case_ok(cs: Seq<Val>, ends: Seq<nat>, len: nat, bound: nat) -> bool {
    &&& forall|j: int| 0 <= j < cs.len() ==> vsize(#[trigger] cs[j]) <= bound
    &&& forall|k: int| 0 <= k < ends.len() ==> #[trigger] ends[k] + 1 < len
}

/// A work item fits a code of length `len` and a bound on the size of the
/// expressions: its jumps lie within the code, and the templates it holds
/// are smaller than the bound.
pub open spec fn work_ok(w: CompileWork, len: nat, bound: nat) -> bool {
    match w {
        CompileWork::CompileExpr { expr, .. } => vsize(expr@) <= bound,
        CompileWork::CompileQuoted { expr, .. } => vsize(expr@) <= bound,
        CompileWork::IfBranches { then_branch, else_branch, .. } => vsize(then_branch@) <= bound && vsize(
            else_branch@,
        ) <= bound,
        CompileWork::IfElse { else_branch, else_jump, error_jump, .. } => vsize(else_branch@) <= bound
            && else_jump.at() + 1 < len && error_jump.at() + 1 < len,
        CompileWork::UnifyBranches { success, failure, .. } => vsize(success@) <= bound && vsize(failure@) <= bound,
        CompileWork::UnifyFailure { failure, failure_jump, .. } => vsize(failure@) <= bound && failure_jump.at() + 1
            < len,
        CompileWork::CaseNext { branches, index, end_jumps, .. } => index <= branches@.len() && case_ok(
            seq_view(branches@),
            labels_at(end_jumps@),
            len,
            bound,
        ),
        CompileWork::CaseBranch { result, branches, index, end_jumps, .. } => vsize(result@) <= bound && index
            < branches@.len() && case_ok(seq_view(branches@), labels_at(end_jumps@), len, bound),
        CompileWork::CaseArmEnd { next_jump, branches, index, end_jumps, .. } => next_jump.at() + 1 < len && index
            < branches@.len() && case_ok(seq_view(branches@), labels_at(end_jumps@), len, bound),
        CompileWork::CatchDefault { default } => vsize(default@) <= bound,
        CompileWork::CompileTemplate { template, params, .. } => vsize(template@) < bound && params@.len() <= 2,
        CompileWork::PatchJump { jump_label } => jump_label.at() + 1 < len,
        _ => true,
    }
}

/// A stack that the loop can run in state `s`.
pub open spec fn stack_ok(stack: Seq<CompileWork>, s: CState, bound: nat) -> bool {
    &&& forall|i: int| 0 <= i < stack.len() ==> work_ok(#[trigger] stack[i], s.code.len(), bound)
    &&& scope_need(stack) <= s.ctx.scope
}

/// Every value has a positive size.
pub(crate) proof fn lemma_vsize_pos(v: Val)
    ensures
        vsize(v) >= 1,
{
}

/// Pushing an item puts its meaning first.
pub(crate) proof fn lemma_push(stack: Seq<CompileWork>, w: CompileWork, s: CState)
    ensures
        run_work(stack.push(w), s) == then_run(work_meaning(w, s), stack),
        stack_weight(stack.push(w)) == stack_weight(stack) + work_weight(w),
        scope_need(stack.push(w)) == scope_need(stack) + if w is EndScope { 1nat } else { 0nat },
{
    assert(stack.push(w).drop_last() =~= stack);
}

/// A stack that fits a shorter code fits a longer one.
pub(crate) proof fn lemma_stack_ok_grow(stack: Seq<CompileWork>, s: CState, t: CState, bound: nat)
    requires
        stack_ok(stack, s, bound),
        t.code.len() >= s.code.len(),
        t.ctx.scope >= s.ctx.scope,
    ensures
        stack_ok(stack, t, bound),
{
    assert forall|i: int| 0 <= i < stack.len() implies work_ok(#[trigger] stack[i], t.code.len(), bound) by {
        assert(work_ok(stack[i], s.code.len(), bound));
    }
}

/// A fitting item on top of a fitting stack.
pub(crate) proof fn lemma_stack_ok_push(stack: Seq<CompileWork>, w: CompileWork, s: CState, bound: nat)
    requires
        stack_ok(stack, s, bound),
        work_ok(w, s.code.len(), bound),
        w !is EndScope,
    ensures
        stack_ok(stack.push(w), s, bound),
{
    lemma_push(stack, w, s);
    assert forall|i: int| 0 <= i < stack.push(w).len() implies work_ok(#[trigger] stack.push(w)[i], s.code.len(), bound) by {
        if i < stack.len() {
            assert(stack.push(w)[i] == stack[i]);
        }
    }
}

/// The stack below its top item.
pub(crate) proof fn lemma_pop(stack: Seq<CompileWork>, s: CState, bound: nat)
    requires
        stack.len() > 0,
        stack_ok(stack, s, bound),
    ensures
        run_work(stack, s) == then_run(work_meaning(stack.last(), s), stack.drop_last()),
        stack_weight(stack) == stack_weight(stack.drop_last()) + work_weight(stack.last()),
        scope_need(stack) == scope_need(stack.drop_last()) + if stack.last() is EndScope { 1nat } else { 0nat },
        work_ok(stack.last(), s.code.len(), bound),
        stack_ok(stack.drop_last(), s, bound) || stack.last() is EndScope,
        stack.last() is EndScope ==> stack_ok(stack.drop_last(), CState { ctx: s.ctx.end_scope(), ..s }, bound),
{
    assert(work_ok(stack[stack.len() - 1], s.code.len(), bound));
    assert forall|i: int| 0 <= i < stack.drop_last().len() implies work_ok(#[trigger] stack.drop_last()[i], s.code.len(), bound) by {
        assert(work_ok(stack[i], s.code.len(), bound));
    }
}

/// Steps `lo..k` of an indexed sequence of steps, the first one first.
pub open spec fn fold_steps(f: spec_fn(CState, int) -> Result<CState, ErrModel>, s: CState, lo: int, k: int) -> Result<
    CState,
    ErrModel,
>
    decreases k - lo,
{
    if k <= lo {
        Ok(s)
    } else {
        match fold_steps(f, s, lo, k - 1) {
            Ok(t) => f(t, k - 1),
            Err(x) => Err(x),
        }
    }
}

/// Steps `k..hi` of an indexed sequence of steps, unfolded from the front.
pub open spec fn steps_from(f: spec_fn(CState, int) -> Result<CState, ErrModel>, s: CState, k: int, hi: int) -> Result<
    CState,
    ErrModel,
>
    decreases hi - k,
{
    if k >= hi {
        Ok(s)
    } else {
        match f(s, k) {
            Ok(t) => steps_from(f, t, k + 1, hi),
            Err(x) => Err(x),
        }
    }
}

/// Steps `lo..k` followed by steps `k..hi` are steps `lo..hi`.
pub(crate) proof fn lemma_fold_split(f: spec_fn(CState, int) -> Result<CState, ErrModel>, s: CState, lo: int, k: int, hi: int)
    requires
        lo <= k <= hi,
    ensures
        match fold_steps(f, s, lo, k) {
            Ok(t) => steps_from(f, t, k, hi),
            Err(x) => Err(x),
        } == fold_steps(f, s, lo, hi),
    decreases hi - k,
{
    if k < hi {
        lemma_fold_split(f, s, lo, k + 1, hi);
    }
}

/// Unfolding from the front gives the same steps.
pub(crate) proof fn lemma_steps_from(f: spec_fn(CState, int) -> Result<CState, ErrModel>, s: CState, lo: int, hi: int)
    requires
        lo <= hi,
    ensures
        steps_from(f, s, lo, hi) == fold_steps(f, s, lo, hi),
{
    lemma_fold_split(f, s, lo, lo, hi);
}

/// The compilation of one element of a range, not in tail position.
pub open spec fn expr_step(xs: Seq<Val>) -> spec_fn(CState, int) -> Result<CState, ErrModel> {
    |t: CState, j: int| gen(t, xs[j], false)
}

/// A range of elements is the sequence of their compilations.
pub(crate) proof fn lemma_range_steps(s: CState, xs: Seq<Val>, lo: nat, k: nat)
    requires
        lo <= k <= xs.len(),
    ensures
        gen_range(s, xs, lo, k) == fold_steps(expr_step(xs), s, lo as int, k as int),
    decreases k,
{
    if k > lo {
        lemma_range_steps(s, xs, lo, (k - 1) as nat);
    }
}

/// Compiling with a tail flag already set is compiling with that flag.
pub(crate) proof fn lemma_gen_tail(s: CState, e: Val, t: bool)
    ensures
        gen(with_tail(s, t), e, t) == gen(s, e, t),
{
    assert(with_tail(with_tail(s, t), t) == with_tail(s, t));
}

/// The quoting of one element of a list.
pub open spec fn quoted_step(xs: Seq<Val>, keep: bool) -> spec_fn(CState, int) -> Result<CState, ErrModel> {
    |t: CState, j: int| gen_quoted(t, xs[j], keep)
}

/// A quoted list is the sequence of its quoted elements.
pub(crate) proof fn lemma_quoted_steps(s: CState, xs: Seq<Val>, k: nat, keep: bool)
    requires
        k <= xs.len(),
    ensures
        gen_quoted_range(s, xs, k, keep) == fold_steps(quoted_step(xs, keep), s, 0, k as int),
    decreases k,
{
    if k > 0 {
        lemma_quoted_steps(s, xs, (k - 1) as nat, keep);
    }
}

/// The destructuring of one element of a list pattern; the last one also
/// drops the list.
pub open spec fn bind_step(xs: Seq<Val>) -> spec_fn(CState, int) -> Result<CState, ErrModel> {
    |t: CState, j: int|
        match bind(emit_op_u8(emit_op(t, Opcode::Dup), Opcode::GetElement, j as u8), xs[j]) {
            Ok(t3) => Ok(if j + 1 == xs.len() { emit_op(t3, Opcode::Pop) } else { t3 }),
            Err(x) => Err(x),
        }
}

/// A list pattern binds its elements in turn.
pub(crate) proof fn lemma_bind_steps(s: CState, xs: Seq<Val>, k: nat)
    requires
        k <= xs.len(),
    ensures
        bind_items(s, xs, k) == fold_steps(bind_step(xs), s, 0, k as int),
    decreases k,
{
    if k > 0 {
        lemma_bind_steps(s, xs, (k - 1) as nat);
        assert(((k - 1) as nat) as u8 == ((k - 1) as int) as u8);
    }
}

/// One binding of a `let*`: its value, then its pattern.
pub open spec fn binding_step(bs: Seq<Val>) -> spec_fn(CState, int) -> Result<CState, ErrModel> {
    |t: CState, j: int|
        match bs[j] {
            Val::SExpr(pair) => if pair.len() == 2 {
                match gen(t, pair[1], false) {
                    Ok(t2) => bind(t2, pair[0]),
                    Err(x) => Err(x),
                }
            } else {
                Ok(t)
            },
            _ => Ok(t),
        }
}

/// The bindings of a `let*` in turn.
pub(crate) proof fn lemma_binding_steps(s: CState, bs: Seq<Val>, k: nat)
    requires
        k <= bs.len(),
    ensures
        gen_bindings(s, bs, k) == fold_steps(binding_step(bs), s, 0, k as int),
    decreases k,
{
    if k > 0 {
        lemma_binding_steps(s, bs, (k - 1) as nat);
    }
}

/// The size of a two-element S-expression.
pub(crate) proof fn lemma_pair_size(p: &MettaValue, pair: &Vec<MettaValue>)
    requires
        *p == MettaValue::SExpr(*pair),
        pair@.len() == 2,
    ensures
        p@ == Val::SExpr(seq_view(pair@)),
        vsize(p@) == 1 + vsize(pair@[0]@) + vsize(pair@[1]@),
{
    lemma_sexpr_view(p, pair);
    let xs = seq_view(pair@);
    assert(xs[0] == pair@[0]@ && xs[1] == pair@[1]@);
    assert(xs.len() == 2);
    assert(vsize(p@) == 1 + vsizes(xs, 2));
    assert(vsizes(xs, 0) == 0);
    assert(vsizes(xs, 1) == vsize(xs[0]));
    assert(vsizes(xs, 2) == vsizes(xs, 1) + vsize(xs[1]));
}

/// The end of a scope on top of a fitting stack, in a state with one more
/// scope open than the stack ends.
pub(crate) proof fn lemma_stack_ok_push_end(stack: Seq<CompileWork>, s: CState, bound: nat)
    requires
        stack_ok(stack, s, bound),
        scope_need(stack) + 1 <= s.ctx.scope,
    ensures
        stack_ok(stack.push(CompileWork::EndScope), s, bound),
{
    lemma_push(stack, CompileWork::EndScope, s);
    assert forall|i: int| 0 <= i < stack.push(CompileWork::EndScope).len() implies work_ok(
        #[trigger] stack.push(CompileWork::EndScope)[i],
        s.code.len(),
        bound,
    ) by {
        if i < stack.len() {
            assert(stack.push(CompileWork::EndScope)[i] == stack[i]);
        }
    }
}

/// Every element of a sequence of values is at most their total size.
pub(crate) proof fn lemma_vsizes_elem(xs: Seq<Val>, i: int, k: nat)
    requires
        0 <= i < k <= xs.len(),
    ensures
        vsize(xs[i]) <= vsizes(xs, k),
        vsizes(xs, (i + 1) as nat) == vsizes(xs, i as nat) + vsize(xs[i]),
    decreases k,
{
    if i < k - 1 {
        lemma_vsizes_elem(xs, i, (k - 1) as nat);
    }
}

/// Total sizes grow with the number of values counted.
pub(crate) proof fn lemma_vsizes_mono(xs: Seq<Val>, j: nat, k: nat)
    requires
        j <= k <= xs.len(),
    ensures
        vsizes(xs, j) <= vsizes(xs, k),
    decreases k,
{
    if j < k {
        lemma_vsizes_mono(xs, j, (k - 1) as nat);
    }
}

/// Whether a result agrees with the stack left behind: on success the
/// stack's meaning from the new state is the expected result followed by
/// the old stack, the stack fits, and its weight is below the old one plus
/// `allowance`; on failure the expected result is that error.
pub open spec fn advanced(
    r: Result<(), CompileError>,
    expected: Result<CState, ErrModel>,
    st0: Seq<CompileWork>,
    s1: CState,
    st1: Seq<CompileWork>,
    bound: nat,
    allowance: nat,
) -> bool {
    match r {
        Ok(_) => run_work(st1, s1) == then_run(expected, st0) && stack_ok(st1, s1, bound) && stack_weight(st1)
            < stack_weight(st0) + allowance,
        Err(x) => expected == Err::<CState, ErrModel>(x@),
    }
}

/// Work done in place, with nothing pushed, advances the stack.
pub(crate) proof fn lemma_advanced_in_place(
    r: Result<(), CompileError>,
    expected: Result<CState, ErrModel>,
    st0: Seq<CompileWork>,
    s0: CState,
    s1: CState,
    bound: nat,
    allowance: nat,
)
    requires
        outcome(r, s1, expected),
        r is Ok ==> s1.code.len() >= s0.code.len() && s1.ctx.scope >= s0.ctx.scope,
        stack_ok(st0, s0, bound),
        allowance > 0,
    ensures
        advanced(r, expected, st0, s1, st0, bound, allowance),
{
    if r is Ok {
        lemma_stack_ok_grow(st0, s0, s1, bound);
    }
}

/// Push the compilations of `items[lo..hi]`, the first one on top.
pub(crate) fn push_exprs<'a>(
    stack: &mut Vec<CompileWork<'a>>,
    items: &'a Vec<MettaValue>,
    lo: usize,
    hi: usize,
    Ghost(s): Ghost<CState>,
    Ghost(bound): Ghost<nat>,
)
    requires
        lo <= hi <= items@.len(),
        stack_ok(old(stack)@, s, bound),
        forall|i: int| lo <= i < hi ==> vsize(#[trigger] items@[i]@) <= bound,
    ensures
        forall|t: CState| #[trigger] run_work(final(stack)@, t) == then_run(
            gen_range(t, seq_view(items@), lo as nat, hi as nat),
            old(stack)@,
        ),
        stack_ok(final(stack)@, s, bound),
        stack_weight(final(stack)@) == stack_weight(old(stack)@) + 16 * (vsizes(seq_view(items@), hi as nat) - vsizes(
            seq_view(items@),
            lo as nat,
        )),
        scope_need(final(stack)@) == scope_need(old(stack)@),
{
    let ghost xs = seq_view(items@);
    let ghost st0 = stack@;
    let ghost f = expr_step(xs);
    proof {
        lemma_vsizes_mono(xs, lo as nat, hi as nat);
    }
    let mut i: usize = hi;
    while i > lo
        invariant
            lo <= i <= hi <= items@.len(),
            xs == seq_view(items@),
            f == expr_step(xs),
            forall|j: int| lo <= j < hi ==> vsize(#[trigger] items@[j]@) <= bound,
            forall|t: CState| #[trigger] run_work(stack@, t) == then_run(steps_from(f, t, i as int, hi as int), st0),
            stack_ok(stack@, s, bound),
            stack_weight(stack@) == stack_weight(st0) + 16 * (vsizes(xs, hi as nat) - vsizes(xs, i as nat)),
            vsizes(xs, i as nat) <= vsizes(xs, hi as nat),
            scope_need(stack@) == scope_need(st0),
        decreases i,
    {
        i = i - 1;
        let ghost mid = stack@;
        proof {
            assert(xs[i as int] == items@[i as int]@);
            lemma_vsizes_elem(xs, i as int, hi as nat);
        }
        push_work(stack, CompileWork::CompileExpr { expr: &items[i], in_tail_position: false });
        proof {
            reveal(work_meaning);
            assert forall|t: CState| #[trigger] run_work(stack@, t) == then_run(steps_from(f, t, i as int, hi as int), st0) by {
                assert(run_work(stack@, t) == then_run(gen(t, xs[i as int], false), mid));
                assert(f(t, i as int) == gen(t, xs[i as int], false));
            }
        }
    }
    proof {
        assert forall|t: CState| #[trigger] run_work(stack@, t) == then_run(
            gen_range(t, xs, lo as nat, hi as nat),
            st0,
        ) by {
            lemma_steps_from(f, t, lo as int, hi as int);
            lemma_range_steps(t, xs, lo as nat, hi as nat);
        }
    }
}

impl Compiler {
    /// Compile an expression, keeping pending work on an explicit stack.
    #[verifier::spinoff_prover]
    pub fn compile_iterative(&mut self, expr: &MettaValue) -> (r: Result<(), CompileError>)
        requires
            old(self).wf(),
        ensures
            final(self).wf(),
            outcome(r, final(self).model(), gen(old(self).model(), expr@, old(self).model().tail)),
        decreases vsize(expr@), 1nat,
    {
        let ghost goal = gen(self.model(), expr@, self.model().tail);
        let ghost bound = vsize(expr@);
        let mut stack: Vec<CompileWork> = Vec::new();
        let t = self.tail_flag();
        let first = CompileWork::CompileExpr { expr, in_tail_position: t };
        proof {
            reveal(work_meaning);
            lemma_push(stack@, first, self.model());
            lemma_stack_ok_push(stack@, first, self.model(), bound);
            assert(run_work(stack@.push(first), self.model()) == goal);
        }
        stack.push(first);
        while stack.len() > 0
            invariant
                self.wf(),
                bound == vsize(expr@),
                goal == gen(old(self).model(), expr@, old(self).model().tail),
                run_work(stack@, self.model()) == goal,
                stack_ok(stack@, self.model(), bound),
            decreases stack_weight(stack@),
        {
            let ghost before = stack@;
            let ghost s0 = self.model();
            proof {
                lemma_pop(before, s0, bound);
            }
            let work = stack.pop().unwrap();
            proof {
                assert(stack@ == before.drop_last());
                assert(work == before.last());
            }
            match self.process_work_item(work, &mut stack, Ghost(bound)) {
                Ok(()) => {},
                Err(x) => {
                    proof {
                        assert(goal == Err::<CState, ErrModel>(x@));
                        assert(outcome(Err(x), self.model(), goal));
                    }
                    return Err(x);
                },
            }
        }
        Ok(())
    }

    /// Process one work item: emit its code and push the work that remains.
    #[verifier::spinoff_prover]
    #[verifier::rlimit(40)]
    fn process_work_item<'a>(&mut self, work: CompileWork<'a>, stack: &mut Vec<CompileWork<'a>>, Ghost(bound): Ghost<nat>) -> (r: Result<(), CompileError>)
        requires
            old(self).wf(),
            work_ok(work, old(self).model().code.len(), bound),
            stack_ok(old(stack)@, old(self).model(), bound) || work is EndScope,
            work is EndScope ==> old(self).model().ctx.scope > 0 && stack_ok(
                old(stack)@,
                CState { ctx: old(self).model().ctx.end_scope(), ..old(self).model() },
                bound,
            ),
        ensures
            final(self).wf(),
            advanced(
                r,
                work_meaning(work, old(self).model()),
                old(stack)@,
                final(self).model(),
                final(stack)@,
                bound,
                work_weight(work),
            ),
        decreases bound, 0nat,
    {
        let ghost s0 = self.model();
        let ghost st0 = stack@;
        proof {
            reveal(work_meaning);
        }
        match work {
            CompileWork::CompileExpr { expr, in_tail_position } => self.process_expr(
                expr,
                in_tail_position,
                stack,
                Ghost(bound),
            ),
            CompileWork::CompileQuoted { expr, keep_tail } => self.process_quoted(expr, keep_tail, stack, Ghost(bound)),
            CompileWork::CompilePatternBinding { pattern } => self.process_binding(pattern, stack, Ghost(bound)),
            CompileWork::BindElement { pattern, index, last } => {
                self.emit_op(Opcode::Dup);
                self.emit_op_u8(Opcode::GetElement, index as u8);
                proof {
                    lemma_stack_ok_grow(st0, s0, self.model(), bound);
                }
                if last {
                    push_work(stack, CompileWork::EmitOpcode { opcode: Opcode::Pop });
                }
                self.process_binding(pattern, stack, Ghost(bound))
            },
            CompileWork::IfBranches { then_branch, else_branch, parent_tail_position } => {
                let error_jump = self.emit_jump(Opcode::JumpIfError);
                let else_jump = self.emit_jump(Opcode::JumpIfFalse);
                proof {
                    lemma_stack_ok_grow(st0, s0, self.model(), bound);
                }
                push_work(stack, CompileWork::IfElse { else_branch, parent_tail_position, else_jump, error_jump });
                push_work(stack, CompileWork::CompileExpr { expr: then_branch, in_tail_position: parent_tail_position });
                Ok(())
            },
            CompileWork::IfElse { else_branch, parent_tail_position, else_jump, error_jump } => {
                let end_jump = self.emit_jump(Opcode::Jump);
                self.patch_jump(else_jump);
                proof {
                    lemma_stack_ok_grow(st0, s0, self.model(), bound);
                }
                push_work(stack, CompileWork::PatchJump { jump_label: error_jump });
                push_work(stack, CompileWork::PatchJump { jump_label: end_jump });
                push_work(stack, CompileWork::CompileExpr { expr: else_branch, in_tail_position: parent_tail_position });
                Ok(())
            },
            CompileWork::UnifyBranches { success, failure, parent_tail_position } => {
                self.emit_op(Opcode::UnifyBind);
                let failure_jump = self.emit_jump(Opcode::JumpIfFalse);
                proof {
                    lemma_stack_ok_grow(st0, s0, self.model(), bound);
                }
                push_work(stack, CompileWork::UnifyFailure { failure, parent_tail_position, failure_jump });
                push_work(stack, CompileWork::CompileExpr { expr: success, in_tail_position: parent_tail_position });
                Ok(())
            },
            CompileWork::UnifyFailure { failure, parent_tail_position, failure_jump } => {
                let done_jump = self.emit_jump(Opcode::Jump);
                self.patch_jump(failure_jump);
                proof {
                    lemma_stack_ok_grow(st0, s0, self.model(), bound);
                }
                push_work(stack, CompileWork::PatchJump { jump_label: done_jump });
                push_work(stack, CompileWork::CompileExpr { expr: failure, in_tail_position: parent_tail_position });
                Ok(())
            },
            CompileWork::CaseNext { branches, index, end_jumps, parent_tail_position } => {
                self.case_next(branches, index, end_jumps, parent_tail_position, stack, Ghost(bound))
            },
            CompileWork::CaseBranch { result, branches, index, end_jumps, parent_tail_position } => {
                self.case_branch(result, branches, index, end_jumps, parent_tail_position, stack, Ghost(bound))
            },
            CompileWork::CaseArmEnd { next_jump, branches, index, end_jumps, parent_tail_position } => {
                self.case_arm_end(next_jump, branches, index, end_jumps, parent_tail_position, stack, Ghost(bound))
            },
            CompileWork::IsErrorResult => {
                let not_error = self.emit_jump(Opcode::JumpIfError);
                self.emit_op(Opcode::PushFalse);
                let done = self.emit_jump(Opcode::Jump);
                self.patch_jump(not_error);
                self.emit_op(Opcode::PushTrue);
                self.patch_jump(done);
                proof {
                    lemma_stack_ok_grow(st0, s0, self.model(), bound);
                }
                Ok(())
            },
            CompileWork::CatchDefault { default } => {
                let no_error = self.emit_jump(Opcode::JumpIfError);
                let done = self.emit_jump(Opcode::Jump);
                self.patch_jump(no_error);
                self.emit_op(Opcode::Pop);
                let t = self.tail_flag();
                proof {
                    lemma_stack_ok_grow(st0, s0, self.model(), bound);
                }
                push_work(stack, CompileWork::PatchJump { jump_label: done });
                push_work(stack, CompileWork::CompileExpr { expr: default, in_tail_position: t });
                Ok(())
            },
            CompileWork::FinishCall { head, arity, saved_tail_position } => {
                self.set_tail(saved_tail_position);
                let idx = self.add_const(MettaValue::Atom(head))?;
                if saved_tail_position {
                    self.emit_op_u16(Opcode::TailCall, idx);
                } else {
                    self.emit_op_u16(Opcode::Call, idx);
                }
                let mut bytes: Vec<u8> = Vec::new();
                bytes.push(arity);
                proof {
                    assert(bytes@ =~= seq![arity]);
                }
                self.emit_raw(bytes.as_slice());
                proof {
                    lemma_stack_ok_grow(st0, s0, self.model(), bound);
                }
                Ok(())
            },
            CompileWork::CompileTemplate { template, params, opcode } => {
                let r = self.compile_template_iterative(template, params, opcode);
                proof {
                    if r is Ok {
                        lemma_stack_ok_grow(st0, s0, self.model(), bound);
                    }
                }
                r
            },
            CompileWork::EndScope => {
                self.end_scope();
                proof {
                    lemma_stack_ok_grow(st0, CState { ctx: s0.ctx.end_scope(), ..s0 }, self.model(), bound);
                }
                Ok(())
            },
            CompileWork::EmitOpcode { opcode } => {
                self.emit_op(opcode);
                proof {
                    lemma_stack_ok_grow(st0, s0, self.model(), bound);
                }
                Ok(())
            },
            CompileWork::EmitOpcodeU8 { opcode, operand } => {
                self.emit_op_u8(opcode, operand);
                proof {
                    lemma_stack_ok_grow(st0, s0, self.model(), bound);
                }
                Ok(())
            },
            CompileWork::MakeSExpr { count } => {
                self.emit_make_sexpr(count);
                proof {
                    lemma_stack_ok_grow(st0, s0, self.model(), bound);
                }
                Ok(())
            },
            CompileWork::PatchJump { jump_label } => {
                self.patch_jump(jump_label);
                proof {
                    lemma_stack_ok_grow(st0, s0, self.model(), bound);
                }
                Ok(())
            },
        }
    }

    /// The branches of a `case` from `index` on: the next one's pattern,
    /// or, past the last, the jumps out of the branches patched to the end.
    fn case_next<'a>(
        &mut self,
        branches: &'a Vec<MettaValue>,
        index: usize,
        end_jumps: Vec<JumpLabel>,
        parent: bool,
        stack: &mut Vec<CompileWork<'a>>,
        Ghost(bound): Ghost<nat>,
    ) -> (r: Result<(), CompileError>)
        requires
            old(self).wf(),
            index <= branches@.len(),
            case_ok(seq_view(branches@), labels_at(end_jumps@), old(self).model().code.len(), bound),
            stack_ok(old(stack)@, old(self).model(), bound),
        ensures
            final(self).wf(),
            advanced(
                r,
                case_rest(old(self).model(), seq_view(branches@), index as nat, labels_at(end_jumps@), parent),
                old(stack)@,
                final(self).model(),
                final(stack)@,
                bound,
                case_weight(seq_view(branches@), index as nat),
            ),
    {
        let ghost s0 = self.model();
        let ghost st0 = stack@;
        let ghost cs = seq_view(branches@);
        let ghost ends = labels_at(end_jumps@);
        if index >= branches.len() {
            let mut k: usize = 0;
            while k < end_jumps.len()
                invariant
                    k <= end_jumps@.len(),
                    self.wf(),
                    ends == labels_at(end_jumps@),
                    self.model() == patch_all(s0, ends.take(k as int)),
                    self.model().code.len() == s0.code.len(),
                    self.model().ctx == s0.ctx,
                    forall|j: int| 0 <= j < ends.len() ==> #[trigger] ends[j] + 1 < s0.code.len(),
                decreases end_jumps@.len() - k,
            {
                let l = end_jumps[k];
                assert(ends[k as int] == l.at());
                self.patch_jump(l);
                proof {
                    assert(ends.take(k + 1).drop_last() =~= ends.take(k as int));
                }
                k = k + 1;
            }
            proof {
                assert(ends.take(k as int) =~= ends);
                lemma_stack_ok_grow(st0, s0, self.model(), bound);
            }
            return Ok(());
        }
        proof {
            lemma_vsizes_elem(cs, index as int, cs.len());
            lemma_vsizes_mono(cs, (index + 1) as nat, cs.len());
            assert(cs[index as int] == branches@[index as int]@);
        }
        match &branches[index] {
            MettaValue::SExpr(pair) => {
                proof {
                    lemma_sexpr_view(&branches@[index as int], pair);
                }
                if pair.len() == 2 {
                    proof {
                        lemma_pair_size(&branches@[index as int], pair);
                        assert(seq_view(pair@)[0] == pair@[0]@ && seq_view(pair@)[1] == pair@[1]@);
                    }
                    self.emit_op(Opcode::Dup);
                    proof {
                        lemma_stack_ok_grow(st0, s0, self.model(), bound);
                    }
                    push_work(
                        stack,
                        CompileWork::CaseBranch {
                            result: &pair[1],
                            branches,
                            index,
                            end_jumps,
                            parent_tail_position: parent,
                        },
                    );
                    push_work(stack, CompileWork::CompileQuoted { expr: &pair[0], keep_tail: true });
                    proof {
                        reveal(work_meaning);
                    }
                    return Ok(());
                }
            },
            _ => {},
        }
        proof {
            lemma_stack_ok_grow(st0, s0, self.model(), bound);
        }
        push_work(stack, CompileWork::CaseNext { branches, index: index + 1, end_jumps, parent_tail_position: parent });
        proof {
            reveal(work_meaning);
        }
        Ok(())
    }

    /// After the pattern of a `case` branch: the test, then the result and
    /// the end of the branch.
    fn case_branch<'a>(
        &mut self,
        result: &'a MettaValue,
        branches: &'a Vec<MettaValue>,
        index: usize,
        end_jumps: Vec<JumpLabel>,
        parent: bool,
        stack: &mut Vec<CompileWork<'a>>,
        Ghost(bound): Ghost<nat>,
    ) -> (r: Result<(), CompileError>)
        requires
            old(self).wf(),
            vsize(result@) <= bound,
            index < branches@.len(),
            case_ok(seq_view(branches@), labels_at(end_jumps@), old(self).model().code.len(), bound),
            stack_ok(old(stack)@, old(self).model(), bound),
        ensures
            final(self).wf(),
            advanced(
                r,
                work_meaning(
                    CompileWork::CaseBranch { result, branches, index, end_jumps, parent_tail_position: parent },
                    old(self).model(),
                ),
                old(stack)@,
                final(self).model(),
                final(stack)@,
                bound,
                16 * vsize(result@) + 3 + case_weight(seq_view(branches@), (index + 1) as nat),
            ),
    {
        let ghost s0 = self.model();
        let ghost st0 = stack@;
        let ghost ends = end_jumps@;
        proof {
            reveal(work_meaning);
        }
        self.emit_op(Opcode::MatchBind);
        let next = self.emit_jump(Opcode::JumpIfFalse);
        self.emit_op(Opcode::Pop);
        proof {
            lemma_stack_ok_grow(st0, s0, self.model(), bound);
        }
        push_work(stack, CompileWork::CaseArmEnd { next_jump: next, branches, index, end_jumps, parent_tail_position: parent });
        push_work(stack, CompileWork::CompileExpr { expr: result, in_tail_position: parent });
        Ok(())
    }

    /// After the result of a `case` branch: the jump out of the `case`, the
    /// target of the failed test, then the branches after.
    fn case_arm_end<'a>(
        &mut self,
        next_jump: JumpLabel,
        branches: &'a Vec<MettaValue>,
        index: usize,
        end_jumps: Vec<JumpLabel>,
        parent: bool,
        stack: &mut Vec<CompileWork<'a>>,
        Ghost(bound): Ghost<nat>,
    ) -> (r: Result<(), CompileError>)
        requires
            old(self).wf(),
            next_jump.at() + 1 < old(self).model().code.len(),
            index < branches@.len(),
            case_ok(seq_view(branches@), labels_at(end_jumps@), old(self).model().code.len(), bound),
            stack_ok(old(stack)@, old(self).model(), bound),
        ensures
            final(self).wf(),
            advanced(
                r,
                case_arm_end(
                    old(self).model(),
                    next_jump.at(),
                    seq_view(branches@),
                    index as nat,
                    labels_at(end_jumps@),
                    parent,
                ),
                old(stack)@,
                final(self).model(),
                final(stack)@,
                bound,
                2 + case_weight(seq_view(branches@), (index + 1) as nat),
            ),
    {
        let ghost s0 = self.model();
        let ghost st0 = stack@;
        let ghost ends0 = labels_at(end_jumps@);
        let count = branches.len();
        assert(index + 1 <= count);
        let end = self.emit_jump(Opcode::Jump);
        self.patch_jump(next_jump);
        let mut ends = end_jumps;
        ends.push(end);
        proof {
            lemma_stack_ok_grow(st0, s0, self.model(), bound);
            assert(labels_at(ends@) =~= ends0.push(end.at()));
            reveal(work_meaning);
        }
        push_work(stack, CompileWork::CaseNext { branches, index: index + 1, end_jumps: ends, parent_tail_position: parent });
        Ok(())
    }

    /// Compile a template to a sub-chunk whose locals are `params`, through
    /// the work stack, and load it with `op`.
    fn compile_template_iterative(&mut self, template: &MettaValue, params: Vec<String>, op: Opcode) -> (r: Result<(), CompileError>)
        requires
            old(self).wf(),
            params@.len() <= 2,
        ensures
            final(self).wf(),
            outcome(r, final(self).model(), gen_template(old(self).model(), template@, names_view(params@), op)),
            r is Ok ==> final(self).model().code.len() >= old(self).model().code.len()
                && final(self).model().ctx == old(self).model().ctx,
        decreases vsize(template@), 2nat,
    {
        let mut sub = self.template_compiler(&params);
        sub.compile_iterative(template)?;
        self.attach_template(sub, op)
    }
}

/// Push a work item.
pub(crate) fn push_work<'a>(stack: &mut Vec<CompileWork<'a>>, w: CompileWork<'a>)
    ensures
        final(stack)@ == old(stack)@.push(w),
        forall|t: CState| #[trigger] run_work(final(stack)@, t) == then_run(work_meaning(w, t), old(stack)@),
        stack_weight(final(stack)@) == stack_weight(old(stack)@) + work_weight(w),
        scope_need(final(stack)@) == scope_need(old(stack)@) + if w is EndScope { 1nat } else { 0nat },
        forall|t: CState, b: nat|
            stack_ok(old(stack)@, t, b) && work_ok(w, t.code.len(), b) && w !is EndScope ==> #[trigger] stack_ok(
                final(stack)@,
                t,
                b,
            ),
{
    let ghost before = stack@;
    stack.push(w);
    proof {
        assert forall|t: CState| #[trigger] run_work(stack@, t) == then_run(work_meaning(w, t), before) by {
            lemma_push(before, w, t);
        }
        lemma_push(before, w, vstd::pervasive::arbitrary());
        assert forall|t: CState, b: nat|
            stack_ok(before, t, b) && work_ok(w, t.code.len(), b) && w !is EndScope implies #[trigger] stack_ok(
                stack@,
                t,
                b,
            ) by {
            lemma_stack_ok_push(before, w, t, b);
        }
    }
}

} // verus!
