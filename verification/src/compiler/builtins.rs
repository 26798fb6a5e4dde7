//! Expansion of the builtin operations and special forms into work items
//! for the trampoline compiler.

use vstd::prelude::*;

use crate::chunk::JumpLabel;
use crate::compiler::codegen::{Compiler, grows, names_view, outcome};
use crate::compiler::error::{CompileError, ErrModel};
use crate::compiler::expand::lemma_elements_smaller;
use crate::compiler::folding::try_eval_constant;
use crate::compiler::forms::{all_pairs, arity_err, fold_binary_args, fold_unary_arg, is_long, var_param_exec};
use crate::compiler::iterative::{CompileWork, advanced, binding_step, labels_at, lemma_advanced_in_place, lemma_binding_steps, lemma_pair_size, lemma_gen_tail, lemma_stack_ok_grow, lemma_stack_ok_push_end, lemma_steps_from, lemma_vsize_pos, lemma_vsizes_elem, lemma_vsizes_mono, push_exprs, push_work, run_work, scope_need, stack_ok, stack_weight, steps_from, then_run, vsize, vsizes, work_meaning};
use crate::compiler::semantics::{CState, emit_op, error_value, gen, gen_binary, gen_bindings, gen_builtin, gen_case, gen_catch, gen_chain, gen_higher_order, gen_if, gen_is_error, gen_let, gen_let_star, gen_match, gen_println, gen_quoted, gen_range, gen_rule, gen_superpose, gen_unary, gen_unify};
use crate::compiler::work_item::{BinaryOp, UnaryOp, lookup_binary, lookup_unary};
use crate::opcode::Opcode;
use crate::text::str_eq;
use crate::value::{MettaValue, Val, lemma_sexpr_view, push_debug, seq_view};

verus! {

broadcast use vstd::string::group_string_axioms;

/// The error text of a malformed form.
fn invalid(msg: &str) -> (r: CompileError)
    ensures
        r@ == ErrModel::InvalidExpression(msg@),
{
    CompileError::InvalidExpression(msg.to_string())
}


/// Push the bindings of a `let*`, the first one on top.
fn push_bindings<'a>(
    stack: &mut Vec<CompileWork<'a>>,
    bs: &'a Vec<MettaValue>,
    Ghost(s): Ghost<CState>,
    Ghost(bound): Ghost<nat>,
)
    requires
        stack_ok(old(stack)@, s, bound),
        forall|i: int| 0 <= i < bs@.len() ==> vsize(#[trigger] bs@[i]@) <= bound,
    ensures
        forall|t: CState| #[trigger] run_work(final(stack)@, t) == then_run(
            gen_bindings(t, seq_view(bs@), bs@.len()),
            old(stack)@,
        ),
        stack_ok(final(stack)@, s, bound),
        stack_weight(final(stack)@) <= stack_weight(old(stack)@) + 16 * vsizes(seq_view(bs@), bs@.len()),
        scope_need(final(stack)@) == scope_need(old(stack)@),
{
    let ghost xs = seq_view(bs@);
    let ghost st0 = stack@;
    let ghost f = binding_step(xs);
    let n = bs.len();
    proof {
        lemma_vsizes_mono(xs, 0, n as nat);
    }
    let mut i: usize = n;
    while i > 0
        invariant
            0 <= i <= n == bs@.len(),
            xs == seq_view(bs@),
            f == binding_step(xs),
            forall|j: int| 0 <= j < n ==> vsize(#[trigger] bs@[j]@) <= bound,
            forall|t: CState| #[trigger] run_work(stack@, t) == then_run(steps_from(f, t, i as int, n as int), st0),
            stack_ok(stack@, s, bound),
            stack_weight(stack@) <= stack_weight(st0) + 16 * (vsizes(xs, n as nat) - vsizes(xs, i as nat)),
            vsizes(xs, i as nat) <= vsizes(xs, n as nat),
            scope_need(stack@) == scope_need(st0),
        decreases i,
    {
        i = i - 1;
        let ghost mid = stack@;
        proof {
            assert(xs[i as int] == bs@[i as int]@);
            lemma_vsizes_elem(xs, i as int, n as nat);
        }
        match &bs[i] {
            MettaValue::SExpr(pair) => {
                proof {
                    lemma_sexpr_view(&bs@[i as int], pair);
                }
                if pair.len() == 2 {
                    proof {
                        lemma_pair_size(&bs@[i as int], pair);
                    }
                    push_work(stack, CompileWork::CompilePatternBinding { pattern: &pair[0] });
                    push_work(stack, CompileWork::CompileExpr { expr: &pair[1], in_tail_position: false });
                    proof {
                        reveal(work_meaning);
                        assert forall|t: CState| #[trigger] run_work(stack@, t) == then_run(
                            steps_from(f, t, i as int, n as int),
                            st0,
                        ) by {
                            assert(f(t, i as int) == match gen(t, pair@[1]@, false) {
                                Ok(t2) => crate::compiler::semantics::bind(t2, pair@[0]@),
                                Err(x) => Err(x),
                            });
                        }
                    }
                } else {
                    proof {
                        assert forall|t: CState| #[trigger] run_work(stack@, t) == then_run(
                            steps_from(f, t, i as int, n as int),
                            st0,
                        ) by {
                            assert(f(t, i as int) == Ok::<CState, ErrModel>(t));
                        }
                    }
                }
            },
            _ => {
                proof {
                    assert forall|t: CState| #[trigger] run_work(stack@, t) == then_run(
                        steps_from(f, t, i as int, n as int),
                        st0,
                    ) by {
                        assert(f(t, i as int) == Ok::<CState, ErrModel>(t));
                    }
                }
            },
        }
    }
    proof {
        assert forall|t: CState| #[trigger] run_work(stack@, t) == then_run(gen_bindings(t, xs, n as nat), st0) by {
            lemma_steps_from(f, t, 0, n as int);
            lemma_binding_steps(t, xs, n as nat);
        }
    }
}

impl Compiler {
    /// Expand a builtin operation or special form; `None` when `op` is none
    /// of them.
    pub(crate) fn process_builtin<'a>(
        &mut self,
        e: &'a MettaValue,
        op: &str,
        items: &'a Vec<MettaValue>,
        stack: &mut Vec<CompileWork<'a>>,
        Ghost(bound): Ghost<nat>,
    ) -> (r: Option<Result<(), CompileError>>)
        requires
            old(self).wf(),
            *e == MettaValue::SExpr(*items),
            items@.len() > 0,
            vsize(e@) <= bound,
            stack_ok(old(stack)@, old(self).model(), bound),
        ensures
            final(self).wf(),
            match gen_builtin(old(self).model(), e@, op@, seq_view(items@)) {
                None => r is None && final(self).model() == old(self).model() && final(stack)@ == old(stack)@,
                Some(res) => r is Some && advanced(
                    r->Some_0,
                    res,
                    old(stack)@,
                    final(self).model(),
                    final(stack)@,
                    bound,
                    16 * vsize(e@),
                ),
            },
    {
        let ghost s0 = self.model();
        let ghost st0 = stack@;
        proof {
            lemma_elements_smaller(e, items);
        }
        let n = items.len() - 1;
        if let Some(b) = lookup_binary(op) {
            return Some(self.expand_binary(e, b, items, stack, Ghost(bound)));
        }
        if let Some(u) = lookup_unary(op) {
            return Some(self.expand_unary(e, u, items, stack, Ghost(bound)));
        }
        if str_eq(op, "if") {
            if n != 3 {
                return Some(Err(arity_err(op, 3, n)));
            }
            return Some(self.expand_if(e, items, stack, Ghost(bound)));
        }
        if str_eq(op, "let") {
            if n != 3 {
                return Some(Err(arity_err(op, 3, n)));
            }
            return Some(self.expand_let(e, items, stack, Ghost(bound)));
        }
        if str_eq(op, "let*") {
            if n != 2 {
                return Some(Err(arity_err(op, 2, n)));
            }
            return Some(self.expand_let_star(e, items, stack, Ghost(bound)));
        }
        if str_eq(op, "quote") {
            if n != 1 {
                return Some(Err(arity_err(op, 1, n)));
            }
            return Some(self.expand_single(e, items, false, stack, Ghost(bound)));
        }
        if str_eq(op, "!") {
            if n != 1 {
                return Some(Err(arity_err(op, 1, n)));
            }
            return Some(self.expand_single(e, items, true, stack, Ghost(bound)));
        }
        if str_eq(op, "superpose") {
            if n != 1 {
                return Some(Err(arity_err(op, 1, n)));
            }
            return Some(self.expand_superpose(e, items, stack, Ghost(bound)));
        }
        if str_eq(op, "empty") {
            if n != 0 {
                return Some(Err(arity_err(op, 0, n)));
            }
            self.emit_op(Opcode::Fail);
            proof {
                lemma_advanced_in_place(Ok(()), Ok(emit_op(s0, Opcode::Fail)), st0, s0, self.model(), bound, 16 * vsize(e@));
            }
            return Some(Ok(()));
        }
        if str_eq(op, "map-atom") || str_eq(op, "filter-atom") || str_eq(op, "foldl-atom") {
            return Some(self.expand_higher_order(e, op, items, stack, Ghost(bound)));
        }
        if str_eq(op, "chain") {
            if n != 3 {
                return Some(Err(arity_err(op, 3, n)));
            }
            return Some(self.expand_chain(e, items, stack, Ghost(bound)));
        }
        if str_eq(op, "match") {
            if n < 3 || n > 4 {
                return Some(Err(CompileError::InvalidArityRange { op: op.to_string(), min: 3, max: 4, got: n }));
            }
            return Some(self.expand_match(e, items, stack, Ghost(bound)));
        }
        if str_eq(op, "unify") {
            if n != 4 {
                return Some(Err(arity_err(op, 4, n)));
            }
            return Some(self.expand_unify(e, items, stack, Ghost(bound)));
        }
        if str_eq(op, "case") {
            if n != 2 {
                return Some(Err(arity_err(op, 2, n)));
            }
            return Some(self.expand_case(e, items, stack, Ghost(bound)));
        }
        if str_eq(op, "error") {
            if n != 2 {
                return Some(Err(arity_err(op, 2, n)));
            }
            let r = self.compile_error_value(e, items);
            proof {
                lemma_advanced_in_place(
                    r,
                    gen_builtin(s0, e@, op@, seq_view(items@))->Some_0,
                    st0,
                    s0,
                    self.model(),
                    bound,
                    16 * vsize(e@),
                );
            }
            return Some(r);
        }
        if str_eq(op, "is-error") {
            if n != 1 {
                return Some(Err(arity_err(op, 1, n)));
            }
            return Some(self.expand_is_error(e, items, stack, Ghost(bound)));
        }
        if str_eq(op, "catch") {
            if n != 2 {
                return Some(Err(arity_err(op, 2, n)));
            }
            return Some(self.expand_catch(e, items, stack, Ghost(bound)));
        }
        if str_eq(op, "new-space") {
            if n != 0 {
                return Some(Err(arity_err(op, 0, n)));
            }
            self.emit_op(Opcode::EvalNew);
            proof {
                lemma_advanced_in_place(Ok(()), Ok(emit_op(s0, Opcode::EvalNew)), st0, s0, self.model(), bound, 16 * vsize(e@));
            }
            return Some(Ok(()));
        }
        if str_eq(op, "change-state!") {
            if n != 2 {
                return Some(Err(arity_err(op, 2, n)));
            }
            return Some(self.expand_change_state(e, items, stack, Ghost(bound)));
        }
        if str_eq(op, "=") {
            if n != 2 {
                return Some(Err(arity_err(op, 2, n)));
            }
            return Some(self.expand_rule(e, items, stack, Ghost(bound)));
        }
        if str_eq(op, "println!") {
            if n != 1 {
                return Some(Err(arity_err(op, 1, n)));
            }
            return Some(self.expand_println(e, items, stack, Ghost(bound)));
        }
        if str_eq(op, "nop") {
            if n != 0 {
                return Some(Err(arity_err(op, 0, n)));
            }
            self.emit_op(Opcode::PushUnit);
            proof {
                lemma_advanced_in_place(Ok(()), Ok(emit_op(s0, Opcode::PushUnit)), st0, s0, self.model(), bound, 16 * vsize(e@));
            }
            return Some(Ok(()));
        }
        None
    }

    /// A binary builtin: its shortcuts, its folding, or its operands and opcode.
    fn expand_binary<'a>(
        &mut self,
        e: &'a MettaValue,
        op: BinaryOp,
        items: &'a Vec<MettaValue>,
        stack: &mut Vec<CompileWork<'a>>,
        Ghost(bound): Ghost<nat>,
    ) -> (r: Result<(), CompileError>)
        requires
            old(self).wf(),
            *e == MettaValue::SExpr(*items),
            items@.len() > 0,
            vsize(e@) <= bound,
            stack_ok(old(stack)@, old(self).model(), bound),
        ensures
            final(self).wf(),
            advanced(
                r,
                gen_binary(old(self).model(), e@, op, seq_view(items@)),
                old(stack)@,
                final(self).model(),
                final(stack)@,
                bound,
                16 * vsize(e@),
            ),
    {
        let ghost s0 = self.model();
        let ghost st0 = stack@;
        let ghost xs = seq_view(items@);
        let ghost expected = gen_binary(s0, e@, op, xs);
        proof {
            lemma_elements_smaller(e, items);
        }
        let n = items.len() - 1;
        if n != 2 {
            return Err(arity_err(op.name(), 2, n));
        }
        proof {
            assert(xs[1] == items@[1]@ && xs[2] == items@[2]@);
            reveal_with_fuel(vsizes, 4);
            reveal(work_meaning);
        }
        let mut single: Option<&'a MettaValue> = None;
        let mut constant: Option<u8> = None;
        match op {
            BinaryOp::Mul => {
                if is_long(&items[1], 0) || is_long(&items[2], 0) {
                    constant = Some(0);
                } else if is_long(&items[1], 1) {
                    single = Some(&items[2]);
                } else if is_long(&items[2], 1) {
                    single = Some(&items[1]);
                }
            },
            BinaryOp::Div => {
                if is_long(&items[2], 1) {
                    single = Some(&items[1]);
                }
            },
            BinaryOp::Pow => {
                if is_long(&items[2], 0) {
                    constant = Some(1);
                } else if is_long(&items[2], 1) {
                    single = Some(&items[1]);
                }
            },
            _ => {},
        }
        if let Some(k) = constant {
            self.emit_op_u8(Opcode::PushLongSmall, k);
            proof {
                lemma_advanced_in_place(Ok(()), expected, st0, s0, self.model(), bound, 16 * vsize(e@));
            }
            return Ok(());
        }
        if let Some(x) = single {
            push_work(stack, CompileWork::CompileExpr { expr: x, in_tail_position: false });
            proof {
                assert(expected == gen(s0, x@, false));
            }
            return Ok(());
        }
        match fold_binary_args(op, &items[1], &items[2]) {
            Some(v) => {
                self.set_tail(false);
                let ghost s1 = self.model();
                proof {
                    lemma_stack_ok_grow(st0, s0, s1, bound);
                }
                let r = self.compile_literal(&v);
                proof {
                    lemma_advanced_in_place(r, expected, st0, s1, self.model(), bound, 16 * vsize(e@));
                }
                r
            },
            None => {
                push_work(stack, CompileWork::EmitOpcode { opcode: op.opcode() });
                push_exprs(stack, items, 1, 3, Ghost(s0), Ghost(bound));
                proof {
                    assert(run_work(stack@, s0) == then_run(expected, st0));
                }
                Ok(())
            },
        }
    }

    /// A unary builtin: its folding, or its operand and opcode.
    fn expand_unary<'a>(
        &mut self,
        e: &'a MettaValue,
        op: UnaryOp,
        items: &'a Vec<MettaValue>,
        stack: &mut Vec<CompileWork<'a>>,
        Ghost(bound): Ghost<nat>,
    ) -> (r: Result<(), CompileError>)
        requires
            old(self).wf(),
            *e == MettaValue::SExpr(*items),
            items@.len() > 0,
            vsize(e@) <= bound,
            stack_ok(old(stack)@, old(self).model(), bound),
        ensures
            final(self).wf(),
            advanced(
                r,
                gen_unary(old(self).model(), e@, op, seq_view(items@)),
                old(stack)@,
                final(self).model(),
                final(stack)@,
                bound,
                16 * vsize(e@),
            ),
    {
        let ghost s0 = self.model();
        let ghost st0 = stack@;
        let ghost xs = seq_view(items@);
        let ghost expected = gen_unary(s0, e@, op, xs);
        proof {
            lemma_elements_smaller(e, items);
        }
        let n = items.len() - 1;
        if n != 1 {
            return Err(arity_err(op.name(), 1, n));
        }
        proof {
            assert(xs[1] == items@[1]@);
            reveal_with_fuel(vsizes, 3);
            reveal(work_meaning);
        }
        match fold_unary_arg(op, &items[1]) {
            Some(v) => {
                self.set_tail(false);
                let ghost s1 = self.model();
                proof {
                    lemma_stack_ok_grow(st0, s0, s1, bound);
                }
                let r = self.compile_literal(&v);
                proof {
                    lemma_advanced_in_place(r, expected, st0, s1, self.model(), bound, 16 * vsize(e@));
                }
                r
            },
            None => {
                push_work(stack, CompileWork::EmitOpcode { opcode: op.opcode() });
                push_work(stack, CompileWork::CompileExpr { expr: &items[1], in_tail_position: false });
                Ok(())
            },
        }
    }

    /// `quote`, or `!` with `eval` set: the single operand, quoted or
    /// compiled in place of the form.
    fn expand_single<'a>(
        &mut self,
        e: &'a MettaValue,
        items: &'a Vec<MettaValue>,
        eval: bool,
        stack: &mut Vec<CompileWork<'a>>,
        Ghost(bound): Ghost<nat>,
    ) -> (r: Result<(), CompileError>)
        requires
            old(self).wf(),
            *e == MettaValue::SExpr(*items),
            items@.len() == 2,
            vsize(e@) <= bound,
            stack_ok(old(stack)@, old(self).model(), bound),
        ensures
            final(self).wf(),
            advanced(
                r,
                if eval {
                    gen(old(self).model(), seq_view(items@)[1], old(self).model().tail)
                } else {
                    gen_quoted(old(self).model(), seq_view(items@)[1], false)
                },
                old(stack)@,
                final(self).model(),
                final(stack)@,
                bound,
                16 * vsize(e@),
            ),
    {
        proof {
            lemma_elements_smaller(e, items);
            assert(seq_view(items@)[1] == items@[1]@);
            reveal(work_meaning);
        }
        if eval {
            let t = self.tail_flag();
            push_work(stack, CompileWork::CompileExpr { expr: &items[1], in_tail_position: t });
        } else {
            push_work(stack, CompileWork::CompileQuoted { expr: &items[1], keep_tail: false });
        }
        Ok(())
    }

    /// A conditional: the constant branch, or the condition and then both
    /// branches behind jumps.
    fn expand_if<'a>(
        &mut self,
        e: &'a MettaValue,
        items: &'a Vec<MettaValue>,
        stack: &mut Vec<CompileWork<'a>>,
        Ghost(bound): Ghost<nat>,
    ) -> (r: Result<(), CompileError>)
        requires
            old(self).wf(),
            *e == MettaValue::SExpr(*items),
            items@.len() == 4,
            vsize(e@) <= bound,
            stack_ok(old(stack)@, old(self).model(), bound),
        ensures
            final(self).wf(),
            advanced(
                r,
                gen_if(old(self).model(), e@, seq_view(items@)),
                old(stack)@,
                final(self).model(),
                final(stack)@,
                bound,
                16 * vsize(e@),
            ),
    {
        let ghost s0 = self.model();
        let ghost st0 = stack@;
        let ghost xs = seq_view(items@);
        proof {
            lemma_elements_smaller(e, items);
            assert(xs[1] == items@[1]@ && xs[2] == items@[2]@ && xs[3] == items@[3]@);
            reveal_with_fuel(vsizes, 5);
            reveal(work_meaning);
        }
        match try_eval_constant(&items[1]) {
            Some(MettaValue::Bool(c)) => {
                let t = self.tail_flag();
                let branch = if c {
                    &items[2]
                } else {
                    &items[3]
                };
                push_work(stack, CompileWork::CompileExpr { expr: branch, in_tail_position: t });
                return Ok(());
            },
            _ => {},
        }
        let parent = self.tail_flag();
        push_work(
            stack,
            CompileWork::IfBranches { then_branch: &items[2], else_branch: &items[3], parent_tail_position: parent },
        );
        push_work(stack, CompileWork::CompileExpr { expr: &items[1], in_tail_position: false });
        proof {
            assert forall|t: CState, x: Val, p: bool| gen(crate::compiler::semantics::with_tail(t, p), x, p) == gen(t, x, p) by {
                lemma_gen_tail(t, x, p);
            }
            assert(run_work(stack@, s0) == then_run(gen_if(s0, e@, xs), st0));
        }
        Ok(())
    }

    /// A local binding: the value, the pattern, the body, then the end of
    /// the scope.
    fn expand_let<'a>(
        &mut self,
        e: &'a MettaValue,
        items: &'a Vec<MettaValue>,
        stack: &mut Vec<CompileWork<'a>>,
        Ghost(bound): Ghost<nat>,
    ) -> (r: Result<(), CompileError>)
        requires
            old(self).wf(),
            *e == MettaValue::SExpr(*items),
            items@.len() == 4,
            vsize(e@) <= bound,
            stack_ok(old(stack)@, old(self).model(), bound),
        ensures
            final(self).wf(),
            advanced(
                r,
                gen_let(old(self).model(), e@, seq_view(items@)),
                old(stack)@,
                final(self).model(),
                final(stack)@,
                bound,
                16 * vsize(e@),
            ),
    {
        self.expand_scoped(e, items, 2, 1, stack, Ghost(bound))
    }

    /// Sequencing with a binding: the expression, the variable, the body,
    /// then the end of the scope.
    fn expand_chain<'a>(
        &mut self,
        e: &'a MettaValue,
        items: &'a Vec<MettaValue>,
        stack: &mut Vec<CompileWork<'a>>,
        Ghost(bound): Ghost<nat>,
    ) -> (r: Result<(), CompileError>)
        requires
            old(self).wf(),
            *e == MettaValue::SExpr(*items),
            items@.len() == 4,
            vsize(e@) <= bound,
            stack_ok(old(stack)@, old(self).model(), bound),
        ensures
            final(self).wf(),
            advanced(
                r,
                gen_chain(old(self).model(), e@, seq_view(items@)),
                old(stack)@,
                final(self).model(),
                final(stack)@,
                bound,
                16 * vsize(e@),
            ),
    {
        self.expand_scoped(e, items, 1, 2, stack, Ghost(bound))
    }

    /// A scope that binds the value of `items[value]` to the pattern
    /// `items[pattern]` around the body `items[3]`.
    fn expand_scoped<'a>(
        &mut self,
        e: &'a MettaValue,
        items: &'a Vec<MettaValue>,
        value: usize,
        pattern: usize,
        stack: &mut Vec<CompileWork<'a>>,
        Ghost(bound): Ghost<nat>,
    ) -> (r: Result<(), CompileError>)
        requires
            old(self).wf(),
            *e == MettaValue::SExpr(*items),
            items@.len() == 4,
            (value == 2 && pattern == 1) || (value == 1 && pattern == 2),
            vsize(e@) <= bound,
            stack_ok(old(stack)@, old(self).model(), bound),
        ensures
            final(self).wf(),
            advanced(
                r,
                if value == 2 {
                    gen_let(old(self).model(), e@, seq_view(items@))
                } else {
                    gen_chain(old(self).model(), e@, seq_view(items@))
                },
                old(stack)@,
                final(self).model(),
                final(stack)@,
                bound,
                16 * vsize(e@),
            ),
    {
        let ghost s0 = self.model();
        let ghost st0 = stack@;
        let ghost xs = seq_view(items@);
        proof {
            lemma_elements_smaller(e, items);
            assert(xs[1] == items@[1]@ && xs[2] == items@[2]@ && xs[3] == items@[3]@);
            reveal_with_fuel(vsizes, 5);
            reveal(work_meaning);
            lemma_vsize_pos(items@[pattern as int]@);
        }
        let parent = self.tail_flag();
        self.begin_scope()?;
        let ghost s1 = self.model();
        proof {
            lemma_stack_ok_grow(st0, s0, s1, bound);
        }
        push_work(stack, CompileWork::EndScope);
        proof {
            lemma_stack_ok_push_end(st0, s1, bound);
        }
        push_work(stack, CompileWork::CompileExpr { expr: &items[3], in_tail_position: parent });
        push_work(stack, CompileWork::CompilePatternBinding { pattern: &items[pattern] });
        push_work(stack, CompileWork::CompileExpr { expr: &items[value], in_tail_position: false });
        proof {
            assert forall|t: CState, x: Val, p: bool| gen(crate::compiler::semantics::with_tail(t, p), x, p) == gen(t, x, p) by {
                lemma_gen_tail(t, x, p);
            }
        }
        Ok(())
    }

    /// Sequential bindings: each value, then its pattern; then the body and
    /// the end of the scope.
    fn expand_let_star<'a>(
        &mut self,
        e: &'a MettaValue,
        items: &'a Vec<MettaValue>,
        stack: &mut Vec<CompileWork<'a>>,
        Ghost(bound): Ghost<nat>,
    ) -> (r: Result<(), CompileError>)
        requires
            old(self).wf(),
            *e == MettaValue::SExpr(*items),
            items@.len() == 3,
            vsize(e@) <= bound,
            stack_ok(old(stack)@, old(self).model(), bound),
        ensures
            final(self).wf(),
            advanced(
                r,
                gen_let_star(old(self).model(), e@, seq_view(items@)),
                old(stack)@,
                final(self).model(),
                final(stack)@,
                bound,
                16 * vsize(e@),
            ),
    {
        let ghost s0 = self.model();
        let ghost st0 = stack@;
        let ghost xs = seq_view(items@);
        proof {
            lemma_elements_smaller(e, items);
            assert(xs[1] == items@[1]@ && xs[2] == items@[2]@);
            reveal_with_fuel(vsizes, 4);
            reveal(work_meaning);
        }
        match &items[1] {
            MettaValue::SExpr(bs) => {
                proof {
                    lemma_sexpr_view(&items@[1], bs);
                }
                if !all_pairs(bs) {
                    return Err(invalid("let* binding must be (pattern value)"));
                }
            },
            MettaValue::Unit => {},
            _ => {
                return Err(invalid("let* bindings must be a list"));
            },
        }
        let parent = self.tail_flag();
        self.begin_scope()?;
        let ghost s1 = self.model();
        proof {
            lemma_stack_ok_grow(st0, s0, s1, bound);
        }
        push_work(stack, CompileWork::EndScope);
        proof {
            lemma_stack_ok_push_end(st0, s1, bound);
        }
        push_work(stack, CompileWork::CompileExpr { expr: &items[2], in_tail_position: parent });
        let ghost st2 = stack@;
        proof {
            assert forall|t: CState, x: Val, p: bool| gen(crate::compiler::semantics::with_tail(t, p), x, p) == gen(t, x, p) by {
                lemma_gen_tail(t, x, p);
            }
        }
        match &items[1] {
            MettaValue::SExpr(bs) => {
                proof {
                    lemma_sexpr_view(&items@[1], bs);
                    if bs@.len() > 0 {
                        lemma_elements_smaller(&items@[1], bs);
                    }
                }
                push_bindings(stack, bs, Ghost(s1), Ghost(bound));
                proof {
                    if bs@.len() == 0 {
                        assert(seq_view(bs@) =~= Seq::<Val>::empty());
                        assert(gen_bindings(s1, seq_view(bs@), 0) == Ok::<CState, ErrModel>(s1));
                    }
                    assert(run_work(stack@, s1) == then_run(gen_let_star(s0, e@, xs), st0));
                }
            },
            _ => {
                proof {
                    assert(run_work(stack@, s1) == then_run(gen_let_star(s0, e@, xs), st0));
                }
            },
        }
        Ok(())
    }

    /// Nondeterministic choice among alternatives.
    fn expand_superpose<'a>(
        &mut self,
        e: &'a MettaValue,
        items: &'a Vec<MettaValue>,
        stack: &mut Vec<CompileWork<'a>>,
        Ghost(bound): Ghost<nat>,
    ) -> (r: Result<(), CompileError>)
        requires
            old(self).wf(),
            *e == MettaValue::SExpr(*items),
            items@.len() == 2,
            vsize(e@) <= bound,
            stack_ok(old(stack)@, old(self).model(), bound),
        ensures
            final(self).wf(),
            advanced(
                r,
                gen_superpose(old(self).model(), e@, seq_view(items@)),
                old(stack)@,
                final(self).model(),
                final(stack)@,
                bound,
                16 * vsize(e@),
            ),
    {
        let ghost s0 = self.model();
        let ghost st0 = stack@;
        let ghost xs = seq_view(items@);
        let ghost expected = gen_superpose(s0, e@, xs);
        proof {
            lemma_elements_smaller(e, items);
            assert(xs[1] == items@[1]@);
            reveal(work_meaning);
        }
        match &items[1] {
            MettaValue::SExpr(alts) => {
                proof {
                    lemma_sexpr_view(&items@[1], alts);
                }
                if alts.len() == 0 {
                    self.emit_op(Opcode::PushEmpty);
                    proof {
                        lemma_advanced_in_place(Ok(()), expected, st0, s0, self.model(), bound, 16 * vsize(e@));
                    }
                    Ok(())
                } else if alts.len() == 1 {
                    proof {
                        lemma_elements_smaller(&items@[1], alts);
                        assert(seq_view(alts@)[0] == alts@[0]@);
                    }
                    let t = self.tail_flag();
                    push_work(stack, CompileWork::CompileExpr { expr: &alts[0], in_tail_position: t });
                    Ok(())
                } else {
                    let r = self.compile_alternatives(alts);
                    proof {
                        lemma_advanced_in_place(r, expected, st0, s0, self.model(), bound, 16 * vsize(e@));
                    }
                    r
                }
            },
            MettaValue::Unit => {
                self.emit_op(Opcode::PushEmpty);
                proof {
                    lemma_advanced_in_place(Ok(()), expected, st0, s0, self.model(), bound, 16 * vsize(e@));
                }
                Ok(())
            },
            _ => {
                let t = self.tail_flag();
                push_work(stack, CompileWork::CompileExpr { expr: &items[1], in_tail_position: t });
                Ok(())
            },
        }
    }

    /// map-atom, filter-atom and foldl-atom: the list, the initial value of
    /// a fold, then the template as a sub-chunk.
    #[verifier::spinoff_prover]
    #[verifier::rlimit(30)]
    fn expand_higher_order<'a>(
        &mut self,
        e: &'a MettaValue,
        op: &str,
        items: &'a Vec<MettaValue>,
        stack: &mut Vec<CompileWork<'a>>,
        Ghost(bound): Ghost<nat>,
    ) -> (r: Result<(), CompileError>)
        requires
            old(self).wf(),
            *e == MettaValue::SExpr(*items),
            items@.len() > 0,
            op@ == "map-atom"@ || op@ == "filter-atom"@ || op@ == "foldl-atom"@,
            vsize(e@) <= bound,
            stack_ok(old(stack)@, old(self).model(), bound),
        ensures
            final(self).wf(),
            advanced(
                r,
                gen_higher_order(old(self).model(), e@, op@, seq_view(items@)),
                old(stack)@,
                final(self).model(),
                final(stack)@,
                bound,
                16 * vsize(e@),
            ),
    {
        let ghost s0 = self.model();
        let ghost st0 = stack@;
        let ghost xs = seq_view(items@);
        proof {
            lemma_elements_smaller(e, items);
            reveal(work_meaning);
        }
        let n = items.len() - 1;
        let is_map = str_eq(op, "map-atom");
        if is_map || str_eq(op, "filter-atom") {
            if n != 3 {
                return Err(arity_err(op, 3, n));
            }
            proof {
                assert(xs[1] == items@[1]@ && xs[2] == items@[2]@ && xs[3] == items@[3]@);
                reveal_with_fuel(vsizes, 5);
            }
            let msg = if is_map {
                "map-atom variable must be $var"
            } else {
                "filter-atom variable must be $var"
            };
            let var = var_param_exec(&items[2], msg)?;
            let mut params: Vec<String> = Vec::new();
            params.push(var);
            proof {
                assert(names_view(params@) =~= seq![params@[0]@]);
            }
            let opc = if is_map {
                Opcode::MapAtom
            } else {
                Opcode::FilterAtom
            };
            push_work(stack, CompileWork::CompileTemplate { template: &items[3], params, opcode: opc });
            push_work(stack, CompileWork::CompileExpr { expr: &items[1], in_tail_position: false });
            Ok(())
        } else {
            if n != 5 {
                return Err(arity_err(op, 5, n));
            }
            proof {
                assert(xs[1] == items@[1]@ && xs[2] == items@[2]@ && xs[3] == items@[3]@);
                assert(xs[4] == items@[4]@ && xs[5] == items@[5]@);
                reveal_with_fuel(vsizes, 7);
            }
            let acc = var_param_exec(&items[3], "foldl-atom accumulator must be $var")?;
            let item = var_param_exec(&items[4], "foldl-atom item must be $var")?;
            let mut params: Vec<String> = Vec::new();
            params.push(acc);
            params.push(item);
            proof {
                assert(names_view(params@) =~= seq![params@[0]@, params@[1]@]);
            }
            push_work(stack, CompileWork::CompileTemplate { template: &items[5], params, opcode: Opcode::FoldlAtom });
            push_exprs(stack, items, 1, 3, Ghost(s0), Ghost(bound));
            proof {
                assert(run_work(stack@, s0) == then_run(gen_higher_order(s0, e@, op@, xs), st0));
            }
            Ok(())
        }
    }

    /// A space query: the space, the quoted pattern and template, and an
    /// optional default.
    fn expand_match<'a>(
        &mut self,
        e: &'a MettaValue,
        items: &'a Vec<MettaValue>,
        stack: &mut Vec<CompileWork<'a>>,
        Ghost(bound): Ghost<nat>,
    ) -> (r: Result<(), CompileError>)
        requires
            old(self).wf(),
            *e == MettaValue::SExpr(*items),
            4 <= items@.len() <= 5,
            vsize(e@) <= bound,
            stack_ok(old(stack)@, old(self).model(), bound),
        ensures
            final(self).wf(),
            advanced(
                r,
                gen_match(old(self).model(), e@, seq_view(items@)),
                old(stack)@,
                final(self).model(),
                final(stack)@,
                bound,
                16 * vsize(e@),
            ),
    {
        let ghost s0 = self.model();
        let ghost st0 = stack@;
        let ghost xs = seq_view(items@);
        proof {
            lemma_elements_smaller(e, items);
            assert(xs[1] == items@[1]@ && xs[2] == items@[2]@ && xs[3] == items@[3]@);
            if items@.len() == 5 {
                assert(xs[4] == items@[4]@);
            }
            reveal_with_fuel(vsizes, 6);
            reveal(work_meaning);
        }
        push_work(stack, CompileWork::EmitOpcode { opcode: Opcode::EvalMatch });
        if items.len() == 5 {
            push_work(stack, CompileWork::EmitOpcodeU8 { opcode: Opcode::MakeSExpr, operand: 4 });
            push_work(stack, CompileWork::CompileExpr { expr: &items[4], in_tail_position: false });
        } else {
            push_work(stack, CompileWork::EmitOpcodeU8 { opcode: Opcode::MakeSExpr, operand: 3 });
        }
        push_work(stack, CompileWork::CompileQuoted { expr: &items[3], keep_tail: false });
        push_work(stack, CompileWork::CompileQuoted { expr: &items[2], keep_tail: false });
        push_work(stack, CompileWork::CompileExpr { expr: &items[1], in_tail_position: false });
        Ok(())
    }

    /// Unification: both operands, then the test and both branches.
    fn expand_unify<'a>(
        &mut self,
        e: &'a MettaValue,
        items: &'a Vec<MettaValue>,
        stack: &mut Vec<CompileWork<'a>>,
        Ghost(bound): Ghost<nat>,
    ) -> (r: Result<(), CompileError>)
        requires
            old(self).wf(),
            *e == MettaValue::SExpr(*items),
            items@.len() == 5,
            vsize(e@) <= bound,
            stack_ok(old(stack)@, old(self).model(), bound),
        ensures
            final(self).wf(),
            advanced(
                r,
                gen_unify(old(self).model(), e@, seq_view(items@)),
                old(stack)@,
                final(self).model(),
                final(stack)@,
                bound,
                16 * vsize(e@),
            ),
    {
        let ghost s0 = self.model();
        let ghost st0 = stack@;
        let ghost xs = seq_view(items@);
        proof {
            lemma_elements_smaller(e, items);
            assert(xs[1] == items@[1]@ && xs[2] == items@[2]@ && xs[3] == items@[3]@ && xs[4] == items@[4]@);
            reveal_with_fuel(vsizes, 6);
            reveal(work_meaning);
        }
        let parent = self.tail_flag();
        push_work(
            stack,
            CompileWork::UnifyBranches { success: &items[3], failure: &items[4], parent_tail_position: parent },
        );
        push_exprs(stack, items, 1, 3, Ghost(s0), Ghost(bound));
        proof {
            assert forall|t: CState, x: Val, p: bool| gen(crate::compiler::semantics::with_tail(t, p), x, p) == gen(t, x, p) by {
                lemma_gen_tail(t, x, p);
            }
            assert(run_work(stack@, s0) == then_run(gen_unify(s0, e@, xs), st0));
        }
        Ok(())
    }

    /// Pattern dispatch: the scrutinee, then each branch in turn.
    fn expand_case<'a>(
        &mut self,
        e: &'a MettaValue,
        items: &'a Vec<MettaValue>,
        stack: &mut Vec<CompileWork<'a>>,
        Ghost(bound): Ghost<nat>,
    ) -> (r: Result<(), CompileError>)
        requires
            old(self).wf(),
            *e == MettaValue::SExpr(*items),
            items@.len() == 3,
            vsize(e@) <= bound,
            stack_ok(old(stack)@, old(self).model(), bound),
        ensures
            final(self).wf(),
            advanced(
                r,
                gen_case(old(self).model(), e@, seq_view(items@)),
                old(stack)@,
                final(self).model(),
                final(stack)@,
                bound,
                16 * vsize(e@),
            ),
    {
        let ghost s0 = self.model();
        let ghost st0 = stack@;
        let ghost xs = seq_view(items@);
        proof {
            lemma_elements_smaller(e, items);
            assert(xs[1] == items@[1]@ && xs[2] == items@[2]@);
            reveal_with_fuel(vsizes, 4);
            reveal(work_meaning);
        }
        match &items[2] {
            MettaValue::SExpr(cs) => {
                proof {
                    lemma_sexpr_view(&items@[2], cs);
                }
                if cs.len() == 0 {
                    return Err(invalid("case branches must be an S-expression"));
                }
                if !all_pairs(cs) {
                    return Err(invalid("case branch must be (pattern result)"));
                }
            },
            _ => {
                return Err(invalid("case branches must be an S-expression"));
            },
        }
        let parent = self.tail_flag();
        match &items[2] {
            MettaValue::SExpr(cs) => {
                proof {
                    lemma_elements_smaller(&items@[2], cs);
                    assert(labels_at(Seq::<JumpLabel>::empty()) =~= Seq::<nat>::empty());
                }
                let ends: Vec<JumpLabel> = Vec::new();
                push_work(
                    stack,
                    CompileWork::CaseNext { branches: cs, index: 0, end_jumps: ends, parent_tail_position: parent },
                );
            },
            _ => {},
        }
        push_work(stack, CompileWork::CompileExpr { expr: &items[1], in_tail_position: false });
        proof {
            assert(run_work(stack@, s0) == then_run(gen_case(s0, e@, xs), st0));
        }
        Ok(())
    }

    /// An error test: the expression, then the test.
    fn expand_is_error<'a>(
        &mut self,
        e: &'a MettaValue,
        items: &'a Vec<MettaValue>,
        stack: &mut Vec<CompileWork<'a>>,
        Ghost(bound): Ghost<nat>,
    ) -> (r: Result<(), CompileError>)
        requires
            old(self).wf(),
            *e == MettaValue::SExpr(*items),
            items@.len() == 2,
            vsize(e@) <= bound,
            stack_ok(old(stack)@, old(self).model(), bound),
        ensures
            final(self).wf(),
            advanced(
                r,
                gen_is_error(old(self).model(), e@, seq_view(items@)),
                old(stack)@,
                final(self).model(),
                final(stack)@,
                bound,
                16 * vsize(e@),
            ),
    {
        proof {
            lemma_elements_smaller(e, items);
            assert(seq_view(items@)[1] == items@[1]@);
            reveal(work_meaning);
        }
        push_work(stack, CompileWork::IsErrorResult);
        push_work(stack, CompileWork::CompileExpr { expr: &items[1], in_tail_position: false });
        Ok(())
    }

    /// Error recovery: the expression, then the recovery with the default.
    fn expand_catch<'a>(
        &mut self,
        e: &'a MettaValue,
        items: &'a Vec<MettaValue>,
        stack: &mut Vec<CompileWork<'a>>,
        Ghost(bound): Ghost<nat>,
    ) -> (r: Result<(), CompileError>)
        requires
            old(self).wf(),
            *e == MettaValue::SExpr(*items),
            items@.len() == 3,
            vsize(e@) <= bound,
            stack_ok(old(stack)@, old(self).model(), bound),
        ensures
            final(self).wf(),
            advanced(
                r,
                gen_catch(old(self).model(), e@, seq_view(items@)),
                old(stack)@,
                final(self).model(),
                final(stack)@,
                bound,
                16 * vsize(e@),
            ),
    {
        proof {
            lemma_elements_smaller(e, items);
            assert(seq_view(items@)[1] == items@[1]@ && seq_view(items@)[2] == items@[2]@);
            reveal_with_fuel(vsizes, 4);
            reveal(work_meaning);
        }
        push_work(stack, CompileWork::CatchDefault { default: &items[2] });
        push_work(stack, CompileWork::CompileExpr { expr: &items[1], in_tail_position: false });
        Ok(())
    }

    /// A change of state: both operands, then the instruction.
    fn expand_change_state<'a>(
        &mut self,
        e: &'a MettaValue,
        items: &'a Vec<MettaValue>,
        stack: &mut Vec<CompileWork<'a>>,
        Ghost(bound): Ghost<nat>,
    ) -> (r: Result<(), CompileError>)
        requires
            old(self).wf(),
            *e == MettaValue::SExpr(*items),
            items@.len() == 3,
            vsize(e@) <= bound,
            stack_ok(old(stack)@, old(self).model(), bound),
        ensures
            final(self).wf(),
            advanced(
                r,
                match gen_range(old(self).model(), seq_view(items@), 1, 3) {
                    Ok(s1) => Ok(emit_op(s1, Opcode::ChangeState)),
                    Err(x) => Err(x),
                },
                old(stack)@,
                final(self).model(),
                final(stack)@,
                bound,
                16 * vsize(e@),
            ),
    {
        let ghost s0 = self.model();
        let ghost st0 = stack@;
        proof {
            lemma_elements_smaller(e, items);
            reveal_with_fuel(vsizes, 4);
            reveal(work_meaning);
        }
        push_work(stack, CompileWork::EmitOpcode { opcode: Opcode::ChangeState });
        push_exprs(stack, items, 1, 3, Ghost(s0), Ghost(bound));
        Ok(())
    }

    /// A rule definition kept as the data `(= lhs rhs)`.
    fn expand_rule<'a>(
        &mut self,
        e: &'a MettaValue,
        items: &'a Vec<MettaValue>,
        stack: &mut Vec<CompileWork<'a>>,
        Ghost(bound): Ghost<nat>,
    ) -> (r: Result<(), CompileError>)
        requires
            old(self).wf(),
            *e == MettaValue::SExpr(*items),
            items@.len() == 3,
            vsize(e@) <= bound,
            stack_ok(old(stack)@, old(self).model(), bound),
        ensures
            final(self).wf(),
            advanced(
                r,
                gen_rule(old(self).model(), e@, seq_view(items@)),
                old(stack)@,
                final(self).model(),
                final(stack)@,
                bound,
                16 * vsize(e@),
            ),
    {
        let ghost s0 = self.model();
        let ghost st0 = stack@;
        proof {
            lemma_elements_smaller(e, items);
            assert(seq_view(items@)[1] == items@[1]@ && seq_view(items@)[2] == items@[2]@);
            reveal_with_fuel(vsizes, 4);
            reveal(work_meaning);
        }
        self.emit_const(Opcode::PushAtom, MettaValue::Atom("=".to_string()))?;
        proof {
            lemma_stack_ok_grow(st0, s0, self.model(), bound);
        }
        push_work(stack, CompileWork::EmitOpcodeU8 { opcode: Opcode::MakeSExpr, operand: 3 });
        push_work(stack, CompileWork::CompileQuoted { expr: &items[2], keep_tail: false });
        push_work(stack, CompileWork::CompileQuoted { expr: &items[1], keep_tail: false });
        Ok(())
    }

    /// Printing kept as the data `(println! value)` for the machine.
    fn expand_println<'a>(
        &mut self,
        e: &'a MettaValue,
        items: &'a Vec<MettaValue>,
        stack: &mut Vec<CompileWork<'a>>,
        Ghost(bound): Ghost<nat>,
    ) -> (r: Result<(), CompileError>)
        requires
            old(self).wf(),
            *e == MettaValue::SExpr(*items),
            items@.len() == 2,
            vsize(e@) <= bound,
            stack_ok(old(stack)@, old(self).model(), bound),
        ensures
            final(self).wf(),
            advanced(
                r,
                gen_println(old(self).model(), e@, seq_view(items@)),
                old(stack)@,
                final(self).model(),
                final(stack)@,
                bound,
                16 * vsize(e@),
            ),
    {
        let ghost s0 = self.model();
        let ghost st0 = stack@;
        proof {
            lemma_elements_smaller(e, items);
            assert(seq_view(items@)[1] == items@[1]@);
            reveal_with_fuel(vsizes, 3);
            reveal(work_meaning);
        }
        self.emit_const(Opcode::PushAtom, MettaValue::Atom("println!".to_string()))?;
        proof {
            lemma_stack_ok_grow(st0, s0, self.model(), bound);
        }
        push_work(stack, CompileWork::EmitOpcodeU8 { opcode: Opcode::MakeSExpr, operand: 2 });
        push_work(stack, CompileWork::EmitOpcode { opcode: Opcode::Swap });
        push_work(stack, CompileWork::CompileExpr { expr: &items[1], in_tail_position: false });
        Ok(())
    }

    /// An error value built at compile time.
    fn compile_error_value(&mut self, e: &MettaValue, items: &Vec<MettaValue>) -> (r: Result<(), CompileError>)
        requires
            old(self).wf(),
            *e == MettaValue::SExpr(*items),
            items@.len() == 3,
        ensures
            final(self).wf(),
            outcome(r, final(self).model(), crate::compiler::semantics::emit_const(old(self).model(), Opcode::PushConstant, error_value(seq_view(items@)[1], seq_view(items@)[2]))),
            r is Ok ==> grows(old(self).model(), final(self).model()),
    {
        proof {
            lemma_sexpr_view(e, items);
        }
        let msg = match &items[1] {
            MettaValue::String(t) => t.clone(),
            MettaValue::Atom(t) => t.clone(),
            _ => {
                let mut out = String::new();
                push_debug(&mut out, &items[1]);
                out
            },
        };
        let v = MettaValue::Error(msg, Box::new(items[2].deep_clone()));
        self.emit_const(Opcode::PushConstant, v)
    }

}

} // verus!
