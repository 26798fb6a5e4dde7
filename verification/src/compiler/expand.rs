//! Expansion of expressions into work items for the trampoline compiler:
//! what can be emitted at once is emitted, and the sub-expressions are
//! pushed, first one on top, with the work that follows them.

use vstd::prelude::*;

use crate::compiler::codegen::Compiler;
use crate::compiler::error::CompileError;
use crate::compiler::iterative::{CompileWork, advanced, bind_step, lemma_advanced_in_place, lemma_bind_steps, lemma_quoted_steps, lemma_stack_ok_grow, lemma_steps_from, lemma_vsize_pos, lemma_vsizes_elem, lemma_vsizes_mono, push_exprs, push_work, quoted_step, run_work, scope_need, stack_ok, stack_weight, steps_from, then_run, vsize, vsizes, work_meaning};
use crate::compiler::semantics::{CState, bind, bind_items, gen, gen_call, gen_data, gen_quoted, gen_quoted_range, gen_sexpr};
use crate::opcode::Opcode;
use crate::text::{drop_first_char, starts_with_char};
use crate::value::{MettaValue, Val, lemma_conjunction_view, lemma_sexpr_view, seq_view};

verus! {

broadcast use vstd::string::group_string_axioms;

/// The elements of an S-expression are smaller than it, and so is each of
/// them.
pub(crate) proof fn lemma_elements_smaller(e: &MettaValue, items: &Vec<MettaValue>)
    requires
        *e == MettaValue::SExpr(*items),
        items@.len() > 0,
    ensures
        e@ == Val::SExpr(seq_view(items@)),
        vsize(e@) == 1 + vsizes(seq_view(items@), items@.len()),
        forall|i: int| 0 <= i < items@.len() ==> vsize(#[trigger] items@[i]@) < vsize(e@),
{
    lemma_sexpr_view(e, items);
    let xs = seq_view(items@);
    assert forall|i: int| 0 <= i < items@.len() implies vsize(#[trigger] items@[i]@) < vsize(e@) by {
        assert(xs[i] == items@[i]@);
        lemma_vsizes_elem(xs, i, items@.len());
    }
}

/// Push the quotings of the elements of a list, the first one on top.
pub(crate) fn push_quoted<'a>(
    stack: &mut Vec<CompileWork<'a>>,
    items: &'a Vec<MettaValue>,
    keep: bool,
    Ghost(s): Ghost<CState>,
    Ghost(bound): Ghost<nat>,
)
    requires
        stack_ok(old(stack)@, s, bound),
        forall|i: int| 0 <= i < items@.len() ==> vsize(#[trigger] items@[i]@) <= bound,
    ensures
        forall|t: CState| #[trigger] run_work(final(stack)@, t) == then_run(
            gen_quoted_range(t, seq_view(items@), items@.len(), keep),
            old(stack)@,
        ),
        stack_ok(final(stack)@, s, bound),
        stack_weight(final(stack)@) == stack_weight(old(stack)@) + 16 * vsizes(seq_view(items@), items@.len()),
        scope_need(final(stack)@) == scope_need(old(stack)@),
{
    let ghost xs = seq_view(items@);
    let ghost st0 = stack@;
    let ghost f = quoted_step(xs, keep);
    let n = items.len();
    proof {
        lemma_vsizes_mono(xs, 0, n as nat);
    }
    let mut i: usize = n;
    while i > 0
        invariant
            0 <= i <= n == items@.len(),
            xs == seq_view(items@),
            f == quoted_step(xs, keep),
            forall|j: int| 0 <= j < n ==> vsize(#[trigger] items@[j]@) <= bound,
            forall|t: CState| #[trigger] run_work(stack@, t) == then_run(steps_from(f, t, i as int, n as int), st0),
            stack_ok(stack@, s, bound),
            stack_weight(stack@) == stack_weight(st0) + 16 * (vsizes(xs, n as nat) - vsizes(xs, i as nat)),
            vsizes(xs, i as nat) <= vsizes(xs, n as nat),
            scope_need(stack@) == scope_need(st0),
        decreases i,
    {
        i = i - 1;
        let ghost mid = stack@;
        proof {
            assert(xs[i as int] == items@[i as int]@);
            lemma_vsizes_elem(xs, i as int, n as nat);
        }
        push_work(stack, CompileWork::CompileQuoted { expr: &items[i], keep_tail: keep });
        proof {
            reveal(work_meaning);
            assert forall|t: CState| #[trigger] run_work(stack@, t) == then_run(steps_from(f, t, i as int, n as int), st0) by {
                assert(run_work(stack@, t) == then_run(gen_quoted(t, xs[i as int], keep), mid));
                assert(f(t, i as int) == gen_quoted(t, xs[i as int], keep));
            }
        }
    }
    proof {
        assert forall|t: CState| #[trigger] run_work(stack@, t) == then_run(gen_quoted_range(t, xs, n as nat, keep), st0) by {
            lemma_steps_from(f, t, 0, n as int);
            lemma_quoted_steps(t, xs, n as nat, keep);
        }
    }
}

/// Push the destructuring of the elements of a list pattern, the first one
/// on top.
pub(crate) fn push_bind_elements<'a>(
    stack: &mut Vec<CompileWork<'a>>,
    items: &'a Vec<MettaValue>,
    Ghost(s): Ghost<CState>,
    Ghost(bound): Ghost<nat>,
)
    requires
        stack_ok(old(stack)@, s, bound),
    ensures
        forall|t: CState| #[trigger] run_work(final(stack)@, t) == then_run(
            bind_items(t, seq_view(items@), items@.len()),
            old(stack)@,
        ),
        stack_ok(final(stack)@, s, bound),
        stack_weight(final(stack)@) == stack_weight(old(stack)@) + 16 * vsizes(seq_view(items@), items@.len()) - 6
            * items@.len(),
        scope_need(final(stack)@) == scope_need(old(stack)@),
{
    let ghost xs = seq_view(items@);
    let ghost st0 = stack@;
    let ghost f = bind_step(xs);
    let n = items.len();
    let mut i: usize = n;
    while i > 0
        invariant
            0 <= i <= n == items@.len(),
            xs == seq_view(items@),
            f == bind_step(xs),
            forall|t: CState| #[trigger] run_work(stack@, t) == then_run(steps_from(f, t, i as int, n as int), st0),
            stack_ok(stack@, s, bound),
            stack_weight(stack@) == stack_weight(st0) + 16 * (vsizes(xs, n as nat) - vsizes(xs, i as nat)) - 6 * (n
                - i),
            scope_need(stack@) == scope_need(st0),
        decreases i,
    {
        i = i - 1;
        let ghost mid = stack@;
        proof {
            assert(xs[i as int] == items@[i as int]@);
            lemma_vsizes_elem(xs, i as int, n as nat);
            lemma_vsize_pos(xs[i as int]);
        }
        push_work(stack, CompileWork::BindElement { pattern: &items[i], index: i, last: i + 1 == n });
        proof {
            reveal(work_meaning);
            assert forall|t: CState| #[trigger] run_work(stack@, t) == then_run(steps_from(f, t, i as int, n as int), st0) by {
                assert((i as int) as u8 == i as u8);
                assert(f(t, i as int) == work_meaning(
                    CompileWork::BindElement { pattern: &items@[i as int], index: i, last: i + 1 == n },
                    t,
                ));
            }
        }
    }
    proof {
        assert forall|t: CState| #[trigger] run_work(stack@, t) == then_run(bind_items(t, xs, n as nat), st0) by {
            lemma_steps_from(f, t, 0, n as int);
            lemma_bind_steps(t, xs, n as nat);
        }
    }
}

impl Compiler {
    /// Expand the compilation of an expression with the given tail flag.
    pub(crate) fn process_expr<'a>(
        &mut self,
        e: &'a MettaValue,
        tail: bool,
        stack: &mut Vec<CompileWork<'a>>,
        Ghost(bound): Ghost<nat>,
    ) -> (r: Result<(), CompileError>)
        requires
            old(self).wf(),
            vsize(e@) <= bound,
            stack_ok(old(stack)@, old(self).model(), bound),
        ensures
            final(self).wf(),
            advanced(
                r,
                gen(old(self).model(), e@, tail),
                old(stack)@,
                final(self).model(),
                final(stack)@,
                bound,
                16 * vsize(e@),
            ),
    {
        let ghost s0 = self.model();
        let ghost st0 = stack@;
        self.set_tail(tail);
        let ghost s1 = self.model();
        proof {
            lemma_stack_ok_grow(st0, s0, s1, bound);
        }
        match e {
            MettaValue::Atom(name) => {
                let r = self.compile_atom(name.as_str());
                proof {
                    lemma_advanced_in_place(r, gen(s0, e@, tail), st0, s1, self.model(), bound, 16 * vsize(e@));
                }
                r
            },
            MettaValue::SExpr(items) => {
                proof {
                    lemma_sexpr_view(e, items);
                }
                if items.len() == 0 {
                    self.emit_op(Opcode::PushUnit);
                    proof {
                        lemma_advanced_in_place(Ok(()), gen(s0, e@, tail), st0, s1, self.model(), bound, 16 * vsize(e@));
                    }
                    return Ok(());
                }
                self.process_sexpr(e, items, stack, Ghost(bound))
            },
            MettaValue::Conjunction(vals) => {
                proof {
                    lemma_conjunction_view(e, vals);
                }
                if vals.len() == 0 {
                    self.emit_op(Opcode::Fail);
                    proof {
                        lemma_advanced_in_place(Ok(()), gen(s0, e@, tail), st0, s1, self.model(), bound, 16 * vsize(e@));
                    }
                    Ok(())
                } else if vals.len() == 1 {
                    let t = self.tail_flag();
                    proof {
                        let xs = seq_view(vals@);
                        assert(xs[0] == vals@[0]@);
                        lemma_vsizes_elem(xs, 0, vals@.len());
                        assert(vsize(e@) == 1 + vsizes(xs, xs.len()));
                    }
                    push_work(stack, CompileWork::CompileExpr { expr: &vals[0], in_tail_position: t });
                    proof {
                        reveal(work_meaning);
                        assert(run_work(stack@, s1) == then_run(gen(s1, vals@[0]@, t), st0));
                    }
                    Ok(())
                } else {
                    let r = self.compile_alternatives(vals);
                    proof {
                        lemma_advanced_in_place(r, gen(s0, e@, tail), st0, s1, self.model(), bound, 16 * vsize(e@));
                    }
                    r
                }
            },
            _ => {
                let r = self.compile_literal(e);
                proof {
                    lemma_advanced_in_place(r, gen(s0, e@, tail), st0, s1, self.model(), bound, 16 * vsize(e@));
                }
                r
            },
        }
    }

    /// Expand the quoting of an expression.
    pub(crate) fn process_quoted<'a>(
        &mut self,
        e: &'a MettaValue,
        keep: bool,
        stack: &mut Vec<CompileWork<'a>>,
        Ghost(bound): Ghost<nat>,
    ) -> (r: Result<(), CompileError>)
        requires
            old(self).wf(),
            vsize(e@) <= bound,
            stack_ok(old(stack)@, old(self).model(), bound),
        ensures
            final(self).wf(),
            advanced(
                r,
                gen_quoted(old(self).model(), e@, keep),
                old(stack)@,
                final(self).model(),
                final(stack)@,
                bound,
                16 * vsize(e@),
            ),
    {
        let ghost s0 = self.model();
        let ghost st0 = stack@;
        match e {
            MettaValue::Atom(name) => {
                let r = if starts_with_char(name.as_str(), '$') {
                    self.emit_const(Opcode::PushVariable, e.deep_clone())
                } else {
                    self.emit_const(Opcode::PushAtom, e.deep_clone())
                };
                proof {
                    lemma_advanced_in_place(r, gen_quoted(s0, e@, keep), st0, s0, self.model(), bound, 16 * vsize(e@));
                }
                r
            },
            MettaValue::SExpr(items) => {
                proof {
                    lemma_sexpr_view(e, items);
                }
                if items.len() == 0 {
                    let t = if keep {
                        self.tail_flag()
                    } else {
                        false
                    };
                    return self.process_expr(e, t, stack, Ghost(bound));
                }
                proof {
                    lemma_elements_smaller(e, items);
                }
                push_work(stack, CompileWork::MakeSExpr { count: items.len() });
                push_quoted(stack, items, keep, Ghost(s0), Ghost(bound));
                proof {
                    reveal(work_meaning);
                    assert(run_work(stack@, s0) == then_run(gen_quoted(s0, e@, keep), st0));
                }
                Ok(())
            },
            _ => {
                let t = if keep {
                    self.tail_flag()
                } else {
                    false
                };
                self.process_expr(e, t, stack, Ghost(bound))
            },
        }
    }

    /// Expand the binding of the value on top of the stack to a pattern.
    pub(crate) fn process_binding<'a>(
        &mut self,
        p: &'a MettaValue,
        stack: &mut Vec<CompileWork<'a>>,
        Ghost(bound): Ghost<nat>,
    ) -> (r: Result<(), CompileError>)
        requires
            old(self).wf(),
            stack_ok(old(stack)@, old(self).model(), bound),
        ensures
            final(self).wf(),
            advanced(
                r,
                bind(old(self).model(), p@),
                old(stack)@,
                final(self).model(),
                final(stack)@,
                bound,
                (16 * vsize(p@) - 8) as nat,
            ),
    {
        let ghost s0 = self.model();
        let ghost st0 = stack@;
        proof {
            lemma_vsize_pos(p@);
        }
        match p {
            MettaValue::Atom(name) => {
                let r = if starts_with_char(name.as_str(), '$') {
                    let var = drop_first_char(name.as_str());
                    match self.declare(var) {
                        Ok(slot) => {
                            if slot <= 255 {
                                self.emit_op_u8(Opcode::StoreLocal, slot as u8);
                            } else {
                                self.emit_op_u16(Opcode::StoreLocalWide, slot);
                            }
                            Ok(())
                        },
                        Err(x) => Err(x),
                    }
                } else {
                    self.emit_op(Opcode::Pop);
                    Ok(())
                };
                proof {
                    lemma_advanced_in_place(r, bind(s0, p@), st0, s0, self.model(), bound, (16 * vsize(p@) - 8) as nat);
                }
                r
            },
            MettaValue::SExpr(items) => {
                proof {
                    lemma_sexpr_view(p, items);
                }
                if items.len() > 0 {
                    proof {
                        lemma_elements_smaller(p, items);
                    }
                    push_bind_elements(stack, items, Ghost(s0), Ghost(bound));
                    proof {
                        assert(run_work(stack@, s0) == then_run(bind(s0, p@), st0));
                    }
                    Ok(())
                } else {
                    self.emit_op(Opcode::Pop);
                    proof {
                        lemma_advanced_in_place(Ok(()), bind(s0, p@), st0, s0, self.model(), bound, (16 * vsize(p@) - 8) as nat);
                    }
                    Ok(())
                }
            },
            _ => {
                self.emit_op(Opcode::Pop);
                proof {
                    lemma_advanced_in_place(Ok(()), bind(s0, p@), st0, s0, self.model(), bound, (16 * vsize(p@) - 8) as nat);
                }
                Ok(())
            },
        }
    }

    /// Expand a non-empty S-expression: a builtin, a call, or data.
    fn process_sexpr<'a>(
        &mut self,
        e: &'a MettaValue,
        items: &'a Vec<MettaValue>,
        stack: &mut Vec<CompileWork<'a>>,
        Ghost(bound): Ghost<nat>,
    ) -> (r: Result<(), CompileError>)
        requires
            old(self).wf(),
            *e == MettaValue::SExpr(*items),
            items@.len() > 0,
            vsize(e@) <= bound,
            stack_ok(old(stack)@, old(self).model(), bound),
        ensures
            final(self).wf(),
            advanced(
                r,
                gen_sexpr(old(self).model(), e@, seq_view(items@)),
                old(stack)@,
                final(self).model(),
                final(stack)@,
                bound,
                16 * vsize(e@),
            ),
    {
        let ghost s0 = self.model();
        let ghost st0 = stack@;
        proof {
            lemma_elements_smaller(e, items);
        }
        match &items[0] {
            MettaValue::Atom(op) => {
                match self.process_builtin(e, op.as_str(), items, stack, Ghost(bound)) {
                    Some(r) => r,
                    None => {
                        if !starts_with_char(op.as_str(), '$') && !starts_with_char(op.as_str(), '&') {
                            self.expand_call(e, op.as_str(), items, stack, Ghost(bound))
                        } else {
                            self.expand_data(e, items, stack, Ghost(bound))
                        }
                    },
                }
            },
            _ => self.expand_data(e, items, stack, Ghost(bound)),
        }
    }

    /// A call of a function by name: its arguments, then the call.
    fn expand_call<'a>(
        &mut self,
        e: &'a MettaValue,
        op: &str,
        items: &'a Vec<MettaValue>,
        stack: &mut Vec<CompileWork<'a>>,
        Ghost(bound): Ghost<nat>,
    ) -> (r: Result<(), CompileError>)
        requires
            old(self).wf(),
            *e == MettaValue::SExpr(*items),
            items@.len() > 0,
            vsize(e@) <= bound,
            stack_ok(old(stack)@, old(self).model(), bound),
        ensures
            final(self).wf(),
            final(self).model() == old(self).model(),
            advanced(
                r,
                gen_call(old(self).model(), e@, op@, seq_view(items@)),
                old(stack)@,
                final(self).model(),
                final(stack)@,
                bound,
                16 * vsize(e@),
            ),
    {
        let ghost s0 = self.model();
        let ghost st0 = stack@;
        let ghost xs = seq_view(items@);
        proof {
            lemma_elements_smaller(e, items);
            lemma_vsizes_elem(xs, 0, items@.len());
            lemma_vsizes_mono(xs, 1, items@.len());
        }
        let n = items.len() - 1;
        if n > 255 {
            return Err(CompileError::InvalidArityRange { op: op.to_string(), min: 0, max: 255, got: n });
        }
        let saved = self.tail_flag();
        push_work(stack, CompileWork::FinishCall { head: op.to_string(), arity: n as u8, saved_tail_position: saved });
        let ghost st1 = stack@;
        push_exprs(stack, items, 1, items.len(), Ghost(s0), Ghost(bound));
        proof {
            reveal(work_meaning);
            assert(run_work(stack@, s0) == then_run(gen_call(s0, e@, op@, xs), st0));
        }
        Ok(())
    }

    /// An S-expression built as data: its elements, then the constructor.
    fn expand_data<'a>(
        &mut self,
        e: &'a MettaValue,
        items: &'a Vec<MettaValue>,
        stack: &mut Vec<CompileWork<'a>>,
        Ghost(bound): Ghost<nat>,
    ) -> (r: Result<(), CompileError>)
        requires
            old(self).wf(),
            *e == MettaValue::SExpr(*items),
            items@.len() > 0,
            vsize(e@) <= bound,
            stack_ok(old(stack)@, old(self).model(), bound),
        ensures
            final(self).wf(),
            final(self).model() == old(self).model(),
            advanced(
                r,
                gen_data(old(self).model(), e@, seq_view(items@)),
                old(stack)@,
                final(self).model(),
                final(stack)@,
                bound,
                16 * vsize(e@),
            ),
    {
        let ghost s0 = self.model();
        let ghost st0 = stack@;
        let ghost xs = seq_view(items@);
        proof {
            lemma_elements_smaller(e, items);
        }
        push_work(stack, CompileWork::MakeSExpr { count: items.len() });
        push_exprs(stack, items, 0, items.len(), Ghost(s0), Ghost(bound));
        proof {
            reveal(work_meaning);
            assert(run_work(stack@, s0) == then_run(gen_data(s0, e@, xs), st0));
        }
        Ok(())
    }
}

} // verus!
