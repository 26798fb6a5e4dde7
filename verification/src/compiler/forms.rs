//! Compilation of expressions, special forms and patterns.

use vstd::prelude::*;

use crate::compiler::codegen::{Compiler, grows, lemma_err_outcome, outcome};
use crate::compiler::error::{CompileError, ErrModel};
use crate::compiler::folding::{opt_view, try_fold_binary_arith, try_fold_boolean, try_fold_comparison, try_fold_unary_arith};
use crate::compiler::semantics::{CState, add_consts, emit_op_u8, arity_error, binary_fold, gen_fork, index_bytes, make_sexpr, pairs_ok, unary_fold, var_param};
use crate::compiler::work_item::{BinaryOp, UnaryOp};
use crate::opcode::Opcode;
use crate::text::{drop_first_char, starts_with_char};
use crate::value::{MettaValue, Val, lemma_sexpr_view, seq_view};

verus! {

broadcast use vstd::string::group_string_axioms;

/// The arity error for `op`.
pub(crate) fn arity_err(op: &str, expected: usize, got: usize) -> (r: CompileError)
    ensures
        r@ == arity_error(op@, expected as nat, got as nat),
{
    CompileError::InvalidArity { op: op.to_string(), expected, got }
}

/// Whether a value is the integer `k`.
pub(crate) fn is_long(v: &MettaValue, k: i64) -> (r: bool)
    ensures
        r == (v@ == Val::Long(k)),
{
    match v {
        MettaValue::Long(n) => *n == k,
        _ => false,
    }
}

/// Whether every element is a two-element S-expression.
pub(crate) fn all_pairs(bs: &Vec<MettaValue>) -> (r: bool)
    ensures
        r == pairs_ok(seq_view(bs@)),
{
    let mut i: usize = 0;
    while i < bs.len()
        invariant
            0 <= i <= bs@.len(),
            forall|j: int| 0 <= j < i ==> #[trigger] seq_view(bs@)[j] is SExpr && seq_view(bs@)[j]->SExpr_0.len() == 2,
        decreases bs@.len() - i,
    {
        proof {
            assert(seq_view(bs@)[i as int] == bs@[i as int]@);
        }
        let ok = match &bs[i] {
            MettaValue::SExpr(pair) => {
                proof {
                    lemma_sexpr_view(&bs@[i as int], pair);
                }
                pair.len() == 2
            },
            _ => false,
        };
        if !ok {
            proof {
                assert(!(seq_view(bs@)[i as int] is SExpr && seq_view(bs@)[i as int]->SExpr_0.len() == 2));
            }
            return false;
        }
        i = i + 1;
    }
    true
}

/// The name that a `$var` argument binds.
pub(crate) fn var_param_exec(v: &MettaValue, msg: &str) -> (r: Result<String, CompileError>)
    ensures
        match var_param(v@, msg@) {
            Ok(t) => r is Ok && r->Ok_0@ == t,
            Err(x) => r is Err && r->Err_0@ == x,
        },
{
    match v {
        MettaValue::Atom(t) => {
            if starts_with_char(t.as_str(), '$') {
                Ok(drop_first_char(t.as_str()))
            } else {
                Err(CompileError::InvalidExpression(msg.to_string()))
            }
        },
        _ => Err(CompileError::InvalidExpression(msg.to_string())),
    }
}

/// The folded constant of a binary builtin, if any.
pub(crate) fn fold_binary_args(op: BinaryOp, a: &MettaValue, b: &MettaValue) -> (r: Option<MettaValue>)
    ensures
        opt_view(r) == binary_fold(op, a@, b@),
{
    match op {
        BinaryOp::Add | BinaryOp::Sub | BinaryOp::Mul | BinaryOp::Div | BinaryOp::Mod | BinaryOp::Pow
        | BinaryOp::FloorDiv => try_fold_binary_arith(op.name(), a, b),
        BinaryOp::Lt | BinaryOp::Le | BinaryOp::Gt | BinaryOp::Ge | BinaryOp::Eq | BinaryOp::Ne => {
            try_fold_comparison(op.name(), a, b)
        },
        BinaryOp::And | BinaryOp::Or | BinaryOp::Xor => {
            let mut args: Vec<MettaValue> = Vec::new();
            args.push(a.deep_clone());
            args.push(b.deep_clone());
            proof {
                assert(seq_view(args@) =~= seq![a@, b@]);
            }
            try_fold_boolean(op.name(), args.as_slice())
        },
        _ => None,
    }
}

/// The folded constant of a unary builtin, if any.
pub(crate) fn fold_unary_arg(op: UnaryOp, a: &MettaValue) -> (r: Option<MettaValue>)
    ensures
        opt_view(r) == unary_fold(op, a@),
{
    match op {
        UnaryOp::Abs | UnaryOp::Neg => {
            let overflows = match (op, a) {
                (UnaryOp::Abs, MettaValue::Long(x)) => *x == i64::MIN,
                _ => false,
            };
            if overflows {
                None
            } else {
                try_fold_unary_arith(op.name(), a)
            }
        },
        UnaryOp::Not => {
            let mut args: Vec<MettaValue> = Vec::new();
            args.push(a.deep_clone());
            proof {
                assert(seq_view(args@) =~= seq![a@]);
            }
            try_fold_boolean("not", args.as_slice())
        },
        _ => None,
    }
}

proof fn lemma_add_consts_err(s: CState, alts: Seq<Val>, k: nat, hi: nat)
    requires
        k <= hi,
        add_consts(s, alts, k) is Err,
    ensures
        add_consts(s, alts, hi) == add_consts(s, alts, k),
    decreases hi - k,
{
    if k < hi {
        lemma_add_consts_err(s, alts, k, (hi - 1) as nat);
    }
}

/// A failing interning makes the whole list of alternatives fail.
pub(crate) proof fn lemma_add_consts_fails(s0: CState, alts: Seq<Val>, k: nat, hi: nat, before: CState, idxs: Seq<u16>)
    requires
        k < hi <= alts.len(),
        add_consts(s0, alts, k) == Ok::<(CState, Seq<u16>), ErrModel>((before, idxs)),
        crate::compiler::semantics::add_const(before, alts[k as int]) is Err,
    ensures
        add_consts(s0, alts, hi) is Err,
        add_consts(s0, alts, hi)->Err_0 == crate::compiler::semantics::add_const(before, alts[k as int])->Err_0,
{
    lemma_add_consts_err(s0, alts, (k + 1) as nat, hi);
}

impl Compiler {
    /// A fork over alternatives kept as constants.
    pub(crate) fn compile_alternatives(&mut self, alts: &Vec<MettaValue>) -> (r: Result<(), CompileError>)
        requires
            old(self).wf(),
        ensures
            final(self).wf(),
            outcome(r, final(self).model(), gen_fork(old(self).model(), seq_view(alts@))),
            r is Ok ==> grows(old(self).model(), final(self).model()),
    {
        let ghost s0 = self.model();
        let ghost sv = seq_view(alts@);
        let mut idxs: Vec<u16> = Vec::new();
        let mut k: usize = 0;
        while k < alts.len()
            invariant
                self.wf(),
                s0 == old(self).model(),
                0 <= k <= alts@.len(),
                sv == seq_view(alts@),
                add_consts(s0, sv, k as nat) == Ok::<(CState, Seq<u16>), ErrModel>((self.model(), idxs@)),
                grows(s0, self.model()),
                self.model().code == s0.code,
            decreases alts@.len() - k,
        {
            let ghost before = self.model();
            proof {
                assert(sv[k as int] == alts@[k as int]@);
            }
            match self.add_const(alts[k].deep_clone()) {
                Ok(i) => {
                    idxs.push(i);
                },
                Err(x) => {
                    proof {
                        lemma_add_consts_fails(s0, sv, k as nat, alts@.len(), before, idxs@);
                        lemma_err_outcome(x, self.model(), gen_fork(old(self).model(), seq_view(alts@)));
                    }
                    return Err(x);
                },
            }
            k = k + 1;
        }
        self.emit_op_u16(Opcode::Fork, alts.len() as u16);
        let ghost base = self.model();
        let mut j: usize = 0;
        proof {
            assert(index_bytes(idxs@.take(0)) =~= Seq::<u8>::empty());
            assert(base.code + Seq::<u8>::empty() =~= base.code);
        }
        while j < idxs.len()
            invariant
                self.wf(),
                s0 == old(self).model(),
                0 <= j <= idxs@.len(),
                self.model() == crate::compiler::semantics::emit_raw(base, index_bytes(idxs@.take(j as int))),
                grows(s0, base),
                base.code.len() >= s0.code.len(),
            decreases idxs@.len() - j,
        {
            let i = idxs[j];
            let mut bytes: Vec<u8> = Vec::new();
            bytes.push((i / 256) as u8);
            bytes.push((i % 256) as u8);
            let ghost mid = self.model();
            self.emit_raw(bytes.as_slice());
            proof {
                let t = idxs@.take(j as int + 1);
                assert(t.drop_last() =~= idxs@.take(j as int));
                assert(t.last() == i);
                assert(bytes@ =~= seq![crate::chunk::u16_hi(i), crate::chunk::u16_lo(i)]);
                assert(index_bytes(t) == index_bytes(idxs@.take(j as int)).push(crate::chunk::u16_hi(i)).push(crate::chunk::u16_lo(i)));
                assert(base.code + index_bytes(t) =~= base.code + index_bytes(idxs@.take(j as int)) + bytes@);
            }
            j = j + 1;
        }
        proof {
            assert(idxs@.take(idxs@.len() as int) =~= idxs@);
        }
        Ok(())
    }

    /// The instruction that builds an S-expression of `n` elements.
    pub(crate) fn emit_make_sexpr(&mut self, n: usize)
        requires
            old(self).wf(),
        ensures
            final(self).wf(),
            final(self).model() == make_sexpr(old(self).model(), n as nat),
    {
        if n <= 255 {
            self.emit_op_u8(Opcode::MakeSExpr, n as u8);
        } else {
            self.emit_op_u16(Opcode::MakeSExprLarge, n as u16);
        }
    }
}

} // verus!
