//! The meaning of compilation: what each expression compiles to, written as
//! spec functions over a model of the compiler state.
//!
//! The state threads the emitted code, the constant pool, the line table, the
//! compiled template sub-chunks, the variable context and the tail-position
//! flag. An expression compiles in source order, left to right, and the first
//! error in that order is the one reported.

use vstd::prelude::*;

use crate::chunk::{ChunkModel, jump_operand, record_line, u16_hi, u16_lo};
use crate::compiler::context::{CtxModel, lookup_local};
use crate::compiler::error::ErrModel;
use crate::compiler::folding::{
    checked_pow, eval_all, eval_const, fold_binary, fold_boolean, fold_comparison, fold_unary, int_pow, wrapping_div,
};
use crate::compiler::work_item::{
    BinaryOp, UnaryOp, binary_builtin, binary_name, binary_opcode, unary_builtin, unary_name,
    unary_opcode,
};
use crate::opcode::{Opcode, opcode_byte};
use crate::value::{Val, debug_repr};

verus! {

/// Model of the compiler state.
pub ghost struct CState {
    /// Instruction bytes emitted so far.
    pub code: Seq<u8>,
    /// Constant pool.
    pub pool: Seq<Val>,
    /// Line table.
    pub lines: Seq<(usize, u32)>,
    /// Source line recorded for new instructions.
    pub line: u32,
    /// Name of the chunk under construction.
    pub name: Seq<char>,
    /// Compiled template sub-chunks.
    pub subs: Seq<ChunkModel>,
    /// Variable context.
    pub ctx: CtxModel,
    /// Whether the expression being compiled is in tail position.
    pub tail: bool,
}

/// The state with the tail-position flag set to `t`.
pub open spec fn with_tail(s: CState, t: bool) -> CState {
    CState { tail: t, ..s }
}

/// The state after emitting a bare opcode.
pub open spec fn emit_op(s: CState, op: Opcode) -> CState {
    CState {
        code: s.code.push(opcode_byte(op)),
        lines: record_line(s.lines, s.code.len() as usize, s.line),
        ..s
    }
}

/// The state after emitting an opcode with a one-byte operand.
pub open spec fn emit_op_u8(s: CState, op: Opcode, b: u8) -> CState {
    CState {
        code: s.code.push(opcode_byte(op)).push(b),
        lines: record_line(s.lines, s.code.len() as usize, s.line),
        ..s
    }
}

/// The state after emitting an opcode with a two-byte operand.
pub open spec fn emit_op_u16(s: CState, op: Opcode, v: u16) -> CState {
    CState {
        code: s.code.push(opcode_byte(op)).push(u16_hi(v)).push(u16_lo(v)),
        lines: record_line(s.lines, s.code.len() as usize, s.line),
        ..s
    }
}

/// The state after appending raw bytes.
pub open spec fn emit_raw(s: CState, bytes: Seq<u8>) -> CState {
    CState { code: s.code + bytes, ..s }
}

/// The position of the first occurrence of `v` in the pool, or -1.
pub open spec fn first_index(pool: Seq<Val>, v: Val) -> int
    decreases pool.len(),
{
    if pool.len() == 0 {
        -1
    } else {
        let p = first_index(pool.drop_last(), v);
        if p >= 0 {
            p
        } else if pool.last() == v {
            pool.len() - 1
        } else {
            -1
        }
    }
}

/// Interning of a constant: the state and the constant's pool index.
pub open spec fn add_const(s: CState, v: Val) -> Result<(CState, u16), ErrModel> {
    let p = first_index(s.pool, v);
    if p >= 0 {
        Ok((s, p as u16))
    } else if s.pool.len() < 65536 {
        Ok((CState { pool: s.pool.push(v), ..s }, s.pool.len() as u16))
    } else {
        Err(ErrModel::TooManyConstants)
    }
}

/// The state after loading the constant `v` with `op`.
pub open spec fn emit_const(s: CState, op: Opcode, v: Val) -> Result<CState, ErrModel> {
    match add_const(s, v) {
        Ok((s1, i)) => Ok(emit_op_u16(s1, op, i)),
        Err(x) => Err(x),
    }
}

/// The state after emitting a forward jump, and the position of its operand.
pub open spec fn emit_jump(s: CState, op: Opcode) -> (CState, nat) {
    (
        CState {
            code: s.code.push(opcode_byte(op)).push(0xFFu8).push(0xFFu8),
            lines: record_line(s.lines, s.code.len() as usize, s.line),
            ..s
        },
        s.code.len() + 1,
    )
}

/// The state after pointing the jump whose operand is at `at` to the end.
pub open spec fn patch(s: CState, at: nat) -> CState {
    CState {
        code: s.code.update(at as int, u16_hi(jump_operand(at, s.code.len()))).update(
            at + 1int,
            u16_lo(jump_operand(at, s.code.len())),
        ),
        ..s
    }
}

/// The state after `k` pairs of Swap and Pop.
pub open spec fn swap_pops(s: CState, k: nat) -> CState
    decreases k,
{
    if k == 0 {
        s
    } else {
        emit_op(emit_op(swap_pops(s, (k - 1) as nat), Opcode::Swap), Opcode::Pop)
    }
}

/// The state after beginning a lexical scope.
pub open spec fn begin_scope(s: CState) -> Result<CState, ErrModel> {
    if s.ctx.scope == u16::MAX {
        Err(ErrModel::NestingTooDeep)
    } else {
        Ok(CState { ctx: s.ctx.begin_scope(), ..s })
    }
}

/// The state after ending a lexical scope: its locals are dropped from the
/// stack below the scope's result.
pub open spec fn end_scope(s: CState) -> CState {
    swap_pops(CState { ctx: s.ctx.end_scope(), ..s }, s.ctx.end_scope_count())
}

/// Whether a text begins with the character `c`.
pub open spec fn starts_with(t: Seq<char>, c: char) -> bool {
    t.len() > 0 && t[0] == c
}

/// The big-endian bytes of a sequence of constant indices.
pub open spec fn index_bytes(idxs: Seq<u16>) -> Seq<u8>
    decreases idxs.len(),
{
    if idxs.len() == 0 {
        Seq::empty()
    } else {
        index_bytes(idxs.drop_last()).push(u16_hi(idxs.last())).push(u16_lo(idxs.last()))
    }
}

/// Interning of the first `k` alternatives, with their indices.
pub open spec fn add_consts(s: CState, alts: Seq<Val>, k: nat) -> Result<(CState, Seq<u16>), ErrModel>
    decreases k,
{
    if k == 0 {
        Ok((s, Seq::empty()))
    } else {
        match add_consts(s, alts, (k - 1) as nat) {
            Ok((s1, idxs)) => match add_const(s1, alts[k - 1]) {
                Ok((s2, i)) => Ok((s2, idxs.push(i))),
                Err(x) => Err(x),
            },
            Err(x) => Err(x),
        }
    }
}

/// A fork over alternatives kept as constants.
pub open spec fn gen_fork(s: CState, alts: Seq<Val>) -> Result<CState, ErrModel> {
    match add_consts(s, alts, alts.len()) {
        Ok((s1, idxs)) => Ok(emit_raw(emit_op_u16(s1, Opcode::Fork, alts.len() as u16), index_bytes(idxs))),
        Err(x) => Err(x),
    }
}

/// A value that is its own code: literals and constants.
pub open spec fn gen_literal(s: CState, v: Val) -> Result<CState, ErrModel> {
    match v {
        Val::Unit => Ok(emit_op(s, Opcode::PushUnit)),
        Val::Bool(b) => Ok(emit_op(s, if b { Opcode::PushTrue } else { Opcode::PushFalse })),
        Val::Long(n) => if -128 <= n <= 127 {
            Ok(emit_op_u8(s, Opcode::PushLongSmall, n as u8))
        } else {
            emit_const(s, Opcode::PushLong, v)
        },
        Val::Str(_) => emit_const(s, Opcode::PushString, v),
        _ => emit_const(s, Opcode::PushConstant, v),
    }
}

/// A symbol or a variable reference.
pub open spec fn gen_atom(s: CState, name: Seq<char>) -> Result<CState, ErrModel> {
    if starts_with(name, '$') {
        let var = name.drop_first();
        match lookup_local(s.ctx.locals, var) {
            Some(slot) => if slot <= 255 {
                Ok(emit_op_u8(s, Opcode::LoadLocal, slot as u8))
            } else {
                Ok(emit_op_u16(s, Opcode::LoadLocalWide, slot))
            },
            None => {
                let (c, r) = s.ctx.resolve_upvalue(var);
                let s1 = CState { ctx: c, ..s };
                match r {
                    Some(i) => Ok(emit_op_u16(s1, Opcode::LoadUpvalue, i)),
                    None => emit_const(s1, Opcode::PushVariable, Val::Atom(name)),
                }
            },
        }
    } else {
        emit_const(s, Opcode::PushAtom, Val::Atom(name))
    }
}

/// Binding of the value on top of the stack to a pattern.
pub open spec fn bind(s: CState, p: Val) -> Result<CState, ErrModel>
    decreases p, 1nat,
{
    match p {
        Val::Atom(name) => if starts_with(name, '$') {
            if s.ctx.next >= u16::MAX {
                Err(ErrModel::TooManyLocals)
            } else {
                let slot = s.ctx.next;
                let s1 = CState { ctx: s.ctx.declare(name.drop_first()), ..s };
                if slot <= 255 {
                    Ok(emit_op_u8(s1, Opcode::StoreLocal, slot as u8))
                } else {
                    Ok(emit_op_u16(s1, Opcode::StoreLocalWide, slot))
                }
            }
        } else if name == "_"@ {
            Ok(emit_op(s, Opcode::Pop))
        } else {
            Ok(emit_op(s, Opcode::Pop))
        },
        Val::SExpr(items) => if items.len() > 0 {
            bind_items(s, items, items.len())
        } else {
            Ok(emit_op(s, Opcode::Pop))
        },
        _ => Ok(emit_op(s, Opcode::Pop)),
    }
}

/// Destructuring of the first `k` elements of a list pattern.
pub open spec fn bind_items(s: CState, items: Seq<Val>, k: nat) -> Result<CState, ErrModel>
    decreases items, k,
{
    if k == 0 || k > items.len() {
        Ok(s)
    } else {
        match bind_items(s, items, (k - 1) as nat) {
            Ok(s1) => {
                let i = (k - 1) as nat;
                let s2 = emit_op_u8(emit_op(s1, Opcode::Dup), Opcode::GetElement, i as u8);
                match bind(s2, items[i as int]) {
                    Ok(s3) => if k == items.len() {
                        Ok(emit_op(s3, Opcode::Pop))
                    } else {
                        Ok(s3)
                    },
                    Err(x) => Err(x),
                }
            },
            Err(x) => Err(x),
        }
    }
}

/// The elements of an S-expression are smaller than it.
pub proof fn lemma_items_decrease(e: Val, items: Seq<Val>)
    requires
        e == Val::SExpr(items),
    ensures
        decreases_to!(e => items),
        forall|i: int| 0 <= i < items.len() ==> decreases_to!(e => #[trigger] items[i]),
{
    assert(decreases_to!(e => e->SExpr_0));
    assert forall|i: int| 0 <= i < items.len() implies decreases_to!(e => #[trigger] items[i]) by {
        assert(decreases_to!(items => items[i]));
    }
}

/// The compiled code of an expression.
pub open spec fn gen(s0: CState, e: Val, tail: bool) -> Result<CState, ErrModel>
    decreases e, 6nat,
{
    let s = with_tail(s0, tail);
    match e {
        Val::Atom(name) => gen_atom(s, name),
        Val::SExpr(items) => gen_sexpr(s, e, items),
        Val::Conjunction(vals) => if vals.len() == 0 {
            Ok(emit_op(s, Opcode::Fail))
        } else if vals.len() == 1 {
            gen(s, vals[0], s.tail)
        } else {
            gen_fork(s, vals)
        },
        _ => gen_literal(s, e),
    }
}

/// The compiled code of `items[lo..k]`, each not in tail position.
pub open spec fn gen_range(s: CState, items: Seq<Val>, lo: nat, k: nat) -> Result<CState, ErrModel>
    decreases items, k,
{
    if k <= lo || k > items.len() {
        Ok(s)
    } else {
        match gen_range(s, items, lo, (k - 1) as nat) {
            Ok(s1) => gen(s1, items[k - 1], false),
            Err(x) => Err(x),
        }
    }
}

/// The compiled code of an S-expression.
pub open spec fn gen_sexpr(s: CState, e: Val, items: Seq<Val>) -> Result<CState, ErrModel>
    decreases e, 5nat,
{
    if items.len() == 0 || e != Val::SExpr(items) {
        Ok(emit_op(s, Opcode::PushEmpty))
    } else {
        proof {
            lemma_items_decrease(e, items);
        }
        match items[0] {
            Val::Atom(op) => match gen_builtin(s, e, op, items) {
                Some(r) => r,
                None => if !starts_with(op, '$') && !starts_with(op, '&') {
                    gen_call(s, e, op, items)
                } else {
                    gen_data(s, e, items)
                },
            },
            _ => gen_data(s, e, items),
        }
    }
}

/// A call of a function by name.
pub open spec fn gen_call(s: CState, e: Val, op: Seq<char>, items: Seq<Val>) -> Result<CState, ErrModel>
    decreases e, 3nat,
{
    let n = (items.len() - 1) as nat;
    proof {
        if e == Val::SExpr(items) {
            lemma_items_decrease(e, items);
        }
    }
    if e != Val::SExpr(items) || items.len() == 0 {
        Ok(s)
    } else if n > 255 {
        Err(ErrModel::InvalidArityRange { op, min: 0, max: 255, got: n })
    } else {
        let saved = s.tail;
        match gen_range(s, items, 1, items.len()) {
            Ok(s1) => match add_const(with_tail(s1, saved), Val::Atom(op)) {
                Ok((s2, idx)) => Ok(
                    emit_raw(
                        emit_op_u16(s2, if saved { Opcode::TailCall } else { Opcode::Call }, idx),
                        seq![n as u8],
                    ),
                ),
                Err(x) => Err(x),
            },
            Err(x) => Err(x),
        }
    }
}

/// An S-expression built as data from its compiled elements.
pub open spec fn gen_data(s: CState, e: Val, items: Seq<Val>) -> Result<CState, ErrModel>
    decreases e, 3nat,
{
    if e != Val::SExpr(items) {
        Ok(s)
    } else {
        proof {
            lemma_items_decrease(e, items);
        }
        match gen_range(s, items, 0, items.len()) {
            Ok(s1) => Ok(make_sexpr(s1, items.len())),
            Err(x) => Err(x),
        }
    }
}

/// The instruction that builds an S-expression of `n` elements.
pub open spec fn make_sexpr(s: CState, n: nat) -> CState {
    if n <= 255 {
        emit_op_u8(s, Opcode::MakeSExpr, n as u8)
    } else {
        emit_op_u16(s, Opcode::MakeSExprLarge, n as u16)
    }
}

/// The error for a wrong number of arguments.
pub open spec fn arity_error(op: Seq<char>, expected: nat, got: nat) -> ErrModel {
    ErrModel::InvalidArity { op, expected, got }
}

/// Two compilation results that agree on everything but the tail-position
/// flag of the final state.
pub open spec fn same_up_to_tail(a: Result<CState, ErrModel>, b: Result<CState, ErrModel>) -> bool {
    match (a, b) {
        (Ok(x), Ok(y)) => with_tail(x, false) == with_tail(y, false),
        (Err(x), Err(y)) => x == y,
        _ => false,
    }
}

/// Multiplying by one keeps a 64-bit integer.
proof fn lemma_mul_one(b: i64)
    ensures
        1i64.wrapping_mul(b) == b,
        b.wrapping_mul(1i64) == b,
{
    assert(1i64.wrapping_mul(b) == b) by (bit_vector);
    assert(b.wrapping_mul(1i64) == b) by (bit_vector);
}

/// Multiplying by zero gives zero.
proof fn lemma_mul_zero(a: i64, b: i64)
    requires
        a == 0 || b == 0,
    ensures
        a.wrapping_mul(b) == 0,
{
    if a == 0 {
        assert(0i64.wrapping_mul(b) == 0) by (bit_vector);
    } else {
        assert(a.wrapping_mul(0i64) == 0) by (bit_vector);
    }
}

/// Powers zero and one of an integer.
proof fn lemma_pow_small(a: i64)
    ensures
        binary_fold(BinaryOp::Pow, Val::Long(a), Val::Long(0)) == Some(Val::Long(1)),
        binary_fold(BinaryOp::Pow, Val::Long(a), Val::Long(1)) == Some(Val::Long(a)),
{
    assert(int_pow(a as int, 1) == a);
    reveal_strlit("pow");
    reveal_strlit("mod");
    reveal_strlit("+");
    reveal_strlit("-");
    reveal_strlit("*");
    reveal_strlit("/");
    reveal_strlit("%");
    assert("pow"@[0] != "mod"@[0]);
    assert(eval_const(Val::Long(a)) == Some(Val::Long(a)));
    assert(eval_const(Val::Long(0)) == Some(Val::Long(0)));
    assert(eval_const(Val::Long(1)) == Some(Val::Long(1)));
}

/// A binary builtin applied to two integer literals, whose value folding
/// gives, compiles wherever it stands to the literal of that value: the
/// same code, constants and context, the tail-position flag aside.
#[verifier::spinoff_prover]
pub proof fn lemma_literal_arithmetic_folds(s: CState, name: Seq<char>, a: i64, b: i64, v: Val, tail: bool)
    requires
        binary_builtin(name) is Some,
        binary_fold(binary_builtin(name)->Some_0, Val::Long(a), Val::Long(b)) == Some(v),
    ensures
        same_up_to_tail(
            gen(s, Val::SExpr(seq![Val::Atom(name), Val::Long(a), Val::Long(b)]), tail),
            gen_literal(with_tail(s, false), v),
        ),
{
    let items = seq![Val::Atom(name), Val::Long(a), Val::Long(b)];
    let e = Val::SExpr(items);
    let s1 = with_tail(s, tail);
    let op = binary_builtin(name)->Some_0;
    assert(items[0] == Val::Atom(name) && items[1] == Val::Long(a) && items[2] == Val::Long(b));
    assert(gen(s, e, tail) == gen_sexpr(s1, e, items));
    assert(gen_sexpr(s1, e, items) == gen_binary(s1, e, op, items));
    assert(with_tail(s1, false) == with_tail(s, false));
    if op == BinaryOp::Mul && (a == 0 || b == 0) {
        lemma_mul_zero(a, b);
        assert(v == Val::Long(0));
    } else if op == BinaryOp::Mul && a == 1 {
        lemma_mul_one(b);
        assert(v == Val::Long(b));
    } else if op == BinaryOp::Mul && b == 1 {
        lemma_mul_one(a);
        assert(v == Val::Long(a));
    } else if op == BinaryOp::Div && b == 1 {
        assert(wrapping_div(a, 1) == a);
        assert(v == Val::Long(a));
    } else if op == BinaryOp::Pow && b == 0 {
        lemma_pow_small(a);
        assert(v == Val::Long(1));
    } else if op == BinaryOp::Pow && b == 1 {
        lemma_pow_small(a);
        assert(v == Val::Long(a));
    } else {
        assert(gen_binary(s1, e, op, items) == gen_literal(with_tail(s1, false), v));
    }
}

/// The constant that a binary builtin folds to, if any.
pub open spec fn binary_fold(op: BinaryOp, a: Val, b: Val) -> Option<Val> {
    match op {
        BinaryOp::Add | BinaryOp::Sub | BinaryOp::Mul | BinaryOp::Div | BinaryOp::Mod | BinaryOp::Pow
        | BinaryOp::FloorDiv => match (eval_const(a), eval_const(b)) {
            (Some(x), Some(y)) => fold_binary(binary_name(op), x, y),
            _ => None,
        },
        BinaryOp::Lt | BinaryOp::Le | BinaryOp::Gt | BinaryOp::Ge | BinaryOp::Eq | BinaryOp::Ne => match (
            eval_const(a),
            eval_const(b),
        ) {
            (Some(x), Some(y)) => fold_comparison(binary_name(op), x, y),
            _ => None,
        },
        BinaryOp::And | BinaryOp::Or | BinaryOp::Xor => match eval_all(seq![a, b]) {
            Some(cs) => fold_boolean(binary_name(op), cs),
            None => None,
        },
        _ => None,
    }
}

/// The constant that a unary builtin folds to, if any; the absolute value
/// of the least integer, which has no representable result, is left to run
/// time.
pub open spec fn unary_fold(op: UnaryOp, a: Val) -> Option<Val> {
    match op {
        UnaryOp::Abs | UnaryOp::Neg => if op == UnaryOp::Abs && a == Val::Long(i64::MIN) {
            None
        } else {
            fold_unary(unary_name(op), a)
        },
        UnaryOp::Not => match eval_all(seq![a]) {
            Some(cs) => fold_boolean("not"@, cs),
            None => None,
        },
        _ => None,
    }
}

/// A binary builtin: its shortcuts, its folding, or its operands and opcode.
pub open spec fn gen_binary(s: CState, e: Val, op: BinaryOp, items: Seq<Val>) -> Result<CState, ErrModel>
    decreases e, 3nat,
{
    let n = (items.len() - 1) as nat;
    proof {
        if e == Val::SExpr(items) {
            lemma_items_decrease(e, items);
        }
    }
    if e != Val::SExpr(items) || items.len() == 0 {
        Ok(s)
    } else if n != 2 {
        Err(arity_error(binary_name(op), 2, n))
    } else if op == BinaryOp::Mul && (items[1] == Val::Long(0) || items[2] == Val::Long(0)) {
        Ok(emit_op_u8(s, Opcode::PushLongSmall, 0))
    } else if op == BinaryOp::Mul && items[1] == Val::Long(1) {
        gen(s, items[2], false)
    } else if op == BinaryOp::Mul && items[2] == Val::Long(1) {
        gen(s, items[1], false)
    } else if op == BinaryOp::Div && items[2] == Val::Long(1) {
        gen(s, items[1], false)
    } else if op == BinaryOp::Pow && items[2] == Val::Long(0) {
        Ok(emit_op_u8(s, Opcode::PushLongSmall, 1))
    } else if op == BinaryOp::Pow && items[2] == Val::Long(1) {
        gen(s, items[1], false)
    } else {
        match binary_fold(op, items[1], items[2]) {
            Some(v) => gen_literal(with_tail(s, false), v),
            None => match gen_range(s, items, 1, 3) {
                Ok(s1) => Ok(emit_op(s1, binary_opcode(op))),
                Err(x) => Err(x),
            },
        }
    }
}

/// A unary builtin: its folding, or its operand and opcode.
pub open spec fn gen_unary(s: CState, e: Val, op: UnaryOp, items: Seq<Val>) -> Result<CState, ErrModel>
    decreases e, 3nat,
{
    let n = (items.len() - 1) as nat;
    proof {
        if e == Val::SExpr(items) {
            lemma_items_decrease(e, items);
        }
    }
    if e != Val::SExpr(items) || items.len() == 0 {
        Ok(s)
    } else if n != 1 {
        Err(arity_error(unary_name(op), 1, n))
    } else {
        match unary_fold(op, items[1]) {
            Some(v) => gen_literal(with_tail(s, false), v),
            None => match gen(s, items[1], false) {
                Ok(s1) => Ok(emit_op(s1, unary_opcode(op))),
                Err(x) => Err(x),
            },
        }
    }
}

/// The builtin special forms and operations; `None` when `op` is none of them.
pub open spec fn gen_builtin(s: CState, e: Val, op: Seq<char>, items: Seq<Val>) -> Option<Result<CState, ErrModel>>
    decreases e, 4nat,
{
    let n = (items.len() - 1) as nat;
    proof {
        if e == Val::SExpr(items) {
            lemma_items_decrease(e, items);
        }
    }
    if e != Val::SExpr(items) || items.len() == 0 {
        None
    } else if binary_builtin(op) is Some {
        Some(gen_binary(s, e, binary_builtin(op)->Some_0, items))
    } else if unary_builtin(op) is Some {
        Some(gen_unary(s, e, unary_builtin(op)->Some_0, items))
    } else if op == "if"@ {
        Some(if n != 3 { Err(arity_error(op, 3, n)) } else { gen_if(s, e, items) })
    } else if op == "let"@ {
        Some(if n != 3 { Err(arity_error(op, 3, n)) } else { gen_let(s, e, items) })
    } else if op == "let*"@ {
        Some(if n != 2 { Err(arity_error(op, 2, n)) } else { gen_let_star(s, e, items) })
    } else if op == "quote"@ {
        Some(if n != 1 { Err(arity_error(op, 1, n)) } else { gen_quoted(s, items[1], false) })
    } else if op == "!"@ {
        Some(if n != 1 { Err(arity_error(op, 1, n)) } else { gen(s, items[1], s.tail) })
    } else if op == "superpose"@ {
        Some(if n != 1 { Err(arity_error(op, 1, n)) } else { gen_superpose(s, e, items) })
    } else if op == "empty"@ {
        Some(if n != 0 { Err(arity_error(op, 0, n)) } else { Ok(emit_op(s, Opcode::Fail)) })
    } else if op == "map-atom"@ || op == "filter-atom"@ || op == "foldl-atom"@ {
        Some(gen_higher_order(s, e, op, items))
    } else if op == "chain"@ {
        Some(if n != 3 { Err(arity_error(op, 3, n)) } else { gen_chain(s, e, items) })
    } else if op == "match"@ {
        Some(if n < 3 || n > 4 {
            Err(ErrModel::InvalidArityRange { op, min: 3, max: 4, got: n })
        } else {
            gen_match(s, e, items)
        })
    } else if op == "unify"@ {
        Some(if n != 4 { Err(arity_error(op, 4, n)) } else { gen_unify(s, e, items) })
    } else if op == "case"@ {
        Some(if n != 2 { Err(arity_error(op, 2, n)) } else { gen_case(s, e, items) })
    } else if op == "error"@ {
        Some(if n != 2 { Err(arity_error(op, 2, n)) } else { emit_const(s, Opcode::PushConstant, error_value(items[1], items[2])) })
    } else if op == "is-error"@ {
        Some(if n != 1 { Err(arity_error(op, 1, n)) } else { gen_is_error(s, e, items) })
    } else if op == "catch"@ {
        Some(if n != 2 { Err(arity_error(op, 2, n)) } else { gen_catch(s, e, items) })
    } else if op == "new-space"@ {
        Some(if n != 0 { Err(arity_error(op, 0, n)) } else { Ok(emit_op(s, Opcode::EvalNew)) })
    } else if op == "change-state!"@ {
        Some(if n != 2 { Err(arity_error(op, 2, n)) } else {
            match gen_range(s, items, 1, 3) {
                Ok(s1) => Ok(emit_op(s1, Opcode::ChangeState)),
                Err(x) => Err(x),
            }
        })
    } else if op == "="@ {
        Some(if n != 2 { Err(arity_error(op, 2, n)) } else { gen_rule(s, e, items) })
    } else if op == "println!"@ {
        Some(if n != 1 { Err(arity_error(op, 1, n)) } else { gen_println(s, e, items) })
    } else if op == "nop"@ {
        Some(if n != 0 { Err(arity_error(op, 0, n)) } else { Ok(emit_op(s, Opcode::PushUnit)) })
    } else {
        None
    }
}

/// The error value that `(error msg details)` denotes.
pub open spec fn error_value(msg: Val, details: Val) -> Val {
    let text = match msg {
        Val::Str(t) => t,
        Val::Atom(t) => t,
        _ => debug_repr(msg),
    };
    Val::Error(text, Box::new(details))
}

/// A conditional: the constant branch, or both branches behind jumps.
pub open spec fn gen_if(s: CState, e: Val, items: Seq<Val>) -> Result<CState, ErrModel>
    decreases e, 3nat,
{
    if e != Val::SExpr(items) || items.len() != 4 {
        Ok(s)
    } else {
        proof {
            lemma_items_decrease(e, items);
        }
        match eval_const(items[1]) {
            Some(Val::Bool(c)) => gen(s, if c { items[2] } else { items[3] }, s.tail),
            _ => {
                let parent = s.tail;
                match gen(s, items[1], false) {
                    Ok(s1) => {
                        let (s2, error_jump) = emit_jump(s1, Opcode::JumpIfError);
                        let (s3, else_jump) = emit_jump(s2, Opcode::JumpIfFalse);
                        match gen(with_tail(s3, parent), items[2], parent) {
                            Ok(s4) => {
                                let (s5, end_jump) = emit_jump(s4, Opcode::Jump);
                                let s6 = patch(s5, else_jump);
                                match gen(with_tail(s6, parent), items[3], parent) {
                                    Ok(s7) => Ok(patch(patch(s7, end_jump), error_jump)),
                                    Err(x) => Err(x),
                                }
                            },
                            Err(x) => Err(x),
                        }
                    },
                    Err(x) => Err(x),
                }
            },
        }
    }
}

/// A local binding: value, pattern, body, then the scope's cleanup.
pub open spec fn gen_let(s: CState, e: Val, items: Seq<Val>) -> Result<CState, ErrModel>
    decreases e, 3nat,
{
    if e != Val::SExpr(items) || items.len() != 4 {
        Ok(s)
    } else {
        proof {
            lemma_items_decrease(e, items);
        }
        let parent = s.tail;
        match begin_scope(s) {
            Ok(s1) => match gen(s1, items[2], false) {
                Ok(s2) => match bind(s2, items[1]) {
                    Ok(s3) => match gen(with_tail(s3, parent), items[3], parent) {
                        Ok(s4) => Ok(end_scope(s4)),
                        Err(x) => Err(x),
                    },
                    Err(x) => Err(x),
                },
                Err(x) => Err(x),
            },
            Err(x) => Err(x),
        }
    }
}

/// Whether every binding of a `let*` is a (pattern value) pair.
pub open spec fn pairs_ok(bs: Seq<Val>) -> bool {
    forall|i: int| 0 <= i < bs.len() ==> #[trigger] bs[i] is SExpr && bs[i]->SExpr_0.len() == 2
}

/// The bindings of a `let*`, or the error that its binding list gives.
pub open spec fn let_star_bindings(b: Val) -> Result<Seq<Val>, ErrModel> {
    match b {
        Val::SExpr(bs) => if pairs_ok(bs) {
            Ok(bs)
        } else {
            Err(ErrModel::InvalidExpression("let* binding must be (pattern value)"@))
        },
        Val::Unit => Ok(Seq::empty()),
        _ => Err(ErrModel::InvalidExpression("let* bindings must be a list"@)),
    }
}

/// Sequential bindings: each value is compiled, then bound.
pub open spec fn gen_bindings(s: CState, bs: Seq<Val>, k: nat) -> Result<CState, ErrModel>
    decreases bs, k,
{
    if k == 0 || k > bs.len() {
        Ok(s)
    } else {
        match gen_bindings(s, bs, (k - 1) as nat) {
            Ok(s1) => match bs[k - 1] {
                Val::SExpr(pair) => if pair.len() == 2 {
                    match gen(s1, pair[1], false) {
                        Ok(s2) => bind(s2, pair[0]),
                        Err(x) => Err(x),
                    }
                } else {
                    Ok(s1)
                },
                _ => Ok(s1),
            },
            Err(x) => Err(x),
        }
    }
}

/// A sequential binding form.
pub open spec fn gen_let_star(s: CState, e: Val, items: Seq<Val>) -> Result<CState, ErrModel>
    decreases e, 3nat,
{
    if e != Val::SExpr(items) || items.len() != 3 {
        Ok(s)
    } else {
        proof {
            lemma_items_decrease(e, items);
        }
        match let_star_bindings(items[1]) {
            Err(x) => Err(x),
            Ok(bs) => {
                let parent = s.tail;
                match begin_scope(s) {
                    Ok(s1) => match gen_bindings_of(s1, items[1], bs) {
                        Ok(s2) => match gen(with_tail(s2, parent), items[2], parent) {
                            Ok(s3) => Ok(end_scope(s3)),
                            Err(x) => Err(x),
                        },
                        Err(x) => Err(x),
                    },
                    Err(x) => Err(x),
                }
            },
        }
    }
}

/// The bindings of a binding list `b` whose pairs are `bs`.
pub open spec fn gen_bindings_of(s: CState, b: Val, bs: Seq<Val>) -> Result<CState, ErrModel>
    decreases b, 2nat,
{
    match b {
        Val::SExpr(xs) => if xs == bs { gen_bindings(s, xs, xs.len()) } else { Ok(s) },
        _ => Ok(s),
    }
}

/// A quoted expression: symbols and lists are data; other values compile
/// as they are, in tail position when `keep` holds the current flag.
pub open spec fn gen_quoted(s: CState, e: Val, keep: bool) -> Result<CState, ErrModel>
    decreases e, 7nat,
{
    match e {
        Val::Atom(name) => emit_const(
            s,
            if starts_with(name, '$') { Opcode::PushVariable } else { Opcode::PushAtom },
            e,
        ),
        Val::SExpr(items) => match gen_quoted_range(s, items, items.len(), keep) {
            Ok(s1) => Ok(make_sexpr(s1, items.len())),
            Err(x) => Err(x),
        },
        _ => gen(s, e, if keep { s.tail } else { false }),
    }
}

/// The quoted elements `items[0..k]`.
pub open spec fn gen_quoted_range(s: CState, items: Seq<Val>, k: nat, keep: bool) -> Result<CState, ErrModel>
    decreases items, k,
{
    if k == 0 || k > items.len() {
        Ok(s)
    } else {
        match gen_quoted_range(s, items, (k - 1) as nat, keep) {
            Ok(s1) => gen_quoted(s1, items[k - 1], keep),
            Err(x) => Err(x),
        }
    }
}

/// Nondeterministic choice among alternatives.
pub open spec fn gen_superpose(s: CState, e: Val, items: Seq<Val>) -> Result<CState, ErrModel>
    decreases e, 3nat,
{
    if e != Val::SExpr(items) || items.len() != 2 {
        Ok(s)
    } else {
        proof {
            lemma_items_decrease(e, items);
        }
        match items[1] {
            Val::SExpr(alts) => if alts.len() == 0 {
                Ok(emit_op(s, Opcode::PushEmpty))
            } else if alts.len() == 1 {
                gen(s, alts[0], s.tail)
            } else {
                gen_fork(s, alts)
            },
            Val::Unit => Ok(emit_op(s, Opcode::PushEmpty)),
            _ => gen(s, items[1], s.tail),
        }
    }
}

/// The state in which a template is compiled: a fresh chunk whose locals
/// are the template parameters, in order.
pub open spec fn template_state(parent_name: Seq<char>, params: Seq<Seq<char>>) -> CState {
    CState {
        code: Seq::empty(),
        pool: Seq::empty(),
        lines: Seq::empty(),
        line: 1,
        name: parent_name + "_template"@,
        subs: Seq::empty(),
        ctx: declare_all(CtxModel::fresh(None), params, params.len()),
        tail: true,
    }
}

/// The context after declaring the first `k` names.
pub open spec fn declare_all(c: CtxModel, names: Seq<Seq<char>>, k: nat) -> CtxModel
    decreases k,
{
    if k == 0 || k > names.len() {
        c
    } else {
        declare_all(c, names, (k - 1) as nat).declare(names[k - 1])
    }
}

/// The chunk that a compiled template state gives, with its final Return.
pub open spec fn template_chunk(t: CState) -> ChunkModel {
    let t2 = emit_op(t, Opcode::Return);
    ChunkModel {
        code: t2.code,
        pool: t2.pool,
        lines: t2.lines,
        name: t2.name,
        locals: t2.ctx.next,
        upvalues: 0,
        arity: 0,
        vararg: false,
        tables: 0,
        subs: t2.subs,
    }
}

/// A template compiled to a sub-chunk, loaded with `op`.
pub open spec fn gen_template(s: CState, template: Val, params: Seq<Seq<char>>, op: Opcode) -> Result<CState, ErrModel>
    decreases template, 7nat,
{
    match gen(template_state(s.name, params), template, true) {
        Ok(t) => if s.subs.len() < 65536 {
            Ok(emit_op_u16(CState { subs: s.subs.push(template_chunk(t)), ..s }, op, s.subs.len() as u16))
        } else {
            Err(ErrModel::TooManyConstants)
        },
        Err(x) => Err(x),
    }
}

/// The name bound by a `$var` argument, or the error it gives.
pub open spec fn var_param(v: Val, msg: Seq<char>) -> Result<Seq<char>, ErrModel> {
    match v {
        Val::Atom(t) => if starts_with(t, '$') { Ok(t.drop_first()) } else { Err(ErrModel::InvalidExpression(msg)) },
        _ => Err(ErrModel::InvalidExpression(msg)),
    }
}

/// map-atom, filter-atom and foldl-atom: the list, the initial value of a
/// fold, then the template as a sub-chunk.
pub open spec fn gen_higher_order(s: CState, e: Val, op: Seq<char>, items: Seq<Val>) -> Result<CState, ErrModel>
    decreases e, 3nat,
{
    let n = (items.len() - 1) as nat;
    proof {
        if e == Val::SExpr(items) {
            lemma_items_decrease(e, items);
        }
    }
    if e != Val::SExpr(items) || items.len() == 0 {
        Ok(s)
    } else if op == "map-atom"@ || op == "filter-atom"@ {
        if n != 3 {
            Err(arity_error(op, 3, n))
        } else {
            let msg = if op == "map-atom"@ { "map-atom variable must be $var"@ } else { "filter-atom variable must be $var"@ };
            match var_param(items[2], msg) {
                Err(x) => Err(x),
                Ok(var) => match gen(s, items[1], false) {
                    Ok(s1) => gen_template(
                        s1,
                        items[3],
                        seq![var],
                        if op == "map-atom"@ { Opcode::MapAtom } else { Opcode::FilterAtom },
                    ),
                    Err(x) => Err(x),
                },
            }
        }
    } else {
        if n != 5 {
            Err(arity_error(op, 5, n))
        } else {
            match var_param(items[3], "foldl-atom accumulator must be $var"@) {
                Err(x) => Err(x),
                Ok(acc) => match var_param(items[4], "foldl-atom item must be $var"@) {
                    Err(x) => Err(x),
                    Ok(item) => match gen_range(s, items, 1, 3) {
                        Ok(s1) => gen_template(s1, items[5], seq![acc, item], Opcode::FoldlAtom),
                        Err(x) => Err(x),
                    },
                },
            }
        }
    }
}

/// Sequencing with a binding: expression, variable, body, cleanup.
pub open spec fn gen_chain(s: CState, e: Val, items: Seq<Val>) -> Result<CState, ErrModel>
    decreases e, 3nat,
{
    if e != Val::SExpr(items) || items.len() != 4 {
        Ok(s)
    } else {
        proof {
            lemma_items_decrease(e, items);
        }
        let parent = s.tail;
        match begin_scope(s) {
            Ok(s1) => match gen(s1, items[1], false) {
                Ok(s2) => match bind(s2, items[2]) {
                    Ok(s3) => match gen(with_tail(s3, parent), items[3], parent) {
                        Ok(s4) => Ok(end_scope(s4)),
                        Err(x) => Err(x),
                    },
                    Err(x) => Err(x),
                },
                Err(x) => Err(x),
            },
            Err(x) => Err(x),
        }
    }
}

/// A space query: the space, the quoted pattern and template, and an
/// optional default.
pub open spec fn gen_match(s: CState, e: Val, items: Seq<Val>) -> Result<CState, ErrModel>
    decreases e, 3nat,
{
    if e != Val::SExpr(items) || items.len() < 4 || items.len() > 5 {
        Ok(s)
    } else {
        proof {
            lemma_items_decrease(e, items);
        }
        match gen(s, items[1], false) {
            Ok(s1) => match gen_quoted(s1, items[2], false) {
                Ok(s2) => match gen_quoted(s2, items[3], false) {
                    Ok(s3) => if items.len() == 5 {
                        match gen(s3, items[4], false) {
                            Ok(s4) => Ok(emit_op(emit_op_u8(s4, Opcode::MakeSExpr, 4), Opcode::EvalMatch)),
                            Err(x) => Err(x),
                        }
                    } else {
                        Ok(emit_op(emit_op_u8(s3, Opcode::MakeSExpr, 3), Opcode::EvalMatch))
                    },
                    Err(x) => Err(x),
                },
                Err(x) => Err(x),
            },
            Err(x) => Err(x),
        }
    }
}

/// Unification with a success and a failure branch.
pub open spec fn gen_unify(s: CState, e: Val, items: Seq<Val>) -> Result<CState, ErrModel>
    decreases e, 3nat,
{
    if e != Val::SExpr(items) || items.len() != 5 {
        Ok(s)
    } else {
        proof {
            lemma_items_decrease(e, items);
        }
        let parent = s.tail;
        match gen_range(s, items, 1, 3) {
            Ok(s1) => {
                let (s2, failure_jump) = emit_jump(emit_op(s1, Opcode::UnifyBind), Opcode::JumpIfFalse);
                match gen(with_tail(s2, parent), items[3], parent) {
                    Ok(s3) => {
                        let (s4, done_jump) = emit_jump(s3, Opcode::Jump);
                        match gen(with_tail(patch(s4, failure_jump), parent), items[4], parent) {
                            Ok(s5) => Ok(patch(s5, done_jump)),
                            Err(x) => Err(x),
                        }
                    },
                    Err(x) => Err(x),
                }
            },
            Err(x) => Err(x),
        }
    }
}

/// The branches of a `case`, or the error that its branch list gives.
pub open spec fn case_branches(b: Val) -> Result<Seq<Val>, ErrModel> {
    match b {
        Val::SExpr(cs) => if pairs_ok(cs) {
            Ok(cs)
        } else {
            Err(ErrModel::InvalidExpression("case branch must be (pattern result)"@))
        },
        _ => Err(ErrModel::InvalidExpression("case branches must be an S-expression"@)),
    }
}

/// Every jump of a list patched to the current end of the code, in order.
pub open spec fn patch_all(s: CState, ends: Seq<nat>) -> CState
    decreases ends.len(),
{
    if ends.len() == 0 {
        s
    } else {
        patch(patch_all(s, ends.drop_last()), ends.last())
    }
}

/// The branches of a `case` from the `i`-th on, each tried in turn against
/// the scrutinee; `ends` are the jumps out of the branches before, which go
/// to the end of the whole `case`.
pub open spec fn case_rest(s: CState, cs: Seq<Val>, i: nat, ends: Seq<nat>, parent: bool) -> Result<CState, ErrModel>
    decreases cs, cs.len() - i,
{
    if i >= cs.len() {
        Ok(patch_all(s, ends))
    } else {
        match cs[i as int] {
            Val::SExpr(pair) => if pair.len() == 2 {
                match gen_quoted(emit_op(s, Opcode::Dup), pair[0], true) {
                    Ok(s2) => {
                        let (s3, next) = emit_jump(emit_op(s2, Opcode::MatchBind), Opcode::JumpIfFalse);
                        match gen(emit_op(s3, Opcode::Pop), pair[1], parent) {
                            Ok(s4) => {
                                let (s5, end) = emit_jump(s4, Opcode::Jump);
                                case_rest(patch(s5, next), cs, i + 1, ends.push(end), parent)
                            },
                            Err(x) => Err(x),
                        }
                    },
                    Err(x) => Err(x),
                }
            } else {
                case_rest(s, cs, i + 1, ends, parent)
            },
            _ => case_rest(s, cs, i + 1, ends, parent),
        }
    }
}

/// The end of the `i`-th branch of a `case`, after its result: the jump
/// out of the `case`, the target of the failed test, and the branches after.
pub open spec fn case_arm_end(s: CState, next: nat, cs: Seq<Val>, i: nat, ends: Seq<nat>, parent: bool) -> Result<
    CState,
    ErrModel,
> {
    let (s5, end) = emit_jump(s, Opcode::Jump);
    case_rest(patch(s5, next), cs, i + 1, ends.push(end), parent)
}

/// Pattern dispatch on a scrutinee.
pub open spec fn gen_case(s: CState, e: Val, items: Seq<Val>) -> Result<CState, ErrModel>
    decreases e, 3nat,
{
    if e != Val::SExpr(items) || items.len() != 3 {
        Ok(s)
    } else {
        proof {
            lemma_items_decrease(e, items);
        }
        match case_branches(items[2]) {
            Err(x) => Err(x),
            Ok(cs) => {
                let parent = s.tail;
                match gen(s, items[1], false) {
                    Ok(s1) => gen_branches_of(s1, items[2], cs, parent),
                    Err(x) => Err(x),
                }
            },
        }
    }
}

/// The branches of a branch list `b` whose pairs are `cs`.
pub open spec fn gen_branches_of(s: CState, b: Val, cs: Seq<Val>, parent: bool) -> Result<CState, ErrModel>
    decreases b, 2nat,
{
    match b {
        Val::SExpr(xs) => if xs == cs { case_rest(s, xs, 0, Seq::empty(), parent) } else { Ok(s) },
        _ => Ok(s),
    }
}

/// An error test: true exactly when the expression gives an error.
pub open spec fn gen_is_error(s: CState, e: Val, items: Seq<Val>) -> Result<CState, ErrModel>
    decreases e, 3nat,
{
    if e != Val::SExpr(items) || items.len() != 2 {
        Ok(s)
    } else {
        proof {
            lemma_items_decrease(e, items);
        }
        match gen(s, items[1], false) {
            Ok(s1) => {
                let (s2, not_error) = emit_jump(s1, Opcode::JumpIfError);
                let (s3, done) = emit_jump(emit_op(s2, Opcode::PushFalse), Opcode::Jump);
                Ok(patch(emit_op(patch(s3, not_error), Opcode::PushTrue), done))
            },
            Err(x) => Err(x),
        }
    }
}

/// Error recovery: the expression, or the default when it gives an error.
pub open spec fn gen_catch(s: CState, e: Val, items: Seq<Val>) -> Result<CState, ErrModel>
    decreases e, 3nat,
{
    if e != Val::SExpr(items) || items.len() != 3 {
        Ok(s)
    } else {
        proof {
            lemma_items_decrease(e, items);
        }
        match gen(s, items[1], false) {
            Ok(s1) => {
                let (s2, no_error) = emit_jump(s1, Opcode::JumpIfError);
                let (s3, done) = emit_jump(s2, Opcode::Jump);
                let s4 = emit_op(patch(s3, no_error), Opcode::Pop);
                match gen(s4, items[2], s4.tail) {
                    Ok(s5) => Ok(patch(s5, done)),
                    Err(x) => Err(x),
                }
            },
            Err(x) => Err(x),
        }
    }
}

/// A rule definition, kept as the data `(= lhs rhs)`.
pub open spec fn gen_rule(s: CState, e: Val, items: Seq<Val>) -> Result<CState, ErrModel>
    decreases e, 3nat,
{
    if e != Val::SExpr(items) || items.len() != 3 {
        Ok(s)
    } else {
        proof {
            lemma_items_decrease(e, items);
        }
        match emit_const(s, Opcode::PushAtom, Val::Atom("="@)) {
            Ok(s1) => match gen_quoted(s1, items[1], false) {
                Ok(s2) => match gen_quoted(s2, items[2], false) {
                    Ok(s3) => Ok(emit_op_u8(s3, Opcode::MakeSExpr, 3)),
                    Err(x) => Err(x),
                },
                Err(x) => Err(x),
            },
            Err(x) => Err(x),
        }
    }
}

/// Printing, kept as the data `(println! value)` for the machine.
pub open spec fn gen_println(s: CState, e: Val, items: Seq<Val>) -> Result<CState, ErrModel>
    decreases e, 3nat,
{
    if e != Val::SExpr(items) || items.len() != 2 {
        Ok(s)
    } else {
        proof {
            lemma_items_decrease(e, items);
        }
        match emit_const(s, Opcode::PushAtom, Val::Atom("println!"@)) {
            Ok(s1) => match gen(s1, items[1], false) {
                Ok(s2) => Ok(emit_op_u8(emit_op(s2, Opcode::Swap), Opcode::MakeSExpr, 2)),
                Err(x) => Err(x),
            },
            Err(x) => Err(x),
        }
    }
}

} // verus!
