//! Constant folding: evaluation of constant expressions at compile time.
//!
//! Integer arithmetic wraps in two's complement as the runtime does, except
//! that `abs` and `pow` fold only when the result is representable. Division
//! and remainder by zero are left to the runtime. Floating-point operands are
//! never folded here: such expressions are compiled to their runtime opcodes.

use vstd::prelude::*;
use vstd::string::StrSliceExecFns;

use crate::text::str_eq;
use crate::value::{MettaValue, Val, seq_view, lemma_sexpr_view};

verus! {

broadcast use vstd::string::group_string_axioms;

/// Two's-complement quotient truncated toward zero, wrapping on overflow.
pub open spec fn wrapping_div(x: i64, y: i64) -> i64 {
    match x.checked_div(y) {
        Some(q) => q,
        None => i64::MIN,
    }
}

/// Two's-complement remainder, wrapping on overflow.
pub open spec fn wrapping_rem(x: i64, y: i64) -> i64 {
    match x.checked_rem(y) {
        Some(r) => r,
        None => 0,
    }
}

/// Euclidean quotient, wrapping on overflow.
pub open spec fn wrapping_div_euclid(x: i64, y: i64) -> i64 {
    match x.checked_div_euclid(y) {
        Some(q) => q,
        None => i64::MIN,
    }
}

/// `b` raised to the natural power `e`.
pub open spec fn int_pow(b: int, e: nat) -> int
    decreases e,
{
    if e == 0 {
        1
    } else {
        b * int_pow(b, (e - 1) as nat)
    }
}

/// `x` raised to `e`, when the result is representable.
pub open spec fn checked_pow(x: i64, e: u32) -> Option<i64> {
    let p = int_pow(x as int, e as nat);
    if i64::MIN <= p <= i64::MAX {
        Some(p as i64)
    } else {
        None
    }
}

/// Negation, wrapping on overflow.
pub open spec fn wrapping_neg(x: i64) -> i64 {
    if x == i64::MIN {
        i64::MIN
    } else {
        (-x) as i64
    }
}

/// Lexicographic order of character sequences, by code point.
pub open spec fn text_less(a: Seq<char>, b: Seq<char>) -> bool
    decreases a.len(),
{
    if a.len() == 0 {
        b.len() > 0
    } else if b.len() == 0 {
        false
    } else if a[0] != b[0] {
        (a[0] as u32) < (b[0] as u32)
    } else {
        text_less(a.drop_first(), b.drop_first())
    }
}

/// The order of texts is a strict total order.
pub proof fn lemma_text_less_order(a: Seq<char>, b: Seq<char>, c: Seq<char>)
    ensures
        !text_less(a, a),
        text_less(a, b) ==> !text_less(b, a),
        text_less(a, b) && text_less(b, c) ==> text_less(a, c),
        a != b ==> text_less(a, b) || text_less(b, a),
    decreases a.len(),
{
    if a.len() > 0 && b.len() > 0 && c.len() > 0 {
        lemma_text_less_order(a.drop_first(), b.drop_first(), c.drop_first());
    } else if a.len() > 0 && b.len() > 0 {
        lemma_text_less_order(a.drop_first(), b.drop_first(), b.drop_first());
    } else if a.len() > 0 {
        lemma_text_less_order(a.drop_first(), a.drop_first(), a.drop_first());
    }
    if a.len() == 0 && b.len() == 0 {
        assert(a =~= b);
    }
    if a.len() > 0 && b.len() > 0 && a[0] != b[0] {
        let x: char = a[0];
        let y: char = b[0];
        vstd::utf8::char_u32_cast(x, x as u32);
        vstd::utf8::char_u32_cast(y, y as u32);
        assert((x as u32) != (y as u32));
    }
    if a.len() > 0 && b.len() > 0 && a[0] == b[0] && a.drop_first() == b.drop_first() {
        assert(a =~= b) by {
            assert forall|i: int| 0 <= i < a.len() implies a[i] == b[i] by {
                if i > 0 {
                    assert(a[i] == a.drop_first()[i - 1]);
                    assert(b[i] == b.drop_first()[i - 1]);
                }
            }
        }
    }
}

/// Folding of a binary arithmetic operation on constants.
pub open spec fn fold_binary(op: Seq<char>, a: Val, b: Val) -> Option<Val> {
    match (a, b) {
        (Val::Long(x), Val::Long(y)) => {
            if op == "+"@ {
                Some(Val::Long(x.wrapping_add(y)))
            } else if op == "-"@ {
                Some(Val::Long(x.wrapping_sub(y)))
            } else if op == "*"@ {
                Some(Val::Long(x.wrapping_mul(y)))
            } else if op == "/"@ {
                if y != 0 { Some(Val::Long(wrapping_div(x, y))) } else { None }
            } else if op == "%"@ || op == "mod"@ {
                if y != 0 { Some(Val::Long(wrapping_rem(x, y))) } else { None }
            } else if op == "pow"@ {
                if y >= 0 {
                    match checked_pow(x, y as u32) {
                        Some(p) => Some(Val::Long(p)),
                        None => None,
                    }
                } else {
                    None
                }
            } else if op == "floor-div"@ {
                if y != 0 { Some(Val::Long(wrapping_div_euclid(x, y))) } else { None }
            } else {
                None
            }
        },
        _ => None,
    }
}

/// The Euclidean quotient of two integers is representable unless it is
/// the one overflowing case.
proof fn lemma_euclid_quotient_fits(x: i64, y: i64)
    requires
        y != 0,
        !(x == i64::MIN && y == -1),
    ensures
        i64::MIN <= x as int / y as int <= i64::MAX,
{
    let xi = x as int;
    let yi = y as int;
    let q = xi / yi;
    let r = xi % yi;
    assert(xi == q * yi + r && 0 <= r && (yi > 0 ==> r < yi) && (yi < 0 ==> r < -yi)) by (nonlinear_arith)
        requires
            yi != 0,
            q == xi / yi,
            r == xi % yi,
    ;
    if yi == 1 {
        assert(q == xi) by (nonlinear_arith)
            requires
                xi == q * yi + r,
                yi == 1,
                0 <= r < 1,
        ;
    } else if yi == -1 {
        assert(q == -xi) by (nonlinear_arith)
            requires
                xi == q * yi + r,
                yi == -1,
                0 <= r < 1,
        ;
    } else if yi >= 2 {
        assert(i64::MIN <= q <= i64::MAX) by (nonlinear_arith)
            requires
                xi == q * yi + r,
                yi >= 2,
                0 <= r < yi,
                i64::MIN <= xi <= i64::MAX,
        ;
    } else {
        assert(i64::MIN <= q <= i64::MAX) by (nonlinear_arith)
            requires
                xi == q * yi + r,
                yi <= -2,
                0 <= r < -yi,
                i64::MIN <= xi <= i64::MAX,
        ;
    }
}

/// Folding `floor-div` gives the Euclidean quotient: for a non-zero divisor
/// and no overflow, the quotient `q` leaves a remainder `x - q * y` with
/// `0 <= x - q * y < |y|`; a zero divisor is not folded.
pub proof fn lemma_floor_div_folds_euclidean(x: i64, y: i64)
    ensures
        y == 0 ==> fold_binary("floor-div"@, Val::Long(x), Val::Long(y)) is None,
        y != 0 && !(x == i64::MIN && y == -1) ==> (match fold_binary("floor-div"@, Val::Long(x), Val::Long(y)) {
            Some(Val::Long(q)) => 0 <= x - q * y && x - q * y < (if y < 0 { -y } else { y as int }),
            _ => false,
        }),
{
    broadcast use vstd::string::group_string_axioms;

    reveal_strlit("floor-div");
    reveal_strlit("+");
    reveal_strlit("-");
    reveal_strlit("*");
    reveal_strlit("/");
    reveal_strlit("%");
    reveal_strlit("mod");
    reveal_strlit("pow");
    assert("+"@.len() != "floor-div"@.len());
    assert("-"@.len() != "floor-div"@.len());
    assert("*"@.len() != "floor-div"@.len());
    assert("/"@.len() != "floor-div"@.len());
    assert("%"@.len() != "floor-div"@.len());
    assert("mod"@.len() != "floor-div"@.len());
    assert("pow"@.len() != "floor-div"@.len());
    if y != 0 && !(x == i64::MIN && y == -1) {
        lemma_euclid_quotient_fits(x, y);
        let xi = x as int;
        let yi = y as int;
        let q = xi / yi;
        assert(0 <= xi - q * yi && xi - q * yi < (if yi < 0 { -yi } else { yi })) by (nonlinear_arith)
            requires
                yi != 0,
                q == xi / yi,
        ;
    }
}

/// Truncating division of integers: the quotient and remainder recompose
/// the dividend, the remainder is smaller than the divisor and has the sign
/// of the dividend.
proof fn lemma_truncating_division(x: i64, y: i64)
    requires
        y != 0,
        !(x == i64::MIN && y == -1),
    ensures
        ({
            let q = x.checked_div(y);
            let r = x.checked_rem(y);
            &&& q is Some && r is Some
            &&& x == q->Some_0 * y + r->Some_0
            &&& (if r->Some_0 < 0 { -r->Some_0 } else { r->Some_0 as int }) < (if y < 0 { -y } else { y as int })
            &&& (r->Some_0 == 0 || (r->Some_0 < 0) == (x < 0))
        }),
{
    let xi = x as int;
    let d = y as int;
    if xi == 0 {
    } else if xi > 0 && d > 0 {
        assert(xi == (xi / d) * d + xi % d && 0 <= xi % d < d && 0 <= xi / d <= xi) by (nonlinear_arith)
            requires
                xi > 0,
                d > 0,
        ;
    } else if xi < 0 && d < 0 {
        let a = xi * -1;
        let b = d * -1;
        assert(a == (a / b) * b + a % b && 0 <= a % b < b && 0 <= a / b <= a) by (nonlinear_arith)
            requires
                a > 0,
                b > 0,
        ;
        assert(xi == (a / b) * d + (a % b) * -1) by (nonlinear_arith)
            requires
                a == (a / b) * b + a % b,
                a == xi * -1,
                b == d * -1,
        ;
    } else if xi < 0 {
        let a = xi * -1;
        assert(a == (a / d) * d + a % d && 0 <= a % d < d && 0 <= a / d <= a) by (nonlinear_arith)
            requires
                a > 0,
                d > 0,
        ;
        assert(xi == ((a / d) * -1) * d + (a % d) * -1) by (nonlinear_arith)
            requires
                a == (a / d) * d + a % d,
                a == xi * -1,
        ;
    } else {
        let b = d * -1;
        assert(xi == (xi / b) * b + xi % b && 0 <= xi % b < b && 0 <= xi / b <= xi) by (nonlinear_arith)
            requires
                xi > 0,
                b > 0,
        ;
        assert(xi == ((xi / b) * -1) * d + xi % b) by (nonlinear_arith)
            requires
                xi == (xi / b) * b + xi % b,
                b == d * -1,
        ;
    }
}

/// Folding of integer arithmetic computes the operation: sums, differences
/// and products are exact when they fit; for a non-zero divisor without
/// overflow, `/` and `%` (and `mod`) give a quotient and remainder that
/// recompose the dividend, with the remainder smaller than the divisor and
/// of the dividend's sign; a zero divisor is not folded.
pub proof fn lemma_integer_arithmetic_folds(x: i64, y: i64)
    ensures
        i64::MIN <= x + y <= i64::MAX ==> fold_binary("+"@, Val::Long(x), Val::Long(y)) == Some(
            Val::Long((x + y) as i64),
        ),
        i64::MIN <= x - y <= i64::MAX ==> fold_binary("-"@, Val::Long(x), Val::Long(y)) == Some(
            Val::Long((x - y) as i64),
        ),
        i64::MIN <= x * y <= i64::MAX ==> fold_binary("*"@, Val::Long(x), Val::Long(y)) == Some(
            Val::Long((x * y) as i64),
        ),
        y == 0 ==> fold_binary("/"@, Val::Long(x), Val::Long(y)) is None && fold_binary(
            "%"@,
            Val::Long(x),
            Val::Long(y),
        ) is None,
        fold_binary("mod"@, Val::Long(x), Val::Long(y)) == fold_binary("%"@, Val::Long(x), Val::Long(y)),
        y != 0 && !(x == i64::MIN && y == -1) ==> (match (
            fold_binary("/"@, Val::Long(x), Val::Long(y)),
            fold_binary("%"@, Val::Long(x), Val::Long(y)),
        ) {
            (Some(Val::Long(q)), Some(Val::Long(r))) => x == q * y + r && (if r < 0 { -r } else { r as int }) < (
            if y < 0 { -y } else { y as int }) && (r == 0 || (r < 0) == (x < 0)),
            _ => false,
        }),
{
    broadcast use vstd::string::group_string_axioms;

    reveal_strlit("+");
    reveal_strlit("-");
    reveal_strlit("*");
    reveal_strlit("/");
    reveal_strlit("%");
    reveal_strlit("mod");
    assert("+"@[0] != "-"@[0]);
    assert("+"@[0] != "*"@[0]);
    assert("-"@[0] != "*"@[0]);
    assert("+"@[0] != "/"@[0]);
    assert("-"@[0] != "/"@[0]);
    assert("*"@[0] != "/"@[0]);
    assert("+"@[0] != "%"@[0]);
    assert("-"@[0] != "%"@[0]);
    assert("*"@[0] != "%"@[0]);
    assert("/"@[0] != "%"@[0]);
    assert("+"@.len() != "mod"@.len());
    assert("-"@.len() != "mod"@.len());
    assert("*"@.len() != "mod"@.len());
    assert("/"@.len() != "mod"@.len());
    assert("%"@.len() != "mod"@.len());
    if y != 0 && !(x == i64::MIN && y == -1) {
        lemma_truncating_division(x, y);
    }
}

/// Folding a comparison of integers gives its truth value.
pub proof fn lemma_integer_comparisons_fold(x: i64, y: i64)
    ensures
        fold_comparison("<"@, Val::Long(x), Val::Long(y)) == Some(Val::Bool(x < y)),
        fold_comparison("<="@, Val::Long(x), Val::Long(y)) == Some(Val::Bool(x <= y)),
        fold_comparison(">"@, Val::Long(x), Val::Long(y)) == Some(Val::Bool(x > y)),
        fold_comparison(">="@, Val::Long(x), Val::Long(y)) == Some(Val::Bool(x >= y)),
        fold_comparison("=="@, Val::Long(x), Val::Long(y)) == Some(Val::Bool(x == y)),
        fold_comparison("!="@, Val::Long(x), Val::Long(y)) == Some(Val::Bool(x != y)),
{
    broadcast use vstd::string::group_string_axioms;

    reveal_strlit("<");
    reveal_strlit("<=");
    reveal_strlit(">");
    reveal_strlit(">=");
    reveal_strlit("==");
    reveal_strlit("!=");
    assert("<"@.len() != "<="@.len());
    assert("<"@[0] != ">"@[0]);
    assert("<="@[0] != ">"@[0]);
    assert("<"@.len() != ">="@.len());
    assert("<="@[0] != ">="@[0]);
    assert(">"@.len() != ">="@.len());
    assert("<"@.len() != "=="@.len());
    assert("<="@[0] != "=="@[0]);
    assert(">"@.len() != "=="@.len());
    assert(">="@[0] != "=="@[0]);
    assert("<"@.len() != "!="@.len());
    assert("<="@[0] != "!="@[0]);
    assert(">"@.len() != "!="@.len());
    assert(">="@[0] != "!="@[0]);
    assert("=="@[0] != "!="@[0]);
}

/// Folding the logical operations on booleans gives their truth tables.
pub proof fn lemma_boolean_folds(a: bool, b: bool)
    ensures
        fold_boolean("and"@, seq![Val::Bool(a), Val::Bool(b)]) == Some(Val::Bool(a && b)),
        fold_boolean("or"@, seq![Val::Bool(a), Val::Bool(b)]) == Some(Val::Bool(a || b)),
        fold_boolean("xor"@, seq![Val::Bool(a), Val::Bool(b)]) == Some(Val::Bool(a != b)),
        fold_boolean("not"@, seq![Val::Bool(a)]) == Some(Val::Bool(!a)),
{
    broadcast use vstd::string::group_string_axioms;

    reveal_strlit("and");
    reveal_strlit("or");
    reveal_strlit("xor");
    reveal_strlit("not");
    assert("and"@.len() != "or"@.len());
    assert("and"@[0] != "xor"@[0]);
    assert("or"@.len() != "xor"@.len());
    assert("and"@[0] != "not"@[0]);
    assert("or"@.len() != "not"@.len());
    assert("xor"@[0] != "not"@[0]);
}

/// Folding negation and absolute value of an integer other than the
/// minimum gives `-x` and `|x|`.
pub proof fn lemma_integer_sign_folds(x: i64)
    requires
        x != i64::MIN,
    ensures
        fold_unary("neg"@, Val::Long(x)) == Some(Val::Long((-x) as i64)),
        fold_unary("abs"@, Val::Long(x)) == Some(Val::Long((if x < 0 { -x } else { x as int }) as i64)),
        fold_unary("abs-math"@, Val::Long(x)) == fold_unary("abs"@, Val::Long(x)),
{
    broadcast use vstd::string::group_string_axioms;

    reveal_strlit("neg");
    reveal_strlit("abs");
    reveal_strlit("abs-math");
    assert("abs"@[0] != "neg"@[0]);
    assert("abs-math"@.len() != "neg"@.len());
}

/// Folding of a unary arithmetic operation on a constant.
pub open spec fn fold_unary(op: Seq<char>, a: Val) -> Option<Val> {
    match a {
        Val::Long(x) => {
            if op == "abs"@ || op == "abs-math"@ {
                if x < 0 { Some(Val::Long(wrapping_neg(x))) } else { Some(Val::Long(x)) }
            } else if op == "neg"@ {
                Some(Val::Long(wrapping_neg(x)))
            } else {
                None
            }
        },
        _ => None,
    }
}

/// The outcome of an ordering comparison, given `less` and `equal`.
pub open spec fn order_outcome(op: Seq<char>, less: bool, equal: bool) -> Option<Val> {
    if op == "<"@ {
        Some(Val::Bool(less))
    } else if op == "<="@ {
        Some(Val::Bool(less || equal))
    } else if op == ">"@ {
        Some(Val::Bool(!less && !equal))
    } else if op == ">="@ {
        Some(Val::Bool(!less))
    } else if op == "=="@ {
        Some(Val::Bool(equal))
    } else if op == "!="@ {
        Some(Val::Bool(!equal))
    } else {
        None
    }
}

/// The outcome of an equality comparison.
pub open spec fn equality_outcome(op: Seq<char>, equal: bool) -> Option<Val> {
    if op == "=="@ {
        Some(Val::Bool(equal))
    } else if op == "!="@ {
        Some(Val::Bool(!equal))
    } else {
        None
    }
}

/// Folding of a comparison on constants.
pub open spec fn fold_comparison(op: Seq<char>, a: Val, b: Val) -> Option<Val> {
    match (a, b) {
        (Val::Long(x), Val::Long(y)) => order_outcome(op, x < y, x == y),
        (Val::Bool(x), Val::Bool(y)) => equality_outcome(op, x == y),
        (Val::Str(x), Val::Str(y)) => order_outcome(op, text_less(x, y), x == y),
        (Val::Unit, Val::Unit) => equality_outcome(op, true),
        _ => None,
    }
}

/// Folding of a boolean operation on constants; only booleans fold.
pub open spec fn fold_boolean(op: Seq<char>, args: Seq<Val>) -> Option<Val> {
    if op == "and"@ || op == "or"@ || op == "xor"@ {
        if args.len() != 2 {
            None
        } else {
            match (args[0], args[1]) {
                (Val::Bool(x), Val::Bool(y)) => Some(Val::Bool(
                    if op == "and"@ { x && y } else if op == "or"@ { x || y } else { x != y },
                )),
                _ => None,
            }
        }
    } else if op == "not"@ {
        if args.len() != 1 {
            None
        } else {
            match args[0] {
                Val::Bool(x) => Some(Val::Bool(!x)),
                _ => None,
            }
        }
    } else {
        None
    }
}

/// Whether `op` names a binary arithmetic operation that folding evaluates.
pub open spec fn is_binary_arith_name(op: Seq<char>) -> bool {
    op == "+"@ || op == "-"@ || op == "*"@ || op == "/"@ || op == "%"@ || op == "mod"@
        || op == "pow"@ || op == "pow-math"@ || op == "floor-div"@
}

/// Whether `op` names a unary arithmetic operation that folding evaluates.
pub open spec fn is_unary_arith_name(op: Seq<char>) -> bool {
    op == "abs"@ || op == "abs-math"@ || op == "neg"@
}

/// Whether `op` names a comparison.
pub open spec fn is_comparison_name(op: Seq<char>) -> bool {
    op == "<"@ || op == "<="@ || op == ">"@ || op == ">="@ || op == "=="@ || op == "!="@
}

/// The compile-time value of an expression, if it is constant.
pub open spec fn eval_const(v: Val) -> Option<Val>
    decreases v, 0nat,
{
    match v {
        Val::Long(_) | Val::Float(_) | Val::Bool(_) | Val::Unit | Val::Str(_) => Some(v),
        Val::SExpr(items) => {
            if items.len() == 0 {
                None
            } else {
                match items[0] {
                    Val::Atom(op) => {
                        let n = items.len() - 1;
                        if is_binary_arith_name(op) && n == 2 {
                            match (eval_const(items[1]), eval_const(items[2])) {
                                (Some(a), Some(b)) => fold_binary(op, a, b),
                                _ => None,
                            }
                        } else if is_unary_arith_name(op) && n == 1 {
                            match eval_const(items[1]) {
                                Some(a) => fold_unary(op, a),
                                None => None,
                            }
                        } else if is_comparison_name(op) && n == 2 {
                            match (eval_const(items[1]), eval_const(items[2])) {
                                (Some(a), Some(b)) => fold_comparison(op, a, b),
                                _ => None,
                            }
                        } else if (op == "and"@ || op == "or"@) && n >= 2 {
                            match eval_args(items, items.len()) {
                                Some(cs) => fold_boolean(op, cs),
                                None => None,
                            }
                        } else if op == "not"@ && n == 1 {
                            match eval_const(items[1]) {
                                Some(a) => fold_boolean("not"@, seq![a]),
                                None => None,
                            }
                        } else if op == "if"@ && n == 3 {
                            match eval_const(items[1]) {
                                Some(Val::Bool(true)) => eval_const(items[2]),
                                Some(Val::Bool(false)) => eval_const(items[3]),
                                _ => None,
                            }
                        } else {
                            None
                        }
                    },
                    _ => None,
                }
            }
        },
        _ => None,
    }
}

/// The compile-time values of `items[1..k]`, if all are constant.
pub open spec fn eval_args(items: Seq<Val>, k: nat) -> Option<Seq<Val>>
    decreases items, k,
{
    if k <= 1 || k > items.len() {
        if k <= 1 { Some(Seq::empty()) } else { None }
    } else {
        match eval_args(items, (k - 1) as nat) {
            Some(vs) => match eval_const(items[k - 1]) {
                Some(c) => Some(vs.push(c)),
                None => None,
            },
            None => None,
        }
    }
}

/// The compile-time values of all of `args`, if all are constant.
pub open spec fn eval_all(args: Seq<Val>) -> Option<Seq<Val>>
    decreases args.len(),
{
    if args.len() == 0 {
        Some(Seq::empty())
    } else {
        match (eval_all(args.drop_last()), eval_const(args.last())) {
            (Some(vs), Some(c)) => Some(vs.push(c)),
            _ => None,
        }
    }
}

/// The model of an optional value.
pub open spec fn opt_view(r: Option<MettaValue>) -> Option<Val> {
    match r {
        Some(v) => Some(v@),
        None => None,
    }
}

fn long(x: i64) -> (r: Option<MettaValue>)
    ensures
        opt_view(r) == Some(Val::Long(x)),
{
    Some(MettaValue::Long(x))
}

fn boolean(b: bool) -> (r: Option<MettaValue>)
    ensures
        opt_view(r) == Some(Val::Bool(b)),
{
    Some(MettaValue::Bool(b))
}

/// `x` raised to `e`, or `None` on overflow.
fn pow_checked(x: i64, e: u32) -> (r: Option<i64>)
    ensures
        r == checked_pow(x, e),
{
    if e == 0 {
        return Some(1);
    }
    if x == 0 {
        proof { lemma_pow_zero_base(e as nat); }
        return Some(0);
    }
    if x == 1 {
        proof { lemma_pow_one_base(e as nat); }
        return Some(1);
    }
    if x == -1 {
        proof { lemma_pow_minus_one_base(e as nat); }
        if e % 2 == 0 {
            return Some(1);
        } else {
            return Some(-1);
        }
    }
    let mut acc: i64 = 1;
    let mut i: u32 = 0;
    while i < e
        invariant
            0 <= i <= e,
            acc as int == int_pow(x as int, i as nat),
            x < -1 || x > 1,
        decreases e - i,
    {
        proof { reveal_with_fuel(int_pow, 2); }
        match acc.checked_mul(x) {
            Some(m) => {
                acc = m;
                i = i + 1;
                assert(acc as int == int_pow(x as int, i as nat)) by {
                    assert(int_pow(x as int, i as nat) == x * int_pow(x as int, (i - 1) as nat));
                    assert(acc == int_pow(x as int, (i - 1) as nat) * x) by (nonlinear_arith)
                        requires acc == m, m == (int_pow(x as int, (i - 1) as nat) * x);
                }
            },
            None => {
                proof {
                    let q = int_pow(x as int, (i + 1) as nat);
                    assert(q == x * int_pow(x as int, i as nat));
                    assert(x * int_pow(x as int, i as nat) == int_pow(x as int, i as nat) * x) by (nonlinear_arith);
                    assert(abs_int(q) >= 0x8000_0000_0000_0000);
                    if e > i + 1 {
                        lemma_pow_abs_grows(x as int, (i + 2) as nat, e as nat);
                        assert(int_pow(x as int, (i + 2) as nat) == x * q);
                        assert(abs_int(x * q) >= 2 * abs_int(q)) by (nonlinear_arith)
                            requires x < -1 || x > 1;
                    }
                }
                return None;
            },
        }
    }
    Some(acc)
}

/// Absolute value.
pub open spec fn abs_int(x: int) -> int {
    if x < 0 { -x } else { x }
}

/// Powers of a base of magnitude at least two grow in magnitude.
proof fn lemma_pow_abs_grows(x: int, k: nat, e: nat)
    requires
        x < -1 || x > 1,
        k <= e,
    ensures
        abs_int(int_pow(x, k)) <= abs_int(int_pow(x, e)),
    decreases e - k,
{
    if k < e {
        lemma_pow_abs_grows(x, k, (e - 1) as nat);
        reveal_with_fuel(int_pow, 2);
        assert(int_pow(x, e) == x * int_pow(x, (e - 1) as nat));
        let p = int_pow(x, (e - 1) as nat);
        assert(abs_int(x * p) >= abs_int(p)) by (nonlinear_arith)
            requires x < -1 || x > 1;
    }
}

proof fn lemma_pow_zero_base(e: nat)
    requires
        e > 0,
    ensures
        int_pow(0, e) == 0,
{
    reveal_with_fuel(int_pow, 2);
}

proof fn lemma_pow_one_base(e: nat)
    ensures
        int_pow(1, e) == 1,
    decreases e,
{
    if e > 0 {
        lemma_pow_one_base((e - 1) as nat);
    }
}

proof fn lemma_pow_minus_one_base(e: nat)
    ensures
        int_pow(-1, e) == if e % 2 == 0 { 1int } else { -1int },
    decreases e,
{
    if e > 0 {
        lemma_pow_minus_one_base((e - 1) as nat);
    }
}

/// Lexicographic comparison of two texts.
pub(crate) fn text_lt(a: &str, b: &str) -> (r: bool)
    ensures
        r == text_less(a@, b@),
{
    let n = a.unicode_len();
    let m = b.unicode_len();
    let mut i: usize = 0;
    proof {
        assert(a@.skip(0) =~= a@);
        assert(b@.skip(0) =~= b@);
    }
    while i < n && i < m
        invariant
            n == a@.len(),
            m == b@.len(),
            0 <= i <= n,
            i <= m,
            text_less(a@, b@) == text_less(a@.skip(i as int), b@.skip(i as int)),
        decreases n - i,
    {
        let ca = a.get_char(i);
        let cb = b.get_char(i);
        proof {
            assert(a@.skip(i as int)[0] == ca);
            assert(b@.skip(i as int)[0] == cb);
            assert(a@.skip(i as int).drop_first() =~= a@.skip(i as int + 1));
            assert(b@.skip(i as int).drop_first() =~= b@.skip(i as int + 1));
        }
        if ca != cb {
            return (ca as u32) < (cb as u32);
        }
        i = i + 1;
    }
    proof {
        if i == n {
            assert(a@.skip(i as int).len() == 0);
        } else {
            assert(b@.skip(i as int).len() == 0);
        }
    }
    i == n && i < m
}

/// Fold a binary arithmetic operation on values that are already constant.
pub fn try_fold_binary_arith_values(op: &str, a: &MettaValue, b: &MettaValue) -> (r: Option<MettaValue>)
    ensures
        opt_view(r) == fold_binary(op@, a@, b@),
{
    match (a, b) {
        (MettaValue::Long(x), MettaValue::Long(y)) => {
            let x = *x;
            let y = *y;
            if str_eq(op, "+") {
                long(x.wrapping_add(y))
            } else if str_eq(op, "-") {
                long(x.wrapping_sub(y))
            } else if str_eq(op, "*") {
                long(x.wrapping_mul(y))
            } else if str_eq(op, "/") {
                if y != 0 {
                    match x.checked_div(y) {
                        Some(q) => long(q),
                        None => long(i64::MIN),
                    }
                } else {
                    None
                }
            } else if str_eq(op, "%") || str_eq(op, "mod") {
                if y != 0 {
                    match x.checked_rem(y) {
                        Some(q) => long(q),
                        None => long(0),
                    }
                } else {
                    None
                }
            } else if str_eq(op, "pow") {
                if y >= 0 {
                    match pow_checked(x, y as u32) {
                        Some(p) => long(p),
                        None => None,
                    }
                } else {
                    None
                }
            } else if str_eq(op, "floor-div") {
                if y != 0 {
                    match x.checked_div_euclid(y) {
                        Some(q) => long(q),
                        None => long(i64::MIN),
                    }
                } else {
                    None
                }
            } else {
                None
            }
        },
        _ => None,
    }
}

/// Fold a unary arithmetic operation on a value.
pub fn try_fold_unary_arith(op: &str, a: &MettaValue) -> (r: Option<MettaValue>)
    ensures
        opt_view(r) == fold_unary(op@, a@),
{
    match a {
        MettaValue::Long(x) => {
            let x = *x;
            if str_eq(op, "abs") || str_eq(op, "abs-math") {
                if x == i64::MIN {
                    long(i64::MIN)
                } else if x < 0 {
                    long(-x)
                } else {
                    long(x)
                }
            } else if str_eq(op, "neg") {
                if x == i64::MIN {
                    long(i64::MIN)
                } else {
                    long(-x)
                }
            } else {
                None
            }
        },
        _ => None,
    }
}

fn order_result(op: &str, less: bool, equal: bool) -> (r: Option<MettaValue>)
    ensures
        opt_view(r) == order_outcome(op@, less, equal),
{
    if str_eq(op, "<") {
        boolean(less)
    } else if str_eq(op, "<=") {
        boolean(less || equal)
    } else if str_eq(op, ">") {
        boolean(!less && !equal)
    } else if str_eq(op, ">=") {
        boolean(!less)
    } else if str_eq(op, "==") {
        boolean(equal)
    } else if str_eq(op, "!=") {
        boolean(!equal)
    } else {
        None
    }
}

fn equality_result(op: &str, equal: bool) -> (r: Option<MettaValue>)
    ensures
        opt_view(r) == equality_outcome(op@, equal),
{
    if str_eq(op, "==") {
        boolean(equal)
    } else if str_eq(op, "!=") {
        boolean(!equal)
    } else {
        None
    }
}

/// Whether a value is the unit value.
pub fn is_unit(v: &MettaValue) -> (r: bool)
    ensures
        r == (v@ == Val::Unit),
{
    match v {
        MettaValue::Unit => true,
        MettaValue::SExpr(items) => {
            proof {
                lemma_sexpr_view(v, items);
            }
            items.len() == 0
        },
        _ => false,
    }
}

/// Fold a comparison on values that are already constant.
pub fn try_fold_comparison_values(op: &str, a: &MettaValue, b: &MettaValue) -> (r: Option<MettaValue>)
    ensures
        opt_view(r) == fold_comparison(op@, a@, b@),
{
    if is_unit(a) && is_unit(b) {
        return equality_result(op, true);
    }
    match (a, b) {
        (MettaValue::Long(x), MettaValue::Long(y)) => order_result(op, *x < *y, *x == *y),
        (MettaValue::Bool(x), MettaValue::Bool(y)) => equality_result(op, *x == *y),
        (MettaValue::String(x), MettaValue::String(y)) => {
            let less = text_lt(x.as_str(), y.as_str());
            let equal = str_eq(x.as_str(), y.as_str());
            order_result(op, less, equal)
        },
        _ => None,
    }
}

/// Fold a boolean operation on values that are already constant.
pub fn try_fold_boolean_values(op: &str, args: &[MettaValue]) -> (r: Option<MettaValue>)
    ensures
        opt_view(r) == fold_boolean(op@, seq_view(args@)),
{
    let is_and = str_eq(op, "and");
    let is_or = str_eq(op, "or");
    let is_xor = str_eq(op, "xor");
    if is_and || is_or || is_xor {
        if args.len() != 2 {
            return None;
        }
        match (&args[0], &args[1]) {
            (MettaValue::Bool(x), MettaValue::Bool(y)) => {
                let v = if is_and { *x && *y } else if is_or { *x || *y } else { *x != *y };
                boolean(v)
            },
            _ => None,
        }
    } else if str_eq(op, "not") {
        if args.len() != 1 {
            return None;
        }
        match &args[0] {
            MettaValue::Bool(x) => boolean(!*x),
            _ => None,
        }
    } else {
        None
    }
}

/// Evaluate an expression to a constant at compile time, if it is one.
pub fn try_eval_constant(expr: &MettaValue) -> (r: Option<MettaValue>)
    ensures
        opt_view(r) == eval_const(expr@),
    decreases expr, 1nat,
{
    match expr {
        MettaValue::Long(_) | MettaValue::Float(_) | MettaValue::Bool(_) | MettaValue::Unit
        | MettaValue::String(_) => Some(expr.deep_clone()),
        MettaValue::SExpr(items) => {
            proof {
                lemma_sexpr_view(expr, items);
            }
            if items.len() == 0 {
                return Some(MettaValue::Unit);
            }
            let op = match &items[0] {
                MettaValue::Atom(op) => op.as_str(),
                _ => {
                    return None;
                },
            };
            let n = items.len() - 1;
            proof {
                assert(decreases_to!(*expr => (*expr)->SExpr_0));
                if n >= 1 {
                    vstd::std_specs::vec::axiom_vec_index_decreases(*items, 1);
                }
                if n >= 2 {
                    vstd::std_specs::vec::axiom_vec_index_decreases(*items, 2);
                }
                if n >= 3 {
                    vstd::std_specs::vec::axiom_vec_index_decreases(*items, 3);
                }
            }
            if is_binary_arith(op) && n == 2 {
                let a = match try_eval_constant(&items[1]) {
                    Some(a) => a,
                    None => {
                        return None;
                    },
                };
                let b = match try_eval_constant(&items[2]) {
                    Some(b) => b,
                    None => {
                        return None;
                    },
                };
                try_fold_binary_arith_values(op, &a, &b)
            } else if is_unary_arith(op) && n == 1 {
                match try_eval_constant(&items[1]) {
                    Some(a) => try_fold_unary_arith(op, &a),
                    None => None,
                }
            } else if is_comparison(op) && n == 2 {
                let a = match try_eval_constant(&items[1]) {
                    Some(a) => a,
                    None => {
                        return None;
                    },
                };
                let b = match try_eval_constant(&items[2]) {
                    Some(b) => b,
                    None => {
                        return None;
                    },
                };
                try_fold_comparison_values(op, &a, &b)
            } else if (str_eq(op, "and") || str_eq(op, "or")) && n >= 2 {
                match eval_item_args(items, Ghost(expr)) {
                    Some(cs) => try_fold_boolean_values(op, cs.as_slice()),
                    None => None,
                }
            } else if str_eq(op, "not") && n == 1 {
                match try_eval_constant(&items[1]) {
                    Some(a) => {
                        let mut cs: Vec<MettaValue> = Vec::new();
                        cs.push(a);
                        proof {
                            assert(seq_view(cs@) =~= seq![opt_view(Some(cs@[0])).unwrap()]);
                        }
                        try_fold_boolean_values("not", cs.as_slice())
                    },
                    None => None,
                }
            } else if str_eq(op, "if") && n == 3 {
                match try_eval_constant(&items[1]) {
                    Some(MettaValue::Bool(true)) => try_eval_constant(&items[2]),
                    Some(MettaValue::Bool(false)) => try_eval_constant(&items[3]),
                    _ => None,
                }
            } else {
                None
            }
        },
        _ => None,
    }
}

fn is_binary_arith(op: &str) -> (r: bool)
    ensures
        r == is_binary_arith_name(op@),
{
    str_eq(op, "+") || str_eq(op, "-") || str_eq(op, "*") || str_eq(op, "/") || str_eq(op, "%")
        || str_eq(op, "mod") || str_eq(op, "pow") || str_eq(op, "pow-math") || str_eq(op, "floor-div")
}

fn is_unary_arith(op: &str) -> (r: bool)
    ensures
        r == is_unary_arith_name(op@),
{
    str_eq(op, "abs") || str_eq(op, "abs-math") || str_eq(op, "neg")
}

fn is_comparison(op: &str) -> (r: bool)
    ensures
        r == is_comparison_name(op@),
{
    str_eq(op, "<") || str_eq(op, "<=") || str_eq(op, ">") || str_eq(op, ">=") || str_eq(op, "==")
        || str_eq(op, "!=")
}

/// The constant values of the arguments `items[1..]`, if all are constant.
fn eval_item_args(items: &Vec<MettaValue>, Ghost(parent): Ghost<&MettaValue>) -> (r: Option<Vec<MettaValue>>)
    requires
        *parent == MettaValue::SExpr(*items),
    ensures
        match r {
            Some(cs) => eval_args(seq_view(items@), items@.len()) == Some(seq_view(cs@)),
            None => eval_args(seq_view(items@), items@.len()) is None,
        },
    decreases parent, 0nat,
{
    let ghost s = seq_view(items@);
    let mut out: Vec<MettaValue> = Vec::new();
    let mut k: usize = 1;
    proof {
        assert(seq_view(out@) =~= Seq::<Val>::empty());
    }
    while k < items.len()
        invariant
            *parent == MettaValue::SExpr(*items),
            s == seq_view(items@),
            1 <= k <= items@.len() || (k == 1 && items@.len() == 0),
            eval_args(s, k as nat) == Some(seq_view(out@)),
        decreases items@.len() - k,
    {
        proof {
            vstd::std_specs::vec::axiom_vec_index_decreases(*items, k as int);
            assert(decreases_to!(*parent => (*parent)->SExpr_0));
        }
        match try_eval_constant(&items[k]) {
            Some(c) => {
                let ghost before = out@;
                out.push(c);
                proof {
                    assert(seq_view(out@) =~= seq_view(before).push(c@));
                }
            },
            None => {
                proof {
                    lemma_eval_args_none(s, (k + 1) as nat, items@.len());
                }
                return None;
            },
        }
        k = k + 1;
    }
    Some(out)
}

/// Once an argument is not constant, no longer prefix is.
proof fn lemma_eval_args_none(items: Seq<Val>, k: nat, n: nat)
    requires
        eval_args(items, k) is None,
        k <= n <= items.len(),
    ensures
        eval_args(items, n) is None,
    decreases n - k,
{
    if k < n {
        lemma_eval_args_none(items, k, (n - 1) as nat);
    }
}

/// Fold a binary arithmetic operation whose operands evaluate to constants.
pub fn try_fold_binary_arith(op: &str, a: &MettaValue, b: &MettaValue) -> (r: Option<MettaValue>)
    ensures
        opt_view(r) == match (eval_const(a@), eval_const(b@)) {
            (Some(x), Some(y)) => fold_binary(op@, x, y),
            _ => None,
        },
{
    let x = match try_eval_constant(a) {
        Some(x) => x,
        None => {
            return None;
        },
    };
    let y = match try_eval_constant(b) {
        Some(y) => y,
        None => {
            return None;
        },
    };
    try_fold_binary_arith_values(op, &x, &y)
}

/// Fold a comparison whose operands evaluate to constants.
pub fn try_fold_comparison(op: &str, a: &MettaValue, b: &MettaValue) -> (r: Option<MettaValue>)
    ensures
        opt_view(r) == match (eval_const(a@), eval_const(b@)) {
            (Some(x), Some(y)) => fold_comparison(op@, x, y),
            _ => None,
        },
{
    let x = match try_eval_constant(a) {
        Some(x) => x,
        None => {
            return None;
        },
    };
    let y = match try_eval_constant(b) {
        Some(y) => y,
        None => {
            return None;
        },
    };
    try_fold_comparison_values(op, &x, &y)
}

/// Fold a boolean operation whose operands all evaluate to constants.
pub fn try_fold_boolean(op: &str, args: &[MettaValue]) -> (r: Option<MettaValue>)
    ensures
        opt_view(r) == match eval_all(seq_view(args@)) {
            Some(cs) => fold_boolean(op@, cs),
            None => None,
        },
{
    let mut out: Vec<MettaValue> = Vec::new();
    let mut k: usize = 0;
    proof {
        assert(seq_view(out@) =~= Seq::<Val>::empty());
        assert(seq_view(args@).take(0) =~= Seq::<Val>::empty());
    }
    while k < args.len()
        invariant
            0 <= k <= args@.len(),
            eval_all(seq_view(args@).take(k as int)) == Some(seq_view(out@)),
        decreases args@.len() - k,
    {
        proof {
            assert(seq_view(args@).take(k as int + 1).drop_last() =~= seq_view(args@).take(k as int));
            assert(seq_view(args@).take(k as int + 1).last() == args@[k as int]@);
        }
        match try_eval_constant(&args[k]) {
            Some(c) => {
                let ghost before = out@;
                out.push(c);
                proof {
                    assert(seq_view(out@) =~= seq_view(before).push(c@));
                }
            },
            None => {
                proof {
                    lemma_eval_all_none(seq_view(args@), k as int + 1);
                }
                return None;
            },
        }
        k = k + 1;
    }
    proof {
        assert(seq_view(args@).take(args@.len() as int) =~= seq_view(args@));
    }
    try_fold_boolean_values(op, out.as_slice())
}

/// Once an element is not constant, no longer prefix is.
proof fn lemma_eval_all_none(s: Seq<Val>, k: int)
    requires
        0 < k <= s.len(),
        eval_all(s.take(k)) is None,
    ensures
        eval_all(s) is None,
    decreases s.len() - k,
{
    if k < s.len() {
        assert(s.take(k + 1).drop_last() =~= s.take(k));
        lemma_eval_all_none(s, k + 1);
    } else {
        assert(s.take(k) =~= s);
    }
}

} // verus!
