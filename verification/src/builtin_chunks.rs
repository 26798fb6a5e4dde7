//! Prebuilt bytecode chunks for builtin operations.
//!
//! A chunk for `(head, arity)` expects its `arity` arguments already on the
//! value stack, runs the one instruction of the operation and returns.

use std::sync::Arc;

use vstd::prelude::*;

use crate::chunk::{BytecodeChunk, ChunkBuilder, ChunkModel};
use crate::compiler::work_item::{binary_builtin_opcode, unary_builtin_opcode};
use crate::opcode::{Opcode, opcode_byte};
use crate::text::str_eq;

verus! {

/// The builtin heads that have a prebuilt chunk.
pub open spec fn known_head(head: Seq<char>) -> bool {
    ||| head == "+"@ ||| head == "-"@ ||| head == "*"@ ||| head == "/"@ ||| head == "%"@
    ||| head == "<"@ ||| head == ">"@ ||| head == "<="@ ||| head == ">="@ ||| head == "=="@
    ||| head == "and"@ ||| head == "or"@ ||| head == "not"@ ||| head == "xor"@
    ||| head == "car-atom"@ ||| head == "cdr-atom"@ ||| head == "cons-atom"@
    ||| head == "size-atom"@ ||| head == "decons-atom"@
    ||| head == "get-type"@ ||| head == "get-metatype"@ ||| head == "repr"@
}

/// The operations of two arguments: chunk name and instruction.
pub open spec fn binary_builtin_op(head: Seq<char>) -> Option<(Seq<char>, Opcode)> {
    if head == "+"@ {
        Some(("builtin_add"@, Opcode::Add))
    } else if head == "-"@ {
        Some(("builtin_sub"@, Opcode::Sub))
    } else if head == "*"@ {
        Some(("builtin_mul"@, Opcode::Mul))
    } else if head == "/"@ {
        Some(("builtin_div"@, Opcode::Div))
    } else if head == "%"@ {
        Some(("builtin_mod"@, Opcode::Mod))
    } else if head == "<"@ {
        Some(("builtin_lt"@, Opcode::Lt))
    } else if head == ">"@ {
        Some(("builtin_gt"@, Opcode::Gt))
    } else if head == "<="@ {
        Some(("builtin_le"@, Opcode::Le))
    } else if head == ">="@ {
        Some(("builtin_ge"@, Opcode::Ge))
    } else if head == "=="@ {
        Some(("builtin_eq"@, Opcode::Eq))
    } else if head == "and"@ {
        Some(("builtin_and"@, Opcode::And))
    } else if head == "or"@ {
        Some(("builtin_or"@, Opcode::Or))
    } else if head == "xor"@ {
        Some(("builtin_xor"@, Opcode::Xor))
    } else if head == "cons-atom"@ {
        Some(("builtin_cons"@, Opcode::ConsAtom))
    } else {
        None
    }
}

/// The operations of one argument: chunk name and instruction.
pub open spec fn unary_builtin_op(head: Seq<char>) -> Option<(Seq<char>, Opcode)> {
    if head == "not"@ {
        Some(("builtin_not"@, Opcode::Not))
    } else if head == "car-atom"@ {
        Some(("builtin_car"@, Opcode::GetHead))
    } else if head == "cdr-atom"@ {
        Some(("builtin_cdr"@, Opcode::GetTail))
    } else if head == "size-atom"@ {
        Some(("builtin_size"@, Opcode::GetArity))
    } else if head == "decons-atom"@ {
        Some(("builtin_decons"@, Opcode::DeconsAtom))
    } else if head == "get-type"@ {
        Some(("builtin_get_type"@, Opcode::GetType))
    } else if head == "get-metatype"@ {
        Some(("builtin_get_metatype"@, Opcode::GetMetaType))
    } else if head == "repr"@ {
        Some(("builtin_repr"@, Opcode::Repr))
    } else {
        None
    }
}

/// The prebuilt operation for `head` applied to `arity` arguments.
pub open spec fn builtin_operation(head: Seq<char>, arity: u8) -> Option<(Seq<char>, Opcode)> {
    if arity == 2 {
        binary_builtin_op(head)
    } else if arity == 1 {
        unary_builtin_op(head)
    } else {
        None
    }
}

/// The chunk of a builtin operation: `arity` parameters, the operation's
/// instruction, then `Return`, all on line 1.
pub open spec fn builtin_chunk_model(name: Seq<char>, arity: u8, op: Opcode) -> ChunkModel {
    ChunkModel {
        code: seq![opcode_byte(op), opcode_byte(Opcode::Return)],
        pool: Seq::empty(),
        lines: seq![(0usize, 1u32)],
        name,
        locals: 0,
        upvalues: 0,
        arity,
        vararg: false,
        tables: 0,
        subs: Seq::empty(),
    }
}

/// Every prebuilt chunk takes the arity it was asked for, runs one
/// instruction and returns: two bytes, the second `Return`, no constants.
pub proof fn lemma_builtin_chunk_shape(head: Seq<char>, arity: u8)
    requires
        builtin_operation(head, arity) is Some,
    ensures
        ({
            let (name, op) = builtin_operation(head, arity)->Some_0;
            let m = builtin_chunk_model(name, arity, op);
            &&& m.code.len() == 2
            &&& m.code[1] == opcode_byte(Opcode::Return)
            &&& m.arity == arity
            &&& (arity == 1 || arity == 2)
            &&& m.pool.len() == 0
        }),
{
}

/// The prebuilt chunk of each builtin runs the instruction that the
/// compiler emits for the same builtin: a chunk of two arguments runs the
/// compiler's instruction for its binary operation, a chunk of one argument
/// that of its unary operation; `decons-atom` is the one builtin whose chunk
/// runs the list-returning `DeconsAtom`.
pub proof fn lemma_builtin_chunks_run_compiler_instructions(head: Seq<char>, arity: u8)
    requires
        builtin_operation(head, arity) is Some,
    ensures
        arity == 2 ==> binary_builtin_opcode(head) == Some(builtin_operation(head, arity)->Some_0.1),
        arity == 1 && head != "decons-atom"@ ==> unary_builtin_opcode(head) == Some(
            builtin_operation(head, arity)->Some_0.1,
        ),
        arity == 1 && head == "decons-atom"@ ==> builtin_operation(head, arity)->Some_0.1 == Opcode::DeconsAtom,
{
    broadcast use vstd::string::group_string_axioms;

    if arity == 2 {
        if head == "+"@ {
            reveal_strlit("+");
        } else if head == "-"@ {
            reveal_strlit("-");
            reveal_strlit("+");
            assert("+"@[0] != "-"@[0]);
        } else if head == "*"@ {
            reveal_strlit("*");
            reveal_strlit("+");
            assert("+"@[0] != "*"@[0]);
            reveal_strlit("-");
            assert("-"@[0] != "*"@[0]);
        } else if head == "/"@ {
            reveal_strlit("/");
            reveal_strlit("+");
            assert("+"@[0] != "/"@[0]);
            reveal_strlit("-");
            assert("-"@[0] != "/"@[0]);
            reveal_strlit("*");
            assert("*"@[0] != "/"@[0]);
        } else if head == "%"@ {
            reveal_strlit("%");
            reveal_strlit("+");
            assert("+"@[0] != "%"@[0]);
            reveal_strlit("-");
            assert("-"@[0] != "%"@[0]);
            reveal_strlit("*");
            assert("*"@[0] != "%"@[0]);
            reveal_strlit("/");
            assert("/"@[0] != "%"@[0]);
        } else if head == "<"@ {
            reveal_strlit("<");
            reveal_strlit("+");
            assert("+"@[0] != "<"@[0]);
            reveal_strlit("-");
            assert("-"@[0] != "<"@[0]);
            reveal_strlit("*");
            assert("*"@[0] != "<"@[0]);
            reveal_strlit("/");
            assert("/"@[0] != "<"@[0]);
            reveal_strlit("%");
            assert("%"@[0] != "<"@[0]);
            reveal_strlit("mod");
            assert("mod"@.len() != "<"@.len());
            reveal_strlit("pow");
            assert("pow"@.len() != "<"@.len());
            reveal_strlit("pow-math");
            assert("pow-math"@.len() != "<"@.len());
            reveal_strlit("floor-div");
            assert("floor-div"@.len() != "<"@.len());
            reveal_strlit("log-math");
            assert("log-math"@.len() != "<"@.len());
        } else if head == ">"@ {
            reveal_strlit(">");
            reveal_strlit("+");
            assert("+"@[0] != ">"@[0]);
            reveal_strlit("-");
            assert("-"@[0] != ">"@[0]);
            reveal_strlit("*");
            assert("*"@[0] != ">"@[0]);
            reveal_strlit("/");
            assert("/"@[0] != ">"@[0]);
            reveal_strlit("%");
            assert("%"@[0] != ">"@[0]);
            reveal_strlit("mod");
            assert("mod"@.len() != ">"@.len());
            reveal_strlit("pow");
            assert("pow"@.len() != ">"@.len());
            reveal_strlit("pow-math");
            assert("pow-math"@.len() != ">"@.len());
            reveal_strlit("floor-div");
            assert("floor-div"@.len() != ">"@.len());
            reveal_strlit("log-math");
            assert("log-math"@.len() != ">"@.len());
            reveal_strlit("<");
            assert("<"@[0] != ">"@[0]);
            reveal_strlit("<=");
            assert("<="@.len() != ">"@.len());
        } else if head == "<="@ {
            reveal_strlit("<=");
            reveal_strlit("+");
            assert("+"@.len() != "<="@.len());
            reveal_strlit("-");
            assert("-"@.len() != "<="@.len());
            reveal_strlit("*");
            assert("*"@.len() != "<="@.len());
            reveal_strlit("/");
            assert("/"@.len() != "<="@.len());
            reveal_strlit("%");
            assert("%"@.len() != "<="@.len());
            reveal_strlit("mod");
            assert("mod"@.len() != "<="@.len());
            reveal_strlit("pow");
            assert("pow"@.len() != "<="@.len());
            reveal_strlit("pow-math");
            assert("pow-math"@.len() != "<="@.len());
            reveal_strlit("floor-div");
            assert("floor-div"@.len() != "<="@.len());
            reveal_strlit("log-math");
            assert("log-math"@.len() != "<="@.len());
            reveal_strlit("<");
            assert("<"@.len() != "<="@.len());
        } else if head == ">="@ {
            reveal_strlit(">=");
            reveal_strlit("+");
            assert("+"@.len() != ">="@.len());
            reveal_strlit("-");
            assert("-"@.len() != ">="@.len());
            reveal_strlit("*");
            assert("*"@.len() != ">="@.len());
            reveal_strlit("/");
            assert("/"@.len() != ">="@.len());
            reveal_strlit("%");
            assert("%"@.len() != ">="@.len());
            reveal_strlit("mod");
            assert("mod"@.len() != ">="@.len());
            reveal_strlit("pow");
            assert("pow"@.len() != ">="@.len());
            reveal_strlit("pow-math");
            assert("pow-math"@.len() != ">="@.len());
            reveal_strlit("floor-div");
            assert("floor-div"@.len() != ">="@.len());
            reveal_strlit("log-math");
            assert("log-math"@.len() != ">="@.len());
            reveal_strlit("<");
            assert("<"@.len() != ">="@.len());
            reveal_strlit("<=");
            assert("<="@[0] != ">="@[0]);
            reveal_strlit(">");
            assert(">"@.len() != ">="@.len());
        } else if head == "=="@ {
            reveal_strlit("==");
            reveal_strlit("+");
            assert("+"@.len() != "=="@.len());
            reveal_strlit("-");
            assert("-"@.len() != "=="@.len());
            reveal_strlit("*");
            assert("*"@.len() != "=="@.len());
            reveal_strlit("/");
            assert("/"@.len() != "=="@.len());
            reveal_strlit("%");
            assert("%"@.len() != "=="@.len());
            reveal_strlit("mod");
            assert("mod"@.len() != "=="@.len());
            reveal_strlit("pow");
            assert("pow"@.len() != "=="@.len());
            reveal_strlit("pow-math");
            assert("pow-math"@.len() != "=="@.len());
            reveal_strlit("floor-div");
            assert("floor-div"@.len() != "=="@.len());
            reveal_strlit("log-math");
            assert("log-math"@.len() != "=="@.len());
            reveal_strlit("<");
            assert("<"@.len() != "=="@.len());
            reveal_strlit("<=");
            assert("<="@[0] != "=="@[0]);
            reveal_strlit(">");
            assert(">"@.len() != "=="@.len());
            reveal_strlit(">=");
            assert(">="@[0] != "=="@[0]);
        } else if head == "and"@ {
            reveal_strlit("and");
            reveal_strlit("+");
            assert("+"@.len() != "and"@.len());
            reveal_strlit("-");
            assert("-"@.len() != "and"@.len());
            reveal_strlit("*");
            assert("*"@.len() != "and"@.len());
            reveal_strlit("/");
            assert("/"@.len() != "and"@.len());
            reveal_strlit("%");
            assert("%"@.len() != "and"@.len());
            reveal_strlit("mod");
            assert("mod"@[0] != "and"@[0]);
            reveal_strlit("pow");
            assert("pow"@[0] != "and"@[0]);
            reveal_strlit("pow-math");
            assert("pow-math"@.len() != "and"@.len());
            reveal_strlit("floor-div");
            assert("floor-div"@.len() != "and"@.len());
            reveal_strlit("log-math");
            assert("log-math"@.len() != "and"@.len());
            reveal_strlit("<");
            assert("<"@.len() != "and"@.len());
            reveal_strlit("<=");
            assert("<="@.len() != "and"@.len());
            reveal_strlit(">");
            assert(">"@.len() != "and"@.len());
            reveal_strlit(">=");
            assert(">="@.len() != "and"@.len());
            reveal_strlit("==");
            assert("=="@.len() != "and"@.len());
            reveal_strlit("!=");
            assert("!="@.len() != "and"@.len());
        } else if head == "or"@ {
            reveal_strlit("or");
            reveal_strlit("+");
            assert("+"@.len() != "or"@.len());
            reveal_strlit("-");
            assert("-"@.len() != "or"@.len());
            reveal_strlit("*");
            assert("*"@.len() != "or"@.len());
            reveal_strlit("/");
            assert("/"@.len() != "or"@.len());
            reveal_strlit("%");
            assert("%"@.len() != "or"@.len());
            reveal_strlit("mod");
            assert("mod"@.len() != "or"@.len());
            reveal_strlit("pow");
            assert("pow"@.len() != "or"@.len());
            reveal_strlit("pow-math");
            assert("pow-math"@.len() != "or"@.len());
            reveal_strlit("floor-div");
            assert("floor-div"@.len() != "or"@.len());
            reveal_strlit("log-math");
            assert("log-math"@.len() != "or"@.len());
            reveal_strlit("<");
            assert("<"@.len() != "or"@.len());
            reveal_strlit("<=");
            assert("<="@[0] != "or"@[0]);
            reveal_strlit(">");
            assert(">"@.len() != "or"@.len());
            reveal_strlit(">=");
            assert(">="@[0] != "or"@[0]);
            reveal_strlit("==");
            assert("=="@[0] != "or"@[0]);
            reveal_strlit("!=");
            assert("!="@[0] != "or"@[0]);
            reveal_strlit("and");
            assert("and"@.len() != "or"@.len());
        } else if head == "xor"@ {
            reveal_strlit("xor");
            reveal_strlit("+");
            assert("+"@.len() != "xor"@.len());
            reveal_strlit("-");
            assert("-"@.len() != "xor"@.len());
            reveal_strlit("*");
            assert("*"@.len() != "xor"@.len());
            reveal_strlit("/");
            assert("/"@.len() != "xor"@.len());
            reveal_strlit("%");
            assert("%"@.len() != "xor"@.len());
            reveal_strlit("mod");
            assert("mod"@[0] != "xor"@[0]);
            reveal_strlit("pow");
            assert("pow"@[0] != "xor"@[0]);
            reveal_strlit("pow-math");
            assert("pow-math"@.len() != "xor"@.len());
            reveal_strlit("floor-div");
            assert("floor-div"@.len() != "xor"@.len());
            reveal_strlit("log-math");
            assert("log-math"@.len() != "xor"@.len());
            reveal_strlit("<");
            assert("<"@.len() != "xor"@.len());
            reveal_strlit("<=");
            assert("<="@.len() != "xor"@.len());
            reveal_strlit(">");
            assert(">"@.len() != "xor"@.len());
            reveal_strlit(">=");
            assert(">="@.len() != "xor"@.len());
            reveal_strlit("==");
            assert("=="@.len() != "xor"@.len());
            reveal_strlit("!=");
            assert("!="@.len() != "xor"@.len());
            reveal_strlit("and");
            assert("and"@[0] != "xor"@[0]);
            reveal_strlit("or");
            assert("or"@.len() != "xor"@.len());
        } else if head == "cons-atom"@ {
            reveal_strlit("cons-atom");
            reveal_strlit("+");
            assert("+"@.len() != "cons-atom"@.len());
            reveal_strlit("-");
            assert("-"@.len() != "cons-atom"@.len());
            reveal_strlit("*");
            assert("*"@.len() != "cons-atom"@.len());
            reveal_strlit("/");
            assert("/"@.len() != "cons-atom"@.len());
            reveal_strlit("%");
            assert("%"@.len() != "cons-atom"@.len());
            reveal_strlit("mod");
            assert("mod"@.len() != "cons-atom"@.len());
            reveal_strlit("pow");
            assert("pow"@.len() != "cons-atom"@.len());
            reveal_strlit("pow-math");
            assert("pow-math"@.len() != "cons-atom"@.len());
            reveal_strlit("floor-div");
            assert("floor-div"@[0] != "cons-atom"@[0]);
            reveal_strlit("log-math");
            assert("log-math"@.len() != "cons-atom"@.len());
            reveal_strlit("<");
            assert("<"@.len() != "cons-atom"@.len());
            reveal_strlit("<=");
            assert("<="@.len() != "cons-atom"@.len());
            reveal_strlit(">");
            assert(">"@.len() != "cons-atom"@.len());
            reveal_strlit(">=");
            assert(">="@.len() != "cons-atom"@.len());
            reveal_strlit("==");
            assert("=="@.len() != "cons-atom"@.len());
            reveal_strlit("!=");
            assert("!="@.len() != "cons-atom"@.len());
            reveal_strlit("and");
            assert("and"@.len() != "cons-atom"@.len());
            reveal_strlit("or");
            assert("or"@.len() != "cons-atom"@.len());
            reveal_strlit("xor");
            assert("xor"@.len() != "cons-atom"@.len());
            reveal_strlit("check-type");
            assert("check-type"@.len() != "cons-atom"@.len());
        }
    } else if arity == 1 {
        if head == "not"@ {
            reveal_strlit("decons-atom");
            reveal_strlit("not");
            assert("not"@.len() != "decons-atom"@.len());
            reveal_strlit("not");
            reveal_strlit("abs");
            assert("abs"@[0] != "not"@[0]);
            reveal_strlit("abs-math");
            assert("abs-math"@.len() != "not"@.len());
            reveal_strlit("neg");
            assert("neg"@[1] != "not"@[1]);
            reveal_strlit("sqrt-math");
            assert("sqrt-math"@.len() != "not"@.len());
            reveal_strlit("trunc-math");
            assert("trunc-math"@.len() != "not"@.len());
            reveal_strlit("ceil-math");
            assert("ceil-math"@.len() != "not"@.len());
            reveal_strlit("floor-math");
            assert("floor-math"@.len() != "not"@.len());
            reveal_strlit("round-math");
            assert("round-math"@.len() != "not"@.len());
            reveal_strlit("sin-math");
            assert("sin-math"@.len() != "not"@.len());
            reveal_strlit("cos-math");
            assert("cos-math"@.len() != "not"@.len());
            reveal_strlit("tan-math");
            assert("tan-math"@.len() != "not"@.len());
            reveal_strlit("asin-math");
            assert("asin-math"@.len() != "not"@.len());
            reveal_strlit("acos-math");
            assert("acos-math"@.len() != "not"@.len());
            reveal_strlit("atan-math");
            assert("atan-math"@.len() != "not"@.len());
            reveal_strlit("isnan-math");
            assert("isnan-math"@.len() != "not"@.len());
            reveal_strlit("isinf-math");
            assert("isinf-math"@.len() != "not"@.len());
        } else if head == "car-atom"@ {
            reveal_strlit("decons-atom");
            reveal_strlit("car-atom");
            assert("car-atom"@.len() != "decons-atom"@.len());
            reveal_strlit("car-atom");
            reveal_strlit("abs");
            assert("abs"@.len() != "car-atom"@.len());
            reveal_strlit("abs-math");
            assert("abs-math"@[0] != "car-atom"@[0]);
            reveal_strlit("neg");
            assert("neg"@.len() != "car-atom"@.len());
            reveal_strlit("sqrt-math");
            assert("sqrt-math"@.len() != "car-atom"@.len());
            reveal_strlit("trunc-math");
            assert("trunc-math"@.len() != "car-atom"@.len());
            reveal_strlit("ceil-math");
            assert("ceil-math"@.len() != "car-atom"@.len());
            reveal_strlit("floor-math");
            assert("floor-math"@.len() != "car-atom"@.len());
            reveal_strlit("round-math");
            assert("round-math"@.len() != "car-atom"@.len());
            reveal_strlit("sin-math");
            assert("sin-math"@[0] != "car-atom"@[0]);
            reveal_strlit("cos-math");
            assert("cos-math"@[1] != "car-atom"@[1]);
            reveal_strlit("tan-math");
            assert("tan-math"@[0] != "car-atom"@[0]);
            reveal_strlit("asin-math");
            assert("asin-math"@.len() != "car-atom"@.len());
            reveal_strlit("acos-math");
            assert("acos-math"@.len() != "car-atom"@.len());
            reveal_strlit("atan-math");
            assert("atan-math"@.len() != "car-atom"@.len());
            reveal_strlit("isnan-math");
            assert("isnan-math"@.len() != "car-atom"@.len());
            reveal_strlit("isinf-math");
            assert("isinf-math"@.len() != "car-atom"@.len());
            reveal_strlit("not");
            assert("not"@.len() != "car-atom"@.len());
            reveal_strlit("eval");
            assert("eval"@.len() != "car-atom"@.len());
            reveal_strlit("get-type");
            assert("get-type"@[0] != "car-atom"@[0]);
            reveal_strlit("get-metatype");
            assert("get-metatype"@.len() != "car-atom"@.len());
            reveal_strlit("collapse");
            assert("collapse"@[1] != "car-atom"@[1]);
        } else if head == "cdr-atom"@ {
            reveal_strlit("decons-atom");
            reveal_strlit("cdr-atom");
            assert("cdr-atom"@.len() != "decons-atom"@.len());
            reveal_strlit("cdr-atom");
            reveal_strlit("abs");
            assert("abs"@.len() != "cdr-atom"@.len());
            reveal_strlit("abs-math");
            assert("abs-math"@[0] != "cdr-atom"@[0]);
            reveal_strlit("neg");
            assert("neg"@.len() != "cdr-atom"@.len());
            reveal_strlit("sqrt-math");
            assert("sqrt-math"@.len() != "cdr-atom"@.len());
            reveal_strlit("trunc-math");
            assert("trunc-math"@.len() != "cdr-atom"@.len());
            reveal_strlit("ceil-math");
            assert("ceil-math"@.len() != "cdr-atom"@.len());
            reveal_strlit("floor-math");
            assert("floor-math"@.len() != "cdr-atom"@.len());
            reveal_strlit("round-math");
            assert("round-math"@.len() != "cdr-atom"@.len());
            reveal_strlit("sin-math");
            assert("sin-math"@[0] != "cdr-atom"@[0]);
            reveal_strlit("cos-math");
            assert("cos-math"@[1] != "cdr-atom"@[1]);
            reveal_strlit("tan-math");
            assert("tan-math"@[0] != "cdr-atom"@[0]);
            reveal_strlit("asin-math");
            assert("asin-math"@.len() != "cdr-atom"@.len());
            reveal_strlit("acos-math");
            assert("acos-math"@.len() != "cdr-atom"@.len());
            reveal_strlit("atan-math");
            assert("atan-math"@.len() != "cdr-atom"@.len());
            reveal_strlit("isnan-math");
            assert("isnan-math"@.len() != "cdr-atom"@.len());
            reveal_strlit("isinf-math");
            assert("isinf-math"@.len() != "cdr-atom"@.len());
            reveal_strlit("not");
            assert("not"@.len() != "cdr-atom"@.len());
            reveal_strlit("eval");
            assert("eval"@.len() != "cdr-atom"@.len());
            reveal_strlit("get-type");
            assert("get-type"@[0] != "cdr-atom"@[0]);
            reveal_strlit("get-metatype");
            assert("get-metatype"@.len() != "cdr-atom"@.len());
            reveal_strlit("collapse");
            assert("collapse"@[1] != "cdr-atom"@[1]);
            reveal_strlit("car-atom");
            assert("car-atom"@[1] != "cdr-atom"@[1]);
        } else if head == "size-atom"@ {
            reveal_strlit("decons-atom");
            reveal_strlit("size-atom");
            assert("size-atom"@.len() != "decons-atom"@.len());
            reveal_strlit("size-atom");
            reveal_strlit("abs");
            assert("abs"@.len() != "size-atom"@.len());
            reveal_strlit("abs-math");
            assert("abs-math"@.len() != "size-atom"@.len());
            reveal_strlit("neg");
            assert("neg"@.len() != "size-atom"@.len());
            reveal_strlit("sqrt-math");
            assert("sqrt-math"@[1] != "size-atom"@[1]);
            reveal_strlit("trunc-math");
            assert("trunc-math"@.len() != "size-atom"@.len());
            reveal_strlit("ceil-math");
            assert("ceil-math"@[0] != "size-atom"@[0]);
            reveal_strlit("floor-math");
            assert("floor-math"@.len() != "size-atom"@.len());
            reveal_strlit("round-math");
            assert("round-math"@.len() != "size-atom"@.len());
            reveal_strlit("sin-math");
            assert("sin-math"@.len() != "size-atom"@.len());
            reveal_strlit("cos-math");
            assert("cos-math"@.len() != "size-atom"@.len());
            reveal_strlit("tan-math");
            assert("tan-math"@.len() != "size-atom"@.len());
            reveal_strlit("asin-math");
            assert("asin-math"@[0] != "size-atom"@[0]);
            reveal_strlit("acos-math");
            assert("acos-math"@[0] != "size-atom"@[0]);
            reveal_strlit("atan-math");
            assert("atan-math"@[0] != "size-atom"@[0]);
            reveal_strlit("isnan-math");
            assert("isnan-math"@.len() != "size-atom"@.len());
            reveal_strlit("isinf-math");
            assert("isinf-math"@.len() != "size-atom"@.len());
            reveal_strlit("not");
            assert("not"@.len() != "size-atom"@.len());
            reveal_strlit("eval");
            assert("eval"@.len() != "size-atom"@.len());
            reveal_strlit("get-type");
            assert("get-type"@.len() != "size-atom"@.len());
            reveal_strlit("get-metatype");
            assert("get-metatype"@.len() != "size-atom"@.len());
            reveal_strlit("collapse");
            assert("collapse"@.len() != "size-atom"@.len());
            reveal_strlit("car-atom");
            assert("car-atom"@.len() != "size-atom"@.len());
            reveal_strlit("cdr-atom");
            assert("cdr-atom"@.len() != "size-atom"@.len());
        } else if head == "decons-atom"@ {
            reveal_strlit("decons-atom");
            reveal_strlit("abs");
            assert("abs"@.len() != "decons-atom"@.len());
            reveal_strlit("abs-math");
            assert("abs-math"@.len() != "decons-atom"@.len());
            reveal_strlit("neg");
            assert("neg"@.len() != "decons-atom"@.len());
            reveal_strlit("sqrt-math");
            assert("sqrt-math"@.len() != "decons-atom"@.len());
            reveal_strlit("trunc-math");
            assert("trunc-math"@.len() != "decons-atom"@.len());
            reveal_strlit("ceil-math");
            assert("ceil-math"@.len() != "decons-atom"@.len());
            reveal_strlit("floor-math");
            assert("floor-math"@.len() != "decons-atom"@.len());
            reveal_strlit("round-math");
            assert("round-math"@.len() != "decons-atom"@.len());
            reveal_strlit("sin-math");
            assert("sin-math"@.len() != "decons-atom"@.len());
            reveal_strlit("cos-math");
            assert("cos-math"@.len() != "decons-atom"@.len());
            reveal_strlit("tan-math");
            assert("tan-math"@.len() != "decons-atom"@.len());
            reveal_strlit("asin-math");
            assert("asin-math"@.len() != "decons-atom"@.len());
            reveal_strlit("acos-math");
            assert("acos-math"@.len() != "decons-atom"@.len());
            reveal_strlit("atan-math");
            assert("atan-math"@.len() != "decons-atom"@.len());
            reveal_strlit("isnan-math");
            assert("isnan-math"@.len() != "decons-atom"@.len());
            reveal_strlit("isinf-math");
            assert("isinf-math"@.len() != "decons-atom"@.len());
            reveal_strlit("not");
            assert("not"@.len() != "decons-atom"@.len());
            reveal_strlit("eval");
            assert("eval"@.len() != "decons-atom"@.len());
            reveal_strlit("get-type");
            assert("get-type"@.len() != "decons-atom"@.len());
            reveal_strlit("get-metatype");
            assert("get-metatype"@.len() != "decons-atom"@.len());
            reveal_strlit("collapse");
            assert("collapse"@.len() != "decons-atom"@.len());
            reveal_strlit("car-atom");
            assert("car-atom"@.len() != "decons-atom"@.len());
            reveal_strlit("cdr-atom");
            assert("cdr-atom"@.len() != "decons-atom"@.len());
            reveal_strlit("size-atom");
            assert("size-atom"@.len() != "decons-atom"@.len());
        } else if head == "get-type"@ {
            reveal_strlit("decons-atom");
            reveal_strlit("get-type");
            assert("get-type"@.len() != "decons-atom"@.len());
            reveal_strlit("get-type");
            reveal_strlit("abs");
            assert("abs"@.len() != "get-type"@.len());
            reveal_strlit("abs-math");
            assert("abs-math"@[0] != "get-type"@[0]);
            reveal_strlit("neg");
            assert("neg"@.len() != "get-type"@.len());
            reveal_strlit("sqrt-math");
            assert("sqrt-math"@.len() != "get-type"@.len());
            reveal_strlit("trunc-math");
            assert("trunc-math"@.len() != "get-type"@.len());
            reveal_strlit("ceil-math");
            assert("ceil-math"@.len() != "get-type"@.len());
            reveal_strlit("floor-math");
            assert("floor-math"@.len() != "get-type"@.len());
            reveal_strlit("round-math");
            assert("round-math"@.len() != "get-type"@.len());
            reveal_strlit("sin-math");
            assert("sin-math"@[0] != "get-type"@[0]);
            reveal_strlit("cos-math");
            assert("cos-math"@[0] != "get-type"@[0]);
            reveal_strlit("tan-math");
            assert("tan-math"@[0] != "get-type"@[0]);
            reveal_strlit("asin-math");
            assert("asin-math"@.len() != "get-type"@.len());
            reveal_strlit("acos-math");
            assert("acos-math"@.len() != "get-type"@.len());
            reveal_strlit("atan-math");
            assert("atan-math"@.len() != "get-type"@.len());
            reveal_strlit("isnan-math");
            assert("isnan-math"@.len() != "get-type"@.len());
            reveal_strlit("isinf-math");
            assert("isinf-math"@.len() != "get-type"@.len());
            reveal_strlit("not");
            assert("not"@.len() != "get-type"@.len());
            reveal_strlit("eval");
            assert("eval"@.len() != "get-type"@.len());
        } else if head == "get-metatype"@ {
            reveal_strlit("decons-atom");
            reveal_strlit("get-metatype");
            assert("get-metatype"@.len() != "decons-atom"@.len());
            reveal_strlit("get-metatype");
            reveal_strlit("abs");
            assert("abs"@.len() != "get-metatype"@.len());
            reveal_strlit("abs-math");
            assert("abs-math"@.len() != "get-metatype"@.len());
            reveal_strlit("neg");
            assert("neg"@.len() != "get-metatype"@.len());
            reveal_strlit("sqrt-math");
            assert("sqrt-math"@.len() != "get-metatype"@.len());
            reveal_strlit("trunc-math");
            assert("trunc-math"@.len() != "get-metatype"@.len());
            reveal_strlit("ceil-math");
            assert("ceil-math"@.len() != "get-metatype"@.len());
            reveal_strlit("floor-math");
            assert("floor-math"@.len() != "get-metatype"@.len());
            reveal_strlit("round-math");
            assert("round-math"@.len() != "get-metatype"@.len());
            reveal_strlit("sin-math");
            assert("sin-math"@.len() != "get-metatype"@.len());
            reveal_strlit("cos-math");
            assert("cos-math"@.len() != "get-metatype"@.len());
            reveal_strlit("tan-math");
            assert("tan-math"@.len() != "get-metatype"@.len());
            reveal_strlit("asin-math");
            assert("asin-math"@.len() != "get-metatype"@.len());
            reveal_strlit("acos-math");
            assert("acos-math"@.len() != "get-metatype"@.len());
            reveal_strlit("atan-math");
            assert("atan-math"@.len() != "get-metatype"@.len());
            reveal_strlit("isnan-math");
            assert("isnan-math"@.len() != "get-metatype"@.len());
            reveal_strlit("isinf-math");
            assert("isinf-math"@.len() != "get-metatype"@.len());
            reveal_strlit("not");
            assert("not"@.len() != "get-metatype"@.len());
            reveal_strlit("eval");
            assert("eval"@.len() != "get-metatype"@.len());
            reveal_strlit("get-type");
            assert("get-type"@.len() != "get-metatype"@.len());
        } else if head == "repr"@ {
            reveal_strlit("decons-atom");
            reveal_strlit("repr");
            assert("repr"@.len() != "decons-atom"@.len());
            reveal_strlit("repr");
            reveal_strlit("abs");
            assert("abs"@.len() != "repr"@.len());
            reveal_strlit("abs-math");
            assert("abs-math"@.len() != "repr"@.len());
            reveal_strlit("neg");
            assert("neg"@.len() != "repr"@.len());
            reveal_strlit("sqrt-math");
            assert("sqrt-math"@.len() != "repr"@.len());
            reveal_strlit("trunc-math");
            assert("trunc-math"@.len() != "repr"@.len());
            reveal_strlit("ceil-math");
            assert("ceil-math"@.len() != "repr"@.len());
            reveal_strlit("floor-math");
            assert("floor-math"@.len() != "repr"@.len());
            reveal_strlit("round-math");
            assert("round-math"@.len() != "repr"@.len());
            reveal_strlit("sin-math");
            assert("sin-math"@.len() != "repr"@.len());
            reveal_strlit("cos-math");
            assert("cos-math"@.len() != "repr"@.len());
            reveal_strlit("tan-math");
            assert("tan-math"@.len() != "repr"@.len());
            reveal_strlit("asin-math");
            assert("asin-math"@.len() != "repr"@.len());
            reveal_strlit("acos-math");
            assert("acos-math"@.len() != "repr"@.len());
            reveal_strlit("atan-math");
            assert("atan-math"@.len() != "repr"@.len());
            reveal_strlit("isnan-math");
            assert("isnan-math"@.len() != "repr"@.len());
            reveal_strlit("isinf-math");
            assert("isinf-math"@.len() != "repr"@.len());
            reveal_strlit("not");
            assert("not"@.len() != "repr"@.len());
            reveal_strlit("eval");
            assert("eval"@[0] != "repr"@[0]);
            reveal_strlit("get-type");
            assert("get-type"@.len() != "repr"@.len());
            reveal_strlit("get-metatype");
            assert("get-metatype"@.len() != "repr"@.len());
            reveal_strlit("collapse");
            assert("collapse"@.len() != "repr"@.len());
            reveal_strlit("car-atom");
            assert("car-atom"@.len() != "repr"@.len());
            reveal_strlit("cdr-atom");
            assert("cdr-atom"@.len() != "repr"@.len());
            reveal_strlit("size-atom");
            assert("size-atom"@.len() != "repr"@.len());
            reveal_strlit("decons-atom");
            reveal_strlit("decons-atom");
            assert("decons-atom"@.len() != "repr"@.len());
        }
    }
}

/// The canonical spelling of a builtin head, or `None` for any other head.
fn intern_head(head: &str) -> (r: Option<&'static str>)
    ensures
        r is Some <==> known_head(head@),
        r is Some ==> r->Some_0@ == head@,
{
    if str_eq(head, "+") {
        Some("+")
    } else if str_eq(head, "-") {
        Some("-")
    } else if str_eq(head, "*") {
        Some("*")
    } else if str_eq(head, "/") {
        Some("/")
    } else if str_eq(head, "%") {
        Some("%")
    } else if str_eq(head, "<") {
        Some("<")
    } else if str_eq(head, ">") {
        Some(">")
    } else if str_eq(head, "<=") {
        Some("<=")
    } else if str_eq(head, ">=") {
        Some(">=")
    } else if str_eq(head, "==") {
        Some("==")
    } else if str_eq(head, "and") {
        Some("and")
    } else if str_eq(head, "or") {
        Some("or")
    } else if str_eq(head, "not") {
        Some("not")
    } else if str_eq(head, "xor") {
        Some("xor")
    } else if str_eq(head, "car-atom") {
        Some("car-atom")
    } else if str_eq(head, "cdr-atom") {
        Some("cdr-atom")
    } else if str_eq(head, "cons-atom") {
        Some("cons-atom")
    } else if str_eq(head, "size-atom") {
        Some("size-atom")
    } else if str_eq(head, "decons-atom") {
        Some("decons-atom")
    } else if str_eq(head, "get-type") {
        Some("get-type")
    } else if str_eq(head, "get-metatype") {
        Some("get-metatype")
    } else if str_eq(head, "repr") {
        Some("repr")
    } else {
        None
    }
}

/// The prebuilt operation for an interned head and an arity.
fn operation_for(head: &'static str, arity: u8) -> (r: Option<(&'static str, Opcode)>)
    ensures
        r is None <==> builtin_operation(head@, arity) is None,
        r is Some ==> builtin_operation(head@, arity) == Some((r->Some_0.0@, r->Some_0.1)),
{
    if arity == 2 {
        if str_eq(head, "+") {
            Some(("builtin_add", Opcode::Add))
        } else if str_eq(head, "-") {
            Some(("builtin_sub", Opcode::Sub))
        } else if str_eq(head, "*") {
            Some(("builtin_mul", Opcode::Mul))
        } else if str_eq(head, "/") {
            Some(("builtin_div", Opcode::Div))
        } else if str_eq(head, "%") {
            Some(("builtin_mod", Opcode::Mod))
        } else if str_eq(head, "<") {
            Some(("builtin_lt", Opcode::Lt))
        } else if str_eq(head, ">") {
            Some(("builtin_gt", Opcode::Gt))
        } else if str_eq(head, "<=") {
            Some(("builtin_le", Opcode::Le))
        } else if str_eq(head, ">=") {
            Some(("builtin_ge", Opcode::Ge))
        } else if str_eq(head, "==") {
            Some(("builtin_eq", Opcode::Eq))
        } else if str_eq(head, "and") {
            Some(("builtin_and", Opcode::And))
        } else if str_eq(head, "or") {
            Some(("builtin_or", Opcode::Or))
        } else if str_eq(head, "xor") {
            Some(("builtin_xor", Opcode::Xor))
        } else if str_eq(head, "cons-atom") {
            Some(("builtin_cons", Opcode::ConsAtom))
        } else {
            None
        }
    } else if arity == 1 {
        if str_eq(head, "not") {
            Some(("builtin_not", Opcode::Not))
        } else if str_eq(head, "car-atom") {
            Some(("builtin_car", Opcode::GetHead))
        } else if str_eq(head, "cdr-atom") {
            Some(("builtin_cdr", Opcode::GetTail))
        } else if str_eq(head, "size-atom") {
            Some(("builtin_size", Opcode::GetArity))
        } else if str_eq(head, "decons-atom") {
            Some(("builtin_decons", Opcode::DeconsAtom))
        } else if str_eq(head, "get-type") {
            Some(("builtin_get_type", Opcode::GetType))
        } else if str_eq(head, "get-metatype") {
            Some(("builtin_get_metatype", Opcode::GetMetaType))
        } else if str_eq(head, "repr") {
            Some(("builtin_repr", Opcode::Repr))
        } else {
            None
        }
    } else {
        None
    }
}

/// Build the chunk of an operation on `arity` stack arguments.
fn build_op_chunk(name: &str, arity: u8, op: Opcode) -> (r: Arc<BytecodeChunk>)
    ensures
        r@ == builtin_chunk_model(name@, arity, op),
{
    let mut builder = ChunkBuilder::new(name);
    builder.set_arity(arity);
    builder.emit(op);
    builder.emit(Opcode::Return);
    let r = builder.build_arc();
    assert(r@.code =~= seq![opcode_byte(op), opcode_byte(Opcode::Return)]);
    assert(r@.lines =~= seq![(0usize, 1u32)]);
    r
}

/// Build the chunk of a binary operation.
pub fn build_binary_op(name: &str, op: Opcode) -> (r: Arc<BytecodeChunk>)
    ensures
        r@ == builtin_chunk_model(name@, 2, op),
{
    build_op_chunk(name, 2, op)
}

/// Build the chunk of a unary operation.
pub fn build_unary_op(name: &str, op: Opcode) -> (r: Arc<BytecodeChunk>)
    ensures
        r@ == builtin_chunk_model(name@, 1, op),
{
    build_op_chunk(name, 1, op)
}

/// The prebuilt chunk for `head` applied to `arity` arguments, or `None`
/// when the head is not a recognised builtin or the arity is not its own.
pub fn get_builtin_chunk(head: &str, arity: u8) -> (r: Option<Arc<BytecodeChunk>>)
    ensures
        match builtin_operation(head@, arity) {
            None => r is None,
            Some(entry) => r is Some && r->Some_0@ == builtin_chunk_model(entry.0, arity, entry.1),
        },
{
    let interned = intern_head(head);
    match interned {
        None => {
            proof {
                assert(builtin_operation(head@, arity) is None);
            }
            None
        },
        Some(h) => match operation_for(h, arity) {
            None => None,
            Some((name, op)) => {
                if arity == 2 {
                    Some(build_binary_op(name, op))
                } else {
                    Some(build_unary_op(name, op))
                }
            },
        },
    }
}

} // verus!
