//! Operator tables of the compiler: the builtin operations that compile to
//! one opcode after their operands.

use vstd::prelude::*;

use crate::opcode::Opcode;
use crate::text::str_eq;

verus! {

/// Binary operation types for the compiler
#[derive(Debug, Clone, Copy, PartialEq, Eq, Structural)]
pub enum BinaryOp {
    Add,
    Sub,
    Mul,
    Div,
    Mod,
    Pow,
    FloorDiv,
    Log,
    Lt,
    Le,
    Gt,
    Ge,
    Eq,
    Ne,
    And,
    Or,
    Xor,
    IndexAtom,
    CheckType,
    ConsAtom,
    SpaceAdd,
    SpaceRemove,
}

/// The opcode of a binary operation.
pub open spec fn binary_opcode(op: BinaryOp) -> Opcode {
    match op {
        BinaryOp::Add => Opcode::Add,
        BinaryOp::Sub => Opcode::Sub,
        BinaryOp::Mul => Opcode::Mul,
        BinaryOp::Div => Opcode::Div,
        BinaryOp::Mod => Opcode::Mod,
        BinaryOp::Pow => Opcode::Pow,
        BinaryOp::FloorDiv => Opcode::FloorDiv,
        BinaryOp::Log => Opcode::Log,
        BinaryOp::Lt => Opcode::Lt,
        BinaryOp::Le => Opcode::Le,
        BinaryOp::Gt => Opcode::Gt,
        BinaryOp::Ge => Opcode::Ge,
        BinaryOp::Eq => Opcode::Eq,
        BinaryOp::Ne => Opcode::Ne,
        BinaryOp::And => Opcode::And,
        BinaryOp::Or => Opcode::Or,
        BinaryOp::Xor => Opcode::Xor,
        BinaryOp::IndexAtom => Opcode::IndexAtom,
        BinaryOp::CheckType => Opcode::CheckType,
        BinaryOp::ConsAtom => Opcode::ConsAtom,
        BinaryOp::SpaceAdd => Opcode::SpaceAdd,
        BinaryOp::SpaceRemove => Opcode::SpaceRemove,
    }
}

/// The name of a binary operation, as errors report it.
pub open spec fn binary_name(op: BinaryOp) -> Seq<char> {
    match op {
        BinaryOp::Add => "+"@,
        BinaryOp::Sub => "-"@,
        BinaryOp::Mul => "*"@,
        BinaryOp::Div => "/"@,
        BinaryOp::Mod => "%"@,
        BinaryOp::Pow => "pow"@,
        BinaryOp::FloorDiv => "floor-div"@,
        BinaryOp::Log => "log-math"@,
        BinaryOp::Lt => "<"@,
        BinaryOp::Le => "<="@,
        BinaryOp::Gt => ">"@,
        BinaryOp::Ge => ">="@,
        BinaryOp::Eq => "=="@,
        BinaryOp::Ne => "!="@,
        BinaryOp::And => "and"@,
        BinaryOp::Or => "or"@,
        BinaryOp::Xor => "xor"@,
        BinaryOp::IndexAtom => "index-atom"@,
        BinaryOp::CheckType => "check-type"@,
        BinaryOp::ConsAtom => "cons-atom"@,
        BinaryOp::SpaceAdd => "add-atom"@,
        BinaryOp::SpaceRemove => "remove-atom"@,
    }
}

impl BinaryOp {
    /// Get the opcode for this binary operation
    pub fn opcode(self) -> (r: Opcode)
        ensures
            r == binary_opcode(self),
    {
        match self {
            BinaryOp::Add => Opcode::Add,
            BinaryOp::Sub => Opcode::Sub,
            BinaryOp::Mul => Opcode::Mul,
            BinaryOp::Div => Opcode::Div,
            BinaryOp::Mod => Opcode::Mod,
            BinaryOp::Pow => Opcode::Pow,
            BinaryOp::FloorDiv => Opcode::FloorDiv,
            BinaryOp::Log => Opcode::Log,
            BinaryOp::Lt => Opcode::Lt,
            BinaryOp::Le => Opcode::Le,
            BinaryOp::Gt => Opcode::Gt,
            BinaryOp::Ge => Opcode::Ge,
            BinaryOp::Eq => Opcode::Eq,
            BinaryOp::Ne => Opcode::Ne,
            BinaryOp::And => Opcode::And,
            BinaryOp::Or => Opcode::Or,
            BinaryOp::Xor => Opcode::Xor,
            BinaryOp::IndexAtom => Opcode::IndexAtom,
            BinaryOp::CheckType => Opcode::CheckType,
            BinaryOp::ConsAtom => Opcode::ConsAtom,
            BinaryOp::SpaceAdd => Opcode::SpaceAdd,
            BinaryOp::SpaceRemove => Opcode::SpaceRemove,
        }
    }

    /// Get the operation name for error messages
    pub fn name(self) -> (r: &'static str)
        ensures
            r@ == binary_name(self),
    {
        match self {
            BinaryOp::Add => "+",
            BinaryOp::Sub => "-",
            BinaryOp::Mul => "*",
            BinaryOp::Div => "/",
            BinaryOp::Mod => "%",
            BinaryOp::Pow => "pow",
            BinaryOp::FloorDiv => "floor-div",
            BinaryOp::Log => "log-math",
            BinaryOp::Lt => "<",
            BinaryOp::Le => "<=",
            BinaryOp::Gt => ">",
            BinaryOp::Ge => ">=",
            BinaryOp::Eq => "==",
            BinaryOp::Ne => "!=",
            BinaryOp::And => "and",
            BinaryOp::Or => "or",
            BinaryOp::Xor => "xor",
            BinaryOp::IndexAtom => "index-atom",
            BinaryOp::CheckType => "check-type",
            BinaryOp::ConsAtom => "cons-atom",
            BinaryOp::SpaceAdd => "add-atom",
            BinaryOp::SpaceRemove => "remove-atom",
        }
    }
}

/// Unary operation types for the compiler
#[derive(Debug, Clone, Copy, PartialEq, Eq, Structural)]
pub enum UnaryOp {
    Abs,
    Neg,
    Sqrt,
    Trunc,
    Ceil,
    Floor,
    Round,
    Sin,
    Cos,
    Tan,
    Asin,
    Acos,
    Atan,
    Not,
    IsNan,
    IsInf,
    GetHead,
    GetTail,
    GetArity,
    DeconAtom,
    MinAtom,
    MaxAtom,
    GetType,
    GetMetaType,
    Repr,
    NewState,
    GetState,
    SpaceGetAtoms,
    EvalEval,
    EvalCollapse,
    Trace,
}

/// The opcode of a unary operation.
pub open spec fn unary_opcode(op: UnaryOp) -> Opcode {
    match op {
        UnaryOp::Abs => Opcode::Abs,
        UnaryOp::Neg => Opcode::Neg,
        UnaryOp::Sqrt => Opcode::Sqrt,
        UnaryOp::Trunc => Opcode::Trunc,
        UnaryOp::Ceil => Opcode::Ceil,
        UnaryOp::Floor => Opcode::FloorMath,
        UnaryOp::Round => Opcode::Round,
        UnaryOp::Sin => Opcode::Sin,
        UnaryOp::Cos => Opcode::Cos,
        UnaryOp::Tan => Opcode::Tan,
        UnaryOp::Asin => Opcode::Asin,
        UnaryOp::Acos => Opcode::Acos,
        UnaryOp::Atan => Opcode::Atan,
        UnaryOp::Not => Opcode::Not,
        UnaryOp::IsNan => Opcode::IsNan,
        UnaryOp::IsInf => Opcode::IsInf,
        UnaryOp::GetHead => Opcode::GetHead,
        UnaryOp::GetTail => Opcode::GetTail,
        UnaryOp::GetArity => Opcode::GetArity,
        UnaryOp::DeconAtom => Opcode::DeconAtom,
        UnaryOp::MinAtom => Opcode::MinAtom,
        UnaryOp::MaxAtom => Opcode::MaxAtom,
        UnaryOp::GetType => Opcode::GetType,
        UnaryOp::GetMetaType => Opcode::GetMetaType,
        UnaryOp::Repr => Opcode::Repr,
        UnaryOp::NewState => Opcode::NewState,
        UnaryOp::GetState => Opcode::GetState,
        UnaryOp::SpaceGetAtoms => Opcode::SpaceGetAtoms,
        UnaryOp::EvalEval => Opcode::EvalEval,
        UnaryOp::EvalCollapse => Opcode::EvalCollapse,
        UnaryOp::Trace => Opcode::Trace,
    }
}

/// The name of a unary operation, as errors report it.
pub open spec fn unary_name(op: UnaryOp) -> Seq<char> {
    match op {
        UnaryOp::Abs => "abs"@,
        UnaryOp::Neg => "neg"@,
        UnaryOp::Sqrt => "sqrt-math"@,
        UnaryOp::Trunc => "trunc-math"@,
        UnaryOp::Ceil => "ceil-math"@,
        UnaryOp::Floor => "floor-math"@,
        UnaryOp::Round => "round-math"@,
        UnaryOp::Sin => "sin-math"@,
        UnaryOp::Cos => "cos-math"@,
        UnaryOp::Tan => "tan-math"@,
        UnaryOp::Asin => "asin-math"@,
        UnaryOp::Acos => "acos-math"@,
        UnaryOp::Atan => "atan-math"@,
        UnaryOp::Not => "not"@,
        UnaryOp::IsNan => "isnan-math"@,
        UnaryOp::IsInf => "isinf-math"@,
        UnaryOp::GetHead => "car-atom"@,
        UnaryOp::GetTail => "cdr-atom"@,
        UnaryOp::GetArity => "size-atom"@,
        UnaryOp::DeconAtom => "decons-atom"@,
        UnaryOp::MinAtom => "min-atom"@,
        UnaryOp::MaxAtom => "max-atom"@,
        UnaryOp::GetType => "get-type"@,
        UnaryOp::GetMetaType => "get-metatype"@,
        UnaryOp::Repr => "repr"@,
        UnaryOp::NewState => "new-state"@,
        UnaryOp::GetState => "get-state"@,
        UnaryOp::SpaceGetAtoms => "get-atoms"@,
        UnaryOp::EvalEval => "eval"@,
        UnaryOp::EvalCollapse => "collapse"@,
        UnaryOp::Trace => "trace!"@,
    }
}

impl UnaryOp {
    /// Get the opcode for this unary operation
    pub fn opcode(self) -> (r: Opcode)
        ensures
            r == unary_opcode(self),
    {
        match self {
            UnaryOp::Abs => Opcode::Abs,
            UnaryOp::Neg => Opcode::Neg,
            UnaryOp::Sqrt => Opcode::Sqrt,
            UnaryOp::Trunc => Opcode::Trunc,
            UnaryOp::Ceil => Opcode::Ceil,
            UnaryOp::Floor => Opcode::FloorMath,
            UnaryOp::Round => Opcode::Round,
            UnaryOp::Sin => Opcode::Sin,
            UnaryOp::Cos => Opcode::Cos,
            UnaryOp::Tan => Opcode::Tan,
            UnaryOp::Asin => Opcode::Asin,
            UnaryOp::Acos => Opcode::Acos,
            UnaryOp::Atan => Opcode::Atan,
            UnaryOp::Not => Opcode::Not,
            UnaryOp::IsNan => Opcode::IsNan,
            UnaryOp::IsInf => Opcode::IsInf,
            UnaryOp::GetHead => Opcode::GetHead,
            UnaryOp::GetTail => Opcode::GetTail,
            UnaryOp::GetArity => Opcode::GetArity,
            UnaryOp::DeconAtom => Opcode::DeconAtom,
            UnaryOp::MinAtom => Opcode::MinAtom,
            UnaryOp::MaxAtom => Opcode::MaxAtom,
            UnaryOp::GetType => Opcode::GetType,
            UnaryOp::GetMetaType => Opcode::GetMetaType,
            UnaryOp::Repr => Opcode::Repr,
            UnaryOp::NewState => Opcode::NewState,
            UnaryOp::GetState => Opcode::GetState,
            UnaryOp::SpaceGetAtoms => Opcode::SpaceGetAtoms,
            UnaryOp::EvalEval => Opcode::EvalEval,
            UnaryOp::EvalCollapse => Opcode::EvalCollapse,
            UnaryOp::Trace => Opcode::Trace,
        }
    }

    /// Get the operation name for error messages
    pub fn name(self) -> (r: &'static str)
        ensures
            r@ == unary_name(self),
    {
        match self {
            UnaryOp::Abs => "abs",
            UnaryOp::Neg => "neg",
            UnaryOp::Sqrt => "sqrt-math",
            UnaryOp::Trunc => "trunc-math",
            UnaryOp::Ceil => "ceil-math",
            UnaryOp::Floor => "floor-math",
            UnaryOp::Round => "round-math",
            UnaryOp::Sin => "sin-math",
            UnaryOp::Cos => "cos-math",
            UnaryOp::Tan => "tan-math",
            UnaryOp::Asin => "asin-math",
            UnaryOp::Acos => "acos-math",
            UnaryOp::Atan => "atan-math",
            UnaryOp::Not => "not",
            UnaryOp::IsNan => "isnan-math",
            UnaryOp::IsInf => "isinf-math",
            UnaryOp::GetHead => "car-atom",
            UnaryOp::GetTail => "cdr-atom",
            UnaryOp::GetArity => "size-atom",
            UnaryOp::DeconAtom => "decons-atom",
            UnaryOp::MinAtom => "min-atom",
            UnaryOp::MaxAtom => "max-atom",
            UnaryOp::GetType => "get-type",
            UnaryOp::GetMetaType => "get-metatype",
            UnaryOp::Repr => "repr",
            UnaryOp::NewState => "new-state",
            UnaryOp::GetState => "get-state",
            UnaryOp::SpaceGetAtoms => "get-atoms",
            UnaryOp::EvalEval => "eval",
            UnaryOp::EvalCollapse => "collapse",
            UnaryOp::Trace => "trace!",
        }
    }
}

/// The binary operation that a builtin name denotes.
pub open spec fn binary_builtin(name: Seq<char>) -> Option<BinaryOp> {
    if name == "+"@ {
        Some(BinaryOp::Add)
    } else if name == "-"@ {
        Some(BinaryOp::Sub)
    } else if name == "*"@ {
        Some(BinaryOp::Mul)
    } else if name == "/"@ {
        Some(BinaryOp::Div)
    } else if name == "%"@ {
        Some(BinaryOp::Mod)
    } else if name == "mod"@ {
        Some(BinaryOp::Mod)
    } else if name == "pow"@ {
        Some(BinaryOp::Pow)
    } else if name == "pow-math"@ {
        Some(BinaryOp::Pow)
    } else if name == "floor-div"@ {
        Some(BinaryOp::FloorDiv)
    } else if name == "log-math"@ {
        Some(BinaryOp::Log)
    } else if name == "<"@ {
        Some(BinaryOp::Lt)
    } else if name == "<="@ {
        Some(BinaryOp::Le)
    } else if name == ">"@ {
        Some(BinaryOp::Gt)
    } else if name == ">="@ {
        Some(BinaryOp::Ge)
    } else if name == "=="@ {
        Some(BinaryOp::Eq)
    } else if name == "!="@ {
        Some(BinaryOp::Ne)
    } else if name == "and"@ {
        Some(BinaryOp::And)
    } else if name == "or"@ {
        Some(BinaryOp::Or)
    } else if name == "xor"@ {
        Some(BinaryOp::Xor)
    } else if name == "check-type"@ {
        Some(BinaryOp::CheckType)
    } else if name == "cons-atom"@ {
        Some(BinaryOp::ConsAtom)
    } else if name == "index-atom"@ {
        Some(BinaryOp::IndexAtom)
    } else if name == "add-atom"@ {
        Some(BinaryOp::SpaceAdd)
    } else if name == "remove-atom"@ {
        Some(BinaryOp::SpaceRemove)
    } else {
        None
    }
}

/// The name of each binary operation leads back to it.
pub proof fn lemma_binary_name_lookup(op: BinaryOp)
    ensures
        binary_builtin(binary_name(op)) == Some(op),
{
    broadcast use vstd::string::group_string_axioms;

    match op {
        BinaryOp::Add => {
            reveal_strlit("+");
        },
        BinaryOp::Sub => {
            reveal_strlit("-");
            reveal_strlit("+");
            assert("+"@[0] != "-"@[0]);
        },
        BinaryOp::Mul => {
            reveal_strlit("*");
            reveal_strlit("+");
            assert("+"@[0] != "*"@[0]);
            reveal_strlit("-");
            assert("-"@[0] != "*"@[0]);
        },
        BinaryOp::Div => {
            reveal_strlit("/");
            reveal_strlit("+");
            assert("+"@[0] != "/"@[0]);
            reveal_strlit("-");
            assert("-"@[0] != "/"@[0]);
            reveal_strlit("*");
            assert("*"@[0] != "/"@[0]);
        },
        BinaryOp::Mod => {
            reveal_strlit("%");
            reveal_strlit("+");
            assert("+"@[0] != "%"@[0]);
            reveal_strlit("-");
            assert("-"@[0] != "%"@[0]);
            reveal_strlit("*");
            assert("*"@[0] != "%"@[0]);
            reveal_strlit("/");
            assert("/"@[0] != "%"@[0]);
        },
        BinaryOp::Pow => {
            reveal_strlit("pow");
            reveal_strlit("+");
            assert("+"@.len() != "pow"@.len());
            reveal_strlit("-");
            assert("-"@.len() != "pow"@.len());
            reveal_strlit("*");
            assert("*"@.len() != "pow"@.len());
            reveal_strlit("/");
            assert("/"@.len() != "pow"@.len());
            reveal_strlit("%");
            assert("%"@.len() != "pow"@.len());
            reveal_strlit("mod");
            assert("mod"@[0] != "pow"@[0]);
        },
        BinaryOp::FloorDiv => {
            reveal_strlit("floor-div");
            reveal_strlit("+");
            assert("+"@.len() != "floor-div"@.len());
            reveal_strlit("-");
            assert("-"@.len() != "floor-div"@.len());
            reveal_strlit("*");
            assert("*"@.len() != "floor-div"@.len());
            reveal_strlit("/");
            assert("/"@.len() != "floor-div"@.len());
            reveal_strlit("%");
            assert("%"@.len() != "floor-div"@.len());
            reveal_strlit("mod");
            assert("mod"@.len() != "floor-div"@.len());
            reveal_strlit("pow");
            assert("pow"@.len() != "floor-div"@.len());
            reveal_strlit("pow-math");
            assert("pow-math"@.len() != "floor-div"@.len());
        },
        BinaryOp::Log => {
            reveal_strlit("log-math");
            reveal_strlit("+");
            assert("+"@.len() != "log-math"@.len());
            reveal_strlit("-");
            assert("-"@.len() != "log-math"@.len());
            reveal_strlit("*");
            assert("*"@.len() != "log-math"@.len());
            reveal_strlit("/");
            assert("/"@.len() != "log-math"@.len());
            reveal_strlit("%");
            assert("%"@.len() != "log-math"@.len());
            reveal_strlit("mod");
            assert("mod"@.len() != "log-math"@.len());
            reveal_strlit("pow");
            assert("pow"@.len() != "log-math"@.len());
            reveal_strlit("pow-math");
            assert("pow-math"@[0] != "log-math"@[0]);
            reveal_strlit("floor-div");
            assert("floor-div"@.len() != "log-math"@.len());
        },
        BinaryOp::Lt => {
            reveal_strlit("<");
            reveal_strlit("+");
            assert("+"@[0] != "<"@[0]);
            reveal_strlit("-");
            assert("-"@[0] != "<"@[0]);
            reveal_strlit("*");
            assert("*"@[0] != "<"@[0]);
            reveal_strlit("/");
            assert("/"@[0] != "<"@[0]);
            reveal_strlit("%");
            assert("%"@[0] != "<"@[0]);
            reveal_strlit("mod");
            assert("mod"@.len() != "<"@.len());
            reveal_strlit("pow");
            assert("pow"@.len() != "<"@.len());
            reveal_strlit("pow-math");
            assert("pow-math"@.len() != "<"@.len());
            reveal_strlit("floor-div");
            assert("floor-div"@.len() != "<"@.len());
            reveal_strlit("log-math");
            assert("log-math"@.len() != "<"@.len());
        },
        BinaryOp::Le => {
            reveal_strlit("<=");
            reveal_strlit("+");
            assert("+"@.len() != "<="@.len());
            reveal_strlit("-");
            assert("-"@.len() != "<="@.len());
            reveal_strlit("*");
            assert("*"@.len() != "<="@.len());
            reveal_strlit("/");
            assert("/"@.len() != "<="@.len());
            reveal_strlit("%");
            assert("%"@.len() != "<="@.len());
            reveal_strlit("mod");
            assert("mod"@.len() != "<="@.len());
            reveal_strlit("pow");
            assert("pow"@.len() != "<="@.len());
            reveal_strlit("pow-math");
            assert("pow-math"@.len() != "<="@.len());
            reveal_strlit("floor-div");
            assert("floor-div"@.len() != "<="@.len());
            reveal_strlit("log-math");
            assert("log-math"@.len() != "<="@.len());
            reveal_strlit("<");
            assert("<"@.len() != "<="@.len());
        },
        BinaryOp::Gt => {
            reveal_strlit(">");
            reveal_strlit("+");
            assert("+"@[0] != ">"@[0]);
            reveal_strlit("-");
            assert("-"@[0] != ">"@[0]);
            reveal_strlit("*");
            assert("*"@[0] != ">"@[0]);
            reveal_strlit("/");
            assert("/"@[0] != ">"@[0]);
            reveal_strlit("%");
            assert("%"@[0] != ">"@[0]);
            reveal_strlit("mod");
            assert("mod"@.len() != ">"@.len());
            reveal_strlit("pow");
            assert("pow"@.len() != ">"@.len());
            reveal_strlit("pow-math");
            assert("pow-math"@.len() != ">"@.len());
            reveal_strlit("floor-div");
            assert("floor-div"@.len() != ">"@.len());
            reveal_strlit("log-math");
            assert("log-math"@.len() != ">"@.len());
            reveal_strlit("<");
            assert("<"@[0] != ">"@[0]);
            reveal_strlit("<=");
            assert("<="@.len() != ">"@.len());
        },
        BinaryOp::Ge => {
            reveal_strlit(">=");
            reveal_strlit("+");
            assert("+"@.len() != ">="@.len());
            reveal_strlit("-");
            assert("-"@.len() != ">="@.len());
            reveal_strlit("*");
            assert("*"@.len() != ">="@.len());
            reveal_strlit("/");
            assert("/"@.len() != ">="@.len());
            reveal_strlit("%");
            assert("%"@.len() != ">="@.len());
            reveal_strlit("mod");
            assert("mod"@.len() != ">="@.len());
            reveal_strlit("pow");
            assert("pow"@.len() != ">="@.len());
            reveal_strlit("pow-math");
            assert("pow-math"@.len() != ">="@.len());
            reveal_strlit("floor-div");
            assert("floor-div"@.len() != ">="@.len());
            reveal_strlit("log-math");
            assert("log-math"@.len() != ">="@.len());
            reveal_strlit("<");
            assert("<"@.len() != ">="@.len());
            reveal_strlit("<=");
            assert("<="@[0] != ">="@[0]);
            reveal_strlit(">");
            assert(">"@.len() != ">="@.len());
        },
        BinaryOp::Eq => {
            reveal_strlit("==");
            reveal_strlit("+");
            assert("+"@.len() != "=="@.len());
            reveal_strlit("-");
            assert("-"@.len() != "=="@.len());
            reveal_strlit("*");
            assert("*"@.len() != "=="@.len());
            reveal_strlit("/");
            assert("/"@.len() != "=="@.len());
            reveal_strlit("%");
            assert("%"@.len() != "=="@.len());
            reveal_strlit("mod");
            assert("mod"@.len() != "=="@.len());
            reveal_strlit("pow");
            assert("pow"@.len() != "=="@.len());
            reveal_strlit("pow-math");
            assert("pow-math"@.len() != "=="@.len());
            reveal_strlit("floor-div");
            assert("floor-div"@.len() != "=="@.len());
            reveal_strlit("log-math");
            assert("log-math"@.len() != "=="@.len());
            reveal_strlit("<");
            assert("<"@.len() != "=="@.len());
            reveal_strlit("<=");
            assert("<="@[0] != "=="@[0]);
            reveal_strlit(">");
            assert(">"@.len() != "=="@.len());
            reveal_strlit(">=");
            assert(">="@[0] != "=="@[0]);
        },
        BinaryOp::Ne => {
            reveal_strlit("!=");
            reveal_strlit("+");
            assert("+"@.len() != "!="@.len());
            reveal_strlit("-");
            assert("-"@.len() != "!="@.len());
            reveal_strlit("*");
            assert("*"@.len() != "!="@.len());
            reveal_strlit("/");
            assert("/"@.len() != "!="@.len());
            reveal_strlit("%");
            assert("%"@.len() != "!="@.len());
            reveal_strlit("mod");
            assert("mod"@.len() != "!="@.len());
            reveal_strlit("pow");
            assert("pow"@.len() != "!="@.len());
            reveal_strlit("pow-math");
            assert("pow-math"@.len() != "!="@.len());
            reveal_strlit("floor-div");
            assert("floor-div"@.len() != "!="@.len());
            reveal_strlit("log-math");
            assert("log-math"@.len() != "!="@.len());
            reveal_strlit("<");
            assert("<"@.len() != "!="@.len());
            reveal_strlit("<=");
            assert("<="@[0] != "!="@[0]);
            reveal_strlit(">");
            assert(">"@.len() != "!="@.len());
            reveal_strlit(">=");
            assert(">="@[0] != "!="@[0]);
            reveal_strlit("==");
            assert("=="@[0] != "!="@[0]);
        },
        BinaryOp::And => {
            reveal_strlit("and");
            reveal_strlit("+");
            assert("+"@.len() != "and"@.len());
            reveal_strlit("-");
            assert("-"@.len() != "and"@.len());
            reveal_strlit("*");
            assert("*"@.len() != "and"@.len());
            reveal_strlit("/");
            assert("/"@.len() != "and"@.len());
            reveal_strlit("%");
            assert("%"@.len() != "and"@.len());
            reveal_strlit("mod");
            assert("mod"@[0] != "and"@[0]);
            reveal_strlit("pow");
            assert("pow"@[0] != "and"@[0]);
            reveal_strlit("pow-math");
            assert("pow-math"@.len() != "and"@.len());
            reveal_strlit("floor-div");
            assert("floor-div"@.len() != "and"@.len());
            reveal_strlit("log-math");
            assert("log-math"@.len() != "and"@.len());
            reveal_strlit("<");
            assert("<"@.len() != "and"@.len());
            reveal_strlit("<=");
            assert("<="@.len() != "and"@.len());
            reveal_strlit(">");
            assert(">"@.len() != "and"@.len());
            reveal_strlit(">=");
            assert(">="@.len() != "and"@.len());
            reveal_strlit("==");
            assert("=="@.len() != "and"@.len());
            reveal_strlit("!=");
            assert("!="@.len() != "and"@.len());
        },
        BinaryOp::Or => {
            reveal_strlit("or");
            reveal_strlit("+");
            assert("+"@.len() != "or"@.len());
            reveal_strlit("-");
            assert("-"@.len() != "or"@.len());
            reveal_strlit("*");
            assert("*"@.len() != "or"@.len());
            reveal_strlit("/");
            assert("/"@.len() != "or"@.len());
            reveal_strlit("%");
            assert("%"@.len() != "or"@.len());
            reveal_strlit("mod");
            assert("mod"@.len() != "or"@.len());
            reveal_strlit("pow");
            assert("pow"@.len() != "or"@.len());
            reveal_strlit("pow-math");
            assert("pow-math"@.len() != "or"@.len());
            reveal_strlit("floor-div");
            assert("floor-div"@.len() != "or"@.len());
            reveal_strlit("log-math");
            assert("log-math"@.len() != "or"@.len());
            reveal_strlit("<");
            assert("<"@.len() != "or"@.len());
            reveal_strlit("<=");
            assert("<="@[0] != "or"@[0]);
            reveal_strlit(">");
            assert(">"@.len() != "or"@.len());
            reveal_strlit(">=");
            assert(">="@[0] != "or"@[0]);
            reveal_strlit("==");
            assert("=="@[0] != "or"@[0]);
            reveal_strlit("!=");
            assert("!="@[0] != "or"@[0]);
            reveal_strlit("and");
            assert("and"@.len() != "or"@.len());
        },
        BinaryOp::Xor => {
            reveal_strlit("xor");
            reveal_strlit("+");
            assert("+"@.len() != "xor"@.len());
            reveal_strlit("-");
            assert("-"@.len() != "xor"@.len());
            reveal_strlit("*");
            assert("*"@.len() != "xor"@.len());
            reveal_strlit("/");
            assert("/"@.len() != "xor"@.len());
            reveal_strlit("%");
            assert("%"@.len() != "xor"@.len());
            reveal_strlit("mod");
            assert("mod"@[0] != "xor"@[0]);
            reveal_strlit("pow");
            assert("pow"@[0] != "xor"@[0]);
            reveal_strlit("pow-math");
            assert("pow-math"@.len() != "xor"@.len());
            reveal_strlit("floor-div");
            assert("floor-div"@.len() != "xor"@.len());
            reveal_strlit("log-math");
            assert("log-math"@.len() != "xor"@.len());
            reveal_strlit("<");
            assert("<"@.len() != "xor"@.len());
            reveal_strlit("<=");
            assert("<="@.len() != "xor"@.len());
            reveal_strlit(">");
            assert(">"@.len() != "xor"@.len());
            reveal_strlit(">=");
            assert(">="@.len() != "xor"@.len());
            reveal_strlit("==");
            assert("=="@.len() != "xor"@.len());
            reveal_strlit("!=");
            assert("!="@.len() != "xor"@.len());
            reveal_strlit("and");
            assert("and"@[0] != "xor"@[0]);
            reveal_strlit("or");
            assert("or"@.len() != "xor"@.len());
        },
        BinaryOp::IndexAtom => {
            reveal_strlit("index-atom");
            reveal_strlit("+");
            assert("+"@.len() != "index-atom"@.len());
            reveal_strlit("-");
            assert("-"@.len() != "index-atom"@.len());
            reveal_strlit("*");
            assert("*"@.len() != "index-atom"@.len());
            reveal_strlit("/");
            assert("/"@.len() != "index-atom"@.len());
            reveal_strlit("%");
            assert("%"@.len() != "index-atom"@.len());
            reveal_strlit("mod");
            assert("mod"@.len() != "index-atom"@.len());
            reveal_strlit("pow");
            assert("pow"@.len() != "index-atom"@.len());
            reveal_strlit("pow-math");
            assert("pow-math"@.len() != "index-atom"@.len());
            reveal_strlit("floor-div");
            assert("floor-div"@.len() != "index-atom"@.len());
            reveal_strlit("log-math");
            assert("log-math"@.len() != "index-atom"@.len());
            reveal_strlit("<");
            assert("<"@.len() != "index-atom"@.len());
            reveal_strlit("<=");
            assert("<="@.len() != "index-atom"@.len());
            reveal_strlit(">");
            assert(">"@.len() != "index-atom"@.len());
            reveal_strlit(">=");
            assert(">="@.len() != "index-atom"@.len());
            reveal_strlit("==");
            assert("=="@.len() != "index-atom"@.len());
            reveal_strlit("!=");
            assert("!="@.len() != "index-atom"@.len());
            reveal_strlit("and");
            assert("and"@.len() != "index-atom"@.len());
            reveal_strlit("or");
            assert("or"@.len() != "index-atom"@.len());
            reveal_strlit("xor");
            assert("xor"@.len() != "index-atom"@.len());
            reveal_strlit("check-type");
            assert("check-type"@[0] != "index-atom"@[0]);
            reveal_strlit("cons-atom");
            assert("cons-atom"@.len() != "index-atom"@.len());
        },
        BinaryOp::CheckType => {
            reveal_strlit("check-type");
            reveal_strlit("+");
            assert("+"@.len() != "check-type"@.len());
            reveal_strlit("-");
            assert("-"@.len() != "check-type"@.len());
            reveal_strlit("*");
            assert("*"@.len() != "check-type"@.len());
            reveal_strlit("/");
            assert("/"@.len() != "check-type"@.len());
            reveal_strlit("%");
            assert("%"@.len() != "check-type"@.len());
            reveal_strlit("mod");
            assert("mod"@.len() != "check-type"@.len());
            reveal_strlit("pow");
            assert("pow"@.len() != "check-type"@.len());
            reveal_strlit("pow-math");
            assert("pow-math"@.len() != "check-type"@.len());
            reveal_strlit("floor-div");
            assert("floor-div"@.len() != "check-type"@.len());
            reveal_strlit("log-math");
            assert("log-math"@.len() != "check-type"@.len());
            reveal_strlit("<");
            assert("<"@.len() != "check-type"@.len());
            reveal_strlit("<=");
            assert("<="@.len() != "check-type"@.len());
            reveal_strlit(">");
            assert(">"@.len() != "check-type"@.len());
            reveal_strlit(">=");
            assert(">="@.len() != "check-type"@.len());
            reveal_strlit("==");
            assert("=="@.len() != "check-type"@.len());
            reveal_strlit("!=");
            assert("!="@.len() != "check-type"@.len());
            reveal_strlit("and");
            assert("and"@.len() != "check-type"@.len());
            reveal_strlit("or");
            assert("or"@.len() != "check-type"@.len());
            reveal_strlit("xor");
            assert("xor"@.len() != "check-type"@.len());
        },
        BinaryOp::ConsAtom => {
            reveal_strlit("cons-atom");
            reveal_strlit("+");
            assert("+"@.len() != "cons-atom"@.len());
            reveal_strlit("-");
            assert("-"@.len() != "cons-atom"@.len());
            reveal_strlit("*");
            assert("*"@.len() != "cons-atom"@.len());
            reveal_strlit("/");
            assert("/"@.len() != "cons-atom"@.len());
            reveal_strlit("%");
            assert("%"@.len() != "cons-atom"@.len());
            reveal_strlit("mod");
            assert("mod"@.len() != "cons-atom"@.len());
            reveal_strlit("pow");
            assert("pow"@.len() != "cons-atom"@.len());
            reveal_strlit("pow-math");
            assert("pow-math"@.len() != "cons-atom"@.len());
            reveal_strlit("floor-div");
            assert("floor-div"@[0] != "cons-atom"@[0]);
            reveal_strlit("log-math");
            assert("log-math"@.len() != "cons-atom"@.len());
            reveal_strlit("<");
            assert("<"@.len() != "cons-atom"@.len());
            reveal_strlit("<=");
            assert("<="@.len() != "cons-atom"@.len());
            reveal_strlit(">");
            assert(">"@.len() != "cons-atom"@.len());
            reveal_strlit(">=");
            assert(">="@.len() != "cons-atom"@.len());
            reveal_strlit("==");
            assert("=="@.len() != "cons-atom"@.len());
            reveal_strlit("!=");
            assert("!="@.len() != "cons-atom"@.len());
            reveal_strlit("and");
            assert("and"@.len() != "cons-atom"@.len());
            reveal_strlit("or");
            assert("or"@.len() != "cons-atom"@.len());
            reveal_strlit("xor");
            assert("xor"@.len() != "cons-atom"@.len());
            reveal_strlit("check-type");
            assert("check-type"@.len() != "cons-atom"@.len());
        },
        BinaryOp::SpaceAdd => {
            reveal_strlit("add-atom");
            reveal_strlit("+");
            assert("+"@.len() != "add-atom"@.len());
            reveal_strlit("-");
            assert("-"@.len() != "add-atom"@.len());
            reveal_strlit("*");
            assert("*"@.len() != "add-atom"@.len());
            reveal_strlit("/");
            assert("/"@.len() != "add-atom"@.len());
            reveal_strlit("%");
            assert("%"@.len() != "add-atom"@.len());
            reveal_strlit("mod");
            assert("mod"@.len() != "add-atom"@.len());
            reveal_strlit("pow");
            assert("pow"@.len() != "add-atom"@.len());
            reveal_strlit("pow-math");
            assert("pow-math"@[0] != "add-atom"@[0]);
            reveal_strlit("floor-div");
            assert("floor-div"@.len() != "add-atom"@.len());
            reveal_strlit("log-math");
            assert("log-math"@[0] != "add-atom"@[0]);
            reveal_strlit("<");
            assert("<"@.len() != "add-atom"@.len());
            reveal_strlit("<=");
            assert("<="@.len() != "add-atom"@.len());
            reveal_strlit(">");
            assert(">"@.len() != "add-atom"@.len());
            reveal_strlit(">=");
            assert(">="@.len() != "add-atom"@.len());
            reveal_strlit("==");
            assert("=="@.len() != "add-atom"@.len());
            reveal_strlit("!=");
            assert("!="@.len() != "add-atom"@.len());
            reveal_strlit("and");
            assert("and"@.len() != "add-atom"@.len());
            reveal_strlit("or");
            assert("or"@.len() != "add-atom"@.len());
            reveal_strlit("xor");
            assert("xor"@.len() != "add-atom"@.len());
            reveal_strlit("check-type");
            assert("check-type"@.len() != "add-atom"@.len());
            reveal_strlit("cons-atom");
            assert("cons-atom"@.len() != "add-atom"@.len());
            reveal_strlit("index-atom");
            assert("index-atom"@.len() != "add-atom"@.len());
        },
        BinaryOp::SpaceRemove => {
            reveal_strlit("remove-atom");
            reveal_strlit("+");
            assert("+"@.len() != "remove-atom"@.len());
            reveal_strlit("-");
            assert("-"@.len() != "remove-atom"@.len());
            reveal_strlit("*");
            assert("*"@.len() != "remove-atom"@.len());
            reveal_strlit("/");
            assert("/"@.len() != "remove-atom"@.len());
            reveal_strlit("%");
            assert("%"@.len() != "remove-atom"@.len());
            reveal_strlit("mod");
            assert("mod"@.len() != "remove-atom"@.len());
            reveal_strlit("pow");
            assert("pow"@.len() != "remove-atom"@.len());
            reveal_strlit("pow-math");
            assert("pow-math"@.len() != "remove-atom"@.len());
            reveal_strlit("floor-div");
            assert("floor-div"@.len() != "remove-atom"@.len());
            reveal_strlit("log-math");
            assert("log-math"@.len() != "remove-atom"@.len());
            reveal_strlit("<");
            assert("<"@.len() != "remove-atom"@.len());
            reveal_strlit("<=");
            assert("<="@.len() != "remove-atom"@.len());
            reveal_strlit(">");
            assert(">"@.len() != "remove-atom"@.len());
            reveal_strlit(">=");
            assert(">="@.len() != "remove-atom"@.len());
            reveal_strlit("==");
            assert("=="@.len() != "remove-atom"@.len());
            reveal_strlit("!=");
            assert("!="@.len() != "remove-atom"@.len());
            reveal_strlit("and");
            assert("and"@.len() != "remove-atom"@.len());
            reveal_strlit("or");
            assert("or"@.len() != "remove-atom"@.len());
            reveal_strlit("xor");
            assert("xor"@.len() != "remove-atom"@.len());
            reveal_strlit("check-type");
            assert("check-type"@.len() != "remove-atom"@.len());
            reveal_strlit("cons-atom");
            assert("cons-atom"@.len() != "remove-atom"@.len());
            reveal_strlit("index-atom");
            assert("index-atom"@.len() != "remove-atom"@.len());
            reveal_strlit("add-atom");
            assert("add-atom"@.len() != "remove-atom"@.len());
        },
    }
}

/// Distinct binary operations carry distinct names.
pub proof fn lemma_binary_names_distinct(a: BinaryOp, b: BinaryOp)
    ensures
        (binary_name(a) == binary_name(b)) == (a == b),
{
    lemma_binary_name_lookup(a);
    lemma_binary_name_lookup(b);
}

/// The unary operation that a builtin name denotes.
pub open spec fn unary_builtin(name: Seq<char>) -> Option<UnaryOp> {
    if name == "abs"@ {
        Some(UnaryOp::Abs)
    } else if name == "abs-math"@ {
        Some(UnaryOp::Abs)
    } else if name == "neg"@ {
        Some(UnaryOp::Neg)
    } else if name == "sqrt-math"@ {
        Some(UnaryOp::Sqrt)
    } else if name == "trunc-math"@ {
        Some(UnaryOp::Trunc)
    } else if name == "ceil-math"@ {
        Some(UnaryOp::Ceil)
    } else if name == "floor-math"@ {
        Some(UnaryOp::Floor)
    } else if name == "round-math"@ {
        Some(UnaryOp::Round)
    } else if name == "sin-math"@ {
        Some(UnaryOp::Sin)
    } else if name == "cos-math"@ {
        Some(UnaryOp::Cos)
    } else if name == "tan-math"@ {
        Some(UnaryOp::Tan)
    } else if name == "asin-math"@ {
        Some(UnaryOp::Asin)
    } else if name == "acos-math"@ {
        Some(UnaryOp::Acos)
    } else if name == "atan-math"@ {
        Some(UnaryOp::Atan)
    } else if name == "isnan-math"@ {
        Some(UnaryOp::IsNan)
    } else if name == "isinf-math"@ {
        Some(UnaryOp::IsInf)
    } else if name == "not"@ {
        Some(UnaryOp::Not)
    } else if name == "eval"@ {
        Some(UnaryOp::EvalEval)
    } else if name == "get-type"@ {
        Some(UnaryOp::GetType)
    } else if name == "get-metatype"@ {
        Some(UnaryOp::GetMetaType)
    } else if name == "collapse"@ {
        Some(UnaryOp::EvalCollapse)
    } else if name == "car-atom"@ {
        Some(UnaryOp::GetHead)
    } else if name == "cdr-atom"@ {
        Some(UnaryOp::GetTail)
    } else if name == "size-atom"@ {
        Some(UnaryOp::GetArity)
    } else if name == "decons-atom"@ {
        Some(UnaryOp::DeconAtom)
    } else if name == "repr"@ {
        Some(UnaryOp::Repr)
    } else if name == "min-atom"@ {
        Some(UnaryOp::MinAtom)
    } else if name == "max-atom"@ {
        Some(UnaryOp::MaxAtom)
    } else if name == "get-atoms"@ {
        Some(UnaryOp::SpaceGetAtoms)
    } else if name == "new-state"@ {
        Some(UnaryOp::NewState)
    } else if name == "get-state"@ {
        Some(UnaryOp::GetState)
    } else if name == "trace!"@ {
        Some(UnaryOp::Trace)
    } else {
        None
    }
}

/// The instruction that the builtin `name` of one argument compiles to.
pub open spec fn unary_builtin_opcode(name: Seq<char>) -> Option<Opcode> {
    match unary_builtin(name) {
        Some(op) => Some(unary_opcode(op)),
        None => None,
    }
}

/// The instruction that the builtin `name` of two arguments compiles to.
pub open spec fn binary_builtin_opcode(name: Seq<char>) -> Option<Opcode> {
    match binary_builtin(name) {
        Some(op) => Some(binary_opcode(op)),
        None => None,
    }
}

/// Each builtin of one argument compiles to the instruction of the same
/// operation: `sqrt-math` to `Sqrt`, `not` to `Not`, `car-atom` to
/// `GetHead`, and so on for every name the compiler knows.
pub proof fn lemma_unary_builtin_instructions()
    ensures
        unary_builtin_opcode("abs"@) == Some(Opcode::Abs),
        unary_builtin_opcode("abs-math"@) == Some(Opcode::Abs),
        unary_builtin_opcode("neg"@) == Some(Opcode::Neg),
        unary_builtin_opcode("sqrt-math"@) == Some(Opcode::Sqrt),
        unary_builtin_opcode("trunc-math"@) == Some(Opcode::Trunc),
        unary_builtin_opcode("ceil-math"@) == Some(Opcode::Ceil),
        unary_builtin_opcode("floor-math"@) == Some(Opcode::FloorMath),
        unary_builtin_opcode("round-math"@) == Some(Opcode::Round),
        unary_builtin_opcode("sin-math"@) == Some(Opcode::Sin),
        unary_builtin_opcode("cos-math"@) == Some(Opcode::Cos),
        unary_builtin_opcode("tan-math"@) == Some(Opcode::Tan),
        unary_builtin_opcode("asin-math"@) == Some(Opcode::Asin),
        unary_builtin_opcode("acos-math"@) == Some(Opcode::Acos),
        unary_builtin_opcode("atan-math"@) == Some(Opcode::Atan),
        unary_builtin_opcode("isnan-math"@) == Some(Opcode::IsNan),
        unary_builtin_opcode("isinf-math"@) == Some(Opcode::IsInf),
        unary_builtin_opcode("not"@) == Some(Opcode::Not),
        unary_builtin_opcode("eval"@) == Some(Opcode::EvalEval),
        unary_builtin_opcode("get-type"@) == Some(Opcode::GetType),
        unary_builtin_opcode("get-metatype"@) == Some(Opcode::GetMetaType),
        unary_builtin_opcode("collapse"@) == Some(Opcode::EvalCollapse),
        unary_builtin_opcode("car-atom"@) == Some(Opcode::GetHead),
        unary_builtin_opcode("cdr-atom"@) == Some(Opcode::GetTail),
        unary_builtin_opcode("size-atom"@) == Some(Opcode::GetArity),
        unary_builtin_opcode("decons-atom"@) == Some(Opcode::DeconAtom),
        unary_builtin_opcode("repr"@) == Some(Opcode::Repr),
        unary_builtin_opcode("min-atom"@) == Some(Opcode::MinAtom),
        unary_builtin_opcode("max-atom"@) == Some(Opcode::MaxAtom),
        unary_builtin_opcode("get-atoms"@) == Some(Opcode::SpaceGetAtoms),
        unary_builtin_opcode("new-state"@) == Some(Opcode::NewState),
        unary_builtin_opcode("get-state"@) == Some(Opcode::GetState),
        unary_builtin_opcode("trace!"@) == Some(Opcode::Trace),
{
    broadcast use vstd::string::group_string_axioms;

    {
        reveal_strlit("abs");
    }
    {
        reveal_strlit("abs-math");
        reveal_strlit("abs");
        assert("abs"@.len() != "abs-math"@.len());
    }
    {
        reveal_strlit("neg");
        reveal_strlit("abs");
        assert("abs"@[0] != "neg"@[0]);
        reveal_strlit("abs-math");
        assert("abs-math"@.len() != "neg"@.len());
    }
    {
        reveal_strlit("sqrt-math");
        reveal_strlit("abs");
        assert("abs"@.len() != "sqrt-math"@.len());
        reveal_strlit("abs-math");
        assert("abs-math"@.len() != "sqrt-math"@.len());
        reveal_strlit("neg");
        assert("neg"@.len() != "sqrt-math"@.len());
    }
    {
        reveal_strlit("trunc-math");
        reveal_strlit("abs");
        assert("abs"@.len() != "trunc-math"@.len());
        reveal_strlit("abs-math");
        assert("abs-math"@.len() != "trunc-math"@.len());
        reveal_strlit("neg");
        assert("neg"@.len() != "trunc-math"@.len());
        reveal_strlit("sqrt-math");
        assert("sqrt-math"@.len() != "trunc-math"@.len());
    }
    {
        reveal_strlit("ceil-math");
        reveal_strlit("abs");
        assert("abs"@.len() != "ceil-math"@.len());
        reveal_strlit("abs-math");
        assert("abs-math"@.len() != "ceil-math"@.len());
        reveal_strlit("neg");
        assert("neg"@.len() != "ceil-math"@.len());
        reveal_strlit("sqrt-math");
        assert("sqrt-math"@[0] != "ceil-math"@[0]);
        reveal_strlit("trunc-math");
        assert("trunc-math"@.len() != "ceil-math"@.len());
    }
    {
        reveal_strlit("floor-math");
        reveal_strlit("abs");
        assert("abs"@.len() != "floor-math"@.len());
        reveal_strlit("abs-math");
        assert("abs-math"@.len() != "floor-math"@.len());
        reveal_strlit("neg");
        assert("neg"@.len() != "floor-math"@.len());
        reveal_strlit("sqrt-math");
        assert("sqrt-math"@.len() != "floor-math"@.len());
        reveal_strlit("trunc-math");
        assert("trunc-math"@[0] != "floor-math"@[0]);
        reveal_strlit("ceil-math");
        assert("ceil-math"@.len() != "floor-math"@.len());
    }
    {
        reveal_strlit("round-math");
        reveal_strlit("abs");
        assert("abs"@.len() != "round-math"@.len());
        reveal_strlit("abs-math");
        assert("abs-math"@.len() != "round-math"@.len());
        reveal_strlit("neg");
        assert("neg"@.len() != "round-math"@.len());
        reveal_strlit("sqrt-math");
        assert("sqrt-math"@.len() != "round-math"@.len());
        reveal_strlit("trunc-math");
        assert("trunc-math"@[0] != "round-math"@[0]);
        reveal_strlit("ceil-math");
        assert("ceil-math"@.len() != "round-math"@.len());
        reveal_strlit("floor-math");
        assert("floor-math"@[0] != "round-math"@[0]);
    }
    {
        reveal_strlit("sin-math");
        reveal_strlit("abs");
        assert("abs"@.len() != "sin-math"@.len());
        reveal_strlit("abs-math");
        assert("abs-math"@[0] != "sin-math"@[0]);
        reveal_strlit("neg");
        assert("neg"@.len() != "sin-math"@.len());
        reveal_strlit("sqrt-math");
        assert("sqrt-math"@.len() != "sin-math"@.len());
        reveal_strlit("trunc-math");
        assert("trunc-math"@.len() != "sin-math"@.len());
        reveal_strlit("ceil-math");
        assert("ceil-math"@.len() != "sin-math"@.len());
        reveal_strlit("floor-math");
        assert("floor-math"@.len() != "sin-math"@.len());
        reveal_strlit("round-math");
        assert("round-math"@.len() != "sin-math"@.len());
    }
    {
        reveal_strlit("cos-math");
        reveal_strlit("abs");
        assert("abs"@.len() != "cos-math"@.len());
        reveal_strlit("abs-math");
        assert("abs-math"@[0] != "cos-math"@[0]);
        reveal_strlit("neg");
        assert("neg"@.len() != "cos-math"@.len());
        reveal_strlit("sqrt-math");
        assert("sqrt-math"@.len() != "cos-math"@.len());
        reveal_strlit("trunc-math");
        assert("trunc-math"@.len() != "cos-math"@.len());
        reveal_strlit("ceil-math");
        assert("ceil-math"@.len() != "cos-math"@.len());
        reveal_strlit("floor-math");
        assert("floor-math"@.len() != "cos-math"@.len());
        reveal_strlit("round-math");
        assert("round-math"@.len() != "cos-math"@.len());
        reveal_strlit("sin-math");
        assert("sin-math"@[0] != "cos-math"@[0]);
    }
    {
        reveal_strlit("tan-math");
        reveal_strlit("abs");
        assert("abs"@.len() != "tan-math"@.len());
        reveal_strlit("abs-math");
        assert("abs-math"@[0] != "tan-math"@[0]);
        reveal_strlit("neg");
        assert("neg"@.len() != "tan-math"@.len());
        reveal_strlit("sqrt-math");
        assert("sqrt-math"@.len() != "tan-math"@.len());
        reveal_strlit("trunc-math");
        assert("trunc-math"@.len() != "tan-math"@.len());
        reveal_strlit("ceil-math");
        assert("ceil-math"@.len() != "tan-math"@.len());
        reveal_strlit("floor-math");
        assert("floor-math"@.len() != "tan-math"@.len());
        reveal_strlit("round-math");
        assert("round-math"@.len() != "tan-math"@.len());
        reveal_strlit("sin-math");
        assert("sin-math"@[0] != "tan-math"@[0]);
        reveal_strlit("cos-math");
        assert("cos-math"@[0] != "tan-math"@[0]);
    }
    {
        reveal_strlit("asin-math");
        reveal_strlit("abs");
        assert("abs"@.len() != "asin-math"@.len());
        reveal_strlit("abs-math");
        assert("abs-math"@.len() != "asin-math"@.len());
        reveal_strlit("neg");
        assert("neg"@.len() != "asin-math"@.len());
        reveal_strlit("sqrt-math");
        assert("sqrt-math"@[0] != "asin-math"@[0]);
        reveal_strlit("trunc-math");
        assert("trunc-math"@.len() != "asin-math"@.len());
        reveal_strlit("ceil-math");
        assert("ceil-math"@[0] != "asin-math"@[0]);
        reveal_strlit("floor-math");
        assert("floor-math"@.len() != "asin-math"@.len());
        reveal_strlit("round-math");
        assert("round-math"@.len() != "asin-math"@.len());
        reveal_strlit("sin-math");
        assert("sin-math"@.len() != "asin-math"@.len());
        reveal_strlit("cos-math");
        assert("cos-math"@.len() != "asin-math"@.len());
        reveal_strlit("tan-math");
        assert("tan-math"@.len() != "asin-math"@.len());
    }
    {
        reveal_strlit("acos-math");
        reveal_strlit("abs");
        assert("abs"@.len() != "acos-math"@.len());
        reveal_strlit("abs-math");
        assert("abs-math"@.len() != "acos-math"@.len());
        reveal_strlit("neg");
        assert("neg"@.len() != "acos-math"@.len());
        reveal_strlit("sqrt-math");
        assert("sqrt-math"@[0] != "acos-math"@[0]);
        reveal_strlit("trunc-math");
        assert("trunc-math"@.len() != "acos-math"@.len());
        reveal_strlit("ceil-math");
        assert("ceil-math"@[0] != "acos-math"@[0]);
        reveal_strlit("floor-math");
        assert("floor-math"@.len() != "acos-math"@.len());
        reveal_strlit("round-math");
        assert("round-math"@.len() != "acos-math"@.len());
        reveal_strlit("sin-math");
        assert("sin-math"@.len() != "acos-math"@.len());
        reveal_strlit("cos-math");
        assert("cos-math"@.len() != "acos-math"@.len());
        reveal_strlit("tan-math");
        assert("tan-math"@.len() != "acos-math"@.len());
        reveal_strlit("asin-math");
        assert("asin-math"@[1] != "acos-math"@[1]);
    }
    {
        reveal_strlit("atan-math");
        reveal_strlit("abs");
        assert("abs"@.len() != "atan-math"@.len());
        reveal_strlit("abs-math");
        assert("abs-math"@.len() != "atan-math"@.len());
        reveal_strlit("neg");
        assert("neg"@.len() != "atan-math"@.len());
        reveal_strlit("sqrt-math");
        assert("sqrt-math"@[0] != "atan-math"@[0]);
        reveal_strlit("trunc-math");
        assert("trunc-math"@.len() != "atan-math"@.len());
        reveal_strlit("ceil-math");
        assert("ceil-math"@[0] != "atan-math"@[0]);
        reveal_strlit("floor-math");
        assert("floor-math"@.len() != "atan-math"@.len());
        reveal_strlit("round-math");
        assert("round-math"@.len() != "atan-math"@.len());
        reveal_strlit("sin-math");
        assert("sin-math"@.len() != "atan-math"@.len());
        reveal_strlit("cos-math");
        assert("cos-math"@.len() != "atan-math"@.len());
        reveal_strlit("tan-math");
        assert("tan-math"@.len() != "atan-math"@.len());
        reveal_strlit("asin-math");
        assert("asin-math"@[1] != "atan-math"@[1]);
        reveal_strlit("acos-math");
        assert("acos-math"@[1] != "atan-math"@[1]);
    }
    {
        reveal_strlit("isnan-math");
        reveal_strlit("abs");
        assert("abs"@.len() != "isnan-math"@.len());
        reveal_strlit("abs-math");
        assert("abs-math"@.len() != "isnan-math"@.len());
        reveal_strlit("neg");
        assert("neg"@.len() != "isnan-math"@.len());
        reveal_strlit("sqrt-math");
        assert("sqrt-math"@.len() != "isnan-math"@.len());
        reveal_strlit("trunc-math");
        assert("trunc-math"@[0] != "isnan-math"@[0]);
        reveal_strlit("ceil-math");
        assert("ceil-math"@.len() != "isnan-math"@.len());
        reveal_strlit("floor-math");
        assert("floor-math"@[0] != "isnan-math"@[0]);
        reveal_strlit("round-math");
        assert("round-math"@[0] != "isnan-math"@[0]);
        reveal_strlit("sin-math");
        assert("sin-math"@.len() != "isnan-math"@.len());
        reveal_strlit("cos-math");
        assert("cos-math"@.len() != "isnan-math"@.len());
        reveal_strlit("tan-math");
        assert("tan-math"@.len() != "isnan-math"@.len());
        reveal_strlit("asin-math");
        assert("asin-math"@.len() != "isnan-math"@.len());
        reveal_strlit("acos-math");
        assert("acos-math"@.len() != "isnan-math"@.len());
        reveal_strlit("atan-math");
        assert("atan-math"@.len() != "isnan-math"@.len());
    }
    {
        reveal_strlit("isinf-math");
        reveal_strlit("abs");
        assert("abs"@.len() != "isinf-math"@.len());
        reveal_strlit("abs-math");
        assert("abs-math"@.len() != "isinf-math"@.len());
        reveal_strlit("neg");
        assert("neg"@.len() != "isinf-math"@.len());
        reveal_strlit("sqrt-math");
        assert("sqrt-math"@.len() != "isinf-math"@.len());
        reveal_strlit("trunc-math");
        assert("trunc-math"@[0] != "isinf-math"@[0]);
        reveal_strlit("ceil-math");
        assert("ceil-math"@.len() != "isinf-math"@.len());
        reveal_strlit("floor-math");
        assert("floor-math"@[0] != "isinf-math"@[0]);
        reveal_strlit("round-math");
        assert("round-math"@[0] != "isinf-math"@[0]);
        reveal_strlit("sin-math");
        assert("sin-math"@.len() != "isinf-math"@.len());
        reveal_strlit("cos-math");
        assert("cos-math"@.len() != "isinf-math"@.len());
        reveal_strlit("tan-math");
        assert("tan-math"@.len() != "isinf-math"@.len());
        reveal_strlit("asin-math");
        assert("asin-math"@.len() != "isinf-math"@.len());
        reveal_strlit("acos-math");
        assert("acos-math"@.len() != "isinf-math"@.len());
        reveal_strlit("atan-math");
        assert("atan-math"@.len() != "isinf-math"@.len());
        reveal_strlit("isnan-math");
        assert("isnan-math"@[2] != "isinf-math"@[2]);
    }
    {
        reveal_strlit("not");
        reveal_strlit("abs");
        assert("abs"@[0] != "not"@[0]);
        reveal_strlit("abs-math");
        assert("abs-math"@.len() != "not"@.len());
        reveal_strlit("neg");
        assert("neg"@[1] != "not"@[1]);
        reveal_strlit("sqrt-math");
        assert("sqrt-math"@.len() != "not"@.len());
        reveal_strlit("trunc-math");
        assert("trunc-math"@.len() != "not"@.len());
        reveal_strlit("ceil-math");
        assert("ceil-math"@.len() != "not"@.len());
        reveal_strlit("floor-math");
        assert("floor-math"@.len() != "not"@.len());
        reveal_strlit("round-math");
        assert("round-math"@.len() != "not"@.len());
        reveal_strlit("sin-math");
        assert("sin-math"@.len() != "not"@.len());
        reveal_strlit("cos-math");
        assert("cos-math"@.len() != "not"@.len());
        reveal_strlit("tan-math");
        assert("tan-math"@.len() != "not"@.len());
        reveal_strlit("asin-math");
        assert("asin-math"@.len() != "not"@.len());
        reveal_strlit("acos-math");
        assert("acos-math"@.len() != "not"@.len());
        reveal_strlit("atan-math");
        assert("atan-math"@.len() != "not"@.len());
        reveal_strlit("isnan-math");
        assert("isnan-math"@.len() != "not"@.len());
        reveal_strlit("isinf-math");
        assert("isinf-math"@.len() != "not"@.len());
    }
    {
        reveal_strlit("eval");
        reveal_strlit("abs");
        assert("abs"@.len() != "eval"@.len());
        reveal_strlit("abs-math");
        assert("abs-math"@.len() != "eval"@.len());
        reveal_strlit("neg");
        assert("neg"@.len() != "eval"@.len());
        reveal_strlit("sqrt-math");
        assert("sqrt-math"@.len() != "eval"@.len());
        reveal_strlit("trunc-math");
        assert("trunc-math"@.len() != "eval"@.len());
        reveal_strlit("ceil-math");
        assert("ceil-math"@.len() != "eval"@.len());
        reveal_strlit("floor-math");
        assert("floor-math"@.len() != "eval"@.len());
        reveal_strlit("round-math");
        assert("round-math"@.len() != "eval"@.len());
        reveal_strlit("sin-math");
        assert("sin-math"@.len() != "eval"@.len());
        reveal_strlit("cos-math");
        assert("cos-math"@.len() != "eval"@.len());
        reveal_strlit("tan-math");
        assert("tan-math"@.len() != "eval"@.len());
        reveal_strlit("asin-math");
        assert("asin-math"@.len() != "eval"@.len());
        reveal_strlit("acos-math");
        assert("acos-math"@.len() != "eval"@.len());
        reveal_strlit("atan-math");
        assert("atan-math"@.len() != "eval"@.len());
        reveal_strlit("isnan-math");
        assert("isnan-math"@.len() != "eval"@.len());
        reveal_strlit("isinf-math");
        assert("isinf-math"@.len() != "eval"@.len());
        reveal_strlit("not");
        assert("not"@.len() != "eval"@.len());
    }
    {
        reveal_strlit("get-type");
        reveal_strlit("abs");
        assert("abs"@.len() != "get-type"@.len());
        reveal_strlit("abs-math");
        assert("abs-math"@[0] != "get-type"@[0]);
        reveal_strlit("neg");
        assert("neg"@.len() != "get-type"@.len());
        reveal_strlit("sqrt-math");
        assert("sqrt-math"@.len() != "get-type"@.len());
        reveal_strlit("trunc-math");
        assert("trunc-math"@.len() != "get-type"@.len());
        reveal_strlit("ceil-math");
        assert("ceil-math"@.len() != "get-type"@.len());
        reveal_strlit("floor-math");
        assert("floor-math"@.len() != "get-type"@.len());
        reveal_strlit("round-math");
        assert("round-math"@.len() != "get-type"@.len());
        reveal_strlit("sin-math");
        assert("sin-math"@[0] != "get-type"@[0]);
        reveal_strlit("cos-math");
        assert("cos-math"@[0] != "get-type"@[0]);
        reveal_strlit("tan-math");
        assert("tan-math"@[0] != "get-type"@[0]);
        reveal_strlit("asin-math");
        assert("asin-math"@.len() != "get-type"@.len());
        reveal_strlit("acos-math");
        assert("acos-math"@.len() != "get-type"@.len());
        reveal_strlit("atan-math");
        assert("atan-math"@.len() != "get-type"@.len());
        reveal_strlit("isnan-math");
        assert("isnan-math"@.len() != "get-type"@.len());
        reveal_strlit("isinf-math");
        assert("isinf-math"@.len() != "get-type"@.len());
        reveal_strlit("not");
        assert("not"@.len() != "get-type"@.len());
        reveal_strlit("eval");
        assert("eval"@.len() != "get-type"@.len());
    }
    {
        reveal_strlit("get-metatype");
        reveal_strlit("abs");
        assert("abs"@.len() != "get-metatype"@.len());
        reveal_strlit("abs-math");
        assert("abs-math"@.len() != "get-metatype"@.len());
        reveal_strlit("neg");
        assert("neg"@.len() != "get-metatype"@.len());
        reveal_strlit("sqrt-math");
        assert("sqrt-math"@.len() != "get-metatype"@.len());
        reveal_strlit("trunc-math");
        assert("trunc-math"@.len() != "get-metatype"@.len());
        reveal_strlit("ceil-math");
        assert("ceil-math"@.len() != "get-metatype"@.len());
        reveal_strlit("floor-math");
        assert("floor-math"@.len() != "get-metatype"@.len());
        reveal_strlit("round-math");
        assert("round-math"@.len() != "get-metatype"@.len());
        reveal_strlit("sin-math");
        assert("sin-math"@.len() != "get-metatype"@.len());
        reveal_strlit("cos-math");
        assert("cos-math"@.len() != "get-metatype"@.len());
        reveal_strlit("tan-math");
        assert("tan-math"@.len() != "get-metatype"@.len());
        reveal_strlit("asin-math");
        assert("asin-math"@.len() != "get-metatype"@.len());
        reveal_strlit("acos-math");
        assert("acos-math"@.len() != "get-metatype"@.len());
        reveal_strlit("atan-math");
        assert("atan-math"@.len() != "get-metatype"@.len());
        reveal_strlit("isnan-math");
        assert("isnan-math"@.len() != "get-metatype"@.len());
        reveal_strlit("isinf-math");
        assert("isinf-math"@.len() != "get-metatype"@.len());
        reveal_strlit("not");
        assert("not"@.len() != "get-metatype"@.len());
        reveal_strlit("eval");
        assert("eval"@.len() != "get-metatype"@.len());
        reveal_strlit("get-type");
        assert("get-type"@.len() != "get-metatype"@.len());
    }
    {
        reveal_strlit("collapse");
        reveal_strlit("abs");
        assert("abs"@.len() != "collapse"@.len());
        reveal_strlit("abs-math");
        assert("abs-math"@[0] != "collapse"@[0]);
        reveal_strlit("neg");
        assert("neg"@.len() != "collapse"@.len());
        reveal_strlit("sqrt-math");
        assert("sqrt-math"@.len() != "collapse"@.len());
        reveal_strlit("trunc-math");
        assert("trunc-math"@.len() != "collapse"@.len());
        reveal_strlit("ceil-math");
        assert("ceil-math"@.len() != "collapse"@.len());
        reveal_strlit("floor-math");
        assert("floor-math"@.len() != "collapse"@.len());
        reveal_strlit("round-math");
        assert("round-math"@.len() != "collapse"@.len());
        reveal_strlit("sin-math");
        assert("sin-math"@[0] != "collapse"@[0]);
        reveal_strlit("cos-math");
        assert("cos-math"@[2] != "collapse"@[2]);
        reveal_strlit("tan-math");
        assert("tan-math"@[0] != "collapse"@[0]);
        reveal_strlit("asin-math");
        assert("asin-math"@.len() != "collapse"@.len());
        reveal_strlit("acos-math");
        assert("acos-math"@.len() != "collapse"@.len());
        reveal_strlit("atan-math");
        assert("atan-math"@.len() != "collapse"@.len());
        reveal_strlit("isnan-math");
        assert("isnan-math"@.len() != "collapse"@.len());
        reveal_strlit("isinf-math");
        assert("isinf-math"@.len() != "collapse"@.len());
        reveal_strlit("not");
        assert("not"@.len() != "collapse"@.len());
        reveal_strlit("eval");
        assert("eval"@.len() != "collapse"@.len());
        reveal_strlit("get-type");
        assert("get-type"@[0] != "collapse"@[0]);
        reveal_strlit("get-metatype");
        assert("get-metatype"@.len() != "collapse"@.len());
    }
    {
        reveal_strlit("car-atom");
        reveal_strlit("abs");
        assert("abs"@.len() != "car-atom"@.len());
        reveal_strlit("abs-math");
        assert("abs-math"@[0] != "car-atom"@[0]);
        reveal_strlit("neg");
        assert("neg"@.len() != "car-atom"@.len());
        reveal_strlit("sqrt-math");
        assert("sqrt-math"@.len() != "car-atom"@.len());
        reveal_strlit("trunc-math");
        assert("trunc-math"@.len() != "car-atom"@.len());
        reveal_strlit("ceil-math");
        assert("ceil-math"@.len() != "car-atom"@.len());
        reveal_strlit("floor-math");
        assert("floor-math"@.len() != "car-atom"@.len());
        reveal_strlit("round-math");
        assert("round-math"@.len() != "car-atom"@.len());
        reveal_strlit("sin-math");
        assert("sin-math"@[0] != "car-atom"@[0]);
        reveal_strlit("cos-math");
        assert("cos-math"@[1] != "car-atom"@[1]);
        reveal_strlit("tan-math");
        assert("tan-math"@[0] != "car-atom"@[0]);
        reveal_strlit("asin-math");
        assert("asin-math"@.len() != "car-atom"@.len());
        reveal_strlit("acos-math");
        assert("acos-math"@.len() != "car-atom"@.len());
        reveal_strlit("atan-math");
        assert("atan-math"@.len() != "car-atom"@.len());
        reveal_strlit("isnan-math");
        assert("isnan-math"@.len() != "car-atom"@.len());
        reveal_strlit("isinf-math");
        assert("isinf-math"@.len() != "car-atom"@.len());
        reveal_strlit("not");
        assert("not"@.len() != "car-atom"@.len());
        reveal_strlit("eval");
        assert("eval"@.len() != "car-atom"@.len());
        reveal_strlit("get-type");
        assert("get-type"@[0] != "car-atom"@[0]);
        reveal_strlit("get-metatype");
        assert("get-metatype"@.len() != "car-atom"@.len());
        reveal_strlit("collapse");
        assert("collapse"@[1] != "car-atom"@[1]);
    }
    {
        reveal_strlit("cdr-atom");
        reveal_strlit("abs");
        assert("abs"@.len() != "cdr-atom"@.len());
        reveal_strlit("abs-math");
        assert("abs-math"@[0] != "cdr-atom"@[0]);
        reveal_strlit("neg");
        assert("neg"@.len() != "cdr-atom"@.len());
        reveal_strlit("sqrt-math");
        assert("sqrt-math"@.len() != "cdr-atom"@.len());
        reveal_strlit("trunc-math");
        assert("trunc-math"@.len() != "cdr-atom"@.len());
        reveal_strlit("ceil-math");
        assert("ceil-math"@.len() != "cdr-atom"@.len());
        reveal_strlit("floor-math");
        assert("floor-math"@.len() != "cdr-atom"@.len());
        reveal_strlit("round-math");
        assert("round-math"@.len() != "cdr-atom"@.len());
        reveal_strlit("sin-math");
        assert("sin-math"@[0] != "cdr-atom"@[0]);
        reveal_strlit("cos-math");
        assert("cos-math"@[1] != "cdr-atom"@[1]);
        reveal_strlit("tan-math");
        assert("tan-math"@[0] != "cdr-atom"@[0]);
        reveal_strlit("asin-math");
        assert("asin-math"@.len() != "cdr-atom"@.len());
        reveal_strlit("acos-math");
        assert("acos-math"@.len() != "cdr-atom"@.len());
        reveal_strlit("atan-math");
        assert("atan-math"@.len() != "cdr-atom"@.len());
        reveal_strlit("isnan-math");
        assert("isnan-math"@.len() != "cdr-atom"@.len());
        reveal_strlit("isinf-math");
        assert("isinf-math"@.len() != "cdr-atom"@.len());
        reveal_strlit("not");
        assert("not"@.len() != "cdr-atom"@.len());
        reveal_strlit("eval");
        assert("eval"@.len() != "cdr-atom"@.len());
        reveal_strlit("get-type");
        assert("get-type"@[0] != "cdr-atom"@[0]);
        reveal_strlit("get-metatype");
        assert("get-metatype"@.len() != "cdr-atom"@.len());
        reveal_strlit("collapse");
        assert("collapse"@[1] != "cdr-atom"@[1]);
        reveal_strlit("car-atom");
        assert("car-atom"@[1] != "cdr-atom"@[1]);
    }
    {
        reveal_strlit("size-atom");
        reveal_strlit("abs");
        assert("abs"@.len() != "size-atom"@.len());
        reveal_strlit("abs-math");
        assert("abs-math"@.len() != "size-atom"@.len());
        reveal_strlit("neg");
        assert("neg"@.len() != "size-atom"@.len());
        reveal_strlit("sqrt-math");
        assert("sqrt-math"@[1] != "size-atom"@[1]);
        reveal_strlit("trunc-math");
        assert("trunc-math"@.len() != "size-atom"@.len());
        reveal_strlit("ceil-math");
        assert("ceil-math"@[0] != "size-atom"@[0]);
        reveal_strlit("floor-math");
        assert("floor-math"@.len() != "size-atom"@.len());
        reveal_strlit("round-math");
        assert("round-math"@.len() != "size-atom"@.len());
        reveal_strlit("sin-math");
        assert("sin-math"@.len() != "size-atom"@.len());
        reveal_strlit("cos-math");
        assert("cos-math"@.len() != "size-atom"@.len());
        reveal_strlit("tan-math");
        assert("tan-math"@.len() != "size-atom"@.len());
        reveal_strlit("asin-math");
        assert("asin-math"@[0] != "size-atom"@[0]);
        reveal_strlit("acos-math");
        assert("acos-math"@[0] != "size-atom"@[0]);
        reveal_strlit("atan-math");
        assert("atan-math"@[0] != "size-atom"@[0]);
        reveal_strlit("isnan-math");
        assert("isnan-math"@.len() != "size-atom"@.len());
        reveal_strlit("isinf-math");
        assert("isinf-math"@.len() != "size-atom"@.len());
        reveal_strlit("not");
        assert("not"@.len() != "size-atom"@.len());
        reveal_strlit("eval");
        assert("eval"@.len() != "size-atom"@.len());
        reveal_strlit("get-type");
        assert("get-type"@.len() != "size-atom"@.len());
        reveal_strlit("get-metatype");
        assert("get-metatype"@.len() != "size-atom"@.len());
        reveal_strlit("collapse");
        assert("collapse"@.len() != "size-atom"@.len());
        reveal_strlit("car-atom");
        assert("car-atom"@.len() != "size-atom"@.len());
        reveal_strlit("cdr-atom");
        assert("cdr-atom"@.len() != "size-atom"@.len());
    }
    {
        reveal_strlit("decons-atom");
        reveal_strlit("abs");
        assert("abs"@.len() != "decons-atom"@.len());
        reveal_strlit("abs-math");
        assert("abs-math"@.len() != "decons-atom"@.len());
        reveal_strlit("neg");
        assert("neg"@.len() != "decons-atom"@.len());
        reveal_strlit("sqrt-math");
        assert("sqrt-math"@.len() != "decons-atom"@.len());
        reveal_strlit("trunc-math");
        assert("trunc-math"@.len() != "decons-atom"@.len());
        reveal_strlit("ceil-math");
        assert("ceil-math"@.len() != "decons-atom"@.len());
        reveal_strlit("floor-math");
        assert("floor-math"@.len() != "decons-atom"@.len());
        reveal_strlit("round-math");
        assert("round-math"@.len() != "decons-atom"@.len());
        reveal_strlit("sin-math");
        assert("sin-math"@.len() != "decons-atom"@.len());
        reveal_strlit("cos-math");
        assert("cos-math"@.len() != "decons-atom"@.len());
        reveal_strlit("tan-math");
        assert("tan-math"@.len() != "decons-atom"@.len());
        reveal_strlit("asin-math");
        assert("asin-math"@.len() != "decons-atom"@.len());
        reveal_strlit("acos-math");
        assert("acos-math"@.len() != "decons-atom"@.len());
        reveal_strlit("atan-math");
        assert("atan-math"@.len() != "decons-atom"@.len());
        reveal_strlit("isnan-math");
        assert("isnan-math"@.len() != "decons-atom"@.len());
        reveal_strlit("isinf-math");
        assert("isinf-math"@.len() != "decons-atom"@.len());
        reveal_strlit("not");
        assert("not"@.len() != "decons-atom"@.len());
        reveal_strlit("eval");
        assert("eval"@.len() != "decons-atom"@.len());
        reveal_strlit("get-type");
        assert("get-type"@.len() != "decons-atom"@.len());
        reveal_strlit("get-metatype");
        assert("get-metatype"@.len() != "decons-atom"@.len());
        reveal_strlit("collapse");
        assert("collapse"@.len() != "decons-atom"@.len());
        reveal_strlit("car-atom");
        assert("car-atom"@.len() != "decons-atom"@.len());
        reveal_strlit("cdr-atom");
        assert("cdr-atom"@.len() != "decons-atom"@.len());
        reveal_strlit("size-atom");
        assert("size-atom"@.len() != "decons-atom"@.len());
    }
    {
        reveal_strlit("repr");
        reveal_strlit("abs");
        assert("abs"@.len() != "repr"@.len());
        reveal_strlit("abs-math");
        assert("abs-math"@.len() != "repr"@.len());
        reveal_strlit("neg");
        assert("neg"@.len() != "repr"@.len());
        reveal_strlit("sqrt-math");
        assert("sqrt-math"@.len() != "repr"@.len());
        reveal_strlit("trunc-math");
        assert("trunc-math"@.len() != "repr"@.len());
        reveal_strlit("ceil-math");
        assert("ceil-math"@.len() != "repr"@.len());
        reveal_strlit("floor-math");
        assert("floor-math"@.len() != "repr"@.len());
        reveal_strlit("round-math");
        assert("round-math"@.len() != "repr"@.len());
        reveal_strlit("sin-math");
        assert("sin-math"@.len() != "repr"@.len());
        reveal_strlit("cos-math");
        assert("cos-math"@.len() != "repr"@.len());
        reveal_strlit("tan-math");
        assert("tan-math"@.len() != "repr"@.len());
        reveal_strlit("asin-math");
        assert("asin-math"@.len() != "repr"@.len());
        reveal_strlit("acos-math");
        assert("acos-math"@.len() != "repr"@.len());
        reveal_strlit("atan-math");
        assert("atan-math"@.len() != "repr"@.len());
        reveal_strlit("isnan-math");
        assert("isnan-math"@.len() != "repr"@.len());
        reveal_strlit("isinf-math");
        assert("isinf-math"@.len() != "repr"@.len());
        reveal_strlit("not");
        assert("not"@.len() != "repr"@.len());
        reveal_strlit("eval");
        assert("eval"@[0] != "repr"@[0]);
        reveal_strlit("get-type");
        assert("get-type"@.len() != "repr"@.len());
        reveal_strlit("get-metatype");
        assert("get-metatype"@.len() != "repr"@.len());
        reveal_strlit("collapse");
        assert("collapse"@.len() != "repr"@.len());
        reveal_strlit("car-atom");
        assert("car-atom"@.len() != "repr"@.len());
        reveal_strlit("cdr-atom");
        assert("cdr-atom"@.len() != "repr"@.len());
        reveal_strlit("size-atom");
        assert("size-atom"@.len() != "repr"@.len());
        reveal_strlit("decons-atom");
        assert("decons-atom"@.len() != "repr"@.len());
    }
    {
        reveal_strlit("min-atom");
        reveal_strlit("abs");
        assert("abs"@.len() != "min-atom"@.len());
        reveal_strlit("abs-math");
        assert("abs-math"@[0] != "min-atom"@[0]);
        reveal_strlit("neg");
        assert("neg"@.len() != "min-atom"@.len());
        reveal_strlit("sqrt-math");
        assert("sqrt-math"@.len() != "min-atom"@.len());
        reveal_strlit("trunc-math");
        assert("trunc-math"@.len() != "min-atom"@.len());
        reveal_strlit("ceil-math");
        assert("ceil-math"@.len() != "min-atom"@.len());
        reveal_strlit("floor-math");
        assert("floor-math"@.len() != "min-atom"@.len());
        reveal_strlit("round-math");
        assert("round-math"@.len() != "min-atom"@.len());
        reveal_strlit("sin-math");
        assert("sin-math"@[0] != "min-atom"@[0]);
        reveal_strlit("cos-math");
        assert("cos-math"@[0] != "min-atom"@[0]);
        reveal_strlit("tan-math");
        assert("tan-math"@[0] != "min-atom"@[0]);
        reveal_strlit("asin-math");
        assert("asin-math"@.len() != "min-atom"@.len());
        reveal_strlit("acos-math");
        assert("acos-math"@.len() != "min-atom"@.len());
        reveal_strlit("atan-math");
        assert("atan-math"@.len() != "min-atom"@.len());
        reveal_strlit("isnan-math");
        assert("isnan-math"@.len() != "min-atom"@.len());
        reveal_strlit("isinf-math");
        assert("isinf-math"@.len() != "min-atom"@.len());
        reveal_strlit("not");
        assert("not"@.len() != "min-atom"@.len());
        reveal_strlit("eval");
        assert("eval"@.len() != "min-atom"@.len());
        reveal_strlit("get-type");
        assert("get-type"@[0] != "min-atom"@[0]);
        reveal_strlit("get-metatype");
        assert("get-metatype"@.len() != "min-atom"@.len());
        reveal_strlit("collapse");
        assert("collapse"@[0] != "min-atom"@[0]);
        reveal_strlit("car-atom");
        assert("car-atom"@[0] != "min-atom"@[0]);
        reveal_strlit("cdr-atom");
        assert("cdr-atom"@[0] != "min-atom"@[0]);
        reveal_strlit("size-atom");
        assert("size-atom"@.len() != "min-atom"@.len());
        reveal_strlit("decons-atom");
        assert("decons-atom"@.len() != "min-atom"@.len());
        reveal_strlit("repr");
        assert("repr"@.len() != "min-atom"@.len());
    }
    {
        reveal_strlit("max-atom");
        reveal_strlit("abs");
        assert("abs"@.len() != "max-atom"@.len());
        reveal_strlit("abs-math");
        assert("abs-math"@[0] != "max-atom"@[0]);
        reveal_strlit("neg");
        assert("neg"@.len() != "max-atom"@.len());
        reveal_strlit("sqrt-math");
        assert("sqrt-math"@.len() != "max-atom"@.len());
        reveal_strlit("trunc-math");
        assert("trunc-math"@.len() != "max-atom"@.len());
        reveal_strlit("ceil-math");
        assert("ceil-math"@.len() != "max-atom"@.len());
        reveal_strlit("floor-math");
        assert("floor-math"@.len() != "max-atom"@.len());
        reveal_strlit("round-math");
        assert("round-math"@.len() != "max-atom"@.len());
        reveal_strlit("sin-math");
        assert("sin-math"@[0] != "max-atom"@[0]);
        reveal_strlit("cos-math");
        assert("cos-math"@[0] != "max-atom"@[0]);
        reveal_strlit("tan-math");
        assert("tan-math"@[0] != "max-atom"@[0]);
        reveal_strlit("asin-math");
        assert("asin-math"@.len() != "max-atom"@.len());
        reveal_strlit("acos-math");
        assert("acos-math"@.len() != "max-atom"@.len());
        reveal_strlit("atan-math");
        assert("atan-math"@.len() != "max-atom"@.len());
        reveal_strlit("isnan-math");
        assert("isnan-math"@.len() != "max-atom"@.len());
        reveal_strlit("isinf-math");
        assert("isinf-math"@.len() != "max-atom"@.len());
        reveal_strlit("not");
        assert("not"@.len() != "max-atom"@.len());
        reveal_strlit("eval");
        assert("eval"@.len() != "max-atom"@.len());
        reveal_strlit("get-type");
        assert("get-type"@[0] != "max-atom"@[0]);
        reveal_strlit("get-metatype");
        assert("get-metatype"@.len() != "max-atom"@.len());
        reveal_strlit("collapse");
        assert("collapse"@[0] != "max-atom"@[0]);
        reveal_strlit("car-atom");
        assert("car-atom"@[0] != "max-atom"@[0]);
        reveal_strlit("cdr-atom");
        assert("cdr-atom"@[0] != "max-atom"@[0]);
        reveal_strlit("size-atom");
        assert("size-atom"@.len() != "max-atom"@.len());
        reveal_strlit("decons-atom");
        assert("decons-atom"@.len() != "max-atom"@.len());
        reveal_strlit("repr");
        assert("repr"@.len() != "max-atom"@.len());
        reveal_strlit("min-atom");
        assert("min-atom"@[1] != "max-atom"@[1]);
    }
    {
        reveal_strlit("get-atoms");
        reveal_strlit("abs");
        assert("abs"@.len() != "get-atoms"@.len());
        reveal_strlit("abs-math");
        assert("abs-math"@.len() != "get-atoms"@.len());
        reveal_strlit("neg");
        assert("neg"@.len() != "get-atoms"@.len());
        reveal_strlit("sqrt-math");
        assert("sqrt-math"@[0] != "get-atoms"@[0]);
        reveal_strlit("trunc-math");
        assert("trunc-math"@.len() != "get-atoms"@.len());
        reveal_strlit("ceil-math");
        assert("ceil-math"@[0] != "get-atoms"@[0]);
        reveal_strlit("floor-math");
        assert("floor-math"@.len() != "get-atoms"@.len());
        reveal_strlit("round-math");
        assert("round-math"@.len() != "get-atoms"@.len());
        reveal_strlit("sin-math");
        assert("sin-math"@.len() != "get-atoms"@.len());
        reveal_strlit("cos-math");
        assert("cos-math"@.len() != "get-atoms"@.len());
        reveal_strlit("tan-math");
        assert("tan-math"@.len() != "get-atoms"@.len());
        reveal_strlit("asin-math");
        assert("asin-math"@[0] != "get-atoms"@[0]);
        reveal_strlit("acos-math");
        assert("acos-math"@[0] != "get-atoms"@[0]);
        reveal_strlit("atan-math");
        assert("atan-math"@[0] != "get-atoms"@[0]);
        reveal_strlit("isnan-math");
        assert("isnan-math"@.len() != "get-atoms"@.len());
        reveal_strlit("isinf-math");
        assert("isinf-math"@.len() != "get-atoms"@.len());
        reveal_strlit("not");
        assert("not"@.len() != "get-atoms"@.len());
        reveal_strlit("eval");
        assert("eval"@.len() != "get-atoms"@.len());
        reveal_strlit("get-type");
        assert("get-type"@.len() != "get-atoms"@.len());
        reveal_strlit("get-metatype");
        assert("get-metatype"@.len() != "get-atoms"@.len());
        reveal_strlit("collapse");
        assert("collapse"@.len() != "get-atoms"@.len());
        reveal_strlit("car-atom");
        assert("car-atom"@.len() != "get-atoms"@.len());
        reveal_strlit("cdr-atom");
        assert("cdr-atom"@.len() != "get-atoms"@.len());
        reveal_strlit("size-atom");
        assert("size-atom"@[0] != "get-atoms"@[0]);
        reveal_strlit("decons-atom");
        assert("decons-atom"@.len() != "get-atoms"@.len());
        reveal_strlit("repr");
        assert("repr"@.len() != "get-atoms"@.len());
        reveal_strlit("min-atom");
        assert("min-atom"@.len() != "get-atoms"@.len());
        reveal_strlit("max-atom");
        assert("max-atom"@.len() != "get-atoms"@.len());
    }
    {
        reveal_strlit("new-state");
        reveal_strlit("abs");
        assert("abs"@.len() != "new-state"@.len());
        reveal_strlit("abs-math");
        assert("abs-math"@.len() != "new-state"@.len());
        reveal_strlit("neg");
        assert("neg"@.len() != "new-state"@.len());
        reveal_strlit("sqrt-math");
        assert("sqrt-math"@[0] != "new-state"@[0]);
        reveal_strlit("trunc-math");
        assert("trunc-math"@.len() != "new-state"@.len());
        reveal_strlit("ceil-math");
        assert("ceil-math"@[0] != "new-state"@[0]);
        reveal_strlit("floor-math");
        assert("floor-math"@.len() != "new-state"@.len());
        reveal_strlit("round-math");
        assert("round-math"@.len() != "new-state"@.len());
        reveal_strlit("sin-math");
        assert("sin-math"@.len() != "new-state"@.len());
        reveal_strlit("cos-math");
        assert("cos-math"@.len() != "new-state"@.len());
        reveal_strlit("tan-math");
        assert("tan-math"@.len() != "new-state"@.len());
        reveal_strlit("asin-math");
        assert("asin-math"@[0] != "new-state"@[0]);
        reveal_strlit("acos-math");
        assert("acos-math"@[0] != "new-state"@[0]);
        reveal_strlit("atan-math");
        assert("atan-math"@[0] != "new-state"@[0]);
        reveal_strlit("isnan-math");
        assert("isnan-math"@.len() != "new-state"@.len());
        reveal_strlit("isinf-math");
        assert("isinf-math"@.len() != "new-state"@.len());
        reveal_strlit("not");
        assert("not"@.len() != "new-state"@.len());
        reveal_strlit("eval");
        assert("eval"@.len() != "new-state"@.len());
        reveal_strlit("get-type");
        assert("get-type"@.len() != "new-state"@.len());
        reveal_strlit("get-metatype");
        assert("get-metatype"@.len() != "new-state"@.len());
        reveal_strlit("collapse");
        assert("collapse"@.len() != "new-state"@.len());
        reveal_strlit("car-atom");
        assert("car-atom"@.len() != "new-state"@.len());
        reveal_strlit("cdr-atom");
        assert("cdr-atom"@.len() != "new-state"@.len());
        reveal_strlit("size-atom");
        assert("size-atom"@[0] != "new-state"@[0]);
        reveal_strlit("decons-atom");
        assert("decons-atom"@.len() != "new-state"@.len());
        reveal_strlit("repr");
        assert("repr"@.len() != "new-state"@.len());
        reveal_strlit("min-atom");
        assert("min-atom"@.len() != "new-state"@.len());
        reveal_strlit("max-atom");
        assert("max-atom"@.len() != "new-state"@.len());
        reveal_strlit("get-atoms");
        assert("get-atoms"@[0] != "new-state"@[0]);
    }
    {
        reveal_strlit("get-state");
        reveal_strlit("abs");
        assert("abs"@.len() != "get-state"@.len());
        reveal_strlit("abs-math");
        assert("abs-math"@.len() != "get-state"@.len());
        reveal_strlit("neg");
        assert("neg"@.len() != "get-state"@.len());
        reveal_strlit("sqrt-math");
        assert("sqrt-math"@[0] != "get-state"@[0]);
        reveal_strlit("trunc-math");
        assert("trunc-math"@.len() != "get-state"@.len());
        reveal_strlit("ceil-math");
        assert("ceil-math"@[0] != "get-state"@[0]);
        reveal_strlit("floor-math");
        assert("floor-math"@.len() != "get-state"@.len());
        reveal_strlit("round-math");
        assert("round-math"@.len() != "get-state"@.len());
        reveal_strlit("sin-math");
        assert("sin-math"@.len() != "get-state"@.len());
        reveal_strlit("cos-math");
        assert("cos-math"@.len() != "get-state"@.len());
        reveal_strlit("tan-math");
        assert("tan-math"@.len() != "get-state"@.len());
        reveal_strlit("asin-math");
        assert("asin-math"@[0] != "get-state"@[0]);
        reveal_strlit("acos-math");
        assert("acos-math"@[0] != "get-state"@[0]);
        reveal_strlit("atan-math");
        assert("atan-math"@[0] != "get-state"@[0]);
        reveal_strlit("isnan-math");
        assert("isnan-math"@.len() != "get-state"@.len());
        reveal_strlit("isinf-math");
        assert("isinf-math"@.len() != "get-state"@.len());
        reveal_strlit("not");
        assert("not"@.len() != "get-state"@.len());
        reveal_strlit("eval");
        assert("eval"@.len() != "get-state"@.len());
        reveal_strlit("get-type");
        assert("get-type"@.len() != "get-state"@.len());
        reveal_strlit("get-metatype");
        assert("get-metatype"@.len() != "get-state"@.len());
        reveal_strlit("collapse");
        assert("collapse"@.len() != "get-state"@.len());
        reveal_strlit("car-atom");
        assert("car-atom"@.len() != "get-state"@.len());
        reveal_strlit("cdr-atom");
        assert("cdr-atom"@.len() != "get-state"@.len());
        reveal_strlit("size-atom");
        assert("size-atom"@[0] != "get-state"@[0]);
        reveal_strlit("decons-atom");
        assert("decons-atom"@.len() != "get-state"@.len());
        reveal_strlit("repr");
        assert("repr"@.len() != "get-state"@.len());
        reveal_strlit("min-atom");
        assert("min-atom"@.len() != "get-state"@.len());
        reveal_strlit("max-atom");
        assert("max-atom"@.len() != "get-state"@.len());
        reveal_strlit("get-atoms");
        assert("get-atoms"@[4] != "get-state"@[4]);
        reveal_strlit("new-state");
        assert("new-state"@[0] != "get-state"@[0]);
    }
    {
        reveal_strlit("trace!");
        reveal_strlit("abs");
        assert("abs"@.len() != "trace!"@.len());
        reveal_strlit("abs-math");
        assert("abs-math"@.len() != "trace!"@.len());
        reveal_strlit("neg");
        assert("neg"@.len() != "trace!"@.len());
        reveal_strlit("sqrt-math");
        assert("sqrt-math"@.len() != "trace!"@.len());
        reveal_strlit("trunc-math");
        assert("trunc-math"@.len() != "trace!"@.len());
        reveal_strlit("ceil-math");
        assert("ceil-math"@.len() != "trace!"@.len());
        reveal_strlit("floor-math");
        assert("floor-math"@.len() != "trace!"@.len());
        reveal_strlit("round-math");
        assert("round-math"@.len() != "trace!"@.len());
        reveal_strlit("sin-math");
        assert("sin-math"@.len() != "trace!"@.len());
        reveal_strlit("cos-math");
        assert("cos-math"@.len() != "trace!"@.len());
        reveal_strlit("tan-math");
        assert("tan-math"@.len() != "trace!"@.len());
        reveal_strlit("asin-math");
        assert("asin-math"@.len() != "trace!"@.len());
        reveal_strlit("acos-math");
        assert("acos-math"@.len() != "trace!"@.len());
        reveal_strlit("atan-math");
        assert("atan-math"@.len() != "trace!"@.len());
        reveal_strlit("isnan-math");
        assert("isnan-math"@.len() != "trace!"@.len());
        reveal_strlit("isinf-math");
        assert("isinf-math"@.len() != "trace!"@.len());
        reveal_strlit("not");
        assert("not"@.len() != "trace!"@.len());
        reveal_strlit("eval");
        assert("eval"@.len() != "trace!"@.len());
        reveal_strlit("get-type");
        assert("get-type"@.len() != "trace!"@.len());
        reveal_strlit("get-metatype");
        assert("get-metatype"@.len() != "trace!"@.len());
        reveal_strlit("collapse");
        assert("collapse"@.len() != "trace!"@.len());
        reveal_strlit("car-atom");
        assert("car-atom"@.len() != "trace!"@.len());
        reveal_strlit("cdr-atom");
        assert("cdr-atom"@.len() != "trace!"@.len());
        reveal_strlit("size-atom");
        assert("size-atom"@.len() != "trace!"@.len());
        reveal_strlit("decons-atom");
        assert("decons-atom"@.len() != "trace!"@.len());
        reveal_strlit("repr");
        assert("repr"@.len() != "trace!"@.len());
        reveal_strlit("min-atom");
        assert("min-atom"@.len() != "trace!"@.len());
        reveal_strlit("max-atom");
        assert("max-atom"@.len() != "trace!"@.len());
        reveal_strlit("get-atoms");
        assert("get-atoms"@.len() != "trace!"@.len());
        reveal_strlit("new-state");
        assert("new-state"@.len() != "trace!"@.len());
        reveal_strlit("get-state");
        assert("get-state"@.len() != "trace!"@.len());
    }
}

/// Each builtin of two arguments compiles to the instruction of the same
/// operation: `<` to `Lt`, `floor-div` to `FloorDiv`, `cons-atom` to
/// `ConsAtom`, and so on for every name the compiler knows.
pub proof fn lemma_binary_builtin_instructions()
    ensures
        binary_builtin_opcode("+"@) == Some(Opcode::Add),
        binary_builtin_opcode("-"@) == Some(Opcode::Sub),
        binary_builtin_opcode("*"@) == Some(Opcode::Mul),
        binary_builtin_opcode("/"@) == Some(Opcode::Div),
        binary_builtin_opcode("%"@) == Some(Opcode::Mod),
        binary_builtin_opcode("mod"@) == Some(Opcode::Mod),
        binary_builtin_opcode("pow"@) == Some(Opcode::Pow),
        binary_builtin_opcode("pow-math"@) == Some(Opcode::Pow),
        binary_builtin_opcode("floor-div"@) == Some(Opcode::FloorDiv),
        binary_builtin_opcode("log-math"@) == Some(Opcode::Log),
        binary_builtin_opcode("<"@) == Some(Opcode::Lt),
        binary_builtin_opcode("<="@) == Some(Opcode::Le),
        binary_builtin_opcode(">"@) == Some(Opcode::Gt),
        binary_builtin_opcode(">="@) == Some(Opcode::Ge),
        binary_builtin_opcode("=="@) == Some(Opcode::Eq),
        binary_builtin_opcode("!="@) == Some(Opcode::Ne),
        binary_builtin_opcode("and"@) == Some(Opcode::And),
        binary_builtin_opcode("or"@) == Some(Opcode::Or),
        binary_builtin_opcode("xor"@) == Some(Opcode::Xor),
        binary_builtin_opcode("check-type"@) == Some(Opcode::CheckType),
        binary_builtin_opcode("cons-atom"@) == Some(Opcode::ConsAtom),
        binary_builtin_opcode("index-atom"@) == Some(Opcode::IndexAtom),
        binary_builtin_opcode("add-atom"@) == Some(Opcode::SpaceAdd),
        binary_builtin_opcode("remove-atom"@) == Some(Opcode::SpaceRemove),
{
    broadcast use vstd::string::group_string_axioms;

    {
        reveal_strlit("+");
    }
    {
        reveal_strlit("-");
        reveal_strlit("+");
        assert("+"@[0] != "-"@[0]);
    }
    {
        reveal_strlit("*");
        reveal_strlit("+");
        assert("+"@[0] != "*"@[0]);
        reveal_strlit("-");
        assert("-"@[0] != "*"@[0]);
    }
    {
        reveal_strlit("/");
        reveal_strlit("+");
        assert("+"@[0] != "/"@[0]);
        reveal_strlit("-");
        assert("-"@[0] != "/"@[0]);
        reveal_strlit("*");
        assert("*"@[0] != "/"@[0]);
    }
    {
        reveal_strlit("%");
        reveal_strlit("+");
        assert("+"@[0] != "%"@[0]);
        reveal_strlit("-");
        assert("-"@[0] != "%"@[0]);
        reveal_strlit("*");
        assert("*"@[0] != "%"@[0]);
        reveal_strlit("/");
        assert("/"@[0] != "%"@[0]);
    }
    {
        reveal_strlit("mod");
        reveal_strlit("+");
        assert("+"@.len() != "mod"@.len());
        reveal_strlit("-");
        assert("-"@.len() != "mod"@.len());
        reveal_strlit("*");
        assert("*"@.len() != "mod"@.len());
        reveal_strlit("/");
        assert("/"@.len() != "mod"@.len());
        reveal_strlit("%");
        assert("%"@.len() != "mod"@.len());
    }
    {
        reveal_strlit("pow");
        reveal_strlit("+");
        assert("+"@.len() != "pow"@.len());
        reveal_strlit("-");
        assert("-"@.len() != "pow"@.len());
        reveal_strlit("*");
        assert("*"@.len() != "pow"@.len());
        reveal_strlit("/");
        assert("/"@.len() != "pow"@.len());
        reveal_strlit("%");
        assert("%"@.len() != "pow"@.len());
        reveal_strlit("mod");
        assert("mod"@[0] != "pow"@[0]);
    }
    {
        reveal_strlit("pow-math");
        reveal_strlit("+");
        assert("+"@.len() != "pow-math"@.len());
        reveal_strlit("-");
        assert("-"@.len() != "pow-math"@.len());
        reveal_strlit("*");
        assert("*"@.len() != "pow-math"@.len());
        reveal_strlit("/");
        assert("/"@.len() != "pow-math"@.len());
        reveal_strlit("%");
        assert("%"@.len() != "pow-math"@.len());
        reveal_strlit("mod");
        assert("mod"@.len() != "pow-math"@.len());
        reveal_strlit("pow");
        assert("pow"@.len() != "pow-math"@.len());
    }
    {
        reveal_strlit("floor-div");
        reveal_strlit("+");
        assert("+"@.len() != "floor-div"@.len());
        reveal_strlit("-");
        assert("-"@.len() != "floor-div"@.len());
        reveal_strlit("*");
        assert("*"@.len() != "floor-div"@.len());
        reveal_strlit("/");
        assert("/"@.len() != "floor-div"@.len());
        reveal_strlit("%");
        assert("%"@.len() != "floor-div"@.len());
        reveal_strlit("mod");
        assert("mod"@.len() != "floor-div"@.len());
        reveal_strlit("pow");
        assert("pow"@.len() != "floor-div"@.len());
        reveal_strlit("pow-math");
        assert("pow-math"@.len() != "floor-div"@.len());
    }
    {
        reveal_strlit("log-math");
        reveal_strlit("+");
        assert("+"@.len() != "log-math"@.len());
        reveal_strlit("-");
        assert("-"@.len() != "log-math"@.len());
        reveal_strlit("*");
        assert("*"@.len() != "log-math"@.len());
        reveal_strlit("/");
        assert("/"@.len() != "log-math"@.len());
        reveal_strlit("%");
        assert("%"@.len() != "log-math"@.len());
        reveal_strlit("mod");
        assert("mod"@.len() != "log-math"@.len());
        reveal_strlit("pow");
        assert("pow"@.len() != "log-math"@.len());
        reveal_strlit("pow-math");
        assert("pow-math"@[0] != "log-math"@[0]);
        reveal_strlit("floor-div");
        assert("floor-div"@.len() != "log-math"@.len());
    }
    {
        reveal_strlit("<");
        reveal_strlit("+");
        assert("+"@[0] != "<"@[0]);
        reveal_strlit("-");
        assert("-"@[0] != "<"@[0]);
        reveal_strlit("*");
        assert("*"@[0] != "<"@[0]);
        reveal_strlit("/");
        assert("/"@[0] != "<"@[0]);
        reveal_strlit("%");
        assert("%"@[0] != "<"@[0]);
        reveal_strlit("mod");
        assert("mod"@.len() != "<"@.len());
        reveal_strlit("pow");
        assert("pow"@.len() != "<"@.len());
        reveal_strlit("pow-math");
        assert("pow-math"@.len() != "<"@.len());
        reveal_strlit("floor-div");
        assert("floor-div"@.len() != "<"@.len());
        reveal_strlit("log-math");
        assert("log-math"@.len() != "<"@.len());
    }
    {
        reveal_strlit("<=");
        reveal_strlit("+");
        assert("+"@.len() != "<="@.len());
        reveal_strlit("-");
        assert("-"@.len() != "<="@.len());
        reveal_strlit("*");
        assert("*"@.len() != "<="@.len());
        reveal_strlit("/");
        assert("/"@.len() != "<="@.len());
        reveal_strlit("%");
        assert("%"@.len() != "<="@.len());
        reveal_strlit("mod");
        assert("mod"@.len() != "<="@.len());
        reveal_strlit("pow");
        assert("pow"@.len() != "<="@.len());
        reveal_strlit("pow-math");
        assert("pow-math"@.len() != "<="@.len());
        reveal_strlit("floor-div");
        assert("floor-div"@.len() != "<="@.len());
        reveal_strlit("log-math");
        assert("log-math"@.len() != "<="@.len());
        reveal_strlit("<");
        assert("<"@.len() != "<="@.len());
    }
    {
        reveal_strlit(">");
        reveal_strlit("+");
        assert("+"@[0] != ">"@[0]);
        reveal_strlit("-");
        assert("-"@[0] != ">"@[0]);
        reveal_strlit("*");
        assert("*"@[0] != ">"@[0]);
        reveal_strlit("/");
        assert("/"@[0] != ">"@[0]);
        reveal_strlit("%");
        assert("%"@[0] != ">"@[0]);
        reveal_strlit("mod");
        assert("mod"@.len() != ">"@.len());
        reveal_strlit("pow");
        assert("pow"@.len() != ">"@.len());
        reveal_strlit("pow-math");
        assert("pow-math"@.len() != ">"@.len());
        reveal_strlit("floor-div");
        assert("floor-div"@.len() != ">"@.len());
        reveal_strlit("log-math");
        assert("log-math"@.len() != ">"@.len());
        reveal_strlit("<");
        assert("<"@[0] != ">"@[0]);
        reveal_strlit("<=");
        assert("<="@.len() != ">"@.len());
    }
    {
        reveal_strlit(">=");
        reveal_strlit("+");
        assert("+"@.len() != ">="@.len());
        reveal_strlit("-");
        assert("-"@.len() != ">="@.len());
        reveal_strlit("*");
        assert("*"@.len() != ">="@.len());
        reveal_strlit("/");
        assert("/"@.len() != ">="@.len());
        reveal_strlit("%");
        assert("%"@.len() != ">="@.len());
        reveal_strlit("mod");
        assert("mod"@.len() != ">="@.len());
        reveal_strlit("pow");
        assert("pow"@.len() != ">="@.len());
        reveal_strlit("pow-math");
        assert("pow-math"@.len() != ">="@.len());
        reveal_strlit("floor-div");
        assert("floor-div"@.len() != ">="@.len());
        reveal_strlit("log-math");
        assert("log-math"@.len() != ">="@.len());
        reveal_strlit("<");
        assert("<"@.len() != ">="@.len());
        reveal_strlit("<=");
        assert("<="@[0] != ">="@[0]);
        reveal_strlit(">");
        assert(">"@.len() != ">="@.len());
    }
    {
        reveal_strlit("==");
        reveal_strlit("+");
        assert("+"@.len() != "=="@.len());
        reveal_strlit("-");
        assert("-"@.len() != "=="@.len());
        reveal_strlit("*");
        assert("*"@.len() != "=="@.len());
        reveal_strlit("/");
        assert("/"@.len() != "=="@.len());
        reveal_strlit("%");
        assert("%"@.len() != "=="@.len());
        reveal_strlit("mod");
        assert("mod"@.len() != "=="@.len());
        reveal_strlit("pow");
        assert("pow"@.len() != "=="@.len());
        reveal_strlit("pow-math");
        assert("pow-math"@.len() != "=="@.len());
        reveal_strlit("floor-div");
        assert("floor-div"@.len() != "=="@.len());
        reveal_strlit("log-math");
        assert("log-math"@.len() != "=="@.len());
        reveal_strlit("<");
        assert("<"@.len() != "=="@.len());
        reveal_strlit("<=");
        assert("<="@[0] != "=="@[0]);
        reveal_strlit(">");
        assert(">"@.len() != "=="@.len());
        reveal_strlit(">=");
        assert(">="@[0] != "=="@[0]);
    }
    {
        reveal_strlit("!=");
        reveal_strlit("+");
        assert("+"@.len() != "!="@.len());
        reveal_strlit("-");
        assert("-"@.len() != "!="@.len());
        reveal_strlit("*");
        assert("*"@.len() != "!="@.len());
        reveal_strlit("/");
        assert("/"@.len() != "!="@.len());
        reveal_strlit("%");
        assert("%"@.len() != "!="@.len());
        reveal_strlit("mod");
        assert("mod"@.len() != "!="@.len());
        reveal_strlit("pow");
        assert("pow"@.len() != "!="@.len());
        reveal_strlit("pow-math");
        assert("pow-math"@.len() != "!="@.len());
        reveal_strlit("floor-div");
        assert("floor-div"@.len() != "!="@.len());
        reveal_strlit("log-math");
        assert("log-math"@.len() != "!="@.len());
        reveal_strlit("<");
        assert("<"@.len() != "!="@.len());
        reveal_strlit("<=");
        assert("<="@[0] != "!="@[0]);
        reveal_strlit(">");
        assert(">"@.len() != "!="@.len());
        reveal_strlit(">=");
        assert(">="@[0] != "!="@[0]);
        reveal_strlit("==");
        assert("=="@[0] != "!="@[0]);
    }
    {
        reveal_strlit("and");
        reveal_strlit("+");
        assert("+"@.len() != "and"@.len());
        reveal_strlit("-");
        assert("-"@.len() != "and"@.len());
        reveal_strlit("*");
        assert("*"@.len() != "and"@.len());
        reveal_strlit("/");
        assert("/"@.len() != "and"@.len());
        reveal_strlit("%");
        assert("%"@.len() != "and"@.len());
        reveal_strlit("mod");
        assert("mod"@[0] != "and"@[0]);
        reveal_strlit("pow");
        assert("pow"@[0] != "and"@[0]);
        reveal_strlit("pow-math");
        assert("pow-math"@.len() != "and"@.len());
        reveal_strlit("floor-div");
        assert("floor-div"@.len() != "and"@.len());
        reveal_strlit("log-math");
        assert("log-math"@.len() != "and"@.len());
        reveal_strlit("<");
        assert("<"@.len() != "and"@.len());
        reveal_strlit("<=");
        assert("<="@.len() != "and"@.len());
        reveal_strlit(">");
        assert(">"@.len() != "and"@.len());
        reveal_strlit(">=");
        assert(">="@.len() != "and"@.len());
        reveal_strlit("==");
        assert("=="@.len() != "and"@.len());
        reveal_strlit("!=");
        assert("!="@.len() != "and"@.len());
    }
    {
        reveal_strlit("or");
        reveal_strlit("+");
        assert("+"@.len() != "or"@.len());
        reveal_strlit("-");
        assert("-"@.len() != "or"@.len());
        reveal_strlit("*");
        assert("*"@.len() != "or"@.len());
        reveal_strlit("/");
        assert("/"@.len() != "or"@.len());
        reveal_strlit("%");
        assert("%"@.len() != "or"@.len());
        reveal_strlit("mod");
        assert("mod"@.len() != "or"@.len());
        reveal_strlit("pow");
        assert("pow"@.len() != "or"@.len());
        reveal_strlit("pow-math");
        assert("pow-math"@.len() != "or"@.len());
        reveal_strlit("floor-div");
        assert("floor-div"@.len() != "or"@.len());
        reveal_strlit("log-math");
        assert("log-math"@.len() != "or"@.len());
        reveal_strlit("<");
        assert("<"@.len() != "or"@.len());
        reveal_strlit("<=");
        assert("<="@[0] != "or"@[0]);
        reveal_strlit(">");
        assert(">"@.len() != "or"@.len());
        reveal_strlit(">=");
        assert(">="@[0] != "or"@[0]);
        reveal_strlit("==");
        assert("=="@[0] != "or"@[0]);
        reveal_strlit("!=");
        assert("!="@[0] != "or"@[0]);
        reveal_strlit("and");
        assert("and"@.len() != "or"@.len());
    }
    {
        reveal_strlit("xor");
        reveal_strlit("+");
        assert("+"@.len() != "xor"@.len());
        reveal_strlit("-");
        assert("-"@.len() != "xor"@.len());
        reveal_strlit("*");
        assert("*"@.len() != "xor"@.len());
        reveal_strlit("/");
        assert("/"@.len() != "xor"@.len());
        reveal_strlit("%");
        assert("%"@.len() != "xor"@.len());
        reveal_strlit("mod");
        assert("mod"@[0] != "xor"@[0]);
        reveal_strlit("pow");
        assert("pow"@[0] != "xor"@[0]);
        reveal_strlit("pow-math");
        assert("pow-math"@.len() != "xor"@.len());
        reveal_strlit("floor-div");
        assert("floor-div"@.len() != "xor"@.len());
        reveal_strlit("log-math");
        assert("log-math"@.len() != "xor"@.len());
        reveal_strlit("<");
        assert("<"@.len() != "xor"@.len());
        reveal_strlit("<=");
        assert("<="@.len() != "xor"@.len());
        reveal_strlit(">");
        assert(">"@.len() != "xor"@.len());
        reveal_strlit(">=");
        assert(">="@.len() != "xor"@.len());
        reveal_strlit("==");
        assert("=="@.len() != "xor"@.len());
        reveal_strlit("!=");
        assert("!="@.len() != "xor"@.len());
        reveal_strlit("and");
        assert("and"@[0] != "xor"@[0]);
        reveal_strlit("or");
        assert("or"@.len() != "xor"@.len());
    }
    {
        reveal_strlit("check-type");
        reveal_strlit("+");
        assert("+"@.len() != "check-type"@.len());
        reveal_strlit("-");
        assert("-"@.len() != "check-type"@.len());
        reveal_strlit("*");
        assert("*"@.len() != "check-type"@.len());
        reveal_strlit("/");
        assert("/"@.len() != "check-type"@.len());
        reveal_strlit("%");
        assert("%"@.len() != "check-type"@.len());
        reveal_strlit("mod");
        assert("mod"@.len() != "check-type"@.len());
        reveal_strlit("pow");
        assert("pow"@.len() != "check-type"@.len());
        reveal_strlit("pow-math");
        assert("pow-math"@.len() != "check-type"@.len());
        reveal_strlit("floor-div");
        assert("floor-div"@.len() != "check-type"@.len());
        reveal_strlit("log-math");
        assert("log-math"@.len() != "check-type"@.len());
        reveal_strlit("<");
        assert("<"@.len() != "check-type"@.len());
        reveal_strlit("<=");
        assert("<="@.len() != "check-type"@.len());
        reveal_strlit(">");
        assert(">"@.len() != "check-type"@.len());
        reveal_strlit(">=");
        assert(">="@.len() != "check-type"@.len());
        reveal_strlit("==");
        assert("=="@.len() != "check-type"@.len());
        reveal_strlit("!=");
        assert("!="@.len() != "check-type"@.len());
        reveal_strlit("and");
        assert("and"@.len() != "check-type"@.len());
        reveal_strlit("or");
        assert("or"@.len() != "check-type"@.len());
        reveal_strlit("xor");
        assert("xor"@.len() != "check-type"@.len());
    }
    {
        reveal_strlit("cons-atom");
        reveal_strlit("+");
        assert("+"@.len() != "cons-atom"@.len());
        reveal_strlit("-");
        assert("-"@.len() != "cons-atom"@.len());
        reveal_strlit("*");
        assert("*"@.len() != "cons-atom"@.len());
        reveal_strlit("/");
        assert("/"@.len() != "cons-atom"@.len());
        reveal_strlit("%");
        assert("%"@.len() != "cons-atom"@.len());
        reveal_strlit("mod");
        assert("mod"@.len() != "cons-atom"@.len());
        reveal_strlit("pow");
        assert("pow"@.len() != "cons-atom"@.len());
        reveal_strlit("pow-math");
        assert("pow-math"@.len() != "cons-atom"@.len());
        reveal_strlit("floor-div");
        assert("floor-div"@[0] != "cons-atom"@[0]);
        reveal_strlit("log-math");
        assert("log-math"@.len() != "cons-atom"@.len());
        reveal_strlit("<");
        assert("<"@.len() != "cons-atom"@.len());
        reveal_strlit("<=");
        assert("<="@.len() != "cons-atom"@.len());
        reveal_strlit(">");
        assert(">"@.len() != "cons-atom"@.len());
        reveal_strlit(">=");
        assert(">="@.len() != "cons-atom"@.len());
        reveal_strlit("==");
        assert("=="@.len() != "cons-atom"@.len());
        reveal_strlit("!=");
        assert("!="@.len() != "cons-atom"@.len());
        reveal_strlit("and");
        assert("and"@.len() != "cons-atom"@.len());
        reveal_strlit("or");
        assert("or"@.len() != "cons-atom"@.len());
        reveal_strlit("xor");
        assert("xor"@.len() != "cons-atom"@.len());
        reveal_strlit("check-type");
        assert("check-type"@.len() != "cons-atom"@.len());
    }
    {
        reveal_strlit("index-atom");
        reveal_strlit("+");
        assert("+"@.len() != "index-atom"@.len());
        reveal_strlit("-");
        assert("-"@.len() != "index-atom"@.len());
        reveal_strlit("*");
        assert("*"@.len() != "index-atom"@.len());
        reveal_strlit("/");
        assert("/"@.len() != "index-atom"@.len());
        reveal_strlit("%");
        assert("%"@.len() != "index-atom"@.len());
        reveal_strlit("mod");
        assert("mod"@.len() != "index-atom"@.len());
        reveal_strlit("pow");
        assert("pow"@.len() != "index-atom"@.len());
        reveal_strlit("pow-math");
        assert("pow-math"@.len() != "index-atom"@.len());
        reveal_strlit("floor-div");
        assert("floor-div"@.len() != "index-atom"@.len());
        reveal_strlit("log-math");
        assert("log-math"@.len() != "index-atom"@.len());
        reveal_strlit("<");
        assert("<"@.len() != "index-atom"@.len());
        reveal_strlit("<=");
        assert("<="@.len() != "index-atom"@.len());
        reveal_strlit(">");
        assert(">"@.len() != "index-atom"@.len());
        reveal_strlit(">=");
        assert(">="@.len() != "index-atom"@.len());
        reveal_strlit("==");
        assert("=="@.len() != "index-atom"@.len());
        reveal_strlit("!=");
        assert("!="@.len() != "index-atom"@.len());
        reveal_strlit("and");
        assert("and"@.len() != "index-atom"@.len());
        reveal_strlit("or");
        assert("or"@.len() != "index-atom"@.len());
        reveal_strlit("xor");
        assert("xor"@.len() != "index-atom"@.len());
        reveal_strlit("check-type");
        assert("check-type"@[0] != "index-atom"@[0]);
        reveal_strlit("cons-atom");
        assert("cons-atom"@.len() != "index-atom"@.len());
    }
    {
        reveal_strlit("add-atom");
        reveal_strlit("+");
        assert("+"@.len() != "add-atom"@.len());
        reveal_strlit("-");
        assert("-"@.len() != "add-atom"@.len());
        reveal_strlit("*");
        assert("*"@.len() != "add-atom"@.len());
        reveal_strlit("/");
        assert("/"@.len() != "add-atom"@.len());
        reveal_strlit("%");
        assert("%"@.len() != "add-atom"@.len());
        reveal_strlit("mod");
        assert("mod"@.len() != "add-atom"@.len());
        reveal_strlit("pow");
        assert("pow"@.len() != "add-atom"@.len());
        reveal_strlit("pow-math");
        assert("pow-math"@[0] != "add-atom"@[0]);
        reveal_strlit("floor-div");
        assert("floor-div"@.len() != "add-atom"@.len());
        reveal_strlit("log-math");
        assert("log-math"@[0] != "add-atom"@[0]);
        reveal_strlit("<");
        assert("<"@.len() != "add-atom"@.len());
        reveal_strlit("<=");
        assert("<="@.len() != "add-atom"@.len());
        reveal_strlit(">");
        assert(">"@.len() != "add-atom"@.len());
        reveal_strlit(">=");
        assert(">="@.len() != "add-atom"@.len());
        reveal_strlit("==");
        assert("=="@.len() != "add-atom"@.len());
        reveal_strlit("!=");
        assert("!="@.len() != "add-atom"@.len());
        reveal_strlit("and");
        assert("and"@.len() != "add-atom"@.len());
        reveal_strlit("or");
        assert("or"@.len() != "add-atom"@.len());
        reveal_strlit("xor");
        assert("xor"@.len() != "add-atom"@.len());
        reveal_strlit("check-type");
        assert("check-type"@.len() != "add-atom"@.len());
        reveal_strlit("cons-atom");
        assert("cons-atom"@.len() != "add-atom"@.len());
        reveal_strlit("index-atom");
        assert("index-atom"@.len() != "add-atom"@.len());
    }
    {
        reveal_strlit("remove-atom");
        reveal_strlit("+");
        assert("+"@.len() != "remove-atom"@.len());
        reveal_strlit("-");
        assert("-"@.len() != "remove-atom"@.len());
        reveal_strlit("*");
        assert("*"@.len() != "remove-atom"@.len());
        reveal_strlit("/");
        assert("/"@.len() != "remove-atom"@.len());
        reveal_strlit("%");
        assert("%"@.len() != "remove-atom"@.len());
        reveal_strlit("mod");
        assert("mod"@.len() != "remove-atom"@.len());
        reveal_strlit("pow");
        assert("pow"@.len() != "remove-atom"@.len());
        reveal_strlit("pow-math");
        assert("pow-math"@.len() != "remove-atom"@.len());
        reveal_strlit("floor-div");
        assert("floor-div"@.len() != "remove-atom"@.len());
        reveal_strlit("log-math");
        assert("log-math"@.len() != "remove-atom"@.len());
        reveal_strlit("<");
        assert("<"@.len() != "remove-atom"@.len());
        reveal_strlit("<=");
        assert("<="@.len() != "remove-atom"@.len());
        reveal_strlit(">");
        assert(">"@.len() != "remove-atom"@.len());
        reveal_strlit(">=");
        assert(">="@.len() != "remove-atom"@.len());
        reveal_strlit("==");
        assert("=="@.len() != "remove-atom"@.len());
        reveal_strlit("!=");
        assert("!="@.len() != "remove-atom"@.len());
        reveal_strlit("and");
        assert("and"@.len() != "remove-atom"@.len());
        reveal_strlit("or");
        assert("or"@.len() != "remove-atom"@.len());
        reveal_strlit("xor");
        assert("xor"@.len() != "remove-atom"@.len());
        reveal_strlit("check-type");
        assert("check-type"@.len() != "remove-atom"@.len());
        reveal_strlit("cons-atom");
        assert("cons-atom"@.len() != "remove-atom"@.len());
        reveal_strlit("index-atom");
        assert("index-atom"@.len() != "remove-atom"@.len());
        reveal_strlit("add-atom");
        assert("add-atom"@.len() != "remove-atom"@.len());
    }
}

/// Look up the binary operation that a builtin name denotes.
pub fn lookup_binary(name: &str) -> (r: Option<BinaryOp>)
    ensures
        r == binary_builtin(name@),
{
    if str_eq(name, "+") {
        Some(BinaryOp::Add)
    } else if str_eq(name, "-") {
        Some(BinaryOp::Sub)
    } else if str_eq(name, "*") {
        Some(BinaryOp::Mul)
    } else if str_eq(name, "/") {
        Some(BinaryOp::Div)
    } else if str_eq(name, "%") {
        Some(BinaryOp::Mod)
    } else if str_eq(name, "mod") {
        Some(BinaryOp::Mod)
    } else if str_eq(name, "pow") {
        Some(BinaryOp::Pow)
    } else if str_eq(name, "pow-math") {
        Some(BinaryOp::Pow)
    } else if str_eq(name, "floor-div") {
        Some(BinaryOp::FloorDiv)
    } else if str_eq(name, "log-math") {
        Some(BinaryOp::Log)
    } else if str_eq(name, "<") {
        Some(BinaryOp::Lt)
    } else if str_eq(name, "<=") {
        Some(BinaryOp::Le)
    } else if str_eq(name, ">") {
        Some(BinaryOp::Gt)
    } else if str_eq(name, ">=") {
        Some(BinaryOp::Ge)
    } else if str_eq(name, "==") {
        Some(BinaryOp::Eq)
    } else if str_eq(name, "!=") {
        Some(BinaryOp::Ne)
    } else if str_eq(name, "and") {
        Some(BinaryOp::And)
    } else if str_eq(name, "or") {
        Some(BinaryOp::Or)
    } else if str_eq(name, "xor") {
        Some(BinaryOp::Xor)
    } else if str_eq(name, "check-type") {
        Some(BinaryOp::CheckType)
    } else if str_eq(name, "cons-atom") {
        Some(BinaryOp::ConsAtom)
    } else if str_eq(name, "index-atom") {
        Some(BinaryOp::IndexAtom)
    } else if str_eq(name, "add-atom") {
        Some(BinaryOp::SpaceAdd)
    } else if str_eq(name, "remove-atom") {
        Some(BinaryOp::SpaceRemove)
    } else {
        None
    }
}

/// Look up the unary operation that a builtin name denotes.
pub fn lookup_unary(name: &str) -> (r: Option<UnaryOp>)
    ensures
        r == unary_builtin(name@),
{
    if str_eq(name, "abs") {
        Some(UnaryOp::Abs)
    } else if str_eq(name, "abs-math") {
        Some(UnaryOp::Abs)
    } else if str_eq(name, "neg") {
        Some(UnaryOp::Neg)
    } else if str_eq(name, "sqrt-math") {
        Some(UnaryOp::Sqrt)
    } else if str_eq(name, "trunc-math") {
        Some(UnaryOp::Trunc)
    } else if str_eq(name, "ceil-math") {
        Some(UnaryOp::Ceil)
    } else if str_eq(name, "floor-math") {
        Some(UnaryOp::Floor)
    } else if str_eq(name, "round-math") {
        Some(UnaryOp::Round)
    } else if str_eq(name, "sin-math") {
        Some(UnaryOp::Sin)
    } else if str_eq(name, "cos-math") {
        Some(UnaryOp::Cos)
    } else if str_eq(name, "tan-math") {
        Some(UnaryOp::Tan)
    } else if str_eq(name, "asin-math") {
        Some(UnaryOp::Asin)
    } else if str_eq(name, "acos-math") {
        Some(UnaryOp::Acos)
    } else if str_eq(name, "atan-math") {
        Some(UnaryOp::Atan)
    } else if str_eq(name, "isnan-math") {
        Some(UnaryOp::IsNan)
    } else if str_eq(name, "isinf-math") {
        Some(UnaryOp::IsInf)
    } else if str_eq(name, "not") {
        Some(UnaryOp::Not)
    } else if str_eq(name, "eval") {
        Some(UnaryOp::EvalEval)
    } else if str_eq(name, "get-type") {
        Some(UnaryOp::GetType)
    } else if str_eq(name, "get-metatype") {
        Some(UnaryOp::GetMetaType)
    } else if str_eq(name, "collapse") {
        Some(UnaryOp::EvalCollapse)
    } else if str_eq(name, "car-atom") {
        Some(UnaryOp::GetHead)
    } else if str_eq(name, "cdr-atom") {
        Some(UnaryOp::GetTail)
    } else if str_eq(name, "size-atom") {
        Some(UnaryOp::GetArity)
    } else if str_eq(name, "decons-atom") {
        Some(UnaryOp::DeconAtom)
    } else if str_eq(name, "repr") {
        Some(UnaryOp::Repr)
    } else if str_eq(name, "min-atom") {
        Some(UnaryOp::MinAtom)
    } else if str_eq(name, "max-atom") {
        Some(UnaryOp::MaxAtom)
    } else if str_eq(name, "get-atoms") {
        Some(UnaryOp::SpaceGetAtoms)
    } else if str_eq(name, "new-state") {
        Some(UnaryOp::NewState)
    } else if str_eq(name, "get-state") {
        Some(UnaryOp::GetState)
    } else if str_eq(name, "trace!") {
        Some(UnaryOp::Trace)
    } else {
        None
    }
}

} // verus!
