//! Instruction set of the bytecode virtual machine.

use vstd::prelude::*;

verus! {

/// One instruction of the bytecode virtual machine.
#[derive(Clone, Copy, Debug, PartialEq, Eq, Structural)]
pub enum Opcode {
    Nop,
    PushNil,
    PushUnit,
    PushTrue,
    PushFalse,
    PushLongSmall,
    PushLong,
    PushConstant,
    PushString,
    PushAtom,
    PushVariable,
    PushUri,
    PushEmpty,
    MakeSExpr,
    MakeSExprLarge,
    MakeList,
    Pop,
    Dup,
    Swap,
    Rot3,
    LoadLocal,
    LoadLocalWide,
    StoreLocal,
    StoreLocalWide,
    LoadUpvalue,
    Jump,
    JumpShort,
    JumpIfFalse,
    JumpIfFalseShort,
    JumpIfTrue,
    JumpIfTrueShort,
    JumpIfNil,
    JumpIfError,
    Call,
    TailCall,
    Return,
    Halt,
    Fork,
    Fail,
    Cut,
    Yield,
    Add,
    Sub,
    Mul,
    Div,
    Mod,
    Neg,
    Abs,
    FloorDiv,
    Pow,
    Log,
    Sqrt,
    Trunc,
    Ceil,
    FloorMath,
    Round,
    Sin,
    Cos,
    Tan,
    Asin,
    Acos,
    Atan,
    IsNan,
    IsInf,
    Lt,
    Le,
    Gt,
    Ge,
    Eq,
    Ne,
    And,
    Or,
    Not,
    Xor,
    GetType,
    CheckType,
    GetMetaType,
    GetHead,
    GetTail,
    GetArity,
    GetElement,
    ConsAtom,
    DeconAtom,
    DeconsAtom,
    IndexAtom,
    MinAtom,
    MaxAtom,
    Repr,
    Trace,
    EvalEval,
    EvalNew,
    EvalMatch,
    EvalCollapse,
    MatchBind,
    UnifyBind,
    SpaceAdd,
    SpaceRemove,
    SpaceGetAtoms,
    NewState,
    GetState,
    ChangeState,
    MapAtom,
    FilterAtom,
    FoldlAtom,
}

/// The byte that encodes an opcode.
pub open spec fn opcode_byte(op: Opcode) -> u8 {
    match op {
        Opcode::Nop => 0u8,
        Opcode::PushNil => 1u8,
        Opcode::PushUnit => 2u8,
        Opcode::PushTrue => 3u8,
        Opcode::PushFalse => 4u8,
        Opcode::PushLongSmall => 5u8,
        Opcode::PushLong => 6u8,
        Opcode::PushConstant => 7u8,
        Opcode::PushString => 8u8,
        Opcode::PushAtom => 9u8,
        Opcode::PushVariable => 10u8,
        Opcode::PushUri => 11u8,
        Opcode::PushEmpty => 12u8,
        Opcode::MakeSExpr => 13u8,
        Opcode::MakeSExprLarge => 14u8,
        Opcode::MakeList => 15u8,
        Opcode::Pop => 16u8,
        Opcode::Dup => 17u8,
        Opcode::Swap => 18u8,
        Opcode::Rot3 => 19u8,
        Opcode::LoadLocal => 20u8,
        Opcode::LoadLocalWide => 21u8,
        Opcode::StoreLocal => 22u8,
        Opcode::StoreLocalWide => 23u8,
        Opcode::LoadUpvalue => 24u8,
        Opcode::Jump => 25u8,
        Opcode::JumpShort => 26u8,
        Opcode::JumpIfFalse => 27u8,
        Opcode::JumpIfFalseShort => 28u8,
        Opcode::JumpIfTrue => 29u8,
        Opcode::JumpIfTrueShort => 30u8,
        Opcode::JumpIfNil => 31u8,
        Opcode::JumpIfError => 32u8,
        Opcode::Call => 33u8,
        Opcode::TailCall => 34u8,
        Opcode::Return => 35u8,
        Opcode::Halt => 36u8,
        Opcode::Fork => 37u8,
        Opcode::Fail => 38u8,
        Opcode::Cut => 39u8,
        Opcode::Yield => 40u8,
        Opcode::Add => 41u8,
        Opcode::Sub => 42u8,
        Opcode::Mul => 43u8,
        Opcode::Div => 44u8,
        Opcode::Mod => 45u8,
        Opcode::Neg => 46u8,
        Opcode::Abs => 47u8,
        Opcode::FloorDiv => 48u8,
        Opcode::Pow => 49u8,
        Opcode::Log => 50u8,
        Opcode::Sqrt => 51u8,
        Opcode::Trunc => 52u8,
        Opcode::Ceil => 53u8,
        Opcode::FloorMath => 54u8,
        Opcode::Round => 55u8,
        Opcode::Sin => 56u8,
        Opcode::Cos => 57u8,
        Opcode::Tan => 58u8,
        Opcode::Asin => 59u8,
        Opcode::Acos => 60u8,
        Opcode::Atan => 61u8,
        Opcode::IsNan => 62u8,
        Opcode::IsInf => 63u8,
        Opcode::Lt => 64u8,
        Opcode::Le => 65u8,
        Opcode::Gt => 66u8,
        Opcode::Ge => 67u8,
        Opcode::Eq => 68u8,
        Opcode::Ne => 69u8,
        Opcode::And => 70u8,
        Opcode::Or => 71u8,
        Opcode::Not => 72u8,
        Opcode::Xor => 73u8,
        Opcode::GetType => 74u8,
        Opcode::CheckType => 75u8,
        Opcode::GetMetaType => 76u8,
        Opcode::GetHead => 77u8,
        Opcode::GetTail => 78u8,
        Opcode::GetArity => 79u8,
        Opcode::GetElement => 80u8,
        Opcode::ConsAtom => 81u8,
        Opcode::DeconAtom => 82u8,
        Opcode::DeconsAtom => 83u8,
        Opcode::IndexAtom => 84u8,
        Opcode::MinAtom => 85u8,
        Opcode::MaxAtom => 86u8,
        Opcode::Repr => 87u8,
        Opcode::Trace => 88u8,
        Opcode::EvalEval => 89u8,
        Opcode::EvalNew => 90u8,
        Opcode::EvalMatch => 91u8,
        Opcode::EvalCollapse => 92u8,
        Opcode::MatchBind => 93u8,
        Opcode::UnifyBind => 94u8,
        Opcode::SpaceAdd => 95u8,
        Opcode::SpaceRemove => 96u8,
        Opcode::SpaceGetAtoms => 97u8,
        Opcode::NewState => 98u8,
        Opcode::GetState => 99u8,
        Opcode::ChangeState => 100u8,
        Opcode::MapAtom => 101u8,
        Opcode::FilterAtom => 102u8,
        Opcode::FoldlAtom => 103u8,
    }
}

/// The opcode that a byte encodes, if any.
pub open spec fn byte_opcode(b: u8) -> Option<Opcode> {
    match b {
        0u8 => Some(Opcode::Nop),
        1u8 => Some(Opcode::PushNil),
        2u8 => Some(Opcode::PushUnit),
        3u8 => Some(Opcode::PushTrue),
        4u8 => Some(Opcode::PushFalse),
        5u8 => Some(Opcode::PushLongSmall),
        6u8 => Some(Opcode::PushLong),
        7u8 => Some(Opcode::PushConstant),
        8u8 => Some(Opcode::PushString),
        9u8 => Some(Opcode::PushAtom),
        10u8 => Some(Opcode::PushVariable),
        11u8 => Some(Opcode::PushUri),
        12u8 => Some(Opcode::PushEmpty),
        13u8 => Some(Opcode::MakeSExpr),
        14u8 => Some(Opcode::MakeSExprLarge),
        15u8 => Some(Opcode::MakeList),
        16u8 => Some(Opcode::Pop),
        17u8 => Some(Opcode::Dup),
        18u8 => Some(Opcode::Swap),
        19u8 => Some(Opcode::Rot3),
        20u8 => Some(Opcode::LoadLocal),
        21u8 => Some(Opcode::LoadLocalWide),
        22u8 => Some(Opcode::StoreLocal),
        23u8 => Some(Opcode::StoreLocalWide),
        24u8 => Some(Opcode::LoadUpvalue),
        25u8 => Some(Opcode::Jump),
        26u8 => Some(Opcode::JumpShort),
        27u8 => Some(Opcode::JumpIfFalse),
        28u8 => Some(Opcode::JumpIfFalseShort),
        29u8 => Some(Opcode::JumpIfTrue),
        30u8 => Some(Opcode::JumpIfTrueShort),
        31u8 => Some(Opcode::JumpIfNil),
        32u8 => Some(Opcode::JumpIfError),
        33u8 => Some(Opcode::Call),
        34u8 => Some(Opcode::TailCall),
        35u8 => Some(Opcode::Return),
        36u8 => Some(Opcode::Halt),
        37u8 => Some(Opcode::Fork),
        38u8 => Some(Opcode::Fail),
        39u8 => Some(Opcode::Cut),
        40u8 => Some(Opcode::Yield),
        41u8 => Some(Opcode::Add),
        42u8 => Some(Opcode::Sub),
        43u8 => Some(Opcode::Mul),
        44u8 => Some(Opcode::Div),
        45u8 => Some(Opcode::Mod),
        46u8 => Some(Opcode::Neg),
        47u8 => Some(Opcode::Abs),
        48u8 => Some(Opcode::FloorDiv),
        49u8 => Some(Opcode::Pow),
        50u8 => Some(Opcode::Log),
        51u8 => Some(Opcode::Sqrt),
        52u8 => Some(Opcode::Trunc),
        53u8 => Some(Opcode::Ceil),
        54u8 => Some(Opcode::FloorMath),
        55u8 => Some(Opcode::Round),
        56u8 => Some(Opcode::Sin),
        57u8 => Some(Opcode::Cos),
        58u8 => Some(Opcode::Tan),
        59u8 => Some(Opcode::Asin),
        60u8 => Some(Opcode::Acos),
        61u8 => Some(Opcode::Atan),
        62u8 => Some(Opcode::IsNan),
        63u8 => Some(Opcode::IsInf),
        64u8 => Some(Opcode::Lt),
        65u8 => Some(Opcode::Le),
        66u8 => Some(Opcode::Gt),
        67u8 => Some(Opcode::Ge),
        68u8 => Some(Opcode::Eq),
        69u8 => Some(Opcode::Ne),
        70u8 => Some(Opcode::And),
        71u8 => Some(Opcode::Or),
        72u8 => Some(Opcode::Not),
        73u8 => Some(Opcode::Xor),
        74u8 => Some(Opcode::GetType),
        75u8 => Some(Opcode::CheckType),
        76u8 => Some(Opcode::GetMetaType),
        77u8 => Some(Opcode::GetHead),
        78u8 => Some(Opcode::GetTail),
        79u8 => Some(Opcode::GetArity),
        80u8 => Some(Opcode::GetElement),
        81u8 => Some(Opcode::ConsAtom),
        82u8 => Some(Opcode::DeconAtom),
        83u8 => Some(Opcode::DeconsAtom),
        84u8 => Some(Opcode::IndexAtom),
        85u8 => Some(Opcode::MinAtom),
        86u8 => Some(Opcode::MaxAtom),
        87u8 => Some(Opcode::Repr),
        88u8 => Some(Opcode::Trace),
        89u8 => Some(Opcode::EvalEval),
        90u8 => Some(Opcode::EvalNew),
        91u8 => Some(Opcode::EvalMatch),
        92u8 => Some(Opcode::EvalCollapse),
        93u8 => Some(Opcode::MatchBind),
        94u8 => Some(Opcode::UnifyBind),
        95u8 => Some(Opcode::SpaceAdd),
        96u8 => Some(Opcode::SpaceRemove),
        97u8 => Some(Opcode::SpaceGetAtoms),
        98u8 => Some(Opcode::NewState),
        99u8 => Some(Opcode::GetState),
        100u8 => Some(Opcode::ChangeState),
        101u8 => Some(Opcode::MapAtom),
        102u8 => Some(Opcode::FilterAtom),
        103u8 => Some(Opcode::FoldlAtom),
        _ => None,
    }
}

/// The number of operand bytes that follow an opcode.
pub open spec fn opcode_immediate_size(op: Opcode) -> nat {
    match op {
        Opcode::PushLongSmall | Opcode::MakeSExpr | Opcode::MakeList | Opcode::LoadLocal | Opcode::StoreLocal | Opcode::JumpShort | Opcode::JumpIfFalseShort | Opcode::JumpIfTrueShort | Opcode::GetElement => 1,
        Opcode::PushLong | Opcode::PushConstant | Opcode::PushString | Opcode::PushAtom | Opcode::PushVariable | Opcode::PushUri | Opcode::MakeSExprLarge | Opcode::LoadLocalWide | Opcode::StoreLocalWide | Opcode::LoadUpvalue | Opcode::Jump | Opcode::JumpIfFalse | Opcode::JumpIfTrue | Opcode::JumpIfNil | Opcode::JumpIfError | Opcode::Fork | Opcode::MapAtom | Opcode::FilterAtom | Opcode::FoldlAtom => 2,
        Opcode::Call | Opcode::TailCall => 3,
        _ => 0,
    }
}

/// Whether an opcode is a jump.
pub open spec fn opcode_is_jump(op: Opcode) -> bool {
    match op {
        Opcode::Jump | Opcode::JumpShort | Opcode::JumpIfFalse | Opcode::JumpIfFalseShort | Opcode::JumpIfTrue | Opcode::JumpIfTrueShort | Opcode::JumpIfNil | Opcode::JumpIfError => true,
        _ => false,
    }
}

/// The assembler name of an opcode.
pub open spec fn opcode_mnemonic(op: Opcode) -> Seq<char> {
    match op {
        Opcode::Nop => "nop"@,
        Opcode::PushNil => "push_nil"@,
        Opcode::PushUnit => "push_unit"@,
        Opcode::PushTrue => "push_true"@,
        Opcode::PushFalse => "push_false"@,
        Opcode::PushLongSmall => "push_long_small"@,
        Opcode::PushLong => "push_long"@,
        Opcode::PushConstant => "push_constant"@,
        Opcode::PushString => "push_string"@,
        Opcode::PushAtom => "push_atom"@,
        Opcode::PushVariable => "push_variable"@,
        Opcode::PushUri => "push_uri"@,
        Opcode::PushEmpty => "push_empty"@,
        Opcode::MakeSExpr => "make_sexpr"@,
        Opcode::MakeSExprLarge => "make_sexpr_large"@,
        Opcode::MakeList => "make_list"@,
        Opcode::Pop => "pop"@,
        Opcode::Dup => "dup"@,
        Opcode::Swap => "swap"@,
        Opcode::Rot3 => "rot3"@,
        Opcode::LoadLocal => "load_local"@,
        Opcode::LoadLocalWide => "load_local_wide"@,
        Opcode::StoreLocal => "store_local"@,
        Opcode::StoreLocalWide => "store_local_wide"@,
        Opcode::LoadUpvalue => "load_upvalue"@,
        Opcode::Jump => "jump"@,
        Opcode::JumpShort => "jump_short"@,
        Opcode::JumpIfFalse => "jump_if_false"@,
        Opcode::JumpIfFalseShort => "jump_if_false_short"@,
        Opcode::JumpIfTrue => "jump_if_true"@,
        Opcode::JumpIfTrueShort => "jump_if_true_short"@,
        Opcode::JumpIfNil => "jump_if_nil"@,
        Opcode::JumpIfError => "jump_if_error"@,
        Opcode::Call => "call"@,
        Opcode::TailCall => "tail_call"@,
        Opcode::Return => "return"@,
        Opcode::Halt => "halt"@,
        Opcode::Fork => "fork"@,
        Opcode::Fail => "fail"@,
        Opcode::Cut => "cut"@,
        Opcode::Yield => "yield"@,
        Opcode::Add => "add"@,
        Opcode::Sub => "sub"@,
        Opcode::Mul => "mul"@,
        Opcode::Div => "div"@,
        Opcode::Mod => "mod"@,
        Opcode::Neg => "neg"@,
        Opcode::Abs => "abs"@,
        Opcode::FloorDiv => "floor_div"@,
        Opcode::Pow => "pow"@,
        Opcode::Log => "log"@,
        Opcode::Sqrt => "sqrt"@,
        Opcode::Trunc => "trunc"@,
        Opcode::Ceil => "ceil"@,
        Opcode::FloorMath => "floor_math"@,
        Opcode::Round => "round"@,
        Opcode::Sin => "sin"@,
        Opcode::Cos => "cos"@,
        Opcode::Tan => "tan"@,
        Opcode::Asin => "asin"@,
        Opcode::Acos => "acos"@,
        Opcode::Atan => "atan"@,
        Opcode::IsNan => "is_nan"@,
        Opcode::IsInf => "is_inf"@,
        Opcode::Lt => "lt"@,
        Opcode::Le => "le"@,
        Opcode::Gt => "gt"@,
        Opcode::Ge => "ge"@,
        Opcode::Eq => "eq"@,
        Opcode::Ne => "ne"@,
        Opcode::And => "and"@,
        Opcode::Or => "or"@,
        Opcode::Not => "not"@,
        Opcode::Xor => "xor"@,
        Opcode::GetType => "get_type"@,
        Opcode::CheckType => "check_type"@,
        Opcode::GetMetaType => "get_metatype"@,
        Opcode::GetHead => "get_head"@,
        Opcode::GetTail => "get_tail"@,
        Opcode::GetArity => "get_arity"@,
        Opcode::GetElement => "get_element"@,
        Opcode::ConsAtom => "cons_atom"@,
        Opcode::DeconAtom => "decon_atom"@,
        Opcode::DeconsAtom => "decons_atom"@,
        Opcode::IndexAtom => "index_atom"@,
        Opcode::MinAtom => "min_atom"@,
        Opcode::MaxAtom => "max_atom"@,
        Opcode::Repr => "repr"@,
        Opcode::Trace => "trace"@,
        Opcode::EvalEval => "eval_eval"@,
        Opcode::EvalNew => "eval_new"@,
        Opcode::EvalMatch => "eval_match"@,
        Opcode::EvalCollapse => "eval_collapse"@,
        Opcode::MatchBind => "match_bind"@,
        Opcode::UnifyBind => "unify_bind"@,
        Opcode::SpaceAdd => "space_add"@,
        Opcode::SpaceRemove => "space_remove"@,
        Opcode::SpaceGetAtoms => "space_get_atoms"@,
        Opcode::NewState => "new_state"@,
        Opcode::GetState => "get_state"@,
        Opcode::ChangeState => "change_state"@,
        Opcode::MapAtom => "map_atom"@,
        Opcode::FilterAtom => "filter_atom"@,
        Opcode::FoldlAtom => "foldl_atom"@,
    }
}

/// Decoding a byte yields the opcode that encodes to it, and nothing else does.
pub proof fn lemma_opcode_byte_roundtrip(op: Opcode, b: u8)
    ensures
        byte_opcode(opcode_byte(op)) == Some(op),
        byte_opcode(b) == Some(op) <==> opcode_byte(op) == b,
{
}

impl Opcode {
    /// The byte that encodes this opcode.
    pub fn to_byte(self) -> (r: u8)
        ensures
            r == opcode_byte(self),
    {
        match self {
            Opcode::Nop => 0,
            Opcode::PushNil => 1,
            Opcode::PushUnit => 2,
            Opcode::PushTrue => 3,
            Opcode::PushFalse => 4,
            Opcode::PushLongSmall => 5,
            Opcode::PushLong => 6,
            Opcode::PushConstant => 7,
            Opcode::PushString => 8,
            Opcode::PushAtom => 9,
            Opcode::PushVariable => 10,
            Opcode::PushUri => 11,
            Opcode::PushEmpty => 12,
            Opcode::MakeSExpr => 13,
            Opcode::MakeSExprLarge => 14,
            Opcode::MakeList => 15,
            Opcode::Pop => 16,
            Opcode::Dup => 17,
            Opcode::Swap => 18,
            Opcode::Rot3 => 19,
            Opcode::LoadLocal => 20,
            Opcode::LoadLocalWide => 21,
            Opcode::StoreLocal => 22,
            Opcode::StoreLocalWide => 23,
            Opcode::LoadUpvalue => 24,
            Opcode::Jump => 25,
            Opcode::JumpShort => 26,
            Opcode::JumpIfFalse => 27,
            Opcode::JumpIfFalseShort => 28,
            Opcode::JumpIfTrue => 29,
            Opcode::JumpIfTrueShort => 30,
            Opcode::JumpIfNil => 31,
            Opcode::JumpIfError => 32,
            Opcode::Call => 33,
            Opcode::TailCall => 34,
            Opcode::Return => 35,
            Opcode::Halt => 36,
            Opcode::Fork => 37,
            Opcode::Fail => 38,
            Opcode::Cut => 39,
            Opcode::Yield => 40,
            Opcode::Add => 41,
            Opcode::Sub => 42,
            Opcode::Mul => 43,
            Opcode::Div => 44,
            Opcode::Mod => 45,
            Opcode::Neg => 46,
            Opcode::Abs => 47,
            Opcode::FloorDiv => 48,
            Opcode::Pow => 49,
            Opcode::Log => 50,
            Opcode::Sqrt => 51,
            Opcode::Trunc => 52,
            Opcode::Ceil => 53,
            Opcode::FloorMath => 54,
            Opcode::Round => 55,
            Opcode::Sin => 56,
            Opcode::Cos => 57,
            Opcode::Tan => 58,
            Opcode::Asin => 59,
            Opcode::Acos => 60,
            Opcode::Atan => 61,
            Opcode::IsNan => 62,
            Opcode::IsInf => 63,
            Opcode::Lt => 64,
            Opcode::Le => 65,
            Opcode::Gt => 66,
            Opcode::Ge => 67,
            Opcode::Eq => 68,
            Opcode::Ne => 69,
            Opcode::And => 70,
            Opcode::Or => 71,
            Opcode::Not => 72,
            Opcode::Xor => 73,
            Opcode::GetType => 74,
            Opcode::CheckType => 75,
            Opcode::GetMetaType => 76,
            Opcode::GetHead => 77,
            Opcode::GetTail => 78,
            Opcode::GetArity => 79,
            Opcode::GetElement => 80,
            Opcode::ConsAtom => 81,
            Opcode::DeconAtom => 82,
            Opcode::DeconsAtom => 83,
            Opcode::IndexAtom => 84,
            Opcode::MinAtom => 85,
            Opcode::MaxAtom => 86,
            Opcode::Repr => 87,
            Opcode::Trace => 88,
            Opcode::EvalEval => 89,
            Opcode::EvalNew => 90,
            Opcode::EvalMatch => 91,
            Opcode::EvalCollapse => 92,
            Opcode::MatchBind => 93,
            Opcode::UnifyBind => 94,
            Opcode::SpaceAdd => 95,
            Opcode::SpaceRemove => 96,
            Opcode::SpaceGetAtoms => 97,
            Opcode::NewState => 98,
            Opcode::GetState => 99,
            Opcode::ChangeState => 100,
            Opcode::MapAtom => 101,
            Opcode::FilterAtom => 102,
            Opcode::FoldlAtom => 103,
        }
    }

    /// The opcode that a byte encodes, if any.
    pub fn from_byte(b: u8) -> (r: Option<Opcode>)
        ensures
            r == byte_opcode(b),
    {
        match b {
            0 => Some(Opcode::Nop),
            1 => Some(Opcode::PushNil),
            2 => Some(Opcode::PushUnit),
            3 => Some(Opcode::PushTrue),
            4 => Some(Opcode::PushFalse),
            5 => Some(Opcode::PushLongSmall),
            6 => Some(Opcode::PushLong),
            7 => Some(Opcode::PushConstant),
            8 => Some(Opcode::PushString),
            9 => Some(Opcode::PushAtom),
            10 => Some(Opcode::PushVariable),
            11 => Some(Opcode::PushUri),
            12 => Some(Opcode::PushEmpty),
            13 => Some(Opcode::MakeSExpr),
            14 => Some(Opcode::MakeSExprLarge),
            15 => Some(Opcode::MakeList),
            16 => Some(Opcode::Pop),
            17 => Some(Opcode::Dup),
            18 => Some(Opcode::Swap),
            19 => Some(Opcode::Rot3),
            20 => Some(Opcode::LoadLocal),
            21 => Some(Opcode::LoadLocalWide),
            22 => Some(Opcode::StoreLocal),
            23 => Some(Opcode::StoreLocalWide),
            24 => Some(Opcode::LoadUpvalue),
            25 => Some(Opcode::Jump),
            26 => Some(Opcode::JumpShort),
            27 => Some(Opcode::JumpIfFalse),
            28 => Some(Opcode::JumpIfFalseShort),
            29 => Some(Opcode::JumpIfTrue),
            30 => Some(Opcode::JumpIfTrueShort),
            31 => Some(Opcode::JumpIfNil),
            32 => Some(Opcode::JumpIfError),
            33 => Some(Opcode::Call),
            34 => Some(Opcode::TailCall),
            35 => Some(Opcode::Return),
            36 => Some(Opcode::Halt),
            37 => Some(Opcode::Fork),
            38 => Some(Opcode::Fail),
            39 => Some(Opcode::Cut),
            40 => Some(Opcode::Yield),
            41 => Some(Opcode::Add),
            42 => Some(Opcode::Sub),
            43 => Some(Opcode::Mul),
            44 => Some(Opcode::Div),
            45 => Some(Opcode::Mod),
            46 => Some(Opcode::Neg),
            47 => Some(Opcode::Abs),
            48 => Some(Opcode::FloorDiv),
            49 => Some(Opcode::Pow),
            50 => Some(Opcode::Log),
            51 => Some(Opcode::Sqrt),
            52 => Some(Opcode::Trunc),
            53 => Some(Opcode::Ceil),
            54 => Some(Opcode::FloorMath),
            55 => Some(Opcode::Round),
            56 => Some(Opcode::Sin),
            57 => Some(Opcode::Cos),
            58 => Some(Opcode::Tan),
            59 => Some(Opcode::Asin),
            60 => Some(Opcode::Acos),
            61 => Some(Opcode::Atan),
            62 => Some(Opcode::IsNan),
            63 => Some(Opcode::IsInf),
            64 => Some(Opcode::Lt),
            65 => Some(Opcode::Le),
            66 => Some(Opcode::Gt),
            67 => Some(Opcode::Ge),
            68 => Some(Opcode::Eq),
            69 => Some(Opcode::Ne),
            70 => Some(Opcode::And),
            71 => Some(Opcode::Or),
            72 => Some(Opcode::Not),
            73 => Some(Opcode::Xor),
            74 => Some(Opcode::GetType),
            75 => Some(Opcode::CheckType),
            76 => Some(Opcode::GetMetaType),
            77 => Some(Opcode::GetHead),
            78 => Some(Opcode::GetTail),
            79 => Some(Opcode::GetArity),
            80 => Some(Opcode::GetElement),
            81 => Some(Opcode::ConsAtom),
            82 => Some(Opcode::DeconAtom),
            83 => Some(Opcode::DeconsAtom),
            84 => Some(Opcode::IndexAtom),
            85 => Some(Opcode::MinAtom),
            86 => Some(Opcode::MaxAtom),
            87 => Some(Opcode::Repr),
            88 => Some(Opcode::Trace),
            89 => Some(Opcode::EvalEval),
            90 => Some(Opcode::EvalNew),
            91 => Some(Opcode::EvalMatch),
            92 => Some(Opcode::EvalCollapse),
            93 => Some(Opcode::MatchBind),
            94 => Some(Opcode::UnifyBind),
            95 => Some(Opcode::SpaceAdd),
            96 => Some(Opcode::SpaceRemove),
            97 => Some(Opcode::SpaceGetAtoms),
            98 => Some(Opcode::NewState),
            99 => Some(Opcode::GetState),
            100 => Some(Opcode::ChangeState),
            101 => Some(Opcode::MapAtom),
            102 => Some(Opcode::FilterAtom),
            103 => Some(Opcode::FoldlAtom),
            _ => None,
        }
    }

    /// The number of operand bytes that follow this opcode.
    pub fn immediate_size(self) -> (r: usize)
        ensures
            r as nat == opcode_immediate_size(self),
    {
        match self {
            Opcode::PushLongSmall | Opcode::MakeSExpr | Opcode::MakeList | Opcode::LoadLocal | Opcode::StoreLocal | Opcode::JumpShort | Opcode::JumpIfFalseShort | Opcode::JumpIfTrueShort | Opcode::GetElement => 1,
            Opcode::PushLong | Opcode::PushConstant | Opcode::PushString | Opcode::PushAtom | Opcode::PushVariable | Opcode::PushUri | Opcode::MakeSExprLarge | Opcode::LoadLocalWide | Opcode::StoreLocalWide | Opcode::LoadUpvalue | Opcode::Jump | Opcode::JumpIfFalse | Opcode::JumpIfTrue | Opcode::JumpIfNil | Opcode::JumpIfError | Opcode::Fork | Opcode::MapAtom | Opcode::FilterAtom | Opcode::FoldlAtom => 2,
            Opcode::Call | Opcode::TailCall => 3,
            _ => 0,
        }
    }

    /// Whether this opcode is a jump.
    pub fn is_jump(self) -> (r: bool)
        ensures
            r == opcode_is_jump(self),
    {
        match self {
            Opcode::Jump | Opcode::JumpShort | Opcode::JumpIfFalse | Opcode::JumpIfFalseShort | Opcode::JumpIfTrue | Opcode::JumpIfTrueShort | Opcode::JumpIfNil | Opcode::JumpIfError => true,
            _ => false,
        }
    }

    /// The assembler name of this opcode.
    pub fn mnemonic(self) -> (r: &'static str)
        ensures
            r@ == opcode_mnemonic(self),
    {
        match self {
            Opcode::Nop => "nop",
            Opcode::PushNil => "push_nil",
            Opcode::PushUnit => "push_unit",
            Opcode::PushTrue => "push_true",
            Opcode::PushFalse => "push_false",
            Opcode::PushLongSmall => "push_long_small",
            Opcode::PushLong => "push_long",
            Opcode::PushConstant => "push_constant",
            Opcode::PushString => "push_string",
            Opcode::PushAtom => "push_atom",
            Opcode::PushVariable => "push_variable",
            Opcode::PushUri => "push_uri",
            Opcode::PushEmpty => "push_empty",
            Opcode::MakeSExpr => "make_sexpr",
            Opcode::MakeSExprLarge => "make_sexpr_large",
            Opcode::MakeList => "make_list",
            Opcode::Pop => "pop",
            Opcode::Dup => "dup",
            Opcode::Swap => "swap",
            Opcode::Rot3 => "rot3",
            Opcode::LoadLocal => "load_local",
            Opcode::LoadLocalWide => "load_local_wide",
            Opcode::StoreLocal => "store_local",
            Opcode::StoreLocalWide => "store_local_wide",
            Opcode::LoadUpvalue => "load_upvalue",
            Opcode::Jump => "jump",
            Opcode::JumpShort => "jump_short",
            Opcode::JumpIfFalse => "jump_if_false",
            Opcode::JumpIfFalseShort => "jump_if_false_short",
            Opcode::JumpIfTrue => "jump_if_true",
            Opcode::JumpIfTrueShort => "jump_if_true_short",
            Opcode::JumpIfNil => "jump_if_nil",
            Opcode::JumpIfError => "jump_if_error",
            Opcode::Call => "call",
            Opcode::TailCall => "tail_call",
            Opcode::Return => "return",
            Opcode::Halt => "halt",
            Opcode::Fork => "fork",
            Opcode::Fail => "fail",
            Opcode::Cut => "cut",
            Opcode::Yield => "yield",
            Opcode::Add => "add",
            Opcode::Sub => "sub",
            Opcode::Mul => "mul",
            Opcode::Div => "div",
            Opcode::Mod => "mod",
            Opcode::Neg => "neg",
            Opcode::Abs => "abs",
            Opcode::FloorDiv => "floor_div",
            Opcode::Pow => "pow",
            Opcode::Log => "log",
            Opcode::Sqrt => "sqrt",
            Opcode::Trunc => "trunc",
            Opcode::Ceil => "ceil",
            Opcode::FloorMath => "floor_math",
            Opcode::Round => "round",
            Opcode::Sin => "sin",
            Opcode::Cos => "cos",
            Opcode::Tan => "tan",
            Opcode::Asin => "asin",
            Opcode::Acos => "acos",
            Opcode::Atan => "atan",
            Opcode::IsNan => "is_nan",
            Opcode::IsInf => "is_inf",
            Opcode::Lt => "lt",
            Opcode::Le => "le",
            Opcode::Gt => "gt",
            Opcode::Ge => "ge",
            Opcode::Eq => "eq",
            Opcode::Ne => "ne",
            Opcode::And => "and",
            Opcode::Or => "or",
            Opcode::Not => "not",
            Opcode::Xor => "xor",
            Opcode::GetType => "get_type",
            Opcode::CheckType => "check_type",
            Opcode::GetMetaType => "get_metatype",
            Opcode::GetHead => "get_head",
            Opcode::GetTail => "get_tail",
            Opcode::GetArity => "get_arity",
            Opcode::GetElement => "get_element",
            Opcode::ConsAtom => "cons_atom",
            Opcode::DeconAtom => "decon_atom",
            Opcode::DeconsAtom => "decons_atom",
            Opcode::IndexAtom => "index_atom",
            Opcode::MinAtom => "min_atom",
            Opcode::MaxAtom => "max_atom",
            Opcode::Repr => "repr",
            Opcode::Trace => "trace",
            Opcode::EvalEval => "eval_eval",
            Opcode::EvalNew => "eval_new",
            Opcode::EvalMatch => "eval_match",
            Opcode::EvalCollapse => "eval_collapse",
            Opcode::MatchBind => "match_bind",
            Opcode::UnifyBind => "unify_bind",
            Opcode::SpaceAdd => "space_add",
            Opcode::SpaceRemove => "space_remove",
            Opcode::SpaceGetAtoms => "space_get_atoms",
            Opcode::NewState => "new_state",
            Opcode::GetState => "get_state",
            Opcode::ChangeState => "change_state",
            Opcode::MapAtom => "map_atom",
            Opcode::FilterAtom => "filter_atom",
            Opcode::FoldlAtom => "foldl_atom",
        }
    }
}

} // verus!
