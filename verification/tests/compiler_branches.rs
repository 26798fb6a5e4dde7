use metta_bytecode::chunk::BytecodeChunk;
use metta_bytecode::compiler::folding::try_fold_unary_arith;
use metta_bytecode::compiler::{compile, CompileContext, Compiler};
use metta_bytecode::opcode::Opcode;
use metta_bytecode::value::MettaValue;

fn atom(s: &str) -> MettaValue {
    MettaValue::Atom(s.to_string())
}

fn sexpr(items: Vec<MettaValue>) -> MettaValue {
    MettaValue::SExpr(items)
}

/// The instructions of a chunk with their offsets.
fn instructions(chunk: &BytecodeChunk) -> Vec<(usize, Opcode)> {
    let mut out = Vec::new();
    let mut at = 0;
    while at < chunk.len() {
        let op = chunk.read_opcode(at).expect("a valid opcode");
        out.push((at, op));
        at += 1 + op.immediate_size();
    }
    out
}

/// Where a two-byte forward jump at `at` lands.
fn jump_target(chunk: &BytecodeChunk, at: usize) -> usize {
    let offset = chunk.read_u16(at + 1).expect("a jump operand") as i16;
    ((at + 3) as isize + offset as isize) as usize
}

#[test]
fn match_with_default_builds_one_four_part_query() {
    let mut c = Compiler::new("test");
    let expr = sexpr(vec![atom("match"), atom("&self"), atom("$p"), atom("$t"), atom("$d")]);
    c.compile(&expr).expect("match compiles");
    let chunk = c.finish();
    let ops: Vec<Opcode> = instructions(&chunk).into_iter().map(|(_, op)| op).collect();
    assert_eq!(
        ops,
        vec![
            Opcode::PushAtom,
            Opcode::PushVariable,
            Opcode::PushVariable,
            Opcode::PushVariable,
            Opcode::MakeSExpr,
            Opcode::EvalMatch,
            Opcode::Return,
        ]
    );
    let make = instructions(&chunk)[4].0;
    assert_eq!(chunk.read_byte(make + 1), Some(4));
}

#[test]
fn match_without_default_builds_a_three_part_query() {
    let expr = sexpr(vec![atom("match"), atom("&self"), atom("$p"), atom("$t")]);
    let chunk = compile("test", &expr).expect("match compiles");
    let ins = instructions(&chunk);
    let ops: Vec<Opcode> = ins.iter().map(|(_, op)| *op).collect();
    assert_eq!(
        ops,
        vec![
            Opcode::PushAtom,
            Opcode::PushVariable,
            Opcode::PushVariable,
            Opcode::MakeSExpr,
            Opcode::EvalMatch,
            Opcode::Return,
        ]
    );
    assert_eq!(chunk.read_byte(ins[3].0 + 1), Some(3));
}

#[test]
fn case_branches_jump_to_the_end_of_the_case() {
    let expr = sexpr(vec![
        atom("case"),
        atom("$x"),
        sexpr(vec![
            sexpr(vec![MettaValue::Long(1), MettaValue::String("one".to_string())]),
            sexpr(vec![MettaValue::Long(2), MettaValue::String("two".to_string())]),
        ]),
    ]);
    let chunk = compile("test", &expr).expect("case compiles");
    let ins = instructions(&chunk);
    let ops: Vec<Opcode> = ins.iter().map(|(_, op)| *op).collect();
    assert_eq!(
        ops,
        vec![
            Opcode::PushVariable,
            Opcode::Dup,
            Opcode::PushLongSmall,
            Opcode::MatchBind,
            Opcode::JumpIfFalse,
            Opcode::Pop,
            Opcode::PushString,
            Opcode::Jump,
            Opcode::Dup,
            Opcode::PushLongSmall,
            Opcode::MatchBind,
            Opcode::JumpIfFalse,
            Opcode::Pop,
            Opcode::PushString,
            Opcode::Jump,
            Opcode::Return,
        ]
    );
    let end = ins[15].0;
    // Each branch's result leaves the case.
    assert_eq!(jump_target(&chunk, ins[7].0), end);
    assert_eq!(jump_target(&chunk, ins[14].0), end);
    // A failed test goes on to the next branch, or past the last one.
    assert_eq!(jump_target(&chunk, ins[4].0), ins[8].0);
    assert_eq!(jump_target(&chunk, ins[11].0), end);
}

#[test]
fn closing_a_scope_pops_its_locals_and_forgets_their_names() {
    let mut ctx = CompileContext::new();
    ctx.begin_scope();
    assert_eq!(ctx.declare_local("a".to_string()), Ok(0));
    assert_eq!(ctx.end_scope(), 1);
    assert_eq!(ctx.resolve_local("a"), None);
    ctx.begin_scope();
    assert_eq!(ctx.declare_local("b".to_string()), Ok(1));
    assert_eq!(ctx.end_scope(), 1);
    assert_eq!(ctx.resolve_local("b"), None);
}

#[test]
fn unary_folding_wraps_at_the_minimum_integer() {
    assert_eq!(
        try_fold_unary_arith("abs", &MettaValue::Long(i64::MIN)),
        Some(MettaValue::Long(i64::MIN))
    );
    assert_eq!(
        try_fold_unary_arith("neg", &MettaValue::Long(i64::MIN)),
        Some(MettaValue::Long(i64::MIN))
    );
    assert_eq!(try_fold_unary_arith("abs", &MettaValue::Long(-42)), Some(MettaValue::Long(42)));
    assert_eq!(try_fold_unary_arith("abs-math", &MettaValue::Long(-100)), Some(MettaValue::Long(100)));
    assert_eq!(try_fold_unary_arith("sqrt-math", &MettaValue::Long(4)), None);
    assert_eq!(try_fold_unary_arith("abs", &MettaValue::String("x".to_string())), None);
}

#[test]
fn abs_of_the_minimum_integer_is_not_folded_when_compiling() {
    let expr = sexpr(vec![atom("abs"), MettaValue::Long(i64::MIN)]);
    let chunk = compile("test", &expr).expect("abs compiles");
    assert!(instructions(&chunk).iter().any(|(_, op)| *op == Opcode::Abs));
}
