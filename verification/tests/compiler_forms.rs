use metta_bytecode::compiler::{compile, CompileError};
use metta_bytecode::opcode::Opcode;
use metta_bytecode::value::MettaValue;

#[allow(dead_code)]
fn compile_and_disasm(expr: &MettaValue) -> String {
    let chunk = compile("test", expr).expect("compilation should succeed");
    chunk.disassemble()
}

#[test]
fn compiler_test_compile_unit() {
    let chunk = compile("test", &MettaValue::Unit).unwrap();
    assert_eq!(chunk.read_opcode(0), Some(Opcode::PushUnit));
}

#[test]
fn compiler_test_compile_true() {
    let chunk = compile("test", &MettaValue::Bool(true)).unwrap();
    assert_eq!(chunk.read_opcode(0), Some(Opcode::PushTrue));
}

#[test]
fn compiler_test_compile_false() {
    let chunk = compile("test", &MettaValue::Bool(false)).unwrap();
    assert_eq!(chunk.read_opcode(0), Some(Opcode::PushFalse));
}

#[test]
fn compiler_test_compile_small_int() {
    let chunk = compile("test", &MettaValue::Long(42)).unwrap();
    assert_eq!(chunk.read_opcode(0), Some(Opcode::PushLongSmall));
    assert_eq!(chunk.read_byte(1), Some(42));
}

#[test]
fn compiler_test_compile_negative_small_int() {
    let chunk = compile("test", &MettaValue::Long(-10)).unwrap();
    assert_eq!(chunk.read_opcode(0), Some(Opcode::PushLongSmall));
    assert_eq!(chunk.read_byte(1), Some((-10i8) as u8));
}

#[test]
fn compiler_test_compile_large_int() {
    let chunk = compile("test", &MettaValue::Long(1000)).unwrap();
    assert_eq!(chunk.read_opcode(0), Some(Opcode::PushLong));
    assert_eq!(chunk.get_constant(0), Some(&MettaValue::Long(1000)));
}

#[test]
fn compiler_test_compile_string() {
    let chunk = compile("test", &MettaValue::String("hello".to_string())).unwrap();
    assert_eq!(chunk.read_opcode(0), Some(Opcode::PushString));
    assert_eq!(chunk.get_constant(0), Some(&MettaValue::String("hello".to_string())));
}

#[test]
fn compiler_test_compile_float() {
    let chunk = compile("test", &MettaValue::Float(f64::to_bits(3.14))).unwrap();
    assert_eq!(chunk.read_opcode(0), Some(Opcode::PushConstant));
    assert_eq!(chunk.get_constant(0), Some(&MettaValue::Float(f64::to_bits(3.14))));
}

#[test]
fn compiler_test_compile_symbol() {
    let chunk = compile("test", &MettaValue::Atom("foo".to_string())).unwrap();
    assert_eq!(chunk.read_opcode(0), Some(Opcode::PushAtom));
    assert_eq!(chunk.get_constant(0), Some(&MettaValue::Atom("foo".to_string())));
}

#[test]
fn compiler_test_compile_variable() {
    let chunk = compile("test", &MettaValue::Atom("$x".to_string())).unwrap();
    assert_eq!(chunk.read_opcode(0), Some(Opcode::PushVariable));
    assert_eq!(chunk.get_constant(0), Some(&MettaValue::Atom("$x".to_string())));
}

#[test]
fn compiler_test_compile_quote() {
    // (quote (+ 1 2))
    let expr = MettaValue::SExpr(vec![
        MettaValue::Atom("quote".to_string()),
        MettaValue::SExpr(vec![
            MettaValue::Atom("+".to_string()),
            MettaValue::Long(1),
            MettaValue::Long(2),
        ]),
    ]);
    let chunk = compile("test", &expr).unwrap();
    let disasm = chunk.disassemble();
    // Should build S-expression, not execute add
    assert!(disasm.contains("make_sexpr"));
    assert!(!disasm.contains("\nadd\n")); // No add operation
}

#[test]
fn compiler_test_compile_eval() {
    // (eval expr)
    let expr = MettaValue::SExpr(vec![
        MettaValue::Atom("eval".to_string()),
        MettaValue::Atom("$x".to_string()),
    ]);
    let chunk = compile("test", &expr).unwrap();
    assert!(chunk.disassemble().contains("eval_eval"));
}

#[test]
fn compiler_test_compile_let() {
    // (let $x 10 (+ $x 1))
    let expr = MettaValue::SExpr(vec![
        MettaValue::Atom("let".to_string()),
        MettaValue::Atom("$x".to_string()),
        MettaValue::Long(10),
        MettaValue::SExpr(vec![
            MettaValue::Atom("+".to_string()),
            MettaValue::Atom("$x".to_string()),
            MettaValue::Long(1),
        ]),
    ]);
    let chunk = compile("test", &expr).unwrap();
    let disasm = chunk.disassemble();
    assert!(disasm.contains("push_long_small 10"));
    assert!(disasm.contains("store_local"));
    assert!(disasm.contains("load_local"));
    assert!(disasm.contains("add"));
}

#[test]
fn compiler_test_compile_let_star() {
    // (let* (($x 1) ($y 2)) (+ $x $y))
    let expr = MettaValue::SExpr(vec![
        MettaValue::Atom("let*".to_string()),
        MettaValue::SExpr(vec![
            MettaValue::SExpr(vec![
                MettaValue::Atom("$x".to_string()),
                MettaValue::Long(1),
            ]),
            MettaValue::SExpr(vec![
                MettaValue::Atom("$y".to_string()),
                MettaValue::Long(2),
            ]),
        ]),
        MettaValue::SExpr(vec![
            MettaValue::Atom("+".to_string()),
            MettaValue::Atom("$x".to_string()),
            MettaValue::Atom("$y".to_string()),
        ]),
    ]);
    let chunk = compile("test", &expr).unwrap();
    let disasm = chunk.disassemble();
    assert!(disasm.contains("store_local"));
    assert!(disasm.contains("add"));
}

#[test]
fn compiler_test_compile_get_type() {
    let expr = MettaValue::SExpr(vec![
        MettaValue::Atom("get-type".to_string()),
        MettaValue::Long(42),
    ]);
    let chunk = compile("test", &expr).unwrap();
    assert!(chunk.disassemble().contains("get_type"));
}

#[test]
fn compiler_test_compile_check_type() {
    let expr = MettaValue::SExpr(vec![
        MettaValue::Atom("check-type".to_string()),
        MettaValue::Long(42),
        MettaValue::Atom("Number".to_string()),
    ]);
    let chunk = compile("test", &expr).unwrap();
    assert!(chunk.disassemble().contains("check_type"));
}

#[test]
fn compiler_test_compile_car_atom() {
    let expr = MettaValue::SExpr(vec![
        MettaValue::Atom("car-atom".to_string()),
        MettaValue::SExpr(vec![
            MettaValue::Long(1),
            MettaValue::Long(2),
            MettaValue::Long(3),
        ]),
    ]);
    let chunk = compile("test", &expr).unwrap();
    assert!(chunk.disassemble().contains("get_head"));
}

#[test]
fn compiler_test_compile_cdr_atom() {
    let expr = MettaValue::SExpr(vec![
        MettaValue::Atom("cdr-atom".to_string()),
        MettaValue::SExpr(vec![
            MettaValue::Long(1),
            MettaValue::Long(2),
            MettaValue::Long(3),
        ]),
    ]);
    let chunk = compile("test", &expr).unwrap();
    assert!(chunk.disassemble().contains("get_tail"));
}

#[test]
fn compiler_test_compile_size_atom() {
    let expr = MettaValue::SExpr(vec![
        MettaValue::Atom("size-atom".to_string()),
        MettaValue::SExpr(vec![
            MettaValue::Long(1),
            MettaValue::Long(2),
        ]),
    ]);
    let chunk = compile("test", &expr).unwrap();
    assert!(chunk.disassemble().contains("get_arity"));
}

#[test]
fn compiler_test_compile_is_error() {
    let expr = MettaValue::SExpr(vec![
        MettaValue::Atom("is-error".to_string()),
        MettaValue::Long(42),
    ]);
    let chunk = compile("test", &expr).unwrap();
    let disasm = chunk.disassemble();
    assert!(disasm.contains("jump_if_error"));
}

#[test]
fn compiler_test_compile_catch() {
    let expr = MettaValue::SExpr(vec![
        MettaValue::Atom("catch".to_string()),
        MettaValue::Long(42),
        MettaValue::Long(0),
    ]);
    let chunk = compile("test", &expr).unwrap();
    let disasm = chunk.disassemble();
    assert!(disasm.contains("jump_if_error"));
}

#[test]
fn compiler_test_compile_add_wrong_arity() {
    let expr = MettaValue::SExpr(vec![
        MettaValue::Atom("+".to_string()),
        MettaValue::Long(1),
    ]);
    let result = compile("test", &expr);
    assert!(matches!(result, Err(CompileError::InvalidArity { .. })));
}

#[test]
fn compiler_test_compile_if_wrong_arity() {
    let expr = MettaValue::SExpr(vec![
        MettaValue::Atom("if".to_string()),
        MettaValue::Bool(true),
        MettaValue::Long(1),
    ]);
    let result = compile("test", &expr);
    assert!(matches!(result, Err(CompileError::InvalidArity { .. })));
}

#[test]
fn compiler_test_constant_deduplication() {
    // Same constant used multiple times should be deduplicated
    let expr = MettaValue::SExpr(vec![
        MettaValue::Atom("+".to_string()),
        MettaValue::Long(1000), // Large int goes to constant pool
        MettaValue::Long(1000), // Same value
    ]);
    let chunk = compile("test", &expr).unwrap();
    // Should only have one constant for 1000
    assert_eq!(chunk.constant_count(), 1);
}

