use metta_bytecode::builtin_signatures::{builtin_names, get_signature, is_builtin};
use metta_bytecode::compiler::work_item::BinaryOp;

fn all_binary_ops() -> Vec<BinaryOp> {
    vec![
        BinaryOp::Add,
        BinaryOp::Sub,
        BinaryOp::Mul,
        BinaryOp::Div,
        BinaryOp::Mod,
        BinaryOp::Pow,
        BinaryOp::FloorDiv,
        BinaryOp::Log,
        BinaryOp::Lt,
        BinaryOp::Le,
        BinaryOp::Gt,
        BinaryOp::Ge,
        BinaryOp::Eq,
        BinaryOp::Ne,
        BinaryOp::And,
        BinaryOp::Or,
        BinaryOp::Xor,
        BinaryOp::IndexAtom,
        BinaryOp::CheckType,
        BinaryOp::ConsAtom,
        BinaryOp::SpaceAdd,
        BinaryOp::SpaceRemove,
    ]
}

#[test]
fn every_binary_op_is_a_two_argument_builtin() {
    for op in all_binary_ops() {
        let sig = get_signature(op.name()).expect("a registered builtin");
        assert_eq!(sig.name, op.name());
        assert_eq!(sig.min_arity, 2);
        assert_eq!(sig.max_arity, 2);
    }
}

#[test]
fn binary_op_names_are_distinct() {
    let ops = all_binary_ops();
    for (i, a) in ops.iter().enumerate() {
        for b in ops.iter().skip(i + 1) {
            assert_ne!(a.name(), b.name());
        }
    }
}

#[test]
fn builtin_test_agrees_with_lookup() {
    for name in ["+", "let", "match", "lit", "MyDataType", "if", "remove-atom"] {
        assert_eq!(is_builtin(name), get_signature(name).is_some());
    }
    assert_eq!(builtin_names().len(), 147);
}
