use metta_bytecode::builtin_chunks::{build_binary_op, build_unary_op, get_builtin_chunk};
use metta_bytecode::opcode::Opcode;

#[test]
fn test_builtin_add_chunk() {
    let chunk = get_builtin_chunk("+", 2).expect("+ is a builtin");
    assert_eq!(chunk.name(), "builtin_add");
    assert_eq!(chunk.arity(), 2);
    assert_eq!(chunk.read_opcode(0), Some(Opcode::Add));
    assert_eq!(chunk.read_opcode(1), Some(Opcode::Return));
    assert_eq!(chunk.len(), 2);
    assert_eq!(chunk.constant_count(), 0);
}

#[test]
fn test_builtin_unary_chunks() {
    let car = get_builtin_chunk("car-atom", 1).expect("car-atom is a builtin");
    assert_eq!(car.name(), "builtin_car");
    assert_eq!(car.arity(), 1);
    assert_eq!(car.read_opcode(0), Some(Opcode::GetHead));
    let decons = get_builtin_chunk("decons-atom", 1).expect("decons-atom is a builtin");
    assert_eq!(decons.read_opcode(0), Some(Opcode::DeconsAtom));
    let repr = get_builtin_chunk("repr", 1).expect("repr is a builtin");
    assert_eq!(repr.name(), "builtin_repr");
}

#[test]
fn test_builtin_wrong_arity_or_unknown() {
    assert!(get_builtin_chunk("+", 1).is_none());
    assert!(get_builtin_chunk("not", 2).is_none());
    assert!(get_builtin_chunk("foo", 2).is_none());
    assert!(get_builtin_chunk("if", 3).is_none());
    assert!(get_builtin_chunk("cons-atom", 2).is_some());
}

#[test]
fn test_build_ops_directly() {
    let b = build_binary_op("custom", Opcode::Xor);
    assert_eq!(b.arity(), 2);
    assert_eq!(b.read_opcode(0), Some(Opcode::Xor));
    let u = build_unary_op("neg", Opcode::Not);
    assert_eq!(u.arity(), 1);
    assert_eq!(u.name(), "neg");
    assert_eq!(u.get_line(0), Some(1));
}
