use metta_bytecode::chunk::{BytecodeChunk, ChunkBuilder, JumpTable};
use metta_bytecode::opcode::Opcode;
use metta_bytecode::value::MettaValue;

#[test]
fn test_chunk_builder_basic() {
    let mut builder = ChunkBuilder::new("test");
    builder.emit(Opcode::PushNil);
    builder.emit(Opcode::PushTrue);
    builder.emit(Opcode::Return);

    let chunk = builder.build();
    assert_eq!(chunk.len(), 3);
    assert_eq!(chunk.read_opcode(0), Some(Opcode::PushNil));
    assert_eq!(chunk.read_opcode(1), Some(Opcode::PushTrue));
    assert_eq!(chunk.read_opcode(2), Some(Opcode::Return));
}

#[test]
fn test_chunk_constants() {
    let mut builder = ChunkBuilder::new("test");
    let idx1 = builder.add_constant(MettaValue::Long(42));
    let idx2 = builder.add_constant(MettaValue::Bool(true));
    let idx3 = builder.add_constant(MettaValue::Long(42)); // Duplicate

    assert_eq!(idx1, 0);
    assert_eq!(idx2, 1);
    assert_eq!(idx3, 0); // Reuses existing

    let chunk = builder.build();
    assert_eq!(chunk.constant_count(), 2);
    assert_eq!(chunk.get_constant(0), Some(&MettaValue::Long(42)));
    assert_eq!(chunk.get_constant(1), Some(&MettaValue::Bool(true)));
}

#[test]
fn test_chunk_jump_patching() {
    let mut builder = ChunkBuilder::new("test");

    // if (cond) { body } else { else_body }
    builder.emit(Opcode::PushTrue);
    let else_jump = builder.emit_jump(Opcode::JumpIfFalse);
    builder.emit(Opcode::PushNil); // then body
    let end_jump = builder.emit_jump(Opcode::Jump);
    builder.patch_jump(else_jump);
    builder.emit(Opcode::PushFalse); // else body
    builder.patch_jump(end_jump);
    builder.emit(Opcode::Return);

    let chunk = builder.build();

    // Verify the jump targets are correct
    let disasm = chunk.disassemble();
    assert!(disasm.contains("jump_if_false"));
    assert!(disasm.contains("jump"));
}

#[test]
fn test_chunk_line_info() {
    let mut builder = ChunkBuilder::new("test");
    builder.set_line(1);
    builder.emit(Opcode::PushNil);
    builder.set_line(2);
    builder.emit(Opcode::PushTrue);
    builder.emit(Opcode::PushFalse);
    builder.set_line(5);
    builder.emit(Opcode::Return);

    let chunk = builder.build();
    assert_eq!(chunk.get_line(0), Some(1));
    assert_eq!(chunk.get_line(1), Some(2));
    assert_eq!(chunk.get_line(2), Some(2)); // Same line
    assert_eq!(chunk.get_line(3), Some(5));
}

#[test]
fn test_disassemble() {
    let mut builder = ChunkBuilder::new("example");
    builder.set_arity(2);
    builder.set_local_count(3);

    builder.emit_byte(Opcode::PushLongSmall, 42);
    builder.emit_u16(Opcode::LoadLocal, 0);
    builder.emit(Opcode::Add);
    builder.emit(Opcode::Return);

    let chunk = builder.build();
    let disasm = chunk.disassemble();

    assert!(disasm.contains("example"));
    assert!(disasm.contains("push_long_small 42"));
    assert!(disasm.contains("add"));
    assert!(disasm.contains("return"));
}


#[test]
fn jump_tables_are_kept_in_order() {
    let mut builder = BytecodeChunk::builder("tables");
    let first = builder.add_jump_table(JumpTable { base_offset: 4, entries: vec![(7, 10), (9, 20)], default_offset: 30 });
    let second = builder.add_jump_table(JumpTable { base_offset: 8, entries: vec![], default_offset: 12 });
    assert_eq!((first, second), (0, 1));
    let chunk = builder.build();
    let t = chunk.get_jump_table(0).expect("first table");
    assert_eq!((t.base_offset, t.entries.clone(), t.default_offset), (4, vec![(7, 10), (9, 20)], 30));
    let u = chunk.get_jump_table(1).expect("second table");
    assert_eq!((u.base_offset, u.entries.len(), u.default_offset), (8, 0, 12));
    assert!(chunk.get_jump_table(2).is_none());
}
