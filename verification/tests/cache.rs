use std::sync::Arc;

use metta_bytecode::cache::{
    cache_bytecode, cache_can_compile, cache_sizes, clear_caches, collect_chunk_constants,
    get_cached_bytecode, get_cached_can_compile, get_stats, hash_metta_value, BytecodeCaches,
    BOOL_SEED, NIL_HASH,
};
use metta_bytecode::chunk::ChunkBuilder;
use metta_bytecode::opcode::Opcode;
use metta_bytecode::value::MettaValue;

fn plus_expr(b: i64) -> MettaValue {
    MettaValue::SExpr(vec![
        MettaValue::Atom("+".to_string()),
        MettaValue::Long(1),
        MettaValue::Long(b),
    ])
}

#[test]
fn test_hash_stability() {
    let expr = plus_expr(2);
    let h1 = hash_metta_value(&expr);
    let h2 = hash_metta_value(&expr);
    assert_eq!(h1, h2);
}

#[test]
fn test_hash_different_exprs() {
    let h1 = hash_metta_value(&plus_expr(2));
    let h2 = hash_metta_value(&plus_expr(3));
    assert_ne!(h1, h2);
}

#[test]
fn test_can_compile_cache() {
    let mut caches = BytecodeCaches::new(16384, 4096);
    clear_caches(&mut caches);
    let hash = 12345u64;

    // Miss
    assert!(get_cached_can_compile(&caches, hash).is_none());

    // Store
    cache_can_compile(&mut caches, hash, true);

    // Hit
    assert_eq!(get_cached_can_compile(&caches, hash), Some(true));
}

#[test]
fn test_bytecode_cache() {
    let mut caches = BytecodeCaches::new(16384, 4096);
    clear_caches(&mut caches);
    let hash = 67890u64;

    // Miss
    assert!(get_cached_bytecode(&caches, hash).is_none());

    let mut builder = ChunkBuilder::new("test");
    builder.emit(Opcode::PushUnit);
    builder.emit(Opcode::Return);
    let chunk = Arc::new(builder.build());

    // Store
    cache_bytecode(&mut caches, hash, Arc::clone(&chunk));

    // Hit
    let cached = get_cached_bytecode(&caches, hash);
    assert!(cached.is_some());
}

#[test]
fn test_fast_hash_primitives() {
    let h1 = hash_metta_value(&MettaValue::Long(42));
    let h2 = hash_metta_value(&MettaValue::Long(42));
    assert_eq!(h1, h2, "Long hash should be stable");

    let h3 = hash_metta_value(&MettaValue::Long(43));
    assert_ne!(h1, h3, "Different Longs should have different hashes");

    let h_true1 = hash_metta_value(&MettaValue::Bool(true));
    let h_true2 = hash_metta_value(&MettaValue::Bool(true));
    let h_false = hash_metta_value(&MettaValue::Bool(false));
    assert_eq!(h_true1, h_true2, "Bool(true) hash should be stable");
    assert_ne!(h_true1, h_false, "Bool(true) and Bool(false) should differ");

    let h_nil1 = hash_metta_value(&MettaValue::Unit);
    let h_nil2 = hash_metta_value(&MettaValue::Unit);
    assert_eq!(h_nil1, h_nil2, "Nil hash should be stable");

    let h_f1 = hash_metta_value(&MettaValue::Float(3.14f64.to_bits()));
    let h_f2 = hash_metta_value(&MettaValue::Float(3.14f64.to_bits()));
    let h_f3 = hash_metta_value(&MettaValue::Float(2.71f64.to_bits()));
    assert_eq!(h_f1, h_f2, "Float hash should be stable");
    assert_ne!(h_f1, h_f3, "Different Floats should have different hashes");
}

#[test]
fn test_fast_hash_distinct_types() {
    let h_long = hash_metta_value(&MettaValue::Long(0));
    let h_false = hash_metta_value(&MettaValue::Bool(false));
    let h_nil = hash_metta_value(&MettaValue::Unit);
    let h_float = hash_metta_value(&MettaValue::Float(0.0f64.to_bits()));

    let hashes = [h_long, h_false, h_nil, h_float];
    for i in 0..hashes.len() {
        for j in i + 1..hashes.len() {
            assert_ne!(
                hashes[i], hashes[j],
                "Hash collision between types at indices {} and {}",
                i, j
            );
        }
    }
}

#[test]
fn test_hash_primitive_exact_values() {
    assert_eq!(hash_metta_value(&MettaValue::Unit), NIL_HASH);
    assert_eq!(hash_metta_value(&MettaValue::Bool(false)), BOOL_SEED);
    // The empty expression is the unit value.
    assert_eq!(hash_metta_value(&MettaValue::SExpr(vec![])), NIL_HASH);
    let x = 7u64.wrapping_add(0x517cc1b727220a95).wrapping_mul(0x9e3779b97f4a7c15);
    assert_eq!(hash_metta_value(&MettaValue::Long(7)), x ^ (x >> 32));
}

#[test]
fn test_hash_text_depends_on_content() {
    let a = hash_metta_value(&MettaValue::Atom("foo".to_string()));
    let b = hash_metta_value(&MettaValue::Atom("bar".to_string()));
    let s = hash_metta_value(&MettaValue::String("foo".to_string()));
    assert_ne!(a, b);
    assert_ne!(a, s);
}

#[test]
fn test_cache_put_replaces_and_sizes() {
    let mut caches = BytecodeCaches::new(4, 4);
    assert_eq!(cache_sizes(&caches), (0, 0));
    cache_can_compile(&mut caches, 1, true);
    cache_can_compile(&mut caches, 1, false);
    assert_eq!(get_cached_can_compile(&caches, 1), Some(false));
    assert_eq!(cache_sizes(&caches), (1, 0));
    clear_caches(&mut caches);
    assert_eq!(cache_sizes(&caches), (0, 0));
    assert!(get_cached_can_compile(&caches, 1).is_none());
}

#[test]
fn test_cache_evicts_least_recently_used() {
    let mut caches = BytecodeCaches::new(2, 2);
    cache_can_compile(&mut caches, 1, true);
    cache_can_compile(&mut caches, 2, true);
    cache_can_compile(&mut caches, 3, false);
    assert_eq!(cache_sizes(&caches).0, 2);
    assert!(get_cached_can_compile(&caches, 1).is_none());
    assert_eq!(get_cached_can_compile(&caches, 2), Some(true));
    assert_eq!(get_cached_can_compile(&caches, 3), Some(false));
}

#[test]
fn test_stats_start_at_zero() {
    let caches = BytecodeCaches::new(2, 2);
    let s = get_stats(&caches);
    assert_eq!(s.can_compile_hits, 0);
    assert_eq!(s.can_compile_misses, 0);
    assert_eq!(s.bytecode_hits, 0);
    assert_eq!(s.bytecode_misses, 0);
}

#[test]
fn test_collect_chunk_constants_order() {
    let mut inner = ChunkBuilder::new("inner");
    inner.add_constant(MettaValue::Long(2));
    let inner = inner.build();
    let mut outer = ChunkBuilder::new("outer");
    outer.add_constant(MettaValue::Long(1));
    outer.add_chunk_constant(inner);
    let outer = outer.build();
    let mut roots = vec![MettaValue::Long(0)];
    collect_chunk_constants(&outer, &mut roots);
    assert_eq!(
        roots,
        vec![MettaValue::Long(0), MettaValue::Long(1), MettaValue::Long(2)]
    );
}
