use metta_bytecode::analysis::abstract_domain::{
    alpha, AbstractAddr, AbstractEnv, AbstractStore, AbstractType, AbstractValue,
    AbstractValueSet, AnalysisConfig,
};
use metta_bytecode::value::MettaValue;

fn atom(s: &str) -> MettaValue {
    MettaValue::Atom(s.to_string())
}

#[test]
fn test_alpha_atom() {
    let v = atom("hello");
    assert_eq!(alpha(&v), AbstractValue::Atom("hello".to_string()));
}

#[test]
fn test_alpha_long() {
    let v = MettaValue::Long(42);
    assert_eq!(alpha(&v), AbstractValue::Long(42));
}

#[test]
fn test_alpha_bool() {
    let v = MettaValue::Bool(true);
    assert_eq!(alpha(&v), AbstractValue::Bool(true));
}

#[test]
fn test_alpha_sexpr() {
    let v = MettaValue::SExpr(vec![atom("+"), MettaValue::Long(1), MettaValue::Long(2)]);
    match alpha(&v) {
        AbstractValue::SExpr { head, arity } => {
            assert_eq!(head, Some("+".to_string()));
            assert_eq!(arity, 3);
        }
        other => panic!("Expected SExpr, got {:?}", other),
    }
}

#[test]
fn test_alpha_unit() {
    assert_eq!(alpha(&MettaValue::Unit), AbstractValue::Unit);
}

#[test]
fn test_alpha_empty() {
    assert_eq!(alpha(&MettaValue::Empty), AbstractValue::Empty);
}

#[test]
fn test_abstract_addr_mono() {
    let addr = AbstractAddr::mono(12345);
    assert_eq!(addr.site, 12345);
    assert!(addr.context.is_empty());
}

#[test]
fn test_abstract_addr_context() {
    let addr = AbstractAddr::with_context(100, &[1, 2, 3, 4, 5], 2);
    assert_eq!(addr.site, 100);
    assert_eq!(addr.context.as_slice(), &[4, 5]);
}

#[test]
fn test_value_set_singleton() {
    let set = AbstractValueSet::singleton(AbstractValue::Long(42));
    assert!(set.is_singleton());
    assert_eq!(set.as_singleton(), Some(&AbstractValue::Long(42)));
}

#[test]
fn test_value_set_join() {
    let mut set1 = AbstractValueSet::singleton(AbstractValue::Long(1));
    let set2 = AbstractValueSet::singleton(AbstractValue::Long(2));

    let changed = set1.join(&set2);
    assert!(changed);
    assert_eq!(set1.len(), 2);
    assert!(!set1.is_singleton());
}

#[test]
fn test_value_set_join_idempotent() {
    let mut set1 = AbstractValueSet::singleton(AbstractValue::Long(1));
    let set2 = AbstractValueSet::singleton(AbstractValue::Long(1));

    let changed = set1.join(&set2);
    assert!(!changed);
    assert_eq!(set1.len(), 1);
}

#[test]
fn test_value_set_widening() {
    let mut set = AbstractValueSet::with_max_size(3);
    set.insert(AbstractValue::Long(1));
    set.insert(AbstractValue::Long(2));
    set.insert(AbstractValue::Long(3));
    assert_eq!(set.len(), 3);

    // Fourth insert triggers widening
    set.insert(AbstractValue::Long(4));
    assert_eq!(set.len(), 1);
    assert_eq!(
        set.as_singleton(),
        Some(&AbstractValue::AnyOfType(AbstractType::Long))
    );
}

#[test]
fn test_value_set_singleton_type() {
    let mut set = AbstractValueSet::new();
    set.insert(AbstractValue::Long(1));
    set.insert(AbstractValue::Long(2));
    assert_eq!(set.singleton_type(), Some(AbstractType::Long));

    set.insert(AbstractValue::Bool(true));
    assert_eq!(set.singleton_type(), None);
}

#[test]
fn test_store_alloc_lookup() {
    let mut store = AbstractStore::new();
    let addr = AbstractAddr::mono(42);

    let changed = store.allocate(addr.clone(), AbstractValue::Long(1));
    assert!(changed);

    let set = store.lookup(&addr).expect("should exist");
    assert!(set.is_singleton());
    assert_eq!(set.as_singleton(), Some(&AbstractValue::Long(1)));
}

#[test]
fn test_store_alloc_join() {
    let mut store = AbstractStore::new();
    let addr = AbstractAddr::mono(42);

    store.allocate(addr.clone(), AbstractValue::Long(1));
    let changed = store.allocate(addr.clone(), AbstractValue::Long(2));
    assert!(changed);

    let set = store.lookup(&addr).expect("should exist");
    assert_eq!(set.len(), 2);
}

#[test]
fn test_env_extend_lookup() {
    let env = AbstractEnv::new();
    let addr = AbstractAddr::mono(42);

    let env2 = env.extend("$x", addr.clone());
    assert_eq!(env2.lookup("$x"), Some(&addr));
    assert!(env.lookup("$x").is_none());
}

#[test]
fn test_config_default() {
    let config = AnalysisConfig::default();
    assert_eq!(config.k, 0);
    assert_eq!(config.max_set_size, 32);
    assert!(config.track_purity);
}

#[test]
fn test_type_join() {
    assert_eq!(AbstractType::Long.join(AbstractType::Long), AbstractType::Long);
    assert_eq!(AbstractType::Long.join(AbstractType::Bool), AbstractType::Top);
}

#[test]
fn test_alpha_string_keeps_type_only() {
    let v = MettaValue::String("hi".to_string());
    assert_eq!(alpha(&v), AbstractValue::AnyOfType(AbstractType::String));
}

#[test]
fn test_alpha_sexpr_non_atom_head() {
    let v = MettaValue::SExpr(vec![MettaValue::Long(1), MettaValue::Long(2)]);
    assert_eq!(alpha(&v), AbstractValue::SExpr { head: None, arity: 2 });
    assert_eq!(alpha(&MettaValue::SExpr(vec![])), AbstractValue::Unit);
}

#[test]
fn test_value_set_widening_mixed_types_is_top() {
    let mut set = AbstractValueSet::with_max_size(1);
    assert!(set.insert(AbstractValue::Long(1)));
    set.insert(AbstractValue::Bool(false));
    assert_eq!(set.as_singleton(), Some(&AbstractValue::AnyOfType(AbstractType::Top)));
}

#[test]
fn test_value_set_insert_duplicate_unchanged() {
    let mut set = AbstractValueSet::new();
    assert!(set.insert(AbstractValue::Atom("a".to_string())));
    assert!(!set.insert(AbstractValue::Atom("a".to_string())));
    assert_eq!(set.len(), 1);
    assert!(set.iter().any(|v| *v == AbstractValue::Atom("a".to_string())));
    assert!(AbstractValueSet::new().is_empty());
    assert_eq!(AbstractValueSet::new().singleton_type(), None);
}

#[test]
fn test_store_and_env_sizes() {
    let mut store = AbstractStore::new();
    assert!(store.is_empty());
    store.allocate(AbstractAddr::mono(1), AbstractValue::Unit);
    store.allocate(AbstractAddr::with_context(1, &[7], 1), AbstractValue::Unit);
    store.allocate(AbstractAddr::mono(1), AbstractValue::Unit);
    assert_eq!(store.len(), 2);
    let env = AbstractEnv::new().extend("$x", AbstractAddr::mono(1)).extend("$x", AbstractAddr::mono(2));
    assert_eq!(env.len(), 1);
    assert_eq!(env.lookup("$x"), Some(&AbstractAddr::mono(2)));
    assert!(AbstractEnv::new().is_empty());
}

#[test]
fn test_addr_context_shorter_than_k() {
    let addr = AbstractAddr::with_context(5, &[9], 3);
    assert_eq!(addr.context.as_slice(), &[9]);
    assert_eq!(AbstractAddr::with_context(5, &[1, 2], 0).context.len(), 0);
}

#[test]
fn value_sets_iterate_in_the_order_of_abstract_values() {
    let mut set = AbstractValueSet::with_max_size(20);
    set.insert(AbstractValue::Top);
    set.insert(AbstractValue::Long(7));
    set.insert(AbstractValue::Atom("b".to_string()));
    set.insert(AbstractValue::Long(-3));
    set.insert(AbstractValue::Atom("a".to_string()));
    set.insert(AbstractValue::Bool(true));
    set.insert(AbstractValue::Bool(false));
    set.insert(AbstractValue::SExpr { head: Some("f".to_string()), arity: 2 });
    set.insert(AbstractValue::SExpr { head: None, arity: 5 });
    set.insert(AbstractValue::Long(7));
    let order: Vec<AbstractValue> = set.iter().cloned().collect();
    assert_eq!(
        order,
        vec![
            AbstractValue::Atom("a".to_string()),
            AbstractValue::Atom("b".to_string()),
            AbstractValue::Bool(false),
            AbstractValue::Bool(true),
            AbstractValue::Long(-3),
            AbstractValue::Long(7),
            AbstractValue::SExpr { head: None, arity: 5 },
            AbstractValue::SExpr { head: Some("f".to_string()), arity: 2 },
            AbstractValue::Top,
        ]
    );
    assert!(AbstractValue::Long(1).precedes(&AbstractValue::Long(2)));
    assert!(!AbstractValue::Top.precedes(&AbstractValue::Unit));
}
