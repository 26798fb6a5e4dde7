use std::collections::{HashMap, HashSet};

use metta_bytecode::analysis::abstract_domain::AbstractType;
use metta_bytecode::analysis::derived::{build_dispatch_hints, DerivedAnalysis, DispatchHint};

#[test]
fn test_build_dispatch_hints() {
    let derived = DerivedAnalysis {
        dead_rules: HashSet::new(),
        deterministic_dispatch: HashMap::new(),
        pure_expressions: vec![42].into_iter().collect(),
        type_specializations: vec![(42, AbstractType::Long)].into_iter().collect(),
        ground_expressions: vec![42].into_iter().collect(),
        memo_candidates: vec![42].into_iter().collect(),
        parallel_candidates: vec![42].into_iter().collect(),
    };

    let hints = build_dispatch_hints(&derived);
    let hint = hints.get(&42).expect("should have hint");
    assert!(hint.is_pure);
    assert!(hint.is_ground);
    assert_eq!(hint.result_type, Some(AbstractType::Long));
}

#[test]
fn test_build_dispatch_hints_separate_sets() {
    let derived = DerivedAnalysis {
        dead_rules: HashSet::new(),
        deterministic_dispatch: HashMap::new(),
        pure_expressions: vec![1].into_iter().collect(),
        type_specializations: vec![(2, AbstractType::Bool)].into_iter().collect(),
        ground_expressions: vec![3].into_iter().collect(),
        memo_candidates: HashSet::new(),
        parallel_candidates: HashSet::new(),
    };
    let hints = build_dispatch_hints(&derived);
    assert_eq!(hints.len(), 3);
    let d = DispatchHint::default();
    assert_eq!(hints[&1], DispatchHint { is_pure: true, ..d });
    assert_eq!(hints[&2], DispatchHint { result_type: Some(AbstractType::Bool), ..d });
    assert_eq!(hints[&3], DispatchHint { is_ground: true, ..d });
    assert!(hints.get(&4).is_none());
    assert_eq!(d.deterministic_rule, None);
}

use metta_bytecode::analysis::abstract_domain::AbstractStore;
use metta_bytecode::analysis::derived::{
    derive_analysis, detect_dead_rules_with_total, detect_purity, detect_type_specialization,
};
use metta_bytecode::analysis::fixpoint::{AnalysisResult, ExprFact, FactRules};

fn make_result(facts: Vec<(u64, ExprFact)>) -> AnalysisResult {
    AnalysisResult {
        reachable_states: Vec::new(),
        store: AbstractStore::new(),
        expr_facts: facts.into_iter().collect(),
        iterations: 1,
        converged: true,
        analysis_time_ms: 0,
    }
}

#[test]
fn test_detect_purity() {
    let result = make_result(vec![
        (1, ExprFact { is_pure: Some(true), ..Default::default() }),
        (2, ExprFact { is_pure: Some(false), ..Default::default() }),
        (3, ExprFact { is_pure: None, ..Default::default() }),
    ]);
    let pure = detect_purity(&result);
    assert!(pure.contains(&1));
    assert!(!pure.contains(&2));
    assert!(!pure.contains(&3));
}

#[test]
fn test_detect_type_specialization() {
    let mut fact = ExprFact::default();
    fact.result_types.insert(AbstractType::Long);

    let result = make_result(vec![(42, fact)]);
    let specs = detect_type_specialization(&result);
    assert_eq!(specs.get(&42), Some(&AbstractType::Long));
}

#[test]
fn test_detect_type_specialization_mixed() {
    let mut fact = ExprFact::default();
    fact.result_types.insert(AbstractType::Long);
    fact.result_types.insert(AbstractType::String);

    let result = make_result(vec![(42, fact)]);
    let specs = detect_type_specialization(&result);
    assert!(specs.get(&42).is_none());
}

#[test]
fn test_detect_dead_rules_with_total() {
    let mut fact = ExprFact::default();
    fact.reachable_rules = FactRules::from_slice(&[0, 2, 4]);

    let result = make_result(vec![(1, fact)]);
    let dead = detect_dead_rules_with_total(&result, 5);
    assert!(dead.contains(&1));
    assert!(dead.contains(&3));
    assert!(!dead.contains(&0));
    assert!(!dead.contains(&2));
    assert!(!dead.contains(&4));
}

#[test]
fn test_derive_analysis() {
    let mut fact = ExprFact::default();
    fact.is_pure = Some(true);
    fact.is_deterministic = Some(true);
    fact.reachable_rules = FactRules::from_slice(&[0]);
    fact.result_types.insert(AbstractType::Long);

    let result = make_result(vec![(42, fact)]);
    let derived = derive_analysis(&result);

    assert!(derived.pure_expressions.contains(&42));
    assert!(derived.memo_candidates.contains(&42));
    assert!(derived.parallel_candidates.contains(&42));
    assert_eq!(derived.type_specializations.get(&42), Some(&AbstractType::Long));
}

#[test]
fn test_derive_analysis_not_memo_without_determinism() {
    let result = make_result(vec![
        (7, ExprFact { is_pure: Some(true), is_deterministic: Some(false), ..Default::default() }),
        (8, ExprFact { is_ground: Some(true), ..Default::default() }),
    ]);
    let derived = derive_analysis(&result);
    assert!(derived.pure_expressions.contains(&7));
    assert!(!derived.memo_candidates.contains(&7));
    assert!(derived.ground_expressions.contains(&8));
    assert!(derived.dead_rules.is_empty());
    assert!(derived.deterministic_dispatch.is_empty());
}
