use std::collections::{HashMap, HashSet};

use metta_bytecode::analysis::abstract_domain::AbstractStore;
use metta_bytecode::analysis::derived::DerivedAnalysis;
use metta_bytecode::analysis::fixpoint::{AnalysisResult, ExprFact};
use metta_bytecode::analysis::race_detection::{detect_races, AbstractOp, AbstractTarget};

fn make_result(expr_hashes: Vec<u64>) -> AnalysisResult {
    let expr_facts: HashMap<u64, ExprFact> = expr_hashes
        .into_iter()
        .map(|h| (h, ExprFact::default()))
        .collect();
    AnalysisResult {
        reachable_states: Vec::new(),
        store: AbstractStore::new(),
        expr_facts,
        iterations: 1,
        converged: true,
        analysis_time_ms: 0,
    }
}

fn make_derived(pure: Vec<u64>) -> DerivedAnalysis {
    DerivedAnalysis {
        dead_rules: HashSet::new(),
        deterministic_dispatch: HashMap::new(),
        pure_expressions: pure.into_iter().collect(),
        type_specializations: HashMap::new(),
        ground_expressions: HashSet::new(),
        memo_candidates: HashSet::new(),
        parallel_candidates: HashSet::new(),
    }
}

#[test]
fn test_all_pure_no_races() {
    let result = make_result(vec![1, 2, 3]);
    let derived = make_derived(vec![1, 2, 3]);
    let races = detect_races(&result, &derived);

    assert_eq!(races.race_count(), 0);
    assert!(races.is_safe(1));
    assert!(races.is_safe(2));
}

#[test]
fn test_impure_races_detected() {
    let result = make_result(vec![1, 2, 3]);
    let derived = make_derived(vec![1]);

    let races = detect_races(&result, &derived);
    assert_eq!(races.race_count(), 1);
    assert!(races.is_safe(1));
    assert!(!races.is_safe(2));
    assert!(!races.is_safe(3));
}

#[test]
fn test_empty_program() {
    let result = make_result(vec![]);
    let derived = make_derived(vec![]);
    let races = detect_races(&result, &derived);
    assert_eq!(races.race_count(), 0);
}

#[test]
fn test_races_are_all_pairs() {
    let result = make_result(vec![5, 6, 7, 8]);
    let derived = make_derived(vec![8]);
    let races = detect_races(&result, &derived);
    let order: Vec<u64> = races.operations.iter().map(|o| o.0).collect();
    assert_eq!(order.len(), 3);
    let mut expected = Vec::new();
    for i in 0..order.len() {
        for j in i + 1..order.len() {
            expected.push((order[i], order[j]));
        }
    }
    let pairs: Vec<(u64, u64)> = races.potential_races.iter().map(|r| (r.op1_expr, r.op2_expr)).collect();
    assert_eq!(pairs, expected);
    let write = AbstractOp::Write { target: AbstractTarget::Unknown };
    assert!(races.operations.iter().all(|o| o.1 == write));
    assert!(races.must_serialize.contains(&6));
    assert!(!races.must_serialize.contains(&8));
    // Unknown expressions are not known to need serializing.
    assert!(races.is_safe(99));
}

#[test]
fn test_race_count_is_pairs_of_impure() {
    let result = make_result(vec![10, 11, 12, 13, 14]);
    let derived = make_derived(vec![14]);
    let races = detect_races(&result, &derived);
    // four impure expressions conflict pairwise: 4 * 3 / 2 races
    assert_eq!(races.race_count(), 6);
}
