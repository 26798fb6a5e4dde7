use metta_bytecode::analysis::abstract_domain::{
    AbstractAddr, AbstractStore, AbstractType, AbstractValue, AbstractValueSet, AnalysisConfig,
};
use metta_bytecode::analysis::abstract_transition::{snapshot_environment, EnvironmentSnapshot, RuleEntry};
use metta_bytecode::analysis::derived::derive_analysis;
use metta_bytecode::analysis::fixpoint::run_analysis;
use metta_bytecode::cache::hash_metta_value;
use metta_bytecode::value::MettaValue;

fn atom(s: &str) -> MettaValue {
    MettaValue::Atom(s.to_string())
}

fn rule(lhs: MettaValue, rhs: MettaValue, pure: bool) -> RuleEntry {
    RuleEntry { lhs, rhs, rhs_has_variables: true, rhs_is_pure: pure }
}

#[test]
fn join_reports_a_widening_as_a_change() {
    let mut small = AbstractValueSet::with_max_size(3);
    small.insert(AbstractValue::Long(1));
    let mut other = AbstractValueSet::new();
    other.insert(AbstractValue::Long(2));
    other.insert(AbstractValue::Long(3));
    other.insert(AbstractValue::Long(4));
    assert!(small.join(&other));
    assert_eq!(small.len(), 1);
    assert_eq!(small.as_singleton(), Some(&AbstractValue::AnyOfType(AbstractType::Long)));
    // Joining what is already covered changes nothing.
    let mut same = AbstractValueSet::new();
    same.insert(AbstractValue::Long(1));
    let copy = AbstractValueSet::singleton(AbstractValue::Long(1));
    assert!(!same.join(&copy));
    assert_eq!(same.len(), 1);
}

#[test]
fn allocating_reports_whether_the_store_changed() {
    let mut store = AbstractStore::new();
    assert!(store.allocate(AbstractAddr::mono(7), AbstractValue::Long(1)));
    assert!(!store.allocate(AbstractAddr::mono(7), AbstractValue::Long(1)));
    assert!(store.allocate(AbstractAddr::mono(7), AbstractValue::Long(2)));
    assert_eq!(store.len(), 1);
}

#[test]
fn an_empty_program_converges_at_once_with_no_facts() {
    let env = EnvironmentSnapshot::empty();
    let mut config = AnalysisConfig::default();
    config.max_states = 0;
    config.max_iterations = 0;
    let result = run_analysis(&[], &env, &config);
    assert!(result.converged);
    assert_eq!(result.iterations, 0);
    assert!(result.reachable_states.is_empty());
    assert!(result.expr_facts.is_empty());
}

#[test]
fn the_fact_of_a_call_records_its_candidate_rules() {
    let env = snapshot_environment(&[
        rule(
            MettaValue::SExpr(vec![atom("double"), atom("$x")]),
            MettaValue::SExpr(vec![atom("+"), atom("$x"), atom("$x")]),
            true,
        ),
        rule(
            MettaValue::SExpr(vec![atom("double"), atom("$y")]),
            MettaValue::SExpr(vec![atom("<"), atom("$y"), atom("$y")]),
            false,
        ),
    ]);
    let config = AnalysisConfig::default();
    let exprs = vec![MettaValue::SExpr(vec![atom("double"), MettaValue::Long(5)])];
    let result = run_analysis(&exprs, &env, &config);
    let fact = result.get_fact(hash_metta_value(&exprs[0])).expect("the call has a fact");
    assert_eq!(fact.reachable_rules.as_slice(), &[0, 1]);
    assert_eq!(fact.is_deterministic, Some(false));
    assert_eq!(fact.is_pure, Some(false));
    assert_eq!(fact.result_types.len(), 2);
    assert!(fact.result_types.contains(&AbstractType::Long));
    assert!(fact.result_types.contains(&AbstractType::Bool));
}

#[test]
fn derived_dispatch_table_stays_empty() {
    let env = snapshot_environment(&[rule(
        MettaValue::SExpr(vec![atom("inc"), atom("$x")]),
        MettaValue::SExpr(vec![atom("+"), atom("$x"), MettaValue::Long(1)]),
        true,
    )]);
    let exprs = vec![MettaValue::SExpr(vec![atom("inc"), MettaValue::Long(1)])];
    let result = run_analysis(&exprs, &env, &AnalysisConfig::default());
    let derived = derive_analysis(&result);
    assert!(derived.deterministic_dispatch.is_empty());
    let hash = hash_metta_value(&exprs[0]);
    assert!(derived.memo_candidates.contains(&hash));
}
