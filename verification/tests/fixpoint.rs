use std::collections::HashMap;

use metta_bytecode::analysis::abstract_domain::{AbstractAddr, AbstractStore, AnalysisConfig};
use metta_bytecode::analysis::abstract_transition::{
    abstract_step, snapshot_environment, AbstractControl, AbstractKont, AbstractState, EnvironmentSnapshot, RuleEntry,
};
use metta_bytecode::analysis::fixpoint::{run_analysis, AnalysisResult, ExprFact, FactRules};
use metta_bytecode::cache::hash_metta_value;
use metta_bytecode::value::MettaValue;

fn atom(s: &str) -> MettaValue {
    MettaValue::Atom(s.to_string())
}

#[test]
fn test_analysis_empty_program() {
    let env = EnvironmentSnapshot::empty();
    let config = AnalysisConfig::default();
    let result = run_analysis(&[], &env, &config);

    assert!(result.converged);
    assert_eq!(result.iterations, 0);
    assert!(result.expr_facts.is_empty());
}

#[test]
fn test_analysis_ground_value() {
    let env = EnvironmentSnapshot::empty();
    let config = AnalysisConfig::default();
    let exprs = vec![MettaValue::Long(42)];
    let result = run_analysis(&exprs, &env, &config);

    assert!(result.converged);
    let hash = hash_metta_value(&exprs[0]);
    let addr = AbstractAddr::mono(hash);
    let val_set = result.store.lookup(&addr).expect("should be in store");
    assert!(val_set.is_singleton());
}

#[test]
fn test_analysis_converges() {
    let env = EnvironmentSnapshot::empty();
    let config = AnalysisConfig {
        max_iterations: 100,
        ..Default::default()
    };
    let exprs = vec![MettaValue::SExpr(vec![atom("+"), MettaValue::Long(1), MettaValue::Long(2)])];
    let result = run_analysis(&exprs, &env, &config);
    assert!(result.converged);
}

#[test]
fn test_analysis_with_rules() {
    // (= (double $x) (+ $x $x))
    let lhs = MettaValue::SExpr(vec![atom("double"), atom("$x")]);
    let rhs = MettaValue::SExpr(vec![atom("+"), atom("$x"), atom("$x")]);
    let env = snapshot_environment(&[RuleEntry {
        lhs,
        rhs,
        rhs_has_variables: true,
        rhs_is_pure: true,
    }]);

    let config = AnalysisConfig::default();
    let exprs = vec![MettaValue::SExpr(vec![atom("double"), MettaValue::Long(5)])];
    let result = run_analysis(&exprs, &env, &config);

    let hash = hash_metta_value(&exprs[0]);
    if let Some(fact) = result.get_fact(hash) {
        assert!(!fact.reachable_rules.is_empty(), "Should find reachable rules");
        assert_eq!(fact.is_deterministic, Some(true), "Single rule = deterministic");
    }
    let fact = result.get_fact(hash).expect("the call has a fact");
    assert_eq!(fact.is_pure, Some(true));
    assert_eq!(fact.reachable_rules.as_slice(), &[0]);
    assert!(result.converged);
    assert_eq!(result.reachable_states.len(), 2);
    assert_eq!(result.iterations, 2);
}

#[test]
fn test_analysis_result_helpers() {
    let result = AnalysisResult {
        reachable_states: Vec::new(),
        store: AbstractStore::new(),
        expr_facts: {
            let mut m = HashMap::new();
            let mut fact = ExprFact::default();
            fact.reachable_rules = FactRules::from_slice(&[0, 1]);
            m.insert(42, fact);
            m
        },
        iterations: 5,
        converged: true,
        analysis_time_ms: 10,
    };

    assert!(result.is_rule_reachable(0));
    assert!(result.is_rule_reachable(1));
    assert!(!result.is_rule_reachable(2));
    assert_eq!(result.analyzed_expressions(), vec![42]);
}

#[test]
fn test_analysis_iteration_bound() {
    let lhs = MettaValue::SExpr(vec![atom("f"), atom("$x")]);
    let rhs = MettaValue::SExpr(vec![atom("g"), atom("$x")]);
    let env = snapshot_environment(&[RuleEntry {
        lhs,
        rhs,
        rhs_has_variables: true,
        rhs_is_pure: false,
    }]);
    let config = AnalysisConfig {
        max_iterations: 1,
        ..Default::default()
    };
    let exprs = vec![MettaValue::SExpr(vec![atom("f"), MettaValue::Long(1)])];
    let result = run_analysis(&exprs, &env, &config);
    assert_eq!(result.iterations, 1);
    // The second queued state was taken off the queue when the bound
    // stopped the loop, so the queue reads empty.
    assert!(result.converged);
    assert_eq!(result.reachable_states.len(), 2);
    let fact = result.get_fact(hash_metta_value(&exprs[0])).expect("fact");
    assert_eq!(fact.is_pure, Some(false));
}

#[test]
fn analysis_finds_exactly_the_states_reachable_from_its_seeds() {
    // (= (double $x) (+ $x $x)) and (= (quad $x) (double (double $x)))
    let double_rhs = MettaValue::SExpr(vec![atom("+"), atom("$x"), atom("$x")]);
    let quad_rhs = MettaValue::SExpr(vec![
        atom("double"),
        MettaValue::SExpr(vec![atom("double"), atom("$x")]),
    ]);
    let env = snapshot_environment(&[
        RuleEntry {
            lhs: MettaValue::SExpr(vec![atom("double"), atom("$x")]),
            rhs: double_rhs.clone(),
            rhs_has_variables: true,
            rhs_is_pure: true,
        },
        RuleEntry {
            lhs: MettaValue::SExpr(vec![atom("quad"), atom("$x")]),
            rhs: quad_rhs.clone(),
            rhs_has_variables: true,
            rhs_is_pure: true,
        },
    ]);
    let config = AnalysisConfig::default();
    let exprs = vec![
        MettaValue::SExpr(vec![atom("quad"), MettaValue::Long(3)]),
        MettaValue::SExpr(vec![atom("if"), MettaValue::Bool(true), MettaValue::Long(1), MettaValue::Long(2)]),
    ];
    let result = run_analysis(&exprs, &env, &config);
    assert!(result.converged);
    let states: &Vec<AbstractState> = &result.reachable_states;
    let mut scratch = AbstractStore::new();
    let mut successors_of: Vec<Vec<AbstractState>> = Vec::new();
    for st in states.iter() {
        let (list, _) = abstract_step(st, &mut scratch, &env, &config);
        successors_of.push(list.into_vec());
    }
    let seeds: Vec<(u64, u16)> = vec![
        (hash_metta_value(&exprs[0]), 0),
        (hash_metta_value(&exprs[1]), 0),
        (hash_metta_value(&quad_rhs), 1),
    ];
    for (k, st) in states.iter().enumerate() {
        let is_seed = matches!(st.kont, AbstractKont::Done)
            && match &st.control {
                AbstractControl::Eval { expr_hash, depth, env } => {
                    env.is_empty() && seeds.contains(&(*expr_hash, *depth))
                },
                _ => false,
            };
        let from_earlier = (0..k).any(|i| successors_of[i].iter().any(|t| t.same_state(st)));
        assert!(is_seed || from_earlier, "state {} is neither a seed nor a successor", k);
    }
    for succ in successors_of.iter().flatten() {
        assert!(states.iter().any(|st| st.same_state(succ)));
    }
    for (h, d) in seeds {
        assert!(states.iter().any(|st| matches!(&st.control,
            AbstractControl::Eval { expr_hash, depth, .. } if *expr_hash == h && *depth == d)));
    }
}
