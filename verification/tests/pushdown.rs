use metta_bytecode::analysis::pushdown::{
    contains_head_call, ConvergenceClass, KontKind, PushdownConfig, StackFrame,
};
use metta_bytecode::value::MettaValue;

#[test]
fn test_pushdown_config_default() {
    let config = PushdownConfig::default();
    assert_eq!(config.max_stack_depth, 2);
    assert_eq!(config.max_states, 50_000);
}

#[test]
fn test_convergence_class() {
    assert_eq!(ConvergenceClass::Terminating, ConvergenceClass::Terminating);
    assert_ne!(ConvergenceClass::Terminating, ConvergenceClass::Divergent);
}

#[test]
fn test_stack_frame() {
    let frame = StackFrame {
        call_site: 42,
        kont_kind: KontKind::RuleBody,
    };
    assert_eq!(frame.call_site, 42);
}

fn atom(s: &str) -> MettaValue {
    MettaValue::Atom(s.to_string())
}

#[test]
fn test_contains_head_call_nested() {
    // (if (< $n 1) 1 (* $n (fact (- $n 1))))
    let body = MettaValue::SExpr(vec![
        atom("if"),
        MettaValue::SExpr(vec![atom("<"), atom("$n"), MettaValue::Long(1)]),
        MettaValue::Long(1),
        MettaValue::SExpr(vec![
            atom("*"),
            atom("$n"),
            MettaValue::SExpr(vec![
                atom("fact"),
                MettaValue::SExpr(vec![atom("-"), atom("$n"), MettaValue::Long(1)]),
            ]),
        ]),
    ]);
    assert!(contains_head_call(&body, "fact"));
    assert!(contains_head_call(&body, "if"));
    assert!(contains_head_call(&body, "-"));
    assert!(!contains_head_call(&body, "fib"));
    // A bare atom is not a call, even with the target's name.
    assert!(!contains_head_call(&atom("fact"), "fact"));
    assert!(!contains_head_call(&MettaValue::SExpr(vec![]), "fact"));
}

use metta_bytecode::analysis::abstract_transition::{snapshot_environment, EnvironmentSnapshot, RuleEntry};
use metta_bytecode::analysis::pushdown::run_pushdown_analysis;
use metta_bytecode::cache::hash_metta_value;

#[test]
fn test_empty_analysis() {
    let env_snap = EnvironmentSnapshot::empty();
    let config = PushdownConfig::default();
    let result = run_pushdown_analysis(&[], &env_snap, &config);
    assert!(result.converged);
    assert!(result.recursive_exprs.is_empty());
}

#[test]
fn test_pushdown_classifies_recursion() {
    // (= (fact 0) 1) and (= (fact $n) (* $n (fact (- $n 1))))
    let entries = vec![
        RuleEntry {
            lhs: MettaValue::SExpr(vec![atom("fact"), MettaValue::Long(0)]),
            rhs: MettaValue::Long(1),
            rhs_has_variables: false,
            rhs_is_pure: true,
        },
        RuleEntry {
            lhs: MettaValue::SExpr(vec![atom("fact"), atom("$n")]),
            rhs: MettaValue::SExpr(vec![
                atom("*"),
                atom("$n"),
                MettaValue::SExpr(vec![atom("fact"), atom("$n")]),
            ]),
            rhs_has_variables: true,
            rhs_is_pure: true,
        },
        RuleEntry {
            lhs: MettaValue::SExpr(vec![atom("loop"), atom("$n")]),
            rhs: MettaValue::SExpr(vec![atom("loop"), atom("$n")]),
            rhs_has_variables: true,
            rhs_is_pure: true,
        },
    ];
    let snap = snapshot_environment(&entries);
    let fact5 = MettaValue::SExpr(vec![atom("fact"), MettaValue::Long(5)]);
    let loop1 = MettaValue::SExpr(vec![atom("loop"), MettaValue::Long(1)]);
    let plain = MettaValue::Long(3);
    let result = run_pushdown_analysis(
        &[fact5.clone(), loop1.clone(), plain.clone()],
        &snap,
        &PushdownConfig::default(),
    );
    let (hf, hl, hp) = (hash_metta_value(&fact5), hash_metta_value(&loop1), hash_metta_value(&plain));
    assert!(result.recursive_exprs.contains(&hf));
    assert!(result.recursive_exprs.contains(&hl));
    assert!(!result.recursive_exprs.contains(&hp));
    assert_eq!(result.convergence[&hf], ConvergenceClass::Convergent);
    assert_eq!(result.convergence[&hl], ConvergenceClass::Divergent);
    assert_eq!(result.convergence[&hp], ConvergenceClass::Terminating);
    assert_eq!(result.states.len(), 3);
    assert!(result.states.iter().all(|s| s.stack.is_empty()));
    assert_eq!(result.iterations, 1);
}
