use metta_bytecode::analysis::abstract_domain::{AbstractEnv, AbstractStore, AbstractType, AnalysisConfig};
use metta_bytecode::analysis::abstract_transition::{
    abstract_step, snapshot_environment, AbstractControl, AbstractKont, AbstractState,
    EnvironmentSnapshot, RuleEntry,
};
use metta_bytecode::value::MettaValue;

#[test]
fn test_abstract_state_eval_done() {
    let state = AbstractState {
        control: AbstractControl::Eval {
            expr_hash: 42,
            env: AbstractEnv::new(),
            depth: 0,
        },
        kont: AbstractKont::Done,
    };
    let mut store = AbstractStore::new();
    let env_snap = EnvironmentSnapshot::empty();
    let config = AnalysisConfig::default();

    let (successors, _) = abstract_step(&state, &mut store, &env_snap, &config);
    assert!(successors.is_empty());
}

#[test]
fn test_abstract_state_if_branch() {
    let state = AbstractState {
        control: AbstractControl::Eval {
            expr_hash: 100,
            env: AbstractEnv::new(),
            depth: 0,
        },
        kont: AbstractKont::IfBranch {
            then_hash: 200,
            else_hash: 300,
            env: AbstractEnv::new(),
        },
    };
    let mut store = AbstractStore::new();
    let env_snap = EnvironmentSnapshot::empty();
    let config = AnalysisConfig::default();

    let (successors, _) = abstract_step(&state, &mut store, &env_snap, &config);
    assert_eq!(successors.len(), 2);
}

#[test]
fn test_environment_snapshot_empty() {
    let snap = EnvironmentSnapshot::empty();
    assert_eq!(snap.total_rules, 0);
    assert!(snap.get_candidates("f", 2).is_empty());
}

#[test]
fn test_abstract_state_hash_eq() {
    let s1 = AbstractState {
        control: AbstractControl::Eval {
            expr_hash: 42,
            env: AbstractEnv::new(),
            depth: 0,
        },
        kont: AbstractKont::Done,
    };
    let s2 = s1.clone();
    assert_eq!(s1, s2);
}

fn atom(s: &str) -> MettaValue {
    MettaValue::Atom(s.to_string())
}

fn sexpr(items: Vec<MettaValue>) -> MettaValue {
    MettaValue::SExpr(items)
}

#[test]
fn test_snapshot_groups_and_types() {
    let entries = vec![
        RuleEntry {
            lhs: sexpr(vec![atom("double"), atom("$x")]),
            rhs: sexpr(vec![atom("+"), atom("$x"), atom("$x")]),
            rhs_has_variables: true,
            rhs_is_pure: true,
        },
        RuleEntry {
            lhs: MettaValue::Long(3),
            rhs: MettaValue::Long(4),
            rhs_has_variables: false,
            rhs_is_pure: true,
        },
        RuleEntry {
            lhs: sexpr(vec![atom("double"), MettaValue::Long(0)]),
            rhs: sexpr(vec![atom("<"), MettaValue::Long(1), MettaValue::Long(2)]),
            rhs_has_variables: false,
            rhs_is_pure: false,
        },
        RuleEntry {
            lhs: atom("pi"),
            rhs: MettaValue::Long(3),
            rhs_has_variables: false,
            rhs_is_pure: true,
        },
    ];
    let snap = snapshot_environment(&entries);
    assert_eq!(snap.total_rules, 3);
    let double = snap.get_candidates("double", 2);
    assert_eq!(double.len(), 2);
    assert_eq!(double[0].rule_index, 0);
    assert_eq!(double[0].rhs_type, Some(AbstractType::Long));
    assert_eq!(double[1].rule_index, 1);
    assert_eq!(double[1].rhs_type, Some(AbstractType::Bool));
    assert!(!double[1].is_pure);
    let pi = snap.get_candidates("pi", 0);
    assert_eq!(pi.len(), 1);
    assert_eq!(pi[0].rule_index, 2);
    assert_eq!(pi[0].rhs_type, None);
    assert!(snap.get_candidates("double", 1).is_empty());
}

#[test]
fn test_step_apply_then_rule_match() {
    let entries = vec![RuleEntry {
        lhs: sexpr(vec![atom("f"), atom("$x")]),
        rhs: sexpr(vec![atom("+"), atom("$x"), MettaValue::Long(1)]),
        rhs_has_variables: true,
        rhs_is_pure: true,
    }];
    let snap = snapshot_environment(&entries);
    let config = AnalysisConfig::default();
    let mut store = AbstractStore::new();
    let apply = AbstractState {
        control: AbstractControl::Apply {
            head: "f".to_string(),
            arity: 2,
            env: AbstractEnv::new(),
        },
        kont: AbstractKont::Done,
    };
    let (succ, changed) = abstract_step(&apply, &mut store, &snap, &config);
    assert!(!changed);
    let succ = succ.into_vec();
    assert_eq!(succ.len(), 1);
    match &succ[0].kont {
        AbstractKont::RuleMatch { candidate_rule_indices, .. } => {
            assert_eq!(candidate_rule_indices.as_slice(), &[0]);
        }
        other => panic!("expected a rule match, got {:?}", other),
    }
    let (succ2, changed2) = abstract_step(&succ[0], &mut store, &snap, &config);
    assert!(changed2);
    let succ2 = succ2.into_vec();
    assert_eq!(succ2.len(), 1);
    let rhs_hash = snap.get_candidates("f", 2)[0].rhs_hash;
    assert_eq!(
        succ2[0].control,
        AbstractControl::Eval { expr_hash: rhs_hash, env: AbstractEnv::new(), depth: 1 }
    );
    assert_eq!(store.len(), 1);
}
