use std::collections::HashSet;

use metta_bytecode::analysis::module_dce::{ModuleReachability, RuleSetMap};

#[test]
fn test_all_live() {
    let mut module_rules = RuleSetMap::new();
    module_rules.insert("mod_a".to_string(), vec![0, 1, 2].into_iter().collect());
    let dead_rules = HashSet::new();

    let result = ModuleReachability::compute(module_rules, &dead_rules);
    assert!(result.dead_modules.is_empty());
    assert!(result.live_modules.contains("mod_a"));
    assert_eq!(result.total_eliminable_rules(), 0);
}

#[test]
fn test_all_dead() {
    let mut module_rules = RuleSetMap::new();
    module_rules.insert("mod_a".to_string(), vec![0, 1, 2].into_iter().collect());
    let dead_rules: HashSet<u32> = vec![0, 1, 2].into_iter().collect();

    let result = ModuleReachability::compute(module_rules, &dead_rules);
    assert!(result.dead_modules.contains("mod_a"));
    assert!(result.live_modules.is_empty());
    assert!(result.is_dead_module("mod_a"));
    assert_eq!(result.total_eliminable_rules(), 3);
}

#[test]
fn test_partially_dead() {
    let mut module_rules = RuleSetMap::new();
    module_rules.insert("mod_a".to_string(), vec![0, 1, 2].into_iter().collect());
    let dead_rules: HashSet<u32> = vec![1].into_iter().collect();

    let result = ModuleReachability::compute(module_rules, &dead_rules);
    assert!(result.dead_modules.is_empty());
    assert!(result.partially_dead_modules.contains_key("mod_a"));
    assert_eq!(result.total_eliminable_rules(), 1);
}

#[test]
fn test_mixed_modules() {
    let mut module_rules = RuleSetMap::new();
    module_rules.insert("live_mod".to_string(), vec![0, 1].into_iter().collect());
    module_rules.insert("dead_mod".to_string(), vec![2, 3].into_iter().collect());
    module_rules.insert("mixed_mod".to_string(), vec![4, 5, 6].into_iter().collect());
    let dead_rules: HashSet<u32> = vec![2, 3, 5].into_iter().collect();

    let result = ModuleReachability::compute(module_rules, &dead_rules);
    assert!(result.live_modules.contains("live_mod"));
    assert!(result.dead_modules.contains("dead_mod"));
    assert!(result.partially_dead_modules.contains_key("mixed_mod"));
}

#[test]
fn test_mixed_modules_counts_and_dead_parts() {
    let mut module_rules = RuleSetMap::new();
    module_rules.insert("live_mod".to_string(), vec![0, 1]);
    module_rules.insert("dead_mod".to_string(), vec![2, 3, 3]);
    module_rules.insert("mixed_mod".to_string(), vec![4, 5, 6]);
    module_rules.insert("empty_mod".to_string(), vec![]);
    let dead_rules: HashSet<u32> = vec![2, 3, 5, 9].into_iter().collect();

    let result = ModuleReachability::compute(module_rules, &dead_rules);
    assert_eq!(result.total_eliminable_rules(), 3);
    assert_eq!(result.partially_dead_modules.get("mixed_mod"), Some(&vec![5]));
    // A module without rules is live, not dead.
    assert!(result.live_modules.contains("empty_mod"));
    assert!(!result.is_dead_module("empty_mod"));
    assert_eq!(result.live_modules.len(), 2);
    assert_eq!(result.module_rules.len(), 4);
}

#[test]
fn test_rule_set_map_insert_replaces() {
    let mut m = RuleSetMap::new();
    assert!(m.is_empty());
    assert_eq!(m.insert("a".to_string(), vec![1, 1, 2]), None);
    assert_eq!(m.get("a"), Some(&vec![1, 2]));
    assert_eq!(m.insert("a".to_string(), vec![3]), Some(vec![1, 2]));
    assert_eq!(m.get("a"), Some(&vec![3]));
    assert_eq!(m.len(), 1);
    assert!(!m.contains_key("b"));
}

#[test]
fn test_every_module_in_exactly_one_class() {
    let mut module_rules = RuleSetMap::new();
    module_rules.insert("a".to_string(), vec![0, 1]);
    module_rules.insert("b".to_string(), vec![2]);
    module_rules.insert("c".to_string(), vec![3, 4]);
    module_rules.insert("d".to_string(), vec![]);
    let dead_rules: HashSet<u32> = vec![1, 2].into_iter().collect();
    let result = ModuleReachability::compute(module_rules, &dead_rules);
    for name in ["a", "b", "c", "d"] {
        let classes = [
            result.dead_modules.contains(name),
            result.partially_dead_modules.contains_key(name),
            result.live_modules.contains(name),
        ];
        assert_eq!(classes.iter().filter(|c| **c).count(), 1, "module {}", name);
    }
    assert!(result.is_dead_module("b"));
    assert_eq!(result.total_eliminable_rules(), 2);
}
