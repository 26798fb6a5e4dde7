//! High-level facts derived from the analysis, and the dispatch hints that
//! the evaluator reads from them.

use std::collections::{HashMap, HashSet};

use vstd::prelude::*;
use vstd::std_specs::iter::IteratorSpec;

use crate::analysis::abstract_domain::AbstractType;
use crate::analysis::fixpoint::{fact_keys, fact_rules, AnalysisResult, ExprFact};

verus! {

broadcast use vstd::std_specs::hash::group_hash_axioms;

/// High-level analysis results derived from the fixed point.
#[derive(Debug)]
pub struct DerivedAnalysis {
    /// Rules that are never reachable from any top-level expression.
    pub dead_rules: HashSet<u32>,
    /// The single rule that each (head, arity) always dispatches to.
    pub deterministic_dispatch: HashMap<(String, usize), u32>,
    /// Expression hashes that are provably pure.
    pub pure_expressions: HashSet<u64>,
    /// Expression hashes with a known single result type.
    pub type_specializations: HashMap<u64, AbstractType>,
    /// Expression hashes that always produce ground values.
    pub ground_expressions: HashSet<u64>,
    /// Memoization candidates: pure and deterministic.
    pub memo_candidates: HashSet<u64>,
    /// Parallelization candidates: pure expressions.
    pub parallel_candidates: HashSet<u64>,
}

/// Dispatch hint for one expression.
#[derive(Debug, Clone, Copy, PartialEq, Eq, Structural)]
pub struct DispatchHint {
    /// The one rule that the expression always resolves to, if known.
    pub deterministic_rule: Option<u32>,
    /// Whether the expression is provably pure.
    pub is_pure: bool,
    /// The type that the result always has, if known.
    pub result_type: Option<AbstractType>,
    /// Whether the result is always ground.
    pub is_ground: bool,
}

impl Default for DispatchHint {
    fn default() -> (r: Self)
        ensures
            r == (DispatchHint { deterministic_rule: None, is_pure: false, result_type: None, is_ground: false }),
    {
        DispatchHint { deterministic_rule: None, is_pure: false, result_type: None, is_ground: false }
    }
}

/// The hint for an expression hash, from the pure, typed and ground sets.
pub open spec fn hint_for(
    pure: Set<u64>,
    types: Map<u64, AbstractType>,
    ground: Set<u64>,
    h: u64,
) -> DispatchHint {
    DispatchHint {
        deterministic_rule: None,
        is_pure: pure.contains(h),
        result_type: if types.contains_key(h) {
            Some(types[h])
        } else {
            None
        },
        is_ground: ground.contains(h),
    }
}

/// The hint stored for `h`, or the default hint where none is.
pub open spec fn hint_or_default(m: Map<u64, DispatchHint>, h: u64) -> DispatchHint {
    if m.contains_key(h) {
        m[h]
    } else {
        DispatchHint { deterministic_rule: None, is_pure: false, result_type: None, is_ground: false }
    }
}

/// The hint stored for `h`, or the default hint.
fn current_hint(hints: &HashMap<u64, DispatchHint>, h: u64) -> (r: DispatchHint)
    ensures
        r == hint_or_default(hints@, h),
{
    match hints.get(&h) {
        Some(x) => *x,
        None => DispatchHint::default(),
    }
}

/// The members of a set of expression hashes, in the set's iteration order.
pub(crate) fn set_members(s: &HashSet<u64>) -> (r: Vec<u64>)
    ensures
        forall|k: u64| #[trigger] s@.contains(k) <==> r@.contains(k),
{
    let mut out: Vec<u64> = Vec::new();
    let iter = s.iter();
    proof {
        let rem = IteratorSpec::remaining(&iter);
        assert forall|k: u64| #[trigger] s@.contains(k) <==> exists|j: int| 0 <= j < rem.len() && *rem[j] == k by {
            if s@.contains(k) {
                assert(rem.unref().to_set().contains(k));
                let j = choose|j: int| 0 <= j < rem.unref().len() && rem.unref()[j] == k;
                assert(*rem[j] == k);
            }
            if exists|j: int| 0 <= j < rem.len() && *rem[j] == k {
                let j = choose|j: int| 0 <= j < rem.len() && *rem[j] == k;
                assert(rem.unref()[j] == k);
                assert(rem.unref().contains(k));
            }
        }
    }
    for h in it: iter
        invariant
            forall|k: u64| #[trigger] s@.contains(k) <==> exists|j: int| 0 <= j < it.seq().len() && *it.seq()[j] == k,
            out@.len() == it.index(),
            forall|j: int| 0 <= j < it.index() ==> out@[j] == *it.seq()[j],
        ensures
            forall|k: u64| #[trigger] s@.contains(k) <==> out@.contains(k),
    {
        proof {
            assert(*it.seq()[it.index()] == *h);
        }
        out.push(*h);
    }
    out
}

/// The entries of a map from expression hashes to types, in the map's
/// iteration order.
fn map_entries(m: &HashMap<u64, AbstractType>) -> (r: Vec<(u64, AbstractType)>)
    ensures
        forall|k: u64| #[trigger] m@.contains_key(k) <==> exists|j: int| 0 <= j < r@.len() && r@[j].0 == k,
        forall|j: int| 0 <= j < r@.len() ==> m@.contains_key(#[trigger] r@[j].0) && m@[r@[j].0] == r@[j].1,
{
    let mut out: Vec<(u64, AbstractType)> = Vec::new();
    let iter = m.iter();
    proof {
        let rem = IteratorSpec::remaining(&iter);
        assert forall|k: u64| #[trigger] m@.contains_key(k) <==> exists|j: int| 0 <= j < rem.len() && *rem[j].0 == k by {
            if m@.contains_key(k) {
                assert(rem.contains((&k, &m@[k])));
                let j = choose|j: int| 0 <= j < rem.len() && rem[j] == (&k, &m@[k]);
                assert(*rem[j].0 == k);
            }
        }
    }
    for e in it: iter
        invariant
            forall|k: u64| #[trigger] m@.contains_key(k) <==> exists|j: int| 0 <= j < it.seq().len() && *it.seq()[j].0 == k,
            forall|j: int| 0 <= j < it.seq().len() ==> m@.contains_key(*(#[trigger] it.seq()[j]).0) && m@[*it.seq()[j].0] == *it.seq()[j].1,
            out@.len() == it.index(),
            forall|j: int|
                #![trigger out@[j]]
                #![trigger it.seq()[j]]
                0 <= j < it.index() ==> out@[j] == (*it.seq()[j].0, *it.seq()[j].1),
        ensures
            forall|k: u64| #[trigger] m@.contains_key(k) <==> exists|j: int| 0 <= j < out@.len() && out@[j].0 == k,
            forall|j: int| 0 <= j < out@.len() ==> m@.contains_key(#[trigger] out@[j].0) && m@[out@[j].0] == out@[j].1,
    {
        let (k, t) = e;
        proof {
            assert(it.seq()[it.index()] == e);
        }
        out.push((*k, *t));
    }
    out
}

/// Build the dispatch hints of the expressions that the analysis found pure,
/// typed or ground: one hint per such expression, saying which of the three
/// it is.
pub fn build_dispatch_hints(analysis: &DerivedAnalysis) -> (r: HashMap<u64, DispatchHint>)
    ensures
        r@.dom() == analysis.pure_expressions@.union(analysis.type_specializations@.dom()).union(
            analysis.ground_expressions@,
        ),
        forall|h: u64| #[trigger] r@.contains_key(h) ==> r@[h] == hint_for(
            analysis.pure_expressions@,
            analysis.type_specializations@,
            analysis.ground_expressions@,
            h,
        ),
{
    let ghost pure = analysis.pure_expressions@;
    let ghost types = analysis.type_specializations@;
    let ghost ground = analysis.ground_expressions@;
    let pure_list = set_members(&analysis.pure_expressions);
    let typed = map_entries(&analysis.type_specializations);
    let ground_list = set_members(&analysis.ground_expressions);
    let mut hints: HashMap<u64, DispatchHint> = HashMap::new();
    let mut i: usize = 0;
    while i < pure_list.len()
        invariant
            i <= pure_list@.len(),
            forall|k: u64| #[trigger] hints@.contains_key(k) <==> pure_list@.take(i as int).contains(k),
            forall|k: u64| #[trigger] hints@.contains_key(k) ==> hints@[k] == hint_for(
                pure,
                Map::<u64, AbstractType>::empty(),
                Set::<u64>::empty(),
                k,
            ),
            forall|k: u64| #[trigger] pure.contains(k) <==> pure_list@.contains(k),
        decreases pure_list.len() - i,
    {
        let h = pure_list[i];
        let mut hint = current_hint(&hints, h);
        hint.is_pure = true;
        hints.insert(h, hint);
        proof {
            assert(pure_list@.take(i + 1) =~= pure_list@.take(i as int).push(h));
            assert(pure.contains(h));
            assert forall|k: u64| #[trigger] hints@.contains_key(k) <==> pure_list@.take(i + 1).contains(k) by {
                if k == h {
                    assert(pure_list@.take(i + 1)[i as int] == h);
                } else if pure_list@.take(i + 1).contains(k) {
                    let j = choose|j: int| 0 <= j < i + 1 && #[trigger] pure_list@.take(i + 1)[j] == k;
                    assert(pure_list@.take(i as int)[j] == k);
                }
            }
        }
        i = i + 1;
    }
    proof {
        assert(pure_list@.take(i as int) =~= pure_list@);
    }
    let mut j: usize = 0;
    while j < typed.len()
        invariant
            j <= typed@.len(),
            forall|k: u64| #[trigger] hints@.contains_key(k) <==> pure.contains(k)
                || exists|x: int| 0 <= x < j && typed@[x].0 == k,
            forall|k: u64| #[trigger] hints@.contains_key(k) ==> hints@[k] == hint_for(
                pure,
                types.restrict(Set::new(|q: u64| exists|x: int| 0 <= x < j && typed@[x].0 == q)),
                Set::<u64>::empty(),
                k,
            ),
            forall|k: u64| #[trigger] types.contains_key(k) <==> exists|x: int| 0 <= x < typed@.len() && typed@[x].0 == k,
            forall|x: int| 0 <= x < typed@.len() ==> types.contains_key(#[trigger] typed@[x].0) && types[typed@[x].0] == typed@[x].1,
        decreases typed.len() - j,
    {
        let (h, t) = typed[j];
        let mut hint = current_hint(&hints, h);
        hint.result_type = Some(t);
        let ghost before = hints@;
        hints.insert(h, hint);
        proof {
            assert(types.contains_key(typed@[j as int].0));
            assert forall|k: u64| #[trigger] hints@.contains_key(k) implies hints@[k] == hint_for(
                pure,
                types.restrict(Set::new(|q: u64| exists|x: int| 0 <= x < j + 1 && typed@[x].0 == q)),
                Set::<u64>::empty(),
                k,
            ) by {
                if k == h {
                    assert(typed@[j as int].0 == k);
                } else {
                    assert(before.contains_key(k));
                    if exists|x: int| 0 <= x < j + 1 && typed@[x].0 == k {
                        let x = choose|x: int| 0 <= x < j + 1 && typed@[x].0 == k;
                        assert(x != j);
                    }
                }
            }
            assert forall|k: u64| #[trigger] hints@.contains_key(k) <==> pure.contains(k)
                || exists|x: int| 0 <= x < j + 1 && typed@[x].0 == k by {
                if k == h {
                    assert(typed@[j as int].0 == k);
                } else if exists|x: int| 0 <= x < j + 1 && typed@[x].0 == k {
                    let x = choose|x: int| 0 <= x < j + 1 && typed@[x].0 == k;
                    assert(x != j);
                }
            }
        }
        j = j + 1;
    }
    proof {
        assert(types.restrict(Set::new(|q: u64| exists|x: int| 0 <= x < j && typed@[x].0 == q)) =~= types);
    }
    let mut l: usize = 0;
    while l < ground_list.len()
        invariant
            l <= ground_list@.len(),
            forall|k: u64| #[trigger] hints@.contains_key(k) <==> pure.contains(k) || types.contains_key(k)
                || ground_list@.take(l as int).contains(k),
            forall|k: u64| #[trigger] hints@.contains_key(k) ==> hints@[k] == hint_for(
                pure,
                types,
                ground_list@.take(l as int).to_set(),
                k,
            ),
            forall|k: u64| #[trigger] ground.contains(k) <==> ground_list@.contains(k),
        decreases ground_list.len() - l,
    {
        let h = ground_list[l];
        let mut hint = current_hint(&hints, h);
        hint.is_ground = true;
        let ghost before = hints@;
        hints.insert(h, hint);
        proof {
            let p = ground_list@.take(l as int);
            assert(ground_list@.take(l + 1) =~= p.push(h));
            p.lemma_push_to_set_commute(h);
            assert forall|k: u64| #[trigger] hints@.contains_key(k) <==> pure.contains(k) || types.contains_key(k)
                || ground_list@.take(l + 1).contains(k) by {
                if k == h {
                    assert(ground_list@.take(l + 1)[l as int] == h);
                } else if ground_list@.take(l + 1).contains(k) {
                    let x = choose|x: int| 0 <= x < l + 1 && #[trigger] ground_list@.take(l + 1)[x] == k;
                    assert(p[x] == k);
                }
            }
            assert forall|k: u64| #[trigger] hints@.contains_key(k) implies hints@[k] == hint_for(
                pure,
                types,
                ground_list@.take(l + 1).to_set(),
                k,
            ) by {
                if k != h {
                    assert(before.contains_key(k));
                    assert(p.to_set().contains(k) == p.push(h).to_set().contains(k));
                }
            }
        }
        l = l + 1;
    }
    proof {
        assert(ground_list@.take(l as int) =~= ground_list@);
        assert(ground_list@.to_set() =~= ground);
        assert(hints@.dom() =~= pure.union(types.dom()).union(ground));
    }
    hints
}

/// The expressions whose facts say `flag` holds.
pub open spec fn facts_where(m: Map<u64, ExprFact>, flag: spec_fn(ExprFact) -> bool) -> Set<u64> {
    Set::new(|h: u64| m.contains_key(h) && flag(m[h]))
}

/// Whether some fact lists the rule as reachable.
pub open spec fn rule_live(m: Map<u64, ExprFact>, i: u32) -> bool {
    exists|h: u64| #[trigger] m.contains_key(h) && fact_rules(m[h].reachable_rules).contains(i)
}

/// A flag of an expression fact.
enum FactFlag {
    Pure,
    Ground,
    Deterministic,
}

/// Whether the fact says the flag holds.
spec fn flag_holds(f: ExprFact, which: FactFlag) -> bool {
    match which {
        FactFlag::Pure => f.is_pure == Some(true),
        FactFlag::Ground => f.is_ground == Some(true),
        FactFlag::Deterministic => f.is_deterministic == Some(true),
    }
}

/// Whether the fact says the flag holds.
fn flag_of(f: &ExprFact, which: &FactFlag) -> (r: bool)
    ensures
        r == flag_holds(*f, *which),
{
    let v = match which {
        FactFlag::Pure => f.is_pure,
        FactFlag::Ground => f.is_ground,
        FactFlag::Deterministic => f.is_deterministic,
    };
    match v {
        Some(b) => b,
        None => false,
    }
}

/// The analyzed expressions whose facts say the flag holds.
fn keys_where(result: &AnalysisResult, which: FactFlag) -> (r: HashSet<u64>)
    ensures
        r@ == Set::new(|h: u64| result.expr_facts@.contains_key(h) && flag_holds(result.expr_facts@[h], which)),
{
    let ghost target = Set::new(|h: u64| result.expr_facts@.contains_key(h) && flag_holds(result.expr_facts@[h], which));
    let keys = fact_keys(&result.expr_facts);
    let mut out: HashSet<u64> = HashSet::new();
    let mut i: usize = 0;
    while i < keys.len()
        invariant
            i <= keys@.len(),
            keys@.no_duplicates(),
            forall|k: u64| #[trigger] result.expr_facts@.contains_key(k) <==> keys@.contains(k),
            target == Set::new(|h: u64| result.expr_facts@.contains_key(h) && flag_holds(result.expr_facts@[h], which)),
            out@ == target.intersect(keys@.take(i as int).to_set()),
        decreases keys.len() - i,
    {
        let h = keys[i];
        assert(keys@.contains(h));
        proof {
            assert(keys@.take(i + 1) =~= keys@.take(i as int).push(h));
            keys@.take(i as int).lemma_push_to_set_commute(h);
        }
        match result.expr_facts.get(&h) {
            Some(fact) => {
                if flag_of(fact, &which) {
                    out.insert(h);
                }
            },
            None => {},
        }
        proof {
            assert(out@ =~= target.intersect(keys@.take(i + 1).to_set()));
        }
        i = i + 1;
    }
    proof {
        assert(keys@.take(i as int) =~= keys@);
        assert(out@ =~= target);
    }
    out
}

/// The expressions proved pure.
pub fn detect_purity(result: &AnalysisResult) -> (r: HashSet<u64>)
    ensures
        r@ == facts_where(result.expr_facts@, |f: ExprFact| f.is_pure == Some(true)),
{
    let r = keys_where(result, FactFlag::Pure);
    assert(r@ =~= facts_where(result.expr_facts@, |f: ExprFact| f.is_pure == Some(true)));
    r
}

/// The expressions proved to yield ground values.
pub fn detect_groundness(result: &AnalysisResult) -> (r: HashSet<u64>)
    ensures
        r@ == facts_where(result.expr_facts@, |f: ExprFact| f.is_ground == Some(true)),
{
    let r = keys_where(result, FactFlag::Ground);
    assert(r@ =~= facts_where(result.expr_facts@, |f: ExprFact| f.is_ground == Some(true)));
    r
}

/// The expressions whose result was seen with one type only, with that type.
pub fn detect_type_specialization(result: &AnalysisResult) -> (r: HashMap<u64, AbstractType>)
    requires
        crate::analysis::fixpoint::facts_wf(result.expr_facts@),
    ensures
        r@.dom() == facts_where(result.expr_facts@, |f: ExprFact| f.result_types@.len() == 1),
        forall|h: u64| #[trigger] r@.contains_key(h) ==> result.expr_facts@[h].result_types@ == set![r@[h]],
{
    let keys = fact_keys(&result.expr_facts);
    let ghost spec_set = facts_where(result.expr_facts@, |f: ExprFact| f.result_types@.len() == 1);
    let mut out: HashMap<u64, AbstractType> = HashMap::new();
    let mut i: usize = 0;
    while i < keys.len()
        invariant
            i <= keys@.len(),
            crate::analysis::fixpoint::facts_wf(result.expr_facts@),
            forall|k: u64| #[trigger] result.expr_facts@.contains_key(k) <==> keys@.contains(k),
            spec_set == facts_where(result.expr_facts@, |f: ExprFact| f.result_types@.len() == 1),
            out@.dom() == spec_set.intersect(keys@.take(i as int).to_set()),
            forall|h: u64| #[trigger] out@.contains_key(h) ==> result.expr_facts@[h].result_types@ == set![out@[h]],
        decreases keys.len() - i,
    {
        let h = keys[i];
        assert(keys@.contains(h));
        proof {
            assert(keys@.take(i + 1) =~= keys@.take(i as int).push(h));
            keys@.take(i as int).lemma_push_to_set_commute(h);
        }
        match result.expr_facts.get(&h) {
            Some(fact) => {
                match fact.result_types.single() {
                    Some(t) => {
                        out.insert(h, t);
                    },
                    None => {},
                }
            },
            None => {},
        }
        proof {
            assert(out@.dom() =~= spec_set.intersect(keys@.take(i + 1).to_set()));
        }
        i = i + 1;
    }
    proof {
        assert(keys@.take(i as int) =~= keys@);
        assert(out@.dom() =~= spec_set);
    }
    out
}

/// The rules below `total_rules` that no fact lists as reachable.
pub fn detect_dead_rules_with_total(result: &AnalysisResult, total_rules: u32) -> (r: HashSet<u32>)
    ensures
        r@ == Set::new(|i: u32| i < total_rules && !rule_live(result.expr_facts@, i)),
{
    let keys = fact_keys(&result.expr_facts);
    let mut live: HashSet<u32> = HashSet::new();
    let mut i: usize = 0;
    while i < keys.len()
        invariant
            i <= keys@.len(),
            forall|k: u64| #[trigger] result.expr_facts@.contains_key(k) <==> keys@.contains(k),
            forall|x: u32| #[trigger] live@.contains(x) <==> exists|j: int| 0 <= j < i && fact_rules(
                result.expr_facts@[keys@[j]].reachable_rules,
            ).contains(x),
        decreases keys.len() - i,
    {
        let h = keys[i];
        assert(keys@.contains(h));
        match result.expr_facts.get(&h) {
            Some(fact) => {
                let rules = fact.reachable_rules.as_slice();
                let ghost before = live@;
                let mut k: usize = 0;
                while k < rules.len()
                    invariant
                        k <= rules@.len(),
                        live@ == before.union(rules@.take(k as int).to_set()),
                    decreases rules.len() - k,
                {
                    live.insert(rules[k]);
                    proof {
                        assert(rules@.take(k + 1) =~= rules@.take(k as int).push(rules@[k as int]));
                        rules@.take(k as int).lemma_push_to_set_commute(rules@[k as int]);
                        assert(live@ =~= before.union(rules@.take(k + 1).to_set()));
                    }
                    k = k + 1;
                }
                proof {
                    assert(rules@.take(k as int) =~= rules@);
                    assert forall|x: u32| #[trigger] live@.contains(x) <==> exists|j: int| 0 <= j < i + 1 && fact_rules(
                        result.expr_facts@[keys@[j]].reachable_rules,
                    ).contains(x) by {
                        if live@.contains(x) && !before.contains(x) {
                            assert(rules@.to_set().contains(x));
                            assert(fact_rules(result.expr_facts@[keys@[i as int]].reachable_rules).contains(x));
                        }
                        if exists|j: int| 0 <= j < i + 1 && fact_rules(result.expr_facts@[keys@[j]].reachable_rules).contains(x) {
                            let j = choose|j: int| 0 <= j < i + 1 && fact_rules(result.expr_facts@[keys@[j]].reachable_rules).contains(x);
                            if j == i {
                                assert(rules@.to_set().contains(x));
                            }
                        }
                    }
                }
            },
            None => {},
        }
        i = i + 1;
    }
    proof {
        assert forall|x: u32| #[trigger] live@.contains(x) <==> rule_live(result.expr_facts@, x) by {
            if live@.contains(x) {
                let j = choose|j: int| 0 <= j < keys@.len() && fact_rules(result.expr_facts@[keys@[j]].reachable_rules).contains(x);
                assert(result.expr_facts@.contains_key(keys@[j]));
            }
            if rule_live(result.expr_facts@, x) {
                let h = choose|h: u64| #[trigger] result.expr_facts@.contains_key(h) && fact_rules(result.expr_facts@[h].reachable_rules).contains(x);
                assert(keys@.contains(h));
                let j = choose|j: int| 0 <= j < keys@.len() && keys@[j] == h;
                assert(fact_rules(result.expr_facts@[keys@[j]].reachable_rules).contains(x));
            }
        }
    }
    let mut dead: HashSet<u32> = HashSet::new();
    let mut n: u32 = 0;
    while n < total_rules
        invariant
            n <= total_rules,
            forall|x: u32| #[trigger] live@.contains(x) <==> rule_live(result.expr_facts@, x),
            dead@ == Set::new(|x: u32| x < n && !rule_live(result.expr_facts@, x)),
        decreases total_rules - n,
    {
        if !live.contains(&n) {
            dead.insert(n);
        }
        proof {
            assert(dead@ =~= Set::new(|x: u32| x < n + 1 && !rule_live(result.expr_facts@, x)));
        }
        n = n + 1;
    }
    dead
}

/// Derive the high-level facts from the fixed point: the pure, typed and
/// ground expressions, the pure ones that always dispatch to one rule as
/// memoization candidates, and the pure ones as parallelization candidates.
/// Dead rules and deterministic dispatch are left empty here: the rule count
/// and the heads of the expressions are known only to the caller, as the
/// facts are keyed by hash alone.
pub fn derive_analysis(result: &AnalysisResult) -> (r: DerivedAnalysis)
    requires
        crate::analysis::fixpoint::facts_wf(result.expr_facts@),
    ensures
        r.dead_rules@ == Set::<u32>::empty(),
        r.deterministic_dispatch@ == Map::<(String, usize), u32>::empty(),
        r.pure_expressions@ == facts_where(result.expr_facts@, |f: ExprFact| f.is_pure == Some(true)),
        r.ground_expressions@ == facts_where(result.expr_facts@, |f: ExprFact| f.is_ground == Some(true)),
        r.type_specializations@.dom() == facts_where(result.expr_facts@, |f: ExprFact| f.result_types@.len() == 1),
        forall|h: u64| #[trigger] r.type_specializations@.contains_key(h) ==> result.expr_facts@[h].result_types@
            == set![r.type_specializations@[h]],
        r.memo_candidates@ == r.pure_expressions@.intersect(
            facts_where(result.expr_facts@, |f: ExprFact| f.is_deterministic == Some(true)),
        ),
        r.parallel_candidates@ == r.pure_expressions@,
{
    let pure_expressions = detect_purity(result);
    let type_specializations = detect_type_specialization(result);
    let ground_expressions = detect_groundness(result);
    let deterministic = keys_where(result, FactFlag::Deterministic);
    assert(deterministic@ =~= facts_where(result.expr_facts@, |f: ExprFact| f.is_deterministic == Some(true)));
    let pure_list = set_members(&pure_expressions);
    let mut memo_candidates: HashSet<u64> = HashSet::new();
    let mut parallel_candidates: HashSet<u64> = HashSet::new();
    let mut i: usize = 0;
    while i < pure_list.len()
        invariant
            i <= pure_list@.len(),
            forall|k: u64| #[trigger] pure_expressions@.contains(k) <==> pure_list@.contains(k),
            parallel_candidates@ == pure_list@.take(i as int).to_set(),
            memo_candidates@ == pure_list@.take(i as int).to_set().intersect(deterministic@),
        decreases pure_list.len() - i,
    {
        let h = pure_list[i];
        proof {
            assert(pure_list@.take(i + 1) =~= pure_list@.take(i as int).push(h));
            pure_list@.take(i as int).lemma_push_to_set_commute(h);
        }
        parallel_candidates.insert(h);
        if deterministic.contains(&h) {
            memo_candidates.insert(h);
        }
        proof {
            assert(memo_candidates@ =~= pure_list@.take(i + 1).to_set().intersect(deterministic@));
        }
        i = i + 1;
    }
    proof {
        assert(pure_list@.take(i as int) =~= pure_list@);
        assert(pure_list@.to_set() =~= pure_expressions@);
    }
    DerivedAnalysis {
        dead_rules: HashSet::new(),
        deterministic_dispatch: HashMap::new(),
        pure_expressions,
        type_specializations,
        ground_expressions,
        memo_candidates,
        parallel_candidates,
    }
}

} // verus!
