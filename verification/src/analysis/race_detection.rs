//! Race detection for stateful operations: impure expressions that may run
//! in parallel conflict pairwise.

use std::collections::HashSet;

use vstd::prelude::*;

use crate::analysis::derived::{set_members, DerivedAnalysis};
use crate::analysis::fixpoint::AnalysisResult;

verus! {

broadcast use vstd::std_specs::hash::group_hash_axioms;

/// An abstract operation on shared state.
#[derive(Debug, Clone, PartialEq, Eq, Hash)]
pub enum AbstractOp {
    /// Read from a space or state.
    Read { target: AbstractTarget },
    /// Write to a space or state.
    Write { target: AbstractTarget },
}

/// Target of a state operation.
#[derive(Debug, Clone, PartialEq, Eq, Hash)]
pub enum AbstractTarget {
    /// A named space.
    Space(Option<String>),
    /// A state cell, by hash.
    State(u64),
    /// Any unknown target.
    Unknown,
}

/// A potential data race between two operations.
#[derive(Debug, Clone)]
pub struct PotentialRace {
    /// First operation.
    pub op1: AbstractOp,
    /// Expression hash where the first operation occurs.
    pub op1_expr: u64,
    /// Second operation.
    pub op2: AbstractOp,
    /// Expression hash where the second operation occurs.
    pub op2_expr: u64,
}

/// Result of race detection.
#[derive(Debug)]
pub struct RaceDetectionResult {
    /// All abstract operations found, with the expression of each.
    pub operations: Vec<(u64, AbstractOp)>,
    /// Potential races detected.
    pub potential_races: Vec<PotentialRace>,
    /// Expression hashes that are safe for parallel execution.
    pub safe_parallel: HashSet<u64>,
    /// Expression hashes that must be serialized.
    pub must_serialize: HashSet<u64>,
}

impl RaceDetectionResult {
    /// Whether an expression is safe for parallel execution: it is known safe
    /// or not known to need serializing.
    pub fn is_safe(&self, expr_hash: u64) -> (r: bool)
        ensures
            r == (self.safe_parallel@.contains(expr_hash) || !self.must_serialize@.contains(expr_hash)),
    {
        self.safe_parallel.contains(&expr_hash) || !self.must_serialize.contains(&expr_hash)
    }

    /// Number of potential races found.
    pub fn race_count(&self) -> (r: usize)
        ensures
            r == self.potential_races@.len(),
    {
        self.potential_races.len()
    }
}

/// The pairs of the element at `i` with each later element, in order.
pub open spec fn race_row(s: Seq<u64>, i: int) -> Seq<(u64, u64)> {
    Seq::new((s.len() - i - 1) as nat, |k: int| (s[i], s[i + 1 + k]))
}

/// The rows of the first `i` elements: every pair of positions `a < b` with
/// `a < i`, ordered by `a` then `b`.
pub open spec fn race_pairs_upto(s: Seq<u64>, i: int) -> Seq<(u64, u64)>
    decreases i,
{
    if i <= 0 {
        Seq::empty()
    } else {
        race_pairs_upto(s, i - 1) + race_row(s, i - 1)
    }
}

/// Every pair of distinct positions is a race once: `n` conflicting
/// expressions make n(n-1)/2 races.
pub proof fn lemma_race_pair_count(s: Seq<u64>, i: int)
    requires
        0 <= i <= s.len(),
    ensures
        2 * (race_pairs_upto(s, i).len() as int) == i * (2 * (s.len() as int) - i - 1),
    decreases i,
{
    if i > 0 {
        lemma_race_pair_count(s, i - 1);
        let n = s.len() as int;
        assert(race_row(s, i - 1).len() == n - i);
        assert(2 * (race_pairs_upto(s, i).len() as int) == (i - 1) * (2 * n - (i - 1) - 1) + 2 * (n - i));
        assert((i - 1) * (2 * n - (i - 1) - 1) + 2 * (n - i) == i * (2 * n - i - 1)) by (nonlinear_arith);
        assert(2 * (race_pairs_upto(s, i).len() as int) == i * (2 * n - i - 1));
    } else {
        assert(race_pairs_upto(s, 0).len() == 0);
        assert(0 * (2 * (s.len() as int) - 0 - 1) == 0) by (nonlinear_arith);
    }
}

/// A write to an unknown target.
pub open spec fn unknown_write() -> AbstractOp {
    AbstractOp::Write { target: AbstractTarget::Unknown }
}

/// The expression pairs of a list of races.
pub open spec fn race_exprs(races: Seq<PotentialRace>) -> Seq<(u64, u64)> {
    races.map_values(|p: PotentialRace| (p.op1_expr, p.op2_expr))
}

/// Find the races among the analyzed expressions: every expression that is
/// not known pure is taken to write unknown state, so every two of them
/// conflict.
pub fn detect_races(analysis: &AnalysisResult, derived: &DerivedAnalysis) -> (r: RaceDetectionResult)
    ensures
        r.safe_parallel@ == derived.pure_expressions@,
        r.must_serialize@ == analysis.expr_facts@.dom().difference(derived.pure_expressions@),
        ({
            let order = r.operations@.map_values(|o: (u64, AbstractOp)| o.0);
            &&& order.no_duplicates()
            &&& order.to_set() == r.must_serialize@
            &&& forall|i: int| 0 <= i < r.operations@.len() ==> (#[trigger] r.operations@[i]).1 == unknown_write()
            &&& race_exprs(r.potential_races@) == race_pairs_upto(order, order.len() as int)
            &&& forall|i: int| 0 <= i < r.potential_races@.len() ==> (#[trigger] r.potential_races@[i]).op1
                == unknown_write() && r.potential_races@[i].op2 == unknown_write()
        }),
{
    let analyzed = analysis.analyzed_expressions();
    assert(analyzed@.to_set() =~= analysis.expr_facts@.dom());
    detect_races_among(analyzed.as_slice(), derived)
}

/// Find the races among the given expressions.
fn detect_races_among(analyzed_expressions: &[u64], derived: &DerivedAnalysis) -> (r: RaceDetectionResult)
    ensures
        r.safe_parallel@ == derived.pure_expressions@,
        r.must_serialize@ == analyzed_expressions@.to_set().difference(derived.pure_expressions@),
        ({
            let order = r.operations@.map_values(|o: (u64, AbstractOp)| o.0);
            &&& order.no_duplicates()
            &&& order.to_set() == r.must_serialize@
            &&& forall|i: int| 0 <= i < r.operations@.len() ==> (#[trigger] r.operations@[i]).1 == unknown_write()
            &&& race_exprs(r.potential_races@) == race_pairs_upto(order, order.len() as int)
            &&& forall|i: int| 0 <= i < r.potential_races@.len() ==> (#[trigger] r.potential_races@[i]).op1
                == unknown_write() && r.potential_races@[i].op2 == unknown_write()
        }),
{
    let ghost pure = derived.pure_expressions@;
    let mut impure: Vec<u64> = Vec::new();
    let mut must_serialize: HashSet<u64> = HashSet::new();
    let mut i: usize = 0;
    while i < analyzed_expressions.len()
        invariant
            i <= analyzed_expressions@.len(),
            pure == derived.pure_expressions@,
            impure@.no_duplicates(),
            impure@.to_set() == must_serialize@,
            must_serialize@ == analyzed_expressions@.take(i as int).to_set().difference(pure),
        decreases analyzed_expressions.len() - i,
    {
        let h = analyzed_expressions[i];
        proof {
            assert(analyzed_expressions@.take(i + 1) =~= analyzed_expressions@.take(i as int).push(h));
            analyzed_expressions@.take(i as int).lemma_push_to_set_commute(h);
        }
        if !derived.pure_expressions.contains(&h) && !must_serialize.contains(&h) {
            let ghost before = impure@;
            impure.push(h);
            must_serialize.insert(h);
            proof {
                before.lemma_push_to_set_commute(h);
                assert forall|a: int, b: int| 0 <= a < b < impure@.len() implies impure@[a] != impure@[b] by {
                    if b == before.len() {
                        assert(before.to_set().contains(before[a]));
                    }
                }
                assert(must_serialize@ =~= analyzed_expressions@.take(i + 1).to_set().difference(pure));
            }
        } else {
            proof {
                assert(must_serialize@ =~= analyzed_expressions@.take(i + 1).to_set().difference(pure));
            }
        }
        i = i + 1;
    }
    proof {
        assert(analyzed_expressions@.take(i as int) =~= analyzed_expressions@);
    }
    let mut operations: Vec<(u64, AbstractOp)> = Vec::new();
    let mut k: usize = 0;
    while k < impure.len()
        invariant
            k <= impure@.len(),
            operations@.len() == k,
            forall|x: int| 0 <= x < k ==> (#[trigger] operations@[x]) == (impure@[x], unknown_write()),
        decreases impure.len() - k,
    {
        operations.push((impure[k], AbstractOp::Write { target: AbstractTarget::Unknown }));
        k = k + 1;
    }
    let ghost order = operations@.map_values(|o: (u64, AbstractOp)| o.0);
    assert(order =~= impure@);
    let n = impure.len();
    let mut potential_races: Vec<PotentialRace> = Vec::new();
    let mut a: usize = 0;
    while a < n
        invariant
            n == impure@.len(),
            a <= n,
            race_exprs(potential_races@) == race_pairs_upto(impure@, a as int),
            forall|x: int| 0 <= x < potential_races@.len() ==> (#[trigger] potential_races@[x]).op1 == unknown_write()
                && potential_races@[x].op2 == unknown_write(),
        decreases n - a,
    {
        let ghost base = race_exprs(potential_races@);
        let mut b: usize = a + 1;
        while b < n
            invariant
                n == impure@.len(),
                a < n,
                a + 1 <= b <= n,
                race_exprs(potential_races@) == base + race_row(impure@, a as int).take(b - a - 1),
                forall|x: int| 0 <= x < potential_races@.len() ==> (#[trigger] potential_races@[x]).op1 == unknown_write()
                    && potential_races@[x].op2 == unknown_write(),
            decreases n - b,
        {
            let ghost before = potential_races@;
            potential_races.push(
                PotentialRace {
                    op1: AbstractOp::Write { target: AbstractTarget::Unknown },
                    op1_expr: impure[a],
                    op2: AbstractOp::Write { target: AbstractTarget::Unknown },
                    op2_expr: impure[b],
                },
            );
            proof {
                let row = race_row(impure@, a as int);
                assert(row.take(b - a) =~= row.take(b - a - 1).push((impure@[a as int], impure@[b as int])));
                assert(race_exprs(potential_races@) =~= race_exprs(before).push((impure@[a as int], impure@[b as int])));
            }
            b = b + 1;
        }
        proof {
            let row = race_row(impure@, a as int);
            assert(row.take(b - a - 1) =~= row);
        }
        a = a + 1;
    }
    let mut safe_parallel: HashSet<u64> = HashSet::new();
    let pure_list = set_members(&derived.pure_expressions);
    let mut p: usize = 0;
    while p < pure_list.len()
        invariant
            p <= pure_list@.len(),
            safe_parallel@ == pure_list@.take(p as int).to_set(),
            forall|q: u64| #[trigger] pure.contains(q) <==> pure_list@.contains(q),
        decreases pure_list.len() - p,
    {
        let h = pure_list[p];
        safe_parallel.insert(h);
        proof {
            assert(pure_list@.take(p + 1) =~= pure_list@.take(p as int).push(h));
            pure_list@.take(p as int).lemma_push_to_set_commute(h);
        }
        p = p + 1;
    }
    proof {
        assert(pure_list@.take(p as int) =~= pure_list@);
        assert(pure_list@.to_set() =~= pure);
    }
    RaceDetectionResult { operations, potential_races, safe_parallel, must_serialize }
}

} // verus!
