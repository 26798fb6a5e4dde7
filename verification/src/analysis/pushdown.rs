//! Data of the pushdown analysis, which finds recursive expressions and
//! classifies how they terminate, and its test for self-calls.

use std::collections::{HashMap, HashSet};

use smallvec::SmallVec;

use vstd::prelude::*;

use crate::analysis::abstract_transition::{rule_models, EnvironmentSnapshot, RuleModel};
use crate::cache::{hash_metta_value, value_hash};
use crate::text::str_eq;
use crate::value::{MettaValue, Val, lemma_sexpr_view};

verus! {

broadcast use vstd::std_specs::hash::group_hash_axioms;

/// A stack frame of the pushdown system: a return point.
#[derive(Debug, Clone, PartialEq, Eq, Hash)]
pub struct StackFrame {
    /// Call site: the expression hash of the caller.
    pub call_site: u64,
    /// Kind of continuation at the call point.
    pub kont_kind: KontKind,
}

/// Simplified continuation kind.
#[derive(Debug, Clone, Copy, PartialEq, Eq, Structural, Hash)]
pub enum KontKind {
    RuleBody,
    IfThen,
    IfElse,
    LetBody,
    ChainBody,
    Generic,
}

/// How an expression terminates.
#[derive(Debug, Clone, Copy, PartialEq, Eq, Structural)]
pub enum ConvergenceClass {
    /// Always terminates: no recursive call found.
    Terminating,
    /// Recursive, with a base case reachable from every recursive path.
    Convergent,
    /// Recursive, convergence unknown.
    Unknown,
    /// No base case reachable.
    Divergent,
}

/// Settings of the pushdown analysis.
#[derive(Debug, Clone)]
pub struct PushdownConfig {
    /// Maximum abstract stack depth (the k of k-PDCFA).
    pub max_stack_depth: usize,
    /// Maximum number of pushdown states to explore.
    pub max_states: usize,
}

impl Default for PushdownConfig {
    fn default() -> (r: Self)
        ensures
            r.max_stack_depth == 2,
            r.max_states == 50_000,
    {
        PushdownConfig { max_stack_depth: 2, max_states: 50_000 }
    }
}

/// Whether an expression is, or holds at any depth, an S-expression whose
/// head is the atom `target`.
pub open spec fn has_head_call(v: Val, target: Seq<char>) -> bool
    decreases v, 1nat,
{
    match v {
        Val::SExpr(items) => (items.len() > 0 && items[0] == Val::Atom(target)) || items_have_head_call(
            items,
            target,
            items.len() as int,
        ),
        _ => false,
    }
}

/// Whether one of the first `k` items holds such a call.
pub open spec fn items_have_head_call(items: Seq<Val>, target: Seq<char>, k: int) -> bool
    decreases items, k,
{
    if k <= 0 || k > items.len() {
        false
    } else {
        items_have_head_call(items, target, k - 1) || has_head_call(items[k - 1], target)
    }
}

/// A call among the first `k` items is a call among the first `m >= k`.
proof fn lemma_items_have_monotone(items: Seq<Val>, target: Seq<char>, k: int, m: int)
    requires
        0 <= k <= m <= items.len(),
        items_have_head_call(items, target, k),
    ensures
        items_have_head_call(items, target, m),
    decreases m - k,
{
    if k < m {
        lemma_items_have_monotone(items, target, k, m - 1);
    }
}

/// Whether `expr` contains a call to `target_head`.
pub fn contains_head_call(expr: &MettaValue, target_head: &str) -> (r: bool)
    ensures
        r == has_head_call(expr@, target_head@),
    decreases expr,
{
    match expr {
        MettaValue::SExpr(items) => {
            proof {
                lemma_sexpr_view(expr, items);
            }
            if items.len() == 0 {
                return false;
            }
            let ghost vs = crate::value::seq_view(items@);
            if let MettaValue::Atom(h) = &items[0] {
                if str_eq(h.as_str(), target_head) {
                    assert(vs[0] == items@[0]@);
                    return true;
                }
            }
            assert(vs[0] != Val::Atom(target_head@));
            let mut i: usize = 0;
            while i < items.len()
                invariant
                    i <= items@.len(),
                    vs == crate::value::seq_view(items@),
                    vs.len() == items@.len(),
                    forall|j: int| 0 <= j < items@.len() ==> #[trigger] vs[j] == items@[j]@,
                    !items_have_head_call(vs, target_head@, i as int),
                    *expr == MettaValue::SExpr(*items),
                    expr@ == Val::SExpr(vs),
                decreases items.len() - i,
            {
                proof {
                    vstd::std_specs::vec::axiom_vec_index_decreases(*items, i as int);
                    assert(decreases_to!(*expr => (*expr)->SExpr_0));
                }
                if contains_head_call(&items[i], target_head) {
                    assert(items_have_head_call(vs, target_head@, i + 1));
                    proof {
                        lemma_items_have_monotone(vs, target_head@, i + 1, vs.len() as int);
                    }
                    return true;
                }
                i = i + 1;
            }
            assert(has_head_call(expr@, target_head@) == items_have_head_call(vs, target_head@, vs.len() as int));
            false
        },
        _ => false,
    }
}

/// The return points of a pushdown state, held inline.
#[verifier::external_body]
#[derive(Debug, PartialEq, Eq, Hash)]
pub struct FrameStack {
    frames: SmallVec<[StackFrame; 4]>,
}

/// The frames of a stack, bottom first.
pub uninterp spec fn stack_frames(s: FrameStack) -> Seq<StackFrame>;

/// `SmallVec::new`: an empty stack.
#[verifier::external_body]
fn frame_stack_new() -> (r: FrameStack)
    ensures
        stack_frames(r) == Seq::<StackFrame>::empty(),
{
    FrameStack { frames: SmallVec::new() }
}

/// `SmallVec::len`: the number of frames.
#[verifier::external_body]
fn frame_stack_len(s: &FrameStack) -> (r: usize)
    ensures
        r == stack_frames(*s).len(),
{
    s.frames.len()
}

/// `SmallVec::clone`: the same frames.
#[verifier::external_body]
fn frame_stack_clone(s: &FrameStack) -> (r: FrameStack)
    ensures
        stack_frames(r) == stack_frames(*s),
{
    FrameStack { frames: s.frames.clone() }
}

impl Clone for FrameStack {
    fn clone(&self) -> (r: Self)
        ensures
            stack_frames(r) == stack_frames(*self),
    {
        frame_stack_clone(self)
    }
}

impl FrameStack {
    /// The number of frames.
    pub fn len(&self) -> (r: usize)
        ensures
            r == stack_frames(*self).len(),
    {
        frame_stack_len(self)
    }

    /// Whether there is no frame.
    pub fn is_empty(&self) -> (r: bool)
        ensures
            r == (stack_frames(*self).len() == 0),
    {
        frame_stack_len(self) == 0
    }
}

/// A pushdown state: the expression being evaluated and a bounded stack.
#[derive(Debug, Clone, PartialEq, Eq, Hash)]
pub struct PushdownState {
    /// Hash of the expression being evaluated.
    pub control_hash: u64,
    /// The abstract stack, at most k frames.
    pub stack: FrameStack,
}

/// Result of the pushdown analysis.
#[derive(Debug)]
pub struct PushdownResult {
    /// The reachable pushdown states, each once.
    pub states: Vec<PushdownState>,
    /// Hashes of the expressions found to call themselves.
    pub recursive_exprs: HashSet<u64>,
    /// How each expression terminates.
    pub convergence: HashMap<u64, ConvergenceClass>,
    /// Whether the analysis converged.
    pub converged: bool,
    /// Number of passes.
    pub iterations: u32,
}

/// The rules of a snapshot key.
pub open spec fn snapshot_rules(snap: Map<(Seq<char>, usize), Seq<RuleModel>>, key: (Seq<char>, usize)) -> Seq<RuleModel> {
    if snap.contains_key(key) {
        snap[key]
    } else {
        Seq::empty()
    }
}

/// How an expression terminates, when one of its rules calls its own head:
/// convergent if another of them does not, divergent otherwise. `None` when
/// no rule of it recurses (or it is no call of an atom).
pub open spec fn recursion_class(e: Val, snap: Map<(Seq<char>, usize), Seq<RuleModel>>) -> Option<ConvergenceClass> {
    match e {
        Val::SExpr(items) => match items[0] {
            Val::Atom(head) => {
                let rules = snapshot_rules(snap, (head, items.len() as usize));
                if exists|i: int| 0 <= i < rules.len() && has_head_call(#[trigger] rules[i].rhs, head) {
                    Some(
                        if exists|i: int| 0 <= i < rules.len() && !has_head_call(#[trigger] rules[i].rhs, head) {
                            ConvergenceClass::Convergent
                        } else {
                            ConvergenceClass::Divergent
                        },
                    )
                } else {
                    None
                }
            },
            _ => None,
        },
        _ => None,
    }
}

/// Every one of the first `n` expressions marked terminating, by hash.
pub open spec fn all_terminating(exprs: Seq<Val>, n: int) -> Map<u64, ConvergenceClass>
    decreases n,
{
    if n <= 0 {
        Map::empty()
    } else {
        all_terminating(exprs, n - 1).insert(value_hash(exprs[n - 1]), ConvergenceClass::Terminating)
    }
}

/// The classification after the first `n` expressions were examined for
/// recursion.
pub open spec fn convergence_of(
    exprs: Seq<Val>,
    snap: Map<(Seq<char>, usize), Seq<RuleModel>>,
    n: int,
) -> Map<u64, ConvergenceClass>
    decreases n,
{
    if n <= 0 {
        all_terminating(exprs, exprs.len() as int)
    } else {
        match recursion_class(exprs[n - 1], snap) {
            Some(c) => convergence_of(exprs, snap, n - 1).insert(value_hash(exprs[n - 1]), c),
            None => convergence_of(exprs, snap, n - 1),
        }
    }
}

/// The models of a slice of values.
pub open spec fn vals(s: Seq<MettaValue>) -> Seq<Val> {
    s.map_values(|v: MettaValue| v@)
}

/// The recursion class of an expression, computed.
fn classify(expr: &MettaValue, env_snapshot: &EnvironmentSnapshot) -> (r: Option<ConvergenceClass>)
    requires
        env_snapshot.wf(),
    ensures
        r == recursion_class(expr@, env_snapshot@),
{
    match expr {
        MettaValue::SExpr(items) => {
            proof {
                lemma_sexpr_view(expr, items);
            }
            if items.len() == 0 {
                return None;
            }
            proof {
                assert(crate::value::seq_view(items@)[0] == items@[0]@);
            }
            match &items[0] {
                MettaValue::Atom(head) => {
                    let candidates = env_snapshot.get_candidates(head.as_str(), items.len());
                    let ghost rules = rule_models(candidates@);
                    assert(rules == snapshot_rules(env_snapshot@, (head@, items@.len() as usize)));
                    let mut recursive = false;
                    let mut has_base = false;
                    let mut i: usize = 0;
                    while i < candidates.len()
                        invariant
                            i <= candidates@.len(),
                            rules == rule_models(candidates@),
                            recursive == exists|j: int| 0 <= j < i && has_head_call(#[trigger] rules[j].rhs, head@),
                            has_base == exists|j: int| 0 <= j < i && !has_head_call(#[trigger] rules[j].rhs, head@),
                        decreases candidates.len() - i,
                    {
                        assert(rules[i as int].rhs == candidates@[i as int].rhs@);
                        if contains_head_call(&candidates[i].rhs, head.as_str()) {
                            recursive = true;
                        } else {
                            has_base = true;
                        }
                        i = i + 1;
                    }
                    if recursive {
                        if has_base {
                            Some(ConvergenceClass::Convergent)
                        } else {
                            Some(ConvergenceClass::Divergent)
                        }
                    } else {
                        None
                    }
                },
                _ => None,
            }
        },
        _ => None,
    }
}

/// Run the pushdown analysis on the given expressions: every expression is
/// a reachable state and starts out terminating; an expression one of whose
/// rules calls its own head is recursive, convergent when another of its
/// rules does not, divergent otherwise.
pub fn run_pushdown_analysis(
    initial_exprs: &[MettaValue],
    env_snapshot: &EnvironmentSnapshot,
    config: &PushdownConfig,
) -> (r: PushdownResult)
    requires
        env_snapshot.wf(),
    ensures
        r.converged,
        r.iterations == 1,
        r.states@.map_values(|s: PushdownState| s.control_hash).to_set() == vals(initial_exprs@).map_values(
            |v: Val| value_hash(v),
        ).to_set(),
        r.states@.map_values(|s: PushdownState| s.control_hash).no_duplicates(),
        forall|i: int| 0 <= i < r.states@.len() ==> stack_frames((#[trigger] r.states@[i]).stack).len() == 0,
        r.recursive_exprs@ == Set::new(
            |h: u64| exists|i: int| 0 <= i < initial_exprs@.len() && value_hash(#[trigger] initial_exprs@[i]@) == h
                && recursion_class(initial_exprs@[i]@, env_snapshot@) is Some,
        ),
        r.convergence@ == convergence_of(vals(initial_exprs@), env_snapshot@, initial_exprs@.len() as int),
{
    let ghost exprs = vals(initial_exprs@);
    let ghost snap = env_snapshot@;
    let mut states: Vec<PushdownState> = Vec::new();
    let mut convergence: HashMap<u64, ConvergenceClass> = HashMap::new();
    let mut i: usize = 0;
    while i < initial_exprs.len()
        invariant
            i <= initial_exprs@.len(),
            exprs == vals(initial_exprs@),
            states@.map_values(|s: PushdownState| s.control_hash).to_set() == exprs.take(i as int).map_values(
                |v: Val| value_hash(v),
            ).to_set(),
            states@.map_values(|s: PushdownState| s.control_hash).no_duplicates(),
            forall|k: int| 0 <= k < states@.len() ==> stack_frames((#[trigger] states@[k]).stack).len() == 0,
            convergence@ == all_terminating(exprs, i as int),
        decreases initial_exprs.len() - i,
    {
        let hash = hash_metta_value(&initial_exprs[i]);
        let ghost hs = states@.map_values(|s: PushdownState| s.control_hash);
        proof {
            assert(exprs.take(i + 1) =~= exprs.take(i as int).push(initial_exprs@[i as int]@));
            assert(exprs.take(i + 1).map_values(|v: Val| value_hash(v)) =~= exprs.take(i as int).map_values(
                |v: Val| value_hash(v),
            ).push(hash));
            exprs.take(i as int).map_values(|v: Val| value_hash(v)).lemma_push_to_set_commute(hash);
        }
        let mut present = false;
        let mut k: usize = 0;
        while k < states.len()
            invariant
                k <= states@.len(),
                hs == states@.map_values(|s: PushdownState| s.control_hash),
                present == exists|j: int| 0 <= j < k && hs[j] == hash,
            decreases states.len() - k,
        {
            assert(hs[k as int] == states@[k as int].control_hash);
            if states[k].control_hash == hash {
                present = true;
            }
            k = k + 1;
        }
        if !present {
            states.push(PushdownState { control_hash: hash, stack: frame_stack_new() });
            proof {
                let nhs = states@.map_values(|s: PushdownState| s.control_hash);
                assert(nhs =~= hs.push(hash));
                hs.lemma_push_to_set_commute(hash);
                assert forall|a: int, b: int| 0 <= a < b < nhs.len() implies nhs[a] != nhs[b] by {
                    if b == hs.len() {
                        assert(nhs[a] == hs[a]);
                    }
                }
            }
        } else {
            proof {
                let j = choose|j: int| 0 <= j < k && hs[j] == hash;
                assert(hs.to_set().contains(hash));
                assert(hs.to_set().insert(hash) =~= hs.to_set());
            }
        }
        convergence.insert(hash, ConvergenceClass::Terminating);
        i = i + 1;
    }
    proof {
        assert(exprs.take(i as int) =~= exprs);
    }
    let mut recursive_exprs: HashSet<u64> = HashSet::new();
    let mut n: usize = 0;
    while n < initial_exprs.len()
        invariant
            n <= initial_exprs@.len(),
            exprs == vals(initial_exprs@),
            snap == env_snapshot@,
            env_snapshot.wf(),
            convergence@ == convergence_of(exprs, snap, n as int),
            recursive_exprs@ == Set::new(
                |h: u64| exists|j: int| 0 <= j < n && value_hash(#[trigger] initial_exprs@[j]@) == h
                    && recursion_class(initial_exprs@[j]@, snap) is Some,
            ),
        decreases initial_exprs.len() - n,
    {
        let hash = hash_metta_value(&initial_exprs[n]);
        match classify(&initial_exprs[n], env_snapshot) {
            Some(c) => {
                recursive_exprs.insert(hash);
                convergence.insert(hash, c);
            },
            None => {},
        }
        proof {
            assert(exprs[n as int] == initial_exprs@[n as int]@);
            assert(recursive_exprs@ =~= Set::new(
                |h: u64| exists|j: int| 0 <= j < n + 1 && value_hash(#[trigger] initial_exprs@[j]@) == h
                    && recursion_class(initial_exprs@[j]@, snap) is Some,
            ));
        }
        n = n + 1;
    }
    PushdownResult { states, recursive_exprs, convergence, converged: true, iterations: 1 }
}

} // verus!
