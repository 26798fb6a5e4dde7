//! The fixed point of the abstract transition function: a worklist of
//! abstract states explored until nothing new appears or a bound is hit, and
//! the facts gathered about each expression on the way.

use std::collections::{HashMap, VecDeque};

use smallvec::SmallVec;

use vstd::prelude::*;
use vstd::std_specs::iter::IteratorSpec;

use crate::analysis::abstract_domain::{
    alpha, alpha_of, covers, lemma_covers_after_alloc, stored_at, AbstractAddr, AbstractEnv, AbstractStore,
    AbstractType, AnalysisConfig,
};
use crate::analysis::abstract_transition::{
    abstract_step, lemma_store_after_keeps_covers, listed_states, rule_models, state_models, step_successors,
    AbstractControl, AbstractRule, RuleModel,
    AbstractKont, AbstractState, ControlModel, EnvironmentSnapshot, KontModel,
};
use crate::cache::{hash_metta_value, value_hash};
use crate::value::{MettaValue, Val, lemma_sexpr_view};

verus! {

broadcast use vstd::std_specs::hash::group_hash_axioms;

/// The rule indices of an expression fact, held inline.
#[verifier::external_body]
#[derive(Debug, PartialEq, Eq)]
pub struct FactRules {
    rules: SmallVec<[u32; 4]>,
}

/// The indices held by the rules of a fact.
pub uninterp spec fn fact_rules(r: FactRules) -> Seq<u32>;

/// `SmallVec::new`: no rules.
#[verifier::external_body]
fn fact_rules_new() -> (r: FactRules)
    ensures
        fact_rules(r) == Seq::<u32>::empty(),
{
    FactRules { rules: SmallVec::new() }
}

/// `SmallVec::from_slice`: the indices of `s`, in order.
#[verifier::external_body]
fn fact_rules_from_slice(s: &[u32]) -> (r: FactRules)
    ensures
        fact_rules(r) == s@,
{
    FactRules { rules: SmallVec::from_slice(s) }
}

/// `SmallVec::as_slice`: the indices, in order.
#[verifier::external_body]
fn fact_rules_as_slice(r: &FactRules) -> (s: &[u32])
    ensures
        s@ == fact_rules(*r),
{
    r.rules.as_slice()
}

impl FactRules {
    /// Rules with the given indices, in order.
    pub fn from_slice(s: &[u32]) -> (r: Self)
        ensures
            fact_rules(r) == s@,
    {
        fact_rules_from_slice(s)
    }

    /// The indices, in order.
    pub fn as_slice(&self) -> (s: &[u32])
        ensures
            s@ == fact_rules(*self),
    {
        fact_rules_as_slice(self)
    }

    /// Whether there is no rule.
    pub fn is_empty(&self) -> (r: bool)
        ensures
            r == (fact_rules(*self).len() == 0),
    {
        fact_rules_as_slice(self).len() == 0
    }

    /// Whether the rule with index `x` is among them.
    pub fn contains(&self, x: &u32) -> (r: bool)
        ensures
            r == fact_rules(*self).contains(*x),
    {
        let s = fact_rules_as_slice(self);
        let mut i: usize = 0;
        while i < s.len()
            invariant
                i <= s@.len(),
                s@ == fact_rules(*self),
                forall|j: int| 0 <= j < i ==> s@[j] != *x,
            decreases s.len() - i,
        {
            if s[i] == *x {
                assert(s@[i as int] == *x);
                return true;
            }
            i = i + 1;
        }
        false
    }
}

/// A set of abstract types.
#[derive(Debug, Clone, PartialEq, Eq)]
pub struct TypeSet {
    types: Vec<AbstractType>,
}

impl TypeSet {
    /// The types, in insertion order.
    pub closed spec fn seq(&self) -> Seq<AbstractType> {
        self.types@
    }

    /// The set of types.
    pub open spec fn view(&self) -> Set<AbstractType> {
        self.seq().to_set()
    }

    /// No type is held twice.
    pub open spec fn wf(&self) -> bool {
        self.seq().no_duplicates()
    }

    /// An empty set.
    pub fn new() -> (r: Self)
        ensures
            r.wf(),
            r@ == Set::<AbstractType>::empty(),
    {
        let r = TypeSet { types: Vec::new() };
        assert(r@ =~= Set::<AbstractType>::empty());
        r
    }

    /// Add a type; `true` if it was not there.
    pub fn insert(&mut self, t: AbstractType) -> (r: bool)
        requires
            old(self).wf(),
        ensures
            final(self).wf(),
            final(self)@ == old(self)@.insert(t),
            r == !old(self)@.contains(t),
    {
        let mut i: usize = 0;
        while i < self.types.len()
            invariant
                i <= self.types@.len(),
                self.wf(),
                forall|j: int| 0 <= j < i ==> self.types@[j] != t,
            decreases self.types.len() - i,
        {
            if self.types[i] == t {
                assert(self.seq()[i as int] == t);
                assert(self@.insert(t) =~= self@);
                return false;
            }
            i = i + 1;
        }
        let ghost before = self.seq();
        self.types.push(t);
        proof {
            before.lemma_push_to_set_commute(t);
            assert forall|a: int, b: int| 0 <= a < b < self.seq().len() implies self.seq()[a] != self.seq()[b] by {
                if b == before.len() {
                    assert(before[a] == self.seq()[a]);
                }
            }
        }
        true
    }

    /// The number of types.
    pub fn len(&self) -> (r: usize)
        requires
            self.wf(),
        ensures
            r == self@.len(),
    {
        proof {
            self.seq().unique_seq_to_set();
        }
        self.types.len()
    }

    /// Whether `t` is in the set.
    pub fn contains(&self, t: &AbstractType) -> (r: bool)
        ensures
            r == self@.contains(*t),
    {
        let mut i: usize = 0;
        while i < self.types.len()
            invariant
                i <= self.types@.len(),
                forall|j: int| 0 <= j < i ==> self.types@[j] != *t,
            decreases self.types.len() - i,
        {
            if self.types[i] == *t {
                assert(self.seq()[i as int] == *t);
                return true;
            }
            i = i + 1;
        }
        false
    }

    /// The only type of a set of one.
    pub fn single(&self) -> (r: Option<AbstractType>)
        requires
            self.wf(),
        ensures
            r is Some <==> self@.len() == 1,
            r is Some ==> self@ == set![r->Some_0],
    {
        proof {
            self.seq().unique_seq_to_set();
        }
        if self.types.len() == 1 {
            let t = self.types[0];
            assert(self.seq() =~= seq![t]);
            assert(self@ =~= set![t]) by {
                assert(self.seq().contains(t));
            }
            Some(t)
        } else {
            None
        }
    }
}

/// Facts collected about an expression during the analysis.
#[derive(Debug)]
pub struct ExprFact {
    /// Indices of the rules the expression can dispatch to.
    pub reachable_rules: FactRules,
    /// Types that its result was seen to have.
    pub result_types: TypeSet,
    /// Whether the expression is provably pure.
    pub is_pure: Option<bool>,
    /// Whether it always dispatches to exactly one rule.
    pub is_deterministic: Option<bool>,
    /// Whether it always yields a ground value.
    pub is_ground: Option<bool>,
    /// How many times it was visited.
    pub visit_count: u32,
}

impl Default for ExprFact {
    fn default() -> (r: Self)
        ensures
            fact_rules(r.reachable_rules) == Seq::<u32>::empty(),
            r.result_types.wf(),
            r.result_types@ == Set::<AbstractType>::empty(),
            r.is_pure is None,
            r.is_deterministic is None,
            r.is_ground is None,
            r.visit_count == 0,
    {
        ExprFact {
            reachable_rules: fact_rules_new(),
            result_types: TypeSet::new(),
            is_pure: None,
            is_deterministic: None,
            is_ground: None,
            visit_count: 0,
        }
    }
}

/// Results of the fixed-point analysis.
#[derive(Debug)]
pub struct AnalysisResult {
    /// The abstract states discovered, each once, in discovery order.
    pub reachable_states: Vec<AbstractState>,
    /// The abstract store at the end.
    pub store: AbstractStore,
    /// Facts by expression hash.
    pub expr_facts: HashMap<u64, ExprFact>,
    /// Number of states stepped.
    pub iterations: u32,
    /// Whether every discovered state was stepped.
    pub converged: bool,
    /// Wall-clock time of the analysis in milliseconds.
    pub analysis_time_ms: u64,
}

/// The keys of a fact map, each once, in the map's iteration order.
pub(crate) fn fact_keys(m: &HashMap<u64, ExprFact>) -> (r: Vec<u64>)
    ensures
        r@.no_duplicates(),
        forall|k: u64| #[trigger] m@.contains_key(k) <==> r@.contains(k),
{
    let mut out: Vec<u64> = Vec::new();
    let iter = m.keys();
    proof {
        let rem = IteratorSpec::remaining(&iter);
        assert forall|k: u64| #[trigger] m@.contains_key(k) <==> exists|j: int| 0 <= j < rem.len() && *rem[j] == k by {
            if m@.contains_key(k) {
                assert(rem.unref().to_set().contains(k));
                let j = choose|j: int| 0 <= j < rem.unref().len() && rem.unref()[j] == k;
                assert(*rem[j] == k);
            }
            if exists|j: int| 0 <= j < rem.len() && *rem[j] == k {
                let j = choose|j: int| 0 <= j < rem.len() && *rem[j] == k;
                assert(rem.unref()[j] == k);
                assert(rem.unref().contains(k));
            }
        }
        assert forall|a: int, b: int| 0 <= a < b < rem.len() implies *rem[a] != *rem[b] by {
            assert(rem[a] != rem[b]);
        }
    }
    for k in it: iter
        invariant
            forall|q: u64| #[trigger] m@.contains_key(q) <==> exists|j: int| 0 <= j < it.seq().len() && *it.seq()[j] == q,
            forall|a: int, b: int| 0 <= a < b < it.seq().len() ==> *it.seq()[a] != *it.seq()[b],
            out@.len() == it.index(),
            forall|j: int|
                #![trigger out@[j]]
                #![trigger it.seq()[j]]
                0 <= j < it.index() ==> out@[j] == *it.seq()[j],
        ensures
            out@.no_duplicates(),
            forall|q: u64| #[trigger] m@.contains_key(q) <==> out@.contains(q),
    {
        proof {
            assert(*it.seq()[it.index()] == *k);
        }
        out.push(*k);
    }
    out
}

impl AnalysisResult {
    /// The hashes of the analyzed expressions, each once.
    pub fn analyzed_expressions(&self) -> (r: Vec<u64>)
        ensures
            r@.no_duplicates(),
            forall|k: u64| #[trigger] self.expr_facts@.contains_key(k) <==> r@.contains(k),
    {
        fact_keys(&self.expr_facts)
    }

    /// Whether some analyzed expression can dispatch to the rule.
    pub fn is_rule_reachable(&self, rule_index: u32) -> (r: bool)
        ensures
            r == exists|h: u64| #[trigger] self.expr_facts@.contains_key(h) && fact_rules(
                self.expr_facts@[h].reachable_rules,
            ).contains(rule_index),
    {
        let keys = fact_keys(&self.expr_facts);
        let mut i: usize = 0;
        while i < keys.len()
            invariant
                i <= keys@.len(),
                forall|k: u64| #[trigger] self.expr_facts@.contains_key(k) <==> keys@.contains(k),
                forall|j: int| 0 <= j < i ==> !fact_rules(self.expr_facts@[#[trigger] keys@[j]].reachable_rules).contains(
                    rule_index,
                ),
            decreases keys.len() - i,
        {
            let h = keys[i];
            assert(keys@.contains(h));
            match self.expr_facts.get(&h) {
                Some(fact) => {
                    if fact.reachable_rules.contains(&rule_index) {
                        return true;
                    }
                },
                None => {},
            }
            i = i + 1;
        }
        proof {
            if exists|h: u64| #[trigger] self.expr_facts@.contains_key(h) && fact_rules(
                self.expr_facts@[h].reachable_rules,
            ).contains(rule_index) {
                let h = choose|h: u64| #[trigger] self.expr_facts@.contains_key(h) && fact_rules(
                    self.expr_facts@[h].reachable_rules,
                ).contains(rule_index);
                assert(keys@.contains(h));
                let j = choose|j: int| 0 <= j < keys@.len() && keys@[j] == h;
                assert(!fact_rules(self.expr_facts@[keys@[j]].reachable_rules).contains(rule_index));
            }
        }
        false
    }

    /// The facts about an expression, if it was analyzed.
    pub fn get_fact(&self, expr_hash: u64) -> (r: Option<&ExprFact>)
        ensures
            r is Some <==> self.expr_facts@.contains_key(expr_hash),
            r is Some ==> *r->Some_0 == self.expr_facts@[expr_hash],
    {
        self.expr_facts.get(&expr_hash)
    }
}

/// A worklist of states to step, with every state ever queued.
struct Worklist {
    queue: VecDeque<AbstractState>,
    seen: Vec<AbstractState>,
}

impl Worklist {
    /// The queued states form the end of the seen ones; all are distinct
    /// and well formed.
    spec fn wf(&self) -> bool {
        &&& forall|i: int| 0 <= i < self.seen@.len() ==> (#[trigger] self.seen@[i]).wf()
        &&& state_models(self.seen@).no_duplicates()
        &&& self.queue@.len() <= self.seen@.len()
        &&& state_models(self.queue@) == state_models(self.seen@).skip(self.seen@.len() - self.queue@.len())
        &&& forall|i: int| 0 <= i < self.queue@.len() ==> (#[trigger] self.queue@[i]).wf()
    }

    /// How many seen states were taken off the queue.
    spec fn taken(&self) -> int {
        self.seen@.len() - self.queue@.len()
    }

    fn new() -> (r: Self)
        ensures
            r.wf(),
            r.seen@ == Seq::<AbstractState>::empty(),
            r.queue@ == Seq::<AbstractState>::empty(),
    {
        let r = Worklist { queue: VecDeque::new(), seen: Vec::new() };
        assert(state_models(r.seen@) =~= Seq::<(ControlModel, KontModel)>::empty());
        assert(state_models(r.queue@) =~= Seq::<(ControlModel, KontModel)>::empty());
        assert(state_models(r.seen@).skip(0) =~= Seq::<(ControlModel, KontModel)>::empty());
        r
    }

    /// Queue a state unless it was seen; `true` if it was new.
    fn push(&mut self, state: AbstractState) -> (r: bool)
        requires
            old(self).wf(),
            state.wf(),
        ensures
            final(self).wf(),
            r == !state_models(old(self).seen@).contains(state@),
            r ==> state_models(final(self).seen@) == state_models(old(self).seen@).push(state@),
            !r ==> final(self).seen@ == old(self).seen@,
            final(self).taken() == old(self).taken(),
            state_models(final(self).seen@).contains(state@),
            forall|i: int| 0 <= i < old(self).seen@.len() ==> final(self).seen@[i] == old(self).seen@[i],
            final(self).seen@.len() >= old(self).seen@.len(),
    {
        let mut i: usize = 0;
        while i < self.seen.len()
            invariant
                i <= self.seen@.len(),
                self.wf(),
                state.wf(),
                forall|j: int| 0 <= j < i ==> self.seen@[j]@ != state@,
            decreases self.seen.len() - i,
        {
            if self.seen[i].same_state(&state) {
                assert(state_models(self.seen@)[i as int] == state@);
                return false;
            }
            i = i + 1;
        }
        assert(!state_models(self.seen@).contains(state@));
        let ghost old_seen = self.seen@;
        let ghost old_queue = self.queue@;
        let copy = state.clone();
        self.seen.push(copy);
        self.queue.push_back(state);
        proof {
            assert(state_models(self.seen@) =~= state_models(old_seen).push(state@));
            assert(state_models(self.queue@) =~= state_models(old_queue).push(state@));
            let sm = state_models(old_seen);
            assert forall|a: int, b: int| 0 <= a < b < sm.push(state@).len() implies sm.push(state@)[a] != sm.push(
                state@,
            )[b] by {
                if b == sm.len() {
                    assert(sm[a] == state_models(old_seen)[a]);
                }
            }
            assert(state_models(self.seen@).skip(self.seen@.len() - self.queue@.len()) =~= sm.skip(
                old_seen.len() - old_queue.len(),
            ).push(state@));
            assert(state_models(self.seen@)[old_seen.len() as int] == state@);
            assert forall|j: int| 0 <= j < self.seen@.len() implies (#[trigger] self.seen@[j]).wf() by {
                if j < old_seen.len() {
                    assert(self.seen@[j] == old_seen[j]);
                }
            }
            assert forall|j: int| 0 <= j < self.queue@.len() implies (#[trigger] self.queue@[j]).wf() by {
                if j < old_queue.len() {
                    assert(self.queue@[j] == old_queue[j]);
                }
            }
        }
        true
    }

    /// Take the oldest queued state.
    fn pop(&mut self) -> (r: Option<AbstractState>)
        requires
            old(self).wf(),
        ensures
            final(self).wf(),
            final(self).seen@ == old(self).seen@,
            old(self).queue@.len() == 0 ==> r is None && final(self).queue@ == old(self).queue@,
            old(self).queue@.len() > 0 ==> r is Some && r->Some_0 == old(self).queue@[0]
                && final(self).queue@ == old(self).queue@.drop_first() && r->Some_0.wf()
                && r->Some_0@ == state_models(old(self).seen@)[old(self).taken()],
    {
        let ghost q = self.queue@;
        let r = self.queue.pop_front();
        proof {
            if q.len() > 0 {
                let sm = state_models(self.seen@);
                assert(state_models(q)[0] == sm.skip(sm.len() - q.len())[0]);
                assert(state_models(self.queue@) =~= state_models(q).drop_first());
                assert(state_models(self.queue@) =~= sm.skip(sm.len() - self.queue@.len()));
                assert forall|j: int| 0 <= j < self.queue@.len() implies (#[trigger] self.queue@[j]).wf() by {
                    assert(self.queue@[j] == q[j + 1]);
                }
                assert(q[0].wf());
            }
        }
        r
    }

    fn is_empty(&self) -> (r: bool)
        ensures
            r == (self.queue@.len() == 0),
    {
        self.queue.len() == 0
    }

    fn seen_count(&self) -> (r: usize)
        ensures
            r == self.seen@.len(),
    {
        self.seen.len()
    }
}

/// Every fact's type set holds each type once.
pub open spec fn facts_wf(m: Map<u64, ExprFact>) -> bool {
    forall|h: u64| #[trigger] m.contains_key(h) ==> m[h].result_types.wf()
}

/// Take the fact of `h` out of the map, or a fresh one.
fn take_fact(facts: &mut HashMap<u64, ExprFact>, h: u64) -> (r: ExprFact)
    requires
        facts_wf(old(facts)@),
    ensures
        final(facts)@ == old(facts)@.remove(h),
        facts_wf(final(facts)@),
        r.result_types.wf(),
        old(facts)@.contains_key(h) ==> r == old(facts)@[h],
        !old(facts)@.contains_key(h) ==> fact_rules(r.reachable_rules) == Seq::<u32>::empty()
            && r.result_types@ == Set::<AbstractType>::empty() && r.is_pure is None
            && r.is_deterministic is None && r.is_ground is None && r.visit_count == 0,
{
    match facts.remove(&h) {
        Some(f) => f,
        None => ExprFact::default(),
    }
}

/// The state that starts evaluating an expression with the given hash.
pub open spec fn eval_state(h: u64, depth: u16) -> (ControlModel, KontModel) {
    (ControlModel::Eval { expr_hash: h, env: Map::empty(), depth }, KontModel::Done)
}

/// A fresh evaluation state.
fn new_eval_state(h: u64, depth: u16) -> (r: AbstractState)
    ensures
        r@ == eval_state(h, depth),
        r.wf(),
{
    AbstractState {
        control: AbstractControl::Eval { expr_hash: h, env: AbstractEnv::new(), depth },
        kont: AbstractKont::Done,
    }
}

/// The head and arity of a call of an atom.
pub open spec fn call_key(v: Val) -> Option<(Seq<char>, usize)> {
    match v {
        Val::SExpr(items) => if items.len() > 0 {
            match items[0] {
                Val::Atom(h) => Some((h, items.len() as usize)),
                _ => None,
            }
        } else {
            None
        },
        _ => None,
    }
}

/// Every one of the first `n` expressions that calls a head with rules has
/// a fact.
pub open spec fn facts_cover_calls(
    facts: Map<u64, ExprFact>,
    exprs: Seq<MettaValue>,
    n: int,
    snap: EnvironmentSnapshot,
) -> bool {
    forall|i: int|
        0 <= i < n && call_key(#[trigger] exprs[i]@) is Some && snap.candidates(call_key(exprs[i]@)->Some_0).len() > 0
            ==> facts.contains_key(value_hash(exprs[i]@))
}

/// A map that keeps every key keeps the facts of the calls.
proof fn lemma_cover_grows(
    facts: Map<u64, ExprFact>,
    more: Map<u64, ExprFact>,
    exprs: Seq<MettaValue>,
    n: int,
    snap: EnvironmentSnapshot,
)
    requires
        facts_cover_calls(facts, exprs, n, snap),
        facts.dom().subset_of(more.dom()),
    ensures
        facts_cover_calls(more, exprs, n, snap),
{
    assert forall|i: int|
        0 <= i < n && call_key(#[trigger] exprs[i]@) is Some && snap.candidates(call_key(exprs[i]@)->Some_0).len() > 0
            implies more.contains_key(value_hash(exprs[i]@)) by {
        assert(facts.contains_key(value_hash(exprs[i]@)));
    }
}

/// The indices of a list of rules, in order.
pub open spec fn indices_of_rules(c: Seq<RuleModel>) -> Seq<u32> {
    c.map_values(|r: RuleModel| r.rule_index)
}

/// Whether every rule of a list is pure.
pub open spec fn rules_all_pure(c: Seq<RuleModel>) -> bool {
    forall|i: int| 0 <= i < c.len() ==> #[trigger] c[i].is_pure
}

/// The body types of the first `k` rules of a list.
pub open spec fn types_upto(c: Seq<RuleModel>, k: int) -> Set<AbstractType> {
    Set::new(|t: AbstractType| exists|i: int| 0 <= i < k && #[trigger] c[i].rhs_type == Some(t))
}

/// The body types of a list of rules.
pub open spec fn types_of_rules(c: Seq<RuleModel>) -> Set<AbstractType> {
    types_upto(c, c.len() as int)
}

/// A fact that records a call dispatching to the rules `c`: their indices,
/// whether there is exactly one, whether all are pure, and their body types.
pub open spec fn fact_describes(f: ExprFact, c: Seq<RuleModel>) -> bool {
    &&& fact_rules(f.reachable_rules) == indices_of_rules(c)
    &&& f.is_deterministic == Some(c.len() == 1)
    &&& f.is_pure == Some(rules_all_pure(c))
    &&& f.result_types@ == types_of_rules(c)
}

/// Every expression of the list with the hash of the `i`-th one calls the
/// same head with the same arity.
pub open spec fn hash_keys_agree(exprs: Seq<MettaValue>, i: int) -> bool {
    forall|j: int|
        0 <= j < exprs.len() && value_hash(#[trigger] exprs[j]@) == value_hash(exprs[i]@) ==> call_key(exprs[j]@)
            == call_key(exprs[i]@)
}

/// The fact of each of the first `n` expressions that calls a head with
/// rules records those rules, where no expression of another call shares
/// its hash.
pub open spec fn facts_describe_calls(
    facts: Map<u64, ExprFact>,
    exprs: Seq<MettaValue>,
    n: int,
    snap: EnvironmentSnapshot,
) -> bool {
    forall|i: int|
        0 <= i < n && call_key(#[trigger] exprs[i]@) is Some && snap.candidates(call_key(exprs[i]@)->Some_0).len() > 0
            && hash_keys_agree(exprs, i) ==> fact_describes(
            facts[value_hash(exprs[i]@)],
            snap.candidates(call_key(exprs[i]@)->Some_0),
        )
}

/// Every fact belongs to one of the first `n` expressions that calls a head
/// with rules.
pub open spec fn facts_from_calls(facts: Map<u64, ExprFact>, exprs: Seq<MettaValue>, n: int, snap: EnvironmentSnapshot) -> bool {
    forall|h: u64|
        #[trigger] facts.contains_key(h) ==> exists|i: int|
            0 <= i < n && value_hash(#[trigger] exprs[i]@) == h && call_key(exprs[i]@) is Some && snap.candidates(
                call_key(exprs[i]@)->Some_0,
            ).len() > 0
}

/// The hash of the expression that a state evaluates, if it evaluates one.
pub open spec fn eval_hash(x: (ControlModel, KontModel)) -> Option<u64> {
    match x.0 {
        ControlModel::Eval { expr_hash, .. } => Some(expr_hash),
        _ => None,
    }
}

/// Every fact belongs to an expression that a state of `seen` evaluates.
pub open spec fn facts_reached(facts: Map<u64, ExprFact>, seen: Seq<(ControlModel, KontModel)>) -> bool {
    forall|h: u64| #[trigger] facts.contains_key(h) ==> exists|k: int| 0 <= k < seen.len() && eval_hash(seen[k]) == Some(h)
}

/// More states found keep the facts reached.
proof fn lemma_reached_extend(
    facts: Map<u64, ExprFact>,
    before: Seq<(ControlModel, KontModel)>,
    after: Seq<(ControlModel, KontModel)>,
)
    requires
        facts_reached(facts, before),
        after.len() >= before.len(),
        forall|i: int| 0 <= i < before.len() ==> after[i] == before[i],
    ensures
        facts_reached(facts, after),
{
    assert forall|h: u64| #[trigger] facts.contains_key(h) implies exists|k: int|
        0 <= k < after.len() && eval_hash(after[k]) == Some(h) by {
        let k = choose|k: int| 0 <= k < before.len() && eval_hash(before[k]) == Some(h);
        assert(after[k] == before[k]);
    }
}

/// A fact added for the expression of a state that was found.
proof fn lemma_reached_insert(
    facts: Map<u64, ExprFact>,
    seen: Seq<(ControlModel, KontModel)>,
    h: u64,
    f: ExprFact,
    x: (ControlModel, KontModel),
)
    requires
        facts_reached(facts.remove(h), seen),
        seen.contains(x),
        eval_hash(x) == Some(h),
    ensures
        facts_reached(facts.insert(h, f), seen),
{
    assert forall|g: u64| #[trigger] facts.insert(h, f).contains_key(g) implies exists|k: int|
        0 <= k < seen.len() && eval_hash(seen[k]) == Some(g) by {
        if g == h {
            let k = choose|k: int| 0 <= k < seen.len() && seen[k] == x;
        } else {
            assert(facts.remove(h).contains_key(g));
        }
    }
}

/// One more body type.
proof fn lemma_types_upto_next(c: Seq<RuleModel>, k: int)
    requires
        0 <= k < c.len(),
    ensures
        types_upto(c, k + 1) == match c[k].rhs_type {
            Some(t) => types_upto(c, k).insert(t),
            None => types_upto(c, k),
        },
{
    let next = match c[k].rhs_type {
        Some(t) => types_upto(c, k).insert(t),
        None => types_upto(c, k),
    };
    assert forall|t: AbstractType| types_upto(c, k + 1).contains(t) <==> next.contains(t) by {
        if types_upto(c, k + 1).contains(t) {
            let i = choose|i: int| 0 <= i < k + 1 && #[trigger] c[i].rhs_type == Some(t);
            if i < k {
                assert(types_upto(c, k).contains(t));
            }
        }
        if types_upto(c, k).contains(t) {
            let i = choose|i: int| 0 <= i < k && #[trigger] c[i].rhs_type == Some(t);
            assert(c[i].rhs_type == Some(t) && 0 <= i < k + 1);
        }
        if c[k].rhs_type == Some(t) {
            assert(c[k].rhs_type == Some(t) && 0 <= k < k + 1);
        }
    }
    assert(types_upto(c, k + 1) =~= next);
}

/// Recording the fact of the `e`-th expression, a call with rules `c`,
/// keeps the facts of the expressions before it, and describes its own
/// where its hash is its own.
proof fn lemma_describe_step(
    f0: Map<u64, ExprFact>,
    f1: Map<u64, ExprFact>,
    exprs: Seq<MettaValue>,
    e: int,
    snap: EnvironmentSnapshot,
)
    requires
        0 <= e < exprs.len(),
        facts_describe_calls(f0, exprs, e, snap),
        facts_from_calls(f0, exprs, e, snap),
        call_key(exprs[e]@) is Some,
        snap.candidates(call_key(exprs[e]@)->Some_0).len() > 0,
        f1.remove(value_hash(exprs[e]@)) == f0.remove(value_hash(exprs[e]@)),
        f1.contains_key(value_hash(exprs[e]@)),
        ({
            let c = snap.candidates(call_key(exprs[e]@)->Some_0);
            let f = f1[value_hash(exprs[e]@)];
            let h = value_hash(exprs[e]@);
            &&& fact_rules(f.reachable_rules) == indices_of_rules(c)
            &&& f.is_deterministic == Some(c.len() == 1)
            &&& f.is_pure == Some(rules_all_pure(c))
            &&& f.result_types@ == (if f0.contains_key(h) {
                f0[h].result_types@
            } else {
                Set::<AbstractType>::empty()
            }).union(types_of_rules(c))
        }),
    ensures
        facts_describe_calls(f1, exprs, e + 1, snap),
        facts_from_calls(f1, exprs, e + 1, snap),
{
    let h = value_hash(exprs[e]@);
    let c = snap.candidates(call_key(exprs[e]@)->Some_0);
    if hash_keys_agree(exprs, e) && f0.contains_key(h) {
        let i = choose|i: int|
            0 <= i < e && value_hash(#[trigger] exprs[i]@) == h && call_key(exprs[i]@) is Some && snap.candidates(
                call_key(exprs[i]@)->Some_0,
            ).len() > 0;
        assert(call_key(exprs[i]@) == call_key(exprs[e]@));
        assert(hash_keys_agree(exprs, i)) by {
            assert forall|j: int|
                0 <= j < exprs.len() && value_hash(#[trigger] exprs[j]@) == value_hash(exprs[i]@) implies call_key(
                exprs[j]@,
            ) == call_key(exprs[i]@) by {
                assert(value_hash(exprs[j]@) == value_hash(exprs[e]@));
            }
        }
        assert(fact_describes(f0[h], c));
        assert(f1[h].result_types@ =~= types_of_rules(c));
    }
    if hash_keys_agree(exprs, e) && !f0.contains_key(h) {
        assert(f1[h].result_types@ =~= types_of_rules(c));
    }
    assert forall|i: int|
        0 <= i < e + 1 && call_key(#[trigger] exprs[i]@) is Some && snap.candidates(call_key(exprs[i]@)->Some_0).len()
            > 0 && hash_keys_agree(exprs, i) implies fact_describes(
        f1[value_hash(exprs[i]@)],
        snap.candidates(call_key(exprs[i]@)->Some_0),
    ) by {
        if i < e {
            if value_hash(exprs[i]@) == h {
                assert(call_key(exprs[e]@) == call_key(exprs[i]@));
                assert(hash_keys_agree(exprs, e)) by {
                    assert forall|j: int|
                        0 <= j < exprs.len() && value_hash(#[trigger] exprs[j]@) == value_hash(exprs[e]@) implies call_key(
                        exprs[j]@,
                    ) == call_key(exprs[e]@) by {
                        assert(value_hash(exprs[j]@) == value_hash(exprs[i]@));
                    }
                }
            } else {
                assert(f0.remove(h).contains_key(value_hash(exprs[i]@)) == f0.contains_key(value_hash(exprs[i]@)));
                assert(f1[value_hash(exprs[i]@)] == f1.remove(h)[value_hash(exprs[i]@)]);
                assert(f0[value_hash(exprs[i]@)] == f0.remove(h)[value_hash(exprs[i]@)]);
            }
        }
    }
    assert forall|g: u64| #[trigger] f1.contains_key(g) implies exists|i: int|
        0 <= i < e + 1 && value_hash(#[trigger] exprs[i]@) == g && call_key(exprs[i]@) is Some && snap.candidates(
            call_key(exprs[i]@)->Some_0,
        ).len() > 0 by {
        if g == h {
            assert(value_hash(exprs[e]@) == g);
        } else {
            assert(f1.remove(h).contains_key(g));
            assert(f0.contains_key(g));
            let i = choose|i: int|
                0 <= i < e && value_hash(#[trigger] exprs[i]@) == g && call_key(exprs[i]@) is Some && snap.candidates(
                    call_key(exprs[i]@)->Some_0,
                ).len() > 0;
            assert(0 <= i < e + 1);
        }
    }
}

/// Changing only the visit counts keeps what the facts record.
proof fn lemma_describe_visit(
    f0: Map<u64, ExprFact>,
    f1: Map<u64, ExprFact>,
    h: u64,
    exprs: Seq<MettaValue>,
    snap: EnvironmentSnapshot,
)
    requires
        facts_describe_calls(f0, exprs, exprs.len() as int, snap),
        facts_cover_calls(f0, exprs, exprs.len() as int, snap),
        f1.remove(h) == f0.remove(h),
        f1.contains_key(h),
        f0.contains_key(h) ==> (f1[h].reachable_rules == f0[h].reachable_rules && f1[h].is_deterministic
            == f0[h].is_deterministic && f1[h].is_pure == f0[h].is_pure && f1[h].result_types == f0[h].result_types),
    ensures
        facts_describe_calls(f1, exprs, exprs.len() as int, snap),
{
    assert forall|i: int|
        0 <= i < exprs.len() && call_key(#[trigger] exprs[i]@) is Some && snap.candidates(call_key(exprs[i]@)->Some_0).len()
            > 0 && hash_keys_agree(exprs, i) implies fact_describes(
        f1[value_hash(exprs[i]@)],
        snap.candidates(call_key(exprs[i]@)->Some_0),
    ) by {
        let g = value_hash(exprs[i]@);
        assert(f0.contains_key(g));
        if g != h {
            assert(f1[g] == f1.remove(h)[g]);
            assert(f0[g] == f0.remove(h)[g]);
        }
    }
}

/// Fewer facts stay reached.
proof fn lemma_reached_sub(facts: Map<u64, ExprFact>, fewer: Map<u64, ExprFact>, seen: Seq<(ControlModel, KontModel)>)
    requires
        facts_reached(facts, seen),
        fewer.dom().subset_of(facts.dom()),
    ensures
        facts_reached(fewer, seen),
{
    assert forall|h: u64| #[trigger] fewer.contains_key(h) implies exists|k: int|
        0 <= k < seen.len() && eval_hash(seen[k]) == Some(h) by {
        assert(facts.contains_key(h));
    }
}

/// An expression that calls no head with rules adds no fact.
proof fn lemma_describe_skip(facts: Map<u64, ExprFact>, exprs: Seq<MettaValue>, e: int, snap: EnvironmentSnapshot)
    requires
        0 <= e < exprs.len(),
        facts_describe_calls(facts, exprs, e, snap),
        facts_from_calls(facts, exprs, e, snap),
        !(call_key(exprs[e]@) is Some && snap.candidates(call_key(exprs[e]@)->Some_0).len() > 0),
    ensures
        facts_describe_calls(facts, exprs, e + 1, snap),
        facts_from_calls(facts, exprs, e + 1, snap),
{
    assert forall|g: u64| #[trigger] facts.contains_key(g) implies exists|i: int|
        0 <= i < e + 1 && value_hash(#[trigger] exprs[i]@) == g && call_key(exprs[i]@) is Some && snap.candidates(
            call_key(exprs[i]@)->Some_0,
        ).len() > 0 by {
        let i = choose|i: int|
            0 <= i < e && value_hash(#[trigger] exprs[i]@) == g && call_key(exprs[i]@) is Some && snap.candidates(
                call_key(exprs[i]@)->Some_0,
            ).len() > 0;
        assert(0 <= i < e + 1);
    }
}

/// With no expressions, no state is found.
proof fn lemma_nothing_found(seen: Seq<(ControlModel, KontModel)>, exprs: Seq<MettaValue>, snap: EnvironmentSnapshot)
    requires
        found_from(seen, exprs, snap),
        exprs.len() == 0,
    ensures
        seen.len() == 0,
{
    reveal(found_from);
    reveal(is_seed);
    if seen.len() > 0 {
        assert(is_seed(seen[0], exprs, snap) || succeeds_earlier(seen, 0, snap));
    }
}

/// Every successor of every state at a position below `n` is among `seen`.
pub open spec fn closed_upto(
    seen: Seq<(ControlModel, KontModel)>,
    n: int,
    snap: Map<(Seq<char>, usize), Seq<crate::analysis::abstract_transition::RuleModel>>,
    gs: Seq<Seq<crate::analysis::abstract_transition::RuleModel>>,
) -> bool {
    forall|i: int, j: int|
        #![trigger step_successors(seen[i], snap, gs)[j]]
        0 <= i < n && 0 <= j < step_successors(seen[i], snap, gs).len() ==> seen.contains(
            step_successors(seen[i], snap, gs)[j],
        )
}

/// Whether `x` is a state that the top-level expression `v` seeds: its own
/// evaluation, or the evaluation of the body of a rule that its call can
/// dispatch to.
pub open spec fn seeded_by(x: (ControlModel, KontModel), v: Val, snap: EnvironmentSnapshot) -> bool {
    ||| x == eval_state(value_hash(v), 0)
    ||| call_key(v) is Some && exists|r: int|
        #![trigger snap.candidates(call_key(v)->Some_0)[r]]
        0 <= r < snap.candidates(call_key(v)->Some_0).len() && x == eval_state(
            snap.candidates(call_key(v)->Some_0)[r].rhs_hash,
            1,
        )
}

/// Whether `x` is a state that the analysis starts from.
#[verifier::opaque]
pub open spec fn is_seed(x: (ControlModel, KontModel), exprs: Seq<MettaValue>, snap: EnvironmentSnapshot) -> bool {
    exists|i: int| #![trigger exprs[i]] 0 <= i < exprs.len() && seeded_by(x, exprs[i]@, snap)
}

/// Whether the state at position `k` is a successor of a state before it.
pub open spec fn succeeds_earlier(seen: Seq<(ControlModel, KontModel)>, k: int, snap: EnvironmentSnapshot) -> bool {
    exists|i: int, j: int|
        #![trigger step_successors(seen[i], snap@, snap.groups())[j]]
        0 <= i < k && 0 <= j < step_successors(seen[i], snap@, snap.groups()).len() && seen[k] == step_successors(
            seen[i],
            snap@,
            snap.groups(),
        )[j]
}

/// Every state found is a seed, or a successor of a state found before it.
#[verifier::opaque]
pub open spec fn found_from(seen: Seq<(ControlModel, KontModel)>, exprs: Seq<MettaValue>, snap: EnvironmentSnapshot) -> bool {
    forall|k: int| 0 <= k < seen.len() ==> is_seed(#[trigger] seen[k], exprs, snap) || succeeds_earlier(seen, k, snap)
}

/// Appending a state keeps what the states before it were found from.
proof fn lemma_found_prefix(seen: Seq<(ControlModel, KontModel)>, x: (ControlModel, KontModel), exprs: Seq<MettaValue>, snap: EnvironmentSnapshot)
    requires
        found_from(seen, exprs, snap),
    ensures
        forall|k: int| 0 <= k < seen.len() ==> is_seed(#[trigger] seen.push(x)[k], exprs, snap) || succeeds_earlier(
            seen.push(x),
            k,
            snap,
        ),
{
    reveal(found_from);
    let s2 = seen.push(x);
    assert forall|k: int| 0 <= k < seen.len() implies is_seed(#[trigger] s2[k], exprs, snap) || succeeds_earlier(
        s2,
        k,
        snap,
    ) by {
        assert(s2[k] == seen[k]);
        if !is_seed(seen[k], exprs, snap) {
            assert(succeeds_earlier(seen, k, snap));
            let (i, j) = choose|i: int, j: int|
                0 <= i < k && 0 <= j < step_successors(seen[i], snap@, snap.groups()).len() && seen[k]
                    == step_successors(seen[i], snap@, snap.groups())[j];
            assert(s2[i] == seen[i]);
            assert(step_successors(s2[i], snap@, snap.groups())[j] == s2[k]);
        }
    }
}

/// Appending a seed keeps every state found from the seeds.
proof fn lemma_found_push_seed(seen: Seq<(ControlModel, KontModel)>, x: (ControlModel, KontModel), exprs: Seq<MettaValue>, snap: EnvironmentSnapshot)
    requires
        found_from(seen, exprs, snap),
        is_seed(x, exprs, snap),
    ensures
        found_from(seen.push(x), exprs, snap),
{
    lemma_found_prefix(seen, x, exprs, snap);
    reveal(found_from);
    assert(seen.push(x)[seen.len() as int] == x);
}

/// Appending a successor of a state found keeps every state found from the
/// seeds.
proof fn lemma_found_push_successor(
    seen: Seq<(ControlModel, KontModel)>,
    x: (ControlModel, KontModel),
    i: int,
    j: int,
    exprs: Seq<MettaValue>,
    snap: EnvironmentSnapshot,
)
    requires
        found_from(seen, exprs, snap),
        0 <= i < seen.len(),
        0 <= j < step_successors(seen[i], snap@, snap.groups()).len(),
        x == step_successors(seen[i], snap@, snap.groups())[j],
    ensures
        found_from(seen.push(x), exprs, snap),
{
    lemma_found_prefix(seen, x, exprs, snap);
    reveal(found_from);
    let s2 = seen.push(x);
    assert(s2[i] == seen[i]);
    assert(s2[seen.len() as int] == x);
    assert(step_successors(s2[i], snap@, snap.groups())[j] == s2[seen.len() as int]);
    assert(succeeds_earlier(s2, seen.len() as int, snap));
}

/// The bodies of the rules that the calls among the first `n` expressions
/// can dispatch to are all among `seen`.
#[verifier::opaque]
pub open spec fn bodies_found(seen: Seq<(ControlModel, KontModel)>, exprs: Seq<MettaValue>, n: int, snap: EnvironmentSnapshot) -> bool {
    forall|i: int, r: int|
        #![trigger snap.candidates(call_key(exprs[i]@)->Some_0)[r]]
        0 <= i < n && call_key(exprs[i]@) is Some && 0 <= r < snap.candidates(call_key(exprs[i]@)->Some_0).len()
            ==> seen.contains(eval_state(snap.candidates(call_key(exprs[i]@)->Some_0)[r].rhs_hash, 1))
}

/// What a sequence holds, a sequence that extends it holds too.
proof fn lemma_extends_contains(before: Seq<(ControlModel, KontModel)>, after: Seq<(ControlModel, KontModel)>, x: (ControlModel, KontModel))
    requires
        after.len() >= before.len(),
        forall|i: int| 0 <= i < before.len() ==> after[i] == before[i],
        before.contains(x),
    ensures
        after.contains(x),
{
    let m = choose|m: int| 0 <= m < before.len() && before[m] == x;
    assert(after[m] == x);
}

/// Extending the states found keeps the rule bodies found.
proof fn lemma_bodies_found_extend(
    before: Seq<(ControlModel, KontModel)>,
    after: Seq<(ControlModel, KontModel)>,
    exprs: Seq<MettaValue>,
    n: int,
    snap: EnvironmentSnapshot,
)
    requires
        after.len() >= before.len(),
        forall|i: int| 0 <= i < before.len() ==> after[i] == before[i],
        bodies_found(before, exprs, n, snap),
    ensures
        bodies_found(after, exprs, n, snap),
{
    reveal(bodies_found);
    assert forall|i: int, r: int|
        0 <= i < n && call_key(exprs[i]@) is Some && 0 <= r < snap.candidates(call_key(exprs[i]@)->Some_0).len()
            implies after.contains(eval_state(#[trigger] snap.candidates(call_key(exprs[i]@)->Some_0)[r].rhs_hash, 1)) by {
        lemma_extends_contains(before, after, eval_state(snap.candidates(call_key(exprs[i]@)->Some_0)[r].rhs_hash, 1));
    }
}

/// The evaluation of a top-level expression is a seed.
proof fn lemma_eval_seed(exprs: Seq<MettaValue>, i: int, snap: EnvironmentSnapshot)
    requires
        0 <= i < exprs.len(),
    ensures
        is_seed(eval_state(value_hash(exprs[i]@), 0), exprs, snap),
{
    reveal(is_seed);
    assert(seeded_by(eval_state(value_hash(exprs[i]@), 0), exprs[i]@, snap));
}

/// The evaluation of the body of a rule that a top-level call can dispatch
/// to is a seed.
proof fn lemma_body_seed(exprs: Seq<MettaValue>, i: int, r: int, snap: EnvironmentSnapshot)
    requires
        0 <= i < exprs.len(),
        call_key(exprs[i]@) is Some,
        0 <= r < snap.candidates(call_key(exprs[i]@)->Some_0).len(),
    ensures
        is_seed(eval_state(snap.candidates(call_key(exprs[i]@)->Some_0)[r].rhs_hash, 1), exprs, snap),
{
    reveal(is_seed);
    assert(seeded_by(eval_state(snap.candidates(call_key(exprs[i]@)->Some_0)[r].rhs_hash, 1), exprs[i]@, snap));
}

/// No state is found from the seeds before any is found.
proof fn lemma_found_empty(exprs: Seq<MettaValue>, snap: EnvironmentSnapshot)
    ensures
        found_from(Seq::empty(), exprs, snap),
        bodies_found(Seq::empty(), exprs, 0, snap),
{
    reveal(found_from);
    reveal(bodies_found);
}

/// The rule bodies of one more expression found.
proof fn lemma_bodies_found_next(seen: Seq<(ControlModel, KontModel)>, exprs: Seq<MettaValue>, e: int, snap: EnvironmentSnapshot)
    requires
        0 <= e < exprs.len(),
        bodies_found(seen, exprs, e, snap),
        call_key(exprs[e]@) is Some ==> forall|r: int| 0 <= r < snap.candidates(call_key(exprs[e]@)->Some_0).len()
            ==> seen.contains(eval_state(#[trigger] snap.candidates(call_key(exprs[e]@)->Some_0)[r].rhs_hash, 1)),
    ensures
        bodies_found(seen, exprs, e + 1, snap),
{
    reveal(bodies_found);
}

/// Every seed is found when the evaluation of each top-level expression
/// and all the rule bodies are.
proof fn lemma_seeds_found(seen: Seq<(ControlModel, KontModel)>, exprs: Seq<MettaValue>, snap: EnvironmentSnapshot)
    requires
        forall|i: int| 0 <= i < exprs.len() ==> seen.contains(eval_state(value_hash(#[trigger] exprs[i]@), 0)),
        bodies_found(seen, exprs, exprs.len() as int, snap),
    ensures
        forall|x: (ControlModel, KontModel)| #[trigger] is_seed(x, exprs, snap) ==> seen.contains(x),
{
    reveal(is_seed);
    reveal(bodies_found);
    assert forall|x: (ControlModel, KontModel)| #[trigger] is_seed(x, exprs, snap) implies seen.contains(x) by {
        let i = choose|i: int| 0 <= i < exprs.len() && seeded_by(x, exprs[i]@, snap);
        if x != eval_state(value_hash(exprs[i]@), 0) {
            let r = choose|r: int|
                0 <= r < snap.candidates(call_key(exprs[i]@)->Some_0).len() && x == eval_state(
                    snap.candidates(call_key(exprs[i]@)->Some_0)[r].rhs_hash,
                    1,
                );
            assert(seen.contains(eval_state(snap.candidates(call_key(exprs[i]@)->Some_0)[r].rhs_hash, 1)));
        } else {
            assert(seen.contains(eval_state(value_hash(exprs[i]@), 0)));
        }
    }
}

/// Whether a set of states holds every successor of each of its states.
pub open spec fn closed_under_steps(t: Set<(ControlModel, KontModel)>, snap: EnvironmentSnapshot) -> bool {
    forall|x: (ControlModel, KontModel), j: int|
        #![trigger t.contains(x), step_successors(x, snap@, snap.groups())[j]]
        t.contains(x) && 0 <= j < step_successors(x, snap@, snap.groups()).len() ==> t.contains(
            step_successors(x, snap@, snap.groups())[j],
        )
}

/// States found from the seeds lie in every set that holds the seeds and
/// every successor of its states; with the run's guarantees that the seeds
/// are found and, at convergence, every successor of a found state is
/// found, the states found are then exactly the least such set.
pub proof fn lemma_found_within_closed(
    seen: Seq<(ControlModel, KontModel)>,
    exprs: Seq<MettaValue>,
    snap: EnvironmentSnapshot,
    t: Set<(ControlModel, KontModel)>,
)
    requires
        found_from(seen, exprs, snap),
        forall|x: (ControlModel, KontModel)| #[trigger] is_seed(x, exprs, snap) ==> t.contains(x),
        closed_under_steps(t, snap),
    ensures
        forall|k: int| 0 <= k < seen.len() ==> t.contains(#[trigger] seen[k]),
{
    lemma_found_within_upto(seen, exprs, snap, t, seen.len());
}

/// The first `n` states found lie in every closed set that holds the seeds.
proof fn lemma_found_within_upto(
    seen: Seq<(ControlModel, KontModel)>,
    exprs: Seq<MettaValue>,
    snap: EnvironmentSnapshot,
    t: Set<(ControlModel, KontModel)>,
    n: nat,
)
    requires
        n <= seen.len(),
        found_from(seen, exprs, snap),
        forall|x: (ControlModel, KontModel)| #[trigger] is_seed(x, exprs, snap) ==> t.contains(x),
        closed_under_steps(t, snap),
    ensures
        forall|k: int| 0 <= k < n ==> t.contains(#[trigger] seen[k]),
    decreases n,
{
    if n > 0 {
        lemma_found_within_upto(seen, exprs, snap, t, (n - 1) as nat);
        let m = n - 1;
        reveal(found_from);
        assert(is_seed(seen[m], exprs, snap) || succeeds_earlier(seen, m, snap));
        if !is_seed(seen[m], exprs, snap) {
            let (i, j) = choose|i: int, j: int|
                0 <= i < m && 0 <= j < step_successors(seen[i], snap@, snap.groups()).len() && seen[m]
                    == step_successors(seen[i], snap@, snap.groups())[j];
            assert(t.contains(seen[i]));
            assert(t.contains(step_successors(seen[i], snap@, snap.groups())[j]));
        }
    }
}

/// The models of states that extend others extend their models.
proof fn lemma_models_extend(before: Seq<AbstractState>, after: Seq<AbstractState>)
    requires
        after.len() >= before.len(),
        forall|i: int| 0 <= i < before.len() ==> after[i] == before[i],
    ensures
        state_models(after).len() >= state_models(before).len(),
        forall|i: int| 0 <= i < state_models(before).len() ==> state_models(after)[i] == state_models(before)[i],
{
}

/// Record the rules that a call with hash `hash` can dispatch to: their
/// indices, whether there is exactly one, whether all are pure, and their
/// body types added to those recorded before; the visit is counted.
fn record_call_fact(facts: &mut HashMap<u64, ExprFact>, hash: u64, candidates: &[AbstractRule])
    requires
        facts_wf(old(facts)@),
    ensures
        facts_wf(final(facts)@),
        final(facts)@.remove(hash) == old(facts)@.remove(hash),
        final(facts)@.contains_key(hash),
        ({
            let c = rule_models(candidates@);
            let f = final(facts)@[hash];
            &&& fact_rules(f.reachable_rules) == indices_of_rules(c)
            &&& f.is_deterministic == Some(c.len() == 1)
            &&& f.is_pure == Some(rules_all_pure(c))
            &&& f.result_types@ == (if old(facts)@.contains_key(hash) {
                old(facts)@[hash].result_types@
            } else {
                Set::<AbstractType>::empty()
            }).union(types_of_rules(c))
        }),
{
    let ghost c = rule_models(candidates@);
    let mut indices: Vec<u32> = Vec::new();
    let mut all_pure = true;
    let mut k: usize = 0;
    while k < candidates.len()
        invariant
            k <= candidates@.len(),
            c == rule_models(candidates@),
            indices@.len() == k,
            forall|q: int| 0 <= q < k ==> indices@[q] == #[trigger] c[q].rule_index,
            all_pure == forall|q: int| 0 <= q < k ==> #[trigger] c[q].is_pure,
        decreases candidates.len() - k,
    {
        assert(c[k as int] == candidates@[k as int]@);
        let ghost was = all_pure;
        indices.push(candidates[k].rule_index);
        all_pure = all_pure && candidates[k].is_pure;
        proof {
            assert(all_pure == forall|q: int| 0 <= q < k + 1 ==> #[trigger] c[q].is_pure) by {
                if all_pure {
                    assert forall|q: int| 0 <= q < k + 1 implies #[trigger] c[q].is_pure by {
                        if q < k {
                            assert(was);
                        }
                    }
                } else if was {
                    assert(!c[k as int].is_pure);
                }
            }
        }
        k = k + 1;
    }
    assert(c.len() == candidates@.len());
    assert(all_pure == rules_all_pure(c));
    assert(indices@ =~= indices_of_rules(c));
    let ghost base = if facts@.contains_key(hash) {
        facts@[hash].result_types@
    } else {
        Set::<AbstractType>::empty()
    };
    let ghost f0 = facts@;
    let mut fact = take_fact(facts, hash);
    fact.reachable_rules = FactRules::from_slice(indices.as_slice());
    fact.is_deterministic = Some(indices.len() == 1);
    fact.is_pure = Some(all_pure);
    fact.visit_count = fact.visit_count.wrapping_add(1);
    let mut q: usize = 0;
    proof {
        assert(types_upto(c, 0) =~= Set::<AbstractType>::empty());
        assert(fact.result_types@ =~= base.union(types_upto(c, 0)));
    }
    while q < candidates.len()
        invariant
            q <= candidates@.len(),
            c == rule_models(candidates@),
            fact.result_types.wf(),
            fact.result_types@ == base.union(types_upto(c, q as int)),
            fact_rules(fact.reachable_rules) == indices_of_rules(c),
            fact.is_deterministic == Some(c.len() == 1),
            fact.is_pure == Some(rules_all_pure(c)),
        decreases candidates.len() - q,
    {
        proof {
            lemma_types_upto_next(c, q as int);
            assert(c[q as int] == candidates@[q as int]@);
        }
        match candidates[q].rhs_type {
            Some(t) => {
                fact.result_types.insert(t);
                assert(fact.result_types@ =~= base.union(types_upto(c, q + 1)));
            },
            None => {},
        }
        q = q + 1;
    }
    assert(fact.result_types@ == base.union(types_of_rules(c)));
    facts.insert(hash, fact);
    proof {
        assert(facts@.remove(hash) =~= f0.remove(hash));
    }
}

/// Run the analysis from the given top-level expressions: each is injected
/// into the store and queued for evaluation, together with the bodies of
/// the rules it can dispatch to; then states are stepped in the order they
/// were found until none is left, `max_iterations` states were stepped, or
/// `max_states` were found.
pub fn run_analysis(
    initial_exprs: &[MettaValue],
    env_snapshot: &EnvironmentSnapshot,
    config: &AnalysisConfig,
) -> (r: AnalysisResult)
    requires
        env_snapshot.wf(),
    ensures
        r.store.wf(),
        r.iterations <= config.max_iterations,
        forall|i: int| 0 <= i < r.reachable_states@.len() ==> (#[trigger] r.reachable_states@[i]).wf(),
        state_models(r.reachable_states@).no_duplicates(),
        forall|i: int| 0 <= i < initial_exprs@.len() ==> state_models(r.reachable_states@).contains(
            eval_state(value_hash(#[trigger] initial_exprs@[i]@), 0),
        ),
        facts_wf(r.expr_facts@),
        facts_cover_calls(r.expr_facts@, initial_exprs@, initial_exprs@.len() as int, *env_snapshot),
        r.analysis_time_ms == 0,
        forall|i: int| 0 <= i < initial_exprs@.len() ==> covers(
            stored_at(r.store@, (value_hash(#[trigger] initial_exprs@[i]@), Seq::<u64>::empty())),
            alpha_of(initial_exprs@[i]@),
        ),
        !r.converged ==> r.iterations >= config.max_iterations || r.reachable_states@.len() >= config.max_states,
        r.converged && r.iterations < config.max_iterations && r.reachable_states@.len() < config.max_states
            ==> r.iterations == r.reachable_states@.len(),
        r.converged && r.iterations < config.max_iterations && r.reachable_states@.len() < config.max_states
            ==> closed_upto(
            state_models(r.reachable_states@),
            r.reachable_states@.len() as int,
            env_snapshot@,
            env_snapshot.groups(),
        ),
        forall|x: (ControlModel, KontModel)| #[trigger] is_seed(x, initial_exprs@, *env_snapshot) ==> state_models(
            r.reachable_states@,
        ).contains(x),
        found_from(state_models(r.reachable_states@), initial_exprs@, *env_snapshot),
        facts_describe_calls(r.expr_facts@, initial_exprs@, initial_exprs@.len() as int, *env_snapshot),
        facts_reached(r.expr_facts@, state_models(r.reachable_states@)),
        r.iterations <= r.reachable_states@.len(),
        initial_exprs@.len() == 0 ==> r.reachable_states@.len() == 0 && r.iterations == 0 && r.converged
            && r.expr_facts@ == Map::<u64, ExprFact>::empty(),
{
    let ghost snap = env_snapshot@;
    let ghost gs = env_snapshot.groups();
    let mut worklist = Worklist::new();
    proof {
        lemma_found_empty(initial_exprs@, *env_snapshot);
        assert(state_models(worklist.seen@) =~= Seq::<(ControlModel, KontModel)>::empty());
    }
    let mut store = AbstractStore::new();
    let mut expr_facts: HashMap<u64, ExprFact> = HashMap::new();
    let mut iterations: u32 = 0;
    let mut e: usize = 0;
    while e < initial_exprs.len()
        invariant
            e <= initial_exprs@.len(),
            env_snapshot.wf(),
            worklist.wf(),
            store.wf(),
            facts_wf(expr_facts@),
            worklist.taken() == 0,
            forall|i: int| 0 <= i < e ==> state_models(worklist.seen@).contains(
                eval_state(value_hash(#[trigger] initial_exprs@[i]@), 0),
            ),
            forall|i: int| 0 <= i < e ==> covers(
                stored_at(store@, (value_hash(#[trigger] initial_exprs@[i]@), Seq::<u64>::empty())),
                alpha_of(initial_exprs@[i]@),
            ),
            facts_cover_calls(expr_facts@, initial_exprs@, e as int, *env_snapshot),
            facts_describe_calls(expr_facts@, initial_exprs@, e as int, *env_snapshot),
            facts_from_calls(expr_facts@, initial_exprs@, e as int, *env_snapshot),
            facts_reached(expr_facts@, state_models(worklist.seen@)),
            found_from(state_models(worklist.seen@), initial_exprs@, *env_snapshot),
            bodies_found(state_models(worklist.seen@), initial_exprs@, e as int, *env_snapshot),
        decreases initial_exprs.len() - e,
    {
        let expr = &initial_exprs[e];
        let hash = hash_metta_value(expr);
        let ghost store_before = store@;
        let abstract_val = alpha(expr);
        let ghost av = abstract_val@;
        store.allocate(AbstractAddr::mono(hash), abstract_val);
        proof {
            let a = (hash, Seq::<u64>::empty());
            assert forall|i: int| 0 <= i < e + 1 implies covers(
                stored_at(store@, (value_hash(#[trigger] initial_exprs@[i]@), Seq::<u64>::empty())),
                alpha_of(initial_exprs@[i]@),
            ) by {
                lemma_covers_after_alloc(
                    store_before,
                    a,
                    av,
                    (value_hash(initial_exprs@[i]@), Seq::<u64>::empty()),
                    alpha_of(initial_exprs@[i]@),
                );
            }
        }
        let ghost seen_before = worklist.seen@;
        let pushed = worklist.push(new_eval_state(hash, 0));
        proof {
            let x = eval_state(hash, 0);
            lemma_eval_seed(initial_exprs@, e as int, *env_snapshot);
            if pushed {
                lemma_found_push_seed(state_models(seen_before), x, initial_exprs@, *env_snapshot);
            }
            lemma_models_extend(seen_before, worklist.seen@);
            lemma_bodies_found_extend(state_models(seen_before), state_models(worklist.seen@), initial_exprs@, e as int, *env_snapshot);
            lemma_reached_extend(expr_facts@, state_models(seen_before), state_models(worklist.seen@));
            assert(state_models(worklist.seen@).contains(eval_state(hash, 0)));
            assert forall|i: int| 0 <= i < e implies state_models(worklist.seen@).contains(
                eval_state(value_hash(#[trigger] initial_exprs@[i]@), 0),
            ) by {
                let x = eval_state(value_hash(initial_exprs@[i]@), 0);
                let k = choose|k: int| 0 <= k < state_models(seen_before).len() && state_models(seen_before)[k] == x;
                assert(state_models(worklist.seen@)[k] == x);
            }
        }
        let ghost facts_before = expr_facts@;
        let head_and_arity: Option<(&str, usize)> = match expr {
            MettaValue::SExpr(items) => {
                proof {
                    lemma_sexpr_view(expr, items);
                    if items.len() > 0 {
                        assert(crate::value::seq_view(items@)[0] == items@[0]@);
                    }
                }
                if items.len() > 0 {
                    match &items[0] {
                        MettaValue::Atom(head) => Some((head.as_str(), items.len())),
                        _ => None,
                    }
                } else {
                    None
                }
            },
            _ => None,
        };
        assert(match head_and_arity {
            Some(k) => call_key(expr@) == Some((k.0@, k.1)),
            None => call_key(expr@) is None,
        });
        match head_and_arity {
            Some((head, arity)) => {
                let candidates = env_snapshot.get_candidates(head, arity);
                assert(rule_models(candidates@).len() == candidates@.len());
                if candidates.len() > 0 {
                    record_call_fact(&mut expr_facts, hash, candidates);
                    proof {
                        assert(facts_before.dom().subset_of(expr_facts@.dom())) by {
                            assert forall|g: u64| facts_before.contains_key(g) implies expr_facts@.contains_key(g) by {
                                if g != hash {
                                    assert(facts_before.remove(hash).contains_key(g));
                                }
                            }
                        }
                        lemma_cover_grows(facts_before, expr_facts@, initial_exprs@, e as int, *env_snapshot);
                        assert(facts_cover_calls(expr_facts@, initial_exprs@, e + 1, *env_snapshot)) by {
                            assert forall|i: int|
                                0 <= i < e + 1 && call_key(#[trigger] initial_exprs@[i]@) is Some
                                    && env_snapshot.candidates(call_key(initial_exprs@[i]@)->Some_0).len() > 0
                                implies expr_facts@.contains_key(value_hash(initial_exprs@[i]@)) by {
                                if i < e {
                                    assert(facts_cover_calls(expr_facts@, initial_exprs@, e as int, *env_snapshot));
                                }
                            }
                        }
                        lemma_describe_step(facts_before, expr_facts@, initial_exprs@, e as int, *env_snapshot);
                        lemma_reached_insert(
                            expr_facts@,
                            state_models(worklist.seen@),
                            hash,
                            expr_facts@[hash],
                            eval_state(hash, 0),
                        );
                        assert(expr_facts@.insert(hash, expr_facts@[hash]) =~= expr_facts@);
                        assert(facts_reached(expr_facts@.remove(hash), state_models(worklist.seen@))) by {
                            assert forall|g: u64| #[trigger] expr_facts@.remove(hash).contains_key(g) implies exists|k: int|
                                0 <= k < state_models(worklist.seen@).len() && eval_hash(state_models(worklist.seen@)[k]) == Some(g) by {
                                assert(facts_before.contains_key(g));
                            }
                        }
                    }
                    let mut c: usize = 0;
                    while c < candidates.len()
                        invariant
                            c <= candidates@.len(),
                            worklist.wf(),
                            facts_wf(expr_facts@),
                            worklist.taken() == 0,
                            forall|i: int| 0 <= i < e + 1 ==> state_models(worklist.seen@).contains(
                                eval_state(value_hash(#[trigger] initial_exprs@[i]@), 0),
                            ),
                            forall|i: int| 0 <= i < e + 1 ==> covers(
                                stored_at(store@, (value_hash(#[trigger] initial_exprs@[i]@), Seq::<u64>::empty())),
                                alpha_of(initial_exprs@[i]@),
                            ),
                            facts_cover_calls(expr_facts@, initial_exprs@, e + 1, *env_snapshot),
                            facts_describe_calls(expr_facts@, initial_exprs@, e + 1, *env_snapshot),
                            facts_from_calls(expr_facts@, initial_exprs@, e + 1, *env_snapshot),
                            facts_reached(expr_facts@, state_models(worklist.seen@)),
                            e < initial_exprs@.len(),
                            call_key(initial_exprs@[e as int]@) == Some((head@, arity)),
                            rule_models(candidates@) == env_snapshot.candidates((head@, arity)),
                            found_from(state_models(worklist.seen@), initial_exprs@, *env_snapshot),
                            bodies_found(state_models(worklist.seen@), initial_exprs@, e as int, *env_snapshot),
                            forall|q: int| 0 <= q < c ==> state_models(worklist.seen@).contains(
                                eval_state(#[trigger] candidates@[q].rhs_hash, 1),
                            ),
                        decreases candidates.len() - c,
                    {
                        let rule = &candidates[c];
                        let ghost before = worklist.seen@;
                        let pushed = worklist.push(new_eval_state(rule.rhs_hash, 1));
                        proof {
                            let x = eval_state(rule.rhs_hash, 1);
                            let key = (head@, arity);
                            assert(env_snapshot.candidates(key)[c as int] == candidates@[c as int]@);
                            lemma_body_seed(initial_exprs@, e as int, c as int, *env_snapshot);
                            if pushed {
                                lemma_found_push_seed(state_models(before), x, initial_exprs@, *env_snapshot);
                            }
                            lemma_models_extend(before, worklist.seen@);
                            lemma_bodies_found_extend(state_models(before), state_models(worklist.seen@), initial_exprs@, e as int, *env_snapshot);
                            assert forall|q: int| 0 <= q < c + 1 implies state_models(worklist.seen@).contains(
                                eval_state(#[trigger] candidates@[q].rhs_hash, 1),
                            ) by {
                                if q < c {
                                    lemma_extends_contains(state_models(before), state_models(worklist.seen@), eval_state(candidates@[q].rhs_hash, 1));
                                }
                            }
                            assert forall|i: int| 0 <= i < e + 1 implies state_models(worklist.seen@).contains(
                                eval_state(value_hash(#[trigger] initial_exprs@[i]@), 0),
                            ) by {
                                let x = eval_state(value_hash(initial_exprs@[i]@), 0);
                                let k = choose|k: int| 0 <= k < state_models(before).len() && state_models(before)[k] == x;
                                assert(state_models(worklist.seen@)[k] == x);
                            }
                        }
                        proof {
                            lemma_reached_extend(expr_facts@, state_models(before), state_models(worklist.seen@));
                        }
                        c = c + 1;
                    }
                    proof {
                        let key = (head@, arity);
                        assert forall|r: int| 0 <= r < env_snapshot.candidates(key).len() implies state_models(
                            worklist.seen@,
                        ).contains(eval_state(#[trigger] env_snapshot.candidates(key)[r].rhs_hash, 1)) by {
                            assert(env_snapshot.candidates(key)[r] == candidates@[r]@);
                            assert(state_models(worklist.seen@).contains(eval_state(candidates@[r].rhs_hash, 1)));
                        }
                        lemma_bodies_found_next(state_models(worklist.seen@), initial_exprs@, e as int, *env_snapshot);
                    }
                } else {
                    proof {
                        assert(env_snapshot.candidates((head@, arity)).len() == 0);
                        lemma_bodies_found_next(state_models(worklist.seen@), initial_exprs@, e as int, *env_snapshot);
                        lemma_describe_skip(expr_facts@, initial_exprs@, e as int, *env_snapshot);
                    }
                    assert(facts_cover_calls(expr_facts@, initial_exprs@, e + 1, *env_snapshot)) by {
                        assert forall|i: int|
                            0 <= i < e + 1 && call_key(#[trigger] initial_exprs@[i]@) is Some
                                && env_snapshot.candidates(call_key(initial_exprs@[i]@)->Some_0).len() > 0
                            implies expr_facts@.contains_key(value_hash(initial_exprs@[i]@)) by {
                            if i < e {
                                assert(facts_cover_calls(expr_facts@, initial_exprs@, e as int, *env_snapshot));
                            }
                        }
                    }
                }
            },
            None => {
                proof {
                    lemma_bodies_found_next(state_models(worklist.seen@), initial_exprs@, e as int, *env_snapshot);
                    lemma_describe_skip(expr_facts@, initial_exprs@, e as int, *env_snapshot);
                }
                assert(facts_cover_calls(expr_facts@, initial_exprs@, e + 1, *env_snapshot)) by {
                    assert forall|i: int|
                        0 <= i < e + 1 && call_key(#[trigger] initial_exprs@[i]@) is Some
                            && env_snapshot.candidates(call_key(initial_exprs@[i]@)->Some_0).len() > 0
                        implies expr_facts@.contains_key(value_hash(initial_exprs@[i]@)) by {
                        if i < e {
                            assert(facts_cover_calls(expr_facts@, initial_exprs@, e as int, *env_snapshot));
                        }
                    }
                }
            },
        }
        e = e + 1;
    }
    let ghost mut processed: int = 0;
    loop
        invariant_except_break
            processed == worklist.taken(),
        invariant
            env_snapshot.wf(),
            snap == env_snapshot@,
            gs == env_snapshot.groups(),
            worklist.wf(),
            store.wf(),
            facts_wf(expr_facts@),
            iterations <= config.max_iterations,
            0 <= processed <= worklist.taken(),
            closed_upto(state_models(worklist.seen@), processed, snap, gs),
            forall|i: int| 0 <= i < initial_exprs@.len() ==> state_models(worklist.seen@).contains(
                eval_state(value_hash(#[trigger] initial_exprs@[i]@), 0),
            ),
            forall|i: int| 0 <= i < initial_exprs@.len() ==> covers(
                stored_at(store@, (value_hash(#[trigger] initial_exprs@[i]@), Seq::<u64>::empty())),
                alpha_of(initial_exprs@[i]@),
            ),
            iterations == processed,
            facts_cover_calls(expr_facts@, initial_exprs@, initial_exprs@.len() as int, *env_snapshot),
            facts_describe_calls(expr_facts@, initial_exprs@, initial_exprs@.len() as int, *env_snapshot),
            facts_reached(expr_facts@, state_models(worklist.seen@)),
            found_from(state_models(worklist.seen@), initial_exprs@, *env_snapshot),
            bodies_found(state_models(worklist.seen@), initial_exprs@, initial_exprs@.len() as int, *env_snapshot),
        ensures
            (worklist.queue@.len() == 0 && processed == worklist.taken()) || iterations >= config.max_iterations
                || worklist.seen@.len() >= config.max_states,
        decreases config.max_iterations - iterations,
    {
        let state = match worklist.pop() {
            Some(s) => s,
            None => {
                break;
            },
        };
        if iterations >= config.max_iterations || worklist.seen_count() >= config.max_states {
            break;
        }
        iterations = iterations + 1;
        let ghost store_before = store@;
        let (successor_list, _store_changed) = abstract_step(&state, &mut store, env_snapshot, config);
        proof {
            assert forall|i: int| 0 <= i < initial_exprs@.len() implies covers(
                stored_at(store@, (value_hash(#[trigger] initial_exprs@[i]@), Seq::<u64>::empty())),
                alpha_of(initial_exprs@[i]@),
            ) by {
                lemma_store_after_keeps_covers(
                    store_before,
                    crate::analysis::abstract_transition::step_hits(state@, gs),
                    (value_hash(initial_exprs@[i]@), Seq::<u64>::empty()),
                    alpha_of(initial_exprs@[i]@),
                );
            }
        }
        let successors = successor_list.into_vec();
        let ghost seen_mid = worklist.seen@;
        let ghost succ = step_successors(state@, snap, gs);
        assert(state_models(successors@) == succ);
        let mut k: usize = 0;
        while k < successors.len()
            invariant
                k <= successors@.len(),
                state_models(successors@) == succ,
                forall|i: int| 0 <= i < successors@.len() ==> (#[trigger] successors@[i]).wf(),
                worklist.wf(),
                facts_wf(expr_facts@),
                worklist.taken() == processed + 1,
                facts_cover_calls(expr_facts@, initial_exprs@, initial_exprs@.len() as int, *env_snapshot),
                facts_describe_calls(expr_facts@, initial_exprs@, initial_exprs@.len() as int, *env_snapshot),
                facts_reached(expr_facts@, state_models(worklist.seen@)),
                worklist.seen@.len() >= seen_mid.len(),
                forall|i: int| 0 <= i < seen_mid.len() ==> worklist.seen@[i] == seen_mid[i],
                forall|j: int| 0 <= j < k ==> state_models(worklist.seen@).contains(#[trigger] succ[j]),
                snap == env_snapshot@,
                gs == env_snapshot.groups(),
                succ == step_successors(state@, snap, gs),
                0 <= processed < seen_mid.len(),
                state_models(seen_mid)[processed] == state@,
                found_from(state_models(worklist.seen@), initial_exprs@, *env_snapshot),
                bodies_found(state_models(worklist.seen@), initial_exprs@, initial_exprs@.len() as int, *env_snapshot),
            decreases successors.len() - k,
        {
            let next = successors[k].clone();
            let ghost facts_mid = expr_facts@;
            let ghost mut visited: Option<u64> = None;
            match &next.control {
                AbstractControl::Eval { expr_hash, .. } => {
                    let h = *expr_hash;
                    let mut fact = take_fact(&mut expr_facts, h);
                    fact.visit_count = fact.visit_count.wrapping_add(1);
                    expr_facts.insert(h, fact);
                    proof {
                        lemma_cover_grows(facts_mid, expr_facts@, initial_exprs@, initial_exprs@.len() as int, *env_snapshot);
                        assert(expr_facts@.remove(h) =~= facts_mid.remove(h));
                        lemma_describe_visit(facts_mid, expr_facts@, h, initial_exprs@, *env_snapshot);
                        visited = Some(h);
                    }
                },
                _ => {},
            }
            let ghost before = worklist.seen@;
            let ghost x = next@;
            let pushed = worklist.push(next);
            proof {
                lemma_models_extend(before, worklist.seen@);
                lemma_reached_extend(facts_mid, state_models(before), state_models(worklist.seen@));
                match visited {
                    Some(h) => {
                        assert(eval_hash(x) == Some(h));
                        lemma_reached_sub(facts_mid, expr_facts@.remove(h), state_models(worklist.seen@));
                        lemma_reached_insert(expr_facts@, state_models(worklist.seen@), h, expr_facts@[h], x);
                        assert(expr_facts@.insert(h, expr_facts@[h]) =~= expr_facts@);
                    },
                    None => {
                        assert(expr_facts@ == facts_mid);
                    },
                }
            }
            proof {
                assert(state_models(successors@)[k as int] == succ[k as int]);
                lemma_models_extend(seen_mid, before);
                if pushed {
                    lemma_found_push_successor(state_models(before), x, processed, k as int, initial_exprs@, *env_snapshot);
                }
                lemma_models_extend(before, worklist.seen@);
                lemma_bodies_found_extend(
                    state_models(before),
                    state_models(worklist.seen@),
                    initial_exprs@,
                    initial_exprs@.len() as int,
                    *env_snapshot,
                );
                assert forall|j: int| 0 <= j < k + 1 implies state_models(worklist.seen@).contains(#[trigger] succ[j]) by {
                    if j < k {
                        let x = succ[j];
                        let m = choose|m: int| 0 <= m < state_models(before).len() && state_models(before)[m] == x;
                        assert(state_models(worklist.seen@)[m] == x);
                    }
                }
            }
            k = k + 1;
        }
        proof {
            let sm = state_models(worklist.seen@);
            let smid = state_models(seen_mid);
            assert(sm[processed] == state@);
            assert forall|i: int, j: int|
                #![trigger step_successors(sm[i], snap, gs)[j]]
                0 <= i < processed + 1 && 0 <= j < step_successors(sm[i], snap, gs).len() implies sm.contains(
                step_successors(sm[i], snap, gs)[j],
            ) by {
                if i < processed {
                    assert(sm[i] == smid[i]);
                    let x = step_successors(smid[i], snap, gs)[j];
                    assert(smid.contains(x));
                    let m = choose|m: int| 0 <= m < smid.len() && smid[m] == x;
                    assert(sm[m] == x);
                } else {
                    assert(succ[j] == step_successors(sm[i], snap, gs)[j]);
                }
            }
            assert forall|i: int| 0 <= i < initial_exprs@.len() implies state_models(worklist.seen@).contains(
                eval_state(value_hash(#[trigger] initial_exprs@[i]@), 0),
            ) by {
                let x = eval_state(value_hash(initial_exprs@[i]@), 0);
                let m = choose|m: int| 0 <= m < smid.len() && smid[m] == x;
                assert(sm[m] == x);
            }
            processed = processed + 1;
        }
    }
    proof {
        lemma_seeds_found(state_models(worklist.seen@), initial_exprs@, *env_snapshot);
        if initial_exprs@.len() == 0 {
            lemma_nothing_found(state_models(worklist.seen@), initial_exprs@, *env_snapshot);
            assert(expr_facts@ =~= Map::<u64, ExprFact>::empty()) by {
                assert forall|h: u64| !expr_facts@.contains_key(h) by {
                    if expr_facts@.contains_key(h) {
                        let k = choose|k: int|
                            0 <= k < state_models(worklist.seen@).len() && eval_hash(state_models(worklist.seen@)[k]) == Some(h);
                    }
                }
            }
        }
    }
    let converged = worklist.is_empty();
    AnalysisResult {
        reachable_states: worklist.seen,
        store,
        expr_facts,
        iterations,
        converged,
        analysis_time_ms: 0,
    }
}

} // verus!
