//! Module-level dead-code elimination: a module all of whose rules are dead
//! can be dropped whole.

use std::collections::HashSet;

use vstd::prelude::*;
use vstd::string::StringExecFns;

use crate::analysis::assoc::{assoc, lemma_assoc_at, lemma_assoc_empty, lemma_assoc_len, lemma_assoc_push, lemma_assoc_update};
use crate::text::str_eq;

verus! {

broadcast use vstd::std_specs::hash::group_hash_axioms;

/// The models of a sequence of names.
pub open spec fn texts(names: Seq<String>) -> Seq<Seq<char>> {
    names.map_values(|s: String| s@)
}

/// A set of module names.
#[derive(Debug, Clone)]
pub struct NameSet {
    names: Vec<String>,
}

impl NameSet {
    /// The names, in insertion order.
    pub closed spec fn seq(&self) -> Seq<Seq<char>> {
        texts(self.names@)
    }

    /// The set of names.
    pub open spec fn view(&self) -> Set<Seq<char>> {
        self.seq().to_set()
    }

    /// No name is held twice.
    pub open spec fn wf(&self) -> bool {
        self.seq().no_duplicates()
    }

    /// An empty set.
    pub fn new() -> (r: Self)
        ensures
            r.wf(),
            r.seq() == Seq::<Seq<char>>::empty(),
            r@ == Set::<Seq<char>>::empty(),
    {
        let r = NameSet { names: Vec::new() };
        assert(r.seq() =~= Seq::<Seq<char>>::empty());
        assert(r@ =~= Set::<Seq<char>>::empty());
        r
    }

    /// Add a name that is not there yet.
    fn push_new(&mut self, name: String)
        requires
            old(self).wf(),
            !old(self)@.contains(name@),
        ensures
            final(self).wf(),
            final(self).seq() == old(self).seq().push(name@),
            final(self)@ == old(self)@.insert(name@),
    {
        let ghost before = self.seq();
        let ghost n = name@;
        self.names.push(name);
        assert(self.seq() =~= before.push(n));
        proof {
            before.lemma_push_to_set_commute(n);
            assert forall|x: int, y: int| 0 <= x < y < before.len() + 1 implies self.seq()[x] != self.seq()[y] by {
                if y == before.len() {
                    assert(before.contains(self.seq()[x]));
                }
            }
        }
    }

    /// Whether `name` is in the set.
    pub fn contains(&self, name: &str) -> (r: bool)
        ensures
            r == self@.contains(name@),
    {
        let mut i: usize = 0;
        while i < self.names.len()
            invariant
                i <= self.names@.len(),
                forall|k: int| 0 <= k < i ==> self.seq()[k] != name@,
            decreases self.names.len() - i,
        {
            if str_eq(self.names[i].as_str(), name) {
                assert(self.seq()[i as int] == name@);
                return true;
            }
            i = i + 1;
        }
        false
    }

    /// The number of names.
    pub fn len(&self) -> (r: usize)
        requires
            self.wf(),
        ensures
            r == self@.len(),
    {
        proof {
            self.seq().unique_seq_to_set();
        }
        self.names.len()
    }

    /// Whether the set is empty.
    pub fn is_empty(&self) -> (r: bool)
        requires
            self.wf(),
        ensures
            r == self@.is_empty(),
    {
        proof {
            self.seq().unique_seq_to_set();
        }
        self.names.len() == 0
    }
}

/// The rule indices kept once each, first occurrence first.
fn distinct_rules(rules: Vec<u32>) -> (r: Vec<u32>)
    ensures
        r@.no_duplicates(),
        r@.to_set() == rules@.to_set(),
{
    let mut out: Vec<u32> = Vec::new();
    let mut i: usize = 0;
    while i < rules.len()
        invariant
            i <= rules@.len(),
            out@.no_duplicates(),
            out@.to_set() == rules@.take(i as int).to_set(),
        decreases rules.len() - i,
    {
        let x = rules[i];
        let mut found = false;
        let mut j: usize = 0;
        while j < out.len()
            invariant
                j <= out@.len(),
                found == (exists|k: int| 0 <= k < j && out@[k] == x),
            decreases out.len() - j,
        {
            if out[j] == x {
                found = true;
            }
            j = j + 1;
        }
        proof {
            rules@.take(i as int).lemma_push_to_set_commute(x);
            assert(rules@.take(i + 1) =~= rules@.take(i as int).push(x));
        }
        if !found {
            let ghost before = out@;
            out.push(x);
            proof {
                before.lemma_push_to_set_commute(x);
                assert forall|a: int, b: int| 0 <= a < b < out@.len() implies out@[a] != out@[b] by {
                    if b == before.len() {
                        assert(before[a] == out@[a]);
                    }
                }
            }
        } else {
            assert(out@.to_set().contains(x));
            assert(out@.to_set() =~= out@.to_set().insert(x));
        }
        i = i + 1;
    }
    assert(rules@.take(rules@.len() as int) =~= rules@);
    out
}

/// A map from module names to sets of rule indices.
#[derive(Debug, Clone)]
pub struct RuleSetMap {
    entries: Vec<(String, Vec<u32>)>,
}

impl RuleSetMap {
    /// The module names, in insertion order.
    pub closed spec fn names(&self) -> Seq<Seq<char>> {
        self.entries@.map_values(|e: (String, Vec<u32>)| e.0@)
    }

    /// The rule sets, in insertion order.
    pub closed spec fn sets(&self) -> Seq<Set<u32>> {
        self.entries@.map_values(|e: (String, Vec<u32>)| e.1@.to_set())
    }

    /// The numbers of rules, in insertion order.
    pub closed spec fn sizes(&self) -> Seq<nat> {
        self.entries@.map_values(|e: (String, Vec<u32>)| e.1@.len())
    }

    /// The rule set of each module.
    pub open spec fn view(&self) -> Map<Seq<char>, Set<u32>> {
        assoc(self.names(), self.sets())
    }

    /// No module is held twice and no rule twice within a module.
    pub closed spec fn wf(&self) -> bool {
        &&& self.names().no_duplicates()
        &&& forall|i: int| 0 <= i < self.entries@.len() ==> (#[trigger] self.entries@[i]).1@.no_duplicates()
    }

    /// An empty map.
    pub fn new() -> (r: Self)
        ensures
            r.wf(),
            r@ == Map::<Seq<char>, Set<u32>>::empty(),
            r.sizes() == Seq::<nat>::empty(),
    {
        let r = RuleSetMap { entries: Vec::new() };
        assert(r.names() =~= Seq::<Seq<char>>::empty());
        assert(r.sets() =~= Seq::<Set<u32>>::empty());
        assert(r.sizes() =~= Seq::<nat>::empty());
        proof {
            lemma_assoc_empty::<Seq<char>, Set<u32>>();
        }
        r
    }

    /// The position of `name`, if held.
    fn find(&self, name: &str) -> (r: Option<usize>)
        ensures
            match r {
                Some(i) => i < self.entries@.len() && self.names()[i as int] == name@,
                None => !self.names().contains(name@),
            },
    {
        let mut i: usize = 0;
        while i < self.entries.len()
            invariant
                i <= self.entries@.len(),
                forall|k: int| 0 <= k < i ==> self.names()[k] != name@,
            decreases self.entries.len() - i,
        {
            if str_eq(self.entries[i].0.as_str(), name) {
                return Some(i);
            }
            i = i + 1;
        }
        None
    }

    /// Add a module that is not there yet, with rules held once each.
    fn push_new(&mut self, name: String, rules: Vec<u32>)
        requires
            old(self).wf(),
            !old(self)@.contains_key(name@),
            rules@.no_duplicates(),
        ensures
            final(self).wf(),
            final(self)@ == old(self)@.insert(name@, rules@.to_set()),
            final(self).sizes() == old(self).sizes().push(rules@.len()),
    {
        let ghost keys = self.names();
        let ghost vals = self.sets();
        let ghost sizes = self.sizes();
        let ghost n = name@;
        let ghost rs = rules@;
        self.entries.push((name, rules));
        proof {
            assert(self.names() =~= keys.push(n));
            assert(self.sets() =~= vals.push(rs.to_set()));
            assert(self.sizes() =~= sizes.push(rs.len()));
            lemma_assoc_push(keys, vals, n, rs.to_set());
            assert forall|i: int| 0 <= i < self.entries@.len() implies (#[trigger] self.entries@[i]).1@.no_duplicates() by {
                if i < old(self).entries@.len() {
                    assert(self.entries@[i] == old(self).entries@[i]);
                }
            }
        }
    }

    /// Set the rules of `name`, returning the rules it had before.
    pub fn insert(&mut self, name: String, rules: Vec<u32>) -> (r: Option<Vec<u32>>)
        requires
            old(self).wf(),
        ensures
            final(self).wf(),
            final(self)@ == old(self)@.insert(name@, rules@.to_set()),
            r is Some <==> old(self)@.contains_key(name@),
            r is Some ==> r->Some_0@.to_set() == old(self)@[name@],
    {
        let rules = distinct_rules(rules);
        match self.find(name.as_str()) {
            Some(i) => {
                let ghost keys = self.names();
                let ghost vals = self.sets();
                proof {
                    lemma_assoc_at(keys, vals, i as int);
                }
                let ghost rs = rules@;
                let (n, prev) = self.entries.remove(i);
                self.entries.insert(i, (n, rules));
                proof {
                    assert(self.names() =~= keys);
                    assert(self.sets() =~= vals.update(i as int, rs.to_set()));
                    lemma_assoc_update(keys, vals, i as int, rs.to_set());
                    assert forall|j: int| 0 <= j < self.entries@.len() implies (#[trigger] self.entries@[j]).1@.no_duplicates() by {
                        if j != i {
                            assert(self.entries@[j] == old(self).entries@[j]);
                        }
                    }
                }
                Some(prev)
            },
            None => {
                self.push_new(name, rules);
                None
            },
        }
    }

    /// Whether `name` is held.
    pub fn contains_key(&self, name: &str) -> (r: bool)
        requires
            self.wf(),
        ensures
            r == self@.contains_key(name@),
    {
        match self.find(name) {
            Some(i) => {
                proof {
                    lemma_assoc_at(self.names(), self.sets(), i as int);
                }
                true
            },
            None => false,
        }
    }

    /// The rules of `name`, each once, if held.
    pub fn get(&self, name: &str) -> (r: Option<&Vec<u32>>)
        requires
            self.wf(),
        ensures
            r is Some <==> self@.contains_key(name@),
            r is Some ==> r->Some_0@.to_set() == self@[name@] && r->Some_0@.no_duplicates(),
    {
        match self.find(name) {
            Some(i) => {
                proof {
                    lemma_assoc_at(self.names(), self.sets(), i as int);
                }
                assert(self.entries@[i as int].1@.no_duplicates());
                Some(&self.entries[i].1)
            },
            None => None,
        }
    }

    /// The number of modules.
    pub fn len(&self) -> (r: usize)
        requires
            self.wf(),
        ensures
            r == self@.len(),
    {
        proof {
            lemma_assoc_len(self.names(), self.sets());
        }
        self.entries.len()
    }

    /// Whether no module is held.
    pub fn is_empty(&self) -> (r: bool)
        requires
            self.wf(),
        ensures
            r == (self@.len() == 0),
    {
        proof {
            lemma_assoc_len(self.names(), self.sets());
        }
        self.entries.len() == 0
    }
}

/// A module is dead when it has rules and all of them are dead.
pub open spec fn module_dead(rules: Set<u32>, dead: Set<u32>) -> bool {
    !rules.is_empty() && rules.subset_of(dead)
}

/// A module is partially dead when some but not all of its rules are dead.
pub open spec fn module_partially_dead(rules: Set<u32>, dead: Set<u32>) -> bool {
    !module_dead(rules, dead) && !rules.intersect(dead).is_empty()
}

/// A module is live when none of its rules is dead.
pub open spec fn module_live(rules: Set<u32>, dead: Set<u32>) -> bool {
    rules.intersect(dead).is_empty()
}

/// Every module is exactly one of dead, partially dead and live.
pub proof fn lemma_module_classes_partition(rules: Set<u32>, dead: Set<u32>)
    ensures
        module_dead(rules, dead) || module_partially_dead(rules, dead) || module_live(rules, dead),
        !(module_dead(rules, dead) && module_partially_dead(rules, dead)),
        !(module_dead(rules, dead) && module_live(rules, dead)),
        !(module_partially_dead(rules, dead) && module_live(rules, dead)),
{
    if module_dead(rules, dead) {
        let x = rules.choose();
        assert(rules.contains(x));
        assert(rules.intersect(dead).contains(x));
    }
}

/// The sum of a sequence of counts.
pub open spec fn total(s: Seq<nat>) -> nat
    decreases s.len(),
{
    if s.len() == 0 {
        0
    } else {
        total(s.drop_last()) + s.last()
    }
}

/// A prefix of a sequence of counts sums to no more than the whole.
proof fn lemma_total_prefix(s: Seq<nat>, k: int)
    requires
        0 <= k <= s.len(),
    ensures
        total(s.take(k)) <= total(s),
        k == s.len() ==> s.take(k) == s,
    decreases s.len(),
{
    if k == s.len() {
        assert(s.take(k) =~= s);
    } else {
        lemma_total_prefix(s.drop_last(), k);
        assert(s.drop_last().take(k) =~= s.take(k));
    }
}

/// The modules of a program split by the liveness of their rules.
#[derive(Debug, Clone)]
pub struct ModuleReachability {
    /// The rules of each module.
    pub module_rules: RuleSetMap,
    /// Modules all of whose rules are dead.
    pub dead_modules: NameSet,
    /// Modules with some dead rules, with those rules.
    pub partially_dead_modules: RuleSetMap,
    /// Modules none of whose rules is dead.
    pub live_modules: NameSet,
}

impl ModuleReachability {
    /// The parts are well formed.
    pub open spec fn wf(&self) -> bool {
        &&& self.module_rules.wf()
        &&& self.dead_modules.wf()
        &&& self.partially_dead_modules.wf()
        &&& self.live_modules.wf()
    }

    /// The number of rules of each dead module (none where the module has no
    /// entry), in the order the dead modules were found.
    pub open spec fn dead_module_sizes(&self) -> Seq<nat> {
        self.dead_modules.seq().map_values(
            |n: Seq<char>|
                if self.module_rules@.contains_key(n) {
                    self.module_rules@[n].len()
                } else {
                    0nat
                },
        )
    }

    /// The rules that the dead modules hold and the dead rules of the
    /// partially dead modules, counted.
    pub open spec fn eliminable(&self) -> nat {
        total(self.dead_module_sizes()) + total(self.partially_dead_modules.sizes())
    }

    /// Total number of rules that can be eliminated.
    pub fn total_eliminable_rules(&self) -> (r: usize)
        requires
            self.wf(),
            self.eliminable() <= usize::MAX,
        ensures
            r == self.eliminable(),
    {
        let ghost ds = self.dead_module_sizes();
        let ghost ps = self.partially_dead_modules.sizes();
        proof {
            lemma_total_prefix(ds, ds.len() as int);
            lemma_total_prefix(ps, ps.len() as int);
        }
        let mut dead_sum: usize = 0;
        let mut i: usize = 0;
        while i < self.dead_modules.names.len()
            invariant
                i <= self.dead_modules.names@.len(),
                ds == self.dead_module_sizes(),
                ds.len() == self.dead_modules.names@.len(),
                self.module_rules.wf(),
                total(ds) + total(ps) <= usize::MAX,
                dead_sum == total(ds.take(i as int)),
            decreases self.dead_modules.names.len() - i,
        {
            let n = self.dead_modules.names[i].as_str();
            let size: usize = match self.module_rules.get(n) {
                Some(rules) => {
                    proof {
                        rules@.unique_seq_to_set();
                    }
                    rules.len()
                },
                None => 0,
            };
            proof {
                assert(ds[i as int] == size);
                assert(ds.take(i + 1).drop_last() =~= ds.take(i as int));
                lemma_total_prefix(ds, i + 1);
            }
            dead_sum = dead_sum + size;
            i = i + 1;
        }
        let mut partial_sum: usize = 0;
        let mut j: usize = 0;
        while j < self.partially_dead_modules.entries.len()
            invariant
                j <= self.partially_dead_modules.entries@.len(),
                ps == self.partially_dead_modules.sizes(),
                ds.take(i as int) == ds,
                dead_sum == total(ds),
                total(ds) + total(ps) <= usize::MAX,
                partial_sum == total(ps.take(j as int)),
            decreases self.partially_dead_modules.entries.len() - j,
        {
            let size = self.partially_dead_modules.entries[j].1.len();
            proof {
                assert(ps[j as int] == size);
                assert(ps.take(j + 1).drop_last() =~= ps.take(j as int));
                lemma_total_prefix(ps, j + 1);
            }
            partial_sum = partial_sum + size;
            j = j + 1;
        }
        proof {
            assert(ps.take(j as int) =~= ps);
        }
        dead_sum + partial_sum
    }

    /// Split the modules by how many of their rules are in `dead_rules`.
    pub fn compute(module_rules: RuleSetMap, dead_rules: &HashSet<u32>) -> (r: Self)
        requires
            module_rules.wf(),
        ensures
            r.wf(),
            r.module_rules@ == module_rules@,
            forall|n: Seq<char>| #[trigger] r.dead_modules@.contains(n)
                <==> module_rules@.contains_key(n) && module_dead(module_rules@[n], dead_rules@),
            forall|n: Seq<char>| #[trigger] r.partially_dead_modules@.contains_key(n)
                <==> module_rules@.contains_key(n) && module_partially_dead(module_rules@[n], dead_rules@),
            forall|n: Seq<char>| #[trigger] r.partially_dead_modules@.contains_key(n)
                ==> r.partially_dead_modules@[n] == module_rules@[n].intersect(dead_rules@),
            forall|n: Seq<char>| #[trigger] r.live_modules@.contains(n)
                <==> module_rules@.contains_key(n) && module_live(module_rules@[n], dead_rules@),
    {
        let mut dead_modules = NameSet::new();
        let mut partially = RuleSetMap::new();
        let mut live_modules = NameSet::new();
        let ghost names = module_rules.names();
        let ghost sets = module_rules.sets();
        let ghost dead = dead_rules@;
        let mut i: usize = 0;
        while i < module_rules.entries.len()
            invariant
                i <= module_rules.entries@.len(),
                module_rules.wf(),
                names == module_rules.names(),
                sets == module_rules.sets(),
                dead == dead_rules@,
                dead_modules.wf(),
                partially.wf(),
                live_modules.wf(),
                forall|n: Seq<char>| #[trigger] dead_modules@.contains(n)
                    <==> names.take(i as int).contains(n) && module_dead(module_rules@[n], dead),
                forall|n: Seq<char>| #[trigger] partially@.contains_key(n)
                    <==> names.take(i as int).contains(n) && module_partially_dead(module_rules@[n], dead),
                forall|n: Seq<char>| #[trigger] partially@.contains_key(n)
                    ==> partially@[n] == module_rules@[n].intersect(dead),
                forall|n: Seq<char>| #[trigger] live_modules@.contains(n)
                    <==> names.take(i as int).contains(n) && module_live(module_rules@[n], dead),
            decreases module_rules.entries.len() - i,
        {
            let rules = &module_rules.entries[i].1;
            let ghost rs = rules@;
            let mut dead_in: Vec<u32> = Vec::new();
            let mut all_dead = true;
            let mut j: usize = 0;
            while j < rules.len()
                invariant
                    j <= rules@.len(),
                    rules@ == rs,
                    rs.no_duplicates(),
                    dead == dead_rules@,
                    dead_in@.no_duplicates(),
                    dead_in@.to_set() == rs.take(j as int).to_set().intersect(dead),
                    forall|a: int| 0 <= a < dead_in@.len() ==> exists|b: int| 0 <= b < j && rs[b] == #[trigger] dead_in@[a],
                    all_dead == rs.take(j as int).to_set().subset_of(dead),
                decreases rules.len() - j,
            {
                let x = rules[j];
                proof {
                    assert(rs.take(j + 1) =~= rs.take(j as int).push(x));
                    rs.take(j as int).lemma_push_to_set_commute(x);
                }
                if dead_rules.contains(&x) {
                    let ghost before = dead_in@;
                    dead_in.push(x);
                    proof {
                        before.lemma_push_to_set_commute(x);
                        assert forall|a: int, b: int| 0 <= a < b < dead_in@.len() implies dead_in@[a] != dead_in@[b] by {
                            if b == before.len() {
                                let c = choose|c: int| 0 <= c < j && rs[c] == #[trigger] before[a];
                                assert(rs[c] == dead_in@[a]);
                                assert(rs[j as int] == x);
                            }
                        }
                        assert(dead_in@.to_set() =~= rs.take(j + 1).to_set().intersect(dead));
                        assert forall|a: int| 0 <= a < dead_in@.len() implies exists|b: int| 0 <= b < j + 1 && rs[b] == #[trigger] dead_in@[a] by {
                            if a == before.len() {
                                assert(rs[j as int] == dead_in@[a]);
                            } else {
                                let c = choose|c: int| 0 <= c < j && rs[c] == #[trigger] before[a];
                                assert(rs[c] == dead_in@[a]);
                            }
                        }
                    }
                } else {
                    all_dead = false;
                    proof {
                        assert(dead_in@.to_set() =~= rs.take(j + 1).to_set().intersect(dead));
                        assert(rs.take(j + 1).to_set().contains(x));
                    }
                }
                proof {
                    if all_dead {
                        assert forall|y: u32| rs.take(j + 1).to_set().contains(y) implies dead.contains(y) by {
                            if y != x {
                                assert(rs.take(j as int).to_set().contains(y));
                            }
                        }
                    }
                }
                j = j + 1;
            }
            proof {
                assert(rs.take(rs.len() as int) =~= rs);
                assert(module_rules.entries@[i as int].1@.no_duplicates());
                lemma_assoc_at(names, sets, i as int);
                rs.unique_seq_to_set();
                dead_in@.unique_seq_to_set();
                assert(!names.take(i as int).contains(names[i as int]));
                assert forall|k: int| 0 <= k < i + 1 implies names.take(i + 1)[k] == names.take(i as int).push(names[i as int])[k] by {}
                assert(names.take(i + 1) =~= names.take(i as int).push(names[i as int]));
            }
            let name = module_rules.entries[i].0.clone();
            let ghost nm = names[i as int];
            let ghost d_before = dead_modules@;
            let ghost p_before = partially@;
            let ghost l_before = live_modules@;
            assert(name@ == nm);
            proof {
                assert(module_rules@[nm] == rs.to_set());
                assert(rs.to_set().is_empty() <==> rs.len() == 0) by {
                    if rs.len() > 0 {
                        assert(rs.to_set().contains(rs[0]));
                    }
                }
                assert(dead_in@.to_set().is_empty() <==> dead_in@.len() == 0) by {
                    if dead_in@.len() > 0 {
                        assert(dead_in@.to_set().contains(dead_in@[0]));
                    }
                }
                assert(rs.to_set().intersect(dead) == dead_in@.to_set());
            }
            if all_dead && rules.len() > 0 {
                proof {
                    assert(!dead_modules@.contains(name@));
                }
                dead_modules.push_new(name);
            } else if dead_in.len() > 0 {
                proof {
                    assert(!partially@.contains_key(name@));
                }
                partially.push_new(name, dead_in);
            } else {
                proof {
                    assert(!live_modules@.contains(name@));
                }
                live_modules.push_new(name);
            }
            proof {
                assert forall|n: Seq<char>| #[trigger] names.take(i + 1).contains(n) <==> (names.take(i as int).contains(n) || n == nm) by {
                    if names.take(i + 1).contains(n) {
                        let k = choose|k: int| 0 <= k < i + 1 && #[trigger] names.take(i + 1)[k] == n;
                        if k < i {
                            assert(names.take(i as int)[k] == n);
                        }
                    }
                    if names.take(i as int).contains(n) {
                        let k = choose|k: int| 0 <= k < i && #[trigger] names.take(i as int)[k] == n;
                        assert(names.take(i + 1)[k] == n);
                    }
                    if n == nm {
                        assert(names.take(i + 1)[i as int] == n);
                    }
                }
                assert forall|n: Seq<char>| #[trigger] dead_modules@.contains(n)
                    <==> names.take(i + 1).contains(n) && module_dead(module_rules@[n], dead) by {
                    if n != nm {
                        assert(dead_modules@.contains(n) == d_before.contains(n));
                    }
                }
                assert forall|n: Seq<char>| #[trigger] partially@.contains_key(n)
                    <==> names.take(i + 1).contains(n) && module_partially_dead(module_rules@[n], dead) by {
                    if n != nm {
                        assert(partially@.contains_key(n) == p_before.contains_key(n));
                    }
                }
                assert forall|n: Seq<char>| #[trigger] partially@.contains_key(n)
                    implies partially@[n] == module_rules@[n].intersect(dead) by {
                    if n != nm {
                        assert(p_before.contains_key(n));
                    }
                }
                assert forall|n: Seq<char>| #[trigger] live_modules@.contains(n)
                    <==> names.take(i + 1).contains(n) && module_live(module_rules@[n], dead) by {
                    if n != nm {
                        assert(live_modules@.contains(n) == l_before.contains(n));
                    }
                }
            }
            i = i + 1;
        }
        proof {
            assert(names.take(names.len() as int) =~= names);
        }
        ModuleReachability {
            module_rules,
            dead_modules,
            partially_dead_modules: partially,
            live_modules,
        }
    }

    /// Whether `module` is dead.
    pub fn is_dead_module(&self, module: &str) -> (r: bool)
        ensures
            r == self.dead_modules@.contains(module@),
    {
        self.dead_modules.contains(module)
    }
}

} // verus!
