//! Compilation context: local variable slots, lexical scopes and captured
//! variables of enclosing functions.

use vstd::prelude::*;

use crate::compiler::error::CompileError;
use crate::text::str_eq;

verus! {

/// A captured variable of an enclosing function.
#[derive(Debug, Clone, Copy, PartialEq, Eq, Structural)]
pub struct Upvalue {
    /// Index in the parent's locals or upvalues
    pub index: u16,
    /// True if capturing from the parent's locals, false if from its upvalues
    pub is_local: bool,
}

/// Mathematical model of a [`CompileContext`].
pub ghost struct CtxModel {
    /// Local names with their slots; no name occurs twice.
    pub locals: Seq<(Seq<char>, u16)>,
    /// Scope depth recorded at each declaration, in declaration order.
    pub depths: Seq<u16>,
    /// Current scope depth.
    pub scope: u16,
    /// Next free local slot.
    pub next: u16,
    /// Context of the enclosing function.
    pub parent: Option<Box<CtxModel>>,
    /// Captured variables, as (index, captured from a local).
    pub upvalues: Seq<(u16, bool)>,
}

/// The slot bound to `name`, if any.
pub open spec fn lookup_local(locals: Seq<(Seq<char>, u16)>, name: Seq<char>) -> Option<u16>
    decreases locals.len(),
{
    if locals.len() == 0 {
        None
    } else if locals.last().0 == name {
        Some(locals.last().1)
    } else {
        lookup_local(locals.drop_last(), name)
    }
}

/// The position of `name` among the locals, or -1.
pub open spec fn local_position(locals: Seq<(Seq<char>, u16)>, name: Seq<char>) -> int
    decreases locals.len(),
{
    if locals.len() == 0 {
        -1
    } else if locals.last().0 == name {
        locals.len() - 1
    } else {
        local_position(locals.drop_last(), name)
    }
}

/// The locals after binding `name` to `slot`: an existing binding is replaced.
pub open spec fn bind_local(locals: Seq<(Seq<char>, u16)>, name: Seq<char>, slot: u16) -> Seq<(Seq<char>, u16)> {
    let p = local_position(locals, name);
    if p >= 0 {
        locals.update(p, (name, slot))
    } else {
        locals.push((name, slot))
    }
}

/// Whether a local slot was declared at scope depth `scope`.
pub open spec fn declared_at(depths: Seq<u16>, slot: u16, scope: u16) -> bool {
    (slot as int) < depths.len() && depths[slot as int] == scope
}

/// The locals that survive the end of scope `scope`.
pub open spec fn kept_locals(locals: Seq<(Seq<char>, u16)>, depths: Seq<u16>, scope: u16) -> Seq<(Seq<char>, u16)>
    decreases locals.len(),
{
    if locals.len() == 0 {
        locals
    } else {
        let rest = kept_locals(locals.drop_last(), depths, scope);
        if declared_at(depths, locals.last().1, scope) {
            rest
        } else {
            rest.push(locals.last())
        }
    }
}

/// The number of locals that the end of scope `scope` removes.
pub open spec fn removed_count(locals: Seq<(Seq<char>, u16)>, depths: Seq<u16>, scope: u16) -> nat
    decreases locals.len(),
{
    if locals.len() == 0 {
        0
    } else {
        removed_count(locals.drop_last(), depths, scope) + if declared_at(depths, locals.last().1, scope) {
            1nat
        } else {
            0nat
        }
    }
}

/// The position of a captured variable, or -1.
pub open spec fn upvalue_position(ups: Seq<(u16, bool)>, index: u16, is_local: bool) -> int
    decreases ups.len(),
{
    if ups.len() == 0 {
        -1
    } else {
        let p = upvalue_position(ups.drop_last(), index, is_local);
        if p >= 0 {
            p
        } else if ups.last() == (index, is_local) {
            ups.len() - 1
        } else {
            -1
        }
    }
}

/// Names and slots are distinct, and slots stay below the next free slot.
pub open spec fn locals_wf(locals: Seq<(Seq<char>, u16)>, next: u16) -> bool {
    &&& locals.len() <= next
    &&& forall|i: int, j: int| 0 <= i < j < locals.len() ==> locals[i].0 != locals[j].0
}

impl CtxModel {
    /// The context after beginning a scope.
    pub open spec fn begin_scope(self) -> CtxModel {
        CtxModel { scope: (self.scope + 1) as u16, ..self }
    }

    /// The context after ending the current scope.
    pub open spec fn end_scope(self) -> CtxModel {
        CtxModel {
            locals: kept_locals(self.locals, self.depths, self.scope),
            scope: (self.scope - 1) as u16,
            ..self
        }
    }

    /// The number of locals that ending the current scope removes.
    pub open spec fn end_scope_count(self) -> nat {
        removed_count(self.locals, self.depths, self.scope)
    }

    /// The context after declaring `name` in the next free slot.
    pub open spec fn declare(self, name: Seq<char>) -> CtxModel {
        CtxModel {
            locals: bind_local(self.locals, name, self.next),
            depths: self.depths.push(self.scope),
            next: (self.next + 1) as u16,
            ..self
        }
    }

    /// The context after capturing (index, is_local), and the upvalue index.
    pub open spec fn add_upvalue(self, index: u16, is_local: bool) -> (CtxModel, u16) {
        let p = upvalue_position(self.upvalues, index, is_local);
        if p >= 0 {
            (self, p as u16)
        } else {
            (
                CtxModel { upvalues: self.upvalues.push((index, is_local)), ..self },
                self.upvalues.len() as u16,
            )
        }
    }

    /// Resolution of `name` as a captured variable of enclosing functions:
    /// the updated context and the upvalue index.
    pub open spec fn resolve_upvalue(self, name: Seq<char>) -> (CtxModel, Option<u16>)
        decreases self,
    {
        match self.parent {
            None => (self, None),
            Some(p) => {
                match lookup_local(p.locals, name) {
                    Some(slot) => {
                        let (c, i) = self.add_upvalue(slot, true);
                        (c, Some(i))
                    },
                    None => {
                        let (p2, r) = (*p).resolve_upvalue(name);
                        let c = CtxModel { parent: Some(Box::new(p2)), ..self };
                        match r {
                            Some(ui) => {
                                let (c2, i) = c.add_upvalue(ui, false);
                                (c2, Some(i))
                            },
                            None => (c, None),
                        }
                    },
                }
            },
        }
    }

    /// Well-formedness of this context and of its enclosing ones.
    pub open spec fn wf(self) -> bool
        decreases self,
    {
        &&& locals_wf(self.locals, self.next)
        &&& match self.parent {
            Some(p) => (*p).wf(),
            None => true,
        }
    }

    /// A fresh context with no locals, scopes or captures.
    pub open spec fn fresh(parent: Option<Box<CtxModel>>) -> CtxModel {
        CtxModel {
            locals: Seq::empty(),
            depths: Seq::empty(),
            scope: 0,
            next: 0,
            parent,
            upvalues: Seq::empty(),
        }
    }
}

/// Compilation context for tracking local variables and scopes.
#[derive(Debug)]
pub struct CompileContext {
    locals: Vec<(String, u16)>,
    scope_depths: Vec<u16>,
    current_scope: u16,
    next_local: u16,
    parent: Option<Box<CompileContext>>,
    upvalues: Vec<Upvalue>,
}

/// Model of a list of locals.
pub open spec fn locals_view(v: Seq<(String, u16)>) -> Seq<(Seq<char>, u16)> {
    Seq::new(v.len(), |i: int| (v[i].0@, v[i].1))
}

/// Model of a list of captured variables.
pub open spec fn upvalues_view(v: Seq<Upvalue>) -> Seq<(u16, bool)> {
    Seq::new(v.len(), |i: int| (v[i].index, v[i].is_local))
}

impl Default for CompileContext {
    fn default() -> (r: Self)
        ensures
            r@ == CtxModel::fresh(None),
            r@.wf(),
    {
        CompileContext::new()
    }
}

impl CompileContext {
    /// The model of this context.
    pub closed spec fn view(&self) -> CtxModel
        decreases self,
    {
        CtxModel {
            locals: locals_view(self.locals@),
            depths: self.scope_depths@,
            scope: self.current_scope,
            next: self.next_local,
            parent: match &self.parent {
                Some(p) => Some(Box::new((**p).view())),
                None => None,
            },
            upvalues: upvalues_view(self.upvalues@),
        }
    }

    /// Create a new root context.
    pub fn new() -> (r: CompileContext)
        ensures
            r@ == CtxModel::fresh(None),
            r@.wf(),
    {
        let r = CompileContext {
            locals: Vec::new(),
            scope_depths: Vec::new(),
            current_scope: 0,
            next_local: 0,
            parent: None,
            upvalues: Vec::new(),
        };
        proof {
            assert(locals_view(r.locals@) =~= Seq::empty());
            assert(upvalues_view(r.upvalues@) =~= Seq::empty());
        }
        r
    }

    /// Create a child context for a nested function.
    pub fn child(parent: CompileContext) -> (r: CompileContext)
        ensures
            r@ == CtxModel::fresh(Some(Box::new(parent@))),
            parent@.wf() ==> r@.wf(),
    {
        let r = CompileContext {
            locals: Vec::new(),
            scope_depths: Vec::new(),
            current_scope: 0,
            next_local: 0,
            parent: Some(Box::new(parent)),
            upvalues: Vec::new(),
        };
        proof {
            assert(locals_view(r.locals@) =~= Seq::empty());
            assert(upvalues_view(r.upvalues@) =~= Seq::empty());
        }
        r
    }

    /// The current scope depth.
    pub fn scope_depth(&self) -> (r: u16)
        ensures
            r == self@.scope,
    {
        self.current_scope
    }

    /// Begin a new scope.
    pub fn begin_scope(&mut self)
        requires
            old(self)@.scope < u16::MAX,
        ensures
            final(self)@ == old(self)@.begin_scope(),
    {
        self.current_scope = self.current_scope + 1;
    }

    /// End the current scope, returning the number of locals it removes.
    pub fn end_scope(&mut self) -> (r: u16)
        requires
            old(self)@.scope > 0,
            old(self)@.wf(),
        ensures
            final(self)@ == old(self)@.end_scope(),
            r as nat == old(self)@.end_scope_count(),
            final(self)@.wf(),
            forall|name: Seq<char>|
                #![trigger lookup_local(final(self)@.locals, name)]
                lookup_local(old(self)@.locals, name) matches Some(slot) && declared_at(
                    old(self)@.depths,
                    slot,
                    old(self)@.scope,
                ) ==> lookup_local(final(self)@.locals, name) is None,
    {
        let scope = self.current_scope;
        let ghost m = self@;
        let mut kept: Vec<(String, u16)> = Vec::new();
        let mut count: u16 = 0;
        let mut i: usize = 0;
        let n = self.locals.len();
        while i < n
            invariant
                n == self.locals@.len(),
                self@ == m,
                scope == m.scope,
                m == old(self)@,
                0 <= i <= n,
                m.locals.len() <= m.next,
                locals_view(kept@) == kept_locals(m.locals.take(i as int), m.depths, scope),
                count as nat == removed_count(m.locals.take(i as int), m.depths, scope),
                count as nat + kept@.len() == i,
            decreases n - i,
        {
            let slot = self.locals[i].1;
            let d = slot as usize;
            let hit = d < self.scope_depths.len() && self.scope_depths[d] == scope;
            proof {
                assert(m.locals.take(i as int + 1).drop_last() =~= m.locals.take(i as int));
                assert(m.locals[i as int] == (self.locals@[i as int].0@, slot));
            }
            if hit {
                count = count + 1;
            } else {
                let name = self.locals[i].0.clone();
                let ghost before = kept@;
                kept.push((name, slot));
                proof {
                    assert(locals_view(kept@) =~= locals_view(before).push(m.locals[i as int]));
                }
            }
            i = i + 1;
        }
        proof {
            assert(m.locals.take(n as int) =~= m.locals);
            lemma_kept_wf(m.locals, m.depths, scope, m.next);
        }
        self.locals = kept;
        self.current_scope = self.current_scope - 1;
        proof {
            assert(self@.locals == kept_locals(m.locals, m.depths, scope));
            assert(self@.parent == m.parent);
            assert forall|name: Seq<char>|
                #![trigger lookup_local(self@.locals, name)]
                lookup_local(m.locals, name) matches Some(slot) && declared_at(m.depths, slot, m.scope)
                    implies lookup_local(self@.locals, name) is None by {
                lemma_kept_lookup(m.locals, m.depths, scope, name, m.next);
            }
        }
        count
    }

    /// Declare a local variable in the next free slot.
    pub fn declare_local(&mut self, name: String) -> (r: Result<u16, CompileError>)
        requires
            old(self)@.wf(),
        ensures
            final(self)@.wf(),
            old(self)@.next >= u16::MAX ==> r == Err::<u16, CompileError>(CompileError::TooManyLocals)
                && final(self)@ == old(self)@,
            old(self)@.next < u16::MAX ==> r == Ok::<u16, CompileError>(old(self)@.next)
                && final(self)@ == old(self)@.declare(name@),
    {
        if self.next_local >= u16::MAX {
            return Err(CompileError::TooManyLocals);
        }
        let ghost m = self@;
        let slot = self.next_local;
        self.next_local = self.next_local + 1;
        let pos = self.position_of(name.as_str());
        proof {
            lemma_position(m.locals, name@);
        }
        let ghost nm = name@;
        if pos < self.locals.len() {
            self.locals.set(pos, (name, slot));
        } else {
            self.locals.push((name, slot));
        }
        self.scope_depths.push(self.current_scope);
        proof {
            assert(locals_view(self.locals@) =~= bind_local(m.locals, nm, slot));
            lemma_bind_wf(m.locals, nm, slot, m.next);
        }
        Ok(slot)
    }

    /// The position of `name` among the locals, or their count.
    fn position_of(&self, name: &str) -> (r: usize)
        ensures
            local_position(self@.locals, name@) >= 0 ==> r as int == local_position(self@.locals, name@),
            local_position(self@.locals, name@) < 0 ==> r == self@.locals.len(),
    {
        let n = self.locals.len();
        let mut i: usize = n;
        proof {
            assert(self@.locals.take(n as int) =~= self@.locals);
        }
        while i > 0
            invariant
                0 <= i <= n,
                n == self.locals@.len(),
                local_position(self@.locals, name@) == local_position(self@.locals.take(i as int), name@),
            decreases i,
        {
            let ghost pre = self@.locals.take(i as int);
            proof {
                assert(pre.drop_last() =~= self@.locals.take(i as int - 1));
                assert(pre.last() == (self.locals@[i as int - 1].0@, self.locals@[i as int - 1].1));
            }
            if str_eq(self.locals[i - 1].0.as_str(), name) {
                return i - 1;
            }
            i = i - 1;
        }
        proof {
            assert(self@.locals.take(0) =~= Seq::<(Seq<char>, u16)>::empty());
        }
        n
    }

    /// Resolve a local variable to its slot.
    pub fn resolve_local(&self, name: &str) -> (r: Option<u16>)
        ensures
            r == lookup_local(self@.locals, name@),
    {
        let n = self.locals.len();
        let mut i: usize = n;
        proof {
            assert(self@.locals.take(n as int) =~= self@.locals);
        }
        while i > 0
            invariant
                0 <= i <= n,
                n == self.locals@.len(),
                lookup_local(self@.locals, name@) == lookup_local(self@.locals.take(i as int), name@),
            decreases i,
        {
            let ghost pre = self@.locals.take(i as int);
            proof {
                assert(pre.drop_last() =~= self@.locals.take(i as int - 1));
                assert(pre.last() == (self.locals@[i as int - 1].0@, self.locals@[i as int - 1].1));
            }
            if str_eq(self.locals[i - 1].0.as_str(), name) {
                return Some(self.locals[i - 1].1);
            }
            i = i - 1;
        }
        proof {
            assert(self@.locals.take(0) =~= Seq::<(Seq<char>, u16)>::empty());
        }
        None
    }

    /// Resolve a captured variable of an enclosing function.
    pub fn resolve_upvalue(&mut self, name: &str) -> (r: Option<u16>)
        requires
            old(self)@.wf(),
        ensures
            (final(self)@, r) == old(self)@.resolve_upvalue(name@),
            final(self)@.wf(),
        decreases old(self)@,
    {
        if self.parent.is_none() {
            return None;
        }
        let mut p = self.parent.take().unwrap();
        proof {
            assert(old(self)@.parent == Some(Box::new(p@)));
        }
        match p.resolve_local(name) {
            Some(slot) => {
                self.parent = Some(p);
                proof {
                    assert(self@ == old(self)@);
                }
                let i = self.add_upvalue(slot, true);
                Some(i)
            },
            None => {
                proof {
                    assert(decreases_to!(old(self)@ => p@));
                }
                let r = p.resolve_upvalue(name);
                self.parent = Some(p);
                match r {
                    Some(ui) => {
                        let i = self.add_upvalue(ui, false);
                        Some(i)
                    },
                    None => None,
                }
            },
        }
    }

    /// Capture (index, is_local), reusing an existing capture.
    fn add_upvalue(&mut self, index: u16, is_local: bool) -> (r: u16)
        requires
            old(self)@.wf(),
        ensures
            (final(self)@, r) == old(self)@.add_upvalue(index, is_local),
            final(self)@.wf(),
    {
        let n = self.upvalues.len();
        let mut i: usize = 0;
        while i < n
            invariant
                0 <= i <= n,
                n == self.upvalues@.len(),
                *self == *old(self),
                old(self)@.wf(),
                upvalue_position(self@.upvalues.take(i as int), index, is_local) < 0,
            decreases n - i,
        {
            let u = self.upvalues[i];
            proof {
                assert(self@.upvalues.take(i as int + 1).drop_last() =~= self@.upvalues.take(i as int));
                assert(self@.upvalues.take(i as int + 1).last() == (u.index, u.is_local));
            }
            if u.index == index && u.is_local == is_local {
                proof {
                    lemma_upvalue_position_prefix(self@.upvalues, i as int + 1, index, is_local);
                    assert(upvalue_position(self@.upvalues.take(i as int + 1), index, is_local) == i);
                }
                return i as u16;
            }
            i = i + 1;
        }
        proof {
            assert(self@.upvalues.take(n as int) =~= self@.upvalues);
        }
        let ghost m = self@;
        let idx = n as u16;
        self.upvalues.push(Upvalue { index, is_local });
        proof {
            assert(upvalues_view(self.upvalues@) =~= m.upvalues.push((index, is_local)));
        }
        idx
    }

    /// The number of local slots used.
    pub fn local_count(&self) -> (r: u16)
        ensures
            r == self@.next,
    {
        self.next_local
    }

    /// The number of captured variables.
    pub fn upvalue_count(&self) -> (r: u16)
        ensures
            r == self@.upvalues.len() as u16,
    {
        self.upvalues.len() as u16
    }
}

/// A position found in a prefix stays the position in the whole sequence.
proof fn lemma_upvalue_position_prefix(ups: Seq<(u16, bool)>, k: int, index: u16, is_local: bool)
    requires
        0 <= k <= ups.len(),
        upvalue_position(ups.take(k), index, is_local) >= 0,
    ensures
        upvalue_position(ups, index, is_local) == upvalue_position(ups.take(k), index, is_local),
    decreases ups.len(),
{
    if k == ups.len() {
        assert(ups.take(k) =~= ups);
    } else {
        assert(ups.drop_last().take(k) =~= ups.take(k));
        lemma_upvalue_position_prefix(ups.drop_last(), k, index, is_local);
    }
}

/// Binding a name keeps the locals well formed.
proof fn lemma_bind_wf(locals: Seq<(Seq<char>, u16)>, name: Seq<char>, slot: u16, next: u16)
    requires
        locals_wf(locals, next),
        next < u16::MAX,
    ensures
        locals_wf(bind_local(locals, name, slot), (next + 1) as u16),
{
    lemma_position(locals, name);
}

/// What the position of a name says about the locals.
proof fn lemma_position(locals: Seq<(Seq<char>, u16)>, name: Seq<char>)
    ensures
        local_position(locals, name) < locals.len(),
        local_position(locals, name) >= 0 ==> locals[local_position(locals, name)].0 == name,
        local_position(locals, name) < 0 ==> forall|i: int| 0 <= i < locals.len() ==> locals[i].0 != name,
    decreases locals.len(),
{
    if locals.len() > 0 {
        let init = locals.drop_last();
        lemma_position(init, name);
        if local_position(locals, name) < 0 {
            assert forall|i: int| 0 <= i < locals.len() implies locals[i].0 != name by {
                if i < init.len() {
                    assert(init[i] == locals[i]);
                }
            }
        }
    }
}

/// A name resolves to the same slot in a well-formed list of locals and in
/// any of its entries.
proof fn lemma_lookup_entry(locals: Seq<(Seq<char>, u16)>, name: Seq<char>, slot: u16, next: u16)
    requires
        locals_wf(locals, next),
        locals.contains((name, slot)),
    ensures
        lookup_local(locals, name) == Some(slot),
    decreases locals.len(),
{
    if locals.last() != (name, slot) {
        let k = choose|k: int| 0 <= k < locals.len() && locals[k] == (name, slot);
        assert(locals.drop_last()[k] == (name, slot));
        assert(locals.last().0 != name);
        lemma_lookup_entry(locals.drop_last(), name, slot, next);
    }
}

/// What a name resolves to among the kept locals is an entry of the locals
/// that the end of the scope keeps.
proof fn lemma_kept_lookup_entry(locals: Seq<(Seq<char>, u16)>, depths: Seq<u16>, scope: u16, name: Seq<char>)
    ensures
        lookup_local(kept_locals(locals, depths, scope), name) matches Some(s) ==> locals.contains((name, s))
            && !declared_at(depths, s, scope),
    decreases locals.len(),
{
    if locals.len() > 0 {
        lemma_kept_lookup_entry(locals.drop_last(), depths, scope, name);
        let k = kept_locals(locals, depths, scope);
        let ki = kept_locals(locals.drop_last(), depths, scope);
        if lookup_local(ki, name) is Some {
            let s = lookup_local(ki, name)->Some_0;
            let j = choose|j: int| 0 <= j < locals.drop_last().len() && locals.drop_last()[j] == (name, s);
            assert(locals[j] == (name, s));
        }
        if !declared_at(depths, locals.last().1, scope) {
            assert(k.drop_last() =~= ki);
            assert(locals[locals.len() - 1] == locals.last());
        }
    }
}

/// A name bound in the scope that ends resolves to nothing afterwards.
proof fn lemma_kept_lookup(locals: Seq<(Seq<char>, u16)>, depths: Seq<u16>, scope: u16, name: Seq<char>, next: u16)
    requires
        locals_wf(locals, next),
        lookup_local(locals, name) matches Some(slot) && declared_at(depths, slot, scope),
    ensures
        lookup_local(kept_locals(locals, depths, scope), name) is None,
{
    lemma_kept_lookup_entry(locals, depths, scope, name);
    if lookup_local(kept_locals(locals, depths, scope), name) is Some {
        let s = lookup_local(kept_locals(locals, depths, scope), name)->Some_0;
        lemma_lookup_entry(locals, name, s, next);
    }
}

/// The kept locals are a well-formed subsequence.
proof fn lemma_kept_wf(locals: Seq<(Seq<char>, u16)>, depths: Seq<u16>, scope: u16, next: u16)
    requires
        locals_wf(locals, next),
    ensures
        locals_wf(kept_locals(locals, depths, scope), next),
        kept_locals(locals, depths, scope).len() + removed_count(locals, depths, scope) == locals.len(),
        forall|i: int| 0 <= i < kept_locals(locals, depths, scope).len() ==>
            #[trigger] locals.contains(kept_locals(locals, depths, scope)[i]),
    decreases locals.len(),
{
    if locals.len() > 0 {
        let init = locals.drop_last();
        lemma_kept_wf(init, depths, scope, next);
        let k = kept_locals(locals, depths, scope);
        let ki = kept_locals(init, depths, scope);
        assert forall|i: int| 0 <= i < k.len() implies #[trigger] locals.contains(k[i]) by {
            if i < ki.len() {
                assert(init.contains(ki[i]));
                let j = choose|j: int| 0 <= j < init.len() && init[j] == ki[i];
                assert(locals[j] == ki[i]);
            } else {
                assert(locals[locals.len() - 1] == k[i]);
            }
        }
        assert forall|i: int, j: int| 0 <= i < j < k.len() implies k[i].0 != k[j].0 by {
            if j < ki.len() {
            } else {
                assert(init.contains(ki[i]));
                let a = choose|a: int| 0 <= a < init.len() && init[a] == ki[i];
                assert(locals[a].0 != locals[locals.len() - 1].0);
            }
        }
    }
}

} // verus!
