//! The abstract domain of the static analysis: type tags, abstract values,
//! value sets that widen past a size bound, and the analysis settings.

use vstd::prelude::*;
use vstd::string::StringExecFns;
use vstd::std_specs::iter::IteratorSpec;

use smallvec::SmallVec;

use crate::analysis::assoc::{assoc, lemma_assoc_at, lemma_assoc_empty, lemma_assoc_len, lemma_assoc_push, lemma_assoc_update};
use crate::compiler::folding::{lemma_text_less_order, text_less, text_lt};
use crate::text::str_eq;
use crate::value::{MettaValue, Val};

verus! {

broadcast use vstd::string::group_string_axioms;

/// Abstract type tags, coarser than abstract values.
#[derive(Debug, Clone, Copy, PartialEq, Eq, Structural, PartialOrd, Ord, Hash)]
pub enum AbstractType {
    Atom,
    Bool,
    Long,
    Float,
    String,
    SExpr,
    Error,
    Unit,
    Empty,
    Space,
    State,
    Quoted,
    /// Union of all types.
    Top,
}

/// The least upper bound of two type tags.
pub open spec fn type_join(a: AbstractType, b: AbstractType) -> AbstractType {
    if a == b {
        a
    } else {
        AbstractType::Top
    }
}

impl AbstractType {
    /// The place of this type among the types, in declaration order.
    pub fn rank(self) -> (r: u8)
        ensures
            r as int == type_rank(self),
    {
        match self {
            AbstractType::Atom => 0,
            AbstractType::Bool => 1,
            AbstractType::Long => 2,
            AbstractType::Float => 3,
            AbstractType::String => 4,
            AbstractType::SExpr => 5,
            AbstractType::Error => 6,
            AbstractType::Unit => 7,
            AbstractType::Empty => 8,
            AbstractType::Space => 9,
            AbstractType::State => 10,
            AbstractType::Quoted => 11,
            AbstractType::Top => 12,
        }
    }

    /// Join two types into their least upper bound.
    pub fn join(self, other: Self) -> (r: Self)
        ensures
            r == type_join(self, other),
    {
        if self == other {
            self
        } else {
            AbstractType::Top
        }
    }
}

/// The call sites of an address's context, held in a small inline vector.
#[verifier::external_body]
#[derive(Debug, PartialEq, Eq, PartialOrd, Ord, Hash)]
pub struct CallContext {
    sites: SmallVec<[u64; 2]>,
}

/// The call sites held by a call-site context.
pub uninterp spec fn context_sites(c: CallContext) -> Seq<u64>;

/// `SmallVec::new`: an empty context.
#[verifier::external_body]
fn context_new() -> (r: CallContext)
    ensures
        context_sites(r) == Seq::<u64>::empty(),
{
    CallContext { sites: SmallVec::new() }
}

/// `SmallVec::from_slice`: a context holding the call sites of `s`, in order.
#[verifier::external_body]
fn context_from_slice(s: &[u64]) -> (r: CallContext)
    ensures
        context_sites(r) == s@,
{
    CallContext { sites: SmallVec::from_slice(s) }
}

/// `SmallVec::as_slice`: the call sites of a context.
#[verifier::external_body]
fn context_as_slice(c: &CallContext) -> (r: &[u64])
    ensures
        r@ == context_sites(*c),
{
    c.sites.as_slice()
}

/// `SmallVec::clone`: a context with the same call sites.
#[verifier::external_body]
fn context_clone(c: &CallContext) -> (r: CallContext)
    ensures
        context_sites(r) == context_sites(*c),
{
    CallContext { sites: c.sites.clone() }
}

impl CallContext {
    /// The call sites, oldest first.
    pub fn as_slice(&self) -> (r: &[u64])
        ensures
            r@ == context_sites(*self),
    {
        context_as_slice(self)
    }

    /// Whether the context holds no call site.
    pub fn is_empty(&self) -> (r: bool)
        ensures
            r == (context_sites(*self).len() == 0),
    {
        context_as_slice(self).len() == 0
    }

    /// The number of call sites.
    pub fn len(&self) -> (r: usize)
        ensures
            r == context_sites(*self).len(),
    {
        context_as_slice(self).len()
    }
}

impl Clone for CallContext {
    fn clone(&self) -> (r: Self)
        ensures
            context_sites(r) == context_sites(*self),
    {
        context_clone(self)
    }
}

/// An abstract address: an allocation site (an expression hash) and the
/// last call sites of its context.
#[derive(Debug, PartialEq, Eq, PartialOrd, Ord, Hash)]
pub struct AbstractAddr {
    /// Content hash of the expression at the allocation site.
    pub site: u64,
    /// Call-site context: the last k call sites.
    pub context: CallContext,
}

impl AbstractAddr {
    /// The model of an address: its site and its call sites.
    pub open spec fn view(&self) -> (u64, Seq<u64>) {
        (self.site, context_sites(self.context))
    }

    /// An address without context.
    pub fn mono(site: u64) -> (r: Self)
        ensures
            r@ == (site, Seq::<u64>::empty()),
    {
        AbstractAddr { site, context: context_new() }
    }

    /// An address whose context keeps the last `k` call sites of `ctx`.
    pub fn with_context(site: u64, ctx: &[u64], k: u8) -> (r: Self)
        ensures
            r@ == (site, ctx@.subrange(if ctx@.len() > k { ctx@.len() - k } else { 0int }, ctx@.len() as int)),
    {
        let k = k as usize;
        let start: usize = if ctx.len() > k { ctx.len() - k } else { 0 };
        let mut kept: Vec<u64> = Vec::new();
        let mut i: usize = start;
        while i < ctx.len()
            invariant
                start <= i <= ctx.len(),
                kept@ == ctx@.subrange(start as int, i as int),
            decreases ctx.len() - i,
        {
            kept.push(ctx[i]);
            assert(kept@ =~= ctx@.subrange(start as int, i + 1));
            i = i + 1;
        }
        AbstractAddr { site, context: context_from_slice(kept.as_slice()) }
    }

    /// Whether two addresses are the same.
    pub fn same_addr(&self, other: &AbstractAddr) -> (r: bool)
        ensures
            r == (self@ == other@),
    {
        if self.site != other.site {
            return false;
        }
        let a = context_as_slice(&self.context);
        let b = context_as_slice(&other.context);
        if a.len() != b.len() {
            return false;
        }
        let mut i: usize = 0;
        while i < a.len()
            invariant
                i <= a.len(),
                a@.len() == b@.len(),
                a@ == context_sites(self.context),
                b@ == context_sites(other.context),
                self.site == other.site,
                forall|j: int| 0 <= j < i ==> a@[j] == b@[j],
            decreases a.len() - i,
        {
            if a[i] != b[i] {
                return false;
            }
            i = i + 1;
        }
        assert(a@ =~= b@);
        true
    }
}

impl Clone for AbstractAddr {
    fn clone(&self) -> (r: Self)
        ensures
            r@ == self@,
    {
        AbstractAddr { site: self.site, context: context_clone(&self.context) }
    }
}

/// Model of an abstract value.
pub ghost enum AbsVal {
    Atom(Seq<char>),
    Bool(bool),
    Long(i64),
    Float(u64),
    Str(Seq<char>),
    SExpr(Option<Seq<char>>, u16),
    Error,
    Unit,
    Empty,
    AnyOfType(AbstractType),
    Top,
}

/// An abstract value: a possible concrete value at an abstract address.
#[derive(Debug, Clone, PartialEq, Eq, PartialOrd, Ord, Hash)]
pub enum AbstractValue {
    /// Known atom symbol.
    Atom(String),
    /// Known boolean.
    Bool(bool),
    /// Known integer.
    Long(i64),
    /// Known float, by its bit pattern.
    Float(u64),
    /// Known string.
    String(String),
    /// S-expression with known head and arity.
    SExpr {
        head: Option<String>,
        arity: u16,
    },
    /// Error value.
    Error,
    /// Unit value.
    Unit,
    /// Empty value.
    Empty,
    /// Any value of a known type.
    AnyOfType(AbstractType),
    /// Any value at all.
    Top,
}

/// The type tag of an abstract value.
pub open spec fn type_of(v: AbsVal) -> AbstractType {
    match v {
        AbsVal::Atom(_) => AbstractType::Atom,
        AbsVal::Bool(_) => AbstractType::Bool,
        AbsVal::Long(_) => AbstractType::Long,
        AbsVal::Float(_) => AbstractType::Float,
        AbsVal::Str(_) => AbstractType::String,
        AbsVal::SExpr(_, _) => AbstractType::SExpr,
        AbsVal::Error => AbstractType::Error,
        AbsVal::Unit => AbstractType::Unit,
        AbsVal::Empty => AbstractType::Empty,
        AbsVal::AnyOfType(t) => t,
        AbsVal::Top => AbstractType::Top,
    }
}

/// The model of an optional string.
pub open spec fn opt_text(s: Option<String>) -> Option<Seq<char>> {
    match s {
        Some(t) => Some(t@),
        None => None,
    }
}

/// The place of a type among the types, in declaration order.
pub open spec fn type_rank(t: AbstractType) -> int {
    match t {
        AbstractType::Atom => 0,
        AbstractType::Bool => 1,
        AbstractType::Long => 2,
        AbstractType::Float => 3,
        AbstractType::String => 4,
        AbstractType::SExpr => 5,
        AbstractType::Error => 6,
        AbstractType::Unit => 7,
        AbstractType::Empty => 8,
        AbstractType::Space => 9,
        AbstractType::State => 10,
        AbstractType::Quoted => 11,
        AbstractType::Top => 12,
    }
}

/// The place of the kind of an abstract value among the kinds, in
/// declaration order.
pub open spec fn value_rank(v: AbsVal) -> int {
    match v {
        AbsVal::Atom(_) => 0,
        AbsVal::Bool(_) => 1,
        AbsVal::Long(_) => 2,
        AbsVal::Float(_) => 3,
        AbsVal::Str(_) => 4,
        AbsVal::SExpr(_, _) => 5,
        AbsVal::Error => 6,
        AbsVal::Unit => 7,
        AbsVal::Empty => 8,
        AbsVal::AnyOfType(_) => 9,
        AbsVal::Top => 10,
    }
}

/// The order of optional heads: no head first, then heads by their text.
pub open spec fn head_less(a: Option<Seq<char>>, b: Option<Seq<char>>) -> bool {
    match (a, b) {
        (None, Some(_)) => true,
        (Some(x), Some(y)) => text_less(x, y),
        _ => false,
    }
}

/// The order of abstract values: by kind, then by contents (texts
/// lexicographically, numbers by value, `false` before `true`, S-expressions
/// by head and then by arity, types by their place).
pub open spec fn value_less(a: AbsVal, b: AbsVal) -> bool {
    if value_rank(a) != value_rank(b) {
        value_rank(a) < value_rank(b)
    } else {
        match (a, b) {
            (AbsVal::Atom(x), AbsVal::Atom(y)) => text_less(x, y),
            (AbsVal::Bool(x), AbsVal::Bool(y)) => !x && y,
            (AbsVal::Long(x), AbsVal::Long(y)) => x < y,
            (AbsVal::Float(x), AbsVal::Float(y)) => x < y,
            (AbsVal::Str(x), AbsVal::Str(y)) => text_less(x, y),
            (AbsVal::SExpr(h1, n1), AbsVal::SExpr(h2, n2)) => head_less(h1, h2) || (h1 == h2 && n1 < n2),
            (AbsVal::AnyOfType(x), AbsVal::AnyOfType(y)) => type_rank(x) < type_rank(y),
            _ => false,
        }
    }
}

/// The text that an abstract value carries, if any.
spec fn text_in(v: AbsVal) -> Seq<char> {
    match v {
        AbsVal::Atom(x) => x,
        AbsVal::Str(x) => x,
        AbsVal::SExpr(Some(x), _) => x,
        _ => Seq::empty(),
    }
}

/// The order of abstract values is a strict total order.
pub proof fn lemma_value_order(a: AbsVal, b: AbsVal, c: AbsVal)
    ensures
        !value_less(a, a),
        value_less(a, b) ==> !value_less(b, a),
        value_less(a, b) && value_less(b, c) ==> value_less(a, c),
        a != b ==> value_less(a, b) || value_less(b, a),
{
    lemma_text_less_order(text_in(a), text_in(b), text_in(c));
    lemma_text_less_order(text_in(a), text_in(a), text_in(a));
    lemma_text_less_order(text_in(b), text_in(b), text_in(b));
}

impl AbstractValue {
    /// The model of this value.
    pub open spec fn view(&self) -> AbsVal {
        match self {
            AbstractValue::Atom(s) => AbsVal::Atom(s@),
            AbstractValue::Bool(b) => AbsVal::Bool(*b),
            AbstractValue::Long(n) => AbsVal::Long(*n),
            AbstractValue::Float(f) => AbsVal::Float(*f),
            AbstractValue::String(s) => AbsVal::Str(s@),
            AbstractValue::SExpr { head, arity } => AbsVal::SExpr(opt_text(*head), *arity),
            AbstractValue::Error => AbsVal::Error,
            AbstractValue::Unit => AbsVal::Unit,
            AbstractValue::Empty => AbsVal::Empty,
            AbstractValue::AnyOfType(t) => AbsVal::AnyOfType(*t),
            AbstractValue::Top => AbsVal::Top,
        }
    }

    /// The abstract type of this value.
    pub fn abstract_type(&self) -> (r: AbstractType)
        ensures
            r == type_of(self@),
    {
        match self {
            AbstractValue::Atom(_) => AbstractType::Atom,
            AbstractValue::Bool(_) => AbstractType::Bool,
            AbstractValue::Long(_) => AbstractType::Long,
            AbstractValue::Float(_) => AbstractType::Float,
            AbstractValue::String(_) => AbstractType::String,
            AbstractValue::SExpr { .. } => AbstractType::SExpr,
            AbstractValue::Error => AbstractType::Error,
            AbstractValue::Unit => AbstractType::Unit,
            AbstractValue::Empty => AbstractType::Empty,
            AbstractValue::AnyOfType(t) => *t,
            AbstractValue::Top => AbstractType::Top,
        }
    }

    /// A copy of this value.
    pub fn clone_value(&self) -> (r: AbstractValue)
        ensures
            r@ == self@,
    {
        match self {
            AbstractValue::Atom(s) => AbstractValue::Atom(s.clone()),
            AbstractValue::Bool(b) => AbstractValue::Bool(*b),
            AbstractValue::Long(n) => AbstractValue::Long(*n),
            AbstractValue::Float(f) => AbstractValue::Float(*f),
            AbstractValue::String(s) => AbstractValue::String(s.clone()),
            AbstractValue::SExpr { head, arity } => {
                let h = match head {
                    Some(t) => Some(t.clone()),
                    None => None,
                };
                AbstractValue::SExpr { head: h, arity: *arity }
            },
            AbstractValue::Error => AbstractValue::Error,
            AbstractValue::Unit => AbstractValue::Unit,
            AbstractValue::Empty => AbstractValue::Empty,
            AbstractValue::AnyOfType(t) => AbstractValue::AnyOfType(*t),
            AbstractValue::Top => AbstractValue::Top,
        }
    }

    /// Whether two abstract values are the same value.
    pub fn same_value(&self, other: &AbstractValue) -> (r: bool)
        ensures
            r == (self@ == other@),
    {
        match (self, other) {
            (AbstractValue::Atom(a), AbstractValue::Atom(b)) => str_eq(a.as_str(), b.as_str()),
            (AbstractValue::Bool(a), AbstractValue::Bool(b)) => *a == *b,
            (AbstractValue::Long(a), AbstractValue::Long(b)) => *a == *b,
            (AbstractValue::Float(a), AbstractValue::Float(b)) => *a == *b,
            (AbstractValue::String(a), AbstractValue::String(b)) => str_eq(a.as_str(), b.as_str()),
            (
                AbstractValue::SExpr { head: h1, arity: a1 },
                AbstractValue::SExpr { head: h2, arity: a2 },
            ) => {
                let heads_equal = match (h1, h2) {
                    (None, None) => true,
                    (Some(x), Some(y)) => str_eq(x.as_str(), y.as_str()),
                    _ => false,
                };
                heads_equal && *a1 == *a2
            },
            (AbstractValue::Error, AbstractValue::Error) => true,
            (AbstractValue::Unit, AbstractValue::Unit) => true,
            (AbstractValue::Empty, AbstractValue::Empty) => true,
            (AbstractValue::AnyOfType(a), AbstractValue::AnyOfType(b)) => *a == *b,
            (AbstractValue::Top, AbstractValue::Top) => true,
            _ => false,
        }
    }

    /// The place of this value's kind among the kinds.
    fn kind_rank(&self) -> (r: u8)
        ensures
            r as int == value_rank(self@),
    {
        match self {
            AbstractValue::Atom(_) => 0,
            AbstractValue::Bool(_) => 1,
            AbstractValue::Long(_) => 2,
            AbstractValue::Float(_) => 3,
            AbstractValue::String(_) => 4,
            AbstractValue::SExpr { .. } => 5,
            AbstractValue::Error => 6,
            AbstractValue::Unit => 7,
            AbstractValue::Empty => 8,
            AbstractValue::AnyOfType(_) => 9,
            AbstractValue::Top => 10,
        }
    }

    /// Whether this value comes before `other` in the order of abstract
    /// values.
    pub fn precedes(&self, other: &AbstractValue) -> (r: bool)
        ensures
            r == value_less(self@, other@),
    {
        let ra = self.kind_rank();
        let rb = other.kind_rank();
        if ra != rb {
            return ra < rb;
        }
        match (self, other) {
            (AbstractValue::Atom(a), AbstractValue::Atom(b)) => text_lt(a.as_str(), b.as_str()),
            (AbstractValue::Bool(a), AbstractValue::Bool(b)) => !*a && *b,
            (AbstractValue::Long(a), AbstractValue::Long(b)) => *a < *b,
            (AbstractValue::Float(a), AbstractValue::Float(b)) => *a < *b,
            (AbstractValue::String(a), AbstractValue::String(b)) => text_lt(a.as_str(), b.as_str()),
            (
                AbstractValue::SExpr { head: h1, arity: a1 },
                AbstractValue::SExpr { head: h2, arity: a2 },
            ) => match (h1, h2) {
                (None, None) => *a1 < *a2,
                (None, Some(_)) => true,
                (Some(_), None) => false,
                (Some(x), Some(y)) => {
                    proof {
                        lemma_text_less_order(x@, x@, x@);
                    }
                    if str_eq(x.as_str(), y.as_str()) {
                        *a1 < *a2
                    } else {
                        text_lt(x.as_str(), y.as_str())
                    }
                },
            },
            (AbstractValue::AnyOfType(a), AbstractValue::AnyOfType(b)) => a.rank() < b.rank(),
            _ => false,
        }
    }
}

/// The abstraction of a concrete value: atoms, booleans, integers and floats
/// are kept exactly; strings keep only their type; an S-expression keeps its
/// head symbol (when the head is an atom) and its arity, truncated to 16 bits.
pub open spec fn alpha_of(v: Val) -> AbsVal {
    match v {
        Val::Atom(s) => AbsVal::Atom(s),
        Val::Bool(b) => AbsVal::Bool(b),
        Val::Long(n) => AbsVal::Long(n),
        Val::Float(f) => AbsVal::Float(f),
        Val::Str(_) => AbsVal::AnyOfType(AbstractType::String),
        Val::SExpr(items) => AbsVal::SExpr(
            if items.len() > 0 {
                match items[0] {
                    Val::Atom(h) => Some(h),
                    _ => None,
                }
            } else {
                None
            },
            items.len() as u16,
        ),
        Val::Error(_, _) => AbsVal::Error,
        Val::Unit => AbsVal::Unit,
        Val::Empty => AbsVal::Empty,
        _ => AbsVal::Top,
    }
}

/// Inject a concrete value into the abstract domain.
pub fn alpha(value: &MettaValue) -> (r: AbstractValue)
    ensures
        r@ == alpha_of(value@),
{
    match value {
        MettaValue::Atom(name) => AbstractValue::Atom(name.clone()),
        MettaValue::Bool(b) => AbstractValue::Bool(*b),
        MettaValue::Long(n) => AbstractValue::Long(*n),
        MettaValue::Float(f) => AbstractValue::Float(*f),
        MettaValue::String(_) => AbstractValue::AnyOfType(AbstractType::String),
        MettaValue::SExpr(items) => {
            proof {
                crate::value::lemma_sexpr_view(value, items);
            }
            if items.len() == 0 {
                AbstractValue::Unit
            } else {
                let head = match &items[0] {
                    MettaValue::Atom(h) => Some(h.clone()),
                    _ => None,
                };
                let arity: u16 = #[verifier::truncate] (items.len() as u16);
                AbstractValue::SExpr { head, arity }
            }
        },
        MettaValue::Error(_, _) => AbstractValue::Error,
        MettaValue::Unit => AbstractValue::Unit,
        MettaValue::Empty => AbstractValue::Empty,
        _ => AbstractValue::Top,
    }
}

/// Size bound of a value set before it widens, unless configured.
pub const DEFAULT_MAX_SET_SIZE: usize = 32;

/// The models of a sequence of abstract values, element by element.
pub open spec fn abs_seq(items: Seq<AbstractValue>) -> Seq<AbsVal> {
    items.map_values(|v: AbstractValue| v@)
}

/// The single type of all the values of a non-empty set, if they share one.
pub open spec fn uniform_type(s: Set<AbsVal>) -> Option<AbstractType> {
    if s.is_empty() {
        None
    } else {
        let t = type_of(s.choose());
        if forall|v: AbsVal| s.contains(v) ==> type_of(v) == t {
            Some(t)
        } else {
            None
        }
    }
}

/// The join of the types of all the values of a set: their common type when
/// they share one, else `Top`.
pub open spec fn joined_type(s: Set<AbsVal>) -> AbstractType {
    match uniform_type(s) {
        Some(t) => t,
        None => AbstractType::Top,
    }
}

/// A set after widening: past `max` values it collapses to "any value of
/// the joined type".
pub open spec fn widen(s: Set<AbsVal>, max: usize) -> Set<AbsVal> {
    if s.len() > max {
        set![AbsVal::AnyOfType(joined_type(s))]
    } else {
        s
    }
}

/// The join of the types of a sequence, left to right, `None` when empty.
pub open spec fn fold_types(s: Seq<AbsVal>) -> Option<AbstractType>
    decreases s.len(),
{
    if s.len() == 0 {
        None
    } else {
        match fold_types(s.drop_last()) {
            None => Some(type_of(s.last())),
            Some(prev) => Some(type_join(prev, type_of(s.last()))),
        }
    }
}

/// Folding the types of a sequence gives its common type, or `Top` when two
/// types differ.
proof fn lemma_fold_types(s: Seq<AbsVal>)
    requires
        s.len() > 0,
    ensures
        fold_types(s) == Some(
            if forall|i: int| 0 <= i < s.len() ==> type_of(#[trigger] s[i]) == type_of(s[0]) {
                type_of(s[0])
            } else {
                AbstractType::Top
            },
        ),
    decreases s.len(),
{
    if s.len() == 1 {
        assert(s.last() == s[0]);
        assert(s.drop_last().len() == 0);
    } else {
        let p = s.drop_last();
        assert(p[0] == s[0]);
        assert(s.last() == s[s.len() - 1]);
        lemma_fold_types(p);
        if forall|i: int| 0 <= i < p.len() ==> type_of(#[trigger] p[i]) == type_of(p[0]) {
            if type_of(s.last()) == type_of(s[0]) {
                assert forall|i: int| 0 <= i < s.len() implies type_of(#[trigger] s[i]) == type_of(s[0]) by {
                    if i < p.len() {
                        assert(p[i] == s[i]);
                    }
                }
            } else {
                assert(type_of(s[s.len() - 1]) != type_of(s[0]));
            }
        } else {
            let j = choose|i: int| 0 <= i < p.len() && type_of(#[trigger] p[i]) != type_of(p[0]);
            assert(s[j] == p[j]);
            assert(type_of(s[j]) != type_of(s[0]));
        }
    }
}

/// The set of a non-empty sequence has the sequence's common type, if any.
proof fn lemma_uniform_type_of_seq(s: Seq<AbsVal>)
    requires
        s.len() > 0,
    ensures
        uniform_type(s.to_set()) == if forall|i: int| 0 <= i < s.len() ==> type_of(#[trigger] s[i]) == type_of(s[0]) {
            Some(type_of(s[0]))
        } else {
            None::<AbstractType>
        },
{
    let st = s.to_set();
    assert(st.contains(s[0]));
    assert(!st.is_empty());
    let c = st.choose();
    assert(st.contains(c));
    let k = choose|k: int| 0 <= k < s.len() && s[k] == c;
    if forall|i: int| 0 <= i < s.len() ==> type_of(#[trigger] s[i]) == type_of(s[0]) {
        assert(type_of(s[k]) == type_of(s[0]));
        assert forall|v: AbsVal| st.contains(v) implies type_of(v) == type_of(c) by {
            let m = choose|m: int| 0 <= m < s.len() && s[m] == v;
            assert(type_of(s[m]) == type_of(s[0]));
        }
    } else {
        let j = choose|i: int| 0 <= i < s.len() && type_of(#[trigger] s[i]) != type_of(s[0]);
        assert(st.contains(s[j]));
        if type_of(c) == type_of(s[0]) {
            assert(!(type_of(s[j]) == type_of(c)));
        } else {
            assert(!(type_of(s[0]) == type_of(c)));
        }
    }
}

/// A sequence of one value holds exactly that value.
proof fn lemma_single_to_set(m: AbsVal)
    ensures
        seq![m].to_set() == set![m],
{
    assert(seq![m] =~= Seq::<AbsVal>::empty().push(m));
    Seq::<AbsVal>::empty().lemma_push_to_set_commute(m);
    assert(Seq::<AbsVal>::empty().to_set() =~= Set::<AbsVal>::empty());
    assert(set![m] =~= Set::<AbsVal>::empty().insert(m));
}

/// Whether a sequence of abstract values is strictly increasing in the
/// order of abstract values.
pub open spec fn sorted_values(s: Seq<AbsVal>) -> bool {
    forall|i: int, j: int| 0 <= i < j < s.len() ==> value_less(#[trigger] s[i], #[trigger] s[j])
}

/// The set of abstract values at an abstract address, widened to "any value
/// of a type" once it holds more than its size bound.
#[derive(Debug, Clone)]
pub struct AbstractValueSet {
    values: Vec<AbstractValue>,
    max_size: usize,
}

impl AbstractValueSet {
    /// The values, in storage order.
    pub closed spec fn elems(&self) -> Seq<AbsVal> {
        abs_seq(self.values@)
    }

    /// The set of values.
    pub open spec fn view(&self) -> Set<AbsVal> {
        self.elems().to_set()
    }

    /// The size bound.
    pub closed spec fn max(&self) -> usize {
        self.max_size
    }

    /// No value is stored twice, and the values are stored in the order of
    /// abstract values.
    pub open spec fn wf(&self) -> bool {
        &&& self.elems().no_duplicates()
        &&& sorted_values(self.elems())
    }

    /// An empty set with the default size bound.
    pub fn new() -> (r: Self)
        ensures
            r.wf(),
            r@ == Set::<AbsVal>::empty(),
            r.max() == DEFAULT_MAX_SET_SIZE,
    {
        let r = AbstractValueSet { values: Vec::new(), max_size: DEFAULT_MAX_SET_SIZE };
        assert(r.elems() =~= Seq::<AbsVal>::empty());
        assert(r@ =~= Set::<AbsVal>::empty());
        r
    }

    /// An empty set with the given size bound.
    pub fn with_max_size(max_size: usize) -> (r: Self)
        ensures
            r.wf(),
            r@ == Set::<AbsVal>::empty(),
            r.max() == max_size,
    {
        let r = AbstractValueSet { values: Vec::new(), max_size };
        assert(r.elems() =~= Seq::<AbsVal>::empty());
        assert(r@ =~= Set::<AbsVal>::empty());
        r
    }

    /// The set holding just `v`, with the default size bound.
    pub fn singleton(v: AbstractValue) -> (r: Self)
        ensures
            r.wf(),
            r@ == set![v@],
            r.max() == DEFAULT_MAX_SET_SIZE,
    {
        let ghost m = v@;
        let mut values: Vec<AbstractValue> = Vec::new();
        values.push(v);
        let r = AbstractValueSet { values, max_size: DEFAULT_MAX_SET_SIZE };
        assert(r.elems() =~= seq![m]);
        proof {
            lemma_single_to_set(m);
        }
        r
    }

    /// Whether `v` is stored.
    fn contains_value(&self, v: &AbstractValue) -> (r: bool)
        ensures
            r == self.elems().contains(v@),
    {
        let mut i: usize = 0;
        while i < self.values.len()
            invariant
                i <= self.values.len(),
                forall|k: int| 0 <= k < i ==> self.elems()[k] != v@,
            decreases self.values.len() - i,
        {
            if self.values[i].same_value(v) {
                assert(self.elems()[i as int] == v@);
                return true;
            }
            i = i + 1;
        }
        false
    }

    /// Add `v` without widening, at its place in the order; `true` if it
    /// was not there.
    fn add_value(&mut self, v: AbstractValue) -> (changed: bool)
        requires
            old(self).wf(),
        ensures
            final(self).wf(),
            final(self)@ == old(self)@.insert(v@),
            final(self).max() == old(self).max(),
            changed == !old(self)@.contains(v@),
            final(self).elems().len() == old(self).elems().len() + if changed { 1int } else { 0int },
    {
        proof {
            self.elems().unique_seq_to_set();
        }
        let ghost before = self.elems();
        let ghost m = v@;
        let mut p: usize = 0;
        while p < self.values.len() && self.values[p].precedes(&v)
            invariant
                p <= self.values.len(),
                self.elems() == before,
                m == v@,
                forall|k: int| 0 <= k < p ==> value_less(#[trigger] before[k], m),
            decreases self.values.len() - p,
        {
            assert(before[p as int] == self.values@[p as int]@);
            p = p + 1;
        }
        if p < self.values.len() && self.values[p].same_value(&v) {
            proof {
                assert(before[p as int] == m);
                assert(before.contains(m));
            }
            return false;
        }
        proof {
            assert(!before.contains(m)) by {
                if before.contains(m) {
                    let k = choose|k: int| 0 <= k < before.len() && before[k] == m;
                    lemma_value_order(m, m, m);
                    if k > p {
                        assert(value_less(before[p as int], before[k]));
                    }
                }
            }
            if p < before.len() {
                lemma_value_order(before[p as int], m, m);
                assert(value_less(m, before[p as int]));
            }
        }
        let ghost at = p as int;
        self.values.insert(p, v);
        proof {
            let after = self.elems();
            assert(after =~= before.insert(at, m));
            assert forall|i: int, j: int| 0 <= i < j < after.len() implies value_less(
                #[trigger] after[i],
                #[trigger] after[j],
            ) by {
                if j < at {
                } else if j == at {
                } else if i < at {
                    assert(after[j] == before[j - 1]);
                    assert(value_less(before[i], before[j - 1]));
                } else if i == at {
                    assert(after[j] == before[j - 1]);
                    if j - 1 > at {
                        assert(value_less(before[at], before[j - 1]));
                        lemma_value_order(m, before[at], before[j - 1]);
                    }
                } else {
                    assert(value_less(before[i - 1], before[j - 1]));
                }
            }
            assert forall|i: int, j: int| 0 <= i < j < after.len() implies after[i] != after[j] by {
                lemma_value_order(after[i], after[i], after[i]);
            }
            assert(after.no_duplicates());
            assert forall|x: AbsVal| after.contains(x) <==> before.contains(x) || x == m by {
                if after.contains(x) {
                    let k = choose|k: int| 0 <= k < after.len() && after[k] == x;
                    if k < at {
                        assert(before[k] == x);
                    } else if k > at {
                        assert(before[k - 1] == x);
                    }
                }
                if before.contains(x) {
                    let k = choose|k: int| 0 <= k < before.len() && before[k] == x;
                    if k < at {
                        assert(after[k] == x);
                    } else {
                        assert(after[k + 1] == x);
                    }
                }
                if x == m {
                    assert(after[at] == m);
                }
            }
            assert(after.to_set() =~= before.to_set().insert(m));
        }
        true
    }

    /// Collapse to "any value of the joined type" past the size bound.
    fn maybe_widen(&mut self)
        requires
            old(self).wf(),
        ensures
            final(self).wf(),
            final(self)@ == widen(old(self)@, old(self).max()),
            final(self).max() == old(self).max(),
    {
        proof {
            self.elems().unique_seq_to_set();
        }
        if self.values.len() > self.max_size {
            let mut acc: Option<AbstractType> = None;
            let mut i: usize = 0;
            while i < self.values.len()
                invariant
                    i <= self.values.len(),
                    acc == fold_types(self.elems().take(i as int)),
                decreases self.values.len() - i,
            {
                let t = self.values[i].abstract_type();
                assert(self.elems().take(i + 1).drop_last() =~= self.elems().take(i as int));
                acc = match acc {
                    None => Some(t),
                    Some(prev) => Some(prev.join(t)),
                };
                i = i + 1;
            }
            let widened = match acc {
                Some(t) => t,
                None => AbstractType::Top,
            };
            proof {
                let s = self.elems();
                assert(s.take(s.len() as int) =~= s);
                lemma_fold_types(s);
                lemma_uniform_type_of_seq(s);
            }
            let ghost m = AbsVal::AnyOfType(widened);
            self.values.clear();
            self.values.push(AbstractValue::AnyOfType(widened));
            assert(self.elems() =~= seq![m]);
            proof {
                lemma_single_to_set(m);
            }
        }
    }

    /// A copy of the stored values, in order.
    fn copy_values(&self) -> (r: Vec<AbstractValue>)
        ensures
            abs_seq(r@) == self.elems(),
    {
        let mut out: Vec<AbstractValue> = Vec::new();
        let mut i: usize = 0;
        while i < self.values.len()
            invariant
                i <= self.values.len(),
                out@.len() == i,
                forall|k: int| 0 <= k < i ==> #[trigger] out@[k]@ == self.values@[k]@,
            decreases self.values.len() - i,
        {
            let v = self.values[i].clone_value();
            out.push(v);
            i = i + 1;
        }
        proof {
            assert(abs_seq(out@) =~= self.elems()) by {
                assert forall|k: int| 0 <= k < out@.len() implies abs_seq(out@)[k] == self.elems()[k] by {
                    assert(out@[k]@ == self.values@[k]@);
                }
            }
        }
        out
    }

    /// Whether the set holds exactly the values of a list without repeats.
    fn holds_exactly(&self, old: &Vec<AbstractValue>) -> (r: bool)
        requires
            self.wf(),
            abs_seq(old@).no_duplicates(),
        ensures
            r == (self@ == abs_seq(old@).to_set()),
    {
        let ghost e = self.elems();
        let ghost o = abs_seq(old@);
        proof {
            e.unique_seq_to_set();
            o.unique_seq_to_set();
        }
        if self.values.len() != old.len() {
            proof {
                if self@ == o.to_set() {
                    assert(e.len() == o.len());
                }
            }
            return false;
        }
        let mut i: usize = 0;
        while i < self.values.len()
            invariant
                i <= self.values.len(),
                self.values@.len() == old@.len(),
                e == self.elems(),
                o == abs_seq(old@),
                forall|k: int| 0 <= k < i ==> o.contains(#[trigger] e[k]),
            decreases self.values.len() - i,
        {
            let mut found = false;
            let mut j: usize = 0;
            while j < old.len()
                invariant
                    j <= old@.len(),
                    i < self.values@.len(),
                    e == self.elems(),
                    o == abs_seq(old@),
                    found ==> o.contains(e[i as int]),
                    !found ==> forall|q: int| 0 <= q < j ==> o[q] != e[i as int],
                decreases old@.len() - j,
            {
                if !found && old[j].same_value(&self.values[i]) {
                    found = true;
                    assert(o[j as int] == e[i as int]);
                }
                j = j + 1;
            }
            if !found {
                proof {
                    assert(e.to_set().contains(e[i as int]));
                    assert(!o.to_set().contains(e[i as int]));
                }
                return false;
            }
            i = i + 1;
        }
        proof {
            assert(e.to_set().subset_of(o.to_set())) by {
                assert forall|x: AbsVal| e.to_set().contains(x) implies o.to_set().contains(x) by {
                    let k = choose|k: int| 0 <= k < e.len() && e[k] == x;
                    assert(o.contains(e[k]));
                }
            }
            vstd::set_lib::lemma_subset_equality(e.to_set(), o.to_set());
        }
        true
    }

    /// Join another value set into this one; `true` if the set changed.
    pub fn join(&mut self, other: &AbstractValueSet) -> (changed: bool)
        requires
            old(self).wf(),
        ensures
            final(self).wf(),
            final(self)@ == widen(old(self)@.union(other@), old(self).max()),
            final(self).max() == old(self).max(),
            changed == (final(self)@ != old(self)@),
    {
        proof {
            self.elems().unique_seq_to_set();
        }
        let before = self.copy_values();
        let ghost start = self@;
        let mut i: usize = 0;
        while i < other.values.len()
            invariant
                i <= other.values.len(),
                self.wf(),
                self.max() == old(self).max(),
                self@ == start.union(other.elems().take(i as int).to_set()),
            decreases other.values.len() - i,
        {
            let v = other.values[i].clone_value();
            self.add_value(v);
            proof {
                let e = other.elems();
                assert(e.take(i + 1) =~= e.take(i as int).push(e[i as int]));
                e.take(i as int).lemma_push_to_set_commute(e[i as int]);
                assert(self@ =~= start.union(e.take(i + 1).to_set()));
            }
            i = i + 1;
        }
        assert(other.elems().take(other.values.len() as int) =~= other.elems());
        self.maybe_widen();
        !self.holds_exactly(&before)
    }

    /// Insert a single value; `true` if the set changed.
    pub fn insert(&mut self, v: AbstractValue) -> (changed: bool)
        requires
            old(self).wf(),
        ensures
            final(self).wf(),
            final(self)@ == widen(old(self)@.insert(v@), old(self).max()),
            final(self).max() == old(self).max(),
            changed == (final(self)@ != old(self)@),
    {
        let before = self.copy_values();
        self.add_value(v);
        self.maybe_widen();
        !self.holds_exactly(&before)
    }

    /// Whether the set holds exactly one value.
    pub fn is_singleton(&self) -> (r: bool)
        requires
            self.wf(),
        ensures
            r == (self@.len() == 1),
    {
        proof {
            self.elems().unique_seq_to_set();
        }
        self.values.len() == 1
    }

    /// The value of a singleton set.
    pub fn as_singleton(&self) -> (r: Option<&AbstractValue>)
        requires
            self.wf(),
        ensures
            r is Some <==> self@.len() == 1,
            r is Some ==> self@ == set![r->Some_0@],
    {
        proof {
            self.elems().unique_seq_to_set();
        }
        if self.values.len() == 1 {
            assert(self@ =~= set![self.elems()[0]]);
            Some(&self.values[0])
        } else {
            None
        }
    }

    /// The type that all the values share, if the set is non-empty and they
    /// share one.
    pub fn singleton_type(&self) -> (r: Option<AbstractType>)
        ensures
            r == uniform_type(self@),
    {
        if self.values.len() == 0 {
            assert(self@ =~= Set::<AbsVal>::empty());
            return None;
        }
        let first_type = self.values[0].abstract_type();
        let mut i: usize = 1;
        while i < self.values.len()
            invariant
                1 <= i <= self.values.len(),
                first_type == type_of(self.elems()[0]),
                forall|k: int| 0 <= k < i ==> type_of(#[trigger] self.elems()[k]) == first_type,
            decreases self.values.len() - i,
        {
            if self.values[i].abstract_type() != first_type {
                assert(type_of(self.elems()[i as int]) != type_of(self.elems()[0]));
                proof {
                    lemma_uniform_type_of_seq(self.elems());
                }
                return None;
            }
            i = i + 1;
        }
        proof {
            lemma_uniform_type_of_seq(self.elems());
        }
        Some(first_type)
    }

    /// The number of values.
    pub fn len(&self) -> (r: usize)
        requires
            self.wf(),
        ensures
            r == self@.len(),
    {
        proof {
            self.elems().unique_seq_to_set();
        }
        self.values.len()
    }

    /// Whether the set is empty.
    pub fn is_empty(&self) -> (r: bool)
        requires
            self.wf(),
        ensures
            r == (self@.len() == 0),
    {
        proof {
            self.elems().unique_seq_to_set();
        }
        self.values.len() == 0
    }

    /// The values, each once.
    pub fn iter(&self) -> (r: std::slice::Iter<'_, AbstractValue>)
        ensures
            abs_seq(IteratorSpec::remaining(&r).unref()).to_set() == self@,
            self.wf() ==> sorted_values(abs_seq(IteratorSpec::remaining(&r).unref())),
    {
        proof {
            broadcast use vstd::std_specs::slice::axiom_spec_slice_iter;
        }
        let r = self.values.iter();
        assert(IteratorSpec::remaining(&r).unref() =~= self.values@);
        r
    }
}

impl Default for AbstractValueSet {
    fn default() -> (r: Self)
        ensures
            r.wf(),
            r@ == Set::<AbsVal>::empty(),
            r.max() == DEFAULT_MAX_SET_SIZE,
    {
        AbstractValueSet::new()
    }
}

/// The set that a store holds at an address, empty where it holds none.
pub open spec fn stored_at(m: Map<(u64, Seq<u64>), Set<AbsVal>>, a: (u64, Seq<u64>)) -> Set<AbsVal> {
    if m.contains_key(a) {
        m[a]
    } else {
        Set::empty()
    }
}

/// Abstraction keeps the kind of a value: the type of the abstraction of an
/// integer is `Long`, of a float `Float`, of a boolean `Bool`, of a string
/// `String`, of a symbol `Atom`, of an expression `SExpr`, and so on.
pub proof fn lemma_abstraction_keeps_kind(v: Val)
    ensures
        v is Long ==> type_of(alpha_of(v)) == AbstractType::Long,
        v is Float ==> type_of(alpha_of(v)) == AbstractType::Float,
        v is Bool ==> type_of(alpha_of(v)) == AbstractType::Bool,
        v is Str ==> type_of(alpha_of(v)) == AbstractType::String,
        v is Atom ==> type_of(alpha_of(v)) == AbstractType::Atom,
        v is SExpr ==> type_of(alpha_of(v)) == AbstractType::SExpr,
        v is Error ==> type_of(alpha_of(v)) == AbstractType::Error,
        v is Unit ==> type_of(alpha_of(v)) == AbstractType::Unit,
        v is Empty ==> type_of(alpha_of(v)) == AbstractType::Empty,
        v is Type || v is Conjunction ==> type_of(alpha_of(v)) == AbstractType::Top,
{
}

/// Values of two different types share no type: a set that holds both has
/// no uniform type.
pub proof fn lemma_mixed_types_not_uniform(s: Set<AbsVal>, a: AbsVal, b: AbsVal)
    requires
        s.contains(a),
        s.contains(b),
        type_of(a) != type_of(b),
    ensures
        uniform_type(s) is None,
{
}

/// Joining type tags is commutative, associative and idempotent, and `Top`
/// absorbs every tag: it is the least upper bound in the flat order of tags
/// under `Top`.
pub proof fn lemma_type_join_laws(a: AbstractType, b: AbstractType, c: AbstractType)
    ensures
        type_join(a, b) == type_join(b, a),
        type_join(type_join(a, b), c) == type_join(a, type_join(b, c)),
        type_join(a, a) == a,
        type_join(a, AbstractType::Top) == AbstractType::Top,
        type_join(a, b) == a || type_join(a, b) == AbstractType::Top,
{
}

/// Widening keeps a value set within its bound: it holds at most `max`
/// values, or the single widened value.
pub proof fn lemma_widen_bounded(s: Set<AbsVal>, max: usize)
    requires
        s.finite(),
    ensures
        widen(s, max).finite(),
        widen(s, max).len() <= max || widen(s, max).len() == 1,
{
    if s.len() > max {
        assert(set![AbsVal::AnyOfType(joined_type(s))].len() == 1) by {
            assert(set![AbsVal::AnyOfType(joined_type(s))] =~= Set::<AbsVal>::empty().insert(
                AbsVal::AnyOfType(joined_type(s)),
            ));
        }
    }
}

/// Widening loses no value: every value of the set either stays, or has
/// the widened type, or the widened type is `Top`.
pub proof fn lemma_widen_covers(s: Set<AbsVal>, max: usize, v: AbsVal)
    requires
        s.contains(v),
    ensures
        widen(s, max).contains(v) || (widen(s, max) == set![AbsVal::AnyOfType(joined_type(s))] && (
        type_of(v) == joined_type(s) || joined_type(s) == AbstractType::Top)),
{
    if s.len() > max {
        let t = type_of(s.choose());
        if forall|w: AbsVal| s.contains(w) ==> type_of(w) == t {
            assert(type_of(v) == t);
        }
    }
}

/// Joining a set with one of its subsets changes nothing while the set is
/// within its bound.
pub proof fn lemma_join_subset_unchanged(s: Set<AbsVal>, other: Set<AbsVal>, max: usize)
    requires
        other.subset_of(s),
        s.len() <= max,
    ensures
        widen(s.union(other), max) == s,
{
    assert(s.union(other) =~= s);
}

/// After a value is allocated at an address, the set there covers it: it
/// holds the value, or it was widened to a type that includes it.
pub proof fn lemma_allocated_value_covered(m: Map<(u64, Seq<u64>), Set<AbsVal>>, a: (u64, Seq<u64>), v: AbsVal)
    ensures
        ({
            let s = stored_at(m, a).insert(v);
            let after = m.insert(a, widen(s, DEFAULT_MAX_SET_SIZE));
            stored_at(after, a).contains(v) || (stored_at(after, a) == set![AbsVal::AnyOfType(joined_type(s))] && (
            type_of(v) == joined_type(s) || joined_type(s) == AbstractType::Top))
        }),
{
    let s = stored_at(m, a).insert(v);
    lemma_widen_covers(s, DEFAULT_MAX_SET_SIZE, v);
}

/// A value set covers a value when it holds it, or holds "any value" of
/// the value's type or of every type.
pub open spec fn covers(s: Set<AbsVal>, v: AbsVal) -> bool {
    s.contains(v) || exists|t: AbstractType| #[trigger] s.contains(AbsVal::AnyOfType(t)) && (type_of(v) == t || t
        == AbstractType::Top)
}

/// Adding a value and widening keeps every value covered that was.
pub proof fn lemma_covers_after_insert(s: Set<AbsVal>, w: AbsVal, max: usize, v: AbsVal)
    requires
        covers(s, v),
    ensures
        covers(widen(s.insert(w), max), v),
{
    let u = s.insert(w);
    if u.len() > max {
        let j = joined_type(u);
        assert(widen(u, max).contains(AbsVal::AnyOfType(j)));
        if s.contains(v) {
            lemma_widen_covers(u, max, v);
        } else {
            let t = choose|t: AbstractType| #[trigger] s.contains(AbsVal::AnyOfType(t)) && (type_of(v) == t || t
                == AbstractType::Top);
            lemma_widen_covers(u, max, AbsVal::AnyOfType(t));
            if !widen(u, max).contains(AbsVal::AnyOfType(t)) {
                assert(type_of(AbsVal::AnyOfType(t)) == t);
            }
        }
    } else {
        if !s.contains(v) {
            let t = choose|t: AbstractType| #[trigger] s.contains(AbsVal::AnyOfType(t)) && (type_of(v) == t || t
                == AbstractType::Top);
            assert(u.contains(AbsVal::AnyOfType(t)));
        }
    }
}

/// An allocation keeps every address covering what it covered, and covers
/// the allocated value at its address.
pub proof fn lemma_covers_after_alloc(
    m: Map<(u64, Seq<u64>), Set<AbsVal>>,
    a: (u64, Seq<u64>),
    w: AbsVal,
    b: (u64, Seq<u64>),
    v: AbsVal,
)
    ensures
        covers(stored_at(m, b), v) ==> covers(
            stored_at(m.insert(a, widen(stored_at(m, a).insert(w), DEFAULT_MAX_SET_SIZE)), b),
            v,
        ),
        covers(stored_at(m.insert(a, widen(stored_at(m, a).insert(w), DEFAULT_MAX_SET_SIZE)), a), w),
{
    let after = m.insert(a, widen(stored_at(m, a).insert(w), DEFAULT_MAX_SET_SIZE));
    if covers(stored_at(m, b), v) && b == a {
        lemma_covers_after_insert(stored_at(m, a), w, DEFAULT_MAX_SET_SIZE, v);
    }
    assert(stored_at(m, a).insert(w).contains(w));
    assert(covers(stored_at(m, a).insert(w), w));
    lemma_covers_after_insert(stored_at(m, a).insert(w), w, DEFAULT_MAX_SET_SIZE, w);
    assert(stored_at(m, a).insert(w).insert(w) =~= stored_at(m, a).insert(w));
}

/// The abstract store: the value set at each abstract address.
#[derive(Debug)]
pub struct AbstractStore {
    entries: Vec<(AbstractAddr, AbstractValueSet)>,
}

impl AbstractStore {
    /// The addresses, in storage order.
    pub closed spec fn addrs(&self) -> Seq<(u64, Seq<u64>)> {
        self.entries@.map_values(|e: (AbstractAddr, AbstractValueSet)| e.0@)
    }

    /// The value sets, in storage order.
    pub closed spec fn sets(&self) -> Seq<Set<AbsVal>> {
        self.entries@.map_values(|e: (AbstractAddr, AbstractValueSet)| e.1@)
    }

    /// The value set at each address.
    pub open spec fn view(&self) -> Map<(u64, Seq<u64>), Set<AbsVal>> {
        assoc(self.addrs(), self.sets())
    }

    /// No address is stored twice, and every set is well formed with the
    /// default size bound.
    pub closed spec fn wf(&self) -> bool {
        &&& self.addrs().no_duplicates()
        &&& forall|i: int| 0 <= i < self.entries@.len() ==> #[trigger] self.entries@[i].1.wf()
            && self.entries@[i].1.max() == DEFAULT_MAX_SET_SIZE
    }

    /// An empty store.
    pub fn new() -> (r: Self)
        ensures
            r.wf(),
            r@ == Map::<(u64, Seq<u64>), Set<AbsVal>>::empty(),
    {
        let r = AbstractStore { entries: Vec::new() };
        assert(r.addrs() =~= Seq::<(u64, Seq<u64>)>::empty());
        assert(r.sets() =~= Seq::<Set<AbsVal>>::empty());
        proof {
            lemma_assoc_empty::<(u64, Seq<u64>), Set<AbsVal>>();
        }
        r
    }

    /// The position of `addr`, if stored.
    fn find(&self, addr: &AbstractAddr) -> (r: Option<usize>)
        ensures
            match r {
                Some(i) => i < self.entries@.len() && self.addrs()[i as int] == addr@,
                None => !self.addrs().contains(addr@),
            },
    {
        let mut i: usize = 0;
        while i < self.entries.len()
            invariant
                i <= self.entries@.len(),
                forall|k: int| 0 <= k < i ==> self.addrs()[k] != addr@,
            decreases self.entries.len() - i,
        {
            if self.entries[i].0.same_addr(addr) {
                return Some(i);
            }
            i = i + 1;
        }
        None
    }

    /// Add `value` to the set at `addr` (an empty set with the default bound
    /// where there is none yet); `true` if the store changed.
    #[verifier::spinoff_prover]
    pub fn allocate(&mut self, addr: AbstractAddr, value: AbstractValue) -> (changed: bool)
        requires
            old(self).wf(),
        ensures
            final(self).wf(),
            final(self)@ == old(self)@.insert(
                addr@,
                widen(stored_at(old(self)@, addr@).insert(value@), DEFAULT_MAX_SET_SIZE),
            ),
            changed == (final(self)@ != old(self)@),
    {
        let ghost keys = self.addrs();
        let ghost vals = self.sets();
        match self.find(&addr) {
            Some(i) => {
                proof {
                    lemma_assoc_at(keys, vals, i as int);
                }
                assert(self.entries@[i as int].1.wf());
                assert(self.entries@[i as int].1.max() == DEFAULT_MAX_SET_SIZE);
                let (a, mut set) = self.entries.remove(i);
                let changed = set.insert(value);
                assert(set.wf() && set.max() == DEFAULT_MAX_SET_SIZE);
                let ghost ns = set@;
                self.entries.insert(i, (a, set));
                proof {
                    assert(self.addrs() =~= keys);
                    assert(self.addrs().no_duplicates());
                    assert(self.sets() =~= vals.update(i as int, ns));
                    lemma_assoc_update(keys, vals, i as int, ns);
                    assert forall|j: int| 0 <= j < self.entries@.len() implies #[trigger] self.entries@[j].1.wf()
                        && self.entries@[j].1.max() == DEFAULT_MAX_SET_SIZE by {
                        if j != i {
                            assert(self.entries@[j] == old(self).entries@[j]);
                        }
                    }
                    if !changed {
                        assert(self@ =~= old(self)@);
                    } else {
                        assert(self@[addr@] != old(self)@[addr@]);
                    }
                }
                changed
            },
            None => {
                let ghost av = addr@;
                let mut set = AbstractValueSet::new();
                let changed = set.insert(value);
                let ghost ns = set@;
                self.entries.push((addr, set));
                proof {
                    assert(!old(self)@.contains_key(av));
                    assert(self.addrs() =~= keys.push(av));
                    assert(self.sets() =~= vals.push(ns));
                    lemma_assoc_push(keys, vals, av, ns);
                    assert(self@.contains_key(av));
                    assert(ns.contains(value@)) by {
                        assert(Set::<AbsVal>::empty().insert(value@).len() == 1);
                    }
                    assert(changed);
                    assert(self.addrs().no_duplicates());
                    assert forall|j: int| 0 <= j < self.entries@.len() implies #[trigger] self.entries@[j].1.wf()
                        && self.entries@[j].1.max() == DEFAULT_MAX_SET_SIZE by {
                        if j < old(self).entries@.len() {
                            assert(self.entries@[j] == old(self).entries@[j]);
                        }
                    }
                }
                changed
            },
        }
    }

    /// The value set at `addr`, if any.
    pub fn lookup(&self, addr: &AbstractAddr) -> (r: Option<&AbstractValueSet>)
        requires
            self.wf(),
        ensures
            r is Some <==> self@.contains_key(addr@),
            r is Some ==> r->Some_0@ == self@[addr@] && r->Some_0.wf(),
    {
        match self.find(addr) {
            Some(i) => {
                proof {
                    lemma_assoc_at(self.addrs(), self.sets(), i as int);
                }
                Some(&self.entries[i].1)
            },
            None => None,
        }
    }

    /// The number of addresses.
    pub fn len(&self) -> (r: usize)
        requires
            self.wf(),
        ensures
            r == self@.len(),
    {
        proof {
            lemma_assoc_len(self.addrs(), self.sets());
        }
        self.entries.len()
    }

    /// Whether no address is stored.
    pub fn is_empty(&self) -> (r: bool)
        requires
            self.wf(),
        ensures
            r == (self@.len() == 0),
    {
        proof {
            lemma_assoc_len(self.addrs(), self.sets());
        }
        self.entries.len() == 0
    }
}

impl Default for AbstractStore {
    fn default() -> (r: Self)
        ensures
            r.wf(),
            r@ == Map::<(u64, Seq<u64>), Set<AbsVal>>::empty(),
    {
        AbstractStore::new()
    }
}

/// The abstract environment: the address that each variable is bound to.
#[derive(Debug, PartialEq, Eq, Hash)]
pub struct AbstractEnv {
    bindings: Vec<(String, AbstractAddr)>,
}

impl AbstractEnv {
    /// The bound names, in storage order.
    pub closed spec fn names(&self) -> Seq<Seq<char>> {
        self.bindings@.map_values(|e: (String, AbstractAddr)| e.0@)
    }

    /// The addresses, in storage order.
    pub closed spec fn addrs(&self) -> Seq<(u64, Seq<u64>)> {
        self.bindings@.map_values(|e: (String, AbstractAddr)| e.1@)
    }

    /// The address of each bound name.
    pub open spec fn view(&self) -> Map<Seq<char>, (u64, Seq<u64>)> {
        assoc(self.names(), self.addrs())
    }

    /// No name is bound twice.
    pub closed spec fn wf(&self) -> bool {
        self.names().no_duplicates()
    }

    /// An empty environment.
    pub fn new() -> (r: Self)
        ensures
            r.wf(),
            r@ == Map::<Seq<char>, (u64, Seq<u64>)>::empty(),
    {
        let r = AbstractEnv { bindings: Vec::new() };
        assert(r.names() =~= Seq::<Seq<char>>::empty());
        assert(r.addrs() =~= Seq::<(u64, Seq<u64>)>::empty());
        proof {
            lemma_assoc_empty::<Seq<char>, (u64, Seq<u64>)>();
        }
        r
    }

    /// The position of `name`, if bound.
    fn find(&self, name: &str) -> (r: Option<usize>)
        ensures
            match r {
                Some(i) => i < self.bindings@.len() && self.names()[i as int] == name@,
                None => !self.names().contains(name@),
            },
    {
        let mut i: usize = 0;
        while i < self.bindings.len()
            invariant
                i <= self.bindings@.len(),
                forall|k: int| 0 <= k < i ==> self.names()[k] != name@,
            decreases self.bindings.len() - i,
        {
            if str_eq(self.bindings[i].0.as_str(), name) {
                return Some(i);
            }
            i = i + 1;
        }
        None
    }

    /// The address that `name` is bound to, if any.
    pub fn lookup(&self, name: &str) -> (r: Option<&AbstractAddr>)
        requires
            self.wf(),
        ensures
            r is Some <==> self@.contains_key(name@),
            r is Some ==> r->Some_0@ == self@[name@],
    {
        match self.find(name) {
            Some(i) => {
                proof {
                    lemma_assoc_at(self.names(), self.addrs(), i as int);
                }
                Some(&self.bindings[i].1)
            },
            None => None,
        }
    }

    /// A copy of this environment with `name` bound to `addr`.
    pub fn extend(&self, name: &str, addr: AbstractAddr) -> (r: Self)
        requires
            self.wf(),
        ensures
            r.wf(),
            r@ == self@.insert(name@, addr@),
    {
        let mut r = self.copy_bindings();
        let ghost keys = r.names();
        let ghost vals = r.addrs();
        let ghost av = addr@;
        match r.find(name) {
            Some(j) => {
                r.bindings.remove(j);
                r.bindings.insert(j, (name.to_string(), addr));
                proof {
                    assert(r.names() =~= keys);
                    assert(r.addrs() =~= vals.update(j as int, av));
                    lemma_assoc_update(keys, vals, j as int, av);
                }
            },
            None => {
                r.bindings.push((name.to_string(), addr));
                proof {
                    assert(r.names() =~= keys.push(name@));
                    assert(r.addrs() =~= vals.push(av));
                    lemma_assoc_push(keys, vals, name@, av);
                }
            },
        }
        r
    }

    /// A copy of this environment, binding for binding.
    fn copy_bindings(&self) -> (r: Self)
        ensures
            r.names() == self.names(),
            r.addrs() == self.addrs(),
    {
        let mut bindings: Vec<(String, AbstractAddr)> = Vec::new();
        let mut i: usize = 0;
        while i < self.bindings.len()
            invariant
                i <= self.bindings@.len(),
                bindings@.len() == i,
                forall|k: int| 0 <= k < i ==> #[trigger] bindings@[k].0 == self.bindings@[k].0,
                forall|k: int| 0 <= k < i ==> #[trigger] bindings@[k].1@ == self.bindings@[k].1@,
            decreases self.bindings.len() - i,
        {
            let n = self.bindings[i].0.clone();
            let a = self.bindings[i].1.clone();
            assert(n == self.bindings@[i as int].0);
            assert(a@ == self.bindings@[i as int].1@);
            bindings.push((n, a));
            i = i + 1;
        }
        let r = AbstractEnv { bindings };
        assert(r.names() =~= self.names());
        assert(r.addrs() =~= self.addrs());
        r
    }

    /// Whether two environments bind the same names to the same addresses.
    pub fn same_env(&self, other: &AbstractEnv) -> (r: bool)
        requires
            self.wf(),
            other.wf(),
        ensures
            r == (self@ == other@),
    {
        proof {
            lemma_assoc_len(self.names(), self.addrs());
            lemma_assoc_len(other.names(), other.addrs());
        }
        if self.bindings.len() != other.bindings.len() {
            return false;
        }
        let mut i: usize = 0;
        while i < self.bindings.len()
            invariant
                i <= self.bindings@.len(),
                self.wf(),
                other.wf(),
                self.bindings@.len() == other.bindings@.len(),
                forall|k: int| 0 <= k < i ==> other@.contains_key(#[trigger] self.names()[k])
                    && other@[self.names()[k]] == self.addrs()[k],
            decreases self.bindings.len() - i,
        {
            match other.lookup(self.bindings[i].0.as_str()) {
                Some(a) => {
                    if !a.same_addr(&self.bindings[i].1) {
                        proof {
                            lemma_assoc_at(self.names(), self.addrs(), i as int);
                        }
                        return false;
                    }
                },
                None => {
                    proof {
                        lemma_assoc_at(self.names(), self.addrs(), i as int);
                    }
                    return false;
                },
            }
            i = i + 1;
        }
        proof {
            assert forall|n: Seq<char>| self@.contains_key(n) implies other@.contains_key(n) && other@[n] == self@[n] by {
                let k = self.names().index_of(n);
                lemma_assoc_at(self.names(), self.addrs(), k);
            }
            assert(self@.dom().subset_of(other@.dom()));
            assert(self@.dom().len() == other@.dom().len());
            vstd::set_lib::lemma_subset_equality(self@.dom(), other@.dom());
            assert(self@ =~= other@);
        }
        true
    }

    /// The number of bound names.
    pub fn len(&self) -> (r: usize)
        requires
            self.wf(),
        ensures
            r == self@.len(),
    {
        proof {
            lemma_assoc_len(self.names(), self.addrs());
        }
        self.bindings.len()
    }

    /// Whether no name is bound.
    pub fn is_empty(&self) -> (r: bool)
        requires
            self.wf(),
        ensures
            r == (self@.len() == 0),
    {
        proof {
            lemma_assoc_len(self.names(), self.addrs());
        }
        self.bindings.len() == 0
    }
}

impl Clone for AbstractEnv {
    fn clone(&self) -> (r: Self)
        ensures
            r@ == self@,
            self.wf() ==> r.wf(),
    {
        self.copy_bindings()
    }
}

impl Default for AbstractEnv {
    fn default() -> (r: Self)
        ensures
            r.wf(),
            r@ == Map::<Seq<char>, (u64, Seq<u64>)>::empty(),
    {
        AbstractEnv::new()
    }
}

/// Settings of the abstract analysis.
#[derive(Debug, Clone)]
pub struct AnalysisConfig {
    /// Context sensitivity: 0 = monovariant, 1 = 1-CFA.
    pub k: u8,
    /// Maximum abstract value set size before widening.
    pub max_set_size: usize,
    /// Maximum fixed-point iterations before giving up.
    pub max_iterations: u32,
    /// Maximum number of abstract states to explore.
    pub max_states: usize,
    /// Whether to track purity information.
    pub track_purity: bool,
    /// Whether to track determinism information.
    pub track_determinism: bool,
    /// Whether to track type specialization.
    pub track_types: bool,
}

impl Default for AnalysisConfig {
    fn default() -> (r: Self)
        ensures
            r.k == 0,
            r.max_set_size == 32,
            r.max_iterations == 10_000,
            r.max_states == 100_000,
            r.track_purity,
            r.track_determinism,
            r.track_types,
    {
        AnalysisConfig {
            k: 0,
            max_set_size: 32,
            max_iterations: 10_000,
            max_states: 100_000,
            track_purity: true,
            track_determinism: true,
            track_types: true,
        }
    }
}

} // verus!
