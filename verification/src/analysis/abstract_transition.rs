//! The abstract transition function: from an abstract machine state, the
//! states it can step to, with the store updated by what the step learns.

use smallvec::SmallVec;

use vstd::prelude::*;
use vstd::string::StringExecFns;

use crate::analysis::abstract_domain::{
    AbsVal, AbstractAddr, AbstractEnv, AbstractStore, AbstractType, AbstractValue, AnalysisConfig,
    DEFAULT_MAX_SET_SIZE, covers, lemma_covers_after_alloc, stored_at, widen,
};
use crate::analysis::assoc::{assoc, lemma_assoc_at, lemma_assoc_empty, lemma_assoc_push, lemma_assoc_update};
use crate::cache::{hash_metta_value, value_hash};
use crate::text::str_eq;
use crate::value::{MettaValue, Val, lemma_sexpr_view};

verus! {

broadcast use vstd::string::group_string_axioms;

/// The candidate rule indices of a rule match, held inline.
#[verifier::external_body]
#[derive(Debug, PartialEq, Eq, Hash)]
pub struct RuleIndices {
    indices: SmallVec<[u32; 8]>,
}

/// The indices held by a list of candidate rules.
pub uninterp spec fn rule_indices(r: RuleIndices) -> Seq<u32>;

/// `SmallVec::from_slice`: the indices of `s`, in order.
#[verifier::external_body]
fn rule_indices_from_slice(s: &[u32]) -> (r: RuleIndices)
    ensures
        rule_indices(r) == s@,
{
    RuleIndices { indices: SmallVec::from_slice(s) }
}

/// `SmallVec::as_slice`: the indices, in order.
#[verifier::external_body]
fn rule_indices_as_slice(r: &RuleIndices) -> (s: &[u32])
    ensures
        s@ == rule_indices(*r),
{
    r.indices.as_slice()
}

/// `SmallVec::clone`: the same indices.
#[verifier::external_body]
fn rule_indices_clone(r: &RuleIndices) -> (c: RuleIndices)
    ensures
        rule_indices(c) == rule_indices(*r),
{
    RuleIndices { indices: r.indices.clone() }
}

impl RuleIndices {
    /// The indices, in order.
    pub fn as_slice(&self) -> (s: &[u32])
        ensures
            s@ == rule_indices(*self),
    {
        rule_indices_as_slice(self)
    }
}

impl Clone for RuleIndices {
    fn clone(&self) -> (c: Self)
        ensures
            rule_indices(c) == rule_indices(*self),
    {
        rule_indices_clone(self)
    }
}

/// Model of an abstract environment.
pub type EnvModel = Map<Seq<char>, (u64, Seq<u64>)>;

/// Model of an abstract control.
pub ghost enum ControlModel {
    Eval { expr_hash: u64, env: EnvModel, depth: u16 },
    Apply { head: Seq<char>, arity: u16, env: EnvModel },
}

/// Model of an abstract continuation.
pub ghost enum KontModel {
    Done,
    RuleMatch { candidates: Seq<u32>, env: EnvModel },
    IfBranch { then_hash: u64, else_hash: u64, env: EnvModel },
    LetBind { body_hash: u64, env: EnvModel },
    Generic { env: EnvModel },
}

/// Abstract control: what the machine does next.
#[derive(Debug, PartialEq, Eq, Hash)]
pub enum AbstractControl {
    /// Evaluate an expression.
    Eval { expr_hash: u64, env: AbstractEnv, depth: u16 },
    /// Apply the rules of a head symbol and arity.
    Apply { head: String, arity: u16, env: AbstractEnv },
}

/// Abstract continuation.
#[derive(Debug, PartialEq, Eq, Hash)]
pub enum AbstractKont {
    Done,
    RuleMatch { candidate_rule_indices: RuleIndices, env: AbstractEnv },
    IfBranch { then_hash: u64, else_hash: u64, env: AbstractEnv },
    LetBind { body_hash: u64, env: AbstractEnv },
    Generic { env: AbstractEnv },
}

/// A complete abstract machine state.
#[derive(Debug, PartialEq, Eq, Hash)]
pub struct AbstractState {
    pub control: AbstractControl,
    pub kont: AbstractKont,
}

impl AbstractControl {
    /// The model of this control.
    pub open spec fn view(&self) -> ControlModel {
        match self {
            AbstractControl::Eval { expr_hash, env, depth } => ControlModel::Eval {
                expr_hash: *expr_hash,
                env: env@,
                depth: *depth,
            },
            AbstractControl::Apply { head, arity, env } => ControlModel::Apply { head: head@, arity: *arity, env: env@ },
        }
    }

    /// Its environment is well formed.
    pub open spec fn wf(&self) -> bool {
        match self {
            AbstractControl::Eval { env, .. } => env.wf(),
            AbstractControl::Apply { env, .. } => env.wf(),
        }
    }
}

impl AbstractKont {
    /// The model of this continuation.
    pub open spec fn view(&self) -> KontModel {
        match self {
            AbstractKont::Done => KontModel::Done,
            AbstractKont::RuleMatch { candidate_rule_indices, env } => KontModel::RuleMatch {
                candidates: rule_indices(*candidate_rule_indices),
                env: env@,
            },
            AbstractKont::IfBranch { then_hash, else_hash, env } => KontModel::IfBranch {
                then_hash: *then_hash,
                else_hash: *else_hash,
                env: env@,
            },
            AbstractKont::LetBind { body_hash, env } => KontModel::LetBind { body_hash: *body_hash, env: env@ },
            AbstractKont::Generic { env } => KontModel::Generic { env: env@ },
        }
    }

    /// Its environment is well formed.
    pub open spec fn wf(&self) -> bool {
        match self {
            AbstractKont::Done => true,
            AbstractKont::RuleMatch { env, .. } => env.wf(),
            AbstractKont::IfBranch { env, .. } => env.wf(),
            AbstractKont::LetBind { env, .. } => env.wf(),
            AbstractKont::Generic { env } => env.wf(),
        }
    }
}

impl AbstractState {
    /// The model of this state.
    pub open spec fn view(&self) -> (ControlModel, KontModel) {
        (self.control@, self.kont@)
    }

    /// Its environments are well formed.
    pub open spec fn wf(&self) -> bool {
        self.control.wf() && self.kont.wf()
    }

    /// Whether two states are the same.
    pub fn same_state(&self, other: &AbstractState) -> (r: bool)
        requires
            self.wf(),
            other.wf(),
        ensures
            r == (self@ == other@),
    {
        let controls_equal = match (&self.control, &other.control) {
            (
                AbstractControl::Eval { expr_hash: h1, env: e1, depth: d1 },
                AbstractControl::Eval { expr_hash: h2, env: e2, depth: d2 },
            ) => *h1 == *h2 && *d1 == *d2 && e1.same_env(e2),
            (
                AbstractControl::Apply { head: h1, arity: a1, env: e1 },
                AbstractControl::Apply { head: h2, arity: a2, env: e2 },
            ) => str_eq(h1.as_str(), h2.as_str()) && *a1 == *a2 && e1.same_env(e2),
            _ => false,
        };
        if !controls_equal {
            return false;
        }
        match (&self.kont, &other.kont) {
            (AbstractKont::Done, AbstractKont::Done) => true,
            (
                AbstractKont::RuleMatch { candidate_rule_indices: c1, env: e1 },
                AbstractKont::RuleMatch { candidate_rule_indices: c2, env: e2 },
            ) => same_indices(c1.as_slice(), c2.as_slice()) && e1.same_env(e2),
            (
                AbstractKont::IfBranch { then_hash: t1, else_hash: f1, env: e1 },
                AbstractKont::IfBranch { then_hash: t2, else_hash: f2, env: e2 },
            ) => *t1 == *t2 && *f1 == *f2 && e1.same_env(e2),
            (AbstractKont::LetBind { body_hash: b1, env: e1 }, AbstractKont::LetBind { body_hash: b2, env: e2 }) => {
                *b1 == *b2 && e1.same_env(e2)
            },
            (AbstractKont::Generic { env: e1 }, AbstractKont::Generic { env: e2 }) => e1.same_env(e2),
            _ => false,
        }
    }
}

/// Whether two index lists are equal.
fn same_indices(a: &[u32], b: &[u32]) -> (r: bool)
    ensures
        r == (a@ == b@),
{
    if a.len() != b.len() {
        return false;
    }
    let mut i: usize = 0;
    while i < a.len()
        invariant
            i <= a@.len(),
            a@.len() == b@.len(),
            forall|j: int| 0 <= j < i ==> a@[j] == b@[j],
        decreases a.len() - i,
    {
        if a[i] != b[i] {
            return false;
        }
        i = i + 1;
    }
    assert(a@ =~= b@);
    true
}

impl Clone for AbstractControl {
    fn clone(&self) -> (r: Self)
        ensures
            r@ == self@,
            self.wf() ==> r.wf(),
    {
        match self {
            AbstractControl::Eval { expr_hash, env, depth } => AbstractControl::Eval {
                expr_hash: *expr_hash,
                env: env.clone(),
                depth: *depth,
            },
            AbstractControl::Apply { head, arity, env } => AbstractControl::Apply {
                head: head.clone(),
                arity: *arity,
                env: env.clone(),
            },
        }
    }
}

impl Clone for AbstractKont {
    fn clone(&self) -> (r: Self)
        ensures
            r@ == self@,
            self.wf() ==> r.wf(),
    {
        match self {
            AbstractKont::Done => AbstractKont::Done,
            AbstractKont::RuleMatch { candidate_rule_indices, env } => AbstractKont::RuleMatch {
                candidate_rule_indices: candidate_rule_indices.clone(),
                env: env.clone(),
            },
            AbstractKont::IfBranch { then_hash, else_hash, env } => AbstractKont::IfBranch {
                then_hash: *then_hash,
                else_hash: *else_hash,
                env: env.clone(),
            },
            AbstractKont::LetBind { body_hash, env } => AbstractKont::LetBind { body_hash: *body_hash, env: env.clone() },
            AbstractKont::Generic { env } => AbstractKont::Generic { env: env.clone() },
        }
    }
}

impl Clone for AbstractState {
    fn clone(&self) -> (r: Self)
        ensures
            r@ == self@,
            self.wf() ==> r.wf(),
    {
        AbstractState { control: self.control.clone(), kont: self.kont.clone() }
    }
}

/// Model of an abstract rule.
pub ghost struct RuleModel {
    pub lhs_hash: u64,
    pub rhs_hash: u64,
    pub lhs: Val,
    pub rhs: Val,
    pub rhs_type: Option<AbstractType>,
    pub rhs_has_variables: bool,
    pub is_pure: bool,
    pub rule_index: u32,
}

/// A rule in the form the analysis reads.
#[derive(Debug, Clone)]
pub struct AbstractRule {
    /// Content hash of the left-hand side.
    pub lhs_hash: u64,
    /// Content hash of the right-hand side.
    pub rhs_hash: u64,
    /// The left-hand side pattern.
    pub lhs: MettaValue,
    /// The right-hand side template.
    pub rhs: MettaValue,
    /// The type that the body always yields, where its head shows it.
    pub rhs_type: Option<AbstractType>,
    /// Whether the body has variables.
    pub rhs_has_variables: bool,
    /// Whether the body was classified pure.
    pub is_pure: bool,
    /// Index of the rule in the rule storage.
    pub rule_index: u32,
}

impl AbstractRule {
    /// The model of this rule.
    pub open spec fn view(&self) -> RuleModel {
        RuleModel {
            lhs_hash: self.lhs_hash,
            rhs_hash: self.rhs_hash,
            lhs: self.lhs@,
            rhs: self.rhs@,
            rhs_type: self.rhs_type,
            rhs_has_variables: self.rhs_has_variables,
            is_pure: self.is_pure,
            rule_index: self.rule_index,
        }
    }
}

/// The models of a sequence of rules.
pub open spec fn rule_models(rules: Seq<AbstractRule>) -> Seq<RuleModel> {
    rules.map_values(|r: AbstractRule| r@)
}

/// A rule as the environment stores it: its two sides, whether its body has
/// variables, and whether its body was classified pure.
#[derive(Debug, Clone)]
pub struct RuleEntry {
    pub lhs: MettaValue,
    pub rhs: MettaValue,
    pub rhs_has_variables: bool,
    pub rhs_is_pure: bool,
}

/// The head symbol and arity under which a rule is indexed: those of an
/// S-expression pattern (an empty head when the first item is not an atom),
/// or a bare atom with arity 0; other patterns are not indexed.
pub open spec fn rule_key(lhs: Val) -> Option<(Seq<char>, usize)> {
    match lhs {
        Val::SExpr(items) => Some(
            (
                match items[0] {
                    Val::Atom(h) => h,
                    _ => Seq::<char>::empty(),
                },
                items.len() as usize,
            ),
        ),
        Val::Atom(a) => Some((a, 0usize)),
        _ => None,
    }
}

/// The type that a rule body yields, known from its head: integer
/// arithmetic gives a long, comparison and logic give a boolean.
pub open spec fn rhs_result_type(rhs: Val) -> Option<AbstractType> {
    match rhs {
        Val::SExpr(items) => if items.len() == 0 {
            None
        } else {
            match items[0] {
            Val::Atom(name) => if name == "+"@ || name == "-"@ || name == "*"@ || name == "/"@ || name == "%"@
                || name == "abs"@ || name == "pow"@ {
                Some(AbstractType::Long)
            } else if name == "<"@ || name == "<="@ || name == ">"@ || name == ">="@ || name == "=="@
                || name == "!="@ || name == "and"@ || name == "or"@ || name == "not"@ {
                Some(AbstractType::Bool)
            } else {
                None
            },
            _ => None,
            }
        },
        _ => None,
    }
}

/// A rule body headed by an integer arithmetic builtin (`+ - * / % abs
/// pow`) yields a `Long`; one headed by a comparison or logic builtin
/// (`< <= > >= == != and or not`) yields a `Bool`; any other body has no
/// known type.
pub proof fn lemma_body_result_types(items: Seq<Val>, head: Seq<char>)
    requires
        items.len() > 0,
        items[0] == Val::Atom(head),
    ensures
        (head == "+"@ || head == "-"@ || head == "*"@ || head == "/"@ || head == "%"@ || head == "abs"@
            || head == "pow"@) ==> rhs_result_type(Val::SExpr(items)) == Some(AbstractType::Long),
        (head == "<"@ || head == "<="@ || head == ">"@ || head == ">="@ || head == "=="@ || head == "!="@
            || head == "and"@ || head == "or"@ || head == "not"@) ==> rhs_result_type(Val::SExpr(items)) == Some(
            AbstractType::Bool,
        ),
        !(head == "+"@ || head == "-"@ || head == "*"@ || head == "/"@ || head == "%"@ || head == "abs"@
            || head == "pow"@ || head == "<"@ || head == "<="@ || head == ">"@ || head == ">="@ || head == "=="@
            || head == "!="@ || head == "and"@ || head == "or"@ || head == "not"@) ==> rhs_result_type(
            Val::SExpr(items),
        ) is None,
{
    broadcast use vstd::string::group_string_axioms;

    if head == "<"@ {
        reveal_strlit("<");
        reveal_strlit("+");
        assert("+"@[0] != "<"@[0]);
        reveal_strlit("-");
        assert("-"@[0] != "<"@[0]);
        reveal_strlit("*");
        assert("*"@[0] != "<"@[0]);
        reveal_strlit("/");
        assert("/"@[0] != "<"@[0]);
        reveal_strlit("%");
        assert("%"@[0] != "<"@[0]);
        reveal_strlit("abs");
        assert("abs"@.len() != "<"@.len());
        reveal_strlit("pow");
        assert("pow"@.len() != "<"@.len());
    }
    if head == "<="@ {
        reveal_strlit("<=");
        reveal_strlit("+");
        assert("+"@.len() != "<="@.len());
        reveal_strlit("-");
        assert("-"@.len() != "<="@.len());
        reveal_strlit("*");
        assert("*"@.len() != "<="@.len());
        reveal_strlit("/");
        assert("/"@.len() != "<="@.len());
        reveal_strlit("%");
        assert("%"@.len() != "<="@.len());
        reveal_strlit("abs");
        assert("abs"@.len() != "<="@.len());
        reveal_strlit("pow");
        assert("pow"@.len() != "<="@.len());
    }
    if head == ">"@ {
        reveal_strlit(">");
        reveal_strlit("+");
        assert("+"@[0] != ">"@[0]);
        reveal_strlit("-");
        assert("-"@[0] != ">"@[0]);
        reveal_strlit("*");
        assert("*"@[0] != ">"@[0]);
        reveal_strlit("/");
        assert("/"@[0] != ">"@[0]);
        reveal_strlit("%");
        assert("%"@[0] != ">"@[0]);
        reveal_strlit("abs");
        assert("abs"@.len() != ">"@.len());
        reveal_strlit("pow");
        assert("pow"@.len() != ">"@.len());
    }
    if head == ">="@ {
        reveal_strlit(">=");
        reveal_strlit("+");
        assert("+"@.len() != ">="@.len());
        reveal_strlit("-");
        assert("-"@.len() != ">="@.len());
        reveal_strlit("*");
        assert("*"@.len() != ">="@.len());
        reveal_strlit("/");
        assert("/"@.len() != ">="@.len());
        reveal_strlit("%");
        assert("%"@.len() != ">="@.len());
        reveal_strlit("abs");
        assert("abs"@.len() != ">="@.len());
        reveal_strlit("pow");
        assert("pow"@.len() != ">="@.len());
    }
    if head == "=="@ {
        reveal_strlit("==");
        reveal_strlit("+");
        assert("+"@.len() != "=="@.len());
        reveal_strlit("-");
        assert("-"@.len() != "=="@.len());
        reveal_strlit("*");
        assert("*"@.len() != "=="@.len());
        reveal_strlit("/");
        assert("/"@.len() != "=="@.len());
        reveal_strlit("%");
        assert("%"@.len() != "=="@.len());
        reveal_strlit("abs");
        assert("abs"@.len() != "=="@.len());
        reveal_strlit("pow");
        assert("pow"@.len() != "=="@.len());
    }
    if head == "!="@ {
        reveal_strlit("!=");
        reveal_strlit("+");
        assert("+"@.len() != "!="@.len());
        reveal_strlit("-");
        assert("-"@.len() != "!="@.len());
        reveal_strlit("*");
        assert("*"@.len() != "!="@.len());
        reveal_strlit("/");
        assert("/"@.len() != "!="@.len());
        reveal_strlit("%");
        assert("%"@.len() != "!="@.len());
        reveal_strlit("abs");
        assert("abs"@.len() != "!="@.len());
        reveal_strlit("pow");
        assert("pow"@.len() != "!="@.len());
    }
    if head == "and"@ {
        reveal_strlit("and");
        reveal_strlit("+");
        assert("+"@.len() != "and"@.len());
        reveal_strlit("-");
        assert("-"@.len() != "and"@.len());
        reveal_strlit("*");
        assert("*"@.len() != "and"@.len());
        reveal_strlit("/");
        assert("/"@.len() != "and"@.len());
        reveal_strlit("%");
        assert("%"@.len() != "and"@.len());
        reveal_strlit("abs");
        assert("abs"@[1] != "and"@[1]);
        reveal_strlit("pow");
        assert("pow"@[0] != "and"@[0]);
    }
    if head == "or"@ {
        reveal_strlit("or");
        reveal_strlit("+");
        assert("+"@.len() != "or"@.len());
        reveal_strlit("-");
        assert("-"@.len() != "or"@.len());
        reveal_strlit("*");
        assert("*"@.len() != "or"@.len());
        reveal_strlit("/");
        assert("/"@.len() != "or"@.len());
        reveal_strlit("%");
        assert("%"@.len() != "or"@.len());
        reveal_strlit("abs");
        assert("abs"@.len() != "or"@.len());
        reveal_strlit("pow");
        assert("pow"@.len() != "or"@.len());
    }
    if head == "not"@ {
        reveal_strlit("not");
        reveal_strlit("+");
        assert("+"@.len() != "not"@.len());
        reveal_strlit("-");
        assert("-"@.len() != "not"@.len());
        reveal_strlit("*");
        assert("*"@.len() != "not"@.len());
        reveal_strlit("/");
        assert("/"@.len() != "not"@.len());
        reveal_strlit("%");
        assert("%"@.len() != "not"@.len());
        reveal_strlit("abs");
        assert("abs"@[0] != "not"@[0]);
        reveal_strlit("pow");
        assert("pow"@[0] != "not"@[0]);
    }
}

/// The indexing key of a rule pattern.
fn lhs_key(lhs: &MettaValue) -> (r: Option<(String, usize)>)
    ensures
        match r {
            Some(k) => rule_key(lhs@) == Some((k.0@, k.1)),
            None => rule_key(lhs@) is None,
        },
{
    match lhs {
        MettaValue::SExpr(items) => {
            proof {
                lemma_sexpr_view(lhs, items);
            }
            if items.len() == 0 {
                return None;
            }
            let head = match &items[0] {
                MettaValue::Atom(h) => h.clone(),
                _ => String::new(),
            };
            proof {
                assert(crate::value::seq_view(items@)[0] == items@[0]@);
            }
            Some((head, items.len()))
        },
        MettaValue::Atom(a) => Some((a.clone(), 0)),
        _ => None,
    }
}

/// The type that a rule body yields, where its head shows it.
fn body_type(rhs: &MettaValue) -> (r: Option<AbstractType>)
    ensures
        r == rhs_result_type(rhs@),
{
    match rhs {
        MettaValue::SExpr(items) => {
            proof {
                lemma_sexpr_view(rhs, items);
            }
            if items.len() == 0 {
                return None;
            }
            proof {
                assert(crate::value::seq_view(items@)[0] == items@[0]@);
            }
            match &items[0] {
                MettaValue::Atom(name) => {
                    let n = name.as_str();
                    if str_eq(n, "+") || str_eq(n, "-") || str_eq(n, "*") || str_eq(n, "/") || str_eq(n, "%")
                        || str_eq(n, "abs") || str_eq(n, "pow") {
                        Some(AbstractType::Long)
                    } else if str_eq(n, "<") || str_eq(n, "<=") || str_eq(n, ">") || str_eq(n, ">=")
                        || str_eq(n, "==") || str_eq(n, "!=") || str_eq(n, "and") || str_eq(n, "or")
                        || str_eq(n, "not") {
                        Some(AbstractType::Bool)
                    } else {
                        None
                    }
                },
                _ => None,
            }
        },
        _ => None,
    }
}

/// A read-only snapshot of the rules for analysis, grouped by the head and
/// arity of their patterns.
#[derive(Debug)]
pub struct EnvironmentSnapshot {
    rules: Vec<((String, usize), Vec<AbstractRule>)>,
    /// Total number of rules.
    pub total_rules: u32,
}

impl EnvironmentSnapshot {
    /// The keys of the groups, in order of first appearance.
    pub closed spec fn keys(&self) -> Seq<(Seq<char>, usize)> {
        self.rules@.map_values(|e: ((String, usize), Vec<AbstractRule>)| (e.0.0@, e.0.1))
    }

    /// The groups of rules, in the same order.
    pub closed spec fn groups(&self) -> Seq<Seq<RuleModel>> {
        self.rules@.map_values(|e: ((String, usize), Vec<AbstractRule>)| rule_models(e.1@))
    }

    /// The rules of each key.
    pub open spec fn view(&self) -> Map<(Seq<char>, usize), Seq<RuleModel>> {
        assoc(self.keys(), self.groups())
    }

    /// The rules under a key, none where it has no group.
    pub open spec fn candidates(&self, key: (Seq<char>, usize)) -> Seq<RuleModel> {
        if self@.contains_key(key) {
            self@[key]
        } else {
            Seq::empty()
        }
    }

    /// No key is held twice.
    pub closed spec fn wf(&self) -> bool {
        self.keys().no_duplicates()
    }

    /// The number of rules.
    pub closed spec fn rule_count(&self) -> u32 {
        self.total_rules
    }

    /// A snapshot without rules.
    pub fn empty() -> (r: Self)
        ensures
            r.wf(),
            r@ == Map::<(Seq<char>, usize), Seq<RuleModel>>::empty(),
            r.groups() == Seq::<Seq<RuleModel>>::empty(),
            r.rule_count() == 0,
    {
        let r = EnvironmentSnapshot { rules: Vec::new(), total_rules: 0 };
        assert(r.keys() =~= Seq::<(Seq<char>, usize)>::empty());
        assert(r.groups() =~= Seq::<Seq<RuleModel>>::empty());
        proof {
            lemma_assoc_empty::<(Seq<char>, usize), Seq<RuleModel>>();
        }
        r
    }

    /// The position of the group for (head, arity), if any.
    fn find(&self, head: &str, arity: usize) -> (r: Option<usize>)
        ensures
            match r {
                Some(i) => i < self.rules@.len() && self.keys()[i as int] == (head@, arity),
                None => !self.keys().contains((head@, arity)),
            },
    {
        let mut i: usize = 0;
        while i < self.rules.len()
            invariant
                i <= self.rules@.len(),
                forall|k: int| 0 <= k < i ==> self.keys()[k] != (head@, arity),
            decreases self.rules.len() - i,
        {
            if self.rules[i].0.1 == arity && str_eq(self.rules[i].0.0.as_str(), head) {
                return Some(i);
            }
            i = i + 1;
        }
        None
    }

    /// The rules whose pattern has the given head and arity.
    pub fn get_candidates(&self, head: &str, arity: usize) -> (r: &[AbstractRule])
        requires
            self.wf(),
        ensures
            rule_models(r@) == self.candidates((head@, arity)),
    {
        match self.find(head, arity) {
            Some(i) => {
                proof {
                    lemma_assoc_at(self.keys(), self.groups(), i as int);
                }
                self.rules[i].1.as_slice()
            },
            None => {
                let r: &[AbstractRule] = &[];
                assert(rule_models(r@) =~= Seq::<RuleModel>::empty());
                r
            },
        }
    }

    /// Add a rule to the group of its key, creating the group if needed.
    fn add_rule(&mut self, key: (String, usize), rule: AbstractRule)
        requires
            old(self).wf(),
        ensures
            final(self).wf(),
            final(self)@ == old(self)@.insert(
                (key.0@, key.1),
                old(self).candidates((key.0@, key.1)).push(rule@),
            ),
            final(self).rule_count() == old(self).rule_count(),
    {
        let ghost keys = self.keys();
        let ghost groups = self.groups();
        let ghost k = (key.0@, key.1);
        let ghost rm = rule@;
        match self.find(key.0.as_str(), key.1) {
            Some(i) => {
                proof {
                    lemma_assoc_at(keys, groups, i as int);
                }
                let (kk, mut group) = self.rules.remove(i);
                let ghost before = group@;
                group.push(rule);
                proof {
                    assert(rule_models(group@) =~= rule_models(before).push(rm));
                }
                self.rules.insert(i, (kk, group));
                proof {
                    assert(self.keys() =~= keys);
                    assert(self.groups() =~= groups.update(i as int, groups[i as int].push(rm)));
                    lemma_assoc_update(keys, groups, i as int, groups[i as int].push(rm));
                }
            },
            None => {
                let mut group: Vec<AbstractRule> = Vec::new();
                group.push(rule);
                proof {
                    assert(rule_models(group@) =~= seq![rm]);
                    assert(seq![rm] =~= Seq::<RuleModel>::empty().push(rm));
                    assert(!old(self)@.contains_key(k));
                }
                self.rules.push((key, group));
                proof {
                    assert(self.keys() =~= keys.push(k));
                    assert(self.groups() =~= groups.push(seq![rm]));
                    lemma_assoc_push(keys, groups, k, seq![rm]);
                }
            },
        }
    }
}

/// The rule that the snapshot makes of an entry, given its index.
pub open spec fn rule_of(e: RuleEntry, index: u32) -> RuleModel {
    RuleModel {
        lhs_hash: value_hash(e.lhs@),
        rhs_hash: value_hash(e.rhs@),
        lhs: e.lhs@,
        rhs: e.rhs@,
        rhs_type: rhs_result_type(e.rhs@),
        rhs_has_variables: e.rhs_has_variables,
        is_pure: e.rhs_is_pure,
        rule_index: index,
    }
}

/// The snapshot of the first `n` entries: the rules of each key, and how
/// many rules were indexed.
pub open spec fn snapshot_of(entries: Seq<RuleEntry>, n: int) -> (Map<(Seq<char>, usize), Seq<RuleModel>>, nat)
    decreases n,
{
    if n <= 0 {
        (Map::empty(), 0)
    } else {
        let (m, count) = snapshot_of(entries, n - 1);
        match rule_key(entries[n - 1].lhs@) {
            Some(k) => (
                m.insert(
                    k,
                    (if m.contains_key(k) {
                        m[k]
                    } else {
                        Seq::empty()
                    }).push(rule_of(entries[n - 1], count as u32)),
                ),
                count + 1,
            ),
            None => (m, count),
        }
    }
}

/// Build the analysis snapshot of a list of rules: each rule whose pattern
/// can be indexed gets the next rule index and joins the group of its head
/// and arity.
pub fn snapshot_environment(entries: &[RuleEntry]) -> (r: EnvironmentSnapshot)
    requires
        entries@.len() <= u32::MAX,
    ensures
        r.wf(),
        r@ == snapshot_of(entries@, entries@.len() as int).0,
        r.rule_count() == snapshot_of(entries@, entries@.len() as int).1,
{
    let mut snap = EnvironmentSnapshot::empty();
    let mut i: usize = 0;
    while i < entries.len()
        invariant
            i <= entries@.len(),
            entries@.len() <= u32::MAX,
            snap.wf(),
            snap@ == snapshot_of(entries@, i as int).0,
            snap.total_rules == snapshot_of(entries@, i as int).1,
            snap.total_rules <= i,
        decreases entries.len() - i,
    {
        let entry = &entries[i];
        match lhs_key(&entry.lhs) {
            Some(key) => {
                let rule = AbstractRule {
                    lhs_hash: hash_metta_value(&entry.lhs),
                    rhs_hash: hash_metta_value(&entry.rhs),
                    lhs: entry.lhs.clone(),
                    rhs: entry.rhs.clone(),
                    rhs_type: body_type(&entry.rhs),
                    rhs_has_variables: entry.rhs_has_variables,
                    is_pure: entry.rhs_is_pure,
                    rule_index: snap.total_rules,
                };
                snap.add_rule(key, rule);
                snap.total_rules = snap.total_rules + 1;
            },
            None => {},
        }
        i = i + 1;
    }
    snap
}

/// The successor states of a step, held inline.
#[verifier::external_body]
#[derive(Debug)]
pub struct StateList {
    states: SmallVec<[AbstractState; 4]>,
}

/// The states held by a list of successors.
pub uninterp spec fn listed_states(l: StateList) -> Seq<AbstractState>;

/// `SmallVec::new`: no states.
#[verifier::external_body]
fn state_list_new() -> (r: StateList)
    ensures
        listed_states(r) == Seq::<AbstractState>::empty(),
{
    StateList { states: SmallVec::new() }
}

/// `SmallVec::push`: add a state at the end.
#[verifier::external_body]
fn state_list_push(l: &mut StateList, s: AbstractState)
    ensures
        listed_states(*final(l)) == listed_states(*old(l)).push(s),
{
    l.states.push(s);
}

/// `SmallVec::into_vec`: the states, in order.
#[verifier::external_body]
fn state_list_into_vec(l: StateList) -> (r: Vec<AbstractState>)
    ensures
        r@ == listed_states(l),
{
    l.states.into_vec()
}

/// `SmallVec::len`: the number of states.
#[verifier::external_body]
fn state_list_len(l: &StateList) -> (r: usize)
    ensures
        r == listed_states(*l).len(),
{
    l.states.len()
}

impl StateList {
    /// The number of states.
    pub fn len(&self) -> (r: usize)
        ensures
            r == listed_states(*self).len(),
    {
        state_list_len(self)
    }

    /// Whether there is no state.
    pub fn is_empty(&self) -> (r: bool)
        ensures
            r == (listed_states(*self).len() == 0),
    {
        state_list_len(self) == 0
    }

    /// The states, in order.
    pub fn into_vec(self) -> (r: Vec<AbstractState>)
        ensures
            r@ == listed_states(self),
    {
        state_list_into_vec(self)
    }
}

/// The models of a sequence of states.
pub open spec fn state_models(s: Seq<AbstractState>) -> Seq<(ControlModel, KontModel)> {
    s.map_values(|x: AbstractState| x@)
}

/// One more level of depth, saturating.
pub open spec fn next_depth(d: u16) -> u16 {
    if d < u16::MAX {
        (d + 1) as u16
    } else {
        d
    }
}

/// Among the first `k` rules of a group, those with index `idx`.
pub open spec fn group_hits(g: Seq<RuleModel>, idx: u32, k: int) -> Seq<RuleModel>
    decreases k,
{
    if k <= 0 {
        Seq::empty()
    } else if g[k - 1].rule_index == idx {
        group_hits(g, idx, k - 1).push(g[k - 1])
    } else {
        group_hits(g, idx, k - 1)
    }
}

/// Among the rules of the first `k` groups, those with index `idx`.
pub open spec fn groups_hits(gs: Seq<Seq<RuleModel>>, idx: u32, k: int) -> Seq<RuleModel>
    decreases k,
{
    if k <= 0 {
        Seq::empty()
    } else {
        groups_hits(gs, idx, k - 1) + group_hits(gs[k - 1], idx, gs[k - 1].len() as int)
    }
}

/// For each of the first `k` candidate indices in turn, the rules that
/// have it.
pub open spec fn candidate_hits(gs: Seq<Seq<RuleModel>>, cands: Seq<u32>, k: int) -> Seq<RuleModel>
    decreases k,
{
    if k <= 0 {
        Seq::empty()
    } else {
        candidate_hits(gs, cands, k - 1) + groups_hits(gs, cands[k - 1], gs.len() as int)
    }
}

/// The store after one allocation.
pub open spec fn alloc_model(
    m: Map<(u64, Seq<u64>), Set<AbsVal>>,
    a: (u64, Seq<u64>),
    v: AbsVal,
) -> Map<(u64, Seq<u64>), Set<AbsVal>> {
    m.insert(a, widen(stored_at(m, a).insert(v), DEFAULT_MAX_SET_SIZE))
}

/// The store after recording, for each hit with a known body type, that
/// its body can yield any value of that type.
pub open spec fn store_after(m: Map<(u64, Seq<u64>), Set<AbsVal>>, hits: Seq<RuleModel>) -> Map<
    (u64, Seq<u64>),
    Set<AbsVal>,
>
    decreases hits.len(),
{
    if hits.len() == 0 {
        m
    } else {
        let before = store_after(m, hits.drop_last());
        match hits.last().rhs_type {
            Some(t) => alloc_model(before, (hits.last().rhs_hash, Seq::empty()), AbsVal::AnyOfType(t)),
            None => before,
        }
    }
}

/// Whether recording the hits changed the store.
pub open spec fn store_changed_by(m: Map<(u64, Seq<u64>), Set<AbsVal>>, hits: Seq<RuleModel>) -> bool
    decreases hits.len(),
{
    if hits.len() == 0 {
        false
    } else {
        store_changed_by(m, hits.drop_last()) || store_after(m, hits) != store_after(m, hits.drop_last())
    }
}

/// Recording hits keeps every address covering what it covered.
pub proof fn lemma_store_after_keeps_covers(
    m: Map<(u64, Seq<u64>), Set<AbsVal>>,
    hits: Seq<RuleModel>,
    b: (u64, Seq<u64>),
    v: AbsVal,
)
    requires
        covers(stored_at(m, b), v),
    ensures
        covers(stored_at(store_after(m, hits), b), v),
    decreases hits.len(),
{
    if hits.len() > 0 {
        lemma_store_after_keeps_covers(m, hits.drop_last(), b, v);
        match hits.last().rhs_type {
            Some(t) => {
                lemma_covers_after_alloc(
                    store_after(m, hits.drop_last()),
                    (hits.last().rhs_hash, Seq::empty()),
                    AbsVal::AnyOfType(t),
                    b,
                    v,
                );
            },
            None => {},
        }
    }
}

/// The state that evaluates the body of a hit.
pub open spec fn body_state(r: RuleModel, env: EnvModel, depth: u16) -> (ControlModel, KontModel) {
    (ControlModel::Eval { expr_hash: r.rhs_hash, env, depth: next_depth(depth) }, KontModel::Done)
}

/// The successors of a state.
pub open spec fn step_successors(
    s: (ControlModel, KontModel),
    snap: Map<(Seq<char>, usize), Seq<RuleModel>>,
    gs: Seq<Seq<RuleModel>>,
) -> Seq<(ControlModel, KontModel)> {
    match s.0 {
        ControlModel::Eval { depth, .. } => match s.1 {
            KontModel::RuleMatch { candidates, env } => candidate_hits(gs, candidates, candidates.len() as int).map_values(
                |r: RuleModel| body_state(r, env, depth),
            ),
            KontModel::IfBranch { then_hash, else_hash, env } => seq![
                (ControlModel::Eval { expr_hash: then_hash, env, depth: next_depth(depth) }, KontModel::Done),
                (ControlModel::Eval { expr_hash: else_hash, env, depth: next_depth(depth) }, KontModel::Done),
            ],
            KontModel::LetBind { body_hash, env } => seq![
                (ControlModel::Eval { expr_hash: body_hash, env, depth: next_depth(depth) }, KontModel::Done),
            ],
            _ => Seq::empty(),
        },
        ControlModel::Apply { head, arity, env } => {
            let key = (head, arity as usize);
            if snap.contains_key(key) && snap[key].len() > 0 {
                seq![
                    (
                        ControlModel::Eval { expr_hash: 0, env, depth: 0 },
                        KontModel::RuleMatch { candidates: snap[key].map_values(|r: RuleModel| r.rule_index), env },
                    ),
                ]
            } else {
                Seq::empty()
            }
        },
    }
}

/// The rules that a step's rule match reaches, in the order it reaches them.
pub open spec fn step_hits(s: (ControlModel, KontModel), gs: Seq<Seq<RuleModel>>) -> Seq<RuleModel> {
    match (s.0, s.1) {
        (ControlModel::Eval { .. }, KontModel::RuleMatch { candidates, .. }) => candidate_hits(
            gs,
            candidates,
            candidates.len() as int,
        ),
        _ => Seq::empty(),
    }
}

/// Record a hit: note its body type in the store and queue its body.
fn record_hit(
    rule: &AbstractRule,
    env: &AbstractEnv,
    depth: u16,
    store: &mut AbstractStore,
    successors: &mut StateList,
    store_changed: &mut bool,
    Ghost(m0): Ghost<Map<(u64, Seq<u64>), Set<AbsVal>>>,
    Ghost(hits): Ghost<Seq<RuleModel>>,
)
    requires
        env.wf(),
        old(store).wf(),
        old(store)@ == store_after(m0, hits),
        *old(store_changed) == store_changed_by(m0, hits),
        state_models(listed_states(*old(successors))) == hits.map_values(|r: RuleModel| body_state(r, env@, depth)),
        forall|i: int| 0 <= i < listed_states(*old(successors)).len() ==> (#[trigger] listed_states(*old(successors))[i]).wf(),
    ensures
        final(store).wf(),
        final(store)@ == store_after(m0, hits.push(rule@)),
        *final(store_changed) == store_changed_by(m0, hits.push(rule@)),
        state_models(listed_states(*final(successors))) == hits.push(rule@).map_values(
            |r: RuleModel| body_state(r, env@, depth),
        ),
        forall|i: int| 0 <= i < listed_states(*final(successors)).len() ==> (#[trigger] listed_states(*final(successors))[i]).wf(),
{
    let ghost nh = hits.push(rule@);
    assert(nh.drop_last() =~= hits);
    assert(nh.last() == rule@);
    let rhs_hash = rule.rhs_hash;
    match rule.rhs_type {
        Some(t) => {
            let changed = store.allocate(AbstractAddr::mono(rhs_hash), AbstractValue::AnyOfType(t));
            *store_changed = *store_changed || changed;
        },
        None => {},
    }
    let ghost before = listed_states(*successors);
    let next = AbstractState {
        control: AbstractControl::Eval { expr_hash: rhs_hash, env: env.clone(), depth: depth.saturating_add(1) },
        kont: AbstractKont::Done,
    };
    state_list_push(successors, next);
    proof {
        assert(state_models(listed_states(*successors)) =~= state_models(before).push(next@));
        assert(nh.map_values(|r: RuleModel| body_state(r, env@, depth)) =~= hits.map_values(
            |r: RuleModel| body_state(r, env@, depth),
        ).push(body_state(rule@, env@, depth)));
        assert forall|i: int| 0 <= i < listed_states(*successors).len() implies (#[trigger] listed_states(*successors)[i]).wf() by {
            if i < before.len() {
                assert(listed_states(*successors)[i] == before[i]);
            }
        }
    }
}

/// Compute the successors of an abstract state, and record in the store
/// the body types of the rules that a rule match reaches. Returns the
/// successors and whether the store changed.
pub fn abstract_step(
    state: &AbstractState,
    store: &mut AbstractStore,
    env_snapshot: &EnvironmentSnapshot,
    config: &AnalysisConfig,
) -> (r: (StateList, bool))
    requires
        state.wf(),
        old(store).wf(),
        env_snapshot.wf(),
    ensures
        final(store).wf(),
        state_models(listed_states(r.0)) == step_successors(state@, env_snapshot@, env_snapshot.groups()),
        forall|i: int| 0 <= i < listed_states(r.0).len() ==> (#[trigger] listed_states(r.0)[i]).wf(),
        final(store)@ == store_after(old(store)@, step_hits(state@, env_snapshot.groups())),
        r.1 == store_changed_by(old(store)@, step_hits(state@, env_snapshot.groups())),
{
    let mut successors = state_list_new();
    let mut store_changed = false;
    let ghost m0 = store@;
    let ghost gs = env_snapshot.groups();
    assert(state_models(listed_states(successors)) =~= Seq::<(ControlModel, KontModel)>::empty());
    match &state.control {
        AbstractControl::Eval { expr_hash: _, env: _, depth } => {
            match &state.kont {
                AbstractKont::Done => {},
                AbstractKont::RuleMatch { candidate_rule_indices, env: match_env } => {
                    let cands = candidate_rule_indices.as_slice();
                    let ghost menv = match_env@;
                    let ghost mut hits: Seq<RuleModel> = Seq::empty();
                    assert(state_models(listed_states(successors)) =~= hits.map_values(
                        |r: RuleModel| body_state(r, menv, *depth),
                    ));
                    let mut c: usize = 0;
                    while c < cands.len()
                        invariant
                            c <= cands@.len(),
                            match_env.wf(),
                            menv == match_env@,
                            env_snapshot.wf(),
                            gs == env_snapshot.groups(),
                            store.wf(),
                            hits == candidate_hits(gs, cands@, c as int),
                            store@ == store_after(m0, hits),
                            store_changed == store_changed_by(m0, hits),
                            state_models(listed_states(successors)) == hits.map_values(
                                |r: RuleModel| body_state(r, menv, *depth),
                            ),
                            forall|i: int| 0 <= i < listed_states(successors).len() ==> (#[trigger] listed_states(successors)[i]).wf(),
                        decreases cands.len() - c,
                    {
                        let idx = cands[c];
                        let ghost start = hits;
                        let mut g: usize = 0;
                        while g < env_snapshot.rules.len()
                            invariant
                                g <= env_snapshot.rules@.len(),
                                gs.len() == env_snapshot.rules@.len(),
                                match_env.wf(),
                                menv == match_env@,
                                gs == env_snapshot.groups(),
                                store.wf(),
                                hits == start + groups_hits(gs, idx, g as int),
                                store@ == store_after(m0, hits),
                                store_changed == store_changed_by(m0, hits),
                                state_models(listed_states(successors)) == hits.map_values(
                                    |r: RuleModel| body_state(r, menv, *depth),
                                ),
                                forall|i: int| 0 <= i < listed_states(successors).len() ==> (#[trigger] listed_states(successors)[i]).wf(),
                            decreases env_snapshot.rules.len() - g,
                        {
                            let rules = &env_snapshot.rules[g].1;
                            let ghost mid = hits;
                            assert(gs[g as int] == rule_models(rules@));
                            let mut k: usize = 0;
                            while k < rules.len()
                                invariant
                                    k <= rules@.len(),
                                    gs[g as int] == rule_models(rules@),
                                    match_env.wf(),
                                    menv == match_env@,
                                    store.wf(),
                                    hits == mid + group_hits(gs[g as int], idx, k as int),
                                    store@ == store_after(m0, hits),
                                    store_changed == store_changed_by(m0, hits),
                                    state_models(listed_states(successors)) == hits.map_values(
                                        |r: RuleModel| body_state(r, menv, *depth),
                                    ),
                                    forall|i: int| 0 <= i < listed_states(successors).len() ==> (#[trigger] listed_states(successors)[i]).wf(),
                                decreases rules.len() - k,
                            {
                                let rule = &rules[k];
                                assert(gs[g as int][k as int] == rule@);
                                if rule.rule_index == idx {
                                    record_hit(
                                        rule,
                                        match_env,
                                        *depth,
                                        store,
                                        &mut successors,
                                        &mut store_changed,
                                        Ghost(m0),
                                        Ghost(hits),
                                    );
                                    proof {
                                        assert(mid + group_hits(gs[g as int], idx, k + 1) =~= hits.push(rule@));
                                        hits = hits.push(rule@);
                                    }
                                }
                                k = k + 1;
                            }
                            proof {
                                assert(start + groups_hits(gs, idx, g + 1) =~= mid + group_hits(
                                    gs[g as int],
                                    idx,
                                    gs[g as int].len() as int,
                                ));
                            }
                            g = g + 1;
                        }
                        proof {
                            assert(candidate_hits(gs, cands@, c + 1) =~= start + groups_hits(gs, idx, gs.len() as int));
                        }
                        c = c + 1;
                    }
                },
                AbstractKont::IfBranch { then_hash, else_hash, env: branch_env } => {
                    state_list_push(
                        &mut successors,
                        AbstractState {
                            control: AbstractControl::Eval {
                                expr_hash: *then_hash,
                                env: branch_env.clone(),
                                depth: depth.saturating_add(1),
                            },
                            kont: AbstractKont::Done,
                        },
                    );
                    state_list_push(
                        &mut successors,
                        AbstractState {
                            control: AbstractControl::Eval {
                                expr_hash: *else_hash,
                                env: branch_env.clone(),
                                depth: depth.saturating_add(1),
                            },
                            kont: AbstractKont::Done,
                        },
                    );
                },
                AbstractKont::LetBind { body_hash, env: let_env } => {
                    state_list_push(
                        &mut successors,
                        AbstractState {
                            control: AbstractControl::Eval {
                                expr_hash: *body_hash,
                                env: let_env.clone(),
                                depth: depth.saturating_add(1),
                            },
                            kont: AbstractKont::Done,
                        },
                    );
                },
                AbstractKont::Generic { .. } => {},
            }
        },
        AbstractControl::Apply { head, arity, env } => {
            let candidates = env_snapshot.get_candidates(head.as_str(), *arity as usize);
            if candidates.len() > 0 {
                let mut indices: Vec<u32> = Vec::new();
                let mut i: usize = 0;
                while i < candidates.len()
                    invariant
                        i <= candidates@.len(),
                        indices@ == rule_models(candidates@).take(i as int).map_values(|r: RuleModel| r.rule_index),
                    decreases candidates.len() - i,
                {
                    indices.push(candidates[i].rule_index);
                    proof {
                        assert(rule_models(candidates@).take(i + 1) =~= rule_models(candidates@).take(i as int).push(
                            candidates@[i as int]@,
                        ));
                        assert(indices@ =~= rule_models(candidates@).take(i + 1).map_values(|r: RuleModel| r.rule_index));
                    }
                    i = i + 1;
                }
                proof {
                    assert(rule_models(candidates@).take(i as int) =~= rule_models(candidates@));
                }
                state_list_push(
                    &mut successors,
                    AbstractState {
                        control: AbstractControl::Eval { expr_hash: 0, env: env.clone(), depth: 0 },
                        kont: AbstractKont::RuleMatch {
                            candidate_rule_indices: rule_indices_from_slice(indices.as_slice()),
                            env: env.clone(),
                        },
                    },
                );
            }
        },
    }
    (successors, store_changed)
}

} // verus!
